//! Switching a blocking serial port to non-blocking use.
use vstd::prelude::*;

use crate::error::{errno_text, map_nix_error, os_error_kind};
use crate::error::{serial_error_of_nix, serial_error_of_os, Error, ErrorKind, ErrorView};
use crate::error::{IoErrorKind, NixError, OsError, OsErrorView};
use crate::platform::Platform;
use crate::step::{run, Step};
use crate::stream::{NativePort, SerialStream};

verus! {

/// The attributes of a terminal that nix lets be read and changed one by one.
#[derive(Debug, PartialEq, Eq)]
pub struct Attributes {
    /// How input is processed.
    pub input_flags: u64,
    /// How output is processed.
    pub output_flags: u64,
    /// How the line is driven.
    pub control_flags: u64,
    /// How the terminal behaves towards programs.
    pub local_flags: u64,
    /// The control characters.
    pub control_chars: Vec<u8>,
}

/// What `Attributes` say.
#[verifier::ext_equal]
pub struct AttributesView {
    pub input_flags: u64,
    pub output_flags: u64,
    pub control_flags: u64,
    pub local_flags: u64,
    pub control_chars: Seq<u8>,
}

impl View for Attributes {
    type V = AttributesView;

    open spec fn view(&self) -> AttributesView {
        AttributesView {
            input_flags: self.input_flags,
            output_flags: self.output_flags,
            control_flags: self.control_flags,
            local_flags: self.local_flags,
            control_chars: self.control_chars@,
        }
    }
}

/// When new attributes take effect.
#[derive(Clone, Copy, Debug, PartialEq, Eq, Structural)]
pub enum SetWhen {
    /// At once (`TCSANOW`).
    Now,
    /// When all output has been transmitted (`TCSADRAIN`).
    Drained,
    /// When all output has been transmitted, and with the input that was not
    /// read discarded (`TCSAFLUSH`).
    Flushed,
}

/// A call that configuring a port needs.
#[derive(Clone, Copy, Debug, PartialEq, Eq)]
pub enum ConfigureCall<'a> {
    /// Read the terminal attributes (`tcgetattr`).
    GetAttributes {
        /// The port.
        fd: i32,
    },
    /// Set the terminal attributes (`tcsetattr`).
    SetAttributes {
        /// The port.
        fd: i32,
        /// When they take effect.
        when: SetWhen,
        /// The attributes.
        attributes: &'a Attributes,
    },
    /// Read the status flags (`fcntl` with `F_GETFL`).
    GetFlags {
        /// The port.
        fd: i32,
    },
    /// Set the status flags (`fcntl` with `F_SETFL`).
    SetFlags {
        /// The port.
        fd: i32,
        /// The flags.
        flags: i32,
    },
    /// Look up the error that the last system call left behind.
    LastOsError,
}

/// What a `ConfigureCall` says.
#[verifier::ext_equal]
pub enum ConfigureCallView {
    GetAttributes { fd: i32 },
    SetAttributes { fd: i32, when: SetWhen, attributes: AttributesView },
    GetFlags { fd: i32 },
    SetFlags { fd: i32, flags: i32 },
    LastOsError,
}

impl<'a> View for ConfigureCall<'a> {
    type V = ConfigureCallView;

    open spec fn view(&self) -> ConfigureCallView {
        match *self {
            ConfigureCall::GetAttributes { fd } => ConfigureCallView::GetAttributes { fd },
            ConfigureCall::SetAttributes {
                fd,
                when,
                attributes,
            } => ConfigureCallView::SetAttributes { fd, when, attributes: attributes@ },
            ConfigureCall::GetFlags { fd } => ConfigureCallView::GetFlags { fd },
            ConfigureCall::SetFlags { fd, flags } => ConfigureCallView::SetFlags { fd, flags },
            ConfigureCall::LastOsError => ConfigureCallView::LastOsError,
        }
    }
}

/// What came back of a `ConfigureCall`.
#[derive(Debug, PartialEq, Eq)]
pub enum ConfigureReply {
    /// The attributes that were read.
    Attributes(Result<Attributes, NixError>),
    /// Whether the attributes were set.
    AttributesSet(Result<(), NixError>),
    /// The number that a call about the status flags returned.
    Returned(i32),
    /// The error that the last system call left behind.
    LastOsError(OsError),
}

/// What a `ConfigureReply` says.
#[verifier::ext_equal]
pub enum ConfigureReplyView {
    Attributes(Result<AttributesView, NixError>),
    AttributesSet(Result<(), NixError>),
    Returned(i32),
    LastOsError(OsErrorView),
}

impl View for ConfigureReply {
    type V = ConfigureReplyView;

    open spec fn view(&self) -> ConfigureReplyView {
        match self {
            ConfigureReply::Attributes(Ok(read)) => ConfigureReplyView::Attributes(Ok(read@)),
            ConfigureReply::Attributes(Err(error)) => ConfigureReplyView::Attributes(Err(*error)),
            ConfigureReply::AttributesSet(result) => ConfigureReplyView::AttributesSet(*result),
            ConfigureReply::Returned(number) => ConfigureReplyView::Returned(*number),
            ConfigureReply::LastOsError(error) => ConfigureReplyView::LastOsError(error@),
        }
    }
}

/// The call that is due.
#[derive(Debug, PartialEq, Eq)]
enum Stage {
    GetAttributes,
    SetAttributes(Attributes),
    GetFlags,
    SetFlags(i32),
    LastOsError,
}

/// A port on its way to non-blocking use.
///
/// The least number of bytes that a blocking read waits for is set to one, so
/// that a read is never answered with nothing, and then the port is set not to
/// block.
#[derive(Debug, PartialEq, Eq)]
pub struct Configuring {
    port: NativePort,
    platform: Platform,
    stage: Stage,
}

/// The call that is due, as a value.
#[verifier::ext_equal]
pub enum StageView {
    GetAttributes,
    SetAttributes(AttributesView),
    GetFlags,
    SetFlags(i32),
    LastOsError,
}

/// What a `Configuring` says.
#[verifier::ext_equal]
pub struct ConfiguringView {
    pub port: NativePort,
    pub platform: Platform,
    pub stage: StageView,
}

impl View for Configuring {
    type V = ConfiguringView;

    closed spec fn view(&self) -> ConfiguringView {
        ConfiguringView {
            port: self.port,
            platform: self.platform,
            stage: match self.stage {
                Stage::GetAttributes => StageView::GetAttributes,
                Stage::SetAttributes(attributes) => StageView::SetAttributes(attributes@),
                Stage::GetFlags => StageView::GetFlags,
                Stage::SetFlags(flags) => StageView::SetFlags(flags),
                Stage::LastOsError => StageView::LastOsError,
            },
        }
    }
}

/// A port of which nothing has been asked yet.
pub open spec fn configure_start(port: NativePort, platform: Platform) -> ConfiguringView {
    ConfiguringView { port, platform, stage: StageView::GetAttributes }
}

/// The attributes that were read, but for a `VMIN` of one.
pub open spec fn with_vmin_one(platform: Platform, read: AttributesView) -> AttributesView {
    AttributesView { control_chars: read.control_chars.update(platform.vmin as int, 1), ..read }
}

/// The call that is due.
pub open spec fn configure_call(state: ConfiguringView) -> ConfigureCallView {
    let fd = state.port.fd;
    match state.stage {
        StageView::GetAttributes => ConfigureCallView::GetAttributes { fd },
        StageView::SetAttributes(attributes) => ConfigureCallView::SetAttributes {
            fd,
            when: SetWhen::Now,
            attributes,
        },
        StageView::GetFlags => ConfigureCallView::GetFlags { fd },
        StageView::SetFlags(flags) => ConfigureCallView::SetFlags { fd, flags },
        StageView::LastOsError => ConfigureCallView::LastOsError,
    }
}

/// Where a reply leads. A reply to another call than the one that is due
/// changes nothing.
pub open spec fn configure_next(state: ConfiguringView, reply: ConfigureReplyView) -> Step<
    ConfiguringView,
    NativePort,
    ErrorView,
> {
    match (state.stage, reply) {
        (StageView::GetAttributes, ConfigureReplyView::Attributes(Ok(read))) => Step::Pending(
            ConfiguringView {
                stage: StageView::SetAttributes(with_vmin_one(state.platform, read)),
                ..state
            },
        ),
        (StageView::GetAttributes, ConfigureReplyView::Attributes(Err(error))) => Step::Finished(
            Err(serial_error_of_nix(error)),
        ),
        (StageView::SetAttributes(_), ConfigureReplyView::AttributesSet(Ok(_))) => Step::Pending(
            ConfiguringView { stage: StageView::GetFlags, ..state },
        ),
        (
            StageView::SetAttributes(_),
            ConfigureReplyView::AttributesSet(Err(error)),
        ) => Step::Finished(Err(serial_error_of_nix(error))),
        (StageView::GetFlags, ConfigureReplyView::Returned(flags)) => Step::Pending(
            ConfiguringView {
                stage: if flags < 0 {
                    StageView::LastOsError
                } else {
                    StageView::SetFlags(flags | state.platform.o_nonblock)
                },
                ..state
            },
        ),
        (StageView::SetFlags(_), ConfigureReplyView::Returned(status)) => if status == 0 {
            Step::Finished(Ok(state.port))
        } else {
            Step::Pending(ConfiguringView { stage: StageView::LastOsError, ..state })
        },
        (StageView::LastOsError, ConfigureReplyView::LastOsError(error)) => Step::Finished(
            Err(serial_error_of_os(error)),
        ),
        _ => Step::Pending(state),
    }
}

/// Control characters that were read are as many as the system has: they reach
/// to the one that is to be changed.
pub open spec fn readable(platform: Platform, reply: ConfigureReplyView) -> bool {
    reply matches ConfigureReplyView::Attributes(Ok(read)) ==> platform.vmin
        < read.control_chars.len()
}

impl Configuring {
    /// Begins to configure a port of the given system.
    pub fn new(port: NativePort, platform: Platform) -> (configuring: Configuring)
        ensures
            configuring@ == configure_start(port, platform),
    {
        Configuring { port, platform, stage: Stage::GetAttributes }
    }

    /// The system whose port this is.
    pub fn platform(&self) -> (platform: Platform)
        ensures
            platform == self@.platform,
    {
        self.platform
    }

    /// The call to make next.
    pub fn call(&self) -> (call: ConfigureCall<'_>)
        ensures
            call@ == configure_call(self@),
    {
        let fd = self.port.fd;
        match &self.stage {
            Stage::GetAttributes => ConfigureCall::GetAttributes { fd },
            Stage::SetAttributes(attributes) => ConfigureCall::SetAttributes {
                fd,
                when: SetWhen::Now,
                attributes,
            },
            Stage::GetFlags => ConfigureCall::GetFlags { fd },
            Stage::SetFlags(flags) => ConfigureCall::SetFlags { fd, flags: *flags },
            Stage::LastOsError => ConfigureCall::LastOsError,
        }
    }

    /// Takes what came back of the call.
    pub fn advance(self, reply: ConfigureReply) -> (step: Step<Configuring, SerialStream, Error>)
        requires
            readable(self@.platform, reply@),
        ensures
            step@ == configure_next(self@, reply@),
    {
        let Configuring { port, platform, stage } = self;
        match (stage, reply) {
            (Stage::GetAttributes, ConfigureReply::Attributes(Ok(mut attributes))) => {
                attributes.control_chars.set(platform.vmin, 1);
                Step::Pending(
                    Configuring { port, platform, stage: Stage::SetAttributes(attributes) },
                )
            },
            (Stage::GetAttributes, ConfigureReply::Attributes(Err(error))) => Step::Finished(
                Err(map_nix_error(error)),
            ),
            (Stage::SetAttributes(_), ConfigureReply::AttributesSet(Ok(_))) => Step::Pending(
                Configuring { port, platform, stage: Stage::GetFlags },
            ),
            (Stage::SetAttributes(_), ConfigureReply::AttributesSet(Err(error))) => Step::Finished(
                Err(map_nix_error(error)),
            ),
            (Stage::GetFlags, ConfigureReply::Returned(flags)) => {
                let stage = if flags < 0 {
                    Stage::LastOsError
                } else {
                    Stage::SetFlags(flags | platform.o_nonblock)
                };
                Step::Pending(Configuring { port, platform, stage })
            },
            (Stage::SetFlags(_), ConfigureReply::Returned(status)) => if status == 0 {
                Step::Finished(Ok(SerialStream::from_port(port)))
            } else {
                Step::Pending(Configuring { port, platform, stage: Stage::LastOsError })
            },
            (Stage::LastOsError, ConfigureReply::LastOsError(error)) => Step::Finished(
                Err(Error::from_os(error)),
            ),
            (stage, _) => Step::Pending(Configuring { port, platform, stage }),
        }
    }
}

/// Whether `reply` is one that `call` can have.
pub open spec fn answers(
    platform: Platform,
    call: ConfigureCallView,
    reply: ConfigureReplyView,
) -> bool {
    &&& readable(platform, reply)
    &&& match call {
        ConfigureCallView::GetAttributes { .. } => reply is Attributes,
        ConfigureCallView::SetAttributes { .. } => reply is AttributesSet,
        ConfigureCallView::GetFlags { .. } => reply is Returned,
        ConfigureCallView::SetFlags { .. } => reply is Returned,
        ConfigureCallView::LastOsError => reply is LastOsError,
    }
}

/// What `world` makes of configuring a port when `before` calls were made
/// already: the further calls, and the result.
///
/// The attributes are read and set, then the flags are read and set, and the
/// first call that fails ends it. A failed call about the flags is followed by
/// a look at the error that it left behind.
pub open spec fn configure_sequence(
    port: NativePort,
    platform: Platform,
    world: spec_fn(int, ConfigureCallView) -> ConfigureReplyView,
    before: int,
) -> (Seq<ConfigureCallView>, Result<NativePort, ErrorView>) {
    let fd = port.fd;
    let get_attributes = ConfigureCallView::GetAttributes { fd };
    let get_flags = ConfigureCallView::GetFlags { fd };
    let last_error = ConfigureCallView::LastOsError;
    match world(before, get_attributes)->Attributes_0 {
        Err(error) => (seq![get_attributes], Err(serial_error_of_nix(error))),
        Ok(read) => {
            let set_attributes = ConfigureCallView::SetAttributes {
                fd,
                when: SetWhen::Now,
                attributes: with_vmin_one(platform, read),
            };
            match world(before + 1, set_attributes)->AttributesSet_0 {
                Err(error) => (
                    seq![get_attributes, set_attributes],
                    Err(serial_error_of_nix(error)),
                ),
                Ok(_) => {
                    let flags = world(before + 2, get_flags)->Returned_0;
                    let set_flags = ConfigureCallView::SetFlags {
                        fd,
                        flags: flags | platform.o_nonblock,
                    };
                    if flags < 0 {
                        (
                            seq![get_attributes, set_attributes, get_flags, last_error],
                            Err(
                                serial_error_of_os(
                                    world(before + 3, last_error)->LastOsError_0,
                                ),
                            ),
                        )
                    } else if world(before + 3, set_flags)->Returned_0 != 0 {
                        (
                            seq![
                                get_attributes,
                                set_attributes,
                                get_flags,
                                set_flags,
                                last_error,
                            ],
                            Err(
                                serial_error_of_os(
                                    world(before + 4, last_error)->LastOsError_0,
                                ),
                            ),
                        )
                    } else {
                        (seq![get_attributes, set_attributes, get_flags, set_flags], Ok(port))
                    }
                },
            }
        },
    }
}

/// Configuring a port makes the calls of `configure_sequence`, in that order
/// and no others, and ends with its result after at most five.
pub proof fn configuring_runs_the_sequence(
    port: NativePort,
    platform: Platform,
    world: spec_fn(int, ConfigureCallView) -> ConfigureReplyView,
    fuel: nat,
)
    requires
        fuel >= 5,
        forall|i: int, call: ConfigureCallView|
            answers(platform, call, #[trigger] world(i, call)),
    ensures
        run(
            configure_start(port, platform),
            |state: ConfiguringView| configure_call(state),
            |state: ConfiguringView, reply: ConfigureReplyView| configure_next(state, reply),
            world,
            seq![],
            fuel,
        ) == (
            configure_sequence(port, platform, world, 0).0,
            Step::<ConfiguringView, NativePort, ErrorView>::Finished(
                configure_sequence(port, platform, world, 0).1,
            ),
        ),
{
    reveal_with_fuel(run, 6);
    let call = |state: ConfiguringView| configure_call(state);
    let next = |state: ConfiguringView, reply: ConfigureReplyView| configure_next(state, reply);
    let outcome = run(configure_start(port, platform), call, next, world, seq![], fuel);
    assert(outcome.0 =~= configure_sequence(port, platform, world, 0).0);
}

/// The calls of `calls` leave `port` not blocking, given what `world` answered
/// to them when `before` calls were made already: its flags were set last, to
/// what they had been with `O_NONBLOCK` added, and its attributes before that,
/// at once, to what they had been but for a `VMIN` of one.
pub open spec fn leaves_nonblocking(
    port: NativePort,
    platform: Platform,
    world: spec_fn(int, ConfigureCallView) -> ConfigureReplyView,
    before: int,
    calls: Seq<ConfigureCallView>,
) -> bool {
    let read = world(before, calls[0])->Attributes_0->Ok_0;
    let flags = world(before + 2, calls[2])->Returned_0;
    &&& calls.len() == 4
    &&& calls[0] == ConfigureCallView::GetAttributes { fd: port.fd }
    &&& calls[1] matches ConfigureCallView::SetAttributes { fd, when, attributes }
    &&& fd == port.fd
    &&& when == SetWhen::Now
    &&& attributes.input_flags == read.input_flags
    &&& attributes.output_flags == read.output_flags
    &&& attributes.control_flags == read.control_flags
    &&& attributes.local_flags == read.local_flags
    &&& attributes.control_chars.len() == read.control_chars.len()
    &&& attributes.control_chars[platform.vmin as int] == 1
    &&& forall|i: int|
        0 <= i < read.control_chars.len() && i != platform.vmin ==> attributes.control_chars[i]
            == read.control_chars[i]
    &&& world(before + 1, calls[1])->AttributesSet_0 is Ok
    &&& calls[2] == ConfigureCallView::GetFlags { fd: port.fd }
    &&& calls[3] matches ConfigureCallView::SetFlags { fd, flags: set }
    &&& fd == port.fd
    &&& 0 <= set
    &&& set & platform.o_nonblock == platform.o_nonblock
    &&& set & !platform.o_nonblock == flags & !platform.o_nonblock
    &&& world(before + 3, calls[3]) == ConfigureReplyView::Returned(0)
}

/// A port that was configured does not block, and is the one that was to be
/// configured.
pub proof fn configured_port_does_not_block(
    port: NativePort,
    platform: Platform,
    world: spec_fn(int, ConfigureCallView) -> ConfigureReplyView,
    before: int,
)
    requires
        platform.valid(),
        forall|i: int, call: ConfigureCallView|
            answers(platform, call, #[trigger] world(i, call)),
        configure_sequence(port, platform, world, before).1 is Ok,
    ensures
        configure_sequence(port, platform, world, before).1 == Ok::<NativePort, ErrorView>(port),
        leaves_nonblocking(
            port,
            platform,
            world,
            before,
            configure_sequence(port, platform, world, before).0,
        ),
{
    let calls = configure_sequence(port, platform, world, before).0;
    let flags = world(before + 2, calls[2])->Returned_0;
    let nonblock = platform.o_nonblock;
    assert(answers(platform, calls[0], world(before, calls[0])));
    assert(answers(platform, calls[1], world(before + 1, calls[1])));
    assert(answers(platform, calls[3], world(before + 3, calls[3])));
    assert(flags >= 0 && nonblock > 0 ==> {
        &&& 0 <= (flags | nonblock)
        &&& (flags | nonblock) & nonblock == nonblock
        &&& (flags | nonblock) & !nonblock == flags & !nonblock
    }) by (bit_vector);
}

/// Attributes are told as they are: the four flag words and every control
/// character.
pub proof fn attributes_are_told_as_they_are(attributes: Attributes)
    ensures
        attributes@.input_flags == attributes.input_flags,
        attributes@.output_flags == attributes.output_flags,
        attributes@.control_flags == attributes.control_flags,
        attributes@.local_flags == attributes.local_flags,
        attributes@.control_chars == attributes.control_chars@,
{
}

/// A call is told as it is.
pub proof fn configure_calls_are_told_as_they_are(call: ConfigureCall<'_>)
    ensures
        call matches ConfigureCall::GetAttributes { fd } ==> call@
            == (ConfigureCallView::GetAttributes { fd }),
        call matches ConfigureCall::SetAttributes { fd, when, attributes } ==> call@
            == (ConfigureCallView::SetAttributes { fd, when, attributes: attributes@ }),
        call matches ConfigureCall::GetFlags { fd } ==> call@ == (ConfigureCallView::GetFlags {
            fd,
        }),
        call matches ConfigureCall::SetFlags { fd, flags } ==> call@
            == (ConfigureCallView::SetFlags { fd, flags }),
        call is LastOsError ==> call@ == ConfigureCallView::LastOsError,
{
}

/// A reply is taken as it is.
pub proof fn configure_replies_are_taken_as_they_are(reply: ConfigureReply)
    ensures
        reply matches ConfigureReply::Attributes(Ok(read)) ==> reply@
            == ConfigureReplyView::Attributes(Ok(read@)),
        reply matches ConfigureReply::Attributes(Err(error)) ==> reply@
            == ConfigureReplyView::Attributes(Err(error)),
        reply matches ConfigureReply::AttributesSet(result) ==> reply@
            == ConfigureReplyView::AttributesSet(result),
        reply matches ConfigureReply::Returned(number) ==> reply@ == ConfigureReplyView::Returned(
            number,
        ),
        reply matches ConfigureReply::LastOsError(error) ==> reply@
            == ConfigureReplyView::LastOsError(error@),
{
}

/// Configuring a port whose calls succeed asks four things of it, whatever the
/// port, its attributes and its flags: its attributes, the same attributes at
/// once but for a `VMIN` of one, its flags, and the same flags with
/// `O_NONBLOCK`. Then it is done, and the stream is over that port.
pub proof fn successful_calls_configure_the_port(
    port: NativePort,
    platform: Platform,
    read: AttributesView,
    flags: i32,
)
    requires
        platform.vmin < read.control_chars.len(),
        platform.o_nonblock > 0,
        flags >= 0,
    ensures
        ({
            let first = configure_start(port, platform);
            let got_attributes = configure_next(first, ConfigureReplyView::Attributes(Ok(read)));
            let second = got_attributes->Pending_0;
            let set_attributes = configure_next(second, ConfigureReplyView::AttributesSet(Ok(())));
            let third = set_attributes->Pending_0;
            let got_flags = configure_next(third, ConfigureReplyView::Returned(flags));
            let fourth = got_flags->Pending_0;
            &&& configure_call(first) == (ConfigureCallView::GetAttributes { fd: port.fd })
            &&& got_attributes is Pending
            &&& configure_call(second) matches ConfigureCallView::SetAttributes {
                fd,
                when,
                attributes,
            } && {
                &&& fd == port.fd
                &&& when == SetWhen::Now
                &&& attributes.input_flags == read.input_flags
                &&& attributes.output_flags == read.output_flags
                &&& attributes.control_flags == read.control_flags
                &&& attributes.local_flags == read.local_flags
                &&& attributes.control_chars.len() == read.control_chars.len()
                &&& forall|i: int|
                    0 <= i < read.control_chars.len() ==> attributes.control_chars[i] == if i
                        == platform.vmin {
                        1u8
                    } else {
                        read.control_chars[i]
                    }
            }
            &&& set_attributes is Pending
            &&& configure_call(third) == (ConfigureCallView::GetFlags { fd: port.fd })
            &&& got_flags is Pending
            &&& configure_call(fourth) matches ConfigureCallView::SetFlags { fd, flags: set } && {
                &&& fd == port.fd
                &&& 0 <= set
                &&& set & platform.o_nonblock == platform.o_nonblock
                &&& set & !platform.o_nonblock == flags & !platform.o_nonblock
            }
            &&& configure_next(fourth, ConfigureReplyView::Returned(0))
                == Step::<ConfiguringView, NativePort, ErrorView>::Finished(Ok(port))
        }),
{
    let nonblock = platform.o_nonblock;
    assert(flags >= 0 && nonblock > 0 ==> {
        &&& 0 <= (flags | nonblock)
        &&& (flags | nonblock) & nonblock == nonblock
        &&& (flags | nonblock) & !nonblock == flags & !nonblock
    }) by (bit_vector);
}

/// Configuring a port ends with the error of the first call that fails, whatever
/// came back of those before: attributes that cannot be read or set with nix's
/// error, flags that cannot be read or set with the error that is then looked
/// up. Flags cannot be set whenever the status is not zero.
pub proof fn first_failed_call_ends_configuring(
    port: NativePort,
    platform: Platform,
    read: AttributesView,
    flags: i32,
    failure: NixError,
    number: i32,
    error: OsErrorView,
)
    requires
        flags >= 0,
    ensures
        ({
            let first = configure_start(port, platform);
            let second = configure_next(
                first,
                ConfigureReplyView::Attributes(Ok(read)),
            )->Pending_0;
            let third = configure_next(
                second,
                ConfigureReplyView::AttributesSet(Ok(())),
            )->Pending_0;
            let fourth = configure_next(third, ConfigureReplyView::Returned(flags))->Pending_0;
            let unread = configure_next(first, ConfigureReplyView::Attributes(Err(failure)));
            let unset = configure_next(second, ConfigureReplyView::AttributesSet(Err(failure)));
            let no_flags = configure_next(third, ConfigureReplyView::Returned(number));
            let refused = configure_next(fourth, ConfigureReplyView::Returned(number));
            let looked_up = ConfigureReplyView::LastOsError(error);
            &&& unread is Finished && unread->Finished_0 is Err
            &&& unread->Finished_0->Err_0.kind == ErrorKind::Io(IoErrorKind::Other)
            &&& unset is Finished && unset->Finished_0 is Err
            &&& unset->Finished_0->Err_0.kind == ErrorKind::Io(IoErrorKind::Other)
            &&& failure matches NixError::Sys(code) ==> {
                &&& unread->Finished_0->Err_0.description == errno_text(code)
                &&& unset->Finished_0->Err_0.description == errno_text(code)
            }
            &&& failure is InvalidPath ==> {
                &&& unread->Finished_0->Err_0.description == "Invalid path"@
                &&& unset->Finished_0->Err_0.description == "Invalid path"@
            }
            &&& failure is InvalidUtf8 ==> {
                &&& unread->Finished_0->Err_0.description == "Invalid UTF-8 string"@
                &&& unset->Finished_0->Err_0.description == "Invalid UTF-8 string"@
            }
            &&& failure is UnsupportedOperation ==> {
                &&& unread->Finished_0->Err_0.description == "Unsupported Operation"@
                &&& unset->Finished_0->Err_0.description == "Unsupported Operation"@
            }
            &&& number < 0 ==> {
                &&& no_flags is Pending
                &&& configure_call(no_flags->Pending_0) == ConfigureCallView::LastOsError
                &&& configure_next(no_flags->Pending_0, looked_up)
                    == Step::<ConfiguringView, NativePort, ErrorView>::Finished(
                    Err(
                        ErrorView {
                            kind: ErrorKind::Io(os_error_kind(error.code)),
                            description: error.message,
                        },
                    ),
                )
            }
            &&& number != 0 ==> {
                &&& refused is Pending
                &&& configure_call(refused->Pending_0) == ConfigureCallView::LastOsError
                &&& configure_next(refused->Pending_0, looked_up)
                    == Step::<ConfiguringView, NativePort, ErrorView>::Finished(
                    Err(
                        ErrorView {
                            kind: ErrorKind::Io(os_error_kind(error.code)),
                            description: error.message,
                        },
                    ),
                )
            }
        }),
{
}

/// A reply to another call than the one that is due changes nothing.
pub proof fn stray_configure_reply_changes_nothing(
    state: ConfiguringView,
    reply: ConfigureReplyView,
)
    requires
        match configure_call(state) {
            ConfigureCallView::GetAttributes { .. } => !(reply is Attributes),
            ConfigureCallView::SetAttributes { .. } => !(reply is AttributesSet),
            ConfigureCallView::GetFlags { .. } => !(reply is Returned),
            ConfigureCallView::SetFlags { .. } => !(reply is Returned),
            ConfigureCallView::LastOsError => !(reply is LastOsError),
        },
    ensures
        configure_next(state, reply)
            == Step::<ConfiguringView, NativePort, ErrorView>::Pending(state),
{
}

/// A port of which no call fails is configured, after four calls.
pub proof fn configuring_succeeds_unless_a_call_fails(
    port: NativePort,
    platform: Platform,
    world: spec_fn(int, ConfigureCallView) -> ConfigureReplyView,
    fuel: nat,
)
    requires
        fuel >= 4,
        forall|i: int, call: ConfigureCallView|
            #![trigger world(i, call)]
            (match call {
                ConfigureCallView::GetAttributes { .. } => {
                    world(i, call) matches ConfigureReplyView::Attributes(Ok(_))
                },
                ConfigureCallView::SetAttributes { .. } => {
                    world(i, call) == ConfigureReplyView::AttributesSet(Ok(()))
                },
                ConfigureCallView::GetFlags { .. } => {
                    world(i, call) matches ConfigureReplyView::Returned(flags) && flags >= 0
                },
                ConfigureCallView::SetFlags { .. } => {
                    world(i, call) == ConfigureReplyView::Returned(0)
                },
                ConfigureCallView::LastOsError => true,
            }),
    ensures
        ({
            let (calls, step) = run(
                configure_start(port, platform),
                |state: ConfiguringView| configure_call(state),
                |state: ConfiguringView, reply: ConfigureReplyView| configure_next(state, reply),
                world,
                seq![],
                fuel,
            );
            &&& calls.len() == 4
            &&& step == Step::<ConfiguringView, NativePort, ErrorView>::Finished(Ok(port))
        }),
{
    reveal_with_fuel(run, 5);
}

/// Any reply can be taken whose control characters, if it holds any, reach to
/// the one that is to be changed.
pub proof fn every_full_reply_can_be_taken(platform: Platform, reply: ConfigureReplyView)
    requires
        reply matches ConfigureReplyView::Attributes(Ok(read)) ==> platform.vmin
            < read.control_chars.len(),
    ensures
        readable(platform, reply),
{
}

} // verus!
