//! Opening a serial port for non-blocking use.
use serialport::SerialPortBuilder;
use vstd::prelude::*;

use crate::configure::{configure_call, configure_next, configure_sequence, configure_start};
use crate::configure::{answers, configured_port_does_not_block, leaves_nonblocking, readable};
use crate::configure::{ConfigureCall, ConfigureCallView, ConfigureReply, ConfigureReplyView};
use crate::configure::{Configuring, ConfiguringView};
use crate::error::{with_error_view, Error, ErrorView};
use crate::platform::Platform;
use crate::step::{run, Step};
use crate::stream::{NativePort, SerialStream};

verus! {

/// `serialport::SerialPortBuilder`, handed on unread to whoever opens the port.
#[verifier::external_type_specification]
#[verifier::external_body]
pub struct ExSerialPortBuilder(SerialPortBuilder);

/// A call that opening a port needs.
#[derive(Debug, PartialEq, Eq)]
pub enum OpenCall<'a, B> {
    /// Open the port that the builder describes, blocking.
    OpenPort(&'a B),
    /// Configure the port.
    Configure(ConfigureCall<'a>),
}

/// What an `OpenCall` says.
#[verifier::ext_equal]
pub enum OpenCallView<B> {
    OpenPort(B),
    Configure(ConfigureCallView),
}

impl<'a, B> View for OpenCall<'a, B> {
    type V = OpenCallView<B>;

    open spec fn view(&self) -> OpenCallView<B> {
        match *self {
            OpenCall::OpenPort(builder) => OpenCallView::OpenPort(*builder),
            OpenCall::Configure(call) => OpenCallView::Configure(call@),
        }
    }
}

/// What came back of an `OpenCall`.
#[derive(Debug, PartialEq, Eq)]
pub enum OpenReply {
    /// The port that was opened.
    Port(Result<NativePort, Error>),
    /// The reply to a call that configures the port.
    Configure(ConfigureReply),
}

/// What an `OpenReply` says.
#[verifier::ext_equal]
pub enum OpenReplyView {
    Port(Result<NativePort, ErrorView>),
    Configure(ConfigureReplyView),
}

impl View for OpenReply {
    type V = OpenReplyView;

    open spec fn view(&self) -> OpenReplyView {
        match self {
            OpenReply::Port(result) => OpenReplyView::Port(with_error_view(*result)),
            OpenReply::Configure(reply) => OpenReplyView::Configure(reply@),
        }
    }
}

/// A port that is being opened as a stream.
#[derive(Debug, PartialEq, Eq)]
pub enum Opening<B> {
    /// The port is to be opened.
    Requested(B, Platform),
    /// The port is open and is being configured.
    Configuring(Configuring),
}

/// What an `Opening` says.
#[verifier::ext_equal]
pub enum OpeningView<B> {
    Requested(B, Platform),
    Configuring(ConfiguringView),
}

impl<B> View for Opening<B> {
    type V = OpeningView<B>;

    open spec fn view(&self) -> OpeningView<B> {
        match self {
            Opening::Requested(builder, platform) => OpeningView::Requested(*builder, *platform),
            Opening::Configuring(configuring) => OpeningView::Configuring(configuring@),
        }
    }
}

/// The call that is due.
pub open spec fn open_call<B>(state: OpeningView<B>) -> OpenCallView<B> {
    match state {
        OpeningView::Requested(builder, _) => OpenCallView::OpenPort(builder),
        OpeningView::Configuring(configuring) => OpenCallView::Configure(
            configure_call(configuring),
        ),
    }
}

/// Where a reply leads. A reply to another call than the one that is due
/// changes nothing.
pub open spec fn open_next<B>(state: OpeningView<B>, reply: OpenReplyView) -> Step<
    OpeningView<B>,
    NativePort,
    ErrorView,
> {
    match (state, reply) {
        (OpeningView::Requested(_, platform), OpenReplyView::Port(Ok(port))) => Step::Pending(
            OpeningView::Configuring(configure_start(port, platform)),
        ),
        (OpeningView::Requested(..), OpenReplyView::Port(Err(error))) => Step::Finished(Err(error)),
        (OpeningView::Configuring(configuring), OpenReplyView::Configure(reply)) => {
            match configure_next(configuring, reply) {
                Step::Pending(configuring) => Step::Pending(OpeningView::Configuring(configuring)),
                Step::Finished(result) => Step::Finished(result),
            }
        },
        _ => Step::Pending(state),
    }
}

impl<B> OpeningView<B> {
    /// The system whose port is being opened.
    pub open spec fn platform(self) -> Platform {
        match self {
            OpeningView::Requested(_, platform) => platform,
            OpeningView::Configuring(configuring) => configuring.platform,
        }
    }
}

impl<B> Opening<B> {
    /// The system whose port is being opened.
    pub fn platform(&self) -> (platform: Platform)
        ensures
            platform == self@.platform(),
    {
        match self {
            Opening::Requested(_, platform) => *platform,
            Opening::Configuring(configuring) => configuring.platform(),
        }
    }

    /// The call to make next.
    pub fn call(&self) -> (call: OpenCall<'_, B>)
        ensures
            call@ == open_call(self@),
    {
        match self {
            Opening::Requested(builder, _) => OpenCall::OpenPort(builder),
            Opening::Configuring(configuring) => OpenCall::Configure(configuring.call()),
        }
    }

    /// Takes what came back of the call.
    pub fn advance(self, reply: OpenReply) -> (step: Step<Opening<B>, SerialStream, Error>)
        requires
            reply@ matches OpenReplyView::Configure(reply) ==> readable(
                self@.platform(),
                reply,
            ),
        ensures
            step@ == open_next(self@, reply@),
    {
        match (self, reply) {
            (Opening::Requested(_, platform), OpenReply::Port(Ok(port))) => Step::Pending(
                Opening::Configuring(Configuring::new(port, platform)),
            ),
            (Opening::Requested(..), OpenReply::Port(Err(error))) => Step::Finished(Err(error)),
            (Opening::Configuring(configuring), OpenReply::Configure(reply)) => {
                match configuring.advance(reply) {
                    Step::Pending(configuring) => Step::Pending(Opening::Configuring(configuring)),
                    Step::Finished(result) => Step::Finished(result),
                }
            },
            (opening, _) => Step::Pending(opening),
        }
    }
}

impl SerialStream {
    /// Begins to open a non-blocking serial port from the provided builder.
    ///
    /// The platform is the one that this crate was built for, with the numbers
    /// that nix gives to it.
    pub fn open(builder: &SerialPortBuilder) -> (opening: Opening<&SerialPortBuilder>)
        ensures
            opening@ matches OpeningView::Requested(requested, platform) && requested == builder
                && platform.valid() && platform.is_native(),
    {
        Opening::Requested(builder, Platform::native())
    }

    /// Begins to turn an open blocking port into a stream, on the same platform
    /// as `open`.
    pub fn try_from(port: NativePort) -> (configuring: Configuring)
        ensures
            configuring@ == configure_start(port, configuring@.platform),
            configuring@.platform.valid(),
            configuring@.platform.is_native(),
    {
        Configuring::new(port, Platform::native())
    }
}

/// An extension trait for `SerialPortBuilder`: a way to open a port that
/// mirrors its `open` and `open_native`.
pub trait SerialPortBuilderExt: Sized {
    /// Begins to open a non-blocking port with the settings of the builder, on
    /// the same platform as `SerialStream::open`.
    fn open_async(self) -> (opening: Opening<Self>)
        ensures
            opening@ matches OpeningView::Requested(requested, platform) && requested == self
                && platform.valid() && platform.is_native(),
    ;
}

impl SerialPortBuilderExt for SerialPortBuilder {
    fn open_async(self) -> (opening: Opening<SerialPortBuilder>) {
        Opening::Requested(self, Platform::native())
    }
}

/// Whether `reply` is one that `call` can have.
pub open spec fn open_answers<B>(
    platform: Platform,
    call: OpenCallView<B>,
    reply: OpenReplyView,
) -> bool {
    match call {
        OpenCallView::OpenPort(_) => reply is Port,
        OpenCallView::Configure(call) => reply matches OpenReplyView::Configure(reply) && answers(
            platform,
            call,
            reply,
        ),
    }
}

/// What `world` answers to the calls that configure the port.
pub open spec fn configure_world<B>(
    world: spec_fn(int, OpenCallView<B>) -> OpenReplyView,
) -> spec_fn(int, ConfigureCallView) -> ConfigureReplyView {
    |i: int, call: ConfigureCallView| world(i, OpenCallView::Configure(call))->Configure_0
}

/// What `world` makes of opening a port: the calls, and the result.
///
/// The port is opened and then configured; one that could not be opened is not
/// configured, and the error is the one that opening it gave.
pub open spec fn open_sequence<B>(
    builder: B,
    platform: Platform,
    world: spec_fn(int, OpenCallView<B>) -> OpenReplyView,
) -> (Seq<OpenCallView<B>>, Result<NativePort, ErrorView>) {
    let open_port = OpenCallView::OpenPort(builder);
    match world(0, open_port)->Port_0 {
        Err(error) => (seq![open_port], Err(error)),
        Ok(port) => {
            let (calls, result) = configure_sequence(port, platform, configure_world(world), 1);
            (
                seq![open_port] + calls.map_values(
                    |call: ConfigureCallView| OpenCallView::Configure(call),
                ),
                result,
            )
        },
    }
}

/// Opening a port makes the calls of `open_sequence`, in that order and no
/// others, and ends with its result after at most six.
pub proof fn opening_runs_the_sequence<B>(
    builder: B,
    platform: Platform,
    world: spec_fn(int, OpenCallView<B>) -> OpenReplyView,
    fuel: nat,
)
    requires
        fuel >= 6,
        forall|i: int, call: OpenCallView<B>|
            open_answers(platform, call, #[trigger] world(i, call)),
    ensures
        run(
            OpeningView::Requested(builder, platform),
            |state: OpeningView<B>| open_call(state),
            |state: OpeningView<B>, reply: OpenReplyView| open_next(state, reply),
            world,
            seq![],
            fuel,
        ) == (
            open_sequence(builder, platform, world).0,
            Step::<OpeningView<B>, NativePort, ErrorView>::Finished(
                open_sequence(builder, platform, world).1,
            ),
        ),
{
    reveal_with_fuel(run, 7);
    let call = |state: OpeningView<B>| open_call(state);
    let next = |state: OpeningView<B>, reply: OpenReplyView| open_next(state, reply);
    let start = OpeningView::Requested(builder, platform);
    let outcome = run(start, call, next, world, seq![], fuel);
    assert(outcome.0 =~= open_sequence(builder, platform, world).0);
}

/// A stream that was opened is over the port that was opened, and that port
/// does not block.
pub proof fn opened_stream_does_not_block<B>(
    builder: B,
    platform: Platform,
    world: spec_fn(int, OpenCallView<B>) -> OpenReplyView,
)
    requires
        platform.valid(),
        forall|i: int, call: OpenCallView<B>|
            open_answers(platform, call, #[trigger] world(i, call)),
        open_sequence(builder, platform, world).1 is Ok,
    ensures
        ({
            let (calls, result) = open_sequence(builder, platform, world);
            let opened = world(0, OpenCallView::OpenPort(builder));
            let port = opened->Port_0->Ok_0;
            &&& opened == OpenReplyView::Port(Ok(port))
            &&& result == Ok::<NativePort, ErrorView>(port)
            &&& calls.len() == 5
            &&& calls[0] == OpenCallView::OpenPort(builder)
            &&& leaves_nonblocking(
                port,
                platform,
                configure_world(world),
                1,
                calls.skip(1).map_values(|call: OpenCallView<B>| call->Configure_0),
            )
        }),
{
    let opened = world(0, OpenCallView::OpenPort(builder));
    let port = opened->Port_0->Ok_0;
    let configure = configure_world(world);
    assert(open_answers(platform, OpenCallView::OpenPort(builder), opened));
    assert forall|i: int, call: ConfigureCallView| answers(
        platform,
        call,
        #[trigger] configure(i, call),
    ) by {
        let asked = OpenCallView::<B>::Configure(call);
        assert(open_answers(platform, asked, world(i, asked)));
    }
    configured_port_does_not_block(port, platform, configure, 1);
    let calls = open_sequence(builder, platform, world).0;
    assert(calls.skip(1).map_values(|call: OpenCallView<B>| call->Configure_0)
        =~= configure_sequence(port, platform, configure, 1).0);
}

/// A call is told as it is.
pub proof fn open_calls_are_told_as_they_are<B>(call: OpenCall<'_, B>)
    ensures
        call matches OpenCall::OpenPort(builder) ==> call@ == OpenCallView::OpenPort(*builder),
        call matches OpenCall::Configure(asked) ==> call@ == OpenCallView::<B>::Configure(asked@),
{
}

/// A reply is taken as it is.
pub proof fn open_replies_are_taken_as_they_are(reply: OpenReply)
    ensures
        reply matches OpenReply::Port(Ok(port)) ==> reply@ == OpenReplyView::Port(Ok(port)),
        reply matches OpenReply::Port(Err(error)) ==> reply@ == OpenReplyView::Port(Err(error@)),
        reply matches OpenReply::Configure(told) ==> reply@ == OpenReplyView::Configure(told@),
{
}

/// An opening is told as it is, and is of the platform that it began with.
pub proof fn openings_are_told_as_they_are<B>(opening: Opening<B>)
    ensures
        opening matches Opening::Requested(builder, platform) ==> {
            &&& opening@ == OpeningView::Requested(builder, platform)
            &&& opening@.platform() == platform
        },
        opening matches Opening::Configuring(configuring) ==> {
            &&& opening@ == OpeningView::<B>::Configuring(configuring@)
            &&& opening@.platform() == configuring@.platform
        },
{
}

/// Opening a port begins with the builder that was given. A port that could be
/// opened, whatever it is, is then configured on that platform, and one that
/// could not ends it with the error that it gave.
pub proof fn opening_begins_with_the_builder<B>(
    builder: B,
    platform: Platform,
    port: NativePort,
    error: ErrorView,
)
    ensures
        ({
            let state = OpeningView::Requested(builder, platform);
            &&& open_call(state) == OpenCallView::OpenPort(builder)
            &&& open_next(state, OpenReplyView::Port(Ok(port)))
                == Step::<OpeningView<B>, NativePort, ErrorView>::Pending(
                OpeningView::Configuring(configure_start(port, platform)),
            )
            &&& open_next(state, OpenReplyView::Port(Err(error)))
                == Step::<OpeningView<B>, NativePort, ErrorView>::Finished(Err(error))
        }),
{
}

/// A port that was opened is configured as one that was handed over is: the
/// calls are the same, each reply leads to the same, and the result is the
/// same.
pub proof fn opened_port_is_configured_like_any<B>(
    configuring: ConfiguringView,
    reply: ConfigureReplyView,
)
    ensures
        ({
            let state = OpeningView::<B>::Configuring(configuring);
            let step = open_next(state, OpenReplyView::Configure(reply));
            &&& open_call(state) == OpenCallView::<B>::Configure(configure_call(configuring))
            &&& configure_next(configuring, reply) matches Step::Pending(later) ==> step
                == Step::<OpeningView<B>, NativePort, ErrorView>::Pending(
                    OpeningView::Configuring(later),
                )
            &&& configure_next(configuring, reply) matches Step::Finished(result) ==> step
                == Step::<OpeningView<B>, NativePort, ErrorView>::Finished(result)
        }),
{
}

/// A reply to another call than the one that is due changes nothing.
pub proof fn stray_open_reply_changes_nothing<B>(state: OpeningView<B>, reply: OpenReplyView)
    requires
        state is Requested != reply is Port,
    ensures
        open_next(state, reply) == Step::<OpeningView<B>, NativePort, ErrorView>::Pending(state),
{
}

/// A port that is opened and of which no call fails becomes a stream, whatever
/// the port, after five calls.
pub proof fn opening_succeeds_unless_a_call_fails<B>(
    builder: B,
    platform: Platform,
    port: NativePort,
    world: spec_fn(int, OpenCallView<B>) -> OpenReplyView,
    fuel: nat,
)
    requires
        fuel >= 5,
        world(0, OpenCallView::OpenPort(builder)) == OpenReplyView::Port(Ok(port)),
        forall|i: int, call: ConfigureCallView|
            #![trigger world(i, OpenCallView::Configure(call))]
            (match call {
                ConfigureCallView::GetAttributes { .. } => {
                    world(i, OpenCallView::Configure(call))
                        matches OpenReplyView::Configure(ConfigureReplyView::Attributes(Ok(_)))
                },
                ConfigureCallView::SetAttributes { .. } => {
                    world(i, OpenCallView::Configure(call))
                        == OpenReplyView::Configure(ConfigureReplyView::AttributesSet(Ok(())))
                },
                ConfigureCallView::GetFlags { .. } => {
                    world(i, OpenCallView::Configure(call))
                        matches OpenReplyView::Configure(ConfigureReplyView::Returned(flags))
                        && flags >= 0
                },
                ConfigureCallView::SetFlags { .. } => {
                    world(i, OpenCallView::Configure(call))
                        == OpenReplyView::Configure(ConfigureReplyView::Returned(0))
                },
                ConfigureCallView::LastOsError => true,
            }),
    ensures
        ({
            let (calls, step) = run(
                OpeningView::Requested(builder, platform),
                |state: OpeningView<B>| open_call(state),
                |state: OpeningView<B>, reply: OpenReplyView| open_next(state, reply),
                world,
                seq![],
                fuel,
            );
            &&& calls.len() == 5
            &&& step == Step::<OpeningView<B>, NativePort, ErrorView>::Finished(Ok(port))
        }),
{
    reveal_with_fuel(run, 6);
}

} // verus!
