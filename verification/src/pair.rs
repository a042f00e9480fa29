//! Creating a pair of connected pseudo terminals.
use vstd::prelude::*;

use crate::configure::{answers, configure_call, configure_next, configure_sequence};
use crate::configure::{configure_start, configured_port_does_not_block, leaves_nonblocking};
use crate::configure::readable;
use crate::configure::{ConfigureCall, ConfigureCallView, ConfigureReply, ConfigureReplyView};
use crate::configure::{Configuring, ConfiguringView};
use crate::error::{with_error_view, Error, ErrorView};
use crate::platform::Platform;
use crate::step::{run, Step};
use crate::stream::{NativePort, SerialStream};

verus! {

/// A call that creating a pair needs.
#[derive(Clone, Copy, Debug, PartialEq, Eq)]
pub enum PairCall<'a> {
    /// Open two connected pseudo terminals, blocking.
    OpenPair,
    /// Configure one of them.
    Configure(ConfigureCall<'a>),
}

/// What a `PairCall` says.
#[verifier::ext_equal]
pub enum PairCallView {
    OpenPair,
    Configure(ConfigureCallView),
}

impl<'a> View for PairCall<'a> {
    type V = PairCallView;

    open spec fn view(&self) -> PairCallView {
        match *self {
            PairCall::OpenPair => PairCallView::OpenPair,
            PairCall::Configure(call) => PairCallView::Configure(call@),
        }
    }
}

/// What came back of a `PairCall`.
#[derive(Debug, PartialEq, Eq)]
pub enum PairReply {
    /// The master and the slave that were opened.
    Ports(Result<(NativePort, NativePort), Error>),
    /// The reply to a call that configures one of them.
    Configure(ConfigureReply),
}

/// What a `PairReply` says.
#[verifier::ext_equal]
pub enum PairReplyView {
    Ports(Result<(NativePort, NativePort), ErrorView>),
    Configure(ConfigureReplyView),
}

impl View for PairReply {
    type V = PairReplyView;

    open spec fn view(&self) -> PairReplyView {
        match self {
            PairReply::Ports(result) => PairReplyView::Ports(with_error_view(*result)),
            PairReply::Configure(reply) => PairReplyView::Configure(reply@),
        }
    }
}

/// A pair of streams that is being created.
#[derive(Debug, PartialEq, Eq)]
pub enum Pairing {
    /// The terminals are to be opened.
    Requested(Platform),
    /// The master is being configured, and the slave is waiting.
    Master(Configuring, NativePort),
    /// The master is a stream, and the slave is being configured.
    Slave(SerialStream, Configuring),
}

/// What a `Pairing` says.
#[verifier::ext_equal]
pub enum PairingView {
    Requested(Platform),
    Master(ConfiguringView, NativePort),
    Slave(NativePort, ConfiguringView),
}

impl View for Pairing {
    type V = PairingView;

    open spec fn view(&self) -> PairingView {
        match self {
            Pairing::Requested(platform) => PairingView::Requested(*platform),
            Pairing::Master(master, slave) => PairingView::Master(master@, *slave),
            Pairing::Slave(master, slave) => PairingView::Slave(master@, slave@),
        }
    }
}

impl PairingView {
    /// The system whose terminals are being opened.
    pub open spec fn platform(self) -> Platform {
        match self {
            PairingView::Requested(platform) => platform,
            PairingView::Master(master, _) => master.platform,
            PairingView::Slave(_, slave) => slave.platform,
        }
    }
}

/// The call that is due.
pub open spec fn pair_call(state: PairingView) -> PairCallView {
    match state {
        PairingView::Requested(_) => PairCallView::OpenPair,
        PairingView::Master(master, _) => PairCallView::Configure(configure_call(master)),
        PairingView::Slave(_, slave) => PairCallView::Configure(configure_call(slave)),
    }
}

/// Where a reply leads. A reply to another call than the one that is due
/// changes nothing.
pub open spec fn pair_next(state: PairingView, reply: PairReplyView) -> Step<
    PairingView,
    (NativePort, NativePort),
    ErrorView,
> {
    match (state, reply) {
        (
            PairingView::Requested(platform),
            PairReplyView::Ports(Ok((master, slave))),
        ) => Step::Pending(PairingView::Master(configure_start(master, platform), slave)),
        (PairingView::Requested(_), PairReplyView::Ports(Err(error))) => Step::Finished(Err(error)),
        (PairingView::Master(master, slave), PairReplyView::Configure(reply)) => {
            match configure_next(master, reply) {
                Step::Pending(master) => Step::Pending(PairingView::Master(master, slave)),
                Step::Finished(Ok(stream)) => Step::Pending(
                    PairingView::Slave(stream, configure_start(slave, master.platform)),
                ),
                Step::Finished(Err(error)) => Step::Finished(Err(error)),
            }
        },
        (PairingView::Slave(master, slave), PairReplyView::Configure(reply)) => {
            match configure_next(slave, reply) {
                Step::Pending(slave) => Step::Pending(PairingView::Slave(master, slave)),
                Step::Finished(Ok(stream)) => Step::Finished(Ok((master, stream))),
                Step::Finished(Err(error)) => Step::Finished(Err(error)),
            }
        },
        _ => Step::Pending(state),
    }
}

impl Pairing {
    /// The system whose terminals are being opened.
    pub fn platform(&self) -> (platform: Platform)
        ensures
            platform == self@.platform(),
    {
        match self {
            Pairing::Requested(platform) => *platform,
            Pairing::Master(master, _) => master.platform(),
            Pairing::Slave(_, slave) => slave.platform(),
        }
    }

    /// The call to make next.
    pub fn call(&self) -> (call: PairCall<'_>)
        ensures
            call@ == pair_call(self@),
    {
        match self {
            Pairing::Requested(_) => PairCall::OpenPair,
            Pairing::Master(master, _) => PairCall::Configure(master.call()),
            Pairing::Slave(_, slave) => PairCall::Configure(slave.call()),
        }
    }

    /// Takes what came back of the call.
    pub fn advance(self, reply: PairReply) -> (step: Step<
        Pairing,
        (SerialStream, SerialStream),
        Error,
    >)
        requires
            reply@ matches PairReplyView::Configure(reply) ==> readable(self@.platform(), reply),
        ensures
            step@ == pair_next(self@, reply@),
    {
        match (self, reply) {
            (Pairing::Requested(platform), PairReply::Ports(Ok((master, slave)))) => Step::Pending(
                Pairing::Master(Configuring::new(master, platform), slave),
            ),
            (Pairing::Requested(_), PairReply::Ports(Err(error))) => Step::Finished(Err(error)),
            (Pairing::Master(master, slave), PairReply::Configure(reply)) => {
                let platform = master.platform();
                match master.advance(reply) {
                    Step::Pending(master) => Step::Pending(Pairing::Master(master, slave)),
                    Step::Finished(Ok(stream)) => Step::Pending(
                        Pairing::Slave(stream, Configuring::new(slave, platform)),
                    ),
                    Step::Finished(Err(error)) => Step::Finished(Err(error)),
                }
            },
            (Pairing::Slave(master, slave), PairReply::Configure(reply)) => {
                match slave.advance(reply) {
                    Step::Pending(slave) => Step::Pending(Pairing::Slave(master, slave)),
                    Step::Finished(Ok(stream)) => Step::Finished(Ok((master, stream))),
                    Step::Finished(Err(error)) => Step::Finished(Err(error)),
                }
            },
            (pairing, _) => Step::Pending(pairing),
        }
    }
}

impl SerialStream {
    /// Begins to create a pair of pseudo serial terminals: two connected
    /// streams, the master and the slave, on the same platform as `open`.
    pub fn pair() -> (pairing: Pairing)
        ensures
            pairing@ matches PairingView::Requested(platform) && platform.valid()
                && platform.is_native(),
    {
        Pairing::Requested(Platform::native())
    }
}

/// Whether `reply` is one that `call` can have.
pub open spec fn pair_answers(
    platform: Platform,
    call: PairCallView,
    reply: PairReplyView,
) -> bool {
    match call {
        PairCallView::OpenPair => reply is Ports,
        PairCallView::Configure(call) => reply matches PairReplyView::Configure(reply) && answers(
            platform,
            call,
            reply,
        ),
    }
}

/// What `world` answers to the calls that configure a terminal.
pub open spec fn configure_world(
    world: spec_fn(int, PairCallView) -> PairReplyView,
) -> spec_fn(int, ConfigureCallView) -> ConfigureReplyView {
    |i: int, call: ConfigureCallView| world(i, PairCallView::Configure(call))->Configure_0
}

/// What `world` makes of configuring one terminal of a pair when `before`
/// calls were made already.
pub open spec fn end_sequence(
    port: NativePort,
    platform: Platform,
    world: spec_fn(int, PairCallView) -> PairReplyView,
    before: int,
) -> (Seq<PairCallView>, Result<NativePort, ErrorView>) {
    let (calls, result) = configure_sequence(port, platform, configure_world(world), before);
    (calls.map_values(|call: ConfigureCallView| PairCallView::Configure(call)), result)
}

/// What `world` makes of creating a pair: the calls, and the result.
///
/// Both terminals are opened at once, then the master is configured, then the
/// slave. The first failure ends it.
pub open spec fn pair_sequence(
    platform: Platform,
    world: spec_fn(int, PairCallView) -> PairReplyView,
) -> (Seq<PairCallView>, Result<(NativePort, NativePort), ErrorView>) {
    let opened = seq![PairCallView::OpenPair];
    match world(0, PairCallView::OpenPair)->Ports_0 {
        Err(error) => (opened, Err(error)),
        Ok((master, slave)) => {
            let (calls, result) = end_sequence(master, platform, world, 1);
            match result {
                Err(error) => (opened + calls, Err(error)),
                Ok(master) => {
                    let (more, result) = end_sequence(
                        slave,
                        platform,
                        world,
                        1 + calls.len() as int,
                    );
                    (
                        opened + calls + more,
                        match result {
                            Err(error) => Err(error),
                            Ok(slave) => Ok((master, slave)),
                        },
                    )
                },
            }
        },
    }
}

/// The run of a pair from any state on.
spec fn pair_run(
    state: PairingView,
    world: spec_fn(int, PairCallView) -> PairReplyView,
    made: Seq<PairCallView>,
    fuel: nat,
) -> (Seq<PairCallView>, Step<PairingView, (NativePort, NativePort), ErrorView>) {
    run(
        state,
        |state: PairingView| pair_call(state),
        |state: PairingView, reply: PairReplyView| pair_next(state, reply),
        world,
        made,
        fuel,
    )
}

proof fn slave_runs_the_sequence(
    master: NativePort,
    slave: NativePort,
    platform: Platform,
    world: spec_fn(int, PairCallView) -> PairReplyView,
    made: Seq<PairCallView>,
    fuel: nat,
)
    requires
        fuel >= 5,
        forall|i: int, call: PairCallView|
            pair_answers(platform, call, #[trigger] world(i, call)),
    ensures
        pair_run(PairingView::Slave(master, configure_start(slave, platform)), world, made, fuel)
            == ({
            let (calls, result) = end_sequence(slave, platform, world, made.len() as int);
            (
                made + calls,
                Step::<PairingView, (NativePort, NativePort), ErrorView>::Finished(
                    match result {
                        Err(error) => Err(error),
                        Ok(slave) => Ok((master, slave)),
                    },
                ),
            )
        }),
{
    reveal_with_fuel(run, 6);
    let outcome = pair_run(
        PairingView::Slave(master, configure_start(slave, platform)),
        world,
        made,
        fuel,
    );
    assert(outcome.0 =~= made + end_sequence(slave, platform, world, made.len() as int).0);
}

proof fn master_runs_the_sequence(
    master: NativePort,
    slave: NativePort,
    platform: Platform,
    world: spec_fn(int, PairCallView) -> PairReplyView,
    made: Seq<PairCallView>,
    fuel: nat,
)
    requires
        fuel >= 5,
        forall|i: int, call: PairCallView|
            pair_answers(platform, call, #[trigger] world(i, call)),
    ensures
        pair_run(PairingView::Master(configure_start(master, platform), slave), world, made, fuel)
            == ({
            let (calls, result) = end_sequence(master, platform, world, made.len() as int);
            match result {
                Err(error) => (
                    made + calls,
                    Step::<PairingView, (NativePort, NativePort), ErrorView>::Finished(Err(error)),
                ),
                Ok(master) => pair_run(
                    PairingView::Slave(master, configure_start(slave, platform)),
                    world,
                    made + calls,
                    (fuel - 4) as nat,
                ),
            }
        }),
        end_sequence(master, platform, world, made.len() as int).1 is Ok ==> end_sequence(
            master,
            platform,
            world,
            made.len() as int,
        ).0.len() == 4,
{
    reveal_with_fuel(run, 6);
    let (calls, result) = end_sequence(master, platform, world, made.len() as int);
    if calls.len() == 1 {
        assert(made + calls =~= made.push(calls[0]));
    } else if calls.len() == 2 {
        assert(made + calls =~= made.push(calls[0]).push(calls[1]));
    } else if calls.len() == 4 {
        assert(made + calls =~= made.push(calls[0]).push(calls[1]).push(calls[2]).push(calls[3]));
    } else {
        assert(made + calls =~= made.push(calls[0]).push(calls[1]).push(calls[2]).push(
            calls[3],
        ).push(calls[4]));
    }
}

/// Creating a pair makes the calls of `pair_sequence`, in that order and no
/// others, and ends with its result after at most ten.
pub proof fn pairing_runs_the_sequence(
    platform: Platform,
    world: spec_fn(int, PairCallView) -> PairReplyView,
    fuel: nat,
)
    requires
        fuel >= 10,
        forall|i: int, call: PairCallView|
            pair_answers(platform, call, #[trigger] world(i, call)),
    ensures
        run(
            PairingView::Requested(platform),
            |state: PairingView| pair_call(state),
            |state: PairingView, reply: PairReplyView| pair_next(state, reply),
            world,
            seq![],
            fuel,
        ) == (
            pair_sequence(platform, world).0,
            Step::<PairingView, (NativePort, NativePort), ErrorView>::Finished(
                pair_sequence(platform, world).1,
            ),
        ),
{
    reveal_with_fuel(run, 2);
    let opened = seq![PairCallView::OpenPair];
    assert(Seq::<PairCallView>::empty().push(PairCallView::OpenPair) =~= opened);
    assert(pair_answers(
        platform,
        PairCallView::OpenPair,
        world(0, PairCallView::OpenPair),
    ));
    if let Ok((master, slave)) = world(0, PairCallView::OpenPair)->Ports_0 {
        master_runs_the_sequence(master, slave, platform, world, opened, (fuel - 1) as nat);
        let (calls, result) = end_sequence(master, platform, world, 1);
        if let Ok(configured) = result {
            slave_runs_the_sequence(
                configured,
                slave,
                platform,
                world,
                opened + calls,
                (fuel - 5) as nat,
            );
        }
    }
}

/// The streams of a pair that was created are over the terminals that were
/// opened, the master first, and neither of those blocks.
pub proof fn paired_streams_do_not_block(
    platform: Platform,
    world: spec_fn(int, PairCallView) -> PairReplyView,
)
    requires
        platform.valid(),
        forall|i: int, call: PairCallView|
            pair_answers(platform, call, #[trigger] world(i, call)),
        pair_sequence(platform, world).1 is Ok,
    ensures
        ({
            let (calls, result) = pair_sequence(platform, world);
            let opened = world(0, PairCallView::OpenPair);
            let (master, slave) = opened->Ports_0->Ok_0;
            let configure = calls.map_values(|call: PairCallView| call->Configure_0);
            &&& opened == PairReplyView::Ports(Ok((master, slave)))
            &&& result == Ok::<(NativePort, NativePort), ErrorView>((master, slave))
            &&& calls.len() == 9
            &&& calls[0] == PairCallView::OpenPair
            &&& leaves_nonblocking(
                master,
                platform,
                configure_world(world),
                1,
                configure.subrange(1, 5),
            )
            &&& leaves_nonblocking(
                slave,
                platform,
                configure_world(world),
                5,
                configure.subrange(5, 9),
            )
        }),
{
    let opened = world(0, PairCallView::OpenPair);
    let (master, slave) = opened->Ports_0->Ok_0;
    let inner = configure_world(world);
    assert(pair_answers(platform, PairCallView::OpenPair, opened));
    assert forall|i: int, call: ConfigureCallView| answers(
        platform,
        call,
        #[trigger] inner(i, call),
    ) by {
        let asked = PairCallView::Configure(call);
        assert(pair_answers(platform, asked, world(i, asked)));
    }
    configured_port_does_not_block(master, platform, inner, 1);
    configured_port_does_not_block(slave, platform, inner, 5);
    let calls = pair_sequence(platform, world).0;
    let configure = calls.map_values(|call: PairCallView| call->Configure_0);
    assert(configure.subrange(1, 5) =~= configure_sequence(master, platform, inner, 1).0);
    assert(configure.subrange(5, 9) =~= configure_sequence(slave, platform, inner, 5).0);
}

/// A call is told as it is.
pub proof fn pair_calls_are_told_as_they_are(call: PairCall<'_>)
    ensures
        call is OpenPair ==> call@ == PairCallView::OpenPair,
        call matches PairCall::Configure(asked) ==> call@ == PairCallView::Configure(asked@),
{
}

/// A reply is taken as it is.
pub proof fn pair_replies_are_taken_as_they_are(reply: PairReply)
    ensures
        reply matches PairReply::Ports(Ok(ports)) ==> reply@ == PairReplyView::Ports(Ok(ports)),
        reply matches PairReply::Ports(Err(error)) ==> reply@ == PairReplyView::Ports(Err(error@)),
        reply matches PairReply::Configure(told) ==> reply@ == PairReplyView::Configure(told@),
{
}

/// A pair in the making is told as it is, and is of the platform that it began
/// with.
pub proof fn pairings_are_told_as_they_are(pairing: Pairing)
    ensures
        pairing matches Pairing::Requested(platform) ==> {
            &&& pairing@ == PairingView::Requested(platform)
            &&& pairing@.platform() == platform
        },
        pairing matches Pairing::Master(master, slave) ==> {
            &&& pairing@ == PairingView::Master(master@, slave)
            &&& pairing@.platform() == master@.platform
        },
        pairing matches Pairing::Slave(master, slave) ==> {
            &&& pairing@ == PairingView::Slave(master@, slave@)
            &&& pairing@.platform() == slave@.platform
        },
{
}

/// Creating a pair begins with opening two terminals. Whatever they are, the
/// master is then configured on that platform; if they could not be opened, it
/// ends with the error that this gave.
pub proof fn pairing_begins_with_both_terminals(
    platform: Platform,
    master: NativePort,
    slave: NativePort,
    error: ErrorView,
)
    ensures
        ({
            let state = PairingView::Requested(platform);
            &&& pair_call(state) == PairCallView::OpenPair
            &&& pair_next(state, PairReplyView::Ports(Ok((master, slave))))
                == Step::<PairingView, (NativePort, NativePort), ErrorView>::Pending(
                PairingView::Master(configure_start(master, platform), slave),
            )
            &&& pair_next(state, PairReplyView::Ports(Err(error)))
                == Step::<PairingView, (NativePort, NativePort), ErrorView>::Finished(Err(error))
        }),
{
}

/// The terminals of a pair are configured as any port is, with the same calls
/// and to the same ends: first the master, and when that is done the slave on
/// the same platform. When that is done too both are streams, and an error of
/// either ends it.
pub proof fn terminals_are_configured_like_any_port(
    configuring: ConfiguringView,
    port: NativePort,
    reply: ConfigureReplyView,
)
    ensures
        ({
            let first = PairingView::Master(configuring, port);
            let second = PairingView::Slave(port, configuring);
            let master_step = pair_next(first, PairReplyView::Configure(reply));
            let slave_step = pair_next(second, PairReplyView::Configure(reply));
            &&& pair_call(first) == PairCallView::Configure(configure_call(configuring))
            &&& pair_call(second) == PairCallView::Configure(configure_call(configuring))
            &&& configure_next(configuring, reply) matches Step::Pending(later) ==> {
                &&& master_step
                    == Step::<PairingView, (NativePort, NativePort), ErrorView>::Pending(
                        PairingView::Master(later, port),
                    )
                &&& slave_step
                    == Step::<PairingView, (NativePort, NativePort), ErrorView>::Pending(
                        PairingView::Slave(port, later),
                    )
            }
            &&& configure_next(configuring, reply) matches Step::Finished(Ok(configured)) ==> {
                &&& master_step
                    == Step::<PairingView, (NativePort, NativePort), ErrorView>::Pending(
                    PairingView::Slave(configured, configure_start(port, configuring.platform)),
                )
                &&& slave_step
                    == Step::<PairingView, (NativePort, NativePort), ErrorView>::Finished(
                        Ok((port, configured)),
                    )
            }
            &&& configure_next(configuring, reply) matches Step::Finished(Err(error)) ==> {
                &&& master_step
                    == Step::<PairingView, (NativePort, NativePort), ErrorView>::Finished(
                        Err(error),
                    )
                &&& slave_step
                    == Step::<PairingView, (NativePort, NativePort), ErrorView>::Finished(
                        Err(error),
                    )
            }
        }),
{
}

/// A reply to another call than the one that is due changes nothing.
pub proof fn stray_pair_reply_changes_nothing(state: PairingView, reply: PairReplyView)
    requires
        state is Requested != reply is Ports,
    ensures
        pair_next(state, reply)
            == Step::<PairingView, (NativePort, NativePort), ErrorView>::Pending(state),
{
}

/// Two terminals that are opened and of which no call fails become a pair of
/// streams, the master first, whatever the terminals are, after nine calls.
pub proof fn pairing_succeeds_unless_a_call_fails(
    platform: Platform,
    master: NativePort,
    slave: NativePort,
    world: spec_fn(int, PairCallView) -> PairReplyView,
    fuel: nat,
)
    requires
        fuel >= 9,
        world(0, PairCallView::OpenPair) == PairReplyView::Ports(Ok((master, slave))),
        forall|i: int, call: ConfigureCallView|
            #![trigger world(i, PairCallView::Configure(call))]
            (match call {
                ConfigureCallView::GetAttributes { .. } => {
                    world(i, PairCallView::Configure(call))
                        matches PairReplyView::Configure(ConfigureReplyView::Attributes(Ok(_)))
                },
                ConfigureCallView::SetAttributes { .. } => {
                    world(i, PairCallView::Configure(call))
                        == PairReplyView::Configure(ConfigureReplyView::AttributesSet(Ok(())))
                },
                ConfigureCallView::GetFlags { .. } => {
                    world(i, PairCallView::Configure(call))
                        matches PairReplyView::Configure(ConfigureReplyView::Returned(flags))
                        && flags >= 0
                },
                ConfigureCallView::SetFlags { .. } => {
                    world(i, PairCallView::Configure(call))
                        == PairReplyView::Configure(ConfigureReplyView::Returned(0))
                },
                ConfigureCallView::LastOsError => true,
            }),
    ensures
        ({
            let (calls, step) = run(
                PairingView::Requested(platform),
                |state: PairingView| pair_call(state),
                |state: PairingView, reply: PairReplyView| pair_next(state, reply),
                world,
                seq![],
                fuel,
            );
            &&& calls.len() == 9
            &&& step
                == Step::<PairingView, (NativePort, NativePort), ErrorView>::Finished(
                    Ok((master, slave)),
                )
        }),
{
    reveal_with_fuel(run, 10);
}

} // verus!
