//! The name of a stream.
use vstd::prelude::*;

use crate::configure::{answers, configure_sequence, configured_port_does_not_block};
use crate::configure::{ConfigureCallView, ConfigureReplyView};
use crate::open::{open_answers, open_sequence, opened_stream_does_not_block};
use crate::open::{OpenCallView, OpenReplyView};
use crate::pair::{pair_answers, pair_sequence, paired_streams_do_not_block};
use crate::pair::{PairCallView, PairReplyView};
use crate::platform::Platform;
use crate::stream::{after_attempts, attempts_change_only_exclusivity, NativePort};

verus! {

/// Two ports that are the same device: one name and one descriptor.
pub open spec fn same_device(port: NativePort, other: NativePort) -> bool {
    port.name == other.name && port.fd == other.fd
}

/// A stream has the name and the descriptor of the native port that it was made
/// of, whether that port was handed over, opened for it or opened as one of a
/// pair, and keeps them through any history of attempts to set its
/// exclusivity, which alone change a stream.
pub proof fn streams_keep_the_name_of_their_port<B>(
    port: NativePort,
    builder: B,
    platform: Platform,
    world: spec_fn(int, ConfigureCallView) -> ConfigureReplyView,
    open_world: spec_fn(int, OpenCallView<B>) -> OpenReplyView,
    pair_world: spec_fn(int, PairCallView) -> PairReplyView,
    attempts: Seq<(bool, bool)>,
)
    requires
        platform.valid(),
        forall|i: int, call: ConfigureCallView|
            answers(platform, call, #[trigger] world(i, call)),
        forall|i: int, call: OpenCallView<B>|
            open_answers(platform, call, #[trigger] open_world(i, call)),
        forall|i: int, call: PairCallView|
            pair_answers(platform, call, #[trigger] pair_world(i, call)),
    ensures
        same_device(after_attempts(port, attempts), port),
        configure_sequence(port, platform, world, 0).1 matches Ok(stream) ==> same_device(
            after_attempts(stream, attempts),
            port,
        ),
        open_sequence(builder, platform, open_world).1 matches Ok(stream) ==> {
            let opened = open_world(0, OpenCallView::OpenPort(builder))->Port_0;
            opened matches Ok(native) && same_device(after_attempts(stream, attempts), native)
        },
        pair_sequence(platform, pair_world).1 matches Ok((master, slave)) ==> {
            let opened = pair_world(0, PairCallView::OpenPair)->Ports_0;
            &&& opened matches Ok((first, second))
            &&& same_device(after_attempts(master, attempts), first)
            &&& same_device(after_attempts(slave, attempts), second)
        },
{
    attempts_change_only_exclusivity(port, attempts);
    if let Ok(stream) = configure_sequence(port, platform, world, 0).1 {
        configured_port_does_not_block(port, platform, world, 0);
        attempts_change_only_exclusivity(stream, attempts);
    }
    if let Ok(stream) = open_sequence(builder, platform, open_world).1 {
        opened_stream_does_not_block(builder, platform, open_world);
        attempts_change_only_exclusivity(stream, attempts);
    }
    if let Ok((master, slave)) = pair_sequence(platform, pair_world).1 {
        paired_streams_do_not_block(platform, pair_world);
        attempts_change_only_exclusivity(master, attempts);
        attempts_change_only_exclusivity(slave, attempts);
    }
}

} // verus!
