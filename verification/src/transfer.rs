//! Reading, writing and flushing, without being disturbed by signals.
use vstd::prelude::*;

use crate::error::{io_error_of_nix, os_error_kind, IoError, IoErrorKind, IoErrorView, NixError};
use crate::step::{run, Step};
use crate::stream::SerialStream;

verus! {

/// A call that moving bytes needs.
#[derive(Clone, Copy, Debug, PartialEq, Eq)]
pub enum TransferCall<'a> {
    /// Read into `len` bytes of the caller's buffer, beginning with the one at
    /// `start` (`read`).
    Read {
        /// The port.
        fd: i32,
        /// Where in the buffer the bytes go.
        start: usize,
        /// How many bytes there is room for.
        len: usize,
    },
    /// Write these bytes (`write`).
    Write {
        /// The port.
        fd: i32,
        /// The bytes.
        bytes: &'a [u8],
    },
    /// Look up the error that the last system call left behind.
    LastOsError,
}

/// What a `TransferCall` says.
#[verifier::ext_equal]
pub enum TransferCallView {
    Read { fd: i32, start: usize, len: usize },
    Write { fd: i32, bytes: Seq<u8> },
    LastOsError,
}

impl<'a> View for TransferCall<'a> {
    type V = TransferCallView;

    open spec fn view(&self) -> TransferCallView {
        match *self {
            TransferCall::Read { fd, start, len } => TransferCallView::Read { fd, start, len },
            TransferCall::Write { fd, bytes } => TransferCallView::Write { fd, bytes: bytes@ },
            TransferCall::LastOsError => TransferCallView::LastOsError,
        }
    }
}

/// What came back of a `TransferCall`.
#[derive(Clone, Copy, Debug, PartialEq, Eq, Structural)]
pub enum TransferReply {
    /// The number that the call returned.
    Returned(isize),
    /// The number of the error that the last system call left behind.
    LastOsError(i32),
}

/// A read or a write.
#[derive(Clone, Copy, Debug, PartialEq, Eq)]
enum Request<'a> {
    Read { fd: i32, len: usize },
    Write { fd: i32, bytes: &'a [u8] },
}

/// A read or a write in progress.
#[derive(Debug, PartialEq, Eq)]
pub struct Transfer<'a> {
    /// The read or write to make.
    request: Request<'a>,
    /// Whether it was made and failed, and why is to be looked up.
    failed: bool,
}

/// A read into a buffer of the given length, or a write of the given bytes.
#[verifier::ext_equal]
pub enum RequestView {
    Read { fd: i32, len: usize },
    Write { fd: i32, bytes: Seq<u8> },
}

/// What a `Transfer` says.
#[verifier::ext_equal]
pub struct TransferView {
    pub request: RequestView,
    pub failed: bool,
}

impl<'a> View for Transfer<'a> {
    type V = TransferView;

    closed spec fn view(&self) -> TransferView {
        TransferView {
            request: match self.request {
                Request::Read { fd, len } => RequestView::Read { fd, len },
                Request::Write { fd, bytes } => RequestView::Write { fd, bytes: bytes@ },
            },
            failed: self.failed,
        }
    }
}

/// A read or write that was not attempted yet.
pub open spec fn transfer_start(request: RequestView) -> TransferView {
    TransferView { request, failed: false }
}

/// The call that makes a read or a write: a read fills the buffer from its
/// start, and a write hands over all of its bytes.
pub open spec fn request_call(request: RequestView) -> TransferCallView {
    match request {
        RequestView::Read { fd, len } => TransferCallView::Read { fd, start: 0, len },
        RequestView::Write { fd, bytes } => TransferCallView::Write { fd, bytes },
    }
}

/// The call that is due.
pub open spec fn transfer_call(state: TransferView) -> TransferCallView {
    if state.failed {
        TransferCallView::LastOsError
    } else {
        request_call(state.request)
    }
}

/// Where a reply leads: a count of bytes ends the transfer, and so does an
/// error, unless it is that the attempt was interrupted, which leads to the
/// same attempt again. A reply to another call than the one that is due
/// changes nothing.
pub open spec fn transfer_next(state: TransferView, reply: TransferReply) -> Step<
    TransferView,
    usize,
    IoErrorView,
> {
    match (state.failed, reply) {
        (false, TransferReply::Returned(count)) => if count >= 0 {
            Step::Finished(Ok(count as usize))
        } else {
            Step::Pending(TransferView { failed: true, ..state })
        },
        (true, TransferReply::LastOsError(code)) => if os_error_kind(code) is Interrupted {
            Step::Pending(transfer_start(state.request))
        } else {
            Step::Finished(Err(IoErrorView::Os(code)))
        },
        _ => Step::Pending(state),
    }
}

impl<'a> Transfer<'a> {
    /// The call to make next.
    pub fn call(&self) -> (call: TransferCall<'a>)
        ensures
            call@ == transfer_call(self@),
    {
        if self.failed {
            TransferCall::LastOsError
        } else {
            match self.request {
                Request::Read { fd, len } => TransferCall::Read { fd, start: 0, len },
                Request::Write { fd, bytes } => TransferCall::Write { fd, bytes },
            }
        }
    }

    /// Takes what came back of the call.
    pub fn advance(self, reply: TransferReply) -> (step: Step<Transfer<'a>, usize, IoError>)
        ensures
            step@ == transfer_next(self@, reply),
    {
        match (self.failed, reply) {
            (false, TransferReply::Returned(count)) => if count >= 0 {
                Step::Finished(Ok(count as usize))
            } else {
                Step::Pending(Transfer { request: self.request, failed: true })
            },
            (true, TransferReply::LastOsError(code)) => {
                let error = IoError::Os(code);
                if error.is_interrupted() {
                    Step::Pending(Transfer { request: self.request, failed: false })
                } else {
                    Step::Finished(Err(error))
                }
            },
            _ => Step::Pending(self),
        }
    }
}

/// A flush in progress: waiting until all output has been transmitted.
#[derive(Debug, PartialEq, Eq)]
pub struct Flushing {
    fd: i32,
}

impl View for Flushing {
    type V = i32;

    /// The port that is flushed.
    closed spec fn view(&self) -> i32 {
        self.fd
    }
}

/// Where the reply to a drain of `fd` leads: to the end, unless the drain was
/// interrupted, which leads to the same drain again.
pub open spec fn flush_next(fd: i32, reply: Result<(), NixError>) -> Step<
    i32,
    (),
    IoErrorView,
> {
    match reply {
        Ok(_) => Step::Finished(Ok(())),
        Err(error) => if io_error_of_nix(error).kind() is Interrupted {
            Step::Pending(fd)
        } else {
            Step::Finished(Err(io_error_of_nix(error)))
        },
    }
}

impl Flushing {
    /// The port to drain next (`tcdrain`).
    pub fn call(&self) -> (fd: i32)
        ensures
            fd == self@,
    {
        self.fd
    }

    /// Takes what came back of the drain.
    pub fn advance(self, reply: Result<(), NixError>) -> (step: Step<Flushing, (), IoError>)
        ensures
            step@ == flush_next(self@, reply),
    {
        match reply {
            Ok(done) => Step::Finished(Ok(done)),
            Err(error) => {
                let error = IoError::from_nix(error);
                if error.is_interrupted() {
                    Step::Pending(self)
                } else {
                    Step::Finished(Err(error))
                }
            },
        }
    }
}

impl SerialStream {
    /// Begins to read into a buffer.
    pub fn read(&self, bytes: &[u8]) -> (transfer: Transfer<'static>)
        ensures
            transfer@ == transfer_start(RequestView::Read { fd: self@.fd, len: bytes.len() }),
    {
        let request = Request::Read { fd: self.as_raw_fd(), len: bytes.len() };
        Transfer { request, failed: false }
    }

    /// Begins to write bytes.
    pub fn write<'a>(&self, bytes: &'a [u8]) -> (transfer: Transfer<'a>)
        ensures
            transfer@ == transfer_start(RequestView::Write { fd: self@.fd, bytes: bytes@ }),
    {
        let request = Request::Write { fd: self.as_raw_fd(), bytes };
        Transfer { request, failed: false }
    }

    /// Begins to flush the output.
    pub fn flush(&self) -> (flushing: Flushing)
        ensures
            flushing@ == self@.fd,
    {
        Flushing { fd: self.as_raw_fd() }
    }
}

/// What comes of one attempt to move bytes: the number that the call returned,
/// and the number of the error that it left behind if it failed.
pub struct Attempt {
    pub returned: isize,
    pub error: i32,
}

impl Attempt {
    /// The attempt was interrupted by a signal.
    pub open spec fn interrupted(self) -> bool {
        self.returned < 0 && os_error_kind(self.error) is Interrupted
    }

    /// What an attempt that was not interrupted comes to.
    pub open spec fn result(self) -> Result<usize, IoErrorView> {
        if self.returned >= 0 {
            Ok(self.returned as usize)
        } else {
            Err(IoErrorView::Os(self.error))
        }
    }
}

/// A world in which the attempts come out as in `attempts`, one after the
/// other, each followed by a look at its error if it failed.
pub open spec fn transfer_world(attempts: Seq<Attempt>) -> spec_fn(
    int,
    TransferCallView,
) -> TransferReply {
    |i: int, call: TransferCallView|
        if call is LastOsError {
            TransferReply::LastOsError(attempts[i / 2].error)
        } else {
            TransferReply::Returned(attempts[i / 2].returned)
        }
}

/// The run of a transfer whose attempts come out as in `attempts`.
pub open spec fn transfer_run(
    state: TransferView,
    attempts: Seq<Attempt>,
    made: Seq<TransferCallView>,
    fuel: nat,
) -> (Seq<TransferCallView>, Step<TransferView, usize, IoErrorView>) {
    run(
        state,
        |state: TransferView| transfer_call(state),
        |state: TransferView, reply: TransferReply| transfer_next(state, reply),
        transfer_world(attempts),
        made,
        fuel,
    )
}

/// `count` times the same read or write, each followed by a look at its error.
pub open spec fn failed_attempts(request: RequestView, count: nat) -> Seq<TransferCallView> {
    Seq::new(
        2 * count,
        |i: int|
            if i % 2 == 0 {
                request_call(request)
            } else {
                TransferCallView::LastOsError
            },
    )
}

/// Interrupted attempts are made again, with nothing changed: after `count` of
/// them a transfer is where it began.
pub proof fn interruptions_are_retried(
    request: RequestView,
    attempts: Seq<Attempt>,
    count: nat,
    fuel: nat,
)
    requires
        count <= attempts.len(),
        fuel >= 2 * count,
        forall|i: int| 0 <= i < count ==> (#[trigger] attempts[i]).interrupted(),
    ensures
        transfer_run(transfer_start(request), attempts, seq![], fuel) == transfer_run(
            transfer_start(request),
            attempts,
            failed_attempts(request, count),
            (fuel - 2 * count) as nat,
        ),
    decreases count,
{
    if count == 0 {
        assert(failed_attempts(request, 0) =~= seq![]);
    } else {
        let before = (count - 1) as nat;
        interruptions_are_retried(request, attempts, before, fuel);
        assert(attempts[before as int].interrupted());
        let made = failed_attempts(request, before);
        reveal_with_fuel(run, 3);
        let attempt = request_call(request);
        assert(made.push(attempt).push(TransferCallView::LastOsError) =~= failed_attempts(
            request,
            count,
        ));
    }
}

/// A transfer ends with the first attempt that is not interrupted: with its
/// count if it succeeded, with its error if it failed. Every attempt is the
/// same call, on the same port: a read into the whole buffer from its start, or
/// a write of all the bytes. None is made after that one, and no error is
/// looked up but that of an attempt that failed.
pub proof fn transfer_returns_first_uninterrupted_attempt(
    request: RequestView,
    attempts: Seq<Attempt>,
    count: nat,
    fuel: nat,
)
    requires
        count < attempts.len(),
        fuel >= 2 * count + 2,
        forall|i: int| 0 <= i < count ==> (#[trigger] attempts[i]).interrupted(),
        !attempts[count as int].interrupted(),
    ensures
        ({
            let (calls, step) = transfer_run(transfer_start(request), attempts, seq![], fuel);
            &&& step == Step::<TransferView, usize, IoErrorView>::Finished(
                attempts[count as int].result(),
            )
            &&& calls == if attempts[count as int].returned >= 0 {
                failed_attempts(request, count).push(request_call(request))
            } else {
                failed_attempts(request, count + 1)
            }
            &&& forall|i: int|
                0 <= i < calls.len() && !(#[trigger] calls[i] is LastOsError) ==> calls[i]
                    == request_call(request)
        }),
{
    interruptions_are_retried(request, attempts, count, fuel);
    reveal_with_fuel(run, 3);
    let made = failed_attempts(request, count);
    assert(made.push(request_call(request)).push(TransferCallView::LastOsError) =~= failed_attempts(
        request,
        count + 1,
    ));
}

/// No reply makes a transfer end with an interruption.
pub proof fn transfer_never_reports_interruption(state: TransferView, reply: TransferReply)
    ensures
        transfer_next(state, reply) matches Step::Finished(Err(error)) ==> !(
        error.kind() is Interrupted),
{
}

/// The run of a flush of `fd` whose drains come out as in `drains`.
pub open spec fn flush_run(
    fd: i32,
    drains: Seq<Result<(), NixError>>,
    made: Seq<i32>,
    fuel: nat,
) -> (Seq<i32>, Step<i32, (), IoErrorView>) {
    run(
        fd,
        |fd: i32| fd,
        |fd: i32, reply: Result<(), NixError>| flush_next(fd, reply),
        |i: int, fd: i32| drains[i],
        made,
        fuel,
    )
}

/// A drain was interrupted by a signal.
pub open spec fn drain_interrupted(drain: Result<(), NixError>) -> bool {
    drain matches Err(error) && io_error_of_nix(error).kind() is Interrupted
}

/// Interrupted drains are made again, with nothing changed.
pub proof fn interrupted_drains_are_retried(
    fd: i32,
    drains: Seq<Result<(), NixError>>,
    count: nat,
    fuel: nat,
)
    requires
        count <= drains.len(),
        fuel >= count,
        forall|i: int| 0 <= i < count ==> drain_interrupted(#[trigger] drains[i]),
    ensures
        flush_run(fd, drains, seq![], fuel) == flush_run(
            fd,
            drains,
            Seq::new(count, |i: int| fd),
            (fuel - count) as nat,
        ),
    decreases count,
{
    if count == 0 {
        assert(Seq::new(0, |i: int| fd) =~= seq![]);
    } else {
        let before = (count - 1) as nat;
        interrupted_drains_are_retried(fd, drains, before, fuel);
        assert(drain_interrupted(drains[before as int]));
        reveal_with_fuel(run, 2);
        assert(Seq::new(before, |i: int| fd).push(fd) =~= Seq::new(count, |i: int| fd));
    }
}

/// A flush ends with the first drain that is not interrupted, and drains the
/// same port each time.
pub proof fn flush_returns_first_uninterrupted_drain(
    fd: i32,
    drains: Seq<Result<(), NixError>>,
    count: nat,
    fuel: nat,
)
    requires
        count < drains.len(),
        fuel > count,
        forall|i: int| 0 <= i < count ==> drain_interrupted(#[trigger] drains[i]),
        !drain_interrupted(drains[count as int]),
    ensures
        flush_run(fd, drains, seq![], fuel) == (
            Seq::new(count + 1, |i: int| fd),
            Step::<i32, (), IoErrorView>::Finished(
                match drains[count as int] {
                    Ok(_) => Ok(()),
                    Err(error) => Err(io_error_of_nix(error)),
                },
            ),
        ),
{
    interrupted_drains_are_retried(fd, drains, count, fuel);
    reveal_with_fuel(run, 2);
    assert(Seq::new(count, |i: int| fd).push(fd) =~= Seq::new(count + 1, |i: int| fd));
}

/// A call is told as it is, with every number and every byte of it.
pub proof fn transfer_calls_are_told_as_they_are(call: TransferCall<'_>)
    ensures
        call matches TransferCall::Read { fd, start, len } ==> call@ == (TransferCallView::Read {
            fd,
            start,
            len,
        }),
        call matches TransferCall::Write { fd, bytes } ==> call@ == (TransferCallView::Write {
            fd,
            bytes: bytes@,
        }),
        call is LastOsError ==> call@ == TransferCallView::LastOsError,
{
}

/// A read asks for the whole buffer, from its first byte on, whatever its
/// length, and ends with the count that came back.
pub proof fn read_fills_the_buffer_from_its_start(fd: i32, len: usize, count: isize)
    requires
        count >= 0,
    ensures
        ({
            let state = transfer_start(RequestView::Read { fd, len });
            &&& transfer_call(state) == (TransferCallView::Read { fd, start: 0, len })
            &&& transfer_next(state, TransferReply::Returned(count)) == Step::<
                TransferView,
                usize,
                IoErrorView,
            >::Finished(Ok(count as usize))
        }),
{
}

/// A write hands over all of its bytes, whatever they are, and ends with the
/// count that came back.
pub proof fn write_hands_over_all_bytes(fd: i32, bytes: Seq<u8>, count: isize)
    requires
        count >= 0,
    ensures
        ({
            let state = transfer_start(RequestView::Write { fd, bytes });
            &&& transfer_call(state) == (TransferCallView::Write { fd, bytes })
            &&& transfer_next(state, TransferReply::Returned(count)) == Step::<
                TransferView,
                usize,
                IoErrorView,
            >::Finished(Ok(count as usize))
        }),
{
}

/// A read or write that failed has its error looked up: an interruption leads
/// back to where it began, and any other error is the result, with its number.
pub proof fn failed_transfer_ends_or_begins_again(request: RequestView, count: isize, code: i32)
    requires
        count < 0,
    ensures
        ({
            let began = transfer_start(request);
            let failed = transfer_next(began, TransferReply::Returned(count));
            let told = transfer_next(failed->Pending_0, TransferReply::LastOsError(code));
            &&& failed is Pending
            &&& transfer_call(failed->Pending_0) == TransferCallView::LastOsError
            &&& os_error_kind(code) is Interrupted ==> told == Step::<
                TransferView,
                usize,
                IoErrorView,
            >::Pending(began)
            &&& !(os_error_kind(code) is Interrupted) ==> told == Step::<
                TransferView,
                usize,
                IoErrorView,
            >::Finished(Err(IoErrorView::Os(code)))
        }),
{
}

/// A reply to another call than the one that is due changes nothing.
pub proof fn stray_transfer_reply_changes_nothing(state: TransferView, reply: TransferReply)
    requires
        transfer_call(state) is LastOsError != reply is LastOsError,
    ensures
        transfer_next(state, reply) == Step::<TransferView, usize, IoErrorView>::Pending(state),
{
}

/// A flush ends when its port is drained. An interrupted drain is made again on
/// the same port, and any other error of the system is the result, with its
/// number.
pub proof fn flush_drains_until_not_interrupted(fd: i32, code: i32)
    ensures
        flush_next(fd, Ok(())) == Step::<i32, (), IoErrorView>::Finished(Ok(())),
        os_error_kind(code) is Interrupted ==> flush_next(fd, Err(NixError::Sys(code))) == Step::<
            i32,
            (),
            IoErrorView,
        >::Pending(fd),
        !(os_error_kind(code) is Interrupted) ==> flush_next(fd, Err(NixError::Sys(code)))
            == Step::<i32, (), IoErrorView>::Finished(Err(IoErrorView::Os(code))),
{
}

/// An error that is not of the system ends a flush, with no particular class
/// and nix's text.
pub proof fn flush_ends_with_other_errors(fd: i32, error: NixError)
    requires
        !(error is Sys),
    ensures
        flush_next(fd, Err(error)) matches Step::Finished(
            Err(IoErrorView::Custom { kind, message }),
        )
            && {
            &&& kind == IoErrorKind::Other
            &&& error is InvalidPath ==> message == "Invalid path"@
            &&& error is InvalidUtf8 ==> message == "Invalid UTF-8 string"@
            &&& error is UnsupportedOperation ==> message == "Unsupported Operation"@
        },
{
}

} // verus!
