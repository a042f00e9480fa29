//! An open serial port, and what a stream over it answers by itself.
use vstd::prelude::*;

use crate::error::{as_io_error, with_error_view, Error, ErrorKind, ErrorView, IoErrorKind};

verus! {

/// An open blocking serial port, as far as a stream looks at it.
#[derive(Debug, PartialEq, Eq)]
pub struct NativePort {
    /// The file descriptor.
    pub fd: i32,
    /// The name of the device, if known.
    pub name: Option<String>,
    /// Whether the port was opened for, or later set to, exclusive use.
    pub exclusive: bool,
}

/// A serial port that is used without blocking.
#[derive(Debug, PartialEq, Eq)]
pub struct SerialStream {
    inner: NativePort,
}

impl View for SerialStream {
    type V = NativePort;

    /// The port under the stream.
    closed spec fn view(&self) -> NativePort {
        self.inner
    }
}

/// What a stream answers to an attempt to clone it.
pub open spec fn clone_refusal() -> ErrorView {
    ErrorView {
        kind: ErrorKind::Io(IoErrorKind::Other),
        description: "SerialPort::try_clone not valid for SerialStream."@,
    }
}

/// A port after it was asked to become exclusive (or not) and did (or not).
pub open spec fn after_set_exclusive(port: NativePort, exclusive: bool, done: bool) -> NativePort {
    if done {
        NativePort { exclusive, ..port }
    } else {
        port
    }
}

/// What a stream answers to an attempt to set its exclusivity, given what the
/// port answered: any error is one of I/O.
pub open spec fn exclusivity_answer(reply: Result<(), ErrorView>) -> Result<(), ErrorView> {
    match reply {
        Ok(_) => Ok(()),
        Err(error) => Err(as_io_error(error)),
    }
}

impl SerialStream {
    /// A stream over a port that is taken as it is.
    pub fn from_port(port: NativePort) -> (stream: SerialStream)
        ensures
            stream@ == port,
    {
        SerialStream { inner: port }
    }

    /// The file descriptor of the port.
    pub fn as_raw_fd(&self) -> (fd: i32)
        ensures
            fd == self@.fd,
    {
        self.inner.fd
    }

    /// Gives the stream up for the file descriptor of its port.
    pub fn into_raw_fd(self) -> (fd: i32)
        ensures
            fd == self@.fd,
    {
        self.inner.fd
    }

    /// The name of the device, if known.
    pub fn name(&self) -> (name: Option<String>)
        ensures
            name == self@.name,
    {
        match &self.inner.name {
            Some(name) => Some(name.clone()),
            None => None,
        }
    }

    /// Sets the exclusivity of the port: `reply` is what the port answered to
    /// the command of `ask_exclusive(exclusive)`. Only a port that did as it
    /// was asked is remembered as changed.
    ///
    /// ## Errors
    ///
    /// * `Io` for any error while setting exclusivity for the port.
    pub fn set_exclusive(&mut self, exclusive: bool, reply: Result<(), Error>) -> (result: Result<
        (),
        Error,
    >)
        ensures
            with_error_view(result) == exclusivity_answer(with_error_view(reply)),
            final(self)@ == after_set_exclusive(old(self)@, exclusive, reply is Ok),
            reply is Ok ==> result is Ok && final(self)@ == (NativePort {
                exclusive,
                ..old(self)@
            }),
            reply matches Err(refusal) ==> {
                &&& final(self)@ == old(self)@
                &&& result matches Err(error) && error.kind is Io && error.description@
                    == refusal.description@
            },
    {
        match reply {
            Ok(done) => {
                self.inner.exclusive = exclusive;
                Ok(done)
            },
            Err(error) => Err(error.into_io()),
        }
    }

    /// The exclusivity of the port.
    pub fn exclusive(&self) -> (exclusive: bool)
        ensures
            exclusive == self@.exclusive,
    {
        self.inner.exclusive
    }

    /// The timeout in seconds: always zero, since a stream never waits.
    pub fn timeout(&self) -> (seconds: u64)
        ensures
            seconds == 0,
    {
        0
    }

    /// Accepts any timeout and ignores it.
    pub fn set_timeout(&mut self, _timeout: core::time::Duration) -> (result: Result<(), Error>)
        ensures
            result is Ok,
            *final(self) == *old(self),
    {
        Ok(())
    }

    /// Refuses to clone the stream.
    pub fn try_clone(&self) -> (result: Result<SerialStream, Error>)
        ensures
            result matches Err(error) && error@ == clone_refusal(),
            result matches Err(error) && error.kind == ErrorKind::Io(IoErrorKind::Other)
                && error.description@ == "SerialPort::try_clone not valid for SerialStream."@,
    {
        Err(
            Error::new(
                ErrorKind::Io(IoErrorKind::Other),
                "SerialPort::try_clone not valid for SerialStream.",
            ),
        )
    }
}

/// An attempt to set the exclusivity succeeds if and only if the port did as it
/// was asked, and fails with an I/O error that has the description of the
/// port's own.
pub proof fn exclusivity_errors_are_io_errors(reply: Result<(), ErrorView>)
    ensures
        exclusivity_answer(reply) is Ok <==> reply is Ok,
        exclusivity_answer(reply) matches Err(error) ==> {
            &&& error.kind is Io
            &&& error.description == reply->Err_0.description
            &&& reply->Err_0.kind is Io ==> error == reply->Err_0
            &&& !(reply->Err_0.kind is Io) ==> error.kind == ErrorKind::Io(IoErrorKind::Other)
        },
{
}

/// A port that did as it was asked is as exclusive as it was asked to be, and
/// one that did not is as exclusive as it was. Nothing else of it changes.
pub proof fn only_a_willing_port_changes(port: NativePort, exclusive: bool)
    ensures
        after_set_exclusive(port, exclusive, false) == port,
        after_set_exclusive(port, exclusive, true).exclusive == exclusive,
        after_set_exclusive(port, exclusive, true).fd == port.fd,
        after_set_exclusive(port, exclusive, true).name == port.name,
{
}

/// A port after a history of attempts to set its exclusivity, each the wanted
/// value and whether the port did as it was asked.
pub open spec fn after_attempts(port: NativePort, attempts: Seq<(bool, bool)>) -> NativePort
    decreases attempts.len(),
{
    if attempts.len() == 0 {
        port
    } else {
        let (exclusive, done) = attempts.last();
        after_set_exclusive(after_attempts(port, attempts.drop_last()), exclusive, done)
    }
}

/// A port is as exclusive as the last attempt that succeeded made it, however
/// many failed since.
pub proof fn last_success_decides_exclusivity(
    port: NativePort,
    attempts: Seq<(bool, bool)>,
    last: int,
)
    requires
        0 <= last < attempts.len(),
        attempts[last].1,
        forall|i: int| last < i < attempts.len() ==> !(#[trigger] attempts[i]).1,
    ensures
        after_attempts(port, attempts) == (NativePort { exclusive: attempts[last].0, ..port }),
    decreases attempts.len(),
{
    let earlier = attempts.drop_last();
    attempts_change_only_exclusivity(port, earlier);
    if last < attempts.len() - 1 {
        assert(!attempts[attempts.len() - 1].1);
        last_success_decides_exclusivity(port, earlier, last);
    }
}

/// Attempts to set the exclusivity change nothing else, and nothing at all
/// while none succeeds.
pub proof fn attempts_change_only_exclusivity(port: NativePort, attempts: Seq<(bool, bool)>)
    ensures
        after_attempts(port, attempts).fd == port.fd,
        after_attempts(port, attempts).name == port.name,
        (forall|i: int| 0 <= i < attempts.len() ==> !(#[trigger] attempts[i]).1)
            ==> after_attempts(port, attempts) == port,
    decreases attempts.len(),
{
    if attempts.len() > 0 {
        let earlier = attempts.drop_last();
        attempts_change_only_exclusivity(port, earlier);
        if forall|i: int| 0 <= i < attempts.len() ==> !(#[trigger] attempts[i]).1 {
            assert(!attempts[attempts.len() - 1].1);
            assert forall|i: int| 0 <= i < earlier.len() implies !(#[trigger] earlier[i]).1 by {
                assert(!attempts[i].1);
            }
        }
    }
}

} // verus!
