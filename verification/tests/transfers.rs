//! Reading, writing and flushing, with replies made up.
use mio_serial::{
    map_nix_error, Error, ErrorKind, Flushing, IoError, IoErrorKind, NativePort, NixError, OsError,
    SerialStream, Step, Transfer, TransferCall, TransferReply,
};

fn stream() -> SerialStream {
    SerialStream::from_port(NativePort { fd: 6, name: None, exclusive: false })
}

const EINTR: i32 = nix::errno::Errno::EINTR as i32;
const EAGAIN: i32 = nix::errno::Errno::EAGAIN as i32;

fn pending<'a>(step: Step<Transfer<'a>, usize, IoError>) -> Transfer<'a> {
    match step {
        Step::Pending(transfer) => transfer,
        Step::Finished(result) => panic!("{:?}", result),
    }
}

#[test]
fn whole_buffer_is_asked_for() {
    assert_eq!(stream().read(&[0; 128]).call(), TransferCall::Read { fd: 6, start: 0, len: 128 });
    assert_eq!(
        stream().write(b"Test Message").call(),
        TransferCall::Write { fd: 6, bytes: b"Test Message" }
    );
    assert_eq!(stream().write(b"").call(), TransferCall::Write { fd: 6, bytes: b"" });
    assert_eq!(stream().read(&[]).call(), TransferCall::Read { fd: 6, start: 0, len: 0 });
    assert_eq!(stream().flush().call(), 6);
}

#[test]
fn count_is_returned() {
    for count in [0, 1, 12, isize::MAX] {
        assert_eq!(
            stream().read(&[0; 128]).advance(TransferReply::Returned(count)),
            Step::Finished(Ok(count as usize))
        );
    }
}

#[test]
fn error_is_returned() {
    for returned in [-1, isize::MIN] {
        let transfer = pending(stream().write(b"x").advance(TransferReply::Returned(returned)));
        assert_eq!(transfer.call(), TransferCall::LastOsError);
        assert_eq!(
            transfer.advance(TransferReply::LastOsError(EAGAIN)),
            Step::Finished(Err(IoError::Os(EAGAIN)))
        );
    }
}

#[test]
fn interruption_is_retried() {
    let mut transfer = stream().read(&[0; 5]);
    for _ in 0..3 {
        assert_eq!(transfer.call(), TransferCall::Read { fd: 6, start: 0, len: 5 });
        transfer = pending(transfer.advance(TransferReply::Returned(-1)));
        assert_eq!(transfer.call(), TransferCall::LastOsError);
        transfer = pending(transfer.advance(TransferReply::LastOsError(EINTR)));
    }
    assert_eq!(transfer, stream().read(&[0; 5]));
    assert_eq!(transfer.advance(TransferReply::Returned(5)), Step::Finished(Ok(5)));
}

#[test]
fn interrupted_write_is_repeated_with_the_same_bytes() {
    let bytes = b"abcde".to_vec();
    let mut transfer = stream().write(&bytes);
    for _ in 0..2 {
        assert_eq!(transfer.call(), TransferCall::Write { fd: 6, bytes: b"abcde" });
        transfer = pending(transfer.advance(TransferReply::Returned(-1)));
        assert_eq!(transfer.call(), TransferCall::LastOsError);
        transfer = pending(transfer.advance(TransferReply::LastOsError(EINTR)));
    }
    assert_eq!(transfer.call(), TransferCall::Write { fd: 6, bytes: b"abcde" });
    assert_eq!(transfer.advance(TransferReply::Returned(3)), Step::Finished(Ok(3)));
}

#[test]
fn stray_transfer_reply_changes_nothing() {
    let transfer = stream().read(&[0; 5]);
    let transfer = pending(transfer.advance(TransferReply::LastOsError(EAGAIN)));
    assert_eq!(transfer, stream().read(&[0; 5]));
}

#[test]
fn interrupted_drain_is_retried() {
    let flushing = stream().flush();
    let flushing: Flushing = match flushing.advance(Err(NixError::Sys(EINTR))) {
        Step::Pending(flushing) => flushing,
        Step::Finished(result) => panic!("{:?}", result),
    };
    assert_eq!(flushing.call(), 6);
    assert_eq!(flushing.advance(Ok(())), Step::Finished(Ok(())));
}

#[test]
fn failed_drain_is_returned() {
    assert_eq!(
        stream().flush().advance(Err(NixError::Sys(EAGAIN))),
        Step::Finished(Err(IoError::Os(EAGAIN)))
    );
    assert_eq!(
        stream().flush().advance(Err(NixError::UnsupportedOperation)),
        Step::Finished(Err(IoError::Custom {
            kind: IoErrorKind::Other,
            message: String::from("Unsupported Operation"),
        }))
    );
}

#[test]
fn nix_errors_are_described_by_nix() {
    let texts = [
        (NixError::Sys(EINTR), "EINTR: Interrupted system call"),
        (NixError::Sys(EAGAIN), "EAGAIN: Try again"),
        (NixError::InvalidPath, "Invalid path"),
        (NixError::InvalidUtf8, "Invalid UTF-8 string"),
        (NixError::UnsupportedOperation, "Unsupported Operation"),
    ];
    for (error, text) in texts {
        assert_eq!(
            map_nix_error(error),
            Error::new(ErrorKind::Io(IoErrorKind::Other), text)
        );
    }
}

#[test]
fn system_errors_are_classified_by_number() {
    for (code, kind) in [
        (EINTR, IoErrorKind::Interrupted),
        (EAGAIN, IoErrorKind::Unclassified(std::io::ErrorKind::WouldBlock)),
        (2, IoErrorKind::Unclassified(std::io::ErrorKind::NotFound)),
    ] {
        let error = OsError { code, message: String::from("the system's words") };
        assert_eq!(
            Error::from_os(error),
            Error::new(ErrorKind::Io(kind), "the system's words")
        );
    }
}

#[test]
fn interruptions_are_told_apart() {
    assert!(IoError::Os(EINTR).is_interrupted());
    assert!(!IoError::Os(EAGAIN).is_interrupted());
    assert!(IoError::Custom { kind: IoErrorKind::Interrupted, message: String::new() }
        .is_interrupted());
    assert!(!IoError::from_nix(NixError::InvalidPath).is_interrupted());
}
