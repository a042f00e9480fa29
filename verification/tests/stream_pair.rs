//! A pair of pseudo terminals of the running system, driven by the library.
use mio_serial::{
    Attributes, ConfigureCall, ConfigureReply, Error, ErrorKind, IoErrorKind, NativePort, NixError,
    OsError, PairCall, PairReply, Pairing, SerialStream, SetWhen, Step, TransferCall, TransferReply,
};
use nix::fcntl::{fcntl, FcntlArg, OFlag};
use nix::sys::termios::{cfmakeraw, tcdrain, tcgetattr, tcsetattr, SetArg, Termios};

fn os_error(code: i32) -> OsError {
    OsError { code, message: std::io::Error::from_raw_os_error(code).to_string() }
}

fn nix_error(error: nix::Error) -> NixError {
    match error {
        nix::Error::Sys(errno) => NixError::Sys(errno as i32),
        nix::Error::InvalidPath => NixError::InvalidPath,
        nix::Error::InvalidUtf8 => NixError::InvalidUtf8,
        nix::Error::UnsupportedOperation => NixError::UnsupportedOperation,
    }
}

fn values(attributes: &Termios) -> Attributes {
    Attributes {
        input_flags: attributes.input_flags.bits() as u64,
        output_flags: attributes.output_flags.bits() as u64,
        control_flags: attributes.control_flags.bits() as u64,
        local_flags: attributes.local_flags.bits() as u64,
        control_chars: attributes.control_chars.to_vec(),
    }
}

fn code_of(error: nix::Error) -> i32 {
    error.as_errno().map_or(0, |errno| errno as i32)
}

/// Makes the calls of the library.
struct Driver {
    attributes: Option<Termios>,
    last_error: i32,
}

impl Driver {
    fn new() -> Driver {
        Driver { attributes: None, last_error: 0 }
    }

    fn open_pair(&mut self) -> Result<(NativePort, NativePort), Error> {
        let raw = || -> nix::Result<(i32, i32)> {
            let pair = nix::pty::openpty(None, None)?;
            let mut attributes = tcgetattr(pair.slave)?;
            cfmakeraw(&mut attributes);
            tcsetattr(pair.slave, SetArg::TCSANOW, &attributes)?;
            Ok((pair.master, pair.slave))
        };
        match raw() {
            Ok((master, slave)) => Ok((
                NativePort { fd: master, name: None, exclusive: true },
                NativePort { fd: slave, name: None, exclusive: true },
            )),
            Err(error) => Err(Error::new(ErrorKind::Unknown, &error.to_string())),
        }
    }

    fn number(&mut self, result: nix::Result<i32>) -> ConfigureReply {
        ConfigureReply::Returned(match result {
            Ok(number) => number,
            Err(error) => {
                self.last_error = code_of(error);
                -1
            }
        })
    }

    fn configure(&mut self, call: ConfigureCall) -> ConfigureReply {
        match call {
            ConfigureCall::GetAttributes { fd } => {
                ConfigureReply::Attributes(match tcgetattr(fd) {
                    Ok(attributes) => {
                        let values = values(&attributes);
                        self.attributes = Some(attributes);
                        Ok(values)
                    }
                    Err(error) => Err(nix_error(error)),
                })
            }
            ConfigureCall::SetAttributes { fd, when, attributes: wanted } => {
                assert_eq!(when, SetWhen::Now);
                let mut attributes = self.attributes.take().unwrap();
                attributes.control_chars.copy_from_slice(&wanted.control_chars);
                assert_eq!(&values(&attributes), wanted);
                ConfigureReply::AttributesSet(
                    tcsetattr(fd, SetArg::TCSANOW, &attributes).map_err(nix_error),
                )
            }
            ConfigureCall::GetFlags { fd } => {
                let result = fcntl(fd, FcntlArg::F_GETFL);
                self.number(result)
            }
            ConfigureCall::SetFlags { fd, flags } => {
                let result = fcntl(fd, FcntlArg::F_SETFL(OFlag::from_bits_truncate(flags)));
                self.number(result)
            }
            ConfigureCall::LastOsError => ConfigureReply::LastOsError(os_error(self.last_error)),
        }
    }

    fn pair(&mut self) -> Result<(SerialStream, SerialStream), Error> {
        let mut pairing: Pairing = SerialStream::pair();
        loop {
            let reply = match pairing.call() {
                PairCall::OpenPair => PairReply::Ports(self.open_pair()),
                PairCall::Configure(call) => PairReply::Configure(self.configure(call)),
            };
            match pairing.advance(reply) {
                Step::Pending(later) => pairing = later,
                Step::Finished(result) => return result,
            }
        }
    }

    fn transfer_reply(&mut self, result: nix::Result<usize>) -> TransferReply {
        TransferReply::Returned(match result {
            Ok(count) => count as isize,
            Err(error) => {
                self.last_error = code_of(error);
                -1
            }
        })
    }

    fn write(&mut self, stream: &SerialStream, bytes: &[u8]) -> Result<usize, mio_serial::IoError> {
        let mut transfer = stream.write(bytes);
        loop {
            let reply = match transfer.call() {
                TransferCall::Write { fd, bytes } => {
                    let result = nix::unistd::write(fd, bytes);
                    self.transfer_reply(result)
                }
                TransferCall::LastOsError => TransferReply::LastOsError(self.last_error),
                TransferCall::Read { .. } => panic!("a write does not read"),
            };
            match transfer.advance(reply) {
                Step::Pending(later) => transfer = later,
                Step::Finished(result) => return result,
            }
        }
    }

    fn read(
        &mut self,
        stream: &SerialStream,
        bytes: &mut [u8],
    ) -> Result<usize, mio_serial::IoError> {
        let mut transfer = stream.read(bytes);
        loop {
            let reply = match transfer.call() {
                TransferCall::Read { fd, start, len } => {
                    let result = nix::unistd::read(fd, &mut bytes[start..start + len]);
                    self.transfer_reply(result)
                }
                TransferCall::LastOsError => TransferReply::LastOsError(self.last_error),
                TransferCall::Write { .. } => panic!("a read does not write"),
            };
            match transfer.advance(reply) {
                Step::Pending(later) => transfer = later,
                Step::Finished(result) => return result,
            }
        }
    }

    fn flush(&mut self, stream: &SerialStream) -> Result<(), mio_serial::IoError> {
        let mut flushing = stream.flush();
        loop {
            let reply = tcdrain(flushing.call()).map_err(nix_error);
            match flushing.advance(reply) {
                Step::Pending(later) => flushing = later,
                Step::Finished(result) => return result,
            }
        }
    }
}

#[test]
fn test_stream_pair() {
    let mut driver = Driver::new();
    let (master, slave) = driver.pair().expect("Unable to create ptty pair");

    // Test file descriptors.
    assert!(
        master.as_raw_fd() > 0,
        "Invalid file descriptor on master ptty"
    );
    assert!(
        slave.as_raw_fd() > 0,
        "Invalid file descriptor on slave ptty"
    );
    assert_ne!(
        master.as_raw_fd(),
        slave.as_raw_fd(),
        "master and slave ptty's share the same file descriptor."
    );

    let msg = "Test Message";
    let mut buf = [0u8; 128];

    // Write the string on the master
    assert_eq!(
        driver.write(&master, msg.as_bytes()).unwrap(),
        msg.len(),
        "Unable to write message on master."
    );

    // Read it on the slave
    let nbytes = driver.read(&slave, &mut buf).expect("Unable to read bytes.");
    assert_eq!(
        nbytes,
        msg.len(),
        "Read message length differs from sent message."
    );

    assert_eq!(
        std::str::from_utf8(&buf[..nbytes]).unwrap(),
        msg,
        "Received message does not match sent"
    );
}

#[test]
fn streams_of_a_pair_do_not_block() {
    let mut driver = Driver::new();
    let (master, slave) = driver.pair().unwrap();
    for stream in [&master, &slave] {
        let flags = fcntl(stream.as_raw_fd(), FcntlArg::F_GETFL).unwrap();
        assert!(OFlag::from_bits_truncate(flags).contains(OFlag::O_NONBLOCK));
        let attributes = tcgetattr(stream.as_raw_fd()).unwrap();
        let vmin = nix::sys::termios::SpecialCharacterIndices::VMIN as usize;
        assert_eq!(attributes.control_chars[vmin], 1);
    }
    let mut buf = [0u8; 16];
    match driver.read(&slave, &mut buf) {
        Err(mio_serial::IoError::Os(code)) => {
            assert_eq!(code, nix::errno::Errno::EAGAIN as i32)
        }
        other => panic!("{:?}", other),
    }
}

#[test]
fn slave_is_flushed() {
    let mut driver = Driver::new();
    let (master, slave) = driver.pair().unwrap();
    assert_eq!(driver.flush(&slave), Ok(()));
    drop(master);
}

#[test]
fn flush_of_a_bad_descriptor_fails() {
    let mut driver = Driver::new();
    let stream = SerialStream::from_port(NativePort { fd: -1, name: None, exclusive: false });
    match driver.flush(&stream) {
        Err(mio_serial::IoError::Os(code)) => {
            assert_eq!(code, nix::errno::Errno::EBADF as i32)
        }
        other => panic!("{:?}", other),
    }
}

#[test]
fn configuring_a_bad_descriptor_fails() {
    let mut driver = Driver::new();
    let mut configuring =
        SerialStream::try_from(NativePort { fd: -1, name: None, exclusive: false });
    let error = loop {
        let reply = driver.configure(configuring.call());
        match configuring.advance(reply) {
            Step::Pending(later) => configuring = later,
            Step::Finished(Err(error)) => break error,
            Step::Finished(Ok(stream)) => panic!("{:?}", stream),
        }
    };
    assert_eq!(error.kind, ErrorKind::Io(IoErrorKind::Other));
    assert_eq!(error.description, "EBADF: Bad file number");
}
