//! Configuring, opening and pairing, with replies made up.
use mio_serial::{
    Attributes, ConfigureCall, ConfigureReply, Configuring, Error, ErrorKind, IoErrorKind,
    NativePort, NixError, OpenCall, OpenReply, Opening, OsError, PairCall, PairReply, Pairing,
    Platform, SerialPortBuilderExt, SerialStream, SetWhen, Step,
};

const PLATFORM: Platform = Platform { vmin: 6, o_nonblock: 0o4000 };

fn port(fd: i32) -> NativePort {
    NativePort { fd, name: Some(String::from("/dev/ttyS0")), exclusive: false }
}

fn denied() -> OsError {
    OsError {
        code: 13,
        message: String::from("Permission denied (os error 13)"),
    }
}

fn denied_error() -> Error {
    Error::new(
        ErrorKind::Io(IoErrorKind::Unclassified(std::io::ErrorKind::PermissionDenied)),
        "Permission denied (os error 13)",
    )
}

fn pending(step: Step<Configuring, SerialStream, Error>) -> Configuring {
    match step {
        Step::Pending(configuring) => configuring,
        Step::Finished(result) => panic!("{:?}", result),
    }
}

fn finished<S: std::fmt::Debug, T>(step: Step<S, T, Error>) -> Result<T, Error> {
    match step {
        Step::Pending(state) => panic!("{:?}", state),
        Step::Finished(result) => result,
    }
}

fn attributes(control_chars: Vec<u8>) -> Attributes {
    Attributes {
        input_flags: 0o2402,
        output_flags: 0o5,
        control_flags: 0o277,
        local_flags: 0o105073,
        control_chars,
    }
}

fn with_attributes() -> Configuring {
    let configuring = Configuring::new(port(7), PLATFORM);
    let read = attributes(vec![3, 28, 127, 21, 4, 9, 0, 17]);
    pending(configuring.advance(ConfigureReply::Attributes(Ok(read))))
}

fn with_attributes_set() -> Configuring {
    pending(with_attributes().advance(ConfigureReply::AttributesSet(Ok(()))))
}

#[test]
fn attributes_are_read_first() {
    let configuring = Configuring::new(port(7), PLATFORM);
    assert_eq!(configuring.call(), ConfigureCall::GetAttributes { fd: 7 });
    assert_eq!(configuring.platform(), PLATFORM);
}

#[test]
fn only_vmin_is_changed() {
    assert_eq!(
        with_attributes().call(),
        ConfigureCall::SetAttributes {
            fd: 7,
            when: SetWhen::Now,
            attributes: &attributes(vec![3, 28, 127, 21, 4, 9, 1, 17]),
        }
    );
}

#[test]
fn flags_keep_what_they_had() {
    let configuring = with_attributes_set();
    assert_eq!(configuring.call(), ConfigureCall::GetFlags { fd: 7 });
    let configuring = pending(configuring.advance(ConfigureReply::Returned(0o102)));
    assert_eq!(configuring.call(), ConfigureCall::SetFlags { fd: 7, flags: 0o4102 });
    let stream = finished(configuring.advance(ConfigureReply::Returned(0))).unwrap();
    assert_eq!(stream.as_raw_fd(), 7);
    assert_eq!(stream.name(), Some(String::from("/dev/ttyS0")));
    assert!(!stream.exclusive());
}

#[test]
fn unreadable_attributes_end_it() {
    let configuring = Configuring::new(port(7), PLATFORM);
    let reply = ConfigureReply::Attributes(Err(NixError::Sys(13)));
    assert_eq!(
        finished(configuring.advance(reply)),
        Err(Error::new(ErrorKind::Io(IoErrorKind::Other), "EACCES: Permission denied"))
    );
}

#[test]
fn unsettable_attributes_end_it() {
    let reply = ConfigureReply::AttributesSet(Err(NixError::UnsupportedOperation));
    assert_eq!(
        finished(with_attributes().advance(reply)),
        Err(Error::new(ErrorKind::Io(IoErrorKind::Other), "Unsupported Operation"))
    );
}

#[test]
fn unreadable_flags_end_it() {
    let configuring = pending(with_attributes_set().advance(ConfigureReply::Returned(-1)));
    assert_eq!(configuring.call(), ConfigureCall::LastOsError);
    assert_eq!(
        finished(configuring.advance(ConfigureReply::LastOsError(denied()))),
        Err(denied_error())
    );
}

#[test]
fn unsettable_flags_end_it() {
    for status in [-1, 1] {
        let configuring = pending(with_attributes_set().advance(ConfigureReply::Returned(2)));
        let configuring = pending(configuring.advance(ConfigureReply::Returned(status)));
        assert_eq!(configuring.call(), ConfigureCall::LastOsError);
        assert_eq!(
            finished(configuring.advance(ConfigureReply::LastOsError(denied()))),
            Err(denied_error())
        );
    }
}

#[test]
fn stray_reply_changes_nothing() {
    let configuring = pending(with_attributes().advance(ConfigureReply::Returned(0)));
    assert_eq!(configuring, with_attributes());
}

#[test]
fn opened_port_is_configured() {
    let builder = serialport::new("/dev/ttyUSB0", 9600);
    let opening = SerialStream::open(&builder);
    assert_eq!(opening.call(), OpenCall::OpenPort(&&builder));
    let platform = opening.platform();
    let opening = match opening.advance(OpenReply::Port(Ok(port(5)))) {
        Step::Pending(opening) => opening,
        Step::Finished(result) => panic!("{:?}", result),
    };
    assert_eq!(opening, Opening::Configuring(Configuring::new(port(5), platform)));
    assert_eq!(
        opening.call(),
        OpenCall::Configure(ConfigureCall::GetAttributes { fd: 5 })
    );
}

#[test]
fn opened_stream_has_the_name_of_its_port() {
    let builder = serialport::new("/dev/ttyUSB0", 9600);
    let opened = NativePort { fd: 5, name: Some(String::from("/dev/ttyUSB0")), exclusive: true };
    let mut opening = match SerialStream::open(&builder).advance(OpenReply::Port(Ok(opened))) {
        Step::Pending(opening) => opening,
        Step::Finished(result) => panic!("{:?}", result),
    };
    let mut replies = successes();
    let last = replies.pop().unwrap();
    for reply in replies {
        opening = match opening.advance(OpenReply::Configure(reply)) {
            Step::Pending(opening) => opening,
            Step::Finished(result) => panic!("{:?}", result),
        };
    }
    let mut stream = finished(opening.advance(OpenReply::Configure(last))).unwrap();
    assert_eq!(stream.name(), Some(String::from("/dev/ttyUSB0")));
    assert_eq!(stream.set_exclusive(false, Ok(())), Ok(()));
    assert_eq!(stream.set_timeout(std::time::Duration::from_secs(1)), Ok(()));
    assert_eq!(stream.name(), Some(String::from("/dev/ttyUSB0")));
    assert_eq!(stream.as_raw_fd(), 5);
    assert!(!stream.exclusive());
}

#[test]
fn port_that_cannot_be_opened_is_not_configured() {
    let builder = serialport::new("/dev/ttyUSB0", 9600);
    let error = || Error::new(ErrorKind::NoDevice, "No such file or directory");
    let step = SerialStream::open(&builder).advance(OpenReply::Port(Err(error())));
    assert_eq!(finished(step), Err(error()));
}

#[test]
fn open_async_opens_the_same_port() {
    let builder = serialport::new("/dev/ttyUSB0", 115_200);
    let opening = builder.clone().open_async();
    assert_eq!(opening.call(), OpenCall::OpenPort(&builder));
    assert_eq!(opening.platform(), SerialStream::open(&builder).platform());
}

#[test]
fn native_platform_is_that_of_nix() {
    let platform = Platform::native();
    assert_eq!(platform.o_nonblock, nix::fcntl::OFlag::O_NONBLOCK.bits());
    assert_eq!(platform.vmin, nix::sys::termios::SpecialCharacterIndices::VMIN as usize);
}

fn configure(mut pairing: Pairing, replies: Vec<ConfigureReply>) -> Pairing {
    for reply in replies {
        pairing = match pairing.advance(PairReply::Configure(reply)) {
            Step::Pending(pairing) => pairing,
            Step::Finished(result) => panic!("{:?}", result),
        };
    }
    pairing
}

fn successes() -> Vec<ConfigureReply> {
    vec![
        ConfigureReply::Attributes(Ok(attributes(vec![0; 32]))),
        ConfigureReply::AttributesSet(Ok(())),
        ConfigureReply::Returned(2),
        ConfigureReply::Returned(0),
    ]
}

fn opened_pair() -> Pairing {
    let pairing = SerialStream::pair();
    assert_eq!(pairing.call(), PairCall::OpenPair);
    match pairing.advance(PairReply::Ports(Ok((port(3), port(4))))) {
        Step::Pending(pairing) => pairing,
        Step::Finished(result) => panic!("{:?}", result),
    }
}

#[test]
fn master_is_configured_before_slave() {
    let pairing = opened_pair();
    assert_eq!(
        pairing.call(),
        PairCall::Configure(ConfigureCall::GetAttributes { fd: 3 })
    );
    let pairing = configure(pairing, successes());
    assert_eq!(
        pairing.call(),
        PairCall::Configure(ConfigureCall::GetAttributes { fd: 4 })
    );
    let mut replies = successes();
    let last = replies.pop().unwrap();
    let pairing = configure(pairing, replies);
    let (master, slave) = finished(pairing.advance(PairReply::Configure(last))).unwrap();
    assert_eq!((master.as_raw_fd(), slave.as_raw_fd()), (3, 4));
    for mut stream in [master, slave] {
        assert_eq!(stream.name(), Some(String::from("/dev/ttyS0")));
        assert_eq!(stream.set_exclusive(true, Ok(())), Ok(()));
        assert_eq!(stream.name(), Some(String::from("/dev/ttyS0")));
    }
}

#[test]
fn pair_fails_with_its_slave() {
    let pairing = configure(opened_pair(), successes());
    let reply = ConfigureReply::Attributes(Err(NixError::InvalidPath));
    assert_eq!(
        finished(pairing.advance(PairReply::Configure(reply))),
        Err(Error::new(ErrorKind::Io(IoErrorKind::Other), "Invalid path"))
    );
}

#[test]
fn pair_fails_with_its_master() {
    let reply = ConfigureReply::Attributes(Err(NixError::InvalidUtf8));
    assert_eq!(
        finished(opened_pair().advance(PairReply::Configure(reply))),
        Err(Error::new(ErrorKind::Io(IoErrorKind::Other), "Invalid UTF-8 string"))
    );
}

#[test]
fn pair_that_cannot_be_opened_fails() {
    let error = || Error::new(ErrorKind::Unknown, "out of terminals");
    let step = SerialStream::pair().advance(PairReply::Ports(Err(error())));
    assert_eq!(finished(step), Err(error()));
}
