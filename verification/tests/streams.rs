//! What a stream answers by itself, and what it asks of its port.
use mio_serial::{
    ClearBuffer, Command, CountQuery, DataBits, Error, ErrorKind, FlowControl, IoErrorKind,
    NativePort, Parity, PinQuery, SerialStream, StopBits,
};
use std::time::Duration;

fn stream(exclusive: bool) -> SerialStream {
    SerialStream::from_port(NativePort { fd: 9, name: Some(String::from("COM3")), exclusive })
}

#[test]
fn descriptor_is_that_of_the_port() {
    assert_eq!(stream(false).as_raw_fd(), 9);
    assert_eq!(stream(false).into_raw_fd(), 9);
}

#[test]
fn name_is_that_of_the_port() {
    assert_eq!(stream(false).name(), Some(String::from("COM3")));
    let nameless = SerialStream::from_port(NativePort { fd: 9, name: None, exclusive: true });
    assert_eq!(nameless.name(), None);
}

#[test]
fn timeout_is_zero_whatever_was_set() {
    let mut stream = stream(false);
    assert_eq!(stream.timeout(), 0);
    assert_eq!(stream.set_timeout(Duration::from_secs(5)), Ok(()));
    assert_eq!(stream.timeout(), 0);
}

#[test]
fn stream_cannot_be_cloned() {
    assert_eq!(
        stream(false).try_clone(),
        Err(Error::new(
            ErrorKind::Io(IoErrorKind::Other),
            "SerialPort::try_clone not valid for SerialStream."
        ))
    );
}

#[test]
fn exclusivity_is_that_of_the_last_success() {
    let failure = || Err(Error::new(ErrorKind::Unknown, "refused"));
    let answer = || Err(Error::new(ErrorKind::Io(IoErrorKind::Other), "refused"));
    let mut stream = stream(false);
    assert!(!stream.exclusive());
    assert_eq!(stream.set_exclusive(true, failure()), answer());
    assert!(!stream.exclusive());
    assert_eq!(stream.set_exclusive(true, Ok(())), Ok(()));
    assert!(stream.exclusive());
    assert_eq!(stream.set_exclusive(false, failure()), answer());
    assert!(stream.exclusive());
    assert_eq!(stream.set_exclusive(false, Ok(())), Ok(()));
    assert!(!stream.exclusive());
    assert_eq!(stream.as_raw_fd(), 9);
}

fn error(kind: ErrorKind) -> Error {
    Error::new(kind, "went wrong")
}

fn timed_out() -> ErrorKind {
    ErrorKind::Io(IoErrorKind::Unclassified(std::io::ErrorKind::TimedOut))
}

const OTHER: ErrorKind = ErrorKind::Io(IoErrorKind::Other);

#[test]
fn exclusivity_fails_with_io_errors() {
    for (kind, told) in [
        (timed_out(), timed_out()),
        (OTHER, OTHER),
        (ErrorKind::NoDevice, OTHER),
        (ErrorKind::InvalidInput, OTHER),
        (ErrorKind::Unknown, OTHER),
    ] {
        let mut stream = stream(true);
        let command = stream.ask_exclusive(false);
        assert_eq!(command, Command::SetExclusive(false));
        assert_eq!(command.answer(Err(error(kind))), Err(error(told)));
        assert_eq!(stream.set_exclusive(false, Err(error(kind))), Err(error(told)));
        assert!(stream.exclusive());
    }
    assert_eq!(stream(true).ask_exclusive(true).answer(Ok(())), Ok(()));
}

#[test]
fn signals_and_buffers_fail_with_no_device_or_io() {
    let stream = stream(false);
    let commands = [
        stream.write_request_to_send(true),
        stream.write_data_terminal_ready(false),
        stream.clear(ClearBuffer::Input),
    ];
    let pins = [
        stream.read_clear_to_send(),
        stream.read_data_set_ready(),
        stream.read_ring_indicator(),
        stream.read_carrier_detect(),
    ];
    let counts = [stream.bytes_to_read(), stream.bytes_to_write()];
    for (kind, told) in [
        (timed_out(), timed_out()),
        (ErrorKind::NoDevice, ErrorKind::NoDevice),
        (ErrorKind::InvalidInput, OTHER),
        (ErrorKind::Unknown, OTHER),
    ] {
        for command in commands {
            assert_eq!(command.answer(Err(error(kind))), Err(error(told)));
        }
        for pin in pins {
            assert_eq!(pin.answer(Err(error(kind))), Err(error(told)));
        }
        for count in counts {
            assert_eq!(count.answer(Err(error(kind))), Err(error(told)));
        }
    }
    for command in commands {
        assert_eq!(command.answer(Ok(())), Ok(()));
    }
    for level in [false, true] {
        for pin in pins {
            assert_eq!(pin.answer(Ok(level)), Ok(level));
        }
    }
    for count in counts {
        assert_eq!(count.answer(Ok(12)), Ok(12));
    }
}

#[test]
fn settings_fail_as_the_port_does() {
    let stream = stream(false);
    for kind in [ErrorKind::InvalidInput, ErrorKind::Unknown, ErrorKind::NoDevice, timed_out()] {
        for command in [
            stream.set_break(),
            stream.clear_break(),
            stream.set_baud_rate(1),
            stream.set_data_bits(DataBits::Five),
            stream.set_flow_control(FlowControl::Software),
            stream.set_parity(Parity::Even),
            stream.set_stop_bits(StopBits::One),
        ] {
            assert_eq!(command.answer(Err(error(kind))), Err(error(kind)));
        }
        assert_eq!(stream.baud_rate().answer(Err(error(kind))), Err(error(kind)));
    }
    assert_eq!(stream.baud_rate().answer(Ok(9600)), Ok(9600));
    assert_eq!(stream.set_baud_rate(9600).answer(Ok(())), Ok(()));
}

#[test]
fn commands_reach_the_port_unchanged() {
    let stream = stream(false);
    assert_eq!(stream.set_break(), Command::SetBreak);
    assert_eq!(stream.clear_break(), Command::ClearBreak);
    assert_eq!(stream.set_baud_rate(9600), Command::SetBaudRate(9600));
    assert_eq!(stream.set_data_bits(DataBits::Seven), Command::SetDataBits(DataBits::Seven));
    assert_eq!(
        stream.set_flow_control(FlowControl::Hardware),
        Command::SetFlowControl(FlowControl::Hardware)
    );
    assert_eq!(stream.set_parity(Parity::Odd), Command::SetParity(Parity::Odd));
    assert_eq!(stream.set_stop_bits(StopBits::Two), Command::SetStopBits(StopBits::Two));
    for level in [false, true] {
        assert_eq!(stream.write_request_to_send(level), Command::WriteRequestToSend(level));
        assert_eq!(
            stream.write_data_terminal_ready(level),
            Command::WriteDataTerminalReady(level)
        );
        assert_eq!(stream.ask_exclusive(level), Command::SetExclusive(level));
    }
    assert_eq!(stream.clear(ClearBuffer::All), Command::Clear(ClearBuffer::All));
}

#[test]
fn queries_ask_for_what_they_say() {
    let stream = stream(false);
    assert_eq!(stream.read_clear_to_send(), PinQuery::ClearToSend);
    assert_eq!(stream.read_data_set_ready(), PinQuery::DataSetReady);
    assert_eq!(stream.read_ring_indicator(), PinQuery::RingIndicator);
    assert_eq!(stream.read_carrier_detect(), PinQuery::CarrierDetect);
    assert_eq!(stream.baud_rate(), CountQuery::BaudRate);
    assert_eq!(stream.bytes_to_read(), CountQuery::BytesToRead);
    assert_eq!(stream.bytes_to_write(), CountQuery::BytesToWrite);
}
