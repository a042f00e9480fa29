//! Opening a port on Windows, with replies made up.
use mio_serial::windows::{
    override_comm_timeouts, Call, CommTimeouts, CreateFile, Opening, Reply, INVALID_HANDLE_VALUE,
};
use mio_serial::{
    device_path, DataBits, Error, ErrorKind, FlowControl, IoErrorKind, OsError, Parity, Step,
    StopBits,
};

fn failure() -> Error {
    Error::new(ErrorKind::NoDevice, "gone")
}

fn os_error() -> OsError {
    OsError {
        code: 13,
        message: String::from("Access is denied."),
    }
}

fn successes() -> Vec<Reply> {
    vec![
        Reply::Done(Ok(())),
        Reply::Name(Some(String::from("COM7"))),
        Reply::BaudRate(Ok(57_600)),
        Reply::Parity(Ok(Parity::Even)),
        Reply::DataBits(Ok(DataBits::Seven)),
        Reply::StopBits(Ok(StopBits::Two)),
        Reply::FlowControl(Ok(FlowControl::Software)),
        Reply::Done(Ok(())),
        Reply::Handle(0x1a4),
        Reply::Done(Ok(())),
        Reply::Done(Ok(())),
        Reply::Done(Ok(())),
        Reply::Done(Ok(())),
        Reply::Done(Ok(())),
        Reply::Done(Ok(())),
        Reply::Returned(1),
    ]
}

fn after(count: usize) -> Opening<u8> {
    let mut opening = Opening::new(0u8);
    for reply in successes().into_iter().take(count) {
        opening = match opening.advance(reply) {
            Step::Pending(opening) => opening,
            Step::Finished(result) => panic!("{:?}", result),
        };
    }
    opening
}

fn com7() -> Vec<u16> {
    vec![92, 92, 46, 92, 67, 79, 77, 55, 0]
}

#[test]
fn settings_are_read_and_set_again() {
    let calls = vec![
        Call::OpenPort(&0u8),
        Call::QueryName,
        Call::QueryBaudRate,
        Call::QueryParity,
        Call::QueryDataBits,
        Call::QueryStopBits,
        Call::QueryFlowControl,
        Call::ClosePort,
        Call::CreateFile(CreateFile {
            path: com7(),
            desired_access: 0xC000_0000,
            share_mode: 0,
            creation_disposition: 3,
            flags_and_attributes: 0x4000_0080,
        }),
        Call::Adopt(0x1a4),
        Call::SetBaudRate(57_600),
        Call::SetParity(Parity::Even),
        Call::SetDataBits(DataBits::Seven),
        Call::SetStopBits(StopBits::Two),
        Call::SetFlowControl(FlowControl::Software),
        Call::SetTimeouts(0x1a4, override_comm_timeouts()),
    ];
    for (count, call) in calls.into_iter().enumerate() {
        assert_eq!(after(count).call(), call);
    }
    assert_eq!(after(15).advance(Reply::Returned(1)), Step::Finished(Ok(0x1a4)));
}

#[test]
fn first_failure_ends_it() {
    let failures = vec![
        (0, Reply::Done(Err(failure()))),
        (2, Reply::BaudRate(Err(failure()))),
        (3, Reply::Parity(Err(failure()))),
        (4, Reply::DataBits(Err(failure()))),
        (5, Reply::StopBits(Err(failure()))),
        (6, Reply::FlowControl(Err(failure()))),
        (10, Reply::Done(Err(failure()))),
        (11, Reply::Done(Err(failure()))),
        (12, Reply::Done(Err(failure()))),
        (13, Reply::Done(Err(failure()))),
        (14, Reply::Done(Err(failure()))),
    ];
    for (count, reply) in failures {
        assert_eq!(after(count).advance(reply), Step::Finished(Err(failure())));
    }
}

#[test]
fn port_without_a_name_is_no_device() {
    assert_eq!(
        after(1).advance(Reply::Name(None)),
        Step::Finished(Err(Error::new(ErrorKind::NoDevice, "Empty device name")))
    );
}

#[test]
fn system_errors_are_looked_up() {
    let failures = vec![(8, Reply::Handle(INVALID_HANDLE_VALUE)), (15, Reply::Returned(0))];
    for (count, reply) in failures {
        let opening = match after(count).advance(reply) {
            Step::Pending(opening) => opening,
            Step::Finished(result) => panic!("{:?}", result),
        };
        assert_eq!(opening.call(), Call::LastOsError);
        assert_eq!(
            opening.advance(Reply::LastOsError(os_error())),
            Step::Finished(Err(Error::new(
                ErrorKind::Io(IoErrorKind::Unclassified(std::io::ErrorKind::PermissionDenied)),
                "Access is denied."
            )))
        );
    }
}

/// The number of calls that an opening makes which fails at the call after
/// `count` others, that one and a look at the error among them.
fn calls_of_failure(count: usize, failure: Reply) -> usize {
    let mut opening = after(count);
    let mut calls = count + 1;
    let mut reply = failure;
    loop {
        opening = match opening.advance(reply) {
            Step::Pending(opening) => opening,
            Step::Finished(_) => return calls,
        };
        calls += 1;
        assert_eq!(opening.call(), Call::LastOsError);
        reply = Reply::LastOsError(os_error());
    }
}

#[test]
fn failed_opening_makes_no_further_call() {
    for count in [0, 10, 11, 12, 13, 14] {
        assert_eq!(calls_of_failure(count, Reply::Done(Err(failure()))), count + 1);
    }
    assert_eq!(calls_of_failure(1, Reply::Name(None)), 2);
    assert_eq!(calls_of_failure(6, Reply::FlowControl(Err(failure()))), 7);
    assert_eq!(calls_of_failure(8, Reply::Handle(INVALID_HANDLE_VALUE)), 10);
    assert_eq!(calls_of_failure(15, Reply::Returned(0)), 17);
}

#[test]
fn stray_windows_reply_changes_nothing() {
    match after(4).advance(Reply::Returned(1)) {
        Step::Pending(opening) => assert_eq!(opening, after(4)),
        Step::Finished(result) => panic!("{:?}", result),
    }
}

#[test]
fn reads_wait_for_one_byte() {
    assert_eq!(
        override_comm_timeouts(),
        CommTimeouts {
            read_interval_timeout: 1,
            read_total_timeout_multiplier: 0,
            read_total_timeout_constant: 0,
            write_total_timeout_multiplier: 0,
            write_total_timeout_constant: 0,
        }
    );
}

#[test]
fn device_paths_are_utf16() {
    assert_eq!(device_path("COM7"), com7());
    assert_eq!(device_path(""), vec![92, 92, 46, 92, 0]);
    for name in ["Anschluß", "ポート", "\u{10000}\u{10FFFF}\u{FFFF}", "🦀 port"] {
        let mut expected: Vec<u16> = r"\\.\".encode_utf16().collect();
        expected.extend(name.encode_utf16());
        assert!(!expected.contains(&0));
        expected.push(0);
        assert_eq!(device_path(name), expected);
    }
}
