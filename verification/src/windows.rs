//! Opening a serial port on Windows, where it has to be opened twice: once to
//! learn its settings, and once more for overlapped use.
use vstd::prelude::*;

use crate::device_path::{device_path, device_path_is_prefix_and_name, device_path_units, utf16};
use crate::error::{os_error_kind, serial_error_of_os, with_error_view, Error, ErrorKind};
use crate::error::{ErrorView, OsError, OsErrorView};
use crate::settings::{DataBits, FlowControl, Parity, StopBits};
use crate::step::{run, Step};

verus! {

/// The right to read from a file.
pub const GENERIC_READ: u32 = 0x8000_0000;

/// The right to write to a file.
pub const GENERIC_WRITE: u32 = 0x4000_0000;

/// Open a file only if it exists.
pub const OPEN_EXISTING: u32 = 3;

/// A file without attributes.
pub const FILE_ATTRIBUTE_NORMAL: u32 = 0x80;

/// A file for overlapped input and output.
pub const FILE_FLAG_OVERLAPPED: u32 = 0x4000_0000;

/// The handle of a file that could not be opened.
pub const INVALID_HANDLE_VALUE: isize = -1;

/// The arguments of `CreateFileW`, but for the security attributes and the
/// template file, of which there are none.
#[derive(Debug, PartialEq, Eq)]
pub struct CreateFile {
    /// The path of the device, terminated by a zero.
    pub path: Vec<u16>,
    /// The rights that are wanted.
    pub desired_access: u32,
    /// What others may do with the device meanwhile.
    pub share_mode: u32,
    /// What to do if the device exists or does not.
    pub creation_disposition: u32,
    /// How the device is to be used.
    pub flags_and_attributes: u32,
}

/// What a `CreateFile` says.
#[verifier::ext_equal]
pub struct CreateFileView {
    pub path: Seq<u16>,
    pub desired_access: u32,
    pub share_mode: u32,
    pub creation_disposition: u32,
    pub flags_and_attributes: u32,
}

impl View for CreateFile {
    type V = CreateFileView;

    open spec fn view(&self) -> CreateFileView {
        CreateFileView {
            path: self.path@,
            desired_access: self.desired_access,
            share_mode: self.share_mode,
            creation_disposition: self.creation_disposition,
            flags_and_attributes: self.flags_and_attributes,
        }
    }
}

/// How long reads and writes wait, in milliseconds (`COMMTIMEOUTS`).
#[derive(Clone, Copy, Debug, PartialEq, Eq, Structural)]
pub struct CommTimeouts {
    /// The longest wait between two bytes of a read; zero for no limit.
    pub read_interval_timeout: u32,
    /// The longest wait of a read for each byte that was asked for.
    pub read_total_timeout_multiplier: u32,
    /// The longest wait of a read beyond that.
    pub read_total_timeout_constant: u32,
    /// The longest wait of a write for each byte.
    pub write_total_timeout_multiplier: u32,
    /// The longest wait of a write beyond that.
    pub write_total_timeout_constant: u32,
}

/// The timeouts of a stream: a read waits for its first byte for ever, so that
/// it never wakes up with nothing, and then at most a millisecond between two
/// bytes. Writes have no limit.
pub open spec fn stream_timeouts() -> CommTimeouts {
    CommTimeouts {
        read_interval_timeout: 1,
        read_total_timeout_multiplier: 0,
        read_total_timeout_constant: 0,
        write_total_timeout_multiplier: 0,
        write_total_timeout_constant: 0,
    }
}

/// The timeouts that override those of the port.
pub fn override_comm_timeouts() -> (timeouts: CommTimeouts)
    ensures
        timeouts == stream_timeouts(),
        timeouts.read_interval_timeout == 1,
        timeouts.read_total_timeout_multiplier == 0,
        timeouts.read_total_timeout_constant == 0,
        timeouts.write_total_timeout_multiplier == 0,
        timeouts.write_total_timeout_constant == 0,
{
    CommTimeouts {
        // wait at most 1ms between two bytes (0 means no timeout)
        read_interval_timeout: 1,
        // disable "total" timeout to wait at least 1 byte forever
        read_total_timeout_multiplier: 0,
        read_total_timeout_constant: 0,
        write_total_timeout_multiplier: 0,
        write_total_timeout_constant: 0,
    }
}

/// What is learned of a port while it is open for the first time.
#[derive(Debug, PartialEq, Eq)]
pub struct LineSettings {
    /// The name of the device.
    pub name: String,
    /// The baud rate.
    pub baud_rate: u32,
    /// The parity checking mode.
    pub parity: Parity,
    /// The character size.
    pub data_bits: DataBits,
    /// The number of stop bits.
    pub stop_bits: StopBits,
    /// The flow control mode.
    pub flow_control: FlowControl,
}

/// A call that opening a port needs.
#[derive(Debug, PartialEq, Eq)]
pub enum Call<'a, B> {
    /// Open the port that the builder describes.
    OpenPort(&'a B),
    /// Ask that port for its name.
    QueryName,
    /// Ask that port for its baud rate.
    QueryBaudRate,
    /// Ask that port for its parity.
    QueryParity,
    /// Ask that port for its data bits.
    QueryDataBits,
    /// Ask that port for its stop bits.
    QueryStopBits,
    /// Ask that port for its flow control.
    QueryFlowControl,
    /// Close that port.
    ClosePort,
    /// Open the device itself (`CreateFileW`).
    CreateFile(CreateFile),
    /// Make a port and a pipe of the handle.
    Adopt(isize),
    /// Set the baud rate of the port over the handle.
    SetBaudRate(u32),
    /// Set the parity of the port over the handle.
    SetParity(Parity),
    /// Set the data bits of the port over the handle.
    SetDataBits(DataBits),
    /// Set the stop bits of the port over the handle.
    SetStopBits(StopBits),
    /// Set the flow control of the port over the handle.
    SetFlowControl(FlowControl),
    /// Set the timeouts of the handle (`SetCommTimeouts`).
    SetTimeouts(isize, CommTimeouts),
    /// Look up the error that the last system call left behind.
    LastOsError,
}

/// What a `Call` says.
#[verifier::ext_equal]
pub enum CallView<B> {
    OpenPort(B),
    QueryName,
    QueryBaudRate,
    QueryParity,
    QueryDataBits,
    QueryStopBits,
    QueryFlowControl,
    ClosePort,
    CreateFile(CreateFileView),
    Adopt(isize),
    SetBaudRate(u32),
    SetParity(Parity),
    SetDataBits(DataBits),
    SetStopBits(StopBits),
    SetFlowControl(FlowControl),
    SetTimeouts(isize, CommTimeouts),
    LastOsError,
}

impl<'a, B> View for Call<'a, B> {
    type V = CallView<B>;

    open spec fn view(&self) -> CallView<B> {
        match self {
            Call::OpenPort(builder) => CallView::OpenPort(**builder),
            Call::QueryName => CallView::QueryName,
            Call::QueryBaudRate => CallView::QueryBaudRate,
            Call::QueryParity => CallView::QueryParity,
            Call::QueryDataBits => CallView::QueryDataBits,
            Call::QueryStopBits => CallView::QueryStopBits,
            Call::QueryFlowControl => CallView::QueryFlowControl,
            Call::ClosePort => CallView::ClosePort,
            Call::CreateFile(arguments) => CallView::CreateFile(arguments@),
            Call::Adopt(handle) => CallView::Adopt(*handle),
            Call::SetBaudRate(baud_rate) => CallView::SetBaudRate(*baud_rate),
            Call::SetParity(parity) => CallView::SetParity(*parity),
            Call::SetDataBits(data_bits) => CallView::SetDataBits(*data_bits),
            Call::SetStopBits(stop_bits) => CallView::SetStopBits(*stop_bits),
            Call::SetFlowControl(flow_control) => CallView::SetFlowControl(*flow_control),
            Call::SetTimeouts(handle, timeouts) => CallView::SetTimeouts(
                *handle,
                *timeouts,
            ),
            Call::LastOsError => CallView::LastOsError,
        }
    }
}

/// What came back of a `Call`.
#[derive(Debug, PartialEq, Eq)]
pub enum Reply {
    /// Whether a call that gives nothing back succeeded.
    Done(Result<(), Error>),
    /// The name of the port, if it has one.
    Name(Option<String>),
    /// The baud rate of the port.
    BaudRate(Result<u32, Error>),
    /// The parity of the port.
    Parity(Result<Parity, Error>),
    /// The data bits of the port.
    DataBits(Result<DataBits, Error>),
    /// The stop bits of the port.
    StopBits(Result<StopBits, Error>),
    /// The flow control of the port.
    FlowControl(Result<FlowControl, Error>),
    /// The handle that opening the device returned.
    Handle(isize),
    /// The number that setting the timeouts returned.
    Returned(i32),
    /// The error that the last system call left behind.
    LastOsError(OsError),
}

/// What a `Reply` says.
#[verifier::ext_equal]
pub enum ReplyView {
    Done(Result<(), ErrorView>),
    Name(Option<String>),
    BaudRate(Result<u32, ErrorView>),
    Parity(Result<Parity, ErrorView>),
    DataBits(Result<DataBits, ErrorView>),
    StopBits(Result<StopBits, ErrorView>),
    FlowControl(Result<FlowControl, ErrorView>),
    Handle(isize),
    Returned(i32),
    LastOsError(OsErrorView),
}

impl View for Reply {
    type V = ReplyView;

    open spec fn view(&self) -> ReplyView {
        match self {
            Reply::Done(result) => ReplyView::Done(with_error_view(*result)),
            Reply::Name(name) => ReplyView::Name(*name),
            Reply::BaudRate(result) => ReplyView::BaudRate(with_error_view(*result)),
            Reply::Parity(result) => ReplyView::Parity(with_error_view(*result)),
            Reply::DataBits(result) => ReplyView::DataBits(with_error_view(*result)),
            Reply::StopBits(result) => ReplyView::StopBits(with_error_view(*result)),
            Reply::FlowControl(result) => ReplyView::FlowControl(with_error_view(*result)),
            Reply::Handle(handle) => ReplyView::Handle(*handle),
            Reply::Returned(number) => ReplyView::Returned(*number),
            Reply::LastOsError(error) => ReplyView::LastOsError(error@),
        }
    }
}

/// The call that is due, and what has been learned so far.
#[derive(Debug, PartialEq, Eq)]
pub enum Stage<B> {
    /// Open the port.
    OpenPort(B),
    /// Ask for the name.
    QueryName,
    /// Ask for the baud rate.
    QueryBaudRate(String),
    /// Ask for the parity.
    QueryParity(String, u32),
    /// Ask for the data bits.
    QueryDataBits(String, u32, Parity),
    /// Ask for the stop bits.
    QueryStopBits(String, u32, Parity, DataBits),
    /// Ask for the flow control.
    QueryFlowControl(String, u32, Parity, DataBits, StopBits),
    /// Close the port.
    ClosePort(LineSettings),
    /// Open the device itself.
    CreateFile(LineSettings),
    /// Make use of the handle.
    Adopt(LineSettings, isize),
    /// Set the baud rate.
    SetBaudRate(LineSettings, isize),
    /// Set the parity.
    SetParity(LineSettings, isize),
    /// Set the data bits.
    SetDataBits(LineSettings, isize),
    /// Set the stop bits.
    SetStopBits(LineSettings, isize),
    /// Set the flow control.
    SetFlowControl(LineSettings, isize),
    /// Set the timeouts.
    SetTimeouts(LineSettings, isize),
    /// Look up the error of the last call.
    LastOsError,
}

/// A port that is being opened on Windows.
#[derive(Debug, PartialEq, Eq)]
pub struct Opening<B> {
    stage: Stage<B>,
}

impl<B> View for Opening<B> {
    type V = Stage<B>;

    closed spec fn view(&self) -> Stage<B> {
        self.stage
    }
}

/// How the device `name` is opened: for reading and writing, shared with
/// nobody, only if it exists, and for overlapped use.
pub open spec fn device_arguments(name: Seq<char>) -> CreateFileView {
    CreateFileView {
        path: device_path_units(name),
        desired_access: GENERIC_READ | GENERIC_WRITE,
        share_mode: 0,
        creation_disposition: OPEN_EXISTING,
        flags_and_attributes: FILE_ATTRIBUTE_NORMAL | FILE_FLAG_OVERLAPPED,
    }
}

/// The error of a port that has no name.
pub open spec fn empty_name_error() -> ErrorView {
    ErrorView { kind: ErrorKind::NoDevice, description: "Empty device name"@ }
}

/// The call that is due.
pub open spec fn windows_call<B>(stage: Stage<B>) -> CallView<B> {
    match stage {
        Stage::OpenPort(builder) => CallView::OpenPort(builder),
        Stage::QueryName => CallView::QueryName,
        Stage::QueryBaudRate(..) => CallView::QueryBaudRate,
        Stage::QueryParity(..) => CallView::QueryParity,
        Stage::QueryDataBits(..) => CallView::QueryDataBits,
        Stage::QueryStopBits(..) => CallView::QueryStopBits,
        Stage::QueryFlowControl(..) => CallView::QueryFlowControl,
        Stage::ClosePort(_) => CallView::ClosePort,
        Stage::CreateFile(settings) => CallView::CreateFile(
            device_arguments(settings.name@),
        ),
        Stage::Adopt(_, handle) => CallView::Adopt(handle),
        Stage::SetBaudRate(settings, _) => CallView::SetBaudRate(settings.baud_rate),
        Stage::SetParity(settings, _) => CallView::SetParity(settings.parity),
        Stage::SetDataBits(settings, _) => CallView::SetDataBits(settings.data_bits),
        Stage::SetStopBits(settings, _) => CallView::SetStopBits(settings.stop_bits),
        Stage::SetFlowControl(settings, _) => CallView::SetFlowControl(settings.flow_control),
        Stage::SetTimeouts(_, handle) => CallView::SetTimeouts(
            handle,
            stream_timeouts(),
        ),
        Stage::LastOsError => CallView::LastOsError,
    }
}

/// Where a reply leads. A reply to another call than the one that is due
/// changes nothing.
pub open spec fn windows_next<B>(stage: Stage<B>, reply: ReplyView) -> Step<
    Stage<B>,
    isize,
    ErrorView,
> {
    match (stage, reply) {
        (Stage::OpenPort(_), ReplyView::Done(Ok(_))) => Step::Pending(Stage::QueryName),
        (Stage::OpenPort(_), ReplyView::Done(Err(error))) => Step::Finished(Err(error)),
        (Stage::QueryName, ReplyView::Name(Some(name))) => {
            Step::Pending(Stage::QueryBaudRate(name))
        },
        (Stage::QueryName, ReplyView::Name(None)) => Step::Finished(Err(empty_name_error())),
        (Stage::QueryBaudRate(name), ReplyView::BaudRate(Ok(baud_rate))) => {
            Step::Pending(Stage::QueryParity(name, baud_rate))
        },
        (Stage::QueryBaudRate(..), ReplyView::BaudRate(Err(error))) => Step::Finished(Err(error)),
        (Stage::QueryParity(name, baud_rate), ReplyView::Parity(Ok(parity))) => {
            Step::Pending(Stage::QueryDataBits(name, baud_rate, parity))
        },
        (Stage::QueryParity(..), ReplyView::Parity(Err(error))) => Step::Finished(Err(error)),
        (Stage::QueryDataBits(name, baud_rate, parity), ReplyView::DataBits(Ok(data_bits))) => {
            Step::Pending(Stage::QueryStopBits(name, baud_rate, parity, data_bits))
        },
        (Stage::QueryDataBits(..), ReplyView::DataBits(Err(error))) => Step::Finished(Err(error)),
        (
            Stage::QueryStopBits(name, baud_rate, parity, data_bits),
            ReplyView::StopBits(Ok(stop_bits)),
        ) => {
            Step::Pending(Stage::QueryFlowControl(name, baud_rate, parity, data_bits, stop_bits))
        },
        (Stage::QueryStopBits(..), ReplyView::StopBits(Err(error))) => Step::Finished(Err(error)),
        (
            Stage::QueryFlowControl(name, baud_rate, parity, data_bits, stop_bits),
            ReplyView::FlowControl(Ok(flow_control)),
        ) => {
            let settings = LineSettings {
                name,
                baud_rate,
                parity,
                data_bits,
                stop_bits,
                flow_control,
            };
            Step::Pending(Stage::ClosePort(settings))
        },
        (Stage::QueryFlowControl(..), ReplyView::FlowControl(Err(error))) => {
            Step::Finished(Err(error))
        },
        (Stage::ClosePort(settings), ReplyView::Done(_)) => {
            Step::Pending(Stage::CreateFile(settings))
        },
        (Stage::CreateFile(settings), ReplyView::Handle(handle)) => {
            if handle == INVALID_HANDLE_VALUE {
                Step::Pending(Stage::LastOsError)
            } else {
                Step::Pending(Stage::Adopt(settings, handle))
            }
        },
        (Stage::Adopt(settings, handle), ReplyView::Done(_)) => {
            Step::Pending(Stage::SetBaudRate(settings, handle))
        },
        (Stage::SetBaudRate(settings, handle), ReplyView::Done(Ok(_))) => {
            Step::Pending(Stage::SetParity(settings, handle))
        },
        (Stage::SetBaudRate(..), ReplyView::Done(Err(error))) => Step::Finished(Err(error)),
        (Stage::SetParity(settings, handle), ReplyView::Done(Ok(_))) => {
            Step::Pending(Stage::SetDataBits(settings, handle))
        },
        (Stage::SetParity(..), ReplyView::Done(Err(error))) => Step::Finished(Err(error)),
        (Stage::SetDataBits(settings, handle), ReplyView::Done(Ok(_))) => {
            Step::Pending(Stage::SetStopBits(settings, handle))
        },
        (Stage::SetDataBits(..), ReplyView::Done(Err(error))) => Step::Finished(Err(error)),
        (Stage::SetStopBits(settings, handle), ReplyView::Done(Ok(_))) => {
            Step::Pending(Stage::SetFlowControl(settings, handle))
        },
        (Stage::SetStopBits(..), ReplyView::Done(Err(error))) => Step::Finished(Err(error)),
        (Stage::SetFlowControl(settings, handle), ReplyView::Done(Ok(_))) => {
            Step::Pending(Stage::SetTimeouts(settings, handle))
        },
        (Stage::SetFlowControl(..), ReplyView::Done(Err(error))) => Step::Finished(Err(error)),
        (Stage::SetTimeouts(_, handle), ReplyView::Returned(number)) => {
            if number == 0 {
                Step::Pending(Stage::LastOsError)
            } else {
                Step::Finished(Ok(handle))
            }
        },
        (Stage::LastOsError, ReplyView::LastOsError(error)) => {
            Step::Finished(Err(serial_error_of_os(error)))
        },
        _ => Step::Pending(stage),
    }
}

/// An opening that is not finished.
fn pending<B>(stage: Stage<B>) -> (step: Step<Opening<B>, isize, Error>)
    ensures
        step@ == Step::<Stage<B>, isize, ErrorView>::Pending(stage),
{
    Step::Pending(Opening { stage })
}

impl<B> Opening<B> {
    /// Begins to open the port that `builder` describes.
    pub fn new(builder: B) -> (opening: Opening<B>)
        ensures
            opening@ == Stage::OpenPort(builder),
    {
        Opening { stage: Stage::OpenPort(builder) }
    }

    /// The call to make next.
    pub fn call(&self) -> (call: Call<'_, B>)
        ensures
            call@ == windows_call(self@),
    {
        match &self.stage {
            Stage::OpenPort(builder) => Call::OpenPort(builder),
            Stage::QueryName => Call::QueryName,
            Stage::QueryBaudRate(..) => Call::QueryBaudRate,
            Stage::QueryParity(..) => Call::QueryParity,
            Stage::QueryDataBits(..) => Call::QueryDataBits,
            Stage::QueryStopBits(..) => Call::QueryStopBits,
            Stage::QueryFlowControl(..) => Call::QueryFlowControl,
            Stage::ClosePort(_) => Call::ClosePort,
            Stage::CreateFile(settings) => Call::CreateFile(
                CreateFile {
                    path: device_path(settings.name.as_str()),
                    desired_access: GENERIC_READ | GENERIC_WRITE,
                    share_mode: 0,
                    creation_disposition: OPEN_EXISTING,
                    flags_and_attributes: FILE_ATTRIBUTE_NORMAL | FILE_FLAG_OVERLAPPED,
                },
            ),
            Stage::Adopt(_, handle) => Call::Adopt(*handle),
            Stage::SetBaudRate(settings, _) => Call::SetBaudRate(settings.baud_rate),
            Stage::SetParity(settings, _) => Call::SetParity(settings.parity),
            Stage::SetDataBits(settings, _) => Call::SetDataBits(settings.data_bits),
            Stage::SetStopBits(settings, _) => Call::SetStopBits(settings.stop_bits),
            Stage::SetFlowControl(settings, _) => Call::SetFlowControl(settings.flow_control),
            Stage::SetTimeouts(_, handle) => Call::SetTimeouts(
                *handle,
                override_comm_timeouts(),
            ),
            Stage::LastOsError => Call::LastOsError,
        }
    }

    /// Takes what came back of the call. The result is the handle of the device.
    pub fn advance(self, reply: Reply) -> (step: Step<Opening<B>, isize, Error>)
        ensures
            step@ == windows_next(self@, reply@),
    {
        match (self.stage, reply) {
            (Stage::OpenPort(_), Reply::Done(Ok(_))) => pending(Stage::QueryName),
            (Stage::OpenPort(_), Reply::Done(Err(error))) => Step::Finished(Err(error)),
            (Stage::QueryName, Reply::Name(Some(name))) => pending(Stage::QueryBaudRate(name)),
            (Stage::QueryName, Reply::Name(None)) => {
                Step::Finished(Err(Error::new(ErrorKind::NoDevice, "Empty device name")))
            },
            (Stage::QueryBaudRate(name), Reply::BaudRate(Ok(baud_rate))) => {
                pending(Stage::QueryParity(name, baud_rate))
            },
            (Stage::QueryBaudRate(..), Reply::BaudRate(Err(error))) => Step::Finished(Err(error)),
            (Stage::QueryParity(name, baud_rate), Reply::Parity(Ok(parity))) => {
                pending(Stage::QueryDataBits(name, baud_rate, parity))
            },
            (Stage::QueryParity(..), Reply::Parity(Err(error))) => Step::Finished(Err(error)),
            (Stage::QueryDataBits(name, baud_rate, parity), Reply::DataBits(Ok(data_bits))) => {
                pending(Stage::QueryStopBits(name, baud_rate, parity, data_bits))
            },
            (Stage::QueryDataBits(..), Reply::DataBits(Err(error))) => Step::Finished(Err(error)),
            (
                Stage::QueryStopBits(name, baud_rate, parity, data_bits),
                Reply::StopBits(Ok(stop_bits)),
            ) => {
                pending(Stage::QueryFlowControl(name, baud_rate, parity, data_bits, stop_bits))
            },
            (Stage::QueryStopBits(..), Reply::StopBits(Err(error))) => Step::Finished(Err(error)),
            (
                Stage::QueryFlowControl(name, baud_rate, parity, data_bits, stop_bits),
                Reply::FlowControl(Ok(flow_control)),
            ) => {
                let settings = LineSettings {
                    name,
                    baud_rate,
                    parity,
                    data_bits,
                    stop_bits,
                    flow_control,
                };
                pending(Stage::ClosePort(settings))
            },
            (Stage::QueryFlowControl(..), Reply::FlowControl(Err(error))) => {
                Step::Finished(Err(error))
            },
            (Stage::ClosePort(settings), Reply::Done(_)) => pending(Stage::CreateFile(settings)),
            (Stage::CreateFile(settings), Reply::Handle(handle)) => {
                if handle == INVALID_HANDLE_VALUE {
                    pending(Stage::LastOsError)
                } else {
                    pending(Stage::Adopt(settings, handle))
                }
            },
            (Stage::Adopt(settings, handle), Reply::Done(_)) => {
                pending(Stage::SetBaudRate(settings, handle))
            },
            (Stage::SetBaudRate(settings, handle), Reply::Done(Ok(_))) => {
                pending(Stage::SetParity(settings, handle))
            },
            (Stage::SetBaudRate(..), Reply::Done(Err(error))) => Step::Finished(Err(error)),
            (Stage::SetParity(settings, handle), Reply::Done(Ok(_))) => {
                pending(Stage::SetDataBits(settings, handle))
            },
            (Stage::SetParity(..), Reply::Done(Err(error))) => Step::Finished(Err(error)),
            (Stage::SetDataBits(settings, handle), Reply::Done(Ok(_))) => {
                pending(Stage::SetStopBits(settings, handle))
            },
            (Stage::SetDataBits(..), Reply::Done(Err(error))) => Step::Finished(Err(error)),
            (Stage::SetStopBits(settings, handle), Reply::Done(Ok(_))) => {
                pending(Stage::SetFlowControl(settings, handle))
            },
            (Stage::SetStopBits(..), Reply::Done(Err(error))) => Step::Finished(Err(error)),
            (Stage::SetFlowControl(settings, handle), Reply::Done(Ok(_))) => {
                pending(Stage::SetTimeouts(settings, handle))
            },
            (Stage::SetFlowControl(..), Reply::Done(Err(error))) => Step::Finished(Err(error)),
            (Stage::SetTimeouts(_, handle), Reply::Returned(number)) => {
                if number == 0 {
                    pending(Stage::LastOsError)
                } else {
                    Step::Finished(Ok(handle))
                }
            },
            (Stage::LastOsError, Reply::LastOsError(error)) => {
                Step::Finished(Err(Error::from_os(error)))
            },
            (stage, _) => pending(stage),
        }
    }
}

/// Whether `reply` is one that `call` can have.
pub open spec fn windows_answers<B>(call: CallView<B>, reply: ReplyView) -> bool {
    match call {
        CallView::OpenPort(_) => reply is Done,
        CallView::QueryName => reply is Name,
        CallView::QueryBaudRate => reply is BaudRate,
        CallView::QueryParity => reply is Parity,
        CallView::QueryDataBits => reply is DataBits,
        CallView::QueryStopBits => reply is StopBits,
        CallView::QueryFlowControl => reply is FlowControl,
        CallView::ClosePort => reply is Done,
        CallView::CreateFile(_) => reply is Handle,
        CallView::Adopt(_) => reply is Done,
        CallView::SetBaudRate(_) => reply is Done,
        CallView::SetParity(_) => reply is Done,
        CallView::SetDataBits(_) => reply is Done,
        CallView::SetStopBits(_) => reply is Done,
        CallView::SetFlowControl(_) => reply is Done,
        CallView::SetTimeouts(..) => reply is Returned,
        CallView::LastOsError => reply is LastOsError,
    }
}

/// The error with which the reply to a call ends the opening, if it does.
pub open spec fn windows_failure<B>(
    call: CallView<B>,
    reply: ReplyView,
) -> Option<ErrorView> {
    match (call, reply) {
        (CallView::ClosePort, _) => None,
        (CallView::Adopt(_), _) => None,
        (_, ReplyView::Done(Err(error))) => Some(error),
        (_, ReplyView::Name(None)) => Some(empty_name_error()),
        (_, ReplyView::BaudRate(Err(error))) => Some(error),
        (_, ReplyView::Parity(Err(error))) => Some(error),
        (_, ReplyView::DataBits(Err(error))) => Some(error),
        (_, ReplyView::StopBits(Err(error))) => Some(error),
        (_, ReplyView::FlowControl(Err(error))) => Some(error),
        (_, ReplyView::LastOsError(error)) => Some(serial_error_of_os(error)),
        _ => None,
    }
}

/// The run of an opening from any stage on.
pub open spec fn windows_run<B>(
    stage: Stage<B>,
    world: spec_fn(int, CallView<B>) -> ReplyView,
    made: Seq<CallView<B>>,
    fuel: nat,
) -> (Seq<CallView<B>>, Step<Stage<B>, isize, ErrorView>) {
    run(
        stage,
        |stage: Stage<B>| windows_call(stage),
        |stage: Stage<B>, reply: ReplyView| windows_next(stage, reply),
        world,
        made,
        fuel,
    )
}

/// The calls that open a port with the given settings and handle, when none
/// fails.
pub open spec fn windows_calls<B>(
    builder: B,
    settings: LineSettings,
    handle: isize,
) -> Seq<CallView<B>> {
    seq![
        CallView::OpenPort(builder),
        CallView::QueryName,
        CallView::QueryBaudRate,
        CallView::QueryParity,
        CallView::QueryDataBits,
        CallView::QueryStopBits,
        CallView::QueryFlowControl,
        CallView::ClosePort,
        CallView::CreateFile(device_arguments(settings.name@)),
        CallView::Adopt(handle),
        CallView::SetBaudRate(settings.baud_rate),
        CallView::SetParity(settings.parity),
        CallView::SetDataBits(settings.data_bits),
        CallView::SetStopBits(settings.stop_bits),
        CallView::SetFlowControl(settings.flow_control),
        CallView::SetTimeouts(handle, stream_timeouts()),
    ]
}

/// The settings that the port was found to have.
pub open spec fn settings_found<B>(
    world: spec_fn(int, CallView<B>) -> ReplyView,
) -> LineSettings {
    LineSettings {
        name: world(1, CallView::QueryName)->Name_0->Some_0,
        baud_rate: world(2, CallView::QueryBaudRate)->BaudRate_0->Ok_0,
        parity: world(3, CallView::QueryParity)->Parity_0->Ok_0,
        data_bits: world(4, CallView::QueryDataBits)->DataBits_0->Ok_0,
        stop_bits: world(5, CallView::QueryStopBits)->StopBits_0->Ok_0,
        flow_control: world(6, CallView::QueryFlowControl)->FlowControl_0->Ok_0,
    }
}

/// The handle that the device of that name was given.
pub open spec fn handle_given<B>(world: spec_fn(int, CallView<B>) -> ReplyView) -> isize {
    world(8, CallView::CreateFile(device_arguments(settings_found(world).name@)))->Handle_0
}

/// A device that was opened has the settings that the port had when it was
/// opened first: they were read, the port was closed, the device of that name
/// was opened, and then each setting was set to what was read, and the
/// timeouts to those of a stream. However the calls come out, there are at
/// most seventeen.
pub proof fn windows_opening_restores_settings<B>(
    builder: B,
    world: spec_fn(int, CallView<B>) -> ReplyView,
    fuel: nat,
)
    requires
        fuel >= 17,
        forall|i: int, call: CallView<B>| windows_answers(call, #[trigger] world(i, call)),
    ensures
        ({
            let (calls, step) = windows_run(Stage::OpenPort(builder), world, seq![], fuel);
            &&& step is Finished
            &&& calls.len() <= 17
            &&& step matches Step::Finished(Ok(handle)) ==> {
                &&& handle == handle_given(world)
                &&& handle != INVALID_HANDLE_VALUE
                &&& calls == windows_calls(builder, settings_found(world), handle)
            }
        }),
{
    let all = windows_calls(builder, settings_found(world), handle_given(world));
    assert(all.take(0) =~= seq![]);
    on_track_to_the_end(builder, Stage::OpenPort(builder), world, seq![], fuel);
}

/// The calls of an opening that failed, where `all` are those of one that does
/// not: the first of them and no others, but for a look at the error that the
/// device left behind when it gave no handle or refused the timeouts.
pub open spec fn stops_short<B>(
    all: Seq<CallView<B>>,
    world: spec_fn(int, CallView<B>) -> ReplyView,
    calls: Seq<CallView<B>>,
) -> bool {
    if calls.last() is LastOsError {
        ||| {
            &&& calls == all.take(9).push(CallView::LastOsError)
            &&& world(8, all[8]) == ReplyView::Handle(INVALID_HANDLE_VALUE)
        }
        ||| {
            &&& calls == all.push(CallView::LastOsError)
            &&& world(15, all[15]) == ReplyView::Returned(0)
        }
    } else {
        &&& 0 < calls.len() < all.len()
        &&& calls == all.take(calls.len() as int)
    }
}

/// An opening that fails makes the calls of one that does not, up to the one
/// that fails. Only a device that gave no handle or refused the timeouts is
/// asked for one thing more, the error that it left behind.
pub proof fn windows_failed_opening_stops_short<B>(
    builder: B,
    world: spec_fn(int, CallView<B>) -> ReplyView,
    fuel: nat,
)
    requires
        fuel >= 17,
        forall|i: int, call: CallView<B>| windows_answers(call, #[trigger] world(i, call)),
    ensures
        ({
            let all = windows_calls(builder, settings_found(world), handle_given(world));
            let (calls, step) = windows_run(Stage::OpenPort(builder), world, seq![], fuel);
            step matches Step::Finished(Err(_)) ==> stops_short(all, world, calls)
        }),
{
    let all = windows_calls(builder, settings_found(world), handle_given(world));
    assert(all.take(0) =~= seq![]);
    on_track_to_the_end(builder, Stage::OpenPort(builder), world, seq![], fuel);
}

/// How many calls come before the one that is due.
spec fn position<B>(stage: Stage<B>) -> int {
    match stage {
        Stage::OpenPort(_) => 0,
        Stage::QueryName => 1,
        Stage::QueryBaudRate(..) => 2,
        Stage::QueryParity(..) => 3,
        Stage::QueryDataBits(..) => 4,
        Stage::QueryStopBits(..) => 5,
        Stage::QueryFlowControl(..) => 6,
        Stage::ClosePort(_) => 7,
        Stage::CreateFile(_) => 8,
        Stage::Adopt(..) => 9,
        Stage::SetBaudRate(..) => 10,
        Stage::SetParity(..) => 11,
        Stage::SetDataBits(..) => 12,
        Stage::SetStopBits(..) => 13,
        Stage::SetFlowControl(..) => 14,
        Stage::SetTimeouts(..) => 15,
        Stage::LastOsError => 16,
    }
}

/// What a stage holds is what was found.
spec fn on_track<B>(
    builder: B,
    stage: Stage<B>,
    world: spec_fn(int, CallView<B>) -> ReplyView,
) -> bool {
    let found = settings_found(world);
    let given = handle_given(world);
    match stage {
        Stage::OpenPort(requested) => requested == builder,
        Stage::QueryName => true,
        Stage::QueryBaudRate(name) => name == found.name,
        Stage::QueryParity(name, baud_rate) => name == found.name && baud_rate == found.baud_rate,
        Stage::QueryDataBits(name, baud_rate, parity) => {
            &&& name == found.name
            &&& baud_rate == found.baud_rate
            &&& parity == found.parity
        },
        Stage::QueryStopBits(name, baud_rate, parity, data_bits) => {
            &&& name == found.name
            &&& baud_rate == found.baud_rate
            &&& parity == found.parity
            &&& data_bits == found.data_bits
        },
        Stage::QueryFlowControl(name, baud_rate, parity, data_bits, stop_bits) => {
            &&& name == found.name
            &&& baud_rate == found.baud_rate
            &&& parity == found.parity
            &&& data_bits == found.data_bits
            &&& stop_bits == found.stop_bits
        },
        Stage::ClosePort(settings) => settings == found,
        Stage::CreateFile(settings) => settings == found,
        Stage::Adopt(settings, handle) => {
            settings == found && handle == given && handle != INVALID_HANDLE_VALUE
        },
        Stage::SetBaudRate(settings, handle) => {
            settings == found && handle == given && handle != INVALID_HANDLE_VALUE
        },
        Stage::SetParity(settings, handle) => {
            settings == found && handle == given && handle != INVALID_HANDLE_VALUE
        },
        Stage::SetDataBits(settings, handle) => {
            settings == found && handle == given && handle != INVALID_HANDLE_VALUE
        },
        Stage::SetStopBits(settings, handle) => {
            settings == found && handle == given && handle != INVALID_HANDLE_VALUE
        },
        Stage::SetFlowControl(settings, handle) => {
            settings == found && handle == given && handle != INVALID_HANDLE_VALUE
        },
        Stage::SetTimeouts(settings, handle) => {
            settings == found && handle == given && handle != INVALID_HANDLE_VALUE
        },
        Stage::LastOsError => true,
    }
}

proof fn on_track_to_the_end<B>(
    builder: B,
    stage: Stage<B>,
    world: spec_fn(int, CallView<B>) -> ReplyView,
    made: Seq<CallView<B>>,
    fuel: nat,
)
    requires
        fuel >= 17 - position(stage),
        made.len() <= position(stage),
        forall|i: int, call: CallView<B>| windows_answers(call, #[trigger] world(i, call)),
        on_track(builder, stage, world),
        ({
            let all = windows_calls(builder, settings_found(world), handle_given(world));
            if stage is LastOsError {
                stops_short(all, world, made.push(CallView::LastOsError))
            } else {
                made == all.take(position(stage))
            }
        }),
    ensures
        ({
            let all = windows_calls(builder, settings_found(world), handle_given(world));
            let (calls, step) = windows_run(stage, world, made, fuel);
            &&& step matches Step::Finished(Err(_)) ==> stops_short(all, world, calls)
            &&& step is Finished
            &&& calls.len() <= 17
            &&& step matches Step::Finished(Ok(handle)) ==> {
                &&& handle == handle_given(world)
                &&& handle != INVALID_HANDLE_VALUE
                &&& calls == windows_calls(builder, settings_found(world), handle)
            }
        }),
    decreases fuel,
{
    let all = windows_calls(builder, settings_found(world), handle_given(world));
    let asked = windows_call(stage);
    let reply = world(made.len() as int, asked);
    let more = made.push(asked);
    assert(windows_answers(asked, reply));
    assert(all.take(16) =~= all);
    if !(stage is LastOsError) {
        assert(asked == all[position(stage)]);
        assert(more =~= all.take(position(stage) + 1));
    }
    if let Step::Pending(later) = windows_next(stage, reply) {
        on_track_to_the_end(builder, later, world, more, (fuel - 1) as nat);
    }
}

/// An opening ends with the first failure: the error is that of the last call
/// that was made, and no call before that one failed.
pub proof fn windows_opening_ends_with_first_failure<B>(
    stage: Stage<B>,
    world: spec_fn(int, CallView<B>) -> ReplyView,
    made: Seq<CallView<B>>,
    fuel: nat,
)
    requires
        forall|i: int, call: CallView<B>|
            windows_answers(call, #[trigger] world(i, call)),
        forall|i: int|
            0 <= i < made.len() ==> windows_failure(#[trigger] made[i], world(i, made[i])) is None,
    ensures
        ({
            let (calls, step) = windows_run(stage, world, made, fuel);
            let last = calls.len() - 1;
            &&& forall|i: int|
                0 <= i < last ==> windows_failure(#[trigger] calls[i], world(i, calls[i])) is None
            &&& step matches Step::Finished(Ok(_)) ==> {
                &&& 0 <= last
                &&& windows_failure(calls[last], world(last, calls[last])) is None
            }
            &&& step matches Step::Finished(Err(error)) ==> {
                &&& 0 <= last
                &&& windows_failure(calls[last], world(last, calls[last])) == Some(error)
            }
        }),
    decreases fuel,
{
    if fuel > 0 {
        let asked = windows_call(stage);
        let reply = world(made.len() as int, asked);
        let more = made.push(asked);
        assert(windows_answers(asked, reply));
        if let Step::Pending(later) = windows_next(stage, reply) {
            assert(windows_failure(asked, reply) is None);
            windows_opening_ends_with_first_failure(later, world, more, (fuel - 1) as nat);
        }
    }
}

/// The arguments of `CreateFileW` are told as they are.
pub proof fn arguments_are_told_as_they_are(arguments: CreateFile)
    ensures
        arguments@.path == arguments.path@,
        arguments@.desired_access == arguments.desired_access,
        arguments@.share_mode == arguments.share_mode,
        arguments@.creation_disposition == arguments.creation_disposition,
        arguments@.flags_and_attributes == arguments.flags_and_attributes,
{
}

/// A call is told as it is.
pub proof fn windows_calls_are_told_as_they_are<B>(call: Call<'_, B>)
    ensures
        call matches Call::OpenPort(builder) ==> call@ == CallView::OpenPort(*builder),
        call is QueryName ==> call@ == CallView::<B>::QueryName,
        call is QueryBaudRate ==> call@ == CallView::<B>::QueryBaudRate,
        call is QueryParity ==> call@ == CallView::<B>::QueryParity,
        call is QueryDataBits ==> call@ == CallView::<B>::QueryDataBits,
        call is QueryStopBits ==> call@ == CallView::<B>::QueryStopBits,
        call is QueryFlowControl ==> call@ == CallView::<B>::QueryFlowControl,
        call is ClosePort ==> call@ == CallView::<B>::ClosePort,
        call is LastOsError ==> call@ == CallView::<B>::LastOsError,
        call matches Call::CreateFile(arguments) ==> call@ == CallView::<B>::CreateFile(
            arguments@,
        ),
        call matches Call::Adopt(value) ==> call@ == CallView::<B>::Adopt(value),
        call matches Call::SetBaudRate(value) ==> call@ == CallView::<B>::SetBaudRate(value),
        call matches Call::SetParity(value) ==> call@ == CallView::<B>::SetParity(value),
        call matches Call::SetDataBits(value) ==> call@ == CallView::<B>::SetDataBits(value),
        call matches Call::SetStopBits(value) ==> call@ == CallView::<B>::SetStopBits(value),
        call matches Call::SetFlowControl(value) ==> call@ == CallView::<B>::SetFlowControl(value),
        call matches Call::SetTimeouts(handle, timeouts) ==> call@ == CallView::<B>::SetTimeouts(
            handle,
            timeouts,
        ),
{
}

/// A reply is taken as it is.
pub proof fn windows_replies_are_taken_as_they_are(reply: Reply)
    ensures
        reply matches Reply::Done(Ok(value)) ==> reply@ == ReplyView::Done(Ok(value)),
        reply matches Reply::Done(Err(error)) ==> reply@ == ReplyView::Done(Err(error@)),
        reply matches Reply::BaudRate(Ok(value)) ==> reply@ == ReplyView::BaudRate(Ok(value)),
        reply matches Reply::BaudRate(Err(error)) ==> reply@ == ReplyView::BaudRate(Err(error@)),
        reply matches Reply::Parity(Ok(value)) ==> reply@ == ReplyView::Parity(Ok(value)),
        reply matches Reply::Parity(Err(error)) ==> reply@ == ReplyView::Parity(Err(error@)),
        reply matches Reply::DataBits(Ok(value)) ==> reply@ == ReplyView::DataBits(Ok(value)),
        reply matches Reply::DataBits(Err(error)) ==> reply@ == ReplyView::DataBits(Err(error@)),
        reply matches Reply::StopBits(Ok(value)) ==> reply@ == ReplyView::StopBits(Ok(value)),
        reply matches Reply::StopBits(Err(error)) ==> reply@ == ReplyView::StopBits(Err(error@)),
        reply matches Reply::FlowControl(Ok(value)) ==> reply@ == ReplyView::FlowControl(Ok(value)),
        reply matches Reply::FlowControl(Err(error)) ==> reply@
            == ReplyView::FlowControl(Err(error@)),
        reply matches Reply::Name(value) ==> reply@ == ReplyView::Name(value),
        reply matches Reply::Handle(value) ==> reply@ == ReplyView::Handle(value),
        reply matches Reply::Returned(value) ==> reply@ == ReplyView::Returned(value),
        reply matches Reply::LastOsError(error) ==> reply@ == ReplyView::LastOsError(error@),
{
}

/// The rights, sharing, disposition and flags that a device is opened with are
/// these numbers, whatever its name.
pub proof fn device_is_opened_for_overlapped_use(name: Seq<char>)
    ensures
        GENERIC_READ == 0x8000_0000,
        GENERIC_WRITE == 0x4000_0000,
        OPEN_EXISTING == 3,
        FILE_ATTRIBUTE_NORMAL == 0x80,
        FILE_FLAG_OVERLAPPED == 0x4000_0000,
        device_arguments(name).desired_access == 0xC000_0000,
        device_arguments(name).share_mode == 0,
        device_arguments(name).creation_disposition == 3,
        device_arguments(name).flags_and_attributes == 0x4000_0080,
{
    assert(0x8000_0000u32 | 0x4000_0000u32 == 0xC000_0000u32) by (bit_vector);
    assert(0x80u32 | 0x4000_0000u32 == 0x4000_0080u32) by (bit_vector);
}

/// Opening a port first opens the one of the builder, asks it for its name and
/// its five settings, and closes it, whatever it answers. What it answered is
/// then at hand for the device of that name.
pub proof fn settings_are_read_before_the_device_is_opened<B>(
    builder: B,
    settings: LineSettings,
    closed: Result<(), ErrorView>,
)
    ensures
        ({
            let open = Stage::OpenPort(builder);
            let named = windows_next(open, ReplyView::Done(Ok(())))->Pending_0;
            let rated = windows_next(named, ReplyView::Name(Some(settings.name)))->Pending_0;
            let parity = windows_next(
                rated,
                ReplyView::BaudRate(Ok(settings.baud_rate)),
            )->Pending_0;
            let data_bits = windows_next(parity, ReplyView::Parity(Ok(settings.parity)))->Pending_0;
            let stop_bits = windows_next(
                data_bits,
                ReplyView::DataBits(Ok(settings.data_bits)),
            )->Pending_0;
            let flow = windows_next(
                stop_bits,
                ReplyView::StopBits(Ok(settings.stop_bits)),
            )->Pending_0;
            let close = windows_next(
                flow,
                ReplyView::FlowControl(Ok(settings.flow_control)),
            )->Pending_0;
            let create = windows_next(close, ReplyView::Done(closed))->Pending_0;
            &&& windows_call(open) == CallView::OpenPort(builder)
            &&& windows_next(open, ReplyView::Done(Ok(()))) is Pending
            &&& windows_call(named) == CallView::<B>::QueryName
            &&& windows_next(named, ReplyView::Name(Some(settings.name))) is Pending
            &&& windows_call(rated) == CallView::<B>::QueryBaudRate
            &&& windows_next(rated, ReplyView::BaudRate(Ok(settings.baud_rate))) is Pending
            &&& windows_call(parity) == CallView::<B>::QueryParity
            &&& windows_next(parity, ReplyView::Parity(Ok(settings.parity))) is Pending
            &&& windows_call(data_bits) == CallView::<B>::QueryDataBits
            &&& windows_next(data_bits, ReplyView::DataBits(Ok(settings.data_bits))) is Pending
            &&& windows_call(stop_bits) == CallView::<B>::QueryStopBits
            &&& windows_next(stop_bits, ReplyView::StopBits(Ok(settings.stop_bits))) is Pending
            &&& windows_call(flow) == CallView::<B>::QueryFlowControl
            &&& windows_next(flow, ReplyView::FlowControl(Ok(settings.flow_control))) is Pending
            &&& windows_call(close) == CallView::<B>::ClosePort
            &&& windows_next(close, ReplyView::Done(closed)) is Pending
            &&& create == Stage::<B>::CreateFile(settings)
        }),
{
}

/// While the settings are read, the first failure ends the opening with the
/// error that the port gave, and a port without a name is no device.
pub proof fn unreadable_settings_end_the_opening<B>(
    builder: B,
    settings: LineSettings,
    error: ErrorView,
)
    ensures
        ({
            let failed = Step::<Stage<B>, isize, ErrorView>::Finished(Err(error));
            let open = Stage::OpenPort(builder);
            let named = windows_next(open, ReplyView::Done(Ok(())))->Pending_0;
            let rated = windows_next(named, ReplyView::Name(Some(settings.name)))->Pending_0;
            let parity = windows_next(
                rated,
                ReplyView::BaudRate(Ok(settings.baud_rate)),
            )->Pending_0;
            let data_bits = windows_next(parity, ReplyView::Parity(Ok(settings.parity)))->Pending_0;
            let stop_bits = windows_next(
                data_bits,
                ReplyView::DataBits(Ok(settings.data_bits)),
            )->Pending_0;
            let flow = windows_next(
                stop_bits,
                ReplyView::StopBits(Ok(settings.stop_bits)),
            )->Pending_0;
            &&& windows_next(open, ReplyView::Done(Err(error))) == failed
            &&& windows_next(named, ReplyView::Name(None))
                == Step::<Stage<B>, isize, ErrorView>::Finished(
                Err(
                    ErrorView { kind: ErrorKind::NoDevice, description: "Empty device name"@ },
                ),
            )
            &&& windows_next(rated, ReplyView::BaudRate(Err(error))) == failed
            &&& windows_next(parity, ReplyView::Parity(Err(error))) == failed
            &&& windows_next(data_bits, ReplyView::DataBits(Err(error))) == failed
            &&& windows_next(stop_bits, ReplyView::StopBits(Err(error))) == failed
            &&& windows_next(flow, ReplyView::FlowControl(Err(error))) == failed
        }),
{
}

/// The device is opened by its path for reading and writing, shared with
/// nobody, only if it exists and for overlapped use, whatever its name. Its
/// handle, whichever it is, is made use of, each setting is set to what was
/// read, and the timeouts are overridden. Then the opening is done, with that
/// handle.
pub proof fn device_is_opened_and_set_to_what_was_read<B>(
    settings: LineSettings,
    handle: isize,
    adopted: Result<(), ErrorView>,
    status: i32,
)
    requires
        handle != -1,
        status != 0,
    ensures
        ({
            let create = Stage::<B>::CreateFile(settings);
            let adopt = windows_next(create, ReplyView::Handle(handle))->Pending_0;
            let rate = windows_next(adopt, ReplyView::Done(adopted))->Pending_0;
            let parity = windows_next(rate, ReplyView::Done(Ok(())))->Pending_0;
            let data_bits = windows_next(parity, ReplyView::Done(Ok(())))->Pending_0;
            let stop_bits = windows_next(data_bits, ReplyView::Done(Ok(())))->Pending_0;
            let flow = windows_next(stop_bits, ReplyView::Done(Ok(())))->Pending_0;
            let timeouts = windows_next(flow, ReplyView::Done(Ok(())))->Pending_0;
            &&& windows_call(create) == CallView::<B>::CreateFile(
                CreateFileView {
                    path: seq![92u16, 92, 46, 92] + utf16(settings.name@) + seq![0u16],
                    desired_access: 0xC000_0000,
                    share_mode: 0,
                    creation_disposition: 3,
                    flags_and_attributes: 0x4000_0080,
                },
            )
            &&& windows_next(create, ReplyView::Handle(handle)) is Pending
            &&& windows_call(adopt) == CallView::<B>::Adopt(handle)
            &&& windows_next(adopt, ReplyView::Done(adopted)) is Pending
            &&& windows_call(rate) == CallView::<B>::SetBaudRate(settings.baud_rate)
            &&& windows_next(rate, ReplyView::Done(Ok(()))) is Pending
            &&& windows_call(parity) == CallView::<B>::SetParity(settings.parity)
            &&& windows_next(parity, ReplyView::Done(Ok(()))) is Pending
            &&& windows_call(data_bits) == CallView::<B>::SetDataBits(settings.data_bits)
            &&& windows_next(data_bits, ReplyView::Done(Ok(()))) is Pending
            &&& windows_call(stop_bits) == CallView::<B>::SetStopBits(settings.stop_bits)
            &&& windows_next(stop_bits, ReplyView::Done(Ok(()))) is Pending
            &&& windows_call(flow) == CallView::<B>::SetFlowControl(settings.flow_control)
            &&& windows_next(flow, ReplyView::Done(Ok(()))) is Pending
            &&& windows_call(timeouts) == CallView::<B>::SetTimeouts(
                handle,
                CommTimeouts {
                    read_interval_timeout: 1,
                    read_total_timeout_multiplier: 0,
                    read_total_timeout_constant: 0,
                    write_total_timeout_multiplier: 0,
                    write_total_timeout_constant: 0,
                },
            )
            &&& windows_next(timeouts, ReplyView::Returned(status))
                == Step::<Stage<B>, isize, ErrorView>::Finished(Ok(handle))
        }),
{
    device_path_is_prefix_and_name(settings.name@);
    device_is_opened_for_overlapped_use(settings.name@);
}

/// While the device is set up, the first failure ends the opening: a setting
/// that cannot be set with the error that the port gave, and a device that gave
/// no handle or refused the timeouts with the error that it left behind.
pub proof fn unusable_device_ends_the_opening<B>(
    settings: LineSettings,
    handle: isize,
    invalid: isize,
    adopted: Result<(), ErrorView>,
    error: ErrorView,
    left: OsErrorView,
)
    requires
        handle != -1,
        invalid == -1,
    ensures
        ({
            let failed = Step::<Stage<B>, isize, ErrorView>::Finished(Err(error));
            let create = Stage::<B>::CreateFile(settings);
            let adopt = windows_next(create, ReplyView::Handle(handle))->Pending_0;
            let rate = windows_next(adopt, ReplyView::Done(adopted))->Pending_0;
            let parity = windows_next(rate, ReplyView::Done(Ok(())))->Pending_0;
            let data_bits = windows_next(parity, ReplyView::Done(Ok(())))->Pending_0;
            let stop_bits = windows_next(data_bits, ReplyView::Done(Ok(())))->Pending_0;
            let flow = windows_next(stop_bits, ReplyView::Done(Ok(())))->Pending_0;
            let timeouts = windows_next(flow, ReplyView::Done(Ok(())))->Pending_0;
            let no_handle = windows_next(create, ReplyView::Handle(invalid));
            let refused = windows_next(timeouts, ReplyView::Returned(0));
            let told = ErrorView {
                kind: ErrorKind::Io(os_error_kind(left.code)),
                description: left.message,
            };
            &&& no_handle is Pending
            &&& windows_call(no_handle->Pending_0) == CallView::<B>::LastOsError
            &&& windows_next(no_handle->Pending_0, ReplyView::LastOsError(left))
                == Step::<Stage<B>, isize, ErrorView>::Finished(
                Err(told),
            )
            &&& windows_next(rate, ReplyView::Done(Err(error))) == failed
            &&& windows_next(parity, ReplyView::Done(Err(error))) == failed
            &&& windows_next(data_bits, ReplyView::Done(Err(error))) == failed
            &&& windows_next(stop_bits, ReplyView::Done(Err(error))) == failed
            &&& windows_next(flow, ReplyView::Done(Err(error))) == failed
            &&& refused is Pending
            &&& windows_call(refused->Pending_0) == CallView::<B>::LastOsError
            &&& windows_next(refused->Pending_0, ReplyView::LastOsError(left))
                == Step::<Stage<B>, isize, ErrorView>::Finished(
                Err(told),
            )
        }),
{
}

/// A reply to another call than the one that is due changes nothing.
pub proof fn stray_windows_reply_changes_nothing<B>(stage: Stage<B>, reply: ReplyView)
    requires
        match windows_call(stage) {
            CallView::QueryName => !(reply is Name),
            CallView::QueryBaudRate => !(reply is BaudRate),
            CallView::QueryParity => !(reply is Parity),
            CallView::QueryDataBits => !(reply is DataBits),
            CallView::QueryStopBits => !(reply is StopBits),
            CallView::QueryFlowControl => !(reply is FlowControl),
            CallView::CreateFile(_) => !(reply is Handle),
            CallView::SetTimeouts(..) => !(reply is Returned),
            CallView::LastOsError => !(reply is LastOsError),
            _ => !(reply is Done),
        },
    ensures
        windows_next(stage, reply) == Step::<Stage<B>, isize, ErrorView>::Pending(stage),
{
}

} // verus!
