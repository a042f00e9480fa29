//! Controlling the port under a stream: what each method asks of the port, and
//! what of the port's answer reaches the caller.
//!
//! Several methods have answers of the same type, so the wrong question would
//! go unnoticed. Where the type of the answer tells what was asked for (the
//! character size, parity, stop bits and flow control), there is nothing to
//! decide.
use vstd::prelude::*;

use crate::error::{as_io_error, with_error_view, Error, ErrorKind, ErrorView, IoErrorKind};
use crate::settings::{ClearBuffer, DataBits, FlowControl, Parity, StopBits};
use crate::stream::{exclusivity_answer, SerialStream};

verus! {

/// Something for the port to do.
#[derive(Clone, Copy, Debug, PartialEq, Eq, Structural)]
pub enum Command {
    /// Start transmitting a break.
    SetBreak,
    /// Stop transmitting a break.
    ClearBreak,
    /// Set the baud rate.
    SetBaudRate(u32),
    /// Set the character size.
    SetDataBits(DataBits),
    /// Set the flow control mode.
    SetFlowControl(FlowControl),
    /// Set the parity-checking mode.
    SetParity(Parity),
    /// Set the number of stop bits.
    SetStopBits(StopBits),
    /// Set the state of the RTS (Request To Send) control signal.
    WriteRequestToSend(bool),
    /// Set the state of the DTR (Data Terminal Ready) control signal.
    WriteDataTerminalReady(bool),
    /// Discard all bytes from the driver's input buffer, output buffer or both.
    Clear(ClearBuffer),
    /// Make the port exclusive, or no longer so.
    SetExclusive(bool),
}

/// A control signal of the port to read.
#[derive(Clone, Copy, Debug, PartialEq, Eq, Structural)]
pub enum PinQuery {
    /// The CTS (Clear To Send) signal.
    ClearToSend,
    /// The DSR (Data Set Ready) signal.
    DataSetReady,
    /// The RI (Ring Indicator) signal.
    RingIndicator,
    /// The CD (Carrier Detect) signal.
    CarrierDetect,
}

/// A number to ask the port for.
#[derive(Clone, Copy, Debug, PartialEq, Eq, Structural)]
pub enum CountQuery {
    /// The current baud rate.
    BaudRate,
    /// The number of bytes available to be read from the input buffer.
    BytesToRead,
    /// The number of bytes in the output buffer, awaiting transmission.
    BytesToWrite,
}

/// What the caller is told of a request about signals or buffers, given what
/// the port answered: `NoDevice` if the device was disconnected, and `Io` for
/// any other error.
pub open spec fn device_answer<T>(reply: Result<T, ErrorView>) -> Result<T, ErrorView> {
    match reply {
        Ok(value) => Ok(value),
        Err(error) => Err(
            if error.kind is NoDevice {
                error
            } else {
                as_io_error(error)
            },
        ),
    }
}

/// Whether a command is about signals or buffers.
pub open spec fn concerns_device(command: Command) -> bool {
    command is WriteRequestToSend || command is WriteDataTerminalReady || command is Clear
}

/// What the caller is told of a command. The errors of a command about the
/// settings of the line are the caller's as they are.
pub open spec fn command_answer(
    command: Command,
    reply: Result<(), ErrorView>,
) -> Result<(), ErrorView> {
    if concerns_device(command) {
        device_answer(reply)
    } else if command is SetExclusive {
        exclusivity_answer(reply)
    } else {
        reply
    }
}

/// What the caller is told of a number that was asked for.
pub open spec fn count_answer(
    query: CountQuery,
    reply: Result<u32, ErrorView>,
) -> Result<u32, ErrorView> {
    match query {
        CountQuery::BaudRate => reply,
        _ => device_answer(reply),
    }
}

/// Turns the port's answer to a request about signals or buffers into the
/// caller's.
fn told<T>(reply: Result<T, Error>) -> (answer: Result<T, Error>)
    ensures
        with_error_view(answer) == device_answer(with_error_view(reply)),
{
    match reply {
        Ok(value) => Ok(value),
        Err(error) => match error.kind {
            ErrorKind::NoDevice => Err(error),
            _ => Err(error.into_io()),
        },
    }
}

impl Command {
    /// What the caller is told, given what the port answered.
    ///
    /// ## Errors
    ///
    /// Of a command about signals or buffers:
    ///
    /// * `NoDevice` if the device was disconnected.
    /// * `Io` for any other type of I/O error.
    ///
    /// Of a command about exclusivity:
    ///
    /// * `Io` for any error.
    pub fn answer(self, reply: Result<(), Error>) -> (answer: Result<(), Error>)
        ensures
            with_error_view(answer) == command_answer(self, with_error_view(reply)),
    {
        match self {
            Command::WriteRequestToSend(_) => told(reply),
            Command::WriteDataTerminalReady(_) => told(reply),
            Command::Clear(_) => told(reply),
            Command::SetExclusive(_) => match reply {
                Ok(done) => Ok(done),
                Err(error) => Err(error.into_io()),
            },
            _ => reply,
        }
    }
}

impl PinQuery {
    /// What the caller is told, given what the port answered.
    ///
    /// ## Errors
    ///
    /// * `NoDevice` if the device was disconnected.
    /// * `Io` for any other type of I/O error.
    pub fn answer(self, reply: Result<bool, Error>) -> (answer: Result<bool, Error>)
        ensures
            with_error_view(answer) == device_answer(with_error_view(reply)),
    {
        told(reply)
    }
}

impl CountQuery {
    /// What the caller is told, given what the port answered.
    ///
    /// ## Errors
    ///
    /// Of the number of bytes in a buffer:
    ///
    /// * `NoDevice` if the device was disconnected.
    /// * `Io` for any other type of I/O error.
    pub fn answer(self, reply: Result<u32, Error>) -> (answer: Result<u32, Error>)
        ensures
            with_error_view(answer) == count_answer(self, with_error_view(reply)),
    {
        match self {
            CountQuery::BaudRate => reply,
            _ => told(reply),
        }
    }
}

/// A request about signals or buffers succeeds if and only if the port did as
/// it was asked, with the port's own value, and fails with `NoDevice` or `Io`
/// and the description of the port's own error.
pub proof fn device_errors_are_no_device_or_io<T>(reply: Result<T, ErrorView>)
    ensures
        device_answer(reply) is Ok <==> reply is Ok,
        reply is Ok ==> device_answer(reply) == reply,
        device_answer(reply) matches Err(error) ==> {
            &&& error.kind is NoDevice || error.kind is Io
            &&& error.kind is NoDevice <==> reply->Err_0.kind is NoDevice
            &&& error.description == reply->Err_0.description
        },
{
}

impl SerialStream {
    /// Starts transmitting a break.
    pub fn set_break(&self) -> (command: Command)
        ensures
            command == Command::SetBreak,
    {
        Command::SetBreak
    }

    /// Stops transmitting a break.
    pub fn clear_break(&self) -> (command: Command)
        ensures
            command == Command::ClearBreak,
    {
        Command::ClearBreak
    }

    /// Sets the baud rate.
    pub fn set_baud_rate(&self, baud_rate: u32) -> (command: Command)
        ensures
            command == Command::SetBaudRate(baud_rate),
    {
        Command::SetBaudRate(baud_rate)
    }

    /// Sets the character size.
    pub fn set_data_bits(&self, data_bits: DataBits) -> (command: Command)
        ensures
            command == Command::SetDataBits(data_bits),
    {
        Command::SetDataBits(data_bits)
    }

    /// Sets the flow control mode.
    pub fn set_flow_control(&self, flow_control: FlowControl) -> (command: Command)
        ensures
            command == Command::SetFlowControl(flow_control),
    {
        Command::SetFlowControl(flow_control)
    }

    /// Sets the parity-checking mode.
    pub fn set_parity(&self, parity: Parity) -> (command: Command)
        ensures
            command == Command::SetParity(parity),
    {
        Command::SetParity(parity)
    }

    /// Sets the number of stop bits.
    pub fn set_stop_bits(&self, stop_bits: StopBits) -> (command: Command)
        ensures
            command == Command::SetStopBits(stop_bits),
    {
        Command::SetStopBits(stop_bits)
    }

    /// Sets the state of the RTS (Request To Send) control signal.
    pub fn write_request_to_send(&self, level: bool) -> (command: Command)
        ensures
            command == Command::WriteRequestToSend(level),
    {
        Command::WriteRequestToSend(level)
    }

    /// Sets the state of the DTR (Data Terminal Ready) control signal.
    pub fn write_data_terminal_ready(&self, level: bool) -> (command: Command)
        ensures
            command == Command::WriteDataTerminalReady(level),
    {
        Command::WriteDataTerminalReady(level)
    }

    /// Discards all bytes from the driver's input buffer, output buffer or both.
    pub fn clear(&self, buffer_to_clear: ClearBuffer) -> (command: Command)
        ensures
            command == Command::Clear(buffer_to_clear),
    {
        Command::Clear(buffer_to_clear)
    }

    /// Makes the port exclusive, or no longer so. What it answers is for
    /// `set_exclusive` to take.
    pub fn ask_exclusive(&self, exclusive: bool) -> (command: Command)
        ensures
            command == Command::SetExclusive(exclusive),
    {
        Command::SetExclusive(exclusive)
    }

    /// Reads the state of the CTS (Clear To Send) control signal.
    pub fn read_clear_to_send(&self) -> (query: PinQuery)
        ensures
            query == PinQuery::ClearToSend,
    {
        PinQuery::ClearToSend
    }

    /// Reads the state of the DSR (Data Set Ready) control signal.
    pub fn read_data_set_ready(&self) -> (query: PinQuery)
        ensures
            query == PinQuery::DataSetReady,
    {
        PinQuery::DataSetReady
    }

    /// Reads the state of the RI (Ring Indicator) control signal.
    pub fn read_ring_indicator(&self) -> (query: PinQuery)
        ensures
            query == PinQuery::RingIndicator,
    {
        PinQuery::RingIndicator
    }

    /// Reads the state of the CD (Carrier Detect) control signal.
    pub fn read_carrier_detect(&self) -> (query: PinQuery)
        ensures
            query == PinQuery::CarrierDetect,
    {
        PinQuery::CarrierDetect
    }

    /// The current baud rate.
    pub fn baud_rate(&self) -> (query: CountQuery)
        ensures
            query == CountQuery::BaudRate,
    {
        CountQuery::BaudRate
    }

    /// The number of bytes available to be read from the input buffer.
    pub fn bytes_to_read(&self) -> (query: CountQuery)
        ensures
            query == CountQuery::BytesToRead,
    {
        CountQuery::BytesToRead
    }

    /// The number of bytes in the output buffer, awaiting transmission.
    pub fn bytes_to_write(&self) -> (query: CountQuery)
        ensures
            query == CountQuery::BytesToWrite,
    {
        CountQuery::BytesToWrite
    }
}

/// What the port did or found reaches the caller as it is: a command that the
/// port carried out succeeds, and every number or signal is the one that the
/// port gave.
pub proof fn successes_reach_the_caller(
    command: Command,
    query: CountQuery,
    number: u32,
    level: bool,
)
    ensures
        command_answer(command, Ok(())) is Ok,
        count_answer(query, Ok(number)) == Ok::<u32, ErrorView>(number),
        device_answer(Ok::<bool, ErrorView>(level)) == Ok::<bool, ErrorView>(level),
{
}

/// Errors about the settings of the line and about breaks reach the caller as
/// they are, those of asking for the baud rate among them.
pub proof fn setting_errors_reach_the_caller(command: Command, error: ErrorView)
    requires
        !(command is WriteRequestToSend),
        !(command is WriteDataTerminalReady),
        !(command is Clear),
        !(command is SetExclusive),
    ensures
        command_answer(command, Err(error)) == Err::<(), ErrorView>(error),
        count_answer(CountQuery::BaudRate, Err(error)) == Err::<u32, ErrorView>(error),
{
}

/// Errors about signals and buffers reach the caller as they are if they are
/// `NoDevice` or `Io`, and as `Io` with the same description if not: those of
/// commands, of reading a signal and of counting bytes alike. Errors about
/// exclusivity always reach the caller as `Io`.
pub proof fn signal_and_buffer_errors_reach_the_caller(
    command: Command,
    query: CountQuery,
    error: ErrorView,
)
    requires
        command is WriteRequestToSend || command is WriteDataTerminalReady || command is Clear,
        query is BytesToRead || query is BytesToWrite,
    ensures
        error.kind is NoDevice || error.kind is Io ==> {
            &&& command_answer(command, Err(error)) == Err::<(), ErrorView>(error)
            &&& count_answer(query, Err(error)) == Err::<u32, ErrorView>(error)
            &&& device_answer(Err::<bool, ErrorView>(error)) == Err::<bool, ErrorView>(error)
        },
        error.kind is InvalidInput || error.kind is Unknown ==> {
            let told = ErrorView {
                kind: ErrorKind::Io(IoErrorKind::Other),
                description: error.description,
            };
            &&& command_answer(command, Err(error)) == Err::<(), ErrorView>(told)
            &&& count_answer(query, Err(error)) == Err::<u32, ErrorView>(told)
            &&& device_answer(Err::<bool, ErrorView>(error)) == Err::<bool, ErrorView>(told)
        },
{
}

/// A command about exclusivity fails with an I/O error and the description of
/// the port's own error.
pub proof fn exclusivity_command_errors_are_io_errors(exclusive: bool, error: ErrorView)
    ensures
        ({
            let told = command_answer(Command::SetExclusive(exclusive), Err(error));
            &&& told is Err
            &&& told->Err_0.description == error.description
            &&& error.kind is Io ==> told->Err_0 == error
            &&& !(error.kind is Io) ==> told->Err_0.kind == ErrorKind::Io(IoErrorKind::Other)
        }),
{
}

} // verus!
