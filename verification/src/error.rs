//! The errors of serial ports, and how system errors become them.
use vstd::prelude::*;

verus! {

/// `std::io::ErrorKind`, carried through unread.
#[verifier::external_type_specification]
#[verifier::external_body]
pub struct ExStdIoErrorKind(std::io::ErrorKind);

/// The class of an I/O error, as far as this crate tells them apart.
///
/// Nothing here looks into an `Unclassified` kind: whoever builds one must see
/// to it that the kind has no variant of its own. `Unclassified` with std's
/// `Interrupted` in it, say, would not count as an interruption.
#[derive(Clone, Copy, Debug, PartialEq, Eq)]
pub enum IoErrorKind {
    /// The call was interrupted by a signal and may be made again.
    Interrupted,
    /// An error that no other kind describes.
    Other,
    /// Any kind without a variant of its own.
    Unclassified(std::io::ErrorKind),
}

/// The class of a serial port error.
#[derive(Clone, Copy, Debug, PartialEq, Eq)]
pub enum ErrorKind {
    /// The device is not available.
    NoDevice,
    /// A parameter was incorrect.
    InvalidInput,
    /// An unknown error occurred.
    Unknown,
    /// An I/O error occurred.
    Io(IoErrorKind),
}

/// A serial port error.
#[derive(Debug, PartialEq, Eq)]
pub struct Error {
    /// What went wrong.
    pub kind: ErrorKind,
    /// A description for people.
    pub description: String,
}

/// What an `Error` says.
#[verifier::ext_equal]
pub struct ErrorView {
    pub kind: ErrorKind,
    pub description: Seq<char>,
}

impl View for Error {
    type V = ErrorView;

    open spec fn view(&self) -> ErrorView {
        ErrorView { kind: self.kind, description: self.description@ }
    }
}

/// An error that the operating system reported: its number and the system's
/// text for it.
#[derive(Debug, PartialEq, Eq)]
pub struct OsError {
    /// The error number.
    pub code: i32,
    /// The system's text for the error.
    pub message: String,
}

/// What an `OsError` says.
#[verifier::ext_equal]
pub struct OsErrorView {
    pub code: i32,
    pub message: Seq<char>,
}

impl View for OsError {
    type V = OsErrorView;

    open spec fn view(&self) -> OsErrorView {
        OsErrorView { code: self.code, message: self.message@ }
    }
}

/// An error of a nix call (`nix::Error`).
#[derive(Clone, Copy, Debug, PartialEq, Eq, Structural)]
pub enum NixError {
    /// The operating system refused the call, with this error number.
    Sys(i32),
    /// A path was not valid.
    InvalidPath,
    /// A string was not valid UTF-8.
    InvalidUtf8,
    /// nix does not support the operation.
    UnsupportedOperation,
}

/// An I/O error: one of the operating system, or one made up of a class and a
/// message.
#[derive(Debug, PartialEq, Eq)]
pub enum IoError {
    /// Reported by the operating system, with this error number.
    Os(i32),
    /// Made up of a class and a message.
    Custom {
        /// The class of the error.
        kind: IoErrorKind,
        /// A description for people.
        message: String,
    },
}

/// What an `IoError` says.
#[verifier::ext_equal]
pub enum IoErrorView {
    Os(i32),
    Custom { kind: IoErrorKind, message: Seq<char> },
}

impl View for IoError {
    type V = IoErrorView;

    open spec fn view(&self) -> IoErrorView {
        match self {
            IoError::Os(code) => IoErrorView::Os(*code),
            IoError::Custom { kind, message } => IoErrorView::Custom {
                kind: *kind,
                message: message@,
            },
        }
    }
}

impl IoErrorView {
    /// The class of the error.
    pub open spec fn kind(self) -> IoErrorKind {
        match self {
            IoErrorView::Os(code) => os_error_kind(code),
            IoErrorView::Custom { kind, .. } => kind,
        }
    }
}

/// The class that std gives to the error number `code`, out of the table of
/// the system that std was built for.
pub uninterp spec fn os_error_kind(code: i32) -> IoErrorKind;

/// Calls `std::io::Error::kind` on the error with the number `code`.
///
/// Claimed of it: the class depends on the number alone (`os_error_kind`).
/// Which class a given number has is left unsaid.
#[verifier::external_body]
fn classify_os_error(code: i32) -> (kind: IoErrorKind)
    ensures
        kind == os_error_kind(code),
{
    match std::io::Error::from_raw_os_error(code).kind() {
        std::io::ErrorKind::Interrupted => IoErrorKind::Interrupted,
        std::io::ErrorKind::Other => IoErrorKind::Other,
        kind => IoErrorKind::Unclassified(kind),
    }
}

/// A result, with what its error says.
pub open spec fn with_error_view<T>(result: Result<T, Error>) -> Result<T, ErrorView> {
    match result {
        Ok(value) => Ok(value),
        Err(error) => Err(error@),
    }
}

/// An error as one of I/O: it is one already, or else becomes one of no
/// particular class with the same description.
pub open spec fn as_io_error(error: ErrorView) -> ErrorView {
    if error.kind is Io {
        error
    } else {
        ErrorView { kind: ErrorKind::Io(IoErrorKind::Other), description: error.description }
    }
}

/// The text that nix gives to the error number `code`: the name of the error
/// and a description, out of the table of the system that nix was built for.
pub uninterp spec fn errno_text(code: i32) -> Seq<char>;

/// The text of a nix error.
pub open spec fn nix_text(error: NixError) -> Seq<char> {
    match error {
        NixError::Sys(code) => errno_text(code),
        NixError::InvalidPath => "Invalid path"@,
        NixError::InvalidUtf8 => "Invalid UTF-8 string"@,
        NixError::UnsupportedOperation => "Unsupported Operation"@,
    }
}

/// Calls the `Display` of `nix::Error`.
///
/// Claimed of it: the three errors that hold no number have fixed texts, and
/// the text of a system error depends on its number alone (`errno_text`). What
/// that text is for a given number is left unsaid.
#[verifier::external_body]
fn nix_error_to_string(error: NixError) -> (text: String)
    ensures
        error matches NixError::Sys(code) ==> text@ == errno_text(code),
        error is InvalidPath ==> text@ == "Invalid path"@,
        error is InvalidUtf8 ==> text@ == "Invalid UTF-8 string"@,
        error is UnsupportedOperation ==> text@ == "Unsupported Operation"@,
{
    let error = match error {
        NixError::Sys(code) => nix::Error::Sys(nix::errno::Errno::from_i32(code)),
        NixError::InvalidPath => nix::Error::InvalidPath,
        NixError::InvalidUtf8 => nix::Error::InvalidUtf8,
        NixError::UnsupportedOperation => nix::Error::UnsupportedOperation,
    };
    error.to_string()
}

/// A nix error as a serial port error: of no particular I/O class, described
/// by nix's text.
pub open spec fn serial_error_of_nix(error: NixError) -> ErrorView {
    ErrorView { kind: ErrorKind::Io(IoErrorKind::Other), description: nix_text(error) }
}

/// A system error as a serial port error: of the I/O class of its number,
/// described by the system's text.
pub open spec fn serial_error_of_os(error: OsErrorView) -> ErrorView {
    ErrorView { kind: ErrorKind::Io(os_error_kind(error.code)), description: error.message }
}

/// A nix error as an I/O error: a system error keeps its number, any other is
/// of no particular class and has nix's text as its message.
pub open spec fn io_error_of_nix(error: NixError) -> IoErrorView {
    match error {
        NixError::Sys(code) => IoErrorView::Os(code),
        _ => IoErrorView::Custom { kind: IoErrorKind::Other, message: nix_text(error) },
    }
}

/// Turns a nix error into a serial port error.
pub fn map_nix_error(e: NixError) -> (error: Error)
    ensures
        error@ == serial_error_of_nix(e),
        error.kind == ErrorKind::Io(IoErrorKind::Other),
        e matches NixError::Sys(code) ==> error.description@ == errno_text(code),
{
    Error { kind: ErrorKind::Io(IoErrorKind::Other), description: nix_error_to_string(e) }
}

impl Error {
    /// An error of the given kind and description.
    pub fn new(kind: ErrorKind, description: &str) -> (error: Error)
        ensures
            error@ == (ErrorView { kind, description: description@ }),
            error.kind == kind,
            error.description@ == description@,
    {
        Error { kind, description: description.to_owned() }
    }

    /// Turns an error of another kind than `Io` into one of that kind.
    pub(crate) fn into_io(self) -> (error: Error)
        ensures
            error@ == as_io_error(self@),
            error.description@ == self.description@,
    {
        match self.kind {
            ErrorKind::Io(_) => self,
            _ => Error {
                kind: ErrorKind::Io(IoErrorKind::Other),
                description: self.description,
            },
        }
    }

    /// Turns a system error into a serial port error.
    pub fn from_os(e: OsError) -> (error: Error)
        ensures
            error@ == serial_error_of_os(e@),
            error.kind == ErrorKind::Io(os_error_kind(e.code)),
            error.description@ == e.message@,
    {
        Error { kind: ErrorKind::Io(classify_os_error(e.code)), description: e.message }
    }
}

impl IoError {
    /// Turns a nix error into an I/O error.
    pub fn from_nix(e: NixError) -> (error: IoError)
        ensures
            error@ == io_error_of_nix(e),
            e matches NixError::Sys(code) ==> error == IoError::Os(code),
            !(e is Sys) ==> error is Custom,
    {
        match e {
            NixError::Sys(code) => IoError::Os(code),
            _ => IoError::Custom { kind: IoErrorKind::Other, message: nix_error_to_string(e) },
        }
    }

    /// Whether the call that failed was merely interrupted.
    pub fn is_interrupted(&self) -> (interrupted: bool)
        ensures
            interrupted == (self@.kind() is Interrupted),
            *self matches IoError::Os(code) ==> interrupted == (os_error_kind(
                code,
            ) is Interrupted),
            *self matches IoError::Custom { kind, .. } ==> interrupted == (kind is Interrupted),
    {
        let kind = match self {
            IoError::Os(code) => classify_os_error(*code),
            IoError::Custom { kind, .. } => *kind,
        };
        match kind {
            IoErrorKind::Interrupted => true,
            _ => false,
        }
    }
}

/// An error is nothing but its kind and its description, a system error
/// nothing but its number and its text.
pub proof fn errors_are_kind_and_description(error: Error, os_error: OsError, io_error: IoError)
    ensures
        error@.kind == error.kind,
        error@.description == error.description@,
        os_error@.code == os_error.code,
        os_error@.message == os_error.message@,
        io_error matches IoError::Os(code) ==> io_error@ == IoErrorView::Os(code)
            && io_error@.kind() == os_error_kind(code),
        io_error matches IoError::Custom { kind, message } ==> io_error@ == (IoErrorView::Custom {
            kind,
            message: message@,
        }) && io_error@.kind() == kind,
{
}

/// A result is told as it is: its value, or what its error says.
pub proof fn results_are_told_as_they_are<T>(value: T, error: Error)
    ensures
        with_error_view(Ok::<T, Error>(value)) == Ok::<T, ErrorView>(value),
        with_error_view(Err::<T, Error>(error)) == Err::<T, ErrorView>(error@),
{
}

/// Every nix error becomes a serial port error of no particular I/O class with
/// nix's text. As an I/O error, one of the system keeps its number, and any
/// other has nix's text.
pub proof fn nix_errors_keep_their_text(error: NixError)
    ensures
        serial_error_of_nix(error).kind == ErrorKind::Io(IoErrorKind::Other),
        error matches NixError::Sys(code) ==> {
            &&& serial_error_of_nix(error).description == errno_text(code)
            &&& io_error_of_nix(error) == IoErrorView::Os(code)
        },
        error is InvalidPath ==> serial_error_of_nix(error).description == "Invalid path"@,
        error is InvalidUtf8 ==> serial_error_of_nix(error).description == "Invalid UTF-8 string"@,
        error is UnsupportedOperation ==> serial_error_of_nix(error).description
            == "Unsupported Operation"@,
        !(error is Sys) ==> io_error_of_nix(error) == (IoErrorView::Custom {
            kind: IoErrorKind::Other,
            message: serial_error_of_nix(error).description,
        }),
{
}

/// Every system error becomes a serial port error of the class of its number,
/// with its text.
pub proof fn system_errors_keep_class_and_text(error: OsErrorView)
    ensures
        serial_error_of_os(error).kind == ErrorKind::Io(os_error_kind(error.code)),
        serial_error_of_os(error).description == error.message,
{
}

/// Turning an error into one of I/O keeps its description, and changes nothing
/// of one that is of I/O already.
pub proof fn io_errors_stay(error: ErrorView)
    ensures
        error.kind is Io ==> as_io_error(error) == error,
        !(error.kind is Io) ==> as_io_error(error).kind == ErrorKind::Io(IoErrorKind::Other),
        as_io_error(error).description == error.description,
{
}

} // verus!
