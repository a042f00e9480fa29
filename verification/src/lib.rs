//! Serial port I/O for mio, as verified decisions.
//!
//! A serial stream is a terminal device that was switched to non-blocking
//! mode and is then read, written and controlled through system calls. This
//! crate decides which call comes next and what its outcome means; it makes
//! no system call itself. Each operation is a value that names the call to
//! make (`call`) and takes what came back (`advance`) until it is finished.
pub mod configure;
pub mod control;
pub mod device_path;
pub mod error;
pub mod name;
pub mod open;
pub mod pair;
pub mod platform;
pub mod settings;
pub mod step;
pub mod stream;
pub mod transfer;
pub mod windows;

pub use configure::{Attributes, ConfigureCall, ConfigureReply, Configuring, SetWhen};
pub use control::{Command, CountQuery, PinQuery};
pub use device_path::device_path;
pub use error::{map_nix_error, Error, ErrorKind, IoError, IoErrorKind, NixError, OsError};
pub use open::{OpenCall, OpenReply, Opening, SerialPortBuilderExt};
pub use pair::{PairCall, PairReply, Pairing};
pub use platform::Platform;
pub use settings::{ClearBuffer, DataBits, FlowControl, Parity, StopBits};
pub use step::Step;
pub use stream::{NativePort, SerialStream};
pub use transfer::{Flushing, Transfer, TransferCall, TransferReply};
