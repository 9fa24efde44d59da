//! Typed access to the macOS CoreAudio Hardware Abstraction Layer: the data
//! model of devices, streams and formats, the byte layouts of property
//! values, and the decisions that property access, listeners and I/O procs
//! make, each with its contract.

pub mod codec;
pub mod data_types;
pub mod errors;
pub mod hal_codes;
pub mod io_proc;
pub mod listener;
pub mod object;
pub mod property;
pub mod traits;

pub use data_types::{
    AACFormat, BufferFrameSizeRange, ChannelPair, FormatFlags, FormatId, HogMode, PowerHint,
    RawStreamDescription, SampleEncoding, SampleFormat, Scope, StreamDescription, TerminalType,
    TransportType,
};
pub use errors::{CoreAudioError, ErrorKind};
pub use io_proc::IOProcState;
pub use object::{AudioObject, Device, Global, Stream, System};
pub use property::{Property, PropertyAddress};
pub use traits::{IntoQualifierBytes, MissingElement, MissingQualifier, StringRef};
