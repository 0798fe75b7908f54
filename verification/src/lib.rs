//! Length-prefixed JSON message framing for native messaging hosts.
//!
//! A message travels as a frame: a four-byte length header, then that many
//! bytes of JSON text. `frame` defines the wire format, `reader` reads a frame
//! from a stream chunk by chunk, `stream` reads and writes messages on a byte
//! queue in memory, `dispatch` holds the decisions of the request and response
//! loop, and `fault` the diagnostic for a fault that ends the host.

pub mod decimal;
pub mod dispatch;
pub mod errors;
pub mod fault;
pub mod frame;
pub mod json;
pub mod reader;
pub mod stream;

pub use crate::dispatch::{step, Action, ErrorReply, Event, OnWriteFault};
pub use crate::errors::{Error, IoFault, IoKind};
pub use crate::fault::{panic_report, PanicReport};
pub use crate::frame::{encode_frame, HEADER_SIZE, MAX_MESSAGE_SIZE};
pub use crate::reader::{FrameReader, Progress};
pub use crate::stream::{read_input, send_encoded, send_message};
