//! The failures that reading and writing a frame can end in.

use crate::decimal::{decimal, decimal_text};
use serde_json::Error as JsonError;
use vstd::prelude::*;
use vstd::string::*;

verus! {

/// What the library needs to know of the kind of a stream fault.
#[derive(Clone, Copy, Debug, PartialEq, Eq, Structural)]
pub enum IoKind {
    /// The stream ended before the bytes asked for had arrived.
    UnexpectedEof,
    /// The read was interrupted before any byte arrived and may be repeated.
    Interrupted,
    /// Any other fault.
    Other,
}

/// A fault of the underlying stream: its kind and its description.
#[derive(Debug)]
pub struct IoFault {
    pub kind: IoKind,
    pub message: String,
}

/// The description of the fault raised when a stream ends inside a frame.
pub open spec fn eof_message() -> Seq<char> {
    "failed to fill whole buffer"@
}

impl IoFault {
    /// Whether this is the fault raised for a stream that ended inside a
    /// frame.
    pub open spec fn is_unexpected_eof(&self) -> bool {
        self.kind == IoKind::UnexpectedEof && self.message@ == eof_message()
    }

    /// The fault for a stream that ended inside a frame.
    pub fn unexpected_eof() -> (fault: IoFault)
        ensures
            fault.is_unexpected_eof(),
    {
        IoFault {
            kind: IoKind::UnexpectedEof,
            message: String::from_str("failed to fill whole buffer"),
        }
    }
}

/// Why a frame could not be read or written.
#[derive(Debug)]
pub enum Error {
    /// The stream failed, or ended inside a frame.
    Io(IoFault),
    /// The body could not be parsed as JSON, or the value could not be
    /// serialised.
    Serde(JsonError),
    /// The serialised message is longer than a frame may be; `size` is its
    /// length in bytes.
    MessageTooLarge { size: usize },
    /// The stream ended at a frame boundary: there is no further message.
    NoMoreInput,
}

impl From<JsonError> for Error {
    fn from(err: JsonError) -> (e: Error) {
        Error::Serde(err)
    }
}

impl vstd::std_specs::convert::FromSpecImpl<JsonError> for Error {
    open spec fn obeys_from_spec() -> bool {
        true
    }

    open spec fn from_spec(err: JsonError) -> Error {
        Error::Serde(err)
    }
}

impl From<IoFault> for Error {
    fn from(fault: IoFault) -> (e: Error) {
        Error::Io(fault)
    }
}

impl vstd::std_specs::convert::FromSpecImpl<IoFault> for Error {
    open spec fn obeys_from_spec() -> bool {
        true
    }

    open spec fn from_spec(fault: IoFault) -> Error {
        Error::Io(fault)
    }
}

/// Describes `err` with the `Display` impl of `serde_json::Error`. Nothing
/// is claimed of the text.
#[verifier::external_body]
fn json_error_text(err: &JsonError) -> (text: String) {
    err.to_string()
}

impl Error {
    /// The message for this error, where `detail` is what `serde_json` says
    /// of a `Serde` failure.
    pub open spec fn message(&self, detail: Seq<char>) -> Seq<char> {
        match self {
            Error::Io(fault) => "io error: "@ + fault.message@,
            Error::Serde(_) => "serde error: "@ + detail,
            Error::MessageTooLarge { size } => "message too large: "@ + decimal(*size as nat)
                + " bytes"@,
            Error::NoMoreInput => "the input stream reached the end"@,
        }
    }

    /// The message of a `Serde` failure that `serde_json` describes as
    /// `detail`.
    pub fn serde_message(detail: &str) -> (text: String)
        ensures
            text@ == "serde error: "@ + detail@,
    {
        String::from_str("serde error: ").concat(detail)
    }

    /// Renders the message for this error around a given description of the
    /// `Serde` failure.
    pub fn message_with(&self, detail: &str) -> (text: String)
        ensures
            text@ == self.message(detail@),
    {
        match self {
            Error::Io(fault) => String::from_str("io error: ").concat(fault.message.as_str()),
            Error::Serde(_) => Error::serde_message(detail),
            Error::MessageTooLarge { size } => {
                let number = decimal_text(*size);
                String::from_str("message too large: ").concat(number.as_str()).concat(" bytes")
            },
            Error::NoMoreInput => String::from_str("the input stream reached the end"),
        }
    }

    /// Whether `text` is a rendering of this error: its message, where for a
    /// `Serde` failure any description may follow the prefix.
    pub open spec fn renders(&self, text: Seq<char>) -> bool {
        exists|detail: Seq<char>| text == #[trigger] self.message(detail)
    }

    /// Renders this error for a human reader. Of a `Serde` failure the text
    /// after the prefix is the one that `serde_json` gives.
    pub fn to_string(&self) -> (text: String)
        ensures
            self.renders(text@),
    {
        match self {
            Error::Serde(err) => {
                let detail = json_error_text(err);
                self.message_with(detail.as_str())
            },
            _ => self.message_with(""),
        }
    }
}

} // verus!
