//! The failures a decoding operation can report.

use vstd::prelude::*;
use vstd::string::StringExecFns;

verus! {

/// Why a decoding operation failed.
#[derive(Debug, Clone, PartialEq)]
pub enum ParseError {
    /// Fewer bytes remain than the operation needs.
    InsufficientData,
    /// The source of the bytes failed; the text is the cause.
    IoError(String),
    /// The bytes are present but break a rule of the encoding; the text names the rule.
    InvalidData(String),
}

/// The mathematical value of a [`ParseError`]: its kind, with any message as a
/// sequence of characters.
pub enum ParseFault {
    InsufficientData,
    IoError(Seq<char>),
    InvalidData(Seq<char>),
}

impl View for ParseError {
    type V = ParseFault;

    open spec fn view(&self) -> ParseFault {
        match *self {
            ParseError::InsufficientData => ParseFault::InsufficientData,
            ParseError::IoError(text) => ParseFault::IoError(text@),
            ParseError::InvalidData(text) => ParseFault::InvalidData(text@),
        }
    }
}

impl ParseFault {
    /// The text shown to a user for this failure.
    pub open spec fn rendered(self) -> Seq<char> {
        match self {
            ParseFault::InsufficientData => "Insufficient data for parsing"@,
            ParseFault::IoError(text) => "IO error: "@ + text,
            ParseFault::InvalidData(text) => "Invalid data: "@ + text,
        }
    }
}

/// The failure type of std's I/O layer, carried through as an opaque value.
#[verifier::external_type_specification]
#[verifier::external_body]
pub struct ExIoError(std::io::Error);

impl From<std::io::Error> for ParseError {
    /// Wraps a failure of the byte source: the result is `IoError`, and its
    /// message is the text that the cause displays as.
    fn from(error: std::io::Error) -> (res: Self)
        ensures
            res matches ParseError::IoError(text)
                && vstd::string::to_string_from_display_ensures::<std::io::Error>(&error, text),
    {
        ParseError::IoError(error.to_string())
    }
}

/// The message depends on what the cause displays as, which no specification
/// function determines: the conversion is described by the postcondition of
/// `from` alone.
impl vstd::std_specs::convert::FromSpecImpl<std::io::Error> for ParseError {
    open spec fn obeys_from_spec() -> bool {
        false
    }

    open spec fn from_spec(error: std::io::Error) -> ParseError {
        arbitrary()
    }
}

impl ParseError {
    /// Renders the failure as text: a fixed sentence for missing data, and a
    /// fixed prefix followed by the carried message for the other two kinds.
    pub fn to_string(&self) -> (text: String)
        ensures
            text@ == self@.rendered(),
    {
        match self {
            ParseError::InsufficientData => String::from_str("Insufficient data for parsing"),
            ParseError::IoError(msg) => String::from_str("IO error: ").concat(msg.as_str()),
            ParseError::InvalidData(msg) => String::from_str("Invalid data: ").concat(msg.as_str()),
        }
    }
}

} // verus!
