//! The error that decoding a sentence can end in.

use vstd::prelude::*;
use vstd::std_specs::convert::FromSpecImpl;

verus! {

/// Why a sentence could not be decoded. Each variant carries a message
/// that describes the case at hand.
#[derive(Clone, Debug, PartialEq)]
pub enum ParseError {
    /// The sentence is well formed, but its kind is not handled here.
    UnsupportedSentenceType(String),
    /// The sentence carries a checksum that does not match its text.
    CorruptedSentence(String),
    /// The sentence is not of the form that its kind asks for.
    InvalidSentence(String),
}

impl ParseError {
    /// The message that the error carries.
    pub open spec fn text(self) -> Seq<char> {
        match self {
            ParseError::UnsupportedSentenceType(s) => s@,
            ParseError::CorruptedSentence(s) => s@,
            ParseError::InvalidSentence(s) => s@,
        }
    }

    /// The error written out: what kind it is, then its message.
    pub open spec fn rendered(self) -> Seq<char> {
        match self {
            ParseError::UnsupportedSentenceType(s) => "Unsupported NMEA sentence type: "@ + s@,
            ParseError::CorruptedSentence(s) => "Corrupted NMEA sentence: "@ + s@,
            ParseError::InvalidSentence(s) => "Invalid NMEA sentence: "@ + s@,
        }
    }

    /// Writes the error out: what kind it is, then its message.
    pub fn message(&self) -> (r: String)
        ensures
            r@ == self.rendered(),
    {
        match self {
            ParseError::UnsupportedSentenceType(s) => {
                let mut r: String = String::from_str("Unsupported NMEA sentence type: ");
                r.append(s.as_str());
                r
            },
            ParseError::CorruptedSentence(s) => {
                let mut r: String = String::from_str("Corrupted NMEA sentence: ");
                r.append(s.as_str());
                r
            },
            ParseError::InvalidSentence(s) => {
                let mut r: String = String::from_str("Invalid NMEA sentence: ");
                r.append(s.as_str());
                r
            },
        }
    }
}

impl From<String> for ParseError {
    fn from(s: String) -> (r: ParseError) {
        ParseError::InvalidSentence(s)
    }
}

impl FromSpecImpl<String> for ParseError {
    open spec fn obeys_from_spec() -> bool {
        true
    }

    open spec fn from_spec(s: String) -> ParseError {
        ParseError::InvalidSentence(s)
    }
}

/// An `InvalidSentence` error with the given message.
pub fn invalid(msg: &str) -> (e: ParseError)
    ensures
        e is InvalidSentence,
        e.text() == msg@,
{
    ParseError::InvalidSentence(String::from_str(msg))
}

/// An `UnsupportedSentenceType` error with the given message.
pub fn unsupported(msg: &str) -> (e: ParseError)
    ensures
        e is UnsupportedSentenceType,
        e.text() == msg@,
{
    ParseError::UnsupportedSentenceType(String::from_str(msg))
}

/// An `InvalidSentence` error whose message is `prefix` followed by
/// `s`.
pub fn invalid_with(prefix: &str, s: &str) -> (e: ParseError)
    ensures
        e is InvalidSentence,
        e.text() == prefix@ + s@,
{
    let mut msg: String = String::from_str(prefix);
    msg.append(s);
    ParseError::InvalidSentence(msg)
}

} // verus!
