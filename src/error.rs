//! Device-level errors of an instrument session.

use vstd::prelude::*;
use vstd::string::*;

verus! {

/// What can go wrong while talking to an instrument.
#[derive(Debug, PartialEq, Eq)]
pub enum MPM210HError {
    /// The transport failed (timeout, refused or reset connection); the
    /// transport's own description is kept.
    IoError(String),
    /// A reply or a connection parameter could not be interpreted.
    ParseError(String),
    /// An operation was attempted before a successful connect.
    NotConnected,
}

/// The human-readable description of an error.
pub open spec fn error_text(e: MPM210HError) -> Seq<char> {
    match e {
        MPM210HError::IoError(m) => "IO error: "@ + m@,
        MPM210HError::ParseError(m) => "Parse error: "@ + m@,
        MPM210HError::NotConnected => "Device not connected"@,
    }
}

impl MPM210HError {
    /// Describes the error for a person.
    pub fn message(&self) -> (r: String)
        ensures
            r@ == error_text(*self),
    {
        match self {
            MPM210HError::IoError(m) => String::from_str("IO error: ").concat(m.as_str()),
            MPM210HError::ParseError(m) => String::from_str("Parse error: ").concat(m.as_str()),
            MPM210HError::NotConnected => String::from_str("Device not connected"),
        }
    }
}

} // verus!
