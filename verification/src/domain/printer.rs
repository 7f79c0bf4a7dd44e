//! Errors of the printer connection.

use vstd::prelude::*;
use crate::text::{append_str, owned};

verus! {

#[derive(Debug, Clone, PartialEq, Eq)]
pub enum PrinterError {
    ConnectionFailed(String),
    WriteFailed(String),
    NotConnected,
}

impl PrinterError {
    /// The displayed message of the error.
    pub open spec fn message(&self) -> Seq<char> {
        match self {
            PrinterError::ConnectionFailed(m) => "Connection failed: "@ + m@,
            PrinterError::WriteFailed(m) => "Write failed: "@ + m@,
            PrinterError::NotConnected => "Not connected"@,
        }
    }

    /// The displayed message of the error.
    pub fn to_string(&self) -> (r: String)
        ensures
            r@ == self.message(),
    {
        match self {
            PrinterError::ConnectionFailed(m) => {
                let mut r = owned("Connection failed: ");
                append_str(&mut r, m.as_str());
                r
            },
            PrinterError::WriteFailed(m) => {
                let mut r = owned("Write failed: ");
                append_str(&mut r, m.as_str());
                r
            },
            PrinterError::NotConnected => owned("Not connected"),
        }
    }
}

} // verus!
