//! Errors of the domain layer.

use vstd::prelude::*;
use crate::text::{append_str, owned};

verus! {

#[derive(Debug, Clone, PartialEq, Eq)]
pub enum DomainError {
    InvalidId(String),
    InvalidTagId(String),
    ConfigurationError(String),
    DriverError(String),
    TagError(String),
    EventError(String),
    NotFound(String),
}

impl DomainError {
    /// The prefix of the displayed message of each variant.
    pub open spec fn prefix(&self) -> Seq<char> {
        match self {
            DomainError::InvalidId(_) => "Invalid ID format: "@,
            DomainError::InvalidTagId(_) => "Invalid tag ID: "@,
            DomainError::ConfigurationError(_) => "Configuration error: "@,
            DomainError::DriverError(_) => "Driver error: "@,
            DomainError::TagError(_) => "Tag error: "@,
            DomainError::EventError(_) => "Event bus error: "@,
            DomainError::NotFound(_) => "Not found: "@,
        }
    }

    /// The detail carried by the error.
    pub open spec fn detail(&self) -> Seq<char> {
        match self {
            DomainError::InvalidId(m) => m@,
            DomainError::InvalidTagId(m) => m@,
            DomainError::ConfigurationError(m) => m@,
            DomainError::DriverError(m) => m@,
            DomainError::TagError(m) => m@,
            DomainError::EventError(m) => m@,
            DomainError::NotFound(m) => m@,
        }
    }

    /// The displayed message: the variant's prefix followed by its detail.
    pub fn to_string(&self) -> (r: String)
        ensures
            r@ == self.prefix() + self.detail(),
    {
        let (prefix, detail) = match self {
            DomainError::InvalidId(m) => ("Invalid ID format: ", m),
            DomainError::InvalidTagId(m) => ("Invalid tag ID: ", m),
            DomainError::ConfigurationError(m) => ("Configuration error: ", m),
            DomainError::DriverError(m) => ("Driver error: ", m),
            DomainError::TagError(m) => ("Tag error: ", m),
            DomainError::EventError(m) => ("Event bus error: ", m),
            DomainError::NotFound(m) => ("Not found: ", m),
        };
        let mut r = owned(prefix);
        append_str(&mut r, detail.as_str());
        r
    }
}

} // verus!
