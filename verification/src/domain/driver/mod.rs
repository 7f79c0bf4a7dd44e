//! Driver identifiers and the coarse connection state a driver reports.

pub mod connection_state;
pub mod driver_type;

use vstd::prelude::*;
use crate::text::{chars_of, owned, string_of, trim, trim_chars};
use crate::domain::error::DomainError;

verus! {

#[derive(Debug, Clone, Copy, PartialEq, Eq, Structural)]
pub enum ConnectionState {
    Disconnected,
    Connecting,
    Connected,
    Failed,
}

/// Opaque driver identifier used by the domain: any non-blank name, stored trimmed.
#[derive(Debug, Clone, PartialEq, Eq, Hash)]
pub struct DriverType(String);

impl View for DriverType {
    type V = Seq<char>;

    closed spec fn view(&self) -> Seq<char> {
        self.0@
    }
}

impl DriverType {
    /// The trimmed name, or a configuration error when nothing is left after trimming.
    pub fn new(value: &str) -> (r: Result<DriverType, DomainError>)
        ensures
            r is Ok <==> trim(value@).len() > 0,
            r is Ok ==> r->Ok_0@ == trim(value@),
            r is Err ==> r->Err_0 is ConfigurationError && r->Err_0->ConfigurationError_0@
                == "driver_type cannot be empty"@,
    {
        let v = chars_of(value);
        let t = trim_chars(&v);
        if t.len() == 0 {
            return Err(DomainError::ConfigurationError(owned("driver_type cannot be empty")));
        }
        Ok(DriverType(string_of(&t)))
    }

    /// Parsing from text is construction.
    pub fn from_str(s: &str) -> (r: Result<DriverType, DomainError>)
        ensures
            r is Ok <==> trim(s@).len() > 0,
            r is Ok ==> r->Ok_0@ == trim(s@),
            r is Err ==> r->Err_0 is ConfigurationError,
    {
        DriverType::new(s)
    }

    pub fn as_str(&self) -> (r: &str)
        ensures
            r@ == self@,
    {
        self.0.as_str()
    }

    /// The name as displayed.
    pub fn to_string(&self) -> (r: String)
        ensures
            r@ == self@,
    {
        self.0.clone()
    }
}

/// A driver name survives a second construction unchanged: trimming is idempotent on
/// what `new` stores.
pub proof fn lemma_driver_type_trim_idempotent(s: Seq<char>)
    ensures
        trim(trim(s)) == trim(s),
{
    crate::text::lemma_trim_idempotent(s);
}

} // verus!
