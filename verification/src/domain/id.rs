//! Typed string identifiers.

use vstd::prelude::*;
use crate::text::owned;
use crate::domain::error::DomainError;

verus! {

/// A string identifier tagged with the kind of entity it names.
#[derive(Debug, PartialEq, Eq, Hash)]
pub struct Id<T>(String, std::marker::PhantomData<T>);

impl<T> View for Id<T> {
    type V = Seq<char>;

    closed spec fn view(&self) -> Seq<char> {
        self.0@
    }
}

impl<T> Clone for Id<T> {
    fn clone(&self) -> (r: Self)
        ensures
            r@ == self@,
    {
        Id(self.0.clone(), std::marker::PhantomData)
    }
}

impl<T> Id<T> {
    /// Any text makes an identifier.
    pub fn new(id: &str) -> (r: Id<T>)
        ensures
            r@ == id@,
    {
        Id(owned(id), std::marker::PhantomData)
    }

    pub fn as_str(&self) -> (r: &str)
        ensures
            r@ == self@,
    {
        self.0.as_str()
    }

    /// Parsing rejects only the empty text.
    pub fn from_str(s: &str) -> (r: Result<Id<T>, DomainError>)
        ensures
            r is Ok <==> s@.len() > 0,
            r is Ok ==> r->Ok_0@ == s@,
            r is Err ==> r->Err_0 is InvalidId && r->Err_0->InvalidId_0@ == "ID cannot be empty"@,
    {
        if s.unicode_len() == 0 {
            return Err(DomainError::InvalidId(owned("ID cannot be empty")));
        }
        Ok(Id::new(s))
    }

    /// The identifier as displayed.
    pub fn to_string(&self) -> (r: String)
        ensures
            r@ == self@,
    {
        self.0.clone()
    }
}

#[derive(Debug, Clone, Copy, PartialEq, Eq, Hash)]
pub struct TagType;

#[derive(Debug, Clone, Copy, PartialEq, Eq, Hash)]
pub struct ConnectionType;

#[derive(Debug, Clone, Copy, PartialEq, Eq, Hash)]
pub struct DeviceType;

pub type ConnectionId = Id<ConnectionType>;

pub type DeviceId = Id<DeviceType>;

} // verus!
