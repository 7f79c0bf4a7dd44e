//! Validated tag identifiers.

use vstd::prelude::*;
use crate::text::{append_chars, append_str, char_is_alphanumeric, chars_of, dec, dec_chars, alphanumeric, owned};
use crate::domain::error::DomainError;

verus! {

/// A tag identifier: non-empty, at most 100 characters, and made of alphanumeric characters,
/// `_`, `-` and `/` only.
#[derive(Debug, Clone, PartialEq, Eq, Hash)]
pub struct TagId(String);

/// The characters a tag identifier may hold.
pub open spec fn tag_id_char_ok(c: char) -> bool {
    alphanumeric(c) || c == '_' || c == '-' || c == '/'
}

impl View for TagId {
    type V = Seq<char>;

    closed spec fn view(&self) -> Seq<char> {
        self.0@
    }
}

impl TagId {
    /// Validates `id`: empty, longer than 100 characters, or holding another character gives
    /// `InvalidTagId`, with the message of the first rule broken.
    pub fn new(id: &str) -> (r: Result<TagId, DomainError>)
        ensures
            id@.len() == 0 ==> r is Err && r->Err_0 is InvalidTagId && r->Err_0->InvalidTagId_0@ == "Tag ID cannot be empty"@,
            id@.len() > 100 ==> r is Err && r->Err_0 is InvalidTagId
                && r->Err_0->InvalidTagId_0@ == "Tag ID too long: "@ + dec(id@.len())
                + " chars (max 100)"@,
            id@.len() > 0 && id@.len() <= 100 && !(forall|i: int|
                0 <= i < id@.len() ==> tag_id_char_ok(#[trigger] id@[i])) ==> r is Err
                && r->Err_0 is InvalidTagId && r->Err_0->InvalidTagId_0@ == "Tag ID "@ + id@
                + " must contain only alphanumeric, underscore, hyphen, and forward slash"@,
            r is Ok <==> (id@.len() > 0 && id@.len() <= 100 && forall|i: int|
                0 <= i < id@.len() ==> tag_id_char_ok(#[trigger] id@[i])),
            r is Ok ==> r->Ok_0@ == id@,
    {
        let v = chars_of(id);
        if v.len() == 0 {
            return Err(DomainError::InvalidTagId(owned("Tag ID cannot be empty")));
        }
        let count = v.len();
        if count > 100 {
            let mut m = owned("Tag ID too long: ");
            let digits = dec_chars(count as u64);
            append_chars(&mut m, &digits);
            append_str(&mut m, " chars (max 100)");
            return Err(DomainError::InvalidTagId(m));
        }
        let mut i: usize = 0;
        while i < v.len()
            invariant
                v@ == id@,
                v@.len() > 0,
                v@.len() <= 100,
                i <= v.len(),
                forall|j: int| 0 <= j < i ==> tag_id_char_ok(#[trigger] v@[j]),
            decreases v.len() - i,
        {
            let c = v[i];
            if !(char_is_alphanumeric(c) || c == '_' || c == '-' || c == '/') {
                let mut m = owned("Tag ID ");
                append_str(&mut m, id);
                append_str(&mut m, " must contain only alphanumeric, underscore, hyphen, and forward slash");
                return Err(DomainError::InvalidTagId(m));
            }
            i = i + 1;
        }
        Ok(TagId(owned(id)))
    }

    pub fn as_str(&self) -> (r: &str)
        ensures
            r@ == self@,
    {
        self.0.as_str()
    }

    /// The identifier as displayed.
    pub fn to_string(&self) -> (r: String)
        ensures
            r@ == self@,
    {
        self.0.clone()
    }
}

} // verus!
