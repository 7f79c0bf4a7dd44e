//! Whether a tag holds one value or a record of several.

use vstd::prelude::*;

verus! {

#[derive(Debug, Clone, Copy, PartialEq, Eq, Hash, Structural)]
pub enum TagValueType {
    /// Simple numeric value
    Simple,
    /// Composite value with multiple fields
    Composite,
}

impl TagValueType {
    pub fn is_simple(&self) -> (r: bool)
        ensures
            r == (*self == TagValueType::Simple),
    {
        match self {
            TagValueType::Simple => true,
            TagValueType::Composite => false,
        }
    }

    pub fn is_composite(&self) -> (r: bool)
        ensures
            r == (*self == TagValueType::Composite),
    {
        match self {
            TagValueType::Simple => false,
            TagValueType::Composite => true,
        }
    }
}

/// Every value type is exactly one of simple or composite.
pub proof fn lemma_value_type_is_simple_or_composite(t: TagValueType)
    ensures
        (t == TagValueType::Simple) != (t == TagValueType::Composite),
{
}

} // verus!
