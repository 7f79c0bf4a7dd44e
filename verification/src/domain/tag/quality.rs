//! The quality attached to a tag value.

use vstd::prelude::*;

verus! {

#[derive(Debug, Clone, Copy, PartialEq, Eq, Structural)]
pub enum QualityStatus {
    Good,
    Bad,
    Uncertain,
}

#[derive(Debug, Clone, Copy, PartialEq, Eq, Structural)]
pub enum QualityReason {
    Timeout,
    CommunicationFailure,
    OutOfRange,
    ValidationFailed,
    NotConnected,
}

#[derive(Debug, Clone, Copy, PartialEq, Eq, Structural)]
pub struct TagQuality {
    pub status: QualityStatus,
    pub reason: Option<QualityReason>,
}

impl TagQuality {
    /// Good quality carries no reason.
    pub fn good() -> (q: Self)
        ensures
            q.status == QualityStatus::Good,
            q.reason == None::<QualityReason>,
    {
        TagQuality { status: QualityStatus::Good, reason: None }
    }

    /// Bad quality always says why.
    pub fn bad(reason: QualityReason) -> (q: Self)
        ensures
            q.status == QualityStatus::Bad,
            q.reason == Some(reason),
    {
        TagQuality { status: QualityStatus::Bad, reason: Some(reason) }
    }
}

} // verus!
