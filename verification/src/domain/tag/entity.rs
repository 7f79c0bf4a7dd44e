//! Configured tags: the kind of value a tag carries, how it is refreshed, where it is
//! read from.

use vstd::prelude::*;
use crate::domain::id::{DeviceId, Id, TagType};
use crate::json::empty_json_object;

verus! {

#[derive(Debug, Clone, Copy, PartialEq, Eq, Structural)]
pub enum TagValueType {
    Float,
    Integer,
    Boolean,
    String,
}

#[derive(Debug, Clone, Copy, PartialEq, Eq, Structural)]
pub enum TagUpdateMode {
    Polling { interval_ms: u64 },
    OnChange,
    OnMessage,
    PollingOnChange { interval_ms: u64 },
}

/// A configured tag.
#[derive(Debug)]
pub struct Tag {
    pub id: Id<TagType>,
    pub name: String,
    pub device_id: DeviceId,
    pub enabled: bool,
    pub value_type: TagValueType,
    pub update_mode: TagUpdateMode,
    /// Where the driver reads the value, in the driver's own notation.
    pub source: String,
    /// Settings the runtime's policies read (pipeline, validation, display).
    pub metadata: serde_json::Value,
}

impl Tag {
    /// An enabled float tag polled every second, with empty metadata.
    pub fn new(id: Id<TagType>, name: String, device_id: DeviceId, source: String) -> (r: Self)
        ensures
            r.id == id,
            r.name == name,
            r.device_id == device_id,
            r.source == source,
            r.enabled,
            r.value_type == TagValueType::Float,
            r.update_mode == (TagUpdateMode::Polling { interval_ms: 1000 }),
    {
        Tag {
            id,
            name,
            device_id,
            enabled: true,
            value_type: TagValueType::Float,
            update_mode: TagUpdateMode::Polling { interval_ms: 1000 },
            source,
            metadata: empty_json_object(),
        }
    }
}

} // verus!
