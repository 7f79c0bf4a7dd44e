//! Tags: identifiers, quality, connection status, value types and update modes.

pub mod entity;
pub mod quality;
pub mod status;
pub mod tag_id;
pub mod update_mode;
pub mod value_type;
