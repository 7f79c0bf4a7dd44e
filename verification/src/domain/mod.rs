//! Domain rules: connection and status judgements, identifiers, tags, drivers and
//! automation triggers.

pub mod automation;
pub mod connection;
pub mod device_status;
pub mod driver;
pub mod error;
pub mod id;
pub mod printer;
pub mod tag;
