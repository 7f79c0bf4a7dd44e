//! Verified core of an edge SCADA runtime: connection and tag status rules, identifier
//! validation, the agent's broker watchdog and heartbeat, the MQTT outbox policies, the
//! action helpers, and the supervisor's liveness and control decisions.

pub mod json;
pub mod keyed;
pub mod text;
pub mod domain;
pub mod agent;
pub mod supervisor;
