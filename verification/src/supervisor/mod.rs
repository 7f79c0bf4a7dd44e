//! The supervisor of the agent process: its configuration, liveness judgement, control
//! orders and the decisions of its loop.

pub mod config;
pub mod control;
pub mod heartbeat;
pub mod step;
