//! The edge agent: broker watchdog, heartbeat, ticket numbering, outbox policies, action
//! helpers, MQTT bridge rules and configuration bootstrap checks.

pub mod broker_watch;
pub mod heartbeat;
pub mod ticket;
pub mod hex;
pub mod crypto;
pub mod bootstrap;
pub mod actions;
pub mod orchestrator;
pub mod bridge_config;
pub mod outbox;
pub mod bridge;
pub mod commands;
pub mod auto_print;
pub mod bridge_loop;
pub mod settings;
pub mod share_path;
pub mod watchdog;
pub mod printing;
pub mod remote_config;
