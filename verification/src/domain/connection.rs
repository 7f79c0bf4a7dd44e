//! Connection state names reported by drivers, their normal form, and the event that a
//! change of state is published as.

use vstd::prelude::*;
use crate::text::{chars_eq_str, chars_of, eq_ignore_case, eq_ignore_case_str, opt_view, trim, trim_chars};
use crate::domain::driver::DriverType;
use crate::domain::id::ConnectionId;

verus! {

/// How a lost connection is retried.
#[derive(Debug, Clone, PartialEq, Eq)]
pub enum ReconnectStrategy {
    Fixed { delay_ms: u64 },
    Exponential { initial_delay_ms: u64, max_delay_ms: u64 },
}

/// Retry policy of a connection.
#[derive(Debug, Clone, PartialEq, Eq)]
pub struct ReconnectionPolicy {
    pub strategy: ReconnectStrategy,
    pub max_retries: Option<u32>,
}

/// The driver of a connection and its transport settings, a JSON document the driver
/// reads.
#[derive(Debug)]
pub struct ConnectionConfig {
    pub driver_type: DriverType,
    pub transport: serde_json::Value,
}

/// A configured connection to field devices.
#[derive(Debug)]
pub struct Connection {
    pub id: ConnectionId,
    pub name: String,
    pub enabled: bool,
    pub config: ConnectionConfig,
    pub timeout_ms: u64,
    pub reconnection: ReconnectionPolicy,
}

impl Connection {
    /// An enabled connection with a 5 s timeout that retries every second without limit.
    pub fn new(id: ConnectionId, name: String, driver_type: DriverType, transport: serde_json::Value) -> (r: Self)
        ensures
            r.id == id,
            r.name == name,
            r.enabled,
            r.config.driver_type == driver_type,
            r.config.transport == transport,
            r.timeout_ms == 5000,
            r.reconnection == (ReconnectionPolicy {
                strategy: ReconnectStrategy::Fixed { delay_ms: 1000 },
                max_retries: None,
            }),
    {
        Connection {
            id,
            name,
            enabled: true,
            config: ConnectionConfig { driver_type, transport },
            timeout_ms: 5000,
            reconnection: ReconnectionPolicy { strategy: ReconnectStrategy::Fixed { delay_ms: 1000 }, max_retries: None },
        }
    }
}

/// The event published for a change of connection state.
#[derive(Debug, Clone, Copy)]
pub struct ConnectionTransition {
    pub event_type: &'static str,
    pub severity: &'static str,
    pub message: &'static str,
}

/// The five normal forms of a connection state.
#[derive(Debug, Clone, Copy, PartialEq, Eq, Structural)]
pub enum NormalState {
    Connected,
    Connecting,
    Disconnected,
    Failed,
    Unknown,
}

/// Which normal form a reported state has: trimmed and compared without ASCII case.
pub open spec fn normal_state(s: Seq<char>) -> NormalState {
    let t = trim(s);
    if eq_ignore_case(t, "connected"@) {
        NormalState::Connected
    } else if eq_ignore_case(t, "connecting"@) {
        NormalState::Connecting
    } else if eq_ignore_case(t, "disconnected"@) {
        NormalState::Disconnected
    } else if eq_ignore_case(t, "failed"@) {
        NormalState::Failed
    } else {
        NormalState::Unknown
    }
}

/// The name of a normal form.
pub open spec fn normal_state_name(n: NormalState) -> Seq<char> {
    match n {
        NormalState::Connected => "connected"@,
        NormalState::Connecting => "connecting"@,
        NormalState::Disconnected => "disconnected"@,
        NormalState::Failed => "failed"@,
        NormalState::Unknown => "unknown"@,
    }
}

/// The normal form of a reported state.
pub fn classify_state(state: &str) -> (r: NormalState)
    ensures
        r == normal_state(state@),
{
    let v = chars_of(state);
    let t = trim_chars(&v);
    if eq_ignore_case_str(&t, "connected") {
        NormalState::Connected
    } else if eq_ignore_case_str(&t, "connecting") {
        NormalState::Connecting
    } else if eq_ignore_case_str(&t, "disconnected") {
        NormalState::Disconnected
    } else if eq_ignore_case_str(&t, "failed") {
        NormalState::Failed
    } else {
        NormalState::Unknown
    }
}

/// Maps a reported state to `connected`, `connecting`, `disconnected`, `failed` or
/// `unknown`, ignoring surrounding white space and ASCII case.
pub fn normalize_connection_state(state: &str) -> (r: &'static str)
    ensures
        r@ == normal_state_name(normal_state(state@)),
{
    match classify_state(state) {
        NormalState::Connected => "connected",
        NormalState::Connecting => "connecting",
        NormalState::Disconnected => "disconnected",
        NormalState::Failed => "failed",
        NormalState::Unknown => "unknown",
    }
}

/// The event type, severity and message published when a connection enters `new_state`
/// coming from `prev_state`. Only the exact lower-case names are recognised.
pub open spec fn transition_spec(prev: Option<Seq<char>>, new: Seq<char>) -> (
    Seq<char>,
    Seq<char>,
    Seq<char>,
) {
    if new == "connected"@ {
        if prev == Some("failed"@) || prev == Some("disconnected"@) {
            ("connection.reconnected"@, "info"@, "Connection recovered"@)
        } else {
            ("connection.connected"@, "info"@, "Connection established"@)
        }
    } else if new == "connecting"@ {
        ("connection.connecting"@, "info"@, "Connection attempting"@)
    } else if new == "disconnected"@ {
        ("connection.disconnected"@, "warn"@, "Connection disconnected"@)
    } else if new == "failed"@ {
        ("connection.failed"@, "error"@, "Connection failed"@)
    } else {
        ("connection.changed"@, "info"@, "Connection state changed"@)
    }
}

/// A connection is reported as recovered exactly when it enters `connected` from
/// `failed` or from `disconnected`; entering `connected` from any other state (or from
/// none) is reported as established. Both are informational.
pub proof fn lemma_reconnect_reported_after_failure_or_drop(prev: Option<Seq<char>>, new: Seq<char>)
    ensures
        (transition_spec(prev, new).0 == "connection.reconnected"@) <==> (new == "connected"@ && (prev
            == Some("failed"@) || prev == Some("disconnected"@))),
        transition_spec(prev, new).0 == "connection.reconnected"@ ==> transition_spec(prev, new).2
            == "Connection recovered"@ && transition_spec(prev, new).1 == "info"@,
        (transition_spec(prev, new).0 == "connection.connected"@) <==> (new == "connected"@ && !(prev
            == Some("failed"@) || prev == Some("disconnected"@))),
{
    reveal_strlit("connection.reconnected");
    reveal_strlit("connection.connected");
    reveal_strlit("connection.connecting");
    reveal_strlit("connection.disconnected");
    reveal_strlit("connection.failed");
    reveal_strlit("connection.changed");
    let r = "connection.reconnected"@;
    let c = "connection.connected"@;
    assert(r.len() != c.len());
    assert(r != "connection.connecting"@) by {
        assert(r[11] != "connection.connecting"@[11]);
    }
    assert(r.len() != "connection.disconnected"@.len());
    assert(r.len() != "connection.failed"@.len());
    assert(r.len() != "connection.changed"@.len());
    assert(c.len() != "connection.connecting"@.len());
    assert(c != "connection.disconnected"@) by {
        assert(c[11] != "connection.disconnected"@[11]);
    }
    assert(c.len() != "connection.failed"@.len());
    assert(c.len() != "connection.changed"@.len());
}

/// The event of every other change is named by the state entered: `connecting` is an
/// attempt (info), `disconnected` a drop (warn), `failed` a failure (error), and any
/// other state a plain change (info).
pub proof fn lemma_transition_named_by_new_state(prev: Option<Seq<char>>, new: Seq<char>)
    ensures
        new == "connecting"@ ==> transition_spec(prev, new) == ("connection.connecting"@, "info"@,
            "Connection attempting"@),
        new == "disconnected"@ ==> transition_spec(prev, new) == ("connection.disconnected"@, "warn"@,
            "Connection disconnected"@),
        new == "failed"@ ==> transition_spec(prev, new) == ("connection.failed"@, "error"@,
            "Connection failed"@),
        new != "connected"@ && new != "connecting"@ && new != "disconnected"@ && new != "failed"@
            ==> transition_spec(prev, new) == ("connection.changed"@, "info"@, "Connection state changed"@),
        new == "connected"@ ==> transition_spec(prev, new).1 == "info"@,
{
    reveal_strlit("connected");
    reveal_strlit("connecting");
    reveal_strlit("disconnected");
    reveal_strlit("failed");
    assert("connected"@.len() != "connecting"@.len());
    assert("connected"@.len() != "disconnected"@.len());
    assert("connected"@.len() != "failed"@.len());
    assert("connecting"@.len() != "disconnected"@.len());
    assert("connecting"@.len() != "failed"@.len());
    assert("disconnected"@.len() != "failed"@.len());
}

fn is_exactly(s: &str, lit: &str) -> (r: bool)
    ensures
        r == (s@ == lit@),
{
    let v = chars_of(s);
    chars_eq_str(&v, lit)
}

/// The event published for a change of connection state.
pub fn classify_connection_transition(prev_state: Option<&str>, new_state: &str) -> (r:
    ConnectionTransition)
    ensures
        (r.event_type@, r.severity@, r.message@) == transition_spec(opt_view(prev_state), new_state@),
{
    if is_exactly(new_state, "connected") {
        let recovered = match prev_state {
            Some(p) => is_exactly(p, "failed") || is_exactly(p, "disconnected"),
            None => false,
        };
        if recovered {
            ConnectionTransition {
                event_type: "connection.reconnected",
                severity: "info",
                message: "Connection recovered",
            }
        } else {
            ConnectionTransition {
                event_type: "connection.connected",
                severity: "info",
                message: "Connection established",
            }
        }
    } else if is_exactly(new_state, "connecting") {
        ConnectionTransition {
            event_type: "connection.connecting",
            severity: "info",
            message: "Connection attempting",
        }
    } else if is_exactly(new_state, "disconnected") {
        ConnectionTransition {
            event_type: "connection.disconnected",
            severity: "warn",
            message: "Connection disconnected",
        }
    } else if is_exactly(new_state, "failed") {
        ConnectionTransition {
            event_type: "connection.failed",
            severity: "error",
            message: "Connection failed",
        }
    } else {
        ConnectionTransition {
            event_type: "connection.changed",
            severity: "info",
            message: "Connection state changed",
        }
    }
}

/// Whether the edge counts as online: its reported state is `ok` or `online` (ASCII case
/// ignored) and its report is at most `max(stale_after_secs, 1)` seconds old.
pub open spec fn edge_online_spec(state: Option<Seq<char>>, age: Option<i64>, stale_after: i64) -> bool {
    match (state, age) {
        (Some(s), Some(a)) => (eq_ignore_case(s, "ok"@) || eq_ignore_case(s, "online"@)) && a <= (
        if stale_after >= 1 {
            stale_after
        } else {
            1
        }),
        _ => false,
    }
}

/// The edge counts as online only while it reports `ok` or `online` (any ASCII case)
/// with an age: an age within its staleness limit, or of at most one second, keeps it
/// online; an age beyond both, or no report or no age, does not.
pub proof fn lemma_edge_online_window(state: Option<Seq<char>>, age: Option<i64>, stale_after: i64)
    ensures
        edge_online_spec(state, age, stale_after) ==> state is Some && age is Some,
        (state matches Some(s) && (eq_ignore_case(s, "ok"@) || eq_ignore_case(s, "online"@))) ==> (age matches Some(
            a,
        ) && (a <= stale_after || a <= 1) <==> edge_online_spec(state, age, stale_after)),
        (state matches Some(s) && !eq_ignore_case(s, "ok"@) && !eq_ignore_case(s, "online"@)) ==> !edge_online_spec(
            state,
            age,
            stale_after,
        ),
{
}

/// Whether the edge counts as online.
pub fn is_edge_online(edge_state: Option<&str>, edge_age_secs: Option<i64>, stale_after_secs: i64) -> (r:
    bool)
    ensures
        r == edge_online_spec(opt_view(edge_state), edge_age_secs, stale_after_secs),
{
    let state = match edge_state {
        Some(s) => s,
        None => return false,
    };
    let v = chars_of(state);
    let ok_state = eq_ignore_case_str(&v, "ok") || eq_ignore_case_str(&v, "online");
    if !ok_state {
        return false;
    }
    let age = match edge_age_secs {
        Some(a) => a,
        None => return false,
    };
    let limit: i64 = if stale_after_secs >= 1 { stale_after_secs } else { 1 };
    age <= limit
}

} // verus!
