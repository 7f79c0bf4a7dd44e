//! Whether a tag is connected, stale or disconnected.

use vstd::prelude::*;
use crate::text::opt_view;
use crate::domain::connection::{classify_state, edge_online_spec, is_edge_online, normal_state, NormalState};

verus! {

#[derive(Debug, Clone, Copy, PartialEq, Eq, Structural)]
pub enum TagConnectionStatus {
    Connected,
    Stale,
    Disconnected,
}

impl TagConnectionStatus {
    pub open spec fn name(self) -> Seq<char> {
        match self {
            TagConnectionStatus::Connected => "connected"@,
            TagConnectionStatus::Stale => "stale"@,
            TagConnectionStatus::Disconnected => "disconnected"@,
        }
    }

    pub fn as_str(self) -> (r: &'static str)
        ensures
            r@ == self.name(),
    {
        match self {
            TagConnectionStatus::Connected => "connected",
            TagConnectionStatus::Stale => "stale",
            TagConnectionStatus::Disconnected => "disconnected",
        }
    }
}

#[derive(Debug, Clone, Copy)]
pub struct TagStatusInput<'a> {
    pub edge_state: Option<&'a str>,
    pub edge_age_secs: Option<i64>,
    pub edge_stale_after_secs: i64,
    pub connection_state: Option<&'a str>,
    pub sample_age_secs: i64,
    pub expected_interval_ms: Option<i64>,
}

/// Three expected intervals, in whole seconds, clamped to `[5, 300]`.
pub open spec fn stale_window_secs(expected_ms: i64) -> int {
    let raw = (expected_ms * 3) / 1000;
    if raw < 5 {
        5
    } else if raw > 300 {
        300
    } else {
        raw
    }
}

/// The status of a tag: disconnected when the edge is offline or the connection failed
/// or dropped; stale while connecting; otherwise stale only when a positive expected
/// interval is set and the last sample is older than the stale window.
pub open spec fn tag_status_spec(input: TagStatusInput) -> TagConnectionStatus {
    if !edge_online_spec(opt_view(input.edge_state), input.edge_age_secs, input.edge_stale_after_secs) {
        TagConnectionStatus::Disconnected
    } else if input.connection_state is Some && (normal_state(input.connection_state->0@)
        == NormalState::Failed || normal_state(input.connection_state->0@)
        == NormalState::Disconnected) {
        TagConnectionStatus::Disconnected
    } else if input.connection_state is Some && normal_state(input.connection_state->0@)
        == NormalState::Connecting {
        TagConnectionStatus::Stale
    } else {
        match input.expected_interval_ms {
            None => TagConnectionStatus::Connected,
            Some(e) => if e <= 0 {
                TagConnectionStatus::Connected
            } else if input.sample_age_secs <= stale_window_secs(e) {
                TagConnectionStatus::Connected
            } else {
                TagConnectionStatus::Stale
            },
        }
    }
}

/// The inputs on which the window arithmetic stays within `i64`.
pub open spec fn tag_status_input_ok(input: TagStatusInput) -> bool {
    match input.expected_interval_ms {
        Some(e) => e <= 0 || e * 3 <= i64::MAX,
        None => true,
    }
}

/// A tag is disconnected whenever the edge is offline or its connection failed or
/// dropped; with the edge online it is stale while the connection is being made; and
/// with the edge online and the connection up (or not reported), a tag without a
/// positive expected interval is connected whatever the age of its last sample.
pub proof fn lemma_tag_status_by_connection(input: TagStatusInput)
    ensures
        ({
            let online = edge_online_spec(opt_view(input.edge_state), input.edge_age_secs, input.edge_stale_after_secs);
            let st = match input.connection_state {
                Some(c) => Some(normal_state(c@)),
                None => None,
            };
            &&& !online ==> tag_status_spec(input) == TagConnectionStatus::Disconnected
            &&& online && (st == Some(NormalState::Failed) || st == Some(NormalState::Disconnected))
                ==> tag_status_spec(input) == TagConnectionStatus::Disconnected
            &&& online && st == Some(NormalState::Connecting) ==> tag_status_spec(input) == TagConnectionStatus::Stale
            &&& online && (st is None || st == Some(NormalState::Connected) || st == Some(NormalState::Unknown))
                && (input.expected_interval_ms matches Some(e) ==> e <= 0) ==> tag_status_spec(input)
                == TagConnectionStatus::Connected
        }),
{
}

/// With the edge online and the connection up (or not reported), a tag whose
/// expected interval is `e > 0` ms is connected exactly when its last sample is at most
/// five seconds old, or at most three intervals old (in whole seconds) and at most 300
/// seconds old; otherwise it is stale.
pub proof fn lemma_tag_freshness_window(input: TagStatusInput, e: i64)
    requires
        edge_online_spec(opt_view(input.edge_state), input.edge_age_secs, input.edge_stale_after_secs),
        input.connection_state is None || normal_state(input.connection_state->0@) == NormalState::Connected
            || normal_state(input.connection_state->0@) == NormalState::Unknown,
        input.expected_interval_ms == Some(e),
        e > 0,
    ensures
        tag_status_spec(input) == (if input.sample_age_secs <= 5 || (input.sample_age_secs <= 300
            && input.sample_age_secs * 1000 <= 3 * e) {
            TagConnectionStatus::Connected
        } else {
            TagConnectionStatus::Stale
        }),
{
    let a: int = input.sample_age_secs as int;
    let raw: int = (e * 3) / 1000;
    assert(raw * 1000 <= e * 3 < raw * 1000 + 1000);
    assert(a <= raw <==> a * 1000 <= 3 * e);
}

/// The connection status of a tag.
pub fn evaluate_tag_connection_status(input: TagStatusInput<'_>) -> (r: TagConnectionStatus)
    requires
        tag_status_input_ok(input),
    ensures
        r == tag_status_spec(input),
{
    if !is_edge_online(input.edge_state, input.edge_age_secs, input.edge_stale_after_secs) {
        return TagConnectionStatus::Disconnected;
    }
    if let Some(conn_state) = input.connection_state {
        let state = classify_state(conn_state);
        if state == NormalState::Failed || state == NormalState::Disconnected {
            return TagConnectionStatus::Disconnected;
        }
        if state == NormalState::Connecting {
            return TagConnectionStatus::Stale;
        }
    }
    let expected_ms = match input.expected_interval_ms {
        Some(e) => e,
        None => return TagConnectionStatus::Connected,
    };
    if expected_ms <= 0 {
        return TagConnectionStatus::Connected;
    }
    let raw: i64 = (expected_ms * 3) / 1000;
    let stale_secs: i64 = if raw < 5 { 5 } else if raw > 300 { 300 } else { raw };
    if input.sample_age_secs <= stale_secs {
        TagConnectionStatus::Connected
    } else {
        TagConnectionStatus::Stale
    }
}

} // verus!
