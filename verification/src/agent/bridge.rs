//! The MQTT bridge's decisions: the health status of the outbox, the runtime-health
//! alert with its hysteresis and its duplicate window, the counters the health message
//! reports, and the answers to alert acknowledgements, config apply and reset requests.
//!
//! Time enters every function here as a plain number read by the caller.

use vstd::prelude::*;
use crate::agent::outbox::OutboxStats;
use crate::domain::error::DomainError;
use crate::keyed::StrMap;
use crate::text::{
    append_chars, append_str, chars_eq_str, chars_of, lower_seq, opt_string_view, owned, string_of,
    trim, trim_lower,
};

verus! {

/// The version of the MQTT message schema the bridge writes.
pub const MQTT_SCHEMA_VERSION_V1: u16 = 1;

/// The one alert type the bridge raises.
pub open spec fn runtime_alert_type() -> Seq<char> {
    "runtime_health_degraded"@
}

/// Whether the outbox is degraded: it holds at least `depth_warn` messages, or its
/// oldest message has waited at least `oldest_secs_warn` seconds (an empty outbox's
/// age counts as zero).
pub open spec fn health_degraded(stats: OutboxStats, depth_warn: usize, oldest_secs_warn: u64) -> bool {
    ||| stats.depth >= depth_warn
    ||| (match stats.oldest_age_secs {
        Some(a) => a,
        None => 0,
    }) >= oldest_secs_warn
}

/// The status word of the outbox: `degraded` or `ok`.
pub open spec fn health_status_spec(stats: OutboxStats, depth_warn: usize, oldest_secs_warn: u64) -> Seq<char> {
    if health_degraded(stats, depth_warn, oldest_secs_warn) {
        "degraded"@
    } else {
        "ok"@
    }
}

/// The status word the health message reports for the outbox.
pub fn compute_health_status(stats: &OutboxStats, depth_warn: usize, oldest_secs_warn: u64) -> (r: &'static str)
    ensures
        r@ == health_status_spec(*stats, depth_warn, oldest_secs_warn),
{
    if stats.depth >= depth_warn {
        return "degraded";
    }
    let age = match stats.oldest_age_secs {
        Some(a) => a,
        None => 0,
    };
    if age >= oldest_secs_warn {
        return "degraded";
    }
    "ok"
}

/// A change of the runtime-health alert.
#[derive(Debug, Clone, Copy, PartialEq, Eq, Structural)]
pub enum AlertTransition {
    Raised,
    Cleared,
}

/// The alert's hysteresis counters, whether it is raised, and when each alert key was
/// last published (in seconds).
#[derive(Debug)]
pub struct AlertState {
    pub degraded_streak: usize,
    pub recovered_streak: usize,
    pub active: bool,
    pub last_emitted: StrMap<i64>,
}

impl AlertState {
    /// The map of last emissions is well formed.
    pub open spec fn wf(&self) -> bool {
        self.last_emitted.wf()
    }
}

impl Default for AlertState {
    /// No streak, not raised, nothing emitted yet.
    fn default() -> (r: Self)
        ensures
            r.wf(),
            r.degraded_streak == 0,
            r.recovered_streak == 0,
            !r.active,
            r.last_emitted@ == Map::<Seq<char>, i64>::empty(),
    {
        AlertState { degraded_streak: 0, recovered_streak: 0, active: false, last_emitted: StrMap::new() }
    }
}

/// A threshold of zero counts as one.
pub open spec fn at_least_one(t: usize) -> int {
    if t == 0 {
        1
    } else {
        t as int
    }
}

/// One more, stopping at the largest `usize`.
pub open spec fn sat_inc(x: usize) -> usize {
    if x == usize::MAX {
        x
    } else {
        (x + 1) as usize
    }
}

/// One health report's effect on the counters `(degraded streak, recovered streak,
/// raised)`, and the transition it causes. A degraded report extends the degraded
/// streak and ends the recovered one; the alert is raised when, not yet raised, the
/// degraded streak reaches the threshold. A healthy report does the converse and
/// clears a raised alert.
pub open spec fn alert_next(
    d: usize,
    r: usize,
    active: bool,
    degraded: bool,
    degraded_threshold: usize,
    recovered_threshold: usize,
) -> (usize, usize, bool, Option<AlertTransition>) {
    if degraded {
        let nd = sat_inc(d);
        if !active && nd >= at_least_one(degraded_threshold) {
            (nd, 0, true, Some(AlertTransition::Raised))
        } else {
            (nd, 0, active, None)
        }
    } else {
        let nr = sat_inc(r);
        if active && nr >= at_least_one(recovered_threshold) {
            (0, nr, false, Some(AlertTransition::Cleared))
        } else {
            (0, nr, active, None)
        }
    }
}

/// Feeds one health status to the alert's hysteresis and returns the transition it
/// causes, if any.
pub fn evaluate_alert_transition(
    status: &str,
    state: &mut AlertState,
    degraded_threshold: usize,
    recovered_threshold: usize,
) -> (r: Option<AlertTransition>)
    ensures
        ({
            let n = alert_next(
                old(state).degraded_streak,
                old(state).recovered_streak,
                old(state).active,
                status@ == "degraded"@,
                degraded_threshold,
                recovered_threshold,
            );
            &&& final(state).degraded_streak == n.0
            &&& final(state).recovered_streak == n.1
            &&& final(state).active == n.2
            &&& r == n.3
        }),
        final(state).last_emitted == old(state).last_emitted,
{
    let sv = chars_of(status);
    let dthr = if degraded_threshold == 0 {
        1
    } else {
        degraded_threshold
    };
    let rthr = if recovered_threshold == 0 {
        1
    } else {
        recovered_threshold
    };
    if chars_eq_str(&sv, "degraded") {
        state.degraded_streak = state.degraded_streak.saturating_add(1);
        state.recovered_streak = 0;
        if !state.active && state.degraded_streak >= dthr {
            state.active = true;
            return Some(AlertTransition::Raised);
        }
    } else {
        state.recovered_streak = state.recovered_streak.saturating_add(1);
        state.degraded_streak = 0;
        if state.active && state.recovered_streak >= rthr {
            state.active = false;
            return Some(AlertTransition::Cleared);
        }
    }
    None
}

/// The counters and transitions after feeding a run of health reports (`true` for
/// degraded) to a fresh alert state, in order.
pub open spec fn alert_run(statuses: Seq<bool>, degraded_threshold: usize, recovered_threshold: usize) -> (
    usize,
    usize,
    bool,
    Seq<Option<AlertTransition>>,
)
    decreases statuses.len(),
{
    if statuses.len() == 0 {
        (0, 0, false, Seq::empty())
    } else {
        let prev = alert_run(statuses.drop_last(), degraded_threshold, recovered_threshold);
        let n = alert_next(prev.0, prev.1, prev.2, statuses.last(), degraded_threshold, recovered_threshold);
        (n.0, n.1, n.2, prev.3.push(n.3))
    }
}

/// The transitions that happened, in order.
pub open spec fn emitted(ts: Seq<Option<AlertTransition>>) -> Seq<AlertTransition>
    decreases ts.len(),
{
    if ts.len() == 0 {
        Seq::empty()
    } else {
        let e = emitted(ts.drop_last());
        match ts.last() {
            Some(t) => e.push(t),
            None => e,
        }
    }
}

/// How many of the last reports in a run equal `b`.
pub open spec fn trailing(s: Seq<bool>, b: bool) -> nat
    decreases s.len(),
{
    if s.len() > 0 && s.last() == b {
        trailing(s.drop_last(), b) + 1
    } else {
        0
    }
}

/// From a fresh state, the alert's transitions alternate, starting with a raise, and
/// the alert is raised exactly when the last transition was a raise.
pub proof fn lemma_alert_transitions_alternate(
    statuses: Seq<bool>,
    degraded_threshold: usize,
    recovered_threshold: usize,
)
    ensures
        ({
            let run = alert_run(statuses, degraded_threshold, recovered_threshold);
            let e = emitted(run.3);
            &&& forall|i: int|
                0 <= i < e.len() ==> #[trigger] e[i] == (if i % 2 == 0 {
                    AlertTransition::Raised
                } else {
                    AlertTransition::Cleared
                })
            &&& run.2 <==> e.len() % 2 == 1
        }),
    decreases statuses.len(),
{
    if statuses.len() > 0 {
        let s0 = statuses.drop_last();
        lemma_alert_transitions_alternate(s0, degraded_threshold, recovered_threshold);
        let prev = alert_run(s0, degraded_threshold, recovered_threshold);
        let n = alert_next(prev.0, prev.1, prev.2, statuses.last(), degraded_threshold, recovered_threshold);
        let ts = prev.3.push(n.3);
        assert(ts.drop_last() =~= prev.3);
        let e0 = emitted(prev.3);
        let e = emitted(ts);
        match n.3 {
            Some(t) => {
                assert(e == e0.push(t));
                assert forall|i: int| 0 <= i < e.len() implies #[trigger] e[i] == (if i % 2 == 0 {
                    AlertTransition::Raised
                } else {
                    AlertTransition::Cleared
                }) by {
                    if i < e0.len() {
                        assert(e[i] == e0[i]);
                    }
                }
            },
            None => {
                assert(e == e0);
            },
        }
    }
}

/// From a fresh state, over a run shorter than the largest `usize`, the streak counters
/// count the trailing degraded and the trailing healthy reports exactly.
pub proof fn lemma_alert_streaks_count_trailing(
    statuses: Seq<bool>,
    degraded_threshold: usize,
    recovered_threshold: usize,
)
    requires
        statuses.len() < usize::MAX,
    ensures
        ({
            let run = alert_run(statuses, degraded_threshold, recovered_threshold);
            &&& run.0 == trailing(statuses, true)
            &&& run.1 == trailing(statuses, false)
            &&& run.0 <= statuses.len()
            &&& run.1 <= statuses.len()
        }),
    decreases statuses.len(),
{
    if statuses.len() > 0 {
        let s0 = statuses.drop_last();
        lemma_alert_streaks_count_trailing(s0, degraded_threshold, recovered_threshold);
    }
}

/// From a fresh state, the alert is raised only by a report that completes a run of at
/// least the degraded threshold of consecutive degraded reports, and cleared only by one
/// that completes a run of at least the recovered threshold of healthy reports.
pub proof fn lemma_transitions_need_sustained_runs(
    statuses: Seq<bool>,
    degraded_threshold: usize,
    recovered_threshold: usize,
)
    requires
        statuses.len() > 0,
        statuses.len() < usize::MAX,
    ensures
        ({
            let run = alert_run(statuses, degraded_threshold, recovered_threshold);
            &&& run.3.last() == Some(AlertTransition::Raised) ==> trailing(statuses, true) >= at_least_one(
                degraded_threshold,
            )
            &&& run.3.last() == Some(AlertTransition::Cleared) ==> trailing(statuses, false)
                >= at_least_one(recovered_threshold)
        }),
{
    lemma_alert_streaks_count_trailing(statuses, degraded_threshold, recovered_threshold);
}

/// From a fresh state, a run of degraded reports raises the alert exactly at the report
/// that reaches the threshold, and not before.
pub proof fn lemma_sustained_degradation_raises_once(
    statuses: Seq<bool>,
    degraded_threshold: usize,
    recovered_threshold: usize,
)
    requires
        statuses.len() < usize::MAX,
        forall|i: int| 0 <= i < statuses.len() ==> statuses[i],
    ensures
        ({
            let run = alert_run(statuses, degraded_threshold, recovered_threshold);
            &&& run.2 <==> statuses.len() >= at_least_one(degraded_threshold)
            &&& forall|i: int|
                0 <= i < statuses.len() ==> (#[trigger] run.3[i] == (if i + 1 == at_least_one(
                    degraded_threshold,
                ) {
                    Some(AlertTransition::Raised)
                } else {
                    None::<AlertTransition>
                }))
            &&& run.3.len() == statuses.len()
            &&& run.0 == statuses.len()
        }),
    decreases statuses.len(),
{
    if statuses.len() > 0 {
        let s0 = statuses.drop_last();
        lemma_sustained_degradation_raises_once(s0, degraded_threshold, recovered_threshold);
        let prev = alert_run(s0, degraded_threshold, recovered_threshold);
        let run = alert_run(statuses, degraded_threshold, recovered_threshold);
        assert(statuses.last());
        assert forall|i: int| 0 <= i < statuses.len() implies (#[trigger] run.3[i] == (if i + 1
            == at_least_one(degraded_threshold) {
            Some(AlertTransition::Raised)
        } else {
            None::<AlertTransition>
        })) by {
            if i < s0.len() {
                assert(run.3[i] == prev.3[i]);
            }
        }
    }
}

/// The slot of a transition in an alert key.
pub open spec fn transition_slot(t: AlertTransition) -> Seq<char> {
    match t {
        AlertTransition::Raised => "raised"@,
        AlertTransition::Cleared => "cleared"@,
    }
}

/// The key under which an alert's emissions are remembered: the alert type, a colon,
/// and the slot of the transition.
pub open spec fn alert_key(alert_type: Seq<char>, t: AlertTransition) -> Seq<char> {
    alert_type + ":"@ + transition_slot(t)
}

/// Whether an emission at `last` still blocks one at `now`: the time since it, never
/// counted below zero, is shorter than the window (taken as a signed number).
pub open spec fn within_window(last: i64, now: i64, window_secs: u64) -> bool {
    let elapsed: int = if now - last > 0 {
        now - last
    } else {
        0
    };
    elapsed < (window_secs as i64) as int
}

/// Whether an alert is published: not when the same key was published within the
/// window before.
pub open spec fn emit_decision(last_emitted: Map<Seq<char>, i64>, key: Seq<char>, now: i64, window_secs: u64) -> bool {
    !(last_emitted.contains_key(key) && within_window(last_emitted[key], now, window_secs))
}

/// The alert key of a transition.
fn alert_key_string(alert_type: &str, transition: AlertTransition) -> (r: String)
    ensures
        r@ == alert_key(alert_type@, transition),
{
    let mut key = owned(alert_type);
    append_str(&mut key, ":");
    match transition {
        AlertTransition::Raised => append_str(&mut key, "raised"),
        AlertTransition::Cleared => append_str(&mut key, "cleared"),
    }
    key
}

/// Whether an alert of this type and transition is published at `now_secs`; when it
/// is, the time is remembered for its key.
pub fn should_emit_alert_for_window(
    state: &mut AlertState,
    alert_type: &str,
    transition: AlertTransition,
    window_secs: u64,
    now_secs: i64,
) -> (r: bool)
    requires
        old(state).wf(),
    ensures
        final(state).wf(),
        r == emit_decision(old(state).last_emitted@, alert_key(alert_type@, transition), now_secs, window_secs),
        r ==> final(state).last_emitted@ == old(state).last_emitted@.insert(
            alert_key(alert_type@, transition),
            now_secs,
        ),
        !r ==> final(state).last_emitted@ == old(state).last_emitted@,
        final(state).degraded_streak == old(state).degraded_streak,
        final(state).recovered_streak == old(state).recovered_streak,
        final(state).active == old(state).active,
{
    let key = alert_key_string(alert_type, transition);
    match state.last_emitted.get(key.as_str()) {
        Some(last) => {
            let diff: i128 = (now_secs as i128) - (*last as i128);
            let elapsed: i128 = if diff > 0 {
                diff
            } else {
                0
            };
            let window: i64 = window_secs as i64;
            if elapsed < window as i128 {
                return false;
            }
        },
        None => {},
    }
    state.last_emitted.insert(key, now_secs);
    true
}

/// Once an alert key is published, the same key is not published again within the
/// window (for a window that fits a signed number), whatever else happened meanwhile to
/// other keys.
pub proof fn lemma_emission_blocks_repeat_within_window(
    last_emitted: Map<Seq<char>, i64>,
    key: Seq<char>,
    other_keys: Map<Seq<char>, i64>,
    t1: i64,
    t2: i64,
    window_secs: u64,
)
    requires
        window_secs <= i64::MAX,
        t1 <= t2,
        t2 - t1 < window_secs,
        !other_keys.contains_key(key),
    ensures
        !emit_decision(last_emitted.insert(key, t1).union_prefer_right(other_keys), key, t2, window_secs),
{
}

/// The keys of a raise and of a clear differ, so a recent raise never holds back the
/// clear that follows it, nor the other way round.
pub proof fn lemma_raise_and_clear_keys_differ(alert_type: Seq<char>)
    ensures
        alert_key(alert_type, AlertTransition::Raised) != alert_key(alert_type, AlertTransition::Cleared),
{
    reveal_strlit("raised");
    reveal_strlit("cleared");
    reveal_strlit(":");
    let a = alert_key(alert_type, AlertTransition::Raised);
    let b = alert_key(alert_type, AlertTransition::Cleared);
    assert(a.len() != b.len());
}

/// An alert published for the runtime health.
#[derive(Debug, Clone)]
pub struct EdgeAlertMqttMessage {
    pub schema_version: u16,
    pub source: String,
    pub severity: String,
    pub alert_type: String,
    pub state: String,
    pub message: String,
    pub outbox_depth: usize,
    pub outbox_oldest_age_secs: Option<u64>,
    /// Milliseconds since the Unix epoch.
    pub timestamp_ms: i64,
}

/// The text of an alert message for a transition.
pub open spec fn alert_text(t: AlertTransition) -> Seq<char> {
    match t {
        AlertTransition::Raised => "Runtime degraded sustained above threshold"@,
        AlertTransition::Cleared => "Runtime health recovered sustained above threshold"@,
    }
}

/// The alert published for a transition: a warning while the status is `degraded`,
/// information otherwise, of the runtime-health type, in the transition's state, with
/// the outbox's figures.
pub fn build_alert_message(
    source: &str,
    status: &str,
    transition: AlertTransition,
    stats: &OutboxStats,
    timestamp_ms: i64,
) -> (r: EdgeAlertMqttMessage)
    ensures
        r.schema_version == MQTT_SCHEMA_VERSION_V1,
        r.source@ == source@,
        r.severity@ == (if status@ == "degraded"@ {
            "warning"@
        } else {
            "info"@
        }),
        r.alert_type@ == runtime_alert_type(),
        r.state@ == transition_slot(transition),
        r.message@ == alert_text(transition),
        r.outbox_depth == stats.depth,
        r.outbox_oldest_age_secs == stats.oldest_age_secs,
        r.timestamp_ms == timestamp_ms,
{
    let (state, message) = match transition {
        AlertTransition::Raised => ("raised", "Runtime degraded sustained above threshold"),
        AlertTransition::Cleared => ("cleared", "Runtime health recovered sustained above threshold"),
    };
    let sv = chars_of(status);
    let severity = if chars_eq_str(&sv, "degraded") {
        "warning"
    } else {
        "info"
    };
    EdgeAlertMqttMessage {
        schema_version: MQTT_SCHEMA_VERSION_V1,
        source: owned(source),
        severity: owned(severity),
        alert_type: owned("runtime_health_degraded"),
        state: owned(state),
        message: owned(message),
        outbox_depth: stats.depth,
        outbox_oldest_age_secs: stats.oldest_age_secs,
        timestamp_ms,
    }
}

/// A copy of an optional string.
pub fn clone_opt_string(o: &Option<String>) -> (r: Option<String>)
    ensures
        r == *o,
{
    match o {
        Some(s) => Some(s.clone()),
        None => None,
    }
}

/// `prefix` followed by `detail`.
pub(crate) fn prefixed(prefix: &str, detail: &str) -> (r: String)
    ensures
        r@ == prefix@ + detail@,
{
    let mut s = owned(prefix);
    append_str(&mut s, detail);
    s
}

/// An operator's acknowledgement of an alert.
#[derive(Debug, Clone)]
pub struct AlertAckCommandMessage {
    pub schema_version: Option<u16>,
    pub source: Option<String>,
    pub alert_type: String,
    pub ack_id: Option<String>,
    pub operator: Option<String>,
}

/// The answer to an alert acknowledgement.
#[derive(Debug, Clone)]
pub struct AlertAckResultMessage {
    pub schema_version: u16,
    pub source: String,
    pub alert_type: String,
    pub ack_id: Option<String>,
    pub accepted: bool,
    pub reason: Option<String>,
    /// Milliseconds since the Unix epoch.
    pub timestamp_ms: i64,
}

/// Answers an alert acknowledgement, given the parsed command or the parser's error
/// text. An acknowledgement of the raised runtime-health alert lowers it and resets both
/// streaks; one of another type, or while the alert is not raised, is refused and
/// changes nothing; an unreadable payload is refused for the runtime-health type.
pub fn handle_alert_ack(
    state: &mut AlertState,
    source: &str,
    parsed: Result<AlertAckCommandMessage, String>,
    timestamp_ms: i64,
) -> (r: AlertAckResultMessage)
    ensures
        r.schema_version == MQTT_SCHEMA_VERSION_V1,
        r.source@ == source@,
        r.timestamp_ms == timestamp_ms,
        final(state).last_emitted == old(state).last_emitted,
        r.accepted ==> final(state).degraded_streak == 0 && final(state).recovered_streak == 0
            && !final(state).active,
        !r.accepted ==> final(state).degraded_streak == old(state).degraded_streak
            && final(state).recovered_streak == old(state).recovered_streak
            && final(state).active == old(state).active,
        match parsed {
            Err(e) => {
                &&& r.alert_type@ == runtime_alert_type()
                &&& r.ack_id is None
                &&& !r.accepted
                &&& opt_string_view(r.reason) == Some("invalid alert ack payload: "@ + e@)
            },
            Ok(cmd) => {
                &&& r.alert_type@ == cmd.alert_type@
                &&& r.ack_id == cmd.ack_id
                &&& r.accepted == (cmd.alert_type@ == runtime_alert_type() && old(state).active)
                &&& opt_string_view(r.reason) == (if cmd.alert_type@ != runtime_alert_type() {
                    Some("unsupported alert_type"@)
                } else if old(state).active {
                    None
                } else {
                    Some("alert not active"@)
                })
            },
        },
{
    match parsed {
        Err(e) => AlertAckResultMessage {
            schema_version: MQTT_SCHEMA_VERSION_V1,
            source: owned(source),
            alert_type: owned("runtime_health_degraded"),
            ack_id: None,
            accepted: false,
            reason: Some(prefixed("invalid alert ack payload: ", e.as_str())),
            timestamp_ms,
        },
        Ok(cmd) => {
            let at = chars_of(cmd.alert_type.as_str());
            let (accepted, reason) = if !chars_eq_str(&at, "runtime_health_degraded") {
                (false, Some(owned("unsupported alert_type")))
            } else if state.active {
                state.active = false;
                state.degraded_streak = 0;
                state.recovered_streak = 0;
                (true, None)
            } else {
                (false, Some(owned("alert not active")))
            };
            AlertAckResultMessage {
                schema_version: MQTT_SCHEMA_VERSION_V1,
                source: owned(source),
                alert_type: cmd.alert_type,
                ack_id: cmd.ack_id,
                accepted,
                reason,
                timestamp_ms,
            }
        },
    }
}

/// Where the edge's configuration stands against central's.
#[derive(Debug, Clone, Copy, PartialEq, Eq, Structural)]
pub enum ConfigSyncPhase {
    Unknown,
    InSync,
    ChangedStaged,
    Error,
    ApplyRequested,
}

impl ConfigSyncPhase {
    /// The word the health message reports.
    pub open spec fn word(self) -> Seq<char> {
        match self {
            ConfigSyncPhase::Unknown => "unknown"@,
            ConfigSyncPhase::InSync => "in_sync"@,
            ConfigSyncPhase::ChangedStaged => "changed_staged"@,
            ConfigSyncPhase::Error => "error"@,
            ConfigSyncPhase::ApplyRequested => "apply_requested"@,
        }
    }

    /// The word the health message reports.
    pub fn as_str(self) -> (r: &'static str)
        ensures
            r@ == self.word(),
    {
        match self {
            ConfigSyncPhase::Unknown => "unknown",
            ConfigSyncPhase::InSync => "in_sync",
            ConfigSyncPhase::ChangedStaged => "changed_staged",
            ConfigSyncPhase::Error => "error",
            ConfigSyncPhase::ApplyRequested => "apply_requested",
        }
    }
}

/// What a periodic check of central's configuration found.
#[derive(Debug, Clone)]
pub enum ConfigCheckOutcome {
    /// A different configuration, of this hash, was fetched and staged.
    Changed(String),
    /// Central's configuration is the one running.
    Unchanged,
    /// The check failed.
    Failed,
}

/// The hash of the running configuration, the hash of the staged one, where the two
/// stand, and when central was last asked.
#[derive(Debug, Clone)]
pub struct ConfigSyncState {
    pub current_hash: Option<String>,
    pub sync_state: ConfigSyncPhase,
    pub target_hash: Option<String>,
    /// Milliseconds since the Unix epoch.
    pub last_check_at_ms: Option<i64>,
}

impl ConfigSyncState {
    /// A state that knows only the running configuration's hash.
    pub fn new(current_hash: Option<String>) -> (r: Self)
        ensures
            r.current_hash == current_hash,
            r.sync_state == ConfigSyncPhase::Unknown,
            r.target_hash is None,
            r.last_check_at_ms is None,
    {
        ConfigSyncState { current_hash, sync_state: ConfigSyncPhase::Unknown, target_hash: None, last_check_at_ms: None }
    }

    /// Whether a configuration different from the running one is staged and waits to be
    /// applied.
    pub open spec fn has_staged_change_spec(&self) -> bool {
        &&& self.sync_state == ConfigSyncPhase::ChangedStaged
        &&& self.target_hash is Some
        &&& opt_string_view(self.target_hash) != opt_string_view(self.current_hash)
    }

    /// Whether a configuration different from the running one is staged and waits to be
    /// applied.
    pub fn has_staged_change(&self) -> (r: bool)
        ensures
            r == self.has_staged_change_spec(),
    {
        if self.sync_state != ConfigSyncPhase::ChangedStaged {
            return false;
        }
        match (&self.target_hash, &self.current_hash) {
            (Some(t), Some(c)) => {
                let tv = chars_of(t.as_str());
                !chars_eq_str(&tv, c.as_str())
            },
            (Some(_), None) => true,
            (None, _) => false,
        }
    }

    /// Records the outcome of a check of central's configuration made at `now_ms`: a
    /// staged change becomes the target, an unchanged configuration puts the edge in
    /// sync with its running hash as the target, a failure is recorded as an error with
    /// the target kept.
    pub fn record_check(&mut self, outcome: ConfigCheckOutcome, now_ms: i64)
        ensures
            final(self).last_check_at_ms == Some(now_ms),
            final(self).current_hash == old(self).current_hash,
            match outcome {
                ConfigCheckOutcome::Changed(h) => final(self).sync_state == ConfigSyncPhase::ChangedStaged
                    && final(self).target_hash == Some(h),
                ConfigCheckOutcome::Unchanged => final(self).sync_state == ConfigSyncPhase::InSync
                    && final(self).target_hash == old(self).current_hash,
                ConfigCheckOutcome::Failed => final(self).sync_state == ConfigSyncPhase::Error
                    && final(self).target_hash == old(self).target_hash,
            },
    {
        self.last_check_at_ms = Some(now_ms);
        match outcome {
            ConfigCheckOutcome::Changed(h) => {
                self.target_hash = Some(h);
                self.sync_state = ConfigSyncPhase::ChangedStaged;
            },
            ConfigCheckOutcome::Unchanged => {
                self.target_hash = clone_opt_string(&self.current_hash);
                self.sync_state = ConfigSyncPhase::InSync;
            },
            ConfigCheckOutcome::Failed => {
                self.sync_state = ConfigSyncPhase::Error;
            },
        }
    }
}

/// A request from central to apply the staged configuration.
#[derive(Debug, Clone)]
pub struct ConfigApplyCommandMessage {
    pub schema_version: Option<u16>,
    pub source: Option<String>,
    pub request_id: Option<String>,
}

/// The answer to a config apply request.
#[derive(Debug, Clone)]
pub struct ConfigApplyResultMessage {
    pub schema_version: u16,
    pub source: String,
    pub request_id: Option<String>,
    pub accepted: bool,
    pub reason: Option<String>,
    pub current_config_hash: Option<String>,
    pub target_config_hash: Option<String>,
    /// Milliseconds since the Unix epoch.
    pub timestamp_ms: i64,
}

/// What the edge writes down before restarting to apply a configuration, so that it can
/// report the apply once it is back.
#[derive(Debug, Clone)]
pub struct ConfigApplyReceipt {
    pub request_id: Option<String>,
    pub target_config_hash: Option<String>,
    /// Milliseconds since the Unix epoch.
    pub requested_at_ms: i64,
}

/// The answer to a config apply request, the receipt to write where it is accepted,
/// and whether the edge restarts.
#[derive(Debug, Clone)]
pub struct ConfigApplyOutcome {
    pub result: ConfigApplyResultMessage,
    pub receipt: Option<ConfigApplyReceipt>,
    pub restart_requested: bool,
}

/// The first of two optional strings that is present.
pub open spec fn or_opt(a: Option<String>, b: Option<String>) -> Option<String> {
    match a {
        Some(x) => Some(x),
        None => b,
    }
}

/// Answers a config apply request, given the parsed command or the parser's error text.
/// A readable request while a change is staged is accepted: the state becomes
/// `apply_requested`, a receipt with the request's id and the staged hash is to be
/// written, and the edge restarts. Otherwise it is refused and nothing changes. The
/// answer reports the running hash (the given one, else the state's) and the staged one.
pub fn handle_config_apply(
    sync: &mut ConfigSyncState,
    source: &str,
    parsed: Result<ConfigApplyCommandMessage, String>,
    current_config_hash: Option<String>,
    now_ms: i64,
) -> (r: ConfigApplyOutcome)
    ensures
        r.restart_requested == (parsed is Ok && old(sync).has_staged_change_spec()),
        r.result.accepted == r.restart_requested,
        r.receipt is Some <==> r.restart_requested,
        r.restart_requested ==> final(sync).sync_state == ConfigSyncPhase::ApplyRequested,
        !r.restart_requested ==> final(sync).sync_state == old(sync).sync_state,
        final(sync).current_hash == old(sync).current_hash,
        final(sync).target_hash == old(sync).target_hash,
        final(sync).last_check_at_ms == old(sync).last_check_at_ms,
        r.result.schema_version == MQTT_SCHEMA_VERSION_V1,
        r.result.source@ == source@,
        r.result.timestamp_ms == now_ms,
        r.result.current_config_hash == or_opt(current_config_hash, old(sync).current_hash),
        r.result.target_config_hash == old(sync).target_hash,
        match parsed {
            Err(e) => r.result.request_id is None && opt_string_view(r.result.reason) == Some(
                "invalid config apply payload: "@ + e@,
            ),
            Ok(cmd) => r.result.request_id == cmd.request_id && opt_string_view(r.result.reason) == Some(
                if old(sync).has_staged_change_spec() {
                    "staged config accepted; edge restart requested"@
                } else {
                    "no staged config change to apply"@
                },
            ),
        },
        r.receipt matches Some(rc) ==> parsed matches Ok(cmd) && rc.request_id == cmd.request_id
            && rc.target_config_hash == old(sync).target_hash && rc.requested_at_ms == now_ms,
{
    let staged = sync.has_staged_change();
    let current = match current_config_hash {
        Some(h) => Some(h),
        None => clone_opt_string(&sync.current_hash),
    };
    let target = clone_opt_string(&sync.target_hash);
    match parsed {
        Err(e) => ConfigApplyOutcome {
            result: ConfigApplyResultMessage {
                schema_version: MQTT_SCHEMA_VERSION_V1,
                source: owned(source),
                request_id: None,
                accepted: false,
                reason: Some(prefixed("invalid config apply payload: ", e.as_str())),
                current_config_hash: current,
                target_config_hash: target,
                timestamp_ms: now_ms,
            },
            receipt: None,
            restart_requested: false,
        },
        Ok(cmd) => {
            if staged {
                sync.sync_state = ConfigSyncPhase::ApplyRequested;
                let receipt = ConfigApplyReceipt {
                    request_id: clone_opt_string(&cmd.request_id),
                    target_config_hash: clone_opt_string(&sync.target_hash),
                    requested_at_ms: now_ms,
                };
                ConfigApplyOutcome {
                    result: ConfigApplyResultMessage {
                        schema_version: MQTT_SCHEMA_VERSION_V1,
                        source: owned(source),
                        request_id: cmd.request_id,
                        accepted: true,
                        reason: Some(owned("staged config accepted; edge restart requested")),
                        current_config_hash: current,
                        target_config_hash: target,
                        timestamp_ms: now_ms,
                    },
                    receipt: Some(receipt),
                    restart_requested: true,
                }
            } else {
                ConfigApplyOutcome {
                    result: ConfigApplyResultMessage {
                        schema_version: MQTT_SCHEMA_VERSION_V1,
                        source: owned(source),
                        request_id: cmd.request_id,
                        accepted: false,
                        reason: Some(owned("no staged config change to apply")),
                        current_config_hash: current,
                        target_config_hash: target,
                        timestamp_ms: now_ms,
                    },
                    receipt: None,
                    restart_requested: false,
                }
            }
        },
    }
}

/// Once an apply has been accepted, no further apply restarts the edge until a new
/// check stages a change again.
pub proof fn lemma_apply_accepted_once(sync: ConfigSyncState)
    requires
        sync.sync_state == ConfigSyncPhase::ApplyRequested,
    ensures
        !sync.has_staged_change_spec(),
{
}

/// The report, after the restart, that a staged configuration was applied: accepted,
/// for the receipt's request and staged hash, with the hash now running.
pub fn build_applied_after_restart_result(
    source: &str,
    receipt: &ConfigApplyReceipt,
    config_hash: Option<String>,
    now_ms: i64,
) -> (r: ConfigApplyResultMessage)
    ensures
        r.schema_version == MQTT_SCHEMA_VERSION_V1,
        r.source@ == source@,
        r.request_id == receipt.request_id,
        r.accepted,
        opt_string_view(r.reason) == Some("applied_after_restart"@),
        r.current_config_hash == config_hash,
        r.target_config_hash == receipt.target_config_hash,
        r.timestamp_ms == now_ms,
{
    ConfigApplyResultMessage {
        schema_version: MQTT_SCHEMA_VERSION_V1,
        source: owned(source),
        request_id: clone_opt_string(&receipt.request_id),
        accepted: true,
        reason: Some(owned("applied_after_restart")),
        current_config_hash: config_hash,
        target_config_hash: clone_opt_string(&receipt.target_config_hash),
        timestamp_ms: now_ms,
    }
}

/// A request from central to restart the edge.
#[derive(Debug, Clone)]
pub struct ControlResetCommandMessage {
    pub schema_version: Option<u16>,
    pub source: Option<String>,
    pub request_id: Option<String>,
    pub reason: Option<String>,
    pub operator: Option<String>,
}

/// The answer to a reset request.
#[derive(Debug, Clone)]
pub struct ControlResetResultMessage {
    pub schema_version: u16,
    pub source: String,
    pub request_id: Option<String>,
    pub accepted: bool,
    pub reason: Option<String>,
    /// Milliseconds since the Unix epoch.
    pub timestamp_ms: i64,
}

/// Answers a reset request, given the parsed command or the parser's error text: every
/// readable request is accepted and restarts the edge; an unreadable one is refused.
pub fn handle_control_reset(
    source: &str,
    parsed: Result<ControlResetCommandMessage, String>,
    now_ms: i64,
) -> (r: (ControlResetResultMessage, bool))
    ensures
        r.1 == parsed is Ok,
        r.0.accepted == r.1,
        r.0.schema_version == MQTT_SCHEMA_VERSION_V1,
        r.0.source@ == source@,
        r.0.timestamp_ms == now_ms,
        match parsed {
            Err(e) => r.0.request_id is None && opt_string_view(r.0.reason) == Some(
                "invalid reset payload: "@ + e@,
            ),
            Ok(cmd) => r.0.request_id == cmd.request_id && opt_string_view(r.0.reason) == Some(
                "edge reset requested"@,
            ),
        },
{
    match parsed {
        Ok(cmd) => (
            ControlResetResultMessage {
                schema_version: MQTT_SCHEMA_VERSION_V1,
                source: owned(source),
                request_id: cmd.request_id,
                accepted: true,
                reason: Some(owned("edge reset requested")),
                timestamp_ms: now_ms,
            },
            true,
        ),
        Err(e) => (
            ControlResetResultMessage {
                schema_version: MQTT_SCHEMA_VERSION_V1,
                source: owned(source),
                request_id: None,
                accepted: false,
                reason: Some(prefixed("invalid reset payload: ", e.as_str())),
                timestamp_ms: now_ms,
            },
            false,
        ),
    }
}

/// The priority of a write command.
#[derive(Debug, Clone, Copy, PartialEq, Eq, Structural)]
pub enum WritePriority {
    Normal,
    High,
}

/// The priority a write command asks for: none, blank or `normal` is normal, `high` is
/// high (both after trimming and ASCII lower-casing); anything else is a configuration
/// error naming the normalized word.
pub fn parse_write_priority(priority: Option<&str>) -> (r: Result<WritePriority, DomainError>)
    ensures
        match priority {
            None => r == Ok::<WritePriority, DomainError>(WritePriority::Normal),
            Some(p) => {
                let w = lower_seq(trim(p@));
                if w.len() == 0 || w == "normal"@ {
                    r == Ok::<WritePriority, DomainError>(WritePriority::Normal)
                } else if w == "high"@ {
                    r == Ok::<WritePriority, DomainError>(WritePriority::High)
                } else {
                    r matches Err(DomainError::ConfigurationError(m)) && m@ == "unsupported write priority '"@
                        + w + "'"@
                }
            },
        },
{
    match priority {
        None => Ok(WritePriority::Normal),
        Some(p) => {
            let w = trim_lower(p);
            if w.len() == 0 || chars_eq_str(&w, "normal") {
                Ok(WritePriority::Normal)
            } else if chars_eq_str(&w, "high") {
                Ok(WritePriority::High)
            } else {
                let mut m = owned("unsupported write priority '");
                append_chars(&mut m, &w);
                append_str(&mut m, "'");
                Err(DomainError::ConfigurationError(m))
            }
        },
    }
}

/// `x + n` wrapped around at 2^64, as an atomic counter's `fetch_add` does.
pub open spec fn wrap_add(x: u64, n: u64) -> u64 {
    ((x + n) % 0x1_0000_0000_0000_0000int) as u64
}

/// `x + n` wrapped around at 2^64.
fn wrapping_plus(x: u64, n: u64) -> (r: u64)
    ensures
        r == wrap_add(x, n),
{
    let s: u128 = (x as u128) + (n as u128);
    let w: u128 = s % 0x1_0000_0000_0000_0000u128;
    w as u64
}

/// One more, stopping at the largest `u64`.
pub open spec fn sat_inc64(x: u64) -> u64 {
    if x == u64::MAX {
        x
    } else {
        (x + 1) as u64
    }
}

/// The counters kept per action type.
#[derive(Debug, Clone, Copy, PartialEq, Eq, Structural)]
pub struct ActionTypeMetrics {
    pub received_total: u64,
    pub accepted_total: u64,
    pub failed_total: u64,
}

impl Default for ActionTypeMetrics {
    /// All counters at zero.
    fn default() -> (r: Self)
        ensures
            r == (ActionTypeMetrics { received_total: 0, accepted_total: 0, failed_total: 0 }),
    {
        ActionTypeMetrics { received_total: 0, accepted_total: 0, failed_total: 0 }
    }
}

/// Which per-action counter to advance.
#[derive(Debug, Clone, Copy, PartialEq, Eq, Structural)]
pub enum ActionCounter {
    Received,
    Accepted,
    Failed,
}

/// The counters after advancing one of them by one (stopping at the largest `u64`).
pub open spec fn bump(m: ActionTypeMetrics, c: ActionCounter) -> ActionTypeMetrics {
    match c {
        ActionCounter::Received => ActionTypeMetrics { received_total: sat_inc64(m.received_total), ..m },
        ActionCounter::Accepted => ActionTypeMetrics { accepted_total: sat_inc64(m.accepted_total), ..m },
        ActionCounter::Failed => ActionTypeMetrics { failed_total: sat_inc64(m.failed_total), ..m },
    }
}

/// The key an action type is counted under: trimmed and ASCII lower-cased.
pub open spec fn action_key(action_type: Seq<char>) -> Seq<char> {
    lower_seq(trim(action_type))
}

/// The per-action counters after advancing `c` for `action_type`: nothing changes for a
/// blank type; otherwise the type's counters, zero where it had none, are advanced.
pub open spec fn bump_action(
    m: Map<Seq<char>, ActionTypeMetrics>,
    action_type: Seq<char>,
    c: ActionCounter,
) -> Map<Seq<char>, ActionTypeMetrics> {
    let k = action_key(action_type);
    if k.len() == 0 {
        m
    } else {
        let cur = if m.contains_key(k) {
            m[k]
        } else {
            ActionTypeMetrics { received_total: 0, accepted_total: 0, failed_total: 0 }
        };
        m.insert(k, bump(cur, c))
    }
}

/// The bridge's counters for the health message.
#[derive(Debug)]
pub struct BridgeMetrics {
    pub cmd_received_total: u64,
    pub cmd_failed_total: u64,
    pub ack_publish_fail_total: u64,
    pub audit_publish_fail_total: u64,
    pub outbox_enqueued_total: u64,
    pub outbox_flushed_total: u64,
    pub alert_raised_total: u64,
    pub alert_cleared_total: u64,
    pub alert_ack_received_total: u64,
    pub alert_ack_accepted_total: u64,
    pub alert_publish_fail_total: u64,
    pub action_metrics: StrMap<ActionTypeMetrics>,
}

/// The bridge's counters that a given event advances.
#[derive(Debug, Clone, Copy, PartialEq, Eq, Structural)]
pub enum BridgeCounter {
    CmdReceived,
    CmdFailed,
    AckPublishFail,
    AuditPublishFail,
    OutboxEnqueued,
    OutboxFlushed,
    AlertRaised,
    AlertCleared,
    AlertAckReceived,
    AlertAckAccepted,
    AlertPublishFail,
}

impl BridgeMetrics {
    /// The per-action map is well formed.
    pub open spec fn wf(&self) -> bool {
        self.action_metrics.wf()
    }

    /// The value of one counter.
    pub open spec fn counter(&self, c: BridgeCounter) -> u64 {
        match c {
            BridgeCounter::CmdReceived => self.cmd_received_total,
            BridgeCounter::CmdFailed => self.cmd_failed_total,
            BridgeCounter::AckPublishFail => self.ack_publish_fail_total,
            BridgeCounter::AuditPublishFail => self.audit_publish_fail_total,
            BridgeCounter::OutboxEnqueued => self.outbox_enqueued_total,
            BridgeCounter::OutboxFlushed => self.outbox_flushed_total,
            BridgeCounter::AlertRaised => self.alert_raised_total,
            BridgeCounter::AlertCleared => self.alert_cleared_total,
            BridgeCounter::AlertAckReceived => self.alert_ack_received_total,
            BridgeCounter::AlertAckAccepted => self.alert_ack_accepted_total,
            BridgeCounter::AlertPublishFail => self.alert_publish_fail_total,
        }
    }

    /// All counters at zero, no action counted.
    pub fn new() -> (r: Self)
        ensures
            r.wf(),
            forall|c: BridgeCounter| #[trigger] r.counter(c) == 0,
            r.action_metrics@ == Map::<Seq<char>, ActionTypeMetrics>::empty(),
    {
        BridgeMetrics {
            cmd_received_total: 0,
            cmd_failed_total: 0,
            ack_publish_fail_total: 0,
            audit_publish_fail_total: 0,
            outbox_enqueued_total: 0,
            outbox_flushed_total: 0,
            alert_raised_total: 0,
            alert_cleared_total: 0,
            alert_ack_received_total: 0,
            alert_ack_accepted_total: 0,
            alert_publish_fail_total: 0,
            action_metrics: StrMap::new(),
        }
    }

    /// Adds `n` to one counter, wrapping around at 2^64; nothing else changes.
    pub fn add(&mut self, c: BridgeCounter, n: u64)
        ensures
            final(self).counter(c) == wrap_add(old(self).counter(c), n),
            forall|o: BridgeCounter| o != c ==> #[trigger] final(self).counter(o) == old(self).counter(o),
            final(self).action_metrics == old(self).action_metrics,
    {
        match c {
            BridgeCounter::CmdReceived => self.cmd_received_total = wrapping_plus(self.cmd_received_total, n),
            BridgeCounter::CmdFailed => self.cmd_failed_total = wrapping_plus(self.cmd_failed_total, n),
            BridgeCounter::AckPublishFail => self.ack_publish_fail_total = wrapping_plus(
                self.ack_publish_fail_total,
                n,
            ),
            BridgeCounter::AuditPublishFail => self.audit_publish_fail_total = wrapping_plus(
                self.audit_publish_fail_total,
                n,
            ),
            BridgeCounter::OutboxEnqueued => self.outbox_enqueued_total = wrapping_plus(
                self.outbox_enqueued_total,
                n,
            ),
            BridgeCounter::OutboxFlushed => self.outbox_flushed_total = wrapping_plus(
                self.outbox_flushed_total,
                n,
            ),
            BridgeCounter::AlertRaised => self.alert_raised_total = wrapping_plus(self.alert_raised_total, n),
            BridgeCounter::AlertCleared => self.alert_cleared_total = wrapping_plus(self.alert_cleared_total, n),
            BridgeCounter::AlertAckReceived => self.alert_ack_received_total = wrapping_plus(
                self.alert_ack_received_total,
                n,
            ),
            BridgeCounter::AlertAckAccepted => self.alert_ack_accepted_total = wrapping_plus(
                self.alert_ack_accepted_total,
                n,
            ),
            BridgeCounter::AlertPublishFail => self.alert_publish_fail_total = wrapping_plus(
                self.alert_publish_fail_total,
                n,
            ),
        }
    }

    /// One more write or action command received.
    pub fn inc_cmd_received(&mut self)
        ensures
            final(self).counter(BridgeCounter::CmdReceived) == wrap_add(old(self).cmd_received_total, 1),
            forall|o: BridgeCounter|
                o != BridgeCounter::CmdReceived ==> #[trigger] final(self).counter(o) == old(self).counter(o),
            final(self).action_metrics == old(self).action_metrics,
    {
        self.add(BridgeCounter::CmdReceived, 1)
    }

    /// One more write command that failed.
    pub fn inc_cmd_failed(&mut self)
        ensures
            final(self).counter(BridgeCounter::CmdFailed) == wrap_add(old(self).cmd_failed_total, 1),
            forall|o: BridgeCounter|
                o != BridgeCounter::CmdFailed ==> #[trigger] final(self).counter(o) == old(self).counter(o),
            final(self).action_metrics == old(self).action_metrics,
    {
        self.add(BridgeCounter::CmdFailed, 1)
    }

    /// One more acknowledgement that could not be published.
    pub fn inc_ack_publish_fail(&mut self)
        ensures
            final(self).counter(BridgeCounter::AckPublishFail) == wrap_add(old(self).ack_publish_fail_total, 1),
            forall|o: BridgeCounter|
                o != BridgeCounter::AckPublishFail ==> #[trigger] final(self).counter(o) == old(self).counter(o),
            final(self).action_metrics == old(self).action_metrics,
    {
        self.add(BridgeCounter::AckPublishFail, 1)
    }

    /// One more audit message that could not be published.
    pub fn inc_audit_publish_fail(&mut self)
        ensures
            final(self).counter(BridgeCounter::AuditPublishFail) == wrap_add(
                old(self).audit_publish_fail_total,
                1,
            ),
            forall|o: BridgeCounter|
                o != BridgeCounter::AuditPublishFail ==> #[trigger] final(self).counter(o) == old(self).counter(
                    o,
                ),
            final(self).action_metrics == old(self).action_metrics,
    {
        self.add(BridgeCounter::AuditPublishFail, 1)
    }

    /// One more message stored in the outbox.
    pub fn inc_outbox_enqueued(&mut self)
        ensures
            final(self).counter(BridgeCounter::OutboxEnqueued) == wrap_add(old(self).outbox_enqueued_total, 1),
            forall|o: BridgeCounter|
                o != BridgeCounter::OutboxEnqueued ==> #[trigger] final(self).counter(o) == old(self).counter(o),
            final(self).action_metrics == old(self).action_metrics,
    {
        self.add(BridgeCounter::OutboxEnqueued, 1)
    }

    /// `n` more messages delivered from the outbox.
    pub fn add_outbox_flushed(&mut self, n: usize)
        ensures
            final(self).counter(BridgeCounter::OutboxFlushed) == wrap_add(
                old(self).outbox_flushed_total,
                n as u64,
            ),
            forall|o: BridgeCounter|
                o != BridgeCounter::OutboxFlushed ==> #[trigger] final(self).counter(o) == old(self).counter(o),
            final(self).action_metrics == old(self).action_metrics,
    {
        self.add(BridgeCounter::OutboxFlushed, n as u64)
    }

    /// One more raised alert published.
    pub fn inc_alert_raised(&mut self)
        ensures
            final(self).counter(BridgeCounter::AlertRaised) == wrap_add(old(self).alert_raised_total, 1),
            forall|o: BridgeCounter|
                o != BridgeCounter::AlertRaised ==> #[trigger] final(self).counter(o) == old(self).counter(o),
            final(self).action_metrics == old(self).action_metrics,
    {
        self.add(BridgeCounter::AlertRaised, 1)
    }

    /// One more cleared alert published.
    pub fn inc_alert_cleared(&mut self)
        ensures
            final(self).counter(BridgeCounter::AlertCleared) == wrap_add(old(self).alert_cleared_total, 1),
            forall|o: BridgeCounter|
                o != BridgeCounter::AlertCleared ==> #[trigger] final(self).counter(o) == old(self).counter(o),
            final(self).action_metrics == old(self).action_metrics,
    {
        self.add(BridgeCounter::AlertCleared, 1)
    }

    /// One more alert acknowledgement received.
    pub fn inc_alert_ack_received(&mut self)
        ensures
            final(self).counter(BridgeCounter::AlertAckReceived) == wrap_add(
                old(self).alert_ack_received_total,
                1,
            ),
            forall|o: BridgeCounter|
                o != BridgeCounter::AlertAckReceived ==> #[trigger] final(self).counter(o) == old(self).counter(
                    o,
                ),
            final(self).action_metrics == old(self).action_metrics,
    {
        self.add(BridgeCounter::AlertAckReceived, 1)
    }

    /// One more alert acknowledgement accepted.
    pub fn inc_alert_ack_accepted(&mut self)
        ensures
            final(self).counter(BridgeCounter::AlertAckAccepted) == wrap_add(
                old(self).alert_ack_accepted_total,
                1,
            ),
            forall|o: BridgeCounter|
                o != BridgeCounter::AlertAckAccepted ==> #[trigger] final(self).counter(o) == old(self).counter(
                    o,
                ),
            final(self).action_metrics == old(self).action_metrics,
    {
        self.add(BridgeCounter::AlertAckAccepted, 1)
    }

    /// One more alert that could not be published.
    pub fn inc_alert_publish_fail(&mut self)
        ensures
            final(self).counter(BridgeCounter::AlertPublishFail) == wrap_add(
                old(self).alert_publish_fail_total,
                1,
            ),
            forall|o: BridgeCounter|
                o != BridgeCounter::AlertPublishFail ==> #[trigger] final(self).counter(o) == old(self).counter(
                    o,
                ),
            final(self).action_metrics == old(self).action_metrics,
    {
        self.add(BridgeCounter::AlertPublishFail, 1)
    }

    /// Advances one per-action counter of `action_type`, counted under its trimmed,
    /// lower-cased form; a blank type is not counted.
    pub fn with_action_metric(&mut self, action_type: &str, c: ActionCounter)
        requires
            old(self).wf(),
        ensures
            final(self).wf(),
            final(self).action_metrics@ == bump_action(old(self).action_metrics@, action_type@, c),
            forall|o: BridgeCounter| #[trigger] final(self).counter(o) == old(self).counter(o),
    {
        let key = trim_lower(action_type);
        if key.len() == 0 {
            return;
        }
        let ks = string_of(&key);
        let cur = match self.action_metrics.get(ks.as_str()) {
            Some(m) => *m,
            None => ActionTypeMetrics { received_total: 0, accepted_total: 0, failed_total: 0 },
        };
        let next = match c {
            ActionCounter::Received => ActionTypeMetrics {
                received_total: cur.received_total.saturating_add(1),
                ..cur
            },
            ActionCounter::Accepted => ActionTypeMetrics {
                accepted_total: cur.accepted_total.saturating_add(1),
                ..cur
            },
            ActionCounter::Failed => ActionTypeMetrics { failed_total: cur.failed_total.saturating_add(1), ..cur },
        };
        self.action_metrics.insert(ks, next);
    }

    /// One more action of this type received.
    pub fn inc_action_received(&mut self, action_type: &str)
        requires
            old(self).wf(),
        ensures
            final(self).wf(),
            final(self).action_metrics@ == bump_action(
                old(self).action_metrics@,
                action_type@,
                ActionCounter::Received,
            ),
            forall|o: BridgeCounter| #[trigger] final(self).counter(o) == old(self).counter(o),
    {
        self.with_action_metric(action_type, ActionCounter::Received)
    }

    /// One more action of this type accepted.
    pub fn inc_action_accepted(&mut self, action_type: &str)
        requires
            old(self).wf(),
        ensures
            final(self).wf(),
            final(self).action_metrics@ == bump_action(
                old(self).action_metrics@,
                action_type@,
                ActionCounter::Accepted,
            ),
            forall|o: BridgeCounter| #[trigger] final(self).counter(o) == old(self).counter(o),
    {
        self.with_action_metric(action_type, ActionCounter::Accepted)
    }

    /// One more action of this type failed.
    pub fn inc_action_failed(&mut self, action_type: &str)
        requires
            old(self).wf(),
        ensures
            final(self).wf(),
            final(self).action_metrics@ == bump_action(
                old(self).action_metrics@,
                action_type@,
                ActionCounter::Failed,
            ),
            forall|o: BridgeCounter| #[trigger] final(self).counter(o) == old(self).counter(o),
    {
        self.with_action_metric(action_type, ActionCounter::Failed)
    }

    /// The per-action counters, one entry per action type.
    pub fn snapshot_action_metrics(&self) -> (r: Vec<(String, ActionTypeMetrics)>)
        requires
            self.wf(),
        ensures
            r@.len() == self.action_metrics@.dom().len(),
            forall|i: int|
                0 <= i < r@.len() ==> self.action_metrics@.contains_key(#[trigger] r@[i].0@)
                    && self.action_metrics@[r@[i].0@] == r@[i].1,
            forall|k: Seq<char>|
                self.action_metrics@.contains_key(k) ==> exists|i: int| 0 <= i < r@.len() && r@[i].0@ == k,
            forall|i: int, j: int| 0 <= i < j < r@.len() ==> r@[i].0@ != r@[j].0@,
    {
        let keys = self.action_metrics.keys();
        let mut out: Vec<(String, ActionTypeMetrics)> = Vec::new();
        let mut i: usize = 0;
        while i < keys.len()
            invariant
                self.wf(),
                i <= keys@.len(),
                out@.len() == i,
                keys@.len() == self.action_metrics@.dom().len(),
                forall|j: int| 0 <= j < keys@.len() ==> self.action_metrics@.contains_key(#[trigger] keys@[j]@),
                forall|a: int, b: int| 0 <= a < b < keys@.len() ==> keys@[a]@ != keys@[b]@,
                forall|j: int| 0 <= j < i ==> (#[trigger] out@[j]).0@ == keys@[j]@,
                forall|j: int|
                    0 <= j < i ==> self.action_metrics@[(#[trigger] out@[j]).0@] == out@[j].1,
            decreases keys@.len() - i,
        {
            let k = keys[i].clone();
            let m = match self.action_metrics.get(k.as_str()) {
                Some(m) => *m,
                None => ActionTypeMetrics { received_total: 0, accepted_total: 0, failed_total: 0 },
            };
            assert(self.action_metrics@.contains_key(keys@[i as int]@));
            out.push((k, m));
            i = i + 1;
        }
        assert forall|kk: Seq<char>| self.action_metrics@.contains_key(kk) implies exists|j: int|
            0 <= j < out@.len() && out@[j].0@ == kk by {
            let j = choose|j: int| 0 <= j < keys@.len() && keys@[j]@ == kk;
            assert(out@[j].0@ == keys@[j]@);
        }
        assert forall|a: int, b: int| 0 <= a < b < out@.len() implies out@[a].0@ != out@[b].0@ by {
            assert(out@[a].0@ == keys@[a]@);
            assert(out@[b].0@ == keys@[b]@);
        }
        out
    }
}

/// Two spellings of an action type that differ only in surrounding white space and ASCII
/// case advance the same counters.
pub proof fn lemma_action_types_fold_case(
    m: Map<Seq<char>, ActionTypeMetrics>,
    a: Seq<char>,
    b: Seq<char>,
    c: ActionCounter,
)
    requires
        action_key(a) == action_key(b),
    ensures
        bump_action(m, a, c) == bump_action(m, b, c),
{
}

/// The health message: the outbox's status and figures, the bridge's counters, and the
/// configuration's sync state.
#[derive(Debug)]
pub struct EdgeHealthMqttMessage {
    pub schema_version: u16,
    pub source: String,
    pub status: String,
    pub outbox_depth: usize,
    pub outbox_oldest_age_secs: Option<u64>,
    pub cmd_received_total: u64,
    pub cmd_failed_total: u64,
    pub action_metrics: Vec<(String, ActionTypeMetrics)>,
    pub ack_publish_fail_total: u64,
    pub audit_publish_fail_total: u64,
    pub outbox_enqueued_total: u64,
    pub outbox_flushed_total: u64,
    pub alert_raised_total: u64,
    pub alert_cleared_total: u64,
    pub alert_ack_received_total: u64,
    pub alert_ack_accepted_total: u64,
    pub alert_publish_fail_total: u64,
    pub config_hash: Option<String>,
    pub config_sync_state: String,
    pub config_target_hash: Option<String>,
    /// Milliseconds since the Unix epoch.
    pub config_last_check_at_ms: Option<i64>,
    /// Milliseconds since the Unix epoch.
    pub timestamp_ms: i64,
}

/// The health message for the current outbox figures, counters and sync state.
pub fn build_health_message(
    source: &str,
    stats: &OutboxStats,
    metrics: &BridgeMetrics,
    depth_warn: usize,
    oldest_secs_warn: u64,
    cfg_sync: &ConfigSyncState,
    now_ms: i64,
) -> (r: EdgeHealthMqttMessage)
    requires
        metrics.wf(),
    ensures
        r.schema_version == MQTT_SCHEMA_VERSION_V1,
        r.source@ == source@,
        r.status@ == health_status_spec(*stats, depth_warn, oldest_secs_warn),
        r.outbox_depth == stats.depth,
        r.outbox_oldest_age_secs == stats.oldest_age_secs,
        r.cmd_received_total == metrics.cmd_received_total,
        r.cmd_failed_total == metrics.cmd_failed_total,
        r.ack_publish_fail_total == metrics.ack_publish_fail_total,
        r.audit_publish_fail_total == metrics.audit_publish_fail_total,
        r.outbox_enqueued_total == metrics.outbox_enqueued_total,
        r.outbox_flushed_total == metrics.outbox_flushed_total,
        r.alert_raised_total == metrics.alert_raised_total,
        r.alert_cleared_total == metrics.alert_cleared_total,
        r.alert_ack_received_total == metrics.alert_ack_received_total,
        r.alert_ack_accepted_total == metrics.alert_ack_accepted_total,
        r.alert_publish_fail_total == metrics.alert_publish_fail_total,
        r.action_metrics@.len() == metrics.action_metrics@.dom().len(),
        forall|i: int|
            0 <= i < r.action_metrics@.len() ==> metrics.action_metrics@.contains_key(
                #[trigger] r.action_metrics@[i].0@,
            ) && metrics.action_metrics@[r.action_metrics@[i].0@] == r.action_metrics@[i].1,
        r.config_hash == cfg_sync.current_hash,
        r.config_sync_state@ == cfg_sync.sync_state.word(),
        r.config_target_hash == cfg_sync.target_hash,
        r.config_last_check_at_ms == cfg_sync.last_check_at_ms,
        r.timestamp_ms == now_ms,
{
    EdgeHealthMqttMessage {
        schema_version: MQTT_SCHEMA_VERSION_V1,
        source: owned(source),
        status: owned(compute_health_status(stats, depth_warn, oldest_secs_warn)),
        outbox_depth: stats.depth,
        outbox_oldest_age_secs: stats.oldest_age_secs,
        cmd_received_total: metrics.cmd_received_total,
        cmd_failed_total: metrics.cmd_failed_total,
        action_metrics: metrics.snapshot_action_metrics(),
        ack_publish_fail_total: metrics.ack_publish_fail_total,
        audit_publish_fail_total: metrics.audit_publish_fail_total,
        outbox_enqueued_total: metrics.outbox_enqueued_total,
        outbox_flushed_total: metrics.outbox_flushed_total,
        alert_raised_total: metrics.alert_raised_total,
        alert_cleared_total: metrics.alert_cleared_total,
        alert_ack_received_total: metrics.alert_ack_received_total,
        alert_ack_accepted_total: metrics.alert_ack_accepted_total,
        alert_publish_fail_total: metrics.alert_publish_fail_total,
        config_hash: clone_opt_string(&cfg_sync.current_hash),
        config_sync_state: owned(cfg_sync.sync_state.as_str()),
        config_target_hash: clone_opt_string(&cfg_sync.target_hash),
        config_last_check_at_ms: cfg_sync.last_check_at_ms,
        timestamp_ms: now_ms,
    }
}

} // verus!
