//! Automation triggers: the consecutive-match counter that decides when an automation
//! fires.
//!
//! The numeric comparison of a tag value against a threshold is made by the caller, who
//! hands its outcome in as `value_matches`; timestamps are epoch milliseconds.

use vstd::prelude::*;
use crate::text::chars_of;
use crate::text::chars_eq;
use crate::text::chars_eq_str;

verus! {

#[derive(Debug, Clone, Copy, PartialEq, Eq, Structural)]
pub enum ExecutionScope {
    Edge,
    Central,
    Auto,
}

#[derive(Debug, Clone, Copy, PartialEq, Eq, Structural)]
pub enum NumericOperator {
    Eq,
    Ne,
    Lt,
    Lte,
    Gt,
    Gte,
}

/// Automations are enabled unless configured otherwise.
pub fn default_enabled() -> (r: bool)
    ensures
        r,
{
    true
}

/// The comparison used when a trigger names none.
pub fn default_numeric_operator() -> (r: NumericOperator)
    ensures
        r == NumericOperator::Eq,
{
    NumericOperator::Eq
}

/// How many consecutive matches have been seen, and when the last one was.
#[derive(Debug, Clone, Copy, PartialEq, Eq, Structural)]
pub struct AutomationEvalState {
    pub consecutive_matches: usize,
    pub last_match_at: Option<i64>,
}

impl AutomationEvalState {
    pub fn default() -> (r: AutomationEvalState)
        ensures
            r == (AutomationEvalState { consecutive_matches: 0, last_match_at: None }),
    {
        AutomationEvalState { consecutive_matches: 0, last_match_at: None }
    }
}

#[derive(Debug, Clone, Copy, PartialEq, Eq, Structural)]
pub struct AutomationEvalResult {
    pub matched: bool,
    pub fired: bool,
    pub next_state: AutomationEvalState,
}

/// The settings of a consecutive-match trigger that the counter reads.
#[derive(Debug, Clone, Copy, PartialEq, Eq, Structural)]
pub struct ConsecutiveTrigger {
    pub count: usize,
    pub within_ms: Option<u64>,
}

pub open spec fn fresh_state() -> AutomationEvalState {
    AutomationEvalState { consecutive_matches: 0, last_match_at: None }
}

/// The state after the window check: a streak whose last match is more than the window
/// older than the event starts over.
pub open spec fn windowed_state(t: ConsecutiveTrigger, s: AutomationEvalState, ts: i64) -> AutomationEvalState {
    match (t.within_ms, s.last_match_at) {
        (Some(w), Some(last)) => {
            let elapsed = if ts - last > 0 { ts - last } else { 0 };
            if elapsed > w {
                fresh_state()
            } else {
                s
            }
        },
        _ => s,
    }
}

/// The number of matches that fires: the configured count, at least one.
pub open spec fn fire_threshold(t: ConsecutiveTrigger) -> int {
    if t.count >= 1 {
        t.count as int
    } else {
        1
    }
}

/// One event applied to an applicable trigger: a match extends the streak (saturating)
/// and stamps it, a miss resets it, and reaching the threshold fires and resets it.
pub open spec fn advance_spec(t: ConsecutiveTrigger, s: AutomationEvalState, ts: i64, matches: bool) -> AutomationEvalResult {
    let w = windowed_state(t, s, ts);
    if matches {
        let c = if w.consecutive_matches < usize::MAX {
            (w.consecutive_matches + 1) as usize
        } else {
            usize::MAX
        };
        if c >= fire_threshold(t) {
            AutomationEvalResult { matched: true, fired: true, next_state: fresh_state() }
        } else {
            AutomationEvalResult {
                matched: true,
                fired: false,
                next_state: AutomationEvalState { consecutive_matches: c, last_match_at: Some(ts) },
            }
        }
    } else {
        AutomationEvalResult { matched: false, fired: false, next_state: fresh_state() }
    }
}

/// The whole evaluation: a disabled automation, or an event for another tag (unless the
/// trigger names `*`), leaves the state untouched; otherwise the counter advances.
pub open spec fn evaluate_spec(
    enabled: bool,
    trigger_tag: Seq<char>,
    t: ConsecutiveTrigger,
    s: AutomationEvalState,
    event_tag: Seq<char>,
    ts: i64,
    matches: bool,
) -> AutomationEvalResult {
    if !enabled || (trigger_tag != "*"@ && event_tag != trigger_tag) {
        AutomationEvalResult { matched: false, fired: false, next_state: s }
    } else {
        advance_spec(t, s, ts, matches)
    }
}

/// Applies one event to a consecutive-match trigger.
pub fn advance_consecutive(t: ConsecutiveTrigger, s: AutomationEvalState, ts: i64, value_matches: bool) -> (r:
    AutomationEvalResult)
    ensures
        r == advance_spec(t, s, ts, value_matches),
{
    let mut next = s;
    if let (Some(window_ms), Some(last_ts)) = (t.within_ms, next.last_match_at) {
        let diff: i128 = ts as i128 - last_ts as i128;
        let elapsed: i128 = if diff > 0 { diff } else { 0 };
        if elapsed > window_ms as i128 {
            next = AutomationEvalState { consecutive_matches: 0, last_match_at: None };
        }
    }
    if value_matches {
        let c: usize = next.consecutive_matches.saturating_add(1);
        let threshold: usize = if t.count >= 1 { t.count } else { 1 };
        if c >= threshold {
            AutomationEvalResult {
                matched: true,
                fired: true,
                next_state: AutomationEvalState { consecutive_matches: 0, last_match_at: None },
            }
        } else {
            AutomationEvalResult {
                matched: true,
                fired: false,
                next_state: AutomationEvalState { consecutive_matches: c, last_match_at: Some(ts) },
            }
        }
    } else {
        AutomationEvalResult {
            matched: false,
            fired: false,
            next_state: AutomationEvalState { consecutive_matches: 0, last_match_at: None },
        }
    }
}

/// Evaluates an automation against one tag event.
pub fn evaluate_consecutive_trigger(
    enabled: bool,
    trigger_tag: &str,
    t: ConsecutiveTrigger,
    s: AutomationEvalState,
    event_tag: &str,
    ts: i64,
    value_matches: bool,
) -> (r: AutomationEvalResult)
    ensures
        r == evaluate_spec(enabled, trigger_tag@, t, s, event_tag@, ts, value_matches),
{
    if !enabled {
        return AutomationEvalResult { matched: false, fired: false, next_state: s };
    }
    let tt = chars_of(trigger_tag);
    let et = chars_of(event_tag);
    if !chars_eq_str(&tt, "*") && !chars_eq(&et, &tt) {
        return AutomationEvalResult { matched: false, fired: false, next_state: s };
    }
    advance_consecutive(t, s, ts, value_matches)
}

/// Without a window, from a fresh state, each match below the threshold grows the streak
/// by one without firing, and the match that reaches the threshold fires and resets the
/// streak.
pub proof fn lemma_fires_exactly_at_threshold(count: usize, ts: i64, k: nat)
    requires
        k < (if count >= 1 { count as int } else { 1 }),
    ensures
        ({
            let t = ConsecutiveTrigger { count, within_ms: None };
            let s = AutomationEvalState { consecutive_matches: k as usize, last_match_at: if k == 0 {
                None
            } else {
                Some(ts)
            } };
            let r = advance_spec(t, s, ts, true);
            &&& r.matched
            &&& (r.fired <==> k + 1 == fire_threshold(t))
            &&& r.fired ==> r.next_state == fresh_state()
            &&& !r.fired ==> r.next_state == (AutomationEvalState {
                consecutive_matches: (k + 1) as usize,
                last_match_at: Some(ts),
            })
        }),
{
}

/// A value that does not match always breaks the streak, whatever came before.
pub proof fn lemma_miss_resets(t: ConsecutiveTrigger, s: AutomationEvalState, ts: i64)
    ensures
        advance_spec(t, s, ts, false).next_state == fresh_state(),
        !advance_spec(t, s, ts, false).fired,
{
}

/// Firing always leaves a fresh streak behind, so the next firing needs a full run of
/// matches again.
pub proof fn lemma_fire_resets(t: ConsecutiveTrigger, s: AutomationEvalState, ts: i64, m: bool)
    ensures
        advance_spec(t, s, ts, m).fired ==> advance_spec(t, s, ts, m).next_state == fresh_state(),
{
}

} // verus!
