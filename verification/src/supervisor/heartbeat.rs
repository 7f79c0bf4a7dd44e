//! Detecting an agent that is alive but wedged, from the heartbeat it writes.
//!
//! The heartbeat file holds the epoch milliseconds of the beat as plain decimal text;
//! `render` writes it and `age_from_text` reads it back.

use vstd::prelude::*;
use crate::text::{chars_of, dec, dec_chars, parse_u64_chars, parse_u64_spec, string_of, trim, trim_chars};

verus! {

/// How stale a heartbeat may get, in milliseconds, before the agent is presumed wedged.
pub const DEFAULT_STALE_AFTER_MS: u64 = 60_000;

/// How long after launching the agent, in milliseconds, the heartbeat is ignored.
pub const DEFAULT_GRACE_MS: u64 = 90_000;

#[derive(Debug, Clone, PartialEq, Eq, Structural)]
pub enum Liveness {
    /// Too soon after launch to judge.
    InGrace,
    /// Beating recently enough.
    Alive,
    /// Past the grace period with no readable heartbeat at all.
    Missing,
    /// Beating, but too long ago; `by_ms` is the age of the last beat.
    Stale { by_ms: u64 },
}

/// The liveness judgement: nothing is judged inside the grace period; after it, no beat
/// is missing, a beat older than the threshold is stale, any other beat is alive.
pub open spec fn assess_spec(age: Option<u64>, since_spawn: u64, stale_after: u64, grace: u64) -> Liveness {
    if since_spawn < grace {
        Liveness::InGrace
    } else {
        match age {
            None => Liveness::Missing,
            Some(a) => if a > stale_after {
                Liveness::Stale { by_ms: a }
            } else {
                Liveness::Alive
            },
        }
    }
}

/// What a heartbeat of the given age says about the agent.
pub fn assess(age_ms: Option<u64>, since_spawn_ms: u64, stale_after_ms: u64, grace_ms: u64) -> (r: Liveness)
    ensures
        r == assess_spec(age_ms, since_spawn_ms, stale_after_ms, grace_ms),
{
    if since_spawn_ms < grace_ms {
        return Liveness::InGrace;
    }
    match age_ms {
        None => Liveness::Missing,
        Some(age) => if age > stale_after_ms {
            Liveness::Stale { by_ms: age }
        } else {
            Liveness::Alive
        },
    }
}

/// Renders a heartbeat value: the epoch milliseconds in decimal.
pub fn render(now_ms: u64) -> (r: String)
    ensures
        r@ == dec(now_ms as nat),
{
    let d = dec_chars(now_ms);
    string_of(&d)
}

/// The age a heartbeat text gives at `now`: the trimmed text must be a `u64` of epoch
/// milliseconds; a beat dated in the future reads as age zero.
pub open spec fn age_spec(text: Seq<char>, now: u64) -> Option<u64> {
    match parse_u64_spec(trim(text)) {
        None => None,
        Some(beat) => Some(if now >= beat {
            (now - beat) as u64
        } else {
            0
        }),
    }
}

/// How many milliseconds ago a heartbeat text was written, at `now_ms`.
pub fn age_from_text(text: &str, now_ms: u64) -> (r: Option<u64>)
    ensures
        r == age_spec(text@, now_ms),
{
    let v = chars_of(text);
    let t = trim_chars(&v);
    match parse_u64_chars(&t) {
        None => None,
        Some(beat) => Some(if now_ms >= beat { now_ms - beat } else { 0 }),
    }
}

proof fn lemma_dec_has_no_ws(n: nat)
    ensures
        trim(dec(n)) == dec(n),
    decreases n,
{
    let s = dec(n);
    crate::text::lemma_dec_digits(n);
    assert(s.len() > 0);
    assert(!crate::text::is_ws(s[0]));
    assert(!crate::text::is_ws(s.last()));
    assert(crate::text::trim_start(s) == s);
    assert(crate::text::trim_end(s) == s);
}

/// What the agent writes is what the supervisor reads: a beat rendered at `t` reads back,
/// at any later `now`, as exactly `now - t` of age, and as zero when `now` is earlier.
pub proof fn lemma_render_then_read_roundtrip(t: u64, now: u64)
    ensures
        age_spec(dec(t as nat), now) == Some(if now >= t {
            (now - t) as u64
        } else {
            0u64
        }),
{
    lemma_dec_has_no_ws(t as nat);
    crate::text::lemma_parse_dec_roundtrip(t);
}

} // verus!
