//! When the agent's proof of life is due. Times are monotonic milliseconds.

use vstd::prelude::*;

verus! {

/// Lower bound, in milliseconds, on how often the beat is written.
pub const BEAT_INTERVAL_MS: u64 = 5000;

/// Whether enough time has passed to write another beat: always for the first beat,
/// otherwise once a full interval has elapsed (a clock running backwards counts as no
/// time elapsed).
pub open spec fn due_spec(last_written: Option<u64>, now: u64) -> bool {
    match last_written {
        None => true,
        Some(last) => (if now >= last {
            now - last
        } else {
            0
        }) >= BEAT_INTERVAL_MS,
    }
}

/// Whether another beat is due at `now_ms`.
pub fn due(last_written: Option<u64>, now_ms: u64) -> (r: bool)
    ensures
        r == due_spec(last_written, now_ms),
{
    match last_written {
        None => true,
        Some(last) => {
            let elapsed: u64 = if now_ms >= last { now_ms - last } else { 0 };
            elapsed >= BEAT_INTERVAL_MS
        },
    }
}

/// Once a beat is written it is not due again until a full interval later, and from then
/// on it stays due.
pub proof fn lemma_beat_cadence(t: u64, now: u64)
    ensures
        now >= t ==> (due_spec(Some(t), now) <==> now - t >= BEAT_INTERVAL_MS),
        due_spec(None, now),
{
}

} // verus!
