//! The broker watchdog across the turns of the bridge's event loop: a session is
//! presumed dead and reconnected only after at least the staleness window of inbound
//! silence, and, when each turn's work takes no time, at most one poll floor later.
//!
//! A turn of the loop is the step before a poll (`BridgeEvent::BeforePoll`) at `start`
//! and, unless that step already forced a reconnect, the poll's outcome at `at`. The
//! functions here are what `bridge_step` does to the watchdog on each event; a
//! handler's `Handled` step leaves it alone.

use vstd::prelude::*;
use crate::agent::bridge_loop::BridgeEvent;
use crate::agent::broker_watch::MIN_CHECK_INTERVAL_MS;

verus! {

/// The staleness window for a keep-alive period: one and a half periods.
pub open spec fn stale_ms(keep_alive: u64) -> int {
    keep_alive * 3 / 2
}

/// Time since `last`; a clock that appears to run backwards gives zero.
pub open spec fn quiet(last: u64, now: u64) -> int {
    if now >= last {
        now - last
    } else {
        0
    }
}

/// The poll timeout at `now`: the time left to the staleness deadline, never below the
/// floor.
pub open spec fn timeout_spec(keep_alive: u64, last: u64, now: u64) -> int {
    if stale_ms(keep_alive) - quiet(last, now) > MIN_CHECK_INTERVAL_MS {
        stale_ms(keep_alive) - quiet(last, now)
    } else {
        MIN_CHECK_INTERVAL_MS as int
    }
}

/// Whether an event is a packet from the broker. Outgoing packets, such as pings, are
/// not.
pub open spec fn inbound(e: BridgeEvent) -> bool {
    e is ConnAck || e is Publish || e is OtherIncoming
}

/// Whether an event forces a reconnect: a check before polling that finds the silence
/// longer than the window, or a poll that waited its whole timeout.
pub open spec fn forces_reconnect(keep_alive: u64, last: u64, e: BridgeEvent, now: u64) -> bool {
    match e {
        BridgeEvent::BeforePoll => quiet(last, now) > stale_ms(keep_alive),
        BridgeEvent::PollTimedOut => true,
        _ => false,
    }
}

/// The last activity after an event: a forced reconnect and every inbound packet restart
/// the window; anything else leaves it.
pub open spec fn next_last(keep_alive: u64, last: u64, e: BridgeEvent, now: u64) -> u64 {
    if forces_reconnect(keep_alive, last, e, now) || inbound(e) {
        now
    } else {
        last
    }
}

/// One turn of the loop: the check before the poll at `start`, and the poll's outcome
/// `event` at `at`.
pub struct Turn {
    pub start: u64,
    pub event: BridgeEvent,
    pub at: u64,
}

/// Whether the check before the poll forces the reconnect.
pub open spec fn forced_at_start(keep_alive: u64, last: u64, tu: Turn) -> bool {
    quiet(last, tu.start) > stale_ms(keep_alive)
}

/// The last activity after a turn.
pub open spec fn turn_last(keep_alive: u64, last: u64, tu: Turn) -> u64 {
    if forced_at_start(keep_alive, last, tu) {
        tu.start
    } else {
        next_last(keep_alive, last, tu.event, tu.at)
    }
}

/// When a turn forces a reconnect, if it does.
pub open spec fn reconnect_at(keep_alive: u64, last: u64, tu: Turn) -> Option<u64> {
    if forced_at_start(keep_alive, last, tu) {
        Some(tu.start)
    } else if forces_reconnect(keep_alive, last, tu.event, tu.at) {
        Some(tu.at)
    } else {
        None
    }
}

/// When a turn ends: at its start when it reconnects before polling, else when the poll
/// returned.
pub open spec fn turn_end(keep_alive: u64, last: u64, tu: Turn) -> u64 {
    if forced_at_start(keep_alive, last, tu) {
        tu.start
    } else {
        tu.at
    }
}

/// The last activity before turn `k`, from `last0` before the first.
pub open spec fn last_before(keep_alive: u64, last0: u64, turns: Seq<Turn>, k: int) -> u64
    decreases k,
{
    if k <= 0 {
        last0
    } else {
        turn_last(keep_alive, last_before(keep_alive, last0, turns, k - 1), turns[k - 1])
    }
}

/// Turn `k` keeps time: the clock never runs backwards, and a poll that timed out waited
/// at least its timeout.
pub open spec fn orderly_at(keep_alive: u64, last0: u64, turns: Seq<Turn>, k: int) -> bool {
    let l = last_before(keep_alive, last0, turns, k);
    let tu = turns[k];
    &&& k == 0 ==> last0 <= tu.start
    &&& tu.start <= tu.at
    &&& k + 1 < turns.len() ==> turn_end(keep_alive, l, tu) <= turns[k + 1].start
    &&& tu.event is PollTimedOut ==> tu.at >= tu.start + timeout_spec(keep_alive, l, tu.start)
}

/// Every turn keeps time.
pub open spec fn orderly(keep_alive: u64, last0: u64, turns: Seq<Turn>) -> bool {
    forall|k: int| 0 <= k < turns.len() ==> #[trigger] orderly_at(keep_alive, last0, turns, k)
}

/// Turn `k` is prompt: the loop starts no later than a window and a floor after the last
/// activity, every poll returns by its timeout, and the next turn starts as this one
/// ends (the turn's other work takes no time; the wait after a failed poll is such work).
pub open spec fn prompt_at(keep_alive: u64, last0: u64, turns: Seq<Turn>, k: int) -> bool {
    let l = last_before(keep_alive, last0, turns, k);
    let tu = turns[k];
    &&& k == 0 ==> quiet(last0, tu.start) <= stale_ms(keep_alive) + MIN_CHECK_INTERVAL_MS
    &&& !forced_at_start(keep_alive, l, tu) ==> tu.at <= tu.start + timeout_spec(keep_alive, l, tu.start)
    &&& k + 1 < turns.len() ==> turns[k + 1].start == turn_end(keep_alive, l, tu)
}

/// Every turn is prompt.
pub open spec fn prompt(keep_alive: u64, last0: u64, turns: Seq<Turn>) -> bool {
    forall|k: int| 0 <= k < turns.len() ==> #[trigger] prompt_at(keep_alive, last0, turns, k)
}

/// In an orderly loop the last activity before a turn is never after its start.
proof fn lemma_last_not_after_start(keep_alive: u64, last0: u64, turns: Seq<Turn>, k: int)
    requires
        orderly(keep_alive, last0, turns),
        0 <= k < turns.len(),
    ensures
        last_before(keep_alive, last0, turns, k) <= turns[k].start,
    decreases k,
{
    assert(orderly_at(keep_alive, last0, turns, k));
    if k > 0 {
        lemma_last_not_after_start(keep_alive, last0, turns, k - 1);
        assert(orderly_at(keep_alive, last0, turns, k - 1));
    }
}

/// Never early: in an orderly loop a reconnect is forced only after at least the
/// staleness window of silence since the last inbound packet or forced reconnect.
pub proof fn lemma_reconnect_never_early(keep_alive: u64, last0: u64, turns: Seq<Turn>, k: int)
    requires
        orderly(keep_alive, last0, turns),
        0 <= k < turns.len(),
    ensures
        reconnect_at(keep_alive, last_before(keep_alive, last0, turns, k), turns[k]) matches Some(t)
            ==> quiet(last_before(keep_alive, last0, turns, k), t) >= stale_ms(keep_alive),
{
    lemma_last_not_after_start(keep_alive, last0, turns, k);
    assert(orderly_at(keep_alive, last0, turns, k));
}

/// In a prompt, orderly loop no turn starts later than a window and a floor after the
/// last inbound packet or forced reconnect.
proof fn lemma_start_bounded(keep_alive: u64, last0: u64, turns: Seq<Turn>, k: int)
    requires
        orderly(keep_alive, last0, turns),
        prompt(keep_alive, last0, turns),
        0 <= k < turns.len(),
    ensures
        quiet(last_before(keep_alive, last0, turns, k), turns[k].start) <= stale_ms(keep_alive)
            + MIN_CHECK_INTERVAL_MS,
    decreases k,
{
    assert(prompt_at(keep_alive, last0, turns, k));
    if k > 0 {
        lemma_start_bounded(keep_alive, last0, turns, k - 1);
        lemma_last_not_after_start(keep_alive, last0, turns, k - 1);
        assert(prompt_at(keep_alive, last0, turns, k - 1));
        assert(orderly_at(keep_alive, last0, turns, k - 1));
    }
}

/// Never late: in a prompt, orderly loop every turn starts, and every forced reconnect
/// happens, at most a window and a poll floor after the last inbound packet or forced
/// reconnect. Outgoing packets never restart the window.
pub proof fn lemma_reconnect_never_late(keep_alive: u64, last0: u64, turns: Seq<Turn>, k: int)
    requires
        orderly(keep_alive, last0, turns),
        prompt(keep_alive, last0, turns),
        0 <= k < turns.len(),
    ensures
        quiet(last_before(keep_alive, last0, turns, k), turns[k].start) <= stale_ms(keep_alive)
            + MIN_CHECK_INTERVAL_MS,
        reconnect_at(keep_alive, last_before(keep_alive, last0, turns, k), turns[k]) matches Some(t)
            ==> quiet(last_before(keep_alive, last0, turns, k), t) <= stale_ms(keep_alive) + MIN_CHECK_INTERVAL_MS,
        next_last(keep_alive, last_before(keep_alive, last0, turns, k), BridgeEvent::Outgoing, turns[k].at)
            == last_before(keep_alive, last0, turns, k),
{
    lemma_start_bounded(keep_alive, last0, turns, k);
    lemma_last_not_after_start(keep_alive, last0, turns, k);
    assert(prompt_at(keep_alive, last0, turns, k));
    assert(orderly_at(keep_alive, last0, turns, k));
}

} // verus!
