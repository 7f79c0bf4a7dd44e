//! The decisions of the action orchestrator: which targets and action types are served,
//! which requests are duplicates, and how a device command is routed.
//!
//! Times are epoch milliseconds.

use vstd::prelude::*;
use crate::keyed::StrMap;
use crate::text::{append_chars, append_str, chars_eq_str, chars_of, eq_ignore_case, eq_ignore_case_str, lower_seq, owned, string_of, trim, trim_chars, trim_lower};
use crate::agent::actions::{dedupe_key_spec, dedupe_spec, make_request_dedupe_key, nonblank, should_dedupe_request};

verus! {

/// How long, in seconds, a processed print request is remembered.
pub const ACTION_IDEMPOTENCY_TTL_SECS: i64 = 86_400;

/// Whether a request processed at `ts` is still remembered at `now`: its age, in whole
/// seconds rounded toward zero, is at most the time to live.
pub open spec fn still_remembered(ts: i64, now: i64) -> bool {
    now - ts < 0 || (now - ts) / 1000 <= ACTION_IDEMPOTENCY_TTL_SECS
}

/// The requests already carried out, by deduplication key, with when.
pub struct ProcessedRequests {
    map: StrMap<i64>,
}

impl View for ProcessedRequests {
    type V = Map<Seq<char>, i64>;

    closed spec fn view(&self) -> Map<Seq<char>, i64> {
        self.map@
    }
}

/// The remembered entries of `m` at `now`.
pub open spec fn prune_spec(m: Map<Seq<char>, i64>, now: i64) -> Map<Seq<char>, i64> {
    Map::new(|k: Seq<char>| m.contains_key(k) && still_remembered(m[k], now), |k: Seq<char>| m[k])
}

impl ProcessedRequests {
    pub closed spec fn wf(&self) -> bool {
        self.map.wf()
    }

    /// No request remembered.
    pub fn new() -> (r: ProcessedRequests)
        ensures
            r.wf(),
            r@ == Map::<Seq<char>, i64>::empty(),
    {
        ProcessedRequests { map: StrMap::new() }
    }

    /// Forgets requests older than the time to live.
    pub fn prune(&mut self, now_ms: i64)
        requires
            old(self).wf(),
        ensures
            final(self).wf(),
            final(self)@ == prune_spec(old(self)@, now_ms),
    {
        let keys = self.map.keys();
        let ghost start = self.map@;
        let mut i: usize = 0;
        while i < keys.len()
            invariant
                self.map.wf(),
                i <= keys.len(),
                forall|a: int| 0 <= a < keys@.len() ==> start.contains_key(#[trigger] keys@[a]@),
                forall|k: Seq<char>| start.contains_key(k) ==> exists|a: int| 0 <= a < keys@.len() && keys@[a]@ == k,
                forall|a: int, b: int| 0 <= a < b < keys@.len() ==> keys@[a]@ != keys@[b]@,
                self.map@ == Map::new(
                    |k: Seq<char>| start.contains_key(k) && (still_remembered(start[k], now_ms) || !(exists|a: int|
                        0 <= a < i && keys@[a]@ == k)),
                    |k: Seq<char>| start[k],
                ),
            decreases keys.len() - i,
        {
            let key = keys[i].as_str();
            let ts: i64 = match self.map.get(key) {
                Some(t) => *t,
                None => 0,
            };
            let ghost before = self.map@;
            let diff: i128 = now_ms as i128 - ts as i128;
            if !(diff < 0 || diff / 1000 <= ACTION_IDEMPOTENCY_TTL_SECS as i128) {
                self.map.remove(key);
            }
            proof {
                let target = Map::new(
                    |k: Seq<char>| start.contains_key(k) && (still_remembered(start[k], now_ms) || !(exists|a: int|
                        0 <= a < i + 1 && keys@[a]@ == k)),
                    |k: Seq<char>| start[k],
                );
                assert forall|k: Seq<char>| #[trigger] self.map@.contains_key(k) == target.contains_key(k) by {
                    if k == keys@[i as int]@ {
                        assert(before.contains_key(k));
                    } else {
                        if exists|a: int| 0 <= a < i + 1 && keys@[a]@ == k {
                            let a = choose|a: int| 0 <= a < i + 1 && keys@[a]@ == k;
                            assert(a < i);
                        }
                    }
                }
                assert(self.map@ =~= target);
            }
            i = i + 1;
        }
        proof {
            assert forall|k: Seq<char>| #[trigger] self.map@.contains_key(k) == prune_spec(start, now_ms).contains_key(k) by {
                if start.contains_key(k) {
                    let a = choose|a: int| 0 <= a < keys@.len() && keys@[a]@ == k;
                }
            }
            assert(self.map@ =~= prune_spec(start, now_ms));
        }
    }

    /// Whether a request under `key` is still remembered; forgets expired ones first.
    pub fn is_duplicate(&mut self, key: &str, now_ms: i64) -> (r: bool)
        requires
            old(self).wf(),
        ensures
            final(self).wf(),
            final(self)@ == prune_spec(old(self)@, now_ms),
            r == prune_spec(old(self)@, now_ms).contains_key(key@),
    {
        self.prune(now_ms);
        self.map.contains_key(key)
    }

    /// Remembers that the request under `key` was carried out at `now`.
    pub fn mark_processed(&mut self, key: String, now_ms: i64)
        requires
            old(self).wf(),
        ensures
            final(self).wf(),
            final(self)@ == old(self)@.insert(key@, now_ms),
    {
        self.map.insert(key, now_ms);
    }
}

/// The action types the orchestrator serves.
#[derive(Debug, Clone, Copy, PartialEq, Eq, Structural)]
pub enum ActionKind {
    PrintEscpos,
    PrintEscposFromBuffer,
    BufferWeightsAccumulate,
    ConnectionCheck,
    PrintPersist,
    DeviceCommand,
}

/// The action kind a normalised action type names.
pub open spec fn action_kind_spec(key: Seq<char>) -> Option<ActionKind> {
    if key == "print.escpos"@ {
        Some(ActionKind::PrintEscpos)
    } else if key == "print.escpos.from_buffer"@ {
        Some(ActionKind::PrintEscposFromBuffer)
    } else if key == "buffer.weights.accumulate"@ {
        Some(ActionKind::BufferWeightsAccumulate)
    } else if key == "connection.check"@ {
        Some(ActionKind::ConnectionCheck)
    } else if key == "print.persist"@ {
        Some(ActionKind::PrintPersist)
    } else if key == "device.command"@ {
        Some(ActionKind::DeviceCommand)
    } else {
        None
    }
}

fn action_kind(key: &Vec<char>) -> (r: Option<ActionKind>)
    ensures
        r == action_kind_spec(key@),
{
    if chars_eq_str(key, "print.escpos") {
        Some(ActionKind::PrintEscpos)
    } else if chars_eq_str(key, "print.escpos.from_buffer") {
        Some(ActionKind::PrintEscposFromBuffer)
    } else if chars_eq_str(key, "buffer.weights.accumulate") {
        Some(ActionKind::BufferWeightsAccumulate)
    } else if chars_eq_str(key, "connection.check") {
        Some(ActionKind::ConnectionCheck)
    } else if chars_eq_str(key, "print.persist") {
        Some(ActionKind::PrintPersist)
    } else if chars_eq_str(key, "device.command") {
        Some(ActionKind::DeviceCommand)
    } else {
        None
    }
}

/// What to do with an action request.
#[derive(Debug, Clone, PartialEq, Eq)]
pub enum ActionPlan {
    /// Already carried out within the time to live: answer success without running it.
    Duplicate,
    /// Run the executor of `kind`; remember the request under `dedupe_key` if it succeeds.
    Run { kind: ActionKind, dedupe_key: Option<String> },
}

/// A target is served when it is absent, `edge` or `central` (ASCII case ignored).
pub open spec fn target_ok(target: Option<Seq<char>>) -> bool {
    match target {
        None => true,
        Some(t) => eq_ignore_case(t, "edge"@) || eq_ignore_case(t, "central"@),
    }
}

/// The deduplication key of a request: only print actions that carry a request id.
pub open spec fn request_key_spec(action_type: Seq<char>, request_id: Option<Seq<char>>) -> Option<Seq<char>> {
    let key = lower_seq(trim(action_type));
    if dedupe_spec(key) && request_id is Some {
        Some(dedupe_key_spec(key, request_id->0))
    } else {
        None
    }
}

/// Decides how an action request is handled: an unserved target is refused; a print
/// request already remembered is a duplicate; an unknown action type is refused;
/// anything else runs.
pub fn plan_action(
    processed: &mut ProcessedRequests,
    target: Option<&str>,
    action_type: &str,
    request_id: Option<&str>,
    now_ms: i64,
) -> (r: Result<ActionPlan, String>)
    requires
        old(processed).wf(),
    ensures
        final(processed).wf(),
        !target_ok(crate::text::opt_view(target)) ==> r is Err && r->Err_0@ == "unsupported action target '"@
            + crate::text::opt_view(target)->0 + "'"@ && final(processed)@ == old(processed)@,
        target_ok(crate::text::opt_view(target)) ==> {
            let dk = request_key_spec(action_type@, crate::text::opt_view(request_id));
            let pruned = if dk is Some {
                prune_spec(old(processed)@, now_ms)
            } else {
                old(processed)@
            };
            let kind = action_kind_spec(lower_seq(trim(action_type@)));
            &&& final(processed)@ == pruned
            &&& (dk is Some && pruned.contains_key(dk->0)) ==> r == Ok::<ActionPlan, String>(ActionPlan::Duplicate)
            &&& !(dk is Some && pruned.contains_key(dk->0)) && kind is None ==> r is Err && r->Err_0@
                == "unsupported action_type '"@ + action_type@ + "'"@
            &&& !(dk is Some && pruned.contains_key(dk->0)) && kind is Some ==> (r is Ok && r->Ok_0 is Run
                && r->Ok_0->kind == kind->0 && crate::text::opt_string_view(r->Ok_0->dedupe_key) == dk)
        },
{
    if let Some(t) = target {
        let tv = chars_of(t);
        if !eq_ignore_case_str(&tv, "edge") && !eq_ignore_case_str(&tv, "central") {
            let mut e = owned("unsupported action target '");
            append_str(&mut e, t);
            append_str(&mut e, "'");
            return Err(e);
        }
    }
    let action_key = trim_lower(action_type);
    let key_str = string_of(&action_key);
    let dedupe_key: Option<String> = if should_dedupe_request(key_str.as_str()) {
        match request_id {
            Some(rid) => Some(make_request_dedupe_key(key_str.as_str(), rid)),
            None => None,
        }
    } else {
        None
    };
    if let Some(k) = &dedupe_key {
        if processed.is_duplicate(k.as_str(), now_ms) {
            return Ok(ActionPlan::Duplicate);
        }
    }
    match action_kind(&action_key) {
        Some(kind) => Ok(ActionPlan::Run { kind, dedupe_key }),
        None => {
            let mut e = owned("unsupported action_type '");
            append_str(&mut e, action_type);
            append_str(&mut e, "'");
            Err(e)
        },
    }
}

/// Remembers a request that succeeded under its deduplication key.
pub fn finish_action(processed: &mut ProcessedRequests, dedupe_key: Option<String>, succeeded: bool, now_ms: i64)
    requires
        old(processed).wf(),
    ensures
        final(processed).wf(),
        succeeded && dedupe_key is Some ==> final(processed)@ == old(processed)@.insert(
            dedupe_key->0@,
            now_ms,
        ),
        !(succeeded && dedupe_key is Some) ==> final(processed)@ == old(processed)@,
{
    if succeeded {
        if let Some(k) = dedupe_key {
            processed.mark_processed(k, now_ms);
        }
    }
}

/// A print request that succeeded is not carried out again while it is remembered: the
/// same action type and request id, planned again up to a day later, is a duplicate.
pub proof fn lemma_print_idempotent_within_ttl(
    m: Map<Seq<char>, i64>,
    action_type: Seq<char>,
    request_id: Seq<char>,
    t: i64,
    now: i64,
)
    requires
        request_key_spec(action_type, Some(request_id)) is Some,
        still_remembered(t, now),
    ensures
        ({
            let k = request_key_spec(action_type, Some(request_id))->0;
            prune_spec(m.insert(k, t), now).contains_key(k)
        }),
{
}

/// A print request remembered at `t` is still remembered a full day later: planned
/// again with the same action type and request id at any `now` less than 86,401,000 ms
/// after it (its age in whole seconds at most 86,400, or a clock that went back), it is
/// found, so the plan is a duplicate; from 86,401,000 ms on it is forgotten and runs
/// again.
pub proof fn lemma_print_remembered_for_a_day(
    m: Map<Seq<char>, i64>,
    action_type: Seq<char>,
    request_id: Seq<char>,
    t: i64,
    now: i64,
)
    requires
        request_key_spec(action_type, Some(request_id)) is Some,
    ensures
        ({
            let k = request_key_spec(action_type, Some(request_id))->0;
            prune_spec(m.insert(k, t), now).contains_key(k) <==> now - t < 86_401_000
        }),
{
    let k = request_key_spec(action_type, Some(request_id))->0;
    let d: int = now - t;
    if 0 <= d && d < 86_401_000 {
        assert(d / 1000 <= 86_400);
    }
    if d >= 86_401_000 {
        assert(d / 1000 >= 86_401);
    }
    assert(m.insert(k, t)[k] == t);
}

/// How a device command is carried out.
#[derive(Debug, Clone, Copy, PartialEq, Eq, Structural)]
pub enum DeviceSubAction {
    PrintEscpos,
    ConnectionCheck,
}

/// The device a command names (`device_id`, else `device.id`, non-blank and trimmed)
/// and the action its `command` maps to: `print` or `print.escpos` prints,
/// `check` or `connection.check` checks the connection.
pub open spec fn device_command_spec(
    device_id: Option<Seq<char>>,
    device_obj_id: Option<Seq<char>>,
    command: Option<Seq<char>>,
) -> Result<(Seq<char>, DeviceSubAction), Seq<char>> {
    let dev = match nonblank(device_id) {
        Some(d) => Some(d),
        None => nonblank(device_obj_id),
    };
    if dev is None {
        Err("device.command requires device_id (or device.id)"@)
    } else if nonblank(command) is None {
        Err("device.command requires payload.command"@)
    } else {
        let c = lower_seq(nonblank(command)->0);
        if c == "print"@ || c == "print.escpos"@ {
            Ok((dev->0, DeviceSubAction::PrintEscpos))
        } else if c == "check"@ || c == "connection.check"@ {
            Ok((dev->0, DeviceSubAction::ConnectionCheck))
        } else {
            Err("unsupported device.command '"@ + c + "'; supported: print, connection.check"@)
        }
    }
}

fn nonblank_chars(o: Option<&str>) -> (r: Option<Vec<char>>)
    ensures
        r is Some <==> nonblank(crate::text::opt_view(o)) is Some,
        r is Some ==> r->0@ == nonblank(crate::text::opt_view(o))->0,
{
    match o {
        Some(s) => {
            let v = chars_of(s);
            let t = trim_chars(&v);
            if t.len() > 0 {
                Some(t)
            } else {
                None
            }
        },
        None => None,
    }
}

/// Routes a device command.
pub fn route_device_command(device_id: Option<&str>, device_obj_id: Option<&str>, command: Option<&str>) -> (r:
    Result<(String, DeviceSubAction), String>)
    ensures
        r is Ok <==> device_command_spec(
            crate::text::opt_view(device_id),
            crate::text::opt_view(device_obj_id),
            crate::text::opt_view(command),
        ) is Ok,
        r matches Ok(p) ==> (p.0@, p.1) == device_command_spec(
            crate::text::opt_view(device_id),
            crate::text::opt_view(device_obj_id),
            crate::text::opt_view(command),
        )->Ok_0,
        r is Err ==> r->Err_0@ == device_command_spec(
            crate::text::opt_view(device_id),
            crate::text::opt_view(device_obj_id),
            crate::text::opt_view(command),
        )->Err_0,
{
    let dev = match nonblank_chars(device_id) {
        Some(d) => d,
        None => match nonblank_chars(device_obj_id) {
            Some(d) => d,
            None => return Err(owned("device.command requires device_id (or device.id)")),
        },
    };
    let cmd = match nonblank_chars(command) {
        Some(c) => c,
        None => return Err(owned("device.command requires payload.command")),
    };
    let c = crate::text::lower_chars(&cmd);
    if chars_eq_str(&c, "print") || chars_eq_str(&c, "print.escpos") {
        Ok((string_of(&dev), DeviceSubAction::PrintEscpos))
    } else if chars_eq_str(&c, "check") || chars_eq_str(&c, "connection.check") {
        Ok((string_of(&dev), DeviceSubAction::ConnectionCheck))
    } else {
        let mut e = owned("unsupported device.command '");
        append_chars(&mut e, &c);
        append_str(&mut e, "'; supported: print, connection.check");
        Err(e)
    }
}

/// Whether an action checks a connection: `connection.check` itself, or a
/// `device.command` whose command is `check` or `connection.check` (ASCII case ignored).
pub open spec fn connection_check_spec(action_type: Seq<char>, command: Option<Seq<char>>) -> bool {
    let a = trim(action_type);
    if eq_ignore_case(a, "connection.check"@) {
        true
    } else if !eq_ignore_case(a, "device.command"@) {
        false
    } else {
        match command {
            Some(c) => eq_ignore_case(trim(c), "check"@) || eq_ignore_case(trim(c), "connection.check"@),
            None => false,
        }
    }
}

/// Whether an action checks a connection.
pub fn is_connection_check_action(action_type: &str, command: Option<&str>) -> (r: bool)
    ensures
        r == connection_check_spec(action_type@, crate::text::opt_view(command)),
{
    let av = chars_of(action_type);
    let a = trim_chars(&av);
    if eq_ignore_case_str(&a, "connection.check") {
        return true;
    }
    if !eq_ignore_case_str(&a, "device.command") {
        return false;
    }
    match command {
        Some(c) => {
            let cv = chars_of(c);
            let ct = trim_chars(&cv);
            eq_ignore_case_str(&ct, "check") || eq_ignore_case_str(&ct, "connection.check")
        },
        None => false,
    }
}

/// An identifier an action names, at the payload's root or under `args`: the first that
/// is present and not blank, trimmed.
pub fn extract_action_id_from_payload(from_root: Option<&str>, from_args: Option<&str>) -> (r: Option<String>)
    ensures
        crate::text::opt_string_view(r) == (match nonblank(crate::text::opt_view(from_root)) {
            Some(v) => Some(v),
            None => nonblank(crate::text::opt_view(from_args)),
        }),
{
    match nonblank_chars(from_root) {
        Some(v) => Some(string_of(&v)),
        None => match nonblank_chars(from_args) {
            Some(v) => Some(string_of(&v)),
            None => None,
        },
    }
}

} // verus!
