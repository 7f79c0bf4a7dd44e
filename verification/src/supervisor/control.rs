//! Orders from central, carried over the out-of-band long-poll.

use vstd::prelude::*;
use crate::text::chars_eq_str;
use crate::text::chars_of;

verus! {

/// Slack, in seconds, added on top of central's own wait before the client gives up.
pub const CLIENT_TIMEOUT_MARGIN_SECS: u64 = 10;

#[derive(Debug, Clone, PartialEq, Eq)]
pub enum Order {
    /// Central had nothing to say within its wait. Ask again.
    Idle,
    Restart { request_id: String },
}

/// What an answer of central means: a restart only when the kind is exactly `restart`
/// and an identifier comes with it; anything else, malformed or unknown included, is no
/// order (and so is never acknowledged).
pub open spec fn order_spec(kind: Option<Seq<char>>, request_id: Option<Seq<char>>) -> Option<Seq<char>> {
    match (kind, request_id) {
        (Some(k), Some(id)) => if k == "restart"@ {
            Some(id)
        } else {
            None
        },
        _ => None,
    }
}

/// The order carried by central's answer to the long-poll.
pub fn interpret_pending_response(kind: Option<&str>, request_id: Option<String>) -> (r: Order)
    ensures
        r is Restart <==> order_spec(crate::text::opt_view(kind), crate::text::opt_string_view(request_id)) is Some,
        r is Restart ==> r->request_id@ == order_spec(crate::text::opt_view(kind), crate::text::opt_string_view(request_id))->0,
{
    match (kind, request_id) {
        (Some(k), Some(id)) => {
            let kv = chars_of(k);
            if chars_eq_str(&kv, "restart") {
                Order::Restart { request_id: id }
            } else {
                Order::Idle
            }
        },
        _ => Order::Idle,
    }
}

/// The client's own timeout, in seconds: central's wait plus the margin, so a quiet
/// period is never mistaken for a dead connection.
pub fn request_timeout_secs(wait_secs: u64) -> (r: u64)
    requires
        wait_secs + CLIENT_TIMEOUT_MARGIN_SECS <= u64::MAX,
    ensures
        r == wait_secs + CLIENT_TIMEOUT_MARGIN_SECS,
        r > wait_secs,
{
    wait_secs + CLIENT_TIMEOUT_MARGIN_SECS
}

/// Where the supervisor leaves its long-poll: `<base>/api/edge/control/pending`.
pub fn pending_url(base_url: &str) -> (r: String)
    ensures
        r@ == base_url@ + "/api/edge/control/pending"@,
{
    let mut u = crate::text::owned(base_url);
    crate::text::append_str(&mut u, "/api/edge/control/pending");
    u
}

/// Where the supervisor confirms an order: `<base>/api/edge/control/ack`.
pub fn ack_url(base_url: &str) -> (r: String)
    ensures
        r@ == base_url@ + "/api/edge/control/ack"@,
{
    let mut u = crate::text::owned(base_url);
    crate::text::append_str(&mut u, "/api/edge/control/ack");
    u
}

} // verus!
