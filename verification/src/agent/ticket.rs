//! Printed ticket identifiers: the edge code upper-cased, a hyphen, and the sequence
//! number zero-padded to seven digits.

use vstd::prelude::*;
use crate::text::{append_chars, chars_of, dec_padded, dec_padded_chars, owned, string_of, trim, trim_chars, upper_chars, upper_seq};

verus! {

/// `PREFIX-0000042`.
pub open spec fn ticket_id_spec(edge_code: Seq<char>, sequence: i64) -> Seq<char> {
    upper_seq(trim(edge_code)) + "-"@ + dec_padded(sequence as nat, 7)
}

/// Formats a ticket identifier; a blank edge code or a sequence below one is an error.
pub fn format_ticket_id(edge_code: &str, sequence: i64) -> (r: Result<String, String>)
    ensures
        r is Ok <==> (trim(edge_code@).len() > 0 && sequence >= 1),
        r is Ok ==> r->Ok_0@ == ticket_id_spec(edge_code@, sequence),
        r is Err ==> r->Err_0@ == "ticket edge code and sequence must be positive"@,
{
    let v = chars_of(edge_code);
    let prefix = trim_chars(&v);
    if prefix.len() == 0 || sequence < 1 {
        return Err(owned("ticket edge code and sequence must be positive"));
    }
    let up = upper_chars(&prefix);
    let mut out = string_of(&up);
    let dash = chars_of("-");
    append_chars(&mut out, &dash);
    let digits = dec_padded_chars(sequence as u64, 7);
    append_chars(&mut out, &digits);
    Ok(out)
}

/// The ticket a store hands out for an edge code, given the next sequence number it has
/// stored for that code (none for a code never seen): the trimmed code, the sequence
/// number allocated (the stored one, or 1), the number to store for next time, and the
/// formatted identifier. A blank code is refused.
#[derive(Debug, Clone)]
pub struct TicketAllocation {
    pub edge_code: String,
    pub allocated: i64,
    pub next_to_store: i64,
    pub ticket_id: String,
}

/// Allocates the next ticket of an edge code from the stored sequence state.
pub fn allocate_ticket(edge_code: &str, stored_next: Option<i64>) -> (r: Result<TicketAllocation, String>)
    requires
        stored_next != Some(i64::MAX),
    ensures
        trim(edge_code@).len() == 0 ==> (r matches Err(e) && e@ == "ticket edge code must not be empty"@),
        trim(edge_code@).len() > 0 && (match stored_next {
            Some(n) => n >= 1,
            None => true,
        }) ==> r is Ok,
        r matches Ok(a) ==> {
            &&& a.edge_code@ == trim(edge_code@)
            &&& a.allocated == allocated_number(stored_next)
            &&& a.next_to_store == a.allocated + 1
            &&& a.ticket_id@ == ticket_id_spec(edge_code@, a.allocated)
        },
        r matches Err(e) ==> (trim(edge_code@).len() == 0 && e@ == "ticket edge code must not be empty"@)
            || (trim(edge_code@).len() > 0 && e@ == "ticket edge code and sequence must be positive"@),
{
    let v = chars_of(edge_code);
    let code = trim_chars(&v);
    if code.len() == 0 {
        return Err(owned("ticket edge code must not be empty"));
    }
    let allocated: i64 = match stored_next {
        Some(n) => n,
        None => 1,
    };
    let code_s = string_of(&code);
    proof {
        crate::text::lemma_trim_idempotent(edge_code@);
    }
    match format_ticket_id(code_s.as_str(), allocated) {
        Ok(id) => Ok(TicketAllocation { edge_code: code_s, allocated, next_to_store: allocated + 1, ticket_id: id }),
        Err(e) => Err(e),
    }
}

/// The sequence number an allocation hands out for the stored state.
pub open spec fn allocated_number(stored_next: Option<i64>) -> i64 {
    match stored_next {
        Some(n) => n,
        None => 1,
    }
}

/// Tickets handed out one after another for the same code carry consecutive, strictly
/// increasing sequence numbers: the allocation after one that handed out `n` (and
/// stored `n + 1`) hands out `n + 1`.
pub proof fn lemma_ticket_sequence_increases(stored_next: Option<i64>)
    requires
        allocated_number(stored_next) < i64::MAX,
    ensures
        allocated_number(Some((allocated_number(stored_next) + 1) as i64)) == allocated_number(stored_next) + 1,
        allocated_number(Some((allocated_number(stored_next) + 1) as i64)) > allocated_number(stored_next),
{
}

} // verus!
