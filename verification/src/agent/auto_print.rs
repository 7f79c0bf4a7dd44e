//! The automatic print rules switched on from the environment: for each watched tag, a
//! ticket printed on the edge after a run of non-positive readings.
//!
//! The caller turns each rule into an automation whose trigger compares the reading
//! with zero.

use vstd::prelude::*;
use crate::text::{append_str, chars_of, owned, string_of};

verus! {

/// One automatic print rule.
#[derive(Debug, Clone)]
pub struct AutoPrintRule {
    /// The automation's identifier.
    pub id: String,
    /// The tag watched, or `*` for every tag.
    pub tag_id: String,
    /// The consecutive non-positive readings that fire the rule.
    pub count: usize,
    /// The lines of the ticket printed.
    pub lines: Vec<String>,
}

/// `s` with each `*` written as `any`.
pub open spec fn star_as_any(s: Seq<char>) -> Seq<char>
    decreases s.len(),
{
    if s.len() == 0 {
        Seq::empty()
    } else {
        star_as_any(s.drop_last()) + (if s.last() == '*' {
            "any"@
        } else {
            seq![s.last()]
        })
    }
}

/// The identifier of the rule for a tag.
pub open spec fn auto_print_id(tag_id: Seq<char>) -> Seq<char> {
    "env-auto-non-positive-"@ + star_as_any(tag_id)
}

/// The ticket lines of the rule for a tag.
pub open spec fn auto_print_lines(tag_id: Seq<char>) -> Seq<Seq<char>> {
    seq!["AUTO TRIGGER"@, "TAG: "@ + tag_id, "RULE: consecutive_non_positive"@]
}

/// The tags watched: those configured, or every tag when none is.
pub open spec fn watched_tags(tag_ids: Seq<String>) -> Seq<Seq<char>> {
    if tag_ids.len() == 0 {
        seq!["*"@]
    } else {
        Seq::new(tag_ids.len(), |i: int| tag_ids[i]@)
    }
}

fn star_to_any(s: &str) -> (r: String)
    ensures
        r@ == star_as_any(s@),
{
    let v = chars_of(s);
    let mut out: Vec<char> = Vec::new();
    let mut i: usize = 0;
    while i < v.len()
        invariant
            i <= v@.len(),
            v@ == s@,
            out@ == star_as_any(v@.take(i as int)),
        decreases v@.len() - i,
    {
        assert(v@.take(i as int + 1).drop_last() =~= v@.take(i as int));
        let c = v[i];
        if c == '*' {
            out.push('a');
            out.push('n');
            out.push('y');
            proof {
                reveal_strlit("any");
                assert(out@ =~= star_as_any(v@.take(i as int)) + "any"@);
            }
        } else {
            out.push(c);
        }
        i = i + 1;
    }
    assert(v@.take(v@.len() as int) =~= v@);
    string_of(&out)
}

fn rule_for(tag_id: &str, count: usize) -> (r: AutoPrintRule)
    requires
        count >= 1,
    ensures
        r.id@ == auto_print_id(tag_id@),
        r.tag_id@ == tag_id@,
        r.count == count,
        r.lines@.len() == 3,
        forall|k: int| 0 <= k < 3 ==> #[trigger] r.lines@[k]@ == auto_print_lines(tag_id@)[k],
{
    let mut id = owned("env-auto-non-positive-");
    let tail = star_to_any(tag_id);
    append_str(&mut id, tail.as_str());
    let mut tag_line = owned("TAG: ");
    append_str(&mut tag_line, tag_id);
    let mut lines: Vec<String> = Vec::new();
    lines.push(owned("AUTO TRIGGER"));
    lines.push(tag_line);
    lines.push(owned("RULE: consecutive_non_positive"));
    AutoPrintRule { id, tag_id: owned(tag_id), count, lines }
}

/// The automatic print rules: none when switched off; else one per watched tag, in
/// order, each firing after `consecutive` readings (at least one).
pub fn env_auto_print_rules(enabled: bool, tag_ids: &Vec<String>, consecutive: usize) -> (r: Vec<AutoPrintRule>)
    ensures
        !enabled ==> r@.len() == 0,
        enabled ==> r@.len() == watched_tags(tag_ids@).len(),
        enabled ==> forall|j: int|
            0 <= j < r@.len() ==> {
                let t = watched_tags(tag_ids@)[j];
                &&& (#[trigger] r@[j]).id@ == auto_print_id(t)
                &&& r@[j].tag_id@ == t
                &&& r@[j].count == (if consecutive == 0 { 1 } else { consecutive })
                &&& r@[j].lines@.len() == 3
                &&& forall|k: int| 0 <= k < 3 ==> #[trigger] r@[j].lines@[k]@ == auto_print_lines(t)[k]
            },
{
    let mut out: Vec<AutoPrintRule> = Vec::new();
    if !enabled {
        return out;
    }
    let count: usize = if consecutive == 0 { 1 } else { consecutive };
    if tag_ids.len() == 0 {
        out.push(rule_for("*", count));
        proof {
            reveal_strlit("*");
        }
        return out;
    }
    let mut i: usize = 0;
    while i < tag_ids.len()
        invariant
            i <= tag_ids@.len(),
            tag_ids@.len() > 0,
            count == (if consecutive == 0 { 1 } else { consecutive }),
            out@.len() == i,
            forall|j: int|
                0 <= j < i ==> {
                    let t = watched_tags(tag_ids@)[j];
                    &&& (#[trigger] out@[j]).id@ == auto_print_id(t)
                    &&& out@[j].tag_id@ == t
                    &&& out@[j].count == count
                    &&& out@[j].lines@.len() == 3
                    &&& forall|k: int| 0 <= k < 3 ==> #[trigger] out@[j].lines@[k]@ == auto_print_lines(t)[k]
                },
        decreases tag_ids@.len() - i,
    {
        let rule = rule_for(tag_ids[i].as_str(), count);
        out.push(rule);
        i = i + 1;
    }
    out
}

} // verus!
