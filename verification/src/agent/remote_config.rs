//! Remote configuration pushed over MQTT: the topic it arrives on, the duplicates that
//! are skipped, and the tags a new configuration removes.

use vstd::prelude::*;
use crate::text::{append_str, chars_eq, chars_of, owned};
use crate::agent::printing::views;

verus! {

/// The topic an agent's configuration arrives on: `scada/config/<agent>`.
pub fn config_topic(agent_id: &str) -> (r: String)
    ensures
        r@ == "scada/config/"@ + agent_id@,
{
    let mut t = owned("scada/config/");
    append_str(&mut t, agent_id);
    t
}

/// The last configuration payload applied.
#[derive(Debug, Clone)]
pub struct ConfigDedup {
    pub last_payload: Vec<u8>,
}

impl ConfigDedup {
    /// Nothing applied yet.
    pub fn new() -> (r: Self)
        ensures
            r.last_payload@.len() == 0,
    {
        ConfigDedup { last_payload: Vec::new() }
    }

    /// Whether a payload is a new configuration to apply: not when it is identical to the
    /// last one applied. A new payload becomes the last one.
    pub fn accept(&mut self, payload: &Vec<u8>) -> (r: bool)
        ensures
            r == (payload@ != old(self).last_payload@),
            final(self).last_payload@ == payload@,
    {
        let mut same = self.last_payload.len() == payload.len();
        let mut i: usize = 0;
        while same && i < payload.len()
            invariant
                same ==> self.last_payload@.len() == payload@.len(),
                i <= payload@.len(),
                same ==> forall|j: int| 0 <= j < i ==> self.last_payload@[j] == payload@[j],
                !same ==> self.last_payload@ != payload@,
            decreases payload@.len() - i,
        {
            if self.last_payload[i] != payload[i] {
                same = false;
            }
            i = i + 1;
        }
        if same {
            assert(self.last_payload@ =~= payload@);
            return false;
        }
        self.last_payload = vstd::slice::slice_to_vec(payload.as_slice());
        true
    }
}

/// The identifiers of `existing` that `keep` does not list, in their order.
pub open spec fn removed_spec(existing: Seq<Seq<char>>, keep: Seq<Seq<char>>) -> Seq<Seq<char>>
    decreases existing.len(),
{
    if existing.len() == 0 {
        Seq::empty()
    } else {
        let r = removed_spec(existing.drop_last(), keep);
        if keep.contains(existing.last()) {
            r
        } else {
            r.push(existing.last())
        }
    }
}

/// The tags of the agent that a new configuration no longer lists, in their order.
pub fn removed_tag_ids(existing: &Vec<String>, new_ids: &Vec<String>) -> (r: Vec<String>)
    ensures
        views(r@) == removed_spec(views(existing@), views(new_ids@)),
{
    let mut out: Vec<String> = Vec::new();
    let mut j: usize = 0;
    assert(views(out@) =~= removed_spec(views(existing@).subrange(0, 0), views(new_ids@)));
    while j < existing.len()
        invariant
            j <= existing@.len(),
            views(out@) == removed_spec(views(existing@).subrange(0, j as int), views(new_ids@)),
        decreases existing@.len() - j,
    {
        let e = chars_of(existing[j].as_str());
        let mut found = false;
        let mut k: usize = 0;
        while k < new_ids.len()
            invariant
                k <= new_ids@.len(),
                e@ == existing@[j as int]@,
                found <==> views(new_ids@).subrange(0, k as int).contains(e@),
            decreases new_ids@.len() - k,
        {
            let n = chars_of(new_ids[k].as_str());
            proof {
                let s0 = views(new_ids@).subrange(0, k as int);
                let s1 = views(new_ids@).subrange(0, (k + 1) as int);
                assert(s1 =~= s0.push(new_ids@[k as int]@));
                if s1.contains(e@) {
                    let w = choose|w: int| 0 <= w < s1.len() && s1[w] == e@;
                    if w < s0.len() {
                        assert(s0[w] == e@);
                    }
                }
                if s0.contains(e@) {
                    let w = choose|w: int| 0 <= w < s0.len() && s0[w] == e@;
                    assert(s1[w] == e@);
                }
                if new_ids@[k as int]@ == e@ {
                    assert(s1[k as int] == e@);
                }
                assert(s1.contains(e@) <==> (s0.contains(e@) || new_ids@[k as int]@ == e@));
            }
            if chars_eq(&n, &e) {
                found = true;
            }
            k = k + 1;
        }
        assert(views(new_ids@).subrange(0, new_ids@.len() as int) =~= views(new_ids@));
        let ghost pre = views(existing@).subrange(0, (j + 1) as int);
        assert(pre.drop_last() =~= views(existing@).subrange(0, j as int));
        assert(pre.last() == existing@[j as int]@);
        if !found {
            let ghost before = out@;
            out.push(existing[j].clone());
            assert(views(out@) =~= views(before).push(existing@[j as int]@));
        }
        j = j + 1;
    }
    assert(views(existing@).subrange(0, existing@.len() as int) =~= views(existing@));
    out
}

} // verus!
