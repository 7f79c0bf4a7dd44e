//! Configuration for the supervisor, read from the same `edge.env` the agent uses.
//!
//! Built from a variable map rather than from the process environment, so that every
//! rule can be driven directly.

use vstd::prelude::*;
use crate::text::{
    chars_of, parse_u64_chars, parse_u64_spec, string_of, strip_slashes, strip_trailing_slashes, trim, trim_chars,
};

verus! {

/// How long, in seconds, central holds an unanswered long-poll before replying empty.
pub const DEFAULT_WAIT_SECS: u64 = 25;

/// How long, in seconds, to wait before relaunching an agent that exited.
pub const DEFAULT_RESTART_DELAY_SECS: u64 = 5;

/// The pieces of `s` between newline characters, as `str::split('\n')` gives them.
pub open spec fn split_newlines(s: Seq<char>) -> Seq<Seq<char>>
    decreases s.len(),
{
    if s.len() == 0 {
        seq![Seq::<char>::empty()]
    } else {
        let p = split_newlines(s.drop_last());
        if s.last() == '\n' {
            p.push(Seq::<char>::empty())
        } else {
            p.update(p.len() - 1, p.last().push(s.last()))
        }
    }
}

/// `i` is the position of the first `=` in `t`.
pub open spec fn is_first_eq(t: Seq<char>, i: int) -> bool {
    &&& 0 <= i < t.len()
    &&& t[i] == '='
    &&& forall|j: int| 0 <= j < i ==> t[j] != '='
}

/// The variable a line defines: the line is trimmed; comments (`#` first) and lines
/// without `=` define nothing; the first `=` splits key from value, both trimmed; an
/// empty key defines nothing.
pub open spec fn line_entry(line: Seq<char>) -> Option<(Seq<char>, Seq<char>)> {
    let t = trim(line);
    if t.len() > 0 && t[0] == '#' {
        None
    } else if exists|i: int| is_first_eq(t, i) {
        let i = choose|i: int| is_first_eq(t, i);
        let k = trim(t.subrange(0, i));
        if k.len() == 0 {
            None
        } else {
            Some((k, trim(t.subrange(i + 1, t.len() as int))))
        }
    } else {
        None
    }
}

/// The variables a sequence of lines defines; a later line overrides an earlier one.
pub open spec fn env_map(lines: Seq<Seq<char>>) -> Map<Seq<char>, Seq<char>>
    decreases lines.len(),
{
    if lines.len() == 0 {
        Map::empty()
    } else {
        let m = env_map(lines.drop_last());
        match line_entry(lines.last()) {
            Some(kv) => m.insert(kv.0, kv.1),
            None => m,
        }
    }
}

/// The variables an `edge.env` text defines.
pub open spec fn parse_env_spec(content: Seq<char>) -> Map<Seq<char>, Seq<char>> {
    env_map(split_newlines(content))
}

/// The map an association list denotes, later pairs overriding earlier ones.
pub open spec fn assoc_map(e: Seq<(String, String)>) -> Map<Seq<char>, Seq<char>>
    decreases e.len(),
{
    if e.len() == 0 {
        Map::empty()
    } else {
        assoc_map(e.drop_last()).insert(e.last().0@, e.last().1@)
    }
}

/// No key occurs twice.
pub open spec fn keys_distinct(e: Seq<(String, String)>) -> bool {
    forall|i: int, j: int| 0 <= i < j < e.len() ==> e[i].0@ != e[j].0@
}

/// A set of named variables, each name once.
#[derive(Debug, Clone)]
pub struct EnvVars {
    entries: Vec<(String, String)>,
}

impl View for EnvVars {
    type V = Map<Seq<char>, Seq<char>>;

    closed spec fn view(&self) -> Map<Seq<char>, Seq<char>> {
        assoc_map(self.entries@)
    }
}

proof fn lemma_assoc_map_key(e: Seq<(String, String)>, k: Seq<char>)
    requires
        keys_distinct(e),
    ensures
        assoc_map(e).contains_key(k) <==> exists|i: int| 0 <= i < e.len() && e[i].0@ == k,
        forall|i: int| 0 <= i < e.len() && e[i].0@ == k ==> assoc_map(e)[k] == e[i].1@,
    decreases e.len(),
{
    if e.len() > 0 {
        let d = e.drop_last();
        assert(keys_distinct(d));
        lemma_assoc_map_key(d, k);
        if assoc_map(d).contains_key(k) {
            let i = choose|i: int| 0 <= i < d.len() && d[i].0@ == k;
            assert(e[i].0@ == k);
        }
        if exists|i: int| 0 <= i < e.len() && e[i].0@ == k {
            let i = choose|i: int| 0 <= i < e.len() && e[i].0@ == k;
            if i < e.len() - 1 {
                assert(d[i].0@ == k);
            }
        }
    }
}

proof fn lemma_assoc_map_update(e: Seq<(String, String)>, j: int, k: String, v: String)
    requires
        keys_distinct(e),
        0 <= j < e.len(),
        e[j].0@ == k@,
    ensures
        assoc_map(e.update(j, (k, v))) =~= assoc_map(e).insert(k@, v@),
    decreases e.len(),
{
    let u = e.update(j, (k, v));
    if j == e.len() - 1 {
        assert(u.drop_last() =~= e.drop_last());
    } else {
        let d = e.drop_last();
        assert(u.drop_last() =~= d.update(j, (k, v)));
        lemma_assoc_map_update(d, j, k, v);
        assert(e.last().0@ != k@);
    }
}

proof fn lemma_assoc_map_len(e: Seq<(String, String)>)
    requires
        keys_distinct(e),
    ensures
        assoc_map(e).dom().finite(),
        assoc_map(e).dom().len() == e.len(),
    decreases e.len(),
{
    if e.len() > 0 {
        let d = e.drop_last();
        lemma_assoc_map_len(d);
        lemma_assoc_map_key(d, e.last().0@);
        assert(!assoc_map(d).contains_key(e.last().0@));
        assert(assoc_map(e).dom() =~= assoc_map(d).dom().insert(e.last().0@));
    } else {
        assert(assoc_map(e).dom() =~= Set::<Seq<char>>::empty());
    }
}

impl EnvVars {
    pub closed spec fn wf(&self) -> bool {
        keys_distinct(self.entries@)
    }

    /// No variables.
    pub fn new() -> (r: EnvVars)
        ensures
            r.wf(),
            r@ == Map::<Seq<char>, Seq<char>>::empty(),
    {
        EnvVars { entries: Vec::new() }
    }

    fn find(&self, key: &str) -> (r: Option<usize>)
        requires
            self.wf(),
        ensures
            r is Some ==> r->0 < self.entries.len() && self.entries@[r->0 as int].0@ == key@,
            r is None ==> forall|i: int| 0 <= i < self.entries.len() ==> self.entries@[i].0@ != key@,
    {
        let kv = chars_of(key);
        let mut i: usize = 0;
        while i < self.entries.len()
            invariant
                kv@ == key@,
                i <= self.entries.len(),
                forall|j: int| 0 <= j < i ==> self.entries@[j].0@ != key@,
            decreases self.entries.len() - i,
        {
            let ek = chars_of(self.entries[i].0.as_str());
            if crate::text::chars_eq(&ek, &kv) {
                return Some(i);
            }
            i = i + 1;
        }
        None
    }

    /// Sets `key` to `value`, replacing an earlier value.
    pub fn insert(&mut self, key: String, value: String)
        requires
            old(self).wf(),
        ensures
            final(self).wf(),
            final(self)@ == old(self)@.insert(key@, value@),
    {
        match self.find(key.as_str()) {
            Some(j) => {
                proof {
                    lemma_assoc_map_update(self.entries@, j as int, key, value);
                }
                let ghost before = self.entries@;
                self.entries.set(j, (key, value));
                assert(self.entries@ =~= before.update(j as int, (key, value)));
                assert(keys_distinct(self.entries@)) by {
                    assert forall|a: int, b: int| 0 <= a < b < self.entries@.len() implies self.entries@[a].0@
                        != self.entries@[b].0@ by {
                        if a != j as int && b != j as int {
                            assert(self.entries@[a] == before[a]);
                            assert(self.entries@[b] == before[b]);
                        }
                    }
                }
            },
            None => {
                let ghost before = self.entries@;
                self.entries.push((key, value));
                assert(self.entries@.drop_last() =~= before);
            },
        }
    }

    /// The value of `key`, if it is set.
    pub fn get(&self, key: &str) -> (r: Option<&str>)
        requires
            self.wf(),
        ensures
            r is Some <==> self@.contains_key(key@),
            r is Some ==> r->0@ == self@[key@],
    {
        proof {
            lemma_assoc_map_key(self.entries@, key@);
        }
        match self.find(key) {
            Some(j) => Some(self.entries[j].1.as_str()),
            None => None,
        }
    }

    /// The number of variables set.
    pub fn len(&self) -> (r: usize)
        requires
            self.wf(),
        ensures
            r == self@.dom().len(),
    {
        proof {
            lemma_assoc_map_len(self.entries@);
        }
        self.entries.len()
    }

    /// The name and value of the `i`-th variable, in insertion order.
    pub fn entry(&self, i: usize) -> (r: (&str, &str))
        requires
            self.wf(),
            i < self@.dom().len(),
        ensures
            self@.contains_key(r.0@),
            self@[r.0@] == r.1@,
    {
        proof {
            lemma_assoc_map_len(self.entries@);
            lemma_assoc_map_key(self.entries@, self.entries@[i as int].0@);
        }
        (self.entries[i].0.as_str(), self.entries[i].1.as_str())
    }
}

/// Finds the first `=` of `t`.
fn first_eq(t: &Vec<char>) -> (r: Option<usize>)
    ensures
        r is Some ==> is_first_eq(t@, r->0 as int),
        r is None ==> !(exists|i: int| is_first_eq(t@, i)),
{
    let mut i: usize = 0;
    while i < t.len()
        invariant
            i <= t.len(),
            forall|j: int| 0 <= j < i ==> t@[j] != '=',
        decreases t.len() - i,
    {
        if t[i] == '=' {
            return Some(i);
        }
        i = i + 1;
    }
    proof {
        assert forall|k: int| !is_first_eq(t@, k) by {
            if 0 <= k < t@.len() {
                assert(t@[k] != '=');
            }
        }
    }
    None
}

/// The variable one line defines.
fn parse_line(line: &Vec<char>) -> (r: Option<(String, String)>)
    ensures
        r is None <==> line_entry(line@) is None,
        r matches Some(kv) ==> (kv.0@, kv.1@) == line_entry(line@)->0,
{
    let t = trim_chars(line);
    if t.len() > 0 && t[0] == '#' {
        return None;
    }
    match first_eq(&t) {
        None => None,
        Some(i) => {
            proof {
                let c = choose|k: int| is_first_eq(t@, k);
                assert(is_first_eq(t@, c));
                if c < i as int {
                    assert(t@[c] != '=');
                }
                if (i as int) < c {
                    assert(t@[i as int] != '=');
                }
                assert(c == i as int);
            }
            let kpart = crate::text::slice_chars(&t, 0, i);
            let k = trim_chars(&kpart);
            if k.len() == 0 {
                return None;
            }
            let vpart = crate::text::slice_chars(&t, i + 1, t.len());
            let v = trim_chars(&vpart);
            Some((string_of(&k), string_of(&v)))
        },
    }
}

proof fn lemma_split_newlines_nonempty(s: Seq<char>)
    ensures
        split_newlines(s).len() >= 1,
    decreases s.len(),
{
    if s.len() > 0 {
        lemma_split_newlines_nonempty(s.drop_last());
    }
}

/// Reads an `edge.env` text: comments and lines with no `=` are skipped, only the first
/// `=` splits, keys and values are trimmed, and a later definition wins.
pub fn parse_env_file(content: &str) -> (r: EnvVars)
    ensures
        r.wf(),
        r@ == parse_env_spec(content@),
{
    let s = chars_of(content);
    let mut vars = EnvVars::new();
    let mut cur: Vec<char> = Vec::new();
    let ghost mut done: Seq<Seq<char>> = Seq::empty();
    let mut i: usize = 0;
    assert(s@.subrange(0, 0) =~= Seq::<char>::empty());
    while i < s.len()
        invariant
            s@ == content@,
            i <= s.len(),
            vars.wf(),
            split_newlines(s@.subrange(0, i as int)) == done.push(cur@),
            vars@ == env_map(done),
        decreases s.len() - i,
    {
        let c = s[i];
        let ghost pre = s@.subrange(0, (i + 1) as int);
        assert(pre.drop_last() =~= s@.subrange(0, i as int));
        if c == '\n' {
            let entry = parse_line(&cur);
            proof {
                let nd = done.push(cur@);
                assert(nd.drop_last() =~= done);
                assert(nd.last() == cur@);
                done = nd;
            }
            match entry {
                Some((k, v)) => {
                    vars.insert(k, v);
                },
                None => {},
            }
            cur = Vec::new();
            assert(split_newlines(pre) =~= done.push(cur@));
        } else {
            let ghost before = cur@;
            cur.push(c);
            assert(split_newlines(pre) =~= done.push(before).update(done.len() as int, before.push(c)));
            assert(done.push(before).update(done.len() as int, before.push(c)) =~= done.push(cur@));
        }
        i = i + 1;
    }
    assert(s@.subrange(0, s.len() as int) =~= s@);
    let entry = parse_line(&cur);
    proof {
        let nd = done.push(cur@);
        assert(nd.drop_last() =~= done);
        assert(nd.last() == cur@);
    }
    match entry {
        Some((k, v)) => {
            vars.insert(k, v);
        },
        None => {},
    }
    vars
}

/// Everything needed to ask central for orders.
#[derive(Debug, Clone, PartialEq, Eq)]
pub struct ControlConfig {
    pub base_url: String,
    pub enroll_token: String,
    pub edge_id: String,
    pub wait_secs: u64,
}

#[derive(Debug, Clone, PartialEq, Eq)]
pub struct SupervisorConfig {
    pub agent_path: String,
    pub restart_delay_secs: u64,
    /// Where the agent's stdout and stderr are appended. `None` discards them.
    pub log_dir: Option<String>,
    /// `None` means remote control is disabled and the supervisor only babysits the child.
    pub control: Option<ControlConfig>,
}

/// A variable that is set to something other than white space, trimmed.
pub open spec fn var_spec(m: Map<Seq<char>, Seq<char>>, k: Seq<char>) -> Option<Seq<char>> {
    if m.contains_key(k) && trim(m[k]).len() > 0 {
        Some(trim(m[k]))
    } else {
        None
    }
}

/// The long-poll wait: a positive number of seconds, or the default.
pub open spec fn wait_spec(m: Map<Seq<char>, Seq<char>>) -> u64 {
    match var_spec(m, "EDGE_SUPERVISOR_WAIT_SECS"@) {
        Some(w) => match parse_u64_spec(w) {
            Some(n) => if n > 0 {
                n
            } else {
                DEFAULT_WAIT_SECS
            },
            None => DEFAULT_WAIT_SECS,
        },
        None => DEFAULT_WAIT_SECS,
    }
}

fn var(vars: &EnvVars, key: &str) -> (r: Option<Vec<char>>)
    requires
        vars.wf(),
    ensures
        r is Some <==> var_spec(vars@, key@) is Some,
        r is Some ==> r->0@ == var_spec(vars@, key@)->0,
{
    match vars.get(key) {
        None => None,
        Some(v) => {
            let cv = chars_of(v);
            let t = trim_chars(&cv);
            if t.len() == 0 {
                None
            } else {
                Some(t)
            }
        },
    }
}

impl SupervisorConfig {
    /// The supervisor's settings. Remote control needs all of `EDGE_CONFIG_URL`,
    /// `EDGE_ENROLL_TOKEN` and `EDGE_AGENT`; any one missing disables it and never
    /// aborts. The agent path, log directory and wait can be overridden.
    pub fn from_vars(vars: &EnvVars, default_agent_path: String) -> (r: SupervisorConfig)
        requires
            vars.wf(),
        ensures
            r.agent_path@ == (match var_spec(vars@, "EDGE_SUPERVISOR_AGENT_PATH"@) {
                Some(p) => p,
                None => default_agent_path@,
            }),
            r.restart_delay_secs == DEFAULT_RESTART_DELAY_SECS,
            crate::text::opt_string_view(r.log_dir) == var_spec(vars@, "EDGE_SUPERVISOR_LOG_DIR"@),
            r.control is Some <==> (var_spec(vars@, "EDGE_CONFIG_URL"@) is Some && var_spec(
                vars@,
                "EDGE_ENROLL_TOKEN"@,
            ) is Some && var_spec(vars@, "EDGE_AGENT"@) is Some),
            r.control is Some ==> {
                let c = r.control->0;
                &&& c.base_url@ == strip_trailing_slashes(var_spec(vars@, "EDGE_CONFIG_URL"@)->0)
                &&& c.enroll_token@ == var_spec(vars@, "EDGE_ENROLL_TOKEN"@)->0
                &&& c.edge_id@ == var_spec(vars@, "EDGE_AGENT"@)->0
                &&& c.wait_secs == wait_spec(vars@)
            },
    {
        let wait: u64 = match var(vars, "EDGE_SUPERVISOR_WAIT_SECS") {
            Some(w) => match parse_u64_chars(&w) {
                Some(n) => if n > 0 { n } else { DEFAULT_WAIT_SECS },
                None => DEFAULT_WAIT_SECS,
            },
            None => DEFAULT_WAIT_SECS,
        };
        let control = match (var(vars, "EDGE_CONFIG_URL"), var(vars, "EDGE_ENROLL_TOKEN"), var(vars, "EDGE_AGENT")) {
            (Some(base_url), Some(enroll_token), Some(edge_id)) => {
                let b = strip_slashes(&base_url);
                Some(
                    ControlConfig {
                        base_url: string_of(&b),
                        enroll_token: string_of(&enroll_token),
                        edge_id: string_of(&edge_id),
                        wait_secs: wait,
                    },
                )
            },
            _ => None,
        };
        let agent_path = match var(vars, "EDGE_SUPERVISOR_AGENT_PATH") {
            Some(p) => string_of(&p),
            None => default_agent_path,
        };
        let log_dir = match var(vars, "EDGE_SUPERVISOR_LOG_DIR") {
            Some(d) => Some(string_of(&d)),
            None => None,
        };
        SupervisorConfig { agent_path, restart_delay_secs: DEFAULT_RESTART_DELAY_SECS, log_dir, control }
    }
}

} // verus!
