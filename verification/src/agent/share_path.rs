//! Normalising a Windows printer share path a second time changes nothing.

use vstd::prelude::*;
use crate::agent::actions::{
    nonblank_trimmed, share_parts, slashes_to_backslashes, strip_end, strip_start, windows_share_spec,
};
use crate::text::{
    is_ws, join, lemma_split_on_nonempty, lemma_trim_end_shape, lemma_trim_idempotent, split_on, trim, trim_end,
    trim_start,
};

verus! {

/// Neither a backslash nor a forward slash occurs in `q`.
pub open spec fn no_separator(q: Seq<char>) -> bool {
    forall|i: int| 0 <= i < q.len() ==> q[i] != '\\' && q[i] != '/'
}

/// A component of a normalised share path: not empty, already trimmed, and without
/// separators.
pub open spec fn clean_part(q: Seq<char>) -> bool {
    q.len() > 0 && trim(q) == q && no_separator(q)
}

proof fn lemma_trim_start_keeps_clean_chars(x: Seq<char>)
    requires
        no_separator(x),
    ensures
        no_separator(trim_start(x)),
    decreases x.len(),
{
    if x.len() > 0 && is_ws(x[0]) {
        assert(no_separator(x.drop_first()));
        lemma_trim_start_keeps_clean_chars(x.drop_first());
    }
}

proof fn lemma_trim_end_keeps_clean_chars(x: Seq<char>)
    requires
        no_separator(x),
    ensures
        no_separator(trim_end(x)),
    decreases x.len(),
{
    if x.len() > 0 && is_ws(x.last()) {
        assert(no_separator(x.drop_last()));
        lemma_trim_end_keeps_clean_chars(x.drop_last());
    }
}

/// With no forward slash in `s`, no piece of `s` split on backslashes holds a separator.
proof fn lemma_split_pieces_clean(s: Seq<char>)
    requires
        forall|i: int| 0 <= i < s.len() ==> s[i] != '/',
    ensures
        forall|k: int| 0 <= k < split_on(s, '\\').len() ==> no_separator(#[trigger] split_on(s, '\\')[k]),
    decreases s.len(),
{
    if s.len() > 0 {
        let d = s.drop_last();
        lemma_split_pieces_clean(d);
        lemma_split_on_nonempty(d, '\\');
        let p = split_on(d, '\\');
        if s.last() != '\\' {
            let q = p.update(p.len() - 1, p.last().push(s.last()));
            assert(split_on(s, '\\') == q);
            assert forall|k: int| 0 <= k < q.len() implies no_separator(#[trigger] q[k]) by {
                if k == p.len() - 1 {
                    assert(no_separator(p[k]));
                }
            }
        }
    }
}

/// Pieces without separators, blank ones dropped and the rest trimmed, are clean.
proof fn lemma_nonblank_trimmed_clean(ps: Seq<Seq<char>>)
    requires
        forall|k: int| 0 <= k < ps.len() ==> no_separator(#[trigger] ps[k]),
    ensures
        forall|k: int|
            0 <= k < nonblank_trimmed(ps).len() ==> clean_part(#[trigger] nonblank_trimmed(ps)[k]),
    decreases ps.len(),
{
    if ps.len() > 0 {
        let d = ps.drop_last();
        assert forall|k: int| 0 <= k < d.len() implies no_separator(#[trigger] d[k]) by {
            assert(d[k] == ps[k]);
        }
        lemma_nonblank_trimmed_clean(d);
        let t = trim(ps.last());
        assert(no_separator(ps[ps.len() - 1]));
        lemma_trim_start_keeps_clean_chars(ps.last());
        lemma_trim_end_keeps_clean_chars(trim_start(ps.last()));
        lemma_trim_idempotent(ps.last());
        let r = nonblank_trimmed(ps);
        assert forall|k: int| 0 <= k < r.len() implies clean_part(#[trigger] r[k]) by {
            if k >= nonblank_trimmed(d).len() {
                assert(r[k] == t);
            } else {
                assert(r[k] == nonblank_trimmed(d)[k]);
            }
        }
    }
}

/// Splitting text that holds no separator after `u` only extends `u`'s last piece.
proof fn lemma_split_append_plain(u: Seq<char>, t: Seq<char>, sep: char)
    requires
        forall|i: int| 0 <= i < t.len() ==> t[i] != sep,
    ensures
        split_on(u + t, sep) == split_on(u, sep).update(
            split_on(u, sep).len() - 1,
            split_on(u, sep).last() + t,
        ),
    decreases t.len(),
{
    lemma_split_on_nonempty(u, sep);
    let q = split_on(u, sep);
    if t.len() == 0 {
        assert(u + t =~= u);
        assert(q.last() + t =~= q.last());
        assert(q.update(q.len() - 1, q.last()) =~= q);
    } else {
        let t0 = t.drop_last();
        lemma_split_append_plain(u, t0, sep);
        assert((u + t).drop_last() =~= u + t0);
        assert((u + t).last() == t.last());
        assert(q.last() + t0 + seq![t.last()] =~= q.last() + t);
        let p = split_on(u + t0, sep);
        assert(t[t.len() - 1] != sep);
        assert(split_on(u + t, sep) == p.update(p.len() - 1, p.last().push(t.last())));
        assert(p.len() == q.len());
        assert(p.last() == q.last() + t0);
        assert(p.last().push(t.last()) =~= q.last() + t);
        assert(p.update(p.len() - 1, p.last().push(t.last())) =~= q.update(q.len() - 1, q.last() + t));
    }
}

/// Splitting `u`, a separator, and parts joined with that separator gives the pieces
/// of `u` followed by the parts.
proof fn lemma_split_join(u: Seq<char>, parts: Seq<Seq<char>>)
    requires
        parts.len() >= 1,
        forall|k: int| 0 <= k < parts.len() ==> no_separator(#[trigger] parts[k]),
    ensures
        split_on(u.push('\\') + join(parts, seq!['\\']), '\\') == split_on(u, '\\') + parts,
    decreases parts.len(),
{
    let sep = '\\';
    let up = u.push(sep);
    assert(up.drop_last() =~= u);
    assert(split_on(up, sep) == split_on(u, sep).push(Seq::<char>::empty()));
    if parts.len() == 1 {
        assert(join(parts, seq![sep]) == parts[0]);
        assert(no_separator(parts[0]));
        lemma_split_append_plain(up, parts[0], sep);
        assert(Seq::<char>::empty() + parts[0] =~= parts[0]);
        assert(split_on(u, sep).push(Seq::<char>::empty()).update(split_on(u, sep).len() as int, parts[0])
            =~= split_on(u, sep) + parts);
    } else {
        let d = parts.drop_last();
        let last = parts.last();
        assert forall|k: int| 0 <= k < d.len() implies no_separator(#[trigger] d[k]) by {
            assert(d[k] == parts[k]);
        }
        lemma_split_join(u, d);
        let x = up + join(d, seq![sep]);
        assert(join(parts, seq![sep]) == join(d, seq![sep]) + seq![sep] + last);
        assert(up + join(parts, seq![sep]) =~= x.push(sep) + last);
        assert(no_separator(parts[parts.len() - 1]));
        lemma_split_append_plain(x.push(sep), last, sep);
        assert(x.push(sep).drop_last() =~= x);
        lemma_split_on_nonempty(x, sep);
        let px = split_on(x, sep);
        assert(split_on(x.push(sep), sep) == px.push(Seq::<char>::empty()));
        assert(Seq::<char>::empty() + last =~= last);
        assert(px.push(Seq::<char>::empty()).update(px.len() as int, last) =~= px.push(last));
        assert(split_on(u, sep) + d.push(last) =~= split_on(u, sep) + parts);
        assert(d.push(last) =~= parts);
        assert(px.push(last) =~= split_on(u, sep) + d + seq![last]);
    }
}

/// Dropping blanks and trimming works piece by piece.
proof fn lemma_nonblank_trimmed_append(a: Seq<Seq<char>>, b: Seq<Seq<char>>)
    ensures
        nonblank_trimmed(a + b) == nonblank_trimmed(a) + nonblank_trimmed(b),
    decreases b.len(),
{
    if b.len() == 0 {
        assert(a + b =~= a);
        assert(nonblank_trimmed(a) + nonblank_trimmed(b) =~= nonblank_trimmed(a));
    } else {
        lemma_nonblank_trimmed_append(a, b.drop_last());
        assert((a + b).drop_last() =~= a + b.drop_last());
        assert((a + b).last() == b.last());
        let tail = if trim(b.last()).len() > 0 {
            seq![trim(b.last())]
        } else {
            Seq::<Seq<char>>::empty()
        };
        assert(nonblank_trimmed(a) + nonblank_trimmed(b.drop_last()) + tail =~= nonblank_trimmed(a) + (
        nonblank_trimmed(b.drop_last()) + tail));
    }
}

/// Clean parts are their own blanks-dropped, trimmed selves.
proof fn lemma_nonblank_trimmed_of_clean(parts: Seq<Seq<char>>)
    requires
        forall|k: int| 0 <= k < parts.len() ==> clean_part(#[trigger] parts[k]),
    ensures
        nonblank_trimmed(parts) == parts,
    decreases parts.len(),
{
    if parts.len() > 0 {
        let d = parts.drop_last();
        assert forall|k: int| 0 <= k < d.len() implies clean_part(#[trigger] d[k]) by {
            assert(d[k] == parts[k]);
        }
        lemma_nonblank_trimmed_of_clean(d);
        assert(clean_part(parts[parts.len() - 1]));
        assert(d.push(parts.last()) =~= parts);
    }
}

/// Parts without forward slashes, joined with backslashes, hold no forward slash, and
/// the joined text ends with the last part's last character.
proof fn lemma_join_shape(parts: Seq<Seq<char>>)
    requires
        parts.len() >= 1,
        forall|k: int| 0 <= k < parts.len() ==> clean_part(#[trigger] parts[k]),
    ensures
        forall|i: int| 0 <= i < join(parts, seq!['\\']).len() ==> join(parts, seq!['\\'])[i] != '/',
        join(parts, seq!['\\']).len() > 0,
        join(parts, seq!['\\']).last() == parts.last().last(),
    decreases parts.len(),
{
    let j = join(parts, seq!['\\']);
    assert(clean_part(parts[parts.len() - 1]));
    if parts.len() == 1 {
        assert(j == parts[0]);
    } else {
        let d = parts.drop_last();
        assert forall|k: int| 0 <= k < d.len() implies clean_part(#[trigger] d[k]) by {
            assert(d[k] == parts[k]);
        }
        lemma_join_shape(d);
        let jd = join(d, seq!['\\']);
        let last = parts.last();
        assert(j == jd + seq!['\\'] + last);
        assert forall|i: int| 0 <= i < j.len() implies j[i] != '/' by {
            if i < jd.len() {
                assert(j[i] == jd[i]);
            } else if i == jd.len() {
                assert(j[i] == '\\');
            } else {
                assert(j[i] == last[i - jd.len() - 1]);
            }
        }
        assert(j.last() == last.last());
    }
}

/// Normalising a share path again gives it back: when `x` normalises to `y`, so does
/// `y` itself, unless `y` ends with a double quote (an input such as `\\srv\ab" \`
/// keeps a quote at the end of its last component, which a second pass strips).
pub proof fn lemma_normalize_windows_share_idempotent(x: Seq<char>, y: Seq<char>)
    requires
        windows_share_spec(x) == Some(y),
        y.last() != '"',
    ensures
        windows_share_spec(y) == Some(y),
{
    reveal_strlit("\\");
    reveal_strlit("\\\\");
    let sep = '\\';
    let q = strip_end(strip_start(trim(x), '"'), '"');
    let s = slashes_to_backslashes(q);
    assert forall|i: int| 0 <= i < s.len() implies s[i] != '/' by {}
    lemma_split_pieces_clean(s);
    let parts = share_parts(x);
    lemma_nonblank_trimmed_clean(split_on(s, sep));
    assert(parts.len() >= 2);
    assert("\\"@ =~= seq![sep]);
    let j = join(parts, seq![sep]);
    assert(y == "\\\\"@ + j);
    assert("\\\\"@ =~= seq![sep].push(sep));
    lemma_join_shape(parts);
    // y holds no forward slash, so reading slashes as backslashes leaves it as it is.
    assert forall|i: int| 0 <= i < y.len() implies y[i] != '/' by {
        if i >= 2 {
            assert(y[i] == j[i - 2]);
        }
    }
    assert(slashes_to_backslashes(y) =~= y);
    // y starts with a backslash and ends with the last part's last character, which is
    // not white space.
    let lp = parts.last();
    assert(clean_part(parts[parts.len() - 1]));
    lemma_trim_end_shape(trim_start(lp));
    assert(!is_ws(lp.last()));
    assert(y.last() == j.last());
    assert(y[0] == sep);
    assert(trim_start(y) == y);
    assert(trim_end(y) == y);
    assert(trim(y) == y);
    assert(strip_start(y, '"') == y);
    assert(strip_end(y, '"') == y);
    // Splitting y gives two empty pieces, then the parts.
    assert(seq![sep].push(sep) + j =~= y);
    assert forall|k: int| 0 <= k < parts.len() implies no_separator(#[trigger] parts[k]) by {
        assert(clean_part(parts[k]));
    }
    lemma_split_join(seq![sep], parts);
    let e = Seq::<char>::empty();
    assert(seq![sep].drop_last() =~= e);
    assert(split_on(e, sep) == seq![e]);
    assert(split_on(seq![sep], sep) == seq![e, e]);
    lemma_nonblank_trimmed_append(seq![e, e], parts);
    assert(trim_start(e) == e);
    assert(trim_end(e) == e);
    assert(trim(e).len() == 0);
    let none = Seq::<Seq<char>>::empty();
    assert(seq![e, e].drop_last() =~= seq![e]);
    assert(seq![e].drop_last() =~= none);
    assert(nonblank_trimmed(none) == none);
    assert(nonblank_trimmed(seq![e]) == nonblank_trimmed(none) + none);
    assert(nonblank_trimmed(seq![e]) =~= none);
    assert(nonblank_trimmed(seq![e, e]) == nonblank_trimmed(seq![e]) + none);
    assert(nonblank_trimmed(seq![e, e]) =~= none);
    lemma_nonblank_trimmed_of_clean(parts);
    assert(share_parts(y) =~= parts);
}

} // verus!
