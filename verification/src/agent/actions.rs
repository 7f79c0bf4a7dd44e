//! Helpers of the action orchestrator: print layout padding, the ESC/POS byte stream,
//! printer share paths, request deduplication keys, weight buffer naming and bounds.

use vstd::prelude::*;
use vstd::utf8::encode_utf8;
use crate::text::{
    append_str,
    append_chars, chars_eq_str, chars_of, concat_chars, join, lower_seq, owned, spaces, spaces_chars,
    split_on, string_of, trim, trim_chars, trim_lower,
};

verus! {

/// `text`, of `bytes` UTF-8 bytes, padded with spaces on the right until it is `len`
/// bytes long.
pub open spec fn pad_right_spec(text: Seq<char>, bytes: nat, len: nat) -> Seq<char> {
    if bytes < len {
        text + spaces((len - bytes) as nat)
    } else {
        text
    }
}

/// `text`, of `bytes` UTF-8 bytes, padded with spaces on the left until it is `len`
/// bytes long.
pub open spec fn pad_left_spec(text: Seq<char>, bytes: nat, len: nat) -> Seq<char> {
    if bytes < len {
        spaces((len - bytes) as nat) + text
    } else {
        text
    }
}

/// `text` followed by spaces up to `len` bytes.
pub fn pad_right(text: &str, len: usize) -> (r: String)
    ensures
        r@ == pad_right_spec(text@, text.len() as nat, len as nat),
{
    let mut s = owned(text);
    if text.len() < len {
        let pad = spaces_chars(len - text.len());
        append_chars(&mut s, &pad);
    }
    s
}

/// `text` preceded by spaces up to `len` bytes.
pub fn pad_left(text: &str, len: usize) -> (r: String)
    ensures
        r@ == pad_left_spec(text@, text.len() as nat, len as nat),
{
    if text.len() >= len {
        return owned(text);
    }
    let pad = spaces_chars(len - text.len());
    let mut s = string_of(&pad);
    crate::text::append_str(&mut s, text);
    s
}

/// `n` carriage-return/line-feed pairs.
pub open spec fn crlf_n(n: nat) -> Seq<u8>
    decreases n,
{
    if n == 0 {
        Seq::empty()
    } else {
        crlf_n((n - 1) as nat) + seq![13u8, 10u8]
    }
}

/// Every line's UTF-8 bytes followed by CR LF.
pub open spec fn lines_bytes(lines: Seq<Seq<char>>) -> Seq<u8>
    decreases lines.len(),
{
    if lines.len() == 0 {
        Seq::empty()
    } else {
        lines_bytes(lines.drop_last()) + encode_utf8(lines.last()) + seq![13u8, 10u8]
    }
}

/// The ESC/POS job: initialise (`ESC @`), leading feeds, the lines, trailing feeds,
/// and a partial cut (`GS V A 0`) when asked.
pub open spec fn escpos_spec(lines: Seq<Seq<char>>, cut: bool, leading: u8, trailing: u8) -> Seq<u8> {
    seq![0x1Bu8, 0x40u8] + crlf_n(leading as nat) + lines_bytes(lines) + crlf_n(trailing as nat) + (if cut {
        seq![0x1Du8, 0x56u8, 0x41u8, 0x00u8]
    } else {
        Seq::empty()
    })
}

/// The characters of each line.
pub open spec fn lines_view(lines: Seq<String>) -> Seq<Seq<char>> {
    lines.map_values(|l: String| l@)
}

fn push_crlf(out: &mut Vec<u8>, n: u8)
    ensures
        final(out)@ == old(out)@ + crlf_n(n as nat),
{
    let mut i: u8 = 0;
    while i < n
        invariant
            i <= n,
            out@ == old(out)@ + crlf_n(i as nat),
        decreases n - i,
    {
        out.push(13u8);
        out.push(10u8);
        assert(crlf_n((i + 1) as nat) == crlf_n(i as nat) + seq![13u8, 10u8]);
        assert(out@ =~= old(out)@ + crlf_n((i + 1) as nat));
        i = i + 1;
    }
}

fn push_bytes(out: &mut Vec<u8>, b: &[u8])
    ensures
        final(out)@ == old(out)@ + b@,
{
    let mut i: usize = 0;
    while i < b.len()
        invariant
            i <= b.len(),
            out@ == old(out)@ + b@.subrange(0, i as int),
        decreases b.len() - i,
    {
        out.push(b[i]);
        assert(old(out)@ + b@.subrange(0, (i + 1) as int) =~= (old(out)@ + b@.subrange(0, i as int)).push(
            b@[i as int],
        ));
        i = i + 1;
    }
    assert(b@.subrange(0, b.len() as int) =~= b@);
}

/// The bytes sent to an ESC/POS printer for the given lines.
pub fn escpos_bytes_from_lines(lines: &Vec<String>, cut: bool, leading_feed_lines: u8, trailing_feed_lines: u8) -> (r:
    Vec<u8>)
    ensures
        r@ == escpos_spec(lines_view(lines@), cut, leading_feed_lines, trailing_feed_lines),
{
    let mut out: Vec<u8> = Vec::new();
    out.push(0x1B);
    out.push(0x40);
    push_crlf(&mut out, leading_feed_lines);
    let ghost head = out@;
    let mut k: usize = 0;
    while k < lines.len()
        invariant
            k <= lines.len(),
            out@ == head + lines_bytes(lines_view(lines@.subrange(0, k as int))),
        decreases lines.len() - k,
    {
        let ghost before = out@;
        push_bytes(&mut out, lines[k].as_str().as_bytes());
        out.push(13u8);
        out.push(10u8);
        let ghost pre = lines_view(lines@.subrange(0, (k + 1) as int));
        assert(pre.drop_last() =~= lines_view(lines@.subrange(0, k as int)));
        assert(pre.last() == lines@[k as int]@);
        assert(out@ =~= head + lines_bytes(pre));
        k = k + 1;
    }
    assert(lines@.subrange(0, lines.len() as int) =~= lines@);
    push_crlf(&mut out, trailing_feed_lines);
    if cut {
        out.push(0x1D);
        out.push(0x56);
        out.push(0x41);
        out.push(0x00);
    }
    assert(out@ =~= escpos_spec(lines_view(lines@), cut, leading_feed_lines, trailing_feed_lines));
    out
}

/// Leading occurrences of `c` removed.
pub open spec fn strip_start(s: Seq<char>, c: char) -> Seq<char>
    decreases s.len(),
{
    if s.len() > 0 && s[0] == c {
        strip_start(s.drop_first(), c)
    } else {
        s
    }
}

/// Trailing occurrences of `c` removed.
pub open spec fn strip_end(s: Seq<char>, c: char) -> Seq<char>
    decreases s.len(),
{
    if s.len() > 0 && s.last() == c {
        strip_end(s.drop_last(), c)
    } else {
        s
    }
}

/// Forward slashes turned into backslashes.
pub open spec fn slashes_to_backslashes(s: Seq<char>) -> Seq<char> {
    s.map_values(|c: char| if c == '/' { '\\' } else { c })
}

/// The non-blank pieces, each trimmed.
pub open spec fn nonblank_trimmed(ps: Seq<Seq<char>>) -> Seq<Seq<char>>
    decreases ps.len(),
{
    if ps.len() == 0 {
        Seq::empty()
    } else {
        nonblank_trimmed(ps.drop_last()) + (if trim(ps.last()).len() > 0 {
            seq![trim(ps.last())]
        } else {
            Seq::empty()
        })
    }
}

/// The path components of a share path: trimmed, quotes stripped from both ends, `/`
/// read as `\`, split on `\`, blank components dropped and the rest trimmed.
pub open spec fn share_parts(input: Seq<char>) -> Seq<Seq<char>> {
    nonblank_trimmed(split_on(slashes_to_backslashes(strip_end(strip_start(trim(input), '"'), '"')), '\\'))
}

/// A UNC path `\\server\share[\rest]` when at least a server and a share are named.
pub open spec fn windows_share_spec(input: Seq<char>) -> Option<Seq<char>> {
    let parts = share_parts(input);
    if parts.len() < 2 {
        None
    } else {
        Some("\\\\"@ + join(parts, "\\"@))
    }
}

fn strip_quotes(s: &Vec<char>) -> (r: Vec<char>)
    ensures
        r@ == strip_end(strip_start(s@, '"'), '"'),
{
    let n = s.len();
    let mut i: usize = 0;
    assert(s@.subrange(0, n as int) =~= s@);
    while i < n && s[i] == '"'
        invariant
            n == s.len(),
            i <= n,
            strip_start(s@, '"') == strip_start(s@.subrange(i as int, n as int), '"'),
        decreases n - i,
    {
        assert(s@.subrange(i as int, n as int).drop_first() =~= s@.subrange((i + 1) as int, n as int));
        i = i + 1;
    }
    let ghost st = s@.subrange(i as int, n as int);
    assert(strip_start(st, '"') == st);
    let mut j: usize = n;
    while j > i && s[j - 1] == '"'
        invariant
            n == s.len(),
            i <= j <= n,
            strip_start(s@, '"') == st,
            st == s@.subrange(i as int, n as int),
            strip_end(st, '"') == strip_end(s@.subrange(i as int, j as int), '"'),
        decreases j,
    {
        assert(s@.subrange(i as int, j as int).drop_last() =~= s@.subrange(i as int, (j - 1) as int));
        j = j - 1;
    }
    crate::text::slice_chars(s, i, j)
}

fn backslashes(s: &Vec<char>) -> (r: Vec<char>)
    ensures
        r@ == slashes_to_backslashes(s@),
{
    let mut r: Vec<char> = Vec::new();
    let mut i: usize = 0;
    while i < s.len()
        invariant
            i <= s.len(),
            r@ == slashes_to_backslashes(s@.subrange(0, i as int)),
        decreases s.len() - i,
    {
        let c = s[i];
        r.push(if c == '/' { '\\' } else { c });
        assert(slashes_to_backslashes(s@.subrange(0, (i + 1) as int)) =~= slashes_to_backslashes(
            s@.subrange(0, i as int),
        ).push(if c == '/' { '\\' } else { c }));
        i = i + 1;
    }
    assert(s@.subrange(0, s.len() as int) =~= s@);
    r
}

/// The characters of each piece.
pub open spec fn pieces_view(v: Seq<Vec<char>>) -> Seq<Seq<char>> {
    v.map_values(|p: Vec<char>| p@)
}

fn keep_piece(parts: &mut Vec<Vec<char>>, cur: &Vec<char>)
    ensures
        pieces_view(final(parts)@) == pieces_view(old(parts)@) + (if trim(cur@).len() > 0 {
            seq![trim(cur@)]
        } else {
            Seq::<Seq<char>>::empty()
        }),
{
    let t = trim_chars(cur);
    if t.len() > 0 {
        let ghost before = parts@;
        parts.push(t);
        assert(pieces_view(parts@) =~= pieces_view(before) + seq![trim(cur@)]);
    } else {
        assert(pieces_view(parts@) =~= pieces_view(parts@) + Seq::<Seq<char>>::empty());
    }
}

/// The pieces of `s` between occurrences of `sep`, blank ones dropped and the rest
/// trimmed.
pub fn split_nonblank_trimmed(s: &Vec<char>, sep: char) -> (r: Vec<Vec<char>>)
    ensures
        pieces_view(r@) == nonblank_trimmed(split_on(s@, sep)),
{
    let mut parts: Vec<Vec<char>> = Vec::new();
    let mut cur: Vec<char> = Vec::new();
    let ghost mut done: Seq<Seq<char>> = Seq::empty();
    let mut i: usize = 0;
    assert(s@.subrange(0, 0) =~= Seq::<char>::empty());
    assert(pieces_view(parts@) =~= nonblank_trimmed(done));
    while i < s.len()
        invariant
            i <= s.len(),
            split_on(s@.subrange(0, i as int), sep) == done.push(cur@),
            pieces_view(parts@) == nonblank_trimmed(done),
        decreases s.len() - i,
    {
        let c = s[i];
        let ghost pre = s@.subrange(0, (i + 1) as int);
        assert(pre.drop_last() =~= s@.subrange(0, i as int));
        if c == sep {
            keep_piece(&mut parts, &cur);
            proof {
                let nd = done.push(cur@);
                assert(nd.drop_last() =~= done);
                done = nd;
            }
            cur = Vec::new();
            assert(split_on(pre, sep) =~= done.push(cur@));
        } else {
            let ghost before = cur@;
            cur.push(c);
            assert(split_on(pre, sep) =~= done.push(before).update(done.len() as int, before.push(c)));
            assert(done.push(before).update(done.len() as int, before.push(c)) =~= done.push(cur@));
        }
        i = i + 1;
    }
    assert(s@.subrange(0, s.len() as int) =~= s@);
    keep_piece(&mut parts, &cur);
    proof {
        let nd = done.push(cur@);
        assert(nd.drop_last() =~= done);
    }
    parts
}

/// Normalises a Windows printer share to `\\server\share[\rest]`, or `None` when it does
/// not name both a server and a share.
pub fn normalize_windows_share(input: &str) -> (r: Option<String>)
    ensures
        crate::text::opt_string_view(r) == windows_share_spec(input@),
{
    let v = chars_of(input);
    let t = trim_chars(&v);
    let q = strip_quotes(&t);
    let s = backslashes(&q);
    let parts = split_nonblank_trimmed(&s, '\\');
    assert(pieces_view(parts@) == share_parts(input@));
    if parts.len() < 2 {
        return None;
    }
    let mut out: Vec<char> = Vec::new();
    out.push('\\');
    out.push('\\');
    let ghost lead = out@;
    assert(lead =~= "\\\\"@) by {
        reveal_strlit("\\\\");
    }
    out = concat_chars(&out, &parts[0]);
    let mut k: usize = 1;
    assert(pieces_view(parts@).subrange(0, 1) =~= seq![parts@[0]@]);
    while k < parts.len()
        invariant
            1 <= k <= parts.len(),
            out@ == lead + join(pieces_view(parts@).subrange(0, k as int), "\\"@),
        decreases parts.len() - k,
    {
        out.push('\\');
        out = concat_chars(&out, &parts[k]);
        let ghost pre = pieces_view(parts@).subrange(0, (k + 1) as int);
        assert(pre.drop_last() =~= pieces_view(parts@).subrange(0, k as int));
        assert("\\"@ =~= seq!['\\']) by {
            reveal_strlit("\\");
        }
        assert(out@ =~= lead + join(pre, "\\"@));
        k = k + 1;
    }
    assert(pieces_view(parts@).subrange(0, parts.len() as int) =~= pieces_view(parts@));
    Some(string_of(&out))
}

/// Print actions are deduplicated by request id.
pub open spec fn dedupe_spec(action_type: Seq<char>) -> bool {
    let a = lower_seq(trim(action_type));
    a.len() >= 6 && a.subrange(0, 6) == "print."@
}

/// Whether requests of an action type are deduplicated by their request id.
pub fn should_dedupe_request(action_type: &str) -> (r: bool)
    ensures
        r == dedupe_spec(action_type@),
{
    let a = trim_lower(action_type);
    if a.len() < 6 {
        return false;
    }
    let head = crate::text::slice_chars(&a, 0, 6);
    chars_eq_str(&head, "print.")
}

/// The key under which a request is remembered: the normalised action type and the
/// trimmed request id, joined by a colon.
pub open spec fn dedupe_key_spec(action_type: Seq<char>, req_id: Seq<char>) -> Seq<char> {
    lower_seq(trim(action_type)) + ":"@ + trim(req_id)
}

/// The key under which a request is remembered.
pub fn make_request_dedupe_key(action_type: &str, req_id: &str) -> (r: String)
    ensures
        r@ == dedupe_key_spec(action_type@, req_id@),
{
    let a = trim_lower(action_type);
    let mut s = string_of(&a);
    crate::text::append_str(&mut s, ":");
    let rv = chars_of(req_id);
    let rt = trim_chars(&rv);
    append_chars(&mut s, &rt);
    s
}

/// The present, non-blank value, trimmed.
pub open spec fn nonblank(o: Option<Seq<char>>) -> Option<Seq<char>> {
    match o {
        Some(s) => if trim(s).len() > 0 {
            Some(trim(s))
        } else {
            None
        },
        None => None,
    }
}

fn nonblank_of(o: Option<&str>) -> (r: Option<Vec<char>>)
    ensures
        r is Some <==> nonblank(crate::text::opt_view(o)) is Some,
        r is Some ==> r->0@ == nonblank(crate::text::opt_view(o))->0,
{
    match o {
        Some(s) => {
            let v = chars_of(s);
            let t = trim_chars(&v);
            if t.len() > 0 {
                Some(t)
            } else {
                None
            }
        },
        None => None,
    }
}

/// The weight buffer an action uses: an explicit `buffer_id`, else one named after the
/// triggering device, else one named after the triggering automation and tag, else
/// `default`.
pub open spec fn buffer_id_spec(
    buffer_id: Option<Seq<char>>,
    automation_id: Option<Seq<char>>,
    device_id: Option<Seq<char>>,
    tag_id: Option<Seq<char>>,
) -> Seq<char> {
    match nonblank(buffer_id) {
        Some(b) => b,
        None => match nonblank(device_id) {
            Some(d) => "device:"@ + d,
            None => match (nonblank(automation_id), nonblank(tag_id)) {
            (Some(a), Some(t)) => "auto:"@ + a + ":tag:"@ + t,
            (None, Some(t)) => "tag:"@ + t,
            (Some(a), None) => "auto:"@ + a,
            (None, None) => "default"@,
            },
        },
    }
}

/// The weight buffer an action uses, from the payload's `buffer_id` and its trigger's
/// `automation_id`, `device_id` and `tag_id`.
pub fn action_buffer_id(
    buffer_id: Option<&str>,
    automation_id: Option<&str>,
    device_id: Option<&str>,
    tag_id: Option<&str>,
) -> (r: String)
    ensures
        r@ == buffer_id_spec(
            crate::text::opt_view(buffer_id),
            crate::text::opt_view(automation_id),
            crate::text::opt_view(device_id),
            crate::text::opt_view(tag_id),
        ),
{
    if let Some(b) = nonblank_of(buffer_id) {
        return string_of(&b);
    }
    if let Some(d) = nonblank_of(device_id) {
        let mut s = owned("device:");
        append_chars(&mut s, &d);
        return s;
    }
    match (nonblank_of(automation_id), nonblank_of(tag_id)) {
        (Some(a), Some(t)) => {
            let mut s = owned("auto:");
            append_chars(&mut s, &a);
            crate::text::append_str(&mut s, ":tag:");
            append_chars(&mut s, &t);
            s
        },
        (None, Some(t)) => {
            let mut s = owned("tag:");
            append_chars(&mut s, &t);
            s
        },
        (Some(a), None) => {
            let mut s = owned("auto:");
            append_chars(&mut s, &a);
            s
        },
        (None, None) => owned("default"),
    }
}

/// The bound of a weight buffer: `max_items` clamped to `[1, 5000]`, 500 when absent.
pub fn action_buffer_max(max_items: Option<u64>) -> (r: usize)
    ensures
        r == (match max_items {
            Some(v) => if v < 1 {
                1
            } else if v > 5000 {
                5000
            } else {
                v
            },
            None => 500,
        }),
        1 <= r <= 5000,
{
    match max_items {
        Some(v) => if v < 1 {
            1
        } else if v > 5000 {
            5000
        } else {
            v as usize
        },
        None => 500,
    }
}

/// Appends an item to a bounded buffer, dropping the oldest items beyond `max_items`.
pub fn push_bounded<T>(buf: &mut Vec<T>, item: T, max_items: usize)
    requires
        max_items >= 1,
    ensures
        ({
            let full = old(buf)@.push(item);
            &&& full.len() <= max_items ==> final(buf)@ == full
            &&& full.len() > max_items ==> final(buf)@ == full.subrange(
                full.len() - max_items,
                full.len() as int,
            )
        }),
{
    buf.push(item);
    if buf.len() > max_items {
        let drop_n: usize = buf.len() - max_items;
        let ghost full = buf@;
        let mut tail = buf.split_off(drop_n);
        assert(tail@ == full.subrange(drop_n as int, full.len() as int));
        std::mem::swap(buf, &mut tail);
    }
}

/// The samples a print from a buffer takes: all it holds, in order, the buffer emptied
/// when `clear_after` and left as it was otherwise (the samples are then copies). An empty
/// buffer gives an error naming it.
pub fn take_for_print<T: Clone>(buf: &mut Vec<T>, clear_after: bool, buffer_id: &str) -> (r: Result<Vec<T>, String>)
    ensures
        clear_after ==> final(buf)@.len() == 0,
        !clear_after ==> final(buf)@ == old(buf)@,
        old(buf)@.len() == 0 ==> (r matches Err(e) && e@ == "buffer '"@ + buffer_id@ + "' is empty"@),
        old(buf)@.len() > 0 ==> (r matches Ok(s) && s@.len() == old(buf)@.len() && forall|i: int|
            0 <= i < s@.len() ==> cloned(old(buf)@[i], #[trigger] s@[i])),
        clear_after ==> (r matches Ok(s) ==> s@ == old(buf)@),
{
    let samples = if clear_after {
        let mut taken: Vec<T> = Vec::new();
        std::mem::swap(&mut taken, buf);
        taken
    } else {
        buf.clone()
    };
    if samples.len() == 0 {
        let mut e = owned("buffer '");
        append_str(&mut e, buffer_id);
        append_str(&mut e, "' is empty");
        Err(e)
    } else {
        Ok(samples)
    }
}

} // verus!
