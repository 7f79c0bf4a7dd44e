//! Lower-case hexadecimal encoding of bytes and its decoder.

use vstd::prelude::*;
use crate::text::{append_str, chars_of, digit_char, is_ws, owned, push_char, string_of, trim, trim_chars, trim_end, trim_start};

verus! {

/// The hexadecimal digit of a value below sixteen, lower case.
pub open spec fn hex_digit(n: nat) -> char {
    if n < 10 {
        digit_char(n)
    } else {
        ((n - 10 + 97) as u32) as char
    }
}

/// Two lower-case hex digits per byte, high nibble first.
pub open spec fn hex_spec(b: Seq<u8>) -> Seq<char>
    decreases b.len(),
{
    if b.len() == 0 {
        Seq::empty()
    } else {
        hex_spec(b.drop_last()) + seq![hex_digit((b.last() / 16) as nat), hex_digit((b.last() % 16) as nat)]
    }
}

/// The value of a hex digit byte, either case.
pub open spec fn nibble_spec(b: u8) -> Option<u8> {
    if 48 <= b && b <= 57 {
        Some((b - 48) as u8)
    } else if 97 <= b && b <= 102 {
        Some((10 + b - 97) as u8)
    } else if 65 <= b && b <= 70 {
        Some((10 + b - 65) as u8)
    } else {
        None
    }
}

/// `i` is the first byte that is not a hex digit.
pub open spec fn is_first_bad(b: Seq<u8>, i: int) -> bool {
    &&& 0 <= i < b.len()
    &&& nibble_spec(b[i]) is None
    &&& forall|j: int| 0 <= j < i ==> nibble_spec(b[j]) is Some
}

/// The message for a byte that is not a hex digit.
pub open spec fn bad_char_message(b: u8) -> Seq<char> {
    "invalid hex character '"@ + seq![(b as u32) as char] + "'"@
}

/// Decoding bytes of hex text: an odd length is an error; otherwise the first non-digit
/// byte is reported; otherwise each pair of digits gives one byte.
pub open spec fn from_hex_bytes_spec(b: Seq<u8>) -> Result<Seq<u8>, Seq<char>> {
    if b.len() % 2 != 0 {
        Err("invalid hex length"@)
    } else if exists|i: int| is_first_bad(b, i) {
        Err(bad_char_message(b[choose|i: int| is_first_bad(b, i)]))
    } else {
        Ok(
            Seq::new(
                b.len() / 2,
                |i: int| (nibble_spec(b[2 * i])->0 * 16 + nibble_spec(b[2 * i + 1])->0) as u8,
            ),
        )
    }
}

/// Decoding the text `s`: it is trimmed and its UTF-8 bytes decoded.
pub open spec fn from_hex_spec(s: Seq<char>) -> Result<Seq<u8>, Seq<char>> {
    from_hex_bytes_spec(vstd::utf8::encode_utf8(trim(s)))
}

fn hex_digit_char(n: u8) -> (c: char)
    requires
        n < 16,
    ensures
        c == hex_digit(n as nat),
{
    if n < 10 {
        let b: u8 = n + 48;
        let c = b as char;
        assert(c == ((n + 48) as u32) as char);
        c
    } else {
        let b: u8 = n - 10 + 97;
        let c = b as char;
        assert(c == ((n - 10 + 97) as u32) as char);
        c
    }
}

/// Lower-case hex text of the bytes.
pub fn to_hex(bytes: &[u8]) -> (r: String)
    ensures
        r@ == hex_spec(bytes@),
{
    let mut out: Vec<char> = Vec::new();
    let mut i: usize = 0;
    while i < bytes.len()
        invariant
            i <= bytes.len(),
            out@ == hex_spec(bytes@.subrange(0, i as int)),
        decreases bytes.len() - i,
    {
        let b = bytes[i];
        let hi = hex_digit_char(b / 16);
        let lo = hex_digit_char(b % 16);
        let ghost before = out@;
        out.push(hi);
        out.push(lo);
        let ghost pre = bytes@.subrange(0, (i + 1) as int);
        assert(pre.drop_last() =~= bytes@.subrange(0, i as int));
        assert(out@ =~= before + seq![hi, lo]);
        i = i + 1;
    }
    assert(bytes@.subrange(0, bytes.len() as int) =~= bytes@);
    string_of(&out)
}

/// The value of one hex digit byte.
pub fn hex_nibble(b: u8) -> (r: Result<u8, String>)
    ensures
        r is Ok <==> nibble_spec(b) is Some,
        r is Ok ==> r->Ok_0 == nibble_spec(b)->0,
        r is Err ==> r->Err_0@ == bad_char_message(b),
{
    if 48 <= b && b <= 57 {
        Ok(b - 48)
    } else if 97 <= b && b <= 102 {
        Ok(10 + b - 97)
    } else if 65 <= b && b <= 70 {
        Ok(10 + b - 65)
    } else {
        let mut m = owned("invalid hex character '");
        push_char(&mut m, b as char);
        append_str(&mut m, "'");
        assert(m@ =~= bad_char_message(b));
        Err(m)
    }
}

/// Decodes the bytes of hex text.
pub fn from_hex_bytes(bytes: &[u8]) -> (r: Result<Vec<u8>, String>)
    ensures
        r is Ok <==> from_hex_bytes_spec(bytes@) is Ok,
        r is Ok ==> r->Ok_0@ == from_hex_bytes_spec(bytes@)->Ok_0,
        r is Err ==> r->Err_0@ == from_hex_bytes_spec(bytes@)->Err_0,
{
    if bytes.len() % 2 != 0 {
        return Err(owned("invalid hex length"));
    }
    let ghost b = bytes@;
    let mut out: Vec<u8> = Vec::new();
    let mut i: usize = 0;
    while i < bytes.len()
        invariant
            b == bytes@,
            b.len() % 2 == 0,
            i % 2 == 0,
            i <= bytes.len(),
            forall|j: int| 0 <= j < i ==> nibble_spec(#[trigger] b[j]) is Some,
            out@.len() == i / 2,
            forall|k: int|
                0 <= k < i / 2 ==> #[trigger] out@[k] == (nibble_spec(b[2 * k])->0 * 16 + nibble_spec(
                    b[2 * k + 1],
                )->0) as u8,
        decreases bytes.len() - i,
    {
        let hi = match hex_nibble(bytes[i]) {
            Ok(v) => v,
            Err(e) => {
                assert(is_first_bad(b, i as int));
                proof {
                    let c = choose|k: int| is_first_bad(b, k);
                    if c < i as int {
                        assert(nibble_spec(b[c]) is Some);
                    }
                    if (i as int) < c {
                        assert(nibble_spec(b[i as int]) is Some);
                    }
                }
                return Err(e);
            },
        };
        let lo = match hex_nibble(bytes[i + 1]) {
            Ok(v) => v,
            Err(e) => {
                assert(is_first_bad(b, (i + 1) as int));
                proof {
                    let c = choose|k: int| is_first_bad(b, k);
                    if c < (i + 1) as int {
                        assert(nibble_spec(b[c]) is Some);
                    }
                    if ((i + 1) as int) < c {
                        assert(nibble_spec(b[(i + 1) as int]) is Some);
                    }
                }
                return Err(e);
            },
        };
        out.push(hi * 16 + lo);
        i = i + 2;
    }
    proof {
        assert forall|k: int| !is_first_bad(b, k) by {
            if 0 <= k < b.len() {
                assert(nibble_spec(b[k]) is Some);
            }
        }
        let expected = Seq::new(
            b.len() / 2,
            |k: int| (nibble_spec(b[2 * k])->0 * 16 + nibble_spec(b[2 * k + 1])->0) as u8,
        );
        assert(out@ =~= expected);
    }
    Ok(out)
}

/// Decodes hex text, surrounding white space ignored.
pub fn from_hex(input: &str) -> (r: Result<Vec<u8>, String>)
    ensures
        r is Ok <==> from_hex_spec(input@) is Ok,
        r is Ok ==> r->Ok_0@ == from_hex_spec(input@)->Ok_0,
        r is Err ==> r->Err_0@ == from_hex_spec(input@)->Err_0,
{
    let v = chars_of(input);
    let t = trim_chars(&v);
    let ts = string_of(&t);
    let bytes = ts.as_str().as_bytes();
    from_hex_bytes(bytes)
}

proof fn lemma_hex_spec_shape(b: Seq<u8>)
    ensures
        hex_spec(b).len() == 2 * b.len(),
        forall|i: int|
            0 <= i < b.len() ==> #[trigger] hex_spec(b)[2 * i] == hex_digit((b[i] / 16) as nat) && hex_spec(
                b,
            )[2 * i + 1] == hex_digit((b[i] % 16) as nat),
    decreases b.len(),
{
    if b.len() > 0 {
        let d = b.drop_last();
        lemma_hex_spec_shape(d);
        assert forall|i: int| 0 <= i < b.len() implies #[trigger] hex_spec(b)[2 * i] == hex_digit(
            (b[i] / 16) as nat,
        ) && hex_spec(b)[2 * i + 1] == hex_digit((b[i] % 16) as nat) by {
            if i < b.len() - 1 {
                assert(hex_spec(d)[2 * i] == hex_digit((d[i] / 16) as nat));
                assert(hex_spec(d)[2 * i + 1] == hex_digit((d[i] % 16) as nat));
            }
        }
    }
}

proof fn lemma_hex_digit_roundtrip(n: nat)
    requires
        n < 16,
    ensures
        '\0' <= hex_digit(n) <= '\u{7f}',
        !is_ws(hex_digit(n)),
        nibble_spec(hex_digit(n) as u8) == Some(n as u8),
{
}

/// Encoding bytes as hex and decoding the text gives the bytes back.
pub proof fn lemma_hex_roundtrip(b: Seq<u8>)
    ensures
        from_hex_spec(hex_spec(b)) == Ok::<Seq<u8>, Seq<char>>(b),
{
    let h = hex_spec(b);
    lemma_hex_spec_shape(b);
    assert forall|j: int| 0 <= j < h.len() implies '\0' <= #[trigger] h[j] <= '\u{7f}' && !is_ws(h[j])
        && nibble_spec(h[j] as u8) is Some by {
        let i = j / 2;
        assert(0 <= i < b.len());
        assert(hex_spec(b)[2 * i] == hex_digit((b[i] / 16) as nat));
        if j % 2 == 0 {
            assert(j == 2 * i);
            lemma_hex_digit_roundtrip((b[i] / 16) as nat);
        } else {
            assert(j == 2 * i + 1);
            lemma_hex_digit_roundtrip((b[i] % 16) as nat);
        }
    }
    if h.len() > 0 {
        assert(trim_start(h) == h);
        assert(trim_end(h) == h);
    }
    assert(trim(h) == h);
    vstd::utf8::is_ascii_chars_encode_utf8(h);
    let e = vstd::utf8::encode_utf8(h);
    assert(e.len() == h.len());
    assert forall|k: int| !is_first_bad(e, k) by {
        if 0 <= k < e.len() {
            assert(e[k] == h[k] as u8);
        }
    }
    let decoded = Seq::new(
        e.len() / 2,
        |i: int| (nibble_spec(e[2 * i])->0 * 16 + nibble_spec(e[2 * i + 1])->0) as u8,
    );
    assert forall|i: int| 0 <= i < b.len() implies decoded[i] == b[i] by {
        assert(hex_spec(b)[2 * i] == hex_digit((b[i] / 16) as nat));
        assert(e[2 * i] == h[2 * i] as u8);
        assert(e[2 * i + 1] == h[2 * i + 1] as u8);
        lemma_hex_digit_roundtrip((b[i] / 16) as nat);
        lemma_hex_digit_roundtrip((b[i] % 16) as nat);
    }
    assert(decoded =~= b);
}


/// Hex text is already lower case.
pub proof fn lemma_hex_lower_invariant(b: Seq<u8>)
    ensures
        crate::text::lower_seq(hex_spec(b)) == hex_spec(b),
{
    let h = hex_spec(b);
    lemma_hex_spec_shape(b);
    assert forall|j: int| 0 <= j < h.len() implies crate::text::lower(#[trigger] h[j]) == h[j] by {
        let i = j / 2;
        assert(hex_spec(b)[2 * i] == hex_digit((b[i] / 16) as nat));
        if j % 2 == 0 {
            assert(j == 2 * i);
        } else {
            assert(j == 2 * i + 1);
        }
    }
    assert(crate::text::lower_seq(h) =~= h);
}

/// Different bytes have different hex text.
pub proof fn lemma_hex_injective(a: Seq<u8>, b: Seq<u8>)
    requires
        a != b,
    ensures
        hex_spec(a) != hex_spec(b),
{
    lemma_hex_spec_shape(a);
    lemma_hex_spec_shape(b);
    if hex_spec(a) == hex_spec(b) {
        assert(a.len() == b.len());
        assert forall|i: int| 0 <= i < a.len() implies a[i] == b[i] by {
            assert(hex_spec(a)[2 * i] == hex_digit((a[i] / 16) as nat));
            assert(hex_spec(b)[2 * i] == hex_digit((b[i] / 16) as nat));
            lemma_hex_digit_roundtrip((a[i] / 16) as nat);
            lemma_hex_digit_roundtrip((b[i] / 16) as nat);
            lemma_hex_digit_roundtrip((a[i] % 16) as nat);
            lemma_hex_digit_roundtrip((b[i] % 16) as nat);
        }
        assert(a =~= b);
    }
}

} // verus!
