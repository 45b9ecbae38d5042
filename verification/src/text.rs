use vstd::prelude::*;
use vstd::std_specs::iter::IteratorSpec;
use vstd::utf8::{char_is_scalar, char_u32_cast, decode_utf8, valid_utf8};

verus! {

/// Decodes UTF-8 bytes into a `String`.
///
/// Calls `std::str::from_utf8`, which accepts exactly the valid UTF-8
/// sequences; the contract states this with vstd's model of UTF-8
/// (`valid_utf8`, `decode_utf8`).
#[verifier::external_body]
pub(crate) fn utf8_to_string(bytes: &[u8]) -> (r: Option<String>)
    ensures
        r is Some <==> valid_utf8(bytes@),
        r matches Some(s) ==> s@ == decode_utf8(bytes@),
{
    match std::str::from_utf8(bytes) {
        Ok(s) => Some(s.to_string()),
        Err(_) => None,
    }
}

/// Whether `u` is a leading (high) surrogate of UTF-16.
pub open spec fn is_high_surrogate(u: u16) -> bool {
    0xD800 <= u <= 0xDBFF
}

/// Whether `u` is a trailing (low) surrogate of UTF-16.
pub open spec fn is_low_surrogate(u: u16) -> bool {
    0xDC00 <= u <= 0xDFFF
}

/// The characters the UTF-16 code units `u` stand for, `None` when they
/// hold a surrogate that is not part of a high-low pair.
pub open spec fn utf16_decode(u: Seq<u16>) -> Option<Seq<char>>
    decreases u.len(),
{
    if u.len() == 0 {
        Some(Seq::empty())
    } else if is_high_surrogate(u[0]) {
        if u.len() >= 2 && is_low_surrogate(u[1]) {
            match utf16_decode(u.subrange(2, u.len() as int)) {
                Some(rest) => Some(
                    seq![((0x10000 + (u[0] - 0xD800) * 0x400 + (u[1] - 0xDC00)) as u32) as char]
                        + rest,
                ),
                None => None,
            }
        } else {
            None
        }
    } else if is_low_surrogate(u[0]) {
        None
    } else {
        match utf16_decode(u.subrange(1, u.len() as int)) {
            Some(rest) => Some(seq![(u[0] as u32) as char] + rest),
            None => None,
        }
    }
}

/// The UTF-16 code units of `c`: one unit below `0x10000`, a surrogate pair
/// above.
pub open spec fn utf16_encode_char(c: char) -> Seq<u16> {
    let v = c as u32;
    if v < 0x10000 {
        seq![v as u16]
    } else {
        seq![(0xD800 + (v - 0x10000) / 0x400) as u16, (0xDC00 + (v - 0x10000) % 0x400) as u16]
    }
}

/// The UTF-16 code units of `s`.
pub open spec fn utf16_encode(s: Seq<char>) -> Seq<u16>
    decreases s.len(),
{
    if s.len() == 0 {
        Seq::empty()
    } else {
        utf16_encode_char(s[0]) + utf16_encode(s.subrange(1, s.len() as int))
    }
}

/// Decoding the code units of a character followed by `rest` gives the
/// character followed by the decoding of `rest`.
proof fn lemma_utf16_decode_char(c: char, rest: Seq<u16>)
    ensures
        utf16_decode(utf16_encode_char(c) + rest) == match utf16_decode(rest) {
            Some(r) => Some(seq![c] + r),
            None => None::<Seq<char>>,
        },
{
    let v = c as u32;
    char_is_scalar(c);
    char_u32_cast(c, v);
    let u = utf16_encode_char(c) + rest;
    if v < 0x10000 {
        assert(u.subrange(1, u.len() as int) =~= rest);
        assert((v as u16) as u32 == v);
    } else {
        let hi = (0xD800 + (v - 0x10000) / 0x400) as u16;
        let lo = (0xDC00 + (v - 0x10000) % 0x400) as u16;
        assert(u[0] == hi && u[1] == lo);
        assert(u.subrange(2, u.len() as int) =~= rest);
        assert(is_high_surrogate(hi) && is_low_surrogate(lo));
        assert(0x10000 + (hi - 0xD800) * 0x400 + (lo - 0xDC00) == v);
    }
}

/// UTF-16 decoding undoes UTF-16 encoding.
pub proof fn lemma_utf16_roundtrip(s: Seq<char>)
    ensures
        utf16_decode(utf16_encode(s)) == Some(s),
    decreases s.len(),
{
    if s.len() > 0 {
        let rest = s.subrange(1, s.len() as int);
        lemma_utf16_roundtrip(rest);
        lemma_utf16_decode_char(s[0], utf16_encode(rest));
        assert(seq![s[0]] + rest =~= s);
    }
}

/// A character other than NUL encodes to nonzero code units only.
pub proof fn lemma_utf16_encode_nonzero(s: Seq<char>)
    requires
        forall|i: int| 0 <= i < s.len() ==> s[i] != '\0',
    ensures
        forall|i: int| 0 <= i < utf16_encode(s).len() ==> #[trigger] utf16_encode(s)[i] != 0,
    decreases s.len(),
{
    if s.len() > 0 {
        let rest = s.subrange(1, s.len() as int);
        lemma_utf16_encode_nonzero(rest);
        let c = s[0];
        let v = c as u32;
        char_u32_cast(c, v);
        if v == 0 {
            assert(c == (0u32 as char));
            assert(false);
        }
        let e = utf16_encode(s);
        let h = utf16_encode_char(c);
        assert(e == h + utf16_encode(rest));
        assert forall|i: int| 0 <= i < e.len() implies #[trigger] e[i] != 0 by {
            if i >= h.len() {
                assert(e[i] == utf16_encode(rest)[i - h.len()]);
            }
        }
    }
}

/// Decodes UTF-16 code units into a `String`.
///
/// Calls `String::from_utf16`, which fails exactly on unpaired surrogates;
/// the contract states this with [utf16_decode].
#[verifier::external_body]
pub(crate) fn utf16_to_string(units: &[u16]) -> (r: Option<String>)
    ensures
        r is Some <==> utf16_decode(units@) is Some,
        r matches Some(s) ==> Some(s@) == utf16_decode(units@),
{
    String::from_utf16(units).ok()
}

/// Encoding a sequence with one more character appends that character's
/// code units.
proof fn lemma_utf16_encode_push(s: Seq<char>, c: char)
    ensures
        utf16_encode(s.push(c)) == utf16_encode(s) + utf16_encode_char(c),
    decreases s.len(),
{
    if s.len() == 0 {
        let t = s.push(c);
        assert(t.subrange(1, 1) =~= Seq::<char>::empty());
        assert(t[0] == c);
        assert(utf16_encode(t.subrange(1, 1)) == Seq::<u16>::empty());
        assert(utf16_encode(t) == utf16_encode_char(c) + Seq::<u16>::empty());
        assert(utf16_encode(s) == Seq::<u16>::empty());
        assert(utf16_encode(t) =~= utf16_encode(s) + utf16_encode_char(c));
    } else {
        let rest = s.subrange(1, s.len() as int);
        lemma_utf16_encode_push(rest, c);
        assert(s.push(c).subrange(1, s.len() + 1 as int) =~= rest.push(c));
        assert(utf16_encode(s.push(c)) =~= utf16_encode(s) + utf16_encode_char(c));
    }
}

/// The UTF-16 code units of `c`.
fn char_to_utf16(c: char, out: &mut Vec<u16>)
    ensures
        final(out)@ == old(out)@ + utf16_encode_char(c),
{
    let v = c as u32;
    proof {
        char_is_scalar(c);
    }
    if v < 0x10000 {
        out.push(v as u16);
    } else {
        out.push((0xD800 + (v - 0x10000) / 0x400) as u16);
        out.push((0xDC00 + (v - 0x10000) % 0x400) as u16);
    }
    assert(out@ =~= old(out)@ + utf16_encode_char(c));
}

/// The UTF-16 code units of `s`.
pub(crate) fn str_to_utf16(s: &str) -> (r: Vec<u16>)
    ensures
        r@ == utf16_encode(s@),
{
    let mut r: Vec<u16> = Vec::new();
    let mut chars = s.chars();
    let ghost all = s@;
    let ghost mut k: int = 0;
    proof {
        vstd::string::axiom_spec_iter(s);
    }
    loop
        invariant
            0 <= k <= all.len(),
            chars.remaining() == all.subrange(k, all.len() as int),
            r@ == utf16_encode(all.subrange(0, k)),
        ensures
            k == all.len(),
            r@ == utf16_encode(all.subrange(0, k)),
        decreases all.len() - k,
    {
        match chars.next() {
            Some(c) => {
                proof {
                    lemma_utf16_encode_push(all.subrange(0, k), c);
                    assert(all.subrange(0, k + 1) =~= all.subrange(0, k).push(c));
                    k = k + 1;
                }
                char_to_utf16(c, &mut r);
            },
            None => {
                break;
            },
        }
    }
    assert(all.subrange(0, k) =~= s@);
    r
}

} // verus!
