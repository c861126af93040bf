//! Decoding of native wide (UTF-16) clipboard text into a portable string.
//!
//! The system clipboard hands text over as a NUL-terminated buffer of 16-bit
//! units. The decoder takes the prefix up to the first NUL and decodes it
//! lossily: well-formed units and surrogate pairs become the characters they
//! encode, and every malformed unit becomes the Unicode replacement
//! character, so decoding never fails.

use vstd::prelude::*;

verus! {

/// The character substituted for each malformed UTF-16 unit.
pub open spec fn replacement_char() -> char {
    '\u{FFFD}'
}

/// A high (leading) surrogate unit.
pub open spec fn is_high_surrogate(u: u16) -> bool {
    0xD800 <= u <= 0xDBFF
}

/// A low (trailing) surrogate unit.
pub open spec fn is_low_surrogate(u: u16) -> bool {
    0xDC00 <= u <= 0xDFFF
}

/// A unit that encodes a character on its own.
pub open spec fn is_basic_unit(u: u16) -> bool {
    !is_high_surrogate(u) && !is_low_surrogate(u)
}

/// The scalar value encoded by a surrogate pair.
pub open spec fn combined_scalar(hi: u16, lo: u16) -> u32
    recommends
        is_high_surrogate(hi),
        is_low_surrogate(lo),
{
    (0x10000 + (hi - 0xD800) * 0x400 + (lo - 0xDC00)) as u32
}

/// Lossy UTF-16 decoding: a basic unit decodes to itself, a high surrogate
/// followed by a low surrogate decodes to the scalar the pair encodes, and
/// any lone surrogate decodes to the replacement character.
pub open spec fn decode_wide(units: Seq<u16>) -> Seq<char>
    decreases units.len(),
{
    if units.len() == 0 {
        Seq::empty()
    } else if is_basic_unit(units[0]) {
        seq![(units[0] as u32) as char] + decode_wide(units.skip(1))
    } else if is_high_surrogate(units[0]) && units.len() >= 2 && is_low_surrogate(units[1]) {
        seq![combined_scalar(units[0], units[1]) as char] + decode_wide(units.skip(2))
    } else {
        seq![replacement_char()] + decode_wide(units.skip(1))
    }
}

/// Length of the prefix of a wide buffer before its first NUL unit; the whole
/// length when no unit is NUL.
pub open spec fn nul_prefix_len(units: Seq<u16>) -> int
    decreases units.len(),
{
    if units.len() == 0 {
        0
    } else if units[0] == 0 {
        0
    } else {
        1 + nul_prefix_len(units.skip(1))
    }
}

proof fn lemma_nul_prefix_len_at(units: Seq<u16>, i: int)
    requires
        0 <= i <= units.len(),
        forall|j: int| 0 <= j < i ==> units[j] != 0,
        i < units.len() ==> units[i] == 0,
    ensures
        nul_prefix_len(units) == i,
    decreases i,
{
    if i > 0 {
        assert(units[0] != 0);
        lemma_nul_prefix_len_at(units.skip(1), i - 1);
    }
}

/// Relies on char::from_u32: every Unicode scalar value (a code point outside
/// the surrogate range) names exactly the character with that value.
#[verifier::external_body]
fn char_from_scalar(v: u32) -> (c: char)
    requires
        vstd::utf8::is_scalar(v),
    ensures
        c as u32 == v,
{
    char::from_u32(v).unwrap()
}

/// Relies on String::push: appends exactly the one character.
pub assume_specification[ String::push ](s: &mut String, c: char)
    ensures
        final(s)@ == old(s)@.push(c),
;

/// Decode a whole wide buffer lossily.
pub fn decode_wide_units(units: &[u16]) -> (r: String)
    ensures
        r@ == decode_wide(units@),
{
    let mut out = String::new();
    let mut i: usize = 0;
    proof {
        assert(units@.skip(0) =~= units@);
        assert(out@ + decode_wide(units@) =~= decode_wide(units@));
    }
    while i < units.len()
        invariant
            i <= units@.len(),
            out@ + decode_wide(units@.skip(i as int)) == decode_wide(units@),
        decreases units@.len() - i,
    {
        let ghost rest = units@.skip(i as int);
        let u = units[i];
        if u < 0xD800 || u > 0xDFFF {
            let c = char_from_scalar(u as u32);
            proof {
                vstd::utf8::char_u32_cast(c, u as u32);
                assert(rest.skip(1) =~= units@.skip(i + 1));
                assert(out@.push(c) + decode_wide(units@.skip(i + 1)) =~= out@ + decode_wide(
                    rest,
                ));
            }
            out.push(c);
            i = i + 1;
        } else if u <= 0xDBFF && i + 1 < units.len() && units[i + 1] >= 0xDC00 && units[i + 1]
            <= 0xDFFF {
            let lo = units[i + 1];
            let v: u32 = 0x10000 + (u as u32 - 0xD800) * 0x400 + (lo as u32 - 0xDC00);
            assert(v == combined_scalar(u, lo));
            let c = char_from_scalar(v);
            proof {
                vstd::utf8::char_u32_cast(c, v);
                assert(rest.skip(2) =~= units@.skip(i + 2));
                assert(out@.push(c) + decode_wide(units@.skip(i + 2)) =~= out@ + decode_wide(
                    rest,
                ));
            }
            out.push(c);
            i = i + 2;
        } else {
            proof {
                assert(rest.skip(1) =~= units@.skip(i + 1));
                assert(out@.push(replacement_char()) + decode_wide(units@.skip(i + 1)) =~= out@
                    + decode_wide(rest));
            }
            out.push('\u{FFFD}');
            i = i + 1;
        }
    }
    proof {
        assert(units@.skip(units@.len() as int) =~= Seq::<u16>::empty());
        assert(out@ =~= decode_wide(units@));
    }
    out
}

/// Length of the NUL-free prefix of a wide buffer.
pub fn wide_text_len(units: &[u16]) -> (n: usize)
    ensures
        n == nul_prefix_len(units@),
        n <= units@.len(),
{
    let mut i: usize = 0;
    while i < units.len() && units[i] != 0
        invariant
            i <= units@.len(),
            forall|j: int| 0 <= j < i ==> units@[j] != 0,
        decreases units@.len() - i,
    {
        i = i + 1;
    }
    proof {
        lemma_nul_prefix_len_at(units@, i as int);
    }
    i
}

/// Decode the NUL-terminated prefix of a wide clipboard buffer, as the
/// clipboard bridge sees text: everything before the first NUL, decoded
/// lossily.
pub fn decode_wide_nul_terminated(units: &[u16]) -> (r: String)
    ensures
        r@ == decode_wide(units@.take(nul_prefix_len(units@))),
{
    let n = wide_text_len(units);
    let prefix = vstd::slice::slice_subrange(units, 0, n);
    decode_wide_units(prefix)
}

/// The captured selection as an owned value: the text that was read, or the
/// explicit empty string when no read succeeded. Absence of a capture is
/// never an error.
pub fn capture_or_empty(read: Option<String>) -> (r: String)
    ensures
        read matches Some(s) ==> r@ == s@,
        read is None ==> r@ == Seq::<char>::empty(),
{
    match read {
        Some(s) => s,
        None => String::new(),
    }
}

} // verus!
