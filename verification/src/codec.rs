//! Text decoding for the two text buffer families.
//!
//! Narrow text arrives as bytes and is decoded as UTF-8 with lossy
//! replacement, so it never fails. Wide text arrives as UTF-16 code units and
//! is decoded strictly: an ill-formed code-unit sequence (an unpaired
//! surrogate) is a fatal decode failure, never silently substituted.

use vstd::prelude::*;

verus! {

broadcast use vstd::seq_lib::group_seq_properties;

/// True of a code unit in either surrogate range: it never stands alone.
pub open spec fn is_surrogate(u: u16) -> bool {
    0xD800 <= u <= 0xDFFF
}

/// True of a code unit in the high (leading) surrogate range.
pub open spec fn is_high_surrogate(u: u16) -> bool {
    0xD800 <= u <= 0xDBFF
}

/// True of a code unit in the low (trailing) surrogate range.
pub open spec fn is_low_surrogate(u: u16) -> bool {
    0xDC00 <= u <= 0xDFFF
}

/// The Unicode scalar value encoded by a surrogate pair.
pub open spec fn surrogate_pair_scalar(hi: u16, lo: u16) -> u32 {
    (0x10000 + (hi as int - 0xD800) * 0x400 + (lo as int - 0xDC00)) as u32
}

/// True when the code units are well-formed UTF-16: every high surrogate is
/// immediately followed by a low surrogate, and every low surrogate is the
/// second unit of such a pair.
pub open spec fn utf16_well_formed(units: Seq<u16>) -> bool
    decreases units.len(),
{
    if units.len() == 0 {
        true
    } else if !is_surrogate(units[0]) {
        utf16_well_formed(units.skip(1))
    } else if is_high_surrogate(units[0]) && units.len() >= 2 && is_low_surrogate(units[1]) {
        utf16_well_formed(units.skip(2))
    } else {
        false
    }
}

/// The characters encoded by a well-formed UTF-16 code-unit sequence. On an
/// ill-formed sequence the decoded prefix up to the offending unit.
pub open spec fn utf16_chars(units: Seq<u16>) -> Seq<char>
    decreases units.len(),
{
    if units.len() == 0 {
        Seq::empty()
    } else if !is_surrogate(units[0]) {
        seq![(units[0] as u32) as char] + utf16_chars(units.skip(1))
    } else if is_high_surrogate(units[0]) && units.len() >= 2 && is_low_surrogate(units[1]) {
        seq![surrogate_pair_scalar(units[0], units[1]) as char] + utf16_chars(units.skip(2))
    } else {
        Seq::empty()
    }
}

/// Relies on `char::from_u32`: it returns `Some` exactly for the values that
/// are Unicode scalar values (not surrogates, at most `0x10FFFF`), and then
/// the returned character has exactly the given value.
pub assume_specification[ char::from_u32 ](v: u32) -> (r: Option<char>)
    ensures
        r is Some <==> (v < 0xD800 || (0xE000 <= v && v <= 0x10FFFF)),
        r matches Some(c) ==> c == (v as char) && c as u32 == v,
;

/// Decodes UTF-16 code units strictly. Returns the decoded characters, or
/// `None` on the first ill-formed unit (an unpaired surrogate).
pub fn decode_wide(units: &Vec<u16>) -> (r: Option<Vec<char>>)
    ensures
        r is Some <==> utf16_well_formed(units@),
        r matches Some(cs) ==> cs@ == utf16_chars(units@),
{
    let n: usize = units.len();
    let mut out: Vec<char> = Vec::new();
    let mut i: usize = 0;
    while i < n
        invariant
            i <= n,
            n == units@.len(),
            utf16_well_formed(units@) == utf16_well_formed(units@.skip(i as int)),
            utf16_chars(units@) == out@ + utf16_chars(units@.skip(i as int)),
        decreases n - i,
    {
        let ghost rest = units@.skip(i as int);
        proof {
            assert(rest.len() == n - i);
            assert(rest[0] == units@[i as int]);
        }
        let u: u16 = units[i];
        if u < 0xD800 || u >= 0xE000 {
            let c = char::from_u32(u as u32).unwrap();
            out.push(c);
            proof {
                assert(rest.skip(1) =~= units@.skip(i + 1));
                assert(utf16_chars(rest) == seq![c] + utf16_chars(rest.skip(1)));
            }
            i = i + 1;
        } else if u < 0xDC00 && i + 1 < n && units[i + 1] >= 0xDC00 && units[i + 1] < 0xE000 {
            let lo: u16 = units[i + 1];
            proof {
                assert(rest[1] == units@[i + 1]);
            }
            let v: u32 = 0x10000u32 + ((u - 0xD800) as u32) * 0x400 + ((lo - 0xDC00) as u32);
            let c = char::from_u32(v).unwrap();
            out.push(c);
            proof {
                assert(v == surrogate_pair_scalar(rest[0], rest[1]));
                assert(rest.skip(2) =~= units@.skip(i + 2));
                assert(utf16_chars(rest) == seq![c] + utf16_chars(rest.skip(2)));
            }
            i = i + 2;
        } else {
            proof {
                assert(is_surrogate(rest[0]));
                assert(!(is_high_surrogate(rest[0]) && rest.len() >= 2 && is_low_surrogate(
                    rest[1],
                )));
                assert(!utf16_well_formed(rest));
            }
            return None;
        }
    }
    proof {
        assert(units@.skip(n as int) =~= Seq::<u16>::empty());
        assert(utf16_chars(units@) =~= out@);
    }
    Some(out)
}

/// Relies on `String`'s `FromIterator<char>` impl: collecting characters
/// yields a string of exactly those characters, in order.
#[verifier::external_body]
fn chars_to_string(chars: &Vec<char>) -> (r: String)
    ensures
        r@ == chars@,
{
    chars.iter().collect()
}

/// Decodes UTF-16 code units strictly into a string. Returns `None` on the
/// first ill-formed unit (an unpaired surrogate): malformed wide text is a
/// fatal decode failure, never a substituted value.
pub fn decode_wide_string(units: &Vec<u16>) -> (r: Option<String>)
    ensures
        r is Some <==> utf16_well_formed(units@),
        r matches Some(s) ==> s@ == utf16_chars(units@),
{
    match decode_wide(units) {
        Some(cs) => Some(chars_to_string(&cs)),
        None => None,
    }
}

/// The characters that lossy UTF-8 decoding yields for the given bytes. Valid
/// UTF-8 decodes exactly ([`decode_narrow`] promises that case in full);
/// ill-formed sequences are replaced with U+FFFD under the standard library's
/// substitution rule, which this name stands for.
pub uninterp spec fn utf8_lossy_of(bytes: Seq<u8>) -> Seq<char>;

/// Relies on `String::from_utf8_lossy`: the result is a function of the bytes
/// alone; valid UTF-8 passes through unchanged (decoding to exactly the
/// characters it encodes), and each maximal ill-formed subsequence is replaced
/// with U+FFFD. (`Cow::into_owned` only unwraps the result.)
#[verifier::external_body]
pub(crate) fn decode_narrow(bytes: &Vec<u8>) -> (r: String)
    ensures
        r@ == utf8_lossy_of(bytes@),
        vstd::utf8::valid_utf8(bytes@) ==> r@ == vstd::utf8::decode_utf8(bytes@),
{
    String::from_utf8_lossy(bytes.as_slice()).into_owned()
}

/// A high surrogate that is not immediately followed by a low surrogate makes
/// the whole code-unit sequence ill-formed.
pub proof fn lemma_unpaired_high_surrogate(units: Seq<u16>, i: int)
    requires
        0 <= i < units.len(),
        is_high_surrogate(units[i]),
        i + 1 < units.len() ==> !is_low_surrogate(units[i + 1]),
    ensures
        !utf16_well_formed(units),
    decreases i,
{
    if !is_surrogate(units[0]) {
        assert(i >= 1);
        lemma_unpaired_high_surrogate(units.skip(1), i - 1);
    } else if is_high_surrogate(units[0]) && units.len() >= 2 && is_low_surrogate(units[1]) {
        assert(i != 0);
        assert(i != 1);
        lemma_unpaired_high_surrogate(units.skip(2), i - 2);
    }
}

/// A low surrogate that is not immediately preceded by a high surrogate makes
/// the whole code-unit sequence ill-formed.
pub proof fn lemma_unpaired_low_surrogate(units: Seq<u16>, i: int)
    requires
        0 <= i < units.len(),
        is_low_surrogate(units[i]),
        i >= 1 ==> !is_high_surrogate(units[i - 1]),
    ensures
        !utf16_well_formed(units),
    decreases i,
{
    if !is_surrogate(units[0]) {
        assert(i >= 1);
        lemma_unpaired_low_surrogate(units.skip(1), i - 1);
    } else if is_high_surrogate(units[0]) && units.len() >= 2 && is_low_surrogate(units[1]) {
        assert(i != 0);
        assert(i != 1);
        lemma_unpaired_low_surrogate(units.skip(2), i - 2);
    }
}

} // verus!
