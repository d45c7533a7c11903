//! The UTF-16 encoding form: scalar values to code units and back.

use vstd::prelude::*;

verus! {

/// `unit` is a high (leading) surrogate.
pub open spec fn is_high_surrogate(unit: u16) -> bool {
    0xD800 <= unit <= 0xDBFF
}

/// `unit` is a low (trailing) surrogate.
pub open spec fn is_low_surrogate(unit: u16) -> bool {
    0xDC00 <= unit <= 0xDFFF
}

/// `unit` is a surrogate of either kind, so it is no scalar value by itself.
pub open spec fn is_surrogate(unit: u16) -> bool {
    0xD800 <= unit <= 0xDFFF
}

/// `high`, `low` form a well-formed surrogate pair.
pub open spec fn is_pair(high: u16, low: u16) -> bool {
    is_high_surrogate(high) && is_low_surrogate(low)
}

/// The code point that a well-formed surrogate pair stands for.
pub open spec fn pair_scalar(high: u16, low: u16) -> int {
    0x10000 + (high - 0xD800) * 0x400 + (low - 0xDC00)
}

/// The one or two code units that encode `c`.
pub open spec fn units_of_char(c: char) -> Seq<u16> {
    let v = c as u32;
    if v < 0x10000 {
        seq![v as u16]
    } else {
        seq![(0xD800 + (v - 0x10000) / 0x400) as u16, (0xDC00 + (v - 0x10000) % 0x400) as u16]
    }
}

/// The UTF-16 encoding of `text`: the encodings of its scalar values, in order.
pub open spec fn utf16_of(text: Seq<char>) -> Seq<u16>
    decreases text.len(),
{
    if text.len() == 0 {
        Seq::empty()
    } else {
        utf16_of(text.drop_last()) + units_of_char(text.last())
    }
}

/// `char::from_u32` of std. Trusted, as documented: `Some` of the scalar value
/// with that number where there is one, `None` for surrogates and for numbers
/// above U+10FFFF.
pub assume_specification[ char::from_u32 ](i: u32) -> (r: Option<char>)
    ensures
        r == (if i < 0xD800 || 0xE000 <= i <= 0x10FFFF {
            Some(i as char)
        } else {
            None
        }),
;

/// Reads a code unit that stands alone as a scalar value; `None` for a
/// surrogate.
pub fn decode_unit(unit: u16) -> (r: Option<char>)
    ensures
        is_surrogate(unit) ==> r is None,
        !is_surrogate(unit) ==> r == Some(unit as char),
{
    char::from_u32(unit as u32)
}

/// Combines a surrogate pair into its scalar value; `None` unless `high` is a
/// high surrogate and `low` a low one.
pub fn decode_pair(high: u16, low: u16) -> (r: Option<char>)
    ensures
        is_pair(high, low) ==> r == Some(pair_scalar(high, low) as char),
        !is_pair(high, low) ==> r is None,
{
    if 0xD800 <= high && high <= 0xDBFF && 0xDC00 <= low && low <= 0xDFFF {
        let lead: u32 = (high - 0xD800) as u32;
        let trail: u32 = (low - 0xDC00) as u32;
        char::from_u32(0x10000 + lead * 0x400 + trail)
    } else {
        None
    }
}

/// Appends the code units of `c` to `out`.
pub fn push_char_units(out: &mut Vec<u16>, c: char)
    ensures
        final(out)@ == old(out)@ + units_of_char(c),
{
    let v: u32 = c as u32;
    if v < 0x10000 {
        out.push(v as u16);
    } else {
        let rest: u32 = v - 0x10000;
        out.push((0xD800 + rest / 0x400) as u16);
        out.push((0xDC00 + rest % 0x400) as u16);
    }
    assert(final(out)@ =~= old(out)@ + units_of_char(c));
}

/// Encodes a string as UTF-16 code units.
pub fn encode_utf16(text: &str) -> (units: Vec<u16>)
    ensures
        units@ == utf16_of(text@),
{
    let mut units: Vec<u16> = Vec::new();
    for c in it: text.chars()
        invariant
            it.seq() == text@,
            units@ == utf16_of(text@.take(it.index() as int)),
    {
        proof {
            let done = text@.take(it.index() as int);
            let next = text@.take(it.index() + 1);
            assert(next.drop_last() =~= done);
            assert(next.last() == c);
        }
        push_char_units(&mut units, c);
    }
    assert(text@.take(text@.len() as int) =~= text@);
    units
}

/// A scalar value below U+10000 is encoded by the one code unit with its
/// number, which is no surrogate.
pub proof fn lemma_units_of_bmp_char(c: char)
    requires
        (c as u32) < 0x10000,
    ensures
        units_of_char(c) == seq![(c as u32) as u16],
        !is_surrogate((c as u32) as u16),
        ((c as u32) as u16) as char == c,
{
}

/// A scalar value from U+10000 on is encoded by a well-formed surrogate pair
/// that stands for it.
pub proof fn lemma_units_of_supplementary_char(c: char)
    requires
        (c as u32) >= 0x10000,
    ensures
        units_of_char(c).len() == 2,
        is_pair(units_of_char(c)[0], units_of_char(c)[1]),
        pair_scalar(units_of_char(c)[0], units_of_char(c)[1]) as char == c,
{
}

/// The encoding of a text is the encoding of its first scalar value followed
/// by the encoding of the rest.
pub proof fn lemma_utf16_of_first(text: Seq<char>)
    requires
        text.len() > 0,
    ensures
        utf16_of(text) == units_of_char(text[0]) + utf16_of(text.skip(1)),
    decreases text.len(),
{
    if text.len() == 1 {
        assert(text.drop_last() =~= Seq::<char>::empty());
        assert(text.skip(1) =~= Seq::<char>::empty());
        assert(utf16_of(text.drop_last()) =~= Seq::<u16>::empty());
        assert(utf16_of(text) =~= units_of_char(text[0]) + utf16_of(text.skip(1)));
    } else {
        let front = text.drop_last();
        lemma_utf16_of_first(front);
        assert(front.skip(1) =~= text.skip(1).drop_last());
        assert(text.skip(1).last() == text.last());
        assert(front[0] == text[0]);
        assert(utf16_of(text) =~= units_of_char(text[0]) + utf16_of(text.skip(1)));
    }
}

/// Only the empty text has an empty encoding.
pub proof fn lemma_utf16_of_is_empty(text: Seq<char>)
    ensures
        utf16_of(text).len() == 0 <==> text.len() == 0,
{
    if text.len() > 0 {
        assert(utf16_of(text) == utf16_of(text.drop_last()) + units_of_char(text.last()));
    }
}

} // verus!
