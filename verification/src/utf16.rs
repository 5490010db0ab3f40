//! UTF-16: how a string is stored as 16-bit code units, and how code units
//! are read back as a string when some of them may be ill-formed.

use vstd::prelude::*;
use vstd::utf8::{char_is_scalar, char_u32_cast, is_scalar};

verus! {

/// The character that stands in for ill-formed input.
pub const REPLACEMENT_CHARACTER: char = '\u{FFFD}';

/// Whether a code unit is the first half of a surrogate pair.
pub open spec fn is_high_surrogate(u: u16) -> bool {
    0xD800 <= u <= 0xDBFF
}

/// Whether a code unit is the second half of a surrogate pair.
pub open spec fn is_low_surrogate(u: u16) -> bool {
    0xDC00 <= u <= 0xDFFF
}

/// The code point that a surrogate pair stands for.
pub open spec fn pair_code_point(high: u16, low: u16) -> u32 {
    (0x1_0000 + (high - 0xD800) * 0x400 + (low - 0xDC00)) as u32
}

/// The code units of one character: itself below `U+10000`, a surrogate
/// pair from there on.
pub open spec fn encode_char_utf16(c: char) -> Seq<u16> {
    let u = c as u32;
    if u < 0x1_0000 {
        seq![u as u16]
    } else {
        seq![(0xD800 + (u - 0x1_0000) / 0x400) as u16, (0xDC00 + (u - 0x1_0000) % 0x400) as u16]
    }
}

/// The code units of a row of characters.
pub open spec fn encode_utf16(s: Seq<char>) -> Seq<u16>
    decreases s.len(),
{
    if s.len() == 0 {
        Seq::empty()
    } else {
        encode_char_utf16(s[0]) + encode_utf16(s.drop_first())
    }
}

/// The characters that a row of code units reads as. A unit that is no
/// surrogate is its own character; a high surrogate followed by a low one
/// is the character of the pair; any other surrogate is replaced by
/// `U+FFFD`.
pub open spec fn decode_utf16_lossy(units: Seq<u16>) -> Seq<char>
    decreases units.len(),
{
    if units.len() == 0 {
        Seq::empty()
    } else if !is_high_surrogate(units[0]) && !is_low_surrogate(units[0]) {
        seq![units[0] as char] + decode_utf16_lossy(units.skip(1))
    } else if is_high_surrogate(units[0]) && units.len() >= 2 && is_low_surrogate(units[1]) {
        seq![pair_code_point(units[0], units[1]) as char] + decode_utf16_lossy(units.skip(2))
    } else {
        seq![REPLACEMENT_CHARACTER] + decode_utf16_lossy(units.skip(1))
    }
}

/// Whether some character lies above `U+10000`, which is what makes the
/// string table store a string as UTF-16.
pub open spec fn needs_utf16(s: Seq<char>) -> bool {
    exists|i: int| 0 <= i < s.len() && #[trigger] s[i] as u32 > 0x1_0000
}

/// The little-endian bytes of a row of code units.
pub open spec fn utf16_le_bytes(units: Seq<u16>) -> Seq<u8> {
    Seq::new(
        2 * units.len(),
        |i: int| if i % 2 == 0 { (units[i / 2] % 0x100) as u8 } else { (units[i / 2] / 0x100) as u8 },
    )
}

/// The code units that little-endian bytes spell; an odd byte at the end is ignored.
pub open spec fn utf16_units_of(bytes: Seq<u8>) -> Seq<u16> {
    Seq::new(bytes.len() / 2, |i: int| (bytes[2 * i] as int + 0x100 * (bytes[2 * i + 1] as int)) as u16)
}

/// `char::from_u32` gives the character of a Unicode scalar value and
/// nothing for any other number.
pub assume_specification[ char::from_u32 ](i: u32) -> (r: Option<char>)
    ensures
        r == (if is_scalar(i) { Some(i as char) } else { None::<char> }),
;

/// Encoding one more character appends its code units.
pub proof fn lemma_encode_utf16_push(s: Seq<char>, c: char)
    ensures
        encode_utf16(s.push(c)) == encode_utf16(s) + encode_char_utf16(c),
    decreases s.len(),
{
    if s.len() == 0 {
        let one = s.push(c);
        assert(one.drop_first() =~= Seq::<char>::empty());
        assert(one[0] == c);
        assert(encode_utf16(one) == encode_char_utf16(c) + encode_utf16(one.drop_first()));
        assert(encode_utf16(one) =~= encode_utf16(s) + encode_char_utf16(c));
    } else {
        lemma_encode_utf16_push(s.drop_first(), c);
        let more = s.push(c);
        assert(more.drop_first() =~= s.drop_first().push(c));
        assert(more[0] == s[0]);
        assert(encode_utf16(more) == encode_char_utf16(s[0]) + encode_utf16(more.drop_first()));
        assert(encode_utf16(more) =~= encode_utf16(s) + encode_char_utf16(c));
    }
}

/// Reading the code units of a string gives the string again: no character
/// of a string is a surrogate, so nothing is replaced.
pub proof fn lemma_utf16_round_trip(s: Seq<char>)
    ensures
        decode_utf16_lossy(encode_utf16(s)) == s,
    decreases s.len(),
{
    if s.len() > 0 {
        let c = s[0];
        let u = c as u32;
        let rest = s.drop_first();
        let units = encode_utf16(s);
        char_is_scalar(c);
        lemma_utf16_round_trip(rest);
        if u < 0x1_0000 {
            char_u32_cast(c, u);
            assert(units.skip(1) =~= encode_utf16(rest));
            assert((units[0] as u32) == u);
            assert(units[0] as char == c);
        } else {
            let high = (0xD800 + (u - 0x1_0000) / 0x400) as u16;
            let low = (0xDC00 + (u - 0x1_0000) % 0x400) as u16;
            assert(units.skip(2) =~= encode_utf16(rest));
            assert(units[0] == high && units[1] == low);
            assert(pair_code_point(high, low) == u);
            char_u32_cast(c, u);
        }
        assert(decode_utf16_lossy(units) =~= seq![c] + rest);
        assert(seq![c] + rest =~= s);
    }
}

/// The code units of little-endian bytes written from code units are those units.
pub proof fn lemma_utf16_bytes_round_trip(units: Seq<u16>)
    ensures
        utf16_le_bytes(units).len() == 2 * units.len(),
        utf16_units_of(utf16_le_bytes(units)) == units,
{
    assert(utf16_units_of(utf16_le_bytes(units)) =~= units);
}

/// Whether some character of the string lies above `U+10000`.
pub fn has_char_above_bmp(chars: &Vec<char>) -> (b: bool)
    ensures
        b == needs_utf16(chars@),
{
    let mut i: usize = 0;
    while i < chars.len()
        invariant
            i <= chars@.len(),
            forall|j: int| 0 <= j < i ==> !(#[trigger] chars@[j] as u32 > 0x1_0000),
        decreases chars@.len() - i,
    {
        if chars[i] as u32 > 0x1_0000 {
            return true;
        }
        i = i + 1;
    }
    false
}

/// The UTF-16 code units of a row of characters.
pub fn encode_utf16_units(chars: &Vec<char>) -> (units: Vec<u16>)
    ensures
        units@ == encode_utf16(chars@),
{
    let mut units: Vec<u16> = Vec::new();
    let mut i: usize = 0;
    while i < chars.len()
        invariant
            i <= chars@.len(),
            units@ == encode_utf16(chars@.take(i as int)),
        decreases chars@.len() - i,
    {
        let c = chars[i];
        let u: u32 = c as u32;
        proof {
            char_is_scalar(c);
            lemma_encode_utf16_push(chars@.take(i as int), c);
            assert(chars@.take(i + 1) =~= chars@.take(i as int).push(c));
        }
        let ghost before = units@;
        if u < 0x1_0000 {
            units.push(u as u16);
            assert(units@ =~= before + encode_char_utf16(c));
        } else {
            units.push((0xD800 + (u - 0x1_0000) / 0x400) as u16);
            units.push((0xDC00 + (u - 0x1_0000) % 0x400) as u16);
            assert(units@ =~= before + encode_char_utf16(c));
        }
        i = i + 1;
    }
    assert(chars@.take(i as int) =~= chars@);
    units
}

/// The characters that a row of code units reads as, with `U+FFFD` in
/// place of every surrogate that has no partner.
pub fn decode_utf16_units_lossy(units: &Vec<u16>) -> (chars: Vec<char>)
    ensures
        chars@ == decode_utf16_lossy(units@),
{
    let mut chars: Vec<char> = Vec::new();
    let mut i: usize = 0;
    assert(units@.skip(0) =~= units@);
    assert(chars@ + decode_utf16_lossy(units@) =~= decode_utf16_lossy(units@));
    while i < units.len()
        invariant
            i <= units@.len(),
            chars@ + decode_utf16_lossy(units@.skip(i as int)) == decode_utf16_lossy(units@),
        decreases units@.len() - i,
    {
        let ghost rest = units@.skip(i as int);
        let ghost before = chars@;
        let u: u16 = units[i];
        assert(rest[0] == u);
        let plain: bool = u < 0xD800 || u > 0xDFFF;
        if plain {
            let c = match char::from_u32(u as u32) {
                Some(c) => c,
                None => REPLACEMENT_CHARACTER,
            };
            chars.push(c);
            assert(rest.skip(1) =~= units@.skip(i + 1));
            assert(chars@ + decode_utf16_lossy(units@.skip(i + 1)) =~= before + decode_utf16_lossy(
                rest,
            ));
            i = i + 1;
        } else if u <= 0xDBFF && i + 1 < units.len() && units[i + 1] >= 0xDC00 && units[i + 1]
            <= 0xDFFF {
            let low: u16 = units[i + 1];
            assert(rest[1] == low);
            let code: u32 = 0x1_0000 + (u as u32 - 0xD800) * 0x400 + (low as u32 - 0xDC00);
            let c = match char::from_u32(code) {
                Some(c) => c,
                None => REPLACEMENT_CHARACTER,
            };
            chars.push(c);
            assert(rest.skip(2) =~= units@.skip(i + 2));
            assert(chars@ + decode_utf16_lossy(units@.skip(i + 2)) =~= before + decode_utf16_lossy(
                rest,
            ));
            i = i + 2;
        } else {
            chars.push(REPLACEMENT_CHARACTER);
            assert(rest.skip(1) =~= units@.skip(i + 1));
            assert(chars@ + decode_utf16_lossy(units@.skip(i + 1)) =~= before + decode_utf16_lossy(
                rest,
            ));
            i = i + 1;
        }
    }
    assert(units@.skip(i as int).len() == 0);
    assert(chars@ + Seq::<char>::empty() =~= chars@);
    chars
}

/// The little-endian bytes of a row of code units, appended to `out`.
pub fn push_utf16_le(out: &mut Vec<u8>, units: &Vec<u16>)
    ensures
        final(out)@ == old(out)@ + utf16_le_bytes(units@),
{
    let mut i: usize = 0;
    while i < units.len()
        invariant
            i <= units@.len(),
            out@ == old(out)@ + utf16_le_bytes(units@.take(i as int)),
        decreases units@.len() - i,
    {
        let u: u16 = units[i];
        out.push((u % 0x100) as u8);
        out.push((u / 0x100) as u8);
        assert(out@ =~= old(out)@ + utf16_le_bytes(units@.take(i + 1)));
        i = i + 1;
    }
    assert(units@.take(i as int) =~= units@);
}

} // verus!
