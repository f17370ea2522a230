//! UTF-16: code units and surrogate pairs, and the two byte orders.

use vstd::prelude::*;
use vstd::utf8::*;

verus! {

/// A leading (high) surrogate, the first unit of a pair.
pub open spec fn is_high_surrogate(unit: u16) -> bool {
    0xD800 <= unit <= 0xDBFF
}

/// A trailing (low) surrogate, the second unit of a pair.
pub open spec fn is_low_surrogate(unit: u16) -> bool {
    0xDC00 <= unit <= 0xDFFF
}

/// The scalar value that a surrogate pair stands for.
pub open spec fn pair_scalar(high: u16, low: u16) -> u32 {
    (0x10000 + (high - 0xD800) * 0x400 + (low - 0xDC00)) as u32
}

/// Whether `units` begins with one scalar value: a unit that is no surrogate,
/// or a high surrogate followed by a low one.
pub open spec fn valid_first_unit(units: Seq<u16>) -> bool {
    &&& units.len() >= 1
    &&& !is_low_surrogate(units[0])
    &&& is_high_surrogate(units[0]) ==> units.len() >= 2 && is_low_surrogate(units[1])
}

/// The number of units that the first scalar value takes.
pub open spec fn first_unit_count(units: Seq<u16>) -> int {
    if is_high_surrogate(units[0]) {
        2
    } else {
        1
    }
}

/// The first scalar value of `units`.
pub open spec fn first_unit_scalar(units: Seq<u16>) -> u32 {
    if is_high_surrogate(units[0]) {
        pair_scalar(units[0], units[1])
    } else {
        units[0] as u32
    }
}

/// Whether `units` is well-formed UTF-16: every surrogate is part of a pair.
pub open spec fn valid_utf16(units: Seq<u16>) -> bool
    decreases units.len(),
{
    units.len() != 0 ==> valid_first_unit(units) && valid_utf16(
        units.skip(first_unit_count(units)),
    )
}

/// The characters that well-formed UTF-16 stands for.
pub open spec fn decode_utf16(units: Seq<u16>) -> Seq<char>
    decreases units.len(),
    when valid_utf16(units)
{
    if units.len() == 0 {
        seq![]
    } else {
        seq![first_unit_scalar(units) as char] + decode_utf16(
            units.skip(first_unit_count(units)),
        )
    }
}

/// The one or two units that encode a scalar value.
pub open spec fn encode_utf16_scalar(scalar: u32) -> Seq<u16> {
    if scalar < 0x10000 {
        seq![scalar as u16]
    } else {
        seq![
            (0xD800 + (scalar - 0x10000) / 0x400) as u16,
            (0xDC00 + (scalar - 0x10000) % 0x400) as u16,
        ]
    }
}

/// The UTF-16 encoding of a sequence of characters.
pub open spec fn encode_utf16(chars: Seq<char>) -> Seq<u16>
    decreases chars.len(),
{
    if chars.len() == 0 {
        seq![]
    } else {
        encode_utf16_scalar(chars[0] as u32) + encode_utf16(chars.drop_first())
    }
}

/// The unit that the two bytes at `2 * index` form in the given byte order.
pub open spec fn unit_at(bytes: Seq<u8>, index: int, big_endian: bool) -> u16 {
    if big_endian {
        (bytes[2 * index] * 0x100 + bytes[2 * index + 1]) as u16
    } else {
        (bytes[2 * index + 1] * 0x100 + bytes[2 * index]) as u16
    }
}

/// The units that `bytes` holds in the given byte order; a last odd byte is
/// left out.
pub open spec fn units_of(bytes: Seq<u8>, big_endian: bool) -> Seq<u16> {
    Seq::new((bytes.len() / 2) as nat, |i: int| unit_at(bytes, i, big_endian))
}

/// The two bytes of `unit` in the given byte order.
pub open spec fn unit_bytes(unit: u16, big_endian: bool) -> Seq<u8> {
    if big_endian {
        seq![(unit / 0x100) as u8, (unit % 0x100) as u8]
    } else {
        seq![(unit % 0x100) as u8, (unit / 0x100) as u8]
    }
}

/// The bytes of `units` in the given byte order.
pub open spec fn bytes_of(units: Seq<u16>, big_endian: bool) -> Seq<u8> {
    Seq::new(2 * units.len(), |j: int| unit_bytes(units[j / 2], big_endian)[j % 2])
}

/// Encoding a sequence with one more character appends the units of that
/// character.
pub proof fn lemma_encode_utf16_push(chars: Seq<char>, c: char)
    ensures
        encode_utf16(chars.push(c)) == encode_utf16(chars) + encode_utf16_scalar(c as u32),
    decreases chars.len(),
{
    if chars.len() == 0 {
        assert(chars.push(c).drop_first() =~= Seq::<char>::empty());
        assert(encode_utf16(chars.push(c)) =~= encode_utf16_scalar(c as u32) + encode_utf16(
            Seq::<char>::empty(),
        ));
        assert(encode_utf16(chars) + encode_utf16_scalar(c as u32) =~= encode_utf16_scalar(
            c as u32,
        ));
    } else {
        let rest = chars.drop_first();
        assert(chars.push(c).drop_first() =~= rest.push(c));
        lemma_encode_utf16_push(rest, c);
        assert(encode_utf16(chars.push(c)) =~= encode_utf16_scalar(chars[0] as u32) + (
        encode_utf16(rest) + encode_utf16_scalar(c as u32)));
        assert(encode_utf16(chars) + encode_utf16_scalar(c as u32) =~= encode_utf16_scalar(
            chars[0] as u32,
        ) + (encode_utf16(rest) + encode_utf16_scalar(c as u32)));
    }
}

/// The bytes of a concatenation are the bytes of its parts, one after the
/// other.
pub proof fn lemma_bytes_of_concat(a: Seq<u16>, b: Seq<u16>, big_endian: bool)
    ensures
        bytes_of(a + b, big_endian) == bytes_of(a, big_endian) + bytes_of(b, big_endian),
{
    assert(bytes_of(a + b, big_endian) =~= bytes_of(a, big_endian) + bytes_of(b, big_endian));
}

/// Reading back the bytes of `units` in the same byte order gives `units`.
pub proof fn lemma_units_of_bytes_of(units: Seq<u16>, big_endian: bool)
    ensures
        units_of(bytes_of(units, big_endian), big_endian) == units,
{
    let bytes = bytes_of(units, big_endian);
    assert forall|i: int| 0 <= i < units.len() implies unit_at(bytes, i, big_endian)
        == units[i] by {
        assert(bytes[2 * i] == unit_bytes(units[i], big_endian)[0]);
        assert(bytes[2 * i + 1] == unit_bytes(units[i], big_endian)[1]);
    }
    assert(units_of(bytes, big_endian) =~= units);
}

/// Writing out the units of an even-length buffer in the same byte order gives
/// the buffer.
pub proof fn lemma_bytes_of_units_of(bytes: Seq<u8>, big_endian: bool)
    requires
        bytes.len() % 2 == 0,
    ensures
        bytes_of(units_of(bytes, big_endian), big_endian) == bytes,
{
    let units = units_of(bytes, big_endian);
    assert forall|j: int| 0 <= j < bytes.len() implies bytes_of(units, big_endian)[j]
        == bytes[j] by {
        let i = j / 2;
        assert(units[i] == unit_at(bytes, i, big_endian));
    }
    assert(bytes_of(units, big_endian) =~= bytes);
}

/// A scalar value is encoded by well-formed units that decode to it again.
pub proof fn lemma_encode_utf16_scalar(c: char)
    ensures
        ({
            let units = encode_utf16_scalar(c as u32);
            &&& valid_first_unit(units)
            &&& first_unit_count(units) == units.len()
            &&& first_unit_scalar(units) == c as u32
        }),
{
    char_is_scalar(c);
}

/// Encoding then decoding gives the characters back.
pub proof fn lemma_encode_decode_utf16(chars: Seq<char>)
    ensures
        valid_utf16(encode_utf16(chars)),
        decode_utf16(encode_utf16(chars)) == chars,
    decreases chars.len(),
{
    if chars.len() > 0 {
        let c = chars[0];
        let rest = chars.drop_first();
        let units = encode_utf16(chars);
        let head = encode_utf16_scalar(c as u32);
        lemma_encode_utf16_scalar(c);
        lemma_encode_decode_utf16(rest);
        assert(valid_first_unit(units));
        assert(first_unit_count(units) == head.len());
        assert(units.skip(first_unit_count(units)) =~= encode_utf16(rest));
        assert(first_unit_scalar(units) == c as u32);
        char_u32_cast(c, c as u32);
        assert(decode_utf16(units) =~= chars);
    }
}

/// Decoding then encoding well-formed units gives the units back.
pub proof fn lemma_decode_encode_utf16(units: Seq<u16>)
    requires
        valid_utf16(units),
    ensures
        encode_utf16(decode_utf16(units)) == units,
    decreases units.len(),
{
    if units.len() > 0 {
        let n = first_unit_count(units);
        let rest = units.skip(n);
        let v = first_unit_scalar(units);
        lemma_decode_encode_utf16(rest);
        let chars = decode_utf16(units);
        assert(chars.drop_first() =~= decode_utf16(rest));
        lemma_first_unit_scalar(units);
        assert(chars[0] as u32 == v);
        assert(encode_utf16_scalar(v) =~= units.take(n));
        assert(units =~= units.take(n) + rest);
    }
}

/// The first scalar value of well-formed units is a Unicode scalar value, and
/// its encoding is the units it was read from.
pub proof fn lemma_first_unit_scalar(units: Seq<u16>)
    requires
        valid_first_unit(units),
    ensures
        is_scalar(first_unit_scalar(units)),
        (first_unit_scalar(units) as char) as u32 == first_unit_scalar(units),
        encode_utf16_scalar(first_unit_scalar(units)) == units.take(first_unit_count(units)),
{
    let v = first_unit_scalar(units);
    if is_high_surrogate(units[0]) {
        let h = units[0] as int - 0xD800;
        let l = units[1] as int - 0xDC00;
        assert(v == 0x10000 + h * 0x400 + l);
        assert((v - 0x10000) / 0x400 == h && (v - 0x10000) % 0x400 == l) by (nonlinear_arith)
            requires
                v == 0x10000 + h * 0x400 + l,
                0 <= l < 0x400,
                0 <= h < 0x400,
        ;
    }
    assert(encode_utf16_scalar(v) =~= units.take(first_unit_count(units)));
}

/// Reads the unit at `index` in the given byte order.
pub fn read_unit(bytes: &[u8], index: usize, big_endian: bool) -> (unit: u16)
    requires
        2 * index + 1 < bytes@.len(),
    ensures
        unit == unit_at(bytes@, index as int, big_endian),
{
    let len: usize = bytes.len();
    let first: u16 = bytes[2 * index] as u16;
    let second: u16 = bytes[2 * index + 1] as u16;
    if big_endian {
        first * 0x100 + second
    } else {
        second * 0x100 + first
    }
}

/// Appends the two bytes of `unit` in the given byte order.
pub fn push_unit(out: &mut Vec<u8>, unit: u16, big_endian: bool)
    ensures
        final(out)@ == old(out)@ + unit_bytes(unit, big_endian),
{
    let high: u8 = (unit / 0x100) as u8;
    let low: u8 = (unit % 0x100) as u8;
    if big_endian {
        out.push(high);
        out.push(low);
    } else {
        out.push(low);
        out.push(high);
    }
    assert(out@ =~= old(out)@ + unit_bytes(unit, big_endian));
}

/// Appends the UTF-16 encoding of `c` in the given byte order.
pub fn push_utf16(out: &mut Vec<u8>, c: char, big_endian: bool)
    ensures
        final(out)@ == old(out)@ + bytes_of(encode_utf16_scalar(c as u32), big_endian),
{
    let v: u32 = c as u32;
    proof {
        char_is_scalar(c);
    }
    if v < 0x10000 {
        push_unit(out, v as u16, big_endian);
        assert(bytes_of(encode_utf16_scalar(v), big_endian) =~= unit_bytes(v as u16, big_endian));
    } else {
        let offset: u32 = v - 0x10000;
        let high: u16 = (0xD800 + offset / 0x400) as u16;
        let low: u16 = (0xDC00 + offset % 0x400) as u16;
        push_unit(out, high, big_endian);
        push_unit(out, low, big_endian);
        assert(bytes_of(encode_utf16_scalar(v), big_endian) =~= unit_bytes(high, big_endian)
            + unit_bytes(low, big_endian));
        assert(out@ =~= old(out)@ + (unit_bytes(high, big_endian) + unit_bytes(low, big_endian)));
    }
}

/// Decodes the scalar value that starts at unit `index`, and says how many
/// units it takes. `None` where a surrogate stands there without its partner.
pub fn first_unit(bytes: &[u8], index: usize, big_endian: bool) -> (r: Option<(char, usize)>)
    ensures
        index >= units_of(bytes@, big_endian).len() ==> r is None,
        index < units_of(bytes@, big_endian).len() ==> ({
            let rest = units_of(bytes@, big_endian).skip(index as int);
            match r {
                Some((c, n)) => {
                    &&& valid_first_unit(rest)
                    &&& c == first_unit_scalar(rest) as char
                    &&& n == first_unit_count(rest)
                    &&& index + n <= units_of(bytes@, big_endian).len()
                },
                None => !valid_first_unit(rest),
            }
        }),
{
    let count: usize = bytes.len() / 2;
    if index >= count {
        return None;
    }
    let ghost units = units_of(bytes@, big_endian);
    let ghost rest = units.skip(index as int);
    let unit = read_unit(bytes, index, big_endian);
    assert(rest[0] == unit);
    if unit < 0xD800 || unit > 0xDFFF {
        match char::from_u32(unit as u32) {
            Some(c) => Some((c, 1)),
            None => None,
        }
    } else if unit <= 0xDBFF {
        if index + 1 >= count {
            return None;
        }
        let next = read_unit(bytes, index + 1, big_endian);
        assert(rest[1] == next);
        if next < 0xDC00 || next > 0xDFFF {
            return None;
        }
        let v: u32 = 0x10000 + ((unit - 0xD800) as u32) * 0x400 + ((next - 0xDC00) as u32);
        match char::from_u32(v) {
            Some(c) => Some((c, 2)),
            None => None,
        }
    } else {
        None
    }
}

} // verus!
