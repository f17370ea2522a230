//! Laws that hold of the library as a whole, each proved from the contracts of
//! the functions it speaks of.

use crate::charmap::{
    first_byte_below, lemma_first_byte_below, lemma_reverse_of_injective, one_to_one,
    reverse_lookup,
};
use crate::detection::{detect_spec, lemma_detect_spec};
use crate::encoding::Encoding;
use crate::hint::{allows, boosted, lemma_boosted_at_least, LanguageGroup};
use crate::multibyte::{
    convert_spec, encoded, from_utf8_spec, lemma_stop_char, to_utf8_spec, utf16_to_utf8_spec,
    utf8_to_utf16_spec,
};
use crate::pages::{
    is_complete, lemma_complete, lemma_incomplete, lemma_injective, unassigned_byte,
};
use crate::table::{
    all_mappable, lemma_stop_index, table_entry, table_of, translate_spec, translated,
};
use crate::tables::{chars_for, lemma_chars_for};
use crate::translator::{translator_lossy_spec, translator_spec, uses_pivot};
use crate::utf16::{
    bytes_of, decode_utf16, lemma_bytes_of_units_of, lemma_decode_encode_utf16,
    lemma_units_of_bytes_of, units_of, valid_utf16,
};
use vstd::prelude::*;
use vstd::utf8::*;

verus! {

/// Whether every byte of `input` is an ASCII byte.
pub open spec fn ascii_bytes(input: Seq<u8>) -> bool {
    forall|i: int| 0 <= i < input.len() ==> (#[trigger] input[i]) < 0x80
}

/// Whether a character map gives each byte below 0x80 the ASCII character of
/// the same value.
pub open spec fn ascii_compatible_map(map: Seq<Option<char>>) -> bool {
    &&& map.len() == 256
    &&& forall|b: int| 0 <= b < 0x80 ==> (#[trigger] map[b]) == Some(b as u8 as char)
}

/// Under an ASCII-compatible map the byte of an ASCII character is the
/// character's own value.
pub proof fn lemma_reverse_ascii(map: Seq<Option<char>>, byte: u8)
    requires
        ascii_compatible_map(map),
        byte < 0x80,
    ensures
        reverse_lookup(map, byte as char) == Some(byte),
{
    let c = byte as char;
    lemma_first_byte_below(map, c, 256);
    assert(map[byte as int] == Some(c));
    let found = first_byte_below(map, c, 256);
    assert(found is Some);
    let b = found->0;
    if b < byte {
        assert(map[b as int] == Some(b as char));
        assert(b as char != c);
    }
}

/// ASCII bytes are well-formed UTF-8, and stand for the characters of the
/// same values.
pub proof fn lemma_ascii_is_utf8(input: Seq<u8>)
    requires
        ascii_bytes(input),
    ensures
        valid_utf8(input),
        decode_utf8(input) == Seq::new(input.len(), |i: int| input[i] as char),
        encode_utf8(Seq::new(input.len(), |i: int| input[i] as char)) == input,
{
    let chars = Seq::new(input.len(), |i: int| input[i] as char);
    assert(is_ascii_chars(chars));
    is_ascii_chars_encode_utf8(chars);
    assert forall|i: int| 0 <= i < input.len() implies encode_utf8(chars)[i] == input[i] by {
        assert(chars[i] as u8 == input[i]);
    }
    assert(encode_utf8(chars) =~= input);
    encode_utf8_valid_utf8(chars);
    encode_utf8_decode_utf8(chars);
}

/// ASCII text read under an ASCII-compatible map and written as UTF-8 is
/// unchanged.
pub proof fn lemma_ascii_to_utf8(map: Seq<Option<char>>, input: Seq<u8>)
    requires
        ascii_compatible_map(map),
        ascii_bytes(input),
    ensures
        to_utf8_spec(map, input) == Ok::<Seq<u8>, crate::error::ErrorView>(input),
{
    assert forall|j: int| 0 <= j < input.len() implies map[(#[trigger] input[j]) as int] is Some by {
        assert(map[input[j] as int] == Some(input[j] as char));
    }
    lemma_stop_index(map, input, input.len() as int);
    lemma_ascii_is_utf8(input);
    assert(translated(map, input, input.len() as int) =~= Seq::new(
        input.len(),
        |i: int| input[i] as char,
    ));
}

/// ASCII text in UTF-8 written under an ASCII-compatible map is unchanged.
pub proof fn lemma_ascii_from_utf8(map: Seq<Option<char>>, input: Seq<u8>)
    requires
        ascii_compatible_map(map),
        ascii_bytes(input),
    ensures
        from_utf8_spec(map, input) == Ok::<Seq<u8>, crate::error::ErrorView>(input),
{
    lemma_ascii_is_utf8(input);
    let chars = decode_utf8(input);
    assert forall|j: int| 0 <= j < chars.len() implies reverse_lookup(map, #[trigger] chars[j])
        == Some(input[j]) by {
        lemma_reverse_ascii(map, input[j]);
    }
    lemma_stop_char(map, chars, chars.len() as int);
    assert(encoded(map, chars, chars.len() as int) =~= input);
}

/// ASCII text translated between two ASCII-compatible maps is unchanged.
pub proof fn lemma_ascii_table(from: Seq<Option<char>>, to: Seq<Option<char>>, input: Seq<u8>)
    requires
        ascii_compatible_map(from),
        ascii_compatible_map(to),
        ascii_bytes(input),
    ensures
        translate_spec(table_of(from, to), input) == Ok::<Seq<u8>, crate::error::ErrorView>(input),
{
    let table = table_of(from, to);
    assert forall|j: int| 0 <= j < input.len() implies table[(#[trigger] input[j]) as int] == Some(
        input[j],
    ) by {
        lemma_reverse_ascii(to, input[j]);
        assert(from[input[j] as int] == Some(input[j] as char));
    }
    lemma_stop_index(table, input, input.len() as int);
    assert(translated(table, input, input.len() as int) =~= input);
}

/// Between two ASCII-compatible encodings, text of ASCII bytes alone is
/// converted to itself. So converting it to the other encoding and back gives
/// the same bytes again.
pub proof fn lemma_ascii_round_trip(a: Encoding, b: Encoding, input: Seq<u8>)
    requires
        a.is_ascii_compatible(),
        b.is_ascii_compatible(),
        ascii_bytes(input),
    ensures
        translator_spec(a, b, input) == Ok::<Seq<u8>, crate::error::ErrorView>(input),
        translator_spec(b, a, input) == Ok::<Seq<u8>, crate::error::ErrorView>(input),
{
    lemma_chars_for(a);
    lemma_chars_for(b);
    lemma_ascii_passes(a, b, input);
    lemma_ascii_passes(b, a, input);
}

/// Text of ASCII bytes alone is converted to itself between two
/// ASCII-compatible encodings.
proof fn lemma_ascii_passes(a: Encoding, b: Encoding, input: Seq<u8>)
    requires
        a.is_ascii_compatible(),
        b.is_ascii_compatible(),
        ascii_bytes(input),
    ensures
        translator_spec(a, b, input) == Ok::<Seq<u8>, crate::error::ErrorView>(input),
{
    lemma_chars_for(a);
    lemma_chars_for(b);
    if uses_pivot(a, b) {
        if a == Encoding::UTF8 && b != Encoding::UTF8 {
            lemma_ascii_from_utf8(chars_for(b), input);
        } else {
            lemma_ascii_to_utf8(chars_for(a), input);
            if b != Encoding::UTF8 {
                lemma_ascii_from_utf8(chars_for(b), input);
            }
        }
    } else {
        lemma_ascii_table(chars_for(a), chars_for(b), input);
    }
}

/// Single-byte text turned into UTF-8 and back under the same code page is
/// unchanged, whatever the code page, where it assigns a character to every
/// byte of the text.
pub proof fn lemma_utf8_round_trip(encoding: Encoding, input: Seq<u8>)
    requires
        all_mappable(chars_for(encoding), input),
    ensures
        to_utf8_spec(chars_for(encoding), input) is Ok,
        from_utf8_spec(chars_for(encoding), to_utf8_spec(chars_for(encoding), input)->Ok_0)
            == Ok::<Seq<u8>, crate::error::ErrorView>(input),
{
    let map = chars_for(encoding);
    lemma_injective(encoding);
    lemma_stop_index(map, input, input.len() as int);
    let chars = translated(map, input, input.len() as int);
    let text = encode_utf8(chars);
    encode_utf8_valid_utf8(chars);
    encode_utf8_decode_utf8(chars);
    assert forall|j: int| 0 <= j < chars.len() implies reverse_lookup(map, #[trigger] chars[j])
        == Some(input[j]) by {
        assert(map[input[j] as int] is Some);
        lemma_reverse_of_injective(map, input[j]);
    }
    lemma_stop_char(map, chars, chars.len() as int);
    assert(encoded(map, chars, chars.len() as int) =~= input);
}

/// Text that a table takes to another code page, and the table of the other
/// direction takes back, is unchanged where the first table has a target byte
/// for every byte of it.
pub proof fn lemma_table_round_trip(a: Encoding, b: Encoding, input: Seq<u8>)
    requires
        all_mappable(table_of(chars_for(a), chars_for(b)), input),
    ensures
        translate_spec(table_of(chars_for(a), chars_for(b)), input) is Ok,
        translate_spec(
            table_of(chars_for(b), chars_for(a)),
            translate_spec(table_of(chars_for(a), chars_for(b)), input)->Ok_0,
        ) == Ok::<Seq<u8>, crate::error::ErrorView>(input),
{
    let ma = chars_for(a);
    let mb = chars_for(b);
    let forth = table_of(ma, mb);
    let back = table_of(mb, ma);
    lemma_injective(a);
    lemma_injective(b);
    lemma_stop_index(forth, input, input.len() as int);
    let mid = translated(forth, input, input.len() as int);
    assert forall|j: int| 0 <= j < mid.len() implies back[(#[trigger] mid[j]) as int] == Some(
        input[j],
    ) by {
        assert(forth[input[j] as int] is Some);
        let c = ma[input[j] as int]->0;
        lemma_first_byte_below(mb, c, 256);
        assert(mb[mid[j] as int] == Some(c));
        lemma_reverse_of_injective(ma, input[j]);
    }
    lemma_stop_index(back, mid, mid.len() as int);
    assert(translated(back, mid, mid.len() as int) =~= input);
}

/// A byte can be translated exactly where the source map assigns it a
/// character and some byte of the target map carries that character. The
/// target byte is then the first byte that carries it.
pub proof fn lemma_mappable(from: Seq<Option<char>>, to: Seq<Option<char>>, byte: u8)
    requires
        from.len() == 256,
        to.len() == 256,
    ensures
        table_of(from, to)[byte as int] is Some <==> from[byte as int] is Some && exists|j: int|
            0 <= j < 256 && to[j] == from[byte as int],
        table_of(from, to)[byte as int] matches Some(target) ==> to[target as int]
            == from[byte as int] && forall|j: int| 0 <= j < target ==> to[j] != from[byte as int],
{
    if from[byte as int] is Some {
        let c = from[byte as int]->0;
        lemma_first_byte_below(to, c, 256);
        if table_of(from, to)[byte as int] is Some {
            let target = table_of(from, to)[byte as int]->0;
            assert(to[target as int] == from[byte as int]);
        }
    }
}

/// The table from a character map to itself leaves a byte as it is where the
/// map assigns it a character that no earlier byte carries.
pub proof fn lemma_identity_entry(map: Seq<Option<char>>, byte: u8)
    requires
        map.len() == 256,
        map[byte as int] is Some,
        forall|j: int| 0 <= j < byte ==> map[j] != map[byte as int],
    ensures
        table_entry(map, map, byte) == Some(byte),
{
    lemma_first_byte_below(map, map[byte as int]->0, 256);
}

/// The table from an encoding to itself is the identity, with no byte that
/// cannot be translated, where the encoding assigns a character to every byte
/// and to no two bytes the same.
pub proof fn lemma_identity_table(map: Seq<Option<char>>)
    requires
        one_to_one(map),
    ensures
        table_of(map, map) == Seq::new(256, |b: int| Some(b as u8)),
        forall|input: Seq<u8>| #[trigger] all_mappable(table_of(map, map), input),
{
    assert forall|b: int| 0 <= b < 256 implies table_of(map, map)[b] == Some(b as u8) by {
        assert forall|j: int| 0 <= j < b implies map[j] != map[b] by {
            assert(map[j] != map[b]);
        }
        lemma_identity_entry(map, b as u8);
    }
    assert(table_of(map, map) =~= Seq::new(256, |b: int| Some(b as u8)));
}

/// The table from a complete encoding to itself is the identity: every byte
/// is translated to itself, and none is left out.
pub proof fn lemma_table_to_itself(encoding: Encoding)
    requires
        is_complete(encoding),
    ensures
        !encoding.is_multibyte(),
        table_of(chars_for(encoding), chars_for(encoding)) == Seq::new(256, |b: int| Some(b as u8)),
{
    lemma_complete(encoding);
    lemma_identity_table(chars_for(encoding));
}

/// The table from a single-byte encoding that is not complete to itself is
/// not the identity: it cannot translate the bytes that have no character.
pub proof fn lemma_table_with_gaps(encoding: Encoding)
    requires
        !encoding.is_multibyte(),
        !is_complete(encoding),
    ensures
        table_of(chars_for(encoding), chars_for(encoding))[unassigned_byte(encoding) as int]
            is None,
{
    lemma_incomplete(encoding);
}

/// Lossy conversion through a table gives as many bytes as it was given.
pub proof fn lemma_lossy_length(from: Encoding, to: Encoding, input: Seq<u8>, replacement: u8)
    requires
        !uses_pivot(from, to),
    ensures
        translator_lossy_spec(from, to, input, replacement).len() == input.len(),
{
}

/// Well-formed UTF-16 converted to the other byte order and back is what it
/// was: the conversion between the two byte orders is its own inverse.
pub proof fn lemma_utf16_round_trip(from: Encoding, to: Encoding, input: Seq<u8>)
    requires
        from.is_utf16(),
        to.is_utf16(),
        from != to,
        input.len() % 2 == 0,
        valid_utf16(units_of(input, from == Encoding::UTF16BE)),
    ensures
        convert_spec(from, to, input) == Ok::<Seq<u8>, crate::error::ErrorView>(
            bytes_of(units_of(input, from == Encoding::UTF16BE), to == Encoding::UTF16BE),
        ),
        convert_spec(to, from, convert_spec(from, to, input)->Ok_0) == Ok::<
            Seq<u8>,
            crate::error::ErrorView,
        >(input),
{
    let be = from == Encoding::UTF16BE;
    let units = units_of(input, be);
    lemma_utf16_hop(from, to, input);
    let mid = bytes_of(units, !be);
    lemma_units_of_bytes_of(units, !be);
    assert(mid.len() % 2 == 0);
    lemma_utf16_hop(to, from, mid);
    lemma_bytes_of_units_of(input, be);
}

/// Well-formed UTF-16 converted to the other byte order is the same units in
/// that byte order.
proof fn lemma_utf16_hop(from: Encoding, to: Encoding, input: Seq<u8>)
    requires
        from.is_utf16(),
        to.is_utf16(),
        from != to,
        input.len() % 2 == 0,
        valid_utf16(units_of(input, from == Encoding::UTF16BE)),
    ensures
        convert_spec(from, to, input) == Ok::<Seq<u8>, crate::error::ErrorView>(
            bytes_of(units_of(input, from == Encoding::UTF16BE), to == Encoding::UTF16BE),
        ),
{
    let be = from == Encoding::UTF16BE;
    let units = units_of(input, be);
    let chars = decode_utf16(units);
    let text = encode_utf8(chars);
    assert(utf16_to_utf8_spec(be, input) == Ok::<Seq<u8>, crate::error::ErrorView>(text));
    encode_utf8_valid_utf8(chars);
    encode_utf8_decode_utf8(chars);
    lemma_decode_encode_utf16(units);
    assert(utf8_to_utf16_spec(!be, text) == Ok::<Seq<u8>, crate::error::ErrorView>(
        bytes_of(units, !be),
    ));
}

/// A language hint never lowers the confidence of a detection: it raises it
/// or leaves it, and it leaves it where the detected encoding does not suit
/// the languages of the hint.
pub proof fn lemma_hint_never_lowers(sample: Seq<u8>, group: LanguageGroup)
    ensures
        boosted(group, detect_spec(sample).encoding, detect_spec(sample).confidence).at_least(
            detect_spec(sample).confidence,
        ),
        !allows(group, detect_spec(sample).encoding) ==> boosted(
            group,
            detect_spec(sample).encoding,
            detect_spec(sample).confidence,
        ) == detect_spec(sample).confidence,
{
    let d = detect_spec(sample);
    lemma_detect_spec(sample);
    if allows(group, d.encoding) {
        assert(!d.encoding.is_utf16());
        lemma_boosted_at_least(group, d.encoding, d.confidence);
    }
}

} // verus!
