//! Conversion where at least one side is a multibyte encoding. Every such
//! conversion goes through UTF-8: the source is turned into UTF-8 text, and the
//! text into the target.

use crate::charmap::{reverse_lookup, ReverseMap};
use crate::encoding::Encoding;
use crate::error::{invalid_utf16, invalid_utf8, odd_utf16, outcome, Error, ErrorView};
use crate::table::{lemma_stop_index, stop_index, translated};
use crate::tables::{chars_for, get_encoding_chars};
use crate::utf16::{
    bytes_of, decode_utf16, encode_utf16, encode_utf16_scalar, first_unit, lemma_bytes_of_concat,
    lemma_encode_utf16_push, push_utf16, units_of, valid_utf16,
};
use crate::utf8::{is_valid_utf8, lemma_encode_utf8_push, next_char, push_utf8};
use vstd::prelude::*;
use vstd::utf8::*;

verus! {

/// The error of a step that was asked for a pair of encodings it does not
/// handle.
pub open spec fn unsupported(from: Encoding, to: Encoding) -> ErrorView {
    ErrorView::UnsupportedConversion { from: from.spec_name(), to: to.spec_name() }
}

/// Single-byte text to UTF-8: the characters that the bytes stand for under
/// `map`, encoded as UTF-8; or the first byte to which `map` assigns no
/// character, with its index.
pub open spec fn to_utf8_spec(map: Seq<Option<char>>, input: Seq<u8>) -> Result<
    Seq<u8>,
    ErrorView,
> {
    let stop = stop_index(map, input);
    if stop == input.len() {
        Ok(encode_utf8(translated(map, input, stop)))
    } else {
        Err(ErrorView::UnmappableSource { byte: input[stop], position: stop })
    }
}

/// Whether `map` has a byte for every character of `chars`.
pub open spec fn all_encodable(map: Seq<Option<char>>, chars: Seq<char>) -> bool {
    forall|i: int| 0 <= i < chars.len() ==> reverse_lookup(map, #[trigger] chars[i]) is Some
}

/// Whether `k` is the index of the first character of `chars` for which `map`
/// has no byte.
pub open spec fn is_first_unencodable(map: Seq<Option<char>>, chars: Seq<char>, k: int) -> bool {
    &&& 0 <= k < chars.len()
    &&& reverse_lookup(map, chars[k]) is None
    &&& forall|j: int| 0 <= j < k ==> reverse_lookup(map, #[trigger] chars[j]) is Some
}

/// The index of the first character without a byte, or the number of
/// characters where there is none.
pub open spec fn stop_char(map: Seq<Option<char>>, chars: Seq<char>) -> int {
    if all_encodable(map, chars) {
        chars.len() as int
    } else {
        choose|k: int| is_first_unencodable(map, chars, k)
    }
}

/// The first `count` characters of `chars`, each replaced by its byte.
pub open spec fn encoded(map: Seq<Option<char>>, chars: Seq<char>, count: int) -> Seq<u8> {
    Seq::new(count as nat, |i: int| reverse_lookup(map, chars[i])->0)
}

/// Characters to single-byte text: the byte of each character under `map`; or
/// the first character that has none, with the byte offset at which it starts
/// in the UTF-8 encoding of `chars`.
pub open spec fn encode_single(map: Seq<Option<char>>, chars: Seq<char>) -> Result<
    Seq<u8>,
    ErrorView,
> {
    let stop = stop_char(map, chars);
    if stop == chars.len() {
        Ok(encoded(map, chars, stop))
    } else {
        Err(
            ErrorView::UnmappableTarget {
                character: chars[stop],
                position: encode_utf8(chars.take(stop)).len() as int,
            },
        )
    }
}

/// UTF-8 to single-byte text: the input must be well-formed UTF-8, and its
/// characters are then encoded under `map`.
pub open spec fn from_utf8_spec(map: Seq<Option<char>>, input: Seq<u8>) -> Result<
    Seq<u8>,
    ErrorView,
> {
    if !valid_utf8(input) {
        Err(invalid_utf8())
    } else {
        encode_single(map, decode_utf8(input))
    }
}

/// UTF-16 to UTF-8: the input must have an even number of bytes and hold
/// well-formed UTF-16 in the given byte order; its characters are encoded as
/// UTF-8.
pub open spec fn utf16_to_utf8_spec(big_endian: bool, input: Seq<u8>) -> Result<
    Seq<u8>,
    ErrorView,
> {
    if input.len() % 2 != 0 {
        Err(odd_utf16())
    } else if !valid_utf16(units_of(input, big_endian)) {
        Err(invalid_utf16())
    } else {
        Ok(encode_utf8(decode_utf16(units_of(input, big_endian))))
    }
}

/// UTF-8 to UTF-16: the input must be well-formed UTF-8; its characters are
/// encoded as UTF-16 in the given byte order.
pub open spec fn utf8_to_utf16_spec(big_endian: bool, input: Seq<u8>) -> Result<
    Seq<u8>,
    ErrorView,
> {
    if !valid_utf8(input) {
        Err(invalid_utf8())
    } else {
        Ok(bytes_of(encode_utf16(decode_utf8(input)), big_endian))
    }
}

/// The second half of a conversion: UTF-8 text into the target encoding.
pub open spec fn from_pivot(to: Encoding, text: Seq<u8>) -> Result<Seq<u8>, ErrorView> {
    if to == Encoding::UTF8 {
        Ok(text)
    } else if to.is_utf16() {
        utf8_to_utf16_spec(to == Encoding::UTF16BE, text)
    } else {
        from_utf8_spec(chars_for(to), text)
    }
}

/// The first half of a conversion: the source into UTF-8 text. A source that
/// is neither UTF-16 nor UTF-8 is read byte by byte under its character map;
/// so is UTF-8 where this half is asked for it.
pub open spec fn to_pivot(from: Encoding, input: Seq<u8>) -> Result<Seq<u8>, ErrorView> {
    if from.is_utf16() {
        utf16_to_utf8_spec(from == Encoding::UTF16BE, input)
    } else {
        to_utf8_spec(chars_for(from), input)
    }
}

/// What converting `input` from `from` to `to` through UTF-8 gives.
///
/// UTF-16 to the same UTF-16 is a copy, and UTF-8 input that goes to another
/// encoding is the pivot text as it stands. Everything else is turned into
/// UTF-8 first and from there into the target.
pub open spec fn convert_spec(from: Encoding, to: Encoding, input: Seq<u8>) -> Result<
    Seq<u8>,
    ErrorView,
> {
    if from.is_utf16() && from == to {
        Ok(input)
    } else if from == Encoding::UTF8 && to != Encoding::UTF8 {
        from_pivot(to, input)
    } else {
        match to_pivot(from, input) {
            Ok(text) => from_pivot(to, text),
            Err(e) => Err(e),
        }
    }
}

/// The stop character is the first index whose character has no byte.
pub proof fn lemma_stop_char(map: Seq<Option<char>>, chars: Seq<char>, k: int)
    requires
        0 <= k <= chars.len(),
        forall|j: int| 0 <= j < k ==> reverse_lookup(map, #[trigger] chars[j]) is Some,
        k < chars.len() ==> reverse_lookup(map, chars[k]) is None,
    ensures
        stop_char(map, chars) == k,
{
    if k < chars.len() {
        assert(is_first_unencodable(map, chars, k));
        let q = choose|q: int| is_first_unencodable(map, chars, q);
        assert(is_first_unencodable(map, chars, q));
        if q < k {
            assert(reverse_lookup(map, chars[q]) is Some);
        } else if k < q {
            assert(reverse_lookup(map, chars[k]) is Some);
        }
    }
}

/// A converter between two encodings of which at least one is multibyte.
pub struct MultiByte {
    from: Encoding,
    to: Encoding,
}

impl MultiByte {
    /// The source encoding.
    pub closed spec fn source(&self) -> Encoding {
        self.from
    }

    /// The target encoding.
    pub closed spec fn target(&self) -> Encoding {
        self.to
    }

    /// A converter from `from` to `to`.
    pub fn new(from: Encoding, to: Encoding) -> (r: MultiByte)
        ensures
            r.source() == from,
            r.target() == to,
    {
        MultiByte { from, to }
    }

    fn unsupported(&self) -> (e: Error)
        ensures
            e@ == unsupported(self.source(), self.target()),
    {
        Error::UnsupportedConversion { from: self.from.name(), to: self.to.name() }
    }

    /// Converts single-byte text in the source encoding to UTF-8. The target
    /// must be UTF-8.
    pub fn to_utf8(&self, input: &[u8]) -> (r: Result<Vec<u8>, Error>)
        ensures
            outcome(r) == (if self.target() != Encoding::UTF8 {
                Err(unsupported(self.source(), self.target()))
            } else {
                to_utf8_spec(chars_for(self.source()), input@)
            }),
    {
        if !matches!(self.to, Encoding::UTF8) {
            return Err(self.unsupported());
        }
        let from_chars = get_encoding_chars(self.from);
        let ghost map = from_chars@;
        proof {
            crate::tables::lemma_chars_for(self.from);
        }
        let mut output: Vec<u8> = Vec::new();
        let mut pos: usize = 0;
        assert(translated(map, input@, 0) =~= Seq::<char>::empty());
        while pos < input.len()
            invariant
                pos <= input@.len(),
                self.target() == Encoding::UTF8,
                map == from_chars@,
                map == chars_for(self.source()),
                map.len() == 256,
                forall|j: int| 0 <= j < pos ==> map[(#[trigger] input@[j]) as int] is Some,
                output@ == encode_utf8(translated(map, input@, pos as int)),
            decreases input@.len() - pos,
        {
            let byte = input[pos];
            match from_chars.get(byte) {
                Some(ch) => {
                    push_utf8(&mut output, ch);
                    proof {
                        lemma_encode_utf8_push(translated(map, input@, pos as int), ch);
                        assert(translated(map, input@, pos + 1) =~= translated(
                            map,
                            input@,
                            pos as int,
                        ).push(ch));
                    }
                },
                None => {
                    proof {
                        lemma_stop_index(map, input@, pos as int);
                    }
                    return Err(Error::UnmappableSource { byte, position: pos });
                },
            }
            pos += 1;
        }
        proof {
            lemma_stop_index(map, input@, input@.len() as int);
        }
        Ok(output)
    }

    /// Converts UTF-8 text to the single-byte target encoding. The source must
    /// be UTF-8.
    pub fn from_utf8(&self, input: &[u8]) -> (r: Result<Vec<u8>, Error>)
        ensures
            outcome(r) == (if self.source() != Encoding::UTF8 {
                Err(unsupported(self.source(), self.target()))
            } else {
                from_utf8_spec(chars_for(self.target()), input@)
            }),
    {
        if !matches!(self.from, Encoding::UTF8) {
            return Err(self.unsupported());
        }
        let to_chars = get_encoding_chars(self.to);
        let char_to_byte = ReverseMap::new(&to_chars);
        let ghost map = to_chars@;
        if !is_valid_utf8(input) {
            return Err(Error::invalid_utf8());
        }
        let ghost chars = decode_utf8(input@);
        let ghost mut decoded = Seq::<char>::empty();
        let mut output: Vec<u8> = Vec::new();
        let mut pos: usize = 0;
        proof {
            assert(input@.subrange(0, input@.len() as int) =~= input@);
            assert(input@.subrange(0, 0) =~= Seq::<u8>::empty());
            assert(decoded + chars =~= chars);
        }
        while pos < input.len()
            invariant
                pos <= input@.len(),
                self.source() == Encoding::UTF8,
                map == char_to_byte@,
                map == chars_for(self.target()),
                valid_utf8(input@),
                chars == decode_utf8(input@),
                valid_utf8(input@.subrange(pos as int, input@.len() as int)),
                chars == decoded + decode_utf8(input@.subrange(pos as int, input@.len() as int)),
                encode_utf8(decoded) == input@.subrange(0, pos as int),
                forall|j: int|
                    0 <= j < decoded.len() ==> reverse_lookup(map, #[trigger] chars[j]) is Some,
                output@ == encoded(map, chars, decoded.len() as int),
            decreases input@.len() - pos,
        {
            let (ch, n) = next_char(input, pos);
            let ghost k = decoded.len() as int;
            assert(chars[k] == ch);
            match char_to_byte.get(ch) {
                Some(byte) => {
                    output.push(byte);
                },
                None => {
                    proof {
                        lemma_stop_char(map, chars, k);
                        assert(chars.take(k) =~= decoded);
                    }
                    return Err(Error::UnmappableTarget { character: ch, position: pos });
                },
            }
            proof {
                lemma_encode_utf8_push(decoded, ch);
                assert(input@.subrange(0, pos as int) + input@.subrange(pos as int, pos + n)
                    =~= input@.subrange(0, pos + n));
                decoded = decoded.push(ch);
                assert(chars =~= decoded + decode_utf8(
                    input@.subrange(pos + n, input@.len() as int),
                ));
                assert(output@ =~= encoded(map, chars, decoded.len() as int));
            }
            pos += n;
        }
        proof {
            assert(input@.subrange(pos as int, input@.len() as int) =~= Seq::<u8>::empty());
            assert(chars =~= decoded);
            lemma_stop_char(map, chars, chars.len() as int);
        }
        Ok(output)
    }

    /// Converts UTF-16 text in the byte order of the source to UTF-8. The
    /// source must be UTF-16.
    pub fn utf16_to_utf8(&self, input: &[u8]) -> (r: Result<Vec<u8>, Error>)
        ensures
            outcome(r) == (if !self.source().is_utf16() {
                Err(unsupported(self.source(), self.target()))
            } else {
                utf16_to_utf8_spec(self.source() == Encoding::UTF16BE, input@)
            }),
    {
        if !self.from.is_utf16() {
            return Err(self.unsupported());
        }
        if input.len() % 2 != 0 {
            return Err(Error::odd_utf16());
        }
        let big_endian = matches!(self.from, Encoding::UTF16BE);
        let count: usize = input.len() / 2;
        let ghost units = units_of(input@, big_endian);
        let ghost mut decoded = Seq::<char>::empty();
        let mut output: Vec<u8> = Vec::new();
        let mut index: usize = 0;
        proof {
            assert(units.skip(0) =~= units);
            if valid_utf16(units) {
                assert(decoded + decode_utf16(units) =~= decode_utf16(units));
            }
        }
        while index < count
            invariant
                index <= count,
                self.source().is_utf16(),
                big_endian == (self.source() == Encoding::UTF16BE),
                input@.len() % 2 == 0,
                count == units.len(),
                2 * count == input@.len(),
                units == units_of(input@, big_endian),
                valid_utf16(units) == valid_utf16(units.skip(index as int)),
                valid_utf16(units) ==> decode_utf16(units) == decoded + decode_utf16(
                    units.skip(index as int),
                ),
                output@ == encode_utf8(decoded),
            decreases count - index,
        {
            let ghost rest = units.skip(index as int);
            match first_unit(input, index, big_endian) {
                Some((ch, n)) => {
                    push_utf8(&mut output, ch);
                    proof {
                        lemma_encode_utf8_push(decoded, ch);
                        assert(rest.skip(n as int) =~= units.skip(index + n));
                        if valid_utf16(units) {
                            assert(decode_utf16(units) =~= decoded.push(ch) + decode_utf16(
                                units.skip(index + n),
                            ));
                        }
                        decoded = decoded.push(ch);
                    }
                    index += n;
                },
                None => {
                    assert(!valid_utf16(rest));
                    return Err(Error::invalid_utf16());
                },
            }
        }
        proof {
            assert(units.skip(index as int) =~= Seq::<u16>::empty());
            assert(decode_utf16(units) =~= decoded);
        }
        Ok(output)
    }

    /// Converts UTF-8 text to UTF-16 in the byte order of the target. The
    /// target must be UTF-16.
    pub fn utf8_to_utf16(&self, input: &[u8]) -> (r: Result<Vec<u8>, Error>)
        ensures
            outcome(r) == (if !self.target().is_utf16() {
                Err(unsupported(self.source(), self.target()))
            } else {
                utf8_to_utf16_spec(self.target() == Encoding::UTF16BE, input@)
            }),
    {
        if !self.to.is_utf16() {
            return Err(self.unsupported());
        }
        if !is_valid_utf8(input) {
            return Err(Error::invalid_utf8());
        }
        let big_endian = matches!(self.to, Encoding::UTF16BE);
        let ghost chars = decode_utf8(input@);
        let ghost mut decoded = Seq::<char>::empty();
        let mut output: Vec<u8> = Vec::new();
        let mut pos: usize = 0;
        proof {
            assert(input@.subrange(0, input@.len() as int) =~= input@);
            assert(decoded + chars =~= chars);
            assert(bytes_of(encode_utf16(decoded), big_endian) =~= Seq::<u8>::empty());
        }
        while pos < input.len()
            invariant
                pos <= input@.len(),
                valid_utf8(input@.subrange(pos as int, input@.len() as int)),
                chars == decoded + decode_utf8(input@.subrange(pos as int, input@.len() as int)),
                output@ == bytes_of(encode_utf16(decoded), big_endian),
            decreases input@.len() - pos,
        {
            let (ch, n) = next_char(input, pos);
            push_utf16(&mut output, ch, big_endian);
            proof {
                lemma_encode_utf16_push(decoded, ch);
                lemma_bytes_of_concat(
                    encode_utf16(decoded),
                    encode_utf16_scalar(ch as u32),
                    big_endian,
                );
                decoded = decoded.push(ch);
                assert(chars =~= decoded + decode_utf8(
                    input@.subrange(pos + n, input@.len() as int),
                ));
            }
            pos += n;
        }
        proof {
            assert(input@.subrange(pos as int, input@.len() as int) =~= Seq::<u8>::empty());
            assert(chars =~= decoded);
        }
        Ok(output)
    }

    /// Converts `input` from the source to the target encoding through UTF-8.
    pub fn convert(&self, input: &[u8]) -> (r: Result<Vec<u8>, Error>)
        ensures
            outcome(r) == convert_spec(self.source(), self.target(), input@),
    {
        let from = self.from;
        let to = self.to;
        if from.is_utf16() {
            if matches!(to, Encoding::UTF8) {
                self.utf16_to_utf8(input)
            } else if to.is_utf16() {
                if from == to {
                    let copy = copy_bytes(input);
                    Ok(copy)
                } else {
                    match MultiByte::new(from, Encoding::UTF8).utf16_to_utf8(input) {
                        Ok(text) => MultiByte::new(Encoding::UTF8, to).utf8_to_utf16(
                            text.as_slice(),
                        ),
                        Err(e) => Err(e),
                    }
                }
            } else {
                match self.utf16_to_utf8(input) {
                    Ok(text) => MultiByte::new(Encoding::UTF8, to).from_utf8(text.as_slice()),
                    Err(e) => Err(e),
                }
            }
        } else if to.is_utf16() {
            if matches!(from, Encoding::UTF8) {
                self.utf8_to_utf16(input)
            } else {
                match MultiByte::new(from, Encoding::UTF8).to_utf8(input) {
                    Ok(text) => self.utf8_to_utf16(text.as_slice()),
                    Err(e) => Err(e),
                }
            }
        } else if matches!(to, Encoding::UTF8) {
            self.to_utf8(input)
        } else if matches!(from, Encoding::UTF8) {
            self.from_utf8(input)
        } else {
            match MultiByte::new(from, Encoding::UTF8).to_utf8(input) {
                Ok(text) => MultiByte::new(Encoding::UTF8, to).from_utf8(text.as_slice()),
                Err(e) => Err(e),
            }
        }
    }
}

/// A copy of `input`.
pub fn copy_bytes(input: &[u8]) -> (copy: Vec<u8>)
    ensures
        copy@ == input@,
{
    let mut copy: Vec<u8> = Vec::with_capacity(input.len());
    let mut i: usize = 0;
    while i < input.len()
        invariant
            i <= input@.len(),
            copy@ == input@.take(i as int),
        decreases input@.len() - i,
    {
        copy.push(input[i]);
        assert(copy@ =~= input@.take(i + 1));
        i += 1;
    }
    assert(input@.take(input@.len() as int) =~= input@);
    copy
}

} // verus!
