//! UTF-8 on bytes: encoding one character, decoding one character, and
//! checking a whole buffer.

use vstd::prelude::*;
use vstd::utf8::*;

verus! {

/// The UTF-8 encoding of a sequence with one more character is the encoding of
/// the sequence followed by that of the character.
pub proof fn lemma_encode_utf8_push(chars: Seq<char>, c: char)
    ensures
        encode_utf8(chars.push(c)) == encode_utf8(chars) + encode_scalar(c as u32),
    decreases chars.len(),
{
    if chars.len() == 0 {
        assert(chars.push(c).drop_first() =~= Seq::<char>::empty());
        assert(encode_utf8(chars.push(c)) =~= encode_scalar(c as u32) + encode_utf8(
            Seq::<char>::empty(),
        ));
        assert(encode_utf8(chars) + encode_scalar(c as u32) =~= encode_scalar(c as u32));
    } else {
        let rest = chars.drop_first();
        assert(chars.push(c).drop_first() =~= rest.push(c));
        lemma_encode_utf8_push(rest, c);
        assert(encode_utf8(chars.push(c)) =~= encode_scalar(chars[0] as u32) + (encode_utf8(rest)
            + encode_scalar(c as u32)));
        assert(encode_utf8(chars) + encode_scalar(c as u32) =~= encode_scalar(chars[0] as u32) + (
        encode_utf8(rest) + encode_scalar(c as u32)));
    }
}

/// Appends the UTF-8 encoding of `c` to `out`.
pub fn push_utf8(out: &mut Vec<u8>, c: char)
    ensures
        final(out)@ == old(out)@ + encode_scalar(c as u32),
{
    let v: u32 = c as u32;
    proof {
        char_is_scalar(c);
    }
    if v <= 0x7F {
        let b0: u8 = (v & 0x7F) as u8;
        out.push(b0);
        assert(out@ =~= old(out)@ + encode_scalar(v));
    } else if v <= 0x7FF {
        assert(((v >> 6) & 0x1F) < 0x100 && (v & 0x3F) < 0x100) by (bit_vector);
        let b0: u8 = 0xC0u8 | (((v >> 6) & 0x1F) as u8);
        let b1: u8 = 0x80u8 | ((v & 0x3F) as u8);
        out.push(b0);
        out.push(b1);
        assert(out@ =~= old(out)@ + encode_scalar(v));
    } else if v <= 0xFFFF {
        assert(((v >> 12) & 0x0F) < 0x100 && ((v >> 6) & 0x3F) < 0x100 && (v & 0x3F) < 0x100)
            by (bit_vector);
        let b0: u8 = 0xE0u8 | (((v >> 12) & 0x0F) as u8);
        let b1: u8 = 0x80u8 | (((v >> 6) & 0x3F) as u8);
        let b2: u8 = 0x80u8 | ((v & 0x3F) as u8);
        out.push(b0);
        out.push(b1);
        out.push(b2);
        assert(out@ =~= old(out)@ + encode_scalar(v));
    } else {
        assert(((v >> 18) & 0x7) < 0x100 && ((v >> 12) & 0x3F) < 0x100 && ((v >> 6) & 0x3F)
            < 0x100 && (v & 0x3F) < 0x100) by (bit_vector);
        let b0: u8 = 0xF0u8 | (((v >> 18) & 0x7) as u8);
        let b1: u8 = 0x80u8 | (((v >> 12) & 0x3F) as u8);
        let b2: u8 = 0x80u8 | (((v >> 6) & 0x3F) as u8);
        let b3: u8 = 0x80u8 | ((v & 0x3F) as u8);
        out.push(b0);
        out.push(b1);
        out.push(b2);
        out.push(b3);
        assert(out@ =~= old(out)@ + encode_scalar(v));
    }
}

/// Whether `byte` has the form of a continuation byte, `10xxxxxx`.
pub fn is_continuation(byte: u8) -> (r: bool)
    ensures
        r == is_continuation_byte(byte),
{
    0x80 <= byte && byte <= 0xBF
}

/// Decodes the character that starts at `start`, and says how many bytes it
/// takes. `None` where no well-formed encoding of a scalar value starts there.
pub fn first_scalar(bytes: &[u8], start: usize) -> (r: Option<(char, usize)>)
    ensures
        start >= bytes@.len() ==> r is None,
        start < bytes@.len() ==> ({
            let rest = bytes@.subrange(start as int, bytes@.len() as int);
            match r {
                Some((c, n)) => {
                    &&& valid_first_scalar(rest)
                    &&& c == decode_first_scalar(rest) as char
                    &&& n == length_of_first_scalar(rest)
                    &&& start + n <= bytes@.len()
                },
                None => !valid_first_scalar(rest),
            }
        }),
{
    if start >= bytes.len() {
        return None;
    }
    let ghost rest = bytes@.subrange(start as int, bytes@.len() as int);
    let left: usize = bytes.len() - start;
    let b0: u8 = bytes[start];
    assert(rest[0] == b0);
    if b0 <= 0x7F {
        let v: u32 = (b0 & 0x7F) as u32;
        assert(v <= 0x7F) by (bit_vector)
            requires
                v == (b0 & 0x7F) as u32,
        ;
        match char::from_u32(v) {
            Some(c) => Some((c, 1)),
            None => None,
        }
    } else if 0xC0 <= b0 && b0 <= 0xDF {
        if left < 2 {
            return None;
        }
        let b1: u8 = bytes[start + 1];
        assert(rest[1] == b1);
        if !is_continuation(b1) {
            return None;
        }
        let v: u32 = (((b0 & 0x1F) as u32) << 6) | ((b1 & 0x3F) as u32);
        assert(v <= 0x7FF) by (bit_vector)
            requires
                v == (((b0 & 0x1F) as u32) << 6) | ((b1 & 0x3F) as u32),
        ;
        if v < 0x80 {
            return None;
        }
        match char::from_u32(v) {
            Some(c) => Some((c, 2)),
            None => None,
        }
    } else if 0xE0 <= b0 && b0 <= 0xEF {
        if left < 3 {
            return None;
        }
        let b1: u8 = bytes[start + 1];
        let b2: u8 = bytes[start + 2];
        assert(rest[1] == b1 && rest[2] == b2);
        if !is_continuation(b1) || !is_continuation(b2) {
            return None;
        }
        let v: u32 = (((b0 & 0x0F) as u32) << 12) | (((b1 & 0x3F) as u32) << 6) | ((b2
            & 0x3F) as u32);
        assert(v <= 0xFFFF) by (bit_vector)
            requires
                v == (((b0 & 0x0F) as u32) << 12) | (((b1 & 0x3F) as u32) << 6) | ((b2
                    & 0x3F) as u32),
        ;
        if v < 0x800 || (0xD800 <= v && v <= 0xDFFF) {
            return None;
        }
        match char::from_u32(v) {
            Some(c) => Some((c, 3)),
            None => None,
        }
    } else if 0xF0 <= b0 && b0 <= 0xF7 {
        if left < 4 {
            return None;
        }
        let b1: u8 = bytes[start + 1];
        let b2: u8 = bytes[start + 2];
        let b3: u8 = bytes[start + 3];
        assert(rest[1] == b1 && rest[2] == b2 && rest[3] == b3);
        if !is_continuation(b1) || !is_continuation(b2) || !is_continuation(b3) {
            return None;
        }
        let v: u32 = (((b0 & 0x07) as u32) << 18) | (((b1 & 0x3F) as u32) << 12) | (((b2
            & 0x3F) as u32) << 6) | ((b3 & 0x3F) as u32);
        if v < 0x10000 || v > 0x10FFFF {
            return None;
        }
        match char::from_u32(v) {
            Some(c) => Some((c, 4)),
            None => None,
        }
    } else {
        None
    }
}

/// Whether `bytes` is well-formed UTF-8 from its first byte to its last.
pub fn is_valid_utf8(bytes: &[u8]) -> (r: bool)
    ensures
        r == valid_utf8(bytes@),
{
    let mut i: usize = 0;
    assert(bytes@.subrange(0, 0) =~= Seq::<u8>::empty());
    while i < bytes.len()
        invariant
            i <= bytes@.len(),
            partial_valid_utf8(bytes@, i as int),
        decreases bytes@.len() - i,
    {
        match first_scalar(bytes, i) {
            Some((_, n)) => {
                proof {
                    partial_valid_utf8_extend(bytes@, i as int);
                }
                i += n;
            },
            None => {
                proof {
                    partial_valid_partial_invalid_utf8(bytes@, i as int);
                }
                return false;
            },
        }
    }
    assert(bytes@.subrange(0, bytes@.len() as int) =~= bytes@);
    true
}

/// A well-formed first scalar is encoded by exactly the bytes it was decoded
/// from.
pub proof fn lemma_first_scalar_round_trip(bytes: Seq<u8>)
    requires
        valid_first_scalar(bytes),
    ensures
        encode_scalar((decode_first_scalar(bytes) as char) as u32) == take_first_scalar(bytes),
        is_scalar(decode_first_scalar(bytes)),
{
    let first = take_first_scalar(bytes);
    assert(valid_first_scalar(first));
    assert(pop_first_scalar(first) =~= Seq::<u8>::empty());
    assert(valid_utf8(first)) by {
        reveal_with_fuel(valid_utf8, 2);
    }
    decode_utf8_first_scalar(first);
    assert(take_first_scalar(first) =~= first);
    assert(decode_first_scalar(first) == decode_first_scalar(bytes));
    char_is_scalar(decode_first_scalar(bytes) as char);
    encode_utf8_first_scalar(seq![decode_first_scalar(bytes) as char]);
}

/// Decodes the character that starts at `start` in text known to be
/// well-formed from there on, and says how many bytes it takes.
pub fn next_char(bytes: &[u8], start: usize) -> (r: (char, usize))
    requires
        start < bytes@.len(),
        valid_utf8(bytes@.subrange(start as int, bytes@.len() as int)),
    ensures
        1 <= r.1 <= 4,
        start + r.1 <= bytes@.len(),
        valid_utf8(bytes@.subrange(start + r.1, bytes@.len() as int)),
        decode_utf8(bytes@.subrange(start as int, bytes@.len() as int)) == seq![r.0] + decode_utf8(
            bytes@.subrange(start + r.1, bytes@.len() as int),
        ),
        encode_scalar(r.0 as u32) == bytes@.subrange(start as int, start + r.1),
{
    let ghost rest = bytes@.subrange(start as int, bytes@.len() as int);
    proof {
        lemma_first_scalar_round_trip(rest);
        assert(pop_first_scalar(rest) =~= bytes@.subrange(
            start + length_of_first_scalar(rest),
            bytes@.len() as int,
        ));
        assert(take_first_scalar(rest) =~= bytes@.subrange(
            start as int,
            start + length_of_first_scalar(rest),
        ));
    }
    match first_scalar(bytes, start) {
        Some((c, n)) => (c, n),
        None => {
            proof {
                assert(false);
            }
            vstd::pervasive::unreached()
        },
    }
}

} // verus!
