//! Byte-to-byte translation between two single-byte encodings through a table
//! that is computed once.

use crate::charmap::{reverse_lookup, CharacterMap, ReverseMap};
use crate::encoding::Encoding;
use crate::error::{status, Error, ErrorView};
use crate::tables::{chars_for, get_encoding_chars};
use vstd::prelude::*;

verus! {

/// The number of bytes that the bulk path handles in one step.
pub const CHUNK_SIZE: usize = 32;

/// The byte of the target map that stands for what `byte` means under the
/// source map; `None` where the source assigns no character to `byte`, or the
/// target has no byte for that character.
pub open spec fn table_entry(from: Seq<Option<char>>, to: Seq<Option<char>>, byte: u8) -> Option<
    u8,
> {
    match from[byte as int] {
        Some(c) => reverse_lookup(to, c),
        None => None,
    }
}

/// The table from one character map to another, one entry for each byte.
pub open spec fn table_of(from: Seq<Option<char>>, to: Seq<Option<char>>) -> Seq<Option<u8>> {
    Seq::new(256, |b: int| table_entry(from, to, b as u8))
}

/// Whether the table has an entry for every byte of `input`.
pub open spec fn all_mappable<T>(table: Seq<Option<T>>, input: Seq<u8>) -> bool {
    forall|i: int| 0 <= i < input.len() ==> table[(#[trigger] input[i]) as int] is Some
}

/// Whether `p` is the index of the first byte of `input` for which the table
/// has no entry.
pub open spec fn is_first_unmappable<T>(table: Seq<Option<T>>, input: Seq<u8>, p: int) -> bool {
    &&& 0 <= p < input.len()
    &&& table[input[p] as int] is None
    &&& forall|j: int| 0 <= j < p ==> table[(#[trigger] input[j]) as int] is Some
}

/// The index at which a walk through `input` stops: that of the first byte
/// without an entry, or the length of the input where there is none.
pub open spec fn stop_index<T>(table: Seq<Option<T>>, input: Seq<u8>) -> int {
    if all_mappable(table, input) {
        input.len() as int
    } else {
        choose|p: int| is_first_unmappable(table, input, p)
    }
}

/// The first `count` bytes of `input`, each replaced by its entry.
pub open spec fn translated<T>(table: Seq<Option<T>>, input: Seq<u8>, count: int) -> Seq<T> {
    Seq::new(count as nat, |i: int| table[input[i] as int]->0)
}

/// What translating `input` gives: every byte replaced by its target byte, or
/// the first byte that has none, with its index.
pub open spec fn translate_spec(table: Seq<Option<u8>>, input: Seq<u8>) -> Result<
    Seq<u8>,
    ErrorView,
> {
    let stop = stop_index(table, input);
    if stop == input.len() {
        Ok(translated(table, input, stop))
    } else {
        Err(ErrorView::UnmappableSource { byte: input[stop], position: stop })
    }
}

/// What translating a buffer in place leaves in it: the bytes before the stop
/// index replaced, the others as they were.
pub open spec fn in_place_spec(table: Seq<Option<u8>>, input: Seq<u8>) -> Seq<u8> {
    let stop = stop_index(table, input);
    Seq::new(
        input.len(),
        |i: int|
            if i < stop {
                table[input[i] as int]->0
            } else {
                input[i]
            },
    )
}

/// What lossy translation gives: every byte replaced by its target byte, or by
/// `replacement` where it has none.
pub open spec fn lossy_spec(table: Seq<Option<u8>>, input: Seq<u8>, replacement: u8) -> Seq<u8> {
    Seq::new(
        input.len(),
        |i: int|
            match table[input[i] as int] {
                Some(b) => b,
                None => replacement,
            },
    )
}

/// The stop index is the first index whose byte has no entry.
pub proof fn lemma_stop_index<T>(table: Seq<Option<T>>, input: Seq<u8>, p: int)
    requires
        0 <= p <= input.len(),
        forall|j: int| 0 <= j < p ==> table[(#[trigger] input[j]) as int] is Some,
        p < input.len() ==> table[input[p] as int] is None,
    ensures
        stop_index(table, input) == p,
{
    if p < input.len() {
        assert(is_first_unmappable(table, input, p));
        let q = choose|q: int| is_first_unmappable(table, input, q);
        assert(is_first_unmappable(table, input, q));
        if q < p {
            assert(table[input[q] as int] is Some);
        } else if p < q {
            assert(table[input[p] as int] is Some);
        }
    }
}

/// The stop index lies within the input, every byte before it has an entry,
/// and the byte at it, if there is one, has none.
pub proof fn lemma_stop_index_in_range<T>(table: Seq<Option<T>>, input: Seq<u8>)
    ensures
        0 <= stop_index(table, input) <= input.len(),
        forall|j: int|
            0 <= j < stop_index(table, input) ==> table[(#[trigger] input[j]) as int] is Some,
        stop_index(table, input) < input.len() ==> table[input[stop_index(
            table,
            input,
        )] as int] is None,
{
    if !all_mappable(table, input) {
        let i = choose|i: int| 0 <= i < input.len() && !(table[(#[trigger] input[i]) as int] is Some);
        lemma_some_first_unmappable(table, input, i);
    }
}

/// Where some byte has no entry, there is a first such byte.
proof fn lemma_some_first_unmappable<T>(table: Seq<Option<T>>, input: Seq<u8>, i: int)
    requires
        0 <= i < input.len(),
        table[input[i] as int] is None,
    ensures
        exists|p: int| is_first_unmappable(table, input, p),
    decreases i,
{
    if forall|j: int| 0 <= j < i ==> table[(#[trigger] input[j]) as int] is Some {
        assert(is_first_unmappable(table, input, i));
    } else {
        let j = choose|j: int| 0 <= j < i && !(table[(#[trigger] input[j]) as int] is Some);
        lemma_some_first_unmappable(table, input, j);
    }
}

/// Whether the bit of `byte` is set in the 256-bit mask.
pub open spec fn bit_set(mask: Seq<u64>, byte: int) -> bool {
    mask[byte / 64] & (1u64 << ((byte % 64) as u64)) != 0
}

proof fn lemma_set_bit(word: u64, k: u64, j: u64)
    by (bit_vector)
    requires
        k < 64,
        j < 64,
    ensures
        ((word | (1u64 << k)) & (1u64 << j) != 0) <==> (j == k || word & (1u64 << j) != 0),
{
}

proof fn lemma_zero_bit(j: u64)
    by (bit_vector)
    requires
        j < 64,
    ensures
        0u64 & (1u64 << j) == 0,
{
}

/// A word in which none of the 64 bits is set is zero.
proof fn lemma_no_bit(word: u64)
    by (bit_vector)
    requires
        word & (1u64 << 0) == 0,
        word & (1u64 << 1) == 0,
        word & (1u64 << 2) == 0,
        word & (1u64 << 3) == 0,
        word & (1u64 << 4) == 0,
        word & (1u64 << 5) == 0,
        word & (1u64 << 6) == 0,
        word & (1u64 << 7) == 0,
        word & (1u64 << 8) == 0,
        word & (1u64 << 9) == 0,
        word & (1u64 << 10) == 0,
        word & (1u64 << 11) == 0,
        word & (1u64 << 12) == 0,
        word & (1u64 << 13) == 0,
        word & (1u64 << 14) == 0,
        word & (1u64 << 15) == 0,
        word & (1u64 << 16) == 0,
        word & (1u64 << 17) == 0,
        word & (1u64 << 18) == 0,
        word & (1u64 << 19) == 0,
        word & (1u64 << 20) == 0,
        word & (1u64 << 21) == 0,
        word & (1u64 << 22) == 0,
        word & (1u64 << 23) == 0,
        word & (1u64 << 24) == 0,
        word & (1u64 << 25) == 0,
        word & (1u64 << 26) == 0,
        word & (1u64 << 27) == 0,
        word & (1u64 << 28) == 0,
        word & (1u64 << 29) == 0,
        word & (1u64 << 30) == 0,
        word & (1u64 << 31) == 0,
        word & (1u64 << 32) == 0,
        word & (1u64 << 33) == 0,
        word & (1u64 << 34) == 0,
        word & (1u64 << 35) == 0,
        word & (1u64 << 36) == 0,
        word & (1u64 << 37) == 0,
        word & (1u64 << 38) == 0,
        word & (1u64 << 39) == 0,
        word & (1u64 << 40) == 0,
        word & (1u64 << 41) == 0,
        word & (1u64 << 42) == 0,
        word & (1u64 << 43) == 0,
        word & (1u64 << 44) == 0,
        word & (1u64 << 45) == 0,
        word & (1u64 << 46) == 0,
        word & (1u64 << 47) == 0,
        word & (1u64 << 48) == 0,
        word & (1u64 << 49) == 0,
        word & (1u64 << 50) == 0,
        word & (1u64 << 51) == 0,
        word & (1u64 << 52) == 0,
        word & (1u64 << 53) == 0,
        word & (1u64 << 54) == 0,
        word & (1u64 << 55) == 0,
        word & (1u64 << 56) == 0,
        word & (1u64 << 57) == 0,
        word & (1u64 << 58) == 0,
        word & (1u64 << 59) == 0,
        word & (1u64 << 60) == 0,
        word & (1u64 << 61) == 0,
        word & (1u64 << 62) == 0,
        word & (1u64 << 63) == 0,
    ensures
        word == 0,
{
}

/// A translation table between two single-byte encodings: for each source byte
/// the target byte, and a 256-bit mask of the source bytes that have none.
///
/// The mask alone decides whether a byte can be translated. The stored byte
/// says nothing about that: 0xFF is a target byte like any other.
#[derive(Debug)]
pub struct TranslationTable {
    table: [u8; 256],
    unmappable_mask: [u64; 4],
}

impl View for TranslationTable {
    type V = Seq<Option<u8>>;

    /// For each of the 256 source bytes its target byte, if it has one.
    closed spec fn view(&self) -> Seq<Option<u8>> {
        Seq::new(
            256,
            |b: int|
                if bit_set(self.unmappable_mask@, b) {
                    None
                } else {
                    Some(self.table@[b])
                },
        )
    }
}

/// The byte that a table stores for a source byte without a target byte.
pub const UNMAPPABLE_MARKER: u8 = 0xFF;

/// What a table stores for a source byte: its target byte, or the marker
/// where it has none.
pub open spec fn stored(table: Seq<Option<u8>>, byte: u8) -> u8 {
    match table[byte as int] {
        Some(target) => target,
        None => UNMAPPABLE_MARKER,
    }
}

impl Clone for TranslationTable {
    fn clone(&self) -> (copy: TranslationTable)
        ensures
            copy@ == self@,
    {
        proof {
            use_type_invariant(self);
        }
        TranslationTable { table: self.table, unmappable_mask: self.unmappable_mask }
    }
}

impl TranslationTable {
    /// A byte without a target byte has the marker stored in its place.
    #[verifier::type_invariant]
    spec fn well_formed(self) -> bool {
        forall|b: int|
            0 <= b < 256 && bit_set(self.unmappable_mask@, b) ==> self.table@[b]
                == UNMAPPABLE_MARKER
    }

    /// The mask of the source bytes without a target byte, four words of 64
    /// bits, the bit of byte 0 lowest in the first word.
    pub closed spec fn mask(&self) -> Seq<u64> {
        self.unmappable_mask@
    }

    /// The view has one entry for each byte, and an entry is `None` exactly
    /// where the byte's bit is set in the mask.
    pub proof fn lemma_view(&self)
        ensures
            self@.len() == 256,
            self.mask().len() == 4,
            forall|b: int| 0 <= b < 256 ==> (#[trigger] self@[b] is None) == bit_set(self.mask(), b),
    {
    }

    /// The bit of a byte that has a target byte is not set in its word.
    proof fn lemma_clear_bit(&self, word: int, bit: u64)
        requires
            0 <= word < 4,
            bit < 64,
            self@[word * 64 + bit] is Some,
        ensures
            self.unmappable_mask@[word] & (1u64 << bit) == 0,
    {
        let b = word * 64 + bit;
        assert(b / 64 == word && b % 64 == bit);
        assert(!bit_set(self.unmappable_mask@, b));
    }

    /// Where every byte has a target byte, the mask is zero throughout.
    pub proof fn lemma_mask_zero(&self)
        requires
            forall|b: int| 0 <= b < 256 ==> (#[trigger] self@[b]) is Some,
        ensures
            self.mask() == seq![0u64, 0u64, 0u64, 0u64],
    {
        let mask = self.unmappable_mask@;
        assert forall|w: int| 0 <= w < 4 implies mask[w] == 0 by {
            self.lemma_clear_bit(w, 0);
            self.lemma_clear_bit(w, 1);
            self.lemma_clear_bit(w, 2);
            self.lemma_clear_bit(w, 3);
            self.lemma_clear_bit(w, 4);
            self.lemma_clear_bit(w, 5);
            self.lemma_clear_bit(w, 6);
            self.lemma_clear_bit(w, 7);
            self.lemma_clear_bit(w, 8);
            self.lemma_clear_bit(w, 9);
            self.lemma_clear_bit(w, 10);
            self.lemma_clear_bit(w, 11);
            self.lemma_clear_bit(w, 12);
            self.lemma_clear_bit(w, 13);
            self.lemma_clear_bit(w, 14);
            self.lemma_clear_bit(w, 15);
            self.lemma_clear_bit(w, 16);
            self.lemma_clear_bit(w, 17);
            self.lemma_clear_bit(w, 18);
            self.lemma_clear_bit(w, 19);
            self.lemma_clear_bit(w, 20);
            self.lemma_clear_bit(w, 21);
            self.lemma_clear_bit(w, 22);
            self.lemma_clear_bit(w, 23);
            self.lemma_clear_bit(w, 24);
            self.lemma_clear_bit(w, 25);
            self.lemma_clear_bit(w, 26);
            self.lemma_clear_bit(w, 27);
            self.lemma_clear_bit(w, 28);
            self.lemma_clear_bit(w, 29);
            self.lemma_clear_bit(w, 30);
            self.lemma_clear_bit(w, 31);
            self.lemma_clear_bit(w, 32);
            self.lemma_clear_bit(w, 33);
            self.lemma_clear_bit(w, 34);
            self.lemma_clear_bit(w, 35);
            self.lemma_clear_bit(w, 36);
            self.lemma_clear_bit(w, 37);
            self.lemma_clear_bit(w, 38);
            self.lemma_clear_bit(w, 39);
            self.lemma_clear_bit(w, 40);
            self.lemma_clear_bit(w, 41);
            self.lemma_clear_bit(w, 42);
            self.lemma_clear_bit(w, 43);
            self.lemma_clear_bit(w, 44);
            self.lemma_clear_bit(w, 45);
            self.lemma_clear_bit(w, 46);
            self.lemma_clear_bit(w, 47);
            self.lemma_clear_bit(w, 48);
            self.lemma_clear_bit(w, 49);
            self.lemma_clear_bit(w, 50);
            self.lemma_clear_bit(w, 51);
            self.lemma_clear_bit(w, 52);
            self.lemma_clear_bit(w, 53);
            self.lemma_clear_bit(w, 54);
            self.lemma_clear_bit(w, 55);
            self.lemma_clear_bit(w, 56);
            self.lemma_clear_bit(w, 57);
            self.lemma_clear_bit(w, 58);
            self.lemma_clear_bit(w, 59);
            self.lemma_clear_bit(w, 60);
            self.lemma_clear_bit(w, 61);
            self.lemma_clear_bit(w, 62);
            self.lemma_clear_bit(w, 63);
            lemma_no_bit(mask[w]);
        }
        assert(mask =~= seq![0u64, 0u64, 0u64, 0u64]);
    }

    /// Builds the table from `from` to `to`. Fails where either of them is a
    /// multibyte encoding.
    pub fn new(from: Encoding, to: Encoding) -> (r: Result<TranslationTable, Error>)
        ensures
            match r {
                Ok(t) => {
                    &&& !from.is_multibyte()
                    &&& !to.is_multibyte()
                    &&& t@ == table_of(chars_for(from), chars_for(to))
                },
                Err(e) => {
                    &&& from.is_multibyte() || to.is_multibyte()
                    &&& e@ == ErrorView::UnsupportedConversion {
                        from: from.spec_name(),
                        to: to.spec_name(),
                    }
                },
            },
    {
        if from.is_multibyte() || to.is_multibyte() {
            return Err(Error::UnsupportedConversion { from: from.name(), to: to.name() });
        }
        let from_chars = get_encoding_chars(from);
        let to_chars = get_encoding_chars(to);
        Ok(TranslationTable::from_maps(&from_chars, &to_chars))
    }

    /// Builds the table from one character map to another.
    pub fn from_maps(from: &CharacterMap, to: &CharacterMap) -> (t: TranslationTable)
        ensures
            t@ == table_of(from@, to@),
    {
        let lookup = ReverseMap::new(to);
        let mut table: [u8; 256] = [UNMAPPABLE_MARKER; 256];
        let mut unmappable_mask: [u64; 4] = [0u64; 4];
        let mut src: usize = 0;
        proof {
            assert forall|b: int| 0 <= b < 256 implies !bit_set(unmappable_mask@, b) by {
                lemma_zero_bit((b % 64) as u64);
            }
        }
        while src < 256
            invariant
                src <= 256,
                lookup@ == to@,
                forall|b: int| src <= b < 256 ==> !bit_set(unmappable_mask@, b),
                forall|b: int| src <= b < 256 ==> table@[b] == UNMAPPABLE_MARKER,
                forall|b: int|
                    0 <= b < src && bit_set(unmappable_mask@, b) ==> table@[b]
                        == UNMAPPABLE_MARKER,
                forall|b: int|
                    0 <= b < src ==> (if bit_set(unmappable_mask@, b) {
                        None
                    } else {
                        Some(table@[b])
                    }) == table_entry(from@, to@, b as u8),
            decreases 256 - src,
        {
            let byte = src as u8;
            let target = match from.get(byte) {
                Some(c) => lookup.get(c),
                None => None,
            };
            assert(target == table_entry(from@, to@, byte));
            let ghost old_mask = unmappable_mask@;
            let ghost old_table = table@;
            match target {
                Some(b) => {
                    table[src] = b;
                    assert(table@ == old_table.update(src as int, b));
                },
                None => {
                    let word_idx: usize = src / 64;
                    let bit_idx: usize = src % 64;
                    let word: u64 = unmappable_mask[word_idx];
                    unmappable_mask[word_idx] = word | (1u64 << (bit_idx as u64));
                    proof {
                        assert forall|b: int| 0 <= b < 256 implies bit_set(unmappable_mask@, b) == (
                        b == src || bit_set(old_mask, b)) by {
                            if b / 64 == word_idx as int {
                                lemma_set_bit(word, bit_idx as u64, (b % 64) as u64);
                            }
                        }
                    }
                },
            }
            proof {
                assert forall|b: int| src + 1 <= b < 256 implies !bit_set(unmappable_mask@, b) by {
                    assert(!bit_set(old_mask, b));
                }
                assert forall|b: int| 0 <= b < src + 1 implies (if bit_set(unmappable_mask@, b) {
                    None
                } else {
                    Some(table@[b])
                }) == table_entry(from@, to@, b as u8) by {
                    if b < src {
                        assert((if bit_set(old_mask, b) {
                            None
                        } else {
                            Some(old_table[b])
                        }) == table_entry(from@, to@, b as u8));
                    } else {
                        assert(!bit_set(old_mask, b));
                    }
                }
            }
            src += 1;
        }
        let t = TranslationTable { table, unmappable_mask };
        assert(t@ =~= table_of(from@, to@));
        t
    }

    /// Whether the table has a target byte for `byte`. Only the mask is asked.
    pub fn is_mappable(&self, byte: u8) -> (r: bool)
        ensures
            r == (self@[byte as int] is Some),
    {
        let word_idx: usize = (byte as usize) / 64;
        let bit_idx: usize = (byte as usize) % 64;
        (self.unmappable_mask[word_idx] & (1u64 << (bit_idx as u64))) == 0
    }

    /// The target byte of `byte`, if it has one.
    pub fn translate_byte(&self, byte: u8) -> (r: Option<u8>)
        ensures
            r == self@[byte as int],
    {
        if self.is_mappable(byte) {
            Some(self.table[byte as usize])
        } else {
            None
        }
    }

    /// The stored byte for `byte`: its target byte where it has one, and the
    /// marker 0xFF where it has none. The mask is not asked, so the result
    /// alone does not tell the two apart.
    pub fn translate_byte_unchecked(&self, byte: u8) -> (r: u8)
        ensures
            r == stored(self@, byte),
    {
        proof {
            use_type_invariant(self);
        }
        self.table[byte as usize]
    }

    /// Translates `input`, or fails at the first byte without a target byte.
    pub fn translate(&self, input: &[u8]) -> (r: Result<Vec<u8>, Error>)
        ensures
            crate::error::outcome(r) == translate_spec(self@, input@),
    {
        let mut output: Vec<u8> = Vec::with_capacity(input.len());
        let res = if input.len() >= CHUNK_SIZE {
            self.translate_simd(input, &mut output)
        } else {
            self.translate_scalar(input, &mut output)
        };
        proof {
            lemma_stop_index_in_range(self@, input@);
        }
        match res {
            Ok(()) => {
                assert(output@ =~= translated(self@, input@, input@.len() as int));
                Ok(output)
            },
            Err(e) => Err(e),
        }
    }

    /// Translates `buffer` in place, from left to right. On failure the bytes
    /// before the failing one have been replaced already.
    pub fn translate_in_place(&self, buffer: &mut [u8]) -> (r: Result<(), Error>)
        ensures
            final(buffer)@ == in_place_spec(self@, old(buffer)@),
            status(r) == (match translate_spec(self@, old(buffer)@) {
                Ok(_) => Ok(()),
                Err(e) => Err(e),
            }),
    {
        if buffer.len() >= CHUNK_SIZE {
            self.translate_in_place_simd(buffer)
        } else {
            self.translate_in_place_scalar(buffer)
        }
    }

    /// Translates `input` with `replacement` for each byte without a target
    /// byte.
    pub fn translate_lossy(&self, input: &[u8], replacement: u8) -> (output: Vec<u8>)
        ensures
            output@ == lossy_spec(self@, input@, replacement),
    {
        let mut output: Vec<u8> = Vec::with_capacity(input.len());
        let mut i: usize = 0;
        while i < input.len()
            invariant
                i <= input@.len(),
                output@.len() == i,
                forall|j: int| 0 <= j < i ==> output@[j] == lossy_spec(self@, input@, replacement)[j],
            decreases input@.len() - i,
        {
            let byte = input[i];
            if self.is_mappable(byte) {
                output.push(self.translate_byte_unchecked(byte));
            } else {
                output.push(replacement);
            }
            i += 1;
        }
        assert(output@ =~= lossy_spec(self@, input@, replacement));
        output
    }

    /// Translates `input` byte by byte and appends the result to `output`,
    /// up to the first byte without a target byte.
    pub fn translate_scalar(&self, input: &[u8], output: &mut Vec<u8>) -> (r: Result<(), Error>)
        ensures
            final(output)@ == old(output)@ + translated(
                self@,
                input@,
                stop_index(self@, input@),
            ),
            status(r) == (match translate_spec(self@, input@) {
                Ok(_) => Ok(()),
                Err(e) => Err(e),
            }),
    {
        self.translate_tail(input, 0, output)
    }

    /// Translates `input` from index `start` on, all bytes before `start`
    /// having a target byte.
    fn translate_tail(&self, input: &[u8], start: usize, output: &mut Vec<u8>) -> (r: Result<
        (),
        Error,
    >)
        requires
            start <= input@.len(),
            forall|j: int| 0 <= j < start ==> self@[(#[trigger] input@[j]) as int] is Some,
        ensures
            stop_index(self@, input@) >= start,
            final(output)@ == old(output)@ + translated(
                self@,
                input@,
                stop_index(self@, input@),
            ).skip(start as int),
            status(r) == (match translate_spec(self@, input@) {
                Ok(_) => Ok(()),
                Err(e) => Err(e),
            }),
    {
        let mut pos: usize = start;
        while pos < input.len()
            invariant
                start <= pos <= input@.len(),
                forall|j: int| 0 <= j < pos ==> self@[(#[trigger] input@[j]) as int] is Some,
                output@ == old(output)@ + translated(self@, input@, pos as int).skip(
                    start as int,
                ),
            decreases input@.len() - pos,
        {
            let byte = input[pos];
            if !self.is_mappable(byte) {
                proof {
                    lemma_stop_index(self@, input@, pos as int);
                }
                return Err(Error::UnmappableSource { byte, position: pos });
            }
            output.push(self.translate_byte_unchecked(byte));
            assert(output@ =~= old(output)@ + translated(self@, input@, pos + 1).skip(
                start as int,
            ));
            pos += 1;
        }
        proof {
            lemma_stop_index(self@, input@, input@.len() as int);
        }
        Ok(())
    }

    /// Translates `buffer` in place byte by byte, up to the first byte without
    /// a target byte.
    pub fn translate_in_place_scalar(&self, buffer: &mut [u8]) -> (r: Result<(), Error>)
        ensures
            final(buffer)@ == in_place_spec(self@, old(buffer)@),
            status(r) == (match translate_spec(self@, old(buffer)@) {
                Ok(_) => Ok(()),
                Err(e) => Err(e),
            }),
    {
        self.translate_in_place_tail(buffer, 0, Ghost(buffer@))
    }

    /// Translates `buffer` in place from index `start` on. `initial` is what
    /// the buffer held before anything was replaced; the bytes before `start`
    /// have been replaced already.
    fn translate_in_place_tail(
        &self,
        buffer: &mut [u8],
        start: usize,
        Ghost(initial): Ghost<Seq<u8>>,
    ) -> (r: Result<(), Error>)
        requires
            start <= old(buffer)@.len(),
            initial.len() == old(buffer)@.len(),
            forall|j: int| 0 <= j < start ==> self@[(#[trigger] initial[j]) as int] is Some,
            forall|j: int|
                0 <= j < start ==> old(buffer)@[j] == self@[initial[j] as int]->0,
            forall|j: int| start <= j < initial.len() ==> old(buffer)@[j] == initial[j],
        ensures
            final(buffer)@ == in_place_spec(self@, initial),
            status(r) == (match translate_spec(self@, initial) {
                Ok(_) => Ok(()),
                Err(e) => Err(e),
            }),
    {
        let mut pos: usize = start;
        let len: usize = buffer.len();
        while pos < len
            invariant
                start <= pos <= len,
                len == initial.len(),
                buffer@.len() == len,
                forall|j: int| 0 <= j < pos ==> self@[(#[trigger] initial[j]) as int] is Some,
                forall|j: int| 0 <= j < pos ==> buffer@[j] == self@[initial[j] as int]->0,
                forall|j: int| pos <= j < len ==> buffer@[j] == initial[j],
            decreases len - pos,
        {
            let byte = buffer[pos];
            if !self.is_mappable(byte) {
                proof {
                    lemma_stop_index(self@, initial, pos as int);
                    assert(buffer@ =~= in_place_spec(self@, initial));
                }
                return Err(Error::UnmappableSource { byte, position: pos });
            }
            buffer[pos] = self.translate_byte_unchecked(byte);
            pos += 1;
        }
        proof {
            lemma_stop_index(self@, initial, len as int);
            assert(buffer@ =~= in_place_spec(self@, initial));
        }
        Ok(())
    }

    /// Whether any byte of the chunk has no target byte.
    pub fn has_unmappable_simd(&self, chunk: &[u8; 32]) -> (r: bool)
        ensures
            r == !all_mappable(self@, chunk@),
    {
        let mut i: usize = 0;
        while i < CHUNK_SIZE
            invariant
                i <= CHUNK_SIZE,
                forall|j: int| 0 <= j < i ==> self@[(#[trigger] chunk@[j]) as int] is Some,
            decreases CHUNK_SIZE - i,
        {
            if !self.is_mappable(chunk[i]) {
                return true;
            }
            i += 1;
        }
        false
    }

    /// Translates a chunk byte by byte without asking the mask: each byte is
    /// replaced by what the table stores for it.
    pub fn translate_chunk_simd(&self, chunk: &[u8; 32]) -> (r: [u8; 32])
        ensures
            r@ == Seq::new(32, |j: int| stored(self@, chunk@[j])),
            all_mappable(self@, chunk@) ==> r@ == translated(self@, chunk@, 32),
    {
        let mut result: [u8; 32] = [0u8; 32];
        let mut i: usize = 0;
        while i < CHUNK_SIZE
            invariant
                i <= CHUNK_SIZE,
                forall|j: int| 0 <= j < i ==> result@[j] == stored(self@, chunk@[j]),
            decreases CHUNK_SIZE - i,
        {
            result[i] = self.translate_byte_unchecked(chunk[i]);
            i += 1;
        }
        assert(result@ =~= Seq::new(32, |j: int| stored(self@, chunk@[j])));
        proof {
            if all_mappable(self@, chunk@) {
                assert(result@ =~= translated(self@, chunk@, 32));
            }
        }
        result
    }

    /// Translates `input` in chunks of 32 bytes, the rest byte by byte, and
    /// appends the result to `output`. It gives what `translate_scalar` gives.
    pub fn translate_simd(&self, input: &[u8], output: &mut Vec<u8>) -> (r: Result<(), Error>)
        ensures
            final(output)@ == old(output)@ + translated(
                self@,
                input@,
                stop_index(self@, input@),
            ),
            status(r) == (match translate_spec(self@, input@) {
                Ok(_) => Ok(()),
                Err(e) => Err(e),
            }),
    {
        let len: usize = input.len();
        let whole: usize = len - len % CHUNK_SIZE;
        let mut pos: usize = 0;
        while pos < whole
            invariant
                pos <= whole <= len,
                len == input@.len(),
                pos % 32 == 0,
                whole % 32 == 0,
                forall|j: int| 0 <= j < pos ==> self@[(#[trigger] input@[j]) as int] is Some,
                output@ == old(output)@ + translated(self@, input@, pos as int),
            decreases whole - pos,
        {
            let chunk = load_chunk(input, pos);
            if self.has_unmappable_simd(&chunk) {
                break;
            }
            let done = self.translate_chunk_simd(&chunk);
            let ghost before = output@;
            append_chunk(output, &done);
            proof {
                assert forall|j: int| 0 <= j < pos + 32 implies self@[(#[trigger] input@[j]) as int] is Some by {
                    if j >= pos {
                        assert(chunk@[j - pos] == input@[j]);
                    }
                }
                assert(output@ =~= old(output)@ + translated(self@, input@, pos + 32));
            }
            pos += CHUNK_SIZE;
        }
        let ghost mid = output@;
        let r = self.translate_tail(input, pos, output);
        proof {
            assert(output@ =~= old(output)@ + translated(
                self@,
                input@,
                stop_index(self@, input@),
            ));
        }
        r
    }

    /// Translates `buffer` in place in chunks of 32 bytes, the rest byte by
    /// byte. It leaves what `translate_in_place_scalar` leaves.
    pub fn translate_in_place_simd(&self, buffer: &mut [u8]) -> (r: Result<(), Error>)
        ensures
            final(buffer)@ == in_place_spec(self@, old(buffer)@),
            status(r) == (match translate_spec(self@, old(buffer)@) {
                Ok(_) => Ok(()),
                Err(e) => Err(e),
            }),
    {
        let ghost initial = buffer@;
        let len: usize = buffer.len();
        let whole: usize = len - len % CHUNK_SIZE;
        let mut pos: usize = 0;
        while pos < whole
            invariant
                pos <= whole <= len,
                len == initial.len(),
                buffer@.len() == len,
                pos % 32 == 0,
                whole % 32 == 0,
                forall|j: int| 0 <= j < pos ==> self@[(#[trigger] initial[j]) as int] is Some,
                forall|j: int| 0 <= j < pos ==> buffer@[j] == self@[initial[j] as int]->0,
                forall|j: int| pos <= j < len ==> buffer@[j] == initial[j],
            decreases whole - pos,
        {
            let chunk = load_chunk(buffer, pos);
            if self.has_unmappable_simd(&chunk) {
                break;
            }
            let done = self.translate_chunk_simd(&chunk);
            store_chunk(buffer, pos, &done);
            proof {
                assert forall|j: int| 0 <= j < pos + 32 implies self@[(#[trigger] initial[j]) as int] is Some by {
                    if j >= pos {
                        assert(chunk@[j - pos] == initial[j]);
                    }
                }
                assert forall|j: int| 0 <= j < pos + 32 implies buffer@[j] == self@[initial[j] as int]->0 by {
                    if j >= pos {
                        assert(chunk@[j - pos] == initial[j]);
                        assert(buffer@[j] == done@[j - pos]);
                    }
                }
            }
            pos += CHUNK_SIZE;
        }
        self.translate_in_place_tail(buffer, pos, Ghost(initial))
    }
}

/// Copies the 32 bytes of `input` that start at `start`.
fn load_chunk(input: &[u8], start: usize) -> (chunk: [u8; 32])
    requires
        start + 32 <= input@.len(),
    ensures
        chunk@ == input@.subrange(start as int, start + 32),
{
    let mut chunk: [u8; 32] = [0u8; 32];
    let len: usize = input.len();
    let mut i: usize = 0;
    while i < CHUNK_SIZE
        invariant
            i <= CHUNK_SIZE,
            start + 32 <= input@.len() == len,
            forall|j: int| 0 <= j < i ==> chunk@[j] == input@[start + j],
        decreases CHUNK_SIZE - i,
    {
        chunk[i] = input[start + i];
        i += 1;
    }
    assert(chunk@ =~= input@.subrange(start as int, start + 32));
    chunk
}

/// Appends the 32 bytes of `chunk` to `output`.
fn append_chunk(output: &mut Vec<u8>, chunk: &[u8; 32])
    ensures
        final(output)@ == old(output)@ + chunk@,
{
    let mut i: usize = 0;
    while i < CHUNK_SIZE
        invariant
            i <= CHUNK_SIZE,
            output@ == old(output)@ + chunk@.take(i as int),
        decreases CHUNK_SIZE - i,
    {
        output.push(chunk[i]);
        assert(output@ =~= old(output)@ + chunk@.take(i + 1));
        i += 1;
    }
    assert(chunk@.take(32) =~= chunk@);
}

/// Writes the 32 bytes of `chunk` into `buffer` from index `start` on.
fn store_chunk(buffer: &mut [u8], start: usize, chunk: &[u8; 32])
    requires
        start + 32 <= old(buffer)@.len(),
    ensures
        final(buffer)@.len() == old(buffer)@.len(),
        forall|j: int| 0 <= j < start ==> final(buffer)@[j] == old(buffer)@[j],
        forall|j: int| start <= j < start + 32 ==> final(buffer)@[j] == chunk@[j - start],
        forall|j: int| start + 32 <= j < old(buffer)@.len() ==> final(buffer)@[j] == old(buffer)@[j],
{
    let len: usize = buffer.len();
    let mut i: usize = 0;
    while i < CHUNK_SIZE
        invariant
            i <= CHUNK_SIZE,
            buffer@.len() == old(buffer)@.len() == len,
            start + 32 <= buffer@.len(),
            forall|j: int| 0 <= j < start ==> buffer@[j] == old(buffer)@[j],
            forall|j: int| start <= j < start + i ==> buffer@[j] == chunk@[j - start],
            forall|j: int| start + i <= j < buffer@.len() ==> buffer@[j] == old(buffer)@[j],
        decreases CHUNK_SIZE - i,
    {
        buffer[start + i] = chunk[i];
        i += 1;
    }
}

} // verus!
