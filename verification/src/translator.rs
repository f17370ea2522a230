//! The converter that callers use: it picks the engine for a pair of
//! encodings and offers strict, in-place and lossy conversion.

use crate::encoding::Encoding;
use crate::error::{outcome, status, Error, ErrorView};
use crate::multibyte::{convert_spec, unsupported, MultiByte};
use crate::table::{in_place_spec, lossy_spec, table_of, translate_spec, TranslationTable};
use crate::tables::chars_for;
use vstd::prelude::*;

verus! {

/// The buffer size of a streaming translator made without one, in bytes.
pub const DEFAULT_BUFFER_SIZE: usize = 65536;

/// Whether a pair of encodings is converted through the UTF-8 pivot, as
/// opposed to a byte-to-byte table.
pub open spec fn uses_pivot(from: Encoding, to: Encoding) -> bool {
    from.is_multibyte() || to.is_multibyte()
}

/// What converting `input` from `from` to `to` gives: through UTF-8 where
/// either side is multibyte, else byte by byte through the table of the pair.
pub open spec fn translator_spec(from: Encoding, to: Encoding, input: Seq<u8>) -> Result<
    Seq<u8>,
    ErrorView,
> {
    if uses_pivot(from, to) {
        convert_spec(from, to, input)
    } else {
        translate_spec(table_of(chars_for(from), chars_for(to)), input)
    }
}

/// What lossy conversion gives. With a table, each byte without a target byte
/// is replaced. Through the pivot, a conversion that fails gives `replacement`
/// once for every byte of the input.
pub open spec fn translator_lossy_spec(
    from: Encoding,
    to: Encoding,
    input: Seq<u8>,
    replacement: u8,
) -> Seq<u8> {
    if uses_pivot(from, to) {
        match convert_spec(from, to, input) {
            Ok(bytes) => bytes,
            Err(_) => Seq::new(input.len(), |i: int| replacement),
        }
    } else {
        lossy_spec(table_of(chars_for(from), chars_for(to)), input, replacement)
    }
}

/// A converter from one encoding to another.
pub struct Translator {
    table: Option<TranslationTable>,
    multibyte: Option<MultiByte>,
    from: Encoding,
    to: Encoding,
}

impl Translator {
    /// Exactly one engine is present: the pivot converter where either side
    /// is multibyte, else the table of the pair.
    #[verifier::type_invariant]
    spec fn well_formed(self) -> bool {
        if uses_pivot(self.from, self.to) {
            &&& self.table is None
            &&& self.multibyte is Some
            &&& self.multibyte->0.source() == self.from
            &&& self.multibyte->0.target() == self.to
        } else {
            &&& self.multibyte is None
            &&& self.table is Some
            &&& self.table->0@ == table_of(chars_for(self.from), chars_for(self.to))
        }
    }

    /// The source encoding.
    pub closed spec fn source(&self) -> Encoding {
        self.from
    }

    /// The target encoding.
    pub closed spec fn target(&self) -> Encoding {
        self.to
    }

    /// A converter from `from` to `to`. Every pair of encodings has one.
    pub fn new(from: Encoding, to: Encoding) -> (r: Result<Translator, Error>)
        ensures
            r is Ok,
            r->Ok_0.source() == from,
            r->Ok_0.target() == to,
    {
        if from.is_multibyte() || to.is_multibyte() {
            let multibyte = MultiByte::new(from, to);
            Ok(Translator { table: None, multibyte: Some(multibyte), from, to })
        } else {
            match TranslationTable::new(from, to) {
                Ok(table) => Ok(Translator { table: Some(table), multibyte: None, from, to }),
                Err(e) => Err(e),
            }
        }
    }

    /// The source encoding.
    pub fn from_encoding(&self) -> (r: Encoding)
        ensures
            r == self.source(),
    {
        self.from
    }

    /// The target encoding.
    pub fn to_encoding(&self) -> (r: Encoding)
        ensures
            r == self.target(),
    {
        self.to
    }

    /// Converts `input`, or fails at the first thing that cannot be converted.
    pub fn convert(&self, input: &[u8]) -> (r: Result<Vec<u8>, Error>)
        ensures
            outcome(r) == translator_spec(self.source(), self.target(), input@),
    {
        proof {
            use_type_invariant(self);
        }
        match &self.table {
            Some(table) => table.translate(input),
            None => match &self.multibyte {
                Some(multibyte) => multibyte.convert(input),
                None => Err(
                    Error::UnsupportedConversion { from: self.from.name(), to: self.to.name() },
                ),
            },
        }
    }

    /// Converts `buffer` in place. Only a table can do that: through the pivot
    /// the call fails and leaves the buffer as it was. With a table, a failure
    /// leaves the bytes before the failing one replaced.
    pub fn convert_in_place(&self, buffer: &mut [u8]) -> (r: Result<(), Error>)
        ensures
            uses_pivot(self.source(), self.target()) ==> {
                &&& final(buffer)@ == old(buffer)@
                &&& status(r) == Err::<(), ErrorView>(unsupported(self.source(), self.target()))
            },
            !uses_pivot(self.source(), self.target()) ==> {
                let table = table_of(chars_for(self.source()), chars_for(self.target()));
                &&& final(buffer)@ == in_place_spec(table, old(buffer)@)
                &&& status(r) == (match translate_spec(table, old(buffer)@) {
                    Ok(_) => Ok(()),
                    Err(e) => Err(e),
                })
            },
    {
        proof {
            use_type_invariant(self);
        }
        match &self.table {
            Some(table) => table.translate_in_place(buffer),
            None => Err(
                Error::UnsupportedConversion { from: self.from.name(), to: self.to.name() },
            ),
        }
    }

    /// Converts `input` and never fails: `replacement` stands in for what
    /// cannot be converted.
    pub fn convert_lossy(&self, input: &[u8], replacement: u8) -> (output: Vec<u8>)
        ensures
            output@ == translator_lossy_spec(self.source(), self.target(), input@, replacement),
            !uses_pivot(self.source(), self.target()) ==> output@.len() == input@.len(),
    {
        proof {
            use_type_invariant(self);
        }
        match &self.table {
            Some(table) => table.translate_lossy(input, replacement),
            None => match self.convert(input) {
                Ok(result) => result,
                Err(_) => repeat_byte(replacement, input.len()),
            },
        }
    }
}

/// `count` times the byte `byte`.
pub fn repeat_byte(byte: u8, count: usize) -> (bytes: Vec<u8>)
    ensures
        bytes@ == Seq::new(count as nat, |i: int| byte),
{
    let mut bytes: Vec<u8> = Vec::new();
    let mut i: usize = 0;
    while i < count
        invariant
            i <= count,
            bytes@.len() == i,
            forall|j: int| 0 <= j < i ==> bytes@[j] == byte,
        decreases count - i,
    {
        bytes.push(byte);
        i += 1;
    }
    assert(bytes@ =~= Seq::new(count as nat, |i: int| byte));
    bytes
}

/// A converter for input that arrives in chunks. Each chunk is converted by
/// itself: nothing is carried from one chunk to the next, so a character that
/// is split between two chunks is not put together again.
pub struct StreamingTranslator {
    translator: Translator,
    #[allow(dead_code)]
    buffer: Vec<u8>,
    #[allow(dead_code)]
    buffer_size: usize,
}

impl StreamingTranslator {
    /// The source encoding.
    pub closed spec fn source(&self) -> Encoding {
        self.translator.source()
    }

    /// The target encoding.
    pub closed spec fn target(&self) -> Encoding {
        self.translator.target()
    }

    /// The buffer size that the translator was made with.
    pub closed spec fn buffer_size(&self) -> usize {
        self.buffer_size
    }

    /// A streaming converter from `from` to `to` with the given buffer size.
    pub fn new(from: Encoding, to: Encoding, buffer_size: usize) -> (r: Result<
        StreamingTranslator,
        Error,
    >)
        ensures
            r is Ok,
            r->Ok_0.source() == from,
            r->Ok_0.target() == to,
            r->Ok_0.buffer_size() == buffer_size,
    {
        match Translator::new(from, to) {
            Ok(translator) => Ok(StreamingTranslator { translator, buffer: Vec::new(), buffer_size }),
            Err(e) => Err(e),
        }
    }

    /// A streaming converter from `from` to `to` with a buffer of 64 KiB.
    pub fn with_default_buffer(from: Encoding, to: Encoding) -> (r: Result<
        StreamingTranslator,
        Error,
    >)
        ensures
            r is Ok,
            r->Ok_0.source() == from,
            r->Ok_0.target() == to,
            r->Ok_0.buffer_size() == DEFAULT_BUFFER_SIZE,
    {
        StreamingTranslator::new(from, to, DEFAULT_BUFFER_SIZE)
    }

    /// Converts one chunk, as `Translator::convert` would convert it alone.
    pub fn process_chunk(&mut self, input: &[u8]) -> (r: Result<Vec<u8>, Error>)
        ensures
            outcome(r) == translator_spec(old(self).source(), old(self).target(), input@),
            final(self).source() == old(self).source(),
            final(self).target() == old(self).target(),
            final(self).buffer_size() == old(self).buffer_size(),
    {
        self.translator.convert(input)
    }
}

} // verus!
