//! Byte-order marks at the start of a buffer: taking one off, and putting one
//! on.

use crate::detection::starts_with;
use crate::encoding::Encoding;
use vstd::prelude::*;
use vstd::slice::slice_subrange;

verus! {

/// `data` without the byte-order mark of `encoding` at its start, where it
/// starts with that mark; else `data`.
pub open spec fn stripped(encoding: Encoding, data: Seq<u8>) -> Seq<u8> {
    match encoding.spec_bom() {
        Some(bom) => if bom.is_prefix_of(data) {
            data.subrange(bom.len() as int, data.len() as int)
        } else {
            data
        },
        None => data,
    }
}

/// `data` behind the byte-order mark of `encoding`, where the encoding has
/// one; else `data`.
pub open spec fn marked(encoding: Encoding, data: Seq<u8>) -> Seq<u8> {
    match encoding.spec_bom() {
        Some(bom) => bom + data,
        None => data,
    }
}

/// Takes the byte-order mark of `encoding` off the start of `data`, where
/// there is one.
pub fn strip_bom(encoding: Encoding, data: &[u8]) -> (rest: &[u8])
    ensures
        rest@ == stripped(encoding, data@),
{
    match encoding.bom() {
        Some(bom) => {
            if starts_with(data, bom) {
                slice_subrange(data, bom.len(), data.len())
            } else {
                data
            }
        },
        None => data,
    }
}

/// Puts the byte-order mark of `encoding` before `data`, where the encoding
/// has one.
pub fn add_bom(encoding: Encoding, data: Vec<u8>) -> (out: Vec<u8>)
    ensures
        out@ == marked(encoding, data@),
{
    match encoding.bom() {
        Some(bom) => {
            let mut out: Vec<u8> = Vec::new();
            let mut i: usize = 0;
            while i < bom.len()
                invariant
                    i <= bom@.len(),
                    out@ == bom@.take(i as int),
                decreases bom@.len() - i,
            {
                out.push(bom[i]);
                assert(out@ =~= bom@.take(i + 1));
                i += 1;
            }
            assert(bom@.take(bom@.len() as int) =~= bom@);
            let mut k: usize = 0;
            while k < data.len()
                invariant
                    k <= data@.len(),
                    out@ == bom@ + data@.take(k as int),
                decreases data@.len() - k,
            {
                out.push(data[k]);
                assert(out@ =~= bom@ + data@.take(k + 1));
                k += 1;
            }
            assert(data@.take(data@.len() as int) =~= data@);
            out
        },
        None => data,
    }
}

/// Stripping the mark that was put on gives the data back.
pub proof fn lemma_strip_marked(encoding: Encoding, data: Seq<u8>)
    ensures
        stripped(encoding, marked(encoding, data)) == data,
{
    match encoding.spec_bom() {
        Some(bom) => {
            let all = bom + data;
            assert(all.subrange(0, bom.len() as int) =~= bom);
            assert(all.subrange(bom.len() as int, all.len() as int) =~= data);
        },
        None => {},
    }
}

} // verus!
