//! Detection of the encoding of a byte sample: a byte-order mark decides at
//! once; without one, independent scorers each propose a candidate with a
//! confidence, and the candidates are ranked.

use crate::confidence::{
    lemma_ratio_values, lemma_same_transitive, Confidence, Ratio, MAX_DENOMINATOR,
};
use crate::hint::{
    apply_hint, boostable, boosted, group_of, hinted, lemma_boosted_same, lowercase_of,
    to_lowercase,
};
use crate::encoding::{Encoding, BOM_UTF16BE, BOM_UTF16LE, BOM_UTF8};
use crate::ranking::{
    candidates_view, lemma_ranked_keeps, lemma_ranked_same, proper, rank, ranked,
    same_candidates,
};
use vstd::prelude::*;
use vstd::slice::slice_subrange;
use vstd::utf8::{length_of_first_codepoint, valid_leading_and_continuation_bytes_first_codepoint};

verus! {

/// The number of bytes that a detector looks at where no other limit is given.
pub const DEFAULT_SAMPLE_SIZE: usize = 8192;

/// Bytes that carry punctuation and letters in Windows-1252 and are control
/// characters in ISO-8859-1.
pub const WINDOWS_1252_MARKS: [u8; 11] = [
    0x80, 0x82, 0x83, 0x84, 0x85, 0x86, 0x87, 0x88, 0x89, 0x8A, 0x99,
];

/// Bytes that carry Central European letters in Windows-1250.
pub const WINDOWS_1250_MARKS: [u8; 8] = [0x8A, 0x8C, 0x8D, 0x8F, 0x9A, 0x9C, 0x9D, 0x9F];

/// The space and the ten digits in EBCDIC.
pub const EBCDIC_DIGITS: [u8; 11] = [
    0x40, 0xF0, 0xF1, 0xF2, 0xF3, 0xF4, 0xF5, 0xF6, 0xF7, 0xF8, 0xF9,
];

/// The letters A to E and a to e in EBCDIC.
pub const EBCDIC_LETTERS: [u8; 10] = [0xC1, 0xC2, 0xC3, 0xC4, 0xC5, 0x81, 0x82, 0x83, 0x84, 0x85];

/// Shading and box-drawing characters of code page 437.
pub const CP437_BOXES: [u8; 8] = [0xB0, 0xB1, 0xB2, 0xDB, 0xC9, 0xBB, 0xC8, 0xBC];

/// The part of `data` that a detector with the limit `max` looks at.
pub open spec fn sample_of(data: Seq<u8>, max: int) -> Seq<u8> {
    if data.len() > max {
        data.subrange(0, max)
    } else {
        data
    }
}

/// The encoding whose byte-order mark `sample` starts with: UTF-8 is looked
/// for first, then UTF-16LE, then UTF-16BE.
pub open spec fn bom_of(sample: Seq<u8>) -> Option<Encoding> {
    if BOM_UTF8@.is_prefix_of(sample) {
        Some(Encoding::UTF8)
    } else if BOM_UTF16LE@.is_prefix_of(sample) {
        Some(Encoding::UTF16LE)
    } else if BOM_UTF16BE@.is_prefix_of(sample) {
        Some(Encoding::UTF16BE)
    } else {
        None
    }
}

/// How many of the first `count` bytes of `marks` occur somewhere in `sample`.
pub open spec fn present(sample: Seq<u8>, marks: Seq<u8>, count: nat) -> nat
    decreases count,
{
    if count == 0 {
        0
    } else {
        present(sample, marks, (count - 1) as nat) + if sample.contains(marks[count - 1]) {
            1nat
        } else {
            0nat
        }
    }
}

/// How many of the first `count` bytes of `sample` are below `limit`.
pub open spec fn below(sample: Seq<u8>, limit: u8, count: nat) -> nat
    decreases count,
{
    if count == 0 {
        0
    } else {
        below(sample, limit, (count - 1) as nat) + if sample[count - 1] < limit {
            1nat
        } else {
            0nat
        }
    }
}

/// Whether every byte of `sample` is below 0x80.
pub open spec fn all_ascii(sample: Seq<u8>) -> bool {
    forall|i: int| 0 <= i < sample.len() ==> (#[trigger] sample[i]) < 0x80
}

/// Whether some byte of `sample` is 0xA0 or above.
pub open spec fn has_high_latin(sample: Seq<u8>) -> bool {
    exists|i: int| 0 <= i < sample.len() && (#[trigger] sample[i]) >= 0xA0
}

/// The number of bytes of `sample` that belong to sequences of two, three or
/// four bytes, where `sample` has the structure of UTF-8 throughout: every
/// byte is an ASCII byte or a lead byte followed by as many continuation
/// bytes as it announces. `None` where the structure is broken anywhere.
pub open spec fn multibyte_bytes(sample: Seq<u8>) -> Option<nat>
    decreases sample.len(),
{
    if sample.len() == 0 {
        Some(0)
    } else if !valid_leading_and_continuation_bytes_first_codepoint(sample) {
        None
    } else {
        let n = length_of_first_codepoint(sample);
        match multibyte_bytes(sample.skip(n)) {
            None => None,
            Some(m) => Some(
                if n > 1 {
                    m + n as nat
                } else {
                    m
                },
            ),
        }
    }
}

/// The UTF-8 scorer: no candidate where the structure is broken; 1/2 where no
/// sequence of several bytes occurs; else 7/10 plus 3/10 of the share of the
/// bytes that belong to such sequences, `(7 n + 3 m) / (10 n)`.
pub open spec fn utf8_confidence(sample: Seq<u8>) -> Option<Ratio> {
    match multibyte_bytes(sample) {
        None => None,
        Some(m) => Some(
            if m == 0 {
                Ratio::of(1, 2)
            } else {
                Ratio::of(7 * sample.len() + 3 * m as int, 10 * sample.len() as int)
            },
        ),
    }
}

/// What one unit of two bytes adds to the tally of a byte order, in halves:
/// two halves where the unit is below 0x80 in that byte order, and one half
/// more where its high byte is zero and its low byte is not.
pub open spec fn unit_points(first: u8, second: u8, big_endian: bool) -> nat {
    let high = if big_endian {
        first
    } else {
        second
    };
    let low = if big_endian {
        second
    } else {
        first
    };
    (if high == 0 && low < 0x80 {
        2nat
    } else {
        0nat
    }) + (if high == 0 && low != 0 {
        1nat
    } else {
        0nat
    })
}

/// The tally of a byte order over the first `units` units of `sample`, in
/// halves.
pub open spec fn tally(sample: Seq<u8>, big_endian: bool, units: nat) -> nat
    decreases units,
{
    if units == 0 {
        0
    } else {
        tally(sample, big_endian, (units - 1) as nat) + unit_points(
            sample[2 * (units - 1)],
            sample[2 * (units - 1) + 1],
            big_endian,
        )
    }
}

/// The score of a byte order: its tally divided by the number of units.
pub open spec fn utf16_score(sample: Seq<u8>, big_endian: bool) -> Ratio {
    Ratio::of(
        tally(sample, big_endian, (sample.len() / 2) as nat) as int,
        2 * (sample.len() / 2) as int,
    )
}

/// The UTF-16 scorer: for a sample of even length, at least two bytes, the
/// byte order with the higher score, where that score is above 3/5; its
/// confidence is 4/5 of the score.
pub open spec fn utf16_candidate(sample: Seq<u8>) -> Option<(Encoding, Ratio)> {
    if sample.len() < 2 || sample.len() % 2 != 0 {
        None
    } else {
        let le = utf16_score(sample, false);
        let be = utf16_score(sample, true);
        if le.more_than(be) && le.more_than(Ratio::of(3, 5)) {
            Some((Encoding::UTF16LE, le.times(Ratio::of(4, 5))))
        } else if be.more_than(le) && be.more_than(Ratio::of(3, 5)) {
            Some((Encoding::UTF16BE, be.times(Ratio::of(4, 5))))
        } else {
            None
        }
    }
}

/// The ASCII scorer: 4/5 where every byte is below 0x80.
pub open spec fn ascii_confidence(sample: Seq<u8>) -> Option<Ratio> {
    if all_ascii(sample) {
        Some(Ratio::of(4, 5))
    } else {
        None
    }
}

/// A scorer over a set of characteristic bytes: the share of them that occurs
/// in the sample, times `weight`; no candidate where none occurs.
pub open spec fn marks_confidence(sample: Seq<u8>, marks: Seq<u8>, weight: Ratio) -> Option<
    Ratio,
> {
    let found = present(sample, marks, marks.len());
    if found > 0 {
        Some(Ratio::of(found as int, marks.len() as int).times(weight))
    } else {
        None
    }
}

/// The Windows-1252 scorer.
pub open spec fn windows_1252_confidence(sample: Seq<u8>) -> Option<Ratio> {
    marks_confidence(sample, WINDOWS_1252_MARKS@, Ratio::of(3, 5))
}

/// The Windows-1250 scorer.
pub open spec fn windows_1250_confidence(sample: Seq<u8>) -> Option<Ratio> {
    marks_confidence(sample, WINDOWS_1250_MARKS@, Ratio::of(3, 5))
}

/// The ISO-8859-1 scorer: 1/2 where some byte is 0xA0 or above.
pub open spec fn iso_8859_1_confidence(sample: Seq<u8>) -> Option<Ratio> {
    if has_high_latin(sample) {
        Some(Ratio::of(1, 2))
    } else {
        None
    }
}

/// The ISO-8859-15 scorer: 3/5 where the byte 0xA4, its euro sign, occurs.
pub open spec fn iso_8859_15_confidence(sample: Seq<u8>) -> Option<Ratio> {
    if sample.contains(0xA4u8) {
        Some(Ratio::of(3, 5))
    } else {
        None
    }
}

/// The EBCDIC score before it is halved: the share of the digit bytes that
/// occur, plus twice the share of the letter bytes that occur.
pub open spec fn ebcdic_presence(sample: Seq<u8>) -> Ratio {
    Ratio::of(present(sample, EBCDIC_DIGITS@, 11) as int, 11).plus(
        Ratio::of(2 * present(sample, EBCDIC_LETTERS@, 10) as int, 10),
    )
}

/// Whether more than three tenths of the bytes of `sample` are below 0x40.
pub open spec fn mostly_low(sample: Seq<u8>) -> bool {
    10 * below(sample, 0x40, sample.len()) > 3 * sample.len()
}

/// The EBCDIC score: the presence score, halved where more than three tenths
/// of the bytes are below 0x40.
pub open spec fn ebcdic_score(sample: Seq<u8>) -> Ratio {
    if mostly_low(sample) {
        ebcdic_presence(sample).times(Ratio::of(1, 2))
    } else {
        ebcdic_presence(sample)
    }
}

/// The EBCDIC scorer: the score where it is above 1/10, and at most 4/5.
pub open spec fn ebcdic_confidence(sample: Seq<u8>) -> Option<Ratio> {
    let score = ebcdic_score(sample);
    if score.more_than(Ratio::of(1, 10)) {
        Some(score.min(Ratio::of(4, 5)))
    } else {
        None
    }
}

/// The code page 437 scorer.
pub open spec fn cp437_confidence(sample: Seq<u8>) -> Option<Ratio> {
    marks_confidence(sample, CP437_BOXES@, Ratio::of(7, 10))
}

/// The candidate that a scorer registers, if any, as a sequence of at most one
/// entry.
pub open spec fn entry(encoding: Encoding, confidence: Option<Ratio>) -> Seq<(Encoding, Ratio)> {
    match confidence {
        Some(c) => seq![(encoding, c)],
        None => seq![],
    }
}

/// The candidate of the UTF-16 scorer, if any.
pub open spec fn utf16_entry(sample: Seq<u8>) -> Seq<(Encoding, Ratio)> {
    match utf16_candidate(sample) {
        Some(c) => seq![c],
        None => seq![],
    }
}

/// The candidates of the two Windows scorers.
pub open spec fn windows_entries(sample: Seq<u8>) -> Seq<(Encoding, Ratio)> {
    entry(Encoding::WINDOWS_1252, windows_1252_confidence(sample)) + entry(
        Encoding::WINDOWS_1250,
        windows_1250_confidence(sample),
    )
}

/// The candidates of the two ISO scorers.
pub open spec fn iso_entries(sample: Seq<u8>) -> Seq<(Encoding, Ratio)> {
    entry(Encoding::ISO_8859_1, iso_8859_1_confidence(sample)) + entry(
        Encoding::ISO_8859_15,
        iso_8859_15_confidence(sample),
    )
}

/// The candidates of all scorers in the order in which they are registered:
/// UTF-8, UTF-16, ASCII, Windows-1252, Windows-1250, ISO-8859-1, ISO-8859-15,
/// EBCDIC, code page 437.
pub open spec fn pool(sample: Seq<u8>) -> Seq<(Encoding, Ratio)> {
    entry(Encoding::UTF8, utf8_confidence(sample)) + utf16_entry(sample) + entry(
        Encoding::ASCII,
        ascii_confidence(sample),
    ) + windows_entries(sample) + iso_entries(sample) + entry(
        Encoding::EBCDIC_037,
        ebcdic_confidence(sample),
    ) + entry(Encoding::CP_437, cp437_confidence(sample))
}

/// The outcome of a detection as a mathematical value.
pub ghost struct Detection {
    pub encoding: Encoding,
    pub confidence: Ratio,
    pub bom_detected: bool,
    pub candidates: Seq<(Encoding, Ratio)>,
}

/// What detection gives for a sample. A byte-order mark decides, with
/// confidence 1 and one candidate. Without one the ranked candidates of the
/// scorers are given, the first of them as the result; where no scorer
/// registers, the result is ASCII with confidence 1/2.
pub open spec fn detect_spec(sample: Seq<u8>) -> Detection {
    match bom_of(sample) {
        Some(encoding) => Detection {
            encoding,
            confidence: Ratio::of(1, 1),
            bom_detected: true,
            candidates: seq![(encoding, Ratio::of(1, 1))],
        },
        None => {
            let candidates = ranked(pool(sample));
            if candidates.len() > 0 {
                Detection {
                    encoding: candidates[0].0,
                    confidence: candidates[0].1,
                    bom_detected: false,
                    candidates,
                }
            } else {
                Detection {
                    encoding: Encoding::ASCII,
                    confidence: Ratio::of(1, 2),
                    bom_detected: false,
                    candidates,
                }
            }
        },
    }
}

/// The denominator over which a detection compares its candidates: 880 times
/// the length of the sample, or 880 for an empty sample.
pub open spec fn scale_of(sample: Seq<u8>) -> int {
    880 * (if sample.len() == 0 {
        1int
    } else {
        sample.len() as int
    })
}

/// Whether a confidence is a fraction that can be written over the
/// denominator `scale`.
pub open spec fn on_scale(c: Ratio, scale: int) -> bool {
    &&& c.den > 0
    &&& 0 <= c.num
    &&& scale % c.den == 0
}

/// Whether every confidence of the list can be written over `scale`.
pub open spec fn all_on_scale(candidates: Seq<(Encoding, Ratio)>, scale: int) -> bool {
    forall|i: int| 0 <= i < candidates.len() ==> on_scale((#[trigger] candidates[i]).1, scale)
}

/// Whether every candidate of the list is UTF-16 or has a confidence of at
/// most one.
pub open spec fn at_most_one_unless_utf16(candidates: Seq<(Encoding, Ratio)>) -> bool {
    forall|i: int|
        0 <= i < candidates.len() ==> (#[trigger] candidates[i]).0.is_utf16() || candidates[i].1.num
            <= candidates[i].1.den
}

/// No more bytes belong to multibyte sequences than the sample has.
pub proof fn lemma_multibyte_bytes_bound(sample: Seq<u8>)
    ensures
        multibyte_bytes(sample) is Some ==> multibyte_bytes(sample)->0 <= sample.len(),
    decreases sample.len(),
{
    if sample.len() > 0 && valid_leading_and_continuation_bytes_first_codepoint(sample) {
        lemma_multibyte_bytes_bound(sample.skip(length_of_first_codepoint(sample)));
    }
}

/// No more marks are present than were looked for.
pub proof fn lemma_present_bound(sample: Seq<u8>, marks: Seq<u8>, count: nat)
    ensures
        present(sample, marks, count) <= count,
    decreases count,
{
    if count > 0 {
        lemma_present_bound(sample, marks, (count - 1) as nat);
    }
}

/// What a scorer over characteristic bytes gives, written out.
pub proof fn lemma_marks_confidence(sample: Seq<u8>, marks: Seq<u8>, wn: int, wd: int)
    requires
        0 < wn <= wd,
    ensures
        marks_confidence(sample, marks, Ratio::of(wn, wd)) == (if present(
            sample,
            marks,
            marks.len(),
        ) > 0 {
            Some(Ratio::of(present(sample, marks, marks.len()) * wn, marks.len() * wd))
        } else {
            None
        }),
        present(sample, marks, marks.len()) * wn <= marks.len() * wd,
        present(sample, marks, marks.len()) * wn >= 0,
{
    let found = present(sample, marks, marks.len()) as int;
    let count = marks.len() as int;
    lemma_present_bound(sample, marks, marks.len());
    lemma_ratio_values(Ratio::of(found, count), Ratio::of(wn, wd), found, count, wn, wd);
    assert(found * wn <= count * wd && found * wn >= 0) by (nonlinear_arith)
        requires
            0 <= found <= count,
            0 < wn <= wd,
    ;
}

/// Whether every confidence of the list can be written over `scale`, and is
/// at most one unless its candidate is UTF-16.
pub open spec fn fine(candidates: Seq<(Encoding, Ratio)>, scale: int) -> bool {
    all_on_scale(candidates, scale) && at_most_one_unless_utf16(candidates)
}

/// The candidate of the UTF-8 scorer is fine.
pub proof fn lemma_utf8_entry(sample: Seq<u8>)
    ensures
        fine(entry(Encoding::UTF8, utf8_confidence(sample)), scale_of(sample)),
{
    let n = sample.len() as int;
    lemma_multibyte_bytes_bound(sample);
    if multibyte_bytes(sample) is Some && multibyte_bytes(sample)->0 > 0 {
        assert((880 * n) % (10 * n) == 0) by (nonlinear_arith)
            requires
                n > 0,
        {
            assert(880 * n == 88 * (10 * n));
        }
    }
}

/// The candidate of the UTF-16 scorer is fine.
pub proof fn lemma_utf16_entry(sample: Seq<u8>)
    ensures
        fine(utf16_entry(sample), scale_of(sample)),
{
    let n = sample.len() as int;
    if sample.len() >= 2 && sample.len() % 2 == 0 {
        let u = n / 2;
        let le = utf16_score(sample, false);
        let be = utf16_score(sample, true);
        lemma_ratio_values(le, Ratio::of(4, 5), le.num, 2 * u, 4, 5);
        lemma_ratio_values(be, Ratio::of(4, 5), be.num, 2 * u, 4, 5);
        assert((880 * n) % ((2 * u) * 5) == 0) by (nonlinear_arith)
            requires
                n == 2 * u,
                u > 0,
        {
            assert(880 * n == 176 * ((2 * u) * 5));
        }
    }
}

/// The candidates of the ASCII and ISO scorers are fine.
pub proof fn lemma_fixed_entries(sample: Seq<u8>)
    ensures
        fine(entry(Encoding::ASCII, ascii_confidence(sample)), scale_of(sample)),
        fine(iso_entries(sample), scale_of(sample)),
{
    let scale = scale_of(sample);
    assert(scale % 5 == 0 && scale % 2 == 0);
    assert(on_scale(Ratio::of(4, 5), scale));
    assert(on_scale(Ratio::of(1, 2), scale));
    assert(on_scale(Ratio::of(3, 5), scale));
    let a = entry(Encoding::ASCII, ascii_confidence(sample));
    assert(fine(a, scale)) by {
        assert forall|i: int| 0 <= i < a.len() implies on_scale((#[trigger] a[i]).1, scale)
            && a[i].1.num <= a[i].1.den by {
            assert(a[i].1 == Ratio::of(4, 5));
        }
    }
    let b = entry(Encoding::ISO_8859_1, iso_8859_1_confidence(sample));
    let c = entry(Encoding::ISO_8859_15, iso_8859_15_confidence(sample));
    assert(fine(b, scale)) by {
        assert forall|i: int| 0 <= i < b.len() implies on_scale((#[trigger] b[i]).1, scale)
            && b[i].1.num <= b[i].1.den by {
            assert(b[i].1 == Ratio::of(1, 2));
        }
    }
    assert(fine(c, scale)) by {
        assert forall|i: int| 0 <= i < c.len() implies on_scale((#[trigger] c[i]).1, scale)
            && c[i].1.num <= c[i].1.den by {
            assert(c[i].1 == Ratio::of(3, 5));
        }
    }
    lemma_concat_keeps(b, c, scale);
}

/// The candidate of a scorer over characteristic bytes is fine where the
/// number of bytes times the denominator of the weight divides 880.
pub proof fn lemma_marks_entry(
    sample: Seq<u8>,
    encoding: Encoding,
    marks: Seq<u8>,
    wn: int,
    wd: int,
)
    requires
        0 < wn <= wd,
        marks.len() > 0,
        880int % (marks.len() * wd) == 0,
    ensures
        fine(entry(encoding, marks_confidence(sample, marks, Ratio::of(wn, wd))), scale_of(sample)),
{
    lemma_marks_confidence(sample, marks, wn, wd);
    let q: int = marks.len() * wd;
    let k = if sample.len() == 0 {
        1int
    } else {
        sample.len() as int
    };
    assert(q > 0) by (nonlinear_arith)
        requires
            q == marks.len() * wd,
            marks.len() > 0,
            wd > 0,
    ;
    vstd::arithmetic::div_mod::lemma_fundamental_div_mod(880, q);
    let f = 880int / q;
    assert(880 * k == (f * k) * q) by (nonlinear_arith)
        requires
            880 == q * f,
    ;
    vstd::arithmetic::div_mod::lemma_mod_multiples_basic(f * k, q);
}

/// The candidates of the Windows and DOS scorers are fine.
pub proof fn lemma_marks_entries(sample: Seq<u8>)
    ensures
        fine(windows_entries(sample), scale_of(sample)),
        fine(entry(Encoding::CP_437, cp437_confidence(sample)), scale_of(sample)),
{
    assert(WINDOWS_1252_MARKS@.len() == 11 && WINDOWS_1250_MARKS@.len() == 8 && CP437_BOXES@.len()
        == 8);
    lemma_marks_entry(sample, Encoding::WINDOWS_1252, WINDOWS_1252_MARKS@, 3, 5);
    lemma_marks_entry(sample, Encoding::WINDOWS_1250, WINDOWS_1250_MARKS@, 3, 5);
    lemma_marks_entry(sample, Encoding::CP_437, CP437_BOXES@, 7, 10);
    lemma_concat_keeps(
        entry(Encoding::WINDOWS_1252, windows_1252_confidence(sample)),
        entry(Encoding::WINDOWS_1250, windows_1250_confidence(sample)),
        scale_of(sample),
    );
}

/// The candidate of the EBCDIC scorer is fine.
pub proof fn lemma_ebcdic_entry(sample: Seq<u8>)
    ensures
        fine(entry(Encoding::EBCDIC_037, ebcdic_confidence(sample)), scale_of(sample)),
{
    let digits = present(sample, EBCDIC_DIGITS@, 11) as int;
    let letters = present(sample, EBCDIC_LETTERS@, 10) as int;
    let num = digits * 10 + (2 * letters) * 11;
    lemma_ratio_values(
        Ratio::of(digits, 11),
        Ratio::of(2 * letters, 10),
        digits,
        11,
        2 * letters,
        10,
    );
    let presence = Ratio::of(num, 110);
    assert(ebcdic_presence(sample) == presence);
    lemma_ratio_values(presence, Ratio::of(1, 2), num, 110, 1, 2);
    let score = ebcdic_score(sample);
    assert(score == Ratio::of(num, score.den));
    assert(score.den == 110 || score.den == 220);
    lemma_ratio_values(Ratio::of(4, 5), score, 4, 5, num, score.den);
    lemma_ratio_values(score, Ratio::of(1, 10), num, score.den, 1, 10);
}

/// Every candidate of the pool has a confidence that can be written over the
/// scale of the sample, and one that is at most one unless it is UTF-16.
pub proof fn lemma_pool(sample: Seq<u8>)
    ensures
        fine(pool(sample), scale_of(sample)),
        proper(pool(sample)),
{
    let scale = scale_of(sample);
    let e1 = entry(Encoding::UTF8, utf8_confidence(sample));
    let e2 = utf16_entry(sample);
    let e3 = entry(Encoding::ASCII, ascii_confidence(sample));
    let e4 = windows_entries(sample);
    let e5 = iso_entries(sample);
    let e6 = entry(Encoding::EBCDIC_037, ebcdic_confidence(sample));
    let e7 = entry(Encoding::CP_437, cp437_confidence(sample));
    lemma_utf8_entry(sample);
    lemma_utf16_entry(sample);
    lemma_fixed_entries(sample);
    lemma_marks_entries(sample);
    lemma_ebcdic_entry(sample);
    assert(pool(sample) == e1 + e2 + e3 + e4 + e5 + e6 + e7);
    lemma_concat_keeps(e1, e2, scale);
    lemma_concat_keeps(e1 + e2, e3, scale);
    lemma_concat_keeps(e1 + e2 + e3, e4, scale);
    lemma_concat_keeps(e1 + e2 + e3 + e4, e5, scale);
    lemma_concat_keeps(e1 + e2 + e3 + e4 + e5, e6, scale);
    lemma_concat_keeps(e1 + e2 + e3 + e4 + e5 + e6, e7, scale);
}

/// The confidence of a detection is a fraction with a positive denominator,
/// and it is at most one unless the encoding is UTF-16.
pub proof fn lemma_detect_spec(sample: Seq<u8>)
    ensures
        detect_spec(sample).confidence.den > 0,
        detect_spec(sample).confidence.num >= 0,
        detect_spec(sample).encoding.is_utf16() || detect_spec(sample).confidence.num
            <= detect_spec(sample).confidence.den,
        proper(detect_spec(sample).candidates),
{
    if bom_of(sample) is None {
        lemma_pool(sample);
        let scale = scale_of(sample);
        let holds = |c: (Encoding, Ratio)|
            on_scale(c.1, scale) && (c.0.is_utf16() || c.1.num <= c.1.den);
        assert forall|i: int| 0 <= i < pool(sample).len() implies holds(
            #[trigger] pool(sample)[i],
        ) by {
            assert(on_scale(pool(sample)[i].1, scale));
        }
        lemma_ranked_keeps(pool(sample), holds);
        let candidates = ranked(pool(sample));
        assert forall|i: int| 0 <= i < candidates.len() implies (#[trigger] candidates[i]).1.den
            > 0 by {
            assert(holds(candidates[i]));
        }
        if candidates.len() > 0 {
            assert(holds(candidates[0]));
        }
    }
}

/// What holds of two lists of candidates holds of the two put together.
proof fn lemma_concat_keeps(a: Seq<(Encoding, Ratio)>, b: Seq<(Encoding, Ratio)>, scale: int)
    requires
        fine(a, scale),
        fine(b, scale),
    ensures
        fine(a + b, scale),
        proper(a + b),
{
    assert forall|i: int| 0 <= i < (a + b).len() implies on_scale((#[trigger] (a + b)[i]).1, scale)
        && ((a + b)[i].0.is_utf16() || (a + b)[i].1.num <= (a + b)[i].1.den) by {
        if i < a.len() {
            assert((a + b)[i] == a[i]);
        } else {
            assert((a + b)[i] == b[i - a.len()]);
        }
    }
}

/// The view of what a scorer returns.
pub open spec fn confidence_view(confidence: Option<Confidence>) -> Option<Ratio> {
    match confidence {
        Some(c) => Some(c@),
        None => None,
    }
}

/// Whether `data` starts with the bytes of `prefix`.
pub fn starts_with(data: &[u8], prefix: &[u8]) -> (r: bool)
    ensures
        r == prefix@.is_prefix_of(data@),
{
    if prefix.len() > data.len() {
        return false;
    }
    let mut i: usize = 0;
    while i < prefix.len()
        invariant
            i <= prefix@.len() <= data@.len(),
            forall|j: int| 0 <= j < i ==> data@[j] == prefix@[j],
        decreases prefix@.len() - i,
    {
        if data[i] != prefix[i] {
            assert(data@.subrange(0, prefix@.len() as int)[i as int] != prefix@[i as int]);
            return false;
        }
        i += 1;
    }
    assert(prefix@ =~= data@.subrange(0, prefix@.len() as int));
    true
}

/// Whether `byte` occurs in `data`.
pub fn contains_byte(data: &[u8], byte: u8) -> (r: bool)
    ensures
        r == data@.contains(byte),
{
    let mut i: usize = 0;
    while i < data.len()
        invariant
            i <= data@.len(),
            forall|j: int| 0 <= j < i ==> data@[j] != byte,
        decreases data@.len() - i,
    {
        if data[i] == byte {
            return true;
        }
        i += 1;
    }
    false
}

/// A detector of encodings. It looks at no more than a fixed number of bytes
/// of what it is given.
pub struct EncodingDetector {
    max_sample_size: usize,
}

impl Default for EncodingDetector {
    fn default() -> (d: EncodingDetector)
        ensures
            d.sample_limit() == DEFAULT_SAMPLE_SIZE,
    {
        EncodingDetector { max_sample_size: DEFAULT_SAMPLE_SIZE }
    }
}

impl EncodingDetector {
    /// The largest number of bytes that the detector looks at.
    pub closed spec fn sample_limit(&self) -> usize {
        self.max_sample_size
    }

    /// A detector that looks at the first 8192 bytes.
    pub fn new() -> (d: EncodingDetector)
        ensures
            d.sample_limit() == DEFAULT_SAMPLE_SIZE,
    {
        EncodingDetector { max_sample_size: DEFAULT_SAMPLE_SIZE }
    }

    /// A detector that looks at the first `max_sample_size` bytes.
    pub fn with_sample_size(max_sample_size: usize) -> (d: EncodingDetector)
        ensures
            d.sample_limit() == max_sample_size,
    {
        EncodingDetector { max_sample_size }
    }

    /// The encoding whose byte-order mark `data` starts with, and the length
    /// of the mark.
    pub fn detect_bom(&self, data: &[u8]) -> (r: Option<(Encoding, usize)>)
        ensures
            match r {
                Some((encoding, len)) => bom_of(data@) == Some(encoding) && encoding.spec_bom()
                    is Some && len == encoding.spec_bom()->0.len(),
                None => bom_of(data@) is None,
            },
    {
        if starts_with(data, BOM_UTF8.as_slice()) {
            Some((Encoding::UTF8, 3))
        } else if starts_with(data, BOM_UTF16LE.as_slice()) {
            Some((Encoding::UTF16LE, 2))
        } else if starts_with(data, BOM_UTF16BE.as_slice()) {
            Some((Encoding::UTF16BE, 2))
        } else {
            None
        }
    }

    /// The UTF-8 scorer.
    pub fn detect_utf8(&self, data: &[u8]) -> (r: Option<Confidence>)
        ensures
            confidence_view(r) == utf8_confidence(data@),
    {
        let len: usize = data.len();
        let mut multibyte: usize = 0;
        let mut i: usize = 0;
        assert(data@.skip(0) =~= data@);
        while i < len
            invariant
                i <= len == data@.len(),
                multibyte <= i,
                multibyte_bytes(data@) == (match multibyte_bytes(data@.skip(i as int)) {
                    None => None,
                    Some(m) => Some(m + multibyte as nat),
                }),
            decreases len - i,
        {
            let ghost rest = data@.skip(i as int);
            let byte = data[i];
            let left: usize = len - i;
            assert(rest[0] == byte);
            let n: usize = if byte < 0x80 {
                1
            } else if 0xC0 <= byte && byte <= 0xDF {
                2
            } else if 0xE0 <= byte && byte <= 0xEF {
                3
            } else if 0xF0 <= byte && byte <= 0xF7 {
                4
            } else {
                return None;
            };
            if left < n {
                return None;
            }
            let mut k: usize = 1;
            while k < n
                invariant
                    1 <= k <= n <= left,
                    left == len - i,
                    len == data@.len(),
                    rest == data@.skip(i as int),
                    rest[0] == byte,
                    n == 1 <==> byte < 0x80,
                    n == 2 <==> 0xC0 <= byte <= 0xDF,
                    n == 3 <==> 0xE0 <= byte <= 0xEF,
                    n == 4 <==> 0xF0 <= byte <= 0xF7,
                    forall|j: int| 1 <= j < k ==> vstd::utf8::is_continuation_byte(rest[j]),
                    !valid_leading_and_continuation_bytes_first_codepoint(rest)
                        ==> multibyte_bytes(data@) is None,
                decreases n - k,
            {
                let next = data[i + k];
                assert(rest[k as int] == next);
                if !(0x80 <= next && next <= 0xBF) {
                    return None;
                }
                k += 1;
            }
            assert(valid_leading_and_continuation_bytes_first_codepoint(rest));
            assert(length_of_first_codepoint(rest) == n);
            assert(rest.skip(n as int) =~= data@.skip(i + n));
            if n > 1 {
                multibyte += n;
            }
            i += n;
        }
        assert(data@.skip(len as int) =~= Seq::<u8>::empty());
        if multibyte == 0 {
            Some(Confidence::new(1, 2))
        } else {
            let total: u128 = len as u128;
            Some(Confidence::new(7 * total + 3 * (multibyte as u128), 10 * total))
        }
    }

    /// The UTF-16 scorer.
    pub fn detect_utf16(&self, data: &[u8]) -> (r: Option<(Encoding, Confidence)>)
        ensures
            match r {
                Some((encoding, c)) => utf16_candidate(data@) == Some((encoding, c@)),
                None => utf16_candidate(data@) is None,
            },
    {
        let len: usize = data.len();
        if len < 2 || len % 2 != 0 {
            return None;
        }
        let units: usize = len / 2;
        let mut le_tally: u128 = 0;
        let mut be_tally: u128 = 0;
        let mut k: usize = 0;
        while k < units
            invariant
                k <= units,
                2 * units == len == data@.len(),
                le_tally == tally(data@, false, k as nat),
                be_tally == tally(data@, true, k as nat),
                le_tally <= 3 * k,
                be_tally <= 3 * k,
            decreases units - k,
        {
            let first = data[2 * k];
            let second = data[2 * k + 1];
            if second == 0 && first < 0x80 {
                le_tally += 2;
            }
            if first == 0 && second < 0x80 {
                be_tally += 2;
            }
            if first == 0 && second != 0 {
                be_tally += 1;
            } else if second == 0 && first != 0 {
                le_tally += 1;
            }
            k += 1;
        }
        let count: u128 = units as u128;
        let ghost le = utf16_score(data@, false);
        let ghost be = utf16_score(data@, true);
        proof {
            let x = le_tally as int;
            let y = be_tally as int;
            let d = 2 * count as int;
            assert(le == Ratio::of(x, d));
            assert(be == Ratio::of(y, d));
            assert((x * d > y * d) == (x > y) && (y * d > x * d) == (y > x)) by (nonlinear_arith)
                requires
                    d > 0,
            ;
            lemma_ratio_values(le, be, x, d, y, d);
            lemma_ratio_values(be, le, y, d, x, d);
            lemma_ratio_values(le, Ratio::of(3, 5), x, d, 3, 5);
            lemma_ratio_values(be, Ratio::of(3, 5), y, d, 3, 5);
            lemma_ratio_values(le, Ratio::of(4, 5), x, d, 4, 5);
            lemma_ratio_values(be, Ratio::of(4, 5), y, d, 4, 5);
        }
        if le_tally > be_tally && 5 * le_tally > 6 * count {
            Some((Encoding::UTF16LE, Confidence::new(le_tally * 4, (2 * count) * 5)))
        } else if be_tally > le_tally && 5 * be_tally > 6 * count {
            Some((Encoding::UTF16BE, Confidence::new(be_tally * 4, (2 * count) * 5)))
        } else {
            None
        }
    }

    /// The ASCII scorer.
    pub fn detect_ascii(&self, data: &[u8]) -> (r: Option<Confidence>)
        ensures
            confidence_view(r) == ascii_confidence(data@),
    {
        let mut i: usize = 0;
        while i < data.len()
            invariant
                i <= data@.len(),
                forall|j: int| 0 <= j < i ==> (#[trigger] data@[j]) < 0x80,
            decreases data@.len() - i,
        {
            if data[i] >= 0x80 {
                return None;
            }
            i += 1;
        }
        Some(Confidence::new(4, 5))
    }

    /// How many of the bytes of `chars` occur in `data`.
    pub fn score_characteristic_bytes(&self, data: &[u8], chars: &[u8]) -> (found: usize)
        ensures
            found == present(data@, chars@, chars@.len()),
            found <= chars@.len(),
    {
        let mut found: usize = 0;
        let mut k: usize = 0;
        while k < chars.len()
            invariant
                k <= chars@.len(),
                found == present(data@, chars@, k as nat),
                found <= k,
            decreases chars@.len() - k,
        {
            if contains_byte(data, chars[k]) {
                found += 1;
            }
            k += 1;
        }
        found
    }

    /// A scorer over a set of characteristic bytes, with the weight
    /// `weight_num / weight_den`, which is at most one.
    fn detect_marks(&self, data: &[u8], marks: &[u8], weight_num: u8, weight_den: u8) -> (r:
        Option<Confidence>)
        requires
            0 < marks@.len() < 256,
            0 < weight_num <= weight_den,
        ensures
            confidence_view(r) == marks_confidence(
                data@,
                marks@,
                Ratio::of(weight_num as int, weight_den as int),
            ),
    {
        let found = self.score_characteristic_bytes(data, marks);
        if found > 0 {
            let count: u128 = marks.len() as u128;
            assert(found * weight_num <= 2 * (count * weight_den) && 0 < count * weight_den
                <= 0x10000) by (nonlinear_arith)
                requires
                    0 < found <= count < 256,
                    0 < weight_num <= weight_den < 256,
            ;
            Some(Confidence::new((found as u128) * (weight_num as u128), count * (weight_den as u128)))
        } else {
            None
        }
    }

    /// The scorers of the Windows code pages.
    pub fn detect_windows_codepages(&self, data: &[u8]) -> (r: Vec<(Encoding, Confidence)>)
        ensures
            candidates_view(r@) == windows_entries(data@),
    {
        let mut results: Vec<(Encoding, Confidence)> = Vec::new();
        if let Some(c) = self.detect_marks(data, WINDOWS_1252_MARKS.as_slice(), 3, 5) {
            results.push((Encoding::WINDOWS_1252, c));
        }
        if let Some(c) = self.detect_marks(data, WINDOWS_1250_MARKS.as_slice(), 3, 5) {
            results.push((Encoding::WINDOWS_1250, c));
        }
        assert(candidates_view(results@) =~= windows_entries(data@));
        results
    }

    /// The scorers of the ISO encodings.
    pub fn detect_iso_encodings(&self, data: &[u8]) -> (r: Vec<(Encoding, Confidence)>)
        ensures
            candidates_view(r@) == iso_entries(data@),
    {
        let mut results: Vec<(Encoding, Confidence)> = Vec::new();
        let mut has_high = false;
        let mut i: usize = 0;
        while i < data.len()
            invariant
                i <= data@.len(),
                has_high ==> has_high_latin(data@),
                !has_high ==> forall|j: int| 0 <= j < i ==> (#[trigger] data@[j]) < 0xA0,
            decreases data@.len() - i,
        {
            if data[i] >= 0xA0 {
                has_high = true;
            }
            i += 1;
        }
        if has_high {
            results.push((Encoding::ISO_8859_1, Confidence::new(1, 2)));
        }
        if contains_byte(data, 0xA4) {
            results.push((Encoding::ISO_8859_15, Confidence::new(3, 5)));
        }
        assert(candidates_view(results@) =~= iso_entries(data@));
        results
    }

    /// The EBCDIC scorer.
    pub fn detect_ebcdic(&self, data: &[u8]) -> (r: Option<Confidence>)
        ensures
            confidence_view(r) == ebcdic_confidence(data@),
    {
        let digits = self.score_characteristic_bytes(data, EBCDIC_DIGITS.as_slice());
        let letters = self.score_characteristic_bytes(data, EBCDIC_LETTERS.as_slice());
        let len: usize = data.len();
        let mut low: usize = 0;
        let mut i: usize = 0;
        while i < len
            invariant
                i <= len == data@.len(),
                low == below(data@, 0x40, i as nat),
                low <= i,
            decreases len - i,
        {
            if data[i] < 0x40 {
                low += 1;
            }
            i += 1;
        }
        let num: u128 = (digits as u128) * 10 + (2 * (letters as u128)) * 11;
        let halved = 10 * (low as u128) > 3 * (len as u128);
        let den: u128 = if halved {
            220
        } else {
            110
        };
        assert(EBCDIC_DIGITS@.len() == 11 && EBCDIC_LETTERS@.len() == 10);
        assert(digits == present(data@, EBCDIC_DIGITS@, 11));
        assert(letters == present(data@, EBCDIC_LETTERS@, 10));
        proof {
            let presence = Ratio::of(num as int, 110);
            let score = Ratio::of(num as int, den as int);
            lemma_ratio_values(
                Ratio::of(digits as int, 11),
                Ratio::of(2 * letters as int, 10),
                digits as int,
                11,
                2 * letters as int,
                10,
            );
            assert(ebcdic_presence(data@) == presence);
            lemma_ratio_values(presence, Ratio::of(1, 2), num as int, 110, 1, 2);
            assert(ebcdic_score(data@) == score);
            lemma_ratio_values(score, Ratio::of(1, 10), num as int, den as int, 1, 10);
            lemma_ratio_values(Ratio::of(4, 5), score, 4, 5, num as int, den as int);
        }
        if num * 10 > den {
            if 4 * den >= num * 5 {
                Some(Confidence::new(num, den))
            } else {
                Some(Confidence::new(4, 5))
            }
        } else {
            None
        }
    }

    /// The scorers of the DOS code pages.
    pub fn detect_dos_codepages(&self, data: &[u8]) -> (r: Vec<(Encoding, Confidence)>)
        ensures
            candidates_view(r@) == entry(Encoding::CP_437, cp437_confidence(data@)),
    {
        let mut results: Vec<(Encoding, Confidence)> = Vec::new();
        if let Some(c) = self.detect_marks(data, CP437_BOXES.as_slice(), 7, 10) {
            results.push((Encoding::CP_437, c));
        }
        assert(candidates_view(results@) =~= entry(Encoding::CP_437, cp437_confidence(data@)));
        results
    }
}

/// What a detection found.
#[derive(Debug, Clone)]
pub struct DetectionResult {
    /// The most likely encoding.
    pub encoding: Encoding,
    /// How confident the detection is of it.
    pub confidence: Confidence,
    /// Whether a byte-order mark decided.
    pub bom_detected: bool,
    /// All candidates with their confidences, the most confident first.
    pub candidates: Vec<(Encoding, Confidence)>,
}

impl DetectionResult {
    /// Whether the result is the detection `d`: the same encoding and flag,
    /// the same candidates in the same order, and confidences that are the
    /// same numbers.
    pub open spec fn agrees(&self, d: Detection) -> bool {
        &&& self.encoding == d.encoding
        &&& self.confidence@.same(d.confidence)
        &&& self.bom_detected == d.bom_detected
        &&& same_candidates(candidates_view(self.candidates@), d.candidates)
    }
}

/// Adds what a scorer found to the pool, written over the denominator
/// `scale`. `so_far` is what the scorers before it have registered.
fn register(
    pool: &mut Vec<(Encoding, Confidence)>,
    encoding: Encoding,
    found: Option<Confidence>,
    scale: u128,
    Ghost(so_far): Ghost<Seq<(Encoding, Ratio)>>,
)
    requires
        0 < scale <= MAX_DENOMINATOR,
        all_on_scale(entry(encoding, confidence_view(found)), scale as int),
        same_candidates(candidates_view(old(pool)@), so_far),
        forall|i: int| 0 <= i < old(pool)@.len() ==> (#[trigger] old(pool)@[i]).1@.den == scale,
    ensures
        same_candidates(
            candidates_view(final(pool)@),
            so_far + entry(encoding, confidence_view(found)),
        ),
        forall|i: int| 0 <= i < final(pool)@.len() ==> (#[trigger] final(pool)@[i]).1@.den == scale,
{
    match found {
        Some(c) => {
            let ghost added = entry(encoding, confidence_view(found));
            assert(added[0] == (encoding, c@));
            assert(on_scale(added[0].1, scale as int));
            let scaled = c.rescaled(scale);
            pool.push((encoding, scaled));
            proof {
                let now = candidates_view(pool@);
                let then = candidates_view(old(pool)@);
                let target = so_far + added;
                assert forall|i: int| 0 <= i < now.len() implies (#[trigger] now[i]).0
                    == target[i].0 && now[i].1.same(target[i].1) by {
                    if i < then.len() {
                        assert(now[i] == then[i]);
                        assert(then[i].0 == so_far[i].0);
                    }
                }
            }
        },
        None => {
            assert(so_far + entry(encoding, confidence_view(found)) =~= so_far);
        },
    }
}

/// Adds what a group of scorers found to the pool.
fn register_all(
    pool: &mut Vec<(Encoding, Confidence)>,
    found: Vec<(Encoding, Confidence)>,
    scale: u128,
    Ghost(so_far): Ghost<Seq<(Encoding, Ratio)>>,
)
    requires
        0 < scale <= MAX_DENOMINATOR,
        all_on_scale(candidates_view(found@), scale as int),
        same_candidates(candidates_view(old(pool)@), so_far),
        forall|i: int| 0 <= i < old(pool)@.len() ==> (#[trigger] old(pool)@[i]).1@.den == scale,
    ensures
        same_candidates(candidates_view(final(pool)@), so_far + candidates_view(found@)),
        forall|i: int| 0 <= i < final(pool)@.len() ==> (#[trigger] final(pool)@[i]).1@.den == scale,
{
    let mut k: usize = 0;
    let ghost all = candidates_view(found@);
    assert(so_far + all.take(0) =~= so_far);
    while k < found.len()
        invariant
            k <= found@.len(),
            0 < scale <= MAX_DENOMINATOR,
            all == candidates_view(found@),
            all_on_scale(all, scale as int),
            same_candidates(candidates_view(pool@), so_far + all.take(k as int)),
            forall|i: int| 0 <= i < pool@.len() ==> (#[trigger] pool@[i]).1@.den == scale,
        decreases found@.len() - k,
    {
        let (encoding, c) = found[k];
        proof {
            assert(all[k as int] == (encoding, c@));
            assert(on_scale(all[k as int].1, scale as int));
            assert(so_far + all.take(k as int) + entry(encoding, Some(c@)) =~= so_far + all.take(
                k + 1,
            ));
        }
        register(pool, encoding, Some(c), scale, Ghost(so_far + all.take(k as int)));
        k += 1;
    }
    assert(all.take(found@.len() as int) =~= all);
}

impl EncodingDetector {
    /// Detects the encoding of `data`, of which no more than the sample limit
    /// is looked at.
    pub fn detect(&self, data: &[u8]) -> (r: DetectionResult)
        ensures
            r.agrees(detect_spec(sample_of(data@, self.sample_limit() as int))),
    {
        self.detect_sample(data)
    }

    /// Detects the encoding of `data` and raises the confidence of the result
    /// where its encoding suits the languages that the hint names. The hint
    /// is read without regard to case. It changes neither the encoding that
    /// is given nor the list of candidates.
    pub fn detect_with_hint(&self, data: &[u8], language_hint: &str) -> (r: DetectionResult)
        ensures
            r.agrees(
                hinted(
                    detect_spec(sample_of(data@, self.sample_limit() as int)),
                    group_of(lowercase_of(language_hint@)),
                ),
            ),
    {
        let result = self.detect_sample(data);
        let lowered = to_lowercase(language_hint);
        let ghost d = detect_spec(sample_of(data@, self.sample_limit() as int));
        let ghost group = group_of(lowered@);
        let ghost before = result.confidence@;
        let hinted_result = apply_hint(result, lowered.as_str());
        proof {
            lemma_detect_spec(sample_of(data@, self.sample_limit() as int));
            lemma_boosted_same(group, d.encoding, before, d.confidence);
            lemma_same_transitive(
                hinted_result.confidence@,
                boosted(group, d.encoding, before),
                boosted(group, d.encoding, d.confidence),
            );
        }
        hinted_result
    }

    /// The detection itself; the confidence of its result is stored so that a
    /// hint can raise it.
    fn detect_sample(&self, data: &[u8]) -> (r: DetectionResult)
        ensures
            r.agrees(detect_spec(sample_of(data@, self.sample_limit() as int))),
            boostable(r.confidence@),
            r.confidence@.den > 0,
    {
        let sample = if data.len() > self.max_sample_size {
            slice_subrange(data, 0, self.max_sample_size)
        } else {
            data
        };
        assert(sample@ == sample_of(data@, self.sample_limit() as int));
        if let Some((encoding, _bom_len)) = self.detect_bom(sample) {
            let certain = Confidence::new(1, 1);
            let mut candidates: Vec<(Encoding, Confidence)> = Vec::new();
            candidates.push((encoding, certain));
            assert(candidates_view(candidates@) =~= seq![(encoding, Ratio::of(1, 1))]);
            return DetectionResult {
                encoding,
                confidence: certain,
                bom_detected: true,
                candidates,
            };
        }
        let len: usize = sample.len();
        let scale: u128 = if len == 0 {
            880
        } else {
            880 * (len as u128)
        };
        assert(scale == scale_of(sample@));
        proof {
            lemma_utf8_entry(sample@);
            lemma_utf16_entry(sample@);
            lemma_fixed_entries(sample@);
            lemma_marks_entries(sample@);
            lemma_ebcdic_entry(sample@);
            lemma_pool(sample@);
        }
        let mut registered: Vec<(Encoding, Confidence)> = Vec::new();
        let ghost e0 = Seq::<(Encoding, Ratio)>::empty();
        assert(candidates_view(registered@) =~= e0);

        let utf8 = self.detect_utf8(sample);
        register(&mut registered, Encoding::UTF8, utf8, scale, Ghost(e0));
        let ghost e1 = e0 + entry(Encoding::UTF8, utf8_confidence(sample@));

        match self.detect_utf16(sample) {
            Some((encoding, c)) => {
                assert(entry(encoding, Some(c@)) =~= utf16_entry(sample@));
                register(&mut registered, encoding, Some(c), scale, Ghost(e1));
            },
            None => {
                assert(e1 + utf16_entry(sample@) =~= e1);
            },
        }
        let ghost e2 = e1 + utf16_entry(sample@);

        let ascii = self.detect_ascii(sample);
        register(&mut registered, Encoding::ASCII, ascii, scale, Ghost(e2));
        let ghost e3 = e2 + entry(Encoding::ASCII, ascii_confidence(sample@));

        let windows = self.detect_windows_codepages(sample);
        register_all(&mut registered, windows, scale, Ghost(e3));
        let ghost e4 = e3 + windows_entries(sample@);

        let iso = self.detect_iso_encodings(sample);
        register_all(&mut registered, iso, scale, Ghost(e4));
        let ghost e5 = e4 + iso_entries(sample@);

        let ebcdic = self.detect_ebcdic(sample);
        register(&mut registered, Encoding::EBCDIC_037, ebcdic, scale, Ghost(e5));
        let ghost e6 = e5 + entry(Encoding::EBCDIC_037, ebcdic_confidence(sample@));

        let dos = self.detect_dos_codepages(sample);
        register_all(&mut registered, dos, scale, Ghost(e6));
        let ghost e7 = e6 + entry(Encoding::CP_437, cp437_confidence(sample@));

        proof {
            assert(e7 =~= pool(sample@));
            assert(proper(candidates_view(registered@)));
            lemma_ranked_same(candidates_view(registered@), pool(sample@));
            let on_one_scale = |c: (Encoding, Ratio)| c.1.den == scale as int;
            assert forall|i: int| 0 <= i < candidates_view(registered@).len() implies on_one_scale(
                #[trigger] candidates_view(registered@)[i],
            ) by {
                assert(registered@[i].1@.den == scale);
            }
            lemma_ranked_keeps(candidates_view(registered@), on_one_scale);
            assert(ranked(candidates_view(registered@)).len() > 0 ==> on_one_scale(
                ranked(candidates_view(registered@))[0],
            ));
        }
        let candidates = rank(registered);
        if candidates.len() > 0 {
            let (encoding, confidence) = candidates[0];
            assert(candidates_view(candidates@)[0] == (encoding, confidence@));
            DetectionResult { encoding, confidence, bom_detected: false, candidates }
        } else {
            DetectionResult {
                encoding: Encoding::ASCII,
                confidence: Confidence::new(1, 2),
                bom_detected: false,
                candidates,
            }
        }
    }
}

} // verus!
