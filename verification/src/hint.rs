//! Language hints: a hint names a group of languages, and a detection whose
//! encoding suits the group has its confidence raised.

use crate::confidence::{lemma_at_least_respects_same, Ratio, MAX_DENOMINATOR};
use crate::detection::{Detection, DetectionResult};
use crate::encoding::Encoding;
use vstd::prelude::*;
use vstd::string::*;

verus! {

/// The lower-case form of a text, as `str::to_lowercase` gives it.
pub uninterp spec fn lowercase_of(text: Seq<char>) -> Seq<char>;

/// `str::to_lowercase` gives the lower-case form of `text`. It goes by the
/// Unicode character database alone, so the same text always has the same
/// lower-case form.
#[verifier::external_body]
pub(crate) fn to_lowercase(text: &str) -> (lowered: String)
    ensures
        lowered@ == lowercase_of(text@),
{
    text.to_lowercase()
}

/// The groups of languages that a hint can name.
#[derive(Debug, Clone, Copy, PartialEq, Eq, Structural)]
pub enum LanguageGroup {
    /// English.
    English,
    /// German, French and Spanish.
    Western,
    /// Polish, Czech and Hungarian.
    Central,
    /// Russian, and Cyrillic script at large.
    Cyrillic,
    /// A hint that names none of these.
    Other,
}

/// The group that a hint in lower case names.
pub open spec fn group_of(lowered: Seq<char>) -> LanguageGroup {
    if lowered == "english"@ || lowered == "en"@ {
        LanguageGroup::English
    } else if lowered == "german"@ || lowered == "de"@ || lowered == "french"@ || lowered == "fr"@
        || lowered == "spanish"@ || lowered == "es"@ {
        LanguageGroup::Western
    } else if lowered == "polish"@ || lowered == "pl"@ || lowered == "czech"@ || lowered == "cz"@
        || lowered == "hungarian"@ || lowered == "hu"@ {
        LanguageGroup::Central
    } else if lowered == "russian"@ || lowered == "ru"@ || lowered == "cyrillic"@ {
        LanguageGroup::Cyrillic
    } else {
        LanguageGroup::Other
    }
}

/// Whether an encoding suits a group of languages.
pub open spec fn allows(group: LanguageGroup, encoding: Encoding) -> bool {
    match group {
        LanguageGroup::English => encoding.is_ascii_compatible(),
        LanguageGroup::Western => encoding == Encoding::ISO_8859_1 || encoding
            == Encoding::ISO_8859_15 || encoding == Encoding::WINDOWS_1252,
        LanguageGroup::Central => encoding == Encoding::WINDOWS_1250 || encoding
            == Encoding::ISO_8859_2,
        LanguageGroup::Cyrillic => encoding == Encoding::WINDOWS_1251 || encoding
            == Encoding::ISO_8859_5,
        LanguageGroup::Other => false,
    }
}

/// The factor by which a group raises the confidence: 6/5 for English, 13/10
/// for the others.
pub open spec fn factor(group: LanguageGroup) -> Ratio {
    match group {
        LanguageGroup::English => Ratio::of(6, 5),
        _ => Ratio::of(13, 10),
    }
}

/// The confidence after the hint: raised by the factor of the group, to one at
/// most, where the encoding suits the group; else as it was.
pub open spec fn boosted(group: LanguageGroup, encoding: Encoding, confidence: Ratio) -> Ratio {
    if allows(group, encoding) {
        confidence.times(factor(group)).min(Ratio::of(1, 1))
    } else {
        confidence
    }
}

/// Whether a confidence is stored with a denominator small enough for it to be
/// raised by a hint.
pub open spec fn boostable(confidence: Ratio) -> bool {
    confidence.den * 10 <= MAX_DENOMINATOR
}

/// A detection after a hint: only the confidence of the result changes. The
/// encoding stays, and the candidates keep their confidences and their order.
pub open spec fn hinted(d: Detection, group: LanguageGroup) -> Detection {
    Detection {
        encoding: d.encoding,
        confidence: boosted(group, d.encoding, d.confidence),
        bom_detected: d.bom_detected,
        candidates: d.candidates,
    }
}

/// Whether two texts are the same characters.
pub fn same_text(a: &str, b: &str) -> (r: bool)
    ensures
        r == (a@ == b@),
{
    let len = a.unicode_len();
    if len != b.unicode_len() {
        return false;
    }
    let mut i: usize = 0;
    while i < len
        invariant
            i <= len,
            len == a@.len(),
            len == b@.len(),
            forall|j: int| 0 <= j < i ==> a@[j] == b@[j],
        decreases len - i,
    {
        if a.get_char(i) != b.get_char(i) {
            return false;
        }
        i += 1;
    }
    assert(a@ =~= b@);
    true
}

/// The group that a hint in lower case names.
pub fn language_group(lowered: &str) -> (group: LanguageGroup)
    ensures
        group == group_of(lowered@),
{
    if same_text(lowered, "english") || same_text(lowered, "en") {
        LanguageGroup::English
    } else if same_text(lowered, "german") || same_text(lowered, "de") || same_text(
        lowered,
        "french",
    ) || same_text(lowered, "fr") || same_text(lowered, "spanish") || same_text(lowered, "es") {
        LanguageGroup::Western
    } else if same_text(lowered, "polish") || same_text(lowered, "pl") || same_text(
        lowered,
        "czech",
    ) || same_text(lowered, "cz") || same_text(lowered, "hungarian") || same_text(lowered, "hu") {
        LanguageGroup::Central
    } else if same_text(lowered, "russian") || same_text(lowered, "ru") || same_text(
        lowered,
        "cyrillic",
    ) {
        LanguageGroup::Cyrillic
    } else {
        LanguageGroup::Other
    }
}

/// Whether an encoding suits a group of languages.
pub fn suits(group: LanguageGroup, encoding: Encoding) -> (r: bool)
    ensures
        r == allows(group, encoding),
{
    match group {
        LanguageGroup::English => encoding.is_ascii_compatible(),
        LanguageGroup::Western => matches!(
            encoding,
            Encoding::ISO_8859_1 | Encoding::ISO_8859_15 | Encoding::WINDOWS_1252
        ),
        LanguageGroup::Central => matches!(encoding, Encoding::WINDOWS_1250 | Encoding::ISO_8859_2),
        LanguageGroup::Cyrillic => matches!(
            encoding,
            Encoding::WINDOWS_1251 | Encoding::ISO_8859_5
        ),
        LanguageGroup::Other => false,
    }
}

/// Raises the confidence of a detection where its encoding suits the group
/// that the hint names. `lowered` is the hint in lower case.
pub fn apply_hint(result: DetectionResult, lowered: &str) -> (r: DetectionResult)
    requires
        boostable(result.confidence@),
    ensures
        r.encoding == result.encoding,
        r.bom_detected == result.bom_detected,
        r.candidates == result.candidates,
        r.confidence@.same(boosted(group_of(lowered@), result.encoding, result.confidence@)),
        r.confidence@.den > 0,
{
    let group = language_group(lowered);
    if suits(group, result.encoding) {
        let confidence = match group {
            LanguageGroup::English => result.confidence.boosted_by(6, 5),
            _ => result.confidence.boosted_by(13, 10),
        };
        DetectionResult {
            encoding: result.encoding,
            confidence,
            bom_detected: result.bom_detected,
            candidates: result.candidates,
        }
    } else {
        let _ = result.confidence.denominator();
        result
    }
}

/// Raising two confidences that are the same number gives the same number.
pub proof fn lemma_boosted_same(group: LanguageGroup, encoding: Encoding, a: Ratio, b: Ratio)
    requires
        a.den > 0,
        b.den > 0,
        a.same(b),
    ensures
        boosted(group, encoding, a).same(boosted(group, encoding, b)),
        boosted(group, encoding, a).den > 0,
        boosted(group, encoding, b).den > 0,
{
    if allows(group, encoding) {
        let f = factor(group);
        let pa = a.times(f);
        let pb = b.times(f);
        assert(f.den > 0 && f.num > 0);
        assert(pa.same(pb) && pa.den > 0 && pb.den > 0) by (nonlinear_arith)
            requires
                a.num * b.den == b.num * a.den,
                pa == Ratio::of(a.num * f.num, a.den * f.den),
                pb == Ratio::of(b.num * f.num, b.den * f.den),
                a.den > 0,
                b.den > 0,
                f.den > 0,
        {
            assert((a.num * f.num) * (b.den * f.den) == (a.num * b.den) * (f.num * f.den));
            assert((b.num * f.num) * (a.den * f.den) == (b.num * a.den) * (f.num * f.den));
        }
        let one = Ratio::of(1, 1);
        lemma_at_least_respects_same(one, one, pa, pb);
    }
}

/// A hint never lowers a confidence that is at most one, and leaves it alone
/// where the encoding does not suit the group.
pub proof fn lemma_boosted_at_least(group: LanguageGroup, encoding: Encoding, c: Ratio)
    requires
        c.den > 0,
        0 <= c.num <= c.den,
    ensures
        boosted(group, encoding, c).at_least(c),
        !allows(group, encoding) ==> boosted(group, encoding, c) == c,
{
    if allows(group, encoding) {
        let f = factor(group);
        let p = c.times(f);
        assert(f.num >= f.den > 0);
        assert(p.at_least(c)) by (nonlinear_arith)
            requires
                p == Ratio::of(c.num * f.num, c.den * f.den),
                f.num >= f.den > 0,
                c.den > 0,
                c.num >= 0,
        {
            assert((c.num * f.num) * c.den == (c.num * c.den) * f.num);
            assert(c.num * (c.den * f.den) == (c.num * c.den) * f.den);
            assert((c.num * c.den) * f.num >= (c.num * c.den) * f.den);
        }
    }
}

} // verus!
