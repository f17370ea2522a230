//! The names by which an encoding can be asked for.

use crate::encoding::Encoding;
use crate::hint::same_text;
use vstd::prelude::*;

verus! {

/// The upper-case form of a text, as `str::to_uppercase` gives it.
pub uninterp spec fn uppercase_of(text: Seq<char>) -> Seq<char>;

/// `str::to_uppercase` gives the upper-case form of `text`. It goes by the
/// Unicode character database alone, so the same text always has the same
/// upper-case form.
#[verifier::external_body]
fn to_uppercase(text: &str) -> (raised: String)
    ensures
        raised@ == uppercase_of(text@),
{
    text.to_uppercase()
}

/// The encoding that a label in upper case names, if it names one.
pub open spec fn encoding_of(label: Seq<char>) -> Option<Encoding> {
    if label == "UTF8"@ || label == "UTF-8"@ {
        Some(Encoding::UTF8)
    } else if label == "UTF16LE"@ || label == "UTF-16LE"@ {
        Some(Encoding::UTF16LE)
    } else if label == "UTF16BE"@ || label == "UTF-16BE"@ {
        Some(Encoding::UTF16BE)
    } else if label == "ASCII"@ || label == "US-ASCII"@ {
        Some(Encoding::ASCII)
    } else if label == "ISO88591"@ || label == "ISO-8859-1"@ || label == "LATIN1"@ {
        Some(Encoding::ISO_8859_1)
    } else if label == "ISO88592"@ || label == "ISO-8859-2"@ || label == "LATIN2"@ {
        Some(Encoding::ISO_8859_2)
    } else if label == "ISO88593"@ || label == "ISO-8859-3"@ || label == "LATIN3"@ {
        Some(Encoding::ISO_8859_3)
    } else if label == "ISO88594"@ || label == "ISO-8859-4"@ || label == "LATIN4"@ {
        Some(Encoding::ISO_8859_4)
    } else if label == "ISO88595"@ || label == "ISO-8859-5"@ {
        Some(Encoding::ISO_8859_5)
    } else if label == "ISO88596"@ || label == "ISO-8859-6"@ {
        Some(Encoding::ISO_8859_6)
    } else if label == "ISO88597"@ || label == "ISO-8859-7"@ {
        Some(Encoding::ISO_8859_7)
    } else if label == "ISO88598"@ || label == "ISO-8859-8"@ {
        Some(Encoding::ISO_8859_8)
    } else if label == "ISO88599"@ || label == "ISO-8859-9"@ || label == "LATIN5"@ {
        Some(Encoding::ISO_8859_9)
    } else if label == "ISO885910"@ || label == "ISO-8859-10"@ || label == "LATIN6"@ {
        Some(Encoding::ISO_8859_10)
    } else if label == "ISO885911"@ || label == "ISO-8859-11"@ {
        Some(Encoding::ISO_8859_11)
    } else if label == "ISO885913"@ || label == "ISO-8859-13"@ || label == "LATIN7"@ {
        Some(Encoding::ISO_8859_13)
    } else if label == "ISO885914"@ || label == "ISO-8859-14"@ || label == "LATIN8"@ {
        Some(Encoding::ISO_8859_14)
    } else if label == "ISO885915"@ || label == "ISO-8859-15"@ || label == "LATIN9"@ {
        Some(Encoding::ISO_8859_15)
    } else if label == "ISO885916"@ || label == "ISO-8859-16"@ || label == "LATIN10"@ {
        Some(Encoding::ISO_8859_16)
    } else if label == "WINDOWS1250"@ || label == "WIN1250"@ || label == "CP1250"@ {
        Some(Encoding::WINDOWS_1250)
    } else if label == "WINDOWS1251"@ || label == "WIN1251"@ || label == "CP1251"@ {
        Some(Encoding::WINDOWS_1251)
    } else if label == "WINDOWS1252"@ || label == "WIN1252"@ || label == "CP1252"@ {
        Some(Encoding::WINDOWS_1252)
    } else if label == "WINDOWS1253"@ || label == "WIN1253"@ || label == "CP1253"@ {
        Some(Encoding::WINDOWS_1253)
    } else if label == "WINDOWS1254"@ || label == "WIN1254"@ || label == "CP1254"@ {
        Some(Encoding::WINDOWS_1254)
    } else if label == "WINDOWS1255"@ || label == "WIN1255"@ || label == "CP1255"@ {
        Some(Encoding::WINDOWS_1255)
    } else if label == "WINDOWS1256"@ || label == "WIN1256"@ || label == "CP1256"@ {
        Some(Encoding::WINDOWS_1256)
    } else if label == "WINDOWS1257"@ || label == "WIN1257"@ || label == "CP1257"@ {
        Some(Encoding::WINDOWS_1257)
    } else if label == "WINDOWS1258"@ || label == "WIN1258"@ || label == "CP1258"@ {
        Some(Encoding::WINDOWS_1258)
    } else if label == "WINDOWS874"@ || label == "WIN874"@ || label == "CP874"@ {
        Some(Encoding::WINDOWS_874)
    } else if label == "EBCDIC037"@ || label == "IBM037"@ || label == "CP037"@ {
        Some(Encoding::EBCDIC_037)
    } else if label == "EBCDIC273"@ || label == "IBM273"@ || label == "CP273"@ {
        Some(Encoding::EBCDIC_273)
    } else if label == "EBCDIC277"@ || label == "IBM277"@ || label == "CP277"@ {
        Some(Encoding::EBCDIC_277)
    } else if label == "EBCDIC278"@ || label == "IBM278"@ || label == "CP278"@ {
        Some(Encoding::EBCDIC_278)
    } else if label == "EBCDIC280"@ || label == "IBM280"@ || label == "CP280"@ {
        Some(Encoding::EBCDIC_280)
    } else if label == "EBCDIC284"@ || label == "IBM284"@ || label == "CP284"@ {
        Some(Encoding::EBCDIC_284)
    } else if label == "EBCDIC285"@ || label == "IBM285"@ || label == "CP285"@ {
        Some(Encoding::EBCDIC_285)
    } else if label == "EBCDIC297"@ || label == "IBM297"@ || label == "CP297"@ {
        Some(Encoding::EBCDIC_297)
    } else if label == "EBCDIC500"@ || label == "IBM500"@ || label == "CP500"@ {
        Some(Encoding::EBCDIC_500)
    } else if label == "EBCDIC1047"@ || label == "IBM1047"@ || label == "CP1047"@ {
        Some(Encoding::EBCDIC_1047)
    } else if label == "CP437"@ || label == "DOS437"@ {
        Some(Encoding::CP_437)
    } else if label == "CP850"@ || label == "DOS850"@ {
        Some(Encoding::CP_850)
    } else if label == "CP852"@ || label == "DOS852"@ {
        Some(Encoding::CP_852)
    } else if label == "CP855"@ || label == "DOS855"@ {
        Some(Encoding::CP_855)
    } else if label == "CP857"@ || label == "DOS857"@ {
        Some(Encoding::CP_857)
    } else if label == "CP860"@ || label == "DOS860"@ {
        Some(Encoding::CP_860)
    } else if label == "CP861"@ || label == "DOS861"@ {
        Some(Encoding::CP_861)
    } else if label == "CP862"@ || label == "DOS862"@ {
        Some(Encoding::CP_862)
    } else if label == "CP863"@ || label == "DOS863"@ {
        Some(Encoding::CP_863)
    } else if label == "CP865"@ || label == "DOS865"@ {
        Some(Encoding::CP_865)
    } else if label == "CP866"@ || label == "DOS866"@ {
        Some(Encoding::CP_866)
    } else if label == "MACROMAN"@ || label == "MAC-ROMAN"@ {
        Some(Encoding::MAC_ROMAN)
    } else if label == "MACCYRILLIC"@ || label == "MAC-CYRILLIC"@ {
        Some(Encoding::MAC_CYRILLIC)
    } else if label == "SHIFTJIS"@ || label == "SHIFT-JIS"@ || label == "SHIFT_JIS"@ {
        Some(Encoding::SHIFT_JIS)
    } else if label == "EUCJP"@ || label == "EUC-JP"@ || label == "EUC_JP"@ {
        Some(Encoding::EUC_JP)
    } else if label == "GB2312"@ {
        Some(Encoding::GB2312)
    } else if label == "BIG5"@ {
        Some(Encoding::BIG5)
    } else if label == "EUCKR"@ || label == "EUC-KR"@ || label == "EUC_KR"@ {
        Some(Encoding::EUC_KR)
    } else {
        None
    }
}

/// The encoding that a label in upper case names, if it names one.
pub fn encoding_for_label(label: &str) -> (r: Option<Encoding>)
    ensures
        r == encoding_of(label@),
{
    if same_text(label, "UTF8") || same_text(label, "UTF-8") {
        Some(Encoding::UTF8)
    } else if same_text(label, "UTF16LE") || same_text(label, "UTF-16LE") {
        Some(Encoding::UTF16LE)
    } else if same_text(label, "UTF16BE") || same_text(label, "UTF-16BE") {
        Some(Encoding::UTF16BE)
    } else if same_text(label, "ASCII") || same_text(label, "US-ASCII") {
        Some(Encoding::ASCII)
    } else if same_text(label, "ISO88591") || same_text(label, "ISO-8859-1") || same_text(label, "LATIN1") {
        Some(Encoding::ISO_8859_1)
    } else if same_text(label, "ISO88592") || same_text(label, "ISO-8859-2") || same_text(label, "LATIN2") {
        Some(Encoding::ISO_8859_2)
    } else if same_text(label, "ISO88593") || same_text(label, "ISO-8859-3") || same_text(label, "LATIN3") {
        Some(Encoding::ISO_8859_3)
    } else if same_text(label, "ISO88594") || same_text(label, "ISO-8859-4") || same_text(label, "LATIN4") {
        Some(Encoding::ISO_8859_4)
    } else if same_text(label, "ISO88595") || same_text(label, "ISO-8859-5") {
        Some(Encoding::ISO_8859_5)
    } else if same_text(label, "ISO88596") || same_text(label, "ISO-8859-6") {
        Some(Encoding::ISO_8859_6)
    } else if same_text(label, "ISO88597") || same_text(label, "ISO-8859-7") {
        Some(Encoding::ISO_8859_7)
    } else if same_text(label, "ISO88598") || same_text(label, "ISO-8859-8") {
        Some(Encoding::ISO_8859_8)
    } else if same_text(label, "ISO88599") || same_text(label, "ISO-8859-9") || same_text(label, "LATIN5") {
        Some(Encoding::ISO_8859_9)
    } else if same_text(label, "ISO885910") || same_text(label, "ISO-8859-10") || same_text(label, "LATIN6") {
        Some(Encoding::ISO_8859_10)
    } else if same_text(label, "ISO885911") || same_text(label, "ISO-8859-11") {
        Some(Encoding::ISO_8859_11)
    } else if same_text(label, "ISO885913") || same_text(label, "ISO-8859-13") || same_text(label, "LATIN7") {
        Some(Encoding::ISO_8859_13)
    } else if same_text(label, "ISO885914") || same_text(label, "ISO-8859-14") || same_text(label, "LATIN8") {
        Some(Encoding::ISO_8859_14)
    } else if same_text(label, "ISO885915") || same_text(label, "ISO-8859-15") || same_text(label, "LATIN9") {
        Some(Encoding::ISO_8859_15)
    } else if same_text(label, "ISO885916") || same_text(label, "ISO-8859-16") || same_text(label, "LATIN10") {
        Some(Encoding::ISO_8859_16)
    } else if same_text(label, "WINDOWS1250") || same_text(label, "WIN1250") || same_text(label, "CP1250") {
        Some(Encoding::WINDOWS_1250)
    } else if same_text(label, "WINDOWS1251") || same_text(label, "WIN1251") || same_text(label, "CP1251") {
        Some(Encoding::WINDOWS_1251)
    } else if same_text(label, "WINDOWS1252") || same_text(label, "WIN1252") || same_text(label, "CP1252") {
        Some(Encoding::WINDOWS_1252)
    } else if same_text(label, "WINDOWS1253") || same_text(label, "WIN1253") || same_text(label, "CP1253") {
        Some(Encoding::WINDOWS_1253)
    } else if same_text(label, "WINDOWS1254") || same_text(label, "WIN1254") || same_text(label, "CP1254") {
        Some(Encoding::WINDOWS_1254)
    } else if same_text(label, "WINDOWS1255") || same_text(label, "WIN1255") || same_text(label, "CP1255") {
        Some(Encoding::WINDOWS_1255)
    } else if same_text(label, "WINDOWS1256") || same_text(label, "WIN1256") || same_text(label, "CP1256") {
        Some(Encoding::WINDOWS_1256)
    } else if same_text(label, "WINDOWS1257") || same_text(label, "WIN1257") || same_text(label, "CP1257") {
        Some(Encoding::WINDOWS_1257)
    } else if same_text(label, "WINDOWS1258") || same_text(label, "WIN1258") || same_text(label, "CP1258") {
        Some(Encoding::WINDOWS_1258)
    } else if same_text(label, "WINDOWS874") || same_text(label, "WIN874") || same_text(label, "CP874") {
        Some(Encoding::WINDOWS_874)
    } else if same_text(label, "EBCDIC037") || same_text(label, "IBM037") || same_text(label, "CP037") {
        Some(Encoding::EBCDIC_037)
    } else if same_text(label, "EBCDIC273") || same_text(label, "IBM273") || same_text(label, "CP273") {
        Some(Encoding::EBCDIC_273)
    } else if same_text(label, "EBCDIC277") || same_text(label, "IBM277") || same_text(label, "CP277") {
        Some(Encoding::EBCDIC_277)
    } else if same_text(label, "EBCDIC278") || same_text(label, "IBM278") || same_text(label, "CP278") {
        Some(Encoding::EBCDIC_278)
    } else if same_text(label, "EBCDIC280") || same_text(label, "IBM280") || same_text(label, "CP280") {
        Some(Encoding::EBCDIC_280)
    } else if same_text(label, "EBCDIC284") || same_text(label, "IBM284") || same_text(label, "CP284") {
        Some(Encoding::EBCDIC_284)
    } else if same_text(label, "EBCDIC285") || same_text(label, "IBM285") || same_text(label, "CP285") {
        Some(Encoding::EBCDIC_285)
    } else if same_text(label, "EBCDIC297") || same_text(label, "IBM297") || same_text(label, "CP297") {
        Some(Encoding::EBCDIC_297)
    } else if same_text(label, "EBCDIC500") || same_text(label, "IBM500") || same_text(label, "CP500") {
        Some(Encoding::EBCDIC_500)
    } else if same_text(label, "EBCDIC1047") || same_text(label, "IBM1047") || same_text(label, "CP1047") {
        Some(Encoding::EBCDIC_1047)
    } else if same_text(label, "CP437") || same_text(label, "DOS437") {
        Some(Encoding::CP_437)
    } else if same_text(label, "CP850") || same_text(label, "DOS850") {
        Some(Encoding::CP_850)
    } else if same_text(label, "CP852") || same_text(label, "DOS852") {
        Some(Encoding::CP_852)
    } else if same_text(label, "CP855") || same_text(label, "DOS855") {
        Some(Encoding::CP_855)
    } else if same_text(label, "CP857") || same_text(label, "DOS857") {
        Some(Encoding::CP_857)
    } else if same_text(label, "CP860") || same_text(label, "DOS860") {
        Some(Encoding::CP_860)
    } else if same_text(label, "CP861") || same_text(label, "DOS861") {
        Some(Encoding::CP_861)
    } else if same_text(label, "CP862") || same_text(label, "DOS862") {
        Some(Encoding::CP_862)
    } else if same_text(label, "CP863") || same_text(label, "DOS863") {
        Some(Encoding::CP_863)
    } else if same_text(label, "CP865") || same_text(label, "DOS865") {
        Some(Encoding::CP_865)
    } else if same_text(label, "CP866") || same_text(label, "DOS866") {
        Some(Encoding::CP_866)
    } else if same_text(label, "MACROMAN") || same_text(label, "MAC-ROMAN") {
        Some(Encoding::MAC_ROMAN)
    } else if same_text(label, "MACCYRILLIC") || same_text(label, "MAC-CYRILLIC") {
        Some(Encoding::MAC_CYRILLIC)
    } else if same_text(label, "SHIFTJIS") || same_text(label, "SHIFT-JIS") || same_text(label, "SHIFT_JIS") {
        Some(Encoding::SHIFT_JIS)
    } else if same_text(label, "EUCJP") || same_text(label, "EUC-JP") || same_text(label, "EUC_JP") {
        Some(Encoding::EUC_JP)
    } else if same_text(label, "GB2312") {
        Some(Encoding::GB2312)
    } else if same_text(label, "BIG5") {
        Some(Encoding::BIG5)
    } else if same_text(label, "EUCKR") || same_text(label, "EUC-KR") || same_text(label, "EUC_KR") {
        Some(Encoding::EUC_KR)
    } else {
        None
    }
}

impl Encoding {
    /// The encoding that `label` names, read without regard to case.
    pub fn from_label(label: &str) -> (r: Option<Encoding>)
        ensures
            r == encoding_of(uppercase_of(label@)),
    {
        let raised = to_uppercase(label);
        encoding_for_label(raised.as_str())
    }
}

} // verus!
