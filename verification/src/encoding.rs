//! The closed set of encoding tags and the properties that depend on the tag alone.

use vstd::prelude::*;

verus! {

/// A character encoding known to this library.
#[derive(Debug, Clone, Copy, PartialEq, Eq, Hash, Structural)]
#[allow(non_camel_case_types)]
pub enum Encoding {
    /// UTF-8, one to four bytes per character.
    UTF8,
    /// UTF-16, little-endian code units.
    UTF16LE,
    /// UTF-16, big-endian code units.
    UTF16BE,
    /// Seven-bit US-ASCII.
    ASCII,
    /// ISO-8859-1, Western European.
    ISO_8859_1,
    /// ISO-8859-2, Central European.
    ISO_8859_2,
    /// ISO-8859-3, South European.
    ISO_8859_3,
    /// ISO-8859-4, North European.
    ISO_8859_4,
    /// ISO-8859-5, Cyrillic.
    ISO_8859_5,
    /// ISO-8859-6, Arabic.
    ISO_8859_6,
    /// ISO-8859-7, Greek.
    ISO_8859_7,
    /// ISO-8859-8, Hebrew.
    ISO_8859_8,
    /// ISO-8859-9, Turkish.
    ISO_8859_9,
    /// ISO-8859-10, Nordic.
    ISO_8859_10,
    /// ISO-8859-11, Thai.
    ISO_8859_11,
    /// ISO-8859-13, Baltic.
    ISO_8859_13,
    /// ISO-8859-14, Celtic.
    ISO_8859_14,
    /// ISO-8859-15, Western European with the euro sign.
    ISO_8859_15,
    /// ISO-8859-16, South-Eastern European.
    ISO_8859_16,
    /// Windows code page 1250, Central European.
    WINDOWS_1250,
    /// Windows code page 1251, Cyrillic.
    WINDOWS_1251,
    /// Windows code page 1252, Western European.
    WINDOWS_1252,
    /// Windows code page 1253, Greek.
    WINDOWS_1253,
    /// Windows code page 1254, Turkish.
    WINDOWS_1254,
    /// Windows code page 1255, Hebrew.
    WINDOWS_1255,
    /// Windows code page 1256, Arabic.
    WINDOWS_1256,
    /// Windows code page 1257, Baltic.
    WINDOWS_1257,
    /// Windows code page 1258, Vietnamese.
    WINDOWS_1258,
    /// Windows code page 874, Thai.
    WINDOWS_874,
    /// EBCDIC code page 037, United States and Canada.
    EBCDIC_037,
    /// EBCDIC code page 273, Germany and Austria.
    EBCDIC_273,
    /// EBCDIC code page 277, Denmark and Norway.
    EBCDIC_277,
    /// EBCDIC code page 278, Finland and Sweden.
    EBCDIC_278,
    /// EBCDIC code page 280, Italy.
    EBCDIC_280,
    /// EBCDIC code page 284, Spain.
    EBCDIC_284,
    /// EBCDIC code page 285, United Kingdom.
    EBCDIC_285,
    /// EBCDIC code page 297, France.
    EBCDIC_297,
    /// EBCDIC code page 500, international.
    EBCDIC_500,
    /// EBCDIC code page 1047, Latin-1 for open systems.
    EBCDIC_1047,
    /// DOS code page 437, the first IBM PC.
    CP_437,
    /// DOS code page 850, Western European.
    CP_850,
    /// DOS code page 852, Central European.
    CP_852,
    /// DOS code page 855, Cyrillic.
    CP_855,
    /// DOS code page 857, Turkish.
    CP_857,
    /// DOS code page 860, Portuguese.
    CP_860,
    /// DOS code page 861, Icelandic.
    CP_861,
    /// DOS code page 862, Hebrew.
    CP_862,
    /// DOS code page 863, Canadian French.
    CP_863,
    /// DOS code page 865, Nordic.
    CP_865,
    /// DOS code page 866, Russian.
    CP_866,
    /// Macintosh Roman.
    MAC_ROMAN,
    /// Macintosh Cyrillic.
    MAC_CYRILLIC,
    /// Shift-JIS (Japanese); carried as a tag only.
    SHIFT_JIS,
    /// EUC-JP (Japanese); carried as a tag only.
    EUC_JP,
    /// GB2312 (Simplified Chinese); carried as a tag only.
    GB2312,
    /// Big5 (Traditional Chinese); carried as a tag only.
    BIG5,
    /// EUC-KR (Korean); carried as a tag only.
    EUC_KR,
}

/// The byte-order mark of UTF-8.
pub const BOM_UTF8: [u8; 3] = [0xEF, 0xBB, 0xBF];

/// The byte-order mark of little-endian UTF-16.
pub const BOM_UTF16LE: [u8; 2] = [0xFF, 0xFE];

/// The byte-order mark of big-endian UTF-16.
pub const BOM_UTF16BE: [u8; 2] = [0xFE, 0xFF];

impl Encoding {
    /// The canonical name of the encoding, as a sequence of characters.
    pub open spec fn spec_name(self) -> Seq<char> {
        match self {
            Encoding::UTF8 => "UTF-8"@,
            Encoding::UTF16LE => "UTF-16LE"@,
            Encoding::UTF16BE => "UTF-16BE"@,
            Encoding::ASCII => "US-ASCII"@,
            Encoding::ISO_8859_1 => "ISO-8859-1"@,
            Encoding::ISO_8859_2 => "ISO-8859-2"@,
            Encoding::ISO_8859_3 => "ISO-8859-3"@,
            Encoding::ISO_8859_4 => "ISO-8859-4"@,
            Encoding::ISO_8859_5 => "ISO-8859-5"@,
            Encoding::ISO_8859_6 => "ISO-8859-6"@,
            Encoding::ISO_8859_7 => "ISO-8859-7"@,
            Encoding::ISO_8859_8 => "ISO-8859-8"@,
            Encoding::ISO_8859_9 => "ISO-8859-9"@,
            Encoding::ISO_8859_10 => "ISO-8859-10"@,
            Encoding::ISO_8859_11 => "ISO-8859-11"@,
            Encoding::ISO_8859_13 => "ISO-8859-13"@,
            Encoding::ISO_8859_14 => "ISO-8859-14"@,
            Encoding::ISO_8859_15 => "ISO-8859-15"@,
            Encoding::ISO_8859_16 => "ISO-8859-16"@,
            Encoding::WINDOWS_1250 => "Windows-1250"@,
            Encoding::WINDOWS_1251 => "Windows-1251"@,
            Encoding::WINDOWS_1252 => "Windows-1252"@,
            Encoding::WINDOWS_1253 => "Windows-1253"@,
            Encoding::WINDOWS_1254 => "Windows-1254"@,
            Encoding::WINDOWS_1255 => "Windows-1255"@,
            Encoding::WINDOWS_1256 => "Windows-1256"@,
            Encoding::WINDOWS_1257 => "Windows-1257"@,
            Encoding::WINDOWS_1258 => "Windows-1258"@,
            Encoding::WINDOWS_874 => "Windows-874"@,
            Encoding::EBCDIC_037 => "IBM037"@,
            Encoding::EBCDIC_273 => "IBM273"@,
            Encoding::EBCDIC_277 => "IBM277"@,
            Encoding::EBCDIC_278 => "IBM278"@,
            Encoding::EBCDIC_280 => "IBM280"@,
            Encoding::EBCDIC_284 => "IBM284"@,
            Encoding::EBCDIC_285 => "IBM285"@,
            Encoding::EBCDIC_297 => "IBM297"@,
            Encoding::EBCDIC_500 => "IBM500"@,
            Encoding::EBCDIC_1047 => "IBM1047"@,
            Encoding::CP_437 => "CP437"@,
            Encoding::CP_850 => "CP850"@,
            Encoding::CP_852 => "CP852"@,
            Encoding::CP_855 => "CP855"@,
            Encoding::CP_857 => "CP857"@,
            Encoding::CP_860 => "CP860"@,
            Encoding::CP_861 => "CP861"@,
            Encoding::CP_862 => "CP862"@,
            Encoding::CP_863 => "CP863"@,
            Encoding::CP_865 => "CP865"@,
            Encoding::CP_866 => "CP866"@,
            Encoding::MAC_ROMAN => "MacRoman"@,
            Encoding::MAC_CYRILLIC => "MacCyrillic"@,
            Encoding::SHIFT_JIS => "Shift_JIS"@,
            Encoding::EUC_JP => "EUC-JP"@,
            Encoding::GB2312 => "GB2312"@,
            Encoding::BIG5 => "Big5"@,
            Encoding::EUC_KR => "EUC-KR"@,
        }
    }

    /// Whether bytes 0 to 127 mean the same characters as in ASCII.
    pub open spec fn spec_is_ascii_compatible(self) -> bool {
        !self.is_ebcdic() && !self.is_utf16() && !self.is_east_asian()
    }

    /// Whether one character may take more than one byte, or a varying number of units.
    pub open spec fn spec_is_multibyte(self) -> bool {
        self == Encoding::UTF8 || self.is_utf16() || self.is_east_asian()
    }

    /// The byte-order mark of the encoding, if it has one.
    pub open spec fn spec_bom(self) -> Option<Seq<u8>> {
        match self {
            Encoding::UTF8 => Some(BOM_UTF8@),
            Encoding::UTF16LE => Some(BOM_UTF16LE@),
            Encoding::UTF16BE => Some(BOM_UTF16BE@),
            _ => None,
        }
    }

    /// The two UTF-16 tags.
    pub open spec fn spec_is_utf16(self) -> bool {
        self == Encoding::UTF16LE || self == Encoding::UTF16BE
    }

    /// The ten EBCDIC code pages.
    pub open spec fn is_ebcdic(self) -> bool {
        matches!(
            self,
            Encoding::EBCDIC_037
                | Encoding::EBCDIC_273
                | Encoding::EBCDIC_277
                | Encoding::EBCDIC_278
                | Encoding::EBCDIC_280
                | Encoding::EBCDIC_284
                | Encoding::EBCDIC_285
                | Encoding::EBCDIC_297
                | Encoding::EBCDIC_500
                | Encoding::EBCDIC_1047
        )
    }

    /// The five East Asian tags, for which the library carries no character data.
    pub open spec fn is_east_asian(self) -> bool {
        matches!(
            self,
            Encoding::SHIFT_JIS
                | Encoding::EUC_JP
                | Encoding::GB2312
                | Encoding::BIG5
                | Encoding::EUC_KR
        )
    }

    /// Whether the encoding is UTF-16, in either byte order.
    #[verifier::when_used_as_spec(spec_is_utf16)]
    pub fn is_utf16(self) -> (r: bool)
        ensures
            r == self.spec_is_utf16(),
    {
        matches!(self, Encoding::UTF16LE | Encoding::UTF16BE)
    }

    /// The canonical name of the encoding.
    pub fn name(self) -> (r: &'static str)
        ensures
            r@ == self.spec_name(),
    {
        match self {
            Encoding::UTF8 => "UTF-8",
            Encoding::UTF16LE => "UTF-16LE",
            Encoding::UTF16BE => "UTF-16BE",
            Encoding::ASCII => "US-ASCII",
            Encoding::ISO_8859_1 => "ISO-8859-1",
            Encoding::ISO_8859_2 => "ISO-8859-2",
            Encoding::ISO_8859_3 => "ISO-8859-3",
            Encoding::ISO_8859_4 => "ISO-8859-4",
            Encoding::ISO_8859_5 => "ISO-8859-5",
            Encoding::ISO_8859_6 => "ISO-8859-6",
            Encoding::ISO_8859_7 => "ISO-8859-7",
            Encoding::ISO_8859_8 => "ISO-8859-8",
            Encoding::ISO_8859_9 => "ISO-8859-9",
            Encoding::ISO_8859_10 => "ISO-8859-10",
            Encoding::ISO_8859_11 => "ISO-8859-11",
            Encoding::ISO_8859_13 => "ISO-8859-13",
            Encoding::ISO_8859_14 => "ISO-8859-14",
            Encoding::ISO_8859_15 => "ISO-8859-15",
            Encoding::ISO_8859_16 => "ISO-8859-16",
            Encoding::WINDOWS_1250 => "Windows-1250",
            Encoding::WINDOWS_1251 => "Windows-1251",
            Encoding::WINDOWS_1252 => "Windows-1252",
            Encoding::WINDOWS_1253 => "Windows-1253",
            Encoding::WINDOWS_1254 => "Windows-1254",
            Encoding::WINDOWS_1255 => "Windows-1255",
            Encoding::WINDOWS_1256 => "Windows-1256",
            Encoding::WINDOWS_1257 => "Windows-1257",
            Encoding::WINDOWS_1258 => "Windows-1258",
            Encoding::WINDOWS_874 => "Windows-874",
            Encoding::EBCDIC_037 => "IBM037",
            Encoding::EBCDIC_273 => "IBM273",
            Encoding::EBCDIC_277 => "IBM277",
            Encoding::EBCDIC_278 => "IBM278",
            Encoding::EBCDIC_280 => "IBM280",
            Encoding::EBCDIC_284 => "IBM284",
            Encoding::EBCDIC_285 => "IBM285",
            Encoding::EBCDIC_297 => "IBM297",
            Encoding::EBCDIC_500 => "IBM500",
            Encoding::EBCDIC_1047 => "IBM1047",
            Encoding::CP_437 => "CP437",
            Encoding::CP_850 => "CP850",
            Encoding::CP_852 => "CP852",
            Encoding::CP_855 => "CP855",
            Encoding::CP_857 => "CP857",
            Encoding::CP_860 => "CP860",
            Encoding::CP_861 => "CP861",
            Encoding::CP_862 => "CP862",
            Encoding::CP_863 => "CP863",
            Encoding::CP_865 => "CP865",
            Encoding::CP_866 => "CP866",
            Encoding::MAC_ROMAN => "MacRoman",
            Encoding::MAC_CYRILLIC => "MacCyrillic",
            Encoding::SHIFT_JIS => "Shift_JIS",
            Encoding::EUC_JP => "EUC-JP",
            Encoding::GB2312 => "GB2312",
            Encoding::BIG5 => "Big5",
            Encoding::EUC_KR => "EUC-KR",
        }
    }

    /// Whether bytes 0 to 127 mean the same characters as in ASCII.
    #[verifier::when_used_as_spec(spec_is_ascii_compatible)]
    pub fn is_ascii_compatible(self) -> (r: bool)
        ensures
            r == self.spec_is_ascii_compatible(),
    {
        !matches!(
            self,
            Encoding::UTF16LE
                | Encoding::UTF16BE
                | Encoding::SHIFT_JIS
                | Encoding::EUC_JP
                | Encoding::GB2312
                | Encoding::BIG5
                | Encoding::EUC_KR
                | Encoding::EBCDIC_037
                | Encoding::EBCDIC_273
                | Encoding::EBCDIC_277
                | Encoding::EBCDIC_278
                | Encoding::EBCDIC_280
                | Encoding::EBCDIC_284
                | Encoding::EBCDIC_285
                | Encoding::EBCDIC_297
                | Encoding::EBCDIC_500
                | Encoding::EBCDIC_1047
        )
    }

    /// Whether one character may take more than one byte, or a varying number of units.
    #[verifier::when_used_as_spec(spec_is_multibyte)]
    pub fn is_multibyte(self) -> (r: bool)
        ensures
            r == self.spec_is_multibyte(),
    {
        matches!(
            self,
            Encoding::UTF8
                | Encoding::UTF16LE
                | Encoding::UTF16BE
                | Encoding::SHIFT_JIS
                | Encoding::EUC_JP
                | Encoding::GB2312
                | Encoding::BIG5
                | Encoding::EUC_KR
        )
    }

    /// The byte-order mark of the encoding, if it has one.
    pub fn bom(self) -> (r: Option<&'static [u8]>)
        ensures
            r is Some <==> self.spec_bom() is Some,
            r is Some ==> r->0@ == self.spec_bom()->0,
    {
        match self {
            Encoding::UTF8 => Some(&BOM_UTF8),
            Encoding::UTF16LE => Some(&BOM_UTF16LE),
            Encoding::UTF16BE => Some(&BOM_UTF16BE),
            _ => None,
        }
    }
}

} // verus!
