//! What holds of the character data: no code page carries a character at two
//! bytes, and some code pages assign a character to every byte.

use crate::charmap::{
    distinct_defined, distinct_scalars, injective, lemma_ascii_page_injective,
    lemma_distinct_scalars, lemma_full_page_injective, lemma_identity_page_one_to_one,
    one_to_one, slot_of,
};
use crate::encoding::Encoding;
use crate::tables::{
    chars_for,
    cp_437_high, cp_850_high, cp_852_high, cp_855_high, cp_857_high, cp_860_high, cp_861_high,
    cp_862_high, cp_863_high, cp_865_high, cp_866_high, ebcdic_037_page, ebcdic_1047_page,
    ebcdic_273_page, ebcdic_277_page, ebcdic_278_page, ebcdic_280_page, ebcdic_284_page,
    ebcdic_285_page, ebcdic_297_page, ebcdic_500_page, iso_8859_10_high, iso_8859_11_high,
    iso_8859_13_high, iso_8859_14_high, iso_8859_15_high, iso_8859_16_high, iso_8859_2_high,
    iso_8859_3_high, iso_8859_4_high, iso_8859_5_high, iso_8859_6_high, iso_8859_7_high,
    iso_8859_8_high, iso_8859_9_high, mac_cyrillic_high, mac_roman_high, windows_1250_high,
    windows_1251_high, windows_1252_high, windows_1253_high, windows_1254_high, windows_1255_high,
    windows_1256_high, windows_1257_high, windows_1258_high, windows_874_high,
};
use vstd::prelude::*;
use vstd::utf8::is_scalar;

verus! {

/// The single-byte encodings whose code page assigns a character to every
/// byte. ISO-8859-1 is one of them; ASCII, which stops at 0x7F, is not.
pub open spec fn is_complete(encoding: Encoding) -> bool {
    matches!(
        encoding,
        Encoding::ISO_8859_1
            | Encoding::ISO_8859_2
            | Encoding::ISO_8859_4
            | Encoding::ISO_8859_5
            | Encoding::ISO_8859_9
            | Encoding::ISO_8859_10
            | Encoding::ISO_8859_13
            | Encoding::ISO_8859_14
            | Encoding::ISO_8859_15
            | Encoding::ISO_8859_16
            | Encoding::WINDOWS_1256
            | Encoding::EBCDIC_037
            | Encoding::EBCDIC_273
            | Encoding::EBCDIC_277
            | Encoding::EBCDIC_278
            | Encoding::EBCDIC_280
            | Encoding::EBCDIC_284
            | Encoding::EBCDIC_285
            | Encoding::EBCDIC_297
            | Encoding::EBCDIC_500
            | Encoding::EBCDIC_1047
            | Encoding::CP_437
            | Encoding::CP_850
            | Encoding::CP_852
            | Encoding::CP_855
            | Encoding::CP_860
            | Encoding::CP_861
            | Encoding::CP_862
            | Encoding::CP_863
            | Encoding::CP_865
            | Encoding::CP_866
            | Encoding::MAC_ROMAN
            | Encoding::MAC_CYRILLIC
    )
}

/// A byte to which the code page of a single-byte encoding that is not
/// complete assigns no character.
pub open spec fn unassigned_byte(encoding: Encoding) -> u8 {
    match encoding {
        Encoding::ISO_8859_3 => 0xA5,
        Encoding::ISO_8859_6 => 0xA1,
        Encoding::ISO_8859_7 => 0xAE,
        Encoding::ISO_8859_8 => 0xA1,
        Encoding::ISO_8859_11 => 0xDB,
        Encoding::WINDOWS_1250 => 0x81,
        Encoding::WINDOWS_1251 => 0x98,
        Encoding::WINDOWS_1252 => 0x81,
        Encoding::WINDOWS_1253 => 0x81,
        Encoding::WINDOWS_1254 => 0x81,
        Encoding::WINDOWS_1255 => 0x81,
        Encoding::WINDOWS_1257 => 0x81,
        Encoding::WINDOWS_1258 => 0x81,
        Encoding::WINDOWS_874 => 0x81,
        Encoding::CP_857 => 0xD5,
        _ => 0x80,
    }
}

#[verifier::spinoff_prover]
proof fn lemma_iso_8859_2_high()
    ensures
        iso_8859_2_high().len() == 128,
        distinct_scalars(iso_8859_2_high(), 0x80),
{
    reveal(iso_8859_2_high);
}

#[verifier::spinoff_prover]
proof fn lemma_iso_8859_3_high()
    ensures
        iso_8859_3_high().len() == 128,
        distinct_defined(iso_8859_3_high(), 0x80),
        !is_scalar(iso_8859_3_high()[0xA5 - 0x80]),
{
    reveal(iso_8859_3_high);
}

#[verifier::spinoff_prover]
proof fn lemma_iso_8859_4_high()
    ensures
        iso_8859_4_high().len() == 128,
        distinct_scalars(iso_8859_4_high(), 0x80),
{
    reveal(iso_8859_4_high);
}

#[verifier::spinoff_prover]
proof fn lemma_iso_8859_5_high()
    ensures
        iso_8859_5_high().len() == 128,
        distinct_scalars(iso_8859_5_high(), 0x80),
{
    reveal(iso_8859_5_high);
}

#[verifier::spinoff_prover]
proof fn lemma_iso_8859_6_high()
    ensures
        iso_8859_6_high().len() == 128,
        distinct_defined(iso_8859_6_high(), 0x80),
        !is_scalar(iso_8859_6_high()[0xA1 - 0x80]),
{
    reveal(iso_8859_6_high);
}

#[verifier::spinoff_prover]
proof fn lemma_iso_8859_7_high()
    ensures
        iso_8859_7_high().len() == 128,
        distinct_defined(iso_8859_7_high(), 0x80),
        !is_scalar(iso_8859_7_high()[0xAE - 0x80]),
{
    reveal(iso_8859_7_high);
}

#[verifier::spinoff_prover]
proof fn lemma_iso_8859_8_high()
    ensures
        iso_8859_8_high().len() == 128,
        distinct_defined(iso_8859_8_high(), 0x80),
        !is_scalar(iso_8859_8_high()[0xA1 - 0x80]),
{
    reveal(iso_8859_8_high);
}

#[verifier::spinoff_prover]
proof fn lemma_iso_8859_9_high()
    ensures
        iso_8859_9_high().len() == 128,
        distinct_scalars(iso_8859_9_high(), 0x80),
{
    reveal(iso_8859_9_high);
}

#[verifier::spinoff_prover]
proof fn lemma_iso_8859_10_high()
    ensures
        iso_8859_10_high().len() == 128,
        distinct_scalars(iso_8859_10_high(), 0x80),
{
    reveal(iso_8859_10_high);
}

#[verifier::spinoff_prover]
proof fn lemma_iso_8859_11_high()
    ensures
        iso_8859_11_high().len() == 128,
        distinct_defined(iso_8859_11_high(), 0x80),
        !is_scalar(iso_8859_11_high()[0xDB - 0x80]),
{
    reveal(iso_8859_11_high);
}

#[verifier::spinoff_prover]
proof fn lemma_iso_8859_13_high()
    ensures
        iso_8859_13_high().len() == 128,
        distinct_scalars(iso_8859_13_high(), 0x80),
{
    reveal(iso_8859_13_high);
}

#[verifier::spinoff_prover]
proof fn lemma_iso_8859_14_high()
    ensures
        iso_8859_14_high().len() == 128,
        distinct_scalars(iso_8859_14_high(), 0x80),
{
    reveal(iso_8859_14_high);
}

#[verifier::spinoff_prover]
proof fn lemma_iso_8859_15_high()
    ensures
        iso_8859_15_high().len() == 128,
        distinct_scalars(iso_8859_15_high(), 0x80),
{
    reveal(iso_8859_15_high);
}

#[verifier::spinoff_prover]
proof fn lemma_iso_8859_16_high()
    ensures
        iso_8859_16_high().len() == 128,
        distinct_scalars(iso_8859_16_high(), 0x80),
{
    reveal(iso_8859_16_high);
}

#[verifier::spinoff_prover]
proof fn lemma_windows_1250_high()
    ensures
        windows_1250_high().len() == 128,
        distinct_defined(windows_1250_high(), 0x80),
        !is_scalar(windows_1250_high()[0x81 - 0x80]),
{
    reveal(windows_1250_high);
}

#[verifier::spinoff_prover]
proof fn lemma_windows_1251_high()
    ensures
        windows_1251_high().len() == 128,
        distinct_defined(windows_1251_high(), 0x80),
        !is_scalar(windows_1251_high()[0x98 - 0x80]),
{
    reveal(windows_1251_high);
}

#[verifier::spinoff_prover]
proof fn lemma_windows_1252_high()
    ensures
        windows_1252_high().len() == 128,
        distinct_defined(windows_1252_high(), 0x80),
        !is_scalar(windows_1252_high()[0x81 - 0x80]),
{
    reveal(windows_1252_high);
}

#[verifier::spinoff_prover]
proof fn lemma_windows_1253_high()
    ensures
        windows_1253_high().len() == 128,
        distinct_defined(windows_1253_high(), 0x80),
        !is_scalar(windows_1253_high()[0x81 - 0x80]),
{
    reveal(windows_1253_high);
}

#[verifier::spinoff_prover]
proof fn lemma_windows_1254_high()
    ensures
        windows_1254_high().len() == 128,
        distinct_defined(windows_1254_high(), 0x80),
        !is_scalar(windows_1254_high()[0x81 - 0x80]),
{
    reveal(windows_1254_high);
}

#[verifier::spinoff_prover]
proof fn lemma_windows_1255_high()
    ensures
        windows_1255_high().len() == 128,
        distinct_defined(windows_1255_high(), 0x80),
        !is_scalar(windows_1255_high()[0x81 - 0x80]),
{
    reveal(windows_1255_high);
}

#[verifier::spinoff_prover]
proof fn lemma_windows_1256_high()
    ensures
        windows_1256_high().len() == 128,
        distinct_scalars(windows_1256_high(), 0x80),
{
    reveal(windows_1256_high);
}

#[verifier::spinoff_prover]
proof fn lemma_windows_1257_high()
    ensures
        windows_1257_high().len() == 128,
        distinct_defined(windows_1257_high(), 0x80),
        !is_scalar(windows_1257_high()[0x81 - 0x80]),
{
    reveal(windows_1257_high);
}

#[verifier::spinoff_prover]
proof fn lemma_windows_1258_high()
    ensures
        windows_1258_high().len() == 128,
        distinct_defined(windows_1258_high(), 0x80),
        !is_scalar(windows_1258_high()[0x81 - 0x80]),
{
    reveal(windows_1258_high);
}

#[verifier::spinoff_prover]
proof fn lemma_windows_874_high()
    ensures
        windows_874_high().len() == 128,
        distinct_defined(windows_874_high(), 0x80),
        !is_scalar(windows_874_high()[0x81 - 0x80]),
{
    reveal(windows_874_high);
}

#[verifier::spinoff_prover]
proof fn lemma_ebcdic_037_page()
    ensures
        ebcdic_037_page().len() == 256,
        distinct_scalars(ebcdic_037_page(), 0),
{
    reveal(ebcdic_037_page);
}

#[verifier::spinoff_prover]
proof fn lemma_ebcdic_273_page()
    ensures
        ebcdic_273_page().len() == 256,
        distinct_scalars(ebcdic_273_page(), 0),
{
    reveal(ebcdic_273_page);
}

#[verifier::spinoff_prover]
proof fn lemma_ebcdic_277_page()
    ensures
        ebcdic_277_page().len() == 256,
        distinct_scalars(ebcdic_277_page(), 0),
{
    reveal(ebcdic_277_page);
}

#[verifier::spinoff_prover]
proof fn lemma_ebcdic_278_page()
    ensures
        ebcdic_278_page().len() == 256,
        distinct_scalars(ebcdic_278_page(), 0),
{
    reveal(ebcdic_278_page);
}

#[verifier::spinoff_prover]
proof fn lemma_ebcdic_280_page()
    ensures
        ebcdic_280_page().len() == 256,
        distinct_scalars(ebcdic_280_page(), 0),
{
    reveal(ebcdic_280_page);
}

#[verifier::spinoff_prover]
proof fn lemma_ebcdic_284_page()
    ensures
        ebcdic_284_page().len() == 256,
        distinct_scalars(ebcdic_284_page(), 0),
{
    reveal(ebcdic_284_page);
}

#[verifier::spinoff_prover]
proof fn lemma_ebcdic_285_page()
    ensures
        ebcdic_285_page().len() == 256,
        distinct_scalars(ebcdic_285_page(), 0),
{
    reveal(ebcdic_285_page);
}

#[verifier::spinoff_prover]
proof fn lemma_ebcdic_297_page()
    ensures
        ebcdic_297_page().len() == 256,
        distinct_scalars(ebcdic_297_page(), 0),
{
    reveal(ebcdic_297_page);
}

#[verifier::spinoff_prover]
proof fn lemma_ebcdic_500_page()
    ensures
        ebcdic_500_page().len() == 256,
        distinct_scalars(ebcdic_500_page(), 0),
{
    reveal(ebcdic_500_page);
}

#[verifier::spinoff_prover]
proof fn lemma_ebcdic_1047_page()
    ensures
        ebcdic_1047_page().len() == 256,
        distinct_scalars(ebcdic_1047_page(), 0),
{
    reveal(ebcdic_1047_page);
}

#[verifier::spinoff_prover]
proof fn lemma_cp_437_high()
    ensures
        cp_437_high().len() == 128,
        distinct_scalars(cp_437_high(), 0x80),
{
    reveal(cp_437_high);
}

#[verifier::spinoff_prover]
proof fn lemma_cp_850_high()
    ensures
        cp_850_high().len() == 128,
        distinct_scalars(cp_850_high(), 0x80),
{
    reveal(cp_850_high);
}

#[verifier::spinoff_prover]
proof fn lemma_cp_852_high()
    ensures
        cp_852_high().len() == 128,
        distinct_scalars(cp_852_high(), 0x80),
{
    reveal(cp_852_high);
}

#[verifier::spinoff_prover]
proof fn lemma_cp_855_high()
    ensures
        cp_855_high().len() == 128,
        distinct_scalars(cp_855_high(), 0x80),
{
    reveal(cp_855_high);
}

#[verifier::spinoff_prover]
proof fn lemma_cp_857_high()
    ensures
        cp_857_high().len() == 128,
        distinct_defined(cp_857_high(), 0x80),
        !is_scalar(cp_857_high()[0xD5 - 0x80]),
{
    reveal(cp_857_high);
}

#[verifier::spinoff_prover]
proof fn lemma_cp_860_high()
    ensures
        cp_860_high().len() == 128,
        distinct_scalars(cp_860_high(), 0x80),
{
    reveal(cp_860_high);
}

#[verifier::spinoff_prover]
proof fn lemma_cp_861_high()
    ensures
        cp_861_high().len() == 128,
        distinct_scalars(cp_861_high(), 0x80),
{
    reveal(cp_861_high);
}

#[verifier::spinoff_prover]
proof fn lemma_cp_862_high()
    ensures
        cp_862_high().len() == 128,
        distinct_scalars(cp_862_high(), 0x80),
{
    reveal(cp_862_high);
}

#[verifier::spinoff_prover]
proof fn lemma_cp_863_high()
    ensures
        cp_863_high().len() == 128,
        distinct_scalars(cp_863_high(), 0x80),
{
    reveal(cp_863_high);
}

#[verifier::spinoff_prover]
proof fn lemma_cp_865_high()
    ensures
        cp_865_high().len() == 128,
        distinct_scalars(cp_865_high(), 0x80),
{
    reveal(cp_865_high);
}

#[verifier::spinoff_prover]
proof fn lemma_cp_866_high()
    ensures
        cp_866_high().len() == 128,
        distinct_scalars(cp_866_high(), 0x80),
{
    reveal(cp_866_high);
}

#[verifier::spinoff_prover]
proof fn lemma_mac_roman_high()
    ensures
        mac_roman_high().len() == 128,
        distinct_scalars(mac_roman_high(), 0x80),
{
    reveal(mac_roman_high);
}

#[verifier::spinoff_prover]
proof fn lemma_mac_cyrillic_high()
    ensures
        mac_cyrillic_high().len() == 128,
        distinct_scalars(mac_cyrillic_high(), 0x80),
{
    reveal(mac_cyrillic_high);
}

/// No code page carries a character at two bytes.
pub proof fn lemma_injective(encoding: Encoding)
    ensures
        chars_for(encoding).len() == 256,
        injective(chars_for(encoding)),
{
    match encoding {
        Encoding::ISO_8859_1 => {
            lemma_identity_page_one_to_one();
        },
        Encoding::ISO_8859_2 => {
            lemma_iso_8859_2_high();
            lemma_distinct_scalars(iso_8859_2_high(), 0x80);
            lemma_ascii_page_injective(iso_8859_2_high());
        },
        Encoding::ISO_8859_3 => {
            lemma_iso_8859_3_high();
            lemma_ascii_page_injective(iso_8859_3_high());
        },
        Encoding::ISO_8859_4 => {
            lemma_iso_8859_4_high();
            lemma_distinct_scalars(iso_8859_4_high(), 0x80);
            lemma_ascii_page_injective(iso_8859_4_high());
        },
        Encoding::ISO_8859_5 => {
            lemma_iso_8859_5_high();
            lemma_distinct_scalars(iso_8859_5_high(), 0x80);
            lemma_ascii_page_injective(iso_8859_5_high());
        },
        Encoding::ISO_8859_6 => {
            lemma_iso_8859_6_high();
            lemma_ascii_page_injective(iso_8859_6_high());
        },
        Encoding::ISO_8859_7 => {
            lemma_iso_8859_7_high();
            lemma_ascii_page_injective(iso_8859_7_high());
        },
        Encoding::ISO_8859_8 => {
            lemma_iso_8859_8_high();
            lemma_ascii_page_injective(iso_8859_8_high());
        },
        Encoding::ISO_8859_9 => {
            lemma_iso_8859_9_high();
            lemma_distinct_scalars(iso_8859_9_high(), 0x80);
            lemma_ascii_page_injective(iso_8859_9_high());
        },
        Encoding::ISO_8859_10 => {
            lemma_iso_8859_10_high();
            lemma_distinct_scalars(iso_8859_10_high(), 0x80);
            lemma_ascii_page_injective(iso_8859_10_high());
        },
        Encoding::ISO_8859_11 => {
            lemma_iso_8859_11_high();
            lemma_ascii_page_injective(iso_8859_11_high());
        },
        Encoding::ISO_8859_13 => {
            lemma_iso_8859_13_high();
            lemma_distinct_scalars(iso_8859_13_high(), 0x80);
            lemma_ascii_page_injective(iso_8859_13_high());
        },
        Encoding::ISO_8859_14 => {
            lemma_iso_8859_14_high();
            lemma_distinct_scalars(iso_8859_14_high(), 0x80);
            lemma_ascii_page_injective(iso_8859_14_high());
        },
        Encoding::ISO_8859_15 => {
            lemma_iso_8859_15_high();
            lemma_distinct_scalars(iso_8859_15_high(), 0x80);
            lemma_ascii_page_injective(iso_8859_15_high());
        },
        Encoding::ISO_8859_16 => {
            lemma_iso_8859_16_high();
            lemma_distinct_scalars(iso_8859_16_high(), 0x80);
            lemma_ascii_page_injective(iso_8859_16_high());
        },
        Encoding::WINDOWS_1250 => {
            lemma_windows_1250_high();
            lemma_ascii_page_injective(windows_1250_high());
        },
        Encoding::WINDOWS_1251 => {
            lemma_windows_1251_high();
            lemma_ascii_page_injective(windows_1251_high());
        },
        Encoding::WINDOWS_1252 => {
            lemma_windows_1252_high();
            lemma_ascii_page_injective(windows_1252_high());
        },
        Encoding::WINDOWS_1253 => {
            lemma_windows_1253_high();
            lemma_ascii_page_injective(windows_1253_high());
        },
        Encoding::WINDOWS_1254 => {
            lemma_windows_1254_high();
            lemma_ascii_page_injective(windows_1254_high());
        },
        Encoding::WINDOWS_1255 => {
            lemma_windows_1255_high();
            lemma_ascii_page_injective(windows_1255_high());
        },
        Encoding::WINDOWS_1256 => {
            lemma_windows_1256_high();
            lemma_distinct_scalars(windows_1256_high(), 0x80);
            lemma_ascii_page_injective(windows_1256_high());
        },
        Encoding::WINDOWS_1257 => {
            lemma_windows_1257_high();
            lemma_ascii_page_injective(windows_1257_high());
        },
        Encoding::WINDOWS_1258 => {
            lemma_windows_1258_high();
            lemma_ascii_page_injective(windows_1258_high());
        },
        Encoding::WINDOWS_874 => {
            lemma_windows_874_high();
            lemma_ascii_page_injective(windows_874_high());
        },
        Encoding::EBCDIC_037 => {
            lemma_ebcdic_037_page();
            lemma_distinct_scalars(ebcdic_037_page(), 0);
            lemma_full_page_injective(ebcdic_037_page());
        },
        Encoding::EBCDIC_273 => {
            lemma_ebcdic_273_page();
            lemma_distinct_scalars(ebcdic_273_page(), 0);
            lemma_full_page_injective(ebcdic_273_page());
        },
        Encoding::EBCDIC_277 => {
            lemma_ebcdic_277_page();
            lemma_distinct_scalars(ebcdic_277_page(), 0);
            lemma_full_page_injective(ebcdic_277_page());
        },
        Encoding::EBCDIC_278 => {
            lemma_ebcdic_278_page();
            lemma_distinct_scalars(ebcdic_278_page(), 0);
            lemma_full_page_injective(ebcdic_278_page());
        },
        Encoding::EBCDIC_280 => {
            lemma_ebcdic_280_page();
            lemma_distinct_scalars(ebcdic_280_page(), 0);
            lemma_full_page_injective(ebcdic_280_page());
        },
        Encoding::EBCDIC_284 => {
            lemma_ebcdic_284_page();
            lemma_distinct_scalars(ebcdic_284_page(), 0);
            lemma_full_page_injective(ebcdic_284_page());
        },
        Encoding::EBCDIC_285 => {
            lemma_ebcdic_285_page();
            lemma_distinct_scalars(ebcdic_285_page(), 0);
            lemma_full_page_injective(ebcdic_285_page());
        },
        Encoding::EBCDIC_297 => {
            lemma_ebcdic_297_page();
            lemma_distinct_scalars(ebcdic_297_page(), 0);
            lemma_full_page_injective(ebcdic_297_page());
        },
        Encoding::EBCDIC_500 => {
            lemma_ebcdic_500_page();
            lemma_distinct_scalars(ebcdic_500_page(), 0);
            lemma_full_page_injective(ebcdic_500_page());
        },
        Encoding::EBCDIC_1047 => {
            lemma_ebcdic_1047_page();
            lemma_distinct_scalars(ebcdic_1047_page(), 0);
            lemma_full_page_injective(ebcdic_1047_page());
        },
        Encoding::CP_437 => {
            lemma_cp_437_high();
            lemma_distinct_scalars(cp_437_high(), 0x80);
            lemma_ascii_page_injective(cp_437_high());
        },
        Encoding::CP_850 => {
            lemma_cp_850_high();
            lemma_distinct_scalars(cp_850_high(), 0x80);
            lemma_ascii_page_injective(cp_850_high());
        },
        Encoding::CP_852 => {
            lemma_cp_852_high();
            lemma_distinct_scalars(cp_852_high(), 0x80);
            lemma_ascii_page_injective(cp_852_high());
        },
        Encoding::CP_855 => {
            lemma_cp_855_high();
            lemma_distinct_scalars(cp_855_high(), 0x80);
            lemma_ascii_page_injective(cp_855_high());
        },
        Encoding::CP_857 => {
            lemma_cp_857_high();
            lemma_ascii_page_injective(cp_857_high());
        },
        Encoding::CP_860 => {
            lemma_cp_860_high();
            lemma_distinct_scalars(cp_860_high(), 0x80);
            lemma_ascii_page_injective(cp_860_high());
        },
        Encoding::CP_861 => {
            lemma_cp_861_high();
            lemma_distinct_scalars(cp_861_high(), 0x80);
            lemma_ascii_page_injective(cp_861_high());
        },
        Encoding::CP_862 => {
            lemma_cp_862_high();
            lemma_distinct_scalars(cp_862_high(), 0x80);
            lemma_ascii_page_injective(cp_862_high());
        },
        Encoding::CP_863 => {
            lemma_cp_863_high();
            lemma_distinct_scalars(cp_863_high(), 0x80);
            lemma_ascii_page_injective(cp_863_high());
        },
        Encoding::CP_865 => {
            lemma_cp_865_high();
            lemma_distinct_scalars(cp_865_high(), 0x80);
            lemma_ascii_page_injective(cp_865_high());
        },
        Encoding::CP_866 => {
            lemma_cp_866_high();
            lemma_distinct_scalars(cp_866_high(), 0x80);
            lemma_ascii_page_injective(cp_866_high());
        },
        Encoding::MAC_ROMAN => {
            lemma_mac_roman_high();
            lemma_distinct_scalars(mac_roman_high(), 0x80);
            lemma_ascii_page_injective(mac_roman_high());
        },
        Encoding::MAC_CYRILLIC => {
            lemma_mac_cyrillic_high();
            lemma_distinct_scalars(mac_cyrillic_high(), 0x80);
            lemma_ascii_page_injective(mac_cyrillic_high());
        },
        Encoding::UTF8 | Encoding::ASCII => {
            lemma_ascii_page_injective(crate::tables::no_high());
        },
        _ => {},
    }
}

/// The code page of a complete encoding assigns a character to every byte,
/// and to no two bytes the same.
pub proof fn lemma_complete(encoding: Encoding)
    requires
        is_complete(encoding),
    ensures
        !encoding.is_multibyte(),
        one_to_one(chars_for(encoding)),
{
    lemma_injective(encoding);
    match encoding {
        Encoding::ISO_8859_2 => {
            lemma_iso_8859_2_high();
            assert forall|b: int| 0 <= b < 256 implies (#[trigger] chars_for(encoding)[b])
                is Some by {
                if b >= 0x80 {
                    assert(is_scalar(iso_8859_2_high()[b - 0x80]));
                }
            }
        },
        Encoding::ISO_8859_4 => {
            lemma_iso_8859_4_high();
            assert forall|b: int| 0 <= b < 256 implies (#[trigger] chars_for(encoding)[b])
                is Some by {
                if b >= 0x80 {
                    assert(is_scalar(iso_8859_4_high()[b - 0x80]));
                }
            }
        },
        Encoding::ISO_8859_5 => {
            lemma_iso_8859_5_high();
            assert forall|b: int| 0 <= b < 256 implies (#[trigger] chars_for(encoding)[b])
                is Some by {
                if b >= 0x80 {
                    assert(is_scalar(iso_8859_5_high()[b - 0x80]));
                }
            }
        },
        Encoding::ISO_8859_9 => {
            lemma_iso_8859_9_high();
            assert forall|b: int| 0 <= b < 256 implies (#[trigger] chars_for(encoding)[b])
                is Some by {
                if b >= 0x80 {
                    assert(is_scalar(iso_8859_9_high()[b - 0x80]));
                }
            }
        },
        Encoding::ISO_8859_10 => {
            lemma_iso_8859_10_high();
            assert forall|b: int| 0 <= b < 256 implies (#[trigger] chars_for(encoding)[b])
                is Some by {
                if b >= 0x80 {
                    assert(is_scalar(iso_8859_10_high()[b - 0x80]));
                }
            }
        },
        Encoding::ISO_8859_13 => {
            lemma_iso_8859_13_high();
            assert forall|b: int| 0 <= b < 256 implies (#[trigger] chars_for(encoding)[b])
                is Some by {
                if b >= 0x80 {
                    assert(is_scalar(iso_8859_13_high()[b - 0x80]));
                }
            }
        },
        Encoding::ISO_8859_14 => {
            lemma_iso_8859_14_high();
            assert forall|b: int| 0 <= b < 256 implies (#[trigger] chars_for(encoding)[b])
                is Some by {
                if b >= 0x80 {
                    assert(is_scalar(iso_8859_14_high()[b - 0x80]));
                }
            }
        },
        Encoding::ISO_8859_15 => {
            lemma_iso_8859_15_high();
            assert forall|b: int| 0 <= b < 256 implies (#[trigger] chars_for(encoding)[b])
                is Some by {
                if b >= 0x80 {
                    assert(is_scalar(iso_8859_15_high()[b - 0x80]));
                }
            }
        },
        Encoding::ISO_8859_16 => {
            lemma_iso_8859_16_high();
            assert forall|b: int| 0 <= b < 256 implies (#[trigger] chars_for(encoding)[b])
                is Some by {
                if b >= 0x80 {
                    assert(is_scalar(iso_8859_16_high()[b - 0x80]));
                }
            }
        },
        Encoding::WINDOWS_1256 => {
            lemma_windows_1256_high();
            assert forall|b: int| 0 <= b < 256 implies (#[trigger] chars_for(encoding)[b])
                is Some by {
                if b >= 0x80 {
                    assert(is_scalar(windows_1256_high()[b - 0x80]));
                }
            }
        },
        Encoding::EBCDIC_037 => {
            lemma_ebcdic_037_page();
            assert forall|b: int| 0 <= b < 256 implies (#[trigger] chars_for(encoding)[b])
                is Some by {
                assert(is_scalar(ebcdic_037_page()[b]));
            }
        },
        Encoding::EBCDIC_273 => {
            lemma_ebcdic_273_page();
            assert forall|b: int| 0 <= b < 256 implies (#[trigger] chars_for(encoding)[b])
                is Some by {
                assert(is_scalar(ebcdic_273_page()[b]));
            }
        },
        Encoding::EBCDIC_277 => {
            lemma_ebcdic_277_page();
            assert forall|b: int| 0 <= b < 256 implies (#[trigger] chars_for(encoding)[b])
                is Some by {
                assert(is_scalar(ebcdic_277_page()[b]));
            }
        },
        Encoding::EBCDIC_278 => {
            lemma_ebcdic_278_page();
            assert forall|b: int| 0 <= b < 256 implies (#[trigger] chars_for(encoding)[b])
                is Some by {
                assert(is_scalar(ebcdic_278_page()[b]));
            }
        },
        Encoding::EBCDIC_280 => {
            lemma_ebcdic_280_page();
            assert forall|b: int| 0 <= b < 256 implies (#[trigger] chars_for(encoding)[b])
                is Some by {
                assert(is_scalar(ebcdic_280_page()[b]));
            }
        },
        Encoding::EBCDIC_284 => {
            lemma_ebcdic_284_page();
            assert forall|b: int| 0 <= b < 256 implies (#[trigger] chars_for(encoding)[b])
                is Some by {
                assert(is_scalar(ebcdic_284_page()[b]));
            }
        },
        Encoding::EBCDIC_285 => {
            lemma_ebcdic_285_page();
            assert forall|b: int| 0 <= b < 256 implies (#[trigger] chars_for(encoding)[b])
                is Some by {
                assert(is_scalar(ebcdic_285_page()[b]));
            }
        },
        Encoding::EBCDIC_297 => {
            lemma_ebcdic_297_page();
            assert forall|b: int| 0 <= b < 256 implies (#[trigger] chars_for(encoding)[b])
                is Some by {
                assert(is_scalar(ebcdic_297_page()[b]));
            }
        },
        Encoding::EBCDIC_500 => {
            lemma_ebcdic_500_page();
            assert forall|b: int| 0 <= b < 256 implies (#[trigger] chars_for(encoding)[b])
                is Some by {
                assert(is_scalar(ebcdic_500_page()[b]));
            }
        },
        Encoding::EBCDIC_1047 => {
            lemma_ebcdic_1047_page();
            assert forall|b: int| 0 <= b < 256 implies (#[trigger] chars_for(encoding)[b])
                is Some by {
                assert(is_scalar(ebcdic_1047_page()[b]));
            }
        },
        Encoding::CP_437 => {
            lemma_cp_437_high();
            assert forall|b: int| 0 <= b < 256 implies (#[trigger] chars_for(encoding)[b])
                is Some by {
                if b >= 0x80 {
                    assert(is_scalar(cp_437_high()[b - 0x80]));
                }
            }
        },
        Encoding::CP_850 => {
            lemma_cp_850_high();
            assert forall|b: int| 0 <= b < 256 implies (#[trigger] chars_for(encoding)[b])
                is Some by {
                if b >= 0x80 {
                    assert(is_scalar(cp_850_high()[b - 0x80]));
                }
            }
        },
        Encoding::CP_852 => {
            lemma_cp_852_high();
            assert forall|b: int| 0 <= b < 256 implies (#[trigger] chars_for(encoding)[b])
                is Some by {
                if b >= 0x80 {
                    assert(is_scalar(cp_852_high()[b - 0x80]));
                }
            }
        },
        Encoding::CP_855 => {
            lemma_cp_855_high();
            assert forall|b: int| 0 <= b < 256 implies (#[trigger] chars_for(encoding)[b])
                is Some by {
                if b >= 0x80 {
                    assert(is_scalar(cp_855_high()[b - 0x80]));
                }
            }
        },
        Encoding::CP_860 => {
            lemma_cp_860_high();
            assert forall|b: int| 0 <= b < 256 implies (#[trigger] chars_for(encoding)[b])
                is Some by {
                if b >= 0x80 {
                    assert(is_scalar(cp_860_high()[b - 0x80]));
                }
            }
        },
        Encoding::CP_861 => {
            lemma_cp_861_high();
            assert forall|b: int| 0 <= b < 256 implies (#[trigger] chars_for(encoding)[b])
                is Some by {
                if b >= 0x80 {
                    assert(is_scalar(cp_861_high()[b - 0x80]));
                }
            }
        },
        Encoding::CP_862 => {
            lemma_cp_862_high();
            assert forall|b: int| 0 <= b < 256 implies (#[trigger] chars_for(encoding)[b])
                is Some by {
                if b >= 0x80 {
                    assert(is_scalar(cp_862_high()[b - 0x80]));
                }
            }
        },
        Encoding::CP_863 => {
            lemma_cp_863_high();
            assert forall|b: int| 0 <= b < 256 implies (#[trigger] chars_for(encoding)[b])
                is Some by {
                if b >= 0x80 {
                    assert(is_scalar(cp_863_high()[b - 0x80]));
                }
            }
        },
        Encoding::CP_865 => {
            lemma_cp_865_high();
            assert forall|b: int| 0 <= b < 256 implies (#[trigger] chars_for(encoding)[b])
                is Some by {
                if b >= 0x80 {
                    assert(is_scalar(cp_865_high()[b - 0x80]));
                }
            }
        },
        Encoding::CP_866 => {
            lemma_cp_866_high();
            assert forall|b: int| 0 <= b < 256 implies (#[trigger] chars_for(encoding)[b])
                is Some by {
                if b >= 0x80 {
                    assert(is_scalar(cp_866_high()[b - 0x80]));
                }
            }
        },
        Encoding::MAC_ROMAN => {
            lemma_mac_roman_high();
            assert forall|b: int| 0 <= b < 256 implies (#[trigger] chars_for(encoding)[b])
                is Some by {
                if b >= 0x80 {
                    assert(is_scalar(mac_roman_high()[b - 0x80]));
                }
            }
        },
        Encoding::MAC_CYRILLIC => {
            lemma_mac_cyrillic_high();
            assert forall|b: int| 0 <= b < 256 implies (#[trigger] chars_for(encoding)[b])
                is Some by {
                if b >= 0x80 {
                    assert(is_scalar(mac_cyrillic_high()[b - 0x80]));
                }
            }
        },
        _ => {},
    }
}

/// The code page of a single-byte encoding that is not complete leaves a byte
/// without a character.
pub proof fn lemma_incomplete(encoding: Encoding)
    requires
        !encoding.is_multibyte(),
        !is_complete(encoding),
    ensures
        chars_for(encoding)[unassigned_byte(encoding) as int] is None,
{
    match encoding {
        Encoding::ISO_8859_3 => {
            lemma_iso_8859_3_high();
            assert(chars_for(encoding)[0xA5] == slot_of(iso_8859_3_high()[0xA5 - 0x80]));
        },
        Encoding::ISO_8859_6 => {
            lemma_iso_8859_6_high();
            assert(chars_for(encoding)[0xA1] == slot_of(iso_8859_6_high()[0xA1 - 0x80]));
        },
        Encoding::ISO_8859_7 => {
            lemma_iso_8859_7_high();
            assert(chars_for(encoding)[0xAE] == slot_of(iso_8859_7_high()[0xAE - 0x80]));
        },
        Encoding::ISO_8859_8 => {
            lemma_iso_8859_8_high();
            assert(chars_for(encoding)[0xA1] == slot_of(iso_8859_8_high()[0xA1 - 0x80]));
        },
        Encoding::ISO_8859_11 => {
            lemma_iso_8859_11_high();
            assert(chars_for(encoding)[0xDB] == slot_of(iso_8859_11_high()[0xDB - 0x80]));
        },
        Encoding::WINDOWS_1250 => {
            lemma_windows_1250_high();
            assert(chars_for(encoding)[0x81] == slot_of(windows_1250_high()[0x81 - 0x80]));
        },
        Encoding::WINDOWS_1251 => {
            lemma_windows_1251_high();
            assert(chars_for(encoding)[0x98] == slot_of(windows_1251_high()[0x98 - 0x80]));
        },
        Encoding::WINDOWS_1252 => {
            lemma_windows_1252_high();
            assert(chars_for(encoding)[0x81] == slot_of(windows_1252_high()[0x81 - 0x80]));
        },
        Encoding::WINDOWS_1253 => {
            lemma_windows_1253_high();
            assert(chars_for(encoding)[0x81] == slot_of(windows_1253_high()[0x81 - 0x80]));
        },
        Encoding::WINDOWS_1254 => {
            lemma_windows_1254_high();
            assert(chars_for(encoding)[0x81] == slot_of(windows_1254_high()[0x81 - 0x80]));
        },
        Encoding::WINDOWS_1255 => {
            lemma_windows_1255_high();
            assert(chars_for(encoding)[0x81] == slot_of(windows_1255_high()[0x81 - 0x80]));
        },
        Encoding::WINDOWS_1257 => {
            lemma_windows_1257_high();
            assert(chars_for(encoding)[0x81] == slot_of(windows_1257_high()[0x81 - 0x80]));
        },
        Encoding::WINDOWS_1258 => {
            lemma_windows_1258_high();
            assert(chars_for(encoding)[0x81] == slot_of(windows_1258_high()[0x81 - 0x80]));
        },
        Encoding::WINDOWS_874 => {
            lemma_windows_874_high();
            assert(chars_for(encoding)[0x81] == slot_of(windows_874_high()[0x81 - 0x80]));
        },
        Encoding::CP_857 => {
            lemma_cp_857_high();
            assert(chars_for(encoding)[0xD5] == slot_of(cp_857_high()[0xD5 - 0x80]));
        },
        _ => {},
    }
}

} // verus!
