use fast_encode::utf16::{first_unit, push_unit, push_utf16, read_unit};
use fast_encode::utf8::{first_scalar, is_continuation, is_valid_utf8, next_char, push_utf8};

#[test]
fn push_utf8_encodes_every_character_as_std_does() {
    let mut out = Vec::new();
    let mut buf = [0u8; 4];
    for v in 0..=0x10FFFFu32 {
        if let Some(c) = char::from_u32(v) {
            out.clear();
            push_utf8(&mut out, c);
            assert_eq!(out.as_slice(), c.encode_utf8(&mut buf).as_bytes());
        }
    }
    let mut out = vec![0xAAu8];
    push_utf8(&mut out, '\u{20AC}');
    assert_eq!(out, vec![0xAA, 0xE2, 0x82, 0xAC]);
}

#[test]
fn first_scalar_decodes_every_character() {
    let mut buf = [0u8; 4];
    for v in 0..=0x10FFFFu32 {
        if let Some(c) = char::from_u32(v) {
            let n = c.encode_utf8(&mut buf).len();
            assert_eq!(first_scalar(&buf[..n], 0), Some((c, n)));
        }
    }
    let text = "a\u{e9}\u{20AC}\u{1F30D}".as_bytes();
    assert_eq!(first_scalar(text, 0), Some(('a', 1)));
    assert_eq!(first_scalar(text, 1), Some(('\u{e9}', 2)));
    assert_eq!(first_scalar(text, 2), None);
    assert_eq!(first_scalar(text, 3), Some(('\u{20AC}', 3)));
    assert_eq!(first_scalar(text, 6), Some(('\u{1F30D}', 4)));
    assert_eq!(first_scalar(&text[..9], 6), None);
    assert_eq!(first_scalar(text, 10), None);
    assert_eq!(first_scalar(text, 11), None);
    assert_eq!(first_scalar(&[], 0), None);
    assert_eq!(next_char(text, 3), ('\u{20AC}', 3));
    assert_eq!(next_char(text, 6), ('\u{1F30D}', 4));
}

#[test]
fn is_valid_utf8_agrees_with_std() {
    let interesting = [
        0x00u8, 0x41, 0x7F, 0x80, 0x8F, 0x90, 0x9F, 0xA0, 0xBF, 0xC0, 0xC1, 0xC2, 0xDF, 0xE0, 0xE1,
        0xEC, 0xED, 0xEE, 0xEF, 0xF0, 0xF1, 0xF3, 0xF4, 0xF5, 0xF7, 0xF8, 0xFF,
    ];
    assert!(is_valid_utf8(&[]));
    for &a in &interesting {
        assert_eq!(is_valid_utf8(&[a]), std::str::from_utf8(&[a]).is_ok());
        for &b in &interesting {
            assert_eq!(is_valid_utf8(&[a, b]), std::str::from_utf8(&[a, b]).is_ok());
            for &c in &interesting {
                let three = [a, b, c];
                assert_eq!(is_valid_utf8(&three), std::str::from_utf8(&three).is_ok());
                for &d in &interesting {
                    let four = [a, b, c, d];
                    assert_eq!(
                        is_valid_utf8(&four),
                        std::str::from_utf8(&four).is_ok(),
                        "{:02X?}",
                        four
                    );
                }
            }
        }
    }
    for byte in 0..=255u8 {
        assert_eq!(is_continuation(byte), (0x80..=0xBF).contains(&byte));
    }
}

#[test]
fn push_utf16_encodes_every_character_as_std_does() {
    let mut le = Vec::new();
    let mut be = Vec::new();
    let mut buf = [0u16; 2];
    for v in 0..=0x10FFFFu32 {
        if let Some(c) = char::from_u32(v) {
            le.clear();
            be.clear();
            push_utf16(&mut le, c, false);
            push_utf16(&mut be, c, true);
            let units = c.encode_utf16(&mut buf);
            let expected_le: Vec<u8> = units.iter().flat_map(|u| u.to_le_bytes()).collect();
            let expected_be: Vec<u8> = units.iter().flat_map(|u| u.to_be_bytes()).collect();
            assert_eq!(le, expected_le);
            assert_eq!(be, expected_be);
            assert_eq!(first_unit(&le, 0, false), Some((c, units.len())));
            assert_eq!(first_unit(&be, 0, true), Some((c, units.len())));
        }
    }
}

#[test]
fn units_in_both_byte_orders() {
    let bytes = [0x12u8, 0x34, 0x56, 0x78];
    assert_eq!(read_unit(&bytes, 0, true), 0x1234);
    assert_eq!(read_unit(&bytes, 0, false), 0x3412);
    assert_eq!(read_unit(&bytes, 1, true), 0x5678);
    assert_eq!(read_unit(&bytes, 1, false), 0x7856);
    let mut out = Vec::new();
    push_unit(&mut out, 0xABCD, true);
    push_unit(&mut out, 0xABCD, false);
    assert_eq!(out, vec![0xAB, 0xCD, 0xCD, 0xAB]);
}

#[test]
fn surrogates_need_their_partner() {
    // high surrogate D83C, low surrogate DF0D
    assert_eq!(first_unit(&[0xD8, 0x3C, 0xDF, 0x0D], 0, true), Some(('\u{1F30D}', 2)));
    assert_eq!(first_unit(&[0xD8, 0x3C, 0xDF, 0x0D], 1, true), None);
    assert_eq!(first_unit(&[0xD8, 0x3C], 0, true), None);
    assert_eq!(first_unit(&[0xD8, 0x3C, 0x00, 0x41], 0, true), None);
    assert_eq!(first_unit(&[0xD8, 0x3C, 0xD8, 0x3C], 0, true), None);
    assert_eq!(first_unit(&[0xDB, 0xFF, 0xDF, 0xFF], 0, true), Some(('\u{10FFFF}', 2)));
    assert_eq!(first_unit(&[0xD8, 0x00, 0xDC, 0x00], 0, true), Some(('\u{10000}', 2)));
    assert_eq!(first_unit(&[0xD7, 0xFF], 0, true), Some(('\u{D7FF}', 1)));
    // a unit that is not there, and a last byte without its partner
    assert_eq!(first_unit(&[0x00, 0x41], 1, true), None);
    assert_eq!(first_unit(&[0x00, 0x41, 0x00], 1, true), None);
    assert_eq!(first_unit(&[0x00, 0x41, 0x00], 0, true), Some(('A', 1)));
    assert_eq!(first_unit(&[], 0, false), None);
    assert_eq!(first_unit(&[0xE0, 0x00], 0, true), Some(('\u{E000}', 1)));
}
