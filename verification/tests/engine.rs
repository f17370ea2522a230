use fast_encode::bom::{add_bom, strip_bom};
use fast_encode::charmap::{CharacterMap, ReverseMap};
use fast_encode::labels::encoding_for_label;
use fast_encode::multibyte::{copy_bytes, MultiByte};
use fast_encode::tables::get_encoding_chars;
use fast_encode::translator::repeat_byte;
use fast_encode::{Encoding, Error, StreamingTranslator, TranslationTable, Translator};

const SINGLE_BYTE_ASCII_COMPATIBLE: [Encoding; 38] = [
    Encoding::ASCII,
    Encoding::ISO_8859_1,
    Encoding::ISO_8859_2,
    Encoding::ISO_8859_3,
    Encoding::ISO_8859_4,
    Encoding::ISO_8859_5,
    Encoding::ISO_8859_6,
    Encoding::ISO_8859_7,
    Encoding::ISO_8859_8,
    Encoding::ISO_8859_9,
    Encoding::ISO_8859_10,
    Encoding::ISO_8859_11,
    Encoding::ISO_8859_13,
    Encoding::ISO_8859_14,
    Encoding::ISO_8859_15,
    Encoding::ISO_8859_16,
    Encoding::WINDOWS_1250,
    Encoding::WINDOWS_1251,
    Encoding::WINDOWS_1252,
    Encoding::WINDOWS_1253,
    Encoding::WINDOWS_1254,
    Encoding::WINDOWS_1255,
    Encoding::WINDOWS_1256,
    Encoding::WINDOWS_1257,
    Encoding::WINDOWS_1258,
    Encoding::WINDOWS_874,
    Encoding::CP_437,
    Encoding::CP_850,
    Encoding::CP_852,
    Encoding::CP_855,
    Encoding::CP_857,
    Encoding::CP_860,
    Encoding::CP_861,
    Encoding::CP_862,
    Encoding::CP_863,
    Encoding::CP_865,
    Encoding::CP_866,
    Encoding::MAC_ROMAN,
];

const EBCDIC: [Encoding; 10] = [
    Encoding::EBCDIC_037,
    Encoding::EBCDIC_273,
    Encoding::EBCDIC_277,
    Encoding::EBCDIC_278,
    Encoding::EBCDIC_280,
    Encoding::EBCDIC_284,
    Encoding::EBCDIC_285,
    Encoding::EBCDIC_297,
    Encoding::EBCDIC_500,
    Encoding::EBCDIC_1047,
];

const EAST_ASIAN: [Encoding; 5] = [
    Encoding::SHIFT_JIS,
    Encoding::EUC_JP,
    Encoding::GB2312,
    Encoding::BIG5,
    Encoding::EUC_KR,
];

fn ascii_bytes() -> Vec<u8> {
    (0u8..0x80).collect()
}

#[test]
fn ascii_passes_between_all_ascii_compatible_encodings() {
    let mut all: Vec<Encoding> = SINGLE_BYTE_ASCII_COMPATIBLE.to_vec();
    all.push(Encoding::MAC_CYRILLIC);
    all.push(Encoding::UTF8);
    let input = ascii_bytes();
    for &a in &all {
        assert!(a.is_ascii_compatible());
        for &b in &all {
            let forward = Translator::new(a, b).unwrap().convert(&input).unwrap();
            assert_eq!(forward, input, "{:?} to {:?}", a, b);
            let back = Translator::new(b, a).unwrap().convert(&forward).unwrap();
            assert_eq!(back, input, "{:?} to {:?} and back", a, b);
        }
    }
}

#[test]
fn code_pages_carry_their_characters() {
    let expected = [
        (Encoding::ISO_8859_2, 0xA1, '\u{0104}'),
        (Encoding::ISO_8859_3, 0xA1, '\u{0126}'),
        (Encoding::ISO_8859_4, 0xA1, '\u{0104}'),
        (Encoding::ISO_8859_5, 0xD0, '\u{0430}'),
        (Encoding::ISO_8859_6, 0xC7, '\u{0627}'),
        (Encoding::ISO_8859_7, 0xE1, '\u{03B1}'),
        (Encoding::ISO_8859_8, 0xE0, '\u{05D0}'),
        (Encoding::ISO_8859_9, 0xFD, '\u{0131}'),
        (Encoding::ISO_8859_10, 0xA1, '\u{0104}'),
        (Encoding::ISO_8859_11, 0xA1, '\u{0E01}'),
        (Encoding::ISO_8859_13, 0xA8, '\u{00D8}'),
        (Encoding::ISO_8859_14, 0xA1, '\u{1E02}'),
        (Encoding::ISO_8859_15, 0xA4, '\u{20AC}'),
        (Encoding::ISO_8859_16, 0xA4, '\u{20AC}'),
        (Encoding::WINDOWS_1250, 0x8A, '\u{0160}'),
        (Encoding::WINDOWS_1251, 0xC0, '\u{0410}'),
        (Encoding::WINDOWS_1252, 0x80, '\u{20AC}'),
        (Encoding::WINDOWS_1253, 0xE1, '\u{03B1}'),
        (Encoding::WINDOWS_1254, 0xD0, '\u{011E}'),
        (Encoding::WINDOWS_1255, 0xE0, '\u{05D0}'),
        (Encoding::WINDOWS_1256, 0xC7, '\u{0627}'),
        (Encoding::WINDOWS_1257, 0xE0, '\u{0105}'),
        (Encoding::WINDOWS_1258, 0xFE, '\u{20AB}'),
        (Encoding::WINDOWS_874, 0xA1, '\u{0E01}'),
        (Encoding::EBCDIC_037, 0xBA, '['),
        (Encoding::EBCDIC_273, 0x4A, '\u{00C4}'),
        (Encoding::EBCDIC_273, 0xBC, '\u{00AF}'),
        (Encoding::EBCDIC_277, 0x4A, '#'),
        (Encoding::EBCDIC_278, 0x4A, '\u{00A7}'),
        (Encoding::EBCDIC_280, 0x4A, '\u{00B0}'),
        (Encoding::EBCDIC_284, 0x4A, '['),
        (Encoding::EBCDIC_285, 0x4A, '$'),
        (Encoding::EBCDIC_297, 0x4A, '\u{00B0}'),
        (Encoding::EBCDIC_500, 0xC1, 'A'),
        (Encoding::EBCDIC_1047, 0xAD, '['),
        (Encoding::CP_437, 0xC9, '\u{2554}'),
        (Encoding::CP_850, 0x9B, '\u{00F8}'),
        (Encoding::CP_852, 0x80, '\u{00C7}'),
        (Encoding::CP_855, 0x80, '\u{0452}'),
        (Encoding::CP_857, 0x98, '\u{0130}'),
        (Encoding::CP_860, 0x84, '\u{00E3}'),
        (Encoding::CP_861, 0x8B, '\u{00D0}'),
        (Encoding::CP_862, 0x80, '\u{05D0}'),
        (Encoding::CP_863, 0x84, '\u{00C2}'),
        (Encoding::CP_865, 0x9B, '\u{00F8}'),
        (Encoding::CP_866, 0x80, '\u{0410}'),
        (Encoding::MAC_ROMAN, 0x80, '\u{00C4}'),
        (Encoding::MAC_CYRILLIC, 0x80, '\u{0410}'),
        (Encoding::ISO_8859_1, 0xE9, '\u{00E9}'),
        (Encoding::ISO_8859_1, 0xFF, '\u{00FF}'),
        (Encoding::ASCII, 0x7F, '\u{007F}'),
        (Encoding::UTF8, 0x41, 'A'),
    ];
    for (encoding, byte, character) in expected {
        let map = get_encoding_chars(encoding);
        assert_eq!(map.get(byte), Some(character), "{:?} 0x{:02X}", encoding, byte);
        assert_eq!(ReverseMap::new(&map).get(character), Some(byte));
        let mut text = String::new();
        text.push(character);
        let to = Translator::new(encoding, Encoding::UTF8).unwrap();
        assert_eq!(to.convert(&[byte]).unwrap(), text.as_bytes());
        let from = Translator::new(Encoding::UTF8, encoding).unwrap();
        assert_eq!(from.convert(text.as_bytes()).unwrap(), vec![byte]);
    }
}

#[test]
fn bytes_without_a_character() {
    let undefined = [
        (Encoding::ASCII, 0x80),
        (Encoding::ASCII, 0xFF),
        (Encoding::UTF8, 0x80),
        (Encoding::ISO_8859_3, 0xA5),
        (Encoding::ISO_8859_6, 0xA1),
        (Encoding::ISO_8859_7, 0xAE),
        (Encoding::ISO_8859_8, 0xA1),
        (Encoding::ISO_8859_11, 0xDB),
        (Encoding::WINDOWS_1250, 0x81),
        (Encoding::WINDOWS_1251, 0x98),
        (Encoding::WINDOWS_1252, 0x81),
        (Encoding::WINDOWS_874, 0x81),
        (Encoding::CP_857, 0xD5),
        (Encoding::UTF16LE, 0x41),
        (Encoding::UTF16BE, 0x00),
        (Encoding::SHIFT_JIS, 0x41),
    ];
    for (encoding, byte) in undefined {
        assert_eq!(get_encoding_chars(encoding).get(byte), None, "{:?} 0x{:02X}", encoding, byte);
    }
}

#[test]
fn ebcdic_pages_are_complete_and_share_letters_and_digits() {
    for encoding in EBCDIC {
        assert!(!encoding.is_ascii_compatible());
        assert!(!encoding.is_multibyte());
        let map = get_encoding_chars(encoding);
        for byte in 0..=255u8 {
            assert!(map.get(byte).is_some(), "{:?} 0x{:02X}", encoding, byte);
        }
        let translator = Translator::new(encoding, Encoding::UTF8).unwrap();
        let letters = translator.convert(&[0xC1, 0xC9, 0xD1, 0xE9, 0x81, 0xA9, 0xF0, 0xF9, 0x40]);
        assert_eq!(letters.unwrap(), b"AIJZaz09 ");
    }
}

#[test]
fn character_maps_built_by_hand() {
    let identity = CharacterMap::identity();
    let empty = CharacterMap::empty();
    for byte in 0..=255u8 {
        assert_eq!(identity.get(byte), Some(byte as char));
        assert_eq!(empty.get(byte), None);
    }
    let mut high = [0xFFFF_FFFFu32; 128];
    high[0] = 0x20AC;
    high[1] = 0xD800;
    high[2] = 0x110000;
    high[3] = 0x1F30D;
    let map = CharacterMap::from_high(&high);
    assert_eq!(map.get(0x41), Some('A'));
    assert_eq!(map.get(0x80), Some('\u{20AC}'));
    assert_eq!(map.get(0x81), None);
    assert_eq!(map.get(0x82), None);
    assert_eq!(map.get(0x83), Some('\u{1F30D}'));
    assert_eq!(map.get(0x84), None);
    let mut page = [0x41u32; 256];
    page[0] = 0x42;
    page[255] = 0x43;
    let map = CharacterMap::from_full(&page);
    assert_eq!(map.get(0), Some('B'));
    assert_eq!(map.get(7), Some('A'));
    assert_eq!(map.get(255), Some('C'));
    let reverse = ReverseMap::new(&map);
    // of the bytes that carry 'A' the first is given
    assert_eq!(reverse.get('A'), Some(1));
    assert_eq!(reverse.get('B'), Some(0));
    assert_eq!(reverse.get('C'), Some(255));
    assert_eq!(reverse.get('D'), None);
}

#[test]
fn table_of_duplicates_takes_the_first_byte() {
    let mut page = [0x41u32; 256];
    page[0] = 0x42;
    let from = CharacterMap::identity();
    let to = CharacterMap::from_full(&page);
    let table = TranslationTable::from_maps(&from, &to);
    assert_eq!(table.translate_byte(0x41), Some(1));
    assert_eq!(table.translate_byte(0x42), Some(0));
    assert_eq!(table.translate_byte(0x43), None);
}

#[test]
fn table_refuses_multibyte_encodings() {
    let err = TranslationTable::new(Encoding::UTF8, Encoding::ASCII).unwrap_err();
    assert_eq!(err, Error::UnsupportedConversion { from: "UTF-8", to: "US-ASCII" });
    let err = TranslationTable::new(Encoding::ISO_8859_1, Encoding::UTF16BE).unwrap_err();
    assert_eq!(err, Error::UnsupportedConversion { from: "ISO-8859-1", to: "UTF-16BE" });
    let err = TranslationTable::new(Encoding::BIG5, Encoding::EUC_KR).unwrap_err();
    assert_eq!(err, Error::UnsupportedConversion { from: "Big5", to: "EUC-KR" });
    assert!(TranslationTable::new(Encoding::ISO_8859_1, Encoding::EBCDIC_037).is_ok());
}

#[test]
fn table_to_itself_is_the_identity() {
    let table = TranslationTable::new(Encoding::ISO_8859_1, Encoding::ISO_8859_1).unwrap();
    for byte in 0..=255u8 {
        assert!(table.is_mappable(byte));
        assert_eq!(table.translate_byte(byte), Some(byte));
        assert_eq!(table.translate_byte_unchecked(byte), byte);
    }
    for encoding in EBCDIC {
        let table = TranslationTable::new(encoding, encoding).unwrap();
        for byte in 0..=255u8 {
            assert_eq!(table.translate_byte(byte), Some(byte));
        }
    }
    // where a byte has no character, the table to itself cannot translate it
    let table = TranslationTable::new(Encoding::WINDOWS_1252, Encoding::WINDOWS_1252).unwrap();
    for byte in 0..=255u8 {
        let defined = !matches!(byte, 0x81 | 0x8D | 0x8F | 0x90 | 0x9D);
        assert_eq!(table.is_mappable(byte), defined);
        assert_eq!(table.translate_byte(byte), if defined { Some(byte) } else { None });
    }
}

#[test]
fn byte_0xff_is_a_target_byte_like_any_other() {
    // the no-break space is 0xA0 in ISO-8859-1 and 0xFF in code page 437
    let table = TranslationTable::new(Encoding::ISO_8859_1, Encoding::CP_437).unwrap();
    assert!(table.is_mappable(0xA0));
    assert_eq!(table.translate_byte(0xA0), Some(0xFF));
    assert_eq!(table.translate(&[0x41, 0xA0]).unwrap(), vec![0x41, 0xFF]);
    // the copyright sign has no byte in code page 437
    assert!(!table.is_mappable(0xA9));
    assert_eq!(table.translate_byte(0xA9), None);
    // what is stored does not tell the two apart: only the mask does
    assert_eq!(table.translate_byte_unchecked(0xA0), 0xFF);
    assert_eq!(table.translate_byte_unchecked(0xA9), 0xFF);
    let copy = table.clone();
    assert!(copy.is_mappable(0xA0));
    assert!(!copy.is_mappable(0xA9));
    // in the other direction 0xFF is a source byte like any other
    let back = TranslationTable::new(Encoding::CP_437, Encoding::ISO_8859_1).unwrap();
    assert_eq!(back.translate(&[0xFF]).unwrap(), vec![0xA0]);
    let mut buffer = [0xA0u8, 0xA0];
    table.translate_in_place(&mut buffer).unwrap();
    assert_eq!(buffer, [0xFF, 0xFF]);
    assert_eq!(table.translate_lossy(&[0xA0, 0xA9], b'?'), vec![0xFF, b'?']);
}

#[test]
fn mappable_means_defined_in_the_source_and_carried_by_the_target() {
    let pairs = [
        (Encoding::WINDOWS_1252, Encoding::ISO_8859_1),
        (Encoding::ISO_8859_1, Encoding::ASCII),
        (Encoding::EBCDIC_037, Encoding::CP_437),
        (Encoding::ISO_8859_7, Encoding::WINDOWS_1253),
        (Encoding::CP_866, Encoding::WINDOWS_1251),
    ];
    for (from, to) in pairs {
        let table = TranslationTable::new(from, to).unwrap();
        let source = get_encoding_chars(from);
        let target = get_encoding_chars(to);
        for byte in 0..=255u8 {
            let expected = match source.get(byte) {
                Some(c) => (0..=255u8).find(|&b| target.get(b) == Some(c)),
                None => None,
            };
            assert_eq!(table.is_mappable(byte), expected.is_some());
            assert_eq!(table.translate_byte(byte), expected);
        }
    }
}

#[test]
fn translate_fails_at_the_first_unmappable_byte() {
    let table = TranslationTable::new(Encoding::ISO_8859_1, Encoding::ASCII).unwrap();
    let err = table.translate(&[0x41, 0xE9, 0x42, 0xFC]).unwrap_err();
    assert_eq!(err, Error::UnmappableSource { byte: 0xE9, position: 1 });
    // a byte that the source itself leaves undefined
    let table = TranslationTable::new(Encoding::WINDOWS_1252, Encoding::ISO_8859_1).unwrap();
    let err = table.translate(&[0x81]).unwrap_err();
    assert_eq!(err, Error::UnmappableSource { byte: 0x81, position: 0 });
    assert_eq!(table.translate(&[]).unwrap(), Vec::<u8>::new());
}

#[test]
fn in_place_translation_is_not_undone_on_failure() {
    let table = TranslationTable::new(Encoding::ASCII, Encoding::EBCDIC_037).unwrap();
    let mut buffer = [0x41u8, 0x42, 0x80, 0x43];
    let err = table.translate_in_place(&mut buffer).unwrap_err();
    assert_eq!(err, Error::UnmappableSource { byte: 0x80, position: 2 });
    assert_eq!(buffer, [0xC1, 0xC2, 0x80, 0x43]);
    let mut buffer = [0x41u8, 0x42, 0x43];
    table.translate_in_place_scalar(&mut buffer).unwrap();
    assert_eq!(buffer, [0xC1, 0xC2, 0xC3]);
    let translator = Translator::new(Encoding::ASCII, Encoding::EBCDIC_037).unwrap();
    let mut buffer = [0x80u8, 0x41];
    let err = translator.convert_in_place(&mut buffer).unwrap_err();
    assert_eq!(err, Error::UnmappableSource { byte: 0x80, position: 0 });
    assert_eq!(buffer, [0x80, 0x41]);
}

#[test]
fn in_place_conversion_needs_a_table() {
    for (from, to) in [
        (Encoding::UTF8, Encoding::ISO_8859_1),
        (Encoding::ISO_8859_1, Encoding::UTF8),
        (Encoding::UTF16LE, Encoding::UTF16BE),
        (Encoding::UTF8, Encoding::UTF8),
        (Encoding::SHIFT_JIS, Encoding::ASCII),
    ] {
        let translator = Translator::new(from, to).unwrap();
        let mut buffer = *b"abc";
        let err = translator.convert_in_place(&mut buffer).unwrap_err();
        assert_eq!(err, Error::UnsupportedConversion { from: from.name(), to: to.name() });
        assert_eq!(&buffer, b"abc");
    }
}

fn long_input() -> Vec<u8> {
    (0..100u8).map(|i| 0x20 + (i % 0x5F)).collect()
}

#[test]
fn bulk_path_gives_what_the_scalar_path_gives() {
    let table = TranslationTable::new(Encoding::ASCII, Encoding::EBCDIC_037).unwrap();
    let clean = long_input();
    for len in [0usize, 1, 31, 32, 33, 63, 64, 65, 96, 100] {
        let input = &clean[..len];
        let mut scalar = vec![0xEEu8];
        let mut bulk = vec![0xEEu8];
        assert_eq!(table.translate_scalar(input, &mut scalar), Ok(()));
        assert_eq!(table.translate_simd(input, &mut bulk), Ok(()));
        assert_eq!(scalar, bulk);
        assert_eq!(scalar.len(), len + 1);
        assert_eq!(scalar[0], 0xEE);
        assert_eq!(table.translate(input).unwrap(), scalar[1..].to_vec());
        for bad in [0usize, 5, 31, 32, 40, 63, 64, 70, 95, 96, 99] {
            if bad >= len {
                continue;
            }
            let mut broken = input.to_vec();
            broken[bad] = 0x80;
            if bad + 7 < len {
                broken[bad + 7] = 0x90;
            }
            let expected = Error::UnmappableSource { byte: 0x80, position: bad };
            let mut scalar = Vec::new();
            let mut bulk = Vec::new();
            assert_eq!(table.translate_scalar(&broken, &mut scalar), Err(expected.clone()));
            assert_eq!(table.translate_simd(&broken, &mut bulk), Err(expected.clone()));
            assert_eq!(scalar, bulk);
            assert_eq!(scalar.len(), bad);
            assert_eq!(table.translate(&broken), Err(expected.clone()));
            let mut one = broken.clone();
            let mut other = broken.clone();
            assert_eq!(table.translate_in_place_scalar(&mut one), Err(expected.clone()));
            assert_eq!(table.translate_in_place_simd(&mut other), Err(expected.clone()));
            assert_eq!(one, other);
            assert_eq!(&one[..bad], &scalar[..]);
            assert_eq!(&one[bad..], &broken[bad..]);
            let mut third = broken.clone();
            assert_eq!(table.translate_in_place(&mut third), Err(expected));
            assert_eq!(third, one);
        }
        let mut one = input.to_vec();
        let mut other = input.to_vec();
        assert_eq!(table.translate_in_place_scalar(&mut one), Ok(()));
        assert_eq!(table.translate_in_place_simd(&mut other), Ok(()));
        assert_eq!(one, other);
        assert_eq!(one, scalar[1..].to_vec());
    }
}

#[test]
fn chunks_of_the_bulk_path() {
    let table = TranslationTable::new(Encoding::ASCII, Encoding::EBCDIC_037).unwrap();
    let mut chunk = [0x41u8; 32];
    assert!(!table.has_unmappable_simd(&chunk));
    assert_eq!(table.translate_chunk_simd(&chunk), [0xC1u8; 32]);
    chunk[31] = 0x80;
    assert!(table.has_unmappable_simd(&chunk));
    // without the mask, a byte that has no target byte comes out as 0xFF
    let unchecked = table.translate_chunk_simd(&chunk);
    assert_eq!(unchecked[31], 0xFF);
    assert_eq!(unchecked[0], 0xC1);
    chunk[31] = 0x30;
    let done = table.translate_chunk_simd(&chunk);
    assert_eq!(done[31], 0xF0);
    assert_eq!(done[30], 0xC1);
}

#[test]
fn lossy_conversion_with_a_table_replaces_byte_by_byte() {
    let translator = Translator::new(Encoding::ISO_8859_1, Encoding::ASCII).unwrap();
    assert_eq!(translator.convert_lossy(&[0x41, 0xE9, 0x42, 0xFC], b'?'), b"A?B?");
    assert_eq!(translator.convert_lossy(&[], b'?'), b"");
    assert_eq!(translator.convert_lossy(&[0xE9], 0x00), vec![0x00]);
    for replacement in [0u8, b'?', 0xFF] {
        let input: Vec<u8> = (0..=255u8).collect();
        let output = translator.convert_lossy(&input, replacement);
        assert_eq!(output.len(), input.len());
        for (i, &b) in output.iter().enumerate() {
            assert_eq!(b, if i < 0x80 { i as u8 } else { replacement });
        }
    }
}

#[test]
fn lossy_conversion_through_the_pivot_replaces_everything() {
    let translator = Translator::new(Encoding::UTF8, Encoding::ASCII).unwrap();
    // "aé": three bytes, of which the last two have no ASCII byte
    assert_eq!(translator.convert_lossy("a\u{e9}".as_bytes(), b'?'), b"???");
    assert_eq!(translator.convert_lossy(b"abc", b'?'), b"abc");
    // malformed input
    assert_eq!(translator.convert_lossy(&[0x61, 0xFF], b'#'), b"##");
    // a conversion that succeeds need not keep the length
    let latin = Translator::new(Encoding::UTF8, Encoding::ISO_8859_1).unwrap();
    assert_eq!(latin.convert_lossy("\u{e9}".as_bytes(), b'?'), vec![0xE9]);
    let wide = Translator::new(Encoding::ISO_8859_1, Encoding::UTF16LE).unwrap();
    assert_eq!(wide.convert_lossy(&[0x41], b'?'), vec![0x41, 0x00]);
    let odd = Translator::new(Encoding::UTF16LE, Encoding::UTF8).unwrap();
    assert_eq!(odd.convert_lossy(&[0x41, 0x00, 0x42], b'?'), b"???");
}

#[test]
fn translator_knows_its_encodings() {
    let translator = Translator::new(Encoding::EBCDIC_500, Encoding::UTF16BE).unwrap();
    assert_eq!(translator.from_encoding(), Encoding::EBCDIC_500);
    assert_eq!(translator.to_encoding(), Encoding::UTF16BE);
    let translator = Translator::new(Encoding::CP_850, Encoding::CP_437).unwrap();
    assert_eq!(translator.from_encoding(), Encoding::CP_850);
    assert_eq!(translator.to_encoding(), Encoding::CP_437);
}

#[test]
fn steps_refuse_the_wrong_pair() {
    let unsupported = |from: Encoding, to: Encoding| Error::UnsupportedConversion {
        from: from.name(),
        to: to.name(),
    };
    let m = MultiByte::new(Encoding::ISO_8859_1, Encoding::UTF16LE);
    assert_eq!(m.to_utf8(b"a"), Err(unsupported(Encoding::ISO_8859_1, Encoding::UTF16LE)));
    assert_eq!(m.from_utf8(b"a"), Err(unsupported(Encoding::ISO_8859_1, Encoding::UTF16LE)));
    assert_eq!(m.utf16_to_utf8(b"a"), Err(unsupported(Encoding::ISO_8859_1, Encoding::UTF16LE)));
    let m = MultiByte::new(Encoding::UTF8, Encoding::ISO_8859_1);
    assert_eq!(m.utf8_to_utf16(b"a"), Err(unsupported(Encoding::UTF8, Encoding::ISO_8859_1)));
    assert_eq!(m.to_utf8(b"a"), Err(unsupported(Encoding::UTF8, Encoding::ISO_8859_1)));
    assert_eq!(m.from_utf8(b"a"), Ok(b"a".to_vec()));
    // the pair is looked at before the input
    let m = MultiByte::new(Encoding::UTF8, Encoding::UTF8);
    assert_eq!(m.utf16_to_utf8(&[0x41]), Err(unsupported(Encoding::UTF8, Encoding::UTF8)));
    assert_eq!(m.utf8_to_utf16(&[0xFF]), Err(unsupported(Encoding::UTF8, Encoding::UTF8)));
}

#[test]
fn single_byte_to_utf8_reports_the_byte() {
    let m = MultiByte::new(Encoding::WINDOWS_1252, Encoding::UTF8);
    assert_eq!(m.to_utf8(&[0x41, 0x80, 0x81, 0x8D]), Err(Error::UnmappableSource {
        byte: 0x81,
        position: 2,
    }));
    assert_eq!(m.to_utf8(&[0x41, 0x80]).unwrap(), "A\u{20AC}".as_bytes());
    assert_eq!(m.to_utf8(&[]).unwrap(), b"");
}

#[test]
fn utf8_to_single_byte_reports_the_byte_offset_of_the_character() {
    let m = MultiByte::new(Encoding::UTF8, Encoding::ISO_8859_1);
    // 'a' at 0, 'é' at 1, '€' at 3, 'b' at 6
    let err = m.from_utf8("a\u{e9}\u{20AC}b\u{1F30D}".as_bytes()).unwrap_err();
    assert_eq!(err, Error::UnmappableTarget { character: '\u{20AC}', position: 3 });
    let err = m.from_utf8("\u{e9}\u{e9}\u{1F30D}".as_bytes()).unwrap_err();
    assert_eq!(err, Error::UnmappableTarget { character: '\u{1F30D}', position: 4 });
    assert_eq!(m.from_utf8("a\u{e9}\u{ff}".as_bytes()).unwrap(), vec![0x61, 0xE9, 0xFF]);
    let translator = Translator::new(Encoding::UTF8, Encoding::ASCII).unwrap();
    let err = translator.convert("\u{e9}".as_bytes()).unwrap_err();
    assert_eq!(err, Error::UnmappableTarget { character: '\u{e9}', position: 0 });
}

#[test]
fn malformed_utf8_is_invalid_input() {
    let invalid = Error::InvalidInput("Invalid UTF-8 sequence".to_string());
    let m = MultiByte::new(Encoding::UTF8, Encoding::ISO_8859_1);
    let wide = MultiByte::new(Encoding::UTF8, Encoding::UTF16LE);
    let cases: [&[u8]; 12] = [
        &[0xC3],
        &[0x80],
        &[0x61, 0xFF],
        &[0xC0, 0x80],
        &[0xC1, 0xBF],
        &[0xE0, 0x80, 0x80],
        &[0xE0, 0x9F, 0xBF],
        &[0xED, 0xA0, 0x80],
        &[0xED, 0xBF, 0xBF],
        &[0xF0, 0x8F, 0xBF, 0xBF],
        &[0xF4, 0x90, 0x80, 0x80],
        &[0xF8, 0x88, 0x80, 0x80, 0x80],
    ];
    for input in cases {
        assert_eq!(m.from_utf8(input), Err(invalid.clone()), "{:02X?}", input);
        assert_eq!(wide.utf8_to_utf16(input), Err(invalid.clone()), "{:02X?}", input);
    }
    // malformed input is reported before a character without a byte
    let ascii = MultiByte::new(Encoding::UTF8, Encoding::ASCII);
    assert_eq!(ascii.from_utf8(&[0xC3, 0xA9, 0xFF]), Err(invalid));
}

#[test]
fn malformed_utf16_is_invalid_input() {
    let odd = Error::InvalidInput("UTF-16 data must have even number of bytes".to_string());
    let invalid = Error::InvalidInput("Invalid UTF-16 sequence".to_string());
    let le = MultiByte::new(Encoding::UTF16LE, Encoding::UTF8);
    let be = MultiByte::new(Encoding::UTF16BE, Encoding::UTF8);
    assert_eq!(le.utf16_to_utf8(&[0x41]), Err(odd.clone()));
    assert_eq!(be.utf16_to_utf8(&[0x00, 0x41, 0x00]), Err(odd.clone()));
    // a high surrogate at the end, a low surrogate first, two high surrogates
    assert_eq!(le.utf16_to_utf8(&[0x3C, 0xD8]), Err(invalid.clone()));
    assert_eq!(le.utf16_to_utf8(&[0x0D, 0xDF, 0x41, 0x00]), Err(invalid.clone()));
    assert_eq!(le.utf16_to_utf8(&[0x3C, 0xD8, 0x3C, 0xD8]), Err(invalid.clone()));
    assert_eq!(le.utf16_to_utf8(&[0x3C, 0xD8, 0x41, 0x00]), Err(invalid.clone()));
    assert_eq!(be.utf16_to_utf8(&[0xD8, 0x3C, 0x00, 0x41]), Err(invalid.clone()));
    // an odd length is reported before anything else
    assert_eq!(le.utf16_to_utf8(&[0x3C, 0xD8, 0x41]), Err(odd));
    // the same bytes are well-formed in the other byte order
    assert_eq!(be.utf16_to_utf8(&[0x3C, 0xD8]).unwrap(), "\u{3CD8}".as_bytes());
    assert_eq!(le.utf16_to_utf8(&[0x3C, 0xD8, 0x0D, 0xDF]).unwrap(), "\u{1F30D}".as_bytes());
    assert_eq!(be.utf16_to_utf8(&[0xD8, 0x3C, 0xDF, 0x0D]).unwrap(), "\u{1F30D}".as_bytes());
}

#[test]
fn utf16_to_single_byte_counts_positions_in_the_utf8_text() {
    let translator = Translator::new(Encoding::UTF16LE, Encoding::ISO_8859_1).unwrap();
    let input: Vec<u8> = "\u{e9}a\u{20AC}".encode_utf16().flat_map(|u| u.to_le_bytes()).collect();
    // in UTF-8 'é' takes two bytes and 'a' one, so '€' starts at 3
    let err = translator.convert(&input).unwrap_err();
    assert_eq!(err, Error::UnmappableTarget { character: '\u{20AC}', position: 3 });
    let input: Vec<u8> = "\u{e9}a".encode_utf16().flat_map(|u| u.to_le_bytes()).collect();
    assert_eq!(translator.convert(&input).unwrap(), vec![0xE9, 0x61]);
}

#[test]
fn single_byte_to_utf16_in_both_byte_orders() {
    let le = Translator::new(Encoding::EBCDIC_037, Encoding::UTF16LE).unwrap();
    let be = Translator::new(Encoding::EBCDIC_037, Encoding::UTF16BE).unwrap();
    assert_eq!(le.convert(&[0xC8, 0x89]).unwrap(), vec![0x48, 0x00, 0x69, 0x00]);
    assert_eq!(be.convert(&[0xC8, 0x89]).unwrap(), vec![0x00, 0x48, 0x00, 0x69]);
    let err = Translator::new(Encoding::ASCII, Encoding::UTF16BE).unwrap().convert(&[0x41, 0x80]);
    assert_eq!(err, Err(Error::UnmappableSource { byte: 0x80, position: 1 }));
}

#[test]
fn utf16_to_the_same_utf16_is_a_copy() {
    for encoding in [Encoding::UTF16LE, Encoding::UTF16BE] {
        let translator = Translator::new(encoding, encoding).unwrap();
        // neither an odd length nor a lone surrogate is looked at
        for input in [&[0x41u8][..], &[0x3C, 0xD8], &[], &[0x41, 0x00, 0x42, 0x00]] {
            assert_eq!(translator.convert(input).unwrap(), input);
        }
    }
}

#[test]
fn utf16_byte_orders_convert_into_each_other() {
    let text = "Hi \u{e9}\u{20AC}\u{1F30D}\u{10FFFF}\u{FFFF}\u{D7FF}\u{E000}";
    let le: Vec<u8> = text.encode_utf16().flat_map(|u| u.to_le_bytes()).collect();
    let be: Vec<u8> = text.encode_utf16().flat_map(|u| u.to_be_bytes()).collect();
    let le_to_be = Translator::new(Encoding::UTF16LE, Encoding::UTF16BE).unwrap();
    let be_to_le = Translator::new(Encoding::UTF16BE, Encoding::UTF16LE).unwrap();
    assert_eq!(le_to_be.convert(&le).unwrap(), be);
    assert_eq!(be_to_le.convert(&be).unwrap(), le);
    assert_eq!(be_to_le.convert(&le_to_be.convert(&le).unwrap()).unwrap(), le);
    assert_eq!(le_to_be.convert(&be_to_le.convert(&be).unwrap()).unwrap(), be);
    let invalid = Error::InvalidInput("Invalid UTF-16 sequence".to_string());
    assert_eq!(le_to_be.convert(&[0x3C, 0xD8]), Err(invalid));
    let utf8 = Translator::new(Encoding::UTF16BE, Encoding::UTF8).unwrap();
    assert_eq!(utf8.convert(&be).unwrap(), text.as_bytes());
    let back = Translator::new(Encoding::UTF8, Encoding::UTF16BE).unwrap();
    assert_eq!(back.convert(text.as_bytes()).unwrap(), be);
}

#[test]
fn utf8_to_utf8_reads_single_bytes() {
    let translator = Translator::new(Encoding::UTF8, Encoding::UTF8).unwrap();
    assert_eq!(translator.convert(b"plain").unwrap(), b"plain");
    let err = translator.convert("\u{e9}".as_bytes()).unwrap_err();
    assert_eq!(err, Error::UnmappableSource { byte: 0xC3, position: 0 });
}

#[test]
fn east_asian_tags_carry_no_characters() {
    for encoding in EAST_ASIAN {
        assert!(encoding.is_multibyte());
        assert!(!encoding.is_ascii_compatible());
        assert_eq!(encoding.bom(), None);
        let to = Translator::new(encoding, Encoding::UTF8).unwrap();
        assert_eq!(to.convert(b"a"), Err(Error::UnmappableSource { byte: b'a', position: 0 }));
        assert_eq!(to.convert(b"").unwrap(), b"");
        let from = Translator::new(Encoding::UTF8, encoding).unwrap();
        assert_eq!(from.convert(b"a"), Err(Error::UnmappableTarget {
            character: 'a',
            position: 0,
        }));
        let wide = Translator::new(Encoding::UTF16LE, encoding).unwrap();
        assert_eq!(wide.convert(&[0x41, 0x00]), Err(Error::UnmappableTarget {
            character: 'A',
            position: 0,
        }));
        let other = Translator::new(encoding, Encoding::EUC_KR).unwrap();
        assert_eq!(other.convert(b"a"), Err(Error::UnmappableSource { byte: b'a', position: 0 }));
    }
}

#[test]
fn streaming_converts_each_chunk_by_itself() {
    let mut stream = StreamingTranslator::new(Encoding::UTF8, Encoding::ISO_8859_1, 16).unwrap();
    assert_eq!(stream.process_chunk(b"caf").unwrap(), b"caf");
    // 'é' cut in two: neither half is well-formed by itself
    let invalid = Error::InvalidInput("Invalid UTF-8 sequence".to_string());
    assert_eq!(stream.process_chunk(&[0xC3]), Err(invalid.clone()));
    assert_eq!(stream.process_chunk(&[0xA9]), Err(invalid));
    // an error leaves nothing behind
    assert_eq!(stream.process_chunk(&[0xC3, 0xA9]).unwrap(), vec![0xE9]);
    let mut table = StreamingTranslator::new(Encoding::ASCII, Encoding::EBCDIC_037, 0).unwrap();
    assert_eq!(table.process_chunk(b"AB").unwrap(), vec![0xC1, 0xC2]);
    assert_eq!(table.process_chunk(&[0x80]), Err(Error::UnmappableSource {
        byte: 0x80,
        position: 0,
    }));
    assert_eq!(table.process_chunk(b"").unwrap(), b"");
}

#[test]
fn every_pair_has_a_translator() {
    let mut all: Vec<Encoding> = SINGLE_BYTE_ASCII_COMPATIBLE.to_vec();
    all.push(Encoding::MAC_CYRILLIC);
    all.extend(EBCDIC);
    all.extend(EAST_ASIAN);
    all.extend([Encoding::UTF8, Encoding::UTF16LE, Encoding::UTF16BE]);
    assert_eq!(all.len(), 57);
    for &from in &all {
        for &to in [Encoding::UTF8, Encoding::ISO_8859_1, Encoding::UTF16BE, Encoding::BIG5].iter() {
            let translator = Translator::new(from, to).unwrap();
            assert_eq!(translator.from_encoding(), from);
            assert_eq!(translator.to_encoding(), to);
            assert_eq!(translator.convert(&[]).unwrap(), Vec::<u8>::new());
            assert!(StreamingTranslator::with_default_buffer(from, to).is_ok());
        }
    }
}

#[test]
fn bytes_helpers() {
    assert_eq!(copy_bytes(b"abc"), b"abc");
    assert_eq!(copy_bytes(b""), b"");
    assert_eq!(repeat_byte(b'?', 3), b"???");
    assert_eq!(repeat_byte(0, 0), b"");
}

#[test]
fn encoding_tags() {
    assert_eq!(Encoding::UTF16BE.bom(), Some([0xFE, 0xFF].as_slice()));
    assert_eq!(Encoding::ASCII.bom(), None);
    assert!(Encoding::UTF16LE.is_utf16());
    assert!(Encoding::UTF16BE.is_utf16());
    assert!(!Encoding::UTF8.is_utf16());
    assert!(!Encoding::UTF16LE.is_ascii_compatible());
    assert!(Encoding::MAC_CYRILLIC.is_ascii_compatible());
    assert!(Encoding::ASCII.is_ascii_compatible());
    assert!(!Encoding::ASCII.is_multibyte());
    assert_eq!(Encoding::ASCII.name(), "US-ASCII");
    assert_eq!(Encoding::UTF16LE.name(), "UTF-16LE");
    assert_eq!(Encoding::ISO_8859_15.name(), "ISO-8859-15");
    assert_eq!(Encoding::WINDOWS_874.name(), "Windows-874");
    assert_eq!(Encoding::EBCDIC_1047.name(), "IBM1047");
    assert_eq!(Encoding::CP_866.name(), "CP866");
    assert_eq!(Encoding::MAC_ROMAN.name(), "MacRoman");
    assert_eq!(Encoding::MAC_CYRILLIC.name(), "MacCyrillic");
    assert_eq!(Encoding::SHIFT_JIS.name(), "Shift_JIS");
    assert_eq!(Encoding::EUC_KR.name(), "EUC-KR");
}

#[test]
fn labels_name_encodings_without_regard_to_case() {
    let expected = [
        ("utf8", Encoding::UTF8),
        ("UTF-8", Encoding::UTF8),
        ("Utf-16le", Encoding::UTF16LE),
        ("utf16be", Encoding::UTF16BE),
        ("ascii", Encoding::ASCII),
        ("us-ascii", Encoding::ASCII),
        ("latin1", Encoding::ISO_8859_1),
        ("ISO-8859-1", Encoding::ISO_8859_1),
        ("iso885915", Encoding::ISO_8859_15),
        ("Latin9", Encoding::ISO_8859_15),
        ("latin10", Encoding::ISO_8859_16),
        ("iso-8859-5", Encoding::ISO_8859_5),
        ("cp1252", Encoding::WINDOWS_1252),
        ("Win1250", Encoding::WINDOWS_1250),
        ("windows874", Encoding::WINDOWS_874),
        ("ibm037", Encoding::EBCDIC_037),
        ("cp037", Encoding::EBCDIC_037),
        ("ebcdic1047", Encoding::EBCDIC_1047),
        ("cp500", Encoding::EBCDIC_500),
        ("cp437", Encoding::CP_437),
        ("dos866", Encoding::CP_866),
        ("MacRoman", Encoding::MAC_ROMAN),
        ("mac-cyrillic", Encoding::MAC_CYRILLIC),
        ("shift_jis", Encoding::SHIFT_JIS),
        ("Shift-JIS", Encoding::SHIFT_JIS),
        ("euc-jp", Encoding::EUC_JP),
        ("gb2312", Encoding::GB2312),
        ("Big5", Encoding::BIG5),
        ("euckr", Encoding::EUC_KR),
    ];
    for (label, encoding) in expected {
        assert_eq!(Encoding::from_label(label), Some(encoding), "{}", label);
    }
    for label in ["", "utf", "utf-32", "latin", "windows-1252", "iso-8859-12", "cp1259", " utf8"] {
        assert_eq!(Encoding::from_label(label), None, "{}", label);
    }
    // the table itself is in upper case
    assert_eq!(encoding_for_label("UTF8"), Some(Encoding::UTF8));
    assert_eq!(encoding_for_label("utf8"), None);
    assert_eq!(encoding_for_label("LATIN7"), Some(Encoding::ISO_8859_13));
}

#[test]
fn byte_order_marks_come_off_and_go_on() {
    assert_eq!(strip_bom(Encoding::UTF8, &[0xEF, 0xBB, 0xBF, 0x41]), &[0x41]);
    assert_eq!(strip_bom(Encoding::UTF8, &[0xEF, 0xBB, 0x41]), &[0xEF, 0xBB, 0x41]);
    assert_eq!(strip_bom(Encoding::UTF8, &[0xFF, 0xFE, 0x41, 0x00]), &[0xFF, 0xFE, 0x41, 0x00]);
    assert_eq!(strip_bom(Encoding::UTF16LE, &[0xFF, 0xFE, 0x41, 0x00]), &[0x41, 0x00]);
    assert_eq!(strip_bom(Encoding::UTF16BE, &[0xFE, 0xFF]), &[] as &[u8]);
    assert_eq!(strip_bom(Encoding::ISO_8859_1, &[0xEF, 0xBB, 0xBF]), &[0xEF, 0xBB, 0xBF]);
    assert_eq!(strip_bom(Encoding::UTF8, &[]), &[] as &[u8]);
    assert_eq!(add_bom(Encoding::UTF8, vec![0x41]), vec![0xEF, 0xBB, 0xBF, 0x41]);
    assert_eq!(add_bom(Encoding::UTF16LE, vec![0x41, 0x00]), vec![0xFF, 0xFE, 0x41, 0x00]);
    assert_eq!(add_bom(Encoding::UTF16BE, vec![]), vec![0xFE, 0xFF]);
    assert_eq!(add_bom(Encoding::CP_437, vec![0x41]), vec![0x41]);
    for encoding in [Encoding::UTF8, Encoding::UTF16LE, Encoding::UTF16BE, Encoding::ASCII] {
        let data = vec![0xEF, 0xBB, 0xBF, 0x00];
        assert_eq!(strip_bom(encoding, &add_bom(encoding, data.clone())), &data[..]);
    }
}

fn every_single_byte_encoding() -> Vec<Encoding> {
    let mut all: Vec<Encoding> = SINGLE_BYTE_ASCII_COMPATIBLE.to_vec();
    all.push(Encoding::MAC_CYRILLIC);
    all.extend(EBCDIC);
    all
}

#[test]
fn no_code_page_carries_a_character_at_two_bytes() {
    let mut all = every_single_byte_encoding();
    all.extend(EAST_ASIAN);
    all.extend([Encoding::UTF8, Encoding::UTF16LE, Encoding::UTF16BE]);
    for encoding in all {
        let map = get_encoding_chars(encoding);
        let reverse = ReverseMap::new(&map);
        for byte in 0..=255u8 {
            if let Some(c) = map.get(byte) {
                assert_eq!(reverse.get(c), Some(byte), "{:?} 0x{:02X}", encoding, byte);
            }
        }
    }
}

#[test]
fn complete_code_pages() {
    let complete = [
        Encoding::ISO_8859_1,
        Encoding::ISO_8859_2,
        Encoding::ISO_8859_4,
        Encoding::ISO_8859_5,
        Encoding::ISO_8859_9,
        Encoding::ISO_8859_10,
        Encoding::ISO_8859_13,
        Encoding::ISO_8859_14,
        Encoding::ISO_8859_15,
        Encoding::ISO_8859_16,
        Encoding::WINDOWS_1256,
        Encoding::CP_437,
        Encoding::CP_850,
        Encoding::CP_852,
        Encoding::CP_855,
        Encoding::CP_860,
        Encoding::CP_861,
        Encoding::CP_862,
        Encoding::CP_863,
        Encoding::CP_865,
        Encoding::CP_866,
        Encoding::MAC_ROMAN,
        Encoding::MAC_CYRILLIC,
    ];
    for encoding in every_single_byte_encoding() {
        let map = get_encoding_chars(encoding);
        let defined = (0..=255u8).filter(|&b| map.get(b).is_some()).count();
        let whole = complete.contains(&encoding) || EBCDIC.contains(&encoding);
        assert_eq!(defined == 256, whole, "{:?}", encoding);
        let table = TranslationTable::new(encoding, encoding).unwrap();
        for byte in 0..=255u8 {
            let expected = if map.get(byte).is_some() { Some(byte) } else { None };
            assert_eq!(table.translate_byte(byte), expected);
        }
    }
    let gaps = [
        (Encoding::ASCII, 0x80),
        (Encoding::ISO_8859_3, 0xA5),
        (Encoding::ISO_8859_6, 0xA1),
        (Encoding::ISO_8859_7, 0xAE),
        (Encoding::ISO_8859_8, 0xA1),
        (Encoding::ISO_8859_11, 0xDB),
        (Encoding::WINDOWS_1250, 0x81),
        (Encoding::WINDOWS_1251, 0x98),
        (Encoding::WINDOWS_1252, 0x81),
        (Encoding::WINDOWS_1253, 0x81),
        (Encoding::WINDOWS_1254, 0x81),
        (Encoding::WINDOWS_1255, 0x81),
        (Encoding::WINDOWS_1257, 0x81),
        (Encoding::WINDOWS_1258, 0x81),
        (Encoding::WINDOWS_874, 0x81),
        (Encoding::CP_857, 0xD5),
    ];
    for (encoding, byte) in gaps {
        let table = TranslationTable::new(encoding, encoding).unwrap();
        assert!(!table.is_mappable(byte), "{:?} 0x{:02X}", encoding, byte);
    }
}

#[test]
fn single_byte_text_survives_utf8_and_back() {
    for encoding in every_single_byte_encoding() {
        let map = get_encoding_chars(encoding);
        let input: Vec<u8> = (0..=255u8).filter(|&b| map.get(b).is_some()).collect();
        let to = Translator::new(encoding, Encoding::UTF8).unwrap();
        let from = Translator::new(Encoding::UTF8, encoding).unwrap();
        let text = to.convert(&input).unwrap();
        assert!(std::str::from_utf8(&text).is_ok());
        assert_eq!(from.convert(&text).unwrap(), input, "{:?}", encoding);
        let wide = Translator::new(encoding, Encoding::UTF16BE).unwrap();
        let narrow = Translator::new(Encoding::UTF16BE, encoding).unwrap();
        assert_eq!(narrow.convert(&wide.convert(&input).unwrap()).unwrap(), input);
    }
}

#[test]
fn what_a_table_translates_comes_back() {
    let all = every_single_byte_encoding();
    for &a in &all {
        for &b in &all {
            let forth = TranslationTable::new(a, b).unwrap();
            let back = TranslationTable::new(b, a).unwrap();
            let input: Vec<u8> = (0..=255u8).filter(|&x| forth.is_mappable(x)).collect();
            let there = forth.translate(&input).unwrap();
            assert_eq!(back.translate(&there).unwrap(), input, "{:?} {:?}", a, b);
        }
    }
}
