use fast_encode::{Encoding, StreamingTranslator, Translator};

#[test]
fn test_ebcdic_to_utf8() {
    let translator = Translator::new(Encoding::EBCDIC_037, Encoding::UTF8).unwrap();

    // "HELLO" in EBCDIC
    let input = &[0xC8, 0xC5, 0xD3, 0xD3, 0xD6];
    let output = translator.convert(input).unwrap();

    assert_eq!(std::str::from_utf8(&output).unwrap(), "HELLO");
}

#[test]
fn test_in_place_conversion() {
    let translator = Translator::new(Encoding::EBCDIC_037, Encoding::ISO_8859_1).unwrap();

    let mut data = vec![0xC8, 0xC5, 0xD3, 0xD3, 0xD6]; // "HELLO" in EBCDIC
    translator.convert_in_place(&mut data).unwrap();

    assert_eq!(std::str::from_utf8(&data).unwrap(), "HELLO");
}

#[test]
fn test_streaming_translator() {
    let mut stream =
        StreamingTranslator::with_default_buffer(Encoding::EBCDIC_037, Encoding::UTF8).unwrap();

    let chunk1 = &[0xC8, 0xC5]; // "HE"
    let chunk2 = &[0xD3, 0xD3, 0xD6]; // "LLO"

    let result1 = stream.process_chunk(chunk1).unwrap();
    let result2 = stream.process_chunk(chunk2).unwrap();

    let mut combined = result1;
    combined.extend(result2);

    assert_eq!(std::str::from_utf8(&combined).unwrap(), "HELLO");
}

#[test]
fn test_encoding_properties() {
    assert_eq!(Encoding::UTF8.name(), "UTF-8");
    assert_eq!(Encoding::EBCDIC_037.name(), "IBM037");
    assert!(Encoding::UTF8.is_ascii_compatible());
    assert!(!Encoding::EBCDIC_037.is_ascii_compatible());
}

#[test]
fn test_windows_1252_special_chars() {
    let translator = Translator::new(Encoding::WINDOWS_1252, Encoding::UTF8).unwrap();

    // Euro sign (0x80 in Windows-1252)
    let input = &[0x80];
    let output = translator.convert(input).unwrap();
    assert_eq!(std::str::from_utf8(&output).unwrap(), "€");

    // Trade mark sign (0x99 in Windows-1252)
    let input = &[0x99];
    let output = translator.convert(input).unwrap();
    assert_eq!(std::str::from_utf8(&output).unwrap(), "™");
}

#[test]
fn test_ebcdic_037_complete_alphabet() {
    let translator = Translator::new(Encoding::EBCDIC_037, Encoding::UTF8).unwrap();

    let ebcdic_alphabet = &[
        // A-I
        0xC1, 0xC2, 0xC3, 0xC4, 0xC5, 0xC6, 0xC7, 0xC8, 0xC9, // J-R
        0xD1, 0xD2, 0xD3, 0xD4, 0xD5, 0xD6, 0xD7, 0xD8, 0xD9, // S-Z
        0xE2, 0xE3, 0xE4, 0xE5, 0xE6, 0xE7, 0xE8, 0xE9,
    ];

    let output = translator.convert(ebcdic_alphabet).unwrap();
    let result = std::str::from_utf8(&output).unwrap();
    assert_eq!(result, "ABCDEFGHIJKLMNOPQRSTUVWXYZ");
}

#[test]
fn test_bidirectional_conversion() {
    let translator_forward =
        Translator::new(Encoding::ISO_8859_1, Encoding::WINDOWS_1252).unwrap();
    let translator_backward =
        Translator::new(Encoding::WINDOWS_1252, Encoding::ISO_8859_1).unwrap();

    let original = b"Hello, World! \xA9\xAE"; // with the copyright and registered signs
    let forward = translator_forward.convert(original).unwrap();
    let roundtrip = translator_backward.convert(&forward).unwrap();

    assert_eq!(original, &roundtrip[..]);
}

#[test]
fn test_utf8_multibyte_conversion() {
    let translator = Translator::new(Encoding::WINDOWS_1252, Encoding::UTF8).unwrap();

    // Windows-1252 bytes for "Hello™€"
    let input = &[b'H', b'e', b'l', b'l', b'o', 0x99, 0x80];
    let output = translator.convert(input).unwrap();
    let result = std::str::from_utf8(&output).unwrap();

    assert_eq!(result, "Hello™€");

    let reverse_translator = Translator::new(Encoding::UTF8, Encoding::WINDOWS_1252).unwrap();
    let roundtrip = reverse_translator.convert(&output).unwrap();

    assert_eq!(input, &roundtrip[..]);
}

#[test]
fn test_windows_1250_central_european() {
    let translator = Translator::new(Encoding::WINDOWS_1250, Encoding::UTF8).unwrap();

    let input = &[0x80, 0x8A, 0x8C, 0x8F]; // €ŠŚŹ in Windows-1250
    let output = translator.convert(input).unwrap();
    let result = std::str::from_utf8(&output).unwrap();

    assert_eq!(result, "€ŠŚŹ");
}

#[test]
fn test_cp437_dos_characters() {
    let translator = Translator::new(Encoding::CP_437, Encoding::UTF8).unwrap();

    // Box drawing and the degree sign
    let input = &[0xC9, 0xCD, 0xBB, 0x20, 0xF8];
    let output = translator.convert(input).unwrap();
    let result = std::str::from_utf8(&output).unwrap();

    assert!(result.contains('╔'));
    assert!(result.contains('°')); // the degree sign is at 0xF8 in CP437
}

#[test]
fn test_iso_8859_15_euro_support() {
    let translator = Translator::new(Encoding::ISO_8859_15, Encoding::UTF8).unwrap();

    // Euro sign at 0xA4, where ISO-8859-1 has the currency sign
    let input = &[0xA4];
    let output = translator.convert(input).unwrap();
    let result = std::str::from_utf8(&output).unwrap();

    assert_eq!(result, "€");
}

#[test]
fn test_encoding_properties_expanded() {
    assert!(Encoding::WINDOWS_1250.is_ascii_compatible());
    assert!(Encoding::CP_437.is_ascii_compatible());
    assert!(!Encoding::EBCDIC_037.is_ascii_compatible());

    assert!(Encoding::UTF8.is_multibyte());
    assert!(Encoding::UTF16LE.is_multibyte());
    assert!(!Encoding::WINDOWS_1252.is_multibyte());

    assert_eq!(Encoding::UTF8.bom(), Some([0xEF, 0xBB, 0xBF].as_slice()));
    assert_eq!(Encoding::UTF16LE.bom(), Some([0xFF, 0xFE].as_slice()));
    assert_eq!(Encoding::WINDOWS_1252.bom(), None);
}

#[test]
fn test_utf16_conversion() {
    let translator = Translator::new(Encoding::UTF8, Encoding::UTF16LE).unwrap();

    let input = "Hello 🌍!"; // UTF-8 with a character outside the basic plane
    let output = translator.convert(input.as_bytes()).unwrap();

    assert!(output.len() > input.len());

    let reverse_translator = Translator::new(Encoding::UTF16LE, Encoding::UTF8).unwrap();
    let roundtrip = reverse_translator.convert(&output).unwrap();

    assert_eq!(input.as_bytes(), &roundtrip[..]);
}

#[test]
fn test_utf16_endianness_conversion() {
    let le_to_be = Translator::new(Encoding::UTF16LE, Encoding::UTF16BE).unwrap();

    // "Hi" in UTF-16LE (0x0048, 0x0069)
    let le_input = &[0x48, 0x00, 0x69, 0x00];
    let be_output = le_to_be.convert(le_input).unwrap();

    let expected_be = &[0x00, 0x48, 0x00, 0x69];
    assert_eq!(be_output, expected_be);

    let be_to_le = Translator::new(Encoding::UTF16BE, Encoding::UTF16LE).unwrap();
    let roundtrip = be_to_le.convert(&be_output).unwrap();
    assert_eq!(le_input, &roundtrip[..]);
}

#[test]
fn test_single_byte_to_utf16() {
    let translator = Translator::new(Encoding::WINDOWS_1252, Encoding::UTF16LE).unwrap();

    // The euro sign is 0x80 in Windows-1252
    let input = &[0x80];
    let output = translator.convert(input).unwrap();

    // U+20AC in UTF-16LE: AC 20
    let expected = &[0xAC, 0x20];
    assert_eq!(output, expected);
}
