use fast_encode::confidence::Confidence;
use fast_encode::detection::{DetectionResult, EncodingDetector};
use fast_encode::hint::{apply_hint, language_group, same_text, suits, LanguageGroup};
use fast_encode::ranking::rank;
use fast_encode::Encoding;

fn value(confidence: &Confidence) -> f64 {
    confidence.numerator() as f64 / confidence.denominator() as f64
}

fn listed(result: &DetectionResult) -> Vec<Encoding> {
    result.candidates.iter().map(|c| c.0).collect()
}

#[test]
fn test_encoding_detection() {
    let detector = EncodingDetector::new();

    // UTF-8 byte-order mark
    let utf8_bom = &[0xEF, 0xBB, 0xBF, b'H', b'e', b'l', b'l', b'o'];
    let result = detector.detect(utf8_bom);
    assert_eq!(result.encoding, Encoding::UTF8);
    assert!(result.bom_detected);
    assert!(value(&result.confidence) > 0.9);

    // UTF-16LE byte-order mark
    let utf16le_bom = &[0xFF, 0xFE, b'H', 0x00, b'i', 0x00];
    let result = detector.detect(utf16le_bom);
    assert_eq!(result.encoding, Encoding::UTF16LE);
    assert!(result.bom_detected);

    // ASCII
    let ascii_text = b"Hello, World! This is plain ASCII text.";
    let result = detector.detect(ascii_text);
    assert_eq!(result.encoding, Encoding::ASCII);
    assert!(value(&result.confidence) > 0.7);

    // UTF-8 without a byte-order mark
    let utf8_text = "Hello 世界! This contains Unicode: 🌍".as_bytes();
    let result = detector.detect(utf8_text);
    assert_eq!(result.encoding, Encoding::UTF8);
    assert!(value(&result.confidence) > 0.7);
}

#[test]
fn test_detection_with_language_hint() {
    let detector = EncodingDetector::new();

    let text_with_euro = &[b'H', b'e', b'l', b'l', b'o', b' ', 0x80];

    let result1 = detector.detect(text_with_euro);
    let result2 = detector.detect_with_hint(text_with_euro, "german");

    if result1.encoding == Encoding::WINDOWS_1252 {
        assert!(value(&result2.confidence) >= value(&result1.confidence));
    }
}

#[test]
fn bom_utf8_is_certain() {
    let result = EncodingDetector::new().detect(&[0xEF, 0xBB, 0xBF, b'H', b'e', b'l', b'l', b'o']);
    assert_eq!(result.encoding, Encoding::UTF8);
    assert!(result.confidence.is_exactly(1, 1));
    assert_eq!(value(&result.confidence), 1.0);
    assert!(result.bom_detected);
    assert_eq!(listed(&result), vec![Encoding::UTF8]);
    assert!(result.candidates[0].1.is_exactly(1, 1));
}

#[test]
fn bom_utf16_both_orders() {
    let detector = EncodingDetector::new();
    let le = detector.detect(&[0xFF, 0xFE, b'H', 0x00, b'i', 0x00]);
    assert_eq!(le.encoding, Encoding::UTF16LE);
    assert!(le.bom_detected);
    assert!(le.confidence.is_exactly(1, 1));
    let be = detector.detect(&[0xFE, 0xFF, 0x00, b'H', 0x00, b'i']);
    assert_eq!(be.encoding, Encoding::UTF16BE);
    assert!(be.bom_detected);
    assert_eq!(listed(&be), vec![Encoding::UTF16BE]);
}

#[test]
fn detect_bom_gives_the_length_of_the_mark() {
    let detector = EncodingDetector::new();
    assert_eq!(detector.detect_bom(&[0xEF, 0xBB, 0xBF, 0x41]), Some((Encoding::UTF8, 3)));
    assert_eq!(detector.detect_bom(&[0xFF, 0xFE]), Some((Encoding::UTF16LE, 2)));
    assert_eq!(detector.detect_bom(&[0xFE, 0xFF, 0x00]), Some((Encoding::UTF16BE, 2)));
    assert_eq!(detector.detect_bom(&[0xEF, 0xBB]), None);
    assert_eq!(detector.detect_bom(&[]), None);
}

#[test]
fn plain_ascii_is_ascii_at_four_fifths() {
    let result = EncodingDetector::new().detect(b"Hello, World! This is plain ASCII text.");
    assert_eq!(result.encoding, Encoding::ASCII);
    assert!(result.confidence.is_exactly(4, 5));
    assert!(result.confidence.is_at_least(7, 10));
    assert!(!result.bom_detected);
    assert_eq!(listed(&result), vec![Encoding::ASCII, Encoding::UTF8]);
    assert!(result.candidates[1].1.is_exactly(1, 2));
}

#[test]
fn utf8_confidence_grows_with_the_share_of_multibyte_bytes() {
    let text = "Hello 世界! This contains Unicode: 🌍".as_bytes();
    let result = EncodingDetector::new().detect(text);
    assert_eq!(result.encoding, Encoding::UTF8);
    // 10 of 41 bytes belong to sequences of several bytes: 7/10 + 3/10 * 10/41
    assert_eq!(text.len(), 41);
    assert!(result.confidence.is_exactly(317, 410));
    assert_eq!(
        listed(&result),
        vec![Encoding::UTF8, Encoding::ISO_8859_1, Encoding::WINDOWS_1250]
    );
    assert!(result.candidates[1].1.is_exactly(1, 2));
    assert!(result.candidates[2].1.is_exactly(9, 40));
}

#[test]
fn utf8_scorer_alone() {
    let detector = EncodingDetector::new();
    assert!(detector.detect_utf8(b"abc").unwrap().is_exactly(1, 2));
    assert!(detector.detect_utf8(b"").unwrap().is_exactly(1, 2));
    // two bytes of four in a sequence: 7/10 + 3/10 * 2/4
    assert!(detector.detect_utf8(&[0x61, 0xC3, 0xA9, 0x62]).unwrap().is_exactly(17, 20));
    // all bytes in sequences: 7/10 + 3/10
    assert!(detector.detect_utf8(&[0xE2, 0x82, 0xAC]).unwrap().is_exactly(1, 1));
    assert!(detector.detect_utf8(&[0xF0, 0x9F, 0x8C, 0x8D]).unwrap().is_exactly(1, 1));
    // a lead byte without its continuation bytes
    assert!(detector.detect_utf8(&[0x61, 0xC3]).is_none());
    assert!(detector.detect_utf8(&[0xE2, 0x82]).is_none());
    assert!(detector.detect_utf8(&[0xC3, 0x41]).is_none());
    // a continuation byte on its own, and a byte that is never a lead byte
    assert!(detector.detect_utf8(&[0x80]).is_none());
    assert!(detector.detect_utf8(&[0xF8, 0x80, 0x80, 0x80, 0x80]).is_none());
}

#[test]
fn utf16_scorer_picks_the_byte_order() {
    let detector = EncodingDetector::new();
    let le: Vec<u8> = "Hi there".encode_utf16().flat_map(|u| u.to_le_bytes()).collect();
    let be: Vec<u8> = "Hi there".encode_utf16().flat_map(|u| u.to_be_bytes()).collect();
    let (encoding, confidence) = detector.detect_utf16(&le).unwrap();
    assert_eq!(encoding, Encoding::UTF16LE);
    // every unit scores 1 + 1/2; 3/2 * 4/5
    assert!(confidence.is_exactly(6, 5));
    let (encoding, confidence) = detector.detect_utf16(&be).unwrap();
    assert_eq!(encoding, Encoding::UTF16BE);
    assert!(confidence.is_exactly(6, 5));
    // odd length, too short, and no byte order ahead
    assert!(detector.detect_utf16(&[0x48, 0x00, 0x69]).is_none());
    assert!(detector.detect_utf16(&[0x48]).is_none());
    assert!(detector.detect_utf16(&[]).is_none());
    assert!(detector.detect_utf16(b"Hi").is_none());
    assert!(detector.detect_utf16(&[0x00, 0x00, 0x00, 0x00]).is_none());
    // one unit in two is plausible: score 3/4, confidence 3/5
    let (encoding, confidence) = detector.detect_utf16(&[0x48, 0x00, 0x48, 0x48]).unwrap();
    assert_eq!(encoding, Encoding::UTF16LE);
    assert!(confidence.is_exactly(3, 5));
    // a score of exactly 3/5 is not enough: two units in five
    let weak = [0x41, 0x00, 0x41, 0x00, 0x41, 0x41, 0x41, 0x41, 0x41, 0x41];
    assert!(detector.detect_utf16(&weak).is_none());
}

#[test]
fn utf16_text_outranks_ascii() {
    let le: Vec<u8> = "Hi there".encode_utf16().flat_map(|u| u.to_le_bytes()).collect();
    let result = EncodingDetector::new().detect(&le);
    assert_eq!(result.encoding, Encoding::UTF16LE);
    assert!(result.confidence.is_exactly(6, 5));
    assert_eq!(listed(&result), vec![Encoding::UTF16LE, Encoding::ASCII, Encoding::UTF8]);
}

#[test]
fn ascii_scorer_alone() {
    let detector = EncodingDetector::new();
    assert!(detector.detect_ascii(b"plain").unwrap().is_exactly(4, 5));
    assert!(detector.detect_ascii(b"").unwrap().is_exactly(4, 5));
    assert!(detector.detect_ascii(&[0x7F]).unwrap().is_exactly(4, 5));
    assert!(detector.detect_ascii(&[0x41, 0x80]).is_none());
}

#[test]
fn windows_scorers_count_their_marks() {
    let detector = EncodingDetector::new();
    let found = detector.detect_windows_codepages(&[b'H', b'i', b' ', 0x80]);
    assert_eq!(found.len(), 1);
    assert_eq!(found[0].0, Encoding::WINDOWS_1252);
    // one mark of eleven, times 3/5
    assert!(found[0].1.is_exactly(3, 55));
    let found = detector.detect_windows_codepages(&[0x8A, 0x8C, 0x8D, 0x20, 0x61]);
    assert_eq!(found.len(), 2);
    assert_eq!(found[0].0, Encoding::WINDOWS_1252);
    assert!(found[0].1.is_exactly(3, 55));
    assert_eq!(found[1].0, Encoding::WINDOWS_1250);
    // three marks of eight, times 3/5
    assert!(found[1].1.is_exactly(9, 40));
    assert!(detector.detect_windows_codepages(b"plain").is_empty());
    // a mark that occurs twice counts once
    let found = detector.detect_windows_codepages(&[0x99, 0x99, 0x99]);
    assert!(found[0].1.is_exactly(3, 55));
}

#[test]
fn score_characteristic_bytes_counts_marks_that_occur() {
    let detector = EncodingDetector::new();
    assert_eq!(detector.score_characteristic_bytes(b"abcabc", b"ax"), 1);
    assert_eq!(detector.score_characteristic_bytes(b"abcabc", b"abc"), 3);
    assert_eq!(detector.score_characteristic_bytes(b"abcabc", b"xyz"), 0);
    assert_eq!(detector.score_characteristic_bytes(b"", b"abc"), 0);
    assert_eq!(detector.score_characteristic_bytes(b"abc", b""), 0);
}

#[test]
fn iso_scorers_register_together() {
    let detector = EncodingDetector::new();
    let found = detector.detect_iso_encodings(&[0x31, 0x30, 0x20, 0xA4]);
    assert_eq!(found.len(), 2);
    assert_eq!(found[0].0, Encoding::ISO_8859_1);
    assert!(found[0].1.is_exactly(1, 2));
    assert_eq!(found[1].0, Encoding::ISO_8859_15);
    assert!(found[1].1.is_exactly(3, 5));
    let found = detector.detect_iso_encodings(&[0x63, 0x61, 0x66, 0xE9]);
    assert_eq!(found.len(), 1);
    assert_eq!(found[0].0, Encoding::ISO_8859_1);
    let found = detector.detect_iso_encodings(&[0xA0]);
    assert_eq!(found.len(), 1);
    assert!(detector.detect_iso_encodings(&[0x9F, 0x41]).is_empty());

    let result = detector.detect(&[0x31, 0x30, 0x20, 0xA4]);
    assert_eq!(result.encoding, Encoding::ISO_8859_15);
    assert!(result.confidence.is_exactly(3, 5));
    assert_eq!(listed(&result), vec![Encoding::ISO_8859_15, Encoding::ISO_8859_1]);
}

#[test]
fn ebcdic_scorer_weighs_letters_twice() {
    let detector = EncodingDetector::new();
    // "HELLO 123": four of the eleven digit bytes, one of the ten letter bytes
    let sample = [0xC8, 0xC5, 0xD3, 0xD3, 0xD6, 0x40, 0xF1, 0xF2, 0xF3];
    assert!(detector.detect_ebcdic(&sample).unwrap().is_exactly(31, 55));
    let result = detector.detect(&sample);
    assert_eq!(result.encoding, Encoding::EBCDIC_037);
    assert!(result.confidence.is_exactly(31, 55));
    assert_eq!(
        listed(&result),
        vec![Encoding::EBCDIC_037, Encoding::ISO_8859_1, Encoding::CP_437]
    );
    assert!(result.candidates[2].1.is_exactly(7, 80));
}

#[test]
fn ebcdic_score_is_halved_by_low_bytes_and_capped() {
    let detector = EncodingDetector::new();
    // 1/11 + 2 * 2/10 = 27/55, halved because half of the bytes are below 0x40
    let low = [0xC1, 0xC2, 0xF0, 0x05, 0x06, 0x07];
    assert!(detector.detect_ebcdic(&low).unwrap().is_exactly(27, 110));
    // exactly three tenths below 0x40 are not more than three tenths
    let edge = [0xC1, 0xC2, 0xF0, 0x05, 0x06, 0x07, 0x41, 0x41, 0x41, 0x41];
    assert!(detector.detect_ebcdic(&edge).unwrap().is_exactly(27, 55));
    // every reference byte present: 1 + 2, capped at 4/5
    let mut all = vec![0x40u8];
    all.extend(0xF0..=0xF9u8);
    all.extend([0xC1, 0xC2, 0xC3, 0xC4, 0xC5, 0x81, 0x82, 0x83, 0x84, 0x85]);
    assert!(detector.detect_ebcdic(&all).unwrap().is_exactly(4, 5));
    // one digit byte alone scores 1/11, which is not above 1/10
    assert!(detector.detect_ebcdic(&[0xF0, 0x41]).is_none());
    // two digit bytes: 2/11
    assert!(detector.detect_ebcdic(&[0xF0, 0xF1]).unwrap().is_exactly(2, 11));
    // one letter byte: 2/10, halved to 1/10 by low bytes, which is not above 1/10
    assert!(detector.detect_ebcdic(&[0xC1, 0x01]).is_none());
    assert!(detector.detect_ebcdic(&[]).is_none());
}

#[test]
fn cp437_scorer_counts_box_characters() {
    let detector = EncodingDetector::new();
    let found = detector.detect_dos_codepages(&[0xC9, 0xCD, 0xBB, 0x20, 0xC8, 0xCD, 0xBC]);
    assert_eq!(found.len(), 1);
    assert_eq!(found[0].0, Encoding::CP_437);
    // four of the eight box bytes, times 7/10
    assert!(found[0].1.is_exactly(7, 20));
    assert!(detector.detect_dos_codepages(b"plain").is_empty());
}

#[test]
fn equal_confidences_keep_the_order_of_the_scorers() {
    // ten of the eleven Windows-1252 marks give 3/5 * 11/11 only with all eleven;
    // here all eleven occur, and 0xA4 gives ISO-8859-15 the same 3/5
    let sample = [0xA4, 0x82, 0x83, 0x84, 0x85, 0x86, 0x87, 0x88, 0x89, 0x80, 0x99, 0x8A];
    let result = EncodingDetector::new().detect(&sample);
    assert_eq!(
        listed(&result),
        vec![
            Encoding::EBCDIC_037,
            Encoding::WINDOWS_1252,
            Encoding::ISO_8859_15,
            Encoding::ISO_8859_1,
            Encoding::WINDOWS_1250
        ]
    );
    assert!(result.candidates[0].1.is_exactly(4, 5));
    assert!(result.candidates[1].1.is_exactly(3, 5));
    assert!(result.candidates[2].1.is_exactly(3, 5));
    assert!(result.candidates[3].1.is_exactly(1, 2));
    assert!(result.candidates[4].1.is_exactly(3, 40));
}

#[test]
fn no_candidate_falls_back_to_ascii_at_one_half() {
    let result = EncodingDetector::new().detect(&[0x90]);
    assert_eq!(result.encoding, Encoding::ASCII);
    assert!(result.confidence.is_exactly(1, 2));
    assert!(!result.bom_detected);
    assert!(result.candidates.is_empty());
}

#[test]
fn empty_sample() {
    let result = EncodingDetector::new().detect(&[]);
    assert_eq!(result.encoding, Encoding::ASCII);
    assert!(result.confidence.is_exactly(4, 5));
    assert_eq!(listed(&result), vec![Encoding::ASCII, Encoding::UTF8]);
}

#[test]
fn only_the_sample_is_looked_at() {
    let mut data = b"plain text".to_vec();
    data.push(0xE9);
    let whole = EncodingDetector::new().detect(&data);
    assert_eq!(whole.encoding, Encoding::ISO_8859_1);
    let cut = EncodingDetector::with_sample_size(10).detect(&data);
    assert_eq!(cut.encoding, Encoding::ASCII);
    assert!(cut.confidence.is_exactly(4, 5));
    let exact = EncodingDetector::with_sample_size(11).detect(&data);
    assert_eq!(exact.encoding, Encoding::ISO_8859_1);
    let none = EncodingDetector::with_sample_size(0).detect(&data);
    assert_eq!(none.encoding, Encoding::ASCII);
    // a mark that the sample cuts in two is no mark
    let bom = EncodingDetector::with_sample_size(2).detect(&[0xEF, 0xBB, 0xBF, 0x41]);
    assert!(!bom.bom_detected);
    let default = EncodingDetector::default().detect(&data);
    assert_eq!(default.encoding, Encoding::ISO_8859_1);
}

#[test]
fn hint_raises_the_confidence_of_a_suiting_encoding() {
    let detector = EncodingDetector::new();
    let text_with_euro = [b'H', b'e', b'l', b'l', b'o', b' ', 0x80];
    let plain = detector.detect(&text_with_euro);
    assert_eq!(plain.encoding, Encoding::WINDOWS_1252);
    assert!(plain.confidence.is_exactly(3, 55));
    let german = detector.detect_with_hint(&text_with_euro, "german");
    assert_eq!(german.encoding, Encoding::WINDOWS_1252);
    // 3/55 * 13/10
    assert!(german.confidence.is_exactly(39, 550));
    // the list is not touched
    assert_eq!(listed(&german), vec![Encoding::WINDOWS_1252]);
    assert!(german.candidates[0].1.is_exactly(3, 55));
    let english = detector.detect_with_hint(&text_with_euro, "en");
    // 3/55 * 6/5
    assert!(english.confidence.is_exactly(18, 275));
    let polish = detector.detect_with_hint(&text_with_euro, "pl");
    assert!(polish.confidence.is_exactly(3, 55));
    let unknown = detector.detect_with_hint(&text_with_euro, "klingon");
    assert!(unknown.confidence.is_exactly(3, 55));
}

#[test]
fn hint_is_read_without_regard_to_case() {
    let detector = EncodingDetector::new();
    let text_with_euro = [b'H', b'e', b'l', b'l', b'o', b' ', 0x80];
    for hint in ["GERMAN", "German", "gErMaN", "DE", "Fr", "SPANISH", "Es", "FRENCH"] {
        let result = detector.detect_with_hint(&text_with_euro, hint);
        assert!(result.confidence.is_exactly(39, 550), "{}", hint);
    }
    let result = detector.detect_with_hint(b"abc", "ENGLISH");
    assert!(result.confidence.is_exactly(24, 25));
}

#[test]
fn hint_caps_the_confidence_at_one() {
    let detector = EncodingDetector::new();
    // ASCII at 4/5 times 6/5 is 24/25
    let ascii = detector.detect_with_hint(b"abc", "english");
    assert_eq!(ascii.encoding, Encoding::ASCII);
    assert!(ascii.confidence.is_exactly(24, 25));
    // a byte-order mark gives 1, which stays 1
    let bom = detector.detect_with_hint(&[0xEF, 0xBB, 0xBF, 0x41], "english");
    assert_eq!(bom.encoding, Encoding::UTF8);
    assert!(bom.confidence.is_exactly(1, 1));
    assert!(bom.bom_detected);
    // UTF-8 at 1 would go to 6/5
    let utf8 = detector.detect_with_hint(&[0xE2, 0x82, 0xAC], "en");
    assert_eq!(utf8.encoding, Encoding::UTF8);
    assert!(utf8.confidence.is_exactly(1, 1));
    // the capped confidence of the result and the list may now differ
    assert!(utf8.candidates[0].1.is_exactly(1, 1));
    // UTF-16 suits no group, and keeps its 6/5
    let le: Vec<u8> = "Hi there".encode_utf16().flat_map(|u| u.to_le_bytes()).collect();
    let utf16 = detector.detect_with_hint(&le, "english");
    assert_eq!(utf16.encoding, Encoding::UTF16LE);
    assert!(utf16.confidence.is_exactly(6, 5));
}

#[test]
fn hint_never_lowers_the_confidence() {
    let detector = EncodingDetector::new();
    let samples: Vec<Vec<u8>> = vec![
        b"Hello, World!".to_vec(),
        vec![0x31, 0x30, 0x20, 0xA4],
        vec![0x8A, 0x8C, 0x8D, 0x20, 0x61],
        vec![0xC8, 0xC5, 0xD3, 0xD3, 0xD6, 0x40, 0xF1, 0xF2, 0xF3],
        vec![0x90],
        vec![],
        vec![0xFF, 0xFE, 0x41, 0x00],
        "Grüße".as_bytes().to_vec(),
    ];
    let hints = ["en", "english", "de", "fr", "es", "pl", "cz", "hu", "ru", "cyrillic", "xx", ""];
    for sample in &samples {
        let plain = detector.detect(sample);
        for hint in hints {
            let hinted = detector.detect_with_hint(sample, hint);
            assert_eq!(hinted.encoding, plain.encoding);
            assert_eq!(hinted.bom_detected, plain.bom_detected);
            assert_eq!(listed(&hinted), listed(&plain));
            let raised = hinted.confidence.numerator() * plain.confidence.denominator();
            let before = plain.confidence.numerator() * hinted.confidence.denominator();
            assert!(raised >= before);
            let group = language_group(hint);
            if !suits(group, plain.encoding) {
                assert_eq!(raised, before);
            }
        }
    }
}

#[test]
fn language_groups() {
    assert_eq!(language_group("english"), LanguageGroup::English);
    assert_eq!(language_group("en"), LanguageGroup::English);
    for hint in ["german", "de", "french", "fr", "spanish", "es"] {
        assert_eq!(language_group(hint), LanguageGroup::Western);
    }
    for hint in ["polish", "pl", "czech", "cz", "hungarian", "hu"] {
        assert_eq!(language_group(hint), LanguageGroup::Central);
    }
    for hint in ["russian", "ru", "cyrillic"] {
        assert_eq!(language_group(hint), LanguageGroup::Cyrillic);
    }
    for hint in ["", "e", "eng", "English", "italian", "german ", "d\u{e9}"] {
        assert_eq!(language_group(hint), LanguageGroup::Other);
    }
}

#[test]
fn encodings_that_suit_a_group() {
    assert!(suits(LanguageGroup::English, Encoding::ASCII));
    assert!(suits(LanguageGroup::English, Encoding::UTF8));
    assert!(suits(LanguageGroup::English, Encoding::CP_437));
    assert!(!suits(LanguageGroup::English, Encoding::EBCDIC_037));
    assert!(!suits(LanguageGroup::English, Encoding::UTF16LE));
    assert!(suits(LanguageGroup::Western, Encoding::ISO_8859_1));
    assert!(suits(LanguageGroup::Western, Encoding::ISO_8859_15));
    assert!(suits(LanguageGroup::Western, Encoding::WINDOWS_1252));
    assert!(!suits(LanguageGroup::Western, Encoding::ASCII));
    assert!(suits(LanguageGroup::Central, Encoding::WINDOWS_1250));
    assert!(suits(LanguageGroup::Central, Encoding::ISO_8859_2));
    assert!(!suits(LanguageGroup::Central, Encoding::WINDOWS_1252));
    assert!(suits(LanguageGroup::Cyrillic, Encoding::WINDOWS_1251));
    assert!(suits(LanguageGroup::Cyrillic, Encoding::ISO_8859_5));
    assert!(!suits(LanguageGroup::Cyrillic, Encoding::CP_866));
    assert!(!suits(LanguageGroup::Other, Encoding::ASCII));
}

#[test]
fn apply_hint_takes_the_hint_in_lower_case() {
    let detector = EncodingDetector::new();
    let plain = detector.detect(&[0x31, 0x30, 0x20, 0xA4]);
    let hinted = apply_hint(plain.clone(), "fr");
    assert_eq!(hinted.encoding, Encoding::ISO_8859_15);
    // 3/5 * 13/10
    assert!(hinted.confidence.is_exactly(39, 50));
    // it does no lowering of its own
    let same = apply_hint(plain, "FR");
    assert!(same.confidence.is_exactly(3, 5));
}

#[test]
fn same_text_compares_characters() {
    assert!(same_text("", ""));
    assert!(same_text("de", "de"));
    assert!(!same_text("de", "d"));
    assert!(!same_text("de", "dE"));
    assert!(!same_text("de", "ed"));
    assert!(same_text("gr\u{fc}n", "gr\u{fc}n"));
    assert!(!same_text("gr\u{fc}n", "grun"));
}

#[test]
fn rank_is_descending_and_stable() {
    let pool = vec![
        (Encoding::UTF8, Confidence::new(5, 10)),
        (Encoding::ASCII, Confidence::new(8, 10)),
        (Encoding::WINDOWS_1252, Confidence::new(6, 10)),
        (Encoding::ISO_8859_15, Confidence::new(6, 10)),
        (Encoding::ISO_8859_1, Confidence::new(5, 10)),
        (Encoding::CP_437, Confidence::new(12, 10)),
    ];
    let sorted = rank(pool);
    let order: Vec<Encoding> = sorted.iter().map(|c| c.0).collect();
    assert_eq!(
        order,
        vec![
            Encoding::CP_437,
            Encoding::ASCII,
            Encoding::WINDOWS_1252,
            Encoding::ISO_8859_15,
            Encoding::UTF8,
            Encoding::ISO_8859_1
        ]
    );
    assert!(sorted[0].1.is_exactly(6, 5));
    assert!(rank(Vec::new()).is_empty());
}

#[test]
fn confidence_as_a_fraction() {
    let c = Confidence::new(6, 8);
    assert_eq!(c.numerator(), 6);
    assert_eq!(c.denominator(), 8);
    assert!(c.is_exactly(3, 4));
    assert!(!c.is_exactly(4, 5));
    assert!(c.is_at_least(3, 4));
    assert!(c.is_at_least(7, 10));
    assert!(!c.is_at_least(4, 5));
    let r = c.rescaled(40);
    assert_eq!(r.numerator(), 30);
    assert_eq!(r.denominator(), 40);
    let b = c.boosted_by(6, 5);
    assert!(b.is_exactly(9, 10));
    let capped = Confidence::new(9, 10).boosted_by(13, 10);
    assert!(capped.is_exactly(1, 1));
}
