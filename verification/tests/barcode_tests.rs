//! Tests of checksum validation and module-sequence encoding.

use isbn_barcode::barcode::{ean5_check, encode_ean13, encode_ean5, validate_isbn13};

/// Reference code tables, kept independently of the library sources.
const L_CODES: [&str; 10] = [
    "0001101", "0011001", "0010011", "0111101", "0100011", "0110001", "0101111", "0111011",
    "0110111", "0001011",
];
const G_CODES: [&str; 10] = [
    "0100111", "0110011", "0011011", "0100001", "0011101", "0111001", "0000101", "0010001",
    "0001001", "0010111",
];
const R_CODES: [&str; 10] = [
    "1110010", "1100110", "1101100", "1000010", "1011100", "1001110", "1010000", "1000100",
    "1001000", "1110100",
];
const FIRST_DIGIT_PATTERNS: [&str; 10] = [
    "LLLLLL", "LLGLGG", "LLGGLG", "LLGGGL", "LGLLGG", "LGGLLG", "LGGGLL", "LGLGLG", "LGLGGL",
    "LGGLGL",
];

fn expected_ean13(isbn: &str) -> Vec<u8> {
    let digits: Vec<usize> = isbn.chars().map(|c| c.to_digit(10).unwrap() as usize).collect();
    let pattern = FIRST_DIGIT_PATTERNS[digits[0]];
    let mut s = String::from("101");
    for (i, ch) in pattern.chars().enumerate() {
        let d = digits[i + 1];
        s.push_str(if ch == 'L' { L_CODES[d] } else { G_CODES[d] });
    }
    s.push_str("01010");
    for i in 7..13 {
        s.push_str(R_CODES[digits[i]]);
    }
    s.push_str("101");
    s.bytes().map(|b| b - b'0').collect()
}

#[test]
fn validate_known_valid() {
    assert!(validate_isbn13("9780306406157"));
    assert!(validate_isbn13("0000000000000"));
    assert!(validate_isbn13("9780132350884"));
}

#[test]
fn validate_known_invalid_checksum() {
    assert!(!validate_isbn13("9780306406158"));
    assert!(!validate_isbn13("9780132350885"));
    assert!(!validate_isbn13("0000000000001"));
}

#[test]
fn validate_rejects_bad_format() {
    assert!(!validate_isbn13(""));
    assert!(!validate_isbn13("978030640615"));
    assert!(!validate_isbn13("97803064061577"));
    assert!(!validate_isbn13("97803064o6157"));
    assert!(!validate_isbn13("9780306-06157"));
}

#[test]
fn validate_matches_weighted_sum_formula() {
    // The result must agree with the weighted mod-10 formula on every
    // 13-digit string tried.
    let cases = [
        "9780306406157",
        "9780306406158",
        "1234567890123",
        "9999999999999",
        "5901234123457",
    ];
    for isbn in cases {
        let digits: Vec<u32> = isbn.chars().map(|c| c.to_digit(10).unwrap()).collect();
        let sum: u32 = digits
            .iter()
            .enumerate()
            .map(|(i, &d)| if i % 2 == 0 { d } else { 3 * d })
            .sum();
        assert_eq!(validate_isbn13(isbn), sum % 10 == 0, "mismatch for {isbn}");
    }
}

#[test]
fn encode_ean13_is_95_modules() {
    // Format validity alone decides; the checksum does not.
    let m = encode_ean13("9780306406157").unwrap();
    assert_eq!(m.len(), 95);
    let m2 = encode_ean13("9780306406158").unwrap();
    assert_eq!(m2.len(), 95);
}

#[test]
fn encode_ean13_rejects_bad_format() {
    assert!(encode_ean13("").is_none());
    assert!(encode_ean13("978030640615").is_none());
    assert!(encode_ean13("97803064061570").is_none());
    assert!(encode_ean13("97803o6406157").is_none());
}

#[test]
fn encode_ean13_matches_reference_tables() {
    for isbn in ["9780306406157", "5901234123457", "0123456789012", "9999999999999"] {
        let m = encode_ean13(isbn).unwrap();
        assert_eq!(m, expected_ean13(isbn), "modules differ for {isbn}");
    }
}

#[test]
fn encode_ean13_guards() {
    let m = encode_ean13("9780306406157").unwrap();
    assert_eq!(&m[0..3], &[1, 0, 1]);
    assert_eq!(&m[45..50], &[0, 1, 0, 1, 0]);
    assert_eq!(&m[92..95], &[1, 0, 1]);
}

#[test]
fn encode_ean13_deterministic() {
    let a = encode_ean13("9780306406157").unwrap();
    let b = encode_ean13("9780306406157").unwrap();
    assert_eq!(a, b);
}

#[test]
fn ean5_check_digits() {
    assert_eq!(ean5_check(&[1, 2, 3, 4, 5]), 1);
    assert_eq!(ean5_check(&[0, 0, 0, 0, 0]), 0);
    assert_eq!(ean5_check(&[9, 9, 9, 9, 9]), 3);
    assert_eq!(ean5_check(&[5, 2, 4, 9, 5]), (15 + 18 + 12 + 81 + 15) % 10);
}

#[test]
fn encode_ean5_is_47_modules() {
    let m = encode_ean5("12345").unwrap();
    assert_eq!(m.len(), 47);
    let m2 = encode_ean5("00000").unwrap();
    assert_eq!(m2.len(), 47);
}

#[test]
fn encode_ean5_rejects_bad_format() {
    assert!(encode_ean5("").is_none());
    assert!(encode_ean5("1234").is_none());
    assert!(encode_ean5("123456").is_none());
    assert!(encode_ean5("12a45").is_none());
}

#[test]
fn encode_ean5_exact_modules() {
    // Check digit of 12345 is (3 + 18 + 9 + 36 + 15) mod 10 = 1, whose
    // pattern is GLGLL: G(1) L(2) G(3) L(4) L(5), separated by 01.
    let expected: Vec<u8> = "1011 0110011 01 0010011 01 0100001 01 0100011 01 0110001"
        .chars()
        .filter(|c| !c.is_whitespace())
        .map(|c| c.to_digit(10).unwrap() as u8)
        .collect();
    assert_eq!(encode_ean5("12345").unwrap(), expected);
}

#[test]
fn encode_ean5_deterministic() {
    let a = encode_ean5("52495").unwrap();
    let b = encode_ean5("52495").unwrap();
    assert_eq!(a, b);
}

#[test]
fn ean5_pattern_follows_check_digit() {
    // 12345 and 90161 share the check digit 1, so both start with a
    // G-table code; 00000 has check digit 0 and also starts with G, but
    // with pattern GGLLL its third digit uses L while check digit 1's
    // pattern GLGLL uses G there. Observable through the third code block
    // (indices 22..29): L(0) = 0001101, G(0) = 0100111.
    let m0 = encode_ean5("00000").unwrap();
    assert_eq!(&m0[22..29], &[0, 0, 0, 1, 1, 0, 1]);
    // 33333: check = (9 + 27 + 9 + 27 + 9) mod 10 = 1, pattern GLGLL:
    // third digit uses table G: G(3) = 0100001.
    let m1 = encode_ean5("33333").unwrap();
    assert_eq!(&m1[22..29], &[0, 1, 0, 0, 0, 0, 1]);
}
