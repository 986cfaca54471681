use neuronprompter::text::{append_int, append_nat, chars_of, concat2, parse_i64, string_from_chars, trim, trim_char};
use neuronprompter::token::{hex_decode, hex_digit, hex_encode};

#[test]
fn decimal_rendering() {
    let mut s = String::from("n=");
    append_nat(&mut s, 0);
    assert_eq!(s, "n=0");
    let mut s = String::new();
    append_int(&mut s, -9223372036854775808);
    assert_eq!(s, "-9223372036854775808");
    let mut s = String::new();
    append_nat(&mut s, 18446744073709551615);
    assert_eq!(s, "18446744073709551615");
    assert_eq!(concat2("ab", "cd"), "abcd");
}

#[test]
fn trimming_characters() {
    let cs = chars_of("  \t hi there \n");
    assert_eq!(string_from_chars(&trim(&cs)), "hi there");
    let q = chars_of("\"\"quoted\"");
    assert_eq!(string_from_chars(&trim_char(&q, '"')), "quoted");
    let ws = chars_of(" \u{3000} ");
    assert!(trim(&ws).is_empty());
}

#[test]
fn parse_i64_matches_std() {
    for s in ["0", "42", "-17", "+5", "9223372036854775807", "-9223372036854775808", "", "-", "+", "12a", " 1", "9223372036854775808", "-9223372036854775809", "007"] {
        assert_eq!(parse_i64(s), s.parse::<i64>().ok(), "input {s:?}");
    }
}

#[test]
fn hex_token_round_trip() {
    let mut t = [0u8; 32];
    for (i, b) in t.iter_mut().enumerate() {
        *b = (i as u8).wrapping_mul(37).wrapping_add(5);
    }
    let hex = hex_encode(&t);
    assert_eq!(hex.len(), 64);
    assert!(hex.chars().all(|c| c.is_ascii_hexdigit() && !c.is_ascii_uppercase()));
    assert_eq!(hex_decode(&hex), Some(t));
}

#[test]
fn hex_decode_rejects_bad_input() {
    assert_eq!(hex_decode("abc"), None);
    assert_eq!(hex_decode(&"g".repeat(64)), None);
    assert_eq!(hex_decode(&"A".repeat(64)), Some([0xaa; 32]));
    assert_eq!(hex_digit(b'f'), Some(15));
    assert_eq!(hex_digit(b'F'), Some(15));
    assert_eq!(hex_digit(b'9'), Some(9));
    assert_eq!(hex_digit(b'x'), None);
}
