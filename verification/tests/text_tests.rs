use autonomic::text::{
    decimal_string, equals, is_whitespace, parse_i32, parse_i64, prefix_before,
    remove_double_quotes, remove_punctuation, split_whitespace,
};
use autonomic::interpreter::lowercase as to_lowercase;

#[test]
fn remove_punctuation_drops_only_punctuation() {
    assert_eq!(remove_punctuation("Rule 301, enactment: hello!"), "Rule 301 enactment hello");
    assert_eq!(remove_punctuation(".,;:!?'\"\\/<>~(){}[]"), "");
    assert_eq!(remove_punctuation("a-b_c*d#e"), "a-b_c*d#e");
    assert_eq!(remove_punctuation(""), "");
    assert_eq!(remove_punctuation("é(ü)"), "éü");
}

#[test]
fn remove_punctuation_is_idempotent() {
    let once = remove_punctuation("((301)).");
    assert_eq!(remove_punctuation(&once), once);
}

#[test]
fn remove_double_quotes_drops_quotes() {
    assert_eq!(remove_double_quotes("\"vote\""), "vote");
    assert_eq!(remove_double_quotes("no quotes"), "no quotes");
}

#[test]
fn prefix_before_first_dot() {
    assert_eq!(prefix_before("1503435956.000247", '.'), "1503435956");
    assert_eq!(prefix_before("12", '.'), "12");
    assert_eq!(prefix_before(".5", '.'), "");
    assert_eq!(prefix_before("a.b.c", '.'), "a");
}

#[test]
fn equals_compares_characters() {
    assert!(equals("enact", "enact"));
    assert!(!equals("enact", "enacT"));
    assert!(!equals("enact", "enactment"));
    assert!(equals("", ""));
}

#[test]
fn to_lowercase_matches_std() {
    for s in ["MUTABLE", "Mutable", "ÀÉÎ", "İstanbul", "ΣΑΣ", "mixed Case 123"] {
        assert_eq!(to_lowercase(s), s.to_lowercase());
    }
}

#[test]
fn to_lowercase_on_ascii_is_per_character() {
    for b in 0u8..128 {
        let c = b as char;
        let s = c.to_string();
        let expected = if c.is_ascii_uppercase() { ((b + 32) as char).to_string() } else { s.clone() };
        assert_eq!(to_lowercase(&s), expected);
    }
}

#[test]
fn is_whitespace_matches_std_for_every_char() {
    for u in 0u32..=0x10FFFF {
        if let Some(c) = char::from_u32(u) {
            assert_eq!(is_whitespace(c), c.is_whitespace(), "char {:x}", u);
        }
    }
}

#[test]
fn split_whitespace_matches_std() {
    let samples = [
        "",
        "   ",
        "one",
        " Rule 301,\tenactment:\n no  more\u{a0}rules\u{3000}x ",
        "a\u{2028}b\u{85}c",
        "trailing   ",
    ];
    for s in samples {
        let expected: Vec<String> = s.split_whitespace().map(|w| w.to_string()).collect();
        assert_eq!(split_whitespace(s), expected);
    }
}

#[test]
fn parse_i32_matches_std() {
    let samples = [
        "0", "301", "-5", "+7", "-0", "007", "", "+", "-", "12a", "a12", " 1", "1 ",
        "2147483647", "2147483648", "-2147483648", "-2147483649", "99999999999999999999999",
        "١٢", "--1", "+-1",
    ];
    for s in samples {
        assert_eq!(parse_i32(s), s.parse::<i32>().ok(), "input {:?}", s);
    }
}

#[test]
fn parse_i64_matches_std() {
    let samples = [
        "9223372036854775807", "9223372036854775808", "-9223372036854775808",
        "-9223372036854775809", "18446744073709551616", "1503435956", "-",
    ];
    for s in samples {
        assert_eq!(parse_i64(s), s.parse::<i64>().ok(), "input {:?}", s);
    }
}

#[test]
fn decimal_string_matches_display() {
    for n in [0i64, 7, 10, 300, -1, -300, i64::MAX, i64::MIN, i32::MAX as i64 + 1] {
        assert_eq!(decimal_string(n), n.to_string());
    }
}

#[test]
fn decimal_round_trip() {
    for n in [0i64, 42, -42, i64::MAX, i64::MIN] {
        assert_eq!(parse_i64(&decimal_string(n)), Some(n));
    }
}
