use timetrack::text::{
    char_is_whitespace, concat2, concat3, i64_to_string, parse_i64, str_equal, str_is_blank,
    str_starts_with,
};

#[test]
fn char_is_whitespace_agrees_with_std_on_every_char() {
    for code in 0..=0x10FFFFu32 {
        if let Some(c) = char::from_u32(code) {
            assert_eq!(char_is_whitespace(c), c.is_whitespace(), "U+{code:04X}");
        }
    }
}

#[test]
fn str_is_blank_agrees_with_trim() {
    let cases = [
        "",
        " ",
        "\t\n\r",
        "\u{3000}\u{2003}",
        "a",
        " a ",
        "\u{200B}",
        "  \u{00A0} ",
        "working",
        " \u{FEFF}",
    ];
    for s in cases {
        assert_eq!(str_is_blank(s), s.trim().is_empty(), "{s:?}");
    }
    assert!(str_is_blank(""));
    assert!(str_is_blank("   "));
    assert!(!str_is_blank(" x "));
}

#[test]
fn i64_to_string_agrees_with_std() {
    let values = [
        0i64,
        1,
        -1,
        9,
        10,
        11,
        99,
        100,
        -10,
        -99,
        1234567890,
        -1234567890,
        i64::MAX,
        i64::MIN,
        i64::MIN + 1,
        i64::MAX - 1,
    ];
    for v in values {
        assert_eq!(i64_to_string(v), v.to_string());
    }
    assert_eq!(i64_to_string(-12), "-12");
    assert_eq!(i64_to_string(i64::MIN), "-9223372036854775808");
}

#[test]
fn parse_i64_agrees_with_std() {
    let cases = [
        "0",
        "7",
        "42",
        "-42",
        "+42",
        "007",
        "-0",
        "+0",
        "",
        "-",
        "+",
        "--1",
        "+-1",
        "1-",
        " 1",
        "1 ",
        "1_000",
        "0x10",
        "12a",
        "a12",
        "1.5",
        "9223372036854775807",
        "9223372036854775808",
        "-9223372036854775808",
        "-9223372036854775809",
        "+9223372036854775807",
        "00000000000000000000000000000001",
        "99999999999999999999999999",
        "-99999999999999999999999999",
        "99999999999999999999999999x",
        "١٢٣",
        "１２",
    ];
    for s in cases {
        assert_eq!(parse_i64(s), s.parse::<i64>().ok(), "{s:?}");
    }
    assert_eq!(parse_i64("42"), Some(42));
    assert_eq!(parse_i64("-9223372036854775808"), Some(i64::MIN));
    assert_eq!(parse_i64("9223372036854775808"), None);
    assert_eq!(parse_i64("abc"), None);
}

#[test]
fn parse_i64_inverts_i64_to_string() {
    for v in [0i64, 5, -5, 1000, i64::MAX, i64::MIN, -77, 123456789012345] {
        assert_eq!(parse_i64(&i64_to_string(v)), Some(v));
    }
}

#[test]
fn prefix_and_equality_go_by_characters() {
    assert!(str_starts_with("/api/v1/topics/5", "/api/v1/topics"));
    assert!(str_starts_with("abc", ""));
    assert!(str_starts_with("abc", "abc"));
    assert!(!str_starts_with("ab", "abc"));
    assert!(!str_starts_with("abd", "abc"));
    assert!(str_starts_with("żółw", "żó"));
    assert!(str_equal("", ""));
    assert!(str_equal("topic", "topic"));
    assert!(!str_equal("topic", "topics"));
    assert!(!str_equal("topics", "topic"));
    assert!(!str_equal("topic", "topiC"));
}

#[test]
fn concatenation_keeps_the_order() {
    assert_eq!(concat2("ab", "cd"), "abcd");
    assert_eq!(concat2("", ""), "");
    assert_eq!(concat3("a", "", "b"), "ab");
    assert_eq!(concat3("Topic with id ", "5", " not found"), "Topic with id 5 not found");
}
