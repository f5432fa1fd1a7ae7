use readycheck::text::{decimal_string, parse_u64, str_le, strip_prefix};

#[test]
fn decimal_of_zero_is_one_digit() {
    assert_eq!(decimal_string(0), "0");
}

#[test]
fn decimal_of_small_and_large_numbers() {
    assert_eq!(decimal_string(7), "7");
    assert_eq!(decimal_string(10), "10");
    assert_eq!(decimal_string(1108310596660772944), "1108310596660772944");
    assert_eq!(decimal_string(u64::MAX), "18446744073709551615");
}

#[test]
fn decimal_agrees_with_the_standard_library() {
    for n in [0u64, 1, 9, 10, 11, 99, 100, 101, 65535, 4294967296, u64::MAX - 1] {
        assert_eq!(decimal_string(n), n.to_string());
    }
}

#[test]
fn parse_reads_plain_numbers() {
    assert_eq!(parse_u64("60"), Some(60));
    assert_eq!(parse_u64("300"), Some(300));
    assert_eq!(parse_u64("3600"), Some(3600));
    assert_eq!(parse_u64("0"), Some(0));
}

#[test]
fn parse_accepts_a_plus_sign_and_leading_zeros() {
    assert_eq!(parse_u64("+5"), Some(5));
    assert_eq!(parse_u64("0060"), Some(60));
    assert_eq!(parse_u64("+007"), Some(7));
}

#[test]
fn parse_rejects_what_is_no_number() {
    assert_eq!(parse_u64(""), None);
    assert_eq!(parse_u64("+"), None);
    assert_eq!(parse_u64("-1"), None);
    assert_eq!(parse_u64("12a"), None);
    assert_eq!(parse_u64(" 12"), None);
    assert_eq!(parse_u64("12 "), None);
    assert_eq!(parse_u64("++1"), None);
    assert_eq!(parse_u64("1+"), None);
    assert_eq!(parse_u64("\u{0661}"), None);
}

#[test]
fn parse_stops_at_the_limit_of_64_bits() {
    assert_eq!(parse_u64("18446744073709551615"), Some(u64::MAX));
    assert_eq!(parse_u64("18446744073709551616"), None);
    assert_eq!(parse_u64("99999999999999999999999999"), None);
    assert_eq!(parse_u64("000000000000000000000000018446744073709551615"), Some(u64::MAX));
}

#[test]
fn parse_agrees_with_the_standard_library() {
    for s in ["", "+", "-", "0", "+0", "-0", "42", "+42", "4 2", "18446744073709551615",
        "18446744073709551616", "1e3", "0x10", "\u{0661}\u{0662}", "12\n"]
    {
        assert_eq!(parse_u64(s), s.parse::<u64>().ok(), "on {:?}", s);
    }
}

#[test]
fn parse_reads_back_what_decimal_writes() {
    for n in [0u64, 5, 60, 12345, u64::MAX] {
        assert_eq!(parse_u64(&decimal_string(n)), Some(n));
    }
}

#[test]
fn order_of_texts_is_that_of_their_bytes() {
    assert!(str_le("", ""));
    assert!(str_le("", "a"));
    assert!(!str_le("a", ""));
    assert!(str_le("alice", "bob"));
    assert!(!str_le("bob", "alice"));
    assert!(str_le("al", "alice"));
    assert!(!str_le("alice", "al"));
    assert!(str_le("Zed", "alice"));
    assert!(str_le("alice", "alice"));
}

#[test]
fn order_of_texts_agrees_with_the_standard_library() {
    let samples = ["", "a", "B", "ab", "abc", "b", "\u{e9}", "z", "\u{2705}", "\u{1f600}", "Z"];
    for a in samples {
        for b in samples {
            assert_eq!(str_le(a, b), a <= b, "on {:?} and {:?}", a, b);
        }
    }
}

#[test]
fn strip_prefix_gives_the_rest() {
    assert_eq!(strip_prefix("rc_12_1", "rc_12_"), Some("1"));
    assert_eq!(strip_prefix("rc_12_", "rc_12_"), Some(""));
    assert_eq!(strip_prefix("anything", ""), Some("anything"));
    assert_eq!(strip_prefix("\u{2705}ok", "\u{2705}"), Some("ok"));
}

#[test]
fn strip_prefix_refuses_other_beginnings() {
    assert_eq!(strip_prefix("rc_13_1", "rc_12_"), None);
    assert_eq!(strip_prefix("rc_1", "rc_12_"), None);
    assert_eq!(strip_prefix("", "x"), None);
}
