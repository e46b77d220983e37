use millkrs::text::{
    chars_of, decimal_string, digit_str, parse_i64, signed_decimal_string, split_at_space,
    starts_with, str_eq,
};

#[test]
fn integers_are_read_as_the_standard_library_reads_them() {
    let cases = [
        "0", "7", "-7", "+7", "007", "-0", "+0", "", "-", "+", "12a", "a12", " 12", "12 ", "--1",
        "+-1", "9223372036854775807", "9223372036854775808", "-9223372036854775808",
        "-9223372036854775809", "00000000000000000000000000000000000012",
        "99999999999999999999999999999999999999999999", "１２", "1_000", "0x10",
    ];
    for text in cases {
        assert_eq!(parse_i64(text), text.parse::<i64>().ok(), "{:?}", text);
    }
    assert_eq!(parse_i64("-9223372036854775808"), Some(i64::MIN));
    assert_eq!(parse_i64("9223372036854775807"), Some(i64::MAX));
    assert_eq!(parse_i64("9223372036854775808"), None);
}

#[test]
fn integers_are_written_in_base_ten() {
    assert_eq!(decimal_string(0), "0");
    assert_eq!(decimal_string(9), "9");
    assert_eq!(decimal_string(10), "10");
    assert_eq!(decimal_string(1234567890), "1234567890");
    assert_eq!(decimal_string(u128::MAX), u128::MAX.to_string());
    assert_eq!(signed_decimal_string(0), "0");
    assert_eq!(signed_decimal_string(-1), "-1");
    assert_eq!(signed_decimal_string(i64::MIN), i64::MIN.to_string());
    assert_eq!(signed_decimal_string(i64::MAX), i64::MAX.to_string());
    for d in 0..10u8 {
        assert_eq!(digit_str(d), d.to_string());
    }
}

#[test]
fn text_is_split_at_its_first_space() {
    assert_eq!(split_at_space("a b c"), ("a", Some("b c")));
    assert_eq!(split_at_space("abc"), ("abc", None));
    assert_eq!(split_at_space(""), ("", None));
    assert_eq!(split_at_space(" x"), ("", Some("x")));
    assert_eq!(split_at_space("x "), ("x", Some("")));
    assert_eq!(split_at_space("提醒 喝水"), ("提醒", Some("喝水")));
}

#[test]
fn prefixes_and_equality() {
    assert!(starts_with("/update_user 1", "/update_user"));
    assert!(starts_with("abc", ""));
    assert!(starts_with("abc", "abc"));
    assert!(!starts_with("ab", "abc"));
    assert!(!starts_with("xbc", "abc"));
    assert!(starts_with("早上好", "早上"));
    assert!(str_eq("once", "once"));
    assert!(!str_eq("once", "Once"));
    assert_eq!(chars_of("a早b"), vec!['a', '早', 'b']);
}
