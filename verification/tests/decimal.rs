use steam_watch::decimal::{i64_text, parse_i32, parse_i64};

#[test]
fn writes_zero_and_small_numbers() {
    assert_eq!(i64_text(0), "0");
    assert_eq!(i64_text(7), "7");
    assert_eq!(i64_text(10), "10");
    assert_eq!(i64_text(1431648000), "1431648000");
}

#[test]
fn writes_negative_numbers_with_a_minus() {
    assert_eq!(i64_text(-1), "-1");
    assert_eq!(i64_text(-120), "-120");
}

#[test]
fn writes_the_ends_of_the_range() {
    assert_eq!(i64_text(i64::MAX), "9223372036854775807");
    assert_eq!(i64_text(i64::MIN), "-9223372036854775808");
}

#[test]
fn reads_plain_digits() {
    assert_eq!(parse_i64("0"), Some(0));
    assert_eq!(parse_i64("42"), Some(42));
    assert_eq!(parse_i64("19283746"), Some(19283746));
}

#[test]
fn reads_a_sign_before_the_digits() {
    assert_eq!(parse_i64("+5"), Some(5));
    assert_eq!(parse_i64("-5"), Some(-5));
    assert_eq!(parse_i64("-0"), Some(0));
}

#[test]
fn leading_zeros_count_for_nothing() {
    assert_eq!(parse_i64("0005"), Some(5));
    assert_eq!(parse_i64("-000000000000000000000000000012"), Some(-12));
}

#[test]
fn reads_the_ends_of_the_range() {
    assert_eq!(parse_i64("9223372036854775807"), Some(i64::MAX));
    assert_eq!(parse_i64("-9223372036854775808"), Some(i64::MIN));
}

#[test]
fn refuses_what_does_not_fit() {
    assert_eq!(parse_i64("9223372036854775808"), None);
    assert_eq!(parse_i64("-9223372036854775809"), None);
    assert_eq!(parse_i64("99999999999999999999999999"), None);
}

#[test]
fn refuses_text_without_digits() {
    assert_eq!(parse_i64(""), None);
    assert_eq!(parse_i64("+"), None);
    assert_eq!(parse_i64("-"), None);
}

#[test]
fn refuses_anything_but_digits_after_the_sign() {
    assert_eq!(parse_i64("12a"), None);
    assert_eq!(parse_i64("a12"), None);
    assert_eq!(parse_i64(" 12"), None);
    assert_eq!(parse_i64("12 "), None);
    assert_eq!(parse_i64("1_000"), None);
    assert_eq!(parse_i64("+-5"), None);
    assert_eq!(parse_i64("--5"), None);
    assert_eq!(parse_i64("5-"), None);
    assert_eq!(parse_i64("1.5"), None);
    assert_eq!(parse_i64("\u{0663}"), None);
}

#[test]
fn agrees_with_the_standard_parser() {
    let samples = [
        "", "+", "-", "0", "-0", "+0", "007", "12a", " 1", "1 ", "+-1", "2147483647",
        "2147483648", "-2147483648", "-2147483649", "9223372036854775807",
        "9223372036854775808", "-9223372036854775808", "-9223372036854775809", "١٢",
    ];
    for text in samples {
        assert_eq!(parse_i64(text), text.parse::<i64>().ok(), "{:?}", text);
        assert_eq!(parse_i32(text), text.parse::<i32>().ok(), "{:?}", text);
    }
}

#[test]
fn writes_as_the_standard_formatter_does() {
    let samples = [
        0,
        1,
        -1,
        9,
        10,
        11,
        99,
        100,
        101,
        -100,
        1_000_000_007,
        -4_294_967_296,
        i64::MAX,
        i64::MAX - 1,
        i64::MIN,
        i64::MIN + 1,
    ];
    for n in samples {
        assert_eq!(i64_text(n), n.to_string());
    }
}

#[test]
fn what_is_written_is_read_back() {
    for n in [0, 1, -1, 9, 10, -10, 99, 100, 123456789, -987654321, i64::MAX, i64::MIN] {
        assert_eq!(parse_i64(&i64_text(n)), Some(n));
    }
}

#[test]
fn reads_an_i32_within_its_range_only() {
    assert_eq!(parse_i32("420"), Some(420));
    assert_eq!(parse_i32("-17"), Some(-17));
    assert_eq!(parse_i32("2147483647"), Some(i32::MAX));
    assert_eq!(parse_i32("-2147483648"), Some(i32::MIN));
    assert_eq!(parse_i32("2147483648"), None);
    assert_eq!(parse_i32("-2147483649"), None);
    assert_eq!(parse_i32("public"), None);
    assert_eq!(parse_i32(""), None);
}
