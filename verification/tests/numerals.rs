use climb_visitor_scraper::decimal::{i32_to_text, parse_i32, parse_u64};

#[test]
fn parses_plain_digits() {
    assert_eq!(parse_i32("7"), Some(7));
    assert_eq!(parse_i32("12"), Some(12));
    assert_eq!(parse_i32("0"), Some(0));
    assert_eq!(parse_i32("007"), Some(7));
}

#[test]
fn parses_a_leading_sign() {
    assert_eq!(parse_i32("+7"), Some(7));
    assert_eq!(parse_i32("-7"), Some(-7));
    assert_eq!(parse_i32("-0"), Some(0));
}

#[test]
fn refuses_text_that_is_no_numeral() {
    assert_eq!(parse_i32(""), None);
    assert_eq!(parse_i32("+"), None);
    assert_eq!(parse_i32("-"), None);
    assert_eq!(parse_i32("+-5"), None);
    assert_eq!(parse_i32(" 7"), None);
    assert_eq!(parse_i32("7 "), None);
    assert_eq!(parse_i32("12a"), None);
    assert_eq!(parse_i32("1_000"), None);
    assert_eq!(parse_i32("3.5"), None);
    assert_eq!(parse_i32("<b>7</b>"), None);
}

#[test]
fn refuses_digits_of_other_scripts() {
    assert_eq!(parse_i32("\u{ff17}"), None);
    assert_eq!(parse_i32("1\u{0663}"), None);
    assert_eq!(parse_i32("\u{e9}"), None);
}

#[test]
fn keeps_to_the_range_of_i32() {
    assert_eq!(parse_i32("2147483647"), Some(i32::MAX));
    assert_eq!(parse_i32("2147483648"), None);
    assert_eq!(parse_i32("-2147483648"), Some(i32::MIN));
    assert_eq!(parse_i32("-2147483649"), None);
    assert_eq!(parse_i32("99999999999999999999999999"), None);
    assert_eq!(parse_i32("00000000000000000000000005"), Some(5));
}

#[test]
fn parse_i32_agrees_with_the_standard_library() {
    let samples = [
        "", "0", "1", "-1", "+1", "42", "-42", "0042", "+0", "-0", "--1", "++1", "1-", "1+",
        "2147483647", "2147483648", "-2147483648", "-2147483649", "4294967296", "a", "1a", "a1",
        " 1", "1 ", "\t1", "1\n", "0x10", "1e3", "١٢", "+", "-", "12345678901", "000000000001",
    ];
    for text in samples {
        assert_eq!(parse_i32(text), text.parse::<i32>().ok(), "text {:?}", text);
    }
    for value in -1200..1200 {
        let text = value.to_string();
        assert_eq!(parse_i32(&text), Some(value));
    }
}

#[test]
fn writes_numbers_without_leading_zeros() {
    assert_eq!(i32_to_text(0), "0");
    assert_eq!(i32_to_text(7), "7");
    assert_eq!(i32_to_text(10), "10");
    assert_eq!(i32_to_text(1234567890), "1234567890");
    assert_eq!(i32_to_text(i32::MAX), "2147483647");
}

#[test]
fn writes_negative_numbers_with_a_sign() {
    assert_eq!(i32_to_text(-1), "-1");
    assert_eq!(i32_to_text(-45), "-45");
    assert_eq!(i32_to_text(i32::MIN), "-2147483648");
}

#[test]
fn i32_to_text_agrees_with_the_standard_library() {
    for value in -1500..1500 {
        assert_eq!(i32_to_text(value), value.to_string());
    }
    for shift in 0..31 {
        let value: i32 = 1 << shift;
        assert_eq!(i32_to_text(value), value.to_string());
        assert_eq!(i32_to_text(-value), (-value).to_string());
    }
}

#[test]
fn written_numbers_read_back() {
    for value in [i32::MIN, -77, -1, 0, 1, 9, 10, 99, 100, 65535, i32::MAX] {
        assert_eq!(parse_i32(&i32_to_text(value)), Some(value));
    }
}

#[test]
fn parses_unsigned_numbers() {
    assert_eq!(parse_u64("0"), Some(0));
    assert_eq!(parse_u64("60"), Some(60));
    assert_eq!(parse_u64("+5"), Some(5));
    assert_eq!(parse_u64("18446744073709551615"), Some(u64::MAX));
}

#[test]
fn refuses_what_is_no_unsigned_number() {
    assert_eq!(parse_u64(""), None);
    assert_eq!(parse_u64("+"), None);
    assert_eq!(parse_u64("-0"), None);
    assert_eq!(parse_u64("-5"), None);
    assert_eq!(parse_u64("5s"), None);
    assert_eq!(parse_u64("1.5"), None);
    assert_eq!(parse_u64("18446744073709551616"), None);
    assert_eq!(parse_u64("184467440737095516150"), None);
}

#[test]
fn parse_u64_agrees_with_the_standard_library() {
    let samples = [
        "", "0", "1", "+1", "-1", "007", "18446744073709551615", "18446744073709551616",
        "99999999999999999999", "1 ", " 1", "ten", "1_0", "+", "++1", "٣",
    ];
    for text in samples {
        assert_eq!(parse_u64(text), text.parse::<u64>().ok(), "text {:?}", text);
    }
}
