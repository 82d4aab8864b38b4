use tibco_ems::number::parse_integer;
use tibco_ems::number::parse_long;
use tibco_ems::number::show_bytes;
use tibco_ems::number::show_long;

#[test]
fn texts_that_stand_for_numbers() {
    assert_eq!(parse_long("0"), Some(0));
    assert_eq!(parse_long("10"), Some(10));
    assert_eq!(parse_long("+5"), Some(5));
    assert_eq!(parse_long("-5"), Some(-5));
    assert_eq!(parse_long("007"), Some(7));
    assert_eq!(parse_long("-0"), Some(0));
    assert_eq!(parse_long("9223372036854775807"), Some(i64::MAX));
    assert_eq!(parse_long("-9223372036854775808"), Some(i64::MIN));
    assert_eq!(parse_integer("2147483647"), Some(i32::MAX));
    assert_eq!(parse_integer("-2147483648"), Some(i32::MIN));
    assert_eq!(parse_integer("50"), Some(50));
}

#[test]
fn texts_that_stand_for_no_number() {
    for text in ["", "+", "-", " 5", "5 ", "ten", "1_000", "0x10", "1.5", "--1", "+-1", "٣", "1e3"] {
        assert_eq!(parse_long(text), None, "{:?}", text);
        assert_eq!(parse_integer(text), None, "{:?}", text);
    }
    assert_eq!(parse_long("9223372036854775808"), None);
    assert_eq!(parse_long("-9223372036854775809"), None);
    assert_eq!(parse_long("99999999999999999999999999999999999999999999"), None);
    assert_eq!(parse_integer("2147483648"), None);
    assert_eq!(parse_integer("-2147483649"), None);
    assert_eq!(parse_integer("4294967296"), None);
}

#[test]
fn reading_agrees_with_the_standard_library() {
    let texts = [
        "", "0", "-0", "+0", "12", "-12", "+12", "0012", "9223372036854775807",
        "9223372036854775808", "-9223372036854775808", "-9223372036854775809", "2147483647",
        "2147483648", "-2147483648", "-2147483649", "a", "1a", "a1", "-", "+", " ", "1 ", "٣",
    ];
    for text in texts {
        assert_eq!(parse_long(text), text.parse::<i64>().ok(), "{:?}", text);
        assert_eq!(parse_integer(text), text.parse::<i32>().ok(), "{:?}", text);
    }
}

#[test]
fn numbers_as_texts() {
    assert_eq!(show_long(0), "0");
    assert_eq!(show_long(7), "7");
    assert_eq!(show_long(-7), "-7");
    assert_eq!(show_long(1234567890), "1234567890");
    for v in [0, 1, 9, 10, 11, 99, 100, -1, -10, 4096, i64::MAX, i64::MIN, i64::MIN + 1] {
        assert_eq!(show_long(v), v.to_string());
        assert_eq!(parse_long(&show_long(v)), Some(v));
    }
}

#[test]
fn bytes_as_texts() {
    assert_eq!(show_bytes(&vec![]), "[]");
    assert_eq!(show_bytes(&vec![0]), "[0]");
    assert_eq!(show_bytes(&vec![1, 2, 3]), "[1, 2, 3]");
    assert_eq!(show_bytes(&vec![255, 0, 10]), format!("{:?}", vec![255u8, 0, 10]));
}
