use image_server::json::json_escape;
use image_server::num::i32_to_string;
use image_server::num::parse_i32;

#[test]
fn formats_decimal() {
    assert_eq!(i32_to_string(0), "0");
    assert_eq!(i32_to_string(7), "7");
    assert_eq!(i32_to_string(10), "10");
    assert_eq!(i32_to_string(305), "305");
    assert_eq!(i32_to_string(-1), "-1");
    assert_eq!(i32_to_string(-305), "-305");
    assert_eq!(i32_to_string(i32::MAX), "2147483647");
    assert_eq!(i32_to_string(i32::MIN), "-2147483648");
}

#[test]
fn parses_plain_integers() {
    assert_eq!(parse_i32("0"), Some(0));
    assert_eq!(parse_i32("42"), Some(42));
    assert_eq!(parse_i32("+42"), Some(42));
    assert_eq!(parse_i32("-42"), Some(-42));
    assert_eq!(parse_i32("007"), Some(7));
    assert_eq!(parse_i32("-007"), Some(-7));
}

#[test]
fn parses_the_range_bounds() {
    assert_eq!(parse_i32("2147483647"), Some(i32::MAX));
    assert_eq!(parse_i32("2147483648"), None);
    assert_eq!(parse_i32("-2147483648"), Some(i32::MIN));
    assert_eq!(parse_i32("-2147483649"), None);
    assert_eq!(parse_i32("0000000000000000042"), Some(42));
    assert_eq!(parse_i32("99999999999999999999999999"), None);
    assert_eq!(parse_i32("-99999999999999999999999999"), None);
}

#[test]
fn rejects_non_integers() {
    assert_eq!(parse_i32(""), None);
    assert_eq!(parse_i32("-"), None);
    assert_eq!(parse_i32("+"), None);
    assert_eq!(parse_i32("foo"), None);
    assert_eq!(parse_i32("1a"), None);
    assert_eq!(parse_i32("a1"), None);
    assert_eq!(parse_i32(" 1"), None);
    assert_eq!(parse_i32("1 "), None);
    assert_eq!(parse_i32("1.5"), None);
    assert_eq!(parse_i32("--1"), None);
    assert_eq!(parse_i32("+-1"), None);
    assert_eq!(parse_i32("١٢٣"), None);
}

#[test]
fn escapes_json_specials() {
    assert_eq!(json_escape("plain"), "plain");
    assert_eq!(json_escape(""), "");
    assert_eq!(json_escape("a\"b"), "a\\\"b");
    assert_eq!(json_escape("a\\b"), "a\\\\b");
    assert_eq!(json_escape("a\nb\tc\rd"), "a\\nb\\tc\\rd");
    assert_eq!(json_escape("\u{8}\u{c}"), "\\b\\f");
    assert_eq!(json_escape("\u{1}"), "\\u0001");
    assert_eq!(json_escape("\u{1f}"), "\\u001f");
    assert_eq!(json_escape("\u{10}"), "\\u0010");
    assert_eq!(json_escape("héllo→"), "héllo→");
}

#[test]
fn escaped_id_reaches_the_json_body() {
    let img = image_server::web::WebImage::from("a\"b", "h");
    assert_eq!(
        img.to_json(),
        "{\"id\":\"a\\\"b\",\"raw_url\":\"http://h/images/a\\\"b/raw\"}"
    );
}
