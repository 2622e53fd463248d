use ascot::ieee;
use ascot::json::{JsonValue, Members};
use ascot::text::{decimal, join, owned, str_eq};

#[test]
fn texts_are_compared_by_their_characters() {
    assert!(str_eq("", ""));
    assert!(str_eq("abc", "abc"));
    assert!(!str_eq("abc", "abd"));
    assert!(!str_eq("abc", "ab"));
    assert!(!str_eq("ab", "abc"));
    assert!(!str_eq("", "a"));
    assert!(str_eq("caf\u{e9}", "café"));
    assert!(!str_eq("cafe", "café"));
    assert_eq!(owned("x y"), "x y");
    assert_eq!(join("ab", "cd"), "abcd");
    assert_eq!(join("", ""), "");
}

#[test]
fn numbers_in_decimal_digits() {
    assert_eq!(decimal(0), "0");
    assert_eq!(decimal(7), "7");
    assert_eq!(decimal(10), "10");
    assert_eq!(decimal(109), "109");
    assert_eq!(decimal(65535), "65535");
    assert_eq!(decimal(u64::MAX), "18446744073709551615");
    for n in [1u64, 9, 11, 99, 100, 101, 999, 1000, 12345678901234567] {
        assert_eq!(decimal(n), n.to_string());
    }
}

#[test]
fn order_of_floating_point_numbers() {
    let values = [
        f64::NEG_INFINITY,
        f64::MIN,
        -2.5,
        -1.0,
        -f64::MIN_POSITIVE,
        -0.0,
        0.0,
        f64::MIN_POSITIVE,
        0.1,
        1.0,
        4.0,
        f64::MAX,
        f64::INFINITY,
        f64::NAN,
        -f64::NAN,
    ];
    for a in values {
        for b in values {
            assert_eq!(ieee::le(a.to_bits(), b.to_bits()), a <= b, "{} <= {}", a, b);
        }
        assert_eq!(ieee::is_positive(a.to_bits()), a > 0.0, "{} > 0", a);
        assert_eq!(ieee::is_nan(a.to_bits()), a.is_nan(), "{} is no number", a);
    }
    assert_eq!(ieee::SIGN_BIT, (-0.0f64).to_bits());
    assert_eq!(ieee::INFINITY_BITS, f64::INFINITY.to_bits());
}

#[test]
fn members_are_found_by_name() {
    let document = Members::new()
        .with("a", JsonValue::Unsigned(1))
        .with("b", JsonValue::text("two"))
        .with("a", JsonValue::Unsigned(3))
        .finish();
    assert!(matches!(document.member("a"), Some(JsonValue::Unsigned(1))));
    assert!(matches!(document.member("b"), Some(JsonValue::Text(s)) if s == "two"));
    assert!(document.member("c").is_none());
    assert!(JsonValue::Null.member("a").is_none());
    assert!(JsonValue::array(vec![]).member("a").is_none());
    assert_eq!(document.as_object().map(|m| m.len()), Some(3));
    assert!(document.as_array().is_none());
    assert!(JsonValue::object(vec![]).as_object().unwrap().is_empty());
    assert_eq!(
        JsonValue::array(vec![JsonValue::Null]).as_array().map(|v| v.len()),
        Some(1)
    );
}

#[test]
fn plain_values_of_documents() {
    assert_eq!(JsonValue::text("x").as_text(), Some("x"));
    assert_eq!(JsonValue::Null.as_text(), None);
    assert_eq!(JsonValue::Bool(true).as_bool(), Some(true));
    assert_eq!(JsonValue::Unsigned(1).as_bool(), None);
    assert_eq!(JsonValue::Single(7).as_single(), Some(7));
    assert_eq!(JsonValue::Double(7).as_single(), None);
    assert_eq!(JsonValue::Double(9).as_double(), Some(9));
    assert_eq!(JsonValue::Unsigned(9).as_double(), None);

    assert_eq!(JsonValue::Unsigned(5).as_integer_within(0, 5), Some(5));
    assert_eq!(JsonValue::Unsigned(6).as_integer_within(0, 5), None);
    assert_eq!(JsonValue::Unsigned(0).as_integer_within(1, 5), None);
    assert_eq!(JsonValue::Unsigned(u64::MAX).as_integer_within(0, u64::MAX), Some(u64::MAX as i128));
    assert_eq!(JsonValue::Signed(-3).as_integer_within(-3, 5), Some(-3));
    assert_eq!(JsonValue::Signed(-4).as_integer_within(-3, 5), None);
    assert_eq!(JsonValue::Signed(5).as_integer_within(-3, 5), Some(5));
    assert_eq!(JsonValue::Signed(6).as_integer_within(-3, 5), None);
    assert_eq!(JsonValue::Signed(i64::MIN).as_integer_within(i64::MIN, 0), Some(i64::MIN as i128));
    assert_eq!(JsonValue::Unsigned(3).as_integer_within(-3, 5), Some(3));
    assert_eq!(JsonValue::Double(3).as_integer_within(0, 5), None);
}
