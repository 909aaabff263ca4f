use recommend_server::detail::{detail_user_id, parse_i32};
use recommend_server::error::HandleError;
use recommend_server::query::Query;

#[test]
fn parses_plain_and_signed_numbers() {
    assert_eq!(parse_i32("123"), Some(123));
    assert_eq!(parse_i32("-12"), Some(-12));
    assert_eq!(parse_i32("+5"), Some(5));
    assert_eq!(parse_i32("-0"), Some(0));
    assert_eq!(parse_i32("00012"), Some(12));
}

#[test]
fn parses_the_bounds_of_i32() {
    assert_eq!(parse_i32("2147483647"), Some(i32::MAX));
    assert_eq!(parse_i32("-2147483648"), Some(i32::MIN));
    assert_eq!(parse_i32("2147483648"), None);
    assert_eq!(parse_i32("-2147483649"), None);
    assert_eq!(parse_i32("99999999999999999999"), None);
    assert_eq!(parse_i32("99999999999999999999x"), None);
}

#[test]
fn refuses_what_is_no_number() {
    for text in ["", "+", "-", "12a", " 1", "1 ", "+-1", "--1", "1.0", "\u{ff11}\u{ff12}", "0x10"] {
        assert_eq!(parse_i32(text), None, "{:?}", text);
    }
}

#[test]
fn agrees_with_std_parse() {
    for text in ["0", "7", "-7", "+7", "2147483647", "-2147483648", "2147483648", "", "-", "a", "12b", "007"] {
        assert_eq!(parse_i32(text), text.parse::<i32>().ok(), "{:?}", text);
    }
}

#[test]
fn user_id_round_trip() {
    for id in [0, 1, -1, 42, -42, 1000000, i32::MAX, i32::MIN] {
        let mut q = Query::new();
        q.insert("user_id".to_string(), id.to_string());
        assert!(matches!(detail_user_id(&q), Ok(v) if v == id));
    }
}

#[test]
fn missing_user_id_is_not_selected() {
    let mut q = Query::new();
    q.insert("date".to_string(), "2020-01-01".to_string());
    assert!(matches!(detail_user_id(&q), Err(HandleError::AccountIsNotSelected)));
}

#[test]
fn malformed_user_id_is_invalid() {
    let mut q = Query::new();
    q.insert("user_id".to_string(), "abc".to_string());
    assert!(matches!(detail_user_id(&q), Err(HandleError::AccountSelectionIsInvalid)));
}
