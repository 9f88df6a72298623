use cryptomus::error::ArgumentFault;
use cryptomus::json::{decimal_string, is_number_literal, JsonDraft};

#[test]
fn decimal_string_writes_integers() {
    assert_eq!(decimal_string(0), "0");
    assert_eq!(decimal_string(7), "7");
    assert_eq!(decimal_string(10), "10");
    assert_eq!(decimal_string(3600), "3600");
    assert_eq!(decimal_string(-1), "-1");
    assert_eq!(decimal_string(-99), "-99");
    assert_eq!(decimal_string(i64::MAX), "9223372036854775807");
    assert_eq!(decimal_string(i64::MIN), "-9223372036854775808");
}

#[test]
fn decimal_string_agrees_with_serde_json() {
    for n in [0i64, 1, -1, 9, 10, 11, 99, 100, 101, -100, 43200, i64::MAX, i64::MIN, i64::MIN + 1] {
        assert_eq!(decimal_string(n), serde_json::to_string(&n).unwrap());
    }
}

#[test]
fn is_number_literal_accepts_json_numbers() {
    for text in ["0", "-0", "1", "10", "2.5", "0.5", "-3.25", "1e7", "1E7", "1e+7", "1.5e-7", "0e0", "123456789012345678901234567890"] {
        assert!(is_number_literal(text), "{}", text);
    }
}

#[test]
fn is_number_literal_refuses_everything_else() {
    for text in [
        "", "-", "+1", "01", "00", "-01", "1.", ".5", "1.e5", "1e", "1e+", "1e-", "e5", "1x", "1 ", " 1",
        "1,5", "NaN", "null", "Infinity", "0x10", "1e5.5", "1.5.5", "٣", "1\u{0}",
    ] {
        assert!(!is_number_literal(text), "{}", text);
    }
}

#[test]
fn is_number_literal_accepts_what_serde_json_writes_for_floats() {
    for x in [0.0f64, 1.0, 2.5, 0.1, 5.0, 1e-7, 1e21, -3.75, 4.999999] {
        let written = serde_json::to_string(&x).unwrap();
        assert!(is_number_literal(&written), "{}", written);
    }
}

#[test]
fn an_empty_draft_is_an_empty_object_or_array() {
    assert_eq!(JsonDraft::new().into_object(), Ok("{}".to_string()));
    assert_eq!(JsonDraft::new().into_array(), Ok("[]".to_string()));
}

#[test]
fn members_are_written_in_order_and_separated_by_commas() {
    let draft = JsonDraft::new().member("a", "1").member("b", "true").member("c", "\"x\"");
    assert_eq!(draft.into_object(), Ok("{\"a\":1,\"b\":true,\"c\":\"x\"}".to_string()));
}

#[test]
fn a_single_member_has_no_comma() {
    assert_eq!(JsonDraft::new().member("a", "1").into_object(), Ok("{\"a\":1}".to_string()));
}

#[test]
fn parts_become_the_items_of_an_array() {
    let draft = JsonDraft::new()
        .part(Some(Ok("1".to_string())))
        .part(None)
        .part(Some(Ok("{}".to_string())))
        .part(Some(Ok("\"x\"".to_string())));
    assert_eq!(draft.into_array(), Ok("[1,{},\"x\"]".to_string()));
}

#[test]
fn texts_are_quoted_and_escaped() {
    let draft = JsonDraft::new()
        .text("plain", "USDT")
        .text("quote", "say \"hi\"")
        .text("slash", "a\\b")
        .text("control", "line\nbreak\ttab\u{1}")
        .text("unicode", "Тестовый счёт €");
    assert_eq!(
        draft.into_object(),
        Ok("{\"plain\":\"USDT\",\"quote\":\"say \\\"hi\\\"\",\"slash\":\"a\\\\b\",\"control\":\"line\\nbreak\\ttab\\u0001\",\"unicode\":\"Тестовый счёт €\"}".to_string())
    );
}

#[test]
fn an_empty_text_is_written_as_an_empty_string() {
    assert_eq!(JsonDraft::new().text("k", "").into_object(), Ok("{\"k\":\"\"}".to_string()));
}

#[test]
fn absent_values_are_left_out() {
    let draft = JsonDraft::new()
        .optional_text("a", &None)
        .optional_integer("b", None)
        .optional_flag("c", None)
        .optional_number("d", &None)
        .optional_member("e", None);
    assert_eq!(draft.into_object(), Ok("{}".to_string()));
}

#[test]
fn present_values_are_written_by_kind() {
    let draft = JsonDraft::new()
        .optional_text("a", &Some("x".to_string()))
        .optional_integer("b", Some(-5))
        .optional_flag("c", Some(true))
        .optional_flag("d", Some(false))
        .optional_number("e", &Some("2.5".to_string()))
        .optional_member("f", Some(Ok("[1,2]".to_string())));
    assert_eq!(
        draft.into_object(),
        Ok("{\"a\":\"x\",\"b\":-5,\"c\":true,\"d\":false,\"e\":2.5,\"f\":[1,2]}".to_string())
    );
}

#[test]
fn a_malformed_number_is_a_fault() {
    let draft = JsonDraft::new().optional_number("e", &Some("2,5".to_string()));
    assert_eq!(draft.into_object(), Err(ArgumentFault::MalformedNumber));
}

#[test]
fn the_first_fault_stays() {
    let draft = JsonDraft::new()
        .member("a", "1")
        .part(Some(Err(ArgumentFault::UnencodableText)))
        .optional_number("e", &Some("x".to_string()))
        .member("b", "2");
    assert_eq!(draft.into_object(), Err(ArgumentFault::UnencodableText));

    let draft = JsonDraft::new()
        .optional_number("e", &Some("x".to_string()))
        .optional_member("f", Some(Err(ArgumentFault::UnencodableText)));
    assert_eq!(draft.into_array(), Err(ArgumentFault::MalformedNumber));
}
