use cryptomus::error::{CryptomusError, ProtocolFault};
use cryptomus::invoice::{InvoicePayload, InvoiceResponse};
use cryptomus::response::{
    interpret_reply, normalize_optional_string, status_is_success, GenericCryptomusResponse,
};
use cryptomus::status::PaymentStatus;

fn text(s: &str) -> Option<String> {
    Some(s.to_string())
}

/// What a decoder makes of
/// `{"uuid":"8b03432e-...","order_id":"sdk-test-1","amount":"10.00","payment_amount":null,
///   "payer_amount":"10.01","discount_percent":0,"discount":"0.00","payer_currency":"USDT",
///   "currency":"USD","merchant_amount":"","network":"tron","address":"TXk...","from":null,
///   "txid":"","payment_status":"paid_over","url":"https://pay.cryptomus.com/pay/8b03432e",
///   "expired_at":1700003600,"status":"paid_over","is_final":true,"additional_data":"",
///   "created_at":"2023-11-14T22:13:20+03:00","updated_at":"2023-11-14T22:20:00+03:00",
///   "comments":null}`.
fn captured_payload() -> InvoicePayload {
    InvoicePayload {
        uuid: "8b03432e-385b-4670-8d06-064591096795".to_string(),
        order_id: "sdk-test-1".to_string(),
        amount: "10.00".to_string(),
        payment_amount: None,
        payer_amount: text("10.01"),
        discount_percent: Some(0),
        discount: text("0.00"),
        payer_currency: text("USDT"),
        currency: "USD".to_string(),
        merchant_amount: text(""),
        network: text("tron"),
        address: text("TXkTzcRcFgVBJkMcfpTQoEHYkuqNA5RQyL"),
        from: None,
        txid: text(""),
        payment_status: "paid_over".to_string(),
        url: "https://pay.cryptomus.com/pay/8b03432e".to_string(),
        expired_at: 1700003600,
        status: "paid_over".to_string(),
        is_final: true,
        additional_data: text(""),
        created_at: "2023-11-14T22:13:20+03:00".to_string(),
        updated_at: "2023-11-14T22:20:00+03:00".to_string(),
        comments: None,
    }
}

fn expected_invoice() -> InvoiceResponse {
    InvoiceResponse {
        uuid: "8b03432e-385b-4670-8d06-064591096795".to_string(),
        order_id: "sdk-test-1".to_string(),
        amount: "10.00".to_string(),
        payment_amount: None,
        payer_amount: text("10.01"),
        discount_percent: Some(0),
        discount: text("0.00"),
        payer_currency: text("USDT"),
        currency: "USD".to_string(),
        merchant_amount: None,
        network: text("tron"),
        address: text("TXkTzcRcFgVBJkMcfpTQoEHYkuqNA5RQyL"),
        from: None,
        txid: None,
        payment_status: PaymentStatus::PaidOver,
        url: "https://pay.cryptomus.com/pay/8b03432e".to_string(),
        expired_at: 1700003600,
        status_alias: PaymentStatus::PaidOver,
        is_final: true,
        additional_data: None,
        created_at: "2023-11-14T22:13:20+03:00".to_string(),
        updated_at: "2023-11-14T22:20:00+03:00".to_string(),
        comments: None,
    }
}

fn envelope<T>(
    state: i64,
    result: Option<T>,
    message: Option<&str>,
    errors: Option<&str>,
) -> GenericCryptomusResponse<T> {
    GenericCryptomusResponse {
        state,
        result,
        message: message.map(str::to_string),
        errors: errors.map(str::to_string),
    }
}

#[test]
fn normalize_optional_string_turns_empty_into_absent() {
    assert_eq!(normalize_optional_string(None), None);
    assert_eq!(normalize_optional_string(text("")), None);
    assert_eq!(normalize_optional_string(text("x")), text("x"));
    assert_eq!(normalize_optional_string(text(" ")), text(" "));
    assert_eq!(normalize_optional_string(text("0")), text("0"));
}

#[test]
fn status_is_success_means_2xx() {
    for status in [200u16, 201, 204, 299] {
        assert!(status_is_success(status));
    }
    for status in [0u16, 100, 199, 300, 301, 400, 401, 404, 422, 500, 503, u16::MAX] {
        assert!(!status_is_success(status));
    }
}

#[test]
fn a_success_envelope_yields_its_result() {
    let reply = envelope(0, Some(7u8), None, None);
    assert_eq!(reply.into_result(), Ok(7));
    let reply = envelope(0, Some(7u8), Some("ignored"), Some("{}"));
    assert_eq!(reply.into_result(), Ok(7));
}

#[test]
fn a_success_envelope_without_result_is_a_protocol_violation() {
    // {"state":0}
    let reply: GenericCryptomusResponse<InvoicePayload> = envelope(0, None, None, None);
    assert_eq!(
        reply.into_result(),
        Err(CryptomusError::ProtocolViolation(ProtocolFault::MissingResult))
    );
    assert_eq!(
        InvoiceResponse::from_reply(200, "{\"state\":0}".to_string(), Ok(envelope(0, None, None, None))),
        Err(CryptomusError::ProtocolViolation(ProtocolFault::MissingResult))
    );
}

#[test]
fn an_error_envelope_is_an_api_error_with_its_message() {
    // {"state":1,"message":"Validation failed","errors":{"amount":["required"]}}
    let reply: GenericCryptomusResponse<InvoicePayload> =
        envelope(1, None, Some("Validation failed"), Some("{\"amount\":[\"required\"]}"));
    assert_eq!(
        reply.into_result(),
        Err(CryptomusError::ApiError {
            message: "Validation failed".to_string(),
            errors: text("{\"amount\":[\"required\"]}"),
        })
    );
}

#[test]
fn an_error_envelope_may_lack_the_detail() {
    let reply: GenericCryptomusResponse<u8> = envelope(1, None, Some("Not found"), None);
    assert_eq!(
        reply.into_result(),
        Err(CryptomusError::ApiError { message: "Not found".to_string(), errors: None })
    );
}

#[test]
fn an_error_envelope_wins_over_a_result_it_carries() {
    let reply = envelope(2, Some(7u8), Some("Nope"), None);
    assert_eq!(
        reply.into_result(),
        Err(CryptomusError::ApiError { message: "Nope".to_string(), errors: None })
    );
}

#[test]
fn an_error_envelope_without_message_is_a_protocol_violation() {
    let reply: GenericCryptomusResponse<u8> = envelope(1, None, None, Some("{}"));
    assert_eq!(
        reply.into_result(),
        Err(CryptomusError::ProtocolViolation(ProtocolFault::MissingMessage))
    );
    let reply: GenericCryptomusResponse<u8> = envelope(-1, Some(1), None, None);
    assert_eq!(
        reply.into_error(),
        CryptomusError::ProtocolViolation(ProtocolFault::MissingMessage)
    );
}

#[test]
fn into_error_reads_any_envelope_as_a_failure() {
    let reply = envelope(0, Some(7u8), Some("Unauthorized"), None);
    assert_eq!(
        reply.into_error(),
        CryptomusError::ApiError { message: "Unauthorized".to_string(), errors: None }
    );
}

#[test]
fn a_failed_status_with_an_envelope_is_an_api_error() {
    let reply: Result<GenericCryptomusResponse<u8>, String> =
        Ok(envelope(1, None, Some("Validation failed"), Some("{\"amount\":[\"required\"]}")));
    assert_eq!(
        interpret_reply(422, "{...}".to_string(), reply),
        Err(CryptomusError::ApiError {
            message: "Validation failed".to_string(),
            errors: text("{\"amount\":[\"required\"]}"),
        })
    );
}

#[test]
fn a_failed_status_never_yields_a_result() {
    let reply: Result<GenericCryptomusResponse<u8>, String> =
        Ok(envelope(0, Some(7), Some("Server error"), None));
    assert_eq!(
        interpret_reply(500, "{...}".to_string(), reply),
        Err(CryptomusError::ApiError { message: "Server error".to_string(), errors: None })
    );
    let reply: Result<GenericCryptomusResponse<u8>, String> = Ok(envelope(0, Some(7), None, None));
    assert_eq!(
        interpret_reply(500, "{...}".to_string(), reply),
        Err(CryptomusError::ProtocolViolation(ProtocolFault::MissingMessage))
    );
}

#[test]
fn a_failed_status_with_an_unreadable_body_is_a_transport_error_with_the_body() {
    let reply: Result<GenericCryptomusResponse<u8>, String> =
        Err("expected value at line 1 column 1".to_string());
    assert_eq!(
        interpret_reply(502, "<html>Bad Gateway</html>".to_string(), reply),
        Err(CryptomusError::TransportError("<html>Bad Gateway</html>".to_string()))
    );
}

#[test]
fn a_successful_status_with_an_unreadable_body_is_a_transport_error_with_the_complaint() {
    let reply: Result<GenericCryptomusResponse<u8>, String> =
        Err("expected value at line 1 column 1".to_string());
    assert_eq!(
        interpret_reply(200, "<html>OK</html>".to_string(), reply),
        Err(CryptomusError::TransportError("expected value at line 1 column 1".to_string()))
    );
}

#[test]
fn a_successful_status_resolves_the_envelope() {
    let reply: Result<GenericCryptomusResponse<u8>, String> = Ok(envelope(0, Some(7), None, None));
    assert_eq!(interpret_reply(200, String::new(), reply), Ok(7));
    let reply: Result<GenericCryptomusResponse<u8>, String> =
        Ok(envelope(1, None, Some("Validation failed"), None));
    assert_eq!(
        interpret_reply(200, String::new(), reply),
        Err(CryptomusError::ApiError { message: "Validation failed".to_string(), errors: None })
    );
}

#[test]
fn a_captured_invoice_comes_out_field_for_field() {
    let reply = Ok(envelope(0, Some(captured_payload()), None, None));
    assert_eq!(InvoiceResponse::from_reply(200, String::new(), reply), Ok(expected_invoice()));
}

#[test]
fn from_payload_normalizes_every_optional_text() {
    let mut payload = captured_payload();
    payload.payment_amount = text("");
    payload.payer_amount = text("");
    payload.discount = text("");
    payload.payer_currency = text("");
    payload.merchant_amount = text("");
    payload.network = text("");
    payload.address = text("");
    payload.from = text("");
    payload.txid = text("");
    payload.additional_data = text("");
    payload.comments = text("");
    let invoice = InvoiceResponse::from_payload(payload);
    assert_eq!(invoice.payment_amount, None);
    assert_eq!(invoice.payer_amount, None);
    assert_eq!(invoice.discount, None);
    assert_eq!(invoice.payer_currency, None);
    assert_eq!(invoice.merchant_amount, None);
    assert_eq!(invoice.network, None);
    assert_eq!(invoice.address, None);
    assert_eq!(invoice.from, None);
    assert_eq!(invoice.txid, None);
    assert_eq!(invoice.additional_data, None);
    assert_eq!(invoice.comments, None);
    // required texts are kept as they are, empty or not
    assert_eq!(invoice.uuid, "8b03432e-385b-4670-8d06-064591096795");
}

#[test]
fn from_payload_keeps_every_optional_text_that_is_there() {
    let mut payload = captured_payload();
    payload.payment_amount = text("10.01");
    payload.merchant_amount = text("9.80");
    payload.from = text("TFrom");
    payload.txid = text("deadbeef");
    payload.additional_data = text("note");
    payload.comments = text("late");
    payload.discount_percent = None;
    let invoice = InvoiceResponse::from_payload(payload);
    assert_eq!(invoice.payment_amount, text("10.01"));
    assert_eq!(invoice.merchant_amount, text("9.80"));
    assert_eq!(invoice.from, text("TFrom"));
    assert_eq!(invoice.txid, text("deadbeef"));
    assert_eq!(invoice.additional_data, text("note"));
    assert_eq!(invoice.comments, text("late"));
    assert_eq!(invoice.discount_percent, None);
}

#[test]
fn from_payload_reads_both_status_fields_on_their_own() {
    let mut payload = captured_payload();
    payload.payment_status = "check".to_string();
    payload.status = "new_future_status".to_string();
    payload.is_final = false;
    let invoice = InvoiceResponse::from_payload(payload);
    assert_eq!(invoice.payment_status, PaymentStatus::Check);
    assert_eq!(invoice.status_alias, PaymentStatus::Unknown);
    assert!(!invoice.is_final);
}

#[test]
fn from_reply_passes_failures_on() {
    let reply: Result<GenericCryptomusResponse<InvoicePayload>, String> =
        Ok(envelope(1, None, Some("Validation failed"), Some("{\"amount\":[\"required\"]}")));
    assert_eq!(
        InvoiceResponse::from_reply(200, String::new(), reply),
        Err(CryptomusError::ApiError {
            message: "Validation failed".to_string(),
            errors: text("{\"amount\":[\"required\"]}"),
        })
    );
    let reply: Result<GenericCryptomusResponse<InvoicePayload>, String> = Err("eof".to_string());
    assert_eq!(
        InvoiceResponse::from_reply(404, "Not Found".to_string(), reply),
        Err(CryptomusError::TransportError("Not Found".to_string()))
    );
}

const CAPTURED: &str = r#"{"state":0,"result":{
    "uuid":"8b03432e-385b-4670-8d06-064591096795","order_id":"sdk-test-1","amount":"10.00",
    "payment_amount":null,"payer_amount":"10.01","discount_percent":0,"discount":"0.00",
    "payer_currency":"USDT","currency":"USD","merchant_amount":"","network":"tron",
    "address":"TXkTzcRcFgVBJkMcfpTQoEHYkuqNA5RQyL","from":null,"txid":"",
    "payment_status":"paid_over","url":"https://pay.cryptomus.com/pay/8b03432e",
    "expired_at":1700003600,"status":"paid_over","is_final":true,"additional_data":"",
    "created_at":"2023-11-14T22:13:20+03:00","updated_at":"2023-11-14T22:20:00+03:00",
    "comments":null}}"#;

#[test]
fn a_captured_success_envelope_yields_the_invoice() {
    assert_eq!(InvoiceResponse::from_response(200, CAPTURED.to_string()), Ok(expected_invoice()));
    assert_eq!(InvoiceResponse::from_response(201, CAPTURED.to_string()), Ok(expected_invoice()));
}

#[test]
fn a_success_envelope_without_result_is_no_parse_error() {
    assert_eq!(
        InvoiceResponse::from_response(200, "{\"state\":0}".to_string()),
        Err(CryptomusError::ProtocolViolation(ProtocolFault::MissingResult))
    );
    assert_eq!(
        InvoiceResponse::from_response(200, "{\"state\":0,\"result\":null}".to_string()),
        Err(CryptomusError::ProtocolViolation(ProtocolFault::MissingResult))
    );
}

#[test]
fn a_captured_error_envelope_yields_an_api_error() {
    let body = "{\"state\":1,\"message\":\"Validation failed\",\"errors\":{\"amount\":[\"required\"]}}";
    let expected = Err(CryptomusError::ApiError {
        message: "Validation failed".to_string(),
        errors: text("{\"amount\":[\"required\"]}"),
    });
    assert_eq!(InvoiceResponse::from_response(200, body.to_string()), expected);
    assert_eq!(InvoiceResponse::from_response(422, body.to_string()), expected);
}

#[test]
fn an_error_state_without_message_is_a_protocol_violation() {
    assert_eq!(
        InvoiceResponse::from_response(200, "{\"state\":1}".to_string()),
        Err(CryptomusError::ProtocolViolation(ProtocolFault::MissingMessage))
    );
    assert_eq!(
        InvoiceResponse::from_response(500, "{\"state\":1,\"errors\":{}}".to_string()),
        Err(CryptomusError::ProtocolViolation(ProtocolFault::MissingMessage))
    );
}

#[test]
fn a_failed_reply_that_is_no_envelope_comes_back_as_its_text() {
    for body in ["<html>Bad Gateway</html>", "", "[]", "{\"message\":\"no state\"}", "{\"state\":1,\"message\":\"m\",\"result\":{}}"] {
        assert_eq!(
            InvoiceResponse::from_response(502, body.to_string()),
            Err(CryptomusError::TransportError(body.to_string()))
        );
    }
}

#[test]
fn a_successful_reply_that_is_no_envelope_comes_back_as_the_complaint() {
    assert_eq!(
        InvoiceResponse::from_response(200, "<html>OK</html>".to_string()),
        Err(CryptomusError::TransportError("expected a JSON object".to_string()))
    );
    assert_eq!(
        InvoiceResponse::from_response(200, "{\"result\":{}}".to_string()),
        Err(CryptomusError::TransportError("missing field `state`".to_string()))
    );
    assert_eq!(
        InvoiceResponse::from_response(200, "{\"state\":0,\"result\":{\"uuid\":\"u\"}}".to_string()),
        Err(CryptomusError::TransportError("missing field `order_id`".to_string()))
    );
}

#[test]
fn a_status_in_a_reply_reads_as_its_label() {
    let body = CAPTURED.replace("\"status\":\"paid_over\"", "\"status\":\"new_future_status\"");
    let invoice = InvoiceResponse::from_response(200, body).unwrap();
    assert_eq!(invoice.payment_status, PaymentStatus::PaidOver);
    assert_eq!(invoice.status_alias, PaymentStatus::Unknown);
}
