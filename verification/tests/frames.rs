use rfc003_swap::frame::{Header, JsonValue, Response};

fn text(value: &str) -> JsonValue {
    JsonValue::String(value.to_string())
}

#[test]
fn empty_response_has_nothing() {
    let response = Response::empty();
    assert_eq!(response.body(), &JsonValue::Null);
    assert!(response.body().is_null());
    assert_eq!(response.header("decision"), None);
    assert_eq!(response.into_parts(), (vec![], JsonValue::Null));
}

#[test]
fn headers_are_found_by_name() {
    let response = Response::empty()
        .with_header("decision", Header::with_value(text("accepted")))
        .with_header("reason", Header::with_value(text("none")));
    assert_eq!(response.header("decision"), Some(&Header::with_value(text("accepted"))));
    assert_eq!(response.header("reason"), Some(&Header::with_value(text("none"))));
    assert_eq!(response.header("Decision"), None);
    assert_eq!(response.header(""), None);
}

#[test]
fn setting_a_header_again_replaces_it() {
    let response = Response::empty()
        .with_header("decision", Header::with_value(text("accepted")))
        .with_header("reason", Header::with_value(text("none")))
        .with_header("decision", Header::with_value(text("declined")));
    assert_eq!(response.header("decision"), Some(&Header::with_value(text("declined"))));
    assert_eq!(response.header("reason"), Some(&Header::with_value(text("none"))));
    let (headers, _) = response.into_parts();
    assert_eq!(headers.len(), 2);
}

#[test]
fn body_is_set_and_headers_stay() {
    let body = JsonValue::Object(vec![
        ("alpha".to_string(), JsonValue::Number("1".to_string())),
        ("beta".to_string(), JsonValue::Array(vec![JsonValue::Bool(true), JsonValue::Null])),
    ]);
    let response = Response::empty()
        .with_header("decision", Header::with_value(text("accepted")))
        .with_body(JsonValue::Object(vec![
            ("alpha".to_string(), JsonValue::Number("1".to_string())),
            ("beta".to_string(), JsonValue::Array(vec![JsonValue::Bool(true), JsonValue::Null])),
        ]));
    assert_eq!(response.body(), &body);
    assert!(!response.body().is_null());
    assert_eq!(response.header("decision"), Some(&Header::with_value(text("accepted"))));
}

#[test]
fn taking_a_header_removes_it_only() {
    let mut response = Response::empty()
        .with_body(text("body"))
        .with_header("decision", Header::with_value(text("accepted")))
        .with_header("reason", Header::with_value(text("none")));
    assert_eq!(response.take_header("decision"), Some(Header::with_value(text("accepted"))));
    assert_eq!(response.take_header("decision"), None);
    assert_eq!(response.header("decision"), None);
    assert_eq!(response.header("reason"), Some(&Header::with_value(text("none"))));
    assert_eq!(response.body(), &text("body"));
    assert_eq!(response.take_header("missing"), None);
}
