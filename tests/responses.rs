use jules_rs::{response_body, JulesError};

#[test]
fn not_found_is_api_error_with_body() {
    match response_body(404, Ok("not found".to_string())) {
        Err(JulesError::Api { status, message }) => {
            assert_eq!(status, 404);
            assert_eq!(message, "not found");
        }
        other => panic!("expected an Api error, got {:?}", other),
    }
}

#[test]
fn error_status_never_decodes_body() {
    match response_body(500, Ok("{\"valid\":\"json\"}".to_string())) {
        Err(JulesError::Api { status, message }) => {
            assert_eq!(status, 500);
            assert_eq!(message, "{\"valid\":\"json\"}");
        }
        other => panic!("expected an Api error, got {:?}", other),
    }
}

#[test]
fn success_with_unparsable_body_is_decode_error() {
    let text = response_body(200, Ok("{not json".to_string())).expect("2xx hands the body on");
    assert_eq!(text, "{not json");
    let decoded: Result<serde_json::Value, JulesError> = serde_json::from_str(&text).map_err(JulesError::from);
    assert!(matches!(decoded, Err(JulesError::Serialization(_))));
}

#[test]
fn success_family_bounds() {
    assert!(response_body(299, Ok("x".to_string())).is_ok());
    assert!(response_body(204, Ok(String::new())).is_ok());
    assert!(matches!(response_body(199, Ok("x".to_string())), Err(JulesError::Api { status: 199, .. })));
    assert!(matches!(response_body(300, Ok("x".to_string())), Err(JulesError::Api { status: 300, .. })));
}

#[test]
fn url_error_converts_to_invalid_endpoint() {
    let e = url::Url::parse("not a url").unwrap_err();
    assert!(matches!(JulesError::from(e), JulesError::Url(_)));
}

fn transport_error() -> reqwest::Error {
    reqwest::Client::new().get("not a url").build().unwrap_err()
}

#[test]
fn unreadable_error_body_gives_empty_message() {
    match response_body(502, Err(transport_error())) {
        Err(JulesError::Api { status, message }) => {
            assert_eq!(status, 502);
            assert_eq!(message, "");
        }
        other => panic!("expected an Api error, got {:?}", other),
    }
}

#[test]
fn unreadable_success_body_is_transport_error() {
    assert!(matches!(response_body(200, Err(transport_error())), Err(JulesError::Http(_))));
}
