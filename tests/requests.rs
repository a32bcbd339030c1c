use jules_rs::client::{BASE_URL, STREAM_PAGE_SIZE};
use jules_rs::{HttpRequest, JulesClient, JulesError, Method, QueryValue};

fn client() -> JulesClient {
    JulesClient::new("SECRET-REDACTED".to_string()).expect("base address parses")
}

fn headers(r: &HttpRequest) -> Vec<(&str, &str)> {
    r.headers.iter().map(|(k, v)| (k.as_str(), v.as_str())).collect()
}

fn assert_auth_headers(r: &HttpRequest) {
    assert_eq!(
        headers(r),
        vec![("X-Goog-Api-Key", "SECRET-REDACTED"), ("Accept", "application/json")]
    );
}

#[test]
fn base_address_is_fixed() {
    assert_eq!(BASE_URL, "https://jules.googleapis.com/v1alpha/");
}

#[test]
fn relative_path_joins_under_base() {
    let r = client().list_sessions(None, None).unwrap();
    assert_eq!(r.url, "https://jules.googleapis.com/v1alpha/sessions");
    let r = client().get_session("sessions/abc123").unwrap();
    assert_eq!(r.url, "https://jules.googleapis.com/v1alpha/sessions/abc123");
    let r = client().get_activity("sessions/1/activities/2").unwrap();
    assert_eq!(r.url, "https://jules.googleapis.com/v1alpha/sessions/1/activities/2");
}

#[test]
fn absolute_name_resolves_unchanged() {
    let name = "https://jules.googleapis.com/v1alpha/sessions/abc123";
    let r = client().get_session(name).unwrap();
    assert_eq!(r.url, name);
}

#[test]
fn every_request_has_credential_and_accept_headers() {
    let c = client();
    let all = vec![
        c.create_session("{}".to_string()).unwrap(),
        c.get_session("sessions/a").unwrap(),
        c.delete_session("sessions/a").unwrap(),
        c.list_sessions(Some(5), Some("t".to_string())).unwrap(),
        c.send_message("sessions/a", "hello").unwrap(),
        c.approve_plan("sessions/a").unwrap(),
        c.get_activity("sessions/a/activities/b").unwrap(),
        c.list_activities("sessions/a", None, None).unwrap(),
        c.get_source("sources/s").unwrap(),
        c.list_sources(Some("x".to_string()), None, None).unwrap(),
    ];
    for r in &all {
        assert_auth_headers(r);
    }
}

#[test]
fn methods_and_bodies_follow_the_operation_table() {
    let c = client();
    let r = c.create_session("{\"prompt\":\"p\"}".to_string()).unwrap();
    assert_eq!(r.method, Method::Post);
    assert_eq!(r.body.as_deref(), Some("{\"prompt\":\"p\"}"));
    let r = c.delete_session("sessions/a").unwrap();
    assert_eq!(r.method, Method::Delete);
    assert_eq!(r.body, None);
    let r = c.get_source("sources/s").unwrap();
    assert_eq!(r.method, Method::Get);
    assert_eq!(r.url, "https://jules.googleapis.com/v1alpha/sources/s");
}

#[test]
fn send_message_posts_encoded_prompt_to_action_path() {
    let r = client().send_message("sessions/a", "say \"hi\"\n").unwrap();
    assert_eq!(r.method, Method::Post);
    assert_eq!(r.url, "https://jules.googleapis.com/v1alpha/sessions/a:sendMessage");
    assert_eq!(r.body.as_deref(), Some("{\"prompt\":\"say \\\"hi\\\"\\n\"}"));
    assert!(r.query.is_empty());
}

#[test]
fn approve_plan_posts_empty_object() {
    let r = client().approve_plan("sessions/a").unwrap();
    assert_eq!(r.url, "https://jules.googleapis.com/v1alpha/sessions/a:approvePlan");
    assert_eq!(r.body.as_deref(), Some("{}"));
}

fn query(r: &HttpRequest) -> Vec<(String, String)> {
    r.query
        .iter()
        .map(|(k, v)| {
            let v = match v {
                QueryValue::Int(i) => i.to_string(),
                QueryValue::Text(t) => t.clone(),
            };
            (k.clone(), v)
        })
        .collect()
}

#[test]
fn list_without_token_omits_page_token() {
    let r = client().list_sessions(Some(10), None).unwrap();
    assert_eq!(query(&r), vec![("pageSize".to_string(), "10".to_string())]);
    let r = client().list_sessions(None, None).unwrap();
    assert!(r.query.is_empty());
    let r = client().list_sources(None, None, None).unwrap();
    assert!(r.query.iter().all(|(k, _)| k != "pageToken"));
}

#[test]
fn list_with_token_passes_it_verbatim() {
    let r = client().list_activities("sessions/a", Some(3), Some("abc".to_string())).unwrap();
    assert_eq!(r.url, "https://jules.googleapis.com/v1alpha/sessions/a/activities");
    assert_eq!(
        query(&r),
        vec![
            ("pageSize".to_string(), "3".to_string()),
            ("pageToken".to_string(), "abc".to_string())
        ]
    );
}

#[test]
fn list_sources_orders_filter_size_token() {
    let r = client().list_sources(Some("name=x".to_string()), Some(-1), Some("t".to_string())).unwrap();
    assert_eq!(
        query(&r),
        vec![
            ("filter".to_string(), "name=x".to_string()),
            ("pageSize".to_string(), "-1".to_string()),
            ("pageToken".to_string(), "t".to_string())
        ]
    );
}

#[test]
fn malformed_join_is_invalid_endpoint() {
    let r = client().get_session("http://[::1");
    assert!(matches!(r, Err(JulesError::Url(_))));
}

#[test]
fn stream_uses_largest_page_size() {
    let p = client().stream_sessions();
    assert_eq!(p.page_size(), STREAM_PAGE_SIZE);
    assert_eq!(STREAM_PAGE_SIZE, 100);
}

#[test]
fn message_frame_wraps_encoded_prompt() {
    assert_eq!(jules_rs::wire::frame_message("\"x\""), "{\"prompt\":\"x\"}");
    assert_eq!(jules_rs::wire::encode_message("").unwrap(), "{\"prompt\":\"\"}");
}

#[test]
fn message_body_escapes_control_characters() {
    let r = client().send_message("sessions/abc", "a\u{1}\u{8}\t\u{c}\r\\é").unwrap();
    assert_eq!(r.body.as_deref(), Some("{\"prompt\":\"a\\u0001\\b\\t\\f\\r\\\\é\"}"));
}

#[test]
fn send_message_hello() {
    let r = client().send_message("sessions/abc", "hello").unwrap();
    assert_eq!(r.method, Method::Post);
    assert_eq!(r.url, "https://jules.googleapis.com/v1alpha/sessions/abc:sendMessage");
    assert_eq!(r.body.as_deref(), Some("{\"prompt\":\"hello\"}"));
    assert_auth_headers(&r);
}
