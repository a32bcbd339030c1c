use jules_rs::{
    Activity, ActivityKind, AgentMessaged, Artifact, ArtifactKind, BashOutput, ListSessionsResponse, Media,
    SessionFailed, Timestamp,
};

fn activity() -> Activity {
    Activity {
        name: "sessions/1/activities/2".to_string(),
        id: "2".to_string(),
        description: None,
        create_time: Timestamp::new(1_700_000_000, 5).unwrap(),
        originator: "agent".to_string(),
        agent_messaged: None,
        user_messaged: None,
        plan_generated: None,
        plan_approved: None,
        progress_updated: None,
        session_completed: None,
        session_failed: None,
        artifacts: None,
    }
}

#[test]
fn activity_with_one_event_has_that_kind() {
    let mut a = activity();
    a.agent_messaged = Some(AgentMessaged { agent_message: "hi".to_string() });
    assert_eq!(a.kind(), Some(ActivityKind::AgentMessaged));
    let mut b = activity();
    b.session_completed = Some(serde_json::Value::Object(serde_json::Map::new()));
    assert_eq!(b.kind(), Some(ActivityKind::SessionCompleted));
}

#[test]
fn activity_with_no_or_two_events_has_no_kind() {
    let a = activity();
    assert_eq!(a.kind(), None);
    let mut b = activity();
    b.agent_messaged = Some(AgentMessaged { agent_message: "hi".to_string() });
    b.session_failed = Some(SessionFailed { reason: "x".to_string() });
    assert_eq!(b.kind(), None);
}

#[test]
fn artifact_kind() {
    let media = Media { data: "AAAA".to_string(), mime_type: "image/png".to_string() };
    let bash = BashOutput { command: "ls".to_string(), output: "".to_string(), exit_code: 0 };
    let a = Artifact { change_set: None, media: Some(media.clone()), bash_output: None };
    assert_eq!(a.kind(), Some(ArtifactKind::Media));
    let b = Artifact { change_set: None, media: None, bash_output: Some(bash.clone()) };
    assert_eq!(b.kind(), Some(ArtifactKind::BashOutput));
    let c = Artifact { change_set: None, media: Some(media), bash_output: Some(bash) };
    assert_eq!(c.kind(), None);
    let d = Artifact { change_set: None, media: None, bash_output: None };
    assert_eq!(d.kind(), None);
}

#[test]
fn timestamp_rejects_whole_second_of_nanos() {
    assert_eq!(Timestamp::new(0, 999_999_999), Some(Timestamp { seconds: 0, nanos: 999_999_999 }));
    assert_eq!(Timestamp::new(0, 1_000_000_000), None);
    assert_eq!(Timestamp::new(-5, 0), Some(Timestamp { seconds: -5, nanos: 0 }));
}

#[test]
fn list_response_becomes_page_in_order() {
    let resp = ListSessionsResponse { sessions: vec![], next_page_token: Some("n".to_string()) };
    let p = resp.into_page();
    assert!(p.items.is_empty());
    assert_eq!(p.next_page_token.as_deref(), Some("n"));
}
