use taurhaus_daemon::claude_usage::account_id_from_account_json;
use taurhaus_daemon::codex_notify::parse_event;

#[test]
fn a_notification_names_its_thread_and_kind() {
    let event = parse_event(r#"{"type":"agent-turn-complete","thread-id":"t1"}"#).unwrap();
    assert_eq!(event.session_id(), Some("t1".to_string()));
    assert_eq!(event.event_type(), Some("agent-turn-complete".to_string()));
}

#[test]
fn the_first_present_session_key_decides() {
    let event = parse_event(r#"{"session-id":"s2","thread_id":"t3"}"#).unwrap();
    assert_eq!(event.session_id(), Some("s2".to_string()));
    let event = parse_event(r#"{"session_id":5,"thread_id":"t3"}"#).unwrap();
    assert_eq!(event.session_id(), None);
    assert_eq!(event.event_type(), None);
}

#[test]
fn a_notification_that_is_not_an_object_names_nothing() {
    let event = parse_event("[1,2]").unwrap();
    assert_eq!(event.session_id(), None);
    assert_eq!(event.event_type(), None);
}

#[test]
fn a_notification_that_is_not_json_is_refused() {
    assert!(parse_event("not json").is_err());
}

#[test]
fn the_account_file_names_its_account_trimmed() {
    assert_eq!(
        account_id_from_account_json(r#"{"oauthAccount":{"accountUuid":"  abc-1  "}}"#),
        Some("abc-1".to_string())
    );
    assert_eq!(account_id_from_account_json(r#"{"oauthAccount":{"accountUuid":"   "}}"#), None);
    assert_eq!(account_id_from_account_json(r#"{"oauthAccount":{"accountUuid":7}}"#), None);
    assert_eq!(account_id_from_account_json(r#"{"oauthAccount":{}}"#), None);
    assert_eq!(account_id_from_account_json("{"), None);
}
