use taurhaus_daemon::agy_hooks::{
    append_plan, hook_entry, is_duplicate, previous_entry, retained_after_cap, AgyHookEvent, AgyHookPayload,
    AgyHookState, HookRecordKey,
};
use taurhaus_daemon::claude_usage::{
    attach_usage_from, is_throttled, usage_tail_start, needs_compaction, retained_for_compaction, non_empty, parse_usage_sink_args, ClaudeUsageAppendOutcome, UsageAccount,
    UsageRecordKey, UsageSinkArgs,
};

fn args(values: &[&str]) -> Vec<String> {
    values.iter().map(|v| v.to_string()).collect()
}

#[test]
fn the_sink_arguments_are_the_ones_the_installer_bakes_in() {
    assert_eq!(
        parse_usage_sink_args(args(&["--config-dir", "/home/u/.cfg-a", "--sink", "/data/usage.jsonl", "--render"])),
        Ok(UsageSinkArgs {
            config_dir: "/home/u/.cfg-a".to_string(),
            sink: Some("/data/usage.jsonl".to_string()),
            render: true,
        })
    );
    assert_eq!(
        parse_usage_sink_args(args(&["--config-dir", "/c"])),
        Ok(UsageSinkArgs { config_dir: "/c".to_string(), sink: None, render: false })
    );
}

#[test]
fn every_sink_argument_error_is_reported() {
    assert_eq!(parse_usage_sink_args(args(&["--config-dir"])), Err("--config-dir needs a directory".to_string()));
    assert_eq!(parse_usage_sink_args(args(&["--config-dir", "/c", "--sink"])), Err("--sink needs a path".to_string()));
    assert_eq!(
        parse_usage_sink_args(args(&["--bogus"])),
        Err("unknown usage-sink argument '--bogus'".to_string())
    );
    assert_eq!(parse_usage_sink_args(args(&["--render"])), Err("--config-dir is required".to_string()));
}

fn account(id: &str, key: &str) -> UsageAccount {
    UsageAccount { id: id.to_string(), config_dir_key: key.to_string(), usage: None }
}

fn record(key: &str, id: Option<&str>, ts_ms: i64) -> UsageRecordKey {
    UsageRecordKey { config_dir_key: key.to_string(), account_id: id.map(str::to_string), ts_ms }
}

#[test]
fn a_missing_sink_leaves_every_account_without_usage() {
    let mut accounts = vec![account("account-1", "/home/u/.cfg-a")];
    attach_usage_from(&mut accounts, Some(Vec::new()));
    assert_eq!(accounts[0].usage, None);
}

#[test]
fn an_unreadable_sink_changes_nothing() {
    let mut accounts = vec![UsageAccount { usage: Some(3), ..account("a", "/a") }];
    attach_usage_from(&mut accounts, None);
    assert_eq!(accounts[0].usage, Some(3));
}

#[test]
fn accounts_carry_the_latest_usage_of_their_own_config_dir() {
    let records = vec![
        record("/a", Some("acct-a"), 100),
        record("/b", Some("acct-b"), 150),
        record("/a", Some("acct-a"), 200),
        record("/a", Some("acct-a"), 200),
    ];
    let mut accounts = vec![account("acct-a", "/a"), account("acct-b", "/b"), account("acct-c", "/c")];
    attach_usage_from(&mut accounts, Some(records));
    assert_eq!(accounts[0].usage, Some(2), "the first of the newest records of /a");
    assert_eq!(accounts[1].usage, Some(1));
    assert_eq!(accounts[2].usage, None, "nothing reported for it");
}

#[test]
fn a_moved_account_carries_the_newest_record_any_of_its_dirs_reported() {
    let records = vec![record("/old", Some("acct"), 100), record("/older", Some("acct"), 300), record("/x", None, 400)];
    let mut accounts = vec![account("acct", "/new")];
    attach_usage_from(&mut accounts, Some(records));
    assert_eq!(accounts[0].usage, Some(1));
}

#[test]
fn empty_values_are_dropped_after_trimming() {
    assert_eq!(non_empty(Some("  x ".to_string())), Some("x".to_string()));
    assert_eq!(non_empty(Some("   ".to_string())), None);
    assert_eq!(non_empty(None), None);
    let outcome = ClaudeUsageAppendOutcome::default();
    assert!(!outcome.written && !outcome.throttled && !outcome.truncated && !outcome.contended);
}

fn payload(id: Option<&str>, fully_idle: bool) -> AgyHookPayload {
    AgyHookPayload {
        conversation_id: id.map(str::to_string),
        fully_idle,
        termination_reason: None,
        workspace_paths: Vec::new(),
        model_name: None,
    }
}

#[test]
fn hook_events_are_named_busy_and_idle() {
    assert_eq!(AgyHookEvent::parse("busy"), Some(AgyHookEvent::Busy));
    assert_eq!(AgyHookEvent::parse("idle"), Some(AgyHookEvent::Idle));
    assert_eq!(AgyHookEvent::parse("Busy"), None);
}

#[test]
fn a_hook_event_becomes_an_entry() {
    let entry = hook_entry(AgyHookEvent::Busy, payload(Some(" conversation-1 "), false)).unwrap().unwrap();
    assert_eq!(entry.conversation_id, "conversation-1");
    assert_eq!(entry.state, AgyHookState::Busy);
    assert_eq!(hook_entry(AgyHookEvent::Idle, payload(Some("c"), false)), Ok(None), "not fully idle");
    let idle = hook_entry(AgyHookEvent::Idle, payload(Some("c"), true)).unwrap().unwrap();
    assert_eq!(idle.state, AgyHookState::Idle);
    assert_eq!(
        hook_entry(AgyHookEvent::Busy, payload(Some("  "), false)),
        Err("Antigravity hook payload has no conversationId".to_string())
    );
    let full = AgyHookPayload {
        conversation_id: Some("c".to_string()),
        fully_idle: true,
        termination_reason: Some(" user_stop ".to_string()),
        workspace_paths: vec!["/work/project/".to_string(), "/other".to_string()],
        model_name: Some(" ".to_string()),
    };
    let entry = hook_entry(AgyHookEvent::Idle, full).unwrap().unwrap();
    assert_eq!(entry.termination_reason, Some("user_stop".to_string()));
    assert_eq!(entry.workspace, Some("/work/project".to_string()));
    assert_eq!(entry.model, None);
}

#[test]
fn a_repeat_within_the_window_is_a_duplicate() {
    assert!(is_duplicate(Some((AgyHookState::Busy, 1_000)), AgyHookState::Busy, 1_249));
    assert!(!is_duplicate(Some((AgyHookState::Busy, 1_000)), AgyHookState::Busy, 1_250));
    assert!(!is_duplicate(Some((AgyHookState::Idle, 1_000)), AgyHookState::Busy, 1_001));
    assert!(!is_duplicate(None, AgyHookState::Busy, 1_001));
    assert_eq!(append_plan(100), (false, 0));
    assert_eq!(append_plan(100_000), (false, 100_000 - 65_536));
    assert_eq!(append_plan(5_242_880), (true, 0));
}

#[test]
fn an_account_reports_at_most_once_per_throttle_window() {
    let tail = vec![record("/a", Some("x"), 1_000), record("/a", Some("x"), 5_000), record("/b", None, 9_000)];
    assert!(is_throttled(&tail, "/a", 34_999));
    assert!(!is_throttled(&tail, "/a", 35_000));
    assert!(!is_throttled(&tail, "/a", 4_000), "an earlier clock never throttles");
    assert!(!is_throttled(&tail, "/c", 5_001), "a second account is never throttled by the first");
    assert!(needs_compaction(5_242_880));
    assert!(!needs_compaction(5_242_879));
}

#[test]
fn the_sink_is_capped_and_keeps_the_latest_record_per_account() {
    let records = vec![
        record("/a", Some("x"), 300),
        record("/b", Some("y"), 100),
        record("/a", Some("x"), 500),
        record("/c", None, 200),
        record("/b", Some("y"), 100),
    ];
    assert_eq!(retained_for_compaction(&records), vec![1, 3, 2]);
}

fn hook_key(conversation: &str, state: AgyHookState, ts_ms: i64) -> HookRecordKey {
    HookRecordKey { conversation_id: conversation.to_string(), state, ts_ms }
}

#[test]
fn the_previous_hook_entry_is_the_last_of_its_conversation() {
    let keys = vec![
        hook_key("c1", AgyHookState::Busy, 10),
        hook_key("c2", AgyHookState::Busy, 20),
        hook_key("c1", AgyHookState::Idle, 5),
    ];
    assert_eq!(previous_entry(&keys, "c1"), Some(2));
    assert_eq!(previous_entry(&keys, "c2"), Some(1));
    assert_eq!(previous_entry(&keys, "c3"), None);
}

#[test]
fn a_capped_hook_sink_keeps_the_last_entry_of_each_conversation_oldest_first() {
    let keys = vec![
        hook_key("c1", AgyHookState::Busy, 10),
        hook_key("c2", AgyHookState::Busy, 40),
        hook_key("c1", AgyHookState::Idle, 30),
        hook_key("c3", AgyHookState::Busy, 20),
    ];
    assert_eq!(retained_after_cap(&keys), vec![3, 2, 1]);
    assert_eq!(retained_after_cap(&Vec::new()), Vec::<usize>::new());
}

#[test]
fn an_append_reads_only_the_tail_of_a_long_sink() {
    assert_eq!(usage_tail_start(100), 0);
    assert_eq!(usage_tail_start(262_144), 0);
    assert_eq!(usage_tail_start(300_000), 300_000 - 262_144);
}
