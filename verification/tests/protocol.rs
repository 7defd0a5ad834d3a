use taurhaus_daemon::cli_tool::CliTool;
use taurhaus_daemon::protocol::{
    default_cli_tool, default_limit, default_tmux_layout, default_wait_session_timeout_ms, event, method,
    PROTOCOL_VERSION,
};

#[test]
fn protocol_version_is_pinned() {
    assert_eq!(PROTOCOL_VERSION, 22);
}

#[test]
fn protocol_version_excludes_daemons_without_hub_owned_focus() {
    let last_excluded = 7;
    assert!(PROTOCOL_VERSION > last_excluded);
}

#[test]
fn protocol_version_excludes_daemons_without_degradation_cursor() {
    let last_excluded = 9;
    assert!(PROTOCOL_VERSION > last_excluded);
}

#[test]
fn protocol_version_excludes_daemons_with_retired_cli_tool_vocabulary() {
    let last_excluded = 11;
    assert!(PROTOCOL_VERSION > last_excluded);
}

#[test]
fn protocol_version_excludes_daemons_with_codex_compaction_mode() {
    let last_excluded = 13;
    assert!(PROTOCOL_VERSION > last_excluded);
}

#[test]
fn protocol_version_excludes_daemons_without_the_deadline_scheduler() {
    let last_excluded = 14;
    assert!(PROTOCOL_VERSION > last_excluded);
}

#[test]
fn protocol_version_excludes_daemons_without_team_initialization() {
    let last_excluded = 15;
    assert!(PROTOCOL_VERSION > last_excluded);
}

#[test]
fn protocol_version_excludes_daemons_without_member_operations() {
    let last_excluded = 16;
    assert!(PROTOCOL_VERSION > last_excluded);
}

#[test]
fn protocol_version_excludes_daemons_without_team_resume_operations() {
    let last_excluded = 17;
    assert!(PROTOCOL_VERSION > last_excluded);
}

#[test]
fn protocol_version_excludes_daemons_without_roster_operations() {
    let last_excluded = 18;
    assert!(PROTOCOL_VERSION > last_excluded);
}

#[test]
fn protocol_version_excludes_daemons_with_stop_member_methods() {
    let last_excluded = 19;
    assert!(PROTOCOL_VERSION > last_excluded);
}

#[test]
fn protocol_version_excludes_daemons_without_background_pass_routing() {
    let last_excluded = 20;
    assert!(PROTOCOL_VERSION > last_excluded);
}

#[test]
fn protocol_version_excludes_daemons_without_the_final_writer_intents() {
    let last_excluded = 21;
    assert!(PROTOCOL_VERSION > last_excluded);
}

#[test]
fn protocol_version_excludes_daemons_with_claude_only_account_methods() {
    let last_protocol_with_claude_only_account_methods = 10;
    assert!(PROTOCOL_VERSION > last_protocol_with_claude_only_account_methods);
    assert_eq!(method::LIST_ACCOUNTS, "list_accounts");
    assert_eq!(method::PROJECT_TRANSCRIPT, "project_transcript");
    assert_eq!(method::RESOLVE_LAUNCH_BASE, "resolve_launch_base");
}

#[test]
fn protocol_defaults_match_the_wire_defaults() {
    assert_eq!(default_limit(), 50);
    assert_eq!(default_tmux_layout(), "new_window");
    assert_eq!(default_cli_tool(), CliTool::Claude);
    assert_eq!(default_wait_session_timeout_ms(), 15_000);
}

#[test]
fn protocol_22_method_and_event_names() {
    assert_eq!(method::COORDINATION_PUBLISH_OPERATIONAL_SNAPSHOTS, "coordination.publish_operational_snapshots");
    assert_eq!(method::COORDINATION_RECONCILE_LIVE_PRESENCE, "coordination.reconcile_live_presence");
    assert_eq!(method::COORDINATION_SET_ACTIVE_PROJECT_TEAM, "coordination.set_active_project_team");
    for m in [method::COORDINATION_PUT_LAUNCH_SETTINGS, method::COORDINATION_APPLY_TASK_EFFORT, method::COORDINATION_APPLY_TASK_EFFORT_STATUS] {
        assert!(m.starts_with("coordination."));
    }
    assert_eq!(event::GIT_CHANGED, "git_changed");
    assert_eq!(event::FILE_CHANGED, "file_changed");
    assert_eq!(event::SESSION_FILE_CREATED, "session_file_created");
}
