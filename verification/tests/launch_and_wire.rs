use taurhaus_daemon::handlers::{
    coordination_run_not_found, initialize_run_not_found, ping_result, runtime_session_snapshot_result,
    wait_session_updates_result,
};
use taurhaus_daemon::initialize_runs::{
    ensure_team_name_available_at_root, selected_team_root, snapshots_for_team, ManagedAccount,
    MemberAccountRequest, TeamConfigLookup,
};
use taurhaus_daemon::launcher::{
    decimal_text, native_daemon_binary_path, port_text, running_binary_was_deleted,
    tmux_has_session_command, tmux_new_session_command, wsl_daemon_binary_path, wsl_daemon_start_args,
    wsl_home_from_output,
};
use taurhaus_daemon::listeners::{daemon_error_message, next_request_id, watch_outcome};
use taurhaus_daemon::protocol::{DaemonError, PROTOCOL_VERSION};
use taurhaus_daemon::requests::OperationalContextSnapshot;
use taurhaus_daemon::server::{idle_expired, telemetry_tick, TelemetryReason};
use taurhaus_daemon::session_activity::SessionActivityHub;

fn strings(v: &[&str]) -> Vec<String> {
    v.iter().map(|s| s.to_string()).collect()
}

#[test]
fn launch_commands_are_built_argument_by_argument() {
    assert_eq!(tmux_has_session_command(None, "taurhaus"), strings(&["tmux", "has-session", "-t", "taurhaus"]));
    assert_eq!(
        tmux_new_session_command(Some("Ubuntu"), "taurhaus"),
        strings(&["-d", "Ubuntu", "--", "tmux", "new-session", "-d", "-s", "taurhaus"])
    );
    assert_eq!(
        wsl_daemon_start_args("Ubuntu", Some("/mnt/c/data dir"), "/home/me/.local/bin/taurhaus-daemon", 17233),
        strings(&[
            "-d",
            "Ubuntu",
            "--",
            "env",
            "TAURHAUS_DATA_DIR=/mnt/c/data dir",
            "/home/me/.local/bin/taurhaus-daemon",
            "--port",
            "17233",
        ])
    );
    assert_eq!(
        wsl_daemon_start_args("Ubuntu", None, "/bin/d", 7),
        strings(&["-d", "Ubuntu", "--", "/bin/d", "--port", "7"])
    );
}

#[test]
fn numbers_and_paths_of_a_launch() {
    assert_eq!(port_text(0), "0");
    assert_eq!(port_text(65535), "65535");
    assert_eq!(decimal_text(u64::MAX), u64::MAX.to_string());
    assert_eq!(native_daemon_binary_path("/home/me"), "/home/me/.local/bin/taurhaus-daemon");
    assert_eq!(wsl_daemon_binary_path("/home/me"), "/home/me/.local/bin/taurhaus-daemon");
    assert_eq!(wsl_home_from_output("/home/me\n"), Ok("/home/me".to_string()));
    assert_eq!(wsl_home_from_output("  \n"), Err("WSL $HOME is empty".to_string()));
    assert!(running_binary_was_deleted("/home/me/.local/bin/taurhaus-daemon (deleted)"));
    assert!(!running_binary_was_deleted("/home/me/.local/bin/taurhaus-daemon"));
}

#[test]
fn the_daemon_goes_idle_after_its_timeout_only() {
    assert!(!idle_expired(None, 0, 1_000_000));
    assert!(!idle_expired(Some(60), 1_000, 1_060));
    assert!(idle_expired(Some(60), 1_000, 1_061));
    assert_eq!(telemetry_tick(true, 0), Some(TelemetryReason::StateChanged));
    assert_eq!(telemetry_tick(false, 60_000), Some(TelemetryReason::Periodic));
    assert_eq!(telemetry_tick(false, 59_999), None);
}

#[test]
fn answers_carry_what_the_hub_holds() {
    let hub = SessionActivityHub::new();
    let update = wait_session_updates_result(hub.wait_for_update(0, 0, 0));
    assert_eq!(update.version, 0);
    assert!(!update.changed);
    let snapshot = runtime_session_snapshot_result(hub.runtime_snapshot());
    assert_eq!(snapshot.foreground_project_path, None);
    let ping = ping_result("1.2.3".to_string(), 42, "/data".to_string());
    assert_eq!(ping.protocol_version, PROTOCOL_VERSION);
    assert_eq!(ping.uptime_secs, 42);
    let missing = coordination_run_not_found("add-agent", "add_1");
    assert_eq!(missing.code, "COORDINATION_RUN_NOT_FOUND");
    assert_eq!(missing.message, "add-agent run 'add_1' was not found");
    assert_eq!(initialize_run_not_found("init_1").message, "team initialization run 'init_1' was not found");
}

#[test]
fn listener_requests_and_error_answers() {
    let mut counter = 0u64;
    assert_eq!(next_request_id("ew", &mut counter), "ew0");
    assert_eq!(next_request_id("ew", &mut counter), "ew1");
    assert_eq!(counter, 2);
    let error = DaemonError { code: "AUTH_FAILED".to_string(), message: "Invalid auth token".to_string() };
    assert_eq!(
        daemon_error_message("wait_session_updates", &error),
        "Daemon wait_session_updates error [AUTH_FAILED]: Invalid auth token"
    );
    assert_eq!(watch_outcome(None), Ok(()));
    assert_eq!(watch_outcome(Some(error)), Err("Daemon watch failed: Invalid auth token".to_string()));
}

fn snapshot(team: &str, member: &str) -> OperationalContextSnapshot {
    OperationalContextSnapshot {
        version: 1,
        team_name: team.to_string(),
        member_name: member.to_string(),
        updated_at_ms: 0,
        project_path: "/p".to_string(),
    }
}

#[test]
fn only_the_teams_own_snapshots_are_published() {
    let kept = snapshots_for_team(
        "arch",
        &strings(&["lead", "builder"]),
        vec![snapshot("arch", "builder"), snapshot("other", "builder"), snapshot("arch", "ghost"), snapshot("arch", "lead")],
    );
    assert_eq!(kept, vec![snapshot("arch", "builder"), snapshot("arch", "lead")]);
}

#[test]
fn a_team_name_taken_under_another_root_is_refused() {
    let roots = vec![
        ("/target".to_string(), TeamConfigLookup::Found),
        ("/a".to_string(), TeamConfigLookup::NotFound),
        ("/b".to_string(), TeamConfigLookup::Found),
    ];
    assert_eq!(
        ensure_team_name_available_at_root("arch", "/target", &roots),
        Err("team 'arch' already exists under another account root (/b)".to_string())
    );
    let failing = vec![("/a".to_string(), TeamConfigLookup::Failed("unreadable".to_string()))];
    assert_eq!(ensure_team_name_available_at_root("arch", "/target", &failing), Err("unreadable".to_string()));
    assert_eq!(ensure_team_name_available_at_root("arch", "/target", &vec![]), Ok(()));
}

fn asks(namespaced: bool, account: Option<&str>) -> MemberAccountRequest {
    MemberAccountRequest { namespaced, account_id: account.map(str::to_string) }
}

#[test]
fn a_team_lives_under_the_one_account_its_members_ask_for() {
    let accounts = vec![
        ManagedAccount { id: "acct-1".to_string(), logged_in: true, dir: "/home/me/.cfg-1".to_string() },
        ManagedAccount { id: "acct-2".to_string(), logged_in: false, dir: "/home/me/.cfg-2".to_string() },
    ];
    assert_eq!(selected_team_root(&vec![asks(true, None), asks(false, Some("acct-9"))], &accounts, "/teams"), Ok("/teams".to_string()));
    assert_eq!(
        selected_team_root(&vec![asks(true, Some(" acct-1 ")), asks(true, Some("acct-1"))], &accounts, "/teams"),
        Ok("/home/me/.cfg-1/teams".to_string())
    );
    assert_eq!(
        selected_team_root(&vec![asks(true, Some("acct-1")), asks(true, Some("acct-2"))], &accounts, "/teams"),
        Err("a team must use one team account".to_string())
    );
    assert_eq!(
        selected_team_root(&vec![asks(true, Some("acct-2"))], &accounts, "/teams"),
        Err("account 'acct-2' is unavailable or signed out".to_string())
    );
}
