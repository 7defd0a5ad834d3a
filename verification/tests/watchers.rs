use taurhaus_daemon::cli_tool::CliTool;
use taurhaus_daemon::compaction::{
    desired_watcher_teams, is_team_topology_path, next_loop_wait, team_has_managed_codex_member,
    ListedTeam,
};
use taurhaus_daemon::event_listener::{convert_daemon_event, event_kind, DaemonEventPayload, WatchEvent};
use taurhaus_daemon::listeners::{handshake_step, HandshakeLine, HandshakeStep, WatchRequestKind, WatchedPaths};
use taurhaus_daemon::hosted_activity::{remote_session, same_seat, ProcessInfo};
use taurhaus_daemon::protocol::{DaemonError, FileChangedData, GitChangedData, SessionFileCreatedData};

fn map() -> Vec<(String, String)> {
    vec![("/home/user/project".to_string(), "proj-1".to_string())]
}

#[test]
fn convert_git_changed_event() {
    let event = convert_daemon_event(
        DaemonEventPayload::GitChanged(GitChangedData { path: "/home/user/project".to_string() }),
        &map(),
    );
    assert_eq!(event, Some(WatchEvent::GitChanged { project_id: "proj-1".to_string() }));
}

#[test]
fn convert_file_changed_event() {
    let event = convert_daemon_event(
        DaemonEventPayload::FileChanged(FileChangedData {
            path: "/home/user/project".to_string(),
            files: vec!["src/main.rs".to_string(), "Cargo.toml".to_string()],
        }),
        &map(),
    );
    assert_eq!(
        event,
        Some(WatchEvent::FileChanged {
            project_id: "proj-1".to_string(),
            paths: vec!["/home/user/project/src/main.rs".to_string(), "/home/user/project/Cargo.toml".to_string()],
        })
    );
}

#[test]
fn convert_session_file_created_event() {
    let event = convert_daemon_event(
        DaemonEventPayload::SessionFileCreated(SessionFileCreatedData {
            path: "/home/user/project".to_string(),
            file: ".agent/handoffs/session.md".to_string(),
        }),
        &map(),
    );
    assert_eq!(
        event,
        Some(WatchEvent::SessionFileCreated {
            project_id: "proj-1".to_string(),
            path: "/home/user/project/.agent/handoffs/session.md".to_string(),
        })
    );
}

#[test]
fn convert_event_unknown_path_returns_none() {
    let event = convert_daemon_event(
        DaemonEventPayload::GitChanged(GitChangedData { path: "/unknown/path".to_string() }),
        &map(),
    );
    assert_eq!(event, None);
}

#[test]
fn convert_unknown_event_type_returns_none() {
    assert_eq!(event_kind("unknown_event"), None);
    assert!(event_kind("git_changed").is_some());
}

fn team(name: &str, tools: Option<Vec<CliTool>>) -> ListedTeam {
    ListedTeam { name: name.to_string(), member_tools: tools }
}

#[test]
fn desired_watcher_teams_only_includes_teams_with_managed_codex_members() {
    let desired = desired_watcher_teams(&vec![
        team("codex-team", Some(vec![CliTool::Codex])),
        team("grok-team", Some(vec![CliTool::Grok])),
        team("broken-team", None),
        team("mixed-team", Some(vec![CliTool::Claude, CliTool::Codex])),
    ]);
    assert_eq!(desired, vec!["codex-team".to_string(), "mixed-team".to_string()]);
    assert!(!team_has_managed_codex_member(&vec![]));
}

#[test]
fn team_topology_paths_are_team_dirs_and_configs() {
    assert!(is_team_topology_path("/data/teams", "/data/teams/arch"));
    assert!(is_team_topology_path("/data/teams", "/data/teams/arch/config.json"));
    assert!(is_team_topology_path("/data/teams", "/data/teams/arch/config.json.tmp"));
    assert!(!is_team_topology_path("/data/teams", "/data/teams/arch/inbox.jsonl"));
    assert!(!is_team_topology_path("/data/teams", "/data/teams/arch/a/config.json"));
    assert!(!is_team_topology_path("/data/teams", "/elsewhere/arch"));
    assert!(!is_team_topology_path("/data/teams", "/data/teams"));
}

#[test]
fn the_loop_waits_until_the_next_reconcile_at_most() {
    assert_eq!(next_loop_wait(10_000, 4_000, 1_000), 1_000);
    assert_eq!(next_loop_wait(10_000, 9_500, 1_000), 500);
    assert_eq!(next_loop_wait(10_000, 12_000, 1_000), 0);
}

#[test]
fn hosted_seats_and_unreachable_hosts() {
    let process = ProcessInfo {
        pid: 7,
        project_path: "/p".to_string(),
        tty: "/dev/pts/2".to_string(),
        args: "codex".to_string(),
        cli_tool: CliTool::Codex,
    };
    let session = remote_session(&process, Some("%3"), "thread-9");
    assert_eq!(session.session_id, Some("thread-9".to_string()));
    assert_eq!(session.source, Some("host_unavailable".to_string()));
    assert_eq!(session.tmux_pane, Some("%3".to_string()));
    let mut other = session.clone();
    other.pid = 8;
    assert!(same_seat(&session, &other));
    other.member_name = Some("builder".to_string());
    assert!(!same_seat(&session, &other));
}

#[test]
fn a_watched_path_maps_events_until_it_is_unwatched() {
    let mut paths = WatchedPaths::new();
    paths.register("/home/user/project", "proj-1");
    paths.register("/home/user/other", "proj-2");
    paths.register("/home/user/project", "proj-3");
    assert_eq!(paths.project_for("/home/user/project"), Some("proj-3".to_string()));
    assert_eq!(
        paths.event_for(DaemonEventPayload::GitChanged(GitChangedData { path: "/home/user/other".to_string() })),
        Some(WatchEvent::GitChanged { project_id: "proj-2".to_string() })
    );
    paths.unregister("/home/user/other");
    assert_eq!(paths.project_for("/home/user/other"), None);
    assert_eq!(
        paths.event_for(DaemonEventPayload::GitChanged(GitChangedData { path: "/home/user/other".to_string() })),
        None
    );
}

#[test]
fn handshake_lines_forward_events_and_end_on_the_answer() {
    match handshake_step(WatchRequestKind::Watch, HandshakeLine::Answer(None)) {
        HandshakeStep::Finished(outcome) => assert_eq!(outcome, Ok(())),
        HandshakeStep::Forward(_) => panic!("an answer ends the handshake"),
    }
    let refused = DaemonError { code: "WATCH_FAILED".to_string(), message: "no such dir".to_string() };
    match handshake_step(WatchRequestKind::Unwatch, HandshakeLine::Answer(Some(refused))) {
        HandshakeStep::Finished(outcome) => assert_eq!(outcome, Err("Daemon unwatch failed: no such dir".to_string())),
        HandshakeStep::Forward(_) => panic!("an answer ends the handshake"),
    }
    match handshake_step(WatchRequestKind::Watch, HandshakeLine::Unreadable("eof".to_string())) {
        HandshakeStep::Finished(outcome) => assert_eq!(outcome, Err("Parse watch response failed: eof".to_string())),
        HandshakeStep::Forward(_) => panic!("an unreadable line ends the handshake"),
    }
    let event = DaemonEventPayload::GitChanged(GitChangedData { path: "/p".to_string() });
    assert!(matches!(handshake_step(WatchRequestKind::Watch, HandshakeLine::Event(event)), HandshakeStep::Forward(_)));
}
