use taurhaus_daemon::handlers::{route, Route};
use taurhaus_daemon::server::{
    app_daemon_port_from, authorize, drain_step, ends_connection, is_blank_line, line_step, request_too_large,
    strip_line_end, DaemonConfig, LineStep, DEFAULT_PORT,
};

#[test]
fn app_daemon_port_honors_the_worker_override() {
    assert_eq!(app_daemon_port_from(Some("27191")), 27191);
    assert_eq!(app_daemon_port_from(Some("0")), DEFAULT_PORT);
    assert_eq!(app_daemon_port_from(Some("not-a-port")), DEFAULT_PORT);
    assert_eq!(app_daemon_port_from(None), DEFAULT_PORT);
}

#[test]
fn the_default_config_listens_on_loopback_without_auth() {
    let config = DaemonConfig::default();
    assert_eq!(config.port, 17233);
    assert_eq!(config.bind_addr, "127.0.0.1");
    assert_eq!(config.idle_timeout_secs, None);
    assert_eq!(config.auth_token, None);
}

#[test]
fn a_server_with_a_token_refuses_requests_without_it() {
    assert!(authorize(None, None).is_ok());
    assert!(authorize(Some("t"), Some("t")).is_ok());
    let refused = authorize(Some("t"), None).unwrap_err();
    assert_eq!(refused.code, "AUTH_FAILED");
    assert_eq!(refused.message, "Missing auth token");
    assert_eq!(authorize(Some("t"), Some("u")).unwrap_err().message, "Invalid auth token");
}

#[test]
fn request_lines_are_framed_under_the_limit() {
    assert_eq!(line_step(0, b"", 10), LineStep::Closed);
    assert_eq!(line_step(3, b"", 10), LineStep::EndOfStream);
    assert_eq!(line_step(0, b"ab\ncd", 10), LineStep::Append { take: 3, complete: true });
    assert_eq!(line_step(0, b"abcd", 10), LineStep::Append { take: 4, complete: false });
    assert_eq!(line_step(8, b"abc\n", 10), LineStep::TooLarge { consume: 4, drain: false });
    assert_eq!(line_step(8, b"abc", 10), LineStep::TooLarge { consume: 3, drain: true });
    let mut line = b"{}\r\n".to_vec();
    strip_line_end(&mut line);
    assert_eq!(line, b"{}".to_vec());
    let too_large = request_too_large();
    assert_eq!(too_large.code, "REQUEST_TOO_LARGE");
    assert_eq!(too_large.message, "Request line exceeds 1048576 byte limit");
    assert!(is_blank_line(" \t"));
    assert!(!is_blank_line(" {} "));
    assert!(ends_connection("shutdown"));
    assert!(!ends_connection("ping"));
}

#[test]
fn requests_are_routed_by_method_name() {
    assert_eq!(route("ping").unwrap(), Route::Ping);
    assert_eq!(route("wait_session_updates").unwrap(), Route::WaitSessionUpdates);
    assert_eq!(route("coordination.initialize_status").unwrap(), Route::CoordinationInitializeStatus);
    let unknown = route("frobnicate").unwrap_err();
    assert_eq!(unknown.code, "UNKNOWN_METHOD");
    assert_eq!(unknown.message, "Unknown method: frobnicate");
}

#[test]
fn every_coordination_method_is_routed_and_retired_ones_are_unknown() {
    for name in [
        "coordination.resume_team",
        "coordination.resume_team_status",
        "coordination.reonboard",
        "coordination.reonboard_status",
        "coordination.create_team",
        "coordination.create_team_status",
        "coordination.disband_team",
        "coordination.disband_team_status",
        "coordination.add_member",
        "coordination.add_member_status",
        "coordination.remove_member",
        "coordination.remove_member_status",
        "coordination.put_launch_settings",
        "coordination.apply_task_effort",
        "coordination.apply_task_effort_status",
        "coordination.publish_operational_snapshots",
        "coordination.reconcile_live_presence",
        "coordination.set_active_project_team",
    ] {
        assert!(route(name).is_ok(), "{name} is not routed");
    }
    assert_eq!(route("coordination.put_launch_settings").unwrap(), Route::CoordinationPutLaunchSettings);
    for retired in ["coordination.stop_member", "coordination.stop_member_status"] {
        assert_eq!(route(retired).unwrap_err().code, "UNKNOWN_METHOD");
    }
}

#[test]
fn app_daemon_port_parses_like_std_and_falls_back_otherwise() {
    assert_eq!(app_daemon_port_from(Some("+27191")), 27191);
    assert_eq!(app_daemon_port_from(Some("abc")), DEFAULT_PORT);
    assert_eq!(app_daemon_port_from(Some("70000")), DEFAULT_PORT);
    assert_eq!(app_daemon_port_from(Some("")), DEFAULT_PORT);
    assert_eq!(app_daemon_port_from(Some("-5")), DEFAULT_PORT);
    assert_eq!(app_daemon_port_from(Some(" 80")), DEFAULT_PORT);
}

#[test]
fn draining_stops_after_the_first_newline() {
    assert_eq!(drain_step(b"abc\ndef"), (4, true));
    assert_eq!(drain_step(b"abcdef"), (6, false));
    assert_eq!(drain_step(b""), (0, true));
}
