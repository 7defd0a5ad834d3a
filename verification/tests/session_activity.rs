use taurhaus_daemon::cli_tool::CliTool;
use taurhaus_daemon::session_activity::{
    activity_changed, should_export_activity_snapshots, CycleDecision, ScanCycle, ScannerCadence,
    SessionActivityHub, ACTIVE_SCAN_INTERVAL_MS, ACTIVITY_EXPORT_REFRESH_INTERVAL_MS,
    IDLE_SCAN_INTERVAL_MS, IDLE_STABLE_CYCLES_THRESHOLD,
};
use taurhaus_daemon::sessions::{
    ActivityAttribution, ActivityConfidence, DisplaySession, LiveAccountObservation,
    RuntimeSession, SessionGroupKind, SessionState, TmuxFocus, WorkflowActivity,
};

const NOW: u64 = 1_000_000;

fn session_with_state(state: SessionState) -> DisplaySession {
    DisplaySession {
        pid: 1,
        project_path: "/tmp/project".to_string(),
        tty: "/dev/pts/1".to_string(),
        args: "cc --continue".to_string(),
        cli_tool: CliTool::Claude,
        tmux_session: Some("taurhaus".to_string()),
        tmux_window: Some("1".to_string()),
        tmux_pane: Some("%1".to_string()),
        tmux_window_name: Some("project".to_string()),
        state,
        recent_io: false,
        last_output_age_secs: None,
        activity_confidence: ActivityConfidence::Low,
        activity_attribution: ActivityAttribution::NotAttributed,
        project_unattributed_active: false,
        group_kind: SessionGroupKind::Standalone,
        group_id: None,
        group_label: None,
        member_name: None,
        workflow_activity: None,
    }
}

fn cycle(display_sessions: Vec<DisplaySession>, degraded: bool) -> ScanCycle {
    ScanCycle {
        display_sessions,
        runtime_sessions: Vec::new(),
        account_observations: Vec::new(),
        focus: None,
        focus_project_path: None,
        focused: false,
        degraded,
    }
}

fn focus_at(session: &str, window_index: &str, pane_id: &str) -> TmuxFocus {
    TmuxFocus {
        session: session.to_string(),
        window_index: window_index.to_string(),
        pane_id: pane_id.to_string(),
    }
}

fn focus_cycle(
    display_sessions: Vec<DisplaySession>,
    focus: Option<TmuxFocus>,
    focus_project_path: Option<&str>,
) -> ScanCycle {
    ScanCycle {
        display_sessions,
        runtime_sessions: Vec::new(),
        account_observations: Vec::new(),
        focus,
        focus_project_path: focus_project_path.map(str::to_string),
        focused: false,
        degraded: false,
    }
}

#[test]
fn cadence_stays_fast_for_active_sessions() {
    let mut cadence = ScannerCadence::default();
    let active = vec![session_with_state(SessionState::Active)];
    for _ in 0..40 {
        assert_eq!(cadence.next_interval(false, &active, false), ACTIVE_SCAN_INTERVAL_MS);
    }
}

#[test]
fn cadence_widens_after_stable_idle_threshold() {
    let mut cadence = ScannerCadence::default();
    let idle = vec![session_with_state(SessionState::Idle)];
    for _ in 0..(IDLE_STABLE_CYCLES_THRESHOLD - 1) {
        assert_eq!(cadence.next_interval(false, &idle, false), ACTIVE_SCAN_INTERVAL_MS);
    }
    assert_eq!(cadence.next_interval(false, &idle, false), IDLE_SCAN_INTERVAL_MS);
}

#[test]
fn cadence_snaps_back_to_fast_on_any_change() {
    let mut cadence = ScannerCadence::default();
    let idle = vec![session_with_state(SessionState::Idle)];
    for _ in 0..IDLE_STABLE_CYCLES_THRESHOLD {
        let _ = cadence.next_interval(false, &idle, false);
    }
    assert_eq!(cadence.next_interval(false, &idle, false), IDLE_SCAN_INTERVAL_MS);
    assert_eq!(cadence.next_interval(true, &idle, false), ACTIVE_SCAN_INTERVAL_MS);
}

#[test]
fn hub_does_not_bump_version_or_export_on_degraded() {
    let mut hub = SessionActivityHub::new();
    let mut cadence = ScannerCadence::default();
    let now = NOW;
    let active = vec![session_with_state(SessionState::Active)];

    let first = hub.commit_cycle(cycle(active.clone(), false), &mut cadence, None, now);
    assert!(first.changed);
    assert!(first.export_due);
    assert_eq!(hub.snapshot().version, 1);

    let export_overdue = Some(now - ACTIVITY_EXPORT_REFRESH_INTERVAL_MS - 1_000);
    let degraded = hub.commit_cycle(cycle(Vec::new(), true), &mut cadence, export_overdue, now + 1_000);
    assert_eq!(
        degraded,
        CycleDecision { changed: false, export_due: false, interval_ms: ACTIVE_SCAN_INTERVAL_MS }
    );
    let snapshot = hub.snapshot();
    assert_eq!(snapshot.version, 1);
    assert_eq!(snapshot.sessions, active);
    assert_eq!(hub.runtime_snapshot().display_sessions, active);
    assert!(!hub.wait_for_update(1, 0, 0).changed);

    let emptied = hub.commit_cycle(cycle(Vec::new(), false), &mut cadence, Some(now), now + 2_000);
    assert!(emptied.changed);
    assert!(emptied.export_due);
    assert_eq!(hub.snapshot().version, 2);
    assert!(hub.snapshot().sessions.is_empty());
}

#[test]
fn hub_reports_degraded_until_next_healthy_commit() {
    let mut hub = SessionActivityHub::new();
    let mut cadence = ScannerCadence::default();
    let now = NOW;
    let active = vec![session_with_state(SessionState::Active)];

    assert!(!hub.runtime_snapshot().degraded, "fresh hub is not degraded");

    let _ = hub.commit_cycle(cycle(active.clone(), false), &mut cadence, None, now);
    assert!(!hub.runtime_snapshot().degraded);

    let _ = hub.commit_cycle(cycle(Vec::new(), true), &mut cadence, Some(now), now);
    let snapshot = hub.runtime_snapshot();
    assert!(snapshot.degraded);
    assert_eq!(snapshot.display_sessions, active);
    assert_eq!(snapshot.version, 1);

    let _ = hub.commit_cycle(cycle(Vec::new(), true), &mut cadence, Some(now), now);
    assert!(hub.runtime_snapshot().degraded);

    let healthy = hub.commit_cycle(cycle(active.clone(), false), &mut cadence, Some(now), now);
    assert!(!healthy.changed);
    let snapshot = hub.runtime_snapshot();
    assert!(!snapshot.degraded, "healthy commit must clear degraded");
    assert_eq!(snapshot.version, 1);
}

#[test]
fn a_long_poll_answer_reports_the_degraded_flag() {
    let mut hub = SessionActivityHub::new();
    let mut cadence = ScannerCadence::default();
    let now = NOW;
    let active = vec![session_with_state(SessionState::Active)];

    let _ = hub.commit_cycle(cycle(active.clone(), false), &mut cadence, None, now);
    let healthy = hub.wait_for_update(0, 0, 0);
    assert!(healthy.changed);
    assert!(!healthy.degraded);

    let _ = hub.commit_cycle(cycle(Vec::new(), true), &mut cadence, Some(now), now);
    let blind = hub.wait_for_update(1, 0, 0);
    assert!(!blind.changed);
    assert!(blind.degraded);
    assert_eq!(blind.snapshot.sessions, active, "continuity data is kept");

    let _ = hub.commit_cycle(cycle(active, false), &mut cadence, Some(now), now);
    assert!(!hub.wait_for_update(1, 0, 0).degraded);
}

#[test]
fn a_blackout_inside_one_wait_still_reaches_the_next_answer() {
    let mut hub = SessionActivityHub::new();
    let mut cadence = ScannerCadence::default();
    let now = NOW;
    let active = vec![session_with_state(SessionState::Active)];

    let _ = hub.commit_cycle(cycle(active.clone(), false), &mut cadence, None, now);
    let seed = hub.wait_for_update(0, 0, 0);
    assert!(seed.changed);
    assert_eq!(seed.degraded_revision, 0);

    let _ = hub.commit_cycle(cycle(Vec::new(), true), &mut cadence, Some(now), now);
    let _ = hub.commit_cycle(cycle(active.clone(), false), &mut cadence, Some(now), now);

    let answer = hub.wait_for_update(seed.snapshot.version, seed.degraded_revision, 0);
    assert!(!answer.changed, "the session list itself did not move");
    assert!(!answer.degraded, "the scanner is healthy again");
    assert_eq!(answer.snapshot.version, seed.snapshot.version);
    assert_eq!(answer.degraded_revision, 2, "one bump per edge: went blind, came back");
    assert!(answer.degraded_revision > seed.degraded_revision);

    let settled = hub.wait_for_update(answer.snapshot.version, answer.degraded_revision, 0);
    assert!(!settled.changed);
    assert_eq!(settled.degraded_revision, 2);
}

#[test]
fn cadence_holds_interval_across_degraded_cycle() {
    let mut hub = SessionActivityHub::new();
    let mut cadence = ScannerCadence::default();
    let now = NOW;
    let idle = vec![session_with_state(SessionState::Idle)];

    let _ = hub.commit_cycle(cycle(idle.clone(), false), &mut cadence, None, now);
    for _ in 0..IDLE_STABLE_CYCLES_THRESHOLD {
        let _ = hub.commit_cycle(cycle(idle.clone(), false), &mut cadence, Some(now), now);
    }
    assert_eq!(cadence.hold_interval(), IDLE_SCAN_INTERVAL_MS);

    let degraded = hub.commit_cycle(cycle(Vec::new(), true), &mut cadence, Some(now), now);
    assert_eq!(degraded.interval_ms, IDLE_SCAN_INTERVAL_MS);
    let healthy = hub.commit_cycle(cycle(idle, false), &mut cadence, Some(now), now);
    assert!(!healthy.changed);
    assert_eq!(healthy.interval_ms, IDLE_SCAN_INTERVAL_MS);
}

#[test]
fn activity_snapshot_export_runs_on_first_loop_even_without_change() {
    assert!(should_export_activity_snapshots(false, None, NOW));
}

#[test]
fn activity_snapshot_export_is_refreshed_after_interval_even_without_change() {
    let last = NOW - ACTIVITY_EXPORT_REFRESH_INTERVAL_MS - 1_000;
    assert!(should_export_activity_snapshots(false, Some(last), NOW));
}

#[test]
fn activity_snapshot_export_skips_early_refresh_without_change() {
    let last = NOW - ACTIVITY_EXPORT_REFRESH_INTERVAL_MS + 1_000;
    assert!(!should_export_activity_snapshots(false, Some(last), NOW));
}

#[test]
fn an_activity_confidence_change_is_a_change() {
    let previous = vec![session_with_state(SessionState::Active)];
    let mut next = previous.clone();
    next[0].activity_confidence = ActivityConfidence::High;
    assert!(activity_changed(&previous, &next));
}

#[test]
fn an_activity_attribution_change_is_a_change() {
    let previous = vec![session_with_state(SessionState::Active)];
    let mut next = previous.clone();
    next[0].activity_attribution = ActivityAttribution::Attributed;
    assert!(activity_changed(&previous, &next));
}

#[test]
fn a_recent_io_or_output_age_flip_alone_is_not_a_change() {
    let previous = vec![session_with_state(SessionState::Active)];
    let mut next = previous.clone();
    next[0].recent_io = !next[0].recent_io;
    next[0].last_output_age_secs = Some(7);
    assert!(!activity_changed(&previous, &next));
}

#[test]
fn a_workflow_write_with_the_same_live_run_count_is_not_a_change() {
    let mut previous = vec![session_with_state(SessionState::Active)];
    previous[0].workflow_activity = Some(WorkflowActivity { live_runs: 2, last_write_at: 1_800_000_000_100 });
    let mut next = previous.clone();
    next[0].workflow_activity = Some(WorkflowActivity { live_runs: 2, last_write_at: 1_800_000_000_900 });
    assert!(!activity_changed(&previous, &next));

    next[0].workflow_activity = Some(WorkflowActivity { live_runs: 3, last_write_at: 1_800_000_000_900 });
    assert!(activity_changed(&previous, &next));

    next[0].workflow_activity = None;
    assert!(activity_changed(&previous, &next));
}

#[test]
fn hub_bumps_version_and_wakes_waiters_on_a_focus_only_change() {
    let mut hub = SessionActivityHub::new();
    let mut cadence = ScannerCadence::default();
    let now = NOW;
    let sessions = vec![session_with_state(SessionState::Active)];

    let first = hub.commit_cycle(focus_cycle(sessions.clone(), None, None), &mut cadence, None, now);
    assert!(first.changed);
    assert_eq!(hub.snapshot().version, 1);

    let focused = hub.commit_cycle(
        focus_cycle(sessions.clone(), Some(focus_at("taurhaus", "1", "%1")), Some("/tmp/project")),
        &mut cadence,
        Some(now),
        now,
    );
    assert!(focused.changed, "a focus-only change must bump the version");
    assert_eq!(hub.snapshot().version, 2);
    assert!(hub.wait_for_update(1, 0, 0).changed, "waiters must wake on a focus-only change");
    let snapshot = hub.runtime_snapshot();
    assert_eq!(snapshot.focus, Some(focus_at("taurhaus", "1", "%1")));
    assert_eq!(snapshot.focus_project_path, Some("/tmp/project".to_string()));

    let repeat = hub.commit_cycle(
        focus_cycle(sessions.clone(), Some(focus_at("taurhaus", "1", "%1")), Some("/tmp/project")),
        &mut cadence,
        Some(now),
        now,
    );
    assert!(!repeat.changed, "unchanged focus must not bump the version");
    assert_eq!(hub.snapshot().version, 2);

    let moved_pane = hub.commit_cycle(
        focus_cycle(sessions.clone(), Some(focus_at("taurhaus", "1", "%2")), Some("/tmp/project")),
        &mut cadence,
        Some(now),
        now,
    );
    assert!(moved_pane.changed, "the pane is part of the focus signature");
    assert_eq!(hub.snapshot().version, 3);

    let cleared = hub.commit_cycle(focus_cycle(sessions, None, None), &mut cadence, Some(now), now);
    assert!(cleared.changed, "losing focus is a change");
    assert_eq!(hub.runtime_snapshot().focus, None);
}

#[test]
fn a_focus_only_change_does_not_trigger_an_activity_export() {
    let mut hub = SessionActivityHub::new();
    let mut cadence = ScannerCadence::default();
    let now = NOW;
    let sessions = vec![session_with_state(SessionState::Active)];
    let focus = Some(focus_at("taurhaus", "1", "%1"));

    let first = hub.commit_cycle(focus_cycle(sessions.clone(), None, None), &mut cadence, None, now);
    assert!(first.export_due, "the first cycle always exports");

    let moved = hub.commit_cycle(
        focus_cycle(sessions.clone(), focus.clone(), Some("/tmp/project")),
        &mut cadence,
        Some(now),
        now + 1_000,
    );
    assert!(moved.changed, "a focus-only move is still a version bump");
    assert!(!moved.export_due, "focus is not activity");

    let mut idle = sessions.clone();
    idle[0].state = SessionState::Idle;
    let activity = hub.commit_cycle(
        focus_cycle(idle.clone(), focus.clone(), Some("/tmp/project")),
        &mut cadence,
        Some(now),
        now + 2_000,
    );
    assert!(activity.changed);
    assert!(activity.export_due, "an activity change exports");

    let refresh = hub.commit_cycle(
        focus_cycle(idle, focus, Some("/tmp/project")),
        &mut cadence,
        Some(now - ACTIVITY_EXPORT_REFRESH_INTERVAL_MS - 1_000),
        now,
    );
    assert!(!refresh.changed);
    assert!(refresh.export_due, "the periodic refresh is unaffected");
}

#[test]
fn cadence_holds_the_active_interval_while_a_client_is_focused() {
    let mut cadence = ScannerCadence::default();
    let idle = vec![session_with_state(SessionState::Idle)];
    for _ in 0..(IDLE_STABLE_CYCLES_THRESHOLD + 5) {
        assert_eq!(cadence.next_interval(false, &idle, true), ACTIVE_SCAN_INTERVAL_MS);
    }
    for _ in 0..IDLE_STABLE_CYCLES_THRESHOLD {
        let _ = cadence.next_interval(false, &idle, false);
    }
    assert_eq!(cadence.next_interval(false, &idle, false), IDLE_SCAN_INTERVAL_MS);
}

#[test]
fn a_fresh_hub_answers_version_zero_and_no_change() {
    let hub = SessionActivityHub::new();
    let update = hub.wait_for_update(0, 0, 0);
    assert!(!update.changed);
    assert_eq!(update.snapshot.version, 0);
    assert!(update.snapshot.sessions.is_empty());
    assert!(hub.answers_immediately(0, 0, 0));
    assert!(!hub.answers_immediately(0, 0, 5_000));
    assert!(!hub.wait_satisfied(0, 0));
}

#[test]
fn a_state_change_is_a_change_and_a_reorder_is_not() {
    let mut second = session_with_state(SessionState::Idle);
    second.pid = 2;
    second.tty = "/dev/pts/2".to_string();
    let previous = vec![session_with_state(SessionState::Active), second.clone()];
    let mut next = previous.clone();
    next[0].state = SessionState::Idle;
    assert!(activity_changed(&previous, &next));
    let reordered = vec![second, session_with_state(SessionState::Active)];
    assert!(!activity_changed(&previous, &reordered));
}

fn runtime(pid: u32, project: &str) -> RuntimeSession {
    RuntimeSession {
        pid,
        project_path: project.to_string(),
        tty: format!("/dev/pts/{pid}"),
        args: "codex".to_string(),
        cli_tool: CliTool::Codex,
        tmux_session: None,
        tmux_window: None,
        tmux_pane: None,
        tmux_window_name: None,
        session_id: None,
        jsonl_path: None,
        source: None,
        group_kind: SessionGroupKind::Standalone,
        group_id: None,
        group_label: None,
        member_name: None,
    }
}

fn observation(project: &str, account: &str) -> LiveAccountObservation {
    LiveAccountObservation {
        project_path: project.to_string(),
        tool: CliTool::Codex,
        account_id: account.to_string(),
    }
}

#[test]
fn the_last_observation_under_a_key_wins_and_live_ones_are_kept() {
    let mut hub = SessionActivityHub::new();
    let mut cadence = ScannerCadence::default();
    let mut first = cycle(Vec::new(), false);
    first.runtime_sessions = vec![runtime(1, "/p/a"), runtime(2, "/p/b")];
    first.account_observations = vec![observation("/p/a", "acct-1"), observation("/p/b", "acct-2")];
    hub.commit_cycle(first, &mut cadence, None, NOW);
    let mut second = cycle(Vec::new(), false);
    second.runtime_sessions = vec![runtime(1, "/p/a"), runtime(2, "/p/b")];
    second.account_observations = vec![observation("/p/a", "acct-3"), observation("/p/a/", "acct-4")];
    hub.commit_cycle(second, &mut cadence, None, NOW + 1);
    let kept = hub.runtime_snapshot().account_observations;
    assert_eq!(kept.len(), 2);
    assert!(kept.contains(&observation("/p/b", "acct-2")));
    assert!(kept.contains(&observation("/p/a/", "acct-4")));
    let mut third = cycle(Vec::new(), false);
    third.runtime_sessions = vec![runtime(1, "/p/a")];
    hub.commit_cycle(third, &mut cadence, None, NOW + 2);
    assert_eq!(hub.runtime_snapshot().account_observations, vec![observation("/p/a/", "acct-4")]);
}

#[test]
fn a_state_change_is_a_change_even_when_pids_repeat() {
    let previous = vec![session_with_state(SessionState::Active), session_with_state(SessionState::Active)];
    let mut next = previous.clone();
    next[1].state = SessionState::Idle;
    assert!(activity_changed(&previous, &next));
}
