use taurhaus_daemon::hosted::{
    hosted_action, hosted_request_names, member_stop_check, pane_owner, HostedAction, HostedCandidate,
};

fn candidate(pane: Option<&str>, pane_matches: bool, socket: &str, thread: &str) -> HostedCandidate {
    HostedCandidate {
        pane_id: pane.map(|p| p.to_string()),
        pane_matches,
        socket_path: socket.to_string(),
        thread_id: thread.to_string(),
    }
}

fn words(list: &[&str]) -> Vec<String> {
    list.iter().map(|w| w.to_string()).collect()
}

#[test]
fn hosted_stop_prefers_the_record_that_names_the_pane() {
    let cands = vec![
        candidate(Some("%3"), false, "/run/a.sock", "t1"),
        candidate(Some("%4"), true, "/run/b.sock", "t2"),
    ];
    let argv = vec![words(&["codex", "--remote", "unix:///run/a.sock", "resume", "t1"])];
    assert_eq!(pane_owner(&cands, "%4", &argv), Ok(Some(1)));
}

#[test]
fn hosted_stop_falls_back_to_the_attached_arguments() {
    let cands = vec![
        candidate(Some("%9"), true, "/run/a.sock", "t1"),
        candidate(None, false, "/run/b.sock", "t2"),
    ];
    let argv = vec![
        words(&["bash"]),
        words(&["codex", "--remote", "unix:///run/b.sock", "resume", "t2", "--yolo"]),
    ];
    assert_eq!(pane_owner(&cands, "%4", &argv), Ok(Some(1)));
    let stale = vec![words(&["codex", "--remote", "unix:///run/b.sock", "resume", "t3"])];
    assert_eq!(pane_owner(&cands, "%4", &stale), Ok(None));
    assert_eq!(pane_owner(&Vec::new(), "%4", &argv), Ok(None));
}

#[test]
fn hosted_stop_defers_on_two_owners() {
    let cands = vec![
        candidate(Some("%4"), true, "/run/a.sock", "t1"),
        candidate(Some("%4"), true, "/run/b.sock", "t2"),
    ];
    assert_eq!(
        pane_owner(&cands, "%4", &Vec::new()),
        Err("hosted stop deferred: ambiguous pane ownership".to_string())
    );
}

#[test]
fn hosted_operations_need_a_hosted_member_and_a_generation() {
    assert_eq!(hosted_action("interrupt", None, 3, Some(3), false), Err("NOT_HOSTED".to_string()));
    assert_eq!(
        hosted_action("interrupt", Some("running"), 3, None, false),
        Err("missing attachment generation".to_string())
    );
    assert_eq!(
        hosted_action("interrupt", Some("running"), 3, Some(2), false),
        Ok(HostedAction::Forward { generation: 2 })
    );
}

#[test]
fn transcript_reads_the_record_generation_and_answers_for_an_ended_host() {
    assert_eq!(
        hosted_action("transcript", Some("stopped"), 7, None, false),
        Ok(HostedAction::FinishedTranscript { stopped: true, generation: 7 })
    );
    assert_eq!(
        hosted_action("transcript", Some("orphaned"), 7, Some(1), false),
        Ok(HostedAction::FinishedTranscript { stopped: false, generation: 7 })
    );
    assert_eq!(
        hosted_action("transcript", Some("running"), 7, None, false),
        Ok(HostedAction::Forward { generation: 7 })
    );
}

#[test]
fn reconcile_needs_an_explicit_abandon_decision() {
    assert_eq!(
        hosted_action("reconcile", Some("running"), 1, Some(4), false),
        Err("Explicit abandon decision required".to_string())
    );
    assert_eq!(
        hosted_action("reconcile", Some("running"), 1, Some(4), true),
        Ok(HostedAction::AbandonUnknown { generation: 4 })
    );
}

#[test]
fn member_stop_needs_the_roster_and_its_own_pane() {
    assert_eq!(member_stop_check(false, None), Err("member is not on the team".to_string()));
    assert_eq!(
        member_stop_check(true, Some(false)),
        Err("stop deferred: pane belongs to another session".to_string())
    );
    assert_eq!(member_stop_check(true, Some(true)), Ok(()));
    assert_eq!(member_stop_check(true, None), Ok(()));
}

#[test]
fn hosted_requests_need_a_team_and_a_member() {
    assert_eq!(hosted_request_names(None, None), Err("missing team_name".to_string()));
    assert_eq!(hosted_request_names(Some("team".to_string()), None), Err("missing member_name".to_string()));
    assert_eq!(
        hosted_request_names(Some("team".to_string()), Some("seat".to_string())),
        Ok(("team".to_string(), "seat".to_string()))
    );
}
