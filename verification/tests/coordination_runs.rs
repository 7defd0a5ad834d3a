use taurhaus_daemon::coordination_runs::{
    run_id_for, worker_thread_name, CoordinationRunKind, CoordinationRunRegistry,
    CoordinationRunReport, RunOutcome, WorkerOutcome,
};
use taurhaus_daemon::effort_runs::EffortOperationsService;
use taurhaus_daemon::initialize_runs::InitializeTeamService;
use taurhaus_daemon::member_runs::MemberOperationsService;
use taurhaus_daemon::protocol::{
    CoordinationAddMemberOutcome, CoordinationApplyTaskEffortOutcome,
    CoordinationApplyTaskEffortReport, CoordinationCreateTeamOutcome,
    CoordinationDisbandTeamOutcome, CoordinationInitializeOutcome,
};
use taurhaus_daemon::requests::{DisbandTeamReport, InitializeReport, StepProgress, StepStatus};
use taurhaus_daemon::roster_runs::{
    disband_report, resolve_member_project_path, Member, MemberRole, RosterOperationsService,
};

fn init_report() -> InitializeReport {
    InitializeReport {
        team_name: "arch".to_string(),
        succeeded_steps: Vec::new(),
        failed_step: None,
        retryable: false,
        message: "done".to_string(),
        steps: Vec::new(),
    }
}

#[test]
fn registry_accepts_every_interactive_coordination_run_kind() {
    let mut registry = CoordinationRunRegistry::with_ttl(600_000);
    for (kind, prefix) in [
        (CoordinationRunKind::InitializeTeam, "init_"),
        (CoordinationRunKind::AddAgent, "add_"),
        (CoordinationRunKind::ResumeMember, "resume_"),
        (CoordinationRunKind::ResumeTeam, "team-resume_"),
        (CoordinationRunKind::Reonboard, "reonboard_"),
        (CoordinationRunKind::CreateTeam, "create_"),
        (CoordinationRunKind::DisbandTeam, "disband_"),
        (CoordinationRunKind::AddMember, "member-add_"),
        (CoordinationRunKind::RemoveMember, "member-remove_"),
        (CoordinationRunKind::ApplyTaskEffort, "effort_"),
    ] {
        let run_id = registry.start(kind);
        assert!(run_id.starts_with(prefix), "unexpected run id: {run_id}");
        let status = registry.status(&run_id).expect("run registered");
        assert_eq!(status.kind, kind);
        assert_eq!(status.outcome, RunOutcome::Running);
    }
}

#[test]
fn registry_rejects_a_completed_report_for_the_wrong_run_kind() {
    let mut registry = CoordinationRunRegistry::with_ttl(600_000);
    let run_id = registry.start(CoordinationRunKind::ResumeMember);

    let error = registry
        .complete(&run_id, CoordinationRunReport::Initialize(init_report()))
        .expect_err("mismatched report rejected");

    assert!(error.contains("resume_member"));
    assert!(matches!(
        registry.status(&run_id).expect("failed run remains registered").outcome,
        RunOutcome::Failed { error } if error.contains("different report kind")
    ));
}

#[test]
fn terminal_runs_expire_after_ttl_but_running_runs_do_not() {
    let mut registry = CoordinationRunRegistry::with_ttl(10_000);
    let started_at: u64 = 5_000_000;
    let running_id = registry.start_at(CoordinationRunKind::AddAgent, started_at);
    let completed_id = registry.start_at(CoordinationRunKind::InitializeTeam, started_at);
    registry
        .complete_at(&completed_id, CoordinationRunReport::Initialize(init_report()), started_at)
        .expect("run completed");

    registry.prune_at(started_at + 11_000);

    assert!(registry.status_at(&completed_id, started_at + 11_000).is_none());
    assert!(registry.status_at(&running_id, started_at + 11_000).is_some());
}

#[test]
fn failed_run_preserves_recorded_steps_and_terminal_error() {
    let mut registry = CoordinationRunRegistry::with_ttl(600_000);
    let run_id = registry.start(CoordinationRunKind::ResumeMember);
    registry
        .record_step(
            &run_id,
            StepProgress { step: "prepare_member".to_string(), status: StepStatus::Running, message: None },
        )
        .expect("step recorded");
    registry.fail(&run_id, "pipeline panicked".to_string()).expect("run failed");

    let status = registry.status(&run_id).expect("failed status");
    assert_eq!(status.steps.len(), 1);
    assert_eq!(status.outcome, RunOutcome::Failed { error: "pipeline panicked".to_string() });
}

#[test]
fn registry_accepts_every_roster_operation_kind() {
    let mut registry = CoordinationRunRegistry::with_ttl(600_000);
    for (kind, prefix) in [
        (CoordinationRunKind::CreateTeam, "create_"),
        (CoordinationRunKind::DisbandTeam, "disband_"),
        (CoordinationRunKind::AddMember, "member-add_"),
        (CoordinationRunKind::RemoveMember, "member-remove_"),
    ] {
        let run_id = registry.start(kind);
        assert!(run_id.starts_with(prefix));
        let status = registry.status(&run_id).expect("run registered");
        assert_eq!(status.kind, kind);
        assert_eq!(status.outcome, RunOutcome::Running);
    }
}

#[test]
fn a_run_id_is_its_prefix_and_thirty_two_hex_digits() {
    let mut registry = CoordinationRunRegistry::with_ttl(600_000);
    let run_id = registry.start(CoordinationRunKind::DisbandTeam);
    let suffix = run_id.strip_prefix("disband_").expect("prefix");
    assert_eq!(suffix.len(), 32);
    assert!(suffix.chars().all(|c| c.is_ascii_digit() || ('a'..='f').contains(&c)));
    assert_eq!(run_id_for(CoordinationRunKind::ResumeTeam, "abc"), "team-resume_abc");
}

#[test]
fn a_terminal_run_refuses_every_further_change() {
    let mut registry = CoordinationRunRegistry::with_ttl(600_000);
    let run_id = registry.start(CoordinationRunKind::CreateTeam);
    registry.complete(&run_id, CoordinationRunReport::CreateTeam).expect("completed");
    let terminal = format!("coordination run '{run_id}' is already terminal");
    assert_eq!(registry.fail(&run_id, "late".to_string()), Err(terminal.clone()));
    assert_eq!(registry.complete(&run_id, CoordinationRunReport::CreateTeam), Err(terminal.clone()));
    assert_eq!(
        registry.record_step(
            &run_id,
            StepProgress { step: "x".to_string(), status: StepStatus::Succeeded, message: None }
        ),
        Err(terminal)
    );
    assert_eq!(registry.status(&run_id).unwrap().outcome, RunOutcome::Completed { report: CoordinationRunReport::CreateTeam });
}

#[test]
fn an_unknown_run_is_not_found() {
    let mut registry = CoordinationRunRegistry::with_ttl(600_000);
    assert_eq!(
        registry.fail("nope", "x".to_string()),
        Err("coordination run 'nope' was not found".to_string())
    );
    assert!(registry.status("nope").is_none());
}

#[test]
fn only_a_team_resume_run_takes_team_resume_progress() {
    let mut registry = CoordinationRunRegistry::with_ttl(600_000);
    let member = registry.start(CoordinationRunKind::ResumeMember);
    let step = taurhaus_daemon::requests::ResumeTeamProgress {
        member_name: "builder".to_string(),
        status: StepStatus::Running,
        message: None,
    };
    assert_eq!(
        registry.record_resume_team_step(&member, step.clone()),
        Err(format!("coordination run '{member}' does not accept team-resume progress"))
    );
    let team = registry.start(CoordinationRunKind::ResumeTeam);
    assert_eq!(registry.record_resume_team_step(&team, step), Ok(()));
    assert_eq!(registry.status(&team).unwrap().resume_team_steps.len(), 1);
}

#[test]
fn a_terminal_run_stays_visible_until_its_ttl_has_passed() {
    let mut registry = CoordinationRunRegistry::with_ttl(10_000);
    let id = registry.start_at(CoordinationRunKind::CreateTeam, 1_000);
    registry.complete_at(&id, CoordinationRunReport::CreateTeam, 2_000).unwrap();
    assert!(registry.status_at(&id, 12_000).is_some(), "exactly the TTL since it ended");
    assert!(registry.status_at(&id, 12_001).is_none());
}

#[test]
fn settling_a_worker_outcome_ends_its_run() {
    let mut registry = CoordinationRunRegistry::with_ttl(600_000);
    let panicked = registry.start(CoordinationRunKind::AddMember);
    registry.settle(&panicked, "member-add", WorkerOutcome::Panicked).unwrap();
    assert_eq!(
        registry.status(&panicked).unwrap().outcome,
        RunOutcome::Failed { error: "member-add worker panicked".to_string() }
    );

    let refused = registry.start(CoordinationRunKind::AddMember);
    registry.settle(&refused, "member-add", WorkerOutcome::Failed("no team".to_string())).unwrap();
    assert_eq!(registry.status(&refused).unwrap().outcome, RunOutcome::Failed { error: "no team".to_string() });

    let done = registry.start(CoordinationRunKind::AddMember);
    registry.settle(&done, "member-add", WorkerOutcome::Finished(CoordinationRunReport::AddMember)).unwrap();
    assert_eq!(registry.status(&done).unwrap().outcome, RunOutcome::Completed { report: CoordinationRunReport::AddMember });

    let unstarted = registry.start(CoordinationRunKind::CreateTeam);
    let message = registry.abandon(&unstarted, "create", "resource busy");
    assert_eq!(message, "failed to start create worker: resource busy");
    assert_eq!(registry.status(&unstarted).unwrap().outcome, RunOutcome::Failed { error: message });
}

#[test]
fn worker_threads_are_named_after_the_run() {
    assert_eq!(
        worker_thread_name("create", "create_0123456789abcdef0123456789abcdef"),
        "coordination-create-01234567"
    );
    assert_eq!(worker_thread_name("effort", "short"), "coordination-effort-short");
    assert_eq!(worker_thread_name("x", "a_b"), "coordination-x-b");
}

#[test]
fn service_statuses_project_their_own_kind_only() {
    let mut roster = RosterOperationsService::for_process_default(CoordinationRunRegistry::with_ttl(600_000));
    let create = roster.registry.start(CoordinationRunKind::CreateTeam);
    assert_eq!(roster.create_team_status(&create).unwrap().outcome, CoordinationCreateTeamOutcome::Running);
    assert!(roster.disband_team_status(&create).is_none(), "another kind");
    roster.registry.complete(&create, CoordinationRunReport::CreateTeam).unwrap();
    assert_eq!(roster.create_team_status(&create).unwrap().outcome, CoordinationCreateTeamOutcome::Completed);

    let disband = roster.registry.start(CoordinationRunKind::DisbandTeam);
    let report = DisbandTeamReport {
        team_name: "arch".to_string(),
        disbanded: true,
        already_disbanded: false,
        message: "team disbanded".to_string(),
    };
    roster.registry.complete(&disband, CoordinationRunReport::DisbandTeam(report.clone())).unwrap();
    let status = roster.disband_team_status(&disband).unwrap();
    assert_eq!(status.run_id, disband);
    assert_eq!(status.outcome, CoordinationDisbandTeamOutcome::Completed { report });

    let add = roster.registry.start(CoordinationRunKind::AddMember);
    roster.registry.fail(&add, "refused".to_string()).unwrap();
    assert_eq!(
        roster.add_member_status(&add).unwrap().outcome,
        CoordinationAddMemberOutcome::Failed { error: "refused".to_string() }
    );
    assert!(roster.remove_member_status("missing").is_none());

    let mut init = InitializeTeamService::for_process_default(CoordinationRunRegistry::with_ttl(600_000));
    let id = init.registry.start(CoordinationRunKind::InitializeTeam);
    init.registry
        .record_step(&id, StepProgress { step: "lead".to_string(), status: StepStatus::Succeeded, message: None })
        .unwrap();
    init.registry.complete(&id, CoordinationRunReport::Initialize(init_report())).unwrap();
    let status = init.status(&id).unwrap();
    assert_eq!(status.steps.len(), 1);
    assert_eq!(status.outcome, CoordinationInitializeOutcome::Completed { report: init_report() });

    let mut members = MemberOperationsService::for_process_default(CoordinationRunRegistry::with_ttl(600_000));
    let add_agent = members.registry.start(CoordinationRunKind::AddAgent);
    assert!(members.add_agent_status(&add_agent).is_some());
    assert!(members.resume_member_status(&add_agent).is_none());

    let mut effort = EffortOperationsService::for_process_default(CoordinationRunRegistry::with_ttl(600_000));
    let pass = effort.registry.start(CoordinationRunKind::ApplyTaskEffort);
    let effort_report = CoordinationApplyTaskEffortReport {
        switched: vec!["builder".to_string()],
        failed: Vec::new(),
        skipped_teams: vec![("arch".to_string(), "busy".to_string())],
    };
    effort.registry.complete(&pass, CoordinationRunReport::ApplyTaskEffort(effort_report.clone())).unwrap();
    assert_eq!(
        effort.status(&pass).unwrap().outcome,
        CoordinationApplyTaskEffortOutcome::Completed { report: effort_report }
    );
}

fn member(name: &str, role: MemberRole, path: &str) -> Member {
    Member { name: name.to_string(), role, project_path: path.to_string() }
}

#[test]
fn a_new_member_inherits_the_leads_or_first_members_project() {
    let empty: Vec<Member> = Vec::new();
    assert_eq!(
        resolve_member_project_path(&empty, None),
        Err("project_path must be provided for legacy add-member when team has no members".to_string())
    );
    assert_eq!(resolve_member_project_path(&empty, Some("  /work/a  ")), Ok("/work/a".to_string()));
    assert_eq!(
        resolve_member_project_path(&empty, Some("   ")),
        Err("project_path must not be empty".to_string())
    );
    let team = vec![member("builder", MemberRole::Agent, "/b"), member("lead", MemberRole::Lead, "/l")];
    assert_eq!(resolve_member_project_path(&team, None), Ok("/l".to_string()));
    let agents = vec![member("one", MemberRole::Agent, "/one"), member("two", MemberRole::Agent, "/two")];
    assert_eq!(resolve_member_project_path(&agents, None), Ok("/one".to_string()));
}

#[test]
fn a_disband_report_says_whether_the_team_was_already_gone() {
    assert_eq!(disband_report("arch".to_string(), true, false).message, "team disbanded");
    assert_eq!(disband_report("arch".to_string(), false, true).message, "team already disbanded");
}
