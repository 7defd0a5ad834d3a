//! Daemon-owned standalone team and roster mutations: the service's
//! registry, the statuses a caller polls, and the roster rules the workers
//! apply.

use vstd::prelude::*;
use crate::coordination_runs::{
    CoordinationRunKind, CoordinationRunRegistry, CoordinationRunReport, CoordinationRunStatus,
    OutcomeView, ReportView, RunOutcome, pruned,
};
use crate::requests::DisbandTeamReport;
use crate::text::{trim_string, trimmed};
use crate::protocol::{CoordinationAddMemberOutcome, CoordinationAddMemberStatus, CoordinationCreateTeamOutcome, CoordinationCreateTeamStatus, CoordinationDisbandTeamOutcome, CoordinationDisbandTeamStatus, CoordinationRemoveMemberOutcome, CoordinationRemoveMemberStatus};

verus! {

/// The daemon-local host of these runs.
pub struct RosterOperationsService {
    pub registry: CoordinationRunRegistry,
}

impl RosterOperationsService {
    /// A service over `registry`.
    pub fn for_process_default(registry: CoordinationRunRegistry) -> (r: Self)
        ensures
            r.registry == registry,
    {
        RosterOperationsService { registry }
    }
}

/// Whether a team creation run's outcome has a team creation status: it runs, failed, or
/// completed with a team creation report.
pub open spec fn create_team_projects(v: OutcomeView) -> bool {
    match v {
        OutcomeView::Running => true,
        OutcomeView::Failed(_) => true,
        OutcomeView::Completed(ReportView::CreateTeam) => true,
        _ => false,
    }
}

/// Whether `o` says what the run's outcome `v` says.
pub open spec fn create_team_outcome_matches(o: CoordinationCreateTeamOutcome, v: OutcomeView) -> bool {
    match (o, v) {
        (CoordinationCreateTeamOutcome::Running, OutcomeView::Running) => true,
        (CoordinationCreateTeamOutcome::Failed { error }, OutcomeView::Failed(e)) => error == e,
        (CoordinationCreateTeamOutcome::Completed, OutcomeView::Completed(ReportView::CreateTeam)) => true,
        _ => false,
    }
}

/// The team creation status of a registry status: none when the run is of
/// another kind or completed with another report.
pub fn create_team_status_of(status: CoordinationRunStatus) -> (r: Option<CoordinationCreateTeamStatus>)
    ensures
        r is Some <==> (status@.kind == CoordinationRunKind::CreateTeam && create_team_projects(status@.outcome)),
        r matches Some(st) ==> st.run_id@ == status@.run_id && create_team_outcome_matches(st.outcome, status@.outcome),
{
    if status.kind != CoordinationRunKind::CreateTeam {
        return None;
    }
    let outcome = match status.outcome {
        RunOutcome::Running => CoordinationCreateTeamOutcome::Running,
        RunOutcome::Completed { report: CoordinationRunReport::CreateTeam } => CoordinationCreateTeamOutcome::Completed,
        RunOutcome::Failed { error } => CoordinationCreateTeamOutcome::Failed { error },
        RunOutcome::Completed { .. } => {
            return None;
        },
    };
    Some(CoordinationCreateTeamStatus { run_id: status.run_id, outcome })
}

impl RosterOperationsService {
    /// The status of the team creation run `run_id`, after pruning expired runs;
    /// none when no such run is registered.
    pub fn create_team_status(&mut self, run_id: &str) -> (r: Option<CoordinationCreateTeamStatus>)
        requires
            old(self).registry.wf(),
        ensures
            final(self).registry.wf(),
            final(self).registry@.ttl_ms == old(self).registry@.ttl_ms,
            exists|now: u64|
                final(self).registry@.runs == #[trigger] pruned(old(self).registry@.runs, old(self).registry@.ttl_ms, now),
            r is Some <==> (final(self).registry@.runs.contains_key(run_id@)
                && final(self).registry@.runs[run_id@].kind == CoordinationRunKind::CreateTeam
                && create_team_projects(final(self).registry@.runs[run_id@].outcome)),
            r matches Some(st) ==> st.run_id@ == run_id@ && create_team_outcome_matches(st.outcome, final(self).registry@.runs[run_id@].outcome),
    {
        match self.registry.status(run_id) {
            None => None,
            Some(status) => create_team_status_of(status),
        }
    }
}

/// Whether a team disband run's outcome has a team disband status: it runs, failed, or
/// completed with a team disband report.
pub open spec fn disband_team_projects(v: OutcomeView) -> bool {
    match v {
        OutcomeView::Running => true,
        OutcomeView::Failed(_) => true,
        OutcomeView::Completed(ReportView::DisbandTeam(_)) => true,
        _ => false,
    }
}

/// Whether `o` says what the run's outcome `v` says.
pub open spec fn disband_team_outcome_matches(o: CoordinationDisbandTeamOutcome, v: OutcomeView) -> bool {
    match (o, v) {
        (CoordinationDisbandTeamOutcome::Running, OutcomeView::Running) => true,
        (CoordinationDisbandTeamOutcome::Failed { error }, OutcomeView::Failed(e)) => error == e,
        (CoordinationDisbandTeamOutcome::Completed { report }, OutcomeView::Completed(ReportView::DisbandTeam(rv))) => report == rv,
        _ => false,
    }
}

/// The team disband status of a registry status: none when the run is of
/// another kind or completed with another report.
pub fn disband_team_status_of(status: CoordinationRunStatus) -> (r: Option<CoordinationDisbandTeamStatus>)
    ensures
        r is Some <==> (status@.kind == CoordinationRunKind::DisbandTeam && disband_team_projects(status@.outcome)),
        r matches Some(st) ==> st.run_id@ == status@.run_id && disband_team_outcome_matches(st.outcome, status@.outcome),
{
    if status.kind != CoordinationRunKind::DisbandTeam {
        return None;
    }
    let outcome = match status.outcome {
        RunOutcome::Running => CoordinationDisbandTeamOutcome::Running,
        RunOutcome::Completed { report: CoordinationRunReport::DisbandTeam(report) } => CoordinationDisbandTeamOutcome::Completed { report },
        RunOutcome::Failed { error } => CoordinationDisbandTeamOutcome::Failed { error },
        RunOutcome::Completed { .. } => {
            return None;
        },
    };
    Some(CoordinationDisbandTeamStatus { run_id: status.run_id, outcome })
}

impl RosterOperationsService {
    /// The status of the team disband run `run_id`, after pruning expired runs;
    /// none when no such run is registered.
    pub fn disband_team_status(&mut self, run_id: &str) -> (r: Option<CoordinationDisbandTeamStatus>)
        requires
            old(self).registry.wf(),
        ensures
            final(self).registry.wf(),
            final(self).registry@.ttl_ms == old(self).registry@.ttl_ms,
            exists|now: u64|
                final(self).registry@.runs == #[trigger] pruned(old(self).registry@.runs, old(self).registry@.ttl_ms, now),
            r is Some <==> (final(self).registry@.runs.contains_key(run_id@)
                && final(self).registry@.runs[run_id@].kind == CoordinationRunKind::DisbandTeam
                && disband_team_projects(final(self).registry@.runs[run_id@].outcome)),
            r matches Some(st) ==> st.run_id@ == run_id@ && disband_team_outcome_matches(st.outcome, final(self).registry@.runs[run_id@].outcome),
    {
        match self.registry.status(run_id) {
            None => None,
            Some(status) => disband_team_status_of(status),
        }
    }
}

/// Whether a roster addition run's outcome has a roster addition status: it runs, failed, or
/// completed with a roster addition report.
pub open spec fn add_member_projects(v: OutcomeView) -> bool {
    match v {
        OutcomeView::Running => true,
        OutcomeView::Failed(_) => true,
        OutcomeView::Completed(ReportView::AddMember) => true,
        _ => false,
    }
}

/// Whether `o` says what the run's outcome `v` says.
pub open spec fn add_member_outcome_matches(o: CoordinationAddMemberOutcome, v: OutcomeView) -> bool {
    match (o, v) {
        (CoordinationAddMemberOutcome::Running, OutcomeView::Running) => true,
        (CoordinationAddMemberOutcome::Failed { error }, OutcomeView::Failed(e)) => error == e,
        (CoordinationAddMemberOutcome::Completed, OutcomeView::Completed(ReportView::AddMember)) => true,
        _ => false,
    }
}

/// The roster addition status of a registry status: none when the run is of
/// another kind or completed with another report.
pub fn add_member_status_of(status: CoordinationRunStatus) -> (r: Option<CoordinationAddMemberStatus>)
    ensures
        r is Some <==> (status@.kind == CoordinationRunKind::AddMember && add_member_projects(status@.outcome)),
        r matches Some(st) ==> st.run_id@ == status@.run_id && add_member_outcome_matches(st.outcome, status@.outcome),
{
    if status.kind != CoordinationRunKind::AddMember {
        return None;
    }
    let outcome = match status.outcome {
        RunOutcome::Running => CoordinationAddMemberOutcome::Running,
        RunOutcome::Completed { report: CoordinationRunReport::AddMember } => CoordinationAddMemberOutcome::Completed,
        RunOutcome::Failed { error } => CoordinationAddMemberOutcome::Failed { error },
        RunOutcome::Completed { .. } => {
            return None;
        },
    };
    Some(CoordinationAddMemberStatus { run_id: status.run_id, outcome })
}

impl RosterOperationsService {
    /// The status of the roster addition run `run_id`, after pruning expired runs;
    /// none when no such run is registered.
    pub fn add_member_status(&mut self, run_id: &str) -> (r: Option<CoordinationAddMemberStatus>)
        requires
            old(self).registry.wf(),
        ensures
            final(self).registry.wf(),
            final(self).registry@.ttl_ms == old(self).registry@.ttl_ms,
            exists|now: u64|
                final(self).registry@.runs == #[trigger] pruned(old(self).registry@.runs, old(self).registry@.ttl_ms, now),
            r is Some <==> (final(self).registry@.runs.contains_key(run_id@)
                && final(self).registry@.runs[run_id@].kind == CoordinationRunKind::AddMember
                && add_member_projects(final(self).registry@.runs[run_id@].outcome)),
            r matches Some(st) ==> st.run_id@ == run_id@ && add_member_outcome_matches(st.outcome, final(self).registry@.runs[run_id@].outcome),
    {
        match self.registry.status(run_id) {
            None => None,
            Some(status) => add_member_status_of(status),
        }
    }
}

/// Whether a roster removal run's outcome has a roster removal status: it runs, failed, or
/// completed with a roster removal report.
pub open spec fn remove_member_projects(v: OutcomeView) -> bool {
    match v {
        OutcomeView::Running => true,
        OutcomeView::Failed(_) => true,
        OutcomeView::Completed(ReportView::RemoveMember(_)) => true,
        _ => false,
    }
}

/// Whether `o` says what the run's outcome `v` says.
pub open spec fn remove_member_outcome_matches(o: CoordinationRemoveMemberOutcome, v: OutcomeView) -> bool {
    match (o, v) {
        (CoordinationRemoveMemberOutcome::Running, OutcomeView::Running) => true,
        (CoordinationRemoveMemberOutcome::Failed { error }, OutcomeView::Failed(e)) => error == e,
        (CoordinationRemoveMemberOutcome::Completed { report }, OutcomeView::Completed(ReportView::RemoveMember(rv))) => report@ == rv,
        _ => false,
    }
}

/// The roster removal status of a registry status: none when the run is of
/// another kind or completed with another report.
pub fn remove_member_status_of(status: CoordinationRunStatus) -> (r: Option<CoordinationRemoveMemberStatus>)
    ensures
        r is Some <==> (status@.kind == CoordinationRunKind::RemoveMember && remove_member_projects(status@.outcome)),
        r matches Some(st) ==> st.run_id@ == status@.run_id && remove_member_outcome_matches(st.outcome, status@.outcome),
{
    if status.kind != CoordinationRunKind::RemoveMember {
        return None;
    }
    let outcome = match status.outcome {
        RunOutcome::Running => CoordinationRemoveMemberOutcome::Running,
        RunOutcome::Completed { report: CoordinationRunReport::RemoveMember(report) } => CoordinationRemoveMemberOutcome::Completed { report },
        RunOutcome::Failed { error } => CoordinationRemoveMemberOutcome::Failed { error },
        RunOutcome::Completed { .. } => {
            return None;
        },
    };
    Some(CoordinationRemoveMemberStatus { run_id: status.run_id, outcome })
}

impl RosterOperationsService {
    /// The status of the roster removal run `run_id`, after pruning expired runs;
    /// none when no such run is registered.
    pub fn remove_member_status(&mut self, run_id: &str) -> (r: Option<CoordinationRemoveMemberStatus>)
        requires
            old(self).registry.wf(),
        ensures
            final(self).registry.wf(),
            final(self).registry@.ttl_ms == old(self).registry@.ttl_ms,
            exists|now: u64|
                final(self).registry@.runs == #[trigger] pruned(old(self).registry@.runs, old(self).registry@.ttl_ms, now),
            r is Some <==> (final(self).registry@.runs.contains_key(run_id@)
                && final(self).registry@.runs[run_id@].kind == CoordinationRunKind::RemoveMember
                && remove_member_projects(final(self).registry@.runs[run_id@].outcome)),
            r matches Some(st) ==> st.run_id@ == run_id@ && remove_member_outcome_matches(st.outcome, final(self).registry@.runs[run_id@].outcome),
    {
        match self.registry.status(run_id) {
            None => None,
            Some(status) => remove_member_status_of(status),
        }
    }
}

/// A member's role in its team.
#[derive(Debug, Clone, Copy, PartialEq, Eq, Structural)]
pub enum MemberRole {
    Lead,
    Agent,
}

/// What the roster rules read of a team member.
#[derive(Debug, Clone, PartialEq, Eq)]
pub struct Member {
    pub name: String,
    pub role: MemberRole,
    pub project_path: String,
}

/// The project path of the first lead of `members`, if any.
pub open spec fn first_lead_path(members: Seq<Member>) -> Option<String>
    decreases members.len(),
{
    if members.len() == 0 {
        None
    } else if members[0].role == MemberRole::Lead {
        Some(members[0].project_path)
    } else {
        first_lead_path(members.drop_first())
    }
}

/// Where a new member's project is: the given path, trimmed, when one is
/// given (an empty one is refused); otherwise the first lead's, otherwise the
/// first member's; a team with no members refuses.
pub open spec fn member_project_path(members: Seq<Member>, given: Option<Seq<char>>) -> Result<Seq<char>, Seq<char>> {
    match given {
        Some(p) => if trimmed(p).len() == 0 {
            Err("project_path must not be empty"@)
        } else {
            Ok(trimmed(p))
        },
        None => match first_lead_path(members) {
            Some(p) => Ok(p@),
            None => if members.len() > 0 {
                Ok(members[0].project_path@)
            } else {
                Err("project_path must be provided for legacy add-member when team has no members"@)
            },
        },
    }
}

/// The project path a roster addition gives the new member.
pub fn resolve_member_project_path(existing_members: &Vec<Member>, project_path_override: Option<&str>) -> (r: Result<String, String>)
    ensures
        match (r, member_project_path(existing_members@, match project_path_override { Some(p) => Some(p@), None => None })) {
            (Ok(p), Ok(q)) => p@ == q,
            (Err(e), Err(q)) => e@ == q,
            _ => false,
        },
{
    if let Some(project_path) = project_path_override {
        let trimmed_path = trim_string(project_path);
        if trimmed_path.unicode_len() == 0 {
            return Err(String::from_str("project_path must not be empty"));
        }
        return Ok(trimmed_path);
    }
    let n = existing_members.len();
    let mut i: usize = 0;
    assert(existing_members@.subrange(0, n as int) =~= existing_members@);
    while i < n
        invariant
            n == existing_members@.len(),
            project_path_override is None,
            i <= n,
            first_lead_path(existing_members@) == first_lead_path(existing_members@.subrange(i as int, n as int)),
        decreases n - i,
    {
        let ghost t = existing_members@.subrange(i as int, n as int);
        assert(t[0] == existing_members@[i as int]);
        if existing_members[i].role == MemberRole::Lead {
            assert(t.len() > 0 && t[0].role == MemberRole::Lead);
            assert(first_lead_path(t) == Some(existing_members@[i as int].project_path));
            return Ok(existing_members[i].project_path.clone());
        }
        assert(t.drop_first() =~= existing_members@.subrange(i + 1, n as int));
        i = i + 1;
    }
    assert(first_lead_path(existing_members@.subrange(n as int, n as int)) is None);
    if n > 0 {
        Ok(existing_members[0].project_path.clone())
    } else {
        Err(String::from_str("project_path must be provided for legacy add-member when team has no members"))
    }
}

/// The report of a disband the orchestrator carried out: `team already
/// disbanded` when it was, `team disbanded` otherwise.
pub fn disband_report(team_name: String, disbanded: bool, already_disbanded: bool) -> (r: DisbandTeamReport)
    ensures
        r.team_name == team_name,
        r.disbanded == disbanded,
        r.already_disbanded == already_disbanded,
        r.message@ == (if already_disbanded { "team already disbanded"@ } else { "team disbanded"@ }),
{
    let message = if already_disbanded {
        String::from_str("team already disbanded")
    } else {
        String::from_str("team disbanded")
    };
    DisbandTeamReport { team_name, disbanded, already_disbanded, message }
}

} // verus!
