//! Daemon-owned member operations (agent hot-add and member resume): the
//! service's registry and the statuses a caller polls.

use vstd::prelude::*;
use crate::coordination_runs::{
    CoordinationRunKind, CoordinationRunRegistry, CoordinationRunReport, CoordinationRunStatus,
    OutcomeView, ReportView, RunOutcome, pruned,
};
use crate::protocol::{CoordinationAddAgentOutcome, CoordinationAddAgentStatus, CoordinationResumeMemberOutcome, CoordinationResumeMemberStatus};

verus! {

/// The daemon-local host of these runs.
pub struct MemberOperationsService {
    pub registry: CoordinationRunRegistry,
}

impl MemberOperationsService {
    /// A service over `registry`.
    pub fn for_process_default(registry: CoordinationRunRegistry) -> (r: Self)
        ensures
            r.registry == registry,
    {
        MemberOperationsService { registry }
    }
}

/// Whether a agent hot-add run's outcome has a agent hot-add status: it runs, failed, or
/// completed with a agent hot-add report.
pub open spec fn add_agent_projects(v: OutcomeView) -> bool {
    match v {
        OutcomeView::Running => true,
        OutcomeView::Failed(_) => true,
        OutcomeView::Completed(ReportView::AddAgent(_)) => true,
        _ => false,
    }
}

/// Whether `o` says what the run's outcome `v` says.
pub open spec fn add_agent_outcome_matches(o: CoordinationAddAgentOutcome, v: OutcomeView) -> bool {
    match (o, v) {
        (CoordinationAddAgentOutcome::Running, OutcomeView::Running) => true,
        (CoordinationAddAgentOutcome::Failed { error }, OutcomeView::Failed(e)) => error == e,
        (CoordinationAddAgentOutcome::Completed { report }, OutcomeView::Completed(ReportView::AddAgent(rv))) => report == rv,
        _ => false,
    }
}

/// The agent hot-add status of a registry status: none when the run is of
/// another kind or completed with another report.
pub fn add_agent_status_of(status: CoordinationRunStatus) -> (r: Option<CoordinationAddAgentStatus>)
    ensures
        r is Some <==> (status@.kind == CoordinationRunKind::AddAgent && add_agent_projects(status@.outcome)),
        r matches Some(st) ==> st.run_id@ == status@.run_id && add_agent_outcome_matches(st.outcome, status@.outcome) && st.steps@ == status@.steps,
{
    if status.kind != CoordinationRunKind::AddAgent {
        return None;
    }
    let outcome = match status.outcome {
        RunOutcome::Running => CoordinationAddAgentOutcome::Running,
        RunOutcome::Completed { report: CoordinationRunReport::AddAgent(report) } => CoordinationAddAgentOutcome::Completed { report },
        RunOutcome::Failed { error } => CoordinationAddAgentOutcome::Failed { error },
        RunOutcome::Completed { .. } => {
            return None;
        },
    };
    Some(CoordinationAddAgentStatus { run_id: status.run_id, steps: status.steps, outcome })
}

impl MemberOperationsService {
    /// The status of the agent hot-add run `run_id`, after pruning expired runs;
    /// none when no such run is registered.
    pub fn add_agent_status(&mut self, run_id: &str) -> (r: Option<CoordinationAddAgentStatus>)
        requires
            old(self).registry.wf(),
        ensures
            final(self).registry.wf(),
            final(self).registry@.ttl_ms == old(self).registry@.ttl_ms,
            exists|now: u64|
                final(self).registry@.runs == #[trigger] pruned(old(self).registry@.runs, old(self).registry@.ttl_ms, now),
            r is Some <==> (final(self).registry@.runs.contains_key(run_id@)
                && final(self).registry@.runs[run_id@].kind == CoordinationRunKind::AddAgent
                && add_agent_projects(final(self).registry@.runs[run_id@].outcome)),
            r matches Some(st) ==> st.run_id@ == run_id@ && add_agent_outcome_matches(st.outcome, final(self).registry@.runs[run_id@].outcome) && st.steps@ == final(self).registry@.runs[run_id@].steps,
    {
        match self.registry.status(run_id) {
            None => None,
            Some(status) => add_agent_status_of(status),
        }
    }
}

/// Whether a member resume run's outcome has a member resume status: it runs, failed, or
/// completed with a member resume report.
pub open spec fn resume_member_projects(v: OutcomeView) -> bool {
    match v {
        OutcomeView::Running => true,
        OutcomeView::Failed(_) => true,
        OutcomeView::Completed(ReportView::ResumeMember(_)) => true,
        _ => false,
    }
}

/// Whether `o` says what the run's outcome `v` says.
pub open spec fn resume_member_outcome_matches(o: CoordinationResumeMemberOutcome, v: OutcomeView) -> bool {
    match (o, v) {
        (CoordinationResumeMemberOutcome::Running, OutcomeView::Running) => true,
        (CoordinationResumeMemberOutcome::Failed { error }, OutcomeView::Failed(e)) => error == e,
        (CoordinationResumeMemberOutcome::Completed { report }, OutcomeView::Completed(ReportView::ResumeMember(rv))) => report == rv,
        _ => false,
    }
}

/// The member resume status of a registry status: none when the run is of
/// another kind or completed with another report.
pub fn resume_member_status_of(status: CoordinationRunStatus) -> (r: Option<CoordinationResumeMemberStatus>)
    ensures
        r is Some <==> (status@.kind == CoordinationRunKind::ResumeMember && resume_member_projects(status@.outcome)),
        r matches Some(st) ==> st.run_id@ == status@.run_id && resume_member_outcome_matches(st.outcome, status@.outcome) && st.steps@ == status@.steps,
{
    if status.kind != CoordinationRunKind::ResumeMember {
        return None;
    }
    let outcome = match status.outcome {
        RunOutcome::Running => CoordinationResumeMemberOutcome::Running,
        RunOutcome::Completed { report: CoordinationRunReport::ResumeMember(report) } => CoordinationResumeMemberOutcome::Completed { report },
        RunOutcome::Failed { error } => CoordinationResumeMemberOutcome::Failed { error },
        RunOutcome::Completed { .. } => {
            return None;
        },
    };
    Some(CoordinationResumeMemberStatus { run_id: status.run_id, steps: status.steps, outcome })
}

impl MemberOperationsService {
    /// The status of the member resume run `run_id`, after pruning expired runs;
    /// none when no such run is registered.
    pub fn resume_member_status(&mut self, run_id: &str) -> (r: Option<CoordinationResumeMemberStatus>)
        requires
            old(self).registry.wf(),
        ensures
            final(self).registry.wf(),
            final(self).registry@.ttl_ms == old(self).registry@.ttl_ms,
            exists|now: u64|
                final(self).registry@.runs == #[trigger] pruned(old(self).registry@.runs, old(self).registry@.ttl_ms, now),
            r is Some <==> (final(self).registry@.runs.contains_key(run_id@)
                && final(self).registry@.runs[run_id@].kind == CoordinationRunKind::ResumeMember
                && resume_member_projects(final(self).registry@.runs[run_id@].outcome)),
            r matches Some(st) ==> st.run_id@ == run_id@ && resume_member_outcome_matches(st.outcome, final(self).registry@.runs[run_id@].outcome) && st.steps@ == final(self).registry@.runs[run_id@].steps,
    {
        match self.registry.status(run_id) {
            None => None,
            Some(status) => resume_member_status_of(status),
        }
    }
}

} // verus!
