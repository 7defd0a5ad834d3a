//! Daemon-owned task-effort passes: the service's registry and the status a
//! caller polls.

use vstd::prelude::*;
use crate::coordination_runs::{
    CoordinationRunKind, CoordinationRunRegistry, CoordinationRunReport, CoordinationRunStatus,
    OutcomeView, ReportView, RunOutcome, pruned,
};
use crate::protocol::{CoordinationApplyTaskEffortOutcome, CoordinationApplyTaskEffortStatus};

verus! {

/// The daemon-local host of these runs.
pub struct EffortOperationsService {
    pub registry: CoordinationRunRegistry,
}

impl EffortOperationsService {
    /// A service over `registry`.
    pub fn for_process_default(registry: CoordinationRunRegistry) -> (r: Self)
        ensures
            r.registry == registry,
    {
        EffortOperationsService { registry }
    }
}

/// Whether a task-effort pass run's outcome has a task-effort pass status: it runs, failed, or
/// completed with a task-effort pass report.
pub open spec fn apply_task_effort_projects(v: OutcomeView) -> bool {
    match v {
        OutcomeView::Running => true,
        OutcomeView::Failed(_) => true,
        OutcomeView::Completed(ReportView::ApplyTaskEffort(_)) => true,
        _ => false,
    }
}

/// Whether `o` says what the run's outcome `v` says.
pub open spec fn apply_task_effort_outcome_matches(o: CoordinationApplyTaskEffortOutcome, v: OutcomeView) -> bool {
    match (o, v) {
        (CoordinationApplyTaskEffortOutcome::Running, OutcomeView::Running) => true,
        (CoordinationApplyTaskEffortOutcome::Failed { error }, OutcomeView::Failed(e)) => error == e,
        (CoordinationApplyTaskEffortOutcome::Completed { report }, OutcomeView::Completed(ReportView::ApplyTaskEffort(rv))) => report@ == rv,
        _ => false,
    }
}

/// The task-effort pass status of a registry status: none when the run is of
/// another kind or completed with another report.
pub fn apply_task_effort_status_of(status: CoordinationRunStatus) -> (r: Option<CoordinationApplyTaskEffortStatus>)
    ensures
        r is Some <==> (status@.kind == CoordinationRunKind::ApplyTaskEffort && apply_task_effort_projects(status@.outcome)),
        r matches Some(st) ==> st.run_id@ == status@.run_id && apply_task_effort_outcome_matches(st.outcome, status@.outcome),
{
    if status.kind != CoordinationRunKind::ApplyTaskEffort {
        return None;
    }
    let outcome = match status.outcome {
        RunOutcome::Running => CoordinationApplyTaskEffortOutcome::Running,
        RunOutcome::Completed { report: CoordinationRunReport::ApplyTaskEffort(report) } => CoordinationApplyTaskEffortOutcome::Completed { report },
        RunOutcome::Failed { error } => CoordinationApplyTaskEffortOutcome::Failed { error },
        RunOutcome::Completed { .. } => {
            return None;
        },
    };
    Some(CoordinationApplyTaskEffortStatus { run_id: status.run_id, outcome })
}

impl EffortOperationsService {
    /// The status of the task-effort pass run `run_id`, after pruning expired runs;
    /// none when no such run is registered.
    pub fn status(&mut self, run_id: &str) -> (r: Option<CoordinationApplyTaskEffortStatus>)
        requires
            old(self).registry.wf(),
        ensures
            final(self).registry.wf(),
            final(self).registry@.ttl_ms == old(self).registry@.ttl_ms,
            exists|now: u64|
                final(self).registry@.runs == #[trigger] pruned(old(self).registry@.runs, old(self).registry@.ttl_ms, now),
            r is Some <==> (final(self).registry@.runs.contains_key(run_id@)
                && final(self).registry@.runs[run_id@].kind == CoordinationRunKind::ApplyTaskEffort
                && apply_task_effort_projects(final(self).registry@.runs[run_id@].outcome)),
            r matches Some(st) ==> st.run_id@ == run_id@ && apply_task_effort_outcome_matches(st.outcome, final(self).registry@.runs[run_id@].outcome),
    {
        match self.registry.status(run_id) {
            None => None,
            Some(status) => apply_task_effort_status_of(status),
        }
    }
}

} // verus!
