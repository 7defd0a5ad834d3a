//! Shared lifecycle registry for daemon-owned interactive coordination runs.
//!
//! A run is started in the `Running` state, may record progress while it
//! runs, and ends exactly once: completed with a report of its own kind, or
//! failed with an error. A terminal run is kept for the registry's TTL after
//! it ended and then pruned; a running run is never pruned.

use vstd::prelude::*;
use crate::protocol::{ApplyTaskEffortReportView, CoordinationApplyTaskEffortReport};
use crate::requests::{
    copy_resume_team_steps, copy_steps, AddAgentReport, DeliveryResult, DisbandTeamReport,
    InitializeReport, InitializeReportView, ResumeAgentReport, ResumeTeamProgress,
    ResumeTeamReport, StepProgress, StopMemberReport, StopMemberReportView,
};
use crate::text::{str_eq, to_owned_string};

verus! {

/// How long a terminal run stays visible, in milliseconds (ten minutes).
pub const COORDINATION_RUN_TTL_MS: u64 = 600_000;

/// The kinds of interactive coordination run.
#[derive(Debug, Clone, Copy, PartialEq, Eq, Structural)]
pub enum CoordinationRunKind {
    InitializeTeam,
    AddAgent,
    ResumeMember,
    ResumeTeam,
    Reonboard,
    CreateTeam,
    DisbandTeam,
    AddMember,
    RemoveMember,
    ApplyTaskEffort,
}

/// The prefix of a run id of each kind.
pub open spec fn id_prefix_of(kind: CoordinationRunKind) -> Seq<char> {
    match kind {
        CoordinationRunKind::InitializeTeam => "init"@,
        CoordinationRunKind::AddAgent => "add"@,
        CoordinationRunKind::ResumeMember => "resume"@,
        CoordinationRunKind::ResumeTeam => "team-resume"@,
        CoordinationRunKind::Reonboard => "reonboard"@,
        CoordinationRunKind::CreateTeam => "create"@,
        CoordinationRunKind::DisbandTeam => "disband"@,
        CoordinationRunKind::AddMember => "member-add"@,
        CoordinationRunKind::RemoveMember => "member-remove"@,
        CoordinationRunKind::ApplyTaskEffort => "effort"@,
    }
}

/// The operation name of each kind, as error messages give it.
pub open spec fn operation_name_of(kind: CoordinationRunKind) -> Seq<char> {
    match kind {
        CoordinationRunKind::InitializeTeam => "initialize_team"@,
        CoordinationRunKind::AddAgent => "add_agent"@,
        CoordinationRunKind::ResumeMember => "resume_member"@,
        CoordinationRunKind::ResumeTeam => "resume_team"@,
        CoordinationRunKind::Reonboard => "reonboard"@,
        CoordinationRunKind::CreateTeam => "create_team"@,
        CoordinationRunKind::DisbandTeam => "disband_team"@,
        CoordinationRunKind::AddMember => "add_member"@,
        CoordinationRunKind::RemoveMember => "remove_member"@,
        CoordinationRunKind::ApplyTaskEffort => "apply_task_effort"@,
    }
}

/// The report a finished run hands back; one variant per kind.
#[derive(Debug, Clone, PartialEq, Eq)]
pub enum CoordinationRunReport {
    Initialize(InitializeReport),
    AddAgent(AddAgentReport),
    ResumeMember(ResumeAgentReport),
    ResumeTeam(ResumeTeamReport),
    Reonboard(DeliveryResult),
    CreateTeam,
    DisbandTeam(DisbandTeamReport),
    AddMember,
    RemoveMember(StopMemberReport),
    ApplyTaskEffort(CoordinationApplyTaskEffortReport),
}

/// A report, as values.
pub enum ReportView {
    Initialize(InitializeReportView),
    AddAgent(AddAgentReport),
    ResumeMember(ResumeAgentReport),
    ResumeTeam(ResumeTeamReport),
    Reonboard(DeliveryResult),
    CreateTeam,
    DisbandTeam(DisbandTeamReport),
    AddMember,
    RemoveMember(StopMemberReportView),
    ApplyTaskEffort(ApplyTaskEffortReportView),
}

impl View for CoordinationRunReport {
    type V = ReportView;

    open spec fn view(&self) -> ReportView {
        match self {
            CoordinationRunReport::Initialize(r) => ReportView::Initialize(r@),
            CoordinationRunReport::AddAgent(r) => ReportView::AddAgent(*r),
            CoordinationRunReport::ResumeMember(r) => ReportView::ResumeMember(*r),
            CoordinationRunReport::ResumeTeam(r) => ReportView::ResumeTeam(*r),
            CoordinationRunReport::Reonboard(r) => ReportView::Reonboard(*r),
            CoordinationRunReport::CreateTeam => ReportView::CreateTeam,
            CoordinationRunReport::DisbandTeam(r) => ReportView::DisbandTeam(*r),
            CoordinationRunReport::AddMember => ReportView::AddMember,
            CoordinationRunReport::RemoveMember(r) => ReportView::RemoveMember(r@),
            CoordinationRunReport::ApplyTaskEffort(r) => ReportView::ApplyTaskEffort(r@),
        }
    }
}

/// The kind of run a report belongs to.
pub open spec fn report_kind(r: ReportView) -> CoordinationRunKind {
    match r {
        ReportView::Initialize(_) => CoordinationRunKind::InitializeTeam,
        ReportView::AddAgent(_) => CoordinationRunKind::AddAgent,
        ReportView::ResumeMember(_) => CoordinationRunKind::ResumeMember,
        ReportView::ResumeTeam(_) => CoordinationRunKind::ResumeTeam,
        ReportView::Reonboard(_) => CoordinationRunKind::Reonboard,
        ReportView::CreateTeam => CoordinationRunKind::CreateTeam,
        ReportView::DisbandTeam(_) => CoordinationRunKind::DisbandTeam,
        ReportView::AddMember => CoordinationRunKind::AddMember,
        ReportView::RemoveMember(_) => CoordinationRunKind::RemoveMember,
        ReportView::ApplyTaskEffort(_) => CoordinationRunKind::ApplyTaskEffort,
    }
}

impl CoordinationRunKind {
    /// The prefix of this kind's run ids.
    pub fn id_prefix(self) -> (r: &'static str)
        ensures
            r@ == id_prefix_of(self),
    {
        match self {
            CoordinationRunKind::InitializeTeam => "init",
            CoordinationRunKind::AddAgent => "add",
            CoordinationRunKind::ResumeMember => "resume",
            CoordinationRunKind::ResumeTeam => "team-resume",
            CoordinationRunKind::Reonboard => "reonboard",
            CoordinationRunKind::CreateTeam => "create",
            CoordinationRunKind::DisbandTeam => "disband",
            CoordinationRunKind::AddMember => "member-add",
            CoordinationRunKind::RemoveMember => "member-remove",
            CoordinationRunKind::ApplyTaskEffort => "effort",
        }
    }

    /// This kind's operation name.
    pub fn operation_name(self) -> (r: &'static str)
        ensures
            r@ == operation_name_of(self),
    {
        match self {
            CoordinationRunKind::InitializeTeam => "initialize_team",
            CoordinationRunKind::AddAgent => "add_agent",
            CoordinationRunKind::ResumeMember => "resume_member",
            CoordinationRunKind::ResumeTeam => "resume_team",
            CoordinationRunKind::Reonboard => "reonboard",
            CoordinationRunKind::CreateTeam => "create_team",
            CoordinationRunKind::DisbandTeam => "disband_team",
            CoordinationRunKind::AddMember => "add_member",
            CoordinationRunKind::RemoveMember => "remove_member",
            CoordinationRunKind::ApplyTaskEffort => "apply_task_effort",
        }
    }

    /// Whether a run of this kind may complete with `report`: exactly when
    /// the report is of this kind.
    pub fn accepts(self, report: &CoordinationRunReport) -> (r: bool)
        ensures
            r == (report_kind(report@) == self),
    {
        match (self, report) {
            (CoordinationRunKind::InitializeTeam, CoordinationRunReport::Initialize(_)) => true,
            (CoordinationRunKind::AddAgent, CoordinationRunReport::AddAgent(_)) => true,
            (CoordinationRunKind::ResumeMember, CoordinationRunReport::ResumeMember(_)) => true,
            (CoordinationRunKind::ResumeTeam, CoordinationRunReport::ResumeTeam(_)) => true,
            (CoordinationRunKind::Reonboard, CoordinationRunReport::Reonboard(_)) => true,
            (CoordinationRunKind::CreateTeam, CoordinationRunReport::CreateTeam) => true,
            (CoordinationRunKind::DisbandTeam, CoordinationRunReport::DisbandTeam(_)) => true,
            (CoordinationRunKind::AddMember, CoordinationRunReport::AddMember) => true,
            (CoordinationRunKind::RemoveMember, CoordinationRunReport::RemoveMember(_)) => true,
            (CoordinationRunKind::ApplyTaskEffort, CoordinationRunReport::ApplyTaskEffort(_)) => true,
            _ => false,
        }
    }
}

impl CoordinationRunReport {
    /// A copy of the report.
    pub fn copy(&self) -> (r: Self)
        ensures
            r@ == self@,
    {
        match self {
            CoordinationRunReport::Initialize(r) => CoordinationRunReport::Initialize(r.copy()),
            CoordinationRunReport::AddAgent(r) => CoordinationRunReport::AddAgent(r.copy()),
            CoordinationRunReport::ResumeMember(r) => CoordinationRunReport::ResumeMember(r.copy()),
            CoordinationRunReport::ResumeTeam(r) => CoordinationRunReport::ResumeTeam(r.copy()),
            CoordinationRunReport::Reonboard(r) => CoordinationRunReport::Reonboard(r.copy()),
            CoordinationRunReport::CreateTeam => CoordinationRunReport::CreateTeam,
            CoordinationRunReport::DisbandTeam(r) => CoordinationRunReport::DisbandTeam(r.copy()),
            CoordinationRunReport::AddMember => CoordinationRunReport::AddMember,
            CoordinationRunReport::RemoveMember(r) => CoordinationRunReport::RemoveMember(r.copy()),
            CoordinationRunReport::ApplyTaskEffort(r) => CoordinationRunReport::ApplyTaskEffort(r.copy()),
        }
    }
}

/// Where a run stands.
#[derive(Debug, Clone, PartialEq, Eq)]
pub enum RunOutcome {
    Running,
    Completed { report: CoordinationRunReport },
    Failed { error: String },
}

/// An outcome, as values.
pub enum OutcomeView {
    Running,
    Completed(ReportView),
    Failed(String),
}

impl View for RunOutcome {
    type V = OutcomeView;

    open spec fn view(&self) -> OutcomeView {
        match self {
            RunOutcome::Running => OutcomeView::Running,
            RunOutcome::Completed { report } => OutcomeView::Completed(report@),
            RunOutcome::Failed { error } => OutcomeView::Failed(*error),
        }
    }
}

impl RunOutcome {
    /// A copy of the outcome.
    pub fn copy(&self) -> (r: Self)
        ensures
            r@ == self@,
    {
        match self {
            RunOutcome::Running => RunOutcome::Running,
            RunOutcome::Completed { report } => RunOutcome::Completed { report: report.copy() },
            RunOutcome::Failed { error } => RunOutcome::Failed { error: error.clone() },
        }
    }
}

/// What the registry answers about one run.
#[derive(Debug, Clone, PartialEq, Eq)]
pub struct CoordinationRunStatus {
    pub run_id: String,
    pub kind: CoordinationRunKind,
    pub steps: Vec<StepProgress>,
    pub resume_team_steps: Vec<ResumeTeamProgress>,
    pub outcome: RunOutcome,
}

/// A run as the registry keeps it, as values.
pub struct RunView {
    pub kind: CoordinationRunKind,
    pub steps: Seq<StepProgress>,
    pub resume_team_steps: Seq<ResumeTeamProgress>,
    pub outcome: OutcomeView,
    /// When the run ended, in milliseconds; none while it runs.
    pub terminal_at: Option<u64>,
}

/// A status answer, as values.
pub struct RunStatusView {
    pub run_id: Seq<char>,
    pub kind: CoordinationRunKind,
    pub steps: Seq<StepProgress>,
    pub resume_team_steps: Seq<ResumeTeamProgress>,
    pub outcome: OutcomeView,
}

impl View for CoordinationRunStatus {
    type V = RunStatusView;

    open spec fn view(&self) -> RunStatusView {
        RunStatusView {
            run_id: self.run_id@,
            kind: self.kind,
            steps: self.steps@,
            resume_team_steps: self.resume_team_steps@,
            outcome: self.outcome@,
        }
    }
}

/// The status of the run `id` that the registry keeps as `run`.
pub open spec fn status_of(id: Seq<char>, run: RunView) -> RunStatusView {
    RunStatusView {
        run_id: id,
        kind: run.kind,
        steps: run.steps,
        resume_team_steps: run.resume_team_steps,
        outcome: run.outcome,
    }
}

/// A run that has just started.
pub open spec fn fresh_run(kind: CoordinationRunKind) -> RunView {
    RunView {
        kind,
        steps: Seq::empty(),
        resume_team_steps: Seq::empty(),
        outcome: OutcomeView::Running,
        terminal_at: None,
    }
}

/// `now - then`, or zero when `then` is later.
pub open spec fn elapsed(now: u64, then: u64) -> u64 {
    if now >= then {
        (now - then) as u64
    } else {
        0
    }
}

/// Whether a run survives a prune at `now`: it is still running, or it
/// ended no more than `ttl_ms` ago.
pub open spec fn survives(run: RunView, ttl_ms: u64, now: u64) -> bool {
    match run.terminal_at {
        None => true,
        Some(t) => elapsed(now, t) <= ttl_ms,
    }
}

/// The runs that survive a prune at `now`.
pub open spec fn pruned(runs: Map<Seq<char>, RunView>, ttl_ms: u64, now: u64) -> Map<
    Seq<char>,
    RunView,
> {
    Map::new(|id: Seq<char>| runs.contains_key(id) && survives(runs[id], ttl_ms, now), |id: Seq<char>| runs[id])
}

/// The registry, as values: the runs by id, and the TTL of terminal runs.
pub struct RegistryView {
    pub runs: Map<Seq<char>, RunView>,
    pub ttl_ms: u64,
}

/// `coordination run '<id>' was not found`
pub open spec fn not_found_message(id: Seq<char>) -> Seq<char> {
    "coordination run '"@ + id + "' was not found"@
}

/// `coordination run '<id>' is already terminal`
pub open spec fn terminal_message(id: Seq<char>) -> Seq<char> {
    "coordination run '"@ + id + "' is already terminal"@
}

/// `coordination run '<id>' does not accept team-resume progress`
pub open spec fn no_team_progress_message(id: Seq<char>) -> Seq<char> {
    "coordination run '"@ + id + "' does not accept team-resume progress"@
}

/// `coordination <operation> run '<id>' cannot complete with a different report kind`
pub open spec fn wrong_report_message(kind: CoordinationRunKind, id: Seq<char>) -> Seq<char> {
    "coordination "@ + operation_name_of(kind) + " run '"@ + id
        + "' cannot complete with a different report kind"@
}

/// The error of an operation on a run that is missing or already terminal,
/// if it is either.
pub open spec fn unavailable(runs: Map<Seq<char>, RunView>, id: Seq<char>) -> Option<Seq<char>> {
    if !runs.contains_key(id) {
        Some(not_found_message(id))
    } else if !(runs[id].outcome is Running) {
        Some(terminal_message(id))
    } else {
        None
    }
}

/// A run has an end time exactly when it is no longer running.
pub open spec fn ended_iff_terminal(run: RunView) -> bool {
    (run.outcome is Running) == (run.terminal_at is None)
}

/// A run ended with `outcome` at `now`.
pub open spec fn ended(run: RunView, outcome: OutcomeView, now: u64) -> RunView {
    RunView { outcome, terminal_at: Some(now), ..run }
}

/// What completing the running run `id` with `report` at `now` leaves and
/// answers: the run completes with a report of its own kind; with another,
/// it fails and the answer is the refusal.
pub open spec fn completion(
    before: Map<Seq<char>, RunView>,
    after: Map<Seq<char>, RunView>,
    id: Seq<char>,
    report: ReportView,
    now: u64,
    r: Result<(), String>,
) -> bool {
    if report_kind(report) == before[id].kind {
        r is Ok && after == before.insert(
            id,
            RunView { outcome: OutcomeView::Completed(report), terminal_at: Some(now), ..before[id] },
        )
    } else {
        r matches Err(e) && e@ == wrong_report_message(before[id].kind, id) && after == before.insert(
            id,
            RunView { outcome: OutcomeView::Failed(e), terminal_at: Some(now), ..before[id] },
        )
    }
}

/// One registered run.
struct CoordinationRunRecord {
    run_id: String,
    kind: CoordinationRunKind,
    steps: Vec<StepProgress>,
    resume_team_steps: Vec<ResumeTeamProgress>,
    outcome: RunOutcome,
    terminal_at: Option<u64>,
}

spec fn record_view(r: CoordinationRunRecord) -> RunView {
    RunView {
        kind: r.kind,
        steps: r.steps@,
        resume_team_steps: r.resume_team_steps@,
        outcome: r.outcome@,
        terminal_at: r.terminal_at,
    }
}

spec fn has_id(s: Seq<CoordinationRunRecord>, id: Seq<char>) -> bool {
    exists|i: int| 0 <= i < s.len() && (#[trigger] s[i]).run_id@ == id
}

spec fn ids_distinct(s: Seq<CoordinationRunRecord>) -> bool {
    forall|i: int, j: int|
        0 <= i < s.len() && 0 <= j < s.len() && i != j ==> (#[trigger] s[i]).run_id@ != (#[trigger] s[j]).run_id@
}

spec fn runs_of(s: Seq<CoordinationRunRecord>) -> Map<Seq<char>, RunView> {
    Map::new(
        |id: Seq<char>| has_id(s, id),
        |id: Seq<char>| record_view(s[choose|i: int| 0 <= i < s.len() && (#[trigger] s[i]).run_id@ == id]),
    )
}

proof fn lemma_runs_at(s: Seq<CoordinationRunRecord>, k: int)
    requires
        ids_distinct(s),
        0 <= k < s.len(),
    ensures
        runs_of(s).contains_key(s[k].run_id@),
        runs_of(s)[s[k].run_id@] == record_view(s[k]),
{
    let id = s[k].run_id@;
    assert(has_id(s, id));
    let i = choose|i: int| 0 <= i < s.len() && (#[trigger] s[i]).run_id@ == id;
    assert(i == k);
}

proof fn lemma_runs_update(s: Seq<CoordinationRunRecord>, k: int, r: CoordinationRunRecord)
    requires
        ids_distinct(s),
        0 <= k < s.len(),
        r.run_id@ == s[k].run_id@,
    ensures
        ids_distinct(s.update(k, r)),
        runs_of(s.update(k, r)) == runs_of(s).insert(r.run_id@, record_view(r)),
{
    let t = s.update(k, r);
    assert(ids_distinct(t)) by {
        assert forall|i: int, j: int|
            0 <= i < t.len() && 0 <= j < t.len() && i != j implies (#[trigger] t[i]).run_id@ != (#[trigger] t[j]).run_id@ by {
            assert(s[i].run_id@ != s[j].run_id@);
        }
    }
    let m = runs_of(s).insert(r.run_id@, record_view(r));
    assert forall|id: Seq<char>| #[trigger] runs_of(t).contains_key(id) <==> m.contains_key(id) by {
        if has_id(t, id) {
            let i = choose|i: int| 0 <= i < t.len() && (#[trigger] t[i]).run_id@ == id;
            if i != k {
                assert(s[i].run_id@ == id);
                assert(has_id(s, id));
            }
        }
        if has_id(s, id) {
            let i = choose|i: int| 0 <= i < s.len() && (#[trigger] s[i]).run_id@ == id;
            assert(t[i].run_id@ == id);
            assert(has_id(t, id));
        }
        if id == r.run_id@ {
            assert(t[k].run_id@ == id);
            assert(has_id(t, id));
        }
    }
    assert forall|id: Seq<char>| #[trigger] runs_of(t).contains_key(id) implies runs_of(t)[id] == m[id] by {
        let i = choose|i: int| 0 <= i < t.len() && (#[trigger] t[i]).run_id@ == id;
        lemma_runs_at(t, i);
        if i != k {
            lemma_runs_at(s, i);
        }
    }
    assert(runs_of(t) =~= m);
}

proof fn lemma_runs_push(s: Seq<CoordinationRunRecord>, r: CoordinationRunRecord)
    requires
        ids_distinct(s),
        !runs_of(s).contains_key(r.run_id@),
    ensures
        ids_distinct(s.push(r)),
        runs_of(s.push(r)) == runs_of(s).insert(r.run_id@, record_view(r)),
{
    let t = s.push(r);
    assert(ids_distinct(t)) by {
        assert forall|i: int, j: int|
            0 <= i < t.len() && 0 <= j < t.len() && i != j implies (#[trigger] t[i]).run_id@ != (#[trigger] t[j]).run_id@ by {
            if i < s.len() && j < s.len() {
                assert(s[i].run_id@ != s[j].run_id@);
            } else if i < s.len() {
                assert(t[i] == s[i]);
                if s[i].run_id@ == r.run_id@ {
                    assert(has_id(s, r.run_id@));
                }
            } else {
                assert(t[j] == s[j]);
                if s[j].run_id@ == r.run_id@ {
                    assert(has_id(s, r.run_id@));
                }
            }
        }
    }
    let m = runs_of(s).insert(r.run_id@, record_view(r));
    assert forall|id: Seq<char>| #[trigger] runs_of(t).contains_key(id) <==> m.contains_key(id) by {
        if has_id(t, id) {
            let i = choose|i: int| 0 <= i < t.len() && (#[trigger] t[i]).run_id@ == id;
            if i < s.len() {
                assert(s[i].run_id@ == id);
                assert(has_id(s, id));
            }
        }
        if has_id(s, id) {
            let i = choose|i: int| 0 <= i < s.len() && (#[trigger] s[i]).run_id@ == id;
            assert(t[i].run_id@ == id);
            assert(has_id(t, id));
        }
        if id == r.run_id@ {
            assert(t[s.len() as int].run_id@ == id);
            assert(has_id(t, id));
        }
    }
    assert forall|id: Seq<char>| #[trigger] runs_of(t).contains_key(id) implies runs_of(t)[id] == m[id] by {
        let i = choose|i: int| 0 <= i < t.len() && (#[trigger] t[i]).run_id@ == id;
        lemma_runs_at(t, i);
        if i < s.len() {
            lemma_runs_at(s, i);
        }
    }
    assert(runs_of(t) =~= m);
}

proof fn lemma_runs_remove(s: Seq<CoordinationRunRecord>, k: int)
    requires
        ids_distinct(s),
        0 <= k < s.len(),
    ensures
        ids_distinct(s.remove(k)),
        runs_of(s.remove(k)) == runs_of(s).remove(s[k].run_id@),
{
    let t = s.remove(k);
    let gone = s[k].run_id@;
    assert(ids_distinct(t)) by {
        assert forall|i: int, j: int|
            0 <= i < t.len() && 0 <= j < t.len() && i != j implies (#[trigger] t[i]).run_id@ != (#[trigger] t[j]).run_id@ by {
            let si = if i < k { i } else { i + 1 };
            let sj = if j < k { j } else { j + 1 };
            assert(t[i] == s[si]);
            assert(t[j] == s[sj]);
            assert(s[si].run_id@ != s[sj].run_id@);
        }
    }
    let m = runs_of(s).remove(gone);
    assert forall|id: Seq<char>| #[trigger] runs_of(t).contains_key(id) <==> m.contains_key(id) by {
        if has_id(t, id) {
            let i = choose|i: int| 0 <= i < t.len() && (#[trigger] t[i]).run_id@ == id;
            let si = if i < k { i } else { i + 1 };
            assert(t[i] == s[si]);
            assert(has_id(s, id));
            assert(s[si].run_id@ != s[k].run_id@);
        }
        if has_id(s, id) && id != gone {
            let i = choose|i: int| 0 <= i < s.len() && (#[trigger] s[i]).run_id@ == id;
            assert(i != k);
            let ti = if i < k { i } else { i - 1 };
            assert(t[ti] == s[i]);
            assert(has_id(t, id));
        }
    }
    assert forall|id: Seq<char>| #[trigger] runs_of(t).contains_key(id) implies runs_of(t)[id] == m[id] by {
        let i = choose|i: int| 0 <= i < t.len() && (#[trigger] t[i]).run_id@ == id;
        let si = if i < k { i } else { i + 1 };
        assert(t[i] == s[si]);
        lemma_runs_at(t, i);
        lemma_runs_at(s, si);
    }
    assert(runs_of(t) =~= m);
}

/// The lifecycle registry of coordination runs.
pub struct CoordinationRunRegistry {
    records: Vec<CoordinationRunRecord>,
    ttl_ms: u64,
    /// The instant the registry's clock counts from: run times are
    /// milliseconds on a monotonic clock since then.
    origin: std::time::Instant,
}

impl View for CoordinationRunRegistry {
    type V = RegistryView;

    closed spec fn view(&self) -> RegistryView {
        RegistryView { runs: runs_of(self.records@), ttl_ms: self.ttl_ms }
    }
}

/// The text `coordination run '<id>'` followed by `tail`.
fn run_message(run_id: &str, tail: &str) -> (r: String)
    ensures
        r@ == "coordination run '"@ + run_id@ + tail@,
{
    let mut s = String::from_str("coordination run '");
    s.append(run_id);
    s.append(tail);
    s
}

impl CoordinationRunRegistry {
    /// Every run id is registered once.
    pub closed spec fn wf(&self) -> bool {
        &&& ids_distinct(self.records@)
        &&& forall|i: int| 0 <= i < self.records@.len() ==> #[trigger] ended_iff_terminal(record_view(self.records@[i]))
    }

    /// In a well-formed registry every run has an end time exactly when it
    /// is no longer running.
    pub proof fn lemma_runs_are_consistent(&self)
        requires
            self.wf(),
        ensures
            forall|id: Seq<char>| #[trigger] self@.runs.contains_key(id) ==> ended_iff_terminal(self@.runs[id]),
    {
        assert forall|id: Seq<char>| #[trigger] self@.runs.contains_key(id) implies ended_iff_terminal(self@.runs[id]) by {
            let j = choose|j: int| 0 <= j < self.records@.len() && (#[trigger] self.records@[j]).run_id@ == id;
            lemma_runs_at(self.records@, j);
        }
    }

    /// An empty registry whose terminal runs stay visible for `ttl_ms`.
    pub fn with_ttl(ttl_ms: u64) -> (r: Self)
        ensures
            r.wf(),
            r@.runs == Map::<Seq<char>, RunView>::empty(),
            r@.ttl_ms == ttl_ms,
    {
        let r = CoordinationRunRegistry { records: Vec::new(), ttl_ms, origin: crate::clock::instant_now() };
        assert(runs_of(r.records@) =~= Map::<Seq<char>, RunView>::empty());
        r
    }

    /// The position of the run `run_id`, if it is registered.
    fn find(&self, run_id: &str) -> (r: Option<usize>)
        requires
            self.wf(),
        ensures
            match r {
                Some(i) => i < self.records@.len() && self.records@[i as int].run_id@ == run_id@,
                None => !self@.runs.contains_key(run_id@),
            },
    {
        let mut i: usize = 0;
        while i < self.records.len()
            invariant
                i <= self.records@.len(),
                forall|j: int| 0 <= j < i ==> (#[trigger] self.records@[j]).run_id@ != run_id@,
            decreases self.records@.len() - i,
        {
            if str_eq(self.records[i].run_id.as_str(), run_id) {
                return Some(i);
            }
            i = i + 1;
        }
        None
    }

    /// Replace the record at `i` by `rec`, which keeps its id.
    fn replace(&mut self, i: usize, rec: CoordinationRunRecord)
        requires
            old(self).wf(),
            i < old(self).records@.len(),
            rec.run_id@ == old(self).records@[i as int].run_id@,
            ended_iff_terminal(record_view(rec)),
        ensures
            final(self).wf(),
            final(self)@.ttl_ms == old(self)@.ttl_ms,
            final(self)@.runs == old(self)@.runs.insert(rec.run_id@, record_view(rec)),
    {
        proof {
            lemma_runs_update(self.records@, i as int, rec);
        }
        let ghost s = self.records@;
        let _old = self.records.remove(i);
        self.records.insert(i, rec);
        assert(self.records@ =~= s.update(i as int, rec));
    }

    /// Drop the terminal runs that ended more than the TTL before `now`.
    pub fn prune_at(&mut self, now: u64)
        requires
            old(self).wf(),
        ensures
            final(self).wf(),
            final(self)@.ttl_ms == old(self)@.ttl_ms,
            final(self)@.runs == pruned(old(self)@.runs, old(self)@.ttl_ms, now),
    {
        let ttl = self.ttl_ms;
        let ghost target = pruned(runs_of(self.records@), ttl, now);
        let mut i: usize = 0;
        assert(pruned(runs_of(self.records@), ttl, now) =~= target);
        while i < self.records.len()
            invariant
                ttl == self.ttl_ms,
                ids_distinct(self.records@),
                forall|j: int| 0 <= j < self.records@.len() ==> #[trigger] ended_iff_terminal(record_view(self.records@[j])),
                i <= self.records@.len(),
                forall|j: int| 0 <= j < i ==> survives(record_view(#[trigger] self.records@[j]), ttl, now),
                pruned(runs_of(self.records@), ttl, now) == target,
            decreases self.records@.len() - i,
        {
            let keep = match self.records[i].terminal_at {
                None => true,
                Some(t) => now.saturating_sub(t) <= ttl,
            };
            if keep {
                i = i + 1;
            } else {
                let ghost s = self.records@;
                proof {
                    lemma_runs_remove(s, i as int);
                    lemma_runs_at(s, i as int);
                    let m = runs_of(s);
                    let gone = s[i as int].run_id@;
                    assert(pruned(m.remove(gone), ttl, now) =~= pruned(m, ttl, now));
                }
                let _gone = self.records.remove(i);
                assert(forall|j: int| 0 <= j < i ==> self.records@[j] == s[j]);
                assert(forall|j: int| 0 <= j < self.records@.len() ==> self.records@[j] == s[if j < i { j } else { j + 1 }]);
            }
        }
        proof {
            let m = runs_of(self.records@);
            assert forall|id: Seq<char>| #[trigger] m.contains_key(id) implies survives(m[id], ttl, now) by {
                let j = choose|j: int| 0 <= j < self.records@.len() && (#[trigger] self.records@[j]).run_id@ == id;
                lemma_runs_at(self.records@, j);
            }
            assert(pruned(m, ttl, now) =~= m);
        }
    }

    /// Register a new run of `kind` under `run_id` at `now`, after pruning
    /// expired runs. A run already registered under that id is replaced.
    pub fn register_at(&mut self, kind: CoordinationRunKind, run_id: String, now: u64)
        requires
            old(self).wf(),
        ensures
            final(self).wf(),
            final(self)@.ttl_ms == old(self)@.ttl_ms,
            final(self)@.runs == pruned(old(self)@.runs, old(self)@.ttl_ms, now).insert(run_id@, fresh_run(kind)),
    {
        self.prune_at(now);
        let ghost id = run_id@;
        let rec = CoordinationRunRecord {
            run_id,
            kind,
            steps: Vec::new(),
            resume_team_steps: Vec::new(),
            outcome: RunOutcome::Running,
            terminal_at: None,
        };
        assert(record_view(rec) =~= fresh_run(kind));
        match self.find(rec.run_id.as_str()) {
            Some(i) => {
                self.replace(i, rec);
            },
            None => {
                proof {
                    lemma_runs_push(self.records@, rec);
                }
                self.records.push(rec);
            },
        }
    }

    /// Start a run of `kind` at `now`: prune, then register it under a fresh
    /// id made of the kind's prefix, `_` and 32 lowercase hex digits.
    pub fn start_at(&mut self, kind: CoordinationRunKind, now: u64) -> (r: String)
        requires
            old(self).wf(),
        ensures
            final(self).wf(),
            final(self)@.ttl_ms == old(self)@.ttl_ms,
            r@.len() == id_prefix_of(kind).len() + 33,
            r@.subrange(0, id_prefix_of(kind).len() + 1int) == id_prefix_of(kind) + "_"@,
            final(self)@.runs == pruned(old(self)@.runs, old(self)@.ttl_ms, now).insert(r@, fresh_run(kind)),
    {
        let suffix = crate::ids::random_hex_id();
        let run_id = run_id_for(kind, suffix.as_str());
        proof {
            reveal_strlit("_");
            let p = id_prefix_of(kind) + "_"@;
            assert((p + suffix@).subrange(0, p.len() as int) =~= p);
        }
        let returned = run_id.clone();
        self.register_at(kind, run_id, now);
        returned
    }

    /// Start a run of `kind` now.
    pub fn start(&mut self, kind: CoordinationRunKind) -> (r: String)
        requires
            old(self).wf(),
        ensures
            final(self).wf(),
            final(self)@.ttl_ms == old(self)@.ttl_ms,
            r@.len() == id_prefix_of(kind).len() + 33,
            r@.subrange(0, id_prefix_of(kind).len() + 1int) == id_prefix_of(kind) + "_"@,
            exists|now: u64|
                final(self)@.runs == #[trigger] pruned(old(self)@.runs, old(self)@.ttl_ms, now).insert(
                    r@,
                    fresh_run(kind),
                ),
    {
        let now = crate::clock::elapsed_ms(&self.origin);
        self.start_at(kind, now)
    }

    /// Record a step of a running run.
    pub fn record_step(&mut self, run_id: &str, step: StepProgress) -> (r: Result<(), String>)
        requires
            old(self).wf(),
        ensures
            final(self).wf(),
            final(self)@.ttl_ms == old(self)@.ttl_ms,
            match unavailable(old(self)@.runs, run_id@) {
                Some(msg) => (r matches Err(e) && e@ == msg) && final(self)@.runs == old(self)@.runs,
                None => r is Ok && final(self)@.runs == old(self)@.runs.insert(
                    run_id@,
                    RunView { steps: old(self)@.runs[run_id@].steps.push(step), ..old(self)@.runs[run_id@] },
                ),
            },
    {
        match self.find(run_id) {
            None => Err(run_message(run_id, "' was not found")),
            Some(i) => {
                proof {
                    lemma_runs_at(self.records@, i as int);
                }
                if !matches!(self.records[i].outcome, RunOutcome::Running) {
                    return Err(run_message(run_id, "' is already terminal"));
                }
                let ghost s = self.records@;
                let mut rec = self.records.remove(i);
                rec.steps.push(step);
                proof {
                    assert(ended_iff_terminal(record_view(s[i as int])));
                    lemma_runs_update(s, i as int, rec);
                }
                self.records.insert(i, rec);
                assert(self.records@ =~= s.update(i as int, rec));
                Ok(())
            },
        }
    }

    /// Record a team-resume progress entry of a running team-resume run.
    pub fn record_resume_team_step(&mut self, run_id: &str, step: ResumeTeamProgress) -> (r: Result<
        (),
        String,
    >)
        requires
            old(self).wf(),
        ensures
            final(self).wf(),
            final(self)@.ttl_ms == old(self)@.ttl_ms,
            match unavailable(old(self)@.runs, run_id@) {
                Some(msg) => (r matches Err(e) && e@ == msg) && final(self)@.runs == old(self)@.runs,
                None => if old(self)@.runs[run_id@].kind != CoordinationRunKind::ResumeTeam {
                    (r matches Err(e) && e@ == no_team_progress_message(run_id@))
                        && final(self)@.runs == old(self)@.runs
                } else {
                    r is Ok && final(self)@.runs == old(self)@.runs.insert(
                        run_id@,
                        RunView {
                            resume_team_steps: old(self)@.runs[run_id@].resume_team_steps.push(step),
                            ..old(self)@.runs[run_id@]
                        },
                    )
                },
            },
    {
        match self.find(run_id) {
            None => Err(run_message(run_id, "' was not found")),
            Some(i) => {
                proof {
                    lemma_runs_at(self.records@, i as int);
                }
                if !matches!(self.records[i].outcome, RunOutcome::Running) {
                    return Err(run_message(run_id, "' is already terminal"));
                }
                if self.records[i].kind != CoordinationRunKind::ResumeTeam {
                    return Err(run_message(run_id, "' does not accept team-resume progress"));
                }
                let ghost s = self.records@;
                let mut rec = self.records.remove(i);
                rec.resume_team_steps.push(step);
                proof {
                    assert(ended_iff_terminal(record_view(s[i as int])));
                    lemma_runs_update(s, i as int, rec);
                }
                self.records.insert(i, rec);
                assert(self.records@ =~= s.update(i as int, rec));
                Ok(())
            },
        }
    }

    /// End a running run with `outcome`, a terminal one, at `now`.
    fn finish_at(&mut self, run_id: &str, outcome: RunOutcome, now: u64) -> (r: Result<(), String>)
        requires
            old(self).wf(),
            !(outcome@ is Running),
        ensures
            final(self).wf(),
            final(self)@.ttl_ms == old(self)@.ttl_ms,
            match unavailable(old(self)@.runs, run_id@) {
                Some(msg) => (r matches Err(e) && e@ == msg) && final(self)@.runs == old(self)@.runs,
                None => r is Ok && final(self)@.runs == old(self)@.runs.insert(
                    run_id@,
                    RunView { outcome: outcome@, terminal_at: Some(now), ..old(self)@.runs[run_id@] },
                ),
            },
    {
        match self.find(run_id) {
            None => Err(run_message(run_id, "' was not found")),
            Some(i) => {
                proof {
                    lemma_runs_at(self.records@, i as int);
                }
                if !matches!(self.records[i].outcome, RunOutcome::Running) {
                    return Err(run_message(run_id, "' is already terminal"));
                }
                let ghost s = self.records@;
                let mut rec = self.records.remove(i);
                rec.outcome = outcome;
                rec.terminal_at = Some(now);
                proof {
                    lemma_runs_update(s, i as int, rec);
                }
                self.records.insert(i, rec);
                assert(self.records@ =~= s.update(i as int, rec));
                Ok(())
            },
        }
    }

    /// Complete a running run with `report` at `now`. A report of another
    /// kind than the run's fails the run instead, so that it still ends and
    /// can expire.
    pub fn complete_at(&mut self, run_id: &str, report: CoordinationRunReport, now: u64) -> (r: Result<
        (),
        String,
    >)
        requires
            old(self).wf(),
        ensures
            final(self).wf(),
            final(self)@.ttl_ms == old(self)@.ttl_ms,
            match unavailable(old(self)@.runs, run_id@) {
                Some(msg) => (r matches Err(e) && e@ == msg) && final(self)@.runs == old(self)@.runs,
                None => completion(old(self)@.runs, final(self)@.runs, run_id@, report@, now, r),
            },
    {
        match self.find(run_id) {
            None => Err(run_message(run_id, "' was not found")),
            Some(i) => {
                proof {
                    lemma_runs_at(self.records@, i as int);
                }
                if !matches!(self.records[i].outcome, RunOutcome::Running) {
                    return Err(run_message(run_id, "' is already terminal"));
                }
                let kind = self.records[i].kind;
                let ghost s = self.records@;
                let mut rec = self.records.remove(i);
                let result = if kind.accepts(&report) {
                    rec.outcome = RunOutcome::Completed { report };
                    Ok(())
                } else {
                    let mut error = String::from_str("coordination ");
                    error.append(kind.operation_name());
                    error.append(" run '");
                    error.append(run_id);
                    error.append("' cannot complete with a different report kind");
                    rec.outcome = RunOutcome::Failed { error: error.clone() };
                    Err(error)
                };
                rec.terminal_at = Some(now);
                proof {
                    lemma_runs_update(s, i as int, rec);
                }
                self.records.insert(i, rec);
                assert(self.records@ =~= s.update(i as int, rec));
                result
            },
        }
    }

    /// Complete a running run with `report` now.
    pub fn complete(&mut self, run_id: &str, report: CoordinationRunReport) -> (r: Result<(), String>)
        requires
            old(self).wf(),
        ensures
            final(self).wf(),
            final(self)@.ttl_ms == old(self)@.ttl_ms,
            match unavailable(old(self)@.runs, run_id@) {
                Some(msg) => (r matches Err(e) && e@ == msg) && final(self)@.runs == old(self)@.runs,
                None => exists|now: u64| #[trigger]
                    completion(old(self)@.runs, final(self)@.runs, run_id@, report@, now, r),
            },
    {
        let now = crate::clock::elapsed_ms(&self.origin);
        self.complete_at(run_id, report, now)
    }

    /// Fail a running run with `error` now.
    pub fn fail(&mut self, run_id: &str, error: String) -> (r: Result<(), String>)
        requires
            old(self).wf(),
        ensures
            final(self).wf(),
            final(self)@.ttl_ms == old(self)@.ttl_ms,
            match unavailable(old(self)@.runs, run_id@) {
                Some(msg) => (r matches Err(e) && e@ == msg) && final(self)@.runs == old(self)@.runs,
                None => r is Ok && exists|now: u64|
                    final(self)@.runs == old(self)@.runs.insert(
                        run_id@,
                        #[trigger] ended(old(self)@.runs[run_id@], OutcomeView::Failed(error), now),
                    ),
            },
    {
        let now = crate::clock::elapsed_ms(&self.origin);
        let ghost before = self@;
        let ghost e = error;
        let r = self.finish_at(run_id, RunOutcome::Failed { error }, now);
        proof {
            if unavailable(before.runs, run_id@) is None {
                assert(self@.runs == before.runs.insert(run_id@, ended(before.runs[run_id@], OutcomeView::Failed(e), now)));
            }
        }
        r
    }

    /// The status of the run `run_id` after pruning at `now`; none when it
    /// is not registered or has expired.
    pub fn status_at(&mut self, run_id: &str, now: u64) -> (r: Option<CoordinationRunStatus>)
        requires
            old(self).wf(),
        ensures
            final(self).wf(),
            final(self)@.ttl_ms == old(self)@.ttl_ms,
            final(self)@.runs == pruned(old(self)@.runs, old(self)@.ttl_ms, now),
            r is Some <==> final(self)@.runs.contains_key(run_id@),
            r matches Some(st) ==> st@ == status_of(run_id@, final(self)@.runs[run_id@]),
    {
        self.prune_at(now);
        match self.find(run_id) {
            None => None,
            Some(i) => {
                proof {
                    lemma_runs_at(self.records@, i as int);
                }
                let rec = &self.records[i];
                Some(
                    CoordinationRunStatus {
                        run_id: to_owned_string(run_id),
                        kind: rec.kind,
                        steps: copy_steps(&rec.steps),
                        resume_team_steps: copy_resume_team_steps(&rec.resume_team_steps),
                        outcome: rec.outcome.copy(),
                    },
                )
            },
        }
    }

    /// The status of the run `run_id` now. Expired runs are pruned first; a
    /// run that is still running is always answered.
    pub fn status(&mut self, run_id: &str) -> (r: Option<CoordinationRunStatus>)
        requires
            old(self).wf(),
        ensures
            final(self).wf(),
            final(self)@.ttl_ms == old(self)@.ttl_ms,
            exists|now: u64| final(self)@.runs == #[trigger] pruned(old(self)@.runs, old(self)@.ttl_ms, now),
            r is Some <==> final(self)@.runs.contains_key(run_id@),
            r matches Some(st) ==> st@ == status_of(run_id@, final(self)@.runs[run_id@]),
    {
        let now = crate::clock::elapsed_ms(&self.origin);
        self.status_at(run_id, now)
    }
}

/// How a run's worker ended.
pub enum WorkerOutcome {
    /// The worker produced a report.
    Finished(CoordinationRunReport),
    /// The worker refused or failed with an error.
    Failed(String),
    /// The worker panicked.
    Panicked,
}

/// `<worker> worker panicked`
pub open spec fn panicked_message(worker_name: Seq<char>) -> Seq<char> {
    worker_name + " worker panicked"@
}

/// `failed to start <worker> worker: <error>`
pub open spec fn spawn_failed_message(worker_name: Seq<char>, error: Seq<char>) -> Seq<char> {
    "failed to start "@ + worker_name + " worker: "@ + error
}

impl CoordinationRunRegistry {
    /// Settle the run `run_id` from how its worker ended: a report completes
    /// it, an error fails it with that error, a panic fails it with
    /// `<worker> worker panicked`.
    pub fn settle(&mut self, run_id: &str, worker_name: &str, outcome: WorkerOutcome) -> (r: Result<
        (),
        String,
    >)
        requires
            old(self).wf(),
        ensures
            final(self).wf(),
            final(self)@.ttl_ms == old(self)@.ttl_ms,
            match unavailable(old(self)@.runs, run_id@) {
                Some(msg) => (r matches Err(e) && e@ == msg) && final(self)@.runs == old(self)@.runs,
                None => exists|now: u64| #[trigger] settled(old(self)@.runs, final(self)@.runs, run_id@, worker_name@, outcome, now, r),
            },
    {
        let ghost before = self@.runs;
        let ghost og = outcome;
        match outcome {
            WorkerOutcome::Finished(report) => {
                let r = self.complete(run_id, report);
                proof {
                    if unavailable(before, run_id@) is None {
                        let now = choose|now: u64| #[trigger] completion(before, self@.runs, run_id@, og->Finished_0@, now, r);
                        assert(settled(before, self@.runs, run_id@, worker_name@, og, now, r));
                    }
                }
                r
            },
            WorkerOutcome::Failed(error) => {
                let ghost e = error;
                let r = self.fail(run_id, error);
                proof {
                    if unavailable(before, run_id@) is None {
                        let now = choose|now: u64|
                            self@.runs == before.insert(run_id@, #[trigger] ended(before[run_id@], OutcomeView::Failed(e), now));
                        assert(settled(before, self@.runs, run_id@, worker_name@, og, now, r));
                    }
                }
                r
            },
            WorkerOutcome::Panicked => {
                let mut error = to_owned_string(worker_name);
                error.append(" worker panicked");
                let ghost e = error;
                let r = self.fail(run_id, error);
                proof {
                    if unavailable(before, run_id@) is None {
                        let now = choose|now: u64|
                            self@.runs == before.insert(run_id@, #[trigger] ended(before[run_id@], OutcomeView::Failed(e), now));
                        assert(self@.runs[run_id@].outcome == OutcomeView::Failed(e));
                        assert(settled(before, self@.runs, run_id@, worker_name@, og, now, r));
                    }
                }
                r
            },
        }
    }

    /// The worker of the run `run_id` could not be started: the run fails
    /// with `failed to start <worker> worker: <error>`, which is returned.
    pub fn abandon(&mut self, run_id: &str, worker_name: &str, error: &str) -> (r: String)
        requires
            old(self).wf(),
        ensures
            final(self).wf(),
            final(self)@.ttl_ms == old(self)@.ttl_ms,
            r@ == spawn_failed_message(worker_name@, error@),
            match unavailable(old(self)@.runs, run_id@) {
                Some(_) => final(self)@.runs == old(self)@.runs,
                None => exists|now: u64|
                    final(self)@.runs == old(self)@.runs.insert(
                        run_id@,
                        #[trigger] ended(old(self)@.runs[run_id@], OutcomeView::Failed(r), now),
                    ),
            },
    {
        let mut message = String::from_str("failed to start ");
        message.append(worker_name);
        message.append(" worker: ");
        message.append(error);
        let _ = self.fail(run_id, message.clone());
        message
    }
}

/// What settling the running run `id` from a worker outcome at `now` leaves
/// and answers.
pub open spec fn settled(
    before: Map<Seq<char>, RunView>,
    after: Map<Seq<char>, RunView>,
    id: Seq<char>,
    worker_name: Seq<char>,
    outcome: WorkerOutcome,
    now: u64,
    r: Result<(), String>,
) -> bool {
    match outcome {
        WorkerOutcome::Finished(report) => completion(before, after, id, report@, now, r),
        WorkerOutcome::Failed(error) => r is Ok && after == before.insert(
            id,
            ended(before[id], OutcomeView::Failed(error), now),
        ),
        WorkerOutcome::Panicked => r is Ok && after.contains_key(id) && (after[id].outcome matches OutcomeView::Failed(e)
            && e@ == panicked_message(worker_name)) && after == before.insert(id, ended(before[id], after[id].outcome, now)),
    }
}

/// The first `n` characters of `s`, or all of it when it is shorter.
pub open spec fn first_chars(s: Seq<char>, n: int) -> Seq<char> {
    if s.len() <= n {
        s
    } else {
        s.subrange(0, n)
    }
}

/// `k` is the position of the first `_` of `s`.
pub open spec fn is_first_underscore(s: Seq<char>, k: int) -> bool {
    0 <= k < s.len() && s[k] == '_' && forall|j: int| 0 <= j < k ==> s[j] != '_'
}

/// The part of a run id after its first `_`, or the whole id when it has
/// none.
pub open spec fn after_first_underscore(s: Seq<char>) -> Seq<char> {
    if exists|k: int| #[trigger] is_first_underscore(s, k) {
        let k = choose|k: int| #[trigger] is_first_underscore(s, k);
        s.subrange(k + 1, s.len() as int)
    } else {
        s
    }
}

/// The name of the worker thread of a run: `coordination-<worker>-` and the
/// first eight characters of the run id's random part.
pub open spec fn worker_thread_name_of(worker_name: Seq<char>, run_id: Seq<char>) -> Seq<char> {
    "coordination-"@ + worker_name + "-"@ + first_chars(after_first_underscore(run_id), 8)
}

/// The name of the worker thread of the run `run_id`.
pub fn worker_thread_name(worker_name: &str, run_id: &str) -> (r: String)
    ensures
        r@ == worker_thread_name_of(worker_name@, run_id@),
{
    let n = run_id.unicode_len();
    let mut k: usize = 0;
    while k < n && run_id.get_char(k) != '_'
        invariant
            n == run_id@.len(),
            k <= n,
            forall|j: int| 0 <= j < k ==> run_id@[j] != '_',
        decreases n - k,
    {
        k = k + 1;
    }
    let start: usize = if k < n {
        proof {
            assert(is_first_underscore(run_id@, k as int));
            let c = choose|c: int| #[trigger] is_first_underscore(run_id@, c);
            assert(c == k) by {
                if c < k {
                    assert(run_id@[c] != '_');
                }
                if k < c {
                    assert(run_id@[k as int] != '_');
                }
            }
        }
        k + 1
    } else {
        proof {
            assert forall|c: int| !#[trigger] is_first_underscore(run_id@, c) by {
                if 0 <= c < run_id@.len() {
                    assert(run_id@[c] != '_');
                }
            }
            assert(run_id@.subrange(0, n as int) =~= run_id@);
        }
        0
    };
    let tail = crate::text::suffix_from(run_id, start);
    let end: usize = if n - start <= 8 { n - start } else { 8 };
    let short = crate::text::prefix_to(tail.as_str(), end);
    proof {
        assert(tail@ == after_first_underscore(run_id@));
        if tail@.len() <= 8 {
            assert(tail@.subrange(0, end as int) =~= tail@);
        }
    }
    let mut name = String::from_str("coordination-");
    name.append(worker_name);
    name.append("-");
    name.append(short.as_str());
    name
}

/// The id of a run of `kind` with random part `suffix`: the kind's prefix,
/// `_`, then the suffix.
pub fn run_id_for(kind: CoordinationRunKind, suffix: &str) -> (r: String)
    ensures
        r@ == id_prefix_of(kind) + "_"@ + suffix@,
{
    let mut s = to_owned_string(kind.id_prefix());
    s.append("_");
    s.append(suffix);
    s
}


/// A run that is still running survives every prune, whatever the time and
/// the TTL, unchanged.
pub proof fn lemma_running_run_survives_pruning(
    runs: Map<Seq<char>, RunView>,
    id: Seq<char>,
    ttl_ms: u64,
    now: u64,
)
    requires
        runs.contains_key(id),
        runs[id].terminal_at is None,
    ensures
        pruned(runs, ttl_ms, now).contains_key(id),
        pruned(runs, ttl_ms, now)[id] == runs[id],
{
}

/// A run that ended at `t` stays visible while no more than the TTL has
/// passed since, and is pruned once more has.
pub proof fn lemma_terminal_run_expires_after_ttl(
    runs: Map<Seq<char>, RunView>,
    id: Seq<char>,
    ttl_ms: u64,
    now: u64,
    t: u64,
)
    requires
        runs.contains_key(id),
        runs[id].terminal_at == Some(t),
    ensures
        pruned(runs, ttl_ms, now).contains_key(id) <==> elapsed(now, t) <= ttl_ms,
{
}

/// Pruning only removes runs: what survives is what was there.
pub proof fn lemma_pruning_only_removes(runs: Map<Seq<char>, RunView>, ttl_ms: u64, now: u64)
    ensures
        pruned(runs, ttl_ms, now).submap_of(runs),
{
}

/// A terminal run is final: recording progress on it, completing it or
/// failing it is refused as already terminal, and leaves the registry as it
/// was.
pub proof fn lemma_terminal_run_is_final(runs: Map<Seq<char>, RunView>, id: Seq<char>)
    requires
        runs.contains_key(id),
        !(runs[id].outcome is Running),
    ensures
        unavailable(runs, id) == Some(terminal_message(id)),
{
}

/// Completing a run with a report of another kind still ends it: the run
/// fails at that moment with the refusal as its error, its recorded steps
/// kept, so it expires like any terminal run.
pub proof fn lemma_wrong_report_ends_the_run(
    before: Map<Seq<char>, RunView>,
    after: Map<Seq<char>, RunView>,
    id: Seq<char>,
    report: ReportView,
    now: u64,
    r: Result<(), String>,
)
    requires
        before.contains_key(id),
        report_kind(report) != before[id].kind,
        completion(before, after, id, report, now, r),
    ensures
        r is Err,
        after.contains_key(id),
        after[id].outcome == OutcomeView::Failed(r->Err_0),
        (r->Err_0)@ == wrong_report_message(before[id].kind, id),
        after[id].terminal_at == Some(now),
        after[id].kind == before[id].kind,
        after[id].steps == before[id].steps,
{
}

/// Each report belongs to the run kind of the same name: an initialize
/// report to an initialize-team run, a remove-member report to a
/// remove-member run, and so on for every kind.
pub proof fn lemma_each_report_belongs_to_its_own_kind(r: ReportView)
    ensures
        r is Initialize ==> report_kind(r) == CoordinationRunKind::InitializeTeam,
        r is AddAgent ==> report_kind(r) == CoordinationRunKind::AddAgent,
        r is ResumeMember ==> report_kind(r) == CoordinationRunKind::ResumeMember,
        r is ResumeTeam ==> report_kind(r) == CoordinationRunKind::ResumeTeam,
        r is Reonboard ==> report_kind(r) == CoordinationRunKind::Reonboard,
        r is CreateTeam ==> report_kind(r) == CoordinationRunKind::CreateTeam,
        r is DisbandTeam ==> report_kind(r) == CoordinationRunKind::DisbandTeam,
        r is AddMember ==> report_kind(r) == CoordinationRunKind::AddMember,
        r is RemoveMember ==> report_kind(r) == CoordinationRunKind::RemoveMember,
        r is ApplyTaskEffort ==> report_kind(r) == CoordinationRunKind::ApplyTaskEffort,
{
}

/// A run kind takes one kind of report only: two reports that the same kind
/// accepts are of the same variant.
pub proof fn lemma_a_kind_accepts_one_report_variant(a: ReportView, b: ReportView)
    ensures
        report_kind(a) == report_kind(b) ==> (a is Initialize <==> b is Initialize),
        report_kind(a) == report_kind(b) ==> (a is AddAgent <==> b is AddAgent),
        report_kind(a) == report_kind(b) ==> (a is ResumeMember <==> b is ResumeMember),
        report_kind(a) == report_kind(b) ==> (a is ResumeTeam <==> b is ResumeTeam),
        report_kind(a) == report_kind(b) ==> (a is Reonboard <==> b is Reonboard),
        report_kind(a) == report_kind(b) ==> (a is CreateTeam <==> b is CreateTeam),
        report_kind(a) == report_kind(b) ==> (a is DisbandTeam <==> b is DisbandTeam),
        report_kind(a) == report_kind(b) ==> (a is AddMember <==> b is AddMember),
        report_kind(a) == report_kind(b) ==> (a is RemoveMember <==> b is RemoveMember),
        report_kind(a) == report_kind(b) ==> (a is ApplyTaskEffort <==> b is ApplyTaskEffort),
{
}

} // verus!
