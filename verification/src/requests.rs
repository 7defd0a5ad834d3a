//! Coordination requests and reports as the daemon carries them: what a run
//! is asked to do, the progress it records and the report it ends with.

use vstd::prelude::*;

verus! {

/// The state of one pipeline step.
#[derive(Debug, Clone, Copy, PartialEq, Eq, Structural)]
pub enum StepStatus {
    Running,
    Succeeded,
    Failed,
}

/// Progress of one named pipeline step.
#[derive(Debug, Clone, PartialEq, Eq)]
pub struct StepProgress {
    pub step: String,
    pub status: StepStatus,
    pub message: Option<String>,
}

/// Progress of one member during a team resume.
#[derive(Debug, Clone, PartialEq, Eq)]
pub struct ResumeTeamProgress {
    pub member_name: String,
    pub status: StepStatus,
    pub message: Option<String>,
}

/// The report of a finished team initialization.
#[derive(Debug, Clone, PartialEq, Eq)]
pub struct InitializeReport {
    pub team_name: String,
    pub succeeded_steps: Vec<String>,
    pub failed_step: Option<String>,
    pub retryable: bool,
    pub message: String,
    pub steps: Vec<StepProgress>,
}

/// An initialization report, as values.
pub struct InitializeReportView {
    pub team_name: String,
    pub succeeded_steps: Seq<String>,
    pub failed_step: Option<String>,
    pub retryable: bool,
    pub message: String,
    pub steps: Seq<StepProgress>,
}

impl View for InitializeReport {
    type V = InitializeReportView;

    open spec fn view(&self) -> InitializeReportView {
        InitializeReportView {
            team_name: self.team_name,
            succeeded_steps: self.succeeded_steps@,
            failed_step: self.failed_step,
            retryable: self.retryable,
            message: self.message,
            steps: self.steps@,
        }
    }
}

/// The report of a hot-added agent.
#[derive(Debug, Clone, PartialEq, Eq)]
pub struct AddAgentReport {
    pub team_name: String,
    pub member_name: String,
    pub message: String,
}

/// The report of a resumed member.
#[derive(Debug, Clone, PartialEq, Eq)]
pub struct ResumeAgentReport {
    pub team_name: String,
    pub member_name: String,
    pub message: String,
}

/// The report of a resumed team.
#[derive(Debug, Clone, PartialEq, Eq)]
pub struct ResumeTeamReport {
    pub team_name: String,
    pub message: String,
}

/// The result of a reonboarding delivery.
#[derive(Debug, Clone, PartialEq, Eq)]
pub struct DeliveryResult {
    pub delivered: bool,
    pub message: String,
}

/// The report of a team disband.
#[derive(Debug, Clone, PartialEq, Eq)]
pub struct DisbandTeamReport {
    pub team_name: String,
    pub disbanded: bool,
    pub already_disbanded: bool,
    pub message: String,
}

/// The report of a member removed from a roster.
#[derive(Debug, Clone, PartialEq, Eq)]
pub struct StopMemberReport {
    pub team_name: String,
    pub member_name: String,
    pub removed: bool,
    pub message: String,
    pub steps: Vec<StepProgress>,
    pub warnings: Vec<String>,
}

/// A member-removal report, as values.
pub struct StopMemberReportView {
    pub team_name: String,
    pub member_name: String,
    pub removed: bool,
    pub message: String,
    pub steps: Seq<StepProgress>,
    pub warnings: Seq<String>,
}

impl View for StopMemberReport {
    type V = StopMemberReportView;

    open spec fn view(&self) -> StopMemberReportView {
        StopMemberReportView {
            team_name: self.team_name,
            member_name: self.member_name,
            removed: self.removed,
            message: self.message,
            steps: self.steps@,
            warnings: self.warnings@,
        }
    }
}

/// How a new team lead is brought up.
#[derive(Debug, Clone, Copy, PartialEq, Eq, Structural)]
pub enum LeadMode {
    LaunchNew,
}

/// One agent of a team definition.
#[derive(Debug, Clone, PartialEq, Eq)]
pub struct AgentDefinition {
    pub name: String,
    pub cli_tool: String,
    pub model: String,
    pub reasoning_effort: Option<String>,
    pub project_id: String,
    pub description: Option<String>,
    pub role_id: Option<String>,
    pub role_name: Option<String>,
    pub focus_area: Option<String>,
    pub context_summary: Option<String>,
    pub behavior_summary: Option<String>,
    pub communication_style: Option<String>,
    pub runtime_compact_summary: Option<String>,
    pub instructions: Option<String>,
    pub behavioral_contract: Option<String>,
    pub quality_gates: Option<String>,
    pub handoff_expectations: Option<String>,
    pub definition_of_done: Option<String>,
    pub phase_scope: Option<String>,
    pub mode: Option<String>,
    pub inherits_from: Option<String>,
    pub required_artifacts: Option<String>,
    pub capabilities: Option<String>,
}

/// A request to initialize a team.
#[derive(Debug, Clone, PartialEq, Eq)]
pub struct InitializeTeamRequest {
    pub team_name: String,
    pub team_description: Option<String>,
    pub lead_mode: LeadMode,
    pub lead: AgentDefinition,
    pub agents: Vec<AgentDefinition>,
}

/// A request to hot-add an agent to a team.
#[derive(Debug, Clone, PartialEq, Eq)]
pub struct AddAgentRequest {
    pub team_name: String,
    pub agent: AgentDefinition,
}

/// A request to resume one member.
#[derive(Debug, Clone, PartialEq, Eq)]
pub struct ResumeMemberRequest {
    pub team_name: String,
    pub member_name: String,
    pub reasoning_effort_override: Option<String>,
}

/// A request to resume a whole team.
#[derive(Debug, Clone, PartialEq, Eq)]
pub struct ResumeTeamRequest {
    pub team_name: String,
}

/// A request to re-deliver onboarding to a member.
#[derive(Debug, Clone, PartialEq, Eq)]
pub struct ReonboardRequest {
    pub team_name: String,
    pub member_name: String,
}

/// A request to create a standalone team.
#[derive(Debug, Clone, PartialEq, Eq)]
pub struct CreateTeamRequest {
    pub team_name: String,
}

/// A request to disband a team.
#[derive(Debug, Clone, PartialEq, Eq)]
pub struct DisbandTeamRequest {
    pub team_name: String,
}

/// A config-only roster addition.
#[derive(Debug, Clone, PartialEq, Eq)]
pub struct AddMemberRequest {
    pub team_name: String,
    pub member_name: String,
    pub backend_kind: String,
    pub project_path: Option<String>,
}

/// A roster removal.
#[derive(Debug, Clone, PartialEq, Eq)]
pub struct RemoveMemberRequest {
    pub team_name: String,
    pub member_name: String,
}

/// The operational context a member works in, as published by the app.
#[derive(Debug, Clone, PartialEq, Eq)]
pub struct OperationalContextSnapshot {
    pub version: u32,
    pub team_name: String,
    pub member_name: String,
    /// Milliseconds since the Unix epoch.
    pub updated_at_ms: i64,
    pub project_path: String,
}

/// A copy of an optional string.
pub fn copy_opt_string(s: &Option<String>) -> (r: Option<String>)
    ensures
        r == *s,
{
    match s {
        Some(v) => Some(v.clone()),
        None => None,
    }
}

impl StepProgress {
    /// A field-by-field copy.
    pub fn copy(&self) -> (r: Self)
        ensures
            r == *self,
    {
        StepProgress { step: self.step.clone(), status: self.status, message: copy_opt_string(&self.message) }
    }
}

impl ResumeTeamProgress {
    /// A field-by-field copy.
    pub fn copy(&self) -> (r: Self)
        ensures
            r == *self,
    {
        ResumeTeamProgress {
            member_name: self.member_name.clone(),
            status: self.status,
            message: copy_opt_string(&self.message),
        }
    }
}

/// A copy of a list of strings.
pub fn copy_strings(v: &Vec<String>) -> (r: Vec<String>)
    ensures
        r@ == v@,
{
    let mut out: Vec<String> = Vec::new();
    let mut i: usize = 0;
    while i < v.len()
        invariant
            i <= v.len(),
            out@ == v@.subrange(0, i as int),
        decreases v.len() - i,
    {
        out.push(v[i].clone());
        assert(v@.subrange(0, i + 1) == v@.subrange(0, i as int).push(v@[i as int]));
        i = i + 1;
    }
    assert(v@.subrange(0, v.len() as int) == v@);
    out
}

/// A copy of a list of string pairs.
pub fn copy_string_pairs(v: &Vec<(String, String)>) -> (r: Vec<(String, String)>)
    ensures
        r@ == v@,
{
    let mut out: Vec<(String, String)> = Vec::new();
    let mut i: usize = 0;
    while i < v.len()
        invariant
            i <= v.len(),
            out@ == v@.subrange(0, i as int),
        decreases v.len() - i,
    {
        let pair = (v[i].0.clone(), v[i].1.clone());
        out.push(pair);
        assert(v@.subrange(0, i + 1) == v@.subrange(0, i as int).push(v@[i as int]));
        i = i + 1;
    }
    assert(v@.subrange(0, v.len() as int) == v@);
    out
}

/// A copy of a list of step progress entries.
pub fn copy_steps(v: &Vec<StepProgress>) -> (r: Vec<StepProgress>)
    ensures
        r@ == v@,
{
    let mut out: Vec<StepProgress> = Vec::new();
    let mut i: usize = 0;
    while i < v.len()
        invariant
            i <= v.len(),
            out@ == v@.subrange(0, i as int),
        decreases v.len() - i,
    {
        out.push(v[i].copy());
        assert(v@.subrange(0, i + 1) == v@.subrange(0, i as int).push(v@[i as int]));
        i = i + 1;
    }
    assert(v@.subrange(0, v.len() as int) == v@);
    out
}

/// A copy of a list of team-resume progress entries.
pub fn copy_resume_team_steps(v: &Vec<ResumeTeamProgress>) -> (r: Vec<ResumeTeamProgress>)
    ensures
        r@ == v@,
{
    let mut out: Vec<ResumeTeamProgress> = Vec::new();
    let mut i: usize = 0;
    while i < v.len()
        invariant
            i <= v.len(),
            out@ == v@.subrange(0, i as int),
        decreases v.len() - i,
    {
        out.push(v[i].copy());
        assert(v@.subrange(0, i + 1) == v@.subrange(0, i as int).push(v@[i as int]));
        i = i + 1;
    }
    assert(v@.subrange(0, v.len() as int) == v@);
    out
}

impl InitializeReport {
    /// A field-by-field copy.
    pub fn copy(&self) -> (r: Self)
        ensures
            r@ == self@,
    {
        InitializeReport {
            team_name: self.team_name.clone(),
            succeeded_steps: copy_strings(&self.succeeded_steps),
            failed_step: copy_opt_string(&self.failed_step),
            retryable: self.retryable,
            message: self.message.clone(),
            steps: copy_steps(&self.steps),
        }
    }
}

impl AddAgentReport {
    /// A field-by-field copy.
    pub fn copy(&self) -> (r: Self)
        ensures
            r == *self,
    {
        AddAgentReport {
            team_name: self.team_name.clone(),
            member_name: self.member_name.clone(),
            message: self.message.clone(),
        }
    }
}

impl ResumeAgentReport {
    /// A field-by-field copy.
    pub fn copy(&self) -> (r: Self)
        ensures
            r == *self,
    {
        ResumeAgentReport {
            team_name: self.team_name.clone(),
            member_name: self.member_name.clone(),
            message: self.message.clone(),
        }
    }
}

impl ResumeTeamReport {
    /// A field-by-field copy.
    pub fn copy(&self) -> (r: Self)
        ensures
            r == *self,
    {
        ResumeTeamReport { team_name: self.team_name.clone(), message: self.message.clone() }
    }
}

impl DeliveryResult {
    /// A field-by-field copy.
    pub fn copy(&self) -> (r: Self)
        ensures
            r == *self,
    {
        DeliveryResult { delivered: self.delivered, message: self.message.clone() }
    }
}

impl DisbandTeamReport {
    /// A field-by-field copy.
    pub fn copy(&self) -> (r: Self)
        ensures
            r == *self,
    {
        DisbandTeamReport {
            team_name: self.team_name.clone(),
            disbanded: self.disbanded,
            already_disbanded: self.already_disbanded,
            message: self.message.clone(),
        }
    }
}

impl StopMemberReport {
    /// A field-by-field copy.
    pub fn copy(&self) -> (r: Self)
        ensures
            r@ == self@,
    {
        StopMemberReport {
            team_name: self.team_name.clone(),
            member_name: self.member_name.clone(),
            removed: self.removed,
            message: self.message.clone(),
            steps: copy_steps(&self.steps),
            warnings: copy_strings(&self.warnings),
        }
    }
}

} // verus!
