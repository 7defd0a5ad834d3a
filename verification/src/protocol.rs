//! The daemon's wire protocol: its version, its method and event names, and
//! the parameter and result types of each method.
//!
//! `LIST_DISPLAY_SESSIONS` is the UI-safe session view and strips transcript
//! metadata; `LIST_RUNTIME_SESSIONS` keeps it and is the one to use for
//! coordination and runtime correlation. Requests and responses are paired by
//! id; events are pushed by the daemon and carry an event name instead.

pub mod method;
pub mod event;

use vstd::prelude::*;
use crate::cli_tool::CliTool;
use crate::models::{Account, CliCommandSettings, Commit, CommitFile, DiffHunk};
use crate::requests::{
    AddAgentReport, AddAgentRequest, AddMemberRequest, CreateTeamRequest, DeliveryResult,
    DisbandTeamReport, DisbandTeamRequest, InitializeReport, InitializeTeamRequest,
    OperationalContextSnapshot, ReonboardRequest, RemoveMemberRequest, ResumeAgentReport,
    ResumeMemberRequest, ResumeTeamProgress, ResumeTeamReport, ResumeTeamRequest, StepProgress,
    StopMemberReport,
};
use crate::sessions::{DisplaySession, LiveAccountObservation, RuntimeSession, TmuxFocus};

verus! {

/// Protocol version. It moves whenever the daemon API changes in a way that
/// needs the app rebuilt against the new daemon; the app checks it on
/// connect and warns when the daemon's is lower than the one it expects.
pub const PROTOCOL_VERSION: u32 = 22;

/// An error payload of a response.
#[derive(Debug, Clone, PartialEq, Eq)]
pub struct DaemonError {
    pub code: String,
    pub message: String,
}

/// `list_accounts`: the tool accounts the daemon's host can see.
#[derive(Debug, Clone, PartialEq, Eq)]
pub struct ListAccountsParams {
    pub tool: CliTool,
}

#[derive(Debug, Clone, PartialEq, Eq)]
pub struct AccountsResult {
    pub accounts: Vec<Account>,
    pub degraded: bool,
    pub error: Option<String>,
}

/// `project_transcript`: which account owns a project's history.
#[derive(Debug, Clone, PartialEq, Eq)]
pub struct ProjectTranscriptParams {
    pub tool: CliTool,
    pub project: String,
}

#[derive(Debug, Clone, PartialEq, Eq)]
pub struct ProjectTranscriptResult {
    pub transcript: Option<String>,
}

/// `resolve_launch_base`: what the daemon host's pane shell makes of a
/// configured base command.
#[derive(Debug, Clone, PartialEq, Eq)]
pub struct ResolveLaunchBaseParams {
    pub tool: CliTool,
    pub base: String,
    pub force: bool,
}

/// The self-contained team initialization intent.
#[derive(Debug, Clone, PartialEq, Eq)]
pub struct CoordinationInitializeParams {
    pub request: InitializeTeamRequest,
    pub cli_commands: CliCommandSettings,
    pub tmux_layout: String,
    pub operational_snapshots: Vec<OperationalContextSnapshot>,
}

/// The run a team initialization was accepted as.
#[derive(Debug, Clone, PartialEq, Eq)]
pub struct CoordinationInitializeAccepted {
    pub run_id: String,
}

#[derive(Debug, Clone, PartialEq, Eq)]
pub struct CoordinationInitializeStatusParams {
    pub run_id: String,
}

/// Where a team initialization run stands.
#[derive(Debug, Clone, PartialEq, Eq)]
pub enum CoordinationInitializeOutcome {
    Running,
    Completed { report: InitializeReport },
    Failed { error: String },
}

/// The status of a team initialization run.
#[derive(Debug, Clone, PartialEq, Eq)]
pub struct CoordinationInitializeStatus {
    pub run_id: String,
    pub steps: Vec<StepProgress>,
    pub outcome: CoordinationInitializeOutcome,
}

/// The self-contained agent hot-add intent.
#[derive(Debug, Clone, PartialEq, Eq)]
pub struct CoordinationAddAgentParams {
    pub request: AddAgentRequest,
    pub cli_commands: CliCommandSettings,
    pub tmux_layout: String,
    pub operational_snapshot: Option<OperationalContextSnapshot>,
    pub task_state_changed_at_ms: Option<i64>,
}

/// The run a agent hot-add was accepted as.
#[derive(Debug, Clone, PartialEq, Eq)]
pub struct CoordinationAddAgentAccepted {
    pub run_id: String,
}

#[derive(Debug, Clone, PartialEq, Eq)]
pub struct CoordinationAddAgentStatusParams {
    pub run_id: String,
}

/// Where a agent hot-add run stands.
#[derive(Debug, Clone, PartialEq, Eq)]
pub enum CoordinationAddAgentOutcome {
    Running,
    Completed { report: AddAgentReport },
    Failed { error: String },
}

/// The status of a agent hot-add run.
#[derive(Debug, Clone, PartialEq, Eq)]
pub struct CoordinationAddAgentStatus {
    pub run_id: String,
    pub steps: Vec<StepProgress>,
    pub outcome: CoordinationAddAgentOutcome,
}

/// The self-contained member resume intent.
#[derive(Debug, Clone, PartialEq, Eq)]
pub struct CoordinationResumeMemberParams {
    pub request: ResumeMemberRequest,
    pub cli_commands: CliCommandSettings,
    pub tmux_layout: String,
    pub operational_snapshot: Option<OperationalContextSnapshot>,
    pub task_state_changed_at_ms: Option<i64>,
}

/// The run a member resume was accepted as.
#[derive(Debug, Clone, PartialEq, Eq)]
pub struct CoordinationResumeMemberAccepted {
    pub run_id: String,
}

#[derive(Debug, Clone, PartialEq, Eq)]
pub struct CoordinationResumeMemberStatusParams {
    pub run_id: String,
}

/// Where a member resume run stands.
#[derive(Debug, Clone, PartialEq, Eq)]
pub enum CoordinationResumeMemberOutcome {
    Running,
    Completed { report: ResumeAgentReport },
    Failed { error: String },
}

/// The status of a member resume run.
#[derive(Debug, Clone, PartialEq, Eq)]
pub struct CoordinationResumeMemberStatus {
    pub run_id: String,
    pub steps: Vec<StepProgress>,
    pub outcome: CoordinationResumeMemberOutcome,
}

/// The self-contained team resume intent.
#[derive(Debug, Clone, PartialEq, Eq)]
pub struct CoordinationResumeTeamParams {
    pub request: ResumeTeamRequest,
    pub cli_commands: CliCommandSettings,
    pub tmux_layout: String,
}

/// The run a team resume was accepted as.
#[derive(Debug, Clone, PartialEq, Eq)]
pub struct CoordinationResumeTeamAccepted {
    pub run_id: String,
}

#[derive(Debug, Clone, PartialEq, Eq)]
pub struct CoordinationResumeTeamStatusParams {
    pub run_id: String,
}

/// Where a team resume run stands.
#[derive(Debug, Clone, PartialEq, Eq)]
pub enum CoordinationResumeTeamOutcome {
    Running,
    Completed { report: ResumeTeamReport },
    Failed { error: String },
}

/// The status of a team resume run.
#[derive(Debug, Clone, PartialEq, Eq)]
pub struct CoordinationResumeTeamStatus {
    pub run_id: String,
    pub steps: Vec<ResumeTeamProgress>,
    pub outcome: CoordinationResumeTeamOutcome,
}

/// The self-contained reonboarding intent.
#[derive(Debug, Clone, PartialEq, Eq)]
pub struct CoordinationReonboardParams {
    pub request: ReonboardRequest,
    pub cli_commands: CliCommandSettings,
    pub tmux_layout: String,
    pub operational_snapshot: Option<OperationalContextSnapshot>,
    pub task_state_changed_at_ms: Option<i64>,
}

/// The run a reonboarding was accepted as.
#[derive(Debug, Clone, PartialEq, Eq)]
pub struct CoordinationReonboardAccepted {
    pub run_id: String,
}

#[derive(Debug, Clone, PartialEq, Eq)]
pub struct CoordinationReonboardStatusParams {
    pub run_id: String,
}

/// Where a reonboarding run stands.
#[derive(Debug, Clone, PartialEq, Eq)]
pub enum CoordinationReonboardOutcome {
    Running,
    Completed { report: DeliveryResult },
    Failed { error: String },
}

/// The status of a reonboarding run.
#[derive(Debug, Clone, PartialEq, Eq)]
pub struct CoordinationReonboardStatus {
    pub run_id: String,
    pub outcome: CoordinationReonboardOutcome,
}

/// The self-contained standalone team creation intent.
#[derive(Debug, Clone, PartialEq, Eq)]
pub struct CoordinationCreateTeamParams {
    pub request: CreateTeamRequest,
}

/// The run a standalone team creation was accepted as.
#[derive(Debug, Clone, PartialEq, Eq)]
pub struct CoordinationCreateTeamAccepted {
    pub run_id: String,
}

#[derive(Debug, Clone, PartialEq, Eq)]
pub struct CoordinationCreateTeamStatusParams {
    pub run_id: String,
}

/// Where a standalone team creation run stands.
#[derive(Debug, Clone, PartialEq, Eq)]
pub enum CoordinationCreateTeamOutcome {
    Running,
    Completed,
    Failed { error: String },
}

/// The status of a standalone team creation run.
#[derive(Debug, Clone, PartialEq, Eq)]
pub struct CoordinationCreateTeamStatus {
    pub run_id: String,
    pub outcome: CoordinationCreateTeamOutcome,
}

/// The self-contained team disband intent.
#[derive(Debug, Clone, PartialEq, Eq)]
pub struct CoordinationDisbandTeamParams {
    pub request: DisbandTeamRequest,
}

/// The run a team disband was accepted as.
#[derive(Debug, Clone, PartialEq, Eq)]
pub struct CoordinationDisbandTeamAccepted {
    pub run_id: String,
}

#[derive(Debug, Clone, PartialEq, Eq)]
pub struct CoordinationDisbandTeamStatusParams {
    pub run_id: String,
}

/// Where a team disband run stands.
#[derive(Debug, Clone, PartialEq, Eq)]
pub enum CoordinationDisbandTeamOutcome {
    Running,
    Completed { report: DisbandTeamReport },
    Failed { error: String },
}

/// The status of a team disband run.
#[derive(Debug, Clone, PartialEq, Eq)]
pub struct CoordinationDisbandTeamStatus {
    pub run_id: String,
    pub outcome: CoordinationDisbandTeamOutcome,
}

/// The self-contained config-only roster addition intent.
#[derive(Debug, Clone, PartialEq, Eq)]
pub struct CoordinationAddMemberParams {
    pub request: AddMemberRequest,
}

/// The run a config-only roster addition was accepted as.
#[derive(Debug, Clone, PartialEq, Eq)]
pub struct CoordinationAddMemberAccepted {
    pub run_id: String,
}

#[derive(Debug, Clone, PartialEq, Eq)]
pub struct CoordinationAddMemberStatusParams {
    pub run_id: String,
}

/// Where a config-only roster addition run stands.
#[derive(Debug, Clone, PartialEq, Eq)]
pub enum CoordinationAddMemberOutcome {
    Running,
    Completed,
    Failed { error: String },
}

/// The status of a config-only roster addition run.
#[derive(Debug, Clone, PartialEq, Eq)]
pub struct CoordinationAddMemberStatus {
    pub run_id: String,
    pub outcome: CoordinationAddMemberOutcome,
}

/// The self-contained roster removal intent.
#[derive(Debug, Clone, PartialEq, Eq)]
pub struct CoordinationRemoveMemberParams {
    pub request: RemoveMemberRequest,
}

/// The run a roster removal was accepted as.
#[derive(Debug, Clone, PartialEq, Eq)]
pub struct CoordinationRemoveMemberAccepted {
    pub run_id: String,
}

#[derive(Debug, Clone, PartialEq, Eq)]
pub struct CoordinationRemoveMemberStatusParams {
    pub run_id: String,
}

/// Where a roster removal run stands.
#[derive(Debug, Clone, PartialEq, Eq)]
pub enum CoordinationRemoveMemberOutcome {
    Running,
    Completed { report: StopMemberReport },
    Failed { error: String },
}

/// The status of a roster removal run.
#[derive(Debug, Clone, PartialEq, Eq)]
pub struct CoordinationRemoveMemberStatus {
    pub run_id: String,
    pub outcome: CoordinationRemoveMemberOutcome,
}

/// The latest app-committed launch settings, used by the daemon's retry sweep.
/// The daemon keeps the highest `version` it has seen.
#[derive(Debug, Clone, PartialEq, Eq)]
pub struct CoordinationPutLaunchSettingsParams {
    pub version: u64,
    pub cli_commands: CliCommandSettings,
    pub tmux_layout: String,
}

#[derive(Debug, Clone, PartialEq, Eq)]
pub struct CoordinationPutLaunchSettingsResult {
    pub accepted: bool,
    pub version: u64,
}

/// The self-contained task-arrival intent.
#[derive(Debug, Clone, PartialEq, Eq)]
pub struct CoordinationApplyTaskEffortParams {
    pub project_path: String,
    pub cli_commands: CliCommandSettings,
    pub tmux_layout: String,
}

#[derive(Debug, Clone, PartialEq, Eq)]
pub struct CoordinationApplyTaskEffortAccepted {
    pub run_id: String,
}

#[derive(Debug, Clone, PartialEq, Eq)]
pub struct CoordinationApplyTaskEffortStatusParams {
    pub run_id: String,
}

/// What a task-effort pass switched, failed and skipped.
#[derive(Debug, Clone, PartialEq, Eq)]
pub struct CoordinationApplyTaskEffortReport {
    pub switched: Vec<String>,
    pub failed: Vec<(String, String)>,
    pub skipped_teams: Vec<(String, String)>,
}

/// A task-effort report, as values.
pub struct ApplyTaskEffortReportView {
    pub switched: Seq<String>,
    pub failed: Seq<(String, String)>,
    pub skipped_teams: Seq<(String, String)>,
}

impl View for CoordinationApplyTaskEffortReport {
    type V = ApplyTaskEffortReportView;

    open spec fn view(&self) -> ApplyTaskEffortReportView {
        ApplyTaskEffortReportView {
            switched: self.switched@,
            failed: self.failed@,
            skipped_teams: self.skipped_teams@,
        }
    }
}

impl CoordinationApplyTaskEffortReport {
    /// A field-by-field copy.
    pub fn copy(&self) -> (r: Self)
        ensures
            r@ == self@,
    {
        CoordinationApplyTaskEffortReport {
            switched: crate::requests::copy_strings(&self.switched),
            failed: crate::requests::copy_string_pairs(&self.failed),
            skipped_teams: crate::requests::copy_string_pairs(&self.skipped_teams),
        }
    }
}

/// Where a task-effort run stands.
#[derive(Debug, Clone, PartialEq, Eq)]
pub enum CoordinationApplyTaskEffortOutcome {
    Running,
    Completed { report: CoordinationApplyTaskEffortReport },
    Failed { error: String },
}

#[derive(Debug, Clone, PartialEq, Eq)]
pub struct CoordinationApplyTaskEffortStatus {
    pub run_id: String,
    pub outcome: CoordinationApplyTaskEffortOutcome,
}

/// One operational snapshot publication, with the task timestamp carried
/// separately.
#[derive(Debug, Clone, PartialEq, Eq)]
pub struct CoordinationOperationalSnapshotPublication {
    pub snapshot: OperationalContextSnapshot,
    pub task_state_changed_at_ms: Option<i64>,
}

#[derive(Debug, Clone, PartialEq, Eq)]
pub struct CoordinationPublishOperationalSnapshotsParams {
    pub publications: Vec<CoordinationOperationalSnapshotPublication>,
}

#[derive(Debug, Clone, PartialEq, Eq)]
pub struct CoordinationPublishOperationalSnapshotsResult {
    pub published: usize,
    pub skipped: usize,
}

#[derive(Debug, Clone, PartialEq)]
pub struct CoordinationReconcileLivePresenceParams {
    pub team_name: String,
    pub runtime_sessions: Vec<RuntimeSession>,
}

/// Whether a live-presence reconciliation ran.
#[derive(Debug, Clone, Copy, PartialEq, Eq, Structural)]
pub enum CoordinationReconcileLivePresenceOutcome {
    Reconciled,
    Skipped,
}

#[derive(Debug, Clone, PartialEq, Eq)]
pub struct CoordinationReconcileLivePresenceResult {
    pub outcome: CoordinationReconcileLivePresenceOutcome,
    pub reconciled_offline_members: Vec<String>,
}

#[derive(Debug, Clone, PartialEq, Eq)]
pub struct CoordinationSetActiveProjectTeamParams {
    pub project_path: String,
    pub team_name: Option<String>,
}

#[derive(Debug, Clone, Copy, PartialEq, Eq, Structural)]
pub struct CoordinationSetActiveProjectTeamResult {}

/// `list_workflow_runs`: the completed and live runs under one session.
#[derive(Debug, Clone, PartialEq, Eq)]
pub struct WorkflowSessionParams {
    pub session_id: String,
}

/// `get_workflow_run`: one full run.
#[derive(Debug, Clone, PartialEq, Eq)]
pub struct WorkflowRunParams {
    pub session_id: String,
    pub run_id: String,
}

/// `ping`: health check. A daemon that predates `protocol_version` or
/// `data_root` answers 0 and an empty root.
#[derive(Debug, Clone, PartialEq, Eq)]
pub struct PingResult {
    pub version: String,
    pub protocol_version: u32,
    pub uptime_secs: u64,
    pub data_root: String,
}

/// `git_status` parameters.
#[derive(Debug, Clone, PartialEq, Eq)]
pub struct PathParams {
    pub path: String,
}

/// `get_project_tasks` parameters.
#[derive(Debug, Clone, PartialEq, Eq)]
pub struct ProjectTasksParams {
    pub path: String,
    pub scan_cycle_id: Option<u64>,
}

/// `git_log` parameters; `limit` defaults to 50 and `offset` to 0.
#[derive(Debug, Clone, PartialEq, Eq)]
pub struct GitLogParams {
    pub path: String,
    pub limit: usize,
    pub offset: usize,
}

/// `git_commits_in_range` parameters: RFC 3339 bounds and an optional cap.
#[derive(Debug, Clone, PartialEq, Eq)]
pub struct GitCommitsInRangeParams {
    pub path: String,
    pub after: String,
    pub before: String,
    pub commit_limit: Option<usize>,
}

#[derive(Debug, Clone, PartialEq, Eq)]
pub struct GitCommitsInRangeResult {
    pub commits: Vec<Commit>,
    pub files: Vec<String>,
    pub truncated: bool,
    pub total_count: Option<usize>,
}

#[derive(Debug, Clone, PartialEq, Eq)]
pub struct GitCommitFilesParams {
    pub path: String,
    pub hash: String,
}

#[derive(Debug, Clone, PartialEq, Eq)]
pub struct GitCommitFilesResult {
    pub files: Vec<CommitFile>,
}

#[derive(Debug, Clone, PartialEq, Eq)]
pub struct GitCommitDiffParams {
    pub path: String,
    pub hash: String,
    pub file_path: String,
}

#[derive(Debug, Clone, PartialEq, Eq)]
pub struct GitCommitDiffResult {
    pub hunks: Vec<DiffHunk>,
}

/// `read_file` parameters.
#[derive(Debug, Clone, PartialEq, Eq)]
pub struct ReadFileParams {
    pub path: String,
    pub relative: String,
}

/// `read_asset` result: the bytes, base64-encoded.
#[derive(Debug, Clone, PartialEq, Eq)]
pub struct ReadAssetResult {
    pub data: String,
}

#[derive(Debug, Clone, PartialEq, Eq)]
pub struct ScanSessionsResult {
    pub paths: Vec<String>,
}

/// `watch` and `unwatch` result.
#[derive(Debug, Clone, Copy, PartialEq, Eq, Structural)]
pub struct WatchResult {
    pub ok: bool,
}

/// `git_latest_commit_time` result: RFC 3339, or none.
#[derive(Debug, Clone, PartialEq, Eq)]
pub struct LatestCommitTimeResult {
    pub timestamp: Option<String>,
}

/// How a new session is launched.
#[derive(Debug, Clone, Copy, PartialEq, Eq, Hash, Structural)]
pub enum LaunchMode {
    /// Continue the last conversation.
    Continue,
    /// A fresh conversation.
    Fresh,
    /// Pick a conversation to resume.
    Resume,
}

/// `launch_session` parameters. `cli_tool` defaults to the default tool and
/// `tmux_layout` to "new_window".
#[derive(Debug, Clone, PartialEq, Eq)]
pub struct LaunchSessionParams {
    pub project_path: String,
    pub mode: LaunchMode,
    pub cli_tool: CliTool,
    pub tmux_layout: String,
    pub command_override: Option<String>,
}

/// `launch_session` result.
#[derive(Debug, Clone, PartialEq, Eq)]
pub struct LaunchSessionResult {
    pub tmux_session: Option<String>,
    pub tmux_window: String,
    pub tmux_pane: String,
    pub account_applied: Option<bool>,
    pub account_note: Option<String>,
    pub account_note_detail: Option<String>,
}

/// `stop_session` parameters.
#[derive(Debug, Clone, PartialEq, Eq)]
pub struct StopSessionParams {
    pub tmux_pane: String,
    pub cli_tool: CliTool,
}

/// `navigate_to_session` parameters.
#[derive(Debug, Clone, PartialEq, Eq)]
pub struct NavigateToSessionParams {
    pub tmux_session: String,
    pub tmux_window: String,
    pub tmux_pane: String,
}

/// `wait_session_updates` parameters: the client's cursors and how long to
/// wait. The cursors default to 0 and the timeout to 15 000 ms.
#[derive(Debug, Clone, Copy, PartialEq, Eq, Structural)]
pub struct WaitSessionUpdatesParams {
    pub since_version: u64,
    pub since_degraded_revision: u64,
    pub timeout_ms: u64,
}

/// `wait_session_updates` result.
#[derive(Debug, Clone, PartialEq)]
pub struct WaitSessionUpdatesResult {
    pub version: u64,
    pub changed: bool,
    pub sessions: Vec<DisplaySession>,
    pub account_observations: Vec<LiveAccountObservation>,
    pub focus: Option<TmuxFocus>,
    pub focus_project_path: Option<String>,
    pub degraded: bool,
    pub degraded_revision: u64,
}

/// `get_runtime_session_snapshot` result.
#[derive(Debug, Clone, PartialEq)]
pub struct RuntimeSessionSnapshotResult {
    pub version: u64,
    pub display_sessions: Vec<DisplaySession>,
    pub runtime_sessions: Vec<RuntimeSession>,
    pub account_observations: Vec<LiveAccountObservation>,
    pub focus: Option<TmuxFocus>,
    pub foreground_project_path: Option<String>,
    pub degraded: bool,
    pub degraded_revision: u64,
}

/// Data of a `file_changed` event.
#[derive(Debug, Clone, PartialEq, Eq)]
pub struct FileChangedData {
    pub path: String,
    pub files: Vec<String>,
}

/// Data of a `git_changed` event.
#[derive(Debug, Clone, PartialEq, Eq)]
pub struct GitChangedData {
    pub path: String,
}

/// Data of a `session_file_created` event.
#[derive(Debug, Clone, PartialEq, Eq)]
pub struct SessionFileCreatedData {
    pub path: String,
    pub file: String,
}

/// The `git_log` page size when a request names none.
pub fn default_limit() -> (r: usize)
    ensures
        r == 50,
{
    50
}

/// The tmux layout when a launch names none.
pub fn default_tmux_layout() -> (r: String)
    ensures
        r@ == "new_window"@,
{
    String::from_str("new_window")
}

/// The CLI tool when a request names none.
pub fn default_cli_tool() -> (r: CliTool)
    ensures
        r == CliTool::Claude,
{
    CliTool::default()
}

/// The long-poll timeout when a request names none.
pub fn default_wait_session_timeout_ms() -> (r: u64)
    ensures
        r == 15_000,
{
    15_000
}

} // verus!
