//! The session scanner's records as the daemon's hub holds them.

use vstd::prelude::*;
use crate::cli_tool::CliTool;

verus! {

/// Coarse activity state of a CLI session.
#[derive(Debug, Clone, Copy, PartialEq, Eq, Structural)]
pub enum SessionState {
    Active,
    Idle,
}

/// How confident the scanner is in a session's activity reading.
#[derive(Debug, Clone, Copy, PartialEq, Eq, Structural)]
pub enum ActivityConfidence {
    Low,
    Medium,
    High,
}

/// Whether the activity was attributed to this session.
#[derive(Debug, Clone, Copy, PartialEq, Eq, Structural)]
pub enum ActivityAttribution {
    NotAttributed,
    Attributed,
}

/// Whether a session stands alone or belongs to a mesh team.
#[derive(Debug, Clone, Copy, PartialEq, Eq, Structural)]
pub enum SessionGroupKind {
    Standalone,
    MeshTeam,
}

/// Workflow runs under one session: how many are live, and when one last
/// wrote (milliseconds since the epoch).
#[derive(Debug, Clone, Copy, PartialEq, Eq, Structural)]
pub struct WorkflowActivity {
    pub live_runs: u32,
    pub last_write_at: u64,
}

/// The tmux client focus: session, window index and pane.
#[derive(Debug, Clone, PartialEq, Eq)]
pub struct TmuxFocus {
    pub session: String,
    pub window_index: String,
    pub pane_id: String,
}

/// One session as the UI shows it.
#[derive(Debug, Clone, PartialEq)]
pub struct DisplaySession {
    pub pid: u32,
    pub project_path: String,
    pub tty: String,
    pub args: String,
    pub cli_tool: CliTool,
    pub tmux_session: Option<String>,
    pub tmux_window: Option<String>,
    pub tmux_pane: Option<String>,
    pub tmux_window_name: Option<String>,
    pub state: SessionState,
    pub recent_io: bool,
    pub last_output_age_secs: Option<u64>,
    pub activity_confidence: ActivityConfidence,
    pub activity_attribution: ActivityAttribution,
    pub project_unattributed_active: bool,
    pub group_kind: SessionGroupKind,
    pub group_id: Option<String>,
    pub group_label: Option<String>,
    pub member_name: Option<String>,
    pub workflow_activity: Option<WorkflowActivity>,
}

/// One session with the runtime metadata coordination correlates on.
#[derive(Debug, Clone, PartialEq)]
pub struct RuntimeSession {
    pub pid: u32,
    pub project_path: String,
    pub tty: String,
    pub args: String,
    pub cli_tool: CliTool,
    pub tmux_session: Option<String>,
    pub tmux_window: Option<String>,
    pub tmux_pane: Option<String>,
    pub tmux_window_name: Option<String>,
    pub session_id: Option<String>,
    pub jsonl_path: Option<String>,
    pub source: Option<String>,
    pub group_kind: SessionGroupKind,
    pub group_id: Option<String>,
    pub group_label: Option<String>,
    pub member_name: Option<String>,
}

/// An account binding observed beside a live session.
#[derive(Debug, Clone, PartialEq, Eq)]
pub struct LiveAccountObservation {
    pub project_path: String,
    pub tool: CliTool,
    pub account_id: String,
}

/// A copy of an optional string.
pub fn clone_opt_string(s: &Option<String>) -> (r: Option<String>)
    ensures
        r == *s,
{
    match s {
        Some(v) => Some(v.clone()),
        None => None,
    }
}

impl TmuxFocus {
    /// A field-by-field copy.
    pub fn copy(&self) -> (r: Self)
        ensures
            r == *self,
    {
        TmuxFocus {
            session: self.session.clone(),
            window_index: self.window_index.clone(),
            pane_id: self.pane_id.clone(),
        }
    }
}

/// A copy of an optional focus.
pub fn clone_opt_focus(f: &Option<TmuxFocus>) -> (r: Option<TmuxFocus>)
    ensures
        r == *f,
{
    match f {
        Some(v) => Some(v.copy()),
        None => None,
    }
}

impl DisplaySession {
    /// A field-by-field copy.
    pub fn copy(&self) -> (r: Self)
        ensures
            r == *self,
    {
        DisplaySession {
            pid: self.pid,
            project_path: self.project_path.clone(),
            tty: self.tty.clone(),
            args: self.args.clone(),
            cli_tool: self.cli_tool,
            tmux_session: clone_opt_string(&self.tmux_session),
            tmux_window: clone_opt_string(&self.tmux_window),
            tmux_pane: clone_opt_string(&self.tmux_pane),
            tmux_window_name: clone_opt_string(&self.tmux_window_name),
            state: self.state,
            recent_io: self.recent_io,
            last_output_age_secs: self.last_output_age_secs,
            activity_confidence: self.activity_confidence,
            activity_attribution: self.activity_attribution,
            project_unattributed_active: self.project_unattributed_active,
            group_kind: self.group_kind,
            group_id: clone_opt_string(&self.group_id),
            group_label: clone_opt_string(&self.group_label),
            member_name: clone_opt_string(&self.member_name),
            workflow_activity: self.workflow_activity,
        }
    }
}

impl RuntimeSession {
    /// A field-by-field copy.
    pub fn copy(&self) -> (r: Self)
        ensures
            r == *self,
    {
        RuntimeSession {
            pid: self.pid,
            project_path: self.project_path.clone(),
            tty: self.tty.clone(),
            args: self.args.clone(),
            cli_tool: self.cli_tool,
            tmux_session: clone_opt_string(&self.tmux_session),
            tmux_window: clone_opt_string(&self.tmux_window),
            tmux_pane: clone_opt_string(&self.tmux_pane),
            tmux_window_name: clone_opt_string(&self.tmux_window_name),
            session_id: clone_opt_string(&self.session_id),
            jsonl_path: clone_opt_string(&self.jsonl_path),
            source: clone_opt_string(&self.source),
            group_kind: self.group_kind,
            group_id: clone_opt_string(&self.group_id),
            group_label: clone_opt_string(&self.group_label),
            member_name: clone_opt_string(&self.member_name),
        }
    }
}

impl LiveAccountObservation {
    /// A field-by-field copy.
    pub fn copy(&self) -> (r: Self)
        ensures
            r == *self,
    {
        LiveAccountObservation {
            project_path: self.project_path.clone(),
            tool: self.tool,
            account_id: self.account_id.clone(),
        }
    }
}

/// A copy of a list of display sessions.
pub fn copy_display_sessions(v: &Vec<DisplaySession>) -> (r: Vec<DisplaySession>)
    ensures
        r@ == v@,
{
    let mut out: Vec<DisplaySession> = Vec::new();
    let mut i: usize = 0;
    while i < v.len()
        invariant
            i <= v.len(),
            out@ == v@.subrange(0, i as int),
        decreases v.len() - i,
    {
        out.push(v[i].copy());
        assert(v@.subrange(0, i + 1) == v@.subrange(0, i as int).push(v@[i as int]));
        i = i + 1;
    }
    assert(v@.subrange(0, v.len() as int) == v@);
    out
}

/// A copy of a list of runtime sessions.
pub fn copy_runtime_sessions(v: &Vec<RuntimeSession>) -> (r: Vec<RuntimeSession>)
    ensures
        r@ == v@,
{
    let mut out: Vec<RuntimeSession> = Vec::new();
    let mut i: usize = 0;
    while i < v.len()
        invariant
            i <= v.len(),
            out@ == v@.subrange(0, i as int),
        decreases v.len() - i,
    {
        out.push(v[i].copy());
        assert(v@.subrange(0, i + 1) == v@.subrange(0, i as int).push(v@[i as int]));
        i = i + 1;
    }
    assert(v@.subrange(0, v.len() as int) == v@);
    out
}

/// A copy of a list of account observations.
pub fn copy_observations(v: &Vec<LiveAccountObservation>) -> (r: Vec<LiveAccountObservation>)
    ensures
        r@ == v@,
{
    let mut out: Vec<LiveAccountObservation> = Vec::new();
    let mut i: usize = 0;
    while i < v.len()
        invariant
            i <= v.len(),
            out@ == v@.subrange(0, i as int),
        decreases v.len() - i,
    {
        out.push(v[i].copy());
        assert(v@.subrange(0, i + 1) == v@.subrange(0, i as int).push(v@[i as int]));
        i = i + 1;
    }
    assert(v@.subrange(0, v.len() as int) == v@);
    out
}

} // verus!
