//! Sessions of members whose CLI runs under a daemon-owned host: which
//! scanned session is a hosted member's seat, and the session reported for
//! a host that cannot be reached.

use vstd::prelude::*;
use crate::cli_tool::CliTool;
use crate::session_activity::{opt_str_eq, opt_view};
use crate::sessions::{RuntimeSession, SessionGroupKind};

verus! {

/// Two sessions are the same seat: the same project, group and member.
pub open spec fn is_same_seat(a: RuntimeSession, b: RuntimeSession) -> bool {
    a.project_path@ == b.project_path@ && opt_view(a.group_id) == opt_view(b.group_id) && opt_view(a.member_name)
        == opt_view(b.member_name)
}

/// Whether two sessions are the same seat.
pub fn same_seat(a: &RuntimeSession, b: &RuntimeSession) -> (r: bool)
    ensures
        r == is_same_seat(*a, *b),
{
    let same_group = opt_str_eq(&a.group_id, &b.group_id);
    let same_member = opt_str_eq(&a.member_name, &b.member_name);
    a.project_path == b.project_path && same_group && same_member
}

/// What the scanner knows of a process.
#[derive(Debug, Clone, PartialEq, Eq)]
pub struct ProcessInfo {
    pub pid: u32,
    pub project_path: String,
    pub tty: String,
    pub args: String,
    pub cli_tool: CliTool,
}

/// The session reported for a process whose host cannot be reached: the
/// process's identity, the pane, the host thread as its session id, and the
/// source `host_unavailable`; nothing else is known of it.
pub fn remote_session(process: &ProcessInfo, pane: Option<&str>, thread: &str) -> (r: RuntimeSession)
    ensures
        r.pid == process.pid,
        r.project_path == process.project_path,
        r.tty == process.tty,
        r.args == process.args,
        r.cli_tool == process.cli_tool,
        (match r.tmux_pane { Some(p) => Some(p@), None => None }) == (match pane { Some(p) => Some(p@), None => None }),
        r.session_id matches Some(s) && s@ == thread@,
        r.source matches Some(s) && s@ == "host_unavailable"@,
        r.tmux_session is None && r.tmux_window is None && r.tmux_window_name is None,
        r.jsonl_path is None && r.group_id is None && r.group_label is None && r.member_name is None,
        r.group_kind == SessionGroupKind::Standalone,
{
    RuntimeSession {
        pid: process.pid,
        project_path: process.project_path.clone(),
        tty: process.tty.clone(),
        args: process.args.clone(),
        cli_tool: process.cli_tool,
        tmux_session: None,
        tmux_window: None,
        tmux_pane: match pane {
            Some(p) => Some(String::from_str(p)),
            None => None,
        },
        tmux_window_name: None,
        session_id: Some(String::from_str(thread)),
        jsonl_path: None,
        source: Some(String::from_str("host_unavailable")),
        group_kind: SessionGroupKind::Standalone,
        group_id: None,
        group_label: None,
        member_name: None,
    }
}

} // verus!
