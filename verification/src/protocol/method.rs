//! The method names of the daemon's wire protocol.

use vstd::prelude::*;

verus! {

pub const PING: &'static str = "ping";

pub const GIT_STATUS: &'static str = "git_status";

pub const GIT_LOG: &'static str = "git_log";

pub const GIT_LATEST_COMMIT_TIME: &'static str = "git_latest_commit_time";

pub const FILE_TREE: &'static str = "file_tree";

pub const READ_FILE: &'static str = "read_file";

pub const READ_README: &'static str = "read_readme";

pub const READ_ASSET: &'static str = "read_asset";

pub const LIST_DIRECTORY: &'static str = "list_directory";

pub const SCAN_SESSIONS: &'static str = "scan_sessions";

pub const LIST_RUNTIME_SESSIONS: &'static str = "list_runtime_sessions";

pub const WATCH: &'static str = "watch";

pub const UNWATCH: &'static str = "unwatch";

pub const SHUTDOWN: &'static str = "shutdown";

pub const LIST_ACCOUNTS: &'static str = "list_accounts";

pub const PROJECT_TRANSCRIPT: &'static str = "project_transcript";

pub const RESOLVE_LAUNCH_BASE: &'static str = "resolve_launch_base";

pub const REFRESH_USAGE: &'static str = "refresh_usage";

pub const LIST_WORKFLOW_RUNS: &'static str = "list_workflow_runs";

pub const GET_WORKFLOW_RUN: &'static str = "get_workflow_run";

pub const COORDINATION_INITIALIZE_TEAM: &'static str = "coordination.initialize_team";

pub const COORDINATION_INITIALIZE_STATUS: &'static str = "coordination.initialize_status";

pub const COORDINATION_ADD_AGENT: &'static str = "coordination.add_agent";

pub const COORDINATION_ADD_AGENT_STATUS: &'static str = "coordination.add_agent_status";

pub const COORDINATION_RESUME_MEMBER: &'static str = "coordination.resume_member";

pub const COORDINATION_RESUME_MEMBER_STATUS: &'static str = "coordination.resume_member_status";

pub const COORDINATION_RESUME_TEAM: &'static str = "coordination.resume_team";

pub const COORDINATION_RESUME_TEAM_STATUS: &'static str = "coordination.resume_team_status";

pub const COORDINATION_REONBOARD: &'static str = "coordination.reonboard";

pub const COORDINATION_REONBOARD_STATUS: &'static str = "coordination.reonboard_status";

pub const COORDINATION_CREATE_TEAM: &'static str = "coordination.create_team";

pub const COORDINATION_CREATE_TEAM_STATUS: &'static str = "coordination.create_team_status";

pub const COORDINATION_DISBAND_TEAM: &'static str = "coordination.disband_team";

pub const COORDINATION_DISBAND_TEAM_STATUS: &'static str = "coordination.disband_team_status";

pub const COORDINATION_ADD_MEMBER: &'static str = "coordination.add_member";

pub const COORDINATION_ADD_MEMBER_STATUS: &'static str = "coordination.add_member_status";

pub const COORDINATION_REMOVE_MEMBER: &'static str = "coordination.remove_member";

pub const COORDINATION_REMOVE_MEMBER_STATUS: &'static str = "coordination.remove_member_status";

pub const COORDINATION_PUT_LAUNCH_SETTINGS: &'static str = "coordination.put_launch_settings";

pub const COORDINATION_APPLY_TASK_EFFORT: &'static str = "coordination.apply_task_effort";

pub const COORDINATION_APPLY_TASK_EFFORT_STATUS: &'static str = "coordination.apply_task_effort_status";

pub const COORDINATION_PUBLISH_OPERATIONAL_SNAPSHOTS: &'static str = "coordination.publish_operational_snapshots";

pub const COORDINATION_RECONCILE_LIVE_PRESENCE: &'static str = "coordination.reconcile_live_presence";

pub const COORDINATION_SET_ACTIVE_PROJECT_TEAM: &'static str = "coordination.set_active_project_team";

pub const LIST_DISPLAY_SESSIONS: &'static str = "list_display_sessions";

pub const GET_RUNTIME_SESSION_SNAPSHOT: &'static str = "get_runtime_session_snapshot";

pub const WAIT_SESSION_UPDATES: &'static str = "wait_session_updates";

pub const LAUNCH_SESSION: &'static str = "launch_session";

pub const STOP_SESSION: &'static str = "stop_session";

pub const NAVIGATE_TO_SESSION: &'static str = "navigate_to_session";

pub const GET_PROJECT_TASKS: &'static str = "get_project_tasks";

pub const GIT_COMMITS_IN_RANGE: &'static str = "git_commits_in_range";

pub const GIT_COMMIT_FILES: &'static str = "git_commit_files";

pub const GIT_COMMIT_DIFF: &'static str = "git_commit_diff";

} // verus!
