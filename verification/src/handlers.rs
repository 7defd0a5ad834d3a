//! Request routing: which handler answers each protocol method.

use vstd::prelude::*;
use crate::protocol::{DaemonError, PingResult, RuntimeSessionSnapshotResult, WaitSessionUpdatesResult, PROTOCOL_VERSION};
use crate::session_activity::{RuntimeSessionSnapshot, SessionUpdate};
use crate::protocol::method;
use crate::text::str_eq;

verus! {

/// The handler a request is dispatched to.
#[derive(Debug, Clone, Copy, PartialEq, Eq, Structural)]
pub enum Route {
    Ping,
    GitStatus,
    GitLog,
    GitLatestCommitTime,
    FileTree,
    ReadFile,
    ReadReadme,
    ReadAsset,
    ScanSessions,
    ListDisplaySessions,
    GetRuntimeSessionSnapshot,
    ListRuntimeSessions,
    WaitSessionUpdates,
    LaunchSession,
    StopSession,
    NavigateToSession,
    GetProjectTasks,
    GitCommitsInRange,
    GitCommitFiles,
    GitCommitDiff,
    Watch,
    Unwatch,
    Shutdown,
    ListAccounts,
    ProjectTranscript,
    RefreshUsage,
    ResolveLaunchBase,
    ListWorkflowRuns,
    GetWorkflowRun,
    CoordinationInitializeTeam,
    CoordinationInitializeStatus,
    CoordinationAddAgent,
    CoordinationAddAgentStatus,
    CoordinationResumeMember,
    CoordinationResumeMemberStatus,
    CoordinationResumeTeam,
    CoordinationResumeTeamStatus,
    CoordinationReonboard,
    CoordinationReonboardStatus,
    CoordinationCreateTeam,
    CoordinationCreateTeamStatus,
    CoordinationDisbandTeam,
    CoordinationDisbandTeamStatus,
    CoordinationAddMember,
    CoordinationAddMemberStatus,
    CoordinationRemoveMember,
    CoordinationRemoveMemberStatus,
    CoordinationPutLaunchSettings,
    CoordinationApplyTaskEffort,
    CoordinationApplyTaskEffortStatus,
    CoordinationPublishOperationalSnapshots,
    CoordinationReconcileLivePresence,
    CoordinationSetActiveProjectTeam,
}

/// The route of a method name; none for a method the daemon does not know.
pub open spec fn route_of(m: Seq<char>) -> Option<Route> {
    if m == method::PING@ {
        Some(Route::Ping)
    } else if m == method::GIT_STATUS@ {
        Some(Route::GitStatus)
    } else if m == method::GIT_LOG@ {
        Some(Route::GitLog)
    } else if m == method::GIT_LATEST_COMMIT_TIME@ {
        Some(Route::GitLatestCommitTime)
    } else if m == method::FILE_TREE@ {
        Some(Route::FileTree)
    } else if m == method::READ_FILE@ {
        Some(Route::ReadFile)
    } else if m == method::READ_README@ {
        Some(Route::ReadReadme)
    } else if m == method::READ_ASSET@ {
        Some(Route::ReadAsset)
    } else if m == method::SCAN_SESSIONS@ {
        Some(Route::ScanSessions)
    } else if m == method::LIST_DISPLAY_SESSIONS@ {
        Some(Route::ListDisplaySessions)
    } else if m == method::GET_RUNTIME_SESSION_SNAPSHOT@ {
        Some(Route::GetRuntimeSessionSnapshot)
    } else if m == method::LIST_RUNTIME_SESSIONS@ {
        Some(Route::ListRuntimeSessions)
    } else if m == method::WAIT_SESSION_UPDATES@ {
        Some(Route::WaitSessionUpdates)
    } else if m == method::LAUNCH_SESSION@ {
        Some(Route::LaunchSession)
    } else if m == method::STOP_SESSION@ {
        Some(Route::StopSession)
    } else if m == method::NAVIGATE_TO_SESSION@ {
        Some(Route::NavigateToSession)
    } else if m == method::GET_PROJECT_TASKS@ {
        Some(Route::GetProjectTasks)
    } else if m == method::GIT_COMMITS_IN_RANGE@ {
        Some(Route::GitCommitsInRange)
    } else if m == method::GIT_COMMIT_FILES@ {
        Some(Route::GitCommitFiles)
    } else if m == method::GIT_COMMIT_DIFF@ {
        Some(Route::GitCommitDiff)
    } else if m == method::WATCH@ {
        Some(Route::Watch)
    } else if m == method::UNWATCH@ {
        Some(Route::Unwatch)
    } else if m == method::SHUTDOWN@ {
        Some(Route::Shutdown)
    } else if m == method::LIST_ACCOUNTS@ {
        Some(Route::ListAccounts)
    } else if m == method::PROJECT_TRANSCRIPT@ {
        Some(Route::ProjectTranscript)
    } else if m == method::REFRESH_USAGE@ {
        Some(Route::RefreshUsage)
    } else if m == method::RESOLVE_LAUNCH_BASE@ {
        Some(Route::ResolveLaunchBase)
    } else if m == method::LIST_WORKFLOW_RUNS@ {
        Some(Route::ListWorkflowRuns)
    } else if m == method::GET_WORKFLOW_RUN@ {
        Some(Route::GetWorkflowRun)
    } else if m == method::COORDINATION_INITIALIZE_TEAM@ {
        Some(Route::CoordinationInitializeTeam)
    } else if m == method::COORDINATION_INITIALIZE_STATUS@ {
        Some(Route::CoordinationInitializeStatus)
    } else if m == method::COORDINATION_ADD_AGENT@ {
        Some(Route::CoordinationAddAgent)
    } else if m == method::COORDINATION_ADD_AGENT_STATUS@ {
        Some(Route::CoordinationAddAgentStatus)
    } else if m == method::COORDINATION_RESUME_MEMBER@ {
        Some(Route::CoordinationResumeMember)
    } else if m == method::COORDINATION_RESUME_MEMBER_STATUS@ {
        Some(Route::CoordinationResumeMemberStatus)
    } else if m == method::COORDINATION_RESUME_TEAM@ {
        Some(Route::CoordinationResumeTeam)
    } else if m == method::COORDINATION_RESUME_TEAM_STATUS@ {
        Some(Route::CoordinationResumeTeamStatus)
    } else if m == method::COORDINATION_REONBOARD@ {
        Some(Route::CoordinationReonboard)
    } else if m == method::COORDINATION_REONBOARD_STATUS@ {
        Some(Route::CoordinationReonboardStatus)
    } else if m == method::COORDINATION_CREATE_TEAM@ {
        Some(Route::CoordinationCreateTeam)
    } else if m == method::COORDINATION_CREATE_TEAM_STATUS@ {
        Some(Route::CoordinationCreateTeamStatus)
    } else if m == method::COORDINATION_DISBAND_TEAM@ {
        Some(Route::CoordinationDisbandTeam)
    } else if m == method::COORDINATION_DISBAND_TEAM_STATUS@ {
        Some(Route::CoordinationDisbandTeamStatus)
    } else if m == method::COORDINATION_ADD_MEMBER@ {
        Some(Route::CoordinationAddMember)
    } else if m == method::COORDINATION_ADD_MEMBER_STATUS@ {
        Some(Route::CoordinationAddMemberStatus)
    } else if m == method::COORDINATION_REMOVE_MEMBER@ {
        Some(Route::CoordinationRemoveMember)
    } else if m == method::COORDINATION_REMOVE_MEMBER_STATUS@ {
        Some(Route::CoordinationRemoveMemberStatus)
    } else if m == method::COORDINATION_PUT_LAUNCH_SETTINGS@ {
        Some(Route::CoordinationPutLaunchSettings)
    } else if m == method::COORDINATION_APPLY_TASK_EFFORT@ {
        Some(Route::CoordinationApplyTaskEffort)
    } else if m == method::COORDINATION_APPLY_TASK_EFFORT_STATUS@ {
        Some(Route::CoordinationApplyTaskEffortStatus)
    } else if m == method::COORDINATION_PUBLISH_OPERATIONAL_SNAPSHOTS@ {
        Some(Route::CoordinationPublishOperationalSnapshots)
    } else if m == method::COORDINATION_RECONCILE_LIVE_PRESENCE@ {
        Some(Route::CoordinationReconcileLivePresence)
    } else if m == method::COORDINATION_SET_ACTIVE_PROJECT_TEAM@ {
        Some(Route::CoordinationSetActiveProjectTeam)
    } else {
        None
    }
}

proof fn lemma_route_ping()
    ensures
        route_of("ping"@) == Some(Route::Ping),
{
    reveal_strlit("ping");
}

proof fn lemma_route_git_status()
    ensures
        route_of("git_status"@) == Some(Route::GitStatus),
{
    reveal_strlit("git_status");
    reveal_strlit("ping");
    assert("git_status"@.len() != "ping"@.len());
}

proof fn lemma_route_git_log()
    ensures
        route_of("git_log"@) == Some(Route::GitLog),
{
    reveal_strlit("git_log");
    reveal_strlit("ping");
    assert("git_log"@.len() != "ping"@.len());
    reveal_strlit("git_status");
    assert("git_log"@.len() != "git_status"@.len());
}

proof fn lemma_route_git_latest_commit_time()
    ensures
        route_of("git_latest_commit_time"@) == Some(Route::GitLatestCommitTime),
{
    reveal_strlit("git_latest_commit_time");
    reveal_strlit("ping");
    assert("git_latest_commit_time"@.len() != "ping"@.len());
    reveal_strlit("git_status");
    assert("git_latest_commit_time"@.len() != "git_status"@.len());
    reveal_strlit("git_log");
    assert("git_latest_commit_time"@.len() != "git_log"@.len());
}

proof fn lemma_route_file_tree()
    ensures
        route_of("file_tree"@) == Some(Route::FileTree),
{
    reveal_strlit("file_tree");
    reveal_strlit("ping");
    assert("file_tree"@.len() != "ping"@.len());
    reveal_strlit("git_status");
    assert("file_tree"@.len() != "git_status"@.len());
    reveal_strlit("git_log");
    assert("file_tree"@.len() != "git_log"@.len());
    reveal_strlit("git_latest_commit_time");
    assert("file_tree"@.len() != "git_latest_commit_time"@.len());
}

proof fn lemma_route_read_file()
    ensures
        route_of("read_file"@) == Some(Route::ReadFile),
{
    reveal_strlit("read_file");
    reveal_strlit("ping");
    assert("read_file"@.len() != "ping"@.len());
    reveal_strlit("git_status");
    assert("read_file"@.len() != "git_status"@.len());
    reveal_strlit("git_log");
    assert("read_file"@.len() != "git_log"@.len());
    reveal_strlit("git_latest_commit_time");
    assert("read_file"@.len() != "git_latest_commit_time"@.len());
    reveal_strlit("file_tree");
    assert("read_file"@[0] != "file_tree"@[0]);
}

proof fn lemma_route_read_readme()
    ensures
        route_of("read_readme"@) == Some(Route::ReadReadme),
{
    reveal_strlit("read_readme");
    reveal_strlit("ping");
    assert("read_readme"@.len() != "ping"@.len());
    reveal_strlit("git_status");
    assert("read_readme"@.len() != "git_status"@.len());
    reveal_strlit("git_log");
    assert("read_readme"@.len() != "git_log"@.len());
    reveal_strlit("git_latest_commit_time");
    assert("read_readme"@.len() != "git_latest_commit_time"@.len());
    reveal_strlit("file_tree");
    assert("read_readme"@.len() != "file_tree"@.len());
    reveal_strlit("read_file");
    assert("read_readme"@.len() != "read_file"@.len());
}

proof fn lemma_route_read_asset()
    ensures
        route_of("read_asset"@) == Some(Route::ReadAsset),
{
    reveal_strlit("read_asset");
    reveal_strlit("ping");
    assert("read_asset"@.len() != "ping"@.len());
    reveal_strlit("git_status");
    assert("read_asset"@[0] != "git_status"@[0]);
    reveal_strlit("git_log");
    assert("read_asset"@.len() != "git_log"@.len());
    reveal_strlit("git_latest_commit_time");
    assert("read_asset"@.len() != "git_latest_commit_time"@.len());
    reveal_strlit("file_tree");
    assert("read_asset"@.len() != "file_tree"@.len());
    reveal_strlit("read_file");
    assert("read_asset"@.len() != "read_file"@.len());
    reveal_strlit("read_readme");
    assert("read_asset"@.len() != "read_readme"@.len());
}

proof fn lemma_route_scan_sessions()
    ensures
        route_of("scan_sessions"@) == Some(Route::ScanSessions),
{
    reveal_strlit("scan_sessions");
    reveal_strlit("ping");
    assert("scan_sessions"@.len() != "ping"@.len());
    reveal_strlit("git_status");
    assert("scan_sessions"@.len() != "git_status"@.len());
    reveal_strlit("git_log");
    assert("scan_sessions"@.len() != "git_log"@.len());
    reveal_strlit("git_latest_commit_time");
    assert("scan_sessions"@.len() != "git_latest_commit_time"@.len());
    reveal_strlit("file_tree");
    assert("scan_sessions"@.len() != "file_tree"@.len());
    reveal_strlit("read_file");
    assert("scan_sessions"@.len() != "read_file"@.len());
    reveal_strlit("read_readme");
    assert("scan_sessions"@.len() != "read_readme"@.len());
    reveal_strlit("read_asset");
    assert("scan_sessions"@.len() != "read_asset"@.len());
}

proof fn lemma_route_list_display_sessions()
    ensures
        route_of("list_display_sessions"@) == Some(Route::ListDisplaySessions),
{
    reveal_strlit("list_display_sessions");
    reveal_strlit("ping");
    assert("list_display_sessions"@.len() != "ping"@.len());
    reveal_strlit("git_status");
    assert("list_display_sessions"@.len() != "git_status"@.len());
    reveal_strlit("git_log");
    assert("list_display_sessions"@.len() != "git_log"@.len());
    reveal_strlit("git_latest_commit_time");
    assert("list_display_sessions"@.len() != "git_latest_commit_time"@.len());
    reveal_strlit("file_tree");
    assert("list_display_sessions"@.len() != "file_tree"@.len());
    reveal_strlit("read_file");
    assert("list_display_sessions"@.len() != "read_file"@.len());
    reveal_strlit("read_readme");
    assert("list_display_sessions"@.len() != "read_readme"@.len());
    reveal_strlit("read_asset");
    assert("list_display_sessions"@.len() != "read_asset"@.len());
    reveal_strlit("scan_sessions");
    assert("list_display_sessions"@.len() != "scan_sessions"@.len());
}

proof fn lemma_route_get_runtime_session_snapshot()
    ensures
        route_of("get_runtime_session_snapshot"@) == Some(Route::GetRuntimeSessionSnapshot),
{
    reveal_strlit("get_runtime_session_snapshot");
    reveal_strlit("ping");
    assert("get_runtime_session_snapshot"@.len() != "ping"@.len());
    reveal_strlit("git_status");
    assert("get_runtime_session_snapshot"@.len() != "git_status"@.len());
    reveal_strlit("git_log");
    assert("get_runtime_session_snapshot"@.len() != "git_log"@.len());
    reveal_strlit("git_latest_commit_time");
    assert("get_runtime_session_snapshot"@.len() != "git_latest_commit_time"@.len());
    reveal_strlit("file_tree");
    assert("get_runtime_session_snapshot"@.len() != "file_tree"@.len());
    reveal_strlit("read_file");
    assert("get_runtime_session_snapshot"@.len() != "read_file"@.len());
    reveal_strlit("read_readme");
    assert("get_runtime_session_snapshot"@.len() != "read_readme"@.len());
    reveal_strlit("read_asset");
    assert("get_runtime_session_snapshot"@.len() != "read_asset"@.len());
    reveal_strlit("scan_sessions");
    assert("get_runtime_session_snapshot"@.len() != "scan_sessions"@.len());
    reveal_strlit("list_display_sessions");
    assert("get_runtime_session_snapshot"@.len() != "list_display_sessions"@.len());
}

proof fn lemma_route_list_runtime_sessions()
    ensures
        route_of("list_runtime_sessions"@) == Some(Route::ListRuntimeSessions),
{
    reveal_strlit("list_runtime_sessions");
    reveal_strlit("ping");
    assert("list_runtime_sessions"@.len() != "ping"@.len());
    reveal_strlit("git_status");
    assert("list_runtime_sessions"@.len() != "git_status"@.len());
    reveal_strlit("git_log");
    assert("list_runtime_sessions"@.len() != "git_log"@.len());
    reveal_strlit("git_latest_commit_time");
    assert("list_runtime_sessions"@.len() != "git_latest_commit_time"@.len());
    reveal_strlit("file_tree");
    assert("list_runtime_sessions"@.len() != "file_tree"@.len());
    reveal_strlit("read_file");
    assert("list_runtime_sessions"@.len() != "read_file"@.len());
    reveal_strlit("read_readme");
    assert("list_runtime_sessions"@.len() != "read_readme"@.len());
    reveal_strlit("read_asset");
    assert("list_runtime_sessions"@.len() != "read_asset"@.len());
    reveal_strlit("scan_sessions");
    assert("list_runtime_sessions"@.len() != "scan_sessions"@.len());
    reveal_strlit("list_display_sessions");
    assert("list_runtime_sessions"@[5] != "list_display_sessions"@[5]);
    reveal_strlit("get_runtime_session_snapshot");
    assert("list_runtime_sessions"@.len() != "get_runtime_session_snapshot"@.len());
}

proof fn lemma_route_wait_session_updates()
    ensures
        route_of("wait_session_updates"@) == Some(Route::WaitSessionUpdates),
{
    reveal_strlit("wait_session_updates");
    reveal_strlit("ping");
    assert("wait_session_updates"@.len() != "ping"@.len());
    reveal_strlit("git_status");
    assert("wait_session_updates"@.len() != "git_status"@.len());
    reveal_strlit("git_log");
    assert("wait_session_updates"@.len() != "git_log"@.len());
    reveal_strlit("git_latest_commit_time");
    assert("wait_session_updates"@.len() != "git_latest_commit_time"@.len());
    reveal_strlit("file_tree");
    assert("wait_session_updates"@.len() != "file_tree"@.len());
    reveal_strlit("read_file");
    assert("wait_session_updates"@.len() != "read_file"@.len());
    reveal_strlit("read_readme");
    assert("wait_session_updates"@.len() != "read_readme"@.len());
    reveal_strlit("read_asset");
    assert("wait_session_updates"@.len() != "read_asset"@.len());
    reveal_strlit("scan_sessions");
    assert("wait_session_updates"@.len() != "scan_sessions"@.len());
    reveal_strlit("list_display_sessions");
    assert("wait_session_updates"@.len() != "list_display_sessions"@.len());
    reveal_strlit("get_runtime_session_snapshot");
    assert("wait_session_updates"@.len() != "get_runtime_session_snapshot"@.len());
    reveal_strlit("list_runtime_sessions");
    assert("wait_session_updates"@.len() != "list_runtime_sessions"@.len());
}

proof fn lemma_route_launch_session()
    ensures
        route_of("launch_session"@) == Some(Route::LaunchSession),
{
    reveal_strlit("launch_session");
    reveal_strlit("ping");
    assert("launch_session"@.len() != "ping"@.len());
    reveal_strlit("git_status");
    assert("launch_session"@.len() != "git_status"@.len());
    reveal_strlit("git_log");
    assert("launch_session"@.len() != "git_log"@.len());
    reveal_strlit("git_latest_commit_time");
    assert("launch_session"@.len() != "git_latest_commit_time"@.len());
    reveal_strlit("file_tree");
    assert("launch_session"@.len() != "file_tree"@.len());
    reveal_strlit("read_file");
    assert("launch_session"@.len() != "read_file"@.len());
    reveal_strlit("read_readme");
    assert("launch_session"@.len() != "read_readme"@.len());
    reveal_strlit("read_asset");
    assert("launch_session"@.len() != "read_asset"@.len());
    reveal_strlit("scan_sessions");
    assert("launch_session"@.len() != "scan_sessions"@.len());
    reveal_strlit("list_display_sessions");
    assert("launch_session"@.len() != "list_display_sessions"@.len());
    reveal_strlit("get_runtime_session_snapshot");
    assert("launch_session"@.len() != "get_runtime_session_snapshot"@.len());
    reveal_strlit("list_runtime_sessions");
    assert("launch_session"@.len() != "list_runtime_sessions"@.len());
    reveal_strlit("wait_session_updates");
    assert("launch_session"@.len() != "wait_session_updates"@.len());
}

proof fn lemma_route_stop_session()
    ensures
        route_of("stop_session"@) == Some(Route::StopSession),
{
    reveal_strlit("stop_session");
    reveal_strlit("ping");
    assert("stop_session"@.len() != "ping"@.len());
    reveal_strlit("git_status");
    assert("stop_session"@.len() != "git_status"@.len());
    reveal_strlit("git_log");
    assert("stop_session"@.len() != "git_log"@.len());
    reveal_strlit("git_latest_commit_time");
    assert("stop_session"@.len() != "git_latest_commit_time"@.len());
    reveal_strlit("file_tree");
    assert("stop_session"@.len() != "file_tree"@.len());
    reveal_strlit("read_file");
    assert("stop_session"@.len() != "read_file"@.len());
    reveal_strlit("read_readme");
    assert("stop_session"@.len() != "read_readme"@.len());
    reveal_strlit("read_asset");
    assert("stop_session"@.len() != "read_asset"@.len());
    reveal_strlit("scan_sessions");
    assert("stop_session"@.len() != "scan_sessions"@.len());
    reveal_strlit("list_display_sessions");
    assert("stop_session"@.len() != "list_display_sessions"@.len());
    reveal_strlit("get_runtime_session_snapshot");
    assert("stop_session"@.len() != "get_runtime_session_snapshot"@.len());
    reveal_strlit("list_runtime_sessions");
    assert("stop_session"@.len() != "list_runtime_sessions"@.len());
    reveal_strlit("wait_session_updates");
    assert("stop_session"@.len() != "wait_session_updates"@.len());
    reveal_strlit("launch_session");
    assert("stop_session"@.len() != "launch_session"@.len());
}

proof fn lemma_route_navigate_to_session()
    ensures
        route_of("navigate_to_session"@) == Some(Route::NavigateToSession),
{
    reveal_strlit("navigate_to_session");
    reveal_strlit("ping");
    assert("navigate_to_session"@.len() != "ping"@.len());
    reveal_strlit("git_status");
    assert("navigate_to_session"@.len() != "git_status"@.len());
    reveal_strlit("git_log");
    assert("navigate_to_session"@.len() != "git_log"@.len());
    reveal_strlit("git_latest_commit_time");
    assert("navigate_to_session"@.len() != "git_latest_commit_time"@.len());
    reveal_strlit("file_tree");
    assert("navigate_to_session"@.len() != "file_tree"@.len());
    reveal_strlit("read_file");
    assert("navigate_to_session"@.len() != "read_file"@.len());
    reveal_strlit("read_readme");
    assert("navigate_to_session"@.len() != "read_readme"@.len());
    reveal_strlit("read_asset");
    assert("navigate_to_session"@.len() != "read_asset"@.len());
    reveal_strlit("scan_sessions");
    assert("navigate_to_session"@.len() != "scan_sessions"@.len());
    reveal_strlit("list_display_sessions");
    assert("navigate_to_session"@.len() != "list_display_sessions"@.len());
    reveal_strlit("get_runtime_session_snapshot");
    assert("navigate_to_session"@.len() != "get_runtime_session_snapshot"@.len());
    reveal_strlit("list_runtime_sessions");
    assert("navigate_to_session"@.len() != "list_runtime_sessions"@.len());
    reveal_strlit("wait_session_updates");
    assert("navigate_to_session"@.len() != "wait_session_updates"@.len());
    reveal_strlit("launch_session");
    assert("navigate_to_session"@.len() != "launch_session"@.len());
    reveal_strlit("stop_session");
    assert("navigate_to_session"@.len() != "stop_session"@.len());
}

proof fn lemma_route_get_project_tasks()
    ensures
        route_of("get_project_tasks"@) == Some(Route::GetProjectTasks),
{
    reveal_strlit("get_project_tasks");
    reveal_strlit("ping");
    assert("get_project_tasks"@.len() != "ping"@.len());
    reveal_strlit("git_status");
    assert("get_project_tasks"@.len() != "git_status"@.len());
    reveal_strlit("git_log");
    assert("get_project_tasks"@.len() != "git_log"@.len());
    reveal_strlit("git_latest_commit_time");
    assert("get_project_tasks"@.len() != "git_latest_commit_time"@.len());
    reveal_strlit("file_tree");
    assert("get_project_tasks"@.len() != "file_tree"@.len());
    reveal_strlit("read_file");
    assert("get_project_tasks"@.len() != "read_file"@.len());
    reveal_strlit("read_readme");
    assert("get_project_tasks"@.len() != "read_readme"@.len());
    reveal_strlit("read_asset");
    assert("get_project_tasks"@.len() != "read_asset"@.len());
    reveal_strlit("scan_sessions");
    assert("get_project_tasks"@.len() != "scan_sessions"@.len());
    reveal_strlit("list_display_sessions");
    assert("get_project_tasks"@.len() != "list_display_sessions"@.len());
    reveal_strlit("get_runtime_session_snapshot");
    assert("get_project_tasks"@.len() != "get_runtime_session_snapshot"@.len());
    reveal_strlit("list_runtime_sessions");
    assert("get_project_tasks"@.len() != "list_runtime_sessions"@.len());
    reveal_strlit("wait_session_updates");
    assert("get_project_tasks"@.len() != "wait_session_updates"@.len());
    reveal_strlit("launch_session");
    assert("get_project_tasks"@.len() != "launch_session"@.len());
    reveal_strlit("stop_session");
    assert("get_project_tasks"@.len() != "stop_session"@.len());
    reveal_strlit("navigate_to_session");
    assert("get_project_tasks"@.len() != "navigate_to_session"@.len());
}

proof fn lemma_route_git_commits_in_range()
    ensures
        route_of("git_commits_in_range"@) == Some(Route::GitCommitsInRange),
{
    reveal_strlit("git_commits_in_range");
    reveal_strlit("ping");
    assert("git_commits_in_range"@.len() != "ping"@.len());
    reveal_strlit("git_status");
    assert("git_commits_in_range"@.len() != "git_status"@.len());
    reveal_strlit("git_log");
    assert("git_commits_in_range"@.len() != "git_log"@.len());
    reveal_strlit("git_latest_commit_time");
    assert("git_commits_in_range"@.len() != "git_latest_commit_time"@.len());
    reveal_strlit("file_tree");
    assert("git_commits_in_range"@.len() != "file_tree"@.len());
    reveal_strlit("read_file");
    assert("git_commits_in_range"@.len() != "read_file"@.len());
    reveal_strlit("read_readme");
    assert("git_commits_in_range"@.len() != "read_readme"@.len());
    reveal_strlit("read_asset");
    assert("git_commits_in_range"@.len() != "read_asset"@.len());
    reveal_strlit("scan_sessions");
    assert("git_commits_in_range"@.len() != "scan_sessions"@.len());
    reveal_strlit("list_display_sessions");
    assert("git_commits_in_range"@.len() != "list_display_sessions"@.len());
    reveal_strlit("get_runtime_session_snapshot");
    assert("git_commits_in_range"@.len() != "get_runtime_session_snapshot"@.len());
    reveal_strlit("list_runtime_sessions");
    assert("git_commits_in_range"@.len() != "list_runtime_sessions"@.len());
    reveal_strlit("wait_session_updates");
    assert("git_commits_in_range"@[0] != "wait_session_updates"@[0]);
    reveal_strlit("launch_session");
    assert("git_commits_in_range"@.len() != "launch_session"@.len());
    reveal_strlit("stop_session");
    assert("git_commits_in_range"@.len() != "stop_session"@.len());
    reveal_strlit("navigate_to_session");
    assert("git_commits_in_range"@.len() != "navigate_to_session"@.len());
    reveal_strlit("get_project_tasks");
    assert("git_commits_in_range"@.len() != "get_project_tasks"@.len());
}

proof fn lemma_route_git_commit_files()
    ensures
        route_of("git_commit_files"@) == Some(Route::GitCommitFiles),
{
    reveal_strlit("git_commit_files");
    reveal_strlit("ping");
    assert("git_commit_files"@.len() != "ping"@.len());
    reveal_strlit("git_status");
    assert("git_commit_files"@.len() != "git_status"@.len());
    reveal_strlit("git_log");
    assert("git_commit_files"@.len() != "git_log"@.len());
    reveal_strlit("git_latest_commit_time");
    assert("git_commit_files"@.len() != "git_latest_commit_time"@.len());
    reveal_strlit("file_tree");
    assert("git_commit_files"@.len() != "file_tree"@.len());
    reveal_strlit("read_file");
    assert("git_commit_files"@.len() != "read_file"@.len());
    reveal_strlit("read_readme");
    assert("git_commit_files"@.len() != "read_readme"@.len());
    reveal_strlit("read_asset");
    assert("git_commit_files"@.len() != "read_asset"@.len());
    reveal_strlit("scan_sessions");
    assert("git_commit_files"@.len() != "scan_sessions"@.len());
    reveal_strlit("list_display_sessions");
    assert("git_commit_files"@.len() != "list_display_sessions"@.len());
    reveal_strlit("get_runtime_session_snapshot");
    assert("git_commit_files"@.len() != "get_runtime_session_snapshot"@.len());
    reveal_strlit("list_runtime_sessions");
    assert("git_commit_files"@.len() != "list_runtime_sessions"@.len());
    reveal_strlit("wait_session_updates");
    assert("git_commit_files"@.len() != "wait_session_updates"@.len());
    reveal_strlit("launch_session");
    assert("git_commit_files"@.len() != "launch_session"@.len());
    reveal_strlit("stop_session");
    assert("git_commit_files"@.len() != "stop_session"@.len());
    reveal_strlit("navigate_to_session");
    assert("git_commit_files"@.len() != "navigate_to_session"@.len());
    reveal_strlit("get_project_tasks");
    assert("git_commit_files"@.len() != "get_project_tasks"@.len());
    reveal_strlit("git_commits_in_range");
    assert("git_commit_files"@.len() != "git_commits_in_range"@.len());
}

proof fn lemma_route_git_commit_diff()
    ensures
        route_of("git_commit_diff"@) == Some(Route::GitCommitDiff),
{
    reveal_strlit("git_commit_diff");
    reveal_strlit("ping");
    assert("git_commit_diff"@.len() != "ping"@.len());
    reveal_strlit("git_status");
    assert("git_commit_diff"@.len() != "git_status"@.len());
    reveal_strlit("git_log");
    assert("git_commit_diff"@.len() != "git_log"@.len());
    reveal_strlit("git_latest_commit_time");
    assert("git_commit_diff"@.len() != "git_latest_commit_time"@.len());
    reveal_strlit("file_tree");
    assert("git_commit_diff"@.len() != "file_tree"@.len());
    reveal_strlit("read_file");
    assert("git_commit_diff"@.len() != "read_file"@.len());
    reveal_strlit("read_readme");
    assert("git_commit_diff"@.len() != "read_readme"@.len());
    reveal_strlit("read_asset");
    assert("git_commit_diff"@.len() != "read_asset"@.len());
    reveal_strlit("scan_sessions");
    assert("git_commit_diff"@.len() != "scan_sessions"@.len());
    reveal_strlit("list_display_sessions");
    assert("git_commit_diff"@.len() != "list_display_sessions"@.len());
    reveal_strlit("get_runtime_session_snapshot");
    assert("git_commit_diff"@.len() != "get_runtime_session_snapshot"@.len());
    reveal_strlit("list_runtime_sessions");
    assert("git_commit_diff"@.len() != "list_runtime_sessions"@.len());
    reveal_strlit("wait_session_updates");
    assert("git_commit_diff"@.len() != "wait_session_updates"@.len());
    reveal_strlit("launch_session");
    assert("git_commit_diff"@.len() != "launch_session"@.len());
    reveal_strlit("stop_session");
    assert("git_commit_diff"@.len() != "stop_session"@.len());
    reveal_strlit("navigate_to_session");
    assert("git_commit_diff"@.len() != "navigate_to_session"@.len());
    reveal_strlit("get_project_tasks");
    assert("git_commit_diff"@.len() != "get_project_tasks"@.len());
    reveal_strlit("git_commits_in_range");
    assert("git_commit_diff"@.len() != "git_commits_in_range"@.len());
    reveal_strlit("git_commit_files");
    assert("git_commit_diff"@.len() != "git_commit_files"@.len());
}

proof fn lemma_route_watch()
    ensures
        route_of("watch"@) == Some(Route::Watch),
{
    reveal_strlit("watch");
    reveal_strlit("ping");
    assert("watch"@.len() != "ping"@.len());
    reveal_strlit("git_status");
    assert("watch"@.len() != "git_status"@.len());
    reveal_strlit("git_log");
    assert("watch"@.len() != "git_log"@.len());
    reveal_strlit("git_latest_commit_time");
    assert("watch"@.len() != "git_latest_commit_time"@.len());
    reveal_strlit("file_tree");
    assert("watch"@.len() != "file_tree"@.len());
    reveal_strlit("read_file");
    assert("watch"@.len() != "read_file"@.len());
    reveal_strlit("read_readme");
    assert("watch"@.len() != "read_readme"@.len());
    reveal_strlit("read_asset");
    assert("watch"@.len() != "read_asset"@.len());
    reveal_strlit("scan_sessions");
    assert("watch"@.len() != "scan_sessions"@.len());
    reveal_strlit("list_display_sessions");
    assert("watch"@.len() != "list_display_sessions"@.len());
    reveal_strlit("get_runtime_session_snapshot");
    assert("watch"@.len() != "get_runtime_session_snapshot"@.len());
    reveal_strlit("list_runtime_sessions");
    assert("watch"@.len() != "list_runtime_sessions"@.len());
    reveal_strlit("wait_session_updates");
    assert("watch"@.len() != "wait_session_updates"@.len());
    reveal_strlit("launch_session");
    assert("watch"@.len() != "launch_session"@.len());
    reveal_strlit("stop_session");
    assert("watch"@.len() != "stop_session"@.len());
    reveal_strlit("navigate_to_session");
    assert("watch"@.len() != "navigate_to_session"@.len());
    reveal_strlit("get_project_tasks");
    assert("watch"@.len() != "get_project_tasks"@.len());
    reveal_strlit("git_commits_in_range");
    assert("watch"@.len() != "git_commits_in_range"@.len());
    reveal_strlit("git_commit_files");
    assert("watch"@.len() != "git_commit_files"@.len());
    reveal_strlit("git_commit_diff");
    assert("watch"@.len() != "git_commit_diff"@.len());
}

proof fn lemma_route_unwatch()
    ensures
        route_of("unwatch"@) == Some(Route::Unwatch),
{
    reveal_strlit("unwatch");
    reveal_strlit("ping");
    assert("unwatch"@.len() != "ping"@.len());
    reveal_strlit("git_status");
    assert("unwatch"@.len() != "git_status"@.len());
    reveal_strlit("git_log");
    assert("unwatch"@[0] != "git_log"@[0]);
    reveal_strlit("git_latest_commit_time");
    assert("unwatch"@.len() != "git_latest_commit_time"@.len());
    reveal_strlit("file_tree");
    assert("unwatch"@.len() != "file_tree"@.len());
    reveal_strlit("read_file");
    assert("unwatch"@.len() != "read_file"@.len());
    reveal_strlit("read_readme");
    assert("unwatch"@.len() != "read_readme"@.len());
    reveal_strlit("read_asset");
    assert("unwatch"@.len() != "read_asset"@.len());
    reveal_strlit("scan_sessions");
    assert("unwatch"@.len() != "scan_sessions"@.len());
    reveal_strlit("list_display_sessions");
    assert("unwatch"@.len() != "list_display_sessions"@.len());
    reveal_strlit("get_runtime_session_snapshot");
    assert("unwatch"@.len() != "get_runtime_session_snapshot"@.len());
    reveal_strlit("list_runtime_sessions");
    assert("unwatch"@.len() != "list_runtime_sessions"@.len());
    reveal_strlit("wait_session_updates");
    assert("unwatch"@.len() != "wait_session_updates"@.len());
    reveal_strlit("launch_session");
    assert("unwatch"@.len() != "launch_session"@.len());
    reveal_strlit("stop_session");
    assert("unwatch"@.len() != "stop_session"@.len());
    reveal_strlit("navigate_to_session");
    assert("unwatch"@.len() != "navigate_to_session"@.len());
    reveal_strlit("get_project_tasks");
    assert("unwatch"@.len() != "get_project_tasks"@.len());
    reveal_strlit("git_commits_in_range");
    assert("unwatch"@.len() != "git_commits_in_range"@.len());
    reveal_strlit("git_commit_files");
    assert("unwatch"@.len() != "git_commit_files"@.len());
    reveal_strlit("git_commit_diff");
    assert("unwatch"@.len() != "git_commit_diff"@.len());
    reveal_strlit("watch");
    assert("unwatch"@.len() != "watch"@.len());
}

proof fn lemma_route_shutdown()
    ensures
        route_of("shutdown"@) == Some(Route::Shutdown),
{
    reveal_strlit("shutdown");
    reveal_strlit("ping");
    assert("shutdown"@.len() != "ping"@.len());
    reveal_strlit("git_status");
    assert("shutdown"@.len() != "git_status"@.len());
    reveal_strlit("git_log");
    assert("shutdown"@.len() != "git_log"@.len());
    reveal_strlit("git_latest_commit_time");
    assert("shutdown"@.len() != "git_latest_commit_time"@.len());
    reveal_strlit("file_tree");
    assert("shutdown"@.len() != "file_tree"@.len());
    reveal_strlit("read_file");
    assert("shutdown"@.len() != "read_file"@.len());
    reveal_strlit("read_readme");
    assert("shutdown"@.len() != "read_readme"@.len());
    reveal_strlit("read_asset");
    assert("shutdown"@.len() != "read_asset"@.len());
    reveal_strlit("scan_sessions");
    assert("shutdown"@.len() != "scan_sessions"@.len());
    reveal_strlit("list_display_sessions");
    assert("shutdown"@.len() != "list_display_sessions"@.len());
    reveal_strlit("get_runtime_session_snapshot");
    assert("shutdown"@.len() != "get_runtime_session_snapshot"@.len());
    reveal_strlit("list_runtime_sessions");
    assert("shutdown"@.len() != "list_runtime_sessions"@.len());
    reveal_strlit("wait_session_updates");
    assert("shutdown"@.len() != "wait_session_updates"@.len());
    reveal_strlit("launch_session");
    assert("shutdown"@.len() != "launch_session"@.len());
    reveal_strlit("stop_session");
    assert("shutdown"@.len() != "stop_session"@.len());
    reveal_strlit("navigate_to_session");
    assert("shutdown"@.len() != "navigate_to_session"@.len());
    reveal_strlit("get_project_tasks");
    assert("shutdown"@.len() != "get_project_tasks"@.len());
    reveal_strlit("git_commits_in_range");
    assert("shutdown"@.len() != "git_commits_in_range"@.len());
    reveal_strlit("git_commit_files");
    assert("shutdown"@.len() != "git_commit_files"@.len());
    reveal_strlit("git_commit_diff");
    assert("shutdown"@.len() != "git_commit_diff"@.len());
    reveal_strlit("watch");
    assert("shutdown"@.len() != "watch"@.len());
    reveal_strlit("unwatch");
    assert("shutdown"@.len() != "unwatch"@.len());
}

proof fn lemma_route_list_accounts()
    ensures
        route_of("list_accounts"@) == Some(Route::ListAccounts),
{
    reveal_strlit("list_accounts");
    reveal_strlit("ping");
    assert("list_accounts"@.len() != "ping"@.len());
    reveal_strlit("git_status");
    assert("list_accounts"@.len() != "git_status"@.len());
    reveal_strlit("git_log");
    assert("list_accounts"@.len() != "git_log"@.len());
    reveal_strlit("git_latest_commit_time");
    assert("list_accounts"@.len() != "git_latest_commit_time"@.len());
    reveal_strlit("file_tree");
    assert("list_accounts"@.len() != "file_tree"@.len());
    reveal_strlit("read_file");
    assert("list_accounts"@.len() != "read_file"@.len());
    reveal_strlit("read_readme");
    assert("list_accounts"@.len() != "read_readme"@.len());
    reveal_strlit("read_asset");
    assert("list_accounts"@.len() != "read_asset"@.len());
    reveal_strlit("scan_sessions");
    assert("list_accounts"@[0] != "scan_sessions"@[0]);
    reveal_strlit("list_display_sessions");
    assert("list_accounts"@.len() != "list_display_sessions"@.len());
    reveal_strlit("get_runtime_session_snapshot");
    assert("list_accounts"@.len() != "get_runtime_session_snapshot"@.len());
    reveal_strlit("list_runtime_sessions");
    assert("list_accounts"@.len() != "list_runtime_sessions"@.len());
    reveal_strlit("wait_session_updates");
    assert("list_accounts"@.len() != "wait_session_updates"@.len());
    reveal_strlit("launch_session");
    assert("list_accounts"@.len() != "launch_session"@.len());
    reveal_strlit("stop_session");
    assert("list_accounts"@.len() != "stop_session"@.len());
    reveal_strlit("navigate_to_session");
    assert("list_accounts"@.len() != "navigate_to_session"@.len());
    reveal_strlit("get_project_tasks");
    assert("list_accounts"@.len() != "get_project_tasks"@.len());
    reveal_strlit("git_commits_in_range");
    assert("list_accounts"@.len() != "git_commits_in_range"@.len());
    reveal_strlit("git_commit_files");
    assert("list_accounts"@.len() != "git_commit_files"@.len());
    reveal_strlit("git_commit_diff");
    assert("list_accounts"@.len() != "git_commit_diff"@.len());
    reveal_strlit("watch");
    assert("list_accounts"@.len() != "watch"@.len());
    reveal_strlit("unwatch");
    assert("list_accounts"@.len() != "unwatch"@.len());
    reveal_strlit("shutdown");
    assert("list_accounts"@.len() != "shutdown"@.len());
}

proof fn lemma_route_project_transcript()
    ensures
        route_of("project_transcript"@) == Some(Route::ProjectTranscript),
{
    reveal_strlit("project_transcript");
    reveal_strlit("ping");
    assert("project_transcript"@.len() != "ping"@.len());
    reveal_strlit("git_status");
    assert("project_transcript"@.len() != "git_status"@.len());
    reveal_strlit("git_log");
    assert("project_transcript"@.len() != "git_log"@.len());
    reveal_strlit("git_latest_commit_time");
    assert("project_transcript"@.len() != "git_latest_commit_time"@.len());
    reveal_strlit("file_tree");
    assert("project_transcript"@.len() != "file_tree"@.len());
    reveal_strlit("read_file");
    assert("project_transcript"@.len() != "read_file"@.len());
    reveal_strlit("read_readme");
    assert("project_transcript"@.len() != "read_readme"@.len());
    reveal_strlit("read_asset");
    assert("project_transcript"@.len() != "read_asset"@.len());
    reveal_strlit("scan_sessions");
    assert("project_transcript"@.len() != "scan_sessions"@.len());
    reveal_strlit("list_display_sessions");
    assert("project_transcript"@.len() != "list_display_sessions"@.len());
    reveal_strlit("get_runtime_session_snapshot");
    assert("project_transcript"@.len() != "get_runtime_session_snapshot"@.len());
    reveal_strlit("list_runtime_sessions");
    assert("project_transcript"@.len() != "list_runtime_sessions"@.len());
    reveal_strlit("wait_session_updates");
    assert("project_transcript"@.len() != "wait_session_updates"@.len());
    reveal_strlit("launch_session");
    assert("project_transcript"@.len() != "launch_session"@.len());
    reveal_strlit("stop_session");
    assert("project_transcript"@.len() != "stop_session"@.len());
    reveal_strlit("navigate_to_session");
    assert("project_transcript"@.len() != "navigate_to_session"@.len());
    reveal_strlit("get_project_tasks");
    assert("project_transcript"@.len() != "get_project_tasks"@.len());
    reveal_strlit("git_commits_in_range");
    assert("project_transcript"@.len() != "git_commits_in_range"@.len());
    reveal_strlit("git_commit_files");
    assert("project_transcript"@.len() != "git_commit_files"@.len());
    reveal_strlit("git_commit_diff");
    assert("project_transcript"@.len() != "git_commit_diff"@.len());
    reveal_strlit("watch");
    assert("project_transcript"@.len() != "watch"@.len());
    reveal_strlit("unwatch");
    assert("project_transcript"@.len() != "unwatch"@.len());
    reveal_strlit("shutdown");
    assert("project_transcript"@.len() != "shutdown"@.len());
    reveal_strlit("list_accounts");
    assert("project_transcript"@.len() != "list_accounts"@.len());
}

proof fn lemma_route_refresh_usage()
    ensures
        route_of("refresh_usage"@) == Some(Route::RefreshUsage),
{
    reveal_strlit("refresh_usage");
    reveal_strlit("ping");
    assert("refresh_usage"@.len() != "ping"@.len());
    reveal_strlit("git_status");
    assert("refresh_usage"@.len() != "git_status"@.len());
    reveal_strlit("git_log");
    assert("refresh_usage"@.len() != "git_log"@.len());
    reveal_strlit("git_latest_commit_time");
    assert("refresh_usage"@.len() != "git_latest_commit_time"@.len());
    reveal_strlit("file_tree");
    assert("refresh_usage"@.len() != "file_tree"@.len());
    reveal_strlit("read_file");
    assert("refresh_usage"@.len() != "read_file"@.len());
    reveal_strlit("read_readme");
    assert("refresh_usage"@.len() != "read_readme"@.len());
    reveal_strlit("read_asset");
    assert("refresh_usage"@.len() != "read_asset"@.len());
    reveal_strlit("scan_sessions");
    assert("refresh_usage"@[0] != "scan_sessions"@[0]);
    reveal_strlit("list_display_sessions");
    assert("refresh_usage"@.len() != "list_display_sessions"@.len());
    reveal_strlit("get_runtime_session_snapshot");
    assert("refresh_usage"@.len() != "get_runtime_session_snapshot"@.len());
    reveal_strlit("list_runtime_sessions");
    assert("refresh_usage"@.len() != "list_runtime_sessions"@.len());
    reveal_strlit("wait_session_updates");
    assert("refresh_usage"@.len() != "wait_session_updates"@.len());
    reveal_strlit("launch_session");
    assert("refresh_usage"@.len() != "launch_session"@.len());
    reveal_strlit("stop_session");
    assert("refresh_usage"@.len() != "stop_session"@.len());
    reveal_strlit("navigate_to_session");
    assert("refresh_usage"@.len() != "navigate_to_session"@.len());
    reveal_strlit("get_project_tasks");
    assert("refresh_usage"@.len() != "get_project_tasks"@.len());
    reveal_strlit("git_commits_in_range");
    assert("refresh_usage"@.len() != "git_commits_in_range"@.len());
    reveal_strlit("git_commit_files");
    assert("refresh_usage"@.len() != "git_commit_files"@.len());
    reveal_strlit("git_commit_diff");
    assert("refresh_usage"@.len() != "git_commit_diff"@.len());
    reveal_strlit("watch");
    assert("refresh_usage"@.len() != "watch"@.len());
    reveal_strlit("unwatch");
    assert("refresh_usage"@.len() != "unwatch"@.len());
    reveal_strlit("shutdown");
    assert("refresh_usage"@.len() != "shutdown"@.len());
    reveal_strlit("list_accounts");
    assert("refresh_usage"@[0] != "list_accounts"@[0]);
    reveal_strlit("project_transcript");
    assert("refresh_usage"@.len() != "project_transcript"@.len());
}

proof fn lemma_route_resolve_launch_base()
    ensures
        route_of("resolve_launch_base"@) == Some(Route::ResolveLaunchBase),
{
    reveal_strlit("resolve_launch_base");
    reveal_strlit("ping");
    assert("resolve_launch_base"@.len() != "ping"@.len());
    reveal_strlit("git_status");
    assert("resolve_launch_base"@.len() != "git_status"@.len());
    reveal_strlit("git_log");
    assert("resolve_launch_base"@.len() != "git_log"@.len());
    reveal_strlit("git_latest_commit_time");
    assert("resolve_launch_base"@.len() != "git_latest_commit_time"@.len());
    reveal_strlit("file_tree");
    assert("resolve_launch_base"@.len() != "file_tree"@.len());
    reveal_strlit("read_file");
    assert("resolve_launch_base"@.len() != "read_file"@.len());
    reveal_strlit("read_readme");
    assert("resolve_launch_base"@.len() != "read_readme"@.len());
    reveal_strlit("read_asset");
    assert("resolve_launch_base"@.len() != "read_asset"@.len());
    reveal_strlit("scan_sessions");
    assert("resolve_launch_base"@.len() != "scan_sessions"@.len());
    reveal_strlit("list_display_sessions");
    assert("resolve_launch_base"@.len() != "list_display_sessions"@.len());
    reveal_strlit("get_runtime_session_snapshot");
    assert("resolve_launch_base"@.len() != "get_runtime_session_snapshot"@.len());
    reveal_strlit("list_runtime_sessions");
    assert("resolve_launch_base"@.len() != "list_runtime_sessions"@.len());
    reveal_strlit("wait_session_updates");
    assert("resolve_launch_base"@.len() != "wait_session_updates"@.len());
    reveal_strlit("launch_session");
    assert("resolve_launch_base"@.len() != "launch_session"@.len());
    reveal_strlit("stop_session");
    assert("resolve_launch_base"@.len() != "stop_session"@.len());
    reveal_strlit("navigate_to_session");
    assert("resolve_launch_base"@[0] != "navigate_to_session"@[0]);
    reveal_strlit("get_project_tasks");
    assert("resolve_launch_base"@.len() != "get_project_tasks"@.len());
    reveal_strlit("git_commits_in_range");
    assert("resolve_launch_base"@.len() != "git_commits_in_range"@.len());
    reveal_strlit("git_commit_files");
    assert("resolve_launch_base"@.len() != "git_commit_files"@.len());
    reveal_strlit("git_commit_diff");
    assert("resolve_launch_base"@.len() != "git_commit_diff"@.len());
    reveal_strlit("watch");
    assert("resolve_launch_base"@.len() != "watch"@.len());
    reveal_strlit("unwatch");
    assert("resolve_launch_base"@.len() != "unwatch"@.len());
    reveal_strlit("shutdown");
    assert("resolve_launch_base"@.len() != "shutdown"@.len());
    reveal_strlit("list_accounts");
    assert("resolve_launch_base"@.len() != "list_accounts"@.len());
    reveal_strlit("project_transcript");
    assert("resolve_launch_base"@.len() != "project_transcript"@.len());
    reveal_strlit("refresh_usage");
    assert("resolve_launch_base"@.len() != "refresh_usage"@.len());
}

proof fn lemma_route_list_workflow_runs()
    ensures
        route_of("list_workflow_runs"@) == Some(Route::ListWorkflowRuns),
{
    reveal_strlit("list_workflow_runs");
    reveal_strlit("ping");
    assert("list_workflow_runs"@.len() != "ping"@.len());
    reveal_strlit("git_status");
    assert("list_workflow_runs"@.len() != "git_status"@.len());
    reveal_strlit("git_log");
    assert("list_workflow_runs"@.len() != "git_log"@.len());
    reveal_strlit("git_latest_commit_time");
    assert("list_workflow_runs"@.len() != "git_latest_commit_time"@.len());
    reveal_strlit("file_tree");
    assert("list_workflow_runs"@.len() != "file_tree"@.len());
    reveal_strlit("read_file");
    assert("list_workflow_runs"@.len() != "read_file"@.len());
    reveal_strlit("read_readme");
    assert("list_workflow_runs"@.len() != "read_readme"@.len());
    reveal_strlit("read_asset");
    assert("list_workflow_runs"@.len() != "read_asset"@.len());
    reveal_strlit("scan_sessions");
    assert("list_workflow_runs"@.len() != "scan_sessions"@.len());
    reveal_strlit("list_display_sessions");
    assert("list_workflow_runs"@.len() != "list_display_sessions"@.len());
    reveal_strlit("get_runtime_session_snapshot");
    assert("list_workflow_runs"@.len() != "get_runtime_session_snapshot"@.len());
    reveal_strlit("list_runtime_sessions");
    assert("list_workflow_runs"@.len() != "list_runtime_sessions"@.len());
    reveal_strlit("wait_session_updates");
    assert("list_workflow_runs"@.len() != "wait_session_updates"@.len());
    reveal_strlit("launch_session");
    assert("list_workflow_runs"@.len() != "launch_session"@.len());
    reveal_strlit("stop_session");
    assert("list_workflow_runs"@.len() != "stop_session"@.len());
    reveal_strlit("navigate_to_session");
    assert("list_workflow_runs"@.len() != "navigate_to_session"@.len());
    reveal_strlit("get_project_tasks");
    assert("list_workflow_runs"@.len() != "get_project_tasks"@.len());
    reveal_strlit("git_commits_in_range");
    assert("list_workflow_runs"@.len() != "git_commits_in_range"@.len());
    reveal_strlit("git_commit_files");
    assert("list_workflow_runs"@.len() != "git_commit_files"@.len());
    reveal_strlit("git_commit_diff");
    assert("list_workflow_runs"@.len() != "git_commit_diff"@.len());
    reveal_strlit("watch");
    assert("list_workflow_runs"@.len() != "watch"@.len());
    reveal_strlit("unwatch");
    assert("list_workflow_runs"@.len() != "unwatch"@.len());
    reveal_strlit("shutdown");
    assert("list_workflow_runs"@.len() != "shutdown"@.len());
    reveal_strlit("list_accounts");
    assert("list_workflow_runs"@.len() != "list_accounts"@.len());
    reveal_strlit("project_transcript");
    assert("list_workflow_runs"@[0] != "project_transcript"@[0]);
    reveal_strlit("refresh_usage");
    assert("list_workflow_runs"@.len() != "refresh_usage"@.len());
    reveal_strlit("resolve_launch_base");
    assert("list_workflow_runs"@.len() != "resolve_launch_base"@.len());
}

proof fn lemma_route_get_workflow_run()
    ensures
        route_of("get_workflow_run"@) == Some(Route::GetWorkflowRun),
{
    reveal_strlit("get_workflow_run");
    reveal_strlit("ping");
    assert("get_workflow_run"@.len() != "ping"@.len());
    reveal_strlit("git_status");
    assert("get_workflow_run"@.len() != "git_status"@.len());
    reveal_strlit("git_log");
    assert("get_workflow_run"@.len() != "git_log"@.len());
    reveal_strlit("git_latest_commit_time");
    assert("get_workflow_run"@.len() != "git_latest_commit_time"@.len());
    reveal_strlit("file_tree");
    assert("get_workflow_run"@.len() != "file_tree"@.len());
    reveal_strlit("read_file");
    assert("get_workflow_run"@.len() != "read_file"@.len());
    reveal_strlit("read_readme");
    assert("get_workflow_run"@.len() != "read_readme"@.len());
    reveal_strlit("read_asset");
    assert("get_workflow_run"@.len() != "read_asset"@.len());
    reveal_strlit("scan_sessions");
    assert("get_workflow_run"@.len() != "scan_sessions"@.len());
    reveal_strlit("list_display_sessions");
    assert("get_workflow_run"@.len() != "list_display_sessions"@.len());
    reveal_strlit("get_runtime_session_snapshot");
    assert("get_workflow_run"@.len() != "get_runtime_session_snapshot"@.len());
    reveal_strlit("list_runtime_sessions");
    assert("get_workflow_run"@.len() != "list_runtime_sessions"@.len());
    reveal_strlit("wait_session_updates");
    assert("get_workflow_run"@.len() != "wait_session_updates"@.len());
    reveal_strlit("launch_session");
    assert("get_workflow_run"@.len() != "launch_session"@.len());
    reveal_strlit("stop_session");
    assert("get_workflow_run"@.len() != "stop_session"@.len());
    reveal_strlit("navigate_to_session");
    assert("get_workflow_run"@.len() != "navigate_to_session"@.len());
    reveal_strlit("get_project_tasks");
    assert("get_workflow_run"@.len() != "get_project_tasks"@.len());
    reveal_strlit("git_commits_in_range");
    assert("get_workflow_run"@.len() != "git_commits_in_range"@.len());
    reveal_strlit("git_commit_files");
    assert("get_workflow_run"@[1] != "git_commit_files"@[1]);
    reveal_strlit("git_commit_diff");
    assert("get_workflow_run"@.len() != "git_commit_diff"@.len());
    reveal_strlit("watch");
    assert("get_workflow_run"@.len() != "watch"@.len());
    reveal_strlit("unwatch");
    assert("get_workflow_run"@.len() != "unwatch"@.len());
    reveal_strlit("shutdown");
    assert("get_workflow_run"@.len() != "shutdown"@.len());
    reveal_strlit("list_accounts");
    assert("get_workflow_run"@.len() != "list_accounts"@.len());
    reveal_strlit("project_transcript");
    assert("get_workflow_run"@.len() != "project_transcript"@.len());
    reveal_strlit("refresh_usage");
    assert("get_workflow_run"@.len() != "refresh_usage"@.len());
    reveal_strlit("resolve_launch_base");
    assert("get_workflow_run"@.len() != "resolve_launch_base"@.len());
    reveal_strlit("list_workflow_runs");
    assert("get_workflow_run"@.len() != "list_workflow_runs"@.len());
}

proof fn lemma_route_coordination_initialize_team()
    ensures
        route_of("coordination.initialize_team"@) == Some(Route::CoordinationInitializeTeam),
{
    reveal_strlit("coordination.initialize_team");
    reveal_strlit("ping");
    assert("coordination.initialize_team"@.len() != "ping"@.len());
    reveal_strlit("git_status");
    assert("coordination.initialize_team"@.len() != "git_status"@.len());
    reveal_strlit("git_log");
    assert("coordination.initialize_team"@.len() != "git_log"@.len());
    reveal_strlit("git_latest_commit_time");
    assert("coordination.initialize_team"@.len() != "git_latest_commit_time"@.len());
    reveal_strlit("file_tree");
    assert("coordination.initialize_team"@.len() != "file_tree"@.len());
    reveal_strlit("read_file");
    assert("coordination.initialize_team"@.len() != "read_file"@.len());
    reveal_strlit("read_readme");
    assert("coordination.initialize_team"@.len() != "read_readme"@.len());
    reveal_strlit("read_asset");
    assert("coordination.initialize_team"@.len() != "read_asset"@.len());
    reveal_strlit("scan_sessions");
    assert("coordination.initialize_team"@.len() != "scan_sessions"@.len());
    reveal_strlit("list_display_sessions");
    assert("coordination.initialize_team"@.len() != "list_display_sessions"@.len());
    reveal_strlit("get_runtime_session_snapshot");
    assert("coordination.initialize_team"@[0] != "get_runtime_session_snapshot"@[0]);
    reveal_strlit("list_runtime_sessions");
    assert("coordination.initialize_team"@.len() != "list_runtime_sessions"@.len());
    reveal_strlit("wait_session_updates");
    assert("coordination.initialize_team"@.len() != "wait_session_updates"@.len());
    reveal_strlit("launch_session");
    assert("coordination.initialize_team"@.len() != "launch_session"@.len());
    reveal_strlit("stop_session");
    assert("coordination.initialize_team"@.len() != "stop_session"@.len());
    reveal_strlit("navigate_to_session");
    assert("coordination.initialize_team"@.len() != "navigate_to_session"@.len());
    reveal_strlit("get_project_tasks");
    assert("coordination.initialize_team"@.len() != "get_project_tasks"@.len());
    reveal_strlit("git_commits_in_range");
    assert("coordination.initialize_team"@.len() != "git_commits_in_range"@.len());
    reveal_strlit("git_commit_files");
    assert("coordination.initialize_team"@.len() != "git_commit_files"@.len());
    reveal_strlit("git_commit_diff");
    assert("coordination.initialize_team"@.len() != "git_commit_diff"@.len());
    reveal_strlit("watch");
    assert("coordination.initialize_team"@.len() != "watch"@.len());
    reveal_strlit("unwatch");
    assert("coordination.initialize_team"@.len() != "unwatch"@.len());
    reveal_strlit("shutdown");
    assert("coordination.initialize_team"@.len() != "shutdown"@.len());
    reveal_strlit("list_accounts");
    assert("coordination.initialize_team"@.len() != "list_accounts"@.len());
    reveal_strlit("project_transcript");
    assert("coordination.initialize_team"@.len() != "project_transcript"@.len());
    reveal_strlit("refresh_usage");
    assert("coordination.initialize_team"@.len() != "refresh_usage"@.len());
    reveal_strlit("resolve_launch_base");
    assert("coordination.initialize_team"@.len() != "resolve_launch_base"@.len());
    reveal_strlit("list_workflow_runs");
    assert("coordination.initialize_team"@.len() != "list_workflow_runs"@.len());
    reveal_strlit("get_workflow_run");
    assert("coordination.initialize_team"@.len() != "get_workflow_run"@.len());
}

proof fn lemma_route_coordination_initialize_status()
    ensures
        route_of("coordination.initialize_status"@) == Some(Route::CoordinationInitializeStatus),
{
    reveal_strlit("coordination.initialize_status");
    reveal_strlit("ping");
    assert("coordination.initialize_status"@.len() != "ping"@.len());
    reveal_strlit("git_status");
    assert("coordination.initialize_status"@.len() != "git_status"@.len());
    reveal_strlit("git_log");
    assert("coordination.initialize_status"@.len() != "git_log"@.len());
    reveal_strlit("git_latest_commit_time");
    assert("coordination.initialize_status"@.len() != "git_latest_commit_time"@.len());
    reveal_strlit("file_tree");
    assert("coordination.initialize_status"@.len() != "file_tree"@.len());
    reveal_strlit("read_file");
    assert("coordination.initialize_status"@.len() != "read_file"@.len());
    reveal_strlit("read_readme");
    assert("coordination.initialize_status"@.len() != "read_readme"@.len());
    reveal_strlit("read_asset");
    assert("coordination.initialize_status"@.len() != "read_asset"@.len());
    reveal_strlit("scan_sessions");
    assert("coordination.initialize_status"@.len() != "scan_sessions"@.len());
    reveal_strlit("list_display_sessions");
    assert("coordination.initialize_status"@.len() != "list_display_sessions"@.len());
    reveal_strlit("get_runtime_session_snapshot");
    assert("coordination.initialize_status"@.len() != "get_runtime_session_snapshot"@.len());
    reveal_strlit("list_runtime_sessions");
    assert("coordination.initialize_status"@.len() != "list_runtime_sessions"@.len());
    reveal_strlit("wait_session_updates");
    assert("coordination.initialize_status"@.len() != "wait_session_updates"@.len());
    reveal_strlit("launch_session");
    assert("coordination.initialize_status"@.len() != "launch_session"@.len());
    reveal_strlit("stop_session");
    assert("coordination.initialize_status"@.len() != "stop_session"@.len());
    reveal_strlit("navigate_to_session");
    assert("coordination.initialize_status"@.len() != "navigate_to_session"@.len());
    reveal_strlit("get_project_tasks");
    assert("coordination.initialize_status"@.len() != "get_project_tasks"@.len());
    reveal_strlit("git_commits_in_range");
    assert("coordination.initialize_status"@.len() != "git_commits_in_range"@.len());
    reveal_strlit("git_commit_files");
    assert("coordination.initialize_status"@.len() != "git_commit_files"@.len());
    reveal_strlit("git_commit_diff");
    assert("coordination.initialize_status"@.len() != "git_commit_diff"@.len());
    reveal_strlit("watch");
    assert("coordination.initialize_status"@.len() != "watch"@.len());
    reveal_strlit("unwatch");
    assert("coordination.initialize_status"@.len() != "unwatch"@.len());
    reveal_strlit("shutdown");
    assert("coordination.initialize_status"@.len() != "shutdown"@.len());
    reveal_strlit("list_accounts");
    assert("coordination.initialize_status"@.len() != "list_accounts"@.len());
    reveal_strlit("project_transcript");
    assert("coordination.initialize_status"@.len() != "project_transcript"@.len());
    reveal_strlit("refresh_usage");
    assert("coordination.initialize_status"@.len() != "refresh_usage"@.len());
    reveal_strlit("resolve_launch_base");
    assert("coordination.initialize_status"@.len() != "resolve_launch_base"@.len());
    reveal_strlit("list_workflow_runs");
    assert("coordination.initialize_status"@.len() != "list_workflow_runs"@.len());
    reveal_strlit("get_workflow_run");
    assert("coordination.initialize_status"@.len() != "get_workflow_run"@.len());
    reveal_strlit("coordination.initialize_team");
    assert("coordination.initialize_status"@.len() != "coordination.initialize_team"@.len());
}

proof fn lemma_route_coordination_add_agent()
    ensures
        route_of("coordination.add_agent"@) == Some(Route::CoordinationAddAgent),
{
    reveal_strlit("coordination.add_agent");
    reveal_strlit("ping");
    assert("coordination.add_agent"@.len() != "ping"@.len());
    reveal_strlit("git_status");
    assert("coordination.add_agent"@.len() != "git_status"@.len());
    reveal_strlit("git_log");
    assert("coordination.add_agent"@.len() != "git_log"@.len());
    reveal_strlit("git_latest_commit_time");
    assert("coordination.add_agent"@[0] != "git_latest_commit_time"@[0]);
    reveal_strlit("file_tree");
    assert("coordination.add_agent"@.len() != "file_tree"@.len());
    reveal_strlit("read_file");
    assert("coordination.add_agent"@.len() != "read_file"@.len());
    reveal_strlit("read_readme");
    assert("coordination.add_agent"@.len() != "read_readme"@.len());
    reveal_strlit("read_asset");
    assert("coordination.add_agent"@.len() != "read_asset"@.len());
    reveal_strlit("scan_sessions");
    assert("coordination.add_agent"@.len() != "scan_sessions"@.len());
    reveal_strlit("list_display_sessions");
    assert("coordination.add_agent"@.len() != "list_display_sessions"@.len());
    reveal_strlit("get_runtime_session_snapshot");
    assert("coordination.add_agent"@.len() != "get_runtime_session_snapshot"@.len());
    reveal_strlit("list_runtime_sessions");
    assert("coordination.add_agent"@.len() != "list_runtime_sessions"@.len());
    reveal_strlit("wait_session_updates");
    assert("coordination.add_agent"@.len() != "wait_session_updates"@.len());
    reveal_strlit("launch_session");
    assert("coordination.add_agent"@.len() != "launch_session"@.len());
    reveal_strlit("stop_session");
    assert("coordination.add_agent"@.len() != "stop_session"@.len());
    reveal_strlit("navigate_to_session");
    assert("coordination.add_agent"@.len() != "navigate_to_session"@.len());
    reveal_strlit("get_project_tasks");
    assert("coordination.add_agent"@.len() != "get_project_tasks"@.len());
    reveal_strlit("git_commits_in_range");
    assert("coordination.add_agent"@.len() != "git_commits_in_range"@.len());
    reveal_strlit("git_commit_files");
    assert("coordination.add_agent"@.len() != "git_commit_files"@.len());
    reveal_strlit("git_commit_diff");
    assert("coordination.add_agent"@.len() != "git_commit_diff"@.len());
    reveal_strlit("watch");
    assert("coordination.add_agent"@.len() != "watch"@.len());
    reveal_strlit("unwatch");
    assert("coordination.add_agent"@.len() != "unwatch"@.len());
    reveal_strlit("shutdown");
    assert("coordination.add_agent"@.len() != "shutdown"@.len());
    reveal_strlit("list_accounts");
    assert("coordination.add_agent"@.len() != "list_accounts"@.len());
    reveal_strlit("project_transcript");
    assert("coordination.add_agent"@.len() != "project_transcript"@.len());
    reveal_strlit("refresh_usage");
    assert("coordination.add_agent"@.len() != "refresh_usage"@.len());
    reveal_strlit("resolve_launch_base");
    assert("coordination.add_agent"@.len() != "resolve_launch_base"@.len());
    reveal_strlit("list_workflow_runs");
    assert("coordination.add_agent"@.len() != "list_workflow_runs"@.len());
    reveal_strlit("get_workflow_run");
    assert("coordination.add_agent"@.len() != "get_workflow_run"@.len());
    reveal_strlit("coordination.initialize_team");
    assert("coordination.add_agent"@.len() != "coordination.initialize_team"@.len());
    reveal_strlit("coordination.initialize_status");
    assert("coordination.add_agent"@.len() != "coordination.initialize_status"@.len());
}

proof fn lemma_route_coordination_add_agent_status()
    ensures
        route_of("coordination.add_agent_status"@) == Some(Route::CoordinationAddAgentStatus),
{
    reveal_strlit("coordination.add_agent_status");
    reveal_strlit("ping");
    assert("coordination.add_agent_status"@.len() != "ping"@.len());
    reveal_strlit("git_status");
    assert("coordination.add_agent_status"@.len() != "git_status"@.len());
    reveal_strlit("git_log");
    assert("coordination.add_agent_status"@.len() != "git_log"@.len());
    reveal_strlit("git_latest_commit_time");
    assert("coordination.add_agent_status"@.len() != "git_latest_commit_time"@.len());
    reveal_strlit("file_tree");
    assert("coordination.add_agent_status"@.len() != "file_tree"@.len());
    reveal_strlit("read_file");
    assert("coordination.add_agent_status"@.len() != "read_file"@.len());
    reveal_strlit("read_readme");
    assert("coordination.add_agent_status"@.len() != "read_readme"@.len());
    reveal_strlit("read_asset");
    assert("coordination.add_agent_status"@.len() != "read_asset"@.len());
    reveal_strlit("scan_sessions");
    assert("coordination.add_agent_status"@.len() != "scan_sessions"@.len());
    reveal_strlit("list_display_sessions");
    assert("coordination.add_agent_status"@.len() != "list_display_sessions"@.len());
    reveal_strlit("get_runtime_session_snapshot");
    assert("coordination.add_agent_status"@.len() != "get_runtime_session_snapshot"@.len());
    reveal_strlit("list_runtime_sessions");
    assert("coordination.add_agent_status"@.len() != "list_runtime_sessions"@.len());
    reveal_strlit("wait_session_updates");
    assert("coordination.add_agent_status"@.len() != "wait_session_updates"@.len());
    reveal_strlit("launch_session");
    assert("coordination.add_agent_status"@.len() != "launch_session"@.len());
    reveal_strlit("stop_session");
    assert("coordination.add_agent_status"@.len() != "stop_session"@.len());
    reveal_strlit("navigate_to_session");
    assert("coordination.add_agent_status"@.len() != "navigate_to_session"@.len());
    reveal_strlit("get_project_tasks");
    assert("coordination.add_agent_status"@.len() != "get_project_tasks"@.len());
    reveal_strlit("git_commits_in_range");
    assert("coordination.add_agent_status"@.len() != "git_commits_in_range"@.len());
    reveal_strlit("git_commit_files");
    assert("coordination.add_agent_status"@.len() != "git_commit_files"@.len());
    reveal_strlit("git_commit_diff");
    assert("coordination.add_agent_status"@.len() != "git_commit_diff"@.len());
    reveal_strlit("watch");
    assert("coordination.add_agent_status"@.len() != "watch"@.len());
    reveal_strlit("unwatch");
    assert("coordination.add_agent_status"@.len() != "unwatch"@.len());
    reveal_strlit("shutdown");
    assert("coordination.add_agent_status"@.len() != "shutdown"@.len());
    reveal_strlit("list_accounts");
    assert("coordination.add_agent_status"@.len() != "list_accounts"@.len());
    reveal_strlit("project_transcript");
    assert("coordination.add_agent_status"@.len() != "project_transcript"@.len());
    reveal_strlit("refresh_usage");
    assert("coordination.add_agent_status"@.len() != "refresh_usage"@.len());
    reveal_strlit("resolve_launch_base");
    assert("coordination.add_agent_status"@.len() != "resolve_launch_base"@.len());
    reveal_strlit("list_workflow_runs");
    assert("coordination.add_agent_status"@.len() != "list_workflow_runs"@.len());
    reveal_strlit("get_workflow_run");
    assert("coordination.add_agent_status"@.len() != "get_workflow_run"@.len());
    reveal_strlit("coordination.initialize_team");
    assert("coordination.add_agent_status"@.len() != "coordination.initialize_team"@.len());
    reveal_strlit("coordination.initialize_status");
    assert("coordination.add_agent_status"@.len() != "coordination.initialize_status"@.len());
    reveal_strlit("coordination.add_agent");
    assert("coordination.add_agent_status"@.len() != "coordination.add_agent"@.len());
}

proof fn lemma_route_coordination_resume_member()
    ensures
        route_of("coordination.resume_member"@) == Some(Route::CoordinationResumeMember),
{
    reveal_strlit("coordination.resume_member");
    reveal_strlit("ping");
    assert("coordination.resume_member"@.len() != "ping"@.len());
    reveal_strlit("git_status");
    assert("coordination.resume_member"@.len() != "git_status"@.len());
    reveal_strlit("git_log");
    assert("coordination.resume_member"@.len() != "git_log"@.len());
    reveal_strlit("git_latest_commit_time");
    assert("coordination.resume_member"@.len() != "git_latest_commit_time"@.len());
    reveal_strlit("file_tree");
    assert("coordination.resume_member"@.len() != "file_tree"@.len());
    reveal_strlit("read_file");
    assert("coordination.resume_member"@.len() != "read_file"@.len());
    reveal_strlit("read_readme");
    assert("coordination.resume_member"@.len() != "read_readme"@.len());
    reveal_strlit("read_asset");
    assert("coordination.resume_member"@.len() != "read_asset"@.len());
    reveal_strlit("scan_sessions");
    assert("coordination.resume_member"@.len() != "scan_sessions"@.len());
    reveal_strlit("list_display_sessions");
    assert("coordination.resume_member"@.len() != "list_display_sessions"@.len());
    reveal_strlit("get_runtime_session_snapshot");
    assert("coordination.resume_member"@.len() != "get_runtime_session_snapshot"@.len());
    reveal_strlit("list_runtime_sessions");
    assert("coordination.resume_member"@.len() != "list_runtime_sessions"@.len());
    reveal_strlit("wait_session_updates");
    assert("coordination.resume_member"@.len() != "wait_session_updates"@.len());
    reveal_strlit("launch_session");
    assert("coordination.resume_member"@.len() != "launch_session"@.len());
    reveal_strlit("stop_session");
    assert("coordination.resume_member"@.len() != "stop_session"@.len());
    reveal_strlit("navigate_to_session");
    assert("coordination.resume_member"@.len() != "navigate_to_session"@.len());
    reveal_strlit("get_project_tasks");
    assert("coordination.resume_member"@.len() != "get_project_tasks"@.len());
    reveal_strlit("git_commits_in_range");
    assert("coordination.resume_member"@.len() != "git_commits_in_range"@.len());
    reveal_strlit("git_commit_files");
    assert("coordination.resume_member"@.len() != "git_commit_files"@.len());
    reveal_strlit("git_commit_diff");
    assert("coordination.resume_member"@.len() != "git_commit_diff"@.len());
    reveal_strlit("watch");
    assert("coordination.resume_member"@.len() != "watch"@.len());
    reveal_strlit("unwatch");
    assert("coordination.resume_member"@.len() != "unwatch"@.len());
    reveal_strlit("shutdown");
    assert("coordination.resume_member"@.len() != "shutdown"@.len());
    reveal_strlit("list_accounts");
    assert("coordination.resume_member"@.len() != "list_accounts"@.len());
    reveal_strlit("project_transcript");
    assert("coordination.resume_member"@.len() != "project_transcript"@.len());
    reveal_strlit("refresh_usage");
    assert("coordination.resume_member"@.len() != "refresh_usage"@.len());
    reveal_strlit("resolve_launch_base");
    assert("coordination.resume_member"@.len() != "resolve_launch_base"@.len());
    reveal_strlit("list_workflow_runs");
    assert("coordination.resume_member"@.len() != "list_workflow_runs"@.len());
    reveal_strlit("get_workflow_run");
    assert("coordination.resume_member"@.len() != "get_workflow_run"@.len());
    reveal_strlit("coordination.initialize_team");
    assert("coordination.resume_member"@.len() != "coordination.initialize_team"@.len());
    reveal_strlit("coordination.initialize_status");
    assert("coordination.resume_member"@.len() != "coordination.initialize_status"@.len());
    reveal_strlit("coordination.add_agent");
    assert("coordination.resume_member"@.len() != "coordination.add_agent"@.len());
    reveal_strlit("coordination.add_agent_status");
    assert("coordination.resume_member"@.len() != "coordination.add_agent_status"@.len());
}

proof fn lemma_route_coordination_resume_member_status()
    ensures
        route_of("coordination.resume_member_status"@) == Some(Route::CoordinationResumeMemberStatus),
{
    reveal_strlit("coordination.resume_member_status");
    reveal_strlit("ping");
    assert("coordination.resume_member_status"@.len() != "ping"@.len());
    reveal_strlit("git_status");
    assert("coordination.resume_member_status"@.len() != "git_status"@.len());
    reveal_strlit("git_log");
    assert("coordination.resume_member_status"@.len() != "git_log"@.len());
    reveal_strlit("git_latest_commit_time");
    assert("coordination.resume_member_status"@.len() != "git_latest_commit_time"@.len());
    reveal_strlit("file_tree");
    assert("coordination.resume_member_status"@.len() != "file_tree"@.len());
    reveal_strlit("read_file");
    assert("coordination.resume_member_status"@.len() != "read_file"@.len());
    reveal_strlit("read_readme");
    assert("coordination.resume_member_status"@.len() != "read_readme"@.len());
    reveal_strlit("read_asset");
    assert("coordination.resume_member_status"@.len() != "read_asset"@.len());
    reveal_strlit("scan_sessions");
    assert("coordination.resume_member_status"@.len() != "scan_sessions"@.len());
    reveal_strlit("list_display_sessions");
    assert("coordination.resume_member_status"@.len() != "list_display_sessions"@.len());
    reveal_strlit("get_runtime_session_snapshot");
    assert("coordination.resume_member_status"@.len() != "get_runtime_session_snapshot"@.len());
    reveal_strlit("list_runtime_sessions");
    assert("coordination.resume_member_status"@.len() != "list_runtime_sessions"@.len());
    reveal_strlit("wait_session_updates");
    assert("coordination.resume_member_status"@.len() != "wait_session_updates"@.len());
    reveal_strlit("launch_session");
    assert("coordination.resume_member_status"@.len() != "launch_session"@.len());
    reveal_strlit("stop_session");
    assert("coordination.resume_member_status"@.len() != "stop_session"@.len());
    reveal_strlit("navigate_to_session");
    assert("coordination.resume_member_status"@.len() != "navigate_to_session"@.len());
    reveal_strlit("get_project_tasks");
    assert("coordination.resume_member_status"@.len() != "get_project_tasks"@.len());
    reveal_strlit("git_commits_in_range");
    assert("coordination.resume_member_status"@.len() != "git_commits_in_range"@.len());
    reveal_strlit("git_commit_files");
    assert("coordination.resume_member_status"@.len() != "git_commit_files"@.len());
    reveal_strlit("git_commit_diff");
    assert("coordination.resume_member_status"@.len() != "git_commit_diff"@.len());
    reveal_strlit("watch");
    assert("coordination.resume_member_status"@.len() != "watch"@.len());
    reveal_strlit("unwatch");
    assert("coordination.resume_member_status"@.len() != "unwatch"@.len());
    reveal_strlit("shutdown");
    assert("coordination.resume_member_status"@.len() != "shutdown"@.len());
    reveal_strlit("list_accounts");
    assert("coordination.resume_member_status"@.len() != "list_accounts"@.len());
    reveal_strlit("project_transcript");
    assert("coordination.resume_member_status"@.len() != "project_transcript"@.len());
    reveal_strlit("refresh_usage");
    assert("coordination.resume_member_status"@.len() != "refresh_usage"@.len());
    reveal_strlit("resolve_launch_base");
    assert("coordination.resume_member_status"@.len() != "resolve_launch_base"@.len());
    reveal_strlit("list_workflow_runs");
    assert("coordination.resume_member_status"@.len() != "list_workflow_runs"@.len());
    reveal_strlit("get_workflow_run");
    assert("coordination.resume_member_status"@.len() != "get_workflow_run"@.len());
    reveal_strlit("coordination.initialize_team");
    assert("coordination.resume_member_status"@.len() != "coordination.initialize_team"@.len());
    reveal_strlit("coordination.initialize_status");
    assert("coordination.resume_member_status"@.len() != "coordination.initialize_status"@.len());
    reveal_strlit("coordination.add_agent");
    assert("coordination.resume_member_status"@.len() != "coordination.add_agent"@.len());
    reveal_strlit("coordination.add_agent_status");
    assert("coordination.resume_member_status"@.len() != "coordination.add_agent_status"@.len());
    reveal_strlit("coordination.resume_member");
    assert("coordination.resume_member_status"@.len() != "coordination.resume_member"@.len());
}

proof fn lemma_route_coordination_resume_team()
    ensures
        route_of("coordination.resume_team"@) == Some(Route::CoordinationResumeTeam),
{
    reveal_strlit("coordination.resume_team");
    reveal_strlit("ping");
    assert("coordination.resume_team"@.len() != "ping"@.len());
    reveal_strlit("git_status");
    assert("coordination.resume_team"@.len() != "git_status"@.len());
    reveal_strlit("git_log");
    assert("coordination.resume_team"@.len() != "git_log"@.len());
    reveal_strlit("git_latest_commit_time");
    assert("coordination.resume_team"@.len() != "git_latest_commit_time"@.len());
    reveal_strlit("file_tree");
    assert("coordination.resume_team"@.len() != "file_tree"@.len());
    reveal_strlit("read_file");
    assert("coordination.resume_team"@.len() != "read_file"@.len());
    reveal_strlit("read_readme");
    assert("coordination.resume_team"@.len() != "read_readme"@.len());
    reveal_strlit("read_asset");
    assert("coordination.resume_team"@.len() != "read_asset"@.len());
    reveal_strlit("scan_sessions");
    assert("coordination.resume_team"@.len() != "scan_sessions"@.len());
    reveal_strlit("list_display_sessions");
    assert("coordination.resume_team"@.len() != "list_display_sessions"@.len());
    reveal_strlit("get_runtime_session_snapshot");
    assert("coordination.resume_team"@.len() != "get_runtime_session_snapshot"@.len());
    reveal_strlit("list_runtime_sessions");
    assert("coordination.resume_team"@.len() != "list_runtime_sessions"@.len());
    reveal_strlit("wait_session_updates");
    assert("coordination.resume_team"@.len() != "wait_session_updates"@.len());
    reveal_strlit("launch_session");
    assert("coordination.resume_team"@.len() != "launch_session"@.len());
    reveal_strlit("stop_session");
    assert("coordination.resume_team"@.len() != "stop_session"@.len());
    reveal_strlit("navigate_to_session");
    assert("coordination.resume_team"@.len() != "navigate_to_session"@.len());
    reveal_strlit("get_project_tasks");
    assert("coordination.resume_team"@.len() != "get_project_tasks"@.len());
    reveal_strlit("git_commits_in_range");
    assert("coordination.resume_team"@.len() != "git_commits_in_range"@.len());
    reveal_strlit("git_commit_files");
    assert("coordination.resume_team"@.len() != "git_commit_files"@.len());
    reveal_strlit("git_commit_diff");
    assert("coordination.resume_team"@.len() != "git_commit_diff"@.len());
    reveal_strlit("watch");
    assert("coordination.resume_team"@.len() != "watch"@.len());
    reveal_strlit("unwatch");
    assert("coordination.resume_team"@.len() != "unwatch"@.len());
    reveal_strlit("shutdown");
    assert("coordination.resume_team"@.len() != "shutdown"@.len());
    reveal_strlit("list_accounts");
    assert("coordination.resume_team"@.len() != "list_accounts"@.len());
    reveal_strlit("project_transcript");
    assert("coordination.resume_team"@.len() != "project_transcript"@.len());
    reveal_strlit("refresh_usage");
    assert("coordination.resume_team"@.len() != "refresh_usage"@.len());
    reveal_strlit("resolve_launch_base");
    assert("coordination.resume_team"@.len() != "resolve_launch_base"@.len());
    reveal_strlit("list_workflow_runs");
    assert("coordination.resume_team"@.len() != "list_workflow_runs"@.len());
    reveal_strlit("get_workflow_run");
    assert("coordination.resume_team"@.len() != "get_workflow_run"@.len());
    reveal_strlit("coordination.initialize_team");
    assert("coordination.resume_team"@.len() != "coordination.initialize_team"@.len());
    reveal_strlit("coordination.initialize_status");
    assert("coordination.resume_team"@.len() != "coordination.initialize_status"@.len());
    reveal_strlit("coordination.add_agent");
    assert("coordination.resume_team"@.len() != "coordination.add_agent"@.len());
    reveal_strlit("coordination.add_agent_status");
    assert("coordination.resume_team"@.len() != "coordination.add_agent_status"@.len());
    reveal_strlit("coordination.resume_member");
    assert("coordination.resume_team"@.len() != "coordination.resume_member"@.len());
    reveal_strlit("coordination.resume_member_status");
    assert("coordination.resume_team"@.len() != "coordination.resume_member_status"@.len());
}

proof fn lemma_route_coordination_resume_team_status()
    ensures
        route_of("coordination.resume_team_status"@) == Some(Route::CoordinationResumeTeamStatus),
{
    reveal_strlit("coordination.resume_team_status");
    reveal_strlit("ping");
    assert("coordination.resume_team_status"@.len() != "ping"@.len());
    reveal_strlit("git_status");
    assert("coordination.resume_team_status"@.len() != "git_status"@.len());
    reveal_strlit("git_log");
    assert("coordination.resume_team_status"@.len() != "git_log"@.len());
    reveal_strlit("git_latest_commit_time");
    assert("coordination.resume_team_status"@.len() != "git_latest_commit_time"@.len());
    reveal_strlit("file_tree");
    assert("coordination.resume_team_status"@.len() != "file_tree"@.len());
    reveal_strlit("read_file");
    assert("coordination.resume_team_status"@.len() != "read_file"@.len());
    reveal_strlit("read_readme");
    assert("coordination.resume_team_status"@.len() != "read_readme"@.len());
    reveal_strlit("read_asset");
    assert("coordination.resume_team_status"@.len() != "read_asset"@.len());
    reveal_strlit("scan_sessions");
    assert("coordination.resume_team_status"@.len() != "scan_sessions"@.len());
    reveal_strlit("list_display_sessions");
    assert("coordination.resume_team_status"@.len() != "list_display_sessions"@.len());
    reveal_strlit("get_runtime_session_snapshot");
    assert("coordination.resume_team_status"@.len() != "get_runtime_session_snapshot"@.len());
    reveal_strlit("list_runtime_sessions");
    assert("coordination.resume_team_status"@.len() != "list_runtime_sessions"@.len());
    reveal_strlit("wait_session_updates");
    assert("coordination.resume_team_status"@.len() != "wait_session_updates"@.len());
    reveal_strlit("launch_session");
    assert("coordination.resume_team_status"@.len() != "launch_session"@.len());
    reveal_strlit("stop_session");
    assert("coordination.resume_team_status"@.len() != "stop_session"@.len());
    reveal_strlit("navigate_to_session");
    assert("coordination.resume_team_status"@.len() != "navigate_to_session"@.len());
    reveal_strlit("get_project_tasks");
    assert("coordination.resume_team_status"@.len() != "get_project_tasks"@.len());
    reveal_strlit("git_commits_in_range");
    assert("coordination.resume_team_status"@.len() != "git_commits_in_range"@.len());
    reveal_strlit("git_commit_files");
    assert("coordination.resume_team_status"@.len() != "git_commit_files"@.len());
    reveal_strlit("git_commit_diff");
    assert("coordination.resume_team_status"@.len() != "git_commit_diff"@.len());
    reveal_strlit("watch");
    assert("coordination.resume_team_status"@.len() != "watch"@.len());
    reveal_strlit("unwatch");
    assert("coordination.resume_team_status"@.len() != "unwatch"@.len());
    reveal_strlit("shutdown");
    assert("coordination.resume_team_status"@.len() != "shutdown"@.len());
    reveal_strlit("list_accounts");
    assert("coordination.resume_team_status"@.len() != "list_accounts"@.len());
    reveal_strlit("project_transcript");
    assert("coordination.resume_team_status"@.len() != "project_transcript"@.len());
    reveal_strlit("refresh_usage");
    assert("coordination.resume_team_status"@.len() != "refresh_usage"@.len());
    reveal_strlit("resolve_launch_base");
    assert("coordination.resume_team_status"@.len() != "resolve_launch_base"@.len());
    reveal_strlit("list_workflow_runs");
    assert("coordination.resume_team_status"@.len() != "list_workflow_runs"@.len());
    reveal_strlit("get_workflow_run");
    assert("coordination.resume_team_status"@.len() != "get_workflow_run"@.len());
    reveal_strlit("coordination.initialize_team");
    assert("coordination.resume_team_status"@.len() != "coordination.initialize_team"@.len());
    reveal_strlit("coordination.initialize_status");
    assert("coordination.resume_team_status"@.len() != "coordination.initialize_status"@.len());
    reveal_strlit("coordination.add_agent");
    assert("coordination.resume_team_status"@.len() != "coordination.add_agent"@.len());
    reveal_strlit("coordination.add_agent_status");
    assert("coordination.resume_team_status"@.len() != "coordination.add_agent_status"@.len());
    reveal_strlit("coordination.resume_member");
    assert("coordination.resume_team_status"@.len() != "coordination.resume_member"@.len());
    reveal_strlit("coordination.resume_member_status");
    assert("coordination.resume_team_status"@.len() != "coordination.resume_member_status"@.len());
    reveal_strlit("coordination.resume_team");
    assert("coordination.resume_team_status"@.len() != "coordination.resume_team"@.len());
}

proof fn lemma_route_coordination_reonboard()
    ensures
        route_of("coordination.reonboard"@) == Some(Route::CoordinationReonboard),
{
    reveal_strlit("coordination.reonboard");
    reveal_strlit("ping");
    assert("coordination.reonboard"@.len() != "ping"@.len());
    reveal_strlit("git_status");
    assert("coordination.reonboard"@.len() != "git_status"@.len());
    reveal_strlit("git_log");
    assert("coordination.reonboard"@.len() != "git_log"@.len());
    reveal_strlit("git_latest_commit_time");
    assert("coordination.reonboard"@[0] != "git_latest_commit_time"@[0]);
    reveal_strlit("file_tree");
    assert("coordination.reonboard"@.len() != "file_tree"@.len());
    reveal_strlit("read_file");
    assert("coordination.reonboard"@.len() != "read_file"@.len());
    reveal_strlit("read_readme");
    assert("coordination.reonboard"@.len() != "read_readme"@.len());
    reveal_strlit("read_asset");
    assert("coordination.reonboard"@.len() != "read_asset"@.len());
    reveal_strlit("scan_sessions");
    assert("coordination.reonboard"@.len() != "scan_sessions"@.len());
    reveal_strlit("list_display_sessions");
    assert("coordination.reonboard"@.len() != "list_display_sessions"@.len());
    reveal_strlit("get_runtime_session_snapshot");
    assert("coordination.reonboard"@.len() != "get_runtime_session_snapshot"@.len());
    reveal_strlit("list_runtime_sessions");
    assert("coordination.reonboard"@.len() != "list_runtime_sessions"@.len());
    reveal_strlit("wait_session_updates");
    assert("coordination.reonboard"@.len() != "wait_session_updates"@.len());
    reveal_strlit("launch_session");
    assert("coordination.reonboard"@.len() != "launch_session"@.len());
    reveal_strlit("stop_session");
    assert("coordination.reonboard"@.len() != "stop_session"@.len());
    reveal_strlit("navigate_to_session");
    assert("coordination.reonboard"@.len() != "navigate_to_session"@.len());
    reveal_strlit("get_project_tasks");
    assert("coordination.reonboard"@.len() != "get_project_tasks"@.len());
    reveal_strlit("git_commits_in_range");
    assert("coordination.reonboard"@.len() != "git_commits_in_range"@.len());
    reveal_strlit("git_commit_files");
    assert("coordination.reonboard"@.len() != "git_commit_files"@.len());
    reveal_strlit("git_commit_diff");
    assert("coordination.reonboard"@.len() != "git_commit_diff"@.len());
    reveal_strlit("watch");
    assert("coordination.reonboard"@.len() != "watch"@.len());
    reveal_strlit("unwatch");
    assert("coordination.reonboard"@.len() != "unwatch"@.len());
    reveal_strlit("shutdown");
    assert("coordination.reonboard"@.len() != "shutdown"@.len());
    reveal_strlit("list_accounts");
    assert("coordination.reonboard"@.len() != "list_accounts"@.len());
    reveal_strlit("project_transcript");
    assert("coordination.reonboard"@.len() != "project_transcript"@.len());
    reveal_strlit("refresh_usage");
    assert("coordination.reonboard"@.len() != "refresh_usage"@.len());
    reveal_strlit("resolve_launch_base");
    assert("coordination.reonboard"@.len() != "resolve_launch_base"@.len());
    reveal_strlit("list_workflow_runs");
    assert("coordination.reonboard"@.len() != "list_workflow_runs"@.len());
    reveal_strlit("get_workflow_run");
    assert("coordination.reonboard"@.len() != "get_workflow_run"@.len());
    reveal_strlit("coordination.initialize_team");
    assert("coordination.reonboard"@.len() != "coordination.initialize_team"@.len());
    reveal_strlit("coordination.initialize_status");
    assert("coordination.reonboard"@.len() != "coordination.initialize_status"@.len());
    reveal_strlit("coordination.add_agent");
    assert("coordination.reonboard"@[13] != "coordination.add_agent"@[13]);
    reveal_strlit("coordination.add_agent_status");
    assert("coordination.reonboard"@.len() != "coordination.add_agent_status"@.len());
    reveal_strlit("coordination.resume_member");
    assert("coordination.reonboard"@.len() != "coordination.resume_member"@.len());
    reveal_strlit("coordination.resume_member_status");
    assert("coordination.reonboard"@.len() != "coordination.resume_member_status"@.len());
    reveal_strlit("coordination.resume_team");
    assert("coordination.reonboard"@.len() != "coordination.resume_team"@.len());
    reveal_strlit("coordination.resume_team_status");
    assert("coordination.reonboard"@.len() != "coordination.resume_team_status"@.len());
}

proof fn lemma_route_coordination_reonboard_status()
    ensures
        route_of("coordination.reonboard_status"@) == Some(Route::CoordinationReonboardStatus),
{
    reveal_strlit("coordination.reonboard_status");
    reveal_strlit("ping");
    assert("coordination.reonboard_status"@.len() != "ping"@.len());
    reveal_strlit("git_status");
    assert("coordination.reonboard_status"@.len() != "git_status"@.len());
    reveal_strlit("git_log");
    assert("coordination.reonboard_status"@.len() != "git_log"@.len());
    reveal_strlit("git_latest_commit_time");
    assert("coordination.reonboard_status"@.len() != "git_latest_commit_time"@.len());
    reveal_strlit("file_tree");
    assert("coordination.reonboard_status"@.len() != "file_tree"@.len());
    reveal_strlit("read_file");
    assert("coordination.reonboard_status"@.len() != "read_file"@.len());
    reveal_strlit("read_readme");
    assert("coordination.reonboard_status"@.len() != "read_readme"@.len());
    reveal_strlit("read_asset");
    assert("coordination.reonboard_status"@.len() != "read_asset"@.len());
    reveal_strlit("scan_sessions");
    assert("coordination.reonboard_status"@.len() != "scan_sessions"@.len());
    reveal_strlit("list_display_sessions");
    assert("coordination.reonboard_status"@.len() != "list_display_sessions"@.len());
    reveal_strlit("get_runtime_session_snapshot");
    assert("coordination.reonboard_status"@.len() != "get_runtime_session_snapshot"@.len());
    reveal_strlit("list_runtime_sessions");
    assert("coordination.reonboard_status"@.len() != "list_runtime_sessions"@.len());
    reveal_strlit("wait_session_updates");
    assert("coordination.reonboard_status"@.len() != "wait_session_updates"@.len());
    reveal_strlit("launch_session");
    assert("coordination.reonboard_status"@.len() != "launch_session"@.len());
    reveal_strlit("stop_session");
    assert("coordination.reonboard_status"@.len() != "stop_session"@.len());
    reveal_strlit("navigate_to_session");
    assert("coordination.reonboard_status"@.len() != "navigate_to_session"@.len());
    reveal_strlit("get_project_tasks");
    assert("coordination.reonboard_status"@.len() != "get_project_tasks"@.len());
    reveal_strlit("git_commits_in_range");
    assert("coordination.reonboard_status"@.len() != "git_commits_in_range"@.len());
    reveal_strlit("git_commit_files");
    assert("coordination.reonboard_status"@.len() != "git_commit_files"@.len());
    reveal_strlit("git_commit_diff");
    assert("coordination.reonboard_status"@.len() != "git_commit_diff"@.len());
    reveal_strlit("watch");
    assert("coordination.reonboard_status"@.len() != "watch"@.len());
    reveal_strlit("unwatch");
    assert("coordination.reonboard_status"@.len() != "unwatch"@.len());
    reveal_strlit("shutdown");
    assert("coordination.reonboard_status"@.len() != "shutdown"@.len());
    reveal_strlit("list_accounts");
    assert("coordination.reonboard_status"@.len() != "list_accounts"@.len());
    reveal_strlit("project_transcript");
    assert("coordination.reonboard_status"@.len() != "project_transcript"@.len());
    reveal_strlit("refresh_usage");
    assert("coordination.reonboard_status"@.len() != "refresh_usage"@.len());
    reveal_strlit("resolve_launch_base");
    assert("coordination.reonboard_status"@.len() != "resolve_launch_base"@.len());
    reveal_strlit("list_workflow_runs");
    assert("coordination.reonboard_status"@.len() != "list_workflow_runs"@.len());
    reveal_strlit("get_workflow_run");
    assert("coordination.reonboard_status"@.len() != "get_workflow_run"@.len());
    reveal_strlit("coordination.initialize_team");
    assert("coordination.reonboard_status"@.len() != "coordination.initialize_team"@.len());
    reveal_strlit("coordination.initialize_status");
    assert("coordination.reonboard_status"@.len() != "coordination.initialize_status"@.len());
    reveal_strlit("coordination.add_agent");
    assert("coordination.reonboard_status"@.len() != "coordination.add_agent"@.len());
    reveal_strlit("coordination.add_agent_status");
    assert("coordination.reonboard_status"@[13] != "coordination.add_agent_status"@[13]);
    reveal_strlit("coordination.resume_member");
    assert("coordination.reonboard_status"@.len() != "coordination.resume_member"@.len());
    reveal_strlit("coordination.resume_member_status");
    assert("coordination.reonboard_status"@.len() != "coordination.resume_member_status"@.len());
    reveal_strlit("coordination.resume_team");
    assert("coordination.reonboard_status"@.len() != "coordination.resume_team"@.len());
    reveal_strlit("coordination.resume_team_status");
    assert("coordination.reonboard_status"@.len() != "coordination.resume_team_status"@.len());
    reveal_strlit("coordination.reonboard");
    assert("coordination.reonboard_status"@.len() != "coordination.reonboard"@.len());
}

proof fn lemma_route_coordination_create_team()
    ensures
        route_of("coordination.create_team"@) == Some(Route::CoordinationCreateTeam),
{
    reveal_strlit("coordination.create_team");
    reveal_strlit("ping");
    assert("coordination.create_team"@.len() != "ping"@.len());
    reveal_strlit("git_status");
    assert("coordination.create_team"@.len() != "git_status"@.len());
    reveal_strlit("git_log");
    assert("coordination.create_team"@.len() != "git_log"@.len());
    reveal_strlit("git_latest_commit_time");
    assert("coordination.create_team"@.len() != "git_latest_commit_time"@.len());
    reveal_strlit("file_tree");
    assert("coordination.create_team"@.len() != "file_tree"@.len());
    reveal_strlit("read_file");
    assert("coordination.create_team"@.len() != "read_file"@.len());
    reveal_strlit("read_readme");
    assert("coordination.create_team"@.len() != "read_readme"@.len());
    reveal_strlit("read_asset");
    assert("coordination.create_team"@.len() != "read_asset"@.len());
    reveal_strlit("scan_sessions");
    assert("coordination.create_team"@.len() != "scan_sessions"@.len());
    reveal_strlit("list_display_sessions");
    assert("coordination.create_team"@.len() != "list_display_sessions"@.len());
    reveal_strlit("get_runtime_session_snapshot");
    assert("coordination.create_team"@.len() != "get_runtime_session_snapshot"@.len());
    reveal_strlit("list_runtime_sessions");
    assert("coordination.create_team"@.len() != "list_runtime_sessions"@.len());
    reveal_strlit("wait_session_updates");
    assert("coordination.create_team"@.len() != "wait_session_updates"@.len());
    reveal_strlit("launch_session");
    assert("coordination.create_team"@.len() != "launch_session"@.len());
    reveal_strlit("stop_session");
    assert("coordination.create_team"@.len() != "stop_session"@.len());
    reveal_strlit("navigate_to_session");
    assert("coordination.create_team"@.len() != "navigate_to_session"@.len());
    reveal_strlit("get_project_tasks");
    assert("coordination.create_team"@.len() != "get_project_tasks"@.len());
    reveal_strlit("git_commits_in_range");
    assert("coordination.create_team"@.len() != "git_commits_in_range"@.len());
    reveal_strlit("git_commit_files");
    assert("coordination.create_team"@.len() != "git_commit_files"@.len());
    reveal_strlit("git_commit_diff");
    assert("coordination.create_team"@.len() != "git_commit_diff"@.len());
    reveal_strlit("watch");
    assert("coordination.create_team"@.len() != "watch"@.len());
    reveal_strlit("unwatch");
    assert("coordination.create_team"@.len() != "unwatch"@.len());
    reveal_strlit("shutdown");
    assert("coordination.create_team"@.len() != "shutdown"@.len());
    reveal_strlit("list_accounts");
    assert("coordination.create_team"@.len() != "list_accounts"@.len());
    reveal_strlit("project_transcript");
    assert("coordination.create_team"@.len() != "project_transcript"@.len());
    reveal_strlit("refresh_usage");
    assert("coordination.create_team"@.len() != "refresh_usage"@.len());
    reveal_strlit("resolve_launch_base");
    assert("coordination.create_team"@.len() != "resolve_launch_base"@.len());
    reveal_strlit("list_workflow_runs");
    assert("coordination.create_team"@.len() != "list_workflow_runs"@.len());
    reveal_strlit("get_workflow_run");
    assert("coordination.create_team"@.len() != "get_workflow_run"@.len());
    reveal_strlit("coordination.initialize_team");
    assert("coordination.create_team"@.len() != "coordination.initialize_team"@.len());
    reveal_strlit("coordination.initialize_status");
    assert("coordination.create_team"@.len() != "coordination.initialize_status"@.len());
    reveal_strlit("coordination.add_agent");
    assert("coordination.create_team"@.len() != "coordination.add_agent"@.len());
    reveal_strlit("coordination.add_agent_status");
    assert("coordination.create_team"@.len() != "coordination.add_agent_status"@.len());
    reveal_strlit("coordination.resume_member");
    assert("coordination.create_team"@.len() != "coordination.resume_member"@.len());
    reveal_strlit("coordination.resume_member_status");
    assert("coordination.create_team"@.len() != "coordination.resume_member_status"@.len());
    reveal_strlit("coordination.resume_team");
    assert("coordination.create_team"@[13] != "coordination.resume_team"@[13]);
    reveal_strlit("coordination.resume_team_status");
    assert("coordination.create_team"@.len() != "coordination.resume_team_status"@.len());
    reveal_strlit("coordination.reonboard");
    assert("coordination.create_team"@.len() != "coordination.reonboard"@.len());
    reveal_strlit("coordination.reonboard_status");
    assert("coordination.create_team"@.len() != "coordination.reonboard_status"@.len());
}

proof fn lemma_route_coordination_create_team_status()
    ensures
        route_of("coordination.create_team_status"@) == Some(Route::CoordinationCreateTeamStatus),
{
    reveal_strlit("coordination.create_team_status");
    reveal_strlit("ping");
    assert("coordination.create_team_status"@.len() != "ping"@.len());
    reveal_strlit("git_status");
    assert("coordination.create_team_status"@.len() != "git_status"@.len());
    reveal_strlit("git_log");
    assert("coordination.create_team_status"@.len() != "git_log"@.len());
    reveal_strlit("git_latest_commit_time");
    assert("coordination.create_team_status"@.len() != "git_latest_commit_time"@.len());
    reveal_strlit("file_tree");
    assert("coordination.create_team_status"@.len() != "file_tree"@.len());
    reveal_strlit("read_file");
    assert("coordination.create_team_status"@.len() != "read_file"@.len());
    reveal_strlit("read_readme");
    assert("coordination.create_team_status"@.len() != "read_readme"@.len());
    reveal_strlit("read_asset");
    assert("coordination.create_team_status"@.len() != "read_asset"@.len());
    reveal_strlit("scan_sessions");
    assert("coordination.create_team_status"@.len() != "scan_sessions"@.len());
    reveal_strlit("list_display_sessions");
    assert("coordination.create_team_status"@.len() != "list_display_sessions"@.len());
    reveal_strlit("get_runtime_session_snapshot");
    assert("coordination.create_team_status"@.len() != "get_runtime_session_snapshot"@.len());
    reveal_strlit("list_runtime_sessions");
    assert("coordination.create_team_status"@.len() != "list_runtime_sessions"@.len());
    reveal_strlit("wait_session_updates");
    assert("coordination.create_team_status"@.len() != "wait_session_updates"@.len());
    reveal_strlit("launch_session");
    assert("coordination.create_team_status"@.len() != "launch_session"@.len());
    reveal_strlit("stop_session");
    assert("coordination.create_team_status"@.len() != "stop_session"@.len());
    reveal_strlit("navigate_to_session");
    assert("coordination.create_team_status"@.len() != "navigate_to_session"@.len());
    reveal_strlit("get_project_tasks");
    assert("coordination.create_team_status"@.len() != "get_project_tasks"@.len());
    reveal_strlit("git_commits_in_range");
    assert("coordination.create_team_status"@.len() != "git_commits_in_range"@.len());
    reveal_strlit("git_commit_files");
    assert("coordination.create_team_status"@.len() != "git_commit_files"@.len());
    reveal_strlit("git_commit_diff");
    assert("coordination.create_team_status"@.len() != "git_commit_diff"@.len());
    reveal_strlit("watch");
    assert("coordination.create_team_status"@.len() != "watch"@.len());
    reveal_strlit("unwatch");
    assert("coordination.create_team_status"@.len() != "unwatch"@.len());
    reveal_strlit("shutdown");
    assert("coordination.create_team_status"@.len() != "shutdown"@.len());
    reveal_strlit("list_accounts");
    assert("coordination.create_team_status"@.len() != "list_accounts"@.len());
    reveal_strlit("project_transcript");
    assert("coordination.create_team_status"@.len() != "project_transcript"@.len());
    reveal_strlit("refresh_usage");
    assert("coordination.create_team_status"@.len() != "refresh_usage"@.len());
    reveal_strlit("resolve_launch_base");
    assert("coordination.create_team_status"@.len() != "resolve_launch_base"@.len());
    reveal_strlit("list_workflow_runs");
    assert("coordination.create_team_status"@.len() != "list_workflow_runs"@.len());
    reveal_strlit("get_workflow_run");
    assert("coordination.create_team_status"@.len() != "get_workflow_run"@.len());
    reveal_strlit("coordination.initialize_team");
    assert("coordination.create_team_status"@.len() != "coordination.initialize_team"@.len());
    reveal_strlit("coordination.initialize_status");
    assert("coordination.create_team_status"@.len() != "coordination.initialize_status"@.len());
    reveal_strlit("coordination.add_agent");
    assert("coordination.create_team_status"@.len() != "coordination.add_agent"@.len());
    reveal_strlit("coordination.add_agent_status");
    assert("coordination.create_team_status"@.len() != "coordination.add_agent_status"@.len());
    reveal_strlit("coordination.resume_member");
    assert("coordination.create_team_status"@.len() != "coordination.resume_member"@.len());
    reveal_strlit("coordination.resume_member_status");
    assert("coordination.create_team_status"@.len() != "coordination.resume_member_status"@.len());
    reveal_strlit("coordination.resume_team");
    assert("coordination.create_team_status"@.len() != "coordination.resume_team"@.len());
    reveal_strlit("coordination.resume_team_status");
    assert("coordination.create_team_status"@[13] != "coordination.resume_team_status"@[13]);
    reveal_strlit("coordination.reonboard");
    assert("coordination.create_team_status"@.len() != "coordination.reonboard"@.len());
    reveal_strlit("coordination.reonboard_status");
    assert("coordination.create_team_status"@.len() != "coordination.reonboard_status"@.len());
    reveal_strlit("coordination.create_team");
    assert("coordination.create_team_status"@.len() != "coordination.create_team"@.len());
}

proof fn lemma_route_coordination_disband_team()
    ensures
        route_of("coordination.disband_team"@) == Some(Route::CoordinationDisbandTeam),
{
    reveal_strlit("coordination.disband_team");
    reveal_strlit("ping");
    assert("coordination.disband_team"@.len() != "ping"@.len());
    reveal_strlit("git_status");
    assert("coordination.disband_team"@.len() != "git_status"@.len());
    reveal_strlit("git_log");
    assert("coordination.disband_team"@.len() != "git_log"@.len());
    reveal_strlit("git_latest_commit_time");
    assert("coordination.disband_team"@.len() != "git_latest_commit_time"@.len());
    reveal_strlit("file_tree");
    assert("coordination.disband_team"@.len() != "file_tree"@.len());
    reveal_strlit("read_file");
    assert("coordination.disband_team"@.len() != "read_file"@.len());
    reveal_strlit("read_readme");
    assert("coordination.disband_team"@.len() != "read_readme"@.len());
    reveal_strlit("read_asset");
    assert("coordination.disband_team"@.len() != "read_asset"@.len());
    reveal_strlit("scan_sessions");
    assert("coordination.disband_team"@.len() != "scan_sessions"@.len());
    reveal_strlit("list_display_sessions");
    assert("coordination.disband_team"@.len() != "list_display_sessions"@.len());
    reveal_strlit("get_runtime_session_snapshot");
    assert("coordination.disband_team"@.len() != "get_runtime_session_snapshot"@.len());
    reveal_strlit("list_runtime_sessions");
    assert("coordination.disband_team"@.len() != "list_runtime_sessions"@.len());
    reveal_strlit("wait_session_updates");
    assert("coordination.disband_team"@.len() != "wait_session_updates"@.len());
    reveal_strlit("launch_session");
    assert("coordination.disband_team"@.len() != "launch_session"@.len());
    reveal_strlit("stop_session");
    assert("coordination.disband_team"@.len() != "stop_session"@.len());
    reveal_strlit("navigate_to_session");
    assert("coordination.disband_team"@.len() != "navigate_to_session"@.len());
    reveal_strlit("get_project_tasks");
    assert("coordination.disband_team"@.len() != "get_project_tasks"@.len());
    reveal_strlit("git_commits_in_range");
    assert("coordination.disband_team"@.len() != "git_commits_in_range"@.len());
    reveal_strlit("git_commit_files");
    assert("coordination.disband_team"@.len() != "git_commit_files"@.len());
    reveal_strlit("git_commit_diff");
    assert("coordination.disband_team"@.len() != "git_commit_diff"@.len());
    reveal_strlit("watch");
    assert("coordination.disband_team"@.len() != "watch"@.len());
    reveal_strlit("unwatch");
    assert("coordination.disband_team"@.len() != "unwatch"@.len());
    reveal_strlit("shutdown");
    assert("coordination.disband_team"@.len() != "shutdown"@.len());
    reveal_strlit("list_accounts");
    assert("coordination.disband_team"@.len() != "list_accounts"@.len());
    reveal_strlit("project_transcript");
    assert("coordination.disband_team"@.len() != "project_transcript"@.len());
    reveal_strlit("refresh_usage");
    assert("coordination.disband_team"@.len() != "refresh_usage"@.len());
    reveal_strlit("resolve_launch_base");
    assert("coordination.disband_team"@.len() != "resolve_launch_base"@.len());
    reveal_strlit("list_workflow_runs");
    assert("coordination.disband_team"@.len() != "list_workflow_runs"@.len());
    reveal_strlit("get_workflow_run");
    assert("coordination.disband_team"@.len() != "get_workflow_run"@.len());
    reveal_strlit("coordination.initialize_team");
    assert("coordination.disband_team"@.len() != "coordination.initialize_team"@.len());
    reveal_strlit("coordination.initialize_status");
    assert("coordination.disband_team"@.len() != "coordination.initialize_status"@.len());
    reveal_strlit("coordination.add_agent");
    assert("coordination.disband_team"@.len() != "coordination.add_agent"@.len());
    reveal_strlit("coordination.add_agent_status");
    assert("coordination.disband_team"@.len() != "coordination.add_agent_status"@.len());
    reveal_strlit("coordination.resume_member");
    assert("coordination.disband_team"@.len() != "coordination.resume_member"@.len());
    reveal_strlit("coordination.resume_member_status");
    assert("coordination.disband_team"@.len() != "coordination.resume_member_status"@.len());
    reveal_strlit("coordination.resume_team");
    assert("coordination.disband_team"@.len() != "coordination.resume_team"@.len());
    reveal_strlit("coordination.resume_team_status");
    assert("coordination.disband_team"@.len() != "coordination.resume_team_status"@.len());
    reveal_strlit("coordination.reonboard");
    assert("coordination.disband_team"@.len() != "coordination.reonboard"@.len());
    reveal_strlit("coordination.reonboard_status");
    assert("coordination.disband_team"@.len() != "coordination.reonboard_status"@.len());
    reveal_strlit("coordination.create_team");
    assert("coordination.disband_team"@.len() != "coordination.create_team"@.len());
    reveal_strlit("coordination.create_team_status");
    assert("coordination.disband_team"@.len() != "coordination.create_team_status"@.len());
}

proof fn lemma_route_coordination_disband_team_status()
    ensures
        route_of("coordination.disband_team_status"@) == Some(Route::CoordinationDisbandTeamStatus),
{
    reveal_strlit("coordination.disband_team_status");
    reveal_strlit("ping");
    assert("coordination.disband_team_status"@.len() != "ping"@.len());
    reveal_strlit("git_status");
    assert("coordination.disband_team_status"@.len() != "git_status"@.len());
    reveal_strlit("git_log");
    assert("coordination.disband_team_status"@.len() != "git_log"@.len());
    reveal_strlit("git_latest_commit_time");
    assert("coordination.disband_team_status"@.len() != "git_latest_commit_time"@.len());
    reveal_strlit("file_tree");
    assert("coordination.disband_team_status"@.len() != "file_tree"@.len());
    reveal_strlit("read_file");
    assert("coordination.disband_team_status"@.len() != "read_file"@.len());
    reveal_strlit("read_readme");
    assert("coordination.disband_team_status"@.len() != "read_readme"@.len());
    reveal_strlit("read_asset");
    assert("coordination.disband_team_status"@.len() != "read_asset"@.len());
    reveal_strlit("scan_sessions");
    assert("coordination.disband_team_status"@.len() != "scan_sessions"@.len());
    reveal_strlit("list_display_sessions");
    assert("coordination.disband_team_status"@.len() != "list_display_sessions"@.len());
    reveal_strlit("get_runtime_session_snapshot");
    assert("coordination.disband_team_status"@.len() != "get_runtime_session_snapshot"@.len());
    reveal_strlit("list_runtime_sessions");
    assert("coordination.disband_team_status"@.len() != "list_runtime_sessions"@.len());
    reveal_strlit("wait_session_updates");
    assert("coordination.disband_team_status"@.len() != "wait_session_updates"@.len());
    reveal_strlit("launch_session");
    assert("coordination.disband_team_status"@.len() != "launch_session"@.len());
    reveal_strlit("stop_session");
    assert("coordination.disband_team_status"@.len() != "stop_session"@.len());
    reveal_strlit("navigate_to_session");
    assert("coordination.disband_team_status"@.len() != "navigate_to_session"@.len());
    reveal_strlit("get_project_tasks");
    assert("coordination.disband_team_status"@.len() != "get_project_tasks"@.len());
    reveal_strlit("git_commits_in_range");
    assert("coordination.disband_team_status"@.len() != "git_commits_in_range"@.len());
    reveal_strlit("git_commit_files");
    assert("coordination.disband_team_status"@.len() != "git_commit_files"@.len());
    reveal_strlit("git_commit_diff");
    assert("coordination.disband_team_status"@.len() != "git_commit_diff"@.len());
    reveal_strlit("watch");
    assert("coordination.disband_team_status"@.len() != "watch"@.len());
    reveal_strlit("unwatch");
    assert("coordination.disband_team_status"@.len() != "unwatch"@.len());
    reveal_strlit("shutdown");
    assert("coordination.disband_team_status"@.len() != "shutdown"@.len());
    reveal_strlit("list_accounts");
    assert("coordination.disband_team_status"@.len() != "list_accounts"@.len());
    reveal_strlit("project_transcript");
    assert("coordination.disband_team_status"@.len() != "project_transcript"@.len());
    reveal_strlit("refresh_usage");
    assert("coordination.disband_team_status"@.len() != "refresh_usage"@.len());
    reveal_strlit("resolve_launch_base");
    assert("coordination.disband_team_status"@.len() != "resolve_launch_base"@.len());
    reveal_strlit("list_workflow_runs");
    assert("coordination.disband_team_status"@.len() != "list_workflow_runs"@.len());
    reveal_strlit("get_workflow_run");
    assert("coordination.disband_team_status"@.len() != "get_workflow_run"@.len());
    reveal_strlit("coordination.initialize_team");
    assert("coordination.disband_team_status"@.len() != "coordination.initialize_team"@.len());
    reveal_strlit("coordination.initialize_status");
    assert("coordination.disband_team_status"@.len() != "coordination.initialize_status"@.len());
    reveal_strlit("coordination.add_agent");
    assert("coordination.disband_team_status"@.len() != "coordination.add_agent"@.len());
    reveal_strlit("coordination.add_agent_status");
    assert("coordination.disband_team_status"@.len() != "coordination.add_agent_status"@.len());
    reveal_strlit("coordination.resume_member");
    assert("coordination.disband_team_status"@.len() != "coordination.resume_member"@.len());
    reveal_strlit("coordination.resume_member_status");
    assert("coordination.disband_team_status"@.len() != "coordination.resume_member_status"@.len());
    reveal_strlit("coordination.resume_team");
    assert("coordination.disband_team_status"@.len() != "coordination.resume_team"@.len());
    reveal_strlit("coordination.resume_team_status");
    assert("coordination.disband_team_status"@.len() != "coordination.resume_team_status"@.len());
    reveal_strlit("coordination.reonboard");
    assert("coordination.disband_team_status"@.len() != "coordination.reonboard"@.len());
    reveal_strlit("coordination.reonboard_status");
    assert("coordination.disband_team_status"@.len() != "coordination.reonboard_status"@.len());
    reveal_strlit("coordination.create_team");
    assert("coordination.disband_team_status"@.len() != "coordination.create_team"@.len());
    reveal_strlit("coordination.create_team_status");
    assert("coordination.disband_team_status"@.len() != "coordination.create_team_status"@.len());
    reveal_strlit("coordination.disband_team");
    assert("coordination.disband_team_status"@.len() != "coordination.disband_team"@.len());
}

proof fn lemma_route_coordination_add_member()
    ensures
        route_of("coordination.add_member"@) == Some(Route::CoordinationAddMember),
{
    reveal_strlit("coordination.add_member");
    reveal_strlit("ping");
    assert("coordination.add_member"@.len() != "ping"@.len());
    reveal_strlit("git_status");
    assert("coordination.add_member"@.len() != "git_status"@.len());
    reveal_strlit("git_log");
    assert("coordination.add_member"@.len() != "git_log"@.len());
    reveal_strlit("git_latest_commit_time");
    assert("coordination.add_member"@.len() != "git_latest_commit_time"@.len());
    reveal_strlit("file_tree");
    assert("coordination.add_member"@.len() != "file_tree"@.len());
    reveal_strlit("read_file");
    assert("coordination.add_member"@.len() != "read_file"@.len());
    reveal_strlit("read_readme");
    assert("coordination.add_member"@.len() != "read_readme"@.len());
    reveal_strlit("read_asset");
    assert("coordination.add_member"@.len() != "read_asset"@.len());
    reveal_strlit("scan_sessions");
    assert("coordination.add_member"@.len() != "scan_sessions"@.len());
    reveal_strlit("list_display_sessions");
    assert("coordination.add_member"@.len() != "list_display_sessions"@.len());
    reveal_strlit("get_runtime_session_snapshot");
    assert("coordination.add_member"@.len() != "get_runtime_session_snapshot"@.len());
    reveal_strlit("list_runtime_sessions");
    assert("coordination.add_member"@.len() != "list_runtime_sessions"@.len());
    reveal_strlit("wait_session_updates");
    assert("coordination.add_member"@.len() != "wait_session_updates"@.len());
    reveal_strlit("launch_session");
    assert("coordination.add_member"@.len() != "launch_session"@.len());
    reveal_strlit("stop_session");
    assert("coordination.add_member"@.len() != "stop_session"@.len());
    reveal_strlit("navigate_to_session");
    assert("coordination.add_member"@.len() != "navigate_to_session"@.len());
    reveal_strlit("get_project_tasks");
    assert("coordination.add_member"@.len() != "get_project_tasks"@.len());
    reveal_strlit("git_commits_in_range");
    assert("coordination.add_member"@.len() != "git_commits_in_range"@.len());
    reveal_strlit("git_commit_files");
    assert("coordination.add_member"@.len() != "git_commit_files"@.len());
    reveal_strlit("git_commit_diff");
    assert("coordination.add_member"@.len() != "git_commit_diff"@.len());
    reveal_strlit("watch");
    assert("coordination.add_member"@.len() != "watch"@.len());
    reveal_strlit("unwatch");
    assert("coordination.add_member"@.len() != "unwatch"@.len());
    reveal_strlit("shutdown");
    assert("coordination.add_member"@.len() != "shutdown"@.len());
    reveal_strlit("list_accounts");
    assert("coordination.add_member"@.len() != "list_accounts"@.len());
    reveal_strlit("project_transcript");
    assert("coordination.add_member"@.len() != "project_transcript"@.len());
    reveal_strlit("refresh_usage");
    assert("coordination.add_member"@.len() != "refresh_usage"@.len());
    reveal_strlit("resolve_launch_base");
    assert("coordination.add_member"@.len() != "resolve_launch_base"@.len());
    reveal_strlit("list_workflow_runs");
    assert("coordination.add_member"@.len() != "list_workflow_runs"@.len());
    reveal_strlit("get_workflow_run");
    assert("coordination.add_member"@.len() != "get_workflow_run"@.len());
    reveal_strlit("coordination.initialize_team");
    assert("coordination.add_member"@.len() != "coordination.initialize_team"@.len());
    reveal_strlit("coordination.initialize_status");
    assert("coordination.add_member"@.len() != "coordination.initialize_status"@.len());
    reveal_strlit("coordination.add_agent");
    assert("coordination.add_member"@.len() != "coordination.add_agent"@.len());
    reveal_strlit("coordination.add_agent_status");
    assert("coordination.add_member"@.len() != "coordination.add_agent_status"@.len());
    reveal_strlit("coordination.resume_member");
    assert("coordination.add_member"@.len() != "coordination.resume_member"@.len());
    reveal_strlit("coordination.resume_member_status");
    assert("coordination.add_member"@.len() != "coordination.resume_member_status"@.len());
    reveal_strlit("coordination.resume_team");
    assert("coordination.add_member"@.len() != "coordination.resume_team"@.len());
    reveal_strlit("coordination.resume_team_status");
    assert("coordination.add_member"@.len() != "coordination.resume_team_status"@.len());
    reveal_strlit("coordination.reonboard");
    assert("coordination.add_member"@.len() != "coordination.reonboard"@.len());
    reveal_strlit("coordination.reonboard_status");
    assert("coordination.add_member"@.len() != "coordination.reonboard_status"@.len());
    reveal_strlit("coordination.create_team");
    assert("coordination.add_member"@.len() != "coordination.create_team"@.len());
    reveal_strlit("coordination.create_team_status");
    assert("coordination.add_member"@.len() != "coordination.create_team_status"@.len());
    reveal_strlit("coordination.disband_team");
    assert("coordination.add_member"@.len() != "coordination.disband_team"@.len());
    reveal_strlit("coordination.disband_team_status");
    assert("coordination.add_member"@.len() != "coordination.disband_team_status"@.len());
}

proof fn lemma_route_coordination_add_member_status()
    ensures
        route_of("coordination.add_member_status"@) == Some(Route::CoordinationAddMemberStatus),
{
    reveal_strlit("coordination.add_member_status");
    reveal_strlit("ping");
    assert("coordination.add_member_status"@.len() != "ping"@.len());
    reveal_strlit("git_status");
    assert("coordination.add_member_status"@.len() != "git_status"@.len());
    reveal_strlit("git_log");
    assert("coordination.add_member_status"@.len() != "git_log"@.len());
    reveal_strlit("git_latest_commit_time");
    assert("coordination.add_member_status"@.len() != "git_latest_commit_time"@.len());
    reveal_strlit("file_tree");
    assert("coordination.add_member_status"@.len() != "file_tree"@.len());
    reveal_strlit("read_file");
    assert("coordination.add_member_status"@.len() != "read_file"@.len());
    reveal_strlit("read_readme");
    assert("coordination.add_member_status"@.len() != "read_readme"@.len());
    reveal_strlit("read_asset");
    assert("coordination.add_member_status"@.len() != "read_asset"@.len());
    reveal_strlit("scan_sessions");
    assert("coordination.add_member_status"@.len() != "scan_sessions"@.len());
    reveal_strlit("list_display_sessions");
    assert("coordination.add_member_status"@.len() != "list_display_sessions"@.len());
    reveal_strlit("get_runtime_session_snapshot");
    assert("coordination.add_member_status"@.len() != "get_runtime_session_snapshot"@.len());
    reveal_strlit("list_runtime_sessions");
    assert("coordination.add_member_status"@.len() != "list_runtime_sessions"@.len());
    reveal_strlit("wait_session_updates");
    assert("coordination.add_member_status"@.len() != "wait_session_updates"@.len());
    reveal_strlit("launch_session");
    assert("coordination.add_member_status"@.len() != "launch_session"@.len());
    reveal_strlit("stop_session");
    assert("coordination.add_member_status"@.len() != "stop_session"@.len());
    reveal_strlit("navigate_to_session");
    assert("coordination.add_member_status"@.len() != "navigate_to_session"@.len());
    reveal_strlit("get_project_tasks");
    assert("coordination.add_member_status"@.len() != "get_project_tasks"@.len());
    reveal_strlit("git_commits_in_range");
    assert("coordination.add_member_status"@.len() != "git_commits_in_range"@.len());
    reveal_strlit("git_commit_files");
    assert("coordination.add_member_status"@.len() != "git_commit_files"@.len());
    reveal_strlit("git_commit_diff");
    assert("coordination.add_member_status"@.len() != "git_commit_diff"@.len());
    reveal_strlit("watch");
    assert("coordination.add_member_status"@.len() != "watch"@.len());
    reveal_strlit("unwatch");
    assert("coordination.add_member_status"@.len() != "unwatch"@.len());
    reveal_strlit("shutdown");
    assert("coordination.add_member_status"@.len() != "shutdown"@.len());
    reveal_strlit("list_accounts");
    assert("coordination.add_member_status"@.len() != "list_accounts"@.len());
    reveal_strlit("project_transcript");
    assert("coordination.add_member_status"@.len() != "project_transcript"@.len());
    reveal_strlit("refresh_usage");
    assert("coordination.add_member_status"@.len() != "refresh_usage"@.len());
    reveal_strlit("resolve_launch_base");
    assert("coordination.add_member_status"@.len() != "resolve_launch_base"@.len());
    reveal_strlit("list_workflow_runs");
    assert("coordination.add_member_status"@.len() != "list_workflow_runs"@.len());
    reveal_strlit("get_workflow_run");
    assert("coordination.add_member_status"@.len() != "get_workflow_run"@.len());
    reveal_strlit("coordination.initialize_team");
    assert("coordination.add_member_status"@.len() != "coordination.initialize_team"@.len());
    reveal_strlit("coordination.initialize_status");
    assert("coordination.add_member_status"@[13] != "coordination.initialize_status"@[13]);
    reveal_strlit("coordination.add_agent");
    assert("coordination.add_member_status"@.len() != "coordination.add_agent"@.len());
    reveal_strlit("coordination.add_agent_status");
    assert("coordination.add_member_status"@.len() != "coordination.add_agent_status"@.len());
    reveal_strlit("coordination.resume_member");
    assert("coordination.add_member_status"@.len() != "coordination.resume_member"@.len());
    reveal_strlit("coordination.resume_member_status");
    assert("coordination.add_member_status"@.len() != "coordination.resume_member_status"@.len());
    reveal_strlit("coordination.resume_team");
    assert("coordination.add_member_status"@.len() != "coordination.resume_team"@.len());
    reveal_strlit("coordination.resume_team_status");
    assert("coordination.add_member_status"@.len() != "coordination.resume_team_status"@.len());
    reveal_strlit("coordination.reonboard");
    assert("coordination.add_member_status"@.len() != "coordination.reonboard"@.len());
    reveal_strlit("coordination.reonboard_status");
    assert("coordination.add_member_status"@.len() != "coordination.reonboard_status"@.len());
    reveal_strlit("coordination.create_team");
    assert("coordination.add_member_status"@.len() != "coordination.create_team"@.len());
    reveal_strlit("coordination.create_team_status");
    assert("coordination.add_member_status"@.len() != "coordination.create_team_status"@.len());
    reveal_strlit("coordination.disband_team");
    assert("coordination.add_member_status"@.len() != "coordination.disband_team"@.len());
    reveal_strlit("coordination.disband_team_status");
    assert("coordination.add_member_status"@.len() != "coordination.disband_team_status"@.len());
    reveal_strlit("coordination.add_member");
    assert("coordination.add_member_status"@.len() != "coordination.add_member"@.len());
}

proof fn lemma_route_coordination_remove_member()
    ensures
        route_of("coordination.remove_member"@) == Some(Route::CoordinationRemoveMember),
{
    reveal_strlit("coordination.remove_member");
    reveal_strlit("ping");
    assert("coordination.remove_member"@.len() != "ping"@.len());
    reveal_strlit("git_status");
    assert("coordination.remove_member"@.len() != "git_status"@.len());
    reveal_strlit("git_log");
    assert("coordination.remove_member"@.len() != "git_log"@.len());
    reveal_strlit("git_latest_commit_time");
    assert("coordination.remove_member"@.len() != "git_latest_commit_time"@.len());
    reveal_strlit("file_tree");
    assert("coordination.remove_member"@.len() != "file_tree"@.len());
    reveal_strlit("read_file");
    assert("coordination.remove_member"@.len() != "read_file"@.len());
    reveal_strlit("read_readme");
    assert("coordination.remove_member"@.len() != "read_readme"@.len());
    reveal_strlit("read_asset");
    assert("coordination.remove_member"@.len() != "read_asset"@.len());
    reveal_strlit("scan_sessions");
    assert("coordination.remove_member"@.len() != "scan_sessions"@.len());
    reveal_strlit("list_display_sessions");
    assert("coordination.remove_member"@.len() != "list_display_sessions"@.len());
    reveal_strlit("get_runtime_session_snapshot");
    assert("coordination.remove_member"@.len() != "get_runtime_session_snapshot"@.len());
    reveal_strlit("list_runtime_sessions");
    assert("coordination.remove_member"@.len() != "list_runtime_sessions"@.len());
    reveal_strlit("wait_session_updates");
    assert("coordination.remove_member"@.len() != "wait_session_updates"@.len());
    reveal_strlit("launch_session");
    assert("coordination.remove_member"@.len() != "launch_session"@.len());
    reveal_strlit("stop_session");
    assert("coordination.remove_member"@.len() != "stop_session"@.len());
    reveal_strlit("navigate_to_session");
    assert("coordination.remove_member"@.len() != "navigate_to_session"@.len());
    reveal_strlit("get_project_tasks");
    assert("coordination.remove_member"@.len() != "get_project_tasks"@.len());
    reveal_strlit("git_commits_in_range");
    assert("coordination.remove_member"@.len() != "git_commits_in_range"@.len());
    reveal_strlit("git_commit_files");
    assert("coordination.remove_member"@.len() != "git_commit_files"@.len());
    reveal_strlit("git_commit_diff");
    assert("coordination.remove_member"@.len() != "git_commit_diff"@.len());
    reveal_strlit("watch");
    assert("coordination.remove_member"@.len() != "watch"@.len());
    reveal_strlit("unwatch");
    assert("coordination.remove_member"@.len() != "unwatch"@.len());
    reveal_strlit("shutdown");
    assert("coordination.remove_member"@.len() != "shutdown"@.len());
    reveal_strlit("list_accounts");
    assert("coordination.remove_member"@.len() != "list_accounts"@.len());
    reveal_strlit("project_transcript");
    assert("coordination.remove_member"@.len() != "project_transcript"@.len());
    reveal_strlit("refresh_usage");
    assert("coordination.remove_member"@.len() != "refresh_usage"@.len());
    reveal_strlit("resolve_launch_base");
    assert("coordination.remove_member"@.len() != "resolve_launch_base"@.len());
    reveal_strlit("list_workflow_runs");
    assert("coordination.remove_member"@.len() != "list_workflow_runs"@.len());
    reveal_strlit("get_workflow_run");
    assert("coordination.remove_member"@.len() != "get_workflow_run"@.len());
    reveal_strlit("coordination.initialize_team");
    assert("coordination.remove_member"@.len() != "coordination.initialize_team"@.len());
    reveal_strlit("coordination.initialize_status");
    assert("coordination.remove_member"@.len() != "coordination.initialize_status"@.len());
    reveal_strlit("coordination.add_agent");
    assert("coordination.remove_member"@.len() != "coordination.add_agent"@.len());
    reveal_strlit("coordination.add_agent_status");
    assert("coordination.remove_member"@.len() != "coordination.add_agent_status"@.len());
    reveal_strlit("coordination.resume_member");
    assert("coordination.remove_member"@[15] != "coordination.resume_member"@[15]);
    reveal_strlit("coordination.resume_member_status");
    assert("coordination.remove_member"@.len() != "coordination.resume_member_status"@.len());
    reveal_strlit("coordination.resume_team");
    assert("coordination.remove_member"@.len() != "coordination.resume_team"@.len());
    reveal_strlit("coordination.resume_team_status");
    assert("coordination.remove_member"@.len() != "coordination.resume_team_status"@.len());
    reveal_strlit("coordination.reonboard");
    assert("coordination.remove_member"@.len() != "coordination.reonboard"@.len());
    reveal_strlit("coordination.reonboard_status");
    assert("coordination.remove_member"@.len() != "coordination.reonboard_status"@.len());
    reveal_strlit("coordination.create_team");
    assert("coordination.remove_member"@.len() != "coordination.create_team"@.len());
    reveal_strlit("coordination.create_team_status");
    assert("coordination.remove_member"@.len() != "coordination.create_team_status"@.len());
    reveal_strlit("coordination.disband_team");
    assert("coordination.remove_member"@.len() != "coordination.disband_team"@.len());
    reveal_strlit("coordination.disband_team_status");
    assert("coordination.remove_member"@.len() != "coordination.disband_team_status"@.len());
    reveal_strlit("coordination.add_member");
    assert("coordination.remove_member"@.len() != "coordination.add_member"@.len());
    reveal_strlit("coordination.add_member_status");
    assert("coordination.remove_member"@.len() != "coordination.add_member_status"@.len());
}

proof fn lemma_route_coordination_remove_member_status()
    ensures
        route_of("coordination.remove_member_status"@) == Some(Route::CoordinationRemoveMemberStatus),
{
    reveal_strlit("coordination.remove_member_status");
    reveal_strlit("ping");
    assert("coordination.remove_member_status"@.len() != "ping"@.len());
    reveal_strlit("git_status");
    assert("coordination.remove_member_status"@.len() != "git_status"@.len());
    reveal_strlit("git_log");
    assert("coordination.remove_member_status"@.len() != "git_log"@.len());
    reveal_strlit("git_latest_commit_time");
    assert("coordination.remove_member_status"@.len() != "git_latest_commit_time"@.len());
    reveal_strlit("file_tree");
    assert("coordination.remove_member_status"@.len() != "file_tree"@.len());
    reveal_strlit("read_file");
    assert("coordination.remove_member_status"@.len() != "read_file"@.len());
    reveal_strlit("read_readme");
    assert("coordination.remove_member_status"@.len() != "read_readme"@.len());
    reveal_strlit("read_asset");
    assert("coordination.remove_member_status"@.len() != "read_asset"@.len());
    reveal_strlit("scan_sessions");
    assert("coordination.remove_member_status"@.len() != "scan_sessions"@.len());
    reveal_strlit("list_display_sessions");
    assert("coordination.remove_member_status"@.len() != "list_display_sessions"@.len());
    reveal_strlit("get_runtime_session_snapshot");
    assert("coordination.remove_member_status"@.len() != "get_runtime_session_snapshot"@.len());
    reveal_strlit("list_runtime_sessions");
    assert("coordination.remove_member_status"@.len() != "list_runtime_sessions"@.len());
    reveal_strlit("wait_session_updates");
    assert("coordination.remove_member_status"@.len() != "wait_session_updates"@.len());
    reveal_strlit("launch_session");
    assert("coordination.remove_member_status"@.len() != "launch_session"@.len());
    reveal_strlit("stop_session");
    assert("coordination.remove_member_status"@.len() != "stop_session"@.len());
    reveal_strlit("navigate_to_session");
    assert("coordination.remove_member_status"@.len() != "navigate_to_session"@.len());
    reveal_strlit("get_project_tasks");
    assert("coordination.remove_member_status"@.len() != "get_project_tasks"@.len());
    reveal_strlit("git_commits_in_range");
    assert("coordination.remove_member_status"@.len() != "git_commits_in_range"@.len());
    reveal_strlit("git_commit_files");
    assert("coordination.remove_member_status"@.len() != "git_commit_files"@.len());
    reveal_strlit("git_commit_diff");
    assert("coordination.remove_member_status"@.len() != "git_commit_diff"@.len());
    reveal_strlit("watch");
    assert("coordination.remove_member_status"@.len() != "watch"@.len());
    reveal_strlit("unwatch");
    assert("coordination.remove_member_status"@.len() != "unwatch"@.len());
    reveal_strlit("shutdown");
    assert("coordination.remove_member_status"@.len() != "shutdown"@.len());
    reveal_strlit("list_accounts");
    assert("coordination.remove_member_status"@.len() != "list_accounts"@.len());
    reveal_strlit("project_transcript");
    assert("coordination.remove_member_status"@.len() != "project_transcript"@.len());
    reveal_strlit("refresh_usage");
    assert("coordination.remove_member_status"@.len() != "refresh_usage"@.len());
    reveal_strlit("resolve_launch_base");
    assert("coordination.remove_member_status"@.len() != "resolve_launch_base"@.len());
    reveal_strlit("list_workflow_runs");
    assert("coordination.remove_member_status"@.len() != "list_workflow_runs"@.len());
    reveal_strlit("get_workflow_run");
    assert("coordination.remove_member_status"@.len() != "get_workflow_run"@.len());
    reveal_strlit("coordination.initialize_team");
    assert("coordination.remove_member_status"@.len() != "coordination.initialize_team"@.len());
    reveal_strlit("coordination.initialize_status");
    assert("coordination.remove_member_status"@.len() != "coordination.initialize_status"@.len());
    reveal_strlit("coordination.add_agent");
    assert("coordination.remove_member_status"@.len() != "coordination.add_agent"@.len());
    reveal_strlit("coordination.add_agent_status");
    assert("coordination.remove_member_status"@.len() != "coordination.add_agent_status"@.len());
    reveal_strlit("coordination.resume_member");
    assert("coordination.remove_member_status"@.len() != "coordination.resume_member"@.len());
    reveal_strlit("coordination.resume_member_status");
    assert("coordination.remove_member_status"@[15] != "coordination.resume_member_status"@[15]);
    reveal_strlit("coordination.resume_team");
    assert("coordination.remove_member_status"@.len() != "coordination.resume_team"@.len());
    reveal_strlit("coordination.resume_team_status");
    assert("coordination.remove_member_status"@.len() != "coordination.resume_team_status"@.len());
    reveal_strlit("coordination.reonboard");
    assert("coordination.remove_member_status"@.len() != "coordination.reonboard"@.len());
    reveal_strlit("coordination.reonboard_status");
    assert("coordination.remove_member_status"@.len() != "coordination.reonboard_status"@.len());
    reveal_strlit("coordination.create_team");
    assert("coordination.remove_member_status"@.len() != "coordination.create_team"@.len());
    reveal_strlit("coordination.create_team_status");
    assert("coordination.remove_member_status"@.len() != "coordination.create_team_status"@.len());
    reveal_strlit("coordination.disband_team");
    assert("coordination.remove_member_status"@.len() != "coordination.disband_team"@.len());
    reveal_strlit("coordination.disband_team_status");
    assert("coordination.remove_member_status"@.len() != "coordination.disband_team_status"@.len());
    reveal_strlit("coordination.add_member");
    assert("coordination.remove_member_status"@.len() != "coordination.add_member"@.len());
    reveal_strlit("coordination.add_member_status");
    assert("coordination.remove_member_status"@.len() != "coordination.add_member_status"@.len());
    reveal_strlit("coordination.remove_member");
    assert("coordination.remove_member_status"@.len() != "coordination.remove_member"@.len());
}

proof fn lemma_route_coordination_put_launch_settings()
    ensures
        route_of("coordination.put_launch_settings"@) == Some(Route::CoordinationPutLaunchSettings),
{
    reveal_strlit("coordination.put_launch_settings");
    reveal_strlit("ping");
    assert("coordination.put_launch_settings"@.len() != "ping"@.len());
    reveal_strlit("git_status");
    assert("coordination.put_launch_settings"@.len() != "git_status"@.len());
    reveal_strlit("git_log");
    assert("coordination.put_launch_settings"@.len() != "git_log"@.len());
    reveal_strlit("git_latest_commit_time");
    assert("coordination.put_launch_settings"@.len() != "git_latest_commit_time"@.len());
    reveal_strlit("file_tree");
    assert("coordination.put_launch_settings"@.len() != "file_tree"@.len());
    reveal_strlit("read_file");
    assert("coordination.put_launch_settings"@.len() != "read_file"@.len());
    reveal_strlit("read_readme");
    assert("coordination.put_launch_settings"@.len() != "read_readme"@.len());
    reveal_strlit("read_asset");
    assert("coordination.put_launch_settings"@.len() != "read_asset"@.len());
    reveal_strlit("scan_sessions");
    assert("coordination.put_launch_settings"@.len() != "scan_sessions"@.len());
    reveal_strlit("list_display_sessions");
    assert("coordination.put_launch_settings"@.len() != "list_display_sessions"@.len());
    reveal_strlit("get_runtime_session_snapshot");
    assert("coordination.put_launch_settings"@.len() != "get_runtime_session_snapshot"@.len());
    reveal_strlit("list_runtime_sessions");
    assert("coordination.put_launch_settings"@.len() != "list_runtime_sessions"@.len());
    reveal_strlit("wait_session_updates");
    assert("coordination.put_launch_settings"@.len() != "wait_session_updates"@.len());
    reveal_strlit("launch_session");
    assert("coordination.put_launch_settings"@.len() != "launch_session"@.len());
    reveal_strlit("stop_session");
    assert("coordination.put_launch_settings"@.len() != "stop_session"@.len());
    reveal_strlit("navigate_to_session");
    assert("coordination.put_launch_settings"@.len() != "navigate_to_session"@.len());
    reveal_strlit("get_project_tasks");
    assert("coordination.put_launch_settings"@.len() != "get_project_tasks"@.len());
    reveal_strlit("git_commits_in_range");
    assert("coordination.put_launch_settings"@.len() != "git_commits_in_range"@.len());
    reveal_strlit("git_commit_files");
    assert("coordination.put_launch_settings"@.len() != "git_commit_files"@.len());
    reveal_strlit("git_commit_diff");
    assert("coordination.put_launch_settings"@.len() != "git_commit_diff"@.len());
    reveal_strlit("watch");
    assert("coordination.put_launch_settings"@.len() != "watch"@.len());
    reveal_strlit("unwatch");
    assert("coordination.put_launch_settings"@.len() != "unwatch"@.len());
    reveal_strlit("shutdown");
    assert("coordination.put_launch_settings"@.len() != "shutdown"@.len());
    reveal_strlit("list_accounts");
    assert("coordination.put_launch_settings"@.len() != "list_accounts"@.len());
    reveal_strlit("project_transcript");
    assert("coordination.put_launch_settings"@.len() != "project_transcript"@.len());
    reveal_strlit("refresh_usage");
    assert("coordination.put_launch_settings"@.len() != "refresh_usage"@.len());
    reveal_strlit("resolve_launch_base");
    assert("coordination.put_launch_settings"@.len() != "resolve_launch_base"@.len());
    reveal_strlit("list_workflow_runs");
    assert("coordination.put_launch_settings"@.len() != "list_workflow_runs"@.len());
    reveal_strlit("get_workflow_run");
    assert("coordination.put_launch_settings"@.len() != "get_workflow_run"@.len());
    reveal_strlit("coordination.initialize_team");
    assert("coordination.put_launch_settings"@.len() != "coordination.initialize_team"@.len());
    reveal_strlit("coordination.initialize_status");
    assert("coordination.put_launch_settings"@.len() != "coordination.initialize_status"@.len());
    reveal_strlit("coordination.add_agent");
    assert("coordination.put_launch_settings"@.len() != "coordination.add_agent"@.len());
    reveal_strlit("coordination.add_agent_status");
    assert("coordination.put_launch_settings"@.len() != "coordination.add_agent_status"@.len());
    reveal_strlit("coordination.resume_member");
    assert("coordination.put_launch_settings"@.len() != "coordination.resume_member"@.len());
    reveal_strlit("coordination.resume_member_status");
    assert("coordination.put_launch_settings"@.len() != "coordination.resume_member_status"@.len());
    reveal_strlit("coordination.resume_team");
    assert("coordination.put_launch_settings"@.len() != "coordination.resume_team"@.len());
    reveal_strlit("coordination.resume_team_status");
    assert("coordination.put_launch_settings"@.len() != "coordination.resume_team_status"@.len());
    reveal_strlit("coordination.reonboard");
    assert("coordination.put_launch_settings"@.len() != "coordination.reonboard"@.len());
    reveal_strlit("coordination.reonboard_status");
    assert("coordination.put_launch_settings"@.len() != "coordination.reonboard_status"@.len());
    reveal_strlit("coordination.create_team");
    assert("coordination.put_launch_settings"@.len() != "coordination.create_team"@.len());
    reveal_strlit("coordination.create_team_status");
    assert("coordination.put_launch_settings"@.len() != "coordination.create_team_status"@.len());
    reveal_strlit("coordination.disband_team");
    assert("coordination.put_launch_settings"@.len() != "coordination.disband_team"@.len());
    reveal_strlit("coordination.disband_team_status");
    assert("coordination.put_launch_settings"@[13] != "coordination.disband_team_status"@[13]);
    reveal_strlit("coordination.add_member");
    assert("coordination.put_launch_settings"@.len() != "coordination.add_member"@.len());
    reveal_strlit("coordination.add_member_status");
    assert("coordination.put_launch_settings"@.len() != "coordination.add_member_status"@.len());
    reveal_strlit("coordination.remove_member");
    assert("coordination.put_launch_settings"@.len() != "coordination.remove_member"@.len());
    reveal_strlit("coordination.remove_member_status");
    assert("coordination.put_launch_settings"@.len() != "coordination.remove_member_status"@.len());
}

proof fn lemma_route_coordination_apply_task_effort()
    ensures
        route_of("coordination.apply_task_effort"@) == Some(Route::CoordinationApplyTaskEffort),
{
    reveal_strlit("coordination.apply_task_effort");
    reveal_strlit("ping");
    assert("coordination.apply_task_effort"@.len() != "ping"@.len());
    reveal_strlit("git_status");
    assert("coordination.apply_task_effort"@.len() != "git_status"@.len());
    reveal_strlit("git_log");
    assert("coordination.apply_task_effort"@.len() != "git_log"@.len());
    reveal_strlit("git_latest_commit_time");
    assert("coordination.apply_task_effort"@.len() != "git_latest_commit_time"@.len());
    reveal_strlit("file_tree");
    assert("coordination.apply_task_effort"@.len() != "file_tree"@.len());
    reveal_strlit("read_file");
    assert("coordination.apply_task_effort"@.len() != "read_file"@.len());
    reveal_strlit("read_readme");
    assert("coordination.apply_task_effort"@.len() != "read_readme"@.len());
    reveal_strlit("read_asset");
    assert("coordination.apply_task_effort"@.len() != "read_asset"@.len());
    reveal_strlit("scan_sessions");
    assert("coordination.apply_task_effort"@.len() != "scan_sessions"@.len());
    reveal_strlit("list_display_sessions");
    assert("coordination.apply_task_effort"@.len() != "list_display_sessions"@.len());
    reveal_strlit("get_runtime_session_snapshot");
    assert("coordination.apply_task_effort"@.len() != "get_runtime_session_snapshot"@.len());
    reveal_strlit("list_runtime_sessions");
    assert("coordination.apply_task_effort"@.len() != "list_runtime_sessions"@.len());
    reveal_strlit("wait_session_updates");
    assert("coordination.apply_task_effort"@.len() != "wait_session_updates"@.len());
    reveal_strlit("launch_session");
    assert("coordination.apply_task_effort"@.len() != "launch_session"@.len());
    reveal_strlit("stop_session");
    assert("coordination.apply_task_effort"@.len() != "stop_session"@.len());
    reveal_strlit("navigate_to_session");
    assert("coordination.apply_task_effort"@.len() != "navigate_to_session"@.len());
    reveal_strlit("get_project_tasks");
    assert("coordination.apply_task_effort"@.len() != "get_project_tasks"@.len());
    reveal_strlit("git_commits_in_range");
    assert("coordination.apply_task_effort"@.len() != "git_commits_in_range"@.len());
    reveal_strlit("git_commit_files");
    assert("coordination.apply_task_effort"@.len() != "git_commit_files"@.len());
    reveal_strlit("git_commit_diff");
    assert("coordination.apply_task_effort"@.len() != "git_commit_diff"@.len());
    reveal_strlit("watch");
    assert("coordination.apply_task_effort"@.len() != "watch"@.len());
    reveal_strlit("unwatch");
    assert("coordination.apply_task_effort"@.len() != "unwatch"@.len());
    reveal_strlit("shutdown");
    assert("coordination.apply_task_effort"@.len() != "shutdown"@.len());
    reveal_strlit("list_accounts");
    assert("coordination.apply_task_effort"@.len() != "list_accounts"@.len());
    reveal_strlit("project_transcript");
    assert("coordination.apply_task_effort"@.len() != "project_transcript"@.len());
    reveal_strlit("refresh_usage");
    assert("coordination.apply_task_effort"@.len() != "refresh_usage"@.len());
    reveal_strlit("resolve_launch_base");
    assert("coordination.apply_task_effort"@.len() != "resolve_launch_base"@.len());
    reveal_strlit("list_workflow_runs");
    assert("coordination.apply_task_effort"@.len() != "list_workflow_runs"@.len());
    reveal_strlit("get_workflow_run");
    assert("coordination.apply_task_effort"@.len() != "get_workflow_run"@.len());
    reveal_strlit("coordination.initialize_team");
    assert("coordination.apply_task_effort"@.len() != "coordination.initialize_team"@.len());
    reveal_strlit("coordination.initialize_status");
    assert("coordination.apply_task_effort"@[13] != "coordination.initialize_status"@[13]);
    reveal_strlit("coordination.add_agent");
    assert("coordination.apply_task_effort"@.len() != "coordination.add_agent"@.len());
    reveal_strlit("coordination.add_agent_status");
    assert("coordination.apply_task_effort"@.len() != "coordination.add_agent_status"@.len());
    reveal_strlit("coordination.resume_member");
    assert("coordination.apply_task_effort"@.len() != "coordination.resume_member"@.len());
    reveal_strlit("coordination.resume_member_status");
    assert("coordination.apply_task_effort"@.len() != "coordination.resume_member_status"@.len());
    reveal_strlit("coordination.resume_team");
    assert("coordination.apply_task_effort"@.len() != "coordination.resume_team"@.len());
    reveal_strlit("coordination.resume_team_status");
    assert("coordination.apply_task_effort"@.len() != "coordination.resume_team_status"@.len());
    reveal_strlit("coordination.reonboard");
    assert("coordination.apply_task_effort"@.len() != "coordination.reonboard"@.len());
    reveal_strlit("coordination.reonboard_status");
    assert("coordination.apply_task_effort"@.len() != "coordination.reonboard_status"@.len());
    reveal_strlit("coordination.create_team");
    assert("coordination.apply_task_effort"@.len() != "coordination.create_team"@.len());
    reveal_strlit("coordination.create_team_status");
    assert("coordination.apply_task_effort"@.len() != "coordination.create_team_status"@.len());
    reveal_strlit("coordination.disband_team");
    assert("coordination.apply_task_effort"@.len() != "coordination.disband_team"@.len());
    reveal_strlit("coordination.disband_team_status");
    assert("coordination.apply_task_effort"@.len() != "coordination.disband_team_status"@.len());
    reveal_strlit("coordination.add_member");
    assert("coordination.apply_task_effort"@.len() != "coordination.add_member"@.len());
    reveal_strlit("coordination.add_member_status");
    assert("coordination.apply_task_effort"@[14] != "coordination.add_member_status"@[14]);
    reveal_strlit("coordination.remove_member");
    assert("coordination.apply_task_effort"@.len() != "coordination.remove_member"@.len());
    reveal_strlit("coordination.remove_member_status");
    assert("coordination.apply_task_effort"@.len() != "coordination.remove_member_status"@.len());
    reveal_strlit("coordination.put_launch_settings");
    assert("coordination.apply_task_effort"@.len() != "coordination.put_launch_settings"@.len());
}

proof fn lemma_route_coordination_apply_task_effort_status()
    ensures
        route_of("coordination.apply_task_effort_status"@) == Some(Route::CoordinationApplyTaskEffortStatus),
{
    reveal_strlit("coordination.apply_task_effort_status");
    reveal_strlit("ping");
    assert("coordination.apply_task_effort_status"@.len() != "ping"@.len());
    reveal_strlit("git_status");
    assert("coordination.apply_task_effort_status"@.len() != "git_status"@.len());
    reveal_strlit("git_log");
    assert("coordination.apply_task_effort_status"@.len() != "git_log"@.len());
    reveal_strlit("git_latest_commit_time");
    assert("coordination.apply_task_effort_status"@.len() != "git_latest_commit_time"@.len());
    reveal_strlit("file_tree");
    assert("coordination.apply_task_effort_status"@.len() != "file_tree"@.len());
    reveal_strlit("read_file");
    assert("coordination.apply_task_effort_status"@.len() != "read_file"@.len());
    reveal_strlit("read_readme");
    assert("coordination.apply_task_effort_status"@.len() != "read_readme"@.len());
    reveal_strlit("read_asset");
    assert("coordination.apply_task_effort_status"@.len() != "read_asset"@.len());
    reveal_strlit("scan_sessions");
    assert("coordination.apply_task_effort_status"@.len() != "scan_sessions"@.len());
    reveal_strlit("list_display_sessions");
    assert("coordination.apply_task_effort_status"@.len() != "list_display_sessions"@.len());
    reveal_strlit("get_runtime_session_snapshot");
    assert("coordination.apply_task_effort_status"@.len() != "get_runtime_session_snapshot"@.len());
    reveal_strlit("list_runtime_sessions");
    assert("coordination.apply_task_effort_status"@.len() != "list_runtime_sessions"@.len());
    reveal_strlit("wait_session_updates");
    assert("coordination.apply_task_effort_status"@.len() != "wait_session_updates"@.len());
    reveal_strlit("launch_session");
    assert("coordination.apply_task_effort_status"@.len() != "launch_session"@.len());
    reveal_strlit("stop_session");
    assert("coordination.apply_task_effort_status"@.len() != "stop_session"@.len());
    reveal_strlit("navigate_to_session");
    assert("coordination.apply_task_effort_status"@.len() != "navigate_to_session"@.len());
    reveal_strlit("get_project_tasks");
    assert("coordination.apply_task_effort_status"@.len() != "get_project_tasks"@.len());
    reveal_strlit("git_commits_in_range");
    assert("coordination.apply_task_effort_status"@.len() != "git_commits_in_range"@.len());
    reveal_strlit("git_commit_files");
    assert("coordination.apply_task_effort_status"@.len() != "git_commit_files"@.len());
    reveal_strlit("git_commit_diff");
    assert("coordination.apply_task_effort_status"@.len() != "git_commit_diff"@.len());
    reveal_strlit("watch");
    assert("coordination.apply_task_effort_status"@.len() != "watch"@.len());
    reveal_strlit("unwatch");
    assert("coordination.apply_task_effort_status"@.len() != "unwatch"@.len());
    reveal_strlit("shutdown");
    assert("coordination.apply_task_effort_status"@.len() != "shutdown"@.len());
    reveal_strlit("list_accounts");
    assert("coordination.apply_task_effort_status"@.len() != "list_accounts"@.len());
    reveal_strlit("project_transcript");
    assert("coordination.apply_task_effort_status"@.len() != "project_transcript"@.len());
    reveal_strlit("refresh_usage");
    assert("coordination.apply_task_effort_status"@.len() != "refresh_usage"@.len());
    reveal_strlit("resolve_launch_base");
    assert("coordination.apply_task_effort_status"@.len() != "resolve_launch_base"@.len());
    reveal_strlit("list_workflow_runs");
    assert("coordination.apply_task_effort_status"@.len() != "list_workflow_runs"@.len());
    reveal_strlit("get_workflow_run");
    assert("coordination.apply_task_effort_status"@.len() != "get_workflow_run"@.len());
    reveal_strlit("coordination.initialize_team");
    assert("coordination.apply_task_effort_status"@.len() != "coordination.initialize_team"@.len());
    reveal_strlit("coordination.initialize_status");
    assert("coordination.apply_task_effort_status"@.len() != "coordination.initialize_status"@.len());
    reveal_strlit("coordination.add_agent");
    assert("coordination.apply_task_effort_status"@.len() != "coordination.add_agent"@.len());
    reveal_strlit("coordination.add_agent_status");
    assert("coordination.apply_task_effort_status"@.len() != "coordination.add_agent_status"@.len());
    reveal_strlit("coordination.resume_member");
    assert("coordination.apply_task_effort_status"@.len() != "coordination.resume_member"@.len());
    reveal_strlit("coordination.resume_member_status");
    assert("coordination.apply_task_effort_status"@.len() != "coordination.resume_member_status"@.len());
    reveal_strlit("coordination.resume_team");
    assert("coordination.apply_task_effort_status"@.len() != "coordination.resume_team"@.len());
    reveal_strlit("coordination.resume_team_status");
    assert("coordination.apply_task_effort_status"@.len() != "coordination.resume_team_status"@.len());
    reveal_strlit("coordination.reonboard");
    assert("coordination.apply_task_effort_status"@.len() != "coordination.reonboard"@.len());
    reveal_strlit("coordination.reonboard_status");
    assert("coordination.apply_task_effort_status"@.len() != "coordination.reonboard_status"@.len());
    reveal_strlit("coordination.create_team");
    assert("coordination.apply_task_effort_status"@.len() != "coordination.create_team"@.len());
    reveal_strlit("coordination.create_team_status");
    assert("coordination.apply_task_effort_status"@.len() != "coordination.create_team_status"@.len());
    reveal_strlit("coordination.disband_team");
    assert("coordination.apply_task_effort_status"@.len() != "coordination.disband_team"@.len());
    reveal_strlit("coordination.disband_team_status");
    assert("coordination.apply_task_effort_status"@.len() != "coordination.disband_team_status"@.len());
    reveal_strlit("coordination.add_member");
    assert("coordination.apply_task_effort_status"@.len() != "coordination.add_member"@.len());
    reveal_strlit("coordination.add_member_status");
    assert("coordination.apply_task_effort_status"@.len() != "coordination.add_member_status"@.len());
    reveal_strlit("coordination.remove_member");
    assert("coordination.apply_task_effort_status"@.len() != "coordination.remove_member"@.len());
    reveal_strlit("coordination.remove_member_status");
    assert("coordination.apply_task_effort_status"@.len() != "coordination.remove_member_status"@.len());
    reveal_strlit("coordination.put_launch_settings");
    assert("coordination.apply_task_effort_status"@.len() != "coordination.put_launch_settings"@.len());
    reveal_strlit("coordination.apply_task_effort");
    assert("coordination.apply_task_effort_status"@.len() != "coordination.apply_task_effort"@.len());
}

proof fn lemma_route_coordination_publish_operational_snapshots()
    ensures
        route_of("coordination.publish_operational_snapshots"@) == Some(Route::CoordinationPublishOperationalSnapshots),
{
    reveal_strlit("coordination.publish_operational_snapshots");
    reveal_strlit("ping");
    assert("coordination.publish_operational_snapshots"@.len() != "ping"@.len());
    reveal_strlit("git_status");
    assert("coordination.publish_operational_snapshots"@.len() != "git_status"@.len());
    reveal_strlit("git_log");
    assert("coordination.publish_operational_snapshots"@.len() != "git_log"@.len());
    reveal_strlit("git_latest_commit_time");
    assert("coordination.publish_operational_snapshots"@.len() != "git_latest_commit_time"@.len());
    reveal_strlit("file_tree");
    assert("coordination.publish_operational_snapshots"@.len() != "file_tree"@.len());
    reveal_strlit("read_file");
    assert("coordination.publish_operational_snapshots"@.len() != "read_file"@.len());
    reveal_strlit("read_readme");
    assert("coordination.publish_operational_snapshots"@.len() != "read_readme"@.len());
    reveal_strlit("read_asset");
    assert("coordination.publish_operational_snapshots"@.len() != "read_asset"@.len());
    reveal_strlit("scan_sessions");
    assert("coordination.publish_operational_snapshots"@.len() != "scan_sessions"@.len());
    reveal_strlit("list_display_sessions");
    assert("coordination.publish_operational_snapshots"@.len() != "list_display_sessions"@.len());
    reveal_strlit("get_runtime_session_snapshot");
    assert("coordination.publish_operational_snapshots"@.len() != "get_runtime_session_snapshot"@.len());
    reveal_strlit("list_runtime_sessions");
    assert("coordination.publish_operational_snapshots"@.len() != "list_runtime_sessions"@.len());
    reveal_strlit("wait_session_updates");
    assert("coordination.publish_operational_snapshots"@.len() != "wait_session_updates"@.len());
    reveal_strlit("launch_session");
    assert("coordination.publish_operational_snapshots"@.len() != "launch_session"@.len());
    reveal_strlit("stop_session");
    assert("coordination.publish_operational_snapshots"@.len() != "stop_session"@.len());
    reveal_strlit("navigate_to_session");
    assert("coordination.publish_operational_snapshots"@.len() != "navigate_to_session"@.len());
    reveal_strlit("get_project_tasks");
    assert("coordination.publish_operational_snapshots"@.len() != "get_project_tasks"@.len());
    reveal_strlit("git_commits_in_range");
    assert("coordination.publish_operational_snapshots"@.len() != "git_commits_in_range"@.len());
    reveal_strlit("git_commit_files");
    assert("coordination.publish_operational_snapshots"@.len() != "git_commit_files"@.len());
    reveal_strlit("git_commit_diff");
    assert("coordination.publish_operational_snapshots"@.len() != "git_commit_diff"@.len());
    reveal_strlit("watch");
    assert("coordination.publish_operational_snapshots"@.len() != "watch"@.len());
    reveal_strlit("unwatch");
    assert("coordination.publish_operational_snapshots"@.len() != "unwatch"@.len());
    reveal_strlit("shutdown");
    assert("coordination.publish_operational_snapshots"@.len() != "shutdown"@.len());
    reveal_strlit("list_accounts");
    assert("coordination.publish_operational_snapshots"@.len() != "list_accounts"@.len());
    reveal_strlit("project_transcript");
    assert("coordination.publish_operational_snapshots"@.len() != "project_transcript"@.len());
    reveal_strlit("refresh_usage");
    assert("coordination.publish_operational_snapshots"@.len() != "refresh_usage"@.len());
    reveal_strlit("resolve_launch_base");
    assert("coordination.publish_operational_snapshots"@.len() != "resolve_launch_base"@.len());
    reveal_strlit("list_workflow_runs");
    assert("coordination.publish_operational_snapshots"@.len() != "list_workflow_runs"@.len());
    reveal_strlit("get_workflow_run");
    assert("coordination.publish_operational_snapshots"@.len() != "get_workflow_run"@.len());
    reveal_strlit("coordination.initialize_team");
    assert("coordination.publish_operational_snapshots"@.len() != "coordination.initialize_team"@.len());
    reveal_strlit("coordination.initialize_status");
    assert("coordination.publish_operational_snapshots"@.len() != "coordination.initialize_status"@.len());
    reveal_strlit("coordination.add_agent");
    assert("coordination.publish_operational_snapshots"@.len() != "coordination.add_agent"@.len());
    reveal_strlit("coordination.add_agent_status");
    assert("coordination.publish_operational_snapshots"@.len() != "coordination.add_agent_status"@.len());
    reveal_strlit("coordination.resume_member");
    assert("coordination.publish_operational_snapshots"@.len() != "coordination.resume_member"@.len());
    reveal_strlit("coordination.resume_member_status");
    assert("coordination.publish_operational_snapshots"@.len() != "coordination.resume_member_status"@.len());
    reveal_strlit("coordination.resume_team");
    assert("coordination.publish_operational_snapshots"@.len() != "coordination.resume_team"@.len());
    reveal_strlit("coordination.resume_team_status");
    assert("coordination.publish_operational_snapshots"@.len() != "coordination.resume_team_status"@.len());
    reveal_strlit("coordination.reonboard");
    assert("coordination.publish_operational_snapshots"@.len() != "coordination.reonboard"@.len());
    reveal_strlit("coordination.reonboard_status");
    assert("coordination.publish_operational_snapshots"@.len() != "coordination.reonboard_status"@.len());
    reveal_strlit("coordination.create_team");
    assert("coordination.publish_operational_snapshots"@.len() != "coordination.create_team"@.len());
    reveal_strlit("coordination.create_team_status");
    assert("coordination.publish_operational_snapshots"@.len() != "coordination.create_team_status"@.len());
    reveal_strlit("coordination.disband_team");
    assert("coordination.publish_operational_snapshots"@.len() != "coordination.disband_team"@.len());
    reveal_strlit("coordination.disband_team_status");
    assert("coordination.publish_operational_snapshots"@.len() != "coordination.disband_team_status"@.len());
    reveal_strlit("coordination.add_member");
    assert("coordination.publish_operational_snapshots"@.len() != "coordination.add_member"@.len());
    reveal_strlit("coordination.add_member_status");
    assert("coordination.publish_operational_snapshots"@.len() != "coordination.add_member_status"@.len());
    reveal_strlit("coordination.remove_member");
    assert("coordination.publish_operational_snapshots"@.len() != "coordination.remove_member"@.len());
    reveal_strlit("coordination.remove_member_status");
    assert("coordination.publish_operational_snapshots"@.len() != "coordination.remove_member_status"@.len());
    reveal_strlit("coordination.put_launch_settings");
    assert("coordination.publish_operational_snapshots"@.len() != "coordination.put_launch_settings"@.len());
    reveal_strlit("coordination.apply_task_effort");
    assert("coordination.publish_operational_snapshots"@.len() != "coordination.apply_task_effort"@.len());
    reveal_strlit("coordination.apply_task_effort_status");
    assert("coordination.publish_operational_snapshots"@.len() != "coordination.apply_task_effort_status"@.len());
}

proof fn lemma_route_coordination_reconcile_live_presence()
    ensures
        route_of("coordination.reconcile_live_presence"@) == Some(Route::CoordinationReconcileLivePresence),
{
    reveal_strlit("coordination.reconcile_live_presence");
    reveal_strlit("ping");
    assert("coordination.reconcile_live_presence"@.len() != "ping"@.len());
    reveal_strlit("git_status");
    assert("coordination.reconcile_live_presence"@.len() != "git_status"@.len());
    reveal_strlit("git_log");
    assert("coordination.reconcile_live_presence"@.len() != "git_log"@.len());
    reveal_strlit("git_latest_commit_time");
    assert("coordination.reconcile_live_presence"@.len() != "git_latest_commit_time"@.len());
    reveal_strlit("file_tree");
    assert("coordination.reconcile_live_presence"@.len() != "file_tree"@.len());
    reveal_strlit("read_file");
    assert("coordination.reconcile_live_presence"@.len() != "read_file"@.len());
    reveal_strlit("read_readme");
    assert("coordination.reconcile_live_presence"@.len() != "read_readme"@.len());
    reveal_strlit("read_asset");
    assert("coordination.reconcile_live_presence"@.len() != "read_asset"@.len());
    reveal_strlit("scan_sessions");
    assert("coordination.reconcile_live_presence"@.len() != "scan_sessions"@.len());
    reveal_strlit("list_display_sessions");
    assert("coordination.reconcile_live_presence"@.len() != "list_display_sessions"@.len());
    reveal_strlit("get_runtime_session_snapshot");
    assert("coordination.reconcile_live_presence"@.len() != "get_runtime_session_snapshot"@.len());
    reveal_strlit("list_runtime_sessions");
    assert("coordination.reconcile_live_presence"@.len() != "list_runtime_sessions"@.len());
    reveal_strlit("wait_session_updates");
    assert("coordination.reconcile_live_presence"@.len() != "wait_session_updates"@.len());
    reveal_strlit("launch_session");
    assert("coordination.reconcile_live_presence"@.len() != "launch_session"@.len());
    reveal_strlit("stop_session");
    assert("coordination.reconcile_live_presence"@.len() != "stop_session"@.len());
    reveal_strlit("navigate_to_session");
    assert("coordination.reconcile_live_presence"@.len() != "navigate_to_session"@.len());
    reveal_strlit("get_project_tasks");
    assert("coordination.reconcile_live_presence"@.len() != "get_project_tasks"@.len());
    reveal_strlit("git_commits_in_range");
    assert("coordination.reconcile_live_presence"@.len() != "git_commits_in_range"@.len());
    reveal_strlit("git_commit_files");
    assert("coordination.reconcile_live_presence"@.len() != "git_commit_files"@.len());
    reveal_strlit("git_commit_diff");
    assert("coordination.reconcile_live_presence"@.len() != "git_commit_diff"@.len());
    reveal_strlit("watch");
    assert("coordination.reconcile_live_presence"@.len() != "watch"@.len());
    reveal_strlit("unwatch");
    assert("coordination.reconcile_live_presence"@.len() != "unwatch"@.len());
    reveal_strlit("shutdown");
    assert("coordination.reconcile_live_presence"@.len() != "shutdown"@.len());
    reveal_strlit("list_accounts");
    assert("coordination.reconcile_live_presence"@.len() != "list_accounts"@.len());
    reveal_strlit("project_transcript");
    assert("coordination.reconcile_live_presence"@.len() != "project_transcript"@.len());
    reveal_strlit("refresh_usage");
    assert("coordination.reconcile_live_presence"@.len() != "refresh_usage"@.len());
    reveal_strlit("resolve_launch_base");
    assert("coordination.reconcile_live_presence"@.len() != "resolve_launch_base"@.len());
    reveal_strlit("list_workflow_runs");
    assert("coordination.reconcile_live_presence"@.len() != "list_workflow_runs"@.len());
    reveal_strlit("get_workflow_run");
    assert("coordination.reconcile_live_presence"@.len() != "get_workflow_run"@.len());
    reveal_strlit("coordination.initialize_team");
    assert("coordination.reconcile_live_presence"@.len() != "coordination.initialize_team"@.len());
    reveal_strlit("coordination.initialize_status");
    assert("coordination.reconcile_live_presence"@.len() != "coordination.initialize_status"@.len());
    reveal_strlit("coordination.add_agent");
    assert("coordination.reconcile_live_presence"@.len() != "coordination.add_agent"@.len());
    reveal_strlit("coordination.add_agent_status");
    assert("coordination.reconcile_live_presence"@.len() != "coordination.add_agent_status"@.len());
    reveal_strlit("coordination.resume_member");
    assert("coordination.reconcile_live_presence"@.len() != "coordination.resume_member"@.len());
    reveal_strlit("coordination.resume_member_status");
    assert("coordination.reconcile_live_presence"@.len() != "coordination.resume_member_status"@.len());
    reveal_strlit("coordination.resume_team");
    assert("coordination.reconcile_live_presence"@.len() != "coordination.resume_team"@.len());
    reveal_strlit("coordination.resume_team_status");
    assert("coordination.reconcile_live_presence"@.len() != "coordination.resume_team_status"@.len());
    reveal_strlit("coordination.reonboard");
    assert("coordination.reconcile_live_presence"@.len() != "coordination.reonboard"@.len());
    reveal_strlit("coordination.reonboard_status");
    assert("coordination.reconcile_live_presence"@.len() != "coordination.reonboard_status"@.len());
    reveal_strlit("coordination.create_team");
    assert("coordination.reconcile_live_presence"@.len() != "coordination.create_team"@.len());
    reveal_strlit("coordination.create_team_status");
    assert("coordination.reconcile_live_presence"@.len() != "coordination.create_team_status"@.len());
    reveal_strlit("coordination.disband_team");
    assert("coordination.reconcile_live_presence"@.len() != "coordination.disband_team"@.len());
    reveal_strlit("coordination.disband_team_status");
    assert("coordination.reconcile_live_presence"@.len() != "coordination.disband_team_status"@.len());
    reveal_strlit("coordination.add_member");
    assert("coordination.reconcile_live_presence"@.len() != "coordination.add_member"@.len());
    reveal_strlit("coordination.add_member_status");
    assert("coordination.reconcile_live_presence"@.len() != "coordination.add_member_status"@.len());
    reveal_strlit("coordination.remove_member");
    assert("coordination.reconcile_live_presence"@.len() != "coordination.remove_member"@.len());
    reveal_strlit("coordination.remove_member_status");
    assert("coordination.reconcile_live_presence"@.len() != "coordination.remove_member_status"@.len());
    reveal_strlit("coordination.put_launch_settings");
    assert("coordination.reconcile_live_presence"@.len() != "coordination.put_launch_settings"@.len());
    reveal_strlit("coordination.apply_task_effort");
    assert("coordination.reconcile_live_presence"@.len() != "coordination.apply_task_effort"@.len());
    reveal_strlit("coordination.apply_task_effort_status");
    assert("coordination.reconcile_live_presence"@.len() != "coordination.apply_task_effort_status"@.len());
    reveal_strlit("coordination.publish_operational_snapshots");
    assert("coordination.reconcile_live_presence"@.len() != "coordination.publish_operational_snapshots"@.len());
}

proof fn lemma_route_coordination_set_active_project_team()
    ensures
        route_of("coordination.set_active_project_team"@) == Some(Route::CoordinationSetActiveProjectTeam),
{
    reveal_strlit("coordination.set_active_project_team");
    reveal_strlit("ping");
    assert("coordination.set_active_project_team"@.len() != "ping"@.len());
    reveal_strlit("git_status");
    assert("coordination.set_active_project_team"@.len() != "git_status"@.len());
    reveal_strlit("git_log");
    assert("coordination.set_active_project_team"@.len() != "git_log"@.len());
    reveal_strlit("git_latest_commit_time");
    assert("coordination.set_active_project_team"@.len() != "git_latest_commit_time"@.len());
    reveal_strlit("file_tree");
    assert("coordination.set_active_project_team"@.len() != "file_tree"@.len());
    reveal_strlit("read_file");
    assert("coordination.set_active_project_team"@.len() != "read_file"@.len());
    reveal_strlit("read_readme");
    assert("coordination.set_active_project_team"@.len() != "read_readme"@.len());
    reveal_strlit("read_asset");
    assert("coordination.set_active_project_team"@.len() != "read_asset"@.len());
    reveal_strlit("scan_sessions");
    assert("coordination.set_active_project_team"@.len() != "scan_sessions"@.len());
    reveal_strlit("list_display_sessions");
    assert("coordination.set_active_project_team"@.len() != "list_display_sessions"@.len());
    reveal_strlit("get_runtime_session_snapshot");
    assert("coordination.set_active_project_team"@.len() != "get_runtime_session_snapshot"@.len());
    reveal_strlit("list_runtime_sessions");
    assert("coordination.set_active_project_team"@.len() != "list_runtime_sessions"@.len());
    reveal_strlit("wait_session_updates");
    assert("coordination.set_active_project_team"@.len() != "wait_session_updates"@.len());
    reveal_strlit("launch_session");
    assert("coordination.set_active_project_team"@.len() != "launch_session"@.len());
    reveal_strlit("stop_session");
    assert("coordination.set_active_project_team"@.len() != "stop_session"@.len());
    reveal_strlit("navigate_to_session");
    assert("coordination.set_active_project_team"@.len() != "navigate_to_session"@.len());
    reveal_strlit("get_project_tasks");
    assert("coordination.set_active_project_team"@.len() != "get_project_tasks"@.len());
    reveal_strlit("git_commits_in_range");
    assert("coordination.set_active_project_team"@.len() != "git_commits_in_range"@.len());
    reveal_strlit("git_commit_files");
    assert("coordination.set_active_project_team"@.len() != "git_commit_files"@.len());
    reveal_strlit("git_commit_diff");
    assert("coordination.set_active_project_team"@.len() != "git_commit_diff"@.len());
    reveal_strlit("watch");
    assert("coordination.set_active_project_team"@.len() != "watch"@.len());
    reveal_strlit("unwatch");
    assert("coordination.set_active_project_team"@.len() != "unwatch"@.len());
    reveal_strlit("shutdown");
    assert("coordination.set_active_project_team"@.len() != "shutdown"@.len());
    reveal_strlit("list_accounts");
    assert("coordination.set_active_project_team"@.len() != "list_accounts"@.len());
    reveal_strlit("project_transcript");
    assert("coordination.set_active_project_team"@.len() != "project_transcript"@.len());
    reveal_strlit("refresh_usage");
    assert("coordination.set_active_project_team"@.len() != "refresh_usage"@.len());
    reveal_strlit("resolve_launch_base");
    assert("coordination.set_active_project_team"@.len() != "resolve_launch_base"@.len());
    reveal_strlit("list_workflow_runs");
    assert("coordination.set_active_project_team"@.len() != "list_workflow_runs"@.len());
    reveal_strlit("get_workflow_run");
    assert("coordination.set_active_project_team"@.len() != "get_workflow_run"@.len());
    reveal_strlit("coordination.initialize_team");
    assert("coordination.set_active_project_team"@.len() != "coordination.initialize_team"@.len());
    reveal_strlit("coordination.initialize_status");
    assert("coordination.set_active_project_team"@.len() != "coordination.initialize_status"@.len());
    reveal_strlit("coordination.add_agent");
    assert("coordination.set_active_project_team"@.len() != "coordination.add_agent"@.len());
    reveal_strlit("coordination.add_agent_status");
    assert("coordination.set_active_project_team"@.len() != "coordination.add_agent_status"@.len());
    reveal_strlit("coordination.resume_member");
    assert("coordination.set_active_project_team"@.len() != "coordination.resume_member"@.len());
    reveal_strlit("coordination.resume_member_status");
    assert("coordination.set_active_project_team"@.len() != "coordination.resume_member_status"@.len());
    reveal_strlit("coordination.resume_team");
    assert("coordination.set_active_project_team"@.len() != "coordination.resume_team"@.len());
    reveal_strlit("coordination.resume_team_status");
    assert("coordination.set_active_project_team"@.len() != "coordination.resume_team_status"@.len());
    reveal_strlit("coordination.reonboard");
    assert("coordination.set_active_project_team"@.len() != "coordination.reonboard"@.len());
    reveal_strlit("coordination.reonboard_status");
    assert("coordination.set_active_project_team"@.len() != "coordination.reonboard_status"@.len());
    reveal_strlit("coordination.create_team");
    assert("coordination.set_active_project_team"@.len() != "coordination.create_team"@.len());
    reveal_strlit("coordination.create_team_status");
    assert("coordination.set_active_project_team"@.len() != "coordination.create_team_status"@.len());
    reveal_strlit("coordination.disband_team");
    assert("coordination.set_active_project_team"@.len() != "coordination.disband_team"@.len());
    reveal_strlit("coordination.disband_team_status");
    assert("coordination.set_active_project_team"@.len() != "coordination.disband_team_status"@.len());
    reveal_strlit("coordination.add_member");
    assert("coordination.set_active_project_team"@.len() != "coordination.add_member"@.len());
    reveal_strlit("coordination.add_member_status");
    assert("coordination.set_active_project_team"@.len() != "coordination.add_member_status"@.len());
    reveal_strlit("coordination.remove_member");
    assert("coordination.set_active_project_team"@.len() != "coordination.remove_member"@.len());
    reveal_strlit("coordination.remove_member_status");
    assert("coordination.set_active_project_team"@.len() != "coordination.remove_member_status"@.len());
    reveal_strlit("coordination.put_launch_settings");
    assert("coordination.set_active_project_team"@.len() != "coordination.put_launch_settings"@.len());
    reveal_strlit("coordination.apply_task_effort");
    assert("coordination.set_active_project_team"@.len() != "coordination.apply_task_effort"@.len());
    reveal_strlit("coordination.apply_task_effort_status");
    assert("coordination.set_active_project_team"@.len() != "coordination.apply_task_effort_status"@.len());
    reveal_strlit("coordination.publish_operational_snapshots");
    assert("coordination.set_active_project_team"@.len() != "coordination.publish_operational_snapshots"@.len());
    reveal_strlit("coordination.reconcile_live_presence");
    assert("coordination.set_active_project_team"@[13] != "coordination.reconcile_live_presence"@[13]);
}

/// Every method name of the protocol is routed to the handler of the same
/// name: `git_log` is answered by the git-log handler, `git_status` by the
/// git-status handler, and so on for each method the daemon serves.
pub proof fn lemma_methods_reach_their_own_handlers()
    ensures
        route_of("ping"@) == Some(Route::Ping),
        route_of("git_status"@) == Some(Route::GitStatus),
        route_of("git_log"@) == Some(Route::GitLog),
        route_of("git_latest_commit_time"@) == Some(Route::GitLatestCommitTime),
        route_of("file_tree"@) == Some(Route::FileTree),
        route_of("read_file"@) == Some(Route::ReadFile),
        route_of("read_readme"@) == Some(Route::ReadReadme),
        route_of("read_asset"@) == Some(Route::ReadAsset),
        route_of("scan_sessions"@) == Some(Route::ScanSessions),
        route_of("list_display_sessions"@) == Some(Route::ListDisplaySessions),
        route_of("get_runtime_session_snapshot"@) == Some(Route::GetRuntimeSessionSnapshot),
        route_of("list_runtime_sessions"@) == Some(Route::ListRuntimeSessions),
        route_of("wait_session_updates"@) == Some(Route::WaitSessionUpdates),
        route_of("launch_session"@) == Some(Route::LaunchSession),
        route_of("stop_session"@) == Some(Route::StopSession),
        route_of("navigate_to_session"@) == Some(Route::NavigateToSession),
        route_of("get_project_tasks"@) == Some(Route::GetProjectTasks),
        route_of("git_commits_in_range"@) == Some(Route::GitCommitsInRange),
        route_of("git_commit_files"@) == Some(Route::GitCommitFiles),
        route_of("git_commit_diff"@) == Some(Route::GitCommitDiff),
        route_of("watch"@) == Some(Route::Watch),
        route_of("unwatch"@) == Some(Route::Unwatch),
        route_of("shutdown"@) == Some(Route::Shutdown),
        route_of("list_accounts"@) == Some(Route::ListAccounts),
        route_of("project_transcript"@) == Some(Route::ProjectTranscript),
        route_of("refresh_usage"@) == Some(Route::RefreshUsage),
        route_of("resolve_launch_base"@) == Some(Route::ResolveLaunchBase),
        route_of("list_workflow_runs"@) == Some(Route::ListWorkflowRuns),
        route_of("get_workflow_run"@) == Some(Route::GetWorkflowRun),
        route_of("coordination.initialize_team"@) == Some(Route::CoordinationInitializeTeam),
        route_of("coordination.initialize_status"@) == Some(Route::CoordinationInitializeStatus),
        route_of("coordination.add_agent"@) == Some(Route::CoordinationAddAgent),
        route_of("coordination.add_agent_status"@) == Some(Route::CoordinationAddAgentStatus),
        route_of("coordination.resume_member"@) == Some(Route::CoordinationResumeMember),
        route_of("coordination.resume_member_status"@) == Some(Route::CoordinationResumeMemberStatus),
        route_of("coordination.resume_team"@) == Some(Route::CoordinationResumeTeam),
        route_of("coordination.resume_team_status"@) == Some(Route::CoordinationResumeTeamStatus),
        route_of("coordination.reonboard"@) == Some(Route::CoordinationReonboard),
        route_of("coordination.reonboard_status"@) == Some(Route::CoordinationReonboardStatus),
        route_of("coordination.create_team"@) == Some(Route::CoordinationCreateTeam),
        route_of("coordination.create_team_status"@) == Some(Route::CoordinationCreateTeamStatus),
        route_of("coordination.disband_team"@) == Some(Route::CoordinationDisbandTeam),
        route_of("coordination.disband_team_status"@) == Some(Route::CoordinationDisbandTeamStatus),
        route_of("coordination.add_member"@) == Some(Route::CoordinationAddMember),
        route_of("coordination.add_member_status"@) == Some(Route::CoordinationAddMemberStatus),
        route_of("coordination.remove_member"@) == Some(Route::CoordinationRemoveMember),
        route_of("coordination.remove_member_status"@) == Some(Route::CoordinationRemoveMemberStatus),
        route_of("coordination.put_launch_settings"@) == Some(Route::CoordinationPutLaunchSettings),
        route_of("coordination.apply_task_effort"@) == Some(Route::CoordinationApplyTaskEffort),
        route_of("coordination.apply_task_effort_status"@) == Some(Route::CoordinationApplyTaskEffortStatus),
        route_of("coordination.publish_operational_snapshots"@) == Some(Route::CoordinationPublishOperationalSnapshots),
        route_of("coordination.reconcile_live_presence"@) == Some(Route::CoordinationReconcileLivePresence),
        route_of("coordination.set_active_project_team"@) == Some(Route::CoordinationSetActiveProjectTeam),
{
    lemma_route_ping();
    lemma_route_git_status();
    lemma_route_git_log();
    lemma_route_git_latest_commit_time();
    lemma_route_file_tree();
    lemma_route_read_file();
    lemma_route_read_readme();
    lemma_route_read_asset();
    lemma_route_scan_sessions();
    lemma_route_list_display_sessions();
    lemma_route_get_runtime_session_snapshot();
    lemma_route_list_runtime_sessions();
    lemma_route_wait_session_updates();
    lemma_route_launch_session();
    lemma_route_stop_session();
    lemma_route_navigate_to_session();
    lemma_route_get_project_tasks();
    lemma_route_git_commits_in_range();
    lemma_route_git_commit_files();
    lemma_route_git_commit_diff();
    lemma_route_watch();
    lemma_route_unwatch();
    lemma_route_shutdown();
    lemma_route_list_accounts();
    lemma_route_project_transcript();
    lemma_route_refresh_usage();
    lemma_route_resolve_launch_base();
    lemma_route_list_workflow_runs();
    lemma_route_get_workflow_run();
    lemma_route_coordination_initialize_team();
    lemma_route_coordination_initialize_status();
    lemma_route_coordination_add_agent();
    lemma_route_coordination_add_agent_status();
    lemma_route_coordination_resume_member();
    lemma_route_coordination_resume_member_status();
    lemma_route_coordination_resume_team();
    lemma_route_coordination_resume_team_status();
    lemma_route_coordination_reonboard();
    lemma_route_coordination_reonboard_status();
    lemma_route_coordination_create_team();
    lemma_route_coordination_create_team_status();
    lemma_route_coordination_disband_team();
    lemma_route_coordination_disband_team_status();
    lemma_route_coordination_add_member();
    lemma_route_coordination_add_member_status();
    lemma_route_coordination_remove_member();
    lemma_route_coordination_remove_member_status();
    lemma_route_coordination_put_launch_settings();
    lemma_route_coordination_apply_task_effort();
    lemma_route_coordination_apply_task_effort_status();
    lemma_route_coordination_publish_operational_snapshots();
    lemma_route_coordination_reconcile_live_presence();
    lemma_route_coordination_set_active_project_team();
}

/// No two method names reach one handler.
pub proof fn lemma_handlers_answer_one_method_each(a: Seq<char>, b: Seq<char>)
    ensures
        route_of(a) is Some && route_of(a) == route_of(b) ==> a == b,
{
}

/// `Unknown method: <method>`
pub open spec fn unknown_method_message(m: Seq<char>) -> Seq<char> {
    "Unknown method: "@ + m
}

/// Route a request by its method name. A method the daemon does not know is
/// answered with `UNKNOWN_METHOD`.
pub fn route(request_method: &str) -> (r: Result<Route, DaemonError>)
    ensures
        match route_of(request_method@) {
            Some(rt) => r == Ok::<Route, DaemonError>(rt),
            None => r matches Err(e) && e.code@ == "UNKNOWN_METHOD"@ && e.message@ == unknown_method_message(request_method@),
        },
{
    if str_eq(request_method, method::PING) {
        return Ok(Route::Ping);
    }
    if str_eq(request_method, method::GIT_STATUS) {
        return Ok(Route::GitStatus);
    }
    if str_eq(request_method, method::GIT_LOG) {
        return Ok(Route::GitLog);
    }
    if str_eq(request_method, method::GIT_LATEST_COMMIT_TIME) {
        return Ok(Route::GitLatestCommitTime);
    }
    if str_eq(request_method, method::FILE_TREE) {
        return Ok(Route::FileTree);
    }
    if str_eq(request_method, method::READ_FILE) {
        return Ok(Route::ReadFile);
    }
    if str_eq(request_method, method::READ_README) {
        return Ok(Route::ReadReadme);
    }
    if str_eq(request_method, method::READ_ASSET) {
        return Ok(Route::ReadAsset);
    }
    if str_eq(request_method, method::SCAN_SESSIONS) {
        return Ok(Route::ScanSessions);
    }
    if str_eq(request_method, method::LIST_DISPLAY_SESSIONS) {
        return Ok(Route::ListDisplaySessions);
    }
    if str_eq(request_method, method::GET_RUNTIME_SESSION_SNAPSHOT) {
        return Ok(Route::GetRuntimeSessionSnapshot);
    }
    if str_eq(request_method, method::LIST_RUNTIME_SESSIONS) {
        return Ok(Route::ListRuntimeSessions);
    }
    if str_eq(request_method, method::WAIT_SESSION_UPDATES) {
        return Ok(Route::WaitSessionUpdates);
    }
    if str_eq(request_method, method::LAUNCH_SESSION) {
        return Ok(Route::LaunchSession);
    }
    if str_eq(request_method, method::STOP_SESSION) {
        return Ok(Route::StopSession);
    }
    if str_eq(request_method, method::NAVIGATE_TO_SESSION) {
        return Ok(Route::NavigateToSession);
    }
    if str_eq(request_method, method::GET_PROJECT_TASKS) {
        return Ok(Route::GetProjectTasks);
    }
    if str_eq(request_method, method::GIT_COMMITS_IN_RANGE) {
        return Ok(Route::GitCommitsInRange);
    }
    if str_eq(request_method, method::GIT_COMMIT_FILES) {
        return Ok(Route::GitCommitFiles);
    }
    if str_eq(request_method, method::GIT_COMMIT_DIFF) {
        return Ok(Route::GitCommitDiff);
    }
    if str_eq(request_method, method::WATCH) {
        return Ok(Route::Watch);
    }
    if str_eq(request_method, method::UNWATCH) {
        return Ok(Route::Unwatch);
    }
    if str_eq(request_method, method::SHUTDOWN) {
        return Ok(Route::Shutdown);
    }
    if str_eq(request_method, method::LIST_ACCOUNTS) {
        return Ok(Route::ListAccounts);
    }
    if str_eq(request_method, method::PROJECT_TRANSCRIPT) {
        return Ok(Route::ProjectTranscript);
    }
    if str_eq(request_method, method::REFRESH_USAGE) {
        return Ok(Route::RefreshUsage);
    }
    if str_eq(request_method, method::RESOLVE_LAUNCH_BASE) {
        return Ok(Route::ResolveLaunchBase);
    }
    if str_eq(request_method, method::LIST_WORKFLOW_RUNS) {
        return Ok(Route::ListWorkflowRuns);
    }
    if str_eq(request_method, method::GET_WORKFLOW_RUN) {
        return Ok(Route::GetWorkflowRun);
    }
    if str_eq(request_method, method::COORDINATION_INITIALIZE_TEAM) {
        return Ok(Route::CoordinationInitializeTeam);
    }
    if str_eq(request_method, method::COORDINATION_INITIALIZE_STATUS) {
        return Ok(Route::CoordinationInitializeStatus);
    }
    if str_eq(request_method, method::COORDINATION_ADD_AGENT) {
        return Ok(Route::CoordinationAddAgent);
    }
    if str_eq(request_method, method::COORDINATION_ADD_AGENT_STATUS) {
        return Ok(Route::CoordinationAddAgentStatus);
    }
    if str_eq(request_method, method::COORDINATION_RESUME_MEMBER) {
        return Ok(Route::CoordinationResumeMember);
    }
    if str_eq(request_method, method::COORDINATION_RESUME_MEMBER_STATUS) {
        return Ok(Route::CoordinationResumeMemberStatus);
    }
    if str_eq(request_method, method::COORDINATION_RESUME_TEAM) {
        return Ok(Route::CoordinationResumeTeam);
    }
    if str_eq(request_method, method::COORDINATION_RESUME_TEAM_STATUS) {
        return Ok(Route::CoordinationResumeTeamStatus);
    }
    if str_eq(request_method, method::COORDINATION_REONBOARD) {
        return Ok(Route::CoordinationReonboard);
    }
    if str_eq(request_method, method::COORDINATION_REONBOARD_STATUS) {
        return Ok(Route::CoordinationReonboardStatus);
    }
    if str_eq(request_method, method::COORDINATION_CREATE_TEAM) {
        return Ok(Route::CoordinationCreateTeam);
    }
    if str_eq(request_method, method::COORDINATION_CREATE_TEAM_STATUS) {
        return Ok(Route::CoordinationCreateTeamStatus);
    }
    if str_eq(request_method, method::COORDINATION_DISBAND_TEAM) {
        return Ok(Route::CoordinationDisbandTeam);
    }
    if str_eq(request_method, method::COORDINATION_DISBAND_TEAM_STATUS) {
        return Ok(Route::CoordinationDisbandTeamStatus);
    }
    if str_eq(request_method, method::COORDINATION_ADD_MEMBER) {
        return Ok(Route::CoordinationAddMember);
    }
    if str_eq(request_method, method::COORDINATION_ADD_MEMBER_STATUS) {
        return Ok(Route::CoordinationAddMemberStatus);
    }
    if str_eq(request_method, method::COORDINATION_REMOVE_MEMBER) {
        return Ok(Route::CoordinationRemoveMember);
    }
    if str_eq(request_method, method::COORDINATION_REMOVE_MEMBER_STATUS) {
        return Ok(Route::CoordinationRemoveMemberStatus);
    }
    if str_eq(request_method, method::COORDINATION_PUT_LAUNCH_SETTINGS) {
        return Ok(Route::CoordinationPutLaunchSettings);
    }
    if str_eq(request_method, method::COORDINATION_APPLY_TASK_EFFORT) {
        return Ok(Route::CoordinationApplyTaskEffort);
    }
    if str_eq(request_method, method::COORDINATION_APPLY_TASK_EFFORT_STATUS) {
        return Ok(Route::CoordinationApplyTaskEffortStatus);
    }
    if str_eq(request_method, method::COORDINATION_PUBLISH_OPERATIONAL_SNAPSHOTS) {
        return Ok(Route::CoordinationPublishOperationalSnapshots);
    }
    if str_eq(request_method, method::COORDINATION_RECONCILE_LIVE_PRESENCE) {
        return Ok(Route::CoordinationReconcileLivePresence);
    }
    if str_eq(request_method, method::COORDINATION_SET_ACTIVE_PROJECT_TEAM) {
        return Ok(Route::CoordinationSetActiveProjectTeam);
    }
    let mut message = String::from_str("Unknown method: ");
    message.append(request_method);
    Err(DaemonError { code: String::from_str("UNKNOWN_METHOD"), message })
}


/// The error answered for a status poll of a run that is not registered:
/// `COORDINATION_RUN_NOT_FOUND`, `<operation> run '<id>' was not found`.
pub fn coordination_run_not_found(operation: &str, run_id: &str) -> (r: DaemonError)
    ensures
        r.code@ == "COORDINATION_RUN_NOT_FOUND"@,
        r.message@ == operation@ + " run '"@ + run_id@ + "' was not found"@,
{
    let mut message = String::from_str(operation);
    message.append(" run '");
    message.append(run_id);
    message.append("' was not found");
    DaemonError { code: String::from_str("COORDINATION_RUN_NOT_FOUND"), message }
}

/// The error answered for a status poll of a team initialization that is
/// not registered.
pub fn initialize_run_not_found(run_id: &str) -> (r: DaemonError)
    ensures
        r.code@ == "INITIALIZE_RUN_NOT_FOUND"@,
        r.message@ == "team initialization run '"@ + run_id@ + "' was not found"@,
{
    let mut message = String::from_str("team initialization run '");
    message.append(run_id);
    message.append("' was not found");
    DaemonError { code: String::from_str("INITIALIZE_RUN_NOT_FOUND"), message }
}

/// The `ping` answer: the daemon's version and uptime, the protocol version,
/// and the data root it serves.
pub fn ping_result(version: String, uptime_secs: u64, data_root: String) -> (r: PingResult)
    ensures
        r == (PingResult { version, protocol_version: PROTOCOL_VERSION, uptime_secs, data_root }),
{
    PingResult { version, protocol_version: PROTOCOL_VERSION, uptime_secs, data_root }
}

/// The `wait_session_updates` answer for a hub update.
pub fn wait_session_updates_result(update: SessionUpdate) -> (r: WaitSessionUpdatesResult)
    ensures
        r.version == update.snapshot.version,
        r.changed == update.changed,
        r.sessions == update.snapshot.sessions,
        r.account_observations == update.account_observations,
        r.focus == update.focus,
        r.focus_project_path == update.focus_project_path,
        r.degraded == update.degraded,
        r.degraded_revision == update.degraded_revision,
{
    WaitSessionUpdatesResult {
        version: update.snapshot.version,
        changed: update.changed,
        sessions: update.snapshot.sessions,
        account_observations: update.account_observations,
        focus: update.focus,
        focus_project_path: update.focus_project_path,
        degraded: update.degraded,
        degraded_revision: update.degraded_revision,
    }
}

/// The `get_runtime_session_snapshot` answer for a hub snapshot; the focus
/// project travels under its legacy wire name.
pub fn runtime_session_snapshot_result(snapshot: RuntimeSessionSnapshot) -> (r: RuntimeSessionSnapshotResult)
    ensures
        r.version == snapshot.version,
        r.display_sessions == snapshot.display_sessions,
        r.runtime_sessions == snapshot.runtime_sessions,
        r.account_observations == snapshot.account_observations,
        r.focus == snapshot.focus,
        r.foreground_project_path == snapshot.focus_project_path,
        r.degraded == snapshot.degraded,
        r.degraded_revision == snapshot.degraded_revision,
{
    RuntimeSessionSnapshotResult {
        version: snapshot.version,
        display_sessions: snapshot.display_sessions,
        runtime_sessions: snapshot.runtime_sessions,
        account_observations: snapshot.account_observations,
        focus: snapshot.focus,
        foreground_project_path: snapshot.focus_project_path,
        degraded: snapshot.degraded,
        degraded_revision: snapshot.degraded_revision,
    }
}

} // verus!
