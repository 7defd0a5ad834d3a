//! Verified core of the Taurhaus daemon: the session-activity hub, the
//! coordination run registry and its status views, the wire protocol's
//! plain types, token validation and the launcher's path rules.

pub mod text;
pub mod by_time;
pub mod paths;
pub mod launcher;
pub mod cli_tool;
pub mod sessions;
pub mod session_activity;
pub mod requests;
pub mod models;
pub mod protocol;
pub mod clock;
pub mod ids;
pub mod coordination_runs;
pub mod initialize_runs;
pub mod member_runs;
pub mod roster_runs;
pub mod effort_runs;
pub mod background_scheduler;
pub mod auth;
pub mod server;
pub mod handlers;
pub mod claude_usage;
pub mod agy_hooks;
pub mod compaction;
pub mod hosted_activity;
pub mod hosted;
pub mod codex_notify;
pub mod state_writes;
pub mod event_listener;
pub mod listeners;
