//! Shared data the daemon exchanges with the app: launch command settings,
//! accounts and git history entries.

use vstd::prelude::*;

verus! {

/// The launch commands configured for one CLI tool. An empty command means
/// the tool's built-in command.
#[derive(Debug, Clone, PartialEq, Eq)]
pub struct ToolCommandSettings {
    pub fresh: String,
    pub resume: String,
    pub continue_session: String,
}

/// The launch commands configured for every CLI tool.
#[derive(Debug, Clone, PartialEq, Eq)]
pub struct CliCommandSettings {
    pub claude: ToolCommandSettings,
    pub codex: ToolCommandSettings,
    pub antigravity: ToolCommandSettings,
    pub grok: ToolCommandSettings,
}

impl Default for ToolCommandSettings {
    /// No configured command: every launch uses the built-in one.
    fn default() -> (r: Self)
        ensures
            r.fresh@.len() == 0,
            r.resume@.len() == 0,
            r.continue_session@.len() == 0,
    {
        ToolCommandSettings { fresh: String::new(), resume: String::new(), continue_session: String::new() }
    }
}

impl Default for CliCommandSettings {
    /// No configured command for any tool.
    fn default() -> (r: Self)
        ensures
            r.claude.fresh@.len() == 0 && r.claude.resume@.len() == 0 && r.claude.continue_session@.len() == 0,
            r.codex.fresh@.len() == 0 && r.codex.resume@.len() == 0 && r.codex.continue_session@.len() == 0,
            r.antigravity.fresh@.len() == 0 && r.antigravity.resume@.len() == 0
                && r.antigravity.continue_session@.len() == 0,
            r.grok.fresh@.len() == 0 && r.grok.resume@.len() == 0 && r.grok.continue_session@.len() == 0,
    {
        CliCommandSettings {
            claude: ToolCommandSettings::default(),
            codex: ToolCommandSettings::default(),
            antigravity: ToolCommandSettings::default(),
            grok: ToolCommandSettings::default(),
        }
    }
}

impl ToolCommandSettings {
    /// A field-by-field copy.
    pub fn copy(&self) -> (r: Self)
        ensures
            r == *self,
    {
        ToolCommandSettings {
            fresh: self.fresh.clone(),
            resume: self.resume.clone(),
            continue_session: self.continue_session.clone(),
        }
    }
}

impl CliCommandSettings {
    /// A field-by-field copy.
    pub fn copy(&self) -> (r: Self)
        ensures
            r == *self,
    {
        CliCommandSettings {
            claude: self.claude.copy(),
            codex: self.codex.copy(),
            antigravity: self.antigravity.copy(),
            grok: self.grok.copy(),
        }
    }
}

/// One account of a CLI tool that the daemon's host can see.
#[derive(Debug, Clone, PartialEq, Eq)]
pub struct Account {
    pub id: String,
    pub config_dir: String,
    pub email: String,
    pub display_name: Option<String>,
    pub organization: Option<String>,
    pub logged_in: bool,
    pub is_default: bool,
}

/// One commit of a git log.
#[derive(Debug, Clone, PartialEq, Eq)]
pub struct Commit {
    pub hash: String,
    pub message: String,
    pub body: Option<String>,
    pub author: String,
    pub date: String,
    pub timestamp: i64,
}

/// One file changed by a commit, with its git status letter.
#[derive(Debug, Clone, PartialEq, Eq)]
pub struct CommitFile {
    pub path: String,
    pub status: String,
}

/// One hunk of a file diff: its header and its lines.
#[derive(Debug, Clone, PartialEq, Eq)]
pub struct DiffHunk {
    pub header: String,
    pub lines: Vec<String>,
}

} // verus!
