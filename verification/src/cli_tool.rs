//! The CLI tools the daemon launches and observes.

use vstd::prelude::*;

verus! {

/// One supported coding CLI.
#[derive(Debug, Clone, Copy, PartialEq, Eq, Hash, Structural)]
pub enum CliTool {
    Claude,
    Codex,
    Antigravity,
    Grok,
}

impl Default for CliTool {
    /// The first tool is the default, for backward compatibility with requests
    /// that name none.
    fn default() -> (r: Self)
        ensures
            r == CliTool::Claude,
    {
        CliTool::Claude
    }
}

} // verus!
