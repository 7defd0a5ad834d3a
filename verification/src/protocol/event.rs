//! The names of the daemon's push events.

use vstd::prelude::*;

verus! {

pub const FILE_CHANGED: &'static str = "file_changed";

pub const GIT_CHANGED: &'static str = "git_changed";

pub const SESSION_FILE_CREATED: &'static str = "session_file_created";

} // verus!
