//! How the app turns a daemon push event into a watch event for a project.

use vstd::prelude::*;
use crate::paths::{join_path, joined};
use crate::protocol::{event, FileChangedData, GitChangedData, SessionFileCreatedData};
use crate::text::str_eq;

verus! {

/// The kinds of push event the app understands.
#[derive(Debug, Clone, Copy, PartialEq, Eq, Structural)]
pub enum DaemonEventKind {
    GitChanged,
    FileChanged,
    SessionFileCreated,
}

/// The kind of a push event by its name; none for an event the app does
/// not know.
pub open spec fn event_kind_of(name: Seq<char>) -> Option<DaemonEventKind> {
    if name == event::GIT_CHANGED@ {
        Some(DaemonEventKind::GitChanged)
    } else if name == event::FILE_CHANGED@ {
        Some(DaemonEventKind::FileChanged)
    } else if name == event::SESSION_FILE_CREATED@ {
        Some(DaemonEventKind::SessionFileCreated)
    } else {
        None
    }
}

/// The kind of a push event, by its name.
pub fn event_kind(name: &str) -> (r: Option<DaemonEventKind>)
    ensures
        r == event_kind_of(name@),
{
    if str_eq(name, event::GIT_CHANGED) {
        Some(DaemonEventKind::GitChanged)
    } else if str_eq(name, event::FILE_CHANGED) {
        Some(DaemonEventKind::FileChanged)
    } else if str_eq(name, event::SESSION_FILE_CREATED) {
        Some(DaemonEventKind::SessionFileCreated)
    } else {
        None
    }
}

/// The decoded data of a push event.
pub enum DaemonEventPayload {
    GitChanged(GitChangedData),
    FileChanged(FileChangedData),
    SessionFileCreated(SessionFileCreatedData),
}

/// A change in a watched project, as the app consumes it.
#[derive(Debug, Clone, PartialEq, Eq)]
pub enum WatchEvent {
    GitChanged { project_id: String },
    FileChanged { project_id: String, paths: Vec<String> },
    SessionFileCreated { project_id: String, path: String },
}

/// The project watched at `path`: the first mapping for it.
pub open spec fn project_of(map: Seq<(String, String)>, path: Seq<char>) -> Option<Seq<char>>
    decreases map.len(),
{
    if map.len() == 0 {
        None
    } else if map[0].0@ == path {
        Some(map[0].1@)
    } else {
        project_of(map.drop_first(), path)
    }
}

/// The project watched at `path`, if any.
pub fn project_for_path(map: &Vec<(String, String)>, path: &str) -> (r: Option<String>)
    ensures
        match r {
            Some(id) => project_of(map@, path@) == Some(id@),
            None => project_of(map@, path@) is None,
        },
{
    let n = map.len();
    let mut i: usize = 0;
    assert(map@.subrange(0, n as int) =~= map@);
    while i < n
        invariant
            n == map@.len(),
            i <= n,
            project_of(map@, path@) == project_of(map@.subrange(i as int, n as int), path@),
        decreases n - i,
    {
        let ghost t = map@.subrange(i as int, n as int);
        assert(t[0] == map@[i as int]);
        if str_eq(map[i].0.as_str(), path) {
            return Some(map[i].1.clone());
        }
        assert(t.drop_first() =~= map@.subrange(i + 1, n as int));
        i = i + 1;
    }
    None
}

/// Each changed file's path under the project root.
pub open spec fn joined_all(root: Seq<char>, files: Seq<String>) -> Seq<Seq<char>> {
    files.map_values(|f: String| joined(root, f@))
}

/// Turn a push event into a watch event of the project watched at its path;
/// an event for a path no project is watched at is dropped (none).
pub fn convert_daemon_event(payload: DaemonEventPayload, path_to_project: &Vec<(String, String)>) -> (r: Option<WatchEvent>)
    ensures
        match payload {
            DaemonEventPayload::GitChanged(d) => match project_of(path_to_project@, d.path@) {
                None => r is None,
                Some(id) => r matches Some(WatchEvent::GitChanged { project_id }) && project_id@ == id,
            },
            DaemonEventPayload::FileChanged(d) => match project_of(path_to_project@, d.path@) {
                None => r is None,
                Some(id) => r matches Some(WatchEvent::FileChanged { project_id, paths }) && project_id@ == id
                    && paths@.map_values(|p: String| p@) == joined_all(d.path@, d.files@),
            },
            DaemonEventPayload::SessionFileCreated(d) => match project_of(path_to_project@, d.path@) {
                None => r is None,
                Some(id) => r matches Some(WatchEvent::SessionFileCreated { project_id, path }) && project_id@ == id
                    && path@ == joined(d.path@, d.file@),
            },
        },
{
    match payload {
        DaemonEventPayload::GitChanged(data) => match project_for_path(path_to_project, data.path.as_str()) {
            Some(project_id) => Some(WatchEvent::GitChanged { project_id }),
            None => None,
        },
        DaemonEventPayload::FileChanged(data) => match project_for_path(path_to_project, data.path.as_str()) {
            Some(project_id) => {
                let mut paths: Vec<String> = Vec::new();
                let mut i: usize = 0;
                while i < data.files.len()
                    invariant
                        i <= data.files@.len(),
                        paths@.map_values(|p: String| p@) == joined_all(data.path@, data.files@.subrange(0, i as int)),
                    decreases data.files@.len() - i,
                {
                    let p = join_path(data.path.as_str(), data.files[i].as_str());
                    let ghost before = paths@;
                    paths.push(p);
                    assert(data.files@.subrange(0, i + 1) =~= data.files@.subrange(0, i as int).push(data.files@[i as int]));
                    assert(paths@.map_values(|p: String| p@) =~= before.map_values(|p: String| p@).push(
                        joined(data.path@, data.files@[i as int]@),
                    ));
                    assert(paths@.map_values(|p: String| p@) =~= joined_all(data.path@, data.files@.subrange(0, i + 1)));
                    i = i + 1;
                }
                assert(data.files@.subrange(0, data.files@.len() as int) =~= data.files@);
                Some(WatchEvent::FileChanged { project_id, paths })
            },
            None => None,
        },
        DaemonEventPayload::SessionFileCreated(data) => match project_for_path(path_to_project, data.path.as_str()) {
            Some(project_id) => Some(
                WatchEvent::SessionFileCreated { project_id, path: join_path(data.path.as_str(), data.file.as_str()) },
            ),
            None => None,
        },
    }
}

/// Each push event name the daemon sends is read as the kind of the same
/// name, and no two names are read as one kind: `git_changed` is a git
/// change, `file_changed` a file change, `session_file_created` a new
/// session file.
pub proof fn lemma_event_names_keep_their_kind(a: Seq<char>, b: Seq<char>)
    ensures
        event_kind_of("git_changed"@) == Some(DaemonEventKind::GitChanged),
        event_kind_of("file_changed"@) == Some(DaemonEventKind::FileChanged),
        event_kind_of("session_file_created"@) == Some(DaemonEventKind::SessionFileCreated),
        event_kind_of(a) is Some && event_kind_of(a) == event_kind_of(b) ==> a == b,
{
    reveal_strlit("git_changed");
    reveal_strlit("file_changed");
    reveal_strlit("session_file_created");
    assert("file_changed"@[0] != "git_changed"@[0]);
    assert("session_file_created"@.len() != "git_changed"@.len());
    assert("session_file_created"@.len() != "file_changed"@.len());
}

} // verus!
