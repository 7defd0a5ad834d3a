//! The daemon's compaction-signal runtime rules: which teams get a
//! watcher, which file events change that, and how long the loop waits.

use vstd::prelude::*;
use crate::cli_tool::CliTool;
use crate::text::str_eq;

verus! {

/// A team's config file.
pub const TEAM_CONFIG_FILENAME: &'static str = "config.json";

/// The temporary file a team config is written through.
pub const TEAM_CONFIG_TMP_FILENAME: &'static str = "config.json.tmp";

/// What `Path::new(path).strip_prefix(prefix)` gives on the target
/// platform: the rest of `path` as text, or none when `path` is not under
/// `prefix`.
pub uninterp spec fn std_strip_prefix(prefix: Seq<char>, path: Seq<char>) -> Option<Seq<char>>;

/// `Path::new(path).strip_prefix(prefix)`, the rest as text. Its result is
/// named: std compares whole components, which is not restated here.
#[verifier::external_body]
fn path_strip_prefix(prefix: &str, path: &str) -> (r: Option<String>)
    ensures
        match r {
            Some(rest) => std_strip_prefix(prefix@, path@) == Some(rest@),
            None => std_strip_prefix(prefix@, path@) is None,
        },
{
    std::path::Path::new(path).strip_prefix(prefix).ok().map(|rest| rest.to_string_lossy().into_owned())
}

/// What `Path::new(path).components()` gives on the target platform (whose
/// separators it follows), each component as text.
pub uninterp spec fn std_components(path: Seq<char>) -> Seq<Seq<char>>;

/// `Path::new(path).components()`, each component as text. Its result is
/// named: std's splitting normalizes separators and `.` in ways not
/// restated here.
#[verifier::external_body]
fn path_components(path: &str) -> (r: Vec<String>)
    ensures
        r@.map_values(|s: String| s@) == std_components(path@),
{
    std::path::Path::new(path).components().map(|c| c.as_os_str().to_string_lossy().into_owned()).collect()
}

/// A path relative to the teams directory touches a team's topology: it is
/// a team directory itself, or the team's config file or its temporary file.
pub open spec fn is_topology_components(c: Seq<Seq<char>>) -> bool {
    (c.len() == 1 && c[0].len() > 0) || (c.len() == 2 && c[0].len() > 0 && (c[1] == TEAM_CONFIG_FILENAME@
        || c[1] == TEAM_CONFIG_TMP_FILENAME@))
}

/// Whether the components of a path under the teams directory touch a
/// team's topology.
pub fn topology_components(components: &Vec<String>) -> (r: bool)
    ensures
        r == is_topology_components(components@.map_values(|s: String| s@)),
{
    let ghost c = components@.map_values(|s: String| s@);
    let n = components.len();
    if n == 0 || n > 2 {
        return false;
    }
    assert(c[0] == components@[0]@);
    if components[0].unicode_len() == 0 {
        return false;
    }
    if n == 1 {
        return true;
    }
    assert(c[1] == components@[1]@);
    str_eq(components[1].as_str(), TEAM_CONFIG_FILENAME) || str_eq(components[1].as_str(), TEAM_CONFIG_TMP_FILENAME)
}

/// Whether a changed path is a team directory or a team config under the
/// teams directory.
pub fn is_team_topology_path(teams_dir: &str, path: &str) -> (r: bool)
    ensures
        r == (match std_strip_prefix(teams_dir@, path@) {
            Some(rest) => is_topology_components(std_components(rest)),
            None => false,
        }),
{
    match path_strip_prefix(teams_dir, path) {
        Some(rest) => topology_components(&path_components(rest.as_str())),
        None => false,
    }
}

/// How long the loop waits: until the next watcher reconcile, at most
/// `max_wait_ms`, never below zero.
pub fn next_loop_wait(next_reconcile_ms: u64, now_ms: u64, max_wait_ms: u64) -> (r: u64)
    ensures
        r == (if next_reconcile_ms > now_ms {
            if next_reconcile_ms - now_ms < max_wait_ms {
                (next_reconcile_ms - now_ms) as u64
            } else {
                max_wait_ms
            }
        } else {
            0
        }),
{
    let until = next_reconcile_ms.saturating_sub(now_ms);
    if until < max_wait_ms {
        until
    } else {
        max_wait_ms
    }
}

/// Whether a team whose members run these tools has a managed Codex member.
pub fn team_has_managed_codex_member(member_tools: &Vec<CliTool>) -> (r: bool)
    ensures
        r == (exists|i: int| 0 <= i < member_tools@.len() && member_tools@[i] == CliTool::Codex),
{
    let mut i: usize = 0;
    while i < member_tools.len()
        invariant
            i <= member_tools@.len(),
            forall|j: int| 0 <= j < i ==> member_tools@[j] != CliTool::Codex,
        decreases member_tools@.len() - i,
    {
        if member_tools[i] == CliTool::Codex {
            return true;
        }
        i = i + 1;
    }
    false
}

/// One listed team: its name, and its members' tools when its config loads.
pub struct ListedTeam {
    pub name: String,
    pub member_tools: Option<Vec<CliTool>>,
}

/// A listed team gets a watcher: its config loaded and it has a Codex member.
pub open spec fn wants_watcher(t: ListedTeam) -> bool {
    t.member_tools matches Some(tools) && exists|i: int| 0 <= i < tools@.len() && tools@[i] == CliTool::Codex
}

/// The teams that should have a compaction watcher, in listing order: those
/// whose config loads and that have a managed Codex member. A team whose
/// config does not load is skipped.
pub fn desired_watcher_teams(teams: &Vec<ListedTeam>) -> (r: Vec<String>)
    ensures
        r@.map_values(|s: String| s@) == teams@.filter(|t: ListedTeam| wants_watcher(t)).map_values(|t: ListedTeam| t.name@),
{
    let mut out: Vec<String> = Vec::new();
    let mut i: usize = 0;
    while i < teams.len()
        invariant
            i <= teams@.len(),
            out@.map_values(|s: String| s@) == teams@.subrange(0, i as int).filter(|t: ListedTeam| wants_watcher(t)).map_values(
                |t: ListedTeam| t.name@,
            ),
        decreases teams@.len() - i,
    {
        let wants = match &teams[i].member_tools {
            Some(tools) => team_has_managed_codex_member(tools),
            None => false,
        };
        assert(wants == wants_watcher(teams@[i as int]));
        let ghost prev = teams@.subrange(0, i as int);
        let ghost old_out = out@;
        assert(teams@.subrange(0, i + 1) =~= prev.push(teams@[i as int]));
        proof {
            prev.lemma_filter_push(teams@[i as int], |t: ListedTeam| wants_watcher(t));
        }
        if wants {
            out.push(teams[i].name.clone());
            assert(out@ == old_out.push(teams@[i as int].name));
            assert(out@.map_values(|s: String| s@) =~= old_out.map_values(|s: String| s@).push(teams@[i as int].name@));
        }
        assert(out@.map_values(|s: String| s@) =~= teams@.subrange(0, i + 1).filter(|t: ListedTeam| wants_watcher(t)).map_values(
            |t: ListedTeam| t.name@,
        ));
        i = i + 1;
    }
    assert(teams@.subrange(0, teams@.len() as int) =~= teams@);
    out
}

} // verus!
