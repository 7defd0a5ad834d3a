//! Daemon-owned team initialization runs: the service's registry and the
//! status a caller polls.

use vstd::prelude::*;
use crate::coordination_runs::{
    CoordinationRunKind, CoordinationRunRegistry, CoordinationRunReport, CoordinationRunStatus,
    OutcomeView, ReportView, RunOutcome, pruned,
};
use crate::claude_usage::{non_empty, non_empty_of};
use crate::paths::{join_path, joined};
use crate::requests::OperationalContextSnapshot;
use crate::text::str_eq;
use crate::protocol::{CoordinationInitializeOutcome, CoordinationInitializeStatus};

verus! {

/// The daemon-local host of these runs.
pub struct InitializeTeamService {
    pub registry: CoordinationRunRegistry,
}

impl InitializeTeamService {
    /// A service over `registry`.
    pub fn for_process_default(registry: CoordinationRunRegistry) -> (r: Self)
        ensures
            r.registry == registry,
    {
        InitializeTeamService { registry }
    }
}

/// Whether a team initialization run's outcome has a team initialization status: it runs, failed, or
/// completed with a team initialization report.
pub open spec fn initialize_projects(v: OutcomeView) -> bool {
    match v {
        OutcomeView::Running => true,
        OutcomeView::Failed(_) => true,
        OutcomeView::Completed(ReportView::Initialize(_)) => true,
        _ => false,
    }
}

/// Whether `o` says what the run's outcome `v` says.
pub open spec fn initialize_outcome_matches(o: CoordinationInitializeOutcome, v: OutcomeView) -> bool {
    match (o, v) {
        (CoordinationInitializeOutcome::Running, OutcomeView::Running) => true,
        (CoordinationInitializeOutcome::Failed { error }, OutcomeView::Failed(e)) => error == e,
        (CoordinationInitializeOutcome::Completed { report }, OutcomeView::Completed(ReportView::Initialize(rv))) => report@ == rv,
        _ => false,
    }
}

/// The team initialization status of a registry status: none when the run is of
/// another kind or completed with another report.
pub fn initialize_status_of(status: CoordinationRunStatus) -> (r: Option<CoordinationInitializeStatus>)
    ensures
        r is Some <==> (status@.kind == CoordinationRunKind::InitializeTeam && initialize_projects(status@.outcome)),
        r matches Some(st) ==> st.run_id@ == status@.run_id && initialize_outcome_matches(st.outcome, status@.outcome) && st.steps@ == status@.steps,
{
    if status.kind != CoordinationRunKind::InitializeTeam {
        return None;
    }
    let outcome = match status.outcome {
        RunOutcome::Running => CoordinationInitializeOutcome::Running,
        RunOutcome::Completed { report: CoordinationRunReport::Initialize(report) } => CoordinationInitializeOutcome::Completed { report },
        RunOutcome::Failed { error } => CoordinationInitializeOutcome::Failed { error },
        RunOutcome::Completed { .. } => {
            return None;
        },
    };
    Some(CoordinationInitializeStatus { run_id: status.run_id, steps: status.steps, outcome })
}

impl InitializeTeamService {
    /// The status of the team initialization run `run_id`, after pruning expired runs;
    /// none when no such run is registered.
    pub fn status(&mut self, run_id: &str) -> (r: Option<CoordinationInitializeStatus>)
        requires
            old(self).registry.wf(),
        ensures
            final(self).registry.wf(),
            final(self).registry@.ttl_ms == old(self).registry@.ttl_ms,
            exists|now: u64|
                final(self).registry@.runs == #[trigger] pruned(old(self).registry@.runs, old(self).registry@.ttl_ms, now),
            r is Some <==> (final(self).registry@.runs.contains_key(run_id@)
                && final(self).registry@.runs[run_id@].kind == CoordinationRunKind::InitializeTeam
                && initialize_projects(final(self).registry@.runs[run_id@].outcome)),
            r matches Some(st) ==> st.run_id@ == run_id@ && initialize_outcome_matches(st.outcome, final(self).registry@.runs[run_id@].outcome) && st.steps@ == final(self).registry@.runs[run_id@].steps,
    {
        match self.registry.status(run_id) {
            None => None,
            Some(status) => initialize_status_of(status),
        }
    }
}


/// A snapshot belongs to the initialized team: it names the team and one of
/// its members.
pub open spec fn belongs_to_team(team_name: Seq<char>, members: Seq<String>, s: OperationalContextSnapshot) -> bool {
    s.team_name@ == team_name && exists|i: int| 0 <= i < members.len() && members[i]@ == s.member_name@
}

/// The operational snapshots a finished initialization publishes: those of
/// the team's members, in order; the others are skipped, never failing the
/// initialization.
pub fn snapshots_for_team(team_name: &str, member_names: &Vec<String>, snapshots: Vec<OperationalContextSnapshot>) -> (r: Vec<
    OperationalContextSnapshot,
>)
    ensures
        r@ == snapshots@.filter(|s: OperationalContextSnapshot| belongs_to_team(team_name@, member_names@, s)),
{
    let ghost all = snapshots@;
    let mut out: Vec<OperationalContextSnapshot> = Vec::new();
    let mut rest = snapshots;
    let mut k: usize = 0;
    let n = rest.len();
    while k < n
        invariant
            n == all.len(),
            k <= n,
            rest@ == all,
            out@ == all.subrange(0, k as int).filter(|s: OperationalContextSnapshot| belongs_to_team(team_name@, member_names@, s)),
        decreases n - k,
    {
        let s = &rest[k];
        let mut member = false;
        if str_eq(s.team_name.as_str(), team_name) {
            let mut j: usize = 0;
            while j < member_names.len()
                invariant
                    j <= member_names@.len(),
                    !member ==> forall|q: int| 0 <= q < j ==> member_names@[q]@ != s.member_name@,
                    member ==> exists|q: int| 0 <= q < member_names@.len() && member_names@[q]@ == s.member_name@,
                decreases member_names@.len() - j,
            {
                if str_eq(member_names[j].as_str(), s.member_name.as_str()) {
                    member = true;
                }
                j = j + 1;
            }
        }
        assert(member == belongs_to_team(team_name@, member_names@, all[k as int]));
        assert(all.subrange(0, k + 1) =~= all.subrange(0, k as int).push(all[k as int]));
        proof {
            all.subrange(0, k as int).lemma_filter_push(all[k as int], |s: OperationalContextSnapshot| belongs_to_team(team_name@, member_names@, s));
        }
        if member {
            out.push(copy_snapshot(&rest[k]));
        }
        k = k + 1;
    }
    assert(all.subrange(0, n as int) =~= all);
    out
}

/// A copy of an operational snapshot.
fn copy_snapshot(s: &OperationalContextSnapshot) -> (r: OperationalContextSnapshot)
    ensures
        r == *s,
{
    OperationalContextSnapshot {
        version: s.version,
        team_name: s.team_name.clone(),
        member_name: s.member_name.clone(),
        updated_at_ms: s.updated_at_ms,
        project_path: s.project_path.clone(),
    }
}

/// What loading a team's config under one account root found.
pub enum TeamConfigLookup {
    Found,
    NotFound,
    Failed(String),
}

/// `team '<name>' already exists under another account root (<root>)`
pub open spec fn team_exists_message(team_name: Seq<char>, root: Seq<char>) -> Seq<char> {
    "team '"@ + team_name + "' already exists under another account root ("@ + root + ")"@
}

/// Whether a team name is free for a new team under `target_root`, given
/// what each registered root holds under that name, in order: the first other
/// root that has the team refuses it, and a root that could not be read
/// refuses with its error.
pub open spec fn name_available(team_name: Seq<char>, target_root: Seq<char>, roots: Seq<(String, TeamConfigLookup)>) -> Result<(), Seq<char>>
    decreases roots.len(),
{
    if roots.len() == 0 {
        Ok(())
    } else if roots[0].0@ == target_root {
        name_available(team_name, target_root, roots.drop_first())
    } else {
        match roots[0].1 {
            TeamConfigLookup::Found => Err(team_exists_message(team_name, roots[0].0@)),
            TeamConfigLookup::Failed(e) => Err(e@),
            TeamConfigLookup::NotFound => name_available(team_name, target_root, roots.drop_first()),
        }
    }
}

/// Check that no other account root already holds a team of this name.
pub fn ensure_team_name_available_at_root(team_name: &str, target_root: &str, roots: &Vec<(String, TeamConfigLookup)>) -> (r: Result<
    (),
    String,
>)
    ensures
        match (r, name_available(team_name@, target_root@, roots@)) {
            (Ok(()), Ok(())) => true,
            (Err(e), Err(m)) => e@ == m,
            _ => false,
        },
{
    let n = roots.len();
    let mut i: usize = 0;
    assert(roots@.subrange(0, n as int) =~= roots@);
    while i < n
        invariant
            n == roots@.len(),
            i <= n,
            name_available(team_name@, target_root@, roots@) == name_available(team_name@, target_root@, roots@.subrange(i as int, n as int)),
        decreases n - i,
    {
        let ghost t = roots@.subrange(i as int, n as int);
        assert(t[0] == roots@[i as int]);
        assert(t.drop_first() =~= roots@.subrange(i + 1, n as int));
        if !str_eq(roots[i].0.as_str(), target_root) {
            match &roots[i].1 {
                TeamConfigLookup::Found => {
                    let mut message = String::from_str("team '");
                    message.append(team_name);
                    message.append("' already exists under another account root (");
                    message.append(roots[i].0.as_str());
                    message.append(")");
                    return Err(message);
                },
                TeamConfigLookup::Failed(e) => {
                    return Err(e.clone());
                },
                TeamConfigLookup::NotFound => {},
            }
        }
        i = i + 1;
    }
    Ok(())
}

/// What choosing a team's root reads of one member of the request (the lead
/// and then the agents): whether its tool keeps team configs under an
/// account's namespace, and the account it asks for.
pub struct MemberAccountRequest {
    pub namespaced: bool,
    pub account_id: Option<String>,
}

/// A managed account of the namespacing tool.
pub struct ManagedAccount {
    pub id: String,
    pub logged_in: bool,
    pub dir: String,
}

/// The account a member asks its team to live under, if any.
pub open spec fn requested_account(m: MemberAccountRequest) -> Option<Seq<char>> {
    if m.namespaced {
        non_empty_of(match m.account_id { Some(a) => Some(a@), None => None })
    } else {
        None
    }
}

/// Two members ask for different team accounts.
pub open spec fn accounts_conflict(ms: Seq<MemberAccountRequest>) -> bool {
    exists|i: int, j: int|
        0 <= i < ms.len() && 0 <= j < ms.len() && #[trigger] requested_account(ms[i]) is Some
            && #[trigger] requested_account(ms[j]) is Some && requested_account(ms[i]) != requested_account(ms[j])
}

/// The first account a member asks for.
pub open spec fn first_requested(ms: Seq<MemberAccountRequest>) -> Option<Seq<char>>
    decreases ms.len(),
{
    if ms.len() == 0 {
        None
    } else if requested_account(ms[0]) is Some {
        requested_account(ms[0])
    } else {
        first_requested(ms.drop_first())
    }
}

/// The first signed-in managed account with this id.
pub open spec fn signed_in_account(accounts: Seq<ManagedAccount>, id: Seq<char>) -> Option<ManagedAccount>
    decreases accounts.len(),
{
    if accounts.len() == 0 {
        None
    } else if accounts[0].id@ == id && accounts[0].logged_in {
        Some(accounts[0])
    } else {
        signed_in_account(accounts.drop_first(), id)
    }
}

/// Where a new team lives: under the default teams directory unless its
/// members ask for a team account; all that ask must ask for the same one,
/// and it must be signed in; the team then lives in that account's `teams`
/// directory.
pub open spec fn team_root_of(ms: Seq<MemberAccountRequest>, accounts: Seq<ManagedAccount>, default_dir: Seq<char>) -> Result<Seq<char>, Seq<char>> {
    if accounts_conflict(ms) {
        Err("a team must use one team account"@)
    } else {
        match first_requested(ms) {
            None => Ok(default_dir),
            Some(id) => match signed_in_account(accounts, id) {
                Some(a) => Ok(joined(a.dir@, "teams"@)),
                None => Err("account '"@ + id + "' is unavailable or signed out"@),
            },
        }
    }
}

/// Choose the root a new team is initialized under.
pub fn selected_team_root(members: &Vec<MemberAccountRequest>, accounts: &Vec<ManagedAccount>, default_teams_dir: &str) -> (r: Result<
    String,
    String,
>)
    ensures
        match (r, team_root_of(members@, accounts@, default_teams_dir@)) {
            (Ok(p), Ok(q)) => p@ == q,
            (Err(e), Err(m)) => e@ == m,
            _ => false,
        },
{
    let n = members.len();
    let mut first: Option<String> = None;
    let mut i: usize = 0;
    assert(members@.subrange(0, n as int) =~= members@);
    while i < n
        invariant
            n == members@.len(),
            i <= n,
            match first {
                None => forall|q: int| 0 <= q < i ==> #[trigger] requested_account(members@[q]) is None,
                Some(f) => (exists|q: int| 0 <= q < i && #[trigger] requested_account(members@[q]) == Some(f@))
                    && forall|q: int| 0 <= q < i && #[trigger] requested_account(members@[q]) is Some ==> requested_account(members@[q]) == Some(f@),
            },
            first_requested(members@) == (match first {
                Some(f) => Some(f@),
                None => first_requested(members@.subrange(i as int, n as int)),
            }),
        decreases n - i,
    {
        let ghost t = members@.subrange(i as int, n as int);
        assert(t[0] == members@[i as int]);
        assert(t.drop_first() =~= members@.subrange(i + 1, n as int));
        let requested = if members[i].namespaced {
            let copy = match &members[i].account_id {
                Some(a) => Some(a.clone()),
                None => None,
            };
            non_empty(copy)
        } else {
            None
        };
        assert(match requested { Some(x) => Some(x@), None => None } == requested_account(members@[i as int]));
        match requested {
            None => {},
            Some(id) => match &first {
                None => {
                    first = Some(id);
                },
                Some(f) => {
                    if !str_eq(f.as_str(), id.as_str()) {
                        proof {
                            let w = choose|q: int| 0 <= q < i && #[trigger] requested_account(members@[q]) == Some(f@);
                            assert(requested_account(members@[w]) is Some);
                            assert(requested_account(members@[i as int]) is Some);
                            assert(accounts_conflict(members@));
                        }
                        return Err(String::from_str("a team must use one team account"));
                    }
                },
            },
        }
        i = i + 1;
    }
    proof {
        assert(!accounts_conflict(members@)) by {
            if accounts_conflict(members@) {
                let (a, b) = choose|a: int, b: int|
                    0 <= a < members@.len() && 0 <= b < members@.len() && #[trigger] requested_account(members@[a]) is Some
                        && #[trigger] requested_account(members@[b]) is Some && requested_account(members@[a]) != requested_account(members@[b]);
                assert(requested_account(members@[a]) is Some);
            }
        }
        if first is None {
            assert(first_requested(members@.subrange(n as int, n as int)) is None);
        }
    }
    let id = match first {
        None => {
            return Ok(String::from_str(default_teams_dir));
        },
        Some(id) => id,
    };
    let m = accounts.len();
    let mut k: usize = 0;
    assert(accounts@.subrange(0, m as int) =~= accounts@);
    while k < m
        invariant
            m == accounts@.len(),
            k <= m,
            !accounts_conflict(members@),
            first_requested(members@) == Some(id@),
            signed_in_account(accounts@, id@) == signed_in_account(accounts@.subrange(k as int, m as int), id@),
        decreases m - k,
    {
        let ghost t = accounts@.subrange(k as int, m as int);
        assert(t[0] == accounts@[k as int]);
        assert(t.drop_first() =~= accounts@.subrange(k + 1, m as int));
        if accounts[k].logged_in && str_eq(accounts[k].id.as_str(), id.as_str()) {
            return Ok(join_path(accounts[k].dir.as_str(), "teams"));
        }
        k = k + 1;
    }
    assert(signed_in_account(accounts@.subrange(m as int, m as int), id@) is None);
    let mut message = String::from_str("account '");
    message.append(id.as_str());
    message.append("' is unavailable or signed out");
    Err(message)
}

} // verus!
