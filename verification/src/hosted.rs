//! Operator requests on hosted members: what a request on one member leads
//! to, and which hosted member owns the pane a stop request names.

use vstd::prelude::*;
use crate::text::str_eq;

verus! {

/// A hosted member's runtime record, as the ownership decision reads it.
pub struct HostedCandidate {
    /// The pane the record says the member's TUI runs in.
    pub pane_id: Option<String>,
    /// Whether that pane's process is the one the record describes.
    pub pane_matches: bool,
    /// The host's socket.
    pub socket_path: String,
    /// The host thread the TUI attaches to.
    pub thread_id: String,
}

/// The record names the pane, and the pane's process is the recorded one.
pub open spec fn owns_by_pane(c: HostedCandidate, pane: Seq<char>) -> bool {
    (c.pane_id matches Some(p) && p@ == pane) && c.pane_matches
}

/// The four arguments of a TUI attached to a host thread.
pub open spec fn attach_words(c: HostedCandidate) -> Seq<Seq<char>> {
    seq!["--remote"@, "unix://"@ + c.socket_path@, "resume"@, c.thread_id@]
}

/// The text of each argument.
pub open spec fn texts(v: Seq<String>) -> Seq<Seq<char>> {
    v.map_values(|s: String| s@)
}

/// The four arguments of `v` that start at `k`, as text.
pub open spec fn window(v: Seq<String>, k: int) -> Seq<Seq<char>> {
    texts(v.subrange(k, k + 4))
}

/// Some process in the pane runs the TUI attached to the candidate's host
/// thread: its arguments hold the four attach words in a row.
pub open spec fn owns_by_argv(c: HostedCandidate, argv: Seq<Seq<String>>) -> bool {
    exists|a: int, k: int|
        0 <= a < argv.len() && 0 <= k && k + 4 <= argv[a].len() && #[trigger] window(argv[a], k) == attach_words(c)
}

/// Candidate `i` names the pane and the pane's process is its own.
pub open spec fn owns_pane_at(cs: Seq<HostedCandidate>, pane: Seq<char>, i: int) -> bool {
    0 <= i < cs.len() && owns_by_pane(cs[i], pane)
}

/// Candidate `i`'s attached TUI runs in the pane.
pub open spec fn attached_at(cs: Seq<HostedCandidate>, argv: Seq<Seq<String>>, i: int) -> bool {
    0 <= i < cs.len() && owns_by_argv(cs[i], argv)
}

/// Candidate `i` owns the pane by the rule of the given pass: its record
/// first, then the arguments of the pane's processes.
pub open spec fn pass_owner(cs: Seq<HostedCandidate>, pane: Seq<char>, argv: Seq<Seq<String>>, pass: int, i: int) -> bool {
    if pass == 0 {
        owns_pane_at(cs, pane, i)
    } else {
        attached_at(cs, argv, i)
    }
}

/// Some candidate names the pane and matches it.
pub open spec fn any_owns_pane(cs: Seq<HostedCandidate>, pane: Seq<char>) -> bool {
    exists|i: int| #[trigger] owns_pane_at(cs, pane, i)
}

/// Candidate `i` counts as an owner: by its record when any record names
/// the pane, else by the arguments of the pane's processes.
pub open spec fn owner_at(cs: Seq<HostedCandidate>, pane: Seq<char>, argv: Seq<Seq<String>>, i: int) -> bool {
    if any_owns_pane(cs, pane) {
        owns_pane_at(cs, pane, i)
    } else {
        attached_at(cs, argv, i)
    }
}

/// The owner of the pane, if one is certain. Two owners are ambiguous and
/// the stop is deferred.
pub open spec fn pane_owner_of(cs: Seq<HostedCandidate>, pane: Seq<char>, argv: Seq<Seq<String>>) -> Result<Option<int>, Seq<char>> {
    if exists|i: int, j: int| #[trigger] owner_at(cs, pane, argv, i) && #[trigger] owner_at(cs, pane, argv, j) && i != j {
        Err("hosted stop deferred: ambiguous pane ownership"@)
    } else if exists|i: int| #[trigger] owner_at(cs, pane, argv, i) {
        Ok(Some(choose|i: int| #[trigger] owner_at(cs, pane, argv, i)))
    } else {
        Ok(None)
    }
}

/// Whether `args` holds `words` in a row.
fn holds_words(args: &Vec<String>, words: &Vec<String>) -> (r: bool)
    requires
        words@.len() == 4,
    ensures
        r == exists|k: int|
            0 <= k && k + 4 <= args@.len() && #[trigger] window(args@, k) == texts(words@),
{
    if args.len() < 4 {
        return false;
    }
    let mut k: usize = 0;
    while k <= args.len() - 4
        invariant
            words@.len() == 4,
            args@.len() >= 4,
            k <= args@.len() - 3,
            forall|q: int|
                0 <= q < k ==> #[trigger] window(args@, q) != texts(words@),
        decreases args@.len() - k,
    {
        let same = str_eq(args[k].as_str(), words[0].as_str()) && str_eq(args[k + 1].as_str(), words[1].as_str())
            && str_eq(args[k + 2].as_str(), words[2].as_str()) && str_eq(args[k + 3].as_str(), words[3].as_str());
        let ghost w = window(args@, k as int);
        let ghost v = texts(words@);
        if same {
            assert(w =~= v);
            return true;
        }
        assert(w != v) by {
            if w == v {
                assert(w[0] == v[0] && w[1] == v[1] && w[2] == v[2] && w[3] == v[3]);
            }
        }
        k = k + 1;
    }
    false
}

/// The attach words of a candidate.
fn attach_words_of(c: &HostedCandidate) -> (r: Vec<String>)
    ensures
        r@.len() == 4,
        texts(r@) == attach_words(*c),
{
    let mut socket = String::from_str("unix://");
    socket.append(c.socket_path.as_str());
    let mut r: Vec<String> = Vec::new();
    r.push(String::from_str("--remote"));
    r.push(socket);
    r.push(String::from_str("resume"));
    r.push(c.thread_id.clone());
    assert(texts(r@) =~= attach_words(*c));
    r
}

/// Whether the candidate's attached TUI runs in the pane.
fn attached_in_pane(c: &HostedCandidate, argv: &Vec<Vec<String>>) -> (r: bool)
    ensures
        r == owns_by_argv(*c, argv@.map_values(|v: Vec<String>| v@)),
{
    let words = attach_words_of(c);
    let ghost av = argv@.map_values(|v: Vec<String>| v@);
    let mut a: usize = 0;
    while a < argv.len()
        invariant
            words@.len() == 4,
            texts(words@) == attach_words(*c),
            av == argv@.map_values(|v: Vec<String>| v@),
            a <= argv@.len(),
            forall|b: int, k: int|
                0 <= b < a && 0 <= k && k + 4 <= av[b].len() ==> #[trigger] window(av[b], k) != attach_words(*c),
        decreases argv@.len() - a,
    {
        if holds_words(&argv[a], &words) {
            proof {
                let k = choose|k: int|
                    0 <= k && k + 4 <= argv@[a as int]@.len() && #[trigger] window(argv@[a as int]@, k) == texts(words@);
                assert(av[a as int] == argv@[a as int]@);
                assert(window(av[a as int], k) == attach_words(*c));
            }
            return true;
        }
        assert(av[a as int] == argv@[a as int]@);
        a = a + 1;
    }
    false
}

/// Decide which hosted member a stop request for `pane` stops; `argv` are
/// the argument lists of the processes running in the pane.
pub fn pane_owner(candidates: &Vec<HostedCandidate>, pane: &str, argv: &Vec<Vec<String>>) -> (r: Result<Option<usize>, String>)
    ensures
        match (r, pane_owner_of(candidates@, pane@, argv@.map_values(|v: Vec<String>| v@))) {
            (Ok(Some(i)), Ok(Some(j))) => i == j,
            (Ok(None), Ok(None)) => true,
            (Err(e), Err(m)) => e@ == m,
            _ => false,
        },
{
    let n = candidates.len();
    let ghost cs = candidates@;
    let ghost pv = pane@;
    let ghost av = argv@.map_values(|v: Vec<String>| v@);
    let mut pass: usize = 0;
    while pass < 2
        invariant
            n == candidates@.len(),
            cs == candidates@,
            pv == pane@,
            pass <= 1,
            av == argv@.map_values(|v: Vec<String>| v@),
            pass == 1 ==> !any_owns_pane(cs, pv),
        decreases 2 - pass,
    {
        let mut found: Option<usize> = None;
        let mut i: usize = 0;
        while i < n
            invariant
                n == candidates@.len(),
                cs == candidates@,
                pv == pane@,
                pass < 2,
                pass == 1 ==> !any_owns_pane(cs, pv),
                i <= n,
                av == argv@.map_values(|v: Vec<String>| v@),
                match found {
                    None => forall|q: int| 0 <= q < i ==> !#[trigger] pass_owner(cs, pv, av, pass as int, q),
                    Some(f) => f < i && pass_owner(cs, pv, av, pass as int, f as int)
                        && forall|q: int| 0 <= q < i && q != f ==> !#[trigger] pass_owner(cs, pv, av, pass as int, q),
                },
            decreases n - i,
        {
            let c = &candidates[i];
            let owner = if pass == 0 {
                let on_pane = match &c.pane_id {
                    Some(p) => str_eq(p.as_str(), pane),
                    None => false,
                };
                on_pane && c.pane_matches
            } else {
                attached_in_pane(c, argv)
            };
            assert(owner == pass_owner(cs, pv, av, pass as int, i as int));
            if owner {
                match found {
                    Some(f) => {
                        proof {
                            if pass == 0 {
                                assert(owns_pane_at(cs, pv, f as int));
                                assert(any_owns_pane(cs, pv));
                            }
                            assert(owner_at(cs, pv, av, f as int) && owner_at(cs, pv, av, i as int));
                        }
                        return Err(String::from_str("hosted stop deferred: ambiguous pane ownership"));
                    },
                    None => {
                        found = Some(i);
                    },
                }
            }
            i = i + 1;
        }
        match found {
            Some(f) => {
                proof {
                    if pass == 0 {
                        assert(owns_pane_at(cs, pv, f as int));
                        assert(any_owns_pane(cs, pv));
                    }
                    assert(owner_at(cs, pv, av, f as int));
                    assert forall|a: int, b: int| owner_at(cs, pv, av, a) && owner_at(cs, pv, av, b) implies a == b by {
                        if a != f as int {
                            assert(!pass_owner(cs, pv, av, pass as int, a));
                        }
                        if b != f as int {
                            assert(!pass_owner(cs, pv, av, pass as int, b));
                        }
                    }
                    let ch = choose|q: int| #[trigger] owner_at(cs, pv, av, q);
                    assert(ch == f);
                }
                return Ok(Some(f));
            },
            None => {
                if pass == 1 || n == 0 {
                    proof {
                        if pass == 0 {
                            assert(!any_owns_pane(cs, pv));
                        }
                        assert forall|q: int| !owner_at(cs, pv, av, q) by {
                            if 0 <= q < n {
                                assert(!pass_owner(cs, pv, av, pass as int, q));
                            }
                        }
                    }
                    return Ok(None);
                }
                proof {
                    assert forall|q: int| !owns_pane_at(cs, pv, q) by {
                        if 0 <= q < n {
                            assert(!pass_owner(cs, pv, av, pass as int, q));
                        }
                    }
                }
            },
        }
        pass = pass + 1;
    }
    Ok(None)
}

/// What a non-stop operator request on a hosted member leads to.
#[derive(Debug, PartialEq, Eq)]
pub enum HostedAction {
    /// Give up on inputs whose outcome is unknown, for this attachment.
    AbandonUnknown { generation: u64 },
    /// The host has ended: answer the transcript request from the record.
    FinishedTranscript { stopped: bool, generation: u64 },
    /// Hand the operation to the running host.
    Forward { generation: u64 },
}

/// The action for `operation` on a member whose attachment is in
/// `attachment_state` (`None`: not hosted), or the error the request gets.
pub open spec fn hosted_action_of(
    operation: Seq<char>,
    attachment_state: Option<Seq<char>>,
    record_generation: u64,
    param_generation: Option<u64>,
    abandon_unknown: bool,
) -> Result<HostedAction, Seq<char>> {
    let generation = if operation == "transcript"@ { Some(record_generation) } else { param_generation };
    match attachment_state {
        None => Err("NOT_HOSTED"@),
        Some(state) => match generation {
            None => Err("missing attachment generation"@),
            Some(g) => if operation == "reconcile"@ {
                if abandon_unknown {
                    Ok(HostedAction::AbandonUnknown { generation: g })
                } else {
                    Err("Explicit abandon decision required"@)
                }
            } else if operation == "transcript"@ && (state == "stopped"@ || state == "orphaned"@) {
                Ok(HostedAction::FinishedTranscript { stopped: state == "stopped"@, generation: g })
            } else {
                Ok(HostedAction::Forward { generation: g })
            },
        },
    }
}

/// The text of an attachment state, if there is one.
pub open spec fn state_text(state: Option<&str>) -> Option<Seq<char>> {
    match state {
        Some(s) => Some(s@),
        None => None,
    }
}

/// Decide a non-stop operator request on a hosted member. A transcript
/// request reads the record's own attachment generation; every other
/// operation must name the generation it acts on.
pub fn hosted_action(
    operation: &str,
    attachment_state: Option<&str>,
    record_generation: u64,
    param_generation: Option<u64>,
    abandon_unknown: bool,
) -> (r: Result<HostedAction, String>)
    ensures
        match (r, hosted_action_of(operation@, state_text(attachment_state), record_generation, param_generation, abandon_unknown)) {
            (Ok(a), Ok(b)) => a == b,
            (Err(e), Err(m)) => e@ == m,
            _ => false,
        },
{
    let state = match attachment_state {
        None => {
            return Err(String::from_str("NOT_HOSTED"));
        },
        Some(s) => s,
    };
    let transcript = str_eq(operation, "transcript");
    let generation = if transcript { Some(record_generation) } else { param_generation };
    let g = match generation {
        None => {
            return Err(String::from_str("missing attachment generation"));
        },
        Some(g) => g,
    };
    if str_eq(operation, "reconcile") {
        if abandon_unknown {
            return Ok(HostedAction::AbandonUnknown { generation: g });
        }
        return Err(String::from_str("Explicit abandon decision required"));
    }
    let stopped = str_eq(state, "stopped");
    if transcript && (stopped || str_eq(state, "orphaned")) {
        return Ok(HostedAction::FinishedTranscript { stopped, generation: g });
    }
    Ok(HostedAction::Forward { generation: g })
}

/// Whether a stop request on a member may go ahead: the member must be on
/// the team's roster, and a pane its record names must still run its session.
pub fn member_stop_check(on_roster: bool, recorded_pane_matches: Option<bool>) -> (r: Result<(), String>)
    ensures
        !on_roster ==> (r matches Err(e) && e@ == "member is not on the team"@),
        on_roster && recorded_pane_matches == Some(false) ==> (r matches Err(e) && e@
            == "stop deferred: pane belongs to another session"@),
        on_roster && recorded_pane_matches != Some(false) ==> r is Ok,
{
    if !on_roster {
        return Err(String::from_str("member is not on the team"));
    }
    if recorded_pane_matches == Some(false) {
        return Err(String::from_str("stop deferred: pane belongs to another session"));
    }
    Ok(())
}

/// The team and member an operator request on a hosted member names, or
/// the refusal when either is missing (the team is checked first), before
/// any store is read.
pub fn hosted_request_names(team_name: Option<String>, member_name: Option<String>) -> (r: Result<(String, String), String>)
    ensures
        team_name is None ==> (r matches Err(e) && e@ == "missing team_name"@),
        team_name is Some && member_name is None ==> (r matches Err(e) && e@ == "missing member_name"@),
        team_name is Some && member_name is Some ==> (r matches Ok((a, b)) && a@ == team_name->Some_0@ && b@
            == member_name->Some_0@),
{
    let team = match team_name {
        None => {
            return Err(String::from_str("missing team_name"));
        },
        Some(t) => t,
    };
    match member_name {
        None => Err(String::from_str("missing member_name")),
        Some(m) => Ok((team, m)),
    }
}

} // verus!
