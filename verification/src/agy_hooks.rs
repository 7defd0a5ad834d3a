//! Antigravity hook events: which events the hook reports, the entry one
//! event becomes, and when an append is a duplicate or caps the sink.

use vstd::prelude::*;
use crate::claude_usage::{non_empty, non_empty_of};
use crate::session_activity::{normalize_project_path, normalized_path};
use crate::by_time::order_by_time;
use crate::text::str_eq;

verus! {

/// The file the hook appends to, under the app data root.
pub const AGY_HOOKS_FILENAME: &'static str = "agy-hooks.jsonl";

/// The size at which the sink is capped to one entry per conversation.
pub const MAX_AGY_HOOK_BYTES: u64 = 5_242_880;

/// Two entries of one conversation in one state this close together, in
/// milliseconds, are one event reported twice.
pub const DUPLICATE_THROTTLE_MS: i64 = 250;

/// How much of the sink's tail is read to find the previous entry.
pub const DUPLICATE_TAIL_BYTES: u64 = 65_536;

/// An event the Antigravity hook reports.
#[derive(Debug, Clone, Copy, PartialEq, Eq, Structural)]
pub enum AgyHookEvent {
    Busy,
    Idle,
}

/// The state a conversation is recorded in.
#[derive(Debug, Clone, Copy, PartialEq, Eq, Structural)]
pub enum AgyHookState {
    Busy,
    Idle,
}

/// What one append did.
#[derive(Debug, Clone, Copy, PartialEq, Eq, Structural)]
pub struct AgyHookAppendOutcome {
    pub recorded: bool,
    pub throttled: bool,
    pub truncated: bool,
}

impl AgyHookEvent {
    /// The event named on the hook's command line: `busy` or `idle`.
    pub fn parse(value: &str) -> (r: Option<Self>)
        ensures
            r == (if value@ == "busy"@ {
                Some(AgyHookEvent::Busy)
            } else if value@ == "idle"@ {
                Some(AgyHookEvent::Idle)
            } else {
                None
            }),
    {
        if str_eq(value, "busy") {
            Some(AgyHookEvent::Busy)
        } else if str_eq(value, "idle") {
            Some(AgyHookEvent::Idle)
        } else {
            None
        }
    }
}

/// The fields of a hook payload the daemon reads.
#[derive(Debug, Clone, PartialEq, Eq)]
pub struct AgyHookPayload {
    pub conversation_id: Option<String>,
    pub fully_idle: bool,
    pub termination_reason: Option<String>,
    pub workspace_paths: Vec<String>,
    pub model_name: Option<String>,
}

/// What one hook event records of a conversation; the append adds the time.
#[derive(Debug, Clone, PartialEq, Eq)]
pub struct AgyHookEntry {
    pub conversation_id: String,
    pub state: AgyHookState,
    pub workspace: Option<String>,
    pub model: Option<String>,
    pub termination_reason: Option<String>,
}

/// The state an event records.
pub open spec fn state_of(event: AgyHookEvent) -> AgyHookState {
    match event {
        AgyHookEvent::Busy => AgyHookState::Busy,
        AgyHookEvent::Idle => AgyHookState::Idle,
    }
}

/// The opt view of an optional string.
pub open spec fn opt_chars(o: Option<String>) -> Option<Seq<char>> {
    match o {
        Some(s) => Some(s@),
        None => None,
    }
}

/// The entry a hook event makes. A payload without a conversation id is
/// refused; an idle event that is not fully idle records nothing (none);
/// otherwise the id, model and termination reason are trimmed and dropped
/// when blank, and the workspace is the first workspace path, normalized,
/// when it is not empty.
pub fn hook_entry(event: AgyHookEvent, payload: AgyHookPayload) -> (r: Result<Option<AgyHookEntry>, String>)
    ensures
        match non_empty_of(opt_chars(payload.conversation_id)) {
            None => r matches Err(e) && e@ == "Antigravity hook payload has no conversationId"@,
            Some(id) => if event == AgyHookEvent::Idle && !payload.fully_idle {
                r == Ok::<Option<AgyHookEntry>, String>(None)
            } else {
                r matches Ok(Some(entry)) && entry.conversation_id@ == id && entry.state == state_of(event)
                    && opt_chars(entry.termination_reason) == non_empty_of(opt_chars(payload.termination_reason))
                    && opt_chars(entry.model) == non_empty_of(opt_chars(payload.model_name))
                    && opt_chars(entry.workspace) == (if payload.workspace_paths@.len() > 0
                        && normalized_path(payload.workspace_paths@[0]@).len() > 0 {
                        Some(normalized_path(payload.workspace_paths@[0]@))
                    } else {
                        None
                    })
            },
        },
{
    let conversation_id = match non_empty(payload.conversation_id) {
        Some(id) => id,
        None => {
            return Err(String::from_str("Antigravity hook payload has no conversationId"));
        },
    };
    if event == AgyHookEvent::Idle && !payload.fully_idle {
        return Ok(None);
    }
    let workspace = if payload.workspace_paths.len() > 0 {
        let w = normalize_project_path(&payload.workspace_paths[0]);
        if w.unicode_len() > 0 {
            Some(w)
        } else {
            None
        }
    } else {
        None
    };
    let state = match event {
        AgyHookEvent::Busy => AgyHookState::Busy,
        AgyHookEvent::Idle => AgyHookState::Idle,
    };
    Ok(
        Some(
            AgyHookEntry {
                conversation_id,
                state,
                workspace,
                model: non_empty(payload.model_name),
                termination_reason: non_empty(payload.termination_reason),
            },
        ),
    )
}

/// Whether an entry repeats the conversation's previous one: the same state,
/// less than the throttle window later.
pub fn is_duplicate(previous: Option<(AgyHookState, i64)>, state: AgyHookState, ts_ms: i64) -> (r: bool)
    ensures
        r == (previous matches Some((s, t)) && s == state && (ts_ms as int) - (t as int) < DUPLICATE_THROTTLE_MS),
{
    match previous {
        Some((s, t)) => s == state && (ts_ms as i128) - (t as i128) < DUPLICATE_THROTTLE_MS as i128,
        None => false,
    }
}

/// Where an append starts reading the sink of length `len` to find earlier
/// entries, and whether it caps the sink: a sink at the cap is read whole
/// and rewritten; otherwise only its tail is read.
pub fn append_plan(len: u64) -> (r: (bool, u64))
    ensures
        r.0 == (len >= MAX_AGY_HOOK_BYTES),
        r.1 == (if len >= MAX_AGY_HOOK_BYTES {
            0
        } else if len >= DUPLICATE_TAIL_BYTES {
            (len - DUPLICATE_TAIL_BYTES) as u64
        } else {
            0
        }),
{
    let truncated = len >= MAX_AGY_HOOK_BYTES;
    let read_start = if truncated {
        0
    } else {
        len.saturating_sub(DUPLICATE_TAIL_BYTES)
    };
    (truncated, read_start)
}

/// An entry already in the sink, as an append reads it.
#[derive(Debug, Clone, PartialEq, Eq)]
pub struct HookRecordKey {
    pub conversation_id: String,
    pub state: AgyHookState,
    pub ts_ms: i64,
}

/// Entry `i` is the last one of its conversation.
pub open spec fn is_last_of_conversation(rs: Seq<HookRecordKey>, i: int) -> bool {
    &&& 0 <= i < rs.len()
    &&& forall|j: int| i < j < rs.len() ==> (#[trigger] rs[j]).conversation_id@ != rs[i].conversation_id@
}

/// The conversation's previous entry: the last one the sink holds of it.
pub fn previous_entry(rs: &Vec<HookRecordKey>, conversation_id: &str) -> (r: Option<usize>)
    ensures
        match r {
            Some(i) => is_last_of_conversation(rs@, i as int) && rs@[i as int].conversation_id@ == conversation_id@,
            None => forall|j: int| 0 <= j < rs@.len() ==> (#[trigger] rs@[j]).conversation_id@ != conversation_id@,
        },
{
    let mut found: Option<usize> = None;
    let mut j: usize = 0;
    while j < rs.len()
        invariant
            j <= rs@.len(),
            match found {
                Some(i) => i < j && rs@[i as int].conversation_id@ == conversation_id@ && forall|k: int|
                    i < k < j ==> (#[trigger] rs@[k]).conversation_id@ != conversation_id@,
                None => forall|k: int| 0 <= k < j ==> (#[trigger] rs@[k]).conversation_id@ != conversation_id@,
            },
        decreases rs@.len() - j,
    {
        if str_eq(rs[j].conversation_id.as_str(), conversation_id) {
            found = Some(j);
        }
        j = j + 1;
    }
    found
}

/// Whether entry `i` is the last of its conversation.
fn last_of_its_conversation(rs: &Vec<HookRecordKey>, i: usize) -> (r: bool)
    requires
        i < rs@.len(),
    ensures
        r == is_last_of_conversation(rs@, i as int),
{
    let len = rs.len();
    let mut j: usize = i + 1;
    while j < len
        invariant
            len == rs@.len(),
            i < j <= rs@.len(),
            forall|k: int| i < k < j ==> (#[trigger] rs@[k]).conversation_id@ != rs@[i as int].conversation_id@,
        decreases rs@.len() - j,
    {
        if str_eq(rs[j].conversation_id.as_str(), rs[i].conversation_id.as_str()) {
            return false;
        }
        j = j + 1;
    }
    true
}

/// The entries a capped sink keeps, by position: the last entry of each
/// conversation, oldest first.
pub open spec fn is_cap_of(rs: Seq<HookRecordKey>, kept: Seq<usize>) -> bool {
    &&& forall|a: int| 0 <= a < kept.len() ==> #[trigger] is_last_of_conversation(rs, kept[a] as int)
    &&& forall|i: int| #[trigger] is_last_of_conversation(rs, i) ==> kept.contains(i as usize)
    &&& kept.no_duplicates()
    &&& forall|a: int, b: int| 0 <= a < b < kept.len() ==> rs[kept[a] as int].ts_ms <= rs[kept[b] as int].ts_ms
}

/// Which entries a capped sink is rewritten with, in the order they are
/// written; `rs` holds the sink's entries with the new one last.
pub fn retained_after_cap(rs: &Vec<HookRecordKey>) -> (r: Vec<usize>)
    ensures
        is_cap_of(rs@, r@),
{
    let n = rs.len();
    let mut pool: Vec<usize> = Vec::new();
    let mut ts: Vec<i64> = Vec::new();
    let mut i: usize = 0;
    while i < n
        invariant
            n == rs@.len(),
            i <= n,
            ts@.len() == i,
            forall|c: int| 0 <= c < i ==> #[trigger] ts@[c] == rs@[c].ts_ms,
            forall|a: int| 0 <= a < pool@.len() ==> (#[trigger] pool@[a]) < i && is_last_of_conversation(rs@, pool@[a] as int),
            forall|j: int| 0 <= j < i && #[trigger] is_last_of_conversation(rs@, j) ==> pool@.contains(j as usize),
            pool@.no_duplicates(),
        decreases n - i,
    {
        if last_of_its_conversation(rs, i) {
            let ghost old_pool = pool@;
            pool.push(i);
            proof {
                assert(pool@[old_pool.len() as int] == i);
                assert forall|j: int| 0 <= j <= i && #[trigger] is_last_of_conversation(rs@, j) implies pool@.contains(j as usize) by {
                    if j < i {
                        let k = choose|k: int| 0 <= k < old_pool.len() && old_pool[k] == j as usize;
                        assert(pool@[k] == j as usize);
                    }
                }
                assert forall|a: int, b: int| 0 <= a < pool@.len() && 0 <= b < pool@.len() && a != b implies pool@[a] != pool@[b] by {
                    if a < old_pool.len() && b < old_pool.len() {
                        assert(old_pool[a] != old_pool[b]);
                    }
                }
            }
        }
        ts.push(rs[i].ts_ms);
        i = i + 1;
    }
    let ghost all = pool@;
    let out = order_by_time(pool, &ts);
    proof {
        assert forall|a: int| 0 <= a < out@.len() implies #[trigger] is_last_of_conversation(rs@, out@[a] as int) by {
            assert(out@.contains(out@[a]));
            assert(all.contains(out@[a]));
        }
        assert forall|j: int| #[trigger] is_last_of_conversation(rs@, j) implies out@.contains(j as usize) by {
            assert(all.contains(j as usize));
        }
        assert forall|a: int, b: int| 0 <= a < b < out@.len() implies rs@[out@[a] as int].ts_ms <= rs@[out@[b] as int].ts_ms by {
            assert(out@.contains(out@[a]) && out@.contains(out@[b]));
            assert(all.contains(out@[a]) && all.contains(out@[b]));
            assert(ts@[out@[a] as int] <= ts@[out@[b] as int]);
        }
    }
    out
}

} // verus!
