//! The daemon-owned session-activity hub: a versioned snapshot of the
//! scanner's sessions, the change gate that decides when the version moves,
//! the blackout cursor, and the scanner cadence.
//!
//! Time is milliseconds on a monotonic clock the caller reads; the hub itself
//! never reads a clock. Waiting is the caller's: the hub answers what a wait
//! would return and whether it may return at once.

use vstd::prelude::*;
use crate::cli_tool::CliTool;
use crate::sessions::{
    clone_opt_focus, clone_opt_string, copy_display_sessions, copy_observations,
    copy_runtime_sessions, ActivityAttribution, ActivityConfidence, DisplaySession,
    LiveAccountObservation, RuntimeSession, SessionState, TmuxFocus,
};

verus! {

/// Scanner cadence while anything is active, changing or watched.
pub const ACTIVE_SCAN_INTERVAL_MS: u64 = 500;
/// Scanner cadence after a long idle streak.
pub const IDLE_SCAN_INTERVAL_MS: u64 = 1500;
/// Idle cycles in a row before the cadence widens.
pub const IDLE_STABLE_CYCLES_THRESHOLD: u32 = 30;
/// Activity export refresh period, even without a change.
pub const ACTIVITY_EXPORT_REFRESH_INTERVAL_MS: u64 = 30_000;
/// Upper bound for a long-poll wait.
pub const MAX_WAIT_MS: u64 = 30_000;

// ---------------------------------------------------------------------------
// Change signatures
// ---------------------------------------------------------------------------

/// An optional string by its characters.
pub open spec fn opt_view(o: Option<String>) -> Option<Seq<char>> {
    match o {
        Some(s) => Some(s@),
        None => None,
    }
}

/// The activity half of the change signature, as values.
pub struct SessionSigView {
    pub pid: u32,
    pub project_path: Seq<char>,
    pub tty: Seq<char>,
    pub cli_tool: CliTool,
    pub tmux_session: Option<Seq<char>>,
    pub tmux_window: Option<Seq<char>>,
    pub tmux_pane: Option<Seq<char>>,
    pub tmux_window_name: Option<Seq<char>>,
    pub state: SessionState,
    pub activity_confidence: ActivityConfidence,
    pub activity_attribution: ActivityAttribution,
    pub project_unattributed_active: bool,
    pub workflow_live_runs: Option<u32>,
}

/// The signature of a session: what the app presents of it. `recent_io`,
/// `last_output_age_secs` and workflow write times are left out — they flip
/// per poll and would defeat change-gating.
pub open spec fn session_sig(d: DisplaySession) -> SessionSigView {
    SessionSigView {
        pid: d.pid,
        project_path: d.project_path@,
        tty: d.tty@,
        cli_tool: d.cli_tool,
        tmux_session: opt_view(d.tmux_session),
        tmux_window: opt_view(d.tmux_window),
        tmux_pane: opt_view(d.tmux_pane),
        tmux_window_name: opt_view(d.tmux_window_name),
        state: d.state,
        activity_confidence: d.activity_confidence,
        activity_attribution: d.activity_attribution,
        project_unattributed_active: d.project_unattributed_active,
        workflow_live_runs: match d.workflow_activity {
            Some(a) => Some(a.live_runs),
            None => None,
        },
    }
}

/// The signatures of a list of sessions, in list order.
pub open spec fn sigs(v: Seq<DisplaySession>) -> Seq<SessionSigView> {
    v.map_values(|d: DisplaySession| session_sig(d))
}

/// `x` placed after every element whose pid is not greater than its own.
pub open spec fn insert_by_pid(s: Seq<SessionSigView>, x: SessionSigView) -> Seq<SessionSigView>
    decreases s.len(),
{
    if s.len() == 0 {
        seq![x]
    } else if x.pid < s[0].pid {
        seq![x] + s
    } else {
        seq![s[0]] + insert_by_pid(s.drop_first(), x)
    }
}

/// The stable sort of a signature list by pid.
pub open spec fn sort_by_pid(s: Seq<SessionSigView>) -> Seq<SessionSigView>
    decreases s.len(),
{
    if s.len() == 0 {
        s
    } else {
        insert_by_pid(sort_by_pid(s.drop_last()), s.last())
    }
}

/// The activity of two session lists differs: their signatures, each list
/// stably sorted by pid, are not the same.
pub open spec fn activity_differs(prev: Seq<DisplaySession>, next: Seq<DisplaySession>) -> bool {
    sort_by_pid(sigs(prev)) != sort_by_pid(sigs(next))
}

/// The activity half of the change signature.
#[derive(Debug, Clone, PartialEq, Eq)]
pub struct SessionEventSignature {
    pub pid: u32,
    pub project_path: String,
    pub tty: String,
    pub cli_tool: CliTool,
    pub tmux_session: Option<String>,
    pub tmux_window: Option<String>,
    pub tmux_pane: Option<String>,
    pub tmux_window_name: Option<String>,
    pub state: SessionState,
    pub activity_confidence: ActivityConfidence,
    pub activity_attribution: ActivityAttribution,
    pub project_unattributed_active: bool,
    pub workflow_live_runs: Option<u32>,
}

impl View for SessionEventSignature {
    type V = SessionSigView;

    open spec fn view(&self) -> SessionSigView {
        SessionSigView {
            pid: self.pid,
            project_path: self.project_path@,
            tty: self.tty@,
            cli_tool: self.cli_tool,
            tmux_session: opt_view(self.tmux_session),
            tmux_window: opt_view(self.tmux_window),
            tmux_pane: opt_view(self.tmux_pane),
            tmux_window_name: opt_view(self.tmux_window_name),
            state: self.state,
            activity_confidence: self.activity_confidence,
            activity_attribution: self.activity_attribution,
            project_unattributed_active: self.project_unattributed_active,
            workflow_live_runs: self.workflow_live_runs,
        }
    }
}

/// The views of a list of signatures.
pub open spec fn sig_views(s: Seq<SessionEventSignature>) -> Seq<SessionSigView> {
    s.map_values(|x: SessionEventSignature| x@)
}

/// The signature of one session.
pub fn event_signature(session: &DisplaySession) -> (r: SessionEventSignature)
    ensures
        r@ == session_sig(*session),
{
    SessionEventSignature {
        pid: session.pid,
        project_path: session.project_path.clone(),
        tty: session.tty.clone(),
        cli_tool: session.cli_tool,
        tmux_session: clone_opt_string(&session.tmux_session),
        tmux_window: clone_opt_string(&session.tmux_window),
        tmux_pane: clone_opt_string(&session.tmux_pane),
        tmux_window_name: clone_opt_string(&session.tmux_window_name),
        state: session.state,
        activity_confidence: session.activity_confidence,
        activity_attribution: session.activity_attribution,
        project_unattributed_active: session.project_unattributed_active,
        workflow_live_runs: match session.workflow_activity {
            Some(activity) => Some(activity.live_runs),
            None => None,
        },
    }
}

/// Whether two optional strings hold the same text.
pub fn opt_str_eq(a: &Option<String>, b: &Option<String>) -> (r: bool)
    ensures
        r == (opt_view(*a) == opt_view(*b)),
{
    match (a, b) {
        (Some(x), Some(y)) => *x == *y,
        (None, None) => true,
        _ => false,
    }
}

fn opt_u32_eq(a: Option<u32>, b: Option<u32>) -> (r: bool)
    ensures
        r == (a == b),
{
    match (a, b) {
        (Some(x), Some(y)) => x == y,
        (None, None) => true,
        _ => false,
    }
}

fn sig_eq(a: &SessionEventSignature, b: &SessionEventSignature) -> (r: bool)
    ensures
        r == (a@ == b@),
{
    a.pid == b.pid && a.project_path == b.project_path && a.tty == b.tty && a.cli_tool
        == b.cli_tool && opt_str_eq(&a.tmux_session, &b.tmux_session) && opt_str_eq(
        &a.tmux_window,
        &b.tmux_window,
    ) && opt_str_eq(&a.tmux_pane, &b.tmux_pane) && opt_str_eq(
        &a.tmux_window_name,
        &b.tmux_window_name,
    ) && a.state == b.state && a.activity_confidence == b.activity_confidence
        && a.activity_attribution == b.activity_attribution && a.project_unattributed_active
        == b.project_unattributed_active && opt_u32_eq(a.workflow_live_runs, b.workflow_live_runs)
}

proof fn lemma_insert_by_pid(s: Seq<SessionSigView>, x: SessionSigView, k: int)
    requires
        0 <= k <= s.len(),
        forall|j: int| 0 <= j < k ==> !(x.pid < #[trigger] s[j].pid),
        k < s.len() ==> x.pid < s[k].pid,
    ensures
        insert_by_pid(s, x) == s.insert(k, x),
    decreases s.len(),
{
    if s.len() == 0 {
        assert(s.insert(k, x) =~= seq![x]);
    } else if k == 0 {
        assert(s.insert(0, x) =~= seq![x] + s);
    } else {
        let t = s.drop_first();
        assert forall|j: int| 0 <= j < k - 1 implies !(x.pid < #[trigger] t[j].pid) by {
            assert(t[j] == s[j + 1]);
        }
        if k - 1 < t.len() {
            assert(t[k - 1] == s[k]);
        }
        lemma_insert_by_pid(t, x, k - 1);
        assert(seq![s[0]] + t.insert(k - 1, x) =~= s.insert(k, x));
    }
}

/// The signatures of `v`, stably sorted by pid.
fn sorted_signatures(v: &Vec<DisplaySession>) -> (r: Vec<SessionEventSignature>)
    ensures
        sig_views(r@) == sort_by_pid(sigs(v@)),
{
    let mut out: Vec<SessionEventSignature> = Vec::new();
    let mut i: usize = 0;
    assert(sigs(v@.subrange(0, 0)) =~= Seq::<SessionSigView>::empty());
    assert(sig_views(out@) =~= Seq::<SessionSigView>::empty());
    while i < v.len()
        invariant
            i <= v.len(),
            sig_views(out@) == sort_by_pid(sigs(v@.subrange(0, i as int))),
        decreases v.len() - i,
    {
        let sig = event_signature(&v[i]);
        let mut k: usize = 0;
        while k < out.len() && !(sig.pid < out[k].pid)
            invariant
                k <= out.len(),
                forall|j: int| 0 <= j < k ==> !(sig.pid < #[trigger] out@[j].pid),
            decreases out.len() - k,
        {
            k = k + 1;
        }
        let ghost before = sig_views(out@);
        proof {
            assert forall|j: int| 0 <= j < k implies !(sig@.pid < #[trigger] before[j].pid) by {
                assert(before[j] == out@[j]@);
            }
            if k < before.len() {
                assert(before[k as int] == out@[k as int]@);
            }
            lemma_insert_by_pid(before, sig@, k as int);
        }
        out.insert(k, sig);
        proof {
            assert(sig_views(out@) =~= before.insert(k as int, sig@));
            let pre = v@.subrange(0, i as int);
            let pre1 = v@.subrange(0, i + 1);
            assert(pre1.drop_last() =~= pre);
            assert(sigs(pre1).drop_last() =~= sigs(pre));
            assert(sigs(pre1).last() == session_sig(v@[i as int]));
        }
        i = i + 1;
    }
    assert(v@.subrange(0, v.len() as int) =~= v@);
    out
}

/// Whether the activity half of the signature moved between two session
/// lists.
pub fn activity_changed(prev: &Vec<DisplaySession>, next: &Vec<DisplaySession>) -> (r: bool)
    ensures
        r == activity_differs(prev@, next@),
{
    let a = sorted_signatures(prev);
    let b = sorted_signatures(next);
    if a.len() != b.len() {
        assert(sig_views(a@).len() != sig_views(b@).len());
        return true;
    }
    let mut i: usize = 0;
    while i < a.len()
        invariant
            a.len() == b.len(),
            i <= a.len(),
            sig_views(a@) == sort_by_pid(sigs(prev@)),
            sig_views(b@) == sort_by_pid(sigs(next@)),
            forall|j: int| 0 <= j < i ==> #[trigger] a@[j]@ == b@[j]@,
        decreases a.len() - i,
    {
        if !sig_eq(&a[i], &b[i]) {
            assert(sig_views(a@)[i as int] == a@[i as int]@);
            assert(sig_views(b@)[i as int] == b@[i as int]@);
            assert(sig_views(a@)[i as int] != sig_views(b@)[i as int]);
            return true;
        }
        i = i + 1;
    }
    assert(sig_views(a@) =~= sig_views(b@));
    false
}

/// The focus half of the change signature, as values.
pub struct FocusSigView {
    pub session: Option<Seq<char>>,
    pub window_index: Option<Seq<char>>,
    pub pane_id: Option<Seq<char>>,
    pub project_path: Option<Seq<char>>,
}

/// The focus signature of a focus and the project it resolves to.
pub open spec fn focus_sig(focus: Option<TmuxFocus>, project_path: Option<String>) -> FocusSigView {
    FocusSigView {
        session: match focus {
            Some(f) => Some(f.session@),
            None => None,
        },
        window_index: match focus {
            Some(f) => Some(f.window_index@),
            None => None,
        },
        pane_id: match focus {
            Some(f) => Some(f.pane_id@),
            None => None,
        },
        project_path: opt_view(project_path),
    }
}

/// The focus half of the change signature.
#[derive(Debug, Clone, PartialEq, Eq)]
pub struct FocusSignature {
    pub session: Option<String>,
    pub window_index: Option<String>,
    pub pane_id: Option<String>,
    pub project_path: Option<String>,
}

impl View for FocusSignature {
    type V = FocusSigView;

    open spec fn view(&self) -> FocusSigView {
        FocusSigView {
            session: opt_view(self.session),
            window_index: opt_view(self.window_index),
            pane_id: opt_view(self.pane_id),
            project_path: opt_view(self.project_path),
        }
    }
}

/// The focus signature: a move of the window, the pane or the project it
/// resolves to is a real change.
pub fn focus_signature(focus: &Option<TmuxFocus>, project_path: &Option<String>) -> (r:
    FocusSignature)
    ensures
        r@ == focus_sig(*focus, *project_path),
{
    match focus {
        Some(f) => FocusSignature {
            session: Some(f.session.clone()),
            window_index: Some(f.window_index.clone()),
            pane_id: Some(f.pane_id.clone()),
            project_path: clone_opt_string(project_path),
        },
        None => FocusSignature {
            session: None,
            window_index: None,
            pane_id: None,
            project_path: clone_opt_string(project_path),
        },
    }
}

fn focus_signature_eq(a: &FocusSignature, b: &FocusSignature) -> (r: bool)
    ensures
        r == (a@ == b@),
{
    opt_str_eq(&a.session, &b.session) && opt_str_eq(&a.window_index, &b.window_index)
        && opt_str_eq(&a.pane_id, &b.pane_id) && opt_str_eq(&a.project_path, &b.project_path)
}

// ---------------------------------------------------------------------------
// Export and cadence
// ---------------------------------------------------------------------------

/// The activity export is due on an activity change, on the first loop,
/// and once the refresh period has passed since the last export.
pub open spec fn export_due(activity_moved: bool, last_export_at: Option<u64>, now: u64) -> bool {
    activity_moved || match last_export_at {
        None => true,
        Some(last) => (if now >= last { now - last } else { 0 }) >= ACTIVITY_EXPORT_REFRESH_INTERVAL_MS,
    }
}

/// Activity export is due on an activity change or the periodic refresh.
/// A focus move is not activity: it writes no member activity file.
pub fn should_export_activity_snapshots(
    activity_moved: bool,
    last_export_at: Option<u64>,
    now: u64,
) -> (r: bool)
    ensures
        r == export_due(activity_moved, last_export_at, now),
{
    activity_moved || match last_export_at {
        None => true,
        Some(last) => now.saturating_sub(last) >= ACTIVITY_EXPORT_REFRESH_INTERVAL_MS,
    }
}

/// Every session in the list is idle.
pub open spec fn all_idle(s: Seq<DisplaySession>) -> bool {
    forall|i: int| 0 <= i < s.len() ==> (#[trigger] s[i]).state == SessionState::Idle
}

/// The interval for an idle streak of the given length.
pub open spec fn interval_for_streak(stable_idle_cycles: u32) -> u64 {
    if stable_idle_cycles >= IDLE_STABLE_CYCLES_THRESHOLD {
        IDLE_SCAN_INTERVAL_MS
    } else {
        ACTIVE_SCAN_INTERVAL_MS
    }
}

/// The idle streak after one cycle.
pub open spec fn next_streak(
    stable_idle_cycles: u32,
    changed: bool,
    sessions: Seq<DisplaySession>,
    focused: bool,
) -> u32 {
    if changed || focused || !all_idle(sessions) {
        0
    } else if stable_idle_cycles == u32::MAX {
        u32::MAX
    } else {
        (stable_idle_cycles + 1) as u32
    }
}

/// The scanner's cadence: fast while anything is active, changing or
/// watched, slow after a long idle streak.
#[derive(Debug)]
pub struct ScannerCadence {
    pub stable_idle_cycles: u32,
}

impl Default for ScannerCadence {
    /// A fresh cadence has no idle streak.
    fn default() -> (r: Self)
        ensures
            r.stable_idle_cycles == 0,
    {
        ScannerCadence { stable_idle_cycles: 0 }
    }
}

impl ScannerCadence {
    /// Advance the idle streak by one cycle and answer the next interval.
    pub fn next_interval(
        &mut self,
        changed: bool,
        sessions: &Vec<DisplaySession>,
        focused: bool,
    ) -> (r: u64)
        ensures
            final(self).stable_idle_cycles == next_streak(
                old(self).stable_idle_cycles,
                changed,
                sessions@,
                focused,
            ),
            r == interval_for_streak(final(self).stable_idle_cycles),
    {
        let mut all_idle_now = true;
        let mut i: usize = 0;
        while i < sessions.len()
            invariant
                i <= sessions.len(),
                all_idle_now == (forall|j: int|
                    0 <= j < i ==> (#[trigger] sessions@[j]).state == SessionState::Idle),
            decreases sessions.len() - i,
        {
            if sessions[i].state != SessionState::Idle {
                all_idle_now = false;
            }
            i = i + 1;
        }
        if changed || focused || !all_idle_now {
            self.stable_idle_cycles = 0;
            return ACTIVE_SCAN_INTERVAL_MS;
        }
        self.stable_idle_cycles = self.stable_idle_cycles.saturating_add(1);
        self.hold_interval()
    }

    /// Current interval without advancing or resetting the idle streak.
    pub fn hold_interval(&self) -> (r: u64)
        ensures
            r == interval_for_streak(self.stable_idle_cycles),
    {
        if self.stable_idle_cycles >= IDLE_STABLE_CYCLES_THRESHOLD {
            IDLE_SCAN_INTERVAL_MS
        } else {
            ACTIVE_SCAN_INTERVAL_MS
        }
    }
}

// ---------------------------------------------------------------------------
// Account observations
// ---------------------------------------------------------------------------

/// A project path without trailing separators, the root excepted.
pub open spec fn normalized_path(s: Seq<char>) -> Seq<char>
    decreases s.len(),
{
    if s.len() > 1 && s.last() == '/' {
        normalized_path(s.drop_last())
    } else {
        s
    }
}

/// A project path without trailing separators, the root excepted.
pub fn normalize_project_path(path: &String) -> (r: String)
    ensures
        r@ == normalized_path(path@),
{
    let s = path.as_str();
    let n = s.unicode_len();
    let mut end = n;
    assert(s@.subrange(0, n as int) =~= s@);
    while end > 1 && s.get_char(end - 1) == '/'
        invariant
            n == s@.len(),
            end <= n,
            normalized_path(s@) == normalized_path(s@.subrange(0, end as int)),
        decreases end,
    {
        let ghost t = s@.subrange(0, end as int);
        assert(t.last() == s@[end - 1]);
        assert(t.drop_last() =~= s@.subrange(0, end - 1));
        end = end - 1;
    }
    proof {
        let t = s@.subrange(0, end as int);
        if t.len() > 1 {
            assert(t.last() == s@[end - 1]);
        }
    }
    crate::text::prefix_to(s, end)
}

/// The key an observation is kept under: its project and tool.
pub open spec fn obs_key(o: LiveAccountObservation) -> (Seq<char>, CliTool) {
    (normalized_path(o.project_path@), o.tool)
}

/// The key a live session offers: its project and tool.
pub open spec fn session_key(s: RuntimeSession) -> (Seq<char>, CliTool) {
    (normalized_path(s.project_path@), s.cli_tool)
}

/// Some live session has the observation's project and tool.
pub open spec fn is_live(o: LiveAccountObservation, runtime: Seq<RuntimeSession>) -> bool {
    exists|i: int| 0 <= i < runtime.len() && session_key(#[trigger] runtime[i]) == obs_key(o)
}

/// The observations whose project and tool still have a live session, in
/// order.
pub open spec fn keep_live(obs: Seq<LiveAccountObservation>, runtime: Seq<RuntimeSession>) -> Seq<
    LiveAccountObservation,
>
    decreases obs.len(),
{
    if obs.len() == 0 {
        obs
    } else {
        let rest = keep_live(obs.drop_last(), runtime);
        if is_live(obs.last(), runtime) {
            rest.push(obs.last())
        } else {
            rest
        }
    }
}

/// The observations under another key than `key`, in order.
pub open spec fn drop_key(obs: Seq<LiveAccountObservation>, key: (Seq<char>, CliTool)) -> Seq<
    LiveAccountObservation,
>
    decreases obs.len(),
{
    if obs.len() == 0 {
        obs
    } else {
        let rest = drop_key(obs.drop_last(), key);
        if obs_key(obs.last()) != key {
            rest.push(obs.last())
        } else {
            rest
        }
    }
}

/// Each incoming observation, in order, replaces any kept one under its key
/// and goes to the end.
pub open spec fn merge_observations(
    kept: Seq<LiveAccountObservation>,
    incoming: Seq<LiveAccountObservation>,
) -> Seq<LiveAccountObservation>
    decreases incoming.len(),
{
    if incoming.len() == 0 {
        kept
    } else {
        merge_observations(drop_key(kept, obs_key(incoming[0])).push(incoming[0]), incoming.drop_first())
    }
}

fn obs_key_eq(
    path_a: &String,
    tool_a: CliTool,
    path_b: &String,
    tool_b: CliTool,
) -> (r: bool)
    ensures
        r == ((path_a@, tool_a) == (path_b@, tool_b)),
{
    tool_a == tool_b && *path_a == *path_b
}

/// Keep the observations whose project and tool still have a live session.
fn retain_live(obs: &Vec<LiveAccountObservation>, runtime: &Vec<RuntimeSession>) -> (r: Vec<
    LiveAccountObservation,
>)
    ensures
        r@ == keep_live(obs@, runtime@),
{
    let mut live_keys: Vec<String> = Vec::new();
    let mut j: usize = 0;
    while j < runtime.len()
        invariant
            j <= runtime.len(),
            live_keys@.len() == j,
            forall|k: int| 0 <= k < j ==> #[trigger] live_keys@[k]@ == normalized_path(
                runtime@[k].project_path@,
            ),
        decreases runtime.len() - j,
    {
        live_keys.push(normalize_project_path(&runtime[j].project_path));
        j = j + 1;
    }
    let mut out: Vec<LiveAccountObservation> = Vec::new();
    let mut i: usize = 0;
    assert(obs@.subrange(0, 0) =~= Seq::<LiveAccountObservation>::empty());
    while i < obs.len()
        invariant
            i <= obs.len(),
            live_keys@.len() == runtime@.len(),
            forall|k: int| 0 <= k < runtime@.len() ==> #[trigger] live_keys@[k]@ == normalized_path(
                runtime@[k].project_path@,
            ),
            out@ == keep_live(obs@.subrange(0, i as int), runtime@),
        decreases obs.len() - i,
    {
        let key = normalize_project_path(&obs[i].project_path);
        let tool = obs[i].tool;
        let mut found = false;
        let mut k: usize = 0;
        while k < runtime.len()
            invariant
                k <= runtime.len(),
                live_keys@.len() == runtime@.len(),
                forall|m: int| 0 <= m < runtime@.len() ==> #[trigger] live_keys@[m]@
                    == normalized_path(runtime@[m].project_path@),
                found == (exists|m: int|
                    0 <= m < k && session_key(#[trigger] runtime@[m]) == (key@, tool)),
            decreases runtime.len() - k,
        {
            if obs_key_eq(&live_keys[k], runtime[k].cli_tool, &key, tool) {
                assert(session_key(runtime@[k as int]) == (key@, tool));
                found = true;
            }
            k = k + 1;
        }
        let ghost pre = obs@.subrange(0, i as int);
        let ghost pre1 = obs@.subrange(0, i + 1);
        assert(pre1.drop_last() =~= pre);
        assert(pre1.last() == obs@[i as int]);
        assert(obs_key(obs@[i as int]) == (key@, tool));
        if found {
            out.push(obs[i].copy());
        }
        i = i + 1;
    }
    assert(obs@.subrange(0, obs.len() as int) =~= obs@);
    out
}

/// Drop the observations kept under `key`.
fn remove_key(obs: Vec<LiveAccountObservation>, key: &String, tool: CliTool) -> (r: Vec<
    LiveAccountObservation,
>)
    ensures
        r@ == drop_key(obs@, (key@, tool)),
{
    let mut out: Vec<LiveAccountObservation> = Vec::new();
    let mut i: usize = 0;
    assert(obs@.subrange(0, 0) =~= Seq::<LiveAccountObservation>::empty());
    while i < obs.len()
        invariant
            i <= obs.len(),
            out@ == drop_key(obs@.subrange(0, i as int), (key@, tool)),
        decreases obs.len() - i,
    {
        let current = normalize_project_path(&obs[i].project_path);
        let ghost pre = obs@.subrange(0, i as int);
        let ghost pre1 = obs@.subrange(0, i + 1);
        assert(pre1.drop_last() =~= pre);
        assert(pre1.last() == obs@[i as int]);
        if !obs_key_eq(&current, obs[i].tool, key, tool) {
            out.push(obs[i].copy());
        }
        i = i + 1;
    }
    assert(obs@.subrange(0, obs.len() as int) =~= obs@);
    out
}

/// Fold the cycle's observations into the kept ones.
fn merge_incoming(kept: Vec<LiveAccountObservation>, incoming: &Vec<LiveAccountObservation>) -> (r:
    Vec<LiveAccountObservation>)
    ensures
        r@ == merge_observations(kept@, incoming@),
{
    let mut current = kept;
    let mut i: usize = 0;
    assert(incoming@.subrange(0, incoming.len() as int) =~= incoming@);
    while i < incoming.len()
        invariant
            i <= incoming.len(),
            merge_observations(kept@, incoming@) == merge_observations(
                current@,
                incoming@.subrange(i as int, incoming.len() as int),
            ),
        decreases incoming.len() - i,
    {
        let ghost rest = incoming@.subrange(i as int, incoming.len() as int);
        assert(rest[0] == incoming@[i as int]);
        assert(rest.drop_first() =~= incoming@.subrange(i + 1, incoming.len() as int));
        let key = normalize_project_path(&incoming[i].project_path);
        let tool = incoming[i].tool;
        let mut next = remove_key(current, &key, tool);
        next.push(incoming[i].copy());
        current = next;
        i = i + 1;
    }
    current
}

// ---------------------------------------------------------------------------
// The hub
// ---------------------------------------------------------------------------

/// One scanner cycle's inputs, as folded into the hub.
pub struct ScanCycle {
    pub display_sessions: Vec<DisplaySession>,
    pub runtime_sessions: Vec<RuntimeSession>,
    pub account_observations: Vec<LiveAccountObservation>,
    pub focus: Option<TmuxFocus>,
    pub focus_project_path: Option<String>,
    /// Some client reports its window as focused: someone is looking.
    pub focused: bool,
    /// The process inventory could not be read; the sessions are not an
    /// observation.
    pub degraded: bool,
}

/// What one cycle decided.
#[derive(Debug, Clone, Copy, PartialEq, Eq, Structural)]
pub struct CycleDecision {
    pub changed: bool,
    pub export_due: bool,
    pub interval_ms: u64,
}

/// A versioned session snapshot.
#[derive(Debug, Clone, PartialEq)]
pub struct SessionSnapshot {
    pub version: u64,
    pub sessions: Vec<DisplaySession>,
}

/// The authoritative display and runtime snapshot.
#[derive(Debug, Clone, PartialEq)]
pub struct RuntimeSessionSnapshot {
    pub version: u64,
    pub display_sessions: Vec<DisplaySession>,
    pub runtime_sessions: Vec<RuntimeSession>,
    pub account_observations: Vec<LiveAccountObservation>,
    pub focus: Option<TmuxFocus>,
    pub focus_project_path: Option<String>,
    /// The latest scanner cycle was degraded: the sessions are the last good
    /// snapshot kept for continuity, not an observation.
    pub degraded: bool,
    /// Blackout-edge counter.
    pub degraded_revision: u64,
}

/// The answer to a long poll.
#[derive(Debug, Clone, PartialEq)]
pub struct SessionUpdate {
    pub changed: bool,
    pub snapshot: SessionSnapshot,
    pub focus: Option<TmuxFocus>,
    pub focus_project_path: Option<String>,
    pub account_observations: Vec<LiveAccountObservation>,
    pub degraded: bool,
    /// Monotonic count of degradation edges (healthy to degraded and back).
    pub degraded_revision: u64,
}

/// The hub's state, as values.
pub struct HubView {
    pub initialized: bool,
    pub version: u64,
    pub display_sessions: Seq<DisplaySession>,
    pub runtime_sessions: Seq<RuntimeSession>,
    pub account_observations: Seq<LiveAccountObservation>,
    pub focus: Option<TmuxFocus>,
    pub focus_project_path: Option<String>,
    pub degraded: bool,
    pub degraded_revision: u64,
}

/// One more, saturating at the top.
pub open spec fn bump(x: u64) -> u64 {
    if x == u64::MAX {
        x
    } else {
        (x + 1) as u64
    }
}

/// The hub after a degraded cycle: the snapshot stays, the version does not
/// move, the hub is marked degraded, and the blackout cursor moves on the
/// healthy-to-degraded edge only.
pub open spec fn degraded_step(h: HubView) -> HubView {
    HubView {
        degraded: true,
        degraded_revision: if h.degraded {
            h.degraded_revision
        } else {
            bump(h.degraded_revision)
        },
        ..h
    }
}

/// The activity half moved: the first commit, or a different activity
/// signature.
pub open spec fn activity_moved(h: HubView, display: Seq<DisplaySession>) -> bool {
    !h.initialized || activity_differs(h.display_sessions, display)
}

/// The focus half moved.
pub open spec fn focus_moved(h: HubView, focus: Option<TmuxFocus>, project: Option<String>) -> bool {
    focus_sig(h.focus, h.focus_project_path) != focus_sig(focus, project)
}

/// Whether a healthy cycle is a change: either half moved.
pub open spec fn cycle_changes(
    h: HubView,
    display: Seq<DisplaySession>,
    focus: Option<TmuxFocus>,
    project: Option<String>,
) -> bool {
    activity_moved(h, display) || focus_moved(h, focus, project)
}

/// The hub after a healthy cycle: the cycle's sessions and focus replace the
/// old ones, account observations are kept while live and replaced by newer
/// ones, the degraded mark clears (moving the blackout cursor if it was
/// set), and the version moves exactly on a change.
pub open spec fn healthy_step(
    h: HubView,
    display: Seq<DisplaySession>,
    runtime: Seq<RuntimeSession>,
    observations: Seq<LiveAccountObservation>,
    focus: Option<TmuxFocus>,
    project: Option<String>,
) -> HubView {
    let changed = cycle_changes(h, display, focus, project);
    HubView {
        initialized: h.initialized || changed,
        version: if changed {
            bump(h.version)
        } else {
            h.version
        },
        display_sessions: display,
        runtime_sessions: runtime,
        account_observations: merge_observations(keep_live(h.account_observations, runtime), observations),
        focus: focus,
        focus_project_path: project,
        degraded: false,
        degraded_revision: if h.degraded {
            bump(h.degraded_revision)
        } else {
            h.degraded_revision
        },
    }
}

/// The state the hub starts in: nothing observed, version 0.
pub open spec fn initial_hub() -> HubView {
    HubView {
        initialized: false,
        version: 0,
        display_sessions: Seq::empty(),
        runtime_sessions: Seq::empty(),
        account_observations: Seq::empty(),
        focus: None,
        focus_project_path: None,
        degraded: false,
        degraded_revision: 0,
    }
}

/// Global daemon-owned session hub with a versioned snapshot.
pub struct SessionActivityHub {
    initialized: bool,
    version: u64,
    display_sessions: Vec<DisplaySession>,
    runtime_sessions: Vec<RuntimeSession>,
    account_observations: Vec<LiveAccountObservation>,
    focus: Option<TmuxFocus>,
    focus_project_path: Option<String>,
    degraded: bool,
    degraded_revision: u64,
}

impl View for SessionActivityHub {
    type V = HubView;

    closed spec fn view(&self) -> HubView {
        HubView {
            initialized: self.initialized,
            version: self.version,
            display_sessions: self.display_sessions@,
            runtime_sessions: self.runtime_sessions@,
            account_observations: self.account_observations@,
            focus: self.focus,
            focus_project_path: self.focus_project_path,
            degraded: self.degraded,
            degraded_revision: self.degraded_revision,
        }
    }
}

impl SessionActivityHub {
    /// A hub with nothing observed yet.
    pub fn new() -> (r: Self)
        ensures
            r@ == initial_hub(),
    {
        SessionActivityHub {
            initialized: false,
            version: 0,
            display_sessions: Vec::new(),
            runtime_sessions: Vec::new(),
            account_observations: Vec::new(),
            focus: None,
            focus_project_path: None,
            degraded: false,
            degraded_revision: 0,
        }
    }

    /// The latest snapshot.
    pub fn snapshot(&self) -> (r: SessionSnapshot)
        ensures
            r.version == self@.version,
            r.sessions@ == self@.display_sessions,
    {
        SessionSnapshot { version: self.version, sessions: copy_display_sessions(&self.display_sessions) }
    }

    /// The latest authoritative display/runtime snapshot.
    pub fn runtime_snapshot(&self) -> (r: RuntimeSessionSnapshot)
        ensures
            r.version == self@.version,
            r.display_sessions@ == self@.display_sessions,
            r.runtime_sessions@ == self@.runtime_sessions,
            r.account_observations@ == self@.account_observations,
            r.focus == self@.focus,
            r.focus_project_path == self@.focus_project_path,
            r.degraded == self@.degraded,
            r.degraded_revision == self@.degraded_revision,
    {
        RuntimeSessionSnapshot {
            version: self.version,
            display_sessions: copy_display_sessions(&self.display_sessions),
            runtime_sessions: copy_runtime_sessions(&self.runtime_sessions),
            account_observations: copy_observations(&self.account_observations),
            focus: clone_opt_focus(&self.focus),
            focus_project_path: clone_opt_string(&self.focus_project_path),
            degraded: self.degraded,
            degraded_revision: self.degraded_revision,
        }
    }

    /// The update as of now, reporting `changed` as given.
    fn session_update(&self, changed: bool) -> (r: SessionUpdate)
        ensures
            r.changed == changed,
            r.snapshot.version == self@.version,
            r.snapshot.sessions@ == self@.display_sessions,
            r.focus == self@.focus,
            r.focus_project_path == self@.focus_project_path,
            r.account_observations@ == self@.account_observations,
            r.degraded == self@.degraded,
            r.degraded_revision == self@.degraded_revision,
    {
        SessionUpdate {
            changed,
            snapshot: self.snapshot(),
            focus: clone_opt_focus(&self.focus),
            focus_project_path: clone_opt_string(&self.focus_project_path),
            account_observations: copy_observations(&self.account_observations),
            degraded: self.degraded,
            degraded_revision: self.degraded_revision,
        }
    }

    /// Whether a wait from the given cursors is over: a newer version or a
    /// newer degradation revision exists.
    pub fn wait_satisfied(&self, since_version: u64, since_degraded_revision: u64) -> (r: bool)
        ensures
            r == (self@.version > since_version || self@.degraded_revision
                > since_degraded_revision),
    {
        self.version > since_version || self.degraded_revision > since_degraded_revision
    }

    /// Whether a long poll with this timeout answers at once: a newer
    /// version exists, the (clamped) timeout is zero, or the blackout cursor
    /// already moved. Otherwise the caller parks until `wait_satisfied` or
    /// the clamped timeout.
    pub fn answers_immediately(
        &self,
        since_version: u64,
        since_degraded_revision: u64,
        timeout_ms: u64,
    ) -> (r: bool)
        ensures
            r == (self@.version > since_version || timeout_ms == 0 || self@.degraded_revision
                > since_degraded_revision),
    {
        let wait_for = if timeout_ms < MAX_WAIT_MS {
            timeout_ms
        } else {
            MAX_WAIT_MS
        };
        self.version > since_version || wait_for == 0 || self.degraded_revision
            > since_degraded_revision
    }

    /// The answer of a long poll, as of the hub's current state.
    ///
    /// `changed` reports a newer version only: waking on a blackout must
    /// never look like a fresh snapshot. A caller that waited reads the
    /// answer after its wait; one that did not reads it at once.
    pub fn wait_for_update(
        &self,
        since_version: u64,
        since_degraded_revision: u64,
        timeout_ms: u64,
    ) -> (r: SessionUpdate)
        ensures
            r.changed == (self@.version > since_version),
            r.snapshot.version == self@.version,
            r.snapshot.sessions@ == self@.display_sessions,
            r.focus == self@.focus,
            r.focus_project_path == self@.focus_project_path,
            r.account_observations@ == self@.account_observations,
            r.degraded == self@.degraded,
            r.degraded_revision == self@.degraded_revision,
    {
        let changed = self.version > since_version;
        self.session_update(changed)
    }

    /// Fold one scan cycle into the hub state.
    ///
    /// Degraded cycles are inert: the previous snapshot stays, the version is
    /// not bumped, no export is due, and the cadence holds its interval. The
    /// preserved snapshot is marked degraded until the next healthy commit.
    /// Both degradation edges bump `degraded_revision`.
    pub fn commit_cycle(
        &mut self,
        cycle: ScanCycle,
        cadence: &mut ScannerCadence,
        last_activity_export_at: Option<u64>,
        now: u64,
    ) -> (r: CycleDecision)
        ensures
            cycle.degraded ==> {
                &&& final(self)@ == degraded_step(old(self)@)
                &&& final(cadence).stable_idle_cycles == old(cadence).stable_idle_cycles
                &&& r == CycleDecision {
                    changed: false,
                    export_due: false,
                    interval_ms: interval_for_streak(old(cadence).stable_idle_cycles),
                }
            },
            !cycle.degraded ==> {
                let changed = cycle_changes(
                    old(self)@,
                    cycle.display_sessions@,
                    cycle.focus,
                    cycle.focus_project_path,
                );
                &&& final(self)@ == healthy_step(
                    old(self)@,
                    cycle.display_sessions@,
                    cycle.runtime_sessions@,
                    cycle.account_observations@,
                    cycle.focus,
                    cycle.focus_project_path,
                )
                &&& final(cadence).stable_idle_cycles == next_streak(
                    old(cadence).stable_idle_cycles,
                    changed,
                    cycle.display_sessions@,
                    cycle.focused,
                )
                &&& r.changed == changed
                &&& r.export_due == export_due(
                    activity_moved(old(self)@, cycle.display_sessions@),
                    last_activity_export_at,
                    now,
                )
                &&& r.interval_ms == interval_for_streak(final(cadence).stable_idle_cycles)
            },
    {
        if cycle.degraded {
            if !self.degraded {
                self.degraded = true;
                self.degraded_revision = self.degraded_revision.saturating_add(1);
            }
            let interval_ms = cadence.hold_interval();
            return CycleDecision { changed: false, export_due: false, interval_ms };
        }
        let ScanCycle {
            display_sessions,
            runtime_sessions,
            account_observations,
            focus,
            focus_project_path,
            focused,
            degraded: _,
        } = cycle;
        let activity = !self.initialized || activity_changed(&self.display_sessions, &display_sessions);
        let old_focus = focus_signature(&self.focus, &self.focus_project_path);
        let new_focus = focus_signature(&focus, &focus_project_path);
        let focus_move = !focus_signature_eq(&old_focus, &new_focus);
        let changed = activity || focus_move;
        let kept = retain_live(&self.account_observations, &runtime_sessions);
        self.account_observations = merge_incoming(kept, &account_observations);
        self.display_sessions = display_sessions;
        self.runtime_sessions = runtime_sessions;
        self.focus = focus;
        self.focus_project_path = focus_project_path;
        let recovered = self.degraded;
        self.degraded = false;
        if recovered {
            self.degraded_revision = self.degraded_revision.saturating_add(1);
        }
        if changed {
            self.version = self.version.saturating_add(1);
            self.initialized = true;
        }
        let export = should_export_activity_snapshots(activity, last_activity_export_at, now);
        let interval_ms = cadence.next_interval(changed, &self.display_sessions, focused);
        CycleDecision { changed, export_due: export, interval_ms }
    }
}

// ---------------------------------------------------------------------------
// Laws
// ---------------------------------------------------------------------------

/// A degraded cycle keeps the snapshot: the version, the sessions, the
/// account observations and the focus are those of before, and the hub is
/// marked degraded.
pub proof fn lemma_degraded_cycle_is_inert(h: HubView)
    ensures
        degraded_step(h).version == h.version,
        degraded_step(h).display_sessions == h.display_sessions,
        degraded_step(h).runtime_sessions == h.runtime_sessions,
        degraded_step(h).account_observations == h.account_observations,
        degraded_step(h).focus == h.focus,
        degraded_step(h).focus_project_path == h.focus_project_path,
        degraded_step(h).degraded,
{
}

/// The blackout cursor moves once per edge: going blind moves it once, a
/// further blind cycle does not move it, and the next healthy commit moves
/// it once more and clears the mark. A blackout that begins and ends between
/// two answers therefore leaves the cursor two ahead.
pub proof fn lemma_blackout_edges_move_the_cursor_once_each(
    h: HubView,
    display: Seq<DisplaySession>,
    runtime: Seq<RuntimeSession>,
    observations: Seq<LiveAccountObservation>,
    focus: Option<TmuxFocus>,
    project: Option<String>,
)
    requires
        !h.degraded,
        h.degraded_revision + 2 <= u64::MAX,
    ensures
        degraded_step(h).degraded_revision == h.degraded_revision + 1,
        degraded_step(degraded_step(h)) == degraded_step(h),
        healthy_step(degraded_step(h), display, runtime, observations, focus, project).degraded_revision
            == h.degraded_revision + 2,
        !healthy_step(degraded_step(h), display, runtime, observations, focus, project).degraded,
        healthy_step(h, display, runtime, observations, focus, project).degraded_revision
            == h.degraded_revision,
{
}

/// The version never goes back, and a healthy cycle moves it exactly when
/// the cycle is a change (short of the counter's top).
pub proof fn lemma_version_moves_exactly_on_change(
    h: HubView,
    display: Seq<DisplaySession>,
    runtime: Seq<RuntimeSession>,
    observations: Seq<LiveAccountObservation>,
    focus: Option<TmuxFocus>,
    project: Option<String>,
)
    requires
        h.version < u64::MAX,
    ensures
        healthy_step(h, display, runtime, observations, focus, project).version >= h.version,
        degraded_step(h).version == h.version,
        (healthy_step(h, display, runtime, observations, focus, project).version > h.version)
            == cycle_changes(h, display, focus, project),
{
}

/// Committing again exactly what the hub already holds is no change.
pub proof fn lemma_same_cycle_is_no_change(h: HubView)
    requires
        h.initialized,
    ensures
        !cycle_changes(h, h.display_sessions, h.focus, h.focus_project_path),
{
}

/// The first healthy commit is always a change and always exports.
pub proof fn lemma_first_commit_changes_and_exports(
    display: Seq<DisplaySession>,
    focus: Option<TmuxFocus>,
    project: Option<String>,
    last_export_at: Option<u64>,
    now: u64,
)
    ensures
        cycle_changes(initial_hub(), display, focus, project),
        export_due(activity_moved(initial_hub(), display), last_export_at, now),
{
}

/// The change signature ignores what flips per poll: two session lists
/// whose sessions agree on every signature field are not an activity change,
/// whatever their `recent_io`, output age or workflow write times.
pub proof fn lemma_signature_ignores_per_poll_fields(
    prev: Seq<DisplaySession>,
    next: Seq<DisplaySession>,
)
    requires
        prev.len() == next.len(),
        forall|i: int| 0 <= i < prev.len() ==> session_sig(#[trigger] prev[i]) == session_sig(next[i]),
    ensures
        !activity_differs(prev, next),
{
    assert(sigs(prev) =~= sigs(next));
}

/// A focus-only move is a change but not an export: with the activity
/// signature unchanged and the last export inside the refresh period, no
/// export is due, while a moved focus still moves the version.
pub proof fn lemma_focus_move_is_not_activity(
    h: HubView,
    focus: Option<TmuxFocus>,
    project: Option<String>,
    last: u64,
    now: u64,
)
    requires
        h.initialized,
        last <= now,
        now - last < ACTIVITY_EXPORT_REFRESH_INTERVAL_MS,
        focus_sig(h.focus, h.focus_project_path) != focus_sig(focus, project),
    ensures
        cycle_changes(h, h.display_sessions, focus, project),
        !export_due(activity_moved(h, h.display_sessions), Some(last), now),
{
}

/// Any change, any focused client or any active session snaps the cadence
/// back to the fast interval and restarts the idle streak.
pub proof fn lemma_cadence_snaps_back(
    streak: u32,
    changed: bool,
    sessions: Seq<DisplaySession>,
    focused: bool,
)
    requires
        changed || focused || !all_idle(sessions),
    ensures
        next_streak(streak, changed, sessions, focused) == 0,
        interval_for_streak(next_streak(streak, changed, sessions, focused)) == ACTIVE_SCAN_INTERVAL_MS,
{
}

/// The idle streak after `n` quiet cycles from a fresh cadence.
pub open spec fn streak_after_quiet_cycles(n: nat) -> u32
    decreases n,
{
    if n == 0 {
        0
    } else {
        next_streak(streak_after_quiet_cycles((n - 1) as nat), false, Seq::empty(), false)
    }
}

/// Quiet cycles (nothing changed, nobody looking, every session idle) widen
/// the cadence exactly from the threshold-th cycle on.
pub proof fn lemma_cadence_widens_at_threshold(n: nat)
    requires
        n <= u32::MAX,
    ensures
        streak_after_quiet_cycles(n) == n,
        (interval_for_streak(streak_after_quiet_cycles(n)) == IDLE_SCAN_INTERVAL_MS) == (n
            >= IDLE_STABLE_CYCLES_THRESHOLD),
    decreases n,
{
    if n > 0 {
        lemma_cadence_widens_at_threshold((n - 1) as nat);
        assert(all_idle(Seq::<DisplaySession>::empty()));
    }
}

/// No two observations share a project and tool.
pub open spec fn keys_distinct(obs: Seq<LiveAccountObservation>) -> bool {
    forall|i: int, j: int| 0 <= i < j < obs.len() ==> obs_key(#[trigger] obs[i]) != obs_key(#[trigger] obs[j])
}

/// Some observation of `obs` is under `key`.
pub open spec fn has_key(obs: Seq<LiveAccountObservation>, key: (Seq<char>, CliTool)) -> bool {
    exists|j: int| 0 <= j < obs.len() && obs_key(#[trigger] obs[j]) == key
}

/// `obs[j]` is the last observation of `obs` under its key.
pub open spec fn last_of_key(obs: Seq<LiveAccountObservation>, j: int) -> bool {
    forall|k: int| j < k < obs.len() ==> obs_key(#[trigger] obs[k]) != obs_key(obs[j])
}

proof fn lemma_distinct_prefix(obs: Seq<LiveAccountObservation>)
    requires
        obs.len() > 0,
        keys_distinct(obs),
    ensures
        keys_distinct(obs.drop_last()),
        forall|y: LiveAccountObservation| obs.drop_last().contains(y) ==> obs_key(y) != obs_key(obs.last()),
{
    let d = obs.drop_last();
    assert forall|i: int, j: int| 0 <= i < j < d.len() implies obs_key(#[trigger] d[i]) != obs_key(#[trigger] d[j]) by {
        assert(d[i] == obs[i] && d[j] == obs[j]);
    }
    assert forall|y: LiveAccountObservation| d.contains(y) implies obs_key(y) != obs_key(obs.last()) by {
        let i = choose|i: int| 0 <= i < d.len() && d[i] == y;
        assert(obs[i] == y);
        assert(obs_key(obs[i]) != obs_key(obs[obs.len() - 1]));
    }
}

proof fn lemma_push_distinct(rest: Seq<LiveAccountObservation>, x: LiveAccountObservation)
    requires
        keys_distinct(rest),
        forall|y: LiveAccountObservation| rest.contains(y) ==> obs_key(y) != obs_key(x),
    ensures
        keys_distinct(rest.push(x)),
{
    let r = rest.push(x);
    assert forall|i: int, j: int| 0 <= i < j < r.len() implies obs_key(#[trigger] r[i]) != obs_key(#[trigger] r[j]) by {
        if j == rest.len() {
            assert(r[i] == rest[i]);
            assert(rest.contains(rest[i]));
        } else {
            assert(r[i] == rest[i] && r[j] == rest[j]);
        }
    }
}

proof fn lemma_contains_last(obs: Seq<LiveAccountObservation>)
    requires
        obs.len() > 0,
    ensures
        forall|x: LiveAccountObservation| obs.contains(x) <==> (obs.drop_last().contains(x) || x == obs.last()),
{
    let d = obs.drop_last();
    assert forall|x: LiveAccountObservation| obs.contains(x) implies (d.contains(x) || x == obs.last()) by {
        let i = choose|i: int| 0 <= i < obs.len() && obs[i] == x;
        if i < d.len() {
            assert(d[i] == x);
        }
    }
    assert forall|x: LiveAccountObservation| d.contains(x) implies obs.contains(x) by {
        let i = choose|i: int| 0 <= i < d.len() && d[i] == x;
        assert(obs[i] == x);
    }
    assert(obs[obs.len() - 1] == obs.last());
}

proof fn lemma_contains_push(rest: Seq<LiveAccountObservation>, x: LiveAccountObservation)
    ensures
        forall|y: LiveAccountObservation| rest.push(x).contains(y) <==> (rest.contains(y) || y == x),
{
    let r = rest.push(x);
    lemma_contains_last(r);
    assert(r.drop_last() =~= rest);
}

/// What `drop_key` keeps, and that it keeps keys distinct.
proof fn lemma_drop_key(obs: Seq<LiveAccountObservation>, key: (Seq<char>, CliTool))
    ensures
        forall|x: LiveAccountObservation| drop_key(obs, key).contains(x) <==> (obs.contains(x) && obs_key(x) != key),
        keys_distinct(obs) ==> keys_distinct(drop_key(obs, key)),
    decreases obs.len(),
{
    if obs.len() > 0 {
        let d = obs.drop_last();
        lemma_drop_key(d, key);
        lemma_contains_last(obs);
        let rest = drop_key(d, key);
        lemma_contains_push(rest, obs.last());
        if keys_distinct(obs) {
            lemma_distinct_prefix(obs);
            if obs_key(obs.last()) != key {
                lemma_push_distinct(rest, obs.last());
            }
        }
    }
}

/// What `keep_live` keeps, and that it keeps keys distinct.
proof fn lemma_keep_live(obs: Seq<LiveAccountObservation>, runtime: Seq<RuntimeSession>)
    ensures
        forall|x: LiveAccountObservation| keep_live(obs, runtime).contains(x) <==> (obs.contains(x) && is_live(x, runtime)),
        keys_distinct(obs) ==> keys_distinct(keep_live(obs, runtime)),
    decreases obs.len(),
{
    if obs.len() > 0 {
        let d = obs.drop_last();
        lemma_keep_live(d, runtime);
        lemma_contains_last(obs);
        let rest = keep_live(d, runtime);
        lemma_contains_push(rest, obs.last());
        if keys_distinct(obs) {
            lemma_distinct_prefix(obs);
            if is_live(obs.last(), runtime) {
                assert forall|y: LiveAccountObservation| rest.contains(y) implies obs_key(y) != obs_key(obs.last()) by {
                    assert(d.contains(y));
                }
                lemma_push_distinct(rest, obs.last());
            }
        }
    }
}

/// What a merge holds: a kept observation whose key no incoming one has, or
/// an incoming observation that is the last under its key; keys stay
/// distinct.
proof fn lemma_merge(kept: Seq<LiveAccountObservation>, incoming: Seq<LiveAccountObservation>)
    requires
        keys_distinct(kept),
    ensures
        keys_distinct(merge_observations(kept, incoming)),
        forall|x: LiveAccountObservation| #[trigger] merge_observations(kept, incoming).contains(x) <==> ((kept.contains(x)
            && !has_key(incoming, obs_key(x))) || exists|j: int|
            0 <= j < incoming.len() && incoming[j] == x && #[trigger] last_of_key(incoming, j)),
    decreases incoming.len(),
{
    if incoming.len() > 0 {
        let x0 = incoming[0];
        let tail = incoming.drop_first();
        let dropped = drop_key(kept, obs_key(x0));
        let next = dropped.push(x0);
        lemma_drop_key(kept, obs_key(x0));
        lemma_push_distinct(dropped, x0);
        lemma_contains_push(dropped, x0);
        lemma_merge(next, tail);
        assert(merge_observations(kept, incoming) == merge_observations(next, tail));
        assert forall|x: LiveAccountObservation| #[trigger] merge_observations(kept, incoming).contains(x) <==> ((kept.contains(x)
            && !has_key(incoming, obs_key(x))) || exists|j: int|
            0 <= j < incoming.len() && incoming[j] == x && #[trigger] last_of_key(incoming, j)) by {
            let m = merge_observations(kept, incoming);
            // keys: incoming = [x0] + tail
            assert(has_key(incoming, obs_key(x)) <==> (obs_key(x0) == obs_key(x) || has_key(tail, obs_key(x)))) by {
                if has_key(incoming, obs_key(x)) {
                    let j = choose|j: int| 0 <= j < incoming.len() && obs_key(#[trigger] incoming[j]) == obs_key(x);
                    if j > 0 {
                        assert(tail[j - 1] == incoming[j]);
                    }
                }
                if has_key(tail, obs_key(x)) {
                    let j = choose|j: int| 0 <= j < tail.len() && obs_key(#[trigger] tail[j]) == obs_key(x);
                    assert(incoming[j + 1] == tail[j]);
                }
                assert(incoming[0] == x0);
            }
            if m.contains(x) {
                if next.contains(x) && !has_key(tail, obs_key(x)) {
                    if x == x0 {
                        assert forall|k: int| 0 < k < incoming.len() implies obs_key(#[trigger] incoming[k]) != obs_key(incoming[0]) by {
                            assert(tail[k - 1] == incoming[k]);
                        }
                        assert(last_of_key(incoming, 0));
                    } else {
                        assert(kept.contains(x) && obs_key(x) != obs_key(x0));
                    }
                } else {
                    let j = choose|j: int| 0 <= j < tail.len() && tail[j] == x && #[trigger] last_of_key(tail, j);
                    assert(incoming[j + 1] == x);
                    assert forall|k: int| j + 1 < k < incoming.len() implies obs_key(#[trigger] incoming[k]) != obs_key(incoming[j + 1]) by {
                        assert(tail[k - 1] == incoming[k]);
                    }
                    assert(last_of_key(incoming, j + 1));
                }
            } else {
                if kept.contains(x) && !has_key(incoming, obs_key(x)) {
                    assert(next.contains(x));
                }
                if exists|j: int| 0 <= j < incoming.len() && incoming[j] == x && #[trigger] last_of_key(incoming, j) {
                    let j = choose|j: int| 0 <= j < incoming.len() && incoming[j] == x && #[trigger] last_of_key(incoming, j);
                    if j == 0 {
                        assert forall|k: int| 0 <= k < tail.len() implies obs_key(#[trigger] tail[k]) != obs_key(x) by {
                            assert(tail[k] == incoming[k + 1]);
                        }
                        assert(next.contains(x));
                    } else {
                        assert(tail[j - 1] == x);
                        assert forall|k: int| j - 1 < k < tail.len() implies obs_key(#[trigger] tail[k]) != obs_key(tail[j - 1]) by {
                            assert(tail[k] == incoming[k + 1]);
                        }
                        assert(last_of_key(tail, j - 1));
                    }
                }
            }
        }
    }
}

/// Account observations keep distinct keys, and the last observation under
/// a key wins: after a healthy cycle the hub holds, once per project and
/// tool, the cycle's last observation for it, and otherwise an observation
/// it held before whose session is still live and that the cycle did not
/// observe again.
pub proof fn lemma_observations_keep_distinct_keys_and_last_wins(
    h: HubView,
    display: Seq<DisplaySession>,
    runtime: Seq<RuntimeSession>,
    observations: Seq<LiveAccountObservation>,
    focus: Option<TmuxFocus>,
    project: Option<String>,
)
    requires
        keys_distinct(h.account_observations),
    ensures
        keys_distinct(healthy_step(h, display, runtime, observations, focus, project).account_observations),
        forall|x: LiveAccountObservation|
            #[trigger] healthy_step(h, display, runtime, observations, focus, project).account_observations.contains(x)
                <==> ((h.account_observations.contains(x) && is_live(x, runtime) && !has_key(observations, obs_key(x)))
                || exists|j: int| 0 <= j < observations.len() && observations[j] == x && #[trigger] last_of_key(observations, j)),
{
    lemma_keep_live(h.account_observations, runtime);
    lemma_merge(keep_live(h.account_observations, runtime), observations);
}

/// A signature list ordered by pid.
pub open spec fn pid_sorted(s: Seq<SessionSigView>) -> bool {
    forall|i: int, j: int| 0 <= i < j < s.len() ==> (#[trigger] s[i]).pid <= (#[trigger] s[j]).pid
}

/// No two signatures of the list share a pid.
pub open spec fn sig_pids_distinct(s: Seq<SessionSigView>) -> bool {
    forall|i: int, j: int| 0 <= i < j < s.len() ==> (#[trigger] s[i]).pid != (#[trigger] s[j]).pid
}

/// No two sessions of the list share a pid.
pub open spec fn session_pids_distinct(s: Seq<DisplaySession>) -> bool {
    forall|i: int, j: int| 0 <= i < j < s.len() ==> (#[trigger] s[i]).pid != (#[trigger] s[j]).pid
}

proof fn lemma_insert_by_pid_keeps(s: Seq<SessionSigView>, x: SessionSigView)
    ensures
        forall|y: SessionSigView| insert_by_pid(s, x).contains(y) <==> (s.contains(y) || y == x),
        pid_sorted(s) ==> pid_sorted(insert_by_pid(s, x)),
        sig_pids_distinct(s) && (forall|y: SessionSigView| s.contains(y) ==> y.pid != x.pid) ==> sig_pids_distinct(
            insert_by_pid(s, x),
        ),
    decreases s.len(),
{
    let r = insert_by_pid(s, x);
    if s.len() == 0 {
        assert(r =~= seq![x]);
        assert forall|y: SessionSigView| r.contains(y) <==> (s.contains(y) || y == x) by {
            if r.contains(y) {
                let i = choose|i: int| 0 <= i < r.len() && r[i] == y;
            }
            if y == x {
                assert(r[0] == x);
            }
        }
    } else if x.pid < s[0].pid {
        assert(r =~= seq![x] + s);
        assert forall|y: SessionSigView| r.contains(y) <==> (s.contains(y) || y == x) by {
            if r.contains(y) {
                let i = choose|i: int| 0 <= i < r.len() && r[i] == y;
                if i > 0 {
                    assert(s[i - 1] == y);
                }
            }
            if s.contains(y) {
                let i = choose|i: int| 0 <= i < s.len() && s[i] == y;
                assert(r[i + 1] == y);
            }
            if y == x {
                assert(r[0] == x);
            }
        }
        if pid_sorted(s) {
            assert forall|i: int, j: int| 0 <= i < j < r.len() implies (#[trigger] r[i]).pid <= (#[trigger] r[j]).pid by {
                assert(r[j] == s[j - 1]);
                if i > 0 {
                    assert(r[i] == s[i - 1]);
                } else {
                    assert(s[0].pid <= s[j - 1].pid);
                }
            }
        }
        if sig_pids_distinct(s) && (forall|y: SessionSigView| s.contains(y) ==> y.pid != x.pid) {
            assert forall|i: int, j: int| 0 <= i < j < r.len() implies (#[trigger] r[i]).pid != (#[trigger] r[j]).pid by {
                assert(r[j] == s[j - 1]);
                assert(s.contains(s[j - 1]));
                if i > 0 {
                    assert(r[i] == s[i - 1]);
                }
            }
        }
    } else {
        let t = s.drop_first();
        let rt = insert_by_pid(t, x);
        lemma_insert_by_pid_keeps(t, x);
        assert(r =~= seq![s[0]] + rt);
        assert forall|y: SessionSigView| s.contains(y) <==> (y == s[0] || t.contains(y)) by {
            if s.contains(y) {
                let i = choose|i: int| 0 <= i < s.len() && s[i] == y;
                if i > 0 {
                    assert(t[i - 1] == y);
                }
            }
            if t.contains(y) {
                let i = choose|i: int| 0 <= i < t.len() && t[i] == y;
                assert(s[i + 1] == y);
            }
            assert(s[0] == s[0]);
        }
        assert forall|y: SessionSigView| r.contains(y) <==> (y == s[0] || rt.contains(y)) by {
            if r.contains(y) {
                let i = choose|i: int| 0 <= i < r.len() && r[i] == y;
                if i > 0 {
                    assert(rt[i - 1] == y);
                }
            }
            if rt.contains(y) {
                let i = choose|i: int| 0 <= i < rt.len() && rt[i] == y;
                assert(r[i + 1] == y);
            }
            assert(r[0] == s[0]);
        }
        if pid_sorted(s) {
            assert(pid_sorted(t)) by {
                assert forall|i: int, j: int| 0 <= i < j < t.len() implies (#[trigger] t[i]).pid <= (#[trigger] t[j]).pid by {
                    assert(t[i] == s[i + 1] && t[j] == s[j + 1]);
                }
            }
            assert forall|i: int, j: int| 0 <= i < j < r.len() implies (#[trigger] r[i]).pid <= (#[trigger] r[j]).pid by {
                assert(r[j] == rt[j - 1]);
                assert(rt.contains(rt[j - 1]));
                if i > 0 {
                    assert(r[i] == rt[i - 1]);
                } else {
                    if t.contains(rt[j - 1]) {
                        let k = choose|k: int| 0 <= k < t.len() && t[k] == rt[j - 1];
                        assert(s[k + 1] == t[k]);
                        assert(s[0].pid <= s[k + 1].pid);
                    }
                }
            }
        }
        if sig_pids_distinct(s) && (forall|y: SessionSigView| s.contains(y) ==> y.pid != x.pid) {
            assert(sig_pids_distinct(t)) by {
                assert forall|i: int, j: int| 0 <= i < j < t.len() implies (#[trigger] t[i]).pid != (#[trigger] t[j]).pid by {
                    assert(t[i] == s[i + 1] && t[j] == s[j + 1]);
                }
            }
            assert(s.contains(s[0]));
            assert forall|i: int, j: int| 0 <= i < j < r.len() implies (#[trigger] r[i]).pid != (#[trigger] r[j]).pid by {
                assert(r[j] == rt[j - 1]);
                assert(rt.contains(rt[j - 1]));
                if i > 0 {
                    assert(r[i] == rt[i - 1]);
                } else {
                    if t.contains(rt[j - 1]) {
                        let k = choose|k: int| 0 <= k < t.len() && t[k] == rt[j - 1];
                        assert(s[k + 1] == t[k]);
                    }
                }
            }
        }
    }
}

proof fn lemma_sort_by_pid_keeps(s: Seq<SessionSigView>)
    ensures
        forall|y: SessionSigView| sort_by_pid(s).contains(y) <==> s.contains(y),
        pid_sorted(sort_by_pid(s)),
        sig_pids_distinct(s) ==> sig_pids_distinct(sort_by_pid(s)),
    decreases s.len(),
{
    if s.len() > 0 {
        let d = s.drop_last();
        lemma_sort_by_pid_keeps(d);
        lemma_insert_by_pid_keeps(sort_by_pid(d), s.last());
        assert forall|y: SessionSigView| s.contains(y) <==> (d.contains(y) || y == s.last()) by {
            if s.contains(y) {
                let i = choose|i: int| 0 <= i < s.len() && s[i] == y;
                if i < d.len() {
                    assert(d[i] == y);
                }
            }
            if d.contains(y) {
                let i = choose|i: int| 0 <= i < d.len() && d[i] == y;
                assert(s[i] == y);
            }
            assert(s[s.len() - 1] == s.last());
        }
        if sig_pids_distinct(s) {
            assert(sig_pids_distinct(d)) by {
                assert forall|i: int, j: int| 0 <= i < j < d.len() implies (#[trigger] d[i]).pid != (#[trigger] d[j]).pid by {
                    assert(d[i] == s[i] && d[j] == s[j]);
                }
            }
            assert forall|y: SessionSigView| sort_by_pid(d).contains(y) implies y.pid != s.last().pid by {
                assert(d.contains(y));
                let i = choose|i: int| 0 <= i < d.len() && d[i] == y;
                assert(s[i] == y);
                assert(s[i].pid != s[s.len() - 1].pid);
            }
        }
    }
}

proof fn lemma_sorted_lists_with_same_members_are_equal(a: Seq<SessionSigView>, b: Seq<SessionSigView>)
    requires
        pid_sorted(a),
        pid_sorted(b),
        sig_pids_distinct(a),
        sig_pids_distinct(b),
        forall|y: SessionSigView| a.contains(y) <==> b.contains(y),
    ensures
        a == b,
    decreases a.len(),
{
    if a.len() == 0 {
        if b.len() > 0 {
            assert(b.contains(b[0]));
        }
        assert(a =~= b);
    } else {
        assert(a.contains(a[0]));
        let k = choose|k: int| 0 <= k < b.len() && b[k] == a[0];
        assert(b.contains(b[0]));
        let m = choose|m: int| 0 <= m < a.len() && a[m] == b[0];
        assert(a[0].pid <= a[m].pid);
        assert(b[0].pid <= b[k].pid);
        assert(k == 0);
        let ta = a.drop_first();
        let tb = b.drop_first();
        assert(pid_sorted(ta) && sig_pids_distinct(ta)) by {
            assert forall|i: int, j: int| 0 <= i < j < ta.len() implies (#[trigger] ta[i]).pid <= (#[trigger] ta[j]).pid
                && ta[i].pid != ta[j].pid by {
                assert(ta[i] == a[i + 1] && ta[j] == a[j + 1]);
            }
        }
        assert(pid_sorted(tb) && sig_pids_distinct(tb)) by {
            assert forall|i: int, j: int| 0 <= i < j < tb.len() implies (#[trigger] tb[i]).pid <= (#[trigger] tb[j]).pid
                && tb[i].pid != tb[j].pid by {
                assert(tb[i] == b[i + 1] && tb[j] == b[j + 1]);
            }
        }
        assert forall|y: SessionSigView| ta.contains(y) implies tb.contains(y) by {
            let i = choose|i: int| 0 <= i < ta.len() && ta[i] == y;
            assert(a[i + 1] == y);
            assert(a.contains(y));
            let n = choose|n: int| 0 <= n < b.len() && b[n] == y;
            assert(a[0].pid != a[i + 1].pid);
            assert(n != 0);
            assert(tb[n - 1] == y);
        }
        assert forall|y: SessionSigView| tb.contains(y) implies ta.contains(y) by {
            let i = choose|i: int| 0 <= i < tb.len() && tb[i] == y;
            assert(b[i + 1] == y);
            assert(b.contains(y));
            let n = choose|n: int| 0 <= n < a.len() && a[n] == y;
            assert(b[0].pid != b[i + 1].pid);
            assert(n != 0);
            assert(ta[n - 1] == y);
        }
        lemma_sorted_lists_with_same_members_are_equal(ta, tb);
        assert(a =~= seq![a[0]] + ta);
        assert(b =~= seq![b[0]] + tb);
    }
}

/// Inserting by pid adds exactly the inserted signature.
proof fn lemma_insert_by_pid_multiset(s: Seq<SessionSigView>, x: SessionSigView)
    ensures
        insert_by_pid(s, x).to_multiset() =~= s.to_multiset().insert(x),
    decreases s.len(),
{
    broadcast use vstd::seq_lib::group_to_multiset_ensures;
    broadcast use vstd::multiset::group_multiset_axioms;

    if s.len() == 0 {
        assert(seq![x] =~= s.push(x));
    } else if x.pid < s[0].pid {
        assert(seq![x] + s =~= s.insert(0, x));
    } else {
        let t = s.drop_first();
        let r = insert_by_pid(t, x);
        lemma_insert_by_pid_multiset(t, x);
        assert(seq![s[0]] + r =~= r.insert(0, s[0]));
        assert(s =~= t.insert(0, s[0]));
    }
}

/// Sorting by pid keeps every signature as often as it occurs.
proof fn lemma_sort_by_pid_multiset(s: Seq<SessionSigView>)
    ensures
        sort_by_pid(s).to_multiset() =~= s.to_multiset(),
    decreases s.len(),
{
    broadcast use vstd::seq_lib::group_to_multiset_ensures;

    if s.len() > 0 {
        let d = s.drop_last();
        lemma_sort_by_pid_multiset(d);
        lemma_insert_by_pid_multiset(sort_by_pid(d), s.last());
        assert(s =~= d.push(s.last()));
    }
}

/// The number of live workflow runs a session shows, if it shows any.
pub open spec fn live_runs_shown(d: DisplaySession) -> Option<u32> {
    match d.workflow_activity {
        Some(a) => Some(a.live_runs),
        None => None,
    }
}

/// Two sessions differ in something the app presents of them: the process,
/// its project, terminal, tool, tmux session, window, pane or window name,
/// its state, activity confidence or attribution, the unattributed-activity
/// flag, or the live workflow runs.
pub open spec fn presented_differ(a: DisplaySession, b: DisplaySession) -> bool {
    ||| a.pid != b.pid
    ||| a.project_path@ != b.project_path@
    ||| a.tty@ != b.tty@
    ||| a.cli_tool != b.cli_tool
    ||| opt_view(a.tmux_session) != opt_view(b.tmux_session)
    ||| opt_view(a.tmux_window) != opt_view(b.tmux_window)
    ||| opt_view(a.tmux_pane) != opt_view(b.tmux_pane)
    ||| opt_view(a.tmux_window_name) != opt_view(b.tmux_window_name)
    ||| a.state != b.state
    ||| a.activity_confidence != b.activity_confidence
    ||| a.activity_attribution != b.activity_attribution
    ||| a.project_unattributed_active != b.project_unattributed_active
    ||| live_runs_shown(a) != live_runs_shown(b)
}

/// The change signature tells apart any two sessions that differ in what
/// the app presents of them.
pub proof fn lemma_signature_sees_every_presented_field(a: DisplaySession, b: DisplaySession)
    ensures
        presented_differ(a, b) ==> session_sig(a) != session_sig(b),
{
}

/// A change in anything one session presents (its state, confidence,
/// attribution, live-run count, tmux window name, pane, and the rest) is an
/// activity change, whatever else stays the same.
pub proof fn lemma_state_change_is_activity(prev: Seq<DisplaySession>, next: Seq<DisplaySession>, i: int)
    requires
        prev.len() == next.len(),
        0 <= i < prev.len(),
        forall|k: int| 0 <= k < prev.len() && k != i ==> next[k] == prev[k],
        presented_differ(next[i], prev[i]),
    ensures
        activity_differs(prev, next),
{
    lemma_signature_sees_every_presented_field(next[i], prev[i]);
    broadcast use vstd::seq_lib::group_to_multiset_ensures;
    broadcast use vstd::multiset::group_multiset_axioms;

    let sp = sigs(prev);
    let sn = sigs(next);
    let target = session_sig(prev[i]);
    let changed = session_sig(next[i]);
    assert(sp[i] == target);
    assert(sn =~= sp.update(i, changed));
    lemma_sort_by_pid_multiset(sp);
    lemma_sort_by_pid_multiset(sn);
    assert(sn.to_multiset() == sp.to_multiset().insert(changed).remove(target));
    assert(sp.contains(target));
    assert(sp.to_multiset().count(target) > 0);
    assert(changed != target);
    assert(sn.to_multiset().count(target) == sp.to_multiset().count(target) - 1);
    if sort_by_pid(sp) == sort_by_pid(sn) {
        assert(sp.to_multiset() == sn.to_multiset());
    }
}

/// Reordering sessions that are told apart by pid is no activity change.
pub proof fn lemma_reordering_is_no_activity(prev: Seq<DisplaySession>, next: Seq<DisplaySession>)
    requires
        session_pids_distinct(prev),
        session_pids_distinct(next),
        forall|d: DisplaySession| prev.contains(d) <==> next.contains(d),
    ensures
        !activity_differs(prev, next),
{
    let sp = sigs(prev);
    let sn = sigs(next);
    assert forall|y: SessionSigView| sp.contains(y) implies sn.contains(y) by {
        let k = choose|k: int| 0 <= k < sp.len() && sp[k] == y;
        assert(prev.contains(prev[k]));
        let m = choose|m: int| 0 <= m < next.len() && next[m] == prev[k];
        assert(sn[m] == y);
    }
    assert forall|y: SessionSigView| sn.contains(y) implies sp.contains(y) by {
        let k = choose|k: int| 0 <= k < sn.len() && sn[k] == y;
        assert(next.contains(next[k]));
        let m = choose|m: int| 0 <= m < prev.len() && prev[m] == next[k];
        assert(sp[m] == y);
    }
    assert(sig_pids_distinct(sp)) by {
        assert forall|i: int, j: int| 0 <= i < j < sp.len() implies (#[trigger] sp[i]).pid != (#[trigger] sp[j]).pid by {
            assert(sp[i].pid == prev[i].pid && sp[j].pid == prev[j].pid);
        }
    }
    assert(sig_pids_distinct(sn)) by {
        assert forall|i: int, j: int| 0 <= i < j < sn.len() implies (#[trigger] sn[i]).pid != (#[trigger] sn[j]).pid by {
            assert(sn[i].pid == next[i].pid && sn[j].pid == next[j].pid);
        }
    }
    lemma_sort_by_pid_keeps(sp);
    lemma_sort_by_pid_keeps(sn);
    assert forall|y: SessionSigView| sort_by_pid(sp).contains(y) <==> sort_by_pid(sn).contains(y) by {
        assert(sort_by_pid(sp).contains(y) <==> sp.contains(y));
        assert(sort_by_pid(sn).contains(y) <==> sn.contains(y));
    }
    lemma_sorted_lists_with_same_members_are_equal(sort_by_pid(sp), sort_by_pid(sn));
}

} // verus!
