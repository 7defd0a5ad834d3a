//! Account usage: the arguments of the usage-sink subcommand, what an
//! append reports, and which recorded usage each account is shown.

use vstd::prelude::*;
use crate::by_time::order_by_time;
use crate::text::{str_eq, trim_string, trimmed};

verus! {

/// A value trimmed, kept only when something is left.
pub open spec fn non_empty_of(value: Option<Seq<char>>) -> Option<Seq<char>> {
    match value {
        Some(v) => if trimmed(v).len() > 0 {
            Some(trimmed(v))
        } else {
            None
        },
        None => None,
    }
}

/// A value trimmed, kept only when something is left.
pub fn non_empty(value: Option<String>) -> (r: Option<String>)
    ensures
        match r {
            Some(s) => non_empty_of(match value { Some(v) => Some(v@), None => None }) == Some(s@),
            None => non_empty_of(match value { Some(v) => Some(v@), None => None }) is None,
        },
{
    match value {
        Some(v) => {
            let t = trim_string(v.as_str());
            if t.unicode_len() > 0 {
                Some(t)
            } else {
                None
            }
        },
        None => None,
    }
}

/// The string at `object[outer][inner]` of the JSON text `raw`, as
/// `serde_json::from_str::<Value>`, two `Value::get` and `Value::as_str`
/// find it: nothing when the text is not JSON or either key is missing or
/// the value is not a string.
pub uninterp spec fn json_nested_text(raw: Seq<char>, outer: Seq<char>, inner: Seq<char>) -> Option<Seq<char>>;

/// Parses `raw` with `serde_json::from_str` and reads `[outer][inner]` as a
/// string. The result is the name `json_nested_text` of the three texts:
/// serde_json's grammar is not restated.
#[verifier::external_body]
fn json_text_at(raw: &str, outer: &str, inner: &str) -> (r: Option<String>)
    ensures
        match r {
            Some(s) => json_nested_text(raw@, outer@, inner@) == Some(s@),
            None => json_nested_text(raw@, outer@, inner@) is None,
        },
{
    let value: serde_json::Value = serde_json::from_str(raw).ok()?;
    value.get(outer)?.get(inner)?.as_str().map(|text| text.to_string())
}

/// The account id a config dir's account file names, read the way account
/// detection reads it: `oauthAccount.accountUuid`, trimmed, when something
/// is left.
pub fn account_id_from_account_json(raw: &str) -> (r: Option<String>)
    ensures
        match r {
            Some(s) => non_empty_of(json_nested_text(raw@, "oauthAccount"@, "accountUuid"@)) == Some(s@),
            None => non_empty_of(json_nested_text(raw@, "oauthAccount"@, "accountUuid"@)) is None,
        },
{
    non_empty(json_text_at(raw, "oauthAccount", "accountUuid"))
}

/// What one append to the usage sink did.
#[derive(Debug, Clone, Copy, PartialEq, Eq, Structural)]
pub struct ClaudeUsageAppendOutcome {
    pub written: bool,
    /// An earlier record of the same account is younger than the window.
    pub throttled: bool,
    pub truncated: bool,
    /// Another refresh held the sink: nothing was written, nothing waited.
    pub contended: bool,
}

impl Default for ClaudeUsageAppendOutcome {
    /// Nothing happened.
    fn default() -> (r: Self)
        ensures
            !r.written && !r.throttled && !r.truncated && !r.contended,
    {
        ClaudeUsageAppendOutcome { written: false, throttled: false, truncated: false, contended: false }
    }
}

/// What the usage-sink subcommand was told to do.
#[derive(Debug, Clone, PartialEq, Eq)]
pub struct UsageSinkArgs {
    pub config_dir: String,
    /// Where to append; absent only for a script written before the installer
    /// baked it in.
    pub sink: Option<String>,
    /// Render the status line as well.
    pub render: bool,
}

/// The arguments as text.
pub open spec fn arg_views(args: Seq<String>) -> Seq<Seq<char>> {
    args.map_values(|s: String| s@)
}

/// The arguments from position `i` on, read over what was read before it:
/// the config dir, the sink and the render flag, or the first refusal.
pub open spec fn scan_sink_args(
    args: Seq<Seq<char>>,
    i: int,
    config_dir: Option<Seq<char>>,
    sink: Option<Seq<char>>,
    render: bool,
) -> Result<(Option<Seq<char>>, Option<Seq<char>>, bool), Seq<char>>
    decreases args.len() - i,
{
    if i < 0 || i >= args.len() {
        Ok((config_dir, sink, render))
    } else if args[i] == "--config-dir"@ {
        if i + 1 < args.len() {
            scan_sink_args(args, i + 2, Some(args[i + 1]), sink, render)
        } else {
            Err("--config-dir needs a directory"@)
        }
    } else if args[i] == "--sink"@ {
        if i + 1 < args.len() {
            scan_sink_args(args, i + 2, config_dir, Some(args[i + 1]), render)
        } else {
            Err("--sink needs a path"@)
        }
    } else if args[i] == "--render"@ {
        scan_sink_args(args, i + 1, config_dir, sink, true)
    } else {
        Err("unknown usage-sink argument '"@ + args[i] + "'"@)
    }
}

/// The subcommand's arguments: `--config-dir <dir>` (required), `--sink
/// <path>` and `--render`, later ones overriding earlier ones.
pub open spec fn sink_args_of(args: Seq<Seq<char>>) -> Result<(Seq<char>, Option<Seq<char>>, bool), Seq<char>> {
    match scan_sink_args(args, 0, None, None, false) {
        Err(e) => Err(e),
        Ok((None, _, _)) => Err("--config-dir is required"@),
        Ok((Some(c), s, r)) => Ok((c, s, r)),
    }
}

/// Read the usage-sink subcommand's arguments.
pub fn parse_usage_sink_args(args: Vec<String>) -> (r: Result<UsageSinkArgs, String>)
    ensures
        match (r, sink_args_of(arg_views(args@))) {
            (Ok(a), Ok((c, s, rd))) => a.config_dir@ == c && (match a.sink { Some(p) => Some(p@), None => None }) == s
                && a.render == rd,
            (Err(e), Err(m)) => e@ == m,
            _ => false,
        },
{
    let ghost v = arg_views(args@);
    let n = args.len();
    let mut config_dir: Option<String> = None;
    let mut sink: Option<String> = None;
    let mut render = false;
    let mut i: usize = 0;
    while i < n
        invariant
            n == args@.len(),
            v == arg_views(args@),
            v.len() == n,
            i <= n,
            scan_sink_args(v, 0, None, None, false) == scan_sink_args(
                v,
                i as int,
                match config_dir { Some(c) => Some(c@), None => None },
                match sink { Some(p) => Some(p@), None => None },
                render,
            ),
        decreases n - i,
    {
        let arg = args[i].as_str();
        assert(v[i as int] == args@[i as int]@);
        if str_eq(arg, "--config-dir") {
            if i + 1 < n {
                assert(v[i + 1] == args@[i + 1]@);
                config_dir = Some(args[i + 1].clone());
                i = i + 2;
            } else {
                return Err(String::from_str("--config-dir needs a directory"));
            }
        } else if str_eq(arg, "--sink") {
            if i + 1 < n {
                assert(v[i + 1] == args@[i + 1]@);
                sink = Some(args[i + 1].clone());
                i = i + 2;
            } else {
                return Err(String::from_str("--sink needs a path"));
            }
        } else if str_eq(arg, "--render") {
            render = true;
            i = i + 1;
        } else {
            let mut message = String::from_str("unknown usage-sink argument '");
            message.append(arg);
            message.append("'");
            return Err(message);
        }
    }
    match config_dir {
        Some(c) => Ok(UsageSinkArgs { config_dir: c, sink, render }),
        None => Err(String::from_str("--config-dir is required")),
    }
}

/// What the read side knows of one usage record: the key of the config dir
/// that reported it, the account id that dir named, and when.
#[derive(Debug, Clone, PartialEq, Eq)]
pub struct UsageRecordKey {
    pub config_dir_key: String,
    pub account_id: Option<String>,
    pub ts_ms: i64,
}

/// An account usage is attached to: its id, the key of its config dir, and
/// the record attached to it, by position among the records.
#[derive(Debug, Clone, PartialEq, Eq)]
pub struct UsageAccount {
    pub id: String,
    pub config_dir_key: String,
    pub usage: Option<usize>,
}

/// Record `i` is the newest one its config dir reported (the first of the
/// newest, when several share a time).
pub open spec fn is_latest_for_key(rs: Seq<UsageRecordKey>, i: int) -> bool {
    &&& 0 <= i < rs.len()
    &&& forall|j: int|
        0 <= j < rs.len() && (#[trigger] rs[j]).config_dir_key@ == rs[i].config_dir_key@ ==> (rs[j].ts_ms < rs[i].ts_ms
            || (rs[j].ts_ms == rs[i].ts_ms && i <= j))
}

/// Record `i` is a newest-per-dir record that names account `id`.
pub open spec fn is_id_candidate(rs: Seq<UsageRecordKey>, i: int, id: Seq<char>) -> bool {
    is_latest_for_key(rs, i) && (rs[i].account_id matches Some(a) && a@ == id)
}

/// The record `usage` attached to an account with this id and config-dir
/// key is the right one: the newest record of its own config dir when its
/// dir reported any; otherwise a newest record, among the newest-per-dir
/// ones naming its account id (the dir moved); otherwise none.
pub open spec fn usage_is_right(rs: Seq<UsageRecordKey>, id: Seq<char>, key: Seq<char>, usage: Option<usize>) -> bool {
    if exists|i: int| 0 <= i < rs.len() && (#[trigger] rs[i]).config_dir_key@ == key {
        usage matches Some(i) && is_latest_for_key(rs, i as int) && rs[i as int].config_dir_key@ == key
    } else if exists|i: int| #[trigger] is_id_candidate(rs, i, id) {
        usage matches Some(i) && is_id_candidate(rs, i as int, id) && forall|m: int|
            #[trigger] is_id_candidate(rs, m, id) ==> rs[m].ts_ms <= rs[i as int].ts_ms
    } else {
        usage is None
    }
}

/// The first of the newest records with config-dir key `key`.
fn latest_for_key(rs: &Vec<UsageRecordKey>, key: &str) -> (r: Option<usize>)
    ensures
        match r {
            Some(i) => is_latest_for_key(rs@, i as int) && rs@[i as int].config_dir_key@ == key@,
            None => !exists|i: int| 0 <= i < rs@.len() && (#[trigger] rs@[i]).config_dir_key@ == key@,
        },
{
    let mut best: Option<usize> = None;
    let mut j: usize = 0;
    while j < rs.len()
        invariant
            j <= rs@.len(),
            match best {
                Some(b) => b < j && rs@[b as int].config_dir_key@ == key@ && forall|k: int|
                    0 <= k < j && (#[trigger] rs@[k]).config_dir_key@ == key@ ==> (rs@[k].ts_ms < rs@[b as int].ts_ms
                        || (rs@[k].ts_ms == rs@[b as int].ts_ms && b <= k)),
                None => forall|k: int| 0 <= k < j ==> (#[trigger] rs@[k]).config_dir_key@ != key@,
            },
        decreases rs@.len() - j,
    {
        if str_eq(rs[j].config_dir_key.as_str(), key) {
            match best {
                None => {
                    best = Some(j);
                },
                Some(b) => {
                    if rs[j].ts_ms > rs[b].ts_ms {
                        best = Some(j);
                    }
                },
            }
        }
        j = j + 1;
    }
    best
}

/// Whether record `i` is the newest of its config dir.
fn latest_of_its_key(rs: &Vec<UsageRecordKey>, i: usize) -> (r: bool)
    requires
        i < rs@.len(),
    ensures
        r == is_latest_for_key(rs@, i as int),
{
    let key = rs[i].config_dir_key.as_str();
    let ts = rs[i].ts_ms;
    let mut j: usize = 0;
    while j < rs.len()
        invariant
            i < rs@.len(),
            key@ == rs@[i as int].config_dir_key@,
            ts == rs@[i as int].ts_ms,
            j <= rs@.len(),
            forall|k: int|
                0 <= k < j && (#[trigger] rs@[k]).config_dir_key@ == key@ ==> (rs@[k].ts_ms < ts || (rs@[k].ts_ms == ts
                    && i <= k)),
        decreases rs@.len() - j,
    {
        if str_eq(rs[j].config_dir_key.as_str(), key) {
            if rs[j].ts_ms > ts || (rs[j].ts_ms == ts && j < i) {
                return false;
            }
        }
        j = j + 1;
    }
    true
}

/// A newest record among the newest-per-dir ones naming account `id`.
fn newest_for_account(rs: &Vec<UsageRecordKey>, id: &str) -> (r: Option<usize>)
    ensures
        match r {
            Some(i) => is_id_candidate(rs@, i as int, id@) && forall|m: int|
                #[trigger] is_id_candidate(rs@, m, id@) ==> rs@[m].ts_ms <= rs@[i as int].ts_ms,
            None => !exists|i: int| #[trigger] is_id_candidate(rs@, i, id@),
        },
{
    let mut best: Option<usize> = None;
    let mut j: usize = 0;
    while j < rs.len()
        invariant
            j <= rs@.len(),
            match best {
                Some(b) => b < j && is_id_candidate(rs@, b as int, id@) && forall|m: int|
                    0 <= m < j && #[trigger] is_id_candidate(rs@, m, id@) ==> rs@[m].ts_ms <= rs@[b as int].ts_ms,
                None => forall|m: int| 0 <= m < j ==> !#[trigger] is_id_candidate(rs@, m, id@),
            },
        decreases rs@.len() - j,
    {
        let names = match &rs[j].account_id {
            Some(a) => str_eq(a.as_str(), id),
            None => false,
        };
        if names && latest_of_its_key(rs, j) {
            match best {
                None => {
                    best = Some(j);
                },
                Some(b) => {
                    if rs[j].ts_ms > rs[b].ts_ms {
                        best = Some(j);
                    }
                },
            }
        } else {
            assert(!is_id_candidate(rs@, j as int, id@));
        }
        j = j + 1;
    }
    best
}

/// Hang each account's latest usage off the account it belongs to.
///
/// Accounts are matched on the config dir a record names, and on the
/// account id when the dir has moved. An account with no record gets none:
/// nothing has reported for it, which is not zero usage. A sink that could
/// not be read (`None`) or holds nothing changes nothing at all.
pub fn attach_usage_from(accounts: &mut Vec<UsageAccount>, records: Option<Vec<UsageRecordKey>>)
    ensures
        final(accounts)@.len() == old(accounts)@.len(),
        match records {
            None => final(accounts)@ == old(accounts)@,
            Some(rs) => if rs@.len() == 0 {
                final(accounts)@ == old(accounts)@
            } else {
                forall|k: int|
                    0 <= k < old(accounts)@.len() ==> {
                        &&& (#[trigger] final(accounts)@[k]).id == old(accounts)@[k].id
                        &&& final(accounts)@[k].config_dir_key == old(accounts)@[k].config_dir_key
                        &&& usage_is_right(rs@, old(accounts)@[k].id@, old(accounts)@[k].config_dir_key@, final(accounts)@[k].usage)
                    }
            },
        },
{
    if accounts.len() == 0 {
        return;
    }
    let rs = match records {
        Some(rs) => rs,
        None => {
            return;
        },
    };
    if rs.len() == 0 {
        return;
    }
    let ghost before = accounts@;
    let mut k: usize = 0;
    while k < accounts.len()
        invariant
            accounts@.len() == before.len(),
            k <= accounts@.len(),
            rs@.len() > 0,
            forall|m: int| k <= m < accounts@.len() ==> #[trigger] accounts@[m] == before[m],
            forall|m: int|
                0 <= m < k ==> {
                    &&& (#[trigger] accounts@[m]).id == before[m].id
                    &&& accounts@[m].config_dir_key == before[m].config_dir_key
                    &&& usage_is_right(rs@, before[m].id@, before[m].config_dir_key@, accounts@[m].usage)
                },
        decreases accounts@.len() - k,
    {
        let usage = match latest_for_key(&rs, accounts[k].config_dir_key.as_str()) {
            Some(i) => Some(i),
            None => newest_for_account(&rs, accounts[k].id.as_str()),
        };
        let mut account = accounts.remove(k);
        account.usage = usage;
        accounts.insert(k, account);
        k = k + 1;
    }
}


/// The size at which the sink is compacted, in bytes (5 MB).
pub const MAX_USAGE_SINK_BYTES: u64 = 5_242_880;

/// How much of the sink's tail an append reads to find an account's last
/// record (256 KB).
pub const USAGE_TAIL_SCAN_BYTES: u64 = 262_144;

/// Where an append starts reading a sink of `len` bytes: the last
/// `USAGE_TAIL_SCAN_BYTES` of it, or all of a shorter one.
pub fn usage_tail_start(len: u64) -> (r: u64)
    ensures
        r == (if len >= USAGE_TAIL_SCAN_BYTES {
            len - USAGE_TAIL_SCAN_BYTES
        } else {
            0
        }),
{
    len.saturating_sub(USAGE_TAIL_SCAN_BYTES)
}

/// One record per account per window, in milliseconds (30 s).
pub const THROTTLE_MS: i64 = 30_000;

/// Whether an account's new record is throttled: the newest record its
/// config dir already has in the sink's tail is earlier by less than the
/// window. A later one (the clock went back) never throttles.
pub open spec fn is_throttled_by(rs: Seq<UsageRecordKey>, key: Seq<char>, ts_ms: i64) -> bool {
    exists|i: int|
        #[trigger] is_latest_for_key(rs, i) && rs[i].config_dir_key@ == key && 0 <= ts_ms - rs[i].ts_ms
            && ts_ms - rs[i].ts_ms < THROTTLE_MS
}

/// Whether a new record of the config dir `key` at `ts_ms` is throttled by
/// the records in the sink's tail.
pub fn is_throttled(tail: &Vec<UsageRecordKey>, key: &str, ts_ms: i64) -> (r: bool)
    ensures
        r == is_throttled_by(tail@, key@, ts_ms),
{
    match latest_for_key(tail, key) {
        None => false,
        Some(i) => {
            let elapsed: i128 = ts_ms as i128 - tail[i].ts_ms as i128;
            let r = 0 <= elapsed && elapsed < THROTTLE_MS as i128;
            proof {
                if !r {
                    assert forall|j: int| #[trigger] is_latest_for_key(tail@, j) && tail@[j].config_dir_key@ == key@ implies !(0
                        <= ts_ms - tail@[j].ts_ms && ts_ms - tail@[j].ts_ms < THROTTLE_MS) by {
                        assert(tail@[j].ts_ms == tail@[i as int].ts_ms);
                    }
                }
            }
            r
        },
    }
}

/// Whether a sink of this size is compacted before the next append.
pub fn needs_compaction(len: u64) -> (r: bool)
    ensures
        r == (len >= MAX_USAGE_SINK_BYTES),
{
    len >= MAX_USAGE_SINK_BYTES
}

/// The records a compaction keeps, by position: the newest of each config
/// dir, oldest first.
pub open spec fn is_compaction_of(rs: Seq<UsageRecordKey>, kept: Seq<usize>) -> bool {
    &&& forall|a: int| 0 <= a < kept.len() ==> #[trigger] is_latest_for_key(rs, kept[a] as int)
    &&& forall|i: int| #[trigger] is_latest_for_key(rs, i) ==> kept.contains(i as usize)
    &&& kept.no_duplicates()
    &&& forall|a: int, b: int| 0 <= a < b < kept.len() ==> rs[kept[a] as int].ts_ms <= rs[kept[b] as int].ts_ms
}

/// Which records a compaction of the sink keeps, in the order it writes
/// them.
pub fn retained_for_compaction(rs: &Vec<UsageRecordKey>) -> (r: Vec<usize>)
    ensures
        is_compaction_of(rs@, r@),
{
    let n = rs.len();
    let mut pool: Vec<usize> = Vec::new();
    let mut i: usize = 0;
    while i < n
        invariant
            n == rs@.len(),
            i <= n,
            forall|a: int| 0 <= a < pool@.len() ==> (#[trigger] pool@[a]) < i && is_latest_for_key(rs@, pool@[a] as int),
            forall|j: int| 0 <= j < i && #[trigger] is_latest_for_key(rs@, j) ==> pool@.contains(j as usize),
            pool@.no_duplicates(),
        decreases n - i,
    {
        if latest_of_its_key(rs, i) {
            let ghost old_pool = pool@;
            pool.push(i);
            proof {
                assert(pool@[old_pool.len() as int] == i);
                assert forall|j: int| 0 <= j <= i && #[trigger] is_latest_for_key(rs@, j) implies pool@.contains(j as usize) by {
                    if j < i {
                        let k = choose|k: int| 0 <= k < old_pool.len() && old_pool[k] == j as usize;
                        assert(pool@[k] == j as usize);
                    }
                }
                assert forall|a: int, b: int| 0 <= a < pool@.len() && 0 <= b < pool@.len() && a != b implies pool@[a] != pool@[b] by {
                    if a < old_pool.len() && b < old_pool.len() {
                        assert(old_pool[a] != old_pool[b]);
                    }
                }
            }
        }
        i = i + 1;
    }
    let mut ts: Vec<i64> = Vec::new();
    let mut k: usize = 0;
    while k < n
        invariant
            n == rs@.len(),
            k <= n,
            ts@.len() == k,
            forall|c: int| 0 <= c < k ==> #[trigger] ts@[c] == rs@[c].ts_ms,
        decreases n - k,
    {
        ts.push(rs[k].ts_ms);
        k = k + 1;
    }
    let ghost all = pool@;
    let out = order_by_time(pool, &ts);
    proof {
        assert forall|a: int| 0 <= a < out@.len() implies #[trigger] is_latest_for_key(rs@, out@[a] as int) by {
            assert(out@.contains(out@[a]));
            assert(all.contains(out@[a]));
            let c = choose|c: int| 0 <= c < all.len() && all[c] == out@[a];
        }
        assert forall|i: int| #[trigger] is_latest_for_key(rs@, i) implies out@.contains(i as usize) by {
            assert(all.contains(i as usize));
        }
        assert forall|a: int, b: int| 0 <= a < b < out@.len() implies rs@[out@[a] as int].ts_ms <= rs@[out@[b] as int].ts_ms by {
            assert(out@.contains(out@[a]) && out@.contains(out@[b]));
            assert(all.contains(out@[a]) && all.contains(out@[b]));
            assert(ts@[out@[a] as int] <= ts@[out@[b] as int]);
        }
    }
    out
}


/// A config dir has one newest record: two records that are each the newest
/// of the same dir are the same record.
pub proof fn lemma_newest_record_is_unique(rs: Seq<UsageRecordKey>, i: int, j: int)
    requires
        is_latest_for_key(rs, i),
        is_latest_for_key(rs, j),
        rs[i].config_dir_key@ == rs[j].config_dir_key@,
    ensures
        i == j,
{
    assert(rs[j].config_dir_key@ == rs[i].config_dir_key@);
}

/// A compacted sink holds one record per config dir, and it is that dir's
/// newest.
pub proof fn lemma_compaction_keeps_one_record_per_dir(rs: Seq<UsageRecordKey>, kept: Seq<usize>)
    requires
        is_compaction_of(rs, kept),
    ensures
        forall|a: int, b: int|
            #![trigger kept[a], kept[b]]
            0 <= a < kept.len() && 0 <= b < kept.len() && a != b ==> rs[kept[a] as int].config_dir_key@ != rs[kept[b] as int].config_dir_key@,
        forall|a: int, j: int|
            #![trigger kept[a], rs[j]]
            0 <= a < kept.len() && 0 <= j < rs.len() && rs[j].config_dir_key@ == rs[kept[a] as int].config_dir_key@ ==> rs[j].ts_ms
                <= rs[kept[a] as int].ts_ms,
{
    assert forall|a: int, b: int|
        #![trigger kept[a], kept[b]]
        0 <= a < kept.len() && 0 <= b < kept.len() && a != b implies rs[kept[a] as int].config_dir_key@ != rs[kept[b] as int].config_dir_key@ by {
        assert(is_latest_for_key(rs, kept[a] as int));
        assert(is_latest_for_key(rs, kept[b] as int));
        if rs[kept[a] as int].config_dir_key@ == rs[kept[b] as int].config_dir_key@ {
            lemma_newest_record_is_unique(rs, kept[a] as int, kept[b] as int);
        }
    }
    assert forall|a: int, j: int|
        #![trigger kept[a], rs[j]]
        0 <= a < kept.len() && 0 <= j < rs.len() && rs[j].config_dir_key@ == rs[kept[a] as int].config_dir_key@ implies rs[j].ts_ms
            <= rs[kept[a] as int].ts_ms by {
        assert(is_latest_for_key(rs, kept[a] as int));
    }
}

} // verus!
