//! Codex turn notifications appended to the daemon's notify sink: what a
//! notification says about its session and its kind.

use vstd::prelude::*;

verus! {

/// The file Codex notifications are appended to, under the app data root.
pub const CODEX_NOTIFY_FILENAME: &'static str = "codex-notify.jsonl";

/// The size at which the sink is emptied before the next append (5 MB).
pub const MAX_CODEX_NOTIFY_BYTES: u64 = 5_242_880;

/// Whether a sink of this size is emptied before the next append.
pub fn notify_sink_is_full(len: u64) -> (r: bool)
    ensures
        r == (len >= MAX_CODEX_NOTIFY_BYTES),
{
    len >= MAX_CODEX_NOTIFY_BYTES
}

/// What one append of a Codex notification did.
#[derive(Debug, Clone, Copy, PartialEq, Eq, Structural)]
pub struct CodexNotifyAppendOutcome {
    /// The sink was at its cap and was cut back before the append.
    pub truncated: bool,
}

/// One top-level field of a JSON object, as a lookup finds it.
#[derive(Debug, Clone, PartialEq, Eq)]
pub enum JsonField {
    /// The text is not an object, or has no such key.
    Absent,
    /// The key holds a string.
    Text(String),
    /// The key holds something other than a string.
    Other,
}

/// A `JsonField` with its text as a sequence of characters.
pub enum JsonFieldView {
    Absent,
    Text(Seq<char>),
    Other,
}

impl JsonField {
    pub open spec fn view(&self) -> JsonFieldView {
        match self {
            JsonField::Absent => JsonFieldView::Absent,
            JsonField::Text(s) => JsonFieldView::Text(s@),
            JsonField::Other => JsonFieldView::Other,
        }
    }
}

/// What `serde_json::from_str::<Value>(raw)` followed by `.get(key)` finds:
/// the field, or the parser's error message when `raw` is not JSON.
pub uninterp spec fn json_top_field(raw: Seq<char>, key: Seq<char>) -> Result<JsonFieldView, Seq<char>>;

/// A lookup's result with its texts as sequences.
pub open spec fn field_result_view(r: Result<JsonField, String>) -> Result<JsonFieldView, Seq<char>> {
    match r {
        Ok(f) => Ok(f@),
        Err(e) => Err(e@),
    }
}

/// Parses `raw` with `serde_json::from_str` into a `serde_json::Value` and
/// looks up `key` with `Value::get`. The result is the name
/// `json_top_field` of the two texts: serde_json's grammar and its error
/// messages are not restated.
#[verifier::external_body]
fn json_field(raw: &str, key: &str) -> (r: Result<JsonField, String>)
    ensures
        field_result_view(r) == json_top_field(raw@, key@),
{
    match serde_json::from_str::<serde_json::Value>(raw) {
        Err(error) => Err(error.to_string()),
        Ok(value) => Ok(match value.get(key) {
            None => JsonField::Absent,
            Some(serde_json::Value::String(text)) => JsonField::Text(text.clone()),
            Some(_) => JsonField::Other,
        }),
    }
}

/// The first of `keys` present in `raw` decides: its string, or nothing when
/// it holds something else; no key present gives nothing.
pub open spec fn first_present_text(raw: Seq<char>, keys: Seq<Seq<char>>) -> Result<Option<Seq<char>>, Seq<char>>
    decreases keys.len(),
{
    if keys.len() == 0 {
        Ok(None)
    } else {
        match json_top_field(raw, keys[0]) {
            Err(e) => Err(e),
            Ok(JsonFieldView::Absent) => first_present_text(raw, keys.drop_first()),
            Ok(JsonFieldView::Text(s)) => Ok(Some(s)),
            Ok(JsonFieldView::Other) => Ok(None),
        }
    }
}

/// The keys a notification may name its session by, in the order they are
/// tried.
pub open spec fn session_keys() -> Seq<Seq<char>> {
    seq!["session_id"@, "session-id"@, "thread_id"@, "thread-id"@]
}

/// What a notification says: its session and its kind, or the parser's
/// message when it is not JSON.
pub open spec fn notify_event_of(raw: Seq<char>) -> Result<(Option<Seq<char>>, Option<Seq<char>>), Seq<char>> {
    match (first_present_text(raw, session_keys()), first_present_text(raw, seq!["type"@])) {
        (Ok(session), Ok(kind)) => Ok((session, kind)),
        (Err(e), _) => Err(e),
        (_, Err(e)) => Err(e),
    }
}

/// A parsed Codex notification, reduced to what the sink reads of it.
#[derive(Debug, Clone, PartialEq, Eq)]
pub struct CodexNotifyEvent {
    session_id: Option<String>,
    event_type: Option<String>,
}

/// An optional text as a sequence.
pub open spec fn opt_text(o: Option<String>) -> Option<Seq<char>> {
    match o {
        Some(s) => Some(s@),
        None => None,
    }
}

impl CodexNotifyEvent {
    /// The notification's `type`, when it is a string.
    pub closed spec fn event_type_view(&self) -> Option<Seq<char>> {
        opt_text(self.event_type)
    }

    /// The notification's session, when it names one.
    pub closed spec fn session_id_view(&self) -> Option<Seq<char>> {
        opt_text(self.session_id)
    }

    /// The notification's `type`, when it is a string.
    pub fn event_type(&self) -> (r: Option<String>)
        ensures
            opt_text(r) == self.event_type_view(),
    {
        match &self.event_type {
            Some(t) => Some(t.clone()),
            None => None,
        }
    }

    /// The session the notification names: the first of `session_id`,
    /// `session-id`, `thread_id`, `thread-id` that is present decides, and
    /// a value that is not a string names none.
    pub fn session_id(&self) -> (r: Option<String>)
        ensures
            opt_text(r) == self.session_id_view(),
    {
        match &self.session_id {
            Some(t) => Some(t.clone()),
            None => None,
        }
    }
}

/// The first present key of `keys[i..]` decides.
fn first_present(raw: &str, keys: &Vec<&str>, i: usize) -> (r: Result<Option<String>, String>)
    requires
        i <= keys@.len(),
    ensures
        match (r, first_present_text(raw@, keys@.skip(i as int).map_values(|k: &str| k@))) {
            (Ok(a), Ok(b)) => opt_text(a) == b,
            (Err(e), Err(m)) => e@ == m,
            _ => false,
        },
    decreases keys@.len() - i,
{
    let ghost rest = keys@.skip(i as int).map_values(|k: &str| k@);
    if i == keys.len() {
        assert(rest.len() == 0);
        return Ok(None);
    }
    assert(rest[0] == keys@[i as int]@);
    assert(rest.drop_first() =~= keys@.skip(i + 1).map_values(|k: &str| k@));
    match json_field(raw, keys[i]) {
        Err(e) => Err(e),
        Ok(JsonField::Absent) => first_present(raw, keys, i + 1),
        Ok(JsonField::Text(s)) => Ok(Some(s)),
        Ok(JsonField::Other) => Ok(None),
    }
}

/// Read one Codex notification: the session it names and its `type`, or the
/// parser's message when the text is not JSON.
pub fn parse_event(raw: &str) -> (r: Result<CodexNotifyEvent, String>)
    ensures
        match (r, notify_event_of(raw@)) {
            (Ok(ev), Ok((session, kind))) => ev.session_id_view() == session && ev.event_type_view() == kind,
            (Err(e), Err(m)) => e@ == m,
            _ => false,
        },
{
    let keys: Vec<&str> = vec!["session_id", "session-id", "thread_id", "thread-id"];
    assert(keys@.skip(0).map_values(|k: &str| k@) =~= session_keys());
    let session = first_present(raw, &keys, 0);
    let kinds: Vec<&str> = vec!["type"];
    assert(kinds@.skip(0).map_values(|k: &str| k@) =~= seq!["type"@]);
    let kind = first_present(raw, &kinds, 0);
    match session {
        Err(e) => Err(e),
        Ok(session_id) => match kind {
            Err(e) => Err(e),
            Ok(event_type) => Ok(CodexNotifyEvent { session_id, event_type }),
        },
    }
}

/// The string a notification holds under `key`, if it holds one there.
pub open spec fn text_at(raw: Seq<char>, key: Seq<char>) -> Option<Seq<char>> {
    match json_top_field(raw, key) {
        Ok(JsonFieldView::Text(t)) => Some(t),
        _ => None,
    }
}

/// The notification parses and has no field `key`.
pub open spec fn absent_at(raw: Seq<char>, key: Seq<char>) -> bool {
    json_top_field(raw, key) matches Ok(JsonFieldView::Absent)
}

/// The notification parses and holds something other than a string under
/// `key`.
pub open spec fn other_at(raw: Seq<char>, key: Seq<char>) -> bool {
    json_top_field(raw, key) matches Ok(JsonFieldView::Other)
}

/// The session a notification names is under the first of `session_id`,
/// `session-id`, `thread_id`, `thread-id` that it has: that key's string,
/// or no session when that key holds something else; with none of the four
/// it names no session. Its kind is its `type` string, if any. (Stated of
/// a notification every lookup of which parses.)
pub proof fn lemma_the_first_present_session_key_names_the_session(raw: Seq<char>)
    requires
        json_top_field(raw, "type"@) is Ok,
        json_top_field(raw, "session_id"@) is Ok,
        json_top_field(raw, "session-id"@) is Ok,
        json_top_field(raw, "thread_id"@) is Ok,
        json_top_field(raw, "thread-id"@) is Ok,
    ensures
        notify_event_of(raw) is Ok,
        text_at(raw, "session_id"@) is Some ==> notify_event_of(raw)->Ok_0.0 == text_at(raw, "session_id"@),
        other_at(raw, "session_id"@) ==> notify_event_of(raw)->Ok_0.0 is None,
        absent_at(raw, "session_id"@) && text_at(raw, "session-id"@) is Some ==> notify_event_of(raw)->Ok_0.0
            == text_at(raw, "session-id"@),
        absent_at(raw, "session_id"@) && other_at(raw, "session-id"@) ==> notify_event_of(raw)->Ok_0.0 is None,
        absent_at(raw, "session_id"@) && absent_at(raw, "session-id"@) && text_at(raw, "thread_id"@) is Some
            ==> notify_event_of(raw)->Ok_0.0 == text_at(raw, "thread_id"@),
        absent_at(raw, "session_id"@) && absent_at(raw, "session-id"@) && other_at(raw, "thread_id"@)
            ==> notify_event_of(raw)->Ok_0.0 is None,
        absent_at(raw, "session_id"@) && absent_at(raw, "session-id"@) && absent_at(raw, "thread_id"@) && text_at(
            raw,
            "thread-id"@,
        ) is Some ==> notify_event_of(raw)->Ok_0.0 == text_at(raw, "thread-id"@),
        absent_at(raw, "session_id"@) && absent_at(raw, "session-id"@) && absent_at(raw, "thread_id"@) && !(text_at(
            raw,
            "thread-id"@,
        ) is Some) ==> notify_event_of(raw)->Ok_0.0 is None,
        notify_event_of(raw)->Ok_0.1 == text_at(raw, "type"@),
{
    reveal_with_fuel(first_present_text, 5);
    let k = session_keys();
    assert(k[0] == "session_id"@);
    assert(k.drop_first() =~= seq!["session-id"@, "thread_id"@, "thread-id"@]);
    assert(k.drop_first().drop_first() =~= seq!["thread_id"@, "thread-id"@]);
    assert(k.drop_first().drop_first().drop_first() =~= seq!["thread-id"@]);
    assert(k.drop_first().drop_first().drop_first().drop_first() =~= Seq::<Seq<char>>::empty());
    assert(seq!["type"@].drop_first() =~= Seq::<Seq<char>>::empty());
}

} // verus!
