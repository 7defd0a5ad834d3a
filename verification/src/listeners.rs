//! The app's side of the daemon connections it keeps open: request ids,
//! what an answer or a line read during a watch handshake becomes, and the
//! paths the event connection watches.

use vstd::prelude::*;
use crate::launcher::{decimal_digits, decimal_text};
use crate::event_listener::{convert_daemon_event, joined_all, project_of, DaemonEventPayload, WatchEvent};
use crate::paths::joined;
use crate::protocol::DaemonError;
use crate::text::str_eq;

verus! {

/// The next id of a connection's requests: its prefix and a counter, which
/// moves on.
pub fn next_request_id(prefix: &str, counter: &mut u64) -> (r: String)
    requires
        *old(counter) < u64::MAX,
    ensures
        r@ == prefix@ + decimal_digits(*old(counter) as nat),
        *final(counter) == *old(counter) + 1,
{
    let mut id = String::from_str(prefix);
    let n = decimal_text(*counter);
    id.append(n.as_str());
    *counter = *counter + 1;
    id
}

/// The failure a long poll reports for an error answer:
/// `Daemon <operation> error [<code>]: <message>`.
pub fn daemon_error_message(operation: &str, error: &DaemonError) -> (r: String)
    ensures
        r@ == "Daemon "@ + operation@ + " error ["@ + error.code@ + "]: "@ + error.message@,
{
    let mut m = String::from_str("Daemon ");
    m.append(operation);
    m.append(" error [");
    m.append(error.code.as_str());
    m.append("]: ");
    m.append(error.message.as_str());
    m
}

/// What a watch answer means: success, or `Daemon watch failed: <message>`.
pub fn watch_outcome(error: Option<DaemonError>) -> (r: Result<(), String>)
    ensures
        match error {
            None => r is Ok,
            Some(e) => r matches Err(m) && m@ == "Daemon watch failed: "@ + e.message@,
        },
{
    match error {
        None => Ok(()),
        Some(e) => {
            let mut m = String::from_str("Daemon watch failed: ");
            m.append(e.message.as_str());
            Err(m)
        },
    }
}

/// The two requests that register or drop a watched path.
#[derive(Debug, Clone, Copy, PartialEq, Eq, Structural)]
pub enum WatchRequestKind {
    Watch,
    Unwatch,
}

/// A line read while a watch or unwatch request waits for its answer.
pub enum HandshakeLine {
    /// The answer, with the daemon's error when it refused.
    Answer(Option<DaemonError>),
    /// A push event of a path watched before.
    Event(DaemonEventPayload),
    /// A line that is neither; the parser's message.
    Unreadable(String),
}

/// What the handshake does with a line.
pub enum HandshakeStep {
    /// Forward the event and read the next line.
    Forward(DaemonEventPayload),
    /// The handshake is over, with this outcome.
    Finished(Result<(), String>),
}

/// The request's name in messages.
pub open spec fn request_word(kind: WatchRequestKind) -> Seq<char> {
    match kind {
        WatchRequestKind::Watch => "watch"@,
        WatchRequestKind::Unwatch => "unwatch"@,
    }
}

/// Decide one line of a watch or unwatch handshake: an event is forwarded
/// and the wait goes on; the answer ends it, as success or as
/// `Daemon <request> failed: <message>`; a line that cannot be read ends it
/// as `Parse <request> response failed: <error>`.
pub fn handshake_step(kind: WatchRequestKind, line: HandshakeLine) -> (r: HandshakeStep)
    ensures
        match line {
            HandshakeLine::Answer(None) => r matches HandshakeStep::Finished(Ok(())),
            HandshakeLine::Answer(Some(e)) => r matches HandshakeStep::Finished(Err(m)) && m@ == "Daemon "@ + request_word(kind)
                + " failed: "@ + e.message@,
            HandshakeLine::Event(p) => r == HandshakeStep::Forward(p),
            HandshakeLine::Unreadable(err) => r matches HandshakeStep::Finished(Err(m)) && m@ == "Parse "@ + request_word(
                kind,
            ) + " response failed: "@ + err@,
        },
{
    let word = match kind {
        WatchRequestKind::Watch => "watch",
        WatchRequestKind::Unwatch => "unwatch",
    };
    proof {
        reveal_strlit("watch");
        reveal_strlit("unwatch");
    }
    match line {
        HandshakeLine::Answer(None) => HandshakeStep::Finished(Ok(())),
        HandshakeLine::Answer(Some(e)) => {
            let mut m = String::from_str("Daemon ");
            m.append(word);
            m.append(" failed: ");
            m.append(e.message.as_str());
            HandshakeStep::Finished(Err(m))
        },
        HandshakeLine::Event(p) => HandshakeStep::Forward(p),
        HandshakeLine::Unreadable(err) => {
            let mut m = String::from_str("Parse ");
            m.append(word);
            m.append(" response failed: ");
            m.append(err.as_str());
            HandshakeStep::Finished(Err(m))
        },
    }
}

/// The project a list of mappings gives `path` after one more mapping is
/// appended.
proof fn lemma_project_of_push(m: Seq<(String, String)>, e: (String, String), q: Seq<char>)
    ensures
        project_of(m.push(e), q) == (match project_of(m, q) {
            Some(x) => Some(x),
            None => if e.0@ == q {
                Some(e.1@)
            } else {
                None
            },
        }),
    decreases m.len(),
{
    let pushed = m.push(e);
    if m.len() == 0 {
        assert(pushed[0] == e);
        assert(pushed.drop_first() =~= Seq::<(String, String)>::empty());
        assert(project_of(pushed.drop_first(), q) is None);
    } else {
        assert(pushed[0] == m[0]);
        assert(pushed.drop_first() =~= m.drop_first().push(e));
        lemma_project_of_push(m.drop_first(), e, q);
    }
}

/// The paths the event connection watches, each with its project.
pub struct WatchedPaths {
    entries: Vec<(String, String)>,
}

impl WatchedPaths {
    /// The project watched at `path`, if any.
    pub closed spec fn project_at(&self, path: Seq<char>) -> Option<Seq<char>> {
        project_of(self.entries@, path)
    }

    /// No path is watched.
    pub fn new() -> (r: Self)
        ensures
            forall|q: Seq<char>| r.project_at(q) is None,
    {
        WatchedPaths { entries: Vec::new() }
    }

    /// The project watched at `path`, if any.
    pub fn project_for(&self, path: &str) -> (r: Option<String>)
        ensures
            match r {
                Some(id) => self.project_at(path@) == Some(id@),
                None => self.project_at(path@) is None,
            },
    {
        crate::event_listener::project_for_path(&self.entries, path)
    }

    /// The watch event a push event becomes: one of the project watched at
    /// its path; none when no project is watched there.
    pub fn event_for(&self, payload: DaemonEventPayload) -> (r: Option<WatchEvent>)
        ensures
            match payload {
                DaemonEventPayload::GitChanged(d) => match self.project_at(d.path@) {
                    None => r is None,
                    Some(id) => r matches Some(WatchEvent::GitChanged { project_id }) && project_id@ == id,
                },
                DaemonEventPayload::FileChanged(d) => match self.project_at(d.path@) {
                    None => r is None,
                    Some(id) => r matches Some(WatchEvent::FileChanged { project_id, paths }) && project_id@ == id
                        && paths@.map_values(|p: String| p@) == joined_all(d.path@, d.files@),
                },
                DaemonEventPayload::SessionFileCreated(d) => match self.project_at(d.path@) {
                    None => r is None,
                    Some(id) => r matches Some(WatchEvent::SessionFileCreated { project_id, path }) && project_id@ == id
                        && path@ == joined(d.path@, d.file@),
                },
            },
    {
        convert_daemon_event(payload, &self.entries)
    }

    /// The mappings of every path but `path`.
    fn without(&self, path: &str) -> (r: Vec<(String, String)>)
        ensures
            project_of(r@, path@) is None,
            forall|q: Seq<char>| q != path@ ==> project_of(r@, q) == project_of(self.entries@, q),
    {
        let n = self.entries.len();
        let mut out: Vec<(String, String)> = Vec::new();
        let mut i: usize = 0;
        while i < n
            invariant
                n == self.entries@.len(),
                i <= n,
                project_of(out@, path@) is None,
                forall|q: Seq<char>| q != path@ ==> project_of(out@, q) == project_of(self.entries@.subrange(0, i as int), q),
            decreases n - i,
        {
            let ghost before = out@;
            let e = &self.entries[i];
            let ghost pre = self.entries@.subrange(0, i as int);
            assert(self.entries@.subrange(0, i + 1) =~= pre.push(self.entries@[i as int]));
            if !str_eq(e.0.as_str(), path) {
                out.push((e.0.clone(), e.1.clone()));
                proof {
                    lemma_project_of_push(before, out@[before.len() as int], path@);
                    assert forall|q: Seq<char>| q != path@ implies project_of(out@, q) == project_of(
                        self.entries@.subrange(0, i + 1),
                        q,
                    ) by {
                        lemma_project_of_push(before, out@[before.len() as int], q);
                        lemma_project_of_push(pre, self.entries@[i as int], q);
                        assert(out@ == before.push(out@[before.len() as int]));
                    }
                    assert(out@ == before.push(out@[before.len() as int]));
                }
            } else {
                proof {
                    assert forall|q: Seq<char>| q != path@ implies project_of(out@, q) == project_of(
                        self.entries@.subrange(0, i + 1),
                        q,
                    ) by {
                        lemma_project_of_push(pre, self.entries@[i as int], q);
                    }
                }
            }
            i = i + 1;
        }
        assert(self.entries@.subrange(0, n as int) =~= self.entries@);
        out
    }

    /// Watch `path` for `project_id`, in place of any project it was watched
    /// for.
    pub fn register(&mut self, path: &str, project_id: &str)
        ensures
            forall|q: Seq<char>| #[trigger] final(self).project_at(q) == if q == path@ {
                Some(project_id@)
            } else {
                old(self).project_at(q)
            },
    {
        let mut out = self.without(path);
        let ghost before = out@;
        out.push((String::from_str(path), String::from_str(project_id)));
        proof {
            assert forall|q: Seq<char>| project_of(out@, q) == if q == path@ {
                Some(project_id@)
            } else {
                project_of(self.entries@, q)
            } by {
                lemma_project_of_push(before, out@[before.len() as int], q);
                assert(out@ == before.push(out@[before.len() as int]));
            }
        }
        self.entries = out;
    }

    /// Stop watching `path`.
    pub fn unregister(&mut self, path: &str)
        ensures
            forall|q: Seq<char>| #[trigger] final(self).project_at(q) == if q == path@ {
                None
            } else {
                old(self).project_at(q)
            },
    {
        self.entries = self.without(path);
    }
}

} // verus!
