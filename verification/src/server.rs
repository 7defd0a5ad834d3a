//! The daemon server's rules: its configuration, the port it listens on,
//! how a request line is framed off the stream, and how each request is
//! screened before it is dispatched.

use vstd::prelude::*;
use crate::auth::{token_check, validate_token};
use crate::protocol::DaemonError;
use crate::text::{trim_string, trimmed};

verus! {

/// The port the daemon listens on unless told otherwise.
pub const DEFAULT_PORT: u16 = 17233;

/// The environment variable that overrides the port.
pub const DAEMON_PORT_OVERRIDE_ENV: &'static str = "TAURHAUS_DAEMON_PORT";

/// The longest request line accepted, in bytes (1 MB). Ordinary requests
/// are far smaller; the limit keeps a misbehaving client from making the
/// daemon allocate without bound.
pub const MAX_REQUEST_LINE_LEN: usize = 1_048_576;

/// Configuration of the daemon server.
#[derive(Debug, Clone, PartialEq, Eq)]
pub struct DaemonConfig {
    pub port: u16,
    pub bind_addr: String,
    /// Shut down after this many seconds without client activity; none
    /// disables the idle timeout.
    pub idle_timeout_secs: Option<u64>,
    /// When set, every request must carry this token.
    pub auth_token: Option<String>,
}

impl Default for DaemonConfig {
    /// The default port on the loopback address, no idle timeout, no auth.
    fn default() -> (r: Self)
        ensures
            r.port == DEFAULT_PORT,
            r.bind_addr@ == "127.0.0.1"@,
            r.idle_timeout_secs is None,
            r.auth_token is None,
    {
        DaemonConfig {
            port: DEFAULT_PORT,
            bind_addr: String::from_str("127.0.0.1"),
            idle_timeout_secs: None,
            auth_token: None,
        }
    }
}

/// An ASCII digit.
pub open spec fn is_digit(c: char) -> bool {
    '0' <= c && c <= '9'
}

/// The value of a string of ASCII digits.
pub open spec fn decimal_value(s: Seq<char>) -> int
    decreases s.len(),
{
    if s.len() == 0 {
        0
    } else {
        decimal_value(s.drop_last()) * 10 + (s.last() as int - '0' as int)
    }
}

/// The digits of a port text: the text after one optional leading `+`.
pub open spec fn u16_digits(s: Seq<char>) -> Seq<char> {
    if s.len() > 0 && s[0] == '+' {
        s.drop_first()
    } else {
        s
    }
}

/// A text `str::parse::<u16>` accepts: after one optional leading `+`, a
/// non-empty run of ASCII digits whose value fits in 16 bits.
pub open spec fn parses_as_u16(s: Seq<char>) -> bool {
    let t = u16_digits(s);
    &&& t.len() > 0
    &&& forall|i: int| 0 <= i < t.len() ==> #[trigger] is_digit(t[i])
    &&& decimal_value(t) <= 65535
}

/// `str::parse::<u16>`. Std documents the accepted text as an optional `+`
/// followed by decimal digits only, and an error for an empty text, any
/// other character or a value that does not fit; the value is the digits'.
#[verifier::external_body]
fn parse_u16(s: &str) -> (r: Option<u16>)
    ensures
        r == (if parses_as_u16(s@) {
            Some(decimal_value(u16_digits(s@)) as u16)
        } else {
            None
        }),
{
    s.parse::<u16>().ok()
}

/// The value of a run of ASCII digits is not negative.
proof fn lemma_digits_value_nonnegative(t: Seq<char>)
    requires
        forall|i: int| 0 <= i < t.len() ==> #[trigger] is_digit(t[i]),
    ensures
        decimal_value(t) >= 0,
    decreases t.len(),
{
    if t.len() > 0 {
        let d = t.drop_last();
        assert forall|i: int| 0 <= i < d.len() implies #[trigger] is_digit(d[i]) by {
            assert(d[i] == t[i]);
        }
        lemma_digits_value_nonnegative(d);
        assert(is_digit(t[t.len() - 1]));
    }
}

/// The port an override text names: its value when it parses as a
/// non-zero port.
pub open spec fn override_port(v: Seq<char>) -> Option<u16> {
    if parses_as_u16(v) && decimal_value(u16_digits(v)) != 0 {
        Some(decimal_value(u16_digits(v)) as u16)
    } else {
        None
    }
}

/// The port the app connects to, given the override variable's value: the
/// value when it parses as a non-zero port, the default port otherwise.
pub fn app_daemon_port_from(value: Option<&str>) -> (r: u16)
    ensures
        r == (match value {
            Some(v) => match override_port(v@) {
                Some(p) => p,
                None => DEFAULT_PORT,
            },
            None => DEFAULT_PORT,
        }),
{
    proof {
        if let Some(v) = value {
            if parses_as_u16(v@) {
                lemma_digits_value_nonnegative(u16_digits(v@));
            }
        }
    }
    match value {
        Some(v) => match parse_u16(v) {
            Some(port) => if port != 0 {
                port
            } else {
                DEFAULT_PORT
            },
            None => DEFAULT_PORT,
        },
        None => DEFAULT_PORT,
    }
}

/// What the server does with the bytes read so far of a request line and
/// the next chunk the stream offers.
#[derive(Debug, Clone, Copy, PartialEq, Eq, Structural)]
pub enum LineStep {
    /// The stream ended with nothing buffered: the client is gone.
    Closed,
    /// The stream ended after a partial line: that line is the request.
    EndOfStream,
    /// Take the first `take` bytes of the chunk; `complete` when they end
    /// the line.
    Append { take: usize, complete: bool },
    /// The line would exceed the limit: consume `consume` bytes, and keep
    /// draining to the next newline when `drain`.
    TooLarge { consume: usize, drain: bool },
}

/// The position of the first newline in `chunk`, if any.
pub open spec fn is_first_newline(chunk: Seq<u8>, k: int) -> bool {
    0 <= k < chunk.len() && chunk[k] == 10 && forall|j: int| 0 <= j < k ==> chunk[j] != 10
}

/// The framing decision for `buffered` bytes already read and the next
/// `chunk`, under the limit `max_len`.
pub open spec fn line_step_of(buffered: nat, chunk: Seq<u8>, max_len: nat) -> LineStep {
    if chunk.len() == 0 {
        if buffered == 0 {
            LineStep::Closed
        } else {
            LineStep::EndOfStream
        }
    } else if exists|k: int| #[trigger] is_first_newline(chunk, k) {
        let k = choose|k: int| #[trigger] is_first_newline(chunk, k);
        if buffered + k + 1 > max_len {
            LineStep::TooLarge { consume: (k + 1) as usize, drain: false }
        } else {
            LineStep::Append { take: (k + 1) as usize, complete: true }
        }
    } else if buffered + chunk.len() > max_len {
        LineStep::TooLarge { consume: chunk.len() as usize, drain: true }
    } else {
        LineStep::Append { take: chunk.len() as usize, complete: false }
    }
}

/// Decide what to do with the next chunk of a request line.
pub fn line_step(buffered: usize, chunk: &[u8], max_len: usize) -> (r: LineStep)
    ensures
        r == line_step_of(buffered as nat, chunk@, max_len as nat),
{
    let n = chunk.len();
    if n == 0 {
        return if buffered == 0 {
            LineStep::Closed
        } else {
            LineStep::EndOfStream
        };
    }
    let mut k: usize = 0;
    while k < n && chunk[k] != 10u8
        invariant
            n == chunk@.len(),
            k <= n,
            forall|j: int| 0 <= j < k ==> chunk@[j] != 10,
        decreases n - k,
    {
        k = k + 1;
    }
    if k < n {
        proof {
            assert(is_first_newline(chunk@, k as int));
            let c = choose|c: int| #[trigger] is_first_newline(chunk@, c);
            assert(c == k) by {
                if c < k {
                    assert(chunk@[c] != 10);
                }
                if k < c {
                    assert(chunk@[k as int] != 10);
                }
            }
        }
        if buffered as u128 + k as u128 + 1 > max_len as u128 {
            LineStep::TooLarge { consume: k + 1, drain: false }
        } else {
            LineStep::Append { take: k + 1, complete: true }
        }
    } else {
        proof {
            assert forall|c: int| !#[trigger] is_first_newline(chunk@, c) by {
                if 0 <= c < n {
                    assert(chunk@[c] != 10);
                }
            }
        }
        if buffered as u128 + n as u128 > max_len as u128 {
            LineStep::TooLarge { consume: n, drain: true }
        } else {
            LineStep::Append { take: n, complete: false }
        }
    }
}

/// A framed line without its trailing `\n`, and then without a trailing
/// `\r`.
pub open spec fn without_line_end(line: Seq<u8>) -> Seq<u8> {
    let a = if line.len() > 0 && line.last() == 10 {
        line.drop_last()
    } else {
        line
    };
    if a.len() > 0 && a.last() == 13 {
        a.drop_last()
    } else {
        a
    }
}

/// One step of draining the rest of an over-long request line: how many
/// bytes of the next chunk to consume, and whether the line is over. An
/// empty chunk ends the stream; otherwise the chunk is consumed through its
/// first newline, or whole when it has none.
pub fn drain_step(chunk: &[u8]) -> (r: (usize, bool))
    ensures
        chunk@.len() == 0 ==> r == (0usize, true),
        forall|k: int| #[trigger] is_first_newline(chunk@, k) ==> r == ((k + 1) as usize, true),
        chunk@.len() > 0 && (forall|k: int| !#[trigger] is_first_newline(chunk@, k)) ==> r == (chunk@.len() as usize, false),
{
    let n = chunk.len();
    if n == 0 {
        return (0, true);
    }
    let mut k: usize = 0;
    while k < n && chunk[k] != 10u8
        invariant
            n == chunk@.len(),
            k <= n,
            forall|j: int| 0 <= j < k ==> chunk@[j] != 10,
        decreases n - k,
    {
        k = k + 1;
    }
    if k < n {
        proof {
            assert(is_first_newline(chunk@, k as int));
            assert forall|c: int| #[trigger] is_first_newline(chunk@, c) implies c == k by {
                if c < k {
                    assert(chunk@[c] != 10);
                }
                if k < c {
                    assert(chunk@[k as int] != 10);
                }
            }
        }
        (k + 1, true)
    } else {
        proof {
            assert forall|c: int| !#[trigger] is_first_newline(chunk@, c) by {
                if 0 <= c < n {
                    assert(chunk@[c] != 10);
                }
            }
        }
        (n, false)
    }
}

/// Strip the line ending off a framed request line.
pub fn strip_line_end(line: &mut Vec<u8>)
    ensures
        final(line)@ == without_line_end(old(line)@),
{
    let n = line.len();
    if n > 0 && line[n - 1] == 10u8 {
        line.pop();
    }
    let m = line.len();
    if m > 0 && line[m - 1] == 13u8 {
        line.pop();
    }
}

/// The error answered for a request line over the limit.
pub fn request_too_large() -> (r: DaemonError)
    ensures
        r.code@ == "REQUEST_TOO_LARGE"@,
        r.message@ == "Request line exceeds 1048576 byte limit"@,
{
    DaemonError {
        code: String::from_str("REQUEST_TOO_LARGE"),
        message: String::from_str("Request line exceeds 1048576 byte limit"),
    }
}

/// Whether a request line is blank, and so skipped.
pub fn is_blank_line(line: &str) -> (r: bool)
    ensures
        r == (trimmed(line@).len() == 0),
{
    let t = trim_string(line);
    t.unicode_len() == 0
}

/// Screen a request against the server's token: a server without a token
/// lets every request through; one with a token refuses a request whose
/// token is missing or different, with `AUTH_FAILED`.
pub fn authorize(auth_token: Option<&str>, provided: Option<&str>) -> (r: Result<(), DaemonError>)
    ensures
        match auth_token {
            None => r is Ok,
            Some(expected) => match (r, token_check(expected@, match provided { Some(p) => Some(p@), None => None })) {
                (Ok(()), Ok(())) => true,
                (Err(e), Err(m)) => e.code@ == "AUTH_FAILED"@ && e.message@ == m,
                _ => false,
            },
        },
{
    match auth_token {
        None => Ok(()),
        Some(expected) => match validate_token(expected, provided) {
            Ok(()) => Ok(()),
            Err(message) => Err(DaemonError { code: String::from_str("AUTH_FAILED"), message }),
        },
    }
}

/// Whether answering a request with this method ends the connection (and
/// the daemon): only `shutdown` does.
pub fn ends_connection(method: &str) -> (r: bool)
    ensures
        r == (method@ == crate::protocol::method::SHUTDOWN@),
{
    crate::text::str_eq(method, crate::protocol::method::SHUTDOWN)
}


/// How often the watch telemetry is reported when nothing changed, in
/// milliseconds.
pub const TELEMETRY_HEARTBEAT_INTERVAL_MS: u64 = 60_000;

/// Whether an idle daemon shuts down: it has an idle timeout and more than
/// that many seconds passed since the last client activity.
pub fn idle_expired(idle_timeout_secs: Option<u64>, last_activity_secs: u64, now_secs: u64) -> (r: bool)
    ensures
        r == (idle_timeout_secs matches Some(t) && (if now_secs >= last_activity_secs {
            now_secs - last_activity_secs
        } else {
            0
        }) > t),
{
    match idle_timeout_secs {
        Some(timeout) => now_secs.saturating_sub(last_activity_secs) > timeout,
        None => false,
    }
}

/// Why the watch telemetry is reported on a tick, if it is.
#[derive(Debug, Clone, Copy, PartialEq, Eq, Structural)]
pub enum TelemetryReason {
    /// Connections or watches changed since the last report.
    StateChanged,
    /// Nothing changed, and a heartbeat interval has passed.
    Periodic,
}

/// The telemetry decision of one tick: a change is reported at once;
/// otherwise a heartbeat once the interval has passed since the last report.
pub fn telemetry_tick(dirty: bool, since_last_report_ms: u64) -> (r: Option<TelemetryReason>)
    ensures
        r == (if dirty {
            Some(TelemetryReason::StateChanged)
        } else if since_last_report_ms >= TELEMETRY_HEARTBEAT_INTERVAL_MS {
            Some(TelemetryReason::Periodic)
        } else {
            None
        }),
{
    if dirty {
        Some(TelemetryReason::StateChanged)
    } else if since_last_report_ms >= TELEMETRY_HEARTBEAT_INTERVAL_MS {
        Some(TelemetryReason::Periodic)
    } else {
        None
    }
}

} // verus!
