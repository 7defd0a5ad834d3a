//! Launcher rules: which WSL distro names are safe to pass to `wsl.exe`,
//! and which data directory a daemon launch is handed.

use vstd::prelude::*;
use vstd::string::*;
use crate::text::{char_is_alphanumeric, unicode_alphanumeric, ends_with, strip_suffix};
use crate::paths::{join_path, joined, linux_path_of, path_parent, std_path_parent, to_linux};
use crate::text::{push_char, str_eq, trim_string, trimmed};

verus! {

/// A character allowed in a WSL distro name.
pub open spec fn distro_char_ok(c: char) -> bool {
    unicode_alphanumeric(c) || c == '-' || c == '_' || c == '.'
}

/// A WSL distro name is safe when it is non-empty and each character is
/// alphanumeric, a hyphen, an underscore or a dot.
pub open spec fn distro_name_ok(s: Seq<char>) -> bool {
    s.len() > 0 && forall|i: int| 0 <= i < s.len() ==> #[trigger] distro_char_ok(s[i])
}

/// Validate a WSL distro name against a safe pattern.
///
/// Accepts alphanumeric characters, hyphens, underscores, and dots.
/// Rejects empty strings and anything with shell metacharacters.
pub fn validate_wsl_distro(distro: &str) -> (r: Result<(), String>)
    ensures
        r is Ok <==> distro_name_ok(distro@),
        distro@.len() == 0 ==> (r matches Err(m) && m@ == "WSL distro name is empty"@),
        (distro@.len() > 0 && !distro_name_ok(distro@)) ==> (r matches Err(m) && m@ == invalid_distro_text(distro@)),
{
    let n = distro.unicode_len();
    if n == 0 {
        return Err(String::from_str("WSL distro name is empty"));
    }
    let mut i: usize = 0;
    while i < n
        invariant
            n == distro@.len(),
            i <= n,
            forall|j: int| 0 <= j < i ==> #[trigger] distro_char_ok(distro@[j]),
        decreases n - i,
    {
        let c = distro.get_char(i);
        if !(char_is_alphanumeric(c) || c == '-' || c == '_' || c == '.') {
            assert(!distro_char_ok(distro@[i as int]));
            return Err(invalid_distro_message(distro));
        }
        i = i + 1;
    }
    Ok(())
}

/// How `{:?}` writes a string: quoted, with escapes.
pub uninterp spec fn debug_quoted(s: Seq<char>) -> Seq<char>;

/// The refusal for a distro name with a character outside the safe set.
pub open spec fn invalid_distro_text(distro: Seq<char>) -> Seq<char> {
    "WSL distro name contains invalid characters: "@ + debug_quoted(distro)
}

/// `format!("{:?}")` of a string: std's `Debug` for `str`, quoted with
/// escapes. Its result is named, not restated.
#[verifier::external_body]
fn debug_quote(s: &str) -> (r: String)
    ensures
        r@ == debug_quoted(s@),
{
    format!("{s:?}")
}

/// The refusal for a distro name with a character outside the safe set.
fn invalid_distro_message(distro: &str) -> (r: String)
    ensures
        r@ == invalid_distro_text(distro@),
{
    let mut m = String::from_str("WSL distro name contains invalid characters: ");
    let quoted = debug_quote(distro);
    m.append(quoted.as_str());
    m
}

/// The data directory a daemon launch is handed, from the parent of the
/// log file (`parent`, as std gives it) and the log file's path: a
/// non-empty parent, otherwise the path without its trailing
/// `\taurhaus.log.jsonl` or `/taurhaus.log.jsonl`, otherwise none.
pub open spec fn data_dir_from(parent: Option<Seq<char>>, log_path: Seq<char>) -> Option<Seq<char>> {
    if parent is Some && parent->Some_0.len() > 0 {
        parent
    } else if ends_with(log_path, "\\taurhaus.log.jsonl"@) {
        Some(log_path.subrange(0, log_path.len() - "\\taurhaus.log.jsonl"@.len()))
    } else if ends_with(log_path, "/taurhaus.log.jsonl"@) {
        Some(log_path.subrange(0, log_path.len() - "/taurhaus.log.jsonl"@.len()))
    } else {
        None
    }
}

/// The data directory of a daemon launch, given the parent std found for
/// the log file's path.
pub fn daemon_data_dir_from_parent(parent: Option<String>, log_path: &str) -> (r: Option<String>)
    ensures
        match r {
            Some(s) => data_dir_from(match parent { Some(p) => Some(p@), None => None }, log_path@) == Some(s@),
            None => data_dir_from(match parent { Some(p) => Some(p@), None => None }, log_path@) is None,
        },
{
    if let Some(value) = parent {
        if value.unicode_len() > 0 {
            return Some(value);
        }
    }
    if let Some(value) = strip_suffix(log_path, "\\taurhaus.log.jsonl") {
        return Some(value);
    }
    strip_suffix(log_path, "/taurhaus.log.jsonl")
}

/// The data directory of a daemon launch: the log file's directory.
pub fn daemon_data_dir_raw(log_path: &str) -> (r: Option<String>)
    ensures
        match r {
            Some(s) => data_dir_from(std_path_parent(log_path@), log_path@) == Some(s@),
            None => data_dir_from(std_path_parent(log_path@), log_path@) is None,
        },
{
    let parent = path_parent(log_path);
    daemon_data_dir_from_parent(parent, log_path)
}

/// The data directory handed to a daemon launch, given the directory found
/// for the log file: as it is for a native daemon; for a WSL daemon, mapped
/// into WSL when it is a Windows drive path, as it is otherwise.
pub open spec fn launch_data_dir(raw: Option<Seq<char>>, daemon_is_native: bool) -> Option<Seq<char>> {
    match raw {
        None => None,
        Some(r) => if daemon_is_native {
            Some(r)
        } else {
            match linux_path_of(r) {
                Some(l) => Some(l),
                None => Some(r),
            }
        },
    }
}

/// The value of the data-directory variable a daemon is launched with.
pub fn daemon_data_dir_env_value_for_launch(log_path: &str, daemon_is_native: bool) -> (r: Option<String>)
    ensures
        ({
            let raw = data_dir_from(std_path_parent(log_path@), log_path@);
            match r {
                Some(s) => launch_data_dir(raw, daemon_is_native) == Some(s@),
                None => launch_data_dir(raw, daemon_is_native) is None,
            }
        }),
{
    let raw = match daemon_data_dir_raw(log_path) {
        Some(raw) => raw,
        None => {
            return None;
        },
    };
    if daemon_is_native {
        return Some(raw);
    }
    match to_linux(raw.as_str()) {
        Some(l) => Some(l),
        None => Some(raw),
    }
}


/// The decimal digits of a number, most significant first.
pub open spec fn decimal_digits(n: nat) -> Seq<char>
    decreases n,
{
    if n < 10 {
        seq![(('0' as u32) + n) as char]
    } else {
        decimal_digits(n / 10) + seq![(('0' as u32) + (n % 10)) as char]
    }
}

/// A number in decimal, as `to_string` writes it.
pub fn decimal_text(n: u64) -> (r: String)
    ensures
        r@ == decimal_digits(n as nat),
    decreases n,
{
    let digit: u32 = (n % 10) as u32;
    let c = char_of_digit(digit);
    if n < 10 {
        let mut out = String::new();
        push_char(&mut out, c);
        assert(out@ =~= seq![c]);
        out
    } else {
        let mut out = decimal_text(n / 10);
        push_char(&mut out, c);
        out
    }
}

/// A port number in decimal, as `u16::to_string` writes it.
pub fn port_text(port: u16) -> (r: String)
    ensures
        r@ == decimal_digits(port as nat),
{
    decimal_text(port as u64)
}

/// The character of a decimal digit.
fn char_of_digit(d: u32) -> (r: char)
    requires
        d < 10,
    ensures
        r == (('0' as u32) + d) as char,
{
    let b: u8 = 48u8 + (d as u8);
    b as char
}

/// Where the daemon binary is installed under a native home directory.
pub fn native_daemon_binary_path(home: &str) -> (r: String)
    ensures
        r@ == joined(home@, ".local/bin/taurhaus-daemon"@),
{
    join_path(home, ".local/bin/taurhaus-daemon")
}

/// Where the daemon binary is installed under a WSL home directory.
pub fn wsl_daemon_binary_path(home: &str) -> (r: String)
    ensures
        r@ == home@ + "/.local/bin/taurhaus-daemon"@,
{
    let mut out = String::from_str(home);
    out.append("/.local/bin/taurhaus-daemon");
    out
}

/// The WSL home directory `echo $HOME` printed: its trimmed output, refused
/// when blank.
pub fn wsl_home_from_output(stdout: &str) -> (r: Result<String, String>)
    ensures
        match r {
            Ok(h) => h@ == trimmed(stdout@) && h@.len() > 0,
            Err(e) => trimmed(stdout@).len() == 0 && e@ == "WSL $HOME is empty"@,
        },
{
    let home = trim_string(stdout);
    if home.unicode_len() == 0 {
        Err(String::from_str("WSL $HOME is empty"))
    } else {
        Ok(home)
    }
}

/// Whether the daemon process's executable, as `/proc` shows it, is a
/// binary that has since been deleted (replaced on disk).
pub fn running_binary_was_deleted(running_exe: &str) -> (r: bool)
    ensures
        r == ends_with(running_exe@, " (deleted)"@),
{
    match strip_suffix(running_exe, " (deleted)") {
        Some(_) => true,
        None => false,
    }
}

/// Whether the running daemon's binary is stale against the installed one:
/// it was deleted; otherwise, when both files' identities (device, inode)
/// could be read, they differ; otherwise their canonical paths differ.
pub fn startup_binary_is_stale(
    running_exe: &str,
    identities: Option<((u64, u64), (u64, u64))>,
    canonical_running: &str,
    canonical_expected: &str,
) -> (r: bool)
    ensures
        r == (ends_with(running_exe@, " (deleted)"@) || match identities {
            Some((running, expected)) => running != expected,
            None => canonical_running@ != canonical_expected@,
        }),
{
    if running_binary_was_deleted(running_exe) {
        return true;
    }
    match identities {
        Some((running, expected)) => running.0 != expected.0 || running.1 != expected.1,
        None => !str_eq(canonical_running, canonical_expected),
    }
}

/// The `wsl.exe` arguments that run a command line inside a distro.
pub open spec fn in_distro(distro: Seq<char>, command: Seq<Seq<char>>) -> Seq<Seq<char>> {
    seq!["-d"@, distro, "--"@] + command
}

/// A list of texts, as values.
pub open spec fn texts(v: Seq<String>) -> Seq<Seq<char>> {
    v.map_values(|s: String| s@)
}

/// `wsl.exe` arguments that run `command` inside `distro`.
fn wsl_args(distro: &str, command: Vec<String>) -> (r: Vec<String>)
    ensures
        texts(r@) == in_distro(distro@, texts(command@)),
{
    let mut out: Vec<String> = Vec::new();
    out.push(String::from_str("-d"));
    out.push(String::from_str(distro));
    out.push(String::from_str("--"));
    let ghost head = out@;
    let mut i: usize = 0;
    while i < command.len()
        invariant
            i <= command@.len(),
            out@ == head + command@.subrange(0, i as int),
            texts(head) == seq!["-d"@, distro@, "--"@],
        decreases command@.len() - i,
    {
        out.push(command[i].clone());
        assert(command@.subrange(0, i + 1) =~= command@.subrange(0, i as int).push(command@[i as int]));
        assert(head + command@.subrange(0, i + 1) =~= (head + command@.subrange(0, i as int)).push(command@[i as int]));
        i = i + 1;
    }
    assert(command@.subrange(0, command@.len() as int) =~= command@);
    assert(texts(out@) =~= in_distro(distro@, texts(command@)));
    out
}

/// The tmux command that asks whether a session exists.
pub open spec fn tmux_has_session(session_name: Seq<char>) -> Seq<Seq<char>> {
    seq!["tmux"@, "has-session"@, "-t"@, session_name]
}

/// The tmux command that creates a detached session.
pub open spec fn tmux_new_session(session_name: Seq<char>) -> Seq<Seq<char>> {
    seq!["tmux"@, "new-session"@, "-d"@, "-s"@, session_name]
}

/// The command that asks whether the tmux session exists, run natively
/// (no distro) or inside a WSL distro.
pub fn tmux_has_session_command(distro: Option<&str>, session_name: &str) -> (r: Vec<String>)
    ensures
        texts(r@) == (match distro {
            Some(d) => in_distro(d@, tmux_has_session(session_name@)),
            None => tmux_has_session(session_name@),
        }),
{
    let mut command: Vec<String> = Vec::new();
    command.push(String::from_str("tmux"));
    command.push(String::from_str("has-session"));
    command.push(String::from_str("-t"));
    command.push(String::from_str(session_name));
    assert(texts(command@) =~= tmux_has_session(session_name@));
    match distro {
        Some(d) => wsl_args(d, command),
        None => command,
    }
}

/// The command that creates the detached tmux session, run natively (no
/// distro) or inside a WSL distro.
pub fn tmux_new_session_command(distro: Option<&str>, session_name: &str) -> (r: Vec<String>)
    ensures
        texts(r@) == (match distro {
            Some(d) => in_distro(d@, tmux_new_session(session_name@)),
            None => tmux_new_session(session_name@),
        }),
{
    let mut command: Vec<String> = Vec::new();
    command.push(String::from_str("tmux"));
    command.push(String::from_str("new-session"));
    command.push(String::from_str("-d"));
    command.push(String::from_str("-s"));
    command.push(String::from_str(session_name));
    assert(texts(command@) =~= tmux_new_session(session_name@));
    match distro {
        Some(d) => wsl_args(d, command),
        None => command,
    }
}

/// The command that starts the daemon: under `env` with the data directory
/// when there is one, then the binary and its port.
pub open spec fn daemon_start_command(data_dir: Option<Seq<char>>, binary_path: Seq<char>, port: u16) -> Seq<Seq<char>> {
    let tail = seq![binary_path, "--port"@, decimal_digits(port as nat)];
    match data_dir {
        Some(d) => seq!["env"@, "TAURHAUS_DATA_DIR="@ + d] + tail,
        None => tail,
    }
}

/// The `wsl.exe` arguments that start the daemon inside a distro as a
/// direct, long-lived child: no shell, no backgrounding.
pub fn wsl_daemon_start_args(distro: &str, data_dir: Option<&str>, binary_path: &str, port: u16) -> (r: Vec<String>)
    ensures
        texts(r@) == in_distro(
            distro@,
            daemon_start_command(match data_dir { Some(d) => Some(d@), None => None }, binary_path@, port),
        ),
{
    let mut command: Vec<String> = Vec::new();
    if let Some(d) = data_dir {
        command.push(String::from_str("env"));
        let mut assignment = String::from_str("TAURHAUS_DATA_DIR=");
        assignment.append(d);
        command.push(assignment);
    }
    command.push(String::from_str(binary_path));
    command.push(String::from_str("--port"));
    command.push(port_text(port));
    assert(texts(command@) =~= daemon_start_command(
        match data_dir { Some(d) => Some(d@), None => None },
        binary_path@,
        port,
    ));
    wsl_args(distro, command)
}

} // verus!
