//! Daemon authentication: the shared token between the daemon and the app.
//!
//! On startup the daemon makes a random 32-byte token, writes it hex-encoded
//! under its data root, and checks it on every request. The app reads the
//! token file when it connects.

use vstd::prelude::*;
use crate::paths::{join_path, joined};
use crate::text::{push_char, trim_string, trimmed};

verus! {

/// `Missing auth token` when a request carries none, `Invalid auth token`
/// when it carries another one.
pub open spec fn token_check(expected: Seq<char>, provided: Option<Seq<char>>) -> Result<(), Seq<char>> {
    match provided {
        None => Err("Missing auth token"@),
        Some(p) => if p == expected {
            Ok(())
        } else {
            Err("Invalid auth token"@)
        },
    }
}

/// Validate a provided token against the expected one. The bytes are
/// compared in constant time: every byte pair is looked at whatever the
/// earlier ones were.
pub fn validate_token(expected: &str, provided: Option<&str>) -> (r: Result<(), String>)
    ensures
        match (r, token_check(expected@, match provided { Some(p) => Some(p@), None => None })) {
            (Ok(()), Ok(())) => true,
            (Err(e), Err(m)) => e@ == m,
            _ => false,
        },
{
    let provided = match provided {
        Some(p) => p,
        None => {
            return Err(String::from_str("Missing auth token"));
        },
    };
    let e = expected.as_bytes();
    let p = provided.as_bytes();
    if e.len() != p.len() {
        proof {
            if expected@ == provided@ {
                assert(e@ == p@);
            }
        }
        return Err(String::from_str("Invalid auth token"));
    }
    let mut mismatch: u8 = 0;
    let mut i: usize = 0;
    while i < e.len()
        invariant
            e@.len() == p@.len(),
            i <= e@.len(),
            (mismatch == 0) <==> (forall|j: int| 0 <= j < i ==> e@[j] == p@[j]),
        decreases e@.len() - i,
    {
        let a = e[i];
        let b = p[i];
        let next = mismatch | (a ^ b);
        assert((next == 0u8) <==> (mismatch == 0u8 && a == b)) by (bit_vector)
            requires
                next == mismatch | (a ^ b),
        ;
        mismatch = next;
        i = i + 1;
    }
    proof {
        broadcast use vstd::utf8::encode_utf8_decode_utf8;
        if mismatch == 0 {
            assert(e@ =~= p@);
            assert(expected@ == vstd::utf8::decode_utf8(vstd::utf8::encode_utf8(expected@)));
            assert(provided@ == vstd::utf8::decode_utf8(vstd::utf8::encode_utf8(provided@)));
        }
    }
    if mismatch == 0 {
        Ok(())
    } else {
        Err(String::from_str("Invalid auth token"))
    }
}

/// The token file under an app data root.
pub fn token_path(app_data_root: &str) -> (r: Option<String>)
    ensures
        r matches Some(p) && p@ == joined(app_data_root@, "daemon.token"@),
{
    Some(join_path(app_data_root, "daemon.token"))
}

/// The token a token file holds: its text without surrounding whitespace.
pub fn token_from_contents(contents: &str) -> (r: String)
    ensures
        r@ == trimmed(contents@),
{
    trim_string(contents)
}

/// The token a WSL read printed, if it printed one: none for blank output.
pub fn token_from_wsl_output(stdout: &str) -> (r: Option<String>)
    ensures
        match r {
            Some(t) => t@ == trimmed(stdout@) && t@.len() > 0,
            None => trimmed(stdout@).len() == 0,
        },
{
    let token = trim_string(stdout);
    if token.unicode_len() == 0 {
        None
    } else {
        Some(token)
    }
}

/// The text of one character inside a single-quoted shell word: a single
/// quote closes the word, adds a double-quoted quote and reopens it.
pub open spec fn quoted_piece(c: char) -> Seq<char> {
    if c == '\'' {
        seq!['\'', '"', '\'', '"', '\'']
    } else {
        seq![c]
    }
}

/// `s` made safe inside a single-quoted shell word.
pub open spec fn single_quote_body(s: Seq<char>) -> Seq<char>
    decreases s.len(),
{
    if s.len() == 0 {
        s
    } else {
        single_quote_body(s.drop_last()) + quoted_piece(s.last())
    }
}

/// `s` made safe inside a single-quoted shell word.
pub fn escape_single_quotes(s: &str) -> (r: String)
    ensures
        r@ == single_quote_body(s@),
{
    let n = s.unicode_len();
    let mut out = String::new();
    let mut i: usize = 0;
    while i < n
        invariant
            n == s@.len(),
            i <= n,
            out@ == single_quote_body(s@.subrange(0, i as int)),
        decreases n - i,
    {
        let c = s.get_char(i);
        let ghost before = out@;
        if c == '\'' {
            push_char(&mut out, '\'');
            push_char(&mut out, '"');
            push_char(&mut out, '\'');
            push_char(&mut out, '"');
            push_char(&mut out, '\'');
        } else {
            push_char(&mut out, c);
        }
        assert(out@ =~= before + quoted_piece(c));
        assert(s@.subrange(0, i + 1).drop_last() =~= s@.subrange(0, i as int));
        i = i + 1;
    }
    assert(s@.subrange(0, n as int) =~= s@);
    out
}

/// The shell script that prints the daemon token from inside WSL: the token
/// under the data directory the daemon was handed, then the legacy one.
pub open spec fn wsl_token_script_of(daemon_data_dir: Seq<char>) -> Seq<char> {
    "cat '"@ + single_quote_body(joined(daemon_data_dir, "daemon.token"@))
        + "' 2>/dev/null || cat \"$HOME/.local/share/taurhaus/daemon.token\" 2>/dev/null"@
}

/// The script a WSL token read runs.
pub fn wsl_token_read_script(daemon_data_dir: &str) -> (r: String)
    ensures
        r@ == wsl_token_script_of(daemon_data_dir@),
{
    let canonical = join_path(daemon_data_dir, "daemon.token");
    let escaped = escape_single_quotes(canonical.as_str());
    let mut script = String::from_str("cat '");
    script.append(escaped.as_str());
    script.append("' 2>/dev/null || cat \"$HOME/.local/share/taurhaus/daemon.token\" 2>/dev/null");
    script
}

/// The lowercase hexadecimal digit of a value below 16.
pub open spec fn hex_digit(n: int) -> char {
    if n < 10 {
        (('0' as u32) + n) as char
    } else {
        (('a' as u32) + n - 10) as char
    }
}

/// Bytes as lowercase hexadecimal, two digits per byte, high half first.
pub open spec fn hex_encoding(bytes: Seq<u8>) -> Seq<char>
    decreases bytes.len(),
{
    if bytes.len() == 0 {
        Seq::empty()
    } else {
        hex_encoding(bytes.drop_last()) + seq![hex_digit((bytes.last() / 16) as int), hex_digit((bytes.last() % 16) as int)]
    }
}

/// `hex::encode`: each byte as two lowercase hexadecimal digits, the high
/// half first (hex maps `byte >> 4` and `byte & 0x0F` through
/// `0123456789abcdef`).
#[verifier::external_body]
fn hex_encode(bytes: &Vec<u8>) -> (r: String)
    ensures
        r@ == hex_encoding(bytes@),
{
    hex::encode(bytes)
}

/// `rand::thread_rng().gen::<[u8; 32]>()`: 32 random bytes. Which bytes is
/// chance and is not stated.
#[verifier::external_body]
fn random_token_bytes() -> (r: Vec<u8>)
    ensures
        r@.len() == 32,
{
    let mut rng = rand::thread_rng();
    let bytes: [u8; 32] = rand::Rng::gen(&mut rng);
    bytes.to_vec()
}

/// A hex encoding is two digits per byte, each a lowercase hex digit.
pub proof fn lemma_hex_encoding_shape(bytes: Seq<u8>)
    ensures
        hex_encoding(bytes).len() == 2 * bytes.len(),
        forall|i: int| 0 <= i < hex_encoding(bytes).len() ==> #[trigger] crate::ids::is_lower_hex(hex_encoding(bytes)[i]),
    decreases bytes.len(),
{
    if bytes.len() > 0 {
        lemma_hex_encoding_shape(bytes.drop_last());
        let h = hex_encoding(bytes);
        let prev = hex_encoding(bytes.drop_last());
        let hi = bytes.last() / 16;
        let lo = bytes.last() % 16;
        assert(crate::ids::is_lower_hex(hex_digit(hi as int)));
        assert(crate::ids::is_lower_hex(hex_digit(lo as int)));
        assert forall|i: int| 0 <= i < h.len() implies #[trigger] crate::ids::is_lower_hex(h[i]) by {
            if i < prev.len() {
                assert(h[i] == prev[i]);
            }
        }
    }
}

/// A fresh daemon token: 32 random bytes, hex-encoded.
pub fn generate_token() -> (r: String)
    ensures
        exists|bytes: Seq<u8>| bytes.len() == 32 && r@ == #[trigger] hex_encoding(bytes),
        r@.len() == 64,
        forall|i: int| 0 <= i < 64 ==> #[trigger] crate::ids::is_lower_hex(r@[i]),
{
    let bytes = random_token_bytes();
    let token = hex_encode(&bytes);
    proof {
        lemma_hex_encoding_shape(bytes@);
    }
    token
}


/// The token the app uses, from what each place it looks gave, in order:
/// the token file under the data root it handed the daemon, then the legacy
/// token file, then (a Windows app with a WSL daemon) the token read inside
/// WSL. A file that could be read yields its trimmed text; the WSL read
/// yields its trimmed output when that is not blank, and is not tried for a
/// distro name that is not a safe one.
pub open spec fn auth_token_from(
    wsl_distro: Option<Seq<char>>,
    canonical_file: Option<Seq<char>>,
    legacy_file: Option<Seq<char>>,
    wsl_output: Option<Seq<char>>,
) -> Option<Seq<char>> {
    if canonical_file is Some {
        Some(trimmed(canonical_file->Some_0))
    } else if legacy_file is Some {
        Some(trimmed(legacy_file->Some_0))
    } else if wsl_distro is Some && !crate::launcher::distro_name_ok(wsl_distro->Some_0) {
        None
    } else if wsl_output is Some && trimmed(wsl_output->Some_0).len() > 0 {
        Some(trimmed(wsl_output->Some_0))
    } else {
        None
    }
}

/// Read the daemon's auth token for a runtime context, given what the token
/// files held (none when unreadable) and what the WSL read printed (none when
/// it failed or was not made).
pub fn read_auth_token_for_distro(
    wsl_distro: Option<&str>,
    canonical_file: Option<String>,
    legacy_file: Option<String>,
    wsl_output: Option<String>,
) -> (r: Option<String>)
    ensures
        ({
            let v = |o: Option<String>| match o { Some(s) => Some(s@), None => None };
            match r {
                Some(t) => auth_token_from(
                    match wsl_distro { Some(d) => Some(d@), None => None },
                    v(canonical_file),
                    v(legacy_file),
                    v(wsl_output),
                ) == Some(t@),
                None => auth_token_from(
                    match wsl_distro { Some(d) => Some(d@), None => None },
                    v(canonical_file),
                    v(legacy_file),
                    v(wsl_output),
                ) is None,
            }
        }),
{
    if let Some(contents) = canonical_file {
        return Some(token_from_contents(contents.as_str()));
    }
    if let Some(contents) = legacy_file {
        return Some(token_from_contents(contents.as_str()));
    }
    if let Some(distro) = wsl_distro {
        if crate::launcher::validate_wsl_distro(distro).is_err() {
            return None;
        }
    }
    match wsl_output {
        Some(out) => token_from_wsl_output(out.as_str()),
        None => None,
    }
}

/// Read the daemon's auth token for the default runtime context.
pub fn read_auth_token(canonical_file: Option<String>, legacy_file: Option<String>, wsl_output: Option<String>) -> (r: Option<
    String,
>)
    ensures
        ({
            let v = |o: Option<String>| match o { Some(s) => Some(s@), None => None };
            match r {
                Some(t) => auth_token_from(None, v(canonical_file), v(legacy_file), v(wsl_output)) == Some(t@),
                None => auth_token_from(None, v(canonical_file), v(legacy_file), v(wsl_output)) is None,
            }
        }),
{
    read_auth_token_for_distro(None, canonical_file, legacy_file, wsl_output)
}

} // verus!
