use taurhaus_daemon::auth::{
    generate_token, read_auth_token, read_auth_token_for_distro, token_from_contents, token_from_wsl_output, token_path, validate_token,
    wsl_token_read_script,
};

#[test]
fn token_path_returns_some() {
    assert!(token_path("/home/user/.local/share/taurhaus").is_some());
}

#[test]
fn token_path_is_the_token_file_under_the_data_root() {
    assert_eq!(token_path("/data/root"), Some("/data/root/daemon.token".to_string()));
    assert_eq!(token_path("/data/root/"), Some("/data/root/daemon.token".to_string()));
}

#[test]
fn wsl_fallback_reads_the_passed_data_dir_before_the_legacy_path() {
    let script = wsl_token_read_script("/mnt/c/e2e root/it's isolated");
    let canonical = script.find("/mnt/c/e2e root/it").expect("passed data dir in script");
    let legacy = script
        .find("$HOME/.local/share/taurhaus/daemon.token")
        .expect("legacy fallback in script");

    assert!(script.contains("it'\"'\"'s isolated/daemon.token"));
    assert!(canonical < legacy, "canonical root must be attempted first");
}

#[test]
fn the_wsl_script_is_exactly_two_cats() {
    assert_eq!(
        wsl_token_read_script("/d"),
        "cat '/d/daemon.token' 2>/dev/null || cat \"$HOME/.local/share/taurhaus/daemon.token\" 2>/dev/null"
    );
}

#[test]
fn validate_correct_token() {
    assert!(validate_token("abc123", Some("abc123")).is_ok());
}

#[test]
fn validate_wrong_token() {
    assert!(validate_token("abc123", Some("wrong!")).is_err());
}

#[test]
fn validate_missing_token() {
    assert!(validate_token("abc123", None).is_err());
}

#[test]
fn validate_different_length() {
    assert!(validate_token("abc123", Some("abc")).is_err());
}

#[test]
fn a_refusal_says_why() {
    assert_eq!(validate_token("abc123", None), Err("Missing auth token".to_string()));
    assert_eq!(validate_token("abc123", Some("abc124")), Err("Invalid auth token".to_string()));
}

#[test]
fn a_generated_token_is_sixty_four_lowercase_hex_digits() {
    let token = generate_token();
    assert_eq!(token.len(), 64);
    assert!(token.chars().all(|c| c.is_ascii_digit() || ('a'..='f').contains(&c)));
    assert_ne!(generate_token(), token, "two tokens are two random draws");
}

#[test]
fn a_token_file_is_read_trimmed() {
    assert_eq!(token_from_contents("  abc\n"), "abc");
    assert_eq!(token_from_wsl_output("abc\r\n"), Some("abc".to_string()));
    assert_eq!(token_from_wsl_output(" \n"), None);
}

#[test]
fn the_token_comes_from_the_first_place_that_has_one() {
    assert_eq!(
        read_auth_token(Some("canon\n".to_string()), Some("legacy".to_string()), None),
        Some("canon".to_string())
    );
    assert_eq!(read_auth_token(None, Some("legacy-token\n".to_string()), None), Some("legacy-token".to_string()));
    assert_eq!(read_auth_token(None, None, Some("wsl\n".to_string())), Some("wsl".to_string()));
    assert_eq!(read_auth_token(None, None, Some("  ".to_string())), None);
    assert_eq!(read_auth_token_for_distro(Some("bad distro"), None, None, Some("wsl".to_string())), None);
    assert_eq!(
        read_auth_token_for_distro(Some("Ubuntu"), None, None, Some("wsl".to_string())),
        Some("wsl".to_string())
    );
}
