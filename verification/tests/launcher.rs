use taurhaus_daemon::launcher::{
    daemon_data_dir_env_value_for_launch, daemon_data_dir_raw, startup_binary_is_stale, validate_wsl_distro,
};
use taurhaus_daemon::paths::to_linux;

#[test]
fn validate_distro_accepts_valid_names() {
    assert!(validate_wsl_distro("Ubuntu").is_ok());
    assert!(validate_wsl_distro("Ubuntu-22.04").is_ok());
    assert!(validate_wsl_distro("my_distro").is_ok());
    assert!(validate_wsl_distro("Debian").is_ok());
}

#[test]
fn validate_distro_rejects_invalid_names() {
    assert!(validate_wsl_distro("").is_err());
    assert!(validate_wsl_distro("Ubuntu; rm -rf /").is_err());
    assert!(validate_wsl_distro("$(whoami)").is_err());
    assert!(validate_wsl_distro("name with spaces").is_err());
    assert!(validate_wsl_distro("dist`ro").is_err());
}

#[test]
fn an_empty_distro_name_says_so() {
    assert_eq!(validate_wsl_distro(""), Err("WSL distro name is empty".to_string()));
}

#[test]
fn daemon_data_dir_env_value_uses_parent_dir_for_native_launch() {
    let resolved = daemon_data_dir_env_value_for_launch("/tmp/taurhaus/taurhaus.log.jsonl", true);
    assert_eq!(resolved, Some("/tmp/taurhaus".to_string()));
}

#[test]
fn daemon_data_dir_env_value_converts_windows_path_for_wsl_launch() {
    let resolved = daemon_data_dir_env_value_for_launch(
        r"C:\Users\me\AppData\Roaming\com.taurhaus.dev\taurhaus.log.jsonl",
        false,
    );
    assert_eq!(resolved, Some("/mnt/c/Users/me/AppData/Roaming/com.taurhaus.dev".to_string()));
}

#[test]
fn a_bare_log_file_name_has_no_data_dir() {
    assert_eq!(daemon_data_dir_raw("other.log"), None);
    assert_eq!(daemon_data_dir_raw(""), None);
}

#[test]
fn drive_paths_map_into_wsl_mounts() {
    assert_eq!(to_linux(r"D:\work"), Some("/mnt/d/work".to_string()));
    assert_eq!(to_linux("c:/x/y"), Some("/mnt/c/x/y".to_string()));
    assert_eq!(to_linux("C:"), Some("/mnt/c".to_string()));
    assert_eq!(to_linux("/home/me"), None);
    assert_eq!(to_linux("1:\\x"), None);
}

#[test]
fn a_deleted_or_replaced_daemon_binary_is_stale() {
    assert!(startup_binary_is_stale("/home/u/.taurhaus/bin/daemon (deleted)", None, "/a", "/a"));
    assert!(startup_binary_is_stale("/bin/d", Some(((1, 2), (1, 3))), "/bin/d", "/bin/d"));
    assert!(!startup_binary_is_stale("/bin/d", Some(((1, 2), (1, 2))), "/x", "/y"));
    assert!(startup_binary_is_stale("/bin/d", None, "/bin/d", "/bin/e"));
    assert!(!startup_binary_is_stale("/bin/d", None, "/bin/d", "/bin/d"));
}
