use taurhaus_daemon::background_scheduler::LaunchSettingsStore;
use taurhaus_daemon::models::CliCommandSettings;
use taurhaus_daemon::protocol::CoordinationPutLaunchSettingsParams;

fn settings(version: u64, base: &str) -> CoordinationPutLaunchSettingsParams {
    let mut cli_commands = CliCommandSettings::default();
    cli_commands.claude.resume = base.to_string();
    CoordinationPutLaunchSettingsParams { version, cli_commands, tmux_layout: "new_window".to_string() }
}

#[test]
fn launch_settings_snapshot_is_highest_version_wins() {
    let mut store = LaunchSettingsStore::default();

    let first = store.put(settings(7, "claude2 --resume"));
    let stale = store.put(settings(6, "claude1 --resume"));
    let snapshot = store.get().expect("newest snapshot retained");

    assert!(first.accepted);
    assert!(!stale.accepted);
    assert_eq!(stale.version, 7);
    assert_eq!(snapshot.version, 7);
    assert_eq!(snapshot.cli_commands.claude.resume, "claude2 --resume");
}

#[test]
fn an_equal_version_replaces_the_kept_snapshot() {
    let mut store = LaunchSettingsStore::default();
    assert!(store.get().is_none());
    store.put(settings(3, "a"));
    let again = store.put(settings(3, "b"));
    assert!(again.accepted);
    assert_eq!(again.version, 3);
    assert_eq!(store.get().unwrap().cli_commands.claude.resume, "b");
}
