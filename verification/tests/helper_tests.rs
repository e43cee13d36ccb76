use battery_deck::helper::{
    acquire_connection, authorized_client_uid, check_peer_access, clear_helper_logs,
    command_log_line, format_epoch_timestamp, format_log_timestamp, helper_bin_path, helper_log_path,
    helper_logs, helper_pid, helper_pid_path, helper_root, helper_stderr_log_path,
    helper_stdout_log_path, home_dir, is_transient_resource_error, join_path, launch_agent_path,
    launch_daemon_path, log_entry, release_connection, runtime_path, settings_path,
    should_log_rejection, socket_path, system_helper_bin_path, system_helper_root,
};

#[test]
fn paths() {
    assert_eq!(socket_path(), "/tmp/battery-toolkit/com.smallshow.battery-toolkit-helper.sock");
    assert_eq!(helper_pid_path(), "/tmp/battery-toolkit/com.smallshow.battery-toolkit-helper.pid");
    assert_eq!(helper_log_path(), "/tmp/battery-toolkit/com.smallshow.battery-toolkit-helper.log");
    assert_eq!(helper_stdout_log_path(), "/tmp/battery-toolkit/com.smallshow.battery-toolkit-helper.stdout.log");
    assert_eq!(helper_stderr_log_path(), "/tmp/battery-toolkit/com.smallshow.battery-toolkit-helper.stderr.log");
    assert_eq!(system_helper_root(), "/Library/Application Support/BatteryToolkit");
    assert_eq!(system_helper_bin_path(), "/Library/Application Support/BatteryToolkit/bin/battery-helper");
    assert_eq!(helper_root(true, "/Users/a/.local/share/battery-toolkit"), "/Library/Application Support/BatteryToolkit");
    assert_eq!(helper_root(false, "/Users/a/.local/share/battery-toolkit"), "/Users/a/.local/share/battery-toolkit");
    assert_eq!(helper_bin_path("/Users/a/x/"), "/Users/a/x/bin/battery-helper");
    assert_eq!(settings_path(false, "/Users/a/.config/battery-toolkit"), "/Users/a/.config/battery-toolkit/settings.json");
    assert_eq!(settings_path(true, "/ignored"), "/Library/Application Support/BatteryToolkit/settings.json");
    assert_eq!(runtime_path("/r"), "/r/state.json");
    assert_eq!(launch_agent_path("/Users/a"), "/Users/a/Library/LaunchAgents/com.smallshow.battery-toolkit-helper.plist");
    assert_eq!(launch_daemon_path(), "/Library/LaunchDaemons/com.smallshow.battery-toolkit-helper.plist");
    assert_eq!(home_dir(Some("/Users/a")), "/Users/a");
    assert_eq!(home_dir(None), "/tmp");
    assert_eq!(join_path("", "a"), "a");
    assert_eq!(join_path("/", "a"), "/a");
}

#[test]
fn access_rules() {
    assert_eq!(authorized_client_uid(0, Some(501)), 501);
    assert_eq!(authorized_client_uid(0, None), 0);
    assert_eq!(authorized_client_uid(501, Some(502)), 501);
    assert!(check_peer_access(0, 501).is_ok());
    assert!(check_peer_access(501, 501).is_ok());
    assert_eq!(check_peer_access(502, 501), Err("Access denied: peer uid 502 != owner uid 501".to_string()));
}

#[test]
fn connection_limit() {
    assert_eq!(acquire_connection(0), Some(1));
    assert_eq!(acquire_connection(15), Some(16));
    assert_eq!(acquire_connection(16), None);
    assert_eq!(release_connection(16), 15);
    assert!(should_log_rejection(None));
    assert!(!should_log_rejection(Some(29_999)));
    assert!(should_log_rejection(Some(30_000)));
}

#[test]
fn command_logging() {
    assert_eq!(command_log_line("ping", None), None);
    assert_eq!(command_log_line("get_state", None), None);
    assert_eq!(command_log_line("set_settings", None), Some("[command] set_settings".to_string()));
    assert_eq!(command_log_line("ping", Some("x")), Some("[command] ping: x".to_string()));
    assert_eq!(command_log_line("ping", Some("")), Some("[command] ping".to_string()));
}

#[test]
fn transient_errors() {
    assert!(is_transient_resource_error("Resource temporarily unavailable (os error 35)"));
    assert!(is_transient_resource_error("os error 35"));
    assert!(!is_transient_resource_error("SMC WriteKey failed"));
}

#[test]
fn log_tail() {
    let lines: Vec<String> = vec!["a".into(), "b".into(), "c".into()];
    assert_eq!(helper_logs(&lines, 2), "b\nc");
    assert_eq!(helper_logs(&lines, 10), "a\nb\nc");
    assert_eq!(helper_logs(&lines, 0), "");
}

#[test]
fn pid_file() {
    assert_eq!(helper_pid(Some("1234\n")), Some(1234));
    assert_eq!(helper_pid(Some("abc")), None);
    assert_eq!(helper_pid(None), None);
}

#[test]
fn clearing_logs() {
    assert!(clear_helper_logs(Ok(()), false, false).is_ok());
    assert!(clear_helper_logs(Err("denied".into()), true, true).is_ok());
    assert_eq!(clear_helper_logs(Err("denied".into()), true, false), Err("denied".to_string()));
}

#[test]
fn timestamps() {
    assert_eq!(format_log_timestamp(124, 0, 5, 7, 8, 9, 12), "2024-01-05 07:08:09.012");
    assert_eq!(format_epoch_timestamp(1700000000, 5), "1700000000.005");
    assert_eq!(format_epoch_timestamp(10000000000, 120), "10000000000.120");
    assert_eq!(log_entry("t", "m"), "[t] m");
}
