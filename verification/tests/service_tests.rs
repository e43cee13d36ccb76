use battery_deck::battery::{ChargeMode, HelperState, Settings};
use battery_deck::service::{
    adapter_toggle_command, get_logs, get_service_status, gui_domain, gui_service,
    helper_source_bin, install_root_script, osascript_source, privileged_script, quote_applescript,
    quote_shell, reply_status, restart_root_script, start_service, stop_root_script, stop_service,
    system_plist_contents, uid_string, user_plist_contents, StartFinish, StartQuestion, StartStep,
};

#[test]
fn shell_quoting() {
    assert_eq!(quote_shell("plain"), "'plain'");
    assert_eq!(quote_shell("it's"), "'it'\"'\"'s'");
    assert_eq!(quote_shell(""), "''");
}

#[test]
fn applescript_quoting() {
    assert_eq!(quote_applescript("a\\b\"c"), "a\\\\b\\\"c");
    assert_eq!(
        osascript_source("/tmp/x y.sh"),
        "do shell script \"/bin/sh '/tmp/x y.sh'\" with administrator privileges"
    );
}

#[test]
fn property_lists() {
    let p = user_plist_contents("/Users/a/bin/battery-helper", "/Users/a/.local/share/battery-toolkit");
    assert!(p.starts_with("<?xml version=\"1.0\" encoding=\"UTF-8\"?>\n"));
    assert!(p.contains("  <string>com.smallshow.battery-toolkit-helper</string>\n"));
    assert!(p.contains("    <string>/Users/a/bin/battery-helper</string>\n"));
    assert!(p.contains("  <key>WorkingDirectory</key>\n  <string>/Users/a/.local/share/battery-toolkit</string>\n"));
    assert!(p.contains("<string>/tmp/battery-toolkit/com.smallshow.battery-toolkit-helper.stdout.log</string>"));
    assert!(p.ends_with("</dict>\n</plist>\n"));
    let s = system_plist_contents("/x");
    assert!(s.contains("<string>/Library/Application Support/BatteryToolkit</string>"));
}

#[test]
fn scripts() {
    let stop = stop_root_script();
    assert_eq!(
        stop,
        "launchctl bootout system/com.smallshow.battery-toolkit-helper >/dev/null 2>&1 || true\nrm -f '/tmp/battery-toolkit/com.smallshow.battery-toolkit-helper.sock' '/tmp/battery-toolkit/com.smallshow.battery-toolkit-helper.pid'\n"
    );
    let restart = restart_root_script();
    assert_eq!(
        restart,
        format!("{}launchctl bootstrap system '/Library/LaunchDaemons/com.smallshow.battery-toolkit-helper.plist'\n", stop)
    );
    let install = install_root_script("/Apps/x/battery-helper", "/tmp/p.plist");
    assert!(install.starts_with("mkdir -p '/Library/Application Support/BatteryToolkit'\nmkdir -p '/Library/Application Support/BatteryToolkit/bin'\ninstall -m 755 '/Apps/x/battery-helper' '/Library/Application Support/BatteryToolkit/bin/battery-helper'\n"));
    assert!(install.ends_with(&restart));
    assert_eq!(privileged_script("echo hi"), "#!/bin/sh\nset -e\necho hi\n");
}

#[test]
fn launchctl_targets() {
    assert_eq!(gui_domain("501"), "gui/501");
    assert_eq!(gui_service("501"), "gui/501/com.smallshow.battery-toolkit-helper");
    assert_eq!(uid_string(Some("501\n")), "501");
    assert_eq!(uid_string(Some("  ")), "0");
    assert_eq!(uid_string(None), "0");
}

#[test]
fn helper_binary_location() {
    assert_eq!(helper_source_bin(Some("/a/battery-helper".into())), Ok("/a/battery-helper".to_string()));
    assert_eq!(
        helper_source_bin(None),
        Err("Could not locate battery-helper binary. Build the helper target before starting the service.".to_string())
    );
}

fn helper_state(error: Option<&str>) -> HelperState {
    HelperState {
        mode: ChargeMode::Standard,
        charging_disabled: false,
        power_disabled: false,
        supported: true,
        control_available: true,
        settings: Settings::default(),
        last_error: error.map(|e| e.to_string()),
    }
}

#[test]
fn service_status() {
    let st = helper_state(Some("boom"));
    let s = get_service_status(true, Some(&st), false, false, true, false);
    assert!(s.installed && s.running && s.control_available);
    assert_eq!(s.last_error, Some("boom".to_string()));
    let s = get_service_status(false, None, false, false, false, false);
    assert!(!s.installed && !s.running && !s.control_available && s.last_error.is_none());
}

#[test]
fn logs_and_replies() {
    assert_eq!(get_logs(Ok("x".into())), Ok("x".to_string()));
    assert_eq!(get_logs(Err("No such file or directory (os error 2)".into())), Ok("--".to_string()));
    assert_eq!(get_logs(Err("Permission denied".into())), Err("Permission denied".to_string()));
    assert!(reply_status(true, None).is_ok());
    assert_eq!(reply_status(false, Some("nope".into())), Err("nope".to_string()));
    assert_eq!(reply_status(false, None), Err("Unknown helper service error".to_string()));
}

#[test]
fn stop_errors_are_joined() {
    assert!(stop_service(&vec![]).is_ok());
    assert_eq!(stop_service(&vec!["a".into(), "b".into()]), Err("a; b".to_string()));
}

fn plan(answers: &[bool]) -> StartStep {
    start_service(&answers.to_vec())
}

#[test]
fn start_sequence() {
    assert_eq!(plan(&[]), StartStep::Ask(StartQuestion::Ping));
    assert_eq!(plan(&[true]), StartStep::Finish(StartFinish::ReportStatus));
    assert_eq!(plan(&[false]), StartStep::Ask(StartQuestion::DaemonInstalled));
    assert_eq!(plan(&[false, true]), StartStep::Finish(StartFinish::RestartRootAndWait));
    assert_eq!(plan(&[false, false, false]), StartStep::Finish(StartFinish::SpawnAndWait));
    assert_eq!(plan(&[false, false, true, true, true]), StartStep::Ask(StartQuestion::WaitRunning));
    assert_eq!(plan(&[false, false, true, true, true, true]), StartStep::Finish(StartFinish::ReportWaited));
    assert_eq!(plan(&[false, false, true, true, true, false]), StartStep::Finish(StartFinish::SpawnAndWait));
}

#[test]
fn adapter_toggle() {
    assert_eq!(adapter_toggle_command(true), "enable_adapter");
    assert_eq!(adapter_toggle_command(false), "disable_adapter");
}
