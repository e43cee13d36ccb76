use battery_deck::battery::{BatteryState, ChargeMode, ServiceStatus, Settings};
use battery_deck::ui::{
    bilingual_label, build_battery_state_with_cache, charging_label, fallback_helper_state,
    mode_label, poll_sleep_secs, service_label, tray_model,
};
use battery_deck::update::{
    begin_check, begin_download, check_found, check_none, check_not_configured, clear_badge,
    config_is_ready, download_not_configured, download_progress, finish_download, initialize,
    UpdateState, UpdateStatus, start_check, finish_check, start_download, download_event,
    CheckAnswer, DownloadEvent, UpdaterStep,
};

fn battery(charging_disabled: bool, power_disabled: bool, is_charging: bool, is_plugged: bool) -> BatteryState {
    let hs = fallback_helper_state(Settings::default(), None);
    let mut s = build_battery_state_with_cache(Some((57, is_charging)), is_plugged, &hs);
    s.charging_disabled = charging_disabled;
    s.power_disabled = power_disabled;
    s
}

#[test]
fn labels() {
    assert_eq!(bilingual_label("标准", "Standard"), "标准 / Standard");
    assert_eq!(mode_label(ChargeMode::ToLimit), "充至上限 / Charge to Limit");
    assert_eq!(charging_label(&battery(true, true, true, true)), "已停止 / Stopped");
    assert_eq!(charging_label(&battery(false, true, true, true)), "适配器已关闭 / Adapter Off");
    assert_eq!(charging_label(&battery(false, false, true, true)), "充电中 / Charging");
    assert_eq!(charging_label(&battery(false, false, false, true)), "已接通电源 / Plugged In");
    assert_eq!(charging_label(&battery(false, false, false, false)), "使用电池 / On Battery");
    let b = battery(false, false, false, false);
    let status = |installed, running, control| ServiceStatus { installed, running, control_available: control, last_error: None };
    assert_eq!(service_label(&b, &status(true, true, true)), "就绪 / Ready");
    assert_eq!(service_label(&b, &status(true, true, false)), "设备不支持 / Unsupported Device");
    assert_eq!(service_label(&b, &status(true, false, false)), "已安装，已停止 / Installed, Stopped");
    assert_eq!(service_label(&b, &status(false, false, false)), "未安装 / Not Installed");
}

#[test]
fn battery_state_and_tray() {
    let hs = fallback_helper_state(Settings::default(), Some("down".into()));
    let s = build_battery_state_with_cache(None, true, &hs);
    assert_eq!(s.charge_percent, 0);
    assert!(s.enabled && s.connected && s.is_plugged && !s.is_charging);
    assert_eq!((s.min_charge, s.max_charge), (40, 80));
    assert_eq!(s.last_error, Some("down".to_string()));
    let status = ServiceStatus { installed: true, running: false, control_available: false, last_error: None };
    let m = tray_model(&s, &status);
    assert_eq!(m.battery_text, "电池 Battery: 0% (已接通电源 / Plugged In)");
    assert_eq!(m.mode_text, "模式 Mode: 标准 / Standard");
    assert_eq!(m.service_text, "服务 Service: 已安装，已停止 / Installed, Stopped");
    assert!(!m.control_enabled && m.start_enabled && !m.stop_enabled);
    assert_eq!(m.adapter_text, "禁用适配器 / Disable Adapter");
    assert_eq!(poll_sleep_secs(true), 5);
    assert_eq!(poll_sleep_secs(false), 60);
}

#[test]
fn updater_config() {
    assert!(config_is_ready(Some(" key "), Some(1)));
    assert!(!config_is_ready(Some("  "), Some(1)));
    assert!(!config_is_ready(Some("key"), Some(0)));
    assert!(!config_is_ready(None, Some(2)));
}

#[test]
fn update_check_lifecycle() {
    let mut state = UpdateState::default();
    initialize(&mut state.inner, "1.2.0", true);
    assert_eq!(state.inner.current_version, "1.2.0");
    let mut s = UpdateStatus::default();
    s.update_available = true;
    begin_check(&mut s, "1.2.0", false);
    assert!(!s.update_available && !s.checking);
    check_not_configured(&mut s);
    assert_eq!(s.error, Some("Updater is not configured yet.".to_string()));
    begin_check(&mut s, "1.2.0", true);
    assert!(s.checking && s.error.is_none());
    check_found(&mut s, "1.3.0".into(), Some("notes".into()), None, true);
    assert!(s.update_available && s.startup_badge_visible && !s.checking);
    assert_eq!(s.latest_version, Some("1.3.0".to_string()));
    clear_badge(&mut s);
    assert!(!s.startup_badge_visible);
    check_none(&mut s);
    assert!(!s.update_available && s.latest_version.is_none());
}

#[test]
fn update_download_lifecycle() {
    let mut s = UpdateStatus::default();
    download_not_configured(&mut s);
    assert_eq!(s.error, Some("Updater is not configured yet.".to_string()));
    begin_download(&mut s);
    assert!(s.download_in_progress && s.error.is_none());
    download_progress(&mut s, 100, Some(300));
    download_progress(&mut s, 200, Some(300));
    assert_eq!(s.downloaded_bytes, 300);
    assert_eq!(s.content_length, Some(300));
    finish_download(&mut s);
    assert!(s.ready_to_install && !s.download_in_progress);
}

#[test]
fn badge_only_for_available_update() {
    let mut s = UpdateStatus::default();
    begin_check(&mut s, "1.0.0", true);
    check_found(&mut s, "1.1.0".to_string(), None, None, true);
    assert!(s.startup_badge_visible && s.update_available);
    begin_check(&mut s, "1.0.0", true);
    check_none(&mut s);
    assert!(!s.startup_badge_visible && !s.update_available);
    check_found(&mut s, "1.1.0".to_string(), None, None, true);
    begin_check(&mut s, "1.0.0", false);
    assert!(!s.startup_badge_visible && !s.update_available);
}

#[test]
fn updater_sequences() {
    let mut s = UpdateStatus::default();
    assert!(matches!(start_check(&mut s, "1.0.0", false), UpdaterStep::Done(Ok(()))));
    assert_eq!(s.error.as_deref(), Some("Updater is not configured yet."));
    assert!(!s.checking);
    assert!(matches!(start_check(&mut s, "1.0.0", true), UpdaterStep::AskUpdater));
    assert!(s.checking && s.error.is_none());
    assert_eq!(finish_check(&mut s, CheckAnswer::Failed("offline".to_string()), false), Err("offline".to_string()));
    assert!(s.checking);
    let found = CheckAnswer::Found { version: "1.1.0".to_string(), notes: Some("fixes".to_string()), published_at: None };
    assert_eq!(finish_check(&mut s, found, true), Ok(()));
    assert!(!s.checking && s.update_available && s.startup_badge_visible);
    assert_eq!(s.latest_version.as_deref(), Some("1.1.0"));
    assert!(matches!(start_download(&mut s, true), UpdaterStep::AskUpdater));
    assert!(matches!(download_event(&mut s, DownloadEvent::Chunk(100, Some(300))), UpdaterStep::AskUpdater));
    assert!(matches!(download_event(&mut s, DownloadEvent::Chunk(200, Some(300))), UpdaterStep::AskUpdater));
    assert_eq!((s.downloaded_bytes, s.content_length), (300, Some(300)));
    assert!(matches!(download_event(&mut s, DownloadEvent::Installed), UpdaterStep::Done(Ok(()))));
    assert!(s.ready_to_install && !s.download_in_progress && !s.startup_badge_visible);
    assert!(matches!(start_download(&mut s, true), UpdaterStep::AskUpdater));
    match download_event(&mut s, DownloadEvent::NoUpdate) {
        UpdaterStep::Done(Err(m)) => assert_eq!(m, "No update is currently available."),
        other => panic!("unexpected {:?}", other),
    }
    assert!(s.download_in_progress);
    let mut t = UpdateStatus::default();
    assert!(matches!(start_download(&mut t, false), UpdaterStep::Done(Ok(()))));
    assert_eq!(t.error.as_deref(), Some("Updater is not configured yet."));
}
