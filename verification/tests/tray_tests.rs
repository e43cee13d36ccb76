use battery_deck::daemon::{parse_command, Command};
use battery_deck::tray::{
    action_label, after_tray_action, close_request_hides, icon_click_response, menu_id,
    tray_action_for, tray_menu, tray_task, visibility_event, ButtonState, EntryKind, IconResponse,
    MouseButton, TrayAction, TrayTask, MENU_QUIT, MENU_TOGGLE_ADAPTER, TRAY_ID,
};
use battery_deck::ui::state_changed;

const ALL: [TrayAction; 10] = [
    TrayAction::ShowWindow,
    TrayAction::ChargeToFull,
    TrayAction::ChargeToLimit,
    TrayAction::ResumeLimits,
    TrayAction::DisableCharging,
    TrayAction::ToggleAdapter,
    TrayAction::InstallService,
    TrayAction::StartService,
    TrayAction::StopService,
    TrayAction::Quit,
];

#[test]
fn menu_layout() {
    let m = tray_menu();
    assert_eq!(m.len(), 17);
    let labels: Vec<&str> = m.iter().map(|e| e.label.as_str()).collect();
    assert_eq!(
        labels,
        vec![
            "电池 Battery: --",
            "模式 Mode: --",
            "服务 Service: --",
            "",
            "显示主窗口 / Show Window",
            "",
            "充至满电 / Charge to Full",
            "充至上限 / Charge to Limit",
            "恢复限充 / Resume Limits",
            "停止充电 / Stop Charging",
            "禁用适配器 / Disable Adapter",
            "",
            "安装特权服务 / Install Privileged Service",
            "启动服务 / Start Service",
            "停止服务 / Stop Service",
            "",
            "退出应用 / Quit",
        ]
    );
    assert_eq!(m[0].kind, EntryKind::Summary);
    assert!(!m[0].enabled);
    assert_eq!(m[3].kind, EntryKind::Separator);
    assert_eq!(m[10].kind, EntryKind::Action(TrayAction::ToggleAdapter));
    assert!(m[10].enabled);
    assert_eq!(m[16].kind, EntryKind::Action(TrayAction::Quit));
    assert_eq!(m.iter().filter(|e| e.enabled).count(), 10);
}

#[test]
fn menu_ids_route_back() {
    for a in ALL {
        assert_eq!(tray_action_for(menu_id(a)), Some(a));
    }
    assert_eq!(menu_id(TrayAction::ToggleAdapter), "tray.toggle_adapter");
    assert_eq!(MENU_TOGGLE_ADAPTER, "tray.toggle_adapter");
    assert_eq!(tray_action_for(MENU_QUIT), Some(TrayAction::Quit));
    assert_eq!(tray_action_for("tray.unknown"), None);
    assert_eq!(tray_action_for(TRAY_ID), None);
    assert_eq!(action_label(TrayAction::Quit), "退出应用 / Quit");
}

#[test]
fn tray_tasks() {
    assert_eq!(tray_task(TrayAction::ShowWindow, false), TrayTask::ShowWindow);
    assert_eq!(tray_task(TrayAction::ChargeToFull, false), TrayTask::SendCommand("charge_to_full"));
    assert_eq!(tray_task(TrayAction::ChargeToLimit, true), TrayTask::SendCommand("charge_to_limit"));
    assert_eq!(tray_task(TrayAction::ResumeLimits, false), TrayTask::SendCommand("reset_charge_mode"));
    assert_eq!(tray_task(TrayAction::DisableCharging, false), TrayTask::SendCommand("disable_charging"));
    assert_eq!(tray_task(TrayAction::ToggleAdapter, true), TrayTask::SendCommand("enable_adapter"));
    assert_eq!(tray_task(TrayAction::ToggleAdapter, false), TrayTask::SendCommand("disable_adapter"));
    assert_eq!(tray_task(TrayAction::InstallService, false), TrayTask::InstallService);
    assert_eq!(tray_task(TrayAction::StartService, false), TrayTask::StartService);
    assert_eq!(tray_task(TrayAction::StopService, false), TrayTask::StopService);
    assert_eq!(tray_task(TrayAction::Quit, false), TrayTask::Quit);
}

#[test]
fn tray_commands_reach_helper() {
    let expect = |a: TrayAction, disabled: bool| match tray_task(a, disabled) {
        TrayTask::SendCommand(c) => parse_command(c),
        _ => panic!("no command"),
    };
    assert!(matches!(expect(TrayAction::ChargeToFull, false), Command::ChargeToFull));
    assert!(matches!(expect(TrayAction::ChargeToLimit, false), Command::ChargeToLimit));
    assert!(matches!(expect(TrayAction::ResumeLimits, false), Command::ResetChargeMode));
    assert!(matches!(expect(TrayAction::DisableCharging, false), Command::DisableCharging));
    assert!(matches!(expect(TrayAction::ToggleAdapter, true), Command::EnableAdapter));
    assert!(matches!(expect(TrayAction::ToggleAdapter, false), Command::DisableAdapter));
}

#[test]
fn icon_clicks() {
    assert_eq!(icon_click_response(MouseButton::Left, ButtonState::Up), Some(IconResponse::ShowWindow));
    assert_eq!(icon_click_response(MouseButton::Right, ButtonState::Down), Some(IconResponse::RefreshMenu));
    assert_eq!(icon_click_response(MouseButton::Left, ButtonState::Down), None);
    assert_eq!(icon_click_response(MouseButton::Right, ButtonState::Up), None);
    assert_eq!(icon_click_response(MouseButton::Middle, ButtonState::Up), None);
}

#[test]
fn follow_ups_and_window() {
    let ok = after_tray_action(Ok(()));
    assert!(ok.refresh_window && !ok.show_window && ok.error.is_none());
    let err = after_tray_action(Err("Helper is not running".to_string()));
    assert!(!err.refresh_window && err.show_window);
    assert_eq!(err.error.as_deref(), Some("Helper is not running"));
    assert_eq!(visibility_event(false, true), Some(true));
    assert_eq!(visibility_event(true, true), None);
    assert_eq!(visibility_event(true, false), Some(false));
    assert_eq!(visibility_event(false, false), None);
    assert!(close_request_hides(false));
    assert!(!close_request_hides(true));
}

#[test]
fn poll_changes() {
    let s = "{\"charge_percent\":57}".to_string();
    assert!(state_changed(&None, &s));
    assert!(!state_changed(&Some(s.clone()), &s));
    assert!(state_changed(&Some("{\"charge_percent\":58}".to_string()), &s));
}
