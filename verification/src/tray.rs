//! The tray: its menu, how menu and icon events are routed, and what the app
//! does after a tray action.
use vstd::prelude::*;
use vstd::string::StringExecFns;
use crate::text;
use crate::ui::{bilingual, bilingual_label};
use crate::daemon::{Command, command_named};
use crate::service::adapter_toggle_command;

verus! {

/// The tray icon's id.
pub const TRAY_ID: &'static str = "main-tray";

/// The menu item ids.
pub const MENU_SHOW_WINDOW: &'static str = "tray.show_window";
pub const MENU_CHARGE_FULL: &'static str = "tray.charge_full";
pub const MENU_CHARGE_LIMIT: &'static str = "tray.charge_limit";
pub const MENU_RESUME_LIMITS: &'static str = "tray.resume_limits";
pub const MENU_DISABLE_CHARGING: &'static str = "tray.disable_charging";
pub const MENU_TOGGLE_ADAPTER: &'static str = "tray.toggle_adapter";
pub const MENU_INSTALL_SERVICE: &'static str = "tray.install_service";
pub const MENU_START_SERVICE: &'static str = "tray.start_service";
pub const MENU_STOP_SERVICE: &'static str = "tray.stop_service";
pub const MENU_QUIT: &'static str = "tray.quit";

/// What a menu item does.
#[derive(Clone, Copy, Debug, PartialEq, Eq, Structural)]
pub enum TrayAction {
    ShowWindow,
    ChargeToFull,
    ChargeToLimit,
    ResumeLimits,
    DisableCharging,
    ToggleAdapter,
    InstallService,
    StartService,
    StopService,
    Quit,
}

/// The id of an action's menu item.
pub open spec fn action_id(a: TrayAction) -> Seq<char> {
    match a {
        TrayAction::ShowWindow => "tray.show_window"@,
        TrayAction::ChargeToFull => "tray.charge_full"@,
        TrayAction::ChargeToLimit => "tray.charge_limit"@,
        TrayAction::ResumeLimits => "tray.resume_limits"@,
        TrayAction::DisableCharging => "tray.disable_charging"@,
        TrayAction::ToggleAdapter => "tray.toggle_adapter"@,
        TrayAction::InstallService => "tray.install_service"@,
        TrayAction::StartService => "tray.start_service"@,
        TrayAction::StopService => "tray.stop_service"@,
        TrayAction::Quit => "tray.quit"@,
    }
}

/// The action whose menu item has this id, if any.
pub open spec fn action_for_id(id: Seq<char>) -> Option<TrayAction> {
    if id == "tray.show_window"@ {
        Some(TrayAction::ShowWindow)
    } else if id == "tray.charge_full"@ {
        Some(TrayAction::ChargeToFull)
    } else if id == "tray.charge_limit"@ {
        Some(TrayAction::ChargeToLimit)
    } else if id == "tray.resume_limits"@ {
        Some(TrayAction::ResumeLimits)
    } else if id == "tray.disable_charging"@ {
        Some(TrayAction::DisableCharging)
    } else if id == "tray.toggle_adapter"@ {
        Some(TrayAction::ToggleAdapter)
    } else if id == "tray.install_service"@ {
        Some(TrayAction::InstallService)
    } else if id == "tray.start_service"@ {
        Some(TrayAction::StartService)
    } else if id == "tray.stop_service"@ {
        Some(TrayAction::StopService)
    } else if id == "tray.quit"@ {
        Some(TrayAction::Quit)
    } else {
        None
    }
}

/// The id of an action's menu item.
pub fn menu_id(a: TrayAction) -> (id: &'static str)
    ensures
        id@ == action_id(a),
{
    match a {
        TrayAction::ShowWindow => MENU_SHOW_WINDOW,
        TrayAction::ChargeToFull => MENU_CHARGE_FULL,
        TrayAction::ChargeToLimit => MENU_CHARGE_LIMIT,
        TrayAction::ResumeLimits => MENU_RESUME_LIMITS,
        TrayAction::DisableCharging => MENU_DISABLE_CHARGING,
        TrayAction::ToggleAdapter => MENU_TOGGLE_ADAPTER,
        TrayAction::InstallService => MENU_INSTALL_SERVICE,
        TrayAction::StartService => MENU_START_SERVICE,
        TrayAction::StopService => MENU_STOP_SERVICE,
        TrayAction::Quit => MENU_QUIT,
    }
}

/// Routes a menu event by its id; other ids are ignored.
pub fn tray_action_for(id: &str) -> (a: Option<TrayAction>)
    ensures
        a == action_for_id(id@),
{
    if text::str_is(id, MENU_SHOW_WINDOW) {
        Some(TrayAction::ShowWindow)
    } else if text::str_is(id, MENU_CHARGE_FULL) {
        Some(TrayAction::ChargeToFull)
    } else if text::str_is(id, MENU_CHARGE_LIMIT) {
        Some(TrayAction::ChargeToLimit)
    } else if text::str_is(id, MENU_RESUME_LIMITS) {
        Some(TrayAction::ResumeLimits)
    } else if text::str_is(id, MENU_DISABLE_CHARGING) {
        Some(TrayAction::DisableCharging)
    } else if text::str_is(id, MENU_TOGGLE_ADAPTER) {
        Some(TrayAction::ToggleAdapter)
    } else if text::str_is(id, MENU_INSTALL_SERVICE) {
        Some(TrayAction::InstallService)
    } else if text::str_is(id, MENU_START_SERVICE) {
        Some(TrayAction::StartService)
    } else if text::str_is(id, MENU_STOP_SERVICE) {
        Some(TrayAction::StopService)
    } else if text::str_is(id, MENU_QUIT) {
        Some(TrayAction::Quit)
    } else {
        None
    }
}

/// Every menu item's id routes back to its own action, so no two items
/// share an id.
pub proof fn law_menu_ids_route_back(a: TrayAction)
    ensures
        action_for_id(action_id(a)) == Some(a),
{
    reveal_strlit("tray.show_window");
    reveal_strlit("tray.charge_full");
    reveal_strlit("tray.charge_limit");
    reveal_strlit("tray.resume_limits");
    reveal_strlit("tray.disable_charging");
    reveal_strlit("tray.toggle_adapter");
    reveal_strlit("tray.install_service");
    reveal_strlit("tray.start_service");
    reveal_strlit("tray.stop_service");
    reveal_strlit("tray.quit");
    assert("tray.show_window"@.len() == 16);
    assert("tray.charge_full"@.len() == 16);
    assert("tray.charge_limit"@.len() == 17);
    assert("tray.resume_limits"@.len() == 18);
    assert("tray.disable_charging"@.len() == 21);
    assert("tray.toggle_adapter"@.len() == 19);
    assert("tray.install_service"@.len() == 20);
    assert("tray.start_service"@.len() == 18);
    assert("tray.stop_service"@.len() == 17);
    assert("tray.quit"@.len() == 9);
    assert("tray.show_window"@[5] != "tray.charge_full"@[5]);
    assert("tray.charge_limit"@[5] != "tray.stop_service"@[5]);
    assert("tray.resume_limits"@[5] != "tray.start_service"@[5]);
}

/// An action's label.
pub open spec fn action_label_text(a: TrayAction) -> Seq<char> {
    match a {
        TrayAction::ShowWindow => bilingual("显示主窗口"@, "Show Window"@),
        TrayAction::ChargeToFull => bilingual("充至满电"@, "Charge to Full"@),
        TrayAction::ChargeToLimit => bilingual("充至上限"@, "Charge to Limit"@),
        TrayAction::ResumeLimits => bilingual("恢复限充"@, "Resume Limits"@),
        TrayAction::DisableCharging => bilingual("停止充电"@, "Stop Charging"@),
        TrayAction::ToggleAdapter => bilingual("禁用适配器"@, "Disable Adapter"@),
        TrayAction::InstallService => bilingual("安装特权服务"@, "Install Privileged Service"@),
        TrayAction::StartService => bilingual("启动服务"@, "Start Service"@),
        TrayAction::StopService => bilingual("停止服务"@, "Stop Service"@),
        TrayAction::Quit => bilingual("退出应用"@, "Quit"@),
    }
}

/// An action's label.
pub fn action_label(a: TrayAction) -> (s: String)
    ensures
        s@ == action_label_text(a),
{
    match a {
        TrayAction::ShowWindow => bilingual_label("显示主窗口", "Show Window"),
        TrayAction::ChargeToFull => bilingual_label("充至满电", "Charge to Full"),
        TrayAction::ChargeToLimit => bilingual_label("充至上限", "Charge to Limit"),
        TrayAction::ResumeLimits => bilingual_label("恢复限充", "Resume Limits"),
        TrayAction::DisableCharging => bilingual_label("停止充电", "Stop Charging"),
        TrayAction::ToggleAdapter => bilingual_label("禁用适配器", "Disable Adapter"),
        TrayAction::InstallService => bilingual_label("安装特权服务", "Install Privileged Service"),
        TrayAction::StartService => bilingual_label("启动服务", "Start Service"),
        TrayAction::StopService => bilingual_label("停止服务", "Stop Service"),
        TrayAction::Quit => bilingual_label("退出应用", "Quit"),
    }
}

/// A line of the tray menu.
#[derive(Clone, Copy, Debug, PartialEq, Eq, Structural)]
pub enum EntryKind {
    /// A line of text that cannot be clicked.
    Summary,
    Separator,
    /// An item that performs an action.
    Action(TrayAction),
}

/// A line of the tray menu as it is first built.
pub struct TrayEntry {
    pub kind: EntryKind,
    pub label: String,
    pub enabled: bool,
}

/// The menu, top to bottom: three summaries, the window item, the charge
/// controls, the service controls and quit, in groups apart.
pub open spec fn menu_kinds() -> Seq<EntryKind> {
    seq![
        EntryKind::Summary,
        EntryKind::Summary,
        EntryKind::Summary,
        EntryKind::Separator,
        EntryKind::Action(TrayAction::ShowWindow),
        EntryKind::Separator,
        EntryKind::Action(TrayAction::ChargeToFull),
        EntryKind::Action(TrayAction::ChargeToLimit),
        EntryKind::Action(TrayAction::ResumeLimits),
        EntryKind::Action(TrayAction::DisableCharging),
        EntryKind::Action(TrayAction::ToggleAdapter),
        EntryKind::Separator,
        EntryKind::Action(TrayAction::InstallService),
        EntryKind::Action(TrayAction::StartService),
        EntryKind::Action(TrayAction::StopService),
        EntryKind::Separator,
        EntryKind::Action(TrayAction::Quit),
    ]
}

/// The labels the menu is built with; the summaries read `--` until the
/// first refresh, and separators have none.
pub open spec fn menu_labels() -> Seq<Seq<char>> {
    seq![
        "电池 Battery: --"@,
        "模式 Mode: --"@,
        "服务 Service: --"@,
        Seq::empty(),
        action_label_text(TrayAction::ShowWindow),
        Seq::empty(),
        action_label_text(TrayAction::ChargeToFull),
        action_label_text(TrayAction::ChargeToLimit),
        action_label_text(TrayAction::ResumeLimits),
        action_label_text(TrayAction::DisableCharging),
        action_label_text(TrayAction::ToggleAdapter),
        Seq::empty(),
        action_label_text(TrayAction::InstallService),
        action_label_text(TrayAction::StartService),
        action_label_text(TrayAction::StopService),
        Seq::empty(),
        action_label_text(TrayAction::Quit),
    ]
}

fn summary_entry(label: &str) -> (e: TrayEntry)
    ensures
        e.kind == EntryKind::Summary,
        e.label@ == label@,
        !e.enabled,
{
    TrayEntry { kind: EntryKind::Summary, label: String::from_str(label), enabled: false }
}

fn separator_entry() -> (e: TrayEntry)
    ensures
        e.kind == EntryKind::Separator,
        e.label@ == Seq::<char>::empty(),
        !e.enabled,
{
    TrayEntry { kind: EntryKind::Separator, label: String::new(), enabled: false }
}

fn action_entry(a: TrayAction) -> (e: TrayEntry)
    ensures
        e.kind == EntryKind::Action(a),
        e.label@ == action_label_text(a),
        e.enabled,
{
    TrayEntry { kind: EntryKind::Action(a), label: action_label(a), enabled: true }
}

/// The tray menu as it is first built: its lines in order, their labels,
/// and only the action items enabled.
pub fn tray_menu() -> (m: Vec<TrayEntry>)
    ensures
        m@.map_values(|e: TrayEntry| e.kind) == menu_kinds(),
        m@.map_values(|e: TrayEntry| e.label@) == menu_labels(),
        m@.map_values(|e: TrayEntry| e.enabled) == menu_kinds().map_values(
            |k: EntryKind| k is Action,
        ),
{
    let mut m: Vec<TrayEntry> = Vec::new();
    m.push(summary_entry("电池 Battery: --"));
    m.push(summary_entry("模式 Mode: --"));
    m.push(summary_entry("服务 Service: --"));
    m.push(separator_entry());
    m.push(action_entry(TrayAction::ShowWindow));
    m.push(separator_entry());
    m.push(action_entry(TrayAction::ChargeToFull));
    m.push(action_entry(TrayAction::ChargeToLimit));
    m.push(action_entry(TrayAction::ResumeLimits));
    m.push(action_entry(TrayAction::DisableCharging));
    m.push(action_entry(TrayAction::ToggleAdapter));
    m.push(separator_entry());
    m.push(action_entry(TrayAction::InstallService));
    m.push(action_entry(TrayAction::StartService));
    m.push(action_entry(TrayAction::StopService));
    m.push(separator_entry());
    m.push(action_entry(TrayAction::Quit));
    assert(m@.map_values(|e: TrayEntry| e.kind) =~= menu_kinds());
    assert(m@.map_values(|e: TrayEntry| e.label@) =~= menu_labels());
    assert(m@.map_values(|e: TrayEntry| e.enabled) =~= menu_kinds().map_values(
        |k: EntryKind| k is Action,
    ));
    m
}

/// What a menu action makes the app do.
#[derive(Clone, Copy, Debug, PartialEq, Eq)]
pub enum TrayTask {
    /// Show and focus the main window.
    ShowWindow,
    /// Send this command to the helper.
    SendCommand(&'static str),
    InstallService,
    StartService,
    StopService,
    /// Mark the app as quitting and exit.
    Quit,
}

/// The helper command that a charge action sends; the adapter item enables
/// the adapter when it is cut and cuts it otherwise.
pub open spec fn action_command(a: TrayAction, power_disabled: bool) -> Option<Seq<char>> {
    match a {
        TrayAction::ChargeToFull => Some("charge_to_full"@),
        TrayAction::ChargeToLimit => Some("charge_to_limit"@),
        TrayAction::ResumeLimits => Some("reset_charge_mode"@),
        TrayAction::DisableCharging => Some("disable_charging"@),
        TrayAction::ToggleAdapter => Some(
            if power_disabled {
                "enable_adapter"@
            } else {
                "disable_adapter"@
            },
        ),
        _ => None,
    }
}

/// The task of a menu action, given whether the adapter is cut now.
pub fn tray_task(a: TrayAction, power_disabled: bool) -> (t: TrayTask)
    ensures
        t matches TrayTask::SendCommand(c) ==> action_command(a, power_disabled) == Some(c@),
        !(t is SendCommand) ==> action_command(a, power_disabled) is None,
        (t is ShowWindow) == (a is ShowWindow),
        (t is InstallService) == (a is InstallService),
        (t is StartService) == (a is StartService),
        (t is StopService) == (a is StopService),
        (t is Quit) == (a is Quit),
{
    match a {
        TrayAction::ShowWindow => TrayTask::ShowWindow,
        TrayAction::ChargeToFull => TrayTask::SendCommand("charge_to_full"),
        TrayAction::ChargeToLimit => TrayTask::SendCommand("charge_to_limit"),
        TrayAction::ResumeLimits => TrayTask::SendCommand("reset_charge_mode"),
        TrayAction::DisableCharging => TrayTask::SendCommand("disable_charging"),
        TrayAction::ToggleAdapter => TrayTask::SendCommand(adapter_toggle_command(power_disabled)),
        TrayAction::InstallService => TrayTask::InstallService,
        TrayAction::StartService => TrayTask::StartService,
        TrayAction::StopService => TrayTask::StopService,
        TrayAction::Quit => TrayTask::Quit,
    }
}

/// The helper request that a tray action asks for.
pub open spec fn asks_for(a: TrayAction, power_disabled: bool, c: Command) -> bool {
    match a {
        TrayAction::ChargeToFull => c is ChargeToFull,
        TrayAction::ChargeToLimit => c is ChargeToLimit,
        TrayAction::ResumeLimits => c is ResetChargeMode,
        TrayAction::DisableCharging => c is DisableCharging,
        TrayAction::ToggleAdapter => if power_disabled {
            c is EnableAdapter
        } else {
            c is DisableAdapter
        },
        _ => true,
    }
}

/// The helper reads every command a tray action sends as the request that
/// the action names.
pub proof fn law_tray_commands_reach_helper(
    a: TrayAction,
    power_disabled: bool,
    name: Seq<char>,
    c: Command,
)
    requires
        action_command(a, power_disabled) == Some(name),
        command_named(c, name),
    ensures
        asks_for(a, power_disabled, c),
{
}

/// A mouse button on the tray icon.
#[derive(Clone, Copy, Debug, PartialEq, Eq, Structural)]
pub enum MouseButton {
    Left,
    Right,
    Middle,
}

/// Whether a button went up or down.
#[derive(Clone, Copy, Debug, PartialEq, Eq, Structural)]
pub enum ButtonState {
    Up,
    Down,
}

/// What a click on the tray icon does.
#[derive(Clone, Copy, Debug, PartialEq, Eq, Structural)]
pub enum IconResponse {
    /// Show the main window.
    ShowWindow,
    /// Bring the menu's texts up to date before it opens.
    RefreshMenu,
}

/// A left button release shows the window; a right button press refreshes
/// the menu; nothing else does anything.
pub fn icon_click_response(button: MouseButton, state: ButtonState) -> (r: Option<IconResponse>)
    ensures
        r == if button == MouseButton::Left && state == ButtonState::Up {
            Some(IconResponse::ShowWindow)
        } else if button == MouseButton::Right && state == ButtonState::Down {
            Some(IconResponse::RefreshMenu)
        } else {
            None
        },
{
    match (button, state) {
        (MouseButton::Left, ButtonState::Up) => Some(IconResponse::ShowWindow),
        (MouseButton::Right, ButtonState::Down) => Some(IconResponse::RefreshMenu),
        _ => None,
    }
}

/// What follows a tray action, besides refreshing the menu, which happens
/// either way.
pub struct FollowUp {
    /// Ask the window to reload, if it is visible.
    pub refresh_window: bool,
    /// Show the window.
    pub show_window: bool,
    /// The error to report to the window.
    pub error: Option<String>,
}

/// After a tray action: on success the visible window reloads; on failure
/// the window is shown and told the error.
pub fn after_tray_action(result: Result<(), String>) -> (f: FollowUp)
    ensures
        result is Ok ==> f.refresh_window && !f.show_window && f.error is None,
        result matches Err(e) ==> !f.refresh_window && f.show_window && (f.error matches Some(m)
            && m@ == e@),
{
    match result {
        Ok(()) => FollowUp { refresh_window: true, show_window: false, error: None },
        Err(e) => FollowUp { refresh_window: false, show_window: true, error: Some(e) },
    }
}

/// The visibility event to send when the window becomes `visible`: one
/// only when that changes what it was.
pub fn visibility_event(was_visible: bool, visible: bool) -> (r: Option<bool>)
    ensures
        r == if was_visible != visible {
            Some(visible)
        } else {
            None
        },
{
    if was_visible != visible {
        Some(visible)
    } else {
        None
    }
}

/// A request to close the window hides it instead, unless the app is
/// quitting.
pub fn close_request_hides(quitting: bool) -> (hide: bool)
    ensures
        hide == !quitting,
{
    !quitting
}

} // verus!
