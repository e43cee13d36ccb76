//! What the app shows: the dashboard's battery state, the bilingual labels
//! and the tray menu's texts and enabled items.
use vstd::prelude::*;
use vstd::string::StringExecFns;
use crate::text;
use crate::battery::{
    BatteryState, ChargeMode, HelperState, ServiceStatus, Settings, copy_opt_string, opt_view,
};

verus! {

/// `zh / en`.
pub open spec fn bilingual(zh: Seq<char>, en: Seq<char>) -> Seq<char> {
    zh + " / "@ + en
}

/// A label in Chinese and English.
pub fn bilingual_label(zh: &str, en: &str) -> (s: String)
    ensures
        s@ == bilingual(zh@, en@),
{
    let mut v = text::chars_of(zh);
    text::push_str(&mut v, " / ");
    text::push_str(&mut v, en);
    text::string_of(&v)
}

/// The label of a charge mode.
pub open spec fn mode_text(mode: ChargeMode) -> Seq<char> {
    match mode {
        ChargeMode::Standard => bilingual("标准"@, "Standard"@),
        ChargeMode::ToLimit => bilingual("充至上限"@, "Charge to Limit"@),
        ChargeMode::ToFull => bilingual("充至满电"@, "Charge to Full"@),
    }
}

/// The label of a charge mode.
pub fn mode_label(mode: ChargeMode) -> (s: String)
    ensures
        s@ == mode_text(mode),
{
    match mode {
        ChargeMode::Standard => bilingual_label("标准", "Standard"),
        ChargeMode::ToLimit => bilingual_label("充至上限", "Charge to Limit"),
        ChargeMode::ToFull => bilingual_label("充至满电", "Charge to Full"),
    }
}

/// The charging status label: stopped, adapter off, charging, plugged in or
/// on battery, in that order of precedence.
pub open spec fn charging_text(s: BatteryState) -> Seq<char> {
    if s.charging_disabled {
        bilingual("已停止"@, "Stopped"@)
    } else if s.power_disabled {
        bilingual("适配器已关闭"@, "Adapter Off"@)
    } else if s.is_charging {
        bilingual("充电中"@, "Charging"@)
    } else if s.is_plugged {
        bilingual("已接通电源"@, "Plugged In"@)
    } else {
        bilingual("使用电池"@, "On Battery"@)
    }
}

/// The charging status label.
pub fn charging_label(state: &BatteryState) -> (s: String)
    ensures
        s@ == charging_text(*state),
{
    if state.charging_disabled {
        bilingual_label("已停止", "Stopped")
    } else if state.power_disabled {
        bilingual_label("适配器已关闭", "Adapter Off")
    } else if state.is_charging {
        bilingual_label("充电中", "Charging")
    } else if state.is_plugged {
        bilingual_label("已接通电源", "Plugged In")
    } else {
        bilingual_label("使用电池", "On Battery")
    }
}

/// The service status label.
pub open spec fn service_text(state: BatteryState, status: ServiceStatus) -> Seq<char> {
    if status.control_available {
        bilingual("就绪"@, "Ready"@)
    } else if status.running && !state.supported {
        bilingual("设备不支持"@, "Unsupported Device"@)
    } else if status.running {
        bilingual("运行中"@, "Running"@)
    } else if status.installed {
        bilingual("已安装，已停止"@, "Installed, Stopped"@)
    } else {
        bilingual("未安装"@, "Not Installed"@)
    }
}

/// The service status label.
pub fn service_label(state: &BatteryState, status: &ServiceStatus) -> (s: String)
    ensures
        s@ == service_text(*state, *status),
{
    if status.control_available {
        bilingual_label("就绪", "Ready")
    } else if status.running && !state.supported {
        bilingual_label("设备不支持", "Unsupported Device")
    } else if status.running {
        bilingual_label("运行中", "Running")
    } else if status.installed {
        bilingual_label("已安装，已停止", "Installed, Stopped")
    } else {
        bilingual_label("未安装", "Not Installed")
    }
}

/// The state shown when the helper cannot be reached: standard mode,
/// everything on, nothing supported, the stored settings and the error.
pub fn fallback_helper_state(settings: Settings, error: Option<String>) -> (s: HelperState)
    ensures
        s.mode == ChargeMode::Standard,
        !s.charging_disabled,
        !s.power_disabled,
        !s.supported,
        !s.control_available,
        s.settings == settings,
        opt_view(s.last_error) == opt_view(error),
{
    HelperState {
        mode: ChargeMode::Standard,
        charging_disabled: false,
        power_disabled: false,
        supported: false,
        control_available: false,
        settings,
        last_error: error,
    }
}

/// The dashboard's battery state from the charge reading, the plug reading
/// and the helper's state; the adapter counts as connected unless cut.
pub fn build_battery_state_with_cache(
    info: Option<(u8, bool)>,
    is_plugged: bool,
    helper_state: &HelperState,
) -> (s: BatteryState)
    ensures
        s.enabled,
        (s.charge_percent, s.is_charging) == match info {
            Some(i) => i,
            None => (0u8, false),
        },
        s.is_plugged == is_plugged,
        s.power_disabled == helper_state.power_disabled,
        s.connected == !helper_state.power_disabled,
        s.charging_disabled == helper_state.charging_disabled,
        s.mode == helper_state.mode,
        s.min_charge == helper_state.settings.min_charge,
        s.max_charge == helper_state.settings.max_charge,
        s.adapter_sleep == helper_state.settings.adapter_sleep,
        s.magsafe_sync == helper_state.settings.magsafe_sync,
        s.supported == helper_state.supported,
        s.control_available == helper_state.control_available,
        opt_view(s.last_error) == opt_view(helper_state.last_error),
{
    let (percent, is_charging) = match info {
        Some(i) => i,
        None => (0, false),
    };
    BatteryState {
        enabled: true,
        power_disabled: helper_state.power_disabled,
        connected: !helper_state.power_disabled,
        is_plugged,
        charging_disabled: helper_state.charging_disabled,
        is_charging,
        charge_percent: percent,
        mode: helper_state.mode,
        min_charge: helper_state.settings.min_charge,
        max_charge: helper_state.settings.max_charge,
        adapter_sleep: helper_state.settings.adapter_sleep,
        magsafe_sync: helper_state.settings.magsafe_sync,
        supported: helper_state.supported,
        control_available: helper_state.control_available,
        last_error: copy_opt_string(&helper_state.last_error),
    }
}

/// The tray menu's texts and which items are enabled.
pub struct TrayModel {
    pub battery_text: String,
    pub mode_text: String,
    pub service_text: String,
    pub control_enabled: bool,
    pub start_enabled: bool,
    pub stop_enabled: bool,
    pub adapter_text: String,
}

/// The tray menu for a battery state and service status: the charge
/// controls are enabled only when both report control, start only when the
/// service is not running, stop only when it is; the adapter item offers
/// the opposite of the adapter's state.
pub fn tray_model(state: &BatteryState, status: &ServiceStatus) -> (m: TrayModel)
    ensures
        m.battery_text@ == "电池 Battery: "@ + text::decimal(state.charge_percent as nat) + "% ("@
            + charging_text(*state) + ")"@,
        m.mode_text@ == "模式 Mode: "@ + mode_text(state.mode),
        m.service_text@ == "服务 Service: "@ + service_text(*state, *status),
        m.control_enabled == (state.control_available && status.control_available),
        m.start_enabled == !status.running,
        m.stop_enabled == status.running,
        m.adapter_text@ == if state.power_disabled {
            bilingual("启用适配器"@, "Enable Adapter"@)
        } else {
            bilingual("禁用适配器"@, "Disable Adapter"@)
        },
{
    let mut b: Vec<char> = Vec::new();
    text::push_str(&mut b, "电池 Battery: ");
    text::push_decimal(&mut b, state.charge_percent as u64);
    text::push_str(&mut b, "% (");
    text::push_str(&mut b, charging_label(state).as_str());
    text::push_str(&mut b, ")");
    assert(b@ =~= "电池 Battery: "@ + text::decimal(state.charge_percent as nat) + "% ("@
        + charging_text(*state) + ")"@);
    let adapter_text = if state.power_disabled {
        bilingual_label("启用适配器", "Enable Adapter")
    } else {
        bilingual_label("禁用适配器", "Disable Adapter")
    };
    TrayModel {
        battery_text: text::string_of(&b),
        mode_text: text::concat("模式 Mode: ", mode_label(state.mode).as_str()),
        service_text: text::concat("服务 Service: ", service_label(state, status).as_str()),
        control_enabled: state.control_available && status.control_available,
        start_enabled: !status.running,
        stop_enabled: status.running,
        adapter_text,
    }
}

/// Seconds between dashboard polls: 5 while the window is visible, 60
/// otherwise.
pub fn poll_sleep_secs(window_visible: bool) -> (s: u64)
    ensures
        s == if window_visible {
            5u64
        } else {
            60u64
        },
{
    if window_visible {
        5
    } else {
        60
    }
}

/// Whether a poll's serialized battery state differs from the last one sent;
/// the first state always counts as a change.
pub fn state_changed(last: &Option<String>, current: &String) -> (changed: bool)
    ensures
        changed == !(last matches Some(l) && l@ == current@),
{
    match last {
        Some(l) => !text::same_chars(&text::chars_of(l.as_str()), &text::chars_of(current.as_str())),
        None => true,
    }
}

} // verus!
