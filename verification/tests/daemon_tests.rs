use battery_deck::battery::{ChargeMode, HelperState, RuntimeState, Settings};
use battery_deck::service::reply_status;
use battery_deck::daemon::{
    action_name, answer, charging_decision, initial_state, load_runtime, load_settings, magsafe_led_value, next_mode,
    parse_command, polling_interval, save_settings, Command, Effect, HelperCore, Outcome, Reply,
    SmcAction, Step,
};

fn settings() -> Settings {
    Settings { min_charge: 40, max_charge: 80, adapter_sleep: false, magsafe_sync: true }
}

fn core_with(mode: ChargeMode, charging_disabled: bool, adapter: bool) -> HelperCore {
    let runtime = RuntimeState { mode: Some(mode), charging_disabled: Some(charging_disabled), power_disabled: Some(false) };
    HelperCore::new(initial_state(settings(), runtime), true, adapter, false, 50)
}

/// Runs a machine to completion: `answer` gives the outcome of each effect.
fn drive(core: &mut HelperCore, first: Step, answer: &mut dyn FnMut(&Effect) -> Outcome) -> (Result<Reply, String>, Vec<String>, Vec<String>) {
    let mut logs = Vec::new();
    let mut effects = Vec::new();
    let mut step = first;
    loop {
        logs.extend(step.logs.iter().cloned());
        match step.effect {
            Effect::Finish(r) => return (r, logs, effects),
            ref e => {
                effects.push(format!("{:?}", e));
                let o = answer(e);
                step = core.resume(o);
            }
        }
    }
}

fn ok_all(_: &Effect) -> Outcome {
    Outcome::Done(Ok(()))
}

fn request(core: &mut HelperCore, name: &str, answer: &mut dyn FnMut(&Effect) -> Outcome) -> (Result<Reply, String>, Vec<String>, Vec<String>) {
    let first = core.begin_request(name);
    drive(core, first, answer)
}

fn evaluate(core: &mut HelperCore, answer: &mut dyn FnMut(&Effect) -> Outcome) -> (Result<Reply, String>, Vec<String>, Vec<String>) {
    let first = core.begin_evaluate();
    drive(core, first, answer)
}

fn state_of(r: Result<Reply, String>) -> HelperState {
    match r {
        Ok(Reply::State(s)) => s,
        other => panic!("expected a state, got {:?}", other),
    }
}

#[test]
fn policy_decisions() {
    let s = settings();
    assert!(charging_decision(ChargeMode::Standard, 80, s, false));
    assert!(!charging_decision(ChargeMode::Standard, 39, s, true));
    assert!(charging_decision(ChargeMode::Standard, 60, s, true));
    assert!(!charging_decision(ChargeMode::Standard, 60, s, false));
    assert!(charging_decision(ChargeMode::ToLimit, 80, s, false));
    assert!(!charging_decision(ChargeMode::ToLimit, 79, s, true));
    assert!(!charging_decision(ChargeMode::ToFull, 100, s, true));
    assert_eq!(next_mode(ChargeMode::ToLimit, 80, 80), ChargeMode::Standard);
    assert_eq!(next_mode(ChargeMode::ToLimit, 79, 80), ChargeMode::ToLimit);
    assert_eq!(next_mode(ChargeMode::ToFull, 100, 80), ChargeMode::Standard);
    assert_eq!(next_mode(ChargeMode::ToFull, 99, 80), ChargeMode::ToFull);
    assert_eq!(magsafe_led_value(true, 100), 0x01);
    assert_eq!(magsafe_led_value(false, 100), 0x03);
    assert_eq!(magsafe_led_value(false, 50), 0x04);
    assert_eq!(polling_interval(true, None), 5);
    assert_eq!(polling_interval(false, Some(true)), 5);
    assert_eq!(polling_interval(false, Some(false)), 15);
    assert_eq!(polling_interval(false, None), 15);
}

#[test]
fn loading_and_saving() {
    assert_eq!(load_settings(None), Settings::default());
    assert_eq!(load_settings(Some(settings())), settings());
    assert_eq!(load_runtime(None), RuntimeState::default());
    let st = initial_state(settings(), RuntimeState::default());
    assert_eq!(st.mode, ChargeMode::Standard);
    assert!(!st.charging_disabled && !st.power_disabled && !st.supported && !st.control_available);
    assert_eq!(save_settings(&settings()), Ok(settings()));
    assert!(save_settings(&Settings { min_charge: 90, ..settings() }).is_err());
}

#[test]
fn parses_commands() {
    assert!(matches!(parse_command("get_status"), Command::GetState));
    assert!(matches!(parse_command("get_state"), Command::GetState));
    assert!(matches!(parse_command("charge_to_full"), Command::ChargeToFull));
    match parse_command("fly") {
        Command::Unknown(n) => assert_eq!(n, "fly"),
        _ => panic!(),
    }
}

#[test]
fn read_only_requests() {
    let mut core = core_with(ChargeMode::Standard, false, true);
    let (r, logs, effects) = request(&mut core, "ping", &mut ok_all);
    assert!(matches!(r, Ok(Reply::Pong)));
    assert!(logs.is_empty() && effects.is_empty());
    let (r, _, _) = request(&mut core, "get_settings", &mut ok_all);
    match r {
        Ok(Reply::Settings(s)) => assert_eq!(s, settings()),
        _ => panic!(),
    }
    let s = state_of(request(&mut core, "get_status", &mut ok_all).0);
    assert!(s.supported && s.control_available);
}

#[test]
fn unknown_command_is_an_error() {
    let mut core = core_with(ChargeMode::Standard, false, true);
    let (r, logs, _) = request(&mut core, "fly", &mut ok_all);
    assert_eq!(r.err(), Some("Unknown helper command: fly".to_string()));
    assert_eq!(logs, vec!["[command] fly".to_string(), "Unknown helper command: fly".to_string()]);
    assert_eq!(core.state.last_error, Some("Unknown helper command: fly".to_string()));
}

#[test]
fn charge_to_full_resumes_charging() {
    let mut core = core_with(ChargeMode::Standard, true, true);
    let (r, logs, effects) = request(&mut core, "charge_to_full", &mut ok_all);
    let s = state_of(r);
    assert_eq!(s.mode, ChargeMode::ToFull);
    assert!(!s.charging_disabled);
    assert_eq!(effects.len(), 3);
    assert!(effects[1].contains("EnableCharging"));
    assert!(logs.contains(&"charge mode set to ToFull".to_string()));
    assert!(logs.contains(&"charging enabled".to_string()));
}

#[test]
fn smc_failure_is_reported() {
    let mut core = core_with(ChargeMode::Standard, false, true);
    let mut answer = |e: &Effect| match e {
        Effect::Smc(SmcAction::DisableCharging) => Outcome::Done(Err("SMC not available for helper control".into())),
        _ => Outcome::Done(Ok(())),
    };
    let (r, _, _) = request(&mut core, "disable_charging", &mut answer);
    assert_eq!(r.err(), Some("SMC not available for helper control".to_string()));
    assert!(!core.state.charging_disabled);
    assert_eq!(core.state.last_error, Some("SMC not available for helper control".to_string()));
}

#[test]
fn disable_charging_twice_asks_nothing() {
    let mut core = core_with(ChargeMode::Standard, true, true);
    let (r, _, effects) = request(&mut core, "disable_charging", &mut ok_all);
    assert!(state_of(r).charging_disabled);
    assert!(effects.is_empty());
}

#[test]
fn adapter_needs_control() {
    let mut core = core_with(ChargeMode::Standard, false, false);
    let (r, _, _) = request(&mut core, "disable_adapter", &mut ok_all);
    assert_eq!(r.err(), Some("Power adapter control is not available on this device".to_string()));
    assert!(!core.state.power_disabled);

    let mut core = core_with(ChargeMode::Standard, false, true);
    let (r, logs, effects) = request(&mut core, "disable_adapter", &mut ok_all);
    assert!(state_of(r).power_disabled);
    assert!(effects.iter().any(|e| e.contains("SpawnSmc(DisableAdapter)")));
    assert!(logs.contains(&"adapter disabled".to_string()));
    let (r, _, _) = request(&mut core, "enable_adapter", &mut ok_all);
    assert!(!state_of(r).power_disabled);
}

#[test]
fn settings_are_validated_and_applied() {
    let mut core = core_with(ChargeMode::Standard, false, true);
    let new = Settings { min_charge: 30, max_charge: 90, adapter_sleep: true, magsafe_sync: true };
    let mut answer = |e: &Effect| match e {
        Effect::DecodeSettings => Outcome::Decoded(Ok(new)),
        _ => Outcome::Done(Ok(())),
    };
    let (r, logs, effects) = request(&mut core, "set_settings", &mut answer);
    assert_eq!(state_of(r).settings, new);
    assert_eq!(core.state.settings, new);
    assert!(effects.iter().any(|e| e.contains("MagsafeLed(0)")));
    assert!(logs.contains(&"settings updated: min=30 max=90 adapter_sleep=true magsafe_sync=true".to_string()));
    assert_eq!(core.last_magsafe_led, Some(0));

    let bad = Settings { min_charge: 10, ..new };
    let mut answer = |e: &Effect| match e {
        Effect::DecodeSettings => Outcome::Decoded(Ok(bad)),
        _ => Outcome::Done(Ok(())),
    };
    let (r, _, effects) = request(&mut core, "set_settings", &mut answer);
    assert_eq!(r.err(), Some("min_charge must be at least 20".to_string()));
    assert_eq!(effects.len(), 1);
    assert_eq!(core.state.settings, new);

    let mut answer = |_: &Effect| Outcome::Decoded(Err("missing field `minCharge`".into()));
    let (r, _, _) = request(&mut core, "set_settings", &mut answer);
    assert_eq!(r.err(), Some("missing field `minCharge`".to_string()));
}

#[test]
fn evaluation_stops_at_upper_threshold() {
    let mut core = core_with(ChargeMode::Standard, false, true);
    core.record_poll(true, 85);
    let (r, logs, effects) = evaluate(&mut core, &mut ok_all);
    assert!(matches!(r, Ok(Reply::Nothing)));
    assert!(core.state.charging_disabled);
    assert!(logs.contains(&"charging disabled".to_string()));
    assert!(effects.iter().any(|e| e.contains("MagsafeLed(1)")));
    assert_eq!(core.last_magsafe_led, Some(1));
    let (_, _, effects) = evaluate(&mut core, &mut ok_all);
    assert!(effects.is_empty());
}

#[test]
fn evaluation_keeps_state_inside_band() {
    let mut core = core_with(ChargeMode::Standard, true, true);
    core.record_poll(false, 60);
    let _ = evaluate(&mut core, &mut ok_all);
    assert!(core.state.charging_disabled);
    core.record_poll(false, 39);
    let _ = evaluate(&mut core, &mut ok_all);
    assert!(!core.state.charging_disabled);
}

#[test]
fn charge_to_limit_returns_to_standard() {
    let mut core = core_with(ChargeMode::ToLimit, false, true);
    core.record_poll(true, 80);
    let (r, _, effects) = evaluate(&mut core, &mut ok_all);
    assert!(r.is_ok());
    assert!(core.state.charging_disabled);
    assert_eq!(core.state.mode, ChargeMode::Standard);
    assert!(effects.iter().any(|e| e.contains("SaveRuntime")));
}

#[test]
fn charge_to_full_ends_at_full() {
    let mut core = core_with(ChargeMode::ToFull, false, true);
    core.record_poll(true, 100);
    let (_, _, effects) = evaluate(&mut core, &mut ok_all);
    assert!(!core.state.charging_disabled);
    assert_eq!(core.state.mode, ChargeMode::Standard);
    assert!(effects.iter().any(|e| e.contains("MagsafeLed(3)")));
}

#[test]
fn evaluation_reads_level_when_unknown() {
    let mut core = core_with(ChargeMode::Standard, false, true);
    core.last_battery_percent = None;
    let mut answer = |e: &Effect| match e {
        Effect::ReadBatteryPercent => Outcome::Percent(20),
        _ => Outcome::Done(Ok(())),
    };
    let (r, _, _) = evaluate(&mut core, &mut answer);
    assert!(r.is_ok());
    assert_eq!(core.last_battery_percent, Some(20));
}

#[test]
fn background_failures() {
    let mut core = core_with(ChargeMode::Standard, false, true);
    let log = core.background_failed("disable_adapter", "Resource temporarily unavailable");
    assert_eq!(log, "disable_adapter failed: Resource temporarily unavailable");
    assert_eq!(core.state.last_error, None);
    let log = core.background_failed("enable_adapter", "boom");
    assert_eq!(core.state.last_error, Some(log));
    assert_eq!(core.poll_interval(), 15);
}

#[test]
fn answers_reach_client() {
    let granted = answer("req-1".to_string(), Ok(Reply::Pong));
    assert_eq!(granted.id, "req-1");
    assert!(granted.ok && granted.error.is_none());
    assert!(matches!(granted.reply, Some(Reply::Pong)));
    assert_eq!(reply_status(granted.ok, granted.error), Ok(()));
    let refused = answer("req-2".to_string(), Err("Unknown helper command: nope".to_string()));
    assert_eq!(refused.id, "req-2");
    assert!(!refused.ok && refused.reply.is_none());
    assert_eq!(
        reply_status(refused.ok, refused.error),
        Err("Unknown helper command: nope".to_string())
    );
    assert_eq!(reply_status(false, None), Err("Unknown helper service error".to_string()));
}

#[test]
fn smc_action_names() {
    assert_eq!(action_name(SmcAction::DisableAdapter), "disable_adapter");
    assert_eq!(action_name(SmcAction::EnableAdapter), "enable_adapter");
    assert_eq!(action_name(SmcAction::EnableCharging), "enable_charging");
    assert_eq!(action_name(SmcAction::DisableCharging), "disable_charging");
    assert_eq!(action_name(SmcAction::MagsafeLed(3)), "set_magsafe_led");
}

#[test]
fn refused_requests_change_only_the_error() {
    let mut core = core_with(ChargeMode::ToLimit, true, false);
    let (r, _, effects) = request(&mut core, "reboot", &mut ok_all);
    assert_eq!(r.unwrap_err(), "Unknown helper command: reboot");
    assert!(effects.is_empty());
    assert_eq!(core.state.mode, ChargeMode::ToLimit);
    assert!(core.state.charging_disabled && core.state.supported && !core.state.control_available);
    assert_eq!(core.state.last_error.as_deref(), Some("Unknown helper command: reboot"));
    let (r, _, effects) = request(&mut core, "enable_adapter", &mut ok_all);
    assert_eq!(r.unwrap_err(), "Power adapter control is not available on this device");
    assert!(effects.is_empty() && !core.state.power_disabled);
}

#[test]
fn invalid_settings_are_not_saved() {
    let mut core = core_with(ChargeMode::Standard, false, true);
    let mut answer = |e: &Effect| match e {
        Effect::DecodeSettings => Outcome::Decoded(Ok(Settings { min_charge: 90, max_charge: 80, adapter_sleep: false, magsafe_sync: true })),
        _ => Outcome::Done(Ok(())),
    };
    let (r, _, effects) = request(&mut core, "set_settings", &mut answer);
    assert_eq!(r.unwrap_err(), "min_charge must be less than max_charge");
    assert_eq!(effects, vec!["DecodeSettings".to_string()]);
    assert_eq!(core.state.settings, settings());
}

#[test]
fn in_band_evaluation_writes_nothing() {
    let runtime = RuntimeState { mode: Some(ChargeMode::Standard), charging_disabled: Some(true), power_disabled: Some(false) };
    let st = Settings { min_charge: 40, max_charge: 80, adapter_sleep: false, magsafe_sync: false };
    let mut core = HelperCore::new(initial_state(st, runtime), true, true, true, 60);
    let (r, _, effects) = evaluate(&mut core, &mut ok_all);
    assert!(matches!(r, Ok(Reply::Nothing)));
    assert!(effects.is_empty());
    assert!(core.state.charging_disabled && core.state.mode == ChargeMode::Standard && core.state.last_error.is_none());
}

#[test]
fn repeated_switches_write_nothing() {
    let mut core = core_with(ChargeMode::Standard, true, true);
    let (r, _, effects) = request(&mut core, "disable_charging", &mut ok_all);
    assert!(state_of(r).charging_disabled);
    assert!(effects.is_empty());
}

#[test]
fn failed_switch_changes_only_the_error() {
    let mut core = core_with(ChargeMode::ToLimit, true, true);
    core.record_poll(true, 50);
    let mut answer = |e: &Effect| match e {
        Effect::Smc(_) => Outcome::Done(Err("SMC WriteKey failed".to_string())),
        _ => Outcome::Done(Ok(())),
    };
    let (r, _, effects) = evaluate(&mut core, &mut answer);
    assert_eq!(r.unwrap_err(), "SMC WriteKey failed");
    assert_eq!(effects, vec!["Smc(EnableCharging)".to_string()]);
    assert!(core.state.charging_disabled && core.state.mode == ChargeMode::ToLimit);
    assert_eq!(core.state.last_error.as_deref(), Some("SMC WriteKey failed"));
}

#[test]
fn startup_and_background_failures_keep_the_probe() {
    let mut core = core_with(ChargeMode::Standard, false, true);
    assert!(core.state.last_error.is_none());
    assert!(core.state.supported && core.state.control_available);
    let log = core.background_failed("disable_adapter", "SMC WriteKey failed");
    assert_eq!(log, "disable_adapter failed: SMC WriteKey failed");
    assert_eq!(core.state.last_error.as_deref(), Some("disable_adapter failed: SMC WriteKey failed"));
    assert!(core.state.supported && core.state.control_available && core.adapter_control_available);
}
