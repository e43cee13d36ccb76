//! The helper daemon's charging policy and request handling, as a state
//! machine. Each call returns a `Step`: log lines to write and one effect
//! to perform; the program performs the effect and calls `resume` with its
//! outcome until the effect is `Finish`.
use vstd::prelude::*;
use vstd::string::StringExecFns;
use crate::text;
use crate::service::reply_outcome;
use crate::helper::is_read_only_command;
use crate::battery::{
    ChargeMode, HelperState, RuntimeState, Settings, default_settings, opt_view, settings_error, settings_valid,
    validate_settings,
};

verus! {

// ---------------------------------------------------------------------------
// Policy
// ---------------------------------------------------------------------------

/// Whether charging must be off, given the mode, the charge level, the
/// thresholds and whether charging is off now. `Standard` keeps the charge
/// between the thresholds with hysteresis, `ToLimit` charges to the upper
/// threshold, `ToFull` always charges.
pub open spec fn charging_off(mode: ChargeMode, percent: u8, settings: Settings, off_now: bool) -> bool {
    match mode {
        ChargeMode::Standard => if percent >= settings.max_charge {
            true
        } else if percent < settings.min_charge {
            false
        } else {
            off_now
        },
        ChargeMode::ToLimit => percent >= settings.max_charge,
        ChargeMode::ToFull => false,
    }
}

/// The mode after an evaluation: a one-shot mode returns to `Standard` once
/// its target is reached.
pub open spec fn mode_after(mode: ChargeMode, percent: u8, max_charge: u8) -> ChargeMode {
    match mode {
        ChargeMode::ToLimit => if percent >= max_charge {
            ChargeMode::Standard
        } else {
            ChargeMode::ToLimit
        },
        ChargeMode::ToFull => if percent >= 100 {
            ChargeMode::Standard
        } else {
            ChargeMode::ToFull
        },
        ChargeMode::Standard => ChargeMode::Standard,
    }
}

/// The MagSafe LED colour: off (0x01) while charging is stopped, green
/// (0x03) when full, orange (0x04) while charging.
pub open spec fn led_value(charging_disabled: bool, percent: u8) -> u8 {
    if charging_disabled {
        0x01
    } else if percent >= 100 {
        0x03
    } else {
        0x04
    }
}

/// Decides whether charging must be off.
pub fn charging_decision(mode: ChargeMode, percent: u8, settings: Settings, off_now: bool) -> (b: bool)
    ensures
        b == charging_off(mode, percent, settings, off_now),
{
    match mode {
        ChargeMode::Standard => {
            if percent >= settings.max_charge {
                true
            } else if percent < settings.min_charge {
                false
            } else {
                off_now
            }
        },
        ChargeMode::ToLimit => percent >= settings.max_charge,
        ChargeMode::ToFull => false,
    }
}

/// The mode after an evaluation.
pub fn next_mode(mode: ChargeMode, percent: u8, max_charge: u8) -> (m: ChargeMode)
    ensures
        m == mode_after(mode, percent, max_charge),
{
    match mode {
        ChargeMode::ToLimit => if percent >= max_charge {
            ChargeMode::Standard
        } else {
            ChargeMode::ToLimit
        },
        ChargeMode::ToFull => if percent >= 100 {
            ChargeMode::Standard
        } else {
            ChargeMode::ToFull
        },
        ChargeMode::Standard => ChargeMode::Standard,
    }
}

/// The MagSafe LED value to show.
pub fn magsafe_led_value(charging_disabled: bool, percent: u8) -> (v: u8)
    ensures
        v == led_value(charging_disabled, percent),
{
    if charging_disabled {
        0x01
    } else if percent >= 100 {
        0x03
    } else {
        0x04
    }
}

/// Seconds between two battery polls: 5 while plugged in or while the
/// adapter is cut (as far as the state is known), 15 otherwise.
pub fn polling_interval(is_plugged: bool, power_disabled: Option<bool>) -> (secs: u64)
    ensures
        secs == if is_plugged || power_disabled == Some(true) {
            5u64
        } else {
            15u64
        },
{
    if is_plugged {
        5
    } else if power_disabled == Some(true) {
        5
    } else {
        15
    }
}

/// The settings in force: the stored ones, or the defaults when none could
/// be read.
pub fn load_settings(stored: Option<Settings>) -> (s: Settings)
    ensures
        s == match stored {
            Some(v) => v,
            None => default_settings(),
        },
{
    match stored {
        Some(v) => v,
        None => Settings::default(),
    }
}

/// The persisted runtime state, or an empty one when none could be read.
pub fn load_runtime(stored: Option<RuntimeState>) -> (r: RuntimeState)
    ensures
        r == match stored {
            Some(v) => v,
            None => RuntimeState { mode: None, charging_disabled: None, power_disabled: None },
        },
{
    match stored {
        Some(v) => v,
        None => RuntimeState::default(),
    }
}

/// Settings to store: the same settings when valid, otherwise the message
/// of the first rule they break.
pub fn save_settings(settings: &Settings) -> (r: Result<Settings, String>)
    ensures
        r is Ok <==> settings_valid(*settings),
        r matches Ok(s) ==> s == *settings,
        r matches Err(e) ==> settings_error(*settings) == Some(e@),
{
    match validate_settings(settings) {
        Ok(()) => Ok(*settings),
        Err(e) => Err(e),
    }
}

/// What is persisted of a helper state.
pub open spec fn runtime_of(state: HelperState) -> RuntimeState {
    RuntimeState {
        mode: Some(state.mode),
        charging_disabled: Some(state.charging_disabled),
        power_disabled: Some(state.power_disabled),
    }
}

/// The runtime record of a state.
pub fn runtime_record(state: &HelperState) -> (r: RuntimeState)
    ensures
        r == runtime_of(*state),
{
    RuntimeState {
        mode: Some(state.mode),
        charging_disabled: Some(state.charging_disabled),
        power_disabled: Some(state.power_disabled),
    }
}

/// The mode and switches a runtime record restores: `Standard`, charging
/// on and adapter on where the record says nothing.
pub open spec fn restored(runtime: RuntimeState) -> (ChargeMode, bool, bool) {
    (
        match runtime.mode {
            Some(m) => m,
            None => ChargeMode::Standard,
        },
        match runtime.charging_disabled {
            Some(b) => b,
            None => false,
        },
        match runtime.power_disabled {
            Some(b) => b,
            None => false,
        },
    )
}

/// What the helper persists restores its mode and switches after a restart.
pub proof fn law_runtime_round_trip(state: HelperState)
    ensures
        restored(runtime_of(state)) == (state.mode, state.charging_disabled, state.power_disabled),
{
}

/// The state the helper starts from: mode and switches from the runtime
/// record (`Standard`, on, on when missing), nothing supported yet, no error.
pub fn initial_state(settings: Settings, runtime: RuntimeState) -> (s: HelperState)
    ensures
        (s.mode, s.charging_disabled, s.power_disabled) == restored(runtime),
        !s.supported,
        !s.control_available,
        s.settings == settings,
        s.last_error is None,
{
    HelperState {
        mode: match runtime.mode {
            Some(m) => m,
            None => ChargeMode::Standard,
        },
        charging_disabled: match runtime.charging_disabled {
            Some(b) => b,
            None => false,
        },
        power_disabled: match runtime.power_disabled {
            Some(b) => b,
            None => false,
        },
        supported: false,
        control_available: false,
        settings,
        last_error: None,
    }
}

// ---------------------------------------------------------------------------
// Requests
// ---------------------------------------------------------------------------

/// A client request.
#[derive(Clone, Debug)]
pub enum Command {
    Ping,
    GetState,
    GetSettings,
    SetSettings,
    ChargeToFull,
    ChargeToLimit,
    DisableCharging,
    DisableAdapter,
    EnableAdapter,
    ResetChargeMode,
    Unknown(String),
}

impl Command {
    /// A copy of the command.
    pub fn duplicate(&self) -> (c: Command)
        ensures
            c == *self,
    {
        match self {
            Command::Ping => Command::Ping,
            Command::GetState => Command::GetState,
            Command::GetSettings => Command::GetSettings,
            Command::SetSettings => Command::SetSettings,
            Command::ChargeToFull => Command::ChargeToFull,
            Command::ChargeToLimit => Command::ChargeToLimit,
            Command::DisableCharging => Command::DisableCharging,
            Command::DisableAdapter => Command::DisableAdapter,
            Command::EnableAdapter => Command::EnableAdapter,
            Command::ResetChargeMode => Command::ResetChargeMode,
            Command::Unknown(n) => Command::Unknown(n.clone()),
        }
    }
}

/// `c` is the command named `name`.
pub open spec fn command_named(c: Command, name: Seq<char>) -> bool {
    &&& (c is Ping) == (name == "ping"@)
    &&& (c is GetState) == (name == "get_status"@ || name == "get_state"@)
    &&& (c is GetSettings) == (name == "get_settings"@)
    &&& (c is SetSettings) == (name == "set_settings"@)
    &&& (c is ChargeToFull) == (name == "charge_to_full"@)
    &&& (c is ChargeToLimit) == (name == "charge_to_limit"@)
    &&& (c is DisableCharging) == (name == "disable_charging"@)
    &&& (c is DisableAdapter) == (name == "disable_adapter"@)
    &&& (c is EnableAdapter) == (name == "enable_adapter"@)
    &&& (c is ResetChargeMode) == (name == "reset_charge_mode"@)
    &&& (c matches Command::Unknown(n) ==> n@ == name)
}

/// Reads a command name; `get_status` and `get_state` are the same request.
pub fn parse_command(name: &str) -> (c: Command)
    ensures
        command_named(c, name@),
        (c is Ping) == (name@ == "ping"@),
        (c is GetState) == (name@ == "get_status"@ || name@ == "get_state"@),
        (c is GetSettings) == (name@ == "get_settings"@),
        (c is SetSettings) == (name@ == "set_settings"@),
        (c is ChargeToFull) == (name@ == "charge_to_full"@),
        (c is ChargeToLimit) == (name@ == "charge_to_limit"@),
        (c is DisableCharging) == (name@ == "disable_charging"@),
        (c is DisableAdapter) == (name@ == "disable_adapter"@),
        (c is EnableAdapter) == (name@ == "enable_adapter"@),
        (c is ResetChargeMode) == (name@ == "reset_charge_mode"@),
        c matches Command::Unknown(n) ==> n@ == name@,
{
    proof {
        reveal_strlit("ping");
        reveal_strlit("get_status");
        reveal_strlit("get_state");
        reveal_strlit("get_settings");
        reveal_strlit("set_settings");
        reveal_strlit("charge_to_full");
        reveal_strlit("charge_to_limit");
        reveal_strlit("disable_charging");
        reveal_strlit("disable_adapter");
        reveal_strlit("enable_adapter");
        reveal_strlit("reset_charge_mode");
        assert("ping"@.len() == 4);
        assert("get_status"@.len() == 10);
        assert("get_state"@.len() == 9);
        assert("get_settings"@.len() == 12);
        assert("set_settings"@.len() == 12);
        assert("charge_to_full"@.len() == 14);
        assert("charge_to_limit"@.len() == 15);
        assert("disable_charging"@.len() == 16);
        assert("disable_adapter"@.len() == 15);
        assert("enable_adapter"@.len() == 14);
        assert("reset_charge_mode"@.len() == 17);
        assert("get_settings"@[0] != "set_settings"@[0]);
        assert("charge_to_full"@[0] != "enable_adapter"@[0]);
        assert("charge_to_limit"@[0] != "disable_adapter"@[0]);
    }
    if text::str_is(name, "ping") {
        Command::Ping
    } else if text::str_is(name, "get_status") || text::str_is(name, "get_state") {
        Command::GetState
    } else if text::str_is(name, "get_settings") {
        Command::GetSettings
    } else if text::str_is(name, "set_settings") {
        Command::SetSettings
    } else if text::str_is(name, "charge_to_full") {
        Command::ChargeToFull
    } else if text::str_is(name, "charge_to_limit") {
        Command::ChargeToLimit
    } else if text::str_is(name, "disable_charging") {
        Command::DisableCharging
    } else if text::str_is(name, "disable_adapter") {
        Command::DisableAdapter
    } else if text::str_is(name, "enable_adapter") {
        Command::EnableAdapter
    } else if text::str_is(name, "reset_charge_mode") {
        Command::ResetChargeMode
    } else {
        Command::Unknown(String::from_str(name))
    }
}

/// The data a finished request answers with.
#[derive(Clone, Debug)]
pub enum Reply {
    /// `{"pong": true}`
    Pong,
    /// The helper state.
    State(HelperState),
    /// The settings.
    Settings(Settings),
    /// Nothing (a finished evaluation).
    Nothing,
}

/// The answer sent back for a request: the request's id, whether it
/// succeeded, and the reply or the error.
#[derive(Debug)]
pub struct Answer {
    pub id: String,
    pub ok: bool,
    pub reply: Option<Reply>,
    pub error: Option<String>,
}

/// `a` answers the request `id` that ended with `outcome`.
pub open spec fn answers(a: Answer, id: Seq<char>, outcome: Result<Reply, String>) -> bool {
    &&& a.id@ == id
    &&& a.ok == outcome is Ok
    &&& match outcome {
        Ok(r) => a.reply == Some(r) && a.error is None,
        Err(e) => a.reply is None && opt_view(a.error) == Some(e@),
    }
}

/// The answer to the request `id`: its reply when it succeeded, its error
/// when it did not.
pub fn answer(id: String, outcome: Result<Reply, String>) -> (a: Answer)
    ensures
        answers(a, id@, outcome),
{
    match outcome {
        Ok(r) => Answer { id, ok: true, reply: Some(r), error: None },
        Err(e) => Answer { id, ok: false, reply: None, error: Some(e) },
    }
}

/// The client reads an answer as the helper meant it: a granted request as
/// success, a refused one as an error carrying the helper's own message.
pub proof fn law_answers_reach_client(a: Answer, id: Seq<char>, outcome: Result<Reply, String>)
    requires
        answers(a, id, outcome),
    ensures
        (reply_outcome(a.ok, opt_view(a.error)) is Ok) == (outcome is Ok),
        outcome matches Err(e) ==> reply_outcome(a.ok, opt_view(a.error)) == Err::<(), Seq<char>>(
            e@,
        ),
{
}

/// An SMC operation to perform.
#[derive(Clone, Copy, Debug, PartialEq, Eq, Structural)]
pub enum SmcAction {
    EnableCharging,
    DisableCharging,
    EnableAdapter,
    DisableAdapter,
    MagsafeLed(u8),
}

/// The error of an SMC operation while the SMC could not be opened.
pub const SMC_UNAVAILABLE: &'static str = "SMC not available for helper control";

/// The name of an SMC operation, as its failures are reported.
pub open spec fn action_name_text(a: SmcAction) -> Seq<char> {
    match a {
        SmcAction::EnableCharging => "enable_charging"@,
        SmcAction::DisableCharging => "disable_charging"@,
        SmcAction::EnableAdapter => "enable_adapter"@,
        SmcAction::DisableAdapter => "disable_adapter"@,
        SmcAction::MagsafeLed(_) => "set_magsafe_led"@,
    }
}

/// The name of an SMC operation, as its failures are reported.
pub fn action_name(a: SmcAction) -> (s: &'static str)
    ensures
        s@ == action_name_text(a),
{
    match a {
        SmcAction::EnableCharging => "enable_charging",
        SmcAction::DisableCharging => "disable_charging",
        SmcAction::EnableAdapter => "enable_adapter",
        SmcAction::DisableAdapter => "disable_adapter",
        SmcAction::MagsafeLed(_) => "set_magsafe_led",
    }
}

/// The effect the program performs next.
#[derive(Debug)]
pub enum Effect {
    /// Decode the request payload as settings; answer `Outcome::Decoded`.
    DecodeSettings,
    /// Write the settings file; answer `Outcome::Done`.
    SaveSettings(Settings),
    /// Write the runtime record; answer `Outcome::Done`.
    SaveRuntime(RuntimeState),
    /// Perform the SMC operation now; answer `Outcome::Done`.
    Smc(SmcAction),
    /// Start the SMC operation in the background, report a failure with
    /// `HelperCore::background_failed`, and answer `Outcome::Done(Ok(()))`.
    SpawnSmc(SmcAction),
    /// Read the charge level; answer `Outcome::Percent`.
    ReadBatteryPercent,
    /// The request or evaluation is over.
    Finish(Result<Reply, String>),
}

/// What the program found when it performed an effect.
pub enum Outcome {
    Done(Result<(), String>),
    Decoded(Result<Settings, String>),
    Percent(u8),
}

/// Log lines to append, then an effect to perform.
#[derive(Debug)]
pub struct Step {
    pub logs: Vec<String>,
    pub effect: Effect,
}

/// What an evaluation decided from the state it started from.
#[derive(Clone, Copy, Debug, PartialEq, Eq, Structural)]
pub struct EvalCtx {
    pub percent: u8,
    pub mode: ChargeMode,
    pub settings: Settings,
    pub was_disabled: bool,
    pub disable: bool,
    pub led_disabled: bool,
}

/// An evaluation context is consistent with the policy.
pub open spec fn eval_ctx_ok(c: EvalCtx) -> bool {
    &&& c.disable == charging_off(c.mode, c.percent, c.settings, c.was_disabled)
    &&& c.led_disabled == (c.disable || c.was_disabled)
}

/// What runs after a charging switch.
#[derive(Clone, Copy, Debug)]
pub enum Cont {
    ReplyState,
    Eval(EvalCtx),
}

/// Where the machine waits.
#[derive(Clone, Copy, Debug)]
pub enum Stage {
    Idle,
    AwaitDecode,
    AwaitSaveSettings(Settings),
    AwaitSettingsRuntime(Settings),
    AwaitSystemLed(Settings),
    AwaitModeRuntime(ChargeMode),
    AwaitChargingSmc(bool, Cont),
    AwaitChargingRuntime(bool, Cont),
    AwaitAdapterRuntime(bool),
    AwaitAdapterSpawn(bool),
    AwaitPercent,
    AwaitEvalMode(EvalCtx),
    AwaitEvalLed(EvalCtx, u8),
}

/// The work in progress (or last done).
#[derive(Clone, Debug)]
pub enum Job {
    Fresh,
    Request(Command),
    EvaluatePending,
    Evaluate(EvalCtx),
}

/// The helper daemon's state.
pub struct HelperCore {
    pub state: HelperState,
    pub adapter_control_available: bool,
    pub last_battery_percent: Option<u8>,
    pub last_is_plugged: bool,
    pub last_magsafe_led: Option<u8>,
    pub job: Job,
    pub stage: Stage,
}

/// The SMC operation that switches charging.
pub open spec fn charging_action(disable: bool) -> SmcAction {
    if disable {
        SmcAction::DisableCharging
    } else {
        SmcAction::EnableCharging
    }
}

/// The SMC operation that switches the adapter.
pub open spec fn adapter_action(disable: bool) -> SmcAction {
    if disable {
        SmcAction::DisableAdapter
    } else {
        SmcAction::EnableAdapter
    }
}

/// What a finished job guarantees about the state and the reply.
pub open spec fn job_post(job: Job, s: HelperState, adapter: bool, reply: Reply) -> bool {
    match job {
        Job::Request(Command::Ping) => reply is Pong,
        Job::Request(Command::GetState) => reply matches Reply::State(r) && r.same(s),
        Job::Request(Command::GetSettings) => reply matches Reply::Settings(r) && r == s.settings,
        Job::Request(Command::SetSettings) => reply matches Reply::State(r) && settings_valid(
            s.settings,
        ) && r.settings == s.settings && r.mode == s.mode && r.charging_disabled
            == s.charging_disabled && r.power_disabled == s.power_disabled,
        Job::Request(Command::ChargeToFull) => reply matches Reply::State(r) && r.same(s) && s.mode
            == ChargeMode::ToFull && !s.charging_disabled,
        Job::Request(Command::ChargeToLimit) => reply matches Reply::State(r) && r.same(s) && s.mode
            == ChargeMode::ToLimit && !s.charging_disabled,
        Job::Request(Command::ResetChargeMode) => reply matches Reply::State(r) && r.same(s)
            && s.mode == ChargeMode::Standard,
        Job::Request(Command::DisableCharging) => reply matches Reply::State(r) && r.same(s)
            && s.charging_disabled,
        Job::Request(Command::DisableAdapter) => reply matches Reply::State(r) && r.same(s)
            && s.power_disabled && adapter,
        Job::Request(Command::EnableAdapter) => reply matches Reply::State(r) && r.same(s)
            && !s.power_disabled && adapter,
        Job::Request(Command::Unknown(_)) => false,
        Job::Evaluate(c) => reply is Nothing && eval_ctx_ok(c) && s.charging_disabled == c.disable
            && s.mode == mode_after(c.mode, c.percent, c.settings.max_charge) && s.settings
            == c.settings,
        _ => false,
    }
}

/// How a charging switch relates to the job that asked for it.
pub open spec fn charging_cont_ok(job: Job, s: HelperState, disable: bool, c: Cont) -> bool {
    match c {
        Cont::ReplyState => match job {
            Job::Request(Command::DisableCharging) => disable,
            Job::Request(Command::ChargeToFull) => !disable && s.mode == ChargeMode::ToFull,
            Job::Request(Command::ChargeToLimit) => !disable && s.mode == ChargeMode::ToLimit,
            _ => false,
        },
        Cont::Eval(ctx) => job == Job::Evaluate(ctx) && eval_ctx_ok(ctx) && disable == ctx.disable
            && s.mode == ctx.mode && s.settings == ctx.settings,
    }
}

/// The evaluation has switched charging as decided and updated the mode.
pub open spec fn eval_done_ok(job: Job, s: HelperState, ctx: EvalCtx) -> bool {
    job == Job::Evaluate(ctx) && eval_ctx_ok(ctx) && s.charging_disabled == ctx.disable && s.mode
        == mode_after(ctx.mode, ctx.percent, ctx.settings.max_charge) && s.settings == ctx.settings
}

impl HelperCore {
    /// The machine invariant: what each waiting stage knows.
    pub open spec fn wf(self) -> bool {
        match self.stage {
            Stage::Idle => true,
            Stage::AwaitDecode => self.job matches Job::Request(Command::SetSettings),
            Stage::AwaitSaveSettings(st) => self.job matches Job::Request(Command::SetSettings)
                && settings_valid(st),
            Stage::AwaitSettingsRuntime(st) => self.job matches Job::Request(Command::SetSettings)
                && settings_valid(st) && self.state.settings == st,
            Stage::AwaitSystemLed(st) => self.job matches Job::Request(Command::SetSettings)
                && settings_valid(st) && self.state.settings == st,
            Stage::AwaitModeRuntime(m) => self.state.mode == m && match self.job {
                Job::Request(Command::ChargeToFull) => m == ChargeMode::ToFull,
                Job::Request(Command::ChargeToLimit) => m == ChargeMode::ToLimit,
                Job::Request(Command::ResetChargeMode) => m == ChargeMode::Standard,
                _ => false,
            },
            Stage::AwaitChargingSmc(d, c) => charging_cont_ok(self.job, self.state, d, c),
            Stage::AwaitChargingRuntime(d, c) => charging_cont_ok(self.job, self.state, d, c)
                && self.state.charging_disabled == d,
            Stage::AwaitAdapterRuntime(d) => self.adapter_control_available
                && self.state.power_disabled == d && if d {
                self.job matches Job::Request(Command::DisableAdapter)
            } else {
                self.job matches Job::Request(Command::EnableAdapter)
            },
            Stage::AwaitAdapterSpawn(d) => self.adapter_control_available
                && self.state.power_disabled == d && if d {
                self.job matches Job::Request(Command::DisableAdapter)
            } else {
                self.job matches Job::Request(Command::EnableAdapter)
            },
            Stage::AwaitPercent => self.job is EvaluatePending,
            Stage::AwaitEvalMode(ctx) => eval_done_ok(self.job, self.state, ctx),
            Stage::AwaitEvalLed(ctx, v) => eval_done_ok(self.job, self.state, ctx) && ctx.settings.magsafe_sync
                && v == led_value(ctx.led_disabled, ctx.percent),
        }
    }

    /// What every step promises: the invariant holds, the machine rests
    /// exactly when it finishes, errors are recorded as the last error,
    /// successes meet the job's guarantee, and what it asks to persist is
    /// the state itself or valid settings.
    pub open spec fn step_ok(self, step: Step) -> bool {
        &&& self.wf()
        &&& (step.effect is Finish <==> self.stage is Idle)
        &&& (step.effect matches Effect::Finish(Err(e)) ==> opt_view(self.state.last_error) == Some(
            e@,
        ) && step.logs@.len() > 0 && step.logs@.last()@ == e@)
        &&& (step.effect matches Effect::Finish(Ok(r)) ==> job_post(
            self.job,
            self.state,
            self.adapter_control_available,
            r,
        ))
        &&& (step.effect matches Effect::SaveRuntime(rt) ==> rt == runtime_of(self.state))
        &&& (step.effect matches Effect::SaveSettings(st) ==> settings_valid(st))
        &&& (step.effect matches Effect::Smc(a) ==> match self.stage {
            Stage::AwaitChargingSmc(d, _) => a == charging_action(d),
            Stage::AwaitSystemLed(_) => a == SmcAction::MagsafeLed(0),
            Stage::AwaitEvalLed(_, v) => a == SmcAction::MagsafeLed(v),
            _ => false,
        })
        &&& (step.effect matches Effect::SpawnSmc(a) ==> self.stage matches Stage::AwaitAdapterSpawn(d)
            && a == adapter_action(d))
    }

    /// The core for a state, with the probe results and first readings.
    pub fn new(
        initial: HelperState,
        supported: bool,
        smc_open: bool,
        is_plugged: bool,
        battery_percent: u8,
    ) -> (c: HelperCore)
        ensures
            c.stage is Idle,
            c.wf(),
            c.state.supported == supported,
            c.state.control_available == (supported && smc_open),
            c.adapter_control_available == (supported && smc_open),
            c.state.mode == initial.mode,
            c.state.charging_disabled == initial.charging_disabled,
            c.state.power_disabled == initial.power_disabled,
            c.state.settings == initial.settings,
            c.last_battery_percent == Some(battery_percent),
            c.last_is_plugged == is_plugged,
            c.last_magsafe_led is None,
            c.state.last_error == initial.last_error,
            c.job == Job::Fresh,
    {
        let mut state = initial;
        state.supported = supported;
        state.control_available = supported && smc_open;
        HelperCore {
            state,
            adapter_control_available: supported && smc_open,
            last_battery_percent: Some(battery_percent),
            last_is_plugged: is_plugged,
            last_magsafe_led: None,
            job: Job::Fresh,
            stage: Stage::Idle,
        }
    }

    /// A copy of the reported state.
    pub fn current_state(&self) -> (s: HelperState)
        ensures
            s.same(self.state),
    {
        self.state.copy()
    }

    /// Records the readings of a poll.
    pub fn record_poll(&mut self, is_plugged: bool, percent: u8)
        ensures
            final(self).last_is_plugged == is_plugged,
            final(self).last_battery_percent == Some(percent),
            final(self).state == old(self).state,
            final(self).stage == old(self).stage,
            final(self).job == old(self).job,
            final(self).adapter_control_available == old(self).adapter_control_available,
            final(self).last_magsafe_led == old(self).last_magsafe_led,
    {
        self.last_is_plugged = is_plugged;
        self.last_battery_percent = Some(percent);
    }

    /// Seconds until the next poll.
    pub fn poll_interval(&self) -> (secs: u64)
        ensures
            secs == if self.last_is_plugged || self.state.power_disabled {
                5u64
            } else {
                15u64
            },
    {
        polling_interval(self.last_is_plugged, Some(self.state.power_disabled))
    }

    /// Records an error as the last error; the error is also logged.
    pub fn set_error(&mut self, message: String) -> (log: String)
        ensures
            same_but_error(old(self).state, final(self).state),
            final(self).last_battery_percent == old(self).last_battery_percent,
            final(self).last_is_plugged == old(self).last_is_plugged,
            opt_view(final(self).state.last_error) == Some(message@),
            log@ == message@,
            final(self).state.mode == old(self).state.mode,
            final(self).state.charging_disabled == old(self).state.charging_disabled,
            final(self).state.power_disabled == old(self).state.power_disabled,
            final(self).state.settings == old(self).state.settings,
            final(self).state.supported == old(self).state.supported,
            final(self).state.control_available == old(self).state.control_available,
            final(self).adapter_control_available == old(self).adapter_control_available,
            final(self).last_magsafe_led == old(self).last_magsafe_led,
            final(self).job == old(self).job,
            final(self).stage == old(self).stage,
    {
        let log = message.clone();
        self.state.last_error = Some(message);
        log
    }

    /// Clears the last error.
    pub fn clear_error(&mut self)
        ensures
            final(self).state == (HelperState { last_error: None, ..old(self).state }),
            final(self).last_battery_percent == old(self).last_battery_percent,
            final(self).last_is_plugged == old(self).last_is_plugged,
            final(self).state.last_error is None,
            final(self).state.mode == old(self).state.mode,
            final(self).state.charging_disabled == old(self).state.charging_disabled,
            final(self).state.power_disabled == old(self).state.power_disabled,
            final(self).state.settings == old(self).state.settings,
            final(self).state.supported == old(self).state.supported,
            final(self).state.control_available == old(self).state.control_available,
            final(self).adapter_control_available == old(self).adapter_control_available,
            final(self).last_magsafe_led == old(self).last_magsafe_led,
            final(self).job == old(self).job,
            final(self).stage == old(self).stage,
    {
        self.state.last_error = None;
    }

    /// Handles the failure of a background SMC operation: `label failed:
    /// error` is logged, and recorded as the last error unless the device was
    /// only busy.
    pub fn background_failed(&mut self, label: &str, error: &str) -> (log: String)
        ensures
            log@ == label@ + " failed: "@ + error@,
            crate::helper::is_transient(error@) ==> final(self).state.last_error == old(self).state.last_error,
            !crate::helper::is_transient(error@) ==> opt_view(final(self).state.last_error) == Some(log@),
            final(self).state.mode == old(self).state.mode,
            final(self).state.charging_disabled == old(self).state.charging_disabled,
            final(self).state.power_disabled == old(self).state.power_disabled,
            final(self).state.settings == old(self).state.settings,
            same_but_error(old(self).state, final(self).state),
            keeps_memory(*old(self), *final(self)),
            final(self).stage == old(self).stage,
            final(self).job == old(self).job,
    {
        let mut v = text::chars_of(label);
        text::push_str(&mut v, " failed: ");
        text::push_str(&mut v, error);
        assert(v@ =~= label@ + " failed: "@ + error@);
        let message = text::string_of(&v);
        if crate::helper::is_transient_resource_error(error) {
            message
        } else {
            let log = message.clone();
            self.state.last_error = Some(message);
            log
        }
    }

    fn finish_ok(&mut self, logs: Vec<String>, reply: Reply) -> (step: Step)
        ensures
            keeps_memory(*old(self), *final(self)),
            keeps_lines(step.logs@, logs@),
            final(self).stage is Idle,
            step.logs@ == logs@,
            step.effect == Effect::Finish(Ok::<Reply, String>(reply)),
            final(self).state == old(self).state,
            final(self).job == old(self).job,
            final(self).adapter_control_available == old(self).adapter_control_available,
            final(self).last_magsafe_led == old(self).last_magsafe_led,
    {
        self.stage = Stage::Idle;
        Step { logs, effect: Effect::Finish(Ok(reply)) }
    }

    fn fail(&mut self, logs: Vec<String>, message: String) -> (step: Step)
        ensures
            fails_with(*old(self), *final(self), step, message@),
            keeps_lines(step.logs@, logs@),
            final(self).stage is Idle,
            final(self).wf(),
            step.effect matches Effect::Finish(Err(e)) && e@ == message@,
            opt_view(final(self).state.last_error) == Some(message@),
            step.logs@.len() > 0 && step.logs@.last()@ == message@,
            final(self).state.mode == old(self).state.mode,
            final(self).state.charging_disabled == old(self).state.charging_disabled,
            final(self).state.power_disabled == old(self).state.power_disabled,
            final(self).state.settings == old(self).state.settings,
            final(self).job == old(self).job,
            final(self).adapter_control_available == old(self).adapter_control_available,
            final(self).last_magsafe_led == old(self).last_magsafe_led,
    {
        let mut logs = logs;
        let log = self.set_error(message.clone());
        logs.push(log);
        self.stage = Stage::Idle;
        Step { logs, effect: Effect::Finish(Err(message)) }
    }
}

/// `out` begins with the lines `lines`.
pub open spec fn keeps_lines(out: Seq<String>, lines: Seq<String>) -> bool {
    lines.len() <= out.len() && forall|i: int| 0 <= i < lines.len() ==> #[trigger] out[i] == lines[i]
}

/// The outcome fits what the stage waits for.
pub open spec fn outcome_fits(stage: Stage, outcome: Outcome) -> bool {
    match stage {
        Stage::Idle => false,
        Stage::AwaitDecode => outcome is Decoded,
        Stage::AwaitPercent => outcome is Percent,
        _ => outcome is Done,
    }
}

/// The name of a mode in the log.
pub open spec fn mode_name(mode: ChargeMode) -> Seq<char> {
    match mode {
        ChargeMode::Standard => "Standard"@,
        ChargeMode::ToLimit => "ToLimit"@,
        ChargeMode::ToFull => "ToFull"@,
    }
}

/// `true` or `false`.
pub open spec fn bool_text(b: bool) -> Seq<char> {
    if b {
        "true"@
    } else {
        "false"@
    }
}

/// The log line of a settings change.
pub open spec fn settings_log(st: Settings) -> Seq<char> {
    "settings updated: min="@ + text::decimal(st.min_charge as nat) + " max="@ + text::decimal(
        st.max_charge as nat,
    ) + " adapter_sleep="@ + bool_text(st.adapter_sleep) + " magsafe_sync="@ + bool_text(
        st.magsafe_sync,
    )
}

/// The log line of a mode change.
fn mode_message(mode: ChargeMode) -> (s: String)
    ensures
        s@ == "charge mode set to "@ + mode_name(mode),
{
    proof {
        reveal_strlit("charge mode set to ");
        reveal_strlit("charge mode set to Standard");
        reveal_strlit("charge mode set to ToLimit");
        reveal_strlit("charge mode set to ToFull");
        reveal_strlit("Standard");
        reveal_strlit("ToLimit");
        reveal_strlit("ToFull");
    }
    match mode {
        ChargeMode::Standard => String::from_str("charge mode set to Standard"),
        ChargeMode::ToLimit => String::from_str("charge mode set to ToLimit"),
        ChargeMode::ToFull => String::from_str("charge mode set to ToFull"),
    }
}

fn push_bool(v: &mut Vec<char>, b: bool)
    ensures
        final(v)@ == old(v)@ + bool_text(b),
{
    if b {
        text::push_str(v, "true");
    } else {
        text::push_str(v, "false");
    }
}

/// The log line of a settings change.
fn settings_message(st: &Settings) -> (s: String)
    ensures
        s@ == settings_log(*st),
{
    let mut v: Vec<char> = Vec::new();
    text::push_str(&mut v, "settings updated: min=");
    text::push_decimal(&mut v, st.min_charge as u64);
    text::push_str(&mut v, " max=");
    text::push_decimal(&mut v, st.max_charge as u64);
    text::push_str(&mut v, " adapter_sleep=");
    push_bool(&mut v, st.adapter_sleep);
    text::push_str(&mut v, " magsafe_sync=");
    push_bool(&mut v, st.magsafe_sync);
    assert(v@ =~= settings_log(*st));
    text::string_of(&v)
}

/// The message for an adapter command on a machine without adapter control.
pub open spec fn no_adapter_message() -> Seq<char> {
    "Power adapter control is not available on this device"@
}

// ---------------------------------------------------------------------------
// What each step does
// ---------------------------------------------------------------------------

/// `b` is `a` with at most its last error changed.
pub open spec fn same_but_error(a: HelperState, b: HelperState) -> bool {
    b == HelperState { last_error: b.last_error, ..a }
}

/// The adapter control, the readings and the last LED value written are
/// kept.
pub open spec fn keeps_memory(old: HelperCore, new: HelperCore) -> bool {
    &&& new.adapter_control_available == old.adapter_control_available
    &&& new.last_battery_percent == old.last_battery_percent
    &&& new.last_is_plugged == old.last_is_plugged
    &&& new.last_magsafe_led == old.last_magsafe_led
}

/// The step fails with `message`, which becomes the last error; nothing
/// else changes.
pub open spec fn fails_with(old: HelperCore, new: HelperCore, step: Step, message: Seq<char>) -> bool {
    &&& (step.effect matches Effect::Finish(Err(e)) && e@ == message)
    &&& same_but_error(old.state, new.state)
    &&& opt_view(new.state.last_error) == Some(message)
    &&& keeps_memory(old, new)
    &&& new.stage is Idle
}

/// The step asks for `effect` and waits in `stage`; the state is now `s`.
pub open spec fn asks(
    old: HelperCore,
    new: HelperCore,
    step: Step,
    s: HelperState,
    effect: Effect,
    stage: Stage,
) -> bool {
    &&& new.state == s
    &&& keeps_memory(old, new)
    &&& step.effect == effect
    &&& new.stage == stage
}

/// The step answers with the state, which is now `s`.
pub open spec fn answers_state(old: HelperCore, new: HelperCore, step: Step, s: HelperState) -> bool {
    &&& new.state == s
    &&& keeps_memory(old, new)
    &&& (step.effect matches Effect::Finish(Ok(Reply::State(r))) && r.same(s))
    &&& new.stage is Idle
}

/// The decisions of an evaluation at `percent` from the state `s`.
pub open spec fn ctx_for(s: HelperState, percent: u8) -> EvalCtx {
    let d = charging_off(s.mode, percent, s.settings, s.charging_disabled);
    EvalCtx {
        percent,
        mode: s.mode,
        settings: s.settings,
        was_disabled: s.charging_disabled,
        disable: d,
        led_disabled: d || s.charging_disabled,
    }
}

/// The end of an evaluation: the LED is written when it is synced and the
/// last value written differs; otherwise the evaluation is over.
pub open spec fn led_step(old: HelperCore, new: HelperCore, step: Step, ctx: EvalCtx) -> bool {
    let v = led_value(ctx.led_disabled, ctx.percent);
    if ctx.settings.magsafe_sync && old.last_magsafe_led != Some(v) {
        asks(old, new, step, old.state, Effect::Smc(SmcAction::MagsafeLed(v)), Stage::AwaitEvalLed(ctx, v))
    } else {
        &&& new.state == old.state
        &&& keeps_memory(old, new)
        &&& step.effect == Effect::Finish(Ok(Reply::Nothing))
        &&& new.stage is Idle
    }
}

/// After charging is as decided: a mode the policy changes is set and
/// saved, then the LED follows.
pub open spec fn mode_step(old: HelperCore, new: HelperCore, step: Step, ctx: EvalCtx) -> bool {
    let m = mode_after(ctx.mode, ctx.percent, ctx.settings.max_charge);
    if m != old.state.mode {
        let s = HelperState { mode: m, ..old.state };
        asks(old, new, step, s, Effect::SaveRuntime(runtime_of(s)), Stage::AwaitEvalMode(ctx))
    } else {
        led_step(old, new, step, ctx)
    }
}

/// What follows once charging is switched: the answer of a request, or the
/// rest of an evaluation.
pub open spec fn after_switch(old: HelperCore, new: HelperCore, step: Step, cont: Cont) -> bool {
    match cont {
        Cont::ReplyState => answers_state(old, new, step, old.state),
        Cont::Eval(ctx) => mode_step(old, new, step, ctx),
    }
}

/// Switching charging to `disable`: the SMC write when it is not so
/// already, otherwise straight on.
pub open spec fn switch_step(
    old: HelperCore,
    new: HelperCore,
    step: Step,
    disable: bool,
    cont: Cont,
) -> bool {
    if old.state.charging_disabled == disable {
        after_switch(old, new, step, cont)
    } else {
        asks(
            old,
            new,
            step,
            old.state,
            Effect::Smc(charging_action(disable)),
            Stage::AwaitChargingSmc(disable, cont),
        )
    }
}

/// An evaluation at `percent`: charging is switched as the policy decides,
/// then the mode and the LED follow.
pub open spec fn eval_step(old: HelperCore, new: HelperCore, step: Step, percent: u8) -> bool {
    let ctx = ctx_for(old.state, percent);
    &&& new.job == Job::Evaluate(ctx)
    &&& switch_step(old, new, step, ctx.disable, Cont::Eval(ctx))
}

/// A mode request: the mode is set and saved first.
pub open spec fn mode_request(old: HelperCore, new: HelperCore, step: Step, m: ChargeMode) -> bool {
    let s = HelperState { mode: m, ..old.state };
    asks(old, new, step, s, Effect::SaveRuntime(runtime_of(s)), Stage::AwaitModeRuntime(m))
}

/// An adapter request: refused without adapter control, answered at once
/// when the adapter is so already, otherwise the switch is set and saved.
pub open spec fn adapter_request(old: HelperCore, new: HelperCore, step: Step, disable: bool) -> bool {
    if !old.adapter_control_available {
        fails_with(old, new, step, no_adapter_message())
    } else if old.state.power_disabled == disable {
        answers_state(old, new, step, old.state)
    } else {
        let s = HelperState { power_disabled: disable, ..old.state };
        asks(old, new, step, s, Effect::SaveRuntime(runtime_of(s)), Stage::AwaitAdapterRuntime(disable))
    }
}

/// The first step of the request `c`.
pub open spec fn request_step(old: HelperCore, new: HelperCore, step: Step, c: Command) -> bool {
    match c {
        Command::Ping | Command::GetState | Command::GetSettings => {
            &&& new.state == old.state
            &&& keeps_memory(old, new)
            &&& new.stage is Idle
            &&& step.effect is Finish
        },
        Command::SetSettings => asks(old, new, step, old.state, Effect::DecodeSettings, Stage::AwaitDecode),
        Command::ChargeToFull => mode_request(old, new, step, ChargeMode::ToFull),
        Command::ChargeToLimit => mode_request(old, new, step, ChargeMode::ToLimit),
        Command::ResetChargeMode => mode_request(old, new, step, ChargeMode::Standard),
        Command::DisableCharging => switch_step(old, new, step, true, Cont::ReplyState),
        Command::DisableAdapter => adapter_request(old, new, step, true),
        Command::EnableAdapter => adapter_request(old, new, step, false),
        Command::Unknown(n) => fails_with(old, new, step, "Unknown helper command: "@ + n@),
    }
}

/// A settings request is over: the last error is cleared and the state as
/// it stood before is the answer; `led` is the last LED value written.
pub open spec fn settings_done(old: HelperCore, new: HelperCore, step: Step, led: Option<u8>) -> bool {
    &&& new.state == HelperState { last_error: None, ..old.state }
    &&& (step.effect matches Effect::Finish(Ok(Reply::State(r))) && r.same(old.state))
    &&& new.adapter_control_available == old.adapter_control_available
    &&& new.last_battery_percent == old.last_battery_percent
    &&& new.last_is_plugged == old.last_is_plugged
    &&& new.last_magsafe_led == led
    &&& new.stage is Idle
}

/// What `resume` does with each outcome, stage by stage: a failed effect
/// ends the job with its error and changes nothing else; a successful one
/// leads to the next effect or the answer.
pub open spec fn resume_step(old: HelperCore, new: HelperCore, step: Step, outcome: Outcome) -> bool {
    match old.stage {
        Stage::AwaitDecode => match outcome {
            Outcome::Decoded(Ok(st)) => match settings_error(st) {
                None => asks(old, new, step, old.state, Effect::SaveSettings(st), Stage::AwaitSaveSettings(st)),
                Some(m) => fails_with(old, new, step, m),
            },
            Outcome::Decoded(Err(e)) => fails_with(old, new, step, e@),
            _ => true,
        },
        Stage::AwaitSaveSettings(st) => match outcome {
            Outcome::Done(Ok(_)) => {
                let s = HelperState { settings: st, ..old.state };
                asks(old, new, step, s, Effect::SaveRuntime(runtime_of(s)), Stage::AwaitSettingsRuntime(st))
            },
            Outcome::Done(Err(e)) => fails_with(old, new, step, e@),
            _ => true,
        },
        Stage::AwaitSettingsRuntime(st) => match outcome {
            Outcome::Done(Ok(_)) => if st.magsafe_sync && old.last_magsafe_led != Some(0u8) {
                asks(old, new, step, old.state, Effect::Smc(SmcAction::MagsafeLed(0)), Stage::AwaitSystemLed(st))
            } else {
                new.state.settings == st && settings_done(old, new, step, old.last_magsafe_led)
            },
            Outcome::Done(Err(e)) => fails_with(old, new, step, e@),
            _ => true,
        },
        Stage::AwaitSystemLed(st) => new.state.settings == st && settings_done(
            old,
            new,
            step,
            match outcome {
                Outcome::Done(Ok(_)) => Some(0u8),
                _ => old.last_magsafe_led,
            },
        ),
        Stage::AwaitModeRuntime(m) => match outcome {
            Outcome::Done(Ok(_)) => if m == ChargeMode::Standard {
                answers_state(old, new, step, old.state)
            } else {
                switch_step(old, new, step, false, Cont::ReplyState)
            },
            Outcome::Done(Err(e)) => fails_with(old, new, step, e@),
            _ => true,
        },
        Stage::AwaitChargingSmc(d, c) => match outcome {
            Outcome::Done(Ok(_)) => {
                let s = HelperState { charging_disabled: d, ..old.state };
                asks(old, new, step, s, Effect::SaveRuntime(runtime_of(s)), Stage::AwaitChargingRuntime(d, c))
            },
            Outcome::Done(Err(e)) => fails_with(old, new, step, e@),
            _ => true,
        },
        Stage::AwaitChargingRuntime(_, c) => match outcome {
            Outcome::Done(Ok(_)) => after_switch(
                HelperCore { state: HelperState { last_error: None, ..old.state }, ..old },
                new,
                step,
                c,
            ),
            Outcome::Done(Err(e)) => fails_with(old, new, step, e@),
            _ => true,
        },
        Stage::AwaitAdapterRuntime(d) => match outcome {
            Outcome::Done(Ok(_)) => asks(
                old,
                new,
                step,
                HelperState { last_error: None, ..old.state },
                Effect::SpawnSmc(adapter_action(d)),
                Stage::AwaitAdapterSpawn(d),
            ),
            Outcome::Done(Err(e)) => fails_with(old, new, step, e@),
            _ => true,
        },
        Stage::AwaitAdapterSpawn(_) => answers_state(old, new, step, old.state),
        Stage::AwaitPercent => match outcome {
            Outcome::Percent(p) => eval_step(HelperCore { last_battery_percent: Some(p), ..old }, new, step, p),
            _ => true,
        },
        Stage::AwaitEvalMode(ctx) => match outcome {
            Outcome::Done(Ok(_)) => led_step(old, new, step, ctx),
            Outcome::Done(Err(e)) => fails_with(old, new, step, e@),
            _ => true,
        },
        Stage::AwaitEvalLed(_, v) => {
            &&& new.state == old.state
            &&& new.adapter_control_available == old.adapter_control_available
            &&& new.last_battery_percent == old.last_battery_percent
            &&& new.last_is_plugged == old.last_is_plugged
            &&& new.last_magsafe_led == match outcome {
                Outcome::Done(Ok(_)) => Some(v),
                _ => old.last_magsafe_led,
            }
            &&& step.effect == Effect::Finish(Ok(Reply::Nothing))
            &&& new.stage is Idle
        },
        Stage::Idle => true,
    }
}

impl HelperCore {
    fn start_mode(&mut self, logs: Vec<String>, mode: ChargeMode) -> (step: Step)
        requires
            match old(self).job {
                Job::Request(Command::ChargeToFull) => mode == ChargeMode::ToFull,
                Job::Request(Command::ChargeToLimit) => mode == ChargeMode::ToLimit,
                Job::Request(Command::ResetChargeMode) => mode == ChargeMode::Standard,
                _ => false,
            },
        ensures
            mode_request(*old(self), *final(self), step, mode),
            keeps_lines(step.logs@, logs@),
            final(self).step_ok(step),
            final(self).job == old(self).job,
            final(self).adapter_control_available == old(self).adapter_control_available,
    {
        self.state.mode = mode;
        self.stage = Stage::AwaitModeRuntime(mode);
        Step { logs, effect: Effect::SaveRuntime(runtime_record(&self.state)) }
    }

    fn start_charging(&mut self, logs: Vec<String>, disable: bool, cont: Cont) -> (step: Step)
        requires
            charging_cont_ok(old(self).job, old(self).state, disable, cont),
        ensures
            switch_step(*old(self), *final(self), step, disable, cont),
            keeps_lines(step.logs@, logs@),
            final(self).step_ok(step),
            final(self).job == old(self).job,
            final(self).adapter_control_available == old(self).adapter_control_available,
    {
        if self.state.charging_disabled == disable {
            return self.after_charging(logs, disable, cont);
        }
        self.stage = Stage::AwaitChargingSmc(disable, cont);
        let action = if disable {
            SmcAction::DisableCharging
        } else {
            SmcAction::EnableCharging
        };
        Step { logs, effect: Effect::Smc(action) }
    }

    fn after_charging(&mut self, logs: Vec<String>, disable: bool, cont: Cont) -> (step: Step)
        requires
            charging_cont_ok(old(self).job, old(self).state, disable, cont),
            old(self).state.charging_disabled == disable,
        ensures
            after_switch(*old(self), *final(self), step, cont),
            keeps_lines(step.logs@, logs@),
            final(self).step_ok(step),
            final(self).job == old(self).job,
            final(self).adapter_control_available == old(self).adapter_control_available,
    {
        match cont {
            Cont::ReplyState => {
                let s = self.state.copy();
                self.finish_ok(logs, Reply::State(s))
            },
            Cont::Eval(ctx) => self.eval_after_charging(logs, ctx),
        }
    }

    fn start_adapter(&mut self, logs: Vec<String>, disable: bool) -> (step: Step)
        requires
            if disable {
                old(self).job matches Job::Request(Command::DisableAdapter)
            } else {
                old(self).job matches Job::Request(Command::EnableAdapter)
            },
        ensures
            adapter_request(*old(self), *final(self), step, disable),
            keeps_lines(step.logs@, logs@),
            final(self).step_ok(step),
            final(self).job == old(self).job,
            final(self).adapter_control_available == old(self).adapter_control_available,
            !old(self).adapter_control_available ==> (step.effect matches Effect::Finish(Err(e)) && e@
                == no_adapter_message()),
    {
        if !self.adapter_control_available {
            return self.fail(
                logs,
                String::from_str("Power adapter control is not available on this device"),
            );
        }
        if self.state.power_disabled == disable {
            let s = self.state.copy();
            return self.finish_ok(logs, Reply::State(s));
        }
        self.state.power_disabled = disable;
        self.stage = Stage::AwaitAdapterRuntime(disable);
        Step { logs, effect: Effect::SaveRuntime(runtime_record(&self.state)) }
    }

    fn eval_with_percent(&mut self, logs: Vec<String>, percent: u8) -> (step: Step)
        ensures
            eval_step(*old(self), *final(self), step, percent),
            final(self).step_ok(step),
            final(self).job matches Job::Evaluate(c) && c.percent == percent && c.mode == old(
                self,
            ).state.mode && c.settings == old(self).state.settings && c.was_disabled == old(
                self,
            ).state.charging_disabled,
            final(self).adapter_control_available == old(self).adapter_control_available,
    {
        let mode = self.state.mode;
        let settings = self.state.settings;
        let was_disabled = self.state.charging_disabled;
        let disable = charging_decision(mode, percent, settings, was_disabled);
        let ctx = EvalCtx {
            percent,
            mode,
            settings,
            was_disabled,
            disable,
            led_disabled: disable || was_disabled,
        };
        self.job = Job::Evaluate(ctx);
        if disable != was_disabled {
            self.start_charging(logs, disable, Cont::Eval(ctx))
        } else {
            self.eval_after_charging(logs, ctx)
        }
    }

    fn eval_after_charging(&mut self, logs: Vec<String>, ctx: EvalCtx) -> (step: Step)
        requires
            old(self).job == Job::Evaluate(ctx),
            eval_ctx_ok(ctx),
            old(self).state.charging_disabled == ctx.disable,
            old(self).state.mode == ctx.mode,
            old(self).state.settings == ctx.settings,
        ensures
            mode_step(*old(self), *final(self), step, ctx),
            keeps_lines(step.logs@, logs@),
            final(self).step_ok(step),
            final(self).job == old(self).job,
            final(self).adapter_control_available == old(self).adapter_control_available,
    {
        let new_mode = next_mode(self.state.mode, ctx.percent, self.state.settings.max_charge);
        if new_mode != self.state.mode {
            self.state.mode = new_mode;
            self.stage = Stage::AwaitEvalMode(ctx);
            return Step { logs, effect: Effect::SaveRuntime(runtime_record(&self.state)) };
        }
        self.eval_led(logs, ctx)
    }

    fn eval_led(&mut self, logs: Vec<String>, ctx: EvalCtx) -> (step: Step)
        requires
            eval_done_ok(old(self).job, old(self).state, ctx),
        ensures
            led_step(*old(self), *final(self), step, ctx),
            keeps_lines(step.logs@, logs@),
            final(self).step_ok(step),
            final(self).job == old(self).job,
            final(self).adapter_control_available == old(self).adapter_control_available,
    {
        if ctx.settings.magsafe_sync {
            let value = magsafe_led_value(ctx.led_disabled, ctx.percent);
            if self.last_magsafe_led != Some(value) {
                self.stage = Stage::AwaitEvalLed(ctx, value);
                return Step { logs, effect: Effect::Smc(SmcAction::MagsafeLed(value)) };
            }
        }
        self.finish_ok(logs, Reply::Nothing)
    }

    fn finish_settings(&mut self, logs: Vec<String>, st: Settings) -> (step: Step)
        requires
            old(self).job matches Job::Request(Command::SetSettings),
            settings_valid(st),
            old(self).state.settings == st,
        ensures
            settings_done(*old(self), *final(self), step, old(self).last_magsafe_led),
            keeps_lines(step.logs@, logs@),
            step.logs@.len() > logs@.len() && step.logs@[logs@.len() as int]@ == settings_log(st),
            final(self).step_ok(step),
            final(self).job == old(self).job,
            final(self).adapter_control_available == old(self).adapter_control_available,
    {
        let mut logs = logs;
        logs.push(settings_message(&st));
        let snapshot = self.state.copy();
        self.clear_error();
        self.finish_ok(logs, Reply::State(snapshot))
    }

    /// Starts handling the request `name`. The first step logs the command
    /// (unless it only reads) and answers at once, fails, or asks for the
    /// first effect.
    pub fn begin_request(&mut self, name: &str) -> (step: Step)
        requires
            old(self).stage is Idle,
        ensures
            final(self).step_ok(step),
            final(self).job matches Job::Request(c) && command_named(c, name@) && request_step(
                *old(self),
                *final(self),
                step,
                c,
            ),
            final(self).adapter_control_available == old(self).adapter_control_available,
            final(self).state.supported == old(self).state.supported,
            final(self).state.control_available == old(self).state.control_available,
            final(self).job matches Job::Request(Command::Unknown(_)) ==> (step.effect matches Effect::Finish(
                Err(e),
            ) && e@ == "Unknown helper command: "@ + name@),
            (final(self).job matches Job::Request(Command::DisableAdapter) || final(self).job matches Job::Request(
                Command::EnableAdapter,
            )) && !old(self).adapter_control_available ==> (step.effect matches Effect::Finish(
                Err(e),
            ) && e@ == no_adapter_message()),
            final(self).job matches Job::Request(Command::SetSettings) ==> step.effect
                is DecodeSettings,
            is_read_only_command(name@) ==> step.logs@.len() == 0,
            !is_read_only_command(name@) ==> step.logs@.len() > 0 && step.logs@[0]@ == "[command] "@
                + name@,
    {
        let mut logs: Vec<String> = Vec::new();
        match crate::helper::command_log_line(name, None) {
            Some(l) => logs.push(l),
            None => {},
        }
        let cmd = parse_command(name);
        self.job = Job::Request(cmd.duplicate());
        assert(self.job == Job::Request(cmd));
        match cmd {
            Command::Ping => self.finish_ok(logs, Reply::Pong),
            Command::GetState => {
                let s = self.state.copy();
                self.finish_ok(logs, Reply::State(s))
            },
            Command::GetSettings => {
                let st = self.state.settings;
                self.finish_ok(logs, Reply::Settings(st))
            },
            Command::SetSettings => {
                self.stage = Stage::AwaitDecode;
                Step { logs, effect: Effect::DecodeSettings }
            },
            Command::ChargeToFull => self.start_mode(logs, ChargeMode::ToFull),
            Command::ChargeToLimit => self.start_mode(logs, ChargeMode::ToLimit),
            Command::ResetChargeMode => self.start_mode(logs, ChargeMode::Standard),
            Command::DisableCharging => self.start_charging(logs, true, Cont::ReplyState),
            Command::DisableAdapter => self.start_adapter(logs, true),
            Command::EnableAdapter => self.start_adapter(logs, false),
            Command::Unknown(n) => {
                let message = text::concat("Unknown helper command: ", n.as_str());
                self.fail(logs, message)
            },
        }
    }

    /// Starts an evaluation of the charging policy.
    pub fn begin_evaluate(&mut self) -> (step: Step)
        requires
            old(self).stage is Idle,
        ensures
            final(self).step_ok(step),
            old(self).last_battery_percent is None ==> step.effect is ReadBatteryPercent,
            old(self).last_battery_percent is None ==> asks(
                *old(self),
                *final(self),
                step,
                old(self).state,
                Effect::ReadBatteryPercent,
                Stage::AwaitPercent,
            ) && final(self).job == Job::EvaluatePending,
            old(self).last_battery_percent matches Some(p) ==> eval_step(*old(self), *final(self), step, p),
            final(self).state.supported == old(self).state.supported,
            final(self).state.control_available == old(self).state.control_available,
            old(self).last_battery_percent matches Some(p) ==> final(self).job matches Job::Evaluate(
                c,
            ) && c.percent == p && c.mode == old(self).state.mode && c.settings == old(
                self,
            ).state.settings && c.was_disabled == old(self).state.charging_disabled,
            final(self).adapter_control_available == old(self).adapter_control_available,
    {
        match self.last_battery_percent {
            Some(p) => self.eval_with_percent(Vec::new(), p),
            None => {
                self.job = Job::EvaluatePending;
                self.stage = Stage::AwaitPercent;
                Step { logs: Vec::new(), effect: Effect::ReadBatteryPercent }
            },
        }
    }

    /// Continues with the outcome of the last effect.
    #[verifier::rlimit(100)]
    #[verifier::spinoff_prover]
    pub fn resume(&mut self, outcome: Outcome) -> (step: Step)
        requires
            old(self).wf(),
            outcome_fits(old(self).stage, outcome),
        ensures
            final(self).step_ok(step),
            resume_step(*old(self), *final(self), step, outcome),
            final(self).adapter_control_available == old(self).adapter_control_available,
            final(self).state.supported == old(self).state.supported,
            final(self).state.control_available == old(self).state.control_available,
            old(self).job is Request ==> final(self).job == old(self).job,
            old(self).job is Evaluate ==> final(self).job == old(self).job,
            outcome matches Outcome::Done(Err(e)) ==> (!(old(self).stage is AwaitSystemLed)
                && !(old(self).stage is AwaitEvalLed) && !(old(self).stage is AwaitAdapterSpawn)
                ==> (step.effect matches Effect::Finish(Err(e2)) && e2@ == e@)),
            outcome matches Outcome::Decoded(Err(e)) ==> (step.effect matches Effect::Finish(
                Err(e2),
            ) && e2@ == e@),
            old(self).stage matches Stage::AwaitModeRuntime(m) ==> ((outcome matches Outcome::Done(
                Ok(_),
            )) ==> step.logs@.len() > 0 && step.logs@[0]@ == "charge mode set to "@ + mode_name(m)),
            old(self).stage matches Stage::AwaitChargingRuntime(d, _) ==> ((outcome matches Outcome::Done(
                Ok(_),
            )) ==> step.logs@.len() > 0 && step.logs@[0]@ == if d {
                "charging disabled"@
            } else {
                "charging enabled"@
            }),
            old(self).stage matches Stage::AwaitAdapterRuntime(d) ==> ((outcome matches Outcome::Done(
                Ok(_),
            )) ==> step.logs@.len() > 0 && step.logs@[0]@ == if d {
                "adapter disabled"@
            } else {
                "adapter enabled"@
            }),
            old(self).stage matches Stage::AwaitSystemLed(st) ==> step.logs@.len() > 0
                && step.logs@[0]@ == settings_log(st),
            old(self).stage matches Stage::AwaitSettingsRuntime(st) ==> ((outcome matches Outcome::Done(
                Ok(_),
            )) && step.effect is Finish ==> step.logs@.len() > 0 && step.logs@[0]@ == settings_log(st)),
    {
        let stage = self.stage;
        match stage {
            Stage::AwaitDecode => match outcome {
                Outcome::Decoded(Ok(st)) => match validate_settings(&st) {
                    Ok(()) => {
                        self.stage = Stage::AwaitSaveSettings(st);
                        Step { logs: Vec::new(), effect: Effect::SaveSettings(st) }
                    },
                    Err(e) => self.fail(Vec::new(), e),
                },
                Outcome::Decoded(Err(e)) => self.fail(Vec::new(), e),
                _ => self.fail(Vec::new(), String::new()),
            },
            Stage::AwaitSaveSettings(st) => match outcome {
                Outcome::Done(Ok(())) => {
                    self.state.settings = st;
                    self.stage = Stage::AwaitSettingsRuntime(st);
                    Step { logs: Vec::new(), effect: Effect::SaveRuntime(runtime_record(&self.state)) }
                },
                Outcome::Done(Err(e)) => self.fail(Vec::new(), e),
                _ => self.fail(Vec::new(), String::new()),
            },
            Stage::AwaitSettingsRuntime(st) => match outcome {
                Outcome::Done(Ok(())) => {
                    if st.magsafe_sync && self.last_magsafe_led != Some(0u8) {
                        self.stage = Stage::AwaitSystemLed(st);
                        Step { logs: Vec::new(), effect: Effect::Smc(SmcAction::MagsafeLed(0)) }
                    } else {
                        self.finish_settings(Vec::new(), st)
                    }
                },
                Outcome::Done(Err(e)) => self.fail(Vec::new(), e),
                _ => self.fail(Vec::new(), String::new()),
            },
            Stage::AwaitSystemLed(st) => {
                if let Outcome::Done(Ok(())) = outcome {
                    self.last_magsafe_led = Some(0);
                }
                self.finish_settings(Vec::new(), st)
            },
            Stage::AwaitModeRuntime(m) => match outcome {
                Outcome::Done(Ok(())) => {
                    let mut logs: Vec<String> = Vec::new();
                    logs.push(mode_message(m));
                    match m {
                        ChargeMode::Standard => {
                            let s = self.state.copy();
                            self.finish_ok(logs, Reply::State(s))
                        },
                        _ => self.start_charging(logs, false, Cont::ReplyState),
                    }
                },
                Outcome::Done(Err(e)) => self.fail(Vec::new(), e),
                _ => self.fail(Vec::new(), String::new()),
            },
            Stage::AwaitChargingSmc(d, c) => match outcome {
                Outcome::Done(Ok(())) => {
                    self.state.charging_disabled = d;
                    self.stage = Stage::AwaitChargingRuntime(d, c);
                    Step { logs: Vec::new(), effect: Effect::SaveRuntime(runtime_record(&self.state)) }
                },
                Outcome::Done(Err(e)) => self.fail(Vec::new(), e),
                _ => self.fail(Vec::new(), String::new()),
            },
            Stage::AwaitChargingRuntime(d, c) => match outcome {
                Outcome::Done(Ok(())) => {
                    let mut logs: Vec<String> = Vec::new();
                    if d {
                        logs.push(String::from_str("charging disabled"));
                    } else {
                        logs.push(String::from_str("charging enabled"));
                    }
                    self.clear_error();
                    self.after_charging(logs, d, c)
                },
                Outcome::Done(Err(e)) => self.fail(Vec::new(), e),
                _ => self.fail(Vec::new(), String::new()),
            },
            Stage::AwaitAdapterRuntime(d) => match outcome {
                Outcome::Done(Ok(())) => {
                    let mut logs: Vec<String> = Vec::new();
                    if d {
                        logs.push(String::from_str("adapter disabled"));
                    } else {
                        logs.push(String::from_str("adapter enabled"));
                    }
                    self.clear_error();
                    self.stage = Stage::AwaitAdapterSpawn(d);
                    let action = if d {
                        SmcAction::DisableAdapter
                    } else {
                        SmcAction::EnableAdapter
                    };
                    Step { logs, effect: Effect::SpawnSmc(action) }
                },
                Outcome::Done(Err(e)) => self.fail(Vec::new(), e),
                _ => self.fail(Vec::new(), String::new()),
            },
            Stage::AwaitAdapterSpawn(_) => {
                let s = self.state.copy();
                self.finish_ok(Vec::new(), Reply::State(s))
            },
            Stage::AwaitPercent => match outcome {
                Outcome::Percent(p) => {
                    self.last_battery_percent = Some(p);
                    self.eval_with_percent(Vec::new(), p)
                },
                _ => self.fail(Vec::new(), String::new()),
            },
            Stage::AwaitEvalMode(ctx) => match outcome {
                Outcome::Done(Ok(())) => self.eval_led(Vec::new(), ctx),
                Outcome::Done(Err(e)) => self.fail(Vec::new(), e),
                _ => self.fail(Vec::new(), String::new()),
            },
            Stage::AwaitEvalLed(ctx, v) => {
                if let Outcome::Done(Ok(())) = outcome {
                    self.last_magsafe_led = Some(v);
                }
                self.finish_ok(Vec::new(), Reply::Nothing)
            },
            Stage::Idle => self.fail(Vec::new(), String::new()),
        }
    }
}

// ---------------------------------------------------------------------------
// Laws of the charging policy
// ---------------------------------------------------------------------------

/// In `Standard` mode charging stops at or above the upper threshold,
/// resumes below the lower one, and in between stays as it is.
pub proof fn law_standard_mode_hysteresis(percent: u8, settings: Settings, off_now: bool)
    ensures
        percent >= settings.max_charge ==> charging_off(ChargeMode::Standard, percent, settings, off_now),
        percent < settings.min_charge && percent < settings.max_charge ==> !charging_off(
            ChargeMode::Standard,
            percent,
            settings,
            off_now,
        ),
        settings.min_charge <= percent < settings.max_charge ==> charging_off(
            ChargeMode::Standard,
            percent,
            settings,
            off_now,
        ) == off_now,
{
}

/// `ToFull` never stops charging.
pub proof fn law_to_full_always_charges(percent: u8, settings: Settings, off_now: bool)
    ensures
        !charging_off(ChargeMode::ToFull, percent, settings, off_now),
{
}

/// `ToLimit` charges exactly while the level is below the upper threshold,
/// whatever the current switch.
pub proof fn law_to_limit_charges_to_threshold(percent: u8, settings: Settings, off_now: bool)
    ensures
        charging_off(ChargeMode::ToLimit, percent, settings, off_now) == (percent
            >= settings.max_charge),
{
}

/// A one-shot mode returns to `Standard` once its target is reached, and
/// stays otherwise; `Standard` stays.
pub proof fn law_one_shot_modes_end(percent: u8, max_charge: u8)
    ensures
        mode_after(ChargeMode::Standard, percent, max_charge) == ChargeMode::Standard,
        mode_after(ChargeMode::ToLimit, percent, max_charge) == if percent >= max_charge {
            ChargeMode::Standard
        } else {
            ChargeMode::ToLimit
        },
        mode_after(ChargeMode::ToFull, percent, max_charge) == if percent >= 100 {
            ChargeMode::Standard
        } else {
            ChargeMode::ToFull
        },
{
}

/// With valid settings the charge level is held inside the band: charging
/// is on below the lower threshold in every mode, and off at or above the
/// upper threshold unless the user asked to charge to full.
pub proof fn law_band_is_kept(mode: ChargeMode, percent: u8, settings: Settings, off_now: bool)
    requires
        settings_valid(settings),
    ensures
        percent < settings.min_charge ==> !charging_off(mode, percent, settings, off_now),
        percent >= settings.max_charge && mode != ChargeMode::ToFull ==> charging_off(
            mode,
            percent,
            settings,
            off_now,
        ),
{
}

/// Evaluating again at the same charge level changes nothing more, except
/// when a charge to full has just completed (then the limits apply again).
pub proof fn law_evaluation_settles(mode: ChargeMode, percent: u8, settings: Settings, off_now: bool)
    requires
        !(mode == ChargeMode::ToFull && percent >= 100),
    ensures
        ({
            let off1 = charging_off(mode, percent, settings, off_now);
            let mode1 = mode_after(mode, percent, settings.max_charge);
            &&& charging_off(mode1, percent, settings, off1) == off1
            &&& mode_after(mode1, percent, settings.max_charge) == mode1
        }),
{
}

/// The LED is off while charging is stopped, green at 100 %, orange while
/// charging below it.
pub proof fn law_led_follows_charging(charging_disabled: bool, percent: u8)
    ensures
        charging_disabled ==> led_value(charging_disabled, percent) == 0x01,
        !charging_disabled && percent >= 100 ==> led_value(charging_disabled, percent) == 0x03,
        !charging_disabled && percent < 100 ==> led_value(charging_disabled, percent) == 0x04,
{
}

/// Every answer carries its request's id and is `ok` exactly when it has no
/// error; a granted request answers with the reply its job guarantees, and
/// a refused one with no reply and the error the helper now reports as its
/// last error.
pub proof fn law_reply_matches_request(
    core: HelperCore,
    step: Step,
    outcome: Result<Reply, String>,
    id: Seq<char>,
    a: Answer,
)
    requires
        core.step_ok(step),
        step.effect == Effect::Finish(outcome),
        answers(a, id, outcome),
    ensures
        a.id@ == id,
        a.ok <==> a.error is None,
        !a.ok ==> a.reply is None && opt_view(core.state.last_error) == opt_view(a.error),
        a.ok ==> (outcome matches Ok(r) && a.reply == Some(r) && job_post(
            core.job,
            core.state,
            core.adapter_control_available,
            r,
        )),
{
}

/// Stopping charging when it is already stopped answers at once with the
/// state unchanged and no SMC write. Otherwise the SMC write comes first,
/// then the runtime record with charging off, and the answer has charging
/// off and the last error cleared; asking again is then a no-op.
pub proof fn law_disable_charging_idempotent(
    c0: HelperCore,
    c1: HelperCore,
    s1: Step,
    c2: HelperCore,
    s2: Step,
    c3: HelperCore,
    s3: Step,
    c4: HelperCore,
    s4: Step,
)
    requires
        request_step(c0, c1, s1, Command::DisableCharging),
        !c0.state.charging_disabled ==> resume_step(c1, c2, s2, Outcome::Done(Ok(())))
            && resume_step(c2, c3, s3, Outcome::Done(Ok(()))),
        c0.state.charging_disabled ==> c3 == c1 && s3 == s1,
        request_step(c3, c4, s4, Command::DisableCharging),
    ensures
        c0.state.charging_disabled ==> c1.state == c0.state && !(s1.effect is Smc) && (
        s1.effect matches Effect::Finish(Ok(Reply::State(r))) && r.same(c0.state)),
        !c0.state.charging_disabled ==> s1.effect == Effect::Smc(SmcAction::DisableCharging)
            && s2.effect == Effect::SaveRuntime(runtime_of(c2.state)) && c2.state.charging_disabled
            && c3.state.charging_disabled && c3.state.last_error is None && (s3.effect matches Effect::Finish(
            Ok(Reply::State(r)),
        ) && r.charging_disabled),
        c3.state.charging_disabled,
        c4.state == c3.state,
        !(s4.effect is Smc),
        s4.effect matches Effect::Finish(Ok(Reply::State(r))) && r.same(c3.state),
{
}

/// With the LED synced, an evaluation writes the LED whenever its value for
/// the decided charging state and level differs from the last value written,
/// and skips the write only when they are equal. This holds at whichever
/// point the evaluation reaches the LED: at once (charging and mode stay),
/// after switching charging (the mode stays), or after saving a new mode.
pub proof fn law_led_written_when_it_differs(
    old: HelperCore,
    new: HelperCore,
    step: Step,
    p: u8,
    ctx: EvalCtx,
)
    ensures
        eval_step(old, new, step, p) && old.state.settings.magsafe_sync && charging_off(
            old.state.mode,
            p,
            old.state.settings,
            old.state.charging_disabled,
        ) == old.state.charging_disabled && mode_after(old.state.mode, p, old.state.settings.max_charge)
            == old.state.mode ==> (old.last_magsafe_led != Some(
            led_value(old.state.charging_disabled, p),
        ) <==> step.effect == Effect::Smc(SmcAction::MagsafeLed(led_value(old.state.charging_disabled, p)))),
        old.stage == Stage::AwaitChargingRuntime(ctx.disable, Cont::Eval(ctx)) && resume_step(
            old,
            new,
            step,
            Outcome::Done(Ok(())),
        ) && ctx.settings.magsafe_sync && mode_after(ctx.mode, ctx.percent, ctx.settings.max_charge)
            == old.state.mode ==> (old.last_magsafe_led != Some(led_value(ctx.led_disabled, ctx.percent))
            <==> step.effect == Effect::Smc(SmcAction::MagsafeLed(led_value(ctx.led_disabled, ctx.percent)))),
        old.stage == Stage::AwaitEvalMode(ctx) && resume_step(old, new, step, Outcome::Done(Ok(())))
            && ctx.settings.magsafe_sync ==> (old.last_magsafe_led != Some(
            led_value(ctx.led_disabled, ctx.percent),
        ) <==> step.effect == Effect::Smc(SmcAction::MagsafeLed(led_value(ctx.led_disabled, ctx.percent)))),
{
}

} // verus!
