//! The battery data model, the settings rules, and the parsers for the
//! reports of `pmset`, `ioreg` and `system_profiler`.
use vstd::prelude::*;
use vstd::string::StringExecFns;
use crate::text;

verus! {

// ---------------------------------------------------------------------------
// Data model
// ---------------------------------------------------------------------------

/// The charging policy the helper follows.
#[derive(Clone, Copy, Debug, PartialEq, Eq, Structural)]
pub enum ChargeMode {
    /// Keep the charge between the two thresholds.
    Standard,
    /// Charge up to the upper threshold once, then go back to `Standard`.
    ToLimit,
    /// Charge up to 100 % once, then go back to `Standard`.
    ToFull,
}

/// The user's charging thresholds and options.
#[derive(Clone, Copy, Debug, PartialEq, Eq, Structural)]
pub struct Settings {
    pub min_charge: u8,
    pub max_charge: u8,
    pub adapter_sleep: bool,
    pub magsafe_sync: bool,
}

/// The settings used when none are stored.
pub open spec fn default_settings() -> Settings {
    Settings { min_charge: 40, max_charge: 80, adapter_sleep: false, magsafe_sync: true }
}

impl Default for Settings {
    fn default() -> (s: Self)
        ensures
            s == default_settings(),
    {
        Settings { min_charge: 40, max_charge: 80, adapter_sleep: false, magsafe_sync: true }
    }
}

/// What the helper persists between runs; every field may be missing.
#[derive(Clone, Copy, Debug, PartialEq, Eq, Structural)]
pub struct RuntimeState {
    pub mode: Option<ChargeMode>,
    pub charging_disabled: Option<bool>,
    pub power_disabled: Option<bool>,
}

impl Default for RuntimeState {
    fn default() -> (s: Self)
        ensures
            s == (RuntimeState { mode: None, charging_disabled: None, power_disabled: None }),
    {
        RuntimeState { mode: None, charging_disabled: None, power_disabled: None }
    }
}

/// The helper's state as it reports it to clients.
#[derive(Clone, Debug)]
pub struct HelperState {
    pub mode: ChargeMode,
    pub charging_disabled: bool,
    pub power_disabled: bool,
    pub supported: bool,
    pub control_available: bool,
    pub settings: Settings,
    pub last_error: Option<String>,
}

/// A view of an optional string as an optional character sequence.
pub open spec fn opt_view(o: Option<String>) -> Option<Seq<char>> {
    match o {
        Some(s) => Some(s@),
        None => None,
    }
}

/// Copies an optional string.
pub fn copy_opt_string(o: &Option<String>) -> (r: Option<String>)
    ensures
        opt_view(r) == opt_view(*o),
{
    match o {
        Some(s) => Some(s.clone()),
        None => None,
    }
}

impl HelperState {
    /// A field-by-field copy.
    pub fn copy(&self) -> (r: HelperState)
        ensures
            r.same(*self),
    {
        HelperState {
            mode: self.mode,
            charging_disabled: self.charging_disabled,
            power_disabled: self.power_disabled,
            supported: self.supported,
            control_available: self.control_available,
            settings: self.settings,
            last_error: copy_opt_string(&self.last_error),
        }
    }

    /// Equal in every field, strings compared by their characters.
    pub open spec fn same(self, other: HelperState) -> bool {
        &&& self.mode == other.mode
        &&& self.charging_disabled == other.charging_disabled
        &&& self.power_disabled == other.power_disabled
        &&& self.supported == other.supported
        &&& self.control_available == other.control_available
        &&& self.settings == other.settings
        &&& opt_view(self.last_error) == opt_view(other.last_error)
    }
}

/// The battery state shown on the dashboard.
#[derive(Clone, Debug)]
pub struct BatteryState {
    pub enabled: bool,
    pub power_disabled: bool,
    pub connected: bool,
    pub is_plugged: bool,
    pub charging_disabled: bool,
    pub is_charging: bool,
    pub charge_percent: u8,
    pub mode: ChargeMode,
    pub min_charge: u8,
    pub max_charge: u8,
    pub adapter_sleep: bool,
    pub magsafe_sync: bool,
    pub supported: bool,
    pub control_available: bool,
    pub last_error: Option<String>,
}

/// Whether the helper service is installed, running and in control.
#[derive(Clone, Debug)]
pub struct ServiceStatus {
    pub installed: bool,
    pub running: bool,
    pub control_available: bool,
    pub last_error: Option<String>,
}

/// The power adapter as `ioreg` and `system_profiler` describe it.
#[derive(Clone, Debug)]
pub struct ChargerInfo {
    pub name: String,
    pub wattage: u32,
    pub connected: bool,
    pub charging_voltage: u32,
    pub charging_current: u32,
}

/// The machine as `system_profiler` describes it.
#[derive(Clone, Debug)]
pub struct SystemInfo {
    pub model_name: String,
    pub chip: String,
    pub memory_gb: u32,
    pub activation_date: Option<String>,
}

// ---------------------------------------------------------------------------
// Settings rules
// ---------------------------------------------------------------------------

/// The message for settings that are refused, or `None` for valid ones; the
/// checks run in this order.
pub open spec fn settings_error(s: Settings) -> Option<Seq<char>> {
    if s.min_charge < 20 {
        Some("min_charge must be at least 20"@)
    } else if s.max_charge < 50 {
        Some("max_charge must be at least 50"@)
    } else if s.max_charge > 100 || s.min_charge > 100 {
        Some("Charge values must be 0-100"@)
    } else if s.min_charge >= s.max_charge {
        Some("min_charge must be less than max_charge"@)
    } else {
        None
    }
}

/// Valid settings: `20 <= min_charge < max_charge <= 100` and `max_charge >= 50`.
pub open spec fn settings_valid(s: Settings) -> bool {
    20 <= s.min_charge && s.min_charge < s.max_charge && s.max_charge <= 100 && 50 <= s.max_charge
}

/// Checks charging thresholds: `Ok` exactly for valid settings, otherwise the
/// message of the first rule broken.
pub fn validate_settings(settings: &Settings) -> (r: Result<(), String>)
    ensures
        r is Ok <==> settings_valid(*settings),
        r is Ok <==> settings_error(*settings) is None,
        r matches Err(e) ==> settings_error(*settings) == Some(e@),
{
    if settings.min_charge < 20 {
        return Err(String::from_str("min_charge must be at least 20"));
    }
    if settings.max_charge < 50 {
        return Err(String::from_str("max_charge must be at least 50"));
    }
    if settings.max_charge > 100 || settings.min_charge > 100 {
        return Err(String::from_str("Charge values must be 0-100"));
    }
    if settings.min_charge >= settings.max_charge {
        return Err(String::from_str("min_charge must be less than max_charge"));
    }
    Ok(())
}

/// The default settings pass validation.
pub proof fn law_default_settings_valid()
    ensures
        settings_valid(default_settings()),
        settings_error(default_settings()) is None,
{
}

// ---------------------------------------------------------------------------
// system_profiler: hardware report
// ---------------------------------------------------------------------------

/// The value of the first line of `ls` that, trimmed, starts with `prefix`
/// and has a non-empty trimmed remainder.
pub open spec fn hardware_value_in(ls: Seq<Seq<char>>, prefix: Seq<char>) -> Option<Seq<char>>
    decreases ls.len(),
{
    if ls.len() == 0 {
        None
    } else {
        let t = text::trim(ls[0]);
        let v = text::trim(t.subrange(prefix.len() as int, t.len() as int));
        if text::starts_with(t, prefix) && v.len() > 0 {
            Some(v)
        } else {
            hardware_value_in(ls.drop_first(), prefix)
        }
    }
}

/// The value given for `key` in a `Key: value` report.
pub open spec fn hardware_value(report: Seq<char>, key: Seq<char>) -> Option<Seq<char>> {
    hardware_value_in(text::lines(report), key.push(':'))
}

/// The views of a vector of lines.
pub open spec fn line_views(ls: Seq<Vec<char>>) -> Seq<Seq<char>> {
    ls.map_values(|l: Vec<char>| l@)
}

fn hardware_value_in_lines(ls: &Vec<Vec<char>>, key: &str) -> (r: Option<String>)
    ensures
        opt_view(r) == hardware_value_in(line_views(ls@), key@.push(':')),
{
    let mut prefix = text::chars_of(key);
    prefix.push(':');
    let ghost m = line_views(ls@);
    let mut i: usize = 0;
    proof {
        assert(m.subrange(0, m.len() as int) =~= m);
    }
    while i < ls.len()
        invariant
            i <= ls.len(),
            m == line_views(ls@),
            prefix@ == key@.push(':'),
            hardware_value_in(m, prefix@) == hardware_value_in(
                m.subrange(i as int, m.len() as int),
                prefix@,
            ),
        decreases ls.len() - i,
    {
        proof {
            text::lemma_subrange_step(m, i as int);
        }
        let t = text::trim_chars(&ls[i]);
        if text::starts_with_exec(&t, &prefix) {
            let (a, b) = text::trim_bounds(&t, prefix.len(), t.len());
            if a < b {
                let v = text::slice_chars(&t, a, b);
                return Some(text::string_of(&v));
            }
        }
        i = i + 1;
    }
    None
}

/// The value of `key` in a `system_profiler` report: the first line that,
/// trimmed, starts with `key:` and carries a non-empty value, trimmed.
pub fn parse_hardware_value(report: &str, key: &str) -> (r: Option<String>)
    ensures
        opt_view(r) == hardware_value(report@, key@),
{
    let chars = text::chars_of(report);
    let ls = text::split_lines(&chars);
    hardware_value_in_lines(&ls, key)
}

/// `s[i..i+2]` reads `GB` in any letter case.
pub open spec fn is_gb_at(s: Seq<char>, i: int) -> bool {
    0 <= i && i + 1 < s.len() && (s[i] == 'g' || s[i] == 'G') && (s[i + 1] == 'b' || s[i
        + 1] == 'B')
}

/// The first index from `i` on where `GB` (any case) occurs.
pub open spec fn first_gb_from(s: Seq<char>, i: nat) -> Option<int>
    decreases s.len() - i,
{
    if i + 1 >= s.len() {
        None
    } else if is_gb_at(s, i as int) {
        Some(i as int)
    } else {
        first_gb_from(s, i + 1)
    }
}

/// The last index before `j` that holds a space.
pub open spec fn last_space_before(s: Seq<char>, j: int) -> Option<int>
    decreases j,
{
    if j <= 0 {
        None
    } else if s[j - 1] == ' ' {
        Some(j - 1)
    } else {
        last_space_before(s, j - 1)
    }
}

/// The number of gigabytes in a memory size such as `16 GB`: the last
/// space-separated word before the first `GB`, trimmed, as a `u32`.
pub open spec fn memory_gb_value(raw: Seq<char>) -> Option<nat> {
    match first_gb_from(raw, 0) {
        None => None,
        Some(pos) => {
            let num = text::trim(raw.subrange(0, pos));
            let tok = match last_space_before(num, num.len() as int) {
                Some(k) => text::trim(num.subrange(k + 1, num.len() as int)),
                None => num,
            };
            match text::unsigned_value(tok) {
                Some(v) => if v <= u32::MAX {
                    Some(v)
                } else {
                    None
                },
                None => None,
            }
        },
    }
}

fn find_gb(s: &Vec<char>) -> (r: Option<usize>)
    ensures
        match r {
            Some(i) => first_gb_from(s@, 0) == Some(i as int) && i + 1 < s.len(),
            None => first_gb_from(s@, 0) is None,
        },
{
    let mut i: usize = 0;
    while s.len() > 0 && i < s.len() - 1
        invariant
            i <= s.len(),
            first_gb_from(s@, 0) == first_gb_from(s@, i as nat),
        decreases s.len() - i,
    {
        if (s[i] == 'g' || s[i] == 'G') && (s[i + 1] == 'b' || s[i + 1] == 'B') {
            return Some(i);
        }
        i = i + 1;
    }
    None
}

fn last_space(s: &Vec<char>) -> (r: Option<usize>)
    ensures
        match r {
            Some(k) => last_space_before(s@, s@.len() as int) == Some(k as int) && k < s.len(),
            None => last_space_before(s@, s@.len() as int) is None,
        },
{
    let mut j = s.len();
    while j > 0
        invariant
            j <= s.len(),
            last_space_before(s@, s@.len() as int) == last_space_before(s@, j as int),
        decreases j,
    {
        if s[j - 1] == ' ' {
            return Some(j - 1);
        }
        j = j - 1;
    }
    None
}

/// Reads a memory size such as `16 GB` as a number of gigabytes.
pub fn parse_memory_gb(raw: &str) -> (r: Option<u32>)
    ensures
        match r {
            Some(v) => memory_gb_value(raw@) == Some(v as nat),
            None => memory_gb_value(raw@) is None,
        },
{
    let s = text::chars_of(raw);
    let pos = match find_gb(&s) {
        Some(p) => p,
        None => return None,
    };
    let (a, b) = text::trim_bounds(&s, 0, pos);
    let num = text::slice_chars(&s, a, b);
    let tok = match last_space(&num) {
        Some(k) => {
            let (c, d) = text::trim_bounds(&num, k + 1, num.len());
            text::slice_chars(&num, c, d)
        },
        None => num,
    };
    text::parse_u32(&tok)
}

/// The trimmed output of the setup-date query, or `None` when it is empty or
/// the query could not run.
pub fn activation_date_from(output: Option<&str>) -> (r: Option<String>)
    ensures
        match output {
            None => r is None,
            Some(o) => if text::trim(o@).len() == 0 {
                r is None
            } else {
                opt_view(r) == Some(text::trim(o@))
            },
        },
{
    match output {
        None => None,
        Some(o) => {
            let t = text::trim_chars(&text::chars_of(o));
            if t.len() == 0 {
                None
            } else {
                Some(text::string_of(&t))
            }
        },
    }
}

/// The machine description derived from a hardware report.
pub open spec fn system_info_of(report: Seq<char>, activation: Option<Seq<char>>) -> (
    Seq<char>,
    Seq<char>,
    nat,
    Option<Seq<char>>,
) {
    let model = match hardware_value(report, "Model Name"@) {
        Some(v) => v,
        None => "Mac"@,
    };
    let chip = match hardware_value(report, "Chip"@) {
        Some(v) => v,
        None => match hardware_value(report, "Processor Name"@) {
            Some(v) => v,
            None => "Apple Silicon"@,
        },
    };
    let memory_raw = match hardware_value(report, "Memory"@) {
        Some(v) => v,
        None => "0 GB"@,
    };
    let memory = match memory_gb_value(memory_raw) {
        Some(v) => v,
        None => 0,
    };
    (model, chip, memory, activation)
}

/// The machine description: model name (default `Mac`), chip (or processor
/// name, default `Apple Silicon`), memory in GB (default 0) and the setup
/// date; `None` when the hardware report could not be read.
pub fn get_system_info(report: Option<&str>, activation_date: Option<String>) -> (r: Option<SystemInfo>)
    ensures
        match report {
            None => r is None,
            Some(rep) => r matches Some(info) && system_info_of(rep@, opt_view(activation_date)) == (
                info.model_name@,
                info.chip@,
                info.memory_gb as nat,
                opt_view(info.activation_date),
            ),
        },
{
    let rep = match report {
        Some(r) => r,
        None => return None,
    };
    let chars = text::chars_of(rep);
    let ls = text::split_lines(&chars);
    let model_name = match hardware_value_in_lines(&ls, "Model Name") {
        Some(v) => v,
        None => String::from_str("Mac"),
    };
    let chip = match hardware_value_in_lines(&ls, "Chip") {
        Some(v) => v,
        None => match hardware_value_in_lines(&ls, "Processor Name") {
            Some(v) => v,
            None => String::from_str("Apple Silicon"),
        },
    };
    let memory_raw = match hardware_value_in_lines(&ls, "Memory") {
        Some(v) => v,
        None => String::from_str("0 GB"),
    };
    let memory_gb = match parse_memory_gb(memory_raw.as_str()) {
        Some(v) => v,
        None => 0,
    };
    Some(SystemInfo { model_name, chip, memory_gb, activation_date })
}

// ---------------------------------------------------------------------------
// pmset: charge level
// ---------------------------------------------------------------------------

/// The first token that holds a `%`.
pub open spec fn first_percent_token(ts: Seq<Seq<char>>) -> Option<Seq<char>>
    decreases ts.len(),
{
    if ts.len() == 0 {
        None
    } else if ts[0].contains('%') {
        Some(ts[0])
    } else {
        first_percent_token(ts.drop_first())
    }
}

/// A battery line says the battery charges: it mentions `charging` but
/// neither `discharging` nor `not charging`.
pub open spec fn says_charging(t: Seq<char>) -> bool {
    text::contains(t, "charging"@) && !text::contains(t, "discharging"@) && !text::contains(
        t,
        "not charging"@,
    )
}

/// The reading of a battery line: its percentage and whether it charges.
pub open spec fn pmset_line_reading(t: Seq<char>) -> Option<(u8, bool)> {
    match first_percent_token(text::tokens(t)) {
        None => None,
        Some(tok) => match text::unsigned_value(text::trim_end_non_digits(tok)) {
            Some(v) => if v <= u8::MAX {
                Some((v as u8, says_charging(t)))
            } else {
                None
            },
            None => None,
        },
    }
}

/// The reading of the first line that, without leading whitespace, starts
/// with `-`.
pub open spec fn pmset_reading_in(ls: Seq<Seq<char>>) -> Option<(u8, bool)>
    decreases ls.len(),
{
    if ls.len() == 0 {
        None
    } else {
        let t = text::trim_start(ls[0]);
        if t.len() > 0 && t[0] == '-' {
            pmset_line_reading(t)
        } else {
            pmset_reading_in(ls.drop_first())
        }
    }
}

proof fn lemma_first_percent_at(ts: Seq<Seq<char>>, k: int)
    requires
        0 <= k < ts.len(),
        ts[k].contains('%'),
        forall|j: int| 0 <= j < k ==> !(#[trigger] ts[j]).contains('%'),
    ensures
        first_percent_token(ts) == Some(ts[k]),
    decreases k,
{
    if k > 0 {
        let r = ts.drop_first();
        assert forall|j: int| 0 <= j < k - 1 implies !(#[trigger] r[j]).contains('%') by {
            assert(r[j] == ts[j + 1]);
        }
        assert(!ts[0].contains('%'));
        lemma_first_percent_at(r, k - 1);
    }
}

/// Every percentage a byte can hold is read as it is: when the first token
/// of a battery line that holds a `%` is a run of decimal digits followed by
/// `%`, and their value is at most 255 (a full battery's 100 included), the
/// reading is that value.
pub proof fn law_pmset_reads_every_percent(t: Seq<char>, k: int, digits: Seq<char>)
    requires
        0 <= k < text::tokens(t).len(),
        text::tokens(t)[k] == digits.push('%'),
        forall|j: int| 0 <= j < k ==> !(#[trigger] text::tokens(t)[j]).contains('%'),
        digits.len() > 0,
        forall|i: int| 0 <= i < digits.len() ==> '0' <= #[trigger] digits[i] && digits[i] <= '9',
        text::digits_value(digits) <= 255,
    ensures
        pmset_line_reading(t) matches Some((p, _)) && p as nat == text::digits_value(digits),
{
    let tok = digits.push('%');
    assert(tok[digits.len() as int] == '%');
    assert(tok.contains('%'));
    lemma_first_percent_at(text::tokens(t), k);
    assert(tok.drop_last() =~= digits);
    assert(!text::is_digit(tok.last()));
    assert(text::is_digit(digits.last()));
    assert(text::trim_end_non_digits(digits) == digits);
    assert(text::trim_end_non_digits(tok) == digits);
    assert(text::all_digits(digits));
    assert(digits[0] != '+');
    assert(text::unsigned_value(digits) == Some(text::digits_value(digits)));
}

fn percent_token(ts: &Vec<Vec<char>>) -> (r: Option<usize>)
    ensures
        match r {
            Some(i) => i < ts.len() && first_percent_token(line_views(ts@)) == Some(ts@[i as int]@),
            None => first_percent_token(line_views(ts@)) is None,
        },
{
    let ghost m = line_views(ts@);
    let mut i: usize = 0;
    proof {
        assert(m.subrange(0, m.len() as int) =~= m);
    }
    while i < ts.len()
        invariant
            i <= ts.len(),
            m == line_views(ts@),
            first_percent_token(m) == first_percent_token(m.subrange(i as int, m.len() as int)),
        decreases ts.len() - i,
    {
        proof {
            text::lemma_subrange_step(m, i as int);
        }
        if text::contains_char(&ts[i], '%') {
            return Some(i);
        }
        i = i + 1;
    }
    None
}

fn charging_words(t: &Vec<char>) -> (b: bool)
    ensures
        b == says_charging(t@),
{
    let charging = text::chars_of("charging");
    let discharging = text::chars_of("discharging");
    let not_charging = text::chars_of("not charging");
    text::contains_exec(t, &charging) && !text::contains_exec(t, &discharging)
        && !text::contains_exec(t, &not_charging)
}

/// The charge percentage and charging flag in `pmset -g batt` output: from
/// the first line that starts with `-` once leading whitespace is dropped,
/// the first token holding `%`, stripped of trailing non-digits, as a `u8`.
pub fn get_battery_info(output: Option<&str>) -> (r: Option<(u8, bool)>)
    ensures
        output is None ==> r is None,
        output matches Some(o) ==> r == pmset_reading_in(text::lines(o@)),
{
    let o = match output {
        Some(o) => o,
        None => return None,
    };
    let chars = text::chars_of(o);
    let ls = text::split_lines(&chars);
    let ghost m = line_views(ls@);
    let mut i: usize = 0;
    proof {
        assert(m.subrange(0, m.len() as int) =~= m);
    }
    while i < ls.len()
        invariant
            i <= ls.len(),
            m == line_views(ls@),
            m == text::lines(o@),
            output == Some(o),
            pmset_reading_in(m) == pmset_reading_in(m.subrange(i as int, m.len() as int)),
        decreases ls.len() - i,
    {
        proof {
            text::lemma_subrange_step(m, i as int);
            assert(m[i as int] == ls@[i as int]@);
        }
        let t = text::trim_start_chars(&ls[i]);
        if t.len() > 0 && t[0] == '-' {
            assert(pmset_reading_in(m) == pmset_line_reading(t@));
            let ts = text::split_tokens(&t);
            assert(line_views(ts@) =~= text::tokens(t@));
            let k = match percent_token(&ts) {
                Some(k) => k,
                None => return None,
            };
            let digits = text::trim_end_non_digit_chars(&ts[k]);
            let percent = match text::parse_u8(&digits) {
                Some(p) => p,
                None => return None,
            };
            let is_charging = charging_words(&t);
            return Some((percent, is_charging));
        }
        i = i + 1;
    }
    None
}

/// The charge percentage, or 0 when it could not be read.
pub fn get_battery_percent(info: Option<(u8, bool)>) -> (p: u8)
    ensures
        p == match info {
            Some((v, _)) => v,
            None => 0u8,
        },
{
    match info {
        Some((v, _)) => v,
        None => 0,
    }
}

// ---------------------------------------------------------------------------
// ioreg: battery and adapter properties (through the `regex` crate)
// ---------------------------------------------------------------------------

/// The characters `regex::escape` puts a backslash before.
pub open spec fn is_regex_meta(c: char) -> bool {
    c == '\\' || c == '.' || c == '+' || c == '*' || c == '?' || c == '(' || c == ')' || c == '|'
        || c == '[' || c == ']' || c == '{' || c == '}' || c == '^' || c == '$' || c == '#' || c
        == '&' || c == '-' || c == '~'
}

/// `s` with a backslash before each regex meta character.
pub open spec fn regex_escaped(s: Seq<char>) -> Seq<char>
    decreases s.len(),
{
    if s.len() == 0 {
        Seq::empty()
    } else {
        let c = s.last();
        regex_escaped(s.drop_last()) + if is_regex_meta(c) {
            seq!['\\', c]
        } else {
            seq![c]
        }
    }
}

/// `regex::escape`: a backslash before every meta character, everything
/// else copied.
#[verifier::external_body]
fn regex_escape(s: &str) -> (r: String)
    ensures
        r@ == regex_escaped(s@),
{
    regex::escape(s)
}

/// The text of capture group 1 of the leftmost-first match of `pattern` in
/// `haystack`, or `None` when the pattern does not compile, does not match,
/// or group 1 did not take part in the match.
pub uninterp spec fn regex_group1(pattern: Seq<char>, haystack: Seq<char>) -> Option<Seq<char>>;

/// Compiles `pattern` with `regex::Regex::new`, runs `Regex::captures` on
/// `haystack` and returns group 1 (`Captures::get`, `Match::as_str`).
#[verifier::external_body]
fn regex_capture_group1(pattern: &str, haystack: &str) -> (r: Option<String>)
    ensures
        opt_view(r) == regex_group1(pattern@, haystack@),
{
    let re = regex::Regex::new(pattern).ok()?;
    let caps = re.captures(haystack)?;
    let group = caps.get(1)?;
    Some(group.as_str().to_string())
}

/// The pattern for a numeric property `"key" = value` (the value may be quoted).
pub open spec fn ioreg_value_pattern(key: Seq<char>) -> Seq<char> {
    "\""@ + regex_escaped(key) + "\"\\s*=\\s*\"?([-]?\\d+\\.?\\d*)\"?"@
}

/// The pattern for a boolean property `"key" = Yes|No`.
pub open spec fn ioreg_bool_pattern(key: Seq<char>) -> Seq<char> {
    "\""@ + regex_escaped(key) + "\"\\s*=\\s*(Yes|No)"@
}

fn ioreg_pattern(key: &str, tail: &str) -> (p: String)
    ensures
        p@ == "\""@ + regex_escaped(key@) + tail@,
{
    let mut p = String::from_str("\"");
    let escaped = regex_escape(key);
    p.append(escaped.as_str());
    p.append(tail);
    p
}

/// A captured numeric text read as a `u32`.
pub open spec fn u32_of_capture(capture: Option<Seq<char>>) -> Option<nat> {
    match capture {
        Some(c) => match text::unsigned_value(c) {
            Some(v) => if v <= u32::MAX {
                Some(v)
            } else {
                None
            },
            None => None,
        },
        None => None,
    }
}

/// A captured numeric text read as an `i32`.
pub open spec fn i32_of_capture(capture: Option<Seq<char>>) -> Option<int> {
    match capture {
        Some(c) => match text::signed_value(c) {
            Some(v) => if i32::MIN <= v && v <= i32::MAX {
                Some(v)
            } else {
                None
            },
            None => None,
        },
        None => None,
    }
}

/// A captured flag is set when it reads `Yes`.
pub open spec fn flag_of_capture(capture: Option<Seq<char>>) -> bool {
    capture == Some("Yes"@)
}

/// Reads a captured property value as a `u32` (`str::parse::<u32>`).
pub fn ioreg_u32_from_capture(capture: Option<String>) -> (r: Option<u32>)
    ensures
        match r {
            Some(v) => u32_of_capture(opt_view(capture)) == Some(v as nat),
            None => u32_of_capture(opt_view(capture)) is None,
        },
{
    match capture {
        Some(c) => text::parse_u32(&text::chars_of(c.as_str())),
        None => None,
    }
}

/// Reads a captured property value as an `i32` (`str::parse::<i32>`).
pub fn ioreg_i32_from_capture(capture: Option<String>) -> (r: Option<i32>)
    ensures
        match r {
            Some(v) => i32_of_capture(opt_view(capture)) == Some(v as int),
            None => i32_of_capture(opt_view(capture)) is None,
        },
{
    match capture {
        Some(c) => text::parse_i32(&text::chars_of(c.as_str())),
        None => None,
    }
}

/// Reads a captured `Yes`/`No` property: set exactly when it is `Yes`.
pub fn ioreg_flag_from_capture(capture: Option<String>) -> (b: bool)
    ensures
        b == flag_of_capture(opt_view(capture)),
{
    match capture {
        Some(c) => {
            let yes = String::from_str("Yes");
            c == yes
        },
        None => false,
    }
}

/// The raw text of the numeric property `key` in an `ioreg` listing.
pub fn ioreg_value_capture(stdout: &str, key: &str) -> (r: Option<String>)
    ensures
        opt_view(r) == regex_group1(ioreg_value_pattern(key@), stdout@),
{
    let pattern = ioreg_pattern(key, "\"\\s*=\\s*\"?([-]?\\d+\\.?\\d*)\"?");
    regex_capture_group1(pattern.as_str(), stdout)
}

/// The `u32` value of the numeric property `key` in an `ioreg` listing.
pub fn parse_ioreg_u32(stdout: &str, key: &str) -> (r: Option<u32>)
    ensures
        match r {
            Some(v) => u32_of_capture(regex_group1(ioreg_value_pattern(key@), stdout@)) == Some(
                v as nat,
            ),
            None => u32_of_capture(regex_group1(ioreg_value_pattern(key@), stdout@)) is None,
        },
{
    let pattern = ioreg_pattern(key, "\"\\s*=\\s*\"?([-]?\\d+\\.?\\d*)\"?");
    ioreg_u32_from_capture(regex_capture_group1(pattern.as_str(), stdout))
}

/// The `i32` value of the numeric property `key` in an `ioreg` listing.
pub fn parse_ioreg_i32(stdout: &str, key: &str) -> (r: Option<i32>)
    ensures
        match r {
            Some(v) => i32_of_capture(regex_group1(ioreg_value_pattern(key@), stdout@)) == Some(
                v as int,
            ),
            None => i32_of_capture(regex_group1(ioreg_value_pattern(key@), stdout@)) is None,
        },
{
    let pattern = ioreg_pattern(key, "\"\\s*=\\s*\"?([-]?\\d+\\.?\\d*)\"?");
    ioreg_i32_from_capture(regex_capture_group1(pattern.as_str(), stdout))
}

/// The flag property `key` of an `ioreg` listing: set exactly when its first
/// `"key" = Yes|No` entry reads `Yes`.
pub fn parse_ioreg_bool(stdout: &str, key: &str) -> (b: bool)
    ensures
        b == flag_of_capture(regex_group1(ioreg_bool_pattern(key@), stdout@)),
{
    let pattern = ioreg_pattern(key, "\"\\s*=\\s*(Yes|No)");
    ioreg_flag_from_capture(regex_capture_group1(pattern.as_str(), stdout))
}

/// Whether an adapter is connected, from the battery's `ioreg` properties;
/// `false` when they could not be read.
pub fn get_is_plugged(battery_props: Option<&str>) -> (b: bool)
    ensures
        b == match battery_props {
            Some(p) => flag_of_capture(regex_group1(ioreg_bool_pattern("ExternalConnected"@), p@)),
            None => false,
        },
{
    match battery_props {
        Some(p) => parse_ioreg_bool(p, "ExternalConnected"),
        None => false,
    }
}

/// The integer readings of the battery's live properties.
#[derive(Clone, Copy, Debug, PartialEq, Eq)]
pub struct RealtimeReadings {
    pub voltage: u32,
    pub amperage: i32,
    pub is_charging: bool,
    pub external_connected: bool,
}

/// The current in mA: `InstantAmperage` unless missing or zero, then
/// `Amperage`, then 0.
pub open spec fn amperage_reading(props: Seq<char>) -> int {
    match i32_of_capture(regex_group1(ioreg_value_pattern("InstantAmperage"@), props)) {
        Some(v) if v != 0 => v,
        _ => match i32_of_capture(regex_group1(ioreg_value_pattern("Amperage"@), props)) {
            Some(v) => v,
            None => 0,
        },
    }
}

/// The voltage, current and flags from the battery's `ioreg` properties.
pub fn get_realtime_readings(props: &str) -> (r: RealtimeReadings)
    ensures
        r.voltage as nat == match u32_of_capture(regex_group1(ioreg_value_pattern("Voltage"@), props@)) {
            Some(v) => v,
            None => 0,
        },
        r.amperage as int == amperage_reading(props@),
        r.is_charging == flag_of_capture(regex_group1(ioreg_bool_pattern("IsCharging"@), props@)),
        r.external_connected == flag_of_capture(
            regex_group1(ioreg_bool_pattern("ExternalConnected"@), props@),
        ),
{
    let voltage = match parse_ioreg_u32(props, "Voltage") {
        Some(v) => v,
        None => 0,
    };
    let amperage = match parse_ioreg_i32(props, "InstantAmperage") {
        Some(v) if v != 0 => v,
        _ => match parse_ioreg_i32(props, "Amperage") {
            Some(v) => v,
            None => 0,
        },
    };
    let is_charging = parse_ioreg_bool(props, "IsCharging");
    let external_connected = parse_ioreg_bool(props, "ExternalConnected");
    RealtimeReadings { voltage, amperage, is_charging, external_connected }
}

/// The integer health readings: design capacity (required) and cycle count
/// (0 when missing).
pub fn get_health_readings(props: &str) -> (r: Option<(u32, u32)>)
    ensures
        match u32_of_capture(regex_group1(ioreg_value_pattern("DesignCapacity"@), props@)) {
            None => r is None,
            Some(d) => r matches Some((design, cycles)) && design as nat == d && cycles as nat
                == match u32_of_capture(
                    regex_group1(ioreg_value_pattern("CycleCount"@), props@),
                ) {
                    Some(c) => c,
                    None => 0,
                },
        },
{
    let design = match parse_ioreg_u32(props, "DesignCapacity") {
        Some(d) => d,
        None => return None,
    };
    let cycles = match parse_ioreg_u32(props, "CycleCount") {
        Some(c) => c,
        None => 0,
    };
    Some((design, cycles))
}

// ---------------------------------------------------------------------------
// Power adapter
// ---------------------------------------------------------------------------

/// The adapter name in a power report: the first `Name:` line (trimmed)
/// with a non-empty value fixes it; `cur` is the name found so far.
pub open spec fn adapter_name_from(ls: Seq<Seq<char>>, cur: Seq<char>) -> Seq<char>
    decreases ls.len(),
{
    if ls.len() == 0 {
        cur
    } else {
        let t = text::trim(ls[0]);
        let next = if text::starts_with(t, "Name:"@) && cur.len() == 0 {
            text::trim(t.subrange(5, t.len() as int))
        } else {
            cur
        };
        adapter_name_from(ls.drop_first(), next)
    }
}

proof fn lemma_name_kept(ls: Seq<Seq<char>>, cur: Seq<char>)
    requires
        cur.len() > 0,
    ensures
        adapter_name_from(ls, cur) == cur,
    decreases ls.len(),
{
    if ls.len() > 0 {
        lemma_name_kept(ls.drop_first(), cur);
    }
}

/// Without a line that, trimmed, starts with `Name:`, no adapter name is
/// found: lines with any other key (such as `Device Name:`) never set it.
pub proof fn law_adapter_name_needs_name_line(ls: Seq<Seq<char>>, cur: Seq<char>)
    requires
        forall|i: int| 0 <= i < ls.len() ==> !text::starts_with(text::trim(#[trigger] ls[i]), "Name:"@),
    ensures
        adapter_name_from(ls, cur) == cur,
    decreases ls.len(),
{
    if ls.len() > 0 {
        let r = ls.drop_first();
        assert(!text::starts_with(text::trim(ls[0]), "Name:"@));
        assert forall|i: int| 0 <= i < r.len() implies !text::starts_with(text::trim(#[trigger] r[i]), "Name:"@) by {
            assert(r[i] == ls[i + 1]);
        }
        law_adapter_name_needs_name_line(r, cur);
    }
}

/// The adapter name found is the one started with, or the trimmed text after
/// `Name:` on some line that, trimmed, starts with `Name:`.
pub proof fn law_adapter_name_from_name_line(ls: Seq<Seq<char>>, cur: Seq<char>)
    ensures
        adapter_name_from(ls, cur) == cur || exists|i: int|
            0 <= i < ls.len() && text::starts_with(text::trim(#[trigger] ls[i]), "Name:"@)
                && adapter_name_from(ls, cur) == text::trim(
                text::trim(ls[i]).subrange(5, text::trim(ls[i]).len() as int),
            ),
    decreases ls.len(),
{
    if ls.len() > 0 {
        let r = ls.drop_first();
        let t = text::trim(ls[0]);
        let next = if text::starts_with(t, "Name:"@) && cur.len() == 0 {
            text::trim(t.subrange(5, t.len() as int))
        } else {
            cur
        };
        law_adapter_name_from_name_line(r, next);
        let res = adapter_name_from(ls, cur);
        assert(res == adapter_name_from(r, next));
        if res != cur {
            if res == next {
                assert(text::starts_with(text::trim(ls[0]), "Name:"@));
            } else {
                let i = choose|i: int|
                    0 <= i < r.len() && text::starts_with(text::trim(#[trigger] r[i]), "Name:"@)
                        && adapter_name_from(r, next) == text::trim(
                        text::trim(r[i]).subrange(5, text::trim(r[i]).len() as int),
                    );
                assert(r[i] == ls[i + 1]);
                assert(text::starts_with(text::trim(ls[i + 1]), "Name:"@));
            }
        }
    }
}

/// Starting with no name, the first line that, trimmed, starts with `Name:`
/// and has a non-empty value gives the adapter name.
pub proof fn law_adapter_name_first_name_line(ls: Seq<Seq<char>>, k: int)
    requires
        0 <= k < ls.len(),
        text::starts_with(text::trim(ls[k]), "Name:"@),
        text::trim(text::trim(ls[k]).subrange(5, text::trim(ls[k]).len() as int)).len() > 0,
        forall|j: int|
            0 <= j < k ==> !text::starts_with(text::trim(#[trigger] ls[j]), "Name:"@) || text::trim(
                text::trim(ls[j]).subrange(5, text::trim(ls[j]).len() as int),
            ).len() == 0,
    ensures
        adapter_name_from(ls, Seq::empty()) == text::trim(
            text::trim(ls[k]).subrange(5, text::trim(ls[k]).len() as int),
        ),
    decreases k,
{
    let r = ls.drop_first();
    let t = text::trim(ls[0]);
    if k == 0 {
        lemma_name_kept(r, text::trim(t.subrange(5, t.len() as int)));
    } else {
        let next = if text::starts_with(t, "Name:"@) {
            text::trim(t.subrange(5, t.len() as int))
        } else {
            Seq::<char>::empty()
        };
        assert(next.len() == 0);
        assert(next =~= Seq::<char>::empty());
        assert(r[k - 1] == ls[k]);
        assert forall|j: int|
            0 <= j < k - 1 implies !text::starts_with(text::trim(#[trigger] r[j]), "Name:"@) || text::trim(
                text::trim(r[j]).subrange(5, text::trim(r[j]).len() as int),
            ).len() == 0 by {
            assert(r[j] == ls[j + 1]);
        }
        law_adapter_name_first_name_line(r, k - 1);
    }
}

/// The adapter wattage in a power report: the last `Wattage (W):` line
/// counts, and a value that does not read as a `u32` counts as 0.
pub open spec fn adapter_wattage_from(ls: Seq<Seq<char>>, cur: nat) -> nat
    decreases ls.len(),
{
    if ls.len() == 0 {
        cur
    } else {
        let t = text::trim(ls[0]);
        let next = if text::starts_with(t, "Wattage (W):"@) {
            match u32_of_capture(Some(text::trim(t.subrange(12, t.len() as int)))) {
                Some(w) => w,
                None => 0,
            }
        } else {
            cur
        };
        adapter_wattage_from(ls.drop_first(), next)
    }
}

/// The adapter name and wattage read from a `system_profiler
/// SPPowerDataType` report.
pub fn parse_power_report(report: &str) -> (r: (String, u32))
    ensures
        r.0@ == adapter_name_from(text::lines(report@), Seq::empty()),
        r.1 as nat == adapter_wattage_from(text::lines(report@), 0),
{
    let chars = text::chars_of(report);
    let ls = text::split_lines(&chars);
    let name_key = text::chars_of("Name:");
    let watt_key = text::chars_of("Wattage (W):");
    proof {
        reveal_strlit("Name:");
        reveal_strlit("Wattage (W):");
    }
    let ghost m = line_views(ls@);
    let mut name: Vec<char> = Vec::new();
    let mut watt: u32 = 0;
    let mut i: usize = 0;
    proof {
        assert(m.subrange(0, m.len() as int) =~= m);
        assert(name@ =~= Seq::<char>::empty());
    }
    while i < ls.len()
        invariant
            i <= ls.len(),
            m == line_views(ls@),
            name_key@ == "Name:"@,
            watt_key@ == "Wattage (W):"@,
            "Name:"@.len() == 5,
            "Wattage (W):"@.len() == 12,
            adapter_name_from(m, Seq::empty()) == adapter_name_from(
                m.subrange(i as int, m.len() as int),
                name@,
            ),
            adapter_wattage_from(m, 0) == adapter_wattage_from(
                m.subrange(i as int, m.len() as int),
                watt as nat,
            ),
        decreases ls.len() - i,
    {
        proof {
            text::lemma_subrange_step(m, i as int);
            assert(m[i as int] == ls@[i as int]@);
        }
        let t = text::trim_chars(&ls[i]);
        if text::starts_with_exec(&t, &name_key) && name.len() == 0 {
            let (a, b) = text::trim_bounds(&t, 5, t.len());
            name = text::slice_chars(&t, a, b);
        }
        if text::starts_with_exec(&t, &watt_key) {
            let (a, b) = text::trim_bounds(&t, 12, t.len());
            let v = text::slice_chars(&t, a, b);
            watt = match text::parse_u32(&v) {
                Some(w) => w,
                None => 0,
            };
        }
        i = i + 1;
    }
    proof {
        assert(m.subrange(m.len() as int, m.len() as int) =~= Seq::<Seq<char>>::empty());
        assert(m == text::lines(report@));
    }
    (text::string_of(&name), watt)
}

/// The adapter description assembled from its parts.
pub open spec fn charger_of(
    external: bool,
    voltage: nat,
    current: nat,
    name: Seq<char>,
    wattage: nat,
) -> (Seq<char>, nat, bool, nat, nat) {
    if !external {
        ("—"@, 0, false, 0, 0)
    } else {
        (if name.len() == 0 {
            "USB-C Power Adapter"@
        } else {
            name
        }, wattage, true, voltage, current)
    }
}

/// The power adapter: `None` when the `ioreg` listing could not be read; a
/// disconnected placeholder when no adapter is connected; otherwise the
/// charging voltage and current from `ioreg` and the name and wattage from
/// the power report (a missing report gives no name and 0 W).
pub fn get_charger_info(ioreg: Option<&str>, power_report: Option<&str>) -> (r: Option<ChargerInfo>)
    ensures
        ioreg is None ==> r is None,
        ioreg matches Some(io) ==> r matches Some(info) && {
                let external = flag_of_capture(
                    regex_group1(ioreg_bool_pattern("ExternalConnected"@), io@),
                );
                let v = match u32_of_capture(
                    regex_group1(ioreg_value_pattern("ChargingVoltage"@), io@),
                ) {
                    Some(x) => x,
                    None => 0,
                };
                let c = match u32_of_capture(
                    regex_group1(ioreg_value_pattern("ChargingCurrent"@), io@),
                ) {
                    Some(x) => x,
                    None => 0,
                };
                let (n, w) = match power_report {
                    Some(p) => (
                        adapter_name_from(text::lines(p@), Seq::empty()),
                        adapter_wattage_from(text::lines(p@), 0),
                    ),
                    None => (Seq::<char>::empty(), 0nat),
                };
                charger_of(external, v, c, n, w) == (
                    info.name@,
                    info.wattage as nat,
                    info.connected,
                    info.charging_voltage as nat,
                    info.charging_current as nat,
                )
            },
{
    let io = match ioreg {
        Some(io) => io,
        None => return None,
    };
    let external = parse_ioreg_bool(io, "ExternalConnected");
    if !external {
        return Some(
            ChargerInfo {
                name: String::from_str("—"),
                wattage: 0,
                connected: false,
                charging_voltage: 0,
                charging_current: 0,
            },
        );
    }
    let charging_voltage = match parse_ioreg_u32(io, "ChargingVoltage") {
        Some(v) => v,
        None => 0,
    };
    let charging_current = match parse_ioreg_u32(io, "ChargingCurrent") {
        Some(v) => v,
        None => 0,
    };
    let (name, wattage) = match power_report {
        Some(p) => parse_power_report(p),
        None => (String::new(), 0),
    };
    let name_chars = text::chars_of(name.as_str());
    let name = if name_chars.len() == 0 {
        String::from_str("USB-C Power Adapter")
    } else {
        name
    };
    Some(ChargerInfo { name, wattage, connected: true, charging_voltage, charging_current })
}

} // verus!
