//! The privileged helper: its file locations, its access rules, and the
//! charging policy it runs as a state machine. The program around the
//! library performs each effect the machine asks for (SMC writes, file
//! writes, decoding a request payload) and hands the outcome back.
use vstd::prelude::*;
use vstd::string::StringExecFns;
use crate::text;
use crate::battery::{
    ChargeMode, HelperState, RuntimeState, Settings, default_settings, opt_view, settings_valid,
    validate_settings,
};

verus! {

// ---------------------------------------------------------------------------
// File locations
// ---------------------------------------------------------------------------

/// `base` joined with the relative path `rel`.
pub open spec fn path_join(base: Seq<char>, rel: Seq<char>) -> Seq<char> {
    if base.len() == 0 {
        rel
    } else if base.last() == '/' {
        base + rel
    } else {
        base + "/"@ + rel
    }
}

/// `Path::join` for a relative `rel`.
pub fn join_path(base: &str, rel: &str) -> (p: String)
    ensures
        p@ == path_join(base@, rel@),
{
    let mut v = text::chars_of(base);
    if v.len() > 0 && v[v.len() - 1] != '/' {
        v.push('/');
        proof {
            reveal_strlit("/");
        }
        assert(v@ =~= base@ + "/"@);
    }
    text::push_str(&mut v, rel);
    text::string_of(&v)
}

/// The helper's socket, pid, log and label names.
pub const SOCKET_NAME: &'static str = "com.smallshow.battery-toolkit-helper.sock";
pub const PID_NAME: &'static str = "com.smallshow.battery-toolkit-helper.pid";
pub const LOG_NAME: &'static str = "com.smallshow.battery-toolkit-helper.log";
pub const STDOUT_LOG_NAME: &'static str = "com.smallshow.battery-toolkit-helper.stdout.log";
pub const STDERR_LOG_NAME: &'static str = "com.smallshow.battery-toolkit-helper.stderr.log";
pub const ROOT_SUPPORT_DIR: &'static str = "/Library/Application Support/BatteryToolkit";
pub const ROOT_PLIST: &'static str = "/Library/LaunchDaemons/com.smallshow.battery-toolkit-helper.plist";
pub const SHARED_RUNTIME_DIR: &'static str = "/tmp/battery-toolkit";
pub const HELPER_BIN: &'static str = "bin/battery-helper";
pub const LAUNCH_AGENT_REL: &'static str = "Library/LaunchAgents/com.smallshow.battery-toolkit-helper.plist";

/// The home directory: `$HOME`, or `/tmp` when it is not set.
pub fn home_dir(home_env: Option<&str>) -> (p: String)
    ensures
        p@ == match home_env {
            Some(h) => h@,
            None => "/tmp"@,
        },
{
    match home_env {
        Some(h) => String::from_str(h),
        None => String::from_str("/tmp"),
    }
}

/// The support directory of the system-wide helper.
pub fn system_helper_root() -> (p: String)
    ensures
        p@ == ROOT_SUPPORT_DIR@,
{
    String::from_str(ROOT_SUPPORT_DIR)
}

/// The helper's socket, in the shared runtime directory.
pub fn socket_path() -> (p: String)
    ensures
        p@ == path_join(SHARED_RUNTIME_DIR@, SOCKET_NAME@),
{
    join_path(SHARED_RUNTIME_DIR, SOCKET_NAME)
}

/// The helper's support directory: the system one when running as root,
/// otherwise the user's.
pub fn helper_root(is_root: bool, user_support_dir: &str) -> (p: String)
    ensures
        p@ == if is_root {
            ROOT_SUPPORT_DIR@
        } else {
            user_support_dir@
        },
{
    if is_root {
        system_helper_root()
    } else {
        String::from_str(user_support_dir)
    }
}

/// The helper binary inside a support directory.
pub fn helper_bin_path(helper_root: &str) -> (p: String)
    ensures
        p@ == path_join(helper_root@, HELPER_BIN@),
{
    join_path(helper_root, HELPER_BIN)
}

/// The system-wide helper binary.
pub fn system_helper_bin_path() -> (p: String)
    ensures
        p@ == path_join(ROOT_SUPPORT_DIR@, HELPER_BIN@),
{
    join_path(ROOT_SUPPORT_DIR, HELPER_BIN)
}

/// The helper's pid file.
pub fn helper_pid_path() -> (p: String)
    ensures
        p@ == path_join(SHARED_RUNTIME_DIR@, PID_NAME@),
{
    join_path(SHARED_RUNTIME_DIR, PID_NAME)
}

/// The helper's log file.
pub fn helper_log_path() -> (p: String)
    ensures
        p@ == path_join(SHARED_RUNTIME_DIR@, LOG_NAME@),
{
    join_path(SHARED_RUNTIME_DIR, LOG_NAME)
}

/// The helper's standard output log.
pub fn helper_stdout_log_path() -> (p: String)
    ensures
        p@ == path_join(SHARED_RUNTIME_DIR@, STDOUT_LOG_NAME@),
{
    join_path(SHARED_RUNTIME_DIR, STDOUT_LOG_NAME)
}

/// The helper's standard error log.
pub fn helper_stderr_log_path() -> (p: String)
    ensures
        p@ == path_join(SHARED_RUNTIME_DIR@, STDERR_LOG_NAME@),
{
    join_path(SHARED_RUNTIME_DIR, STDERR_LOG_NAME)
}

/// The settings file: in the system support directory when running as
/// root, otherwise in the user's configuration directory.
pub fn settings_path(is_root: bool, user_config_dir: &str) -> (p: String)
    ensures
        p@ == path_join(
            if is_root {
                ROOT_SUPPORT_DIR@
            } else {
                user_config_dir@
            },
            "settings.json"@,
        ),
{
    if is_root {
        join_path(ROOT_SUPPORT_DIR, "settings.json")
    } else {
        join_path(user_config_dir, "settings.json")
    }
}

/// The persisted runtime state, inside the helper's support directory.
pub fn runtime_path(helper_root: &str) -> (p: String)
    ensures
        p@ == path_join(helper_root@, "state.json"@),
{
    join_path(helper_root, "state.json")
}

/// The per-user launch agent.
pub fn launch_agent_path(home: &str) -> (p: String)
    ensures
        p@ == path_join(home@, LAUNCH_AGENT_REL@),
{
    join_path(home, LAUNCH_AGENT_REL)
}

/// The system launch daemon.
pub fn launch_daemon_path() -> (p: String)
    ensures
        p@ == ROOT_PLIST@,
{
    String::from_str(ROOT_PLIST)
}

// ---------------------------------------------------------------------------
// Access, connections, logs
// ---------------------------------------------------------------------------

/// The user allowed to talk to the helper: the console user when the helper
/// runs as root (or root itself when there is none), otherwise the helper's
/// own user.
pub fn authorized_client_uid(effective_uid: u32, console_uid: Option<u32>) -> (u: u32)
    ensures
        u == if effective_uid == 0 {
            match console_uid {
                Some(c) => c,
                None => 0u32,
            }
        } else {
            effective_uid
        },
{
    if effective_uid == 0 {
        match console_uid {
            Some(c) => c,
            None => effective_uid,
        }
    } else {
        effective_uid
    }
}

/// A peer may connect when it is root or the authorized user.
pub fn check_peer_access(peer: u32, owner: u32) -> (r: Result<(), String>)
    ensures
        r is Ok <==> (peer == 0 || peer == owner),
        r matches Err(e) ==> e@ == "Access denied: peer uid "@ + text::decimal(peer as nat)
            + " != owner uid "@ + text::decimal(owner as nat),
{
    if peer != 0 && peer != owner {
        let mut v: Vec<char> = Vec::new();
        text::push_str(&mut v, "Access denied: peer uid ");
        text::push_decimal(&mut v, peer as u64);
        text::push_str(&mut v, " != owner uid ");
        text::push_decimal(&mut v, owner as u64);
        assert(v@ =~= "Access denied: peer uid "@ + text::decimal(peer as nat) + " != owner uid "@
            + text::decimal(owner as nat));
        return Err(text::string_of(&v));
    }
    Ok(())
}

/// At most this many clients are served at once.
pub const MAX_ACTIVE_CONNECTIONS: usize = 16;

/// Admits a new client: the new count of active clients, or `None` when the
/// limit is reached.
pub fn acquire_connection(active: usize) -> (r: Option<usize>)
    ensures
        active < MAX_ACTIVE_CONNECTIONS ==> r == Some((active + 1) as usize),
        active >= MAX_ACTIVE_CONNECTIONS ==> r is None,
{
    if active < MAX_ACTIVE_CONNECTIONS {
        Some(active + 1)
    } else {
        None
    }
}

/// The count of active clients after one leaves.
pub fn release_connection(active: usize) -> (r: usize)
    requires
        active > 0,
    ensures
        r == active - 1,
{
    active - 1
}

/// Rejected connections are logged at most once every 30 seconds: a
/// rejection is logged when none was logged before or the last was at least
/// this many milliseconds ago.
pub const REJECT_LOG_INTERVAL_MS: u64 = 30000;

/// Whether to log a rejected connection, given the time since the last
/// logged rejection.
pub fn should_log_rejection(since_last_log_ms: Option<u64>) -> (b: bool)
    ensures
        b == match since_last_log_ms {
            Some(ms) => ms >= REJECT_LOG_INTERVAL_MS,
            None => true,
        },
{
    match since_last_log_ms {
        Some(ms) => ms >= REJECT_LOG_INTERVAL_MS,
        None => true,
    }
}

/// The commands that do not change anything.
pub open spec fn is_read_only_command(c: Seq<char>) -> bool {
    c == "ping"@ || c == "get_status"@ || c == "get_state"@ || c == "get_settings"@
}

/// The log line for a command: none for read-only commands without a
/// detail; `[command] name: detail` with a non-empty detail; otherwise
/// `[command] name`.
pub fn command_log_line(command: &str, detail: Option<&str>) -> (r: Option<String>)
    ensures
        detail is None && is_read_only_command(command@) ==> r is None,
        detail matches Some(d) ==> (d@.len() > 0 ==> opt_view(r) == Some(
            "[command] "@ + command@ + ": "@ + d@,
        )),
        detail matches Some(d) ==> (d@.len() == 0 ==> opt_view(r) == Some("[command] "@ + command@)),
        detail is None && !is_read_only_command(command@) ==> opt_view(r) == Some(
            "[command] "@ + command@,
        ),
{
    if detail.is_none() && (text::str_is(command, "ping") || text::str_is(command, "get_status")
        || text::str_is(command, "get_state") || text::str_is(command, "get_settings")) {
        return None;
    }
    let mut v: Vec<char> = Vec::new();
    text::push_str(&mut v, "[command] ");
    text::push_str(&mut v, command);
    match detail {
        Some(d) => {
            let dc = text::chars_of(d);
            if dc.len() > 0 {
                text::push_str(&mut v, ": ");
                text::push_chars(&mut v, &dc);
                assert(v@ =~= "[command] "@ + command@ + ": "@ + d@);
            } else {
                assert(v@ =~= "[command] "@ + command@);
            }
        },
        None => {
            assert(v@ =~= "[command] "@ + command@);
        },
    }
    Some(text::string_of(&v))
}

/// An SMC error that only means the device was busy.
pub open spec fn is_transient(message: Seq<char>) -> bool {
    text::contains(message, "Resource temporarily unavailable"@) || text::contains(
        message,
        "os error 35"@,
    ) || text::contains(message, "temporarily unavailable"@)
}

/// Whether an error message reports a transient resource shortage.
pub fn is_transient_resource_error(message: &str) -> (b: bool)
    ensures
        b == is_transient(message@),
{
    let m = text::chars_of(message);
    text::contains_exec(&m, &text::chars_of("Resource temporarily unavailable"))
        || text::contains_exec(&m, &text::chars_of("os error 35"))
        || text::contains_exec(&m, &text::chars_of("temporarily unavailable"))
}

/// The last `n` of `all` lines joined with newlines.
pub open spec fn tail_lines(all: Seq<Seq<char>>, n: nat) -> Seq<char> {
    let start = if all.len() >= n {
        all.len() - n
    } else {
        0
    };
    join_lines(all.subrange(start as int, all.len() as int))
}

/// Lines joined with `\n`.
pub open spec fn join_lines(ls: Seq<Seq<char>>) -> Seq<char>
    decreases ls.len(),
{
    if ls.len() == 0 {
        Seq::empty()
    } else if ls.len() == 1 {
        ls[0]
    } else {
        join_lines(ls.drop_last()) + seq!['\n'] + ls.last()
    }
}

/// The last `lines` lines of the helper's log, joined with newlines.
pub fn helper_logs(log_lines: &Vec<String>, lines: usize) -> (r: String)
    ensures
        r@ == tail_lines(log_lines@.map_values(|l: String| l@), lines as nat),
{
    let ghost all = log_lines@.map_values(|l: String| l@);
    let start = if log_lines.len() >= lines {
        log_lines.len() - lines
    } else {
        0
    };
    let mut out: Vec<char> = Vec::new();
    let mut i = start;
    while i < log_lines.len()
        invariant
            start <= i <= log_lines.len(),
            all == log_lines@.map_values(|l: String| l@),
            out@ == join_lines(all.subrange(start as int, i as int)),
        decreases log_lines.len() - i,
    {
        let ghost prev = all.subrange(start as int, i as int);
        assert(all.subrange(start as int, i + 1).drop_last() =~= prev);
        assert(all.subrange(start as int, i + 1).last() == log_lines@[i as int]@);
        if i > start {
            out.push('\n');
        }
        text::push_str(&mut out, log_lines[i].as_str());
        proof {
            if i == start {
                assert(out@ =~= join_lines(all.subrange(start as int, i + 1)));
            } else {
                assert(out@ =~= join_lines(all.subrange(start as int, i + 1)));
            }
        }
        i = i + 1;
    }
    text::string_of(&out)
}

/// The pid recorded in the pid file: its trimmed contents as a `u32`.
pub fn helper_pid(contents: Option<&str>) -> (r: Option<u32>)
    ensures
        contents is None ==> r is None,
        contents matches Some(c) ==> match r {
            Some(p) => text::unsigned_value(text::trim(c@)) == Some(p as nat),
            None => text::unsigned_value(text::trim(c@)) is None || text::unsigned_value(
                text::trim(c@),
            )->0 > u32::MAX,
        },
{
    match contents {
        Some(c) => {
            let t = text::trim_chars(&text::chars_of(c));
            text::parse_u32(&t)
        },
        None => None,
    }
}

/// Clearing the logs succeeds when the log file could be truncated, or else
/// when both output logs could be; the error is the one from the log file.
pub fn clear_helper_logs(
    log_truncated: Result<(), String>,
    stdout_truncated: bool,
    stderr_truncated: bool,
) -> (r: Result<(), String>)
    ensures
        log_truncated is Ok ==> r is Ok,
        log_truncated matches Err(e) ==> (if stdout_truncated && stderr_truncated {
            r is Ok
        } else {
            r matches Err(e2) && e2@ == e@
        }),
{
    match log_truncated {
        Ok(()) => Ok(()),
        Err(e) => if stdout_truncated && stderr_truncated {
            Ok(())
        } else {
            Err(e)
        },
    }
}

/// A local time as the log prints it: `YYYY-MM-DD HH:MM:SS.mmm`.
pub open spec fn timestamp_text(
    year: nat,
    month: nat,
    day: nat,
    hour: nat,
    minute: nat,
    second: nat,
    millis: nat,
) -> Seq<char> {
    text::zero_padded(year, 4) + "-"@ + text::zero_padded(month, 2) + "-"@ + text::zero_padded(
        day,
        2,
    ) + " "@ + text::zero_padded(hour, 2) + ":"@ + text::zero_padded(minute, 2) + ":"@
        + text::zero_padded(second, 2) + "."@ + text::zero_padded(millis, 3)
}

fn push_padded(out: &mut Vec<char>, n: u32, width: usize)
    requires
        width <= 4,
    ensures
        final(out)@ == old(out)@ + text::zero_padded(n as nat, width as nat),
{
    let mut digits: Vec<char> = Vec::new();
    text::push_decimal(&mut digits, n as u64);
    assert(digits@ =~= text::decimal(n as nat));
    let ghost d = digits@;
    let mut k = digits.len();
    let ghost start = out@;
    while k < width
        invariant
            digits@ == d,
            d == text::decimal(n as nat),
            digits.len() <= k <= width || (k == digits.len() && k >= width),
            out@ == start + Seq::new((k - digits.len()) as nat, |i: int| '0'),
        decreases width - k,
    {
        out.push('0');
        assert(out@ =~= start + Seq::new((k + 1 - digits.len()) as nat, |i: int| '0'));
        k = k + 1;
    }
    text::push_chars(out, &digits);
    proof {
        if d.len() >= width {
            assert(Seq::new((k - digits.len()) as nat, |i: int| '0') =~= Seq::<char>::empty());
            assert(out@ =~= old(out)@ + d);
        } else {
            assert(out@ =~= old(out)@ + (Seq::new((width - d.len()) as nat, |i: int| '0') + d));
        }
    }
}

/// Formats the broken-down local time of a log entry (`struct tm` fields:
/// years since 1900, months from 0).
pub fn format_log_timestamp(
    tm_year: i32,
    tm_mon: i32,
    tm_mday: i32,
    tm_hour: i32,
    tm_min: i32,
    tm_sec: i32,
    millis: u32,
) -> (s: String)
    requires
        tm_year >= -1900,
        0 <= tm_mon < 12,
        0 <= tm_mday,
        0 <= tm_hour,
        0 <= tm_min,
        0 <= tm_sec,
    ensures
        s@ == timestamp_text(
            (tm_year + 1900) as nat,
            (tm_mon + 1) as nat,
            tm_mday as nat,
            tm_hour as nat,
            tm_min as nat,
            tm_sec as nat,
            millis as nat,
        ),
{
    let year = (tm_year as i64 + 1900) as u32;
    let mut v: Vec<char> = Vec::new();
    push_padded(&mut v, year, 4);
    text::push_str(&mut v, "-");
    push_padded(&mut v, (tm_mon + 1) as u32, 2);
    text::push_str(&mut v, "-");
    push_padded(&mut v, tm_mday as u32, 2);
    text::push_str(&mut v, " ");
    push_padded(&mut v, tm_hour as u32, 2);
    text::push_str(&mut v, ":");
    push_padded(&mut v, tm_min as u32, 2);
    text::push_str(&mut v, ":");
    push_padded(&mut v, tm_sec as u32, 2);
    text::push_str(&mut v, ".");
    push_padded(&mut v, millis, 3);
    assert(v@ =~= timestamp_text(
        (tm_year + 1900) as nat,
        (tm_mon + 1) as nat,
        tm_mday as nat,
        tm_hour as nat,
        tm_min as nat,
        tm_sec as nat,
        millis as nat,
    ));
    text::string_of(&v)
}

/// The timestamp used when the local time is unknown: seconds since the
/// epoch, a dot and three digits of milliseconds.
pub fn format_epoch_timestamp(seconds: u64, millis: u32) -> (s: String)
    ensures
        s@ == text::decimal(seconds as nat) + "."@ + text::zero_padded(millis as nat, 3),
{
    let mut v: Vec<char> = Vec::new();
    text::push_decimal(&mut v, seconds);
    text::push_str(&mut v, ".");
    push_padded(&mut v, millis, 3);
    assert(v@ =~= text::decimal(seconds as nat) + "."@ + text::zero_padded(millis as nat, 3));
    text::string_of(&v)
}

/// A log entry: `[timestamp] message`.
pub fn log_entry(timestamp: &str, message: &str) -> (s: String)
    ensures
        s@ == "["@ + timestamp@ + "] "@ + message@,
{
    let mut v: Vec<char> = Vec::new();
    text::push_str(&mut v, "[");
    text::push_str(&mut v, timestamp);
    text::push_str(&mut v, "] ");
    text::push_str(&mut v, message);
    assert(v@ =~= "["@ + timestamp@ + "] "@ + message@);
    text::string_of(&v)
}

/// The largest request the helper reads, in bytes.
pub const MAX_REQUEST_SIZE: usize = 65536;

/// A request is refused when it fills the whole read limit.
pub fn check_request_size(len: usize) -> (r: Result<(), String>)
    ensures
        r is Ok <==> len < MAX_REQUEST_SIZE,
        r matches Err(e) ==> e@ == "Request too large"@,
{
    if len >= MAX_REQUEST_SIZE {
        return Err(String::from_str("Request too large"));
    }
    Ok(())
}

} // verus!
