//! Managing the helper service: shell and AppleScript quoting, the launchd
//! property lists and install scripts, the start sequence and the service
//! status. Commands run and files written by the program around the library.
use vstd::prelude::*;
use vstd::string::StringExecFns;
use crate::text;
use crate::battery::{HelperState, ServiceStatus, opt_view, copy_opt_string};
use crate::helper::{
    self as helper, path_join, HELPER_BIN, PID_NAME, ROOT_PLIST, ROOT_SUPPORT_DIR, SHARED_RUNTIME_DIR,
    SOCKET_NAME, STDERR_LOG_NAME, STDOUT_LOG_NAME,
};

verus! {

/// The launchd label of the helper.
pub const SERVICE_LABEL: &'static str = "com.smallshow.battery-toolkit-helper";

// ---------------------------------------------------------------------------
// Quoting
// ---------------------------------------------------------------------------

/// `s` with each `'` replaced by `'"'"'`.
pub open spec fn shell_escape(s: Seq<char>) -> Seq<char>
    decreases s.len(),
{
    if s.len() == 0 {
        Seq::empty()
    } else {
        shell_escape(s.drop_last()) + if s.last() == '\'' {
            "'\"'\"'"@
        } else {
            seq![s.last()]
        }
    }
}

/// `s` as a single-quoted shell word.
pub open spec fn shell_quoted(s: Seq<char>) -> Seq<char> {
    "'"@ + shell_escape(s) + "'"@
}

/// `s` with backslashes doubled and double quotes escaped.
pub open spec fn applescript_escape(s: Seq<char>) -> Seq<char>
    decreases s.len(),
{
    if s.len() == 0 {
        Seq::empty()
    } else {
        applescript_escape(s.drop_last()) + if s.last() == '\\' {
            "\\\\"@
        } else if s.last() == '"' {
            "\\\""@
        } else {
            seq![s.last()]
        }
    }
}

/// Quotes a value for a POSIX shell: `'...'`, each `'` written as `'"'"'`.
pub fn quote_shell(value: &str) -> (q: String)
    ensures
        q@ == shell_quoted(value@),
{
    let v = text::chars_of(value);
    let mut out: Vec<char> = Vec::new();
    text::push_str(&mut out, "'");
    let ghost start = out@;
    let mut i: usize = 0;
    while i < v.len()
        invariant
            i <= v.len(),
            v@ == value@,
            out@ == start + shell_escape(v@.subrange(0, i as int)),
        decreases v.len() - i,
    {
        assert(v@.subrange(0, i + 1).drop_last() =~= v@.subrange(0, i as int));
        if v[i] == '\'' {
            text::push_str(&mut out, "'\"'\"'");
        } else {
            out.push(v[i]);
        }
        assert(out@ =~= start + shell_escape(v@.subrange(0, i + 1)));
        i = i + 1;
    }
    assert(v@.subrange(0, v.len() as int) =~= v@);
    text::push_str(&mut out, "'");
    assert(out@ =~= shell_quoted(value@));
    text::string_of(&out)
}

/// Escapes a value for an AppleScript string literal: `\` becomes `\\`
/// and `"` becomes `\"`.
pub fn quote_applescript(value: &str) -> (q: String)
    ensures
        q@ == applescript_escape(value@),
{
    let v = text::chars_of(value);
    let mut out: Vec<char> = Vec::new();
    let mut i: usize = 0;
    while i < v.len()
        invariant
            i <= v.len(),
            v@ == value@,
            out@ == applescript_escape(v@.subrange(0, i as int)),
        decreases v.len() - i,
    {
        assert(v@.subrange(0, i + 1).drop_last() =~= v@.subrange(0, i as int));
        if v[i] == '\\' {
            text::push_str(&mut out, "\\\\");
        } else if v[i] == '"' {
            text::push_str(&mut out, "\\\"");
        } else {
            out.push(v[i]);
        }
        assert(out@ =~= applescript_escape(v@.subrange(0, i + 1)));
        i = i + 1;
    }
    assert(v@.subrange(0, v.len() as int) =~= v@);
    text::string_of(&out)
}

// ---------------------------------------------------------------------------
// launchd property lists
// ---------------------------------------------------------------------------

pub const PLIST_HEAD: &'static str = "<?xml version=\"1.0\" encoding=\"UTF-8\"?>\n<!DOCTYPE plist PUBLIC \"-//Apple//DTD PLIST 1.0//EN\" \"http://www.apple.com/DTDs/PropertyList-1.0.dtd\">\n<plist version=\"1.0\">\n<dict>\n  <key>Label</key>\n  <string>";
pub const PLIST_AFTER_LABEL: &'static str = "</string>\n  <key>ProgramArguments</key>\n  <array>\n    <string>";
pub const PLIST_AFTER_PROGRAM: &'static str = "</string>\n  </array>\n  <key>RunAtLoad</key>\n  <true/>\n  <key>KeepAlive</key>\n  <true/>\n  <key>WorkingDirectory</key>\n  <string>";
pub const PLIST_AFTER_WORKDIR: &'static str = "</string>\n  <key>StandardOutPath</key>\n  <string>";
pub const PLIST_AFTER_STDOUT: &'static str = "</string>\n  <key>StandardErrorPath</key>\n  <string>";
pub const PLIST_TAIL: &'static str = "</string>\n  <key>EnvironmentVariables</key>\n  <dict>\n    <key>PATH</key>\n    <string>/usr/bin:/bin:/usr/sbin:/sbin</string>\n  </dict>\n</dict>\n</plist>\n";

/// The launchd property list that runs `program` with the helper's label,
/// working directory and log files.
pub open spec fn plist_text(program: Seq<char>, workdir: Seq<char>) -> Seq<char> {
    PLIST_HEAD@ + SERVICE_LABEL@ + PLIST_AFTER_LABEL@ + program + PLIST_AFTER_PROGRAM@ + workdir
        + PLIST_AFTER_WORKDIR@ + path_join(SHARED_RUNTIME_DIR@, STDOUT_LOG_NAME@)
        + PLIST_AFTER_STDOUT@ + path_join(SHARED_RUNTIME_DIR@, STDERR_LOG_NAME@) + PLIST_TAIL@
}

fn plist_contents(program: &str, workdir: &str) -> (s: String)
    ensures
        s@ == plist_text(program@, workdir@),
{
    let stdout_log = helper::helper_stdout_log_path();
    let stderr_log = helper::helper_stderr_log_path();
    let mut v: Vec<char> = Vec::new();
    text::push_str(&mut v, PLIST_HEAD);
    text::push_str(&mut v, SERVICE_LABEL);
    text::push_str(&mut v, PLIST_AFTER_LABEL);
    text::push_str(&mut v, program);
    text::push_str(&mut v, PLIST_AFTER_PROGRAM);
    text::push_str(&mut v, workdir);
    text::push_str(&mut v, PLIST_AFTER_WORKDIR);
    text::push_str(&mut v, stdout_log.as_str());
    text::push_str(&mut v, PLIST_AFTER_STDOUT);
    text::push_str(&mut v, stderr_log.as_str());
    text::push_str(&mut v, PLIST_TAIL);
    assert(v@ =~= plist_text(program@, workdir@));
    text::string_of(&v)
}

/// The launch agent of a per-user helper, working in its support directory.
pub fn user_plist_contents(program: &str, helper_root: &str) -> (s: String)
    ensures
        s@ == plist_text(program@, helper_root@),
{
    plist_contents(program, helper_root)
}

/// The launch daemon of the system-wide helper.
pub fn system_plist_contents(program: &str) -> (s: String)
    ensures
        s@ == plist_text(program@, ROOT_SUPPORT_DIR@),
{
    plist_contents(program, ROOT_SUPPORT_DIR)
}

// ---------------------------------------------------------------------------
// Privileged scripts
// ---------------------------------------------------------------------------

/// The commands that stop the system service and remove its socket and pid
/// file.
pub open spec fn stop_commands() -> Seq<char> {
    "launchctl bootout system/"@ + SERVICE_LABEL@ + " >/dev/null 2>&1 || true\nrm -f "@
        + shell_quoted(path_join(SHARED_RUNTIME_DIR@, SOCKET_NAME@)) + " "@ + shell_quoted(
        path_join(SHARED_RUNTIME_DIR@, PID_NAME@),
    ) + "\n"@
}

fn push_stop_commands(v: &mut Vec<char>)
    ensures
        final(v)@ == old(v)@ + stop_commands(),
{
    let socket = helper::socket_path();
    let pid = helper::helper_pid_path();
    text::push_str(v, "launchctl bootout system/");
    text::push_str(v, SERVICE_LABEL);
    text::push_str(v, " >/dev/null 2>&1 || true\nrm -f ");
    text::push_str(v, quote_shell(socket.as_str()).as_str());
    text::push_str(v, " ");
    text::push_str(v, quote_shell(pid.as_str()).as_str());
    text::push_str(v, "\n");
    assert(v@ =~= old(v)@ + stop_commands());
}

/// The body of the script that stops the system service.
pub fn stop_root_script() -> (s: String)
    ensures
        s@ == stop_commands(),
{
    let mut v: Vec<char> = Vec::new();
    push_stop_commands(&mut v);
    assert(v@ =~= stop_commands());
    text::string_of(&v)
}

/// The body of the script that restarts the system service.
pub fn restart_root_script() -> (s: String)
    ensures
        s@ == stop_commands() + "launchctl bootstrap system "@ + shell_quoted(ROOT_PLIST@) + "\n"@,
{
    let mut v: Vec<char> = Vec::new();
    push_stop_commands(&mut v);
    text::push_str(&mut v, "launchctl bootstrap system ");
    text::push_str(&mut v, quote_shell(ROOT_PLIST).as_str());
    text::push_str(&mut v, "\n");
    assert(v@ =~= stop_commands() + "launchctl bootstrap system "@ + shell_quoted(ROOT_PLIST@)
        + "\n"@);
    text::string_of(&v)
}

/// The script that installs the system service from the helper binary at
/// `source` and the property list written at `plist_src`.
pub open spec fn install_script_text(source: Seq<char>, plist_src: Seq<char>) -> Seq<char> {
    "mkdir -p "@ + shell_quoted(ROOT_SUPPORT_DIR@) + "\nmkdir -p "@ + shell_quoted(
        path_join(ROOT_SUPPORT_DIR@, "bin"@),
    ) + "\ninstall -m 755 "@ + shell_quoted(source) + " "@ + shell_quoted(
        path_join(ROOT_SUPPORT_DIR@, HELPER_BIN@),
    ) + "\ninstall -d -m 755 /Library/LaunchDaemons\ninstall -m 644 "@ + shell_quoted(plist_src)
        + " "@ + shell_quoted(ROOT_PLIST@) + "\n"@ + stop_commands() + "launchctl bootstrap system "@
        + shell_quoted(ROOT_PLIST@) + "\n"@
}

/// The install script copies the written property list to the system
/// daemon's path, from `plist_src` to that path and in that order, and only
/// afterwards bootstraps the daemon from there.
pub proof fn law_install_script_places_plist(source: Seq<char>, plist_src: Seq<char>)
    ensures
        exists|i: int, j: int|
            text::occurs_at(
                install_script_text(source, plist_src),
                "install -m 644 "@ + shell_quoted(plist_src) + " "@ + shell_quoted(ROOT_PLIST@),
                i,
            ) && i + ("install -m 644 "@ + shell_quoted(plist_src) + " "@ + shell_quoted(
                ROOT_PLIST@,
            )).len() <= j && text::occurs_at(
                install_script_text(source, plist_src),
                "launchctl bootstrap system "@ + shell_quoted(ROOT_PLIST@),
                j,
            ),
{
    reveal_strlit("\ninstall -d -m 755 /Library/LaunchDaemons\ninstall -m 644 ");
    reveal_strlit("\ninstall -d -m 755 /Library/LaunchDaemons\n");
    reveal_strlit("install -m 644 ");
    let lead = "mkdir -p "@ + shell_quoted(ROOT_SUPPORT_DIR@) + "\nmkdir -p "@ + shell_quoted(
        path_join(ROOT_SUPPORT_DIR@, "bin"@),
    ) + "\ninstall -m 755 "@ + shell_quoted(source) + " "@ + shell_quoted(
        path_join(ROOT_SUPPORT_DIR@, HELPER_BIN@),
    );
    assert("\ninstall -d -m 755 /Library/LaunchDaemons\ninstall -m 644 "@ =~= "\ninstall -d -m 755 /Library/LaunchDaemons\n"@
        + "install -m 644 "@);
    let a = lead + "\ninstall -d -m 755 /Library/LaunchDaemons\n"@;
    let copy = "install -m 644 "@ + shell_quoted(plist_src) + " "@ + shell_quoted(ROOT_PLIST@);
    let mid = "\n"@ + stop_commands();
    let boot = "launchctl bootstrap system "@ + shell_quoted(ROOT_PLIST@);
    let t = install_script_text(source, plist_src);
    assert(t =~= a + copy + mid + boot + "\n"@);
    let i = a.len() as int;
    let j = (a.len() + copy.len() + mid.len()) as int;
    assert(t.subrange(i, i + copy.len()) =~= copy);
    assert(t.subrange(j, j + boot.len()) =~= boot);
    assert(text::occurs_at(t, copy, i));
    assert(text::occurs_at(t, boot, j));
}

/// The body of the script that installs and starts the system service.
pub fn install_root_script(source: &str, plist_src: &str) -> (s: String)
    ensures
        s@ == install_script_text(source@, plist_src@),
{
    let bin_dir = helper::join_path(ROOT_SUPPORT_DIR, "bin");
    let target = helper::system_helper_bin_path();
    let mut v: Vec<char> = Vec::new();
    text::push_str(&mut v, "mkdir -p ");
    text::push_str(&mut v, quote_shell(ROOT_SUPPORT_DIR).as_str());
    text::push_str(&mut v, "\nmkdir -p ");
    text::push_str(&mut v, quote_shell(bin_dir.as_str()).as_str());
    text::push_str(&mut v, "\ninstall -m 755 ");
    text::push_str(&mut v, quote_shell(source).as_str());
    text::push_str(&mut v, " ");
    text::push_str(&mut v, quote_shell(target.as_str()).as_str());
    text::push_str(&mut v, "\ninstall -d -m 755 /Library/LaunchDaemons\ninstall -m 644 ");
    text::push_str(&mut v, quote_shell(plist_src).as_str());
    text::push_str(&mut v, " ");
    text::push_str(&mut v, quote_shell(ROOT_PLIST).as_str());
    text::push_str(&mut v, "\n");
    push_stop_commands(&mut v);
    text::push_str(&mut v, "launchctl bootstrap system ");
    text::push_str(&mut v, quote_shell(ROOT_PLIST).as_str());
    text::push_str(&mut v, "\n");
    assert(v@ =~= install_script_text(source@, plist_src@));
    text::string_of(&v)
}

/// A shell script file made of `body`.
pub fn privileged_script(body: &str) -> (s: String)
    ensures
        s@ == "#!/bin/sh\nset -e\n"@ + body@ + "\n"@,
{
    let mut v: Vec<char> = Vec::new();
    text::push_str(&mut v, "#!/bin/sh\nset -e\n");
    text::push_str(&mut v, body);
    text::push_str(&mut v, "\n");
    assert(v@ =~= "#!/bin/sh\nset -e\n"@ + body@ + "\n"@);
    text::string_of(&v)
}

/// The AppleScript that runs the script at `script_path` with administrator
/// privileges.
pub fn osascript_source(script_path: &str) -> (s: String)
    ensures
        s@ == "do shell script \""@ + applescript_escape("/bin/sh "@ + shell_quoted(script_path@))
            + "\" with administrator privileges"@,
{
    let shell_command = text::concat("/bin/sh ", quote_shell(script_path).as_str());
    let mut v: Vec<char> = Vec::new();
    text::push_str(&mut v, "do shell script \"");
    text::push_str(&mut v, quote_applescript(shell_command.as_str()).as_str());
    text::push_str(&mut v, "\" with administrator privileges");
    assert(v@ =~= "do shell script \""@ + applescript_escape("/bin/sh "@ + shell_quoted(
        script_path@,
    )) + "\" with administrator privileges"@);
    text::string_of(&v)
}

/// `gui/<uid>`, the launchd domain of a user.
pub fn gui_domain(uid: &str) -> (s: String)
    ensures
        s@ == "gui/"@ + uid@,
{
    text::concat("gui/", uid)
}

/// `gui/<uid>/<label>`, the helper's service in a user's domain.
pub fn gui_service(uid: &str) -> (s: String)
    ensures
        s@ == "gui/"@ + uid@ + "/"@ + SERVICE_LABEL@,
{
    let mut v: Vec<char> = Vec::new();
    text::push_str(&mut v, "gui/");
    text::push_str(&mut v, uid);
    text::push_str(&mut v, "/");
    text::push_str(&mut v, SERVICE_LABEL);
    assert(v@ =~= "gui/"@ + uid@ + "/"@ + SERVICE_LABEL@);
    text::string_of(&v)
}

/// The user id printed by `id -u`, trimmed; `0` when it could not be read
/// or is empty.
pub fn uid_string(output: Option<&str>) -> (s: String)
    ensures
        s@ == match output {
            Some(o) => if text::trim(o@).len() > 0 {
                text::trim(o@)
            } else {
                "0"@
            },
            None => "0"@,
        },
{
    match output {
        Some(o) => {
            let t = text::trim_chars(&text::chars_of(o));
            if t.len() > 0 {
                text::string_of(&t)
            } else {
                String::from_str("0")
            }
        },
        None => String::from_str("0"),
    }
}

/// The helper binary next to the app, or the error that there is none.
pub fn helper_source_bin(sibling: Option<String>) -> (r: Result<String, String>)
    ensures
        sibling matches Some(p) ==> (r matches Ok(q) && q@ == p@),
        sibling is None ==> (r matches Err(e) && e@
            == "Could not locate battery-helper binary. Build the helper target before starting the service."@),
{
    match sibling {
        Some(p) => Ok(p),
        None => Err(
            String::from_str(
                "Could not locate battery-helper binary. Build the helper target before starting the service.",
            ),
        ),
    }
}

// ---------------------------------------------------------------------------
// Service status and replies
// ---------------------------------------------------------------------------

/// The service status: installed when any of its files exists, running when
/// it answered a ping, in control and with an error as the helper reports.
pub fn get_service_status(
    running: bool,
    state: Option<&HelperState>,
    daemon_plist_exists: bool,
    user_bin_exists: bool,
    sibling_bin_exists: bool,
    agent_plist_exists: bool,
) -> (s: ServiceStatus)
    ensures
        s.installed == (daemon_plist_exists || user_bin_exists || sibling_bin_exists
            || agent_plist_exists),
        s.running == running,
        s.control_available == match state {
            Some(h) => h.control_available,
            None => false,
        },
        opt_view(s.last_error) == match state {
            Some(h) => opt_view(h.last_error),
            None => None,
        },
{
    ServiceStatus {
        installed: daemon_plist_exists || user_bin_exists || sibling_bin_exists || agent_plist_exists,
        running,
        control_available: match state {
            Some(h) => h.control_available,
            None => false,
        },
        last_error: match state {
            Some(h) => copy_opt_string(&h.last_error),
            None => None,
        },
    }
}

/// The service log, where a missing log file reads as `--`.
pub fn get_logs(read: Result<String, String>) -> (r: Result<String, String>)
    ensures
        read matches Ok(l) ==> (r matches Ok(x) && x@ == l@),
        read matches Err(e) ==> (if text::contains(e@, "No such file or directory"@) {
            r matches Ok(x) && x@ == "--"@
        } else {
            r matches Err(x) && x@ == e@
        }),
{
    match read {
        Ok(l) => Ok(l),
        Err(e) => {
            let missing = text::contains_exec(
                &text::chars_of(e.as_str()),
                &text::chars_of("No such file or directory"),
            );
            if missing {
                Ok(String::from_str("--"))
            } else {
                Err(e)
            }
        },
    }
}

/// How the client reads a helper reply: success when it is `ok`, otherwise
/// an error with the helper's message or a generic one.
pub open spec fn reply_outcome(ok: bool, error: Option<Seq<char>>) -> Result<(), Seq<char>> {
    if ok {
        Ok(())
    } else {
        Err(
            match error {
                Some(m) => m,
                None => "Unknown helper service error"@,
            },
        )
    }
}

/// The outcome of a helper reply: an error when it is not `ok`, with the
/// helper's message or a generic one.
pub fn reply_status(ok: bool, error: Option<String>) -> (r: Result<(), String>)
    ensures
        (r is Ok) == (reply_outcome(ok, opt_view(error)) is Ok),
        r matches Err(e) ==> reply_outcome(ok, opt_view(error)) == Err::<(), Seq<char>>(e@),
        ok ==> r is Ok,
        !ok ==> (r matches Err(e) && e@ == match opt_view(error) {
            Some(m) => m,
            None => "Unknown helper service error"@,
        }),
{
    if ok {
        return Ok(());
    }
    match error {
        Some(e) => Err(e),
        None => Err(String::from_str("Unknown helper service error")),
    }
}

/// Messages joined with `; `.
pub open spec fn joined(ms: Seq<Seq<char>>) -> Seq<char>
    decreases ms.len(),
{
    if ms.len() == 0 {
        Seq::empty()
    } else if ms.len() == 1 {
        ms[0]
    } else {
        joined(ms.drop_last()) + "; "@ + ms.last()
    }
}

/// Stopping the service succeeds when no step failed; otherwise the errors,
/// joined with `; `.
pub fn stop_service(errors: &Vec<String>) -> (r: Result<(), String>)
    ensures
        errors@.len() == 0 ==> r is Ok,
        errors@.len() > 0 ==> (r matches Err(e) && e@ == joined(
            errors@.map_values(|m: String| m@),
        )),
{
    if errors.len() == 0 {
        return Ok(());
    }
    let ghost all = errors@.map_values(|m: String| m@);
    let mut v: Vec<char> = Vec::new();
    let mut i: usize = 0;
    while i < errors.len()
        invariant
            i <= errors.len(),
            all == errors@.map_values(|m: String| m@),
            v@ == joined(all.subrange(0, i as int)),
        decreases errors.len() - i,
    {
        assert(all.subrange(0, i + 1).drop_last() =~= all.subrange(0, i as int));
        if i > 0 {
            text::push_str(&mut v, "; ");
        }
        text::push_str(&mut v, errors[i].as_str());
        assert(v@ =~= joined(all.subrange(0, i + 1)));
        i = i + 1;
    }
    assert(all.subrange(0, errors.len() as int) =~= all);
    Err(text::string_of(&v))
}

/// A question the start sequence asks.
#[derive(Clone, Copy, Debug, PartialEq, Eq, Structural)]
pub enum StartQuestion {
    /// Does the helper answer a ping?
    Ping,
    /// Does the system launch daemon exist?
    DaemonInstalled,
    /// Could the helper be installed for the user?
    InstallUser,
    /// Is `launchctl` available?
    LaunchctlAvailable,
    /// Could the launch agent be bootstrapped?
    BootstrapUser,
    /// Wait until the helper runs: does it?
    WaitRunning,
}

/// How the start sequence ends.
#[derive(Clone, Copy, Debug, PartialEq, Eq, Structural)]
pub enum StartFinish {
    /// Report the status as it is.
    ReportStatus,
    /// Restart the system daemon and wait until it runs.
    RestartRootAndWait,
    /// Report the status found while waiting.
    ReportWaited,
    /// Launch the helper directly and wait until it runs.
    SpawnAndWait,
}

/// The next step of starting the service.
#[derive(Clone, Copy, Debug, PartialEq, Eq, Structural)]
pub enum StartStep {
    Ask(StartQuestion),
    Finish(StartFinish),
}

/// The start sequence as a function of the answers so far: a running helper
/// is reported; an installed daemon is restarted; otherwise a user agent is
/// installed and bootstrapped, and if any of that fails, or the agent does
/// not come up, the helper is launched directly.
pub open spec fn start_plan(a: Seq<bool>) -> StartStep {
    if a.len() == 0 {
        StartStep::Ask(StartQuestion::Ping)
    } else if a[0] {
        StartStep::Finish(StartFinish::ReportStatus)
    } else if a.len() == 1 {
        StartStep::Ask(StartQuestion::DaemonInstalled)
    } else if a[1] {
        StartStep::Finish(StartFinish::RestartRootAndWait)
    } else if a.len() == 2 {
        StartStep::Ask(StartQuestion::InstallUser)
    } else if !a[2] {
        StartStep::Finish(StartFinish::SpawnAndWait)
    } else if a.len() == 3 {
        StartStep::Ask(StartQuestion::LaunchctlAvailable)
    } else if !a[3] {
        StartStep::Finish(StartFinish::SpawnAndWait)
    } else if a.len() == 4 {
        StartStep::Ask(StartQuestion::BootstrapUser)
    } else if !a[4] {
        StartStep::Finish(StartFinish::SpawnAndWait)
    } else if a.len() == 5 {
        StartStep::Ask(StartQuestion::WaitRunning)
    } else if a[5] {
        StartStep::Finish(StartFinish::ReportWaited)
    } else {
        StartStep::Finish(StartFinish::SpawnAndWait)
    }
}

/// The start sequence only reports the status as it is when the helper
/// answered the first ping. When it is not running and no system daemon is
/// installed, a failure to install the user agent, a missing `launchctl` or
/// a failed bootstrap each launch the helper directly.
pub proof fn law_start_falls_back_to_spawning(a: Seq<bool>)
    ensures
        start_plan(a) == StartStep::Finish(StartFinish::ReportStatus) ==> a.len() > 0 && a[0],
        a.len() >= 3 && !a[0] && !a[1] && !a[2] ==> start_plan(a) == StartStep::Finish(
            StartFinish::SpawnAndWait,
        ),
        a.len() >= 4 && !a[0] && !a[1] && a[2] && !a[3] ==> start_plan(a) == StartStep::Finish(
            StartFinish::SpawnAndWait,
        ),
        a.len() >= 5 && !a[0] && !a[1] && a[2] && a[3] && !a[4] ==> start_plan(a) == StartStep::Finish(
            StartFinish::SpawnAndWait,
        ),
{
}

/// The next step of starting the service, given the answers so far.
pub fn start_service(answers: &Vec<bool>) -> (s: StartStep)
    requires
        answers@.len() <= 6,
    ensures
        s == start_plan(answers@),
{
    let n = answers.len();
    if n == 0 {
        StartStep::Ask(StartQuestion::Ping)
    } else if answers[0] {
        StartStep::Finish(StartFinish::ReportStatus)
    } else if n == 1 {
        StartStep::Ask(StartQuestion::DaemonInstalled)
    } else if answers[1] {
        StartStep::Finish(StartFinish::RestartRootAndWait)
    } else if n == 2 {
        StartStep::Ask(StartQuestion::InstallUser)
    } else if !answers[2] {
        StartStep::Finish(StartFinish::SpawnAndWait)
    } else if n == 3 {
        StartStep::Ask(StartQuestion::LaunchctlAvailable)
    } else if !answers[3] {
        StartStep::Finish(StartFinish::SpawnAndWait)
    } else if n == 4 {
        StartStep::Ask(StartQuestion::BootstrapUser)
    } else if !answers[4] {
        StartStep::Finish(StartFinish::SpawnAndWait)
    } else if n == 5 {
        StartStep::Ask(StartQuestion::WaitRunning)
    } else if answers[5] {
        StartStep::Finish(StartFinish::ReportWaited)
    } else {
        StartStep::Finish(StartFinish::SpawnAndWait)
    }
}

/// Every start sequence ends after at most six answers, and it only ends by
/// launching the helper directly when the helper was not already running,
/// no system daemon is installed and the user agent did not come up.
pub proof fn law_start_sequence_ends(a: Seq<bool>)
    requires
        a.len() == 6,
    ensures
        start_plan(a) is Finish,
        start_plan(a) == StartStep::Finish(StartFinish::SpawnAndWait) ==> !a[0] && !a[1] && !(a[2]
            && a[3] && a[4] && a[5]),
{
}

/// The poll interval while waiting for the helper to start, in ms, and how
/// many polls are made before the status is read once more.
pub const WAIT_POLL_MS: u64 = 250;
pub const WAIT_POLLS: usize = 16;

/// The helper command that toggles the adapter: enable when it is cut,
/// otherwise disable.
pub fn adapter_toggle_command(power_disabled: bool) -> (c: &'static str)
    ensures
        c@ == if power_disabled {
            "enable_adapter"@
        } else {
            "disable_adapter"@
        },
{
    if power_disabled {
        "enable_adapter"
    } else {
        "disable_adapter"
    }
}

// ---------------------------------------------------------------------------
// Laws of the quoting
// ---------------------------------------------------------------------------

/// How a POSIX shell reads a word made of quoted parts, outside quotes;
/// `acc` is what it has read so far. Unquoted characters are not part of
/// this reader (they never occur in a quoted word).
pub open spec fn sh_read_out(w: Seq<char>, acc: Seq<char>) -> Option<Seq<char>>
    decreases w.len(),
{
    if w.len() == 0 {
        Some(acc)
    } else if w[0] == '\'' {
        sh_read_sq(w.drop_first(), acc)
    } else if w[0] == '"' {
        sh_read_dq(w.drop_first(), acc)
    } else {
        None
    }
}

/// Inside single quotes every character stands for itself until the next
/// single quote.
pub open spec fn sh_read_sq(w: Seq<char>, acc: Seq<char>) -> Option<Seq<char>>
    decreases w.len(),
{
    if w.len() == 0 {
        None
    } else if w[0] == '\'' {
        sh_read_out(w.drop_first(), acc)
    } else {
        sh_read_sq(w.drop_first(), acc.push(w[0]))
    }
}

/// Inside double quotes characters stand for themselves until the next
/// double quote; `\`, `$` and backquote are special and not read here.
pub open spec fn sh_read_dq(w: Seq<char>, acc: Seq<char>) -> Option<Seq<char>>
    decreases w.len(),
{
    if w.len() == 0 {
        None
    } else if w[0] == '"' {
        sh_read_out(w.drop_first(), acc)
    } else if w[0] == '\\' || w[0] == '$' || w[0] == '`' {
        None
    } else {
        sh_read_dq(w.drop_first(), acc.push(w[0]))
    }
}

/// How AppleScript reads the rest of a string literal after its opening
/// quote: `\\` and `\"` stand for `\` and `"`, and the literal must end
/// with the closing quote.
pub open spec fn as_read(w: Seq<char>, acc: Seq<char>) -> Option<Seq<char>>
    decreases w.len(),
{
    if w.len() == 0 {
        None
    } else if w[0] == '"' {
        if w.len() == 1 {
            Some(acc)
        } else {
            None
        }
    } else if w[0] == '\\' {
        if w.len() >= 2 && (w[1] == '\\' || w[1] == '"') {
            as_read(w.subrange(2, w.len() as int), acc.push(w[1]))
        } else {
            None
        }
    } else {
        as_read(w.drop_first(), acc.push(w[0]))
    }
}

proof fn lemma_shell_escape_concat(a: Seq<char>, b: Seq<char>)
    ensures
        shell_escape(a + b) == shell_escape(a) + shell_escape(b),
    decreases b.len(),
{
    if b.len() == 0 {
        assert(a + b =~= a);
        assert(shell_escape(a) + shell_escape(b) =~= shell_escape(a));
    } else {
        lemma_shell_escape_concat(a, b.drop_last());
        assert((a + b).drop_last() =~= a + b.drop_last());
        assert((a + b).last() == b.last());
        let e = if b.last() == '\'' {
            "'\"'\"'"@
        } else {
            seq![b.last()]
        };
        assert(shell_escape(a) + shell_escape(b.drop_last()) + e =~= shell_escape(a) + (shell_escape(
            b.drop_last(),
        ) + e));
    }
}

proof fn lemma_applescript_escape_concat(a: Seq<char>, b: Seq<char>)
    ensures
        applescript_escape(a + b) == applescript_escape(a) + applescript_escape(b),
    decreases b.len(),
{
    if b.len() == 0 {
        assert(a + b =~= a);
        assert(applescript_escape(a) + applescript_escape(b) =~= applescript_escape(a));
    } else {
        lemma_applescript_escape_concat(a, b.drop_last());
        assert((a + b).drop_last() =~= a + b.drop_last());
        assert((a + b).last() == b.last());
        let c = b.last();
        let e = if c == '\\' {
            "\\\\"@
        } else if c == '"' {
            "\\\""@
        } else {
            seq![c]
        };
        assert(applescript_escape(a) + applescript_escape(b.drop_last()) + e =~= applescript_escape(
            a,
        ) + (applescript_escape(b.drop_last()) + e));
    }
}

proof fn lemma_sh_read_escaped(t: Seq<char>, r: Seq<char>, acc: Seq<char>)
    ensures
        sh_read_sq(shell_escape(t) + r, acc) == sh_read_sq(r, acc + t),
    decreases t.len(),
{
    reveal_strlit("'\"'\"'");
    if t.len() == 0 {
        assert(shell_escape(t) + r =~= r);
        assert(acc + t =~= acc);
    } else {
        let c = t[0];
        let rest = t.drop_first();
        assert(t =~= seq![c] + rest);
        lemma_shell_escape_concat(seq![c], rest);
        assert(seq![c].drop_last() =~= Seq::<char>::empty());
        assert(shell_escape(seq![c]) == shell_escape(Seq::<char>::empty()) + if c == '\'' {
            "'\"'\"'"@
        } else {
            seq![c]
        });
        lemma_sh_read_escaped(rest, r, acc.push(c));
        assert(acc.push(c) + rest =~= acc + t);
        let tail = shell_escape(rest) + r;
        if c == '\'' {
            let w = "'\"'\"'"@ + tail;
            assert(shell_escape(t) + r =~= w);
            assert(w.drop_first().drop_first().drop_first().drop_first().drop_first() =~= tail);
            assert(sh_read_sq(w, acc) == sh_read_out(w.drop_first(), acc));
            assert(sh_read_out(w.drop_first(), acc) == sh_read_dq(w.drop_first().drop_first(), acc));
            assert(sh_read_dq(w.drop_first().drop_first(), acc) == sh_read_dq(
                w.drop_first().drop_first().drop_first(),
                acc.push('\''),
            ));
            assert(sh_read_dq(w.drop_first().drop_first().drop_first(), acc.push('\''))
                == sh_read_out(w.drop_first().drop_first().drop_first().drop_first(), acc.push('\'')));
            assert(sh_read_out(w.drop_first().drop_first().drop_first().drop_first(), acc.push('\''))
                == sh_read_sq(tail, acc.push('\'')));
        } else {
            let w = seq![c] + tail;
            assert(shell_escape(seq![c]) =~= seq![c]);
            assert(shell_escape(t) + r =~= w);
            assert(w.drop_first() =~= tail);
        }
    }
}

proof fn lemma_as_read_escaped(t: Seq<char>, r: Seq<char>, acc: Seq<char>)
    ensures
        as_read(applescript_escape(t) + r, acc) == as_read(r, acc + t),
    decreases t.len(),
{
    reveal_strlit("\\\\");
    reveal_strlit("\\\"");
    if t.len() == 0 {
        assert(applescript_escape(t) + r =~= r);
        assert(acc + t =~= acc);
    } else {
        let c = t[0];
        let rest = t.drop_first();
        assert(t =~= seq![c] + rest);
        lemma_applescript_escape_concat(seq![c], rest);
        assert(seq![c].drop_last() =~= Seq::<char>::empty());
        lemma_as_read_escaped(rest, r, acc.push(c));
        assert(acc.push(c) + rest =~= acc + t);
        let tail = applescript_escape(rest) + r;
        let e = if c == '\\' {
            "\\\\"@
        } else if c == '"' {
            "\\\""@
        } else {
            seq![c]
        };
        assert(applescript_escape(seq![c]) == applescript_escape(seq![c].drop_last()) + e);
        assert(applescript_escape(Seq::<char>::empty()) == Seq::<char>::empty());
        assert(Seq::<char>::empty() + e =~= e);
        if c == '\\' || c == '"' {
            let w = seq!['\\', c] + tail;
            assert(e =~= seq!['\\', c]);
            assert(applescript_escape(seq![c]) =~= seq!['\\', c]);
            assert(applescript_escape(t) + r =~= w);
            assert(w.subrange(2, w.len() as int) =~= tail);
        } else {
            let w = seq![c] + tail;
            assert(applescript_escape(seq![c]) =~= seq![c]);
            assert(applescript_escape(t) + r =~= w);
            assert(w.drop_first() =~= tail);
        }
    }
}

/// A shell reads a quoted value back as exactly that value, whatever
/// characters it holds.
pub proof fn law_shell_quoting_round_trip(s: Seq<char>)
    ensures
        sh_read_out(shell_quoted(s), Seq::empty()) == Some(s),
{
    reveal_strlit("'");
    let w = shell_quoted(s);
    assert(w =~= seq!['\''] + (shell_escape(s) + seq!['\'']));
    assert(w.drop_first() =~= shell_escape(s) + seq!['\'']);
    lemma_sh_read_escaped(s, seq!['\''], Seq::empty());
    assert(Seq::<char>::empty() + s =~= s);
    assert(seq!['\''].drop_first() =~= Seq::<char>::empty());
    assert(w[0] == '\'');
    assert(sh_read_out(w, Seq::empty()) == sh_read_sq(w.drop_first(), Seq::empty()));
    assert(sh_read_sq(seq!['\''], s) == sh_read_out(Seq::<char>::empty(), s));
}

/// AppleScript reads an escaped value, closed by a quote, back as exactly
/// that value.
pub proof fn law_applescript_quoting_round_trip(s: Seq<char>)
    ensures
        as_read(applescript_escape(s) + seq!['"'], Seq::empty()) == Some(s),
{
    lemma_as_read_escaped(s, seq!['"'], Seq::empty());
    assert(Seq::<char>::empty() + s =~= s);
}

} // verus!
