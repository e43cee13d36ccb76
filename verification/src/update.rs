//! The updater's status record and how each phase of checking for and
//! installing an update changes it. The update itself is fetched by the
//! program around the library.
use vstd::prelude::*;
use vstd::string::StringExecFns;
use crate::text;
use crate::battery::opt_view;

verus! {

/// What the app knows about updates.
#[derive(Clone, Debug)]
pub struct UpdateStatus {
    pub configured: bool,
    pub checking: bool,
    pub update_available: bool,
    pub current_version: String,
    pub latest_version: Option<String>,
    pub notes: Option<String>,
    pub published_at: Option<String>,
    pub download_in_progress: bool,
    pub downloaded_bytes: u64,
    pub content_length: Option<u64>,
    pub ready_to_install: bool,
    pub startup_badge_visible: bool,
    pub error: Option<String>,
}

impl Default for UpdateStatus {
    fn default() -> (s: Self)
        ensures
            !s.configured && !s.checking && !s.update_available && s.current_version@.len() == 0
                && s.latest_version is None && s.notes is None && s.published_at is None
                && !s.download_in_progress && s.downloaded_bytes == 0 && s.content_length is None
                && !s.ready_to_install && !s.startup_badge_visible && s.error is None,
    {
        UpdateStatus {
            configured: false,
            checking: false,
            update_available: false,
            current_version: String::new(),
            latest_version: None,
            notes: None,
            published_at: None,
            download_in_progress: false,
            downloaded_bytes: 0,
            content_length: None,
            ready_to_install: false,
            startup_badge_visible: false,
            error: None,
        }
    }
}

/// The updater's state kept by the app.
pub struct UpdateState {
    pub inner: UpdateStatus,
}

impl Default for UpdateState {
    fn default() -> (s: Self)
        ensures
            s.inner.downloaded_bytes == 0 && !s.inner.configured,
    {
        UpdateState { inner: UpdateStatus::default() }
    }
}

/// The startup badge is only shown for an update that is available.
pub open spec fn badge_shows_update(s: UpdateStatus) -> bool {
    s.startup_badge_visible ==> s.update_available
}

/// The message when no updater is configured.
pub open spec fn not_configured_message() -> Seq<char> {
    "Updater is not configured yet."@
}

/// The updater is configured when it has a non-blank public key and at
/// least one endpoint.
pub fn config_is_ready(pubkey: Option<&str>, endpoint_count: Option<usize>) -> (b: bool)
    ensures
        b == (match pubkey {
            Some(k) => text::trim(k@).len() > 0,
            None => false,
        } && match endpoint_count {
            Some(n) => n > 0,
            None => false,
        }),
{
    let key_ok = match pubkey {
        Some(k) => text::trim_chars(&text::chars_of(k)).len() > 0,
        None => false,
    };
    let endpoints_ok = match endpoint_count {
        Some(n) => n > 0,
        None => false,
    };
    key_ok && endpoints_ok
}

/// Records the app version and whether the updater is configured.
pub fn initialize(status: &mut UpdateStatus, version: &str, configured: bool)
    ensures
        badge_shows_update(*old(status)) ==> badge_shows_update(*final(status)),
        final(status).current_version@ == version@,
        *final(status) == (UpdateStatus {
            current_version: final(status).current_version,
            configured,
            ..*old(status)
        }),
{
    status.current_version = String::from_str(version);
    status.configured = configured;
}

/// Starts a check: the version is recorded, errors and download progress
/// are cleared, and when the updater is not configured everything about an
/// available update is cleared too.
pub fn begin_check(status: &mut UpdateStatus, version: &str, configured: bool)
    ensures
        badge_shows_update(*old(status)) ==> badge_shows_update(*final(status)),
        final(status).current_version@ == version@,
        configured ==> *final(status) == (UpdateStatus {
            current_version: final(status).current_version,
            configured: true,
            error: None,
            checking: true,
            download_in_progress: false,
            downloaded_bytes: 0,
            content_length: None,
            ready_to_install: false,
            ..*old(status)
        }),
        !configured ==> *final(status) == (UpdateStatus {
            current_version: final(status).current_version,
            configured: false,
            error: None,
            checking: false,
            download_in_progress: false,
            downloaded_bytes: 0,
            content_length: None,
            ready_to_install: false,
            update_available: false,
            latest_version: None,
            notes: None,
            published_at: None,
            startup_badge_visible: false,
        }),
{
    status.current_version = String::from_str(version);
    status.configured = configured;
    status.error = None;
    status.checking = configured;
    status.download_in_progress = false;
    status.downloaded_bytes = 0;
    status.content_length = None;
    status.ready_to_install = false;
    if !configured {
        status.update_available = false;
        status.latest_version = None;
        status.notes = None;
        status.published_at = None;
        status.startup_badge_visible = false;
    }
}

/// A check that cannot run: no longer checking, with the not-configured
/// error.
pub fn check_not_configured(status: &mut UpdateStatus)
    ensures
        badge_shows_update(*old(status)) ==> badge_shows_update(*final(status)),
        opt_view(final(status).error) == Some(not_configured_message()),
        *final(status) == (UpdateStatus { checking: false, error: final(status).error, ..*old(status) }),
{
    status.checking = false;
    status.error = Some(String::from_str("Updater is not configured yet."));
}

/// A check that found an update: its version, notes and date are recorded;
/// a check at startup shows the badge, which otherwise stays as it was.
pub fn check_found(
    status: &mut UpdateStatus,
    version: String,
    notes: Option<String>,
    published_at: Option<String>,
    startup: bool,
)
    ensures
        badge_shows_update(*old(status)) ==> badge_shows_update(*final(status)),
        opt_view(final(status).latest_version) == Some(version@),
        *final(status) == (UpdateStatus {
            checking: false,
            update_available: true,
            latest_version: final(status).latest_version,
            notes,
            published_at,
            startup_badge_visible: startup || old(status).startup_badge_visible,
            error: None,
            ..*old(status)
        }),
{
    status.checking = false;
    status.update_available = true;
    status.latest_version = Some(version);
    status.notes = notes;
    status.published_at = published_at;
    status.startup_badge_visible = startup || status.startup_badge_visible;
    status.error = None;
}

/// A check that found no update: nothing about an update remains.
pub fn check_none(status: &mut UpdateStatus)
    ensures
        badge_shows_update(*old(status)) ==> badge_shows_update(*final(status)),
        *final(status) == (UpdateStatus {
            checking: false,
            update_available: false,
            latest_version: None,
            notes: None,
            published_at: None,
            startup_badge_visible: false,
            error: None,
            ..*old(status)
        }),
{
    status.checking = false;
    status.update_available = false;
    status.latest_version = None;
    status.notes = None;
    status.published_at = None;
    status.startup_badge_visible = false;
    status.error = None;
}

/// A download that cannot run because no updater is configured.
pub fn download_not_configured(status: &mut UpdateStatus)
    ensures
        badge_shows_update(*old(status)) ==> badge_shows_update(*final(status)),
        opt_view(final(status).error) == Some(not_configured_message()),
        *final(status) == (UpdateStatus { error: final(status).error, ..*old(status) }),
{
    status.error = Some(String::from_str("Updater is not configured yet."));
}

/// Starts a download: progress is reset.
pub fn begin_download(status: &mut UpdateStatus)
    ensures
        badge_shows_update(*old(status)) ==> badge_shows_update(*final(status)),
        *final(status) == (UpdateStatus {
            error: None,
            download_in_progress: true,
            downloaded_bytes: 0,
            content_length: None,
            ready_to_install: false,
            ..*old(status)
        }),
{
    status.error = None;
    status.download_in_progress = true;
    status.downloaded_bytes = 0;
    status.content_length = None;
    status.ready_to_install = false;
}

/// Records a downloaded chunk.
pub fn download_progress(status: &mut UpdateStatus, chunk_length: usize, content_length: Option<u64>)
    requires
        old(status).downloaded_bytes + chunk_length <= u64::MAX,
    ensures
        badge_shows_update(*old(status)) ==> badge_shows_update(*final(status)),
        *final(status) == (UpdateStatus {
            downloaded_bytes: (old(status).downloaded_bytes + chunk_length) as u64,
            content_length,
            download_in_progress: true,
            ..*old(status)
        }),
{
    status.downloaded_bytes = status.downloaded_bytes + chunk_length as u64;
    status.content_length = content_length;
    status.download_in_progress = true;
}

/// A finished download: ready to install, badge hidden.
pub fn finish_download(status: &mut UpdateStatus)
    ensures
        badge_shows_update(*old(status)) ==> badge_shows_update(*final(status)),
        *final(status) == (UpdateStatus {
            download_in_progress: false,
            ready_to_install: true,
            startup_badge_visible: false,
            error: None,
            ..*old(status)
        }),
{
    status.download_in_progress = false;
    status.ready_to_install = true;
    status.startup_badge_visible = false;
    status.error = None;
}

/// The message when the check before a download finds nothing.
pub fn no_update_message() -> (s: String)
    ensures
        s@ == "No update is currently available."@,
{
    String::from_str("No update is currently available.")
}

/// Hides the startup badge.
pub fn clear_badge(status: &mut UpdateStatus)
    ensures
        badge_shows_update(*old(status)) ==> badge_shows_update(*final(status)),
        *final(status) == (UpdateStatus { startup_badge_visible: false, ..*old(status) }),
{
    status.startup_badge_visible = false;
}

// ---------------------------------------------------------------------------
// The sequence of a check and of a download
// ---------------------------------------------------------------------------

/// What comes next in a check or a download: ask the updater, or the
/// operation is over with this result.
#[derive(Debug)]
pub enum UpdaterStep {
    AskUpdater,
    Done(Result<(), String>),
}

/// What the updater answered to a check.
pub enum CheckAnswer {
    Found { version: String, notes: Option<String>, published_at: Option<String> },
    NoUpdate,
    Failed(String),
}

/// Starts a check: without an updater the check is over with the
/// not-configured error recorded; otherwise the updater is asked.
pub fn start_check(status: &mut UpdateStatus, version: &str, configured: bool) -> (n: UpdaterStep)
    ensures
        badge_shows_update(*old(status)) ==> badge_shows_update(*final(status)),
        final(status).current_version@ == version@,
        configured ==> n is AskUpdater && *final(status) == (UpdateStatus {
            current_version: final(status).current_version,
            configured: true,
            error: None,
            checking: true,
            download_in_progress: false,
            downloaded_bytes: 0,
            content_length: None,
            ready_to_install: false,
            ..*old(status)
        }),
        !configured ==> (n matches UpdaterStep::Done(Ok(_))) && opt_view(final(status).error) == Some(
            not_configured_message(),
        ) && *final(status) == (UpdateStatus {
            current_version: final(status).current_version,
            configured: false,
            error: final(status).error,
            checking: false,
            download_in_progress: false,
            downloaded_bytes: 0,
            content_length: None,
            ready_to_install: false,
            update_available: false,
            latest_version: None,
            notes: None,
            published_at: None,
            startup_badge_visible: false,
        }),
{
    begin_check(status, version, configured);
    if configured {
        UpdaterStep::AskUpdater
    } else {
        check_not_configured(status);
        UpdaterStep::Done(Ok(()))
    }
}

/// Ends a check with the updater's answer. A failure is returned as it is
/// and leaves the status as it was, still checking.
pub fn finish_check(status: &mut UpdateStatus, answer: CheckAnswer, startup: bool) -> (r: Result<(), String>)
    ensures
        badge_shows_update(*old(status)) ==> badge_shows_update(*final(status)),
        answer matches CheckAnswer::Found { version, notes, published_at } ==> r is Ok && opt_view(
            final(status).latest_version,
        ) == Some(version@) && *final(status) == (UpdateStatus {
            checking: false,
            update_available: true,
            latest_version: final(status).latest_version,
            notes,
            published_at,
            startup_badge_visible: startup || old(status).startup_badge_visible,
            error: None,
            ..*old(status)
        }),
        answer is NoUpdate ==> r is Ok && *final(status) == (UpdateStatus {
            checking: false,
            update_available: false,
            latest_version: None,
            notes: None,
            published_at: None,
            startup_badge_visible: false,
            error: None,
            ..*old(status)
        }),
        answer matches CheckAnswer::Failed(e) ==> (r matches Err(m) && m@ == e@) && *final(status)
            == *old(status),
{
    match answer {
        CheckAnswer::Found { version, notes, published_at } => {
            check_found(status, version, notes, published_at, startup);
            Ok(())
        },
        CheckAnswer::NoUpdate => {
            check_none(status);
            Ok(())
        },
        CheckAnswer::Failed(e) => Err(e),
    }
}

/// What the updater reported during a download.
pub enum DownloadEvent {
    /// The check before the download found nothing.
    NoUpdate,
    /// A chunk arrived; the total length, when known.
    Chunk(usize, Option<u64>),
    /// The update is downloaded and installed.
    Installed,
    /// The updater failed.
    Failed(String),
}

/// Starts a download: without an updater it is over with the
/// not-configured error recorded; otherwise progress is reset and the
/// updater is asked.
pub fn start_download(status: &mut UpdateStatus, configured: bool) -> (n: UpdaterStep)
    ensures
        badge_shows_update(*old(status)) ==> badge_shows_update(*final(status)),
        configured ==> n is AskUpdater && *final(status) == (UpdateStatus {
            error: None,
            download_in_progress: true,
            downloaded_bytes: 0,
            content_length: None,
            ready_to_install: false,
            ..*old(status)
        }),
        !configured ==> (n matches UpdaterStep::Done(Ok(_))) && opt_view(final(status).error) == Some(
            not_configured_message(),
        ) && *final(status) == (UpdateStatus { error: final(status).error, ..*old(status) }),
{
    if configured {
        begin_download(status);
        UpdaterStep::AskUpdater
    } else {
        download_not_configured(status);
        UpdaterStep::Done(Ok(()))
    }
}

/// Continues a download with what the updater reported: a chunk is
/// counted and the updater asked again; an installed update ends it ready
/// to install; no update or a failure ends it with that error and the
/// status as it was, still downloading.
pub fn download_event(status: &mut UpdateStatus, event: DownloadEvent) -> (n: UpdaterStep)
    requires
        old(status).downloaded_bytes + match event {
            DownloadEvent::Chunk(c, _) => c as int,
            _ => 0int,
        } <= u64::MAX,
    ensures
        badge_shows_update(*old(status)) ==> badge_shows_update(*final(status)),
        event matches DownloadEvent::Chunk(c, len) ==> n is AskUpdater && *final(status) == (UpdateStatus {
            downloaded_bytes: (old(status).downloaded_bytes + c) as u64,
            content_length: len,
            download_in_progress: true,
            ..*old(status)
        }),
        event is Installed ==> (n matches UpdaterStep::Done(Ok(_))) && *final(status) == (UpdateStatus {
            download_in_progress: false,
            ready_to_install: true,
            startup_badge_visible: false,
            error: None,
            ..*old(status)
        }),
        event is NoUpdate ==> (n matches UpdaterStep::Done(Err(m)) && m@
            == "No update is currently available."@) && *final(status) == *old(status),
        event matches DownloadEvent::Failed(e) ==> (n matches UpdaterStep::Done(Err(m)) && m@ == e@)
            && *final(status) == *old(status),
{
    match event {
        DownloadEvent::Chunk(c, len) => {
            download_progress(status, c, len);
            UpdaterStep::AskUpdater
        },
        DownloadEvent::Installed => {
            finish_download(status);
            UpdaterStep::Done(Ok(()))
        },
        DownloadEvent::NoUpdate => UpdaterStep::Done(Err(no_update_message())),
        DownloadEvent::Failed(e) => UpdaterStep::Done(Err(e)),
    }
}

} // verus!
