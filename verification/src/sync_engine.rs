//! The sync engine's state: the configured server, the loaded passphrase, whether a sync is
//! running, and the status it reports.

use vstd::prelude::*;
use crate::error::{error_detail, AppError};
use crate::text::{owned, str_eq, trim_spec, trim_str};

verus! {

/// What the sync engine reports.
#[derive(Debug, Clone)]
pub struct SyncStatus {
    pub connected: bool,
    pub pending_changes: u32,
    pub last_sync: Option<i64>,
    pub needs_passphrase: bool,
    pub server_url: Option<String>,
}

/// The status of sync: connected when a server URL is configured and the device holds a
/// token; a passphrase is needed when connected but none is loaded. The count of pending
/// changes is taken as a `u32`.
pub fn sync_status(server_url: Option<String>, has_device_token: bool, passphrase_loaded: bool, pending: i64, last_sync: Option<i64>) -> (r: SyncStatus)
    ensures
        r.connected == (server_url is Some && has_device_token),
        r.needs_passphrase == (r.connected && !passphrase_loaded),
        r.pending_changes == pending as u32,
        r.last_sync == last_sync,
        r.server_url == server_url,
{
    let connected = server_url.is_some() && has_device_token;
    let needs_passphrase = connected && !passphrase_loaded;
    SyncStatus {
        connected,
        pending_changes: #[verifier::truncate] (pending as u32),
        last_sync,
        needs_passphrase,
        server_url,
    }
}

/// What a request to sync leads to.
#[derive(Debug, Clone, PartialEq, Eq)]
pub enum SyncStart {
    /// No server is configured: report the status only.
    NotConfigured,
    /// No passphrase is loaded: report the status only.
    NoPassphrase,
    /// Another sync is running: report the status only.
    AlreadyRunning,
    /// Run a sync against this server with this passphrase.
    Run(String, String),
}

/// The sync engine's in-memory state.
pub struct SyncEngine {
    server_url: Option<String>,
    passphrase: Option<String>,
    is_syncing: bool,
}

impl SyncEngine {
    /// The configured server URL.
    pub closed spec fn url(&self) -> Option<Seq<char>> {
        match self.server_url {
            Some(u) => Some(u@),
            None => None,
        }
    }

    /// The loaded passphrase.
    pub closed spec fn pass(&self) -> Option<Seq<char>> {
        match self.passphrase {
            Some(p) => Some(p@),
            None => None,
        }
    }

    /// Whether a sync is running.
    pub closed spec fn running(&self) -> bool {
        self.is_syncing
    }

    /// An engine with no server, no passphrase, not syncing.
    pub fn new() -> (r: Self)
        ensures
            r.url() is None,
            r.pass() is None,
            !r.running(),
    {
        SyncEngine { server_url: None, passphrase: None, is_syncing: false }
    }

    /// Loads the configured server (when the stored configuration is read at start).
    pub fn set_server_url(&mut self, url: String)
        ensures
            final(self).url() == Some(url@),
            final(self).pass() == old(self).pass(),
            final(self).running() == old(self).running(),
    {
        self.server_url = Some(url);
    }

    /// Loads a passphrase that has been checked.
    pub fn set_passphrase(&mut self, passphrase: String)
        ensures
            final(self).pass() == Some(passphrase@),
            final(self).url() == old(self).url(),
            final(self).running() == old(self).running(),
    {
        self.passphrase = Some(passphrase);
    }

    /// Records a completed configuration: the server and the passphrase.
    pub fn configure(&mut self, url: String, passphrase: String)
        ensures
            final(self).url() == Some(url@),
            final(self).pass() == Some(passphrase@),
            final(self).running() == old(self).running(),
    {
        self.server_url = Some(url);
        self.passphrase = Some(passphrase);
    }

    /// Starts a sync if one can run: with a server and a passphrase and no sync running, marks
    /// a sync as running and hands back the server and passphrase.
    pub fn begin_sync(&mut self) -> (r: SyncStart)
        ensures
            old(self).url() is None ==> r == SyncStart::NotConfigured && *final(self) == *old(self),
            old(self).url() is Some && old(self).pass() is None ==> r == SyncStart::NoPassphrase && *final(self) == *old(self),
            old(self).url() is Some && old(self).pass() is Some && old(self).running() ==> r == SyncStart::AlreadyRunning
                && *final(self) == *old(self),
            old(self).url() is Some && old(self).pass() is Some && !old(self).running() ==> (r matches SyncStart::Run(u, p)
                && Some(u@) == old(self).url() && Some(p@) == old(self).pass()) && final(self).running()
                && final(self).url() == old(self).url() && final(self).pass() == old(self).pass(),
    {
        let url = match &self.server_url {
            None => { return SyncStart::NotConfigured; },
            Some(u) => u.clone(),
        };
        let pass = match &self.passphrase {
            None => { return SyncStart::NoPassphrase; },
            Some(p) => p.clone(),
        };
        if self.is_syncing {
            return SyncStart::AlreadyRunning;
        }
        self.is_syncing = true;
        SyncStart::Run(url, pass)
    }

    /// Marks the running sync as finished.
    pub fn finish_sync(&mut self)
        ensures
            !final(self).running(),
            final(self).url() == old(self).url(),
            final(self).pass() == old(self).pass(),
    {
        self.is_syncing = false;
    }

    /// Whether a sync is running.
    pub fn is_syncing(&self) -> (r: bool)
        ensures
            r == self.running(),
    {
        self.is_syncing
    }

    /// The configured server URL.
    pub fn try_get_url(&self) -> (r: Option<String>)
        ensures
            match r {
                Some(u) => self.url() == Some(u@),
                None => self.url() is None,
            },
    {
        match &self.server_url {
            Some(u) => Some(u.clone()),
            None => None,
        }
    }

    /// The loaded passphrase.
    pub fn passphrase(&self) -> (r: Option<String>)
        ensures
            match r {
                Some(p) => self.pass() == Some(p@),
                None => self.pass() is None,
            },
    {
        match &self.passphrase {
            Some(p) => Some(p.clone()),
            None => None,
        }
    }

    /// Where pending changes are pushed: the server and passphrase, when both are set.
    pub fn push_target(&self) -> (r: Option<(String, String)>)
        ensures
            match r {
                Some((u, p)) => self.url() == Some(u@) && self.pass() == Some(p@),
                None => self.url() is None || self.pass() is None,
            },
    {
        match (&self.server_url, &self.passphrase) {
            (Some(u), Some(p)) => Some((u.clone(), p.clone())),
            _ => None,
        }
    }

    /// A reconnect needs a configured server; `Sync("sync not configured")` otherwise.
    pub fn check_reconnect(&self) -> (r: Result<(), AppError>)
        ensures
            r is Ok <==> self.url() is Some,
            r matches Err(e) ==> e is Sync && error_detail(e) == "sync not configured"@,
    {
        if self.server_url.is_none() {
            return Err(AppError::Sync(owned("sync not configured")));
        }
        Ok(())
    }

    /// Forgets the server and the passphrase.
    pub fn disconnect(&mut self)
        ensures
            final(self).url() is None,
            final(self).pass() is None,
            final(self).running() == old(self).running(),
    {
        self.server_url = None;
        self.passphrase = None;
    }
}

// ---------------------------------------------------------------- change feed

/// The longest wait between attempts to reach the change feed, in seconds.
pub const MAX_BACKOFF_SECS: u64 = 60;

/// The wait before the next attempt to reach the change feed: one second at first, doubled
/// after each attempt up to a minute, and back to one second once connected.
pub struct ReconnectBackoff {
    secs: u64,
}

impl ReconnectBackoff {
    /// The wait, in seconds.
    pub closed spec fn wait(&self) -> u64 {
        self.secs
    }

    /// The wait is between one second and a minute.
    #[verifier::type_invariant]
    closed spec fn in_range(&self) -> bool {
        1 <= self.secs <= MAX_BACKOFF_SECS
    }

    /// One second.
    pub fn new() -> (r: Self)
        ensures
            r.wait() == 1,
    {
        ReconnectBackoff { secs: 1 }
    }

    /// The wait before the next attempt; the one after it is twice as long, up to a minute.
    pub fn next_delay(&mut self) -> (r: u64)
        ensures
            r == old(self).wait(),
            final(self).wait() == (if 2 * old(self).wait() < MAX_BACKOFF_SECS { 2 * old(self).wait() } else { MAX_BACKOFF_SECS as int }),
            1 <= r <= MAX_BACKOFF_SECS,
    {
        proof {
            use_type_invariant(&*self);
        }
        let current = self.secs;
        let doubled = current * 2;
        self.secs = if doubled < MAX_BACKOFF_SECS { doubled } else { MAX_BACKOFF_SECS };
        current
    }

    /// Back to one second (after a connection, or when the server is configured anew).
    pub fn reset(&mut self)
        ensures
            final(self).wait() == 1,
    {
        self.secs = 1;
    }
}

impl ReconnectBackoff {
    /// The current wait, in seconds: never less than one second nor more than a minute,
    /// whatever happened before.
    pub fn current(&self) -> (r: u64)
        ensures
            r == self.wait(),
            1 <= r <= MAX_BACKOFF_SECS,
    {
        proof {
            use_type_invariant(self);
        }
        self.secs
    }
}

/// A message on the change feed asks for a sync when its text, trimmed, is `sync`.
pub fn is_sync_signal(text: &str) -> (r: bool)
    ensures
        r == (trim_spec(text@) == "sync"@),
{
    let t = trim_str(text);
    str_eq(t.as_str(), "sync")
}

// ---------------------------------------------------------------- change-feed listener

/// The seconds the listener waits before trying again when the device's identity is not
/// available yet.
pub const IDENTITY_RETRY_SECS: u64 = 10;

/// What the change-feed listener has just learned.
#[derive(Debug, Clone)]
pub enum FeedEvent {
    /// No sync server is configured.
    NoServer,
    /// A sync server has just been configured.
    ServerConfigured,
    /// The device id or token could not be had (an error, or no token yet).
    IdentityUnavailable,
    /// The WebSocket request could not be built from the server URL.
    RequestInvalid,
    /// Connecting to the feed failed.
    ConnectFailed,
    /// The feed is connected.
    Connected,
    /// A text message arrived on the feed.
    Text(String),
    /// Another kind of message arrived (a ping, a pong, binary data).
    OtherMessage,
    /// The feed closed, failed or ended.
    Closed,
}

/// What the change-feed listener does next.
#[derive(Debug, Clone, Copy, PartialEq, Eq, Structural)]
pub enum FeedAction {
    /// Wait until a sync server is configured.
    WaitForServer,
    /// Start over: look up the server and the device again.
    Retry,
    /// Sleep this many seconds, then start over.
    Sleep(u64),
    /// Read messages from the connected feed.
    Listen,
    /// Run a sync and report its status, then go on reading.
    Sync,
    /// Go on reading.
    Ignore,
}

/// The listener's step: the action for an event, and the reconnection wait after it. With no
/// server it waits for one; a newly configured server or a connection resets the wait to one
/// second; a missing identity retries in ten seconds; a failed request or connection, and the
/// end of a connection, sleep the current wait and double it (up to a minute); a text message
/// asks for a sync exactly when it reads `sync`, trimmed; other messages change nothing.
pub open spec fn feed_step(wait: u64, event: FeedEvent) -> (FeedAction, u64) {
    let doubled: u64 = if 2 * wait < MAX_BACKOFF_SECS { (2 * wait) as u64 } else { MAX_BACKOFF_SECS };
    match event {
        FeedEvent::NoServer => (FeedAction::WaitForServer, wait),
        FeedEvent::ServerConfigured => (FeedAction::Retry, 1),
        FeedEvent::IdentityUnavailable => (FeedAction::Sleep(IDENTITY_RETRY_SECS), wait),
        FeedEvent::RequestInvalid => (FeedAction::Sleep(wait), doubled),
        FeedEvent::ConnectFailed => (FeedAction::Sleep(wait), doubled),
        FeedEvent::Connected => (FeedAction::Listen, 1),
        FeedEvent::Text(t) => (if trim_spec(t@) == "sync"@ { FeedAction::Sync } else { FeedAction::Ignore }, wait),
        FeedEvent::OtherMessage => (FeedAction::Ignore, wait),
        FeedEvent::Closed => (FeedAction::Sleep(wait), doubled),
    }
}

/// Decides the change-feed listener's next action from an event, updating the reconnection
/// wait.
pub fn feed_listener_step(backoff: &mut ReconnectBackoff, event: FeedEvent) -> (r: FeedAction)
    ensures
        (r, final(backoff).wait()) == feed_step(old(backoff).wait(), event),
{
    match event {
        FeedEvent::NoServer => FeedAction::WaitForServer,
        FeedEvent::ServerConfigured => {
            backoff.reset();
            FeedAction::Retry
        },
        FeedEvent::IdentityUnavailable => FeedAction::Sleep(IDENTITY_RETRY_SECS),
        FeedEvent::RequestInvalid => FeedAction::Sleep(backoff.next_delay()),
        FeedEvent::ConnectFailed => FeedAction::Sleep(backoff.next_delay()),
        FeedEvent::Connected => {
            backoff.reset();
            FeedAction::Listen
        },
        FeedEvent::Text(t) => if is_sync_signal(t.as_str()) { FeedAction::Sync } else { FeedAction::Ignore },
        FeedEvent::OtherMessage => FeedAction::Ignore,
        FeedEvent::Closed => FeedAction::Sleep(backoff.next_delay()),
    }
}

/// The change feed asks for a sync on exactly the text messages that read `sync`, and only a
/// missing server makes the listener wait for one; every sleep lasts between one second and a
/// minute.
pub proof fn law_feed_syncs_only_on_signal(wait: u64, event: FeedEvent)
    requires
        1 <= wait <= MAX_BACKOFF_SECS,
    ensures
        feed_step(wait, event).0 == FeedAction::Sync <==> (event matches FeedEvent::Text(t) && trim_spec(t@) == "sync"@),
        feed_step(wait, event).0 == FeedAction::WaitForServer <==> event is NoServer,
        feed_step(wait, event).0 matches FeedAction::Sleep(secs) ==> 1 <= secs <= MAX_BACKOFF_SECS,
        1 <= feed_step(wait, event).1 <= MAX_BACKOFF_SECS,
{
}

// ---------------------------------------------------------------- when sync runs

/// The period of the background sync, in seconds.
pub const PERIODIC_SYNC_SECS: u64 = 300;

/// Whether a background or focus sync runs: the engine is connected, needs no passphrase and is
/// not syncing already.
pub open spec fn sync_gate(connected: bool, needs_passphrase: bool, syncing: bool) -> bool {
    connected && !needs_passphrase && !syncing
}

/// Whether the window gaining focus starts a sync.
pub fn focus_sync_due(connected: bool, needs_passphrase: bool, syncing: bool) -> (r: bool)
    ensures
        r == sync_gate(connected, needs_passphrase, syncing),
{
    connected && !needs_passphrase && !syncing
}

/// Whether the five-minute background sync runs at a tick: only while the window has focus,
/// and then as a focus sync would.
pub fn periodic_sync_due(focused: bool, connected: bool, needs_passphrase: bool, syncing: bool) -> (r: bool)
    ensures
        r == (focused && sync_gate(connected, needs_passphrase, syncing)),
{
    focused && focus_sync_due(connected, needs_passphrase, syncing)
}

} // verus!
