//! Platform boundaries: where the desktop app keeps its files, where the sync device identity
//! lives, and when sync runs.

use vstd::prelude::*;
use crate::error::{error_detail, AppError};
use crate::text::{owned, push_char, push_str};

verus! {

/// Qualifier of the desktop application's directories.
pub const APP_QUALIFIER: &'static str = "com.cas";

/// Organization of the desktop application's directories.
pub const APP_ORGANIZATION: &'static str = "aether";

/// Identifier of the desktop application.
pub const APP_IDENTIFIER: &'static str = "com.cas.aether";

/// The directories the application writes to, as path text.
#[derive(Debug, Clone, PartialEq, Eq)]
pub struct StoragePaths {
    pub app_data: String,
    pub media: String,
    pub cache: String,
    pub models: String,
    pub logs: String,
}

/// Where the stable sync device id is kept.
#[derive(Debug, Clone, Copy, PartialEq, Eq, Structural)]
pub enum DeviceIdentityStore {
    /// The stable sync device id lives in the local database metadata.
    DatabaseMetadata,
}

/// When sync runs.
#[derive(Debug, Clone, Copy, PartialEq, Eq, Structural)]
pub enum SyncLifecycle {
    /// Desktop sync runs while the app has an active focused window.
    ForegroundWindow,
}

/// A path below `base`: `base`, a separator, and `part`.
pub open spec fn path_join(base: Seq<char>, part: Seq<char>) -> Seq<char> {
    base + seq!['/'] + part
}

/// Joins a relative part onto a directory path.
pub fn join_path(base: &str, part: &str) -> (r: String)
    ensures
        r@ == path_join(base@, part@),
{
    let mut r = String::new();
    push_str(&mut r, base);
    push_char(&mut r, '/');
    push_str(&mut r, part);
    assert(Seq::<char>::empty() + base@ =~= base@);
    r
}

/// The operating system the desktop app runs on.
#[derive(Debug, Clone, Copy, PartialEq, Eq, Structural)]
pub enum HostOs {
    MacOs,
    Linux,
    Windows,
    Other,
}

/// What the desktop app learns from its host at start-up: the operating system, the `HOME`
/// and `APPDATA` variables, and the application's local data and cache directories as the
/// `directories` crate resolves them for (`com.cas`, `aether`, `com.cas.aether`).
#[derive(Debug, Clone)]
pub struct HostEnvironment {
    pub os: HostOs,
    pub home: Option<String>,
    pub appdata: Option<String>,
    pub project_dirs: Option<(String, String)>,
}

/// The separator between path components on the operating system.
pub open spec fn os_separator(os: HostOs) -> char {
    if os == HostOs::Windows { '\\' } else { '/' }
}

/// A path below `base` on the operating system: `base`, its separator, and `part`.
pub open spec fn os_path_join(os: HostOs, base: Seq<char>, part: Seq<char>) -> Seq<char> {
    base + seq![os_separator(os)] + part
}

/// Joins a relative part onto a directory path with the operating system's separator.
pub fn join_path_on(os: HostOs, base: &str, part: &str) -> (r: String)
    ensures
        r@ == os_path_join(os, base@, part@),
{
    let mut r = String::new();
    push_str(&mut r, base);
    let sep = match os {
        HostOs::Windows => '\\',
        _ => '/',
    };
    push_char(&mut r, sep);
    push_str(&mut r, part);
    assert(Seq::<char>::empty() + base@ =~= base@);
    r
}

/// The view of an optional string.
pub open spec fn opt_text(o: Option<String>) -> Option<Seq<char>> {
    match o {
        Some(s) => Some(s@),
        None => None,
    }
}

/// The application's directory `leaf` in the place earlier releases used, or the message of
/// the error when the variable it lives under is not set:
/// `HOME/Library/Application Support/Aether/leaf` on macOS, `HOME/.local/share/aether/leaf`
/// on Linux, `APPDATA\Aether\leaf` on Windows, and `./leaf` elsewhere.
pub open spec fn app_dir_path(os: HostOs, home: Option<Seq<char>>, appdata: Option<Seq<char>>, leaf: Seq<char>) -> Result<Seq<char>, Seq<char>> {
    match os {
        HostOs::MacOs => match home {
            Some(h) => Ok(os_path_join(os, os_path_join(os, os_path_join(os, os_path_join(os, h, "Library"@), "Application Support"@), "Aether"@), leaf)),
            None => Err("HOME environment variable not set"@),
        },
        HostOs::Linux => match home {
            Some(h) => Ok(os_path_join(os, os_path_join(os, os_path_join(os, os_path_join(os, h, ".local"@), "share"@), "aether"@), leaf)),
            None => Err("HOME environment variable not set"@),
        },
        HostOs::Windows => match appdata {
            Some(a) => Ok(os_path_join(os, os_path_join(os, a, "Aether"@), leaf)),
            None => Err("APPDATA environment variable not set"@),
        },
        HostOs::Other => Ok(os_path_join(os, "."@, leaf)),
    }
}

/// The media directory that earlier releases used.
pub open spec fn legacy_media_path(os: HostOs, home: Option<Seq<char>>, appdata: Option<Seq<char>>) -> Result<Seq<char>, Seq<char>> {
    app_dir_path(os, home, appdata, "media"@)
}

fn join4(os: HostOs, base: &str, a: &str, b: &str, c: &str, d: &str) -> (r: String)
    ensures
        r@ == os_path_join(os, os_path_join(os, os_path_join(os, os_path_join(os, base@, a@), b@), c@), d@),
{
    let x = join_path_on(os, base, a);
    let y = join_path_on(os, x.as_str(), b);
    let z = join_path_on(os, y.as_str(), c);
    join_path_on(os, z.as_str(), d)
}

/// The application's directory `leaf` on this host; an `Internal` error when the variable it
/// lives under is not set.
pub fn app_dir(os: HostOs, home: &Option<String>, appdata: &Option<String>, leaf: &str) -> (r: Result<String, AppError>)
    ensures
        match app_dir_path(os, opt_text(*home), opt_text(*appdata), leaf@) {
            Ok(m) => r matches Ok(p) && p@ == m,
            Err(m) => r matches Err(e) && e is Internal && error_detail(e) == m,
        },
{
    match os {
        HostOs::MacOs => match home {
            Some(h) => Ok(join4(os, h.as_str(), "Library", "Application Support", "Aether", leaf)),
            None => Err(AppError::Internal(owned("HOME environment variable not set"))),
        },
        HostOs::Linux => match home {
            Some(h) => Ok(join4(os, h.as_str(), ".local", "share", "aether", leaf)),
            None => Err(AppError::Internal(owned("HOME environment variable not set"))),
        },
        HostOs::Windows => match appdata {
            Some(a) => {
                let x = join_path_on(os, a.as_str(), "Aether");
                Ok(join_path_on(os, x.as_str(), leaf))
            },
            None => Err(AppError::Internal(owned("APPDATA environment variable not set"))),
        },
        HostOs::Other => Ok(join_path_on(os, ".", leaf)),
    }
}

/// The media directory that earlier releases used on this host.
pub fn legacy_media_dir(os: HostOs, home: &Option<String>, appdata: &Option<String>) -> (r: Result<String, AppError>)
    ensures
        match legacy_media_path(os, opt_text(*home), opt_text(*appdata)) {
            Ok(m) => r matches Ok(p) && p@ == m,
            Err(m) => r matches Err(e) && e is Internal && error_detail(e) == m,
        },
{
    app_dir(os, home, appdata, "media")
}

/// The storage layout built from the resolved directories and the media directory.
pub open spec fn storage_layout(os: HostOs, app_data: Seq<char>, cache: Seq<char>, media: Seq<char>) -> (Seq<char>, Seq<char>, Seq<char>, Seq<char>, Seq<char>) {
    (app_data, media, cache, os_path_join(os, app_data, "models"@), os_path_join(os, app_data, "diagnostics"@))
}

/// Lays out the storage directories from the application's local data directory, its cache
/// directory and the media directory: models and logs live below the data directory.
pub fn compose_storage_paths(os: HostOs, app_data: &str, cache: &str, media: &str) -> (r: StoragePaths)
    ensures
        (r.app_data@, r.media@, r.cache@, r.models@, r.logs@) == storage_layout(os, app_data@, cache@, media@),
{
    StoragePaths {
        app_data: owned(app_data),
        media: owned(media),
        cache: owned(cache),
        models: join_path_on(os, app_data, "models"),
        logs: join_path_on(os, app_data, "diagnostics"),
    }
}

/// The storage paths of a host, or the message and kind of the error: the application
/// directories must resolve (an `Io` error otherwise) and the legacy media directory must be
/// found (an `Internal` error otherwise).
pub open spec fn host_storage(host: HostEnvironment) -> Result<(Seq<char>, Seq<char>, Seq<char>, Seq<char>, Seq<char>), (bool, Seq<char>)> {
    match host.project_dirs {
        None => Err((true, "Failed to resolve desktop application directories"@)),
        Some((data, cache)) => match legacy_media_path(host.os, opt_text(host.home), opt_text(host.appdata)) {
            Err(m) => Err((false, m)),
            Ok(media) => Ok(storage_layout(host.os, data@, cache@, media)),
        },
    }
}

/// The platform services that the application core is allowed to depend on.
pub trait PlatformCapabilities {
    /// The directories the application writes to.
    fn storage_paths(&self) -> Result<StoragePaths, AppError>;

    /// Where the stable sync device id is kept.
    fn device_identity_store(&self) -> DeviceIdentityStore;

    /// When sync runs.
    fn sync_lifecycle(&self) -> SyncLifecycle;
}

/// The desktop platform, with what it learned from its host.
#[derive(Debug, Clone)]
pub struct DesktopPlatform {
    pub host: HostEnvironment,
}

impl PlatformCapabilities for DesktopPlatform {
    /// The application directories and the media location of earlier releases, laid out as
    /// `compose_storage_paths` does.
    fn storage_paths(&self) -> (r: Result<StoragePaths, AppError>)
        ensures
            match host_storage(self.host) {
                Ok(layout) => r matches Ok(p) && (p.app_data@, p.media@, p.cache@, p.models@, p.logs@) == layout,
                Err((io, m)) => r matches Err(e) && error_detail(e) == m
                    && (if io { e is Io } else { e is Internal }),
            },
    {
        let (app_data, cache) = match &self.host.project_dirs {
            Some(d) => (d.0.as_str(), d.1.as_str()),
            None => {
                return Err(AppError::Io(owned("Failed to resolve desktop application directories")));
            },
        };
        let media = legacy_media_dir(self.host.os, &self.host.home, &self.host.appdata)?;
        Ok(compose_storage_paths(self.host.os, app_data, cache, media.as_str()))
    }

    fn device_identity_store(&self) -> (r: DeviceIdentityStore)
        ensures
            r == DeviceIdentityStore::DatabaseMetadata,
    {
        DeviceIdentityStore::DatabaseMetadata
    }

    fn sync_lifecycle(&self) -> (r: SyncLifecycle)
        ensures
            r == SyncLifecycle::ForegroundWindow,
    {
        SyncLifecycle::ForegroundWindow
    }
}

/// The secure-secret store of the desktop app (the system keyring).
#[derive(Debug, Clone, Copy, Default)]
pub struct TauriKeyringSecretStore;

/// The desktop platform on a host.
pub fn desktop(host: HostEnvironment) -> (r: DesktopPlatform)
    ensures
        r.host == host,
{
    DesktopPlatform { host }
}

/// The desktop secure-secret store.
pub fn secure_secrets() -> (r: TauriKeyringSecretStore)
    ensures
        r == TauriKeyringSecretStore,
{
    TauriKeyringSecretStore
}

/// Where the local database lives below the application's data directory.
pub open spec fn database_path_under(app_data: Seq<char>) -> Seq<char> {
    path_join(path_join(app_data, "libsql-replica"@), "local.db"@)
}

/// The path of the local database below the application's data directory.
pub fn database_path_in(app_data: &str) -> (r: String)
    ensures
        r@ == database_path_under(app_data@),
{
    let dir = join_path(app_data, "libsql-replica");
    join_path(dir.as_str(), "local.db")
}

} // verus!
