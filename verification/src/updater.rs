//! Update checks: cooldown, failure back-off, and the user's preferences.

use vstd::prelude::*;
use crate::clock::{elapsed_millis, instant_now};
use crate::fields::string_views;
use crate::journal_ai::{push_unique, push_unique_spec};
use crate::sync_schedule::millis_between;
use crate::text::str_eq;

verus! {

/// Minimum time between update checks (30 minutes), in milliseconds.
pub const CHECK_COOLDOWN_MILLIS: u128 = 1_800_000;

/// After a failed check, the time before trying again (1 hour), in milliseconds.
pub const FAILURE_BACKOFF_MILLIS: u128 = 3_600_000;

/// Information about an available update.
#[derive(Debug, Clone)]
pub struct UpdateInfo {
    pub current_version: String,
    pub latest_version: String,
    pub changelog: String,
    pub published_at: Option<String>,
}

/// The user's update preferences.
#[derive(Debug, Clone)]
pub struct UpdatePreferences {
    pub auto_check: bool,
    pub auto_download: bool,
    pub skipped_versions: Vec<String>,
}

impl Default for UpdatePreferences {
    /// Check automatically, do not download automatically, skip nothing.
    fn default() -> (r: Self)
        ensures
            r.auto_check,
            !r.auto_download,
            r.skipped_versions@.len() == 0,
    {
        UpdatePreferences { auto_check: true, auto_download: false, skipped_versions: Vec::new() }
    }
}

/// A check may run: automatic checks are on, the cooldown has passed since the last check and
/// the back-off has passed since the last failure.
pub open spec fn check_due(auto_check: bool, since_check: Option<u128>, since_failure: Option<u128>) -> bool {
    &&& auto_check
    &&& (since_check matches Some(ms) ==> ms >= CHECK_COOLDOWN_MILLIS)
    &&& (since_failure matches Some(ms) ==> ms >= FAILURE_BACKOFF_MILLIS)
}

/// Whether a check may run, given the milliseconds since the last check and since the last
/// failure (`None` when there was none).
pub fn check_allowed(auto_check: bool, since_check: Option<u128>, since_failure: Option<u128>) -> (r: bool)
    ensures
        r == check_due(auto_check, since_check, since_failure),
{
    if !auto_check {
        return false;
    }
    let check_ok = match since_check {
        Some(ms) => ms >= CHECK_COOLDOWN_MILLIS,
        None => true,
    };
    if !check_ok {
        return false;
    }
    match since_failure {
        Some(ms) => ms >= FAILURE_BACKOFF_MILLIS,
        None => true,
    }
}

/// The update manager's state: when it last checked, when a check last failed, and the
/// preferences. Times are milliseconds on the manager's own monotonic clock, counted from when
/// it was made.
pub struct UpdateManager {
    origin: std::time::Instant,
    last_check: Option<u128>,
    last_failure: Option<u128>,
    latest: u128,
    preferences: UpdatePreferences,
}

impl UpdateManager {
    /// The preferences held.
    pub closed spec fn prefs(&self) -> UpdatePreferences {
        self.preferences
    }

    /// When the last check ran, if one has.
    pub closed spec fn last_check(&self) -> Option<u128> {
        self.last_check
    }

    /// When the last failed check ran, if one has failed.
    pub closed spec fn last_failure(&self) -> Option<u128> {
        self.last_failure
    }

    /// The latest time the manager has seen.
    pub closed spec fn latest(&self) -> u128 {
        self.latest
    }

    /// A check has been recorded.
    pub open spec fn has_checked(&self) -> bool {
        self.last_check() is Some
    }

    /// A failed check has been recorded.
    pub open spec fn has_failed(&self) -> bool {
        self.last_failure() is Some
    }

    /// Whether a check is due at `now`: `check_due` with the time since the last check and
    /// since the last failure.
    pub open spec fn check_due_at(&self, now: u128) -> bool {
        check_due(
            self.prefs().auto_check,
            match self.last_check() { Some(c) => Some(millis_between(c, now)), None => None },
            match self.last_failure() { Some(f) => Some(millis_between(f, now)), None => None },
        )
    }

    /// A schedule that has never checked, with the default preferences.
    pub fn new() -> (r: Self)
        ensures
            r.last_check() is None,
            r.last_failure() is None,
            r.latest() == 0,
            r.prefs().auto_check,
            !r.prefs().auto_download,
            r.prefs().skipped_versions@.len() == 0,
    {
        UpdateManager {
            origin: instant_now(),
            last_check: None,
            last_failure: None,
            latest: 0,
            preferences: UpdatePreferences::default(),
        }
    }

    /// The manager's clock: milliseconds since it was made, never earlier than the latest time
    /// seen. The reading comes from the clock.
    pub fn now_millis(&self) -> (r: u128)
        ensures
            r >= self.latest(),
    {
        let t = elapsed_millis(&self.origin);
        if t >= self.latest { t } else { self.latest }
    }

    /// Whether a check should run at `now`.
    pub fn should_check_at(&self, now: u128) -> (r: bool)
        ensures
            r == self.check_due_at(now),
    {
        let since_check = match self.last_check {
            Some(c) => Some(if now >= c { now - c } else { 0 }),
            None => None,
        };
        let since_failure = match self.last_failure {
            Some(f) => Some(if now >= f { now - f } else { 0 }),
            None => None,
        };
        check_allowed(self.preferences.auto_check, since_check, since_failure)
    }

    /// Whether a check should run now: `should_check_at` the present time, which is no earlier
    /// than the latest time seen. So it should whenever it should have at that latest time.
    /// With automatic checks off it never should; with no check and no failure recorded it
    /// should.
    pub fn should_check(&self) -> (r: bool)
        ensures
            exists|now: u128| now >= self.latest() && r == self.check_due_at(now),
            self.check_due_at(self.latest()) ==> r,
            !self.prefs().auto_check ==> !r,
            self.prefs().auto_check && !self.has_checked() && !self.has_failed() ==> r,
    {
        let now = self.now_millis();
        self.should_check_at(now)
    }

    /// Records that a check ran at `now`; a failed one also starts the back-off at `now`.
    pub fn record_check_at(&mut self, now: u128, failed: bool)
        ensures
            final(self).last_check() == Some(now),
            final(self).last_failure() == (if failed { Some(now) } else { old(self).last_failure() }),
            final(self).latest() == (if now >= old(self).latest() { now } else { old(self).latest() }),
            final(self).prefs() == old(self).prefs(),
    {
        let latest = if now >= self.latest { now } else { self.latest };
        self.latest = latest;
        self.last_check = Some(now);
        if failed {
            self.last_failure = Some(now);
        }
    }

    /// Records that a check ran now, at the latest time seen (no earlier than any before);
    /// `failed` starts the back-off then too.
    pub fn record_check(&mut self, failed: bool)
        ensures
            final(self).latest() >= old(self).latest(),
            final(self).last_check() == Some(final(self).latest()),
            final(self).last_failure() == (if failed { Some(final(self).latest()) } else { old(self).last_failure() }),
            final(self).prefs() == old(self).prefs(),
    {
        let now = self.now_millis();
        self.record_check_at(now, failed);
    }

    /// Whether the user chose to skip this version.
    pub fn is_version_skipped(&self, version: &str) -> (r: bool)
        ensures
            r == string_views(self.prefs().skipped_versions@).contains(version@),
    {
        let v = &self.preferences.skipped_versions;
        let mut i: usize = 0;
        while i < v.len()
            invariant
                i <= v.len(),
                v@ == self.preferences.skipped_versions@,
                forall|k: int| 0 <= k < i ==> v@[k]@ != version@,
            decreases v.len() - i,
        {
            if str_eq(v[i].as_str(), version) {
                assert(string_views(v@)[i as int] == version@);
                assert(string_views(v@).contains(version@));
                return true;
            }
            i = i + 1;
        }
        assert(!string_views(v@).contains(version@)) by {
            if string_views(v@).contains(version@) {
                let k = choose|k: int| 0 <= k < string_views(v@).len() && string_views(v@)[k] == version@;
                assert(v@[k]@ == version@);
            }
        }
        false
    }

    /// Adds a version to the skip list (once).
    pub fn skip_version(&mut self, version: String)
        ensures
            string_views(final(self).prefs().skipped_versions@) == push_unique_spec(
                string_views(old(self).prefs().skipped_versions@),
                version@,
            ),
            final(self).prefs().auto_check == old(self).prefs().auto_check,
            final(self).prefs().auto_download == old(self).prefs().auto_download,
            final(self).last_check() == old(self).last_check(),
            final(self).last_failure() == old(self).last_failure(),
            final(self).latest() == old(self).latest(),
    {
        push_unique(&mut self.preferences.skipped_versions, version.as_str());
    }

    /// The current preferences.
    pub fn get_preferences(&self) -> (r: &UpdatePreferences)
        ensures
            *r == self.prefs(),
    {
        &self.preferences
    }

    /// Replaces the preferences.
    pub fn set_preferences(&mut self, preferences: UpdatePreferences)
        ensures
            final(self).prefs() == preferences,
            final(self).last_check() == old(self).last_check(),
            final(self).last_failure() == old(self).last_failure(),
            final(self).latest() == old(self).latest(),
    {
        self.preferences = preferences;
    }
}

/// After a version is skipped it reads as skipped, and skipping it again changes nothing.
pub proof fn law_skip_version(skipped: Seq<Seq<char>>, version: Seq<char>)
    ensures
        push_unique_spec(skipped, version).contains(version),
        push_unique_spec(push_unique_spec(skipped, version), version) == push_unique_spec(skipped, version),
{
    if !skipped.contains(version) {
        assert(skipped.push(version)[skipped.len() as int] == version);
    }
}

/// After a check at `t`, none is due before the cooldown has passed; after a failed one, none
/// before the back-off has passed.
pub proof fn law_check_cooldown(m: UpdateManager, t: u128, now: u128)
    requires
        m.last_check() == Some(t),
    ensures
        now < t + CHECK_COOLDOWN_MILLIS ==> !m.check_due_at(now),
        m.last_failure() == Some(t) && now < t + FAILURE_BACKOFF_MILLIS ==> !m.check_due_at(now),
{
}

} // verus!
