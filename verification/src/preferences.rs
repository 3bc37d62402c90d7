//! User preferences: saved filters, the cached CircleCI user and the
//! first-run flag. Loading and saving them is done by the binary.

use vstd::prelude::*;
use crate::api::models::clone_opt_string;
use crate::clock::unix_now;

verus! {

/// Seconds after which the cached user is stale.
pub const USER_CACHE_MAX_AGE_SECS: i64 = 86400;

/// Saved filters of the pipeline list.
pub struct PipelineFilterPrefs {
    /// Owner filter: 0 = all pipelines, 1 = mine.
    pub owner_index: usize,
    /// Branch filter: `None` for all branches.
    pub branch: Option<String>,
    /// Date filter option.
    pub date_index: usize,
    /// Status filter option.
    pub status_index: usize,
    /// Search text.
    pub search_text: String,
}

impl Clone for PipelineFilterPrefs {
    fn clone(&self) -> (r: Self)
        ensures
            r == *self,
    {
        PipelineFilterPrefs {
            owner_index: self.owner_index,
            branch: clone_opt_string(&self.branch),
            date_index: self.date_index,
            status_index: self.status_index,
            search_text: self.search_text.clone(),
        }
    }
}

impl Default for PipelineFilterPrefs {
    fn default() -> (r: Self)
        ensures
            r.owner_index == 0,
            r.branch is None,
            r.date_index == 0,
            r.status_index == 0,
            r.search_text@ == Seq::<char>::empty(),
    {
        PipelineFilterPrefs { owner_index: 0, branch: None, date_index: 0, status_index: 0, search_text: String::new() }
    }
}

/// Saved filters of the pipeline detail screen.
#[derive(Clone, Copy, Debug, PartialEq, Eq, Structural)]
pub struct PipelineDetailFilterPrefs {
    /// Job status filter option.
    pub status_index: usize,
    /// Job duration filter option.
    pub duration_index: usize,
}

impl Default for PipelineDetailFilterPrefs {
    fn default() -> (r: Self)
        ensures
            r.status_index == 0,
            r.duration_index == 0,
    {
        PipelineDetailFilterPrefs { status_index: 0, duration_index: 0 }
    }
}

/// The CircleCI user, as last fetched.
pub struct CachedUser {
    /// Username, e.g. "johndoe".
    pub login: String,
    /// Full name.
    pub name: Option<String>,
    /// When it was fetched, in seconds since the Unix epoch.
    pub cached_at: i64,
}

impl Clone for CachedUser {
    fn clone(&self) -> (r: Self)
        ensures
            r == *self,
    {
        CachedUser { login: self.login.clone(), name: clone_opt_string(&self.name), cached_at: self.cached_at }
    }
}

/// Whether a user fetched at `cached_at` is stale at `now`: more than a day old.
pub open spec fn user_is_stale(cached_at: int, now: int) -> bool {
    now - cached_at > USER_CACHE_MAX_AGE_SECS
}

/// The cached user is stale once more than 24 hours have passed since it
/// was stored.
pub proof fn law_user_stale_after_a_day(cached_at: int, now: int)
    ensures
        user_is_stale(cached_at, now) <==> now - cached_at > 24 * 3600,
        user_is_stale(cached_at, cached_at + 25 * 3600),
        !user_is_stale(cached_at, cached_at + 23 * 3600),
{
}

impl CachedUser {
    /// The user fetched at `now`.
    pub fn new_at(login: String, name: Option<String>, now: i64) -> (r: Self)
        ensures
            r.login == login,
            r.name == name,
            r.cached_at == now,
    {
        CachedUser { login, name, cached_at: now }
    }

    /// The user, fetched now.
    pub fn new(login: String, name: Option<String>) -> (r: Self)
        ensures
            r.login == login,
            r.name == name,
    {
        Self::new_at(login, name, unix_now())
    }

    /// Whether the user is stale at `now`: more than a day old.
    pub fn is_stale_at(&self, now: i64) -> (r: bool)
        ensures
            r == user_is_stale(self.cached_at as int, now as int),
    {
        now as i128 - self.cached_at as i128 > USER_CACHE_MAX_AGE_SECS as i128
    }

    /// Whether the user is stale at `now`.
    pub open spec fn stale_at(self, now: i64) -> bool {
        user_is_stale(self.cached_at as int, now as int)
    }

    /// Whether the user is stale now: what `is_stale_at` answers for the
    /// clock reading taken.
    pub fn is_stale(&self) -> (r: bool)
        ensures
            exists|now: i64| r == #[trigger] self.stale_at(now),
    {
        let now = unix_now();
        let r = self.is_stale_at(now);
        assert(r == self.stale_at(now));
        r
    }
}

/// All user preferences.
pub struct UserPreferences {
    /// Format version.
    pub version: u32,
    /// The cached user, if any.
    pub user: Option<CachedUser>,
    /// Saved pipeline list filters.
    pub pipeline_filters: PipelineFilterPrefs,
    /// Saved pipeline detail filters.
    pub detail_filters: PipelineDetailFilterPrefs,
    /// Whether the application has not run before.
    pub first_run: bool,
}

impl Clone for UserPreferences {
    fn clone(&self) -> (r: Self)
        ensures
            r == *self,
    {
        UserPreferences {
            version: self.version,
            user: match &self.user {
                Some(u) => Some(u.clone()),
                None => None,
            },
            pipeline_filters: self.pipeline_filters.clone(),
            detail_filters: self.detail_filters,
            first_run: self.first_run,
        }
    }
}

impl Default for UserPreferences {
    fn default() -> (r: Self)
        ensures
            r.version == 1,
            r.user is None,
            r.pipeline_filters.owner_index == 0,
            r.pipeline_filters.branch is None,
            r.pipeline_filters.date_index == 0,
            r.pipeline_filters.status_index == 0,
            r.pipeline_filters.search_text@ == Seq::<char>::empty(),
            r.detail_filters == (PipelineDetailFilterPrefs { status_index: 0, duration_index: 0 }),
            r.first_run,
    {
        UserPreferences {
            version: 1,
            user: None,
            pipeline_filters: PipelineFilterPrefs::default(),
            detail_filters: PipelineDetailFilterPrefs::default(),
            first_run: true,
        }
    }
}

/// Name under which the preferences are stored.
pub const APP_NAME: &'static str = "circleci-tui";

/// File name of the stored preferences.
pub const CONFIG_NAME: &'static str = "preferences";

/// The preferences in use.
pub struct PreferencesManager {
    preferences: UserPreferences,
}

impl PreferencesManager {
    /// The preferences.
    pub closed spec fn prefs(&self) -> UserPreferences {
        self.preferences
    }

    /// Manages the given preferences.
    pub fn from_preferences(preferences: UserPreferences) -> (r: Self)
        ensures
            r.prefs() == preferences,
    {
        PreferencesManager { preferences }
    }

    /// The preferences.
    pub fn get_preferences(&self) -> (r: &UserPreferences)
        ensures
            *r == self.prefs(),
    {
        &self.preferences
    }

    /// The preferences, to change in place.
    pub fn get_preferences_mut(&mut self) -> (r: &mut UserPreferences)
        ensures
            *r == old(self).prefs(),
            final(self).prefs() == *final(r),
    {
        &mut self.preferences
    }

    /// Replaces the preferences.
    pub fn set_preferences(&mut self, preferences: UserPreferences)
        ensures
            final(self).prefs() == preferences,
    {
        self.preferences = preferences;
    }

    /// Replaces the saved pipeline list filters.
    pub fn set_pipeline_filters(&mut self, filters: PipelineFilterPrefs)
        ensures
            final(self).prefs() == (UserPreferences { pipeline_filters: filters, ..old(self).prefs() }),
    {
        self.preferences.pipeline_filters = filters;
    }

    /// Replaces the saved pipeline detail filters.
    pub fn set_detail_filters(&mut self, filters: PipelineDetailFilterPrefs)
        ensures
            final(self).prefs() == (UserPreferences { detail_filters: filters, ..old(self).prefs() }),
    {
        self.preferences.detail_filters = filters;
    }

    /// Whether the user must be fetched again at `now`: there is none, or it
    /// is more than a day old.
    pub fn is_user_cache_stale_at(&self, now: i64) -> (r: bool)
        ensures
            r == match self.prefs().user {
                None => true,
                Some(u) => user_is_stale(u.cached_at as int, now as int),
            },
    {
        match &self.preferences.user {
            None => true,
            Some(user) => user.is_stale_at(now),
        }
    }

    /// Whether the user must be fetched again at `now`: there is none, or it
    /// is more than a day old.
    pub open spec fn user_cache_stale_at(self, now: i64) -> bool {
        match self.prefs().user {
            None => true,
            Some(u) => u.stale_at(now),
        }
    }

    /// Whether the user must be fetched again now: what
    /// `is_user_cache_stale_at` answers for the clock reading taken.
    pub fn is_user_cache_stale(&self) -> (r: bool)
        ensures
            self.prefs().user is None ==> r,
            exists|now: i64| r == #[trigger] self.user_cache_stale_at(now),
    {
        let now = unix_now();
        let r = self.is_user_cache_stale_at(now);
        assert(r == self.user_cache_stale_at(now));
        r
    }

    /// Records the user as fetched at `now`.
    pub fn update_user_cache_at(&mut self, login: String, name: Option<String>, now: i64)
        ensures
            final(self).prefs() == (UserPreferences {
                user: Some(CachedUser { login, name, cached_at: now }),
                ..old(self).prefs()
            }),
    {
        self.preferences.user = Some(CachedUser::new_at(login, name, now));
    }

    /// Records the user as fetched now.
    pub fn update_user_cache(&mut self, login: String, name: Option<String>)
        ensures
            final(self).prefs().user matches Some(u) && u.login == login && u.name == name,
            final(self).prefs().pipeline_filters == old(self).prefs().pipeline_filters,
            final(self).prefs().first_run == old(self).prefs().first_run,
    {
        self.update_user_cache_at(login, name, unix_now());
    }

    /// Clears the first-run flag.
    pub fn clear_first_run(&mut self)
        ensures
            final(self).prefs() == (UserPreferences { first_run: false, ..old(self).prefs() }),
    {
        self.preferences.first_run = false;
    }

    /// Puts every preference back to its default.
    pub fn reset_to_defaults(&mut self)
        ensures
            final(self).prefs().version == 1,
            final(self).prefs().user is None,
            final(self).prefs().first_run,
            final(self).prefs().detail_filters == (PipelineDetailFilterPrefs { status_index: 0, duration_index: 0 }),
            final(self).prefs().pipeline_filters.owner_index == 0,
            final(self).prefs().pipeline_filters.branch is None,
    {
        self.preferences = UserPreferences::default();
    }
}

/// A user recorded at some time is not stale at that time.
pub proof fn law_fresh_user_not_stale(cached_at: int)
    ensures
        !user_is_stale(cached_at, cached_at),
{
}

} // verus!
