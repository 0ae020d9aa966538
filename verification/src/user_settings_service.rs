//! Changing the user's settings: which archived records are shown, and the
//! work target of each weekday.

use crate::clock::{in_chrono_range, now_micros};
use crate::in_memory_user_settings_repository::InMemoryUserSettingsRepository;
use crate::types::{UserSettings, Weekday};
use vstd::prelude::*;

verus! {

/// The work target that the settings set for a weekday, in minutes.
pub open spec fn work_target_of(s: UserSettings, weekday: Weekday) -> u32 {
    match weekday {
        Weekday::Mon => s.monday_target_minutes,
        Weekday::Tue => s.tuesday_target_minutes,
        Weekday::Wed => s.wednesday_target_minutes,
        Weekday::Thu => s.thursday_target_minutes,
        Weekday::Fri => s.friday_target_minutes,
        Weekday::Sat => s.saturday_target_minutes,
        Weekday::Sun => s.sunday_target_minutes,
    }
}

/// The settings with the work target of one weekday replaced.
pub open spec fn with_work_target(s: UserSettings, weekday: Weekday, target: u32) -> UserSettings {
    match weekday {
        Weekday::Mon => UserSettings { monday_target_minutes: target, ..s },
        Weekday::Tue => UserSettings { tuesday_target_minutes: target, ..s },
        Weekday::Wed => UserSettings { wednesday_target_minutes: target, ..s },
        Weekday::Thu => UserSettings { thursday_target_minutes: target, ..s },
        Weekday::Fri => UserSettings { friday_target_minutes: target, ..s },
        Weekday::Sat => UserSettings { saturday_target_minutes: target, ..s },
        Weekday::Sun => UserSettings { sunday_target_minutes: target, ..s },
    }
}

/// The work target of a weekday, as the settings set it.
pub fn work_target(settings: &UserSettings, weekday: Weekday) -> (r: u32)
    ensures
        r == work_target_of(*settings, weekday),
{
    match weekday {
        Weekday::Mon => settings.monday_target_minutes,
        Weekday::Tue => settings.tuesday_target_minutes,
        Weekday::Wed => settings.wednesday_target_minutes,
        Weekday::Thu => settings.thursday_target_minutes,
        Weekday::Fri => settings.friday_target_minutes,
        Weekday::Sat => settings.saturday_target_minutes,
        Weekday::Sun => settings.sunday_target_minutes,
    }
}

/// A target that is set for a weekday is the one read back for that weekday,
/// and the targets of the other weekdays stay as they were.
pub proof fn lemma_work_target_read_back(s: UserSettings, weekday: Weekday, target: u32, other: Weekday)
    ensures
        work_target_of(with_work_target(s, weekday, target), weekday) == target,
        other != weekday ==> work_target_of(with_work_target(s, weekday, target), other)
            == work_target_of(s, other),
        with_work_target(s, weekday, target).show_archived_projects == s.show_archived_projects,
        with_work_target(s, weekday, target).show_archived_tasks == s.show_archived_tasks,
{
}

/// The settings operations, on the store of the settings.
pub struct UserSettingsService {
    pub repository: InMemoryUserSettingsRepository,
}

impl UserSettingsService {
    pub fn new(repository: InMemoryUserSettingsRepository) -> (r: Self)
        ensures
            r.repository@ == repository@,
    {
        UserSettingsService { repository }
    }

    /// The current settings.
    pub fn get_settings(&self) -> (r: UserSettings)
        ensures
            r == self.repository@,
    {
        self.repository.get()
    }

    /// Sets whether archived projects are shown, at the current time.
    pub fn set_show_archived_projects(&mut self, show: bool)
        ensures
            final(self).repository@ == (UserSettings {
                show_archived_projects: show,
                updated_at: final(self).repository@.updated_at,
                ..old(self).repository@
            }),
            in_chrono_range(final(self).repository@.updated_at),
    {
        let now = now_micros();
        self.set_show_archived_projects_at(show, now);
    }

    /// Sets whether archived projects are shown; the settings are marked as
    /// updated at `now`.
    pub fn set_show_archived_projects_at(&mut self, show: bool, now: i64)
        ensures
            final(self).repository@ == (UserSettings {
                show_archived_projects: show,
                updated_at: now,
                ..old(self).repository@
            }),
    {
        let mut settings = self.get_settings();
        settings.show_archived_projects = show;
        settings.updated_at = now;
        self.repository.update(settings);
    }

    /// Sets whether archived tasks are shown, at the current time.
    pub fn set_show_archived_tasks(&mut self, show: bool)
        ensures
            final(self).repository@ == (UserSettings {
                show_archived_tasks: show,
                updated_at: final(self).repository@.updated_at,
                ..old(self).repository@
            }),
            in_chrono_range(final(self).repository@.updated_at),
    {
        let now = now_micros();
        self.set_show_archived_tasks_at(show, now);
    }

    /// Sets whether archived tasks are shown; the settings are marked as
    /// updated at `now`.
    pub fn set_show_archived_tasks_at(&mut self, show: bool, now: i64)
        ensures
            final(self).repository@ == (UserSettings {
                show_archived_tasks: show,
                updated_at: now,
                ..old(self).repository@
            }),
    {
        let mut settings = self.get_settings();
        settings.show_archived_tasks = show;
        settings.updated_at = now;
        self.repository.update(settings);
    }

    /// Sets the work target of one weekday, in minutes. The settings' update
    /// time is left as it was.
    pub fn set_work_target(&mut self, target_time: u32, weekday: Weekday)
        ensures
            final(self).repository@ == with_work_target(old(self).repository@, weekday, target_time),
    {
        let mut settings = self.get_settings();
        match weekday {
            Weekday::Mon => settings.monday_target_minutes = target_time,
            Weekday::Tue => settings.tuesday_target_minutes = target_time,
            Weekday::Wed => settings.wednesday_target_minutes = target_time,
            Weekday::Thu => settings.thursday_target_minutes = target_time,
            Weekday::Fri => settings.friday_target_minutes = target_time,
            Weekday::Sat => settings.saturday_target_minutes = target_time,
            Weekday::Sun => settings.sunday_target_minutes = target_time,
        }
        self.repository.update(settings);
    }
}

} // verus!
