//! The user's settings, held in memory.

use crate::types::UserSettings;
use vstd::prelude::*;

verus! {

/// The one set of user settings.
pub struct InMemoryUserSettingsRepository {
    settings: UserSettings,
}

impl View for InMemoryUserSettingsRepository {
    type V = UserSettings;

    closed spec fn view(&self) -> UserSettings {
        self.settings
    }
}

impl Clone for InMemoryUserSettingsRepository {
    fn clone(&self) -> (r: Self)
        ensures
            r@ == self@,
    {
        InMemoryUserSettingsRepository { settings: self.settings }
    }
}

impl InMemoryUserSettingsRepository {
    /// A store that holds `settings`.
    pub fn new(settings: UserSettings) -> (r: Self)
        ensures
            r@ == settings,
    {
        InMemoryUserSettingsRepository { settings }
    }

    /// The stored settings.
    pub fn get(&self) -> (r: UserSettings)
        ensures
            r == self@,
    {
        self.settings
    }

    /// Replaces the stored settings.
    pub fn update(&mut self, settings: UserSettings)
        ensures
            final(self)@ == settings,
    {
        self.settings = settings;
    }
}

} // verus!
