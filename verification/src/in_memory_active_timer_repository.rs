//! The running timer, held in memory.

use crate::types::ActiveTimer;
use vstd::prelude::*;

verus! {

/// The running timer, if one runs. There is at most one.
pub struct InMemoryActiveTimerRepository {
    active_timer: Option<ActiveTimer>,
}

impl View for InMemoryActiveTimerRepository {
    type V = Option<ActiveTimer>;

    closed spec fn view(&self) -> Option<ActiveTimer> {
        self.active_timer
    }
}

impl Clone for InMemoryActiveTimerRepository {
    fn clone(&self) -> (r: Self)
        ensures
            r@ == self@,
    {
        InMemoryActiveTimerRepository { active_timer: self.active_timer }
    }
}

impl InMemoryActiveTimerRepository {
    /// No timer runs.
    pub fn new() -> (r: Self)
        ensures
            r@ == None::<ActiveTimer>,
    {
        InMemoryActiveTimerRepository { active_timer: None }
    }

    /// Makes `entry` the running timer, in place of any other.
    pub fn set(&mut self, entry: ActiveTimer)
        ensures
            final(self)@ == Some(entry),
    {
        self.active_timer = Some(entry);
    }

    /// Stops keeping a timer.
    pub fn remove(&mut self)
        ensures
            final(self)@ == None::<ActiveTimer>,
    {
        self.active_timer = None;
    }

    /// The running timer, if one runs.
    pub fn get_active_timer(&self) -> (r: Option<ActiveTimer>)
        ensures
            r == self@,
    {
        self.active_timer
    }
}

} // verus!
