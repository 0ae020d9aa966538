//! Booking time: entries made by hand, the timer that makes an entry when it
//! stops, and editing, moving and deleting entries.

use crate::clock::{in_chrono_range, now_micros};
use crate::errors::{AppError, AppResult};
use crate::ids::{fresh_id, new_v4, uuid_version};
use crate::laws::lemma_created_time_entry_is_found;
use crate::in_memory_active_timer_repository::InMemoryActiveTimerRepository;
use crate::in_memory_task_repository::{find_task, InMemoryTaskRepository};
use crate::in_memory_time_entry_repository::{
    find_time_entry, has_time_entry, lemma_has_time_entry_ids, replace_time_entry, time_entry_id_is_not,
    time_entry_of_task, upsert_time_entry, InMemoryTimeEntryRepository,
};
use crate::types::{ActiveTimer, TimeEntry};
use vstd::prelude::*;

verus! {

/// The entry that is made with these fields: created and updated at `now`.
pub open spec fn new_entry(id: u128, task_id: u128, start_time: i64, end_time: i64, now: i64) -> TimeEntry {
    TimeEntry { id, task_id, start_time, end_time, created_at: now, updated_at: now }
}

/// What looking a time entry up by id gives: the first entry with the id.
pub open spec fn time_entry_lookup(s: Seq<TimeEntry>, id: u128) -> AppResult<TimeEntry> {
    match find_time_entry(s, id) {
        Some(e) => Ok(e),
        None => Err(AppError::TimeEntryNotFound),
    }
}

/// The time entry operations, on the stores of tasks, time entries and the
/// running timer.
pub struct TimeEntryService {
    pub task_repository: InMemoryTaskRepository,
    pub time_entry_repository: InMemoryTimeEntryRepository,
    pub active_timer_repository: InMemoryActiveTimerRepository,
}

impl TimeEntryService {
    pub fn new(
        task_repository: InMemoryTaskRepository,
        time_entry_repository: InMemoryTimeEntryRepository,
        active_timer_repository: InMemoryActiveTimerRepository,
    ) -> (r: Self)
        ensures
            r.task_repository@ == task_repository@,
            r.time_entry_repository@ == time_entry_repository@,
            r.active_timer_repository@ == active_timer_repository@,
    {
        TimeEntryService { task_repository, time_entry_repository, active_timer_repository }
    }

    /// Books time by hand with a fresh random id at the current time (see
    /// [`Self::create_manual_with`]).
    pub fn create_manual(&mut self, start_time: i64, end_time: i64, task_id: u128) -> (r: AppResult<
        TimeEntry,
    >)
        ensures
            final(self).task_repository@ == old(self).task_repository@,
            final(self).active_timer_repository@ == old(self).active_timer_repository@,
            find_task(old(self).task_repository@, task_id) is None ==> r == Err::<
                TimeEntry,
                AppError,
            >(AppError::TaskNotFound) && final(self).time_entry_repository@ == old(self).time_entry_repository@,
            find_task(old(self).task_repository@, task_id) is Some && start_time >= end_time ==> r
                == Err::<TimeEntry, AppError>(AppError::InvalidTimeRange) && final(self).time_entry_repository@ == old(self).time_entry_repository@,
            find_task(old(self).task_repository@, task_id) is Some && start_time < end_time ==> (r
                matches Ok(e) && e == new_entry(e.id, task_id, start_time, end_time, e.created_at)
                && e.id != 0 && uuid_version(e.id) == 4 && in_chrono_range(e.created_at) && !has_time_entry(
                old(self).time_entry_repository@,
                e.id,
            ) && find_time_entry(final(self).time_entry_repository@, e.id) == Some(e)
                && final(self).time_entry_repository@ == old(self).time_entry_repository@.push(e)),
    {
        let drawn = new_v4();
        let taken = self.time_entry_repository.ids();
        let id = fresh_id(drawn, &taken);
        let now = now_micros();
        let ghost before = self.time_entry_repository@;
        proof {
            lemma_has_time_entry_ids(before, id);
        }
        let r = self.create_manual_with(start_time, end_time, task_id, id, now);
        proof {
            if r is Ok {
                lemma_created_time_entry_is_found(before, r->Ok_0);
            }
        }
        r
    }

    /// Books time by hand with the given id at the given time.
    ///
    /// A task that is not found is refused with `TaskNotFound`, then a range
    /// that does not end after it starts with `InvalidTimeRange`. Otherwise the
    /// entry is stored after the others.
    pub fn create_manual_with(
        &mut self,
        start_time: i64,
        end_time: i64,
        task_id: u128,
        id: u128,
        now: i64,
    ) -> (r: AppResult<TimeEntry>)
        ensures
            final(self).task_repository@ == old(self).task_repository@,
            final(self).active_timer_repository@ == old(self).active_timer_repository@,
            find_task(old(self).task_repository@, task_id) is None ==> r == Err::<
                TimeEntry,
                AppError,
            >(AppError::TaskNotFound) && final(self).time_entry_repository@ == old(self).time_entry_repository@,
            find_task(old(self).task_repository@, task_id) is Some && start_time >= end_time ==> r
                == Err::<TimeEntry, AppError>(AppError::InvalidTimeRange) && final(self).time_entry_repository@ == old(self).time_entry_repository@,
            find_task(old(self).task_repository@, task_id) is Some && start_time < end_time ==> r
                == Ok::<TimeEntry, AppError>(new_entry(id, task_id, start_time, end_time, now))
                && final(self).time_entry_repository@ == old(self).time_entry_repository@.push(
                new_entry(id, task_id, start_time, end_time, now),
            ),
    {
        if !self.is_task_id_valid(task_id) {
            return Err(AppError::TaskNotFound);
        }
        if start_time >= end_time {
            return Err(AppError::InvalidTimeRange);
        }
        let time_entry = TimeEntry {
            id,
            task_id,
            start_time,
            end_time,
            created_at: now,
            updated_at: now,
        };
        self.time_entry_repository.create(time_entry);
        Ok(time_entry)
    }

    /// Starts the timer for a task at the current time (see
    /// [`Self::start_timer_at`]).
    pub fn start_timer(&mut self, task_id: u128) -> (r: AppResult<ActiveTimer>)
        ensures
            final(self).task_repository@ == old(self).task_repository@,
            final(self).time_entry_repository@ == old(self).time_entry_repository@,
            old(self).active_timer_repository@ is Some ==> r == Err::<ActiveTimer, AppError>(
                AppError::TimerAlreadyRunning,
            ) && final(self).active_timer_repository@ == old(self).active_timer_repository@,
            old(self).active_timer_repository@ is None && find_task(
                old(self).task_repository@,
                task_id,
            ) is None ==> r == Err::<ActiveTimer, AppError>(AppError::TaskNotFound) && final(self).active_timer_repository@ == old(self).active_timer_repository@,
            old(self).active_timer_repository@ is None && find_task(
                old(self).task_repository@,
                task_id,
            ) is Some ==> (r matches Ok(a) && a.task_id == task_id && in_chrono_range(a.start_time)
                && final(self).active_timer_repository@ == Some(a)),
    {
        let now = now_micros();
        self.start_timer_at(task_id, now)
    }

    /// Starts the timer for a task at the given time.
    ///
    /// A timer that already runs is refused with `TimerAlreadyRunning`, then a
    /// task that is not found with `TaskNotFound`. Otherwise the timer runs for
    /// the task from `now`.
    pub fn start_timer_at(&mut self, task_id: u128, now: i64) -> (r: AppResult<ActiveTimer>)
        ensures
            final(self).task_repository@ == old(self).task_repository@,
            final(self).time_entry_repository@ == old(self).time_entry_repository@,
            old(self).active_timer_repository@ is Some ==> r == Err::<ActiveTimer, AppError>(
                AppError::TimerAlreadyRunning,
            ) && final(self).active_timer_repository@ == old(self).active_timer_repository@,
            old(self).active_timer_repository@ is None && find_task(
                old(self).task_repository@,
                task_id,
            ) is None ==> r == Err::<ActiveTimer, AppError>(AppError::TaskNotFound) && final(self).active_timer_repository@ == old(self).active_timer_repository@,
            old(self).active_timer_repository@ is None && find_task(
                old(self).task_repository@,
                task_id,
            ) is Some ==> r == Ok::<ActiveTimer, AppError>(
                ActiveTimer { task_id, start_time: now },
            ) && final(self).active_timer_repository@ == Some(
                ActiveTimer { task_id, start_time: now },
            ),
    {
        if self.active_timer_repository.get_active_timer().is_some() {
            return Err(AppError::TimerAlreadyRunning);
        }
        if !self.is_task_id_valid(task_id) {
            return Err(AppError::TaskNotFound);
        }
        let active_timer = ActiveTimer { task_id, start_time: now };
        self.active_timer_repository.set(active_timer);
        Ok(active_timer)
    }

    /// Stops the timer at the current time, with a fresh random id for the
    /// entry it makes (see [`Self::stop_timer_with`]).
    pub fn stop_timer(&mut self) -> (r: AppResult<TimeEntry>)
        ensures
            final(self).task_repository@ == old(self).task_repository@,
            match old(self).active_timer_repository@ {
                None => r == Err::<TimeEntry, AppError>(AppError::NoActiveTimer) && final(self).time_entry_repository@ == old(self).time_entry_repository@ && final(self).active_timer_repository@ == old(self).active_timer_repository@,
                Some(a) => r matches Ok(e) && e == new_entry(
                    e.id,
                    a.task_id,
                    a.start_time,
                    e.end_time,
                    e.end_time,
                ) && e.id != 0 && uuid_version(e.id) == 4 && in_chrono_range(e.end_time) && !has_time_entry(
                    old(self).time_entry_repository@,
                    e.id,
                ) && find_time_entry(final(self).time_entry_repository@, e.id) == Some(e)
                    && final(self).time_entry_repository@ == old(self).time_entry_repository@.push(e)
                    && final(self).active_timer_repository@ is None,
            },
    {
        let drawn = new_v4();
        let taken = self.time_entry_repository.ids();
        let id = fresh_id(drawn, &taken);
        let now = now_micros();
        let ghost before = self.time_entry_repository@;
        proof {
            lemma_has_time_entry_ids(before, id);
        }
        let r = self.stop_timer_with(id, now);
        proof {
            if r is Ok {
                lemma_created_time_entry_is_found(before, r->Ok_0);
            }
        }
        r
    }

    /// Stops the timer at the given time.
    ///
    /// With no timer running the request is refused with `NoActiveTimer`.
    /// Otherwise an entry for the timer's task, from the timer's start to
    /// `now`, is stored after the others, and the timer no longer runs.
    pub fn stop_timer_with(&mut self, id: u128, now: i64) -> (r: AppResult<TimeEntry>)
        ensures
            final(self).task_repository@ == old(self).task_repository@,
            match old(self).active_timer_repository@ {
                None => r == Err::<TimeEntry, AppError>(AppError::NoActiveTimer) && final(self).time_entry_repository@ == old(self).time_entry_repository@ && final(self).active_timer_repository@ == old(self).active_timer_repository@,
                Some(a) => r == Ok::<TimeEntry, AppError>(
                    new_entry(id, a.task_id, a.start_time, now, now),
                ) && final(self).time_entry_repository@ == old(self).time_entry_repository@.push(
                    new_entry(id, a.task_id, a.start_time, now, now),
                ) && final(self).active_timer_repository@ is None,
            },
    {
        let active_timer = match self.active_timer_repository.get_active_timer() {
            Some(a) => a,
            None => {
                return Err(AppError::NoActiveTimer);
            },
        };
        let time_entry = TimeEntry {
            task_id: active_timer.task_id,
            id,
            start_time: active_timer.start_time,
            end_time: now,
            created_at: now,
            updated_at: now,
        };
        self.time_entry_repository.create(time_entry);
        self.active_timer_repository.remove();
        Ok(time_entry)
    }

    /// Deletes a time entry. An entry that is not found is refused with
    /// `TimeEntryNotFound`; otherwise every entry with the id is removed.
    pub fn delete(&mut self, entry_id: u128) -> (r: AppResult<()>)
        ensures
            final(self).task_repository@ == old(self).task_repository@,
            final(self).active_timer_repository@ == old(self).active_timer_repository@,
            match find_time_entry(old(self).time_entry_repository@, entry_id) {
                None => r == Err::<(), AppError>(AppError::TimeEntryNotFound) && final(self).time_entry_repository@ == old(self).time_entry_repository@,
                Some(_) => r == Ok::<(), AppError>(()) && final(self).time_entry_repository@ == old(self).time_entry_repository@.filter(time_entry_id_is_not(entry_id)),
            },
    {
        if let Err(e) = self.get_by_id(entry_id) {
            return Err(e);
        }
        self.time_entry_repository.delete(entry_id);
        Ok(())
    }

    /// Stores a time entry unless a copy of it that was updated at the same
    /// time or later is stored (see [`upsert_time_entry`]).
    /// A stored copy that is replaced keeps its creation time.
    pub fn upsert(&mut self, time_entry: TimeEntry) -> (r: AppResult<()>)
        ensures
            r == Ok::<(), AppError>(()),
            final(self).time_entry_repository@ == upsert_time_entry(old(self).time_entry_repository@, time_entry),
            final(self).task_repository@ == old(self).task_repository@,
            final(self).active_timer_repository@ == old(self).active_timer_repository@,
    {
        self.time_entry_repository.upsert(time_entry);
        Ok(())
    }

    /// All time entries, in the order in which they were stored.
    pub fn find_all(&self) -> (r: AppResult<Vec<TimeEntry>>)
        ensures
            r matches Ok(v) && v@ == self.time_entry_repository@,
    {
        Ok(self.time_entry_repository.find_all())
    }

    /// The time entries of a task, in the order in which they were stored. A
    /// task that is not found is refused with `TaskNotFound`.
    pub fn find_all_entries_of_task(&self, task_id: u128) -> (r: AppResult<Vec<TimeEntry>>)
        ensures
            find_task(self.task_repository@, task_id) is None ==> r == Err::<
                Vec<TimeEntry>,
                AppError,
            >(AppError::TaskNotFound),
            find_task(self.task_repository@, task_id) is Some ==> (r matches Ok(v) && v@
                == self.time_entry_repository@.filter(time_entry_of_task(task_id))),
    {
        if !self.is_task_id_valid(task_id) {
            return Err(AppError::TaskNotFound);
        }
        Ok(self.time_entry_repository.find_by_task_id(task_id))
    }

    /// Moves a time entry to a new range at the current time (see
    /// [`Self::edit_time_entry_with`]).
    pub fn edit_time_entry(&mut self, entry_id: u128, new_start_time: i64, new_end_time: i64) -> (r:
        AppResult<TimeEntry>)
        ensures
            final(self).task_repository@ == old(self).task_repository@,
            final(self).active_timer_repository@ == old(self).active_timer_repository@,
            new_end_time < new_start_time ==> r == Err::<TimeEntry, AppError>(
                AppError::InvalidTimeRange,
            ) && final(self).time_entry_repository@ == old(self).time_entry_repository@,
            new_end_time >= new_start_time ==> match find_time_entry(
                old(self).time_entry_repository@,
                entry_id,
            ) {
                None => r == Err::<TimeEntry, AppError>(AppError::TimeEntryNotFound) && final(self).time_entry_repository@ == old(self).time_entry_repository@,
                Some(found) => r matches Ok(e) && e == (TimeEntry {
                    start_time: new_start_time,
                    end_time: new_end_time,
                    updated_at: e.updated_at,
                    ..found
                }) && in_chrono_range(e.updated_at) && final(self).time_entry_repository@
                    == replace_time_entry(old(self).time_entry_repository@, e),
            },
    {
        let now = now_micros();
        self.edit_time_entry_with(entry_id, new_start_time, new_end_time, now)
    }

    /// Moves a time entry to a new range at the given time.
    ///
    /// A range that ends before it starts is refused with `InvalidTimeRange`
    /// (a range that ends where it starts is accepted), then an entry that is
    /// not found with `TimeEntryNotFound`. Otherwise the entry keeps its id,
    /// task and creation time, takes the new range and is marked as updated at
    /// `now`.
    pub fn edit_time_entry_with(
        &mut self,
        entry_id: u128,
        new_start_time: i64,
        new_end_time: i64,
        now: i64,
    ) -> (r: AppResult<TimeEntry>)
        ensures
            final(self).task_repository@ == old(self).task_repository@,
            final(self).active_timer_repository@ == old(self).active_timer_repository@,
            new_end_time < new_start_time ==> r == Err::<TimeEntry, AppError>(
                AppError::InvalidTimeRange,
            ) && final(self).time_entry_repository@ == old(self).time_entry_repository@,
            new_end_time >= new_start_time ==> match find_time_entry(
                old(self).time_entry_repository@,
                entry_id,
            ) {
                None => r == Err::<TimeEntry, AppError>(AppError::TimeEntryNotFound) && final(self).time_entry_repository@ == old(self).time_entry_repository@,
                Some(found) => r == Ok::<TimeEntry, AppError>(
                    TimeEntry {
                        start_time: new_start_time,
                        end_time: new_end_time,
                        updated_at: now,
                        ..found
                    },
                ) && final(self).time_entry_repository@ == replace_time_entry(
                    old(self).time_entry_repository@,
                    TimeEntry {
                        start_time: new_start_time,
                        end_time: new_end_time,
                        updated_at: now,
                        ..found
                    },
                ),
            },
    {
        if new_end_time < new_start_time {
            return Err(AppError::InvalidTimeRange);
        }
        let time_entry = match self.get_by_id(entry_id) {
            Ok(e) => e,
            Err(e) => {
                return Err(e);
            },
        };
        let modified_time_entry = TimeEntry {
            id: time_entry.id,
            task_id: time_entry.task_id,
            start_time: new_start_time,
            end_time: new_end_time,
            created_at: time_entry.created_at,
            updated_at: now,
        };
        self.time_entry_repository.update(modified_time_entry);
        Ok(modified_time_entry)
    }

    /// Moves a time entry to another task at the current time (see
    /// [`Self::assign_time_entry_with`]).
    pub fn assign_time_entry(&mut self, entry_id: u128, new_task_id: u128) -> (r: AppResult<
        TimeEntry,
    >)
        ensures
            final(self).task_repository@ == old(self).task_repository@,
            final(self).active_timer_repository@ == old(self).active_timer_repository@,
            find_task(old(self).task_repository@, new_task_id) is None ==> r == Err::<
                TimeEntry,
                AppError,
            >(AppError::TaskNotFound) && final(self).time_entry_repository@ == old(self).time_entry_repository@,
            find_task(old(self).task_repository@, new_task_id) is Some ==> match find_time_entry(
                old(self).time_entry_repository@,
                entry_id,
            ) {
                None => r == Err::<TimeEntry, AppError>(AppError::TimeEntryNotFound) && final(self).time_entry_repository@ == old(self).time_entry_repository@,
                Some(found) => r matches Ok(e) && e == (TimeEntry {
                    task_id: new_task_id,
                    updated_at: e.updated_at,
                    ..found
                }) && in_chrono_range(e.updated_at) && final(self).time_entry_repository@
                    == replace_time_entry(old(self).time_entry_repository@, e),
            },
    {
        let now = now_micros();
        self.assign_time_entry_with(entry_id, new_task_id, now)
    }

    /// Moves a time entry to another task at the given time.
    ///
    /// A task that is not found is refused with `TaskNotFound`, then an entry
    /// that is not found with `TimeEntryNotFound`. Otherwise the entry keeps its
    /// other fields, takes the new task and is marked as updated at `now`.
    pub fn assign_time_entry_with(&mut self, entry_id: u128, new_task_id: u128, now: i64) -> (r:
        AppResult<TimeEntry>)
        ensures
            final(self).task_repository@ == old(self).task_repository@,
            final(self).active_timer_repository@ == old(self).active_timer_repository@,
            find_task(old(self).task_repository@, new_task_id) is None ==> r == Err::<
                TimeEntry,
                AppError,
            >(AppError::TaskNotFound) && final(self).time_entry_repository@ == old(self).time_entry_repository@,
            find_task(old(self).task_repository@, new_task_id) is Some ==> match find_time_entry(
                old(self).time_entry_repository@,
                entry_id,
            ) {
                None => r == Err::<TimeEntry, AppError>(AppError::TimeEntryNotFound) && final(self).time_entry_repository@ == old(self).time_entry_repository@,
                Some(found) => r == Ok::<TimeEntry, AppError>(
                    TimeEntry { task_id: new_task_id, updated_at: now, ..found },
                ) && final(self).time_entry_repository@ == replace_time_entry(
                    old(self).time_entry_repository@,
                    TimeEntry { task_id: new_task_id, updated_at: now, ..found },
                ),
            },
    {
        if !self.is_task_id_valid(new_task_id) {
            return Err(AppError::TaskNotFound);
        }
        let time_entry = match self.get_by_id(entry_id) {
            Ok(e) => e,
            Err(e) => {
                return Err(e);
            },
        };
        let modified_time_entry = TimeEntry {
            id: time_entry.id,
            task_id: new_task_id,
            start_time: time_entry.start_time,
            end_time: time_entry.end_time,
            created_at: time_entry.created_at,
            updated_at: now,
        };
        self.time_entry_repository.update(modified_time_entry);
        Ok(modified_time_entry)
    }

    /// The first time entry with the given id.
    fn get_by_id(&self, entry_id: u128) -> (r: AppResult<TimeEntry>)
        ensures
            r == time_entry_lookup(self.time_entry_repository@, entry_id),
    {
        match self.time_entry_repository.find_by_id(entry_id) {
            Some(e) => Ok(e),
            None => Err(AppError::TimeEntryNotFound),
        }
    }

    /// Whether a task has the given id.
    fn is_task_id_valid(&self, task_id: u128) -> (r: bool)
        ensures
            r == find_task(self.task_repository@, task_id) is Some,
    {
        self.task_repository.find_by_id(task_id).is_some()
    }
}

} // verus!
