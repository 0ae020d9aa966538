//! The tracker's records.
//!
//! Identifiers are the 128-bit values of UUIDs. Points in time are counted in
//! microseconds since 1970-01-01T00:00:00Z (UTC), as chrono's
//! `DateTime::timestamp_micros` counts them.

use vstd::prelude::*;

verus! {

/// A project: a named group of tasks.
#[derive(Debug, PartialEq, Eq)]
pub struct Project {
    pub id: u128,
    pub name: String,
    /// An optional time budget, in minutes.
    pub time_limit: Option<u32>,
    pub is_archived: bool,
    pub created_at: i64,
    pub updated_at: i64,
}

impl Clone for Project {
    fn clone(&self) -> (r: Self)
        ensures
            r == *self,
    {
        Project {
            id: self.id,
            name: self.name.clone(),
            time_limit: self.time_limit,
            is_archived: self.is_archived,
            created_at: self.created_at,
            updated_at: self.updated_at,
        }
    }
}

/// A task: a unit of work that belongs to one project.
#[derive(Debug, PartialEq, Eq)]
pub struct Task {
    pub id: u128,
    pub project_id: u128,
    pub name: String,
    /// An optional time budget, in minutes.
    pub time_limit: Option<u32>,
    pub is_archived: bool,
    pub created_at: i64,
    pub updated_at: i64,
}

impl Clone for Task {
    fn clone(&self) -> (r: Self)
        ensures
            r == *self,
    {
        Task {
            id: self.id,
            project_id: self.project_id,
            name: self.name.clone(),
            time_limit: self.time_limit,
            is_archived: self.is_archived,
            created_at: self.created_at,
            updated_at: self.updated_at,
        }
    }
}

/// A stretch of time spent on a task.
#[derive(Clone, Copy, Debug, PartialEq, Eq, Structural)]
pub struct TimeEntry {
    pub id: u128,
    pub task_id: u128,
    pub start_time: i64,
    pub end_time: i64,
    pub created_at: i64,
    pub updated_at: i64,
}

/// The timer that is running, if one is: which task, and since when.
#[derive(Clone, Copy, Debug, PartialEq, Eq, Structural)]
pub struct ActiveTimer {
    pub task_id: u128,
    pub start_time: i64,
}

/// The day's figures: minutes of the running timer, minutes booked today, and
/// the day's target.
#[derive(Clone, Copy, Debug, PartialEq, Eq, Structural, Default)]
pub struct DailyTimer {
    pub currently_active_timer_elapsed_minutes: Option<u32>,
    pub elapsed_time_in_minutes: u32,
    pub time_target_in_minutes: u32,
}

/// The user's settings: a work target per weekday, in minutes, and which
/// archived records the overview shows.
#[derive(Clone, Copy, Debug, PartialEq, Eq, Structural)]
pub struct UserSettings {
    pub monday_target_minutes: u32,
    pub tuesday_target_minutes: u32,
    pub wednesday_target_minutes: u32,
    pub thursday_target_minutes: u32,
    pub friday_target_minutes: u32,
    pub saturday_target_minutes: u32,
    pub sunday_target_minutes: u32,
    pub show_archived_projects: bool,
    pub show_archived_tasks: bool,
    pub created_at: i64,
    pub updated_at: i64,
}

/// A day of the week.
#[derive(Clone, Copy, Debug, PartialEq, Eq, Structural)]
pub enum Weekday {
    Mon,
    Tue,
    Wed,
    Thu,
    Fri,
    Sat,
    Sun,
}

/// A calendar date in the user's time zone.
#[derive(Clone, Copy, Debug, PartialEq, Eq, Structural)]
pub struct LocalDate {
    pub year: i32,
    pub month: u32,
    pub day: u32,
}

} // verus!
