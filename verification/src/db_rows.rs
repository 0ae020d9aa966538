//! The rows of the database tables, and how a row is read into a record.
//! Ids are stored as hyphenated UUIDs, points in time as RFC 3339 text, flags
//! as integers (0 for false).

use crate::clock::{
    format_rfc3339, in_chrono_range, in_four_digit_years, is_in_chrono_range, naive_utc_value, parse_naive_utc,
    parse_rfc3339, rfc3339_text, rfc3339_value,
};
use crate::csv_rows::{entry_in_four_digit_years, time_limit_column, time_limit_of_column, RowError};
use crate::ids::{parse_uuid, uuid_text, uuid_to_string, uuid_value};
use crate::types::{ActiveTimer, Project, Task, TimeEntry, UserSettings};
use vstd::prelude::*;

verus! {

/// What `parse_db_datetime` gives for a text.
pub open spec fn db_datetime_value(value: Seq<char>) -> Result<i64, RowError> {
    match rfc3339_value(value) {
        Some(t) => Ok(t),
        None => match naive_utc_value(value) {
            Some(t) => if in_chrono_range(t) {
                Ok(t)
            } else {
                Err(RowError::InvalidTimestamp)
            },
            None => Err(RowError::InvalidTimestamp),
        },
    }
}

/// Reads a stored point in time: RFC 3339 text, or else `%Y-%m-%d %H:%M:%S`
/// taken as UTC. Other text, and a time past the range of chrono (a leap
/// second read at the very end of it), is refused with `InvalidTimestamp`.
pub fn parse_db_datetime(value: &str) -> (r: Result<i64, RowError>)
    ensures
        r == db_datetime_value(value@),
        r matches Ok(t) ==> in_chrono_range(t),
{
    if let Some(t) = parse_rfc3339(value) {
        return Ok(t);
    }
    if let Some(t) = parse_naive_utc(value) {
        if is_in_chrono_range(t) {
            return Ok(t);
        }
    }
    Err(RowError::InvalidTimestamp)
}

/// A row of the `projects` table.
pub struct ProjectRow {
    pub id: String,
    pub name: String,
    pub time_limit: u32,
    pub is_archived: i32,
    pub created_at: String,
    pub updated_at: String,
}

/// Whether `row` is the row that stores `p`.
pub open spec fn is_project_db_row(row: ProjectRow, p: Project) -> bool {
    &&& row.id@ == uuid_text(p.id)
    &&& row.name == p.name
    &&& row.time_limit == time_limit_column(p.time_limit)
    &&& row.is_archived == flag_column(p.is_archived)
    &&& row.created_at@ == rfc3339_text(p.created_at)
    &&& row.updated_at@ == rfc3339_text(p.updated_at)
}

/// Whether a project or task comes back unchanged from its row: its times lie
/// in the years 0000 to 9999, and it has no time limit of 0 (the row writes no
/// limit as 0).
pub open spec fn limit_and_times_round_trip(time_limit: Option<u32>, created_at: i64, updated_at: i64) -> bool {
    &&& in_four_digit_years(created_at)
    &&& in_four_digit_years(updated_at)
    &&& time_limit != Some(0u32)
}

impl ProjectRow {
    /// The project that the row holds: a time limit of 0 means none, an
    /// archive flag other than 0 means archived. A row whose id is not a UUID
    /// is refused with `InvalidId`, then one whose times are not RFC 3339 text
    /// with `InvalidTimestamp`. The row that stores a project reads back as
    /// that project when its times lie in the years 0000 to 9999 and it has no
    /// time limit of 0.
    pub fn parse(&self) -> (r: Result<Project, RowError>)
        ensures
            forall|p: Project|
                is_project_db_row(*self, p) && limit_and_times_round_trip(p.time_limit, p.created_at, p.updated_at)
                    ==> r == Ok::<Project, RowError>(p),
            uuid_value(self.id@) is None ==> r == Err::<Project, RowError>(RowError::InvalidId),
            uuid_value(self.id@) is Some && (rfc3339_value(self.created_at@) is None
                || rfc3339_value(self.updated_at@) is None) ==> r == Err::<Project, RowError>(
                RowError::InvalidTimestamp,
            ),
            r is Ok <==> (uuid_value(self.id@) is Some && rfc3339_value(self.created_at@) is Some
                && rfc3339_value(self.updated_at@) is Some),
            r matches Ok(p) ==> {
                &&& Some(p.id) == uuid_value(self.id@)
                &&& p.name == self.name
                &&& p.time_limit == time_limit_of_column(self.time_limit)
                &&& p.is_archived == (self.is_archived != 0)
                &&& Some(p.created_at) == rfc3339_value(self.created_at@)
                &&& Some(p.updated_at) == rfc3339_value(self.updated_at@)
            },
    {
        let id = match parse_uuid(self.id.as_str()) {
            Some(id) => id,
            None => {
                return Err(RowError::InvalidId);
            },
        };
        let created_at = match parse_rfc3339(self.created_at.as_str()) {
            Some(t) => t,
            None => {
                return Err(RowError::InvalidTimestamp);
            },
        };
        let updated_at = match parse_rfc3339(self.updated_at.as_str()) {
            Some(t) => t,
            None => {
                return Err(RowError::InvalidTimestamp);
            },
        };
        Ok(
            Project {
                id,
                name: self.name.clone(),
                time_limit: if self.time_limit > 0 {
                    Some(self.time_limit)
                } else {
                    None
                },
                is_archived: self.is_archived != 0,
                created_at,
                updated_at,
            },
        )
    }
}

/// The integer that stores a flag: 1 for set, 0 for not.
pub open spec fn flag_column(flag: bool) -> i32 {
    if flag {
        1
    } else {
        0
    }
}

impl ProjectRow {
    /// The row that stores a project.
    pub fn from_project(p: &Project) -> (r: Self)
        requires
            in_chrono_range(p.created_at),
            in_chrono_range(p.updated_at),
        ensures
            is_project_db_row(r, *p),
    {
        ProjectRow {
            id: uuid_to_string(p.id),
            name: p.name.clone(),
            time_limit: match p.time_limit {
                Some(m) => m,
                None => 0,
            },
            is_archived: if p.is_archived {
                1
            } else {
                0
            },
            created_at: format_rfc3339(p.created_at),
            updated_at: format_rfc3339(p.updated_at),
        }
    }
}

/// A row of the `tasks` table.
pub struct TaskRow {
    pub id: String,
    pub project_id: String,
    pub name: String,
    pub time_limit: u32,
    pub is_archived: i32,
    pub created_at: String,
    pub updated_at: String,
}

/// Whether `row` is the row that stores `t`.
pub open spec fn is_task_db_row(row: TaskRow, t: Task) -> bool {
    &&& row.id@ == uuid_text(t.id)
    &&& row.project_id@ == uuid_text(t.project_id)
    &&& row.name == t.name
    &&& row.time_limit == time_limit_column(t.time_limit)
    &&& row.is_archived == flag_column(t.is_archived)
    &&& row.created_at@ == rfc3339_text(t.created_at)
    &&& row.updated_at@ == rfc3339_text(t.updated_at)
}

impl TaskRow {
    /// The task that the row holds: a time limit of 0 means none, an archive
    /// flag other than 0 means archived. A row whose id or project id is not a
    /// UUID is refused with `InvalidId`, then one whose times are not RFC 3339
    /// text with `InvalidTimestamp`. The row that stores a task reads back as
    /// that task when its times lie in the years 0000 to 9999 and it has no
    /// time limit of 0.
    pub fn parse(&self) -> (r: Result<Task, RowError>)
        ensures
            forall|t: Task|
                is_task_db_row(*self, t) && limit_and_times_round_trip(t.time_limit, t.created_at, t.updated_at)
                    ==> r == Ok::<Task, RowError>(t),
            uuid_value(self.id@) is None || uuid_value(self.project_id@) is None ==> r == Err::<
                Task,
                RowError,
            >(RowError::InvalidId),
            uuid_value(self.id@) is Some && uuid_value(self.project_id@) is Some && (rfc3339_value(
                self.created_at@,
            ) is None || rfc3339_value(self.updated_at@) is None) ==> r == Err::<Task, RowError>(
                RowError::InvalidTimestamp,
            ),
            r is Ok <==> (uuid_value(self.id@) is Some && uuid_value(self.project_id@) is Some
                && rfc3339_value(self.created_at@) is Some && rfc3339_value(self.updated_at@) is Some),
            r matches Ok(t) ==> {
                &&& Some(t.id) == uuid_value(self.id@)
                &&& Some(t.project_id) == uuid_value(self.project_id@)
                &&& t.name == self.name
                &&& t.time_limit == time_limit_of_column(self.time_limit)
                &&& t.is_archived == (self.is_archived != 0)
                &&& Some(t.created_at) == rfc3339_value(self.created_at@)
                &&& Some(t.updated_at) == rfc3339_value(self.updated_at@)
            },
    {
        let id = match parse_uuid(self.id.as_str()) {
            Some(id) => id,
            None => {
                return Err(RowError::InvalidId);
            },
        };
        let project_id = match parse_uuid(self.project_id.as_str()) {
            Some(id) => id,
            None => {
                return Err(RowError::InvalidId);
            },
        };
        let created_at = match parse_rfc3339(self.created_at.as_str()) {
            Some(t) => t,
            None => {
                return Err(RowError::InvalidTimestamp);
            },
        };
        let updated_at = match parse_rfc3339(self.updated_at.as_str()) {
            Some(t) => t,
            None => {
                return Err(RowError::InvalidTimestamp);
            },
        };
        Ok(
            Task {
                id,
                project_id,
                name: self.name.clone(),
                time_limit: if self.time_limit > 0 {
                    Some(self.time_limit)
                } else {
                    None
                },
                is_archived: self.is_archived != 0,
                created_at,
                updated_at,
            },
        )
    }
}

impl TaskRow {
    /// The row that stores a task.
    pub fn from_task(t: &Task) -> (r: Self)
        requires
            in_chrono_range(t.created_at),
            in_chrono_range(t.updated_at),
        ensures
            is_task_db_row(r, *t),
    {
        TaskRow {
            id: uuid_to_string(t.id),
            project_id: uuid_to_string(t.project_id),
            name: t.name.clone(),
            time_limit: match t.time_limit {
                Some(m) => m,
                None => 0,
            },
            is_archived: if t.is_archived {
                1
            } else {
                0
            },
            created_at: format_rfc3339(t.created_at),
            updated_at: format_rfc3339(t.updated_at),
        }
    }
}

/// A row of the `time_entries` table.
pub struct TimeEntryRow {
    pub id: String,
    pub task_id: String,
    pub start_time: String,
    pub end_time: String,
    pub created_at: String,
    pub updated_at: String,
}

/// Whether `row` is the row that stores `e`.
pub open spec fn is_time_entry_db_row(row: TimeEntryRow, e: TimeEntry) -> bool {
    &&& row.id@ == uuid_text(e.id)
    &&& row.task_id@ == uuid_text(e.task_id)
    &&& row.start_time@ == rfc3339_text(e.start_time)
    &&& row.end_time@ == rfc3339_text(e.end_time)
    &&& row.created_at@ == rfc3339_text(e.created_at)
    &&& row.updated_at@ == rfc3339_text(e.updated_at)
}

impl TimeEntryRow {
    /// The time entry that the row holds. A row whose id or task id is not a
    /// UUID is refused with `InvalidId`, then one with a time that is not
    /// RFC 3339 text with `InvalidTimestamp`. The row that stores an entry
    /// reads back as that entry when its times lie in the years 0000 to 9999.
    pub fn parse(&self) -> (r: Result<TimeEntry, RowError>)
        ensures
            forall|e: TimeEntry|
                is_time_entry_db_row(*self, e) && entry_in_four_digit_years(e) ==> r == Ok::<TimeEntry, RowError>(e),
            uuid_value(self.id@) is None || uuid_value(self.task_id@) is None ==> r == Err::<
                TimeEntry,
                RowError,
            >(RowError::InvalidId),
            r is Ok <==> (uuid_value(self.id@) is Some && uuid_value(self.task_id@) is Some
                && rfc3339_value(self.start_time@) is Some && rfc3339_value(self.end_time@) is Some
                && rfc3339_value(self.created_at@) is Some && rfc3339_value(self.updated_at@) is Some),
            r matches Ok(e) ==> {
                &&& Some(e.id) == uuid_value(self.id@)
                &&& Some(e.task_id) == uuid_value(self.task_id@)
                &&& Some(e.start_time) == rfc3339_value(self.start_time@)
                &&& Some(e.end_time) == rfc3339_value(self.end_time@)
                &&& Some(e.created_at) == rfc3339_value(self.created_at@)
                &&& Some(e.updated_at) == rfc3339_value(self.updated_at@)
            },
            r matches Err(e) ==> (e == RowError::InvalidId) == (uuid_value(self.id@) is None
                || uuid_value(self.task_id@) is None),
    {
        let id = match parse_uuid(self.id.as_str()) {
            Some(id) => id,
            None => {
                return Err(RowError::InvalidId);
            },
        };
        let task_id = match parse_uuid(self.task_id.as_str()) {
            Some(id) => id,
            None => {
                return Err(RowError::InvalidId);
            },
        };
        let start_time = match parse_rfc3339(self.start_time.as_str()) {
            Some(t) => t,
            None => {
                return Err(RowError::InvalidTimestamp);
            },
        };
        let end_time = match parse_rfc3339(self.end_time.as_str()) {
            Some(t) => t,
            None => {
                return Err(RowError::InvalidTimestamp);
            },
        };
        let created_at = match parse_rfc3339(self.created_at.as_str()) {
            Some(t) => t,
            None => {
                return Err(RowError::InvalidTimestamp);
            },
        };
        let updated_at = match parse_rfc3339(self.updated_at.as_str()) {
            Some(t) => t,
            None => {
                return Err(RowError::InvalidTimestamp);
            },
        };
        Ok(TimeEntry { id, task_id, start_time, end_time, created_at, updated_at })
    }
}

impl TimeEntryRow {
    /// The row that stores a time entry.
    pub fn from_time_entry(e: &TimeEntry) -> (r: Self)
        requires
            in_chrono_range(e.start_time),
            in_chrono_range(e.end_time),
            in_chrono_range(e.created_at),
            in_chrono_range(e.updated_at),
        ensures
            is_time_entry_db_row(r, *e),
    {
        TimeEntryRow {
            id: uuid_to_string(e.id),
            task_id: uuid_to_string(e.task_id),
            start_time: format_rfc3339(e.start_time),
            end_time: format_rfc3339(e.end_time),
            created_at: format_rfc3339(e.created_at),
            updated_at: format_rfc3339(e.updated_at),
        }
    }
}

/// The row of the `active_timers` table; the one timer has the id 1.
pub struct ActiveTimerRow {
    pub id: i32,
    pub task_id: String,
    pub start_time: String,
}

/// Whether `row` stores the timer `a` (whatever its id).
pub open spec fn is_active_timer_db_row(row: ActiveTimerRow, a: ActiveTimer) -> bool {
    &&& row.task_id@ == uuid_text(a.task_id)
    &&& row.start_time@ == rfc3339_text(a.start_time)
}

impl ActiveTimerRow {
    /// The row that stores the running timer.
    pub fn from_active_timer(a: &ActiveTimer) -> (r: Self)
        requires
            in_chrono_range(a.start_time),
        ensures
            r.id == 1,
            is_active_timer_db_row(r, *a),
    {
        ActiveTimerRow {
            id: 1,
            task_id: uuid_to_string(a.task_id),
            start_time: format_rfc3339(a.start_time),
        }
    }

    /// The timer that the row holds. A row whose task id is not a UUID is
    /// refused with `InvalidId`, then one whose start is not RFC 3339 text with
    /// `InvalidTimestamp`. The row that stores a timer reads back as that timer
    /// when it started in the years 0000 to 9999.
    pub fn parse(&self) -> (r: Result<ActiveTimer, RowError>)
        ensures
            forall|a: ActiveTimer|
                is_active_timer_db_row(*self, a) && in_four_digit_years(a.start_time) ==> r == Ok::<
                    ActiveTimer,
                    RowError,
                >(a),
            r == (match uuid_value(self.task_id@) {
                None => Err(RowError::InvalidId),
                Some(task_id) => match rfc3339_value(self.start_time@) {
                    None => Err(RowError::InvalidTimestamp),
                    Some(start_time) => Ok(ActiveTimer { task_id, start_time }),
                },
            }),
    {
        let task_id = match parse_uuid(self.task_id.as_str()) {
            Some(id) => id,
            None => {
                return Err(RowError::InvalidId);
            },
        };
        match parse_rfc3339(self.start_time.as_str()) {
            Some(start_time) => Ok(ActiveTimer { task_id, start_time }),
            None => Err(RowError::InvalidTimestamp),
        }
    }
}

/// The row of the `user_settings` table.
pub struct UserSettingsRow {
    pub monday_target_minutes: i32,
    pub tuesday_target_minutes: i32,
    pub wednesday_target_minutes: i32,
    pub thursday_target_minutes: i32,
    pub fridays_target_minutes: i32,
    pub saturdays_target_minutes: i32,
    pub sundays_target_minutes: i32,
    pub show_archived_projects: i32,
    pub show_archived_tasks: i32,
    pub created_at: String,
    pub updated_at: String,
}

/// Whether `row` is the row that stores `s`: each target as the `i32` with
/// the same bits.
pub open spec fn is_settings_db_row(row: UserSettingsRow, s: UserSettings) -> bool {
    &&& row.monday_target_minutes as u32 == s.monday_target_minutes
    &&& row.tuesday_target_minutes as u32 == s.tuesday_target_minutes
    &&& row.wednesday_target_minutes as u32 == s.wednesday_target_minutes
    &&& row.thursday_target_minutes as u32 == s.thursday_target_minutes
    &&& row.fridays_target_minutes as u32 == s.friday_target_minutes
    &&& row.saturdays_target_minutes as u32 == s.saturday_target_minutes
    &&& row.sundays_target_minutes as u32 == s.sunday_target_minutes
    &&& row.show_archived_projects == flag_column(s.show_archived_projects)
    &&& row.show_archived_tasks == flag_column(s.show_archived_tasks)
    &&& row.created_at@ == rfc3339_text(s.created_at)
    &&& row.updated_at@ == rfc3339_text(s.updated_at)
}

impl UserSettingsRow {
    /// The settings that the row holds: each target is the stored integer
    /// taken as a `u32` (a negative one wraps around), each flag is set when it
    /// is not 0. A row whose times are not RFC 3339 text is refused with
    /// `InvalidTimestamp`. The row that stores settings reads back as those
    /// settings when their times lie in the years 0000 to 9999.
    pub fn parse(&self) -> (r: Result<UserSettings, RowError>)
        ensures
            forall|s: UserSettings|
                is_settings_db_row(*self, s) && in_four_digit_years(s.created_at) && in_four_digit_years(
                    s.updated_at,
                ) ==> r == Ok::<UserSettings, RowError>(s),
            r is Ok <==> (rfc3339_value(self.created_at@) is Some && rfc3339_value(
                self.updated_at@,
            ) is Some),
            r matches Err(e) ==> e == RowError::InvalidTimestamp,
            r matches Ok(s) ==> {
                &&& s.monday_target_minutes == self.monday_target_minutes as u32
                &&& s.tuesday_target_minutes == self.tuesday_target_minutes as u32
                &&& s.wednesday_target_minutes == self.wednesday_target_minutes as u32
                &&& s.thursday_target_minutes == self.thursday_target_minutes as u32
                &&& s.friday_target_minutes == self.fridays_target_minutes as u32
                &&& s.saturday_target_minutes == self.saturdays_target_minutes as u32
                &&& s.sunday_target_minutes == self.sundays_target_minutes as u32
                &&& s.show_archived_projects == (self.show_archived_projects != 0)
                &&& s.show_archived_tasks == (self.show_archived_tasks != 0)
                &&& Some(s.created_at) == rfc3339_value(self.created_at@)
                &&& Some(s.updated_at) == rfc3339_value(self.updated_at@)
            },
    {
        let created_at = match parse_rfc3339(self.created_at.as_str()) {
            Some(t) => t,
            None => {
                return Err(RowError::InvalidTimestamp);
            },
        };
        let updated_at = match parse_rfc3339(self.updated_at.as_str()) {
            Some(t) => t,
            None => {
                return Err(RowError::InvalidTimestamp);
            },
        };
        Ok(
            UserSettings {
                monday_target_minutes: self.monday_target_minutes as u32,
                tuesday_target_minutes: self.tuesday_target_minutes as u32,
                wednesday_target_minutes: self.wednesday_target_minutes as u32,
                thursday_target_minutes: self.thursday_target_minutes as u32,
                friday_target_minutes: self.fridays_target_minutes as u32,
                saturday_target_minutes: self.saturdays_target_minutes as u32,
                sunday_target_minutes: self.sundays_target_minutes as u32,
                show_archived_projects: self.show_archived_projects != 0,
                show_archived_tasks: self.show_archived_tasks != 0,
                created_at,
                updated_at,
            },
        )
    }

    /// The row that stores the settings: each target is stored as the `i32`
    /// with the same bits, and reads back as the same `u32`.
    pub fn from_settings(s: &UserSettings) -> (r: Self)
        requires
            in_chrono_range(s.created_at),
            in_chrono_range(s.updated_at),
        ensures
            is_settings_db_row(r, *s),
    {
        UserSettingsRow {
            monday_target_minutes: stored_minutes(s.monday_target_minutes),
            tuesday_target_minutes: stored_minutes(s.tuesday_target_minutes),
            wednesday_target_minutes: stored_minutes(s.wednesday_target_minutes),
            thursday_target_minutes: stored_minutes(s.thursday_target_minutes),
            fridays_target_minutes: stored_minutes(s.friday_target_minutes),
            saturdays_target_minutes: stored_minutes(s.saturday_target_minutes),
            sundays_target_minutes: stored_minutes(s.sunday_target_minutes),
            show_archived_projects: if s.show_archived_projects {
                1
            } else {
                0
            },
            show_archived_tasks: if s.show_archived_tasks {
                1
            } else {
                0
            },
            created_at: format_rfc3339(s.created_at),
            updated_at: format_rfc3339(s.updated_at),
        }
    }
}

/// The `i32` with the bits of a `u32`.
fn stored_minutes(m: u32) -> (r: i32)
    ensures
        r as u32 == m,
{
    #[verifier::truncate]
    let r = m as i32;
    assert(r as u32 == m) by (bit_vector)
        requires
            r == m as i32,
    ;
    r
}

} // verus!
