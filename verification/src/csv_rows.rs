//! The rows of the CSV export: one text field per column, ids as hyphenated
//! UUIDs and points in time as RFC 3339 text.

use crate::clock::{
    format_rfc3339, in_chrono_range, in_four_digit_years, parse_rfc3339, rfc3339_text,
    rfc3339_value,
};
use crate::ids::{parse_uuid, uuid_text, uuid_to_string, uuid_value};
use crate::types::{Project, Task, TimeEntry};
use vstd::prelude::*;

verus! {

/// Why a row could not be read back into a record.
#[derive(Debug, PartialEq, Eq, Clone, Copy, Structural)]
pub enum RowError {
    /// An id column does not hold a UUID.
    InvalidId,
    /// A time column does not hold an RFC 3339 date and time.
    InvalidTimestamp,
}

/// The time limit as the project export writes it: 0 for none.
pub open spec fn time_limit_column(time_limit: Option<u32>) -> u32 {
    match time_limit {
        Some(m) => m,
        None => 0,
    }
}

/// The time limit that a project row's column gives: none for 0.
pub open spec fn time_limit_of_column(column: u32) -> Option<u32> {
    if column > 0 {
        Some(column)
    } else {
        None
    }
}

/// A project as one row of `projects.csv`.
pub struct ProjectCsvRow {
    pub id: String,
    pub name: String,
    pub time_limit: u32,
    pub created_at: String,
    pub updated_at: String,
}

/// Whether `row` is the row written for `p`.
pub open spec fn is_project_row(row: ProjectCsvRow, p: Project) -> bool {
    &&& row.id@ == uuid_text(p.id)
    &&& row.name == p.name
    &&& row.time_limit == time_limit_column(p.time_limit)
    &&& row.created_at@ == rfc3339_text(p.created_at)
    &&& row.updated_at@ == rfc3339_text(p.updated_at)
}

/// Whether a project comes back unchanged from its row: its times lie in the
/// years 0000 to 9999, it has no time limit of 0 (the row writes no limit as
/// 0), and it is not archived (the row has no archive column).
pub open spec fn project_row_round_trips(p: Project) -> bool {
    &&& in_four_digit_years(p.created_at)
    &&& in_four_digit_years(p.updated_at)
    &&& p.time_limit != Some(0u32)
    &&& !p.is_archived
}

/// The project that a row reads back as, or why it does not: the id must
/// be a UUID (`InvalidId`), then both times RFC 3339 text (`InvalidTimestamp`).
pub open spec fn project_of_row(row: ProjectCsvRow) -> Result<Project, RowError> {
    match uuid_value(row.id@) {
        None => Err(RowError::InvalidId),
        Some(id) => match (rfc3339_value(row.created_at@), rfc3339_value(row.updated_at@)) {
            (Some(created_at), Some(updated_at)) => Ok(
                Project {
                    id,
                    name: row.name,
                    time_limit: time_limit_of_column(row.time_limit),
                    is_archived: false,
                    created_at,
                    updated_at,
                },
            ),
            _ => Err(RowError::InvalidTimestamp),
        },
    }
}

impl Clone for ProjectCsvRow {
    fn clone(&self) -> (r: Self)
        ensures
            r == *self,
    {
        ProjectCsvRow {
            id: self.id.clone(),
            name: self.name.clone(),
            time_limit: self.time_limit,
            created_at: self.created_at.clone(),
            updated_at: self.updated_at.clone(),
        }
    }
}

impl ProjectCsvRow {
    /// The row written for a project.
    pub fn from_project(value: Project) -> (r: Self)
        requires
            in_chrono_range(value.created_at),
            in_chrono_range(value.updated_at),
        ensures
            is_project_row(r, value),
    {
        ProjectCsvRow {
            id: uuid_to_string(value.id),
            name: value.name,
            time_limit: match value.time_limit {
                Some(m) => m,
                None => 0,
            },
            created_at: format_rfc3339(value.created_at),
            updated_at: format_rfc3339(value.updated_at),
        }
    }

    /// The project that a row holds. It is not archived; a time limit of 0
    /// means none. A row whose id is not a UUID is refused with `InvalidId`,
    /// then one whose creation or update time is not RFC 3339 text with
    /// `InvalidTimestamp`. The row of a project reads back as that project when
    /// [`project_row_round_trips`] holds.
    pub fn into_project(self) -> (r: Result<Project, RowError>)
        ensures
            r == project_of_row(self),
            uuid_value(self.id@) is None ==> r == Err::<Project, RowError>(RowError::InvalidId),
            uuid_value(self.id@) is Some && (rfc3339_value(self.created_at@) is None
                || rfc3339_value(self.updated_at@) is None) ==> r == Err::<Project, RowError>(
                RowError::InvalidTimestamp,
            ),
            r matches Ok(p) ==> {
                &&& Some(p.id) == uuid_value(self.id@)
                &&& p.name == self.name
                &&& p.time_limit == time_limit_of_column(self.time_limit)
                &&& !p.is_archived
                &&& Some(p.created_at) == rfc3339_value(self.created_at@)
                &&& Some(p.updated_at) == rfc3339_value(self.updated_at@)
            },
            r is Ok <==> (uuid_value(self.id@) is Some && rfc3339_value(self.created_at@) is Some
                && rfc3339_value(self.updated_at@) is Some),
            forall|p: Project|
                is_project_row(self, p) && project_row_round_trips(p) ==> r == Ok::<Project, RowError>(
                    p,
                ),
    {
        let id = match parse_uuid(self.id.as_str()) {
            Some(id) => id,
            None => {
                return Err(RowError::InvalidId);
            },
        };
        let created_at = match parse_rfc3339(self.created_at.as_str()) {
            Some(t) => t,
            None => {
                return Err(RowError::InvalidTimestamp);
            },
        };
        let updated_at = match parse_rfc3339(self.updated_at.as_str()) {
            Some(t) => t,
            None => {
                return Err(RowError::InvalidTimestamp);
            },
        };
        Ok(
            Project {
                id,
                name: self.name,
                time_limit: if self.time_limit > 0 {
                    Some(self.time_limit)
                } else {
                    None
                },
                is_archived: false,
                created_at,
                updated_at,
            },
        )
    }
}

/// A task as one row of `tasks.csv`.
pub struct TaskCsvRow {
    pub id: String,
    pub project_id: String,
    pub name: String,
    pub time_limit: Option<u32>,
    pub is_archived: bool,
    pub created_at: String,
    pub updated_at: String,
}

/// Whether `row` is the row written for `t`.
pub open spec fn is_task_row(row: TaskCsvRow, t: Task) -> bool {
    &&& row.id@ == uuid_text(t.id)
    &&& row.project_id@ == uuid_text(t.project_id)
    &&& row.name == t.name
    &&& row.time_limit == t.time_limit
    &&& row.is_archived == t.is_archived
    &&& row.created_at@ == rfc3339_text(t.created_at)
    &&& row.updated_at@ == rfc3339_text(t.updated_at)
}

/// The task that a row reads back as, or why it does not: both ids must be
/// UUIDs (`InvalidId`), then both times RFC 3339 text (`InvalidTimestamp`).
pub open spec fn task_of_row(row: TaskCsvRow) -> Result<Task, RowError> {
    match (uuid_value(row.id@), uuid_value(row.project_id@)) {
        (Some(id), Some(project_id)) => match (
            rfc3339_value(row.created_at@),
            rfc3339_value(row.updated_at@),
        ) {
            (Some(created_at), Some(updated_at)) => Ok(
                Task {
                    id,
                    project_id,
                    name: row.name,
                    time_limit: row.time_limit,
                    is_archived: row.is_archived,
                    created_at,
                    updated_at,
                },
            ),
            _ => Err(RowError::InvalidTimestamp),
        },
        _ => Err(RowError::InvalidId),
    }
}

impl Clone for TaskCsvRow {
    fn clone(&self) -> (r: Self)
        ensures
            r == *self,
    {
        TaskCsvRow {
            id: self.id.clone(),
            project_id: self.project_id.clone(),
            name: self.name.clone(),
            time_limit: self.time_limit,
            is_archived: self.is_archived,
            created_at: self.created_at.clone(),
            updated_at: self.updated_at.clone(),
        }
    }
}

impl TaskCsvRow {
    /// The row written for a task.
    pub fn from_task(value: Task) -> (r: Self)
        requires
            in_chrono_range(value.created_at),
            in_chrono_range(value.updated_at),
        ensures
            is_task_row(r, value),
    {
        TaskCsvRow {
            id: uuid_to_string(value.id),
            project_id: uuid_to_string(value.project_id),
            name: value.name,
            time_limit: value.time_limit,
            is_archived: value.is_archived,
            created_at: format_rfc3339(value.created_at),
            updated_at: format_rfc3339(value.updated_at),
        }
    }

    /// The task that a row holds. A row whose id or project id is not a UUID
    /// is refused with `InvalidId`, then one whose creation or update time is
    /// not RFC 3339 text with `InvalidTimestamp`. The row of a task whose times
    /// lie in the years 0000 to 9999 reads back as that task.
    pub fn into_task(self) -> (r: Result<Task, RowError>)
        ensures
            r == task_of_row(self),
            uuid_value(self.id@) is None || uuid_value(self.project_id@) is None ==> r == Err::<
                Task,
                RowError,
            >(RowError::InvalidId),
            uuid_value(self.id@) is Some && uuid_value(self.project_id@) is Some && (rfc3339_value(
                self.created_at@,
            ) is None || rfc3339_value(self.updated_at@) is None) ==> r == Err::<Task, RowError>(
                RowError::InvalidTimestamp,
            ),
            r matches Ok(t) ==> {
                &&& Some(t.id) == uuid_value(self.id@)
                &&& Some(t.project_id) == uuid_value(self.project_id@)
                &&& t.name == self.name
                &&& t.time_limit == self.time_limit
                &&& t.is_archived == self.is_archived
                &&& Some(t.created_at) == rfc3339_value(self.created_at@)
                &&& Some(t.updated_at) == rfc3339_value(self.updated_at@)
            },
            r is Ok <==> (uuid_value(self.id@) is Some && uuid_value(self.project_id@) is Some
                && rfc3339_value(self.created_at@) is Some && rfc3339_value(self.updated_at@) is Some),
            forall|t: Task|
                is_task_row(self, t) && in_four_digit_years(t.created_at) && in_four_digit_years(
                    t.updated_at,
                ) ==> r == Ok::<Task, RowError>(t),
    {
        let id = match parse_uuid(self.id.as_str()) {
            Some(id) => id,
            None => {
                return Err(RowError::InvalidId);
            },
        };
        let project_id = match parse_uuid(self.project_id.as_str()) {
            Some(id) => id,
            None => {
                return Err(RowError::InvalidId);
            },
        };
        let created_at = match parse_rfc3339(self.created_at.as_str()) {
            Some(t) => t,
            None => {
                return Err(RowError::InvalidTimestamp);
            },
        };
        let updated_at = match parse_rfc3339(self.updated_at.as_str()) {
            Some(t) => t,
            None => {
                return Err(RowError::InvalidTimestamp);
            },
        };
        Ok(
            Task {
                id,
                project_id,
                name: self.name,
                time_limit: self.time_limit,
                is_archived: self.is_archived,
                created_at,
                updated_at,
            },
        )
    }
}

/// A time entry as one row of `time_entries.csv`.
pub struct TimeEntryCsvRow {
    pub id: String,
    pub task_id: String,
    pub start_time: String,
    pub end_time: String,
    pub created_at: String,
    pub updated_at: String,
}

/// Whether `row` is the row written for `e`.
pub open spec fn is_time_entry_row(row: TimeEntryCsvRow, e: TimeEntry) -> bool {
    &&& row.id@ == uuid_text(e.id)
    &&& row.task_id@ == uuid_text(e.task_id)
    &&& row.start_time@ == rfc3339_text(e.start_time)
    &&& row.end_time@ == rfc3339_text(e.end_time)
    &&& row.created_at@ == rfc3339_text(e.created_at)
    &&& row.updated_at@ == rfc3339_text(e.updated_at)
}

/// Whether every time of an entry lies in the years 0000 to 9999.
pub open spec fn entry_in_four_digit_years(e: TimeEntry) -> bool {
    &&& in_four_digit_years(e.start_time)
    &&& in_four_digit_years(e.end_time)
    &&& in_four_digit_years(e.created_at)
    &&& in_four_digit_years(e.updated_at)
}

/// The time entry that a row reads back as, or why it does not: both ids
/// must be UUIDs (`InvalidId`), then all four times RFC 3339 text
/// (`InvalidTimestamp`).
pub open spec fn time_entry_of_row(row: TimeEntryCsvRow) -> Result<TimeEntry, RowError> {
    match (uuid_value(row.id@), uuid_value(row.task_id@)) {
        (Some(id), Some(task_id)) => match (
            rfc3339_value(row.start_time@),
            rfc3339_value(row.end_time@),
            rfc3339_value(row.created_at@),
            rfc3339_value(row.updated_at@),
        ) {
            (Some(start_time), Some(end_time), Some(created_at), Some(updated_at)) => Ok(
                TimeEntry { id, task_id, start_time, end_time, created_at, updated_at },
            ),
            _ => Err(RowError::InvalidTimestamp),
        },
        _ => Err(RowError::InvalidId),
    }
}

impl Clone for TimeEntryCsvRow {
    fn clone(&self) -> (r: Self)
        ensures
            r == *self,
    {
        TimeEntryCsvRow {
            id: self.id.clone(),
            task_id: self.task_id.clone(),
            start_time: self.start_time.clone(),
            end_time: self.end_time.clone(),
            created_at: self.created_at.clone(),
            updated_at: self.updated_at.clone(),
        }
    }
}

impl TimeEntryCsvRow {
    /// The row written for a time entry.
    pub fn from_time_entry(value: TimeEntry) -> (r: Self)
        requires
            in_chrono_range(value.start_time),
            in_chrono_range(value.end_time),
            in_chrono_range(value.created_at),
            in_chrono_range(value.updated_at),
        ensures
            is_time_entry_row(r, value),
    {
        TimeEntryCsvRow {
            id: uuid_to_string(value.id),
            task_id: uuid_to_string(value.task_id),
            start_time: format_rfc3339(value.start_time),
            end_time: format_rfc3339(value.end_time),
            created_at: format_rfc3339(value.created_at),
            updated_at: format_rfc3339(value.updated_at),
        }
    }

    /// The time entry that a row holds. A row whose id or task id is not a
    /// UUID is refused with `InvalidId`, then one with a time that is not
    /// RFC 3339 text with `InvalidTimestamp`. The row of an entry whose times
    /// lie in the years 0000 to 9999 reads back as that entry.
    pub fn into_time_entry(self) -> (r: Result<TimeEntry, RowError>)
        ensures
            r == time_entry_of_row(self),
            uuid_value(self.id@) is None || uuid_value(self.task_id@) is None ==> r == Err::<
                TimeEntry,
                RowError,
            >(RowError::InvalidId),
            uuid_value(self.id@) is Some && uuid_value(self.task_id@) is Some && (rfc3339_value(
                self.start_time@,
            ) is None || rfc3339_value(self.end_time@) is None || rfc3339_value(
                self.created_at@,
            ) is None || rfc3339_value(self.updated_at@) is None) ==> r == Err::<
                TimeEntry,
                RowError,
            >(RowError::InvalidTimestamp),
            r matches Ok(e) ==> {
                &&& Some(e.id) == uuid_value(self.id@)
                &&& Some(e.task_id) == uuid_value(self.task_id@)
                &&& Some(e.start_time) == rfc3339_value(self.start_time@)
                &&& Some(e.end_time) == rfc3339_value(self.end_time@)
                &&& Some(e.created_at) == rfc3339_value(self.created_at@)
                &&& Some(e.updated_at) == rfc3339_value(self.updated_at@)
            },
            r is Ok <==> (uuid_value(self.id@) is Some && uuid_value(self.task_id@) is Some
                && rfc3339_value(self.start_time@) is Some && rfc3339_value(self.end_time@) is Some
                && rfc3339_value(self.created_at@) is Some && rfc3339_value(self.updated_at@) is Some),
            forall|e: TimeEntry|
                is_time_entry_row(self, e) && entry_in_four_digit_years(e) ==> r == Ok::<
                    TimeEntry,
                    RowError,
                >(e),
    {
        let id = match parse_uuid(self.id.as_str()) {
            Some(id) => id,
            None => {
                return Err(RowError::InvalidId);
            },
        };
        let task_id = match parse_uuid(self.task_id.as_str()) {
            Some(id) => id,
            None => {
                return Err(RowError::InvalidId);
            },
        };
        let start_time = match parse_rfc3339(self.start_time.as_str()) {
            Some(t) => t,
            None => {
                return Err(RowError::InvalidTimestamp);
            },
        };
        let end_time = match parse_rfc3339(self.end_time.as_str()) {
            Some(t) => t,
            None => {
                return Err(RowError::InvalidTimestamp);
            },
        };
        let created_at = match parse_rfc3339(self.created_at.as_str()) {
            Some(t) => t,
            None => {
                return Err(RowError::InvalidTimestamp);
            },
        };
        let updated_at = match parse_rfc3339(self.updated_at.as_str()) {
            Some(t) => t,
            None => {
                return Err(RowError::InvalidTimestamp);
            },
        };
        Ok(TimeEntry { id, task_id, start_time, end_time, created_at, updated_at })
    }
}

} // verus!
