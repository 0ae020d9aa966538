//! The errors that the services report.

use crate::text::push_str;
use vstd::prelude::*;

verus! {

/// Why a service refused a request.
#[derive(Debug, PartialEq, Eq)]
pub enum AppError {
    /// A name was empty.
    EmptyName,
    /// No project has the given id.
    ProjectNotFound,
    /// No task has the given id.
    TaskNotFound,
    /// No time entry has the given id.
    TimeEntryNotFound,
    /// A timer was started while another one runs.
    TimerAlreadyRunning,
    /// A timer was stopped while none runs.
    NoActiveTimer,
    /// A time range ends before it starts.
    InvalidTimeRange,
    /// The store that holds the records failed.
    Storage(String),
}

impl AppError {
    /// The message that tells the user why the request was refused.
    pub fn message(&self) -> (r: String)
        ensures
            r@ == (match self {
                AppError::EmptyName => "Name cannot be empty"@,
                AppError::ProjectNotFound => "Project not found"@,
                AppError::TaskNotFound => "Task not found"@,
                AppError::TimeEntryNotFound => "Time entry not found"@,
                AppError::TimerAlreadyRunning => "A timer is already running"@,
                AppError::NoActiveTimer => "No active timer"@,
                AppError::InvalidTimeRange => "Invalid time range"@,
                AppError::Storage(cause) => "Storage error: "@ + cause@,
            }),
    {
        match self {
            AppError::EmptyName => String::from_str("Name cannot be empty"),
            AppError::ProjectNotFound => String::from_str("Project not found"),
            AppError::TaskNotFound => String::from_str("Task not found"),
            AppError::TimeEntryNotFound => String::from_str("Time entry not found"),
            AppError::TimerAlreadyRunning => String::from_str("A timer is already running"),
            AppError::NoActiveTimer => String::from_str("No active timer"),
            AppError::InvalidTimeRange => String::from_str("Invalid time range"),
            AppError::Storage(cause) => {
                let mut m = String::from_str("Storage error: ");
                push_str(&mut m, cause.as_str());
                m
            },
        }
    }
}

/// The result of a service call.
pub type AppResult<T> = Result<T, AppError>;

} // verus!
