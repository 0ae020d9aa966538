//! The command line: the commands, and what running one does to the tracker.
//!
//! Running a command reads ids from their text, makes the service calls the
//! command stands for, and reports what came of them; the program around the
//! library prints the report.

use crate::app_context::AppContext;
use crate::clock::{in_chrono_range, utc_datetime_value, utc_from_parts};
use crate::errors::AppError;
use crate::ids::{parse_uuid, uuid_value, uuid_version};
use crate::in_memory_project_repository::{
    has_project, lemma_find_project, project_id_is_not, project_is_listed, replace_project,
};
use crate::laws::lemma_updated_project_is_found;
use crate::in_memory_task_repository::{
    find_task, has_task, lemma_find_task, replace_task, task_id_is_not, task_is_listed,
};
use crate::in_memory_project_repository::find_project;
use crate::laws::lemma_updated_task_is_found;
use crate::naming_service::{
    claims_fit, name_suffixes_fit, parse_i32, parse_i32_text, parse_u32, parse_u32_text, unique_name,
};
use crate::task_service::{
    is_changed_task, is_new_task, is_restated_task, task_lookup, task_name_list_in, task_names_in,
};
use crate::in_memory_time_entry_repository::{
    find_time_entry, has_time_entry, replace_time_entry, time_entry_id_is_not, time_entry_of_task,
};
use crate::time_entry_service::new_entry;
use crate::text::str_equal;
use crate::project_service::{
    is_limited_project, is_new_project, is_renamed_project, project_lookup, project_name_list,
    project_names,
};
use crate::types::{Project, Task, TimeEntry};
use vstd::prelude::*;

verus! {

/// What the command line was asked to do; no command starts the terminal
/// interface.
pub struct Cli {
    pub command: Option<Command>,
}

/// A command.
pub enum Command {
    /// Manage projects.
    Project(ProjectCommand),
    /// Manage tasks.
    Tasks(TaskCommands),
    /// Manage time entries.
    Entry(Box<EntryCommands>),
    /// Start or stop the timer.
    Timer(TimerCommands),
}

/// The project commands. Ids are given as UUID text.
pub enum ProjectCommand {
    /// Create a new project.
    Create { name: String },
    /// List all projects.
    List,
    /// Delete a project.
    Delete { id: String },
    /// Rename a project.
    Rename { id: String, name: String },
    /// Set the time limit of a project, in minutes; 0 for none.
    EditTimeLimit { id: String, time_limit: u32 },
}

/// The task commands. Ids are given as UUID text.
pub enum TaskCommands {
    /// Create a new task in a project.
    Create { name: String, project_id: String },
    /// List the tasks; archived ones only when asked.
    List { include_archived: bool },
    /// Archive the first task that is not archived and has the name.
    Archive { name: String },
    /// Take the first task with the name out of the archive.
    Unarchive { name: String },
    /// Delete a task.
    Delete { id: String },
    /// Rename a task.
    Rename { id: String, name: String },
    /// Set the time limit of a task, in minutes; 0 for none.
    EditTimeLimit { id: String, time_limit: u32 },
    /// Move a task to another project.
    Assign { id: String, project_id: String },
}

/// The timer commands.
pub enum TimerCommands {
    /// Start the timer for a task.
    Start { task_id: String },
    /// Stop the timer.
    Stop,
}

/// The time entry commands. Points in time are given as the texts of a UTC
/// year, month, day, hour and minute.
pub enum EntryCommands {
    /// Book time on a task by hand.
    Create {
        task_id: String,
        start_year: String,
        start_month: String,
        start_day: String,
        start_hour: String,
        start_minute: String,
        end_year: String,
        end_month: String,
        end_day: String,
        end_hour: String,
        end_minute: String,
    },
    /// List the entries of a task.
    List { task_id: String },
    /// Delete a time entry.
    Delete { id: String },
    /// Move a time entry to another task.
    Assign { id: String, task_id: String },
    /// Move a time entry to a new range.
    Edit {
        id: String,
        start_year: String,
        start_month: String,
        start_day: String,
        start_hour: String,
        start_minute: String,
        end_year: String,
        end_month: String,
        end_day: String,
        end_hour: String,
        end_minute: String,
    },
}

/// What came of a command, for the program to print.
pub enum CliReport {
    ProjectCreated(Project),
    ProjectList(Vec<Project>),
    /// The project with the id as it was given was deleted.
    ProjectDeleted(String),
    ProjectRenamed(Project),
    ProjectTimeLimitSet(Project),
    TaskCreated(Task),
    TaskList(Vec<Task>),
    TaskArchived(Task),
    TaskUnarchived(Task),
    /// No task has the name.
    TaskNameNotFound(String),
    TaskDeleted(u128),
    TaskRenamed(Task),
    TaskAssigned(Task),
    TaskTimeLimitSet(Task),
    TimerStarted(u128),
    TimerStopped,
    EntryCreated(TimeEntry),
    /// The task and its entries.
    EntryList(Task, Vec<TimeEntry>),
    /// The entry with the id as it was given was deleted.
    EntryDeleted(String),
    /// The entry, and the task it was moved to.
    EntryAssigned(TimeEntry, Task),
    EntryEdited(TimeEntry),
}

/// Why a command did nothing.
#[derive(Debug, PartialEq, Eq)]
pub enum CliError {
    /// No command was given.
    NoCommand,
    /// An id is not UUID text.
    InvalidId,
    /// The parts of a point in time are no numbers or no UTC date and time.
    InvalidDateTime,
    /// A name carries a numeric suffix too large to count past.
    NameSuffixOverflow,
    /// A service refused the request.
    Failed(AppError),
}

/// The time limit that a command's number stands for: none for 0.
pub open spec fn limit_of(time_limit: u32) -> Option<u32> {
    if time_limit > 0 {
        Some(time_limit)
    } else {
        None
    }
}

impl ProjectCommand {
    /// Whether the names that the command makes unique carry no suffix too
    /// large to count past.
    pub open spec fn names_fit(&self, app: AppContext) -> bool {
        let ps = app.project_service.project_repository@;
        match self {
            ProjectCommand::Create { name } => name@.len() > 0 ==> claims_fit(name@, project_names(ps)),
            ProjectCommand::Rename { id, name } => (name@.len() > 0 && (uuid_value(id@) matches Some(u)
                && project_lookup(ps, u) is Ok)) ==> claims_fit(name@, project_names(ps)),
            _ => true,
        }
    }

    /// Whether running the command took `before` to `after` with the result `r`.
    pub open spec fn ran(&self, before: AppContext, after: AppContext, r: Result<CliReport, CliError>) -> bool {
        let ps = before.project_service.project_repository@;
        let ps2 = after.project_service.project_repository@;
        &&& before.unchanged_except(after, true, false, false)
        &&& match self {
            ProjectCommand::Create { name } => if name@.len() == 0 {
                r == Err::<CliReport, CliError>(CliError::Failed(AppError::EmptyName)) && ps2 == ps
            } else {
                r matches Ok(CliReport::ProjectCreated(p)) && is_new_project(
                    p,
                    unique_name(name@, project_names(ps)),
                    p.id,
                    p.created_at,
                ) && p.id != 0 && uuid_version(p.id) == 4 && in_chrono_range(p.created_at) && !has_project(
                    ps,
                    p.id,
                ) && ps2 == ps.push(p)
            },
            ProjectCommand::List => r matches Ok(CliReport::ProjectList(v)) && v@ == ps && ps2 == ps,
            ProjectCommand::Delete { id } => match uuid_value(id@) {
                None => r == Err::<CliReport, CliError>(CliError::InvalidId) && ps2 == ps,
                Some(u) => match project_lookup(ps, u) {
                    Err(e) => r == Err::<CliReport, CliError>(CliError::Failed(e)) && ps2 == ps,
                    Ok(_) => r matches Ok(CliReport::ProjectDeleted(t)) && t@ == id@ && ps2 == ps.filter(
                        project_id_is_not(u),
                    ),
                },
            },
            ProjectCommand::Rename { id, name } => match uuid_value(id@) {
                None => r == Err::<CliReport, CliError>(CliError::InvalidId) && ps2 == ps,
                Some(u) => match project_lookup(ps, u) {
                    Err(e) => r == Err::<CliReport, CliError>(CliError::Failed(e)) && ps2 == ps,
                    Ok(found) => if name@.len() == 0 {
                        r == Err::<CliReport, CliError>(CliError::Failed(AppError::EmptyName)) && ps2
                            == ps
                    } else {
                        r matches Ok(CliReport::ProjectRenamed(p)) && is_renamed_project(
                            p,
                            found,
                            unique_name(name@, project_names(ps)),
                            p.updated_at,
                        ) && in_chrono_range(p.updated_at) && ps2 == replace_project(ps, p)
                    },
                },
            },
            ProjectCommand::EditTimeLimit { id, time_limit } => match uuid_value(id@) {
                None => r == Err::<CliReport, CliError>(CliError::InvalidId) && ps2 == ps,
                Some(u) => match project_lookup(ps, u) {
                    Err(e) => r == Err::<CliReport, CliError>(CliError::Failed(e)) && ps2 == ps,
                    Ok(found) => r matches Ok(CliReport::ProjectTimeLimitSet(p)) && is_limited_project(
                        p,
                        found,
                        limit_of(*time_limit),
                        p.updated_at,
                    ) && in_chrono_range(p.updated_at) && ps2 == replace_project(ps, p),
                },
            },
        }
    }

    /// Whether the names that the command makes unique carry no suffix too
    /// large to count past (see [`Self::names_fit`]).
    pub fn check_names(&self, app: &AppContext) -> (r: bool)
        ensures
            r == self.names_fit(*app),
    {
        match self {
            ProjectCommand::Create { name } => {
                if name.as_str().unicode_len() == 0 {
                    return true;
                }
                let projects = app.project_service.project_repository.find_all();
                let names = project_name_list(&projects);
                name_suffixes_fit(name.as_str(), names.as_slice())
            },
            ProjectCommand::Rename { id, name } => {
                if name.as_str().unicode_len() == 0 {
                    return true;
                }
                let u = match parse_uuid(id.as_str()) {
                    Some(u) => u,
                    None => {
                        return true;
                    },
                };
                if app.project_service.find_by_id(u).is_err() {
                    return true;
                }
                let projects = app.project_service.project_repository.find_all();
                let names = project_name_list(&projects);
                name_suffixes_fit(name.as_str(), names.as_slice())
            },
            _ => true,
        }
    }

    /// Runs the command (see [`Self::ran`]).
    pub fn run(&self, app: &mut AppContext) -> (r: Result<CliReport, CliError>)
        requires
            old(app).in_step(),
            self.names_fit(*old(app)),
        ensures
            self.ran(*old(app), *final(app), r),
    {
        match self {
            ProjectCommand::Create { name } => {
                match app.project_service.create(name.clone()) {
                    Ok(project) => Ok(CliReport::ProjectCreated(project)),
                    Err(e) => Err(CliError::Failed(e)),
                }
            },
            ProjectCommand::List => {
                let projects = app.project_service.project_repository.find_all();
                Ok(CliReport::ProjectList(projects))
            },
            ProjectCommand::Delete { id } => {
                let u = match parse_uuid(id.as_str()) {
                    Some(u) => u,
                    None => {
                        return Err(CliError::InvalidId);
                    },
                };
                match app.project_service.delete(u) {
                    Ok(()) => Ok(CliReport::ProjectDeleted(id.clone())),
                    Err(e) => Err(CliError::Failed(e)),
                }
            },
            ProjectCommand::Rename { id, name } => {
                let u = match parse_uuid(id.as_str()) {
                    Some(u) => u,
                    None => {
                        return Err(CliError::InvalidId);
                    },
                };
                match app.project_service.edit_name(u, name.as_str()) {
                    Ok(project) => Ok(CliReport::ProjectRenamed(project)),
                    Err(e) => Err(CliError::Failed(e)),
                }
            },
            ProjectCommand::EditTimeLimit { id, time_limit } => {
                let u = match parse_uuid(id.as_str()) {
                    Some(u) => u,
                    None => {
                        return Err(CliError::InvalidId);
                    },
                };
                let limit = if *time_limit > 0 {
                    Some(*time_limit)
                } else {
                    None
                };
                let edited = match app.project_service.edit_time_limit(u, limit) {
                    Ok(project) => project,
                    Err(e) => {
                        return Err(CliError::Failed(e));
                    },
                };
                proof {
                    lemma_find_project(old(app).project_service.project_repository@, u);
                    lemma_updated_project_is_found(old(app).project_service.project_repository@, edited);
                }
                match app.project_service.find_by_id(u) {
                    Ok(project) => Ok(CliReport::ProjectTimeLimitSet(project)),
                    Err(e) => Err(CliError::Failed(e)),
                }
            },
        }
    }
}

/// The first task in `s` with the given name.
pub open spec fn first_named(s: Seq<Task>, name: Seq<char>) -> Option<Task>
    decreases s.len(),
{
    if s.len() == 0 {
        None
    } else if s[0].name@ == name {
        Some(s[0])
    } else {
        first_named(s.drop_first(), name)
    }
}

/// A task after tasks with other names is the first with its name; with no
/// task of the name there is none.
proof fn lemma_first_named(s: Seq<Task>, name: Seq<char>, i: int)
    requires
        0 <= i <= s.len(),
        forall|j: int| 0 <= j < i ==> s[j].name@ != name,
        i < s.len() ==> s[i].name@ == name,
    ensures
        i < s.len() ==> first_named(s, name) == Some(s[i]),
        i == s.len() ==> first_named(s, name) is None,
    decreases s.len(),
{
    if s.len() > 0 && i > 0 {
        assert forall|j: int| 0 <= j < i - 1 implies s.drop_first()[j].name@ != name by {
            assert(s.drop_first()[j] == s[j + 1]);
        }
        lemma_first_named(s.drop_first(), name, i - 1);
    }
}

/// The first task in `tasks` with the given name.
fn find_named(tasks: &Vec<Task>, name: &str) -> (r: Option<Task>)
    ensures
        r == first_named(tasks@, name@),
{
    let mut i: usize = 0;
    while i < tasks.len()
        invariant
            0 <= i <= tasks@.len(),
            forall|j: int| 0 <= j < i ==> tasks@[j].name@ != name@,
        decreases tasks@.len() - i,
    {
        if str_equal(tasks[i].name.as_str(), name) {
            proof {
                lemma_first_named(tasks@, name@, i as int);
            }
            return Some(tasks[i].clone());
        }
        i += 1;
    }
    proof {
        lemma_first_named(tasks@, name@, i as int);
    }
    None
}

impl TaskCommands {
    /// Whether the names that the command makes unique carry no suffix too
    /// large to count past.
    pub open spec fn names_fit(&self, app: AppContext) -> bool {
        let ts = app.task_service.task_repository@;
        let tps = app.task_service.project_repository@;
        match self {
            TaskCommands::Create { name, project_id } => match uuid_value(project_id@) {
                Some(p) => (name@.len() > 0 && find_project(tps, p) is Some) ==> claims_fit(
                    name@,
                    task_names_in(ts, p),
                ),
                None => true,
            },
            TaskCommands::Rename { id, name } => match uuid_value(id@) {
                Some(u) => match find_task(ts, u) {
                    Some(found) => claims_fit(name@, task_names_in(ts, found.project_id)),
                    None => true,
                },
                None => true,
            },
            TaskCommands::Assign { id, project_id } => match (uuid_value(id@), uuid_value(project_id@)) {
                (Some(u), Some(p)) => match find_task(ts, u) {
                    Some(found) => claims_fit(found.name@, task_names_in(ts, p)),
                    None => true,
                },
                _ => true,
            },
            _ => true,
        }
    }

    /// Whether running the command took `before` to `after` with the result `r`.
    pub open spec fn ran(&self, before: AppContext, after: AppContext, r: Result<CliReport, CliError>) -> bool {
        let ts = before.task_service.task_repository@;
        let ts2 = after.task_service.task_repository@;
        let tps = before.task_service.project_repository@;
        &&& before.unchanged_except(after, false, true, false)
        &&& match self {
            TaskCommands::Create { name, project_id } => match uuid_value(project_id@) {
                None => r == Err::<CliReport, CliError>(CliError::InvalidId) && ts2 == ts,
                Some(p) => if name@.len() == 0 {
                    r == Err::<CliReport, CliError>(CliError::Failed(AppError::EmptyName)) && ts2 == ts
                } else if find_project(tps, p) is None {
                    r == Err::<CliReport, CliError>(CliError::Failed(AppError::ProjectNotFound)) && ts2
                        == ts
                } else {
                    r matches Ok(CliReport::TaskCreated(t)) && is_new_task(
                        t,
                        unique_name(name@, task_names_in(ts, p)),
                        p,
                        t.id,
                        t.created_at,
                    ) && t.id != 0 && uuid_version(t.id) == 4 && in_chrono_range(t.created_at) && !has_task(
                        ts,
                        t.id,
                    ) && ts2 == ts.push(t)
                },
            },
            TaskCommands::List { include_archived } => r matches Ok(CliReport::TaskList(v)) && v@ == (
            if *include_archived {
                ts
            } else {
                ts.filter(task_is_listed(false))
            }) && ts2 == ts,
            TaskCommands::Archive { name } => match first_named(ts.filter(task_is_listed(false)), name@) {
                None => r matches Ok(CliReport::TaskNameNotFound(n)) && n@ == name@ && ts2 == ts,
                Some(t) => match find_task(ts, t.id) {
                    None => r == Err::<CliReport, CliError>(CliError::Failed(AppError::TaskNotFound))
                        && ts2 == ts,
                    Some(found) => r == Ok::<CliReport, CliError>(CliReport::TaskArchived(t)) && exists|a: Task|
                        is_restated_task(a, found, found.time_limit, true, a.updated_at) && in_chrono_range(
                            a.updated_at,
                        ) && ts2 == replace_task(ts, a),
                },
            },
            TaskCommands::Unarchive { name } => match first_named(ts, name@) {
                None => r matches Ok(CliReport::TaskNameNotFound(n)) && n@ == name@ && ts2 == ts,
                Some(t) => match find_task(ts, t.id) {
                    None => r == Err::<CliReport, CliError>(CliError::Failed(AppError::TaskNotFound))
                        && ts2 == ts,
                    Some(found) => r == Ok::<CliReport, CliError>(CliReport::TaskUnarchived(t)) && exists|a: Task|
                        is_restated_task(a, found, found.time_limit, false, a.updated_at) && in_chrono_range(
                            a.updated_at,
                        ) && ts2 == replace_task(ts, a),
                },
            },
            TaskCommands::Delete { id } => match uuid_value(id@) {
                None => r == Err::<CliReport, CliError>(CliError::InvalidId) && ts2 == ts,
                Some(u) => match find_task(ts, u) {
                    None => r == Err::<CliReport, CliError>(CliError::Failed(AppError::TaskNotFound))
                        && ts2 == ts,
                    Some(_) => r == Ok::<CliReport, CliError>(CliReport::TaskDeleted(u)) && ts2 == ts.filter(
                        task_id_is_not(u),
                    ),
                },
            },
            TaskCommands::Rename { id, name } => match uuid_value(id@) {
                None => r == Err::<CliReport, CliError>(CliError::InvalidId) && ts2 == ts,
                Some(u) => match find_task(ts, u) {
                    None => r == Err::<CliReport, CliError>(CliError::Failed(AppError::TaskNotFound))
                        && ts2 == ts,
                    Some(found) => r matches Ok(CliReport::TaskRenamed(t)) && is_changed_task(
                        t,
                        found,
                        unique_name(name@, task_names_in(ts, found.project_id)),
                        found.project_id,
                        t.updated_at,
                    ) && in_chrono_range(t.updated_at) && ts2 == replace_task(ts, t),
                },
            },
            TaskCommands::EditTimeLimit { id, time_limit } => match uuid_value(id@) {
                None => r == Err::<CliReport, CliError>(CliError::InvalidId) && ts2 == ts,
                Some(u) => match find_task(ts, u) {
                    None => r == Err::<CliReport, CliError>(CliError::Failed(AppError::TaskNotFound))
                        && ts2 == ts,
                    Some(found) => r matches Ok(CliReport::TaskTimeLimitSet(t)) && is_restated_task(
                        t,
                        found,
                        limit_of(*time_limit),
                        found.is_archived,
                        t.updated_at,
                    ) && in_chrono_range(t.updated_at) && ts2 == replace_task(ts, t),
                },
            },
            TaskCommands::Assign { id, project_id } => match (uuid_value(id@), uuid_value(project_id@)) {
                (Some(u), Some(p)) => if find_project(tps, p) is None {
                    r == Err::<CliReport, CliError>(CliError::Failed(AppError::ProjectNotFound)) && ts2
                        == ts
                } else {
                    match find_task(ts, u) {
                        None => r == Err::<CliReport, CliError>(CliError::Failed(AppError::TaskNotFound))
                            && ts2 == ts,
                        Some(found) => r matches Ok(CliReport::TaskAssigned(t)) && is_changed_task(
                            t,
                            found,
                            unique_name(found.name@, task_names_in(ts, p)),
                            p,
                            t.updated_at,
                        ) && in_chrono_range(t.updated_at) && ts2 == replace_task(ts, t),
                    }
                },
                _ => r == Err::<CliReport, CliError>(CliError::InvalidId) && ts2 == ts,
            },
        }
    }

    /// Whether the names that the command makes unique carry no suffix too
    /// large to count past (see [`Self::names_fit`]).
    pub fn check_names(&self, app: &AppContext) -> (r: bool)
        ensures
            r == self.names_fit(*app),
    {
        match self {
            TaskCommands::Create { name, project_id } => {
                if name.as_str().unicode_len() == 0 {
                    return true;
                }
                let p = match parse_uuid(project_id.as_str()) {
                    Some(p) => p,
                    None => {
                        return true;
                    },
                };
                if app.task_service.project_repository.find_by_id(p).is_none() {
                    return true;
                }
                let tasks = app.task_service.task_repository.find_all(true);
                let names = task_name_list_in(&tasks, p);
                name_suffixes_fit(name.as_str(), names.as_slice())
            },
            TaskCommands::Rename { id, name } => {
                let u = match parse_uuid(id.as_str()) {
                    Some(u) => u,
                    None => {
                        return true;
                    },
                };
                let found = match app.task_service.task_repository.find_by_id(u) {
                    Some(t) => t,
                    None => {
                        return true;
                    },
                };
                let tasks = app.task_service.task_repository.find_all(true);
                let names = task_name_list_in(&tasks, found.project_id);
                name_suffixes_fit(name.as_str(), names.as_slice())
            },
            TaskCommands::Assign { id, project_id } => {
                let u = match parse_uuid(id.as_str()) {
                    Some(u) => u,
                    None => {
                        return true;
                    },
                };
                let p = match parse_uuid(project_id.as_str()) {
                    Some(p) => p,
                    None => {
                        return true;
                    },
                };
                let found = match app.task_service.task_repository.find_by_id(u) {
                    Some(t) => t,
                    None => {
                        return true;
                    },
                };
                let tasks = app.task_service.task_repository.find_all(true);
                let names = task_name_list_in(&tasks, p);
                name_suffixes_fit(found.name.as_str(), names.as_slice())
            },
            _ => true,
        }
    }

    /// Runs the command (see [`Self::ran`]).
    pub fn run(&self, app: &mut AppContext) -> (r: Result<CliReport, CliError>)
        requires
            old(app).in_step(),
            self.names_fit(*old(app)),
        ensures
            self.ran(*old(app), *final(app), r),
    {
        match self {
            TaskCommands::Create { name, project_id } => {
                let p = match parse_uuid(project_id.as_str()) {
                    Some(p) => p,
                    None => {
                        return Err(CliError::InvalidId);
                    },
                };
                match app.task_service.create(name.as_str(), &p) {
                    Ok(task) => Ok(CliReport::TaskCreated(task)),
                    Err(e) => Err(CliError::Failed(e)),
                }
            },
            TaskCommands::List { include_archived } => {
                let tasks = app.task_service.task_repository.find_all(*include_archived);
                Ok(CliReport::TaskList(tasks))
            },
            TaskCommands::Archive { name } => {
                let tasks = app.task_service.task_repository.find_all(false);
                match find_named(&tasks, name.as_str()) {
                    Some(task) => {
                        match app.task_service.archive_task(task.id) {
                            Ok(_) => Ok(CliReport::TaskArchived(task)),
                            Err(e) => Err(CliError::Failed(e)),
                        }
                    },
                    None => Ok(CliReport::TaskNameNotFound(name.clone())),
                }
            },
            TaskCommands::Unarchive { name } => {
                let tasks = app.task_service.task_repository.find_all(true);
                match find_named(&tasks, name.as_str()) {
                    Some(task) => {
                        match app.task_service.unarchive_task(task.id) {
                            Ok(_) => Ok(CliReport::TaskUnarchived(task)),
                            Err(e) => Err(CliError::Failed(e)),
                        }
                    },
                    None => Ok(CliReport::TaskNameNotFound(name.clone())),
                }
            },
            TaskCommands::Delete { id } => {
                let u = match parse_uuid(id.as_str()) {
                    Some(u) => u,
                    None => {
                        return Err(CliError::InvalidId);
                    },
                };
                match app.task_service.delete(u) {
                    Ok(()) => Ok(CliReport::TaskDeleted(u)),
                    Err(e) => Err(CliError::Failed(e)),
                }
            },
            TaskCommands::Rename { id, name } => {
                let u = match parse_uuid(id.as_str()) {
                    Some(u) => u,
                    None => {
                        return Err(CliError::InvalidId);
                    },
                };
                match app.task_service.edit_task_name(u, name.as_str()) {
                    Ok(task) => Ok(CliReport::TaskRenamed(task)),
                    Err(e) => Err(CliError::Failed(e)),
                }
            },
            TaskCommands::EditTimeLimit { id, time_limit } => {
                let u = match parse_uuid(id.as_str()) {
                    Some(u) => u,
                    None => {
                        return Err(CliError::InvalidId);
                    },
                };
                let limit = if *time_limit > 0 {
                    Some(*time_limit)
                } else {
                    None
                };
                let edited = match app.task_service.edit_time_limit(u, limit) {
                    Ok(task) => task,
                    Err(e) => {
                        return Err(CliError::Failed(e));
                    },
                };
                proof {
                    lemma_find_task(old(app).task_service.task_repository@, u);
                    lemma_updated_task_is_found(old(app).task_service.task_repository@, edited);
                }
                match app.task_service.find_by_id(u) {
                    Ok(task) => Ok(CliReport::TaskTimeLimitSet(task)),
                    Err(e) => Err(CliError::Failed(e)),
                }
            },
            TaskCommands::Assign { id, project_id } => {
                let u = match parse_uuid(id.as_str()) {
                    Some(u) => u,
                    None => {
                        return Err(CliError::InvalidId);
                    },
                };
                let p = match parse_uuid(project_id.as_str()) {
                    Some(p) => p,
                    None => {
                        return Err(CliError::InvalidId);
                    },
                };
                match app.task_service.edit_task_project_relation(u, p) {
                    Ok(task) => Ok(CliReport::TaskAssigned(task)),
                    Err(e) => Err(CliError::Failed(e)),
                }
            },
        }
    }
}

impl TimerCommands {
    /// Whether running the command took `before` to `after` with the result `r`.
    pub open spec fn ran(&self, before: AppContext, after: AppContext, r: Result<CliReport, CliError>) -> bool {
        let es = before.time_entry_service.time_entry_repository@;
        let es2 = after.time_entry_service.time_entry_repository@;
        let timer = before.time_entry_service.active_timer_repository@;
        let timer2 = after.time_entry_service.active_timer_repository@;
        let tts = before.time_entry_service.task_repository@;
        &&& before.unchanged_except(after, false, false, true)
        &&& match self {
            TimerCommands::Start { task_id } => es2 == es && match uuid_value(task_id@) {
                None => r == Err::<CliReport, CliError>(CliError::InvalidId) && timer2 == timer,
                Some(u) => if timer is Some {
                    r == Err::<CliReport, CliError>(CliError::Failed(AppError::TimerAlreadyRunning))
                        && timer2 == timer
                } else if find_task(tts, u) is None {
                    r == Err::<CliReport, CliError>(CliError::Failed(AppError::TaskNotFound)) && timer2
                        == timer
                } else {
                    r == Ok::<CliReport, CliError>(CliReport::TimerStarted(u)) && (timer2 matches Some(a)
                        && a.task_id == u && in_chrono_range(a.start_time))
                },
            },
            TimerCommands::Stop => match timer {
                None => r == Err::<CliReport, CliError>(CliError::Failed(AppError::NoActiveTimer)) && es2
                    == es && timer2 == timer,
                Some(a) => r == Ok::<CliReport, CliError>(CliReport::TimerStopped) && timer2 is None
                    && exists|e: TimeEntry|
                    e == new_entry(e.id, a.task_id, a.start_time, e.end_time, e.end_time) && e.id != 0
                        && uuid_version(e.id) == 4 && in_chrono_range(e.end_time) && !has_time_entry(es, e.id)
                        && es2 == es.push(e),
            },
        }
    }

    /// Runs the command (see [`Self::ran`]).
    pub fn run(&self, app: &mut AppContext) -> (r: Result<CliReport, CliError>)
        requires
            old(app).in_step(),
        ensures
            self.ran(*old(app), *final(app), r),
    {
        match self {
            TimerCommands::Start { task_id } => {
                let u = match parse_uuid(task_id.as_str()) {
                    Some(u) => u,
                    None => {
                        return Err(CliError::InvalidId);
                    },
                };
                match app.time_entry_service.start_timer(u) {
                    Ok(_) => Ok(CliReport::TimerStarted(u)),
                    Err(e) => Err(CliError::Failed(e)),
                }
            },
            TimerCommands::Stop => {
                match app.time_entry_service.stop_timer() {
                    Ok(_) => Ok(CliReport::TimerStopped),
                    Err(e) => Err(CliError::Failed(e)),
                }
            },
        }
    }
}

/// The point in time that the texts of a UTC year, month, day, hour and minute
/// name: each must read as a number (`str::parse`), and together they must
/// name a date and time.
pub open spec fn utc_of_parts(year: Seq<char>, month: Seq<char>, day: Seq<char>, hour: Seq<char>, minute: Seq<char>) -> Option<i64> {
    match (parse_i32(year), parse_u32(month), parse_u32(day), parse_u32(hour), parse_u32(minute)) {
        (Some(y), Some(mo), Some(d), Some(h), Some(mi)) => utc_datetime_value(y, mo, d, h, mi),
        _ => None,
    }
}

impl EntryCommands {
    /// The point in time that the texts of a UTC year, month, day, hour and
    /// minute name (see [`utc_of_parts`]); `None` when they name none.
    pub fn to_utc(&self, year: &str, month: &str, day: &str, hour: &str, minute: &str) -> (r: Option<i64>)
        ensures
            r == utc_of_parts(year@, month@, day@, hour@, minute@),
            r matches Some(t) ==> in_chrono_range(t),
    {
        let year = match parse_i32_text(year) {
            Some(v) => v,
            None => {
                return None;
            },
        };
        let month = match parse_u32_text(month) {
            Some(v) => v,
            None => {
                return None;
            },
        };
        let day = match parse_u32_text(day) {
            Some(v) => v,
            None => {
                return None;
            },
        };
        let hour = match parse_u32_text(hour) {
            Some(v) => v,
            None => {
                return None;
            },
        };
        let minute = match parse_u32_text(minute) {
            Some(v) => v,
            None => {
                return None;
            },
        };
        utc_from_parts(year, month, day, hour, minute)
    }

    /// Whether running the command took `before` to `after` with the result `r`.
    pub open spec fn ran(&self, before: AppContext, after: AppContext, r: Result<CliReport, CliError>) -> bool {
        let es = before.time_entry_service.time_entry_repository@;
        let es2 = after.time_entry_service.time_entry_repository@;
        let tts = before.time_entry_service.task_repository@;
        let ts = before.task_service.task_repository@;
        &&& before.unchanged_except(after, false, false, true)
        &&& after.time_entry_service.active_timer_repository@
            == before.time_entry_service.active_timer_repository@
        &&& match self {
            EntryCommands::Create {
                task_id,
                start_year,
                start_month,
                start_day,
                start_hour,
                start_minute,
                end_year,
                end_month,
                end_day,
                end_hour,
                end_minute,
            } => match uuid_value(task_id@) {
                None => r == Err::<CliReport, CliError>(CliError::InvalidId) && es2 == es,
                Some(u) => match (
                    utc_of_parts(start_year@, start_month@, start_day@, start_hour@, start_minute@),
                    utc_of_parts(end_year@, end_month@, end_day@, end_hour@, end_minute@),
                ) {
                    (Some(start), Some(end)) => if find_task(tts, u) is None {
                        r == Err::<CliReport, CliError>(CliError::Failed(AppError::TaskNotFound)) && es2
                            == es
                    } else if start >= end {
                        r == Err::<CliReport, CliError>(CliError::Failed(AppError::InvalidTimeRange))
                            && es2 == es
                    } else {
                        r matches Ok(CliReport::EntryCreated(e)) && e == new_entry(
                            e.id,
                            u,
                            start,
                            end,
                            e.created_at,
                        ) && e.id != 0 && uuid_version(e.id) == 4 && in_chrono_range(e.created_at)
                            && !has_time_entry(es, e.id) && es2 == es.push(e)
                    },
                    _ => r == Err::<CliReport, CliError>(CliError::InvalidDateTime) && es2 == es,
                },
            },
            EntryCommands::List { task_id } => es2 == es && match uuid_value(task_id@) {
                None => r == Err::<CliReport, CliError>(CliError::InvalidId),
                Some(u) => match task_lookup(ts, u) {
                    Err(e) => r == Err::<CliReport, CliError>(CliError::Failed(e)),
                    Ok(task) => if find_task(tts, u) is None {
                        r == Err::<CliReport, CliError>(CliError::Failed(AppError::TaskNotFound))
                    } else {
                        r matches Ok(CliReport::EntryList(t, v)) && t == task && v@ == es.filter(
                            time_entry_of_task(u),
                        )
                    },
                },
            },
            EntryCommands::Delete { id } => match uuid_value(id@) {
                None => r == Err::<CliReport, CliError>(CliError::InvalidId) && es2 == es,
                Some(u) => match find_time_entry(es, u) {
                    None => r == Err::<CliReport, CliError>(CliError::Failed(AppError::TimeEntryNotFound))
                        && es2 == es,
                    Some(_) => r matches Ok(CliReport::EntryDeleted(t)) && t@ == id@ && es2 == es.filter(
                        time_entry_id_is_not(u),
                    ),
                },
            },
            EntryCommands::Assign { id, task_id } => match (uuid_value(id@), uuid_value(task_id@)) {
                (Some(u), Some(k)) => match task_lookup(ts, k) {
                    Err(e) => r == Err::<CliReport, CliError>(CliError::Failed(e)) && es2 == es,
                    Ok(task) => if find_task(tts, k) is None {
                        r == Err::<CliReport, CliError>(CliError::Failed(AppError::TaskNotFound)) && es2
                            == es
                    } else {
                        match find_time_entry(es, u) {
                            None => r == Err::<CliReport, CliError>(
                                CliError::Failed(AppError::TimeEntryNotFound),
                            ) && es2 == es,
                            Some(found) => r matches Ok(CliReport::EntryAssigned(e, t)) && t == task && e
                                == (TimeEntry { task_id: k, updated_at: e.updated_at, ..found })
                                && in_chrono_range(e.updated_at) && es2 == replace_time_entry(es, e),
                        }
                    },
                },
                _ => r == Err::<CliReport, CliError>(CliError::InvalidId) && es2 == es,
            },
            EntryCommands::Edit {
                id,
                start_year,
                start_month,
                start_day,
                start_hour,
                start_minute,
                end_year,
                end_month,
                end_day,
                end_hour,
                end_minute,
            } => match uuid_value(id@) {
                None => r == Err::<CliReport, CliError>(CliError::InvalidId) && es2 == es,
                Some(u) => match (
                    utc_of_parts(start_year@, start_month@, start_day@, start_hour@, start_minute@),
                    utc_of_parts(end_year@, end_month@, end_day@, end_hour@, end_minute@),
                ) {
                    (Some(start), Some(end)) => if end < start {
                        r == Err::<CliReport, CliError>(CliError::Failed(AppError::InvalidTimeRange))
                            && es2 == es
                    } else {
                        match find_time_entry(es, u) {
                            None => r == Err::<CliReport, CliError>(
                                CliError::Failed(AppError::TimeEntryNotFound),
                            ) && es2 == es,
                            Some(found) => r matches Ok(CliReport::EntryEdited(e)) && e == (TimeEntry {
                                start_time: start,
                                end_time: end,
                                updated_at: e.updated_at,
                                ..found
                            }) && in_chrono_range(e.updated_at) && es2 == replace_time_entry(es, e),
                        }
                    },
                    _ => r == Err::<CliReport, CliError>(CliError::InvalidDateTime) && es2 == es,
                },
            },
        }
    }

    /// Runs the command (see [`Self::ran`]).
    pub fn run(&self, app: &mut AppContext) -> (r: Result<CliReport, CliError>)
        requires
            old(app).in_step(),
        ensures
            self.ran(*old(app), *final(app), r),
    {
        match self {
            EntryCommands::Create {
                task_id,
                start_year,
                start_month,
                start_day,
                start_hour,
                start_minute,
                end_year,
                end_month,
                end_day,
                end_hour,
                end_minute,
            } => {
                let u = match parse_uuid(task_id.as_str()) {
                    Some(u) => u,
                    None => {
                        return Err(CliError::InvalidId);
                    },
                };
                let start = match self.to_utc(
                    start_year.as_str(),
                    start_month.as_str(),
                    start_day.as_str(),
                    start_hour.as_str(),
                    start_minute.as_str(),
                ) {
                    Some(t) => t,
                    None => {
                        return Err(CliError::InvalidDateTime);
                    },
                };
                let end = match self.to_utc(
                    end_year.as_str(),
                    end_month.as_str(),
                    end_day.as_str(),
                    end_hour.as_str(),
                    end_minute.as_str(),
                ) {
                    Some(t) => t,
                    None => {
                        return Err(CliError::InvalidDateTime);
                    },
                };
                match app.time_entry_service.create_manual(start, end, u) {
                    Ok(entry) => Ok(CliReport::EntryCreated(entry)),
                    Err(e) => Err(CliError::Failed(e)),
                }
            },
            EntryCommands::List { task_id } => {
                let u = match parse_uuid(task_id.as_str()) {
                    Some(u) => u,
                    None => {
                        return Err(CliError::InvalidId);
                    },
                };
                let task = match app.task_service.find_by_id(u) {
                    Ok(task) => task,
                    Err(e) => {
                        return Err(CliError::Failed(e));
                    },
                };
                match app.time_entry_service.find_all_entries_of_task(u) {
                    Ok(entries) => Ok(CliReport::EntryList(task, entries)),
                    Err(e) => Err(CliError::Failed(e)),
                }
            },
            EntryCommands::Delete { id } => {
                let u = match parse_uuid(id.as_str()) {
                    Some(u) => u,
                    None => {
                        return Err(CliError::InvalidId);
                    },
                };
                match app.time_entry_service.delete(u) {
                    Ok(()) => Ok(CliReport::EntryDeleted(id.clone())),
                    Err(e) => Err(CliError::Failed(e)),
                }
            },
            EntryCommands::Assign { id, task_id } => {
                let u = match parse_uuid(id.as_str()) {
                    Some(u) => u,
                    None => {
                        return Err(CliError::InvalidId);
                    },
                };
                let k = match parse_uuid(task_id.as_str()) {
                    Some(k) => k,
                    None => {
                        return Err(CliError::InvalidId);
                    },
                };
                let task = match app.task_service.find_by_id(k) {
                    Ok(task) => task,
                    Err(e) => {
                        return Err(CliError::Failed(e));
                    },
                };
                match app.time_entry_service.assign_time_entry(u, k) {
                    Ok(entry) => Ok(CliReport::EntryAssigned(entry, task)),
                    Err(e) => Err(CliError::Failed(e)),
                }
            },
            EntryCommands::Edit {
                id,
                start_year,
                start_month,
                start_day,
                start_hour,
                start_minute,
                end_year,
                end_month,
                end_day,
                end_hour,
                end_minute,
            } => {
                let u = match parse_uuid(id.as_str()) {
                    Some(u) => u,
                    None => {
                        return Err(CliError::InvalidId);
                    },
                };
                let start = match self.to_utc(
                    start_year.as_str(),
                    start_month.as_str(),
                    start_day.as_str(),
                    start_hour.as_str(),
                    start_minute.as_str(),
                ) {
                    Some(t) => t,
                    None => {
                        return Err(CliError::InvalidDateTime);
                    },
                };
                let end = match self.to_utc(
                    end_year.as_str(),
                    end_month.as_str(),
                    end_day.as_str(),
                    end_hour.as_str(),
                    end_minute.as_str(),
                ) {
                    Some(t) => t,
                    None => {
                        return Err(CliError::InvalidDateTime);
                    },
                };
                match app.time_entry_service.edit_time_entry(u, start, end) {
                    Ok(entry) => Ok(CliReport::EntryEdited(entry)),
                    Err(e) => Err(CliError::Failed(e)),
                }
            },
        }
    }
}

impl Cli {
    /// Whether running the command took `before` to `after` with the result
    /// `r`. A command whose names carry a suffix too large to count past is
    /// refused with `NameSuffixOverflow` and changes nothing.
    pub open spec fn ran(&self, before: AppContext, after: AppContext, r: Result<CliReport, CliError>) -> bool {
        match self.command {
            None => r == Err::<CliReport, CliError>(CliError::NoCommand) && before.unchanged_except(
                after,
                false,
                false,
                false,
            ),
            Some(Command::Project(c)) => if c.names_fit(before) {
                c.ran(before, after, r)
            } else {
                r == Err::<CliReport, CliError>(CliError::NameSuffixOverflow) && before.unchanged_except(
                    after,
                    false,
                    false,
                    false,
                )
            },
            Some(Command::Tasks(c)) => if c.names_fit(before) {
                c.ran(before, after, r)
            } else {
                r == Err::<CliReport, CliError>(CliError::NameSuffixOverflow) && before.unchanged_except(
                    after,
                    false,
                    false,
                    false,
                )
            },
            Some(Command::Entry(c)) => c.ran(before, after, r),
            Some(Command::Timer(c)) => c.ran(before, after, r),
        }
    }

    /// Runs the command given (see [`Self::ran`]), then brings every service
    /// in line with the stores the command changed, so that the next command
    /// can run; with no command given, the request is refused with
    /// `NoCommand`.
    pub fn run(&self, app: &mut AppContext) -> (r: Result<CliReport, CliError>)
        requires
            old(app).in_step(),
        ensures
            final(app).in_step(),
            exists|after: AppContext| #[trigger] self.ran(*old(app), after, r) && after.same_stores(*final(app)),
    {
        let r = self.run_command(app);
        let ghost after = *app;
        app.sync();
        assert(self.ran(*old(app), after, r) && after.same_stores(*app));
        r
    }

    /// Runs the command given (see [`Self::ran`]), leaving the other services'
    /// copies of the stores as they were.
    fn run_command(&self, app: &mut AppContext) -> (r: Result<CliReport, CliError>)
        requires
            old(app).in_step(),
        ensures
            self.ran(*old(app), *final(app), r),
    {
        match &self.command {
            None => Err(CliError::NoCommand),
            Some(Command::Project(command)) => {
                if !command.check_names(app) {
                    return Err(CliError::NameSuffixOverflow);
                }
                command.run(app)
            },
            Some(Command::Tasks(command)) => {
                if !command.check_names(app) {
                    return Err(CliError::NameSuffixOverflow);
                }
                command.run(app)
            },
            Some(Command::Entry(command)) => command.run(app),
            Some(Command::Timer(command)) => command.run(app),
        }
    }
}

} // verus!
