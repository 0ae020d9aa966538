//! What the CSV export writes and what the import does with what it reads.
//!
//! The export writes one row per project, task and time entry, in the order
//! in which they are stored. The import reads the rows in order and stores
//! each record unless a copy of it that was updated at the same time or later
//! is stored; the first row that does not read back as a record ends the
//! import, and the rows before it stay imported.

use crate::clock::in_chrono_range;
use crate::config::{ends_with, is_plain_file_name, is_verbatim_path, join_path, starts_with};
use crate::csv_rows::{
    is_project_row, is_task_row, is_time_entry_row, project_of_row, task_of_row,
    time_entry_of_row, ProjectCsvRow, RowError, TaskCsvRow, TimeEntryCsvRow,
};
use crate::in_memory_project_repository::{project_ids, upsert_project};
use crate::in_memory_task_repository::{task_ids, upsert_task};
use crate::in_memory_time_entry_repository::{time_entry_ids, upsert_time_entry};
use crate::records::lemma_first_index;
use crate::project_service::ProjectService;
use crate::task_service::TaskService;
use crate::time_entry_service::TimeEntryService;
use crate::types::{Project, Task, TimeEntry};
use vstd::prelude::*;

verus! {

/// Whether chrono represents every time of every project.
pub open spec fn projects_in_chrono_range(s: Seq<Project>) -> bool {
    forall|i: int|
        0 <= i < s.len() ==> in_chrono_range(#[trigger] s[i].created_at) && in_chrono_range(
            s[i].updated_at,
        )
}

/// Whether chrono represents every time of every task.
pub open spec fn tasks_in_chrono_range(s: Seq<Task>) -> bool {
    forall|i: int|
        0 <= i < s.len() ==> in_chrono_range(#[trigger] s[i].created_at) && in_chrono_range(
            s[i].updated_at,
        )
}

/// Whether chrono represents every time of every time entry.
pub open spec fn time_entries_in_chrono_range(s: Seq<TimeEntry>) -> bool {
    forall|i: int|
        0 <= i < s.len() ==> {
            &&& in_chrono_range(#[trigger] s[i].start_time)
            &&& in_chrono_range(s[i].end_time)
            &&& in_chrono_range(s[i].created_at)
            &&& in_chrono_range(s[i].updated_at)
        }
}

/// The rows of `projects.csv`: one per stored project, in order.
pub fn export_project_rows(service: &ProjectService) -> (r: Vec<ProjectCsvRow>)
    requires
        projects_in_chrono_range(service.project_repository@),
    ensures
        r@.len() == service.project_repository@.len(),
        forall|i: int|
            0 <= i < r@.len() ==> is_project_row(#[trigger] r@[i], service.project_repository@[i]),
{
    let projects = service.project_repository.find_all();
    let mut rows: Vec<ProjectCsvRow> = Vec::new();
    let mut i: usize = 0;
    while i < projects.len()
        invariant
            projects@ == service.project_repository@,
            projects_in_chrono_range(projects@),
            0 <= i <= projects@.len(),
            rows@.len() == i,
            forall|j: int| 0 <= j < i ==> is_project_row(#[trigger] rows@[j], projects@[j]),
        decreases projects@.len() - i,
    {
        assert(in_chrono_range(projects@[i as int].created_at));
        rows.push(ProjectCsvRow::from_project(projects[i].clone()));
        i += 1;
    }
    rows
}

/// The rows of `tasks.csv`: one per stored task, archived ones too, in order.
pub fn export_task_rows(service: &TaskService) -> (r: Vec<TaskCsvRow>)
    requires
        tasks_in_chrono_range(service.task_repository@),
    ensures
        r@.len() == service.task_repository@.len(),
        forall|i: int| 0 <= i < r@.len() ==> is_task_row(#[trigger] r@[i], service.task_repository@[i]),
{
    let tasks = service.task_repository.find_all(true);
    let mut rows: Vec<TaskCsvRow> = Vec::new();
    let mut i: usize = 0;
    while i < tasks.len()
        invariant
            tasks@ == service.task_repository@,
            tasks_in_chrono_range(tasks@),
            0 <= i <= tasks@.len(),
            rows@.len() == i,
            forall|j: int| 0 <= j < i ==> is_task_row(#[trigger] rows@[j], tasks@[j]),
        decreases tasks@.len() - i,
    {
        assert(in_chrono_range(tasks@[i as int].created_at));
        rows.push(TaskCsvRow::from_task(tasks[i].clone()));
        i += 1;
    }
    rows
}

/// The rows of `time_entries.csv`: one per stored time entry, in order.
pub fn export_time_entry_rows(service: &TimeEntryService) -> (r: Vec<TimeEntryCsvRow>)
    requires
        time_entries_in_chrono_range(service.time_entry_repository@),
    ensures
        r@.len() == service.time_entry_repository@.len(),
        forall|i: int|
            0 <= i < r@.len() ==> is_time_entry_row(
                #[trigger] r@[i],
                service.time_entry_repository@[i],
            ),
{
    let entries = service.time_entry_repository.find_all();
    let mut rows: Vec<TimeEntryCsvRow> = Vec::new();
    let mut i: usize = 0;
    while i < entries.len()
        invariant
            entries@ == service.time_entry_repository@,
            time_entries_in_chrono_range(entries@),
            0 <= i <= entries@.len(),
            rows@.len() == i,
            forall|j: int| 0 <= j < i ==> is_time_entry_row(#[trigger] rows@[j], entries@[j]),
        decreases entries@.len() - i,
    {
        assert(in_chrono_range(entries@[i as int].start_time));
        rows.push(TimeEntryCsvRow::from_time_entry(entries[i]));
        i += 1;
    }
    rows
}

/// The projects after importing `rows` into `s`, and how the import ended:
/// each row in order is read back and stored with [`upsert_project`], until
/// the first row that does not read back, whose reason ends the import.
pub open spec fn import_projects(s: Seq<Project>, rows: Seq<ProjectCsvRow>) -> (Seq<Project>, Result<(), RowError>)
    decreases rows.len(),
{
    if rows.len() == 0 {
        (s, Ok(()))
    } else {
        let (before, outcome) = import_projects(s, rows.drop_last());
        match outcome {
            Err(e) => (before, Err(e)),
            Ok(_) => match project_of_row(rows.last()) {
                Err(e) => (before, Err(e)),
                Ok(p) => (upsert_project(before, p), Ok(())),
            },
        }
    }
}

/// Once the import of a prefix of the rows has ended with an error, the
/// import of all of them ends the same way with the same records.
proof fn lemma_import_projects_stops(s: Seq<Project>, rows: Seq<ProjectCsvRow>, k: int)
    requires
        0 <= k <= rows.len(),
        import_projects(s, rows.take(k)).1 is Err,
    ensures
        import_projects(s, rows) == import_projects(s, rows.take(k)),
    decreases rows.len(),
{
    if k < rows.len() {
        assert(rows.drop_last().take(k) =~= rows.take(k));
        lemma_import_projects_stops(s, rows.drop_last(), k);
    } else {
        assert(rows.take(k) =~= rows);
    }
}

/// Imports the rows of `projects.csv` (see [`import_projects`]).
pub fn import_project_rows(service: &mut ProjectService, rows: &Vec<ProjectCsvRow>) -> (r: Result<(), RowError>)
    ensures
        (final(service).project_repository@, r) == import_projects(old(service).project_repository@, rows@),
{
    let ghost s = service.project_repository@;
    let mut i: usize = 0;
    while i < rows.len()
        invariant
            0 <= i <= rows@.len(),
            s == old(service).project_repository@,
            import_projects(s, rows@.take(i as int)) == (service.project_repository@, Ok::<(), RowError>(())),
        decreases rows@.len() - i,
    {
        assert(rows@.take(i + 1).drop_last() =~= rows@.take(i as int));
        assert(rows@.take(i + 1).last() == rows@[i as int]);
        match rows[i].clone().into_project() {
            Ok(project) => {
                let _ = service.upsert(project);
            },
            Err(e) => {
                proof {
                    lemma_import_projects_stops(s, rows@, i + 1);
                }
                return Err(e);
            },
        }
        i += 1;
    }
    assert(rows@.take(rows@.len() as int) =~= rows@);
    Ok(())
}

/// The tasks after importing `rows` into `s`, and how the import ended: each
/// row in order is read back and stored with [`upsert_task`], until the first
/// row that does not read back, whose reason ends the import.
pub open spec fn import_tasks(s: Seq<Task>, rows: Seq<TaskCsvRow>) -> (Seq<Task>, Result<(), RowError>)
    decreases rows.len(),
{
    if rows.len() == 0 {
        (s, Ok(()))
    } else {
        let (before, outcome) = import_tasks(s, rows.drop_last());
        match outcome {
            Err(e) => (before, Err(e)),
            Ok(_) => match task_of_row(rows.last()) {
                Err(e) => (before, Err(e)),
                Ok(t) => (upsert_task(before, t), Ok(())),
            },
        }
    }
}

/// Once the import of a prefix of the rows has ended with an error, the
/// import of all of them ends the same way with the same records.
proof fn lemma_import_tasks_stops(s: Seq<Task>, rows: Seq<TaskCsvRow>, k: int)
    requires
        0 <= k <= rows.len(),
        import_tasks(s, rows.take(k)).1 is Err,
    ensures
        import_tasks(s, rows) == import_tasks(s, rows.take(k)),
    decreases rows.len(),
{
    if k < rows.len() {
        assert(rows.drop_last().take(k) =~= rows.take(k));
        lemma_import_tasks_stops(s, rows.drop_last(), k);
    } else {
        assert(rows.take(k) =~= rows);
    }
}

/// Imports the rows of `tasks.csv` (see [`import_tasks`]).
pub fn import_task_rows(service: &mut TaskService, rows: &Vec<TaskCsvRow>) -> (r: Result<(), RowError>)
    ensures
        (final(service).task_repository@, r) == import_tasks(old(service).task_repository@, rows@),
        final(service).project_repository@ == old(service).project_repository@,
{
    let ghost s = service.task_repository@;
    let ghost projects = service.project_repository@;
    let mut i: usize = 0;
    while i < rows.len()
        invariant
            0 <= i <= rows@.len(),
            import_tasks(s, rows@.take(i as int)) == (service.task_repository@, Ok::<(), RowError>(())),
            s == old(service).task_repository@,
            projects == old(service).project_repository@,
            service.project_repository@ == projects,
        decreases rows@.len() - i,
    {
        assert(rows@.take(i + 1).drop_last() =~= rows@.take(i as int));
        assert(rows@.take(i + 1).last() == rows@[i as int]);
        match rows[i].clone().into_task() {
            Ok(task) => {
                let _ = service.upsert(task);
            },
            Err(e) => {
                proof {
                    lemma_import_tasks_stops(s, rows@, i + 1);
                }
                return Err(e);
            },
        }
        i += 1;
    }
    assert(rows@.take(rows@.len() as int) =~= rows@);
    Ok(())
}

/// The time entries after importing `rows` into `s`, and how the import
/// ended: each row in order is read back and stored with
/// [`upsert_time_entry`], until the first row that does not read back, whose
/// reason ends the import.
pub open spec fn import_time_entries(s: Seq<TimeEntry>, rows: Seq<TimeEntryCsvRow>) -> (Seq<TimeEntry>, Result<(), RowError>)
    decreases rows.len(),
{
    if rows.len() == 0 {
        (s, Ok(()))
    } else {
        let (before, outcome) = import_time_entries(s, rows.drop_last());
        match outcome {
            Err(e) => (before, Err(e)),
            Ok(_) => match time_entry_of_row(rows.last()) {
                Err(e) => (before, Err(e)),
                Ok(t) => (upsert_time_entry(before, t), Ok(())),
            },
        }
    }
}

/// Once the import of a prefix of the rows has ended with an error, the
/// import of all of them ends the same way with the same records.
proof fn lemma_import_time_entries_stops(s: Seq<TimeEntry>, rows: Seq<TimeEntryCsvRow>, k: int)
    requires
        0 <= k <= rows.len(),
        import_time_entries(s, rows.take(k)).1 is Err,
    ensures
        import_time_entries(s, rows) == import_time_entries(s, rows.take(k)),
    decreases rows.len(),
{
    if k < rows.len() {
        assert(rows.drop_last().take(k) =~= rows.take(k));
        lemma_import_time_entries_stops(s, rows.drop_last(), k);
    } else {
        assert(rows.take(k) =~= rows);
    }
}

/// Imports the rows of `time_entries.csv` (see [`import_time_entries`]).
pub fn import_time_entry_rows(service: &mut TimeEntryService, rows: &Vec<TimeEntryCsvRow>) -> (r: Result<(), RowError>)
    ensures
        (final(service).time_entry_repository@, r) == import_time_entries(
            old(service).time_entry_repository@,
            rows@,
        ),
        final(service).task_repository@ == old(service).task_repository@,
        final(service).active_timer_repository@ == old(service).active_timer_repository@,
{
    let ghost s = service.time_entry_repository@;
    let ghost tasks = service.task_repository@;
    let ghost active = service.active_timer_repository@;
    let mut i: usize = 0;
    while i < rows.len()
        invariant
            0 <= i <= rows@.len(),
            import_time_entries(s, rows@.take(i as int)) == (
                service.time_entry_repository@,
                Ok::<(), RowError>(()),
            ),
            s == old(service).time_entry_repository@,
            tasks == old(service).task_repository@,
            active == old(service).active_timer_repository@,
            service.task_repository@ == tasks,
            service.active_timer_repository@ == active,
        decreases rows@.len() - i,
    {
        assert(rows@.take(i + 1).drop_last() =~= rows@.take(i as int));
        assert(rows@.take(i + 1).last() == rows@[i as int]);
        match rows[i].clone().into_time_entry() {
            Ok(entry) => {
                let _ = service.upsert(entry);
            },
            Err(e) => {
                proof {
                    lemma_import_time_entries_stops(s, rows@, i + 1);
                }
                return Err(e);
            },
        }
        i += 1;
    }
    assert(rows@.take(rows@.len() as int) =~= rows@);
    Ok(())
}

/// Importing, into an empty store, rows that read back one by one as the
/// records of a store whose ids are all different gives back that store,
/// in the same order, and the import succeeds.
pub proof fn lemma_projects_import_restores_the_export(s: Seq<Project>, rows: Seq<ProjectCsvRow>)
    requires
        rows.len() == s.len(),
        forall|i: int| 0 <= i < s.len() ==> project_of_row(#[trigger] rows[i]) == Ok::<Project, RowError>(s[i]),
        forall|i: int, j: int| 0 <= i < j < s.len() ==> s[i].id != s[j].id,
    ensures
        import_projects(Seq::<Project>::empty(), rows) == (s, Ok::<(), RowError>(())),
    decreases s.len(),
{
    if s.len() > 0 {
        let n = s.len() - 1;
        lemma_projects_import_restores_the_export(s.drop_last(), rows.drop_last());
        assert(rows.last() == rows[n]);
        let before = s.drop_last();
        lemma_first_index(project_ids(before), s[n].id);
        assert forall|j: int| 0 <= j < project_ids(before).len() implies project_ids(before)[j] != s[n].id by {
            assert(project_ids(before)[j] == before[j].id);
        }
        assert(upsert_project(before, s[n]) =~= s);
    }
}

/// Importing, into an empty store, rows that read back one by one as the
/// records of a store whose ids are all different gives back that store,
/// in the same order, and the import succeeds.
pub proof fn lemma_tasks_import_restores_the_export(s: Seq<Task>, rows: Seq<TaskCsvRow>)
    requires
        rows.len() == s.len(),
        forall|i: int| 0 <= i < s.len() ==> task_of_row(#[trigger] rows[i]) == Ok::<Task, RowError>(s[i]),
        forall|i: int, j: int| 0 <= i < j < s.len() ==> s[i].id != s[j].id,
    ensures
        import_tasks(Seq::<Task>::empty(), rows) == (s, Ok::<(), RowError>(())),
    decreases s.len(),
{
    if s.len() > 0 {
        let n = s.len() - 1;
        lemma_tasks_import_restores_the_export(s.drop_last(), rows.drop_last());
        assert(rows.last() == rows[n]);
        let before = s.drop_last();
        lemma_first_index(task_ids(before), s[n].id);
        assert forall|j: int| 0 <= j < task_ids(before).len() implies task_ids(before)[j] != s[n].id by {
            assert(task_ids(before)[j] == before[j].id);
        }
        assert(upsert_task(before, s[n]) =~= s);
    }
}

/// Importing, into an empty store, rows that read back one by one as the
/// records of a store whose ids are all different gives back that store,
/// in the same order, and the import succeeds.
pub proof fn lemma_time_entries_import_restores_the_export(s: Seq<TimeEntry>, rows: Seq<TimeEntryCsvRow>)
    requires
        rows.len() == s.len(),
        forall|i: int| 0 <= i < s.len() ==> time_entry_of_row(#[trigger] rows[i]) == Ok::<TimeEntry, RowError>(s[i]),
        forall|i: int, j: int| 0 <= i < j < s.len() ==> s[i].id != s[j].id,
    ensures
        import_time_entries(Seq::<TimeEntry>::empty(), rows) == (s, Ok::<(), RowError>(())),
    decreases s.len(),
{
    if s.len() > 0 {
        let n = s.len() - 1;
        lemma_time_entries_import_restores_the_export(s.drop_last(), rows.drop_last());
        assert(rows.last() == rows[n]);
        let before = s.drop_last();
        lemma_first_index(time_entry_ids(before), s[n].id);
        assert forall|j: int| 0 <= j < time_entry_ids(before).len() implies time_entry_ids(before)[j] != s[n].id by {
            assert(time_entry_ids(before)[j] == before[j].id);
        }
        assert(upsert_time_entry(before, s[n]) =~= s);
    }
}

/// The user's home directory (`dirs::home_dir`), as text; a path that is not
/// UTF-8 is converted lossily.
///
/// Trusted: the result depends on the platform and the environment, so
/// nothing is said of it.
#[verifier::external_body]
fn home_dir() -> (r: Option<String>) {
    match dirs::home_dir() {
        Some(path) => Some(path.to_string_lossy().into_owned()),
        None => None,
    }
}

/// A path with a leading `~/` read in the given home directory: the rest of
/// the path adjoined to the home directory; `None` when there is no home
/// directory to read it in. A path without a leading `~/` is kept.
pub fn expand_home_path_in(path_str: String, home: Option<String>) -> (r: Option<String>)
    ensures
        !starts_with(path_str@, seq!['~', '/']) ==> r == Some(path_str),
        starts_with(path_str@, seq!['~', '/']) ==> match home {
            None => r is None,
            Some(h) => r matches Some(p) && (is_plain_file_name(path_str@.skip(2)) ==> ends_with(
                p@,
                path_str@.skip(2),
            )) && (is_plain_file_name(path_str@.skip(2)) && !is_verbatim_path(h@) ==> starts_with(
                p@,
                h@,
            )),
        },
{
    let n = path_str.as_str().unicode_len();
    if n >= 2 && path_str.as_str().get_char(0) == '~' && path_str.as_str().get_char(1) == '/' {
        assert(path_str@.take(2) =~= seq!['~', '/']);
        match home {
            None => None,
            Some(h) => {
                let stripped = path_str.as_str().substring_char(2, n);
                assert(stripped@ =~= path_str@.skip(2));
                Some(join_path(h.as_str(), stripped))
            },
        }
    } else {
        assert(!starts_with(path_str@, seq!['~', '/'])) by {
            if starts_with(path_str@, seq!['~', '/']) {
                assert(path_str@.take(2)[0] == '~');
                assert(path_str@.take(2)[1] == '/');
            }
        }
        Some(path_str)
    }
}

/// A path with a leading `~/` read in the user's home directory (see
/// [`expand_home_path_in`]); `None` when there is no home directory. Which
/// directory that is depends on the environment: of a path read in it, the
/// result is only said to end with the rest of the path, when that rest is a
/// plain file name.
pub fn expand_home_path(path_str: String) -> (r: Option<String>)
    ensures
        !starts_with(path_str@, seq!['~', '/']) ==> r == Some(path_str),
        starts_with(path_str@, seq!['~', '/']) && is_plain_file_name(path_str@.skip(2)) ==> (
        r matches Some(p) ==> ends_with(p@, path_str@.skip(2))),
{
    let home = home_dir();
    expand_home_path_in(path_str, home)
}

} // verus!
