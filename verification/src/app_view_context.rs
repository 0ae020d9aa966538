//! The overview that the terminal interface shows: every listed project with
//! its listed tasks, each task with its time entries, latest first, and the
//! minutes booked on each task and each project.

use crate::app_context::AppContext;
use crate::config::AppConfig;
use crate::errors::{AppError, AppResult};
use crate::in_memory_project_repository::{has_project, project_is_listed};
use crate::in_memory_task_repository::{
    find_task, has_task, lemma_find_task, replace_task, task_id_is_not, task_in_project,
};
use crate::in_memory_time_entry_repository::{
    find_time_entry, has_time_entry, replace_time_entry, time_entry_id_is_not, time_entry_of_task,
};
use crate::report_service::{are_end_days, ends_in_range, minutes_on_day, ReportService};
use crate::time_entry_service::new_entry;
use crate::user_settings_service::with_work_target;
use crate::report_service::entry_minutes;
use crate::clock::minutes_between_exec;
use crate::types::{ActiveTimer, DailyTimer, LocalDate, Project, Task, TimeEntry, UserSettings, Weekday};
use crate::clock::{in_chrono_range, is_near_day, weekday_of};
use crate::ids::uuid_version;
use crate::in_memory_project_repository::{
    find_project, lemma_find_project, project_id_is_not, replace_project,
};
use crate::laws::{lemma_updated_project_is_found, lemma_updated_task_is_found};
use crate::task_service::{
    is_changed_task, is_new_limited_task, is_restated_task, task_names_in,
};
use crate::naming_service::{claims_fit, unique_name};
use crate::project_service::{
    is_archived_project, is_limited_project, is_new_limited_project, is_renamed_project,
    project_lookup, project_names,
};
use vstd::prelude::*;
use vstd::seq_lib::{to_multiset_build, to_multiset_insert};

verus! {

broadcast use vstd::seq_lib::group_seq_properties;

/// A time entry as the overview shows it.
#[derive(Clone, Copy, Debug, PartialEq, Eq, Structural)]
pub struct TimeEntryViewModel {
    pub time_entry: TimeEntry,
    pub start_time: i64,
    pub end_time: i64,
}

/// The overview's line for a time entry.
pub open spec fn entry_view(e: TimeEntry) -> TimeEntryViewModel {
    TimeEntryViewModel { time_entry: e, start_time: e.start_time, end_time: e.end_time }
}

/// Holds for the entry lines that end at `t`.
pub open spec fn end_time_is(t: i64) -> spec_fn(TimeEntryViewModel) -> bool {
    |e: TimeEntryViewModel| e.end_time == t
}

/// Whether the lines are ordered by end time, latest first.
pub open spec fn latest_first(s: Seq<TimeEntryViewModel>) -> bool {
    forall|i: int, j: int| 0 <= i < j < s.len() ==> s[i].end_time >= s[j].end_time
}

/// Whether `r` is `s` sorted by end time, latest first, where lines with the
/// same end time keep the order they have in `s` (a stable sort): `r` holds
/// the lines of `s`, each as often as `s` does.
pub open spec fn is_sorted_latest_first(r: Seq<TimeEntryViewModel>, s: Seq<TimeEntryViewModel>) -> bool {
    &&& r.len() == s.len()
    &&& r.to_multiset() == s.to_multiset()
    &&& latest_first(r)
    &&& forall|t: i64| #[trigger] r.filter(end_time_is(t)) == s.filter(end_time_is(t))
}

/// A sequence in which nothing passes the filter filters to nothing.
proof fn lemma_filter_none<A>(s: Seq<A>, f: spec_fn(A) -> bool)
    requires
        forall|j: int| 0 <= j < s.len() ==> !f(s[j]),
    ensures
        s.filter(f) == Seq::<A>::empty(),
    decreases s.len(),
{
    if s.len() == 0 {
        s.lemma_filter_len(f);
    } else {
        lemma_filter_none(s.drop_last(), f);
        assert(s =~= s.drop_last().push(s.last()));
        s.drop_last().lemma_filter_push(s.last(), f);
    }
}

/// Putting a line in front of the lines that end earlier than it adds it at
/// the end of its own end time's group and leaves the other groups alone.
proof fn lemma_insert_groups(r: Seq<TimeEntryViewModel>, p: int, x: TimeEntryViewModel, t: i64)
    requires
        0 <= p <= r.len(),
        forall|j: int| p <= j < r.len() ==> r[j].end_time < x.end_time,
    ensures
        r.insert(p, x).filter(end_time_is(t)) == (if x.end_time == t {
            r.filter(end_time_is(t)).push(x)
        } else {
            r.filter(end_time_is(t))
        }),
{
    let f = end_time_is(t);
    let a = r.take(p);
    let b = r.skip(p);
    assert(r =~= a + b);
    assert(r.insert(p, x) =~= a.push(x) + b);
    Seq::filter_distributes_over_add(a, b, f);
    Seq::filter_distributes_over_add(a.push(x), b, f);
    a.lemma_filter_push(x, f);
    if x.end_time == t {
        lemma_filter_none(b, f);
        assert(b.filter(f) + Seq::<TimeEntryViewModel>::empty() =~= b.filter(f));
        assert(a.filter(f) + Seq::<TimeEntryViewModel>::empty() =~= a.filter(f));
        assert(a.filter(f).push(x) + Seq::<TimeEntryViewModel>::empty() =~= a.filter(f).push(x));
    }
}

/// The lines sorted by end time, latest first; lines with the same end time
/// keep their order.
pub fn sort_latest_first(lines: &Vec<TimeEntryViewModel>) -> (r: Vec<TimeEntryViewModel>)
    ensures
        is_sorted_latest_first(r@, lines@),
{
    let mut r: Vec<TimeEntryViewModel> = Vec::new();
    let mut i: usize = 0;
    while i < lines.len()
        invariant
            0 <= i <= lines@.len(),
            r@.len() == i,
            r@.to_multiset() == lines@.take(i as int).to_multiset(),
            latest_first(r@),
            forall|t: i64| #[trigger] r@.filter(end_time_is(t)) == lines@.take(i as int).filter(end_time_is(t)),
        decreases lines@.len() - i,
    {
        let x = lines[i];
        let mut p: usize = 0;
        while p < r.len() && r[p].end_time >= x.end_time
            invariant
                0 <= p <= r@.len(),
                forall|j: int| 0 <= j < p ==> r@[j].end_time >= x.end_time,
            decreases r@.len() - p,
        {
            p += 1;
        }
        let ghost before = r@;
        assert forall|j: int| p <= j < before.len() implies before[j].end_time < x.end_time by {
            assert(before[p as int].end_time < x.end_time);
        }
        r.insert(p, x);
        assert(lines@.take(i + 1) =~= lines@.take(i as int).push(x));
        proof {
            to_multiset_insert(before, p as int, x);
            to_multiset_build(lines@.take(i as int), x);
        }
        assert forall|t: i64| #[trigger] r@.filter(end_time_is(t)) == lines@.take(i + 1).filter(end_time_is(t)) by {
            lemma_insert_groups(before, p as int, x, t);
            lines@.take(i as int).lemma_filter_push(x, end_time_is(t));
        }
        assert forall|a: int, b: int| 0 <= a < b < r@.len() implies r@[a].end_time >= r@[b].end_time by {
            if b < p {
            } else if b == p {
            } else if a < p {
                assert(r@[b] == before[b - 1]);
            } else if a == p {
                assert(r@[b] == before[b - 1]);
            } else {
                assert(r@[a] == before[a - 1]);
                assert(r@[b] == before[b - 1]);
            }
        }
        i += 1;
    }
    assert(lines@.take(lines@.len() as int) =~= lines@);
    r
}

/// The minutes booked on a sequence of entries: the sum of their minutes as
/// each entry counts them (see `entry_minutes`).
pub open spec fn entries_minutes(s: Seq<TimeEntry>) -> nat
    decreases s.len(),
{
    if s.len() == 0 {
        0
    } else {
        entries_minutes(s.drop_last()) + entry_minutes(s.last()) as nat
    }
}

/// The minutes of a prefix of the entries are no more than those of all.
proof fn lemma_entries_minutes_prefix(s: Seq<TimeEntry>, k: int)
    requires
        0 <= k <= s.len(),
    ensures
        entries_minutes(s.take(k)) <= entries_minutes(s),
    decreases s.len(),
{
    if k < s.len() {
        lemma_entries_minutes_prefix(s.drop_last(), k);
        assert(s.drop_last().take(k) =~= s.take(k));
    } else {
        assert(s.take(k) =~= s);
    }
}

/// A task as the overview shows it.
pub struct TaskViewModel {
    pub task: Task,
    pub total_task_time_min: u32,
    pub time_limit: Option<u32>,
    pub is_archived: bool,
    pub time_entries: Vec<TimeEntryViewModel>,
}

/// A project as the overview shows it.
pub struct ProjectViewModel {
    pub project: Project,
    pub total_project_time_min: u32,
    pub time_limit: Option<u32>,
    pub is_archived: bool,
    pub tasks: Vec<TaskViewModel>,
}

/// The overview: one line per listed project.
pub struct OverviewViewModel {
    pub projects: Vec<ProjectViewModel>,
}

/// The settings screen: where the database is, and the user's settings.
pub struct UserSettingsViewModel {
    pub db_path: String,
    pub user_settings: UserSettings,
}

/// What the terminal interface reads from and does through the tracker.
pub struct AppViewContext {
    pub app: AppContext,
    pub app_config: AppConfig,
}

impl AppViewContext {
    pub fn new(app: AppContext, app_config: AppConfig) -> (r: Self)
        ensures
            r.app == app,
            r.app_config == app_config,
    {
        AppViewContext { app, app_config }
    }

    /// The settings that decide what the overview lists.
    pub open spec fn settings(&self) -> UserSettings {
        self.app.user_settings_service.repository@
    }

    /// The entries booked on a task, in the order in which they were stored.
    pub open spec fn entries_of(&self, task_id: u128) -> Seq<TimeEntry> {
        self.app.time_entry_service.time_entry_repository@.filter(time_entry_of_task(task_id))
    }

    /// The minutes booked on a task, or why the overview cannot show it: the
    /// task is unknown to the time entries' service (`TaskNotFound`), or its
    /// minutes do not fit in a `u32` (`InvalidTimeRange`).
    pub open spec fn task_total(&self, task_id: u128) -> AppResult<u32> {
        if find_task(self.app.time_entry_service.task_repository@, task_id) is None {
            Err(AppError::TaskNotFound)
        } else if entries_minutes(self.entries_of(task_id)) > u32::MAX {
            Err(AppError::InvalidTimeRange)
        } else {
            Ok(entries_minutes(self.entries_of(task_id)) as u32)
        }
    }

    /// Whether `vm` is the overview's line for `task`.
    pub open spec fn is_task_view(&self, vm: TaskViewModel, task: Task) -> bool {
        &&& vm.task == task
        &&& vm.time_limit == task.time_limit
        &&& vm.is_archived == task.is_archived
        &&& self.task_total(task.id) == Ok::<u32, AppError>(vm.total_task_time_min)
        &&& is_sorted_latest_first(vm.time_entries@, self.entries_of(task.id).map_values(|e: TimeEntry| entry_view(e)))
    }

    /// The line for a time entry.
    pub fn create_time_entry_view_model(&self, time_entry: &TimeEntry) -> (r: TimeEntryViewModel)
        ensures
            r == entry_view(*time_entry),
    {
        TimeEntryViewModel {
            time_entry: *time_entry,
            start_time: time_entry.start_time,
            end_time: time_entry.end_time,
        }
    }

    /// The line for a task: its entries, latest first, and the minutes booked
    /// on it. A task unknown to the time entries' service is refused with
    /// `TaskNotFound`; minutes that do not fit in a `u32` with
    /// `InvalidTimeRange`.
    pub fn create_task_view_model(&self, task: &Task) -> (r: AppResult<TaskViewModel>)
        ensures
            match self.task_total(task.id) {
                Err(e) => r == Err::<TaskViewModel, AppError>(e),
                Ok(_) => r matches Ok(vm) && self.is_task_view(vm, *task),
            },
    {
        let time_entries = match self.app.time_entry_service.find_all_entries_of_task(task.id) {
            Ok(v) => v,
            Err(e) => {
                return Err(e);
            },
        };
        let ghost es = self.entries_of(task.id);
        let mut task_time_minutes: u32 = 0;
        let mut time_entry_vms: Vec<TimeEntryViewModel> = Vec::new();
        let mut i: usize = 0;
        while i < time_entries.len()
            invariant
                time_entries@ == es,
                es == self.entries_of(task.id),
                find_task(self.app.time_entry_service.task_repository@, task.id) is Some,
                0 <= i <= es.len(),
                task_time_minutes == entries_minutes(es.take(i as int)),
                time_entry_vms@ == es.take(i as int).map_values(|e: TimeEntry| entry_view(e)),
            decreases es.len() - i,
        {
            let time_entry_vm = self.create_time_entry_view_model(&time_entries[i]);
            assert(es.take(i + 1).drop_last() =~= es.take(i as int));
            let m = minutes_between_exec(time_entry_vm.start_time, time_entry_vm.end_time);
            #[verifier::truncate]
            let em = m as u32;
            if task_time_minutes as u64 + em as u64 > u32::MAX as u64 {
                proof {
                    assert(es.take(i + 1).last() == es[i as int]);
                    assert(em == entry_minutes(es[i as int]));
                    assert(entries_minutes(es.take(i + 1)) == task_time_minutes + em);
                    lemma_entries_minutes_prefix(es, i + 1);
                    assert(find_task(self.app.time_entry_service.task_repository@, task.id) is Some);
                    assert(entries_minutes(es) > u32::MAX);
                }
                return Err(AppError::InvalidTimeRange);
            }
            task_time_minutes = task_time_minutes + em;
            time_entry_vms.push(time_entry_vm);
            assert(time_entry_vms@ =~= es.take(i + 1).map_values(|e: TimeEntry| entry_view(e)));
            i += 1;
        }
        assert(es.take(es.len() as int) =~= es);
        let sorted_entries = sort_latest_first(&time_entry_vms);
        Ok(TaskViewModel {
            task: task.clone(),
            total_task_time_min: task_time_minutes,
            time_limit: task.time_limit,
            is_archived: task.is_archived,
            time_entries: sorted_entries,
        })
    }

    /// The tasks of a project that the overview lists.
    pub open spec fn project_tasks(&self, project_id: u128, show_archived_tasks: bool) -> Seq<Task> {
        self.app.task_service.task_repository@.filter(task_in_project(project_id, show_archived_tasks))
    }

    /// The minutes booked on a sequence of tasks, or the first reason, in
    /// order, why the overview cannot show them: a task that cannot be shown
    /// (see `task_total`), or a running sum that does not fit in a `u32`
    /// (`InvalidTimeRange`).
    pub open spec fn tasks_total(&self, ts: Seq<Task>) -> AppResult<u32>
        decreases ts.len(),
    {
        if ts.len() == 0 {
            Ok(0)
        } else {
            match self.tasks_total(ts.drop_last()) {
                Err(e) => Err(e),
                Ok(sum) => match self.task_total(ts.last().id) {
                    Err(e) => Err(e),
                    Ok(m) => if sum + m > u32::MAX {
                        Err(AppError::InvalidTimeRange)
                    } else {
                        Ok((sum + m) as u32)
                    },
                },
            }
        }
    }

    /// Whether `vm` is the overview's line for `project`.
    pub open spec fn is_project_view(&self, vm: ProjectViewModel, project: Project, show_archived_tasks: bool) -> bool {
        let ts = self.project_tasks(project.id, show_archived_tasks);
        &&& vm.project == project
        &&& vm.time_limit == project.time_limit
        &&& vm.is_archived == project.is_archived
        &&& self.tasks_total(ts) == Ok::<u32, AppError>(vm.total_project_time_min)
        &&& vm.tasks@.len() == ts.len()
        &&& forall|i: int| 0 <= i < ts.len() ==> self.is_task_view(#[trigger] vm.tasks@[i], ts[i])
    }

    /// Once a prefix of the tasks cannot be shown, neither can all of them,
    /// for the same reason.
    proof fn lemma_tasks_total_error_sticks(&self, ts: Seq<Task>, k: int)
        requires
            0 <= k <= ts.len(),
            self.tasks_total(ts.take(k)) is Err,
        ensures
            self.tasks_total(ts) == self.tasks_total(ts.take(k)),
        decreases ts.len(),
    {
        if k < ts.len() {
            assert(ts.drop_last().take(k) =~= ts.take(k));
            self.lemma_tasks_total_error_sticks(ts.drop_last(), k);
        } else {
            assert(ts.take(k) =~= ts);
        }
    }

    /// The line for a project: its listed tasks, in the order in which they
    /// were stored, and the minutes booked on them. The first task, in that
    /// order, that cannot be shown refuses the line with its reason (see
    /// [`Self::create_task_view_model`]); a sum that does not fit in a `u32`
    /// refuses it with `InvalidTimeRange`.
    pub fn create_project_view_model(&self, project: &Project, show_archived_tasks: bool) -> (r: AppResult<ProjectViewModel>)
        ensures
            match self.tasks_total(self.project_tasks(project.id, show_archived_tasks)) {
                Err(e) => r == Err::<ProjectViewModel, AppError>(e),
                Ok(_) => r matches Ok(vm) && self.is_project_view(vm, *project, show_archived_tasks),
            },
    {
        let tasks = self.app.task_service.task_repository.find_by_project_id(project.id, show_archived_tasks);
        let ghost ts = self.project_tasks(project.id, show_archived_tasks);
        let mut project_time_minutes: u32 = 0;
        let mut task_vms: Vec<TaskViewModel> = Vec::new();
        let mut i: usize = 0;
        while i < tasks.len()
            invariant
                tasks@ == ts,
                ts == self.project_tasks(project.id, show_archived_tasks),
                0 <= i <= ts.len(),
                self.tasks_total(ts.take(i as int)) == Ok::<u32, AppError>(project_time_minutes),
                task_vms@.len() == i,
                forall|j: int| 0 <= j < i ==> self.is_task_view(#[trigger] task_vms@[j], ts[j]),
            decreases ts.len() - i,
        {
            assert(ts.take(i + 1).drop_last() =~= ts.take(i as int));
            assert(ts.take(i + 1).last() == ts[i as int]);
            let task_vm = match self.create_task_view_model(&tasks[i]) {
                Ok(vm) => vm,
                Err(e) => {
                    proof {
                        self.lemma_tasks_total_error_sticks(ts, i + 1);
                    }
                    return Err(e);
                },
            };
            if project_time_minutes as u64 + task_vm.total_task_time_min as u64 > u32::MAX as u64 {
                proof {
                    self.lemma_tasks_total_error_sticks(ts, i + 1);
                }
                return Err(AppError::InvalidTimeRange);
            }
            project_time_minutes = project_time_minutes + task_vm.total_task_time_min;
            task_vms.push(task_vm);
            i += 1;
        }
        assert(ts.take(ts.len() as int) =~= ts);
        Ok(ProjectViewModel {
            project: project.clone(),
            total_project_time_min: project_time_minutes,
            time_limit: project.time_limit,
            is_archived: project.is_archived,
            tasks: task_vms,
        })
    }

    /// The projects that the overview lists.
    pub open spec fn listed_projects(&self) -> Seq<Project> {
        self.app.project_service.project_repository@.filter(
            project_is_listed(self.settings().show_archived_projects),
        )
    }

    /// Whether the overview can show each of the projects, or the first
    /// reason, in order, why it cannot (see [`Self::create_project_view_model`]).
    pub open spec fn projects_result(&self, ps: Seq<Project>, show_archived_tasks: bool) -> AppResult<()>
        decreases ps.len(),
    {
        if ps.len() == 0 {
            Ok(())
        } else {
            match self.projects_result(ps.drop_last(), show_archived_tasks) {
                Err(e) => Err(e),
                Ok(_) => match self.tasks_total(self.project_tasks(ps.last().id, show_archived_tasks)) {
                    Err(e) => Err(e),
                    Ok(_) => Ok(()),
                },
            }
        }
    }

    /// Once a prefix of the projects cannot be shown, neither can all of
    /// them, for the same reason.
    proof fn lemma_projects_result_error_sticks(&self, ps: Seq<Project>, show_archived_tasks: bool, k: int)
        requires
            0 <= k <= ps.len(),
            self.projects_result(ps.take(k), show_archived_tasks) is Err,
        ensures
            self.projects_result(ps, show_archived_tasks) == self.projects_result(ps.take(k), show_archived_tasks),
        decreases ps.len(),
    {
        if k < ps.len() {
            assert(ps.drop_last().take(k) =~= ps.take(k));
            self.lemma_projects_result_error_sticks(ps.drop_last(), show_archived_tasks, k);
        } else {
            assert(ps.take(k) =~= ps);
        }
    }

    /// The overview: the line of each listed project, in the order in which
    /// the projects were stored. Archived projects and tasks are listed as the
    /// settings say. The first project, in that order, that cannot be shown
    /// refuses the overview with its reason.
    pub fn create_overview_view_model(&self) -> (r: AppResult<OverviewViewModel>)
        ensures
            match self.projects_result(self.listed_projects(), self.settings().show_archived_tasks) {
                Err(e) => r == Err::<OverviewViewModel, AppError>(e),
                Ok(_) => r matches Ok(vm) && vm.projects@.len() == self.listed_projects().len() && forall|i: int|
                    0 <= i < self.listed_projects().len() ==> self.is_project_view(
                        #[trigger] vm.projects@[i],
                        self.listed_projects()[i],
                        self.settings().show_archived_tasks,
                    ),
            },
    {
        let settings = self.app.user_settings_service.get_settings();
        let all_projects = self.app.project_service.project_repository.find_listed(settings.show_archived_projects);
        let ghost ps = self.listed_projects();
        let show_tasks = settings.show_archived_tasks;
        let mut projects: Vec<ProjectViewModel> = Vec::new();
        let mut i: usize = 0;
        while i < all_projects.len()
            invariant
                all_projects@ == ps,
                ps == self.listed_projects(),
                show_tasks == self.settings().show_archived_tasks,
                0 <= i <= ps.len(),
                self.projects_result(ps.take(i as int), show_tasks) == Ok::<(), AppError>(()),
                projects@.len() == i,
                forall|j: int| 0 <= j < i ==> self.is_project_view(#[trigger] projects@[j], ps[j], show_tasks),
            decreases ps.len() - i,
        {
            assert(ps.take(i + 1).drop_last() =~= ps.take(i as int));
            assert(ps.take(i + 1).last() == ps[i as int]);
            let project_vm = match self.create_project_view_model(&all_projects[i], show_tasks) {
                Ok(vm) => vm,
                Err(e) => {
                    proof {
                        self.lemma_projects_result_error_sticks(ps, show_tasks, i + 1);
                    }
                    return Err(e);
                },
            };
            projects.push(project_vm);
            i += 1;
        }
        assert(ps.take(ps.len() as int) =~= ps);
        Ok(OverviewViewModel { projects })
    }

    /// The overview (see [`Self::create_overview_view_model`]).
    pub fn load_projects(&self) -> (r: AppResult<OverviewViewModel>)
        ensures
            match self.projects_result(self.listed_projects(), self.settings().show_archived_tasks) {
                Err(e) => r == Err::<OverviewViewModel, AppError>(e),
                Ok(_) => r matches Ok(vm) && vm.projects@.len() == self.listed_projects().len() && forall|i: int|
                    0 <= i < self.listed_projects().len() ==> self.is_project_view(
                        #[trigger] vm.projects@[i],
                        self.listed_projects()[i],
                        self.settings().show_archived_tasks,
                    ),
            },
    {
        self.create_overview_view_model()
    }

    /// The settings screen: where the database is, and the user's settings.
    pub fn load_settings(&self) -> (r: UserSettingsViewModel)
        ensures
            r.db_path@ == self.app_config.database.path@,
            r.user_settings == self.settings(),
    {
        UserSettingsViewModel {
            db_path: self.app_config.database.path.clone(),
            user_settings: self.app.user_settings_service.get_settings(),
        }
    }
}

/// Why a request of the terminal interface failed.
#[derive(Debug, PartialEq, Eq)]
pub enum BackendError {
    /// A service refused the request.
    Service(AppError),
    /// The program refused the request.
    App(crate::app_error::AppError),
}

/// The result of a request of the terminal interface.
pub type BackendResult<T> = Result<T, BackendError>;

impl AppViewContext {
    /// Whether `after` keeps the configuration and the stores of `self` but
    /// perhaps the projects, the tasks, the time entries with the timer, and
    /// the settings (as flagged), and has every copy of a store in step.
    pub open spec fn keeps(&self, after: AppViewContext, projects: bool, tasks: bool, entries: bool, settings: bool) -> bool {
        &&& after.app.in_step()
        &&& after.app_config == self.app_config
        &&& !projects ==> after.app.project_service.project_repository@
            == self.app.project_service.project_repository@
        &&& !tasks ==> after.app.task_service.task_repository@ == self.app.task_service.task_repository@
        &&& !entries ==> after.app.time_entry_service.time_entry_repository@
            == self.app.time_entry_service.time_entry_repository@
        &&& !entries ==> after.app.time_entry_service.active_timer_repository@
            == self.app.time_entry_service.active_timer_repository@
        &&& !settings ==> after.app.user_settings_service.repository@ == self.app.user_settings_service.repository@
    }

    /// The stored projects.
    pub open spec fn projects(&self) -> Seq<Project> {
        self.app.project_service.project_repository@
    }

    /// The stored tasks.
    pub open spec fn tasks(&self) -> Seq<Task> {
        self.app.task_service.task_repository@
    }

    /// The stored time entries.
    pub open spec fn entries(&self) -> Seq<TimeEntry> {
        self.app.time_entry_service.time_entry_repository@
    }

    /// Creates a project with a time limit (see
    /// `ProjectService::create_limited`).
    pub fn create_project(&mut self, project_name: &str, time_limit: Option<u32>) -> (r: BackendResult<()>)
        requires
            old(self).app.in_step(),
            project_name@.len() > 0 ==> claims_fit(project_name@, project_names(old(self).projects())),
        ensures
            old(self).keeps(*final(self), true, false, false, false),
            project_name@.len() == 0 ==> r == Err::<(), BackendError>(BackendError::Service(AppError::EmptyName))
                && final(self).projects() == old(self).projects(),
            project_name@.len() > 0 ==> r == Ok::<(), BackendError>(()) && exists|p: Project|
                is_new_limited_project(
                    p,
                    unique_name(project_name@, project_names(old(self).projects())),
                    time_limit,
                    p.id,
                    p.created_at,
                ) && p.id != 0 && uuid_version(p.id) == 4 && in_chrono_range(p.created_at)
                    && !has_project(old(self).projects(), p.id) && final(self).projects() == old(self).projects().push(p),
    {
        let result = self.app.project_service.create_limited(String::from_str(project_name), time_limit);
        self.app.sync();
        match result {
            Ok(_) => Ok(()),
            Err(e) => Err(BackendError::Service(e)),
        }
    }

    /// Deletes a project (see `ProjectService::delete`).
    pub fn delete_project(&mut self, project_id: u128) -> (r: BackendResult<()>)
        requires
            old(self).app.in_step(),
        ensures
            old(self).keeps(*final(self), true, false, false, false),
            match project_lookup(old(self).projects(), project_id) {
                Err(e) => r == Err::<(), BackendError>(BackendError::Service(e)) && final(self).projects()
                    == old(self).projects(),
                Ok(_) => r == Ok::<(), BackendError>(()) && final(self).projects() == old(self).projects().filter(
                    project_id_is_not(project_id),
                ),
            },
    {
        let result = self.app.project_service.delete(project_id);
        self.app.sync();
        match result {
            Ok(_) => Ok(()),
            Err(e) => Err(BackendError::Service(e)),
        }
    }

    /// Renames a project, then sets its time limit (see
    /// `ProjectService::edit_name` and `ProjectService::edit_time_limit`).
    pub fn edit_project(&mut self, project_id: u128, name: &str, time_limit: Option<u32>) -> (r: BackendResult<()>)
        requires
            old(self).app.in_step(),
            name@.len() > 0 && project_lookup(old(self).projects(), project_id) is Ok ==> claims_fit(
                name@,
                project_names(old(self).projects()),
            ),
        ensures
            old(self).keeps(*final(self), true, false, false, false),
            match project_lookup(old(self).projects(), project_id) {
                Err(e) => r == Err::<(), BackendError>(BackendError::Service(e)) && final(self).projects()
                    == old(self).projects(),
                Ok(found) => if name@.len() == 0 {
                    r == Err::<(), BackendError>(BackendError::Service(AppError::EmptyName))
                        && final(self).projects() == old(self).projects()
                } else {
                    r == Ok::<(), BackendError>(()) && exists|renamed: Project, limited: Project|
                        is_renamed_project(
                            renamed,
                            found,
                            unique_name(name@, project_names(old(self).projects())),
                            renamed.updated_at,
                        ) && is_limited_project(limited, renamed, time_limit, limited.updated_at)
                            && in_chrono_range(limited.updated_at) && final(self).projects()
                            == replace_project(replace_project(old(self).projects(), renamed), limited)
                },
            },
    {
        let renamed = match self.app.project_service.edit_name(project_id, name) {
            Ok(p) => p,
            Err(e) => {
                self.app.sync();
                return Err(BackendError::Service(e));
            },
        };
        proof {
            lemma_find_project(old(self).projects(), project_id);
            lemma_updated_project_is_found(old(self).projects(), renamed);
        }
        let result = self.app.project_service.edit_time_limit(project_id, time_limit);
        self.app.sync();
        match result {
            Ok(_) => Ok(()),
            Err(e) => Err(BackendError::Service(e)),
        }
    }

    /// Archives a project (see `ProjectService::archive_project`).
    pub fn archive_project(&mut self, project_id: u128) -> (r: BackendResult<()>)
        requires
            old(self).app.in_step(),
        ensures
            old(self).keeps(*final(self), true, false, false, false),
            match project_lookup(old(self).projects(), project_id) {
                Err(e) => r == Err::<(), BackendError>(BackendError::Service(e)) && final(self).projects()
                    == old(self).projects(),
                Ok(found) => r == Ok::<(), BackendError>(()) && exists|p: Project|
                    is_archived_project(p, found, true, p.updated_at) && in_chrono_range(p.updated_at)
                        && final(self).projects() == replace_project(old(self).projects(), p),
            },
    {
        let result = self.app.project_service.archive_project(project_id);
        self.app.sync();
        match result {
            Ok(_) => Ok(()),
            Err(e) => Err(BackendError::Service(e)),
        }
    }

    /// Takes a project out of the archive (see
    /// `ProjectService::unarchive_project`).
    pub fn unarchive_project(&mut self, project_id: u128) -> (r: BackendResult<()>)
        requires
            old(self).app.in_step(),
        ensures
            old(self).keeps(*final(self), true, false, false, false),
            match project_lookup(old(self).projects(), project_id) {
                Err(e) => r == Err::<(), BackendError>(BackendError::Service(e)) && final(self).projects()
                    == old(self).projects(),
                Ok(found) => r == Ok::<(), BackendError>(()) && exists|p: Project|
                    is_archived_project(p, found, false, p.updated_at) && in_chrono_range(p.updated_at)
                        && final(self).projects() == replace_project(old(self).projects(), p),
            },
    {
        let result = self.app.project_service.unarchive_project(project_id);
        self.app.sync();
        match result {
            Ok(_) => Ok(()),
            Err(e) => Err(BackendError::Service(e)),
        }
    }

    /// Creates a task with a time limit in a project (see
    /// `TaskService::create_limited`).
    pub fn create_task(&mut self, name: String, time_limit: Option<u32>, project_id: u128) -> (r: BackendResult<()>)
        requires
            old(self).app.in_step(),
            name@.len() > 0 && find_project(old(self).projects(), project_id) is Some ==> claims_fit(
                name@,
                task_names_in(old(self).tasks(), project_id),
            ),
        ensures
            old(self).keeps(*final(self), false, true, false, false),
            name@.len() == 0 ==> r == Err::<(), BackendError>(BackendError::Service(AppError::EmptyName))
                && final(self).tasks() == old(self).tasks(),
            name@.len() > 0 && find_project(old(self).projects(), project_id) is None ==> r == Err::<
                (),
                BackendError,
            >(BackendError::Service(AppError::ProjectNotFound)) && final(self).tasks() == old(self).tasks(),
            name@.len() > 0 && find_project(old(self).projects(), project_id) is Some ==> r == Ok::<
                (),
                BackendError,
            >(()) && exists|t: Task|
                is_new_limited_task(
                    t,
                    unique_name(name@, task_names_in(old(self).tasks(), project_id)),
                    time_limit,
                    project_id,
                    t.id,
                    t.created_at,
                ) && t.id != 0 && uuid_version(t.id) == 4 && in_chrono_range(t.created_at)
                    && !has_task(old(self).tasks(), t.id) && final(self).tasks()
                    == old(self).tasks().push(t),
    {
        let result = self.app.task_service.create_limited(name.as_str(), &project_id, time_limit);
        self.app.sync();
        match result {
            Ok(_) => Ok(()),
            Err(e) => Err(BackendError::Service(e)),
        }
    }

    /// Deletes a task (see `TaskService::delete`).
    pub fn delete_task(&mut self, task_id: u128) -> (r: BackendResult<()>)
        requires
            old(self).app.in_step(),
        ensures
            old(self).keeps(*final(self), false, true, false, false),
            match find_task(old(self).tasks(), task_id) {
                None => r == Err::<(), BackendError>(BackendError::Service(AppError::TaskNotFound))
                    && final(self).tasks() == old(self).tasks(),
                Some(_) => r == Ok::<(), BackendError>(()) && final(self).tasks() == old(self).tasks().filter(
                    task_id_is_not(task_id),
                ),
            },
    {
        let result = self.app.task_service.delete(task_id);
        self.app.sync();
        match result {
            Ok(_) => Ok(()),
            Err(e) => Err(BackendError::Service(e)),
        }
    }

    /// Renames a task, then sets its time limit (see
    /// `TaskService::edit_task_name` and `TaskService::edit_time_limit`).
    pub fn edit_task(&mut self, task_id: u128, name: String, time_limit: Option<u32>) -> (r: BackendResult<()>)
        requires
            old(self).app.in_step(),
            forall|found: Task|
                find_task(old(self).tasks(), task_id) == Some(found) ==> claims_fit(
                    name@,
                    task_names_in(old(self).tasks(), found.project_id),
                ),
        ensures
            old(self).keeps(*final(self), false, true, false, false),
            match find_task(old(self).tasks(), task_id) {
                None => r == Err::<(), BackendError>(BackendError::Service(AppError::TaskNotFound))
                    && final(self).tasks() == old(self).tasks(),
                Some(found) => r == Ok::<(), BackendError>(()) && exists|renamed: Task, limited: Task|
                    is_changed_task(
                        renamed,
                        found,
                        unique_name(name@, task_names_in(old(self).tasks(), found.project_id)),
                        found.project_id,
                        renamed.updated_at,
                    ) && is_restated_task(
                        limited,
                        renamed,
                        time_limit,
                        renamed.is_archived,
                        limited.updated_at,
                    ) && in_chrono_range(limited.updated_at) && final(self).tasks() == replace_task(
                        replace_task(old(self).tasks(), renamed),
                        limited,
                    ),
            },
    {
        let renamed = match self.app.task_service.edit_task_name(task_id, name.as_str()) {
            Ok(t) => t,
            Err(e) => {
                self.app.sync();
                return Err(BackendError::Service(e));
            },
        };
        proof {
            lemma_find_task(old(self).tasks(), task_id);
            lemma_updated_task_is_found(old(self).tasks(), renamed);
        }
        let result = self.app.task_service.edit_time_limit(task_id, time_limit);
        self.app.sync();
        match result {
            Ok(_) => Ok(()),
            Err(e) => Err(BackendError::Service(e)),
        }
    }

    /// Moves a task to another project (see
    /// `TaskService::edit_task_project_relation`).
    pub fn assign_task(&mut self, task_id: u128, project_id: u128) -> (r: BackendResult<()>)
        requires
            old(self).app.in_step(),
            forall|found: Task|
                find_task(old(self).tasks(), task_id) == Some(found) ==> claims_fit(
                    found.name@,
                    task_names_in(old(self).tasks(), project_id),
                ),
        ensures
            old(self).keeps(*final(self), false, true, false, false),
            find_project(old(self).projects(), project_id) is None ==> r == Err::<(), BackendError>(
                BackendError::Service(AppError::ProjectNotFound),
            ) && final(self).tasks() == old(self).tasks(),
            find_project(old(self).projects(), project_id) is Some ==> match find_task(old(self).tasks(), task_id) {
                None => r == Err::<(), BackendError>(BackendError::Service(AppError::TaskNotFound))
                    && final(self).tasks() == old(self).tasks(),
                Some(found) => r == Ok::<(), BackendError>(()) && exists|t: Task|
                    is_changed_task(
                        t,
                        found,
                        unique_name(found.name@, task_names_in(old(self).tasks(), project_id)),
                        project_id,
                        t.updated_at,
                    ) && in_chrono_range(t.updated_at) && final(self).tasks() == replace_task(old(self).tasks(), t),
            },
    {
        let result = self.app.task_service.edit_task_project_relation(task_id, project_id);
        self.app.sync();
        match result {
            Ok(_) => Ok(()),
            Err(e) => Err(BackendError::Service(e)),
        }
    }

    /// Archives a task (see `TaskService::archive_task`).
    pub fn archive_task(&mut self, task_id: u128) -> (r: BackendResult<()>)
        requires
            old(self).app.in_step(),
        ensures
            old(self).keeps(*final(self), false, true, false, false),
            match find_task(old(self).tasks(), task_id) {
                None => r == Err::<(), BackendError>(BackendError::Service(AppError::TaskNotFound))
                    && final(self).tasks() == old(self).tasks(),
                Some(found) => r == Ok::<(), BackendError>(()) && exists|t: Task|
                    is_restated_task(t, found, found.time_limit, true, t.updated_at) && in_chrono_range(
                        t.updated_at,
                    ) && final(self).tasks() == replace_task(old(self).tasks(), t),
            },
    {
        let result = self.app.task_service.archive_task(task_id);
        self.app.sync();
        match result {
            Ok(_) => Ok(()),
            Err(e) => Err(BackendError::Service(e)),
        }
    }

    /// Takes a task out of the archive (see `TaskService::unarchive_task`).
    pub fn unarchive_task(&mut self, task_id: u128) -> (r: BackendResult<()>)
        requires
            old(self).app.in_step(),
        ensures
            old(self).keeps(*final(self), false, true, false, false),
            match find_task(old(self).tasks(), task_id) {
                None => r == Err::<(), BackendError>(BackendError::Service(AppError::TaskNotFound))
                    && final(self).tasks() == old(self).tasks(),
                Some(found) => r == Ok::<(), BackendError>(()) && exists|t: Task|
                    is_restated_task(t, found, found.time_limit, false, t.updated_at) && in_chrono_range(
                        t.updated_at,
                    ) && final(self).tasks() == replace_task(old(self).tasks(), t),
            },
    {
        let result = self.app.task_service.unarchive_task(task_id);
        self.app.sync();
        match result {
            Ok(_) => Ok(()),
            Err(e) => Err(BackendError::Service(e)),
        }
    }

    /// The running timer, if one runs.
    pub open spec fn timer(&self) -> Option<ActiveTimer> {
        self.app.time_entry_service.active_timer_repository@
    }

    /// Books time on a task by hand (see `TimeEntryService::create_manual`).
    pub fn create_time_entry(&mut self, task_id: u128, start_time: i64, end_time: i64) -> (r: BackendResult<()>)
        requires
            old(self).app.in_step(),
        ensures
            old(self).keeps(*final(self), false, false, true, false),
            final(self).timer() == old(self).timer(),
            find_task(old(self).tasks(), task_id) is None ==> r == Err::<(), BackendError>(
                BackendError::Service(AppError::TaskNotFound),
            ) && final(self).entries() == old(self).entries(),
            find_task(old(self).tasks(), task_id) is Some && start_time >= end_time ==> r == Err::<
                (),
                BackendError,
            >(BackendError::Service(AppError::InvalidTimeRange)) && final(self).entries() == old(self).entries(),
            find_task(old(self).tasks(), task_id) is Some && start_time < end_time ==> r == Ok::<
                (),
                BackendError,
            >(()) && exists|e: TimeEntry|
                e == new_entry(e.id, task_id, start_time, end_time, e.created_at) && e.id != 0 && uuid_version(
                    e.id,
                ) == 4 && in_chrono_range(e.created_at) && !has_time_entry(old(self).entries(), e.id)
                    && final(self).entries() == old(self).entries().push(e),
    {
        let result = self.app.time_entry_service.create_manual(start_time, end_time, task_id);
        self.app.sync();
        match result {
            Ok(e) => {
                assert(e == new_entry(e.id, task_id, start_time, end_time, e.created_at));
                assert(self.entries() == old(self).entries().push(e));
                Ok(())
            },
            Err(e) => Err(BackendError::Service(e)),
        }
    }

    /// Moves a time entry to a new range (see
    /// `TimeEntryService::edit_time_entry`).
    pub fn edit_time_entry(&mut self, entry_id: u128, start_time: i64, end_time: i64) -> (r: BackendResult<()>)
        requires
            old(self).app.in_step(),
        ensures
            old(self).keeps(*final(self), false, false, true, false),
            final(self).timer() == old(self).timer(),
            end_time < start_time ==> r == Err::<(), BackendError>(
                BackendError::Service(AppError::InvalidTimeRange),
            ) && final(self).entries() == old(self).entries(),
            end_time >= start_time ==> match find_time_entry(old(self).entries(), entry_id) {
                None => r == Err::<(), BackendError>(BackendError::Service(AppError::TimeEntryNotFound))
                    && final(self).entries() == old(self).entries(),
                Some(found) => r == Ok::<(), BackendError>(()) && exists|e: TimeEntry|
                    e == (TimeEntry { start_time, end_time, updated_at: e.updated_at, ..found })
                        && in_chrono_range(e.updated_at) && final(self).entries() == replace_time_entry(
                        old(self).entries(),
                        e,
                    ),
            },
    {
        let result = self.app.time_entry_service.edit_time_entry(entry_id, start_time, end_time);
        self.app.sync();
        match result {
            Ok(_) => Ok(()),
            Err(e) => Err(BackendError::Service(e)),
        }
    }

    /// Moves a time entry to another task (see
    /// `TimeEntryService::assign_time_entry`).
    pub fn assign_time_entry(&mut self, entry_id: u128, task_id: u128) -> (r: BackendResult<()>)
        requires
            old(self).app.in_step(),
        ensures
            old(self).keeps(*final(self), false, false, true, false),
            final(self).timer() == old(self).timer(),
            find_task(old(self).tasks(), task_id) is None ==> r == Err::<(), BackendError>(
                BackendError::Service(AppError::TaskNotFound),
            ) && final(self).entries() == old(self).entries(),
            find_task(old(self).tasks(), task_id) is Some ==> match find_time_entry(old(self).entries(), entry_id) {
                None => r == Err::<(), BackendError>(BackendError::Service(AppError::TimeEntryNotFound))
                    && final(self).entries() == old(self).entries(),
                Some(found) => r == Ok::<(), BackendError>(()) && exists|e: TimeEntry|
                    e == (TimeEntry { task_id, updated_at: e.updated_at, ..found }) && in_chrono_range(
                        e.updated_at,
                    ) && final(self).entries() == replace_time_entry(old(self).entries(), e),
            },
    {
        let result = self.app.time_entry_service.assign_time_entry(entry_id, task_id);
        self.app.sync();
        match result {
            Ok(_) => Ok(()),
            Err(e) => Err(BackendError::Service(e)),
        }
    }

    /// Deletes a time entry (see `TimeEntryService::delete`).
    pub fn delete_time_entry(&mut self, entry_id: u128) -> (r: BackendResult<()>)
        requires
            old(self).app.in_step(),
        ensures
            old(self).keeps(*final(self), false, false, true, false),
            final(self).timer() == old(self).timer(),
            match find_time_entry(old(self).entries(), entry_id) {
                None => r == Err::<(), BackendError>(BackendError::Service(AppError::TimeEntryNotFound))
                    && final(self).entries() == old(self).entries(),
                Some(_) => r == Ok::<(), BackendError>(()) && final(self).entries() == old(self).entries().filter(
                    time_entry_id_is_not(entry_id),
                ),
            },
    {
        let result = self.app.time_entry_service.delete(entry_id);
        self.app.sync();
        match result {
            Ok(_) => Ok(()),
            Err(e) => Err(BackendError::Service(e)),
        }
    }

    /// Starts the timer for a task (see `TimeEntryService::start_timer`); a
    /// refusal is reported as the illegal action `Cannot start timer!`.
    pub fn start_timer(&mut self, task_id: u128) -> (r: BackendResult<()>)
        requires
            old(self).app.in_step(),
        ensures
            old(self).keeps(*final(self), false, false, true, false),
            final(self).entries() == old(self).entries(),
            old(self).timer() is None && find_task(old(self).tasks(), task_id) is Some ==> r == Ok::<
                (),
                BackendError,
            >(()) && (final(self).timer() matches Some(a) && a.task_id == task_id && in_chrono_range(
                a.start_time,
            )),
            !(old(self).timer() is None && find_task(old(self).tasks(), task_id) is Some) ==> (r matches Err(
                BackendError::App(crate::app_error::AppError::IllegalAction { action }),
            ) && action@ == "Cannot start timer!"@) && final(self).timer() == old(self).timer(),
    {
        let result = self.app.time_entry_service.start_timer(task_id);
        self.app.sync();
        match result {
            Ok(_) => Ok(()),
            Err(_) => Err(
                BackendError::App(
                    crate::app_error::AppError::IllegalAction {
                        action: String::from_str("Cannot start timer!"),
                    },
                ),
            ),
        }
    }

    /// Stops the timer (see `TimeEntryService::stop_timer`); a refusal is
    /// reported as the illegal action `Cannot stop timer!`.
    pub fn stop_timer(&mut self) -> (r: BackendResult<()>)
        requires
            old(self).app.in_step(),
        ensures
            old(self).keeps(*final(self), false, false, true, false),
            match old(self).timer() {
                None => (r matches Err(BackendError::App(crate::app_error::AppError::IllegalAction { action }))
                    && action@ == "Cannot stop timer!"@) && final(self).entries() == old(self).entries()
                    && final(self).timer() == old(self).timer(),
                Some(a) => r == Ok::<(), BackendError>(()) && final(self).timer() is None && exists|e: TimeEntry|
                    e == new_entry(e.id, a.task_id, a.start_time, e.end_time, e.end_time) && e.id != 0
                        && uuid_version(e.id) == 4 && in_chrono_range(e.end_time) && !has_time_entry(
                        old(self).entries(),
                        e.id,
                    ) && final(self).entries() == old(self).entries().push(e),
            },
    {
        let result = self.app.time_entry_service.stop_timer();
        self.app.sync();
        match result {
            Ok(e) => {
                proof {
                    let a = old(self).timer()->0;
                    assert(e == new_entry(e.id, a.task_id, a.start_time, e.end_time, e.end_time));
                    assert(self.entries() == old(self).entries().push(e));
                }
                Ok(())
            },
            Err(_) => Err(
                BackendError::App(
                    crate::app_error::AppError::IllegalAction {
                        action: String::from_str("Cannot stop timer!"),
                    },
                ),
            ),
        }
    }

    /// The day's report (see `ReportService::get_daily_work_time`).
    pub fn get_daily_time(&self) -> (r: BackendResult<DailyTimer>)
        requires
            ends_in_range(self.app.report_service.time_entry_repository@),
        ensures
            exists|now: i64, today: LocalDate, end_days: Seq<LocalDate>|
                {
                    &&& in_chrono_range(now)
                    &&& is_near_day(today, now)
                    &&& are_end_days(self.app.report_service.time_entry_repository@, end_days)
                    &&& r == (match ReportService::spec_daily_work_time_at(
                        &self.app.report_service,
                        now,
                        today,
                        weekday_of(today),
                        end_days,
                    ) {
                        Ok(d) => Ok(d),
                        Err(e) => Err(BackendError::Service(e)),
                    })
                },
    {
        match self.app.report_service.get_daily_work_time() {
            Ok(d) => Ok(d),
            Err(e) => Err(BackendError::Service(e)),
        }
    }

    /// Sets whether archived projects are listed (see
    /// `UserSettingsService::set_show_archived_projects`).
    pub fn set_show_archived_projects(&mut self, show_archived_projects: bool) -> (r: BackendResult<()>)
        requires
            old(self).app.in_step(),
        ensures
            r == Ok::<(), BackendError>(()),
            old(self).keeps(*final(self), false, false, false, true),
            final(self).settings() == (UserSettings {
                show_archived_projects,
                updated_at: final(self).settings().updated_at,
                ..old(self).settings()
            }),
            in_chrono_range(final(self).settings().updated_at),
    {
        self.app.user_settings_service.set_show_archived_projects(show_archived_projects);
        self.app.sync();
        Ok(())
    }

    /// Sets whether archived tasks are listed (see
    /// `UserSettingsService::set_show_archived_tasks`).
    pub fn set_show_archived_tasks(&mut self, show_archived_tasks: bool) -> (r: BackendResult<()>)
        requires
            old(self).app.in_step(),
        ensures
            r == Ok::<(), BackendError>(()),
            old(self).keeps(*final(self), false, false, false, true),
            final(self).settings() == (UserSettings {
                show_archived_tasks,
                updated_at: final(self).settings().updated_at,
                ..old(self).settings()
            }),
            in_chrono_range(final(self).settings().updated_at),
    {
        self.app.user_settings_service.set_show_archived_tasks(show_archived_tasks);
        self.app.sync();
        Ok(())
    }

    /// Sets the work target of a weekday, in minutes (see
    /// `UserSettingsService::set_work_target`).
    pub fn set_workday_work_targets(&mut self, target_time: u32, weekday: Weekday) -> (r: BackendResult<()>)
        requires
            old(self).app.in_step(),
        ensures
            r == Ok::<(), BackendError>(()),
            old(self).keeps(*final(self), false, false, false, true),
            final(self).settings() == with_work_target(old(self).settings(), weekday, target_time),
    {
        self.app.user_settings_service.set_work_target(target_time, weekday);
        self.app.sync();
        Ok(())
    }
}

} // verus!
