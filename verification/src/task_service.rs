//! Creating, finding, renaming, moving and deleting tasks. Task names are kept
//! unique within a project: a name that is taken there gets a numeric suffix.

use crate::clock::{in_chrono_range, now_micros};
use crate::errors::{AppError, AppResult};
use crate::ids::{fresh_id, new_v4, uuid_version};
use crate::laws::lemma_created_task_is_found;
use crate::in_memory_project_repository::{find_project, InMemoryProjectRepository};
use crate::in_memory_task_repository::{
    find_task, has_task, lemma_has_task_ids, replace_task, task_id_is_not, task_in_project, upsert_task,
    InMemoryTaskRepository,
};
use crate::naming_service::{claims_fit, modify_name_with_count_of_equals, texts, unique_name};
use crate::types::Task;
use vstd::prelude::*;

verus! {

broadcast use vstd::seq_lib::group_seq_properties;

/// Holds for the tasks of one project.
pub open spec fn task_of_project(project_id: u128) -> spec_fn(Task) -> bool {
    |t: Task| t.project_id == project_id
}

/// The names of the tasks of one project, in order.
pub open spec fn task_names_in(s: Seq<Task>, project_id: u128) -> Seq<Seq<char>> {
    s.filter(task_of_project(project_id)).map_values(|t: Task| t.name@)
}

/// What looking a task up by id gives: the first task with the id.
pub open spec fn task_lookup(s: Seq<Task>, id: u128) -> AppResult<Task> {
    match find_task(s, id) {
        Some(t) => Ok(t),
        None => Err(AppError::TaskNotFound),
    }
}

/// Whether `t` is the task that is created with this name, project, id and
/// time: no time limit, not archived, created and updated at `now`.
pub open spec fn is_new_task(t: Task, name: Seq<char>, project_id: u128, id: u128, now: i64) -> bool {
    &&& t.id == id
    &&& t.project_id == project_id
    &&& t.name@ == name
    &&& t.time_limit is None
    &&& !t.is_archived
    &&& t.created_at == now
    &&& t.updated_at == now
}

/// Whether `t` is the task that is created with this name, time limit,
/// project, id and time: not archived, created and updated at `now`.
pub open spec fn is_new_limited_task(t: Task, name: Seq<char>, time_limit: Option<u32>, project_id: u128, id: u128, now: i64) -> bool {
    &&& t.id == id
    &&& t.project_id == project_id
    &&& t.name@ == name
    &&& t.time_limit == time_limit
    &&& !t.is_archived
    &&& t.created_at == now
    &&& t.updated_at == now
}

/// Whether `t` is `old` with the given name and project, updated at `now`.
pub open spec fn is_changed_task(t: Task, old: Task, name: Seq<char>, project_id: u128, now: i64) -> bool {
    &&& t.id == old.id
    &&& t.project_id == project_id
    &&& t.name@ == name
    &&& t.time_limit == old.time_limit
    &&& t.is_archived == old.is_archived
    &&& t.created_at == old.created_at
    &&& t.updated_at == now
}

/// Whether `t` is `old` with the given time limit and archive flag, marked as
/// updated at `now`.
pub open spec fn is_restated_task(t: Task, old: Task, time_limit: Option<u32>, is_archived: bool, now: i64) -> bool {
    &&& t.id == old.id
    &&& t.project_id == old.project_id
    &&& t.name == old.name
    &&& t.time_limit == time_limit
    &&& t.is_archived == is_archived
    &&& t.created_at == old.created_at
    &&& t.updated_at == now
}

/// The task operations, on the stores of tasks and of projects.
pub struct TaskService {
    pub task_repository: InMemoryTaskRepository,
    pub project_repository: InMemoryProjectRepository,
}

impl TaskService {
    pub fn new(
        task_repository: InMemoryTaskRepository,
        project_repository: InMemoryProjectRepository,
    ) -> (r: Self)
        ensures
            r.task_repository@ == task_repository@,
            r.project_repository@ == project_repository@,
    {
        TaskService { task_repository, project_repository }
    }

    /// Creates a task with a fresh random id at the current time (see
    /// [`Self::create_with`]).
    pub fn create(&mut self, task_name: &str, project: &u128) -> (r: AppResult<Task>)
        requires
            task_name@.len() > 0 && find_project(old(self).project_repository@, *project) is Some
                ==> claims_fit(task_name@, task_names_in(old(self).task_repository@, *project)),
        ensures
            final(self).project_repository@ == old(self).project_repository@,
            task_name@.len() == 0 ==> r == Err::<Task, AppError>(AppError::EmptyName)
                && final(self).task_repository@ == old(self).task_repository@,
            task_name@.len() > 0 && find_project(old(self).project_repository@, *project) is None
                ==> r == Err::<Task, AppError>(AppError::ProjectNotFound)
                && final(self).task_repository@ == old(self).task_repository@,
            task_name@.len() > 0 && find_project(old(self).project_repository@, *project) is Some
                ==> (r matches Ok(t) && is_new_task(
                t,
                unique_name(task_name@, task_names_in(old(self).task_repository@, *project)),
                *project,
                t.id,
                t.created_at,
            ) && t.id != 0 && uuid_version(t.id) == 4 && in_chrono_range(t.created_at)
                && !has_task(old(self).task_repository@, t.id) && find_task(final(self).task_repository@, t.id)
                == Some(t) && final(self).task_repository@ == old(self).task_repository@.push(t)),
    {
        let drawn = new_v4();
        let taken = self.task_repository.ids();
        let id = fresh_id(drawn, &taken);
        let now = now_micros();
        let ghost before = self.task_repository@;
        proof {
            lemma_has_task_ids(before, id);
        }
        let r = self.create_with(task_name, project, id, now);
        proof {
            if r is Ok {
                lemma_created_task_is_found(before, r->Ok_0);
            }
        }
        r
    }

    /// Creates a task with the given id at the given time.
    ///
    /// An empty name is refused with `EmptyName`, then a project that is not
    /// found with `ProjectNotFound`. Otherwise the name is made unique among the
    /// names of the project's tasks, and the task is stored after the others.
    pub fn create_with(&mut self, task_name: &str, project: &u128, id: u128, now: i64) -> (r:
        AppResult<Task>)
        requires
            task_name@.len() > 0 && find_project(old(self).project_repository@, *project) is Some
                ==> claims_fit(task_name@, task_names_in(old(self).task_repository@, *project)),
        ensures
            final(self).project_repository@ == old(self).project_repository@,
            task_name@.len() == 0 ==> r == Err::<Task, AppError>(AppError::EmptyName)
                && final(self).task_repository@ == old(self).task_repository@,
            task_name@.len() > 0 && find_project(old(self).project_repository@, *project) is None
                ==> r == Err::<Task, AppError>(AppError::ProjectNotFound)
                && final(self).task_repository@ == old(self).task_repository@,
            task_name@.len() > 0 && find_project(old(self).project_repository@, *project) is Some
                ==> (r matches Ok(t) && is_new_task(
                t,
                unique_name(task_name@, task_names_in(old(self).task_repository@, *project)),
                *project,
                id,
                now,
            ) && final(self).task_repository@ == old(self).task_repository@.push(t)),
    {
        self.create_limited_with(task_name, project, None, id, now)
    }

    /// Creates a task with a time limit, a fresh random id and the current
    /// time (see [`Self::create_limited_with`]).
    pub fn create_limited(&mut self, task_name: &str, project: &u128, time_limit: Option<u32>) -> (r:
        AppResult<Task>)
        requires
            task_name@.len() > 0 && find_project(old(self).project_repository@, *project) is Some
                ==> claims_fit(task_name@, task_names_in(old(self).task_repository@, *project)),
        ensures
            final(self).project_repository@ == old(self).project_repository@,
            task_name@.len() == 0 ==> r == Err::<Task, AppError>(AppError::EmptyName)
                && final(self).task_repository@ == old(self).task_repository@,
            task_name@.len() > 0 && find_project(old(self).project_repository@, *project) is None
                ==> r == Err::<Task, AppError>(AppError::ProjectNotFound)
                && final(self).task_repository@ == old(self).task_repository@,
            task_name@.len() > 0 && find_project(old(self).project_repository@, *project) is Some
                ==> (r matches Ok(t) && is_new_limited_task(
                t,
                unique_name(task_name@, task_names_in(old(self).task_repository@, *project)),
                time_limit,
                *project,
                t.id,
                t.created_at,
            ) && t.id != 0 && uuid_version(t.id) == 4 && in_chrono_range(t.created_at)
                && !has_task(old(self).task_repository@, t.id) && find_task(final(self).task_repository@, t.id)
                == Some(t) && final(self).task_repository@ == old(self).task_repository@.push(t)),
    {
        let drawn = new_v4();
        let taken = self.task_repository.ids();
        let id = fresh_id(drawn, &taken);
        let now = now_micros();
        let ghost before = self.task_repository@;
        proof {
            lemma_has_task_ids(before, id);
        }
        let r = self.create_limited_with(task_name, project, time_limit, id, now);
        proof {
            if r is Ok {
                lemma_created_task_is_found(before, r->Ok_0);
            }
        }
        r
    }

    /// Creates a task with a time limit (in minutes; `None` for none), the
    /// given id and the given time. An empty name is refused with
    /// `EmptyName`, then a project that is not found with `ProjectNotFound`.
    /// Otherwise the name is made unique among the names of the project's
    /// tasks, and the task is stored after the others.
    pub fn create_limited_with(&mut self, task_name: &str, project: &u128, time_limit: Option<u32>, id: u128, now: i64) -> (r:
        AppResult<Task>)
        requires
            task_name@.len() > 0 && find_project(old(self).project_repository@, *project) is Some
                ==> claims_fit(task_name@, task_names_in(old(self).task_repository@, *project)),
        ensures
            final(self).project_repository@ == old(self).project_repository@,
            task_name@.len() == 0 ==> r == Err::<Task, AppError>(AppError::EmptyName)
                && final(self).task_repository@ == old(self).task_repository@,
            task_name@.len() > 0 && find_project(old(self).project_repository@, *project) is None
                ==> r == Err::<Task, AppError>(AppError::ProjectNotFound)
                && final(self).task_repository@ == old(self).task_repository@,
            task_name@.len() > 0 && find_project(old(self).project_repository@, *project) is Some
                ==> (r matches Ok(t) && is_new_limited_task(
                t,
                unique_name(task_name@, task_names_in(old(self).task_repository@, *project)),
                time_limit,
                *project,
                id,
                now,
            ) && final(self).task_repository@ == old(self).task_repository@.push(t)),
    {
        if task_name.unicode_len() == 0 {
            return Err(AppError::EmptyName);
        }
        if self.project_repository.find_by_id(*project).is_none() {
            return Err(AppError::ProjectNotFound);
        }
        let tasks = self.task_repository.find_all(true);
        let unique_name = self.create_unique_task_name(task_name, &tasks, *project);
        let task = Task {
            id,
            project_id: *project,
            name: unique_name,
            time_limit,
            is_archived: false,
            created_at: now,
            updated_at: now,
        };
        self.task_repository.create(task.clone());
        Ok(task)
    }

    /// All tasks, archived ones too, in the order in which they were stored.
    pub fn find_all(&self) -> (r: AppResult<Vec<Task>>)
        ensures
            r matches Ok(v) && v@ == self.task_repository@,
    {
        Ok(self.task_repository.find_all(true))
    }

    /// The first task with the given id.
    pub fn find_by_id(&self, task_id: u128) -> (r: AppResult<Task>)
        ensures
            r == task_lookup(self.task_repository@, task_id),
    {
        match self.task_repository.find_by_id(task_id) {
            Some(task) => Ok(task),
            None => Err(AppError::TaskNotFound),
        }
    }

    /// The tasks of a project, archived ones too, in the order in which they
    /// were stored.
    pub fn find_by_project_id(&self, project_id: u128) -> (r: AppResult<Vec<Task>>)
        ensures
            r matches Ok(v) && v@ == self.task_repository@.filter(task_in_project(project_id, true)),
    {
        Ok(self.task_repository.find_by_project_id(project_id, true))
    }

    /// Stores a task unless a copy of it that was updated at the same time or
    /// later is stored (see [`upsert_task`]).
    /// A stored copy that is replaced keeps its creation time.
    pub fn upsert(&mut self, task: Task) -> (r: AppResult<()>)
        ensures
            r == Ok::<(), AppError>(()),
            final(self).task_repository@ == upsert_task(old(self).task_repository@, task),
            final(self).project_repository@ == old(self).project_repository@,
    {
        self.task_repository.upsert(task);
        Ok(())
    }

    /// Gives a task a time limit and an archive flag at the given time. A task
    /// that is not found is refused with `TaskNotFound`; otherwise the task
    /// keeps its other fields and is marked as updated at `now`.
    fn restate_task_with(&mut self, task_id: u128, time_limit: Option<u32>, is_archived: bool, now: i64) -> (r:
        AppResult<Task>)
        ensures
            final(self).project_repository@ == old(self).project_repository@,
            match find_task(old(self).task_repository@, task_id) {
                None => r == Err::<Task, AppError>(AppError::TaskNotFound)
                    && final(self).task_repository@ == old(self).task_repository@,
                Some(found) => r matches Ok(t) && is_restated_task(t, found, time_limit, is_archived, now)
                    && final(self).task_repository@ == replace_task(old(self).task_repository@, t),
            },
    {
        let task = match self.find_by_id(task_id) {
            Ok(task) => task,
            Err(e) => {
                return Err(e);
            },
        };
        let new_task = Task {
            id: task.id,
            project_id: task.project_id,
            name: task.name,
            time_limit,
            is_archived,
            created_at: task.created_at,
            updated_at: now,
        };
        self.task_repository.update(new_task.clone());
        Ok(new_task)
    }

    /// Sets a task's time limit at the current time (see
    /// [`Self::edit_time_limit_with`]).
    pub fn edit_time_limit(&mut self, task_id: u128, time_limit: Option<u32>) -> (r: AppResult<Task>)
        ensures
            final(self).project_repository@ == old(self).project_repository@,
            match find_task(old(self).task_repository@, task_id) {
                None => r == Err::<Task, AppError>(AppError::TaskNotFound)
                    && final(self).task_repository@ == old(self).task_repository@,
                Some(found) => r matches Ok(t) && is_restated_task(t, found, time_limit, found.is_archived, t.updated_at)
                    && in_chrono_range(t.updated_at)
                    && final(self).task_repository@ == replace_task(old(self).task_repository@, t),
            },
    {
        let now = now_micros();
        self.edit_time_limit_with(task_id, time_limit, now)
    }

    /// Sets a task's time limit (in minutes; `None` for none) at the given
    /// time. A task that is not found is refused with `TaskNotFound`;
    /// otherwise the task keeps its other fields and is marked as updated at
    /// `now`.
    pub fn edit_time_limit_with(&mut self, task_id: u128, time_limit: Option<u32>, now: i64) -> (r:
        AppResult<Task>)
        ensures
            final(self).project_repository@ == old(self).project_repository@,
            match find_task(old(self).task_repository@, task_id) {
                None => r == Err::<Task, AppError>(AppError::TaskNotFound)
                    && final(self).task_repository@ == old(self).task_repository@,
                Some(found) => r matches Ok(t) && is_restated_task(t, found, time_limit, found.is_archived, now)
                    && final(self).task_repository@ == replace_task(old(self).task_repository@, t),
            },
    {
        let is_archived = match self.task_repository.find_by_id(task_id) {
            Some(task) => task.is_archived,
            None => false,
        };
        self.restate_task_with(task_id, time_limit, is_archived, now)
    }

    /// Archives a task at the current time (see [`Self::set_archived_with`]).
    pub fn archive_task(&mut self, task_id: u128) -> (r: AppResult<Task>)
        ensures
            final(self).project_repository@ == old(self).project_repository@,
            match find_task(old(self).task_repository@, task_id) {
                None => r == Err::<Task, AppError>(AppError::TaskNotFound)
                    && final(self).task_repository@ == old(self).task_repository@,
                Some(found) => r matches Ok(t) && is_restated_task(t, found, found.time_limit, true, t.updated_at)
                    && in_chrono_range(t.updated_at)
                    && final(self).task_repository@ == replace_task(old(self).task_repository@, t),
            },
    {
        let now = now_micros();
        self.set_archived_with(task_id, true, now)
    }

    /// Takes a task out of the archive at the current time (see
    /// [`Self::set_archived_with`]).
    pub fn unarchive_task(&mut self, task_id: u128) -> (r: AppResult<Task>)
        ensures
            final(self).project_repository@ == old(self).project_repository@,
            match find_task(old(self).task_repository@, task_id) {
                None => r == Err::<Task, AppError>(AppError::TaskNotFound)
                    && final(self).task_repository@ == old(self).task_repository@,
                Some(found) => r matches Ok(t) && is_restated_task(t, found, found.time_limit, false, t.updated_at)
                    && in_chrono_range(t.updated_at)
                    && final(self).task_repository@ == replace_task(old(self).task_repository@, t),
            },
    {
        let now = now_micros();
        self.set_archived_with(task_id, false, now)
    }

    /// Puts a task into the archive or takes it out, at the given time. A task
    /// that is not found is refused with `TaskNotFound`; otherwise the task
    /// keeps its other fields and is marked as updated at `now`.
    pub fn set_archived_with(&mut self, task_id: u128, is_archived: bool, now: i64) -> (r: AppResult<Task>)
        ensures
            final(self).project_repository@ == old(self).project_repository@,
            match find_task(old(self).task_repository@, task_id) {
                None => r == Err::<Task, AppError>(AppError::TaskNotFound)
                    && final(self).task_repository@ == old(self).task_repository@,
                Some(found) => r matches Ok(t) && is_restated_task(t, found, found.time_limit, is_archived, now)
                    && final(self).task_repository@ == replace_task(old(self).task_repository@, t),
            },
    {
        let time_limit = match self.task_repository.find_by_id(task_id) {
            Some(task) => task.time_limit,
            None => None,
        };
        self.restate_task_with(task_id, time_limit, is_archived, now)
    }

    /// Renames a task at the current time (see [`Self::edit_task_name_with`]).
    pub fn edit_task_name(&mut self, task_id: u128, new_name: &str) -> (r: AppResult<Task>)
        requires
            forall|found: Task|
                find_task(old(self).task_repository@, task_id) == Some(found) ==> claims_fit(
                    new_name@,
                    task_names_in(old(self).task_repository@, found.project_id),
                ),
        ensures
            final(self).project_repository@ == old(self).project_repository@,
            match find_task(old(self).task_repository@, task_id) {
                None => r == Err::<Task, AppError>(AppError::TaskNotFound)
                    && final(self).task_repository@ == old(self).task_repository@,
                Some(found) => r matches Ok(t) && is_changed_task(
                    t,
                    found,
                    unique_name(new_name@, task_names_in(old(self).task_repository@, found.project_id)),
                    found.project_id,
                    t.updated_at,
                ) && in_chrono_range(t.updated_at) && final(self).task_repository@ == replace_task(
                    old(self).task_repository@,
                    t,
                ),
            },
    {
        let now = now_micros();
        self.edit_task_name_with(task_id, new_name, now)
    }

    /// Renames a task at the given time.
    ///
    /// A task that is not found is refused with `TaskNotFound`. Otherwise the
    /// new name is made unique among the names of the tasks of the task's
    /// project (the task's own current name among them); the task keeps its
    /// other fields and is marked as updated at `now`.
    pub fn edit_task_name_with(&mut self, task_id: u128, new_name: &str, now: i64) -> (r: AppResult<
        Task,
    >)
        requires
            forall|found: Task|
                find_task(old(self).task_repository@, task_id) == Some(found) ==> claims_fit(
                    new_name@,
                    task_names_in(old(self).task_repository@, found.project_id),
                ),
        ensures
            final(self).project_repository@ == old(self).project_repository@,
            match find_task(old(self).task_repository@, task_id) {
                None => r == Err::<Task, AppError>(AppError::TaskNotFound)
                    && final(self).task_repository@ == old(self).task_repository@,
                Some(found) => r matches Ok(t) && is_changed_task(
                    t,
                    found,
                    unique_name(new_name@, task_names_in(old(self).task_repository@, found.project_id)),
                    found.project_id,
                    now,
                ) && final(self).task_repository@ == replace_task(old(self).task_repository@, t),
            },
    {
        let tasks = self.task_repository.find_all(true);
        let task = match self.find_by_id(task_id) {
            Ok(task) => task,
            Err(e) => {
                return Err(e);
            },
        };
        let unique_name = self.create_unique_task_name(new_name, &tasks, task.project_id);
        let new_task = Task {
            id: task.id,
            project_id: task.project_id,
            name: unique_name,
            time_limit: task.time_limit,
            is_archived: task.is_archived,
            created_at: task.created_at,
            updated_at: now,
        };
        self.task_repository.update(new_task.clone());
        Ok(new_task)
    }

    /// Moves a task to another project at the current time (see
    /// [`Self::edit_task_project_relation_with`]).
    pub fn edit_task_project_relation(&mut self, task_id: u128, project: u128) -> (r: AppResult<Task>)
        requires
            forall|found: Task|
                find_task(old(self).task_repository@, task_id) == Some(found) ==> claims_fit(
                    found.name@,
                    task_names_in(old(self).task_repository@, project),
                ),
        ensures
            final(self).project_repository@ == old(self).project_repository@,
            find_project(old(self).project_repository@, project) is None ==> r == Err::<
                Task,
                AppError,
            >(AppError::ProjectNotFound) && final(self).task_repository@ == old(self).task_repository@,
            find_project(old(self).project_repository@, project) is Some ==> match find_task(
                old(self).task_repository@,
                task_id,
            ) {
                None => r == Err::<Task, AppError>(AppError::TaskNotFound)
                    && final(self).task_repository@ == old(self).task_repository@,
                Some(found) => r matches Ok(t) && is_changed_task(
                    t,
                    found,
                    unique_name(found.name@, task_names_in(old(self).task_repository@, project)),
                    project,
                    t.updated_at,
                ) && in_chrono_range(t.updated_at) && final(self).task_repository@ == replace_task(
                    old(self).task_repository@,
                    t,
                ),
            },
    {
        let now = now_micros();
        self.edit_task_project_relation_with(task_id, project, now)
    }

    /// Moves a task to another project at the given time.
    ///
    /// A project that is not found is refused with `ProjectNotFound`, then a
    /// task that is not found with `TaskNotFound`. Otherwise the task's name is
    /// made unique among the names of the tasks of the new project (the task's
    /// own name among them when it stays in its project); the task keeps its
    /// other fields and is marked as updated at `now`.
    pub fn edit_task_project_relation_with(&mut self, task_id: u128, project: u128, now: i64) -> (r:
        AppResult<Task>)
        requires
            forall|found: Task|
                find_task(old(self).task_repository@, task_id) == Some(found) ==> claims_fit(
                    found.name@,
                    task_names_in(old(self).task_repository@, project),
                ),
        ensures
            final(self).project_repository@ == old(self).project_repository@,
            find_project(old(self).project_repository@, project) is None ==> r == Err::<
                Task,
                AppError,
            >(AppError::ProjectNotFound) && final(self).task_repository@ == old(self).task_repository@,
            find_project(old(self).project_repository@, project) is Some ==> match find_task(
                old(self).task_repository@,
                task_id,
            ) {
                None => r == Err::<Task, AppError>(AppError::TaskNotFound)
                    && final(self).task_repository@ == old(self).task_repository@,
                Some(found) => r matches Ok(t) && is_changed_task(
                    t,
                    found,
                    unique_name(found.name@, task_names_in(old(self).task_repository@, project)),
                    project,
                    now,
                ) && final(self).task_repository@ == replace_task(old(self).task_repository@, t),
            },
    {
        if self.project_repository.find_by_id(project).is_none() {
            return Err(AppError::ProjectNotFound);
        }
        let tasks = self.task_repository.find_all(true);
        let task = match self.find_by_id(task_id) {
            Ok(task) => task,
            Err(e) => {
                return Err(e);
            },
        };
        let unique_name = self.create_unique_task_name(task.name.as_str(), &tasks, project);
        let new_task = Task {
            id: task.id,
            project_id: project,
            name: unique_name,
            time_limit: task.time_limit,
            is_archived: task.is_archived,
            created_at: task.created_at,
            updated_at: now,
        };
        self.task_repository.update(new_task.clone());
        Ok(new_task)
    }

    /// Deletes a task. A task that is not found is refused with `TaskNotFound`;
    /// otherwise every task with the id is removed.
    pub fn delete(&mut self, task_id: u128) -> (r: AppResult<()>)
        ensures
            final(self).project_repository@ == old(self).project_repository@,
            match find_task(old(self).task_repository@, task_id) {
                None => r == Err::<(), AppError>(AppError::TaskNotFound)
                    && final(self).task_repository@ == old(self).task_repository@,
                Some(_) => r == Ok::<(), AppError>(()) && final(self).task_repository@ == old(self).task_repository@.filter(task_id_is_not(task_id)),
            },
    {
        if self.find_by_id(task_id).is_err() {
            return Err(AppError::TaskNotFound);
        }
        self.task_repository.delete(task_id);
        Ok(())
    }

    /// `task_name` made unique among the names of the tasks of `project_id`.
    fn create_unique_task_name(&self, task_name: &str, tasks: &Vec<Task>, project_id: u128) -> (r:
        String)
        requires
            claims_fit(task_name@, task_names_in(tasks@, project_id)),
        ensures
            r@ == unique_name(task_name@, task_names_in(tasks@, project_id)),
    {
        let names = task_name_list_in(tasks, project_id);
        modify_name_with_count_of_equals(task_name, names.as_slice())
    }
}

/// The names of the tasks of one project, in order.
pub fn task_name_list_in(tasks: &Vec<Task>, project_id: u128) -> (r: Vec<String>)
    ensures
        texts(r@) == task_names_in(tasks@, project_id),
{
    let ghost s = tasks@;
    let mut names: Vec<String> = Vec::new();
    let mut i: usize = 0;
    while i < tasks.len()
        invariant
            s == tasks@,
            0 <= i <= s.len(),
            texts(names@) == task_names_in(s.take(i as int), project_id),
        decreases s.len() - i,
    {
        let ghost before = names@;
        assert(s.take(i + 1) =~= s.take(i as int).push(s[i as int]));
        proof {
            s.take(i as int).lemma_filter_push(s[i as int], task_of_project(project_id));
        }
        if tasks[i].project_id == project_id {
            names.push(tasks[i].name.clone());
            assert(texts(names@) =~= texts(before).push(s[i as int].name@));
            assert(task_names_in(s.take(i + 1), project_id) =~= task_names_in(
                s.take(i as int),
                project_id,
            ).push(s[i as int].name@));
        }
        i += 1;
    }
    assert(s.take(s.len() as int) =~= s);
    names
}

} // verus!
