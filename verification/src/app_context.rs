//! The services of the tracker, built on one set of stores.

use crate::in_memory_active_timer_repository::InMemoryActiveTimerRepository;
use crate::in_memory_project_repository::InMemoryProjectRepository;
use crate::in_memory_task_repository::InMemoryTaskRepository;
use crate::in_memory_time_entry_repository::InMemoryTimeEntryRepository;
use crate::in_memory_user_settings_repository::InMemoryUserSettingsRepository;
use crate::project_service::ProjectService;
use crate::report_service::ReportService;
use crate::task_service::TaskService;
use crate::time_entry_service::TimeEntryService;
use crate::user_settings_service::UserSettingsService;
use crate::clock::{in_chrono_range, now_micros};
use crate::errors::{AppError, AppResult};
use crate::report_service::timer_minutes;
use vstd::prelude::*;

verus! {

/// The services of the tracker. Each service works on its own copy of the
/// stores it needs; all copies start from the same stores.
pub struct AppContext {
    pub project_service: ProjectService,
    pub task_service: TaskService,
    pub time_entry_service: TimeEntryService,
    pub report_service: ReportService,
    pub user_settings_service: UserSettingsService,
}

impl AppContext {
    /// Whether the services hold the given stores.
    pub open spec fn holds(
        &self,
        projects: Seq<crate::types::Project>,
        tasks: Seq<crate::types::Task>,
        entries: Seq<crate::types::TimeEntry>,
        active: Option<crate::types::ActiveTimer>,
        settings: crate::types::UserSettings,
    ) -> bool {
        &&& self.project_service.project_repository@ == projects
        &&& self.task_service.task_repository@ == tasks
        &&& self.task_service.project_repository@ == projects
        &&& self.time_entry_service.task_repository@ == tasks
        &&& self.time_entry_service.time_entry_repository@ == entries
        &&& self.time_entry_service.active_timer_repository@ == active
        &&& self.report_service.project_repository@ == projects
        &&& self.report_service.task_repository@ == tasks
        &&& self.report_service.time_entry_repository@ == entries
        &&& self.report_service.active_timer_repository@ == active
        &&& self.report_service.settings_repository@ == settings
        &&& self.user_settings_service.repository@ == settings
    }

    /// Whether `after` holds the same stores as `self` but perhaps the projects
    /// of the project service (when `projects`), the tasks of the task service
    /// (when `tasks`), and the time entries and the running timer of the time
    /// entry service (when `entries`): the stores that the commands change.
    pub open spec fn unchanged_except(&self, after: AppContext, projects: bool, tasks: bool, entries: bool) -> bool {
        &&& !projects ==> after.project_service.project_repository@ == self.project_service.project_repository@
        &&& !tasks ==> after.task_service.task_repository@ == self.task_service.task_repository@
        &&& !entries ==> after.time_entry_service.time_entry_repository@
            == self.time_entry_service.time_entry_repository@
        &&& !entries ==> after.time_entry_service.active_timer_repository@
            == self.time_entry_service.active_timer_repository@
        &&& after.task_service.project_repository@ == self.task_service.project_repository@
        &&& after.time_entry_service.task_repository@ == self.time_entry_service.task_repository@
        &&& after.report_service.project_repository@ == self.report_service.project_repository@
        &&& after.report_service.task_repository@ == self.report_service.task_repository@
        &&& after.report_service.time_entry_repository@ == self.report_service.time_entry_repository@
        &&& after.report_service.active_timer_repository@ == self.report_service.active_timer_repository@
        &&& after.report_service.settings_repository@ == self.report_service.settings_repository@
        &&& after.user_settings_service.repository@ == self.user_settings_service.repository@
    }

    /// The services, each on a copy of the given stores.
    pub fn new(
        project_repository: InMemoryProjectRepository,
        task_repository: InMemoryTaskRepository,
        time_entry_repository: InMemoryTimeEntryRepository,
        active_timer_repository: InMemoryActiveTimerRepository,
        settings_repository: InMemoryUserSettingsRepository,
    ) -> (r: Self)
        ensures
            r.holds(
                project_repository@,
                task_repository@,
                time_entry_repository@,
                active_timer_repository@,
                settings_repository@,
            ),
    {
        AppContext {
            project_service: ProjectService::new(project_repository.clone()),
            task_service: TaskService::new(task_repository.clone(), project_repository.clone()),
            time_entry_service: TimeEntryService::new(
                task_repository.clone(),
                time_entry_repository.clone(),
                active_timer_repository.clone(),
            ),
            report_service: ReportService::new(
                project_repository,
                task_repository,
                time_entry_repository,
                active_timer_repository,
                settings_repository.clone(),
            ),
            user_settings_service: UserSettingsService::new(settings_repository),
        }
    }

    /// Whether every copy of a store holds what the service that changes the
    /// store holds: the projects of the project service, the tasks of the task
    /// service, the time entries and the timer of the time entry service, and
    /// the settings of the settings service.
    pub open spec fn in_step(&self) -> bool {
        self.holds(
            self.project_service.project_repository@,
            self.task_service.task_repository@,
            self.time_entry_service.time_entry_repository@,
            self.time_entry_service.active_timer_repository@,
            self.user_settings_service.repository@,
        )
    }

    /// Whether `other`'s services that change the stores hold the same stores
    /// as `self`'s.
    pub open spec fn same_stores(&self, other: AppContext) -> bool {
        &&& other.project_service.project_repository@ == self.project_service.project_repository@
        &&& other.task_service.task_repository@ == self.task_service.task_repository@
        &&& other.time_entry_service.time_entry_repository@ == self.time_entry_service.time_entry_repository@
        &&& other.time_entry_service.active_timer_repository@
            == self.time_entry_service.active_timer_repository@
        &&& other.user_settings_service.repository@ == self.user_settings_service.repository@
    }

    /// Brings every copy of a store in line with the service that changes the
    /// store (see [`Self::in_step`]).
    pub fn sync(&mut self)
        ensures
            final(self).in_step(),
            final(self).project_service.project_repository@ == old(self).project_service.project_repository@,
            final(self).task_service.task_repository@ == old(self).task_service.task_repository@,
            final(self).time_entry_service.time_entry_repository@
                == old(self).time_entry_service.time_entry_repository@,
            final(self).time_entry_service.active_timer_repository@
                == old(self).time_entry_service.active_timer_repository@,
            final(self).user_settings_service.repository@ == old(self).user_settings_service.repository@,
    {
        self.task_service.project_repository = self.project_service.project_repository.clone();
        self.report_service.project_repository = self.project_service.project_repository.clone();
        self.time_entry_service.task_repository = self.task_service.task_repository.clone();
        self.report_service.task_repository = self.task_service.task_repository.clone();
        self.report_service.time_entry_repository = self.time_entry_service.time_entry_repository.clone();
        self.report_service.active_timer_repository = self.time_entry_service.active_timer_repository.clone();
        self.report_service.settings_repository = self.user_settings_service.repository.clone();
    }

    /// The minutes that the running timer has run now, if one runs.
    pub fn get_active_time(&self) -> (r: AppResult<Option<u32>>)
        ensures
            match self.report_service.active_timer_repository@ {
                None => r == Ok::<Option<u32>, AppError>(None),
                Some(a) => exists|now: i64|
                    in_chrono_range(now) && r == Ok::<Option<u32>, AppError>(
                        Some(timer_minutes(a.start_time, now)),
                    ),
            },
    {
        let active_time = match self.report_service.get_active_timer_start_time() {
            Ok(t) => t,
            Err(e) => {
                return Err(e);
            },
        };
        match active_time {
            Some(_) => {
                let current = now_micros();
                Ok(self.report_service.get_currently_active_timer_elapsed_minutes(current))
            },
            None => Ok(None),
        }
    }
}

} // verus!
