use chrono::TimeZone;
use chrono_forge::errors::AppError;
use chrono_forge::in_memory_active_timer_repository::InMemoryActiveTimerRepository;
use chrono_forge::in_memory_project_repository::InMemoryProjectRepository;
use chrono_forge::in_memory_task_repository::InMemoryTaskRepository;
use chrono_forge::in_memory_time_entry_repository::InMemoryTimeEntryRepository;
use chrono_forge::project_service::ProjectService;
use chrono_forge::task_service::TaskService;
use chrono_forge::time_entry_service::TimeEntryService;
use chrono_forge::types::ActiveTimer;

fn random_id() -> u128 {
    uuid::Uuid::new_v4().as_u128()
}

struct Context {
    service: TimeEntryService,
    task_ids: Vec<u128>,
}

impl Context {
    fn new() -> Self {
        let mut project_service = ProjectService::new(InMemoryProjectRepository::new());
        let project_01 = project_service.create("Project01".to_string()).unwrap();
        let project_02 = project_service.create("Project02".to_string()).unwrap();

        let mut task_service = TaskService::new(
            InMemoryTaskRepository::new(),
            project_service.project_repository.clone(),
        );
        let task_01 = task_service.create("Task01", &project_01.id).unwrap();
        let task_02 = task_service.create("Task02", &project_02.id).unwrap();
        let task_03 = task_service.create("Task03", &project_01.id).unwrap();
        let task_04 = task_service.create("Task04", &project_02.id).unwrap();

        let service = TimeEntryService::new(
            task_service.task_repository.clone(),
            InMemoryTimeEntryRepository::new(),
            InMemoryActiveTimerRepository::new(),
        );
        let task_ids = vec![task_01.id, task_02.id, task_03.id, task_04.id];
        Self { service, task_ids }
    }
}

fn utc(year: i32, month: u32, day: u32, hour: u32, min: u32) -> i64 {
    chrono::Utc.with_ymd_and_hms(year, month, day, hour, min, 0).unwrap().timestamp_micros()
}

#[test]
fn create_manual_entry() {
    let mut context = Context::new();

    let start_time = utc(2026, 05, 08, 22, 05);
    let end_time = utc(2026, 05, 08, 22, 07);
    let result = context.service.create_manual(start_time, end_time, context.task_ids[0]);
    assert!(result.is_ok());
    let result = result.unwrap();
    assert_eq!(result.start_time, start_time);
    assert_eq!(result.end_time, end_time);
    assert_ne!(result.id, uuid::Uuid::default().as_u128());
    assert_eq!(result.task_id, context.task_ids[0]);
}

#[test]
fn create_time_entry_with_invalid_time() {
    let mut context = Context::new();

    let end_time = utc(2026, 05, 08, 22, 05);
    let start_time = utc(2026, 05, 08, 22, 07);
    let result = context.service.create_manual(start_time, end_time, context.task_ids[0]);
    assert!(result.is_err());
    assert!(matches!(result.err().unwrap(), AppError::InvalidTimeRange))
}

#[test]
fn create_time_entry_with_invalid_task() {
    let mut context = Context::new();

    let end_time = utc(2026, 05, 08, 22, 05);
    let start_time = utc(2026, 05, 08, 22, 07);
    let result = context.service.create_manual(start_time, end_time, random_id());
    assert!(result.is_err());
    assert!(matches!(result.err().unwrap(), AppError::TaskNotFound))
}

#[test]
fn start_timer() {
    let mut context = Context::new();

    let result = context.service.start_timer(context.task_ids[0]);
    assert!(result.is_ok());
    let result = result.unwrap();

    assert_eq!(result.task_id, context.task_ids[0]);
    let nanosecond = result.start_time.rem_euclid(1_000_000) * 1_000;
    assert!(nanosecond > 0);

    assert!(context.service.active_timer_repository.get_active_timer().is_some());
}

#[test]
fn start_timer_while_another_is_already_started() {
    let mut context = Context::new();

    let result = context.service.start_timer(context.task_ids[0]);
    assert!(result.is_ok());

    let second_result = context.service.start_timer(context.task_ids[1]);
    assert!(second_result.is_err());
    assert!(matches!(second_result.err().unwrap(), AppError::TimerAlreadyRunning))
}

#[test]
fn start_timer_with_invalid_task_id() {
    let mut context = Context::new();
    let result = context.service.start_timer(random_id());
    assert!(result.is_err());
    assert!(matches!(result.err().unwrap(), AppError::TaskNotFound))
}

#[test]
fn stop_timer_with_active_timer_running() {
    let mut context = Context::new();

    let active = ActiveTimer { task_id: context.task_ids[0], start_time: utc(2000, 05, 08, 22, 05) };
    context.service.active_timer_repository.set(active);

    let result = context.service.stop_timer();
    assert!(result.is_ok());
    let result = result.unwrap();

    assert_eq!(result.task_id, active.task_id);
    assert_eq!(result.start_time, active.start_time);
    assert!(result.end_time > active.start_time);
    assert_ne!(result.id, uuid::Uuid::default().as_u128());

    assert!(context.service.active_timer_repository.get_active_timer().is_none())
}

#[test]
fn stop_timer_with_no_active_timer_running() {
    let mut context = Context::new();

    let result = context.service.stop_timer();
    assert!(result.is_err());
    assert!(matches!(result.err().unwrap(), AppError::NoActiveTimer))
}

#[test]
fn delete_time_entry_with_valid_id() {
    let mut context = Context::new();
    let time_entry = context
        .service
        .create_manual(utc(2026, 05, 09, 14, 10), utc(2026, 05, 09, 14, 13), context.task_ids[0])
        .unwrap();

    let result = context.service.delete(time_entry.id);
    assert!(result.is_ok());
}

#[test]
fn delete_time_entry_with_invalid_id() {
    let mut context = Context::new();

    let result = context.service.delete(random_id());
    assert!(result.is_err());
    assert!(matches!(result.err().unwrap(), AppError::TimeEntryNotFound))
}

#[test]
fn find_time_entries_by_valid_task_id() {
    let mut context = Context::new();
    context
        .service
        .create_manual(utc(2026, 05, 09, 14, 10), utc(2026, 05, 09, 14, 13), context.task_ids[0])
        .unwrap();
    context
        .service
        .create_manual(utc(2026, 05, 09, 14, 10), utc(2026, 05, 09, 14, 13), context.task_ids[0])
        .unwrap();
    context
        .service
        .create_manual(utc(2026, 05, 09, 14, 10), utc(2026, 05, 09, 14, 13), context.task_ids[1])
        .unwrap();

    let expected_entries = 2;
    let result = context.service.find_all_entries_of_task(context.task_ids[0]);
    assert!(result.is_ok());
    let result = result.unwrap();
    assert_eq!(result.len(), expected_entries);
}

#[test]
fn find_time_entries_by_invalid_task_id() {
    let context = Context::new();
    let result = context.service.find_all_entries_of_task(random_id());
    assert!(result.is_err());
    assert!(matches!(result.err().unwrap(), AppError::TaskNotFound))
}

#[test]
fn edit_time_entry() {
    let mut context = Context::new();

    let original_start_time = utc(2026, 05, 09, 14, 10);
    let original_end_time = utc(2026, 05, 09, 14, 13);
    let original_time_entry = context
        .service
        .create_manual(original_start_time, original_end_time, context.task_ids[0])
        .unwrap();

    let modified_start_time = utc(2025, 05, 09, 14, 10);
    let modified_end_time = utc(2025, 05, 09, 15, 13);

    let modified_time_entry = context.service.edit_time_entry(
        original_time_entry.id,
        modified_start_time,
        modified_end_time,
    );
    assert!(modified_time_entry.is_ok());
    let modified_time_entry = modified_time_entry.unwrap();
    assert_eq!(modified_time_entry.start_time, modified_start_time);
    assert_eq!(modified_time_entry.end_time, modified_end_time);
    assert_eq!(modified_time_entry.id, original_time_entry.id);
    assert_eq!(modified_time_entry.task_id, original_time_entry.task_id);
}

#[test]
fn edit_time_entry_with_invalid_entry_id() {
    let mut context = Context::new();
    let modified_start_time = utc(2025, 05, 09, 14, 10);
    let modified_end_time = utc(2025, 05, 09, 15, 13);

    let modified_time_entry =
        context.service.edit_time_entry(random_id(), modified_start_time, modified_end_time);
    assert!(modified_time_entry.is_err());
    assert!(matches!(modified_time_entry.err().unwrap(), AppError::TimeEntryNotFound))
}

#[test]
fn edit_time_entry_where_end_time_is_before_start_time() {
    let mut context = Context::new();

    let original_start_time = utc(2026, 05, 09, 14, 10);
    let original_end_time = utc(2026, 05, 09, 14, 13);
    let original_time_entry = context
        .service
        .create_manual(original_start_time, original_end_time, context.task_ids[0])
        .unwrap();

    let modified_start_time = utc(2026, 05, 09, 14, 10);
    let modified_end_time = utc(2025, 05, 09, 15, 13);

    let modified_time_entry = context.service.edit_time_entry(
        original_time_entry.id,
        modified_start_time,
        modified_end_time,
    );
    assert!(modified_time_entry.is_err());
    assert!(matches!(modified_time_entry.err().unwrap(), AppError::InvalidTimeRange))
}

#[test]
fn assign_time_entry_to_new_task() {
    let mut context = Context::new();
    let start_time = utc(2026, 05, 09, 14, 10);
    let end_time = utc(2026, 05, 09, 14, 13);
    let time_entry =
        context.service.create_manual(start_time, end_time, context.task_ids[0]).unwrap();

    let result = context.service.assign_time_entry(time_entry.id, context.task_ids[2]);
    assert!(result.is_ok());
    let result = result.unwrap();
    assert_eq!(result.start_time, time_entry.start_time);
    assert_eq!(result.end_time, time_entry.end_time);
    assert_eq!(result.task_id, context.task_ids[2]);
    assert_eq!(result.id, time_entry.id);
}

#[test]
fn assign_time_entry_to_new_task_with_invalid_entry_id() {
    let mut context = Context::new();

    let result = context.service.assign_time_entry(random_id(), context.task_ids[2]);
    assert!(result.is_err());
    assert!(matches!(result.err().unwrap(), AppError::TimeEntryNotFound))
}

#[test]
fn assign_time_entry_to_new_task_with_invalid_task_id() {
    let mut context = Context::new();
    let start_time = utc(2026, 05, 09, 14, 10);
    let end_time = utc(2026, 05, 09, 14, 13);
    let time_entry =
        context.service.create_manual(start_time, end_time, context.task_ids[0]).unwrap();

    let result = context.service.assign_time_entry(time_entry.id, random_id());
    assert!(result.is_err());
    assert!(matches!(result.err().unwrap(), AppError::TaskNotFound))
}

#[test]
fn stop_after_start_books_the_timer() {
    let mut context = Context::new();
    let started = context.service.start_timer_at(context.task_ids[1], 1_000).unwrap();
    assert_eq!(started, ActiveTimer { task_id: context.task_ids[1], start_time: 1_000 });
    let entry = context.service.stop_timer_with(99, 5_000).unwrap();
    assert_eq!(entry.id, 99);
    assert_eq!(entry.task_id, context.task_ids[1]);
    assert_eq!(entry.start_time, 1_000);
    assert_eq!(entry.end_time, 5_000);
    assert_eq!(entry.created_at, 5_000);
    assert_eq!(entry.updated_at, 5_000);
    assert!(context.service.active_timer_repository.get_active_timer().is_none());
    assert_eq!(context.service.find_all().unwrap(), vec![entry]);
}

#[test]
fn a_second_timer_is_refused_and_the_first_keeps_running() {
    let mut context = Context::new();
    context.service.start_timer_at(context.task_ids[0], 10).unwrap();
    assert!(matches!(
        context.service.start_timer_at(context.task_ids[1], 20),
        Err(AppError::TimerAlreadyRunning)
    ));
    assert_eq!(
        context.service.active_timer_repository.get_active_timer(),
        Some(ActiveTimer { task_id: context.task_ids[0], start_time: 10 })
    );
}

#[test]
fn a_running_timer_is_reported_before_an_unknown_task() {
    let mut context = Context::new();
    context.service.start_timer_at(context.task_ids[0], 10).unwrap();
    assert!(matches!(
        context.service.start_timer_at(random_id(), 20),
        Err(AppError::TimerAlreadyRunning)
    ));
}

#[test]
fn an_empty_range_is_refused_on_creation_but_accepted_on_edit() {
    let mut context = Context::new();
    assert!(matches!(
        context.service.create_manual(50, 50, context.task_ids[0]),
        Err(AppError::InvalidTimeRange)
    ));
    let entry = context.service.create_manual_with(10, 20, context.task_ids[0], 7, 30).unwrap();
    let edited = context.service.edit_time_entry_with(entry.id, 40, 40, 60).unwrap();
    assert_eq!(edited.start_time, 40);
    assert_eq!(edited.end_time, 40);
    assert_eq!(edited.created_at, 30);
    assert_eq!(edited.updated_at, 60);
}

#[test]
fn an_inverted_range_is_reported_before_an_unknown_entry() {
    let mut context = Context::new();
    assert!(matches!(
        context.service.edit_time_entry(random_id(), 20, 10),
        Err(AppError::InvalidTimeRange)
    ));
}

#[test]
fn assigning_keeps_range_and_creation_time() {
    let mut context = Context::new();
    context.service.create_manual_with(10, 20, context.task_ids[0], 7, 30).unwrap();
    let moved = context.service.assign_time_entry_with(7, context.task_ids[3], 90).unwrap();
    assert_eq!(moved.task_id, context.task_ids[3]);
    assert_eq!(moved.start_time, 10);
    assert_eq!(moved.end_time, 20);
    assert_eq!(moved.created_at, 30);
    assert_eq!(moved.updated_at, 90);
    assert!(context.service.find_all_entries_of_task(context.task_ids[0]).unwrap().is_empty());
    assert_eq!(context.service.find_all_entries_of_task(context.task_ids[3]).unwrap(), vec![moved]);
}

#[test]
fn deleted_entry_is_gone() {
    let mut context = Context::new();
    context.service.create_manual_with(10, 20, context.task_ids[0], 7, 30).unwrap();
    context.service.create_manual_with(10, 20, context.task_ids[0], 8, 30).unwrap();
    context.service.delete(7).unwrap();
    assert!(matches!(context.service.delete(7), Err(AppError::TimeEntryNotFound)));
    let rest = context.service.find_all().unwrap();
    assert_eq!(rest.len(), 1);
    assert_eq!(rest[0].id, 8);
}
