use chrono::TimeZone;
use chrono_forge::app_context::AppContext;
use chrono_forge::cli::{
    Cli, CliError, CliReport, Command, EntryCommands, ProjectCommand, TaskCommands, TimerCommands,
};
use chrono_forge::errors::AppError;
use chrono_forge::in_memory_active_timer_repository::InMemoryActiveTimerRepository;
use chrono_forge::in_memory_project_repository::InMemoryProjectRepository;
use chrono_forge::in_memory_task_repository::InMemoryTaskRepository;
use chrono_forge::in_memory_time_entry_repository::InMemoryTimeEntryRepository;
use chrono_forge::in_memory_user_settings_repository::InMemoryUserSettingsRepository;
use chrono_forge::types::{Project, Task, TimeEntry, UserSettings};

fn settings() -> UserSettings {
    UserSettings {
        monday_target_minutes: 0,
        tuesday_target_minutes: 0,
        wednesday_target_minutes: 0,
        thursday_target_minutes: 0,
        friday_target_minutes: 0,
        saturday_target_minutes: 0,
        sunday_target_minutes: 0,
        show_archived_projects: false,
        show_archived_tasks: false,
        created_at: 0,
        updated_at: 0,
    }
}

fn project(id: u128, name: &str, is_archived: bool) -> Project {
    Project { id, name: name.to_string(), time_limit: None, is_archived, created_at: 0, updated_at: 0 }
}

fn task(id: u128, project_id: u128, name: &str, is_archived: bool) -> Task {
    Task {
        id,
        project_id,
        name: name.to_string(),
        time_limit: None,
        is_archived,
        created_at: 0,
        updated_at: 0,
    }
}

fn context(projects: Vec<Project>, tasks: Vec<Task>, entries: Vec<TimeEntry>) -> AppContext {
    let mut project_repository = InMemoryProjectRepository::new();
    for p in projects {
        project_repository.create(p);
    }
    let mut task_repository = InMemoryTaskRepository::new();
    for t in tasks {
        task_repository.create(t);
    }
    let mut entry_repository = InMemoryTimeEntryRepository::new();
    for e in entries {
        entry_repository.create(e);
    }
    AppContext::new(
        project_repository,
        task_repository,
        entry_repository,
        InMemoryActiveTimerRepository::new(),
        InMemoryUserSettingsRepository::new(settings()),
    )
}

fn run(app: &mut AppContext, command: Command) -> Result<CliReport, CliError> {
    Cli { command: Some(command) }.run(app)
}

fn id_text(id: u128) -> String {
    uuid::Uuid::from_u128(id).to_string()
}

#[test]
fn no_command_is_refused() {
    let mut app = context(vec![], vec![], vec![]);
    assert_eq!(Cli { command: None }.run(&mut app).err(), Some(CliError::NoCommand));
}

#[test]
fn project_create_and_list() {
    let mut app = context(vec![project(1, "Old", true), project(2, "Work", false)], vec![], vec![]);
    match run(&mut app, Command::Project(ProjectCommand::Create { name: "Work".to_string() })) {
        Ok(CliReport::ProjectCreated(p)) => assert_eq!(p.name, "Work(1)"),
        _ => panic!("project not created"),
    }
    match run(&mut app, Command::Project(ProjectCommand::List)) {
        Ok(CliReport::ProjectList(v)) => {
            let names: Vec<String> = v.iter().map(|p| p.name.clone()).collect();
            assert_eq!(names, vec!["Old".to_string(), "Work".to_string(), "Work(1)".to_string()]);
        }
        _ => panic!("no list"),
    }
}

#[test]
fn project_commands_refuse_bad_ids() {
    let mut app = context(vec![project(1, "Work", false)], vec![], vec![]);
    let r = run(&mut app, Command::Project(ProjectCommand::Delete { id: "nope".to_string() }));
    assert_eq!(r.err(), Some(CliError::InvalidId));
    let r = run(&mut app, Command::Project(ProjectCommand::Delete { id: id_text(9) }));
    assert_eq!(r.err(), Some(CliError::Failed(AppError::ProjectNotFound)));
    match run(&mut app, Command::Project(ProjectCommand::Delete { id: id_text(1) })) {
        Ok(CliReport::ProjectDeleted(t)) => assert_eq!(t, id_text(1)),
        _ => panic!("not deleted"),
    }
    assert!(app.project_service.find_all().unwrap().is_empty());
}

#[test]
fn project_rename_and_time_limit() {
    let mut app = context(vec![project(1, "Work", false)], vec![], vec![]);
    match run(&mut app, Command::Project(ProjectCommand::Rename { id: id_text(1), name: "Job".to_string() })) {
        Ok(CliReport::ProjectRenamed(p)) => assert_eq!(p.name, "Job"),
        _ => panic!("not renamed"),
    }
    match run(&mut app, Command::Project(ProjectCommand::EditTimeLimit { id: id_text(1), time_limit: 90 })) {
        Ok(CliReport::ProjectTimeLimitSet(p)) => assert_eq!(p.time_limit, Some(90)),
        _ => panic!("no limit"),
    }
    match run(&mut app, Command::Project(ProjectCommand::EditTimeLimit { id: id_text(1), time_limit: 0 })) {
        Ok(CliReport::ProjectTimeLimitSet(p)) => assert_eq!(p.time_limit, None),
        _ => panic!("limit not cleared"),
    }
}

#[test]
fn name_suffix_overflow_is_refused() {
    let mut app = context(vec![project(1, "Work(4294967295)", false)], vec![], vec![]);
    let r = run(&mut app, Command::Project(ProjectCommand::Create { name: "Work".to_string() }));
    assert_eq!(r.err(), Some(CliError::NameSuffixOverflow));
    assert_eq!(app.project_service.find_all().unwrap().len(), 1);
}

#[test]
fn task_create_list_and_archive_by_name() {
    let mut app = context(vec![project(1, "Work", false)], vec![task(5, 1, "Old", true)], vec![]);
    match run(&mut app, Command::Tasks(TaskCommands::Create { name: "Write".to_string(), project_id: id_text(1) })) {
        Ok(CliReport::TaskCreated(t)) => assert_eq!((t.name.as_str(), t.project_id), ("Write", 1)),
        _ => panic!("task not created"),
    }
    match run(&mut app, Command::Tasks(TaskCommands::List { include_archived: false })) {
        Ok(CliReport::TaskList(v)) => assert_eq!(v.len(), 1),
        _ => panic!("no list"),
    }
    match run(&mut app, Command::Tasks(TaskCommands::Archive { name: "Write".to_string() })) {
        Ok(CliReport::TaskArchived(t)) => assert_eq!(t.name, "Write"),
        _ => panic!("not archived"),
    }
    match run(&mut app, Command::Tasks(TaskCommands::Archive { name: "Old".to_string() })) {
        Ok(CliReport::TaskNameNotFound(n)) => assert_eq!(n, "Old"),
        _ => panic!("archived twice"),
    }
    match run(&mut app, Command::Tasks(TaskCommands::Unarchive { name: "Old".to_string() })) {
        Ok(CliReport::TaskUnarchived(t)) => assert_eq!(t.id, 5),
        _ => panic!("not unarchived"),
    }
    match run(&mut app, Command::Tasks(TaskCommands::List { include_archived: true })) {
        Ok(CliReport::TaskList(v)) => {
            let archived: Vec<bool> = v.iter().map(|t| t.is_archived).collect();
            assert_eq!(archived, vec![false, true]);
        }
        _ => panic!("no list"),
    }
}

#[test]
fn task_create_in_unknown_project_is_refused() {
    let mut app = context(vec![], vec![], vec![]);
    let r = run(&mut app, Command::Tasks(TaskCommands::Create { name: "Write".to_string(), project_id: id_text(1) }));
    assert_eq!(r.err(), Some(CliError::Failed(AppError::ProjectNotFound)));
    let r = run(&mut app, Command::Tasks(TaskCommands::Create { name: "Write".to_string(), project_id: "1".to_string() }));
    assert_eq!(r.err(), Some(CliError::InvalidId));
}

#[test]
fn task_rename_limit_assign_and_delete() {
    let mut app = context(
        vec![project(1, "Work", false), project(2, "Home", false)],
        vec![task(5, 1, "Write", false), task(6, 2, "Write", false)],
        vec![],
    );
    match run(&mut app, Command::Tasks(TaskCommands::Rename { id: id_text(5), name: "Read".to_string() })) {
        Ok(CliReport::TaskRenamed(t)) => assert_eq!(t.name, "Read"),
        _ => panic!("not renamed"),
    }
    match run(&mut app, Command::Tasks(TaskCommands::EditTimeLimit { id: id_text(5), time_limit: 15 })) {
        Ok(CliReport::TaskTimeLimitSet(t)) => assert_eq!(t.time_limit, Some(15)),
        _ => panic!("no limit"),
    }
    match run(&mut app, Command::Tasks(TaskCommands::Assign { id: id_text(6), project_id: id_text(1) })) {
        Ok(CliReport::TaskAssigned(t)) => assert_eq!((t.project_id, t.name.as_str()), (1, "Write")),
        _ => panic!("not assigned"),
    }
    match run(&mut app, Command::Tasks(TaskCommands::Delete { id: id_text(5) })) {
        Ok(CliReport::TaskDeleted(id)) => assert_eq!(id, 5),
        _ => panic!("not deleted"),
    }
    let r = run(&mut app, Command::Tasks(TaskCommands::Delete { id: id_text(5) }));
    assert_eq!(r.err(), Some(CliError::Failed(AppError::TaskNotFound)));
}

#[test]
fn timer_start_and_stop() {
    let mut app = context(vec![project(1, "Work", false)], vec![task(5, 1, "Write", false)], vec![]);
    assert_eq!(
        run(&mut app, Command::Timer(TimerCommands::Stop)).err(),
        Some(CliError::Failed(AppError::NoActiveTimer))
    );
    match run(&mut app, Command::Timer(TimerCommands::Start { task_id: id_text(5) })) {
        Ok(CliReport::TimerStarted(id)) => assert_eq!(id, 5),
        _ => panic!("not started"),
    }
    assert_eq!(
        run(&mut app, Command::Timer(TimerCommands::Start { task_id: id_text(5) })).err(),
        Some(CliError::Failed(AppError::TimerAlreadyRunning))
    );
    assert!(matches!(run(&mut app, Command::Timer(TimerCommands::Stop)), Ok(CliReport::TimerStopped)));
    assert_eq!(app.time_entry_service.find_all().unwrap().len(), 1);
}

fn create_entry(task_id: String, start: [&str; 5], end: [&str; 5]) -> Command {
    Command::Entry(Box::new(EntryCommands::Create {
        task_id,
        start_year: start[0].to_string(),
        start_month: start[1].to_string(),
        start_day: start[2].to_string(),
        start_hour: start[3].to_string(),
        start_minute: start[4].to_string(),
        end_year: end[0].to_string(),
        end_month: end[1].to_string(),
        end_day: end[2].to_string(),
        end_hour: end[3].to_string(),
        end_minute: end[4].to_string(),
    }))
}

fn utc(year: i32, month: u32, day: u32, hour: u32, minute: u32) -> i64 {
    chrono::Utc.with_ymd_and_hms(year, month, day, hour, minute, 0).unwrap().timestamp_micros()
}

#[test]
fn entry_create_list_and_delete() {
    let mut app = context(vec![project(1, "Work", false)], vec![task(5, 1, "Write", false)], vec![]);
    let created = match run(&mut app, create_entry(id_text(5), ["2025", "3", "1", "8", "30"], ["2025", "03", "01", "10", "0"])) {
        Ok(CliReport::EntryCreated(e)) => e,
        _ => panic!("no entry"),
    };
    assert_eq!(created.start_time, utc(2025, 3, 1, 8, 30));
    assert_eq!(created.end_time, utc(2025, 3, 1, 10, 0));
    match run(&mut app, Command::Entry(Box::new(EntryCommands::List { task_id: id_text(5) }))) {
        Ok(CliReport::EntryList(t, v)) => {
            assert_eq!(t.name, "Write");
            assert_eq!(v, vec![created]);
        }
        _ => panic!("no list"),
    }
    match run(&mut app, Command::Entry(Box::new(EntryCommands::Delete { id: id_text(created.id) }))) {
        Ok(CliReport::EntryDeleted(t)) => assert_eq!(t, id_text(created.id)),
        _ => panic!("not deleted"),
    }
}

#[test]
fn entry_create_refuses_bad_dates_and_ranges() {
    let mut app = context(vec![project(1, "Work", false)], vec![task(5, 1, "Write", false)], vec![]);
    let r = run(&mut app, create_entry(id_text(5), ["2025", "2", "30", "8", "0"], ["2025", "3", "1", "8", "0"]));
    assert_eq!(r.err(), Some(CliError::InvalidDateTime));
    let r = run(&mut app, create_entry(id_text(5), ["2025", "x", "1", "8", "0"], ["2025", "3", "1", "8", "0"]));
    assert_eq!(r.err(), Some(CliError::InvalidDateTime));
    let r = run(&mut app, create_entry(id_text(5), ["2025", "3", "1", "9", "0"], ["2025", "3", "1", "8", "0"]));
    assert_eq!(r.err(), Some(CliError::Failed(AppError::InvalidTimeRange)));
    let r = run(&mut app, create_entry(id_text(6), ["2025", "3", "1", "8", "0"], ["2025", "3", "1", "9", "0"]));
    assert_eq!(r.err(), Some(CliError::Failed(AppError::TaskNotFound)));
    let r = run(&mut app, create_entry(id_text(5), ["-1", "3", "1", "8", "0"], ["+2025", "3", "1", "9", "0"]));
    assert!(r.is_ok());
}

#[test]
fn entry_edit_and_assign() {
    let entry = TimeEntry {
        id: 9,
        task_id: 5,
        start_time: utc(2025, 3, 1, 8, 0),
        end_time: utc(2025, 3, 1, 9, 0),
        created_at: 0,
        updated_at: 0,
    };
    let mut app = context(
        vec![project(1, "Work", false)],
        vec![task(5, 1, "Write", false)],
        vec![entry],
    );
    let edit = Command::Entry(Box::new(EntryCommands::Edit {
        id: id_text(9),
        start_year: "2025".to_string(),
        start_month: "3".to_string(),
        start_day: "2".to_string(),
        start_hour: "8".to_string(),
        start_minute: "0".to_string(),
        end_year: "2025".to_string(),
        end_month: "3".to_string(),
        end_day: "2".to_string(),
        end_hour: "12".to_string(),
        end_minute: "15".to_string(),
    }));
    match run(&mut app, edit) {
        Ok(CliReport::EntryEdited(e)) => {
            assert_eq!(e.start_time, utc(2025, 3, 2, 8, 0));
            assert_eq!(e.end_time, utc(2025, 3, 2, 12, 15));
        }
        _ => panic!("not edited"),
    }
    match run(&mut app, Command::Entry(Box::new(EntryCommands::Assign { id: id_text(9), task_id: id_text(5) }))) {
        Ok(CliReport::EntryAssigned(e, t)) => {
            assert_eq!(e.task_id, 5);
            assert_eq!((t.id, t.name.as_str()), (5, "Write"));
        }
        _ => panic!("not assigned"),
    }
}

#[test]
fn entry_assign_to_an_unknown_task_is_refused() {
    let entry = TimeEntry { id: 9, task_id: 5, start_time: 0, end_time: 60_000_000, created_at: 0, updated_at: 0 };
    let mut app = context(vec![project(1, "Work", false)], vec![task(5, 1, "Write", false)], vec![entry]);
    let r = run(&mut app, Command::Entry(Box::new(EntryCommands::Assign { id: id_text(9), task_id: id_text(7) })));
    assert_eq!(r.err(), Some(CliError::Failed(AppError::TaskNotFound)));
}
