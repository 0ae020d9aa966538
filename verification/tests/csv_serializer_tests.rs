use chrono::TimeZone;
use chrono_forge::csv_rows::{ProjectCsvRow, RowError, TaskCsvRow, TimeEntryCsvRow};
use chrono_forge::csv_serializer::{
    expand_home_path_in, export_project_rows, export_task_rows, export_time_entry_rows, import_project_rows,
    import_task_rows, import_time_entry_rows,
};
use chrono_forge::in_memory_active_timer_repository::InMemoryActiveTimerRepository;
use chrono_forge::in_memory_project_repository::InMemoryProjectRepository;
use chrono_forge::in_memory_task_repository::InMemoryTaskRepository;
use chrono_forge::in_memory_time_entry_repository::InMemoryTimeEntryRepository;
use chrono_forge::project_service::ProjectService;
use chrono_forge::task_service::TaskService;
use chrono_forge::time_entry_service::TimeEntryService;
use chrono_forge::types::{Project, Task, TimeEntry};

fn utc(year: i32, month: u32, day: u32, hour: u32) -> i64 {
    chrono::Utc.with_ymd_and_hms(year, month, day, hour, 0, 0).unwrap().timestamp_micros()
}

fn project(id: u128, name: &str, updated_at: i64) -> Project {
    Project {
        id,
        name: name.to_string(),
        time_limit: Some(30),
        is_archived: false,
        created_at: utc(2025, 1, 1, 0),
        updated_at,
    }
}

fn project_service(projects: Vec<Project>) -> ProjectService {
    let mut repository = InMemoryProjectRepository::new();
    for p in projects {
        repository.create(p);
    }
    ProjectService::new(repository)
}

fn all_projects(service: &ProjectService) -> Vec<Project> {
    service.find_all().unwrap()
}

#[test]
fn project_export_writes_one_row_per_project_in_order() {
    let service = project_service(vec![
        project(1, "A", utc(2025, 1, 2, 0)),
        project(2, "B", utc(2025, 1, 3, 0)),
    ]);
    let rows = export_project_rows(&service);
    assert_eq!(rows.len(), 2);
    assert_eq!(rows[0].id, "00000000-0000-0000-0000-000000000001");
    assert_eq!(rows[1].name, "B");
    assert_eq!(rows[1].updated_at, "2025-01-03T00:00:00+00:00");
}

#[test]
fn project_export_then_import_restores_the_store() {
    let projects = vec![project(1, "A", utc(2025, 1, 2, 0)), project(2, "B", utc(2025, 1, 3, 0))];
    let rows = export_project_rows(&project_service(projects.clone()));
    let mut target = project_service(vec![]);
    assert_eq!(import_project_rows(&mut target, &rows), Ok(()));
    assert_eq!(all_projects(&target), projects);
}

#[test]
fn project_import_keeps_the_newer_copy() {
    let newer = project(1, "Local", utc(2025, 6, 1, 0));
    let mut target = project_service(vec![newer.clone()]);
    let older_rows = export_project_rows(&project_service(vec![project(1, "Old", utc(2025, 1, 1, 0))]));
    assert_eq!(import_project_rows(&mut target, &older_rows), Ok(()));
    assert_eq!(all_projects(&target), vec![newer]);

    let mut newest = project(1, "Remote", utc(2025, 7, 1, 0));
    newest.created_at = utc(2025, 7, 1, 0);
    let newest_rows = export_project_rows(&project_service(vec![newest.clone()]));
    assert_eq!(import_project_rows(&mut target, &newest_rows), Ok(()));
    newest.created_at = utc(2025, 1, 1, 0);
    assert_eq!(all_projects(&target), vec![newest]);
}

#[test]
fn project_import_stops_at_the_first_bad_row() {
    let mut rows = export_project_rows(&project_service(vec![project(1, "A", utc(2025, 1, 2, 0))]));
    rows.push(ProjectCsvRow {
        id: "bad".to_string(),
        name: "B".to_string(),
        time_limit: 0,
        created_at: "2025-01-01T00:00:00Z".to_string(),
        updated_at: "2025-01-01T00:00:00Z".to_string(),
    });
    rows.extend(export_project_rows(&project_service(vec![project(3, "C", utc(2025, 1, 2, 0))])));
    let mut target = project_service(vec![]);
    assert_eq!(import_project_rows(&mut target, &rows), Err(RowError::InvalidId));
    let kept = all_projects(&target);
    assert_eq!(kept.len(), 1);
    assert_eq!(kept[0].name, "A");
}

#[test]
fn task_export_then_import_restores_the_store() {
    let tasks = vec![
        Task {
            id: 5,
            project_id: 1,
            name: "T".to_string(),
            time_limit: None,
            is_archived: true,
            created_at: utc(2025, 2, 1, 0),
            updated_at: utc(2025, 2, 1, 1),
        },
        Task {
            id: 6,
            project_id: 1,
            name: "U".to_string(),
            time_limit: Some(5),
            is_archived: false,
            created_at: utc(2025, 2, 1, 0),
            updated_at: utc(2025, 2, 1, 2),
        },
    ];
    let mut repository = InMemoryTaskRepository::new();
    for t in tasks.clone() {
        repository.create(t);
    }
    let source = TaskService::new(repository, InMemoryProjectRepository::new());
    let rows = export_task_rows(&source);
    assert_eq!(rows.len(), 2);
    let mut target = TaskService::new(InMemoryTaskRepository::new(), InMemoryProjectRepository::new());
    assert_eq!(import_task_rows(&mut target, &rows), Ok(()));
    assert_eq!(target.find_all().unwrap(), tasks);
}

#[test]
fn task_import_reports_a_bad_time() {
    let row = TaskCsvRow {
        id: "00000000-0000-0000-0000-000000000005".to_string(),
        project_id: "00000000-0000-0000-0000-000000000001".to_string(),
        name: "T".to_string(),
        time_limit: None,
        is_archived: false,
        created_at: "yesterday".to_string(),
        updated_at: "2025-01-01T00:00:00Z".to_string(),
    };
    let mut target = TaskService::new(InMemoryTaskRepository::new(), InMemoryProjectRepository::new());
    assert_eq!(import_task_rows(&mut target, &vec![row]), Err(RowError::InvalidTimestamp));
    assert!(target.find_all().unwrap().is_empty());
}

fn entry_service(entries: Vec<TimeEntry>) -> TimeEntryService {
    let mut repository = InMemoryTimeEntryRepository::new();
    for e in entries {
        repository.create(e);
    }
    TimeEntryService::new(InMemoryTaskRepository::new(), repository, InMemoryActiveTimerRepository::new())
}

#[test]
fn time_entry_export_then_import_restores_the_store() {
    let entries = vec![
        TimeEntry {
            id: 9,
            task_id: 5,
            start_time: utc(2025, 3, 1, 8),
            end_time: utc(2025, 3, 1, 9),
            created_at: utc(2025, 3, 1, 9),
            updated_at: utc(2025, 3, 1, 9),
        },
        TimeEntry {
            id: 10,
            task_id: 5,
            start_time: utc(2025, 3, 2, 8),
            end_time: utc(2025, 3, 2, 12),
            created_at: utc(2025, 3, 2, 12),
            updated_at: utc(2025, 3, 2, 12),
        },
    ];
    let rows = export_time_entry_rows(&entry_service(entries.clone()));
    assert_eq!(rows[1].end_time, "2025-03-02T12:00:00+00:00");
    let mut target = entry_service(vec![]);
    assert_eq!(import_time_entry_rows(&mut target, &rows), Ok(()));
    assert_eq!(target.find_all().unwrap(), entries);
}

#[test]
fn time_entry_import_reports_a_bad_id() {
    let row = TimeEntryCsvRow {
        id: "00000000-0000-0000-0000-000000000009".to_string(),
        task_id: "task".to_string(),
        start_time: String::new(),
        end_time: String::new(),
        created_at: String::new(),
        updated_at: String::new(),
    };
    let mut target = entry_service(vec![]);
    assert_eq!(import_time_entry_rows(&mut target, &vec![row]), Err(RowError::InvalidId));
}

#[test]
fn home_paths_are_read_in_the_home_directory() {
    assert_eq!(
        expand_home_path_in("/data/exports".to_string(), Some("/home/u".to_string())),
        Some("/data/exports".to_string())
    );
    let expanded = expand_home_path_in("~/exports".to_string(), Some("/home/u".to_string())).unwrap();
    assert_eq!(std::path::Path::new(&expanded), std::path::Path::new("/home/u/exports"));
    assert_eq!(expand_home_path_in("~/exports".to_string(), None), None);
    assert_eq!(
        expand_home_path_in("~exports".to_string(), None),
        Some("~exports".to_string())
    );
}
