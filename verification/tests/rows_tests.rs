use chrono::TimeZone;
use chrono_forge::csv_rows::{ProjectCsvRow, RowError, TaskCsvRow, TimeEntryCsvRow};
use chrono_forge::db_rows::{
    parse_db_datetime, ActiveTimerRow, ProjectRow, TaskRow, TimeEntryRow, UserSettingsRow,
};
use chrono_forge::serialization_meta::{SerializableMeta, EXPORT_FORMAT_VERSION};
use chrono_forge::types::{ActiveTimer, Project, Task, TimeEntry, UserSettings};

fn utc(year: i32, month: u32, day: u32, hour: u32, min: u32) -> i64 {
    chrono::Utc.with_ymd_and_hms(year, month, day, hour, min, 0).unwrap().timestamp_micros()
}

#[test]
fn uuid_text_is_lower_case_hyphenated_and_reads_back() {
    let id: u128 = 0x550e8400_e29b_41d4_a716_446655440000;
    let row = ActiveTimerRow::from_active_timer(&ActiveTimer { task_id: id, start_time: 0 });
    assert_eq!(row.id, 1);
    assert_eq!(row.task_id, "550e8400-e29b-41d4-a716-446655440000");
    assert_eq!(row.start_time, "1970-01-01T00:00:00+00:00");
    assert_eq!(row.parse(), Ok(ActiveTimer { task_id: id, start_time: 0 }));
    let upper = ActiveTimerRow {
        id: 1,
        task_id: "550E8400-E29B-41D4-A716-446655440000".to_string(),
        start_time: "1970-01-01T00:00:00Z".to_string(),
    };
    assert_eq!(upper.parse(), Ok(ActiveTimer { task_id: id, start_time: 0 }));
    let bad = ActiveTimerRow { id: 1, task_id: "not a uuid".to_string(), start_time: String::new() };
    assert_eq!(bad.parse(), Err(RowError::InvalidId));
    let bad_time = ActiveTimerRow { id: 1, task_id: row.task_id.clone(), start_time: "noon".to_string() };
    assert_eq!(bad_time.parse(), Err(RowError::InvalidTimestamp));
}

#[test]
fn database_rows_round_trip() {
    let project = Project {
        id: 3,
        name: "P".to_string(),
        time_limit: Some(45),
        is_archived: true,
        created_at: utc(2026, 1, 2, 3, 4),
        updated_at: utc(2026, 1, 2, 3, 5),
    };
    let row = ProjectRow::from_project(&project);
    assert_eq!((row.time_limit, row.is_archived), (45, 1));
    assert_eq!(row.parse(), Ok(project));

    let task = Task {
        id: 4,
        project_id: 3,
        name: "T".to_string(),
        time_limit: None,
        is_archived: false,
        created_at: utc(2026, 1, 2, 3, 4),
        updated_at: utc(2026, 1, 2, 3, 5),
    };
    let row = TaskRow::from_task(&task);
    assert_eq!((row.time_limit, row.is_archived), (0, 0));
    assert_eq!(row.parse(), Ok(task));

    let entry = TimeEntry {
        id: 5,
        task_id: 4,
        start_time: utc(2026, 1, 2, 3, 4),
        end_time: utc(2026, 1, 2, 4, 4),
        created_at: utc(2026, 1, 2, 4, 4),
        updated_at: utc(2026, 1, 2, 4, 4),
    };
    assert_eq!(TimeEntryRow::from_time_entry(&entry).parse(), Ok(entry));

    let settings = UserSettings {
        monday_target_minutes: u32::MAX,
        tuesday_target_minutes: 480,
        wednesday_target_minutes: 0,
        thursday_target_minutes: 1,
        friday_target_minutes: 2,
        saturday_target_minutes: 3,
        sunday_target_minutes: 4,
        show_archived_projects: true,
        show_archived_tasks: false,
        created_at: utc(2026, 1, 2, 3, 4),
        updated_at: utc(2026, 1, 2, 3, 5),
    };
    let row = UserSettingsRow::from_settings(&settings);
    assert_eq!(row.monday_target_minutes, -1);
    assert_eq!(row.parse(), Ok(settings));
}

#[test]
fn project_row_round_trip() {
    let project = Project {
        id: 0x1234,
        name: "ChronoForge".to_string(),
        time_limit: Some(20),
        is_archived: false,
        created_at: utc(2026, 5, 27, 21, 5) + 123_456,
        updated_at: utc(2026, 5, 27, 22, 5),
    };
    let row = ProjectCsvRow::from_project(project.clone());
    assert_eq!(row.id, "00000000-0000-0000-0000-000000001234");
    assert_eq!(row.time_limit, 20);
    assert_eq!(row.updated_at, "2026-05-27T22:05:00+00:00");
    assert_eq!(row.into_project(), Ok(project));
}

#[test]
fn project_row_writes_no_limit_as_zero_and_has_no_archive_flag() {
    let project = Project {
        id: 1,
        name: "Archived".to_string(),
        time_limit: None,
        is_archived: true,
        created_at: 0,
        updated_at: 0,
    };
    let row = ProjectCsvRow::from_project(project);
    assert_eq!(row.time_limit, 0);
    assert_eq!(row.created_at, "1970-01-01T00:00:00+00:00");
    let back = row.into_project().unwrap();
    assert_eq!(back.time_limit, None);
    assert!(!back.is_archived);
}

#[test]
fn project_row_errors() {
    let row = |id: &str, t: &str| ProjectCsvRow {
        id: id.to_string(),
        name: "x".to_string(),
        time_limit: 0,
        created_at: t.to_string(),
        updated_at: t.to_string(),
    };
    assert_eq!(row("nope", "nope").into_project(), Err(RowError::InvalidId));
    assert_eq!(
        row("00000000-0000-0000-0000-000000000001", "2026-13-01T00:00:00Z").into_project(),
        Err(RowError::InvalidTimestamp)
    );
}

#[test]
fn task_row_round_trip() {
    let task = Task {
        id: 7,
        project_id: 8,
        name: "Task01".to_string(),
        time_limit: Some(0),
        is_archived: true,
        created_at: utc(2025, 1, 1, 0, 0),
        updated_at: utc(2025, 1, 2, 0, 0),
    };
    let row = TaskCsvRow::from_task(task.clone());
    assert_eq!(row.time_limit, Some(0));
    assert!(row.is_archived);
    assert_eq!(row.into_task(), Ok(task));
}

#[test]
fn time_entry_row_round_trip() {
    let entry = TimeEntry {
        id: 1,
        task_id: 2,
        start_time: utc(2025, 12, 23, 0, 0),
        end_time: utc(2025, 12, 24, 0, 0),
        created_at: utc(2025, 12, 24, 0, 0),
        updated_at: utc(2025, 12, 24, 0, 1),
    };
    let row = TimeEntryCsvRow::from_time_entry(entry);
    assert_eq!(row.start_time, "2025-12-23T00:00:00+00:00");
    assert_eq!(row.into_time_entry(), Ok(entry));
}

#[test]
fn db_datetime_in_both_forms() {
    assert_eq!(parse_db_datetime("2026-05-24T14:00:00+00:00"), Ok(utc(2026, 5, 24, 14, 0)));
    assert_eq!(parse_db_datetime("2026-05-24T16:00:00+02:00"), Ok(utc(2026, 5, 24, 14, 0)));
    assert_eq!(parse_db_datetime("2026-05-24 14:00:00"), Ok(utc(2026, 5, 24, 14, 0)));
    assert_eq!(parse_db_datetime("24.05.2026"), Err(RowError::InvalidTimestamp));
    assert_eq!(parse_db_datetime("+262142-12-31 23:59:60"), Err(RowError::InvalidTimestamp));
    assert_eq!(parse_db_datetime("2016-12-31 23:59:60"), Ok(utc(2017, 1, 1, 0, 0)));
}

#[test]
fn database_rows_parse() {
    let project = ProjectRow {
        id: "00000000-0000-0000-0000-000000000009".to_string(),
        name: "P".to_string(),
        time_limit: 0,
        is_archived: 2,
        created_at: "2026-05-24T14:00:00+00:00".to_string(),
        updated_at: "2026-05-24T14:00:00+00:00".to_string(),
    }
    .parse()
    .unwrap();
    assert_eq!(project.id, 9);
    assert_eq!(project.time_limit, None);
    assert!(project.is_archived);

    let task = TaskRow {
        id: "00000000-0000-0000-0000-00000000000a".to_string(),
        project_id: "00000000-0000-0000-0000-000000000009".to_string(),
        name: "T".to_string(),
        time_limit: 15,
        is_archived: 0,
        created_at: "2026-05-24T14:00:00Z".to_string(),
        updated_at: "2026-05-24T14:00:00Z".to_string(),
    }
    .parse()
    .unwrap();
    assert_eq!((task.id, task.project_id, task.time_limit, task.is_archived), (10, 9, Some(15), false));

    let bad = TimeEntryRow {
        id: "00000000-0000-0000-0000-00000000000a".to_string(),
        task_id: "x".to_string(),
        start_time: String::new(),
        end_time: String::new(),
        created_at: String::new(),
        updated_at: String::new(),
    };
    assert_eq!(bad.parse(), Err(RowError::InvalidId));

    let settings = UserSettingsRow {
        monday_target_minutes: 480,
        tuesday_target_minutes: -1,
        wednesday_target_minutes: 0,
        thursday_target_minutes: 0,
        fridays_target_minutes: 240,
        saturdays_target_minutes: 0,
        sundays_target_minutes: 0,
        show_archived_projects: 1,
        show_archived_tasks: 0,
        created_at: "2026-05-24T14:00:00Z".to_string(),
        updated_at: "2026-05-24T14:00:00Z".to_string(),
    }
    .parse()
    .unwrap();
    assert_eq!(settings.monday_target_minutes, 480);
    assert_eq!(settings.tuesday_target_minutes, u32::MAX);
    assert_eq!(settings.friday_target_minutes, 240);
    assert!(settings.show_archived_projects);
    assert!(!settings.show_archived_tasks);
}

#[test]
fn export_meta_format_check() {
    let meta = SerializableMeta::new("chrono-forge".to_string(), "0.2.0".to_string());
    assert_eq!(meta.format_version, EXPORT_FORMAT_VERSION);
    assert!(chrono::DateTime::parse_from_rfc3339(&meta.exported_at).is_ok());
    assert!(meta.validate().is_ok());
    let old = SerializableMeta {
        app: "a".to_string(),
        version: "b".to_string(),
        exported_at: "c".to_string(),
        format_version: 1,
    };
    assert_eq!(old.validate().err(), Some(1));
}
