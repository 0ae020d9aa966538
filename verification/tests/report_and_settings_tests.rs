use chrono::{Datelike, TimeZone};
use chrono_forge::clock::local_calendar_day;
use chrono_forge::errors::AppError;
use chrono_forge::in_memory_active_timer_repository::InMemoryActiveTimerRepository;
use chrono_forge::in_memory_project_repository::InMemoryProjectRepository;
use chrono_forge::in_memory_task_repository::InMemoryTaskRepository;
use chrono_forge::in_memory_time_entry_repository::InMemoryTimeEntryRepository;
use chrono_forge::in_memory_user_settings_repository::InMemoryUserSettingsRepository;
use chrono_forge::report_service::ReportService;
use chrono_forge::types::{ActiveTimer, DailyTimer, LocalDate, TimeEntry, UserSettings, Weekday};
use chrono_forge::user_settings_service::UserSettingsService;

const MINUTE: i64 = 60_000_000;

fn settings() -> UserSettings {
    UserSettings {
        monday_target_minutes: 1,
        tuesday_target_minutes: 2,
        wednesday_target_minutes: 3,
        thursday_target_minutes: 4,
        friday_target_minutes: 5,
        saturday_target_minutes: 6,
        sunday_target_minutes: 7,
        show_archived_projects: false,
        show_archived_tasks: false,
        created_at: 0,
        updated_at: 0,
    }
}

fn entry(id: u128, start_time: i64, end_time: i64) -> TimeEntry {
    TimeEntry { id, task_id: 1, start_time, end_time, created_at: 0, updated_at: 0 }
}

fn report(entries: Vec<TimeEntry>, timer: Option<ActiveTimer>) -> ReportService {
    let mut time_entries = InMemoryTimeEntryRepository::new();
    for e in entries {
        time_entries.create(e);
    }
    let mut active = InMemoryActiveTimerRepository::new();
    if let Some(t) = timer {
        active.set(t);
    }
    ReportService::new(
        InMemoryProjectRepository::new(),
        InMemoryTaskRepository::new(),
        time_entries,
        active,
        InMemoryUserSettingsRepository::new(settings()),
    )
}

#[test]
fn work_target_follows_the_weekday() {
    let service = report(vec![], None);
    assert_eq!(service.get_work_target_of_day(Weekday::Mon), 1);
    assert_eq!(service.get_work_target_of_day(Weekday::Thu), 4);
    assert_eq!(service.get_work_target_of_day(Weekday::Sun), 7);
}

#[test]
fn minutes_of_entries_that_end_today() {
    let today = LocalDate { year: 2026, month: 5, day: 9 };
    let other = LocalDate { year: 2026, month: 5, day: 8 };
    let entries = vec![entry(1, 0, 90 * MINUTE), entry(2, 0, 30 * MINUTE + 59_999_999), entry(3, 0, 500 * MINUTE)];
    let days = vec![today, today, other];
    let service = report(entries, None);
    assert_eq!(service.get_work_time_of_day(today, &days), Some(120));
    assert_eq!(service.get_work_time_of_day(other, &days), Some(500));
    assert_eq!(service.get_work_time_of_day(LocalDate { year: 2026, month: 5, day: 7 }, &days), Some(0));
}

#[test]
fn minutes_past_u32_are_refused() {
    let today = LocalDate { year: 2026, month: 5, day: 9 };
    let backwards = entry(1, 2 * MINUTE, MINUTE - 1);
    let service = report(vec![backwards, entry(2, 0, MINUTE)], None);
    assert_eq!(service.get_work_time_of_day(today, &vec![today, today]), None);
    assert_eq!(service.daily_work_time_at(0, today, Weekday::Sat, &vec![today, today]), Err(AppError::InvalidTimeRange));
    assert_eq!(
        service.daily_work_time_at(0, today, Weekday::Sat, &vec![today, LocalDate { year: 2026, month: 5, day: 8 }]),
        Ok(DailyTimer {
            currently_active_timer_elapsed_minutes: None,
            elapsed_time_in_minutes: u32::MAX,
            time_target_in_minutes: 6,
        })
    );
}

#[test]
fn end_days_are_read_per_entry_near_their_utc_dates() {
    let noon = chrono::Utc.with_ymd_and_hms(2026, 5, 9, 12, 0, 0).unwrap();
    let later = chrono::Utc.with_ymd_and_hms(2026, 6, 1, 12, 0, 0).unwrap();
    let service = report(
        vec![entry(1, 0, noon.timestamp_micros()), entry(2, 0, later.timestamp_micros())],
        None,
    );
    let days = service.entry_end_days();
    assert_eq!(days.len(), 2);
    for (day, utc) in days.iter().zip([noon, later]) {
        let date = chrono::NaiveDate::from_ymd_opt(day.year, day.month, day.day).unwrap();
        assert!((-1..=1).contains(&(date - utc.date_naive()).num_days()));
    }
    assert_eq!(days[0], local_calendar_day(noon.timestamp_micros()).0);
}

#[test]
fn an_entry_that_ends_before_it_starts_counts_modulo_two_to_the_32() {
    let today = LocalDate { year: 2026, month: 5, day: 9 };
    let service = report(vec![entry(1, 2 * MINUTE, MINUTE - 1)], None);
    assert_eq!(service.get_work_time_of_day(today, &vec![today]), Some(u32::MAX));
}

#[test]
fn running_timer_minutes_round_toward_zero() {
    let service = report(vec![], Some(ActiveTimer { task_id: 1, start_time: 1_000 }));
    assert_eq!(service.get_currently_active_timer_elapsed_minutes(1_000 + 3 * MINUTE - 1), Some(2));
    assert_eq!(service.get_currently_active_timer_elapsed_minutes(1_000), Some(0));
    assert_eq!(service.get_currently_active_timer_elapsed_minutes(1_000 - MINUTE / 2), Some(0));
    assert_eq!(service.get_currently_active_timer_elapsed_minutes(1_000 - MINUTE), Some(u32::MAX));
    assert_eq!(service.get_active_timer_start_time(), Ok(Some(1_000)));
    let idle = report(vec![], None);
    assert_eq!(idle.get_currently_active_timer_elapsed_minutes(5), None);
    assert_eq!(idle.get_active_timer_start_time(), Ok(None));
}

#[test]
fn daily_timer_collects_the_figures() {
    let service = report(vec![], Some(ActiveTimer { task_id: 1, start_time: 0 }));
    let daily = service.daily_timer(45 * MINUTE, Weekday::Fri, 100);
    assert_eq!(
        daily,
        DailyTimer {
            currently_active_timer_elapsed_minutes: Some(45),
            elapsed_time_in_minutes: 100,
            time_target_in_minutes: 5,
        }
    );
}

#[test]
fn daily_work_time_now() {
    let now = chrono::Utc::now().timestamp_micros();
    let service = report(vec![entry(1, now - 90 * MINUTE, now - 80 * MINUTE)], None);
    let before = chrono::Local::now().weekday().number_from_monday();
    let daily = service.get_daily_work_time().unwrap();
    let after = chrono::Local::now().weekday().number_from_monday();
    assert!(daily.currently_active_timer_elapsed_minutes.is_none());
    assert!(daily.elapsed_time_in_minutes == 10 || daily.elapsed_time_in_minutes == 0);
    // The settings give each weekday its number from Monday as its target.
    assert!(daily.time_target_in_minutes == before || daily.time_target_in_minutes == after);
}

#[test]
fn local_calendar_day_is_near_the_utc_date_and_has_its_weekday() {
    let weekdays = [Weekday::Mon, Weekday::Tue, Weekday::Wed, Weekday::Thu, Weekday::Fri, Weekday::Sat, Weekday::Sun];
    for (year, month, day) in [(1970, 1, 1), (2024, 2, 29), (2025, 12, 31), (1, 1, 1), (9999, 12, 31)] {
        let utc = chrono::Utc.with_ymd_and_hms(year, month, day, 12, 0, 0).unwrap();
        let (date, weekday) = local_calendar_day(utc.timestamp_micros());
        let local = chrono::NaiveDate::from_ymd_opt(date.year, date.month, date.day).unwrap();
        let apart = (local - utc.date_naive()).num_days();
        assert!((-1..=1).contains(&apart));
        assert_eq!(weekday, weekdays[local.weekday().num_days_from_monday() as usize]);
    }
    let (date, weekday) = local_calendar_day(chrono::Utc.with_ymd_and_hms(1970, 1, 1, 12, 0, 0).unwrap().timestamp_micros());
    if date == (LocalDate { year: 1970, month: 1, day: 1 }) {
        assert_eq!(weekday, Weekday::Thu);
    }
}

#[test]
fn daily_work_time_that_overflows_is_refused() {
    let now = chrono::Utc::now().timestamp_micros();
    let backwards = entry(1, now, now - MINUTE);
    let service = report(vec![backwards, backwards], None);
    let result = service.get_daily_work_time();
    assert!(result.is_ok() || result == Err(AppError::InvalidTimeRange));
}

#[test]
fn work_target_read_back() {
    let mut service = UserSettingsService::new(InMemoryUserSettingsRepository::new(settings()));
    service.set_work_target(420, Weekday::Wed);
    let s = service.get_settings();
    assert_eq!(s.wednesday_target_minutes, 420);
    assert_eq!(s.tuesday_target_minutes, 2);
    assert_eq!(s.thursday_target_minutes, 4);
    assert_eq!(s.updated_at, 0);
}

#[test]
fn show_archived_flags_mark_the_update() {
    let mut service = UserSettingsService::new(InMemoryUserSettingsRepository::new(settings()));
    service.set_show_archived_projects_at(true, 50);
    assert!(service.get_settings().show_archived_projects);
    assert!(!service.get_settings().show_archived_tasks);
    assert_eq!(service.get_settings().updated_at, 50);
    service.set_show_archived_tasks_at(true, 60);
    assert!(service.get_settings().show_archived_tasks);
    assert_eq!(service.get_settings().updated_at, 60);
    service.set_show_archived_projects(false);
    assert!(!service.get_settings().show_archived_projects);
    assert!(service.get_settings().updated_at > 60);
}

#[test]
fn error_messages() {
    assert_eq!(AppError::EmptyName.message(), "Name cannot be empty");
    assert_eq!(AppError::TimerAlreadyRunning.message(), "A timer is already running");
    assert_eq!(AppError::Storage("disk full".to_string()).message(), "Storage error: disk full");
    assert_eq!(
        chrono_forge::app_error::AppError::IllegalAction { action: "x".to_string() }.message(),
        "Illegal action"
    );
}
