use chrono_forge::in_memory_active_timer_repository::InMemoryActiveTimerRepository;
use chrono_forge::in_memory_project_repository::InMemoryProjectRepository;
use chrono_forge::in_memory_task_repository::InMemoryTaskRepository;
use chrono_forge::in_memory_time_entry_repository::InMemoryTimeEntryRepository;
use chrono_forge::in_memory_user_settings_repository::InMemoryUserSettingsRepository;
use chrono_forge::types::{ActiveTimer, Project, Task, TimeEntry, UserSettings};

fn project(id: u128, name: &str, updated_at: i64) -> Project {
    Project {
        id,
        name: name.to_string(),
        time_limit: None,
        is_archived: false,
        created_at: 0,
        updated_at,
    }
}

fn task(id: u128, project_id: u128, name: &str, is_archived: bool, updated_at: i64) -> Task {
    Task {
        id,
        project_id,
        name: name.to_string(),
        time_limit: None,
        is_archived,
        created_at: 0,
        updated_at,
    }
}

#[test]
fn in_memory_project_repository_new_is_empty() {
    let repository = InMemoryProjectRepository::new();
    assert!(repository.find_all().is_empty());
}

#[test]
fn upsert_project_with_newer_version_replaces_it() {
    let mut repository = InMemoryProjectRepository::new();
    repository.create(project(1, "Chrono Forge", 10));
    let mut newer = project(1, "ChronoForge", 20);
    newer.time_limit = Some(20);
    newer.created_at = 15;
    repository.upsert(newer.clone());
    let mut expected = newer;
    expected.created_at = 0;
    assert_eq!(repository.find_by_id(1), Some(expected));
    assert_eq!(repository.find_all().len(), 1);
}

#[test]
fn upsert_project_with_older_version_keeps_the_stored_one() {
    let mut repository = InMemoryProjectRepository::new();
    repository.create(project(1, "Maze_Game", 10));
    repository.upsert(project(1, "Maze Game", 5));
    repository.upsert(project(1, "Maze  Game", 10));
    assert_eq!(repository.find_by_id(1), Some(project(1, "Maze_Game", 10)));
}

#[test]
fn upsert_of_an_unknown_project_appends_it() {
    let mut repository = InMemoryProjectRepository::new();
    repository.create(project(1, "A", 10));
    repository.upsert(project(2, "B", 1));
    let all = repository.find_all();
    assert_eq!(all, vec![project(1, "A", 10), project(2, "B", 1)]);
    repository.upsert(project(2, "B", 1));
    assert_eq!(repository.find_all().len(), 2);
}

#[test]
fn update_replaces_only_the_first_of_an_id() {
    let mut repository = InMemoryProjectRepository::new();
    repository.create(project(1, "A", 1));
    repository.create(project(1, "B", 1));
    repository.update(project(1, "C", 2));
    assert_eq!(repository.find_all(), vec![project(1, "C", 2), project(1, "B", 1)]);
    repository.update(project(9, "Z", 2));
    assert_eq!(repository.find_all().len(), 2);
}

#[test]
fn delete_removes_every_project_of_an_id() {
    let mut repository = InMemoryProjectRepository::new();
    repository.create(project(1, "A", 1));
    repository.create(project(2, "B", 1));
    repository.create(project(1, "C", 1));
    repository.delete(1);
    assert_eq!(repository.find_all(), vec![project(2, "B", 1)]);
    assert_eq!(repository.find_by_id(1), None);
}

#[test]
fn task_listings_leave_out_archived_tasks_unless_asked() {
    let mut repository = InMemoryTaskRepository::new();
    repository.create(task(1, 10, "a", false, 0));
    repository.create(task(2, 10, "b", true, 0));
    repository.create(task(3, 11, "c", false, 0));
    assert_eq!(repository.find_all(true).len(), 3);
    assert_eq!(repository.find_all(false), vec![task(1, 10, "a", false, 0), task(3, 11, "c", false, 0)]);
    assert_eq!(repository.find_by_project_id(10, true).len(), 2);
    assert_eq!(repository.find_by_project_id(10, false), vec![task(1, 10, "a", false, 0)]);
    assert!(repository.find_by_project_id(12, true).is_empty());
}

#[test]
fn upsert_task_with_newer_version_moves_it() {
    let mut repository = InMemoryTaskRepository::new();
    repository.create(task(1, 10, "Task 01", false, 10));
    let mut newer = task(1, 11, "Task01", false, 20);
    newer.time_limit = Some(20);
    newer.created_at = 15;
    repository.upsert(newer.clone());
    let mut expected = newer;
    expected.created_at = 0;
    assert_eq!(repository.find_by_id(1), Some(expected));
}

#[test]
fn upsert_task_with_older_version_keeps_the_stored_one() {
    let mut repository = InMemoryTaskRepository::new();
    repository.create(task(1, 10, "My new Task", false, 10));
    repository.upsert(task(1, 11, "A new Task", false, 9));
    assert_eq!(repository.find_by_id(1), Some(task(1, 10, "My new Task", false, 10)));
}

#[test]
fn time_entries_of_a_task_in_order() {
    let mut repository = InMemoryTimeEntryRepository::new();
    let e = |id: u128, task_id: u128| TimeEntry {
        id,
        task_id,
        start_time: 1,
        end_time: 2,
        created_at: 3,
        updated_at: 4,
    };
    repository.create(e(1, 5));
    repository.create(e(2, 6));
    repository.create(e(3, 5));
    assert_eq!(repository.find_by_task_id(5), vec![e(1, 5), e(3, 5)]);
    let mut sent = e(2, 7);
    sent.updated_at = 10;
    sent.created_at = 9;
    repository.upsert(sent);
    let mut newer = sent;
    newer.created_at = 3;
    assert_eq!(repository.find_by_id(2), Some(newer));
    repository.delete(1);
    assert_eq!(repository.find_all(), vec![newer, e(3, 5)]);
}

#[test]
fn active_timer_set_remove_get() {
    let mut repository = InMemoryActiveTimerRepository::new();
    assert_eq!(repository.get_active_timer(), None);
    let timer = ActiveTimer { task_id: 3, start_time: 44 };
    repository.set(timer);
    assert_eq!(repository.get_active_timer(), Some(timer));
    repository.remove();
    assert_eq!(repository.get_active_timer(), None);
}

#[test]
fn user_settings_get_update() {
    let settings = UserSettings {
        monday_target_minutes: 480,
        tuesday_target_minutes: 480,
        wednesday_target_minutes: 480,
        thursday_target_minutes: 480,
        friday_target_minutes: 240,
        saturday_target_minutes: 0,
        sunday_target_minutes: 0,
        show_archived_projects: false,
        show_archived_tasks: false,
        created_at: 1,
        updated_at: 1,
    };
    let mut repository = InMemoryUserSettingsRepository::new(settings);
    assert_eq!(repository.get(), settings);
    let mut changed = settings;
    changed.show_archived_tasks = true;
    repository.update(changed);
    assert_eq!(repository.get(), changed);
}
