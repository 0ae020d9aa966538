use chrono_forge::errors::AppError;
use chrono_forge::in_memory_project_repository::InMemoryProjectRepository;
use chrono_forge::project_service::ProjectService;

fn random_id() -> u128 {
    uuid::Uuid::new_v4().as_u128()
}

#[test]
fn create_new_project() {
    let project_repo = InMemoryProjectRepository::new();
    let mut service = ProjectService::new(project_repo);

    let result = service.create("MyProject".to_string());
    assert!(result.is_ok());

    let all_projects_result = service.find_all();
    assert!(all_projects_result.is_ok());

    let all_projects = all_projects_result.unwrap();
    assert_eq!(all_projects.len(), 1);

    let test_project = all_projects.get(0).unwrap();
    assert_eq!(test_project.name, "MyProject");
    assert_ne!(test_project.id, uuid::Uuid::default().as_u128());
}

#[test]
fn create_project_with_empty_name() {
    let project_repo = InMemoryProjectRepository::new();
    let mut service = ProjectService::new(project_repo);
    let result = service.create("".to_string());
    assert!(result.is_err());
    assert!(matches!(result.err().unwrap(), AppError::EmptyName));
}

#[test]
fn create_project_with_existing_name() {
    let project_repo = InMemoryProjectRepository::new();
    let mut service = ProjectService::new(project_repo);

    service.create("Jane Doe".to_string()).unwrap();
    service.create("Jane Doe".to_string()).unwrap();
    service.create("Jane Doe".to_string()).unwrap();

    let projects = service.find_all().unwrap();
    assert_eq!(projects.len(), 3);
    assert_eq!(projects.get(0).unwrap().name, "Jane Doe");
    assert_eq!(projects.get(1).unwrap().name, "Jane Doe(1)");
    assert_eq!(projects.get(2).unwrap().name, "Jane Doe(2)");
}

#[test]
fn get_project_by_existing_id() {
    let project_repo = InMemoryProjectRepository::new();
    let mut service = ProjectService::new(project_repo);
    let result = service.create("Jane Doe".to_string());
    assert!(result.is_ok());

    let projects = service.find_all().unwrap();
    assert_eq!(projects.len(), 1);
    let project_id = projects.get(0).unwrap().id;

    let result = service.find_by_id(project_id);
    assert!(result.is_ok());

    let project = result.unwrap();
    assert_eq!(project.id, project_id);
    assert_eq!(project.name, projects.get(0).unwrap().name);
}

#[test]
fn get_project_by_non_existing_id() {
    let project_repo = InMemoryProjectRepository::new();
    let service = ProjectService::new(project_repo);

    let invalid_id = random_id();
    let result = service.find_by_id(invalid_id);
    assert!(result.is_err());
    assert!(matches!(result.err().unwrap(), AppError::ProjectNotFound));
}

#[test]
fn get_project_by_invalid_id() {
    let project_repo = InMemoryProjectRepository::new();
    let service = ProjectService::new(project_repo);
    let invalid_id = uuid::Uuid::default().as_u128();
    let result = service.find_by_id(invalid_id);
    assert!(result.is_err());
    assert!(matches!(result.err().unwrap(), AppError::ProjectNotFound));
}

#[test]
fn edit_project_name() {
    let project_repo = InMemoryProjectRepository::new();
    let mut service = ProjectService::new(project_repo);
    service.create("Jane Doe".to_string()).unwrap();
    let projects = service.find_all().unwrap();
    let project = projects.get(0).unwrap();

    let result = service.edit_name(project.id, "Batman");
    assert!(result.is_ok());

    let target = service.find_by_id(project.id).unwrap();
    assert_eq!(target.name, "Batman");
}

#[test]
fn edit_project_name_with_invalid_id() {
    let project_repo = InMemoryProjectRepository::new();
    let mut service = ProjectService::new(project_repo);

    let result = service.edit_name(random_id(), "Gummibaum");
    assert!(result.is_err());
    assert!(matches!(result.err().unwrap(), AppError::ProjectNotFound));
}

#[test]
fn edit_project_name_to_existing_name() {
    let project_repo = InMemoryProjectRepository::new();
    let mut service = ProjectService::new(project_repo);
    service.create("Jane Doe".to_string()).unwrap();
    service.create("MyProject".to_string()).unwrap();
    let projects = service.find_all().unwrap();
    let project = projects.get(0).unwrap();

    let result = service.edit_name(project.id, "MyProject");
    assert!(result.is_ok());
    let target = service.find_by_id(project.id).unwrap();
    assert_eq!(target.name, "MyProject(1)");
}

#[test]
fn edit_project_name_to_invalid_name() {
    let project_repo = InMemoryProjectRepository::new();
    let mut service = ProjectService::new(project_repo);
    service.create("Jane Doe".to_string()).unwrap();
    let projects = service.find_all().unwrap();
    let project = projects.get(0).unwrap();
    let result = service.edit_name(project.id, "");
    assert!(result.is_err());
    assert!(matches!(result.err().unwrap(), AppError::EmptyName));
}

#[test]
fn delete_project_by_existing_id() {
    let project_repo = InMemoryProjectRepository::new();
    let mut service = ProjectService::new(project_repo);
    service.create("Jane Doe".to_string()).unwrap();
    let projects = service.find_all().unwrap();
    let project = projects.get(0).unwrap();

    let result = service.delete(project.id);
    assert!(result.is_ok());

    let target = service.find_by_id(project.id);
    assert!(target.is_err());
    assert!(matches!(target.err().unwrap(), AppError::ProjectNotFound));
}

#[test]
fn delete_project_by_non_existing_id() {
    let project_repo = InMemoryProjectRepository::new();
    let mut service = ProjectService::new(project_repo);

    let result = service.delete(random_id());
    assert!(result.is_err());
    assert!(matches!(result.err().unwrap(), AppError::ProjectNotFound));
}

#[test]
fn create_with_fixes_id_and_times() {
    let mut service = ProjectService::new(InMemoryProjectRepository::new());
    let project = service.create_with("Alpha".to_string(), 42, 1_000).unwrap();
    assert_eq!(project.id, 42);
    assert_eq!(project.name, "Alpha");
    assert_eq!(project.time_limit, None);
    assert!(!project.is_archived);
    assert_eq!(project.created_at, 1_000);
    assert_eq!(project.updated_at, 1_000);
    assert_eq!(service.find_by_id(42).unwrap(), project);
}

#[test]
fn renaming_a_project_to_its_own_name_adds_a_suffix() {
    let mut service = ProjectService::new(InMemoryProjectRepository::new());
    service.create_with("Alpha".to_string(), 7, 10).unwrap();
    let renamed = service.edit_name_with(7, "Alpha", 20).unwrap();
    assert_eq!(renamed.name, "Alpha(1)");
    assert_eq!(renamed.created_at, 10);
    assert_eq!(renamed.updated_at, 20);
}

#[test]
fn renaming_keeps_the_other_fields() {
    let mut service = ProjectService::new(InMemoryProjectRepository::new());
    service.create_with("Alpha".to_string(), 7, 10).unwrap();
    service.create_with("Beta".to_string(), 8, 11).unwrap();
    let renamed = service.edit_name_with(8, "Gamma", 30).unwrap();
    assert_eq!(renamed.id, 8);
    assert_eq!(renamed.name, "Gamma");
    assert_eq!(renamed.created_at, 11);
    assert_eq!(renamed.updated_at, 30);
    let all = service.find_all().unwrap();
    assert_eq!(all.len(), 2);
    assert_eq!(all[0].name, "Alpha");
    assert_eq!(all[1].name, "Gamma");
}

#[test]
fn nil_id_is_never_found_even_when_stored() {
    let mut service = ProjectService::new(InMemoryProjectRepository::new());
    service.create_with("Nil".to_string(), 0, 1).unwrap();
    assert!(matches!(service.find_by_id(0), Err(AppError::ProjectNotFound)));
    assert!(matches!(service.delete(0), Err(AppError::ProjectNotFound)));
    assert_eq!(service.find_all().unwrap().len(), 1);
}

#[test]
fn created_project_names_stay_distinct() {
    let mut service = ProjectService::new(InMemoryProjectRepository::new());
    for _ in 0..4 {
        service.create("Work".to_string()).unwrap();
    }
    service.create("Work(1)".to_string()).unwrap();
    let names: Vec<String> = service.find_all().unwrap().into_iter().map(|p| p.name).collect();
    assert_eq!(names, vec!["Work", "Work(1)", "Work(2)", "Work(3)", "Work(1)(1)"]);
}
