use chrono_forge::errors::AppError;
use chrono_forge::in_memory_project_repository::InMemoryProjectRepository;
use chrono_forge::in_memory_task_repository::InMemoryTaskRepository;
use chrono_forge::project_service::ProjectService;
use chrono_forge::task_service::TaskService;

fn random_id() -> u128 {
    uuid::Uuid::new_v4().as_u128()
}

struct Context {
    project_service: ProjectService,
    task_service: TaskService,
}

impl Context {
    fn new() -> Self {
        let project_repository = InMemoryProjectRepository::new();
        let project_service = ProjectService::new(project_repository.clone());
        let task_repository = InMemoryTaskRepository::new();
        let task_service = TaskService::new(task_repository, project_repository);
        Self { project_service, task_service }
    }
}

/// Creates a project through the project service and lets the task service
/// see it.
fn create_project_and_get_id(context: &mut Context, name: &str) -> Option<u128> {
    let project = context.project_service.create(name.to_string());
    context.task_service.project_repository = context.project_service.project_repository.clone();
    match project {
        Ok(project) => Some(project.id),
        Err(_) => None,
    }
}

#[test]
fn create_new_task() {
    let mut context = Context::new();
    let project_id = create_project_and_get_id(&mut context, "Project01");
    assert_ne!(project_id, None);
    let project_id = project_id.unwrap();

    let result = context.task_service.create("Task01", &project_id);
    assert!(result.is_ok());
    let task = result.unwrap();
    assert_eq!(task.project_id, project_id);
    assert_ne!(task.id, uuid::Uuid::default().as_u128());
    assert_eq!(task.name, "Task01");
}

#[test]
fn create_task_with_invalid_name() {
    let mut context = Context::new();
    let project_id = create_project_and_get_id(&mut context, "Project01");
    assert_ne!(project_id, None);
    let project_id = project_id.unwrap();

    let result = context.task_service.create("", &project_id);
    assert!(result.is_err());
    assert!(matches!(result.unwrap_err(), AppError::EmptyName));
}

#[test]
fn create_task_with_invalid_project_id() {
    let mut context = Context::new();

    let result = context.task_service.create("Task01", &random_id());
    assert!(result.is_err());
    assert!(matches!(result.unwrap_err(), AppError::ProjectNotFound));
}

#[test]
fn create_task_with_existing_name() {
    let mut context = Context::new();
    let project_id = create_project_and_get_id(&mut context, "Project01");
    assert_ne!(project_id, None);
    let project_id = project_id.unwrap();

    let mut tasks = vec![];
    tasks.push(context.task_service.create("Task", &project_id).unwrap());
    tasks.push(context.task_service.create("Task", &project_id).unwrap());
    tasks.push(context.task_service.create("Task", &project_id).unwrap());

    assert_eq!(tasks.len(), 3);
    assert_eq!(tasks[0].name, "Task");
    assert_eq!(tasks[1].name, "Task(1)");
    assert_eq!(tasks[2].name, "Task(2)");
}

#[test]
fn create_task_with_existing_name_but_different_project() {
    let mut context = Context::new();
    let project_id_a = create_project_and_get_id(&mut context, "Project01");
    assert_ne!(project_id_a, None);
    let project_id_a = project_id_a.unwrap();

    let project_id_b = create_project_and_get_id(&mut context, "Project02");
    assert_ne!(project_id_b, None);
    let project_id_b = project_id_b.unwrap();

    let mut tasks = vec![];
    tasks.push(context.task_service.create("Task", &project_id_a).unwrap());
    tasks.push(context.task_service.create("Task", &project_id_b).unwrap());

    assert_eq!(tasks.len(), 2);
    // Both tasks belong to different projects, so both keep their name.
    assert_eq!(tasks[0].name, "Task");
    assert_eq!(tasks[1].name, "Task");
}

#[test]
fn task_service_find_all_tasks() {
    let mut context = Context::new();
    let project_id = create_project_and_get_id(&mut context, "Project01");
    assert_ne!(project_id, None);
    let project_id = project_id.unwrap();

    context.task_service.create("Task 1", &project_id).unwrap();
    context.task_service.create("Task 2", &project_id).unwrap();
    context.task_service.create("Task 3", &project_id).unwrap();
    context.task_service.create("Task 4", &project_id).unwrap();
    context.task_service.create("Task 5", &project_id).unwrap();

    let all_tasks = context.task_service.find_all();
    assert_eq!(all_tasks.is_ok(), true);
    let all_tasks = all_tasks.unwrap();
    assert_eq!(all_tasks.len(), 5);
}

#[test]
fn find_task_by_valid_id() {
    let mut context = Context::new();
    let project_id = create_project_and_get_id(&mut context, "Project01");
    assert_ne!(project_id, None);
    let project_id = project_id.unwrap();
    let task = context.task_service.create("Task 1", &project_id).unwrap();

    let requested_task = context.task_service.find_by_id(task.id);
    assert!(requested_task.is_ok());
    let requested_task = requested_task.unwrap();
    assert_eq!(requested_task.id, task.id);
}

#[test]
fn find_task_by_invalid_id() {
    let mut context = Context::new();
    let project_id = create_project_and_get_id(&mut context, "Project01");
    assert_ne!(project_id, None);
    let project_id = project_id.unwrap();
    let _task = context.task_service.create("Task 1", &project_id).unwrap();

    let requested_task = context.task_service.find_by_id(random_id());
    assert!(requested_task.is_err());
    assert!(matches!(requested_task.unwrap_err(), AppError::TaskNotFound));
}

#[test]
fn find_tasks_with_project_id() {
    let mut context = Context::new();
    let project_id_a = create_project_and_get_id(&mut context, "Project01");
    assert_ne!(project_id_a, None);
    let project_id_a = project_id_a.unwrap();

    let project_id_b = create_project_and_get_id(&mut context, "Project02");
    assert_ne!(project_id_b, None);
    let project_id_b = project_id_b.unwrap();

    context.task_service.create("Task 1", &project_id_a).unwrap();
    context.task_service.create("Task 2", &project_id_b).unwrap();
    context.task_service.create("Task 3", &project_id_a).unwrap();

    let tasks_of_project_a = context.task_service.find_by_project_id(project_id_a);
    assert!(tasks_of_project_a.is_ok());
    let tasks_of_project_a = tasks_of_project_a.unwrap();
    assert_eq!(tasks_of_project_a.len(), 2);

    let tasks_of_project_b = context.task_service.find_by_project_id(project_id_b);
    assert!(tasks_of_project_b.is_ok());
    let tasks_of_project_b = tasks_of_project_b.unwrap();
    assert_eq!(tasks_of_project_b.len(), 1);

    assert_eq!(tasks_of_project_b[0].name, "Task 2");
}

#[test]
fn delete_task_with_valid_id() {
    let mut context = Context::new();
    let project_id = create_project_and_get_id(&mut context, "Project01");
    assert_ne!(project_id, None);
    let project_id = project_id.unwrap();

    let task = context.task_service.create("Task 1", &project_id);
    assert!(task.is_ok());
    let task = task.unwrap();

    let result = context.task_service.delete(task.id);
    assert!(result.is_ok());

    let find_by_id = context.task_service.find_by_id(task.id);
    assert!(find_by_id.is_err());
    assert!(matches!(find_by_id.unwrap_err(), AppError::TaskNotFound));
}

#[test]
fn delete_task_with_invalid_id() {
    let mut context = Context::new();
    let result = context.task_service.delete(random_id());
    assert!(result.is_err());
    assert!(matches!(result.unwrap_err(), AppError::TaskNotFound));
}

#[test]
fn edit_name_of_task_with_valid_id() {
    let mut context = Context::new();
    let project_id = create_project_and_get_id(&mut context, "Project01");
    assert_ne!(project_id, None);
    let project_id = project_id.unwrap();

    let task = context.task_service.create("Task 1", &project_id);
    assert!(task.is_ok());
    let task = task.unwrap();

    let modified_task = context.task_service.edit_task_name(task.id, "Task 10");
    assert!(modified_task.is_ok());

    let modified_task = modified_task.unwrap();
    assert_eq!(modified_task.name, "Task 10");
    assert_eq!(modified_task.id, task.id);
}

#[test]
fn edit_name_of_task_with_invalid_id() {
    let mut context = Context::new();
    let modified_task = context.task_service.edit_task_name(random_id(), "Task 10");
    assert!(modified_task.is_err());
    assert!(matches!(modified_task.unwrap_err(), AppError::TaskNotFound));
}

#[test]
fn edit_name_of_task_to_an_existing_name() {
    let mut context = Context::new();
    let project_id = create_project_and_get_id(&mut context, "Project01");
    assert_ne!(project_id, None);
    let project_id = project_id.unwrap();

    context.task_service.create("Task 1", &project_id).unwrap();

    let task = context.task_service.create("Task 2", &project_id);
    assert!(task.is_ok());
    let task = task.unwrap();

    let modified_task = context.task_service.edit_task_name(task.id, "Task 1");
    assert!(modified_task.is_ok());

    let modified_task = modified_task.unwrap();
    assert_eq!(modified_task.name, "Task 1(1)");
    assert_eq!(modified_task.id, task.id);
}

#[test]
fn edit_task_project_id() {
    let mut context = Context::new();
    let project_id_a = create_project_and_get_id(&mut context, "Project01");
    assert_ne!(project_id_a, None);
    let project_id_a = project_id_a.unwrap();

    let project_id_b = create_project_and_get_id(&mut context, "Project02");
    assert_ne!(project_id_b, None);
    let project_id_b = project_id_b.unwrap();

    let task = context.task_service.create("Task 1", &project_id_a).unwrap();

    let result = context.task_service.edit_task_project_relation(task.id, project_id_b);
    assert!(result.is_ok());
    let result = result.unwrap();

    assert_eq!(result.project_id, project_id_b);
    assert_eq!(result.name, task.name);
    assert_eq!(result.id, task.id);
}

#[test]
fn edit_task_project_id_with_invalid_project_id() {
    let mut context = Context::new();
    let project_id_a = create_project_and_get_id(&mut context, "Project01");
    assert_ne!(project_id_a, None);
    let project_id_a = project_id_a.unwrap();

    let task = context.task_service.create("Task 1", &project_id_a).unwrap();

    let result = context.task_service.edit_task_project_relation(task.id, random_id());
    assert!(result.is_err());
    assert!(matches!(result.unwrap_err(), AppError::ProjectNotFound));
}

#[test]
fn edit_task_with_project_id_task_name_doubling() {
    let mut context = Context::new();
    let project_id_a = create_project_and_get_id(&mut context, "Project01");
    assert_ne!(project_id_a, None);
    let project_id_a = project_id_a.unwrap();

    let project_id_b = create_project_and_get_id(&mut context, "Project02");
    assert_ne!(project_id_b, None);
    let project_id_b = project_id_b.unwrap();

    context.task_service.create("Task", &project_id_b).unwrap();
    context.task_service.create("Task", &project_id_b).unwrap();

    let task = context.task_service.create("Task", &project_id_a).unwrap();

    let result = context.task_service.edit_task_project_relation(task.id, project_id_b);
    assert!(result.is_ok());
    let result = result.unwrap();

    assert_eq!(result.project_id, project_id_b);
    assert_eq!(result.name, "Task(2)");
    assert_eq!(result.id, task.id);
}

#[test]
fn renaming_a_task_keeps_its_project_and_times() {
    let mut context = Context::new();
    let project_id = create_project_and_get_id(&mut context, "P").unwrap();
    let task = context.task_service.create_with("T", &project_id, 5, 100).unwrap();
    let renamed = context.task_service.edit_task_name_with(task.id, "U", 200).unwrap();
    assert_eq!(renamed.id, 5);
    assert_eq!(renamed.project_id, project_id);
    assert_eq!(renamed.name, "U");
    assert_eq!(renamed.created_at, 100);
    assert_eq!(renamed.updated_at, 200);
    assert_eq!(context.task_service.find_by_id(5).unwrap(), renamed);
}

#[test]
fn a_task_may_be_renamed_to_an_empty_name() {
    let mut context = Context::new();
    let project_id = create_project_and_get_id(&mut context, "P").unwrap();
    let task = context.task_service.create("T", &project_id).unwrap();
    let renamed = context.task_service.edit_task_name(task.id, "").unwrap();
    assert_eq!(renamed.name, "");
}

#[test]
fn moving_a_task_within_its_project_adds_a_suffix() {
    let mut context = Context::new();
    let project_id = create_project_and_get_id(&mut context, "P").unwrap();
    let task = context.task_service.create("T", &project_id).unwrap();
    let moved = context.task_service.edit_task_project_relation(task.id, project_id).unwrap();
    assert_eq!(moved.name, "T(1)");
}

#[test]
fn moving_a_missing_task_to_a_known_project_reports_the_task() {
    let mut context = Context::new();
    let project_id = create_project_and_get_id(&mut context, "P").unwrap();
    let result = context.task_service.edit_task_project_relation(random_id(), project_id);
    assert!(matches!(result, Err(AppError::TaskNotFound)));
}

#[test]
fn create_task_with_empty_name_and_unknown_project_reports_the_name() {
    let mut context = Context::new();
    let result = context.task_service.create("", &random_id());
    assert!(matches!(result, Err(AppError::EmptyName)));
}
