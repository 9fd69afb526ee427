use shtask::adapters::toml_repo::{toml_file_name, TaskDto, TaskListDto};
use shtask::domain::task_list::{TaskList, TaskListId};

#[test]
fn stored_list_round_trips_with_completion() {
    let mut list = TaskList::new(TaskListId("seq-0".into()), "work").unwrap();
    list.add_task("milk").unwrap();
    list.add_task("bread").unwrap();
    list.complete_task("milk").unwrap();

    let dto = TaskListDto::from_domain(&list);
    assert_eq!(dto.id, "seq-0");
    assert_eq!(dto.tasks.len(), 2);
    assert!(dto.tasks[0].completed);

    let back = dto.into_domain().unwrap();
    assert_eq!(back, list);
    assert_eq!(back.tasks()[0].title(), "milk");
    assert!(back.tasks()[0].is_completed());
    assert!(!back.tasks()[1].is_completed());
}

#[test]
fn stored_list_without_tasks_reads_back_empty() {
    let dto = TaskListDto { id: "a".to_string(), name: "home".to_string(), tasks: Vec::new() };
    let list = dto.into_domain().unwrap();
    assert_eq!(list.name(), "home");
    assert!(list.tasks().is_empty());
}

#[test]
fn stored_list_with_blank_name_is_refused() {
    let dto = TaskListDto { id: "a".to_string(), name: "  ".to_string(), tasks: Vec::new() };
    assert_eq!(dto.into_domain().unwrap_err().0, "invalid stored task list: EmptyName");
}

#[test]
fn stored_list_with_repeated_title_is_refused() {
    let dto = TaskListDto {
        id: "a".to_string(),
        name: "home".to_string(),
        tasks: vec![
            TaskDto { title: "milk".to_string(), completed: true },
            TaskDto { title: "milk".to_string(), completed: false },
        ],
    };
    assert_eq!(dto.into_domain().unwrap_err().0, "invalid stored task: DuplicateTitle");
}

#[test]
fn stored_list_with_blank_title_is_refused() {
    let dto = TaskListDto {
        id: "a".to_string(),
        name: "home".to_string(),
        tasks: vec![TaskDto { title: " ".to_string(), completed: false }],
    };
    assert_eq!(dto.into_domain().unwrap_err().0, "invalid stored task: EmptyTitle");
}

#[test]
fn file_name_is_id_with_toml_extension() {
    assert_eq!(toml_file_name(&TaskListId("seq-3".into())), "seq-3.toml");
}
