use shtask::domain::task::TaskError;
use shtask::domain::task_list::{DomainError, TaskList, TaskListId};

fn list() -> TaskList {
    TaskList::new(TaskListId("x".into()), "work").unwrap()
}

#[test]
fn rejects_whitespace_only_name() {
    assert_eq!(
        TaskList::new(TaskListId("x".into()), "   "),
        Err(DomainError::EmptyName)
    );
}

#[test]
fn keeps_name_and_id_when_valid() {
    let list = TaskList::new(TaskListId("x".into()), "work").unwrap();
    assert_eq!(list.name(), "work");
    assert_eq!(list.id().as_str(), "x");
}

#[test]
fn add_task_rejects_blank_title() {
    let mut l = list();
    assert_eq!(l.add_task("   "), Err(TaskError::EmptyTitle));
    assert!(l.tasks().is_empty());
}

#[test]
fn add_task_appends_incomplete_task() {
    let mut l = list();
    l.add_task("milk").unwrap();
    assert_eq!(l.tasks().len(), 1);
    assert_eq!(l.tasks()[0].title(), "milk");
    assert!(!l.tasks()[0].is_completed());
}

#[test]
fn add_task_rejects_duplicate_title() {
    let mut l = list();
    l.add_task("milk").unwrap();
    assert_eq!(l.add_task("milk"), Err(TaskError::DuplicateTitle));
    assert_eq!(l.tasks().len(), 1);
}

#[test]
fn rename_task_changes_title() {
    let mut l = list();
    l.add_task("milk").unwrap();
    l.rename_task("milk", "bread").unwrap();
    assert_eq!(l.tasks()[0].title(), "bread");
}

#[test]
fn rename_task_rejects_duplicate_title() {
    let mut l = list();
    l.add_task("milk").unwrap();
    l.add_task("bread").unwrap();
    assert_eq!(
        l.rename_task("bread", "milk"),
        Err(TaskError::DuplicateTitle)
    );
    assert_eq!(l.tasks()[1].title(), "bread");
}

#[test]
fn rename_missing_task_is_not_found() {
    let mut l = list();
    assert_eq!(l.rename_task("ghost", "x"), Err(TaskError::NotFound));
}

#[test]
fn remove_task_drops_it() {
    let mut l = list();
    l.add_task("milk").unwrap();
    l.remove_task("milk").unwrap();
    assert!(l.tasks().is_empty());
}

#[test]
fn remove_missing_task_is_not_found() {
    let mut l = list();
    assert_eq!(l.remove_task("ghost"), Err(TaskError::NotFound));
}

#[test]
fn complete_task_marks_completed() {
    let mut l = list();
    l.add_task("milk").unwrap();
    l.complete_task("milk").unwrap();
    assert!(l.tasks()[0].is_completed());
}

#[test]
fn complete_task_is_idempotent() {
    let mut l = list();
    l.add_task("milk").unwrap();
    l.complete_task("milk").unwrap();
    l.complete_task("milk").unwrap();
    assert!(l.tasks()[0].is_completed());
}

#[test]
fn list_completes_when_all_tasks_complete() {
    let mut l = list();
    l.add_task("milk").unwrap();
    l.add_task("bread").unwrap();
    l.complete_task("milk").unwrap();
    assert!(!l.is_completed());
    l.complete_task("bread").unwrap();
    assert!(l.is_completed());
}

#[test]
fn empty_list_is_not_completed() {
    assert!(!list().is_completed());
}

#[test]
fn uncomplete_task_resets_completed_task() {
    let mut l = list();
    l.add_task("milk").unwrap();
    l.complete_task("milk").unwrap();
    assert!(l.tasks()[0].is_completed());
    l.uncomplete_task("milk").unwrap();
    assert!(!l.tasks()[0].is_completed());
}

#[test]
fn uncomplete_missing_task_is_not_found() {
    let mut l = list();
    assert_eq!(l.uncomplete_task("ghost"), Err(TaskError::NotFound));
}

#[test]
fn rename_task_to_own_title_is_allowed_noop() {
    let mut l = list();
    l.add_task("milk").unwrap();
    l.add_task("bread").unwrap();
    let before = l.clone();
    assert_eq!(l.rename_task("milk", "milk"), Ok(()));
    assert_eq!(l, before);
}

#[test]
fn rename_task_rejects_blank_new_title_first() {
    let mut l = list();
    assert_eq!(l.rename_task("ghost", "  "), Err(TaskError::EmptyTitle));
}

#[test]
fn remove_undoes_add() {
    let mut l = list();
    l.add_task("milk").unwrap();
    let before = l.clone();
    l.add_task("bread").unwrap();
    l.remove_task("bread").unwrap();
    assert_eq!(l, before);
}

#[test]
fn rename_back_restores_list() {
    let mut l = list();
    l.add_task("milk").unwrap();
    l.add_task("bread").unwrap();
    let before = l.clone();
    l.rename_task("milk", "eggs").unwrap();
    l.rename_task("eggs", "milk").unwrap();
    assert_eq!(l, before);
}

#[test]
fn uncomplete_undoes_complete() {
    let mut l = list();
    l.add_task("milk").unwrap();
    let before = l.clone();
    l.complete_task("milk").unwrap();
    l.uncomplete_task("milk").unwrap();
    assert_eq!(l, before);
}

#[test]
fn remove_keeps_order_of_other_tasks() {
    let mut l = list();
    for t in ["a", "b", "c"] {
        l.add_task(t).unwrap();
    }
    l.remove_task("b").unwrap();
    let titles: Vec<&str> = l.tasks().iter().map(|t| t.title()).collect();
    assert_eq!(titles, vec!["a", "c"]);
}

#[test]
fn rename_list_rejects_blank_and_keeps_name() {
    let mut l = list();
    assert_eq!(l.rename("\t"), Err(DomainError::EmptyName));
    assert_eq!(l.name(), "work");
    l.rename("office").unwrap();
    assert_eq!(l.name(), "office");
}
