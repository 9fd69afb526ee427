use shtask::domain::task::{Task, TaskError};

#[test]
fn rejects_blank_title() {
    assert_eq!(Task::new("   "), Err(TaskError::EmptyTitle));
}

#[test]
fn new_task_starts_incomplete() {
    let t = Task::new("milk").unwrap();
    assert_eq!(t.title(), "milk");
    assert!(!t.is_completed());
}

#[test]
fn mark_uncompleted_resets_to_incomplete() {
    let mut t = Task::new("milk").unwrap();
    t.mark_completed();
    assert!(t.is_completed());
    t.mark_uncompleted();
    assert!(!t.is_completed());
}

#[test]
fn unicode_white_space_only_title_is_blank() {
    assert_eq!(Task::new("\u{3000}\t\u{a0}"), Err(TaskError::EmptyTitle));
    assert!(Task::new(" x ").is_ok());
}

#[test]
fn cloned_task_keeps_title_and_completion() {
    let mut t = Task::new("milk").unwrap();
    t.mark_completed();
    let c = t.clone();
    assert_eq!(c.title(), "milk");
    assert!(c.is_completed());
}
