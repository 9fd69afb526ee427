use shtask::adapters::in_memory::{InMemoryTaskListRepository, SeqIdGenerator};
use shtask::application::create_task_list::{CreateError, CreateTaskList};
use shtask::application::delete_task_list::{DeleteError, DeleteTaskList};
use shtask::application::list_task_lists::ListTaskLists;
use shtask::application::ports::{IdGenerator, TaskListRepository};
use shtask::application::rename_task_list::{RenameError, RenameTaskList};
use shtask::application::task_commands::{
    AddTask, CompleteTask, DeleteTask, ListTasks, RenameTask, TaskCommandError, UncompleteTask,
};
use shtask::domain::task_list::TaskListId;

fn seed(repo: &mut InMemoryTaskListRepository, ids: &SeqIdGenerator, name: &str) -> TaskListId {
    let mut uc = CreateTaskList::new(repo, ids);
    uc.execute(name).unwrap()
}

fn repo_with_list() -> (InMemoryTaskListRepository, TaskListId) {
    let mut repo = InMemoryTaskListRepository::new();
    let ids = SeqIdGenerator::new();
    let id = {
        let mut uc = CreateTaskList::new(&mut repo, &ids);
        uc.execute("work").unwrap()
    };
    (repo, id)
}

#[test]
fn create_rejects_blank_name() {
    let mut repo = InMemoryTaskListRepository::new();
    let ids = SeqIdGenerator::new();
    let mut uc = CreateTaskList::new(&mut repo, &ids);

    let err = uc.execute("   ").unwrap_err();

    assert_eq!(err, CreateError::EmptyName);
    assert!(repo.all().unwrap().is_empty());
}

#[test]
fn create_persists_named_list() {
    let mut repo = InMemoryTaskListRepository::new();
    let ids = SeqIdGenerator::new();
    let id = {
        let mut uc = CreateTaskList::new(&mut repo, &ids);
        uc.execute("work").unwrap()
    };

    let stored = repo.by_id(&id).unwrap().expect("list stored");
    assert_eq!(stored.name(), "work");
    assert_eq!(stored.id(), &id);
}

#[test]
fn create_rejects_duplicate_name() {
    let mut repo = InMemoryTaskListRepository::new();
    let ids = SeqIdGenerator::new();
    {
        let mut uc = CreateTaskList::new(&mut repo, &ids);
        uc.execute("work").unwrap();
    }

    let err = {
        let mut uc = CreateTaskList::new(&mut repo, &ids);
        uc.execute("work").unwrap_err()
    };

    assert_eq!(err, CreateError::DuplicateName);
    assert_eq!(repo.all().unwrap().len(), 1);
}

#[test]
fn deletes_existing_list() {
    let mut repo = InMemoryTaskListRepository::new();
    let ids = SeqIdGenerator::new();
    let id = {
        let mut uc = CreateTaskList::new(&mut repo, &ids);
        uc.execute("work").unwrap()
    };

    DeleteTaskList::new(&mut repo).execute(&id).unwrap();

    assert!(repo.all().unwrap().is_empty());
}

#[test]
fn delete_task_list_missing_list_is_not_found() {
    let mut repo = InMemoryTaskListRepository::new();
    let err = DeleteTaskList::new(&mut repo)
        .execute(&TaskListId("nope".into()))
        .unwrap_err();
    assert_eq!(err, DeleteError::NotFound);
}

#[test]
fn lists_all_existing() {
    let mut repo = InMemoryTaskListRepository::new();
    let ids = SeqIdGenerator::new();
    for name in ["work", "home"] {
        let mut uc = CreateTaskList::new(&mut repo, &ids);
        uc.execute(name).unwrap();
    }

    let names: Vec<String> = ListTaskLists::new(&repo)
        .execute()
        .unwrap()
        .iter()
        .map(|l| l.name().to_string())
        .collect();

    assert_eq!(names, vec!["work".to_string(), "home".to_string()]);
}

#[test]
fn renames_existing_list() {
    let mut repo = InMemoryTaskListRepository::new();
    let ids = SeqIdGenerator::new();
    let id = seed(&mut repo, &ids, "work");

    RenameTaskList::new(&mut repo)
        .execute(&id, "office")
        .unwrap();

    assert_eq!(repo.by_id(&id).unwrap().unwrap().name(), "office");
}

#[test]
fn rejects_rename_to_existing_name() {
    let mut repo = InMemoryTaskListRepository::new();
    let ids = SeqIdGenerator::new();
    seed(&mut repo, &ids, "work");
    let home = seed(&mut repo, &ids, "home");

    let err = RenameTaskList::new(&mut repo)
        .execute(&home, "work")
        .unwrap_err();

    assert_eq!(err, RenameError::DuplicateName);
    assert_eq!(repo.by_id(&home).unwrap().unwrap().name(), "home");
}

#[test]
fn rename_task_list_missing_list_is_not_found() {
    let mut repo = InMemoryTaskListRepository::new();
    let err = RenameTaskList::new(&mut repo)
        .execute(&TaskListId("nope".into()), "x")
        .unwrap_err();
    assert_eq!(err, RenameError::NotFound);
}

#[test]
fn lists_tasks_in_insertion_order() {
    let (mut repo, id) = repo_with_list();
    for title in ["a", "b"] {
        AddTask::new(&mut repo).execute(&id, title).unwrap();
    }

    let titles: Vec<String> = ListTasks::new(&repo)
        .execute(&id)
        .unwrap()
        .iter()
        .map(|t| t.title().to_string())
        .collect();

    assert_eq!(titles, vec!["a".to_string(), "b".to_string()]);
}

#[test]
fn add_to_missing_list_is_not_found() {
    let mut repo = InMemoryTaskListRepository::new();
    let err = AddTask::new(&mut repo)
        .execute(&TaskListId("nope".into()), "milk")
        .unwrap_err();
    assert_eq!(err, TaskCommandError::ListNotFound);
}

#[test]
fn rename_list_to_own_name_is_allowed() {
    let mut repo = InMemoryTaskListRepository::new();
    let ids = SeqIdGenerator::new();
    let id = seed(&mut repo, &ids, "work");
    assert_eq!(RenameTaskList::new(&mut repo).execute(&id, "work"), Ok(()));
    assert_eq!(repo.by_id(&id).unwrap().unwrap().name(), "work");
}

#[test]
fn rename_list_to_blank_is_refused() {
    let mut repo = InMemoryTaskListRepository::new();
    let ids = SeqIdGenerator::new();
    let id = seed(&mut repo, &ids, "work");
    assert_eq!(
        RenameTaskList::new(&mut repo).execute(&id, " "),
        Err(RenameError::EmptyName)
    );
    assert_eq!(repo.by_id(&id).unwrap().unwrap().name(), "work");
}

#[test]
fn task_commands_report_domain_errors() {
    let (mut repo, id) = repo_with_list();
    AddTask::new(&mut repo).execute(&id, "milk").unwrap();
    assert_eq!(
        AddTask::new(&mut repo).execute(&id, "milk"),
        Err(TaskCommandError::DuplicateTitle)
    );
    assert_eq!(
        AddTask::new(&mut repo).execute(&id, " "),
        Err(TaskCommandError::EmptyTitle)
    );
    assert_eq!(
        CompleteTask::new(&mut repo).execute(&id, "eggs"),
        Err(TaskCommandError::TaskNotFound)
    );
    assert_eq!(
        RenameTask::new(&mut repo).execute(&TaskListId("nope".into()), "milk", "x"),
        Err(TaskCommandError::ListNotFound)
    );
    assert_eq!(
        ListTasks::new(&repo).execute(&TaskListId("nope".into())),
        Err(TaskCommandError::ListNotFound)
    );
}

#[test]
fn task_commands_are_stored() {
    let (mut repo, id) = repo_with_list();
    AddTask::new(&mut repo).execute(&id, "milk").unwrap();
    AddTask::new(&mut repo).execute(&id, "bread").unwrap();
    CompleteTask::new(&mut repo).execute(&id, "milk").unwrap();
    RenameTask::new(&mut repo).execute(&id, "bread", "rye").unwrap();
    let list = repo.by_id(&id).unwrap().unwrap();
    assert!(list.tasks()[0].is_completed());
    assert_eq!(list.tasks()[1].title(), "rye");
    UncompleteTask::new(&mut repo).execute(&id, "milk").unwrap();
    DeleteTask::new(&mut repo).execute(&id, "rye").unwrap();
    let tasks = ListTasks::new(&repo).execute(&id).unwrap();
    assert_eq!(tasks.len(), 1);
    assert!(!tasks[0].is_completed());
}

#[test]
fn deleted_list_is_gone_and_others_stay() {
    let mut repo = InMemoryTaskListRepository::new();
    let ids = SeqIdGenerator::new();
    let work = seed(&mut repo, &ids, "work");
    let home = seed(&mut repo, &ids, "home");
    DeleteTaskList::new(&mut repo).execute(&work).unwrap();
    assert!(repo.by_id(&work).unwrap().is_none());
    assert!(repo.by_id(&home).unwrap().is_some());
    assert_eq!(
        DeleteTaskList::new(&mut repo).execute(&work),
        Err(DeleteError::NotFound)
    );
}

#[test]
fn seq_ids_count_up_from_zero() {
    let ids = SeqIdGenerator::new();
    assert_eq!(ids.new_id().as_str(), "seq-0");
    assert_eq!(ids.new_id().as_str(), "seq-1");
    assert_eq!(ids.new_id().as_str(), "seq-2");
}

#[test]
fn find_by_name_and_save_replace_in_place() {
    let mut repo = InMemoryTaskListRepository::new();
    let ids = SeqIdGenerator::new();
    let work = seed(&mut repo, &ids, "work");
    seed(&mut repo, &ids, "home");
    let found = repo.find_by_name("work").unwrap().unwrap();
    assert_eq!(found.id(), &work);
    assert!(repo.find_by_name("garden").unwrap().is_none());
    RenameTaskList::new(&mut repo).execute(&work, "office").unwrap();
    let names: Vec<String> = repo.all().unwrap().iter().map(|l| l.name().to_string()).collect();
    assert_eq!(names, vec!["office".to_string(), "home".to_string()]);
}
