//! What the use cases guarantee across calls: names stay unique across
//! lists, what was created or changed can be read back, and what was
//! deleted is gone.
use vstd::prelude::*;

use crate::application::create_task_list::{create_outcome, fresh_list, CreateError};
use crate::application::delete_task_list::{delete_outcome, DeleteError};
use crate::application::ports::{lists_exactly, name_taken, Stored};
use crate::application::rename_task_list::{rename_outcome, renamed, RenameError};
use crate::application::task_commands::{list_command_done, TaskCommandError};
use crate::domain::task::TaskView;
use crate::domain::task_list::{spec_add_task, TaskListId};

verus! {

/// No two stored lists share a name.
pub open spec fn names_unique(m: Stored) -> bool {
    forall|a: Seq<char>, b: Seq<char>|
        m.contains_key(a) && m.contains_key(b) && a != b ==> #[trigger] m[a].name != #[trigger] m[b].name
}

/// Every list is stored under its own id.
pub open spec fn keyed_by_id(m: Stored) -> bool {
    forall|k: Seq<char>| #[trigger] m.contains_key(k) ==> m[k].id == k
}

/// Creating a list keeps list names unique across lists, and keeps every
/// list under its own id.
pub proof fn law_create_keeps_names_unique(
    before: Stored,
    after: Stored,
    name: Seq<char>,
    infallible: bool,
    r: Result<TaskListId, CreateError>,
)
    requires
        names_unique(before),
        keyed_by_id(before),
        create_outcome(before, after, name, infallible, r),
        !(r matches Err(CreateError::Repo(_))),
    ensures
        names_unique(after),
        keyed_by_id(after),
{
    if let Ok(id) = r {
        assert forall|a: Seq<char>, b: Seq<char>|
            after.contains_key(a) && after.contains_key(b) && a != b implies #[trigger] after[a].name
                != #[trigger] after[b].name by {
            if a == id@ {
                assert(before.contains_key(b) && before[b].name == after[b].name);
            } else if b == id@ {
                assert(before.contains_key(a) && before[a].name == after[a].name);
            }
        }
    }
}

/// Renaming a list keeps list names unique across lists, and keeps every
/// list under its own id.
pub proof fn law_rename_keeps_names_unique(
    before: Stored,
    after: Stored,
    id: Seq<char>,
    name: Seq<char>,
    infallible: bool,
    r: Result<(), RenameError>,
)
    requires
        names_unique(before),
        keyed_by_id(before),
        rename_outcome(before, after, id, name, infallible, r),
        !(r matches Err(RenameError::Repo(_))),
    ensures
        names_unique(after),
        keyed_by_id(after),
{
    if r is Ok {
        assert forall|a: Seq<char>, b: Seq<char>|
            after.contains_key(a) && after.contains_key(b) && a != b implies #[trigger] after[a].name
                != #[trigger] after[b].name by {
            if a == id {
                if name_taken(before, name) {
                    assert(before[id].name == name);
                    assert(before[b].name != before[id].name);
                } else {
                    assert(before[b].name == after[b].name);
                }
            } else if b == id {
                if name_taken(before, name) {
                    assert(before[a].name != before[id].name);
                } else {
                    assert(before[a].name == after[a].name);
                }
            }
        }
    }
}

/// A list that was just created is among the lists read back afterwards,
/// empty and under its name.
pub proof fn law_created_list_is_listed(
    before: Stored,
    after: Stored,
    name: Seq<char>,
    infallible: bool,
    r: Result<TaskListId, CreateError>,
    listed: Seq<crate::domain::task_list::TaskListView>,
)
    requires
        create_outcome(before, after, name, infallible, r),
        r is Ok,
        lists_exactly(listed, after),
    ensures
        exists|i: int| 0 <= i < listed.len() && listed[i] == fresh_list(r->Ok_0@, name),
{
    let id = r->Ok_0@;
    assert(after.contains_key(id));
    let i = choose|i: int| 0 <= i < listed.len() && listed[i].id == id;
    assert(listed[i] == after[id]);
}

/// A list that was just deleted is not among the lists read back afterwards.
pub proof fn law_deleted_list_is_not_listed(
    before: Stored,
    after: Stored,
    id: Seq<char>,
    infallible: bool,
    r: Result<(), DeleteError>,
    listed: Seq<crate::domain::task_list::TaskListView>,
)
    requires
        delete_outcome(before, after, id, infallible, r),
        r is Ok,
        lists_exactly(listed, after),
    ensures
        forall|i: int| 0 <= i < listed.len() ==> #[trigger] listed[i].id != id,
{
}

/// A task that was just added is read back last among its list's tasks,
/// not done, after the tasks that were there before.
pub proof fn law_added_task_is_read_back_last(
    before: Stored,
    after: Stored,
    id: Seq<char>,
    title: Seq<char>,
    infallible: bool,
    r: Result<(), TaskCommandError>,
)
    requires
        list_command_done(before, after, id, spec_add_task(before[id], title), infallible, r),
        r is Ok,
    ensures
        after.contains_key(id),
        after[id].tasks == before[id].tasks.push(TaskView { title, completed: false }),
        after[id].name == before[id].name,
{
}

/// A renamed list reads back under its new name with the same tasks.
pub proof fn law_renamed_list_reads_back(
    before: Stored,
    after: Stored,
    id: Seq<char>,
    name: Seq<char>,
    infallible: bool,
    r: Result<(), RenameError>,
)
    requires
        rename_outcome(before, after, id, name, infallible, r),
        r is Ok,
    ensures
        after.contains_key(id),
        after[id] == renamed(before[id], name),
        after[id].tasks == before[id].tasks,
{
}

} // verus!
