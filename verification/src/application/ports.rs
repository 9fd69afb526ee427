//! Ports: interfaces the application needs from the outside world, named for
//! capability, not technology. Adapters implement these at the edge.
use vstd::prelude::*;

use crate::domain::task_list::{TaskList, TaskListId, TaskListView};

verus! {

/// Technology-agnostic persistence error. Adapters map their concrete
/// failures (IO, parse, serialize) into this.
#[derive(Debug)]
pub struct RepoError(pub String);

pub type RepoResult<T> = Result<T, RepoError>;

/// What a repository holds: each stored list under its id.
pub type Stored = Map<Seq<char>, TaskListView>;

/// The views of a sequence of task lists.
pub open spec fn list_views(lists: Seq<TaskList>) -> Seq<TaskListView> {
    lists.map_values(|l: TaskList| l@)
}

/// `s` lists every stored list exactly once (in any order) and nothing else.
pub open spec fn lists_exactly(s: Seq<TaskListView>, m: Stored) -> bool {
    &&& forall|i: int|
        0 <= i < s.len() ==> m.contains_key(#[trigger] s[i].id) && m[s[i].id] == s[i]
    &&& forall|i: int, j: int|
        0 <= i < s.len() && 0 <= j < s.len() && i != j ==> #[trigger] s[i].id != #[trigger] s[j].id
    &&& forall|k: Seq<char>|
        #[trigger] m.contains_key(k) ==> exists|i: int| 0 <= i < s.len() && s[i].id == k
}

/// Some list in `s` has the id `id`.
pub open spec fn has_id(s: Seq<TaskListView>, id: Seq<char>) -> bool {
    exists|i: int| 0 <= i < s.len() && #[trigger] s[i].id == id
}

/// The position of the list with id `id` in `s` (meaningful when there is one).
pub open spec fn id_position(s: Seq<TaskListView>, id: Seq<char>) -> int {
    choose|i: int| 0 <= i < s.len() && #[trigger] s[i].id == id
}

/// The order of the lists after `l` is saved: a list already there with its
/// id is replaced in its place; a new one goes last.
pub open spec fn saved_order(s: Seq<TaskListView>, l: TaskListView) -> Seq<TaskListView> {
    if has_id(s, l.id) {
        s.update(id_position(s, l.id), l)
    } else {
        s.push(l)
    }
}

/// The order of the lists after the list with id `id` is removed: the
/// others keep their order.
pub open spec fn deleted_order(s: Seq<TaskListView>, id: Seq<char>) -> Seq<TaskListView> {
    if has_id(s, id) {
        s.remove(id_position(s, id))
    } else {
        s
    }
}

/// Saving a list whose id stands at position `i` of a listing without
/// repeated ids replaces it there.
pub proof fn lemma_saved_in_place(s: Seq<TaskListView>, m: Stored, i: int, l: TaskListView)
    requires
        lists_exactly(s, m),
        0 <= i < s.len(),
        l.id == s[i].id,
    ensures
        saved_order(s, l) == s.update(i, l),
{
    assert(has_id(s, l.id));
    let p = id_position(s, l.id);
    assert(s[p].id == l.id);
    if p != i {
        assert(s[p].id != s[i].id);
    }
}

/// Some stored list is named `name`.
pub open spec fn name_taken(m: Stored, name: Seq<char>) -> bool {
    exists|k: Seq<char>| m.contains_key(k) && #[trigger] m[k].name == name
}

/// Persistence capability for task lists.
///
/// A repository holds task lists by id, in an order that `all` gives back:
/// a saved list keeps its place, a new one goes last, and a deleted one
/// leaves the others in order. `infallible` marks a repository whose
/// operations never fail; any other may answer any call with an error, after
/// which a writing call leaves its contents unknown.
///
/// Code generic over a repository relies on the contracts below alone, and
/// what is proved of it holds of every implementation that Verus has checked
/// against them, such as the in-memory one. An implementation written in
/// plain Rust is not checked: it keeps the default spec functions, which do
/// not describe lists kept outside the value (in files, say), so the proofs
/// here tell nothing about such an implementation.
pub trait TaskListRepository {
    /// The lists held, by id.
    closed spec fn stored(&self) -> Stored {
        Map::empty()
    }

    /// The lists held, in the order `all` gives them.
    closed spec fn listed(&self) -> Seq<TaskListView> {
        Seq::empty()
    }

    /// Whether no operation of this repository can fail.
    closed spec fn infallible(&self) -> bool {
        false
    }

    /// Store `list` under its id, replacing any list stored there.
    fn save(&mut self, list: &TaskList) -> (r: RepoResult<()>)
        ensures
            final(self).infallible() == old(self).infallible(),
            old(self).infallible() ==> r is Ok,
            r is Ok ==> final(self).stored() == old(self).stored().insert(list@.id, list@),
            r is Ok ==> final(self).listed() == saved_order(old(self).listed(), list@),
    ;

    /// Every stored list.
    fn all(&self) -> (r: RepoResult<Vec<TaskList>>)
        ensures
            self.infallible() ==> r is Ok,
            r matches Ok(v) ==> lists_exactly(list_views(v@), self.stored()),
            r matches Ok(v) ==> list_views(v@) == self.listed(),
    ;

    /// The list stored under `id`, if any.
    fn by_id(&self, id: &TaskListId) -> (r: RepoResult<Option<TaskList>>)
        ensures
            self.infallible() ==> r is Ok,
            r matches Ok(Some(l)) ==> self.stored().contains_key(id@) && l@ == self.stored()[id@]
                && l@.id == id@,
            r matches Ok(None) ==> !self.stored().contains_key(id@),
    ;

    /// A stored list named `name`, if any.
    fn find_by_name(&self, name: &str) -> (r: RepoResult<Option<TaskList>>)
        ensures
            self.infallible() ==> r is Ok,
            r matches Ok(Some(l)) ==> self.stored().contains_key(l@.id) && self.stored()[l@.id]
                == l@ && l@.name == name@,
            r matches Ok(None) ==> !name_taken(self.stored(), name@),
    ;

    /// Remove the list stored under `id`; removing a missing list is no error.
    fn delete(&mut self, id: &TaskListId) -> (r: RepoResult<()>)
        ensures
            final(self).infallible() == old(self).infallible(),
            old(self).infallible() ==> r is Ok,
            r is Ok ==> final(self).stored() == old(self).stored().remove(id@),
            r is Ok ==> final(self).listed() == deleted_order(old(self).listed(), id@),
    ;
}

/// Identity generation, injected so the use cases stay deterministic.
pub trait IdGenerator {
    fn new_id(&self) -> TaskListId;
}

} // verus!
