//! In-memory adapters: a repository and a deterministic id generator.
use vstd::prelude::*;

use crate::application::ports::{
    id_position, list_views, lists_exactly, IdGenerator, RepoResult, Stored, TaskListRepository,
};
use crate::domain::task_list::{TaskList, TaskListId, TaskListView};
use crate::text::{decimal, push_decimal, same_text};
use vstd::cell::invcell::InvCell;
use vstd::predicate::Predicate;

verus! {

/// No two lists share an id.
pub open spec fn ids_distinct(s: Seq<TaskListView>) -> bool {
    forall|i: int, j: int|
        0 <= i < s.len() && 0 <= j < s.len() && i != j ==> #[trigger] s[i].id != #[trigger] s[j].id
}

/// The lists of `s`, by id.
pub open spec fn by_id_map(s: Seq<TaskListView>) -> Stored {
    Map::new(
        |k: Seq<char>| exists|i: int| 0 <= i < s.len() && #[trigger] s[i].id == k,
        |k: Seq<char>| s[choose|i: int| 0 <= i < s.len() && #[trigger] s[i].id == k],
    )
}

proof fn lemma_by_id_map_at(s: Seq<TaskListView>, i: int)
    requires
        ids_distinct(s),
        0 <= i < s.len(),
    ensures
        by_id_map(s).contains_key(s[i].id),
        by_id_map(s)[s[i].id] == s[i],
{
    let k = s[i].id;
    assert(exists|j: int| 0 <= j < s.len() && #[trigger] s[j].id == k);
    let c = choose|j: int| 0 <= j < s.len() && #[trigger] s[j].id == k;
    assert(c == i);
}

proof fn lemma_lists_exactly(s: Seq<TaskListView>)
    requires
        ids_distinct(s),
    ensures
        lists_exactly(s, by_id_map(s)),
{
    assert forall|i: int| 0 <= i < s.len() implies by_id_map(s).contains_key(
        #[trigger] s[i].id,
    ) && by_id_map(s)[s[i].id] == s[i] by {
        lemma_by_id_map_at(s, i);
    }
}

proof fn lemma_update(s: Seq<TaskListView>, i: int, v: TaskListView)
    requires
        ids_distinct(s),
        0 <= i < s.len(),
        v.id == s[i].id,
    ensures
        ids_distinct(s.update(i, v)),
        by_id_map(s.update(i, v)) == by_id_map(s).insert(v.id, v),
{
    let t = s.update(i, v);
    assert(ids_distinct(t)) by {
        assert forall|a: int, b: int|
            0 <= a < t.len() && 0 <= b < t.len() && a != b implies #[trigger] t[a].id
                != #[trigger] t[b].id by {
            assert(s[a].id != s[b].id);
        }
    }
    let m1 = by_id_map(t);
    let m2 = by_id_map(s).insert(v.id, v);
    assert forall|k: Seq<char>| m1.contains_key(k) <==> m2.contains_key(k) by {
        if m1.contains_key(k) {
            let j = choose|j: int| 0 <= j < t.len() && #[trigger] t[j].id == k;
            assert(s[j].id == k);
        }
        if m2.contains_key(k) && k != v.id {
            let j = choose|j: int| 0 <= j < s.len() && #[trigger] s[j].id == k;
            assert(t[j].id == k);
        }
        if k == v.id {
            assert(t[i].id == k);
        }
    }
    assert forall|k: Seq<char>| #[trigger] m1.contains_key(k) implies m1[k] == m2[k] by {
        let j = choose|j: int| 0 <= j < t.len() && #[trigger] t[j].id == k;
        lemma_by_id_map_at(t, j);
        if j != i {
            lemma_by_id_map_at(s, j);
        }
    }
    assert(m1 =~= m2);
}

proof fn lemma_push(s: Seq<TaskListView>, v: TaskListView)
    requires
        ids_distinct(s),
        !by_id_map(s).contains_key(v.id),
    ensures
        ids_distinct(s.push(v)),
        by_id_map(s.push(v)) == by_id_map(s).insert(v.id, v),
{
    let t = s.push(v);
    assert(ids_distinct(t)) by {
        assert forall|a: int, b: int|
            0 <= a < t.len() && 0 <= b < t.len() && a != b implies #[trigger] t[a].id
                != #[trigger] t[b].id by {
            if a < s.len() && b < s.len() {
                assert(s[a].id != s[b].id);
            } else if a < s.len() {
                assert(t[a].id == s[a].id);
            } else {
                assert(t[b].id == s[b].id);
            }
        }
    }
    let m1 = by_id_map(t);
    let m2 = by_id_map(s).insert(v.id, v);
    assert forall|k: Seq<char>| m1.contains_key(k) <==> m2.contains_key(k) by {
        if m1.contains_key(k) {
            let j = choose|j: int| 0 <= j < t.len() && #[trigger] t[j].id == k;
            if j < s.len() {
                assert(s[j].id == k);
            }
        }
        if m2.contains_key(k) && k != v.id {
            let j = choose|j: int| 0 <= j < s.len() && #[trigger] s[j].id == k;
            assert(t[j].id == k);
        }
        if k == v.id {
            assert(t[s.len() as int].id == k);
        }
    }
    assert forall|k: Seq<char>| #[trigger] m1.contains_key(k) implies m1[k] == m2[k] by {
        let j = choose|j: int| 0 <= j < t.len() && #[trigger] t[j].id == k;
        lemma_by_id_map_at(t, j);
        if j < s.len() {
            lemma_by_id_map_at(s, j);
        }
    }
    assert(m1 =~= m2);
}

proof fn lemma_remove(s: Seq<TaskListView>, i: int)
    requires
        ids_distinct(s),
        0 <= i < s.len(),
    ensures
        ids_distinct(s.remove(i)),
        by_id_map(s.remove(i)) == by_id_map(s).remove(s[i].id),
{
    let t = s.remove(i);
    assert forall|a: int| 0 <= a < t.len() implies #[trigger] t[a] == s[if a < i {
        a
    } else {
        a + 1
    }] by {}
    assert(ids_distinct(t)) by {
        assert forall|a: int, b: int|
            0 <= a < t.len() && 0 <= b < t.len() && a != b implies #[trigger] t[a].id
                != #[trigger] t[b].id by {
            let a2 = if a < i { a } else { a + 1 };
            let b2 = if b < i { b } else { b + 1 };
            assert(t[a] == s[a2]);
            assert(t[b] == s[b2]);
            assert(s[a2].id != s[b2].id);
        }
    }
    let m1 = by_id_map(t);
    let m2 = by_id_map(s).remove(s[i].id);
    assert forall|k: Seq<char>| m1.contains_key(k) <==> m2.contains_key(k) by {
        if m1.contains_key(k) {
            let j = choose|j: int| 0 <= j < t.len() && #[trigger] t[j].id == k;
            let j2 = if j < i { j } else { j + 1 };
            assert(t[j] == s[j2]);
            assert(s[j2].id == k);
            assert(s[j2].id != s[i].id);
        }
        if m2.contains_key(k) {
            let j = choose|j: int| 0 <= j < s.len() && #[trigger] s[j].id == k;
            assert(j != i);
            let j2 = if j < i { j } else { j - 1 };
            assert(t[j2] == s[j]);
            assert(t[j2].id == k);
        }
    }
    assert forall|k: Seq<char>| #[trigger] m1.contains_key(k) implies m1[k] == m2[k] by {
        let j = choose|j: int| 0 <= j < t.len() && #[trigger] t[j].id == k;
        let j2 = if j < i { j } else { j + 1 };
        assert(t[j] == s[j2]);
        lemma_by_id_map_at(t, j);
        lemma_by_id_map_at(s, j2);
    }
    assert(m1 =~= m2);
}

proof fn lemma_id_position(s: Seq<TaskListView>, i: int)
    requires
        ids_distinct(s),
        0 <= i < s.len(),
    ensures
        id_position(s, s[i].id) == i,
{
    let k = s[i].id;
    assert(exists|j: int| 0 <= j < s.len() && #[trigger] s[j].id == k);
    let c = id_position(s, k);
    assert(s[c].id == k);
}

/// A repository that keeps its lists in memory, in the order they were first
/// saved. It never fails.
pub struct InMemoryTaskListRepository {
    lists: Vec<TaskList>,
}

impl InMemoryTaskListRepository {
    #[verifier::type_invariant]
    spec fn ids_unique(self) -> bool {
        ids_distinct(list_views(self.lists@))
    }

    /// The lists held, in the order they were first saved.
    pub closed spec fn lists_in_order(&self) -> Seq<TaskListView> {
        list_views(self.lists@)
    }

    /// An empty repository.
    pub fn new() -> (r: Self)
        ensures
            r.stored() == Map::<Seq<char>, TaskListView>::empty(),
            r.lists_in_order() == Seq::<TaskListView>::empty(),
    {
        let r = InMemoryTaskListRepository { lists: Vec::new() };
        assert(r.stored() =~= Map::<Seq<char>, TaskListView>::empty());
        assert(r.lists_in_order() =~= Seq::<TaskListView>::empty());
        r
    }

    /// The position of the list stored under `id`, if any.
    fn position_of(&self, id: &TaskListId) -> (r: Option<usize>)
        ensures
            match r {
                Some(i) => i < self.lists@.len() && self.lists_in_order()[i as int].id == id@,
                None => !self.stored().contains_key(id@),
            },
    {
        let mut i: usize = 0;
        while i < self.lists.len()
            invariant
                i <= self.lists@.len(),
                forall|j: int| 0 <= j < i ==> #[trigger] list_views(self.lists@)[j].id != id@,
            decreases self.lists.len() - i,
        {
            if self.lists[i].id().0 == id.0 {
                return Some(i);
            }
            i = i + 1;
        }
        None
    }
}

impl Default for InMemoryTaskListRepository {
    fn default() -> (r: Self)
        ensures
            r.stored() == Map::<Seq<char>, TaskListView>::empty(),
            r.lists_in_order() == Seq::<TaskListView>::empty(),
    {
        Self::new()
    }
}

impl TaskListRepository for InMemoryTaskListRepository {
    closed spec fn stored(&self) -> Stored {
        by_id_map(list_views(self.lists@))
    }

    open spec fn listed(&self) -> Seq<TaskListView> {
        self.lists_in_order()
    }

    open spec fn infallible(&self) -> bool {
        true
    }

    /// A list already held keeps its place; a new one goes last.
    fn save(&mut self, list: &TaskList) -> (r: RepoResult<()>)
        ensures
            old(self).stored().contains_key(list@.id) ==> final(self).lists_in_order() == old(
                self,
            ).lists_in_order().update(id_position(old(self).lists_in_order(), list@.id), list@),
            !old(self).stored().contains_key(list@.id) ==> final(self).lists_in_order() == old(
                self,
            ).lists_in_order().push(list@),
    {
        proof {
            use_type_invariant(&*self);
        }
        let ghost before = list_views(self.lists@);
        let copy = list.clone();
        let found = self.position_of(list.id());
        let mut lists: Vec<TaskList> = Vec::new();
        std::mem::swap(&mut lists, &mut self.lists);
        match found {
            Some(i) => {
                lists.set(i, copy);
                proof {
                    lemma_id_position(before, i as int);
                    lemma_update(before, i as int, list@);
                    assert(list_views(lists@) == before.update(i as int, list@));
                }
            },
            None => {
                lists.push(copy);
                proof {
                    lemma_push(before, list@);
                    assert(list_views(lists@) == before.push(list@));
                }
            },
        }
        self.lists = lists;
        Ok(())
    }

    fn all(&self) -> (r: RepoResult<Vec<TaskList>>)
        ensures
            r matches Ok(v) && list_views(v@) == self.lists_in_order(),
    {
        proof {
            use_type_invariant(self);
        }
        let v = self.lists.clone();
        assert forall|i: int| 0 <= i < v@.len() implies v@[i]@ == self.lists@[i]@ by {
            assert(cloned::<TaskList>(self.lists[i], v[i]));
        }
        assert(list_views(v@) == list_views(self.lists@));
        proof {
            lemma_lists_exactly(list_views(self.lists@));
        }
        Ok(v)
    }

    fn by_id(&self, id: &TaskListId) -> (r: RepoResult<Option<TaskList>>) {
        proof {
            use_type_invariant(self);
        }
        match self.position_of(id) {
            Some(i) => {
                proof {
                    lemma_by_id_map_at(list_views(self.lists@), i as int);
                }
                Ok(Some(self.lists[i].clone()))
            },
            None => Ok(None),
        }
    }

    /// The first list in order with that name.
    fn find_by_name(&self, name: &str) -> (r: RepoResult<Option<TaskList>>)
        ensures
            r matches Ok(Some(l)) ==> exists|i: int|
                0 <= i < self.lists_in_order().len() && #[trigger] self.lists_in_order()[i] == l@
                    && forall|j: int| 0 <= j < i ==> #[trigger] self.lists_in_order()[j].name != name@,
    {
        proof {
            use_type_invariant(self);
        }
        let ghost s = list_views(self.lists@);
        let mut i: usize = 0;
        while i < self.lists.len()
            invariant
                i <= self.lists@.len(),
                s == list_views(self.lists@),
                ids_distinct(s),
                forall|j: int| 0 <= j < i ==> #[trigger] s[j].name != name@,
            decreases self.lists.len() - i,
        {
            if same_text(self.lists[i].name(), name) {
                proof {
                    lemma_by_id_map_at(s, i as int);
                }
                let found = self.lists[i].clone();
                assert(self.lists_in_order()[i as int] == found@);
                return Ok(Some(found));
            }
            i = i + 1;
        }
        proof {
            assert forall|k: Seq<char>| self.stored().contains_key(k) implies #[trigger] self.stored()[k].name != name@ by {
                let j = choose|j: int| 0 <= j < s.len() && #[trigger] s[j].id == k;
                lemma_by_id_map_at(s, j);
            }
        }
        Ok(None)
    }

    /// The others keep their order.
    fn delete(&mut self, id: &TaskListId) -> (r: RepoResult<()>)
        ensures
            old(self).stored().contains_key(id@) ==> final(self).lists_in_order() == old(
                self,
            ).lists_in_order().remove(id_position(old(self).lists_in_order(), id@)),
            !old(self).stored().contains_key(id@) ==> final(self).lists_in_order() == old(
                self,
            ).lists_in_order(),
    {
        proof {
            use_type_invariant(&*self);
        }
        let ghost before = list_views(self.lists@);
        match self.position_of(id) {
            Some(i) => {
                let mut lists: Vec<TaskList> = Vec::new();
                std::mem::swap(&mut lists, &mut self.lists);
                lists.remove(i);
                proof {
                    lemma_id_position(before, i as int);
                    lemma_remove(before, i as int);
                    assert(list_views(lists@) == before.remove(i as int));
                }
                self.lists = lists;
            },
            None => {
                assert(self.stored().remove(id@) =~= self.stored());
            },
        }
        Ok(())
    }
}

/// The id `seq-<n>` in decimal.
pub open spec fn seq_id(n: nat) -> Seq<char> {
    seq!['s', 'e', 'q', '-'] + decimal(n)
}

/// Deterministic id generator for tests: `seq-0`, `seq-1`, ...
pub struct SeqIdGenerator {
    next: InvCell<u64, AnyCount>,
}

/// The counter of a `SeqIdGenerator` may hold any value.
pub struct AnyCount;

impl Predicate<u64> for AnyCount {
    open spec fn predicate(&self, v: u64) -> bool {
        true
    }
}

impl SeqIdGenerator {
    /// A generator whose first id is `seq-0`.
    pub fn new() -> (r: Self) {
        SeqIdGenerator { next: InvCell::new(0, Ghost(AnyCount)) }
    }
}

impl Default for SeqIdGenerator {
    fn default() -> (r: Self) {
        Self::new()
    }
}

impl IdGenerator for SeqIdGenerator {
    /// The next id of the sequence; the counter wraps after `u64::MAX`.
    fn new_id(&self) -> (r: TaskListId)
        ensures
            exists|n: nat| r@ == seq_id(n),
    {
        let n = self.next.get();
        self.next.set(n.wrapping_add(1));
        let mut s = String::new();
        push_char_seq_prefix(&mut s);
        push_decimal(&mut s, n);
        assert(s@ == seq_id(n as nat));
        TaskListId(s)
    }
}

/// Appends `seq-` to `s`.
fn push_char_seq_prefix(s: &mut String)
    ensures
        final(s)@ == old(s)@ + seq!['s', 'e', 'q', '-'],
{
    s.append("seq-");
    proof {
        reveal_strlit("seq-");
    }
}

} // verus!
