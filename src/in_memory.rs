use vstd::hash_map::StringHashMap;
use vstd::prelude::*;

use crate::repository::{
    after_insert, after_replace, insert_outcome, is_listing, keyed_by_id, lookup, replace_outcome,
    RepositoryError, Store,
};
use crate::todo::Todo;

verus! {

/// A repository that keeps every item in memory, in a map from id to item.
///
/// Beside the map it keeps the stored ids in the order they were first
/// inserted, so that every item can be listed.
pub struct InMemoryTodosRepository {
    todos: StringHashMap<Todo>,
    ids: Vec<String>,
}

impl View for InMemoryTodosRepository {
    type V = Store;

    closed spec fn view(&self) -> Store {
        self.todos@
    }
}

impl InMemoryTodosRepository {
    /// The map and the list of ids describe the same items, each id once,
    /// and every item is stored under its own id.
    pub closed spec fn wf(&self) -> bool {
        &&& self.todos@.dom().finite()
        &&& self.ids@.len() == self.todos@.len()
        &&& forall|i: int, j: int|
            0 <= i < j < self.ids@.len() ==> self.ids@[i]@ != self.ids@[j]@
        &&& forall|i: int|
            0 <= i < self.ids@.len() ==> self.todos@.contains_key(#[trigger] self.ids@[i]@)
        &&& forall|k: Seq<char>|
            self.todos@.contains_key(k) ==> exists|i: int|
                0 <= i < self.ids@.len() && #[trigger] self.ids@[i]@ == k
        &&& forall|k: Seq<char>| #[trigger]
            self.todos@.contains_key(k) ==> self.todos@[k].id@ == k
    }

    /// An empty repository.
    pub fn new() -> (r: Self)
        ensures
            r.wf(),
            keyed_by_id(r@),
            r@ == Store::empty(),
    {
        InMemoryTodosRepository { todos: StringHashMap::new(), ids: Vec::new() }
    }

    /// Every stored item, each once, in no promised order. Never fails.
    pub fn get_todos(&self) -> (r: Result<Vec<Todo>, RepositoryError>)
        requires
            self.wf(),
        ensures
            keyed_by_id(self@),
            r is Ok,
            is_listing(self@, r->Ok_0@),
    {
        let mut out: Vec<Todo> = Vec::new();
        let n = self.ids.len();
        for i in 0..n
            invariant
                n == self.ids@.len(),
                out@.len() == i,
                forall|j: int|
                    0 <= j < i ==> #[trigger] out@[j] == self.todos@[self.ids@[j]@],
                forall|j: int|
                    0 <= j < self.ids@.len() ==> self.todos@.contains_key(#[trigger] self.ids@[j]@),
        {
            let id = &self.ids[i];
            match self.todos.get(id.as_str()) {
                Some(todo) => out.push(todo.clone()),
                None => {},
            }
        }
        proof {
            assert forall|k: Seq<char>| self.todos@.contains_key(k) implies exists|i: int|
                0 <= i < out@.len() && #[trigger] out@[i].id@ == k by {
                let i = choose|i: int| 0 <= i < self.ids@.len() && #[trigger] self.ids@[i]@ == k;
                assert(out@[i].id@ == k);
            }
        }
        Ok(out)
    }

    /// The item stored under `todo_id`, or nothing when there is none. Never
    /// fails.
    pub fn get_todo(&self, todo_id: String) -> (r: Result<Option<Todo>, RepositoryError>)
        requires
            self.wf(),
        ensures
            keyed_by_id(self@),
            r == Ok::<Option<Todo>, RepositoryError>(lookup(self@, todo_id@)),
            r matches Ok(Some(t)) ==> t.id@ == todo_id@,
    {
        match self.todos.get(todo_id.as_str()) {
            Some(todo) => Ok(Some(todo.clone())),
            None => Ok(None),
        }
    }

    /// Stores a new item; fails with `Conflict`, and changes nothing, when an
    /// item with the same id is already stored.
    pub fn add_todo(&mut self, todo: Todo) -> (r: Result<(), RepositoryError>)
        requires
            old(self).wf(),
        ensures
            final(self).wf(),
            keyed_by_id(final(self)@),
            r == insert_outcome(old(self)@, todo),
            final(self)@ == after_insert(old(self)@, todo),
            r is Ok ==> final(self)@.len() == old(self)@.len() + 1,
            r is Err ==> final(self)@.len() == old(self)@.len(),
    {
        if self.todos.contains_key(todo.id.as_str()) {
            return Err(RepositoryError::Conflict);
        }
        let id = todo.id.clone();
        self.ids.push(todo.id.clone());
        self.todos.insert(id, todo);
        proof {
            assert forall|k: Seq<char>| self.todos@.contains_key(k) implies exists|i: int|
                0 <= i < self.ids@.len() && #[trigger] self.ids@[i]@ == k by {
                if k != todo.id@ {
                    let i = choose|i: int| 0 <= i < old(self).ids@.len() && #[trigger] old(self).ids@[i]@ == k;
                    assert(self.ids@[i] == old(self).ids@[i]);
                } else {
                    assert(self.ids@[self.ids@.len() - 1]@ == k);
                }
            }
            assert forall|i: int| 0 <= i < self.ids@.len() implies self.todos@.contains_key(
                #[trigger] self.ids@[i]@,
            ) by {
                if i < self.ids@.len() - 1 {
                    assert(self.ids@[i] == old(self).ids@[i]);
                }
            }
            assert forall|i: int, j: int| 0 <= i < j < self.ids@.len() implies self.ids@[i]@
                != self.ids@[j]@ by {
                assert(self.ids@[i] == old(self).ids@[i]);
                if j < self.ids@.len() - 1 {
                    assert(self.ids@[j] == old(self).ids@[j]);
                } else {
                    assert(old(self).todos@.contains_key(old(self).ids@[i]@));
                }
            }
        }
        Ok(())
    }

    /// Overwrites the title, completion flag and completion time of the stored
    /// item that has the same id as `todo`, keeping its id and creation time;
    /// fails with `NotFound`, and changes nothing, when there is none.
    pub fn update_todo(&mut self, todo: Todo) -> (r: Result<(), RepositoryError>)
        requires
            old(self).wf(),
        ensures
            final(self).wf(),
            keyed_by_id(final(self)@),
            r == replace_outcome(old(self)@, todo),
            final(self)@ == after_replace(old(self)@, todo),
            final(self)@.len() == old(self)@.len(),
    {
        let (stored_id, stored_added_at) = match self.todos.get(todo.id.as_str()) {
            Some(stored) => (stored.id.clone(), stored.added_at),
            None => {
                return Err(RepositoryError::NotFound);
            },
        };
        let ghost before = self.todos@;
        let key = todo.id.clone();
        let record = Todo { id: stored_id, added_at: stored_added_at, ..todo };
        self.todos.insert(key, record);
        proof {
            assert(self.todos@.dom() =~= before.dom());
            assert forall|k: Seq<char>| self.todos@.contains_key(k) implies exists|i: int|
                0 <= i < self.ids@.len() && #[trigger] self.ids@[i]@ == k by {
                assert(before.contains_key(k));
                let i = choose|i: int| 0 <= i < old(self).ids@.len() && #[trigger] old(self).ids@[i]@ == k;
                assert(self.ids@[i]@ == k);
            }
        }
        Ok(())
    }
}

impl Default for InMemoryTodosRepository {
    fn default() -> (r: Self)
        ensures
            r.wf(),
            keyed_by_id(r@),
            r@ == Store::empty(),
    {
        InMemoryTodosRepository::new()
    }
}

} // verus!
