use vstd::prelude::*;

use crate::todo::Todo;

verus! {

/// Why a repository operation did not succeed.
#[derive(Clone, Copy, Debug, PartialEq, Eq, Structural)]
pub enum RepositoryError {
    /// No stored item has the requested id.
    NotFound,
    /// An item with the same id is already stored.
    Conflict,
    /// The storage layer could not be reached or failed for reasons
    /// unrelated to the data.
    Unavailable,
}

/// The stored items as a map from id to item.
pub type Store = Map<Seq<char>, Todo>;

/// What `get` answers: the item stored under `id`, if any.
pub open spec fn lookup(m: Store, id: Seq<char>) -> Option<Todo> {
    if m.contains_key(id) {
        Some(m[id])
    } else {
        None
    }
}

/// What `insert` answers: a conflict when the id is taken.
pub open spec fn insert_outcome(m: Store, t: Todo) -> Result<(), RepositoryError> {
    if m.contains_key(t.id@) {
        Err(RepositoryError::Conflict)
    } else {
        Ok(())
    }
}

/// The store after `insert`: unchanged when the id is taken.
pub open spec fn after_insert(m: Store, t: Todo) -> Store {
    if m.contains_key(t.id@) {
        m
    } else {
        m.insert(t.id@, t)
    }
}

/// What `replace` answers: not found when no item has the id.
pub open spec fn replace_outcome(m: Store, t: Todo) -> Result<(), RepositoryError> {
    if m.contains_key(t.id@) {
        Ok(())
    } else {
        Err(RepositoryError::NotFound)
    }
}

/// The record that `replace` stores: the mutable fields come from `t`, the
/// id and the creation time stay those of the stored item `old`.
pub open spec fn replaced(old: Todo, t: Todo) -> Todo {
    Todo { id: old.id, added_at: old.added_at, ..t }
}

/// The store after `replace`: the title, the completion flag and the
/// completion time are overwritten, and nothing changes when no item has the
/// id.
pub open spec fn after_replace(m: Store, t: Todo) -> Store {
    if m.contains_key(t.id@) {
        m.insert(t.id@, replaced(m[t.id@], t))
    } else {
        m
    }
}

/// Every item is stored under its own id, and the store is finite.
pub open spec fn keyed_by_id(m: Store) -> bool {
    &&& m.dom().finite()
    &&& forall|k: Seq<char>| #[trigger] m.contains_key(k) ==> m[k].id@ == k
}

/// `s` lists every stored item once, in some order.
pub open spec fn is_listing(m: Store, s: Seq<Todo>) -> bool {
    &&& s.len() == m.len()
    &&& forall|i: int, j: int| 0 <= i < j < s.len() ==> s[i].id@ != s[j].id@
    &&& forall|i: int|
        0 <= i < s.len() ==> m.contains_key(#[trigger] s[i].id@) && m[s[i].id@] == s[i]
    &&& forall|k: Seq<char>| m.contains_key(k) ==> exists|i: int| 0 <= i < s.len() && #[trigger] s[i].id@ == k
}

/// The ids that a listing holds.
pub open spec fn listed_ids(s: Seq<Todo>) -> Set<Seq<char>> {
    Set::new(|k: Seq<char>| exists|i: int| 0 <= i < s.len() && #[trigger] s[i].id@ == k)
}

/// The store after inserting the items of `ts` one after another.
pub open spec fn after_inserts(m: Store, ts: Seq<Todo>) -> Store
    decreases ts.len(),
{
    if ts.len() == 0 {
        m
    } else {
        after_insert(after_inserts(m, ts.drop_last()), ts.last())
    }
}

/// Every insert of `ts`, made one after another, succeeds.
pub open spec fn inserts_succeed(m: Store, ts: Seq<Todo>) -> bool
    decreases ts.len(),
{
    if ts.len() == 0 {
        true
    } else {
        inserts_succeed(m, ts.drop_last()) && insert_outcome(
            after_inserts(m, ts.drop_last()),
            ts.last(),
        ) is Ok
    }
}

/// An item that was inserted successfully is found again under its id, equal
/// in every field.
pub proof fn lemma_get_after_insert(m: Store, t: Todo)
    requires
        insert_outcome(m, t) is Ok,
    ensures
        lookup(after_insert(m, t), t.id@) == Some(t),
{
}

/// A second insert with an id already used fails with a conflict and leaves
/// the first record as it was.
pub proof fn lemma_insert_same_id_conflicts(m: Store, t: Todo, t2: Todo)
    requires
        t2.id@ == t.id@,
    ensures
        insert_outcome(after_insert(m, t), t2) == Err::<(), RepositoryError>(
            RepositoryError::Conflict,
        ),
        after_insert(after_insert(m, t), t2) == after_insert(m, t),
        lookup(after_insert(after_insert(m, t), t2), t.id@) == lookup(after_insert(m, t), t.id@),
{
}

/// Replacing an item that is not stored fails with not found and creates no
/// record.
pub proof fn lemma_replace_missing(m: Store, t: Todo)
    requires
        !m.contains_key(t.id@),
    ensures
        replace_outcome(m, t) == Err::<(), RepositoryError>(RepositoryError::NotFound),
        after_replace(m, t) == m,
        !after_replace(m, t).contains_key(t.id@),
{
}

/// Replacing a stored item changes its title, completion flag and completion
/// time to those given, and keeps its id and creation time.
pub proof fn lemma_replace_keeps_identity(m: Store, t: Todo)
    requires
        keyed_by_id(m),
        m.contains_key(t.id@),
    ensures
        replace_outcome(m, t) is Ok,
        lookup(after_replace(m, t), t.id@) matches Some(u) && u.id@ == t.id@ && u.added_at
            == m[t.id@].added_at && u.title == t.title && u.is_complete == t.is_complete
            && u.completed_at == t.completed_at,
{
}

/// Looking up an id that is not stored gives an empty answer.
pub proof fn lemma_get_missing(m: Store, id: Seq<char>)
    requires
        !m.contains_key(id),
    ensures
        lookup(m, id) is None,
{
}

/// A listing holds exactly the stored ids.
pub proof fn lemma_listing_ids(m: Store, s: Seq<Todo>)
    requires
        is_listing(m, s),
    ensures
        listed_ids(s) == m.dom(),
{
    assert forall|k: Seq<char>| listed_ids(s).contains(k) <==> m.dom().contains(k) by {
        if listed_ids(s).contains(k) {
            let i = choose|i: int| 0 <= i < s.len() && #[trigger] s[i].id@ == k;
            assert(m.contains_key(s[i].id@));
        }
    }
    assert(listed_ids(s) =~= m.dom());
}

/// After three items with distinct ids are inserted into an empty store, a
/// listing holds exactly those three ids.
pub proof fn lemma_list_after_three_inserts(a: Todo, b: Todo, c: Todo, s: Seq<Todo>)
    requires
        a.id@ != b.id@,
        a.id@ != c.id@,
        b.id@ != c.id@,
        is_listing(after_insert(after_insert(after_insert(Map::empty(), a), b), c), s),
    ensures
        listed_ids(s) == set![a.id@, b.id@, c.id@],
{
    let m = after_insert(after_insert(after_insert(Map::empty(), a), b), c);
    lemma_listing_ids(m, s);
    assert(m.dom() =~= set![a.id@, b.id@, c.id@]);
}

/// Inserting items whose ids are distinct and not yet stored, one after
/// another in any order, never fails, and afterwards every one of them is
/// found under its id.
pub proof fn lemma_distinct_inserts_all_land(m: Store, ts: Seq<Todo>)
    requires
        forall|i: int, j: int| 0 <= i < j < ts.len() ==> ts[i].id@ != ts[j].id@,
        forall|i: int| 0 <= i < ts.len() ==> !m.contains_key(#[trigger] ts[i].id@),
    ensures
        inserts_succeed(m, ts),
        forall|i: int|
            0 <= i < ts.len() ==> lookup(after_inserts(m, ts), #[trigger] ts[i].id@) == Some(ts[i]),
        forall|k: Seq<char>| m.contains_key(k) ==> lookup(after_inserts(m, ts), k) == lookup(m, k),
    decreases ts.len(),
{
    if ts.len() > 0 {
        let init = ts.drop_last();
        lemma_distinct_inserts_all_land(m, init);
        let before = after_inserts(m, init);
        assert forall|k: Seq<char>| before.contains_key(k) implies m.contains_key(k) || exists|
            i: int,
        | 0 <= i < init.len() && #[trigger] init[i].id@ == k by {
            if !m.contains_key(k) {
                lemma_inserted_ids(m, init, k);
            }
        }
        assert(!before.contains_key(ts.last().id@)) by {
            if before.contains_key(ts.last().id@) {
                if !m.contains_key(ts.last().id@) {
                    let i = choose|i: int| 0 <= i < init.len() && #[trigger] init[i].id@ == ts.last().id@;
                    assert(ts[i].id@ == ts[ts.len() - 1].id@);
                }
            }
        }
        assert forall|i: int| 0 <= i < ts.len() implies lookup(
            after_inserts(m, ts),
            #[trigger] ts[i].id@,
        ) == Some(ts[i]) by {
            if i < ts.len() - 1 {
                assert(init[i] == ts[i]);
            }
        }
    }
}

/// Every id stored after a run of inserts was stored before, or is the id of
/// one of the inserted items.
proof fn lemma_inserted_ids(m: Store, ts: Seq<Todo>, k: Seq<char>)
    requires
        after_inserts(m, ts).contains_key(k),
        !m.contains_key(k),
    ensures
        exists|i: int| 0 <= i < ts.len() && #[trigger] ts[i].id@ == k,
    decreases ts.len(),
{
    if ts.len() > 0 {
        let init = ts.drop_last();
        if after_inserts(m, init).contains_key(k) {
            lemma_inserted_ids(m, init, k);
            let i = choose|i: int| 0 <= i < init.len() && #[trigger] init[i].id@ == k;
            assert(ts[i].id@ == k);
        } else {
            assert(ts[ts.len() - 1].id@ == k);
        }
    }
}

} // verus!
