use vstd::prelude::*;

use crate::repository::{lookup, replace_outcome, RepositoryError, Store};
use crate::todo::{Timestamp, Todo};

verus! {

/// The request succeeded.
pub const STATUS_OK: u16 = 200;

/// No item has the requested id.
pub const STATUS_NOT_FOUND: u16 = 404;

/// An item with the same id already exists.
pub const STATUS_CONFLICT: u16 = 409;

/// The storage layer failed.
pub const STATUS_INTERNAL_ERROR: u16 = 500;

/// The HTTP status that answers a repository error.
pub open spec fn status_of(e: RepositoryError) -> u16 {
    match e {
        RepositoryError::NotFound => STATUS_NOT_FOUND,
        RepositoryError::Conflict => STATUS_CONFLICT,
        RepositoryError::Unavailable => STATUS_INTERNAL_ERROR,
    }
}

/// The status of a request whose only repository call was a write.
pub open spec fn write_status_of(r: Result<(), RepositoryError>) -> u16 {
    match r {
        Ok(()) => STATUS_OK,
        Err(e) => status_of(e),
    }
}

/// The item that a lookup found, or the status to answer with instead:
/// not found when the lookup came back empty.
pub open spec fn found_of(found: Result<Option<Todo>, RepositoryError>) -> Result<Todo, u16> {
    match found {
        Ok(Some(t)) => Ok(t),
        Ok(None) => Err(STATUS_NOT_FOUND),
        Err(e) => Err(status_of(e)),
    }
}

/// A fresh item: not complete, with no completion time.
pub open spec fn fresh(id: String, title: String, now: Timestamp) -> Todo {
    Todo { id, title, added_at: now, is_complete: false, completed_at: None }
}

/// The item with its title replaced when the patch carries one.
pub open spec fn patched(todo: Todo, title: Option<String>) -> Todo {
    match title {
        Some(t) => Todo { title: t, ..todo },
        None => todo,
    }
}

/// The item marked complete at `now`.
pub open spec fn completed(todo: Todo, now: Timestamp) -> Todo {
    Todo { is_complete: true, completed_at: Some(now), ..todo }
}

/// What a patch request writes back, or the status it answers with instead.
pub open spec fn patch_of(found: Result<Option<Todo>, RepositoryError>, title: Option<String>) -> Result<Todo, u16> {
    match found_of(found) {
        Ok(t) => Ok(patched(t, title)),
        Err(s) => Err(s),
    }
}

/// What a completion request writes back, or the status it answers with
/// instead.
pub open spec fn completion_of(found: Result<Option<Todo>, RepositoryError>, now: Timestamp) -> Result<Todo, u16> {
    match found_of(found) {
        Ok(t) => Ok(completed(t, now)),
        Err(s) => Err(s),
    }
}

/// A lowercase hexadecimal digit.
pub open spec fn is_lower_hex(c: char) -> bool {
    ('0' <= c && c <= '9') || ('a' <= c && c <= 'f')
}

/// The hyphenated form of a UUID: 36 characters, hyphens at positions 8,
/// 13, 18 and 23, lowercase hexadecimal digits elsewhere.
pub open spec fn is_hyphenated_uuid(s: Seq<char>) -> bool {
    &&& s.len() == 36
    &&& forall|i: int|
        0 <= i < 36 ==> if i == 8 || i == 13 || i == 18 || i == 23 {
            s[i] == '-'
        } else {
            is_lower_hex(#[trigger] s[i])
        }
}

/// Relies on `uuid::Uuid::new_v4` for a random identifier and on its
/// `Display`, which writes the hyphenated lowercase form.
#[verifier::external_body]
fn generate_id() -> (r: String)
    ensures
        is_hyphenated_uuid(r@),
{
    uuid::Uuid::new_v4().to_string()
}

/// Relies on `std::time::SystemTime::now` for the current time and on
/// chrono's `From<SystemTime>` for `DateTime<Utc>`, which splits it into
/// seconds since the Unix epoch (negative for a clock set before it) and the
/// nanoseconds within that second.
#[verifier::external_body]
fn now() -> (r: Timestamp)
    ensures
        r.wf(),
{
    let t = chrono::DateTime::<chrono::Utc>::from(std::time::SystemTime::now());
    Timestamp { secs: t.timestamp(), nanos: t.timestamp_subsec_nanos() }
}

/// The HTTP status that answers a repository error.
pub fn error_status(e: RepositoryError) -> (r: u16)
    ensures
        r == status_of(e),
{
    match e {
        RepositoryError::NotFound => STATUS_NOT_FOUND,
        RepositoryError::Conflict => STATUS_CONFLICT,
        RepositoryError::Unavailable => STATUS_INTERNAL_ERROR,
    }
}

/// The status of a request whose only repository call was a write.
pub fn write_status(r: Result<(), RepositoryError>) -> (s: u16)
    ensures
        s == write_status_of(r),
{
    match r {
        Ok(()) => STATUS_OK,
        Err(e) => error_status(e),
    }
}

/// The item that a lookup found, or the status to answer with instead.
pub fn found_todo(found: Result<Option<Todo>, RepositoryError>) -> (r: Result<Todo, u16>)
    ensures
        r == found_of(found),
{
    match found {
        Ok(Some(t)) => Ok(t),
        Ok(None) => Err(STATUS_NOT_FOUND),
        Err(e) => Err(error_status(e)),
    }
}

/// A fresh item with the given id, title and creation time.
pub fn new_todo(id: String, title: String, now: Timestamp) -> (r: Todo)
    ensures
        r == fresh(id, title, now),
{
    Todo { id, title, added_at: now, is_complete: false, completed_at: None }
}

/// A fresh item with the given title, a newly generated id, and the current
/// time as its creation time.
pub fn create_todo(title: String) -> (r: Todo)
    ensures
        r.title == title,
        is_hyphenated_uuid(r.id@),
        !r.is_complete,
        r.completed_at is None,
        r.added_at.wf(),
        r.completion_consistent(),
{
    let id = generate_id();
    let t = now();
    new_todo(id, title, t)
}

/// The item that a lookup found with the patch applied, ready to be written
/// back, or the status to answer with instead.
pub fn patch_found(found: Result<Option<Todo>, RepositoryError>, title: Option<String>) -> (r:
    Result<Todo, u16>)
    ensures
        r == patch_of(found, title),
{
    match found_todo(found) {
        Ok(todo) => match title {
            Some(t) => Ok(Todo { title: t, ..todo }),
            None => Ok(todo),
        },
        Err(s) => Err(s),
    }
}

/// The item that a lookup found, marked complete at `now` and ready to be
/// written back, or the status to answer with instead.
pub fn complete_found(found: Result<Option<Todo>, RepositoryError>, now: Timestamp) -> (r: Result<
    Todo,
    u16,
>)
    ensures
        r == completion_of(found, now),
{
    match found_todo(found) {
        Ok(todo) => Ok(Todo { is_complete: true, completed_at: Some(now), ..todo }),
        Err(s) => Err(s),
    }
}

/// As `complete_found`, marked complete at the current time.
pub fn complete_found_now(found: Result<Option<Todo>, RepositoryError>) -> (r: Result<Todo, u16>)
    ensures
        found_of(found) is Err ==> r == found_of(found),
        found_of(found) is Ok ==> {
            &&& r is Ok
            &&& r->Ok_0.completed_at is Some
            &&& r->Ok_0.completed_at->Some_0.wf()
            &&& r == completion_of(found, r->Ok_0.completed_at->Some_0)
        },
{
    let t = now();
    complete_found(found, t)
}

/// Every request about an id that is not stored is answered with not found:
/// fetching it, patching it, completing it, and writing it back.
pub proof fn lemma_missing_id_not_found(
    m: Store,
    todo: Todo,
    title: Option<String>,
    now: Timestamp,
)
    requires
        !m.contains_key(todo.id@),
    ensures
        found_of(Ok(lookup(m, todo.id@))) == Err::<Todo, u16>(STATUS_NOT_FOUND),
        patch_of(Ok(lookup(m, todo.id@)), title) == Err::<Todo, u16>(STATUS_NOT_FOUND),
        completion_of(Ok(lookup(m, todo.id@)), now) == Err::<Todo, u16>(STATUS_NOT_FOUND),
        write_status_of(replace_outcome(m, todo)) == STATUS_NOT_FOUND,
{
}

/// Completing an item keeps its id, title and creation time, marks it
/// complete with a completion time, and that time is not before the creation
/// time whenever the clock did not run backwards.
pub proof fn lemma_completion_after_creation(todo: Todo, now: Timestamp)
    requires
        now.instant() >= todo.added_at.instant(),
    ensures
        completed(todo, now).id == todo.id,
        completed(todo, now).title == todo.title,
        completed(todo, now).added_at == todo.added_at,
        completed(todo, now).completion_consistent(),
        completed(todo, now).completed_at matches Some(at) && at.instant()
            >= completed(todo, now).added_at.instant(),
{
}

} // verus!
