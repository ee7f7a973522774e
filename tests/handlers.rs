use todos::handlers::{
    complete_found, complete_found_now, create_todo, error_status, found_todo, new_todo,
    patch_found, write_status, STATUS_CONFLICT, STATUS_INTERNAL_ERROR, STATUS_NOT_FOUND, STATUS_OK,
};
use todos::in_memory::InMemoryTodosRepository;
use todos::repository::RepositoryError;
use todos::todo::{Timestamp, Todo};

fn instant(t: &Timestamp) -> i128 {
    t.secs as i128 * 1_000_000_000 + t.nanos as i128
}

fn stored(id: &str) -> Todo {
    new_todo(String::from(id), String::from("Buy milk"), Timestamp { secs: 100, nanos: 5 })
}

#[test]
fn errors_map_to_statuses() {
    assert_eq!(error_status(RepositoryError::NotFound), 404);
    assert_eq!(error_status(RepositoryError::Conflict), 409);
    assert_eq!(error_status(RepositoryError::Unavailable), 500);
    assert_eq!(STATUS_NOT_FOUND, 404);
    assert_eq!(STATUS_CONFLICT, 409);
    assert_eq!(STATUS_INTERNAL_ERROR, 500);
}

#[test]
fn writes_map_to_statuses() {
    assert_eq!(write_status(Ok(())), STATUS_OK);
    assert_eq!(write_status(Err(RepositoryError::NotFound)), 404);
    assert_eq!(write_status(Err(RepositoryError::Conflict)), 409);
    assert_eq!(write_status(Err(RepositoryError::Unavailable)), 500);
}

#[test]
fn lookups_map_to_item_or_status() {
    assert_eq!(found_todo(Ok(Some(stored("a")))), Ok(stored("a")));
    assert_eq!(found_todo(Ok(None)), Err(404));
    assert_eq!(found_todo(Err(RepositoryError::Unavailable)), Err(500));
}

#[test]
fn new_todo_is_not_complete() {
    let t = new_todo(String::from("x"), String::from("Call mum"), Timestamp { secs: 7, nanos: 9 });
    assert_eq!(t.id, "x");
    assert_eq!(t.title, "Call mum");
    assert_eq!(t.added_at, Timestamp { secs: 7, nanos: 9 });
    assert!(!t.is_complete);
    assert_eq!(t.completed_at, None);
}

#[test]
fn created_todo_has_fresh_id_and_current_time() {
    let a = create_todo(String::from("Clean room"));
    let b = create_todo(String::from("Clean room"));
    assert_eq!(a.id.len(), 36);
    for (i, c) in a.id.chars().enumerate() {
        if [8, 13, 18, 23].contains(&i) {
            assert_eq!(c, '-');
        } else {
            assert!(c.is_ascii_digit() || ('a'..='f').contains(&c));
        }
    }
    assert_ne!(a.id, b.id);
    assert_eq!(a.title, "Clean room");
    assert!(!a.is_complete);
    assert_eq!(a.completed_at, None);
    assert!(a.added_at.secs > 1_600_000_000);
    assert!(a.added_at.nanos < 1_000_000_000);
}

#[test]
fn patch_replaces_title_only() {
    let r = patch_found(Ok(Some(stored("a"))), Some(String::from("Buy oat milk")));
    assert_eq!(r, Ok(Todo { title: String::from("Buy oat milk"), ..stored("a") }));
}

#[test]
fn empty_patch_keeps_item() {
    assert_eq!(patch_found(Ok(Some(stored("a"))), None), Ok(stored("a")));
}

#[test]
fn complete_marks_item_at_given_time() {
    let now = Timestamp { secs: 200, nanos: 0 };
    let r = complete_found(Ok(Some(stored("a"))), now);
    assert_eq!(
        r,
        Ok(Todo { is_complete: true, completed_at: Some(now), ..stored("a") })
    );
}

#[test]
fn complete_passes_storage_failure_on() {
    let now = Timestamp { secs: 200, nanos: 0 };
    assert_eq!(complete_found(Err(RepositoryError::Unavailable), now), Err(500));
    assert_eq!(complete_found_now(Err(RepositoryError::Unavailable)), Err(500));
    assert_eq!(patch_found(Err(RepositoryError::Unavailable), None), Err(500));
}

#[test]
fn created_todo_reads_back_incomplete() {
    let mut repository = InMemoryTodosRepository::new();
    let todo = create_todo(String::from("Clean room"));
    let id = todo.id.clone();
    assert_eq!(write_status(repository.add_todo(todo)), 200);
    let fetched = found_todo(repository.get_todo(id.clone())).unwrap();
    assert_eq!(fetched.id, id);
    assert_eq!(fetched.title, "Clean room");
    assert!(!fetched.is_complete);
    assert_eq!(fetched.completed_at, None);
}

#[test]
fn completed_todo_reads_back_complete_after_creation() {
    let mut repository = InMemoryTodosRepository::new();
    let todo = create_todo(String::from("Clean room"));
    let id = todo.id.clone();
    assert_eq!(write_status(repository.add_todo(todo)), 200);

    let done = complete_found_now(repository.get_todo(id.clone())).unwrap();
    assert_eq!(write_status(repository.update_todo(done)), 200);

    let fetched = found_todo(repository.get_todo(id)).unwrap();
    assert!(fetched.is_complete);
    let completed_at = fetched.completed_at.expect("completion time is set");
    assert!(instant(&completed_at) >= instant(&fetched.added_at));
    assert_eq!(fetched.title, "Clean room");
}

#[test]
fn requests_on_missing_id_are_not_found() {
    let mut repository = InMemoryTodosRepository::new();
    assert_eq!(repository.add_todo(stored("present")), Ok(()));
    let missing = String::from("missing");

    assert_eq!(found_todo(repository.get_todo(missing.clone())), Err(STATUS_NOT_FOUND));
    assert_eq!(
        patch_found(repository.get_todo(missing.clone()), Some(String::from("t"))),
        Err(STATUS_NOT_FOUND)
    );
    assert_eq!(complete_found_now(repository.get_todo(missing.clone())), Err(STATUS_NOT_FOUND));
    assert_eq!(write_status(repository.update_todo(stored("missing"))), STATUS_NOT_FOUND);
    assert_eq!(repository.get_todo(missing), Ok(None));
}

#[test]
fn duplicate_create_answers_conflict() {
    let mut repository = InMemoryTodosRepository::new();
    assert_eq!(write_status(repository.add_todo(stored("a"))), STATUS_OK);
    assert_eq!(write_status(repository.add_todo(stored("a"))), STATUS_CONFLICT);
}
