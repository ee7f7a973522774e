use todos::relational::{
    get_statement, insert_outcome, insert_statement, list_statement, read_outcome, update_outcome,
    update_statement, DatabaseFailure, SqlValue, INSERT_TODO, SELECT_TODO, SELECT_TODOS,
    UPDATE_TODO,
};
use todos::repository::RepositoryError;
use todos::todo::{Timestamp, Todo};

fn sample() -> Todo {
    Todo {
        id: String::from("7d3c"),
        title: String::from("Water the plants"),
        added_at: Timestamp { secs: 1_672_574_400, nanos: 250 },
        is_complete: true,
        completed_at: Some(Timestamp { secs: 1_675_166_400, nanos: 0 }),
    }
}

#[test]
fn list_statement_orders_newest_first() {
    let s = list_statement();
    assert_eq!(s.sql, SELECT_TODOS);
    assert!(s.sql.ends_with("order by added_at desc;"));
    assert!(s.params.is_empty());
}

#[test]
fn get_statement_binds_the_id() {
    let s = get_statement(String::from("abc"));
    assert_eq!(s.sql, SELECT_TODO);
    assert_eq!(s.params, vec![SqlValue::Text(String::from("abc"))]);
}

#[test]
fn insert_statement_binds_every_field_in_order() {
    let t = sample();
    let s = insert_statement(t.clone());
    assert_eq!(s.sql, INSERT_TODO);
    assert_eq!(
        s.params,
        vec![
            SqlValue::Text(String::from("7d3c")),
            SqlValue::Text(String::from("Water the plants")),
            SqlValue::Time(Timestamp { secs: 1_672_574_400, nanos: 250 }),
            SqlValue::Flag(true),
            SqlValue::OptionalTime(Some(Timestamp { secs: 1_675_166_400, nanos: 0 })),
        ]
    );
}

#[test]
fn update_statement_never_writes_creation_time() {
    let t = Todo { completed_at: None, is_complete: false, ..sample() };
    let s = update_statement(t);
    assert_eq!(s.sql, UPDATE_TODO);
    assert!(!s.sql.contains("added_at"));
    assert_eq!(
        s.params,
        vec![
            SqlValue::Text(String::from("7d3c")),
            SqlValue::Text(String::from("Water the plants")),
            SqlValue::Flag(false),
            SqlValue::OptionalTime(None),
        ]
    );
}

#[test]
fn insert_of_one_row_succeeds() {
    assert_eq!(insert_outcome(Ok(1)), Ok(()));
}

#[test]
fn insert_of_other_row_counts_conflicts() {
    assert_eq!(insert_outcome(Ok(0)), Err(RepositoryError::Conflict));
    assert_eq!(insert_outcome(Ok(2)), Err(RepositoryError::Conflict));
    assert_eq!(insert_outcome(Ok(u64::MAX)), Err(RepositoryError::Conflict));
}

#[test]
fn insert_uniqueness_violation_conflicts() {
    assert_eq!(
        insert_outcome(Err(DatabaseFailure::UniqueViolation)),
        Err(RepositoryError::Conflict)
    );
}

#[test]
fn insert_driver_failure_is_unavailable() {
    assert_eq!(insert_outcome(Err(DatabaseFailure::Other)), Err(RepositoryError::Unavailable));
}

#[test]
fn update_of_no_row_is_not_found() {
    assert_eq!(update_outcome(Ok(0)), Err(RepositoryError::NotFound));
}

#[test]
fn update_of_one_row_succeeds() {
    assert_eq!(update_outcome(Ok(1)), Ok(()));
}

#[test]
fn update_of_several_rows_or_failure_is_unavailable() {
    assert_eq!(update_outcome(Ok(2)), Err(RepositoryError::Unavailable));
    assert_eq!(update_outcome(Err(DatabaseFailure::Other)), Err(RepositoryError::Unavailable));
    assert_eq!(
        update_outcome(Err(DatabaseFailure::UniqueViolation)),
        Err(RepositoryError::Unavailable)
    );
}

#[test]
fn read_passes_rows_through_and_maps_failures() {
    assert_eq!(read_outcome::<Option<Todo>>(Ok(None)), Ok(None));
    assert_eq!(read_outcome(Ok(Some(sample()))), Ok(Some(sample())));
    assert_eq!(read_outcome(Ok(vec![sample()])), Ok(vec![sample()]));
    assert_eq!(
        read_outcome::<Vec<Todo>>(Err(DatabaseFailure::Other)),
        Err(RepositoryError::Unavailable)
    );
}
