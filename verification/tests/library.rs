use indexdb_es::{
    events_store_schema, settle_insert, settle_select, AggregateErrorKind, DatabaseError, IndexDbAggregateError,
    IndexDbEventRepository, InsertBatch, InsertStep, JsonErrorCategory, PersistenceErrorKind, PushBatch, PushStep,
};

fn run_insert(outcomes: &[bool]) -> (Vec<InsertStep>, Result<(), IndexDbAggregateError>) {
    let mut batch = InsertBatch::new(outcomes.len());
    let mut steps = Vec::new();
    loop {
        let step = batch.next_step();
        match step {
            InsertStep::Add(i) => {
                steps.push(InsertStep::Add(i));
                batch.record_add(outcomes[i]);
            }
            InsertStep::Commit => {
                steps.push(InsertStep::Commit);
                batch.record_commit();
            }
            InsertStep::Finish(result) => return (steps, result),
        }
    }
}

fn run_push(outcomes: &[bool], commit_ok: bool) -> (Vec<PushStep>, Result<(), DatabaseError>) {
    let mut batch = PushBatch::new(outcomes.len());
    let mut steps = Vec::new();
    loop {
        let step = batch.next_step();
        match step {
            PushStep::Add(i) => {
                steps.push(step);
                batch.record_add(outcomes[i]);
            }
            PushStep::Commit => {
                steps.push(step);
                batch.record_commit(commit_ok);
            }
            PushStep::Finish(result) => return (steps, result),
        }
    }
}

#[test]
fn optimistic_lock_message() {
    assert_eq!(IndexDbAggregateError::OptimisticLock.message(), "optimistic lock error");
}

#[test]
fn wrapped_errors_display_their_text() {
    assert_eq!(IndexDbAggregateError::ConnectionError("no db".to_string()).message(), "no db");
    assert_eq!(IndexDbAggregateError::DeserializationError("bad json".to_string()).message(), "bad json");
    assert_eq!(IndexDbAggregateError::UnknownError("boom".to_string()).message(), "boom");
}

#[test]
fn aggregate_error_kinds() {
    assert_eq!(IndexDbAggregateError::OptimisticLock.aggregate_error_kind(), AggregateErrorKind::AggregateConflict);
    assert_eq!(
        IndexDbAggregateError::ConnectionError(String::new()).aggregate_error_kind(),
        AggregateErrorKind::DatabaseConnectionError
    );
    assert_eq!(
        IndexDbAggregateError::DeserializationError(String::new()).aggregate_error_kind(),
        AggregateErrorKind::DeserializationError
    );
    assert_eq!(
        IndexDbAggregateError::UnknownError(String::new()).aggregate_error_kind(),
        AggregateErrorKind::UnexpectedError
    );
}

#[test]
fn persistence_error_kinds() {
    assert_eq!(
        IndexDbAggregateError::OptimisticLock.persistence_error_kind(),
        PersistenceErrorKind::OptimisticLockError
    );
    assert_eq!(
        IndexDbAggregateError::ConnectionError(String::new()).persistence_error_kind(),
        PersistenceErrorKind::ConnectionError
    );
    assert_eq!(
        IndexDbAggregateError::DeserializationError(String::new()).persistence_error_kind(),
        PersistenceErrorKind::UnknownError
    );
    assert_eq!(
        IndexDbAggregateError::UnknownError(String::new()).persistence_error_kind(),
        PersistenceErrorKind::UnknownError
    );
}

#[test]
fn json_categories_map_to_errors() {
    let e = IndexDbAggregateError::from_json_category(JsonErrorCategory::Data, "d".to_string());
    assert!(matches!(e, IndexDbAggregateError::DeserializationError(ref s) if s == "d"));
    let e = IndexDbAggregateError::from_json_category(JsonErrorCategory::Syntax, "s".to_string());
    assert!(matches!(e, IndexDbAggregateError::DeserializationError(ref s) if s == "s"));
    let e = IndexDbAggregateError::from_json_category(JsonErrorCategory::Io, "i".to_string());
    assert!(matches!(e, IndexDbAggregateError::UnknownError(ref s) if s == "i"));
    let e = IndexDbAggregateError::from_json_category(JsonErrorCategory::Eof, "e".to_string());
    assert!(matches!(e, IndexDbAggregateError::UnknownError(ref s) if s == "e"));
}

#[test]
fn json_syntax_error_is_deserialization_error() {
    let err = serde_json::from_str::<serde_json::Value>("{\"a\" 1}").unwrap_err();
    let text = err.to_string();
    let e = IndexDbAggregateError::from_json_error(&err);
    assert!(matches!(e, IndexDbAggregateError::DeserializationError(ref s) if *s == text));
    assert_eq!(e.message(), "expected `:` at line 1 column 6");
}

#[test]
fn json_data_error_is_deserialization_error() {
    let err = serde_json::from_str::<u32>("\"text\"").unwrap_err();
    let e = IndexDbAggregateError::from_json_error(&err);
    assert!(matches!(e, IndexDbAggregateError::DeserializationError(_)));
}

#[test]
fn json_eof_error_is_unknown_error() {
    let err = serde_json::from_str::<serde_json::Value>("[1, 2").unwrap_err();
    let text = err.to_string();
    let e = IndexDbAggregateError::from_json_error(&err);
    assert!(matches!(e, IndexDbAggregateError::UnknownError(ref s) if *s == text));
    assert_eq!(e.message(), "EOF while parsing a list at line 1 column 5");
}

#[test]
fn repository_defaults() {
    let repo = IndexDbEventRepository::new(None, None);
    assert_eq!(repo.db_name(), "cqrs");
    assert_eq!(repo.store_name(), "events");
}

#[test]
fn repository_names_given() {
    let repo = IndexDbEventRepository::new(Some("shop".to_string()), Some("orders".to_string()));
    assert_eq!(repo.db_name(), "shop");
    assert_eq!(repo.store_name(), "orders");
    let repo = IndexDbEventRepository::new(None, Some("orders".to_string()));
    assert_eq!(repo.db_name(), "cqrs");
    assert_eq!(repo.store_name(), "orders");
}

#[test]
fn insert_all_accepted_commits() {
    let (steps, result) = run_insert(&[true, true, true]);
    assert!(result.is_ok());
    assert_eq!(steps.len(), 4);
    assert!(matches!(steps[0], InsertStep::Add(0)));
    assert!(matches!(steps[2], InsertStep::Add(2)));
    assert!(matches!(steps[3], InsertStep::Commit));
}

#[test]
fn insert_refusal_tries_all_and_does_not_commit() {
    let (steps, result) = run_insert(&[true, false, true]);
    assert!(matches!(result, Err(IndexDbAggregateError::OptimisticLock)));
    assert_eq!(steps.len(), 3);
    assert!(steps.iter().all(|s| matches!(s, InsertStep::Add(_))));
}

#[test]
fn insert_empty_batch_commits() {
    let (steps, result) = run_insert(&[]);
    assert!(result.is_ok());
    assert_eq!(steps.len(), 1);
    assert!(matches!(steps[0], InsertStep::Commit));
}

#[test]
fn settle_insert_cases() {
    assert!(settle_insert(Some(Ok(()))).is_ok());
    assert!(matches!(
        settle_insert(Some(Err(IndexDbAggregateError::UnknownError("x".to_string())))),
        Err(IndexDbAggregateError::UnknownError(ref s)) if s == "x"
    ));
    assert!(matches!(settle_insert(None), Err(IndexDbAggregateError::OptimisticLock)));
}

#[test]
fn settle_select_cases() {
    assert_eq!(settle_select(Some(vec![1, 2, 3])).unwrap(), vec![1, 2, 3]);
    assert!(matches!(settle_select::<u8>(None), Err(IndexDbAggregateError::OptimisticLock)));
}

#[test]
fn push_all_accepted_commits() {
    let (steps, result) = run_push(&[true, true], true);
    assert_eq!(result, Ok(()));
    assert_eq!(steps, vec![PushStep::Add(0), PushStep::Add(1), PushStep::Commit]);
}

#[test]
fn push_stops_at_first_refusal() {
    let (steps, result) = run_push(&[true, false, true], true);
    assert_eq!(result, Err(DatabaseError::AddValue));
    assert_eq!(steps, vec![PushStep::Add(0), PushStep::Add(1)]);
}

#[test]
fn push_failed_commit() {
    let (steps, result) = run_push(&[true], false);
    assert_eq!(result, Err(DatabaseError::CommitTransaction));
    assert_eq!(steps, vec![PushStep::Add(0), PushStep::Commit]);
}

#[test]
fn database_error_messages() {
    assert_eq!(DatabaseError::CreateFactory.message(), "Error creating factory");
    assert_eq!(DatabaseError::OpenDatabase.message(), "Error opening database");
    assert_eq!(DatabaseError::GetDatabase.message(), "Error getting database");
    assert_eq!(DatabaseError::CreateObjectStore.message(), "Error creating object store");
    assert_eq!(DatabaseError::CreateIndex.message(), "Error creating index");
    assert_eq!(DatabaseError::OpenRequest.message(), "Error opening request");
    assert_eq!(DatabaseError::CreateTransaction.message(), "Error creating transaction");
    assert_eq!(DatabaseError::GetObjectStore.message(), "Error getting object store");
    assert_eq!(DatabaseError::AddValue.message(), "Error adding value");
    assert_eq!(DatabaseError::CommitTransaction.message(), "Error commiting the transaction");
}

#[test]
fn events_store_layout() {
    let schema = events_store_schema();
    assert_eq!(schema.store_name, "events");
    assert_eq!(schema.key_path, vec!["aggregate_type", "aggregate_id", "sequence"]);
    assert_eq!(schema.index_name, "aggregate_id");
    assert_eq!(schema.index_key, "aggregate_id");
}

#[test]
fn json_errors_reach_cqrs_as_deserialization_or_unexpected() {
    let err = serde_json::from_str::<serde_json::Value>("nulx").unwrap_err();
    let e = IndexDbAggregateError::from_json_error(&err);
    assert_eq!(e.message(), err.to_string());
    assert_eq!(e.persistence_error_kind(), PersistenceErrorKind::UnknownError);
    assert_eq!(e.aggregate_error_kind(), AggregateErrorKind::DeserializationError);
    let e = IndexDbAggregateError::from_json_category(JsonErrorCategory::Eof, "eof".to_string());
    assert_eq!(e.persistence_error_kind(), PersistenceErrorKind::UnknownError);
    assert_eq!(e.aggregate_error_kind(), AggregateErrorKind::UnexpectedError);
}

#[test]
fn insert_of_already_stored_events_conflicts() {
    let (steps, result) = run_insert(&[false, false]);
    assert!(matches!(result, Err(IndexDbAggregateError::OptimisticLock)));
    assert_eq!(steps.len(), 2);
    assert!(!steps.iter().any(|s| matches!(s, InsertStep::Commit)));
}
