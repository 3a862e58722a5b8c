use std::collections::HashMap;

use actuality::persist::generic_query::GenericQuery;
use actuality::persist::memory_repository::MemoryViewRepository;
use actuality::persist::PersistenceError;
use actuality::testing::{
    FailingViewRepository, RecordingErrorHandler, SomethingElse, TestAggregate, TestEvent,
    TestProjection, Tested,
};
use actuality::EventEnvelope;
use actuality::Query;

fn envelope(sequence: usize, payload: TestEvent) -> EventEnvelope<TestAggregate> {
    EventEnvelope {
        aggregate_id: "view_B".to_string(),
        system_id: "sys".to_string(),
        sequence,
        event_type: "".to_string(),
        payload,
        metadata: HashMap::new(),
    }
}

#[test]
fn generic_query_applies_committed_events() {
    let repo: MemoryViewRepository<TestProjection, TestAggregate> = MemoryViewRepository::new();
    let mut query: GenericQuery<_, _, _, RecordingErrorHandler> = GenericQuery::new(repo);

    let envelopes = vec![
        envelope(1, TestEvent::Tested(Tested { test_name: "t1".to_string() })),
        envelope(
            2,
            TestEvent::SomethingElse(SomethingElse { description: "other".to_string() }),
        ),
        envelope(3, TestEvent::Tested(Tested { test_name: "t2".to_string() })),
    ];
    query.dispatch("view_B", &envelopes);

    let view = query.load("view_B").expect("the updated view should be stored");
    assert_eq!(2, view.tests().len());
    assert_eq!("t1", view.tests()[0].as_str());
    assert_eq!("t2", view.tests()[1].as_str());
    assert!(query.load("view_C").is_none());
}

#[test]
fn generic_query_applies_batches_incrementally() {
    let repo: MemoryViewRepository<TestProjection, TestAggregate> = MemoryViewRepository::new();
    let mut query: GenericQuery<_, _, _, RecordingErrorHandler> = GenericQuery::new(repo);

    query.dispatch(
        "view_B",
        &vec![envelope(1, TestEvent::Tested(Tested { test_name: "t1".to_string() }))],
    );
    query.dispatch(
        "view_B",
        &vec![envelope(2, TestEvent::Tested(Tested { test_name: "t2".to_string() }))],
    );

    let view = query.load("view_B").expect("the updated view should be stored");
    assert_eq!(
        vec!["t1".to_string(), "t2".to_string()],
        *view.tests()
    );
}

#[test]
fn persistence_failures_reach_the_error_handler() {
    let repo: FailingViewRepository<TestProjection, TestAggregate> = FailingViewRepository::new();
    let mut query = GenericQuery::new(repo);
    query.use_error_handler(RecordingErrorHandler::new());

    query.dispatch(
        "view_B",
        &vec![envelope(1, TestEvent::Tested(Tested { test_name: "t1".to_string() }))],
    );

    let handler = query.error_handler().as_ref().expect("a handler is configured");
    assert_eq!(1, handler.errors().len());
    assert_eq!(
        "the backing storage refused the update",
        handler.errors()[0].as_str()
    );
    // the failed update was discarded: nothing is stored
    assert!(query.load("view_B").is_none());
}

#[test]
fn failures_without_handler_are_swallowed() {
    let repo: FailingViewRepository<TestProjection, TestAggregate> = FailingViewRepository::new();
    let mut query: GenericQuery<_, _, _, RecordingErrorHandler> = GenericQuery::new(repo);

    query.dispatch(
        "view_B",
        &vec![envelope(1, TestEvent::Tested(Tested { test_name: "t1".to_string() }))],
    );

    assert!(query.error_handler().is_none());
    assert!(query.load("view_B").is_none());
}

#[test]
fn persistence_error_messages() {
    assert_eq!(
        "optimistic lock error",
        PersistenceError::OptimisticLock.message().as_str()
    );
    assert_eq!(
        "db down",
        PersistenceError::Connection("db down".to_string()).message().as_str()
    );
    assert_eq!(
        "boom",
        PersistenceError::Unknown("boom".to_string()).message().as_str()
    );
}
