use std::collections::HashMap;

use actuality::testing::{Created, SomethingElse, TestAggregate, TestEvent, Tested};
use actuality::store::StoreContext;
use actuality::Aggregate;
use actuality::AggregateError;
use actuality::EventStore;
use actuality::MemoryStore;

fn metadata() -> HashMap<String, String> {
    let now = "2021-03-18T12:32:45.930Z".to_string();
    let mut metadata = HashMap::new();
    metadata.insert("time".to_string(), now);
    metadata
}

#[test]
fn test_mem_store() {
    let mut event_store = MemoryStore::<TestAggregate>::default();
    let id = "test_id_A";
    let initial_events = event_store.load_events(&id).unwrap();
    assert_eq!(0, initial_events.len());
    let agg_context = event_store.load_aggregate(&id).unwrap();

    event_store
        .commit(
            vec![TestEvent::Created(Created {
                id: "test_event_A".to_string(),
            })],
            agg_context,
            metadata(),
        )
        .unwrap();
    let stored_events = event_store.load_events(&id).unwrap();
    assert_eq!(1, stored_events.len());
    let agg_context = event_store.load_aggregate(&id).unwrap();

    event_store
        .commit(
            vec![
                TestEvent::Tested(Tested {
                    test_name: "test A".to_string(),
                }),
                TestEvent::Tested(Tested {
                    test_name: "test B".to_string(),
                }),
                TestEvent::SomethingElse(SomethingElse {
                    description: "something else happening here".to_string(),
                }),
            ],
            agg_context,
            metadata(),
        )
        .unwrap();
    let stored_envelopes = event_store.load_events(&id).unwrap();

    let mut agg = TestAggregate::default();
    for stored_envelope in stored_envelopes {
        let event = stored_envelope.payload;
        agg.apply(event);
    }
    println!("{:#?}", agg);
}

#[test]
fn load_events_unknown_identity_is_empty() {
    let store = MemoryStore::<TestAggregate>::default();
    let events = store.load_events("never-seen").unwrap();
    assert!(events.is_empty());
    let context = store.load_aggregate("never-seen").unwrap();
    assert_eq!(0, context.current_sequence);
}

#[test]
fn sequences_are_gapless_from_one() {
    let mut store = MemoryStore::<TestAggregate>::default();
    let context = store.load_aggregate("A").unwrap();
    store
        .commit(
            vec![TestEvent::Created(Created { id: "E1".to_string() })],
            context,
            metadata(),
        )
        .unwrap();
    let context = store.load_aggregate("A").unwrap();
    assert_eq!(1, context.current_sequence);
    store
        .commit(
            vec![
                TestEvent::Tested(Tested { test_name: "t1".to_string() }),
                TestEvent::Tested(Tested { test_name: "t2".to_string() }),
            ],
            context,
            metadata(),
        )
        .unwrap();
    let envelopes = store.load_events("A").unwrap();
    assert_eq!(3, envelopes.len());
    for (i, envelope) in envelopes.iter().enumerate() {
        assert_eq!(i + 1, envelope.sequence);
        assert_eq!("A", envelope.aggregate_id.as_str());
    }
    assert_eq!("Created", envelopes[0].event_type.as_str());
    assert_eq!("Tested", envelopes[1].event_type.as_str());
    assert_eq!(Some(&"2021-03-18T12:32:45.930Z".to_string()), envelopes[0].metadata.get("time"));
}

#[test]
fn empty_commit_is_a_no_op() {
    let mut store = MemoryStore::<TestAggregate>::default();
    let context = store.load_aggregate("A").unwrap();
    let committed = store.commit(vec![], context, metadata()).unwrap();
    assert!(committed.is_empty());
    assert!(store.load_events("A").unwrap().is_empty());
    let context = store.load_aggregate("A").unwrap();
    assert_eq!(0, context.current_sequence);
}

#[test]
fn stale_context_commit_conflicts() {
    let mut store = MemoryStore::<TestAggregate>::default();
    let winner = store.load_aggregate("B").unwrap();
    let loser = store.load_aggregate("B").unwrap();
    store
        .commit(
            vec![TestEvent::Created(Created { id: "E1".to_string() })],
            winner,
            metadata(),
        )
        .unwrap();
    let outcome = store.commit(
        vec![TestEvent::Created(Created { id: "E2".to_string() })],
        loser,
        metadata(),
    );
    match outcome {
        Err(AggregateError::AggregateConflict) => {}
        Err(_) => panic!("not the expected error"),
        Ok(_) => panic!("the stale commit must not succeed"),
    };
    let envelopes = store.load_events("B").unwrap();
    assert_eq!(1, envelopes.len());
    assert_eq!(1, envelopes[0].sequence);
}

#[test]
fn init_stamps_the_system_id_on_new_envelopes() {
    let mut store = MemoryStore::<TestAggregate>::default();
    store
        .init(StoreContext { service_name: "1ead13j".to_string() })
        .unwrap();
    let context = store.load_aggregate("A").unwrap();
    let committed = store
        .commit(
            vec![TestEvent::Created(Created { id: "E1".to_string() })],
            context,
            metadata(),
        )
        .unwrap();
    assert_eq!(1, committed.len());
    assert_eq!("1ead13j", committed[0].system_id.as_str());
}

#[test]
fn commits_do_not_touch_other_identities() {
    let mut store = MemoryStore::<TestAggregate>::default();
    let context = store.load_aggregate("A").unwrap();
    store
        .commit(
            vec![TestEvent::Created(Created { id: "EA".to_string() })],
            context,
            metadata(),
        )
        .unwrap();
    let context = store.load_aggregate("B").unwrap();
    store
        .commit(
            vec![TestEvent::Created(Created { id: "EB".to_string() })],
            context,
            metadata(),
        )
        .unwrap();
    let a_run = store.load_events("A").unwrap();
    let b_run = store.load_events("B").unwrap();
    assert_eq!(1, a_run.len());
    assert_eq!(1, b_run.len());
    assert_eq!(1, a_run[0].sequence);
    assert_eq!(1, b_run[0].sequence);
}

#[test]
fn scenario_replay_reconstructs_state() {
    let mut store = MemoryStore::<TestAggregate>::default();
    let context = store.load_aggregate("A").unwrap();
    store
        .commit(
            vec![TestEvent::Created(Created { id: "E1".to_string() })],
            context,
            metadata(),
        )
        .unwrap();
    let envelopes = store.load_events("A").unwrap();
    assert_eq!(1, envelopes.len());
    assert_eq!(1, envelopes[0].sequence);

    let context = store.load_aggregate("A").unwrap();
    store
        .commit(
            vec![
                TestEvent::Tested(Tested { test_name: "t1".to_string() }),
                TestEvent::Tested(Tested { test_name: "t2".to_string() }),
                TestEvent::SomethingElse(SomethingElse {
                    description: "other".to_string(),
                }),
            ],
            context,
            metadata(),
        )
        .unwrap();

    let envelopes = store.load_events("A").unwrap();
    assert_eq!(4, envelopes.len());
    for (i, envelope) in envelopes.iter().enumerate() {
        assert_eq!(i + 1, envelope.sequence);
    }

    // applying the envelopes one at a time, as they were produced, yields
    // the same state as the replay the store performs on load
    let mut incremental = TestAggregate::default();
    for envelope in envelopes {
        incremental.apply(envelope.payload);
    }
    assert_eq!(vec!["t1".to_string(), "t2".to_string()], *incremental.tests());
    assert_eq!("E1", incremental.id().as_str());
    assert_eq!("other", incremental.description().as_str());

    let replayed = store.load_aggregate("A").unwrap();
    assert_eq!(4, replayed.current_sequence);
    assert_eq!(incremental.tests(), replayed.aggregate.tests());
    assert_eq!(incremental.id(), replayed.aggregate.id());
    assert_eq!(incremental.description(), replayed.aggregate.description());
}
