use std::collections::HashMap;

use actuality::testing::{ConfirmTest, CreateTest, TestAggregate, TestCommand, TestService, TestView};
use actuality::AggregateError;
use actuality::Cqrs;
use actuality::MemoryStore;

fn metadata() -> HashMap<String, String> {
    let now = "2021-03-18T12:32:45.930Z".to_string();
    let mut metadata = HashMap::new();
    metadata.insert("time".to_string(), now);
    metadata
}

#[test]
fn framework_test() {
    let event_store = MemoryStore::<TestAggregate>::default();
    let view = TestView::new();

    let mut cqrs = Cqrs::new(event_store, vec![view], TestService);
    let uuid = uuid::Uuid::new_v4().to_string();
    let id = uuid.clone();
    let metadata = metadata();
    cqrs.execute_with_metadata(
        &id,
        TestCommand::ConfirmTest(ConfirmTest {
            test_name: uuid.clone(),
        }),
        metadata,
    )
    .unwrap_or_default();

    assert_eq!(1, cqrs.store().get_events().len());
    assert_eq!(1, cqrs.queries()[0].events().len());

    let test = "TEST_A";
    let id = uuid.clone();
    cqrs.execute(
        &id,
        TestCommand::ConfirmTest(ConfirmTest {
            test_name: test.to_string(),
        }),
    )
    .unwrap_or_default();

    assert_eq!(2, cqrs.queries()[0].events().len());
    let stored_event_count = cqrs
        .store()
        .get_events()
        .iter()
        .find(|entry| entry.0 == uuid)
        .unwrap()
        .1
        .len();
    assert_eq!(2, stored_event_count);

    let id = uuid.clone();
    let err = cqrs
        .execute(
            &id,
            TestCommand::ConfirmTest(ConfirmTest {
                test_name: test.to_string(),
            }),
        )
        .unwrap_err();
    match err {
        AggregateError::UserError(payload) => {
            assert_eq!("test already performed", payload.0.as_str())
        }
        _ => panic!("not the expected error"),
    };

    assert_eq!(2, cqrs.queries()[0].events().len());
    let stored_event_count = cqrs
        .store()
        .get_events()
        .iter()
        .find(|entry| entry.0 == uuid)
        .unwrap()
        .1
        .len();
    assert_eq!(2, stored_event_count);
}

#[test]
fn scenario_confirm_twice_rejected() {
    let store = MemoryStore::<TestAggregate>::default();
    let mut cqrs = Cqrs::new(store, vec![TestView::new()], TestService);

    cqrs.execute(
        "B",
        TestCommand::ConfirmTest(ConfirmTest {
            test_name: "X".to_string(),
        }),
    )
    .unwrap();
    let committed = cqrs
        .store()
        .get_events()
        .iter()
        .find(|entry| entry.0 == "B")
        .unwrap()
        .1
        .len();
    assert_eq!(1, committed);

    let err = cqrs
        .execute(
            "B",
            TestCommand::ConfirmTest(ConfirmTest {
                test_name: "X".to_string(),
            }),
        )
        .unwrap_err();
    match err {
        AggregateError::UserError(payload) => {
            assert_eq!("test already performed", payload.0.as_str())
        }
        _ => panic!("not the expected error"),
    };
    let committed = cqrs
        .store()
        .get_events()
        .iter()
        .find(|entry| entry.0 == "B")
        .unwrap()
        .1
        .len();
    assert_eq!(1, committed);
}

#[test]
fn each_envelope_is_delivered_exactly_once() {
    let store = MemoryStore::<TestAggregate>::default();
    let mut cqrs = Cqrs::new(store, vec![TestView::new()], TestService);

    cqrs.execute(
        "C",
        TestCommand::CreateTest(CreateTest { id: "E1".to_string() }),
    )
    .unwrap();
    cqrs.execute(
        "C",
        TestCommand::ConfirmTest(ConfirmTest {
            test_name: "t1".to_string(),
        }),
    )
    .unwrap();

    // the view received each committed envelope once: same count, same
    // sequence numbers, no duplicates
    let delivered = cqrs.queries()[0].events();
    assert_eq!(2, delivered.len());
    assert_eq!(1, delivered[0].sequence);
    assert_eq!(2, delivered[1].sequence);
    let stored = cqrs
        .store()
        .get_events()
        .iter()
        .find(|entry| entry.0 == "C")
        .unwrap()
        .1
        .len();
    assert_eq!(2, stored);
}
