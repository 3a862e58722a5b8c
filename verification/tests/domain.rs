use actuality::testing::{
    ConfirmTest, Created, CreateTest, DoSomethingElse, SomethingElse, TestAggregate, TestCommand,
    TestError, TestEvent, TestService, Tested,
};
use actuality::Aggregate;
use actuality::DomainEvent;

#[test]
fn event_types_and_versions() {
    let created = TestEvent::Created(Created { id: "x".to_string() });
    let tested = TestEvent::Tested(Tested { test_name: "t".to_string() });
    let other = TestEvent::SomethingElse(SomethingElse { description: "d".to_string() });
    assert_eq!("Created", created.event_type().as_str());
    assert_eq!("Tested", tested.event_type().as_str());
    assert_eq!("SomethingElse", other.event_type().as_str());
    assert_eq!("1.0", created.event_version().as_str());
    assert_eq!("TestAggregate", TestAggregate::aggregate_type().as_str());
}

#[test]
fn cloned_events_equal_their_originals() {
    let tested = TestEvent::Tested(Tested { test_name: "t".to_string() });
    assert_eq!(tested, tested.clone_event());
    let created = TestEvent::Created(Created { id: "x".to_string() });
    assert_eq!(created, created.clone_event());
}

#[test]
fn handle_produces_the_implied_events() {
    let agg = TestAggregate::default();
    let events = agg
        .handle(
            TestCommand::CreateTest(CreateTest { id: "E1".to_string() }),
            &TestService,
        )
        .unwrap();
    assert_eq!(vec![TestEvent::Created(Created { id: "E1".to_string() })], events);

    let events = agg
        .handle(
            TestCommand::DoSomethingElse(DoSomethingElse { description: "d".to_string() }),
            &TestService,
        )
        .unwrap();
    assert_eq!(
        vec![TestEvent::SomethingElse(SomethingElse { description: "d".to_string() })],
        events
    );
}

#[test]
fn handle_rejects_a_repeated_test() {
    let mut agg = TestAggregate::default();
    agg.apply(TestEvent::Tested(Tested { test_name: "X".to_string() }));
    let err = agg
        .handle(
            TestCommand::ConfirmTest(ConfirmTest { test_name: "X".to_string() }),
            &TestService,
        )
        .unwrap_err();
    assert_eq!("test already performed", err.0.as_str());

    let events = agg
        .handle(
            TestCommand::ConfirmTest(ConfirmTest { test_name: "Y".to_string() }),
            &TestService,
        )
        .unwrap();
    assert_eq!(vec![TestEvent::Tested(Tested { test_name: "Y".to_string() })], events);
}

#[test]
fn apply_is_total_and_tracks_state() {
    let mut agg = TestAggregate::default();
    assert_eq!("", agg.id().as_str());
    agg.apply(TestEvent::Created(Created { id: "E1".to_string() }));
    agg.apply(TestEvent::Tested(Tested { test_name: "t1".to_string() }));
    agg.apply(TestEvent::SomethingElse(SomethingElse { description: "d".to_string() }));
    assert_eq!("E1", agg.id().as_str());
    assert_eq!(vec!["t1".to_string()], *agg.tests());
    assert_eq!("d", agg.description().as_str());
}

#[test]
fn domain_errors_carry_their_rule() {
    let err = TestError::from("test already performed");
    assert_eq!("test already performed", err.0.as_str());
}
