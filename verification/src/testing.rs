//! A small reference domain — aggregate, commands, events, views — for
//! exercising the runtime end to end.

use vstd::prelude::*;

use core::marker::PhantomData;

use crate::aggregate::Aggregate;
use crate::event::DomainEvent;
use crate::event::Event;
use crate::event::envelope::{Envelope, EnvelopeView};
use crate::persist::PersistenceError;
use crate::persist::QueryErrorHandler;
use crate::persist::ViewContext;
use crate::persist::ViewRepository;
use crate::query::Projection;
use crate::query::Query;

verus! {

/// The abstract value of a `TestAggregate`.
#[verifier::ext_equal]
pub struct TestAggregateView {
    pub id: Seq<char>,
    pub description: Seq<char>,
    pub tests: Seq<Seq<char>>,
}

/// A small domain entity: an id, a description, and the names of the tests
/// already performed against it.
#[derive(Debug)]
pub struct TestAggregate {
    id: String,
    description: String,
    tests: Vec<String>,
}

impl View for TestAggregate {
    type V = TestAggregateView;

    closed spec fn view(&self) -> TestAggregateView {
        TestAggregateView {
            id: self.id@,
            description: self.description@,
            tests: self.tests.deep_view(),
        }
    }
}

impl TestAggregate {
    /// The entity's id.
    pub fn id(&self) -> (r: &String)
        ensures
            r@ == self@.id,
    {
        &self.id
    }

    /// The entity's description.
    pub fn description(&self) -> (r: &String)
        ensures
            r@ == self@.description,
    {
        &self.description
    }

    /// The names of the tests performed so far, in order.
    pub fn tests(&self) -> (r: &Vec<String>)
        ensures
            r.deep_view() == self@.tests,
    {
        &self.tests
    }
}

/// The domain error of the test aggregate: the broken rule in words.
#[derive(Debug)]
pub struct TestError(pub String);

impl From<&str> for TestError {
    fn from(msg: &str) -> (r: Self)
        ensures
            r.0@ == msg@,
    {
        TestError(String::from_str(msg))
    }
}

impl vstd::std_specs::convert::FromSpecImpl<&str> for TestError {
    open spec fn obeys_from_spec() -> bool {
        false
    }

    open spec fn from_spec(msg: &str) -> TestError {
        TestError(choose|s: String| s@ == msg@)
    }
}

/// The external dependencies of the test aggregate: none.
#[derive(Clone, Debug)]
pub struct TestService;

/// The facts the test aggregate can record.
#[derive(Debug, Clone, PartialEq)]
pub enum TestEvent {
    Created(Created),
    Tested(Tested),
    SomethingElse(SomethingElse),
}

/// The entity came into being.
#[derive(Debug, Clone, PartialEq)]
pub struct Created {
    pub id: String,
}

/// A test was performed against the entity.
#[derive(Debug, Clone, PartialEq)]
pub struct Tested {
    pub test_name: String,
}

/// The entity's description changed.
#[derive(Debug, Clone, PartialEq)]
pub struct SomethingElse {
    pub description: String,
}

impl Event for TestEvent {

}

impl DomainEvent for TestEvent {
    open spec fn spec_event_type(&self) -> Seq<char> {
        match self {
            TestEvent::Created(_) => "Created"@,
            TestEvent::Tested(_) => "Tested"@,
            TestEvent::SomethingElse(_) => "SomethingElse"@,
        }
    }

    fn event_type(&self) -> (r: String) {
        match self {
            TestEvent::Created(_) => String::from_str("Created"),
            TestEvent::Tested(_) => String::from_str("Tested"),
            TestEvent::SomethingElse(_) => String::from_str("SomethingElse"),
        }
    }

    fn event_version(&self) -> (r: String)
        ensures
            r@ == "1.0"@,
    {
        String::from_str("1.0")
    }

    fn clone_event(&self) -> (r: Self) {
        match self {
            TestEvent::Created(e) => TestEvent::Created(Created { id: e.id.clone() }),
            TestEvent::Tested(e) => TestEvent::Tested(Tested { test_name: e.test_name.clone() }),
            TestEvent::SomethingElse(e) => TestEvent::SomethingElse(
                SomethingElse { description: e.description.clone() },
            ),
        }
    }
}

/// The requests that can be made of the test aggregate.
pub enum TestCommand {
    CreateTest(CreateTest),
    ConfirmTest(ConfirmTest),
    DoSomethingElse(DoSomethingElse),
}

/// Bring the entity into being.
pub struct CreateTest {
    pub id: String,
}

/// Perform the named test; each test may be performed only once.
pub struct ConfirmTest {
    pub test_name: String,
}

/// Change the entity's description.
pub struct DoSomethingElse {
    pub description: String,
}

impl Default for TestAggregate {
    fn default() -> (r: Self)
        ensures
            r@ == TestAggregate::spec_default(),
    {
        let r = TestAggregate { id: String::new(), description: String::new(), tests: Vec::new() };
        proof {
            assert(r@ =~= TestAggregate::spec_default());
            assert(r.tests.deep_view() =~= Seq::<Seq<char>>::empty());
        }
        r
    }
}

impl Aggregate for TestAggregate {
    type Command = TestCommand;

    type Event = TestEvent;

    type Error = TestError;

    type Services = TestService;

    open spec fn spec_default() -> TestAggregateView {
        TestAggregateView {
            id: Seq::empty(),
            description: Seq::empty(),
            tests: Seq::empty(),
        }
    }

    open spec fn spec_apply(state: TestAggregateView, event: TestEvent) -> TestAggregateView {
        match event {
            TestEvent::Created(e) => TestAggregateView { id: e.id@, ..state },
            TestEvent::Tested(e) => TestAggregateView {
                tests: state.tests.push(e.test_name@),
                ..state
            },
            TestEvent::SomethingElse(e) => TestAggregateView {
                description: e.description@,
                ..state
            },
        }
    }

    open spec fn accepts(
        state: TestAggregateView,
        command: TestCommand,
        services: TestService,
    ) -> bool {
        match command {
            TestCommand::CreateTest(_) => true,
            TestCommand::ConfirmTest(c) => !(exists|i: int|
                0 <= i < state.tests.len() && (#[trigger] state.tests[i]) == c.test_name@),
            TestCommand::DoSomethingElse(_) => true,
        }
    }

    open spec fn produced(
        state: TestAggregateView,
        command: TestCommand,
        services: TestService,
    ) -> Seq<TestEvent> {
        match command {
            TestCommand::CreateTest(c) => seq![TestEvent::Created(Created { id: c.id })],
            TestCommand::ConfirmTest(c) => seq![
                TestEvent::Tested(Tested { test_name: c.test_name }),
            ],
            TestCommand::DoSomethingElse(c) => seq![
                TestEvent::SomethingElse(SomethingElse { description: c.description }),
            ],
        }
    }

    open spec fn rejection(
        state: TestAggregateView,
        command: TestCommand,
        services: TestService,
        error: TestError,
    ) -> bool {
        match command {
            TestCommand::ConfirmTest(_) => error.0@ == "test already performed"@,
            _ => false,
        }
    }

    fn aggregate_type() -> (r: String)
        ensures
            r@ == "TestAggregate"@,
    {
        String::from_str("TestAggregate")
    }

    fn default_state() -> (r: Self) {
        TestAggregate::default()
    }

    fn apply(&mut self, event: TestEvent) {
        match event {
            TestEvent::Created(e) => {
                self.id = e.id;
            },
            TestEvent::Tested(e) => {
                self.tests.push(e.test_name);
                proof {
                    assert(self.tests.deep_view() =~= old(self).tests.deep_view().push(
                        self.tests@.last()@,
                    ));
                }
            },
            TestEvent::SomethingElse(e) => {
                self.description = e.description;
            },
        }
        proof {
            assert(self@ =~= Self::spec_apply(old(self)@, event));
        }
    }

    fn handle(&self, command: TestCommand, services: &TestService) -> (r: Result<
        Vec<TestEvent>,
        TestError,
    >) {
        match &command {
            TestCommand::CreateTest(c) => {
                let event = TestEvent::Created(Created { id: c.id.clone() });
                let events = vec![event];
                proof {
                    assert(events@ =~= Self::produced(self@, command, *services));
                }
                Ok(events)
            },
            TestCommand::ConfirmTest(c) => {
                let mut i: usize = 0;
                while i < self.tests.len()
                    invariant
                        i <= self.tests@.len(),
                        command is ConfirmTest,
                        *c == command->ConfirmTest_0,
                        forall|j: int|
                            0 <= j < i ==> (#[trigger] self.tests@[j])@ != c.test_name@,
                    decreases self.tests@.len() - i,
                {
                    if self.tests[i] == c.test_name {
                        proof {
                            assert(self@.tests[i as int] == self.tests@[i as int]@);
                            assert(self@.tests[i as int] == c.test_name@);
                        }
                        return Err(TestError::from("test already performed"));
                    }
                    i += 1;
                }
                proof {
                    assert forall|k: int| 0 <= k < self@.tests.len() implies #[trigger] self@.tests[k]
                        != c.test_name@ by {
                        assert(self@.tests[k] == self.tests@[k]@);
                    }
                }
                let event = TestEvent::Tested(Tested { test_name: c.test_name.clone() });
                let events = vec![event];
                proof {
                    assert(events@ =~= Self::produced(self@, command, *services));
                }
                Ok(events)
            },
            TestCommand::DoSomethingElse(c) => {
                let event = TestEvent::SomethingElse(
                    SomethingElse { description: c.description.clone() },
                );
                let events = vec![event];
                proof {
                    assert(events@ =~= Self::produced(self@, command, *services));
                }
                Ok(events)
            },
        }
    }
}

/// A query that records every envelope delivered to it, in delivery order.
pub struct TestView {
    events: Vec<Envelope<TestAggregate>>,
}

impl TestView {
    /// A view that has received nothing yet.
    pub fn new() -> (r: Self)
        ensures
            r.received() == Seq::<EnvelopeView<TestEvent>>::empty(),
    {
        let r = TestView { events: Vec::new() };
        proof {
            assert(r.received() =~= Seq::<EnvelopeView<TestEvent>>::empty());
        }
        r
    }

    /// The views of the envelopes received so far.
    pub closed spec fn received(&self) -> Seq<EnvelopeView<TestEvent>> {
        self.events@.map_values(|e: Envelope<TestAggregate>| e@)
    }

    /// The envelopes received so far.
    pub fn events(&self) -> (r: &Vec<Envelope<TestAggregate>>)
        ensures
            r@.map_values(|e: Envelope<TestAggregate>| e@) == self.received(),
    {
        &self.events
    }
}

impl Query<TestAggregate> for TestView {
    /// One delivery appends exactly the delivered batch, in order.
    open spec fn dispatched(
        pre: Self,
        view_id: Seq<char>,
        events: Seq<EnvelopeView<TestEvent>>,
        post: Self,
    ) -> bool {
        post.received() == pre.received() + events
    }

    fn dispatch(&mut self, view_id: &str, events: &[Envelope<TestAggregate>]) {
        let ghost pre = *self;
        let ghost batch = events@.map_values(|e: Envelope<TestAggregate>| e@);
        let mut k: usize = 0;
        while k < events.len()
            invariant
                k <= events@.len(),
                batch == events@.map_values(|e: Envelope<TestAggregate>| e@),
                batch.len() == events@.len(),
                self.events@.len() == pre.events@.len() + k,
                forall|j: int|
                    0 <= j < pre.events@.len() ==> (#[trigger] self.events@[j]) == pre.events@[j],
                forall|j: int|
                    pre.events@.len() <= j < self.events@.len() ==> (#[trigger] self.events@[j])@
                        == batch[j - pre.events@.len()],
            decreases events@.len() - k,
        {
            self.events.push(events[k].clone());
            k += 1;
        }
        proof {
            assert(self.received() =~= pre.received() + batch);
        }
    }
}

/// A read model listing the names of the tests performed against an entity.
pub struct TestProjection {
    tests: Vec<String>,
}

impl View for TestProjection {
    type V = Seq<Seq<char>>;

    closed spec fn view(&self) -> Seq<Seq<char>> {
        self.tests.deep_view()
    }
}

impl TestProjection {
    /// A projection that has seen no event yet.
    pub fn new() -> (r: Self)
        ensures
            r@ == Seq::<Seq<char>>::empty(),
    {
        let r = TestProjection { tests: Vec::new() };
        proof {
            assert(r@ =~= Seq::<Seq<char>>::empty());
        }
        r
    }

    /// The names of the tests projected so far, in order.
    pub fn tests(&self) -> (r: &Vec<String>)
        ensures
            r.deep_view() == self@,
    {
        &self.tests
    }
}

impl Projection<TestAggregate> for TestProjection {
    open spec fn spec_default() -> Seq<Seq<char>> {
        Seq::empty()
    }

    open spec fn spec_update(view: Seq<Seq<char>>, event: EnvelopeView<TestEvent>) -> Seq<
        Seq<char>,
    > {
        match event.payload {
            TestEvent::Tested(e) => view.push(e.test_name@),
            _ => view,
        }
    }

    fn default_view() -> (r: Self) {
        TestProjection::new()
    }

    fn update(&mut self, event: &Envelope<TestAggregate>) {
        match &event.payload {
            TestEvent::Tested(e) => {
                self.tests.push(e.test_name.clone());
                proof {
                    assert(self.tests.deep_view() =~= old(self).tests.deep_view().push(
                        e.test_name@,
                    ));
                }
            },
            _ => {},
        }
    }

    fn clone_view(&self) -> (r: Self) {
        let mut tests: Vec<String> = Vec::new();
        let mut k: usize = 0;
        while k < self.tests.len()
            invariant
                k <= self.tests@.len(),
                tests@.len() == k,
                forall|j: int| 0 <= j < k ==> (#[trigger] tests@[j])@ == self.tests@[j]@,
            decreases self.tests@.len() - k,
        {
            tests.push(self.tests[k].clone());
            k += 1;
        }
        let r = TestProjection { tests };
        proof {
            assert(r@ =~= self@);
        }
        r
    }
}

/// A repository whose storage refuses every update: it has nothing stored
/// and fails each `update_view`, for exercising a query's error handling.
pub struct FailingViewRepository<V, A> where V: Projection<A>, A: Aggregate {
    phantom: PhantomData<(V, A)>,
}

impl<V, A> FailingViewRepository<V, A> where V: Projection<A>, A: Aggregate {
    pub fn new() -> (r: Self)
        ensures
            r.views() == Map::<Seq<char>, (V::V, int)>::empty(),
    {
        FailingViewRepository { phantom: PhantomData }
    }
}

impl<V, A> ViewRepository<V, A> for FailingViewRepository<V, A> where
    V: Projection<A>,
    A: Aggregate,
 {
    closed spec fn views(&self) -> Map<Seq<char>, (V::V, int)> {
        Map::empty()
    }

    fn load_with_context(&self, view_id: &str) -> (r: Result<
        Option<(V, ViewContext)>,
        PersistenceError,
    >) {
        Ok(None)
    }

    fn update_view(&mut self, view: V, context: ViewContext) -> (r: Result<(), PersistenceError>) {
        Err(PersistenceError::Unknown(String::from_str("the backing storage refused the update")))
    }
}

/// An error handler that records the message of every failure handed to it.
pub struct RecordingErrorHandler {
    errors: Vec<String>,
}

impl RecordingErrorHandler {
    /// A handler that has seen no failure yet.
    pub fn new() -> (r: Self)
        ensures
            r.recorded() == Seq::<Seq<char>>::empty(),
    {
        let r = RecordingErrorHandler { errors: Vec::new() };
        proof {
            assert(r.recorded() =~= Seq::<Seq<char>>::empty());
        }
        r
    }

    /// The messages recorded so far.
    pub closed spec fn recorded(&self) -> Seq<Seq<char>> {
        self.errors.deep_view()
    }

    /// The recorded failure messages.
    pub fn errors(&self) -> (r: &Vec<String>)
        ensures
            r.deep_view() == self.recorded(),
    {
        &self.errors
    }
}

impl QueryErrorHandler for RecordingErrorHandler {
    fn handle_error(&mut self, error: &PersistenceError)
        ensures
            final(self).recorded() == old(self).recorded().push(error.spec_message()),
    {
        self.errors.push(error.message());
        proof {
            assert(self.errors.deep_view() =~= old(self).errors.deep_view().push(
                error.spec_message(),
            ));
        }
    }
}

} // verus!
