//! The unified test-file model: explicit entities, and operations and
//! expectations that refer to them by name.

use crate::value::{DocView, Document, Value, ValueView};
use vstd::prelude::*;

verus! {

/// A kind of event that a client entity can be asked to observe.
#[derive(Clone, Copy, Debug, PartialEq, Eq, Structural)]
pub enum EventKind {
    CommandStarted,
    PoolCleared,
    PoolReady,
    ServerDescriptionChanged,
}

/// The set of event kinds that a client entity observes.
#[derive(Clone, Copy, Debug, PartialEq, Eq, Structural)]
pub struct ObservedEvents {
    pub command_started: bool,
    pub pool_cleared: bool,
    pub pool_ready: bool,
    pub server_description_changed: bool,
}

/// A unified test file.
#[derive(Debug, PartialEq)]
pub struct TestFile {
    pub description: String,
    pub schema_version: String,
    pub run_on_requirements: Option<Vec<RunOnRequirements>>,
    pub create_entities: Option<Vec<CreateEntity>>,
    pub initial_data: Option<Vec<InitialData>>,
    pub tests: Vec<Test>,
}

/// The documents that a collection holds, at the start or at the end.
#[derive(Debug, PartialEq)]
pub struct InitialData {
    pub collection_name: String,
    pub database_name: String,
    pub documents: Vec<Document>,
}

/// A directive that creates one entity.
#[derive(Debug, PartialEq)]
pub enum CreateEntity {
    Client(ClientEntity),
    Database(DatabaseEntity),
    Collection(CollectionEntity),
    Thread { id: String },
}

/// A client entity.
#[derive(Debug, PartialEq)]
pub struct ClientEntity {
    pub id: String,
    pub observe_events: Option<ObservedEvents>,
    pub uri_options: Option<Document>,
}

/// A database entity, owned by a client entity.
#[derive(Debug, PartialEq)]
pub struct DatabaseEntity {
    pub id: String,
    pub client: String,
    pub database_name: String,
}

/// A collection entity, owned by a database entity.
#[derive(Debug, PartialEq)]
pub struct CollectionEntity {
    pub id: String,
    pub database: String,
    pub collection_name: String,
}

/// A unified test case.
#[derive(Debug, PartialEq)]
pub struct Test {
    pub description: String,
    pub run_on_requirements: Option<Vec<RunOnRequirements>>,
    pub operations: Vec<Operation>,
    pub expect_events: Option<Vec<ExpectEvents>>,
    pub outcome: Option<Vec<InitialData>>,
}

/// One platform requirement of a unified test file.
#[derive(Debug, PartialEq)]
pub struct RunOnRequirements {
    pub min_server_version: Option<String>,
    pub max_server_version: Option<String>,
    pub topologies: Option<Vec<String>>,
    pub auth: Option<bool>,
}

/// A unified operation.
#[derive(Debug, PartialEq)]
pub struct Operation {
    pub name: String,
    pub object: String,
    pub arguments: Option<Document>,
    pub save_result_as_entity: Option<String>,
    pub expect_result: Option<Value>,
    pub expect_error: Option<ExpectError>,
}

/// The events that one client is expected to have observed.
#[derive(Debug, PartialEq)]
pub struct ExpectEvents {
    pub client: String,
    pub event_type: String,
    pub events: Vec<ExpectEvent>,
}

/// One expected event.
#[derive(Debug, PartialEq)]
pub enum ExpectEvent {
    CommandStartedEvent {
        command: Document,
        command_name: Option<String>,
        database_name: Option<String>,
    },
}

/// The error that a unified operation expects.
#[derive(Debug, PartialEq)]
pub struct ExpectError {
    pub is_error: Option<bool>,
    pub error_contains: Option<String>,
    pub error_code: Option<i32>,
    pub error_code_name: Option<String>,
    pub error_labels_contain: Option<Vec<String>>,
    pub error_labels_omit: Option<Vec<String>>,
}

/// The mathematical value of a [`TestFile`].
pub struct TestFileView {
    pub description: Seq<char>,
    pub schema_version: Seq<char>,
    pub run_on_requirements: Option<Seq<RunOnRequirementsView>>,
    pub create_entities: Option<Seq<CreateEntityView>>,
    pub initial_data: Option<Seq<InitialDataView>>,
    pub tests: Seq<TestView>,
}

/// The mathematical value of an [`InitialData`].
pub struct InitialDataView {
    pub collection_name: Seq<char>,
    pub database_name: Seq<char>,
    pub documents: Seq<DocView>,
}

/// The mathematical value of a [`CreateEntity`].
pub enum CreateEntityView {
    Client { id: Seq<char>, observe_events: Option<Set<EventKind>>, uri_options: Option<DocView> },
    Database { id: Seq<char>, client: Seq<char>, database_name: Seq<char> },
    Collection { id: Seq<char>, database: Seq<char>, collection_name: Seq<char> },
    Thread { id: Seq<char> },
}

/// The mathematical value of a [`Test`].
pub struct TestView {
    pub description: Seq<char>,
    pub run_on_requirements: Option<Seq<RunOnRequirementsView>>,
    pub operations: Seq<OperationView>,
    pub expect_events: Option<Seq<ExpectEventsView>>,
    pub outcome: Option<Seq<InitialDataView>>,
}

/// The mathematical value of a [`RunOnRequirements`].
pub struct RunOnRequirementsView {
    pub min_server_version: Option<Seq<char>>,
    pub max_server_version: Option<Seq<char>>,
    pub topologies: Option<Seq<Seq<char>>>,
    pub auth: Option<bool>,
}

/// The mathematical value of an [`Operation`].
pub struct OperationView {
    pub name: Seq<char>,
    pub object: Seq<char>,
    pub arguments: Option<DocView>,
    pub save_result_as_entity: Option<Seq<char>>,
    pub expect_result: Option<ValueView>,
    pub expect_error: Option<ExpectErrorView>,
}

/// The mathematical value of an [`ExpectEvents`].
pub struct ExpectEventsView {
    pub client: Seq<char>,
    pub event_type: Seq<char>,
    pub events: Seq<ExpectEventView>,
}

/// The mathematical value of an [`ExpectEvent`].
pub struct ExpectEventView {
    pub command: DocView,
    pub command_name: Option<Seq<char>>,
    pub database_name: Option<Seq<char>>,
}

/// The mathematical value of an [`ExpectError`].
pub struct ExpectErrorView {
    pub is_error: Option<bool>,
    pub error_contains: Option<Seq<char>>,
    pub error_code: Option<i32>,
    pub error_code_name: Option<Seq<char>>,
    pub error_labels_contain: Option<Seq<Seq<char>>>,
    pub error_labels_omit: Option<Seq<Seq<char>>>,
}

impl ObservedEvents {
    /// Whether the set holds `kind`.
    pub open spec fn has(self, kind: EventKind) -> bool {
        match kind {
            EventKind::CommandStarted => self.command_started,
            EventKind::PoolCleared => self.pool_cleared,
            EventKind::PoolReady => self.pool_ready,
            EventKind::ServerDescriptionChanged => self.server_description_changed,
        }
    }

    /// The empty set.
    pub fn none() -> (r: ObservedEvents)
        ensures
            r@ == Set::<EventKind>::empty(),
    {
        let r = ObservedEvents {
            command_started: false,
            pool_cleared: false,
            pool_ready: false,
            server_description_changed: false,
        };
        r
    }

    /// Whether the set holds `kind`.
    pub fn contains(&self, kind: EventKind) -> (r: bool)
        ensures
            r == self@.contains(kind),
    {
        match kind {
            EventKind::CommandStarted => self.command_started,
            EventKind::PoolCleared => self.pool_cleared,
            EventKind::PoolReady => self.pool_ready,
            EventKind::ServerDescriptionChanged => self.server_description_changed,
        }
    }

    /// Adds `kind` to the set.
    pub fn insert(&mut self, kind: EventKind)
        ensures
            final(self)@ == old(self)@.insert(kind),
    {
        match kind {
            EventKind::CommandStarted => {
                self.command_started = true;
            },
            EventKind::PoolCleared => {
                self.pool_cleared = true;
            },
            EventKind::PoolReady => {
                self.pool_ready = true;
            },
            EventKind::ServerDescriptionChanged => {
                self.server_description_changed = true;
            },
        }
    }
}

impl View for ObservedEvents {
    type V = Set<EventKind>;

    open spec fn view(&self) -> Set<EventKind> {
        Set::new(|kind: EventKind| self.has(kind))
    }
}

impl DeepView for ObservedEvents {
    type V = Set<EventKind>;

    open spec fn deep_view(&self) -> Set<EventKind> {
        self@
    }
}

impl DeepView for TestFile {
    type V = TestFileView;

    open spec fn deep_view(&self) -> TestFileView {
        TestFileView {
            description: self.description@,
            schema_version: self.schema_version@,
            run_on_requirements: self.run_on_requirements.deep_view(),
            create_entities: self.create_entities.deep_view(),
            initial_data: self.initial_data.deep_view(),
            tests: self.tests.deep_view(),
        }
    }
}

impl DeepView for InitialData {
    type V = InitialDataView;

    open spec fn deep_view(&self) -> InitialDataView {
        InitialDataView {
            collection_name: self.collection_name@,
            database_name: self.database_name@,
            documents: self.documents.deep_view(),
        }
    }
}

impl DeepView for CreateEntity {
    type V = CreateEntityView;

    open spec fn deep_view(&self) -> CreateEntityView {
        match self {
            CreateEntity::Client(c) => CreateEntityView::Client {
                id: c.id@,
                observe_events: c.observe_events.deep_view(),
                uri_options: c.uri_options.deep_view(),
            },
            CreateEntity::Database(d) => CreateEntityView::Database {
                id: d.id@,
                client: d.client@,
                database_name: d.database_name@,
            },
            CreateEntity::Collection(c) => CreateEntityView::Collection {
                id: c.id@,
                database: c.database@,
                collection_name: c.collection_name@,
            },
            CreateEntity::Thread { id } => CreateEntityView::Thread { id: id@ },
        }
    }
}

impl DeepView for Test {
    type V = TestView;

    open spec fn deep_view(&self) -> TestView {
        TestView {
            description: self.description@,
            run_on_requirements: self.run_on_requirements.deep_view(),
            operations: self.operations.deep_view(),
            expect_events: self.expect_events.deep_view(),
            outcome: self.outcome.deep_view(),
        }
    }
}

impl DeepView for RunOnRequirements {
    type V = RunOnRequirementsView;

    open spec fn deep_view(&self) -> RunOnRequirementsView {
        RunOnRequirementsView {
            min_server_version: self.min_server_version.deep_view(),
            max_server_version: self.max_server_version.deep_view(),
            topologies: self.topologies.deep_view(),
            auth: self.auth,
        }
    }
}

impl DeepView for Operation {
    type V = OperationView;

    open spec fn deep_view(&self) -> OperationView {
        OperationView {
            name: self.name@,
            object: self.object@,
            arguments: self.arguments.deep_view(),
            save_result_as_entity: self.save_result_as_entity.deep_view(),
            expect_result: self.expect_result.deep_view(),
            expect_error: self.expect_error.deep_view(),
        }
    }
}

impl DeepView for ExpectEvents {
    type V = ExpectEventsView;

    open spec fn deep_view(&self) -> ExpectEventsView {
        ExpectEventsView {
            client: self.client@,
            event_type: self.event_type@,
            events: self.events.deep_view(),
        }
    }
}

impl DeepView for ExpectEvent {
    type V = ExpectEventView;

    open spec fn deep_view(&self) -> ExpectEventView {
        match self {
            ExpectEvent::CommandStartedEvent { command, command_name, database_name } => {
                ExpectEventView {
                    command: command@,
                    command_name: command_name.deep_view(),
                    database_name: database_name.deep_view(),
                }
            },
        }
    }
}

impl DeepView for ExpectError {
    type V = ExpectErrorView;

    open spec fn deep_view(&self) -> ExpectErrorView {
        ExpectErrorView {
            is_error: self.is_error,
            error_contains: self.error_contains.deep_view(),
            error_code: self.error_code,
            error_code_name: self.error_code_name.deep_view(),
            error_labels_contain: self.error_labels_contain.deep_view(),
            error_labels_omit: self.error_labels_omit.deep_view(),
        }
    }
}

} // verus!
