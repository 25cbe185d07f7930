//! The conversion of a legacy test file into a unified test file whose
//! references are still tokens.

use crate::crud_v2;
use crate::encode::{entities_to_value, entities_value, set_text, single};
use crate::tokens::{
    deref_token, definition_token, lemma_tokens_injective, token_text, TokenKind, TokenRole,
};
use crate::translate::{
    names_operation, observed, operation_names, token_value, translated, ConvertError,
};
use crate::unified::{
    ClientEntity, CollectionEntity, CreateEntity, CreateEntityView, DatabaseEntity, EventKind,
    ExpectEvent, ExpectEventView, ExpectEvents, ExpectEventsView, InitialData, InitialDataView,
    ObservedEvents, Operation, OperationView, RunOnRequirements, RunOnRequirementsView, Test,
    TestFile, TestFileView, TestView,
};
use crate::value::{with_field, DocView, Document, Value, ValueView};
use vstd::prelude::*;
use vstd::std_specs::convert::FromSpecImpl;

verus! {

/// The version of the unified schema that converted files declare.
pub open spec fn schema_version() -> Seq<char> {
    "1.9"@
}

/// The name of the database that the shared setup client uses for
/// administrative commands.
pub open spec fn admin_database_name() -> Seq<char> {
    "admin"@
}

/// An operation of the test runner without expectations.
pub open spec fn runner_operation(name: Seq<char>, arguments: DocView) -> OperationView {
    OperationView {
        name,
        object: "testRunner"@,
        arguments: Some(arguments),
        save_result_as_entity: None,
        expect_result: None,
        expect_error: None,
    }
}

/// The operation that configures the fail point of a test case through the
/// shared setup client.
pub open spec fn fail_point_operation(fail_point: DocView) -> OperationView {
    runner_operation(
        "failPoint"@,
        with_field(
            single("client"@, token_value(TokenKind::SetupClient, TokenRole::Deref, 0)),
            "failPoint"@,
            ValueView::Doc(fail_point),
        ),
    )
}

/// The client, the database and the collection of the test case with the
/// given scope id: each is declared by its definition token, and the
/// database and the collection refer to their owners by dereference tokens.
pub open spec fn scope_entities(
    scope: nat,
    events: Set<EventKind>,
    uri_options: Option<DocView>,
) -> Seq<CreateEntityView> {
    seq![
        CreateEntityView::Client {
            id: token_text(TokenKind::Client, TokenRole::Definition, scope),
            observe_events: Some(events),
            uri_options,
        },
        CreateEntityView::Database {
            id: token_text(TokenKind::Database, TokenRole::Definition, scope),
            client: token_text(TokenKind::Client, TokenRole::Deref, scope),
            database_name: token_text(TokenKind::DatabaseName, TokenRole::Deref, 0),
        },
        CreateEntityView::Collection {
            id: token_text(TokenKind::Collection, TokenRole::Definition, scope),
            database: token_text(TokenKind::Database, TokenRole::Deref, scope),
            collection_name: token_text(TokenKind::CollectionName, TokenRole::Deref, 0),
        },
    ]
}

/// The operation that creates the given entities.
pub open spec fn create_entities_operation(entities: Seq<CreateEntityView>) -> OperationView {
    runner_operation("createEntities"@, single("entities"@, entities_value(entities)))
}

/// The operations that stand before the translated ones: the fail point of
/// the test case where it has one, then the creation of its entities.
pub open spec fn leading_operations(
    test: crud_v2::TestView,
    scope: nat,
    events: Set<EventKind>,
) -> Seq<OperationView> {
    let create = seq![create_entities_operation(scope_entities(scope, events, test.client_uri))];
    match test.fail_point {
        Some(fail_point) => seq![fail_point_operation(fail_point)] + create,
        None => create,
    }
}

/// The translations of the first `n` operations, or the error of the first
/// among them that has one.
pub open spec fn translated_all(ops: Seq<crud_v2::OperationView>, scope: nat, n: nat) -> Result<
    Seq<OperationView>,
    ConvertError,
>
    decreases n,
{
    if n == 0 || n > ops.len() {
        Ok(Seq::empty())
    } else {
        match translated_all(ops, scope, (n - 1) as nat) {
            Err(e) => Err(e),
            Ok(done) => match translated(ops[n - 1], scope) {
                Err(e) => Err(e),
                Ok(op) => Ok(done.push(op)),
            },
        }
    }
}

/// The expectation that stands for one expected started command.
pub open spec fn expected_event(event: crud_v2::CommandStartedEventView) -> ExpectEventView {
    ExpectEventView {
        command: event.command,
        command_name: event.command_name,
        database_name: Some(token_text(TokenKind::DatabaseName, TokenRole::Deref, 0)),
    }
}

/// The one block of expected events of a test case: the started commands
/// that the client of its scope has to observe.
pub open spec fn expected_events(
    events: Seq<crud_v2::CommandStartedEventView>,
    scope: nat,
) -> Seq<ExpectEventsView> {
    seq![
        ExpectEventsView {
            client: token_text(TokenKind::Client, TokenRole::Deref, scope),
            event_type: "command"@,
            events: Seq::new(events.len(), |i: int| expected_event(events[i])),
        },
    ]
}

/// The one block of expected final data of a test case.
pub open spec fn expected_outcome(outcome: crud_v2::OutcomeView) -> Seq<InitialDataView> {
    seq![
        InitialDataView {
            collection_name: token_text(TokenKind::CollectionName, TokenRole::Deref, 0),
            database_name: token_text(TokenKind::DatabaseName, TokenRole::Deref, 0),
            documents: outcome.collection.data,
        },
    ]
}

/// The unified test case that the legacy test case with the given scope id
/// becomes, or the reason why there is none.
pub open spec fn converted_test(test: crud_v2::TestView, scope: nat) -> Result<
    TestView,
    ConvertError,
> {
    match observed(test) {
        Err(e) => Err(e),
        Ok(events) => match translated_all(test.operations, scope, test.operations.len()) {
            Err(e) => Err(e),
            Ok(ops) => Ok(
                TestView {
                    description: test.description,
                    run_on_requirements: None,
                    operations: leading_operations(test, scope, events) + ops,
                    expect_events: match test.expectations {
                        Some(events) => Some(expected_events(events, scope)),
                        None => None,
                    },
                    outcome: match test.outcome {
                        Some(outcome) => Some(expected_outcome(outcome)),
                        None => None,
                    },
                },
            ),
        },
    }
}

/// The conversions of the first `n` test cases, each with its position as
/// scope id, or the error of the first among them that has one.
pub open spec fn converted_tests(tests: Seq<crud_v2::TestView>, n: nat) -> Result<
    Seq<TestView>,
    ConvertError,
>
    decreases n,
{
    if n == 0 || n > tests.len() {
        Ok(Seq::empty())
    } else {
        match converted_tests(tests, (n - 1) as nat) {
            Err(e) => Err(e),
            Ok(done) => match converted_test(tests[n - 1], (n - 1) as nat) {
                Err(e) => Err(e),
                Ok(test) => Ok(done.push(test)),
            },
        }
    }
}

/// Some operation of the list, or one that such an operation runs on a
/// thread, has the given name.
pub open spec fn names_among(ops: Seq<crud_v2::OperationView>, name: Seq<char>) -> bool {
    exists|i: int| 0 <= i < ops.len() && operation_names(#[trigger] ops[i], name)
}

/// Some test case runs an administrative command, by an operation of its
/// own or by one that runs on a thread.
pub open spec fn uses_admin_command(tests: Seq<crud_v2::TestView>) -> bool {
    exists|i: int|
        0 <= i < tests.len() && names_among((#[trigger] tests[i]).operations, "runAdminCommand"@)
}

/// A test case has a fail point, or configures one by an operation of its
/// own or by one that runs on a thread.
pub open spec fn sets_fail_point(test: crud_v2::TestView) -> bool {
    test.fail_point is Some || names_among(test.operations, "configureFailPoint"@)
}

/// Some test case uses a fail point.
pub open spec fn uses_fail_point(tests: Seq<crud_v2::TestView>) -> bool {
    exists|i: int| 0 <= i < tests.len() && sets_fail_point(#[trigger] tests[i])
}

/// The entities of the file: the setup client where a test case uses a fail
/// point or an administrative command, and the `admin` database where one
/// runs an administrative command.
pub open spec fn shared_entities(fail_point: bool, admin_command: bool) -> Seq<CreateEntityView> {
    let client = CreateEntityView::Client {
        id: token_text(TokenKind::SetupClient, TokenRole::Definition, 0),
        observe_events: None,
        uri_options: None,
    };
    let database = CreateEntityView::Database {
        id: token_text(TokenKind::AdminDatabase, TokenRole::Definition, 0),
        client: token_text(TokenKind::SetupClient, TokenRole::Deref, 0),
        database_name: admin_database_name(),
    };
    if admin_command {
        seq![client, database]
    } else if fail_point {
        seq![client]
    } else {
        Seq::empty()
    }
}

/// The unified requirement that a legacy requirement becomes.
pub open spec fn requirement_of(run_on: crud_v2::RunOnView) -> RunOnRequirementsView {
    RunOnRequirementsView {
        min_server_version: run_on.min_server_version,
        max_server_version: run_on.max_server_version,
        topologies: run_on.topology,
        auth: run_on.auth_enabled,
    }
}

/// The initial data of a converted file: the documents of the legacy file,
/// under the definition tokens of the collection name and the database name.
pub open spec fn initial_data_of(docs: Seq<DocView>) -> Seq<InitialDataView> {
    seq![
        InitialDataView {
            collection_name: token_text(TokenKind::CollectionName, TokenRole::Definition, 0),
            database_name: token_text(TokenKind::DatabaseName, TokenRole::Definition, 0),
            documents: docs,
        },
    ]
}

/// The unified test file that a legacy test file becomes under the given
/// name, or the reason why there is none. Initial data by collection name is
/// refused before anything is converted.
pub open spec fn converted(name: Seq<char>, suite: crud_v2::TestFileView) -> Result<
    TestFileView,
    ConvertError,
> {
    match suite.data {
        crud_v2::TestDataView::Many(_) => Err(ConvertError::UnsupportedData),
        crud_v2::TestDataView::Single(docs) => match converted_tests(
            suite.tests,
            suite.tests.len(),
        ) {
            Err(e) => Err(e),
            Ok(tests) => Ok(
                TestFileView {
                    description: name,
                    schema_version: schema_version(),
                    run_on_requirements: match suite.run_on {
                        Some(run_on) => Some(
                            Seq::new(run_on.len(), |i: int| requirement_of(run_on[i])),
                        ),
                        None => None,
                    },
                    create_entities: Some(
                        shared_entities(
                            uses_fail_point(suite.tests),
                            uses_admin_command(suite.tests),
                        ),
                    ),
                    initial_data: Some(initial_data_of(docs)),
                    tests,
                },
            ),
        },
    }
}

/// An error among the first operations is the error of the whole list.
pub proof fn lemma_translated_error(
    ops: Seq<crud_v2::OperationView>,
    scope: nat,
    n: nat,
    m: nat,
)
    requires
        n <= m <= ops.len(),
        translated_all(ops, scope, n) is Err,
    ensures
        translated_all(ops, scope, m) == translated_all(ops, scope, n),
    decreases m,
{
    if n < m {
        lemma_translated_error(ops, scope, n, (m - 1) as nat);
    }
}

/// An error among the first test cases is the error of the whole list.
pub proof fn lemma_converted_error(tests: Seq<crud_v2::TestView>, n: nat, m: nat)
    requires
        n <= m <= tests.len(),
        converted_tests(tests, n) is Err,
    ensures
        converted_tests(tests, m) == converted_tests(tests, n),
    decreases m,
{
    if n < m {
        lemma_converted_error(tests, n, (m - 1) as nat);
    }
}

/// An operation of the test runner without expectations.
fn runner_operation_of(name: &str, arguments: Document) -> (r: Operation)
    ensures
        r.deep_view() == runner_operation(name@, arguments@),
{
    Operation {
        name: name.to_owned(),
        object: "testRunner".to_owned(),
        arguments: Some(arguments),
        save_result_as_entity: None,
        expect_result: None,
        expect_error: None,
    }
}

/// The client, the database and the collection of one test case.
fn scope_entities_of(scope: usize, events: ObservedEvents, uri_options: Option<Document>) -> (r:
    Vec<CreateEntity>)
    ensures
        r.deep_view() == scope_entities(scope as nat, events@, uri_options.deep_view()),
{
    let mut entities: Vec<CreateEntity> = Vec::new();
    entities.push(
        CreateEntity::Client(
            ClientEntity {
                id: definition_token(TokenKind::Client, scope),
                observe_events: Some(events),
                uri_options,
            },
        ),
    );
    entities.push(
        CreateEntity::Database(
            DatabaseEntity {
                id: definition_token(TokenKind::Database, scope),
                client: deref_token(TokenKind::Client, scope),
                database_name: deref_token(TokenKind::DatabaseName, 0),
            },
        ),
    );
    entities.push(
        CreateEntity::Collection(
            CollectionEntity {
                id: definition_token(TokenKind::Collection, scope),
                database: deref_token(TokenKind::Database, scope),
                collection_name: deref_token(TokenKind::CollectionName, 0),
            },
        ),
    );
    assert(entities.deep_view() =~= scope_entities(
        scope as nat,
        events@,
        uri_options.deep_view(),
    ));
    entities
}

/// The expectations that stand for the expected started commands.
fn expected_events_of(events: Vec<crud_v2::CommandStartedEvent>, scope: usize) -> (r: Vec<
    ExpectEvents,
>)
    ensures
        r.deep_view() == expected_events(events.deep_view(), scope as nat),
{
    let ghost old_events = events.deep_view();
    let mut out: Vec<ExpectEvent> = Vec::new();
    for event in it: events
        invariant
            old_events == events.deep_view(),
            out.len() == it.index(),
            forall|k: int|
                0 <= k < out.len() ==> (#[trigger] out@[k]).deep_view() == expected_event(
                    old_events[k],
                ),
    {
        out.push(
            ExpectEvent::CommandStartedEvent {
                command: event.command,
                command_name: event.command_name,
                database_name: Some(deref_token(TokenKind::DatabaseName, 0)),
            },
        );
    }
    let block = ExpectEvents {
        client: deref_token(TokenKind::Client, scope),
        event_type: "command".to_owned(),
        events: out,
    };
    assert(block.deep_view().events =~= expected_events(old_events, scope as nat)[0].events);
    let mut blocks: Vec<ExpectEvents> = Vec::new();
    blocks.push(block);
    blocks
}

/// The one block of expected final data of a test case.
fn expected_outcome_of(outcome: crud_v2::Outcome) -> (r: Vec<InitialData>)
    ensures
        r.deep_view() == expected_outcome(outcome.deep_view()),
{
    let mut blocks: Vec<InitialData> = Vec::new();
    blocks.push(
        InitialData {
            collection_name: deref_token(TokenKind::CollectionName, 0),
            database_name: deref_token(TokenKind::DatabaseName, 0),
            documents: outcome.collection.data,
        },
    );
    blocks
}

impl Test {
    /// The unified test case that a legacy test case becomes, with
    /// `test_number` as the scope id of its entities.
    pub fn from_crud_v2(old: crud_v2::Test, test_number: usize) -> (r: Result<Test, ConvertError>)
        ensures
            match r {
                Ok(test) => converted_test(old.deep_view(), test_number as nat) == Ok::<
                    TestView,
                    ConvertError,
                >(test.deep_view()),
                Err(e) => converted_test(old.deep_view(), test_number as nat) == Err::<
                    TestView,
                    ConvertError,
                >(e),
            },
    {
        let ghost old_view = old.deep_view();
        let ghost scope = test_number as nat;
        let observed_events = match old.observed_events() {
            Ok(events) => events,
            Err(e) => {
                return Err(e);
            },
        };
        let crud_v2::Test {
            description,
            client_uri,
            fail_point,
            operations: old_operations,
            expectations,
            outcome,
            ..
        } = old;
        let mut operations: Vec<Operation> = Vec::new();
        match fail_point {
            Some(fp) => {
                let mut arguments = Document::new();
                set_text(
                    &mut arguments,
                    "client",
                    deref_token(TokenKind::SetupClient, 0).as_str(),
                );
                arguments.insert("failPoint", Value::Doc(fp));
                operations.push(runner_operation_of("failPoint", arguments));
            },
            None => {},
        }
        let entities = scope_entities_of(test_number, observed_events, client_uri);
        let mut arguments = Document::new();
        arguments.insert("entities", entities_to_value(&entities));
        operations.push(runner_operation_of("createEntities", arguments));
        let ghost leading = operations.deep_view();
        assert(leading =~= leading_operations(old_view, scope, observed_events@));

        let ghost old_ops = old_view.operations;
        let ghost mut done: Seq<OperationView> = Seq::empty();
        for old_op in it: old_operations
            invariant
                scope == test_number as nat,
                old_ops == old_view.operations,
                old_ops == old_operations.deep_view(),
                old_view == old.deep_view(),
                observed(old_view) is Ok,
                translated_all(old_ops, scope, it.index() as nat) == Ok::<
                    Seq<OperationView>,
                    ConvertError,
                >(done),
                operations.deep_view() == leading + done,
        {
            let ghost before = operations.deep_view();
            match Operation::from_crud_v2(old_op, test_number) {
                Ok(op) => {
                    proof {
                        done = done.push(op.deep_view());
                    }
                    operations.push(op);
                    assert(before.push(op.deep_view()) =~= leading + done);
                },
                Err(e) => {
                    proof {
                        lemma_translated_error(
                            old_ops,
                            scope,
                            (it.index() + 1) as nat,
                            old_ops.len(),
                        );
                    }
                    return Err(e);
                },
            }
        }
        let expect_events = match expectations {
            Some(events) => Some(expected_events_of(events, test_number)),
            None => None,
        };
        let outcome = match outcome {
            Some(outcome) => Some(expected_outcome_of(outcome)),
            None => None,
        };
        Ok(Test { description, run_on_requirements: None, operations, expect_events, outcome })
    }
}

impl From<crud_v2::RunOn> for RunOnRequirements {
    fn from(old: crud_v2::RunOn) -> (r: RunOnRequirements) {
        RunOnRequirements {
            min_server_version: old.min_server_version,
            max_server_version: old.max_server_version,
            topologies: old.topology,
            auth: old.auth_enabled,
        }
    }
}

impl FromSpecImpl<crud_v2::RunOn> for RunOnRequirements {
    open spec fn obeys_from_spec() -> bool {
        true
    }

    open spec fn from_spec(old: crud_v2::RunOn) -> RunOnRequirements {
        RunOnRequirements {
            min_server_version: old.min_server_version,
            max_server_version: old.max_server_version,
            topologies: old.topology,
            auth: old.auth_enabled,
        }
    }
}

/// Whether some operation of the list, or one that such an operation runs
/// on a thread, has the given name.
fn has_operation(ops: &Vec<crud_v2::Operation>, name: &str) -> (r: bool)
    ensures
        r == names_among(ops.deep_view(), name@),
{
    let mut i: usize = 0;
    while i < ops.len()
        invariant
            i <= ops.len(),
            forall|k: int| 0 <= k < i ==> !operation_names(#[trigger] ops.deep_view()[k], name@),
        decreases ops.len() - i,
    {
        if names_operation(&ops[i], name) {
            assert(operation_names(ops.deep_view()[i as int], name@));
            return true;
        }
        i += 1;
    }
    false
}

/// Whether some test case runs an administrative command.
fn contains_admin_command(tests: &Vec<crud_v2::Test>) -> (r: bool)
    ensures
        r == uses_admin_command(tests.deep_view()),
{
    let mut i: usize = 0;
    while i < tests.len()
        invariant
            i <= tests.len(),
            forall|k: int|
                0 <= k < i ==> !names_among(
                    (#[trigger] tests.deep_view()[k]).operations,
                    "runAdminCommand"@,
                ),
        decreases tests.len() - i,
    {
        if has_operation(&tests[i].operations, "runAdminCommand") {
            assert(names_among(tests.deep_view()[i as int].operations, "runAdminCommand"@));
            return true;
        }
        i += 1;
    }
    false
}

/// Whether some test case uses a fail point.
fn contains_fail_point(tests: &Vec<crud_v2::Test>) -> (r: bool)
    ensures
        r == uses_fail_point(tests.deep_view()),
{
    let mut i: usize = 0;
    while i < tests.len()
        invariant
            i <= tests.len(),
            forall|k: int| 0 <= k < i ==> !sets_fail_point(#[trigger] tests.deep_view()[k]),
        decreases tests.len() - i,
    {
        if tests[i].fail_point.is_some() || has_operation(
            &tests[i].operations,
            "configureFailPoint",
        ) {
            assert(sets_fail_point(tests.deep_view()[i as int]));
            return true;
        }
        i += 1;
    }
    false
}

/// The entities of the file.
fn shared_entities_of(fail_point: bool, admin_command: bool) -> (r: Vec<CreateEntity>)
    ensures
        r.deep_view() == shared_entities(fail_point, admin_command),
{
    let mut entities: Vec<CreateEntity> = Vec::new();
    if fail_point || admin_command {
        entities.push(
            CreateEntity::Client(
                ClientEntity {
                    id: definition_token(TokenKind::SetupClient, 0),
                    observe_events: None,
                    uri_options: None,
                },
            ),
        );
        if admin_command {
            entities.push(
                CreateEntity::Database(
                    DatabaseEntity {
                        id: definition_token(TokenKind::AdminDatabase, 0),
                        client: deref_token(TokenKind::SetupClient, 0),
                        database_name: "admin".to_owned(),
                    },
                ),
            );
        }
    }
    entities
}

/// The unified requirements that legacy requirements become.
fn requirements_of(run_on: Vec<crud_v2::RunOn>) -> (r: Vec<RunOnRequirements>)
    ensures
        r.deep_view() == Seq::new(
            run_on.deep_view().len(),
            |i: int| requirement_of(run_on.deep_view()[i]),
        ),
{
    let ghost old_view = run_on.deep_view();
    let mut out: Vec<RunOnRequirements> = Vec::new();
    for old in it: run_on
        invariant
            old_view == run_on.deep_view(),
            out.len() == it.index(),
            forall|k: int|
                0 <= k < out.len() ==> (#[trigger] out@[k]).deep_view() == requirement_of(
                    old_view[k],
                ),
    {
        out.push(RunOnRequirements::from(old));
    }
    out
}

/// Converts a legacy test file into the unified test file of the given
/// name. References between entities are reference tokens.
pub fn convert(file_name: &str, old: crud_v2::TestFile) -> (r: Result<TestFile, ConvertError>)
    ensures
        match r {
            Ok(file) => converted(file_name@, old.deep_view()) == Ok::<TestFileView, ConvertError>(
                file.deep_view(),
            ),
            Err(e) => converted(file_name@, old.deep_view()) == Err::<TestFileView, ConvertError>(
                e,
            ),
        },
{
    let ghost old_view = old.deep_view();
    let admin_command = contains_admin_command(&old.tests);
    let fail_point = contains_fail_point(&old.tests);
    let crud_v2::TestFile { run_on, data, tests: old_tests, .. } = old;
    let docs = match data {
        crud_v2::TestData::Single(docs) => docs,
        crud_v2::TestData::Many(_) => {
            return Err(ConvertError::UnsupportedData);
        },
    };
    let ghost old_tests_view = old_view.tests;
    let mut tests: Vec<Test> = Vec::new();
    assert(tests.deep_view() =~= Seq::<TestView>::empty());
    for old_test in it: old_tests
        invariant
            tests.len() == it.index(),
            old_tests_view == old_view.tests,
            old_tests_view == old_tests.deep_view(),
            old_view == old.deep_view(),
            old_view.data is Single,
            converted_tests(old_tests_view, it.index() as nat) == Ok::<
                Seq<TestView>,
                ConvertError,
            >(tests.deep_view()),
    {
        let ghost before = tests.deep_view();
        match Test::from_crud_v2(old_test, tests.len()) {
            Ok(test) => {
                tests.push(test);
                assert(tests.deep_view() =~= before.push(test.deep_view()));
            },
            Err(e) => {
                proof {
                    lemma_converted_error(
                        old_tests_view,
                        (it.index() + 1) as nat,
                        old_tests_view.len(),
                    );
                }
                return Err(e);
            },
        }
    }
    let mut initial_data: Vec<InitialData> = Vec::new();
    initial_data.push(
        InitialData {
            collection_name: definition_token(TokenKind::CollectionName, 0),
            database_name: definition_token(TokenKind::DatabaseName, 0),
            documents: docs,
        },
    );
    assert(initial_data.deep_view() =~= initial_data_of(docs.deep_view()));
    let run_on_requirements = match run_on {
        Some(run_on) => Some(requirements_of(run_on)),
        None => None,
    };
    Ok(
        TestFile {
            description: file_name.to_owned(),
            schema_version: "1.9".to_owned(),
            run_on_requirements,
            create_entities: Some(shared_entities_of(fail_point, admin_command)),
            initial_data: Some(initial_data),
            tests,
        },
    )
}

/// The identifier that an entity directive declares.
pub open spec fn entity_id(entity: CreateEntityView) -> Seq<char> {
    match entity {
        CreateEntityView::Client { id, .. } => id,
        CreateEntityView::Database { id, .. } => id,
        CreateEntityView::Collection { id, .. } => id,
        CreateEntityView::Thread { id } => id,
    }
}

/// Where the operation that creates the entities of a test case stands
/// among its operations: behind the fail point, where the case has one.
pub open spec fn entities_position(test: crud_v2::TestView) -> int {
    if test.fail_point is Some {
        1
    } else {
        0
    }
}

/// A converted file has one test case for each legacy test case, in order,
/// each converted with its position as scope id.
pub proof fn lemma_converted_tests(tests: Seq<crud_v2::TestView>, n: nat)
    requires
        n <= tests.len(),
        converted_tests(tests, n) is Ok,
    ensures
        converted_tests(tests, n)->Ok_0.len() == n,
        forall|i: int|
            0 <= i < n ==> converted_test(#[trigger] tests[i], i as nat) == Ok::<
                TestView,
                ConvertError,
            >(converted_tests(tests, n)->Ok_0[i]),
    decreases n,
{
    if n > 0 {
        lemma_converted_tests(tests, (n - 1) as nat);
    }
}

/// The translated operations stand in the order of the legacy operations.
pub proof fn lemma_translated_in_order(ops: Seq<crud_v2::OperationView>, scope: nat, n: nat)
    requires
        n <= ops.len(),
        translated_all(ops, scope, n) is Ok,
    ensures
        translated_all(ops, scope, n)->Ok_0.len() == n,
        forall|k: int|
            0 <= k < n ==> translated(#[trigger] ops[k], scope) == Ok::<
                OperationView,
                ConvertError,
            >(translated_all(ops, scope, n)->Ok_0[k]),
    decreases n,
{
    if n > 0 {
        lemma_translated_in_order(ops, scope, (n - 1) as nat);
    }
}

/// In a converted test case the operations stand in this order: the fail
/// point where the legacy test case has one, the creation of the entities of
/// the test case, then the translation of each legacy operation, in the
/// order of the legacy operations. So what an operation declares stands
/// before every operation that comes after it in the legacy test case.
pub proof fn lemma_operations_in_order(test: crud_v2::TestView, scope: nat)
    requires
        converted_test(test, scope) is Ok,
    ensures
        ({
            let new = converted_test(test, scope)->Ok_0;
            let first = entities_position(test) + 1;
            &&& new.operations.len() == first + test.operations.len()
            &&& test.fail_point matches Some(fail_point) ==> new.operations[0]
                == fail_point_operation(fail_point)
            &&& new.operations[entities_position(test)] == create_entities_operation(
                scope_entities(scope, observed(test)->Ok_0, test.client_uri),
            )
            &&& forall|k: int|
                0 <= k < test.operations.len() ==> translated(
                    #[trigger] test.operations[k],
                    scope,
                ) == Ok::<OperationView, ConvertError>(new.operations[first + k])
        }),
{
    lemma_translated_in_order(test.operations, scope, test.operations.len());
}

/// For a file of N test cases, N triples of client, database and collection
/// are created, one by each converted test case. The triple of test case `i`
/// is declared by the definition tokens of scope `i`, and its database and
/// collection refer to their owners by the dereference tokens of scope `i`.
/// Where no test case uses a fail point or an administrative command, the
/// file itself creates no entity.
pub proof fn lemma_one_triple_per_test(
    name: Seq<char>,
    suite: crud_v2::TestFileView,
    file: TestFileView,
)
    requires
        converted(name, suite) == Ok::<TestFileView, ConvertError>(file),
    ensures
        file.tests.len() == suite.tests.len(),
        forall|i: int|
            0 <= i < suite.tests.len() ==> observed(#[trigger] suite.tests[i]) is Ok
                && file.tests[i].operations[entities_position(suite.tests[i])]
                == create_entities_operation(
                scope_entities(
                    i as nat,
                    observed(suite.tests[i])->Ok_0,
                    suite.tests[i].client_uri,
                ),
            ),
        !uses_fail_point(suite.tests) && !uses_admin_command(suite.tests)
            ==> file.create_entities == Some(Seq::<CreateEntityView>::empty()),
{
    lemma_converted_tests(suite.tests, suite.tests.len());
    assert forall|i: int| 0 <= i < suite.tests.len() implies observed(#[trigger] suite.tests[i])
        is Ok && file.tests[i].operations[entities_position(suite.tests[i])]
        == create_entities_operation(
        scope_entities(i as nat, observed(suite.tests[i])->Ok_0, suite.tests[i].client_uri),
    ) by {
        assert(converted_test(suite.tests[i], i as nat) == Ok::<TestView, ConvertError>(
            file.tests[i],
        ));
    }
}

/// The entities that test cases create are told apart by their identifiers:
/// two entities of the triples of any two test cases have the same
/// identifier only if they are the same entity of the same test case, and
/// none has the identifier of an entity of the file.
pub proof fn lemma_entity_ids_distinct(
    i: nat,
    a: int,
    events_i: Set<EventKind>,
    uri_i: Option<DocView>,
    j: nat,
    b: int,
    events_j: Set<EventKind>,
    uri_j: Option<DocView>,
    c: int,
)
    requires
        0 <= a < 3,
        0 <= b < 3,
        0 <= c < 2,
    ensures
        entity_id(scope_entities(i, events_i, uri_i)[a]) == entity_id(
            scope_entities(j, events_j, uri_j)[b],
        ) ==> i == j && a == b,
        entity_id(scope_entities(i, events_i, uri_i)[a]) != entity_id(
            shared_entities(true, true)[c],
        ),
        entity_id(shared_entities(true, true)[0]) != entity_id(shared_entities(true, true)[1]),
{
    let kind_a = if a == 0 {
        TokenKind::Client
    } else if a == 1 {
        TokenKind::Database
    } else {
        TokenKind::Collection
    };
    let kind_b = if b == 0 {
        TokenKind::Client
    } else if b == 1 {
        TokenKind::Database
    } else {
        TokenKind::Collection
    };
    let kind_c = if c == 0 {
        TokenKind::SetupClient
    } else {
        TokenKind::AdminDatabase
    };
    let id_a = entity_id(scope_entities(i, events_i, uri_i)[a]);
    let id_b = entity_id(scope_entities(j, events_j, uri_j)[b]);
    let id_c = entity_id(shared_entities(true, true)[c]);
    if id_a == id_b {
        lemma_tokens_injective(kind_a, TokenRole::Definition, i, kind_b, TokenRole::Definition, j);
    }
    if id_a == id_c {
        lemma_tokens_injective(kind_a, TokenRole::Definition, i, kind_c, TokenRole::Definition, 0);
    }
    if entity_id(shared_entities(true, true)[0]) == entity_id(shared_entities(true, true)[1]) {
        lemma_tokens_injective(
            TokenKind::SetupClient,
            TokenRole::Definition,
            0,
            TokenKind::AdminDatabase,
            TokenRole::Definition,
            0,
        );
    }
}

/// The entities of a converted file: where a test case uses a fail point or
/// an administrative command, exactly one setup client; the `admin`
/// database, bound to that client, if and only if a test case runs an
/// administrative command; and nothing else.
pub proof fn lemma_shared_setup(name: Seq<char>, suite: crud_v2::TestFileView, file: TestFileView)
    requires
        converted(name, suite) == Ok::<TestFileView, ConvertError>(file),
    ensures
        file.create_entities matches Some(entities) && {
            let fail_point = uses_fail_point(suite.tests);
            let admin_command = uses_admin_command(suite.tests);
            &&& entities.len() == if admin_command {
                2int
            } else if fail_point {
                1int
            } else {
                0int
            }
            &&& fail_point || admin_command ==> entities[0] == (CreateEntityView::Client {
                id: token_text(TokenKind::SetupClient, TokenRole::Definition, 0),
                observe_events: None,
                uri_options: None,
            })
            &&& admin_command ==> entities[1] == (CreateEntityView::Database {
                id: token_text(TokenKind::AdminDatabase, TokenRole::Definition, 0),
                client: token_text(TokenKind::SetupClient, TokenRole::Deref, 0),
                database_name: admin_database_name(),
            })
        },
{
}

/// A file whose initial data is given by collection name is never converted.
pub proof fn lemma_data_by_collection_refused(name: Seq<char>, suite: crud_v2::TestFileView)
    requires
        suite.data is Many,
    ensures
        converted(name, suite) == Err::<TestFileView, ConvertError>(ConvertError::UnsupportedData),
{
}

} // verus!
