use unified_convert::encode::{docs_to_value, texts_to_value};
use unified_convert::unified::{
    ClientEntity, CollectionEntity, CreateEntity, DatabaseEntity, EventKind, ExpectError,
    ExpectEvent, ExpectEvents, InitialData, ObservedEvents, Operation, RunOnRequirements, Test,
    TestFile,
};
use unified_convert::value::{Document, Value};

fn encode_doc(pairs: Vec<(&str, Value)>) -> Document {
    let mut doc = Document::new();
    for (key, value) in pairs {
        doc.insert(key, value);
    }
    doc
}

fn encode_node(pairs: Vec<(&str, Value)>) -> Value {
    Value::Doc(encode_doc(pairs))
}

#[test]
fn observed_events_are_listed_in_a_fixed_order() {
    let mut events = ObservedEvents::none();
    assert_eq!(events.to_value(), Value::array(vec![]));
    events.insert(EventKind::ServerDescriptionChanged);
    events.insert(EventKind::CommandStarted);
    assert_eq!(
        events.to_value(),
        Value::array(vec![
            Value::text("commandStartedEvent"),
            Value::text("serverDescriptionChangedEvent")
        ])
    );
    events.insert(EventKind::PoolReady);
    events.insert(EventKind::PoolCleared);
    assert_eq!(
        events.to_value(),
        Value::array(vec![
            Value::text("commandStartedEvent"),
            Value::text("poolClearedEvent"),
            Value::text("poolReadyEvent"),
            Value::text("serverDescriptionChangedEvent"),
        ])
    );
}

#[test]
fn each_entity_is_written_under_the_name_of_its_kind() {
    let client = CreateEntity::Client(ClientEntity {
        id: "c".to_string(),
        observe_events: None,
        uri_options: None,
    });
    assert_eq!(
        client.to_document(),
        encode_doc(vec![("client", encode_node(vec![("id", Value::text("c"))]))])
    );
    let client = CreateEntity::Client(ClientEntity {
        id: "c".to_string(),
        observe_events: Some(ObservedEvents::none()),
        uri_options: Some(encode_doc(vec![("appname", Value::text("x"))])),
    });
    assert_eq!(
        client.to_document(),
        encode_doc(vec![(
            "client",
            encode_node(vec![
                ("id", Value::text("c")),
                ("observeEvents", Value::array(vec![])),
                ("uriOptions", encode_node(vec![("appname", Value::text("x"))])),
            ])
        )])
    );
    let database = CreateEntity::Database(DatabaseEntity {
        id: "d".to_string(),
        client: "c".to_string(),
        database_name: "db".to_string(),
    });
    assert_eq!(
        database.to_document(),
        encode_doc(vec![(
            "database",
            encode_node(vec![
                ("id", Value::text("d")),
                ("client", Value::text("c")),
                ("databaseName", Value::text("db")),
            ])
        )])
    );
    let collection = CreateEntity::Collection(CollectionEntity {
        id: "k".to_string(),
        database: "d".to_string(),
        collection_name: "coll".to_string(),
    });
    assert_eq!(
        collection.to_document(),
        encode_doc(vec![(
            "collection",
            encode_node(vec![
                ("id", Value::text("k")),
                ("database", Value::text("d")),
                ("collectionName", Value::text("coll")),
            ])
        )])
    );
    let thread = CreateEntity::Thread { id: "t".to_string() };
    assert_eq!(
        thread.to_document(),
        encode_doc(vec![("thread", encode_node(vec![("id", Value::text("t"))]))])
    );
}

#[test]
fn absent_properties_of_an_operation_are_left_out() {
    let op = Operation {
        name: "find".to_string(),
        object: "collection0".to_string(),
        arguments: None,
        save_result_as_entity: None,
        expect_result: None,
        expect_error: None,
    };
    assert_eq!(
        op.to_document(),
        encode_doc(vec![("name", Value::text("find")), ("object", Value::text("collection0"))])
    );
}

#[test]
fn all_properties_of_an_operation_are_written_in_order() {
    let op = Operation {
        name: "find".to_string(),
        object: "collection0".to_string(),
        arguments: Some(encode_doc(vec![("filter", encode_node(vec![]))])),
        save_result_as_entity: Some("result".to_string()),
        expect_result: Some(Value::Null),
        expect_error: Some(ExpectError {
            is_error: Some(true),
            error_contains: Some("x".to_string()),
            error_code: Some(-5),
            error_code_name: Some("Name".to_string()),
            error_labels_contain: Some(vec!["a".to_string(), "b".to_string()]),
            error_labels_omit: Some(vec![]),
        }),
    };
    assert_eq!(
        op.to_document(),
        encode_doc(vec![
            ("name", Value::text("find")),
            ("object", Value::text("collection0")),
            ("arguments", encode_node(vec![("filter", encode_node(vec![]))])),
            ("saveResultAsEntity", Value::text("result")),
            ("expectResult", Value::Null),
            (
                "expectError",
                encode_node(vec![
                    ("isError", Value::Bool(true)),
                    ("errorContains", Value::text("x")),
                    ("errorCode", Value::Int(-5)),
                    ("errorCodeName", Value::text("Name")),
                    ("errorLabelsContain", Value::array(vec![Value::text("a"), Value::text("b")])),
                    ("errorLabelsOmit", Value::array(vec![])),
                ])
            ),
        ])
    );
}

#[test]
fn an_expected_error_without_properties_is_an_empty_document() {
    let error = ExpectError {
        is_error: None,
        error_contains: None,
        error_code: None,
        error_code_name: None,
        error_labels_contain: None,
        error_labels_omit: None,
    };
    assert_eq!(error.to_document(), Document::new());
}

#[test]
fn absent_names_of_an_expected_event_are_written_as_null() {
    let event = ExpectEvent::CommandStartedEvent {
        command: encode_doc(vec![("ping", Value::Int(1))]),
        command_name: None,
        database_name: Some("db".to_string()),
    };
    assert_eq!(
        event.to_document(),
        encode_doc(vec![(
            "commandStartedEvent",
            encode_node(vec![
                ("command", encode_node(vec![("ping", Value::Int(1))])),
                ("commandName", Value::Null),
                ("databaseName", Value::text("db")),
            ])
        )])
    );
}

#[test]
fn a_block_of_expected_events_is_written() {
    let block = ExpectEvents {
        client: "client0".to_string(),
        event_type: "command".to_string(),
        events: vec![ExpectEvent::CommandStartedEvent {
            command: Document::new(),
            command_name: Some("ping".to_string()),
            database_name: None,
        }],
    };
    assert_eq!(
        block.to_document(),
        encode_doc(vec![
            ("client", Value::text("client0")),
            ("eventType", Value::text("command")),
            (
                "events",
                Value::array(vec![encode_node(vec![(
                    "commandStartedEvent",
                    encode_node(vec![
                        ("command", encode_node(vec![])),
                        ("commandName", Value::text("ping")),
                        ("databaseName", Value::Null),
                    ])
                )])])
            ),
        ])
    );
}

#[test]
fn requirements_and_data_are_written() {
    let requirement = RunOnRequirements {
        min_server_version: Some("4.4".to_string()),
        max_server_version: None,
        topologies: Some(vec!["single".to_string()]),
        auth: Some(true),
    };
    assert_eq!(
        requirement.to_document(),
        encode_doc(vec![
            ("minServerVersion", Value::text("4.4")),
            ("topologies", Value::array(vec![Value::text("single")])),
            ("auth", Value::Bool(true)),
        ])
    );
    let data = InitialData {
        collection_name: "coll".to_string(),
        database_name: "db".to_string(),
        documents: vec![encode_doc(vec![("_id", Value::Int(1))])],
    };
    assert_eq!(
        data.to_document(),
        encode_doc(vec![
            ("collectionName", Value::text("coll")),
            ("databaseName", Value::text("db")),
            ("documents", Value::array(vec![encode_node(vec![("_id", Value::Int(1))])])),
        ])
    );
}

#[test]
fn lists_of_strings_and_documents_are_written_item_by_item() {
    assert_eq!(texts_to_value(&vec![]), Value::array(vec![]));
    assert_eq!(
        texts_to_value(&vec!["a".to_string(), "".to_string()]),
        Value::array(vec![Value::text("a"), Value::text("")])
    );
    assert_eq!(
        docs_to_value(&vec![Document::new(), encode_doc(vec![("a", Value::Int(1))])]),
        Value::array(vec![encode_node(vec![]), encode_node(vec![("a", Value::Int(1))])])
    );
}

#[test]
fn a_test_file_is_written_with_its_fields_in_order() {
    let file = TestFile {
        description: "file".to_string(),
        schema_version: "1.9".to_string(),
        run_on_requirements: None,
        create_entities: Some(vec![]),
        initial_data: None,
        tests: vec![Test {
            description: "t".to_string(),
            run_on_requirements: Some(vec![]),
            operations: vec![],
            expect_events: Some(vec![]),
            outcome: None,
        }],
    };
    assert_eq!(
        file.to_document(),
        encode_doc(vec![
            ("description", Value::text("file")),
            ("schemaVersion", Value::text("1.9")),
            ("createEntities", Value::array(vec![])),
            (
                "tests",
                Value::array(vec![encode_node(vec![
                    ("description", Value::text("t")),
                    ("runOnRequirements", Value::array(vec![])),
                    ("operations", Value::array(vec![])),
                    ("expectEvents", Value::array(vec![])),
                ])])
            ),
        ])
    );
}
