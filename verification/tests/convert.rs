use unified_convert::convert::convert;
use unified_convert::crud_v2;
use unified_convert::translate::ConvertError;
use unified_convert::unified::{
    ClientEntity, CollectionEntity, CreateEntity, DatabaseEntity, ExpectEvent, ExpectEvents,
    InitialData, ObservedEvents, Operation, RunOnRequirements, Test,
};
use unified_convert::value::{Document, Value};

fn convert_doc(pairs: Vec<(&str, Value)>) -> Document {
    let mut doc = Document::new();
    for (key, value) in pairs {
        doc.insert(key, value);
    }
    doc
}

fn convert_node(pairs: Vec<(&str, Value)>) -> Value {
    Value::Doc(convert_doc(pairs))
}

fn convert_op(name: &str, object: &str, arguments: Option<Document>) -> crud_v2::Operation {
    crud_v2::Operation {
        name: name.to_string(),
        object: object.to_string(),
        command_name: None,
        arguments,
        error: None,
        result: None,
    }
}

fn convert_test(description: &str, operations: Vec<crud_v2::Operation>) -> crud_v2::Test {
    crud_v2::Test {
        description: description.to_string(),
        skip_reason: None,
        use_multiple_mongoses: None,
        client_uri: None,
        fail_point: None,
        session_options: None,
        operations,
        expectations: None,
        outcome: None,
    }
}

fn convert_file(tests: Vec<crud_v2::Test>) -> crud_v2::TestFile {
    crud_v2::TestFile {
        run_on: None,
        database_name: None,
        collection_name: "coll".to_string(),
        bucket_name: None,
        data: crud_v2::TestData::Single(vec![]),
        tests,
    }
}

fn runner(name: &str, arguments: Document) -> Operation {
    Operation {
        name: name.to_string(),
        object: "testRunner".to_string(),
        arguments: Some(arguments),
        save_result_as_entity: None,
        expect_result: None,
        expect_error: None,
    }
}

fn triple(scope: usize, events: Vec<&str>, uri_options: Option<Document>) -> Value {
    let mut client = vec![
        ("id", Value::text(&format!("xCLIENT_{}_DEFINITION_PLACEHOLDER", scope))),
        ("observeEvents", Value::array(events.into_iter().map(Value::text).collect())),
    ];
    if let Some(options) = uri_options {
        client.push(("uriOptions", Value::Doc(options)));
    }
    Value::array(vec![
        convert_node(vec![("client", convert_node(client))]),
        convert_node(vec![(
            "database",
            convert_node(vec![
                ("id", Value::text(&format!("xDATABASE_{}_DEFINITION_PLACEHOLDER", scope))),
                ("client", Value::text(&format!("xCLIENT_{}_DEREF_PLACEHOLDER", scope))),
                ("databaseName", Value::text("xDATABASE_NAME_DEREF_PLACEHOLDER")),
            ]),
        )]),
        convert_node(vec![(
            "collection",
            convert_node(vec![
                ("id", Value::text(&format!("xCOLLECTION_{}_DEFINITION_PLACEHOLDER", scope))),
                ("database", Value::text(&format!("xDATABASE_{}_DEREF_PLACEHOLDER", scope))),
                ("collectionName", Value::text("xCOLLECTION_NAME_DEREF_PLACEHOLDER")),
            ]),
        )]),
    ])
}

fn setup_client() -> CreateEntity {
    CreateEntity::Client(ClientEntity {
        id: "xSETUP_CLIENT_DEFINITION_PLACEHOLDER".to_string(),
        observe_events: None,
        uri_options: None,
    })
}

fn admin_database() -> CreateEntity {
    CreateEntity::Database(DatabaseEntity {
        id: "xADMIN_DATABASE_DEFINITION_PLACEHOLDER".to_string(),
        client: "xSETUP_CLIENT_DEREF_PLACEHOLDER".to_string(),
        database_name: "admin".to_string(),
    })
}

#[test]
fn a_file_without_test_cases_has_only_its_frame() {
    let mut old = convert_file(vec![]);
    old.data = crud_v2::TestData::Single(vec![convert_doc(vec![("_id", Value::Int(1))])]);
    let new = convert("insert", old).unwrap();
    assert_eq!(new.description, "insert");
    assert_eq!(new.schema_version, "1.9");
    assert_eq!(new.run_on_requirements, None);
    assert_eq!(new.create_entities, Some(vec![]));
    assert_eq!(
        new.initial_data,
        Some(vec![InitialData {
            collection_name: "xCOLLECTION_NAME_DEFINITION_PLACEHOLDER".to_string(),
            database_name: "xDATABASE_NAME_DEFINITION_PLACEHOLDER".to_string(),
            documents: vec![convert_doc(vec![("_id", Value::Int(1))])],
        }])
    );
    assert_eq!(new.tests, vec![]);
}

#[test]
fn data_by_collection_aborts_the_conversion() {
    let mut old = convert_file(vec![convert_test("t", vec![])]);
    old.data = crud_v2::TestData::Many(vec![("coll".to_string(), vec![])]);
    assert_eq!(convert("file", old), Err(ConvertError::UnsupportedData));
    let mut old = convert_file(vec![]);
    old.data = crud_v2::TestData::Many(vec![]);
    assert_eq!(convert("file", old), Err(ConvertError::UnsupportedData));
}

#[test]
fn data_by_collection_is_refused_before_any_test_case_is_looked_at() {
    let bad = convert_op("waitForEvent", "testRunner", None);
    let mut old = convert_file(vec![convert_test("t", vec![bad])]);
    old.data = crud_v2::TestData::Many(vec![]);
    assert_eq!(convert("file", old), Err(ConvertError::UnsupportedData));
}

#[test]
fn each_test_case_creates_the_triple_of_its_own_scope() {
    let old = convert_file(vec![
        convert_test("first", vec![]),
        convert_test("second", vec![convert_op("find", "collection", None)]),
        convert_test("third", vec![]),
    ]);
    let new = convert("file", old).unwrap();
    assert_eq!(new.create_entities, Some(vec![]));
    assert_eq!(new.tests.len(), 3);
    for (scope, test) in new.tests.iter().enumerate() {
        assert_eq!(
            test.operations[0],
            runner("createEntities", convert_doc(vec![("entities", triple(scope, vec![], None))]))
        );
    }
    assert_eq!(new.tests[0].description, "first");
    assert_eq!(new.tests[0].operations.len(), 1);
    assert_eq!(new.tests[1].operations.len(), 2);
    assert_eq!(new.tests[1].operations[1].object, "xCOLLECTION_1_DEREF_PLACEHOLDER");
    assert_eq!(new.tests[2].description, "third");
}

#[test]
fn the_entities_of_a_test_case_are_the_typed_triple() {
    let mut test = convert_test("t", vec![]);
    test.client_uri = Some(convert_doc(vec![("heartbeatFrequencyMS", Value::Int(500))]));
    test.expectations = Some(vec![]);
    let new = Test::from_crud_v2(test, 7).unwrap();
    let entities = vec![
        CreateEntity::Client(ClientEntity {
            id: "xCLIENT_7_DEFINITION_PLACEHOLDER".to_string(),
            observe_events: Some(ObservedEvents {
                command_started: true,
                pool_cleared: false,
                pool_ready: false,
                server_description_changed: false,
            }),
            uri_options: Some(convert_doc(vec![("heartbeatFrequencyMS", Value::Int(500))])),
        }),
        CreateEntity::Database(DatabaseEntity {
            id: "xDATABASE_7_DEFINITION_PLACEHOLDER".to_string(),
            client: "xCLIENT_7_DEREF_PLACEHOLDER".to_string(),
            database_name: "xDATABASE_NAME_DEREF_PLACEHOLDER".to_string(),
        }),
        CreateEntity::Collection(CollectionEntity {
            id: "xCOLLECTION_7_DEFINITION_PLACEHOLDER".to_string(),
            database: "xDATABASE_7_DEREF_PLACEHOLDER".to_string(),
            collection_name: "xCOLLECTION_NAME_DEREF_PLACEHOLDER".to_string(),
        }),
    ];
    let encoded: Vec<Value> =
        entities.iter().map(|entity| Value::Doc(entity.to_document())).collect();
    assert_eq!(
        new.operations[0].arguments,
        Some(convert_doc(vec![("entities", Value::array(encoded))]))
    );
    assert_eq!(
        new.operations[0].arguments,
        Some(convert_doc(vec![(
            "entities",
            triple(
                7,
                vec!["commandStartedEvent"],
                Some(convert_doc(vec![("heartbeatFrequencyMS", Value::Int(500))]))
            )
        )]))
    );
}

#[test]
fn a_fail_point_adds_the_setup_client_once() {
    let mut first = convert_test("first", vec![]);
    first.fail_point = Some(convert_doc(vec![("configureFailPoint", Value::text("a"))]));
    let mut second = convert_test("second", vec![]);
    second.fail_point = Some(convert_doc(vec![("configureFailPoint", Value::text("b"))]));
    let third = convert_test(
        "third",
        vec![convert_op("configureFailPoint", "testRunner", Some(convert_doc(vec![])))],
    );
    let new = convert("file", convert_file(vec![first, second, third])).unwrap();
    assert_eq!(new.create_entities, Some(vec![setup_client()]));
}

#[test]
fn a_fail_point_operation_alone_adds_the_setup_client() {
    let test = convert_test(
        "t",
        vec![convert_op("configureFailPoint", "testRunner", Some(convert_doc(vec![])))],
    );
    let new = convert("file", convert_file(vec![convert_test("plain", vec![]), test])).unwrap();
    assert_eq!(new.create_entities, Some(vec![setup_client()]));
}

#[test]
fn an_admin_command_adds_the_setup_client_and_the_admin_database() {
    let mut op = convert_op("runAdminCommand", "testRunner", Some(convert_doc(vec![])));
    op.command_name = Some("ping".to_string());
    let new = convert("file", convert_file(vec![convert_test("t", vec![op.clone()])]))
        .unwrap();
    assert_eq!(new.create_entities, Some(vec![setup_client(), admin_database()]));
    let mut with_fail_point = convert_test("t", vec![op]);
    with_fail_point.fail_point = Some(convert_doc(vec![]));
    let new = convert("file", convert_file(vec![with_fail_point])).unwrap();
    assert_eq!(new.create_entities, Some(vec![setup_client(), admin_database()]));
}

#[test]
fn a_plain_command_adds_no_shared_entity() {
    let mut op = convert_op("runCommand", "database", Some(convert_doc(vec![])));
    op.command_name = Some("ping".to_string());
    let new = convert("file", convert_file(vec![convert_test("t", vec![op])])).unwrap();
    assert_eq!(new.create_entities, Some(vec![]));
}

#[test]
fn a_fail_point_comes_first_then_the_operations_then_the_expected_events() {
    let mut test = convert_test(
        "t",
        vec![
            convert_op("insertOne", "collection", Some(convert_doc(vec![("document", convert_node(vec![]))]))),
            convert_op(
                "waitForEvent",
                "testRunner",
                Some(convert_doc(vec![
                    ("event", Value::text("PoolClearedEvent")),
                    ("count", Value::Int(1)),
                ])),
            ),
        ],
    );
    test.fail_point = Some(convert_doc(vec![("configureFailPoint", Value::text("failCommand"))]));
    test.expectations = Some(vec![
        crud_v2::CommandStartedEvent {
            command_name: Some("insert".to_string()),
            database_name: Some("legacy-db".to_string()),
            command: convert_doc(vec![("insert", Value::text("coll"))]),
        },
        crud_v2::CommandStartedEvent {
            command_name: None,
            database_name: None,
            command: convert_doc(vec![]),
        },
    ]);
    let new = Test::from_crud_v2(test, 2).unwrap();
    assert_eq!(new.description, "t");
    assert_eq!(new.run_on_requirements, None);
    assert_eq!(new.operations.len(), 4);
    assert_eq!(
        new.operations[0],
        runner(
            "failPoint",
            convert_doc(vec![
                ("client", Value::text("xSETUP_CLIENT_DEREF_PLACEHOLDER")),
                (
                    "failPoint",
                    convert_node(vec![("configureFailPoint", Value::text("failCommand"))])
                ),
            ])
        )
    );
    assert_eq!(
        new.operations[1],
        runner(
            "createEntities",
            convert_doc(vec![(
                "entities",
                triple(2, vec!["commandStartedEvent", "poolClearedEvent"], None)
            )])
        )
    );
    assert_eq!(new.operations[2].name, "insertOne");
    assert_eq!(new.operations[2].object, "xCOLLECTION_2_DEREF_PLACEHOLDER");
    assert_eq!(new.operations[3].name, "waitForEvent");
    assert_eq!(
        new.expect_events,
        Some(vec![ExpectEvents {
            client: "xCLIENT_2_DEREF_PLACEHOLDER".to_string(),
            event_type: "command".to_string(),
            events: vec![
                ExpectEvent::CommandStartedEvent {
                    command: convert_doc(vec![("insert", Value::text("coll"))]),
                    command_name: Some("insert".to_string()),
                    database_name: Some("xDATABASE_NAME_DEREF_PLACEHOLDER".to_string()),
                },
                ExpectEvent::CommandStartedEvent {
                    command: convert_doc(vec![]),
                    command_name: None,
                    database_name: Some("xDATABASE_NAME_DEREF_PLACEHOLDER".to_string()),
                },
            ],
        }])
    );
    assert_eq!(new.outcome, None);
}

#[test]
fn without_expectations_there_is_no_block_of_events() {
    let new = Test::from_crud_v2(convert_test("t", vec![]), 0).unwrap();
    assert_eq!(new.expect_events, None);
    assert_eq!(new.outcome, None);
}

#[test]
fn an_outcome_becomes_the_final_data_of_the_collection() {
    let mut test = convert_test("t", vec![]);
    test.outcome = Some(crud_v2::Outcome {
        collection: crud_v2::CollectionOutcome {
            name: Some("ignored".to_string()),
            data: vec![convert_doc(vec![("_id", Value::Int(1))])],
        },
    });
    let new = Test::from_crud_v2(test, 0).unwrap();
    assert_eq!(
        new.outcome,
        Some(vec![InitialData {
            collection_name: "xCOLLECTION_NAME_DEREF_PLACEHOLDER".to_string(),
            database_name: "xDATABASE_NAME_DEREF_PLACEHOLDER".to_string(),
            documents: vec![convert_doc(vec![("_id", Value::Int(1))])],
        }])
    );
}

#[test]
fn operations_keep_their_order() {
    let names = ["a", "b", "c", "d", "e"];
    let test =
        convert_test("t", names.iter().map(|name| convert_op(name, "database", None)).collect());
    let new = Test::from_crud_v2(test, 0).unwrap();
    let translated: Vec<&str> =
        new.operations[1..].iter().map(|op| op.name.as_str()).collect();
    assert_eq!(translated, names);
}

#[test]
fn an_error_in_an_operation_aborts_the_test_case_and_the_file() {
    let bad = || {
        convert_op(
            "startThread",
            "testRunner",
            Some(convert_doc(vec![("name", Value::text("worker"))])),
        )
    };
    assert_eq!(
        Test::from_crud_v2(convert_test("t", vec![convert_op("find", "collection", None), bad()]), 0),
        Err(ConvertError::BadThreadName)
    );
    assert_eq!(
        convert(
            "file",
            convert_file(vec![convert_test("good", vec![]), convert_test("bad", vec![bad()])])
        ),
        Err(ConvertError::BadThreadName)
    );
}

#[test]
fn the_error_of_the_first_failing_test_case_is_returned() {
    let unknown_event = convert_op(
        "waitForEvent",
        "testRunner",
        Some(convert_doc(vec![("event", Value::text("Nope")), ("count", Value::Int(1))])),
    );
    let bad_thread = convert_op(
        "waitForThread",
        "testRunner",
        Some(convert_doc(vec![("name", Value::text("thread0"))])),
    );
    assert_eq!(
        convert(
            "file",
            convert_file(vec![
                convert_test("first", vec![bad_thread]),
                convert_test("second", vec![unknown_event])
            ])
        ),
        Err(ConvertError::BadThreadName)
    );
}

#[test]
fn event_operations_are_checked_before_the_others() {
    let bad_thread = convert_op(
        "waitForThread",
        "testRunner",
        Some(convert_doc(vec![("name", Value::text("thread0"))])),
    );
    let unknown_event = convert_op(
        "waitForEvent",
        "testRunner",
        Some(convert_doc(vec![("event", Value::text("Nope")), ("count", Value::Int(1))])),
    );
    assert_eq!(
        Test::from_crud_v2(convert_test("t", vec![bad_thread, unknown_event]), 0),
        Err(ConvertError::UnknownEvent)
    );
}

#[test]
fn requirements_lose_the_serverless_mode() {
    let old = crud_v2::RunOn {
        min_server_version: Some("4.2".to_string()),
        max_server_version: Some("6.0".to_string()),
        topology: Some(vec!["sharded".to_string()]),
        serverless: Some(crud_v2::Serverless::Require),
        auth_enabled: Some(false),
    };
    assert_eq!(
        RunOnRequirements::from(old),
        RunOnRequirements {
            min_server_version: Some("4.2".to_string()),
            max_server_version: Some("6.0".to_string()),
            topologies: Some(vec!["sharded".to_string()]),
            auth: Some(false),
        }
    );
}

#[test]
fn the_requirements_of_a_file_are_converted_in_order() {
    let mut old = convert_file(vec![]);
    old.run_on = Some(vec![
        crud_v2::RunOn {
            min_server_version: Some("4.0".to_string()),
            max_server_version: None,
            topology: None,
            serverless: None,
            auth_enabled: None,
        },
        crud_v2::RunOn {
            min_server_version: None,
            max_server_version: Some("5.0".to_string()),
            topology: None,
            serverless: Some(crud_v2::Serverless::Allow),
            auth_enabled: Some(true),
        },
    ]);
    let new = convert("file", old).unwrap();
    assert_eq!(
        new.run_on_requirements,
        Some(vec![
            RunOnRequirements {
                min_server_version: Some("4.0".to_string()),
                max_server_version: None,
                topologies: None,
                auth: None,
            },
            RunOnRequirements {
                min_server_version: None,
                max_server_version: Some("5.0".to_string()),
                topologies: None,
                auth: Some(true),
            },
        ])
    );
    let mut old = convert_file(vec![]);
    old.run_on = Some(vec![]);
    assert_eq!(convert("file", old).unwrap().run_on_requirements, Some(vec![]));
}

#[test]
fn the_names_of_the_legacy_file_do_not_reach_the_model() {
    let mut old = convert_file(vec![]);
    old.database_name = Some("legacy-db".to_string());
    old.bucket_name = Some("legacy-bucket".to_string());
    old.collection_name = "legacy-coll".to_string();
    let new = convert("file", old).unwrap();
    let rendered = format!("{:?}", new);
    assert!(!rendered.contains("legacy-"));
}

fn on_thread(thread: &str, operation: Value) -> crud_v2::Operation {
    convert_op(
        "runOnThread",
        "testRunner",
        Some(convert_doc(vec![("name", Value::text(thread)), ("operation", operation)])),
    )
}

fn start_thread(thread: &str) -> crud_v2::Operation {
    convert_op("startThread", "testRunner", Some(convert_doc(vec![("name", Value::text(thread))])))
}

#[test]
fn an_admin_command_on_a_thread_adds_the_setup_client_and_the_admin_database() {
    let nested = convert_node(vec![
        ("name", Value::text("runAdminCommand")),
        ("object", Value::text("testRunner")),
        ("command_name", Value::text("replSetStepDown")),
        ("arguments", convert_node(vec![("command", convert_node(vec![]))])),
    ]);
    let test = convert_test("t", vec![start_thread("thread1"), on_thread("thread1", nested)]);
    let new = convert("file", convert_file(vec![convert_test("plain", vec![]), test])).unwrap();
    assert_eq!(new.create_entities, Some(vec![setup_client(), admin_database()]));
    let wrapped = &new.tests[1].operations[2];
    assert_eq!(wrapped.name, "runOnThread");
    let inner = wrapped.arguments.as_ref().unwrap().get_document("operation").unwrap();
    assert_eq!(inner.get_str("object"), Some("xADMIN_DATABASE_DEREF_PLACEHOLDER"));
}

#[test]
fn a_fail_point_configured_on_a_thread_adds_the_setup_client() {
    let nested = convert_node(vec![
        ("name", Value::text("configureFailPoint")),
        ("object", Value::text("testRunner")),
        ("arguments", convert_node(vec![("failPoint", convert_node(vec![]))])),
    ]);
    let test = convert_test("t", vec![start_thread("thread2"), on_thread("thread2", nested)]);
    let new = convert("file", convert_file(vec![test])).unwrap();
    assert_eq!(new.create_entities, Some(vec![setup_client()]));
    let inner = new.tests[0].operations[2]
        .arguments
        .as_ref()
        .unwrap()
        .get_document("operation")
        .unwrap();
    assert_eq!(
        inner.get_document("arguments").unwrap().get_str("client"),
        Some("xSETUP_CLIENT_DEREF_PLACEHOLDER")
    );
}

#[test]
fn an_admin_command_is_found_at_any_depth_of_nesting() {
    let innermost = convert_node(vec![
        ("name", Value::text("runAdminCommand")),
        ("object", Value::text("testRunner")),
        ("command_name", Value::text("ping")),
        ("arguments", convert_node(vec![])),
    ]);
    let middle = convert_node(vec![
        ("name", Value::text("runOnThread")),
        ("object", Value::text("testRunner")),
        (
            "arguments",
            convert_node(vec![("name", Value::text("thread2")), ("operation", innermost)]),
        ),
    ]);
    let test = convert_test("t", vec![on_thread("thread1", middle)]);
    let new = convert("file", convert_file(vec![test])).unwrap();
    assert_eq!(new.create_entities, Some(vec![setup_client(), admin_database()]));
}

#[test]
fn a_name_in_the_arguments_of_another_operation_is_no_use_of_it() {
    let looks_nested = convert_node(vec![
        ("name", Value::text("runAdminCommand")),
        ("object", Value::text("testRunner")),
    ]);
    let not_on_a_thread = convert_op(
        "insertOne",
        "collection",
        Some(convert_doc(vec![("operation", looks_nested)])),
    );
    let new = convert("file", convert_file(vec![convert_test("t", vec![not_on_a_thread])])).unwrap();
    assert_eq!(new.create_entities, Some(vec![]));
}

fn count_in(value: &Value, text: &str) -> usize {
    match value {
        Value::Str(s) => usize::from(s == text),
        Value::Array(items) => items.iter().map(|item| count_in(item, text)).sum(),
        Value::Doc(doc) => (0..doc.len())
            .map(|i| count_in(doc.entry_at(i).unwrap().1, text))
            .sum(),
        _ => 0,
    }
}

#[test]
fn a_legacy_operation_with_the_name_of_a_unified_one_declares_nothing_of_its_own() {
    let passes_through = convert_op(
        "createEntities",
        "testRunner",
        Some(convert_doc(vec![(
            "entities",
            Value::array(vec![convert_node(vec![(
                "client",
                convert_node(vec![("id", Value::text("legacyClient"))]),
            )])]),
        )])),
    );
    let records = convert_op(
        "recordTopologyDescription",
        "testRunner",
        Some(convert_doc(vec![("id", Value::text("legacyDescription"))])),
    );
    let old = convert_file(vec![
        convert_test("first", vec![passes_through, records]),
        convert_test("second", vec![convert_op("recordPrimary", "testRunner", None)]),
    ]);
    let new = convert("file", old).unwrap();
    let whole = Value::Doc(new.to_document());
    for scope in 0..2 {
        for stem in ["xCLIENT", "xDATABASE", "xCOLLECTION"] {
            let token = format!("{}_{}_DEFINITION_PLACEHOLDER", stem, scope);
            assert_eq!(count_in(&whole, &token), 1, "{}", token);
        }
    }
    assert_eq!(count_in(&whole, "xTDESC_1_DEFINITION_PLACEHOLDER"), 1);
    assert_eq!(count_in(&whole, "xTDESC_0_DEFINITION_PLACEHOLDER"), 0);
    assert_eq!(count_in(&whole, "xDATABASE_NAME_DEFINITION_PLACEHOLDER"), 1);
    assert_eq!(count_in(&whole, "xCOLLECTION_NAME_DEFINITION_PLACEHOLDER"), 1);
    assert_eq!(count_in(&whole, "xSETUP_CLIENT_DEFINITION_PLACEHOLDER"), 0);
    assert_eq!(new.tests[0].operations[1].name, "createEntities");
    assert_eq!(count_in(&whole, "legacyClient"), 1);
}
