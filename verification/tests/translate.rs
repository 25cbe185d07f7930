use unified_convert::crud_v2;
use unified_convert::translate::{
    event_document, event_kind, names_operation, watched_event, waits_for_events, ConvertError,
};
use unified_convert::unified::{EventKind, ExpectError, ObservedEvents, Operation};
use unified_convert::value::{Document, Value};

fn translate_doc(pairs: Vec<(&str, Value)>) -> Document {
    let mut doc = Document::new();
    for (key, value) in pairs {
        doc.insert(key, value);
    }
    doc
}

fn translate_node(pairs: Vec<(&str, Value)>) -> Value {
    Value::Doc(translate_doc(pairs))
}

fn legacy(name: &str, object: &str, arguments: Option<Document>) -> crud_v2::Operation {
    crud_v2::Operation {
        name: name.to_string(),
        object: object.to_string(),
        command_name: None,
        arguments,
        error: None,
        result: None,
    }
}

fn plain(name: &str, object: &str, arguments: Option<Document>) -> Operation {
    Operation {
        name: name.to_string(),
        object: object.to_string(),
        arguments,
        save_result_as_entity: None,
        expect_result: None,
        expect_error: None,
    }
}

fn legacy_test(operations: Vec<crud_v2::Operation>) -> crud_v2::Test {
    crud_v2::Test {
        description: "t".to_string(),
        skip_reason: None,
        use_multiple_mongoses: None,
        client_uri: None,
        fail_point: None,
        session_options: None,
        operations,
        expectations: None,
        outcome: None,
    }
}

#[test]
fn waiting_for_a_cleared_pool_refers_to_the_client_of_the_scope() {
    let old = legacy(
        "waitForEvent",
        "testRunner",
        Some(translate_doc(vec![("event", Value::text("PoolClearedEvent")), ("count", Value::Int(1))])),
    );
    let new = Operation::from_crud_v2(old, 0).unwrap();
    assert_eq!(new.name, "waitForEvent");
    assert_eq!(new.object, "xCLIENT_0_DEREF_PLACEHOLDER");
    assert_eq!(
        new.arguments,
        Some(translate_doc(vec![
            ("client", Value::text("xCLIENT_0_DEREF_PLACEHOLDER")),
            ("event", translate_node(vec![("poolClearedEvent", translate_node(vec![]))])),
            ("count", Value::Int(1)),
        ]))
    );
    assert_eq!(new.save_result_as_entity, None);
    assert_eq!(new.expect_result, None);
    assert_eq!(new.expect_error, None);
}

#[test]
fn counting_events_uses_the_scope_of_its_test_case() {
    let old = legacy(
        "assertEventCount",
        "testRunner",
        Some(translate_doc(vec![("event", Value::text("PoolReadyEvent")), ("count", Value::Int(2))])),
    );
    let new = Operation::from_crud_v2(old, 4).unwrap();
    assert_eq!(new.name, "assertEventCount");
    assert_eq!(new.object, "xCLIENT_4_DEREF_PLACEHOLDER");
    assert_eq!(
        new.arguments,
        Some(translate_doc(vec![
            ("client", Value::text("xCLIENT_4_DEREF_PLACEHOLDER")),
            ("event", translate_node(vec![("poolReadyEvent", translate_node(vec![]))])),
            ("count", Value::Int(2)),
        ]))
    );
}

#[test]
fn a_server_marked_unknown_is_a_changed_server_description() {
    let old = legacy(
        "waitForEvent",
        "testRunner",
        Some(translate_doc(vec![
            ("event", Value::text("ServerMarkedUnknownEvent")),
            ("count", Value::Int(1)),
        ])),
    );
    let new = Operation::from_crud_v2(old, 0).unwrap();
    assert_eq!(
        new.arguments.unwrap().get("event"),
        Some(&translate_node(vec![(
            "serverDescriptionChangedEvent",
            translate_node(vec![(
                "newDescription",
                translate_node(vec![("type", Value::text("Unknown"))])
            )])
        )]))
    );
}

#[test]
fn the_event_table_has_three_legacy_names() {
    assert_eq!(event_kind("PoolClearedEvent"), Some(EventKind::PoolCleared));
    assert_eq!(event_kind("PoolReadyEvent"), Some(EventKind::PoolReady));
    assert_eq!(event_kind("ServerMarkedUnknownEvent"), Some(EventKind::ServerDescriptionChanged));
    assert_eq!(event_kind("poolClearedEvent"), None);
    assert_eq!(event_kind("CommandStartedEvent"), None);
    assert_eq!(event_kind(""), None);
    assert_eq!(
        event_document(EventKind::CommandStarted),
        translate_doc(vec![("commandStartedEvent", translate_node(vec![]))])
    );
}

#[test]
fn an_unknown_event_name_is_an_error() {
    let old = legacy(
        "waitForEvent",
        "testRunner",
        Some(translate_doc(vec![("event", Value::text("PoolCreatedEvent")), ("count", Value::Int(1))])),
    );
    assert_eq!(Operation::from_crud_v2(old, 0), Err(ConvertError::UnknownEvent));
}

#[test]
fn an_event_operation_needs_its_event_and_its_count() {
    let no_arguments = legacy("waitForEvent", "testRunner", None);
    assert_eq!(Operation::from_crud_v2(no_arguments, 0), Err(ConvertError::Shape));
    let no_event =
        legacy("waitForEvent", "testRunner", Some(translate_doc(vec![("count", Value::Int(1))])));
    assert_eq!(Operation::from_crud_v2(no_event, 0), Err(ConvertError::Shape));
    let event_not_text = legacy(
        "assertEventCount",
        "testRunner",
        Some(translate_doc(vec![("event", Value::Int(1)), ("count", Value::Int(1))])),
    );
    assert_eq!(Operation::from_crud_v2(event_not_text, 0), Err(ConvertError::Shape));
    let no_count = legacy(
        "waitForEvent",
        "testRunner",
        Some(translate_doc(vec![("event", Value::text("PoolReadyEvent"))])),
    );
    assert_eq!(Operation::from_crud_v2(no_count, 0), Err(ConvertError::Shape));
}

#[test]
fn recording_the_primary_declares_a_topology_description() {
    let old = legacy("recordPrimary", "testRunner", None);
    assert_eq!(
        Operation::from_crud_v2(old, 2),
        Ok(plain(
            "recordTopologyDescription",
            "testRunner",
            Some(translate_doc(vec![
                ("client", Value::text("xCLIENT_2_DEREF_PLACEHOLDER")),
                ("id", Value::text("xTDESC_2_DEFINITION_PLACEHOLDER")),
            ]))
        ))
    );
}

#[test]
fn waiting_for_another_primary_refers_to_the_recorded_description() {
    let old = legacy("waitForPrimaryChange", "testRunner", None);
    assert_eq!(
        Operation::from_crud_v2(old, 1),
        Ok(plain(
            "waitForPrimaryChange",
            "testRunner",
            Some(translate_doc(vec![
                ("client", Value::text("xCLIENT_1_DEREF_PLACEHOLDER")),
                ("priorTopologyDescription", Value::text("xTDESC_1_DEREF_PLACEHOLDER")),
            ]))
        ))
    );
}

#[test]
fn a_timeout_is_carried_through_unchanged() {
    let old = legacy(
        "waitForPrimaryChange",
        "testRunner",
        Some(translate_doc(vec![("timeoutMS", Value::Int(15000)), ("other", Value::Int(1))])),
    );
    let new = Operation::from_crud_v2(old, 0).unwrap();
    assert_eq!(
        new.arguments,
        Some(translate_doc(vec![
            ("client", Value::text("xCLIENT_0_DEREF_PLACEHOLDER")),
            ("priorTopologyDescription", Value::text("xTDESC_0_DEREF_PLACEHOLDER")),
            ("timeoutMS", Value::Int(15000)),
        ]))
    );
}

#[test]
fn an_admin_command_runs_on_the_admin_database() {
    let mut old = legacy(
        "runAdminCommand",
        "testRunner",
        Some(translate_doc(vec![("command", translate_node(vec![("replSetStepDown", Value::Int(1))]))])),
    );
    old.command_name = Some("replSetStepDown".to_string());
    assert_eq!(
        Operation::from_crud_v2(old, 3),
        Ok(plain(
            "runCommand",
            "xADMIN_DATABASE_DEREF_PLACEHOLDER",
            Some(translate_doc(vec![
                ("command", translate_node(vec![("replSetStepDown", Value::Int(1))])),
                ("commandName", Value::text("replSetStepDown")),
            ]))
        ))
    );
}

#[test]
fn a_command_keeps_its_object_and_gets_its_name_as_argument() {
    let mut old = legacy(
        "runCommand",
        "database",
        Some(translate_doc(vec![("command", translate_node(vec![("ping", Value::Int(1))]))])),
    );
    old.command_name = Some("ping".to_string());
    assert_eq!(
        Operation::from_crud_v2(old, 0),
        Ok(plain(
            "runCommand",
            "database",
            Some(translate_doc(vec![
                ("command", translate_node(vec![("ping", Value::Int(1))])),
                ("commandName", Value::text("ping")),
            ]))
        ))
    );
}

#[test]
fn a_command_name_in_the_arguments_is_replaced_in_place() {
    let mut old = legacy(
        "runCommand",
        "database",
        Some(translate_doc(vec![("commandName", Value::text("old")), ("command", Value::Null)])),
    );
    old.command_name = Some("new".to_string());
    let new = Operation::from_crud_v2(old, 0).unwrap();
    assert_eq!(
        new.arguments,
        Some(translate_doc(vec![("commandName", Value::text("new")), ("command", Value::Null)]))
    );
}

#[test]
fn a_command_needs_its_name_and_its_arguments() {
    let without_command_name =
        legacy("runAdminCommand", "testRunner", Some(translate_doc(vec![])));
    assert_eq!(Operation::from_crud_v2(without_command_name, 0), Err(ConvertError::Shape));
    let mut without_arguments = legacy("runCommand", "database", None);
    without_arguments.command_name = Some("ping".to_string());
    assert_eq!(Operation::from_crud_v2(without_arguments, 0), Err(ConvertError::Shape));
}

#[test]
fn starting_thread_one_creates_the_thread_entity_of_scope_zero() {
    let old = legacy(
        "startThread",
        "testRunner",
        Some(translate_doc(vec![("name", Value::text("thread1"))])),
    );
    assert_eq!(
        Operation::from_crud_v2(old, 5),
        Ok(plain(
            "createEntities",
            "testRunner",
            Some(translate_doc(vec![(
                "entities",
                Value::array(vec![translate_node(vec![(
                    "thread",
                    translate_node(vec![("id", Value::text("THREAD_0_DEFINITION_PLACEHOLDER"))])
                )])])
            )]))
        ))
    );
}

#[test]
fn waiting_for_a_thread_keeps_only_the_reference_to_it() {
    let old = legacy(
        "waitForThread",
        "testRunner",
        Some(translate_doc(vec![("name", Value::text("thread3")), ("extra", Value::Int(1))])),
    );
    assert_eq!(
        Operation::from_crud_v2(old, 0),
        Ok(plain(
            "waitForThread",
            "testRunner",
            Some(translate_doc(vec![("thread", Value::text("THREAD_2_DEREF_PLACEHOLDER"))]))
        ))
    );
}

#[test]
fn an_operation_on_a_thread_is_translated_and_wrapped() {
    let nested = translate_node(vec![
        ("name", Value::text("find")),
        ("object", Value::text("collection")),
        ("arguments", translate_node(vec![("filter", translate_node(vec![]))])),
        ("error", Value::Bool(true)),
    ]);
    let old = legacy(
        "runOnThread",
        "testRunner",
        Some(translate_doc(vec![("name", Value::text("thread2")), ("operation", nested)])),
    );
    assert_eq!(
        Operation::from_crud_v2(old, 6),
        Ok(plain(
            "runOnThread",
            "testRunner",
            Some(translate_doc(vec![
                ("thread", Value::text("THREAD_1_DEREF_PLACEHOLDER")),
                (
                    "operation",
                    translate_node(vec![
                        ("name", Value::text("find")),
                        ("object", Value::text("xCOLLECTION_6_DEREF_PLACEHOLDER")),
                        ("arguments", translate_node(vec![("filter", translate_node(vec![]))])),
                        ("expectError", translate_node(vec![("isError", Value::Bool(true))])),
                    ])
                ),
            ]))
        ))
    );
}

#[test]
fn operations_on_threads_nest() {
    let innermost = translate_node(vec![
        ("name", Value::text("waitForThread")),
        ("object", Value::text("testRunner")),
        ("arguments", translate_node(vec![("name", Value::text("thread1"))])),
    ]);
    let middle = translate_node(vec![
        ("name", Value::text("runOnThread")),
        ("object", Value::text("testRunner")),
        (
            "arguments",
            translate_node(vec![("name", Value::text("thread2")), ("operation", innermost)]),
        ),
    ]);
    let old = legacy(
        "runOnThread",
        "testRunner",
        Some(translate_doc(vec![("name", Value::text("thread3")), ("operation", middle)])),
    );
    let new = Operation::from_crud_v2(old, 0).unwrap();
    let arguments = new.arguments.unwrap();
    assert_eq!(arguments.get_str("thread"), Some("THREAD_2_DEREF_PLACEHOLDER"));
    let middle = arguments.get_document("operation").unwrap();
    assert_eq!(middle.get_str("name"), Some("runOnThread"));
    let middle_arguments = middle.get_document("arguments").unwrap();
    assert_eq!(middle_arguments.get_str("thread"), Some("THREAD_1_DEREF_PLACEHOLDER"));
    let innermost = middle_arguments.get_document("operation").unwrap();
    assert_eq!(
        innermost,
        &translate_doc(vec![
            ("name", Value::text("waitForThread")),
            ("object", Value::text("testRunner")),
            (
                "arguments",
                translate_node(vec![("thread", Value::text("THREAD_0_DEREF_PLACEHOLDER"))])
            ),
        ])
    );
}

#[test]
fn an_error_in_a_nested_operation_is_the_error_of_the_whole() {
    let nested = translate_node(vec![
        ("name", Value::text("waitForEvent")),
        ("object", Value::text("testRunner")),
        (
            "arguments",
            translate_node(vec![("event", Value::text("Nope")), ("count", Value::Int(1))]),
        ),
    ]);
    let old = legacy(
        "runOnThread",
        "testRunner",
        Some(translate_doc(vec![("name", Value::text("thread1")), ("operation", nested)])),
    );
    assert_eq!(Operation::from_crud_v2(old, 0), Err(ConvertError::UnknownEvent));
}

#[test]
fn a_thread_operation_needs_a_thread_name_and_a_well_formed_operation() {
    for name in ["startThread", "runOnThread", "waitForThread"] {
        assert_eq!(
            Operation::from_crud_v2(legacy(name, "testRunner", None), 0),
            Err(ConvertError::Shape)
        );
        assert_eq!(
            Operation::from_crud_v2(legacy(name, "testRunner", Some(translate_doc(vec![]))), 0),
            Err(ConvertError::Shape)
        );
        assert_eq!(
            Operation::from_crud_v2(
                legacy(name, "testRunner", Some(translate_doc(vec![("name", Value::text("main"))]))),
                0
            ),
            Err(ConvertError::BadThreadName)
        );
    }
    let without_operation = legacy(
        "runOnThread",
        "testRunner",
        Some(translate_doc(vec![("name", Value::text("thread1"))])),
    );
    assert_eq!(Operation::from_crud_v2(without_operation, 0), Err(ConvertError::Shape));
    let with_unknown_field = legacy(
        "runOnThread",
        "testRunner",
        Some(translate_doc(vec![
            ("name", Value::text("thread1")),
            (
                "operation",
                translate_node(vec![
                    ("name", Value::text("find")),
                    ("object", Value::text("collection")),
                    ("unknown", Value::Int(1)),
                ]),
            ),
        ])),
    );
    assert_eq!(Operation::from_crud_v2(with_unknown_field, 0), Err(ConvertError::Shape));
}

#[test]
fn thread_names_are_a_prefix_and_a_positive_number() {
    assert_eq!(Operation::thread_number("thread1"), Ok(0));
    assert_eq!(Operation::thread_number("thread2"), Ok(1));
    assert_eq!(Operation::thread_number("thread10"), Ok(9));
    assert_eq!(Operation::thread_number("thread007"), Ok(6));
    assert_eq!(
        Operation::thread_number(&format!("thread{}", usize::MAX)),
        Ok(usize::MAX - 1)
    );
    for bad in [
        "thread0", "thread", "thread-1", "thread+1", "thread1a", "thread 1", "Thread1", "threa1",
        "1", "", "xthread1", "thread1 ",
    ] {
        assert_eq!(Operation::thread_number(bad), Err(ConvertError::BadThreadName), "{:?}", bad);
    }
    assert_eq!(
        Operation::thread_number(&format!("thread{}0", usize::MAX)),
        Err(ConvertError::BadThreadName)
    );
}

#[test]
fn configuring_a_fail_point_goes_through_the_setup_client() {
    let old = legacy(
        "configureFailPoint",
        "testRunner",
        Some(translate_doc(vec![(
            "failPoint",
            translate_node(vec![("configureFailPoint", Value::text("failCommand"))]),
        )])),
    );
    assert_eq!(
        Operation::from_crud_v2(old, 8),
        Ok(plain(
            "failPoint",
            "testRunner",
            Some(translate_doc(vec![
                (
                    "failPoint",
                    translate_node(vec![("configureFailPoint", Value::text("failCommand"))])
                ),
                ("client", Value::text("xSETUP_CLIENT_DEREF_PLACEHOLDER")),
            ]))
        ))
    );
    assert_eq!(
        Operation::from_crud_v2(legacy("configureFailPoint", "testRunner", None), 0),
        Err(ConvertError::Shape)
    );
}

#[test]
fn other_operations_pass_through() {
    let arguments = translate_doc(vec![("document", translate_node(vec![("_id", Value::Int(1))]))]);
    let old = legacy("insertOne", "database", Some(arguments.clone()));
    assert_eq!(
        Operation::from_crud_v2(old, 0),
        Ok(plain("insertOne", "database", Some(arguments)))
    );
    assert_eq!(
        Operation::from_crud_v2(legacy("ping", "testRunner", None), 0),
        Ok(plain("ping", "testRunner", None))
    );
}

#[test]
fn the_collection_object_becomes_the_collection_of_the_scope() {
    let new = Operation::from_crud_v2(legacy("find", "collection", None), 12).unwrap();
    assert_eq!(new.object, "xCOLLECTION_12_DEREF_PLACEHOLDER");
    let new = Operation::from_crud_v2(legacy("recordPrimary", "collection", None), 1).unwrap();
    assert_eq!(new.object, "xCOLLECTION_1_DEREF_PLACEHOLDER");
    let new = Operation::from_crud_v2(legacy("find", "Collection", None), 1).unwrap();
    assert_eq!(new.object, "Collection");
}

#[test]
fn an_expected_value_is_carried_over() {
    let mut old = legacy("find", "collection", None);
    old.result = Some(crud_v2::OperationResult::Success(Value::array(vec![Value::Int(1)])));
    old.error = Some(true);
    let new = Operation::from_crud_v2(old, 0).unwrap();
    assert_eq!(new.expect_result, Some(Value::array(vec![Value::Int(1)])));
    assert_eq!(new.expect_error, None);
}

#[test]
fn an_expected_error_loses_the_name_of_its_code() {
    let mut old = legacy("insertOne", "collection", None);
    old.result = Some(crud_v2::OperationResult::Error(crud_v2::OperationError {
        error_contains: Some("not primary".to_string()),
        error_code_name: Some("NotWritablePrimary".to_string()),
        error_code: Some(10107),
        error_labels_contain: Some(vec!["RetryableWriteError".to_string()]),
        error_labels_omit: Some(vec!["TransientTransactionError".to_string()]),
    }));
    old.error = Some(true);
    let new = Operation::from_crud_v2(old, 0).unwrap();
    assert_eq!(new.expect_result, None);
    assert_eq!(
        new.expect_error,
        Some(ExpectError {
            is_error: None,
            error_contains: Some("not primary".to_string()),
            error_code: Some(10107),
            error_code_name: None,
            error_labels_contain: Some(vec!["RetryableWriteError".to_string()]),
            error_labels_omit: Some(vec!["TransientTransactionError".to_string()]),
        })
    );
}

#[test]
fn a_bare_error_flag_expects_some_error() {
    let mut old = legacy("insertOne", "collection", None);
    old.error = Some(true);
    let new = Operation::from_crud_v2(old, 0).unwrap();
    assert_eq!(
        new.expect_error,
        Some(ExpectError {
            is_error: Some(true),
            error_contains: None,
            error_code: None,
            error_code_name: None,
            error_labels_contain: None,
            error_labels_omit: None,
        })
    );
    let mut old = legacy("insertOne", "collection", None);
    old.error = Some(false);
    let new = Operation::from_crud_v2(old, 0).unwrap();
    assert_eq!(new.expect_error, None);
    assert_eq!(new.expect_result, None);
}

#[test]
fn the_expectations_of_a_rewritten_operation_are_kept() {
    let mut old = legacy("recordPrimary", "testRunner", None);
    old.error = Some(true);
    let new = Operation::from_crud_v2(old, 0).unwrap();
    assert_eq!(new.name, "recordTopologyDescription");
    assert_eq!(new.expect_error.unwrap().is_error, Some(true));
}

#[test]
fn only_event_operations_make_the_client_observe() {
    assert!(waits_for_events("waitForEvent"));
    assert!(waits_for_events("assertEventCount"));
    assert!(!waits_for_events("waitForThread"));
    assert!(!waits_for_events(""));
    assert_eq!(watched_event(&legacy("find", "collection", None)), Ok(None));
    assert_eq!(
        watched_event(&legacy(
            "waitForEvent",
            "testRunner",
            Some(translate_doc(vec![("event", Value::text("PoolReadyEvent"))]))
        )),
        Ok(Some(EventKind::PoolReady))
    );
}

#[test]
fn the_observed_events_are_those_waited_for_and_started_commands() {
    let wait = |event: &str| {
        legacy(
            "waitForEvent",
            "testRunner",
            Some(translate_doc(vec![("event", Value::text(event)), ("count", Value::Int(1))])),
        )
    };
    let mut test = legacy_test(vec![
        wait("PoolClearedEvent"),
        legacy("find", "collection", None),
        wait("ServerMarkedUnknownEvent"),
        wait("PoolClearedEvent"),
    ]);
    assert_eq!(
        test.observed_events(),
        Ok(ObservedEvents {
            command_started: false,
            pool_cleared: true,
            pool_ready: false,
            server_description_changed: true,
        })
    );
    test.expectations = Some(vec![]);
    assert_eq!(
        test.observed_events(),
        Ok(ObservedEvents {
            command_started: true,
            pool_cleared: true,
            pool_ready: false,
            server_description_changed: true,
        })
    );
    assert_eq!(legacy_test(vec![]).observed_events(), Ok(ObservedEvents::none()));
}

#[test]
fn the_first_bad_event_operation_decides_the_error() {
    let test = legacy_test(vec![
        legacy("waitForEvent", "testRunner", None),
        legacy(
            "waitForEvent",
            "testRunner",
            Some(translate_doc(vec![("event", Value::text("Nope"))])),
        ),
    ]);
    assert_eq!(test.observed_events(), Err(ConvertError::Shape));
    let test = legacy_test(vec![
        legacy(
            "assertEventCount",
            "testRunner",
            Some(translate_doc(vec![("event", Value::text("Nope"))])),
        ),
        legacy("waitForEvent", "testRunner", None),
    ]);
    assert_eq!(test.observed_events(), Err(ConvertError::UnknownEvent));
}

#[test]
fn a_set_of_events_holds_what_was_put_in() {
    let mut events = ObservedEvents::none();
    for kind in [
        EventKind::CommandStarted,
        EventKind::PoolCleared,
        EventKind::PoolReady,
        EventKind::ServerDescriptionChanged,
    ] {
        assert!(!events.contains(kind));
    }
    events.insert(EventKind::PoolReady);
    events.insert(EventKind::PoolReady);
    assert!(events.contains(EventKind::PoolReady));
    assert!(!events.contains(EventKind::PoolCleared));
    events.insert(EventKind::CommandStarted);
    assert!(events.contains(EventKind::CommandStarted));
    assert!(events.contains(EventKind::PoolReady));
}

fn run_on_thread(thread: &str, operation: Value) -> crud_v2::Operation {
    legacy(
        "runOnThread",
        "testRunner",
        Some(translate_doc(vec![("name", Value::text(thread)), ("operation", operation)])),
    )
}

fn nested_wait(event: &str) -> Value {
    translate_node(vec![
        ("name", Value::text("waitForEvent")),
        ("object", Value::text("testRunner")),
        (
            "arguments",
            translate_node(vec![("event", Value::text(event)), ("count", Value::Int(1))]),
        ),
    ])
}

#[test]
fn only_the_operations_of_the_test_case_itself_make_the_client_observe() {
    let test = legacy_test(vec![
        run_on_thread("thread1", nested_wait("PoolClearedEvent")),
        legacy("find", "collection", None),
    ]);
    assert_eq!(test.observed_events(), Ok(ObservedEvents::none()));
    let mut test = legacy_test(vec![run_on_thread("thread1", nested_wait("Nope"))]);
    assert_eq!(test.observed_events(), Ok(ObservedEvents::none()));
    test.expectations = Some(vec![]);
    assert_eq!(
        test.observed_events(),
        Ok(ObservedEvents {
            command_started: true,
            pool_cleared: false,
            pool_ready: false,
            server_description_changed: false,
        })
    );
}

#[test]
fn names_are_found_in_operations_that_run_on_threads() {
    let op = run_on_thread("thread1", nested_wait("PoolReadyEvent"));
    assert!(names_operation(&op, "runOnThread"));
    assert!(names_operation(&op, "waitForEvent"));
    assert!(!names_operation(&op, "runAdminCommand"));
    let not_on_a_thread = legacy(
        "insertOne",
        "collection",
        Some(translate_doc(vec![("operation", nested_wait("PoolReadyEvent"))])),
    );
    assert!(!names_operation(&not_on_a_thread, "waitForEvent"));
    assert!(!names_operation(&run_on_thread("thread1", Value::Int(1)), "waitForEvent"));
}
