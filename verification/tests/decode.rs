use unified_convert::crud_v2::{
    CommandStartedEvent, Operation, OperationError, OperationResult, Outcome, RunOn, Serverless,
    Test, TestData, TestFile,
};
use unified_convert::decode::{deserialize_command_started_events, ShapeError};
use unified_convert::value::{Document, Value};

fn decode_doc(pairs: Vec<(&str, Value)>) -> Document {
    let mut doc = Document::new();
    for (key, value) in pairs {
        doc.insert(key, value);
    }
    doc
}

fn decode_node(pairs: Vec<(&str, Value)>) -> Value {
    Value::Doc(decode_doc(pairs))
}

fn decode_find_operation() -> Value {
    decode_node(vec![
        ("name", Value::text("find")),
        ("object", Value::text("collection")),
        ("arguments", decode_node(vec![("filter", decode_node(vec![]))])),
    ])
}

fn decode_minimal_test() -> Vec<(&'static str, Value)> {
    vec![
        ("description", Value::text("a test")),
        ("operations", Value::array(vec![decode_find_operation()])),
    ]
}

fn decode_minimal_file() -> Vec<(&'static str, Value)> {
    vec![
        ("collection_name", Value::text("coll")),
        ("data", Value::array(vec![])),
        ("tests", Value::array(vec![decode_node(decode_minimal_test())])),
    ]
}

#[test]
fn an_operation_is_read_with_all_its_fields() {
    let node = decode_node(vec![
        ("name", Value::text("runCommand")),
        ("object", Value::text("database")),
        ("command_name", Value::text("ping")),
        ("arguments", decode_node(vec![("command", decode_node(vec![("ping", Value::Int(1))]))])),
        ("error", Value::Bool(false)),
        ("result", Value::Int(5)),
    ]);
    let op = Operation::from_value(&node).unwrap();
    assert_eq!(op.name, "runCommand");
    assert_eq!(op.object, "database");
    assert_eq!(op.command_name, Some("ping".to_string()));
    assert_eq!(
        op.arguments,
        Some(decode_doc(vec![("command", decode_node(vec![("ping", Value::Int(1))]))]))
    );
    assert_eq!(op.error, Some(false));
    assert_eq!(op.result, Some(OperationResult::Success(Value::Int(5))));
}

#[test]
fn an_operation_needs_its_name_and_its_object() {
    let without_name = decode_node(vec![("object", Value::text("collection"))]);
    assert_eq!(Operation::from_value(&without_name), Err(ShapeError {}));
    let without_object = decode_node(vec![("name", Value::text("find"))]);
    assert_eq!(Operation::from_value(&without_object), Err(ShapeError {}));
    let null_name = decode_node(vec![("name", Value::Null), ("object", Value::text("collection"))]);
    assert_eq!(Operation::from_value(&null_name), Err(ShapeError {}));
}

#[test]
fn an_operation_with_an_unknown_field_is_refused() {
    let node = decode_node(vec![
        ("name", Value::text("find")),
        ("object", Value::text("collection")),
        ("extra", Value::Int(1)),
    ]);
    assert_eq!(Operation::from_value(&node), Err(ShapeError {}));
}

#[test]
fn an_operation_with_a_field_of_another_type_is_refused() {
    let node = decode_node(vec![
        ("name", Value::text("find")),
        ("object", Value::text("collection")),
        ("arguments", Value::Int(1)),
    ]);
    assert_eq!(Operation::from_value(&node), Err(ShapeError {}));
    let node = decode_node(vec![
        ("name", Value::Int(3)),
        ("object", Value::text("collection")),
    ]);
    assert_eq!(Operation::from_value(&node), Err(ShapeError {}));
    assert_eq!(Operation::from_value(&Value::text("find")), Err(ShapeError {}));
}

#[test]
fn a_null_field_counts_as_absent() {
    let node = decode_node(vec![
        ("name", Value::text("find")),
        ("object", Value::text("collection")),
        ("arguments", Value::Null),
        ("error", Value::Null),
        ("result", Value::Null),
    ]);
    let op = Operation::from_value(&node).unwrap();
    assert_eq!(op.arguments, None);
    assert_eq!(op.error, None);
    assert_eq!(op.result, None);
}

#[test]
fn a_result_that_describes_an_error_is_read_as_an_error() {
    let node = decode_node(vec![
        ("errorContains", Value::text("timed out")),
        ("errorCodeName", Value::text("NetworkTimeout")),
        ("errorCode", Value::Int(89)),
        ("errorLabelsContain", Value::array(vec![Value::text("RetryableWriteError")])),
        ("errorLabelsOmit", Value::array(vec![])),
    ]);
    assert_eq!(
        OperationResult::from_value(&node),
        OperationResult::Error(OperationError {
            error_contains: Some("timed out".to_string()),
            error_code_name: Some("NetworkTimeout".to_string()),
            error_code: Some(89),
            error_labels_contain: Some(vec!["RetryableWriteError".to_string()]),
            error_labels_omit: Some(vec![]),
        })
    );
}

#[test]
fn any_other_result_is_read_as_the_expected_value() {
    let with_other_key = decode_node(vec![("insertedId", Value::Int(1))]);
    assert_eq!(
        OperationResult::from_value(&with_other_key),
        OperationResult::Success(with_other_key.clone())
    );
    let mixed = decode_node(vec![("errorCode", Value::Int(1)), ("n", Value::Int(1))]);
    assert_eq!(OperationResult::from_value(&mixed), OperationResult::Success(mixed.clone()));
    let wrong_type = decode_node(vec![("errorCode", Value::text("89"))]);
    assert_eq!(
        OperationResult::from_value(&wrong_type),
        OperationResult::Success(wrong_type.clone())
    );
    let out_of_range = decode_node(vec![("errorCode", Value::Int(2147483648))]);
    assert_eq!(
        OperationResult::from_value(&out_of_range),
        OperationResult::Success(out_of_range.clone())
    );
    assert_eq!(
        OperationResult::from_value(&Value::Int(3)),
        OperationResult::Success(Value::Int(3))
    );
    let list = Value::array(vec![Value::text("a")]);
    assert_eq!(OperationResult::from_value(&list), OperationResult::Success(list.clone()));
}

#[test]
fn an_empty_document_as_result_is_an_error_without_properties() {
    assert_eq!(
        OperationResult::from_value(&decode_node(vec![])),
        OperationResult::Error(OperationError {
            error_contains: None,
            error_code_name: None,
            error_code: None,
            error_labels_contain: None,
            error_labels_omit: None,
        })
    );
}

#[test]
fn error_codes_at_the_limits_of_thirty_two_bits_are_read() {
    let low = decode_doc(vec![("errorCode", Value::Int(-2147483648))]);
    assert_eq!(OperationError::from_document(&low).unwrap().error_code, Some(i32::MIN));
    let high = decode_doc(vec![("errorCode", Value::Int(2147483647))]);
    assert_eq!(OperationError::from_document(&high).unwrap().error_code, Some(i32::MAX));
    let below = decode_doc(vec![("errorCode", Value::Int(-2147483649))]);
    assert_eq!(OperationError::from_document(&below), Err(ShapeError {}));
}

#[test]
fn a_platform_requirement_is_read() {
    let node = decode_node(vec![
        ("minServerVersion", Value::text("4.4")),
        ("topology", Value::array(vec![Value::text("single"), Value::text("replicaset")])),
        ("serverless", Value::text("forbid")),
        ("authEnabled", Value::Bool(true)),
    ]);
    assert_eq!(
        RunOn::from_value(&node),
        Ok(RunOn {
            min_server_version: Some("4.4".to_string()),
            max_server_version: None,
            topology: Some(vec!["single".to_string(), "replicaset".to_string()]),
            serverless: Some(Serverless::Forbid),
            auth_enabled: Some(true),
        })
    );
}

#[test]
fn each_serverless_mode_has_its_word() {
    for (word, mode) in [
        ("require", Serverless::Require),
        ("forbid", Serverless::Forbid),
        ("allow", Serverless::Allow),
    ] {
        let node = decode_node(vec![("serverless", Value::text(word))]);
        assert_eq!(RunOn::from_value(&node).unwrap().serverless, Some(mode));
    }
    let node = decode_node(vec![("serverless", Value::text("Require"))]);
    assert_eq!(RunOn::from_value(&node), Err(ShapeError {}));
}

#[test]
fn a_requirement_with_an_unknown_field_or_a_mixed_list_is_refused() {
    let unknown = decode_node(vec![("minServerVersion", Value::text("4.4")), ("os", Value::Null)]);
    assert_eq!(RunOn::from_value(&unknown), Err(ShapeError {}));
    let mixed = decode_node(vec![(
        "topology",
        Value::array(vec![Value::text("single"), Value::Int(1)]),
    )]);
    assert_eq!(RunOn::from_value(&mixed), Err(ShapeError {}));
}

#[test]
fn expectations_are_unwrapped_from_their_one_field() {
    let entry = decode_node(vec![(
        "command_started_event",
        decode_node(vec![
            ("command", decode_node(vec![("insert", Value::text("coll"))])),
            ("command_name", Value::text("insert")),
            ("database_name", Value::text("db")),
        ]),
    )]);
    assert_eq!(
        deserialize_command_started_events(&vec![entry]),
        Ok(vec![CommandStartedEvent {
            command_name: Some("insert".to_string()),
            database_name: Some("db".to_string()),
            command: decode_doc(vec![("insert", Value::text("coll"))]),
        }])
    );
    assert_eq!(deserialize_command_started_events(&vec![]), Ok(vec![]));
}

#[test]
fn an_expectation_without_the_wrapping_field_is_refused() {
    let bare = decode_node(vec![("command", decode_node(vec![]))]);
    assert_eq!(deserialize_command_started_events(&vec![bare]), Err(ShapeError {}));
    let other_key = decode_node(vec![(
        "command_succeeded_event",
        decode_node(vec![("command", decode_node(vec![]))]),
    )]);
    assert_eq!(deserialize_command_started_events(&vec![other_key]), Err(ShapeError {}));
    let empty = decode_node(vec![]);
    assert_eq!(deserialize_command_started_events(&vec![empty]), Err(ShapeError {}));
    let not_a_document = decode_node(vec![("command_started_event", Value::Int(1))]);
    assert_eq!(deserialize_command_started_events(&vec![not_a_document]), Err(ShapeError {}));
}

#[test]
fn an_expected_command_needs_its_command_and_takes_no_other_field() {
    let without_command = decode_doc(vec![("command_name", Value::text("insert"))]);
    assert_eq!(CommandStartedEvent::from_document(&without_command), Err(ShapeError {}));
    let unknown = decode_doc(vec![("command", decode_node(vec![])), ("reply", Value::Null)]);
    assert_eq!(CommandStartedEvent::from_document(&unknown), Err(ShapeError {}));
    let one_good_one_bad = vec![
        decode_node(vec![(
            "command_started_event",
            decode_node(vec![("command", decode_node(vec![]))]),
        )]),
        decode_node(vec![("command_started_event", decode_node(vec![]))]),
    ];
    assert_eq!(deserialize_command_started_events(&one_good_one_bad), Err(ShapeError {}));
}

#[test]
fn an_outcome_is_read() {
    let doc = decode_doc(vec![(
        "collection",
        decode_node(vec![
            ("name", Value::text("other")),
            ("data", Value::array(vec![decode_node(vec![("_id", Value::Int(1))])])),
        ]),
    )]);
    let outcome = Outcome::from_document(&doc).unwrap();
    assert_eq!(outcome.collection.name, Some("other".to_string()));
    assert_eq!(outcome.collection.data, vec![decode_doc(vec![("_id", Value::Int(1))])]);
    let without_data = decode_doc(vec![("collection", decode_node(vec![]))]);
    assert_eq!(Outcome::from_document(&without_data), Err(ShapeError {}));
    assert_eq!(Outcome::from_document(&decode_doc(vec![])), Err(ShapeError {}));
}

#[test]
fn a_list_of_documents_is_data_of_the_one_collection() {
    let node = Value::array(vec![decode_node(vec![("_id", Value::Int(1))]), decode_node(vec![])]);
    assert_eq!(
        TestData::from_value(&node),
        Ok(TestData::Single(vec![decode_doc(vec![("_id", Value::Int(1))]), decode_doc(vec![])]))
    );
    assert_eq!(TestData::from_value(&Value::array(vec![])), Ok(TestData::Single(vec![])));
}

#[test]
fn a_mapping_of_lists_of_documents_is_data_by_collection() {
    let node = decode_node(vec![
        ("first", Value::array(vec![decode_node(vec![("_id", Value::Int(1))])])),
        ("second", Value::array(vec![])),
    ]);
    assert_eq!(
        TestData::from_value(&node),
        Ok(TestData::Many(vec![
            ("first".to_string(), vec![decode_doc(vec![("_id", Value::Int(1))])]),
            ("second".to_string(), vec![]),
        ]))
    );
}

#[test]
fn data_of_neither_shape_is_refused() {
    assert_eq!(TestData::from_value(&Value::array(vec![Value::Int(1)])), Err(ShapeError {}));
    assert_eq!(TestData::from_value(&Value::text("data")), Err(ShapeError {}));
    let mapping_of_numbers = decode_node(vec![("first", Value::Int(1))]);
    assert_eq!(TestData::from_value(&mapping_of_numbers), Err(ShapeError {}));
    let mapping_of_mixed_lists = decode_node(vec![("first", Value::array(vec![Value::Int(1)]))]);
    assert_eq!(TestData::from_value(&mapping_of_mixed_lists), Err(ShapeError {}));
}

#[test]
fn a_test_case_is_read() {
    let mut fields = decode_minimal_test();
    fields.push(("skipReason", Value::text("flaky")));
    fields.push(("useMultipleMongoses", Value::Bool(false)));
    fields.push(("clientOptions", decode_node(vec![("retryWrites", Value::Bool(false))])));
    fields.push(("failPoint", decode_node(vec![("configureFailPoint", Value::text("x"))])));
    fields.push((
        "sessionOptions",
        decode_node(vec![("session0", decode_node(vec![("causalConsistency", Value::Bool(true))]))]),
    ));
    fields.push(("expectations", Value::array(vec![])));
    let test = Test::from_value(&decode_node(fields)).unwrap();
    assert_eq!(test.description, "a test");
    assert_eq!(test.skip_reason, Some("flaky".to_string()));
    assert_eq!(test.use_multiple_mongoses, Some(false));
    assert_eq!(test.client_uri, Some(decode_doc(vec![("retryWrites", Value::Bool(false))])));
    assert_eq!(
        test.fail_point,
        Some(decode_doc(vec![("configureFailPoint", Value::text("x"))]))
    );
    assert_eq!(
        test.session_options,
        Some(vec![(
            "session0".to_string(),
            decode_doc(vec![("causalConsistency", Value::Bool(true))])
        )])
    );
    assert_eq!(test.operations.len(), 1);
    assert_eq!(test.operations[0].name, "find");
    assert_eq!(test.expectations, Some(vec![]));
    assert_eq!(test.outcome, None);
}

#[test]
fn a_test_case_without_expectations_has_none() {
    let test = Test::from_value(&decode_node(decode_minimal_test())).unwrap();
    assert_eq!(test.expectations, None);
}

#[test]
fn a_test_case_needs_a_description_and_operations() {
    let without_operations = decode_node(vec![("description", Value::text("a test"))]);
    assert_eq!(Test::from_value(&without_operations), Err(ShapeError {}));
    let without_description = decode_node(vec![("operations", Value::array(vec![]))]);
    assert_eq!(Test::from_value(&without_description), Err(ShapeError {}));
    let mut unknown = decode_minimal_test();
    unknown.push(("comment", Value::text("why")));
    assert_eq!(Test::from_value(&decode_node(unknown)), Err(ShapeError {}));
    let bad_operation = decode_node(vec![
        ("description", Value::text("a test")),
        ("operations", Value::array(vec![decode_node(vec![("name", Value::text("find"))])])),
    ]);
    assert_eq!(Test::from_value(&bad_operation), Err(ShapeError {}));
}

#[test]
fn a_test_file_is_read() {
    let mut fields = decode_minimal_file();
    fields.push(("runOn", Value::array(vec![decode_node(vec![("minServerVersion", Value::text("4.0"))])])));
    fields.push(("database_name", Value::text("db")));
    fields.push(("bucket_name", Value::text("fs")));
    let file = TestFile::from_value(&decode_node(fields)).unwrap();
    assert_eq!(file.collection_name, "coll");
    assert_eq!(file.database_name, Some("db".to_string()));
    assert_eq!(file.bucket_name, Some("fs".to_string()));
    assert_eq!(file.data, TestData::Single(vec![]));
    assert_eq!(file.tests.len(), 1);
    assert_eq!(file.run_on.unwrap()[0].min_server_version, Some("4.0".to_string()));
}

#[test]
fn a_test_file_with_an_unknown_or_a_missing_field_is_refused() {
    let mut unknown = decode_minimal_file();
    unknown.push(("schemaVersion", Value::text("1.0")));
    assert_eq!(TestFile::from_value(&decode_node(unknown)), Err(ShapeError {}));
    for missing in ["collection_name", "data", "tests"] {
        let fields: Vec<(&str, Value)> =
            decode_minimal_file().into_iter().filter(|(key, _)| *key != missing).collect();
        assert_eq!(TestFile::from_value(&decode_node(fields)), Err(ShapeError {}), "{}", missing);
    }
    assert_eq!(TestFile::from_value(&Value::array(vec![])), Err(ShapeError {}));
}

#[test]
fn a_test_file_with_data_by_collection_can_be_read() {
    let fields = vec![
        ("collection_name", Value::text("coll")),
        ("data", decode_node(vec![("coll", Value::array(vec![decode_node(vec![])]))])),
        ("tests", Value::array(vec![])),
    ];
    let file = TestFile::from_value(&decode_node(fields)).unwrap();
    assert_eq!(
        file.data,
        TestData::Many(vec![("coll".to_string(), vec![decode_doc(vec![])])])
    );
}

#[test]
fn names_of_session_options_and_of_data_by_collection_occur_once() {
    let mut options = Document::new();
    options.insert("session0", decode_node(vec![("a", Value::Int(1))]));
    options.insert("session1", decode_node(vec![]));
    options.insert("session0", decode_node(vec![("a", Value::Int(2))]));
    let mut fields = decode_minimal_test();
    fields.push(("sessionOptions", Value::Doc(options)));
    let test = Test::from_value(&decode_node(fields)).unwrap();
    assert_eq!(
        test.session_options,
        Some(vec![
            ("session0".to_string(), decode_doc(vec![("a", Value::Int(2))])),
            ("session1".to_string(), decode_doc(vec![])),
        ])
    );
    let mut data = Document::new();
    data.insert("first", Value::array(vec![]));
    data.insert("second", Value::array(vec![]));
    data.insert("first", Value::array(vec![decode_node(vec![])]));
    match TestData::from_value(&Value::Doc(data)).unwrap() {
        TestData::Many(groups) => {
            let names: Vec<&str> = groups.iter().map(|(name, _)| name.as_str()).collect();
            assert_eq!(names, ["first", "second"]);
            assert_eq!(groups[0].1.len(), 1);
        }
        TestData::Single(_) => panic!("data by collection was read as a list"),
    }
}
