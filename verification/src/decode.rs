//! The legacy model read from a generic document tree.
//!
//! The schema is closed: a document with a field that the schema does not
//! name is refused, as is one that lacks a required field or holds a value of
//! another type than the schema asks for. A field that holds null counts as
//! absent.

use crate::crud_v2::{
    names_distinct,
    CollectionOutcome, CollectionOutcomeView, CommandStartedEvent, CommandStartedEventView,
    Operation, OperationError, OperationErrorView, OperationResult, OperationResultView,
    OperationView, Outcome, OutcomeView, RunOn, RunOnView, Serverless, Test, TestData,
    TestDataView, TestFile, TestFileView, TestView,
};
use crate::text::same_text;
use crate::value::{distinct_keys, lookup, DocView, Document, Value, ValueView};
use vstd::prelude::*;

verus! {

/// A document tree does not have the shape that the legacy schema asks for.
#[derive(Clone, Copy, Debug, PartialEq, Eq, Structural)]
pub struct ShapeError {}

/// Every field name of `doc` is one of `allowed`.
pub open spec fn only_keys(doc: DocView, allowed: Seq<Seq<char>>) -> bool {
    forall|i: int| 0 <= i < doc.len() ==> allowed.contains(#[trigger] doc[i].0)
}

/// The value of a field that exists and is not null.
pub open spec fn field(doc: DocView, key: Seq<char>) -> Option<ValueView> {
    match lookup(doc, key) {
        Some(ValueView::Null) => None,
        other => other,
    }
}

/// What reading a field gives: `Refused` where the value has another type
/// than asked for, `Absent` where the field is missing or null.
pub enum Read<T> {
    Refused,
    Absent,
    Present(T),
}

impl<T> Read<T> {
    /// The reading of a field that must be there.
    pub open spec fn required(self) -> Option<T> {
        match self {
            Read::Present(t) => Some(t),
            _ => None,
        }
    }

    /// The reading of a field that may be missing.
    pub open spec fn optional(self) -> Option<Option<T>> {
        match self {
            Read::Present(t) => Some(Some(t)),
            Read::Absent => Some(None),
            Read::Refused => None,
        }
    }
}

/// A field read as a string.
pub open spec fn read_text(doc: DocView, key: Seq<char>) -> Read<Seq<char>> {
    match field(doc, key) {
        None => Read::Absent,
        Some(ValueView::Str(s)) => Read::Present(s),
        Some(_) => Read::Refused,
    }
}

/// A field read as a truth value.
pub open spec fn read_bool(doc: DocView, key: Seq<char>) -> Read<bool> {
    match field(doc, key) {
        None => Read::Absent,
        Some(ValueView::Bool(b)) => Read::Present(b),
        Some(_) => Read::Refused,
    }
}

/// A field read as a document.
pub open spec fn read_doc(doc: DocView, key: Seq<char>) -> Read<DocView> {
    match field(doc, key) {
        None => Read::Absent,
        Some(ValueView::Doc(d)) => Read::Present(d),
        Some(_) => Read::Refused,
    }
}

/// A field read as a 32-bit integer.
pub open spec fn read_i32(doc: DocView, key: Seq<char>) -> Read<i32> {
    match field(doc, key) {
        None => Read::Absent,
        Some(ValueView::Int(n)) => if i32::MIN <= n <= i32::MAX {
            Read::Present(n as i32)
        } else {
            Read::Refused
        },
        Some(_) => Read::Refused,
    }
}

/// Every item is a string.
pub open spec fn all_texts(items: Seq<ValueView>) -> bool {
    forall|i: int| 0 <= i < items.len() ==> #[trigger] items[i] is Str
}

/// The strings of a list of string nodes.
pub open spec fn texts_of(items: Seq<ValueView>) -> Seq<Seq<char>> {
    Seq::new(items.len(), |i: int| items[i]->Str_0)
}

/// A field read as a list of strings.
pub open spec fn read_texts(doc: DocView, key: Seq<char>) -> Read<Seq<Seq<char>>> {
    match field(doc, key) {
        None => Read::Absent,
        Some(ValueView::Array(items)) => if all_texts(items) {
            Read::Present(texts_of(items))
        } else {
            Read::Refused
        },
        Some(_) => Read::Refused,
    }
}

/// Every item is a document.
pub open spec fn all_docs(items: Seq<ValueView>) -> bool {
    forall|i: int| 0 <= i < items.len() ==> #[trigger] items[i] is Doc
}

/// The documents of a list of document nodes.
pub open spec fn docs_of(items: Seq<ValueView>) -> Seq<DocView> {
    Seq::new(items.len(), |i: int| items[i]->Doc_0)
}

/// A field read as a list of documents.
pub open spec fn read_docs(doc: DocView, key: Seq<char>) -> Read<Seq<DocView>> {
    match field(doc, key) {
        None => Read::Absent,
        Some(ValueView::Array(items)) => if all_docs(items) {
            Read::Present(docs_of(items))
        } else {
            Read::Refused
        },
        Some(_) => Read::Refused,
    }
}

/// The field names of an expected error.
pub open spec fn error_keys() -> Seq<Seq<char>> {
    seq![
        "errorContains"@,
        "errorCodeName"@,
        "errorCode"@,
        "errorLabelsContain"@,
        "errorLabelsOmit"@,
    ]
}

/// The expected error that a document describes, if it describes one.
pub open spec fn error_of(doc: DocView) -> Option<OperationErrorView> {
    if only_keys(doc, error_keys()) {
        match (
            read_text(doc, "errorContains"@).optional(),
            read_text(doc, "errorCodeName"@).optional(),
            read_i32(doc, "errorCode"@).optional(),
            read_texts(doc, "errorLabelsContain"@).optional(),
            read_texts(doc, "errorLabelsOmit"@).optional(),
        ) {
            (
                Some(error_contains),
                Some(error_code_name),
                Some(error_code),
                Some(error_labels_contain),
                Some(error_labels_omit),
            ) => Some(
                OperationErrorView {
                    error_contains,
                    error_code_name,
                    error_code,
                    error_labels_contain,
                    error_labels_omit,
                },
            ),
            _ => None,
        }
    } else {
        None
    }
}

/// The structured result that a node describes: an expected error where the
/// node is a document that describes one, else the node itself as the
/// expected value.
pub open spec fn result_of(v: ValueView) -> OperationResultView {
    match v {
        ValueView::Doc(d) => match error_of(d) {
            Some(e) => OperationResultView::Error(e),
            None => OperationResultView::Success(v),
        },
        _ => OperationResultView::Success(v),
    }
}

/// The structured result of an operation, where the field is there.
pub open spec fn read_result(doc: DocView) -> Option<OperationResultView> {
    match field(doc, "result"@) {
        Some(v) => Some(result_of(v)),
        None => None,
    }
}

/// The field names of an operation.
pub open spec fn operation_keys() -> Seq<Seq<char>> {
    seq!["name"@, "object"@, "command_name"@, "arguments"@, "error"@, "result"@]
}

/// The operation that a document describes, if it describes one.
pub open spec fn operation_of_doc(doc: DocView) -> Option<OperationView> {
    if only_keys(doc, operation_keys()) {
        match (
            read_text(doc, "name"@).required(),
            read_text(doc, "object"@).required(),
            read_text(doc, "command_name"@).optional(),
            read_doc(doc, "arguments"@).optional(),
            read_bool(doc, "error"@).optional(),
        ) {
            (Some(name), Some(object), Some(command_name), Some(arguments), Some(error)) => Some(
                OperationView {
                    name,
                    object,
                    command_name,
                    arguments,
                    error,
                    result: read_result(doc),
                },
            ),
            _ => None,
        }
    } else {
        None
    }
}

/// The operation that a node describes, if it describes one.
pub open spec fn operation_of(v: ValueView) -> Option<OperationView> {
    match v {
        ValueView::Doc(d) => operation_of_doc(d),
        _ => None,
    }
}

/// Whether `key` is one of `allowed`.
fn is_one_of(key: &str, allowed: &Vec<&'static str>) -> (r: bool)
    ensures
        r == allowed.deep_view().contains(key@),
{
    let mut i: usize = 0;
    while i < allowed.len()
        invariant
            i <= allowed.len(),
            forall|k: int| 0 <= k < i ==> allowed.deep_view()[k] != key@,
        decreases allowed.len() - i,
    {
        if same_text(allowed[i], key) {
            assert(allowed.deep_view()[i as int] == key@);
            return true;
        }
        i += 1;
    }
    false
}

/// Whether every field name of `doc` is one of `allowed`.
pub fn has_only_keys(doc: &Document, allowed: &Vec<&'static str>) -> (r: bool)
    ensures
        r == only_keys(doc@, allowed.deep_view()),
{
    let mut i: usize = 0;
    while i < doc.len()
        invariant
            i <= doc@.len(),
            forall|k: int| 0 <= k < i ==> allowed.deep_view().contains(#[trigger] doc@[k].0),
        decreases doc@.len() - i,
    {
        match doc.entry_at(i) {
            Some((key, _)) => {
                if !is_one_of(key.as_str(), allowed) {
                    return false;
                }
            },
            None => {},
        }
        i += 1;
    }
    true
}

/// The value of a field that exists and is not null.
pub fn get_field<'a>(doc: &'a Document, key: &str) -> (r: Option<&'a Value>)
    ensures
        r.deep_view() == field(doc@, key@),
{
    match doc.get(key) {
        Some(Value::Null) => None,
        Some(v) => Some(v),
        None => None,
    }
}

/// Reads an optional string field.
pub fn optional_text_field(doc: &Document, key: &str) -> (r: Result<Option<String>, ShapeError>)
    ensures
        r is Ok <==> read_text(doc@, key@).optional() is Some,
        r matches Ok(t) ==> Some(t.deep_view()) == read_text(doc@, key@).optional(),
{
    match get_field(doc, key) {
        None => Ok(None),
        Some(Value::Str(s)) => Ok(Some(s.clone())),
        Some(_) => Err(ShapeError {  }),
    }
}

/// Reads a required string field.
pub fn required_text_field(doc: &Document, key: &str) -> (r: Result<String, ShapeError>)
    ensures
        r is Ok <==> read_text(doc@, key@).required() is Some,
        r matches Ok(t) ==> Some(t@) == read_text(doc@, key@).required(),
{
    match get_field(doc, key) {
        Some(Value::Str(s)) => Ok(s.clone()),
        _ => Err(ShapeError {  }),
    }
}

/// Reads an optional truth-value field.
pub fn optional_bool_field(doc: &Document, key: &str) -> (r: Result<Option<bool>, ShapeError>)
    ensures
        r is Ok <==> read_bool(doc@, key@).optional() is Some,
        r matches Ok(t) ==> Some(t) == read_bool(doc@, key@).optional(),
{
    match get_field(doc, key) {
        None => Ok(None),
        Some(Value::Bool(b)) => Ok(Some(*b)),
        Some(_) => Err(ShapeError {  }),
    }
}

/// Reads an optional document field.
pub fn optional_doc_field(doc: &Document, key: &str) -> (r: Result<Option<Document>, ShapeError>)
    ensures
        r is Ok <==> read_doc(doc@, key@).optional() is Some,
        r matches Ok(t) ==> Some(t.deep_view()) == read_doc(doc@, key@).optional(),
{
    match get_field(doc, key) {
        None => Ok(None),
        Some(Value::Doc(d)) => Ok(Some(d.clone())),
        Some(_) => Err(ShapeError {  }),
    }
}

/// Reads an optional 32-bit integer field.
pub fn optional_i32_field(doc: &Document, key: &str) -> (r: Result<Option<i32>, ShapeError>)
    ensures
        r is Ok <==> read_i32(doc@, key@).optional() is Some,
        r matches Ok(t) ==> Some(t) == read_i32(doc@, key@).optional(),
{
    match get_field(doc, key) {
        None => Ok(None),
        Some(Value::Int(n)) => {
            if -2147483648 <= *n && *n <= 2147483647 {
                Ok(Some(*n as i32))
            } else {
                Err(ShapeError {  })
            }
        },
        Some(_) => Err(ShapeError {  }),
    }
}

/// The strings of a list of string nodes.
pub fn texts_from(items: &Vec<Value>) -> (r: Result<Vec<String>, ShapeError>)
    ensures
        r is Ok <==> all_texts(items.deep_view()),
        r matches Ok(t) ==> t.deep_view() == texts_of(items.deep_view()),
{
    let mut out: Vec<String> = Vec::new();
    let mut i: usize = 0;
    while i < items.len()
        invariant
            i <= items.len(),
            out.len() == i,
            forall|k: int| 0 <= k < i ==> #[trigger] items.deep_view()[k] is Str,
            forall|k: int| 0 <= k < i ==> (#[trigger] out@[k])@ == items.deep_view()[k]->Str_0,
        decreases items.len() - i,
    {
        match &items[i] {
            Value::Str(s) => {
                out.push(s.clone());
            },
            _ => {
                assert(!(items.deep_view()[i as int] is Str));
                return Err(ShapeError {  });
            },
        }
        i += 1;
    }
    Ok(out)
}

/// Reads an optional field that lists strings.
pub fn optional_texts_field(doc: &Document, key: &str) -> (r: Result<
    Option<Vec<String>>,
    ShapeError,
>)
    ensures
        r is Ok <==> read_texts(doc@, key@).optional() is Some,
        r matches Ok(t) ==> Some(t.deep_view()) == read_texts(doc@, key@).optional(),
{
    match get_field(doc, key) {
        None => Ok(None),
        Some(v) => match v.as_array() {
            Some(items) => match texts_from(items) {
                Ok(t) => Ok(Some(t)),
                Err(e) => Err(e),
            },
            None => Err(ShapeError {  }),
        },
    }
}

/// The documents of a list of document nodes.
pub fn docs_from(items: &Vec<Value>) -> (r: Result<Vec<Document>, ShapeError>)
    ensures
        r is Ok <==> all_docs(items.deep_view()),
        r matches Ok(t) ==> t.deep_view() == docs_of(items.deep_view()),
{
    let mut out: Vec<Document> = Vec::new();
    let mut i: usize = 0;
    while i < items.len()
        invariant
            i <= items.len(),
            out.len() == i,
            forall|k: int| 0 <= k < i ==> #[trigger] items.deep_view()[k] is Doc,
            forall|k: int| 0 <= k < i ==> (#[trigger] out@[k])@ == items.deep_view()[k]->Doc_0,
        decreases items.len() - i,
    {
        match &items[i] {
            Value::Doc(d) => {
                out.push(d.clone());
            },
            _ => {
                assert(!(items.deep_view()[i as int] is Doc));
                return Err(ShapeError {  });
            },
        }
        i += 1;
    }
    Ok(out)
}

/// Reads an optional field that lists documents.
pub fn optional_docs_field(doc: &Document, key: &str) -> (r: Result<
    Option<Vec<Document>>,
    ShapeError,
>)
    ensures
        r is Ok <==> read_docs(doc@, key@).optional() is Some,
        r matches Ok(t) ==> Some(t.deep_view()) == read_docs(doc@, key@).optional(),
{
    match get_field(doc, key) {
        None => Ok(None),
        Some(v) => match v.as_array() {
            Some(items) => match docs_from(items) {
                Ok(t) => Ok(Some(t)),
                Err(e) => Err(e),
            },
            None => Err(ShapeError {  }),
        },
    }
}

impl OperationError {
    /// Reads an expected error from a document.
    pub fn from_document(doc: &Document) -> (r: Result<OperationError, ShapeError>)
        ensures
            r is Ok <==> error_of(doc@) is Some,
            r matches Ok(e) ==> Some(e.deep_view()) == error_of(doc@),
    {
        let allowed = vec![
            "errorContains",
            "errorCodeName",
            "errorCode",
            "errorLabelsContain",
            "errorLabelsOmit",
        ];
        assert(allowed.deep_view() =~= error_keys());
        if !has_only_keys(doc, &allowed) {
            return Err(ShapeError {  });
        }
        let error_contains = optional_text_field(doc, "errorContains")?;
        let error_code_name = optional_text_field(doc, "errorCodeName")?;
        let error_code = optional_i32_field(doc, "errorCode")?;
        let error_labels_contain = optional_texts_field(doc, "errorLabelsContain")?;
        let error_labels_omit = optional_texts_field(doc, "errorLabelsOmit")?;
        Ok(
            OperationError {
                error_contains,
                error_code_name,
                error_code,
                error_labels_contain,
                error_labels_omit,
            },
        )
    }
}

impl OperationResult {
    /// Reads the structured result of an operation from a node.
    pub fn from_value(v: &Value) -> (r: OperationResult)
        ensures
            r.deep_view() == result_of(v@),
    {
        match v {
            Value::Doc(d) => match OperationError::from_document(d) {
                Ok(e) => OperationResult::Error(e),
                Err(_) => OperationResult::Success(v.clone()),
            },
            _ => OperationResult::Success(v.clone()),
        }
    }
}

impl Operation {
    /// Reads an operation from a document.
    pub fn from_document(doc: &Document) -> (r: Result<Operation, ShapeError>)
        ensures
            r is Ok <==> operation_of_doc(doc@) is Some,
            r matches Ok(op) ==> Some(op.deep_view()) == operation_of_doc(doc@),
    {
        let allowed = vec!["name", "object", "command_name", "arguments", "error", "result"];
        assert(allowed.deep_view() =~= operation_keys());
        if !has_only_keys(doc, &allowed) {
            return Err(ShapeError {  });
        }
        let name = required_text_field(doc, "name")?;
        let object = required_text_field(doc, "object")?;
        let command_name = optional_text_field(doc, "command_name")?;
        let arguments = optional_doc_field(doc, "arguments")?;
        let error = optional_bool_field(doc, "error")?;
        let result = match get_field(doc, "result") {
            Some(v) => Some(OperationResult::from_value(v)),
            None => None,
        };
        Ok(Operation { name, object, command_name, arguments, error, result })
    }

    /// Reads an operation from a node.
    pub fn from_value(v: &Value) -> (r: Result<Operation, ShapeError>)
        ensures
            r is Ok <==> operation_of(v@) is Some,
            r matches Ok(op) ==> Some(op.deep_view()) == operation_of(v@),
    {
        match v {
            Value::Doc(d) => Operation::from_document(d),
            _ => Err(ShapeError {  }),
        }
    }
}

/// Every item can be read by `read`.
pub open spec fn all_read<T>(items: Seq<ValueView>, read: spec_fn(ValueView) -> Option<T>) -> bool {
    forall|i: int| 0 <= i < items.len() ==> read(#[trigger] items[i]) is Some
}

/// What `read` makes of each item.
pub open spec fn each_read<T>(items: Seq<ValueView>, read: spec_fn(ValueView) -> Option<T>) -> Seq<
    T,
> {
    Seq::new(items.len(), |i: int| read(items[i])->0)
}

/// A field read as a list whose items `read` can read.
pub open spec fn read_list<T>(
    doc: DocView,
    key: Seq<char>,
    read: spec_fn(ValueView) -> Option<T>,
) -> Read<Seq<T>> {
    match field(doc, key) {
        None => Read::Absent,
        Some(ValueView::Array(items)) => if all_read(items, read) {
            Read::Present(each_read(items, read))
        } else {
            Read::Refused
        },
        Some(_) => Read::Refused,
    }
}

/// The reader of operations.
pub open spec fn operation_reader() -> spec_fn(ValueView) -> Option<OperationView> {
    |v: ValueView| operation_of(v)
}

/// The serverless mode that a word stands for.
pub open spec fn serverless_of(word: Seq<char>) -> Option<Serverless> {
    if word == "require"@ {
        Some(Serverless::Require)
    } else if word == "forbid"@ {
        Some(Serverless::Forbid)
    } else if word == "allow"@ {
        Some(Serverless::Allow)
    } else {
        None
    }
}

/// A field read as a serverless mode.
pub open spec fn read_serverless(doc: DocView, key: Seq<char>) -> Read<Serverless> {
    match read_text(doc, key) {
        Read::Absent => Read::Absent,
        Read::Refused => Read::Refused,
        Read::Present(word) => match serverless_of(word) {
            Some(mode) => Read::Present(mode),
            None => Read::Refused,
        },
    }
}

/// The field names of a platform requirement.
pub open spec fn run_on_keys() -> Seq<Seq<char>> {
    seq!["minServerVersion"@, "maxServerVersion"@, "topology"@, "serverless"@, "authEnabled"@]
}

/// The platform requirement that a node describes, if it describes one.
pub open spec fn run_on_of(v: ValueView) -> Option<RunOnView> {
    match v {
        ValueView::Doc(doc) => if only_keys(doc, run_on_keys()) {
            match (
                read_text(doc, "minServerVersion"@).optional(),
                read_text(doc, "maxServerVersion"@).optional(),
                read_texts(doc, "topology"@).optional(),
                read_serverless(doc, "serverless"@).optional(),
                read_bool(doc, "authEnabled"@).optional(),
            ) {
                (
                    Some(min_server_version),
                    Some(max_server_version),
                    Some(topology),
                    Some(serverless),
                    Some(auth_enabled),
                ) => Some(
                    RunOnView {
                        min_server_version,
                        max_server_version,
                        topology,
                        serverless,
                        auth_enabled,
                    },
                ),
                _ => None,
            }
        } else {
            None
        },
        _ => None,
    }
}

/// The reader of platform requirements.
pub open spec fn run_on_reader() -> spec_fn(ValueView) -> Option<RunOnView> {
    |v: ValueView| run_on_of(v)
}

/// The field names of a started command.
pub open spec fn command_keys() -> Seq<Seq<char>> {
    seq!["command_name"@, "database_name"@, "command"@]
}

/// The started command that a document describes, if it describes one.
pub open spec fn command_of(doc: DocView) -> Option<CommandStartedEventView> {
    if only_keys(doc, command_keys()) {
        match (
            read_text(doc, "command_name"@).optional(),
            read_text(doc, "database_name"@).optional(),
            read_doc(doc, "command"@).required(),
        ) {
            (Some(command_name), Some(database_name), Some(command)) => Some(
                CommandStartedEventView { command_name, database_name, command },
            ),
            _ => None,
        }
    } else {
        None
    }
}

/// The started command that an entry of the expectations describes: the
/// entry is a document whose one field, `command_started_event`, holds it.
pub open spec fn expectation_of(v: ValueView) -> Option<CommandStartedEventView> {
    match v {
        ValueView::Doc(doc) => if only_keys(doc, seq!["command_started_event"@]) {
            match read_doc(doc, "command_started_event"@).required() {
                Some(inner) => command_of(inner),
                None => None,
            }
        } else {
            None
        },
        _ => None,
    }
}

/// The reader of expectations.
pub open spec fn expectation_reader() -> spec_fn(ValueView) -> Option<CommandStartedEventView> {
    |v: ValueView| expectation_of(v)
}

/// The expected final state that a document describes, if it describes one.
pub open spec fn outcome_of(doc: DocView) -> Option<OutcomeView> {
    if only_keys(doc, seq!["collection"@]) {
        match read_doc(doc, "collection"@).required() {
            Some(collection) => if only_keys(collection, seq!["name"@, "data"@]) {
                match (
                    read_text(collection, "name"@).optional(),
                    read_docs(collection, "data"@).required(),
                ) {
                    (Some(name), Some(data)) => Some(
                        OutcomeView { collection: CollectionOutcomeView { name, data } },
                    ),
                    _ => None,
                }
            } else {
                None
            },
            None => None,
        }
    } else {
        None
    }
}

/// A field read as an expected final state.
pub open spec fn read_outcome(doc: DocView, key: Seq<char>) -> Read<OutcomeView> {
    match read_doc(doc, key) {
        Read::Absent => Read::Absent,
        Read::Refused => Read::Refused,
        Read::Present(inner) => match outcome_of(inner) {
            Some(outcome) => Read::Present(outcome),
            None => Read::Refused,
        },
    }
}

/// Every field holds a document.
pub open spec fn all_doc_fields(doc: DocView) -> bool {
    forall|i: int| 0 <= i < doc.len() ==> (#[trigger] doc[i]).1 is Doc
}

/// The documents of the fields, by field name.
pub open spec fn doc_fields_of(doc: DocView) -> Seq<(Seq<char>, DocView)> {
    Seq::new(doc.len(), |i: int| (doc[i].0, doc[i].1->Doc_0))
}

/// A field read as a mapping from names to documents.
pub open spec fn read_doc_map(doc: DocView, key: Seq<char>) -> Read<Seq<(Seq<char>, DocView)>> {
    match read_doc(doc, key) {
        Read::Absent => Read::Absent,
        Read::Refused => Read::Refused,
        Read::Present(inner) => if all_doc_fields(inner) {
            Read::Present(doc_fields_of(inner))
        } else {
            Read::Refused
        },
    }
}

/// The field names of a test case.
pub open spec fn test_keys() -> Seq<Seq<char>> {
    seq![
        "description"@,
        "skipReason"@,
        "useMultipleMongoses"@,
        "clientOptions"@,
        "failPoint"@,
        "sessionOptions"@,
        "operations"@,
        "expectations"@,
        "outcome"@,
    ]
}

/// The test case that a node describes, if it describes one.
pub open spec fn test_of(v: ValueView) -> Option<TestView> {
    match v {
        ValueView::Doc(doc) => if only_keys(doc, test_keys()) {
            match (
                read_text(doc, "description"@).required(),
                read_text(doc, "skipReason"@).optional(),
                read_bool(doc, "useMultipleMongoses"@).optional(),
                read_doc(doc, "clientOptions"@).optional(),
                read_doc(doc, "failPoint"@).optional(),
                read_doc_map(doc, "sessionOptions"@).optional(),
                read_list(doc, "operations"@, operation_reader()).required(),
                read_list(doc, "expectations"@, expectation_reader()).optional(),
                read_outcome(doc, "outcome"@).optional(),
            ) {
                (
                    Some(description),
                    Some(skip_reason),
                    Some(use_multiple_mongoses),
                    Some(client_uri),
                    Some(fail_point),
                    Some(session_options),
                    Some(operations),
                    Some(expectations),
                    Some(outcome),
                ) => Some(
                    TestView {
                        description,
                        skip_reason,
                        use_multiple_mongoses,
                        client_uri,
                        fail_point,
                        session_options,
                        operations,
                        expectations,
                        outcome,
                    },
                ),
                _ => None,
            }
        } else {
            None
        },
        _ => None,
    }
}

/// The reader of test cases.
pub open spec fn test_reader() -> spec_fn(ValueView) -> Option<TestView> {
    |v: ValueView| test_of(v)
}

/// Every field holds a list of documents.
pub open spec fn all_doc_lists(doc: DocView) -> bool {
    forall|i: int|
        0 <= i < doc.len() ==> ((#[trigger] doc[i]).1 matches ValueView::Array(items)
            && all_docs(items))
}

/// The lists of documents of the fields, by field name.
pub open spec fn doc_lists_of(doc: DocView) -> Seq<(Seq<char>, Seq<DocView>)> {
    Seq::new(doc.len(), |i: int| (doc[i].0, docs_of(doc[i].1->Array_0)))
}

/// The initial data that a node describes: a list of documents is the data
/// of the one collection; failing that, a mapping from collection names to
/// lists of documents is data by collection.
pub open spec fn data_of(v: ValueView) -> Option<TestDataView> {
    match v {
        ValueView::Array(items) => if all_docs(items) {
            Some(TestDataView::Single(docs_of(items)))
        } else {
            None
        },
        ValueView::Doc(doc) => if all_doc_lists(doc) {
            Some(TestDataView::Many(doc_lists_of(doc)))
        } else {
            None
        },
        _ => None,
    }
}

/// The field names of a test file.
pub open spec fn test_file_keys() -> Seq<Seq<char>> {
    seq!["runOn"@, "database_name"@, "collection_name"@, "bucket_name"@, "data"@, "tests"@]
}

/// The initial data of a test file, read from its required field.
pub open spec fn read_data(doc: DocView) -> Option<TestDataView> {
    match field(doc, "data"@) {
        Some(v) => data_of(v),
        None => None,
    }
}

/// The test file that a node describes, if it describes one.
pub open spec fn test_file_of(v: ValueView) -> Option<TestFileView> {
    match v {
        ValueView::Doc(doc) => if only_keys(doc, test_file_keys()) {
            match (
                read_list(doc, "runOn"@, run_on_reader()).optional(),
                read_text(doc, "database_name"@).optional(),
                read_text(doc, "collection_name"@).required(),
                read_text(doc, "bucket_name"@).optional(),
                read_data(doc),
                read_list(doc, "tests"@, test_reader()).required(),
            ) {
                (
                    Some(run_on),
                    Some(database_name),
                    Some(collection_name),
                    Some(bucket_name),
                    Some(data),
                    Some(tests),
                ) => Some(
                    TestFileView {
                        run_on,
                        database_name,
                        collection_name,
                        bucket_name,
                        data,
                        tests,
                    },
                ),
                _ => None,
            }
        } else {
            None
        },
        _ => None,
    }
}

/// The items of a field that holds a list.
pub fn optional_list_field<'a>(doc: &'a Document, key: &str) -> (r: Result<
    Option<&'a Vec<Value>>,
    ShapeError,
>)
    ensures
        match field(doc@, key@) {
            None => r == Ok::<Option<&Vec<Value>>, ShapeError>(None),
            Some(ValueView::Array(items)) => r matches Ok(Some(t)) && t.deep_view() == items,
            Some(_) => r is Err,
        },
{
    match get_field(doc, key) {
        None => Ok(None),
        Some(v) => match v.as_array() {
            Some(items) => Ok(Some(items)),
            None => Err(ShapeError {  }),
        },
    }
}

/// Reads a list of operations.
pub fn operations_from(items: &Vec<Value>) -> (r: Result<Vec<Operation>, ShapeError>)
    ensures
        r is Ok <==> all_read(items.deep_view(), operation_reader()),
        r matches Ok(t) ==> t.deep_view() == each_read(items.deep_view(), operation_reader()),
{
    let mut out: Vec<Operation> = Vec::new();
    let mut i: usize = 0;
    while i < items.len()
        invariant
            i <= items.len(),
            out.len() == i,
            forall|k: int| 0 <= k < i ==> operation_of(#[trigger] items.deep_view()[k]) is Some,
            forall|k: int|
                0 <= k < i ==> Some((#[trigger] out@[k]).deep_view()) == operation_of(
                    items.deep_view()[k],
                ),
        decreases items.len() - i,
    {
        match Operation::from_value(&items[i]) {
            Ok(op) => {
                out.push(op);
            },
            Err(e) => {
                assert(!(operation_reader()(items.deep_view()[i as int]) is Some));
                return Err(e);
            },
        }
        i += 1;
    }
    Ok(out)
}

/// The serverless mode that a word stands for.
pub fn serverless_from(word: &str) -> (r: Option<Serverless>)
    ensures
        r == serverless_of(word@),
{
    if same_text(word, "require") {
        Some(Serverless::Require)
    } else if same_text(word, "forbid") {
        Some(Serverless::Forbid)
    } else if same_text(word, "allow") {
        Some(Serverless::Allow)
    } else {
        None
    }
}

impl RunOn {
    /// Reads a platform requirement from a node.
    pub fn from_value(v: &Value) -> (r: Result<RunOn, ShapeError>)
        ensures
            r is Ok <==> run_on_of(v@) is Some,
            r matches Ok(t) ==> Some(t.deep_view()) == run_on_of(v@),
    {
        let doc = match v {
            Value::Doc(doc) => doc,
            _ => {
                return Err(ShapeError {  });
            },
        };
        let allowed = vec![
            "minServerVersion",
            "maxServerVersion",
            "topology",
            "serverless",
            "authEnabled",
        ];
        assert(allowed.deep_view() =~= run_on_keys());
        if !has_only_keys(doc, &allowed) {
            return Err(ShapeError {  });
        }
        let min_server_version = optional_text_field(doc, "minServerVersion")?;
        let max_server_version = optional_text_field(doc, "maxServerVersion")?;
        let topology = optional_texts_field(doc, "topology")?;
        let serverless = match optional_text_field(doc, "serverless")? {
            None => None,
            Some(word) => match serverless_from(word.as_str()) {
                Some(mode) => Some(mode),
                None => {
                    return Err(ShapeError {  });
                },
            },
        };
        let auth_enabled = optional_bool_field(doc, "authEnabled")?;
        Ok(RunOn { min_server_version, max_server_version, topology, serverless, auth_enabled })
    }
}

/// Reads a list of platform requirements.
pub fn run_on_from(items: &Vec<Value>) -> (r: Result<Vec<RunOn>, ShapeError>)
    ensures
        r is Ok <==> all_read(items.deep_view(), run_on_reader()),
        r matches Ok(t) ==> t.deep_view() == each_read(items.deep_view(), run_on_reader()),
{
    let mut out: Vec<RunOn> = Vec::new();
    let mut i: usize = 0;
    while i < items.len()
        invariant
            i <= items.len(),
            out.len() == i,
            forall|k: int| 0 <= k < i ==> run_on_of(#[trigger] items.deep_view()[k]) is Some,
            forall|k: int|
                0 <= k < i ==> Some((#[trigger] out@[k]).deep_view()) == run_on_of(
                    items.deep_view()[k],
                ),
        decreases items.len() - i,
    {
        match RunOn::from_value(&items[i]) {
            Ok(run_on) => {
                out.push(run_on);
            },
            Err(e) => {
                assert(!(run_on_reader()(items.deep_view()[i as int]) is Some));
                return Err(e);
            },
        }
        i += 1;
    }
    Ok(out)
}

impl CommandStartedEvent {
    /// Reads a started command from a document.
    pub fn from_document(doc: &Document) -> (r: Result<CommandStartedEvent, ShapeError>)
        ensures
            r is Ok <==> command_of(doc@) is Some,
            r matches Ok(t) ==> Some(t.deep_view()) == command_of(doc@),
    {
        let allowed = vec!["command_name", "database_name", "command"];
        assert(allowed.deep_view() =~= command_keys());
        if !has_only_keys(doc, &allowed) {
            return Err(ShapeError {  });
        }
        let command_name = optional_text_field(doc, "command_name")?;
        let database_name = optional_text_field(doc, "database_name")?;
        let command = match optional_doc_field(doc, "command")? {
            Some(command) => command,
            None => {
                return Err(ShapeError {  });
            },
        };
        Ok(CommandStartedEvent { command_name, database_name, command })
    }

    /// Reads a started command from an entry of the expectations.
    pub fn from_expectation(v: &Value) -> (r: Result<CommandStartedEvent, ShapeError>)
        ensures
            r is Ok <==> expectation_of(v@) is Some,
            r matches Ok(t) ==> Some(t.deep_view()) == expectation_of(v@),
    {
        let doc = match v {
            Value::Doc(doc) => doc,
            _ => {
                return Err(ShapeError {  });
            },
        };
        let allowed = vec!["command_started_event"];
        assert(allowed.deep_view() =~= seq!["command_started_event"@]);
        if !has_only_keys(doc, &allowed) {
            return Err(ShapeError {  });
        }
        match doc.get_document("command_started_event") {
            Some(inner) => CommandStartedEvent::from_document(inner),
            None => Err(ShapeError {  }),
        }
    }
}

/// Reads the expected started commands of a test case: each entry is
/// unwrapped from its `command_started_event` field.
pub fn deserialize_command_started_events(items: &Vec<Value>) -> (r: Result<
    Vec<CommandStartedEvent>,
    ShapeError,
>)
    ensures
        r is Ok <==> all_read(items.deep_view(), expectation_reader()),
        r matches Ok(t) ==> t.deep_view() == each_read(items.deep_view(), expectation_reader()),
{
    let mut out: Vec<CommandStartedEvent> = Vec::new();
    let mut i: usize = 0;
    while i < items.len()
        invariant
            i <= items.len(),
            out.len() == i,
            forall|k: int| 0 <= k < i ==> expectation_of(#[trigger] items.deep_view()[k]) is Some,
            forall|k: int|
                0 <= k < i ==> Some((#[trigger] out@[k]).deep_view()) == expectation_of(
                    items.deep_view()[k],
                ),
        decreases items.len() - i,
    {
        match CommandStartedEvent::from_expectation(&items[i]) {
            Ok(event) => {
                out.push(event);
            },
            Err(e) => {
                assert(!(expectation_reader()(items.deep_view()[i as int]) is Some));
                return Err(e);
            },
        }
        i += 1;
    }
    Ok(out)
}

impl Outcome {
    /// Reads an expected final state from a document.
    pub fn from_document(doc: &Document) -> (r: Result<Outcome, ShapeError>)
        ensures
            r is Ok <==> outcome_of(doc@) is Some,
            r matches Ok(t) ==> Some(t.deep_view()) == outcome_of(doc@),
    {
        let allowed = vec!["collection"];
        assert(allowed.deep_view() =~= seq!["collection"@]);
        if !has_only_keys(doc, &allowed) {
            return Err(ShapeError {  });
        }
        let collection = match doc.get_document("collection") {
            Some(collection) => collection,
            None => {
                return Err(ShapeError {  });
            },
        };
        let inner_allowed = vec!["name", "data"];
        assert(inner_allowed.deep_view() =~= seq!["name"@, "data"@]);
        if !has_only_keys(collection, &inner_allowed) {
            return Err(ShapeError {  });
        }
        let name = optional_text_field(collection, "name")?;
        let data = match optional_docs_field(collection, "data")? {
            Some(data) => data,
            None => {
                return Err(ShapeError {  });
            },
        };
        Ok(Outcome { collection: CollectionOutcome { name, data } })
    }
}

/// Fields of distinct names give named things of distinct names.
pub proof fn lemma_fields_distinct(doc: DocView)
    requires
        distinct_keys(doc),
    ensures
        names_distinct(doc_fields_of(doc)),
        names_distinct(doc_lists_of(doc)),
{
    assert forall|i: int, j: int| 0 <= i < j < doc.len() implies (#[trigger] doc_fields_of(
        doc,
    )[i]).0 != (#[trigger] doc_fields_of(doc)[j]).0 by {
        assert(doc[i].0 != doc[j].0);
    }
    assert forall|i: int, j: int| 0 <= i < j < doc.len() implies (#[trigger] doc_lists_of(
        doc,
    )[i]).0 != (#[trigger] doc_lists_of(doc)[j]).0 by {
        assert(doc[i].0 != doc[j].0);
    }
}

/// Reads a mapping from names to documents.
pub fn doc_map_from(doc: &Document) -> (r: Result<Vec<(String, Document)>, ShapeError>)
    ensures
        r is Ok <==> all_doc_fields(doc@),
        r matches Ok(t) ==> t.deep_view() == doc_fields_of(doc@),
        r matches Ok(t) ==> names_distinct(t.deep_view()),
{
    doc.keys_are_distinct();
    proof {
        lemma_fields_distinct(doc@);
    }
    let mut out: Vec<(String, Document)> = Vec::new();
    let mut i: usize = 0;
    while i < doc.len()
        invariant
            i <= doc@.len(),
            out.len() == i,
            forall|k: int| 0 <= k < i ==> (#[trigger] doc@[k]).1 is Doc,
            forall|k: int|
                0 <= k < i ==> (#[trigger] out@[k]).deep_view() == (doc@[k].0, doc@[k].1->Doc_0),
        decreases doc@.len() - i,
    {
        match doc.entry_at(i) {
            Some((key, Value::Doc(inner))) => {
                out.push((key.clone(), inner.clone()));
            },
            _ => {
                return Err(ShapeError {  });
            },
        }
        i += 1;
    }
    Ok(out)
}

impl Test {
    /// Reads a test case from a node.
    pub fn from_value(v: &Value) -> (r: Result<Test, ShapeError>)
        ensures
            r is Ok <==> test_of(v@) is Some,
            r matches Ok(t) ==> Some(t.deep_view()) == test_of(v@),
            r matches Ok(t) ==> t.deep_view().well_formed(),
    {
        let doc = match v {
            Value::Doc(doc) => doc,
            _ => {
                return Err(ShapeError {  });
            },
        };
        let allowed = vec![
            "description",
            "skipReason",
            "useMultipleMongoses",
            "clientOptions",
            "failPoint",
            "sessionOptions",
            "operations",
            "expectations",
            "outcome",
        ];
        assert(allowed.deep_view() =~= test_keys());
        if !has_only_keys(doc, &allowed) {
            return Err(ShapeError {  });
        }
        let description = required_text_field(doc, "description")?;
        let skip_reason = optional_text_field(doc, "skipReason")?;
        let use_multiple_mongoses = optional_bool_field(doc, "useMultipleMongoses")?;
        let client_uri = optional_doc_field(doc, "clientOptions")?;
        let fail_point = optional_doc_field(doc, "failPoint")?;
        let session_options = match get_field(doc, "sessionOptions") {
            None => None,
            Some(Value::Doc(inner)) => Some(doc_map_from(inner)?),
            Some(_) => {
                return Err(ShapeError {  });
            },
        };
        let operations = match optional_list_field(doc, "operations")? {
            Some(items) => operations_from(items)?,
            None => {
                return Err(ShapeError {  });
            },
        };
        let expectations = match optional_list_field(doc, "expectations")? {
            Some(items) => Some(deserialize_command_started_events(items)?),
            None => None,
        };
        let outcome = match get_field(doc, "outcome") {
            None => None,
            Some(Value::Doc(inner)) => Some(Outcome::from_document(inner)?),
            Some(_) => {
                return Err(ShapeError {  });
            },
        };
        Ok(
            Test {
                description,
                skip_reason,
                use_multiple_mongoses,
                client_uri,
                fail_point,
                session_options,
                operations,
                expectations,
                outcome,
            },
        )
    }
}

/// Reads a list of test cases.
pub fn tests_from(items: &Vec<Value>) -> (r: Result<Vec<Test>, ShapeError>)
    ensures
        r is Ok <==> all_read(items.deep_view(), test_reader()),
        r matches Ok(t) ==> t.deep_view() == each_read(items.deep_view(), test_reader()),
        r matches Ok(t) ==> forall|k: int|
            0 <= k < t.deep_view().len() ==> (#[trigger] t.deep_view()[k]).well_formed(),
{
    let mut out: Vec<Test> = Vec::new();
    let mut i: usize = 0;
    while i < items.len()
        invariant
            i <= items.len(),
            out.len() == i,
            forall|k: int| 0 <= k < i ==> test_of(#[trigger] items.deep_view()[k]) is Some,
            forall|k: int| 0 <= k < i ==> (#[trigger] out@[k]).deep_view().well_formed(),
            forall|k: int|
                0 <= k < i ==> Some((#[trigger] out@[k]).deep_view()) == test_of(
                    items.deep_view()[k],
                ),
        decreases items.len() - i,
    {
        match Test::from_value(&items[i]) {
            Ok(test) => {
                out.push(test);
            },
            Err(e) => {
                assert(!(test_reader()(items.deep_view()[i as int]) is Some));
                return Err(e);
            },
        }
        i += 1;
    }
    Ok(out)
}

/// Reads a mapping from names to lists of documents.
pub fn doc_lists_from(doc: &Document) -> (r: Result<Vec<(String, Vec<Document>)>, ShapeError>)
    ensures
        r is Ok <==> all_doc_lists(doc@),
        r matches Ok(t) ==> t.deep_view() == doc_lists_of(doc@),
        r matches Ok(t) ==> names_distinct(t.deep_view()),
{
    doc.keys_are_distinct();
    proof {
        lemma_fields_distinct(doc@);
    }
    let mut out: Vec<(String, Vec<Document>)> = Vec::new();
    let mut i: usize = 0;
    while i < doc.len()
        invariant
            i <= doc@.len(),
            out.len() == i,
            forall|k: int|
                0 <= k < i ==> ((#[trigger] doc@[k]).1 matches ValueView::Array(items)
                    && all_docs(items)),
            forall|k: int|
                0 <= k < i ==> (#[trigger] out@[k]).deep_view() == (
                    doc@[k].0,
                    docs_of(doc@[k].1->Array_0),
                ),
        decreases doc@.len() - i,
    {
        let (key, value) = match doc.entry_at(i) {
            Some(entry) => entry,
            None => {
                return Err(ShapeError {  });
            },
        };
        match value.as_array() {
            Some(items) => match docs_from(items) {
                Ok(docs) => {
                    out.push((key.clone(), docs));
                },
                Err(e) => {
                    return Err(e);
                },
            },
            None => {
                return Err(ShapeError {  });
            },
        }
        i += 1;
    }
    Ok(out)
}

impl TestData {
    /// Reads the initial data of a test file from a node.
    pub fn from_value(v: &Value) -> (r: Result<TestData, ShapeError>)
        ensures
            r is Ok <==> data_of(v@) is Some,
            r matches Ok(t) ==> Some(t.deep_view()) == data_of(v@),
            r matches Ok(t) ==> t.deep_view().well_formed(),
    {
        match v {
            Value::Array(_) => match v.as_array() {
                Some(items) => match docs_from(items) {
                    Ok(docs) => Ok(TestData::Single(docs)),
                    Err(e) => Err(e),
                },
                None => Err(ShapeError {  }),
            },
            Value::Doc(doc) => match doc_lists_from(doc) {
                Ok(groups) => Ok(TestData::Many(groups)),
                Err(e) => Err(e),
            },
            _ => Err(ShapeError {  }),
        }
    }
}

impl TestFile {
    /// Reads a test file from a node.
    pub fn from_value(v: &Value) -> (r: Result<TestFile, ShapeError>)
        ensures
            r is Ok <==> test_file_of(v@) is Some,
            r matches Ok(t) ==> Some(t.deep_view()) == test_file_of(v@),
            r matches Ok(t) ==> t.deep_view().well_formed(),
    {
        let doc = match v {
            Value::Doc(doc) => doc,
            _ => {
                return Err(ShapeError {  });
            },
        };
        let allowed = vec![
            "runOn",
            "database_name",
            "collection_name",
            "bucket_name",
            "data",
            "tests",
        ];
        assert(allowed.deep_view() =~= test_file_keys());
        if !has_only_keys(doc, &allowed) {
            return Err(ShapeError {  });
        }
        let run_on = match optional_list_field(doc, "runOn")? {
            Some(items) => Some(run_on_from(items)?),
            None => None,
        };
        let database_name = optional_text_field(doc, "database_name")?;
        let collection_name = required_text_field(doc, "collection_name")?;
        let bucket_name = optional_text_field(doc, "bucket_name")?;
        let data = match get_field(doc, "data") {
            Some(v) => TestData::from_value(v)?,
            None => {
                return Err(ShapeError {  });
            },
        };
        let tests = match optional_list_field(doc, "tests")? {
            Some(items) => tests_from(items)?,
            None => {
                return Err(ShapeError {  });
            },
        };
        Ok(TestFile { run_on, database_name, collection_name, bucket_name, data, tests })
    }
}

} // verus!
