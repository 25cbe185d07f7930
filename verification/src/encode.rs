//! The unified model written out as a generic document tree: which field
//! names a value is stored under, and which fields are left out when absent.

use crate::unified::{
    CreateEntity, CreateEntityView, EventKind, ExpectError, ExpectErrorView, ExpectEvent,
    ExpectEventView, ExpectEvents, ExpectEventsView, InitialData, InitialDataView,
    ObservedEvents, Operation, OperationView, RunOnRequirements, RunOnRequirementsView, Test,
    TestFile, TestFileView, TestView,
};
use crate::value::{with_field, DocView, Document, Value, ValueView};
use vstd::prelude::*;

verus! {

/// A list of strings as a list node.
pub open spec fn texts_value(items: Seq<Seq<char>>) -> ValueView {
    ValueView::Array(Seq::new(items.len(), |i: int| ValueView::Str(items[i])))
}

/// A list of documents as a list node.
pub open spec fn docs_value(docs: Seq<DocView>) -> ValueView {
    ValueView::Array(Seq::new(docs.len(), |i: int| ValueView::Doc(docs[i])))
}

/// The document with `key` set to `value` where there is one, and unchanged
/// where there is none.
pub open spec fn with_optional(doc: DocView, key: Seq<char>, value: Option<ValueView>) -> DocView {
    match value {
        Some(v) => with_field(doc, key, v),
        None => doc,
    }
}

/// An optional string as an optional string node.
pub open spec fn optional_text(s: Option<Seq<char>>) -> Option<ValueView> {
    match s {
        Some(t) => Some(ValueView::Str(t)),
        None => None,
    }
}

/// An optional list of strings as an optional list node.
pub open spec fn optional_texts(items: Option<Seq<Seq<char>>>) -> Option<ValueView> {
    match items {
        Some(t) => Some(texts_value(t)),
        None => None,
    }
}

/// An optional truth value as an optional node.
pub open spec fn optional_bool(b: Option<bool>) -> Option<ValueView> {
    match b {
        Some(t) => Some(ValueView::Bool(t)),
        None => None,
    }
}

/// An optional document as an optional node.
pub open spec fn optional_doc(d: Option<DocView>) -> Option<ValueView> {
    match d {
        Some(t) => Some(ValueView::Doc(t)),
        None => None,
    }
}

/// An optional string as a node that is null where there is none.
pub open spec fn text_or_null(s: Option<Seq<char>>) -> ValueView {
    match s {
        Some(t) => ValueView::Str(t),
        None => ValueView::Null,
    }
}

/// The name under which an event kind is observed.
pub open spec fn event_name(kind: EventKind) -> Seq<char> {
    match kind {
        EventKind::CommandStarted => "commandStartedEvent"@,
        EventKind::PoolCleared => "poolClearedEvent"@,
        EventKind::PoolReady => "poolReadyEvent"@,
        EventKind::ServerDescriptionChanged => "serverDescriptionChangedEvent"@,
    }
}

/// The names of `kind`, if the set holds it.
pub open spec fn name_if_observed(events: Set<EventKind>, kind: EventKind) -> Seq<ValueView> {
    if events.contains(kind) {
        seq![ValueView::Str(event_name(kind))]
    } else {
        Seq::empty()
    }
}

/// A set of event kinds as the list of their names, in a fixed order.
pub open spec fn events_value(events: Set<EventKind>) -> ValueView {
    ValueView::Array(
        name_if_observed(events, EventKind::CommandStarted) + name_if_observed(
            events,
            EventKind::PoolCleared,
        ) + name_if_observed(events, EventKind::PoolReady) + name_if_observed(
            events,
            EventKind::ServerDescriptionChanged,
        ),
    )
}

/// An optional set of event kinds as an optional list node.
pub open spec fn optional_events(events: Option<Set<EventKind>>) -> Option<ValueView> {
    match events {
        Some(t) => Some(events_value(t)),
        None => None,
    }
}

/// A document with one field.
pub open spec fn single(key: Seq<char>, value: ValueView) -> DocView {
    with_field(Seq::empty(), key, value)
}

/// The document of an entity directive: the kind of entity as the one field
/// name, the properties of the entity below it.
pub open spec fn entity_doc(entity: CreateEntityView) -> DocView {
    match entity {
        CreateEntityView::Client { id, observe_events, uri_options } => single(
            "client"@,
            ValueView::Doc(
                with_optional(
                    with_optional(
                        single("id"@, ValueView::Str(id)),
                        "observeEvents"@,
                        optional_events(observe_events),
                    ),
                    "uriOptions"@,
                    optional_doc(uri_options),
                ),
            ),
        ),
        CreateEntityView::Database { id, client, database_name } => single(
            "database"@,
            ValueView::Doc(
                with_field(
                    with_field(single("id"@, ValueView::Str(id)), "client"@, ValueView::Str(client)),
                    "databaseName"@,
                    ValueView::Str(database_name),
                ),
            ),
        ),
        CreateEntityView::Collection { id, database, collection_name } => single(
            "collection"@,
            ValueView::Doc(
                with_field(
                    with_field(
                        single("id"@, ValueView::Str(id)),
                        "database"@,
                        ValueView::Str(database),
                    ),
                    "collectionName"@,
                    ValueView::Str(collection_name),
                ),
            ),
        ),
        CreateEntityView::Thread { id } => single(
            "thread"@,
            ValueView::Doc(single("id"@, ValueView::Str(id))),
        ),
    }
}

/// A list of entity directives as a list node.
pub open spec fn entities_value(entities: Seq<CreateEntityView>) -> ValueView {
    ValueView::Array(Seq::new(entities.len(), |i: int| ValueView::Doc(entity_doc(entities[i]))))
}

/// An optional error code as an optional node.
pub open spec fn optional_code(code: Option<i32>) -> Option<ValueView> {
    match code {
        Some(c) => Some(ValueView::Int(c as i64)),
        None => None,
    }
}

/// The document of an expected error; absent properties are left out.
pub open spec fn expect_error_doc(e: ExpectErrorView) -> DocView {
    with_optional(
        with_optional(
            with_optional(
                with_optional(
                    with_optional(
                        with_optional(Seq::empty(), "isError"@, optional_bool(e.is_error)),
                        "errorContains"@,
                        optional_text(e.error_contains),
                    ),
                    "errorCode"@,
                    optional_code(e.error_code),
                ),
                "errorCodeName"@,
                optional_text(e.error_code_name),
            ),
            "errorLabelsContain"@,
            optional_texts(e.error_labels_contain),
        ),
        "errorLabelsOmit"@,
        optional_texts(e.error_labels_omit),
    )
}

/// An optional expected error as an optional node.
pub open spec fn optional_expect_error(e: Option<ExpectErrorView>) -> Option<ValueView> {
    match e {
        Some(t) => Some(ValueView::Doc(expect_error_doc(t))),
        None => None,
    }
}

/// The document of an operation; absent properties are left out.
pub open spec fn operation_doc(op: OperationView) -> DocView {
    with_optional(
        with_optional(
            with_optional(
                with_optional(
                    with_field(
                        single("name"@, ValueView::Str(op.name)),
                        "object"@,
                        ValueView::Str(op.object),
                    ),
                    "arguments"@,
                    optional_doc(op.arguments),
                ),
                "saveResultAsEntity"@,
                optional_text(op.save_result_as_entity),
            ),
            "expectResult"@,
            op.expect_result,
        ),
        "expectError"@,
        optional_expect_error(op.expect_error),
    )
}

/// Sets `key` to the string `s`.
pub fn set_text(doc: &mut Document, key: &str, s: &str)
    ensures
        final(doc)@ == with_field(old(doc)@, key@, ValueView::Str(s@)),
{
    doc.insert(key, Value::text(s));
}

/// Sets `key` to the string, where there is one.
pub fn set_optional_text(doc: &mut Document, key: &str, s: &Option<String>)
    ensures
        final(doc)@ == with_optional(old(doc)@, key@, optional_text(s.deep_view())),
{
    match s {
        Some(t) => {
            doc.insert(key, Value::text(t.as_str()));
        },
        None => {},
    }
}

/// Sets `key` to the truth value, where there is one.
pub fn set_optional_bool(doc: &mut Document, key: &str, b: &Option<bool>)
    ensures
        final(doc)@ == with_optional(old(doc)@, key@, optional_bool(*b)),
{
    match b {
        Some(t) => {
            doc.insert(key, Value::Bool(*t));
        },
        None => {},
    }
}

/// Sets `key` to a copy of the document, where there is one.
pub fn set_optional_doc(doc: &mut Document, key: &str, d: &Option<Document>)
    ensures
        final(doc)@ == with_optional(old(doc)@, key@, optional_doc(d.deep_view())),
{
    match d {
        Some(t) => {
            doc.insert(key, Value::Doc(t.clone()));
        },
        None => {},
    }
}

/// A list of strings as a list node.
pub fn texts_to_value(items: &Vec<String>) -> (r: Value)
    ensures
        r@ == texts_value(items.deep_view()),
{
    let mut out: Vec<Value> = Vec::new();
    let mut i: usize = 0;
    while i < items.len()
        invariant
            i <= items.len(),
            out.len() == i,
            forall|k: int| 0 <= k < i ==> (#[trigger] out@[k])@ == ValueView::Str(items@[k]@),
        decreases items.len() - i,
    {
        out.push(Value::text(items[i].as_str()));
        i += 1;
    }
    let r = Value::array(out);
    assert(r@->Array_0 =~= texts_value(items.deep_view())->Array_0);
    r
}

/// Sets `key` to the list of strings, where there is one.
pub fn set_optional_texts(doc: &mut Document, key: &str, items: &Option<Vec<String>>)
    ensures
        final(doc)@ == with_optional(old(doc)@, key@, optional_texts(items.deep_view())),
{
    match items {
        Some(t) => {
            doc.insert(key, texts_to_value(t));
        },
        None => {},
    }
}

/// A list of documents as a list node.
pub fn docs_to_value(docs: &Vec<Document>) -> (r: Value)
    ensures
        r@ == docs_value(docs.deep_view()),
{
    let mut out: Vec<Value> = Vec::new();
    let mut i: usize = 0;
    while i < docs.len()
        invariant
            i <= docs.len(),
            out.len() == i,
            forall|k: int| 0 <= k < i ==> (#[trigger] out@[k])@ == ValueView::Doc(docs@[k]@),
        decreases docs.len() - i,
    {
        out.push(Value::Doc(docs[i].clone()));
        i += 1;
    }
    let r = Value::array(out);
    assert(r@->Array_0 =~= docs_value(docs.deep_view())->Array_0);
    r
}

/// The name under which an event kind is observed.
pub fn event_name_of(kind: EventKind) -> (r: &'static str)
    ensures
        r@ == event_name(kind),
{
    match kind {
        EventKind::CommandStarted => "commandStartedEvent",
        EventKind::PoolCleared => "poolClearedEvent",
        EventKind::PoolReady => "poolReadyEvent",
        EventKind::ServerDescriptionChanged => "serverDescriptionChangedEvent",
    }
}

/// Appends the name of `kind` where the set holds it.
fn push_if_observed(out: &mut Vec<Value>, events: &ObservedEvents, kind: EventKind)
    ensures
        final(out).deep_view() == old(out).deep_view() + name_if_observed(events@, kind),
{
    if events.contains(kind) {
        out.push(Value::text(event_name_of(kind)));
    }
}

impl ObservedEvents {
    /// The set as the list of the names of its event kinds.
    pub fn to_value(&self) -> (r: Value)
        ensures
            r@ == events_value(self@),
    {
        let mut out: Vec<Value> = Vec::new();
        push_if_observed(&mut out, self, EventKind::CommandStarted);
        push_if_observed(&mut out, self, EventKind::PoolCleared);
        push_if_observed(&mut out, self, EventKind::PoolReady);
        push_if_observed(&mut out, self, EventKind::ServerDescriptionChanged);
        let r = Value::array(out);
        r
    }
}

impl CreateEntity {
    /// The directive as a document.
    pub fn to_document(&self) -> (r: Document)
        ensures
            r@ == entity_doc(self.deep_view()),
    {
        let mut inner = Document::new();
        let mut outer = Document::new();
        match self {
            CreateEntity::Client(c) => {
                set_text(&mut inner, "id", c.id.as_str());
                match &c.observe_events {
                    Some(events) => {
                        inner.insert("observeEvents", events.to_value());
                    },
                    None => {},
                }
                set_optional_doc(&mut inner, "uriOptions", &c.uri_options);
                outer.insert("client", Value::Doc(inner));
            },
            CreateEntity::Database(d) => {
                set_text(&mut inner, "id", d.id.as_str());
                set_text(&mut inner, "client", d.client.as_str());
                set_text(&mut inner, "databaseName", d.database_name.as_str());
                outer.insert("database", Value::Doc(inner));
            },
            CreateEntity::Collection(c) => {
                set_text(&mut inner, "id", c.id.as_str());
                set_text(&mut inner, "database", c.database.as_str());
                set_text(&mut inner, "collectionName", c.collection_name.as_str());
                outer.insert("collection", Value::Doc(inner));
            },
            CreateEntity::Thread { id } => {
                set_text(&mut inner, "id", id.as_str());
                outer.insert("thread", Value::Doc(inner));
            },
        }
        outer
    }
}

/// A list of entity directives as a list node.
pub fn entities_to_value(entities: &Vec<CreateEntity>) -> (r: Value)
    ensures
        r@ == entities_value(entities.deep_view()),
{
    let mut out: Vec<Value> = Vec::new();
    let mut i: usize = 0;
    while i < entities.len()
        invariant
            i <= entities.len(),
            out.len() == i,
            forall|k: int|
                0 <= k < i ==> (#[trigger] out@[k])@ == ValueView::Doc(
                    entity_doc(entities@[k].deep_view()),
                ),
        decreases entities.len() - i,
    {
        out.push(Value::Doc(entities[i].to_document()));
        i += 1;
    }
    let r = Value::array(out);
    assert(r@->Array_0 =~= entities_value(entities.deep_view())->Array_0);
    r
}

impl ExpectError {
    /// The expected error as a document.
    pub fn to_document(&self) -> (r: Document)
        ensures
            r@ == expect_error_doc(self.deep_view()),
    {
        let mut doc = Document::new();
        set_optional_bool(&mut doc, "isError", &self.is_error);
        set_optional_text(&mut doc, "errorContains", &self.error_contains);
        match self.error_code {
            Some(code) => {
                doc.insert("errorCode", Value::Int(code as i64));
            },
            None => {},
        }
        set_optional_text(&mut doc, "errorCodeName", &self.error_code_name);
        set_optional_texts(&mut doc, "errorLabelsContain", &self.error_labels_contain);
        set_optional_texts(&mut doc, "errorLabelsOmit", &self.error_labels_omit);
        doc
    }
}

impl Operation {
    /// The operation as a document.
    pub fn to_document(&self) -> (r: Document)
        ensures
            r@ == operation_doc(self.deep_view()),
    {
        let mut doc = Document::new();
        set_text(&mut doc, "name", self.name.as_str());
        set_text(&mut doc, "object", self.object.as_str());
        set_optional_doc(&mut doc, "arguments", &self.arguments);
        set_optional_text(&mut doc, "saveResultAsEntity", &self.save_result_as_entity);
        match &self.expect_result {
            Some(v) => {
                doc.insert("expectResult", v.clone());
            },
            None => {},
        }
        match &self.expect_error {
            Some(e) => {
                doc.insert("expectError", Value::Doc(e.to_document()));
            },
            None => {},
        }
        doc
    }
}

/// The document of a platform requirement; absent properties are left out.
pub open spec fn requirement_doc(r: RunOnRequirementsView) -> DocView {
    with_optional(
        with_optional(
            with_optional(
                with_optional(
                    Seq::empty(),
                    "minServerVersion"@,
                    optional_text(r.min_server_version),
                ),
                "maxServerVersion"@,
                optional_text(r.max_server_version),
            ),
            "topologies"@,
            optional_texts(r.topologies),
        ),
        "auth"@,
        optional_bool(r.auth),
    )
}

/// A list of platform requirements as a list node.
pub open spec fn requirements_value(items: Seq<RunOnRequirementsView>) -> ValueView {
    ValueView::Array(Seq::new(items.len(), |i: int| ValueView::Doc(requirement_doc(items[i]))))
}

/// The document of the data of one collection.
pub open spec fn initial_data_doc(d: InitialDataView) -> DocView {
    with_field(
        with_field(
            single("collectionName"@, ValueView::Str(d.collection_name)),
            "databaseName"@,
            ValueView::Str(d.database_name),
        ),
        "documents"@,
        docs_value(d.documents),
    )
}

/// A list of collection data as a list node.
pub open spec fn initial_data_value(items: Seq<InitialDataView>) -> ValueView {
    ValueView::Array(Seq::new(items.len(), |i: int| ValueView::Doc(initial_data_doc(items[i]))))
}

/// The document of one expected event: the kind of event as the one field
/// name, and below it the command, the command name and the database name,
/// the last two null where absent.
pub open spec fn expect_event_doc(e: ExpectEventView) -> DocView {
    single(
        "commandStartedEvent"@,
        ValueView::Doc(
            with_field(
                with_field(
                    single("command"@, ValueView::Doc(e.command)),
                    "commandName"@,
                    text_or_null(e.command_name),
                ),
                "databaseName"@,
                text_or_null(e.database_name),
            ),
        ),
    )
}

/// The document of the events expected of one client.
pub open spec fn expect_events_doc(e: ExpectEventsView) -> DocView {
    with_field(
        with_field(
            single("client"@, ValueView::Str(e.client)),
            "eventType"@,
            ValueView::Str(e.event_type),
        ),
        "events"@,
        ValueView::Array(
            Seq::new(e.events.len(), |i: int| ValueView::Doc(expect_event_doc(e.events[i]))),
        ),
    )
}

/// A list of event expectations as a list node.
pub open spec fn expect_events_value(items: Seq<ExpectEventsView>) -> ValueView {
    ValueView::Array(Seq::new(items.len(), |i: int| ValueView::Doc(expect_events_doc(items[i]))))
}

/// A list of operations as a list node.
pub open spec fn operations_value(items: Seq<OperationView>) -> ValueView {
    ValueView::Array(Seq::new(items.len(), |i: int| ValueView::Doc(operation_doc(items[i]))))
}

/// An optional list as an optional node.
pub open spec fn optional_list<T>(items: Option<Seq<T>>, encode: spec_fn(Seq<T>) -> ValueView)
    -> Option<ValueView> {
    match items {
        Some(t) => Some(encode(t)),
        None => None,
    }
}

/// The document of a test case; absent properties are left out.
pub open spec fn test_doc(t: TestView) -> DocView {
    with_optional(
        with_optional(
            with_field(
                with_optional(
                    single("description"@, ValueView::Str(t.description)),
                    "runOnRequirements"@,
                    optional_list(
                        t.run_on_requirements,
                        |r: Seq<RunOnRequirementsView>| requirements_value(r),
                    ),
                ),
                "operations"@,
                operations_value(t.operations),
            ),
            "expectEvents"@,
            optional_list(t.expect_events, |e: Seq<ExpectEventsView>| expect_events_value(e)),
        ),
        "outcome"@,
        optional_list(t.outcome, |d: Seq<InitialDataView>| initial_data_value(d)),
    )
}

/// A list of test cases as a list node.
pub open spec fn tests_value(items: Seq<TestView>) -> ValueView {
    ValueView::Array(Seq::new(items.len(), |i: int| ValueView::Doc(test_doc(items[i]))))
}

/// The document of a test file; absent properties are left out.
pub open spec fn test_file_doc(f: TestFileView) -> DocView {
    with_field(
        with_optional(
            with_optional(
                with_optional(
                    with_field(
                        single("description"@, ValueView::Str(f.description)),
                        "schemaVersion"@,
                        ValueView::Str(f.schema_version),
                    ),
                    "runOnRequirements"@,
                    optional_list(
                        f.run_on_requirements,
                        |r: Seq<RunOnRequirementsView>| requirements_value(r),
                    ),
                ),
                "createEntities"@,
                optional_list(f.create_entities, |e: Seq<CreateEntityView>| entities_value(e)),
            ),
            "initialData"@,
            optional_list(f.initial_data, |d: Seq<InitialDataView>| initial_data_value(d)),
        ),
        "tests"@,
        tests_value(f.tests),
    )
}

impl RunOnRequirements {
    /// The requirement as a document.
    pub fn to_document(&self) -> (r: Document)
        ensures
            r@ == requirement_doc(self.deep_view()),
    {
        let mut doc = Document::new();
        set_optional_text(&mut doc, "minServerVersion", &self.min_server_version);
        set_optional_text(&mut doc, "maxServerVersion", &self.max_server_version);
        set_optional_texts(&mut doc, "topologies", &self.topologies);
        set_optional_bool(&mut doc, "auth", &self.auth);
        doc
    }
}

/// A list of platform requirements as a list node.
pub fn requirements_to_value(items: &Vec<RunOnRequirements>) -> (r: Value)
    ensures
        r@ == requirements_value(items.deep_view()),
{
    let mut out: Vec<Value> = Vec::new();
    let mut i: usize = 0;
    while i < items.len()
        invariant
            i <= items.len(),
            out.len() == i,
            forall|k: int|
                0 <= k < i ==> (#[trigger] out@[k])@ == ValueView::Doc(
                    requirement_doc(items@[k].deep_view()),
                ),
        decreases items.len() - i,
    {
        out.push(Value::Doc(items[i].to_document()));
        i += 1;
    }
    let r = Value::array(out);
    assert(r@->Array_0 =~= requirements_value(items.deep_view())->Array_0);
    r
}

impl InitialData {
    /// The data of one collection as a document.
    pub fn to_document(&self) -> (r: Document)
        ensures
            r@ == initial_data_doc(self.deep_view()),
    {
        let mut doc = Document::new();
        set_text(&mut doc, "collectionName", self.collection_name.as_str());
        set_text(&mut doc, "databaseName", self.database_name.as_str());
        doc.insert("documents", docs_to_value(&self.documents));
        doc
    }
}

/// A list of collection data as a list node.
pub fn initial_data_to_value(items: &Vec<InitialData>) -> (r: Value)
    ensures
        r@ == initial_data_value(items.deep_view()),
{
    let mut out: Vec<Value> = Vec::new();
    let mut i: usize = 0;
    while i < items.len()
        invariant
            i <= items.len(),
            out.len() == i,
            forall|k: int|
                0 <= k < i ==> (#[trigger] out@[k])@ == ValueView::Doc(
                    initial_data_doc(items@[k].deep_view()),
                ),
        decreases items.len() - i,
    {
        out.push(Value::Doc(items[i].to_document()));
        i += 1;
    }
    let r = Value::array(out);
    assert(r@->Array_0 =~= initial_data_value(items.deep_view())->Array_0);
    r
}

/// An optional string as a node that is null where there is none.
fn text_or_null_value(s: &Option<String>) -> (r: Value)
    ensures
        r@ == text_or_null(s.deep_view()),
{
    match s {
        Some(t) => Value::text(t.as_str()),
        None => Value::Null,
    }
}

impl ExpectEvent {
    /// The expected event as a document.
    pub fn to_document(&self) -> (r: Document)
        ensures
            r@ == expect_event_doc(self.deep_view()),
    {
        match self {
            ExpectEvent::CommandStartedEvent { command, command_name, database_name } => {
                let mut inner = Document::new();
                inner.insert("command", Value::Doc(command.clone()));
                inner.insert("commandName", text_or_null_value(command_name));
                inner.insert("databaseName", text_or_null_value(database_name));
                let mut outer = Document::new();
                outer.insert("commandStartedEvent", Value::Doc(inner));
                outer
            },
        }
    }
}

impl ExpectEvents {
    /// The events expected of one client as a document.
    pub fn to_document(&self) -> (r: Document)
        ensures
            r@ == expect_events_doc(self.deep_view()),
    {
        let mut out: Vec<Value> = Vec::new();
        let mut i: usize = 0;
        while i < self.events.len()
            invariant
                i <= self.events.len(),
                out.len() == i,
                forall|k: int|
                    0 <= k < i ==> (#[trigger] out@[k])@ == ValueView::Doc(
                        expect_event_doc(self.events@[k].deep_view()),
                    ),
            decreases self.events.len() - i,
        {
            out.push(Value::Doc(self.events[i].to_document()));
            i += 1;
        }
        let events = Value::array(out);
        assert(events@->Array_0 =~= Seq::new(
            self.deep_view().events.len(),
            |i: int| ValueView::Doc(expect_event_doc(self.deep_view().events[i])),
        ));
        let mut doc = Document::new();
        set_text(&mut doc, "client", self.client.as_str());
        set_text(&mut doc, "eventType", self.event_type.as_str());
        doc.insert("events", events);
        doc
    }
}

/// A list of event expectations as a list node.
pub fn expect_events_to_value(items: &Vec<ExpectEvents>) -> (r: Value)
    ensures
        r@ == expect_events_value(items.deep_view()),
{
    let mut out: Vec<Value> = Vec::new();
    let mut i: usize = 0;
    while i < items.len()
        invariant
            i <= items.len(),
            out.len() == i,
            forall|k: int|
                0 <= k < i ==> (#[trigger] out@[k])@ == ValueView::Doc(
                    expect_events_doc(items@[k].deep_view()),
                ),
        decreases items.len() - i,
    {
        out.push(Value::Doc(items[i].to_document()));
        i += 1;
    }
    let r = Value::array(out);
    assert(r@->Array_0 =~= expect_events_value(items.deep_view())->Array_0);
    r
}

/// A list of operations as a list node.
pub fn operations_to_value(items: &Vec<Operation>) -> (r: Value)
    ensures
        r@ == operations_value(items.deep_view()),
{
    let mut out: Vec<Value> = Vec::new();
    let mut i: usize = 0;
    while i < items.len()
        invariant
            i <= items.len(),
            out.len() == i,
            forall|k: int|
                0 <= k < i ==> (#[trigger] out@[k])@ == ValueView::Doc(
                    operation_doc(items@[k].deep_view()),
                ),
        decreases items.len() - i,
    {
        out.push(Value::Doc(items[i].to_document()));
        i += 1;
    }
    let r = Value::array(out);
    assert(r@->Array_0 =~= operations_value(items.deep_view())->Array_0);
    r
}

impl Test {
    /// The test case as a document.
    pub fn to_document(&self) -> (r: Document)
        ensures
            r@ == test_doc(self.deep_view()),
    {
        let mut doc = Document::new();
        set_text(&mut doc, "description", self.description.as_str());
        match &self.run_on_requirements {
            Some(items) => {
                doc.insert("runOnRequirements", requirements_to_value(items));
            },
            None => {},
        }
        doc.insert("operations", operations_to_value(&self.operations));
        match &self.expect_events {
            Some(items) => {
                doc.insert("expectEvents", expect_events_to_value(items));
            },
            None => {},
        }
        match &self.outcome {
            Some(items) => {
                doc.insert("outcome", initial_data_to_value(items));
            },
            None => {},
        }
        doc
    }
}

/// A list of test cases as a list node.
pub fn tests_to_value(items: &Vec<Test>) -> (r: Value)
    ensures
        r@ == tests_value(items.deep_view()),
{
    let mut out: Vec<Value> = Vec::new();
    let mut i: usize = 0;
    while i < items.len()
        invariant
            i <= items.len(),
            out.len() == i,
            forall|k: int|
                0 <= k < i ==> (#[trigger] out@[k])@ == ValueView::Doc(
                    test_doc(items@[k].deep_view()),
                ),
        decreases items.len() - i,
    {
        out.push(Value::Doc(items[i].to_document()));
        i += 1;
    }
    let r = Value::array(out);
    assert(r@->Array_0 =~= tests_value(items.deep_view())->Array_0);
    r
}

impl TestFile {
    /// The test file as a document, ready to be rendered.
    pub fn to_document(&self) -> (r: Document)
        ensures
            r@ == test_file_doc(self.deep_view()),
    {
        let mut doc = Document::new();
        set_text(&mut doc, "description", self.description.as_str());
        set_text(&mut doc, "schemaVersion", self.schema_version.as_str());
        match &self.run_on_requirements {
            Some(items) => {
                doc.insert("runOnRequirements", requirements_to_value(items));
            },
            None => {},
        }
        match &self.create_entities {
            Some(items) => {
                doc.insert("createEntities", entities_to_value(items));
            },
            None => {},
        }
        match &self.initial_data {
            Some(items) => {
                doc.insert("initialData", initial_data_to_value(items));
            },
            None => {},
        }
        doc.insert("tests", tests_to_value(&self.tests));
        doc
    }
}

} // verus!
