//! Where a converted file declares the names that its reference tokens stand
//! for, and how often.
//!
//! A name is declared by an entity directive (of the file, or of an
//! operation that creates entities), by an operation that records the
//! topology description, or by the initial data of the file. An operation
//! counts whether it is an operation of a test case or runs on a thread, at
//! any depth.
//!
//! The counts are stated of a legacy file in which no string among the
//! arguments of an operation is itself a definition token.

use crate::convert::{
    converted, converted_test, converted_tests, create_entities_operation, entity_id,
    fail_point_operation, leading_operations, scope_entities, shared_entities, translated_all,
    uses_admin_command, uses_fail_point,
};
use crate::crud_v2;
use crate::encode::{
    entities_value, entity_doc, events_value, expect_error_doc, operation_doc, single,
};
use crate::tokens::{is_scoped, lemma_tokens_injective, token_text, TokenKind, TokenRole};
use crate::translate::{
    completed, is_event_operation, lemma_nested_smaller, nested_operation, observed,
    operation_size, target_of, thread_scope, token_value, translated, ConvertError,
};
use crate::unified::{CreateEntityView, InitialDataView, OperationView, TestFileView, TestView};
use crate::value::{
    doc_size, has_key, lemma_lookup_size, lemma_position, lemma_with_field,
    lemma_with_field_other, lookup, lookup_doc, lookup_str, position, with_field, DocView,
    ValueView,
};
use vstd::prelude::*;

verus! {

/// An entity directive that declares `id`: a document whose one field holds
/// the properties of the entity, with `id` as its identifier.
pub open spec fn directive_declares(v: ValueView, id: Seq<char>) -> bool {
    &&& v matches ValueView::Doc(d)
    &&& d.len() == 1
    &&& d[0].1 matches ValueView::Doc(properties)
    &&& lookup_str(properties, "id"@) == Some(id)
}

/// How many of the first `n` directives declare `id`.
pub open spec fn directives_declaring(items: Seq<ValueView>, n: nat, id: Seq<char>) -> nat
    decreases n,
{
    if n == 0 || n > items.len() {
        0
    } else {
        directives_declaring(items, (n - 1) as nat, id) + if directive_declares(items[n - 1], id) {
            1nat
        } else {
            0nat
        }
    }
}

/// The size of the arguments of an operation, where it has some.
pub open spec fn arguments_size(arguments: Option<DocView>) -> nat {
    match arguments {
        Some(args) => doc_size(args),
        None => 0,
    }
}

/// How often an operation of the given name and arguments declares `id`:
/// once for each of its directives that does where it creates entities, once
/// where it records the topology description under `id`, and as often as the
/// operation that it runs where it runs one on a thread.
pub open spec fn declaring(name: Seq<char>, arguments: Option<DocView>, id: Seq<char>) -> nat
    decreases arguments_size(arguments),
{
    match arguments {
        None => 0,
        Some(args) => if name == "createEntities"@ {
            match lookup(args, "entities"@) {
                Some(ValueView::Array(items)) => directives_declaring(items, items.len(), id),
                _ => 0,
            }
        } else if name == "recordTopologyDescription"@ {
            if lookup_str(args, "id"@) == Some(id) {
                1
            } else {
                0
            }
        } else if name == "runOnThread"@ {
            match lookup(args, "operation"@) {
                Some(ValueView::Doc(nested)) => match lookup_str(nested, "name"@) {
                    Some(nested_name) => {
                        proof {
                            lemma_lookup_size(args, "operation"@);
                            lemma_lookup_size(nested, "arguments"@);
                        }
                        declaring(nested_name, lookup_doc(nested, "arguments"@), id)
                    },
                    None => 0,
                },
                _ => 0,
            }
        } else {
            0
        },
    }
}

/// How often an operation declares `id`, by itself or by an operation that
/// it runs on a thread.
pub open spec fn operation_declaring(op: OperationView, id: Seq<char>) -> nat {
    declaring(op.name, op.arguments, id)
}

/// How often the first `n` operations declare `id`.
pub open spec fn operations_declaring(ops: Seq<OperationView>, n: nat, id: Seq<char>) -> nat
    decreases n,
{
    if n == 0 || n > ops.len() {
        0
    } else {
        operations_declaring(ops, (n - 1) as nat, id) + operation_declaring(ops[n - 1], id)
    }
}

/// How often the first `n` test cases declare `id`.
pub open spec fn tests_declaring(tests: Seq<TestView>, n: nat, id: Seq<char>) -> nat
    decreases n,
{
    if n == 0 || n > tests.len() {
        0
    } else {
        tests_declaring(tests, (n - 1) as nat, id) + operations_declaring(
            tests[n - 1].operations,
            tests[n - 1].operations.len(),
            id,
        )
    }
}

/// How many of the first `n` entity directives of a file declare `id`.
pub open spec fn entities_declaring(entities: Seq<CreateEntityView>, n: nat, id: Seq<char>) -> nat
    decreases n,
{
    if n == 0 || n > entities.len() {
        0
    } else {
        entities_declaring(entities, (n - 1) as nat, id) + if entity_id(entities[n - 1]) == id {
            1nat
        } else {
            0nat
        }
    }
}

/// How often the first `n` blocks of initial data declare `id`, as the name
/// of a collection or of a database.
pub open spec fn data_declaring(data: Seq<InitialDataView>, n: nat, id: Seq<char>) -> nat
    decreases n,
{
    if n == 0 || n > data.len() {
        0
    } else {
        data_declaring(data, (n - 1) as nat, id) + (if data[n - 1].collection_name == id {
            1nat
        } else {
            0nat
        }) + (if data[n - 1].database_name == id {
            1nat
        } else {
            0nat
        })
    }
}

/// How often a file declares `id`.
pub open spec fn file_declaring(file: TestFileView, id: Seq<char>) -> nat {
    (match file.create_entities {
        Some(entities) => entities_declaring(entities, entities.len(), id),
        None => 0,
    }) + (match file.initial_data {
        Some(data) => data_declaring(data, data.len(), id),
        None => 0,
    }) + tests_declaring(file.tests, file.tests.len(), id)
}

/// Whether the conversion of a legacy operation declares the name of the
/// given kind and scope id: recording the primary declares the topology
/// description of the test case, starting a thread declares that thread.
pub open spec fn asks_for(op: crud_v2::OperationView, scope: nat, kind: TokenKind, m: nat) -> bool {
    ||| op.name == "recordPrimary"@ && kind == TokenKind::TopologyDescription && m == scope
    ||| {
        &&& op.name == "startThread"@
        &&& kind == TokenKind::Thread
        &&& op.arguments matches Some(args)
        &&& lookup_str(args, "name"@) matches Some(name)
        &&& thread_scope(name) == Some(m)
    }
}

/// How often the conversion of a legacy operation declares the name of the
/// given kind and scope id: by the operation itself, and by the operation
/// that it runs on a thread.
pub open spec fn asking(op: crud_v2::OperationView, scope: nat, kind: TokenKind, m: nat) -> nat
    decreases operation_size(op),
{
    (if asks_for(op, scope, kind, m) {
        1nat
    } else {
        0nat
    }) + match nested_operation(op) {
        Some(nested) => {
            proof {
                lemma_nested_smaller(op.arguments->0);
            }
            asking(nested, scope, kind, m)
        },
        None => 0,
    }
}

/// How often the first `n` legacy operations ask for the name of the given
/// kind and scope id.
pub open spec fn asking_operations(
    ops: Seq<crud_v2::OperationView>,
    scope: nat,
    n: nat,
    kind: TokenKind,
    m: nat,
) -> nat
    decreases n,
{
    if n == 0 || n > ops.len() {
        0
    } else {
        asking_operations(ops, scope, (n - 1) as nat, kind, m) + asking(
            ops[n - 1],
            scope,
            kind,
            m,
        )
    }
}

/// Whether the kind is one of the three entities that every test case gets.
pub open spec fn in_triple(kind: TokenKind) -> bool {
    kind == TokenKind::Client || kind == TokenKind::Database || kind == TokenKind::Collection
}

/// How often the first `n` legacy test cases ask for the name of the given
/// kind and scope id: once by the triple of the test case of that scope id,
/// and once by each operation that asks for it.
pub open spec fn asking_tests(tests: Seq<crud_v2::TestView>, n: nat, kind: TokenKind, m: nat) -> nat
    decreases n,
{
    if n == 0 || n > tests.len() {
        0
    } else {
        asking_tests(tests, (n - 1) as nat, kind, m) + (if in_triple(kind) && m == n - 1 {
            1nat
        } else {
            0nat
        }) + asking_operations(
            tests[n - 1].operations,
            (n - 1) as nat,
            tests[n - 1].operations.len(),
            kind,
            m,
        )
    }
}

/// How often a legacy file asks for the name of the given kind and scope id.
pub open spec fn asking_file(suite: crud_v2::TestFileView, kind: TokenKind, m: nat) -> nat {
    let shared: nat = match kind {
        TokenKind::SetupClient => if uses_fail_point(suite.tests) || uses_admin_command(
            suite.tests,
        ) {
            1
        } else {
            0
        },
        TokenKind::AdminDatabase => if uses_admin_command(suite.tests) {
            1
        } else {
            0
        },
        TokenKind::DatabaseName => 1,
        TokenKind::CollectionName => 1,
        _ => 0,
    };
    shared + asking_tests(suite.tests, suite.tests.len(), kind, m)
}

/// Whether a text is a definition token.
pub open spec fn is_definition(text: Seq<char>) -> bool {
    exists|kind: TokenKind, m: nat| text == #[trigger] token_text(kind, TokenRole::Definition, m)
}

/// No string of the tree is a definition token.
pub open spec fn free_of_definitions(v: ValueView) -> bool
    decreases v,
{
    match v {
        ValueView::Str(text) => !is_definition(text),
        ValueView::Array(items) => items_free(items, items.len()),
        ValueView::Doc(fields) => fields_free(fields, fields.len()),
        _ => true,
    }
}

/// No string of the first `n` items is a definition token.
pub open spec fn items_free(items: Seq<ValueView>, n: nat) -> bool
    decreases items, n,
{
    n == 0 || n > items.len() || (items_free(items, (n - 1) as nat) && free_of_definitions(
        items[n - 1],
    ))
}

/// No string of the values of the first `n` fields is a definition token.
pub open spec fn fields_free(fields: DocView, n: nat) -> bool
    decreases fields, n,
{
    n == 0 || n > fields.len() || (fields_free(fields, (n - 1) as nat) && free_of_definitions(
        fields[n - 1].1,
    ))
}

/// Each of the first items holds no definition token where together they
/// hold none.
pub proof fn lemma_items_free(items: Seq<ValueView>, n: nat, i: int)
    requires
        0 <= i < n <= items.len(),
        items_free(items, n),
    ensures
        free_of_definitions(items[i]),
    decreases n,
{
    if i < n - 1 {
        lemma_items_free(items, (n - 1) as nat, i);
    }
}

/// The value of each of the first fields holds no definition token where
/// together they hold none.
pub proof fn lemma_fields_free(fields: DocView, n: nat, i: int)
    requires
        0 <= i < n <= fields.len(),
        fields_free(fields, n),
    ensures
        free_of_definitions(fields[i].1),
    decreases n,
{
    if i < n - 1 {
        lemma_fields_free(fields, (n - 1) as nat, i);
    }
}

/// No string among the arguments of the legacy operation is a definition
/// token.
pub open spec fn holds_no_definition(op: crud_v2::OperationView) -> bool {
    op.arguments matches Some(args) ==> free_of_definitions(ValueView::Doc(args))
}

/// What a lookup finds in a document without definition tokens holds none.
pub proof fn lemma_lookup_free(doc: DocView, key: Seq<char>)
    requires
        free_of_definitions(ValueView::Doc(doc)),
    ensures
        lookup(doc, key) matches Some(v) ==> free_of_definitions(v),
{
    lemma_position(doc, key);
    if has_key(doc, key) {
        lemma_fields_free(doc, doc.len(), position(doc, key));
    }
}

/// The operation that runs on a thread holds no definition token where the
/// operation that runs it holds none.
pub proof fn lemma_nested_free(op: crud_v2::OperationView)
    requires
        holds_no_definition(op),
    ensures
        nested_operation(op) matches Some(nested) ==> holds_no_definition(nested),
{
    match op.arguments {
        Some(args) => {
            lemma_lookup_free(args, "operation"@);
            match lookup(args, "operation"@) {
                Some(ValueView::Doc(inner)) => {
                    lemma_lookup_free(inner, "arguments"@);
                },
                _ => {},
            }
        },
        None => {},
    }
}

/// Directives without definition tokens declare no definition token.
pub proof fn lemma_free_directives(items: Seq<ValueView>, n: nat, id: Seq<char>)
    requires
        n <= items.len(),
        free_of_definitions(ValueView::Array(items)),
        is_definition(id),
    ensures
        directives_declaring(items, n, id) == 0,
    decreases n,
{
    if n > 0 {
        lemma_free_directives(items, (n - 1) as nat, id);
        let item = items[n - 1];
        lemma_items_free(items, items.len(), n - 1);
        if directive_declares(item, id) {
            let d = item->Doc_0;
            lemma_fields_free(d, d.len(), 0);
            lemma_lookup_free(d[0].1->Doc_0, "id"@);
        }
    }
}

/// An operation that is not run on a thread and whose arguments hold no
/// definition token declares no definition token.
pub proof fn lemma_free_declares_nothing(name: Seq<char>, args: DocView, id: Seq<char>)
    requires
        free_of_definitions(ValueView::Doc(args)),
        is_definition(id),
        name != "runOnThread"@,
    ensures
        declaring(name, Some(args), id) == 0,
{
    if name == "createEntities"@ {
        lemma_lookup_free(args, "entities"@);
        match lookup(args, "entities"@) {
            Some(ValueView::Array(items)) => {
                lemma_free_directives(items, items.len(), id);
            },
            _ => {},
        }
    } else if name == "recordTopologyDescription"@ {
        lemma_lookup_free(args, "id"@);
    }
}

/// A document with one field holds that field, and nothing else.
pub proof fn lemma_single(key: Seq<char>, value: ValueView)
    ensures
        single(key, value) == seq![(key, value)],
        lookup(single(key, value), key) == Some(value),
{
    lemma_with_field(Seq::empty(), key, value);
    assert(single(key, value) =~= seq![(key, value)]);
}

/// Two definition tokens are the same text exactly when they are of the same
/// kind and, for a scoped kind, of the same scope id.
pub proof fn lemma_same_definition(kind1: TokenKind, m1: nat, kind2: TokenKind, m2: nat)
    ensures
        token_text(kind1, TokenRole::Definition, m1) == token_text(
            kind2,
            TokenRole::Definition,
            m2,
        ) <==> kind1 == kind2 && (is_scoped(kind1) ==> m1 == m2),
{
    if token_text(kind1, TokenRole::Definition, m1) == token_text(
        kind2,
        TokenRole::Definition,
        m2,
    ) {
        lemma_tokens_injective(
            kind1,
            TokenRole::Definition,
            m1,
            kind2,
            TokenRole::Definition,
            m2,
        );
    }
}

/// No other property of an entity is named `id`.
proof fn lemma_other_properties()
    ensures
        "id"@ != "observeEvents"@,
        "id"@ != "uriOptions"@,
        "id"@ != "client"@,
        "id"@ != "databaseName"@,
        "id"@ != "database"@,
        "id"@ != "collectionName"@,
{
    reveal_strlit("id");
    reveal_strlit("observeEvents");
    reveal_strlit("uriOptions");
    reveal_strlit("client");
    reveal_strlit("databaseName");
    reveal_strlit("database");
    reveal_strlit("collectionName");
    assert("id"@.len() == 2);
    assert("observeEvents"@.len() == 13);
    assert("uriOptions"@.len() == 10);
    assert("client"@.len() == 6);
    assert("databaseName"@.len() == 12);
    assert("database"@.len() == 8);
    assert("collectionName"@.len() == 14);
}

/// The directive of an entity declares the identifier of the entity, and no
/// other.
pub proof fn lemma_directive(entity: CreateEntityView, id: Seq<char>)
    ensures
        directive_declares(ValueView::Doc(entity_doc(entity)), id) <==> entity_id(entity) == id,
{
    lemma_other_properties();
    let own = ValueView::Str(entity_id(entity));
    lemma_single("id"@, own);
    match entity {
        CreateEntityView::Client { id: own_id, observe_events, uri_options } => {
            let first = single("id"@, own);
            let second = match observe_events {
                Some(events) => {
                    let value = events_value(events);
                    lemma_with_field_other(first, "observeEvents"@, value, "id"@);
                    with_field(first, "observeEvents"@, value)
                },
                None => first,
            };
            let third = match uri_options {
                Some(options) => {
                    lemma_with_field_other(second, "uriOptions"@, ValueView::Doc(options), "id"@);
                    with_field(second, "uriOptions"@, ValueView::Doc(options))
                },
                None => second,
            };
            lemma_single("client"@, ValueView::Doc(third));
        },
        CreateEntityView::Database { id: own_id, client, database_name } => {
            let first = single("id"@, own);
            let second = with_field(first, "client"@, ValueView::Str(client));
            lemma_with_field_other(first, "client"@, ValueView::Str(client), "id"@);
            lemma_with_field_other(
                second,
                "databaseName"@,
                ValueView::Str(database_name),
                "id"@,
            );
            let third = with_field(
                second,
                "databaseName"@,
                ValueView::Str(database_name),
            );
            lemma_single("database"@, ValueView::Doc(third));
        },
        CreateEntityView::Collection { id: own_id, database, collection_name } => {
            let first = single("id"@, own);
            let second = with_field(first, "database"@, ValueView::Str(database));
            lemma_with_field_other(first, "database"@, ValueView::Str(database), "id"@);
            lemma_with_field_other(
                second,
                "collectionName"@,
                ValueView::Str(collection_name),
                "id"@,
            );
            let third = with_field(
                second,
                "collectionName"@,
                ValueView::Str(collection_name),
            );
            lemma_single("collection"@, ValueView::Doc(third));
        },
        CreateEntityView::Thread { id: own_id } => {
            lemma_single("thread"@, ValueView::Doc(single("id"@, own)));
        },
    }
}

/// The directives of a list of entities declare an identifier as often as
/// the entities have it.
pub proof fn lemma_directives(entities: Seq<CreateEntityView>, n: nat, id: Seq<char>)
    requires
        n <= entities.len(),
    ensures
        directives_declaring(entities_value(entities)->Array_0, n, id) == entities_declaring(
            entities,
            n,
            id,
        ),
    decreases n,
{
    if n > 0 {
        lemma_directives(entities, (n - 1) as nat, id);
        lemma_directive(entities[n - 1], id);
    }
}

/// The names of the unified operations that the conversion gives by itself
/// differ from each other.
proof fn lemma_operation_names()
    ensures
        "recordTopologyDescription"@ != "createEntities"@,
        "runCommand"@ != "createEntities"@,
        "runCommand"@ != "recordTopologyDescription"@,
        "failPoint"@ != "createEntities"@,
        "failPoint"@ != "recordTopologyDescription"@,
        "failPoint"@ != "runOnThread"@,
        "runCommand"@ != "runOnThread"@,
        "createEntities"@ != "runOnThread"@,
        "recordTopologyDescription"@ != "runOnThread"@,
{
    reveal_strlit("recordTopologyDescription");
    reveal_strlit("createEntities");
    reveal_strlit("runCommand");
    reveal_strlit("failPoint");
    reveal_strlit("runOnThread");
    assert("runOnThread"@.len() == 11);
    assert("recordTopologyDescription"@.len() == 25);
    assert("createEntities"@.len() == 14);
    assert("runCommand"@.len() == 10);
    assert("failPoint"@.len() == 9);
}

/// The operation that creates the given entities declares an identifier as
/// often as the entities have it.
pub proof fn lemma_create_entities(entities: Seq<CreateEntityView>, id: Seq<char>)
    ensures
        operation_declaring(create_entities_operation(entities), id) == entities_declaring(
            entities,
            entities.len(),
            id,
        ),
{
    lemma_single("entities"@, entities_value(entities));
    lemma_directives(entities, entities.len(), id);
}

/// Whether a legacy operation of this name becomes a unified operation of
/// the same name with the same arguments.
pub open spec fn keeps_arguments(name: Seq<char>) -> bool {
    &&& !is_event_operation(name)
    &&& name != "recordPrimary"@
    &&& name != "waitForPrimaryChange"@
    &&& name != "runAdminCommand"@
    &&& name != "runCommand"@
    &&& name != "startThread"@
    &&& name != "runOnThread"@
    &&& name != "waitForThread"@
    &&& name != "configureFailPoint"@
}

/// The names of the properties of an operation differ from each other.
proof fn lemma_operation_properties()
    ensures
        "name"@ != "object"@,
        "name"@ != "arguments"@,
        "name"@ != "saveResultAsEntity"@,
        "name"@ != "expectResult"@,
        "name"@ != "expectError"@,
        "arguments"@ != "object"@,
        "arguments"@ != "saveResultAsEntity"@,
        "arguments"@ != "expectResult"@,
        "arguments"@ != "expectError"@,
{
    reveal_strlit("name");
    reveal_strlit("object");
    reveal_strlit("arguments");
    reveal_strlit("saveResultAsEntity");
    reveal_strlit("expectResult");
    reveal_strlit("expectError");
    assert("name"@.len() == 4);
    assert("object"@.len() == 6);
    assert("arguments"@.len() == 9);
    assert("saveResultAsEntity"@.len() == 18);
    assert("expectResult"@.len() == 12);
    assert("expectError"@.len() == 11);
}

/// The document of an operation holds its name and its arguments under
/// their names.
pub proof fn lemma_operation_doc(op: OperationView)
    ensures
        lookup_str(operation_doc(op), "name"@) == Some(op.name),
        lookup_doc(operation_doc(op), "arguments"@) == op.arguments,
{
    lemma_operation_properties();
    let first = single("name"@, ValueView::Str(op.name));
    lemma_single("name"@, ValueView::Str(op.name));
    lemma_with_field_other(Seq::empty(), "name"@, ValueView::Str(op.name), "arguments"@);
    let second = with_field(first, "object"@, ValueView::Str(op.object));
    lemma_with_field_other(first, "object"@, ValueView::Str(op.object), "name"@);
    lemma_with_field_other(first, "object"@, ValueView::Str(op.object), "arguments"@);
    let third = match op.arguments {
        Some(args) => {
            lemma_with_field(second, "arguments"@, ValueView::Doc(args));
            lemma_with_field_other(second, "arguments"@, ValueView::Doc(args), "name"@);
            with_field(second, "arguments"@, ValueView::Doc(args))
        },
        None => second,
    };
    let fourth = match op.save_result_as_entity {
        Some(saved) => {
            lemma_with_field_other(third, "saveResultAsEntity"@, ValueView::Str(saved), "name"@);
            lemma_with_field_other(
                third,
                "saveResultAsEntity"@,
                ValueView::Str(saved),
                "arguments"@,
            );
            with_field(third, "saveResultAsEntity"@, ValueView::Str(saved))
        },
        None => third,
    };
    let fifth = match op.expect_result {
        Some(result) => {
            lemma_with_field_other(fourth, "expectResult"@, result, "name"@);
            lemma_with_field_other(fourth, "expectResult"@, result, "arguments"@);
            with_field(fourth, "expectResult"@, result)
        },
        None => fourth,
    };
    match op.expect_error {
        Some(error) => {
            let value = ValueView::Doc(expect_error_doc(error));
            lemma_with_field_other(fifth, "expectError"@, value, "name"@);
            lemma_with_field_other(fifth, "expectError"@, value, "arguments"@);
        },
        None => {},
    }
}

/// The unified operation that a legacy operation becomes declares the name
/// of a kind and scope id as often as the legacy operation asks for it, by
/// itself or by an operation that it runs on a thread.
pub proof fn lemma_operation_declares(
    op: crud_v2::OperationView,
    scope: nat,
    kind: TokenKind,
    m: nat,
)
    requires
        translated(op, scope) is Ok,
        holds_no_definition(op),
    ensures
        operation_declaring(
            translated(op, scope)->Ok_0,
            token_text(kind, TokenRole::Definition, m),
        ) == asking(op, scope, kind, m),
    decreases operation_size(op),
{
    let id = token_text(kind, TokenRole::Definition, m);
    lemma_operation_names();
    reveal_strlit("recordPrimary");
    reveal_strlit("startThread");
    reveal_strlit("waitForEvent");
    reveal_strlit("assertEventCount");
    reveal_strlit("waitForPrimaryChange");
    reveal_strlit("runAdminCommand");
    reveal_strlit("runCommand");
    reveal_strlit("runOnThread");
    reveal_strlit("createEntities");
    reveal_strlit("recordTopologyDescription");
    reveal_strlit("failPoint");
    assert("recordPrimary"@.len() == 13);
    assert("startThread"@.len() == 11);
    assert("waitForEvent"@.len() == 12);
    assert("assertEventCount"@.len() == 16);
    assert("waitForPrimaryChange"@.len() == 20);
    assert("runAdminCommand"@.len() == 15);
    assert("runCommand"@.len() == 10);
    assert("runOnThread"@.len() == 11);
    assert("createEntities"@.len() == 14);
    assert("recordTopologyDescription"@.len() == 25);
    assert("failPoint"@.len() == 9);
    reveal_strlit("waitForThread");
    assert("waitForThread"@.len() == 13);
    assert("runOnThread"@[0] == 'r');
    assert("startThread"@[0] == 's');
    assert(is_definition(id));
    if keeps_arguments(op.name) {
        match op.arguments {
            Some(args) => {
                lemma_free_declares_nothing(op.name, args, id);
            },
            None => {},
        }
    } else if op.name == "recordPrimary"@ {
        lemma_with_field(
            single("client"@, token_value(TokenKind::Client, TokenRole::Deref, scope)),
            "id"@,
            token_value(TokenKind::TopologyDescription, TokenRole::Definition, scope),
        );
        lemma_same_definition(kind, m, TokenKind::TopologyDescription, scope);
    } else if op.name == "startThread"@ {
        let n = thread_scope(lookup_str(op.arguments->0, "name"@)->0)->0;
        let entity = CreateEntityView::Thread {
            id: token_text(TokenKind::Thread, TokenRole::Definition, n),
        };
        let items = seq![ValueView::Doc(entity_doc(entity))];
        lemma_single("entities"@, ValueView::Array(items));
        lemma_directive(entity, id);
        assert(directives_declaring(items, 0, id) == 0);
        lemma_same_definition(kind, m, TokenKind::Thread, n);
    } else if op.name == "runOnThread"@ {
        let args = op.arguments->0;
        let n = thread_scope(lookup_str(args, "name"@)->0)->0;
        assert(target_of(op, scope) is Ok);
        assert(nested_operation(op) is Some);
        let nested = nested_operation(op)->0;
        assert(target_of(nested, scope) is Ok);
        let target = target_of(nested, scope)->Ok_0;
        let new_nested = completed(nested, target);
        lemma_nested_smaller(args);
        lemma_nested_free(op);
        lemma_operation_declares(nested, scope, kind, m);
        lemma_operation_doc(new_nested);
        lemma_with_field(
            single("thread"@, token_value(TokenKind::Thread, TokenRole::Deref, n)),
            "operation"@,
            ValueView::Doc(operation_doc(new_nested)),
        );
    }
}

/// How often the first operations declare an identifier depends on these
/// operations only.
pub proof fn lemma_operations_prefix(
    ops: Seq<OperationView>,
    others: Seq<OperationView>,
    n: nat,
    id: Seq<char>,
)
    requires
        n <= ops.len(),
        n <= others.len(),
        forall|k: int| 0 <= k < n ==> ops[k] == others[k],
    ensures
        operations_declaring(ops, n, id) == operations_declaring(others, n, id),
    decreases n,
{
    if n > 0 {
        lemma_operations_prefix(ops, others, (n - 1) as nat, id);
    }
}

/// The translated operations of a test case declare the name of a kind and
/// scope id as often as the legacy operations ask for it.
pub proof fn lemma_operations_declare(
    ops: Seq<crud_v2::OperationView>,
    scope: nat,
    n: nat,
    kind: TokenKind,
    m: nat,
)
    requires
        n <= ops.len(),
        translated_all(ops, scope, n) is Ok,
        forall|k: int| 0 <= k < n ==> holds_no_definition(#[trigger] ops[k]),
    ensures
        translated_all(ops, scope, n)->Ok_0.len() == n,
        operations_declaring(
            translated_all(ops, scope, n)->Ok_0,
            n,
            token_text(kind, TokenRole::Definition, m),
        ) == asking_operations(ops, scope, n, kind, m),
    decreases n,
{
    if n > 0 {
        let id = token_text(kind, TokenRole::Definition, m);
        let before = translated_all(ops, scope, (n - 1) as nat)->Ok_0;
        let all = translated_all(ops, scope, n)->Ok_0;
        lemma_operations_declare(ops, scope, (n - 1) as nat, kind, m);
        lemma_operation_declares(ops[n - 1], scope, kind, m);
        lemma_operations_prefix(all, before, (n - 1) as nat, id);
    }
}

/// What operations put one after the other declare is what the first and
/// the second declare together.
pub proof fn lemma_operations_joined(
    first: Seq<OperationView>,
    second: Seq<OperationView>,
    n: nat,
    id: Seq<char>,
)
    requires
        n <= second.len(),
    ensures
        operations_declaring(first + second, first.len() + n, id) == operations_declaring(
            first,
            first.len(),
            id,
        ) + operations_declaring(second, n, id),
    decreases n,
{
    if n == 0 {
        lemma_operations_prefix(first + second, first, first.len(), id);
    } else {
        lemma_operations_joined(first, second, (n - 1) as nat, id);
    }
}

/// A converted test case declares the name of a kind and scope id once by
/// its triple, if the name is of the triple of its scope id, and once for
/// each legacy operation that asks for it.
pub proof fn lemma_test_declares(test: crud_v2::TestView, scope: nat, kind: TokenKind, m: nat)
    requires
        converted_test(test, scope) is Ok,
        forall|k: int|
            0 <= k < test.operations.len() ==> holds_no_definition(#[trigger] test.operations[k]),
    ensures
        operations_declaring(
            converted_test(test, scope)->Ok_0.operations,
            converted_test(test, scope)->Ok_0.operations.len(),
            token_text(kind, TokenRole::Definition, m),
        ) == (if in_triple(kind) && m == scope {
            1nat
        } else {
            0nat
        }) + asking_operations(test.operations, scope, test.operations.len(), kind, m),
{
    let id = token_text(kind, TokenRole::Definition, m);
    let events = observed(test)->Ok_0;
    let ops = translated_all(test.operations, scope, test.operations.len())->Ok_0;
    let leading = leading_operations(test, scope, events);
    let entities = scope_entities(scope, events, test.client_uri);
    lemma_operations_declare(test.operations, scope, test.operations.len(), kind, m);
    lemma_operations_joined(leading, ops, ops.len(), id);
    lemma_create_entities(entities, id);
    lemma_operation_names();
    lemma_same_definition(kind, m, TokenKind::Client, scope);
    lemma_same_definition(kind, m, TokenKind::Database, scope);
    lemma_same_definition(kind, m, TokenKind::Collection, scope);
    assert(entities_declaring(entities, 0, id) == 0);
    assert(entities_declaring(entities, 1, id) == if kind == TokenKind::Client && m == scope {
        1nat
    } else {
        0nat
    });
    assert(entities_declaring(entities, 2, id) == entities_declaring(entities, 1, id)
        + if kind == TokenKind::Database && m == scope {
        1nat
    } else {
        0nat
    });
    assert(entities_declaring(entities, 3, id) == entities_declaring(entities, 2, id)
        + if kind == TokenKind::Collection && m == scope {
        1nat
    } else {
        0nat
    });
    let create = create_entities_operation(entities);
    match test.fail_point {
        Some(fail_point) => {
            let fail = fail_point_operation(fail_point);
            assert(leading =~= seq![fail, create]);
            assert(operations_declaring(leading, 0, id) == 0);
            assert(operations_declaring(leading, 1, id) == 0);
            assert(operations_declaring(leading, 2, id) == operation_declaring(create, id));
        },
        None => {
            assert(leading =~= seq![create]);
            assert(operations_declaring(leading, 0, id) == 0);
            assert(operations_declaring(leading, 1, id) == operation_declaring(create, id));
        },
    }
}

/// How often the first test cases declare an identifier depends on these
/// test cases only.
pub proof fn lemma_tests_prefix(tests: Seq<TestView>, others: Seq<TestView>, n: nat, id: Seq<char>)
    requires
        n <= tests.len(),
        n <= others.len(),
        forall|k: int| 0 <= k < n ==> tests[k] == others[k],
    ensures
        tests_declaring(tests, n, id) == tests_declaring(others, n, id),
    decreases n,
{
    if n > 0 {
        lemma_tests_prefix(tests, others, (n - 1) as nat, id);
    }
}

/// No string among the arguments of an operation of a legacy file is a
/// definition token.
pub open spec fn no_definition_in_arguments(tests: Seq<crud_v2::TestView>) -> bool {
    forall|j: int, k: int|
        0 <= j < tests.len() && 0 <= k < tests[j].operations.len() ==> holds_no_definition(
            #[trigger] tests[j].operations[k],
        )
}

/// The converted test cases declare the name of a kind and scope id as often
/// as the legacy test cases ask for it.
pub proof fn lemma_tests_declare(tests: Seq<crud_v2::TestView>, n: nat, kind: TokenKind, m: nat)
    requires
        n <= tests.len(),
        converted_tests(tests, n) is Ok,
        no_definition_in_arguments(tests),
    ensures
        converted_tests(tests, n)->Ok_0.len() == n,
        tests_declaring(
            converted_tests(tests, n)->Ok_0,
            n,
            token_text(kind, TokenRole::Definition, m),
        ) == asking_tests(tests, n, kind, m),
    decreases n,
{
    if n > 0 {
        let id = token_text(kind, TokenRole::Definition, m);
        let before = converted_tests(tests, (n - 1) as nat)->Ok_0;
        let all = converted_tests(tests, n)->Ok_0;
        lemma_tests_declare(tests, (n - 1) as nat, kind, m);
        let test = tests[n - 1];
        assert forall|k: int| 0 <= k < test.operations.len() implies holds_no_definition(
            #[trigger] test.operations[k],
        ) by {
            assert(holds_no_definition(tests[n - 1].operations[k]));
        }
        lemma_test_declares(test, (n - 1) as nat, kind, m);
        lemma_tests_prefix(all, before, (n - 1) as nat, id);
    }
}

/// A converted file declares the name of a kind and scope id exactly as
/// often as the legacy file asks for it: the names of the file once, the
/// entities of the triple of each test case once, and the thread or the
/// topology description of a scope id once for each operation that starts
/// that thread or records the primary in that test case.
pub proof fn lemma_file_declares(
    name: Seq<char>,
    suite: crud_v2::TestFileView,
    file: TestFileView,
    kind: TokenKind,
    m: nat,
)
    requires
        converted(name, suite) == Ok::<TestFileView, ConvertError>(file),
        no_definition_in_arguments(suite.tests),
    ensures
        file_declaring(file, token_text(kind, TokenRole::Definition, m)) == asking_file(
            suite,
            kind,
            m,
        ),
{
    let id = token_text(kind, TokenRole::Definition, m);
    lemma_tests_declare(suite.tests, suite.tests.len(), kind, m);
    let shared = shared_entities(uses_fail_point(suite.tests), uses_admin_command(suite.tests));
    lemma_same_definition(kind, m, TokenKind::SetupClient, 0);
    lemma_same_definition(kind, m, TokenKind::AdminDatabase, 0);
    lemma_same_definition(kind, m, TokenKind::DatabaseName, 0);
    lemma_same_definition(kind, m, TokenKind::CollectionName, 0);
    assert(entities_declaring(shared, 0, id) == 0);
    if shared.len() >= 1 {
        assert(entities_declaring(shared, 1, id) == if kind == TokenKind::SetupClient {
            1nat
        } else {
            0nat
        });
    }
    if shared.len() >= 2 {
        assert(entities_declaring(shared, 2, id) == entities_declaring(shared, 1, id)
            + if kind == TokenKind::AdminDatabase {
            1nat
        } else {
            0nat
        });
    }
    let data = file.initial_data->0;
    assert(data_declaring(data, 0, id) == 0);
    assert(data_declaring(data, 1, id) == (if kind == TokenKind::CollectionName {
        1nat
    } else {
        0nat
    }) + (if kind == TokenKind::DatabaseName {
        1nat
    } else {
        0nat
    }));
}

/// In a converted file, the client, the database and the collection of each
/// test case are declared exactly once, and so is each name of the file that
/// is declared at all: the database name and the collection name always, the
/// setup client where a test case uses a fail point or an administrative
/// command, the `admin` database where one runs an administrative command.
pub proof fn lemma_declared_once(
    name: Seq<char>,
    suite: crud_v2::TestFileView,
    file: TestFileView,
    kind: TokenKind,
    m: nat,
)
    requires
        converted(name, suite) == Ok::<TestFileView, ConvertError>(file),
        no_definition_in_arguments(suite.tests),
        kind != TokenKind::Thread,
        kind != TokenKind::TopologyDescription,
    ensures
        file_declaring(file, token_text(kind, TokenRole::Definition, m)) <= 1,
        in_triple(kind) ==> (file_declaring(file, token_text(kind, TokenRole::Definition, m)) == 1
            <==> m < suite.tests.len()),
        kind == TokenKind::DatabaseName || kind == TokenKind::CollectionName ==> file_declaring(
            file,
            token_text(kind, TokenRole::Definition, m),
        ) == 1,
        kind == TokenKind::SetupClient ==> (file_declaring(
            file,
            token_text(kind, TokenRole::Definition, m),
        ) == 1 <==> uses_fail_point(suite.tests) || uses_admin_command(suite.tests)),
        kind == TokenKind::AdminDatabase ==> (file_declaring(
            file,
            token_text(kind, TokenRole::Definition, m),
        ) == 1 <==> uses_admin_command(suite.tests)),
{
    lemma_file_declares(name, suite, file, kind, m);
    lemma_asking_tests(suite.tests, suite.tests.len(), kind, m);
}

/// Legacy operations ask for threads and topology descriptions only, so the
/// test cases ask for a name of another kind once if it is of the triple of
/// one of them, and never otherwise.
pub proof fn lemma_asking_tests(tests: Seq<crud_v2::TestView>, n: nat, kind: TokenKind, m: nat)
    requires
        n <= tests.len(),
        kind != TokenKind::Thread,
        kind != TokenKind::TopologyDescription,
    ensures
        asking_tests(tests, n, kind, m) == if in_triple(kind) && m < n {
            1nat
        } else {
            0nat
        },
    decreases n,
{
    if n > 0 {
        lemma_asking_tests(tests, (n - 1) as nat, kind, m);
        lemma_asking_operations(
            tests[n - 1].operations,
            (n - 1) as nat,
            tests[n - 1].operations.len(),
            kind,
            m,
        );
    }
}

/// A legacy operation asks for threads and topology descriptions only.
pub proof fn lemma_asking(op: crud_v2::OperationView, scope: nat, kind: TokenKind, m: nat)
    requires
        kind != TokenKind::Thread,
        kind != TokenKind::TopologyDescription,
    ensures
        asking(op, scope, kind, m) == 0,
    decreases operation_size(op),
{
    match nested_operation(op) {
        Some(nested) => {
            lemma_nested_smaller(op.arguments->0);
            lemma_asking(nested, scope, kind, m);
        },
        None => {},
    }
}

/// Legacy operations ask for threads and topology descriptions only.
pub proof fn lemma_asking_operations(
    ops: Seq<crud_v2::OperationView>,
    scope: nat,
    n: nat,
    kind: TokenKind,
    m: nat,
)
    requires
        n <= ops.len(),
        kind != TokenKind::Thread,
        kind != TokenKind::TopologyDescription,
    ensures
        asking_operations(ops, scope, n, kind, m) == 0,
    decreases n,
{
    if n > 0 {
        lemma_asking_operations(ops, scope, (n - 1) as nat, kind, m);
        lemma_asking(ops[n - 1], scope, kind, m);
    }
}

} // verus!
