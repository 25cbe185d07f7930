//! Where the conversion refers to the names that a converted file declares,
//! and that each such name is declared.
//!
//! The conversion refers to a name by a dereference token: as the object of
//! an operation, as one of its arguments, or as a property of an entity or
//! an expectation.

use crate::convert::{converted, names_among, sets_fail_point, uses_admin_command};
use crate::crud_v2;
use crate::declarations::{
    asking, asking_operations, asking_tests, file_declaring, no_definition_in_arguments,
    lemma_declared_once, lemma_file_declares, lemma_single,
};
use crate::tokens::{token_text, TokenKind, TokenRole};
use crate::encode::{operation_doc, single};
use crate::translate::{
    completed, is_event_operation, lemma_nested_smaller, nested_operation, operation_names,
    operation_size, target_of, thread_scope, token_value, translated, ConvertError,
};
use crate::unified::{OperationView, TestFileView};
use crate::value::{
    lemma_with_field, lemma_with_field_other, lookup, lookup_str, with_field, ValueView,
};
use vstd::prelude::*;

verus! {

/// Whether a unified operation refers to `id`: as its object, or as the
/// client, the thread or the topology description among its arguments.
pub open spec fn refers_to(op: OperationView, id: Seq<char>) -> bool {
    ||| op.object == id
    ||| {
        &&& op.arguments matches Some(args)
        &&& {
            ||| lookup_str(args, "client"@) == Some(id)
            ||| lookup_str(args, "thread"@) == Some(id)
            ||| lookup_str(args, "priorTopologyDescription"@) == Some(id)
        }
    }
}

/// Whether a legacy operation of this name keeps its object.
pub open spec fn keeps_object(name: Seq<char>) -> bool {
    &&& !is_event_operation(name)
    &&& name != "runAdminCommand"@
    &&& name != "startThread"@
    &&& name != "configureFailPoint"@
}

/// Whether the conversion of a legacy operation makes the unified operation
/// refer to the name of the given kind and scope id.
pub open spec fn places_here(op: crud_v2::OperationView, scope: nat, kind: TokenKind, m: nat) -> bool {
    match kind {
        TokenKind::Client => m == scope && (is_event_operation(op.name) || op.name
            == "recordPrimary"@ || op.name == "waitForPrimaryChange"@),
        TokenKind::Collection => m == scope && op.object == "collection"@ && keeps_object(
            op.name,
        ),
        TokenKind::TopologyDescription => m == scope && op.name == "waitForPrimaryChange"@,
        TokenKind::AdminDatabase => op.name == "runAdminCommand"@,
        TokenKind::SetupClient => op.name == "configureFailPoint"@,
        TokenKind::Thread => {
            &&& op.name == "runOnThread"@ || op.name == "waitForThread"@
            &&& op.arguments matches Some(args)
            &&& lookup_str(args, "name"@) matches Some(name)
            &&& thread_scope(name) == Some(m)
        },
        _ => false,
    }
}

/// Whether the conversion of a legacy operation, or of one that it runs on
/// a thread, refers to the name of the given kind and scope id.
pub open spec fn places(op: crud_v2::OperationView, scope: nat, kind: TokenKind, m: nat) -> bool
    decreases operation_size(op),
{
    places_here(op, scope, kind, m) || match nested_operation(op) {
        Some(nested) => {
            proof {
                lemma_nested_smaller(op.arguments->0);
            }
            places(nested, scope, kind, m)
        },
        None => false,
    }
}

/// Whether the conversion of a legacy test case with the given scope id
/// refers to the name of the given kind and scope id: by the entities of its
/// triple, by its fail point, by its expectations, or by an operation.
pub open spec fn test_places(test: crud_v2::TestView, scope: nat, kind: TokenKind, m: nat) -> bool {
    ||| (kind == TokenKind::Client || kind == TokenKind::Database) && m == scope
    ||| kind == TokenKind::DatabaseName
    ||| kind == TokenKind::CollectionName
    ||| kind == TokenKind::SetupClient && test.fail_point is Some
    ||| exists|k: int|
        0 <= k < test.operations.len() && places(#[trigger] test.operations[k], scope, kind, m)
}

/// Whether the conversion of a legacy file refers to the name of the given
/// kind and scope id: by a test case, or by the `admin` database, which
/// belongs to the setup client.
pub open spec fn file_places(suite: crud_v2::TestFileView, kind: TokenKind, m: nat) -> bool {
    ||| kind == TokenKind::SetupClient && uses_admin_command(suite.tests)
    ||| exists|j: int|
        0 <= j < suite.tests.len() && test_places(#[trigger] suite.tests[j], j as nat, kind, m)
}

/// In a test case, every operation that refers to a thread or to the
/// topology description comes after one that declares it: a thread is
/// started before anything runs on it or waits for it, and the primary is
/// recorded before its change is waited for.
pub open spec fn declared_before_use(test: crud_v2::TestView, scope: nat) -> bool {
    forall|k: int, kind: TokenKind, m: nat|
        0 <= k < test.operations.len() && (kind == TokenKind::Thread || kind
            == TokenKind::TopologyDescription) && #[trigger] places(
            test.operations[k],
            scope,
            kind,
            m,
        ) ==> exists|earlier: int|
            0 <= earlier < k && #[trigger] asking(test.operations[earlier], scope, kind, m) > 0
}

/// An operation that refers to the setup client configures a fail point, one
/// that refers to the `admin` database runs an administrative command, and
/// one that refers to a client, a collection or a topology description
/// refers to that of its own test case.
pub proof fn lemma_places(op: crud_v2::OperationView, scope: nat, kind: TokenKind, m: nat)
    requires
        places(op, scope, kind, m),
    ensures
        kind == TokenKind::SetupClient ==> operation_names(op, "configureFailPoint"@),
        kind == TokenKind::AdminDatabase ==> operation_names(op, "runAdminCommand"@),
        kind == TokenKind::Client || kind == TokenKind::Collection || kind
            == TokenKind::TopologyDescription ==> m == scope,
        kind != TokenKind::Database,
        kind != TokenKind::DatabaseName,
        kind != TokenKind::CollectionName,
    decreases operation_size(op),
{
    if !places_here(op, scope, kind, m) {
        lemma_nested_smaller(op.arguments->0);
        lemma_places(nested_operation(op)->0, scope, kind, m);
    }
}

/// The operations of a list ask for a name at least as often as any one of
/// them does.
pub proof fn lemma_asking_one(
    ops: Seq<crud_v2::OperationView>,
    scope: nat,
    n: nat,
    k: int,
    kind: TokenKind,
    m: nat,
)
    requires
        0 <= k < n <= ops.len(),
    ensures
        asking_operations(ops, scope, n, kind, m) >= asking(ops[k], scope, kind, m),
    decreases n,
{
    if k < n - 1 {
        lemma_asking_one(ops, scope, (n - 1) as nat, k, kind, m);
    }
}

/// The test cases of a list ask for a name at least as often as the
/// operations of any one of them do.
pub proof fn lemma_asking_test(
    tests: Seq<crud_v2::TestView>,
    n: nat,
    j: int,
    kind: TokenKind,
    m: nat,
)
    requires
        0 <= j < n <= tests.len(),
    ensures
        asking_tests(tests, n, kind, m) >= asking_operations(
            tests[j].operations,
            j as nat,
            tests[j].operations.len(),
            kind,
            m,
        ),
    decreases n,
{
    if j < n - 1 {
        lemma_asking_test(tests, (n - 1) as nat, j, kind, m);
    }
}

/// Every name that the conversion of a file refers to is declared in the
/// converted file, where in each test case threads are started and the
/// primary is recorded before they are used.
pub proof fn lemma_references_declared(
    name: Seq<char>,
    suite: crud_v2::TestFileView,
    file: TestFileView,
    kind: TokenKind,
    m: nat,
)
    requires
        converted(name, suite) == Ok::<TestFileView, ConvertError>(file),
        no_definition_in_arguments(suite.tests),
        forall|j: int|
            0 <= j < suite.tests.len() ==> declared_before_use(#[trigger] suite.tests[j], j as nat),
        file_places(suite, kind, m),
    ensures
        file_declaring(file, token_text(kind, TokenRole::Definition, m)) >= 1,
{
    lemma_file_declares(name, suite, file, kind, m);
    if kind == TokenKind::Thread || kind == TokenKind::TopologyDescription {
        let j = choose|j: int|
            0 <= j < suite.tests.len() && test_places(#[trigger] suite.tests[j], j as nat, kind, m);
        let test = suite.tests[j];
        let k = choose|k: int|
            0 <= k < test.operations.len() && places(
                #[trigger] test.operations[k],
                j as nat,
                kind,
                m,
            );
        assert(declared_before_use(test, j as nat));
        let earlier = choose|earlier: int|
            0 <= earlier < k && #[trigger] asking(test.operations[earlier], j as nat, kind, m) > 0;
        lemma_asking_one(test.operations, j as nat, test.operations.len(), earlier, kind, m);
        lemma_asking_test(suite.tests, suite.tests.len(), j, kind, m);
    } else {
        lemma_declared_once(name, suite, file, kind, m);
        if kind == TokenKind::SetupClient && uses_admin_command(suite.tests) {
        } else {
            let j = choose|j: int|
                0 <= j < suite.tests.len() && test_places(
                    #[trigger] suite.tests[j],
                    j as nat,
                    kind,
                    m,
                );
            let test = suite.tests[j];
            if exists|k: int|
                0 <= k < test.operations.len() && places(
                    #[trigger] test.operations[k],
                    j as nat,
                    kind,
                    m,
                ) {
                let k = choose|k: int|
                    0 <= k < test.operations.len() && places(
                        #[trigger] test.operations[k],
                        j as nat,
                        kind,
                        m,
                    );
                lemma_places(test.operations[k], j as nat, kind, m);
                if kind == TokenKind::SetupClient {
                    assert(names_among(test.operations, "configureFailPoint"@));
                    assert(sets_fail_point(test));
                }
                if kind == TokenKind::AdminDatabase {
                    assert(names_among(test.operations, "runAdminCommand"@));
                }
            } else if kind == TokenKind::SetupClient {
                assert(sets_fail_point(test));
            }
        }
    }
}

/// Where the conversion of a legacy operation is said to refer to a name,
/// the unified operation holds the dereference token of that name: as its
/// object, or as the argument that names the client, the thread or the
/// topology description.
pub proof fn lemma_reference_placed(
    op: crud_v2::OperationView,
    scope: nat,
    kind: TokenKind,
    m: nat,
)
    requires
        translated(op, scope) is Ok,
        places_here(op, scope, kind, m),
    ensures
        refers_to(translated(op, scope)->Ok_0, token_text(kind, TokenRole::Deref, m)),
{
    let token = token_value(kind, TokenRole::Deref, m);
    let new = translated(op, scope)->Ok_0;
    reveal_strlit("waitForEvent");
    reveal_strlit("assertEventCount");
    reveal_strlit("recordPrimary");
    reveal_strlit("waitForPrimaryChange");
    reveal_strlit("runAdminCommand");
    reveal_strlit("runCommand");
    reveal_strlit("startThread");
    reveal_strlit("runOnThread");
    reveal_strlit("waitForThread");
    reveal_strlit("configureFailPoint");
    assert("waitForEvent"@.len() == 12);
    assert("assertEventCount"@.len() == 16);
    assert("recordPrimary"@.len() == 13);
    assert("waitForPrimaryChange"@.len() == 20);
    assert("runAdminCommand"@.len() == 15);
    assert("runCommand"@.len() == 10);
    assert("startThread"@.len() == 11);
    assert("runOnThread"@.len() == 11);
    assert("waitForThread"@.len() == 13);
    assert("configureFailPoint"@.len() == 18);
    assert("runOnThread"@[0] == 'r');
    assert("startThread"@[0] == 's');
    assert("recordPrimary"@[0] == 'r');
    assert("waitForThread"@[0] == 'w');
    reveal_strlit("client");
    reveal_strlit("id");
    reveal_strlit("thread");
    reveal_strlit("operation");
    reveal_strlit("priorTopologyDescription");
    reveal_strlit("timeoutMS");
    assert("client"@.len() == 6);
    assert("id"@.len() == 2);
    assert("thread"@.len() == 6);
    assert("operation"@.len() == 9);
    assert("priorTopologyDescription"@.len() == 24);
    assert("timeoutMS"@.len() == 9);
    assert("client"@[0] == 'c');
    assert("thread"@[0] == 't');
    let client = token_value(TokenKind::Client, TokenRole::Deref, scope);
    if kind == TokenKind::Client && op.name == "recordPrimary"@ {
        lemma_single("client"@, client);
        lemma_with_field_other(
            single("client"@, client),
            "id"@,
            token_value(TokenKind::TopologyDescription, TokenRole::Definition, scope),
            "client"@,
        );
    } else if op.name == "waitForPrimaryChange"@ {
        let first = single("client"@, client);
        let prior = token_value(TokenKind::TopologyDescription, TokenRole::Deref, scope);
        let second = with_field(first, "priorTopologyDescription"@, prior);
        lemma_single("client"@, client);
        lemma_with_field(first, "priorTopologyDescription"@, prior);
        lemma_with_field_other(first, "priorTopologyDescription"@, prior, "client"@);
        let timeout = match op.arguments {
            Some(args) => lookup(args, "timeoutMS"@),
            None => None,
        };
        match timeout {
            Some(value) => {
                lemma_with_field_other(second, "timeoutMS"@, value, "client"@);
                lemma_with_field_other(second, "timeoutMS"@, value, "priorTopologyDescription"@);
            },
            None => {},
        }
    } else if kind == TokenKind::Thread {
        let thread = token_value(TokenKind::Thread, TokenRole::Deref, m);
        lemma_single("thread"@, thread);
        if op.name == "runOnThread"@ {
            assert(target_of(op, scope) is Ok);
            let nested = nested_operation(op)->0;
            let target = target_of(nested, scope)->Ok_0;
            lemma_with_field_other(
                single("thread"@, thread),
                "operation"@,
                ValueView::Doc(
                    operation_doc(completed(nested, target)),
                ),
                "thread"@,
            );
        }
    } else if kind == TokenKind::SetupClient {
        lemma_with_field(op.arguments->0, "client"@, token);
    }
}

} // verus!
