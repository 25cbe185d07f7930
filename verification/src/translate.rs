//! The translation of one legacy operation into a unified operation.

use crate::crud_v2;
use crate::decode::operation_of;
use crate::encode::{entity_doc, operation_doc, set_text, single, with_optional};
use crate::text::{all_digits, chars_of, matches_at, number, read_number, same_text};
use crate::tokens::{deref_token, definition_token, token_text, TokenKind, TokenRole};
use crate::unified::{
    CreateEntity, CreateEntityView, EventKind, ExpectError, ExpectErrorView, ObservedEvents,
    Operation, OperationView,
};
use crate::value::{
    doc_size, lemma_lookup_size, lookup, lookup_str, with_field, DocView, Document, Value,
    ValueView,
};
use vstd::prelude::*;

verus! {

/// Why a legacy test file cannot be converted.
#[derive(Clone, Copy, Debug, PartialEq, Eq, Structural)]
pub enum ConvertError {
    /// An operation lacks an argument that its name asks for, or holds one
    /// of another type.
    Shape,
    /// An operation waits for an event that has no unified counterpart.
    UnknownEvent,
    /// A thread is not named `thread` followed by a positive number.
    BadThreadName,
    /// The initial data is given by collection name.
    UnsupportedData,
}

/// The scope id of a thread: the number that follows `thread` in its name,
/// less one. `None` where the name is not `thread` followed by digits that
/// denote a number from 1 to `usize::MAX`.
pub open spec fn thread_scope(name: Seq<char>) -> Option<nat> {
    let prefix = "thread"@;
    let digits = name.skip(prefix.len() as int);
    if name.len() > prefix.len() && name.take(prefix.len() as int) == prefix && all_digits(digits)
        && 1 <= number(digits) <= usize::MAX {
        Some((number(digits) - 1) as nat)
    } else {
        None
    }
}

/// Whether an operation of this name waits for events or counts them.
pub open spec fn is_event_operation(name: Seq<char>) -> bool {
    name == "waitForEvent"@ || name == "assertEventCount"@
}

/// The event kind that a legacy event name stands for.
pub open spec fn event_kind_of(name: Seq<char>) -> Option<EventKind> {
    if name == "PoolClearedEvent"@ {
        Some(EventKind::PoolCleared)
    } else if name == "PoolReadyEvent"@ {
        Some(EventKind::PoolReady)
    } else if name == "ServerMarkedUnknownEvent"@ {
        Some(EventKind::ServerDescriptionChanged)
    } else {
        None
    }
}

/// The document that describes an event of a kind to wait for.
pub open spec fn event_doc(kind: EventKind) -> DocView {
    match kind {
        EventKind::CommandStarted => single(
            "commandStartedEvent"@,
            ValueView::Doc(Seq::empty()),
        ),
        EventKind::PoolCleared => single("poolClearedEvent"@, ValueView::Doc(Seq::empty())),
        EventKind::PoolReady => single("poolReadyEvent"@, ValueView::Doc(Seq::empty())),
        EventKind::ServerDescriptionChanged => single(
            "serverDescriptionChangedEvent"@,
            ValueView::Doc(
                single(
                    "newDescription"@,
                    ValueView::Doc(single("type"@, ValueView::Str("Unknown"@))),
                ),
            ),
        ),
    }
}

/// The event kind that an operation makes its client observe: none for an
/// operation that does not wait for events.
pub open spec fn watched(op: crud_v2::OperationView) -> Result<Option<EventKind>, ConvertError> {
    if is_event_operation(op.name) {
        match op.arguments {
            None => Err(ConvertError::Shape),
            Some(args) => match lookup_str(args, "event"@) {
                None => Err(ConvertError::Shape),
                Some(event) => match event_kind_of(event) {
                    None => Err(ConvertError::UnknownEvent),
                    Some(kind) => Ok(Some(kind)),
                },
            },
        }
    } else {
        Ok(None)
    }
}

/// The event kinds that the first `n` operations make the client observe,
/// each by itself, or the error of the first among them that has one.
pub open spec fn watched_by(ops: Seq<crud_v2::OperationView>, n: nat) -> Result<
    Set<EventKind>,
    ConvertError,
>
    decreases n,
{
    if n == 0 || n > ops.len() {
        Ok(Set::empty())
    } else {
        match watched_by(ops, (n - 1) as nat) {
            Err(e) => Err(e),
            Ok(kinds) => match watched(ops[n - 1]) {
                Err(e) => Err(e),
                Ok(None) => Ok(kinds),
                Ok(Some(kind)) => Ok(kinds.insert(kind)),
            },
        }
    }
}

/// The event kinds that the client of a test case has to observe: started
/// commands exactly where the case has expectations, and what the operations
/// of the case itself wait for. An operation that runs on a thread is not
/// read for this.
pub open spec fn observed(test: crud_v2::TestView) -> Result<Set<EventKind>, ConvertError> {
    match watched_by(test.operations, test.operations.len()) {
        Err(e) => Err(e),
        Ok(kinds) => if test.expectations is Some {
            Ok(kinds.insert(EventKind::CommandStarted))
        } else {
            Ok(kinds)
        },
    }
}

/// The expected result and the expected error of the unified operation. A
/// structured result goes before the bare error flag, and the name of an
/// error code is never carried over.
pub open spec fn expectation(
    result: Option<crud_v2::OperationResultView>,
    error: Option<bool>,
) -> (Option<ValueView>, Option<ExpectErrorView>) {
    match result {
        Some(crud_v2::OperationResultView::Success(v)) => (Some(v), None),
        Some(crud_v2::OperationResultView::Error(e)) => (
            None,
            Some(
                ExpectErrorView {
                    is_error: None,
                    error_contains: e.error_contains,
                    error_code: e.error_code,
                    error_code_name: None,
                    error_labels_contain: e.error_labels_contain,
                    error_labels_omit: e.error_labels_omit,
                },
            ),
        ),
        None => if error == Some(true) {
            (
                None,
                Some(
                    ExpectErrorView {
                        is_error: Some(true),
                        error_contains: None,
                        error_code: None,
                        error_code_name: None,
                        error_labels_contain: None,
                        error_labels_omit: None,
                    },
                ),
            )
        } else {
            (None, None)
        },
    }
}

/// The name, the object and the arguments of a unified operation.
pub struct Target {
    pub name: Seq<char>,
    pub object: Seq<char>,
    pub arguments: Option<DocView>,
}

/// The unified operation with the given target and the expectations of the
/// legacy operation.
pub open spec fn completed(op: crud_v2::OperationView, target: Target) -> OperationView {
    OperationView {
        name: target.name,
        object: target.object,
        arguments: target.arguments,
        save_result_as_entity: None,
        expect_result: expectation(op.result, op.error).0,
        expect_error: expectation(op.result, op.error).1,
    }
}

/// The size of the arguments of an operation.
pub open spec fn operation_size(op: crud_v2::OperationView) -> nat {
    match op.arguments {
        Some(args) => doc_size(args),
        None => 0,
    }
}

/// A reference token as a string node.
pub open spec fn token_value(kind: TokenKind, role: TokenRole, scope: nat) -> ValueView {
    ValueView::Str(token_text(kind, role, scope))
}

/// The object of an operation that keeps its object: the collection of the
/// scope for `collection`, and the legacy object otherwise.
pub open spec fn kept_object(object: Seq<char>, scope: nat) -> Seq<char> {
    if object == "collection"@ {
        token_text(TokenKind::Collection, TokenRole::Deref, scope)
    } else {
        object
    }
}

/// The arguments of an operation that waits for events of a kind.
pub open spec fn event_arguments(scope: nat, kind: EventKind, count: ValueView) -> DocView {
    with_field(
        with_field(
            single("client"@, token_value(TokenKind::Client, TokenRole::Deref, scope)),
            "event"@,
            ValueView::Doc(event_doc(kind)),
        ),
        "count"@,
        count,
    )
}

/// The arguments of an operation that records the topology description.
pub open spec fn record_arguments(scope: nat) -> DocView {
    with_field(
        single("client"@, token_value(TokenKind::Client, TokenRole::Deref, scope)),
        "id"@,
        token_value(TokenKind::TopologyDescription, TokenRole::Definition, scope),
    )
}

/// The arguments of an operation that waits for another primary: the client,
/// the recorded topology description, and the timeout where one is given.
pub open spec fn primary_change_arguments(scope: nat, old: Option<DocView>) -> DocView {
    with_optional(
        with_field(
            single("client"@, token_value(TokenKind::Client, TokenRole::Deref, scope)),
            "priorTopologyDescription"@,
            token_value(TokenKind::TopologyDescription, TokenRole::Deref, scope),
        ),
        "timeoutMS"@,
        match old {
            Some(args) => lookup(args, "timeoutMS"@),
            None => None,
        },
    )
}

/// The arguments of an operation that creates the entity of thread `n`.
pub open spec fn start_thread_arguments(n: nat) -> DocView {
    single(
        "entities"@,
        ValueView::Array(
            seq![
                ValueView::Doc(
                    entity_doc(
                        CreateEntityView::Thread {
                            id: token_text(TokenKind::Thread, TokenRole::Definition, n),
                        },
                    ),
                ),
            ],
        ),
    )
}

/// The name, object and arguments of the unified operation that a legacy
/// operation of the given scope becomes, or the reason why there is none.
pub open spec fn target_of(op: crud_v2::OperationView, scope: nat) -> Result<Target, ConvertError>
    decreases operation_size(op),
{
    let object = kept_object(op.object, scope);
    if is_event_operation(op.name) {
        match watched(op) {
            Err(e) => Err(e),
            Ok(None) => Err(ConvertError::Shape),
            Ok(Some(kind)) => match lookup(op.arguments->0, "count"@) {
                None => Err(ConvertError::Shape),
                Some(count) => Ok(
                    Target {
                        name: op.name,
                        object: token_text(TokenKind::Client, TokenRole::Deref, scope),
                        arguments: Some(event_arguments(scope, kind, count)),
                    },
                ),
            },
        }
    } else if op.name == "recordPrimary"@ {
        Ok(
            Target {
                name: "recordTopologyDescription"@,
                object,
                arguments: Some(record_arguments(scope)),
            },
        )
    } else if op.name == "waitForPrimaryChange"@ {
        Ok(
            Target {
                name: op.name,
                object,
                arguments: Some(primary_change_arguments(scope, op.arguments)),
            },
        )
    } else if op.name == "runAdminCommand"@ || op.name == "runCommand"@ {
        match (op.arguments, op.command_name) {
            (Some(args), Some(command)) => Ok(
                Target {
                    name: "runCommand"@,
                    object: if op.name == "runAdminCommand"@ {
                        token_text(TokenKind::AdminDatabase, TokenRole::Deref, 0)
                    } else {
                        object
                    },
                    arguments: Some(with_field(args, "commandName"@, ValueView::Str(command))),
                },
            ),
            _ => Err(ConvertError::Shape),
        }
    } else if op.name == "startThread"@ || op.name == "runOnThread"@ || op.name
        == "waitForThread"@ {
        match op.arguments {
            None => Err(ConvertError::Shape),
            Some(args) => match lookup_str(args, "name"@) {
                None => Err(ConvertError::Shape),
                Some(thread_name) => match thread_scope(thread_name) {
                    None => Err(ConvertError::BadThreadName),
                    Some(n) => if op.name == "startThread"@ {
                        Ok(
                            Target {
                                name: "createEntities"@,
                                object: "testRunner"@,
                                arguments: Some(start_thread_arguments(n)),
                            },
                        )
                    } else if op.name == "waitForThread"@ {
                        Ok(
                            Target {
                                name: op.name,
                                object,
                                arguments: Some(
                                    single(
                                        "thread"@,
                                        token_value(TokenKind::Thread, TokenRole::Deref, n),
                                    ),
                                ),
                            },
                        )
                    } else {
                        match lookup(args, "operation"@) {
                            None => Err(ConvertError::Shape),
                            Some(inner) => match operation_of(inner) {
                                None => Err(ConvertError::Shape),
                                Some(nested) => {
                                    proof {
                                        lemma_nested_smaller(args);
                                    }
                                    match target_of(nested, scope) {
                                        Err(e) => Err(e),
                                        Ok(target) => Ok(
                                            Target {
                                                name: op.name,
                                                object,
                                                arguments: Some(
                                                    with_field(
                                                        single(
                                                            "thread"@,
                                                            token_value(
                                                                TokenKind::Thread,
                                                                TokenRole::Deref,
                                                                n,
                                                            ),
                                                        ),
                                                        "operation"@,
                                                        ValueView::Doc(
                                                            operation_doc(
                                                                completed(nested, target),
                                                            ),
                                                        ),
                                                    ),
                                                ),
                                            },
                                        ),
                                    }
                                },
                            },
                        }
                    },
                },
            },
        }
    } else if op.name == "configureFailPoint"@ {
        match op.arguments {
            None => Err(ConvertError::Shape),
            Some(args) => Ok(
                Target {
                    name: "failPoint"@,
                    object: "testRunner"@,
                    arguments: Some(
                        with_field(
                            args,
                            "client"@,
                            token_value(TokenKind::SetupClient, TokenRole::Deref, 0),
                        ),
                    ),
                },
            ),
        }
    } else {
        Ok(Target { name: op.name, object, arguments: op.arguments })
    }
}

/// The unified operation that a legacy operation of the given scope becomes,
/// or the reason why there is none.
pub open spec fn translated(op: crud_v2::OperationView, scope: nat) -> Result<
    OperationView,
    ConvertError,
> {
    match target_of(op, scope) {
        Err(e) => Err(e),
        Ok(target) => Ok(completed(op, target)),
    }
}

/// The operation that runs on a thread: the one that the `operation`
/// argument of a `runOnThread` describes.
pub open spec fn nested_operation(op: crud_v2::OperationView) -> Option<crud_v2::OperationView> {
    if op.name == "runOnThread"@ {
        match op.arguments {
            Some(args) => match lookup(args, "operation"@) {
                Some(inner) => operation_of(inner),
                None => None,
            },
            None => None,
        }
    } else {
        None
    }
}

/// Whether `name` is the name of the operation, or of an operation that it
/// runs on a thread, at any depth.
pub open spec fn operation_names(op: crud_v2::OperationView, name: Seq<char>) -> bool
    decreases operation_size(op),
{
    op.name == name || match nested_operation(op) {
        Some(nested) => {
            proof {
                lemma_nested_smaller(op.arguments->0);
            }
            operation_names(nested, name)
        },
        None => false,
    }
}

/// The operation nested in the arguments of another is smaller than these.
pub proof fn lemma_nested_smaller(args: DocView)
    ensures
        lookup(args, "operation"@) matches Some(inner) ==> (operation_of(inner) matches Some(nested)
            ==> operation_size(nested) < doc_size(args)),
{
    lemma_lookup_size(args, "operation"@);
    match lookup(args, "operation"@) {
        Some(ValueView::Doc(d)) => {
            lemma_lookup_size(d, "arguments"@);
        },
        _ => {},
    }
}

/// The event kind that a legacy event name stands for.
pub fn event_kind(name: &str) -> (r: Option<EventKind>)
    ensures
        r == event_kind_of(name@),
{
    if same_text(name, "PoolClearedEvent") {
        Some(EventKind::PoolCleared)
    } else if same_text(name, "PoolReadyEvent") {
        Some(EventKind::PoolReady)
    } else if same_text(name, "ServerMarkedUnknownEvent") {
        Some(EventKind::ServerDescriptionChanged)
    } else {
        None
    }
}

/// The document that describes an event of a kind to wait for.
pub fn event_document(kind: EventKind) -> (r: Document)
    ensures
        r@ == event_doc(kind),
{
    let mut doc = Document::new();
    match kind {
        EventKind::CommandStarted => {
            doc.insert("commandStartedEvent", Value::Doc(Document::new()));
        },
        EventKind::PoolCleared => {
            doc.insert("poolClearedEvent", Value::Doc(Document::new()));
        },
        EventKind::PoolReady => {
            doc.insert("poolReadyEvent", Value::Doc(Document::new()));
        },
        EventKind::ServerDescriptionChanged => {
            let mut kind_doc = Document::new();
            set_text(&mut kind_doc, "type", "Unknown");
            let mut description = Document::new();
            description.insert("newDescription", Value::Doc(kind_doc));
            doc.insert("serverDescriptionChangedEvent", Value::Doc(description));
        },
    }
    doc
}

/// Whether an operation of this name waits for events or counts them.
pub fn waits_for_events(name: &str) -> (r: bool)
    ensures
        r == is_event_operation(name@),
{
    same_text(name, "waitForEvent") || same_text(name, "assertEventCount")
}

/// Whether `name` is the name of the operation, or of an operation that it
/// runs on a thread, at any depth.
pub fn names_operation(op: &crud_v2::Operation, name: &str) -> (r: bool)
    ensures
        r == operation_names(op.deep_view(), name@),
    decreases operation_size(op.deep_view()),
{
    if same_text(op.name.as_str(), name) {
        return true;
    }
    if !same_text(op.name.as_str(), "runOnThread") {
        return false;
    }
    let inner = match &op.arguments {
        Some(args) => {
            proof {
                lemma_nested_smaller(args@);
            }
            match args.get("operation") {
                Some(inner) => inner,
                None => {
                    return false;
                },
            }
        },
        None => {
            return false;
        },
    };
    match crud_v2::Operation::from_value(inner) {
        Ok(nested) => names_operation(&nested, name),
        Err(_) => false,
    }
}

/// The event kind that an operation makes its client observe.
pub fn watched_event(op: &crud_v2::Operation) -> (r: Result<Option<EventKind>, ConvertError>)
    ensures
        r == watched(op.deep_view()),
{
    if !waits_for_events(op.name.as_str()) {
        return Ok(None);
    }
    match &op.arguments {
        None => Err(ConvertError::Shape),
        Some(args) => match args.get_str("event") {
            None => Err(ConvertError::Shape),
            Some(event) => match event_kind(event) {
                None => Err(ConvertError::UnknownEvent),
                Some(kind) => Ok(Some(kind)),
            },
        },
    }
}

impl crud_v2::Test {
    /// The event kinds that the client of this test case has to observe.
    pub fn observed_events(&self) -> (r: Result<ObservedEvents, ConvertError>)
        ensures
            match r {
                Ok(events) => observed(self.deep_view()) == Ok::<Set<EventKind>, ConvertError>(
                    events@,
                ),
                Err(e) => observed(self.deep_view()) == Err::<Set<EventKind>, ConvertError>(e),
            },
    {
        let mut events = ObservedEvents::none();
        let ghost ops = self.operations.deep_view();
        let mut i: usize = 0;
        while i < self.operations.len()
            invariant
                i <= self.operations.len(),
                ops == self.operations.deep_view(),
                watched_by(ops, i as nat) == Ok::<Set<EventKind>, ConvertError>(events@),
            decreases self.operations.len() - i,
        {
            match watched_event(&self.operations[i]) {
                Err(e) => {
                    proof {
                        lemma_watched_error(ops, (i + 1) as nat, ops.len());
                    }
                    return Err(e);
                },
                Ok(None) => {},
                Ok(Some(kind)) => {
                    events.insert(kind);
                },
            }
            i += 1;
        }
        if self.expectations.is_some() {
            events.insert(EventKind::CommandStarted);
        }
        Ok(events)
    }
}

/// What the first `n` operations make the client observe: there is a set
/// exactly when each of them is in order, and the set holds a kind exactly
/// when one of them waits for it. Started commands are never among them.
pub proof fn lemma_watched_by(ops: Seq<crud_v2::OperationView>, n: nat)
    requires
        n <= ops.len(),
    ensures
        watched_by(ops, n) is Ok <==> forall|k: int| 0 <= k < n ==> watched(#[trigger] ops[k]) is Ok,
        watched_by(ops, n) matches Ok(kinds) ==> forall|kind: EventKind|
            kinds.contains(kind) <==> exists|k: int|
                0 <= k < n && watched(#[trigger] ops[k]) == Ok::<Option<EventKind>, ConvertError>(
                    Some(kind),
                ),
        watched_by(ops, n) matches Ok(kinds) ==> !kinds.contains(EventKind::CommandStarted),
    decreases n,
{
    if n > 0 {
        lemma_watched_by(ops, (n - 1) as nat);
        let before = watched_by(ops, (n - 1) as nat);
        if before is Ok && watched(ops[n - 1]) is Ok {
            let kinds = watched_by(ops, n)->Ok_0;
            assert forall|kind: EventKind| kinds.contains(kind) <==> exists|k: int|
                0 <= k < n && watched(#[trigger] ops[k]) == Ok::<Option<EventKind>, ConvertError>(
                    Some(kind),
                ) by {
                if kinds.contains(kind) {
                    if before->Ok_0.contains(kind) {
                        let k = choose|k: int|
                            0 <= k < n - 1 && watched(#[trigger] ops[k]) == Ok::<
                                Option<EventKind>,
                                ConvertError,
                            >(Some(kind));
                        assert(watched(ops[k]) == Ok::<Option<EventKind>, ConvertError>(Some(kind)));
                    } else {
                        assert(watched(ops[n - 1]) == Ok::<Option<EventKind>, ConvertError>(
                            Some(kind),
                        ));
                    }
                }
                if exists|k: int|
                    0 <= k < n && watched(#[trigger] ops[k]) == Ok::<
                        Option<EventKind>,
                        ConvertError,
                    >(Some(kind)) {
                    let k = choose|k: int|
                        0 <= k < n && watched(#[trigger] ops[k]) == Ok::<
                            Option<EventKind>,
                            ConvertError,
                        >(Some(kind));
                    if k < n - 1 {
                        assert(before->Ok_0.contains(kind));
                    }
                }
            }
        }
    }
}

/// The set that the client of a test case observes: there is one exactly
/// when every operation of the case that waits for events names a known
/// event; it holds started commands exactly when the case has expectations,
/// and any other kind exactly when an operation of the case waits for it.
pub proof fn lemma_observed(test: crud_v2::TestView)
    ensures
        observed(test) is Ok <==> forall|k: int|
            0 <= k < test.operations.len() ==> watched(#[trigger] test.operations[k]) is Ok,
        observed(test) matches Ok(kinds) ==> (kinds.contains(EventKind::CommandStarted)
            <==> test.expectations is Some),
        observed(test) matches Ok(kinds) ==> forall|kind: EventKind|
            kind != EventKind::CommandStarted ==> (kinds.contains(kind) <==> exists|k: int|
                0 <= k < test.operations.len() && watched(#[trigger] test.operations[k]) == Ok::<
                    Option<EventKind>,
                    ConvertError,
                >(Some(kind))),
{
    lemma_watched_by(test.operations, test.operations.len());
}

/// An error among the first operations is the error of the whole list.
pub proof fn lemma_watched_error(ops: Seq<crud_v2::OperationView>, n: nat, m: nat)
    requires
        n <= m <= ops.len(),
        watched_by(ops, n) is Err,
    ensures
        watched_by(ops, m) == watched_by(ops, n),
    decreases m,
{
    if n < m {
        lemma_watched_error(ops, n, (m - 1) as nat);
    }
}

/// The expected result and the expected error of the unified operation.
fn expectation_of(result: Option<crud_v2::OperationResult>, error: Option<bool>) -> (r: (
    Option<Value>,
    Option<ExpectError>,
))
    ensures
        (r.0.deep_view(), r.1.deep_view()) == expectation(result.deep_view(), error),
{
    match result {
        Some(crud_v2::OperationResult::Success(v)) => (Some(v), None),
        Some(crud_v2::OperationResult::Error(e)) => (
            None,
            Some(
                ExpectError {
                    is_error: None,
                    error_contains: e.error_contains,
                    error_code: e.error_code,
                    error_code_name: None,
                    error_labels_contain: e.error_labels_contain,
                    error_labels_omit: e.error_labels_omit,
                },
            ),
        ),
        None => match error {
            Some(true) => (
                None,
                Some(
                    ExpectError {
                        is_error: Some(true),
                        error_contains: None,
                        error_code: None,
                        error_code_name: None,
                        error_labels_contain: None,
                        error_labels_omit: None,
                    },
                ),
            ),
            _ => (None, None),
        },
    }
}

/// The arguments of an operation that waits for events of a kind.
fn event_arguments_of(scope: usize, kind: EventKind, count: &Value) -> (r: Document)
    ensures
        r@ == event_arguments(scope as nat, kind, count@),
{
    let mut doc = Document::new();
    set_text(&mut doc, "client", deref_token(TokenKind::Client, scope).as_str());
    doc.insert("event", Value::Doc(event_document(kind)));
    doc.insert("count", count.clone());
    doc
}

/// The arguments of an operation that waits for another primary.
fn primary_change_arguments_of(scope: usize, old: &Option<Document>) -> (r: Document)
    ensures
        r@ == primary_change_arguments(scope as nat, old.deep_view()),
{
    let mut doc = Document::new();
    set_text(&mut doc, "client", deref_token(TokenKind::Client, scope).as_str());
    set_text(
        &mut doc,
        "priorTopologyDescription",
        deref_token(TokenKind::TopologyDescription, scope).as_str(),
    );
    match old {
        Some(args) => match args.get("timeoutMS") {
            Some(timeout) => {
                doc.insert("timeoutMS", timeout.clone());
            },
            None => {},
        },
        None => {},
    }
    doc
}

/// The arguments of an operation that creates the entity of thread `n`.
fn start_thread_arguments_of(n: usize) -> (r: Document)
    ensures
        r@ == start_thread_arguments(n as nat),
{
    let entity = CreateEntity::Thread { id: definition_token(TokenKind::Thread, n) };
    let mut entities: Vec<Value> = Vec::new();
    entities.push(Value::Doc(entity.to_document()));
    let list = Value::array(entities);
    assert(list@->Array_0 =~= start_thread_arguments(n as nat)[0].1->Array_0) by {
        reveal_strlit("entities");
    }
    let mut doc = Document::new();
    doc.insert("entities", list);
    doc
}

impl Operation {
    /// The unified operation that a legacy operation becomes in the test
    /// case of the given number.
    pub fn from_crud_v2(old_op: crud_v2::Operation, test_number: usize) -> (r: Result<
        Operation,
        ConvertError,
    >)
        ensures
            match r {
                Ok(op) => translated(old_op.deep_view(), test_number as nat) == Ok::<
                    OperationView,
                    ConvertError,
                >(op.deep_view()),
                Err(e) => translated(old_op.deep_view(), test_number as nat) == Err::<
                    OperationView,
                    ConvertError,
                >(e),
            },
        decreases operation_size(old_op.deep_view()),
    {
        let event = match watched_event(&old_op) {
            Ok(kind) => kind,
            Err(e) => {
                return Err(e);
            },
        };
        let crud_v2::Operation { name, object, command_name, arguments, error, result } = old_op;
        let kept = if same_text(object.as_str(), "collection") {
            deref_token(TokenKind::Collection, test_number)
        } else {
            object
        };
        let (expect_result, expect_error) = expectation_of(result, error);
        let target: (String, String, Option<Document>) = if waits_for_events(name.as_str()) {
            match (event, &arguments) {
                (Some(kind), Some(args)) => match args.get("count") {
                    None => {
                        return Err(ConvertError::Shape);
                    },
                    Some(count) => {
                        let doc = event_arguments_of(test_number, kind, count);
                        (name, deref_token(TokenKind::Client, test_number), Some(doc))
                    },
                },
                _ => {
                    return Err(ConvertError::Shape);
                },
            }
        } else if same_text(name.as_str(), "recordPrimary") {
            let mut doc = Document::new();
            set_text(&mut doc, "client", deref_token(TokenKind::Client, test_number).as_str());
            set_text(
                &mut doc,
                "id",
                definition_token(TokenKind::TopologyDescription, test_number).as_str(),
            );
            ("recordTopologyDescription".to_owned(), kept, Some(doc))
        } else if same_text(name.as_str(), "waitForPrimaryChange") {
            let doc = primary_change_arguments_of(test_number, &arguments);
            (name, kept, Some(doc))
        } else if same_text(name.as_str(), "runAdminCommand") || same_text(
            name.as_str(),
            "runCommand",
        ) {
            match (arguments, command_name) {
                (Some(args), Some(command)) => {
                    let mut doc = args;
                    set_text(&mut doc, "commandName", command.as_str());
                    let target_object = if same_text(name.as_str(), "runAdminCommand") {
                        deref_token(TokenKind::AdminDatabase, 0)
                    } else {
                        kept
                    };
                    ("runCommand".to_owned(), target_object, Some(doc))
                },
                _ => {
                    return Err(ConvertError::Shape);
                },
            }
        } else if same_text(name.as_str(), "startThread") || same_text(
            name.as_str(),
            "runOnThread",
        ) || same_text(name.as_str(), "waitForThread") {
            let args = match &arguments {
                Some(args) => args,
                None => {
                    return Err(ConvertError::Shape);
                },
            };
            let thread_name = match args.get_str("name") {
                Some(thread_name) => thread_name,
                None => {
                    return Err(ConvertError::Shape);
                },
            };
            let n = match Operation::thread_number(thread_name) {
                Ok(n) => n,
                Err(e) => {
                    return Err(e);
                },
            };
            if same_text(name.as_str(), "startThread") {
                (
                    "createEntities".to_owned(),
                    "testRunner".to_owned(),
                    Some(start_thread_arguments_of(n)),
                )
            } else if same_text(name.as_str(), "waitForThread") {
                let mut doc = Document::new();
                set_text(&mut doc, "thread", deref_token(TokenKind::Thread, n).as_str());
                (name, kept, Some(doc))
            } else {
                let inner = match args.get("operation") {
                    Some(inner) => inner,
                    None => {
                        return Err(ConvertError::Shape);
                    },
                };
                let nested = match crud_v2::Operation::from_value(inner) {
                    Ok(nested) => nested,
                    Err(_) => {
                        return Err(ConvertError::Shape);
                    },
                };
                proof {
                    lemma_nested_smaller(args@);
                }
                let new_op = match Operation::from_crud_v2(nested, test_number) {
                    Ok(new_op) => new_op,
                    Err(e) => {
                        return Err(e);
                    },
                };
                let mut doc = Document::new();
                set_text(&mut doc, "thread", deref_token(TokenKind::Thread, n).as_str());
                doc.insert("operation", Value::Doc(new_op.to_document()));
                (name, kept, Some(doc))
            }
        } else if same_text(name.as_str(), "configureFailPoint") {
            match arguments {
                Some(args) => {
                    let mut doc = args;
                    set_text(
                        &mut doc,
                        "client",
                        deref_token(TokenKind::SetupClient, 0).as_str(),
                    );
                    ("failPoint".to_owned(), "testRunner".to_owned(), Some(doc))
                },
                None => {
                    return Err(ConvertError::Shape);
                },
            }
        } else {
            (name, kept, arguments)
        };
        Ok(
            Operation {
                name: target.0,
                object: target.1,
                arguments: target.2,
                save_result_as_entity: None,
                expect_result,
                expect_error,
            },
        )
    }

    /// The scope id of the thread of the given legacy name.
    pub fn thread_number(v2_name: &str) -> (r: Result<usize, ConvertError>)
        ensures
            match r {
                Ok(n) => thread_scope(v2_name@) == Some(n as nat),
                Err(e) => e == ConvertError::BadThreadName && thread_scope(v2_name@) is None,
            },
    {
        let name = chars_of(v2_name);
        let prefix = chars_of("thread");
        proof {
            reveal_strlit("thread");
        }
        if !matches_at(&name, 0, &prefix) {
            proof {
                if name@.len() > prefix@.len() && name@.take(prefix@.len() as int) == prefix@ {
                    assert forall|j: int| 0 <= j < prefix@.len() implies name@[0 + j]
                        == #[trigger] prefix@[j] by {
                        assert(name@.take(prefix@.len() as int)[j] == name@[j]);
                    }
                }
            }
            return Err(ConvertError::BadThreadName);
        }
        assert(name@.take(prefix@.len() as int) =~= prefix@) by {
            assert forall|j: int| 0 <= j < prefix@.len() implies name@.take(
                prefix@.len() as int,
            )[j] == prefix@[j] by {
                assert(name@[0 + j] == prefix@[j]);
            }
        }
        match read_number(&name, prefix.len()) {
            Some(n) => {
                if n >= 1 {
                    Ok(n - 1)
                } else {
                    Err(ConvertError::BadThreadName)
                }
            },
            None => Err(ConvertError::BadThreadName),
        }
    }
}

} // verus!
