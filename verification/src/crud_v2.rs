//! The legacy test-file model: one implicit client, database and collection
//! per file, and a flat list of operations per test case.

use crate::value::{DocView, Document, Value, ValueView};
use vstd::prelude::*;

verus! {

/// Whether a test may run against a serverless deployment.
#[derive(Clone, Copy, Debug, PartialEq, Eq, Structural)]
pub enum Serverless {
    Require,
    Forbid,
    Allow,
}

/// A legacy test file.
#[derive(Debug, PartialEq)]
pub struct TestFile {
    pub run_on: Option<Vec<RunOn>>,
    pub database_name: Option<String>,
    pub collection_name: String,
    pub bucket_name: Option<String>,
    pub data: TestData,
    pub tests: Vec<Test>,
}

/// One platform requirement of a legacy test file.
#[derive(Debug, PartialEq)]
pub struct RunOn {
    pub min_server_version: Option<String>,
    pub max_server_version: Option<String>,
    pub topology: Option<Vec<String>>,
    pub serverless: Option<Serverless>,
    pub auth_enabled: Option<bool>,
}

/// The initial fixture data of a legacy test file.
#[derive(Debug, PartialEq)]
pub enum TestData {
    /// The documents of the one collection of the file.
    Single(Vec<Document>),
    /// Documents by collection name, each name once. Files of this shape
    /// can be read but not converted.
    Many(Vec<(String, Vec<Document>)>),
}

/// A legacy test case.
#[derive(Debug, PartialEq)]
pub struct Test {
    pub description: String,
    pub skip_reason: Option<String>,
    pub use_multiple_mongoses: Option<bool>,
    pub client_uri: Option<Document>,
    pub fail_point: Option<Document>,
    /// Options by session name, each name once.
    pub session_options: Option<Vec<(String, Document)>>,
    pub operations: Vec<Operation>,
    pub expectations: Option<Vec<CommandStartedEvent>>,
    pub outcome: Option<Outcome>,
}

/// A command that a legacy test case expects the client to start.
#[derive(Debug, PartialEq)]
pub struct CommandStartedEvent {
    pub command_name: Option<String>,
    pub database_name: Option<String>,
    pub command: Document,
}

/// The state that a legacy test case expects at its end.
#[derive(Debug, PartialEq)]
pub struct Outcome {
    pub collection: CollectionOutcome,
}

/// The expected final contents of the collection.
#[derive(Debug, PartialEq)]
pub struct CollectionOutcome {
    pub name: Option<String>,
    pub data: Vec<Document>,
}

/// A legacy operation.
#[derive(Clone, Debug, PartialEq)]
pub struct Operation {
    pub name: String,
    pub object: String,
    /// The command of a `runCommand` or `runAdminCommand` operation.
    pub command_name: Option<String>,
    pub arguments: Option<Document>,
    pub error: Option<bool>,
    pub result: Option<OperationResult>,
}

/// The structured result that a legacy operation expects.
#[derive(Clone, Debug, PartialEq)]
pub enum OperationResult {
    Error(OperationError),
    Success(Value),
}

/// The error that a legacy operation expects.
#[derive(Clone, Debug, PartialEq)]
pub struct OperationError {
    pub error_contains: Option<String>,
    pub error_code_name: Option<String>,
    pub error_code: Option<i32>,
    pub error_labels_contain: Option<Vec<String>>,
    pub error_labels_omit: Option<Vec<String>>,
}

/// The mathematical value of a [`TestFile`].
pub struct TestFileView {
    pub run_on: Option<Seq<RunOnView>>,
    pub database_name: Option<Seq<char>>,
    pub collection_name: Seq<char>,
    pub bucket_name: Option<Seq<char>>,
    pub data: TestDataView,
    pub tests: Seq<TestView>,
}

/// The mathematical value of a [`RunOn`].
pub struct RunOnView {
    pub min_server_version: Option<Seq<char>>,
    pub max_server_version: Option<Seq<char>>,
    pub topology: Option<Seq<Seq<char>>>,
    pub serverless: Option<Serverless>,
    pub auth_enabled: Option<bool>,
}

/// The mathematical value of a [`TestData`].
pub enum TestDataView {
    Single(Seq<DocView>),
    Many(Seq<(Seq<char>, Seq<DocView>)>),
}

/// The mathematical value of a [`Test`].
pub struct TestView {
    pub description: Seq<char>,
    pub skip_reason: Option<Seq<char>>,
    pub use_multiple_mongoses: Option<bool>,
    pub client_uri: Option<DocView>,
    pub fail_point: Option<DocView>,
    pub session_options: Option<Seq<(Seq<char>, DocView)>>,
    pub operations: Seq<OperationView>,
    pub expectations: Option<Seq<CommandStartedEventView>>,
    pub outcome: Option<OutcomeView>,
}

/// The mathematical value of a [`CommandStartedEvent`].
pub struct CommandStartedEventView {
    pub command_name: Option<Seq<char>>,
    pub database_name: Option<Seq<char>>,
    pub command: DocView,
}

/// The mathematical value of an [`Outcome`].
pub struct OutcomeView {
    pub collection: CollectionOutcomeView,
}

/// The mathematical value of a [`CollectionOutcome`].
pub struct CollectionOutcomeView {
    pub name: Option<Seq<char>>,
    pub data: Seq<DocView>,
}

/// The mathematical value of an [`Operation`].
pub struct OperationView {
    pub name: Seq<char>,
    pub object: Seq<char>,
    pub command_name: Option<Seq<char>>,
    pub arguments: Option<DocView>,
    pub error: Option<bool>,
    pub result: Option<OperationResultView>,
}

/// The mathematical value of an [`OperationResult`].
pub enum OperationResultView {
    Error(OperationErrorView),
    Success(ValueView),
}

/// The mathematical value of an [`OperationError`].
pub struct OperationErrorView {
    pub error_contains: Option<Seq<char>>,
    pub error_code_name: Option<Seq<char>>,
    pub error_code: Option<i32>,
    pub error_labels_contain: Option<Seq<Seq<char>>>,
    pub error_labels_omit: Option<Seq<Seq<char>>>,
}

/// No name occurs twice in a list of named things.
pub open spec fn names_distinct<T>(pairs: Seq<(Seq<char>, T)>) -> bool {
    forall|i: int, j: int|
        0 <= i < j < pairs.len() ==> (#[trigger] pairs[i]).0 != (#[trigger] pairs[j]).0
}

impl TestDataView {
    /// Data by collection name names each collection once.
    pub open spec fn well_formed(self) -> bool {
        match self {
            TestDataView::Single(_) => true,
            TestDataView::Many(groups) => names_distinct(groups),
        }
    }
}

impl TestView {
    /// The session options name each session once.
    pub open spec fn well_formed(self) -> bool {
        match self.session_options {
            Some(options) => names_distinct(options),
            None => true,
        }
    }
}

impl TestFileView {
    /// The data and every test case are well formed.
    pub open spec fn well_formed(self) -> bool {
        &&& self.data.well_formed()
        &&& forall|i: int| 0 <= i < self.tests.len() ==> (#[trigger] self.tests[i]).well_formed()
    }
}

impl DeepView for Serverless {
    type V = Serverless;

    open spec fn deep_view(&self) -> Serverless {
        *self
    }
}

impl DeepView for TestFile {
    type V = TestFileView;

    open spec fn deep_view(&self) -> TestFileView {
        TestFileView {
            run_on: self.run_on.deep_view(),
            database_name: self.database_name.deep_view(),
            collection_name: self.collection_name@,
            bucket_name: self.bucket_name.deep_view(),
            data: self.data.deep_view(),
            tests: self.tests.deep_view(),
        }
    }
}

impl DeepView for RunOn {
    type V = RunOnView;

    open spec fn deep_view(&self) -> RunOnView {
        RunOnView {
            min_server_version: self.min_server_version.deep_view(),
            max_server_version: self.max_server_version.deep_view(),
            topology: self.topology.deep_view(),
            serverless: self.serverless,
            auth_enabled: self.auth_enabled,
        }
    }
}

impl DeepView for TestData {
    type V = TestDataView;

    open spec fn deep_view(&self) -> TestDataView {
        match self {
            TestData::Single(docs) => TestDataView::Single(docs.deep_view()),
            TestData::Many(groups) => TestDataView::Many(groups.deep_view()),
        }
    }
}

impl DeepView for Test {
    type V = TestView;

    open spec fn deep_view(&self) -> TestView {
        TestView {
            description: self.description@,
            skip_reason: self.skip_reason.deep_view(),
            use_multiple_mongoses: self.use_multiple_mongoses,
            client_uri: self.client_uri.deep_view(),
            fail_point: self.fail_point.deep_view(),
            session_options: self.session_options.deep_view(),
            operations: self.operations.deep_view(),
            expectations: self.expectations.deep_view(),
            outcome: self.outcome.deep_view(),
        }
    }
}

impl DeepView for CommandStartedEvent {
    type V = CommandStartedEventView;

    open spec fn deep_view(&self) -> CommandStartedEventView {
        CommandStartedEventView {
            command_name: self.command_name.deep_view(),
            database_name: self.database_name.deep_view(),
            command: self.command@,
        }
    }
}

impl DeepView for Outcome {
    type V = OutcomeView;

    open spec fn deep_view(&self) -> OutcomeView {
        OutcomeView { collection: self.collection.deep_view() }
    }
}

impl DeepView for CollectionOutcome {
    type V = CollectionOutcomeView;

    open spec fn deep_view(&self) -> CollectionOutcomeView {
        CollectionOutcomeView { name: self.name.deep_view(), data: self.data.deep_view() }
    }
}

impl DeepView for Operation {
    type V = OperationView;

    open spec fn deep_view(&self) -> OperationView {
        OperationView {
            name: self.name@,
            object: self.object@,
            command_name: self.command_name.deep_view(),
            arguments: self.arguments.deep_view(),
            error: self.error,
            result: self.result.deep_view(),
        }
    }
}

impl DeepView for OperationResult {
    type V = OperationResultView;

    open spec fn deep_view(&self) -> OperationResultView {
        match self {
            OperationResult::Error(e) => OperationResultView::Error(e.deep_view()),
            OperationResult::Success(v) => OperationResultView::Success(v@),
        }
    }
}

impl DeepView for OperationError {
    type V = OperationErrorView;

    open spec fn deep_view(&self) -> OperationErrorView {
        OperationErrorView {
            error_contains: self.error_contains.deep_view(),
            error_code_name: self.error_code_name.deep_view(),
            error_code: self.error_code,
            error_labels_contain: self.error_labels_contain.deep_view(),
            error_labels_omit: self.error_labels_omit.deep_view(),
        }
    }
}

} // verus!
