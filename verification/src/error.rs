//! Structured, redaction-safe errors.

use vstd::prelude::*;

use vstd::string::StringExecFns;

use crate::fingerprint::{group_absorb, lemma_concat_assoc, Encoded, FingerprintHasher};
use crate::metadata::Metadata;
use crate::record::Record;

verus! {

/// A coarse, stable classification of a runtime error.
#[derive(Debug, Clone, Copy, PartialEq, Eq, Structural)]
pub enum ErrorKind {
    /// A provider (LLM backend) failure.
    Provider,
    /// A tool invocation failure.
    Tool,
    /// The action was denied by the approval policy.
    Approval,
    /// A workspace boundary violation.
    Workspace,
    /// Work was cancelled.
    Cancelled,
    /// A configured limit was reached.
    Limit,
    /// A deadline elapsed.
    Timeout,
    /// Invalid configuration or request.
    Config,
    /// Serialization / deserialization failure.
    Serialization,
    /// A referenced entity was not found.
    NotFound,
    /// A conflicting state (e.g. a duplicate registration).
    Conflict,
    /// An unexpected internal error.
    Internal,
}

impl DeepView for ErrorKind {
    type V = ErrorKind;

    open spec fn deep_view(&self) -> ErrorKind {
        *self
    }
}

impl Record for ErrorKind {
    fn same(&self, other: &Self) -> (r: bool) {
        *self == *other
    }

    fn copied(&self) -> (r: Self) {
        *self
    }
}

impl Encoded for ErrorKind {
    open spec fn fields(view: ErrorKind) -> Seq<Seq<char>> {
        seq![
            match view {
                ErrorKind::Provider => "provider"@,
                ErrorKind::Tool => "tool"@,
                ErrorKind::Approval => "approval"@,
                ErrorKind::Workspace => "workspace"@,
                ErrorKind::Cancelled => "cancelled"@,
                ErrorKind::Limit => "limit"@,
                ErrorKind::Timeout => "timeout"@,
                ErrorKind::Config => "config"@,
                ErrorKind::Serialization => "serialization"@,
                ErrorKind::NotFound => "not_found"@,
                ErrorKind::Conflict => "conflict"@,
                ErrorKind::Internal => "internal"@,
            },
        ]
    }

    fn encode(&self, hasher: &mut FingerprintHasher) {
        broadcast use group_absorb;

        hasher.field(
            match self {
                ErrorKind::Provider => "provider",
                ErrorKind::Tool => "tool",
                ErrorKind::Approval => "approval",
                ErrorKind::Workspace => "workspace",
                ErrorKind::Cancelled => "cancelled",
                ErrorKind::Limit => "limit",
                ErrorKind::Timeout => "timeout",
                ErrorKind::Config => "config",
                ErrorKind::Serialization => "serialization",
                ErrorKind::NotFound => "not_found",
                ErrorKind::Conflict => "conflict",
                ErrorKind::Internal => "internal",
            },
        );
    }

    proof fn lemma_decodable(a: ErrorKind, b: ErrorKind, x: Seq<Seq<char>>, y: Seq<Seq<char>>) {
        reveal_strlit("provider");
        assert("provider"@.len() == 8);
        reveal_strlit("tool");
        assert("tool"@.len() == 4);
        reveal_strlit("approval");
        assert("approval"@.len() == 8);
        reveal_strlit("workspace");
        assert("workspace"@.len() == 9);
        reveal_strlit("cancelled");
        assert("cancelled"@.len() == 9);
        reveal_strlit("limit");
        assert("limit"@.len() == 5);
        reveal_strlit("timeout");
        assert("timeout"@.len() == 7);
        reveal_strlit("config");
        assert("config"@.len() == 6);
        reveal_strlit("serialization");
        assert("serialization"@.len() == 13);
        reveal_strlit("not_found");
        assert("not_found"@.len() == 9);
        reveal_strlit("conflict");
        assert("conflict"@.len() == 8);
        reveal_strlit("internal");
        assert("internal"@.len() == 8);
        assert("provider"@[0] != "approval"@[0]);
        assert("provider"@[0] != "conflict"@[0]);
        assert("provider"@[0] != "internal"@[0]);
        assert("approval"@[0] != "conflict"@[0]);
        assert("approval"@[0] != "internal"@[0]);
        assert("workspace"@[0] != "cancelled"@[0]);
        assert("workspace"@[0] != "not_found"@[0]);
        assert("cancelled"@[0] != "not_found"@[0]);
        assert("conflict"@[0] != "internal"@[0]);
        String::lemma_decodable(Self::fields(a)[0], Self::fields(b)[0], x, y);
        assert(Self::fields(a)[0] == Self::fields(b)[0]);
    }
}

impl ErrorKind {
    /// The name of the kind.
    pub open spec fn label(self) -> Seq<char> {
        match self {
            ErrorKind::Provider => "Provider"@,
            ErrorKind::Tool => "Tool"@,
            ErrorKind::Approval => "Approval"@,
            ErrorKind::Workspace => "Workspace"@,
            ErrorKind::Cancelled => "Cancelled"@,
            ErrorKind::Limit => "Limit"@,
            ErrorKind::Timeout => "Timeout"@,
            ErrorKind::Config => "Config"@,
            ErrorKind::Serialization => "Serialization"@,
            ErrorKind::NotFound => "NotFound"@,
            ErrorKind::Conflict => "Conflict"@,
            ErrorKind::Internal => "Internal"@,
        }
    }

    /// The name of the kind.
    pub fn name(self) -> (r: &'static str)
        ensures
            r@ == self.label(),
    {
        match self {
            ErrorKind::Provider => "Provider",
            ErrorKind::Tool => "Tool",
            ErrorKind::Approval => "Approval",
            ErrorKind::Workspace => "Workspace",
            ErrorKind::Cancelled => "Cancelled",
            ErrorKind::Limit => "Limit",
            ErrorKind::Timeout => "Timeout",
            ErrorKind::Config => "Config",
            ErrorKind::Serialization => "Serialization",
            ErrorKind::NotFound => "NotFound",
            ErrorKind::Conflict => "Conflict",
            ErrorKind::Internal => "Internal",
        }
    }
}

/// The canonical error type of the runtime.
#[derive(Debug, PartialEq, Eq)]
pub struct RuntimeError {
    /// The coarse classification.
    pub kind: ErrorKind,
    /// A human-readable, redaction-safe message.
    pub message: String,
    /// Whether retrying the operation might succeed.
    pub retryable: bool,
    /// Redaction-safe structured context.
    pub metadata: Metadata,
}

/// What a [`RuntimeError`] holds.
pub struct RuntimeErrorView {
    pub kind: ErrorKind,
    pub message: Seq<char>,
    pub retryable: bool,
    pub metadata: Seq<(Seq<char>, Seq<char>)>,
}

impl DeepView for RuntimeError {
    type V = RuntimeErrorView;

    open spec fn deep_view(&self) -> RuntimeErrorView {
        RuntimeErrorView {
            kind: self.kind.deep_view(),
            message: self.message.deep_view(),
            retryable: self.retryable.deep_view(),
            metadata: self.metadata.deep_view(),
        }
    }
}

impl View for RuntimeError {
    type V = RuntimeErrorView;

    open spec fn view(&self) -> RuntimeErrorView {
        self.deep_view()
    }
}

impl Record for RuntimeError {
    fn same(&self, other: &Self) -> (r: bool) {
        self.kind.same(&other.kind)
            && self.message.same(&other.message)
            && self.retryable.same(&other.retryable)
            && self.metadata.same(&other.metadata)
    }

    fn copied(&self) -> (r: Self) {
        RuntimeError {
            kind: self.kind.copied(),
            message: self.message.copied(),
            retryable: self.retryable.copied(),
            metadata: self.metadata.copied(),
        }
    }
}

impl Clone for RuntimeError {
    fn clone(&self) -> (r: Self)
        ensures
            r@ == self@,
    {
        self.copied()
    }
}

impl Encoded for RuntimeError {
    open spec fn fields(view: RuntimeErrorView) -> Seq<Seq<char>> {
        <ErrorKind as Encoded>::fields(view.kind)
            + <String as Encoded>::fields(view.message)
            + <bool as Encoded>::fields(view.retryable)
            + <Metadata as Encoded>::fields(view.metadata)
    }

    fn encode(&self, hasher: &mut FingerprintHasher) {
        broadcast use group_absorb;

        self.kind.encode(hasher);
        self.message.encode(hasher);
        self.retryable.encode(hasher);
        self.metadata.encode(hasher);
    }

    proof fn lemma_decodable(
        a: RuntimeErrorView,
        b: RuntimeErrorView,
        x: Seq<Seq<char>>,
        y: Seq<Seq<char>>,
    ) {
        broadcast use lemma_concat_assoc;

        let x3 = Metadata::fields(a.metadata) + x;
        let y3 = Metadata::fields(b.metadata) + y;
        let x2 = bool::fields(a.retryable) + x3;
        let y2 = bool::fields(b.retryable) + y3;
        let x1 = String::fields(a.message) + x2;
        let y1 = String::fields(b.message) + y2;
        ErrorKind::lemma_decodable(a.kind, b.kind, x1, y1);
        String::lemma_decodable(a.message, b.message, x2, y2);
        bool::lemma_decodable(a.retryable, b.retryable, x3, y3);
        Metadata::lemma_decodable(a.metadata, b.metadata, x, y);
    }
}

/// A plain error: not retryable, without metadata.
pub open spec fn plain_error(kind: ErrorKind, message: Seq<char>) -> RuntimeErrorView {
    RuntimeErrorView { kind, message, retryable: false, metadata: Seq::empty() }
}

/// A plain [`ErrorKind::Conflict`] error.
pub open spec fn conflict_error(message: Seq<char>) -> RuntimeErrorView {
    plain_error(ErrorKind::Conflict, message)
}

/// A plain [`ErrorKind::Config`] error.
pub open spec fn config_error(message: Seq<char>) -> RuntimeErrorView {
    plain_error(ErrorKind::Config, message)
}

/// What a validation returned: nothing, or the error that it found.
pub open spec fn outcome_view(r: Result<(), RuntimeError>) -> Result<(), RuntimeErrorView> {
    match r {
        Ok(()) => Ok(()),
        Err(e) => Err(e@),
    }
}

/// What a validation returns that finds `fault`, or nothing.
pub open spec fn verdict(fault: Option<RuntimeErrorView>) -> Result<(), RuntimeErrorView> {
    match fault {
        None => Ok(()),
        Some(e) => Err(e),
    }
}

impl RuntimeError {
    /// Builds an error of the given kind.
    pub fn new(kind: ErrorKind, message: &str) -> (r: RuntimeError)
        ensures
            r@ == plain_error(kind, message@),
    {
        RuntimeError {
            kind,
            message: message.to_owned(),
            retryable: false,
            metadata: Metadata::new(),
        }
    }

    /// Marks the error retryable.
    pub fn retryable(self) -> (r: RuntimeError)
        ensures
            r@ == (RuntimeErrorView { retryable: true, ..self@ }),
    {
        RuntimeError {
            kind: self.kind,
            message: self.message,
            retryable: true,
            metadata: self.metadata,
        }
    }

    /// Attaches metadata.
    pub fn with_metadata(self, metadata: Metadata) -> (r: RuntimeError)
        ensures
            r@ == (RuntimeErrorView { metadata: metadata@, ..self@ }),
    {
        RuntimeError {
            kind: self.kind,
            message: self.message,
            retryable: self.retryable,
            metadata,
        }
    }

    /// Whether retrying might succeed.
    pub fn is_retryable(&self) -> (r: bool)
        ensures
            r == self@.retryable,
    {
        self.retryable
    }

    /// A [`ErrorKind::Config`] error.
    pub fn config(message: &str) -> (r: RuntimeError)
        ensures
            r@ == plain_error(ErrorKind::Config, message@),
    {
        RuntimeError::new(ErrorKind::Config, message)
    }

    /// A [`ErrorKind::Tool`] error.
    pub fn tool(message: &str) -> (r: RuntimeError)
        ensures
            r@ == plain_error(ErrorKind::Tool, message@),
    {
        RuntimeError::new(ErrorKind::Tool, message)
    }

    /// An [`ErrorKind::Approval`] error.
    pub fn approval(message: &str) -> (r: RuntimeError)
        ensures
            r@ == plain_error(ErrorKind::Approval, message@),
    {
        RuntimeError::new(ErrorKind::Approval, message)
    }

    /// A [`ErrorKind::Workspace`] error.
    pub fn workspace(message: &str) -> (r: RuntimeError)
        ensures
            r@ == plain_error(ErrorKind::Workspace, message@),
    {
        RuntimeError::new(ErrorKind::Workspace, message)
    }

    /// A [`ErrorKind::Cancelled`] error.
    pub fn cancelled(message: &str) -> (r: RuntimeError)
        ensures
            r@ == plain_error(ErrorKind::Cancelled, message@),
    {
        RuntimeError::new(ErrorKind::Cancelled, message)
    }

    /// A [`ErrorKind::Limit`] error.
    pub fn limit(message: &str) -> (r: RuntimeError)
        ensures
            r@ == plain_error(ErrorKind::Limit, message@),
    {
        RuntimeError::new(ErrorKind::Limit, message)
    }

    /// A [`ErrorKind::NotFound`] error.
    pub fn not_found(message: &str) -> (r: RuntimeError)
        ensures
            r@ == plain_error(ErrorKind::NotFound, message@),
    {
        RuntimeError::new(ErrorKind::NotFound, message)
    }

    /// A [`ErrorKind::Conflict`] error.
    pub fn conflict(message: &str) -> (r: RuntimeError)
        ensures
            r@ == plain_error(ErrorKind::Conflict, message@),
    {
        RuntimeError::new(ErrorKind::Conflict, message)
    }

    /// An [`ErrorKind::Internal`] error.
    pub fn internal(message: &str) -> (r: RuntimeError)
        ensures
            r@ == plain_error(ErrorKind::Internal, message@),
    {
        RuntimeError::new(ErrorKind::Internal, message)
    }

    /// The error as text: the name of its kind, a colon, the message.
    pub fn to_text(&self) -> (r: String)
        ensures
            r@ == self@.kind.label() + ": "@ + self@.message,
    {
        let mut out = self.kind.name().to_owned();
        out.append(": ");
        out.append(self.message.as_str());
        out
    }

    /// The [`ErrorKind::Serialization`] error for a JSON failure. Its message
    /// is the failure's own text.
    pub fn serialization(error: &serde_json::Error) -> (r: RuntimeError)
        ensures
            r@ == plain_error(ErrorKind::Serialization, r@.message),
            vstd::string::to_string_from_display_ensures::<serde_json::Error>(error, r.message),
    {
        RuntimeError {
            kind: ErrorKind::Serialization,
            message: error.to_string(),
            retryable: false,
            metadata: Metadata::new(),
        }
    }
}

/// `serde_json::Error`, carried without a look inside.
#[verifier::external_type_specification]
#[verifier::external_body]
pub struct ExJsonError(serde_json::Error);

impl From<serde_json::Error> for RuntimeError {
    fn from(error: serde_json::Error) -> (r: RuntimeError)
        ensures
            r@ == plain_error(ErrorKind::Serialization, r@.message),
            vstd::string::to_string_from_display_ensures::<serde_json::Error>(&error, r.message),
    {
        RuntimeError::serialization(&error)
    }
}

impl vstd::std_specs::convert::FromSpecImpl<serde_json::Error> for RuntimeError {
    open spec fn obeys_from_spec() -> bool {
        false
    }

    open spec fn from_spec(error: serde_json::Error) -> RuntimeError {
        arbitrary()
    }
}

/// A plain error is of that kind, has that message, is not retryable, and has no metadata.
pub proof fn a_plain_error_is_of_its_kind(kind: ErrorKind, message: Seq<char>)
    ensures
        plain_error(kind, message).kind == kind,
        plain_error(kind, message).message == message,
        !plain_error(kind, message).retryable,
        plain_error(kind, message).metadata.len() == 0,
        conflict_error(message) == plain_error(ErrorKind::Conflict, message),
        config_error(message) == plain_error(ErrorKind::Config, message),
{
}

/// A validation succeeds exactly when nothing is wrong, and otherwise fails with what is.
pub proof fn a_verdict_is_of_the_fault(fault: Option<RuntimeErrorView>)
    ensures
        verdict(fault) is Ok <==> fault is None,
        verdict(fault) matches Err(e) ==> fault == Some(e),
{
}

/// A kind of error has a stable name of its own.
pub proof fn error_kinds_have_stable_names(x: ErrorKind)
    ensures
        x == ErrorKind::Provider ==> x.label() == "Provider"@,
        x == ErrorKind::Tool ==> x.label() == "Tool"@,
        x == ErrorKind::Approval ==> x.label() == "Approval"@,
        x == ErrorKind::Workspace ==> x.label() == "Workspace"@,
        x == ErrorKind::Cancelled ==> x.label() == "Cancelled"@,
        x == ErrorKind::Limit ==> x.label() == "Limit"@,
        x == ErrorKind::Timeout ==> x.label() == "Timeout"@,
        x == ErrorKind::Config ==> x.label() == "Config"@,
        x == ErrorKind::Serialization ==> x.label() == "Serialization"@,
        x == ErrorKind::NotFound ==> x.label() == "NotFound"@,
        x == ErrorKind::Conflict ==> x.label() == "Conflict"@,
        x == ErrorKind::Internal ==> x.label() == "Internal"@,
{
}

/// An error is of the kind that its constructor names, with the given message, and neither
/// retryable nor with metadata; making it retryable changes nothing else.
pub proof fn errors_are_of_the_kind_they_are_made_for(
    message: &str,
    config: RuntimeError,
    tool: RuntimeError,
    approval: RuntimeError,
    workspace: RuntimeError,
    cancelled: RuntimeError,
    limit: RuntimeError,
    not_found: RuntimeError,
    conflict: RuntimeError,
    internal: RuntimeError,
)
    requires
        call_ensures(RuntimeError::config, (message,), config),
        call_ensures(RuntimeError::tool, (message,), tool),
        call_ensures(RuntimeError::approval, (message,), approval),
        call_ensures(RuntimeError::workspace, (message,), workspace),
        call_ensures(RuntimeError::cancelled, (message,), cancelled),
        call_ensures(RuntimeError::limit, (message,), limit),
        call_ensures(RuntimeError::not_found, (message,), not_found),
        call_ensures(RuntimeError::conflict, (message,), conflict),
        call_ensures(RuntimeError::internal, (message,), internal),
    ensures
        is_bare(config@, ErrorKind::Config, message@),
        is_bare(tool@, ErrorKind::Tool, message@),
        is_bare(approval@, ErrorKind::Approval, message@),
        is_bare(workspace@, ErrorKind::Workspace, message@),
        is_bare(cancelled@, ErrorKind::Cancelled, message@),
        is_bare(limit@, ErrorKind::Limit, message@),
        is_bare(not_found@, ErrorKind::NotFound, message@),
        is_bare(conflict@, ErrorKind::Conflict, message@),
        is_bare(internal@, ErrorKind::Internal, message@),
{
}

/// Whether an error is of the kind and has the message, and nothing more.
pub open spec fn is_bare(error: RuntimeErrorView, kind: ErrorKind, message: Seq<char>) -> bool {
    &&& error.kind == kind
    &&& error.message == message
    &&& !error.retryable
    &&& error.metadata.len() == 0
}

/// An error is retryable exactly from when it was made so, and keeps its kind and message with
/// that and with metadata.
pub proof fn an_error_keeps_its_kind_and_message(
    kind: ErrorKind,
    message: &str,
    metadata: Metadata,
    made: RuntimeError,
    again: RuntimeError,
    told: RuntimeError,
    before: bool,
    after: bool,
)
    requires
        call_ensures(RuntimeError::new, (kind, message), made),
        call_ensures(RuntimeError::retryable, (made,), again),
        call_ensures(RuntimeError::with_metadata, (again, metadata), told),
        call_ensures(RuntimeError::is_retryable, (&made,), before),
        call_ensures(RuntimeError::is_retryable, (&told,), after),
    ensures
        !before,
        after,
        told@.kind == kind,
        told@.message == message@,
        told@.metadata == metadata@,
{
}

/// An error in words begins with its kind and ends with its message.
pub proof fn an_error_in_words_tells_kind_and_message(error: RuntimeError, r: String)
    requires
        call_ensures(RuntimeError::to_text, (&error,), r),
    ensures
        ({
            let (kind, message) = (error@.kind.label(), error@.message);
            &&& r@.len() == kind.len() + 2 + message.len()
            &&& r@.subrange(0, kind.len() as int) == kind
            &&& r@.subrange(kind.len() as int + 2, r@.len() as int) == message
        }),
{
    reveal_strlit(": ");
    let (kind, message) = (error@.kind.label(), error@.message);
    assert(r@ == kind + ": "@ + message);
    assert(r@.subrange(0, kind.len() as int) =~= kind);
    assert(r@.subrange(kind.len() as int + 2, r@.len() as int) =~= message);
}

} // verus!
