//! Protected, exact turn checkpoints.
//!
//! Checkpoints are deliberately separate from observability events. Events are
//! bounded and may redact sensitive values; a checkpoint contains the exact
//! provider request, prepared invocation, and committed results needed to
//! resume without repeating an external operation.

use vstd::prelude::*;

use vstd::utf8::encode_utf8;

use crate::clock::{Deadline, Timestamp};
use crate::collections::TextMap;
use crate::content::{
    ContentPart, ContentPartView, InternalTurnInput, InternalTurnInputView, ToolCall, ToolCallView,
    ToolResultBlock, ToolResultBlockView, UserInput, UserInputView,
};
use crate::error::{conflict_error, outcome_view, verdict, RuntimeError, RuntimeErrorView};
use crate::event::{
    CacheOperationOutcome, CacheOperationReason, CacheState, TurnFinish, TurnFinishView,
};
use crate::fingerprint::{
    absorb_all, group_absorb, lemma_absorb_concat, lemma_absorb_one, lemma_concat_assoc, Encoded,
    Fingerprint, FingerprintHasher,
};
use crate::ids::{AttemptId, CacheOperationId, RequestId, SessionId, ToolCallId, TurnId};
use crate::interaction::{
    InteractionRequest, InteractionRequestView, InteractionResponse, InteractionResponseView,
};
use crate::provider::{
    CacheAvailabilityEvidence, CacheAvailabilityEvidenceView, CacheIdentity, CacheIdentityView,
    FinishReason, ProviderAttemptPurpose, ProviderErrorKind, ProviderRequest, ProviderRequestView,
};
use crate::record::Record;
use crate::store::{SessionSnapshot, SessionSnapshotView};
use crate::text::{all_of_class, byte_len, is_of_class, ByteClass};
use crate::tool::{PreparedToolCall, PreparedToolCallView, ToolOutcome, ToolOutcomeView};

pub mod calls;
pub mod laws;
pub mod recovery;
pub mod slots;
pub mod steps;
pub mod transition;
pub mod validation;

verus! {

/// The protected-checkpoint wire schema.
pub const CHECKPOINT_SCHEMA_VERSION: u32 = 3;

/// The direct turn-machine transition-table revision.
///
/// A runtime rejects a checkpoint with a transition revision it cannot execute
/// equivalently: silent best-effort recovery could repeat a provider call or a
/// tool side effect.
pub const TURN_TRANSITION_REVISION: u32 = 4;

/// The longest cache operation identity, in bytes.
pub const MAX_CACHE_CHECKPOINT_OPERATION_BYTES: usize = 256;

/// The largest number of metrics of a cache operation result.
pub const MAX_CACHE_CHECKPOINT_METRICS: usize = 64;

/// The longest key of a metric, in bytes.
pub const MAX_CACHE_CHECKPOINT_METRIC_KEY_BYTES: usize = 128;

/// Whether `operation` is a bounded, redaction-safe cache operation identity.
pub open spec fn is_cache_operation_id(operation: Seq<char>) -> bool {
    &&& 0 < encode_utf8(operation).len() <= MAX_CACHE_CHECKPOINT_OPERATION_BYTES
    &&& all_of_class(ByteClass::Token, operation)
}

/// The error of a malformed cache operation identity.
pub open spec fn operation_id_error() -> RuntimeErrorView {
    conflict_error("cache operation identity is empty, too long, or malformed"@)
}

/// Validates the bounded, redaction-safe identifier used by cache idempotency
/// and protected lifecycle checkpoints.
pub fn validate_cache_operation_id(operation: &CacheOperationId) -> (r: Result<(), RuntimeError>)
    ensures
        outcome_view(r) == (if is_cache_operation_id(operation@) {
            Ok(())
        } else {
            Err(operation_id_error())
        }),
{
    let value = operation.as_str();
    let length = byte_len(value);
    if length == 0 || length > MAX_CACHE_CHECKPOINT_OPERATION_BYTES || !is_of_class(
        ByteClass::Token,
        value,
    ) {
        return Err(
            RuntimeError::conflict("cache operation identity is empty, too long, or malformed"),
        );
    }
    Ok(())
}

/// Event/checkpoint progress connecting protected state to the redacted
/// observability stream.
#[derive(Debug, PartialEq, Eq)]
pub struct CheckpointWatermark {
    /// Monotonic checkpoint sequence within one session, starting at one.
    pub checkpoint_sequence: u64,
    /// The next event-envelope sequence when this checkpoint was written.
    /// Events before it are known to precede this protected state; events
    /// at or after it are a crash-window tail.
    pub event_sequence: u64,
    /// Optional event-journal scope: the synthetic turn of a cache operation.
    pub journal_turn: Option<TurnId>,
}

/// What a [`CheckpointWatermark`] holds.
pub struct CheckpointWatermarkView {
    pub checkpoint_sequence: u64,
    pub event_sequence: u64,
    pub journal_turn: Option<Seq<char>>,
}

impl DeepView for CheckpointWatermark {
    type V = CheckpointWatermarkView;

    open spec fn deep_view(&self) -> CheckpointWatermarkView {
        CheckpointWatermarkView {
            checkpoint_sequence: self.checkpoint_sequence.deep_view(),
            event_sequence: self.event_sequence.deep_view(),
            journal_turn: self.journal_turn.deep_view(),
        }
    }
}

impl View for CheckpointWatermark {
    type V = CheckpointWatermarkView;

    open spec fn view(&self) -> CheckpointWatermarkView {
        self.deep_view()
    }
}

impl Record for CheckpointWatermark {
    fn same(&self, other: &Self) -> (r: bool) {
        self.checkpoint_sequence.same(&other.checkpoint_sequence)
            && self.event_sequence.same(&other.event_sequence)
            && self.journal_turn.same(&other.journal_turn)
    }

    fn copied(&self) -> (r: Self) {
        CheckpointWatermark {
            checkpoint_sequence: self.checkpoint_sequence.copied(),
            event_sequence: self.event_sequence.copied(),
            journal_turn: self.journal_turn.copied(),
        }
    }
}

impl Clone for CheckpointWatermark {
    fn clone(&self) -> (r: Self)
        ensures
            r@ == self@,
    {
        self.copied()
    }
}

impl CheckpointWatermarkView {
    /// The watermark of the next checkpoint.
    pub open spec fn advanced(self, event_sequence: u64) -> CheckpointWatermarkView {
        CheckpointWatermarkView {
            checkpoint_sequence: successor(self.checkpoint_sequence),
            event_sequence,
            journal_turn: self.journal_turn,
        }
    }
}

/// One more than `n`, or `n` if there is no more.
pub open spec fn successor(n: u64) -> u64 {
    if n < u64::MAX {
        (n + 1) as u64
    } else {
        n
    }
}

impl CheckpointWatermark {
    /// Creates a watermark.
    pub fn new(checkpoint_sequence: u64, event_sequence: u64) -> (r: CheckpointWatermark)
        ensures
            r@ == (CheckpointWatermarkView {
                checkpoint_sequence,
                event_sequence,
                journal_turn: None,
            }),
    {
        CheckpointWatermark { checkpoint_sequence, event_sequence, journal_turn: None }
    }

    /// Attaches the synthetic turn whose events are reconciled at this
    /// watermark.
    pub fn scoped_to(self, turn: TurnId) -> (r: CheckpointWatermark)
        ensures
            r@ == (CheckpointWatermarkView { journal_turn: Some(turn@), ..self@ }),
    {
        CheckpointWatermark {
            checkpoint_sequence: self.checkpoint_sequence,
            event_sequence: self.event_sequence,
            journal_turn: Some(turn),
        }
    }

    /// Advances to the next checkpoint at the supplied event boundary.
    pub fn next(self, event_sequence: u64) -> (r: CheckpointWatermark)
        ensures
            r@ == self@.advanced(event_sequence),
    {
        CheckpointWatermark {
            checkpoint_sequence: self.checkpoint_sequence.saturating_add(1),
            event_sequence,
            journal_turn: self.journal_turn,
        }
    }
}

/// A bounded event-journal reconciliation boundary. Without a turn the
/// truncation is session-wide; with one it is limited to that synthetic turn.
#[derive(Debug, PartialEq, Eq)]
pub struct JournalTruncationScope {
    /// The first sequence in the checkpoint's crash-window tail.
    pub event_sequence: u64,
    /// Optional synthetic turn to which truncation is limited.
    pub turn: Option<TurnId>,
}

/// What a [`JournalTruncationScope`] holds.
pub struct JournalTruncationScopeView {
    pub event_sequence: u64,
    pub turn: Option<Seq<char>>,
}

impl DeepView for JournalTruncationScope {
    type V = JournalTruncationScopeView;

    open spec fn deep_view(&self) -> JournalTruncationScopeView {
        JournalTruncationScopeView {
            event_sequence: self.event_sequence.deep_view(),
            turn: self.turn.deep_view(),
        }
    }
}

impl View for JournalTruncationScope {
    type V = JournalTruncationScopeView;

    open spec fn view(&self) -> JournalTruncationScopeView {
        self.deep_view()
    }
}

impl Record for JournalTruncationScope {
    fn same(&self, other: &Self) -> (r: bool) {
        self.event_sequence.same(&other.event_sequence)
            && self.turn.same(&other.turn)
    }

    fn copied(&self) -> (r: Self) {
        JournalTruncationScope {
            event_sequence: self.event_sequence.copied(),
            turn: self.turn.copied(),
        }
    }
}

impl Clone for JournalTruncationScope {
    fn clone(&self) -> (r: Self)
        ensures
            r@ == self@,
    {
        self.copied()
    }
}

/// A fully assembled, successful provider-attempt response.
#[derive(Debug, PartialEq, Eq)]
pub struct AssembledModelResponse {
    /// Successful provider-attempt identity.
    pub attempt: AttemptId,
    /// Committed visible text.
    pub text: String,
    /// Committed reasoning parts retained for same-turn continuation.
    pub reasoning: Vec<ContentPart>,
    /// Fully assembled and schema-validated tool calls.
    pub tool_calls: Vec<ToolCall>,
    /// Tool names advertised by the exact frozen request that produced this
    /// response.
    pub advertised_tools: Vec<String>,
    /// The successful attempt's terminal reason.
    pub finish: FinishReason,
}

/// What a [`AssembledModelResponse`] holds.
pub struct AssembledModelResponseView {
    pub attempt: Seq<char>,
    pub text: Seq<char>,
    pub reasoning: Seq<ContentPartView>,
    pub tool_calls: Seq<ToolCallView>,
    pub advertised_tools: Seq<Seq<char>>,
    pub finish: FinishReason,
}

impl DeepView for AssembledModelResponse {
    type V = AssembledModelResponseView;

    open spec fn deep_view(&self) -> AssembledModelResponseView {
        AssembledModelResponseView {
            attempt: self.attempt.deep_view(),
            text: self.text.deep_view(),
            reasoning: self.reasoning.deep_view(),
            tool_calls: self.tool_calls.deep_view(),
            advertised_tools: self.advertised_tools.deep_view(),
            finish: self.finish.deep_view(),
        }
    }
}

impl View for AssembledModelResponse {
    type V = AssembledModelResponseView;

    open spec fn view(&self) -> AssembledModelResponseView {
        self.deep_view()
    }
}

impl Record for AssembledModelResponse {
    fn same(&self, other: &Self) -> (r: bool) {
        self.attempt.same(&other.attempt)
            && self.text.same(&other.text)
            && self.reasoning.same(&other.reasoning)
            && self.tool_calls.same(&other.tool_calls)
            && self.advertised_tools.same(&other.advertised_tools)
            && self.finish.same(&other.finish)
    }

    fn copied(&self) -> (r: Self) {
        AssembledModelResponse {
            attempt: self.attempt.copied(),
            text: self.text.copied(),
            reasoning: self.reasoning.copied(),
            tool_calls: self.tool_calls.copied(),
            advertised_tools: self.advertised_tools.copied(),
            finish: self.finish.copied(),
        }
    }
}

impl Clone for AssembledModelResponse {
    fn clone(&self) -> (r: Self)
        ensures
            r@ == self@,
    {
        self.copied()
    }
}

impl Encoded for AssembledModelResponse {
    open spec fn fields(view: AssembledModelResponseView) -> Seq<Seq<char>> {
        <AttemptId as Encoded>::fields(view.attempt)
            + <String as Encoded>::fields(view.text)
            + <Vec<ContentPart> as Encoded>::fields(view.reasoning)
            + <Vec<ToolCall> as Encoded>::fields(view.tool_calls)
            + <Vec<String> as Encoded>::fields(view.advertised_tools)
            + <FinishReason as Encoded>::fields(view.finish)
    }

    fn encode(&self, hasher: &mut FingerprintHasher) {
        broadcast use group_absorb;

        self.attempt.encode(hasher);
        self.text.encode(hasher);
        self.reasoning.encode(hasher);
        self.tool_calls.encode(hasher);
        self.advertised_tools.encode(hasher);
        self.finish.encode(hasher);
    }

    proof fn lemma_decodable(
        a: AssembledModelResponseView,
        b: AssembledModelResponseView,
        x: Seq<Seq<char>>,
        y: Seq<Seq<char>>,
    ) {
        broadcast use lemma_concat_assoc;

        let x5 = FinishReason::fields(a.finish) + x;
        let y5 = FinishReason::fields(b.finish) + y;
        let x4 = Vec::<String>::fields(a.advertised_tools) + x5;
        let y4 = Vec::<String>::fields(b.advertised_tools) + y5;
        let x3 = Vec::<ToolCall>::fields(a.tool_calls) + x4;
        let y3 = Vec::<ToolCall>::fields(b.tool_calls) + y4;
        let x2 = Vec::<ContentPart>::fields(a.reasoning) + x3;
        let y2 = Vec::<ContentPart>::fields(b.reasoning) + y3;
        let x1 = String::fields(a.text) + x2;
        let y1 = String::fields(b.text) + y2;
        AttemptId::lemma_decodable(a.attempt, b.attempt, x1, y1);
        String::lemma_decodable(a.text, b.text, x2, y2);
        Vec::<ContentPart>::lemma_decodable(a.reasoning, b.reasoning, x3, y3);
        Vec::<ToolCall>::lemma_decodable(a.tool_calls, b.tool_calls, x4, y4);
        Vec::<String>::lemma_decodable(a.advertised_tools, b.advertised_tools, x5, y5);
        FinishReason::lemma_decodable(a.finish, b.finish, x, y);
    }
}

/// Exact disposition of a source-call slot while a mixed batch is suspended for
/// host interaction.
#[derive(Debug, PartialEq, Eq)]
pub enum ToolSlotCheckpoint {
    /// Exact prepared action, including an interaction action or a later
    /// ordinary action that has not executed yet.
    Prepared(PreparedToolCall),
    /// Deterministic preparation/authorization/approval result already known
    /// before any invocation began.
    CanonicalResult(ToolResultBlock),
}

/// What a [`ToolSlotCheckpoint`] holds.
pub enum ToolSlotCheckpointView {
    Prepared(PreparedToolCallView),
    CanonicalResult(ToolResultBlockView),
}

impl DeepView for ToolSlotCheckpoint {
    type V = ToolSlotCheckpointView;

    open spec fn deep_view(&self) -> ToolSlotCheckpointView {
        match self {
            ToolSlotCheckpoint::Prepared(x0) => ToolSlotCheckpointView::Prepared(x0.deep_view()),
            ToolSlotCheckpoint::CanonicalResult(x0) => ToolSlotCheckpointView::CanonicalResult(
                x0.deep_view(),
            ),
        }
    }
}

impl View for ToolSlotCheckpoint {
    type V = ToolSlotCheckpointView;

    open spec fn view(&self) -> ToolSlotCheckpointView {
        self.deep_view()
    }
}

impl Record for ToolSlotCheckpoint {
    fn same(&self, other: &Self) -> (r: bool) {
        match (self, other) {
            (ToolSlotCheckpoint::Prepared(x0), ToolSlotCheckpoint::Prepared(x0_b)) => x0.same(x0_b),
            (
                ToolSlotCheckpoint::CanonicalResult(x0),
                ToolSlotCheckpoint::CanonicalResult(x0_b),
            ) => {
                x0.same(x0_b)
            },
            _ => false,
        }
    }

    fn copied(&self) -> (r: Self) {
        match self {
            ToolSlotCheckpoint::Prepared(x0) => ToolSlotCheckpoint::Prepared(x0.copied()),
            ToolSlotCheckpoint::CanonicalResult(x0) => ToolSlotCheckpoint::CanonicalResult(
                x0.copied(),
            ),
        }
    }
}

impl Clone for ToolSlotCheckpoint {
    fn clone(&self) -> (r: Self)
        ensures
            r@ == self@,
    {
        self.copied()
    }
}

impl Encoded for ToolSlotCheckpoint {
    open spec fn fields(view: ToolSlotCheckpointView) -> Seq<Seq<char>> {
        match view {
            ToolSlotCheckpointView::Prepared(x0) => seq!["prepared"@]
                + <PreparedToolCall as Encoded>::fields(x0),
            ToolSlotCheckpointView::CanonicalResult(x0) => seq!["canonical_result"@]
                + <ToolResultBlock as Encoded>::fields(x0),
        }
    }

    fn encode(&self, hasher: &mut FingerprintHasher) {
        let ghost start = hasher@;
        match self {
            ToolSlotCheckpoint::Prepared(x0) => {
                hasher.field("prepared");
                x0.encode(hasher);
                proof {
                    lemma_absorb_one(start, "prepared"@);
                    let f_x0 = <PreparedToolCall as Encoded>::fields(x0.deep_view());
                    lemma_absorb_concat(start, seq!["prepared"@], f_x0);
                }
            },
            ToolSlotCheckpoint::CanonicalResult(x0) => {
                hasher.field("canonical_result");
                x0.encode(hasher);
                proof {
                    lemma_absorb_one(start, "canonical_result"@);
                    let f_x0 = <ToolResultBlock as Encoded>::fields(x0.deep_view());
                    lemma_absorb_concat(start, seq!["canonical_result"@], f_x0);
                }
            },
        }
    }

    proof fn lemma_decodable(
        a: ToolSlotCheckpointView,
        b: ToolSlotCheckpointView,
        x: Seq<Seq<char>>,
        y: Seq<Seq<char>>,
    ) {
        broadcast use lemma_concat_assoc;

        reveal_strlit("prepared");
        assert("prepared"@.len() == 8);
        reveal_strlit("canonical_result");
        assert("canonical_result"@.len() == 16);
        assert((Self::fields(a) + x)[0] == Self::fields(a)[0]);
        assert((Self::fields(b) + y)[0] == Self::fields(b)[0]);
        match (a, b) {
            (ToolSlotCheckpointView::Prepared(x0), ToolSlotCheckpointView::Prepared(other_x0)) => {
                let x1 = PreparedToolCall::fields(x0) + x;
                let y1 = PreparedToolCall::fields(other_x0) + y;
                String::lemma_decodable("prepared"@, "prepared"@, x1, y1);
                PreparedToolCall::lemma_decodable(x0, other_x0, x, y);
            },
            (
                ToolSlotCheckpointView::CanonicalResult(x0),
                ToolSlotCheckpointView::CanonicalResult(other_x0),
            ) => {
                let x1 = ToolResultBlock::fields(x0) + x;
                let y1 = ToolResultBlock::fields(other_x0) + y;
                String::lemma_decodable("canonical_result"@, "canonical_result"@, x1, y1);
                ToolResultBlock::lemma_decodable(x0, other_x0, x, y);
            },
            _ => {},
        }
    }
}

impl ToolSlotCheckpointView {
    /// Source call identity represented by this slot.
    pub open spec fn call_id(self) -> Seq<char> {
        match self {
            ToolSlotCheckpointView::Prepared(prepared) => prepared.call_id,
            ToolSlotCheckpointView::CanonicalResult(result) => result.call_id,
        }
    }

    /// Source tool name represented by this slot.
    pub open spec fn tool_name(self) -> Seq<char> {
        match self {
            ToolSlotCheckpointView::Prepared(prepared) => prepared.tool,
            ToolSlotCheckpointView::CanonicalResult(result) => result.name,
        }
    }

    /// Whether a prepared action still is what its fingerprint says.
    pub open spec fn is_intact(self) -> bool {
        self matches ToolSlotCheckpointView::Prepared(prepared) ==> prepared.is_intact()
    }
}

impl ToolSlotCheckpoint {
    /// Source call identity represented by this slot.
    pub fn call_id(&self) -> (r: &ToolCallId)
        ensures
            r@ == self@.call_id(),
    {
        match self {
            ToolSlotCheckpoint::Prepared(prepared) => prepared.call_id(),
            ToolSlotCheckpoint::CanonicalResult(result) => &result.call_id,
        }
    }

    /// Source tool name represented by this slot.
    pub fn tool_name(&self) -> (r: &str)
        ensures
            r@ == self@.tool_name(),
    {
        match self {
            ToolSlotCheckpoint::Prepared(prepared) => prepared.tool(),
            ToolSlotCheckpoint::CanonicalResult(result) => result.name.as_str(),
        }
    }
}

/// Redaction-safe identity and attribution for one provider-cache operation.
#[derive(Debug, PartialEq, Eq)]
pub struct CacheOperationCheckpoint {
    /// Stable host-supplied operation identity.
    pub operation: CacheOperationId,
    /// Logical provider request identity, once allocated.
    pub request: Option<RequestId>,
    /// Provider attempt identity, once the operation crossed the start
    /// barrier.
    pub attempt: Option<AttemptId>,
    /// Exact opaque cache identity.
    pub identity: CacheIdentity,
    /// Typed maintenance/resource lane.
    pub purpose: ProviderAttemptPurpose,
    /// One-way fingerprint of the full normalized operation request and
    /// authority.
    pub fingerprint: String,
    /// Exact pre-provider rejection recorded while the operation was
    /// prepared.
    pub preflight_rejection: Option<CacheOperationReason>,
    /// Comparable preserved-prefix expectation, when the plan supplied one.
    pub expected_read_tokens: Option<u64>,
}

/// What a [`CacheOperationCheckpoint`] holds.
pub struct CacheOperationCheckpointView {
    pub operation: Seq<char>,
    pub request: Option<Seq<char>>,
    pub attempt: Option<Seq<char>>,
    pub identity: CacheIdentityView,
    pub purpose: ProviderAttemptPurpose,
    pub fingerprint: Seq<char>,
    pub preflight_rejection: Option<CacheOperationReason>,
    pub expected_read_tokens: Option<u64>,
}

impl DeepView for CacheOperationCheckpoint {
    type V = CacheOperationCheckpointView;

    open spec fn deep_view(&self) -> CacheOperationCheckpointView {
        CacheOperationCheckpointView {
            operation: self.operation.deep_view(),
            request: self.request.deep_view(),
            attempt: self.attempt.deep_view(),
            identity: self.identity.deep_view(),
            purpose: self.purpose.deep_view(),
            fingerprint: self.fingerprint.deep_view(),
            preflight_rejection: self.preflight_rejection.deep_view(),
            expected_read_tokens: self.expected_read_tokens.deep_view(),
        }
    }
}

impl View for CacheOperationCheckpoint {
    type V = CacheOperationCheckpointView;

    open spec fn view(&self) -> CacheOperationCheckpointView {
        self.deep_view()
    }
}

impl Record for CacheOperationCheckpoint {
    fn same(&self, other: &Self) -> (r: bool) {
        self.operation.same(&other.operation)
            && self.request.same(&other.request)
            && self.attempt.same(&other.attempt)
            && self.identity.same(&other.identity)
            && self.purpose.same(&other.purpose)
            && self.fingerprint.same(&other.fingerprint)
            && self.preflight_rejection.same(&other.preflight_rejection)
            && self.expected_read_tokens.same(&other.expected_read_tokens)
    }

    fn copied(&self) -> (r: Self) {
        CacheOperationCheckpoint {
            operation: self.operation.copied(),
            request: self.request.copied(),
            attempt: self.attempt.copied(),
            identity: self.identity.copied(),
            purpose: self.purpose.copied(),
            fingerprint: self.fingerprint.copied(),
            preflight_rejection: self.preflight_rejection.copied(),
            expected_read_tokens: self.expected_read_tokens.copied(),
        }
    }
}

impl Clone for CacheOperationCheckpoint {
    fn clone(&self) -> (r: Self)
        ensures
            r@ == self@,
    {
        self.copied()
    }
}

impl Encoded for CacheOperationCheckpoint {
    open spec fn fields(view: CacheOperationCheckpointView) -> Seq<Seq<char>> {
        <CacheOperationId as Encoded>::fields(view.operation)
            + <Option<RequestId> as Encoded>::fields(view.request)
            + <Option<AttemptId> as Encoded>::fields(view.attempt)
            + <CacheIdentity as Encoded>::fields(view.identity)
            + <ProviderAttemptPurpose as Encoded>::fields(view.purpose)
            + <String as Encoded>::fields(view.fingerprint)
            + <Option<CacheOperationReason> as Encoded>::fields(view.preflight_rejection)
            + <Option<u64> as Encoded>::fields(view.expected_read_tokens)
    }

    fn encode(&self, hasher: &mut FingerprintHasher) {
        broadcast use group_absorb;

        self.operation.encode(hasher);
        self.request.encode(hasher);
        self.attempt.encode(hasher);
        self.identity.encode(hasher);
        self.purpose.encode(hasher);
        self.fingerprint.encode(hasher);
        self.preflight_rejection.encode(hasher);
        self.expected_read_tokens.encode(hasher);
    }

    proof fn lemma_decodable(
        a: CacheOperationCheckpointView,
        b: CacheOperationCheckpointView,
        x: Seq<Seq<char>>,
        y: Seq<Seq<char>>,
    ) {
        broadcast use lemma_concat_assoc;

        let x7 = Option::<u64>::fields(a.expected_read_tokens) + x;
        let y7 = Option::<u64>::fields(b.expected_read_tokens) + y;
        let x6 = Option::<CacheOperationReason>::fields(a.preflight_rejection) + x7;
        let y6 = Option::<CacheOperationReason>::fields(b.preflight_rejection) + y7;
        let x5 = String::fields(a.fingerprint) + x6;
        let y5 = String::fields(b.fingerprint) + y6;
        let x4 = ProviderAttemptPurpose::fields(a.purpose) + x5;
        let y4 = ProviderAttemptPurpose::fields(b.purpose) + y5;
        let x3 = CacheIdentity::fields(a.identity) + x4;
        let y3 = CacheIdentity::fields(b.identity) + y4;
        let x2 = Option::<AttemptId>::fields(a.attempt) + x3;
        let y2 = Option::<AttemptId>::fields(b.attempt) + y3;
        let x1 = Option::<RequestId>::fields(a.request) + x2;
        let y1 = Option::<RequestId>::fields(b.request) + y2;
        CacheOperationId::lemma_decodable(a.operation, b.operation, x1, y1);
        Option::<RequestId>::lemma_decodable(a.request, b.request, x2, y2);
        Option::<AttemptId>::lemma_decodable(a.attempt, b.attempt, x3, y3);
        CacheIdentity::lemma_decodable(a.identity, b.identity, x4, y4);
        ProviderAttemptPurpose::lemma_decodable(a.purpose, b.purpose, x5, y5);
        String::lemma_decodable(a.fingerprint, b.fingerprint, x6, y6);
        Option::<CacheOperationReason>::lemma_decodable(
            a.preflight_rejection,
            b.preflight_rejection,
            x7,
            y7,
        );
        Option::<u64>::lemma_decodable(a.expected_read_tokens, b.expected_read_tokens, x, y);
    }
}

impl CacheOperationCheckpointView {
    /// What is wrong with the operation envelope: a defect of its identity, a
    /// malformed operation id, a fingerprint that is not 64 lower-case
    /// hexadecimal digits, or the ordinary lane.
    pub open spec fn fault(self) -> Option<RuntimeErrorView> {
        match self.identity.validity() {
            Err(text) => Some(conflict_error(text)),
            Ok(()) => if !is_cache_operation_id(self.operation) {
                Some(operation_id_error())
            } else if encode_utf8(self.fingerprint).len() != 64 || !all_of_class(
                ByteClass::LowerHex,
                self.fingerprint,
            ) {
                Some(conflict_error("cache checkpoint operation fingerprint is invalid"@))
            } else if self.purpose == ProviderAttemptPurpose::Ordinary {
                Some(conflict_error("ordinary provider attempts cannot use cache checkpoints"@))
            } else {
                None
            },
        }
    }
}

impl CacheOperationCheckpoint {
    /// Validates the redaction-safe operation envelope.
    pub fn validate(&self) -> (r: Result<(), RuntimeError>)
        ensures
            outcome_view(r) == verdict(self@.fault()),
    {
        if let Err(text) = self.identity.validate() {
            return Err(RuntimeError::conflict(text.as_str()));
        }
        if let Err(error) = validate_cache_operation_id(&self.operation) {
            return Err(error);
        }
        if byte_len(self.fingerprint.as_str()) != 64 || !is_of_class(
            ByteClass::LowerHex,
            self.fingerprint.as_str(),
        ) {
            return Err(RuntimeError::conflict("cache checkpoint operation fingerprint is invalid"));
        }
        if self.purpose == ProviderAttemptPurpose::Ordinary {
            return Err(
                RuntimeError::conflict("ordinary provider attempts cannot use cache checkpoints"),
            );
        }
        Ok(())
    }
}

/// Exact bounded, redaction-safe result metadata for a cache operation.
#[derive(Debug, PartialEq, Eq)]
pub struct CacheOperationResultCheckpoint {
    /// Terminal lifecycle outcome.
    pub outcome: CacheOperationOutcome,
    /// Identity-scoped reduced state after the operation.
    pub state: CacheState,
    /// Normalized provider evidence, when available.
    pub evidence: Option<CacheAvailabilityEvidence>,
    /// Bounded numeric metrics.
    pub metrics: TextMap<u64>,
    /// Pre-I/O rejection reason, when applicable.
    pub rejection_reason: Option<CacheOperationReason>,
    /// Post-admission terminal reason, when applicable.
    pub terminal_reason: Option<CacheOperationReason>,
}

/// What a [`CacheOperationResultCheckpoint`] holds.
pub struct CacheOperationResultCheckpointView {
    pub outcome: CacheOperationOutcome,
    pub state: CacheState,
    pub evidence: Option<CacheAvailabilityEvidenceView>,
    pub metrics: Seq<(Seq<char>, u64)>,
    pub rejection_reason: Option<CacheOperationReason>,
    pub terminal_reason: Option<CacheOperationReason>,
}

impl DeepView for CacheOperationResultCheckpoint {
    type V = CacheOperationResultCheckpointView;

    open spec fn deep_view(&self) -> CacheOperationResultCheckpointView {
        CacheOperationResultCheckpointView {
            outcome: self.outcome.deep_view(),
            state: self.state.deep_view(),
            evidence: self.evidence.deep_view(),
            metrics: self.metrics.deep_view(),
            rejection_reason: self.rejection_reason.deep_view(),
            terminal_reason: self.terminal_reason.deep_view(),
        }
    }
}

impl View for CacheOperationResultCheckpoint {
    type V = CacheOperationResultCheckpointView;

    open spec fn view(&self) -> CacheOperationResultCheckpointView {
        self.deep_view()
    }
}

impl Record for CacheOperationResultCheckpoint {
    fn same(&self, other: &Self) -> (r: bool) {
        self.outcome.same(&other.outcome)
            && self.state.same(&other.state)
            && self.evidence.same(&other.evidence)
            && self.metrics.same(&other.metrics)
            && self.rejection_reason.same(&other.rejection_reason)
            && self.terminal_reason.same(&other.terminal_reason)
    }

    fn copied(&self) -> (r: Self) {
        CacheOperationResultCheckpoint {
            outcome: self.outcome.copied(),
            state: self.state.copied(),
            evidence: self.evidence.copied(),
            metrics: self.metrics.copied(),
            rejection_reason: self.rejection_reason.copied(),
            terminal_reason: self.terminal_reason.copied(),
        }
    }
}

impl Clone for CacheOperationResultCheckpoint {
    fn clone(&self) -> (r: Self)
        ensures
            r@ == self@,
    {
        self.copied()
    }
}

impl Encoded for CacheOperationResultCheckpoint {
    open spec fn fields(view: CacheOperationResultCheckpointView) -> Seq<Seq<char>> {
        <CacheOperationOutcome as Encoded>::fields(view.outcome)
            + <CacheState as Encoded>::fields(view.state)
            + <Option<CacheAvailabilityEvidence> as Encoded>::fields(view.evidence)
            + <TextMap<u64> as Encoded>::fields(view.metrics)
            + <Option<CacheOperationReason> as Encoded>::fields(view.rejection_reason)
            + <Option<CacheOperationReason> as Encoded>::fields(view.terminal_reason)
    }

    fn encode(&self, hasher: &mut FingerprintHasher) {
        broadcast use group_absorb;

        self.outcome.encode(hasher);
        self.state.encode(hasher);
        self.evidence.encode(hasher);
        self.metrics.encode(hasher);
        self.rejection_reason.encode(hasher);
        self.terminal_reason.encode(hasher);
    }

    proof fn lemma_decodable(
        a: CacheOperationResultCheckpointView,
        b: CacheOperationResultCheckpointView,
        x: Seq<Seq<char>>,
        y: Seq<Seq<char>>,
    ) {
        broadcast use lemma_concat_assoc;

        let x5 = Option::<CacheOperationReason>::fields(a.terminal_reason) + x;
        let y5 = Option::<CacheOperationReason>::fields(b.terminal_reason) + y;
        let x4 = Option::<CacheOperationReason>::fields(a.rejection_reason) + x5;
        let y4 = Option::<CacheOperationReason>::fields(b.rejection_reason) + y5;
        let x3 = TextMap::<u64>::fields(a.metrics) + x4;
        let y3 = TextMap::<u64>::fields(b.metrics) + y4;
        let x2 = Option::<CacheAvailabilityEvidence>::fields(a.evidence) + x3;
        let y2 = Option::<CacheAvailabilityEvidence>::fields(b.evidence) + y3;
        let x1 = CacheState::fields(a.state) + x2;
        let y1 = CacheState::fields(b.state) + y2;
        CacheOperationOutcome::lemma_decodable(a.outcome, b.outcome, x1, y1);
        CacheState::lemma_decodable(a.state, b.state, x2, y2);
        Option::<CacheAvailabilityEvidence>::lemma_decodable(a.evidence, b.evidence, x3, y3);
        TextMap::<u64>::lemma_decodable(a.metrics, b.metrics, x4, y4);
        Option::<CacheOperationReason>::lemma_decodable(
            a.rejection_reason,
            b.rejection_reason,
            x5,
            y5,
        );
        Option::<CacheOperationReason>::lemma_decodable(a.terminal_reason, b.terminal_reason, x, y);
    }
}

/// Whether `key` may be the key of a metric.
pub open spec fn is_metric_key(key: Seq<char>) -> bool {
    &&& 0 < encode_utf8(key).len() <= MAX_CACHE_CHECKPOINT_METRIC_KEY_BYTES
    &&& all_of_class(ByteClass::LowerSnake, key)
}

/// Whether there are not too many metrics, each with a bounded key.
pub open spec fn metrics_are_bounded(metrics: Seq<(Seq<char>, u64)>) -> bool {
    &&& metrics.len() <= MAX_CACHE_CHECKPOINT_METRICS
    &&& forall|i: int| 0 <= i < metrics.len() ==> is_metric_key((#[trigger] metrics[i]).0)
}

impl CacheOperationResultCheckpointView {
    /// What is wrong with the result: unbounded metrics, reasons that do not
    /// go with the outcome, or defective evidence.
    pub open spec fn fault(self) -> Option<RuntimeErrorView> {
        let rejected = self.outcome == CacheOperationOutcome::Rejected;
        if !metrics_are_bounded(self.metrics) {
            Some(conflict_error("cache checkpoint metrics exceed bounded limits"@))
        } else if rejected && (self.rejection_reason is None || self.terminal_reason is Some) {
            Some(conflict_error("rejected cache checkpoint has invalid terminal reasons"@))
        } else if !rejected && self.rejection_reason is Some {
            Some(conflict_error("admitted cache checkpoint cannot carry a rejection reason"@))
        } else if self.evidence matches Some(evidence) && evidence.validity() is Err {
            Some(conflict_error("cache checkpoint evidence is invalid"@))
        } else {
            None
        }
    }
}

fn bounded_metrics(metrics: &TextMap<u64>) -> (r: bool)
    ensures
        r == metrics_are_bounded(metrics@),
{
    if metrics.len() > MAX_CACHE_CHECKPOINT_METRICS {
        return false;
    }
    let mut i: usize = 0;
    while i < metrics.len()
        invariant
            i <= metrics@.len() <= MAX_CACHE_CHECKPOINT_METRICS,
            forall|j: int| 0 <= j < i ==> is_metric_key((#[trigger] metrics@[j]).0),
        decreases metrics@.len() - i,
    {
        let key = metrics.key_at(i);
        let length = byte_len(key);
        if length == 0 || length > MAX_CACHE_CHECKPOINT_METRIC_KEY_BYTES || !is_of_class(
            ByteClass::LowerSnake,
            key,
        ) {
            assert(!is_metric_key(metrics@[i as int].0));
            return false;
        }
        i = i + 1;
    }
    true
}

impl CacheOperationResultCheckpoint {
    /// Validates outcome/reason consistency without inspecting provider data.
    pub fn validate(&self) -> (r: Result<(), RuntimeError>)
        ensures
            outcome_view(r) == verdict(self@.fault()),
    {
        if !bounded_metrics(&self.metrics) {
            return Err(RuntimeError::conflict("cache checkpoint metrics exceed bounded limits"));
        }
        if self.outcome == CacheOperationOutcome::Rejected {
            if self.rejection_reason.is_none() || self.terminal_reason.is_some() {
                return Err(
                    RuntimeError::conflict(
                        "rejected cache checkpoint has invalid terminal reasons",
                    ),
                );
            }
        } else if self.rejection_reason.is_some() {
            return Err(
                RuntimeError::conflict(
                    "admitted cache checkpoint cannot carry a rejection reason",
                ),
            );
        }
        if let Some(evidence) = &self.evidence {
            if evidence.validate().is_err() {
                return Err(RuntimeError::conflict("cache checkpoint evidence is invalid"));
            }
        }
        Ok(())
    }
}

/// State of the one canonical direct turn machine.
#[derive(Debug, PartialEq, Eq)]
#[allow(inconsistent_fields)]
pub enum TurnState {
    /// User input was accepted and appended to canonical history.
    Accepted {
        /// Exact accepted input.
        input: UserInput,
    },
    /// Attributed internal input was accepted without appending a fabricated
    /// user-role message to canonical history.
    InternalAccepted {
        /// Exact bounded input.
        input: InternalTurnInput,
    },
    /// An explicit host-requested tool action was accepted without appending
    /// model-facing conversation history.
    LocalActionAccepted {
        /// Stable local request identity.
        request_id: RequestId,
        /// Exact host-supplied call.
        call: ToolCall,
    },
    /// A local action has an exact prepared invocation durably recorded before
    /// approval or execution.
    LocalActionPrepared {
        /// Stable local request identity.
        request_id: RequestId,
        /// Exact host-supplied call.
        call: ToolCall,
        /// Canonical prepared action; recovery reauthorizes it before use.
        prepared: PreparedToolCall,
    },
    /// A local action crossed its pre-invocation durability barrier. Recovery
    /// never replays this state.
    LocalActionExecuting {
        /// Stable local request identity.
        request_id: RequestId,
        /// Exact host-supplied call.
        call: ToolCall,
        /// Exact prepared action that may have executed.
        prepared: PreparedToolCall,
    },
    /// A local action returned an exact raw outcome before fallible harness
    /// processing or output bounding.
    LocalActionOutcomeReady {
        /// Stable local request identity.
        request_id: RequestId,
        /// Exact host-supplied call.
        call: ToolCall,
        /// Exact unbounded outcome.
        outcome: ToolOutcome,
    },
    /// A local action's canonical bounded result and component state are
    /// durable and ready for terminal publication.
    LocalActionResultReady {
        /// Stable local request identity.
        request_id: RequestId,
        /// Exact host-supplied call.
        call: ToolCall,
        /// Canonical committed local result.
        result: ToolResultBlock,
    },
    /// Context planning is about to run.
    Planning {
        /// Zero-based tool-loop step.
        step: u32,
    },
    /// A fully planned provider request is ready to be called.
    CallingModel {
        /// Logical request identity.
        request_id: RequestId,
        /// Exact request derived from the authoritative context plan.
        request: ProviderRequest,
        /// Zero-based tool-loop step.
        step: u32,
    },
    /// Provider I/O finished and the successful response is assembled.
    ModelResponseReady {
        /// Logical request identity.
        request_id: RequestId,
        /// Exact assembled response.
        response: AssembledModelResponse,
        /// Zero-based tool-loop step.
        step: u32,
    },
    /// Immutable prepared calls are waiting for security approval.
    AwaitingApproval {
        /// Provider request that produced the calls.
        request_id: RequestId,
        /// Exact provider calls in their canonical result order.
        source_calls: Vec<ToolCall>,
        /// Exact prepared or deterministic-result disposition of every call.
        slots: Vec<ToolSlotCheckpoint>,
        /// Zero-based tool-loop step.
        step: u32,
    },
    /// An authority-free task interaction is waiting on its host.
    AwaitingInteraction {
        /// Provider request that produced the calls.
        request_id: RequestId,
        /// Exact provider calls in their canonical result order.
        source_calls: Vec<ToolCall>,
        /// Exact prepared or deterministic-result disposition of every call.
        slots: Vec<ToolSlotCheckpoint>,
        /// Results already committed before the exclusive interaction slot.
        completed: Vec<ToolResultBlock>,
        /// Index of the interaction call in `source_calls`/`slots`.
        interaction_index: usize,
        /// Exact protected interaction request.
        request: InteractionRequest,
        /// Exact accepted outcome, once the broker resolves.
        response: Option<InteractionResponse>,
        /// Zero-based tool-loop step.
        step: u32,
    },
    /// A tool invocation (or resolved interaction) returned an exact raw
    /// outcome.
    ToolOutcomeReady {
        /// Provider request that produced the calls.
        request_id: RequestId,
        /// Exact provider calls in their canonical result order.
        source_calls: Vec<ToolCall>,
        /// Exact prepared or deterministic-result disposition of every call.
        slots: Vec<ToolSlotCheckpoint>,
        /// Results already committed before this outcome.
        completed: Vec<ToolResultBlock>,
        /// Source slot whose raw outcome is durable.
        outcome_index: usize,
        /// Exact unbounded tool outcome.
        outcome: ToolOutcome,
        /// Zero-based tool-loop step.
        step: u32,
    },
    /// Prepared calls are executing, with an ordered committed prefix.
    ExecutingTools {
        /// Provider request that produced the calls.
        request_id: RequestId,
        /// Exact provider calls in their canonical result order.
        source_calls: Vec<ToolCall>,
        /// Exact prepared or deterministic-result disposition of every call.
        slots: Vec<ToolSlotCheckpoint>,
        /// Results already committed to canonical history.
        completed: Vec<ToolResultBlock>,
        /// Zero-based tool-loop step.
        step: u32,
    },
    /// Canonical state is complete and is being durably committed.
    Completing {
        /// Terminal result.
        finish: TurnFinish,
        /// Whether a committed provider attempt produced visible text.
        visible_output: bool,
        /// Typed provider failure that caused this terminal result, when one
        /// exists.
        provider_error_kind: Option<ProviderErrorKind>,
    },
    /// Protected post-hook terminal state is durable and its one terminal
    /// event is ready to be published.
    PublishingTerminal {
        /// Terminal result.
        finish: TurnFinish,
        /// Whether a committed provider attempt produced visible text.
        visible_output: bool,
    },
    /// The completed turn is durably committed.
    Terminal {
        /// Terminal result.
        finish: TurnFinish,
        /// Whether a committed provider attempt produced visible text.
        visible_output: bool,
    },
    /// A cache operation was reserved and prepared, but has not crossed the
    /// provider-start barrier.
    CacheOperationPrepared {
        /// Redaction-safe operation envelope.
        operation: CacheOperationCheckpoint,
    },
    /// A cache operation crossed its provider-start barrier. Recovery never
    /// replays provider I/O from this state.
    CacheOperationStarted {
        /// Redaction-safe operation envelope.
        operation: CacheOperationCheckpoint,
    },
    /// Cache result/evidence/state is protected and ready for lifecycle event
    /// publication.
    CacheOperationResultReady {
        /// Redaction-safe operation envelope.
        operation: CacheOperationCheckpoint,
        /// Exact bounded result metadata.
        result: CacheOperationResultCheckpoint,
    },
    /// Cache lifecycle events were published and the terminal checkpoint
    /// crossed the protected barrier.
    CacheOperationTerminal {
        /// Redaction-safe operation envelope.
        operation: CacheOperationCheckpoint,
        /// Exact bounded result metadata.
        result: CacheOperationResultCheckpoint,
    },
}

/// What a [`TurnState`] holds.
#[allow(inconsistent_fields)]
pub enum TurnStateView {
    Accepted { input: UserInputView },
    InternalAccepted { input: InternalTurnInputView },
    LocalActionAccepted { request_id: Seq<char>, call: ToolCallView },
    LocalActionPrepared {
        request_id: Seq<char>,
        call: ToolCallView,
        prepared: PreparedToolCallView,
    },
    LocalActionExecuting {
        request_id: Seq<char>,
        call: ToolCallView,
        prepared: PreparedToolCallView,
    },
    LocalActionOutcomeReady { request_id: Seq<char>, call: ToolCallView, outcome: ToolOutcomeView },
    LocalActionResultReady {
        request_id: Seq<char>,
        call: ToolCallView,
        result: ToolResultBlockView,
    },
    Planning { step: u32 },
    CallingModel { request_id: Seq<char>, request: ProviderRequestView, step: u32 },
    ModelResponseReady { request_id: Seq<char>, response: AssembledModelResponseView, step: u32 },
    AwaitingApproval {
        request_id: Seq<char>,
        source_calls: Seq<ToolCallView>,
        slots: Seq<ToolSlotCheckpointView>,
        step: u32,
    },
    AwaitingInteraction {
        request_id: Seq<char>,
        source_calls: Seq<ToolCallView>,
        slots: Seq<ToolSlotCheckpointView>,
        completed: Seq<ToolResultBlockView>,
        interaction_index: usize,
        request: InteractionRequestView,
        response: Option<InteractionResponseView>,
        step: u32,
    },
    ToolOutcomeReady {
        request_id: Seq<char>,
        source_calls: Seq<ToolCallView>,
        slots: Seq<ToolSlotCheckpointView>,
        completed: Seq<ToolResultBlockView>,
        outcome_index: usize,
        outcome: ToolOutcomeView,
        step: u32,
    },
    ExecutingTools {
        request_id: Seq<char>,
        source_calls: Seq<ToolCallView>,
        slots: Seq<ToolSlotCheckpointView>,
        completed: Seq<ToolResultBlockView>,
        step: u32,
    },
    Completing {
        finish: TurnFinishView,
        visible_output: bool,
        provider_error_kind: Option<ProviderErrorKind>,
    },
    PublishingTerminal { finish: TurnFinishView, visible_output: bool },
    Terminal { finish: TurnFinishView, visible_output: bool },
    CacheOperationPrepared { operation: CacheOperationCheckpointView },
    CacheOperationStarted { operation: CacheOperationCheckpointView },
    CacheOperationResultReady {
        operation: CacheOperationCheckpointView,
        result: CacheOperationResultCheckpointView,
    },
    CacheOperationTerminal {
        operation: CacheOperationCheckpointView,
        result: CacheOperationResultCheckpointView,
    },
}

impl DeepView for TurnState {
    type V = TurnStateView;

    open spec fn deep_view(&self) -> TurnStateView {
        match self {
            TurnState::Accepted { input } => TurnStateView::Accepted { input: input.deep_view() },
            TurnState::InternalAccepted { input } => TurnStateView::InternalAccepted {
                input: input.deep_view(),
            },
            TurnState::LocalActionAccepted { request_id, call } => {
                TurnStateView::LocalActionAccepted {
                    request_id: request_id.deep_view(),
                    call: call.deep_view(),
                }
            },
            TurnState::LocalActionPrepared { request_id, call, prepared } => {
                TurnStateView::LocalActionPrepared {
                    request_id: request_id.deep_view(),
                    call: call.deep_view(),
                    prepared: prepared.deep_view(),
                }
            },
            TurnState::LocalActionExecuting { request_id, call, prepared } => {
                TurnStateView::LocalActionExecuting {
                    request_id: request_id.deep_view(),
                    call: call.deep_view(),
                    prepared: prepared.deep_view(),
                }
            },
            TurnState::LocalActionOutcomeReady { request_id, call, outcome } => {
                TurnStateView::LocalActionOutcomeReady {
                    request_id: request_id.deep_view(),
                    call: call.deep_view(),
                    outcome: outcome.deep_view(),
                }
            },
            TurnState::LocalActionResultReady { request_id, call, result } => {
                TurnStateView::LocalActionResultReady {
                    request_id: request_id.deep_view(),
                    call: call.deep_view(),
                    result: result.deep_view(),
                }
            },
            TurnState::Planning { step } => TurnStateView::Planning { step: step.deep_view() },
            TurnState::CallingModel { request_id, request, step } => TurnStateView::CallingModel {
                request_id: request_id.deep_view(),
                request: request.deep_view(),
                step: step.deep_view(),
            },
            TurnState::ModelResponseReady { request_id, response, step } => {
                TurnStateView::ModelResponseReady {
                    request_id: request_id.deep_view(),
                    response: response.deep_view(),
                    step: step.deep_view(),
                }
            },
            TurnState::AwaitingApproval { request_id, source_calls, slots, step } => {
                TurnStateView::AwaitingApproval {
                    request_id: request_id.deep_view(),
                    source_calls: source_calls.deep_view(),
                    slots: slots.deep_view(),
                    step: step.deep_view(),
                }
            },
            TurnState::AwaitingInteraction {
                request_id,
                source_calls,
                slots,
                completed,
                interaction_index,
                request,
                response,
                step,
            } => TurnStateView::AwaitingInteraction {
                request_id: request_id.deep_view(),
                source_calls: source_calls.deep_view(),
                slots: slots.deep_view(),
                completed: completed.deep_view(),
                interaction_index: interaction_index.deep_view(),
                request: request.deep_view(),
                response: response.deep_view(),
                step: step.deep_view(),
            },
            TurnState::ToolOutcomeReady {
                request_id,
                source_calls,
                slots,
                completed,
                outcome_index,
                outcome,
                step,
            } => TurnStateView::ToolOutcomeReady {
                request_id: request_id.deep_view(),
                source_calls: source_calls.deep_view(),
                slots: slots.deep_view(),
                completed: completed.deep_view(),
                outcome_index: outcome_index.deep_view(),
                outcome: outcome.deep_view(),
                step: step.deep_view(),
            },
            TurnState::ExecutingTools { request_id, source_calls, slots, completed, step } => {
                TurnStateView::ExecutingTools {
                    request_id: request_id.deep_view(),
                    source_calls: source_calls.deep_view(),
                    slots: slots.deep_view(),
                    completed: completed.deep_view(),
                    step: step.deep_view(),
                }
            },
            TurnState::Completing { finish, visible_output, provider_error_kind } => {
                TurnStateView::Completing {
                    finish: finish.deep_view(),
                    visible_output: visible_output.deep_view(),
                    provider_error_kind: provider_error_kind.deep_view(),
                }
            },
            TurnState::PublishingTerminal { finish, visible_output } => {
                TurnStateView::PublishingTerminal {
                    finish: finish.deep_view(),
                    visible_output: visible_output.deep_view(),
                }
            },
            TurnState::Terminal { finish, visible_output } => TurnStateView::Terminal {
                finish: finish.deep_view(),
                visible_output: visible_output.deep_view(),
            },
            TurnState::CacheOperationPrepared { operation } => {
                TurnStateView::CacheOperationPrepared { operation: operation.deep_view() }
            },
            TurnState::CacheOperationStarted { operation } => TurnStateView::CacheOperationStarted {
                operation: operation.deep_view(),
            },
            TurnState::CacheOperationResultReady { operation, result } => {
                TurnStateView::CacheOperationResultReady {
                    operation: operation.deep_view(),
                    result: result.deep_view(),
                }
            },
            TurnState::CacheOperationTerminal { operation, result } => {
                TurnStateView::CacheOperationTerminal {
                    operation: operation.deep_view(),
                    result: result.deep_view(),
                }
            },
        }
    }
}

impl View for TurnState {
    type V = TurnStateView;

    open spec fn view(&self) -> TurnStateView {
        self.deep_view()
    }
}

impl Record for TurnState {
    fn same(&self, other: &Self) -> (r: bool) {
        match (self, other) {
            (TurnState::Accepted { input }, TurnState::Accepted { input: input_b }) => {
                input.same(input_b)
            },
            (
                TurnState::InternalAccepted { input },
                TurnState::InternalAccepted { input: input_b },
            ) => input.same(input_b),
            (
                TurnState::LocalActionAccepted { request_id, call },
                TurnState::LocalActionAccepted { request_id: request_id_b, call: call_b },
            ) => request_id.same(request_id_b) && call.same(call_b),
            (
                TurnState::LocalActionPrepared { request_id, call, prepared },
                TurnState::LocalActionPrepared {
                    request_id: request_id_b,
                    call: call_b,
                    prepared: prepared_b,
                },
            ) => request_id.same(request_id_b) && call.same(call_b) && prepared.same(prepared_b),
            (
                TurnState::LocalActionExecuting { request_id, call, prepared },
                TurnState::LocalActionExecuting {
                    request_id: request_id_b,
                    call: call_b,
                    prepared: prepared_b,
                },
            ) => request_id.same(request_id_b) && call.same(call_b) && prepared.same(prepared_b),
            (
                TurnState::LocalActionOutcomeReady { request_id, call, outcome },
                TurnState::LocalActionOutcomeReady {
                    request_id: request_id_b,
                    call: call_b,
                    outcome: outcome_b,
                },
            ) => request_id.same(request_id_b) && call.same(call_b) && outcome.same(outcome_b),
            (
                TurnState::LocalActionResultReady { request_id, call, result },
                TurnState::LocalActionResultReady {
                    request_id: request_id_b,
                    call: call_b,
                    result: result_b,
                },
            ) => request_id.same(request_id_b) && call.same(call_b) && result.same(result_b),
            (TurnState::Planning { step }, TurnState::Planning { step: step_b }) => {
                step.same(step_b)
            },
            (
                TurnState::CallingModel { request_id, request, step },
                TurnState::CallingModel {
                    request_id: request_id_b,
                    request: request_b,
                    step: step_b,
                },
            ) => request_id.same(request_id_b) && request.same(request_b) && step.same(step_b),
            (
                TurnState::ModelResponseReady { request_id, response, step },
                TurnState::ModelResponseReady {
                    request_id: request_id_b,
                    response: response_b,
                    step: step_b,
                },
            ) => request_id.same(request_id_b) && response.same(response_b) && step.same(step_b),
            (
                TurnState::AwaitingApproval { request_id, source_calls, slots, step },
                TurnState::AwaitingApproval {
                    request_id: request_id_b,
                    source_calls: source_calls_b,
                    slots: slots_b,
                    step: step_b,
                },
            ) => request_id.same(request_id_b)
                && source_calls.same(source_calls_b)
                && slots.same(slots_b)
                && step.same(step_b),
            (
                TurnState::AwaitingInteraction {
                    request_id,
                    source_calls,
                    slots,
                    completed,
                    interaction_index,
                    request,
                    response,
                    step,
                },
                TurnState::AwaitingInteraction {
                    request_id: request_id_b,
                    source_calls: source_calls_b,
                    slots: slots_b,
                    completed: completed_b,
                    interaction_index: interaction_index_b,
                    request: request_b,
                    response: response_b,
                    step: step_b,
                },
            ) => request_id.same(request_id_b)
                && source_calls.same(source_calls_b)
                && slots.same(slots_b)
                && completed.same(completed_b)
                && interaction_index.same(interaction_index_b)
                && request.same(request_b)
                && response.same(response_b)
                && step.same(step_b),
            (
                TurnState::ToolOutcomeReady {
                    request_id,
                    source_calls,
                    slots,
                    completed,
                    outcome_index,
                    outcome,
                    step,
                },
                TurnState::ToolOutcomeReady {
                    request_id: request_id_b,
                    source_calls: source_calls_b,
                    slots: slots_b,
                    completed: completed_b,
                    outcome_index: outcome_index_b,
                    outcome: outcome_b,
                    step: step_b,
                },
            ) => request_id.same(request_id_b)
                && source_calls.same(source_calls_b)
                && slots.same(slots_b)
                && completed.same(completed_b)
                && outcome_index.same(outcome_index_b)
                && outcome.same(outcome_b)
                && step.same(step_b),
            (
                TurnState::ExecutingTools { request_id, source_calls, slots, completed, step },
                TurnState::ExecutingTools {
                    request_id: request_id_b,
                    source_calls: source_calls_b,
                    slots: slots_b,
                    completed: completed_b,
                    step: step_b,
                },
            ) => request_id.same(request_id_b)
                && source_calls.same(source_calls_b)
                && slots.same(slots_b)
                && completed.same(completed_b)
                && step.same(step_b),
            (
                TurnState::Completing { finish, visible_output, provider_error_kind },
                TurnState::Completing {
                    finish: finish_b,
                    visible_output: visible_output_b,
                    provider_error_kind: provider_error_kind_b,
                },
            ) => finish.same(finish_b)
                && visible_output.same(visible_output_b)
                && provider_error_kind.same(provider_error_kind_b),
            (
                TurnState::PublishingTerminal { finish, visible_output },
                TurnState::PublishingTerminal {
                    finish: finish_b,
                    visible_output: visible_output_b,
                },
            ) => finish.same(finish_b) && visible_output.same(visible_output_b),
            (
                TurnState::Terminal { finish, visible_output },
                TurnState::Terminal { finish: finish_b, visible_output: visible_output_b },
            ) => finish.same(finish_b) && visible_output.same(visible_output_b),
            (
                TurnState::CacheOperationPrepared { operation },
                TurnState::CacheOperationPrepared { operation: operation_b },
            ) => operation.same(operation_b),
            (
                TurnState::CacheOperationStarted { operation },
                TurnState::CacheOperationStarted { operation: operation_b },
            ) => operation.same(operation_b),
            (
                TurnState::CacheOperationResultReady { operation, result },
                TurnState::CacheOperationResultReady { operation: operation_b, result: result_b },
            ) => operation.same(operation_b) && result.same(result_b),
            (
                TurnState::CacheOperationTerminal { operation, result },
                TurnState::CacheOperationTerminal { operation: operation_b, result: result_b },
            ) => operation.same(operation_b) && result.same(result_b),
            _ => false,
        }
    }

    fn copied(&self) -> (r: Self) {
        match self {
            TurnState::Accepted { input } => TurnState::Accepted { input: input.copied() },
            TurnState::InternalAccepted { input } => TurnState::InternalAccepted {
                input: input.copied(),
            },
            TurnState::LocalActionAccepted { request_id, call } => TurnState::LocalActionAccepted {
                request_id: request_id.copied(),
                call: call.copied(),
            },
            TurnState::LocalActionPrepared { request_id, call, prepared } => {
                TurnState::LocalActionPrepared {
                    request_id: request_id.copied(),
                    call: call.copied(),
                    prepared: prepared.copied(),
                }
            },
            TurnState::LocalActionExecuting { request_id, call, prepared } => {
                TurnState::LocalActionExecuting {
                    request_id: request_id.copied(),
                    call: call.copied(),
                    prepared: prepared.copied(),
                }
            },
            TurnState::LocalActionOutcomeReady { request_id, call, outcome } => {
                TurnState::LocalActionOutcomeReady {
                    request_id: request_id.copied(),
                    call: call.copied(),
                    outcome: outcome.copied(),
                }
            },
            TurnState::LocalActionResultReady { request_id, call, result } => {
                TurnState::LocalActionResultReady {
                    request_id: request_id.copied(),
                    call: call.copied(),
                    result: result.copied(),
                }
            },
            TurnState::Planning { step } => TurnState::Planning { step: step.copied() },
            TurnState::CallingModel { request_id, request, step } => TurnState::CallingModel {
                request_id: request_id.copied(),
                request: request.copied(),
                step: step.copied(),
            },
            TurnState::ModelResponseReady { request_id, response, step } => {
                TurnState::ModelResponseReady {
                    request_id: request_id.copied(),
                    response: response.copied(),
                    step: step.copied(),
                }
            },
            TurnState::AwaitingApproval { request_id, source_calls, slots, step } => {
                TurnState::AwaitingApproval {
                    request_id: request_id.copied(),
                    source_calls: source_calls.copied(),
                    slots: slots.copied(),
                    step: step.copied(),
                }
            },
            TurnState::AwaitingInteraction {
                request_id,
                source_calls,
                slots,
                completed,
                interaction_index,
                request,
                response,
                step,
            } => TurnState::AwaitingInteraction {
                request_id: request_id.copied(),
                source_calls: source_calls.copied(),
                slots: slots.copied(),
                completed: completed.copied(),
                interaction_index: interaction_index.copied(),
                request: request.copied(),
                response: response.copied(),
                step: step.copied(),
            },
            TurnState::ToolOutcomeReady {
                request_id,
                source_calls,
                slots,
                completed,
                outcome_index,
                outcome,
                step,
            } => TurnState::ToolOutcomeReady {
                request_id: request_id.copied(),
                source_calls: source_calls.copied(),
                slots: slots.copied(),
                completed: completed.copied(),
                outcome_index: outcome_index.copied(),
                outcome: outcome.copied(),
                step: step.copied(),
            },
            TurnState::ExecutingTools { request_id, source_calls, slots, completed, step } => {
                TurnState::ExecutingTools {
                    request_id: request_id.copied(),
                    source_calls: source_calls.copied(),
                    slots: slots.copied(),
                    completed: completed.copied(),
                    step: step.copied(),
                }
            },
            TurnState::Completing { finish, visible_output, provider_error_kind } => {
                TurnState::Completing {
                    finish: finish.copied(),
                    visible_output: visible_output.copied(),
                    provider_error_kind: provider_error_kind.copied(),
                }
            },
            TurnState::PublishingTerminal { finish, visible_output } => {
                TurnState::PublishingTerminal {
                    finish: finish.copied(),
                    visible_output: visible_output.copied(),
                }
            },
            TurnState::Terminal { finish, visible_output } => TurnState::Terminal {
                finish: finish.copied(),
                visible_output: visible_output.copied(),
            },
            TurnState::CacheOperationPrepared { operation } => TurnState::CacheOperationPrepared {
                operation: operation.copied(),
            },
            TurnState::CacheOperationStarted { operation } => TurnState::CacheOperationStarted {
                operation: operation.copied(),
            },
            TurnState::CacheOperationResultReady { operation, result } => {
                TurnState::CacheOperationResultReady {
                    operation: operation.copied(),
                    result: result.copied(),
                }
            },
            TurnState::CacheOperationTerminal { operation, result } => {
                TurnState::CacheOperationTerminal {
                    operation: operation.copied(),
                    result: result.copied(),
                }
            },
        }
    }
}

impl Clone for TurnState {
    fn clone(&self) -> (r: Self)
        ensures
            r@ == self@,
    {
        self.copied()
    }
}

/// A tag and one value behind it can be read back, and so on for more values.
proof fn lemma_decodable_1<A: Encoded>(
    tag: Seq<char>,
    a: (A::V,),
    b: (A::V,),
    x: Seq<Seq<char>>,
    y: Seq<Seq<char>>,
)
    requires
        (seq![tag] + A::fields(a.0)) + x == (seq![tag] + A::fields(b.0)) + y,
    ensures
        a == b,
        x == y,
{
    broadcast use lemma_concat_assoc;

    let x0 = A::fields(a.0) + x;
    let y0 = A::fields(b.0) + y;
    String::lemma_decodable(tag, tag, x0, y0);
    A::lemma_decodable(a.0, b.0, x, y);
}

proof fn lemma_decodable_2<A: Encoded, B: Encoded>(
    tag: Seq<char>,
    a: (A::V, B::V),
    b: (A::V, B::V),
    x: Seq<Seq<char>>,
    y: Seq<Seq<char>>,
)
    requires
        (seq![tag] + A::fields(a.0) + B::fields(a.1)) + x ==
        (seq![tag] + A::fields(b.0) + B::fields(b.1)) + y,
    ensures
        a == b,
        x == y,
{
    broadcast use lemma_concat_assoc;

    let x1 = B::fields(a.1) + x;
    let y1 = B::fields(b.1) + y;
    let x0 = A::fields(a.0) + x1;
    let y0 = A::fields(b.0) + y1;
    String::lemma_decodable(tag, tag, x0, y0);
    A::lemma_decodable(a.0, b.0, x1, y1);
    B::lemma_decodable(a.1, b.1, x, y);
}

proof fn lemma_decodable_3<A: Encoded, B: Encoded, C: Encoded>(
    tag: Seq<char>,
    a: (A::V, B::V, C::V),
    b: (A::V, B::V, C::V),
    x: Seq<Seq<char>>,
    y: Seq<Seq<char>>,
)
    requires
        (seq![tag] + A::fields(a.0) + B::fields(a.1) + C::fields(a.2)) + x ==
        (seq![tag] + A::fields(b.0) + B::fields(b.1) + C::fields(b.2)) + y,
    ensures
        a == b,
        x == y,
{
    broadcast use lemma_concat_assoc;

    let x2 = C::fields(a.2) + x;
    let y2 = C::fields(b.2) + y;
    let x1 = B::fields(a.1) + x2;
    let y1 = B::fields(b.1) + y2;
    let x0 = A::fields(a.0) + x1;
    let y0 = A::fields(b.0) + y1;
    String::lemma_decodable(tag, tag, x0, y0);
    A::lemma_decodable(a.0, b.0, x1, y1);
    B::lemma_decodable(a.1, b.1, x2, y2);
    C::lemma_decodable(a.2, b.2, x, y);
}

proof fn lemma_decodable_4<A: Encoded, B: Encoded, C: Encoded, D: Encoded>(
    tag: Seq<char>,
    a: (A::V, B::V, C::V, D::V),
    b: (A::V, B::V, C::V, D::V),
    x: Seq<Seq<char>>,
    y: Seq<Seq<char>>,
)
    requires
        (seq![tag] + A::fields(a.0) + B::fields(a.1) + C::fields(a.2) + D::fields(a.3)) + x ==
        (seq![tag] + A::fields(b.0) + B::fields(b.1) + C::fields(b.2) + D::fields(b.3)) + y,
    ensures
        a == b,
        x == y,
{
    broadcast use lemma_concat_assoc;

    let x3 = D::fields(a.3) + x;
    let y3 = D::fields(b.3) + y;
    let x2 = C::fields(a.2) + x3;
    let y2 = C::fields(b.2) + y3;
    let x1 = B::fields(a.1) + x2;
    let y1 = B::fields(b.1) + y2;
    let x0 = A::fields(a.0) + x1;
    let y0 = A::fields(b.0) + y1;
    String::lemma_decodable(tag, tag, x0, y0);
    A::lemma_decodable(a.0, b.0, x1, y1);
    B::lemma_decodable(a.1, b.1, x2, y2);
    C::lemma_decodable(a.2, b.2, x3, y3);
    D::lemma_decodable(a.3, b.3, x, y);
}

proof fn lemma_decodable_5<A: Encoded, B: Encoded, C: Encoded, D: Encoded, E: Encoded>(
    tag: Seq<char>,
    a: (A::V, B::V, C::V, D::V, E::V),
    b: (A::V, B::V, C::V, D::V, E::V),
    x: Seq<Seq<char>>,
    y: Seq<Seq<char>>,
)
    requires
        (seq![tag] + A::fields(a.0) + B::fields(a.1) + C::fields(a.2) + D::fields(a.3)
            + E::fields(a.4)) + x ==
        (seq![tag] + A::fields(b.0) + B::fields(b.1) + C::fields(b.2) + D::fields(b.3)
            + E::fields(b.4)) + y,
    ensures
        a == b,
        x == y,
{
    broadcast use lemma_concat_assoc;

    let x4 = E::fields(a.4) + x;
    let y4 = E::fields(b.4) + y;
    let x3 = D::fields(a.3) + x4;
    let y3 = D::fields(b.3) + y4;
    let x2 = C::fields(a.2) + x3;
    let y2 = C::fields(b.2) + y3;
    let x1 = B::fields(a.1) + x2;
    let y1 = B::fields(b.1) + y2;
    let x0 = A::fields(a.0) + x1;
    let y0 = A::fields(b.0) + y1;
    String::lemma_decodable(tag, tag, x0, y0);
    A::lemma_decodable(a.0, b.0, x1, y1);
    B::lemma_decodable(a.1, b.1, x2, y2);
    C::lemma_decodable(a.2, b.2, x3, y3);
    D::lemma_decodable(a.3, b.3, x4, y4);
    E::lemma_decodable(a.4, b.4, x, y);
}

proof fn lemma_decodable_7<
    A: Encoded,
    B: Encoded,
    C: Encoded,
    D: Encoded,
    E: Encoded,
    F: Encoded,
    G: Encoded,
>(
    tag: Seq<char>,
    a: (A::V, B::V, C::V, D::V, E::V, F::V, G::V),
    b: (A::V, B::V, C::V, D::V, E::V, F::V, G::V),
    x: Seq<Seq<char>>,
    y: Seq<Seq<char>>,
)
    requires
        (seq![tag] + A::fields(a.0) + B::fields(a.1) + C::fields(a.2) + D::fields(a.3)
            + E::fields(a.4) + F::fields(a.5) + G::fields(a.6)) + x ==
        (seq![tag] + A::fields(b.0) + B::fields(b.1) + C::fields(b.2) + D::fields(b.3)
            + E::fields(b.4) + F::fields(b.5) + G::fields(b.6)) + y,
    ensures
        a == b,
        x == y,
{
    broadcast use lemma_concat_assoc;

    let x6 = G::fields(a.6) + x;
    let y6 = G::fields(b.6) + y;
    let x5 = F::fields(a.5) + x6;
    let y5 = F::fields(b.5) + y6;
    let x4 = E::fields(a.4) + x5;
    let y4 = E::fields(b.4) + y5;
    let x3 = D::fields(a.3) + x4;
    let y3 = D::fields(b.3) + y4;
    let x2 = C::fields(a.2) + x3;
    let y2 = C::fields(b.2) + y3;
    let x1 = B::fields(a.1) + x2;
    let y1 = B::fields(b.1) + y2;
    let x0 = A::fields(a.0) + x1;
    let y0 = A::fields(b.0) + y1;
    String::lemma_decodable(tag, tag, x0, y0);
    A::lemma_decodable(a.0, b.0, x1, y1);
    B::lemma_decodable(a.1, b.1, x2, y2);
    C::lemma_decodable(a.2, b.2, x3, y3);
    D::lemma_decodable(a.3, b.3, x4, y4);
    E::lemma_decodable(a.4, b.4, x5, y5);
    F::lemma_decodable(a.5, b.5, x6, y6);
    G::lemma_decodable(a.6, b.6, x, y);
}

proof fn lemma_decodable_8<
    A: Encoded,
    B: Encoded,
    C: Encoded,
    D: Encoded,
    E: Encoded,
    F: Encoded,
    G: Encoded,
    H: Encoded,
>(
    tag: Seq<char>,
    a: (A::V, B::V, C::V, D::V, E::V, F::V, G::V, H::V),
    b: (A::V, B::V, C::V, D::V, E::V, F::V, G::V, H::V),
    x: Seq<Seq<char>>,
    y: Seq<Seq<char>>,
)
    requires
        (seq![tag] + A::fields(a.0) + B::fields(a.1) + C::fields(a.2) + D::fields(a.3)
            + E::fields(a.4) + F::fields(a.5) + G::fields(a.6) + H::fields(a.7)) + x ==
        (seq![tag] + A::fields(b.0) + B::fields(b.1) + C::fields(b.2) + D::fields(b.3)
            + E::fields(b.4) + F::fields(b.5) + G::fields(b.6) + H::fields(b.7)) + y,
    ensures
        a == b,
        x == y,
{
    broadcast use lemma_concat_assoc;

    let x7 = H::fields(a.7) + x;
    let y7 = H::fields(b.7) + y;
    let x6 = G::fields(a.6) + x7;
    let y6 = G::fields(b.6) + y7;
    let x5 = F::fields(a.5) + x6;
    let y5 = F::fields(b.5) + y6;
    let x4 = E::fields(a.4) + x5;
    let y4 = E::fields(b.4) + y5;
    let x3 = D::fields(a.3) + x4;
    let y3 = D::fields(b.3) + y4;
    let x2 = C::fields(a.2) + x3;
    let y2 = C::fields(b.2) + y3;
    let x1 = B::fields(a.1) + x2;
    let y1 = B::fields(b.1) + y2;
    let x0 = A::fields(a.0) + x1;
    let y0 = A::fields(b.0) + y1;
    String::lemma_decodable(tag, tag, x0, y0);
    A::lemma_decodable(a.0, b.0, x1, y1);
    B::lemma_decodable(a.1, b.1, x2, y2);
    C::lemma_decodable(a.2, b.2, x3, y3);
    D::lemma_decodable(a.3, b.3, x4, y4);
    E::lemma_decodable(a.4, b.4, x5, y5);
    F::lemma_decodable(a.5, b.5, x6, y6);
    G::lemma_decodable(a.6, b.6, x7, y7);
    H::lemma_decodable(a.7, b.7, x, y);
}

impl Encoded for TurnState {
    open spec fn fields(view: TurnStateView) -> Seq<Seq<char>> {
        match view {
            TurnStateView::Accepted { input } => seq!["accepted"@]
                + <UserInput as Encoded>::fields(input),
            TurnStateView::InternalAccepted { input } => seq!["internal_accepted"@]
                + <InternalTurnInput as Encoded>::fields(input),
            TurnStateView::LocalActionAccepted { request_id, call } => seq![
                "local_action_accepted"@,
            ]
                + <RequestId as Encoded>::fields(request_id)
                + <ToolCall as Encoded>::fields(call),
            TurnStateView::LocalActionPrepared { request_id, call, prepared } => seq![
                "local_action_prepared"@,
            ]
                + <RequestId as Encoded>::fields(request_id)
                + <ToolCall as Encoded>::fields(call)
                + <PreparedToolCall as Encoded>::fields(prepared),
            TurnStateView::LocalActionExecuting { request_id, call, prepared } => seq![
                "local_action_executing"@,
            ]
                + <RequestId as Encoded>::fields(request_id)
                + <ToolCall as Encoded>::fields(call)
                + <PreparedToolCall as Encoded>::fields(prepared),
            TurnStateView::LocalActionOutcomeReady { request_id, call, outcome } => seq![
                "local_action_outcome_ready"@,
            ]
                + <RequestId as Encoded>::fields(request_id)
                + <ToolCall as Encoded>::fields(call)
                + <ToolOutcome as Encoded>::fields(outcome),
            TurnStateView::LocalActionResultReady { request_id, call, result } => seq![
                "local_action_result_ready"@,
            ]
                + <RequestId as Encoded>::fields(request_id)
                + <ToolCall as Encoded>::fields(call)
                + <ToolResultBlock as Encoded>::fields(result),
            TurnStateView::Planning { step } => seq!["planning"@] + <u32 as Encoded>::fields(step),
            TurnStateView::CallingModel { request_id, request, step } => seq!["calling_model"@]
                + <RequestId as Encoded>::fields(request_id)
                + <ProviderRequest as Encoded>::fields(request)
                + <u32 as Encoded>::fields(step),
            TurnStateView::ModelResponseReady { request_id, response, step } => seq![
                "model_response_ready"@,
            ]
                + <RequestId as Encoded>::fields(request_id)
                + <AssembledModelResponse as Encoded>::fields(response)
                + <u32 as Encoded>::fields(step),
            TurnStateView::AwaitingApproval { request_id, source_calls, slots, step } => seq![
                "awaiting_approval"@,
            ]
                + <RequestId as Encoded>::fields(request_id)
                + <Vec<ToolCall> as Encoded>::fields(source_calls)
                + <Vec<ToolSlotCheckpoint> as Encoded>::fields(slots)
                + <u32 as Encoded>::fields(step),
            TurnStateView::AwaitingInteraction {
                request_id,
                source_calls,
                slots,
                completed,
                interaction_index,
                request,
                response,
                step,
            } => seq!["awaiting_interaction"@]
                + <RequestId as Encoded>::fields(request_id)
                + <Vec<ToolCall> as Encoded>::fields(source_calls)
                + <Vec<ToolSlotCheckpoint> as Encoded>::fields(slots)
                + <Vec<ToolResultBlock> as Encoded>::fields(completed)
                + <usize as Encoded>::fields(interaction_index)
                + <InteractionRequest as Encoded>::fields(request)
                + <Option<InteractionResponse> as Encoded>::fields(response)
                + <u32 as Encoded>::fields(step),
            TurnStateView::ToolOutcomeReady {
                request_id,
                source_calls,
                slots,
                completed,
                outcome_index,
                outcome,
                step,
            } => seq!["tool_outcome_ready"@]
                + <RequestId as Encoded>::fields(request_id)
                + <Vec<ToolCall> as Encoded>::fields(source_calls)
                + <Vec<ToolSlotCheckpoint> as Encoded>::fields(slots)
                + <Vec<ToolResultBlock> as Encoded>::fields(completed)
                + <usize as Encoded>::fields(outcome_index)
                + <ToolOutcome as Encoded>::fields(outcome)
                + <u32 as Encoded>::fields(step),
            TurnStateView::ExecutingTools { request_id, source_calls, slots, completed, step } => {
                seq!["executing_tools"@]
                    + <RequestId as Encoded>::fields(request_id)
                    + <Vec<ToolCall> as Encoded>::fields(source_calls)
                    + <Vec<ToolSlotCheckpoint> as Encoded>::fields(slots)
                    + <Vec<ToolResultBlock> as Encoded>::fields(completed)
                    + <u32 as Encoded>::fields(step)
            },
            TurnStateView::Completing { finish, visible_output, provider_error_kind } => seq![
                "completing"@,
            ]
                + <TurnFinish as Encoded>::fields(finish)
                + <bool as Encoded>::fields(visible_output)
                + <Option<ProviderErrorKind> as Encoded>::fields(provider_error_kind),
            TurnStateView::PublishingTerminal { finish, visible_output } => seq![
                "publishing_terminal"@,
            ]
                + <TurnFinish as Encoded>::fields(finish)
                + <bool as Encoded>::fields(visible_output),
            TurnStateView::Terminal { finish, visible_output } => seq!["terminal"@]
                + <TurnFinish as Encoded>::fields(finish)
                + <bool as Encoded>::fields(visible_output),
            TurnStateView::CacheOperationPrepared { operation } => seq!["cache_operation_prepared"@]
                + <CacheOperationCheckpoint as Encoded>::fields(operation),
            TurnStateView::CacheOperationStarted { operation } => seq!["cache_operation_started"@]
                + <CacheOperationCheckpoint as Encoded>::fields(operation),
            TurnStateView::CacheOperationResultReady { operation, result } => seq![
                "cache_operation_result_ready"@,
            ]
                + <CacheOperationCheckpoint as Encoded>::fields(operation)
                + <CacheOperationResultCheckpoint as Encoded>::fields(result),
            TurnStateView::CacheOperationTerminal { operation, result } => seq![
                "cache_operation_terminal"@,
            ]
                + <CacheOperationCheckpoint as Encoded>::fields(operation)
                + <CacheOperationResultCheckpoint as Encoded>::fields(result),
        }
    }

    fn encode(&self, hasher: &mut FingerprintHasher) {
        match self {
            TurnState::Accepted { input } => encode_accepted(input, hasher),
            TurnState::InternalAccepted { input } => encode_internal_accepted(input, hasher),
            TurnState::LocalActionAccepted { request_id, call } => {
                encode_local_action_accepted(request_id, call, hasher)
            },
            TurnState::LocalActionPrepared { request_id, call, prepared } => {
                encode_local_action_prepared(request_id, call, prepared, hasher)
            },
            TurnState::LocalActionExecuting { request_id, call, prepared } => {
                encode_local_action_executing(request_id, call, prepared, hasher)
            },
            TurnState::LocalActionOutcomeReady { request_id, call, outcome } => {
                encode_local_action_outcome_ready(request_id, call, outcome, hasher)
            },
            TurnState::LocalActionResultReady { request_id, call, result } => {
                encode_local_action_result_ready(request_id, call, result, hasher)
            },
            TurnState::Planning { step } => encode_planning(step, hasher),
            TurnState::CallingModel { request_id, request, step } => {
                encode_calling_model(request_id, request, step, hasher)
            },
            TurnState::ModelResponseReady { request_id, response, step } => {
                encode_model_response_ready(request_id, response, step, hasher)
            },
            TurnState::AwaitingApproval { request_id, source_calls, slots, step } => {
                encode_awaiting_approval(request_id, source_calls, slots, step, hasher)
            },
            TurnState::AwaitingInteraction {
                request_id,
                source_calls,
                slots,
                completed,
                interaction_index,
                request,
                response,
                step,
            } => encode_awaiting_interaction(
                request_id,
                source_calls,
                slots,
                completed,
                interaction_index,
                request,
                response,
                step,
                hasher,
            ),
            TurnState::ToolOutcomeReady {
                request_id,
                source_calls,
                slots,
                completed,
                outcome_index,
                outcome,
                step,
            } => encode_tool_outcome_ready(
                request_id,
                source_calls,
                slots,
                completed,
                outcome_index,
                outcome,
                step,
                hasher,
            ),
            TurnState::ExecutingTools { request_id, source_calls, slots, completed, step } => {
                encode_executing_tools(request_id, source_calls, slots, completed, step, hasher)
            },
            TurnState::Completing { finish, visible_output, provider_error_kind } => {
                encode_completing(finish, visible_output, provider_error_kind, hasher)
            },
            TurnState::PublishingTerminal { finish, visible_output } => {
                encode_publishing_terminal(finish, visible_output, hasher)
            },
            TurnState::Terminal { finish, visible_output } => {
                encode_terminal(finish, visible_output, hasher)
            },
            TurnState::CacheOperationPrepared { operation } => {
                encode_cache_operation_prepared(operation, hasher)
            },
            TurnState::CacheOperationStarted { operation } => {
                encode_cache_operation_started(operation, hasher)
            },
            TurnState::CacheOperationResultReady { operation, result } => {
                encode_cache_operation_result_ready(operation, result, hasher)
            },
            TurnState::CacheOperationTerminal { operation, result } => {
                encode_cache_operation_terminal(operation, result, hasher)
            },
        }
    }

    proof fn lemma_decodable(
        a: TurnStateView,
        b: TurnStateView,
        x: Seq<Seq<char>>,
        y: Seq<Seq<char>>,
    ) {
        reveal_strlit("accepted");
        assert("accepted"@.len() == 8);
        reveal_strlit("internal_accepted");
        assert("internal_accepted"@.len() == 17);
        reveal_strlit("local_action_accepted");
        assert("local_action_accepted"@.len() == 21);
        reveal_strlit("local_action_prepared");
        assert("local_action_prepared"@.len() == 21);
        reveal_strlit("local_action_executing");
        assert("local_action_executing"@.len() == 22);
        reveal_strlit("local_action_outcome_ready");
        assert("local_action_outcome_ready"@.len() == 26);
        reveal_strlit("local_action_result_ready");
        assert("local_action_result_ready"@.len() == 25);
        reveal_strlit("planning");
        assert("planning"@.len() == 8);
        reveal_strlit("calling_model");
        assert("calling_model"@.len() == 13);
        reveal_strlit("model_response_ready");
        assert("model_response_ready"@.len() == 20);
        reveal_strlit("awaiting_approval");
        assert("awaiting_approval"@.len() == 17);
        reveal_strlit("awaiting_interaction");
        assert("awaiting_interaction"@.len() == 20);
        reveal_strlit("tool_outcome_ready");
        assert("tool_outcome_ready"@.len() == 18);
        reveal_strlit("executing_tools");
        assert("executing_tools"@.len() == 15);
        reveal_strlit("completing");
        assert("completing"@.len() == 10);
        reveal_strlit("publishing_terminal");
        assert("publishing_terminal"@.len() == 19);
        reveal_strlit("terminal");
        assert("terminal"@.len() == 8);
        reveal_strlit("cache_operation_prepared");
        assert("cache_operation_prepared"@.len() == 24);
        reveal_strlit("cache_operation_started");
        assert("cache_operation_started"@.len() == 23);
        reveal_strlit("cache_operation_result_ready");
        assert("cache_operation_result_ready"@.len() == 28);
        reveal_strlit("cache_operation_terminal");
        assert("cache_operation_terminal"@.len() == 24);
        assert("accepted"@[0] != "planning"@[0]);
        assert("accepted"@[0] != "terminal"@[0]);
        assert("internal_accepted"@[0] != "awaiting_approval"@[0]);
        assert("local_action_accepted"@[13] != "local_action_prepared"@[13]);
        assert("planning"@[0] != "terminal"@[0]);
        assert("model_response_ready"@[0] != "awaiting_interaction"@[0]);
        assert("cache_operation_prepared"@[16] != "cache_operation_terminal"@[16]);
        assert((Self::fields(a) + x)[0] == Self::fields(a)[0]);
        assert((Self::fields(b) + y)[0] == Self::fields(b)[0]);
        match (a, b) {
            (TurnStateView::Accepted { input }, TurnStateView::Accepted { input: other_input }) => {
                lemma_decodable_1::<UserInput>(
                    "accepted"@,
                    (input,),
                    (other_input,),
                    x,
                    y,
                );
            },
            (
                TurnStateView::InternalAccepted { input },
                TurnStateView::InternalAccepted { input: other_input },
            ) => {
                lemma_decodable_1::<InternalTurnInput>(
                    "internal_accepted"@,
                    (input,),
                    (other_input,),
                    x,
                    y,
                );
            },
            (
                TurnStateView::LocalActionAccepted { request_id, call },
                TurnStateView::LocalActionAccepted {
                    request_id: other_request_id,
                    call: other_call,
                },
            ) => {
                lemma_decodable_2::<RequestId, ToolCall>(
                    "local_action_accepted"@,
                    (request_id, call),
                    (other_request_id, other_call),
                    x,
                    y,
                );
            },
            (
                TurnStateView::LocalActionPrepared { request_id, call, prepared },
                TurnStateView::LocalActionPrepared {
                    request_id: other_request_id,
                    call: other_call,
                    prepared: other_prepared,
                },
            ) => {
                lemma_decodable_3::<RequestId, ToolCall, PreparedToolCall>(
                    "local_action_prepared"@,
                    (request_id, call, prepared),
                    (other_request_id, other_call, other_prepared),
                    x,
                    y,
                );
            },
            (
                TurnStateView::LocalActionExecuting { request_id, call, prepared },
                TurnStateView::LocalActionExecuting {
                    request_id: other_request_id,
                    call: other_call,
                    prepared: other_prepared,
                },
            ) => {
                lemma_decodable_3::<RequestId, ToolCall, PreparedToolCall>(
                    "local_action_executing"@,
                    (request_id, call, prepared),
                    (other_request_id, other_call, other_prepared),
                    x,
                    y,
                );
            },
            (
                TurnStateView::LocalActionOutcomeReady { request_id, call, outcome },
                TurnStateView::LocalActionOutcomeReady {
                    request_id: other_request_id,
                    call: other_call,
                    outcome: other_outcome,
                },
            ) => {
                lemma_decodable_3::<RequestId, ToolCall, ToolOutcome>(
                    "local_action_outcome_ready"@,
                    (request_id, call, outcome),
                    (other_request_id, other_call, other_outcome),
                    x,
                    y,
                );
            },
            (
                TurnStateView::LocalActionResultReady { request_id, call, result },
                TurnStateView::LocalActionResultReady {
                    request_id: other_request_id,
                    call: other_call,
                    result: other_result,
                },
            ) => {
                lemma_decodable_3::<RequestId, ToolCall, ToolResultBlock>(
                    "local_action_result_ready"@,
                    (request_id, call, result),
                    (other_request_id, other_call, other_result),
                    x,
                    y,
                );
            },
            (TurnStateView::Planning { step }, TurnStateView::Planning { step: other_step }) => {
                lemma_decodable_1::<u32>(
                    "planning"@,
                    (step,),
                    (other_step,),
                    x,
                    y,
                );
            },
            (
                TurnStateView::CallingModel { request_id, request, step },
                TurnStateView::CallingModel {
                    request_id: other_request_id,
                    request: other_request,
                    step: other_step,
                },
            ) => {
                lemma_decodable_3::<RequestId, ProviderRequest, u32>(
                    "calling_model"@,
                    (request_id, request, step),
                    (other_request_id, other_request, other_step),
                    x,
                    y,
                );
            },
            (
                TurnStateView::ModelResponseReady { request_id, response, step },
                TurnStateView::ModelResponseReady {
                    request_id: other_request_id,
                    response: other_response,
                    step: other_step,
                },
            ) => {
                lemma_decodable_3::<RequestId, AssembledModelResponse, u32>(
                    "model_response_ready"@,
                    (request_id, response, step),
                    (other_request_id, other_response, other_step),
                    x,
                    y,
                );
            },
            (
                TurnStateView::AwaitingApproval { request_id, source_calls, slots, step },
                TurnStateView::AwaitingApproval {
                    request_id: other_request_id,
                    source_calls: other_source_calls,
                    slots: other_slots,
                    step: other_step,
                },
            ) => {
                lemma_decodable_4::<RequestId, Vec<ToolCall>, Vec<ToolSlotCheckpoint>, u32>(
                    "awaiting_approval"@,
                    (request_id, source_calls, slots, step),
                    (other_request_id, other_source_calls, other_slots, other_step),
                    x,
                    y,
                );
            },
            (
                TurnStateView::AwaitingInteraction {
                    request_id,
                    source_calls,
                    slots,
                    completed,
                    interaction_index,
                    request,
                    response,
                    step,
                },
                TurnStateView::AwaitingInteraction {
                    request_id: other_request_id,
                    source_calls: other_source_calls,
                    slots: other_slots,
                    completed: other_completed,
                    interaction_index: other_interaction_index,
                    request: other_request,
                    response: other_response,
                    step: other_step,
                },
            ) => {
                lemma_decodable_8::<
                    RequestId,
                    Vec<ToolCall>,
                    Vec<ToolSlotCheckpoint>,
                    Vec<ToolResultBlock>,
                    usize,
                    InteractionRequest,
                    Option<InteractionResponse>,
                    u32,
                >(
                    "awaiting_interaction"@,
                    (
                        request_id,
                        source_calls,
                        slots,
                        completed,
                        interaction_index,
                        request,
                        response,
                        step,
                    ),
                    (
                        other_request_id,
                        other_source_calls,
                        other_slots,
                        other_completed,
                        other_interaction_index,
                        other_request,
                        other_response,
                        other_step,
                    ),
                    x,
                    y,
                );
            },
            (
                TurnStateView::ToolOutcomeReady {
                    request_id,
                    source_calls,
                    slots,
                    completed,
                    outcome_index,
                    outcome,
                    step,
                },
                TurnStateView::ToolOutcomeReady {
                    request_id: other_request_id,
                    source_calls: other_source_calls,
                    slots: other_slots,
                    completed: other_completed,
                    outcome_index: other_outcome_index,
                    outcome: other_outcome,
                    step: other_step,
                },
            ) => {
                lemma_decodable_7::<
                    RequestId,
                    Vec<ToolCall>,
                    Vec<ToolSlotCheckpoint>,
                    Vec<ToolResultBlock>,
                    usize,
                    ToolOutcome,
                    u32,
                >(
                    "tool_outcome_ready"@,
                    (request_id, source_calls, slots, completed, outcome_index, outcome, step),
                    (
                        other_request_id,
                        other_source_calls,
                        other_slots,
                        other_completed,
                        other_outcome_index,
                        other_outcome,
                        other_step,
                    ),
                    x,
                    y,
                );
            },
            (
                TurnStateView::ExecutingTools { request_id, source_calls, slots, completed, step },
                TurnStateView::ExecutingTools {
                    request_id: other_request_id,
                    source_calls: other_source_calls,
                    slots: other_slots,
                    completed: other_completed,
                    step: other_step,
                },
            ) => {
                lemma_decodable_5::<
                    RequestId,
                    Vec<ToolCall>,
                    Vec<ToolSlotCheckpoint>,
                    Vec<ToolResultBlock>,
                    u32,
                >(
                    "executing_tools"@,
                    (request_id, source_calls, slots, completed, step),
                    (
                        other_request_id,
                        other_source_calls,
                        other_slots,
                        other_completed,
                        other_step,
                    ),
                    x,
                    y,
                );
            },
            (
                TurnStateView::Completing { finish, visible_output, provider_error_kind },
                TurnStateView::Completing {
                    finish: other_finish,
                    visible_output: other_visible_output,
                    provider_error_kind: other_provider_error_kind,
                },
            ) => {
                lemma_decodable_3::<TurnFinish, bool, Option<ProviderErrorKind>>(
                    "completing"@,
                    (finish, visible_output, provider_error_kind),
                    (other_finish, other_visible_output, other_provider_error_kind),
                    x,
                    y,
                );
            },
            (
                TurnStateView::PublishingTerminal { finish, visible_output },
                TurnStateView::PublishingTerminal {
                    finish: other_finish,
                    visible_output: other_visible_output,
                },
            ) => {
                lemma_decodable_2::<TurnFinish, bool>(
                    "publishing_terminal"@,
                    (finish, visible_output),
                    (other_finish, other_visible_output),
                    x,
                    y,
                );
            },
            (
                TurnStateView::Terminal { finish, visible_output },
                TurnStateView::Terminal {
                    finish: other_finish,
                    visible_output: other_visible_output,
                },
            ) => {
                lemma_decodable_2::<TurnFinish, bool>(
                    "terminal"@,
                    (finish, visible_output),
                    (other_finish, other_visible_output),
                    x,
                    y,
                );
            },
            (
                TurnStateView::CacheOperationPrepared { operation },
                TurnStateView::CacheOperationPrepared { operation: other_operation },
            ) => {
                lemma_decodable_1::<CacheOperationCheckpoint>(
                    "cache_operation_prepared"@,
                    (operation,),
                    (other_operation,),
                    x,
                    y,
                );
            },
            (
                TurnStateView::CacheOperationStarted { operation },
                TurnStateView::CacheOperationStarted { operation: other_operation },
            ) => {
                lemma_decodable_1::<CacheOperationCheckpoint>(
                    "cache_operation_started"@,
                    (operation,),
                    (other_operation,),
                    x,
                    y,
                );
            },
            (
                TurnStateView::CacheOperationResultReady { operation, result },
                TurnStateView::CacheOperationResultReady {
                    operation: other_operation,
                    result: other_result,
                },
            ) => {
                lemma_decodable_2::<CacheOperationCheckpoint, CacheOperationResultCheckpoint>(
                    "cache_operation_result_ready"@,
                    (operation, result),
                    (other_operation, other_result),
                    x,
                    y,
                );
            },
            (
                TurnStateView::CacheOperationTerminal { operation, result },
                TurnStateView::CacheOperationTerminal {
                    operation: other_operation,
                    result: other_result,
                },
            ) => {
                lemma_decodable_2::<CacheOperationCheckpoint, CacheOperationResultCheckpoint>(
                    "cache_operation_terminal"@,
                    (operation, result),
                    (other_operation, other_result),
                    x,
                    y,
                );
            },
            _ => {},
        }
    }
}

fn encode_accepted(
    input: &UserInput,
    hasher: &mut FingerprintHasher,
)
    ensures
        final(hasher)@ == absorb_all(
            old(hasher)@,
            seq!["accepted"@] + <UserInput as Encoded>::fields(input.deep_view()),
        ),
{
    let ghost start = hasher@;
    hasher.field("accepted");
    input.encode(hasher);
    proof {
        lemma_absorb_one(start, "accepted"@);
        let f_input = <UserInput as Encoded>::fields(input.deep_view());
        lemma_absorb_concat(start, seq!["accepted"@], f_input);
    }
}

fn encode_internal_accepted(
    input: &InternalTurnInput,
    hasher: &mut FingerprintHasher,
)
    ensures
        final(hasher)@ == absorb_all(
            old(hasher)@,
            seq!["internal_accepted"@] + <InternalTurnInput as Encoded>::fields(input.deep_view()),
        ),
{
    let ghost start = hasher@;
    hasher.field("internal_accepted");
    input.encode(hasher);
    proof {
        lemma_absorb_one(start, "internal_accepted"@);
        let f_input = <InternalTurnInput as Encoded>::fields(input.deep_view());
        lemma_absorb_concat(start, seq!["internal_accepted"@], f_input);
    }
}

fn encode_local_action_accepted(
    request_id: &RequestId,
    call: &ToolCall,
    hasher: &mut FingerprintHasher,
)
    ensures
        final(hasher)@ == absorb_all(
            old(hasher)@,
            seq!["local_action_accepted"@]
                + <RequestId as Encoded>::fields(request_id.deep_view())
                + <ToolCall as Encoded>::fields(call.deep_view()),
        ),
{
    let ghost start = hasher@;
    hasher.field("local_action_accepted");
    request_id.encode(hasher);
    call.encode(hasher);
    proof {
        lemma_absorb_one(start, "local_action_accepted"@);
        let f_request_id = <RequestId as Encoded>::fields(request_id.deep_view());
        lemma_absorb_concat(start, seq!["local_action_accepted"@], f_request_id);
        let f_call = <ToolCall as Encoded>::fields(call.deep_view());
        lemma_absorb_concat(start, seq!["local_action_accepted"@] + f_request_id, f_call);
    }
}

fn encode_local_action_prepared(
    request_id: &RequestId,
    call: &ToolCall,
    prepared: &PreparedToolCall,
    hasher: &mut FingerprintHasher,
)
    ensures
        final(hasher)@ == absorb_all(
            old(hasher)@,
            seq!["local_action_prepared"@]
                + <RequestId as Encoded>::fields(request_id.deep_view())
                + <ToolCall as Encoded>::fields(call.deep_view())
                + <PreparedToolCall as Encoded>::fields(prepared.deep_view()),
        ),
{
    let ghost start = hasher@;
    hasher.field("local_action_prepared");
    request_id.encode(hasher);
    call.encode(hasher);
    prepared.encode(hasher);
    proof {
        lemma_absorb_one(start, "local_action_prepared"@);
        let f_request_id = <RequestId as Encoded>::fields(request_id.deep_view());
        lemma_absorb_concat(start, seq!["local_action_prepared"@], f_request_id);
        let f_call = <ToolCall as Encoded>::fields(call.deep_view());
        lemma_absorb_concat(start, seq!["local_action_prepared"@] + f_request_id, f_call);
        let f_prepared = <PreparedToolCall as Encoded>::fields(prepared.deep_view());
        lemma_absorb_concat(
            start,
            seq!["local_action_prepared"@] + f_request_id + f_call,
            f_prepared,
        );
    }
}

fn encode_local_action_executing(
    request_id: &RequestId,
    call: &ToolCall,
    prepared: &PreparedToolCall,
    hasher: &mut FingerprintHasher,
)
    ensures
        final(hasher)@ == absorb_all(
            old(hasher)@,
            seq!["local_action_executing"@]
                + <RequestId as Encoded>::fields(request_id.deep_view())
                + <ToolCall as Encoded>::fields(call.deep_view())
                + <PreparedToolCall as Encoded>::fields(prepared.deep_view()),
        ),
{
    let ghost start = hasher@;
    hasher.field("local_action_executing");
    request_id.encode(hasher);
    call.encode(hasher);
    prepared.encode(hasher);
    proof {
        lemma_absorb_one(start, "local_action_executing"@);
        let f_request_id = <RequestId as Encoded>::fields(request_id.deep_view());
        lemma_absorb_concat(start, seq!["local_action_executing"@], f_request_id);
        let f_call = <ToolCall as Encoded>::fields(call.deep_view());
        lemma_absorb_concat(start, seq!["local_action_executing"@] + f_request_id, f_call);
        let f_prepared = <PreparedToolCall as Encoded>::fields(prepared.deep_view());
        lemma_absorb_concat(
            start,
            seq!["local_action_executing"@] + f_request_id + f_call,
            f_prepared,
        );
    }
}

fn encode_local_action_outcome_ready(
    request_id: &RequestId,
    call: &ToolCall,
    outcome: &ToolOutcome,
    hasher: &mut FingerprintHasher,
)
    ensures
        final(hasher)@ == absorb_all(
            old(hasher)@,
            seq!["local_action_outcome_ready"@]
                + <RequestId as Encoded>::fields(request_id.deep_view())
                + <ToolCall as Encoded>::fields(call.deep_view())
                + <ToolOutcome as Encoded>::fields(outcome.deep_view()),
        ),
{
    let ghost start = hasher@;
    hasher.field("local_action_outcome_ready");
    request_id.encode(hasher);
    call.encode(hasher);
    outcome.encode(hasher);
    proof {
        lemma_absorb_one(start, "local_action_outcome_ready"@);
        let f_request_id = <RequestId as Encoded>::fields(request_id.deep_view());
        lemma_absorb_concat(start, seq!["local_action_outcome_ready"@], f_request_id);
        let f_call = <ToolCall as Encoded>::fields(call.deep_view());
        lemma_absorb_concat(start, seq!["local_action_outcome_ready"@] + f_request_id, f_call);
        let f_outcome = <ToolOutcome as Encoded>::fields(outcome.deep_view());
        lemma_absorb_concat(
            start,
            seq!["local_action_outcome_ready"@] + f_request_id + f_call,
            f_outcome,
        );
    }
}

fn encode_local_action_result_ready(
    request_id: &RequestId,
    call: &ToolCall,
    result: &ToolResultBlock,
    hasher: &mut FingerprintHasher,
)
    ensures
        final(hasher)@ == absorb_all(
            old(hasher)@,
            seq!["local_action_result_ready"@]
                + <RequestId as Encoded>::fields(request_id.deep_view())
                + <ToolCall as Encoded>::fields(call.deep_view())
                + <ToolResultBlock as Encoded>::fields(result.deep_view()),
        ),
{
    let ghost start = hasher@;
    hasher.field("local_action_result_ready");
    request_id.encode(hasher);
    call.encode(hasher);
    result.encode(hasher);
    proof {
        lemma_absorb_one(start, "local_action_result_ready"@);
        let f_request_id = <RequestId as Encoded>::fields(request_id.deep_view());
        lemma_absorb_concat(start, seq!["local_action_result_ready"@], f_request_id);
        let f_call = <ToolCall as Encoded>::fields(call.deep_view());
        lemma_absorb_concat(start, seq!["local_action_result_ready"@] + f_request_id, f_call);
        let f_result = <ToolResultBlock as Encoded>::fields(result.deep_view());
        lemma_absorb_concat(
            start,
            seq!["local_action_result_ready"@] + f_request_id + f_call,
            f_result,
        );
    }
}

fn encode_planning(
    step: &u32,
    hasher: &mut FingerprintHasher,
)
    ensures
        final(hasher)@ == absorb_all(
            old(hasher)@,
            seq!["planning"@] + <u32 as Encoded>::fields(step.deep_view()),
        ),
{
    let ghost start = hasher@;
    hasher.field("planning");
    step.encode(hasher);
    proof {
        lemma_absorb_one(start, "planning"@);
        let f_step = <u32 as Encoded>::fields(step.deep_view());
        lemma_absorb_concat(start, seq!["planning"@], f_step);
    }
}

fn encode_calling_model(
    request_id: &RequestId,
    request: &ProviderRequest,
    step: &u32,
    hasher: &mut FingerprintHasher,
)
    ensures
        final(hasher)@ == absorb_all(
            old(hasher)@,
            seq!["calling_model"@]
                + <RequestId as Encoded>::fields(request_id.deep_view())
                + <ProviderRequest as Encoded>::fields(request.deep_view())
                + <u32 as Encoded>::fields(step.deep_view()),
        ),
{
    let ghost start = hasher@;
    hasher.field("calling_model");
    request_id.encode(hasher);
    request.encode(hasher);
    step.encode(hasher);
    proof {
        lemma_absorb_one(start, "calling_model"@);
        let f_request_id = <RequestId as Encoded>::fields(request_id.deep_view());
        lemma_absorb_concat(start, seq!["calling_model"@], f_request_id);
        let f_request = <ProviderRequest as Encoded>::fields(request.deep_view());
        lemma_absorb_concat(start, seq!["calling_model"@] + f_request_id, f_request);
        let f_step = <u32 as Encoded>::fields(step.deep_view());
        lemma_absorb_concat(start, seq!["calling_model"@] + f_request_id + f_request, f_step);
    }
}

fn encode_model_response_ready(
    request_id: &RequestId,
    response: &AssembledModelResponse,
    step: &u32,
    hasher: &mut FingerprintHasher,
)
    ensures
        final(hasher)@ == absorb_all(
            old(hasher)@,
            seq!["model_response_ready"@]
                + <RequestId as Encoded>::fields(request_id.deep_view())
                + <AssembledModelResponse as Encoded>::fields(response.deep_view())
                + <u32 as Encoded>::fields(step.deep_view()),
        ),
{
    let ghost start = hasher@;
    hasher.field("model_response_ready");
    request_id.encode(hasher);
    response.encode(hasher);
    step.encode(hasher);
    proof {
        lemma_absorb_one(start, "model_response_ready"@);
        let f_request_id = <RequestId as Encoded>::fields(request_id.deep_view());
        lemma_absorb_concat(start, seq!["model_response_ready"@], f_request_id);
        let f_response = <AssembledModelResponse as Encoded>::fields(response.deep_view());
        lemma_absorb_concat(start, seq!["model_response_ready"@] + f_request_id, f_response);
        let f_step = <u32 as Encoded>::fields(step.deep_view());
        lemma_absorb_concat(
            start,
            seq!["model_response_ready"@] + f_request_id + f_response,
            f_step,
        );
    }
}

fn encode_awaiting_approval(
    request_id: &RequestId,
    source_calls: &Vec<ToolCall>,
    slots: &Vec<ToolSlotCheckpoint>,
    step: &u32,
    hasher: &mut FingerprintHasher,
)
    ensures
        final(hasher)@ == absorb_all(
            old(hasher)@,
            seq!["awaiting_approval"@]
                + <RequestId as Encoded>::fields(request_id.deep_view())
                + <Vec<ToolCall> as Encoded>::fields(source_calls.deep_view())
                + <Vec<ToolSlotCheckpoint> as Encoded>::fields(slots.deep_view())
                + <u32 as Encoded>::fields(step.deep_view()),
        ),
{
    let ghost start = hasher@;
    hasher.field("awaiting_approval");
    request_id.encode(hasher);
    source_calls.encode(hasher);
    slots.encode(hasher);
    step.encode(hasher);
    proof {
        lemma_absorb_one(start, "awaiting_approval"@);
        let f_request_id = <RequestId as Encoded>::fields(request_id.deep_view());
        lemma_absorb_concat(start, seq!["awaiting_approval"@], f_request_id);
        let f_source_calls = <Vec<ToolCall> as Encoded>::fields(source_calls.deep_view());
        lemma_absorb_concat(start, seq!["awaiting_approval"@] + f_request_id, f_source_calls);
        let f_slots = <Vec<ToolSlotCheckpoint> as Encoded>::fields(slots.deep_view());
        lemma_absorb_concat(
            start,
            seq!["awaiting_approval"@] + f_request_id + f_source_calls,
            f_slots,
        );
        let f_step = <u32 as Encoded>::fields(step.deep_view());
        lemma_absorb_concat(
            start,
            seq!["awaiting_approval"@] + f_request_id + f_source_calls + f_slots,
            f_step,
        );
    }
}

fn encode_awaiting_interaction(
    request_id: &RequestId,
    source_calls: &Vec<ToolCall>,
    slots: &Vec<ToolSlotCheckpoint>,
    completed: &Vec<ToolResultBlock>,
    interaction_index: &usize,
    request: &InteractionRequest,
    response: &Option<InteractionResponse>,
    step: &u32,
    hasher: &mut FingerprintHasher,
)
    ensures
        final(hasher)@ == absorb_all(
            old(hasher)@,
            seq!["awaiting_interaction"@]
                + <RequestId as Encoded>::fields(request_id.deep_view())
                + <Vec<ToolCall> as Encoded>::fields(source_calls.deep_view())
                + <Vec<ToolSlotCheckpoint> as Encoded>::fields(slots.deep_view())
                + <Vec<ToolResultBlock> as Encoded>::fields(completed.deep_view())
                + <usize as Encoded>::fields(interaction_index.deep_view())
                + <InteractionRequest as Encoded>::fields(request.deep_view())
                + <Option<InteractionResponse> as Encoded>::fields(response.deep_view())
                + <u32 as Encoded>::fields(step.deep_view()),
        ),
{
    let ghost start = hasher@;
    hasher.field("awaiting_interaction");
    request_id.encode(hasher);
    source_calls.encode(hasher);
    slots.encode(hasher);
    completed.encode(hasher);
    interaction_index.encode(hasher);
    request.encode(hasher);
    response.encode(hasher);
    step.encode(hasher);
    proof {
        lemma_absorb_one(start, "awaiting_interaction"@);
        let f_request_id = <RequestId as Encoded>::fields(request_id.deep_view());
        lemma_absorb_concat(start, seq!["awaiting_interaction"@], f_request_id);
        let f_source_calls = <Vec<ToolCall> as Encoded>::fields(source_calls.deep_view());
        lemma_absorb_concat(start, seq!["awaiting_interaction"@] + f_request_id, f_source_calls);
        let f_slots = <Vec<ToolSlotCheckpoint> as Encoded>::fields(slots.deep_view());
        lemma_absorb_concat(
            start,
            seq!["awaiting_interaction"@] + f_request_id + f_source_calls,
            f_slots,
        );
        let f_completed = <Vec<ToolResultBlock> as Encoded>::fields(completed.deep_view());
        lemma_absorb_concat(
            start,
            seq!["awaiting_interaction"@] + f_request_id + f_source_calls + f_slots,
            f_completed,
        );
        let f_interaction_index = <usize as Encoded>::fields(interaction_index.deep_view());
        lemma_absorb_concat(
            start,
            seq!["awaiting_interaction"@] + f_request_id + f_source_calls + f_slots + f_completed,
            f_interaction_index,
        );
        let f_request = <InteractionRequest as Encoded>::fields(request.deep_view());
        lemma_absorb_concat(
            start,
            seq!["awaiting_interaction"@]
                + f_request_id
                + f_source_calls
                + f_slots
                + f_completed
                + f_interaction_index,
            f_request,
        );
        let f_response = <Option<InteractionResponse> as Encoded>::fields(response.deep_view());
        lemma_absorb_concat(
            start,
            seq!["awaiting_interaction"@]
                + f_request_id
                + f_source_calls
                + f_slots
                + f_completed
                + f_interaction_index
                + f_request,
            f_response,
        );
        let f_step = <u32 as Encoded>::fields(step.deep_view());
        lemma_absorb_concat(
            start,
            seq!["awaiting_interaction"@]
                + f_request_id
                + f_source_calls
                + f_slots
                + f_completed
                + f_interaction_index
                + f_request
                + f_response,
            f_step,
        );
    }
}

fn encode_tool_outcome_ready(
    request_id: &RequestId,
    source_calls: &Vec<ToolCall>,
    slots: &Vec<ToolSlotCheckpoint>,
    completed: &Vec<ToolResultBlock>,
    outcome_index: &usize,
    outcome: &ToolOutcome,
    step: &u32,
    hasher: &mut FingerprintHasher,
)
    ensures
        final(hasher)@ == absorb_all(
            old(hasher)@,
            seq!["tool_outcome_ready"@]
                + <RequestId as Encoded>::fields(request_id.deep_view())
                + <Vec<ToolCall> as Encoded>::fields(source_calls.deep_view())
                + <Vec<ToolSlotCheckpoint> as Encoded>::fields(slots.deep_view())
                + <Vec<ToolResultBlock> as Encoded>::fields(completed.deep_view())
                + <usize as Encoded>::fields(outcome_index.deep_view())
                + <ToolOutcome as Encoded>::fields(outcome.deep_view())
                + <u32 as Encoded>::fields(step.deep_view()),
        ),
{
    let ghost start = hasher@;
    hasher.field("tool_outcome_ready");
    request_id.encode(hasher);
    source_calls.encode(hasher);
    slots.encode(hasher);
    completed.encode(hasher);
    outcome_index.encode(hasher);
    outcome.encode(hasher);
    step.encode(hasher);
    proof {
        lemma_absorb_one(start, "tool_outcome_ready"@);
        let f_request_id = <RequestId as Encoded>::fields(request_id.deep_view());
        lemma_absorb_concat(start, seq!["tool_outcome_ready"@], f_request_id);
        let f_source_calls = <Vec<ToolCall> as Encoded>::fields(source_calls.deep_view());
        lemma_absorb_concat(start, seq!["tool_outcome_ready"@] + f_request_id, f_source_calls);
        let f_slots = <Vec<ToolSlotCheckpoint> as Encoded>::fields(slots.deep_view());
        lemma_absorb_concat(
            start,
            seq!["tool_outcome_ready"@] + f_request_id + f_source_calls,
            f_slots,
        );
        let f_completed = <Vec<ToolResultBlock> as Encoded>::fields(completed.deep_view());
        lemma_absorb_concat(
            start,
            seq!["tool_outcome_ready"@] + f_request_id + f_source_calls + f_slots,
            f_completed,
        );
        let f_outcome_index = <usize as Encoded>::fields(outcome_index.deep_view());
        lemma_absorb_concat(
            start,
            seq!["tool_outcome_ready"@] + f_request_id + f_source_calls + f_slots + f_completed,
            f_outcome_index,
        );
        let f_outcome = <ToolOutcome as Encoded>::fields(outcome.deep_view());
        lemma_absorb_concat(
            start,
            seq!["tool_outcome_ready"@]
                + f_request_id
                + f_source_calls
                + f_slots
                + f_completed
                + f_outcome_index,
            f_outcome,
        );
        let f_step = <u32 as Encoded>::fields(step.deep_view());
        lemma_absorb_concat(
            start,
            seq!["tool_outcome_ready"@]
                + f_request_id
                + f_source_calls
                + f_slots
                + f_completed
                + f_outcome_index
                + f_outcome,
            f_step,
        );
    }
}

fn encode_executing_tools(
    request_id: &RequestId,
    source_calls: &Vec<ToolCall>,
    slots: &Vec<ToolSlotCheckpoint>,
    completed: &Vec<ToolResultBlock>,
    step: &u32,
    hasher: &mut FingerprintHasher,
)
    ensures
        final(hasher)@ == absorb_all(
            old(hasher)@,
            seq!["executing_tools"@]
                + <RequestId as Encoded>::fields(request_id.deep_view())
                + <Vec<ToolCall> as Encoded>::fields(source_calls.deep_view())
                + <Vec<ToolSlotCheckpoint> as Encoded>::fields(slots.deep_view())
                + <Vec<ToolResultBlock> as Encoded>::fields(completed.deep_view())
                + <u32 as Encoded>::fields(step.deep_view()),
        ),
{
    let ghost start = hasher@;
    hasher.field("executing_tools");
    request_id.encode(hasher);
    source_calls.encode(hasher);
    slots.encode(hasher);
    completed.encode(hasher);
    step.encode(hasher);
    proof {
        lemma_absorb_one(start, "executing_tools"@);
        let f_request_id = <RequestId as Encoded>::fields(request_id.deep_view());
        lemma_absorb_concat(start, seq!["executing_tools"@], f_request_id);
        let f_source_calls = <Vec<ToolCall> as Encoded>::fields(source_calls.deep_view());
        lemma_absorb_concat(start, seq!["executing_tools"@] + f_request_id, f_source_calls);
        let f_slots = <Vec<ToolSlotCheckpoint> as Encoded>::fields(slots.deep_view());
        lemma_absorb_concat(
            start,
            seq!["executing_tools"@] + f_request_id + f_source_calls,
            f_slots,
        );
        let f_completed = <Vec<ToolResultBlock> as Encoded>::fields(completed.deep_view());
        lemma_absorb_concat(
            start,
            seq!["executing_tools"@] + f_request_id + f_source_calls + f_slots,
            f_completed,
        );
        let f_step = <u32 as Encoded>::fields(step.deep_view());
        lemma_absorb_concat(
            start,
            seq!["executing_tools"@] + f_request_id + f_source_calls + f_slots + f_completed,
            f_step,
        );
    }
}

fn encode_completing(
    finish: &TurnFinish,
    visible_output: &bool,
    provider_error_kind: &Option<ProviderErrorKind>,
    hasher: &mut FingerprintHasher,
)
    ensures
        final(hasher)@ == absorb_all(
            old(hasher)@,
            seq!["completing"@]
                + <TurnFinish as Encoded>::fields(finish.deep_view())
                + <bool as Encoded>::fields(visible_output.deep_view())
                + <Option<ProviderErrorKind> as Encoded>::fields(provider_error_kind.deep_view()),
        ),
{
    let ghost start = hasher@;
    hasher.field("completing");
    finish.encode(hasher);
    visible_output.encode(hasher);
    provider_error_kind.encode(hasher);
    proof {
        lemma_absorb_one(start, "completing"@);
        let f_finish = <TurnFinish as Encoded>::fields(finish.deep_view());
        lemma_absorb_concat(start, seq!["completing"@], f_finish);
        let f_visible_output = <bool as Encoded>::fields(visible_output.deep_view());
        lemma_absorb_concat(start, seq!["completing"@] + f_finish, f_visible_output);
        let f_provider_error_kind = <Option<ProviderErrorKind> as Encoded>::fields(
            provider_error_kind.deep_view(),
        );
        lemma_absorb_concat(
            start,
            seq!["completing"@] + f_finish + f_visible_output,
            f_provider_error_kind,
        );
    }
}

fn encode_publishing_terminal(
    finish: &TurnFinish,
    visible_output: &bool,
    hasher: &mut FingerprintHasher,
)
    ensures
        final(hasher)@ == absorb_all(
            old(hasher)@,
            seq!["publishing_terminal"@]
                + <TurnFinish as Encoded>::fields(finish.deep_view())
                + <bool as Encoded>::fields(visible_output.deep_view()),
        ),
{
    let ghost start = hasher@;
    hasher.field("publishing_terminal");
    finish.encode(hasher);
    visible_output.encode(hasher);
    proof {
        lemma_absorb_one(start, "publishing_terminal"@);
        let f_finish = <TurnFinish as Encoded>::fields(finish.deep_view());
        lemma_absorb_concat(start, seq!["publishing_terminal"@], f_finish);
        let f_visible_output = <bool as Encoded>::fields(visible_output.deep_view());
        lemma_absorb_concat(start, seq!["publishing_terminal"@] + f_finish, f_visible_output);
    }
}

fn encode_terminal(
    finish: &TurnFinish,
    visible_output: &bool,
    hasher: &mut FingerprintHasher,
)
    ensures
        final(hasher)@ == absorb_all(
            old(hasher)@,
            seq!["terminal"@]
                + <TurnFinish as Encoded>::fields(finish.deep_view())
                + <bool as Encoded>::fields(visible_output.deep_view()),
        ),
{
    let ghost start = hasher@;
    hasher.field("terminal");
    finish.encode(hasher);
    visible_output.encode(hasher);
    proof {
        lemma_absorb_one(start, "terminal"@);
        let f_finish = <TurnFinish as Encoded>::fields(finish.deep_view());
        lemma_absorb_concat(start, seq!["terminal"@], f_finish);
        let f_visible_output = <bool as Encoded>::fields(visible_output.deep_view());
        lemma_absorb_concat(start, seq!["terminal"@] + f_finish, f_visible_output);
    }
}

fn encode_cache_operation_prepared(
    operation: &CacheOperationCheckpoint,
    hasher: &mut FingerprintHasher,
)
    ensures
        final(hasher)@ == absorb_all(
            old(hasher)@,
            seq!["cache_operation_prepared"@]
                + <CacheOperationCheckpoint as Encoded>::fields(operation.deep_view()),
        ),
{
    let ghost start = hasher@;
    hasher.field("cache_operation_prepared");
    operation.encode(hasher);
    proof {
        lemma_absorb_one(start, "cache_operation_prepared"@);
        let f_operation = <CacheOperationCheckpoint as Encoded>::fields(operation.deep_view());
        lemma_absorb_concat(start, seq!["cache_operation_prepared"@], f_operation);
    }
}

fn encode_cache_operation_started(
    operation: &CacheOperationCheckpoint,
    hasher: &mut FingerprintHasher,
)
    ensures
        final(hasher)@ == absorb_all(
            old(hasher)@,
            seq!["cache_operation_started"@]
                + <CacheOperationCheckpoint as Encoded>::fields(operation.deep_view()),
        ),
{
    let ghost start = hasher@;
    hasher.field("cache_operation_started");
    operation.encode(hasher);
    proof {
        lemma_absorb_one(start, "cache_operation_started"@);
        let f_operation = <CacheOperationCheckpoint as Encoded>::fields(operation.deep_view());
        lemma_absorb_concat(start, seq!["cache_operation_started"@], f_operation);
    }
}

fn encode_cache_operation_result_ready(
    operation: &CacheOperationCheckpoint,
    result: &CacheOperationResultCheckpoint,
    hasher: &mut FingerprintHasher,
)
    ensures
        final(hasher)@ == absorb_all(
            old(hasher)@,
            seq!["cache_operation_result_ready"@]
                + <CacheOperationCheckpoint as Encoded>::fields(operation.deep_view())
                + <CacheOperationResultCheckpoint as Encoded>::fields(result.deep_view()),
        ),
{
    let ghost start = hasher@;
    hasher.field("cache_operation_result_ready");
    operation.encode(hasher);
    result.encode(hasher);
    proof {
        lemma_absorb_one(start, "cache_operation_result_ready"@);
        let f_operation = <CacheOperationCheckpoint as Encoded>::fields(operation.deep_view());
        lemma_absorb_concat(start, seq!["cache_operation_result_ready"@], f_operation);
        let f_result = <CacheOperationResultCheckpoint as Encoded>::fields(result.deep_view());
        lemma_absorb_concat(start, seq!["cache_operation_result_ready"@] + f_operation, f_result);
    }
}

fn encode_cache_operation_terminal(
    operation: &CacheOperationCheckpoint,
    result: &CacheOperationResultCheckpoint,
    hasher: &mut FingerprintHasher,
)
    ensures
        final(hasher)@ == absorb_all(
            old(hasher)@,
            seq!["cache_operation_terminal"@]
                + <CacheOperationCheckpoint as Encoded>::fields(operation.deep_view())
                + <CacheOperationResultCheckpoint as Encoded>::fields(result.deep_view()),
        ),
{
    let ghost start = hasher@;
    hasher.field("cache_operation_terminal");
    operation.encode(hasher);
    result.encode(hasher);
    proof {
        lemma_absorb_one(start, "cache_operation_terminal"@);
        let f_operation = <CacheOperationCheckpoint as Encoded>::fields(operation.deep_view());
        lemma_absorb_concat(start, seq!["cache_operation_terminal"@], f_operation);
        let f_result = <CacheOperationResultCheckpoint as Encoded>::fields(result.deep_view());
        lemma_absorb_concat(start, seq!["cache_operation_terminal"@] + f_operation, f_result);
    }
}

/// One protected checkpoint of a direct turn.
#[derive(Debug, PartialEq, Eq)]
pub struct TurnCheckpoint {
    /// Protected checkpoint wire schema.
    pub schema_version: u32,
    /// Transition-table revision required to resume equivalently.
    pub transition_revision: u32,
    /// Session identity.
    pub session: SessionId,
    /// Turn identity.
    pub turn: TurnId,
    /// Monotonic state revision within this turn, starting at zero.
    pub state_revision: u64,
    /// Fingerprint binding the exact operation represented by `state`.
    pub operation_fingerprint: Fingerprint,
    /// Exact canonical-history index owned by the accepted input.
    pub active_history_start: usize,
    /// Exact attributed input for an internal turn.
    pub internal_input: Option<InternalTurnInput>,
    /// Whether committed provider output in this turn contains visible text.
    pub visible_output: bool,
    /// Current direct-machine state.
    pub state: TurnState,
    /// Exact canonical session state at this boundary.
    pub snapshot: SessionSnapshot,
    /// Absolute turn deadline retained across restart.
    pub deadline: Deadline,
    /// Link to checkpoint and observability progress.
    pub watermark: CheckpointWatermark,
    /// Host-clock timestamp of this write.
    pub updated: Timestamp,
}

/// What a [`TurnCheckpoint`] holds.
pub struct TurnCheckpointView {
    pub schema_version: u32,
    pub transition_revision: u32,
    pub session: Seq<char>,
    pub turn: Seq<char>,
    pub state_revision: u64,
    pub operation_fingerprint: Seq<char>,
    pub active_history_start: usize,
    pub internal_input: Option<InternalTurnInputView>,
    pub visible_output: bool,
    pub state: TurnStateView,
    pub snapshot: SessionSnapshotView,
    pub deadline: Option<Timestamp>,
    pub watermark: CheckpointWatermarkView,
    pub updated: Timestamp,
}

impl DeepView for TurnCheckpoint {
    type V = TurnCheckpointView;

    open spec fn deep_view(&self) -> TurnCheckpointView {
        TurnCheckpointView {
            schema_version: self.schema_version.deep_view(),
            transition_revision: self.transition_revision.deep_view(),
            session: self.session.deep_view(),
            turn: self.turn.deep_view(),
            state_revision: self.state_revision.deep_view(),
            operation_fingerprint: self.operation_fingerprint.deep_view(),
            active_history_start: self.active_history_start.deep_view(),
            internal_input: self.internal_input.deep_view(),
            visible_output: self.visible_output.deep_view(),
            state: self.state.deep_view(),
            snapshot: self.snapshot.deep_view(),
            deadline: self.deadline.deep_view(),
            watermark: self.watermark.deep_view(),
            updated: self.updated.deep_view(),
        }
    }
}

impl View for TurnCheckpoint {
    type V = TurnCheckpointView;

    open spec fn view(&self) -> TurnCheckpointView {
        self.deep_view()
    }
}

impl Record for TurnCheckpoint {
    fn same(&self, other: &Self) -> (r: bool) {
        self.schema_version.same(&other.schema_version)
            && self.transition_revision.same(&other.transition_revision)
            && self.session.same(&other.session)
            && self.turn.same(&other.turn)
            && self.state_revision.same(&other.state_revision)
            && self.operation_fingerprint.same(&other.operation_fingerprint)
            && self.active_history_start.same(&other.active_history_start)
            && self.internal_input.same(&other.internal_input)
            && self.visible_output.same(&other.visible_output)
            && self.state.same(&other.state)
            && self.snapshot.same(&other.snapshot)
            && self.deadline.same(&other.deadline)
            && self.watermark.same(&other.watermark)
            && self.updated.same(&other.updated)
    }

    fn copied(&self) -> (r: Self) {
        TurnCheckpoint {
            schema_version: self.schema_version.copied(),
            transition_revision: self.transition_revision.copied(),
            session: self.session.copied(),
            turn: self.turn.copied(),
            state_revision: self.state_revision.copied(),
            operation_fingerprint: self.operation_fingerprint.copied(),
            active_history_start: self.active_history_start.copied(),
            internal_input: self.internal_input.copied(),
            visible_output: self.visible_output.copied(),
            state: self.state.copied(),
            snapshot: self.snapshot.copied(),
            deadline: self.deadline.copied(),
            watermark: self.watermark.copied(),
            updated: self.updated.copied(),
        }
    }
}

impl Clone for TurnCheckpoint {
    fn clone(&self) -> (r: Self)
        ensures
            r@ == self@,
    {
        self.copied()
    }
}

} // verus!
