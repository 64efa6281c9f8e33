//! Provider-facing values.

use vstd::prelude::*;

use crate::collections::TextMap;
use crate::content::{Message, MessageView};
use crate::fingerprint::{group_absorb, lemma_concat_assoc, Encoded, FingerprintHasher};
use crate::order::Ordered;
use crate::record::Record;
use crate::text::{comes_before, lemma_text_order, text_before};

verus! {

/// Identifies a model.
#[derive(Debug, PartialEq, Eq, PartialOrd, Ord, Hash)]
pub struct ModelId {
    text: String,
}

impl DeepView for ModelId {
    type V = Seq<char>;

    closed spec fn deep_view(&self) -> Seq<char> {
        self.text@
    }
}

impl View for ModelId {
    type V = Seq<char>;

    open spec fn view(&self) -> Seq<char> {
        self.deep_view()
    }
}

impl Record for ModelId {
    fn same(&self, other: &Self) -> (r: bool) {
        self.text.same(&other.text)
    }

    fn copied(&self) -> (r: Self) {
        ModelId { text: self.text.copied() }
    }
}

impl Ordered for ModelId {
    open spec fn before(a: Seq<char>, b: Seq<char>) -> bool {
        text_before(a, b)
    }

    fn precedes(&self, other: &Self) -> (r: bool) {
        comes_before(self.text.as_str(), other.text.as_str())
    }

    proof fn lemma_order(a: Seq<char>, b: Seq<char>, c: Seq<char>) {
        lemma_text_order(a, b, c);
    }
}

impl Clone for ModelId {
    fn clone(&self) -> (r: Self)
        ensures
            r@ == self@,
    {
        self.copied()
    }
}

impl ModelId {
    /// Wraps the text.
    pub fn new(text: &str) -> (r: ModelId)
        ensures
            r@ == text@,
    {
        ModelId { text: text.to_owned() }
    }

    /// The wrapped text.
    pub fn as_str(&self) -> (r: &str)
        ensures
            r@ == self@,
    {
        self.text.as_str()
    }
}

impl Encoded for ModelId {
    open spec fn fields(view: Seq<char>) -> Seq<Seq<char>> {
        seq![view]
    }

    fn encode(&self, hasher: &mut FingerprintHasher) {
        broadcast use group_absorb;

        hasher.field(self.as_str());
    }

    proof fn lemma_decodable(a: Seq<char>, b: Seq<char>, x: Seq<Seq<char>>, y: Seq<Seq<char>>) {
        String::lemma_decodable(a, b, x, y);
    }
}

/// Why a provider attempt ended.
#[derive(Debug, Clone, Copy, PartialEq, Eq, Structural)]
pub enum FinishReason {
    /// The model finished.
    Stop,
    /// The model asked for tool calls.
    ToolCalls,
    /// The output budget was exhausted.
    Length,
    /// The provider withheld output.
    ContentFilter,
    /// The attempt was cancelled.
    Cancelled,
    /// The attempt failed.
    Error,
}

impl DeepView for FinishReason {
    type V = FinishReason;

    open spec fn deep_view(&self) -> FinishReason {
        *self
    }
}

impl Record for FinishReason {
    fn same(&self, other: &Self) -> (r: bool) {
        *self == *other
    }

    fn copied(&self) -> (r: Self) {
        *self
    }
}

impl Encoded for FinishReason {
    open spec fn fields(view: FinishReason) -> Seq<Seq<char>> {
        seq![
            match view {
                FinishReason::Stop => "stop"@,
                FinishReason::ToolCalls => "tool_calls"@,
                FinishReason::Length => "length"@,
                FinishReason::ContentFilter => "content_filter"@,
                FinishReason::Cancelled => "cancelled"@,
                FinishReason::Error => "error"@,
            },
        ]
    }

    fn encode(&self, hasher: &mut FingerprintHasher) {
        broadcast use group_absorb;

        hasher.field(
            match self {
                FinishReason::Stop => "stop",
                FinishReason::ToolCalls => "tool_calls",
                FinishReason::Length => "length",
                FinishReason::ContentFilter => "content_filter",
                FinishReason::Cancelled => "cancelled",
                FinishReason::Error => "error",
            },
        );
    }

    proof fn lemma_decodable(
        a: FinishReason,
        b: FinishReason,
        x: Seq<Seq<char>>,
        y: Seq<Seq<char>>,
    ) {
        reveal_strlit("stop");
        assert("stop"@.len() == 4);
        reveal_strlit("tool_calls");
        assert("tool_calls"@.len() == 10);
        reveal_strlit("length");
        assert("length"@.len() == 6);
        reveal_strlit("content_filter");
        assert("content_filter"@.len() == 14);
        reveal_strlit("cancelled");
        assert("cancelled"@.len() == 9);
        reveal_strlit("error");
        assert("error"@.len() == 5);
        String::lemma_decodable(Self::fields(a)[0], Self::fields(b)[0], x, y);
        assert(Self::fields(a)[0] == Self::fields(b)[0]);
    }
}

/// A coarse classification of a provider failure.
#[derive(Debug, Clone, Copy, PartialEq, Eq, Structural)]
pub enum ProviderErrorKind {
    /// The credential was refused.
    Authentication,
    /// A rate limit was hit.
    RateLimited,
    /// The provider is overloaded.
    Overloaded,
    /// The provider refused the request.
    InvalidRequest,
    /// The connection failed.
    Transport,
    /// Anything else.
    Other,
}

impl DeepView for ProviderErrorKind {
    type V = ProviderErrorKind;

    open spec fn deep_view(&self) -> ProviderErrorKind {
        *self
    }
}

impl Record for ProviderErrorKind {
    fn same(&self, other: &Self) -> (r: bool) {
        *self == *other
    }

    fn copied(&self) -> (r: Self) {
        *self
    }
}

impl Encoded for ProviderErrorKind {
    open spec fn fields(view: ProviderErrorKind) -> Seq<Seq<char>> {
        seq![
            match view {
                ProviderErrorKind::Authentication => "authentication"@,
                ProviderErrorKind::RateLimited => "rate_limited"@,
                ProviderErrorKind::Overloaded => "overloaded"@,
                ProviderErrorKind::InvalidRequest => "invalid_request"@,
                ProviderErrorKind::Transport => "transport"@,
                ProviderErrorKind::Other => "other"@,
            },
        ]
    }

    fn encode(&self, hasher: &mut FingerprintHasher) {
        broadcast use group_absorb;

        hasher.field(
            match self {
                ProviderErrorKind::Authentication => "authentication",
                ProviderErrorKind::RateLimited => "rate_limited",
                ProviderErrorKind::Overloaded => "overloaded",
                ProviderErrorKind::InvalidRequest => "invalid_request",
                ProviderErrorKind::Transport => "transport",
                ProviderErrorKind::Other => "other",
            },
        );
    }

    proof fn lemma_decodable(
        a: ProviderErrorKind,
        b: ProviderErrorKind,
        x: Seq<Seq<char>>,
        y: Seq<Seq<char>>,
    ) {
        reveal_strlit("authentication");
        assert("authentication"@.len() == 14);
        reveal_strlit("rate_limited");
        assert("rate_limited"@.len() == 12);
        reveal_strlit("overloaded");
        assert("overloaded"@.len() == 10);
        reveal_strlit("invalid_request");
        assert("invalid_request"@.len() == 15);
        reveal_strlit("transport");
        assert("transport"@.len() == 9);
        reveal_strlit("other");
        assert("other"@.len() == 5);
        String::lemma_decodable(Self::fields(a)[0], Self::fields(b)[0], x, y);
        assert(Self::fields(a)[0] == Self::fields(b)[0]);
    }
}

/// What a provider attempt is for.
#[derive(Debug, Clone, Copy, PartialEq, Eq, Structural)]
pub enum ProviderAttemptPurpose {
    /// An ordinary turn.
    Ordinary,
    /// Keeping a cached prefix alive.
    CacheMaintenance,
    /// Handing a cached prefix over.
    CacheHandoff,
    /// Managing an explicit cache resource.
    CacheResource,
}

impl DeepView for ProviderAttemptPurpose {
    type V = ProviderAttemptPurpose;

    open spec fn deep_view(&self) -> ProviderAttemptPurpose {
        *self
    }
}

impl Record for ProviderAttemptPurpose {
    fn same(&self, other: &Self) -> (r: bool) {
        *self == *other
    }

    fn copied(&self) -> (r: Self) {
        *self
    }
}

impl Encoded for ProviderAttemptPurpose {
    open spec fn fields(view: ProviderAttemptPurpose) -> Seq<Seq<char>> {
        seq![
            match view {
                ProviderAttemptPurpose::Ordinary => "ordinary"@,
                ProviderAttemptPurpose::CacheMaintenance => "cache_maintenance"@,
                ProviderAttemptPurpose::CacheHandoff => "cache_handoff"@,
                ProviderAttemptPurpose::CacheResource => "cache_resource"@,
            },
        ]
    }

    fn encode(&self, hasher: &mut FingerprintHasher) {
        broadcast use group_absorb;

        hasher.field(
            match self {
                ProviderAttemptPurpose::Ordinary => "ordinary",
                ProviderAttemptPurpose::CacheMaintenance => "cache_maintenance",
                ProviderAttemptPurpose::CacheHandoff => "cache_handoff",
                ProviderAttemptPurpose::CacheResource => "cache_resource",
            },
        );
    }

    proof fn lemma_decodable(
        a: ProviderAttemptPurpose,
        b: ProviderAttemptPurpose,
        x: Seq<Seq<char>>,
        y: Seq<Seq<char>>,
    ) {
        reveal_strlit("ordinary");
        assert("ordinary"@.len() == 8);
        reveal_strlit("cache_maintenance");
        assert("cache_maintenance"@.len() == 17);
        reveal_strlit("cache_handoff");
        assert("cache_handoff"@.len() == 13);
        reveal_strlit("cache_resource");
        assert("cache_resource"@.len() == 14);
        String::lemma_decodable(Self::fields(a)[0], Self::fields(b)[0], x, y);
        assert(Self::fields(a)[0] == Self::fields(b)[0]);
    }
}

/// What a model can do.
#[derive(Debug, PartialEq, Eq)]
pub struct Capabilities {
    /// It streams its output.
    pub streaming: bool,
    /// It calls tools.
    pub tools: bool,
    /// It exposes reasoning.
    pub reasoning: bool,
    /// It reuses cached prompt prefixes.
    pub prompt_cache: bool,
}

/// What a [`Capabilities`] holds.
pub struct CapabilitiesView {
    pub streaming: bool,
    pub tools: bool,
    pub reasoning: bool,
    pub prompt_cache: bool,
}

impl DeepView for Capabilities {
    type V = CapabilitiesView;

    open spec fn deep_view(&self) -> CapabilitiesView {
        CapabilitiesView {
            streaming: self.streaming.deep_view(),
            tools: self.tools.deep_view(),
            reasoning: self.reasoning.deep_view(),
            prompt_cache: self.prompt_cache.deep_view(),
        }
    }
}

impl View for Capabilities {
    type V = CapabilitiesView;

    open spec fn view(&self) -> CapabilitiesView {
        self.deep_view()
    }
}

impl Record for Capabilities {
    fn same(&self, other: &Self) -> (r: bool) {
        self.streaming.same(&other.streaming)
            && self.tools.same(&other.tools)
            && self.reasoning.same(&other.reasoning)
            && self.prompt_cache.same(&other.prompt_cache)
    }

    fn copied(&self) -> (r: Self) {
        Capabilities {
            streaming: self.streaming.copied(),
            tools: self.tools.copied(),
            reasoning: self.reasoning.copied(),
            prompt_cache: self.prompt_cache.copied(),
        }
    }
}

impl Ordered for Capabilities {
    open spec fn before(a: CapabilitiesView, b: CapabilitiesView) -> bool {
        if a.streaming != b.streaming {
            bool::before(a.streaming, b.streaming)
        } else if a.tools != b.tools {
            bool::before(a.tools, b.tools)
        } else if a.reasoning != b.reasoning {
            bool::before(a.reasoning, b.reasoning)
        } else {
            bool::before(a.prompt_cache, b.prompt_cache)
        }
    }

    fn precedes(&self, other: &Self) -> (r: bool) {
        if !self.streaming.same(&other.streaming) {
            self.streaming.precedes(&other.streaming)
        } else if !self.tools.same(&other.tools) {
            self.tools.precedes(&other.tools)
        } else if !self.reasoning.same(&other.reasoning) {
            self.reasoning.precedes(&other.reasoning)
        } else {
            self.prompt_cache.precedes(&other.prompt_cache)
        }
    }

    proof fn lemma_order(a: CapabilitiesView, b: CapabilitiesView, c: CapabilitiesView) {
        bool::lemma_order(a.streaming, b.streaming, c.streaming);
        bool::lemma_order(a.tools, b.tools, c.tools);
        bool::lemma_order(a.reasoning, b.reasoning, c.reasoning);
        bool::lemma_order(a.prompt_cache, b.prompt_cache, c.prompt_cache);
    }
}

impl Clone for Capabilities {
    fn clone(&self) -> (r: Self)
        ensures
            r@ == self@,
    {
        self.copied()
    }
}

/// The capabilities of a model of which nothing is known but that it streams.
pub open spec fn basic_capabilities() -> CapabilitiesView {
    CapabilitiesView { streaming: true, tools: false, reasoning: false, prompt_cache: false }
}

impl Capabilities {
    /// Streaming, and nothing else.
    pub fn basic_streaming() -> (r: Capabilities)
        ensures
            r@ == basic_capabilities(),
    {
        Capabilities { streaming: true, tools: false, reasoning: false, prompt_cache: false }
    }
}

/// A fully planned provider request.
#[derive(Debug, PartialEq, Eq)]
pub struct ProviderRequest {
    /// The target model.
    pub model: ModelId,
    /// The planned messages.
    pub history: Vec<Message>,
}

/// What a [`ProviderRequest`] holds.
pub struct ProviderRequestView {
    pub model: Seq<char>,
    pub history: Seq<MessageView>,
}

impl DeepView for ProviderRequest {
    type V = ProviderRequestView;

    open spec fn deep_view(&self) -> ProviderRequestView {
        ProviderRequestView {
            model: self.model.deep_view(),
            history: self.history.deep_view(),
        }
    }
}

impl View for ProviderRequest {
    type V = ProviderRequestView;

    open spec fn view(&self) -> ProviderRequestView {
        self.deep_view()
    }
}

impl Record for ProviderRequest {
    fn same(&self, other: &Self) -> (r: bool) {
        self.model.same(&other.model)
            && self.history.same(&other.history)
    }

    fn copied(&self) -> (r: Self) {
        ProviderRequest {
            model: self.model.copied(),
            history: self.history.copied(),
        }
    }
}

impl Clone for ProviderRequest {
    fn clone(&self) -> (r: Self)
        ensures
            r@ == self@,
    {
        self.copied()
    }
}

impl Encoded for ProviderRequest {
    open spec fn fields(view: ProviderRequestView) -> Seq<Seq<char>> {
        <ModelId as Encoded>::fields(view.model)
            + <Vec<Message> as Encoded>::fields(view.history)
    }

    fn encode(&self, hasher: &mut FingerprintHasher) {
        broadcast use group_absorb;

        self.model.encode(hasher);
        self.history.encode(hasher);
    }

    proof fn lemma_decodable(
        a: ProviderRequestView,
        b: ProviderRequestView,
        x: Seq<Seq<char>>,
        y: Seq<Seq<char>>,
    ) {
        broadcast use lemma_concat_assoc;

        let x1 = Vec::<Message>::fields(a.history) + x;
        let y1 = Vec::<Message>::fields(b.history) + y;
        ModelId::lemma_decodable(a.model, b.model, x1, y1);
        Vec::<Message>::lemma_decodable(a.history, b.history, x, y);
    }
}

impl ProviderRequest {
    /// A request for `model` over `history`.
    pub fn new(model: ModelId, history: Vec<Message>) -> (r: ProviderRequest)
        ensures
            r@ == (ProviderRequestView { model: model@, history: history.deep_view() }),
    {
        ProviderRequest { model, history }
    }
}

/// An exact, opaque cache identity.
#[derive(Debug, PartialEq, Eq)]
pub struct CacheIdentity {
    /// The identity.
    pub digest: String,
    /// What the component that built the value found wrong with it, if anything.
    pub defect: Option<String>,
}

/// What a [`CacheIdentity`] holds.
pub struct CacheIdentityView {
    pub digest: Seq<char>,
    pub defect: Option<Seq<char>>,
}

impl DeepView for CacheIdentity {
    type V = CacheIdentityView;

    open spec fn deep_view(&self) -> CacheIdentityView {
        CacheIdentityView {
            digest: self.digest.deep_view(),
            defect: self.defect.deep_view(),
        }
    }
}

impl View for CacheIdentity {
    type V = CacheIdentityView;

    open spec fn view(&self) -> CacheIdentityView {
        self.deep_view()
    }
}

impl Record for CacheIdentity {
    fn same(&self, other: &Self) -> (r: bool) {
        self.digest.same(&other.digest)
            && self.defect.same(&other.defect)
    }

    fn copied(&self) -> (r: Self) {
        CacheIdentity {
            digest: self.digest.copied(),
            defect: self.defect.copied(),
        }
    }
}

impl Clone for CacheIdentity {
    fn clone(&self) -> (r: Self)
        ensures
            r@ == self@,
    {
        self.copied()
    }
}

impl Encoded for CacheIdentity {
    open spec fn fields(view: CacheIdentityView) -> Seq<Seq<char>> {
        <String as Encoded>::fields(view.digest)
            + <Option<String> as Encoded>::fields(view.defect)
    }

    fn encode(&self, hasher: &mut FingerprintHasher) {
        broadcast use group_absorb;

        self.digest.encode(hasher);
        self.defect.encode(hasher);
    }

    proof fn lemma_decodable(
        a: CacheIdentityView,
        b: CacheIdentityView,
        x: Seq<Seq<char>>,
        y: Seq<Seq<char>>,
    ) {
        broadcast use lemma_concat_assoc;

        let x1 = Option::<String>::fields(a.defect) + x;
        let y1 = Option::<String>::fields(b.defect) + y;
        String::lemma_decodable(a.digest, b.digest, x1, y1);
        Option::<String>::lemma_decodable(a.defect, b.defect, x, y);
    }
}

impl CacheIdentityView {
    /// What validation of the identity gives.
    pub open spec fn validity(self) -> Result<(), Seq<char>> {
        match self.defect {
            Some(text) => Err(text),
            None => Ok(()),
        }
    }
}

impl CacheIdentity {
    /// Reports the defect of the identity, if it has one.
    pub fn validate(&self) -> (r: Result<(), String>)
        ensures
            match r {
                Ok(()) => self@.validity() == Ok::<(), Seq<char>>(()),
                Err(text) => self@.validity() == Err::<(), Seq<char>>(text@),
            },
    {
        match &self.defect {
            Some(text) => Err(text.copied()),
            None => Ok(()),
        }
    }
}

/// Normalized provider evidence about a cached prefix.
#[derive(Debug, PartialEq, Eq)]
pub struct CacheAvailabilityEvidence {
    /// The identity that it is about.
    pub identity: CacheIdentity,
    /// Tokens read from the cache, if reported.
    pub read_tokens: Option<u64>,
    /// Tokens written to the cache, if reported.
    pub write_tokens: Option<u64>,
    /// What the component that built the value found wrong with it, if anything.
    pub defect: Option<String>,
}

/// What a [`CacheAvailabilityEvidence`] holds.
pub struct CacheAvailabilityEvidenceView {
    pub identity: CacheIdentityView,
    pub read_tokens: Option<u64>,
    pub write_tokens: Option<u64>,
    pub defect: Option<Seq<char>>,
}

impl DeepView for CacheAvailabilityEvidence {
    type V = CacheAvailabilityEvidenceView;

    open spec fn deep_view(&self) -> CacheAvailabilityEvidenceView {
        CacheAvailabilityEvidenceView {
            identity: self.identity.deep_view(),
            read_tokens: self.read_tokens.deep_view(),
            write_tokens: self.write_tokens.deep_view(),
            defect: self.defect.deep_view(),
        }
    }
}

impl View for CacheAvailabilityEvidence {
    type V = CacheAvailabilityEvidenceView;

    open spec fn view(&self) -> CacheAvailabilityEvidenceView {
        self.deep_view()
    }
}

impl Record for CacheAvailabilityEvidence {
    fn same(&self, other: &Self) -> (r: bool) {
        self.identity.same(&other.identity)
            && self.read_tokens.same(&other.read_tokens)
            && self.write_tokens.same(&other.write_tokens)
            && self.defect.same(&other.defect)
    }

    fn copied(&self) -> (r: Self) {
        CacheAvailabilityEvidence {
            identity: self.identity.copied(),
            read_tokens: self.read_tokens.copied(),
            write_tokens: self.write_tokens.copied(),
            defect: self.defect.copied(),
        }
    }
}

impl Clone for CacheAvailabilityEvidence {
    fn clone(&self) -> (r: Self)
        ensures
            r@ == self@,
    {
        self.copied()
    }
}

impl Encoded for CacheAvailabilityEvidence {
    open spec fn fields(view: CacheAvailabilityEvidenceView) -> Seq<Seq<char>> {
        <CacheIdentity as Encoded>::fields(view.identity)
            + <Option<u64> as Encoded>::fields(view.read_tokens)
            + <Option<u64> as Encoded>::fields(view.write_tokens)
            + <Option<String> as Encoded>::fields(view.defect)
    }

    fn encode(&self, hasher: &mut FingerprintHasher) {
        broadcast use group_absorb;

        self.identity.encode(hasher);
        self.read_tokens.encode(hasher);
        self.write_tokens.encode(hasher);
        self.defect.encode(hasher);
    }

    proof fn lemma_decodable(
        a: CacheAvailabilityEvidenceView,
        b: CacheAvailabilityEvidenceView,
        x: Seq<Seq<char>>,
        y: Seq<Seq<char>>,
    ) {
        broadcast use lemma_concat_assoc;

        let x3 = Option::<String>::fields(a.defect) + x;
        let y3 = Option::<String>::fields(b.defect) + y;
        let x2 = Option::<u64>::fields(a.write_tokens) + x3;
        let y2 = Option::<u64>::fields(b.write_tokens) + y3;
        let x1 = Option::<u64>::fields(a.read_tokens) + x2;
        let y1 = Option::<u64>::fields(b.read_tokens) + y2;
        CacheIdentity::lemma_decodable(a.identity, b.identity, x1, y1);
        Option::<u64>::lemma_decodable(a.read_tokens, b.read_tokens, x2, y2);
        Option::<u64>::lemma_decodable(a.write_tokens, b.write_tokens, x3, y3);
        Option::<String>::lemma_decodable(a.defect, b.defect, x, y);
    }
}

impl CacheAvailabilityEvidenceView {
    /// What validation of the evidence gives.
    pub open spec fn validity(self) -> Result<(), Seq<char>> {
        match self.defect {
            Some(text) => Err(text),
            None => Ok(()),
        }
    }
}

impl CacheAvailabilityEvidence {
    /// Reports the defect of the evidence, if it has one.
    pub fn validate(&self) -> (r: Result<(), String>)
        ensures
            match r {
                Ok(()) => self@.validity() == Ok::<(), Seq<char>>(()),
                Err(text) => self@.validity() == Err::<(), Seq<char>>(text@),
            },
    {
        match &self.defect {
            Some(text) => Err(text.copied()),
            None => Ok(()),
        }
    }
}

/// A normalized report of a credential's limits.
#[derive(Debug, PartialEq, Eq)]
pub struct RateLimitSnapshot {
    /// What remains of each reported window.
    pub windows: TextMap<u64>,
}

/// What a [`RateLimitSnapshot`] holds.
pub struct RateLimitSnapshotView {
    pub windows: Seq<(Seq<char>, u64)>,
}

impl DeepView for RateLimitSnapshot {
    type V = RateLimitSnapshotView;

    open spec fn deep_view(&self) -> RateLimitSnapshotView {
        RateLimitSnapshotView {
            windows: self.windows.deep_view(),
        }
    }
}

impl View for RateLimitSnapshot {
    type V = RateLimitSnapshotView;

    open spec fn view(&self) -> RateLimitSnapshotView {
        self.deep_view()
    }
}

impl Record for RateLimitSnapshot {
    fn same(&self, other: &Self) -> (r: bool) {
        self.windows.same(&other.windows)
    }

    fn copied(&self) -> (r: Self) {
        RateLimitSnapshot {
            windows: self.windows.copied(),
        }
    }
}

impl Clone for RateLimitSnapshot {
    fn clone(&self) -> (r: Self)
        ensures
            r@ == self@,
    {
        self.copied()
    }
}

} // verus!
