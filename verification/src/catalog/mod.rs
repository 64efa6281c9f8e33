//! The layered model catalog: what the runtime knows about a model.
//!
//! A [`ResolvedModelProfile`] is the frozen answer to what a turn may send, and
//! how much of it. It is resolved once per execution phase and never changes
//! underneath a request.
//!
//! Resolution is local-first and layered. Each [`ModelCatalogSource`] contributes
//! a partial [`ModelRecord`]; the resolver merges them field by field in
//! [`CatalogSource`] precedence order and records a [`FieldProvenance`] for every
//! material field. Conflicts at equal precedence fail, and unknown models fail
//! closed.

use vstd::prelude::*;

use vstd::string::StringExecFns;

use crate::clock::Timestamp;
use crate::fingerprint::{
    absorb_all, fingerprint_of, group_absorb, lemma_absorb_concat, Fingerprint, FingerprintHasher,
};
use crate::order::Ordered;
use crate::provider::{basic_capabilities, Capabilities, CapabilitiesView, ModelId};
use crate::record::Record;
use crate::security::{RegistryId, RegistryIdView, RegistryRevision};
use crate::text::{decimal, decimal_text};

pub mod calls;
pub mod laws;
pub mod layered;
pub mod profiles;

verus! {

/// A kind of content a model accepts or produces.
#[derive(Debug, Clone, Copy, PartialEq, Eq, Structural)]
pub enum Modality {
    /// Plain text.
    Text,
    /// Still images.
    Image,
    /// Audio.
    Audio,
    /// Video.
    Video,
    /// Documents such as PDFs.
    Document,
}

impl DeepView for Modality {
    type V = Modality;

    open spec fn deep_view(&self) -> Modality {
        *self
    }
}

impl Record for Modality {
    fn same(&self, other: &Self) -> (r: bool) {
        *self == *other
    }

    fn copied(&self) -> (r: Self) {
        *self
    }
}

impl Modality {
    /// The position among the kinds of content.
    pub open spec fn position(self) -> u8 {
        match self {
            Modality::Text => 0,
            Modality::Image => 1,
            Modality::Audio => 2,
            Modality::Video => 3,
            Modality::Document => 4,
        }
    }

    fn index(self) -> (r: u8)
        ensures
            r == self.position(),
    {
        match self {
            Modality::Text => 0,
            Modality::Image => 1,
            Modality::Audio => 2,
            Modality::Video => 3,
            Modality::Document => 4,
        }
    }
}

impl Ordered for Modality {
    open spec fn before(a: Modality, b: Modality) -> bool {
        a.position() < b.position()
    }

    fn precedes(&self, other: &Self) -> (r: bool) {
        self.index() < other.index()
    }

    proof fn lemma_order(a: Modality, b: Modality, c: Modality) {
    }
}

impl Modality {
    /// The stable slug.
    pub open spec fn slug(self) -> Seq<char> {
        match self {
            Modality::Text => "text"@,
            Modality::Image => "image"@,
            Modality::Audio => "audio"@,
            Modality::Video => "video"@,
            Modality::Document => "document"@,
        }
    }

    /// The stable slug.
    pub fn as_str(self) -> (r: &'static str)
        ensures
            r@ == self.slug(),
    {
        match self {
            Modality::Text => "text",
            Modality::Image => "image",
            Modality::Audio => "audio",
            Modality::Video => "video",
            Modality::Document => "document",
        }
    }
}

/// The token limits of a model.
#[derive(Debug, Clone, Copy, PartialEq, Eq, Structural)]
pub struct ModelLimits {
    /// The total context window.
    pub context_tokens: u32,
    /// The most tokens a request may hold.
    pub max_input_tokens: u32,
    /// The most tokens a response may hold.
    pub max_output_tokens: u32,
}

impl DeepView for ModelLimits {
    type V = ModelLimits;

    open spec fn deep_view(&self) -> ModelLimits {
        *self
    }
}

impl Record for ModelLimits {
    fn same(&self, other: &Self) -> (r: bool) {
        *self == *other
    }

    fn copied(&self) -> (r: Self) {
        *self
    }
}

impl ModelLimits {
    /// Limits with every bound given.
    pub fn new(
        context_tokens: u32,
        max_input_tokens: u32,
        max_output_tokens: u32,
    ) -> (r: ModelLimits)
        ensures
            r == (ModelLimits { context_tokens, max_input_tokens, max_output_tokens }),
    {
        ModelLimits { context_tokens, max_input_tokens, max_output_tokens }
    }

    /// The tokens left for input once `reserve` tokens are held back.
    pub open spec fn budget(self, reserve: u32) -> int {
        if self.max_input_tokens + reserve <= self.context_tokens {
            self.max_input_tokens as int
        } else if reserve <= self.context_tokens {
            self.context_tokens - reserve
        } else {
            0
        }
    }

    /// The tokens left for input once `reserve` tokens of the context window
    /// are held back for output. The declared input limit still holds where it
    /// is the tighter bound, and a reserve larger than the window leaves
    /// nothing.
    pub fn input_budget(&self, reserve: u32) -> (r: u32)
        ensures
            r == self.budget(reserve),
    {
        let left: u32 = self.context_tokens.saturating_sub(reserve);
        if self.max_input_tokens <= left {
            self.max_input_tokens
        } else {
            left
        }
    }
}

/// The layer a source contributes to, lowest precedence first.
#[derive(Debug, Clone, Copy, PartialEq, Eq, Structural)]
pub enum CatalogSource {
    /// A refresh from a remote catalog.
    RemoteRefresh,
    /// A validated cache of remote records.
    CachedRemote,
    /// Known-good metadata shipped with the runtime.
    Embedded,
    /// A provider adapter's own configuration.
    ProviderLocal,
    /// An explicit host or session override.
    Explicit,
}

impl DeepView for CatalogSource {
    type V = CatalogSource;

    open spec fn deep_view(&self) -> CatalogSource {
        *self
    }
}

impl Record for CatalogSource {
    fn same(&self, other: &Self) -> (r: bool) {
        *self == *other
    }

    fn copied(&self) -> (r: Self) {
        *self
    }
}

impl CatalogSource {
    /// The stable slug.
    pub open spec fn slug(self) -> Seq<char> {
        match self {
            CatalogSource::RemoteRefresh => "remote_refresh"@,
            CatalogSource::CachedRemote => "cached_remote"@,
            CatalogSource::Embedded => "embedded"@,
            CatalogSource::ProviderLocal => "provider_local"@,
            CatalogSource::Explicit => "explicit"@,
        }
    }

    /// The stable slug.
    pub fn as_str(self) -> (r: &'static str)
        ensures
            r@ == self.slug(),
    {
        match self {
            CatalogSource::RemoteRefresh => "remote_refresh",
            CatalogSource::CachedRemote => "cached_remote",
            CatalogSource::Embedded => "embedded",
            CatalogSource::ProviderLocal => "provider_local",
            CatalogSource::Explicit => "explicit",
        }
    }
}

impl CatalogSource {
    /// How strongly the layer counts.
    pub open spec fn rank(self) -> u8 {
        match self {
            CatalogSource::RemoteRefresh => 0,
            CatalogSource::CachedRemote => 1,
            CatalogSource::Embedded => 2,
            CatalogSource::ProviderLocal => 3,
            CatalogSource::Explicit => 4,
        }
    }

    /// The precedence of the layer: a higher one wins.
    pub fn precedence(self) -> (r: u8)
        ensures
            r == self.rank(),
    {
        match self {
            CatalogSource::RemoteRefresh => 0,
            CatalogSource::CachedRemote => 1,
            CatalogSource::Embedded => 2,
            CatalogSource::ProviderLocal => 3,
            CatalogSource::Explicit => 4,
        }
    }
}

/// How far a resolved value can be relied on.
#[derive(Debug, Clone, Copy, PartialEq, Eq, Structural)]
pub enum FieldConfidence {
    /// A source declared it.
    Authoritative,
    /// It was derived from something that a source declared.
    Inferred,
    /// Nothing declared it: a conservative stand-in.
    Fallback,
}

impl DeepView for FieldConfidence {
    type V = FieldConfidence;

    open spec fn deep_view(&self) -> FieldConfidence {
        *self
    }
}

impl Record for FieldConfidence {
    fn same(&self, other: &Self) -> (r: bool) {
        *self == *other
    }

    fn copied(&self) -> (r: Self) {
        *self
    }
}

/// A material field of a resolved profile.
#[derive(Debug, Clone, Copy, PartialEq, Eq, Structural)]
pub enum ProfileField {
    /// The context window.
    ContextTokens,
    /// The input limit.
    MaxInputTokens,
    /// The output limit.
    MaxOutputTokens,
    /// Accepted content.
    InputModalities,
    /// Produced content.
    OutputModalities,
    /// Capabilities.
    Capabilities,
    /// The tokenizer revision.
    Tokenizer,
    /// The request-adapter revision.
    RequestAdapter,
    /// The cache-policy revision.
    CachePolicy,
}

impl DeepView for ProfileField {
    type V = ProfileField;

    open spec fn deep_view(&self) -> ProfileField {
        *self
    }
}

impl Record for ProfileField {
    fn same(&self, other: &Self) -> (r: bool) {
        *self == *other
    }

    fn copied(&self) -> (r: Self) {
        *self
    }
}

impl ProfileField {
    /// The stable slug.
    pub open spec fn slug(self) -> Seq<char> {
        match self {
            ProfileField::ContextTokens => "context_tokens"@,
            ProfileField::MaxInputTokens => "max_input_tokens"@,
            ProfileField::MaxOutputTokens => "max_output_tokens"@,
            ProfileField::InputModalities => "input_modalities"@,
            ProfileField::OutputModalities => "output_modalities"@,
            ProfileField::Capabilities => "capabilities"@,
            ProfileField::Tokenizer => "tokenizer"@,
            ProfileField::RequestAdapter => "request_adapter"@,
            ProfileField::CachePolicy => "cache_policy"@,
        }
    }

    /// The stable slug.
    pub fn as_str(self) -> (r: &'static str)
        ensures
            r@ == self.slug(),
    {
        match self {
            ProfileField::ContextTokens => "context_tokens",
            ProfileField::MaxInputTokens => "max_input_tokens",
            ProfileField::MaxOutputTokens => "max_output_tokens",
            ProfileField::InputModalities => "input_modalities",
            ProfileField::OutputModalities => "output_modalities",
            ProfileField::Capabilities => "capabilities",
            ProfileField::Tokenizer => "tokenizer",
            ProfileField::RequestAdapter => "request_adapter",
            ProfileField::CachePolicy => "cache_policy",
        }
    }
}

impl ProfileField {
    /// The position of the field among the fields.
    pub open spec fn position(self) -> int {
        match self {
            ProfileField::ContextTokens => 0,
            ProfileField::MaxInputTokens => 1,
            ProfileField::MaxOutputTokens => 2,
            ProfileField::InputModalities => 3,
            ProfileField::OutputModalities => 4,
            ProfileField::Capabilities => 5,
            ProfileField::Tokenizer => 6,
            ProfileField::RequestAdapter => 7,
            ProfileField::CachePolicy => 8,
        }
    }

    fn index(self) -> (r: usize)
        ensures
            r == self.position(),
    {
        match self {
            ProfileField::ContextTokens => 0,
            ProfileField::MaxInputTokens => 1,
            ProfileField::MaxOutputTokens => 2,
            ProfileField::InputModalities => 3,
            ProfileField::OutputModalities => 4,
            ProfileField::Capabilities => 5,
            ProfileField::Tokenizer => 6,
            ProfileField::RequestAdapter => 7,
            ProfileField::CachePolicy => 8,
        }
    }
}

/// Where a resolved value came from.
#[derive(Debug, PartialEq, Eq)]
pub struct FieldProvenance {
    /// The layer that declared it.
    pub source: CatalogSource,
    /// The revision of the record that declared it, if the record has one.
    pub source_revision: Option<String>,
    /// When the record was retrieved, if that is known.
    pub retrieved: Option<Timestamp>,
    /// How far the value can be relied on.
    pub confidence: FieldConfidence,
}

/// What a [`FieldProvenance`] holds.
pub struct FieldProvenanceView {
    pub source: CatalogSource,
    pub source_revision: Option<Seq<char>>,
    pub retrieved: Option<Timestamp>,
    pub confidence: FieldConfidence,
}

impl DeepView for FieldProvenance {
    type V = FieldProvenanceView;

    open spec fn deep_view(&self) -> FieldProvenanceView {
        FieldProvenanceView {
            source: self.source.deep_view(),
            source_revision: self.source_revision.deep_view(),
            retrieved: self.retrieved.deep_view(),
            confidence: self.confidence.deep_view(),
        }
    }
}

impl View for FieldProvenance {
    type V = FieldProvenanceView;

    open spec fn view(&self) -> FieldProvenanceView {
        self.deep_view()
    }
}

impl Record for FieldProvenance {
    fn same(&self, other: &Self) -> (r: bool) {
        self.source.same(&other.source)
            && self.source_revision.same(&other.source_revision)
            && self.retrieved.same(&other.retrieved)
            && self.confidence.same(&other.confidence)
    }

    fn copied(&self) -> (r: Self) {
        FieldProvenance {
            source: self.source.copied(),
            source_revision: self.source_revision.copied(),
            retrieved: self.retrieved.copied(),
            confidence: self.confidence.copied(),
        }
    }
}

impl Clone for FieldProvenance {
    fn clone(&self) -> (r: Self)
        ensures
            r@ == self@,
    {
        self.copied()
    }
}

/// Provenance of a value that `source` declared.
pub open spec fn declared_by(source: CatalogSource) -> FieldProvenanceView {
    FieldProvenanceView {
        source,
        source_revision: None,
        retrieved: None,
        confidence: FieldConfidence::Authoritative,
    }
}

impl FieldProvenance {
    /// Provenance of a value that `source` declared.
    pub fn authoritative(source: CatalogSource) -> (r: FieldProvenance)
        ensures
            r@ == declared_by(source),
    {
        FieldProvenance {
            source,
            source_revision: None,
            retrieved: None,
            confidence: FieldConfidence::Authoritative,
        }
    }

    /// Adds the revision of the record.
    pub fn with_revision(self, revision: &str) -> (r: FieldProvenance)
        ensures
            r@ == (FieldProvenanceView { source_revision: Some(revision@), ..self@ }),
    {
        let mut r = self;
        r.source_revision = Some(revision.to_owned());
        r
    }

    /// Adds when the record was retrieved.
    pub fn with_retrieved(self, retrieved: Timestamp) -> (r: FieldProvenance)
        ensures
            r@ == (FieldProvenanceView { retrieved: Some(retrieved), ..self@ }),
    {
        let mut r = self;
        r.retrieved = Some(retrieved);
        r
    }

    /// Changes the confidence.
    pub fn with_confidence(self, confidence: FieldConfidence) -> (r: FieldProvenance)
        ensures
            r@ == (FieldProvenanceView { confidence, ..self@ }),
    {
        let mut r = self;
        r.confidence = confidence;
        r
    }
}

/// A component that owns sizing or cache semantics, at a revision.
#[derive(Debug, PartialEq, Eq)]
pub struct ComponentRef {
    /// The component.
    pub id: RegistryId,
    /// Its revision.
    pub revision: RegistryRevision,
}

/// What a [`ComponentRef`] holds.
pub struct ComponentRefView {
    pub id: RegistryIdView,
    pub revision: Seq<char>,
}

impl DeepView for ComponentRef {
    type V = ComponentRefView;

    open spec fn deep_view(&self) -> ComponentRefView {
        ComponentRefView {
            id: self.id.deep_view(),
            revision: self.revision.deep_view(),
        }
    }
}

impl View for ComponentRef {
    type V = ComponentRefView;

    open spec fn view(&self) -> ComponentRefView {
        self.deep_view()
    }
}

impl Record for ComponentRef {
    fn same(&self, other: &Self) -> (r: bool) {
        self.id.same(&other.id)
            && self.revision.same(&other.revision)
    }

    fn copied(&self) -> (r: Self) {
        ComponentRef {
            id: self.id.copied(),
            revision: self.revision.copied(),
        }
    }
}

impl Ordered for ComponentRef {
    open spec fn before(a: ComponentRefView, b: ComponentRefView) -> bool {
        if a.id != b.id {
            RegistryId::before(a.id, b.id)
        } else {
            RegistryRevision::before(a.revision, b.revision)
        }
    }

    fn precedes(&self, other: &Self) -> (r: bool) {
        if !self.id.same(&other.id) {
            self.id.precedes(&other.id)
        } else {
            self.revision.precedes(&other.revision)
        }
    }

    proof fn lemma_order(a: ComponentRefView, b: ComponentRefView, c: ComponentRefView) {
        RegistryId::lemma_order(a.id, b.id, c.id);
        RegistryRevision::lemma_order(a.revision, b.revision, c.revision);
    }
}

impl Clone for ComponentRef {
    fn clone(&self) -> (r: Self)
        ensures
            r@ == self@,
    {
        self.copied()
    }
}

/// The canonical fields of a component: its qualified id and its revision.
pub open spec fn component_fields(component: ComponentRefView) -> Seq<Seq<char>> {
    seq![component.id.domain + ":"@ + component.id.name, component.revision]
}

impl ComponentRef {
    /// A component at a revision.
    pub fn new(id: RegistryId, revision: RegistryRevision) -> (r: ComponentRef)
        ensures
            r@ == (ComponentRefView { id: id@, revision: revision@ }),
    {
        ComponentRef { id, revision }
    }

    /// Absorbs the component into `hasher`.
    pub fn fingerprint_into(&self, hasher: &mut FingerprintHasher)
        ensures
            final(hasher)@ == absorb_all(old(hasher)@, component_fields(self@)),
    {
        hasher.pair(self.id.qualified().as_str(), self.revision.as_str());
    }
}

/// What one source declares about a model. Anything may be left open.
#[derive(Debug, PartialEq, Eq)]
pub struct ModelRecord {
    /// The canonical model id, once a table declares the record for a model.
    pub model: Option<ModelId>,
    /// Other names of the model.
    pub aliases: Vec<String>,
    /// The context window.
    pub context_tokens: Option<u32>,
    /// The input limit.
    pub max_input_tokens: Option<u32>,
    /// The output limit.
    pub max_output_tokens: Option<u32>,
    /// Accepted content.
    pub input_modalities: Option<Vec<Modality>>,
    /// Produced content.
    pub output_modalities: Option<Vec<Modality>>,
    /// Capabilities.
    pub capabilities: Option<Capabilities>,
    /// The tokenizer that sizes exactly.
    pub tokenizer: Option<ComponentRef>,
    /// The adapter that shapes requests.
    pub request_adapter: Option<ComponentRef>,
    /// The policy that owns cache semantics.
    pub cache_policy: Option<ComponentRef>,
    /// The revision of the record.
    pub revision: Option<String>,
    /// When the record was retrieved.
    pub retrieved: Option<Timestamp>,
}

/// What a [`ModelRecord`] holds.
pub struct ModelRecordView {
    pub model: Option<Seq<char>>,
    pub aliases: Seq<Seq<char>>,
    pub context_tokens: Option<u32>,
    pub max_input_tokens: Option<u32>,
    pub max_output_tokens: Option<u32>,
    pub input_modalities: Option<Seq<Modality>>,
    pub output_modalities: Option<Seq<Modality>>,
    pub capabilities: Option<CapabilitiesView>,
    pub tokenizer: Option<ComponentRefView>,
    pub request_adapter: Option<ComponentRefView>,
    pub cache_policy: Option<ComponentRefView>,
    pub revision: Option<Seq<char>>,
    pub retrieved: Option<Timestamp>,
}

impl DeepView for ModelRecord {
    type V = ModelRecordView;

    open spec fn deep_view(&self) -> ModelRecordView {
        ModelRecordView {
            model: self.model.deep_view(),
            aliases: self.aliases.deep_view(),
            context_tokens: self.context_tokens.deep_view(),
            max_input_tokens: self.max_input_tokens.deep_view(),
            max_output_tokens: self.max_output_tokens.deep_view(),
            input_modalities: self.input_modalities.deep_view(),
            output_modalities: self.output_modalities.deep_view(),
            capabilities: self.capabilities.deep_view(),
            tokenizer: self.tokenizer.deep_view(),
            request_adapter: self.request_adapter.deep_view(),
            cache_policy: self.cache_policy.deep_view(),
            revision: self.revision.deep_view(),
            retrieved: self.retrieved.deep_view(),
        }
    }
}

impl View for ModelRecord {
    type V = ModelRecordView;

    open spec fn view(&self) -> ModelRecordView {
        self.deep_view()
    }
}

impl Record for ModelRecord {
    fn same(&self, other: &Self) -> (r: bool) {
        self.model.same(&other.model)
            && self.aliases.same(&other.aliases)
            && self.context_tokens.same(&other.context_tokens)
            && self.max_input_tokens.same(&other.max_input_tokens)
            && self.max_output_tokens.same(&other.max_output_tokens)
            && self.input_modalities.same(&other.input_modalities)
            && self.output_modalities.same(&other.output_modalities)
            && self.capabilities.same(&other.capabilities)
            && self.tokenizer.same(&other.tokenizer)
            && self.request_adapter.same(&other.request_adapter)
            && self.cache_policy.same(&other.cache_policy)
            && self.revision.same(&other.revision)
            && self.retrieved.same(&other.retrieved)
    }

    fn copied(&self) -> (r: Self) {
        ModelRecord {
            model: self.model.copied(),
            aliases: self.aliases.copied(),
            context_tokens: self.context_tokens.copied(),
            max_input_tokens: self.max_input_tokens.copied(),
            max_output_tokens: self.max_output_tokens.copied(),
            input_modalities: self.input_modalities.copied(),
            output_modalities: self.output_modalities.copied(),
            capabilities: self.capabilities.copied(),
            tokenizer: self.tokenizer.copied(),
            request_adapter: self.request_adapter.copied(),
            cache_policy: self.cache_policy.copied(),
            revision: self.revision.copied(),
            retrieved: self.retrieved.copied(),
        }
    }
}

impl Ordered for ModelRecord {
    open spec fn before(a: ModelRecordView, b: ModelRecordView) -> bool {
        if a.revision != b.revision {
            Option::<String>::before(a.revision, b.revision)
        } else if a.retrieved != b.retrieved {
            Option::<Timestamp>::before(a.retrieved, b.retrieved)
        } else if a.model != b.model {
            Option::<ModelId>::before(a.model, b.model)
        } else if a.aliases != b.aliases {
            Vec::<String>::before(a.aliases, b.aliases)
        } else if a.context_tokens != b.context_tokens {
            Option::<u32>::before(a.context_tokens, b.context_tokens)
        } else if a.max_input_tokens != b.max_input_tokens {
            Option::<u32>::before(a.max_input_tokens, b.max_input_tokens)
        } else if a.max_output_tokens != b.max_output_tokens {
            Option::<u32>::before(a.max_output_tokens, b.max_output_tokens)
        } else if a.input_modalities != b.input_modalities {
            Option::<Vec<Modality>>::before(a.input_modalities, b.input_modalities)
        } else if a.output_modalities != b.output_modalities {
            Option::<Vec<Modality>>::before(a.output_modalities, b.output_modalities)
        } else if a.capabilities != b.capabilities {
            Option::<Capabilities>::before(a.capabilities, b.capabilities)
        } else if a.tokenizer != b.tokenizer {
            Option::<ComponentRef>::before(a.tokenizer, b.tokenizer)
        } else if a.request_adapter != b.request_adapter {
            Option::<ComponentRef>::before(a.request_adapter, b.request_adapter)
        } else {
            Option::<ComponentRef>::before(a.cache_policy, b.cache_policy)
        }
    }

    fn precedes(&self, other: &Self) -> (r: bool) {
        if !self.revision.same(&other.revision) {
            self.revision.precedes(&other.revision)
        } else if !self.retrieved.same(&other.retrieved) {
            self.retrieved.precedes(&other.retrieved)
        } else if !self.model.same(&other.model) {
            self.model.precedes(&other.model)
        } else if !self.aliases.same(&other.aliases) {
            self.aliases.precedes(&other.aliases)
        } else if !self.context_tokens.same(&other.context_tokens) {
            self.context_tokens.precedes(&other.context_tokens)
        } else if !self.max_input_tokens.same(&other.max_input_tokens) {
            self.max_input_tokens.precedes(&other.max_input_tokens)
        } else if !self.max_output_tokens.same(&other.max_output_tokens) {
            self.max_output_tokens.precedes(&other.max_output_tokens)
        } else if !self.input_modalities.same(&other.input_modalities) {
            self.input_modalities.precedes(&other.input_modalities)
        } else if !self.output_modalities.same(&other.output_modalities) {
            self.output_modalities.precedes(&other.output_modalities)
        } else if !self.capabilities.same(&other.capabilities) {
            self.capabilities.precedes(&other.capabilities)
        } else if !self.tokenizer.same(&other.tokenizer) {
            self.tokenizer.precedes(&other.tokenizer)
        } else if !self.request_adapter.same(&other.request_adapter) {
            self.request_adapter.precedes(&other.request_adapter)
        } else {
            self.cache_policy.precedes(&other.cache_policy)
        }
    }

    proof fn lemma_order(a: ModelRecordView, b: ModelRecordView, c: ModelRecordView) {
        Option::<String>::lemma_order(a.revision, b.revision, c.revision);
        Option::<Timestamp>::lemma_order(a.retrieved, b.retrieved, c.retrieved);
        Option::<ModelId>::lemma_order(a.model, b.model, c.model);
        Vec::<String>::lemma_order(a.aliases, b.aliases, c.aliases);
        Option::<u32>::lemma_order(a.context_tokens, b.context_tokens, c.context_tokens);
        Option::<u32>::lemma_order(a.max_input_tokens, b.max_input_tokens, c.max_input_tokens);
        Option::<u32>::lemma_order(a.max_output_tokens, b.max_output_tokens, c.max_output_tokens);
        Option::<Vec<Modality>>::lemma_order(
            a.input_modalities,
            b.input_modalities,
            c.input_modalities,
        );
        Option::<Vec<Modality>>::lemma_order(
            a.output_modalities,
            b.output_modalities,
            c.output_modalities,
        );
        Option::<Capabilities>::lemma_order(a.capabilities, b.capabilities, c.capabilities);
        Option::<ComponentRef>::lemma_order(a.tokenizer, b.tokenizer, c.tokenizer);
        Option::<ComponentRef>::lemma_order(
            a.request_adapter,
            b.request_adapter,
            c.request_adapter,
        );
        Option::<ComponentRef>::lemma_order(a.cache_policy, b.cache_policy, c.cache_policy);
    }
}

impl Clone for ModelRecord {
    fn clone(&self) -> (r: Self)
        ensures
            r@ == self@,
    {
        self.copied()
    }
}

/// The record that declares nothing.
pub open spec fn empty_record() -> ModelRecordView {
    ModelRecordView {
        model: None,
        aliases: Seq::empty(),
        context_tokens: None,
        max_input_tokens: None,
        max_output_tokens: None,
        input_modalities: None,
        output_modalities: None,
        capabilities: None,
        tokenizer: None,
        request_adapter: None,
        cache_policy: None,
        revision: None,
        retrieved: None,
    }
}

impl ModelRecord {
    /// A record that declares nothing.
    pub fn new() -> (r: ModelRecord)
        ensures
            r@ == empty_record(),
    {
        let aliases: Vec<String> = Vec::new();
        assert(aliases.deep_view() =~= Seq::<Seq<char>>::empty());
        ModelRecord {
            model: None,
            aliases,
            context_tokens: None,
            max_input_tokens: None,
            max_output_tokens: None,
            input_modalities: None,
            output_modalities: None,
            capabilities: None,
            tokenizer: None,
            request_adapter: None,
            cache_policy: None,
            revision: None,
            retrieved: None,
        }
    }

    /// Declares all three limits.
    pub fn with_limits(self, limits: ModelLimits) -> (r: ModelRecord)
        ensures
            r@ == (ModelRecordView {
                context_tokens: Some(limits.context_tokens),
                max_input_tokens: Some(limits.max_input_tokens),
                max_output_tokens: Some(limits.max_output_tokens),
                ..self@
            }),
    {
        let mut r = self;
        r.context_tokens = Some(limits.context_tokens);
        r.max_input_tokens = Some(limits.max_input_tokens);
        r.max_output_tokens = Some(limits.max_output_tokens);
        r
    }

    /// Declares capabilities.
    pub fn with_capabilities(self, capabilities: Capabilities) -> (r: ModelRecord)
        ensures
            r@ == (ModelRecordView { capabilities: Some(capabilities@), ..self@ }),
    {
        let mut r = self;
        r.capabilities = Some(capabilities);
        r
    }

    /// Declares the tokenizer.
    pub fn with_tokenizer(self, tokenizer: ComponentRef) -> (r: ModelRecord)
        ensures
            r@ == (ModelRecordView { tokenizer: Some(tokenizer@), ..self@ }),
    {
        let mut r = self;
        r.tokenizer = Some(tokenizer);
        r
    }

    /// Declares the request adapter.
    pub fn with_request_adapter(self, adapter: ComponentRef) -> (r: ModelRecord)
        ensures
            r@ == (ModelRecordView { request_adapter: Some(adapter@), ..self@ }),
    {
        let mut r = self;
        r.request_adapter = Some(adapter);
        r
    }

    /// Declares the cache policy.
    pub fn with_cache_policy(self, policy: ComponentRef) -> (r: ModelRecord)
        ensures
            r@ == (ModelRecordView { cache_policy: Some(policy@), ..self@ }),
    {
        let mut r = self;
        r.cache_policy = Some(policy);
        r
    }

    /// Declares the record's revision.
    pub fn with_revision(self, revision: &str) -> (r: ModelRecord)
        ensures
            r@ == (ModelRecordView { revision: Some(revision@), ..self@ }),
    {
        let mut r = self;
        r.revision = Some(revision.to_owned());
        r
    }

    /// Adds another name of the model.
    pub fn with_alias(self, alias: &str) -> (r: ModelRecord)
        ensures
            r@ == (ModelRecordView { aliases: self@.aliases.push(alias@), ..self@ }),
    {
        let mut r = self;
        r.aliases.push(alias.to_owned());
        assert(r.aliases.deep_view() =~= self.aliases.deep_view().push(alias@));
        r
    }
}

impl Default for ModelRecord {
    fn default() -> (r: ModelRecord)
        ensures
            r@ == empty_record(),
    {
        ModelRecord::new()
    }
}

/// The provenance of the fields of a profile: for each [`ProfileField`], in
/// order, where its value came from, if it has one.
#[derive(Debug, PartialEq, Eq)]
pub struct ProvenanceTable {
    entries: Vec<Option<FieldProvenance>>,
}

impl DeepView for ProvenanceTable {
    type V = Seq<Option<FieldProvenanceView>>;

    closed spec fn deep_view(&self) -> Seq<Option<FieldProvenanceView>> {
        self.entries.deep_view()
    }
}

impl View for ProvenanceTable {
    type V = Seq<Option<FieldProvenanceView>>;

    open spec fn view(&self) -> Seq<Option<FieldProvenanceView>> {
        self.deep_view()
    }
}

impl Record for ProvenanceTable {
    fn same(&self, other: &Self) -> (r: bool) {
        self.entries.same(&other.entries)
    }

    fn copied(&self) -> (r: Self) {
        proof {
            use_type_invariant(self);
        }
        ProvenanceTable { entries: self.entries.copied() }
    }
}

impl Clone for ProvenanceTable {
    fn clone(&self) -> (r: Self)
        ensures
            r@ == self@,
    {
        self.copied()
    }
}

/// A table in which no field has a provenance.
pub open spec fn no_provenance() -> Seq<Option<FieldProvenanceView>> {
    Seq::new(9, |i: int| None)
}

/// Whether every provenance there is is authoritative.
pub open spec fn all_authoritative(table: Seq<Option<FieldProvenanceView>>) -> bool {
    forall|i: int|
        0 <= i < table.len() ==> ((#[trigger] table[i]) matches Some(p) ==> p.confidence
            == FieldConfidence::Authoritative)
}

impl ProvenanceTable {
    #[verifier::type_invariant]
    spec fn is_complete(self) -> bool {
        self.entries.deep_view().len() == 9
    }

    /// A table in which no field has a provenance.
    pub fn new() -> (r: ProvenanceTable)
        ensures
            r@ == no_provenance(),
    {
        let mut entries: Vec<Option<FieldProvenance>> = Vec::new();
        let mut i: usize = 0;
        while i < 9
            invariant
                i <= 9,
                entries.deep_view().len() == i,
                forall|j: int| 0 <= j < i ==> (#[trigger] entries.deep_view()[j]) is None,
            decreases 9 - i,
        {
            let ghost before = entries.deep_view();
            entries.push(None);
            assert(entries.deep_view() =~= before.push(None));
            i = i + 1;
        }
        assert(entries.deep_view() =~= no_provenance());
        ProvenanceTable { entries }
    }

    /// The provenance of `field`, if it has one.
    pub fn get(&self, field: ProfileField) -> (r: Option<&FieldProvenance>)
        ensures
            match r {
                Some(p) => self@[field.position()] == Some(p@),
                None => self@[field.position()] is None,
            },
    {
        proof {
            use_type_invariant(self);
        }
        self.entries[field.index()].as_ref()
    }

    /// The table with `provenance` for `field`.
    pub fn with(self, field: ProfileField, provenance: FieldProvenance) -> (r: ProvenanceTable)
        ensures
            r@ == self@.update(field.position(), Some(provenance@)),
    {
        proof {
            use_type_invariant(&self);
        }
        let ghost view = provenance@;
        let mut entries = self.entries;
        let i: usize = field.index();
        entries.set(i, Some(provenance));
        assert(entries.deep_view() =~= self@.update(field.position(), Some(view)));
        ProvenanceTable { entries }
    }

    /// Whether every provenance there is is authoritative.
    pub fn is_authoritative(&self) -> (r: bool)
        ensures
            r == all_authoritative(self@),
    {
        let mut i: usize = 0;
        while i < self.entries.len()
            invariant
                i <= self.entries.len(),
                forall|j: int|
                    0 <= j < i ==> ((#[trigger] self@[j]) matches Some(p) ==> p.confidence
                        == FieldConfidence::Authoritative),
            decreases self.entries.len() - i,
        {
            if let Some(p) = &self.entries[i] {
                if p.confidence != FieldConfidence::Authoritative {
                    assert(self@[i as int] == Some(p@));
                    return false;
                }
            }
            i = i + 1;
        }
        true
    }
}

/// The frozen answer to what a turn may send to a model, and how much of it.
#[derive(Debug, PartialEq, Eq)]
pub struct ResolvedModelProfile {
    /// The serving provider.
    pub provider: String,
    /// The canonical model id.
    pub model: ModelId,
    /// Other names of the model, in order, each once.
    pub aliases: Vec<String>,
    /// Token limits.
    pub limits: ModelLimits,
    /// Accepted content.
    pub input_modalities: Vec<Modality>,
    /// Produced content.
    pub output_modalities: Vec<Modality>,
    /// Capabilities.
    pub capabilities: Capabilities,
    /// The tokenizer that sizes exactly.
    pub tokenizer: Option<ComponentRef>,
    /// The adapter that shapes requests.
    pub request_adapter: Option<ComponentRef>,
    /// The policy that owns cache semantics.
    pub cache_policy: Option<ComponentRef>,
    /// Where each material field came from.
    pub provenance: ProvenanceTable,
}

/// What a [`ResolvedModelProfile`] holds.
pub struct ResolvedModelProfileView {
    pub provider: Seq<char>,
    pub model: Seq<char>,
    pub aliases: Seq<Seq<char>>,
    pub limits: ModelLimits,
    pub input_modalities: Seq<Modality>,
    pub output_modalities: Seq<Modality>,
    pub capabilities: CapabilitiesView,
    pub tokenizer: Option<ComponentRefView>,
    pub request_adapter: Option<ComponentRefView>,
    pub cache_policy: Option<ComponentRefView>,
    pub provenance: Seq<Option<FieldProvenanceView>>,
}

impl DeepView for ResolvedModelProfile {
    type V = ResolvedModelProfileView;

    open spec fn deep_view(&self) -> ResolvedModelProfileView {
        ResolvedModelProfileView {
            provider: self.provider.deep_view(),
            model: self.model.deep_view(),
            aliases: self.aliases.deep_view(),
            limits: self.limits.deep_view(),
            input_modalities: self.input_modalities.deep_view(),
            output_modalities: self.output_modalities.deep_view(),
            capabilities: self.capabilities.deep_view(),
            tokenizer: self.tokenizer.deep_view(),
            request_adapter: self.request_adapter.deep_view(),
            cache_policy: self.cache_policy.deep_view(),
            provenance: self.provenance.deep_view(),
        }
    }
}

impl View for ResolvedModelProfile {
    type V = ResolvedModelProfileView;

    open spec fn view(&self) -> ResolvedModelProfileView {
        self.deep_view()
    }
}

impl Record for ResolvedModelProfile {
    fn same(&self, other: &Self) -> (r: bool) {
        self.provider.same(&other.provider)
            && self.model.same(&other.model)
            && self.aliases.same(&other.aliases)
            && self.limits.same(&other.limits)
            && self.input_modalities.same(&other.input_modalities)
            && self.output_modalities.same(&other.output_modalities)
            && self.capabilities.same(&other.capabilities)
            && self.tokenizer.same(&other.tokenizer)
            && self.request_adapter.same(&other.request_adapter)
            && self.cache_policy.same(&other.cache_policy)
            && self.provenance.same(&other.provenance)
    }

    fn copied(&self) -> (r: Self) {
        ResolvedModelProfile {
            provider: self.provider.copied(),
            model: self.model.copied(),
            aliases: self.aliases.copied(),
            limits: self.limits.copied(),
            input_modalities: self.input_modalities.copied(),
            output_modalities: self.output_modalities.copied(),
            capabilities: self.capabilities.copied(),
            tokenizer: self.tokenizer.copied(),
            request_adapter: self.request_adapter.copied(),
            cache_policy: self.cache_policy.copied(),
            provenance: self.provenance.copied(),
        }
    }
}

impl Clone for ResolvedModelProfile {
    fn clone(&self) -> (r: Self)
        ensures
            r@ == self@,
    {
        self.copied()
    }
}

/// Provenance of a stand-in for what no source declares.
pub open spec fn stand_in(source: CatalogSource) -> FieldProvenanceView {
    FieldProvenanceView { confidence: FieldConfidence::Fallback, ..declared_by(source) }
}

/// The profile of a host that only states limits.
pub open spec fn explicit_profile(
    provider: Seq<char>,
    model: Seq<char>,
    limits: ModelLimits,
) -> ResolvedModelProfileView {
    let declared = Some(declared_by(CatalogSource::Explicit));
    let fallback = Some(stand_in(CatalogSource::Explicit));
    ResolvedModelProfileView {
        provider,
        model,
        aliases: Seq::empty(),
        limits,
        input_modalities: seq![Modality::Text],
        output_modalities: seq![Modality::Text],
        capabilities: basic_capabilities(),
        tokenizer: None,
        request_adapter: None,
        cache_policy: None,
        provenance: seq![
            declared,
            declared,
            declared,
            fallback,
            fallback,
            fallback,
            None,
            None,
            None,
        ],
    }
}

/// The canonical fields of a list of modalities under a label.
pub open spec fn modality_fields(label: Seq<char>, modalities: Seq<Modality>) -> Seq<Seq<char>>
    decreases modalities.len(),
{
    if modalities.len() == 0 {
        Seq::empty()
    } else {
        modality_fields(label, modalities.drop_last()) + seq![label, modalities.last().slug()]
    }
}

/// The canonical fields of an optional component under a label.
pub open spec fn labelled_component(
    label: Seq<char>,
    component: Option<ComponentRefView>,
) -> Seq<Seq<char>> {
    seq![label] + (match component {
        Some(component) => component_fields(component),
        None => seq![""@],
    })
}

impl ResolvedModelProfileView {
    /// The profile with capabilities that the host states.
    pub open spec fn stating_capabilities(
        self,
        capabilities: CapabilitiesView,
    ) -> ResolvedModelProfileView {
        ResolvedModelProfileView {
            capabilities,
            provenance: self.provenance.update(
                ProfileField::Capabilities.position(),
                Some(declared_by(CatalogSource::Explicit)),
            ),
            ..self
        }
    }

    /// The profile with a tokenizer that the host states.
    pub open spec fn stating_tokenizer(
        self,
        tokenizer: ComponentRefView,
    ) -> ResolvedModelProfileView {
        ResolvedModelProfileView {
            tokenizer: Some(tokenizer),
            provenance: self.provenance.update(
                ProfileField::Tokenizer.position(),
                Some(declared_by(CatalogSource::Explicit)),
            ),
            ..self
        }
    }

    /// The profile with a request adapter that the host states.
    pub open spec fn stating_request_adapter(
        self,
        adapter: ComponentRefView,
    ) -> ResolvedModelProfileView {
        ResolvedModelProfileView {
            request_adapter: Some(adapter),
            provenance: self.provenance.update(
                ProfileField::RequestAdapter.position(),
                Some(declared_by(CatalogSource::Explicit)),
            ),
            ..self
        }
    }

    /// Where the value of `field` came from, if it has one.
    pub open spec fn provenance_of(self, field: ProfileField) -> Option<FieldProvenanceView> {
        self.provenance[field.position()]
    }

    /// The fields that the profile's fingerprint covers.
    pub open spec fn canonical_fields(self) -> Seq<Seq<char>> {
        seq!["provider"@, self.provider] + seq!["model"@, self.model] + seq![
            "context_tokens"@,
            decimal(self.limits.context_tokens as nat),
        ] + seq!["max_input_tokens"@, decimal(self.limits.max_input_tokens as nat)] + seq![
            "max_output_tokens"@,
            decimal(self.limits.max_output_tokens as nat),
        ] + modality_fields("input_modality"@, self.input_modalities) + modality_fields(
            "output_modality"@,
            self.output_modalities,
        ) + labelled_component("tokenizer"@, self.tokenizer) + labelled_component(
            "request_adapter"@,
            self.request_adapter,
        ) + labelled_component("cache_policy"@, self.cache_policy)
    }
}

fn absorb_modalities(label: &str, modalities: &Vec<Modality>, hasher: &mut FingerprintHasher)
    ensures
        final(hasher)@ == absorb_all(
            old(hasher)@,
            modality_fields(label@, modalities.deep_view()),
        ),
{
    let ghost start = hasher@;
    let ghost views = modalities.deep_view();
    let mut i: usize = 0;
    assert(views.subrange(0, 0) =~= Seq::<Modality>::empty());
    assert(absorb_all(start, Seq::empty()) == start);
    while i < modalities.len()
        invariant
            i <= modalities.len(),
            views == modalities.deep_view(),
            hasher@ == absorb_all(start, modality_fields(label@, views.subrange(0, i as int))),
        decreases modalities.len() - i,
    {
        proof {
            let items = views.subrange(0, i + 1);
            assert(items.drop_last() =~= views.subrange(0, i as int));
            assert(items.last() == modalities[i as int]);
            lemma_absorb_concat(
                start,
                modality_fields(label@, views.subrange(0, i as int)),
                seq![label@, items.last().slug()],
            );
        }
        hasher.pair(label, modalities[i].as_str());
        i = i + 1;
    }
    assert(views.subrange(0, views.len() as int) =~= views);
}

fn absorb_component(label: &str, component: &Option<ComponentRef>, hasher: &mut FingerprintHasher)
    ensures
        final(hasher)@ == absorb_all(
            old(hasher)@,
            labelled_component(label@, component.deep_view()),
        ),
{
    broadcast use group_absorb;

    hasher.field(label);
    match component {
        Some(component) => component.fingerprint_into(hasher),
        None => hasher.field(""),
    }
}

impl ResolvedModelProfile {
    /// A profile that a host states itself: limits, with conservative
    /// stand-ins for the rest.
    pub fn explicit(provider: &str, model: ModelId, limits: ModelLimits) -> (r:
        ResolvedModelProfile)
        ensures
            r@ == explicit_profile(provider@, model@, limits),
    {
        let declared = FieldProvenance::authoritative(CatalogSource::Explicit);
        let fallback = FieldProvenance::authoritative(CatalogSource::Explicit).with_confidence(
            FieldConfidence::Fallback,
        );
        let provenance = ProvenanceTable::new().with(
            ProfileField::ContextTokens,
            declared.copied(),
        ).with(ProfileField::MaxInputTokens, declared.copied()).with(
            ProfileField::MaxOutputTokens,
            declared,
        ).with(ProfileField::InputModalities, fallback.copied()).with(
            ProfileField::OutputModalities,
            fallback.copied(),
        ).with(ProfileField::Capabilities, fallback);
        let aliases: Vec<String> = Vec::new();
        let input_modalities: Vec<Modality> = vec![Modality::Text];
        let output_modalities: Vec<Modality> = vec![Modality::Text];
        proof {
            assert(aliases.deep_view() =~= Seq::<Seq<char>>::empty());
            assert(input_modalities.deep_view() =~= seq![Modality::Text]);
            assert(output_modalities.deep_view() =~= seq![Modality::Text]);
            assert(provenance@ =~= explicit_profile(provider@, model@, limits).provenance);
        }
        ResolvedModelProfile {
            provider: provider.to_owned(),
            model,
            aliases,
            limits,
            input_modalities,
            output_modalities,
            capabilities: Capabilities::basic_streaming(),
            tokenizer: None,
            request_adapter: None,
            cache_policy: None,
            provenance,
        }
    }

    /// States the capabilities explicitly.
    pub fn with_capabilities(self, capabilities: Capabilities) -> (r: ResolvedModelProfile)
        ensures
            r@ == self@.stating_capabilities(capabilities@),
    {
        let mut r = self;
        r.capabilities = capabilities;
        r.provenance = r.provenance.with(
            ProfileField::Capabilities,
            FieldProvenance::authoritative(CatalogSource::Explicit),
        );
        r
    }

    /// States the tokenizer explicitly.
    pub fn with_tokenizer(self, tokenizer: ComponentRef) -> (r: ResolvedModelProfile)
        ensures
            r@ == self@.stating_tokenizer(tokenizer@),
    {
        let mut r = self;
        r.tokenizer = Some(tokenizer);
        r.provenance = r.provenance.with(
            ProfileField::Tokenizer,
            FieldProvenance::authoritative(CatalogSource::Explicit),
        );
        r
    }

    /// States the request adapter explicitly.
    pub fn with_request_adapter(self, adapter: ComponentRef) -> (r: ResolvedModelProfile)
        ensures
            r@ == self@.stating_request_adapter(adapter@),
    {
        let mut r = self;
        r.request_adapter = Some(adapter);
        r.provenance = r.provenance.with(
            ProfileField::RequestAdapter,
            FieldProvenance::authoritative(CatalogSource::Explicit),
        );
        r
    }

    /// Where the value of `field` came from, if it has one.
    pub fn provenance_of(&self, field: ProfileField) -> (r: Option<&FieldProvenance>)
        ensures
            match r {
                Some(p) => self@.provenance_of(field) == Some(p@),
                None => self@.provenance_of(field) is None,
            },
    {
        self.provenance.get(field)
    }

    /// Whether every value with a provenance was declared by a source.
    pub fn is_fully_authoritative(&self) -> (r: bool)
        ensures
            r == all_authoritative(self@.provenance),
    {
        self.provenance.is_authoritative()
    }

    /// The fingerprint of what decides planning: the model, its limits and
    /// modalities, and the components with their revisions.
    pub fn fingerprint(&self) -> (r: Fingerprint)
        ensures
            r@ == fingerprint_of(self@.canonical_fields()),
    {
        broadcast use group_absorb;

        let mut hasher = FingerprintHasher::new();
        hasher.pair("provider", self.provider.as_str());
        hasher.pair("model", self.model.as_str());
        hasher.pair(
            "context_tokens",
            decimal_text(self.limits.context_tokens as u64).as_str(),
        );
        hasher.pair(
            "max_input_tokens",
            decimal_text(self.limits.max_input_tokens as u64).as_str(),
        );
        hasher.pair(
            "max_output_tokens",
            decimal_text(self.limits.max_output_tokens as u64).as_str(),
        );
        absorb_modalities("input_modality", &self.input_modalities, &mut hasher);
        absorb_modalities("output_modality", &self.output_modalities, &mut hasher);
        absorb_component("tokenizer", &self.tokenizer, &mut hasher);
        absorb_component("request_adapter", &self.request_adapter, &mut hasher);
        absorb_component("cache_policy", &self.cache_policy, &mut hasher);
        hasher.finish()
    }
}

/// Why a profile could not be resolved.
#[derive(Debug, Clone, Copy, PartialEq, Eq, Structural)]
pub enum ModelProfileErrorKind {
    /// No source declares the model.
    UnknownModel,
    /// No source declares a limit that planning needs.
    MissingLimits,
    /// Two sources of one layer disagree.
    SourceConflict,
    /// A record is malformed.
    InvalidRecord,
}

impl DeepView for ModelProfileErrorKind {
    type V = ModelProfileErrorKind;

    open spec fn deep_view(&self) -> ModelProfileErrorKind {
        *self
    }
}

impl Record for ModelProfileErrorKind {
    fn same(&self, other: &Self) -> (r: bool) {
        *self == *other
    }

    fn copied(&self) -> (r: Self) {
        *self
    }
}

impl ModelProfileErrorKind {
    /// The stable slug.
    pub open spec fn slug(self) -> Seq<char> {
        match self {
            ModelProfileErrorKind::UnknownModel => "unknown_model"@,
            ModelProfileErrorKind::MissingLimits => "missing_limits"@,
            ModelProfileErrorKind::SourceConflict => "source_conflict"@,
            ModelProfileErrorKind::InvalidRecord => "invalid_record"@,
        }
    }

    /// The stable slug.
    pub fn as_str(self) -> (r: &'static str)
        ensures
            r@ == self.slug(),
    {
        match self {
            ModelProfileErrorKind::UnknownModel => "unknown_model",
            ModelProfileErrorKind::MissingLimits => "missing_limits",
            ModelProfileErrorKind::SourceConflict => "source_conflict",
            ModelProfileErrorKind::InvalidRecord => "invalid_record",
        }
    }
}

/// A failed resolution.
#[derive(Debug, PartialEq, Eq)]
pub struct ModelProfileError {
    /// What went wrong.
    pub kind: ModelProfileErrorKind,
    /// The model.
    pub model: ModelId,
    /// The field that it is about, if it is about one.
    pub field: Option<ProfileField>,
    /// What went wrong, for an operator.
    pub message: String,
}

/// What a [`ModelProfileError`] holds.
pub struct ModelProfileErrorView {
    pub kind: ModelProfileErrorKind,
    pub model: Seq<char>,
    pub field: Option<ProfileField>,
    pub message: Seq<char>,
}

impl DeepView for ModelProfileError {
    type V = ModelProfileErrorView;

    open spec fn deep_view(&self) -> ModelProfileErrorView {
        ModelProfileErrorView {
            kind: self.kind.deep_view(),
            model: self.model.deep_view(),
            field: self.field.deep_view(),
            message: self.message.deep_view(),
        }
    }
}

impl View for ModelProfileError {
    type V = ModelProfileErrorView;

    open spec fn view(&self) -> ModelProfileErrorView {
        self.deep_view()
    }
}

impl Record for ModelProfileError {
    fn same(&self, other: &Self) -> (r: bool) {
        self.kind.same(&other.kind)
            && self.model.same(&other.model)
            && self.field.same(&other.field)
            && self.message.same(&other.message)
    }

    fn copied(&self) -> (r: Self) {
        ModelProfileError {
            kind: self.kind.copied(),
            model: self.model.copied(),
            field: self.field.copied(),
            message: self.message.copied(),
        }
    }
}

impl Clone for ModelProfileError {
    fn clone(&self) -> (r: Self)
        ensures
            r@ == self@,
    {
        self.copied()
    }
}

impl ModelProfileError {
    /// An error that is about no single field.
    pub fn new(kind: ModelProfileErrorKind, model: ModelId, message: &str) -> (r: ModelProfileError)
        ensures
            r@ == (ModelProfileErrorView { kind, model: model@, field: None, message: message@ }),
    {
        ModelProfileError { kind, model, field: None, message: message.to_owned() }
    }

    /// Names the field that the error is about.
    pub fn for_field(self, field: ProfileField) -> (r: ModelProfileError)
        ensures
            r@ == (ModelProfileErrorView { field: Some(field), ..self@ }),
    {
        let mut r = self;
        r.field = Some(field);
        r
    }

    /// The error as text: its kind, the model, and the message.
    pub fn to_text(&self) -> (r: String)
        ensures
            r@ == self@.kind.slug() + " for model `"@ + self@.model + "`: "@ + self@.message,
    {
        let mut out = self.kind.as_str().to_owned();
        out.append(" for model `");
        out.append(self.model.as_str());
        out.append("`: ");
        out.append(self.message.as_str());
        out
    }
}

/// One layer of the catalog: what it declares about models.
pub trait ModelCatalogSource: Send + Sync {
    /// The layer that the source contributes to.
    spec fn layer(&self) -> CatalogSource;

    /// The source's name.
    spec fn title(&self) -> Seq<char>;

    /// What the source declares about a model of a provider, if anything.
    spec fn declares(&self, provider: Seq<char>, model: Seq<char>) -> Option<ModelRecordView>;

    /// The layer that the source contributes to.
    fn source(&self) -> (r: CatalogSource)
        ensures
            r == self.layer(),
    ;

    /// The source's name, for diagnostics.
    fn name(&self) -> (r: &str)
        ensures
            r@ == self.title(),
    ;

    /// What the source declares about `model` as served by `provider`.
    fn lookup(&self, provider: &str, model: &ModelId) -> (r: Option<ModelRecord>)
        ensures
            r.deep_view() == self.declares(provider@, model@),
    ;
}

/// Resolves the profile of a model.
pub trait ModelCatalog: Send + Sync {
    /// Resolves `model` as served by `provider`.
    fn resolve(&self, provider: &str, model: &ModelId) -> Result<
        ResolvedModelProfile,
        ModelProfileError,
    >;
}

/// A modality has a stable name of its own.
pub proof fn modalities_have_stable_names(x: Modality)
    ensures
        x == Modality::Text ==> x.slug() == "text"@,
        x == Modality::Image ==> x.slug() == "image"@,
        x == Modality::Audio ==> x.slug() == "audio"@,
        x == Modality::Video ==> x.slug() == "video"@,
        x == Modality::Document ==> x.slug() == "document"@,
{
}

/// A catalog source has a stable name of its own.
pub proof fn catalog_sources_have_stable_names(x: CatalogSource)
    ensures
        x == CatalogSource::RemoteRefresh ==> x.slug() == "remote_refresh"@,
        x == CatalogSource::CachedRemote ==> x.slug() == "cached_remote"@,
        x == CatalogSource::Embedded ==> x.slug() == "embedded"@,
        x == CatalogSource::ProviderLocal ==> x.slug() == "provider_local"@,
        x == CatalogSource::Explicit ==> x.slug() == "explicit"@,
{
}

/// A profile field has a stable name of its own.
pub proof fn profile_fields_have_stable_names(x: ProfileField)
    ensures
        x == ProfileField::ContextTokens ==> x.slug() == "context_tokens"@,
        x == ProfileField::MaxInputTokens ==> x.slug() == "max_input_tokens"@,
        x == ProfileField::MaxOutputTokens ==> x.slug() == "max_output_tokens"@,
        x == ProfileField::InputModalities ==> x.slug() == "input_modalities"@,
        x == ProfileField::OutputModalities ==> x.slug() == "output_modalities"@,
        x == ProfileField::Capabilities ==> x.slug() == "capabilities"@,
        x == ProfileField::Tokenizer ==> x.slug() == "tokenizer"@,
        x == ProfileField::RequestAdapter ==> x.slug() == "request_adapter"@,
        x == ProfileField::CachePolicy ==> x.slug() == "cache_policy"@,
{
}

/// A kind of profile error has a stable name of its own.
pub proof fn profile_errors_have_stable_names(x: ModelProfileErrorKind)
    ensures
        x == ModelProfileErrorKind::UnknownModel ==> x.slug() == "unknown_model"@,
        x == ModelProfileErrorKind::MissingLimits ==> x.slug() == "missing_limits"@,
        x == ModelProfileErrorKind::SourceConflict ==> x.slug() == "source_conflict"@,
        x == ModelProfileErrorKind::InvalidRecord ==> x.slug() == "invalid_record"@,
{
}

} // verus!
