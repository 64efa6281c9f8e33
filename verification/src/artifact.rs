//! Session-private, recoverable artifact storage contracts.
//!
//! A reference identifies content; it never grants access to that content. Every
//! read carries the requesting session, and a store must reject cross-session
//! access even when the caller knows or guesses a valid artifact id.
//!
//! The copy of an artifact into another session runs in steps: a store is asked
//! for [`TransferProgress::next_read`] until there is none, and each page goes to
//! [`TransferProgress::accept_page`]; then it is asked for the write of
//! [`TransferProgress::finish`], and its answer goes to
//! [`ArtifactTransfer::accept_target`].

use vstd::prelude::*;

use vstd::string::{StrSliceExecFns, StringExecFns};
use vstd::utf8::encode_utf8;

use crate::ids::{SessionId, ToolCallId, TurnId};
use crate::record::Record;
use crate::text::{all_of_class, byte_len, is_of_class, ByteClass};

verus! {

/// Maximum number of bytes one standard artifact read may request.
pub const MAX_ARTIFACT_READ_BYTES: u32 = 64 * 1024;

/// Maximum exact artifact size copied by the standard cross-session transfer.
pub const MAX_ARTIFACT_TRANSFER_BYTES: u64 = 8 * 1024 * 1024;

/// Maximum length of a host-minted opaque artifact id.
pub const MAX_ARTIFACT_ID_CHARS: usize = 160;

/// Maximum media-type length.
pub const MAX_ARTIFACT_MEDIA_TYPE_CHARS: usize = 127;

/// Maximum digest algorithm label length.
pub const MAX_ARTIFACT_DIGEST_ALGORITHM_CHARS: usize = 32;

/// Maximum lowercase hexadecimal digest length.
pub const MAX_ARTIFACT_DIGEST_HEX_CHARS: usize = 256;

/// Maximum artifact-purpose label length.
pub const MAX_ARTIFACT_PURPOSE_CHARS: usize = 96;

/// Failure from protected artifact storage.
#[derive(Debug, PartialEq, Eq)]
pub enum ArtifactError {
    /// The reference or metadata is malformed.
    InvalidReference {
        /// Safe diagnostic.
        detail: String,
    },
    /// The requested range is invalid.
    InvalidRange {
        /// Safe diagnostic.
        detail: String,
    },
    /// The requester does not own or cannot access the artifact.
    AccessDenied,
    /// No artifact exists for the reference.
    NotFound,
    /// Protected storage is unavailable.
    Unavailable {
        /// Safe diagnostic.
        detail: String,
    },
    /// Stored bytes or returned metadata failed integrity validation.
    Integrity {
        /// Safe diagnostic.
        detail: String,
    },
}

/// What a [`ArtifactError`] holds.
pub enum ArtifactErrorView {
    InvalidReference { detail: Seq<char> },
    InvalidRange { detail: Seq<char> },
    AccessDenied,
    NotFound,
    Unavailable { detail: Seq<char> },
    Integrity { detail: Seq<char> },
}

impl DeepView for ArtifactError {
    type V = ArtifactErrorView;

    open spec fn deep_view(&self) -> ArtifactErrorView {
        match self {
            ArtifactError::InvalidReference { detail } => ArtifactErrorView::InvalidReference {
                detail: detail.deep_view(),
            },
            ArtifactError::InvalidRange { detail } => ArtifactErrorView::InvalidRange {
                detail: detail.deep_view(),
            },
            ArtifactError::AccessDenied => ArtifactErrorView::AccessDenied,
            ArtifactError::NotFound => ArtifactErrorView::NotFound,
            ArtifactError::Unavailable { detail } => ArtifactErrorView::Unavailable {
                detail: detail.deep_view(),
            },
            ArtifactError::Integrity { detail } => ArtifactErrorView::Integrity {
                detail: detail.deep_view(),
            },
        }
    }
}

impl View for ArtifactError {
    type V = ArtifactErrorView;

    open spec fn view(&self) -> ArtifactErrorView {
        self.deep_view()
    }
}

impl Record for ArtifactError {
    fn same(&self, other: &Self) -> (r: bool) {
        match (self, other) {
            (
                ArtifactError::InvalidReference { detail },
                ArtifactError::InvalidReference { detail: detail_b },
            ) => detail.same(detail_b),
            (
                ArtifactError::InvalidRange { detail },
                ArtifactError::InvalidRange { detail: detail_b },
            ) => detail.same(detail_b),
            (ArtifactError::AccessDenied, ArtifactError::AccessDenied) => true,
            (ArtifactError::NotFound, ArtifactError::NotFound) => true,
            (
                ArtifactError::Unavailable { detail },
                ArtifactError::Unavailable { detail: detail_b },
            ) => detail.same(detail_b),
            (ArtifactError::Integrity { detail }, ArtifactError::Integrity { detail: detail_b }) => {
                detail.same(detail_b)
            },
            _ => false,
        }
    }

    fn copied(&self) -> (r: Self) {
        match self {
            ArtifactError::InvalidReference { detail } => ArtifactError::InvalidReference {
                detail: detail.copied(),
            },
            ArtifactError::InvalidRange { detail } => ArtifactError::InvalidRange {
                detail: detail.copied(),
            },
            ArtifactError::AccessDenied => ArtifactError::AccessDenied,
            ArtifactError::NotFound => ArtifactError::NotFound,
            ArtifactError::Unavailable { detail } => ArtifactError::Unavailable {
                detail: detail.copied(),
            },
            ArtifactError::Integrity { detail } => ArtifactError::Integrity {
                detail: detail.copied(),
            },
        }
    }
}

impl Clone for ArtifactError {
    fn clone(&self) -> (r: Self)
        ensures
            r@ == self@,
    {
        self.copied()
    }
}

impl ArtifactErrorView {
    /// The failure in words.
    pub open spec fn message(self) -> Seq<char> {
        match self {
            ArtifactErrorView::InvalidReference { detail } => "invalid artifact reference: "@
                + detail,
            ArtifactErrorView::InvalidRange { detail } => "invalid artifact range: "@ + detail,
            ArtifactErrorView::AccessDenied => "artifact access denied"@,
            ArtifactErrorView::NotFound => "artifact not found"@,
            ArtifactErrorView::Unavailable { detail } => "artifact store unavailable: "@ + detail,
            ArtifactErrorView::Integrity { detail } => "artifact integrity failure: "@ + detail,
        }
    }
}

impl ArtifactError {
    /// The failure in words.
    pub fn to_text(&self) -> (r: String)
        ensures
            r@ == self@.message(),
    {
        match self {
            ArtifactError::InvalidReference { detail } => {
                let mut out = "invalid artifact reference: ".to_owned();
                out.append(detail.as_str());
                out
            },
            ArtifactError::InvalidRange { detail } => {
                let mut out = "invalid artifact range: ".to_owned();
                out.append(detail.as_str());
                out
            },
            ArtifactError::AccessDenied => "artifact access denied".to_owned(),
            ArtifactError::NotFound => "artifact not found".to_owned(),
            ArtifactError::Unavailable { detail } => {
                let mut out = "artifact store unavailable: ".to_owned();
                out.append(detail.as_str());
                out
            },
            ArtifactError::Integrity { detail } => {
                let mut out = "artifact integrity failure: ".to_owned();
                out.append(detail.as_str());
                out
            },
        }
    }

    fn reference(detail: &str) -> (r: ArtifactError)
        ensures
            r@ == bad_reference(detail@),
    {
        ArtifactError::InvalidReference { detail: detail.to_owned() }
    }

    fn range(detail: &str) -> (r: ArtifactError)
        ensures
            r@ == bad_range(detail@),
    {
        ArtifactError::InvalidRange { detail: detail.to_owned() }
    }

    fn integrity(detail: &str) -> (r: ArtifactError)
        ensures
            r@ == broken(detail@),
    {
        ArtifactError::Integrity { detail: detail.to_owned() }
    }
}

/// The error for a malformed reference.
pub open spec fn bad_reference(detail: Seq<char>) -> ArtifactErrorView {
    ArtifactErrorView::InvalidReference { detail }
}

/// The error for an invalid range.
pub open spec fn bad_range(detail: Seq<char>) -> ArtifactErrorView {
    ArtifactErrorView::InvalidRange { detail }
}

/// The error for failed integrity.
pub open spec fn broken(detail: Seq<char>) -> ArtifactErrorView {
    ArtifactErrorView::Integrity { detail }
}

/// What a validation returned: nothing, or the error that it found.
pub open spec fn artifact_outcome(r: Result<(), ArtifactError>) -> Option<ArtifactErrorView> {
    match r {
        Ok(()) => None,
        Err(e) => Some(e@),
    }
}

/// Opaque identifier for one stored artifact.
#[derive(Debug, PartialEq, Eq, PartialOrd, Ord, Hash)]
pub struct ArtifactId {
    text: String,
}

impl DeepView for ArtifactId {
    type V = Seq<char>;

    closed spec fn deep_view(&self) -> Seq<char> {
        self.text@
    }
}

impl View for ArtifactId {
    type V = Seq<char>;

    open spec fn view(&self) -> Seq<char> {
        self.deep_view()
    }
}

impl Record for ArtifactId {
    fn same(&self, other: &Self) -> (r: bool) {
        self.text.same(&other.text)
    }

    fn copied(&self) -> (r: Self) {
        ArtifactId { text: self.text.copied() }
    }
}

impl Clone for ArtifactId {
    fn clone(&self) -> (r: Self)
        ensures
            r@ == self@,
    {
        self.copied()
    }
}

/// What is wrong with an artifact id, if anything.
pub open spec fn id_fault(id: Seq<char>) -> Option<ArtifactErrorView> {
    if 1 <= id.len() <= MAX_ARTIFACT_ID_CHARS {
        None
    } else {
        Some(bad_reference("artifact id must contain 1..=160 characters"@))
    }
}

impl ArtifactId {
    /// Wraps a bounded, non-empty host-minted id.
    pub fn new(value: &str) -> (r: Result<ArtifactId, ArtifactError>)
        ensures
            match r {
                Ok(id) => id_fault(value@) is None && id@ == value@,
                Err(e) => id_fault(value@) == Some(e@),
            },
    {
        let id = ArtifactId::restored(value);
        match id.validate() {
            Ok(()) => Ok(id),
            Err(e) => Err(e),
        }
    }

    /// An id as a protected serialized record holds it, not validated yet.
    pub fn restored(value: &str) -> (r: ArtifactId)
        ensures
            r@ == value@,
    {
        ArtifactId { text: value.to_owned() }
    }

    /// Returns the opaque id.
    pub fn as_str(&self) -> (r: &str)
        ensures
            r@ == self@,
    {
        self.text.as_str()
    }

    /// Validates an id reconstructed from a protected serialized record.
    pub fn validate(&self) -> (r: Result<(), ArtifactError>)
        ensures
            artifact_outcome(r) == id_fault(self@),
    {
        let chars: usize = self.text.as_str().unicode_len();
        if chars == 0 || chars > MAX_ARTIFACT_ID_CHARS {
            return Err(ArtifactError::reference("artifact id must contain 1..=160 characters"));
        }
        Ok(())
    }
}

/// Cryptographic digest supplied and verified by the host artifact store.
///
/// The runtime does not prescribe a cryptographic implementation. The algorithm
/// label is explicit so stores may migrate.
#[derive(Debug, PartialEq, Eq)]
pub struct ArtifactDigest {
    /// Stable lowercase algorithm name, for example `sha256`.
    pub algorithm: String,
    /// Lowercase hexadecimal digest.
    pub hex: String,
}

/// What a [`ArtifactDigest`] holds.
pub struct ArtifactDigestView {
    pub algorithm: Seq<char>,
    pub hex: Seq<char>,
}

impl DeepView for ArtifactDigest {
    type V = ArtifactDigestView;

    open spec fn deep_view(&self) -> ArtifactDigestView {
        ArtifactDigestView {
            algorithm: self.algorithm.deep_view(),
            hex: self.hex.deep_view(),
        }
    }
}

impl View for ArtifactDigest {
    type V = ArtifactDigestView;

    open spec fn view(&self) -> ArtifactDigestView {
        self.deep_view()
    }
}

impl Record for ArtifactDigest {
    fn same(&self, other: &Self) -> (r: bool) {
        self.algorithm.same(&other.algorithm)
            && self.hex.same(&other.hex)
    }

    fn copied(&self) -> (r: Self) {
        ArtifactDigest {
            algorithm: self.algorithm.copied(),
            hex: self.hex.copied(),
        }
    }
}

impl Clone for ArtifactDigest {
    fn clone(&self) -> (r: Self)
        ensures
            r@ == self@,
    {
        self.copied()
    }
}

impl ArtifactDigestView {
    /// Whether the digest is well-formed: a bounded lowercase algorithm name and
    /// a bounded lowercase hexadecimal value.
    pub open spec fn is_well_formed(self) -> bool {
        &&& 1 <= self.algorithm.len() <= MAX_ARTIFACT_DIGEST_ALGORITHM_CHARS
        &&& all_of_class(ByteClass::LowerAlphanumeric, self.algorithm)
        &&& 1 <= self.hex.len() <= MAX_ARTIFACT_DIGEST_HEX_CHARS
        &&& all_of_class(ByteClass::LowerHex, self.hex)
    }

    /// What is wrong with the digest, if anything.
    pub open spec fn fault(self) -> Option<ArtifactErrorView> {
        if self.is_well_formed() {
            None
        } else {
            Some(
                bad_reference(
                    "artifact digest must use a 1..=32 character lowercase alphanumeric algorithm and a 1..=256 character lowercase hexadecimal value"@,
                ),
            )
        }
    }
}

impl ArtifactDigest {
    /// Constructs a syntactically validated digest.
    pub fn new(algorithm: &str, hex: &str) -> (r: Result<ArtifactDigest, ArtifactError>)
        ensures
            ({
                let digest = ArtifactDigestView { algorithm: algorithm@, hex: hex@ };
                match r {
                    Ok(made) => digest.fault() is None && made@ == digest,
                    Err(e) => digest.fault() == Some(e@),
                }
            }),
    {
        let digest = ArtifactDigest { algorithm: algorithm.to_owned(), hex: hex.to_owned() };
        match digest.validate() {
            Ok(()) => Ok(digest),
            Err(e) => Err(e),
        }
    }

    /// Validates a digest reconstructed from a protected serialized record.
    pub fn validate(&self) -> (r: Result<(), ArtifactError>)
        ensures
            artifact_outcome(r) == self@.fault(),
    {
        let algorithm = self.algorithm.as_str();
        let hex = self.hex.as_str();
        let (named, valued): (usize, usize) = (algorithm.unicode_len(), hex.unicode_len());
        if named == 0 || named > MAX_ARTIFACT_DIGEST_ALGORITHM_CHARS || !is_of_class(
            ByteClass::LowerAlphanumeric,
            algorithm,
        ) || valued == 0 || valued > MAX_ARTIFACT_DIGEST_HEX_CHARS || !is_of_class(
            ByteClass::LowerHex,
            hex,
        ) {
            return Err(
                ArtifactError::reference(
                    "artifact digest must use a 1..=32 character lowercase alphanumeric algorithm and a 1..=256 character lowercase hexadecimal value",
                ),
            );
        }
        Ok(())
    }
}

/// Immutable origin metadata for an artifact derived by an explicit transfer.
#[derive(Debug, PartialEq, Eq)]
pub struct ArtifactLineage {
    /// Original owning session.
    pub session: SessionId,
    /// Original artifact id.
    pub id: ArtifactId,
    /// Original cryptographic content digest.
    pub digest: ArtifactDigest,
}

/// What a [`ArtifactLineage`] holds.
pub struct ArtifactLineageView {
    pub session: Seq<char>,
    pub id: Seq<char>,
    pub digest: ArtifactDigestView,
}

impl DeepView for ArtifactLineage {
    type V = ArtifactLineageView;

    open spec fn deep_view(&self) -> ArtifactLineageView {
        ArtifactLineageView {
            session: self.session.deep_view(),
            id: self.id.deep_view(),
            digest: self.digest.deep_view(),
        }
    }
}

impl View for ArtifactLineage {
    type V = ArtifactLineageView;

    open spec fn view(&self) -> ArtifactLineageView {
        self.deep_view()
    }
}

impl Record for ArtifactLineage {
    fn same(&self, other: &Self) -> (r: bool) {
        self.session.same(&other.session)
            && self.id.same(&other.id)
            && self.digest.same(&other.digest)
    }

    fn copied(&self) -> (r: Self) {
        ArtifactLineage {
            session: self.session.copied(),
            id: self.id.copied(),
            digest: self.digest.copied(),
        }
    }
}

impl Clone for ArtifactLineage {
    fn clone(&self) -> (r: Self)
        ensures
            r@ == self@,
    {
        self.copied()
    }
}

/// Content handling required for one artifact.
#[derive(Debug, Clone, Copy, PartialEq, Eq, Structural)]
pub enum ArtifactSensitivity {
    /// Content is safe for ordinary user-visible projection.
    Public,
    /// Content may be persisted only by a protected store and is omitted from
    /// default observability.
    Sensitive,
    /// Content requires the host's strongest secret-content policy.
    Secret,
}

impl DeepView for ArtifactSensitivity {
    type V = ArtifactSensitivity;

    open spec fn deep_view(&self) -> ArtifactSensitivity {
        *self
    }
}

impl Record for ArtifactSensitivity {
    fn same(&self, other: &Self) -> (r: bool) {
        *self == *other
    }

    fn copied(&self) -> (r: Self) {
        *self
    }
}

/// Host-enforced retention posture.
#[derive(Debug, Clone, Copy, PartialEq, Eq, Structural)]
pub enum ArtifactRetention {
    /// Delete when the owning session is retired.
    Session,
    /// Delete after the owning turn no longer needs recovery.
    Turn,
    /// A host policy owns expiry and must report that policy in provenance.
    HostPolicy,
}

impl DeepView for ArtifactRetention {
    type V = ArtifactRetention;

    open spec fn deep_view(&self) -> ArtifactRetention {
        *self
    }
}

impl Record for ArtifactRetention {
    fn same(&self, other: &Self) -> (r: bool) {
        *self == *other
    }

    fn copied(&self) -> (r: Self) {
        *self
    }
}

/// Exact provenance recorded with stored content.
#[derive(Debug, PartialEq, Eq)]
pub struct ArtifactProvenance {
    /// Owning session.
    pub session: SessionId,
    /// Producing turn, when applicable.
    pub turn: Option<TurnId>,
    /// Producing tool call, when applicable.
    pub call: Option<ToolCallId>,
    /// Bounded host-neutral purpose label.
    pub purpose: String,
    /// Original artifact when this value was explicitly copied across an
    /// ownership boundary.
    pub derived_from: Option<ArtifactLineage>,
}

/// What a [`ArtifactProvenance`] holds.
pub struct ArtifactProvenanceView {
    pub session: Seq<char>,
    pub turn: Option<Seq<char>>,
    pub call: Option<Seq<char>>,
    pub purpose: Seq<char>,
    pub derived_from: Option<ArtifactLineageView>,
}

impl DeepView for ArtifactProvenance {
    type V = ArtifactProvenanceView;

    open spec fn deep_view(&self) -> ArtifactProvenanceView {
        ArtifactProvenanceView {
            session: self.session.deep_view(),
            turn: self.turn.deep_view(),
            call: self.call.deep_view(),
            purpose: self.purpose.deep_view(),
            derived_from: self.derived_from.deep_view(),
        }
    }
}

impl View for ArtifactProvenance {
    type V = ArtifactProvenanceView;

    open spec fn view(&self) -> ArtifactProvenanceView {
        self.deep_view()
    }
}

impl Record for ArtifactProvenance {
    fn same(&self, other: &Self) -> (r: bool) {
        self.session.same(&other.session)
            && self.turn.same(&other.turn)
            && self.call.same(&other.call)
            && self.purpose.same(&other.purpose)
            && self.derived_from.same(&other.derived_from)
    }

    fn copied(&self) -> (r: Self) {
        ArtifactProvenance {
            session: self.session.copied(),
            turn: self.turn.copied(),
            call: self.call.copied(),
            purpose: self.purpose.copied(),
            derived_from: self.derived_from.copied(),
        }
    }
}

impl Clone for ArtifactProvenance {
    fn clone(&self) -> (r: Self)
        ensures
            r@ == self@,
    {
        self.copied()
    }
}

/// A label, cut off at the bound for purposes.
pub open spec fn bounded_purpose(purpose: Seq<char>) -> Seq<char> {
    if purpose.len() <= MAX_ARTIFACT_PURPOSE_CHARS {
        purpose
    } else {
        purpose.subrange(0, MAX_ARTIFACT_PURPOSE_CHARS as int)
    }
}

/// Session-scoped provenance.
pub open spec fn owned_by(session: Seq<char>, purpose: Seq<char>) -> ArtifactProvenanceView {
    ArtifactProvenanceView {
        session,
        turn: None,
        call: None,
        purpose: bounded_purpose(purpose),
        derived_from: None,
    }
}

impl ArtifactProvenance {
    /// Creates session-scoped provenance. A purpose over its bound is cut off.
    pub fn new(session: SessionId, purpose: &str) -> (r: ArtifactProvenance)
        ensures
            r@ == owned_by(session@, purpose@),
    {
        let bounded = if purpose.unicode_len() <= MAX_ARTIFACT_PURPOSE_CHARS {
            purpose
        } else {
            purpose.substring_char(0, MAX_ARTIFACT_PURPOSE_CHARS)
        };
        ArtifactProvenance {
            session,
            turn: None,
            call: None,
            purpose: bounded.to_owned(),
            derived_from: None,
        }
    }

    /// Attributes the artifact to a turn.
    pub fn with_turn(self, turn: TurnId) -> (r: ArtifactProvenance)
        ensures
            r@ == (ArtifactProvenanceView { turn: Some(turn@), ..self@ }),
    {
        let mut r = self;
        r.turn = Some(turn);
        r
    }

    /// Attributes the artifact to a tool call.
    pub fn with_call(self, call: ToolCallId) -> (r: ArtifactProvenance)
        ensures
            r@ == (ArtifactProvenanceView { call: Some(call@), ..self@ }),
    {
        let mut r = self;
        r.call = Some(call);
        r
    }

    /// Records the immutable source of an explicit ownership transfer.
    pub fn with_derived_from(self, source: ArtifactLineage) -> (r: ArtifactProvenance)
        ensures
            r@ == (ArtifactProvenanceView { derived_from: Some(source@), ..self@ }),
    {
        let mut r = self;
        r.derived_from = Some(source);
        r
    }
}

/// Metadata returned for a successfully stored artifact.
#[derive(Debug, PartialEq, Eq)]
pub struct ArtifactRef {
    /// Opaque store-local id.
    pub id: ArtifactId,
    /// Cryptographic content digest.
    pub digest: ArtifactDigest,
    /// Exact media type.
    pub media_type: String,
    /// Stored byte length.
    pub byte_length: u64,
    /// Content sensitivity.
    pub sensitivity: ArtifactSensitivity,
    /// Retention posture.
    pub retention: ArtifactRetention,
    /// Producing provenance.
    pub provenance: ArtifactProvenance,
}

/// What a [`ArtifactRef`] holds.
pub struct ArtifactRefView {
    pub id: Seq<char>,
    pub digest: ArtifactDigestView,
    pub media_type: Seq<char>,
    pub byte_length: u64,
    pub sensitivity: ArtifactSensitivity,
    pub retention: ArtifactRetention,
    pub provenance: ArtifactProvenanceView,
}

impl DeepView for ArtifactRef {
    type V = ArtifactRefView;

    open spec fn deep_view(&self) -> ArtifactRefView {
        ArtifactRefView {
            id: self.id.deep_view(),
            digest: self.digest.deep_view(),
            media_type: self.media_type.deep_view(),
            byte_length: self.byte_length.deep_view(),
            sensitivity: self.sensitivity.deep_view(),
            retention: self.retention.deep_view(),
            provenance: self.provenance.deep_view(),
        }
    }
}

impl View for ArtifactRef {
    type V = ArtifactRefView;

    open spec fn view(&self) -> ArtifactRefView {
        self.deep_view()
    }
}

impl Record for ArtifactRef {
    fn same(&self, other: &Self) -> (r: bool) {
        self.id.same(&other.id)
            && self.digest.same(&other.digest)
            && self.media_type.same(&other.media_type)
            && self.byte_length.same(&other.byte_length)
            && self.sensitivity.same(&other.sensitivity)
            && self.retention.same(&other.retention)
            && self.provenance.same(&other.provenance)
    }

    fn copied(&self) -> (r: Self) {
        ArtifactRef {
            id: self.id.copied(),
            digest: self.digest.copied(),
            media_type: self.media_type.copied(),
            byte_length: self.byte_length.copied(),
            sensitivity: self.sensitivity.copied(),
            retention: self.retention.copied(),
            provenance: self.provenance.copied(),
        }
    }
}

impl Clone for ArtifactRef {
    fn clone(&self) -> (r: Self)
        ensures
            r@ == self@,
    {
        self.copied()
    }
}

/// What is wrong with a lineage, if anything.
pub open spec fn lineage_fault(lineage: Option<ArtifactLineageView>) -> Option<ArtifactErrorView> {
    match lineage {
        None => None,
        Some(source) => if source.session.len() == 0 {
            Some(bad_reference("artifact lineage has an empty source session"@))
        } else if id_fault(source.id) is Some {
            id_fault(source.id)
        } else {
            source.digest.fault()
        },
    }
}

impl ArtifactRefView {
    /// What is wrong with the reference, if anything: the first of its id, its
    /// digest, its media type, its provenance, and its lineage.
    pub open spec fn fault(self) -> Option<ArtifactErrorView> {
        if id_fault(self.id) is Some {
            id_fault(self.id)
        } else if self.digest.fault() is Some {
            self.digest.fault()
        } else if !(1 <= self.media_type.len() <= MAX_ARTIFACT_MEDIA_TYPE_CHARS) {
            Some(bad_reference("media type must contain 1..=127 characters"@))
        } else if self.provenance.session.len() == 0 {
            Some(bad_reference("artifact provenance has an empty owning session"@))
        } else if !(1 <= self.provenance.purpose.len() <= MAX_ARTIFACT_PURPOSE_CHARS) {
            Some(bad_reference("artifact purpose must contain 1..=96 characters"@))
        } else {
            lineage_fault(self.provenance.derived_from)
        }
    }
}

impl ArtifactLineage {
    fn validate(&self) -> (r: Result<(), ArtifactError>)
        ensures
            artifact_outcome(r) == lineage_fault(Some(self@)),
    {
        if self.session.as_str().unicode_len() == 0 {
            return Err(ArtifactError::reference("artifact lineage has an empty source session"));
        }
        if let Err(e) = self.id.validate() {
            return Err(e);
        }
        self.digest.validate()
    }
}

impl ArtifactRef {
    /// Validates the internally consistent public reference metadata.
    pub fn validate(&self) -> (r: Result<(), ArtifactError>)
        ensures
            artifact_outcome(r) == self@.fault(),
    {
        if let Err(e) = self.id.validate() {
            return Err(e);
        }
        if let Err(e) = self.digest.validate() {
            return Err(e);
        }
        let media: usize = self.media_type.as_str().unicode_len();
        if media == 0 || media > MAX_ARTIFACT_MEDIA_TYPE_CHARS {
            return Err(ArtifactError::reference("media type must contain 1..=127 characters"));
        }
        if self.provenance.session.as_str().unicode_len() == 0 {
            return Err(
                ArtifactError::reference("artifact provenance has an empty owning session"),
            );
        }
        let purpose: usize = self.provenance.purpose.as_str().unicode_len();
        if purpose == 0 || purpose > MAX_ARTIFACT_PURPOSE_CHARS {
            return Err(
                ArtifactError::reference("artifact purpose must contain 1..=96 characters"),
            );
        }
        match &self.provenance.derived_from {
            Some(source) => source.validate(),
            None => Ok(()),
        }
    }
}

/// Exact content submitted to an artifact store. It has no debug form, which would
/// show the bytes.
#[derive(PartialEq, Eq)]
pub struct ArtifactWrite {
    /// Exact bytes to store.
    pub bytes: Vec<u8>,
    /// Media type for those bytes.
    pub media_type: String,
    /// Handling requirement.
    pub sensitivity: ArtifactSensitivity,
    /// Retention posture.
    pub retention: ArtifactRetention,
    /// Exact provenance and owner.
    pub provenance: ArtifactProvenance,
    /// Stable idempotency key for retrying this store operation.
    pub idempotency_key: String,
}

/// What a [`ArtifactWrite`] holds.
pub struct ArtifactWriteView {
    pub bytes: Seq<u8>,
    pub media_type: Seq<char>,
    pub sensitivity: ArtifactSensitivity,
    pub retention: ArtifactRetention,
    pub provenance: ArtifactProvenanceView,
    pub idempotency_key: Seq<char>,
}

impl DeepView for ArtifactWrite {
    type V = ArtifactWriteView;

    open spec fn deep_view(&self) -> ArtifactWriteView {
        ArtifactWriteView {
            bytes: self.bytes.deep_view(),
            media_type: self.media_type.deep_view(),
            sensitivity: self.sensitivity.deep_view(),
            retention: self.retention.deep_view(),
            provenance: self.provenance.deep_view(),
            idempotency_key: self.idempotency_key.deep_view(),
        }
    }
}

impl View for ArtifactWrite {
    type V = ArtifactWriteView;

    open spec fn view(&self) -> ArtifactWriteView {
        self.deep_view()
    }
}

impl Record for ArtifactWrite {
    fn same(&self, other: &Self) -> (r: bool) {
        self.bytes.same(&other.bytes)
            && self.media_type.same(&other.media_type)
            && self.sensitivity.same(&other.sensitivity)
            && self.retention.same(&other.retention)
            && self.provenance.same(&other.provenance)
            && self.idempotency_key.same(&other.idempotency_key)
    }

    fn copied(&self) -> (r: Self) {
        ArtifactWrite {
            bytes: self.bytes.copied(),
            media_type: self.media_type.copied(),
            sensitivity: self.sensitivity.copied(),
            retention: self.retention.copied(),
            provenance: self.provenance.copied(),
            idempotency_key: self.idempotency_key.copied(),
        }
    }
}

impl Clone for ArtifactWrite {
    fn clone(&self) -> (r: Self)
        ensures
            r@ == self@,
    {
        self.copied()
    }
}

/// Explicit, bounded copy of one artifact into another session's ownership.
///
/// This request is host-only: a model-provided reference cannot invoke it.
#[derive(Debug, PartialEq, Eq)]
pub struct ArtifactTransfer {
    /// Exact verified source reference.
    pub source: ArtifactRef,
    /// New owning session.
    pub target_session: SessionId,
    /// Bounded reason for the ownership change.
    pub purpose: String,
    /// Stable key making a repeated safe-boundary delivery idempotent.
    pub idempotency_key: String,
}

/// What a [`ArtifactTransfer`] holds.
pub struct ArtifactTransferView {
    pub source: ArtifactRefView,
    pub target_session: Seq<char>,
    pub purpose: Seq<char>,
    pub idempotency_key: Seq<char>,
}

impl DeepView for ArtifactTransfer {
    type V = ArtifactTransferView;

    open spec fn deep_view(&self) -> ArtifactTransferView {
        ArtifactTransferView {
            source: self.source.deep_view(),
            target_session: self.target_session.deep_view(),
            purpose: self.purpose.deep_view(),
            idempotency_key: self.idempotency_key.deep_view(),
        }
    }
}

impl View for ArtifactTransfer {
    type V = ArtifactTransferView;

    open spec fn view(&self) -> ArtifactTransferView {
        self.deep_view()
    }
}

impl Record for ArtifactTransfer {
    fn same(&self, other: &Self) -> (r: bool) {
        self.source.same(&other.source)
            && self.target_session.same(&other.target_session)
            && self.purpose.same(&other.purpose)
            && self.idempotency_key.same(&other.idempotency_key)
    }

    fn copied(&self) -> (r: Self) {
        ArtifactTransfer {
            source: self.source.copied(),
            target_session: self.target_session.copied(),
            purpose: self.purpose.copied(),
            idempotency_key: self.idempotency_key.copied(),
        }
    }
}

impl Clone for ArtifactTransfer {
    fn clone(&self) -> (r: Self)
        ensures
            r@ == self@,
    {
        self.copied()
    }
}

impl ArtifactTransferView {
    /// What is wrong with the transfer, if anything: the first of its source,
    /// its sessions, its purpose, its key, and its size.
    pub open spec fn fault(self) -> Option<ArtifactErrorView> {
        if self.source.fault() is Some {
            self.source.fault()
        } else if self.target_session.len() == 0 || self.target_session
            == self.source.provenance.session {
            Some(
                bad_reference("artifact transfer requires two distinct non-empty sessions"@),
            )
        } else if !(1 <= self.purpose.len() <= MAX_ARTIFACT_PURPOSE_CHARS) {
            Some(bad_reference("artifact transfer purpose must contain 1..=96 characters"@))
        } else if !(1 <= encode_utf8(self.idempotency_key).len() <= 256) {
            Some(bad_reference("artifact transfer idempotency key must contain 1..=256 bytes"@))
        } else if self.source.byte_length > MAX_ARTIFACT_TRANSFER_BYTES {
            Some(bad_range("artifact transfer exceeds the 8388608-byte standard bound"@))
        } else {
            None
        }
    }

    /// The provenance of the copy: owned by the target session, derived from
    /// the source.
    pub open spec fn target_provenance(self) -> ArtifactProvenanceView {
        ArtifactProvenanceView {
            derived_from: Some(
                ArtifactLineageView {
                    session: self.source.provenance.session,
                    id: self.source.id,
                    digest: self.source.digest,
                },
            ),
            ..owned_by(self.target_session, self.purpose)
        }
    }

    /// The copy of `bytes` that the store is asked for.
    pub open spec fn write(self, bytes: Seq<u8>) -> ArtifactWriteView {
        ArtifactWriteView {
            bytes,
            media_type: self.source.media_type,
            sensitivity: self.source.sensitivity,
            retention: self.source.retention,
            provenance: self.target_provenance(),
            idempotency_key: self.idempotency_key,
        }
    }

    /// What is wrong with the reference that a store gave for the copy, if
    /// anything.
    pub open spec fn target_fault(self, reference: ArtifactRefView) -> Option<ArtifactErrorView> {
        if reference.fault() is Some {
            reference.fault()
        } else if reference.byte_length != self.source.byte_length || reference.digest
            != self.source.digest || reference.media_type != self.source.media_type
            || reference.sensitivity != self.source.sensitivity || reference.retention
            != self.source.retention || reference.provenance != self.target_provenance() {
            Some(broken("artifact transfer destination metadata does not match the source"@))
        } else {
            None
        }
    }
}

impl ArtifactTransfer {
    /// Validates the ownership boundary and allocation bound.
    pub fn validate(&self) -> (r: Result<(), ArtifactError>)
        ensures
            artifact_outcome(r) == self@.fault(),
    {
        if let Err(e) = self.source.validate() {
            return Err(e);
        }
        if self.target_session.as_str().unicode_len() == 0 || self.target_session.same(
            &self.source.provenance.session,
        ) {
            return Err(
                ArtifactError::reference(
                    "artifact transfer requires two distinct non-empty sessions",
                ),
            );
        }
        let purpose: usize = self.purpose.as_str().unicode_len();
        if purpose == 0 || purpose > MAX_ARTIFACT_PURPOSE_CHARS {
            return Err(
                ArtifactError::reference(
                    "artifact transfer purpose must contain 1..=96 characters",
                ),
            );
        }
        let key: usize = byte_len(self.idempotency_key.as_str());
        if key == 0 || key > 256 {
            return Err(
                ArtifactError::reference(
                    "artifact transfer idempotency key must contain 1..=256 bytes",
                ),
            );
        }
        if self.source.byte_length > MAX_ARTIFACT_TRANSFER_BYTES {
            return Err(
                ArtifactError::range(
                    "artifact transfer exceeds the 8388608-byte standard bound",
                ),
            );
        }
        Ok(())
    }

    fn target_provenance(&self) -> (r: ArtifactProvenance)
        ensures
            r@ == self@.target_provenance(),
    {
        let lineage = ArtifactLineage {
            session: self.source.provenance.session.copied(),
            id: self.source.id.copied(),
            digest: self.source.digest.copied(),
        };
        ArtifactProvenance::new(
            self.target_session.copied(),
            self.purpose.as_str(),
        ).with_derived_from(lineage)
    }

    /// Accepts the reference that a store gave for the copy, if it is what was
    /// asked for.
    pub fn accept_target(&self, reference: ArtifactRef) -> (r: Result<ArtifactRef, ArtifactError>)
        ensures
            match r {
                Ok(accepted) => self@.target_fault(reference@) is None && accepted@ == reference@,
                Err(e) => self@.target_fault(reference@) == Some(e@),
            },
    {
        if let Err(e) = reference.validate() {
            return Err(e);
        }
        if reference.byte_length != self.source.byte_length || !reference.digest.same(
            &self.source.digest,
        ) || !reference.media_type.same(&self.source.media_type) || reference.sensitivity
            != self.source.sensitivity || reference.retention != self.source.retention
            || !reference.provenance.same(&self.target_provenance()) {
            return Err(
                ArtifactError::integrity(
                    "artifact transfer destination metadata does not match the source",
                ),
            );
        }
        Ok(reference)
    }
}

/// One bounded, attributed read request.
#[derive(Debug, PartialEq, Eq)]
pub struct ArtifactRead {
    /// Session requesting access. Knowing a reference is not authorization.
    pub session: SessionId,
    /// Opaque artifact id to read.
    pub id: ArtifactId,
    /// Zero-based byte offset.
    pub offset: u64,
    /// Requested byte count, capped by [`MAX_ARTIFACT_READ_BYTES`].
    pub limit: u32,
}

/// What a [`ArtifactRead`] holds.
pub struct ArtifactReadView {
    pub session: Seq<char>,
    pub id: Seq<char>,
    pub offset: u64,
    pub limit: u32,
}

impl DeepView for ArtifactRead {
    type V = ArtifactReadView;

    open spec fn deep_view(&self) -> ArtifactReadView {
        ArtifactReadView {
            session: self.session.deep_view(),
            id: self.id.deep_view(),
            offset: self.offset.deep_view(),
            limit: self.limit.deep_view(),
        }
    }
}

impl View for ArtifactRead {
    type V = ArtifactReadView;

    open spec fn view(&self) -> ArtifactReadView {
        self.deep_view()
    }
}

impl Record for ArtifactRead {
    fn same(&self, other: &Self) -> (r: bool) {
        self.session.same(&other.session)
            && self.id.same(&other.id)
            && self.offset.same(&other.offset)
            && self.limit.same(&other.limit)
    }

    fn copied(&self) -> (r: Self) {
        ArtifactRead {
            session: self.session.copied(),
            id: self.id.copied(),
            offset: self.offset.copied(),
            limit: self.limit.copied(),
        }
    }
}

impl Clone for ArtifactRead {
    fn clone(&self) -> (r: Self)
        ensures
            r@ == self@,
    {
        self.copied()
    }
}

impl ArtifactReadView {
    /// What is wrong with the request, if anything.
    pub open spec fn fault(self) -> Option<ArtifactErrorView> {
        if id_fault(self.id) is Some {
            id_fault(self.id)
        } else if self.session.len() == 0 {
            Some(bad_reference("artifact read has an empty requesting session"@))
        } else if !(1 <= self.limit <= MAX_ARTIFACT_READ_BYTES) {
            Some(bad_range("artifact read limit must be in 1..=65536"@))
        } else {
            None
        }
    }
}

impl ArtifactRead {
    /// Validates bounds before the host store is called.
    pub fn validate(&self) -> (r: Result<(), ArtifactError>)
        ensures
            artifact_outcome(r) == self@.fault(),
    {
        if let Err(e) = self.id.validate() {
            return Err(e);
        }
        if self.session.as_str().unicode_len() == 0 {
            return Err(ArtifactError::reference("artifact read has an empty requesting session"));
        }
        if self.limit == 0 || self.limit > MAX_ARTIFACT_READ_BYTES {
            return Err(ArtifactError::range("artifact read limit must be in 1..=65536"));
        }
        Ok(())
    }
}

/// A bounded artifact page.
#[derive(Debug, PartialEq, Eq)]
pub struct ArtifactChunk {
    /// Verified metadata for the stored content.
    pub reference: ArtifactRef,
    /// Page bytes.
    pub bytes: Vec<u8>,
    /// Offset this page starts at.
    pub offset: u64,
    /// Offset for the next read, absent at end-of-file.
    pub next_offset: Option<u64>,
}

/// What a [`ArtifactChunk`] holds.
pub struct ArtifactChunkView {
    pub reference: ArtifactRefView,
    pub bytes: Seq<u8>,
    pub offset: u64,
    pub next_offset: Option<u64>,
}

impl DeepView for ArtifactChunk {
    type V = ArtifactChunkView;

    open spec fn deep_view(&self) -> ArtifactChunkView {
        ArtifactChunkView {
            reference: self.reference.deep_view(),
            bytes: self.bytes.deep_view(),
            offset: self.offset.deep_view(),
            next_offset: self.next_offset.deep_view(),
        }
    }
}

impl View for ArtifactChunk {
    type V = ArtifactChunkView;

    open spec fn view(&self) -> ArtifactChunkView {
        self.deep_view()
    }
}

impl Record for ArtifactChunk {
    fn same(&self, other: &Self) -> (r: bool) {
        self.reference.same(&other.reference)
            && self.bytes.same(&other.bytes)
            && self.offset.same(&other.offset)
            && self.next_offset.same(&other.next_offset)
    }

    fn copied(&self) -> (r: Self) {
        ArtifactChunk {
            reference: self.reference.copied(),
            bytes: self.bytes.copied(),
            offset: self.offset.copied(),
            next_offset: self.next_offset.copied(),
        }
    }
}

impl Clone for ArtifactChunk {
    fn clone(&self) -> (r: Self)
        ensures
            r@ == self@,
    {
        self.copied()
    }
}

impl ArtifactChunkView {
    /// Where the page ends, or the largest offset there is.
    pub open spec fn end(self) -> u64 {
        if self.offset + self.bytes.len() <= u64::MAX {
            (self.offset + self.bytes.len()) as u64
        } else {
            u64::MAX
        }
    }

    /// What is wrong with the page as an answer to `request`, if anything: the
    /// first of its reference, its bounds, and its pagination.
    pub open spec fn fault_for(self, request: ArtifactReadView) -> Option<ArtifactErrorView> {
        if self.reference.fault() is Some {
            self.reference.fault()
        } else if self.reference.id != request.id {
            Some(broken("artifact store returned metadata for a different artifact"@))
        } else if self.offset != request.offset || self.bytes.len() > request.limit {
            Some(broken("artifact store returned a page outside the requested bounds"@))
        } else if self.end() > self.reference.byte_length || (self.next_offset matches Some(next)
            && (next != self.end() || next >= self.reference.byte_length)) {
            Some(broken("artifact store returned inconsistent pagination metadata"@))
        } else if self.end() < self.reference.byte_length && self.next_offset is None {
            Some(
                broken(
                    "artifact store ended a page before end-of-file without a next offset"@,
                ),
            )
        } else {
            None
        }
    }
}

impl ArtifactChunk {
    /// Validates a store result against its request.
    pub fn validate_for(&self, request: &ArtifactRead) -> (r: Result<(), ArtifactError>)
        ensures
            artifact_outcome(r) == self@.fault_for(request@),
    {
        if let Err(e) = self.reference.validate() {
            return Err(e);
        }
        if !self.reference.id.same(&request.id) {
            return Err(
                ArtifactError::integrity(
                    "artifact store returned metadata for a different artifact",
                ),
            );
        }
        if self.offset != request.offset || self.bytes.len() > request.limit as usize {
            return Err(
                ArtifactError::integrity(
                    "artifact store returned a page outside the requested bounds",
                ),
            );
        }
        let end: u64 = self.offset.saturating_add(self.bytes.len() as u64);
        let skips = match self.next_offset {
            Some(next) => next != end || next >= self.reference.byte_length,
            None => false,
        };
        if end > self.reference.byte_length || skips {
            return Err(
                ArtifactError::integrity(
                    "artifact store returned inconsistent pagination metadata",
                ),
            );
        }
        if end < self.reference.byte_length && self.next_offset.is_none() {
            return Err(
                ArtifactError::integrity(
                    "artifact store ended a page before end-of-file without a next offset",
                ),
            );
        }
        Ok(())
    }
}

/// How far the copy of an artifact has come: a validated transfer, and the bytes
/// read so far.
#[derive(PartialEq, Eq)]
pub struct TransferProgress {
    transfer: ArtifactTransfer,
    bytes: Vec<u8>,
}

/// What a [`TransferProgress`] holds.
pub struct TransferProgressView {
    pub transfer: ArtifactTransferView,
    pub bytes: Seq<u8>,
}

impl DeepView for TransferProgress {
    type V = TransferProgressView;

    closed spec fn deep_view(&self) -> TransferProgressView {
        TransferProgressView {
            transfer: self.transfer.deep_view(),
            bytes: self.bytes.deep_view(),
        }
    }
}

impl View for TransferProgress {
    type V = TransferProgressView;

    open spec fn view(&self) -> TransferProgressView {
        self.deep_view()
    }
}

impl Record for TransferProgress {
    fn same(&self, other: &Self) -> (r: bool) {
        self.transfer.same(&other.transfer)
            && self.bytes.same(&other.bytes)
    }

    fn copied(&self) -> (r: Self) {
        proof {
            use_type_invariant(self);
        }
        TransferProgress {
            transfer: self.transfer.copied(),
            bytes: self.bytes.copied(),
        }
    }
}

impl Clone for TransferProgress {
    fn clone(&self) -> (r: Self)
        ensures
            r@ == self@,
    {
        self.copied()
    }
}

impl TransferProgressView {
    /// Whether all bytes were read.
    pub open spec fn is_complete(self) -> bool {
        self.bytes.len() == self.transfer.source.byte_length
    }

    /// Whether this is the progress of a valid transfer.
    pub open spec fn is_valid(self) -> bool {
        &&& self.transfer.fault() is None
        &&& self.bytes.len() <= self.transfer.source.byte_length
    }

    /// The page to read next: on behalf of the source's owner, from where the
    /// last page ended, as much as is left and one read may ask for.
    pub open spec fn request(self) -> ArtifactReadView {
        let left = self.transfer.source.byte_length - self.bytes.len();
        ArtifactReadView {
            session: self.transfer.source.provenance.session,
            id: self.transfer.source.id,
            offset: self.bytes.len() as u64,
            limit: if left < MAX_ARTIFACT_READ_BYTES {
                left as u32
            } else {
                MAX_ARTIFACT_READ_BYTES
            },
        }
    }

    /// What is wrong with a page as the next one, if anything.
    pub open spec fn page_fault(self, chunk: ArtifactChunkView) -> Option<ArtifactErrorView> {
        if chunk.fault_for(self.request()) is Some {
            chunk.fault_for(self.request())
        } else if chunk.reference != self.transfer.source {
            Some(broken("artifact transfer source metadata changed while reading"@))
        } else if chunk.bytes.len() == 0 {
            Some(broken("artifact transfer made no progress before end-of-file"@))
        } else {
            None
        }
    }

    /// The progress with one more page.
    pub open spec fn with_page(self, chunk: ArtifactChunkView) -> TransferProgressView {
        TransferProgressView { bytes: self.bytes + chunk.bytes, ..self }
    }
}

impl TransferProgress {
    #[verifier::type_invariant]
    spec fn is_within_the_source(self) -> bool {
        &&& self.transfer.deep_view().fault() is None
        &&& self.bytes.deep_view().len() <= self.transfer.deep_view().source.byte_length
    }

    /// Starts a transfer that is valid.
    pub fn start(transfer: ArtifactTransfer) -> (r: Result<TransferProgress, ArtifactError>)
        ensures
            match r {
                Ok(progress) => {
                    &&& transfer@.fault() is None
                    &&& progress@ == (TransferProgressView {
                        transfer: transfer@,
                        bytes: Seq::empty(),
                    })
                },
                Err(e) => transfer@.fault() == Some(e@),
            },
    {
        match transfer.validate() {
            Ok(()) => {
                let bytes: Vec<u8> = Vec::new();
                assert(bytes.deep_view() =~= Seq::<u8>::empty());
                Ok(TransferProgress { transfer, bytes })
            },
            Err(e) => Err(e),
        }
    }

    /// The page to read next, or nothing once all bytes were read.
    pub fn next_read(&self) -> (r: Option<ArtifactRead>)
        ensures
            self@.is_valid(),
            match r {
                Some(request) => !self@.is_complete() && request@ == self@.request(),
                None => self@.is_complete(),
            },
    {
        proof {
            use_type_invariant(self);
        }
        let offset: u64 = self.bytes.len() as u64;
        if offset >= self.transfer.source.byte_length {
            return None;
        }
        let left: u64 = self.transfer.source.byte_length - offset;
        let limit: u32 = if left < MAX_ARTIFACT_READ_BYTES as u64 {
            left as u32
        } else {
            MAX_ARTIFACT_READ_BYTES
        };
        Some(
            ArtifactRead {
                session: self.transfer.source.provenance.session.copied(),
                id: self.transfer.source.id.copied(),
                offset,
                limit,
            },
        )
    }

    /// Adds the page that a store gave for [`TransferProgress::next_read`].
    pub fn accept_page(self, chunk: ArtifactChunk) -> (r: Result<TransferProgress, ArtifactError>)
        requires
            !self@.is_complete(),
        ensures
            match r {
                Ok(progress) => {
                    &&& self@.page_fault(chunk@) is None
                    &&& progress@ == self@.with_page(chunk@)
                },
                Err(e) => self@.page_fault(chunk@) == Some(e@),
            },
    {
        proof {
            use_type_invariant(&self);
        }
        let request = match self.next_read() {
            Some(request) => request,
            None => {
                return Err(
                    ArtifactError::integrity(
                        "artifact transfer made no progress before end-of-file",
                    ),
                );
            },
        };
        if let Err(e) = chunk.validate_for(&request) {
            return Err(e);
        }
        if !chunk.reference.same(&self.transfer.source) {
            return Err(
                ArtifactError::integrity(
                    "artifact transfer source metadata changed while reading",
                ),
            );
        }
        if chunk.bytes.len() == 0 {
            return Err(
                ArtifactError::integrity("artifact transfer made no progress before end-of-file"),
            );
        }
        let ghost (before, page) = (self.bytes.deep_view(), chunk.bytes.deep_view());
        let mut bytes = self.bytes;
        let mut more = chunk.bytes;
        bytes.append(&mut more);
        assert(bytes.deep_view() =~= before + page);
        Ok(TransferProgress { transfer: self.transfer, bytes })
    }

    /// What to ask the store for once all bytes were read: the copy, under its
    /// new owner, with its lineage. The transfer comes along, to accept the
    /// store's answer by.
    pub fn finish(self) -> (r: (ArtifactTransfer, ArtifactWrite))
        requires
            self@.is_complete(),
        ensures
            r.0@ == self@.transfer,
            r.1@ == self@.transfer.write(self@.bytes),
    {
        let write = ArtifactWrite {
            bytes: self.bytes,
            media_type: self.transfer.source.media_type.copied(),
            sensitivity: self.transfer.source.sensitivity,
            retention: self.transfer.source.retention,
            provenance: self.transfer.target_provenance(),
            idempotency_key: self.transfer.idempotency_key.copied(),
        };
        (self.transfer, write)
    }
}

/// A page that is a valid answer continues the artifact exactly: it starts
/// where it was asked to, is no longer than was asked for, and is the last one
/// exactly when the artifact ends with it.
pub proof fn a_valid_page_is_contiguous(chunk: ArtifactChunkView, request: ArtifactReadView)
    requires
        chunk.fault_for(request) is None,
    ensures
        chunk.offset == request.offset,
        chunk.bytes.len() <= request.limit,
        chunk.end() <= chunk.reference.byte_length,
        chunk.next_offset == (if chunk.end() < chunk.reference.byte_length {
            Some(chunk.end())
        } else {
            None
        }),
{
}

/// Every accepted page brings the transfer on, and never over the end, so a
/// transfer takes no more pages than the artifact has bytes.
pub proof fn a_transfer_makes_progress(progress: TransferProgressView, chunk: ArtifactChunkView)
    requires
        progress.is_valid(),
        !progress.is_complete(),
        progress.page_fault(chunk) is None,
    ensures
        progress.with_page(chunk).is_valid(),
        progress.bytes.len() < progress.with_page(chunk).bytes.len()
            <= progress.transfer.source.byte_length,
        progress.with_page(chunk).transfer == progress.transfer,
{
}

/// A transfer never asks for a page out of bounds.
pub proof fn a_transfer_reads_within_bounds(progress: TransferProgressView)
    requires
        progress.is_valid(),
        !progress.is_complete(),
    ensures
        progress.request().fault() is None,
        progress.request().offset + progress.request().limit
            <= progress.transfer.source.byte_length,
        progress.request().session == progress.transfer.source.provenance.session,
{
}

/// A transfer copies what the source holds: where each page is what `content`
/// holds there, what was read so far is the beginning of `content`, and all of
/// it once the transfer is complete.
pub proof fn a_transfer_copies_the_content(
    progress: TransferProgressView,
    chunk: ArtifactChunkView,
    content: Seq<u8>,
)
    requires
        progress.is_valid(),
        !progress.is_complete(),
        content.len() == progress.transfer.source.byte_length,
        progress.bytes == content.subrange(0, progress.bytes.len() as int),
        progress.page_fault(chunk) is None,
        chunk.bytes == content.subrange(chunk.offset as int, chunk.end() as int),
    ensures
        ({
            let after = progress.with_page(chunk);
            &&& after.bytes == content.subrange(0, after.bytes.len() as int)
            &&& after.is_complete() ==> after.bytes == content
        }),
{
    let after = progress.with_page(chunk);
    assert(after.bytes =~= content.subrange(0, after.bytes.len() as int));
    if after.is_complete() {
        assert(content.subrange(0, content.len() as int) =~= content);
    }
}

/// An accepted copy belongs to the target session, is the same content by
/// digest and length, and names the source it came from.
pub proof fn a_copy_changes_owner_and_keeps_its_lineage(
    transfer: ArtifactTransferView,
    reference: ArtifactRefView,
)
    requires
        transfer.fault() is None,
        transfer.target_fault(reference) is None,
    ensures
        reference.provenance.session == transfer.target_session,
        reference.provenance.session != transfer.source.provenance.session,
        reference.digest == transfer.source.digest,
        reference.byte_length == transfer.source.byte_length,
        reference.provenance.derived_from == Some(
            ArtifactLineageView {
                session: transfer.source.provenance.session,
                id: transfer.source.id,
                digest: transfer.source.digest,
            },
        ),
{
}

/// Whether the text has from one to `most` characters.
pub open spec fn has_chars_up_to(text: Seq<char>, most: nat) -> bool {
    1 <= text.len() <= most
}

/// Whether the digest is one: a short lower-case alphanumeric algorithm and a
/// lower-case hexadecimal value.
pub open spec fn is_a_digest(digest: ArtifactDigestView) -> bool {
    let (algorithm, hex) = (encode_utf8(digest.algorithm), encode_utf8(digest.hex));
    &&& has_chars_up_to(digest.algorithm, 32)
    &&& forall|i: int|
        0 <= i < algorithm.len() ==> (0x61 <= #[trigger] algorithm[i] <= 0x7a || 0x30
            <= algorithm[i] <= 0x39)
    &&& has_chars_up_to(digest.hex, 256)
    &&& forall|i: int|
        0 <= i < hex.len() ==> (0x61 <= #[trigger] hex[i] <= 0x66 || 0x30 <= hex[i] <= 0x39)
}

/// Whether the reference is one of a stored artifact: everything that names it or its
/// owner is there and bounded, and so is what it was derived from.
pub open spec fn is_a_reference(reference: ArtifactRefView) -> bool {
    &&& has_chars_up_to(reference.id, 160)
    &&& is_a_digest(reference.digest)
    &&& has_chars_up_to(reference.media_type, 127)
    &&& reference.provenance.session.len() > 0
    &&& has_chars_up_to(reference.provenance.purpose, 96)
    &&& reference.provenance.derived_from matches Some(source) ==> {
        &&& source.session.len() > 0
        &&& has_chars_up_to(source.id, 160)
        &&& is_a_digest(source.digest)
    }
}

proof fn lemma_digest(digest: ArtifactDigestView)
    ensures
        digest.fault() is None <==> is_a_digest(digest),
{
    let (algorithm, hex) = (encode_utf8(digest.algorithm), encode_utf8(digest.hex));
    if digest.is_well_formed() {
        assert forall|i: int| 0 <= i < algorithm.len() implies (0x61 <= #[trigger] algorithm[i]
            <= 0x7a || 0x30 <= algorithm[i] <= 0x39) by {
            assert(crate::text::in_class(
                ByteClass::LowerAlphanumeric,
                encode_utf8(digest.algorithm)[i],
            ));
        }
        assert forall|i: int| 0 <= i < hex.len() implies (0x61 <= #[trigger] hex[i] <= 0x66 || 0x30
            <= hex[i] <= 0x39) by {
            assert(crate::text::in_class(ByteClass::LowerHex, encode_utf8(digest.hex)[i]));
        }
    }
    if is_a_digest(digest) {
        assert forall|i: int| 0 <= i < encode_utf8(digest.algorithm).len() implies
            crate::text::in_class(
            ByteClass::LowerAlphanumeric,
            #[trigger] encode_utf8(digest.algorithm)[i],
        ) by {
            assert(0x61 <= algorithm[i] <= 0x7a || 0x30 <= algorithm[i] <= 0x39);
        }
        assert forall|i: int| 0 <= i < encode_utf8(digest.hex).len() implies
            crate::text::in_class(ByteClass::LowerHex, #[trigger] encode_utf8(digest.hex)[i]) by {
            assert(0x61 <= hex[i] <= 0x66 || 0x30 <= hex[i] <= 0x39);
        }
    }
}

/// An id is valid exactly when it has from 1 to 160 characters, and a digest exactly
/// when it is one; any other is an invalid reference.
pub proof fn ids_and_digests_are_bounded(id: Seq<char>, digest: ArtifactDigestView)
    ensures
        id_fault(id) is None <==> has_chars_up_to(id, 160),
        id_fault(id) matches Some(e) ==> e is InvalidReference,
        digest.fault() is None <==> is_a_digest(digest),
        digest.fault() matches Some(e) ==> e is InvalidReference,
{
    lemma_digest(digest);
}

/// A reference is valid exactly when everything that names it or its owner is there
/// and bounded, and so is what it was derived from.
pub proof fn a_reference_is_valid_exactly_when_bounded(reference: ArtifactRefView)
    ensures
        reference.fault() is None <==> is_a_reference(reference),
        reference.fault() matches Some(e) ==> e is InvalidReference,
{
    lemma_digest(reference.digest);
    if let Some(source) = reference.provenance.derived_from {
        lemma_digest(source.digest);
    }
}

/// A transfer is valid exactly when its source is, it goes from one session to another,
/// its purpose and its key are there and bounded, and the artifact has at most 8 MiB.
/// Only an artifact that is too large is told of as a range.
pub proof fn a_transfer_is_valid_exactly_between_two_sessions(transfer: ArtifactTransferView)
    ensures
        transfer.fault() is None <==> {
            &&& is_a_reference(transfer.source)
            &&& transfer.target_session.len() > 0
            &&& transfer.target_session != transfer.source.provenance.session
            &&& has_chars_up_to(transfer.purpose, 96)
            &&& 1 <= encode_utf8(transfer.idempotency_key).len() <= 256
            &&& transfer.source.byte_length <= 8388608
        },
        transfer.fault() matches Some(e) ==> {
            &&& e is InvalidReference || e is InvalidRange
            &&& e is InvalidRange ==> transfer.source.byte_length > 8388608
        },
{
    a_reference_is_valid_exactly_when_bounded(transfer.source);
}

/// A read is valid exactly when it names an artifact and a session and asks for from
/// one byte to 64 KiB.
pub proof fn a_read_is_valid_exactly_when_bounded(request: ArtifactReadView)
    ensures
        request.fault() is None <==> {
            &&& has_chars_up_to(request.id, 160)
            &&& request.session.len() > 0
            &&& 1 <= request.limit <= 65536
        },
        request.fault() matches Some(e) ==> {
            &&& e is InvalidReference || e is InvalidRange
            &&& e is InvalidRange ==> !(1 <= request.limit <= 65536)
        },
{
}

/// A page answers a read exactly when its reference is valid and of that artifact, it
/// starts where it was asked to, is no longer than was asked for, ends within the
/// artifact, and names the place where the next one starts exactly where there is one.
pub proof fn a_page_answers_exactly_what_was_asked(
    chunk: ArtifactChunkView,
    request: ArtifactReadView,
)
    requires
        chunk.offset + chunk.bytes.len() <= u64::MAX,
    ensures
        chunk.fault_for(request) is None <==> {
            let end = chunk.offset + chunk.bytes.len();
            &&& is_a_reference(chunk.reference)
            &&& chunk.reference.id == request.id
            &&& chunk.offset == request.offset
            &&& chunk.bytes.len() <= request.limit
            &&& end <= chunk.reference.byte_length
            &&& chunk.next_offset is None <==> end == chunk.reference.byte_length
            &&& chunk.next_offset matches Some(next) ==> next == end
        },
        chunk.fault_for(request) matches Some(e) ==> (if is_a_reference(chunk.reference) {
            e is Integrity
        } else {
            e is InvalidReference
        }),
{
    a_reference_is_valid_exactly_when_bounded(chunk.reference);
}

/// A page whose end no number holds answers a read only where the artifact has as many
/// bytes as there are numbers for, and it is the last one.
pub proof fn a_page_beyond_all_numbers_is_the_last(
    chunk: ArtifactChunkView,
    request: ArtifactReadView,
)
    requires
        chunk.offset + chunk.bytes.len() > u64::MAX,
        chunk.fault_for(request) is None,
    ensures
        chunk.reference.byte_length == u64::MAX,
        chunk.next_offset is None,
{
}

/// The next read of a transfer continues where the bytes that it has end, for the session
/// that owns the source, and asks for as much as is left and one read may ask for.
pub proof fn a_transfer_reads_on_where_it_stopped(progress: TransferProgressView)
    requires
        progress.is_valid(),
        !progress.is_complete(),
    ensures
        ({
            let request = progress.request();
            let left = progress.transfer.source.byte_length - progress.bytes.len();
            &&& request.session == progress.transfer.source.provenance.session
            &&& request.id == progress.transfer.source.id
            &&& request.offset == progress.bytes.len()
            &&& 1 <= request.limit <= 65536
            &&& request.limit <= left
            &&& request.limit == left || request.limit == 65536
        }),
        progress.bytes.len() < progress.transfer.source.byte_length,
{
}

/// A transfer accepts a page exactly when it answers the next read, is not empty, and
/// still is of the very source; what it has then is what it had and the page.
pub proof fn a_transfer_accepts_the_next_page(
    progress: TransferProgressView,
    chunk: ArtifactChunkView,
)
    ensures
        progress.page_fault(chunk) is None <==> {
            &&& chunk.fault_for(progress.request()) is None
            &&& chunk.reference == progress.transfer.source
            &&& chunk.bytes.len() > 0
        },
        chunk.fault_for(progress.request()) is Some ==> progress.page_fault(chunk)
            == chunk.fault_for(progress.request()),
        chunk.fault_for(progress.request()) is None && progress.page_fault(chunk) is Some
            ==> progress.page_fault(chunk)->0 is Integrity,
        ({
            let after = progress.with_page(chunk);
            let had = progress.bytes.len();
            &&& after.transfer == progress.transfer
            &&& after.bytes.len() == had + chunk.bytes.len()
            &&& forall|i: int| 0 <= i < had ==> #[trigger] after.bytes[i] == progress.bytes[i]
            &&& forall|i: int|
                0 <= i < chunk.bytes.len() ==> after.bytes[had + i] == #[trigger] chunk.bytes[i]
        }),
        progress.is_complete() <==> progress.bytes.len() == progress.transfer.source.byte_length,
{
}

/// What a transfer writes is its bytes as the source is described, owned by the target
/// session for the purpose of the transfer, derived from the source, and of no turn or
/// call.
pub proof fn a_transfer_writes_what_it_read(transfer: ArtifactTransferView, bytes: Seq<u8>)
    requires
        transfer.fault() is None,
    ensures
        ({
            let written = transfer.write(bytes);
            let owner = written.provenance;
            &&& written.bytes == bytes
            &&& written.media_type == transfer.source.media_type
            &&& written.sensitivity == transfer.source.sensitivity
            &&& written.retention == transfer.source.retention
            &&& written.idempotency_key == transfer.idempotency_key
            &&& owner.session == transfer.target_session
            &&& owner.purpose == transfer.purpose
            &&& owner.turn is None
            &&& owner.call is None
            &&& owner.derived_from matches Some(source) && {
                &&& source.session == transfer.source.provenance.session
                &&& source.id == transfer.source.id
                &&& source.digest == transfer.source.digest
            }
        }),
{
}

/// The reference of a copy is accepted exactly when it is valid and describes what was
/// asked to be written: the same content, described the same, under its new owner.
pub proof fn a_copy_is_accepted_exactly_as_written(
    transfer: ArtifactTransferView,
    reference: ArtifactRefView,
    bytes: Seq<u8>,
)
    ensures
        transfer.target_fault(reference) is None <==> {
            let written = transfer.write(bytes);
            &&& is_a_reference(reference)
            &&& reference.byte_length == transfer.source.byte_length
            &&& reference.digest == transfer.source.digest
            &&& reference.media_type == written.media_type
            &&& reference.sensitivity == written.sensitivity
            &&& reference.retention == written.retention
            &&& reference.provenance == written.provenance
        },
        !is_a_reference(reference) ==> transfer.target_fault(reference) == reference.fault(),
        is_a_reference(reference) ==> (transfer.target_fault(reference) matches Some(e) ==> e
            is Integrity),
{
    a_reference_is_valid_exactly_when_bounded(reference);
}

/// A provenance holds as much of the purpose as fits in 96 characters, from its start,
/// and nothing but that and the session.
pub proof fn a_provenance_holds_the_start_of_its_purpose(session: Seq<char>, purpose: Seq<char>)
    ensures
        ({
            let owner = owned_by(session, purpose);
            &&& owner.session == session
            &&& owner.turn is None
            &&& owner.call is None
            &&& owner.derived_from is None
            &&& owner.purpose.len() <= 96
            &&& owner.purpose.len() == 96 || owner.purpose.len() == purpose.len()
            &&& owner.purpose.len() <= purpose.len()
            &&& forall|i: int|
                0 <= i < owner.purpose.len() ==> #[trigger] owner.purpose[i] == purpose[i]
        }),
{
}

/// An id or a digest is made exactly when it is bounded, of just what was given.
pub proof fn making_ids_and_digests_bounds_them(
    value: &str,
    algorithm: &str,
    hex: &str,
    id: Result<ArtifactId, ArtifactError>,
    digest: Result<ArtifactDigest, ArtifactError>,
)
    requires
        call_ensures(ArtifactId::new, (value,), id),
        call_ensures(ArtifactDigest::new, (algorithm, hex), digest),
    ensures
        id is Ok <==> has_chars_up_to(value@, 160),
        id matches Ok(made) ==> made@ == value@,
        digest is Ok <==> is_a_digest(ArtifactDigestView { algorithm: algorithm@, hex: hex@ }),
        digest matches Ok(made) ==> made@.algorithm == algorithm@ && made@.hex == hex@,
{
    lemma_digest(ArtifactDigestView { algorithm: algorithm@, hex: hex@ });
}

/// A reference, a transfer, and a read are valid exactly when they are bounded; a page is
/// exactly when it answers the read.
pub proof fn validating_bounds_references_transfers_and_reads(
    reference: ArtifactRef,
    transfer: ArtifactTransfer,
    request: ArtifactRead,
    a: Result<(), ArtifactError>,
    b: Result<(), ArtifactError>,
    c: Result<(), ArtifactError>,
)
    requires
        call_ensures(ArtifactRef::validate, (&reference,), a),
        call_ensures(ArtifactTransfer::validate, (&transfer,), b),
        call_ensures(ArtifactRead::validate, (&request,), c),
    ensures
        a is Ok <==> is_a_reference(reference@),
        b is Ok <==> {
            &&& is_a_reference(transfer@.source)
            &&& transfer@.target_session.len() > 0
            &&& transfer@.target_session != transfer@.source.provenance.session
            &&& has_chars_up_to(transfer@.purpose, 96)
            &&& 1 <= encode_utf8(transfer@.idempotency_key).len() <= 256
            &&& transfer@.source.byte_length <= 8388608
        },
        c is Ok <==> {
            &&& has_chars_up_to(request@.id, 160)
            &&& request@.session.len() > 0
            &&& 1 <= request@.limit <= 65536
        },
{
    a_reference_is_valid_exactly_when_bounded(reference@);
    a_transfer_is_valid_exactly_between_two_sessions(transfer@);
}

/// A page is accepted as an answer exactly when it is of the artifact that was asked for, starts
/// where it was asked to, is no longer than was asked for, ends within the artifact, and names
/// the place where the next one starts exactly where there is one.
pub proof fn validating_a_page_holds_it_to_the_read(
    chunk: ArtifactChunk,
    request: ArtifactRead,
    r: Result<(), ArtifactError>,
)
    requires
        chunk@.offset + chunk@.bytes.len() <= u64::MAX,
        call_ensures(ArtifactChunk::validate_for, (&chunk, &request), r),
    ensures
        r is Ok <==> {
            let end = chunk@.offset + chunk@.bytes.len();
            &&& is_a_reference(chunk@.reference)
            &&& chunk@.reference.id == request@.id
            &&& chunk@.offset == request@.offset
            &&& chunk@.bytes.len() <= request@.limit
            &&& end <= chunk@.reference.byte_length
            &&& chunk@.next_offset is None <==> end == chunk@.reference.byte_length
            &&& chunk@.next_offset matches Some(next) ==> next == end
        },
{
    a_page_answers_exactly_what_was_asked(chunk@, request@);
}

/// A transfer starts with nothing read, reads on where it stopped until it has as many bytes as
/// the source, and adds each page behind what it has.
pub proof fn a_transfer_goes_page_by_page(
    transfer: ArtifactTransfer,
    started: Result<TransferProgress, ArtifactError>,
    progress: TransferProgress,
    next: Option<ArtifactRead>,
    chunk: ArtifactChunk,
    after: Result<TransferProgress, ArtifactError>,
)
    requires
        call_ensures(TransferProgress::start, (transfer,), started),
        call_ensures(TransferProgress::next_read, (&progress,), next),
        progress@.bytes.len() != progress@.transfer.source.byte_length,
        call_ensures(TransferProgress::accept_page, (progress, chunk), after),
    ensures
        started matches Ok(made) ==> made@.transfer == transfer@ && made@.bytes.len() == 0,
        next matches Some(request) && {
            let left = progress@.transfer.source.byte_length - progress@.bytes.len();
            &&& request@.session == progress@.transfer.source.provenance.session
            &&& request@.id == progress@.transfer.source.id
            &&& request@.offset == progress@.bytes.len()
            &&& request@.limit <= left
            &&& request@.limit == left || request@.limit == 65536
        },
        after matches Ok(more) ==> {
            let had = progress@.bytes.len();
            &&& more@.transfer == progress@.transfer
            &&& chunk@.reference == progress@.transfer.source
            &&& chunk@.offset == had
            &&& chunk@.bytes.len() > 0
            &&& more@.bytes.len() == had + chunk@.bytes.len()
            &&& forall|i: int| 0 <= i < had ==> #[trigger] more@.bytes[i] == progress@.bytes[i]
            &&& forall|i: int|
                0 <= i < chunk@.bytes.len() ==> more@.bytes[had + i] == #[trigger] chunk@.bytes[i]
        },
{
    a_transfer_reads_on_where_it_stopped(progress@);
    a_transfer_accepts_the_next_page(progress@, chunk@);
}

/// The reference of a copy is accepted, and given back, exactly when it is valid and describes
/// the source's content the same, under the new owner and derived from the source.
pub proof fn accepting_a_copy_holds_it_to_the_transfer(
    transfer: ArtifactTransfer,
    reference: ArtifactRef,
    r: Result<ArtifactRef, ArtifactError>,
)
    requires
        transfer@.fault() is None,
        call_ensures(ArtifactTransfer::accept_target, (&transfer, reference), r),
    ensures
        r is Ok <==> {
            let (copy, source) = (reference@, transfer@.source);
            &&& is_a_reference(copy)
            &&& copy.byte_length == source.byte_length
            &&& copy.digest == source.digest
            &&& copy.media_type == source.media_type
            &&& copy.sensitivity == source.sensitivity
            &&& copy.retention == source.retention
            &&& copy.provenance.session == transfer@.target_session
            &&& copy.provenance.purpose == transfer@.purpose
            &&& copy.provenance.turn is None
            &&& copy.provenance.call is None
            &&& copy.provenance.derived_from matches Some(from) && {
                &&& from.session == source.provenance.session
                &&& from.id == source.id
                &&& from.digest == source.digest
            }
        },
        r matches Ok(accepted) ==> accepted@ == reference@,
{
    a_copy_is_accepted_exactly_as_written(transfer@, reference@, Seq::empty());
    a_transfer_writes_what_it_read(transfer@, Seq::empty());
}

/// Every artifact error says in words what it is about, with the detail where it has one.
pub proof fn artifact_errors_say_what_they_are_about(error: ArtifactError, r: String)
    requires
        call_ensures(ArtifactError::to_text, (&error,), r),
    ensures
        match error@ {
            ArtifactErrorView::InvalidReference { detail } => r@ == "invalid artifact reference: "@
                + detail,
            ArtifactErrorView::InvalidRange { detail } => r@ == "invalid artifact range: "@
                + detail,
            ArtifactErrorView::AccessDenied => r@ == "artifact access denied"@,
            ArtifactErrorView::NotFound => r@ == "artifact not found"@,
            ArtifactErrorView::Unavailable { detail } => r@ == "artifact store unavailable: "@
                + detail,
            ArtifactErrorView::Integrity { detail } => r@ == "artifact integrity failure: "@
                + detail,
        },
{
}

} // verus!
