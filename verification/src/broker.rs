//! Host-mediated broker contracts: credentials, network egress, and filesystem
//! access.
//!
//! A conforming host supplies each broker. Egress is authorized for a normalized
//! request tuple; this crate neither resolves names nor dials a connection.

use vstd::prelude::*;

use crate::collections::{TextMap, TextSet};
use crate::manifest::SegmentSensitivity;
use crate::record::Record;

verus! {

/// An opaque, bounded reference to a credential a tool may request use of. Never
/// the secret value itself, just a stable name that a broker resolves.
#[derive(Debug, PartialEq, Eq, PartialOrd, Ord, Hash)]
pub struct CredentialRef {
    text: String,
}

impl DeepView for CredentialRef {
    type V = Seq<char>;

    closed spec fn deep_view(&self) -> Seq<char> {
        self.text@
    }
}

impl View for CredentialRef {
    type V = Seq<char>;

    open spec fn view(&self) -> Seq<char> {
        self.deep_view()
    }
}

impl Record for CredentialRef {
    fn same(&self, other: &Self) -> (r: bool) {
        self.text.same(&other.text)
    }

    fn copied(&self) -> (r: Self) {
        CredentialRef { text: self.text.copied() }
    }
}

impl Clone for CredentialRef {
    fn clone(&self) -> (r: Self)
        ensures
            r@ == self@,
    {
        self.copied()
    }
}

impl CredentialRef {
    /// Wraps the text.
    pub fn new(text: &str) -> (r: CredentialRef)
        ensures
            r@ == text@,
    {
        CredentialRef { text: text.to_owned() }
    }

    /// The wrapped text.
    pub fn as_str(&self) -> (r: &str)
        ensures
            r@ == self@,
    {
        self.text.as_str()
    }
}

/// A destination that brokered material is written into directly, so that no
/// operation hands a raw secret back to its caller.
pub trait CredentialSink: Send {
    /// Receives one brokered field's rendered value for `field_name`. An
    /// implementation owns where the bytes go next.
    fn receive(&mut self, field_name: &str, value: &[u8]);
}

/// A structured, bounded credential-resolution failure. Every variant carries only
/// a [`CredentialRef`], never a backend diagnostic message that could itself echo
/// partial secret material.
#[derive(Debug, PartialEq, Eq)]
pub enum CredentialError {
    /// No credential is bound to this reference.
    NotFound {
        /// The reference. Never the secret.
        reference: CredentialRef,
    },
    /// The credential exists but the broker declined to apply it.
    Unauthorized {
        /// The reference. Never the secret.
        reference: CredentialRef,
    },
    /// Resolution failed for a backend-internal reason bounded to a fixed,
    /// non-secret code.
    ResolutionFailed {
        /// The reference. Never the secret.
        reference: CredentialRef,
        /// A stable, non-secret failure code.
        code: String,
    },
}

/// What a [`CredentialError`] holds.
pub enum CredentialErrorView {
    NotFound { reference: Seq<char> },
    Unauthorized { reference: Seq<char> },
    ResolutionFailed { reference: Seq<char>, code: Seq<char> },
}

impl DeepView for CredentialError {
    type V = CredentialErrorView;

    open spec fn deep_view(&self) -> CredentialErrorView {
        match self {
            CredentialError::NotFound { reference } => CredentialErrorView::NotFound {
                reference: reference.deep_view(),
            },
            CredentialError::Unauthorized { reference } => CredentialErrorView::Unauthorized {
                reference: reference.deep_view(),
            },
            CredentialError::ResolutionFailed { reference, code } => {
                CredentialErrorView::ResolutionFailed {
                    reference: reference.deep_view(),
                    code: code.deep_view(),
                }
            },
        }
    }
}

impl View for CredentialError {
    type V = CredentialErrorView;

    open spec fn view(&self) -> CredentialErrorView {
        self.deep_view()
    }
}

impl Record for CredentialError {
    fn same(&self, other: &Self) -> (r: bool) {
        match (self, other) {
            (
                CredentialError::NotFound { reference },
                CredentialError::NotFound { reference: reference_b },
            ) => reference.same(reference_b),
            (
                CredentialError::Unauthorized { reference },
                CredentialError::Unauthorized { reference: reference_b },
            ) => reference.same(reference_b),
            (
                CredentialError::ResolutionFailed { reference, code },
                CredentialError::ResolutionFailed { reference: reference_b, code: code_b },
            ) => reference.same(reference_b) && code.same(code_b),
            _ => false,
        }
    }

    fn copied(&self) -> (r: Self) {
        match self {
            CredentialError::NotFound { reference } => CredentialError::NotFound {
                reference: reference.copied(),
            },
            CredentialError::Unauthorized { reference } => CredentialError::Unauthorized {
                reference: reference.copied(),
            },
            CredentialError::ResolutionFailed { reference, code } => {
                CredentialError::ResolutionFailed {
                    reference: reference.copied(),
                    code: code.copied(),
                }
            },
        }
    }
}

impl Clone for CredentialError {
    fn clone(&self) -> (r: Self)
        ensures
            r@ == self@,
    {
        self.copied()
    }
}

/// The normalized request tuple that egress is authorized for: scheme, IDNA
/// (A-label) hostname, explicit port, method, and a normalized path.
///
/// Every field is caller-supplied text. This type says what an authorization
/// decision is made against, not how a host normalizes it.
#[derive(Debug, PartialEq, Eq)]
pub struct EgressTuple {
    /// The request scheme (for example `https`).
    pub scheme: String,
    /// The IDNA A-label canonical hostname.
    pub host: String,
    /// The explicit port.
    pub port: u16,
    /// The request method.
    pub method: String,
    /// The normalized path.
    pub path: String,
}

/// What a [`EgressTuple`] holds.
pub struct EgressTupleView {
    pub scheme: Seq<char>,
    pub host: Seq<char>,
    pub port: u16,
    pub method: Seq<char>,
    pub path: Seq<char>,
}

impl DeepView for EgressTuple {
    type V = EgressTupleView;

    open spec fn deep_view(&self) -> EgressTupleView {
        EgressTupleView {
            scheme: self.scheme.deep_view(),
            host: self.host.deep_view(),
            port: self.port.deep_view(),
            method: self.method.deep_view(),
            path: self.path.deep_view(),
        }
    }
}

impl View for EgressTuple {
    type V = EgressTupleView;

    open spec fn view(&self) -> EgressTupleView {
        self.deep_view()
    }
}

impl Record for EgressTuple {
    fn same(&self, other: &Self) -> (r: bool) {
        self.scheme.same(&other.scheme)
            && self.host.same(&other.host)
            && self.port.same(&other.port)
            && self.method.same(&other.method)
            && self.path.same(&other.path)
    }

    fn copied(&self) -> (r: Self) {
        EgressTuple {
            scheme: self.scheme.copied(),
            host: self.host.copied(),
            port: self.port.copied(),
            method: self.method.copied(),
            path: self.path.copied(),
        }
    }
}

impl Clone for EgressTuple {
    fn clone(&self) -> (r: Self)
        ensures
            r@ == self@,
    {
        self.copied()
    }
}

/// One outbound request that is authorized before any DNS resolution or connection
/// is attempted.
#[derive(Debug, PartialEq, Eq)]
pub struct EgressRequest {
    /// The normalized request tuple.
    pub tuple: EgressTuple,
    /// Caller-supplied headers. A rule may further constrain which names and
    /// values are permitted.
    pub headers: TextMap<String>,
    /// Caller-supplied query parameter keys. A rule may further constrain which
    /// keys are permitted.
    pub query_keys: TextSet,
    /// The request content type, if any.
    pub content_type: Option<String>,
    /// The request body size in bytes, if known ahead of send.
    pub body_bytes: Option<u64>,
    /// The credential this request would bind, if any. Authorization of the
    /// endpoint precedes resolving or injecting it.
    pub credential: Option<CredentialRef>,
    /// The sensitivity classification of the payload this request would carry.
    pub payload_sensitivity: SegmentSensitivity,
}

/// What a [`EgressRequest`] holds.
pub struct EgressRequestView {
    pub tuple: EgressTupleView,
    pub headers: Seq<(Seq<char>, Seq<char>)>,
    pub query_keys: Set<Seq<char>>,
    pub content_type: Option<Seq<char>>,
    pub body_bytes: Option<u64>,
    pub credential: Option<Seq<char>>,
    pub payload_sensitivity: SegmentSensitivity,
}

impl DeepView for EgressRequest {
    type V = EgressRequestView;

    open spec fn deep_view(&self) -> EgressRequestView {
        EgressRequestView {
            tuple: self.tuple.deep_view(),
            headers: self.headers.deep_view(),
            query_keys: self.query_keys.deep_view(),
            content_type: self.content_type.deep_view(),
            body_bytes: self.body_bytes.deep_view(),
            credential: self.credential.deep_view(),
            payload_sensitivity: self.payload_sensitivity.deep_view(),
        }
    }
}

impl View for EgressRequest {
    type V = EgressRequestView;

    open spec fn view(&self) -> EgressRequestView {
        self.deep_view()
    }
}

impl Record for EgressRequest {
    fn same(&self, other: &Self) -> (r: bool) {
        self.tuple.same(&other.tuple)
            && self.headers.same(&other.headers)
            && self.query_keys.same(&other.query_keys)
            && self.content_type.same(&other.content_type)
            && self.body_bytes.same(&other.body_bytes)
            && self.credential.same(&other.credential)
            && self.payload_sensitivity.same(&other.payload_sensitivity)
    }

    fn copied(&self) -> (r: Self) {
        EgressRequest {
            tuple: self.tuple.copied(),
            headers: self.headers.copied(),
            query_keys: self.query_keys.copied(),
            content_type: self.content_type.copied(),
            body_bytes: self.body_bytes.copied(),
            credential: self.credential.copied(),
            payload_sensitivity: self.payload_sensitivity.copied(),
        }
    }
}

impl Clone for EgressRequest {
    fn clone(&self) -> (r: Self)
        ensures
            r@ == self@,
    {
        self.copied()
    }
}

/// The single guest-visible egress denial class.
///
/// Carries no field, code, or message: an allowlist miss, an ambiguous URL, and
/// a protected-address-class denial are indistinguishable to the guest.
#[derive(Debug, Clone, Copy, PartialEq, Eq, Structural)]
pub struct EgressDenied;

/// Any two denials are the same to the guest.
pub proof fn denials_are_indistinguishable(a: EgressDenied, b: EgressDenied)
    ensures
        a == b,
{
}

/// A successful egress authorization: a conforming host transport may now dial the
/// tuple. Carries no credential and no live connection.
#[derive(Debug, PartialEq, Eq)]
pub struct EgressAuthorization {
    tuple: EgressTuple,
    redirects_enabled: bool,
    max_redirect_hops: u32,
}

/// What a [`EgressAuthorization`] holds.
pub struct EgressAuthorizationView {
    pub tuple: EgressTupleView,
    pub redirects_enabled: bool,
    pub max_redirect_hops: u32,
}

impl DeepView for EgressAuthorization {
    type V = EgressAuthorizationView;

    closed spec fn deep_view(&self) -> EgressAuthorizationView {
        EgressAuthorizationView {
            tuple: self.tuple.deep_view(),
            redirects_enabled: self.redirects_enabled.deep_view(),
            max_redirect_hops: self.max_redirect_hops.deep_view(),
        }
    }
}

impl View for EgressAuthorization {
    type V = EgressAuthorizationView;

    open spec fn view(&self) -> EgressAuthorizationView {
        self.deep_view()
    }
}

impl Record for EgressAuthorization {
    fn same(&self, other: &Self) -> (r: bool) {
        self.tuple.same(&other.tuple)
            && self.redirects_enabled.same(&other.redirects_enabled)
            && self.max_redirect_hops.same(&other.max_redirect_hops)
    }

    fn copied(&self) -> (r: Self) {
        EgressAuthorization {
            tuple: self.tuple.copied(),
            redirects_enabled: self.redirects_enabled.copied(),
            max_redirect_hops: self.max_redirect_hops.copied(),
        }
    }
}

impl Clone for EgressAuthorization {
    fn clone(&self) -> (r: Self)
        ensures
            r@ == self@,
    {
        self.copied()
    }
}

impl EgressAuthorization {
    /// Builds an authorization for `tuple`. Redirects are disabled by default,
    /// with zero hops permitted.
    pub fn new(tuple: EgressTuple) -> (r: EgressAuthorization)
        ensures
            r@ == (EgressAuthorizationView {
                tuple: tuple@,
                redirects_enabled: false,
                max_redirect_hops: 0,
            }),
    {
        EgressAuthorization { tuple, redirects_enabled: false, max_redirect_hops: 0 }
    }

    /// Explicitly enables redirect following for this authorization, up to
    /// `max_hops`.
    pub fn with_redirects_enabled(self, max_hops: u32) -> (r: EgressAuthorization)
        ensures
            r@ == (EgressAuthorizationView {
                redirects_enabled: true,
                max_redirect_hops: max_hops,
                ..self@
            }),
    {
        EgressAuthorization {
            tuple: self.tuple,
            redirects_enabled: true,
            max_redirect_hops: max_hops,
        }
    }

    /// The authorized tuple.
    pub fn tuple(&self) -> (r: &EgressTuple)
        ensures
            r@ == self@.tuple,
    {
        &self.tuple
    }

    /// Whether redirect following was explicitly enabled for this
    /// authorization.
    pub fn redirects_enabled(&self) -> (r: bool)
        ensures
            r == self@.redirects_enabled,
    {
        self.redirects_enabled
    }

    /// The host-configured redirect hop-count ceiling.
    pub fn max_redirect_hops(&self) -> (r: u32)
        ensures
            r == self@.max_redirect_hops,
    {
        self.max_redirect_hops
    }
}

/// A virtual guest mount name a filesystem grant is exposed under. Distinct from a
/// host path.
#[derive(Debug, PartialEq, Eq, PartialOrd, Ord, Hash)]
pub struct MountName {
    text: String,
}

impl DeepView for MountName {
    type V = Seq<char>;

    closed spec fn deep_view(&self) -> Seq<char> {
        self.text@
    }
}

impl View for MountName {
    type V = Seq<char>;

    open spec fn view(&self) -> Seq<char> {
        self.deep_view()
    }
}

impl Record for MountName {
    fn same(&self, other: &Self) -> (r: bool) {
        self.text.same(&other.text)
    }

    fn copied(&self) -> (r: Self) {
        MountName { text: self.text.copied() }
    }
}

impl Clone for MountName {
    fn clone(&self) -> (r: Self)
        ensures
            r@ == self@,
    {
        self.copied()
    }
}

impl MountName {
    /// Wraps the text.
    pub fn new(text: &str) -> (r: MountName)
        ensures
            r@ == text@,
    {
        MountName { text: text.to_owned() }
    }

    /// The wrapped text.
    pub fn as_str(&self) -> (r: &str)
        ensures
            r@ == self@,
    {
        self.text.as_str()
    }
}

/// A single filesystem right that a handle may hold.
#[derive(Debug, Clone, Copy, PartialEq, Eq, Structural)]
pub enum FilesystemRight {
    /// Read file contents.
    Read,
    /// Write to an existing file.
    Write,
    /// Create a new file.
    Create,
    /// Delete a file.
    Delete,
    /// Rename an entry.
    Rename,
    /// Create a hard link.
    Link,
    /// Create a symlink. Denied unless explicitly granted, independent of every
    /// other right.
    SymlinkCreate,
    /// List directory entries.
    Readdir,
    /// Truncate a file.
    Truncate,
}

impl DeepView for FilesystemRight {
    type V = FilesystemRight;

    open spec fn deep_view(&self) -> FilesystemRight {
        *self
    }
}

impl Record for FilesystemRight {
    fn same(&self, other: &Self) -> (r: bool) {
        *self == *other
    }

    fn copied(&self) -> (r: Self) {
        *self
    }
}

/// A bounded set of [`FilesystemRight`]s that a handle was opened with.
#[derive(Debug, Clone, Copy, PartialEq, Eq, Structural)]
pub struct FilesystemRights {
    read: bool,
    write: bool,
    create: bool,
    delete: bool,
    rename: bool,
    link: bool,
    symlink_create: bool,
    readdir: bool,
    truncate: bool,
}

impl View for FilesystemRights {
    type V = Set<FilesystemRight>;

    closed spec fn view(&self) -> Set<FilesystemRight> {
        Set::new(|right: FilesystemRight| self.holds(right))
    }
}

impl FilesystemRights {
    spec fn holds(self, right: FilesystemRight) -> bool {
        match right {
            FilesystemRight::Read => self.read,
            FilesystemRight::Write => self.write,
            FilesystemRight::Create => self.create,
            FilesystemRight::Delete => self.delete,
            FilesystemRight::Rename => self.rename,
            FilesystemRight::Link => self.link,
            FilesystemRight::SymlinkCreate => self.symlink_create,
            FilesystemRight::Readdir => self.readdir,
            FilesystemRight::Truncate => self.truncate,
        }
    }

    /// No rights.
    pub fn none() -> (r: FilesystemRights)
        ensures
            r@ == Set::<FilesystemRight>::empty(),
    {
        let r = FilesystemRights {
            read: false,
            write: false,
            create: false,
            delete: false,
            rename: false,
            link: false,
            symlink_create: false,
            readdir: false,
            truncate: false,
        };
        assert(r@ =~= Set::<FilesystemRight>::empty());
        r
    }

    /// Exactly one right.
    pub fn single(right: FilesystemRight) -> (r: FilesystemRights)
        ensures
            r@ == Set::<FilesystemRight>::empty().insert(right),
    {
        FilesystemRights::none().with(right)
    }

    /// Adds a right.
    pub fn with(self, right: FilesystemRight) -> (r: FilesystemRights)
        ensures
            r@ == self@.insert(right),
    {
        let mut r = self;
        match right {
            FilesystemRight::Read => {
                r.read = true;
            },
            FilesystemRight::Write => {
                r.write = true;
            },
            FilesystemRight::Create => {
                r.create = true;
            },
            FilesystemRight::Delete => {
                r.delete = true;
            },
            FilesystemRight::Rename => {
                r.rename = true;
            },
            FilesystemRight::Link => {
                r.link = true;
            },
            FilesystemRight::SymlinkCreate => {
                r.symlink_create = true;
            },
            FilesystemRight::Readdir => {
                r.readdir = true;
            },
            FilesystemRight::Truncate => {
                r.truncate = true;
            },
        }
        assert(r@ =~= self@.insert(right));
        r
    }

    /// Whether the set holds `right`.
    pub fn contains(&self, right: FilesystemRight) -> (r: bool)
        ensures
            r == self@.contains(right),
    {
        match right {
            FilesystemRight::Read => self.read,
            FilesystemRight::Write => self.write,
            FilesystemRight::Create => self.create,
            FilesystemRight::Delete => self.delete,
            FilesystemRight::Rename => self.rename,
            FilesystemRight::Link => self.link,
            FilesystemRight::SymlinkCreate => self.symlink_create,
            FilesystemRight::Readdir => self.readdir,
            FilesystemRight::Truncate => self.truncate,
        }
    }

    /// The set of the listed rights.
    pub fn from_list(rights: Vec<FilesystemRight>) -> (r: FilesystemRights)
        ensures
            r@ == rights@.to_set(),
    {
        let mut r = FilesystemRights::none();
        let mut i: usize = 0;
        assert(rights@.subrange(0, 0).to_set() =~= Set::<FilesystemRight>::empty());
        while i < rights.len()
            invariant
                i <= rights.len(),
                r@ == rights@.subrange(0, i as int).to_set(),
            decreases rights.len() - i,
        {
            r = r.with(rights[i]);
            proof {
                let (a, c) = (rights@.subrange(0, i as int), rights@.subrange(0, i + 1));
                assert(c =~= a.push(rights@[i as int]));
                assert forall|right: FilesystemRight| c.to_set().contains(right)
                    == a.to_set().insert(rights@[i as int]).contains(right) by {
                    if c.contains(right) {
                        let k = choose|k: int| 0 <= k < c.len() && c[k] == right;
                        if k < i {
                            assert(a[k] == right);
                        }
                    }
                    if a.contains(right) {
                        let k = choose|k: int| 0 <= k < a.len() && a[k] == right;
                        assert(c[k] == right);
                    }
                    assert(c[i as int] == rights@[i as int]);
                }
                assert(c.to_set() =~= a.to_set().insert(rights@[i as int]));
            }
            i = i + 1;
        }
        assert(rights@.subrange(0, rights@.len() as int) =~= rights@);
        r
    }
}

impl Default for FilesystemRights {
    fn default() -> (r: FilesystemRights)
        ensures
            r@ == Set::<FilesystemRight>::empty(),
    {
        FilesystemRights::none()
    }
}

/// The single guest-visible filesystem failure class. Carries no data, so it
/// cannot tell a caller why an operation failed.
#[derive(Debug, Clone, Copy, PartialEq, Eq, Structural)]
pub struct FilesystemError;

/// Any two failures are the same to the guest.
pub proof fn failures_are_indistinguishable(a: FilesystemError, b: FilesystemError)
    ensures
        a == b,
{
}

/// A right that was added is held, and every other one is held exactly when it was before;
/// without any added, none is held.
pub proof fn an_added_right_is_held(
    rights: FilesystemRights,
    added: FilesystemRight,
    after: FilesystemRights,
    asked: FilesystemRight,
    was_held: bool,
    is_held: bool,
)
    requires
        call_ensures(FilesystemRights::with, (rights, added), after),
        call_ensures(FilesystemRights::contains, (&rights, asked), was_held),
        call_ensures(FilesystemRights::contains, (&after, asked), is_held),
    ensures
        is_held <==> asked == added || was_held,
{
}

/// Rights of a list are exactly those that are listed; a single right is the only one, and
/// without any there is none.
pub proof fn rights_are_those_that_are_listed(
    listed: Vec<FilesystemRight>,
    one: FilesystemRight,
    asked: FilesystemRight,
    many: FilesystemRights,
    single: FilesystemRights,
    none: FilesystemRights,
    a: bool,
    b: bool,
    c: bool,
)
    requires
        call_ensures(FilesystemRights::from_list, (listed,), many),
        call_ensures(FilesystemRights::single, (one,), single),
        call_ensures(FilesystemRights::none, (), none),
        call_ensures(FilesystemRights::contains, (&many, asked), a),
        call_ensures(FilesystemRights::contains, (&single, asked), b),
        call_ensures(FilesystemRights::contains, (&none, asked), c),
    ensures
        a <==> listed@.contains(asked),
        b <==> asked == one,
        !c,
{
}

/// An authorization follows no redirects until they are enabled, and then as many as were
/// given; what it is for stays.
pub proof fn redirects_are_followed_only_when_enabled(
    tuple: EgressTuple,
    hops: u32,
    made: EgressAuthorization,
    enabled: EgressAuthorization,
    before: bool,
    after: bool,
    hops_before: u32,
    hops_after: u32,
)
    requires
        call_ensures(EgressAuthorization::new, (tuple,), made),
        call_ensures(EgressAuthorization::with_redirects_enabled, (made, hops), enabled),
        call_ensures(EgressAuthorization::redirects_enabled, (&made,), before),
        call_ensures(EgressAuthorization::redirects_enabled, (&enabled,), after),
        call_ensures(EgressAuthorization::max_redirect_hops, (&made,), hops_before),
        call_ensures(EgressAuthorization::max_redirect_hops, (&enabled,), hops_after),
    ensures
        !before,
        after,
        hops_before == 0,
        hops_after == hops,
        made@.tuple == tuple@,
        enabled@.tuple == tuple@,
{
}

} // verus!
