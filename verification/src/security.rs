//! Subjects, actions, resources, permissions, and requests for authority.

use vstd::prelude::*;

use vstd::string::StringExecFns;

use crate::clock::{Deadline, Timestamp};
use crate::collections::{sorted_items, TextSet};
use crate::fingerprint::{
    absorb_all, group_absorb, lemma_concat_assoc, Encoded, Fingerprint, FingerprintHasher,
};
use crate::ids::{SessionId, TenantId};
use crate::order::Ordered;
use crate::record::{begins_with, Record};
use crate::text::{comes_before, lemma_text_order, text_before};

verus! {

/// Where a piece of content comes from.
#[derive(Debug, Clone, Copy, PartialEq, Eq, Structural)]
pub enum TrustClass {
    /// Written by the user.
    UserContent,
    /// Fetched from outside.
    ExternalContent,
}

impl DeepView for TrustClass {
    type V = TrustClass;

    open spec fn deep_view(&self) -> TrustClass {
        *self
    }
}

impl Record for TrustClass {
    fn same(&self, other: &Self) -> (r: bool) {
        *self == *other
    }

    fn copied(&self) -> (r: Self) {
        *self
    }
}

/// The revision of a registry entry or of a component.
#[derive(Debug, PartialEq, Eq, PartialOrd, Ord, Hash)]
pub struct RegistryRevision {
    text: String,
}

impl DeepView for RegistryRevision {
    type V = Seq<char>;

    closed spec fn deep_view(&self) -> Seq<char> {
        self.text@
    }
}

impl View for RegistryRevision {
    type V = Seq<char>;

    open spec fn view(&self) -> Seq<char> {
        self.deep_view()
    }
}

impl Record for RegistryRevision {
    fn same(&self, other: &Self) -> (r: bool) {
        self.text.same(&other.text)
    }

    fn copied(&self) -> (r: Self) {
        RegistryRevision { text: self.text.copied() }
    }
}

impl Ordered for RegistryRevision {
    open spec fn before(a: Seq<char>, b: Seq<char>) -> bool {
        text_before(a, b)
    }

    fn precedes(&self, other: &Self) -> (r: bool) {
        comes_before(self.text.as_str(), other.text.as_str())
    }

    proof fn lemma_order(a: Seq<char>, b: Seq<char>, c: Seq<char>) {
        lemma_text_order(a, b, c);
    }
}

impl Clone for RegistryRevision {
    fn clone(&self) -> (r: Self)
        ensures
            r@ == self@,
    {
        self.copied()
    }
}

impl RegistryRevision {
    /// Wraps the text.
    pub fn new(text: &str) -> (r: RegistryRevision)
        ensures
            r@ == text@,
    {
        RegistryRevision { text: text.to_owned() }
    }

    /// The wrapped text.
    pub fn as_str(&self) -> (r: &str)
        ensures
            r@ == self@,
    {
        self.text.as_str()
    }
}

/// A registry entry: its domain and its name in that domain.
#[derive(Debug, PartialEq, Eq)]
pub struct RegistryId {
    /// The domain.
    pub domain: String,
    /// The name in the domain.
    pub name: String,
}

/// What a [`RegistryId`] holds.
pub struct RegistryIdView {
    pub domain: Seq<char>,
    pub name: Seq<char>,
}

impl DeepView for RegistryId {
    type V = RegistryIdView;

    open spec fn deep_view(&self) -> RegistryIdView {
        RegistryIdView {
            domain: self.domain.deep_view(),
            name: self.name.deep_view(),
        }
    }
}

impl View for RegistryId {
    type V = RegistryIdView;

    open spec fn view(&self) -> RegistryIdView {
        self.deep_view()
    }
}

impl Record for RegistryId {
    fn same(&self, other: &Self) -> (r: bool) {
        self.domain.same(&other.domain)
            && self.name.same(&other.name)
    }

    fn copied(&self) -> (r: Self) {
        RegistryId {
            domain: self.domain.copied(),
            name: self.name.copied(),
        }
    }
}

impl Ordered for RegistryId {
    open spec fn before(a: RegistryIdView, b: RegistryIdView) -> bool {
        if a.domain != b.domain {
            String::before(a.domain, b.domain)
        } else {
            String::before(a.name, b.name)
        }
    }

    fn precedes(&self, other: &Self) -> (r: bool) {
        if !self.domain.same(&other.domain) {
            self.domain.precedes(&other.domain)
        } else {
            self.name.precedes(&other.name)
        }
    }

    proof fn lemma_order(a: RegistryIdView, b: RegistryIdView, c: RegistryIdView) {
        String::lemma_order(a.domain, b.domain, c.domain);
        String::lemma_order(a.name, b.name, c.name);
    }
}

impl Clone for RegistryId {
    fn clone(&self) -> (r: Self)
        ensures
            r@ == self@,
    {
        self.copied()
    }
}

impl RegistryId {
    /// The entry `name` of `domain`.
    pub fn new(domain: &str, name: &str) -> (r: RegistryId)
        ensures
            r@ == (RegistryIdView { domain: domain@, name: name@ }),
    {
        RegistryId { domain: domain.to_owned(), name: name.to_owned() }
    }

    /// A skill.
    pub fn skill(name: &str) -> (r: RegistryId)
        ensures
            r@ == (RegistryIdView { domain: "skill"@, name: name@ }),
    {
        RegistryId::new("skill", name)
    }

    /// A tool server.
    pub fn mcp(name: &str) -> (r: RegistryId)
        ensures
            r@ == (RegistryIdView { domain: "mcp"@, name: name@ }),
    {
        RegistryId::new("mcp", name)
    }

    /// The domain and the name, with a colon between them.
    pub fn qualified(&self) -> (r: String)
        ensures
            r@ == self@.domain + ":"@ + self@.name,
    {
        let mut out = self.domain.copied();
        out.append(":");
        out.append(self.name.as_str());
        out
    }
}

/// An authority that an action may need.
#[derive(Debug, PartialEq, Eq)]
pub enum Permission {
    /// Read files.
    FsRead,
    /// Write files.
    FsWrite,
    /// Spawn processes.
    ProcessSpawn,
    /// Make HTTP requests.
    NetHttp,
    /// Use credentials.
    CredentialUse,
    /// A host-defined authority.
    Custom(String),
}

/// What a [`Permission`] holds.
pub enum PermissionView {
    FsRead,
    FsWrite,
    ProcessSpawn,
    NetHttp,
    CredentialUse,
    Custom(Seq<char>),
}

impl DeepView for Permission {
    type V = PermissionView;

    open spec fn deep_view(&self) -> PermissionView {
        match self {
            Permission::FsRead => PermissionView::FsRead,
            Permission::FsWrite => PermissionView::FsWrite,
            Permission::ProcessSpawn => PermissionView::ProcessSpawn,
            Permission::NetHttp => PermissionView::NetHttp,
            Permission::CredentialUse => PermissionView::CredentialUse,
            Permission::Custom(x0) => PermissionView::Custom(x0.deep_view()),
        }
    }
}

impl View for Permission {
    type V = PermissionView;

    open spec fn view(&self) -> PermissionView {
        self.deep_view()
    }
}

impl Record for Permission {
    fn same(&self, other: &Self) -> (r: bool) {
        match (self, other) {
            (Permission::FsRead, Permission::FsRead) => true,
            (Permission::FsWrite, Permission::FsWrite) => true,
            (Permission::ProcessSpawn, Permission::ProcessSpawn) => true,
            (Permission::NetHttp, Permission::NetHttp) => true,
            (Permission::CredentialUse, Permission::CredentialUse) => true,
            (Permission::Custom(x0), Permission::Custom(x0_b)) => x0.same(x0_b),
            _ => false,
        }
    }

    fn copied(&self) -> (r: Self) {
        match self {
            Permission::FsRead => Permission::FsRead,
            Permission::FsWrite => Permission::FsWrite,
            Permission::ProcessSpawn => Permission::ProcessSpawn,
            Permission::NetHttp => Permission::NetHttp,
            Permission::CredentialUse => Permission::CredentialUse,
            Permission::Custom(x0) => Permission::Custom(x0.copied()),
        }
    }
}

impl Clone for Permission {
    fn clone(&self) -> (r: Self)
        ensures
            r@ == self@,
    {
        self.copied()
    }
}

impl Encoded for Permission {
    open spec fn fields(view: PermissionView) -> Seq<Seq<char>> {
        match view {
            PermissionView::FsRead => seq!["fs_read"@],
            PermissionView::FsWrite => seq!["fs_write"@],
            PermissionView::ProcessSpawn => seq!["process_spawn"@],
            PermissionView::NetHttp => seq!["net_http"@],
            PermissionView::CredentialUse => seq!["credential_use"@],
            PermissionView::Custom(x0) => seq!["custom"@] + <String as Encoded>::fields(x0),
        }
    }

    fn encode(&self, hasher: &mut FingerprintHasher) {
        broadcast use group_absorb;

        match self {
            Permission::Custom(name) => {
                hasher.field("custom");
                name.encode(hasher);
            },
            _ => {
                hasher.field(self.as_str());
            },
        }
    }

    proof fn lemma_decodable(
        a: PermissionView,
        b: PermissionView,
        x: Seq<Seq<char>>,
        y: Seq<Seq<char>>,
    ) {
        broadcast use lemma_concat_assoc;

        reveal_strlit("fs_read");
        assert("fs_read"@.len() == 7);
        reveal_strlit("fs_write");
        assert("fs_write"@.len() == 8);
        reveal_strlit("process_spawn");
        assert("process_spawn"@.len() == 13);
        reveal_strlit("net_http");
        assert("net_http"@.len() == 8);
        reveal_strlit("credential_use");
        assert("credential_use"@.len() == 14);
        reveal_strlit("custom");
        assert("custom"@.len() == 6);
        assert("fs_write"@[0] != "net_http"@[0]);
        assert((Self::fields(a) + x)[0] == Self::fields(a)[0]);
        assert((Self::fields(b) + y)[0] == Self::fields(b)[0]);
        match (a, b) {
            (PermissionView::FsRead, PermissionView::FsRead) => {
                String::lemma_decodable("fs_read"@, "fs_read"@, x, y);
            },
            (PermissionView::FsWrite, PermissionView::FsWrite) => {
                String::lemma_decodable("fs_write"@, "fs_write"@, x, y);
            },
            (PermissionView::ProcessSpawn, PermissionView::ProcessSpawn) => {
                String::lemma_decodable("process_spawn"@, "process_spawn"@, x, y);
            },
            (PermissionView::NetHttp, PermissionView::NetHttp) => {
                String::lemma_decodable("net_http"@, "net_http"@, x, y);
            },
            (PermissionView::CredentialUse, PermissionView::CredentialUse) => {
                String::lemma_decodable("credential_use"@, "credential_use"@, x, y);
            },
            (PermissionView::Custom(x0), PermissionView::Custom(other_x0)) => {
                let x1 = String::fields(x0) + x;
                let y1 = String::fields(other_x0) + y;
                String::lemma_decodable("custom"@, "custom"@, x1, y1);
                String::lemma_decodable(x0, other_x0, x, y);
            },
            _ => {},
        }
    }
}

impl PermissionView {
    /// The permission's slug.
    pub open spec fn slug(self) -> Seq<char> {
        match self {
            PermissionView::FsRead => "fs_read"@,
            PermissionView::FsWrite => "fs_write"@,
            PermissionView::ProcessSpawn => "process_spawn"@,
            PermissionView::NetHttp => "net_http"@,
            PermissionView::CredentialUse => "credential_use"@,
            PermissionView::Custom(name) => name,
        }
    }
}

impl Permission {
    /// The permission's slug.
    pub fn as_str(&self) -> (r: &str)
        ensures
            r@ == self@.slug(),
    {
        match self {
            Permission::FsRead => "fs_read",
            Permission::FsWrite => "fs_write",
            Permission::ProcessSpawn => "process_spawn",
            Permission::NetHttp => "net_http",
            Permission::CredentialUse => "credential_use",
            Permission::Custom(name) => name.as_str(),
        }
    }
}

/// A set of permissions.
#[derive(Debug, PartialEq, Eq)]
pub struct PermissionSet {
    fs_read: bool,
    fs_write: bool,
    process_spawn: bool,
    net_http: bool,
    credential_use: bool,
    custom: TextSet,
}

impl DeepView for PermissionSet {
    type V = Set<PermissionView>;

    closed spec fn deep_view(&self) -> Set<PermissionView> {
        Set::new(
            |p: PermissionView|
                match p {
                    PermissionView::FsRead => self.fs_read,
                    PermissionView::FsWrite => self.fs_write,
                    PermissionView::ProcessSpawn => self.process_spawn,
                    PermissionView::NetHttp => self.net_http,
                    PermissionView::CredentialUse => self.credential_use,
                    PermissionView::Custom(name) => self.custom@.contains(name),
                },
        )
    }
}

impl View for PermissionSet {
    type V = Set<PermissionView>;

    open spec fn view(&self) -> Set<PermissionView> {
        self.deep_view()
    }
}

impl Record for PermissionSet {
    fn same(&self, other: &Self) -> (r: bool) {
        proof {
            if self@ == other@ {
                assert(
                    self@.contains(PermissionView::FsRead) == other@.contains(
                        PermissionView::FsRead,
                    )
                );
                assert(
                    self@.contains(PermissionView::FsWrite) == other@.contains(
                        PermissionView::FsWrite,
                    )
                );
                assert(
                    self@.contains(PermissionView::ProcessSpawn) == other@.contains(
                        PermissionView::ProcessSpawn,
                    )
                );
                assert(
                    self@.contains(PermissionView::NetHttp) == other@.contains(
                        PermissionView::NetHttp,
                    )
                );
                assert(
                    self@.contains(PermissionView::CredentialUse) == other@.contains(
                        PermissionView::CredentialUse,
                    )
                );
                assert forall|name: Seq<char>|
                    self.custom@.contains(name) == other.custom@.contains(name) by {
                    assert(self@.contains(PermissionView::Custom(name)) == other@.contains(
                        PermissionView::Custom(name),
                    ));
                }
                assert(self.custom@ =~= other.custom@);
            }
        }
        let r = self.fs_read == other.fs_read
            && self.fs_write == other.fs_write
            && self.process_spawn == other.process_spawn
            && self.net_http == other.net_http
            && self.credential_use == other.credential_use
            && self.custom.same(&other.custom);
        assert(r ==> self@ =~= other@);
        r
    }

    fn copied(&self) -> (r: Self) {
        PermissionSet {
            fs_read: self.fs_read,
            fs_write: self.fs_write,
            process_spawn: self.process_spawn,
            net_http: self.net_http,
            credential_use: self.credential_use,
            custom: self.custom.copied(),
        }
    }
}

impl Clone for PermissionSet {
    fn clone(&self) -> (r: Self)
        ensures
            r@ == self@,
    {
        self.copied()
    }
}

impl PermissionSet {
    /// The empty set.
    pub fn new() -> (r: PermissionSet)
        ensures
            r@ == Set::<PermissionView>::empty(),
    {
        let r = PermissionSet {
            fs_read: false,
            fs_write: false,
            process_spawn: false,
            net_http: false,
            credential_use: false,
            custom: TextSet::new(),
        };
        assert(r@ =~= Set::<PermissionView>::empty());
        r
    }

    /// The set of one permission.
    pub fn single(permission: Permission) -> (r: PermissionSet)
        ensures
            r@ == Set::<PermissionView>::empty().insert(permission@),
    {
        let mut r = PermissionSet::new();
        r.insert(&permission);
        r
    }

    /// The set of the listed permissions.
    pub fn from_list(permissions: Vec<Permission>) -> (r: PermissionSet)
        ensures
            r@ == permissions.deep_view().to_set(),
    {
        let mut r = PermissionSet::new();
        let ghost views = permissions.deep_view();
        let mut i: usize = 0;
        assert(views.subrange(0, 0).to_set() =~= Set::<PermissionView>::empty());
        while i < permissions.len()
            invariant
                i <= permissions.len(),
                views == permissions.deep_view(),
                r@ == views.subrange(0, i as int).to_set(),
            decreases permissions.len() - i,
        {
            r.insert(&permissions[i]);
            proof {
                let (a, c) = (views.subrange(0, i as int), views.subrange(0, i + 1));
                assert(c =~= a.push(views[i as int]));
                assert forall|p: PermissionView|
                    c.to_set().contains(p) == a.to_set().insert(views[i as int]).contains(p) by {
                    if c.contains(p) {
                        let k = choose|k: int| 0 <= k < c.len() && c[k] == p;
                        if k < i {
                            assert(a[k] == p);
                        }
                    }
                    if a.contains(p) {
                        let k = choose|k: int| 0 <= k < a.len() && a[k] == p;
                        assert(c[k] == p);
                    }
                    assert(c[i as int] == views[i as int]);
                }
                assert(c.to_set() =~= a.to_set().insert(views[i as int]));
            }
            i = i + 1;
        }
        assert(views.subrange(0, views.len() as int) =~= views);
        r
    }

    /// Puts `permission` into the set.
    pub fn insert(&mut self, permission: &Permission)
        ensures
            final(self)@ == old(self)@.insert(permission@),
    {
        let ghost before = self@;
        match permission {
            Permission::FsRead => {
                self.fs_read = true;
            },
            Permission::FsWrite => {
                self.fs_write = true;
            },
            Permission::ProcessSpawn => {
                self.process_spawn = true;
            },
            Permission::NetHttp => {
                self.net_http = true;
            },
            Permission::CredentialUse => {
                self.credential_use = true;
            },
            Permission::Custom(name) => {
                self.custom.insert(name.as_str());
            },
        }
        assert(self@ =~= before.insert(permission@));
    }

    /// Whether `permission` is in the set.
    pub fn contains(&self, permission: &Permission) -> (r: bool)
        ensures
            r == self@.contains(permission@),
    {
        match permission {
            Permission::FsRead => self.fs_read,
            Permission::FsWrite => self.fs_write,
            Permission::ProcessSpawn => self.process_spawn,
            Permission::NetHttp => self.net_http,
            Permission::CredentialUse => self.credential_use,
            Permission::Custom(name) => self.custom.contains(name.as_str()),
        }
    }

    /// Whether every permission of this set is in `other`.
    pub fn is_subset(&self, other: &PermissionSet) -> (r: bool)
        ensures
            r == self@.subset_of(other@),
    {
        let fixed = (!self.fs_read || other.fs_read)
            && (!self.fs_write || other.fs_write)
            && (!self.process_spawn || other.process_spawn)
            && (!self.net_http || other.net_http)
            && (!self.credential_use || other.credential_use);
        if !fixed {
            proof {
                assert(self@.contains(PermissionView::FsRead) == self.fs_read);
                assert(other@.contains(PermissionView::FsRead) == other.fs_read);
                assert(self@.contains(PermissionView::FsWrite) == self.fs_write);
                assert(other@.contains(PermissionView::FsWrite) == other.fs_write);
                assert(self@.contains(PermissionView::ProcessSpawn) == self.process_spawn);
                assert(other@.contains(PermissionView::ProcessSpawn) == other.process_spawn);
                assert(self@.contains(PermissionView::NetHttp) == self.net_http);
                assert(other@.contains(PermissionView::NetHttp) == other.net_http);
                assert(self@.contains(PermissionView::CredentialUse) == self.credential_use);
                assert(other@.contains(PermissionView::CredentialUse) == other.credential_use);
            }
            return false;
        }
        let r = self.custom.is_subset(&other.custom);
        proof {
            if r {
                assert(self@.subset_of(other@));
            } else {
                let name = choose|name: Seq<char>|
                    self.custom@.contains(name) && !other.custom@.contains(name);
                assert(self@.contains(PermissionView::Custom(name)));
                assert(!other@.contains(PermissionView::Custom(name)));
            }
        }
        r
    }

    /// The permissions in sequence: the fixed ones in their order, then the
    /// host-defined ones in the order of their names.
    pub fn to_list(&self) -> (r: Vec<Permission>)
        ensures
            r.deep_view() == permission_sequence(self@),
            r.deep_view().to_set() == self@,
    {
        let mut r: Vec<Permission> = Vec::new();
        assert(r.deep_view() =~= Seq::<PermissionView>::empty());
        if self.fs_read {
            append(&mut r, Permission::FsRead);
        }
        if self.fs_write {
            append(&mut r, Permission::FsWrite);
        }
        if self.process_spawn {
            append(&mut r, Permission::ProcessSpawn);
        }
        if self.net_http {
            append(&mut r, Permission::NetHttp);
        }
        if self.credential_use {
            append(&mut r, Permission::CredentialUse);
        }
        let ghost fixed = r.deep_view();
        let ghost names = sorted_items(self.custom@);
        let ghost custom = |name: Seq<char>| PermissionView::Custom(name);
        let count: usize = self.custom.len();
        let mut i: usize = 0;
        assert(r.deep_view() =~= fixed + names.subrange(0, 0).map_values(custom));
        while i < count
            invariant
                i <= count == names.len(),
                names == sorted_items(self.custom@),
                custom == (|name: Seq<char>| PermissionView::Custom(name)),
                r.deep_view() == fixed + names.subrange(0, i as int).map_values(custom),
            decreases count - i,
        {
            append(&mut r, Permission::Custom(self.custom.item_at(i).to_owned()));
            assert(r.deep_view() =~= fixed + names.subrange(0, i + 1).map_values(custom));
            i = i + 1;
        }
        proof {
            assert(names.subrange(0, names.len() as int) =~= names);
            assert(custom_names(self@) =~= self.custom@);
            assert(r.deep_view() =~= permission_sequence(self@));
            lemma_permission_sequence(self@);
        }
        r
    }

    /// Whether the set is empty.
    pub fn is_empty(&self) -> (r: bool)
        ensures
            r == (self@ == Set::<PermissionView>::empty()),
            permission_sequence(self@).to_set() == self@,
    {
        let _count: usize = self.custom.len();
        proof {
            assert(custom_names(self@) =~= self.custom@);
            lemma_permission_sequence(self@);
        }
        let r = !self.fs_read
            && !self.fs_write
            && !self.process_spawn
            && !self.net_http
            && !self.credential_use
            && self.custom.is_empty();
        proof {
            if self@ == Set::<PermissionView>::empty() {
                assert(!self@.contains(PermissionView::FsRead));
                assert(!self@.contains(PermissionView::FsWrite));
                assert(!self@.contains(PermissionView::ProcessSpawn));
                assert(!self@.contains(PermissionView::NetHttp));
                assert(!self@.contains(PermissionView::CredentialUse));
                assert forall|name: Seq<char>| !self.custom@.contains(name) by {
                    assert(!self@.contains(PermissionView::Custom(name)));
                }
                assert(self.custom@ =~= Set::<Seq<char>>::empty());
            }
            if r {
                assert(self@ =~= Set::<PermissionView>::empty());
            }
        }
        r
    }

    /// The permissions that are in both sets.
    pub fn intersection(&self, other: &PermissionSet) -> (r: PermissionSet)
        ensures
            r@ == self@.intersect(other@),
    {
        let r = PermissionSet {
            fs_read: self.fs_read && other.fs_read,
            fs_write: self.fs_write && other.fs_write,
            process_spawn: self.process_spawn && other.process_spawn,
            net_http: self.net_http && other.net_http,
            credential_use: self.credential_use && other.credential_use,
            custom: self.custom.intersection(&other.custom),
        };
        assert(r@ =~= self@.intersect(other@));
        r
    }

    /// The permissions that are in at least one of the sets.
    pub fn union(&self, other: &PermissionSet) -> (r: PermissionSet)
        ensures
            r@ == self@.union(other@),
    {
        let r = PermissionSet {
            fs_read: self.fs_read || other.fs_read,
            fs_write: self.fs_write || other.fs_write,
            process_spawn: self.process_spawn || other.process_spawn,
            net_http: self.net_http || other.net_http,
            credential_use: self.credential_use || other.credential_use,
            custom: self.custom.union(&other.custom),
        };
        assert(r@ =~= self@.union(other@));
        r
    }

    /// Absorbs the slugs of the permissions, in sequence.
    #[verifier::spinoff_prover]
    #[verifier::rlimit(60)]
    pub fn fingerprint_into(&self, hasher: &mut FingerprintHasher)
        ensures
            final(hasher)@ == absorb_all(old(hasher)@, slugs(permission_sequence(self@))),
    {
        broadcast use group_absorb;

        let ghost start = hasher@;
        let ghost mut seen: Seq<PermissionView> = Seq::empty();
        assert(slugs(seen) =~= Seq::<Seq<char>>::empty());
        if self.fs_read {
            proof {
                lemma_slugs_push(seen, PermissionView::FsRead);
                seen = seen.push(PermissionView::FsRead);
            }
            hasher.field("fs_read");
        }
        if self.fs_write {
            proof {
                lemma_slugs_push(seen, PermissionView::FsWrite);
                seen = seen.push(PermissionView::FsWrite);
            }
            hasher.field("fs_write");
        }
        if self.process_spawn {
            proof {
                lemma_slugs_push(seen, PermissionView::ProcessSpawn);
                seen = seen.push(PermissionView::ProcessSpawn);
            }
            hasher.field("process_spawn");
        }
        if self.net_http {
            proof {
                lemma_slugs_push(seen, PermissionView::NetHttp);
                seen = seen.push(PermissionView::NetHttp);
            }
            hasher.field("net_http");
        }
        if self.credential_use {
            proof {
                lemma_slugs_push(seen, PermissionView::CredentialUse);
                seen = seen.push(PermissionView::CredentialUse);
            }
            hasher.field("credential_use");
        }
        let ghost fixed = seen;
        let ghost names = sorted_items(self.custom@);
        let mut i: usize = 0;
        assert(names.subrange(0, 0).map_values(|name: Seq<char>| PermissionView::Custom(name))
            =~= Seq::<PermissionView>::empty());
        assert(seen =~= fixed + names.subrange(0, 0).map_values(
            |name: Seq<char>| PermissionView::Custom(name),
        ));
        while i < self.custom.len()
            invariant
                i <= names.len(),
                names == sorted_items(self.custom@),
                seen == fixed + names.subrange(0, i as int).map_values(
                    |name: Seq<char>| PermissionView::Custom(name),
                ),
                hasher@ == absorb_all(start, slugs(seen)),
            decreases names.len() - i,
        {
            broadcast use group_absorb;

            proof {
                let p = PermissionView::Custom(names[i as int]);
                lemma_slugs_push(seen, p);
                assert(names.subrange(0, i + 1) =~= names.subrange(0, i as int).push(
                    names[i as int],
                ));
                assert(names.subrange(0, i + 1).map_values(
                    |name: Seq<char>| PermissionView::Custom(name),
                ) =~= names.subrange(0, i as int).map_values(
                    |name: Seq<char>| PermissionView::Custom(name),
                ).push(p));
                seen = seen.push(p);
                assert(seen =~= fixed + names.subrange(0, i + 1).map_values(
                    |name: Seq<char>| PermissionView::Custom(name),
                ));
            }
            hasher.field(self.custom.item_at(i));
            i = i + 1;
        }
        assert(names.subrange(0, names.len() as int) =~= names);
        assert(custom_names(self@) =~= self.custom@);
        assert(seen =~= permission_sequence(self@));
    }
}

/// The names of the host-defined permissions in a set.
pub open spec fn custom_names(set: Set<PermissionView>) -> Set<Seq<char>> {
    Set::new(|name: Seq<char>| set.contains(PermissionView::Custom(name)))
}

/// A set in sequence: the fixed permissions in their order, then the
/// host-defined ones in the order of their names.
pub open spec fn permission_sequence(set: Set<PermissionView>) -> Seq<PermissionView> {
    one_if(set, PermissionView::FsRead)
        + one_if(set, PermissionView::FsWrite)
        + one_if(set, PermissionView::ProcessSpawn)
        + one_if(set, PermissionView::NetHttp)
        + one_if(set, PermissionView::CredentialUse)
        + sorted_items(custom_names(set)).map_values(
        |name: Seq<char>| PermissionView::Custom(name),
    )
}

fn append(list: &mut Vec<Permission>, permission: Permission)
    ensures
        final(list).deep_view() == old(list).deep_view().push(permission@),
{
    list.push(permission);
    assert(list.deep_view() =~= old(list).deep_view().push(permission@));
}

proof fn lemma_permission_sequence(set: Set<PermissionView>)
    requires
        sorted_items(custom_names(set)).to_set() == custom_names(set),
    ensures
        permission_sequence(set).to_set() == set,
{
    let names = sorted_items(custom_names(set));
    let custom = |name: Seq<char>| PermissionView::Custom(name);
    let (a, b, c, d, e, f) = (
        one_if(set, PermissionView::FsRead),
        one_if(set, PermissionView::FsWrite),
        one_if(set, PermissionView::ProcessSpawn),
        one_if(set, PermissionView::NetHttp),
        one_if(set, PermissionView::CredentialUse),
        names.map_values(custom),
    );
    assert forall|p: PermissionView| #[trigger]
        permission_sequence(set).to_set().contains(p) <==> set.contains(p) by {
        vstd::seq_lib::lemma_seq_concat_contains_all_elements(a, b, p);
        vstd::seq_lib::lemma_seq_concat_contains_all_elements(a + b, c, p);
        vstd::seq_lib::lemma_seq_concat_contains_all_elements(a + b + c, d, p);
        vstd::seq_lib::lemma_seq_concat_contains_all_elements(a + b + c + d, e, p);
        vstd::seq_lib::lemma_seq_concat_contains_all_elements(a + b + c + d + e, f, p);
        lemma_one_if(set, PermissionView::FsRead, p);
        lemma_one_if(set, PermissionView::FsWrite, p);
        lemma_one_if(set, PermissionView::ProcessSpawn, p);
        lemma_one_if(set, PermissionView::NetHttp, p);
        lemma_one_if(set, PermissionView::CredentialUse, p);
        if f.contains(p) {
            let i = choose|i: int| 0 <= i < f.len() && f[i] == p;
            assert(names.to_set().contains(names[i]));
        }
        if let PermissionView::Custom(name) = p {
            if set.contains(p) {
                assert(custom_names(set).contains(name));
                assert(names.contains(name));
                let i = choose|i: int| 0 <= i < names.len() && names[i] == name;
                assert(f[i] == p);
            }
        }
    }
    assert(permission_sequence(set).to_set() =~= set);
}

proof fn lemma_one_if(set: Set<PermissionView>, p: PermissionView, q: PermissionView)
    ensures
        one_if(set, p).contains(q) <==> (p == q && set.contains(p)),
{
    if set.contains(p) {
        assert(one_if(set, p)[0] == p);
    }
}

/// The sequence of `p` alone if it is in the set, else nothing.
pub open spec fn one_if(set: Set<PermissionView>, p: PermissionView) -> Seq<PermissionView> {
    if set.contains(p) {
        seq![p]
    } else {
        Seq::empty()
    }
}

/// The slugs of the permissions.
pub open spec fn slugs(permissions: Seq<PermissionView>) -> Seq<Seq<char>> {
    permissions.map_values(|p: PermissionView| p.slug())
}

proof fn lemma_slugs_push(permissions: Seq<PermissionView>, p: PermissionView)
    ensures
        slugs(permissions.push(p)) == slugs(permissions) + seq![p.slug()],
{
    assert(slugs(permissions.push(p)) =~= slugs(permissions) + seq![p.slug()]);
}

/// The principal on whose behalf an action is requested.
#[derive(Debug, PartialEq, Eq, PartialOrd, Ord, Hash)]
pub struct SecuritySubject {
    text: String,
}

impl DeepView for SecuritySubject {
    type V = Seq<char>;

    closed spec fn deep_view(&self) -> Seq<char> {
        self.text@
    }
}

impl View for SecuritySubject {
    type V = Seq<char>;

    open spec fn view(&self) -> Seq<char> {
        self.deep_view()
    }
}

impl Record for SecuritySubject {
    fn same(&self, other: &Self) -> (r: bool) {
        self.text.same(&other.text)
    }

    fn copied(&self) -> (r: Self) {
        SecuritySubject { text: self.text.copied() }
    }
}

impl Clone for SecuritySubject {
    fn clone(&self) -> (r: Self)
        ensures
            r@ == self@,
    {
        self.copied()
    }
}

impl SecuritySubject {
    /// Wraps the text.
    pub fn new(text: &str) -> (r: SecuritySubject)
        ensures
            r@ == text@,
    {
        SecuritySubject { text: text.to_owned() }
    }

    /// The wrapped text.
    pub fn as_str(&self) -> (r: &str)
        ensures
            r@ == self@,
    {
        self.text.as_str()
    }
}

/// What an action does, e.g. `fs.open`.
#[derive(Debug, PartialEq, Eq, PartialOrd, Ord, Hash)]
pub struct SecurityAction {
    text: String,
}

impl DeepView for SecurityAction {
    type V = Seq<char>;

    closed spec fn deep_view(&self) -> Seq<char> {
        self.text@
    }
}

impl View for SecurityAction {
    type V = Seq<char>;

    open spec fn view(&self) -> Seq<char> {
        self.deep_view()
    }
}

impl Record for SecurityAction {
    fn same(&self, other: &Self) -> (r: bool) {
        self.text.same(&other.text)
    }

    fn copied(&self) -> (r: Self) {
        SecurityAction { text: self.text.copied() }
    }
}

impl Clone for SecurityAction {
    fn clone(&self) -> (r: Self)
        ensures
            r@ == self@,
    {
        self.copied()
    }
}

impl SecurityAction {
    /// Wraps the text.
    pub fn new(text: &str) -> (r: SecurityAction)
        ensures
            r@ == text@,
    {
        SecurityAction { text: text.to_owned() }
    }

    /// The wrapped text.
    pub fn as_str(&self) -> (r: &str)
        ensures
            r@ == self@,
    {
        self.text.as_str()
    }
}

/// The composed revision of a check set.
#[derive(Debug, PartialEq, Eq, PartialOrd, Ord, Hash)]
pub struct CheckSetRevision {
    text: String,
}

impl DeepView for CheckSetRevision {
    type V = Seq<char>;

    closed spec fn deep_view(&self) -> Seq<char> {
        self.text@
    }
}

impl View for CheckSetRevision {
    type V = Seq<char>;

    open spec fn view(&self) -> Seq<char> {
        self.deep_view()
    }
}

impl Record for CheckSetRevision {
    fn same(&self, other: &Self) -> (r: bool) {
        self.text.same(&other.text)
    }

    fn copied(&self) -> (r: Self) {
        CheckSetRevision { text: self.text.copied() }
    }
}

impl Clone for CheckSetRevision {
    fn clone(&self) -> (r: Self)
        ensures
            r@ == self@,
    {
        self.copied()
    }
}

impl CheckSetRevision {
    /// Wraps the text.
    pub fn new(text: &str) -> (r: CheckSetRevision)
        ensures
            r@ == text@,
    {
        CheckSetRevision { text: text.to_owned() }
    }

    /// The wrapped text.
    pub fn as_str(&self) -> (r: &str)
        ensures
            r@ == self@,
    {
        self.text.as_str()
    }
}

/// What an action acts on.
#[derive(Debug, PartialEq, Eq)]
pub enum SecurityResource {
    /// A path below a mount.
    Filesystem {
        /// The mount.
        mount: String,
        /// The path below it.
        segments: Vec<String>,
    },
    /// A path at an endpoint, under one method.
    Network {
        /// The endpoint.
        endpoint: String,
        /// The method.
        method: String,
        /// The path.
        segments: Vec<String>,
    },
    /// A credential.
    Credential {
        /// The reference by which it is known.
        reference: String,
    },
    /// A host-defined resource.
    Other {
        /// Its kind.
        kind: String,
        /// Its name.
        name: String,
    },
}

/// What a [`SecurityResource`] holds.
pub enum SecurityResourceView {
    Filesystem { mount: Seq<char>, segments: Seq<Seq<char>> },
    Network { endpoint: Seq<char>, method: Seq<char>, segments: Seq<Seq<char>> },
    Credential { reference: Seq<char> },
    Other { kind: Seq<char>, name: Seq<char> },
}

impl DeepView for SecurityResource {
    type V = SecurityResourceView;

    open spec fn deep_view(&self) -> SecurityResourceView {
        match self {
            SecurityResource::Filesystem { mount, segments } => SecurityResourceView::Filesystem {
                mount: mount.deep_view(),
                segments: segments.deep_view(),
            },
            SecurityResource::Network { endpoint, method, segments } => {
                SecurityResourceView::Network {
                    endpoint: endpoint.deep_view(),
                    method: method.deep_view(),
                    segments: segments.deep_view(),
                }
            },
            SecurityResource::Credential { reference } => SecurityResourceView::Credential {
                reference: reference.deep_view(),
            },
            SecurityResource::Other { kind, name } => SecurityResourceView::Other {
                kind: kind.deep_view(),
                name: name.deep_view(),
            },
        }
    }
}

impl View for SecurityResource {
    type V = SecurityResourceView;

    open spec fn view(&self) -> SecurityResourceView {
        self.deep_view()
    }
}

impl Record for SecurityResource {
    fn same(&self, other: &Self) -> (r: bool) {
        match (self, other) {
            (
                SecurityResource::Filesystem { mount, segments },
                SecurityResource::Filesystem { mount: mount_b, segments: segments_b },
            ) => mount.same(mount_b) && segments.same(segments_b),
            (
                SecurityResource::Network { endpoint, method, segments },
                SecurityResource::Network {
                    endpoint: endpoint_b,
                    method: method_b,
                    segments: segments_b,
                },
            ) => endpoint.same(endpoint_b) && method.same(method_b) && segments.same(segments_b),
            (
                SecurityResource::Credential { reference },
                SecurityResource::Credential { reference: reference_b },
            ) => reference.same(reference_b),
            (
                SecurityResource::Other { kind, name },
                SecurityResource::Other { kind: kind_b, name: name_b },
            ) => kind.same(kind_b) && name.same(name_b),
            _ => false,
        }
    }

    fn copied(&self) -> (r: Self) {
        match self {
            SecurityResource::Filesystem { mount, segments } => SecurityResource::Filesystem {
                mount: mount.copied(),
                segments: segments.copied(),
            },
            SecurityResource::Network { endpoint, method, segments } => SecurityResource::Network {
                endpoint: endpoint.copied(),
                method: method.copied(),
                segments: segments.copied(),
            },
            SecurityResource::Credential { reference } => SecurityResource::Credential {
                reference: reference.copied(),
            },
            SecurityResource::Other { kind, name } => SecurityResource::Other {
                kind: kind.copied(),
                name: name.copied(),
            },
        }
    }
}

impl Clone for SecurityResource {
    fn clone(&self) -> (r: Self)
        ensures
            r@ == self@,
    {
        self.copied()
    }
}

/// Whether the scope `outer` is `inner` or contains it: the same mount or
/// endpoint and method, with a path that starts alike; else only itself.
pub open spec fn scope_contains(
    outer: SecurityResourceView,
    inner: SecurityResourceView,
) -> bool {
    match (outer, inner) {
        (
            SecurityResourceView::Filesystem { mount, segments },
            SecurityResourceView::Filesystem { mount: mount_b, segments: segments_b },
        ) => mount == mount_b && segments.is_prefix_of(segments_b),
        (
            SecurityResourceView::Network { endpoint, method, segments },
            SecurityResourceView::Network {
                endpoint: endpoint_b,
                method: method_b,
                segments: segments_b,
            },
        ) => endpoint == endpoint_b && method == method_b && segments.is_prefix_of(segments_b),
        _ => outer == inner,
    }
}

/// The canonical fields of a resource.
pub open spec fn resource_fields(view: SecurityResourceView) -> Seq<Seq<char>> {
    match view {
        SecurityResourceView::Filesystem { mount, segments } => seq!["filesystem"@] + seq![mount]
            + <Vec<String> as Encoded>::fields(segments),
        SecurityResourceView::Network { endpoint, method, segments } => seq!["network"@]
            + seq![endpoint] + seq![method] + <Vec<String> as Encoded>::fields(segments),
        SecurityResourceView::Credential { reference } => seq!["credential"@] + seq![reference],
        SecurityResourceView::Other { kind, name } => seq!["other"@] + seq![kind] + seq![name],
    }
}

impl Encoded for SecurityResource {
    open spec fn fields(view: SecurityResourceView) -> Seq<Seq<char>> {
        resource_fields(view)
    }

    fn encode(&self, hasher: &mut FingerprintHasher) {
        self.fingerprint_into(hasher);
    }

    proof fn lemma_decodable(
        a: SecurityResourceView,
        b: SecurityResourceView,
        x: Seq<Seq<char>>,
        y: Seq<Seq<char>>,
    ) {
        broadcast use lemma_concat_assoc;

        reveal_strlit("filesystem");
        assert("filesystem"@.len() == 10);
        reveal_strlit("network");
        assert("network"@.len() == 7);
        reveal_strlit("credential");
        assert("credential"@.len() == 10);
        reveal_strlit("other");
        assert("other"@.len() == 5);
        assert("filesystem"@[0] != "credential"@[0]);
        assert((Self::fields(a) + x)[0] == Self::fields(a)[0]);
        assert((Self::fields(b) + y)[0] == Self::fields(b)[0]);
        match (a, b) {
            (
                SecurityResourceView::Filesystem { mount, segments },
                SecurityResourceView::Filesystem { mount: other_mount, segments: other_segments },
            ) => {
                let x2 = Vec::<String>::fields(segments) + x;
                let y2 = Vec::<String>::fields(other_segments) + y;
                let x1 = String::fields(mount) + x2;
                let y1 = String::fields(other_mount) + y2;
                String::lemma_decodable("filesystem"@, "filesystem"@, x1, y1);
                String::lemma_decodable(mount, other_mount, x2, y2);
                Vec::<String>::lemma_decodable(segments, other_segments, x, y);
            },
            (
                SecurityResourceView::Network { endpoint, method, segments },
                SecurityResourceView::Network {
                    endpoint: other_endpoint,
                    method: other_method,
                    segments: other_segments,
                },
            ) => {
                let x3 = Vec::<String>::fields(segments) + x;
                let y3 = Vec::<String>::fields(other_segments) + y;
                let x2 = String::fields(method) + x3;
                let y2 = String::fields(other_method) + y3;
                let x1 = String::fields(endpoint) + x2;
                let y1 = String::fields(other_endpoint) + y2;
                String::lemma_decodable("network"@, "network"@, x1, y1);
                String::lemma_decodable(endpoint, other_endpoint, x2, y2);
                String::lemma_decodable(method, other_method, x3, y3);
                Vec::<String>::lemma_decodable(segments, other_segments, x, y);
            },
            (
                SecurityResourceView::Credential { reference },
                SecurityResourceView::Credential { reference: other_reference },
            ) => {
                let x1 = String::fields(reference) + x;
                let y1 = String::fields(other_reference) + y;
                String::lemma_decodable("credential"@, "credential"@, x1, y1);
                String::lemma_decodable(reference, other_reference, x, y);
            },
            (
                SecurityResourceView::Other { kind, name },
                SecurityResourceView::Other { kind: other_kind, name: other_name },
            ) => {
                let x2 = String::fields(name) + x;
                let y2 = String::fields(other_name) + y;
                let x1 = String::fields(kind) + x2;
                let y1 = String::fields(other_kind) + y2;
                String::lemma_decodable("other"@, "other"@, x1, y1);
                String::lemma_decodable(kind, other_kind, x2, y2);
                String::lemma_decodable(name, other_name, x, y);
            },
            _ => {},
        }
    }
}

impl SecurityResource {
    /// A path below a mount.
    pub fn filesystem(mount: &str, segments: Vec<String>) -> (r: SecurityResource)
        ensures
            r@ == (SecurityResourceView::Filesystem {
                mount: mount@,
                segments: segments.deep_view(),
            }),
    {
        SecurityResource::Filesystem { mount: mount.to_owned(), segments }
    }

    /// A path at an endpoint, under one method.
    pub fn network(endpoint: &str, method: &str, segments: Vec<String>) -> (r: SecurityResource)
        ensures
            r@ == (SecurityResourceView::Network {
                endpoint: endpoint@,
                method: method@,
                segments: segments.deep_view(),
            }),
    {
        SecurityResource::Network {
            endpoint: endpoint.to_owned(),
            method: method.to_owned(),
            segments,
        }
    }

    /// A credential.
    pub fn credential(reference: &str) -> (r: SecurityResource)
        ensures
            r@ == (SecurityResourceView::Credential { reference: reference@ }),
    {
        SecurityResource::Credential { reference: reference.to_owned() }
    }

    /// A host-defined resource.
    pub fn other(kind: &str, name: &str) -> (r: SecurityResource)
        ensures
            r@ == (SecurityResourceView::Other { kind: kind@, name: name@ }),
    {
        SecurityResource::Other { kind: kind.to_owned(), name: name.to_owned() }
    }

    /// Whether `inner` is this resource or lies within it.
    pub fn contains(&self, inner: &SecurityResource) -> (r: bool)
        ensures
            r == scope_contains(self@, inner@),
    {
        match (self, inner) {
            (
                SecurityResource::Filesystem { mount, segments },
                SecurityResource::Filesystem { mount: mount_b, segments: segments_b },
            ) => mount.same(mount_b) && begins_with(segments_b, segments),
            (
                SecurityResource::Network { endpoint, method, segments },
                SecurityResource::Network {
                    endpoint: endpoint_b,
                    method: method_b,
                    segments: segments_b,
                },
            ) => endpoint.same(endpoint_b) && method.same(method_b) && begins_with(
                segments_b,
                segments,
            ),
            _ => self.same(inner),
        }
    }

    /// Absorbs the resource into a fingerprint.
    pub fn fingerprint_into(&self, hasher: &mut FingerprintHasher)
        ensures
            final(hasher)@ == absorb_all(old(hasher)@, resource_fields(self@)),
    {
        broadcast use group_absorb;

        match self {
            SecurityResource::Filesystem { mount, segments } => {
                hasher.field("filesystem");
                hasher.field(mount.as_str());
                segments.encode(hasher);
            },
            SecurityResource::Network { endpoint, method, segments } => {
                hasher.field("network");
                hasher.field(endpoint.as_str());
                hasher.field(method.as_str());
                segments.encode(hasher);
            },
            SecurityResource::Credential { reference } => {
                hasher.field("credential");
                hasher.field(reference.as_str());
            },
            SecurityResource::Other { kind, name } => {
                hasher.field("other");
                hasher.field(kind.as_str());
                hasher.field(name.as_str());
            },
        }
    }
}

/// Containment of scopes is reflexive.
pub proof fn scope_contains_itself(scope: SecurityResourceView)
    ensures
        scope_contains(scope, scope),
{
    match scope {
        SecurityResourceView::Filesystem { segments, .. } => {
            assert(segments =~= segments.subrange(0, segments.len() as int));
        },
        SecurityResourceView::Network { segments, .. } => {
            assert(segments =~= segments.subrange(0, segments.len() as int));
        },
        _ => {},
    }
}

/// Containment of scopes is transitive: what lies within a scope lies within
/// every scope that contains that scope.
pub proof fn scope_containment_is_transitive(
    a: SecurityResourceView,
    b: SecurityResourceView,
    c: SecurityResourceView,
)
    requires
        scope_contains(a, b),
        scope_contains(b, c),
    ensures
        scope_contains(a, c),
{
    match (a, b, c) {
        (
            SecurityResourceView::Filesystem { segments: x, .. },
            SecurityResourceView::Filesystem { segments: y, .. },
            SecurityResourceView::Filesystem { segments: z, .. },
        ) => {
            assert(x =~= z.subrange(0, x.len() as int));
        },
        (
            SecurityResourceView::Network { segments: x, .. },
            SecurityResourceView::Network { segments: y, .. },
            SecurityResourceView::Network { segments: z, .. },
        ) => {
            assert(x =~= z.subrange(0, x.len() as int));
        },
        _ => {},
    }
}

/// On whose behalf, where, and under which check set an action is requested.
#[derive(Debug, PartialEq, Eq)]
pub struct SecurityContext {
    /// The principal.
    pub subject: SecuritySubject,
    /// The session.
    pub session: SessionId,
    /// The tenant.
    pub tenant: TenantId,
    /// The composed check-set revision.
    pub check_set_revision: CheckSetRevision,
}

/// What a [`SecurityContext`] holds.
pub struct SecurityContextView {
    pub subject: Seq<char>,
    pub session: Seq<char>,
    pub tenant: Seq<char>,
    pub check_set_revision: Seq<char>,
}

impl DeepView for SecurityContext {
    type V = SecurityContextView;

    open spec fn deep_view(&self) -> SecurityContextView {
        SecurityContextView {
            subject: self.subject.deep_view(),
            session: self.session.deep_view(),
            tenant: self.tenant.deep_view(),
            check_set_revision: self.check_set_revision.deep_view(),
        }
    }
}

impl View for SecurityContext {
    type V = SecurityContextView;

    open spec fn view(&self) -> SecurityContextView {
        self.deep_view()
    }
}

impl Record for SecurityContext {
    fn same(&self, other: &Self) -> (r: bool) {
        self.subject.same(&other.subject)
            && self.session.same(&other.session)
            && self.tenant.same(&other.tenant)
            && self.check_set_revision.same(&other.check_set_revision)
    }

    fn copied(&self) -> (r: Self) {
        SecurityContext {
            subject: self.subject.copied(),
            session: self.session.copied(),
            tenant: self.tenant.copied(),
            check_set_revision: self.check_set_revision.copied(),
        }
    }
}

impl Clone for SecurityContext {
    fn clone(&self) -> (r: Self)
        ensures
            r@ == self@,
    {
        self.copied()
    }
}

impl SecurityContext {
    /// Builds a context.
    pub fn new(
        subject: SecuritySubject,
        session: SessionId,
        tenant: TenantId,
        check_set_revision: CheckSetRevision,
    ) -> (r: SecurityContext)
        ensures
            r@ == (SecurityContextView {
                subject: subject@,
                session: session@,
                tenant: tenant@,
                check_set_revision: check_set_revision@,
            }),
    {
        SecurityContext { subject, session, tenant, check_set_revision }
    }
}

/// What is known of the content behind a request.
#[derive(Debug, PartialEq, Eq)]
pub struct SecurityEvidence {
    /// Where it comes from.
    pub trust: TrustClass,
    /// The guard that classified it.
    pub guard: Fingerprint,
}

/// What a [`SecurityEvidence`] holds.
pub struct SecurityEvidenceView {
    pub trust: TrustClass,
    pub guard: Seq<char>,
}

impl DeepView for SecurityEvidence {
    type V = SecurityEvidenceView;

    open spec fn deep_view(&self) -> SecurityEvidenceView {
        SecurityEvidenceView {
            trust: self.trust.deep_view(),
            guard: self.guard.deep_view(),
        }
    }
}

impl View for SecurityEvidence {
    type V = SecurityEvidenceView;

    open spec fn view(&self) -> SecurityEvidenceView {
        self.deep_view()
    }
}

impl Record for SecurityEvidence {
    fn same(&self, other: &Self) -> (r: bool) {
        self.trust.same(&other.trust)
            && self.guard.same(&other.guard)
    }

    fn copied(&self) -> (r: Self) {
        SecurityEvidence {
            trust: self.trust.copied(),
            guard: self.guard.copied(),
        }
    }
}

impl Clone for SecurityEvidence {
    fn clone(&self) -> (r: Self)
        ensures
            r@ == self@,
    {
        self.copied()
    }
}

impl SecurityEvidence {
    /// Builds the evidence.
    pub fn new(trust: TrustClass, guard: Fingerprint) -> (r: SecurityEvidence)
        ensures
            r@ == (SecurityEvidenceView { trust, guard: guard@ }),
    {
        SecurityEvidence { trust, guard }
    }
}

/// A request for authority.
#[derive(Debug, PartialEq, Eq)]
pub struct AuthorizationRequest {
    /// On whose behalf, and where.
    pub context: SecurityContext,
    /// What is to be done.
    pub action: SecurityAction,
    /// To what.
    pub resource: SecurityResource,
    /// The permissions that it needs.
    pub requested: PermissionSet,
    /// Until when the request must be answered.
    pub deadline: Deadline,
    /// What is known of the content behind it.
    pub evidence: SecurityEvidence,
}

/// What a [`AuthorizationRequest`] holds.
pub struct AuthorizationRequestView {
    pub context: SecurityContextView,
    pub action: Seq<char>,
    pub resource: SecurityResourceView,
    pub requested: Set<PermissionView>,
    pub deadline: Option<Timestamp>,
    pub evidence: SecurityEvidenceView,
}

impl DeepView for AuthorizationRequest {
    type V = AuthorizationRequestView;

    open spec fn deep_view(&self) -> AuthorizationRequestView {
        AuthorizationRequestView {
            context: self.context.deep_view(),
            action: self.action.deep_view(),
            resource: self.resource.deep_view(),
            requested: self.requested.deep_view(),
            deadline: self.deadline.deep_view(),
            evidence: self.evidence.deep_view(),
        }
    }
}

impl View for AuthorizationRequest {
    type V = AuthorizationRequestView;

    open spec fn view(&self) -> AuthorizationRequestView {
        self.deep_view()
    }
}

impl Record for AuthorizationRequest {
    fn same(&self, other: &Self) -> (r: bool) {
        self.context.same(&other.context)
            && self.action.same(&other.action)
            && self.resource.same(&other.resource)
            && self.requested.same(&other.requested)
            && self.deadline.same(&other.deadline)
            && self.evidence.same(&other.evidence)
    }

    fn copied(&self) -> (r: Self) {
        AuthorizationRequest {
            context: self.context.copied(),
            action: self.action.copied(),
            resource: self.resource.copied(),
            requested: self.requested.copied(),
            deadline: self.deadline.copied(),
            evidence: self.evidence.copied(),
        }
    }
}

impl Clone for AuthorizationRequest {
    fn clone(&self) -> (r: Self)
        ensures
            r@ == self@,
    {
        self.copied()
    }
}

impl AuthorizationRequest {
    /// Builds a request.
    pub fn new(
        context: SecurityContext,
        action: SecurityAction,
        resource: SecurityResource,
        requested: PermissionSet,
        deadline: Deadline,
        evidence: SecurityEvidence,
    ) -> (r: AuthorizationRequest)
        ensures
            r@ == (AuthorizationRequestView {
                context: context@,
                action: action@,
                resource: resource@,
                requested: requested@,
                deadline: deadline@,
                evidence: evidence@,
            }),
    {
        AuthorizationRequest { context, action, resource, requested, deadline, evidence }
    }
}

/// The place of a permission among the others: the built-in ones in their own order, and
/// behind them the custom ones.
pub open spec fn place_of(p: PermissionView) -> int {
    match p {
        PermissionView::FsRead => 0,
        PermissionView::FsWrite => 1,
        PermissionView::ProcessSpawn => 2,
        PermissionView::NetHttp => 3,
        PermissionView::CredentialUse => 4,
        PermissionView::Custom(_) => 5,
    }
}

/// Whether `p` is listed before `q`: by its place, and custom ones by their names.
pub open spec fn is_listed_before(p: PermissionView, q: PermissionView) -> bool {
    ||| place_of(p) < place_of(q)
    ||| {
        &&& p is Custom
        &&& q is Custom
        &&& crate::text::text_before(p->Custom_0, q->Custom_0)
    }
}

/// A list of permissions holds every one of the set, once, in order.
pub proof fn permissions_are_listed_once_in_order(set: Set<PermissionView>)
    requires
        set.finite(),
    ensures
        forall|p: PermissionView| #[trigger]
            permission_sequence(set).contains(p) <==> set.contains(p),
        forall|i: int, j: int|
            0 <= i < j < permission_sequence(set).len() ==> is_listed_before(
                #[trigger] permission_sequence(set)[i],
                #[trigger] permission_sequence(set)[j],
            ),
{
    let names = custom_names(set);
    lemma_custom_names_are_finite(set);
    crate::collections::lemma_finite_set_in_order(names);
    let items = sorted_items(names);
    let customs = items.map_values(|name: Seq<char>| PermissionView::Custom(name));
    let a = one_if(set, PermissionView::FsRead);
    let b = a + one_if(set, PermissionView::FsWrite);
    let c = b + one_if(set, PermissionView::ProcessSpawn);
    let d = c + one_if(set, PermissionView::NetHttp);
    let e = d + one_if(set, PermissionView::CredentialUse);
    let all = e + customs;
    assert(permission_sequence(set) == all);
    assert forall|i: int| 0 <= i < e.len() implies place_of(#[trigger] e[i]) < 5 by {
    }
    assert forall|i: int, j: int| 0 <= i < j < e.len() implies place_of(#[trigger] e[i])
        < place_of(#[trigger] e[j]) by {
    }
    assert forall|i: int, j: int| 0 <= i < j < all.len() implies is_listed_before(
        #[trigger] all[i],
        #[trigger] all[j],
    ) by {
        if j < e.len() {
            assert(all[i] == e[i] && all[j] == e[j]);
        } else if i < e.len() {
            assert(all[i] == e[i]);
            assert(all[j] == customs[j - e.len()]);
        } else {
            assert(all[i] == PermissionView::Custom(items[i - e.len()]));
            assert(all[j] == PermissionView::Custom(items[j - e.len()]));
        }
    }
    assert forall|p: PermissionView| #[trigger] all.contains(p) <==> set.contains(p) by {
        lemma_contains_in_parts(e, customs, p);
        lemma_contains_in_parts(d, one_if(set, PermissionView::CredentialUse), p);
        lemma_contains_in_parts(c, one_if(set, PermissionView::NetHttp), p);
        lemma_contains_in_parts(b, one_if(set, PermissionView::ProcessSpawn), p);
        lemma_contains_in_parts(a, one_if(set, PermissionView::FsWrite), p);
        lemma_one_if(set, PermissionView::FsRead, p);
        lemma_one_if(set, PermissionView::FsWrite, p);
        lemma_one_if(set, PermissionView::ProcessSpawn, p);
        lemma_one_if(set, PermissionView::NetHttp, p);
        lemma_one_if(set, PermissionView::CredentialUse, p);
        if customs.contains(p) {
            let i = choose|i: int| 0 <= i < customs.len() && customs[i] == p;
            assert(items.to_set().contains(items[i]));
            assert(names.contains(items[i]));
        }
        if let PermissionView::Custom(name) = p {
            if set.contains(p) {
                assert(names.contains(name));
                assert(items.to_set().contains(name));
                let i = choose|i: int| 0 <= i < items.len() && items[i] == name;
                assert(customs[i] == p);
            }
        }
    }
}

proof fn lemma_contains_in_parts(a: Seq<PermissionView>, b: Seq<PermissionView>, p: PermissionView)
    ensures
        (a + b).contains(p) <==> a.contains(p) || b.contains(p),
{
    if a.contains(p) {
        let i = choose|i: int| 0 <= i < a.len() && a[i] == p;
        assert((a + b)[i] == p);
    }
    if b.contains(p) {
        let i = choose|i: int| 0 <= i < b.len() && b[i] == p;
        assert((a + b)[a.len() + i] == p);
    }
}

proof fn lemma_custom_names_are_finite(set: Set<PermissionView>)
    requires
        set.finite(),
    ensures
        custom_names(set).finite(),
{
    let name_of = |p: PermissionView| match p {
        PermissionView::Custom(name) => name,
        _ => Seq::<char>::empty(),
    };
    let mapped = set.map(name_of);
    set.lemma_map_finite(name_of);
    assert forall|name: Seq<char>| custom_names(set).contains(name) implies mapped.contains(
        name,
    ) by {
        assert(name_of(PermissionView::Custom(name)) == name);
    }
    vstd::set_lib::lemma_set_subset_finite(mapped, custom_names(set));
}

/// A permission has a stable name of its own; any other goes by the name it was given.
pub proof fn permissions_have_stable_names(x: PermissionView)
    ensures
        x == PermissionView::FsRead ==> x.slug() == "fs_read"@,
        x == PermissionView::FsWrite ==> x.slug() == "fs_write"@,
        x == PermissionView::ProcessSpawn ==> x.slug() == "process_spawn"@,
        x == PermissionView::NetHttp ==> x.slug() == "net_http"@,
        x == PermissionView::CredentialUse ==> x.slug() == "credential_use"@,
        x matches PermissionView::Custom(name) ==> x.slug() == name,
{
}

/// A permission is in the union of two sets if it is in either, in their intersection if it is
/// in both; and one set is within another exactly when their intersection is the set itself.
pub proof fn permission_sets_combine(
    a: PermissionSet,
    b: PermissionSet,
    p: Permission,
    both: PermissionSet,
    either: PermissionSet,
    in_a: bool,
    in_b: bool,
    in_both: bool,
    in_either: bool,
    within: bool,
)
    requires
        call_ensures(PermissionSet::intersection, (&a, &b), both),
        call_ensures(PermissionSet::union, (&a, &b), either),
        call_ensures(PermissionSet::contains, (&a, &p), in_a),
        call_ensures(PermissionSet::contains, (&b, &p), in_b),
        call_ensures(PermissionSet::contains, (&both, &p), in_both),
        call_ensures(PermissionSet::contains, (&either, &p), in_either),
        call_ensures(PermissionSet::is_subset, (&a, &b), within),
    ensures
        in_both <==> in_a && in_b,
        in_either <==> in_a || in_b,
        within ==> (in_a ==> in_b),
        within <==> both@ == a@,
{
    if both@ == a@ {
        assert forall|q: PermissionView| a@.contains(q) implies b@.contains(q) by {
            assert(both@.contains(q));
        }
    }
    if within {
        assert(both@ =~= a@);
    }
}

/// A permission that was inserted is in the set, and every other one exactly when it was.
pub proof fn an_inserted_permission_is_in_the_set(
    set: &mut PermissionSet,
    inserted: Permission,
    other: PermissionView,
)
    requires
        call_ensures(PermissionSet::insert, (set, &inserted), ()),
    ensures
        final(set)@.contains(other) <==> other == inserted@ || old(set)@.contains(other),
{
}

/// A set of a list holds just what is listed; a single permission is the only one of its set,
/// and a new set is empty.
pub proof fn permission_sets_hold_what_is_listed(
    listed: Vec<Permission>,
    one: Permission,
    p: Permission,
    many: PermissionSet,
    single: PermissionSet,
    none: PermissionSet,
    in_many: bool,
    in_single: bool,
    in_none: bool,
    is_none: bool,
    is_single: bool,
)
    requires
        call_ensures(PermissionSet::from_list, (listed,), many),
        call_ensures(PermissionSet::single, (one,), single),
        call_ensures(PermissionSet::new, (), none),
        call_ensures(PermissionSet::contains, (&many, &p), in_many),
        call_ensures(PermissionSet::contains, (&single, &p), in_single),
        call_ensures(PermissionSet::contains, (&none, &p), in_none),
        call_ensures(PermissionSet::is_empty, (&none,), is_none),
        call_ensures(PermissionSet::is_empty, (&single,), is_single),
    ensures
        in_many <==> listed.deep_view().contains(p@),
        in_single <==> p@ == one@,
        !in_none,
        is_none,
        !is_single,
{
    assert(single@.contains(one@));
}

/// A resource contains one of a file system exactly when that is on the same mount and its path
/// begins with the resource's own.
pub proof fn a_directory_contains_what_is_below(
    mount: &str,
    above: Vec<String>,
    below: Vec<String>,
    outer: SecurityResource,
    inner: SecurityResource,
    r: bool,
)
    requires
        call_ensures(SecurityResource::filesystem, (mount, above), outer),
        call_ensures(SecurityResource::filesystem, (mount, below), inner),
        call_ensures(SecurityResource::contains, (&outer, &inner), r),
    ensures
        r <==> {
            &&& above.deep_view().len() <= below.deep_view().len()
            &&& forall|i: int|
                0 <= i < above.deep_view().len() ==> #[trigger] above.deep_view()[i]
                    == below.deep_view()[i]
        },
{
    let (a, b) = (above.deep_view(), below.deep_view());
    if a.is_prefix_of(b) {
        assert forall|i: int| 0 <= i < a.len() implies #[trigger] a[i] == b[i] by {
            assert(b.subrange(0, a.len() as int)[i] == b[i]);
        }
    }
    if a.len() <= b.len() && (forall|i: int| 0 <= i < a.len() ==> #[trigger] a[i] == b[i]) {
        assert(a =~= b.subrange(0, a.len() as int));
    }
}

/// A credential, or any other resource that is no place, contains only itself.
pub proof fn a_credential_contains_only_itself(
    reference: &str,
    outer: SecurityResource,
    inner: SecurityResource,
    r: bool,
)
    requires
        call_ensures(SecurityResource::credential, (reference,), outer),
        call_ensures(SecurityResource::contains, (&outer, &inner), r),
    ensures
        r <==> inner@ == (SecurityResourceView::Credential { reference: reference@ }),
{
}

/// A request and its context hold just what they were made of.
pub proof fn a_request_holds_what_it_was_made_of(
    subject: SecuritySubject,
    session: SessionId,
    tenant: TenantId,
    check_set_revision: CheckSetRevision,
    action: SecurityAction,
    resource: SecurityResource,
    requested: PermissionSet,
    deadline: Deadline,
    evidence: SecurityEvidence,
    context: SecurityContext,
    r: AuthorizationRequest,
)
    requires
        call_ensures(
            SecurityContext::new,
            (subject, session, tenant, check_set_revision),
            context,
        ),
        call_ensures(
            AuthorizationRequest::new,
            (context, action, resource, requested, deadline, evidence),
            r,
        ),
    ensures
        r@.context.subject == subject@,
        r@.context.session == session@,
        r@.context.tenant == tenant@,
        r@.context.check_set_revision == check_set_revision@,
        r@.action == action@,
        r@.resource == resource@,
        r@.requested == requested@,
        r@.deadline == deadline@,
        r@.evidence == evidence@,
{
}

/// A registered name is qualified by its domain, which tells skills from servers.
pub proof fn a_qualified_name_begins_with_its_domain(
    name: &str,
    skill: RegistryId,
    mcp: RegistryId,
    id: RegistryId,
    qualified: String,
)
    requires
        call_ensures(RegistryId::skill, (name,), skill),
        call_ensures(RegistryId::mcp, (name,), mcp),
        call_ensures(RegistryId::qualified, (&id,), qualified),
    ensures
        skill@.name == name@,
        mcp@.name == name@,
        skill@.domain == "skill"@,
        mcp@.domain == "mcp"@,
        ({
            let (domain, own) = (id@.domain, id@.name);
            &&& qualified@.len() == domain.len() + 1 + own.len()
            &&& qualified@.subrange(0, domain.len() as int) == domain
            &&& qualified@[domain.len() as int] == ':'
            &&& qualified@.subrange(domain.len() as int + 1, qualified@.len() as int) == own
        }),
{
    reveal_strlit(":");
    let (domain, own) = (id@.domain, id@.name);
    assert(qualified@ == domain + ":"@ + own);
    assert(qualified@.subrange(0, domain.len() as int) =~= domain);
    assert(qualified@.subrange(domain.len() as int + 1, qualified@.len() as int) =~= own);
}

} // verus!
