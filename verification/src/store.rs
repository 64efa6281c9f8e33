//! Session state as it is stored.

use vstd::prelude::*;

use crate::clock::Timestamp;
use crate::collections::TextMap;
use crate::content::{Message, MessageView};
use crate::fingerprint::Fingerprint;
use crate::ids::SessionId;
use crate::json::Json;
use crate::record::Record;
use crate::usage::{UsageLedger, UsageLedgerView};

verus! {

/// The identity counters of a session.
#[derive(Debug, PartialEq, Eq)]
pub struct SessionIdentityState {
    /// The next ordinal of each kind of identifier.
    pub counters: TextMap<u64>,
}

/// What a [`SessionIdentityState`] holds.
pub struct SessionIdentityStateView {
    pub counters: Seq<(Seq<char>, u64)>,
}

impl DeepView for SessionIdentityState {
    type V = SessionIdentityStateView;

    open spec fn deep_view(&self) -> SessionIdentityStateView {
        SessionIdentityStateView {
            counters: self.counters.deep_view(),
        }
    }
}

impl View for SessionIdentityState {
    type V = SessionIdentityStateView;

    open spec fn view(&self) -> SessionIdentityStateView {
        self.deep_view()
    }
}

impl Record for SessionIdentityState {
    fn same(&self, other: &Self) -> (r: bool) {
        self.counters.same(&other.counters)
    }

    fn copied(&self) -> (r: Self) {
        SessionIdentityState {
            counters: self.counters.copied(),
        }
    }
}

impl Clone for SessionIdentityState {
    fn clone(&self) -> (r: Self)
        ensures
            r@ == self@,
    {
        self.copied()
    }
}

impl Default for SessionIdentityState {
    fn default() -> (r: SessionIdentityState)
        ensures
            r@.counters.len() == 0,
    {
        SessionIdentityState { counters: TextMap::new() }
    }
}

/// The exact canonical state of a session.
#[derive(Debug, PartialEq, Eq)]
pub struct SessionSnapshot {
    /// The session.
    pub id: SessionId,
    /// Its canonical history.
    pub history: Vec<Message>,
    /// Its usage.
    pub usage: UsageLedger,
    /// Its identity counters.
    pub identity: SessionIdentityState,
    /// The manifests of its runs.
    pub manifests: Vec<Fingerprint>,
    /// The state of its components.
    pub extension_state: TextMap<Json>,
    /// When it was last changed.
    pub updated: Timestamp,
}

/// What a [`SessionSnapshot`] holds.
pub struct SessionSnapshotView {
    pub id: Seq<char>,
    pub history: Seq<MessageView>,
    pub usage: UsageLedgerView,
    pub identity: SessionIdentityStateView,
    pub manifests: Seq<Seq<char>>,
    pub extension_state: Seq<(Seq<char>, Seq<char>)>,
    pub updated: Timestamp,
}

impl DeepView for SessionSnapshot {
    type V = SessionSnapshotView;

    open spec fn deep_view(&self) -> SessionSnapshotView {
        SessionSnapshotView {
            id: self.id.deep_view(),
            history: self.history.deep_view(),
            usage: self.usage.deep_view(),
            identity: self.identity.deep_view(),
            manifests: self.manifests.deep_view(),
            extension_state: self.extension_state.deep_view(),
            updated: self.updated.deep_view(),
        }
    }
}

impl View for SessionSnapshot {
    type V = SessionSnapshotView;

    open spec fn view(&self) -> SessionSnapshotView {
        self.deep_view()
    }
}

impl Record for SessionSnapshot {
    fn same(&self, other: &Self) -> (r: bool) {
        self.id.same(&other.id)
            && self.history.same(&other.history)
            && self.usage.same(&other.usage)
            && self.identity.same(&other.identity)
            && self.manifests.same(&other.manifests)
            && self.extension_state.same(&other.extension_state)
            && self.updated.same(&other.updated)
    }

    fn copied(&self) -> (r: Self) {
        SessionSnapshot {
            id: self.id.copied(),
            history: self.history.copied(),
            usage: self.usage.copied(),
            identity: self.identity.copied(),
            manifests: self.manifests.copied(),
            extension_state: self.extension_state.copied(),
            updated: self.updated.copied(),
        }
    }
}

impl Clone for SessionSnapshot {
    fn clone(&self) -> (r: Self)
        ensures
            r@ == self@,
    {
        self.copied()
    }
}

} // verus!
