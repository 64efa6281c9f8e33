//! Fail-closed approval.
//!
//! A composed authorization decision may require host approval for any prepared
//! permission, including reads, writes, process and network access, or
//! host-defined authority. Absence of host support, denial, cancellation, or
//! timeout fails closed: only [`ApprovalDecision::Allow`] allows.

use vstd::prelude::*;

use crate::clock::{Deadline, Timestamp};
use crate::ids::{RequestId, SessionId, TurnId};
use crate::json::Json;
use crate::record::Record;
use crate::tool::{PreparedToolCall, PreparedToolCallView, WriteScope};

verus! {

/// Stable origin identity for one pending approval.
#[derive(Debug, PartialEq, Eq)]
pub struct ApprovalOrigin {
    /// Session that owns the pending action.
    session: SessionId,
    /// Provider request that produced the action.
    request: RequestId,
    /// Owning turn once the checkpointable turn machine supplies it.
    turn: Option<TurnId>,
}

/// What a [`ApprovalOrigin`] holds.
pub struct ApprovalOriginView {
    pub session: Seq<char>,
    pub request: Seq<char>,
    pub turn: Option<Seq<char>>,
}

impl DeepView for ApprovalOrigin {
    type V = ApprovalOriginView;

    closed spec fn deep_view(&self) -> ApprovalOriginView {
        ApprovalOriginView {
            session: self.session.deep_view(),
            request: self.request.deep_view(),
            turn: self.turn.deep_view(),
        }
    }
}

impl View for ApprovalOrigin {
    type V = ApprovalOriginView;

    open spec fn view(&self) -> ApprovalOriginView {
        self.deep_view()
    }
}

impl Record for ApprovalOrigin {
    fn same(&self, other: &Self) -> (r: bool) {
        self.session.same(&other.session)
            && self.request.same(&other.request)
            && self.turn.same(&other.turn)
    }

    fn copied(&self) -> (r: Self) {
        ApprovalOrigin {
            session: self.session.copied(),
            request: self.request.copied(),
            turn: self.turn.copied(),
        }
    }
}

impl Clone for ApprovalOrigin {
    fn clone(&self) -> (r: Self)
        ensures
            r@ == self@,
    {
        self.copied()
    }
}

impl ApprovalOrigin {
    /// Creates an origin before turn identity is available at the call site.
    pub fn new(session: SessionId, request: RequestId) -> (r: ApprovalOrigin)
        ensures
            r@ == (ApprovalOriginView { session: session@, request: request@, turn: None }),
    {
        ApprovalOrigin { session, request, turn: None }
    }

    /// Adds the owning turn identity.
    pub fn with_turn(self, turn: TurnId) -> (r: ApprovalOrigin)
        ensures
            r@ == (ApprovalOriginView { turn: Some(turn@), ..self@ }),
    {
        ApprovalOrigin { session: self.session, request: self.request, turn: Some(turn) }
    }

    /// The owning session.
    pub fn session(&self) -> (r: &SessionId)
        ensures
            r@ == self@.session,
    {
        &self.session
    }

    /// The provider request that produced the action.
    pub fn request(&self) -> (r: &RequestId)
        ensures
            r@ == self@.request,
    {
        &self.request
    }

    /// The owning turn, when available.
    pub fn turn(&self) -> (r: Option<&TurnId>)
        ensures
            match r {
                Some(turn) => self@.turn == Some(turn@),
                None => self@.turn is None,
            },
    {
        self.turn.as_ref()
    }
}

/// A request for approval of a tool invocation.
#[derive(Debug, PartialEq, Eq)]
pub struct ApprovalRequest {
    /// The exact immutable action requiring approval.
    prepared: PreparedToolCall,
    /// The turn deadline that bounds this approval wait.
    deadline: Deadline,
    /// Stable session, request and turn attribution.
    origin: ApprovalOrigin,
}

/// What a [`ApprovalRequest`] holds.
pub struct ApprovalRequestView {
    pub prepared: PreparedToolCallView,
    pub deadline: Option<Timestamp>,
    pub origin: ApprovalOriginView,
}

impl DeepView for ApprovalRequest {
    type V = ApprovalRequestView;

    closed spec fn deep_view(&self) -> ApprovalRequestView {
        ApprovalRequestView {
            prepared: self.prepared.deep_view(),
            deadline: self.deadline.deep_view(),
            origin: self.origin.deep_view(),
        }
    }
}

impl View for ApprovalRequest {
    type V = ApprovalRequestView;

    open spec fn view(&self) -> ApprovalRequestView {
        self.deep_view()
    }
}

impl Record for ApprovalRequest {
    fn same(&self, other: &Self) -> (r: bool) {
        self.prepared.same(&other.prepared)
            && self.deadline.same(&other.deadline)
            && self.origin.same(&other.origin)
    }

    fn copied(&self) -> (r: Self) {
        ApprovalRequest {
            prepared: self.prepared.copied(),
            deadline: self.deadline.copied(),
            origin: self.origin.copied(),
        }
    }
}

impl Clone for ApprovalRequest {
    fn clone(&self) -> (r: Self)
        ensures
            r@ == self@,
    {
        self.copied()
    }
}

impl ApprovalRequest {
    /// Builds a request around one verified prepared action.
    pub fn new(
        prepared: PreparedToolCall,
        deadline: Deadline,
        origin: ApprovalOrigin,
    ) -> (r: ApprovalRequest)
        ensures
            r@ == (ApprovalRequestView {
                prepared: prepared@,
                deadline: deadline@,
                origin: origin@,
            }),
    {
        ApprovalRequest { prepared, deadline, origin }
    }

    /// The exact action whose eligible grant this decision may resolve.
    pub fn prepared(&self) -> (r: &PreparedToolCall)
        ensures
            r@ == self@.prepared,
    {
        &self.prepared
    }

    /// The absolute turn deadline rendered by a host approval surface.
    pub fn deadline(&self) -> (r: Deadline)
        ensures
            r@ == self@.deadline,
    {
        self.deadline
    }

    /// Stable origin identity used to key, persist, reopen, and cancel the
    /// correct pending prompt without crossing session boundaries.
    pub fn origin(&self) -> (r: &ApprovalOrigin)
        ensures
            r@ == self@.origin,
    {
        &self.origin
    }

    /// The write scopes the invocation would touch.
    pub fn write_scopes(&self) -> (r: Vec<WriteScope>)
        ensures
            r.deep_view() == self@.prepared.effects.writes,
    {
        self.prepared.effects().write_scopes().copied()
    }

    /// Whether the invocation spawns a process, distinct from a plain write.
    pub fn spawns_process(&self) -> (r: bool)
        ensures
            r == self@.prepared.effects.spawns,
    {
        self.prepared.effects().spawns_process()
    }
}

/// The outcome of an approval decision.
#[derive(Debug, PartialEq, Eq)]
pub enum ApprovalDecision {
    /// The action is allowed.
    Allow,
    /// The action is denied, with a reason.
    Deny {
        /// Why the action was denied.
        reason: String,
    },
    /// The host proposes different arguments. This is not approval: the executor
    /// must discard the prior eligibility and start a new cycle of validation,
    /// preparation, authorization, and approval.
    Edit {
        /// Replacement raw arguments to validate and prepare.
        arguments: Json,
    },
    /// The host did not answer before the turn deadline.
    TimedOut,
    /// The approval wait was cancelled with the turn.
    Cancelled,
    /// The current host cannot surface approval.
    Unavailable {
        /// Why approval support is unavailable.
        reason: String,
    },
}

/// What a [`ApprovalDecision`] holds.
pub enum ApprovalDecisionView {
    Allow,
    Deny { reason: Seq<char> },
    Edit { arguments: Seq<char> },
    TimedOut,
    Cancelled,
    Unavailable { reason: Seq<char> },
}

impl DeepView for ApprovalDecision {
    type V = ApprovalDecisionView;

    open spec fn deep_view(&self) -> ApprovalDecisionView {
        match self {
            ApprovalDecision::Allow => ApprovalDecisionView::Allow,
            ApprovalDecision::Deny { reason } => ApprovalDecisionView::Deny {
                reason: reason.deep_view(),
            },
            ApprovalDecision::Edit { arguments } => ApprovalDecisionView::Edit {
                arguments: arguments.deep_view(),
            },
            ApprovalDecision::TimedOut => ApprovalDecisionView::TimedOut,
            ApprovalDecision::Cancelled => ApprovalDecisionView::Cancelled,
            ApprovalDecision::Unavailable { reason } => ApprovalDecisionView::Unavailable {
                reason: reason.deep_view(),
            },
        }
    }
}

impl View for ApprovalDecision {
    type V = ApprovalDecisionView;

    open spec fn view(&self) -> ApprovalDecisionView {
        self.deep_view()
    }
}

impl Record for ApprovalDecision {
    fn same(&self, other: &Self) -> (r: bool) {
        match (self, other) {
            (ApprovalDecision::Allow, ApprovalDecision::Allow) => true,
            (ApprovalDecision::Deny { reason }, ApprovalDecision::Deny { reason: reason_b }) => {
                reason.same(reason_b)
            },
            (
                ApprovalDecision::Edit { arguments },
                ApprovalDecision::Edit { arguments: arguments_b },
            ) => arguments.same(arguments_b),
            (ApprovalDecision::TimedOut, ApprovalDecision::TimedOut) => true,
            (ApprovalDecision::Cancelled, ApprovalDecision::Cancelled) => true,
            (
                ApprovalDecision::Unavailable { reason },
                ApprovalDecision::Unavailable { reason: reason_b },
            ) => reason.same(reason_b),
            _ => false,
        }
    }

    fn copied(&self) -> (r: Self) {
        match self {
            ApprovalDecision::Allow => ApprovalDecision::Allow,
            ApprovalDecision::Deny { reason } => ApprovalDecision::Deny { reason: reason.copied() },
            ApprovalDecision::Edit { arguments } => ApprovalDecision::Edit {
                arguments: arguments.copied(),
            },
            ApprovalDecision::TimedOut => ApprovalDecision::TimedOut,
            ApprovalDecision::Cancelled => ApprovalDecision::Cancelled,
            ApprovalDecision::Unavailable { reason } => ApprovalDecision::Unavailable {
                reason: reason.copied(),
            },
        }
    }
}

impl Clone for ApprovalDecision {
    fn clone(&self) -> (r: Self)
        ensures
            r@ == self@,
    {
        self.copied()
    }
}

impl ApprovalDecision {
    /// Whether the decision allows the action.
    pub fn is_allowed(&self) -> (r: bool)
        ensures
            r == (self@ is Allow),
    {
        match self {
            ApprovalDecision::Allow => true,
            _ => false,
        }
    }

    /// A denial with the given reason.
    pub fn deny(reason: &str) -> (r: ApprovalDecision)
        ensures
            r@ == (ApprovalDecisionView::Deny { reason: reason@ }),
    {
        ApprovalDecision::Deny { reason: reason.to_owned() }
    }

    /// Reports unavailable host approval support.
    pub fn unavailable(reason: &str) -> (r: ApprovalDecision)
        ensures
            r@ == (ApprovalDecisionView::Unavailable { reason: reason@ }),
    {
        ApprovalDecision::Unavailable { reason: reason.to_owned() }
    }
}

/// A policy that denies every request, for a host that intentionally rejects
/// every action.
#[derive(Debug, Clone, Copy, Default)]
pub struct DenyAll;

impl DenyAll {
    /// Denies.
    pub fn decide(&self, request: &ApprovalRequest) -> (r: ApprovalDecision)
        ensures
            r@ == (ApprovalDecisionView::Deny { reason: "no approval policy configured"@ }),
    {
        ApprovalDecision::deny("no approval policy configured")
    }
}

/// Reports that the current host cannot surface approval.
///
/// This is the fail-closed default when no approval policy is configured.
/// [`DenyAll`] remains available for a host that intentionally rejects every
/// action; the two outcomes are observably distinct.
#[derive(Debug, Clone, Copy, Default)]
pub struct UnavailableApproval;

impl UnavailableApproval {
    /// Reports that approval is unavailable.
    pub fn decide(&self, request: &ApprovalRequest) -> (r: ApprovalDecision)
        ensures
            r@ == (ApprovalDecisionView::Unavailable {
                reason: "no approval policy configured"@,
            }),
    {
        ApprovalDecision::unavailable("no approval policy configured")
    }
}

/// A policy that allows every request. Intended for trusted headless hosts and
/// tests only.
#[derive(Debug, Clone, Copy, Default)]
pub struct AllowAll;

impl AllowAll {
    /// Allows.
    pub fn decide(&self, request: &ApprovalRequest) -> (r: ApprovalDecision)
        ensures
            r@ == ApprovalDecisionView::Allow,
    {
        ApprovalDecision::Allow
    }
}

/// Whatever is asked, one policy denies it, one says that approval is not available, and one
/// allows it; only the last lets an action through.
pub proof fn policies_decide_alike_on_every_request(
    request: ApprovalRequest,
    denied: ApprovalDecision,
    unavailable: ApprovalDecision,
    allowed: ApprovalDecision,
    a: bool,
    b: bool,
    c: bool,
)
    requires
        call_ensures(DenyAll::decide, (&DenyAll, &request), denied),
        call_ensures(UnavailableApproval::decide, (&UnavailableApproval, &request), unavailable),
        call_ensures(AllowAll::decide, (&AllowAll, &request), allowed),
        call_ensures(ApprovalDecision::is_allowed, (&denied,), a),
        call_ensures(ApprovalDecision::is_allowed, (&unavailable,), b),
        call_ensures(ApprovalDecision::is_allowed, (&allowed,), c),
    ensures
        denied@ is Deny,
        unavailable@ is Unavailable,
        allowed@ is Allow,
        !a && !b && c,
{
}

/// A denial and an unavailability keep their reason, and neither allows anything.
pub proof fn a_refusal_keeps_its_reason(
    reason: &str,
    denied: ApprovalDecision,
    unavailable: ApprovalDecision,
    a: bool,
    b: bool,
)
    requires
        call_ensures(ApprovalDecision::deny, (reason,), denied),
        call_ensures(ApprovalDecision::unavailable, (reason,), unavailable),
        call_ensures(ApprovalDecision::is_allowed, (&denied,), a),
        call_ensures(ApprovalDecision::is_allowed, (&unavailable,), b),
    ensures
        denied@ == (ApprovalDecisionView::Deny { reason: reason@ }),
        unavailable@ == (ApprovalDecisionView::Unavailable { reason: reason@ }),
        !a,
        !b,
{
}

/// A request for approval shows the very call that was prepared, with its writes and whether
/// it starts a process, the deadline, and the origin.
pub proof fn a_request_shows_what_was_prepared(
    prepared: PreparedToolCall,
    deadline: Deadline,
    origin: ApprovalOrigin,
    request: ApprovalRequest,
    writes: Vec<WriteScope>,
    spawns: bool,
)
    requires
        call_ensures(ApprovalRequest::new, (prepared, deadline, origin), request),
        call_ensures(ApprovalRequest::write_scopes, (&request,), writes),
        call_ensures(ApprovalRequest::spawns_process, (&request,), spawns),
    ensures
        request@.prepared == prepared@,
        request@.deadline == deadline@,
        request@.origin == origin@,
        writes.deep_view() == prepared@.effects.writes,
        spawns == prepared@.effects.spawns,
{
}

/// An origin names its session and its request, and its turn once it has one.
pub proof fn an_origin_names_where_it_comes_from(
    session: SessionId,
    request: RequestId,
    turn: TurnId,
    made: ApprovalOrigin,
    turned: ApprovalOrigin,
)
    requires
        call_ensures(ApprovalOrigin::new, (session, request), made),
        call_ensures(ApprovalOrigin::with_turn, (made, turn), turned),
    ensures
        made@.session == session@,
        made@.request == request@,
        made@.turn is None,
        turned@.session == session@,
        turned@.request == request@,
        turned@.turn == Some(turn@),
{
}

} // verus!
