//! A shipped migration aid for hosts that move to composed authorization.
//!
//! Default-deny means that a check set with no authoritative coverage for a
//! permission denies every request for it. [`LegacyApprovalAuthority`] closes that
//! gap without a permissive fallback: registered as an authoritative check, it
//! asks for approval and nothing more.

use vstd::prelude::*;

use crate::grant::{
    GrantConstraints, GrantConstraintsView, SecurityCheckId, SecurityCheckOutcome,
    SecurityCheckOutcomeView, SecurityCheckRevision,
};
use crate::record::Record;
use crate::security::{
    AuthorizationRequest, AuthorizationRequestView, Permission, PermissionSet, PermissionView,
};

verus! {

/// A migration aid, not a policy: it keeps approval mandatory for mutating,
/// process-spawning, and network-effect tool invocations, and grants no
/// authority beyond that.
///
/// Registering this check lets a host satisfy default-deny coverage before it
/// has an authoritative check of its own. It covers exactly
/// [`Permission::FsWrite`], [`Permission::ProcessSpawn`], and
/// [`Permission::NetHttp`]; for any request asking for one of them it always
/// requires approval, and never allows. Every other permission is not
/// applicable to it.
#[derive(Debug)]
pub struct LegacyApprovalAuthority {
    id: SecurityCheckId,
    revision: SecurityCheckRevision,
    coverage: PermissionSet,
}

/// What a [`LegacyApprovalAuthority`] holds.
pub struct LegacyApprovalAuthorityView {
    pub id: Seq<char>,
    pub revision: Seq<char>,
    pub coverage: Set<PermissionView>,
}

impl View for LegacyApprovalAuthority {
    type V = LegacyApprovalAuthorityView;

    closed spec fn view(&self) -> LegacyApprovalAuthorityView {
        LegacyApprovalAuthorityView {
            id: self.id@,
            revision: self.revision@,
            coverage: self.coverage@,
        }
    }
}

impl LegacyApprovalAuthorityView {
    /// What evaluating a request comes to: approval where a covered permission is asked
    /// for.
    pub open spec fn outcome(self, request: AuthorizationRequestView) -> SecurityCheckOutcomeView {
        if exists|p: PermissionView|
            request.requested.contains(p) && #[trigger] self.coverage.contains(p) {
            SecurityCheckOutcomeView::RequireApproval { constraints: GrantConstraintsView::empty() }
        } else {
            SecurityCheckOutcomeView::NotApplicable
        }
    }
}

/// The permissions that [`LegacyApprovalAuthority`] covers.
pub open spec fn gated_permissions() -> Set<PermissionView> {
    Set::empty().insert(PermissionView::FsWrite).insert(PermissionView::ProcessSpawn).insert(
        PermissionView::NetHttp,
    )
}

impl LegacyApprovalAuthority {
    /// The check with its fixed, well-known coverage, which a host cannot
    /// configure.
    pub fn new() -> (r: LegacyApprovalAuthority)
        ensures
            r@ == (LegacyApprovalAuthorityView {
                id: "legacy-approval-authority"@,
                revision: "v1"@,
                coverage: gated_permissions(),
            }),
    {
        let mut coverage = PermissionSet::new();
        coverage.insert(&Permission::FsWrite);
        coverage.insert(&Permission::ProcessSpawn);
        coverage.insert(&Permission::NetHttp);
        LegacyApprovalAuthority {
            id: SecurityCheckId::new("legacy-approval-authority"),
            revision: SecurityCheckRevision::new("v1"),
            coverage,
        }
    }

    /// This check's fixed coverage, for a host registering it under the
    /// matching host-assigned [`PermissionSet`].
    pub fn coverage(&self) -> (r: &PermissionSet)
        ensures
            r@ == self@.coverage,
    {
        &self.coverage
    }

    /// The check's stable identifier.
    pub fn id(&self) -> (r: &SecurityCheckId)
        ensures
            r@ == self@.id,
    {
        &self.id
    }

    /// The revision of the check's own logic.
    pub fn revision(&self) -> (r: &SecurityCheckRevision)
        ensures
            r@ == self@.revision,
    {
        &self.revision
    }

    /// The coverage that the check declares itself.
    pub fn declared_coverage(&self) -> (r: Option<PermissionSet>)
        ensures
            r.deep_view() == Some(self@.coverage),
    {
        Some(self.coverage.copied())
    }

    /// Requires approval, without constraints of its own, for a request that
    /// asks for a covered permission; is not applicable to any other.
    pub fn evaluate(&self, request: &AuthorizationRequest) -> (r: SecurityCheckOutcome)
        ensures
            r@ == self@.outcome(request@),
    {
        let shared = request.requested.intersection(&self.coverage);
        proof {
            if shared@ != Set::<PermissionView>::empty() {
                assert(exists|p: PermissionView| shared@.contains(p)) by {
                    if forall|p: PermissionView| !shared@.contains(p) {
                        assert(shared@ =~= Set::<PermissionView>::empty());
                    }
                }
                let p = choose|p: PermissionView| shared@.contains(p);
                assert(self@.coverage.contains(p));
            } else {
                assert forall|p: PermissionView|
                    !(request@.requested.contains(p) && #[trigger] self@.coverage.contains(p)) by {
                    assert(!shared@.contains(p));
                }
            }
        }
        if shared.is_empty() {
            SecurityCheckOutcome::NotApplicable
        } else {
            SecurityCheckOutcome::RequireApproval { constraints: GrantConstraints::unconstrained() }
        }
    }
}

impl Clone for LegacyApprovalAuthority {
    fn clone(&self) -> (r: Self)
        ensures
            r@ == self@,
    {
        LegacyApprovalAuthority {
            id: self.id.copied(),
            revision: self.revision.copied(),
            coverage: self.coverage.copied(),
        }
    }
}

impl Default for LegacyApprovalAuthority {
    fn default() -> (r: LegacyApprovalAuthority)
        ensures
            r@ == (LegacyApprovalAuthorityView {
                id: "legacy-approval-authority"@,
                revision: "v1"@,
                coverage: gated_permissions(),
            }),
    {
        LegacyApprovalAuthority::new()
    }
}

/// Writing files, starting processes, and requests over the network are what is gated.
pub proof fn writes_processes_and_requests_are_gated(p: PermissionView)
    ensures
        gated_permissions().contains(p) <==> p == PermissionView::FsWrite || p
            == PermissionView::ProcessSpawn || p == PermissionView::NetHttp,
{
}

/// A request needs approval as soon as it asks for one covered permission, whatever else
/// it asks for; one that asks for none is of no concern. Nothing is ever allowed or
/// denied, and approval is asked for without constraints.
pub proof fn a_covered_permission_needs_approval(
    authority: LegacyApprovalAuthorityView,
    request: AuthorizationRequestView,
)
    ensures
        forall|p: PermissionView| #[trigger]
            request.requested.contains(p) && authority.coverage.contains(p) ==> authority.outcome(
                request,
            ) is RequireApproval,
        authority.outcome(request) is NotApplicable <==> authority.coverage.disjoint(
            request.requested,
        ),
        authority.outcome(request) is NotApplicable || authority.outcome(request)
            is RequireApproval,
        authority.outcome(request) matches SecurityCheckOutcomeView::RequireApproval { constraints }
            ==> constraints == GrantConstraintsView::empty(),
{
}

/// The authority asks for approval exactly of requests to write files, to start processes, or
/// for the network, and leaves all others alone.
pub proof fn evaluating_asks_for_approval_of_what_is_gated(
    authority: LegacyApprovalAuthority,
    request: AuthorizationRequest,
    r: SecurityCheckOutcome,
)
    requires
        call_ensures(LegacyApprovalAuthority::new, (), authority),
        call_ensures(LegacyApprovalAuthority::evaluate, (&authority, &request), r),
    ensures
        r@ is RequireApproval <==> {
            ||| request@.requested.contains(PermissionView::FsWrite)
            ||| request@.requested.contains(PermissionView::ProcessSpawn)
            ||| request@.requested.contains(PermissionView::NetHttp)
        },
        r@ is RequireApproval || r@ is NotApplicable,
{
    let covered = authority@.coverage;
    assert(covered == gated_permissions());
    assert(authority@.coverage.contains(PermissionView::FsWrite));
    assert(authority@.coverage.contains(PermissionView::ProcessSpawn));
    assert(authority@.coverage.contains(PermissionView::NetHttp));
    assert forall|p: PermissionView| #[trigger] authority@.coverage.contains(p) implies p
        == PermissionView::FsWrite || p == PermissionView::ProcessSpawn || p
        == PermissionView::NetHttp by {
        writes_processes_and_requests_are_gated(p);
    }
}

} // verus!
