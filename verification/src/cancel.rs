//! Cancellation with an attached reason.
//!
//! Cancellation propagates from a session to its turns, provider attempts, and
//! tool invocations through derived handles, while additionally carrying a
//! [`CancelReason`]. A handle resolves its reason from itself first, then walks up
//! to its parent, so code holding a derived handle can still report why the
//! session was cancelled. The handles of a session share one
//! [`CancellationTree`].

use vstd::prelude::*;

use crate::fingerprint::{
    lemma_absorb_concat, lemma_absorb_one, lemma_concat_assoc, Encoded, FingerprintHasher,
};
use crate::record::Record;

verus! {

/// Why a session or turn was cancelled.
#[derive(Debug, PartialEq, Eq)]
pub enum CancelReason {
    /// The host explicitly requested cancellation.
    UserRequested,
    /// A deadline elapsed.
    Timeout,
    /// A configured limit was reached.
    LimitReached,
    /// The runtime is shutting down.
    Shutdown,
    /// A host-defined reason.
    Host(String),
}

/// What a [`CancelReason`] holds.
pub enum CancelReasonView {
    UserRequested,
    Timeout,
    LimitReached,
    Shutdown,
    Host(Seq<char>),
}

impl DeepView for CancelReason {
    type V = CancelReasonView;

    open spec fn deep_view(&self) -> CancelReasonView {
        match self {
            CancelReason::UserRequested => CancelReasonView::UserRequested,
            CancelReason::Timeout => CancelReasonView::Timeout,
            CancelReason::LimitReached => CancelReasonView::LimitReached,
            CancelReason::Shutdown => CancelReasonView::Shutdown,
            CancelReason::Host(x0) => CancelReasonView::Host(x0.deep_view()),
        }
    }
}

impl View for CancelReason {
    type V = CancelReasonView;

    open spec fn view(&self) -> CancelReasonView {
        self.deep_view()
    }
}

impl Record for CancelReason {
    fn same(&self, other: &Self) -> (r: bool) {
        match (self, other) {
            (CancelReason::UserRequested, CancelReason::UserRequested) => true,
            (CancelReason::Timeout, CancelReason::Timeout) => true,
            (CancelReason::LimitReached, CancelReason::LimitReached) => true,
            (CancelReason::Shutdown, CancelReason::Shutdown) => true,
            (CancelReason::Host(x0), CancelReason::Host(x0_b)) => x0.same(x0_b),
            _ => false,
        }
    }

    fn copied(&self) -> (r: Self) {
        match self {
            CancelReason::UserRequested => CancelReason::UserRequested,
            CancelReason::Timeout => CancelReason::Timeout,
            CancelReason::LimitReached => CancelReason::LimitReached,
            CancelReason::Shutdown => CancelReason::Shutdown,
            CancelReason::Host(x0) => CancelReason::Host(x0.copied()),
        }
    }
}

impl Clone for CancelReason {
    fn clone(&self) -> (r: Self)
        ensures
            r@ == self@,
    {
        self.copied()
    }
}

impl Encoded for CancelReason {
    open spec fn fields(view: CancelReasonView) -> Seq<Seq<char>> {
        match view {
            CancelReasonView::UserRequested => seq!["user_requested"@],
            CancelReasonView::Timeout => seq!["timeout"@],
            CancelReasonView::LimitReached => seq!["limit_reached"@],
            CancelReasonView::Shutdown => seq!["shutdown"@],
            CancelReasonView::Host(x0) => seq!["host"@] + <String as Encoded>::fields(x0),
        }
    }

    fn encode(&self, hasher: &mut FingerprintHasher) {
        let ghost start = hasher@;
        match self {
            CancelReason::UserRequested => {
                hasher.field("user_requested");
                proof {
                    lemma_absorb_one(start, "user_requested"@);
                }
            },
            CancelReason::Timeout => {
                hasher.field("timeout");
                proof {
                    lemma_absorb_one(start, "timeout"@);
                }
            },
            CancelReason::LimitReached => {
                hasher.field("limit_reached");
                proof {
                    lemma_absorb_one(start, "limit_reached"@);
                }
            },
            CancelReason::Shutdown => {
                hasher.field("shutdown");
                proof {
                    lemma_absorb_one(start, "shutdown"@);
                }
            },
            CancelReason::Host(x0) => {
                hasher.field("host");
                x0.encode(hasher);
                proof {
                    lemma_absorb_one(start, "host"@);
                    let f_x0 = <String as Encoded>::fields(x0.deep_view());
                    lemma_absorb_concat(start, seq!["host"@], f_x0);
                }
            },
        }
    }

    proof fn lemma_decodable(
        a: CancelReasonView,
        b: CancelReasonView,
        x: Seq<Seq<char>>,
        y: Seq<Seq<char>>,
    ) {
        broadcast use lemma_concat_assoc;

        reveal_strlit("user_requested");
        assert("user_requested"@.len() == 14);
        reveal_strlit("timeout");
        assert("timeout"@.len() == 7);
        reveal_strlit("limit_reached");
        assert("limit_reached"@.len() == 13);
        reveal_strlit("shutdown");
        assert("shutdown"@.len() == 8);
        reveal_strlit("host");
        assert("host"@.len() == 4);
        assert((Self::fields(a) + x)[0] == Self::fields(a)[0]);
        assert((Self::fields(b) + y)[0] == Self::fields(b)[0]);
        match (a, b) {
            (CancelReasonView::UserRequested, CancelReasonView::UserRequested) => {
                String::lemma_decodable("user_requested"@, "user_requested"@, x, y);
            },
            (CancelReasonView::Timeout, CancelReasonView::Timeout) => {
                String::lemma_decodable("timeout"@, "timeout"@, x, y);
            },
            (CancelReasonView::LimitReached, CancelReasonView::LimitReached) => {
                String::lemma_decodable("limit_reached"@, "limit_reached"@, x, y);
            },
            (CancelReasonView::Shutdown, CancelReasonView::Shutdown) => {
                String::lemma_decodable("shutdown"@, "shutdown"@, x, y);
            },
            (CancelReasonView::Host(x0), CancelReasonView::Host(other_x0)) => {
                let x1 = String::fields(x0) + x;
                let y1 = String::fields(other_x0) + y;
                String::lemma_decodable("host"@, "host"@, x1, y1);
                String::lemma_decodable(x0, other_x0, x, y);
            },
            _ => {},
        }
    }
}

/// One handle's own state: where it was derived from, and the reason that it was
/// cancelled for itself.
#[derive(Debug, PartialEq, Eq)]
pub struct CancellationNode {
    parent: Option<usize>,
    reason: Option<CancelReason>,
}

/// What a [`CancellationNode`] holds.
pub struct CancellationNodeView {
    pub parent: Option<usize>,
    pub reason: Option<CancelReasonView>,
}

impl DeepView for CancellationNode {
    type V = CancellationNodeView;

    closed spec fn deep_view(&self) -> CancellationNodeView {
        CancellationNodeView {
            parent: self.parent.deep_view(),
            reason: self.reason.deep_view(),
        }
    }
}

impl View for CancellationNode {
    type V = CancellationNodeView;

    open spec fn view(&self) -> CancellationNodeView {
        self.deep_view()
    }
}

impl Record for CancellationNode {
    fn same(&self, other: &Self) -> (r: bool) {
        self.parent.same(&other.parent)
            && self.reason.same(&other.reason)
    }

    fn copied(&self) -> (r: Self) {
        CancellationNode {
            parent: self.parent.copied(),
            reason: self.reason.copied(),
        }
    }
}

impl Clone for CancellationNode {
    fn clone(&self) -> (r: Self)
        ensures
            r@ == self@,
    {
        self.copied()
    }
}

/// The cancellation state of a session: a tree of handles, in which cancelling
/// a handle cancels every handle that was derived from it.
#[derive(Debug)]
pub struct CancellationTree {
    nodes: Vec<CancellationNode>,
}

impl View for CancellationTree {
    type V = Seq<CancellationNodeView>;

    closed spec fn view(&self) -> Seq<CancellationNodeView> {
        self.nodes.deep_view()
    }
}

/// Whether every handle was derived from an earlier one.
pub open spec fn is_tree(nodes: Seq<CancellationNodeView>) -> bool {
    forall|i: int|
        0 <= i < nodes.len() ==> ((#[trigger] nodes[i]).parent matches Some(p) ==> p < i)
}

/// The reason of the handle at `i`: its own, or else that of the handle that it
/// was derived from.
pub open spec fn resolved_reason(nodes: Seq<CancellationNodeView>, i: int) -> Option<
    CancelReasonView,
>
    decreases i,
    when 0 <= i < nodes.len()
{
    match nodes[i].reason {
        Some(reason) => Some(reason),
        None => match nodes[i].parent {
            Some(p) => if p < i {
                resolved_reason(nodes, p as int)
            } else {
                None
            },
            None => None,
        },
    }
}

/// Whether the handle at `i` is the one at `a`, or was derived from it, however
/// many steps away.
pub open spec fn descends_from(nodes: Seq<CancellationNodeView>, i: int, a: int) -> bool
    decreases i,
    when 0 <= i < nodes.len()
{
    ||| i == a
    ||| match nodes[i].parent {
        Some(p) => p < i && descends_from(nodes, p as int, a),
        None => false,
    }
}

/// Whether the handle at `i`, or one that it was derived from, was cancelled.
pub open spec fn is_cancelled_at(nodes: Seq<CancellationNodeView>, i: int) -> bool {
    exists|a: int|
        0 <= a < nodes.len() && #[trigger] descends_from(nodes, i, a) && nodes[a].reason is Some
}

/// The tree after the handle at `i` was cancelled: the first reason stays.
pub open spec fn cancelling(
    nodes: Seq<CancellationNodeView>,
    i: int,
    reason: CancelReasonView,
) -> Seq<CancellationNodeView> {
    if nodes[i].reason is Some {
        nodes
    } else {
        nodes.update(i, CancellationNodeView { reason: Some(reason), ..nodes[i] })
    }
}

impl CancellationTree {
    #[verifier::type_invariant]
    spec fn is_well_founded(self) -> bool {
        is_tree(self.nodes.deep_view())
    }

    /// A tree without handles.
    pub fn new() -> (r: CancellationTree)
        ensures
            r@ == Seq::<CancellationNodeView>::empty(),
    {
        let nodes: Vec<CancellationNode> = Vec::new();
        assert(nodes.deep_view() =~= Seq::<CancellationNodeView>::empty());
        CancellationTree { nodes }
    }

    fn grow(&mut self, parent: Option<usize>) -> (r: usize)
        requires
            parent matches Some(p) ==> p < old(self)@.len(),
        ensures
            r == old(self)@.len(),
            final(self)@ == old(self)@.push(CancellationNodeView { parent, reason: None }),
    {
        proof {
            use_type_invariant(&*self);
        }
        let ghost before = self.nodes.deep_view();
        let mut nodes: Vec<CancellationNode> = Vec::new();
        std::mem::swap(&mut nodes, &mut self.nodes);
        let r: usize = nodes.len();
        nodes.push(CancellationNode { parent, reason: None });
        assert(nodes.deep_view() =~= before.push(CancellationNodeView { parent, reason: None }));
        self.nodes = nodes;
        r
    }
}

impl Default for CancellationTree {
    fn default() -> (r: CancellationTree)
        ensures
            r@ == Seq::<CancellationNodeView>::empty(),
    {
        CancellationTree::new()
    }
}

/// A cancellation handle that carries a reason.
#[derive(Debug, Clone, Copy, PartialEq, Eq, Structural)]
pub struct Cancellation {
    node: usize,
}

impl View for Cancellation {
    type V = int;

    closed spec fn view(&self) -> int {
        self.node as int
    }
}

impl Cancellation {
    /// Whether the handle is one of `tree`.
    pub open spec fn is_in(self, tree: CancellationTree) -> bool {
        0 <= self@ < tree@.len()
    }

    /// Creates a fresh, uncancelled root handle.
    pub fn new(tree: &mut CancellationTree) -> (r: Cancellation)
        ensures
            r@ == old(tree)@.len(),
            final(tree)@ == old(tree)@.push(CancellationNodeView { parent: None, reason: None }),
            r.is_in(*final(tree)),
    {
        Cancellation { node: tree.grow(None) }
    }

    /// Derives a child handle. Cancelling the parent cancels every child; the
    /// child may also be cancelled independently for its own reason.
    pub fn child(&self, tree: &mut CancellationTree) -> (r: Cancellation)
        requires
            self.is_in(*old(tree)),
        ensures
            r@ == old(tree)@.len(),
            final(tree)@ == old(tree)@.push(
                CancellationNodeView { parent: Some(self@ as usize), reason: None },
            ),
            r.is_in(*final(tree)),
            self.is_in(*final(tree)),
    {
        Cancellation { node: tree.grow(Some(self.node)) }
    }

    /// Cancels this handle (and its children) with the given reason.
    pub fn cancel(&self, tree: &mut CancellationTree, reason: CancelReason)
        requires
            self.is_in(*old(tree)),
        ensures
            final(tree)@ == cancelling(old(tree)@, self@, reason@),
    {
        proof {
            use_type_invariant(&*tree);
        }
        let ghost before = tree.nodes.deep_view();
        if tree.nodes[self.node].reason.is_none() {
            let mut nodes: Vec<CancellationNode> = Vec::new();
            std::mem::swap(&mut nodes, &mut tree.nodes);
            let parent: Option<usize> = nodes[self.node].parent;
            let ghost view = reason@;
            nodes.set(self.node, CancellationNode { parent, reason: Some(reason) });
            proof {
                let after = before.update(
                    self@,
                    CancellationNodeView { parent, reason: Some(view) },
                );
                assert(nodes.deep_view() =~= after);
                assert forall|i: int| 0 <= i < after.len() implies (
                (#[trigger] after[i]).parent matches Some(p) ==> p < i) by {
                    assert(before[i].parent == after[i].parent);
                }
            }
            tree.nodes = nodes;
        }
    }

    /// Whether this handle or any ancestor has been cancelled.
    pub fn is_cancelled(&self, tree: &CancellationTree) -> (r: bool)
        requires
            self.is_in(*tree),
        ensures
            r == is_cancelled_at(tree@, self@),
    {
        let reason = self.reason(tree);
        proof {
            use_type_invariant(tree);
            cancelled_means_there_is_a_reason(tree@, self@);
        }
        reason.is_some()
    }

    /// The reason for cancellation, resolved from this handle then its
    /// ancestors.
    pub fn reason(&self, tree: &CancellationTree) -> (r: Option<CancelReason>)
        requires
            self.is_in(*tree),
        ensures
            r.deep_view() == resolved_reason(tree@, self@),
    {
        proof {
            use_type_invariant(tree);
        }
        let mut node: usize = self.node;
        loop
            invariant
                node < tree@.len(),
                tree@ == tree.nodes.deep_view(),
                is_tree(tree@),
                resolved_reason(tree@, node as int) == resolved_reason(tree@, self@),
            decreases node,
        {
            let state = &tree.nodes[node];
            assert(tree@[node as int] == state@);
            if let Some(reason) = &state.reason {
                return Some(reason.copied());
            }
            match state.parent {
                Some(parent) => {
                    node = parent;
                },
                None => {
                    return None;
                },
            }
        }
    }
}

/// A handle is cancelled exactly when it has a reason.
pub proof fn cancelled_means_there_is_a_reason(nodes: Seq<CancellationNodeView>, i: int)
    requires
        is_tree(nodes),
        0 <= i < nodes.len(),
    ensures
        is_cancelled_at(nodes, i) <==> resolved_reason(nodes, i) is Some,
    decreases i,
{
    assert(descends_from(nodes, i, i));
    if let Some(p) = nodes[i].parent {
        cancelled_means_there_is_a_reason(nodes, p as int);
        if is_cancelled_at(nodes, p as int) {
            let a = choose|a: int|
                0 <= a < nodes.len() && #[trigger] descends_from(nodes, p as int, a)
                    && nodes[a].reason is Some;
            assert(descends_from(nodes, i, a));
        }
        if is_cancelled_at(nodes, i) && nodes[i].reason is None {
            let a = choose|a: int|
                0 <= a < nodes.len() && #[trigger] descends_from(nodes, i, a)
                    && nodes[a].reason is Some;
            assert(descends_from(nodes, p as int, a));
        }
    }
}

proof fn lemma_same_descent(
    before: Seq<CancellationNodeView>,
    after: Seq<CancellationNodeView>,
    i: int,
    a: int,
)
    requires
        is_tree(before),
        before.len() <= after.len(),
        forall|k: int| 0 <= k < before.len() ==> (#[trigger] after[k]).parent == before[k].parent,
        0 <= i < before.len(),
    ensures
        descends_from(after, i, a) == descends_from(before, i, a),
    decreases i,
{
    assert(after[i].parent == before[i].parent);
    if let Some(p) = before[i].parent {
        lemma_same_descent(before, after, p as int, a);
    }
}

/// Cancelling a handle cancels every handle derived from it.
pub proof fn cancelling_reaches_every_descendant(
    nodes: Seq<CancellationNodeView>,
    a: int,
    reason: CancelReasonView,
    i: int,
)
    requires
        is_tree(nodes),
        0 <= a < nodes.len(),
        0 <= i < nodes.len(),
        descends_from(nodes, i, a),
    ensures
        is_cancelled_at(cancelling(nodes, a, reason), i),
{
    let after = cancelling(nodes, a, reason);
    lemma_same_descent(nodes, after, i, a);
    assert(descends_from(after, i, a) && after[a].reason is Some);
}

/// Cancelling a handle leaves every handle that was not derived from it alone:
/// a child does not cancel its parent.
pub proof fn cancelling_leaves_the_others_alone(
    nodes: Seq<CancellationNodeView>,
    a: int,
    reason: CancelReasonView,
    i: int,
)
    requires
        is_tree(nodes),
        0 <= a < nodes.len(),
        0 <= i < nodes.len(),
        !descends_from(nodes, i, a),
    ensures
        resolved_reason(cancelling(nodes, a, reason), i) == resolved_reason(nodes, i),
        is_cancelled_at(cancelling(nodes, a, reason), i) == is_cancelled_at(nodes, i),
    decreases i,
{
    let after = cancelling(nodes, a, reason);
    assert(is_tree(after)) by {
        assert forall|k: int| 0 <= k < after.len() implies ((
        #[trigger] after[k]).parent matches Some(p) ==> p < k) by {
            assert(after[k].parent == nodes[k].parent);
        }
    }
    assert(after[i] == nodes[i]);
    if let Some(p) = nodes[i].parent {
        cancelling_leaves_the_others_alone(nodes, a, reason, p as int);
    }
    cancelled_means_there_is_a_reason(nodes, i);
    cancelled_means_there_is_a_reason(after, i);
}

/// The first reason that a handle was cancelled for stays, and is the one that
/// it gives, whatever its ancestors were or are cancelled for.
pub proof fn the_first_own_reason_stays(
    nodes: Seq<CancellationNodeView>,
    i: int,
    first: CancelReasonView,
    a: int,
    later: CancelReasonView,
)
    requires
        is_tree(nodes),
        0 <= i < nodes.len(),
        0 <= a < nodes.len(),
        nodes[i].reason is None,
    ensures
        ({
            let once = cancelling(nodes, i, first);
            &&& resolved_reason(once, i) == Some(first)
            &&& resolved_reason(cancelling(once, a, later), i) == Some(first)
        }),
{
}

/// A handle that is cancelled stays cancelled, whatever is cancelled or derived
/// afterwards.
pub proof fn cancellation_is_permanent(
    nodes: Seq<CancellationNodeView>,
    i: int,
    a: int,
    reason: CancelReasonView,
)
    requires
        is_tree(nodes),
        0 <= i < nodes.len(),
        0 <= a < nodes.len(),
        is_cancelled_at(nodes, i),
    ensures
        is_cancelled_at(cancelling(nodes, a, reason), i),
        is_cancelled_at(
            nodes.push(CancellationNodeView { parent: Some(a as usize), reason: None }),
            i,
        ),
{
    let k = choose|k: int|
        0 <= k < nodes.len() && #[trigger] descends_from(nodes, i, k) && nodes[k].reason is Some;
    let after = cancelling(nodes, a, reason);
    lemma_same_descent(nodes, after, i, k);
    assert(descends_from(after, i, k) && after[k].reason is Some);
    let grown = nodes.push(CancellationNodeView { parent: Some(a as usize), reason: None });
    lemma_same_descent(nodes, grown, i, k);
    assert(descends_from(grown, i, k) && grown[k].reason is Some);
}

/// A handle that was just derived is cancelled exactly when its parent is, and
/// then for the parent's reason.
pub proof fn a_child_starts_like_its_parent(nodes: Seq<CancellationNodeView>, a: int)
    requires
        is_tree(nodes),
        0 <= a < nodes.len() <= usize::MAX,
    ensures
        ({
            let grown = nodes.push(
                CancellationNodeView { parent: Some(a as usize), reason: None },
            );
            let child = nodes.len() as int;
            &&& resolved_reason(grown, child) == resolved_reason(nodes, a)
            &&& is_cancelled_at(grown, child) == is_cancelled_at(nodes, a)
        }),
{
    let grown = nodes.push(CancellationNodeView { parent: Some(a as usize), reason: None });
    let child = nodes.len() as int;
    assert(is_tree(grown)) by {
        assert forall|k: int| 0 <= k < grown.len() implies ((
        #[trigger] grown[k]).parent matches Some(p) ==> p < k) by {
            if k < nodes.len() {
                assert(grown[k] == nodes[k]);
            }
        }
    }
    lemma_same_reason(nodes, grown, a);
    cancelled_means_there_is_a_reason(nodes, a);
    cancelled_means_there_is_a_reason(grown, child);
}

proof fn lemma_same_reason(
    before: Seq<CancellationNodeView>,
    after: Seq<CancellationNodeView>,
    i: int,
)
    requires
        is_tree(before),
        before.len() <= after.len(),
        forall|k: int| 0 <= k < before.len() ==> #[trigger] after[k] == before[k],
        0 <= i < before.len(),
    ensures
        resolved_reason(after, i) == resolved_reason(before, i),
    decreases i,
{
    assert(after[i] == before[i]);
    if let Some(p) = before[i].parent {
        lemma_same_reason(before, after, p as int);
    }
}

/// A handle gives its own reason where it has one, else the one that its parent gives, and
/// none where it has neither.
pub proof fn a_handle_gives_its_own_reason_first(nodes: Seq<CancellationNodeView>, i: int)
    requires
        is_tree(nodes),
        0 <= i < nodes.len(),
    ensures
        nodes[i].reason is Some ==> resolved_reason(nodes, i) == nodes[i].reason,
        nodes[i].reason is None ==> (nodes[i].parent matches Some(p) ==> resolved_reason(nodes, i)
            == resolved_reason(nodes, p as int)),
        nodes[i].reason is None && nodes[i].parent is None ==> resolved_reason(nodes, i) is None,
{
}

/// Cancelling gives one handle the reason, if it has none yet, and touches nothing else.
pub proof fn cancelling_marks_one_handle(
    nodes: Seq<CancellationNodeView>,
    a: int,
    reason: CancelReasonView,
)
    requires
        0 <= a < nodes.len(),
    ensures
        ({
            let after = cancelling(nodes, a, reason);
            &&& after.len() == nodes.len()
            &&& forall|k: int| 0 <= k < nodes.len() && k != a ==> #[trigger] after[k] == nodes[k]
            &&& after[a].parent == nodes[a].parent
            &&& nodes[a].reason is Some ==> after[a].reason == nodes[a].reason
            &&& nodes[a].reason is None ==> after[a].reason == Some(reason)
        }),
{
}

/// Cancelling a handle cancels it and every handle derived from it, and no other that was not
/// cancelled before.
pub proof fn cancelling_a_handle_reaches_what_was_derived(
    tree: &mut CancellationTree,
    cancelled: Cancellation,
    reason: CancelReason,
    other: Cancellation,
    before: bool,
    after: bool,
)
    requires
        is_tree(old(tree)@),
        cancelled.is_in(*old(tree)),
        other.is_in(*old(tree)),
        other.is_in(*final(tree)),
        call_ensures(Cancellation::cancel, (&cancelled, tree, reason), ()),
        call_ensures(Cancellation::is_cancelled, (&other, old(tree)), before),
        call_ensures(Cancellation::is_cancelled, (&other, final(tree)), after),
    ensures
        after <==> before || descends_from(old(tree)@, other@, cancelled@),
{
    let nodes = old(tree)@;
    if descends_from(nodes, other@, cancelled@) {
        cancelling_reaches_every_descendant(nodes, cancelled@, reason@, other@);
    } else {
        cancelling_leaves_the_others_alone(nodes, cancelled@, reason@, other@);
    }
}

/// A handle that was derived is cancelled exactly when its parent is, and for the same reason.
pub proof fn a_derived_handle_follows_its_parent(
    tree: &mut CancellationTree,
    parent: Cancellation,
    child: Cancellation,
    of_parent: bool,
    of_child: bool,
    parent_reason: Option<CancelReason>,
    child_reason: Option<CancelReason>,
)
    requires
        is_tree(old(tree)@),
        old(tree)@.len() <= usize::MAX,
        parent.is_in(*old(tree)),
        child.is_in(*final(tree)),
        call_ensures(Cancellation::child, (&parent, tree), child),
        call_ensures(Cancellation::is_cancelled, (&parent, old(tree)), of_parent),
        call_ensures(Cancellation::is_cancelled, (&child, final(tree)), of_child),
        call_ensures(Cancellation::reason, (&parent, old(tree)), parent_reason),
        call_ensures(Cancellation::reason, (&child, final(tree)), child_reason),
    ensures
        of_child == of_parent,
        child_reason.deep_view() == parent_reason.deep_view(),
        of_parent <==> parent_reason is Some,
{
    a_child_starts_like_its_parent(old(tree)@, parent@);
    cancelled_means_there_is_a_reason(old(tree)@, parent@);
}

/// A new handle is derived from none, and is not cancelled.
pub proof fn a_new_handle_is_not_cancelled(
    tree: &mut CancellationTree,
    made: Cancellation,
    cancelled: bool,
)
    requires
        is_tree(old(tree)@),
        made.is_in(*final(tree)),
        call_ensures(Cancellation::new, (tree,), made),
        call_ensures(Cancellation::is_cancelled, (&made, final(tree)), cancelled),
    ensures
        !cancelled,
{
    let (before, after) = (old(tree)@, final(tree)@);
    assert(is_tree(after)) by {
        assert forall|k: int| 0 <= k < after.len() implies ((
        #[trigger] after[k]).parent matches Some(p) ==> p < k) by {
            if k < before.len() {
                assert(after[k] == before[k]);
            }
        }
    }
    cancelled_means_there_is_a_reason(after, made@);
}

} // verus!
