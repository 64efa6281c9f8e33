//! Cancellation handles and their reasons.

use agent_runtime_core::cancel::{CancelReason, Cancellation, CancellationTree};

#[test]
fn parent_cancellation_propagates_to_children() {
    let mut tree = CancellationTree::new();
    let root = Cancellation::new(&mut tree);
    let child = root.child(&mut tree);
    let grandchild = child.child(&mut tree);
    assert!(!child.is_cancelled(&tree));

    root.cancel(&mut tree, CancelReason::UserRequested);
    // The child observes cancellation and resolves the parent's reason.
    assert!(child.is_cancelled(&tree));
    assert_eq!(child.reason(&tree), Some(CancelReason::UserRequested));
    assert_eq!(grandchild.reason(&tree), Some(CancelReason::UserRequested));
}

#[test]
fn child_reason_wins_over_parent() {
    let mut tree = CancellationTree::new();
    let root = Cancellation::new(&mut tree);
    let child = root.child(&mut tree);
    child.cancel(&mut tree, CancelReason::Timeout);
    assert_eq!(child.reason(&tree), Some(CancelReason::Timeout));
    // The root itself is not cancelled by a child.
    assert!(!root.is_cancelled(&tree));
}

#[test]
fn the_first_reason_stays() {
    let mut tree = CancellationTree::default();
    let root = Cancellation::new(&mut tree);
    let child = root.child(&mut tree);
    child.cancel(&mut tree, CancelReason::Timeout);
    child.cancel(&mut tree, CancelReason::Shutdown);
    root.cancel(&mut tree, CancelReason::Host("maintenance".into()));
    root.cancel(&mut tree, CancelReason::LimitReached);
    assert_eq!(child.reason(&tree), Some(CancelReason::Timeout));
    assert_eq!(root.reason(&tree), Some(CancelReason::Host("maintenance".into())));
}

#[test]
fn a_late_child_of_a_cancelled_handle_is_cancelled() {
    let mut tree = CancellationTree::new();
    let root = Cancellation::new(&mut tree);
    let other = Cancellation::new(&mut tree);
    root.cancel(&mut tree, CancelReason::Shutdown);
    let late = root.child(&mut tree);
    assert_eq!(late.reason(&tree), Some(CancelReason::Shutdown));
    assert!(!other.is_cancelled(&tree));
    assert_eq!(other.reason(&tree), None);
}
