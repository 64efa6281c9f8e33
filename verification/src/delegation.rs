//! Neutral child-session delegation contracts.
//!
//! A host delegates work by submitting a [`ChildSpec`]: the task content, the
//! provider and model selection, per-child limits, the tool-view scope, and a
//! declared [`WorkspacePolicy`]. The runtime validates and carries these values;
//! it does not create workspaces.

use vstd::prelude::*;

use vstd::string::StrSliceExecFns;

use crate::content::{UserInput, UserInputView};
use crate::error::{config_error, outcome_view, verdict, RuntimeError, RuntimeErrorView};
use crate::provider::ModelId;
use crate::record::Record;

verus! {

/// The declared workspace posture of a child session.
///
/// The runtime validates the shape, records it in child lifecycle events, and
/// hands it to the host adapter that creates or validates the actual workspace.
/// The policy itself is a declaration, not an implementation.
#[derive(Debug, PartialEq, Eq)]
pub enum WorkspacePolicy {
    /// The child shares the parent's project workspace.
    SharedProject,
    /// The child works inside one explicitly named directory.
    ExplicitDirectory {
        /// The directory the host grants.
        path: String,
    },
    /// The child works in an isolated worktree the host creates or validates.
    IsolatedWorktree,
    /// The child may read but not mutate; write-capable tools are excluded from
    /// its view regardless of the requested tool scope.
    ReadOnlyView,
}

/// What a [`WorkspacePolicy`] holds.
pub enum WorkspacePolicyView {
    SharedProject,
    ExplicitDirectory { path: Seq<char> },
    IsolatedWorktree,
    ReadOnlyView,
}

impl DeepView for WorkspacePolicy {
    type V = WorkspacePolicyView;

    open spec fn deep_view(&self) -> WorkspacePolicyView {
        match self {
            WorkspacePolicy::SharedProject => WorkspacePolicyView::SharedProject,
            WorkspacePolicy::ExplicitDirectory { path } => WorkspacePolicyView::ExplicitDirectory {
                path: path.deep_view(),
            },
            WorkspacePolicy::IsolatedWorktree => WorkspacePolicyView::IsolatedWorktree,
            WorkspacePolicy::ReadOnlyView => WorkspacePolicyView::ReadOnlyView,
        }
    }
}

impl View for WorkspacePolicy {
    type V = WorkspacePolicyView;

    open spec fn view(&self) -> WorkspacePolicyView {
        self.deep_view()
    }
}

impl Record for WorkspacePolicy {
    fn same(&self, other: &Self) -> (r: bool) {
        match (self, other) {
            (WorkspacePolicy::SharedProject, WorkspacePolicy::SharedProject) => true,
            (
                WorkspacePolicy::ExplicitDirectory { path },
                WorkspacePolicy::ExplicitDirectory { path: path_b },
            ) => path.same(path_b),
            (WorkspacePolicy::IsolatedWorktree, WorkspacePolicy::IsolatedWorktree) => true,
            (WorkspacePolicy::ReadOnlyView, WorkspacePolicy::ReadOnlyView) => true,
            _ => false,
        }
    }

    fn copied(&self) -> (r: Self) {
        match self {
            WorkspacePolicy::SharedProject => WorkspacePolicy::SharedProject,
            WorkspacePolicy::ExplicitDirectory { path } => WorkspacePolicy::ExplicitDirectory {
                path: path.copied(),
            },
            WorkspacePolicy::IsolatedWorktree => WorkspacePolicy::IsolatedWorktree,
            WorkspacePolicy::ReadOnlyView => WorkspacePolicy::ReadOnlyView,
        }
    }
}

impl Clone for WorkspacePolicy {
    fn clone(&self) -> (r: Self)
        ensures
            r@ == self@,
    {
        self.copied()
    }
}

/// Deterministic per-child limits the runtime enforces.
#[derive(Debug, Clone, Copy, PartialEq, Eq, Structural)]
pub struct ChildLimits {
    /// The maximum number of tasks (the spawn task plus follow-ups) the child
    /// may run. Must be at least one.
    pub max_turns: u32,
    /// An optional total token budget across all of the child's provider
    /// attempts. The child is stopped when its recorded usage exceeds it.
    pub max_tokens: Option<u64>,
    /// An optional wall-clock deadline for the child's whole lifetime, in
    /// milliseconds from spawn.
    pub deadline_ms: Option<u64>,
}

impl DeepView for ChildLimits {
    type V = ChildLimits;

    open spec fn deep_view(&self) -> ChildLimits {
        *self
    }
}

impl Record for ChildLimits {
    fn same(&self, other: &Self) -> (r: bool) {
        self.max_turns == other.max_turns && self.max_tokens.same(&other.max_tokens)
            && self.deadline_ms.same(&other.deadline_ms)
    }

    fn copied(&self) -> (r: Self) {
        *self
    }
}

impl ChildLimits {
    /// Limits with only a turn cap.
    pub fn turns(max_turns: u32) -> (r: ChildLimits)
        ensures
            r == (ChildLimits { max_turns, max_tokens: None, deadline_ms: None }),
    {
        ChildLimits { max_turns, max_tokens: None, deadline_ms: None }
    }
}

/// Which registered tools a child's view retains.
///
/// Delegation-management tools are always excluded from child views in addition
/// to this scope, so a child can never see spawn or stop operations.
#[derive(Debug, PartialEq, Eq)]
pub enum ToolViewScope {
    /// Every registered tool (minus delegation operations).
    All,
    /// Only tools whose declared effects require no authorization: no writes,
    /// process spawns, or network access.
    ReadOnly,
    /// Only the named tools (intersected with what is registered).
    Named {
        /// The tool names to retain.
        names: Vec<String>,
    },
}

/// What a [`ToolViewScope`] holds.
pub enum ToolViewScopeView {
    All,
    ReadOnly,
    Named { names: Seq<Seq<char>> },
}

impl DeepView for ToolViewScope {
    type V = ToolViewScopeView;

    open spec fn deep_view(&self) -> ToolViewScopeView {
        match self {
            ToolViewScope::All => ToolViewScopeView::All,
            ToolViewScope::ReadOnly => ToolViewScopeView::ReadOnly,
            ToolViewScope::Named { names } => ToolViewScopeView::Named { names: names.deep_view() },
        }
    }
}

impl View for ToolViewScope {
    type V = ToolViewScopeView;

    open spec fn view(&self) -> ToolViewScopeView {
        self.deep_view()
    }
}

impl Record for ToolViewScope {
    fn same(&self, other: &Self) -> (r: bool) {
        match (self, other) {
            (ToolViewScope::All, ToolViewScope::All) => true,
            (ToolViewScope::ReadOnly, ToolViewScope::ReadOnly) => true,
            (ToolViewScope::Named { names }, ToolViewScope::Named { names: names_b }) => {
                names.same(names_b)
            },
            _ => false,
        }
    }

    fn copied(&self) -> (r: Self) {
        match self {
            ToolViewScope::All => ToolViewScope::All,
            ToolViewScope::ReadOnly => ToolViewScope::ReadOnly,
            ToolViewScope::Named { names } => ToolViewScope::Named { names: names.copied() },
        }
    }
}

impl Clone for ToolViewScope {
    fn clone(&self) -> (r: Self)
        ensures
            r@ == self@,
    {
        self.copied()
    }
}

/// The provider and model the child runs on.
#[derive(Debug, PartialEq, Eq)]
pub enum ChildModelSelection {
    /// Use the host factory's default provider and model for children.
    Inherit,
    /// An explicit model, optionally naming its serving provider.
    Explicit {
        /// The serving provider's name, when the host routes by provider.
        provider: Option<String>,
        /// The model to run the child on.
        model: ModelId,
    },
}

/// What a [`ChildModelSelection`] holds.
pub enum ChildModelSelectionView {
    Inherit,
    Explicit { provider: Option<Seq<char>>, model: Seq<char> },
}

impl DeepView for ChildModelSelection {
    type V = ChildModelSelectionView;

    open spec fn deep_view(&self) -> ChildModelSelectionView {
        match self {
            ChildModelSelection::Inherit => ChildModelSelectionView::Inherit,
            ChildModelSelection::Explicit { provider, model } => ChildModelSelectionView::Explicit {
                provider: provider.deep_view(),
                model: model.deep_view(),
            },
        }
    }
}

impl View for ChildModelSelection {
    type V = ChildModelSelectionView;

    open spec fn view(&self) -> ChildModelSelectionView {
        self.deep_view()
    }
}

impl Record for ChildModelSelection {
    fn same(&self, other: &Self) -> (r: bool) {
        match (self, other) {
            (ChildModelSelection::Inherit, ChildModelSelection::Inherit) => true,
            (
                ChildModelSelection::Explicit { provider, model },
                ChildModelSelection::Explicit { provider: provider_b, model: model_b },
            ) => provider.same(provider_b) && model.same(model_b),
            _ => false,
        }
    }

    fn copied(&self) -> (r: Self) {
        match self {
            ChildModelSelection::Inherit => ChildModelSelection::Inherit,
            ChildModelSelection::Explicit { provider, model } => ChildModelSelection::Explicit {
                provider: provider.copied(),
                model: model.copied(),
            },
        }
    }
}

impl Clone for ChildModelSelection {
    fn clone(&self) -> (r: Self)
        ensures
            r@ == self@,
    {
        self.copied()
    }
}

/// A host-owned specification for one child session.
#[derive(Debug, PartialEq, Eq)]
pub struct ChildSpec {
    /// The task the child starts with.
    pub task: UserInput,
    /// The provider and model selection.
    pub model: ChildModelSelection,
    /// The child's deterministic limits.
    pub limits: ChildLimits,
    /// Which tools the child's view retains.
    pub tools: ToolViewScope,
    /// The declared workspace posture.
    pub workspace: WorkspacePolicy,
}

/// What a [`ChildSpec`] holds.
pub struct ChildSpecView {
    pub task: UserInputView,
    pub model: ChildModelSelectionView,
    pub limits: ChildLimits,
    pub tools: ToolViewScopeView,
    pub workspace: WorkspacePolicyView,
}

impl DeepView for ChildSpec {
    type V = ChildSpecView;

    open spec fn deep_view(&self) -> ChildSpecView {
        ChildSpecView {
            task: self.task.deep_view(),
            model: self.model.deep_view(),
            limits: self.limits.deep_view(),
            tools: self.tools.deep_view(),
            workspace: self.workspace.deep_view(),
        }
    }
}

impl View for ChildSpec {
    type V = ChildSpecView;

    open spec fn view(&self) -> ChildSpecView {
        self.deep_view()
    }
}

impl Record for ChildSpec {
    fn same(&self, other: &Self) -> (r: bool) {
        self.task.same(&other.task)
            && self.model.same(&other.model)
            && self.limits.same(&other.limits)
            && self.tools.same(&other.tools)
            && self.workspace.same(&other.workspace)
    }

    fn copied(&self) -> (r: Self) {
        ChildSpec {
            task: self.task.copied(),
            model: self.model.copied(),
            limits: self.limits.copied(),
            tools: self.tools.copied(),
            workspace: self.workspace.copied(),
        }
    }
}

impl Clone for ChildSpec {
    fn clone(&self) -> (r: Self)
        ensures
            r@ == self@,
    {
        self.copied()
    }
}

impl ChildSpecView {
    /// What is wrong with the specification's structure, if anything: the first
    /// of its task, its limits, its tool scope, its workspace, and its model.
    pub open spec fn fault(self) -> Option<RuntimeErrorView> {
        if self.task.parts.len() == 0 {
            Some(config_error("child spec has an empty task"@))
        } else if self.limits.max_turns == 0 {
            Some(config_error("child spec must allow at least one turn"@))
        } else if self.limits.max_tokens == Some(0u64) {
            Some(config_error("child spec token budget must be greater than zero"@))
        } else if self.limits.deadline_ms == Some(0u64) {
            Some(config_error("child spec deadline must be greater than zero"@))
        } else if self.tools matches ToolViewScopeView::Named { names } && names.len() == 0 {
            Some(config_error("child spec named tool scope must name at least one tool"@))
        } else if self.workspace matches WorkspacePolicyView::ExplicitDirectory { path }
            && path.len() == 0 {
            Some(config_error("child spec explicit workspace directory must not be empty"@))
        } else if self.model matches ChildModelSelectionView::Explicit { model, .. } && model.len()
            == 0 {
            Some(config_error("child spec explicit model must not be empty"@))
        } else {
            None
        }
    }
}

impl ChildSpec {
    /// Validates the specification's structure. A rejected spec has no side
    /// effects: no child session or lifecycle event is created from it.
    pub fn validate(&self) -> (r: Result<(), RuntimeError>)
        ensures
            outcome_view(r) == verdict(self@.fault()),
    {
        if self.task.parts.len() == 0 {
            return Err(RuntimeError::config("child spec has an empty task"));
        }
        if self.limits.max_turns == 0 {
            return Err(RuntimeError::config("child spec must allow at least one turn"));
        }
        if let Some(tokens) = self.limits.max_tokens {
            if tokens == 0 {
                return Err(
                    RuntimeError::config("child spec token budget must be greater than zero"),
                );
            }
        }
        if let Some(millis) = self.limits.deadline_ms {
            if millis == 0 {
                return Err(RuntimeError::config("child spec deadline must be greater than zero"));
            }
        }
        if let ToolViewScope::Named { names } = &self.tools {
            if names.len() == 0 {
                return Err(
                    RuntimeError::config(
                        "child spec named tool scope must name at least one tool",
                    ),
                );
            }
        }
        if let WorkspacePolicy::ExplicitDirectory { path } = &self.workspace {
            if path.as_str().unicode_len() == 0 {
                return Err(
                    RuntimeError::config(
                        "child spec explicit workspace directory must not be empty",
                    ),
                );
            }
        }
        if let ChildModelSelection::Explicit { model, .. } = &self.model {
            if model.as_str().unicode_len() == 0 {
                return Err(RuntimeError::config("child spec explicit model must not be empty"));
            }
        }
        Ok(())
    }
}

/// An accepted specification gives the child something to do, and room to do
/// it.
pub proof fn an_accepted_child_can_run(spec: ChildSpecView)
    requires
        spec.fault() is None,
    ensures
        spec.task.parts.len() > 0,
        spec.limits.max_turns > 0,
        spec.limits.max_tokens matches Some(tokens) ==> tokens > 0,
        spec.limits.deadline_ms matches Some(millis) ==> millis > 0,
{
}

/// A specification is accepted exactly when it has a task, at least one turn, no budget
/// or deadline of zero, and, where it names tools, a directory, or a model, does name
/// one. Whatever else it asks for, it is refused only as a configuration.
pub proof fn a_child_is_accepted_exactly_when_it_can_run(spec: ChildSpecView)
    ensures
        spec.fault() is None <==> {
            &&& spec.task.parts.len() > 0
            &&& spec.limits.max_turns > 0
            &&& spec.limits.max_tokens matches Some(tokens) ==> tokens > 0
            &&& spec.limits.deadline_ms matches Some(millis) ==> millis > 0
            &&& spec.tools matches ToolViewScopeView::Named { names } ==> names.len() > 0
            &&& spec.workspace matches WorkspacePolicyView::ExplicitDirectory { path }
                ==> path.len() > 0
            &&& spec.model matches ChildModelSelectionView::Explicit { model, .. } ==> model.len()
                > 0
        },
        spec.fault() matches Some(e) ==> {
            &&& e.kind == crate::error::ErrorKind::Config
            &&& !e.retryable
            &&& e.metadata.len() == 0
        },
{
}

/// A child with a limit on its turns is limited in nothing else; and a specification is accepted
/// exactly when its child can run.
pub proof fn validating_a_child_finds_whether_it_can_run(
    spec: ChildSpec,
    max_turns: u32,
    limits: ChildLimits,
    r: Result<(), RuntimeError>,
)
    requires
        call_ensures(ChildSpec::validate, (&spec,), r),
        call_ensures(ChildLimits::turns, (max_turns,), limits),
    ensures
        limits.max_turns == max_turns,
        limits.max_tokens is None,
        limits.deadline_ms is None,
        r is Ok <==> {
            &&& spec@.task.parts.len() > 0
            &&& spec@.limits.max_turns > 0
            &&& spec@.limits.max_tokens matches Some(tokens) ==> tokens > 0
            &&& spec@.limits.deadline_ms matches Some(millis) ==> millis > 0
            &&& spec@.tools matches ToolViewScopeView::Named { names } ==> names.len() > 0
            &&& spec@.workspace matches WorkspacePolicyView::ExplicitDirectory { path }
                ==> path.len() > 0
            &&& spec@.model matches ChildModelSelectionView::Explicit { model, .. } ==> model.len()
                > 0
        },
{
    a_child_is_accepted_exactly_when_it_can_run(spec@);
}

} // verus!
