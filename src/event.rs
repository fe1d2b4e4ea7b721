//! The event catalog, and the dispatch table from an action node to its
//! operation and to the events around that operation.
use crate::action::{ActionNode, ActionStatus, Target};
use vstd::prelude::*;

verus! {

/// A lifecycle notification for observers. Every "before" event has exactly
/// one matching "after" event, whose `error` is present iff the operation
/// failed.
#[derive(Debug, Clone, PartialEq, Eq)]
pub enum Event {
    ActionStarted { label: String, node: ActionNode },
    ToolInstalling { runtime: String },
    ToolInstalled { runtime: String, error: Option<String> },
    DependenciesInstalling { runtime: String, project: Option<String> },
    DependenciesInstalled { runtime: String, project: Option<String>, error: Option<String> },
    ProjectSyncing { project: String, runtime: String },
    ProjectSynced { project: String, runtime: String, error: Option<String> },
    WorkspaceSyncing,
    WorkspaceSynced { error: Option<String> },
    TargetRunning { label: String, target: Target },
    TargetRan { label: String, target: Target, error: Option<String> },
    ActionFinished {
        label: String,
        status: ActionStatus,
        aborted: bool,
        error: Option<String>,
    },
}

/// The outside work that one node dispatches to.
#[derive(Debug, Clone, PartialEq, Eq)]
pub enum Operation {
    SetupTool { runtime: String },
    InstallDeps { runtime: String, project: Option<String> },
    SyncProject { project: String, runtime: String },
    SyncWorkspace,
    RunTask { project: String, target: Target, runtime: String },
}

/// The project that a node must find in the project graph before its
/// operation runs. A run-task node looks up the project of its target.
pub open spec fn project_to_find(node: ActionNode) -> Option<String> {
    match node {
        ActionNode::InstallProjectDeps { project, .. } => Some(project),
        ActionNode::SyncProject { project, .. } => Some(project),
        ActionNode::RunTask { target, .. } => target.project,
        _ => None,
    }
}

/// Whether the node looks a project up before its operation runs.
pub open spec fn needs_project(node: ActionNode) -> bool {
    node is InstallProjectDeps || node is SyncProject || node is RunTask
}

/// Whether the node runs an operation, bracketed by a before/after pair.
pub open spec fn has_operation(node: ActionNode) -> bool {
    !(node is Noop)
}

/// The event emitted just before the node's operation.
pub open spec fn before_event(node: ActionNode, label: String) -> Event {
    match node {
        ActionNode::SetupTool { runtime } => Event::ToolInstalling { runtime },
        ActionNode::InstallDeps { runtime } => Event::DependenciesInstalling { runtime, project: None },
        ActionNode::InstallProjectDeps { runtime, project } => Event::DependenciesInstalling {
            runtime,
            project: Some(project),
        },
        ActionNode::SyncProject { runtime, project } => Event::ProjectSyncing { project, runtime },
        ActionNode::RunTask { target, .. } => Event::TargetRunning { label, target },
        _ => Event::WorkspaceSyncing,
    }
}

/// The event emitted just after the node's operation, carrying its error.
pub open spec fn after_event(node: ActionNode, label: String, error: Option<String>) -> Event {
    match node {
        ActionNode::SetupTool { runtime } => Event::ToolInstalled { runtime, error },
        ActionNode::InstallDeps { runtime } => Event::DependenciesInstalled {
            runtime,
            project: None,
            error,
        },
        ActionNode::InstallProjectDeps { runtime, project } => Event::DependenciesInstalled {
            runtime,
            project: Some(project),
            error,
        },
        ActionNode::SyncProject { runtime, project } => Event::ProjectSynced {
            project,
            runtime,
            error,
        },
        ActionNode::RunTask { target, .. } => Event::TargetRan { label, target, error },
        _ => Event::WorkspaceSynced { error },
    }
}

/// The operation that the node dispatches to.
pub open spec fn operation_of(node: ActionNode) -> Operation {
    match node {
        ActionNode::SetupTool { runtime } => Operation::SetupTool { runtime },
        ActionNode::InstallDeps { runtime } => Operation::InstallDeps { runtime, project: None },
        ActionNode::InstallProjectDeps { runtime, project } => Operation::InstallDeps {
            runtime,
            project: Some(project),
        },
        ActionNode::SyncProject { runtime, project } => Operation::SyncProject { project, runtime },
        ActionNode::RunTask { runtime, target } => Operation::RunTask {
            project: target.project->Some_0,
            target,
            runtime,
        },
        _ => Operation::SyncWorkspace,
    }
}

/// Whether `after` is the event that closes `before`.
pub open spec fn closes(before: Event, after: Event) -> bool {
    match (before, after) {
        (Event::ToolInstalling { runtime: a }, Event::ToolInstalled { runtime: b, .. }) => a == b,
        (
            Event::DependenciesInstalling { runtime: a, project: p },
            Event::DependenciesInstalled { runtime: b, project: q, .. },
        ) => a == b && p == q,
        (
            Event::ProjectSyncing { project: p, runtime: a },
            Event::ProjectSynced { project: q, runtime: b, .. },
        ) => a == b && p == q,
        (Event::WorkspaceSyncing, Event::WorkspaceSynced { .. }) => true,
        (
            Event::TargetRunning { label: l, target: t },
            Event::TargetRan { label: m, target: u, .. },
        ) => l == m && t == u,
        _ => false,
    }
}

/// The error that an "after" or finished event carries.
pub open spec fn error_of(e: Event) -> Option<String> {
    match e {
        Event::ToolInstalled { error, .. } => error,
        Event::DependenciesInstalled { error, .. } => error,
        Event::ProjectSynced { error, .. } => error,
        Event::WorkspaceSynced { error } => error,
        Event::TargetRan { error, .. } => error,
        Event::ActionFinished { error, .. } => error,
        _ => None,
    }
}

/// Builds the event emitted before the node's operation.
pub fn make_before_event(node: &ActionNode, label: &String) -> (r: Event)
    requires
        has_operation(*node),
    ensures
        r == before_event(*node, *label),
{
    match node {
        ActionNode::SetupTool { runtime } => Event::ToolInstalling { runtime: runtime.clone() },
        ActionNode::InstallDeps { runtime } => Event::DependenciesInstalling {
            runtime: runtime.clone(),
            project: Option::None,
        },
        ActionNode::InstallProjectDeps { runtime, project } => Event::DependenciesInstalling {
            runtime: runtime.clone(),
            project: Option::Some(project.clone()),
        },
        ActionNode::SyncProject { runtime, project } => Event::ProjectSyncing {
            project: project.clone(),
            runtime: runtime.clone(),
        },
        ActionNode::RunTask { target, .. } => Event::TargetRunning {
            label: label.clone(),
            target: target.duplicate(),
        },
        _ => Event::WorkspaceSyncing,
    }
}

/// Builds the event emitted after the node's operation.
pub fn make_after_event(node: &ActionNode, label: &String, error: Option<String>) -> (r: Event)
    requires
        has_operation(*node),
    ensures
        r == after_event(*node, *label, error),
{
    match node {
        ActionNode::SetupTool { runtime } => Event::ToolInstalled {
            runtime: runtime.clone(),
            error,
        },
        ActionNode::InstallDeps { runtime } => Event::DependenciesInstalled {
            runtime: runtime.clone(),
            project: Option::None,
            error,
        },
        ActionNode::InstallProjectDeps { runtime, project } => Event::DependenciesInstalled {
            runtime: runtime.clone(),
            project: Option::Some(project.clone()),
            error,
        },
        ActionNode::SyncProject { runtime, project } => Event::ProjectSynced {
            project: project.clone(),
            runtime: runtime.clone(),
            error,
        },
        ActionNode::RunTask { target, .. } => Event::TargetRan {
            label: label.clone(),
            target: target.duplicate(),
            error,
        },
        _ => Event::WorkspaceSynced { error },
    }
}

/// Builds the operation that the node dispatches to.
pub fn make_operation(node: &ActionNode) -> (r: Operation)
    requires
        has_operation(*node),
        node is RunTask ==> node->RunTask_target.project is Some,
    ensures
        r == operation_of(*node),
{
    match node {
        ActionNode::SetupTool { runtime } => Operation::SetupTool { runtime: runtime.clone() },
        ActionNode::InstallDeps { runtime } => Operation::InstallDeps {
            runtime: runtime.clone(),
            project: Option::None,
        },
        ActionNode::InstallProjectDeps { runtime, project } => Operation::InstallDeps {
            runtime: runtime.clone(),
            project: Option::Some(project.clone()),
        },
        ActionNode::SyncProject { runtime, project } => Operation::SyncProject {
            project: project.clone(),
            runtime: runtime.clone(),
        },
        ActionNode::RunTask { runtime, target } => {
            let project = match &target.project {
                Option::Some(p) => p.clone(),
                Option::None => String::new(),
            };
            Operation::RunTask { project, target: target.duplicate(), runtime: runtime.clone() }
        },
        _ => Operation::SyncWorkspace,
    }
}

/// Every node with an operation has a before/after pair that closes, and the
/// "after" event carries exactly the error it was given.
pub proof fn lemma_pair_closes(node: ActionNode, label: String, error: Option<String>)
    requires
        has_operation(node),
    ensures
        closes(before_event(node, label), after_event(node, label, error)),
        error_of(after_event(node, label, error)) == error,
{
}

} // verus!
