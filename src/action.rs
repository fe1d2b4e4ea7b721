//! The action record, the node that describes its work, and the status
//! state machine that the record moves through.
use vstd::prelude::*;

verus! {

/// A reference to one task, scoped to a project (`app:build`).
#[derive(Debug, Clone, PartialEq, Eq)]
pub struct Target {
    /// The owning project; absent for targets not bound to one project.
    pub project: Option<String>,
    pub task: String,
}

impl Target {
    pub fn new(project: Option<String>, task: String) -> (r: Target)
        ensures
            r.project == project,
            r.task == task,
    {
        Target { project, task }
    }

    /// The id of the project that owns this target, if it names one.
    pub fn project_id(&self) -> (r: Option<String>)
        ensures
            r == self.project,
    {
        match &self.project {
            Option::Some(p) => Option::Some(p.clone()),
            Option::None => Option::None,
        }
    }

    /// A copy equal to this target.
    pub fn duplicate(&self) -> (r: Target)
        ensures
            r == *self,
    {
        Target { project: self.project_id(), task: self.task.clone() }
    }
}

/// What one action does. The variant is fixed when the action is built.
#[derive(Debug, Clone, PartialEq, Eq)]
pub enum ActionNode {
    /// A placeholder that does no work.
    Noop,
    /// Install and configure a toolchain.
    SetupTool { runtime: String },
    /// Install dependencies at the workspace root.
    InstallDeps { runtime: String },
    /// Install dependencies of one project.
    InstallProjectDeps { runtime: String, project: String },
    /// Synchronise the generated configuration of one project.
    SyncProject { runtime: String, project: String },
    /// Synchronise workspace-level generated configuration.
    SyncWorkspace,
    /// Run one task.
    RunTask { runtime: String, target: Target },
}

/// A failure of this node's operation must stop every dependent action.
pub open spec fn escalates(node: ActionNode) -> bool {
    node is SetupTool || node is InstallDeps
}

impl ActionNode {
    /// A copy equal to this node.
    pub fn duplicate(&self) -> (r: ActionNode)
        ensures
            r == *self,
    {
        match self {
            ActionNode::Noop => ActionNode::Noop,
            ActionNode::SetupTool { runtime } => ActionNode::SetupTool { runtime: runtime.clone() },
            ActionNode::InstallDeps { runtime } => ActionNode::InstallDeps {
                runtime: runtime.clone(),
            },
            ActionNode::InstallProjectDeps { runtime, project } => ActionNode::InstallProjectDeps {
                runtime: runtime.clone(),
                project: project.clone(),
            },
            ActionNode::SyncProject { runtime, project } => ActionNode::SyncProject {
                runtime: runtime.clone(),
                project: project.clone(),
            },
            ActionNode::SyncWorkspace => ActionNode::SyncWorkspace,
            ActionNode::RunTask { runtime, target } => ActionNode::RunTask {
                runtime: runtime.clone(),
                target: target.duplicate(),
            },
        }
    }

    /// Whether a failure of this node aborts its dependents.
    pub fn is_escalating(&self) -> (r: bool)
        ensures
            r == escalates(*self),
    {
        matches!(self, ActionNode::SetupTool { .. } | ActionNode::InstallDeps { .. })
    }
}

/// How a successful operation ended.
#[derive(Debug, Clone, Copy, PartialEq, Eq)]
pub enum Completion {
    /// The work ran.
    Passed,
    /// The result came from the cache.
    Cached,
}

/// Where an action record stands in its lifecycle.
#[derive(Debug, Clone, Copy, PartialEq, Eq)]
pub enum ActionStatus {
    NotStarted,
    Running,
    Skipped,
    /// Succeeded by running the work.
    Passed,
    /// Succeeded from the cache.
    Cached,
    Failed,
}

pub open spec fn is_terminal(status: ActionStatus) -> bool {
    status is Skipped || status is Passed || status is Cached || status is Failed
}

/// The terminal status that a successful operation leaves.
pub open spec fn status_of(c: Completion) -> ActionStatus {
    match c {
        Completion::Passed => ActionStatus::Passed,
        Completion::Cached => ActionStatus::Cached,
    }
}

impl ActionStatus {
    pub fn from_completion(c: Completion) -> (r: ActionStatus)
        ensures
            r == status_of(c),
    {
        match c {
            Completion::Passed => ActionStatus::Passed,
            Completion::Cached => ActionStatus::Cached,
        }
    }

    pub fn is_terminal(&self) -> (r: bool)
        ensures
            r == is_terminal(*self),
    {
        matches!(
            self,
            ActionStatus::Skipped | ActionStatus::Passed | ActionStatus::Cached | ActionStatus::Failed
        )
    }

    /// Succeeded, by running the work or from the cache.
    pub fn is_succeeded(&self) -> (r: bool)
        ensures
            r == (*self is Passed || *self is Cached),
    {
        matches!(self, ActionStatus::Passed | ActionStatus::Cached)
    }
}

/// The elapsed time between two instants; an instant before the start counts
/// as no time.
pub open spec fn elapsed(start: u64, end: u64) -> u64 {
    if end >= start {
        (end - start) as u64
    } else {
        0
    }
}

/// A record that can be processed: not started, with no result.
pub open spec fn is_fresh(a: Action) -> bool {
    a.status == ActionStatus::NotStarted && a.error is None && !a.aborted
}

/// The state, timing and result of one unit of work.
#[derive(Debug, Clone, PartialEq, Eq)]
pub struct Action {
    pub label: String,
    pub node: ActionNode,
    pub status: ActionStatus,
    pub started_at: Option<u64>,
    pub finished_at: Option<u64>,
    pub duration: Option<u64>,
    pub error: Option<String>,
    /// Dependents of this action must not proceed.
    pub aborted: bool,
}

impl Action {
    /// A record that has not started.
    pub fn new(label: String, node: ActionNode) -> (r: Action)
        ensures
            r.label == label,
            r.node == node,
            r.status == ActionStatus::NotStarted,
            r.started_at is None,
            r.finished_at is None,
            r.duration is None,
            r.error is None,
            !r.aborted,
    {
        Action {
            label,
            node,
            status: ActionStatus::NotStarted,
            started_at: Option::None,
            finished_at: Option::None,
            duration: Option::None,
            error: Option::None,
            aborted: false,
        }
    }

    /// Marks the record running from the instant `now`.
    pub fn start(&mut self, now: u64)
        requires
            old(self).status == ActionStatus::NotStarted,
        ensures
            *final(self) == (Action {
                status: ActionStatus::Running,
                started_at: Option::Some(now),
                ..*old(self)
            }),
    {
        self.status = ActionStatus::Running;
        self.started_at = Option::Some(now);
    }

    /// Moves a running record to a terminal status at the instant `now`, and
    /// sets its duration once.
    pub fn finish(&mut self, status: ActionStatus, now: u64)
        requires
            old(self).status == ActionStatus::Running,
            old(self).started_at is Some,
            is_terminal(status),
        ensures
            *final(self) == (Action {
                status,
                finished_at: Option::Some(now),
                duration: Option::Some(elapsed(old(self).started_at->Some_0, now)),
                ..*old(self)
            }),
    {
        let start = match self.started_at {
            Option::Some(s) => s,
            Option::None => 0,
        };
        let d: u64 = if now >= start {
            now - start
        } else {
            0
        };
        self.status = status;
        self.finished_at = Option::Some(now);
        self.duration = Option::Some(d);
    }

    /// Attaches the error that failed the record.
    pub fn fail(&mut self, error: String)
        requires
            old(self).status == ActionStatus::Failed,
        ensures
            *final(self) == (Action { error: Option::Some(error), ..*old(self) }),
    {
        self.error = Option::Some(error);
    }

    /// Marks the record so that its dependents do not proceed.
    pub fn abort(&mut self)
        requires
            old(self).status == ActionStatus::Failed,
        ensures
            *final(self) == (Action { aborted: true, ..*old(self) }),
    {
        self.aborted = true;
    }

    /// Not started, with no error and no abort mark: ready to be processed.
    pub fn is_fresh(&self) -> (r: bool)
        ensures
            r == is_fresh(*self),
    {
        matches!(self.status, ActionStatus::NotStarted) && self.error.is_none() && !self.aborted
    }

    pub fn has_failed(&self) -> (r: bool)
        ensures
            r == (self.status == ActionStatus::Failed),
    {
        matches!(self.status, ActionStatus::Failed)
    }
}

} // verus!
