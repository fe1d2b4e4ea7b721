//! The action processor: a state machine that drives one action record from
//! start to a terminal status. It decides; its driver performs what each
//! command asks (emit an event, report, look a project up, run the
//! operation) and hands back the reply.
use crate::action::{
    elapsed, escalates, is_fresh, is_terminal, status_of, Action, ActionNode, ActionStatus, Completion,
};
use crate::event::{
    after_event, before_event, closes, error_of, has_operation, lemma_pair_closes, make_after_event, make_before_event,
    make_operation, needs_project, operation_of, project_to_find, Event, Operation,
};
use vstd::prelude::*;

verus! {

/// Where the processor stands in the lifecycle of its action.
#[derive(Debug, Clone, Copy, PartialEq, Eq)]
pub enum Phase {
    AnnounceStart,
    ReportStart,
    Lookup,
    Before,
    Operate,
    After,
    ReportEnd,
    AnnounceFinish,
    Done,
}

/// What the driver must do next.
#[derive(Debug, Clone, PartialEq, Eq)]
pub enum Command {
    /// Deliver the event to every observer, and wait until it is delivered.
    Emit(Event),
    /// Tell the console reporter that the action started.
    ReportStarted,
    /// Find the project with this id in the project graph.
    LookupProject(String),
    /// Run the operation.
    Run(Operation),
    /// Tell the console reporter that the action completed, with its error.
    ReportCompleted(Option<String>),
    /// The record is final: take it back.
    Return,
}

/// What came of the last command.
#[derive(Debug, PartialEq, Eq)]
pub enum Reply {
    /// The event or report was delivered.
    Delivered,
    /// The event or report could not be delivered.
    Refused(String),
    ProjectFound,
    ProjectMissing,
    /// What the operation returned.
    Outcome(Result<Completion, String>),
}

/// A failure of the processing call itself; no final record comes of it.
#[derive(Debug, Clone, PartialEq, Eq)]
pub enum ProcessError {
    /// The record was already started, or already carries a result.
    AlreadyProcessed,
    /// The project graph has no project with this id.
    ProjectNotFound(String),
    /// A run-task target names no project.
    TargetWithoutProject,
    /// An event or a report could not be delivered.
    Delivery(String),
    /// The reply does not answer the command that was asked.
    UnexpectedReply,
    /// The processor has already returned its record.
    Finished,
}

/// The processor as a mathematical value.
pub struct ProcessorState {
    pub action: Action,
    pub phase: Phase,
    pub outcome: Option<Result<Completion, String>>,
    /// The events delivered so far, in order.
    pub events: Seq<Event>,
}

/// The error of an operation's outcome, if it failed.
pub open spec fn error_of_outcome(outcome: Option<Result<Completion, String>>) -> Option<String> {
    match outcome {
        Some(Err(e)) => Some(e),
        _ => None,
    }
}

/// The running record once its operation's outcome is in at `now`: finished,
/// failed on an error and succeeded otherwise.
pub open spec fn concluded(a: Action, outcome: Result<Completion, String>, now: u64) -> Action {
    Action {
        status: match outcome {
            Ok(c) => status_of(c),
            Err(_) => ActionStatus::Failed,
        },
        finished_at: Some(now),
        duration: Some(elapsed(a.started_at->Some_0, now)),
        ..a
    }
}

/// The running record of a node without an operation, finished at `now`.
pub open spec fn skipped(a: Action, now: u64) -> Action {
    Action {
        status: ActionStatus::Skipped,
        finished_at: Some(now),
        duration: Some(elapsed(a.started_at->Some_0, now)),
        ..a
    }
}

/// The concluded record once its completion has been reported: on failure it
/// carries the error, and the abort mark when its node escalates.
pub open spec fn marked(a: Action, outcome: Result<Completion, String>) -> Action {
    match outcome {
        Ok(_) => a,
        Err(e) => Action { error: Some(e), aborted: a.aborted || escalates(a.node), ..a },
    }
}

/// The running record with its operation's outcome fully recorded.
pub open spec fn settled(a: Action, outcome: Result<Completion, String>, now: u64) -> Action {
    marked(concluded(a, outcome, now), outcome)
}

pub open spec fn started_event(a: Action) -> Event {
    Event::ActionStarted { label: a.label, node: a.node }
}

pub open spec fn finished_event(a: Action, error: Option<String>) -> Event {
    Event::ActionFinished { label: a.label, status: a.status, aborted: a.aborted, error }
}

/// The events of a whole run of a node: started, the node's before/after
/// pair if it has an operation, and finished.
pub open spec fn full_trace(a: Action, error: Option<String>) -> Seq<Event> {
    seq![started_event(a)] + operation_events(a, error) + seq![finished_event(a, error)]
}

/// The before/after pair of the node's operation, or nothing.
pub open spec fn operation_events(a: Action, error: Option<String>) -> Seq<Event> {
    if has_operation(a.node) {
        seq![before_event(a.node, a.label), after_event(a.node, a.label, error)]
    } else {
        seq![]
    }
}

/// The events that have been delivered on reaching each phase.
pub open spec fn delivered(s: ProcessorState) -> Seq<Event> {
    let a = s.action;
    let error = error_of_outcome(s.outcome);
    match s.phase {
        Phase::AnnounceStart => seq![],
        Phase::ReportStart | Phase::Lookup | Phase::Before => seq![started_event(a)],
        Phase::Operate | Phase::After => seq![started_event(a), before_event(a.node, a.label)],
        Phase::ReportEnd | Phase::AnnounceFinish => seq![started_event(a)] + operation_events(
            a,
            error,
        ),
        Phase::Done => full_trace(a, error),
    }
}

pub open spec fn before_settling(p: Phase) -> bool {
    p is AnnounceStart || p is ReportStart || p is Lookup || p is Before || p is Operate
        || p is After
}

/// The processor's invariant.
pub open spec fn well_formed(s: ProcessorState) -> bool {
    let a = s.action;
    &&& s.events == delivered(s)
    &&& before_settling(s.phase) ==> {
        &&& a.status == ActionStatus::Running
        &&& a.started_at is Some
        &&& a.error is None
        &&& !a.aborted
        &&& (s.outcome is Some <==> s.phase is After)
    }
    &&& s.phase is Lookup ==> needs_project(a.node) && project_to_find(a.node) is Some
    &&& (s.phase is Before || s.phase is Operate || s.phase is After) ==> {
        &&& has_operation(a.node)
        &&& a.node is RunTask ==> a.node->RunTask_target.project is Some
    }
    &&& !before_settling(s.phase) ==> {
        &&& (s.outcome is Some <==> has_operation(a.node))
        &&& is_terminal(a.status)
        &&& (a.status == ActionStatus::Skipped <==> !has_operation(a.node))
        &&& (a.status == ActionStatus::Failed <==> s.outcome matches Some(Err(_)))
        &&& (s.outcome matches Some(Ok(c)) ==> a.status == status_of(c))
        &&& a.finished_at is Some
        &&& a.duration is Some
        &&& if s.phase is ReportEnd {
            a.error is None && !a.aborted
        } else {
            &&& a.error == error_of_outcome(s.outcome)
            &&& a.aborted == (a.status == ActionStatus::Failed && escalates(a.node))
        }
    }
}

/// What the processor asks of its driver in a state.
pub open spec fn next_command(s: ProcessorState) -> Command {
    let a = s.action;
    let error = error_of_outcome(s.outcome);
    match s.phase {
        Phase::AnnounceStart => Command::Emit(started_event(a)),
        Phase::ReportStart => Command::ReportStarted,
        Phase::Lookup => Command::LookupProject(project_to_find(a.node)->Some_0),
        Phase::Before => Command::Emit(before_event(a.node, a.label)),
        Phase::Operate => Command::Run(operation_of(a.node)),
        Phase::After => Command::Emit(after_event(a.node, a.label, error)),
        Phase::ReportEnd => Command::ReportCompleted(error),
        Phase::AnnounceFinish => Command::Emit(finished_event(a, error)),
        Phase::Done => Command::Return,
    }
}

/// On a delivered event or report, go on to `next`; on a refused one, fail
/// the call.
pub open spec fn on_delivery(reply: Reply, next: ProcessorState) -> Result<
    ProcessorState,
    ProcessError,
> {
    match reply {
        Reply::Delivered => Ok(next),
        Reply::Refused(m) => Err(ProcessError::Delivery(m)),
        _ => Err(ProcessError::UnexpectedReply),
    }
}

/// One transition of the processor, on the reply to its command, at the
/// instant `now`.
pub open spec fn step(s: ProcessorState, reply: Reply, now: u64) -> Result<
    ProcessorState,
    ProcessError,
> {
    let a = s.action;
    let error = error_of_outcome(s.outcome);
    match s.phase {
        Phase::AnnounceStart => on_delivery(
            reply,
            ProcessorState { phase: Phase::ReportStart, events: s.events.push(started_event(a)), ..s },
        ),
        Phase::ReportStart => match reply {
            Reply::Delivered => if a.node is Noop {
                Ok(ProcessorState { phase: Phase::ReportEnd, action: skipped(a, now), ..s })
            } else if a.node is RunTask && a.node->RunTask_target.project is None {
                Err(ProcessError::TargetWithoutProject)
            } else if needs_project(a.node) {
                Ok(ProcessorState { phase: Phase::Lookup, ..s })
            } else {
                Ok(ProcessorState { phase: Phase::Before, ..s })
            },
            Reply::Refused(m) => Err(ProcessError::Delivery(m)),
            _ => Err(ProcessError::UnexpectedReply),
        },
        Phase::Lookup => match reply {
            Reply::ProjectFound => Ok(ProcessorState { phase: Phase::Before, ..s }),
            Reply::ProjectMissing => Err(ProcessError::ProjectNotFound(project_to_find(a.node)->Some_0)),
            _ => Err(ProcessError::UnexpectedReply),
        },
        Phase::Before => on_delivery(
            reply,
            ProcessorState {
                phase: Phase::Operate,
                events: s.events.push(before_event(a.node, a.label)),
                ..s
            },
        ),
        Phase::Operate => match reply {
            Reply::Outcome(o) => Ok(ProcessorState { phase: Phase::After, outcome: Some(o), ..s }),
            _ => Err(ProcessError::UnexpectedReply),
        },
        Phase::After => on_delivery(
            reply,
            ProcessorState {
                phase: Phase::ReportEnd,
                action: concluded(a, s.outcome->Some_0, now),
                events: s.events.push(after_event(a.node, a.label, error)),
                ..s
            },
        ),
        Phase::ReportEnd => on_delivery(
            reply,
            ProcessorState {
                phase: Phase::AnnounceFinish,
                action: match s.outcome {
                    Some(o) => marked(a, o),
                    None => a,
                },
                ..s
            },
        ),
        Phase::AnnounceFinish => on_delivery(
            reply,
            ProcessorState {
                phase: Phase::Done,
                events: s.events.push(finished_event(a, error)),
                ..s
            },
        ),
        Phase::Done => Err(ProcessError::Finished),
    }
}

/// The state in which processing of a fresh record starts at `now`.
pub open spec fn initial(a: Action, now: u64) -> ProcessorState {
    ProcessorState {
        action: Action { status: ActionStatus::Running, started_at: Some(now), ..a },
        phase: Phase::AnnounceStart,
        outcome: None,
        events: seq![],
    }
}

/// Every transition keeps the invariant.
pub proof fn lemma_step_well_formed(s: ProcessorState, reply: Reply, now: u64)
    requires
        well_formed(s),
        step(s, reply, now) is Ok,
    ensures
        well_formed(step(s, reply, now)->Ok_0),
{
    let t = step(s, reply, now)->Ok_0;
    assert(t.events =~= delivered(t));
}


/// A finished run delivered the started event first and the finished event
/// last, with nothing else at either end; between them stands exactly the
/// node's before/after pair, or nothing for a node without an operation. The
/// "after" event and the finished event carry the record's error.
pub proof fn lemma_events_bracketed(s: ProcessorState)
    requires
        well_formed(s),
        s.phase is Done,
    ensures
        s.events.len() == if has_operation(s.action.node) {
            4int
        } else {
            2int
        },
        s.events[0] == started_event(s.action),
        s.events.last() == finished_event(s.action, s.action.error),
        forall|i: int|
            0 < i < s.events.len() - 1 ==> !(#[trigger] s.events[i] is ActionStarted)
                && !(s.events[i] is ActionFinished),
        has_operation(s.action.node) ==> {
            &&& s.events[1] == before_event(s.action.node, s.action.label)
            &&& closes(s.events[1], s.events[2])
            &&& error_of(s.events[2]) == s.action.error
        },
{
    let a = s.action;
    if has_operation(a.node) {
        lemma_pair_closes(a.node, a.label, a.error);
    }
}

/// Whatever the operation returned, the settled record has failed iff the
/// operation returned an error, and carries an error iff it has failed.
pub proof fn lemma_failed_iff_error(a: Action, outcome: Result<Completion, String>, now: u64)
    requires
        a.status == ActionStatus::Running,
        a.error is None,
    ensures
        settled(a, outcome, now).status == ActionStatus::Failed <==> outcome is Err,
        settled(a, outcome, now).error is Some <==> settled(a, outcome, now).status
            == ActionStatus::Failed,
        outcome matches Ok(c) ==> settled(a, outcome, now).status == status_of(c),
        settled(a, outcome, now).status is Passed || settled(a, outcome, now).status is Cached
            || settled(a, outcome, now).status is Failed,
{
}

/// A finished run has failed iff its operation returned an error, and its
/// record carries an error iff it has failed.
pub proof fn lemma_finished_failed_iff_error(s: ProcessorState)
    requires
        well_formed(s),
        s.phase is Done,
    ensures
        s.action.status == ActionStatus::Failed <==> s.outcome matches Some(Err(_)),
        s.action.error is Some <==> s.action.status == ActionStatus::Failed,
        s.outcome matches Some(Err(e)) ==> s.action.error == Some(e),
        s.outcome matches Some(Ok(c)) ==> s.action.status == status_of(c),
{
}

/// The completion report is asked once the status is final and before the
/// error is attached; it carries an error iff the record has failed.
pub proof fn lemma_report_carries_error(s: ProcessorState)
    requires
        well_formed(s),
        s.phase is ReportEnd,
    ensures
        next_command(s) == Command::ReportCompleted(error_of_outcome(s.outcome)),
        is_terminal(s.action.status),
        s.action.error is None,
        error_of_outcome(s.outcome) is Some <==> s.action.status == ActionStatus::Failed,
{
}

/// A finished run ends skipped iff its node is the placeholder without an
/// operation; every other node ends succeeded or failed.
pub proof fn lemma_skipped_iff_noop(s: ProcessorState)
    requires
        well_formed(s),
        s.phase is Done,
    ensures
        s.action.status == ActionStatus::Skipped <==> s.action.node is Noop,
        !(s.action.node is Noop) ==> (s.action.status is Passed || s.action.status is Cached
            || s.action.status is Failed),
{
}

/// A failed record is aborted iff its node sets up a tool or installs
/// workspace dependencies; a record of any other node is never aborted.
pub proof fn lemma_escalation(s: ProcessorState)
    requires
        well_formed(s),
        s.phase is Done,
    ensures
        s.action.status == ActionStatus::Failed ==> (s.action.aborted <==> escalates(
            s.action.node,
        )),
        !escalates(s.action.node) ==> !s.action.aborted,
        s.action.aborted ==> s.action.status == ActionStatus::Failed,
{
}

/// A finished processor takes no further reply, and the record it hands
/// back is not accepted for processing again.
pub proof fn lemma_no_reentry(s: ProcessorState, reply: Reply, now: u64)
    requires
        well_formed(s),
        s.phase is Done,
    ensures
        step(s, reply, now) == Err::<ProcessorState, ProcessError>(ProcessError::Finished),
        !is_fresh(s.action),
{
}

/// A project that the graph does not hold ends the call with an error that
/// names it, and no record.
pub proof fn lemma_missing_project_is_fatal(s: ProcessorState, now: u64)
    requires
        well_formed(s),
        s.phase is Lookup,
    ensures
        step(s, Reply::ProjectMissing, now) == Err::<ProcessorState, ProcessError>(
            ProcessError::ProjectNotFound(project_to_find(s.action.node)->Some_0),
        ),
{
}

/// Drives one action record through its lifecycle.
pub struct Processor {
    action: Action,
    phase: Phase,
    outcome: Option<Result<Completion, String>>,
    events: Vec<Event>,
}

impl View for Processor {
    type V = ProcessorState;

    closed spec fn view(&self) -> ProcessorState {
        ProcessorState {
            action: self.action,
            phase: self.phase,
            outcome: self.outcome,
            events: self.events@,
        }
    }
}

/// Records the operation's outcome on the running record at `now`: its
/// terminal status and timing.
fn conclude(action: &mut Action, outcome: &Result<Completion, String>, now: u64)
    requires
        old(action).status == ActionStatus::Running,
        old(action).started_at is Some,
    ensures
        *final(action) == concluded(*old(action), *outcome, now),
{
    match outcome {
        Result::Ok(c) => action.finish(ActionStatus::from_completion(*c), now),
        Result::Err(_) => action.finish(ActionStatus::Failed, now),
    }
}

/// Attaches a failure's error to the concluded record, and marks it aborted
/// when its node escalates.
fn mark(action: &mut Action, outcome: &Result<Completion, String>)
    requires
        outcome is Err ==> old(action).status == ActionStatus::Failed,
    ensures
        *final(action) == marked(*old(action), *outcome),
{
    if let Result::Err(e) = outcome {
        action.fail(e.clone());
        // A failed toolchain or workspace install leaves every dependent
        // without its preconditions.
        if action.node.is_escalating() {
            action.abort();
        }
    }
}

fn outcome_error(outcome: &Option<Result<Completion, String>>) -> (r: Option<String>)
    ensures
        r == error_of_outcome(*outcome),
{
    match outcome {
        Option::Some(Result::Err(e)) => Option::Some(e.clone()),
        _ => Option::None,
    }
}

impl Processor {
    /// Starts processing a fresh record at `now`. A record that was already
    /// started, or that carries a result, is refused as it is.
    pub fn begin(action: Action, now: u64) -> (r: Result<Processor, ProcessError>)
        ensures
            is_fresh(action) <==> r is Ok,
            r matches Ok(p) ==> p@ == initial(action, now) && well_formed(p@),
            r matches Err(e) ==> e == ProcessError::AlreadyProcessed,
    {
        if !action.is_fresh() {
            return Result::Err(ProcessError::AlreadyProcessed);
        }
        let mut action = action;
        action.start(now);
        let p = Processor {
            action,
            phase: Phase::AnnounceStart,
            outcome: Option::None,
            events: Vec::new(),
        };
        assert(p@.events =~= delivered(p@));
        Result::Ok(p)
    }

    /// What the driver must do next.
    pub fn command(&self) -> (r: Command)
        requires
            well_formed(self@),
        ensures
            r == next_command(self@),
    {
        let a = &self.action;
        match self.phase {
            Phase::AnnounceStart => Command::Emit(
                Event::ActionStarted { label: a.label.clone(), node: a.node.duplicate() },
            ),
            Phase::ReportStart => Command::ReportStarted,
            Phase::Lookup => {
                let id = match &a.node {
                    ActionNode::InstallProjectDeps { project, .. } => project.clone(),
                    ActionNode::SyncProject { project, .. } => project.clone(),
                    ActionNode::RunTask { target, .. } => match &target.project {
                        Option::Some(p) => p.clone(),
                        Option::None => String::new(),
                    },
                    _ => String::new(),
                };
                Command::LookupProject(id)
            },
            Phase::Before => Command::Emit(make_before_event(&a.node, &a.label)),
            Phase::Operate => Command::Run(make_operation(&a.node)),
            Phase::After => Command::Emit(
                make_after_event(&a.node, &a.label, outcome_error(&self.outcome)),
            ),
            Phase::ReportEnd => Command::ReportCompleted(outcome_error(&self.outcome)),
            Phase::AnnounceFinish => Command::Emit(self.finished_event()),
            Phase::Done => Command::Return,
        }
    }

    fn finished_event(&self) -> (r: Event)
        ensures
            r == finished_event(self.action, error_of_outcome(self.outcome)),
    {
        Event::ActionFinished {
            label: self.action.label.clone(),
            status: self.action.status,
            aborted: self.action.aborted,
            error: outcome_error(&self.outcome),
        }
    }

    /// Takes the reply to the last command, received at `now`. An error ends
    /// the processing call with no final record.
    pub fn advance(self, reply: Reply, now: u64) -> (r: Result<Processor, ProcessError>)
        requires
            well_formed(self@),
        ensures
            r matches Ok(q) ==> step(self@, reply, now) == Ok::<ProcessorState, ProcessError>(q@)
                && well_formed(q@),
            r matches Err(e) ==> step(self@, reply, now) == Err::<ProcessorState, ProcessError>(e),
    {
        proof {
            if step(self@, reply, now) is Ok {
                lemma_step_well_formed(self@, reply, now);
            }
        }
        let mut p = self;
        let ghost s = p@;
        match p.phase {
            Phase::AnnounceStart | Phase::Before | Phase::After | Phase::ReportEnd
            | Phase::AnnounceFinish => {
                match reply {
                    Reply::Delivered => {},
                    Reply::Refused(m) => {
                        return Result::Err(ProcessError::Delivery(m));
                    },
                    _ => {
                        return Result::Err(ProcessError::UnexpectedReply);
                    },
                }
                match p.phase {
                    Phase::AnnounceStart => {
                        let e = Event::ActionStarted {
                            label: p.action.label.clone(),
                            node: p.action.node.duplicate(),
                        };
                        p.events.push(e);
                        p.phase = Phase::ReportStart;
                    },
                    Phase::Before => {
                        let e = make_before_event(&p.action.node, &p.action.label);
                        p.events.push(e);
                        p.phase = Phase::Operate;
                    },
                    Phase::After => {
                        let e = make_after_event(
                            &p.action.node,
                            &p.action.label,
                            outcome_error(&p.outcome),
                        );
                        p.events.push(e);
                        match &p.outcome {
                            Option::Some(o) => conclude(&mut p.action, o, now),
                            Option::None => {},
                        }
                        p.phase = Phase::ReportEnd;
                    },
                    Phase::ReportEnd => {
                        match &p.outcome {
                            Option::Some(o) => mark(&mut p.action, o),
                            Option::None => {},
                        }
                        p.phase = Phase::AnnounceFinish;
                    },
                    _ => {
                        let e = p.finished_event();
                        p.events.push(e);
                        p.phase = Phase::Done;
                    },
                }
                assert(p@ == step(s, reply, now)->Ok_0);
                Result::Ok(p)
            },
            Phase::ReportStart => {
                match reply {
                    Reply::Delivered => {},
                    Reply::Refused(m) => {
                        return Result::Err(ProcessError::Delivery(m));
                    },
                    _ => {
                        return Result::Err(ProcessError::UnexpectedReply);
                    },
                }
                match &p.action.node {
                    ActionNode::Noop => {
                        p.action.finish(ActionStatus::Skipped, now);
                        p.phase = Phase::ReportEnd;
                    },
                    ActionNode::RunTask { target, .. } => {
                        if target.project.is_none() {
                            return Result::Err(ProcessError::TargetWithoutProject);
                        }
                        p.phase = Phase::Lookup;
                    },
                    ActionNode::InstallProjectDeps { .. } | ActionNode::SyncProject { .. } => {
                        p.phase = Phase::Lookup;
                    },
                    _ => {
                        p.phase = Phase::Before;
                    },
                }
                assert(p@ == step(s, reply, now)->Ok_0);
                Result::Ok(p)
            },
            Phase::Lookup => match reply {
                Reply::ProjectFound => {
                    p.phase = Phase::Before;
                    assert(p@ == step(s, reply, now)->Ok_0);
                    Result::Ok(p)
                },
                Reply::ProjectMissing => {
                    let id = match p.command() {
                        Command::LookupProject(id) => id,
                        _ => String::new(),
                    };
                    Result::Err(ProcessError::ProjectNotFound(id))
                },
                _ => Result::Err(ProcessError::UnexpectedReply),
            },
            Phase::Operate => match reply {
                Reply::Outcome(o) => {
                    p.outcome = Option::Some(o);
                    p.phase = Phase::After;
                    assert(p@ == step(s, reply, now)->Ok_0);
                    Result::Ok(p)
                },
                _ => Result::Err(ProcessError::UnexpectedReply),
            },
            Phase::Done => Result::Err(ProcessError::Finished),
        }
    }

    /// The events delivered so far, in order.
    pub fn events(&self) -> (r: &Vec<Event>)
        ensures
            r@ == self@.events,
    {
        &self.events
    }

    /// The record as it stands.
    pub fn action(&self) -> (r: &Action)
        ensures
            *r == self@.action,
    {
        &self.action
    }

    pub fn is_done(&self) -> (r: bool)
        ensures
            r == (self@.phase is Done),
    {
        matches!(self.phase, Phase::Done)
    }

    /// Hands the final record back once the lifecycle is done.
    pub fn into_action(self) -> (r: Option<Action>)
        ensures
            r is Some <==> self@.phase is Done,
            r matches Some(a) ==> a == self@.action,
    {
        if matches!(self.phase, Phase::Done) {
            Option::Some(self.action)
        } else {
            Option::None
        }
    }
}

} // verus!
