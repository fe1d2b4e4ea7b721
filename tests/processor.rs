use action_pipeline::{
    Action, ActionNode, ActionStatus, Command, Completion, Event, Operation, ProcessError,
    Processor, Reply, Target,
};

/// Drives one action to its end. Every event and report is delivered, every
/// lookup answers `project_found`, and the operation returns `outcome`.
fn drive(
    node: ActionNode,
    project_found: bool,
    outcome: Result<Completion, String>,
) -> (Result<Action, ProcessError>, Vec<Command>) {
    let mut commands = Vec::new();
    let mut outcome = Some(outcome);
    let mut now: u64 = 100;
    let mut p = match Processor::begin(Action::new("label".to_string(), node), now) {
        Ok(p) => p,
        Err(e) => return (Err(e), commands),
    };
    loop {
        let command = p.command();
        commands.push(command.clone());
        now += 10;
        let reply = match command {
            Command::Return => return (Ok(p.into_action().unwrap()), commands),
            Command::Emit(_) | Command::ReportStarted | Command::ReportCompleted(_) => {
                Reply::Delivered
            }
            Command::LookupProject(_) => {
                if project_found {
                    Reply::ProjectFound
                } else {
                    Reply::ProjectMissing
                }
            }
            Command::Run(_) => Reply::Outcome(outcome.take().unwrap()),
        };
        p = match p.advance(reply, now) {
            Ok(p) => p,
            Err(e) => return (Err(e), commands),
        };
    }
}

fn emitted(commands: &[Command]) -> Vec<Event> {
    commands
        .iter()
        .filter_map(|c| match c {
            Command::Emit(e) => Some(e.clone()),
            _ => None,
        })
        .collect()
}

fn node_target(project: Option<&str>, task: &str) -> Target {
    Target::new(project.map(|p| p.to_string()), task.to_string())
}

fn all_nodes() -> Vec<ActionNode> {
    vec![
        ActionNode::Noop,
        ActionNode::SetupTool { runtime: "node".to_string() },
        ActionNode::InstallDeps { runtime: "node".to_string() },
        ActionNode::InstallProjectDeps { runtime: "node".to_string(), project: "app".to_string() },
        ActionNode::SyncProject { runtime: "node".to_string(), project: "app".to_string() },
        ActionNode::SyncWorkspace,
        ActionNode::RunTask { runtime: "node".to_string(), target: node_target(Some("app"), "build") },
    ]
}

#[test]
fn setup_tool_success_emits_bracketed_events() {
    let node = ActionNode::SetupTool { runtime: "node".to_string() };
    let (result, commands) = drive(node.clone(), true, Ok(Completion::Passed));
    let action = result.unwrap();
    assert_eq!(action.status, ActionStatus::Passed);
    assert!(action.status.is_succeeded());
    assert!(!action.aborted);
    assert_eq!(action.error, None);
    assert_eq!(
        emitted(&commands),
        vec![
            Event::ActionStarted { label: "label".to_string(), node },
            Event::ToolInstalling { runtime: "node".to_string() },
            Event::ToolInstalled { runtime: "node".to_string(), error: None },
            Event::ActionFinished {
                label: "label".to_string(),
                status: ActionStatus::Passed,
                aborted: false,
                error: None,
            },
        ]
    );
}

#[test]
fn install_deps_failure_aborts() {
    let node = ActionNode::InstallDeps { runtime: "node".to_string() };
    let (result, commands) = drive(node, true, Err("network timeout".to_string()));
    let action = result.unwrap();
    assert_eq!(action.status, ActionStatus::Failed);
    assert!(action.aborted);
    assert_eq!(action.error, Some("network timeout".to_string()));
    let events = emitted(&commands);
    assert_eq!(
        events[2],
        Event::DependenciesInstalled {
            runtime: "node".to_string(),
            project: None,
            error: Some("network timeout".to_string()),
        }
    );
    assert_eq!(
        events.last().unwrap(),
        &Event::ActionFinished {
            label: "label".to_string(),
            status: ActionStatus::Failed,
            aborted: true,
            error: Some("network timeout".to_string()),
        }
    );
}

#[test]
fn run_task_failure_does_not_abort() {
    let node = ActionNode::RunTask {
        runtime: "node".to_string(),
        target: node_target(Some("app"), "build"),
    };
    let (result, commands) = drive(node, true, Err("exit code 1".to_string()));
    let action = result.unwrap();
    assert_eq!(action.status, ActionStatus::Failed);
    assert!(!action.aborted);
    assert_eq!(action.error, Some("exit code 1".to_string()));
    assert!(commands.contains(&Command::Run(Operation::RunTask {
        project: "app".to_string(),
        target: node_target(Some("app"), "build"),
        runtime: "node".to_string(),
    })));
}

#[test]
fn sync_project_missing_is_fatal() {
    let node = ActionNode::SyncProject { runtime: "node".to_string(), project: "missing".to_string() };
    let (result, commands) = drive(node, false, Ok(Completion::Passed));
    assert_eq!(result, Err(ProcessError::ProjectNotFound("missing".to_string())));
    assert!(commands.contains(&Command::LookupProject("missing".to_string())));
    assert!(!commands.iter().any(|c| matches!(c, Command::Run(_))));
}

#[test]
fn every_node_brackets_its_events() {
    for node in all_nodes() {
        for outcome in [Ok(Completion::Passed), Err("boom".to_string())] {
            let (result, commands) = drive(node.clone(), true, outcome);
            let action = result.unwrap();
            let events = emitted(&commands);
            let expected_len = if node == ActionNode::Noop { 2 } else { 4 };
            assert_eq!(events.len(), expected_len);
            assert!(matches!(events[0], Event::ActionStarted { .. }));
            assert!(matches!(events.last().unwrap(), Event::ActionFinished { .. }));
            assert_eq!(commands.last(), Some(&Command::Return));
            assert!(action.duration.is_some());
        }
    }
}

#[test]
fn failed_iff_error_for_every_node() {
    for node in all_nodes() {
        let (ok, _) = drive(node.clone(), true, Ok(Completion::Cached));
        let ok = ok.unwrap();
        assert_ne!(ok.status, ActionStatus::Failed);
        assert_eq!(ok.error, None);
        assert!(!ok.aborted);
        let (failed, _) = drive(node.clone(), true, Err("bad".to_string()));
        let failed = failed.unwrap();
        if node == ActionNode::Noop {
            assert_eq!(failed.status, ActionStatus::Skipped);
            assert_eq!(failed.error, None);
        } else {
            assert_eq!(failed.status, ActionStatus::Failed);
            assert_eq!(failed.error, Some("bad".to_string()));
            let escalating = matches!(node, ActionNode::SetupTool { .. } | ActionNode::InstallDeps { .. });
            assert_eq!(failed.aborted, escalating);
        }
    }
}

#[test]
fn noop_is_skipped_without_operation() {
    let (result, commands) = drive(ActionNode::Noop, true, Ok(Completion::Passed));
    let action = result.unwrap();
    assert_eq!(action.status, ActionStatus::Skipped);
    assert!(!commands.iter().any(|c| matches!(c, Command::Run(_) | Command::LookupProject(_))));
}

#[test]
fn cached_outcome_is_cached_status() {
    let (result, _) = drive(ActionNode::SyncWorkspace, true, Ok(Completion::Cached));
    let action = result.unwrap();
    assert_eq!(action.status, ActionStatus::Cached);
    assert!(action.status.is_succeeded());
}

#[test]
fn command_order_for_project_install() {
    let node = ActionNode::InstallProjectDeps { runtime: "node".to_string(), project: "app".to_string() };
    let (_, commands) = drive(node.clone(), true, Ok(Completion::Passed));
    assert_eq!(
        commands,
        vec![
            Command::Emit(Event::ActionStarted { label: "label".to_string(), node }),
            Command::ReportStarted,
            Command::LookupProject("app".to_string()),
            Command::Emit(Event::DependenciesInstalling {
                runtime: "node".to_string(),
                project: Some("app".to_string()),
            }),
            Command::Run(Operation::InstallDeps {
                runtime: "node".to_string(),
                project: Some("app".to_string()),
            }),
            Command::Emit(Event::DependenciesInstalled {
                runtime: "node".to_string(),
                project: Some("app".to_string()),
                error: None,
            }),
            Command::ReportCompleted(None),
            Command::Emit(Event::ActionFinished {
                label: "label".to_string(),
                status: ActionStatus::Passed,
                aborted: false,
                error: None,
            }),
            Command::Return,
        ]
    );
}

#[test]
fn duration_is_elapsed_time() {
    let (result, _) = drive(ActionNode::SyncWorkspace, true, Ok(Completion::Passed));
    let action = result.unwrap();
    // Started at 100; the reply that settles the record is the fifth, at 150.
    assert_eq!(action.started_at, Some(100));
    assert_eq!(action.finished_at, Some(150));
    assert_eq!(action.duration, Some(50));
}

#[test]
fn terminal_record_is_refused() {
    let (result, _) = drive(ActionNode::SyncWorkspace, true, Ok(Completion::Passed));
    let action = result.unwrap();
    assert!(matches!(Processor::begin(action, 500), Err(ProcessError::AlreadyProcessed)));
}

#[test]
fn running_record_is_refused() {
    let mut action = Action::new("x".to_string(), ActionNode::Noop);
    action.start(1);
    assert!(matches!(Processor::begin(action, 2), Err(ProcessError::AlreadyProcessed)));
}

#[test]
fn finished_processor_refuses_replies() {
    let mut p = Processor::begin(Action::new("x".to_string(), ActionNode::Noop), 0).unwrap();
    while !p.is_done() {
        p = p.advance(Reply::Delivered, 1).unwrap();
    }
    assert_eq!(p.events().len(), 2);
    assert!(matches!(p.advance(Reply::Delivered, 2), Err(ProcessError::Finished)));
}

#[test]
fn target_without_project_is_fatal() {
    let node = ActionNode::RunTask { runtime: "node".to_string(), target: node_target(None, "build") };
    let (result, _) = drive(node, true, Ok(Completion::Passed));
    assert_eq!(result, Err(ProcessError::TargetWithoutProject));
}

#[test]
fn refused_delivery_is_fatal() {
    let p = Processor::begin(Action::new("x".to_string(), ActionNode::SyncWorkspace), 0).unwrap();
    let r = p.advance(Reply::Refused("observer gone".to_string()), 1);
    assert!(matches!(r, Err(ProcessError::Delivery(m)) if m == "observer gone"));
}

#[test]
fn mismatched_reply_is_refused() {
    let p = Processor::begin(Action::new("x".to_string(), ActionNode::SyncWorkspace), 0).unwrap();
    let r = p.advance(Reply::ProjectFound, 1);
    assert!(matches!(r, Err(ProcessError::UnexpectedReply)));
}

#[test]
fn unfinished_processor_keeps_its_record() {
    let p = Processor::begin(Action::new("x".to_string(), ActionNode::SyncWorkspace), 0).unwrap();
    assert_eq!(p.action().status, ActionStatus::Running);
    assert!(p.into_action().is_none());
}

#[test]
fn only_noop_ends_skipped() {
    for node in all_nodes() {
        for outcome in [Ok(Completion::Passed), Ok(Completion::Cached), Err("e".to_string())] {
            let (result, _) = drive(node.clone(), true, outcome);
            let status = result.unwrap().status;
            assert_eq!(status == ActionStatus::Skipped, node == ActionNode::Noop);
        }
    }
}

#[test]
fn completion_is_reported_before_error_is_attached() {
    let node = ActionNode::SetupTool { runtime: "node".to_string() };
    let mut p = Processor::begin(Action::new("x".to_string(), node), 0).unwrap();
    let mut now: u64 = 0;
    loop {
        now += 1;
        let reply = match p.command() {
            Command::Run(_) => Reply::Outcome(Err("broken".to_string())),
            Command::ReportCompleted(error) => {
                assert_eq!(error, Some("broken".to_string()));
                assert_eq!(p.action().status, ActionStatus::Failed);
                assert_eq!(p.action().error, None);
                assert!(!p.action().aborted);
                Reply::Delivered
            }
            Command::Return => break,
            _ => Reply::Delivered,
        };
        p = p.advance(reply, now).unwrap();
    }
    let action = p.into_action().unwrap();
    assert_eq!(action.error, Some("broken".to_string()));
    assert!(action.aborted);
}
