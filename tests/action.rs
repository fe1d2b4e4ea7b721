use action_pipeline::{Action, ActionNode, ActionStatus, Completion, Target};

#[test]
fn new_record_is_not_started() {
    let a = Action::new("a".to_string(), ActionNode::SyncWorkspace);
    assert_eq!(a.status, ActionStatus::NotStarted);
    assert_eq!(a.started_at, None);
    assert_eq!(a.duration, None);
    assert!(!a.aborted);
    assert!(!a.has_failed());
}

#[test]
fn finish_before_start_counts_no_time() {
    let mut a = Action::new("a".to_string(), ActionNode::Noop);
    a.start(50);
    a.finish(ActionStatus::Failed, 40);
    assert_eq!(a.duration, Some(0));
    assert!(a.has_failed());
}

#[test]
fn escalating_nodes() {
    assert!(ActionNode::SetupTool { runtime: "node".to_string() }.is_escalating());
    assert!(ActionNode::InstallDeps { runtime: "node".to_string() }.is_escalating());
    assert!(!ActionNode::SyncWorkspace.is_escalating());
    assert!(!ActionNode::Noop.is_escalating());
    assert!(!ActionNode::InstallProjectDeps { runtime: "node".to_string(), project: "p".to_string() }
        .is_escalating());
}

#[test]
fn completion_statuses() {
    assert_eq!(ActionStatus::from_completion(Completion::Passed), ActionStatus::Passed);
    assert_eq!(ActionStatus::from_completion(Completion::Cached), ActionStatus::Cached);
    assert!(ActionStatus::Skipped.is_terminal());
    assert!(!ActionStatus::Running.is_terminal());
    assert!(!ActionStatus::Skipped.is_succeeded());
}

#[test]
fn target_project_id() {
    let t = Target::new(Some("app".to_string()), "build".to_string());
    assert_eq!(t.project_id(), Some("app".to_string()));
    assert_eq!(t.duplicate(), t);
    assert_eq!(Target::new(None, "lint".to_string()).project_id(), None);
}

#[test]
fn fresh_record() {
    let mut a = Action::new("a".to_string(), ActionNode::Noop);
    assert!(a.is_fresh());
    a.start(1);
    assert!(!a.is_fresh());
}
