//! Execution core of a monorepo task orchestrator: the lifecycle of one
//! scheduled action, the events that observers see for it, and the canonical
//! fingerprint input for code-owner configuration.

pub mod action;
pub mod codeowners_hash;
pub mod event;
pub mod processor;

pub use action::{Action, ActionNode, ActionStatus, Completion, Target};
pub use codeowners_hash::CodeownersHash;
pub use event::{Event, Operation};
pub use processor::{Command, Phase, ProcessError, Processor, Reply};
