//! The deterministic Broker state machine that consensus drives.
use crate::commands::BrokerCommand;
use crate::domain::{Revision, Term};
use crate::error::StateMachineError;
use crate::results::{BrokerMutationResult, ConsumerGroupDirectory};
use vstd::prelude::*;

verus! {

/// What one applied command answered and changed.
pub struct AppliedCommand<D> {
    pub result: BrokerMutationResult,
    pub changes: D,
}

/// The deterministic Broker state machine that committed commands are applied to.
pub trait BrokerStateMachine: Sized {
    /// A durable state.
    type Checkpoint;

    /// What one command changed.
    type Changes;

    /// Rebuild the state machine of a durable state.
    fn from_checkpoint(checkpoint: Self::Checkpoint) -> Result<Self, StateMachineError>;

    /// Apply one command.
    fn apply(&mut self, command: BrokerCommand) -> Result<
        AppliedCommand<Self::Changes>,
        StateMachineError,
    >;

    /// The current term.
    fn term(&self) -> Term;

    /// The current revision.
    fn revision(&self) -> Revision;

    /// The current Consumer Groups.
    fn group_directory(&self) -> ConsumerGroupDirectory;
}

} // verus!
