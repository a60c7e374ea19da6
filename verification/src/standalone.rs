//! Single-node commit adapter with the durability contract of consensus.
use crate::broker::{AppliedCommand, BrokerStateMachine};
use crate::commands::BrokerCommand;
use crate::consensus::ConsensusAdapter;
use crate::domain::{Revision, Term};
use crate::error::{
    ambiguous_error, stable_code, BrokerError, BrokerErrorCode, BrokerErrorView, StateMachineError,
};
use crate::results::{BrokerMutationResult, ConsumerGroupDirectory};
use vstd::prelude::*;

verus! {

/// Why a repository failed.
#[derive(Debug, Clone, PartialEq, Eq)]
pub struct RepositoryError {
    pub message: String,
}

/// Durable store of Broker states.
pub trait BrokerStateRepository<B: BrokerStateMachine>: Sized {
    /// The recovered durable state.
    fn load(&mut self) -> Result<B::Checkpoint, RepositoryError>;

    /// Make the changes of one command durable.
    fn commit(&mut self, state: &B, changes: &B::Changes) -> Result<(), RepositoryError>;
}

/// The error of an adapter that has stopped after a durability failure.
pub open spec fn fail_stopped_error() -> BrokerErrorView {
    ambiguous_error(
        BrokerErrorCode::PersistenceError,
        "Standalone Broker is fail-stopped after a durability failure."@,
    )
}

/// The error for a repository failure.
pub open spec fn repository_error(error: RepositoryError) -> BrokerErrorView {
    ambiguous_error(BrokerErrorCode::PersistenceError, error.message@)
}

/// The error for a durable state that no state machine can be built from.
pub open spec fn invalid_checkpoint_error(error: StateMachineError) -> BrokerErrorView {
    ambiguous_error(
        BrokerErrorCode::PersistenceError,
        "durable Broker checkpoint is invalid: "@ + error.message@,
    )
}

fn persistence_error(error: &RepositoryError) -> (r: BrokerError)
    ensures
        r@ == repository_error(*error),
{
    BrokerError::new(BrokerErrorCode::PersistenceError, error.message.as_str())
}

/// Single-node commit adapter.
pub struct StandaloneConsensusAdapter<B: BrokerStateMachine, R: BrokerStateRepository<B>> {
    repository: R,
    machine: B,
    poisoned: bool,
}

impl<B: BrokerStateMachine, R: BrokerStateRepository<B>> StandaloneConsensusAdapter<B, R> {
    pub closed spec fn spec_poisoned(&self) -> bool {
        self.poisoned
    }

    pub closed spec fn spec_machine(&self) -> B {
        self.machine
    }

    pub closed spec fn spec_repository(&self) -> R {
        self.repository
    }

    /// Load the durable state and take its single ownership.
    pub fn new(repository: R) -> (r: Result<Self, BrokerError>)
        ensures
            exists|repo: &mut R, loaded: Result<B::Checkpoint, RepositoryError>|
                {
                    &&& *repo == repository
                    &&& #[trigger] call_ensures(R::load, (repo,), loaded)
                    &&& match loaded {
                        Err(error) => r matches Err(refusal) && refusal@ == repository_error(error),
                        Ok(checkpoint) => exists|built: Result<B, StateMachineError>| #[trigger]
                            call_ensures(B::from_checkpoint, (checkpoint,), built)
                                && match built {
                                Err(error) => r matches Err(refusal) && refusal@
                                    == invalid_checkpoint_error(error),
                                Ok(machine) => r matches Ok(adapter) && !adapter.spec_poisoned()
                                    && adapter.spec_machine() == machine
                                    && adapter.spec_repository() == *final(repo),
                            },
                    }
                },
    {
        let mut repository = repository;
        let checkpoint = match repository.load() {
            Ok(checkpoint) => checkpoint,
            Err(error) => return Err(persistence_error(&error)),
        };
        match B::from_checkpoint(checkpoint) {
            Ok(machine) => Ok(StandaloneConsensusAdapter { repository, machine, poisoned: false }),
            Err(error) => {
                let message = "durable Broker checkpoint is invalid: ".to_owned().concat(
                    error.message.as_str(),
                );
                Err(BrokerError::new(BrokerErrorCode::PersistenceError, message.as_str()))
            },
        }
    }

    /// Whether a durability failure has stopped this adapter for good.
    pub fn is_poisoned(&self) -> (r: bool)
        ensures
            r == self.spec_poisoned(),
    {
        self.poisoned
    }

    /// The current state machine, for diagnostics.
    pub fn state_machine(&self) -> (r: &B)
        ensures
            *r == self.spec_machine(),
    {
        &self.machine
    }
}

/// The outcome of a proposal to a running adapter, once the command was applied: the answer and
/// whether the adapter stops.
pub open spec fn is_settled<D>(
    applied: Result<AppliedCommand<D>, StateMachineError>,
    committed: Option<Result<(), RepositoryError>>,
    answer: Result<BrokerMutationResult, BrokerError>,
    poisoned: bool,
) -> bool {
    match (applied, committed) {
        (Err(error), _) => !poisoned && (answer matches Err(refusal) && refusal@
            == ambiguous_error(stable_code(error.kind), error.message@)),
        (Ok(_), Some(Err(error))) => poisoned && (answer matches Err(refusal) && refusal@
            == repository_error(error)),
        (Ok(value), _) => !poisoned && answer == Ok::<BrokerMutationResult, BrokerError>(
            value.result,
        ),
    }
}

impl<B: BrokerStateMachine, R: BrokerStateRepository<B>> ConsensusAdapter
    for StandaloneConsensusAdapter<B, R> {
    fn term(&self) -> (r: Term)
        ensures
            call_ensures(B::term, (&self.spec_machine(),), r),
    {
        self.machine.term()
    }

    fn revision(&self) -> (r: Revision)
        ensures
            call_ensures(B::revision, (&self.spec_machine(),), r),
    {
        self.machine.revision()
    }

    fn group_directory(&mut self) -> (r: Result<ConsumerGroupDirectory, BrokerError>)
        ensures
            *final(self) == *old(self),
            match r {
                Ok(directory) => !old(self).spec_poisoned() && call_ensures(
                    B::group_directory,
                    (&old(self).spec_machine(),),
                    directory,
                ),
                Err(error) => old(self).spec_poisoned() && error@ == fail_stopped_error(),
            },
    {
        if self.poisoned {
            return Err(
                BrokerError::new(
                    BrokerErrorCode::PersistenceError,
                    "Standalone Broker is fail-stopped after a durability failure.",
                ),
            );
        }
        Ok(self.machine.group_directory())
    }

    fn propose(&mut self, command: BrokerCommand) -> (r: Result<BrokerMutationResult, BrokerError>)
        ensures
            old(self).spec_poisoned() ==> *final(self) == *old(self) && (r matches Err(error)
                && error@ == fail_stopped_error()),
            !old(self).spec_poisoned() ==> exists|
                machine: &mut B,
                applied: Result<AppliedCommand<B::Changes>, StateMachineError>,
                committed: Option<Result<(), RepositoryError>>,
            |
                {
                    &&& *machine == old(self).spec_machine()
                    &&& *final(machine) == final(self).spec_machine()
                    &&& #[trigger] call_ensures(B::apply, (machine, command), applied)
                    &&& #[trigger] is_settled(applied, committed, r, final(self).spec_poisoned())
                    &&& match committed {
                        None => final(self).spec_repository() == old(self).spec_repository() && (
                        applied is Ok ==> exists|before: Revision, after: Revision|
                            before@ == after@ && #[trigger] call_ensures(
                                B::revision,
                                (&old(self).spec_machine(),),
                                before,
                            ) && #[trigger] call_ensures(
                                B::revision,
                                (&final(self).spec_machine(),),
                                after,
                            )),
                        Some(outcome) => (applied matches Ok(value) && exists|repository: &mut R|
                            *repository == old(self).spec_repository() && *final(repository)
                                == final(self).spec_repository() && #[trigger] call_ensures(
                                R::commit,
                                (repository, &final(self).spec_machine(), &value.changes),
                                outcome,
                            )) && exists|before: Revision, after: Revision|
                            before@ != after@ && #[trigger] call_ensures(
                                B::revision,
                                (&old(self).spec_machine(),),
                                before,
                            ) && #[trigger] call_ensures(
                                B::revision,
                                (&final(self).spec_machine(),),
                                after,
                            ),
                    }
                },
    {
        if self.poisoned {
            return Err(
                BrokerError::new(
                    BrokerErrorCode::PersistenceError,
                    "Standalone Broker is fail-stopped after a durability failure.",
                ),
            );
        }
        let before = self.machine.revision();
        let applied = self.machine.apply(command);
        let ghost answered = applied;
        let value = match applied {
            Ok(value) => value,
            Err(error) => {
                let refusal = BrokerError::from_state_machine(error);
                let ghost skipped: Option<Result<(), RepositoryError>> = None;
                assert(is_settled(
                    answered,
                    skipped,
                    Err::<BrokerMutationResult, BrokerError>(refusal),
                    self.spec_poisoned(),
                ));
                return Err(refusal);
            },
        };
        let after = self.machine.revision();
        if after.get() == before.get() {
            let ghost skipped: Option<Result<(), RepositoryError>> = None;
            assert(is_settled(
                answered,
                skipped,
                Ok::<BrokerMutationResult, BrokerError>(value.result),
                self.spec_poisoned(),
            ));
            return Ok(value.result);
        }
        let outcome = self.repository.commit(&self.machine, &value.changes);
        let ghost committed = Some(outcome);
        match outcome {
            Ok(_) => {
                let answer: Result<BrokerMutationResult, BrokerError> = Ok(value.result);
                assert(is_settled(answered, committed, answer, self.spec_poisoned()));
                assert(exists|repository: &mut R|
                    *repository == old(self).spec_repository() && *final(repository)
                        == self.spec_repository() && #[trigger] call_ensures(
                        R::commit,
                        (repository, &self.spec_machine(), &value.changes),
                        outcome,
                    ));
                assert(exists|
                    machine: &mut B,
                |
                    {
                        &&& *machine == old(self).spec_machine()
                        &&& *final(machine) == self.spec_machine()
                        &&& #[trigger] call_ensures(B::apply, (machine, command), answered)
                    });
                answer
            },
            Err(error) => {
                self.poisoned = true;
                let refusal = persistence_error(&error);
                assert(is_settled(
                    answered,
                    committed,
                    Err::<BrokerMutationResult, BrokerError>(refusal),
                    self.spec_poisoned(),
                ));
                Err(refusal)
            },
        }
    }
}

} // verus!
