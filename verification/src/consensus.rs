//! Boundary between the application use cases and consensus.
use crate::command_identity::{
    CommandIdentity, CommandSessionId, SessionOwnerEpoch, SessionOwnerInstanceId,
};
use crate::commands::BrokerCommand;
use crate::domain::{Revision, Term};
use crate::error::{ambiguous_error, BrokerError, BrokerErrorCode};
use crate::results::{BrokerMutationResult, ConsumerGroupDirectory};
use vstd::prelude::*;

verus! {

/// Provider-neutral proposal boundary between application use cases and consensus or storage.
///
/// Every implementation offers the same committed command semantics through it.
pub trait ConsensusAdapter: Sized {
    /// The current authoritative Broker term.
    fn term(&self) -> Term;

    /// The current committed Broker revision.
    fn revision(&self) -> Revision;

    /// A side-effect-free directory of the current Consumer Groups.
    ///
    /// A replicated implementation establishes read authority first and never passes off a
    /// follower's stale projection as authoritative.
    fn group_directory(&mut self) -> (r: Result<ConsumerGroupDirectory, BrokerError>)
        default_ensures
            *final(self) == *old(self),
            r matches Err(error) && error@ == ambiguous_error(
                BrokerErrorCode::InternalError,
                "Consumer Group directory reads are unavailable for this consensus adapter"@,
            ),
    {
        Err(
            BrokerError::new(
                BrokerErrorCode::InternalError,
                "Consumer Group directory reads are unavailable for this consensus adapter",
            ),
        )
    }

    /// Whether this adapter currently owns the authority to start maintenance mutations.
    ///
    /// Standalone and one-node adapters always do. A replicated adapter derives the answer from
    /// the consensus leader state.
    fn maintenance_authority(&mut self) -> (r: Result<bool, BrokerError>)
        default_ensures
            *final(self) == *old(self),
            r == Ok::<bool, BrokerError>(true),
    {
        Ok(true)
    }

    /// Propose one deterministic Broker command; the answer comes only once the command is
    /// authoritative under the adapter's own durability contract.
    fn propose(&mut self, command: BrokerCommand) -> Result<BrokerMutationResult, BrokerError>;

    /// Propose a mutation with a stable identity that permits a safe replay after an ambiguous
    /// response.
    ///
    /// An implementation that cannot preserve committed responses durably refuses.
    fn propose_identified(
        &mut self,
        identity: CommandIdentity,
        command: BrokerCommand,
    ) -> (r: Result<BrokerMutationResult, BrokerError>)
        default_ensures
            *final(self) == *old(self),
            r matches Err(error) && error@ == ambiguous_error(
                BrokerErrorCode::InvalidRequest,
                "identified consensus proposals are not supported by this adapter"@,
            ),
    {
        Err(
            BrokerError::new(
                BrokerErrorCode::InvalidRequest,
                "identified consensus proposals are not supported by this adapter",
            ),
        )
    }

    /// Acquire the broker-authoritative owner incarnation of one command session.
    ///
    /// A missing session can be created only at owner epoch 1. For an existing session the expected
    /// epoch must be the committed one; the transition is durably committed by consensus. A retry
    /// with the same instance after response loss returns the already committed epoch.
    fn acquire_command_session_owner(
        &mut self,
        session_id: CommandSessionId,
        expected_owner_epoch: SessionOwnerEpoch,
        owner_instance_id: SessionOwnerInstanceId,
    ) -> (r: Result<SessionOwnerEpoch, BrokerError>)
        default_ensures
            *final(self) == *old(self),
            r matches Err(error) && error@ == ambiguous_error(
                BrokerErrorCode::InvalidRequest,
                "command-session owner acquisition is not supported by this adapter"@,
            ),
    {
        Err(
            BrokerError::new(
                BrokerErrorCode::InvalidRequest,
                "command-session owner acquisition is not supported by this adapter",
            ),
        )
    }
}

} // verus!
