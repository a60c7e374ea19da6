//! Versioned application-data envelope of one replicated proposal.
use crate::command_identity::{
    CommandIdentity, CommandIdentityError, CommandSequence, CommandSessionId, IdentityView,
    SessionOwnerEpoch, SessionOwnerInstanceId,
};
use crate::commands::BrokerCommand;
use crate::replicated_command::{
    decode_finding, encodes, first_of, ReplicatedBrokerCommandV1, ReplicatedCommandError,
};
use crate::replicated_response::optional_text;
use vstd::prelude::*;

verus! {

/// Durable form of a command identity. It is not validated until it is turned back.
#[derive(Debug, PartialEq, Eq)]
pub struct ReplicatedCommandIdentityV1 {
    pub session_id: String,
    pub owner_epoch: u64,
    pub owner_instance_id: Option<String>,
    pub sequence: u64,
}

/// The plain values of a durable identity.
pub open spec fn durable_identity(identity: ReplicatedCommandIdentityV1) -> IdentityView {
    IdentityView {
        session_id: identity.session_id@,
        owner_epoch: identity.owner_epoch,
        owner_instance_id: optional_text(identity.owner_instance_id),
        sequence: identity.sequence,
    }
}

/// The text of an invalid durable identity.
pub open spec fn identity_text(error: Seq<char>) -> Seq<char> {
    "invalid replicated command identity: "@ + error
}

/// Why plain values are no command identity, or `None` if they are one.
pub open spec fn identity_finding(identity: IdentityView) -> Option<Seq<char>> {
    first_of(
        match CommandSessionId::flaw(identity.session_id) {
            Some(reason) => Some(identity_text("invalid command_session_id: "@ + reason)),
            None => None,
        },
        first_of(
            if identity.owner_epoch == 0 {
                Some(identity_text(CommandIdentityError::ZeroOwnerEpoch.text()))
            } else {
                None
            },
            first_of(
                match identity.owner_instance_id {
                    Some(text) => match SessionOwnerInstanceId::flaw(text) {
                        Some(reason) => Some(
                            identity_text(
                                "invalid command_session_owner_instance_id: "@ + reason,
                            ),
                        ),
                        None => None,
                    },
                    None => None,
                },
                if identity.sequence == 0 {
                    Some(identity_text(CommandIdentityError::ZeroSequence.text()))
                } else {
                    None
                },
            ),
        ),
    )
}

/// The owner epoch of an identity that was stored without one.
pub fn initial_owner_epoch() -> (r: u64)
    ensures
        r == 1,
{
    1
}

fn identity_error(error: CommandIdentityError) -> (r: ReplicatedCommandError)
    ensures
        r@ == identity_text(error.text()),
{
    let message = "invalid replicated command identity: ".to_owned().concat(
        error.message().as_str(),
    );
    ReplicatedCommandError::new(message.as_str())
}

impl ReplicatedCommandIdentityV1 {
    /// The durable form of a command identity.
    pub fn from_identity(identity: &CommandIdentity) -> (r: Self)
        ensures
            durable_identity(r) == identity@,
            identity_finding(durable_identity(r)) is None,
    {
        proof {
            use_type_invariant(identity);
        }
        ReplicatedCommandIdentityV1 {
            session_id: identity.session_id().as_str().to_owned(),
            owner_epoch: identity.owner_epoch().get(),
            owner_instance_id: match identity.owner_instance_id() {
                Some(instance) => Some(instance.as_str().to_owned()),
                None => None,
            },
            sequence: identity.sequence().get(),
        }
    }

    /// The validated command identity of a durable form.
    pub fn to_identity(&self) -> (r: Result<CommandIdentity, ReplicatedCommandError>)
        ensures
            match r {
                Ok(identity) => identity@ == durable_identity(*self) && identity_finding(
                    durable_identity(*self),
                ) is None,
                Err(error) => identity_finding(durable_identity(*self)) == Some(error@),
            },
    {
        let session_id = match CommandSessionId::new(self.session_id.as_str()) {
            Ok(session_id) => session_id,
            Err(error) => return Err(identity_error(error)),
        };
        let owner_epoch = match SessionOwnerEpoch::new(self.owner_epoch) {
            Ok(owner_epoch) => owner_epoch,
            Err(error) => return Err(identity_error(error)),
        };
        match &self.owner_instance_id {
            Some(text) => {
                let instance = match SessionOwnerInstanceId::new(text.as_str()) {
                    Ok(instance) => instance,
                    Err(error) => return Err(identity_error(error)),
                };
                match CommandSequence::new(self.sequence) {
                    Ok(sequence) => Ok(
                        CommandIdentity::new_with_owner(
                            session_id,
                            owner_epoch,
                            instance,
                            sequence,
                        ),
                    ),
                    Err(error) => Err(identity_error(error)),
                }
            },
            None => match CommandSequence::new(self.sequence) {
                Ok(sequence) => Ok(
                    CommandIdentity::new_with_owner_epoch(session_id, owner_epoch, sequence),
                ),
                Err(error) => Err(identity_error(error)),
            },
        }
    }

    pub fn session_id(&self) -> (r: &str)
        ensures
            r@ == self.session_id@,
    {
        self.session_id.as_str()
    }

    pub fn owner_epoch(&self) -> (r: u64)
        ensures
            r == self.owner_epoch,
    {
        self.owner_epoch
    }

    pub fn owner_instance_id(&self) -> (r: Option<&str>)
        ensures
            match r {
                Some(text) => optional_text(self.owner_instance_id) == Some(text@),
                None => self.owner_instance_id is None,
            },
    {
        match &self.owner_instance_id {
            Some(text) => Some(text.as_str()),
            None => None,
        }
    }

    pub fn sequence(&self) -> (r: u64)
        ensures
            r == self.sequence,
    {
        self.sequence
    }
}

/// Versioned envelope of one proposal. A legacy proposal carries no identity.
#[derive(Debug, PartialEq, Eq)]
pub struct ReplicatedBrokerProposalV1 {
    pub identity: Option<ReplicatedCommandIdentityV1>,
    pub command: ReplicatedBrokerCommandV1,
}

impl ReplicatedBrokerProposalV1 {
    /// A proposal without an identity.
    pub fn legacy(command: ReplicatedBrokerCommandV1) -> (r: Self)
        ensures
            r.identity is None,
            r.command == command,
    {
        ReplicatedBrokerProposalV1 { identity: None, command }
    }

    /// A proposal that carries the identity of a retry-safe mutation.
    pub fn identified(identity: &CommandIdentity, command: ReplicatedBrokerCommandV1) -> (r: Self)
        ensures
            r.command == command,
            r.identity matches Some(wire) && durable_identity(wire) == identity@
                && identity_finding(durable_identity(wire)) is None,
    {
        ReplicatedBrokerProposalV1 {
            identity: Some(ReplicatedCommandIdentityV1::from_identity(identity)),
            command,
        }
    }

    /// The legacy proposal of a domain command.
    pub fn from_command(command: &BrokerCommand) -> (r: Self)
        ensures
            r.identity is None,
            encodes(*command, r.command@),
            decode_finding(r.command@) is None,
    {
        Self::legacy(ReplicatedBrokerCommandV1::from_command(command))
    }

    pub fn identity(&self) -> (r: Option<&ReplicatedCommandIdentityV1>)
        ensures
            match r {
                Some(identity) => self.identity == Some(*identity),
                None => self.identity is None,
            },
    {
        self.identity.as_ref()
    }

    pub fn command(&self) -> (r: &ReplicatedBrokerCommandV1)
        ensures
            *r == self.command,
    {
        &self.command
    }

    /// The validated identity, if there is one, and the durable command.
    pub fn into_parts(self) -> (r: Result<
        (Option<CommandIdentity>, ReplicatedBrokerCommandV1),
        ReplicatedCommandError,
    >)
        ensures
            match r {
                Ok((identity, command)) => {
                    &&& command == self.command
                    &&& match (identity, self.identity) {
                        (Some(identity), Some(wire)) => identity@ == durable_identity(wire)
                            && identity_finding(durable_identity(wire)) is None,
                        (None, None) => true,
                        _ => false,
                    }
                },
                Err(error) => self.identity matches Some(wire) && identity_finding(
                    durable_identity(wire),
                ) == Some(error@),
            },
    {
        match &self.identity {
            Some(wire) => match wire.to_identity() {
                Ok(identity) => Ok((Some(identity), self.command)),
                Err(error) => Err(error),
            },
            None => Ok((None, self.command)),
        }
    }
}

/// Plain values have no finding exactly when they are those of a command identity.
pub proof fn law_identity_is_valid_iff_without_finding(identity: IdentityView)
    ensures
        identity_finding(identity) is None <==> identity.wf(),
{
}

} // verus!
