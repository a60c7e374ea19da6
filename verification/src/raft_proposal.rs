//! The steps of one proposal: leadership, term, submission and answer.
//!
//! Each step takes what the engine reported and yields the next step or an error. A command can be
//! submitted only by a value that went through the steps before.
use crate::command_identity::{
    CommandIdentity, CommandIdentityError, CommandSessionId, SessionOwnerEpoch,
    SessionOwnerInstanceId,
};
use crate::commands::BrokerCommand;
use crate::debug_form::{result_form, result_text};
use crate::error::{ambiguous_error, BrokerError, BrokerErrorCode, BrokerErrorView};
use crate::raft_errors::{
    engine_failure, engine_stopped, internal_error, internal_fault, not_leader, not_leader_error,
    raft_engine_error, raft_fatal_error, RaftMode,
};
use crate::replicated_command::{decode_finding, encodes, ReplicatedBrokerCommandV1, WireCommand};
use crate::replicated_proposal::{durable_identity, ReplicatedBrokerProposalV1};
use crate::replicated_response::{
    application_error, is_application_result, response_finding, ReplicatedBrokerResponseV1,
};
use crate::results::BrokerMutationResult;
use crate::term_sync::{
    advance_failure, answer_text, conclude_term_sync, plan_term_sync, term_plan, term_text,
    TermPlan,
};
use crate::text::{decimal, push_decimal};
use vstd::prelude::*;

verus! {

/// A plain command.
pub struct PlainJob {
    pub mode: RaftMode,
    pub command: BrokerCommand,
}

/// A command with its identity.
pub struct IdentifiedJob {
    pub identity: CommandIdentity,
    pub command: BrokerCommand,
}

/// An acquisition of a command session.
pub struct OwnerJob {
    pub session_id: CommandSessionId,
    pub expected_owner_epoch: SessionOwnerEpoch,
    pub owner_instance_id: SessionOwnerInstanceId,
}

/// A proposal before the leadership of this member was checked.
pub struct PendingProposal<J> {
    node_id: u64,
    job: J,
}

/// A proposal of the leader, before the Broker term was brought in line.
pub struct LeaderProposal<J> {
    mode: RaftMode,
    job: J,
}

/// A proposal that waits for the answer to a term advance.
pub struct AdvancingProposal<J> {
    mode: RaftMode,
    job: J,
}

/// A proposal that may be submitted.
pub struct ReadyProposal<J> {
    job: J,
}

/// What follows the comparison of terms.
pub enum TermStep<J> {
    Ready(ReadyProposal<J>),
    Advance(AdvancingProposal<J>, ReplicatedBrokerProposalV1),
}

impl<J> PendingProposal<J> {
    pub closed spec fn spec_node_id(&self) -> u64 {
        self.node_id
    }

    pub closed spec fn spec_job(&self) -> J {
        self.job
    }

    /// Begin a proposal on member `node_id`.
    pub fn new(node_id: u64, job: J) -> (r: Self)
        ensures
            r.spec_node_id() == node_id,
            r.spec_job() == job,
    {
        PendingProposal { node_id, job }
    }

    /// Go on if this member is the leader.
    pub fn leader_observed(self, leader: Option<u64>) -> (r: Result<LeaderProposal<J>, BrokerError>)
        ensures
            match r {
                Ok(next) => leader == Some(self.spec_node_id()) && next.spec_job()
                    == self.spec_job() && next.spec_mode() == RaftMode::Cluster,
                Err(error) => leader != Some(self.spec_node_id()) && error@ == not_leader(
                    self.spec_node_id(),
                    leader,
                ),
            },
    {
        let is_leader = match leader {
            Some(leader) => leader == self.node_id,
            None => false,
        };
        if is_leader {
            Ok(LeaderProposal { mode: RaftMode::Cluster, job: self.job })
        } else {
            Err(not_leader_error(self.node_id, leader))
        }
    }
}

impl<J> LeaderProposal<J> {
    pub closed spec fn spec_mode(&self) -> RaftMode {
        self.mode
    }

    pub closed spec fn spec_job(&self) -> J {
        self.job
    }

    /// Begin a proposal on the only member of a one-node group.
    pub fn one_node(job: J) -> (r: Self)
        ensures
            r.spec_mode() == RaftMode::OneNode,
            r.spec_job() == job,
    {
        LeaderProposal { mode: RaftMode::OneNode, job }
    }

    /// Compare the Raft term with the committed Broker term.
    pub fn terms_observed(self, raft_term: Result<u64, String>, broker_term: u64) -> (r: Result<
        TermStep<J>,
        BrokerError,
    >)
        ensures
            match (r, term_plan(self.spec_mode(), term_text(raft_term), broker_term)) {
                (Ok(TermStep::Ready(next)), Ok(None)) => next.spec_job() == self.spec_job(),
                (Ok(TermStep::Advance(next, proposal)), Ok(Some((expected_term, new_term)))) => {
                    &&& next.spec_job() == self.spec_job()
                    &&& next.spec_mode() == self.spec_mode()
                    &&& proposal.identity is None
                    &&& proposal.command@ == (WireCommand::AdvanceTerm { expected_term, new_term })
                },
                (Err(error), Err(failure)) => error@ == failure,
                _ => false,
            },
    {
        match plan_term_sync(self.mode, raft_term, broker_term) {
            Ok(TermPlan::Synced) => Ok(TermStep::Ready(ReadyProposal { job: self.job })),
            Ok(TermPlan::Advance(proposal)) => Ok(
                TermStep::Advance(AdvancingProposal { mode: self.mode, job: self.job }, proposal),
            ),
            Err(error) => Err(error),
        }
    }
}

impl<J> AdvancingProposal<J> {
    pub closed spec fn spec_mode(&self) -> RaftMode {
        self.mode
    }

    pub closed spec fn spec_job(&self) -> J {
        self.job
    }

    /// Go on if the Broker term was advanced.
    pub fn advance_answered(self, answer: Result<ReplicatedBrokerResponseV1, String>) -> (r: Result<
        ReadyProposal<J>,
        BrokerError,
    >)
        ensures
            match r {
                Ok(next) => advance_failure(self.spec_mode(), answer_text(answer)) is None
                    && next.spec_job() == self.spec_job(),
                Err(error) => advance_failure(
                    self.spec_mode(),
                    answer_text(answer),
                ) == Some(error@),
            },
    {
        match conclude_term_sync(self.mode, answer) {
            Ok(_) => Ok(ReadyProposal { job: self.job }),
            Err(error) => Err(error),
        }
    }
}

/// A plain command that was submitted.
pub struct PlainSubmission {
    mode: RaftMode,
}

/// An identified command that was submitted.
pub struct IdentifiedSubmission {
    session_id: String,
    sequence: u64,
}

/// An acquisition that was submitted.
pub struct OwnerSubmission {}

impl<J> ReadyProposal<J> {
    pub closed spec fn spec_job(&self) -> J {
        self.job
    }
}

impl ReadyProposal<PlainJob> {
    /// The proposal to write.
    pub fn submit(self) -> (r: (ReplicatedBrokerProposalV1, PlainSubmission))
        ensures
            r.0.identity is None,
            encodes(self.spec_job().command, r.0.command@),
            decode_finding(r.0.command@) is None,
            r.1.spec_mode() == self.spec_job().mode,
    {
        let proposal = ReplicatedBrokerProposalV1::from_command(&self.job.command);
        (proposal, PlainSubmission { mode: self.job.mode })
    }
}

impl ReadyProposal<IdentifiedJob> {
    /// The proposal to write, with its identity.
    pub fn submit(self) -> (r: (ReplicatedBrokerProposalV1, IdentifiedSubmission))
        ensures
            r.0.identity matches Some(identity) && durable_identity(identity)
                == self.spec_job().identity@,
            encodes(self.spec_job().command, r.0.command@),
            decode_finding(r.0.command@) is None,
            r.1.spec_session() == self.spec_job().identity@.session_id,
            r.1.spec_sequence() == self.spec_job().identity@.sequence,
    {
        let command = ReplicatedBrokerCommandV1::from_command(&self.job.command);
        let proposal = ReplicatedBrokerProposalV1::identified(&self.job.identity, command);
        let submission = IdentifiedSubmission {
            session_id: self.job.identity.session_id().as_str().to_owned(),
            sequence: self.job.identity.sequence().get(),
        };
        (proposal, submission)
    }
}

impl ReadyProposal<OwnerJob> {
    /// The proposal to write.
    pub fn submit(self) -> (r: (ReplicatedBrokerProposalV1, OwnerSubmission))
        ensures
            r.0.identity is None,
            r.0.command@ == (WireCommand::AcquireCommandSessionOwner {
                session_id: self.spec_job().session_id@,
                expected_owner_epoch: self.spec_job().expected_owner_epoch@,
                owner_instance_id: self.spec_job().owner_instance_id@,
            }),
    {
        let command = ReplicatedBrokerCommandV1::AcquireCommandSessionOwner {
            session_id: self.job.session_id.as_str().to_owned(),
            expected_owner_epoch: self.job.expected_owner_epoch.get(),
            owner_instance_id: self.job.owner_instance_id.as_str().to_owned(),
        };
        (ReplicatedBrokerProposalV1::legacy(command), OwnerSubmission {  })
    }
}

/// The text before the reason why a committed response is no application result.
pub open spec fn undecodable_text(mode: RaftMode) -> Seq<char> {
    match mode {
        RaftMode::Cluster => "failed to decode committed cluster Raft response: "@,
        RaftMode::OneNode => "failed to decode committed Raft application response: "@,
    }
}

/// Whether `r` is what a committed response says, or the fault `what` if it says nothing.
pub open spec fn is_told(
    response: ReplicatedBrokerResponseV1,
    what: Seq<char>,
    r: Result<BrokerMutationResult, BrokerError>,
) -> bool {
    match response_finding(response) {
        Some(finding) => r matches Err(error) && error@ == internal_fault(what, finding),
        None => is_application_result(response, r),
    }
}

fn tell(response: ReplicatedBrokerResponseV1, what: &str) -> (r: Result<
    BrokerMutationResult,
    BrokerError,
>)
    ensures
        is_told(response, what@, r),
{
    match response.into_application_result() {
        Ok(result) => result,
        Err(refusal) => Err(internal_error(what, refusal.message())),
    }
}

impl PlainSubmission {
    pub closed spec fn spec_mode(&self) -> RaftMode {
        self.mode
    }

    /// The answer to a plain command. An outer error is one of the engine, or of an answer that
    /// cannot be read. An inner one is the Broker's own.
    pub fn settled(self, answer: Result<ReplicatedBrokerResponseV1, String>) -> (r: Result<
        Result<BrokerMutationResult, BrokerError>,
        BrokerError,
    >)
        ensures
            match answer {
                Err(text) => r matches Err(error) && error@ == engine_failure(
                    self.spec_mode(),
                    "client_write"@,
                    text@,
                ),
                Ok(response) => match response_finding(response) {
                    Some(finding) => r matches Err(error) && error@ == internal_fault(
                        undecodable_text(self.spec_mode()),
                        finding,
                    ),
                    None => r matches Ok(result) && is_application_result(response, result),
                },
            },
    {
        match answer {
            Err(error) => Err(raft_engine_error(self.mode, "client_write", error.as_str())),
            Ok(response) => match response.into_application_result() {
                Ok(result) => Ok(result),
                Err(refusal) => {
                    let what = match self.mode {
                        RaftMode::Cluster => "failed to decode committed cluster Raft response: ",
                        RaftMode::OneNode => {
                            "failed to decode committed Raft application response: "
                        },
                    };
                    Err(internal_error(what, refusal.message()))
                },
            },
        }
    }

    /// The answer to a plain command.
    pub fn answered(self, answer: Result<ReplicatedBrokerResponseV1, String>) -> (r: Result<
        BrokerMutationResult,
        BrokerError,
    >)
        ensures
            match answer {
                Err(text) => r matches Err(error) && error@ == engine_failure(
                    self.spec_mode(),
                    "client_write"@,
                    text@,
                ),
                Ok(response) => is_told(response, undecodable_text(self.spec_mode()), r),
            },
    {
        match self.settled(answer) {
            Ok(result) => result,
            Err(error) => Err(error),
        }
    }
}

/// What came of an identified command that was handed to the engine.
pub enum IdentifiedAnswer {
    /// The engine did not take it and has stopped.
    Stopped(String),
    /// The deadline passed after it was taken.
    TimedOut,
    /// The engine dropped the answer.
    Dropped(String),
    /// The engine refused it.
    Refused(String),
    /// It was committed.
    Committed(ReplicatedBrokerResponseV1),
}

/// The text for an identified command whose deadline passed.
pub open spec fn deadline_text(session_id: Seq<char>, sequence: u64) -> Seq<char> {
    "identified mutation response deadline elapsed after submission: session="@ + session_id
        + " sequence="@ + decimal(sequence as nat)
}

impl IdentifiedSubmission {
    pub closed spec fn spec_session(&self) -> Seq<char> {
        self.session_id@
    }

    pub closed spec fn spec_sequence(&self) -> u64 {
        self.sequence
    }

    /// The answer to an identified command. A deadline that passes after the engine took the
    /// command leaves the outcome unknown.
    pub fn answered(
        self,
        answer: IdentifiedAnswer,
    ) -> (r: Result<BrokerMutationResult, BrokerError>)
        ensures
            match answer {
                IdentifiedAnswer::Stopped(text) => r matches Err(error) && error@ == engine_stopped(
                    RaftMode::Cluster,
                    text@,
                ),
                IdentifiedAnswer::TimedOut => r matches Err(error) && error@ == ambiguous_error(
                    BrokerErrorCode::CommitOutcomeUnknown,
                    deadline_text(self.spec_session(), self.spec_sequence()),
                ),
                IdentifiedAnswer::Dropped(text) => r matches Err(error) && error@ == engine_failure(
                    RaftMode::Cluster,
                    "identified client_write response"@,
                    text@,
                ),
                IdentifiedAnswer::Refused(text) => r matches Err(error) && error@ == engine_failure(
                    RaftMode::Cluster,
                    "identified client_write"@,
                    text@,
                ),
                IdentifiedAnswer::Committed(response) => is_told(
                    response,
                    "failed to decode committed identified Raft response: "@,
                    r,
                ),
            },
    {
        match answer {
            IdentifiedAnswer::Stopped(error) => Err(
                raft_fatal_error(RaftMode::Cluster, error.as_str()),
            ),
            IdentifiedAnswer::TimedOut => {
                let mut message = "identified mutation response deadline elapsed after submission: session=".to_owned();
                message.append(self.session_id.as_str());
                message.append(" sequence=");
                push_decimal(&mut message, self.sequence);
                Err(BrokerError::new(BrokerErrorCode::CommitOutcomeUnknown, message.as_str()))
            },
            IdentifiedAnswer::Dropped(error) => Err(
                raft_engine_error(
                    RaftMode::Cluster,
                    "identified client_write response",
                    error.as_str(),
                ),
            ),
            IdentifiedAnswer::Refused(error) => Err(
                raft_engine_error(RaftMode::Cluster, "identified client_write", error.as_str()),
            ),
            IdentifiedAnswer::Committed(response) => tell(
                response,
                "failed to decode committed identified Raft response: ",
            ),
        }
    }
}

/// The epoch that a committed acquisition gives, or the error it leads to.
pub open spec fn acquired_epoch(response: ReplicatedBrokerResponseV1) -> Result<
    u64,
    BrokerErrorView,
> {
    match response {
        ReplicatedBrokerResponseV1::SessionOwnerAcquired { owner_epoch } => if owner_epoch == 0 {
            Err(
                internal_fault(
                    "committed command-session owner epoch was invalid: "@,
                    CommandIdentityError::ZeroOwnerEpoch.text(),
                ),
            )
        } else {
            Ok(owner_epoch)
        },
        ReplicatedBrokerResponseV1::ApplicationError(error) => Err(application_error(error)),
        ReplicatedBrokerResponseV1::RaftControl => Err(
            internal_fault(
                "command-session owner acquisition returned unexpected response: "@,
                "RaftControl"@,
            ),
        ),
        ReplicatedBrokerResponseV1::Success(result) => Err(
            internal_fault(
                "command-session owner acquisition returned unexpected response: "@,
                "Success("@ + result_text(result) + ")"@,
            ),
        ),
    }
}

impl OwnerSubmission {
    /// The answer to an acquisition.
    pub fn answered(self, answer: Result<ReplicatedBrokerResponseV1, String>) -> (r: Result<
        SessionOwnerEpoch,
        BrokerError,
    >)
        ensures
            match answer {
                Err(text) => r matches Err(error) && error@ == engine_failure(
                    RaftMode::Cluster,
                    "command-session owner acquisition"@,
                    text@,
                ),
                Ok(response) => match (r, acquired_epoch(response)) {
                    (Ok(epoch), Ok(expected)) => epoch@ == expected,
                    (Err(error), Err(failure)) => error@ == failure,
                    _ => false,
                },
            },
    {
        let response = match answer {
            Ok(response) => response,
            Err(error) => {
                return Err(
                    raft_engine_error(
                        RaftMode::Cluster,
                        "command-session owner acquisition",
                        error.as_str(),
                    ),
                );
            },
        };
        match response {
            ReplicatedBrokerResponseV1::SessionOwnerAcquired { owner_epoch } => {
                match SessionOwnerEpoch::new(owner_epoch) {
                    Ok(epoch) => Ok(epoch),
                    Err(error) => Err(
                        internal_error(
                            "committed command-session owner epoch was invalid: ",
                            error.message().as_str(),
                        ),
                    ),
                }
            },
            ReplicatedBrokerResponseV1::ApplicationError(error) => Err(error.to_broker_error()),
            ReplicatedBrokerResponseV1::RaftControl => Err(
                internal_error(
                    "command-session owner acquisition returned unexpected response: ",
                    "RaftControl",
                ),
            ),
            ReplicatedBrokerResponseV1::Success(result) => {
                let form = "Success(".to_owned().concat(result_form(&result).as_str()).concat(")");
                Err(
                    internal_error(
                        "command-session owner acquisition returned unexpected response: ",
                        form.as_str(),
                    ),
                )
            },
        }
    }
}

} // verus!
