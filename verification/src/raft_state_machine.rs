//! The replicated state machine: the Broker, its command sessions and the applied position.
use crate::broker::{AppliedCommand, BrokerStateMachine};
use crate::command_identity::{
    CommandIdentity, CommandIdentityError, CommandSessionId, IdentityView, SessionOwnerEpoch,
    SessionOwnerInstanceId,
};
use crate::command_sessions::{CommandSessions, SessionView};
use crate::commands::BrokerCommand;
use crate::domain::{DomainValueError, Revision, Term};
use crate::error::{
    ambiguous_error, stable_code, BrokerError, BrokerErrorDisposition, StateMachineError,
};
use crate::replicated_command::{
    decode_finding, encodes, first_of, ReplicatedBrokerCommandV1, WireCommand,
};
use crate::replicated_proposal::{durable_identity, identity_finding, ReplicatedBrokerProposalV1};
use crate::replicated_response::{
    application_error, durable_code, encodes_result, has_whole_claim, is_durable_error,
    normalized_outcome, response_finding, result_finding, ReplicatedBrokerResponseV1,
};
use crate::results::BrokerMutationResult;
use crate::session_laws::committed_sessions;
use crate::session_rules::{
    acquire_owner, acquired_sessions, acquisition, admission, answers_acquisition, commit_outcome,
    decide_identified, is_rejection, AdmissionView, IdentifiedDecision,
};
use crate::session_snapshot::all_restorable;
use vstd::prelude::*;

verus! {

/// Committed data that the state machine cannot apply.
#[derive(Debug, Clone, PartialEq, Eq)]
pub struct StateMachineDataError {
    message: String,
}

impl View for StateMachineDataError {
    type V = Seq<char>;

    closed spec fn view(&self) -> Seq<char> {
        self.message@
    }
}

impl StateMachineDataError {
    pub fn new(message: &str) -> (r: Self)
        ensures
            r@ == message@,
    {
        StateMachineDataError { message: message.to_owned() }
    }

    pub fn message(&self) -> (r: &str)
        ensures
            r@ == self@,
    {
        self.message.as_str()
    }
}

/// Whether a response is the committed answer to what the Broker returned: its result, or its
/// refusal under the stable code as a committed outcome.
pub open spec fn is_broker_response<D>(
    result: Result<AppliedCommand<D>, StateMachineError>,
    response: ReplicatedBrokerResponseV1,
) -> bool {
    match result {
        Ok(applied) => response matches ReplicatedBrokerResponseV1::Success(wire)
            && encodes_result(applied.result, wire),
        Err(error) => response matches ReplicatedBrokerResponseV1::ApplicationError(wire)
            && is_durable_error(
            ambiguous_error(stable_code(error.kind), error.message@),
            BrokerErrorDisposition::Committed,
            wire,
        ),
    }
}

/// The committed response for what the Broker returned.
pub fn broker_response<D>(result: Result<AppliedCommand<D>, StateMachineError>) -> (r:
    ReplicatedBrokerResponseV1)
    ensures
        is_broker_response(result, r),
        normalized_outcome(r) == r,
        response_finding(r) is None <==> (result matches Ok(applied) ==> has_whole_claim(
            applied.result,
        )),
{
    let application_result: Result<BrokerMutationResult, BrokerError> = match result {
        Ok(applied) => Ok(applied.result),
        Err(error) => {
            assert(durable_code(stable_code(error.kind)) is Some);
            Err(BrokerError::from_state_machine(error))
        },
    };
    match ReplicatedBrokerResponseV1::from_application_result(&application_result) {
        Ok(response) => response,
        Err(_) => {
            assert(false);
            ReplicatedBrokerResponseV1::RaftControl
        },
    }
}

/// Whether a result in an answer can be read back. Only a claim of which a part is missing cannot.
pub open spec fn is_whole_answer(
    answer: Result<ReplicatedBrokerResponseV1, StateMachineDataError>,
) -> bool {
    answer matches Ok(ReplicatedBrokerResponseV1::Success(result)) ==> result_finding(result)
        is None
}

/// The finding on the fields of an owner acquisition.
pub open spec fn acquisition_finding(
    session_id: Seq<char>,
    expected_owner_epoch: u64,
    owner_instance_id: Seq<char>,
) -> Option<Seq<char>> {
    first_of(
        match CommandSessionId::flaw(session_id) {
            Some(reason) => Some("invalid command_session_id: "@ + reason),
            None => None,
        },
        first_of(
            if expected_owner_epoch == 0 {
                Some(CommandIdentityError::ZeroOwnerEpoch.text())
            } else {
                None
            },
            match SessionOwnerInstanceId::flaw(owner_instance_id) {
                Some(reason) => Some("invalid command_session_owner_instance_id: "@ + reason),
                None => None,
            },
        ),
    )
}

/// Whether an identified command with `answer` takes the sessions from `before` to `after`.
pub open spec fn is_identified_step(
    before: Map<Seq<char>, SessionView>,
    identity: IdentityView,
    command: WireCommand,
    after: Map<Seq<char>, SessionView>,
    answer: Result<ReplicatedBrokerResponseV1, StateMachineDataError>,
) -> bool {
    match admission(before, identity, command) {
        AdmissionView::Apply => match answer {
            Ok(response) => decode_finding(command) is None && after == committed_sessions(
                before,
                identity,
                command,
                response,
            ),
            Err(error) => decode_finding(command) == Some(error@) && after == before,
        },
        AdmissionView::Replay(response) => after == before && answer == Ok::<
            ReplicatedBrokerResponseV1,
            StateMachineDataError,
        >(response),
        AdmissionView::Reject(code, message) => after == before && (answer matches Ok(response)
            && is_rejection(response, code, message)),
    }
}

/// A command that is refused before it is applied leaves the sessions as they are, and its answer
/// says that it was rejected, not committed.
pub proof fn law_refused_commands_store_nothing(
    before: Map<Seq<char>, SessionView>,
    identity: IdentityView,
    command: WireCommand,
    after: Map<Seq<char>, SessionView>,
    answer: Result<ReplicatedBrokerResponseV1, StateMachineDataError>,
)
    requires
        is_identified_step(before, identity, command, after, answer),
        admission(before, identity, command) is Reject,
    ensures
        after == before,
        answer matches Ok(ReplicatedBrokerResponseV1::ApplicationError(error)) && application_error(
            error,
        ).disposition == BrokerErrorDisposition::Rejected,
{
}

/// Whether an owner acquisition with `answer` takes the sessions from `before` to `after`.
pub open spec fn is_acquisition_step(
    before: Map<Seq<char>, SessionView>,
    session_id: Seq<char>,
    expected_owner_epoch: u64,
    owner_instance_id: Seq<char>,
    after: Map<Seq<char>, SessionView>,
    answer: Result<ReplicatedBrokerResponseV1, StateMachineDataError>,
) -> bool {
    match acquisition_finding(session_id, expected_owner_epoch, owner_instance_id) {
        Some(finding) => after == before && (answer matches Err(error) && error@ == finding),
        None => {
            &&& answer matches Ok(response) && answers_acquisition(
                response,
                acquisition(before, session_id, expected_owner_epoch, owner_instance_id),
            )
            &&& after == acquired_sessions(
                before,
                session_id,
                expected_owner_epoch,
                owner_instance_id,
            )
        },
    }
}

/// Whether an unidentified command can have this answer.
pub open spec fn is_plain_answer(
    command: WireCommand,
    answer: Result<ReplicatedBrokerResponseV1, StateMachineDataError>,
) -> bool {
    match answer {
        Ok(_) => decode_finding(command) is None,
        Err(error) => decode_finding(command) == Some(error@),
    }
}

/// Whether a proposal with `answer` takes the sessions from `before` to `after`.
pub open spec fn is_proposal_step(
    before: Map<Seq<char>, SessionView>,
    proposal: ReplicatedBrokerProposalV1,
    after: Map<Seq<char>, SessionView>,
    answer: Result<ReplicatedBrokerResponseV1, StateMachineDataError>,
) -> bool {
    match (proposal.identity, proposal.command@) {
        (
            Some(identity),
            command,
        ) if identity_finding(durable_identity(identity)) is Some => after == before && (
        answer matches Err(error) && identity_finding(durable_identity(identity)) == Some(error@)),
        (
            Some(_),
            WireCommand::AcquireCommandSessionOwner { .. },
        ) => after == before && (answer matches Err(error) && error@
            == "command-session owner acquisition must not carry identified mutation identity"@),
        (
            None,
            WireCommand::AcquireCommandSessionOwner {
                session_id,
                expected_owner_epoch,
                owner_instance_id,
            },
        ) => is_acquisition_step(
            before,
            session_id,
            expected_owner_epoch,
            owner_instance_id,
            after,
            answer,
        ),
        (Some(identity), command) => is_identified_step(
            before,
            durable_identity(identity),
            command,
            after,
            answer,
        ),
        (None, command) => after == before && is_plain_answer(command, answer),
    }
}

/// Whether a proposal reaches the Broker itself.
pub open spec fn reaches_broker(
    before: Map<Seq<char>, SessionView>,
    proposal: ReplicatedBrokerProposalV1,
) -> bool {
    &&& decode_finding(proposal.command@) is None
    &&& match proposal.identity {
        Some(identity) => identity_finding(durable_identity(identity)) is None && admission(
            before,
            durable_identity(identity),
            proposal.command@,
        ) is Apply,
        None => true,
    }
}

/// Position of an entry in the replicated log.
#[derive(Debug, Clone, Copy, PartialEq, Eq, Structural)]
pub struct LogPosition {
    pub leader_term: u64,
    pub leader_node_id: u64,
    pub index: u64,
}

/// What a committed log entry carries.
pub enum EntryPayload<M> {
    Blank,
    Membership(M),
    Normal(ReplicatedBrokerProposalV1),
}

/// A committed log entry.
pub struct CommittedEntry<M> {
    pub position: LogPosition,
    pub payload: EntryPayload<M>,
}

/// Membership and the position of the entry that set it.
pub struct StoredMembership<M> {
    pub position: Option<LogPosition>,
    pub membership: M,
}

/// Read-only projection of the committed Broker state.
#[derive(Debug, Clone, Copy, PartialEq, Eq, Structural)]
pub struct RaftBrokerObservation {
    term: u64,
    revision: u64,
    applied_index: Option<u64>,
}

impl RaftBrokerObservation {
    pub closed spec fn spec_term(&self) -> u64 {
        self.term
    }

    pub closed spec fn spec_revision(&self) -> u64 {
        self.revision
    }

    pub closed spec fn spec_applied_index(&self) -> Option<u64> {
        self.applied_index
    }

    pub fn new(term: u64, revision: u64, applied_index: Option<u64>) -> (r: Self)
        ensures
            r.spec_term() == term,
            r.spec_revision() == revision,
            r.spec_applied_index() == applied_index,
    {
        RaftBrokerObservation { term, revision, applied_index }
    }

    /// Show another committed state.
    pub fn update(&mut self, term: u64, revision: u64, applied_index: Option<u64>)
        ensures
            final(self).spec_term() == term,
            final(self).spec_revision() == revision,
            final(self).spec_applied_index() == applied_index,
    {
        self.term = term;
        self.revision = revision;
        self.applied_index = applied_index;
    }

    pub fn term_value(&self) -> (r: u64)
        ensures
            r == self.spec_term(),
    {
        self.term
    }

    pub fn revision(&self) -> (r: Revision)
        ensures
            r@ == self.spec_revision(),
    {
        Revision::new(self.revision)
    }

    pub fn applied_index(&self) -> (r: Option<u64>)
        ensures
            r == self.spec_applied_index(),
    {
        self.applied_index
    }

    /// The observed term, if it is one.
    pub fn validated_term(&self) -> (r: Result<Term, DomainValueError>)
        ensures
            match r {
                Ok(term) => term@ == self.spec_term(),
                Err(error) => self.spec_term() == 0 && error.text() == crate::domain::zero_error(
                    "Broker term"@,
                ),
            },
    {
        Term::new(self.term)
    }
}

/// Whether an observation shows the term and the revision of a Broker, and an applied index.
pub open spec fn shows<B: BrokerStateMachine>(
    observation: RaftBrokerObservation,
    broker: B,
    applied_index: Option<u64>,
) -> bool {
    &&& observation.spec_applied_index() == applied_index
    &&& exists|term: Term| #[trigger]
        call_ensures(B::term, (&broker,), term) && observation.spec_term() == term@
    &&& exists|revision: Revision| #[trigger]
        call_ensures(B::revision, (&broker,), revision) && observation.spec_revision() == revision@
}

fn observe<B: BrokerStateMachine>(broker: &B, applied_index: Option<u64>) -> (r:
    RaftBrokerObservation)
    ensures
        shows(r, *broker, applied_index),
{
    let term = broker.term();
    let revision = broker.revision();
    assert(call_ensures(B::term, (broker,), term));
    assert(call_ensures(B::revision, (broker,), revision));
    RaftBrokerObservation::new(term.get(), revision.get(), applied_index)
}

/// The replicated state machine over a Broker `B` and memberships `M`.
pub struct AgentBrokerRaftStateMachine<B: BrokerStateMachine, M> {
    pub broker: B,
    pub command_sessions: CommandSessions,
    pub observation: RaftBrokerObservation,
    pub last_applied: Option<LogPosition>,
    pub last_membership: StoredMembership<M>,
}

/// The log index of an optional position.
pub open spec fn position_index(position: Option<LogPosition>) -> Option<u64> {
    match position {
        Some(value) => Some(value.index),
        None => None,
    }
}

fn index_of_position(position: Option<LogPosition>) -> (r: Option<u64>)
    ensures
        r == position_index(position),
{
    match position {
        Some(value) => Some(value.index),
        None => None,
    }
}

impl<B: BrokerStateMachine, M> AgentBrokerRaftStateMachine<B, M> {
    /// The state machine of a Broker, its sessions and the position that they stand at.
    pub fn assemble(
        broker: B,
        command_sessions: CommandSessions,
        last_applied: Option<LogPosition>,
        last_membership: StoredMembership<M>,
    ) -> (r: Self)
        ensures
            r.broker == broker,
            r.command_sessions == command_sessions,
            r.last_applied == last_applied,
            r.last_membership == last_membership,
            shows(r.observation, broker, position_index(last_applied)),
    {
        let observation = observe(&broker, index_of_position(last_applied));
        AgentBrokerRaftStateMachine {
            broker,
            command_sessions,
            observation,
            last_applied,
            last_membership,
        }
    }

    /// Replace everything by an installed snapshot.
    pub fn install(
        &mut self,
        broker: B,
        command_sessions: CommandSessions,
        last_applied: Option<LogPosition>,
        last_membership: StoredMembership<M>,
    )
        ensures
            final(self).broker == broker,
            final(self).command_sessions == command_sessions,
            final(self).last_applied == last_applied,
            final(self).last_membership == last_membership,
            shows(final(self).observation, broker, position_index(last_applied)),
    {
        self.observation = observe(&broker, index_of_position(last_applied));
        self.broker = broker;
        self.command_sessions = command_sessions;
        self.last_applied = last_applied;
        self.last_membership = last_membership;
    }

    /// Apply a command to the Broker and answer with its committed response.
    pub fn apply_replicated_command(&mut self, command: &ReplicatedBrokerCommandV1) -> (r: Result<
        ReplicatedBrokerResponseV1,
        StateMachineDataError,
    >)
        ensures
            is_plain_answer(command@, r),
            if decode_finding(command@) is None {
                r matches Ok(response) && exists|
                    machine: &mut B,
                    domain: BrokerCommand,
                    result: Result<AppliedCommand<B::Changes>, StateMachineError>,
                |
                    *machine == old(self).broker
                        && *final(machine) == final(self).broker
                        && encodes(
                        domain,
                        command@,
                    ) && #[trigger] call_ensures(B::apply, (machine, domain), result)
                        && is_broker_response(result, response)
            } else {
                final(self).broker == old(self).broker
            },
            r matches Ok(response) ==> normalized_outcome(response) == response && (
            is_whole_answer(r) ==> response_finding(response) is None),
            final(self).command_sessions == old(self).command_sessions,
            final(self).observation == old(self).observation,
            final(self).last_applied == old(self).last_applied,
            final(self).last_membership == old(self).last_membership,
    {
        let domain_command = match command.to_command() {
            Ok(domain_command) => domain_command,
            Err(error) => return Err(StateMachineDataError::new(error.message())),
        };
        let result = self.broker.apply(domain_command);
        Ok(broker_response(result))
    }

    /// Apply an identified command once, or answer its exact retry with the committed response.
    pub fn apply_identified(
        &mut self,
        identity: &CommandIdentity,
        command: ReplicatedBrokerCommandV1,
    ) -> (r: Result<ReplicatedBrokerResponseV1, StateMachineDataError>)
        ensures
            all_restorable(old(self).command_sessions@) && is_whole_answer(r) ==> all_restorable(
                final(self).command_sessions@,
            ),
            is_identified_step(
                old(self).command_sessions@,
                identity@,
                command@,
                final(self).command_sessions@,
                r,
            ),
            if decode_finding(command@) is None && admission(
                old(self).command_sessions@,
                identity@,
                command@,
            ) is Apply {
                r matches Ok(response) && exists|
                    machine: &mut B,
                    domain: BrokerCommand,
                    result: Result<AppliedCommand<B::Changes>, StateMachineError>,
                |
                    *machine == old(self).broker
                        && *final(machine) == final(self).broker
                        && encodes(
                        domain,
                        command@,
                    ) && #[trigger] call_ensures(B::apply, (machine, domain), result)
                        && is_broker_response(result, response)
            } else {
                final(self).broker == old(self).broker
            },
            final(self).observation == old(self).observation,
            final(self).last_applied == old(self).last_applied,
            final(self).last_membership == old(self).last_membership,
    {
        match decide_identified(&self.command_sessions, identity, &command) {
            IdentifiedDecision::Answer(response) => Ok(response),
            IdentifiedDecision::Apply => {
                let response = match self.apply_replicated_command(&command) {
                    Ok(response) => response,
                    Err(error) => return Err(error),
                };
                proof {
                    use_type_invariant(identity);
                }
                commit_outcome(&mut self.command_sessions, identity, command, response.clone());
                Ok(response)
            },
        }
    }

    /// Acquire the ownership of a command session without touching the Broker.
    pub fn acquire_command_session_owner(
        &mut self,
        session_id: &str,
        expected_owner_epoch: u64,
        owner_instance_id: &str,
    ) -> (r: Result<ReplicatedBrokerResponseV1, StateMachineDataError>)
        ensures
            all_restorable(old(self).command_sessions@) ==> all_restorable(
                final(self).command_sessions@,
            ),
            is_acquisition_step(
                old(self).command_sessions@,
                session_id@,
                expected_owner_epoch,
                owner_instance_id@,
                final(self).command_sessions@,
                r,
            ),
            final(self).broker == old(self).broker,
            final(self).observation == old(self).observation,
            final(self).last_applied == old(self).last_applied,
            final(self).last_membership == old(self).last_membership,
    {
        let session = match CommandSessionId::new(session_id) {
            Ok(session) => session,
            Err(error) => return Err(StateMachineDataError::new(error.message().as_str())),
        };
        let expected = match SessionOwnerEpoch::new(expected_owner_epoch) {
            Ok(expected) => expected,
            Err(error) => return Err(StateMachineDataError::new(error.message().as_str())),
        };
        let instance = match SessionOwnerInstanceId::new(owner_instance_id) {
            Ok(instance) => instance,
            Err(error) => return Err(StateMachineDataError::new(error.message().as_str())),
        };
        Ok(acquire_owner(&mut self.command_sessions, &session, expected, instance))
    }

    /// Apply one committed proposal.
    pub fn apply_proposal(&mut self, proposal: ReplicatedBrokerProposalV1) -> (r: Result<
        ReplicatedBrokerResponseV1,
        StateMachineDataError,
    >)
        ensures
            all_restorable(old(self).command_sessions@) && is_whole_answer(r) ==> all_restorable(
                final(self).command_sessions@,
            ),
            is_proposal_step(
                old(self).command_sessions@,
                proposal,
                final(self).command_sessions@,
                r,
            ),
            if reaches_broker(old(self).command_sessions@, proposal) {
                r matches Ok(response) && exists|
                    machine: &mut B,
                    domain: BrokerCommand,
                    result: Result<AppliedCommand<B::Changes>, StateMachineError>,
                |
                    *machine == old(self).broker
                        && *final(machine) == final(self).broker
                        && encodes(
                        domain,
                        proposal.command@,
                    ) && #[trigger] call_ensures(B::apply, (machine, domain), result)
                        && is_broker_response(result, response)
            } else {
                final(self).broker == old(self).broker
            },
            final(self).observation == old(self).observation,
            final(self).last_applied == old(self).last_applied,
            final(self).last_membership == old(self).last_membership,
    {
        let (identity, command) = match proposal.into_parts() {
            Ok(parts) => parts,
            Err(error) => return Err(StateMachineDataError::new(error.message())),
        };
        match &command {
            ReplicatedBrokerCommandV1::AcquireCommandSessionOwner {
                session_id,
                expected_owner_epoch,
                owner_instance_id,
            } => {
                if identity.is_some() {
                    return Err(
                        StateMachineDataError::new(
                            "command-session owner acquisition must not carry identified mutation identity",
                        ),
                    );
                }
                return self.acquire_command_session_owner(
                    session_id.as_str(),
                    *expected_owner_epoch,
                    owner_instance_id.as_str(),
                );
            },
            _ => {},
        }
        match identity {
            Some(identity) => self.apply_identified(&identity, command),
            None => self.apply_replicated_command(&command),
        }
    }

    /// Apply one committed entry and advance the applied position.
    pub fn apply_entry(&mut self, entry: CommittedEntry<M>) -> (r: Result<
        ReplicatedBrokerResponseV1,
        StateMachineDataError,
    >)
        ensures
            all_restorable(old(self).command_sessions@) && is_whole_answer(r) ==> all_restorable(
                final(self).command_sessions@,
            ),
            match entry.payload {
                EntryPayload::Blank => {
                    &&& r == Ok::<ReplicatedBrokerResponseV1, StateMachineDataError>(
                        ReplicatedBrokerResponseV1::RaftControl,
                    )
                    &&& final(self).broker == old(self).broker
                    &&& final(self).command_sessions == old(self).command_sessions
                    &&& final(self).last_membership == old(self).last_membership
                },
                EntryPayload::Membership(membership) => {
                    &&& r == Ok::<ReplicatedBrokerResponseV1, StateMachineDataError>(
                        ReplicatedBrokerResponseV1::RaftControl,
                    )
                    &&& final(self).broker == old(self).broker
                    &&& final(self).command_sessions == old(self).command_sessions
                    &&& final(self).last_membership == (StoredMembership {
                        position: Some(entry.position),
                        membership,
                    })
                },
                EntryPayload::Normal(proposal) => {
                    &&& is_proposal_step(
                        old(self).command_sessions@,
                        proposal,
                        final(self).command_sessions@,
                        r,
                    )
                    &&& if reaches_broker(old(self).command_sessions@, proposal) {
                        r matches Ok(response) && exists|
                            machine: &mut B,
                            domain: BrokerCommand,
                            result: Result<AppliedCommand<B::Changes>, StateMachineError>,
                        |
                            *machine == old(self).broker && *final(machine) == final(self).broker
                                && encodes(domain, proposal.command@) && #[trigger] call_ensures(
                                B::apply,
                                (machine, domain),
                                result,
                            ) && is_broker_response(result, response)
                    } else {
                        final(self).broker == old(self).broker
                    }
                    &&& final(self).last_membership == old(self).last_membership
                },
            },
            match r {
                Ok(_) => final(self).last_applied == Some(entry.position) && shows(
                    final(self).observation,
                    final(self).broker,
                    Some(entry.position.index),
                ),
                Err(_) => final(self).last_applied == old(self).last_applied
                    && final(self).observation == old(self).observation,
            },
    {
        let response = match entry.payload {
            EntryPayload::Blank => ReplicatedBrokerResponseV1::RaftControl,
            EntryPayload::Membership(membership) => {
                self.last_membership =
                StoredMembership { position: Some(entry.position), membership };
                ReplicatedBrokerResponseV1::RaftControl
            },
            EntryPayload::Normal(proposal) => match self.apply_proposal(proposal) {
                Ok(response) => response,
                Err(error) => return Err(error),
            },
        };
        self.last_applied = Some(entry.position);
        self.observation = observe(&self.broker, Some(entry.position.index));
        Ok(response)
    }

    /// Apply committed entries in their order. The first one that cannot be applied stops.
    ///
    /// The machine passes through `stages`, each reached from the one before by `apply_entry`
    /// with the answer at that place in `answers`.
    pub fn apply(&mut self, entries: Vec<CommittedEntry<M>>) -> (r: Result<
        Vec<ReplicatedBrokerResponseV1>,
        StateMachineDataError,
    >)
        ensures
            exists|
                stages: Seq<Self>,
                answers: Seq<Result<ReplicatedBrokerResponseV1, StateMachineDataError>>,
            |
                #![trigger stages.last(), answers.len()]
                {
                    &&& stages.len() == answers.len() + 1
                    &&& stages[0] == *old(self)
                    &&& stages.last() == *final(self)
                    &&& forall|i: int|
                        #![trigger answers[i]]
                        #![trigger entries@[i]]
                        0 <= i < answers.len() ==> {
                            &&& match r {
                                Ok(responses) => answers[i] == Ok::<
                                    ReplicatedBrokerResponseV1,
                                    StateMachineDataError,
                                >(responses@[i]),
                                Err(error) => if i < answers.len() - 1 {
                                    answers[i] is Ok
                                } else {
                                    answers[i] == Err::<
                                        ReplicatedBrokerResponseV1,
                                        StateMachineDataError,
                                    >(error)
                                },
                            }
                            &&& exists|machine: &mut Self|
                                *machine == stages[i] && *final(machine) == stages[i + 1]
                                    && #[trigger] call_ensures(
                                    AgentBrokerRaftStateMachine::<B, M>::apply_entry,
                                    (machine, entries@[i]),
                                    answers[i],
                                )
                        }
                    &&& all_restorable(old(self).command_sessions@) && (forall|i: int|
                        0 <= i < answers.len() ==> is_whole_answer(#[trigger] answers[i]))
                        ==> all_restorable(final(self).command_sessions@)
                    &&& match r {
                        Ok(responses) => responses@.len() == answers.len() == entries@.len(),
                        Err(_) => 0 < answers.len() <= entries@.len(),
                    }
                },
    {
        let ghost all = entries@;
        let ghost mut stages: Seq<Self> = seq![*self];
        let ghost mut answers: Seq<Result<ReplicatedBrokerResponseV1, StateMachineDataError>> =
            Seq::empty();
        let mut rest = entries;
        let mut responses: Vec<ReplicatedBrokerResponseV1> = Vec::new();
        while rest.len() > 0
            invariant
                all == entries@,
                responses@.len() + rest@.len() == all.len(),
                rest@ == all.skip(responses@.len() as int),
                answers.len() == responses@.len(),
                stages.len() == answers.len() + 1,
                stages[0] == *old(self),
                stages.last() == *self,
                all_restorable(old(self).command_sessions@) && (forall|i: int|
                    0 <= i < answers.len() ==> is_whole_answer(#[trigger] answers[i]))
                    ==> all_restorable(self.command_sessions@),
                forall|i: int|
                    0 <= i < answers.len() ==> {
                        &&& #[trigger] answers[i] == Ok::<
                            ReplicatedBrokerResponseV1,
                            StateMachineDataError,
                        >(responses@[i])
                        &&& exists|machine: &mut Self|
                            *machine == stages[i] && *final(machine) == stages[i + 1]
                                && #[trigger] call_ensures(
                                    AgentBrokerRaftStateMachine::<B, M>::apply_entry,
                                    (machine, all[i]),
                                    answers[i],
                                )
                    },
            decreases rest@.len(),
        {
            let ghost at = responses@.len() as int;
            let ghost earlier = stages;
            let ghost answered = answers;
            let entry = rest.remove(0);
            assert(entry == all[at]);
            assert(rest@ =~= all.skip(at + 1));
            let answer = self.apply_entry(entry);
            proof {
                stages = stages.push(*self);
                answers = answers.push(answer);
                assert forall|i: int| 0 <= i < answers.len() implies {
                    &&& #[trigger] answers[i] == (if i < at {
                        Ok(responses@[i])
                    } else {
                        answer
                    })
                    &&& exists|machine: &mut Self|
                        *machine == stages[i] && *final(machine) == stages[i + 1]
                            && #[trigger] call_ensures(
                                    AgentBrokerRaftStateMachine::<B, M>::apply_entry,
                                    (machine, all[i]),
                                    answers[i],
                                )
                } by {
                    if i < at {
                        assert(stages[i] == earlier[i] && stages[i + 1] == earlier[i + 1]);
                        assert(answers[i] == answered[i]);
                    } else {
                        assert(stages[i] == earlier.last() && stages[i + 1] == *self);
                        assert(answers[i] == answer);
                    }
                }
                if forall|i: int| 0 <= i < answers.len() ==> is_whole_answer(
                    #[trigger] answers[i],
                ) {
                    assert forall|i: int| 0 <= i < answered.len() implies is_whole_answer(
                        #[trigger] answered[i],
                    ) by {
                        assert(answers[i] == answered[i]);
                    }
                    assert(is_whole_answer(answers[at]));
                }
            }
            match answer {
                Ok(response) => {
                    responses.push(response);
                },
                Err(error) => {
                    assert(stages.last() == *self && answers.len() == at + 1);
                    return Err(error);
                },
            }
        }
        assert(stages.last() == *self && answers.len() == all.len());
        Ok(responses)
    }
}

} // verus!
