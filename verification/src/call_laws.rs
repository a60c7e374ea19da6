//! What holds of the results of single calls, for all arguments.
use crate::client_error::ClientError;
use crate::client_payloads::task_claim_result;
use crate::command_identity::{
    CommandIdentity, CommandSessionId, SessionOwnerEpoch, SessionOwnerInstanceId,
};
use crate::command_sessions::CommandSessions;
use crate::commands::BrokerCommand;
use crate::consensus::ConsensusAdapter;
use crate::durable_client::{decide_attempt, AttemptDecision};
use crate::error::{
    state_machine_error_code, BrokerError, BrokerErrorCode, BrokerErrorDisposition,
    StateMachineErrorKind,
};
use crate::json::{Json, JsonView};
use crate::protocol::SuccessPayload;
use crate::raft_adapters::{should_poison, ClusterController, ClusterRaftConsensusAdapter};
use crate::replicated_command::{client_request, ReplicatedBrokerCommandV1};
use crate::replicated_response::ReplicatedBrokerResponseV1;
use crate::results::{BrokerMutationResult, TaskClaimResult};
use crate::router::should_rediscover;
use crate::router_config::{
    select_write_leader, validate_readiness, StaticClusterNode, StaticClusterRoutingError,
};
use crate::session_rules::{acquire_owner, decide_identified, IdentifiedDecision};
use vstd::prelude::*;

verus! {

/// The owner of a session goes on with every later sequence, whether or not the owner is a named
/// instance.
pub proof fn law_the_owner_goes_on(
    sessions: CommandSessions,
    identity: CommandIdentity,
    command: ReplicatedBrokerCommandV1,
    decision: IdentifiedDecision,
)
    requires
        call_ensures(decide_identified, (&sessions, &identity, &command), decision),
        sessions@.contains_key(identity@.session_id),
        sessions@[identity@.session_id].owner_epoch == identity@.owner_epoch,
        sessions@[identity@.session_id].owner_instance_id == identity@.owner_instance_id,
        sessions@[identity@.session_id].last_outcome matches Some(outcome) && outcome.sequence
            < identity@.sequence,
    ensures
        decision is Apply,
{
}

/// Whoever is not the owner of a session is rejected before anything is applied.
pub proof fn law_others_are_rejected(
    sessions: CommandSessions,
    identity: CommandIdentity,
    command: ReplicatedBrokerCommandV1,
    decision: IdentifiedDecision,
)
    requires
        call_ensures(decide_identified, (&sessions, &identity, &command), decision),
        sessions@.contains_key(identity@.session_id),
        sessions@[identity@.session_id].owner_epoch != identity@.owner_epoch
            || sessions@[identity@.session_id].owner_instance_id != identity@.owner_instance_id,
    ensures
        decision matches IdentifiedDecision::Answer(
            ReplicatedBrokerResponseV1::ApplicationError(error),
        ) && error.disposition == BrokerErrorDisposition::Rejected,
{
}

/// The owner who repeats the last request gets the recorded answer. Another request under the same
/// sequence is rejected.
pub proof fn law_repeated_sequences_are_not_applied(
    sessions: CommandSessions,
    identity: CommandIdentity,
    command: ReplicatedBrokerCommandV1,
    decision: IdentifiedDecision,
)
    requires
        call_ensures(decide_identified, (&sessions, &identity, &command), decision),
        sessions@.contains_key(identity@.session_id),
        sessions@[identity@.session_id].owner_epoch == identity@.owner_epoch,
        sessions@[identity@.session_id].owner_instance_id == identity@.owner_instance_id,
        sessions@[identity@.session_id].last_outcome matches Some(outcome) && outcome.sequence
            == identity@.sequence,
    ensures
        ({
            let outcome = sessions@[identity@.session_id].last_outcome->0;
            if client_request(outcome.command) == client_request(command@) {
                decision == IdentifiedDecision::Answer(outcome.response)
            } else {
                decision matches IdentifiedDecision::Answer(
                    ReplicatedBrokerResponseV1::ApplicationError(error),
                ) && error.disposition == BrokerErrorDisposition::Rejected
            }
        }),
{
}

/// An instance that expects the current epoch of a session that it does not own takes it over at
/// the next epoch, whatever the last outcome was. It starts without an outcome, and no other
/// session changes.
pub proof fn law_the_current_epoch_is_taken_over(
    session_id: CommandSessionId,
    expected: SessionOwnerEpoch,
    instance: SessionOwnerInstanceId,
    other: Seq<char>,
)
    requires
        other != session_id@,
    ensures
        forall|sessions: &mut CommandSessions, response: ReplicatedBrokerResponseV1|
            #[trigger] call_ensures(
                acquire_owner,
                (sessions, &session_id, expected, instance),
                response,
            ) && sessions@.contains_key(session_id@) && sessions@[session_id@].owner_epoch
                == expected@ && expected@ < u64::MAX && sessions@[session_id@].owner_instance_id
                != Some(instance@) ==> {
                &&& response matches ReplicatedBrokerResponseV1::SessionOwnerAcquired {
                    owner_epoch,
                }
                &&& owner_epoch == expected@ + 1
                &&& final(sessions)@.contains_key(session_id@)
                &&& final(sessions)@[session_id@].owner_epoch == expected@ + 1
                &&& final(sessions)@[session_id@].owner_instance_id == Some(instance@)
                &&& final(sessions)@[session_id@].last_outcome is None
                &&& final(sessions)@.contains_key(other) == sessions@.contains_key(other)
                &&& sessions@.contains_key(other) ==> final(sessions)@[other] == sessions@[other]
            },
{
}

/// An acquisition that expects a foreign epoch of a session that the instance does not own is
/// rejected and changes nothing.
pub proof fn law_foreign_epochs_are_not_taken_over(
    session_id: CommandSessionId,
    expected: SessionOwnerEpoch,
    instance: SessionOwnerInstanceId,
)
    ensures
        forall|sessions: &mut CommandSessions, response: ReplicatedBrokerResponseV1|
            #[trigger] call_ensures(
                acquire_owner,
                (sessions, &session_id, expected, instance),
                response,
            ) && sessions@.contains_key(session_id@) && sessions@[session_id@].owner_epoch
                != expected@ && sessions@[session_id@].owner_instance_id != Some(instance@) ==> {
                &&& response matches ReplicatedBrokerResponseV1::ApplicationError(error)
                &&& error.disposition == BrokerErrorDisposition::Rejected
                &&& final(sessions)@ == sessions@
            },
{
}

/// A node whose readiness document says that it is not write-ready is found not ready, for every
/// node and whatever reason or other members the document has.
pub proof fn law_followers_are_no_errors(
    node: StaticClusterNode,
    document: Json,
    found: Result<bool, StaticClusterRoutingError>,
)
    requires
        call_ensures(validate_readiness, (&node, &document), found),
        document@ is Object,
        document@.spec_get("schema_version"@) == Some(JsonView::Number(Some(1u64))),
        document@.spec_get("operation"@) == Some(JsonView::Text("readiness"@)),
        document@.spec_get("write_ready"@) == Some(JsonView::Bool(false)),
    ensures
        found == Ok::<bool, StaticClusterRoutingError>(false),
{
}

/// Where exactly one of three nodes is ready, it is the leader.
pub proof fn law_the_ready_node_leads(
    nodes: [StaticClusterNode; 3],
    ready: [bool; 3],
    leader: int,
    found: Result<StaticClusterNode, StaticClusterRoutingError>,
)
    requires
        call_ensures(select_write_leader, (&nodes, &ready), found),
        0 <= leader < 3,
        forall|i: int| 0 <= i < 3 ==> (#[trigger] ready@[i] <==> i == leader),
    ensures
        found == Ok::<StaticClusterNode, StaticClusterRoutingError>(nodes@[leader]),
{
    assert(ready@[leader]);
    crate::routing_laws::law_the_one_ready_node_is_selected(nodes@, ready@, leader, found);
}

/// A claim is reported with every value that the Broker answered.
pub proof fn law_claims_are_reported_whole(
    payload: SuccessPayload,
    told: Result<TaskClaimResult, ClientError>,
)
    requires
        call_ensures(task_claim_result, (payload,), told),
    ensures
        payload matches SuccessPayload::TaskClaimed {
            term,
            revision,
            task_id,
            objective,
            task_revision,
            lease_id,
            lease_epoch,
            lease_expires_at_ms,
            generation,
        } ==> {
            &&& told matches Ok(claim)
            &&& claim.metadata.term == term
            &&& claim.metadata.revision == revision
            &&& claim.task_id == task_id
            &&& claim.objective == objective
            &&& claim.task_revision == task_revision
            &&& claim.lease_id == lease_id
            &&& claim.lease_epoch == lease_epoch
            &&& claim.lease_expires_at_ms == lease_expires_at_ms
            &&& claim.generation == generation
        },
{
}

/// Two claims that are reported alike were answered alike.
pub proof fn law_claims_are_told_apart(
    first: SuccessPayload,
    second: SuccessPayload,
    told: Result<TaskClaimResult, ClientError>,
)
    requires
        first is TaskClaimed,
        second is TaskClaimed,
        call_ensures(task_claim_result, (first,), told),
        call_ensures(task_claim_result, (second,), told),
    ensures
        first == second,
{
}

/// An error stops an adapter exactly when it says that the durable state or the member itself
/// failed.
pub proof fn law_errors_that_stop_an_adapter(error: BrokerError, stopped: bool)
    requires
        call_ensures(should_poison, (&error,), stopped),
    ensures
        match error@.code {
            BrokerErrorCode::PersistenceError | BrokerErrorCode::InternalError => stopped,
            BrokerErrorCode::InvalidRequest
            | BrokerErrorCode::NotFound
            | BrokerErrorCode::Conflict
            | BrokerErrorCode::CapacityExceeded
            | BrokerErrorCode::StaleFence
            | BrokerErrorCode::TransportError
            | BrokerErrorCode::CommitOutcomeUnknown => !stopped,
        },
{
}

/// No refusal for the rules of the Broker stops an adapter.
pub proof fn law_refusals_stop_no_adapter(
    kind: StateMachineErrorKind,
    code: BrokerErrorCode,
    error: BrokerError,
    stopped: bool,
)
    requires
        call_ensures(state_machine_error_code, (kind,), code),
        call_ensures(should_poison, (&error,), stopped),
        error@.code == code,
        code != BrokerErrorCode::InternalError,
    ensures
        !stopped,
{
}

/// A stopped adapter answers with a failure of the durable state and changes nothing. One that runs
/// is stopped by no success, and by no error of an answered command but two.
pub proof fn law_how_adapters_stop<K: ClusterController>(command: BrokerCommand)
    ensures
        forall|
            adapter: &mut ClusterRaftConsensusAdapter<K>,
            answer: Result<BrokerMutationResult, BrokerError>,
        | #[trigger]
            call_ensures(ClusterRaftConsensusAdapter::<K>::propose, (adapter, command), answer)
                ==> {
                &&& adapter.spec_fail_stopped() ==> *final(adapter) == *adapter && (
                answer matches Err(error) && error@.code == BrokerErrorCode::PersistenceError)
                &&& answer is Ok ==> !final(adapter).spec_fail_stopped()
                &&& !adapter.spec_fail_stopped() && command is AdvanceTerm ==> *final(adapter)
                    == *adapter && answer is Err
            },
{
}

/// What follows an attempt: a stored outcome is acknowledged, a rejection released, and an unknown
/// outcome sent again while attempts are left.
pub proof fn law_what_follows_an_attempt(
    outcome: Result<SuccessPayload, ClientError>,
    attempt: usize,
    max_attempts: usize,
    decision: AttemptDecision,
)
    requires
        call_ensures(decide_attempt, (&outcome, attempt, max_attempts), decision),
    ensures
        outcome is Ok ==> decision == AttemptDecision::Acknowledge,
        outcome matches Err(ClientError::Transport(_)) ==> decision == (if attempt < max_attempts {
            AttemptDecision::Retry
        } else {
            AttemptDecision::Report
        }),
        outcome matches Err(ClientError::Broker(error)) ==> decision == (
        match error@.disposition {
            BrokerErrorDisposition::Committed => AttemptDecision::Acknowledge,
            BrokerErrorDisposition::Rejected => AttemptDecision::Release,
            BrokerErrorDisposition::Unknown => if attempt < max_attempts {
                AttemptDecision::Retry
            } else {
                AttemptDecision::Report
            },
        }),
{
}

/// Another leader is looked for exactly when the outcome of the exchange is unknown.
pub proof fn law_when_another_leader_is_looked_for(error: ClientError, again: bool)
    requires
        call_ensures(should_rediscover, (&error,), again),
    ensures
        again <==> match error {
            ClientError::Transport(_) => true,
            ClientError::Broker(refusal) => refusal@.disposition == BrokerErrorDisposition::Unknown,
            _ => false,
        },
{
}

} // verus!
