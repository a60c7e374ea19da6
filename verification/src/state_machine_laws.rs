//! What holds of the replicated state machine and of its snapshots.
use crate::broker::{AppliedCommand, BrokerStateMachine};
use crate::command_identity::{CommandSessionId, IdentityView, SessionOwnerInstanceId};
use crate::command_sessions::SessionView;
use crate::domain::{Revision, Term};
use crate::engine_laws::ends_with;
use crate::error::{stable_code, BrokerErrorDisposition, StateMachineError};
use crate::raft_state_machine::{
    acquisition_finding, is_acquisition_step, is_broker_response, is_identified_step,
    is_plain_answer, is_proposal_step, is_whole_answer, position_index, reaches_broker, shows,
    LogPosition, RaftBrokerObservation, StateMachineDataError,
};
use crate::replicated_command::{client_request, decode_finding, WireCommand};
use crate::replicated_proposal::{durable_identity, identity_finding, ReplicatedBrokerProposalV1};
use crate::replicated_response::{
    application_code, encodes_result, normalized_outcome, response_finding,
    ReplicatedBrokerResponseV1,
};
use crate::session_snapshot::{
    durable_session, outcome_finding, record_finding, record_list, restorable, restored_session,
    restored_sessions, restored_snapshot, CommandSessionsSnapshotV1, RecordView,
};
use crate::snapshot_store::{is_restored_list, snapshot_id_text};
use crate::text::decimal;
use vstd::prelude::*;

verus! {

/// What the Broker answers is committed as it is: a result in its durable form, and a refusal with
/// the code of its kind and its own text, as committed.
pub proof fn law_broker_answers_are_committed<D>(
    result: Result<AppliedCommand<D>, StateMachineError>,
    response: ReplicatedBrokerResponseV1,
)
    requires
        is_broker_response(result, response),
    ensures
        match (result, response) {
            (Ok(applied), ReplicatedBrokerResponseV1::Success(wire)) => encodes_result(
                applied.result,
                wire,
            ),
            (Err(refused), ReplicatedBrokerResponseV1::ApplicationError(stored)) => {
                &&& application_code(stored.code) == stable_code(refused.kind)
                &&& stored.message@ == refused.message@
                &&& stored.disposition == BrokerErrorDisposition::Committed
            },
            _ => false,
        },
{
}

/// A stored acquisition can be carried out exactly when its session and its instance are named
/// properly and it expects a positive epoch.
pub proof fn law_which_acquisitions_can_be_carried_out(
    session_id: Seq<char>,
    expected_owner_epoch: u64,
    owner_instance_id: Seq<char>,
)
    ensures
        acquisition_finding(session_id, expected_owner_epoch, owner_instance_id) is None <==> {
            &&& CommandSessionId::flaw(session_id) is None
            &&& expected_owner_epoch > 0
            &&& SessionOwnerInstanceId::flaw(owner_instance_id) is None
        },
{
}

/// A command without an identity leaves every session as it is, unless it acquires one.
pub proof fn law_plain_commands_leave_the_sessions(
    before: Map<Seq<char>, SessionView>,
    proposal: ReplicatedBrokerProposalV1,
    after: Map<Seq<char>, SessionView>,
    answer: Result<ReplicatedBrokerResponseV1, StateMachineDataError>,
)
    requires
        proposal.identity is None,
        !(proposal.command@ is AcquireCommandSessionOwner),
        is_proposal_step(before, proposal, after, answer),
    ensures
        after == before,
        answer is Ok <==> decode_finding(proposal.command@) is None,
{
}

/// An identified command touches no session but its own, and whatever fails to be applied leaves
/// all sessions as they are.
pub proof fn law_identified_commands_touch_one_session(
    before: Map<Seq<char>, SessionView>,
    identity: IdentityView,
    command: WireCommand,
    after: Map<Seq<char>, SessionView>,
    answer: Result<ReplicatedBrokerResponseV1, StateMachineDataError>,
    other: Seq<char>,
)
    requires
        is_identified_step(before, identity, command, after, answer),
        other != identity.session_id,
    ensures
        after.contains_key(other) == before.contains_key(other),
        before.contains_key(other) ==> after[other] == before[other],
        answer is Err ==> after == before,
{
}

/// After an applied command its session is held by its owner, with the sequence, the command and
/// the answer as they were.
pub proof fn law_applied_commands_are_recorded(
    before: Map<Seq<char>, SessionView>,
    identity: IdentityView,
    command: WireCommand,
    after: Map<Seq<char>, SessionView>,
    response: ReplicatedBrokerResponseV1,
)
    requires
        is_identified_step(before, identity, command, after, Ok(response)),
        after != before,
    ensures
        after.contains_key(identity.session_id),
        after[identity.session_id].owner_epoch == identity.owner_epoch,
        after[identity.session_id].owner_instance_id == identity.owner_instance_id,
        after[identity.session_id].last_outcome matches Some(outcome) && outcome.sequence
            == identity.sequence && outcome.command == command && outcome.response == response,
        decode_finding(command) is None,
{
}

/// An exact retry of the last command of a session is answered as the first time, and changes
/// nothing.
pub proof fn law_retries_are_answered_as_before(
    before: Map<Seq<char>, SessionView>,
    identity: IdentityView,
    command: WireCommand,
    after: Map<Seq<char>, SessionView>,
    answer: Result<ReplicatedBrokerResponseV1, StateMachineDataError>,
)
    requires
        is_identified_step(before, identity, command, after, answer),
        before.contains_key(identity.session_id),
        before[identity.session_id].owner_epoch == identity.owner_epoch,
        before[identity.session_id].owner_instance_id == identity.owner_instance_id,
        before[identity.session_id].last_outcome matches Some(outcome) && outcome.sequence
            == identity.sequence && client_request(outcome.command) == client_request(command),
    ensures
        after == before,
        answer == Ok::<_, StateMachineDataError>(
            before[identity.session_id].last_outcome->0.response,
        ),
{
}

/// An identity that is none is refused before anything else is looked at.
pub proof fn law_improper_identities_are_refused(
    before: Map<Seq<char>, SessionView>,
    proposal: ReplicatedBrokerProposalV1,
    after: Map<Seq<char>, SessionView>,
    answer: Result<ReplicatedBrokerResponseV1, StateMachineDataError>,
)
    requires
        proposal.identity matches Some(identity) && identity_finding(durable_identity(identity))
            is Some,
        is_proposal_step(before, proposal, after, answer),
    ensures
        after == before,
        answer is Err,
        !reaches_broker(before, proposal),
{
}

/// An acquisition never reaches the Broker, and one that carries an identity is refused.
pub proof fn law_acquisitions_stay_with_the_sessions(
    before: Map<Seq<char>, SessionView>,
    proposal: ReplicatedBrokerProposalV1,
    after: Map<Seq<char>, SessionView>,
    answer: Result<ReplicatedBrokerResponseV1, StateMachineDataError>,
)
    requires
        proposal.command@ is AcquireCommandSessionOwner,
        is_proposal_step(before, proposal, after, answer),
    ensures
        !reaches_broker(before, proposal),
        proposal.identity is Some ==> answer is Err && after == before,
{
}

/// An acquisition touches no session but its own.
pub proof fn law_acquisitions_touch_one_session(
    before: Map<Seq<char>, SessionView>,
    session_id: Seq<char>,
    expected_owner_epoch: u64,
    owner_instance_id: Seq<char>,
    after: Map<Seq<char>, SessionView>,
    answer: Result<ReplicatedBrokerResponseV1, StateMachineDataError>,
    other: Seq<char>,
)
    requires
        is_acquisition_step(
            before,
            session_id,
            expected_owner_epoch,
            owner_instance_id,
            after,
            answer,
        ),
        other != session_id,
    ensures
        after.contains_key(other) == before.contains_key(other),
        before.contains_key(other) ==> after[other] == before[other],
{
}

/// A granted acquisition leaves its instance as the owner at the epoch that it is told, and that
/// epoch is the expected one or the next.
pub proof fn law_granted_acquisitions_name_the_owner(
    before: Map<Seq<char>, SessionView>,
    session_id: Seq<char>,
    expected_owner_epoch: u64,
    owner_instance_id: Seq<char>,
    after: Map<Seq<char>, SessionView>,
    owner_epoch: u64,
)
    requires
        is_acquisition_step(
            before,
            session_id,
            expected_owner_epoch,
            owner_instance_id,
            after,
            Ok(ReplicatedBrokerResponseV1::SessionOwnerAcquired { owner_epoch }),
        ),
    ensures
        after.contains_key(session_id),
        after[session_id].owner_epoch == owner_epoch,
        after[session_id].owner_instance_id == Some(owner_instance_id),
        owner_epoch == expected_owner_epoch || owner_epoch == expected_owner_epoch + 1,
{
}

/// A refused acquisition changes nothing and is told as rejected.
pub proof fn law_refused_acquisitions_are_rejected(
    before: Map<Seq<char>, SessionView>,
    session_id: Seq<char>,
    expected_owner_epoch: u64,
    owner_instance_id: Seq<char>,
    after: Map<Seq<char>, SessionView>,
    response: ReplicatedBrokerResponseV1,
)
    requires
        is_acquisition_step(
            before,
            session_id,
            expected_owner_epoch,
            owner_instance_id,
            after,
            Ok(response),
        ),
        !(response is SessionOwnerAcquired),
    ensures
        after == before,
        response matches ReplicatedBrokerResponseV1::ApplicationError(error) && error.disposition
            == BrokerErrorDisposition::Rejected,
{
}

/// A proposal reaches the Broker exactly when its command can be applied and, where it carries an
/// identity, that is a proper one and the next of its session's owner, or the first of a new
/// session.
pub proof fn law_which_proposals_reach_the_broker(
    before: Map<Seq<char>, SessionView>,
    proposal: ReplicatedBrokerProposalV1,
)
    ensures
        reaches_broker(before, proposal) <==> {
            &&& decode_finding(proposal.command@) is None
            &&& proposal.identity matches Some(stored) ==> ({
                let identity = durable_identity(stored);
                &&& identity_finding(identity) is None
                &&& if before.contains_key(identity.session_id) {
                    let record = before[identity.session_id];
                    &&& record.owner_epoch == identity.owner_epoch
                    &&& record.owner_instance_id == identity.owner_instance_id
                    &&& match record.last_outcome {
                        Some(outcome) => outcome.sequence < identity.sequence,
                        None => identity.sequence == 1,
                    }
                } else {
                    identity.owner_epoch == 1 && identity.owner_instance_id is None
                        && before.dom().len() < 4096
                }
            })
        },
{
}

/// A position is known by its index.
pub proof fn law_positions_are_known_by_their_index(position: Option<LogPosition>)
    ensures
        (position_index(position) is Some) == (position is Some),
        position matches Some(value) ==> position_index(position) == Some(value.index),
{
}

/// The durable form of a session holds every value of it.
pub proof fn law_durable_sessions_keep_every_value(session_id: Seq<char>, session: SessionView)
    ensures
        ({
            let record = durable_session(session_id, session);
            &&& record.session_id == session_id
            &&& record.owner_epoch == session.owner_epoch
            &&& record.owner_instance_id == session.owner_instance_id
            &&& match session.last_outcome {
                Some(outcome) => record.sequence == Some(outcome.sequence) && record.command
                    == Some(outcome.command) && record.response == Some(outcome.response),
                None => record.sequence is None && record.command is None && record.response
                    is None,
            }
        }),
{
}

/// A restored session has the epoch, the instance and the last outcome of its durable form.
pub proof fn law_restored_sessions_keep_every_value(record: RecordView)
    requires
        record_finding(record) is None,
    ensures
        ({
            let session = restored_session(record);
            &&& session.owner_epoch == record.owner_epoch
            &&& session.owner_instance_id == record.owner_instance_id
            &&& match session.last_outcome {
                Some(outcome) => record.sequence == Some(outcome.sequence) && record.command
                    == Some(outcome.command) && record.response is Some && outcome.response
                    == normalized_outcome(record.response->0),
                None => record.sequence is None && record.command is None && record.response
                    is None,
            }
        }),
{
}

/// A durable session can be restored exactly when its names are proper, its epoch is positive, and
/// its last outcome is missing altogether or whole: a positive sequence, a command that can be
/// applied and an answer that can be told.
pub proof fn law_which_durable_sessions_can_be_restored(record: RecordView)
    ensures
        record_finding(record) is None <==> {
            &&& CommandSessionId::flaw(record.session_id) is None
            &&& record.owner_epoch > 0
            &&& record.owner_instance_id matches Some(text) ==> SessionOwnerInstanceId::flaw(text)
                is None
            &&& match (record.sequence, record.command, record.response) {
                (None, None, None) => true,
                (Some(sequence), Some(command), Some(response)) => {
                    &&& sequence > 0
                    &&& decode_finding(command) is None
                    &&& response_finding(normalized_outcome(response)) is None
                },
                _ => false,
            }
        },
        outcome_finding(None, None, None) is None,
{
}

/// Restoring a list gives every session in it, once, and no other.
pub proof fn law_restored_lists_hold_every_session(records: Seq<RecordView>)
    requires
        restored_sessions(records) is Ok,
    ensures
        forall|i: int|
            0 <= i < records.len() ==> {
                let sessions = restored_sessions(records)->Ok_0;
                &&& record_finding(#[trigger] records[i]) is None
                &&& sessions.contains_key(records[i].session_id)
                &&& sessions[records[i].session_id] == restored_session(records[i])
            },
        forall|i: int, j: int|
            0 <= i < j < records.len() ==> (#[trigger] records[i]).session_id != (
            #[trigger] records[j]).session_id,
        forall|id: Seq<char>| #[trigger]
            restored_sessions(records)->Ok_0.contains_key(id) ==> exists|i: int|
                0 <= i < records.len() && (#[trigger] records[i]).session_id == id,
    decreases records.len(),
{
    if records.len() > 0 {
        let rest = records.drop_last();
        law_restored_lists_hold_every_session(rest);
        let sessions = restored_sessions(rest)->Ok_0;
        assert forall|i: int, j: int| 0 <= i < j < records.len() implies (
        #[trigger] records[i]).session_id != (#[trigger] records[j]).session_id by {
            assert(rest[i] == records[i]);
            if j < rest.len() {
                assert(rest[j] == records[j]);
            }
        }
        assert forall|i: int| 0 <= i < records.len() implies {
            let all = restored_sessions(records)->Ok_0;
            &&& record_finding(#[trigger] records[i]) is None
            &&& all.contains_key(records[i].session_id)
            &&& all[records[i].session_id] == restored_session(records[i])
        } by {
            if i < rest.len() {
                assert(rest[i] == records[i]);
                assert(records[i].session_id != records[records.len() - 1].session_id);
            }
        }
        assert forall|id: Seq<char>| #[trigger]
            restored_sessions(records)->Ok_0.contains_key(id) implies exists|i: int|
            0 <= i < records.len() && (#[trigger] records[i]).session_id == id by {
            if sessions.contains_key(id) {
                let i = choose|i: int|
                    0 <= i < rest.len() && (#[trigger] rest[i]).session_id == id;
                assert(records[i].session_id == id);
            } else {
                assert(records[records.len() - 1].session_id == id);
            }
        }
    }
}

/// A list of proper sessions with different names can be restored.
pub proof fn law_proper_lists_can_be_restored(records: Seq<RecordView>)
    requires
        forall|i: int| 0 <= i < records.len() ==> record_finding(#[trigger] records[i]) is None,
        forall|i: int, j: int|
            0 <= i < j < records.len() ==> (#[trigger] records[i]).session_id != (
            #[trigger] records[j]).session_id,
    ensures
        restored_sessions(records) is Ok,
        records.len() <= 4096 ==> restored_snapshot(1, records) is Ok,
    decreases records.len(),
{
    if records.len() > 0 {
        let rest = records.drop_last();
        assert forall|i: int| 0 <= i < rest.len() implies record_finding(#[trigger] rest[i])
            is None by {
            assert(rest[i] == records[i]);
        }
        assert forall|i: int, j: int| 0 <= i < j < rest.len() implies (
        #[trigger] rest[i]).session_id != (#[trigger] rest[j]).session_id by {
            assert(rest[i] == records[i] && rest[j] == records[j]);
        }
        law_proper_lists_can_be_restored(rest);
        law_restored_lists_hold_every_session(rest);
        let last = records[records.len() - 1];
        assert(last == records.last());
        if restored_sessions(rest)->Ok_0.contains_key(last.session_id) {
            let i = choose|i: int|
                0 <= i < rest.len() && (#[trigger] rest[i]).session_id == last.session_id;
            assert(records[i].session_id == last.session_id);
        }
    }
}

/// A snapshot of another version, or with more sessions than can be held, is refused.
pub proof fn law_which_snapshots_are_refused(version: u32, records: Seq<RecordView>)
    ensures
        version != 1 || records.len() > 4096 ==> restored_snapshot(version, records) is Err,
        version == 1 && records.len() <= 4096 ==> restored_snapshot(version, records)
            == restored_sessions(records),
{
}

/// A snapshot without a list of sessions restores none, one that cannot be read is refused with its
/// own words, and any other restores what it lists.
pub proof fn law_what_snapshot_lists_restore(
    list: Option<Result<CommandSessionsSnapshotV1, String>>,
    r: Result<Map<Seq<char>, SessionView>, Seq<char>>,
)
    requires
        is_restored_list(list, r),
    ensures
        match list {
            None => r matches Ok(sessions) && sessions == Map::<Seq<char>, SessionView>::empty(),
            Some(Err(error)) => r == Err::<Map<Seq<char>, SessionView>, _>(error@),
            Some(Ok(snapshot)) => r == restored_snapshot(
                snapshot.version,
                record_list(snapshot.records@),
            ),
        },
{
}

/// A session that can be restored has proper names, a positive epoch and a proper last outcome.
pub proof fn law_which_sessions_can_be_restored(session_id: Seq<char>, session: SessionView)
    ensures
        restorable(session_id, session) ==> record_finding(durable_session(session_id, session))
            is None && restored_session(durable_session(session_id, session)) == session,
{
}

/// The id of a snapshot ends with its revision, and starts with the term of the leader whose entry
/// was applied last.
pub proof fn law_snapshot_ids_name_their_position(
    last_applied: Option<LogPosition>,
    revision: u64,
)
    ensures
        ends_with(snapshot_id_text(last_applied, revision), "-"@ + decimal(revision as nat))
            || last_applied is None,
        ends_with(snapshot_id_text(last_applied, revision), decimal(revision as nat)),
        last_applied matches Some(position) ==> ({
            let text = snapshot_id_text(last_applied, revision);
            let start = "agent-broker-T"@ + decimal(position.leader_term as nat) + "-N"@ + decimal(
                position.leader_node_id as nat,
            ) + "-"@ + decimal(position.index as nat);
            text.len() > start.len() && text.take(start.len() as int) == start
        }),
{
    reveal_strlit("-");
    let text = snapshot_id_text(last_applied, revision);
    let end = decimal(revision as nat);
    assert(text.skip(text.len() - end.len()) =~= end);
    if let Some(position) = last_applied {
        let whole = "-"@ + end;
        assert(text.skip(text.len() - whole.len()) =~= whole);
        let start = "agent-broker-T"@ + decimal(position.leader_term as nat) + "-N"@ + decimal(
            position.leader_node_id as nat,
        ) + "-"@ + decimal(position.index as nat);
        assert(text.take(start.len() as int) =~= start);
        assert(whole.len() > 0);
    }
}

/// A command that is admitted but cannot be applied is refused with what was found in it, and a
/// plain command alike.
pub proof fn law_unreadable_commands_are_refused_with_their_finding(
    before: Map<Seq<char>, SessionView>,
    identity: IdentityView,
    command: WireCommand,
    after: Map<Seq<char>, SessionView>,
    error: StateMachineDataError,
)
    ensures
        is_identified_step(before, identity, command, after, Err(error)) ==> decode_finding(command)
            == Some(error@) && after == before,
        is_plain_answer(command, Err(error)) ==> decode_finding(command) == Some(error@),
{
}

/// A plain command is answered exactly when it can be applied.
pub proof fn law_plain_commands_are_answered_when_applicable(
    command: WireCommand,
    answer: Result<ReplicatedBrokerResponseV1, StateMachineDataError>,
)
    requires
        is_plain_answer(command, answer),
    ensures
        answer is Ok <==> decode_finding(command) is None,
{
}

/// A refused proposal says what is wrong with its identity, its acquisition or its command.
pub proof fn law_refused_proposals_say_what_is_wrong(
    before: Map<Seq<char>, SessionView>,
    proposal: ReplicatedBrokerProposalV1,
    after: Map<Seq<char>, SessionView>,
    error: StateMachineDataError,
)
    requires
        is_proposal_step(before, proposal, after, Err(error)),
    ensures
        after == before,
        proposal.identity matches Some(stored) && identity_finding(durable_identity(stored)) is Some
            ==> identity_finding(durable_identity(proposal.identity->0)) == Some(error@),
        proposal.identity is None && !(proposal.command@ is AcquireCommandSessionOwner)
            ==> decode_finding(proposal.command@) == Some(error@),
{
}

/// A whole answer is no success that could not be told.
pub proof fn law_whole_answers_can_be_told(
    answer: Result<ReplicatedBrokerResponseV1, StateMachineDataError>,
)
    requires
        is_whole_answer(answer),
        answer matches Ok(ReplicatedBrokerResponseV1::Success(_)),
    ensures
        response_finding(answer->Ok_0) is None,
{
}

/// An observation shows the term and the revision that the Broker has, and the index that was
/// applied last.
pub proof fn law_observations_show_the_broker<B: BrokerStateMachine>(
    observation: RaftBrokerObservation,
    broker: B,
    applied_index: Option<u64>,
)
    requires
        shows(observation, broker, applied_index),
    ensures
        observation.spec_applied_index() == applied_index,
        exists|term: Term| #[trigger]
            call_ensures(B::term, (&broker,), term) && term@ == observation.spec_term(),
        exists|revision: Revision| #[trigger]
            call_ensures(B::revision, (&broker,), revision) && revision@
                == observation.spec_revision(),
{
}

} // verus!
