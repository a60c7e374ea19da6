//! Laws of the command sessions: exact retry, fencing and bounded growth.
use crate::command_identity::IdentityView;
use crate::command_sessions::{OutcomeView, SessionView, MAX_COMMAND_SESSIONS};
use crate::error::{BrokerErrorCode, BrokerErrorDisposition};
use crate::replicated_command::{client_request, WireCommand};
use crate::replicated_response::{application_code, ReplicatedBrokerResponseV1};
use crate::session_rules::{
    acquired_sessions, acquisition, admission, answers_acquisition, committed_record,
    content_conflict_text, decides, fresh_owner, older_sequence_text, restart_text,
    stale_expectation_text, AcquisitionView, AdmissionView, IdentifiedDecision,
};
use vstd::prelude::*;

verus! {

/// The sessions after a command was applied under an identity.
pub open spec fn committed_sessions(
    sessions: Map<Seq<char>, SessionView>,
    identity: IdentityView,
    command: WireCommand,
    response: ReplicatedBrokerResponseV1,
) -> Map<Seq<char>, SessionView> {
    sessions.insert(identity.session_id, committed_record(identity, command, response))
}

/// At most the permitted number of sessions is held.
pub open spec fn within_capacity(sessions: Map<Seq<char>, SessionView>) -> bool {
    sessions.dom().finite() && sessions.dom().len() <= MAX_COMMAND_SESSIONS
}

/// An identity speaks for the current owner of its session.
pub open spec fn speaks_for_owner(
    sessions: Map<Seq<char>, SessionView>,
    identity: IdentityView,
) -> bool {
    &&& sessions.dom().contains(identity.session_id)
    &&& sessions[identity.session_id].owner_epoch == identity.owner_epoch
    &&& sessions[identity.session_id].owner_instance_id == identity.owner_instance_id
}

/// After a command was committed, a retry with the same identity and the same client request gets
/// exactly the committed response, and nothing is applied again.
pub proof fn law_exact_retry_replays_committed_response(
    sessions: Map<Seq<char>, SessionView>,
    identity: IdentityView,
    command: WireCommand,
    response: ReplicatedBrokerResponseV1,
    retry: WireCommand,
)
    requires
        client_request(retry) == client_request(command),
    ensures
        admission(committed_sessions(sessions, identity, command, response), identity, retry)
            == AdmissionView::Replay(response),
{
}

/// After a command was committed, the same identity with another client request conflicts.
pub proof fn law_changed_request_conflicts(
    sessions: Map<Seq<char>, SessionView>,
    identity: IdentityView,
    command: WireCommand,
    response: ReplicatedBrokerResponseV1,
    changed: WireCommand,
)
    requires
        client_request(changed) != client_request(command),
    ensures
        admission(committed_sessions(sessions, identity, command, response), identity, changed)
            == AdmissionView::Reject(BrokerErrorCode::Conflict, content_conflict_text(identity)),
{
}

/// After a command was committed, an earlier sequence of the same owner is fenced.
pub proof fn law_older_sequence_is_fenced(
    sessions: Map<Seq<char>, SessionView>,
    identity: IdentityView,
    command: WireCommand,
    response: ReplicatedBrokerResponseV1,
    older: IdentityView,
    late: WireCommand,
)
    requires
        older == (IdentityView { sequence: older.sequence, ..identity }),
        older.sequence < identity.sequence,
    ensures
        admission(committed_sessions(sessions, identity, command, response), older, late)
            == AdmissionView::Reject(
            BrokerErrorCode::StaleFence,
            older_sequence_text(older, identity.sequence),
        ),
{
}

/// Only the current owner of an existing session is ever admitted; anyone else is fenced.
pub proof fn law_only_the_owner_is_admitted(
    sessions: Map<Seq<char>, SessionView>,
    identity: IdentityView,
    command: WireCommand,
)
    requires
        sessions.dom().contains(identity.session_id),
        !speaks_for_owner(sessions, identity),
    ensures
        admission(sessions, identity, command) matches AdmissionView::Reject(code, _) && code
            == BrokerErrorCode::StaleFence,
{
}

/// Within one ownership the applied sequences ascend strictly.
pub proof fn law_applied_sequences_ascend(
    sessions: Map<Seq<char>, SessionView>,
    identity: IdentityView,
    command: WireCommand,
)
    requires
        sessions.dom().contains(identity.session_id),
        admission(sessions, identity, command) is Apply,
    ensures
        speaks_for_owner(sessions, identity),
        match sessions[identity.session_id].last_outcome {
            Some(outcome) => identity.sequence > outcome.sequence,
            None => identity.sequence == 1,
        },
{
}

/// Acquiring again with the same expectation and instance returns the epoch that was already
/// committed and changes nothing.
pub proof fn law_acquisition_retry_is_idempotent(
    sessions: Map<Seq<char>, SessionView>,
    session_id: Seq<char>,
    expected: u64,
    instance: Seq<char>,
)
    requires
        !(acquisition(sessions, session_id, expected, instance) is Reject),
    ensures
        ({
            let after = acquired_sessions(sessions, session_id, expected, instance);
            &&& acquisition(after, session_id, expected, instance) == AcquisitionView::Confirm(
                after[session_id].owner_epoch,
            )
            &&& acquired_sessions(after, session_id, expected, instance) == after
            &&& after[session_id].owner_instance_id == Some(instance)
            &&& match acquisition(sessions, session_id, expected, instance) {
                AcquisitionView::Bootstrap => after[session_id].owner_epoch == 1,
                AcquisitionView::Advance(epoch) => after[session_id].owner_epoch == epoch,
                AcquisitionView::Confirm(epoch) => after[session_id].owner_epoch == epoch,
                AcquisitionView::Reject(_, _) => false,
            }
        }),
{
}

/// Once ownership has passed on, every identity of the previous owner is fenced, whatever its
/// sequence, and so is every other instance at the new epoch.
pub proof fn law_acquisition_fences_everyone_else(
    sessions: Map<Seq<char>, SessionView>,
    session_id: Seq<char>,
    expected: u64,
    instance: Seq<char>,
    identity: IdentityView,
    command: WireCommand,
)
    requires
        acquisition(sessions, session_id, expected, instance) is Advance,
        identity.session_id == session_id,
        identity.owner_epoch == expected || identity.owner_instance_id != Some(instance),
    ensures
        admission(
            acquired_sessions(sessions, session_id, expected, instance),
            identity,
            command,
        ) matches AdmissionView::Reject(code, _) && code == BrokerErrorCode::StaleFence,
{
}

/// A fresh owner starts its sequence at one and at nothing else.
pub proof fn law_fresh_owner_restarts_at_one(
    sessions: Map<Seq<char>, SessionView>,
    session_id: Seq<char>,
    expected: u64,
    instance: Seq<char>,
    identity: IdentityView,
    command: WireCommand,
)
    requires
        acquisition(sessions, session_id, expected, instance) is Bootstrap || acquisition(
            sessions,
            session_id,
            expected,
            instance,
        ) is Advance,
        speaks_for_owner(acquired_sessions(sessions, session_id, expected, instance), identity),
        identity.session_id == session_id,
    ensures
        ({
            let after = acquired_sessions(sessions, session_id, expected, instance);
            if identity.sequence == 1 {
                admission(after, identity, command) is Apply
            } else {
                admission(after, identity, command) == AdmissionView::Reject(
                    BrokerErrorCode::StaleFence,
                    restart_text(identity),
                )
            }
        }),
{
}

/// A contender that still expects the previous epoch is fenced after ownership has passed on.
pub proof fn law_stale_contender_is_fenced(
    sessions: Map<Seq<char>, SessionView>,
    session_id: Seq<char>,
    expected: u64,
    instance: Seq<char>,
    contender: Seq<char>,
)
    requires
        acquisition(sessions, session_id, expected, instance) is Advance,
        contender != instance,
    ensures
        ({
            let after = acquired_sessions(sessions, session_id, expected, instance);
            &&& acquisition(after, session_id, expected, contender) == AcquisitionView::Reject(
                BrokerErrorCode::StaleFence,
                stale_expectation_text(session_id, expected, after[session_id].owner_epoch),
            )
            &&& acquired_sessions(after, session_id, expected, contender) == after
        }),
{
}

/// Ownership epochs advance by one step at most and never go back; sessions are never dropped and
/// other sessions are left alone.
pub proof fn law_acquisition_advances_one_step(
    sessions: Map<Seq<char>, SessionView>,
    session_id: Seq<char>,
    expected: u64,
    instance: Seq<char>,
    other: Seq<char>,
)
    ensures
        ({
            let after = acquired_sessions(sessions, session_id, expected, instance);
            &&& sessions.dom().contains(session_id) ==> after.dom().contains(session_id)
                && sessions[session_id].owner_epoch <= after[session_id].owner_epoch
                <= sessions[session_id].owner_epoch + 1
            &&& other != session_id ==> (sessions.dom().contains(other) <==> after.dom().contains(
                other,
            )) && (sessions.dom().contains(other) ==> after[other] == sessions[other])
        }),
{
}

/// A committed command keeps the owner of its session and leaves other sessions alone.
pub proof fn law_commit_keeps_ownership(
    sessions: Map<Seq<char>, SessionView>,
    identity: IdentityView,
    command: WireCommand,
    response: ReplicatedBrokerResponseV1,
    other: Seq<char>,
)
    requires
        admission(sessions, identity, command) is Apply,
    ensures
        ({
            let after = committed_sessions(sessions, identity, command, response);
            &&& speaks_for_owner(after, identity)
            &&& sessions.dom().contains(identity.session_id) ==> speaks_for_owner(
                sessions,
                identity,
            )
            &&& other != identity.session_id ==> (sessions.dom().contains(other)
                <==> after.dom().contains(other)) && (sessions.dom().contains(other)
                ==> after[other] == sessions[other])
        }),
{
}

/// The number of sessions stays within its bound under every command and acquisition.
pub proof fn law_sessions_stay_within_capacity(
    sessions: Map<Seq<char>, SessionView>,
    identity: IdentityView,
    command: WireCommand,
    response: ReplicatedBrokerResponseV1,
    session_id: Seq<char>,
    expected: u64,
    instance: Seq<char>,
)
    requires
        within_capacity(sessions),
    ensures
        admission(sessions, identity, command) is Apply ==> within_capacity(
            committed_sessions(sessions, identity, command, response),
        ),
        within_capacity(acquired_sessions(sessions, session_id, expected, instance)),
{
    if sessions.dom().contains(identity.session_id) {
        assert(committed_sessions(sessions, identity, command, response).dom() =~= sessions.dom());
    }
    if sessions.dom().contains(session_id) {
        assert(acquired_sessions(sessions, session_id, expected, instance).dom()
            =~= sessions.dom());
    }
}

/// A session can be created by an acquisition alone: its owner holds the initial epoch and no
/// command was needed.
pub proof fn law_acquisition_bootstraps_a_session(
    sessions: Map<Seq<char>, SessionView>,
    session_id: Seq<char>,
    instance: Seq<char>,
)
    requires
        !sessions.dom().contains(session_id),
        sessions.dom().len() < MAX_COMMAND_SESSIONS,
    ensures
        acquisition(sessions, session_id, 1, instance) is Bootstrap,
        acquired_sessions(sessions, session_id, 1, instance)[session_id] == fresh_owner(
            1,
            instance,
        ),
{
}

/// The owner's next sequence is applied, whatever the command is and whether or not the session has
/// an owner instance.
pub proof fn law_next_sequence_of_the_owner_is_applied(
    sessions: Map<Seq<char>, SessionView>,
    identity: IdentityView,
    command: WireCommand,
    last: OutcomeView,
)
    requires
        sessions.contains_key(identity.session_id),
        sessions[identity.session_id].owner_epoch == identity.owner_epoch,
        sessions[identity.session_id].owner_instance_id == identity.owner_instance_id,
        sessions[identity.session_id].last_outcome == Some(last),
        identity.sequence > last.sequence,
    ensures
        admission(sessions, identity, command) == AdmissionView::Apply,
{
}

/// After a commit, every later sequence of the same owner is applied.
pub proof fn law_a_commit_is_followed_by_later_sequences(
    sessions: Map<Seq<char>, SessionView>,
    identity: IdentityView,
    command: WireCommand,
    response: ReplicatedBrokerResponseV1,
    later: IdentityView,
    next: WireCommand,
)
    requires
        later.session_id == identity.session_id,
        later.owner_epoch == identity.owner_epoch,
        later.owner_instance_id == identity.owner_instance_id,
        later.sequence > identity.sequence,
    ensures
        admission(committed_sessions(sessions, identity, command, response), later, next)
            == AdmissionView::Apply,
{
}

/// A commit keeps exactly the identity, the command and the response, and touches one session.
pub proof fn law_a_commit_records_its_outcome(
    sessions: Map<Seq<char>, SessionView>,
    identity: IdentityView,
    command: WireCommand,
    response: ReplicatedBrokerResponseV1,
)
    ensures
        ({
            let after = committed_sessions(sessions, identity, command, response);
            let session = after[identity.session_id];
            &&& after.dom() == sessions.dom().insert(identity.session_id)
            &&& session.owner_epoch == identity.owner_epoch
            &&& session.owner_instance_id == identity.owner_instance_id
            &&& session.last_outcome matches Some(outcome)
            &&& outcome.sequence == identity.sequence
            &&& outcome.command == command
            &&& outcome.response == response
            &&& forall|other: Seq<char>|
                other != identity.session_id && sessions.contains_key(other) ==> #[trigger]
                    after[other] == sessions[other]
        }),
{
}

/// A command opens a new session at the initial epoch without an owner instance, at any sequence,
/// as long as there is room. Nothing else opens one: a claimed epoch or instance is fenced, and a
/// full table is reported as such.
pub proof fn law_a_new_session_opens_without_an_owner(
    sessions: Map<Seq<char>, SessionView>,
    identity: IdentityView,
    command: WireCommand,
)
    requires
        !sessions.contains_key(identity.session_id),
    ensures
        identity.owner_epoch == 1 && identity.owner_instance_id is None && sessions.dom().len()
            < MAX_COMMAND_SESSIONS ==> admission(sessions, identity, command)
            == AdmissionView::Apply,
        identity.owner_epoch != 1 || identity.owner_instance_id is Some ==> (admission(
            sessions,
            identity,
            command,
        ) matches AdmissionView::Reject(code, _) && code == BrokerErrorCode::StaleFence),
        identity.owner_epoch == 1 && identity.owner_instance_id is None && sessions.dom().len()
            >= MAX_COMMAND_SESSIONS ==> (admission(sessions, identity, command) matches
            AdmissionView::Reject(code, _) && code == BrokerErrorCode::CapacityExceeded),
{
}

/// A response is replayed only to the identity that committed it with the same client request, and
/// it is the recorded one.
pub proof fn law_only_recorded_responses_are_replayed(
    sessions: Map<Seq<char>, SessionView>,
    identity: IdentityView,
    command: WireCommand,
)
    ensures
        match admission(sessions, identity, command) {
            AdmissionView::Replay(response) => {
                &&& sessions.contains_key(identity.session_id)
                &&& sessions[identity.session_id].owner_epoch == identity.owner_epoch
                &&& sessions[identity.session_id].owner_instance_id == identity.owner_instance_id
                &&& sessions[identity.session_id].last_outcome matches Some(outcome)
                &&& outcome.sequence == identity.sequence
                &&& outcome.response == response
                &&& client_request(outcome.command) == client_request(command)
            },
            AdmissionView::Reject(code, _) => {
                ||| code == BrokerErrorCode::StaleFence
                ||| code == BrokerErrorCode::Conflict
                ||| code == BrokerErrorCode::CapacityExceeded
            },
            AdmissionView::Apply => true,
        },
{
}

/// What becomes of a command of an existing session depends on that session alone, and whether it
/// is applied does not depend on the command.
pub proof fn law_admission_looks_at_one_session(
    sessions: Map<Seq<char>, SessionView>,
    others: Map<Seq<char>, SessionView>,
    identity: IdentityView,
    command: WireCommand,
    another: WireCommand,
)
    requires
        sessions.contains_key(identity.session_id),
        others.contains_key(identity.session_id),
        sessions[identity.session_id] == others[identity.session_id],
    ensures
        admission(sessions, identity, command) == admission(others, identity, command),
        admission(sessions, identity, command) is Apply <==> admission(
            sessions,
            identity,
            another,
        ) is Apply,
{
}

/// Whoever expects the authoritative epoch and is not the owner takes the session over at the next
/// epoch, whatever was committed before. The new owner starts without an outcome.
pub proof fn law_the_expected_epoch_takes_over(
    sessions: Map<Seq<char>, SessionView>,
    session_id: Seq<char>,
    instance: Seq<char>,
)
    requires
        sessions.contains_key(session_id),
        sessions[session_id].owner_epoch < u64::MAX,
        sessions[session_id].owner_instance_id != Some(instance),
    ensures
        ({
            let epoch = sessions[session_id].owner_epoch;
            let after = acquired_sessions(sessions, session_id, epoch, instance);
            &&& acquisition(sessions, session_id, epoch, instance) matches AcquisitionView::Advance(
                next,
            ) && next == epoch + 1
            &&& after.dom() == sessions.dom()
            &&& after[session_id].owner_epoch == epoch + 1
            &&& after[session_id].owner_instance_id == Some(instance)
            &&& after[session_id].last_outcome is None
            &&& forall|other: Seq<char>|
                other != session_id && sessions.contains_key(other) ==> #[trigger] after[other]
                    == sessions[other]
        }),
{
    let epoch = sessions[session_id].owner_epoch;
    assert(acquired_sessions(sessions, session_id, epoch, instance).dom() =~= sessions.dom());
}

/// The owner that asks again, with its own epoch or the one before, is confirmed at its epoch and
/// keeps its outcome.
pub proof fn law_the_owner_is_confirmed(
    sessions: Map<Seq<char>, SessionView>,
    session_id: Seq<char>,
    expected: u64,
    instance: Seq<char>,
)
    requires
        sessions.contains_key(session_id),
        sessions[session_id].owner_instance_id == Some(instance),
        sessions[session_id].owner_epoch == expected || sessions[session_id].owner_epoch == expected
            + 1,
    ensures
        acquisition(sessions, session_id, expected, instance) == AcquisitionView::Confirm(
            sessions[session_id].owner_epoch,
        ),
        acquired_sessions(sessions, session_id, expected, instance) == sessions,
{
}

/// An acquisition does not look at outcomes or at other sessions.
pub proof fn law_acquisition_looks_at_the_owner_alone(
    sessions: Map<Seq<char>, SessionView>,
    others: Map<Seq<char>, SessionView>,
    session_id: Seq<char>,
    expected: u64,
    instance: Seq<char>,
)
    requires
        sessions.contains_key(session_id),
        others.contains_key(session_id),
        sessions[session_id].owner_epoch == others[session_id].owner_epoch,
        sessions[session_id].owner_instance_id == others[session_id].owner_instance_id,
    ensures
        acquisition(sessions, session_id, expected, instance) == acquisition(
            others,
            session_id,
            expected,
            instance,
        ),
{
}

/// Any other expectation is fenced, a last epoch is exhausted, and neither changes a session.
pub proof fn law_refused_acquisitions_change_nothing(
    sessions: Map<Seq<char>, SessionView>,
    session_id: Seq<char>,
    expected: u64,
    instance: Seq<char>,
)
    requires
        sessions.contains_key(session_id),
    ensures
        sessions[session_id].owner_epoch != expected && !(sessions[session_id].owner_instance_id
            == Some(instance) && sessions[session_id].owner_epoch == expected + 1) ==> (
        acquisition(sessions, session_id, expected, instance) matches AcquisitionView::Reject(
            code,
            _,
        ) && code == BrokerErrorCode::StaleFence),
        sessions[session_id].owner_epoch == expected && expected == u64::MAX
            && sessions[session_id].owner_instance_id != Some(instance) ==> (acquisition(
            sessions,
            session_id,
            expected,
            instance,
        ) matches AcquisitionView::Reject(code, _) && code == BrokerErrorCode::CapacityExceeded),
        acquisition(sessions, session_id, expected, instance) is Reject ==> acquired_sessions(
            sessions,
            session_id,
            expected,
            instance,
        ) == sessions,
{
}

/// A new session is acquired at the initial epoch alone, as long as there is room, and then belongs
/// to its first owner without an outcome.
pub proof fn law_a_new_session_is_acquired_at_the_initial_epoch(
    sessions: Map<Seq<char>, SessionView>,
    session_id: Seq<char>,
    expected: u64,
    instance: Seq<char>,
)
    requires
        !sessions.contains_key(session_id),
    ensures
        ({
            let answer = acquisition(sessions, session_id, expected, instance);
            let after = acquired_sessions(sessions, session_id, expected, instance);
            if expected != 1 {
                &&& answer matches AcquisitionView::Reject(code, _) && code
                    == BrokerErrorCode::StaleFence
                &&& after == sessions
            } else if sessions.dom().len() >= MAX_COMMAND_SESSIONS {
                &&& answer matches AcquisitionView::Reject(code, _) && code
                    == BrokerErrorCode::CapacityExceeded
                &&& after == sessions
            } else {
                &&& answer == AcquisitionView::Bootstrap
                &&& after.dom() == sessions.dom().insert(session_id)
                &&& after[session_id].owner_epoch == 1
                &&& after[session_id].owner_instance_id == Some(instance)
                &&& after[session_id].last_outcome is None
                &&& forall|other: Seq<char>|
                    other != session_id && sessions.contains_key(other) ==> #[trigger] after[other]
                        == sessions[other]
            }
        }),
{
}

/// An acquisition that succeeds answers with the epoch that the session then stands at. One that is
/// refused answers with a rejection.
pub proof fn law_acquisitions_answer_with_the_epoch(
    sessions: Map<Seq<char>, SessionView>,
    session_id: Seq<char>,
    expected: u64,
    instance: Seq<char>,
    response: ReplicatedBrokerResponseV1,
)
    requires
        answers_acquisition(response, acquisition(sessions, session_id, expected, instance)),
    ensures
        match response {
            ReplicatedBrokerResponseV1::SessionOwnerAcquired { owner_epoch } => {
                let after = acquired_sessions(sessions, session_id, expected, instance);
                &&& after.contains_key(session_id)
                &&& after[session_id].owner_epoch == owner_epoch
                &&& after[session_id].owner_instance_id == Some(instance)
            },
            ReplicatedBrokerResponseV1::ApplicationError(error) => {
                &&& error.disposition == BrokerErrorDisposition::Rejected
                &&& acquired_sessions(sessions, session_id, expected, instance) == sessions
            },
            _ => false,
        },
{
}

/// An identified command is applied exactly in these cases: its session is new, there is room, and
/// it claims no more than the initial epoch; or its session is known, epoch and instance are those
/// of the owner, and its sequence is above the last one, or the first where there is none.
pub proof fn law_what_is_applied(
    sessions: Map<Seq<char>, SessionView>,
    identity: IdentityView,
    command: WireCommand,
)
    ensures
        admission(sessions, identity, command) is Apply <==> if sessions.dom().contains(
            identity.session_id,
        ) {
            &&& sessions[identity.session_id].owner_epoch == identity.owner_epoch
            &&& sessions[identity.session_id].owner_instance_id == identity.owner_instance_id
            &&& match sessions[identity.session_id].last_outcome {
                Some(outcome) => identity.sequence > outcome.sequence,
                None => identity.sequence == 1,
            }
        } else {
            &&& identity.owner_epoch == 1
            &&& identity.owner_instance_id is None
            &&& sessions.dom().len() < 4096
        },
{
}

/// A refused command is told why: a full store or a changed request by their own codes, everything
/// else as a stale fence.
pub proof fn law_what_refused_commands_are_told(
    sessions: Map<Seq<char>, SessionView>,
    identity: IdentityView,
    command: WireCommand,
    code: BrokerErrorCode,
    message: Seq<char>,
)
    requires
        admission(sessions, identity, command) == AdmissionView::Reject(code, message),
    ensures
        code == BrokerErrorCode::CapacityExceeded || code == BrokerErrorCode::Conflict || code
            == BrokerErrorCode::StaleFence,
        code == BrokerErrorCode::CapacityExceeded <==> {
            &&& !sessions.dom().contains(identity.session_id)
            &&& identity.owner_epoch == 1
            &&& identity.owner_instance_id is None
        },
        code == BrokerErrorCode::Conflict <==> {
            &&& sessions.dom().contains(identity.session_id)
            &&& sessions[identity.session_id].owner_epoch == identity.owner_epoch
            &&& sessions[identity.session_id].owner_instance_id == identity.owner_instance_id
            &&& sessions[identity.session_id].last_outcome matches Some(outcome)
            &&& outcome.sequence == identity.sequence
        },
{
}

/// An admitted command is applied, a replayed one gets the recorded answer as it is, and a refused
/// one is answered as rejected, with the code and the text of its refusal.
pub proof fn law_decisions_follow_admissions(
    decision: IdentifiedDecision,
    verdict: AdmissionView,
)
    requires
        decides(decision, verdict),
    ensures
        match decision {
            IdentifiedDecision::Apply => verdict is Apply,
            IdentifiedDecision::Answer(response) => match verdict {
                AdmissionView::Apply => false,
                AdmissionView::Replay(recorded) => response == recorded,
                AdmissionView::Reject(code, message) => {
                    &&& response matches ReplicatedBrokerResponseV1::ApplicationError(error)
                    &&& error.disposition == BrokerErrorDisposition::Rejected
                    &&& error.message@ == message
                    &&& application_code(error.code) == code
                },
            },
        },
{
}

/// A committed record holds the identity, the command and the response of its commit.
pub proof fn law_records_hold_what_was_committed(
    identity: IdentityView,
    command: WireCommand,
    response: ReplicatedBrokerResponseV1,
)
    ensures
        ({
            let record = committed_record(identity, command, response);
            &&& record.owner_epoch == identity.owner_epoch
            &&& record.owner_instance_id == identity.owner_instance_id
            &&& record.last_outcome matches Some(outcome)
            &&& outcome.sequence == identity.sequence
            &&& outcome.command == command
            &&& outcome.response == response
        }),
{
}

/// Every acquisition ends in one of three ways: the session has a new owner at the next epoch, its
/// owner is confirmed, or the request is refused. Which one is decided by the recorded epoch and
/// instance alone.
pub proof fn law_how_acquisitions_end(
    sessions: Map<Seq<char>, SessionView>,
    session_id: Seq<char>,
    expected: u64,
    instance: Seq<char>,
)
    ensures
        ({
            let known = sessions.dom().contains(session_id);
            let record = sessions[session_id];
            let own = known && record.owner_instance_id == Some(instance);
            match acquisition(sessions, session_id, expected, instance) {
                AcquisitionView::Bootstrap => !known
                    && expected == 1
                    && sessions.dom().len() < 4096,
                AcquisitionView::Confirm(epoch) => own && epoch == record.owner_epoch && (epoch
                    == expected || epoch == expected + 1),
                AcquisitionView::Advance(epoch) => known && !own && record.owner_epoch == expected
                    && epoch == expected + 1,
                AcquisitionView::Reject(code, _) => {
                    &&& code == BrokerErrorCode::StaleFence || code
                        == BrokerErrorCode::CapacityExceeded
                    &&& code == BrokerErrorCode::CapacityExceeded <==> if known {
                        record.owner_epoch == expected && expected == u64::MAX && !own
                    } else {
                        expected == 1 && sessions.dom().len() >= 4096
                    }
                    &&& code == BrokerErrorCode::StaleFence <==> if known {
                        record.owner_epoch != expected
                            && (!own || record.owner_epoch != expected + 1)
                    } else {
                        expected != 1
                    }
                },
            }
        }),
{
}

} // verus!
