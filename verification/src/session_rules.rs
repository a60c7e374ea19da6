//! Admission of identified commands and acquisition of session ownership.
use crate::command_identity::{
    same_instance, CommandIdentity, CommandSessionId, IdentityView, SessionOwnerEpoch,
    SessionOwnerInstanceId,
};
use crate::command_sessions::{
    CommandSessionOutcome, CommandSessionRecord, CommandSessions, OutcomeView, SessionView,
    MAX_COMMAND_SESSIONS,
};
use crate::error::{BrokerErrorCode, BrokerErrorDisposition};
use crate::replicated_command::{client_request, ReplicatedBrokerCommandV1, WireCommand};
use crate::replicated_response::{
    durable_code, ReplicatedBrokerErrorCodeV1, ReplicatedBrokerErrorV1, ReplicatedBrokerResponseV1,
};
use crate::text::{decimal, push_decimal};
use vstd::prelude::*;

verus! {

/// What becomes of an identified command.
pub enum AdmissionView {
    /// The command is applied and its outcome recorded.
    Apply,
    /// The command is an exact retry: the recorded response is the answer.
    Replay(ReplicatedBrokerResponseV1),
    /// The command is refused before it is applied.
    Reject(BrokerErrorCode, Seq<char>),
}

/// The text for an owner epoch that is not the authoritative one.
pub open spec fn epoch_mismatch_text(identity: IdentityView, authoritative: u64) -> Seq<char> {
    "command session "@ + identity.session_id + " owner epoch "@ + decimal(
        identity.owner_epoch as nat,
    ) + " does not match broker-authoritative epoch "@ + decimal(authoritative as nat)
}

/// The text for an owner instance that is not the authoritative one.
pub open spec fn instance_mismatch_text(identity: IdentityView) -> Seq<char> {
    "command session "@ + identity.session_id
        + " owner instance does not match broker-authoritative owner instance"@
}

/// The text for a sequence before the committed one.
pub open spec fn older_sequence_text(identity: IdentityView, committed: u64) -> Seq<char> {
    "command_sequence "@ + decimal(identity.sequence as nat) + " is older than committed sequence "@
        + decimal(committed as nat) + " for session "@ + identity.session_id
}

/// The text for a committed sequence that is reused for another request.
pub open spec fn content_conflict_text(identity: IdentityView) -> Seq<char> {
    "command_sequence "@ + decimal(identity.sequence as nat) + " for session "@
        + identity.session_id + " is already committed with different command content"@
}

/// The text for a new owner that does not restart the sequence.
pub open spec fn restart_text(identity: IdentityView) -> Seq<char> {
    "new owner epoch "@ + decimal(identity.owner_epoch as nat) + " for session "@
        + identity.session_id + " must restart command_sequence at 1, got "@ + decimal(
        identity.sequence as nat,
    )
}

/// The text for a new session that does not begin at the initial epoch.
pub open spec fn initial_epoch_text(session_id: Seq<char>, epoch: u64) -> Seq<char> {
    "new command session "@ + session_id
        + " must begin at broker-authoritative owner epoch 1, got "@ + decimal(epoch as nat)
}

/// The text for a new session that claims an owner instance by itself.
pub open spec fn self_authorized_text(session_id: Seq<char>) -> Seq<char> {
    "new command session "@ + session_id
        + " cannot self-authorize an owner instance before broker acquisition"@
}

/// The text for a full session table.
pub open spec fn session_capacity_text() -> Seq<char> {
    "command session capacity reached: max 4096 active sessions"@
}

/// The text for an acquisition that expects another epoch.
pub open spec fn stale_expectation_text(
    session_id: Seq<char>,
    expected: u64,
    authoritative: u64,
) -> Seq<char> {
    "command session "@ + session_id + " expected owner epoch "@ + decimal(expected as nat)
        + " but broker-authoritative epoch is "@ + decimal(authoritative as nat)
}

/// The text for an epoch that cannot advance.
pub open spec fn exhausted_epoch_text(session_id: Seq<char>) -> Seq<char> {
    "command session "@ + session_id + " owner epoch is exhausted"@
}

/// What becomes of an identified command under given sessions.
pub open spec fn admission(
    sessions: Map<Seq<char>, SessionView>,
    identity: IdentityView,
    command: WireCommand,
) -> AdmissionView {
    if sessions.dom().contains(identity.session_id) {
        let record = sessions[identity.session_id];
        if identity.owner_epoch != record.owner_epoch {
            AdmissionView::Reject(
                BrokerErrorCode::StaleFence,
                epoch_mismatch_text(identity, record.owner_epoch),
            )
        } else if identity.owner_instance_id != record.owner_instance_id {
            AdmissionView::Reject(BrokerErrorCode::StaleFence, instance_mismatch_text(identity))
        } else {
            match record.last_outcome {
                Some(outcome) => if identity.sequence < outcome.sequence {
                    AdmissionView::Reject(
                        BrokerErrorCode::StaleFence,
                        older_sequence_text(identity, outcome.sequence),
                    )
                } else if identity.sequence > outcome.sequence {
                    AdmissionView::Apply
                } else if client_request(command) == client_request(outcome.command) {
                    AdmissionView::Replay(outcome.response)
                } else {
                    AdmissionView::Reject(
                        BrokerErrorCode::Conflict,
                        content_conflict_text(identity),
                    )
                },
                None => if identity.sequence != 1 {
                    AdmissionView::Reject(BrokerErrorCode::StaleFence, restart_text(identity))
                } else {
                    AdmissionView::Apply
                },
            }
        }
    } else if identity.owner_epoch != 1 {
        AdmissionView::Reject(
            BrokerErrorCode::StaleFence,
            initial_epoch_text(identity.session_id, identity.owner_epoch),
        )
    } else if identity.owner_instance_id is Some {
        AdmissionView::Reject(
            BrokerErrorCode::StaleFence,
            self_authorized_text(identity.session_id),
        )
    } else if sessions.dom().len() >= MAX_COMMAND_SESSIONS {
        AdmissionView::Reject(BrokerErrorCode::CapacityExceeded, session_capacity_text())
    } else {
        AdmissionView::Apply
    }
}

/// The record of a session after its command was applied with a response.
pub open spec fn committed_record(
    identity: IdentityView,
    command: WireCommand,
    response: ReplicatedBrokerResponseV1,
) -> SessionView {
    SessionView {
        owner_epoch: identity.owner_epoch,
        owner_instance_id: identity.owner_instance_id,
        last_outcome: Some(OutcomeView { sequence: identity.sequence, command, response }),
    }
}

/// Whether a response is a refusal before application with a given code and text.
pub open spec fn is_rejection(
    response: ReplicatedBrokerResponseV1,
    code: BrokerErrorCode,
    message: Seq<char>,
) -> bool {
    response matches ReplicatedBrokerResponseV1::ApplicationError(error) && durable_code(code)
        == Some(error.code) && error.message@ == message && error.disposition
        == BrokerErrorDisposition::Rejected
}

/// What is done with an identified command.
pub enum IdentifiedDecision {
    /// Apply the command and record its outcome.
    Apply,
    /// Answer without applying anything.
    Answer(ReplicatedBrokerResponseV1),
}

/// Whether a decision is the one that an admission asks for.
pub open spec fn decides(decision: IdentifiedDecision, admission: AdmissionView) -> bool {
    match admission {
        AdmissionView::Apply => decision is Apply,
        AdmissionView::Replay(response) => decision == IdentifiedDecision::Answer(response),
        AdmissionView::Reject(code, message) => {
            decision matches IdentifiedDecision::Answer(response) && is_rejection(
                response,
                code,
                message,
            )
        },
    }
}

/// The answer to a command that is refused before it is applied.
fn replicated_application_error(
    code: ReplicatedBrokerErrorCodeV1,
    message: String,
) -> (r: ReplicatedBrokerResponseV1)
    ensures
        r == ReplicatedBrokerResponseV1::ApplicationError(
            ReplicatedBrokerErrorV1 {
                code,
                message,
                disposition: BrokerErrorDisposition::Rejected,
            },
        ),
{
    ReplicatedBrokerResponseV1::ApplicationError(
        ReplicatedBrokerErrorV1 { code, message, disposition: BrokerErrorDisposition::Rejected },
    )
}

fn stale_fence(message: String) -> (r: IdentifiedDecision)
    ensures
        decides(r, AdmissionView::Reject(BrokerErrorCode::StaleFence, message@)),
{
    IdentifiedDecision::Answer(
        replicated_application_error(ReplicatedBrokerErrorCodeV1::StaleFence, message),
    )
}

/// Decide what becomes of an identified command.
pub fn decide_identified(
    sessions: &CommandSessions,
    identity: &CommandIdentity,
    command: &ReplicatedBrokerCommandV1,
) -> (r: IdentifiedDecision)
    ensures
        decides(r, admission(sessions@, identity@, command@)),
        r is Apply <==> if sessions@.dom().contains(identity@.session_id) {
            &&& sessions@[identity@.session_id].owner_epoch == identity@.owner_epoch
            &&& sessions@[identity@.session_id].owner_instance_id == identity@.owner_instance_id
            &&& match sessions@[identity@.session_id].last_outcome {
                Some(outcome) => identity@.sequence > outcome.sequence,
                None => identity@.sequence == 1,
            }
        } else {
            &&& identity@.owner_epoch == 1
            &&& identity@.owner_instance_id is None
            &&& sessions@.dom().len() < MAX_COMMAND_SESSIONS
        },
{
    let session_id = identity.session_id();
    match sessions.get(session_id) {
        Some(record) => {
            if identity.owner_epoch().get() != record.owner_epoch.get() {
                let mut message = "command session ".to_owned();
                message.append(session_id.as_str());
                message.append(" owner epoch ");
                push_decimal(&mut message, identity.owner_epoch().get());
                message.append(" does not match broker-authoritative epoch ");
                push_decimal(&mut message, record.owner_epoch.get());
                return stale_fence(message);
            }
            if !same_instance(identity.owner_instance_id(), record.owner_instance_id.as_ref()) {
                let mut message = "command session ".to_owned();
                message.append(session_id.as_str());
                message.append(
                    " owner instance does not match broker-authoritative owner instance",
                );
                return stale_fence(message);
            }
            match &record.last_outcome {
                Some(outcome) => {
                    if identity.sequence().get() < outcome.sequence.get() {
                        let mut message = "command_sequence ".to_owned();
                        push_decimal(&mut message, identity.sequence().get());
                        message.append(" is older than committed sequence ");
                        push_decimal(&mut message, outcome.sequence.get());
                        message.append(" for session ");
                        message.append(session_id.as_str());
                        return stale_fence(message);
                    }
                    if identity.sequence().get() > outcome.sequence.get() {
                        return IdentifiedDecision::Apply;
                    }
                    if command.same_identified_request(&outcome.command) {
                        return IdentifiedDecision::Answer(outcome.response.clone());
                    }
                    let mut message = "command_sequence ".to_owned();
                    push_decimal(&mut message, identity.sequence().get());
                    message.append(" for session ");
                    message.append(session_id.as_str());
                    message.append(" is already committed with different command content");
                    IdentifiedDecision::Answer(
                        replicated_application_error(
                            ReplicatedBrokerErrorCodeV1::Conflict,
                            message,
                        ),
                    )
                },
                None => {
                    if identity.sequence().get() != 1 {
                        let mut message = "new owner epoch ".to_owned();
                        push_decimal(&mut message, identity.owner_epoch().get());
                        message.append(" for session ");
                        message.append(session_id.as_str());
                        message.append(" must restart command_sequence at 1, got ");
                        push_decimal(&mut message, identity.sequence().get());
                        return stale_fence(message);
                    }
                    IdentifiedDecision::Apply
                },
            }
        },
        None => {
            if identity.owner_epoch().get() != 1 {
                return stale_fence(
                    initial_epoch_message(session_id, identity.owner_epoch().get()),
                );
            }
            if identity.owner_instance_id().is_some() {
                let mut message = "new command session ".to_owned();
                message.append(session_id.as_str());
                message.append(
                    " cannot self-authorize an owner instance before broker acquisition",
                );
                return stale_fence(message);
            }
            if sessions.len() >= MAX_COMMAND_SESSIONS {
                return IdentifiedDecision::Answer(
                    replicated_application_error(
                        ReplicatedBrokerErrorCodeV1::CapacityExceeded,
                        "command session capacity reached: max 4096 active sessions".to_owned(),
                    ),
                );
            }
            IdentifiedDecision::Apply
        },
    }
}

fn initial_epoch_message(session_id: &CommandSessionId, epoch: u64) -> (r: String)
    ensures
        r@ == initial_epoch_text(session_id@, epoch),
{
    let mut message = "new command session ".to_owned();
    message.append(session_id.as_str());
    message.append(" must begin at broker-authoritative owner epoch 1, got ");
    push_decimal(&mut message, epoch);
    message
}

/// Record the outcome of an applied command.
pub fn commit_outcome(
    sessions: &mut CommandSessions,
    identity: &CommandIdentity,
    command: ReplicatedBrokerCommandV1,
    response: ReplicatedBrokerResponseV1,
)
    ensures
        final(sessions)@ == old(sessions)@.insert(
            identity@.session_id,
            committed_record(identity@, command@, response),
        ),
{
    let record = CommandSessionRecord {
        owner_epoch: identity.owner_epoch(),
        owner_instance_id: match identity.owner_instance_id() {
            Some(instance) => Some(instance.clone()),
            None => None,
        },
        last_outcome: Some(
            CommandSessionOutcome { sequence: identity.sequence(), command, response },
        ),
    };
    sessions.insert(identity.session_id(), record);
}

/// What becomes of an acquisition of session ownership.
pub enum AcquisitionView {
    /// The session is created with its first owner.
    Bootstrap,
    /// The owner already holds this epoch: the acquisition is a retry.
    Confirm(u64),
    /// Ownership passes on at this epoch and the previous owner is fenced.
    Advance(u64),
    /// The acquisition is refused.
    Reject(BrokerErrorCode, Seq<char>),
}

/// What becomes of an acquisition under given sessions.
pub open spec fn acquisition(
    sessions: Map<Seq<char>, SessionView>,
    session_id: Seq<char>,
    expected: u64,
    instance: Seq<char>,
) -> AcquisitionView {
    if sessions.dom().contains(session_id) {
        let record = sessions[session_id];
        if record.owner_instance_id == Some(instance) && (record.owner_epoch == expected
            || record.owner_epoch == expected + 1) {
            AcquisitionView::Confirm(record.owner_epoch)
        } else if record.owner_epoch != expected {
            AcquisitionView::Reject(
                BrokerErrorCode::StaleFence,
                stale_expectation_text(session_id, expected, record.owner_epoch),
            )
        } else if record.owner_epoch == u64::MAX {
            AcquisitionView::Reject(
                BrokerErrorCode::CapacityExceeded,
                exhausted_epoch_text(session_id),
            )
        } else {
            AcquisitionView::Advance((record.owner_epoch + 1) as u64)
        }
    } else if expected != 1 {
        AcquisitionView::Reject(
            BrokerErrorCode::StaleFence,
            initial_epoch_text(session_id, expected),
        )
    } else if sessions.dom().len() >= MAX_COMMAND_SESSIONS {
        AcquisitionView::Reject(BrokerErrorCode::CapacityExceeded, session_capacity_text())
    } else {
        AcquisitionView::Bootstrap
    }
}

/// The record of a session whose ownership was just acquired.
pub open spec fn fresh_owner(epoch: u64, instance: Seq<char>) -> SessionView {
    SessionView { owner_epoch: epoch, owner_instance_id: Some(instance), last_outcome: None }
}

/// The sessions after an acquisition.
pub open spec fn acquired_sessions(
    sessions: Map<Seq<char>, SessionView>,
    session_id: Seq<char>,
    expected: u64,
    instance: Seq<char>,
) -> Map<Seq<char>, SessionView> {
    match acquisition(sessions, session_id, expected, instance) {
        AcquisitionView::Bootstrap => sessions.insert(session_id, fresh_owner(1, instance)),
        AcquisitionView::Advance(epoch) => sessions.insert(
            session_id,
            fresh_owner(epoch, instance),
        ),
        AcquisitionView::Confirm(_) | AcquisitionView::Reject(_, _) => sessions,
    }
}

/// Whether a response is the answer to an acquisition.
pub open spec fn answers_acquisition(
    response: ReplicatedBrokerResponseV1,
    acquisition: AcquisitionView,
) -> bool {
    match acquisition {
        AcquisitionView::Bootstrap => response
            == ReplicatedBrokerResponseV1::SessionOwnerAcquired { owner_epoch: 1 },
        AcquisitionView::Confirm(epoch) => response
            == ReplicatedBrokerResponseV1::SessionOwnerAcquired { owner_epoch: epoch },
        AcquisitionView::Advance(epoch) => response
            == ReplicatedBrokerResponseV1::SessionOwnerAcquired { owner_epoch: epoch },
        AcquisitionView::Reject(code, message) => is_rejection(response, code, message),
    }
}

/// Acquire the ownership of a session, as far as the authoritative epoch allows it.
pub fn acquire_owner(
    sessions: &mut CommandSessions,
    session_id: &CommandSessionId,
    expected_owner_epoch: SessionOwnerEpoch,
    owner_instance_id: SessionOwnerInstanceId,
) -> (r: ReplicatedBrokerResponseV1)
    ensures
        answers_acquisition(
            r,
            acquisition(
                old(sessions)@,
                session_id@,
                expected_owner_epoch@,
                owner_instance_id@,
            ),
        ),
        final(sessions)@ == acquired_sessions(
            old(sessions)@,
            session_id@,
            expected_owner_epoch@,
            owner_instance_id@,
        ),
        old(sessions)@.dom().contains(session_id@) && old(sessions)@[session_id@].owner_epoch
            == expected_owner_epoch@ && expected_owner_epoch@ < u64::MAX
            && old(sessions)@[session_id@].owner_instance_id != Some(owner_instance_id@) ==> {
            &&& r == ReplicatedBrokerResponseV1::SessionOwnerAcquired {
                owner_epoch: (expected_owner_epoch@ + 1) as u64,
            }
            &&& final(sessions)@.dom().contains(session_id@)
            &&& final(sessions)@[session_id@].owner_epoch == expected_owner_epoch@ + 1
            &&& final(sessions)@[session_id@].owner_instance_id == Some(owner_instance_id@)
            &&& final(sessions)@[session_id@].last_outcome is None
        },
{
    let expected: u64 = expected_owner_epoch.get();
    let current: Option<u64> = match sessions.get(session_id) {
        Some(record) => {
            let epoch: u64 = record.owner_epoch.get();
            let same_owner = same_instance(
                record.owner_instance_id.as_ref(),
                Some(&owner_instance_id),
            );
            if same_owner && (epoch == expected || (expected < u64::MAX && epoch == expected + 1)) {
                return ReplicatedBrokerResponseV1::SessionOwnerAcquired { owner_epoch: epoch };
            }
            Some(epoch)
        },
        None => None,
    };
    match current {
        Some(epoch) => {
            if epoch != expected {
                let mut message = "command session ".to_owned();
                message.append(session_id.as_str());
                message.append(" expected owner epoch ");
                push_decimal(&mut message, expected);
                message.append(" but broker-authoritative epoch is ");
                push_decimal(&mut message, epoch);
                return replicated_application_error(
                    ReplicatedBrokerErrorCodeV1::StaleFence,
                    message,
                );
            }
            if epoch == u64::MAX {
                let mut message = "command session ".to_owned();
                message.append(session_id.as_str());
                message.append(" owner epoch is exhausted");
                return replicated_application_error(
                    ReplicatedBrokerErrorCodeV1::CapacityExceeded,
                    message,
                );
            }
            let next: u64 = epoch + 1;
            match SessionOwnerEpoch::new(next) {
                Ok(owner_epoch) => {
                    sessions.insert(
                        session_id,
                        CommandSessionRecord {
                            owner_epoch,
                            owner_instance_id: Some(owner_instance_id),
                            last_outcome: None,
                        },
                    );
                },
                Err(_) => {},
            }
            ReplicatedBrokerResponseV1::SessionOwnerAcquired { owner_epoch: next }
        },
        None => {
            if expected != 1 {
                return replicated_application_error(
                    ReplicatedBrokerErrorCodeV1::StaleFence,
                    initial_epoch_message(session_id, expected),
                );
            }
            if sessions.len() >= MAX_COMMAND_SESSIONS {
                return replicated_application_error(
                    ReplicatedBrokerErrorCodeV1::CapacityExceeded,
                    "command session capacity reached: max 4096 active sessions".to_owned(),
                );
            }
            sessions.insert(
                session_id,
                CommandSessionRecord {
                    owner_epoch: SessionOwnerEpoch::initial(),
                    owner_instance_id: Some(owner_instance_id),
                    last_outcome: None,
                },
            );
            ReplicatedBrokerResponseV1::SessionOwnerAcquired { owner_epoch: 1 }
        },
    }
}

} // verus!
