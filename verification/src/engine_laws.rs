//! What holds of a running member: its controller, its log, its frames, its proposals and what its
//! failures are told as.
use crate::client_error::{ClientError, DurableExecutionError};
use crate::cluster_config::{config_refusal, engine_refusal};
use crate::cluster_readiness::ClusterRaftReadinessStatus;
use crate::cluster_tls::tls_refusal;
use crate::consensus_snapshot::{snapshot_frame, snapshot_parts, SnapshotPartsView};
use crate::durable_client::{settled_outcome, told_outcome};
use crate::error::{
    BrokerError, BrokerErrorCode, BrokerErrorDisposition, BrokerErrorView, StateMachineError,
};
use crate::one_node::{one_node_leaderless, remote_attempted, OneNodePhase};
use crate::protocol::SuccessPayload;
use crate::raft_controller::{
    controller_action, ends, fault, fault_code, ControllerAction, ControllerEvent, ControllerFault,
    RequestKind,
};
use crate::raft_errors::{
    engine_failure, engine_stopped, internal_fault, not_leader, storage_failure, RaftMode,
};
use crate::raft_frames::{chunk_size, frame_bytes, frame_wants, io_deadline, RaftFrameRefusal};
use crate::raft_log::{
    follows, in_range, in_span, log_end, stays_when_purged, stays_when_truncated, LogBound,
};
use crate::raft_proposal::{acquired_epoch, is_told};
use crate::raft_startup::{never_converged, never_led, not_applied_in_time};
use crate::replicated_response::{
    application_error, encodes_result, response_finding, ReplicatedBrokerResponseV1,
};
use crate::response_frames::{frame_progress, has_line_end, line_length, line_part, FrameProgress};
use crate::results::BrokerMutationResult;
use crate::rpc_server::{accept_step, last_failure, AcceptEvent, AcceptStep};
use crate::session_state::ClientSessionStoreError;
use crate::standalone::{fail_stopped_error, invalid_checkpoint_error, is_settled, repository_error};
use crate::term_sync::{advance_failure, term_plan};
use vstd::prelude::*;

verus! {

/// Every request is served, but for two: a shutdown stops the engine, and a probe past its deadline
/// is answered as timed out without asking the engine.
pub proof fn law_requests_are_served(kind: RequestKind, deadline_passed: bool)
    ensures
        ({
            let action = controller_action(ControllerEvent::Request { kind, deadline_passed });
            if kind == RequestKind::Shutdown {
                action == ControllerAction::StopAndReply
            } else if kind == RequestKind::Readiness && deadline_passed {
                &&& action matches ControllerAction::ReplyReadiness(readiness)
                &&& readiness.status == ClusterRaftReadinessStatus::ProbeTimedOut
                &&& readiness.progress is None
            } else {
                action == ControllerAction::Serve(kind)
            }
        }),
{
}

/// A controller goes on after everything but a failed start, a shutdown, and the loss of everyone
/// who could ask it.
pub proof fn law_when_controllers_end(event: ControllerEvent)
    ensures
        ends(controller_action(event)) <==> match event {
            ControllerEvent::OpenFailed(_) => true,
            ControllerEvent::Opened => false,
            ControllerEvent::StarterGone => true,
            ControllerEvent::Disconnected => true,
            ControllerEvent::Request { kind, .. } => kind == RequestKind::Shutdown,
        },
        event matches ControllerEvent::OpenFailed(error) ==> controller_action(event)
            == ControllerAction::ReportFailure(error),
        event is Opened ==> controller_action(event) == ControllerAction::ReportProgress,
{
}

/// A fault between an adapter and its controller is told by what failed: the listener as transport,
/// the durable store or the hand-over as persistence, and everything else as internal. Its cause
/// ends its text, and its outcome is unknown.
pub proof fn law_what_controller_faults_are_told_as(
    mode: RaftMode,
    kind: ControllerFault,
    cause: Seq<char>,
)
    ensures
        fault(mode, kind, cause).code == match kind {
            ControllerFault::ListenerNotBound | ControllerFault::ListenerNotStopped => {
                BrokerErrorCode::TransportError
            },
            ControllerFault::Unavailable
            | ControllerFault::ReplyDropped
            | ControllerFault::StoreNotOpened
            | ControllerFault::DirectoryNotMade => BrokerErrorCode::PersistenceError,
            ControllerFault::ThreadNotStarted
            | ControllerFault::RuntimeNotBuilt
            | ControllerFault::EndedDuringStartup
            | ControllerFault::ShutdownFailed => BrokerErrorCode::InternalError,
        },
        fault_code(kind) == fault(mode, kind, cause).code,
        fault(mode, kind, cause).disposition == BrokerErrorDisposition::Unknown,
        ends_with(fault(mode, kind, cause).message, cause),
{
    let whole = fault(mode, kind, cause).message;
    assert(whole.skip(whole.len() - cause.len()) =~= cause);
}

/// Whether a text ends with another.
pub open spec fn ends_with(text: Seq<char>, end: Seq<char>) -> bool {
    text.len() >= end.len() && text.skip(text.len() - end.len()) == end
}

/// What each failure of a member is told as. None of them says what became of a command.
pub proof fn law_what_member_failures_are_told_as(
    mode: RaftMode,
    operation: Seq<char>,
    error: Seq<char>,
    node_id: u64,
    leader: Option<u64>,
    phase: OneNodePhase,
)
    ensures
        is_plain(storage_failure(mode, error), BrokerErrorCode::PersistenceError),
        is_plain(engine_stopped(mode, error), BrokerErrorCode::PersistenceError),
        is_plain(not_applied_in_time(mode), BrokerErrorCode::PersistenceError),
        is_plain(engine_failure(mode, operation, error), BrokerErrorCode::TransportError),
        is_plain(not_leader(node_id, leader), BrokerErrorCode::TransportError),
        is_plain(never_led(node_id), BrokerErrorCode::TransportError),
        is_plain(never_converged(), BrokerErrorCode::TransportError),
        is_plain(one_node_leaderless(), BrokerErrorCode::TransportError),
        is_plain(internal_fault(operation, error), BrokerErrorCode::InternalError),
        is_plain(engine_refusal(error), BrokerErrorCode::InternalError),
        is_plain(remote_attempted(phase), BrokerErrorCode::InternalError),
        is_plain(config_refusal(error), BrokerErrorCode::InvalidRequest),
        is_plain(tls_refusal(error), BrokerErrorCode::InvalidRequest),
        is_plain(fail_stopped_error(), BrokerErrorCode::PersistenceError),
        ends_with(storage_failure(mode, error).message, error),
        ends_with(engine_stopped(mode, error).message, error),
        ends_with(engine_failure(mode, operation, error).message, error),
        ends_with(internal_fault(operation, error).message, error),
        ends_with(engine_refusal(error).message, error),
        config_refusal(error).message == error,
        tls_refusal(error).message == error,
{
    let text = storage_failure(mode, error).message;
    assert(text.skip(text.len() - error.len()) =~= error);
    let text = engine_stopped(mode, error).message;
    assert(text.skip(text.len() - error.len()) =~= error);
    let text = engine_failure(mode, operation, error).message;
    assert(text.skip(text.len() - error.len()) =~= error);
    let text = internal_fault(operation, error).message;
    assert(text.skip(text.len() - error.len()) =~= error);
    let text = engine_refusal(error).message;
    assert(text.skip(text.len() - error.len()) =~= error);
}

/// Whether an error has a code and leaves the outcome of a command open.
pub open spec fn is_plain(error: BrokerErrorView, code: BrokerErrorCode) -> bool {
    error.code == code && error.disposition == BrokerErrorDisposition::Unknown
}

/// A header is asked for first, then the payload that it announces, and never more than the largest
/// frame.
pub proof fn law_what_a_frame_still_wants(bytes: Seq<u8>)
    ensures
        bytes.len() < 4 ==> frame_wants(bytes) == Ok::<nat, RaftFrameRefusal>(
            (4 - bytes.len()) as nat,
        ),
        bytes.len() >= 4 ==> ({
            let length = crate::big_endian::be_value(bytes.take(4));
            match frame_wants(bytes) {
                Err(refusal) => length > 268_435_456 && refusal == RaftFrameRefusal::FrameTooLarge,
                Ok(wanted) => length <= 268_435_456 && if bytes.len() >= 4 + length {
                    wanted == 0
                } else {
                    bytes.len() + wanted == 4 + length
                },
            }
        }),
{
}

/// A frame is its header and its payload, with nothing else.
pub proof fn law_frames_carry_their_payload(payload: Seq<u8>)
    requires
        payload.len() <= 268_435_456,
    ensures
        frame_bytes(payload).len() == payload.len() + 4,
        forall|i: int|
            0 <= i < payload.len() ==> #[trigger] frame_bytes(payload)[i + 4] == payload[i],
{
    crate::raft_frames::law_frames_round_trip(payload);
    assert forall|i: int| 0 <= i < payload.len() implies #[trigger] frame_bytes(payload)[i + 4]
        == payload[i] by {
        assert(frame_bytes(payload).skip(4)[i] == payload[i]);
    }
}

/// A chunk is as large as what is left, up to the chunk bound, so every chunk but the last is
/// whole.
pub proof fn law_chunks_fill_the_rest(length: usize, done: usize)
    requires
        done <= length,
    ensures
        chunk_size(length, done) <= 65_536,
        done + chunk_size(length, done) <= length,
        chunk_size(length, done) < 65_536 ==> done + chunk_size(length, done) == length,
        done < length ==> chunk_size(length, done) > 0,
{
}

/// An exchange may take as long as its caller waits, up to thirty seconds; one without any time
/// left gets a millisecond.
pub proof fn law_exchanges_last_as_long_as_their_caller_waits(hard_ttl: nat)
    ensures
        hard_ttl == 0 ==> io_deadline(hard_ttl) == 1_000_000,
        0 < hard_ttl <= 30_000_000_000 ==> io_deadline(hard_ttl) == hard_ttl,
        hard_ttl > 30_000_000_000 ==> io_deadline(hard_ttl) == 30_000_000_000,
{
}

/// A range holds the indexes between its bounds: an included bound with itself, an excluded one
/// without.
pub proof fn law_ranges_hold_what_is_between(index: u64, start: LogBound, end: LogBound, bound: u64)
    ensures
        in_range(index, LogBound::Unbounded, LogBound::Unbounded),
        in_range(index, start, end) <==> in_range(index, start, LogBound::Unbounded) && in_range(
            index,
            LogBound::Unbounded,
            end,
        ),
        in_range(index, LogBound::Included(bound), LogBound::Unbounded) <==> bound <= index,
        in_range(index, LogBound::Excluded(bound), LogBound::Unbounded) <==> bound < index,
        in_range(index, LogBound::Unbounded, LogBound::Included(bound)) <==> index <= bound,
        in_range(index, LogBound::Unbounded, LogBound::Excluded(bound)) <==> index < bound,
        in_span(index, (bound, None)) <==> bound <= index,
        in_span(index, (0, Some(bound))) <==> index < bound,
{
}

/// A truncation at an index removes it and everything after it; a purge up to an index removes it
/// and everything before it.
pub proof fn law_what_cuts_remove(stored: u64, index: u64)
    ensures
        stays_when_truncated(stored, index) <==> stored < index,
        stays_when_purged(stored, index) <==> index < stored,
{
}

/// An index follows another by one, except that nothing goes beyond the largest.
pub proof fn law_indexes_follow_by_one(first: u64, second: u64)
    ensures
        first < u64::MAX ==> (follows(first, second) <==> second == first + 1),
        first == u64::MAX ==> (follows(first, second) <==> second == first),
{
}

/// A log ends at its last entry, or at what was purged last where it holds none. An entry under a
/// foreign key is refused.
pub proof fn law_where_logs_end<P>(last_present: Option<(u64, u64, P)>, last_purged: Option<P>)
    ensures
        match (last_present, log_end(last_present, last_purged)) {
            (None, Ok(end)) => end == last_purged,
            (Some((key, entry, position)), Ok(end)) => key == entry && end == Some(position),
            (Some((key, entry, _)), Err(_)) => key != entry,
            (None, Err(_)) => false,
        },
{
}

/// An acquisition is told the epoch that was committed for it. A refusal is told as it was stored;
/// what is neither is a fault of the member, and so is an epoch that cannot be.
pub proof fn law_what_acquisitions_are_told(response: ReplicatedBrokerResponseV1)
    ensures
        match (response, acquired_epoch(response)) {
            (ReplicatedBrokerResponseV1::SessionOwnerAcquired { owner_epoch }, Ok(epoch)) => epoch
                == owner_epoch && epoch > 0,
            (ReplicatedBrokerResponseV1::SessionOwnerAcquired { owner_epoch }, Err(error)) => {
                owner_epoch == 0 && is_plain(error, BrokerErrorCode::InternalError)
            },
            (ReplicatedBrokerResponseV1::ApplicationError(stored), Err(error)) => error
                == application_error(stored),
            (ReplicatedBrokerResponseV1::RaftControl, Err(error)) => is_plain(
                error,
                BrokerErrorCode::InternalError,
            ),
            (ReplicatedBrokerResponseV1::Success(_), Err(error)) => is_plain(
                error,
                BrokerErrorCode::InternalError,
            ),
            (_, Ok(_)) => false,
        },
{
}

/// A mutation is told what was committed for it: its result, or the stored refusal. A response that
/// holds neither, or that cannot be read, is a fault of the member.
pub proof fn law_what_mutations_are_told(
    response: ReplicatedBrokerResponseV1,
    what: Seq<char>,
    r: Result<BrokerMutationResult, BrokerError>,
)
    requires
        is_told(response, what, r),
    ensures
        match r {
            Ok(value) => response matches ReplicatedBrokerResponseV1::Success(wire)
                && encodes_result(value, wire),
            Err(error) => match response {
                ReplicatedBrokerResponseV1::ApplicationError(stored) => error@
                    == application_error(stored),
                ReplicatedBrokerResponseV1::Success(_) => response_finding(response) matches Some(
                    finding,
                ) && is_plain(error@, BrokerErrorCode::InternalError) && ends_with(
                    error@.message,
                    finding,
                ),
                _ => is_plain(error@, BrokerErrorCode::InternalError),
            },
        },
{
    if let Some(finding) = response_finding(response) {
        let text = internal_fault(what, finding).message;
        assert(text.skip(text.len() - finding.len()) =~= finding);
    }
}

/// A term is advanced exactly when the Raft term is ahead of a committed Broker term, from the one
/// to the other. A Raft term behind it is a failure of the durable state.
pub proof fn law_when_terms_are_advanced(
    mode: RaftMode,
    raft_term: Result<u64, Seq<char>>,
    broker_term: u64,
)
    ensures
        match term_plan(mode, raft_term, broker_term) {
            Ok(None) => broker_term > 0 && raft_term == Ok::<u64, Seq<char>>(broker_term),
            Ok(Some((from, to))) => broker_term > 0 && from == broker_term && raft_term == Ok::<
                u64,
                Seq<char>,
            >(to) && from < to,
            Err(error) => match raft_term {
                Err(_) => is_plain(error, BrokerErrorCode::PersistenceError),
                Ok(term) => if broker_term == 0 {
                    is_plain(error, BrokerErrorCode::InternalError)
                } else {
                    term < broker_term && is_plain(error, BrokerErrorCode::PersistenceError)
                },
            },
        },
{
}

/// A term was advanced only if the engine answered with a readable result that says so. An answer
/// of the engine that failed is told as transport, everything else as internal.
pub proof fn law_what_advances_are_told(
    mode: RaftMode,
    answer: Result<ReplicatedBrokerResponseV1, Seq<char>>,
)
    ensures
        advance_failure(mode, answer) is None <==> {
            &&& answer matches Ok(ReplicatedBrokerResponseV1::Success(result))
            &&& result is TermAdvanced
            &&& response_finding(ReplicatedBrokerResponseV1::Success(result)) is None
        },
        advance_failure(mode, answer) matches Some(error) ==> if answer is Err {
            is_plain(error, BrokerErrorCode::TransportError)
        } else {
            is_plain(error, BrokerErrorCode::InternalError)
        },
{
}

/// A standalone Broker stops for good exactly when what it applied could not be made durable. A
/// refusal of the Broker leaves it running and is told by its own code, and a success is told as it
/// is.
pub proof fn law_when_a_standalone_broker_stops<D>(
    applied: Result<crate::broker::AppliedCommand<D>, StateMachineError>,
    committed: Option<Result<(), crate::standalone::RepositoryError>>,
    answer: Result<BrokerMutationResult, BrokerError>,
    poisoned: bool,
)
    requires
        is_settled(applied, committed, answer, poisoned),
    ensures
        poisoned <==> applied is Ok && committed is Some && committed->0 is Err,
        applied matches Ok(value) ==> (!poisoned ==> answer == Ok::<_, BrokerError>(value.result)),
        poisoned ==> (answer matches Err(error) && is_plain(
            error@,
            BrokerErrorCode::PersistenceError,
        ) && error@.message == committed->0->Err_0.message@),
        applied matches Err(refused) ==> (answer matches Err(error) && error@.message
            == refused.message@ && error@.disposition == BrokerErrorDisposition::Unknown
            && error@.code == crate::error::stable_code(refused.kind)),
{
}

/// A checkpoint or a repository that fails is told as a failure of the durable state.
pub proof fn law_failed_repositories_are_told_as_such(
    failed: crate::standalone::RepositoryError,
    invalid: StateMachineError,
)
    ensures
        is_plain(repository_error(failed), BrokerErrorCode::PersistenceError),
        repository_error(failed).message == failed.message@,
        is_plain(invalid_checkpoint_error(invalid), BrokerErrorCode::PersistenceError),
        ends_with(invalid_checkpoint_error(invalid).message, invalid.message@),
{
    let text = invalid_checkpoint_error(invalid).message;
    assert(text.skip(text.len() - invalid.message@.len()) =~= invalid.message@);
}

/// A listener goes on after a queued connection, closes one that finds no room, pauses where none
/// came, and fails only where it or all its workers failed.
pub proof fn law_what_listeners_do(event: AcceptEvent)
    ensures
        accept_step(event) == AcceptStep::AcceptNext <==> event == AcceptEvent::Queued,
        accept_step(event) == AcceptStep::CloseConnection <==> event == AcceptEvent::QueueFull,
        accept_step(event) == AcceptStep::Pause <==> event == AcceptEvent::Nothing,
        accept_step(event) == AcceptStep::FailWorkersGone <==> event == AcceptEvent::WorkersGone,
        accept_step(event) == AcceptStep::FailListener <==> event == AcceptEvent::Failed,
{
}

/// What is told of the workers is the last failure among them, and nothing if none failed.
pub proof fn law_the_last_failed_worker_is_told(workers: Seq<Result<(), String>>)
    ensures
        match last_failure(workers) {
            None => forall|i: int| 0 <= i < workers.len() ==> (#[trigger] workers[i]) is Ok,
            Some(error) => exists|i: int|
                0 <= i < workers.len() && (#[trigger] workers[i]) == Err::<(), String>(error)
                    && forall|j: int| i < j < workers.len() ==> (#[trigger] workers[j]) is Ok,
        },
    decreases workers.len(),
{
    if workers.len() > 0 {
        let rest = workers.drop_last();
        law_the_last_failed_worker_is_told(rest);
        if workers.last() is Ok {
            match last_failure(rest) {
                None => {
                    assert forall|i: int| 0 <= i < workers.len() implies (
                    #[trigger] workers[i]) is Ok by {
                        if i < rest.len() {
                            assert(rest[i] is Ok);
                        }
                    }
                },
                Some(error) => {
                    let i = choose|i: int|
                        0 <= i < rest.len() && (#[trigger] rest[i]) == Err::<(), String>(error)
                            && forall|j: int| i < j < rest.len() ==> (#[trigger] rest[j]) is Ok;
                    assert(workers[i] == Err::<(), String>(error));
                    assert forall|j: int| i < j < workers.len() implies (
                    #[trigger] workers[j]) is Ok by {
                        if j < rest.len() {
                            assert(rest[j] is Ok);
                        }
                    }
                },
            }
        } else {
            assert(workers[workers.len() - 1] == Err::<(), String>(workers.last()->Err_0));
        }
    }
}

/// A line is what comes before its end, with it, or everything where there is no end.
pub proof fn law_lines_end_at_the_first_line_feed(bytes: Seq<u8>, end: int)
    requires
        0 <= end <= bytes.len(),
        forall|i: int| 0 <= i < end ==> (#[trigger] bytes[i]) != 10,
        end < bytes.len() ==> bytes[end] == 10,
    ensures
        has_line_end(bytes) <==> end < bytes.len(),
        line_length(bytes) == (if end < bytes.len() {
            end + 1
        } else {
            end
        }),
        line_part(bytes) == bytes.take(line_length(bytes) as int),
    decreases bytes.len(),
{
    if bytes.len() > 0 {
        if end > 0 {
            let rest = bytes.skip(1);
            assert forall|i: int| 0 <= i < end - 1 implies (#[trigger] rest[i]) != 10 by {
                assert(rest[i] == bytes[i + 1]);
            }
            law_lines_end_at_the_first_line_feed(rest, end - 1);
            assert(bytes[0] != 10);
        }
        if end < bytes.len() {
            assert(bytes.contains(bytes[end]));
        }
    }
}

/// An answer is complete when its line has ended within the bound, refused when it is longer than
/// the bound, ended when nothing more comes, and otherwise waited for.
pub proof fn law_when_answers_are_complete(frame: Seq<u8>, available: Seq<u8>, max_bytes: usize)
    ensures
        available.len() == 0 ==> frame_progress(frame, available, max_bytes)
            == FrameProgress::Closed,
        available.len() > 0 ==> match frame_progress(frame, available, max_bytes) {
            FrameProgress::TooLarge { actual } => frame.len() + line_length(available) > max_bytes
                && if frame.len() + line_length(available) <= usize::MAX {
                actual == frame.len() + line_length(available)
            } else {
                actual == usize::MAX
            },
            FrameProgress::Complete { consumed } => frame.len() + line_length(available)
                <= max_bytes && available.contains(10) && consumed == line_length(available),
            FrameProgress::Partial => frame.len() + line_length(available) <= max_bytes
                && !available.contains(10),
            FrameProgress::Closed => false,
        },
{
}

/// The outcome of a durable command is told as it came, unless the local state could not be brought
/// in line with it: then that failure is told.
pub proof fn law_what_durable_commands_are_told(
    outcome: Result<SuccessPayload, ClientError>,
    resolved: Result<(), ClientSessionStoreError>,
)
    ensures
        match settled_outcome(outcome, resolved) {
            Ok(payload) => resolved is Ok && outcome == Ok::<_, ClientError>(payload),
            Err(DurableExecutionError::Client(error)) => resolved is Ok && outcome == Err::<
                SuccessPayload,
                _,
            >(error),
            Err(DurableExecutionError::SessionStore(error)) => resolved == Err::<(), _>(error),
        },
        match told_outcome(outcome) {
            Ok(payload) => outcome == Ok::<_, ClientError>(payload),
            Err(DurableExecutionError::Client(error)) => outcome == Err::<SuccessPayload, _>(error),
            Err(_) => false,
        },
{
}

/// Bytes that do not start with the mark of a framed snapshot are a Broker snapshot of their own.
pub proof fn law_unmarked_snapshots_are_plain(data: Seq<u8>)
    ensures
        snapshot_parts(data) == Ok::<_, Seq<char>>(SnapshotPartsView::Legacy) <==> !(data.len() >= 8
            && data[0] == 65 && data[1] == 66 && data[2] == 67 && data[3] == 83 && data[4] == 78
            && data[5] == 80 && data[6] == 48 && data[7] == 49),
{
    let mark = crate::consensus_snapshot::snapshot_magic();
    if data.len() >= 8 {
        if data.take(8) == mark {
            assert(data.take(8)[0] == mark[0] && data.take(8)[1] == mark[1]);
            assert(data.take(8)[2] == mark[2] && data.take(8)[3] == mark[3]);
            assert(data.take(8)[4] == mark[4] && data.take(8)[5] == mark[5]);
            assert(data.take(8)[6] == mark[6] && data.take(8)[7] == mark[7]);
        } else if data[0] == 65 && data[1] == 66 && data[2] == 67 && data[3] == 83 && data[4] == 78
            && data[5] == 80 && data[6] == 48 && data[7] == 49 {
            assert(data.take(8) =~= mark);
        }
    }
}

/// A framed snapshot is its parts: their lengths add up to its own, and they stand one behind the
/// other at its end.
pub proof fn law_framed_snapshots_end_with_their_parts(data: Seq<u8>)
    requires
        snapshot_parts(data) is Ok,
        snapshot_parts(data)->Ok_0 is Framed,
    ensures
        snapshot_parts(data)->Ok_0 matches SnapshotPartsView::Framed { broker, sidecar } && {
            &&& data.len() == 28 + broker.len() + sidecar.len()
            &&& data.skip(28) == broker + sidecar
        },
{
    if let SnapshotPartsView::Framed { broker, sidecar } = snapshot_parts(data)->Ok_0 {
        assert(data.skip(28) =~= broker + sidecar);
    }
}

/// A framed snapshot holds its parts behind a header of 28 bytes.
pub proof fn law_snapshots_hold_their_parts(broker: Seq<u8>, sidecar: Seq<u8>)
    ensures
        snapshot_frame(broker, sidecar).len() == 28 + broker.len() + sidecar.len(),
        snapshot_frame(broker, sidecar).skip(28) == broker + sidecar,
{
    crate::big_endian::lemma_be_bytes_len(1, 4);
    crate::big_endian::lemma_be_bytes_len(broker.len(), 8);
    crate::big_endian::lemma_be_bytes_len(sidecar.len(), 8);
    assert(snapshot_frame(broker, sidecar).skip(28) =~= broker + sidecar);
}

} // verus!
