//! What holds of the local session state over several operations.
use crate::command_identity::{CommandSessionId, IdentityView, SessionOwnerInstanceId};
use crate::protocol::Operation;
use crate::session_state::{
    acknowledged, begun, confirmed, epoch_may_follow, expected_epoch, in_flight_failure,
    in_flight_identity, in_flight_of, is_in_flight, opened, pending_view, released, reserved,
    InFlightView, OpeningView, OutgoingRequest, OwnerView, ReservedView, SessionStateView,
    StoreErrorView,
};
use vstd::prelude::*;

verus! {

/// A session that no one owns yet is in a valid state.
pub proof fn law_fresh_state_is_valid(session_id: Seq<char>)
    requires
        CommandSessionId::flaw(session_id) is None,
    ensures
        SessionStateView::fresh(session_id).valid(session_id),
{
}

/// Every operation leads to a valid state, whatever it started from.
pub proof fn law_operations_end_in_valid_states(
    state: SessionStateView,
    session_id: Seq<char>,
    instance: Seq<char>,
    owner_epoch: u64,
    request: OutgoingRequest,
    identity: IdentityView,
)
    ensures
        begun(state, session_id, instance) matches Ok(next) ==> next.valid(session_id),
        confirmed(state, session_id, owner_epoch) matches Ok(next) ==> next.valid(session_id),
        reserved(state, session_id, request) matches Ok(next) ==> next.valid(session_id),
        acknowledged(state, session_id, identity) matches Ok(next) ==> next.valid(session_id),
        released(state, session_id, identity) matches Ok(next) ==> next.valid(session_id),
{
}

/// In a valid state an acquisition and a command are never unresolved at once, a session without an
/// owner stands at sequence one, and the command in flight belongs to the owner and the next
/// sequence.
pub proof fn law_shape_of_valid_states(state: SessionStateView, session_id: Seq<char>)
    requires
        state.valid(session_id),
    ensures
        state.session_id == session_id,
        state.next_sequence > 0,
        !(state.pending is Some && state.in_flight is Some),
        state.owner is None ==> state.next_sequence == 1 && state.in_flight is None,
        state.in_flight matches Some(in_flight)
            ==> (state.owner matches Some(owner) && in_flight_identity(
            session_id,
            in_flight,
        ) == (IdentityView {
            session_id,
            owner_epoch: owner.owner_epoch,
            owner_instance_id: Some(owner.owner_instance_id),
            sequence: state.next_sequence,
        })),
{
}

/// A valid state that is durable when its session is opened again comes back as it was: owner,
/// pending acquisition, next sequence and command in flight. It opens for no other session.
pub proof fn law_reopening_gives_back_the_session(
    state: SessionStateView,
    session_id: Seq<char>,
    other: Seq<char>,
)
    requires
        state.valid(session_id),
        other != session_id,
    ensures
        opened(OpeningView::Decoded(state), session_id) == Ok::<_, StoreErrorView>(state),
        opened(OpeningView::Decoded(state), other) matches Err(StoreErrorView::InvalidState(_)),
{
}

/// Whatever an operation made durable opens again as the state that the operation led to.
pub proof fn law_operations_survive_reopening(
    state: SessionStateView,
    session_id: Seq<char>,
    instance: Seq<char>,
    owner_epoch: u64,
    request: OutgoingRequest,
    identity: IdentityView,
)
    ensures
        begun(state, session_id, instance) matches Ok(next) ==> opened(
            OpeningView::Decoded(next),
            session_id,
        )
            == Ok::<_, StoreErrorView>(next),
        confirmed(state, session_id, owner_epoch) matches Ok(next) ==> opened(
            OpeningView::Decoded(next),
            session_id,
        ) == Ok::<_, StoreErrorView>(next),
        reserved(state, session_id, request) matches Ok(next) ==> opened(
            OpeningView::Decoded(next),
            session_id,
        )
            == Ok::<_, StoreErrorView>(next),
        acknowledged(state, session_id, identity) matches Ok(next) ==> opened(
            OpeningView::Decoded(next),
            session_id,
        ) == Ok::<_, StoreErrorView>(next),
        released(state, session_id, identity) matches Ok(next) ==> opened(
            OpeningView::Decoded(next),
            session_id,
        )
            == Ok::<_, StoreErrorView>(next),
{
}

/// A durable state that is not valid opens no session. It is refused as invalid, or by the protocol
/// if the only flaw is a stored request that the codec cannot read.
pub proof fn law_invalid_states_do_not_open(state: SessionStateView, session_id: Seq<char>)
    requires
        !state.valid(session_id),
    ensures
        match opened(OpeningView::Decoded(state), session_id) {
            Ok(_) => false,
            Err(StoreErrorView::InvalidState(_)) => true,
            Err(StoreErrorView::Protocol(message)) => state.in_flight matches Some(in_flight)
                && in_flight.decoded == Err::<Operation, Seq<char>>(message),
            Err(_) => false,
        },
{
}

/// A session whose state another process owns does not open, and bytes that are no state are
/// refused as invalid.
pub proof fn law_only_a_free_and_readable_state_opens(session_id: Seq<char>, error: Seq<char>)
    ensures
        opened(OpeningView::InUse, session_id) == Err::<SessionStateView, _>(
            StoreErrorView::StateAlreadyOwned,
        ),
        opened(OpeningView::Undecodable(error), session_id) matches Err(
            StoreErrorView::InvalidState(_),
        ),
{
}

/// A session that was never made durable opens without an owner, with nothing pending or in flight,
/// at sequence one.
pub proof fn law_first_opening_starts_fresh(session_id: Seq<char>)
    ensures
        opened(OpeningView::Missing, session_id) matches Ok(state)
            && state.owner is None
            && state.pending is None
            && state.in_flight is None
                && state.next_sequence == 1
                && state.session_id == session_id,
{
}

/// An instance that is not the confirmed owner can begin an acquisition whenever nothing is
/// unresolved.
pub proof fn law_settled_session_can_be_acquired(
    state: SessionStateView,
    session_id: Seq<char>,
    instance: Seq<char>,
)
    requires
        state.valid(session_id),
        SessionOwnerInstanceId::flaw(instance) is None,
        state.in_flight is None,
        state.pending is None,
        !(state.owner is Some && state.owner->0.owner_instance_id == instance),
    ensures
        begun(state, session_id, instance) == Ok::<_, StoreErrorView>(
            SessionStateView {
                pending: Some(
                    OwnerView { owner_epoch: expected_epoch(state), owner_instance_id: instance },
                ),
                ..state
            },
        ),
{
}

/// A confirmed acquisition starts the owner's sequence at one with nothing unresolved. It replaces
/// a confirmed owner at exactly the next epoch.
pub proof fn law_confirmation_restarts_the_sequence(
    state: SessionStateView,
    session_id: Seq<char>,
    instance: Seq<char>,
    owner_epoch: u64,
)
    requires
        state.valid(session_id),
        SessionOwnerInstanceId::flaw(instance) is None,
        begun(state, session_id, instance) is Ok,
        owner_epoch > 0,
    ensures
        ({
            let answer = confirmed(
                begun(state, session_id, instance)->Ok_0,
                session_id,
                owner_epoch,
            );
            if epoch_may_follow(expected_epoch(state), owner_epoch, state.owner is Some) {
                answer == Ok::<_, StoreErrorView>(
                    SessionStateView {
                        owner: Some(OwnerView { owner_epoch, owner_instance_id: instance }),
                        pending: None,
                        next_sequence: 1,
                        in_flight: None,
                        ..state
                    },
                )
            } else {
                answer is Err
            }
        }),
        state.owner is Some && confirmed(
            begun(state, session_id, instance)->Ok_0,
            session_id,
            owner_epoch,
        ) is Ok ==> owner_epoch == state.owner->0.owner_epoch + 1,
{
}

/// An owner with nothing unresolved can reserve any mutation whose frame the codec reads back.
pub proof fn law_owner_can_reserve(
    state: SessionStateView,
    session_id: Seq<char>,
    request: OutgoingRequest,
)
    requires
        state.valid(session_id),
        state.owner is Some,
        state.pending is None,
        state.in_flight is None,
        state.next_sequence < u64::MAX,
        request.operation != Operation::Health,
        request.encoding matches Ok(stored) && (stored.decoded matches Ok(operation) && operation
            != Operation::Health),
    ensures
        reserved(state, session_id, request) == Ok::<_, StoreErrorView>(
            SessionStateView {
                in_flight: Some(
                    in_flight_of(state.owner->0, state.next_sequence, request.encoding->Ok_0),
                ),
                ..state
            },
        ),
{
}

/// A reserved command that is acknowledged consumes exactly one sequence and changes nothing else.
pub proof fn law_acknowledged_reservation_advances_by_one(
    state: SessionStateView,
    session_id: Seq<char>,
    request: OutgoingRequest,
)
    requires
        state.valid(session_id),
        reserved(state, session_id, request) is Ok,
    ensures
        ({
            let held = reserved(state, session_id, request)->Ok_0;
            acknowledged(
                held,
                session_id,
                in_flight_identity(session_id, held.in_flight->0),
            ) == Ok::<
                _,
                StoreErrorView,
            >(SessionStateView { next_sequence: (state.next_sequence + 1) as u64, ..state })
        }),
{
    let held = reserved(state, session_id, request)->Ok_0;
    assert(held.next_sequence == state.next_sequence);
    assert(in_flight_failure(held.in_flight) is None);
}

/// A reserved command that is released as rejected leaves the session as it was before the
/// reservation.
pub proof fn law_released_reservation_leaves_no_trace(
    state: SessionStateView,
    session_id: Seq<char>,
    request: OutgoingRequest,
)
    requires
        state.valid(session_id),
        reserved(state, session_id, request) is Ok,
    ensures
        ({
            let held = reserved(state, session_id, request)->Ok_0;
            released(held, session_id, in_flight_identity(session_id, held.in_flight->0)) == Ok::<
                _,
                StoreErrorView,
            >(state)
        }),
{
    let held = reserved(state, session_id, request)->Ok_0;
    assert(in_flight_failure(held.in_flight) is None);
    assert(SessionStateView { in_flight: None::<InFlightView>, ..held } == state);
}

/// While a command is in flight nothing else can be reserved and no owner can be acquired.
pub proof fn law_command_in_flight_blocks(
    state: SessionStateView,
    session_id: Seq<char>,
    instance: Seq<char>,
    request: OutgoingRequest,
)
    requires
        state.in_flight is Some,
    ensures
        begun(state, session_id, instance) matches Err(StoreErrorView::OperationBlocked(_)),
        reserved(state, session_id, request) matches Err(StoreErrorView::OperationBlocked(_)),
{
}

/// While an acquisition is pending nothing can be reserved and no other acquisition can begin.
pub proof fn law_pending_acquisition_blocks(
    state: SessionStateView,
    session_id: Seq<char>,
    instance: Seq<char>,
    request: OutgoingRequest,
)
    requires
        state.pending is Some,
    ensures
        begun(state, session_id, instance) matches Err(StoreErrorView::OperationBlocked(_)),
        reserved(state, session_id, request) matches Err(StoreErrorView::OperationBlocked(_)),
{
}

/// Only the exact identity of the command in flight resolves it.
pub proof fn law_only_the_exact_identity_resolves(
    state: SessionStateView,
    session_id: Seq<char>,
    identity: IdentityView,
)
    requires
        state.valid(session_id),
    ensures
        acknowledged(state, session_id, identity) is Ok
            || released(state, session_id, identity) is Ok
            ==> (state.in_flight matches Some(in_flight) && identity == in_flight_identity(
            session_id,
            in_flight,
        )),
{
}

/// Whether plain values name an owner: a positive epoch and a proper instance.
pub open spec fn names_an_owner(owner: OwnerView) -> bool {
    owner.owner_epoch > 0 && SessionOwnerInstanceId::flaw(owner.owner_instance_id) is None
}

/// A state is a valid one of a session exactly when it has the known version and the id of that
/// session, every owner in it is one, a sequence is never zero, a session without an owner stands
/// at the first sequence, and a command in flight is a readable mutation of the owner at the next
/// sequence, with no acquisition pending beside it.
pub proof fn law_what_valid_states_are(state: SessionStateView, session_id: Seq<char>)
    ensures
        state.valid(session_id) <==> {
            &&& state.version == 1
            &&& state.session_id == session_id
            &&& CommandSessionId::flaw(session_id) is None
            &&& state.next_sequence > 0
            &&& state.owner matches Some(owner) ==> names_an_owner(owner)
            &&& state.pending matches Some(pending) ==> names_an_owner(pending)
            &&& state.owner is None ==> state.next_sequence == 1 && state.in_flight is None
            &&& state.in_flight matches Some(in_flight) ==> {
                &&& state.pending is None
                &&& state.owner == Some(
                    OwnerView {
                        owner_epoch: in_flight.owner_epoch,
                        owner_instance_id: in_flight.owner_instance_id,
                    },
                )
                &&& in_flight.sequence == state.next_sequence
                &&& (in_flight.decoded matches Ok(operation) && operation != Operation::Health)
            }
        },
{
    if let Some(in_flight) = state.in_flight {
        if let Some(owner) = state.owner {
            assert(OwnerView {
                owner_epoch: owner.owner_epoch,
                owner_instance_id: owner.owner_instance_id,
            } == owner);
        }
    }
}

/// A confirmed owner is replaced at exactly the next epoch. A first owner gets the expected epoch
/// or the next one.
pub proof fn law_epochs_follow_by_at_most_one(expected: u64, actual: u64)
    ensures
        epoch_may_follow(expected, actual, true) <==> actual - expected == 1,
        epoch_may_follow(expected, actual, false) <==> actual - expected == 1 || actual - expected
            == 0,
{
}

/// An acquisition expects the epoch of the confirmed owner, and the first epoch where there is
/// none.
pub proof fn law_acquisitions_expect_the_epoch_of_the_owner(
    state: SessionStateView,
    session_id: Seq<char>,
    instance: Seq<char>,
)
    requires
        begun(state, session_id, instance) is Ok,
    ensures
        ({
            let next = begun(state, session_id, instance)->Ok_0;
            &&& next.pending matches Some(pending)
            &&& pending.owner_instance_id == instance
            &&& state.owner matches Some(owner) ==> pending.owner_epoch == owner.owner_epoch
            &&& state.owner is None ==> pending.owner_epoch == 1
            &&& next.owner == state.owner
            &&& next.next_sequence == state.next_sequence
            &&& next.session_id == state.session_id
            &&& next.version == state.version
            &&& next.in_flight is None
        }),
{
}

/// An instance that owns the session does not acquire it again.
pub proof fn law_owners_do_not_reacquire(
    state: SessionStateView,
    session_id: Seq<char>,
    instance: Seq<char>,
)
    requires
        state.owner matches Some(owner) && owner.owner_instance_id == instance,
    ensures
        begun(state, session_id, instance) is Err,
        state.valid(session_id) ==> (begun(state, session_id, instance) matches Err(
            StoreErrorView::OperationBlocked(_),
        )),
{
}

/// A confirmation makes the pending instance the owner at the confirmed epoch, at the first
/// sequence and with nothing unresolved. Without a pending acquisition there is nothing to confirm.
pub proof fn law_confirmations_make_the_pending_instance_the_owner(
    state: SessionStateView,
    session_id: Seq<char>,
    owner_epoch: u64,
)
    requires
        state.valid(session_id),
        owner_epoch > 0,
    ensures
        match (state.pending, confirmed(state, session_id, owner_epoch)) {
            (None, Err(StoreErrorView::InvalidState(_))) => true,
            (Some(pending), Ok(next)) => {
                &&& owner_epoch == pending.owner_epoch + 1 || (owner_epoch == pending.owner_epoch
                    && state.owner is None)
                &&& next.owner == Some(
                    OwnerView { owner_epoch, owner_instance_id: pending.owner_instance_id },
                )
                &&& next.pending is None
                &&& next.in_flight is None
                &&& next.next_sequence == 1
                &&& next.session_id == state.session_id
                &&& next.version == state.version
            },
            (Some(pending), Err(StoreErrorView::InvalidState(_))) => owner_epoch
                != pending.owner_epoch + 1 && (owner_epoch != pending.owner_epoch
                || state.owner is Some),
            _ => false,
        },
{
}

/// A reservation puts the frame of the request in flight for the owner at the next sequence and
/// changes nothing else.
pub proof fn law_reservations_hold_the_request(
    state: SessionStateView,
    session_id: Seq<char>,
    request: OutgoingRequest,
)
    requires
        reserved(state, session_id, request) is Ok,
    ensures
        ({
            let next = reserved(state, session_id, request)->Ok_0;
            &&& state.owner matches Some(owner)
            &&& request.encoding matches Ok(stored)
            &&& next.in_flight matches Some(in_flight)
            &&& in_flight.owner_epoch == owner.owner_epoch
            &&& in_flight.owner_instance_id == owner.owner_instance_id
            &&& in_flight.sequence == state.next_sequence
            &&& in_flight.frame == stored.frame@
            &&& (stored.decoded matches Ok(operation) && in_flight.decoded == Ok::<_, Seq<char>>(
                operation,
            ))
            &&& next.owner == state.owner
            &&& next.pending == state.pending
            &&& next.next_sequence == state.next_sequence
            &&& next.session_id == state.session_id
            &&& next.version == state.version
        }),
{
}

/// What a valid session without anything unresolved refuses to reserve: an observation, a command
/// past the last sequence, a command without an owner, and a request that could not be encoded or
/// that does not read back as a mutation. Nothing else is refused.
pub proof fn law_what_is_not_reserved(
    state: SessionStateView,
    session_id: Seq<char>,
    request: OutgoingRequest,
)
    requires
        state.valid(session_id),
        state.pending is None,
        state.in_flight is None,
    ensures
        match reserved(state, session_id, request) {
            Ok(_) => {
                &&& request.operation != Operation::Health
                &&& state.next_sequence < u64::MAX
                &&& state.owner is Some
                &&& request.encoding is Ok
            },
            Err(StoreErrorView::SequenceExhausted) => state.next_sequence == u64::MAX || (
            request.encoding matches Err(error) && error@ == StoreErrorView::SequenceExhausted),
            Err(failure) => {
                ||| request.operation == Operation::Health && failure is OperationBlocked
                ||| state.owner is None && failure is OperationBlocked
                ||| request.encoding matches Err(error) && error@ == failure
                ||| request.encoding matches Ok(stored) && match stored.decoded {
                    Ok(operation) => operation == Operation::Health && failure is InvalidState,
                    Err(message) => failure == StoreErrorView::Protocol(message@),
                }
            },
        },
{
}

/// The command in flight is resolved by its own identity: acknowledged, it consumes its sequence;
/// released, it does not. Either way nothing else changes.
pub proof fn law_own_identities_resolve(state: SessionStateView, session_id: Seq<char>)
    requires
        state.valid(session_id),
        state.in_flight is Some,
    ensures
        ({
            let in_flight = state.in_flight->0;
            let identity = IdentityView {
                session_id,
                owner_epoch: in_flight.owner_epoch,
                owner_instance_id: Some(in_flight.owner_instance_id),
                sequence: in_flight.sequence,
            };
            &&& released(state, session_id, identity) matches Ok(freed)
            &&& freed.in_flight is None
            &&& freed.pending == state.pending
            &&& freed.next_sequence == state.next_sequence
            &&& freed.owner == state.owner
            &&& freed.session_id == state.session_id
            &&& freed.version == state.version
            &&& if state.next_sequence == u64::MAX {
                acknowledged(state, session_id, identity) == Err::<SessionStateView, _>(
                    StoreErrorView::SequenceExhausted,
                )
            } else {
                &&& acknowledged(state, session_id, identity) matches Ok(settled)
                &&& settled.in_flight is None
                &&& settled.pending == state.pending
                &&& settled.next_sequence == state.next_sequence + 1
                &&& settled.owner == state.owner
                &&& settled.session_id == state.session_id
                &&& settled.version == state.version
            }
        }),
{
}

/// Another identity resolves nothing, and neither does any identity where nothing is in flight.
pub proof fn law_other_identities_resolve_nothing(
    state: SessionStateView,
    session_id: Seq<char>,
    identity: IdentityView,
)
    requires
        state.valid(session_id),
        state.in_flight matches Some(in_flight) ==> {
            ||| identity.session_id != session_id
            ||| identity.owner_epoch != in_flight.owner_epoch
            ||| identity.owner_instance_id != Some(in_flight.owner_instance_id)
            ||| identity.sequence != in_flight.sequence
        },
    ensures
        acknowledged(state, session_id, identity) matches Err(StoreErrorView::InvalidState(_)),
        released(state, session_id, identity) matches Err(StoreErrorView::InvalidState(_)),
{
}

/// A command that stands for the one in flight has its identity, its frame and its operation.
pub proof fn law_commands_in_flight_are_exact(
    command: ReservedView,
    session_id: Seq<char>,
    in_flight: InFlightView,
)
    ensures
        is_in_flight(command, session_id, in_flight) <==> {
            &&& command.identity.session_id == session_id
            &&& command.identity.owner_epoch == in_flight.owner_epoch
            &&& command.identity.owner_instance_id == Some(in_flight.owner_instance_id)
            &&& command.identity.sequence == in_flight.sequence
            &&& command.frame == in_flight.frame
            &&& in_flight.decoded matches Ok(operation)
            &&& operation == command.operation
        },
{
}

/// A pending acquisition is told as it was reserved.
pub proof fn law_pending_acquisitions_are_told_as_reserved(
    session_id: Seq<char>,
    pending: OwnerView,
)
    ensures
        pending_view(session_id, pending).session_id == session_id,
        pending_view(session_id, pending).expected_owner_epoch == pending.owner_epoch,
        pending_view(session_id, pending).owner_instance_id == pending.owner_instance_id,
{
}

} // verus!
