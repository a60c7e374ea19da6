//! Execution of mutations with durable local state and exact retries.
use crate::client::{BrokerClient, BrokerTransport};
use crate::client_config::DurableRetryPolicy;
use crate::client_error::{ClientError, DurableExecutionError};
use crate::command_identity::CommandIdentity;
use crate::error::BrokerErrorDisposition;
use crate::protocol::{BrokerRequest, ProtocolCodec, ProtocolCodecError, SuccessPayload};
use crate::session_state::{
    acknowledged, in_flight_failure, is_in_flight, released, ClientSessionStoreError,
    OutgoingRequest, ReservedCommand, StoreErrorView, StoredRequest,
};
use crate::session_store::{DurableClientSessionStore, SessionJournal};
use vstd::prelude::*;

verus! {

/// What follows one attempt at a reserved command.
#[derive(Debug, Clone, Copy, PartialEq, Eq, Structural)]
pub enum AttemptDecision {
    /// The outcome is definitive: consume the sequence, then report it.
    Acknowledge,
    /// The command was rejected before it was stored: free it, then report it.
    Release,
    /// The outcome is unknown: send the same frame again.
    Retry,
    /// Report the outcome and keep the command in flight.
    Report,
}

/// What follows the outcome of attempt `attempt` of at most `max_attempts`.
pub open spec fn attempt_decision(
    outcome: Result<SuccessPayload, ClientError>,
    attempt: usize,
    max_attempts: usize,
) -> AttemptDecision {
    match outcome {
        Ok(_) => AttemptDecision::Acknowledge,
        Err(ClientError::Broker(error)) => match error@.disposition {
            BrokerErrorDisposition::Committed => AttemptDecision::Acknowledge,
            BrokerErrorDisposition::Rejected => AttemptDecision::Release,
            BrokerErrorDisposition::Unknown => if attempt < max_attempts {
                AttemptDecision::Retry
            } else {
                AttemptDecision::Report
            },
        },
        Err(ClientError::Transport(_)) => if attempt < max_attempts {
            AttemptDecision::Retry
        } else {
            AttemptDecision::Report
        },
        Err(_) => AttemptDecision::Report,
    }
}

/// Decide what follows the outcome of one attempt.
pub fn decide_attempt(
    outcome: &Result<SuccessPayload, ClientError>,
    attempt: usize,
    max_attempts: usize,
) -> (r: AttemptDecision)
    ensures
        r == attempt_decision(*outcome, attempt, max_attempts),
{
    match outcome {
        Ok(_) => AttemptDecision::Acknowledge,
        Err(ClientError::Broker(error)) => match error.disposition() {
            BrokerErrorDisposition::Committed => AttemptDecision::Acknowledge,
            BrokerErrorDisposition::Rejected => AttemptDecision::Release,
            BrokerErrorDisposition::Unknown => if attempt < max_attempts {
                AttemptDecision::Retry
            } else {
                AttemptDecision::Report
            },
        },
        Err(ClientError::Transport(_)) => if attempt < max_attempts {
            AttemptDecision::Retry
        } else {
            AttemptDecision::Report
        },
        Err(_) => AttemptDecision::Report,
    }
}

/// Whether the outcome of a command is ambiguous: the Broker may or may not have stored it.
pub open spec fn is_ambiguous(outcome: Result<SuccessPayload, ClientError>) -> bool {
    match outcome {
        Err(ClientError::Transport(_)) => true,
        Err(ClientError::Broker(error)) => error@.disposition == BrokerErrorDisposition::Unknown,
        _ => false,
    }
}

/// Only ambiguous outcomes are retried, and no attempt follows the last one.
pub proof fn law_retries_are_narrow_and_bounded(
    outcome: Result<SuccessPayload, ClientError>,
    attempt: usize,
    max_attempts: usize,
)
    ensures
        attempt_decision(outcome, attempt, max_attempts) == AttemptDecision::Retry
            <==> is_ambiguous(
            outcome,
        ) && attempt < max_attempts,
{
}

/// An ambiguous outcome never consumes a sequence and never frees the command.
pub proof fn law_ambiguous_outcomes_resolve_nothing(
    outcome: Result<SuccessPayload, ClientError>,
    attempt: usize,
    max_attempts: usize,
)
    requires
        is_ambiguous(outcome),
    ensures
        attempt_decision(outcome, attempt, max_attempts) != AttemptDecision::Acknowledge,
        attempt_decision(outcome, attempt, max_attempts) != AttemptDecision::Release,
{
}

/// What the outcome of the last attempt is reported as.
pub open spec fn told_outcome(outcome: Result<SuccessPayload, ClientError>) -> Result<
    SuccessPayload,
    DurableExecutionError,
> {
    match outcome {
        Ok(payload) => Ok(payload),
        Err(error) => Err(DurableExecutionError::Client(error)),
    }
}

/// What is reported after the local state was brought in line with the outcome, or could not be.
pub open spec fn settled_outcome(
    outcome: Result<SuccessPayload, ClientError>,
    resolved: Result<(), ClientSessionStoreError>,
) -> Result<SuccessPayload, DurableExecutionError> {
    match resolved {
        Ok(_) => told_outcome(outcome),
        Err(error) => Err(DurableExecutionError::SessionStore(error)),
    }
}

/// Encode a request for the durable local state.
pub fn outgoing_request<C: ProtocolCodec>(
    codec: &C,
    request: &BrokerRequest,
) -> (r: OutgoingRequest)
    ensures
        r.operation == request.spec_operation(),
        exists|encoded: Result<String, ClientSessionStoreError>| #[trigger]
            call_ensures(C::encode_stored_request, (codec, request), encoded) && match encoded {
                Err(error) => r.encoding == Err::<StoredRequest, _>(error),
                Ok(frame) => exists|text: &str, decoded: Result<BrokerRequest, ProtocolCodecError>|
                    {
                        &&& text@ == frame@
                        &&& #[trigger] call_ensures(C::decode_request, (codec, text), decoded)
                        &&& r.encoding matches Ok(stored) && stored.frame == frame && match decoded {
                            Ok(back) => stored.decoded == Ok::<_, String>(back.spec_operation()),
                            Err(error) => stored.decoded matches Err(message) && message@
                                == error.text(),
                        }
                    },
            },
{
    let operation = request.operation();
    let encoded = codec.encode_stored_request(request);
    match encoded {
        Err(error) => OutgoingRequest { operation, encoding: Err(error) },
        Ok(frame) => {
            let text = frame.as_str();
            let back = codec.decode_request(text);
            let decoded = match &back {
                Ok(request) => Ok(request.operation()),
                Err(error) => Err(error.message()),
            };
            assert(call_ensures(C::decode_request, (codec, text), back));
            OutgoingRequest { operation, encoding: Ok(StoredRequest { frame, decoded }) }
        },
    }
}

impl<C: ProtocolCodec, T: BrokerTransport> BrokerClient<C, T> {
    /// Send a reserved command until its outcome is definitive or the attempts are used up, and
    /// bring the local state in line with the last outcome.
    ///
    /// The client passes through `stages`, each reached from the one before by one attempt with the
    /// outcome at that place in `outcomes`. Every attempt but the last was to be retried.
    pub fn execute_reserved_durable<J: SessionJournal>(
        &mut self,
        store: &mut DurableClientSessionStore<J>,
        command: &ReservedCommand,
        request: &BrokerRequest,
        policy: DurableRetryPolicy,
    ) -> (r: Result<SuccessPayload, DurableExecutionError>)
        ensures
            final(store).spec_session() == old(store).spec_session(),
            old(store).is_valid() ==> final(store).is_valid(),
            match r {
                Ok(_) => acknowledged(
                    old(store).spec_state(),
                    old(store).spec_session(),
                    command@.identity,
                ) == Ok::<_, StoreErrorView>(final(store).spec_state()),
                Err(DurableExecutionError::Client(ClientError::Broker(error))) => {
                    match error@.disposition {
                        BrokerErrorDisposition::Committed => acknowledged(
                            old(store).spec_state(),
                            old(store).spec_session(),
                            command@.identity,
                        ) == Ok::<_, StoreErrorView>(final(store).spec_state()),
                        BrokerErrorDisposition::Rejected => released(
                            old(store).spec_state(),
                            old(store).spec_session(),
                            command@.identity,
                        ) == Ok::<_, StoreErrorView>(final(store).spec_state()),
                        BrokerErrorDisposition::Unknown => *final(store) == *old(store),
                    }
                },
                Err(DurableExecutionError::Client(_)) => *final(store) == *old(store),
                Err(DurableExecutionError::SessionStore(_)) => final(store).spec_state()
                    == old(store).spec_state(),
            },
            exists|stages: Seq<Self>, outcomes: Seq<Result<SuccessPayload, ClientError>>|
                #![trigger stages.last(), outcomes.last()]
                {
                    &&& stages.len() == outcomes.len() + 1
                    &&& stages[0] == *old(self)
                    &&& stages.last() == *final(self)
                    &&& 0 < outcomes.len() <= policy@
                    &&& forall|i: int|
                        0 <= i < outcomes.len() ==> {
                            &&& attempt_decision(#[trigger] outcomes[i], (i + 1) as usize, policy@)
                                == AttemptDecision::Retry <==> i < outcomes.len() - 1
                            &&& exists|client: &mut Self|
                                *client == stages[i] && *final(client) == stages[i + 1]
                                    && #[trigger] call_ensures(
                                    BrokerClient::<C, T>::execute_owned,
                                    (client, &command.spec_identity(), request),
                                    outcomes[i],
                                )
                        }
                    &&& match attempt_decision(
                        outcomes.last(),
                        outcomes.len() as usize,
                        policy@,
                    ) {
                        AttemptDecision::Acknowledge => exists|
                            kept: &mut DurableClientSessionStore<J>,
                            resolved: Result<(), ClientSessionStoreError>,
                        |
                            *kept == *old(store) && *final(kept) == *final(store)
                                && #[trigger] call_ensures(
                                DurableClientSessionStore::<J>::acknowledge_in_flight_outcome,
                                (kept, &command.spec_identity()),
                                resolved,
                            ) && r == settled_outcome(outcomes.last(), resolved),
                        AttemptDecision::Release => exists|
                            kept: &mut DurableClientSessionStore<J>,
                            resolved: Result<(), ClientSessionStoreError>,
                        |
                            *kept == *old(store) && *final(kept) == *final(store)
                                && #[trigger] call_ensures(
                                DurableClientSessionStore::<J>::release_rejected_in_flight,
                                (kept, &command.spec_identity()),
                                resolved,
                            ) && r == settled_outcome(outcomes.last(), resolved),
                        _ => *final(store) == *old(store) && r == told_outcome(outcomes.last()),
                    }
                },
    {
        let max_attempts: usize = policy.max_attempts();
        let ghost mut stages: Seq<Self> = seq![*self];
        let ghost mut outcomes: Seq<Result<SuccessPayload, ClientError>> = Seq::empty();
        let mut attempt: usize = 1;
        loop
            invariant
                1 <= attempt <= max_attempts,
                max_attempts == policy@,
                *store == *old(store),
                outcomes.len() == attempt - 1,
                stages.len() == outcomes.len() + 1,
                stages[0] == *old(self),
                stages.last() == *self,
                forall|i: int|
                    0 <= i < outcomes.len() ==> {
                        &&& attempt_decision(#[trigger] outcomes[i], (i + 1) as usize, policy@)
                            == AttemptDecision::Retry
                        &&& exists|client: &mut Self|
                            *client == stages[i] && *final(client) == stages[i + 1]
                                && #[trigger] call_ensures(
                                BrokerClient::<C, T>::execute_owned,
                                (client, &command.spec_identity(), request),
                                outcomes[i],
                            )
                    },
            decreases max_attempts - attempt,
        {
            let ghost at = outcomes.len() as int;
            let ghost earlier = stages;
            let ghost before = outcomes;
            let outcome = self.execute_owned(command.identity(), request);
            proof {
                stages = stages.push(*self);
                outcomes = outcomes.push(outcome);
                assert forall|i: int| 0 <= i < outcomes.len() implies {
                    &&& attempt_decision(#[trigger] outcomes[i], (i + 1) as usize, policy@)
                        == attempt_decision(
                        if i < at {
                            before[i]
                        } else {
                            outcome
                        },
                        (i + 1) as usize,
                        policy@,
                    )
                    &&& exists|client: &mut Self|
                        *client == stages[i] && *final(client) == stages[i + 1]
                            && #[trigger] call_ensures(
                            BrokerClient::<C, T>::execute_owned,
                            (client, &command.spec_identity(), request),
                            outcomes[i],
                        )
                } by {
                    if i < at {
                        assert(stages[i] == earlier[i] && stages[i + 1] == earlier[i + 1]);
                        assert(outcomes[i] == before[i]);
                    } else {
                        assert(stages[i] == earlier.last() && stages[i + 1] == *self);
                        assert(outcomes[i] == outcome);
                    }
                }
                assert(stages.last() == *self && outcomes.last() == outcome);
            }
            match decide_attempt(&outcome, attempt, max_attempts) {
                AttemptDecision::Acknowledge => {
                    let resolved = store.acknowledge_in_flight_outcome(command.identity());
                    return settled(outcome, resolved);
                },
                AttemptDecision::Release => {
                    let resolved = store.release_rejected_in_flight(command.identity());
                    return settled(outcome, resolved);
                },
                AttemptDecision::Retry => {
                    attempt = attempt + 1;
                },
                AttemptDecision::Report => return settled(outcome, Ok(())),
            }
        }
    }

    /// Reserve a mutation durably, then execute it. Unknown outcomes are retried with the same
    /// identity and request only. When the attempts are used up the command stays in flight.
    pub fn execute_durable<J: SessionJournal>(
        &mut self,
        store: &mut DurableClientSessionStore<J>,
        request: BrokerRequest,
        policy: DurableRetryPolicy,
    ) -> (r: Result<SuccessPayload, DurableExecutionError>)
        ensures
            final(store).spec_session() == old(store).spec_session(),
            old(store).is_valid() ==> final(store).is_valid(),
            exists|
                outgoing: OutgoingRequest,
                reserving: &mut DurableClientSessionStore<J>,
                reservation: Result<ReservedCommand, ClientSessionStoreError>,
            |
                {
                    &&& #[trigger] call_ensures(
                        outgoing_request::<C>,
                        (&old(self).spec_codec(), &request),
                        outgoing,
                    )
                    &&& *reserving == *old(store)
                    &&& #[trigger] call_ensures(
                        DurableClientSessionStore::<J>::reserve_command,
                        (reserving, outgoing),
                        reservation,
                    )
                    &&& match reservation {
                        Err(error) => {
                            &&& *final(self) == *old(self)
                            &&& *final(store) == *final(reserving)
                            &&& r == Err::<SuccessPayload, _>(
                                DurableExecutionError::SessionStore(error),
                            )
                        },
                        Ok(command) => exists|
                            client: &mut Self,
                            kept: &mut DurableClientSessionStore<J>,
                        |
                            {
                                &&& *client == *old(self) && *final(client) == *final(self)
                                &&& *kept == *final(reserving) && *final(kept) == *final(store)
                                &&& #[trigger] call_ensures(
                                    BrokerClient::<C, T>::execute_reserved_durable::<J>,
                                    (client, kept, &command, &request, policy),
                                    r,
                                )
                            },
                    }
                },
    {
        let outgoing = outgoing_request(self.codec(), &request);
        assert(call_ensures(
            outgoing_request::<C>,
            (&old(self).spec_codec(), &request),
            outgoing,
        ));
        let reservation = store.reserve_command(outgoing);
        match reservation {
            Ok(command) => self.execute_reserved_durable(store, &command, &request, policy),
            Err(error) => Err(DurableExecutionError::SessionStore(error)),
        }
    }

    /// Retry the exact command that is in flight after a restart or after earlier attempts were
    /// used up.
    pub fn recover_durable_in_flight<J: SessionJournal>(
        &mut self,
        store: &mut DurableClientSessionStore<J>,
        policy: DurableRetryPolicy,
    ) -> (r: Result<SuccessPayload, DurableExecutionError>)
        ensures
            final(store).spec_session() == old(store).spec_session(),
            old(store).is_valid() ==> final(store).is_valid(),
            match old(store).spec_state().in_flight {
                None => *final(self) == *old(self)
                    && *final(store) == *old(store)
                    && (r matches Err(
                    DurableExecutionError::SessionStore(error),
                ) && error@ == StoreErrorView::InvalidState(
                    "cannot recover durable execution without an in-flight command"@,
                )),
                Some(in_flight) => match in_flight_failure(Some(in_flight)) {
                    Some(failure) => *final(self) == *old(self) && *final(store) == *old(store) && (
                    r matches Err(DurableExecutionError::SessionStore(error)) && error@ == failure),
                    None => exists|
                        command: ReservedCommand,
                        text: &str,
                        decoded: Result<BrokerRequest, ProtocolCodecError>,
                    |
                        {
                            &&& #[trigger] is_in_flight(
                                command@,
                                old(store).spec_session(),
                                in_flight,
                            )
                            &&& text@ == command@.frame
                            &&& #[trigger] call_ensures(
                                C::decode_request,
                                (&old(self).spec_codec(), text),
                                decoded,
                            )
                            &&& match decoded {
                                Err(error) => {
                                    &&& *final(self) == *old(self)
                                    &&& *final(store) == *old(store)
                                    &&& r matches Err(DurableExecutionError::SessionStore(failure))
                                        && failure@ == StoreErrorView::Protocol(error.text())
                                },
                                Ok(request) => exists|
                                    client: &mut Self,
                                    kept: &mut DurableClientSessionStore<J>,
                                |
                                    {
                                        &&& *client == *old(self) && *final(client) == *final(self)
                                        &&& *kept == *old(store) && *final(kept) == *final(store)
                                        &&& #[trigger] call_ensures(
                                            BrokerClient::<C, T>::execute_reserved_durable::<J>,
                                            (client, kept, &command, &request, policy),
                                            r,
                                        )
                                    },
                            }
                        },
                },
            },
    {
        let command = match store.in_flight() {
            Ok(Some(command)) => command,
            Ok(None) => {
                return Err(
                    DurableExecutionError::SessionStore(
                        ClientSessionStoreError::InvalidState(
                            "cannot recover durable execution without an in-flight command"
                                .to_owned(),
                        ),
                    ),
                );
            },
            Err(error) => return Err(DurableExecutionError::SessionStore(error)),
        };
        let text = command.request();
        let decoded = self.codec().decode_request(text);
        assert(call_ensures(C::decode_request, (&self.spec_codec(), text), decoded));
        match decoded {
            Ok(request) => self.execute_reserved_durable(store, &command, &request, policy),
            Err(error) => Err(
                DurableExecutionError::SessionStore(
                    ClientSessionStoreError::Protocol(error.message()),
                ),
            ),
        }
    }
}

/// Report the outcome of an attempt after the local state was brought in line with it.
fn settled(
    outcome: Result<SuccessPayload, ClientError>,
    resolved: Result<(), ClientSessionStoreError>,
) -> (r: Result<SuccessPayload, DurableExecutionError>)
    ensures
        r == settled_outcome(outcome, resolved),
{
    match resolved {
        Ok(_) => match outcome {
            Ok(payload) => Ok(payload),
            Err(error) => Err(DurableExecutionError::Client(error)),
        },
        Err(error) => Err(DurableExecutionError::SessionStore(error)),
    }
}

} // verus!
