//! Reusable client of the Broker protocol.
use crate::client_config::{
    config_flaw, is_invalid_request, next_request_id, request_id_text, BrokerClientConfig,
    RequestSource,
};
use crate::client_error::{
    classify_response, client_outcome, closes_connection, is_connection_failure, ClientError,
};
use crate::client_payloads::{
    consumer_group_result, health_result, heartbeat_result, namespace_result,
    payload_consumer_group_result, payload_health_result, payload_heartbeat_result,
    payload_namespace_result, payload_task_claim_result, payload_task_completed_result,
    payload_task_lease_renewed_result, payload_task_published_result, task_claim_result,
    task_completed_result, task_lease_renewed_result, task_published_result,
};
use crate::command_identity::{
    CommandIdentity, CommandSessionId, SessionOwnerEpoch, SessionOwnerInstanceId,
};
use crate::domain::{
    Capabilities, ConsumerGroupId, Generation, LeaseDurationMs, LeaseEpoch, LeaseId, MemberId,
    NamespaceId, TaskId, TaskObjective, TaskResult, Term,
};
use crate::protocol::{
    BrokerRequest, ProtocolCodec, ProtocolCodecError, ProtocolVersion, RequestBody,
    ResponseDecodeError, SuccessPayload,
};
use crate::results::{
    ConsumerGroupResult, HeartbeatResult, NamespaceResult, TaskClaimResult, TaskCompletedResult,
    TaskLeaseRenewedResult, TaskPublishedResult,
};
use crate::service::BrokerHealth;
use vstd::prelude::*;

verus! {

/// Connection of one client.
pub trait BrokerTransport: Sized {
    /// Send one frame and read one answer frame, within the bounds of `config`. A closed connection
    /// is opened first.
    fn round_trip(&mut self, config: &BrokerClientConfig, frame: &Vec<u8>) -> Result<
        Vec<u8>,
        ClientError,
    >;

    /// Drop the connection, if there is one.
    fn close(&mut self);
}

/// Parameters of a claim.
#[derive(Debug, Clone, PartialEq, Eq)]
pub struct ClaimInput {
    pub group_id: ConsumerGroupId,
    pub member_id: MemberId,
    pub expected_term: Term,
    pub expected_generation: Generation,
    pub lease_id: LeaseId,
    pub lease_duration: LeaseDurationMs,
}

/// Parameters of a lease renewal.
#[derive(Debug, Clone, PartialEq, Eq)]
pub struct RenewInput {
    pub task_id: TaskId,
    pub group_id: ConsumerGroupId,
    pub member_id: MemberId,
    pub expected_term: Term,
    pub expected_generation: Generation,
    pub expected_lease_epoch: LeaseEpoch,
    pub lease_id: LeaseId,
    pub lease_duration: LeaseDurationMs,
}

/// Parameters of a completion.
#[derive(Debug, Clone, PartialEq, Eq)]
pub struct CompleteInput {
    pub task_id: TaskId,
    pub group_id: ConsumerGroupId,
    pub member_id: MemberId,
    pub expected_term: Term,
    pub expected_generation: Generation,
    pub expected_lease_epoch: LeaseEpoch,
    pub lease_id: LeaseId,
    pub result: TaskResult,
}

/// Reusable client. It retries nothing on its own.
pub struct BrokerClient<C: ProtocolCodec, T: BrokerTransport> {
    config: BrokerClientConfig,
    codec: C,
    transport: T,
    request_sequence: u64,
}

impl<C: ProtocolCodec, T: BrokerTransport> BrokerClient<C, T> {
    pub closed spec fn spec_config(&self) -> BrokerClientConfig {
        self.config
    }

    pub closed spec fn spec_codec(&self) -> C {
        self.codec
    }

    pub closed spec fn spec_transport(&self) -> T {
        self.transport
    }

    /// The number of request ids used so far.
    pub closed spec fn spec_requests(&self) -> u64 {
        self.request_sequence
    }

    /// A client that has not connected yet.
    pub fn new(config: BrokerClientConfig, codec: C, transport: T) -> (r: Result<Self, ClientError>)
        ensures
            match config_flaw(config) {
                None => r matches Ok(client) && client.spec_config() == config
                    && client.spec_codec() == codec && client.spec_transport() == transport
                    && client.spec_requests() == 0,
                Some(reason) => r matches Err(error) && is_invalid_request(error, reason),
            },
    {
        match config.validate() {
            Ok(config) => Ok(BrokerClient { config, codec, transport, request_sequence: 0 }),
            Err(error) => Err(error),
        }
    }

    /// Drop the connection. Configuration and request ids stay.
    pub fn close(&mut self)
        ensures
            final(self).spec_codec() == old(self).spec_codec(),
            final(self).spec_config() == old(self).spec_config(),
            final(self).spec_requests() == old(self).spec_requests(),
            exists|transport: &mut T|
                *transport == old(self).spec_transport()
                    && *final(transport) == final(self).spec_transport()
                    && #[trigger] call_ensures(T::close, (transport,), ()),
    {
        self.transport.close();
    }

    /// The codec of this client.
    pub fn codec(&self) -> (r: &C)
        ensures
            *r == self.spec_codec(),
    {
        &self.codec
    }

    /// Send one frame. Every failure closes the connection.
    pub fn round_trip_encoded(&mut self, frame: &Vec<u8>) -> (r: Result<Vec<u8>, ClientError>)
        ensures
            final(self).spec_codec() == old(self).spec_codec(),
            final(self).spec_config() == old(self).spec_config(),
            final(self).spec_requests() == old(self).spec_requests(),
            exists|transport: &mut T|
                {
                    &&& *transport == old(self).spec_transport()
                    &&& #[trigger] call_ensures(
                        T::round_trip,
                        (transport, &old(self).spec_config(), frame),
                        r,
                    )
                    &&& if r is Err {
                        exists|closing: &mut T|
                            *closing == *final(transport)
                                && *final(closing) == final(self).spec_transport()
                                && #[trigger] call_ensures(T::close, (closing,), ())
                    } else {
                        final(self).spec_transport() == *final(transport)
                    }
                },
    {
        let sent = self.transport.round_trip(&self.config, frame);
        if sent.is_err() {
            self.transport.close();
        }
        sent
    }

    /// Send an encoded request and read its answer.
    pub fn answer(
        &mut self,
        version: ProtocolVersion,
        encoded: Result<Vec<u8>, ProtocolCodecError>,
        request: &BrokerRequest,
    ) -> (r: Result<SuccessPayload, ClientError>)
        ensures
            final(self).spec_codec() == old(self).spec_codec(),
            final(self).spec_config() == old(self).spec_config(),
            final(self).spec_requests() == old(self).spec_requests(),
            match encoded {
                    Err(error) => *final(self) == *old(self) && r == Err::<SuccessPayload, _>(
                        ClientError::Protocol(error),
                    ),
                    Ok(frame) => exists|transport: &mut T, sent: Result<Vec<u8>, ClientError>|
                        {
                            &&& *transport == old(self).spec_transport()
                            &&& #[trigger] call_ensures(
                                T::round_trip,
                                (transport, &old(self).spec_config(), &frame),
                                sent,
                            )
                            &&& match sent {
                                Err(error) => r == Err::<SuccessPayload, _>(error)
                                    && exists|closing: &mut T|
                                    *closing == *final(transport)
                                        && *final(closing) == final(self).spec_transport()
                                        && #[trigger] call_ensures(
                                        T::close,
                                        (closing,),
                                        (),
                                    ),
                                Ok(response) => exists|
                                    decoded: Result<SuccessPayload, ResponseDecodeError>,
                                |
                                    {
                                        &&& #[trigger] call_ensures(
                                            C::decode_response,
                                            (
                                                &old(self).spec_codec(),
                                                version,
                                                &response,
                                                &request.request_id,
                                                request.spec_operation(),
                                                old(self).spec_config().max_response_frame_bytes,
                                            ),
                                            decoded,
                                        )
                                        &&& r == client_outcome(decoded)
                                        &&& if is_connection_failure(r) {
                                            exists|closing: &mut T|
                                                *closing == *final(transport) && *final(closing)
                                                    == final(self).spec_transport()
                                                    && #[trigger] call_ensures(
                                                    T::close,
                                                    (closing,),
                                                    (),
                                                )
                                        } else {
                                            final(self).spec_transport() == *final(transport)
                                        }
                                    },
                            }
                        },
            },
    {
        let frame = match encoded {
            Ok(frame) => frame,
            Err(error) => return Err(ClientError::Protocol(error)),
        };
        let response = self.round_trip_encoded(&frame)?;
        let decoded = self.codec.decode_response(
            version,
            &response,
            &request.request_id,
            request.operation(),
            self.config.max_response_frame_bytes,
        );
        let outcome = classify_response(decoded);
        if closes_connection(&outcome) {
            self.transport.close();
        }
        outcome
    }

    /// Send one plain request and read its answer.
    pub fn execute(&mut self, request: &BrokerRequest) -> (r: Result<
        SuccessPayload,
        ClientError,
    >)
        ensures
            final(self).spec_codec() == old(self).spec_codec(),
            final(self).spec_config() == old(self).spec_config(),
            final(self).spec_requests() == old(self).spec_requests(),
            exists|encoded: Result<Vec<u8>, ProtocolCodecError>| #[trigger]
                call_ensures(C::encode_request, (&old(self).spec_codec(), request), encoded)
                    && exists|client: &mut Self|
                    *client == *old(self) && *final(client) == *final(self)
                        && #[trigger] call_ensures(
                        BrokerClient::<C, T>::answer,
                        (client, ProtocolVersion::V1, encoded, request),
                        r,
                    ),
    {
        let encoded = self.codec.encode_request(request);
        self.answer(ProtocolVersion::V1, encoded, request)
    }

    /// Send one mutation with a command identity that the caller owns. Nothing is retried and no
    /// sequence is advanced.
    pub fn execute_identified(
        &mut self,
        identity: &CommandIdentity,
        request: &BrokerRequest,
    ) -> (r: Result<SuccessPayload, ClientError>)
        ensures
            final(self).spec_codec() == old(self).spec_codec(),
            final(self).spec_config() == old(self).spec_config(),
            final(self).spec_requests() == old(self).spec_requests(),
            exists|encoded: Result<Vec<u8>, ProtocolCodecError>| #[trigger]
                call_ensures(
                    C::encode_identified_request,
                    (&old(self).spec_codec(), identity, request),
                    encoded,
                )
                    && exists|client: &mut Self|
                    *client == *old(self) && *final(client) == *final(self)
                        && #[trigger] call_ensures(
                        BrokerClient::<C, T>::answer,
                        (client, ProtocolVersion::V2, encoded, request),
                        r,
                    ),
    {
        let encoded = self.codec.encode_identified_request(identity, request);
        self.answer(ProtocolVersion::V2, encoded, request)
    }

    /// Send one mutation with a command identity and its acquired owner.
    pub fn execute_owned(
        &mut self,
        identity: &CommandIdentity,
        request: &BrokerRequest,
    ) -> (r: Result<SuccessPayload, ClientError>)
        ensures
            final(self).spec_codec() == old(self).spec_codec(),
            final(self).spec_config() == old(self).spec_config(),
            final(self).spec_requests() == old(self).spec_requests(),
            exists|encoded: Result<Vec<u8>, ProtocolCodecError>| #[trigger]
                call_ensures(
                    C::encode_owner_mutation_request,
                    (
                        &old(self).spec_codec(),
                        identity,
                        request,
                        old(self).spec_config().max_response_frame_bytes,
                    ),
                    encoded,
                )
                    && exists|client: &mut Self|
                    *client == *old(self) && *final(client) == *final(self)
                        && #[trigger] call_ensures(
                        BrokerClient::<C, T>::answer,
                        (client, ProtocolVersion::V3, encoded, request),
                        r,
                    ),
    {
        let encoded = self.codec.encode_owner_mutation_request(
            identity,
            request,
            self.config.max_response_frame_bytes,
        );
        self.answer(ProtocolVersion::V3, encoded, request)
    }

    /// Acquire the ownership of one command session. A retry after a lost answer must repeat
    /// exactly these arguments. Nothing is retried or persisted here.
    pub fn acquire_command_session_owner(
        &mut self,
        session_id: CommandSessionId,
        expected_owner_epoch: SessionOwnerEpoch,
        owner_instance_id: SessionOwnerInstanceId,
    ) -> (r: Result<SessionOwnerEpoch, ClientError>)
        ensures
            final(self).spec_codec() == old(self).spec_codec(),
            final(self).spec_config() == old(self).spec_config(),
            if old(self).spec_requests() == u64::MAX {
                *final(self) == *old(self) && r == Err::<SessionOwnerEpoch, _>(
                    ClientError::RequestIdExhausted,
                )
            } else {
                final(self).spec_requests() == old(self).spec_requests() + 1 && exists|
                    request_id: String,
                    encoded: Result<Vec<u8>, ProtocolCodecError>,
                |
                    {
                        &&& request_id@ == request_id_text(
                            RequestSource::Client,
                            old(self).spec_requests(),
                        )
                        &&& #[trigger] call_ensures(
                            C::encode_owner_acquisition_request,
                            (
                                &old(self).spec_codec(),
                                &request_id,
                                &session_id,
                                expected_owner_epoch,
                                &owner_instance_id,
                                old(self).spec_config().max_response_frame_bytes,
                            ),
                            encoded,
                        )
                        &&& match encoded {
                            Err(error) => final(self).spec_transport() == old(self).spec_transport()
                                && r == Err::<SessionOwnerEpoch, _>(
                                ClientError::Protocol(error),
                            ),
                            Ok(frame) => exists|transport: &mut T, sent: Result<Vec<u8>, ClientError>|
                                {
                                    &&& *transport == old(self).spec_transport()
                                    &&& #[trigger] call_ensures(
                                        T::round_trip,
                                        (transport, &old(self).spec_config(), &frame),
                                        sent,
                                    )
                                    &&& match sent {
                                        Err(error) => r == Err::<SessionOwnerEpoch, _>(error)
                                            && exists|closing: &mut T|
                                            *closing == *final(transport)
                                                && *final(closing) == final(self).spec_transport()
                                                && #[trigger] call_ensures(
                                                T::close,
                                                (closing,),
                                                (),
                                            ),
                                        Ok(response) => exists|
                                            decoded: Result<SessionOwnerEpoch, ResponseDecodeError>,
                                        |
                                            {
                                                &&& #[trigger] call_ensures(
                                                    C::decode_owner_acquisition_response,
                                                    (
                                                        &old(self).spec_codec(),
                                                        &response,
                                                        &request_id,
                                                        old(self).spec_config().max_response_frame_bytes,
                                                    ),
                                                    decoded,
                                                )
                                                &&& r == client_outcome(decoded)
                                                &&& if is_connection_failure(r) {
                                                    exists|closing: &mut T|
                                                        *closing == *final(transport)
                                                            && *final(closing)
                                                            == final(self).spec_transport()
                                                            && #[trigger] call_ensures(
                                                            T::close,
                                                            (closing,),
                                                            (),
                                                        )
                                                } else {
                                                    final(self).spec_transport() == *final(transport)
                                                }
                                            },
                                    }
                                },
                        }
                    }
            },
    {
        let request_id = self.next_request_id()?;
        let encoded = self.codec.encode_owner_acquisition_request(
            &request_id,
            &session_id,
            expected_owner_epoch,
            &owner_instance_id,
            self.config.max_response_frame_bytes,
        );
        let frame = match encoded {
            Ok(frame) => frame,
            Err(error) => return Err(ClientError::Protocol(error)),
        };
        let response = self.round_trip_encoded(&frame)?;
        let decoded = self.codec.decode_owner_acquisition_response(
            &response,
            &request_id,
            self.config.max_response_frame_bytes,
        );
        let outcome = classify_response(decoded);
        if closes_connection(&outcome) {
            self.transport.close();
        }
        outcome
    }

    fn next_request_id(&mut self) -> (r: Result<String, ClientError>)
        ensures
            final(self).spec_codec() == old(self).spec_codec(),
            final(self).spec_config() == old(self).spec_config(),
            final(self).spec_transport() == old(self).spec_transport(),
            match r {
                Ok(request_id) => final(self).spec_requests() == old(self).spec_requests() + 1
                    && request_id@ == request_id_text(
                    RequestSource::Client,
                    old(self).spec_requests(),
                ),
                Err(error) => old(self).spec_requests() == u64::MAX && *final(self) == *old(self)
                    && error == ClientError::RequestIdExhausted,
            },
    {
        match next_request_id(RequestSource::Client, self.request_sequence) {
            Ok((count, request_id)) => {
                self.request_sequence = count;
                Ok(request_id)
            },
            Err(error) => Err(error),
        }
    }

    /// Read the health of the Broker.
    pub fn health(&mut self) -> (r: Result<BrokerHealth, ClientError>)
        ensures
            final(self).spec_codec() == old(self).spec_codec(),
            final(self).spec_config() == old(self).spec_config(),
            if old(self).spec_requests() == u64::MAX {
                *final(self) == *old(self)
                    && r == Err::<BrokerHealth, _>(ClientError::RequestIdExhausted)
            } else {
                final(self).spec_requests() == old(self).spec_requests() + 1 && exists|
                    client: &mut Self,
                    request: BrokerRequest,
                    answer: Result<SuccessPayload, ClientError>,
                |
                    {
                        &&& client.spec_codec() == old(self).spec_codec()
                        &&& client.spec_config() == old(self).spec_config()
                        &&& client.spec_transport() == old(self).spec_transport()
                        &&& *final(client) == *final(self)
                        &&& request.request_id@ == request_id_text(
                            RequestSource::Client,
                            old(self).spec_requests(),
                        )
                        &&& request.body == (RequestBody::Health)
                        &&& #[trigger] call_ensures(
                            BrokerClient::<C, T>::execute,
                            (client, &request),
                            answer,
                        )
                        &&& r == match answer {
                            Ok(payload) => payload_health_result(payload),
                            Err(error) => Err(error),
                        }
                    }
            },
    {
        let request_id = self.next_request_id()?;
        let request = BrokerRequest {
            request_id,
            body: RequestBody::Health,
        };
        let answer = self.execute(&request);
        match answer {
            Ok(payload) => health_result(payload),
            Err(error) => Err(error),
        }
    }

    /// Ensure one namespace.
    pub fn ensure_namespace(
        &mut self,
        namespace_id: NamespaceId,
    ) -> (r: Result<NamespaceResult, ClientError>)
        ensures
            final(self).spec_codec() == old(self).spec_codec(),
            final(self).spec_config() == old(self).spec_config(),
            if old(self).spec_requests() == u64::MAX {
                *final(self) == *old(self)
                    && r == Err::<NamespaceResult, _>(ClientError::RequestIdExhausted)
            } else {
                final(self).spec_requests() == old(self).spec_requests() + 1 && exists|
                    client: &mut Self,
                    request: BrokerRequest,
                    answer: Result<SuccessPayload, ClientError>,
                |
                    {
                        &&& client.spec_codec() == old(self).spec_codec()
                        &&& client.spec_config() == old(self).spec_config()
                        &&& client.spec_transport() == old(self).spec_transport()
                        &&& *final(client) == *final(self)
                        &&& request.request_id@ == request_id_text(
                            RequestSource::Client,
                            old(self).spec_requests(),
                        )
                        &&& request.body == (RequestBody::EnsureNamespace { namespace_id })
                        &&& #[trigger] call_ensures(
                            BrokerClient::<C, T>::execute,
                            (client, &request),
                            answer,
                        )
                        &&& r == match answer {
                            Ok(payload) => payload_namespace_result(payload),
                            Err(error) => Err(error),
                        }
                    }
            },
    {
        let request_id = self.next_request_id()?;
        let request = BrokerRequest {
            request_id,
            body: RequestBody::EnsureNamespace { namespace_id },
        };
        let answer = self.execute(&request);
        match answer {
            Ok(payload) => namespace_result(payload),
            Err(error) => Err(error),
        }
    }

    /// Publish one Task.
    pub fn publish_task(
        &mut self,
        namespace_id: NamespaceId,
        task_id: TaskId,
        objective: TaskObjective,
    ) -> (r: Result<TaskPublishedResult, ClientError>)
        ensures
            final(self).spec_codec() == old(self).spec_codec(),
            final(self).spec_config() == old(self).spec_config(),
            if old(self).spec_requests() == u64::MAX {
                *final(self) == *old(self)
                    && r == Err::<TaskPublishedResult, _>(ClientError::RequestIdExhausted)
            } else {
                final(self).spec_requests() == old(self).spec_requests() + 1 && exists|
                    client: &mut Self,
                    request: BrokerRequest,
                    answer: Result<SuccessPayload, ClientError>,
                |
                    {
                        &&& client.spec_codec() == old(self).spec_codec()
                        &&& client.spec_config() == old(self).spec_config()
                        &&& client.spec_transport() == old(self).spec_transport()
                        &&& *final(client) == *final(self)
                        &&& request.request_id@ == request_id_text(
                            RequestSource::Client,
                            old(self).spec_requests(),
                        )
                        &&& request.body == (
                            RequestBody::PublishTask { namespace_id, task_id, objective }
                        )
                        &&& #[trigger] call_ensures(
                            BrokerClient::<C, T>::execute,
                            (client, &request),
                            answer,
                        )
                        &&& r == match answer {
                            Ok(payload) => payload_task_published_result(payload),
                            Err(error) => Err(error),
                        }
                    }
            },
    {
        let request_id = self.next_request_id()?;
        let request = BrokerRequest {
            request_id,
            body: RequestBody::PublishTask { namespace_id, task_id, objective },
        };
        let answer = self.execute(&request);
        match answer {
            Ok(payload) => task_published_result(payload),
            Err(error) => Err(error),
        }
    }

    /// Ensure one Consumer Group.
    pub fn ensure_consumer_group(
        &mut self,
        namespace_id: NamespaceId,
        group_id: ConsumerGroupId,
    ) -> (r: Result<ConsumerGroupResult, ClientError>)
        ensures
            final(self).spec_codec() == old(self).spec_codec(),
            final(self).spec_config() == old(self).spec_config(),
            if old(self).spec_requests() == u64::MAX {
                *final(self) == *old(self)
                    && r == Err::<ConsumerGroupResult, _>(ClientError::RequestIdExhausted)
            } else {
                final(self).spec_requests() == old(self).spec_requests() + 1 && exists|
                    client: &mut Self,
                    request: BrokerRequest,
                    answer: Result<SuccessPayload, ClientError>,
                |
                    {
                        &&& client.spec_codec() == old(self).spec_codec()
                        &&& client.spec_config() == old(self).spec_config()
                        &&& client.spec_transport() == old(self).spec_transport()
                        &&& *final(client) == *final(self)
                        &&& request.request_id@ == request_id_text(
                            RequestSource::Client,
                            old(self).spec_requests(),
                        )
                        &&& request.body == (
                            RequestBody::EnsureConsumerGroup { namespace_id, group_id }
                        )
                        &&& #[trigger] call_ensures(
                            BrokerClient::<C, T>::execute,
                            (client, &request),
                            answer,
                        )
                        &&& r == match answer {
                            Ok(payload) => payload_consumer_group_result(payload),
                            Err(error) => Err(error),
                        }
                    }
            },
    {
        let request_id = self.next_request_id()?;
        let request = BrokerRequest {
            request_id,
            body: RequestBody::EnsureConsumerGroup { namespace_id, group_id },
        };
        let answer = self.execute(&request);
        match answer {
            Ok(payload) => consumer_group_result(payload),
            Err(error) => Err(error),
        }
    }

    /// Join a Consumer Group with capabilities in declaration order.
    pub fn join_consumer_group(
        &mut self,
        group_id: ConsumerGroupId,
        member_id: MemberId,
        capabilities: Capabilities,
    ) -> (r: Result<ConsumerGroupResult, ClientError>)
        ensures
            final(self).spec_codec() == old(self).spec_codec(),
            final(self).spec_config() == old(self).spec_config(),
            if old(self).spec_requests() == u64::MAX {
                *final(self) == *old(self)
                    && r == Err::<ConsumerGroupResult, _>(ClientError::RequestIdExhausted)
            } else {
                final(self).spec_requests() == old(self).spec_requests() + 1 && exists|
                    client: &mut Self,
                    request: BrokerRequest,
                    answer: Result<SuccessPayload, ClientError>,
                |
                    {
                        &&& client.spec_codec() == old(self).spec_codec()
                        &&& client.spec_config() == old(self).spec_config()
                        &&& client.spec_transport() == old(self).spec_transport()
                        &&& *final(client) == *final(self)
                        &&& request.request_id@ == request_id_text(
                            RequestSource::Client,
                            old(self).spec_requests(),
                        )
                        &&& request.body == (
                            RequestBody::JoinConsumerGroup { group_id, member_id, capabilities }
                        )
                        &&& #[trigger] call_ensures(
                            BrokerClient::<C, T>::execute,
                            (client, &request),
                            answer,
                        )
                        &&& r == match answer {
                            Ok(payload) => payload_consumer_group_result(payload),
                            Err(error) => Err(error),
                        }
                    }
            },
    {
        let request_id = self.next_request_id()?;
        let request = BrokerRequest {
            request_id,
            body: RequestBody::JoinConsumerGroup { group_id, member_id, capabilities },
        };
        let answer = self.execute(&request);
        match answer {
            Ok(payload) => consumer_group_result(payload),
            Err(error) => Err(error),
        }
    }

    /// Send a heartbeat that the generation fences.
    pub fn heartbeat(
        &mut self,
        group_id: ConsumerGroupId,
        member_id: MemberId,
        expected_generation: Generation,
    ) -> (r: Result<HeartbeatResult, ClientError>)
        ensures
            final(self).spec_codec() == old(self).spec_codec(),
            final(self).spec_config() == old(self).spec_config(),
            if old(self).spec_requests() == u64::MAX {
                *final(self) == *old(self)
                    && r == Err::<HeartbeatResult, _>(ClientError::RequestIdExhausted)
            } else {
                final(self).spec_requests() == old(self).spec_requests() + 1 && exists|
                    client: &mut Self,
                    request: BrokerRequest,
                    answer: Result<SuccessPayload, ClientError>,
                |
                    {
                        &&& client.spec_codec() == old(self).spec_codec()
                        &&& client.spec_config() == old(self).spec_config()
                        &&& client.spec_transport() == old(self).spec_transport()
                        &&& *final(client) == *final(self)
                        &&& request.request_id@ == request_id_text(
                            RequestSource::Client,
                            old(self).spec_requests(),
                        )
                        &&& request.body == (
                            RequestBody::Heartbeat { group_id, member_id, expected_generation }
                        )
                        &&& #[trigger] call_ensures(
                            BrokerClient::<C, T>::execute,
                            (client, &request),
                            answer,
                        )
                        &&& r == match answer {
                            Ok(payload) => payload_heartbeat_result(payload),
                            Err(error) => Err(error),
                        }
                    }
            },
    {
        let request_id = self.next_request_id()?;
        let request = BrokerRequest {
            request_id,
            body: RequestBody::Heartbeat { group_id, member_id, expected_generation },
        };
        let answer = self.execute(&request);
        match answer {
            Ok(payload) => heartbeat_result(payload),
            Err(error) => Err(error),
        }
    }

    /// Leave a Consumer Group.
    pub fn leave_consumer_group(
        &mut self,
        group_id: ConsumerGroupId,
        member_id: MemberId,
        expected_generation: Generation,
    ) -> (r: Result<ConsumerGroupResult, ClientError>)
        ensures
            final(self).spec_codec() == old(self).spec_codec(),
            final(self).spec_config() == old(self).spec_config(),
            if old(self).spec_requests() == u64::MAX {
                *final(self) == *old(self)
                    && r == Err::<ConsumerGroupResult, _>(ClientError::RequestIdExhausted)
            } else {
                final(self).spec_requests() == old(self).spec_requests() + 1 && exists|
                    client: &mut Self,
                    request: BrokerRequest,
                    answer: Result<SuccessPayload, ClientError>,
                |
                    {
                        &&& client.spec_codec() == old(self).spec_codec()
                        &&& client.spec_config() == old(self).spec_config()
                        &&& client.spec_transport() == old(self).spec_transport()
                        &&& *final(client) == *final(self)
                        &&& request.request_id@ == request_id_text(
                            RequestSource::Client,
                            old(self).spec_requests(),
                        )
                        &&& request.body == (
                            RequestBody::LeaveConsumerGroup {
                                group_id,
                                member_id,
                                expected_generation,
                            }
                        )
                        &&& #[trigger] call_ensures(
                            BrokerClient::<C, T>::execute,
                            (client, &request),
                            answer,
                        )
                        &&& r == match answer {
                            Ok(payload) => payload_consumer_group_result(payload),
                            Err(error) => Err(error),
                        }
                    }
            },
    {
        let request_id = self.next_request_id()?;
        let request = BrokerRequest {
            request_id,
            body: RequestBody::LeaveConsumerGroup { group_id, member_id, expected_generation },
        };
        let answer = self.execute(&request);
        match answer {
            Ok(payload) => consumer_group_result(payload),
            Err(error) => Err(error),
        }
    }

    /// Claim the oldest ready Task.
    pub fn claim_task(&mut self, input: ClaimInput) -> (r: Result<TaskClaimResult, ClientError>)
        ensures
            final(self).spec_codec() == old(self).spec_codec(),
            final(self).spec_config() == old(self).spec_config(),
            if old(self).spec_requests() == u64::MAX {
                *final(self) == *old(self)
                    && r == Err::<TaskClaimResult, _>(ClientError::RequestIdExhausted)
            } else {
                final(self).spec_requests() == old(self).spec_requests() + 1 && exists|
                    client: &mut Self,
                    request: BrokerRequest,
                    answer: Result<SuccessPayload, ClientError>,
                |
                    {
                        &&& client.spec_codec() == old(self).spec_codec()
                        &&& client.spec_config() == old(self).spec_config()
                        &&& client.spec_transport() == old(self).spec_transport()
                        &&& *final(client) == *final(self)
                        &&& request.request_id@ == request_id_text(
                            RequestSource::Client,
                            old(self).spec_requests(),
                        )
                        &&& request.body == (
                            RequestBody::ClaimTask {
                                group_id: input.group_id,
                                member_id: input.member_id,
                                expected_term: input.expected_term,
                                expected_generation: input.expected_generation,
                                lease_id: input.lease_id,
                                lease_duration: input.lease_duration,
                            }
                        )
                        &&& #[trigger] call_ensures(
                            BrokerClient::<C, T>::execute,
                            (client, &request),
                            answer,
                        )
                        &&& r == match answer {
                            Ok(payload) => payload_task_claim_result(payload),
                            Err(error) => Err(error),
                        }
                    }
            },
    {
        let request_id = self.next_request_id()?;
        let request = BrokerRequest {
            request_id,
            body: RequestBody::ClaimTask {
                group_id: input.group_id,
                member_id: input.member_id,
                expected_term: input.expected_term,
                expected_generation: input.expected_generation,
                lease_id: input.lease_id,
                lease_duration: input.lease_duration,
            },
        };
        let answer = self.execute(&request);
        match answer {
            Ok(payload) => task_claim_result(payload),
            Err(error) => Err(error),
        }
    }

    /// Extend a Task lease.
    pub fn renew_task_lease(
        &mut self,
        input: RenewInput,
    ) -> (r: Result<TaskLeaseRenewedResult, ClientError>)
        ensures
            final(self).spec_codec() == old(self).spec_codec(),
            final(self).spec_config() == old(self).spec_config(),
            if old(self).spec_requests() == u64::MAX {
                *final(self) == *old(self)
                    && r == Err::<TaskLeaseRenewedResult, _>(ClientError::RequestIdExhausted)
            } else {
                final(self).spec_requests() == old(self).spec_requests() + 1 && exists|
                    client: &mut Self,
                    request: BrokerRequest,
                    answer: Result<SuccessPayload, ClientError>,
                |
                    {
                        &&& client.spec_codec() == old(self).spec_codec()
                        &&& client.spec_config() == old(self).spec_config()
                        &&& client.spec_transport() == old(self).spec_transport()
                        &&& *final(client) == *final(self)
                        &&& request.request_id@ == request_id_text(
                            RequestSource::Client,
                            old(self).spec_requests(),
                        )
                        &&& request.body == (
                            RequestBody::RenewTaskLease {
                                task_id: input.task_id,
                                group_id: input.group_id,
                                member_id: input.member_id,
                                expected_term: input.expected_term,
                                expected_generation: input.expected_generation,
                                expected_lease_epoch: input.expected_lease_epoch,
                                lease_id: input.lease_id,
                                lease_duration: input.lease_duration,
                            }
                        )
                        &&& #[trigger] call_ensures(
                            BrokerClient::<C, T>::execute,
                            (client, &request),
                            answer,
                        )
                        &&& r == match answer {
                            Ok(payload) => payload_task_lease_renewed_result(payload),
                            Err(error) => Err(error),
                        }
                    }
            },
    {
        let request_id = self.next_request_id()?;
        let request = BrokerRequest {
            request_id,
            body: RequestBody::RenewTaskLease {
                task_id: input.task_id,
                group_id: input.group_id,
                member_id: input.member_id,
                expected_term: input.expected_term,
                expected_generation: input.expected_generation,
                expected_lease_epoch: input.expected_lease_epoch,
                lease_id: input.lease_id,
                lease_duration: input.lease_duration,
            },
        };
        let answer = self.execute(&request);
        match answer {
            Ok(payload) => task_lease_renewed_result(payload),
            Err(error) => Err(error),
        }
    }

    /// Complete a leased Task.
    pub fn complete_task(
        &mut self,
        input: CompleteInput,
    ) -> (r: Result<TaskCompletedResult, ClientError>)
        ensures
            final(self).spec_codec() == old(self).spec_codec(),
            final(self).spec_config() == old(self).spec_config(),
            if old(self).spec_requests() == u64::MAX {
                *final(self) == *old(self)
                    && r == Err::<TaskCompletedResult, _>(ClientError::RequestIdExhausted)
            } else {
                final(self).spec_requests() == old(self).spec_requests() + 1 && exists|
                    client: &mut Self,
                    request: BrokerRequest,
                    answer: Result<SuccessPayload, ClientError>,
                |
                    {
                        &&& client.spec_codec() == old(self).spec_codec()
                        &&& client.spec_config() == old(self).spec_config()
                        &&& client.spec_transport() == old(self).spec_transport()
                        &&& *final(client) == *final(self)
                        &&& request.request_id@ == request_id_text(
                            RequestSource::Client,
                            old(self).spec_requests(),
                        )
                        &&& request.body == (
                            RequestBody::CompleteTask {
                                task_id: input.task_id,
                                group_id: input.group_id,
                                member_id: input.member_id,
                                expected_term: input.expected_term,
                                expected_generation: input.expected_generation,
                                expected_lease_epoch: input.expected_lease_epoch,
                                lease_id: input.lease_id,
                                result: input.result,
                            }
                        )
                        &&& #[trigger] call_ensures(
                            BrokerClient::<C, T>::execute,
                            (client, &request),
                            answer,
                        )
                        &&& r == match answer {
                            Ok(payload) => payload_task_completed_result(payload),
                            Err(error) => Err(error),
                        }
                    }
            },
    {
        let request_id = self.next_request_id()?;
        let request = BrokerRequest {
            request_id,
            body: RequestBody::CompleteTask {
                task_id: input.task_id,
                group_id: input.group_id,
                member_id: input.member_id,
                expected_term: input.expected_term,
                expected_generation: input.expected_generation,
                expected_lease_epoch: input.expected_lease_epoch,
                lease_id: input.lease_id,
                result: input.result,
            },
        };
        let answer = self.execute(&request);
        match answer {
            Ok(payload) => task_completed_result(payload),
            Err(error) => Err(error),
        }
    }
}

} // verus!
