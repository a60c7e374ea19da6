//! Leader router of a static three-node cluster.
use crate::client_config::{
    config_flaw, is_invalid_request, next_request_id, request_id_text, BrokerClientConfig,
    RequestSource,
};
use crate::client_error::{classify_response, client_outcome, ClientError};
use crate::command_identity::{
    CommandIdentity, CommandSessionId, SessionOwnerEpoch, SessionOwnerInstanceId,
};
use crate::error::BrokerErrorDisposition;
use crate::json::JsonView;
use crate::protocol::{
    BrokerRequest, Operation, ProtocolCodec, ProtocolCodecError, ProtocolVersion,
    ResponseDecodeError, SuccessPayload,
};
use crate::router_config::{
    is_finding, is_selection, judge_probe, probe_finding, readiness, ready_ids, router_flaw,
    select_write_leader, ProbeReply, RoutingErrorView, StaticClusterNode,
    StaticClusterRouterConfig, StaticClusterRoutingError,
};
use crate::time_span::TimeSpan;
use vstd::prelude::*;

verus! {

/// The request line of a readiness probe.
pub fn operations_readiness_request() -> (r: &'static str)
    ensures
        r@ == "{\"schema_version\":1,\"operation\":\"readiness\"}\n"@,
{
    "{\"schema_version\":1,\"operation\":\"readiness\"}\n"
}

/// A document that proves the write leadership of two nodes proves it of one.
pub proof fn law_one_document_proves_one_leader(first: u64, second: u64, document: JsonView)
    requires
        readiness(first, document) == Ok::<bool, Seq<char>>(true),
        readiness(second, document) == Ok::<bool, Seq<char>>(true),
    ensures
        first == second,
{
}

/// A selected leader is the only node that was found ready.
pub proof fn law_selected_leader_is_the_only_ready_node(
    nodes: Seq<StaticClusterNode>,
    ready: Seq<bool>,
    leader: StaticClusterNode,
)
    requires
        nodes.len() == ready.len(),
        is_selection(nodes, ready, Ok(leader)),
    ensures
        exists|i: int|
            0 <= i < nodes.len() && nodes[i] == leader && ready[i] && forall|j: int|
                0 <= j < nodes.len() && #[trigger] ready[j] ==> j == i,
{
    let i = choose|i: int| 0 <= i < nodes.len() && ready[i] && nodes[i] == leader;
    assert forall|j: int| 0 <= j < nodes.len() && #[trigger] ready[j] implies j == i by {
        if j != i {
            lemma_two_ready_nodes(nodes, ready, i, j);
        }
    }
}

proof fn lemma_two_ready_nodes(nodes: Seq<StaticClusterNode>, ready: Seq<bool>, i: int, j: int)
    requires
        nodes.len() == ready.len(),
        0 <= i < nodes.len(),
        0 <= j < nodes.len(),
        i != j,
        ready[i],
        ready[j],
    ensures
        ready_ids(nodes, ready).len() >= 2,
    decreases nodes.len(),
{
    let last = nodes.len() - 1;
    if i < last && j < last {
        assert(ready.drop_last()[i] && ready.drop_last()[j]);
        lemma_two_ready_nodes(nodes.drop_last(), ready.drop_last(), i, j);
    } else if i < last {
        assert(ready.drop_last()[i]);
        lemma_one_ready_node(nodes.drop_last(), ready.drop_last(), i);
    } else {
        assert(ready.drop_last()[j]);
        lemma_one_ready_node(nodes.drop_last(), ready.drop_last(), j);
    }
}

proof fn lemma_one_ready_node(nodes: Seq<StaticClusterNode>, ready: Seq<bool>, i: int)
    requires
        nodes.len() == ready.len(),
        0 <= i < nodes.len(),
        ready[i],
    ensures
        ready_ids(nodes, ready).len() >= 1,
    decreases nodes.len(),
{
    if i < nodes.len() - 1 {
        assert(ready.drop_last()[i]);
        lemma_one_ready_node(nodes.drop_last(), ready.drop_last(), i);
    }
}

/// Whether a failure allows another leader to be looked for: the outcome is unknown.
pub open spec fn allows_rediscovery(error: ClientError) -> bool {
    match error {
        ClientError::Transport(_) => true,
        ClientError::Broker(error) => error@.disposition == BrokerErrorDisposition::Unknown,
        _ => false,
    }
}

/// Test whether a failure allows another leader to be looked for.
pub fn should_rediscover(error: &ClientError) -> (r: bool)
    ensures
        r == allows_rediscovery(*error),
{
    match error {
        ClientError::Transport(_) => true,
        ClientError::Broker(error) => match error.disposition() {
            BrokerErrorDisposition::Unknown => true,
            _ => false,
        },
        _ => false,
    }
}

/// Network of a router.
pub trait ClusterNetwork: Sized {
    /// Ask the operations endpoint of `node` for its readiness.
    fn probe(
        &mut self,
        node: &StaticClusterNode,
        timeout: TimeSpan,
        max_response_frame_bytes: usize,
    ) -> ProbeReply;

    /// Send one frame over a fresh connection and read one answer frame.
    fn round_trip(&mut self, config: &BrokerClientConfig, frame: &Vec<u8>) -> Result<
        Vec<u8>,
        ClientError,
    >;
}

/// Reader of the answers to one request.
pub trait AnswerReader<C: ProtocolCodec>: Sized {
    /// What a successful answer carries.
    type Payload;

    /// Whether an answer may be read as `decoded`.
    spec fn may_read(
        &self,
        codec: C,
        response: Vec<u8>,
        max_bytes: usize,
        decoded: Result<Self::Payload, ResponseDecodeError>,
    ) -> bool;

    /// Read an answer frame.
    fn read(&self, codec: &C, response: &Vec<u8>, max_bytes: usize) -> (r: Result<
        Self::Payload,
        ResponseDecodeError,
    >)
        ensures
            self.may_read(*codec, *response, max_bytes, r),
    ;
}

/// Reader of the answers to one mutation with its identity and owner.
pub struct MutationAnswer {
    pub request_id: String,
    pub operation: Operation,
}

impl<C: ProtocolCodec> AnswerReader<C> for MutationAnswer {
    type Payload = SuccessPayload;

    open spec fn may_read(
        &self,
        codec: C,
        response: Vec<u8>,
        max_bytes: usize,
        decoded: Result<SuccessPayload, ResponseDecodeError>,
    ) -> bool {
        call_ensures(
            C::decode_response,
            (
                &codec,
                ProtocolVersion::V3,
                &response,
                &self.request_id,
                self.operation,
                max_bytes,
            ),
            decoded,
        )
    }

    fn read(&self, codec: &C, response: &Vec<u8>, max_bytes: usize) -> (r: Result<
        SuccessPayload,
        ResponseDecodeError,
    >) {
        codec.decode_response(
            ProtocolVersion::V3,
            response,
            &self.request_id,
            self.operation,
            max_bytes,
        )
    }
}

/// Reader of the answers to one owner acquisition.
pub struct AcquisitionAnswer {
    pub request_id: String,
}

impl<C: ProtocolCodec> AnswerReader<C> for AcquisitionAnswer {
    type Payload = SessionOwnerEpoch;

    open spec fn may_read(
        &self,
        codec: C,
        response: Vec<u8>,
        max_bytes: usize,
        decoded: Result<SessionOwnerEpoch, ResponseDecodeError>,
    ) -> bool {
        call_ensures(
            C::decode_owner_acquisition_response,
            (&codec, &response, &self.request_id, max_bytes),
            decoded,
        )
    }

    fn read(&self, codec: &C, response: &Vec<u8>, max_bytes: usize) -> (r: Result<
        SessionOwnerEpoch,
        ResponseDecodeError,
    >) {
        codec.decode_owner_acquisition_response(response, &self.request_id, max_bytes)
    }
}

/// Router that sends exact frames to the one write-ready node.
pub struct StaticClusterRouter<C: ProtocolCodec, N: ClusterNetwork> {
    config: StaticClusterRouterConfig,
    codec: C,
    network: N,
    request_sequence: u64,
}

/// The client configuration for one node.
pub open spec fn node_client_config(
    config: StaticClusterRouterConfig,
    node: StaticClusterNode,
) -> BrokerClientConfig {
    BrokerClientConfig {
        address: node.broker_address,
        timeout: config.timeout,
        max_response_frame_bytes: config.max_response_frame_bytes,
    }
}

impl<C: ProtocolCodec, N: ClusterNetwork> StaticClusterRouter<C, N> {
    pub closed spec fn spec_config(&self) -> StaticClusterRouterConfig {
        self.config
    }

    pub closed spec fn spec_codec(&self) -> C {
        self.codec
    }

    pub closed spec fn spec_network(&self) -> N {
        self.network
    }

    /// The node at position `index`.
    pub open spec fn spec_node(&self, index: int) -> StaticClusterNode {
        self.spec_config().nodes@[index]
    }

    pub open spec fn spec_timeout(&self) -> TimeSpan {
        self.spec_config().timeout
    }

    pub open spec fn spec_bound(&self) -> usize {
        self.spec_config().max_response_frame_bytes
    }

    /// The number of request ids used so far.
    pub closed spec fn spec_requests(&self) -> u64 {
        self.request_sequence
    }

    /// A router for a valid topology.
    pub fn new(config: StaticClusterRouterConfig, codec: C, network: N) -> (r: Result<
        Self,
        StaticClusterRoutingError,
    >)
        ensures
            match router_flaw(config) {
                None => r matches Ok(router) && router.spec_config() == config
                    && router.spec_codec() == codec && router.spec_network() == network
                    && router.spec_requests() == 0,
                Some(reason) => r matches Err(error) && error@
                    == RoutingErrorView::InvalidConfiguration(reason),
            },
    {
        match config.validate() {
            Ok(config) => Ok(StaticClusterRouter { config, codec, network, request_sequence: 0 }),
            Err(error) => Err(error),
        }
    }

    /// Probe the node at `index`.
    fn probe_node(&mut self, index: usize) -> (r: Result<bool, StaticClusterRoutingError>)
        requires
            index < 3,
        ensures
            final(self).spec_config() == old(self).spec_config(),
            final(self).spec_codec() == old(self).spec_codec(),
            final(self).spec_requests() == old(self).spec_requests(),
            exists|network: &mut N, reply: ProbeReply|
                {
                    &&& *network == old(self).spec_network()
                    &&& *final(network) == final(self).spec_network()
                    &&& #[trigger] call_ensures(
                        N::probe,
                        (
                            network,
                            &old(self).spec_node(index as int),
                            old(self).spec_timeout(),
                            old(self).spec_bound(),
                        ),
                        reply,
                    )
                    &&& is_finding(
                        old(self).spec_node(index as int).node_id,
                        probe_finding(old(self).spec_node(index as int).node_id, reply),
                        r,
                    )
                },
    {
        let node = self.config.nodes[index];
        let reply = self.network.probe(
            &node,
            self.config.timeout,
            self.config.max_response_frame_bytes,
        );
        let finding = judge_probe(&node, &reply);
        assert(node == old(self).spec_node(index as int));
        assert(self.spec_timeout() == old(self).spec_timeout());
        assert(self.spec_bound() == old(self).spec_bound());
        finding
    }

    /// Probe all nodes in order and select the one that is write-ready. A malformed answer ends the
    /// discovery.
    pub fn discover_write_leader(&mut self) -> (r: Result<
        StaticClusterNode,
        StaticClusterRoutingError,
    >)
        ensures
            final(self).spec_config() == old(self).spec_config(),
            final(self).spec_codec() == old(self).spec_codec(),
            final(self).spec_requests() == old(self).spec_requests(),
            exists|first: &mut N, reply: ProbeReply|
                {
                    &&& *first == old(self).spec_network()
                    &&& #[trigger] call_ensures(
                        N::probe,
                        (
                            first,
                            &old(self).spec_node(0),
                            old(self).spec_timeout(),
                            old(self).spec_bound(),
                        ),
                        reply,
                    )
                    &&& match probe_finding(old(self).spec_node(0).node_id, reply) {
                        Err(reason) => final(self).spec_network() == *final(first) && is_refusal(
                            old(self).spec_node(0).node_id,
                            reason,
                            r,
                        ),
                        Ok(ready_0) => exists|second: &mut N, reply: ProbeReply|
                            {
                                &&& *second == *final(first)
                                &&& #[trigger] call_ensures(
                                    N::probe,
                                    (
                                        second,
                                        &old(self).spec_node(1),
                                        old(self).spec_timeout(),
                                        old(self).spec_bound(),
                                    ),
                                    reply,
                                )
                                &&& match probe_finding(old(self).spec_node(1).node_id, reply) {
                                    Err(reason) => final(self).spec_network() == *final(second)
                                        && is_refusal(old(self).spec_node(1).node_id, reason, r),
                                    Ok(ready_1) => exists|third: &mut N, reply: ProbeReply|
                                        {
                                            &&& *third == *final(second)
                                            &&& *final(third) == final(self).spec_network()
                                            &&& #[trigger] call_ensures(
                                                N::probe,
                                                (
                                                    third,
                                                    &old(self).spec_node(2),
                                                    old(self).spec_timeout(),
                                                    old(self).spec_bound(),
                                                ),
                                                reply,
                                            )
                                            &&& match probe_finding(
                                                old(self).spec_node(2).node_id,
                                                reply,
                                            ) {
                                                Err(reason) => is_refusal(
                                                    old(self).spec_node(2).node_id,
                                                    reason,
                                                    r,
                                                ),
                                                Ok(ready_2) => is_selection(
                                                    old(self).spec_config().nodes@,
                                                    seq![ready_0, ready_1, ready_2],
                                                    r,
                                                ),
                                            }
                                        },
                                }
                            },
                    }
                },
    {
        let first = self.probe_node(0)?;
        assert(self.spec_node(1) == old(self).spec_node(1));
        assert(self.spec_timeout() == old(self).spec_timeout());
        assert(self.spec_bound() == old(self).spec_bound());
        let second = self.probe_node(1)?;
        assert(self.spec_node(2) == old(self).spec_node(2));
        assert(self.spec_timeout() == old(self).spec_timeout());
        assert(self.spec_bound() == old(self).spec_bound());
        let third = self.probe_node(2)?;
        let ready = [first, second, third];
        assert(ready@ =~= seq![first, second, third]);
        select_write_leader(&self.config.nodes, &ready)
    }

    /// Find the write leader and send it one frame over a fresh connection. An error of the
    /// discovery is the outer error, an error of the exchange the inner one.
    pub fn send_to_leader(&mut self, frame: &Vec<u8>) -> (r: Result<
        Result<Vec<u8>, ClientError>,
        StaticClusterRoutingError,
    >)
        ensures
            final(self).spec_config() == old(self).spec_config(),
            final(self).spec_codec() == old(self).spec_codec(),
            final(self).spec_requests() == old(self).spec_requests(),
            exists|
                router: &mut Self,
                found: Result<StaticClusterNode, StaticClusterRoutingError>,
            |
                {
                    &&& *router == *old(self)
                    &&& #[trigger] call_ensures(
                        StaticClusterRouter::<C, N>::discover_write_leader,
                        (router,),
                        found,
                    )
                    &&& match found {
                        Err(error) => *final(self) == *final(router) && r == Err::<
                            Result<Vec<u8>, ClientError>,
                            _,
                        >(error),
                        Ok(leader) => match config_flaw(
                            node_client_config(old(self).spec_config(), leader),
                        ) {
                            Some(reason) => *final(self) == *final(router) && (r matches Err(
                                StaticClusterRoutingError::Client(error),
                            ) && is_invalid_request(error, reason)),
                            None => exists|network: &mut N, answer: Result<Vec<u8>, ClientError>|
                                {
                                    &&& *network == final(router).spec_network()
                                    &&& *final(network) == final(self).spec_network()
                                    &&& #[trigger] call_ensures(
                                        N::round_trip,
                                        (
                                            network,
                                            &node_client_config(old(self).spec_config(), leader),
                                            frame,
                                        ),
                                        answer,
                                    )
                                    &&& r == Ok::<_, StaticClusterRoutingError>(answer)
                                },
                        },
                    }
                },
    {
        let found = self.discover_write_leader();
        let leader = match found {
            Ok(leader) => leader,
            Err(error) => return Err(error),
        };
        let config = BrokerClientConfig {
            address: leader.broker_address,
            timeout: self.config.timeout,
            max_response_frame_bytes: self.config.max_response_frame_bytes,
        };
        let config = match config.validate() {
            Ok(config) => config,
            Err(error) => return Err(StaticClusterRoutingError::Client(error)),
        };
        assert(config == node_client_config(old(self).spec_config(), leader));
        let answer = self.network.round_trip(&config, frame);
        Ok(answer)
    }

    /// Send a frame to the write leader once and read its answer.
    pub fn attempt_frame<R: AnswerReader<C>>(
        &mut self,
        frame: &Vec<u8>,
        reader: &R,
    ) -> (r: Result<Result<R::Payload, ClientError>, StaticClusterRoutingError>)
        ensures
            final(self).spec_config() == old(self).spec_config(),
            final(self).spec_codec() == old(self).spec_codec(),
            final(self).spec_requests() == old(self).spec_requests(),
            exists|
                router: &mut Self,
                sent: Result<Result<Vec<u8>, ClientError>, StaticClusterRoutingError>,
            |
                {
                    &&& *router == *old(self)
                    &&& *final(router) == *final(self)
                    &&& #[trigger] call_ensures(
                        StaticClusterRouter::<C, N>::send_to_leader,
                        (router, frame),
                        sent,
                    )
                    &&& match sent {
                        Err(error) => r == Err::<Result<R::Payload, ClientError>, _>(error),
                        Ok(Err(error)) => r matches Ok(Err(failure)) && failure == error,
                        Ok(Ok(response)) => exists|
                            decoded: Result<R::Payload, ResponseDecodeError>,
                        |
                            {
                                &&& #[trigger] reader.may_read(
                                    old(self).spec_codec(),
                                    response,
                                    old(self).spec_bound(),
                                    decoded,
                                )
                                &&& r == Ok::<_, StaticClusterRoutingError>(client_outcome(decoded))
                            },
                    }
                },
    {
        let sent = self.send_to_leader(frame);
        assert(self.spec_bound() == old(self).spec_bound());
        match sent {
            Err(error) => Err(error),
            Ok(Err(error)) => Ok(Err(error)),
            Ok(Ok(response)) => {
                let decoded = reader.read(
                    &self.codec,
                    &response,
                    self.config.max_response_frame_bytes,
                );
                Ok(classify_response(decoded))
            },
        }
    }

    /// Send a frame until its outcome is known or the attempts are used up.
    ///
    /// The router passes through `stages`, each reached from the one before by one attempt with the
    /// answer at that place in `answers`. Every answer but the last was to be followed by another
    /// attempt.
    pub fn route_exact_frame<R: AnswerReader<C>>(
        &mut self,
        frame: &Vec<u8>,
        reader: &R,
    ) -> (r: Result<R::Payload, StaticClusterRoutingError>)
        ensures
            final(self).spec_config() == old(self).spec_config(),
            final(self).spec_codec() == old(self).spec_codec(),
            final(self).spec_requests() == old(self).spec_requests(),
            exists|
                stages: Seq<Self>,
                answers: Seq<Result<Result<R::Payload, ClientError>, StaticClusterRoutingError>>,
            |
                #![trigger stages.last(), answers.last()]
                {
                    &&& stages.len() == answers.len() + 1
                    &&& stages[0] == *old(self)
                    &&& stages.last() == *final(self)
                    &&& 0 < answers.len() <= old(self).spec_config().retry_policy@
                    &&& forall|i: int|
                        0 <= i < answers.len() ==> {
                            &&& is_followed(
                                #[trigger] answers[i],
                                (i + 1) as usize,
                                old(self).spec_config().retry_policy@,
                            ) <==> i < answers.len() - 1
                            &&& exists|router: &mut Self|
                                *router == stages[i] && *final(router) == stages[i + 1]
                                    && #[trigger] call_ensures(
                                    StaticClusterRouter::<C, N>::attempt_frame::<R>,
                                    (router, frame, reader),
                                    answers[i],
                                )
                        }
                    &&& r == routed_answer(answers.last())
                },
    {
        let max_attempts: usize = self.config.retry_policy.max_attempts();
        let ghost mut stages: Seq<Self> = seq![*self];
        let ghost mut answers: Seq<
            Result<Result<R::Payload, ClientError>, StaticClusterRoutingError>,
        > = Seq::empty();
        let mut attempt: usize = 1;
        loop
            invariant
                1 <= attempt <= max_attempts,
                max_attempts == old(self).spec_config().retry_policy@,
                self.spec_config() == old(self).spec_config(),
                self.spec_codec() == old(self).spec_codec(),
                self.spec_requests() == old(self).spec_requests(),
                answers.len() == attempt - 1,
                stages.len() == answers.len() + 1,
                stages[0] == *old(self),
                stages.last() == *self,
                forall|i: int|
                    0 <= i < answers.len() ==> {
                        &&& is_followed(#[trigger] answers[i], (i + 1) as usize, max_attempts)
                        &&& exists|router: &mut Self|
                            *router == stages[i] && *final(router) == stages[i + 1]
                                && #[trigger] call_ensures(
                                StaticClusterRouter::<C, N>::attempt_frame::<R>,
                                (router, frame, reader),
                                answers[i],
                            )
                    },
            decreases max_attempts - attempt,
        {
            let ghost at = answers.len() as int;
            let ghost earlier = stages;
            let ghost before = answers;
            let answer = self.attempt_frame(frame, reader);
            proof {
                stages = stages.push(*self);
                answers = answers.push(answer);
                assert forall|i: int| 0 <= i < answers.len() implies {
                    &&& (#[trigger] answers[i]) == (if i < at {
                        before[i]
                    } else {
                        answer
                    })
                    &&& exists|router: &mut Self|
                        *router == stages[i] && *final(router) == stages[i + 1]
                            && #[trigger] call_ensures(
                            StaticClusterRouter::<C, N>::attempt_frame::<R>,
                            (router, frame, reader),
                            answers[i],
                        )
                } by {
                    if i < at {
                        assert(stages[i] == earlier[i] && stages[i + 1] == earlier[i + 1]);
                        assert(answers[i] == before[i]);
                    } else {
                        assert(stages[i] == earlier.last() && stages[i + 1] == *self);
                        assert(answers[i] == answer);
                    }
                }
                assert(stages.last() == *self && answers.last() == answer);
            }
            let outcome = match answer {
                Ok(outcome) => outcome,
                Err(error) => return Err(error),
            };
            if !rediscovers(&outcome, attempt, max_attempts) {
                assert(!is_followed(answers[at], (at + 1) as usize, max_attempts));
                return report_outcome(outcome);
            }
            attempt = attempt + 1;
        }
    }

    /// Execute one mutation with its identity and owner on the write leader. The request is encoded
    /// once, and every attempt sends that frame.
    pub fn execute_owned(
        &mut self,
        identity: &CommandIdentity,
        request: &BrokerRequest,
    ) -> (r: Result<SuccessPayload, StaticClusterRoutingError>)
        ensures
            final(self).spec_config() == old(self).spec_config(),
            final(self).spec_codec() == old(self).spec_codec(),
            final(self).spec_requests() == old(self).spec_requests(),
            exists|encoded: Result<Vec<u8>, ProtocolCodecError>| #[trigger]
                call_ensures(
                    C::encode_owner_mutation_request,
                    (&old(self).spec_codec(), identity, request, old(self).spec_bound()),
                    encoded,
                ) && match encoded {
                    Err(error) => *final(self) == *old(self) && r == Err::<SuccessPayload, _>(
                        StaticClusterRoutingError::Client(ClientError::Protocol(error)),
                    ),
                    Ok(frame) => exists|router: &mut Self, reader: MutationAnswer|
                        {
                            &&& *router == *old(self) && *final(router) == *final(self)
                            &&& reader.request_id == request.request_id
                            &&& reader.operation == request.spec_operation()
                            &&& #[trigger] call_ensures(
                                StaticClusterRouter::<C, N>::route_exact_frame::<MutationAnswer>,
                                (router, &frame, &reader),
                                r,
                            )
                        },
                },
    {
        let encoded = self.codec.encode_owner_mutation_request(
            identity,
            request,
            self.config.max_response_frame_bytes,
        );
        assert(self.spec_bound() == self.spec_config().max_response_frame_bytes);
        let frame = match encoded {
            Ok(frame) => frame,
            Err(error) => {
                return Err(StaticClusterRoutingError::Client(ClientError::Protocol(error)));
            },
        };
        let reader = MutationAnswer {
            request_id: request.request_id.clone(),
            operation: request.operation(),
        };
        self.route_exact_frame(&frame, &reader)
    }

    /// Acquire the ownership of one command session on the write leader. Every attempt sends the
    /// same frame.
    pub fn acquire_command_session_owner(
        &mut self,
        session_id: CommandSessionId,
        expected_owner_epoch: SessionOwnerEpoch,
        owner_instance_id: SessionOwnerInstanceId,
    ) -> (r: Result<SessionOwnerEpoch, StaticClusterRoutingError>)
        ensures
            final(self).spec_config() == old(self).spec_config(),
            final(self).spec_codec() == old(self).spec_codec(),
            if old(self).spec_requests() == u64::MAX {
                *final(self) == *old(self) && r == Err::<SessionOwnerEpoch, _>(
                    StaticClusterRoutingError::Client(ClientError::RequestIdExhausted),
                )
            } else {
                final(self).spec_requests() == old(self).spec_requests() + 1 && exists|
                    request_id: String,
                    encoded: Result<Vec<u8>, ProtocolCodecError>,
                |
                    {
                        &&& request_id@ == request_id_text(
                            RequestSource::ClusterRouter,
                            old(self).spec_requests(),
                        )
                        &&& #[trigger] call_ensures(
                            C::encode_owner_acquisition_request,
                            (
                                &old(self).spec_codec(),
                                &request_id,
                                &session_id,
                                expected_owner_epoch,
                                &owner_instance_id,
                                old(self).spec_bound(),
                            ),
                            encoded,
                        )
                        &&& match encoded {
                            Err(error) => {
                                &&& final(self).spec_network() == old(self).spec_network()
                                &&& r == Err::<SessionOwnerEpoch, _>(
                                    StaticClusterRoutingError::Client(ClientError::Protocol(error)),
                                )
                            },
                            Ok(frame) => exists|router: &mut Self, reader: AcquisitionAnswer|
                                {
                                    &&& reader.request_id == request_id
                                    &&& router.spec_config() == old(self).spec_config()
                                    &&& router.spec_codec() == old(self).spec_codec()
                                    &&& router.spec_network() == old(self).spec_network()
                                    &&& router.spec_requests() == old(self).spec_requests() + 1
                                    &&& *final(router) == *final(self)
                                    &&& #[trigger] call_ensures(
                                        StaticClusterRouter::<C, N>::route_exact_frame::<
                                            AcquisitionAnswer,
                                        >,
                                        (router, &frame, &reader),
                                        r,
                                    )
                                },
                        }
                    }
            },
    {
        let request_id = match next_request_id(
            RequestSource::ClusterRouter,
            self.request_sequence,
        ) {
            Ok((count, request_id)) => {
                self.request_sequence = count;
                request_id
            },
            Err(error) => return Err(StaticClusterRoutingError::Client(error)),
        };
        assert(self.spec_bound() == old(self).spec_bound());
        let encoded = self.codec.encode_owner_acquisition_request(
            &request_id,
            &session_id,
            expected_owner_epoch,
            &owner_instance_id,
            self.config.max_response_frame_bytes,
        );
        assert(call_ensures(
            C::encode_owner_acquisition_request,
            (
                &old(self).spec_codec(),
                &request_id,
                &session_id,
                expected_owner_epoch,
                &owner_instance_id,
                old(self).spec_bound(),
            ),
            encoded,
        ));
        let frame = match encoded {
            Ok(frame) => frame,
            Err(error) => {
                return Err(StaticClusterRoutingError::Client(ClientError::Protocol(error)));
            },
        };
        let reader = AcquisitionAnswer { request_id };
        self.route_exact_frame(&frame, &reader)
    }
}

/// Whether the leader is looked for again after attempt `attempt` of at most `max_attempts`.
pub open spec fn spec_rediscovers<P>(
    outcome: Result<P, ClientError>,
    attempt: usize,
    max_attempts: usize,
) -> bool {
    (outcome matches Err(error) && allows_rediscovery(error)) && attempt < max_attempts
}

/// Decide whether the leader is looked for again.
pub fn rediscovers<P>(outcome: &Result<P, ClientError>, attempt: usize, max_attempts: usize) -> (r:
    bool)
    ensures
        r == spec_rediscovers(*outcome, attempt, max_attempts),
{
    match outcome {
        Ok(_) => false,
        Err(error) => should_rediscover(error) && attempt < max_attempts,
    }
}

/// Whether another attempt follows `answer`, which attempt `attempt` of at most `max_attempts`
/// gave. A failed discovery ends the routing.
pub open spec fn is_followed<P>(
    answer: Result<Result<P, ClientError>, StaticClusterRoutingError>,
    attempt: usize,
    max_attempts: usize,
) -> bool {
    answer matches Ok(outcome) && spec_rediscovers(outcome, attempt, max_attempts)
}

/// What a router reports of the answer to its last attempt.
pub open spec fn routed_answer<P>(
    answer: Result<Result<P, ClientError>, StaticClusterRoutingError>,
) -> Result<P, StaticClusterRoutingError> {
    match answer {
        Ok(Ok(value)) => Ok(value),
        Ok(Err(error)) => Err(StaticClusterRoutingError::Client(error)),
        Err(error) => Err(error),
    }
}

/// Report the outcome of the last attempt.
fn report_outcome<P>(outcome: Result<P, ClientError>) -> (r: Result<P, StaticClusterRoutingError>)
    ensures
        r == routed_answer::<P>(Ok(outcome)),
{
    match outcome {
        Ok(value) => Ok(value),
        Err(error) => Err(StaticClusterRoutingError::Client(error)),
    }
}

/// A definitive answer of the Broker is never sent to another node, and no attempt follows the
/// last.
pub proof fn law_only_unknown_outcomes_are_rerouted<P>(
    outcome: Result<P, ClientError>,
    attempt: usize,
    max_attempts: usize,
)
    ensures
        spec_rediscovers(outcome, attempt, max_attempts) ==> attempt < max_attempts,
        outcome is Ok ==> !spec_rediscovers(outcome, attempt, max_attempts),
        (outcome matches Err(ClientError::Broker(error)) && error@.disposition
            != BrokerErrorDisposition::Unknown) ==> !spec_rediscovers(
            outcome,
            attempt,
            max_attempts,
        ),
        (outcome matches Err(ClientError::Protocol(_))) ==> !spec_rediscovers(
            outcome,
            attempt,
            max_attempts,
        ),
{
}

/// Whether `r` is the refusal of an answer of node `node_id`.
pub open spec fn is_refusal(
    node_id: u64,
    reason: Seq<char>,
    r: Result<StaticClusterNode, StaticClusterRoutingError>,
) -> bool {
    r matches Err(error) && error@ == (RoutingErrorView::InvalidOperationsResponse {
        node_id,
        reason,
    })
}

} // verus!
