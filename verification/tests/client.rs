use std::cell::RefCell;
use std::rc::Rc;

use agent_broker::address::SocketAddress;
use agent_broker::client::{BrokerClient, BrokerTransport, ClaimInput};
use agent_broker::client_config::{
    next_request_id, BrokerClientConfig, DurableRetryPolicy, RequestSource,
};
use agent_broker::client_error::{
    classify_response, closes_connection, ClientError, DurableExecutionError,
};
use agent_broker::client_payloads::{
    consumer_group_result, health_result, heartbeat_result, namespace_result, task_claim_result,
    task_completed_result, task_lease_renewed_result, task_published_result,
};
use agent_broker::command_identity::{
    CommandIdentity, CommandSequence, CommandSessionId, SessionOwnerEpoch, SessionOwnerInstanceId,
};
use agent_broker::domain::{
    ConsumerGroupId, Generation, LeaseDurationMs, LeaseId, MemberId, NamespaceId, Revision, Term,
};
use agent_broker::durable_client::{decide_attempt, AttemptDecision};
use agent_broker::error::{BrokerError, BrokerErrorCode, BrokerErrorDisposition};
use agent_broker::protocol::{
    BrokerRequest, Operation, ProtocolCodec, ProtocolCodecError, ProtocolVersion, RequestBody,
    ResponseDecodeError, SuccessPayload,
};
use agent_broker::response_frames::{advance_frame, FrameProgress};
use agent_broker::session_state::{ClientSessionStoreError, PersistedSessionState, StoredState};
use agent_broker::session_store::{DurableClientSessionStore, SessionJournal};
use agent_broker::time_span::TimeSpan;

/// A codec whose request frames name the protocol, the operation and the request id, and whose
/// answers start with what they say.
struct WordCodec;

fn operation_of(frame: &str) -> Option<RequestBody> {
    if frame.contains("EnsureNamespace") {
        Some(RequestBody::EnsureNamespace { namespace_id: NamespaceId::new("n").unwrap() })
    } else {
        None
    }
}

fn worded(version: &str, request: &BrokerRequest) -> Vec<u8> {
    format!("{version} {:?} {}", request.operation(), request.request_id).into_bytes()
}

fn answered(frame: &[u8]) -> Result<(), ResponseDecodeError> {
    let refused = |disposition| {
        Err(ResponseDecodeError::Broker(
            BrokerError::new(BrokerErrorCode::Conflict, "refused").with_disposition(disposition),
        ))
    };
    if frame.starts_with(b"ok") {
        Ok(())
    } else if frame.starts_with(b"committed") {
        refused(BrokerErrorDisposition::Committed)
    } else if frame.starts_with(b"rejected") {
        refused(BrokerErrorDisposition::Rejected)
    } else if frame.starts_with(b"unknown") {
        refused(BrokerErrorDisposition::Unknown)
    } else {
        Err(ResponseDecodeError::Protocol(ProtocolCodecError::InvalidResponse("odd".to_owned())))
    }
}

fn namespace_payload() -> SuccessPayload {
    SuccessPayload::Namespace {
        term: Term::initial(),
        revision: Revision::new(4),
        namespace_id: NamespaceId::new("n").unwrap(),
        namespace_revision: Revision::new(3),
    }
}

impl ProtocolCodec for WordCodec {
    fn encode_request(&self, request: &BrokerRequest) -> Result<Vec<u8>, ProtocolCodecError> {
        Ok(worded("V1", request))
    }

    fn encode_identified_request(
        &self,
        _identity: &CommandIdentity,
        request: &BrokerRequest,
    ) -> Result<Vec<u8>, ProtocolCodecError> {
        Ok(worded("V2", request))
    }

    fn encode_owner_mutation_request(
        &self,
        identity: &CommandIdentity,
        request: &BrokerRequest,
        _max_bytes: usize,
    ) -> Result<Vec<u8>, ProtocolCodecError> {
        let mut frame = worded("V3", request);
        frame.extend(format!(" #{}", identity.sequence().get()).into_bytes());
        Ok(frame)
    }

    fn encode_owner_acquisition_request(
        &self,
        request_id: &String,
        session_id: &CommandSessionId,
        expected_owner_epoch: SessionOwnerEpoch,
        owner_instance_id: &SessionOwnerInstanceId,
        max_bytes: usize,
    ) -> Result<Vec<u8>, ProtocolCodecError> {
        if max_bytes < 8_192 {
            return Err(ProtocolCodecError::FrameTooLarge { actual: 8_192, max: max_bytes });
        }
        let (session, owner) = (session_id.as_str(), owner_instance_id.as_str());
        Ok(format!("own {request_id} {session} {} {owner}", expected_owner_epoch.get())
            .into_bytes())
    }

    fn encode_stored_request(
        &self,
        request: &BrokerRequest,
    ) -> Result<String, ClientSessionStoreError> {
        Ok(format!("{:?} {}", request.operation(), request.request_id))
    }

    fn decode_request(&self, frame: &str) -> Result<BrokerRequest, ProtocolCodecError> {
        let body = operation_of(frame)
            .ok_or(ProtocolCodecError::InvalidRequest("unknown operation".to_owned()))?;
        let request_id = frame.rsplit(' ').next().unwrap_or("").to_owned();
        Ok(BrokerRequest { request_id, body })
    }

    fn decode_response(
        &self,
        _version: ProtocolVersion,
        frame: &Vec<u8>,
        _request_id: &String,
        _operation: Operation,
        _max_bytes: usize,
    ) -> Result<SuccessPayload, ResponseDecodeError> {
        answered(frame)?;
        Ok(namespace_payload())
    }

    fn decode_owner_acquisition_response(
        &self,
        frame: &Vec<u8>,
        _request_id: &String,
        _max_bytes: usize,
    ) -> Result<SessionOwnerEpoch, ResponseDecodeError> {
        answered(frame)?;
        Ok(SessionOwnerEpoch::new(5).unwrap())
    }
}

/// What a test sees of a transport.
#[derive(Default)]
struct Wire {
    answers: Vec<Result<Vec<u8>, ClientError>>,
    sent: Vec<String>,
    closed: usize,
}

/// A transport that answers from a script.
struct ScriptedTransport {
    wire: Rc<RefCell<Wire>>,
}

impl BrokerTransport for ScriptedTransport {
    fn round_trip(
        &mut self,
        _config: &BrokerClientConfig,
        frame: &Vec<u8>,
    ) -> Result<Vec<u8>, ClientError> {
        let mut wire = self.wire.borrow_mut();
        wire.sent.push(String::from_utf8(frame.clone()).unwrap());
        wire.answers.remove(0)
    }

    fn close(&mut self) {
        self.wire.borrow_mut().closed += 1;
    }
}

fn client(
    answers: Vec<Result<Vec<u8>, ClientError>>,
) -> (BrokerClient<WordCodec, ScriptedTransport>, Rc<RefCell<Wire>>) {
    let wire = Rc::new(RefCell::new(Wire { answers, sent: Vec::new(), closed: 0 }));
    let transport = ScriptedTransport { wire: wire.clone() };
    let client = BrokerClient::new(BrokerClientConfig::default(), WordCodec, transport);
    (client.ok().unwrap(), wire)
}

fn says(word: &str) -> Result<Vec<u8>, ClientError> {
    Ok(word.as_bytes().to_vec())
}

fn cut() -> Result<Vec<u8>, ClientError> {
    Err(ClientError::Transport("cut".to_owned()))
}

/// A journal in memory.
struct MemoryJournal {
    state: Option<PersistedSessionState>,
}

impl SessionJournal for MemoryJournal {
    fn lock(&mut self) -> Result<bool, ClientSessionStoreError> {
        Ok(true)
    }

    fn load(&mut self) -> Result<StoredState, ClientSessionStoreError> {
        Ok(match self.state.clone() {
            Some(state) => StoredState::Decoded(state),
            None => StoredState::Missing,
        })
    }

    fn persist(&mut self, state: &PersistedSessionState) -> Result<(), ClientSessionStoreError> {
        self.state = Some(state.clone());
        Ok(())
    }
}

fn owned_store() -> DurableClientSessionStore<MemoryJournal> {
    let mut store = DurableClientSessionStore::open_or_create(
        MemoryJournal { state: None },
        CommandSessionId::new("s").unwrap(),
    )
    .ok()
    .unwrap();
    store.begin_owner_acquisition(SessionOwnerInstanceId::new("o").unwrap()).unwrap();
    store.confirm_owner_acquisition(SessionOwnerEpoch::initial()).unwrap();
    store
}

fn ensure_request() -> BrokerRequest {
    BrokerRequest {
        request_id: "r-1".to_owned(),
        body: RequestBody::EnsureNamespace { namespace_id: NamespaceId::new("n").unwrap() },
    }
}

#[test]
fn client_configurations_are_loopback_only_and_bounded() {
    let base = BrokerClientConfig::default();
    assert_eq!(base.address, SocketAddress::localhost(8_811));
    assert_eq!(base.timeout, TimeSpan::from_secs(5));
    assert_eq!(base.max_response_frame_bytes, 131_072);
    assert!(base.validate().is_ok());
    let refused = |config: BrokerClientConfig| config.validate().err().unwrap().message();
    let public = SocketAddress::V4 { a: 192, b: 168, c: 0, d: 1, port: 8_811 };
    assert_eq!(
        refused(BrokerClientConfig { address: public, ..base }),
        "Broker client address must be loopback-only."
    );
    assert_eq!(
        refused(BrokerClientConfig { max_response_frame_bytes: 1_048_577, ..base }),
        "max_response_frame_bytes must be between 4096 and 1048576."
    );
    assert_eq!(
        refused(BrokerClientConfig { timeout: TimeSpan::from_millis(0), ..base }),
        "Broker client timeout must be positive."
    );
    assert!(DurableRetryPolicy::new(0).is_none());
    assert_eq!(DurableRetryPolicy::new(4).unwrap().max_attempts(), 4);
}

#[test]
fn addresses_know_the_loopback_interface() {
    assert!(SocketAddress::V4 { a: 127, b: 9, c: 9, d: 9, port: 0 }.is_loopback());
    assert!(SocketAddress::V6 { bits: 1, port: 1, flowinfo: 0, scope_id: 0 }.is_loopback());
    assert!(!SocketAddress::V6 { bits: 0, port: 1, flowinfo: 0, scope_id: 0 }.is_loopback());
    assert!(!SocketAddress::V4 { a: 0, b: 0, c: 0, d: 0, port: 1 }.is_loopback());
}

#[test]
fn time_spans_count_in_nanoseconds() {
    assert_eq!(TimeSpan::from_millis(3).as_nanos(), 3_000_000);
    assert_eq!(TimeSpan::from_secs(2).as_millis(), 2_000);
    assert_eq!(TimeSpan::from_nanos(1_999_999).unwrap().as_millis(), 1);
    assert!(TimeSpan::from_nanos(0).unwrap().is_zero());
    assert!(TimeSpan::from_nanos(u128::MAX).is_none());
}

#[test]
fn request_ids_count_up_and_run_out() {
    assert_eq!(
        next_request_id(RequestSource::Client, 0),
        Ok((1, "rust-client-1".to_owned()))
    );
    assert_eq!(
        next_request_id(RequestSource::AsyncClient, 41),
        Ok((42, "rust-async-client-42".to_owned()))
    );
    assert_eq!(
        next_request_id(RequestSource::AsyncClusterRouter, u64::MAX - 1),
        Ok((u64::MAX, "rust-async-cluster-router-18446744073709551615".to_owned()))
    );
    assert_eq!(
        next_request_id(RequestSource::ClusterRouter, u64::MAX),
        Err(ClientError::RequestIdExhausted)
    );
}

#[test]
fn a_plain_call_sends_one_frame_and_reports_its_answer() {
    let (mut client, wire) = client(vec![says("ok"), says("committed")]);
    let result = client.ensure_namespace(NamespaceId::new("n").unwrap()).ok().unwrap();
    assert_eq!(result.namespace_revision, Revision::new(3));
    assert_eq!(result.metadata.revision, Revision::new(4));
    let refused = client.ensure_namespace(NamespaceId::new("n").unwrap()).err().unwrap();
    assert!(matches!(refused, ClientError::Broker(_)));
    let wire = wire.borrow();
    assert_eq!(
        wire.sent,
        vec!["V1 EnsureNamespace rust-client-1", "V1 EnsureNamespace rust-client-2"]
    );
    assert_eq!(wire.closed, 0);
}

#[test]
fn broken_exchanges_close_the_connection() {
    let (mut client, wire) = client(vec![cut(), says("gibberish"), says("ok")]);
    assert!(matches!(client.health(), Err(ClientError::Transport(_))));
    assert!(matches!(client.health(), Err(ClientError::Protocol(_))));
    assert_eq!(client.health(), Err(ClientError::UnexpectedPayload(Operation::Health)));
    assert!(wire.borrow().closed >= 2);
    client.close();
    assert!(closes_connection::<()>(&Err(ClientError::Transport("t".to_owned()))));
    assert!(!closes_connection(&Ok::<u8, ClientError>(1)));
}

#[test]
fn identified_and_owned_calls_use_their_own_protocol() {
    let (mut client, wire) = client(vec![says("ok"), says("ok"), says("ok")]);
    let identity = CommandIdentity::new(
        CommandSessionId::new("s").unwrap(),
        CommandSequence::new(9).unwrap(),
    );
    assert!(client.execute_identified(&identity, &ensure_request()).is_ok());
    assert!(client.execute_owned(&identity, &ensure_request()).is_ok());
    let epoch = client.acquire_command_session_owner(
        CommandSessionId::new("s").unwrap(),
        SessionOwnerEpoch::new(4).unwrap(),
        SessionOwnerInstanceId::new("o").unwrap(),
    );
    assert_eq!(epoch.ok().unwrap().get(), 5);
    assert_eq!(
        wire.borrow().sent,
        vec![
            "V2 EnsureNamespace r-1",
            "V3 EnsureNamespace r-1 #9",
            "own rust-client-1 s 4 o",
        ]
    );
}

#[test]
fn typed_calls_carry_their_input() {
    let (mut client, wire) = client(vec![says("ok")]);
    let claimed = client.claim_task(ClaimInput {
        group_id: ConsumerGroupId::new("g").unwrap(),
        member_id: MemberId::new("m").unwrap(),
        expected_term: Term::initial(),
        expected_generation: Generation::new(1),
        lease_id: LeaseId::new("l").unwrap(),
        lease_duration: LeaseDurationMs::new(5).unwrap(),
    });
    assert_eq!(claimed, Err(ClientError::UnexpectedPayload(Operation::ClaimTask)));
    assert_eq!(wire.borrow().sent, vec!["V1 ClaimTask rust-client-1"]);
}

#[test]
fn each_call_accepts_only_its_own_kind_of_payload() {
    assert!(namespace_result(namespace_payload()).is_ok());
    assert!(health_result(namespace_payload()).is_err());
    assert!(task_published_result(namespace_payload()).is_err());
    assert!(consumer_group_result(namespace_payload()).is_err());
    assert!(heartbeat_result(namespace_payload()).is_err());
    assert!(task_claim_result(namespace_payload()).is_err());
    assert!(task_lease_renewed_result(namespace_payload()).is_err());
    assert!(task_completed_result(namespace_payload()).is_err());
    let health = SuccessPayload::Health {
        protocol_version: 2,
        term: Term::initial(),
        revision: Revision::new(1),
    };
    let told = health_result(health).ok().unwrap();
    assert_eq!(told.protocol_version, 2);
}

#[test]
fn a_durable_command_is_retried_with_the_same_frame_until_it_is_settled() {
    let (mut client, wire) = client(vec![cut(), says("unknown"), says("ok")]);
    let mut store = owned_store();
    let policy = DurableRetryPolicy::new(3).unwrap();
    let told = client.execute_durable(&mut store, ensure_request(), policy);
    assert_eq!(told.ok().unwrap(), namespace_payload());
    assert!(store.in_flight().unwrap().is_none());
    assert_eq!(store.next_sequence().unwrap().get(), 2);
    assert_eq!(wire.borrow().sent, vec!["V3 EnsureNamespace r-1 #1"; 3]);
}

#[test]
fn an_unsettled_command_stays_in_flight_and_is_recovered() {
    let (mut client, wire) = client(vec![cut(), says("unknown"), says("committed")]);
    let mut store = owned_store();
    let policy = DurableRetryPolicy::new(2).unwrap();
    let lost = client.execute_durable(&mut store, ensure_request(), policy);
    assert!(matches!(
        lost,
        Err(DurableExecutionError::Client(ClientError::Broker(_)))
    ));
    assert!(store.in_flight().unwrap().is_some());
    assert_eq!(store.next_sequence().unwrap().get(), 1);

    let settled = client.recover_durable_in_flight(&mut store, policy);
    assert!(matches!(
        settled,
        Err(DurableExecutionError::Client(ClientError::Broker(_)))
    ));
    assert!(store.in_flight().unwrap().is_none());
    assert_eq!(store.next_sequence().unwrap().get(), 2);
    assert_eq!(wire.borrow().sent, vec!["V3 EnsureNamespace r-1 #1"; 3]);
    assert!(matches!(
        client.recover_durable_in_flight(&mut store, policy),
        Err(DurableExecutionError::SessionStore(_))
    ));
}

#[test]
fn a_rejected_command_gives_its_sequence_back() {
    let (mut client, _) = client(vec![says("rejected")]);
    let mut store = owned_store();
    let policy = DurableRetryPolicy::new(2).unwrap();
    assert!(client.execute_durable(&mut store, ensure_request(), policy).is_err());
    assert!(store.in_flight().unwrap().is_none());
    assert_eq!(store.next_sequence().unwrap().get(), 1);
}

#[test]
fn attempts_are_decided_by_what_is_known() {
    let refused = |disposition| {
        Err(ClientError::Broker(
            BrokerError::new(BrokerErrorCode::Conflict, "x").with_disposition(disposition),
        ))
    };
    assert_eq!(decide_attempt(&Ok(namespace_payload()), 1, 3), AttemptDecision::Acknowledge);
    assert_eq!(
        decide_attempt(&refused(BrokerErrorDisposition::Committed), 1, 3),
        AttemptDecision::Acknowledge
    );
    assert_eq!(
        decide_attempt(&refused(BrokerErrorDisposition::Rejected), 1, 3),
        AttemptDecision::Release
    );
    assert_eq!(
        decide_attempt(&refused(BrokerErrorDisposition::Unknown), 2, 3),
        AttemptDecision::Retry
    );
    assert_eq!(
        decide_attempt(&refused(BrokerErrorDisposition::Unknown), 3, 3),
        AttemptDecision::Report
    );
    assert_eq!(
        decide_attempt(&Err(ClientError::RequestIdExhausted), 1, 3),
        AttemptDecision::Report
    );
}

#[test]
fn decoded_answers_are_reported_by_their_kind() {
    let protocol = ProtocolCodecError::FrameTooLarge { actual: 9, max: 8 };
    assert!(matches!(
        classify_response::<u8>(Err(ResponseDecodeError::Protocol(protocol))),
        Err(ClientError::Protocol(_))
    ));
    let broker = BrokerError::new(BrokerErrorCode::NotFound, "gone");
    let told = classify_response::<u8>(Err(ResponseDecodeError::Broker(broker)));
    assert_eq!(told.err().unwrap().message(), "gone");
    assert_eq!(classify_response(Ok(3u8)).ok(), Some(3));
    assert_eq!(
        ClientError::Transport("cut".to_owned()).message(),
        "Broker transport failed: cut"
    );
}

#[test]
fn frames_end_at_the_first_newline_within_the_bound() {
    let mut frame: Vec<u8> = Vec::new();
    assert_eq!(advance_frame(&mut frame, b"ab", 5), FrameProgress::Partial);
    assert_eq!(advance_frame(&mut frame, b"c\nrest", 5), FrameProgress::Complete { consumed: 2 });
    assert_eq!(frame, b"abc\n");
    let mut whole: Vec<u8> = Vec::new();
    assert_eq!(advance_frame(&mut whole, b"abc\nrest", 5), FrameProgress::Complete { consumed: 4 });
    assert_eq!(whole, frame);
    let mut long: Vec<u8> = Vec::new();
    assert!(matches!(advance_frame(&mut long, b"abcdef", 5), FrameProgress::TooLarge { .. }));
    let mut closed: Vec<u8> = Vec::new();
    assert_eq!(advance_frame(&mut closed, b"", 5), FrameProgress::Closed);
}
