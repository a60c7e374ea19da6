use agent_broker::address::SocketAddress;
use agent_broker::client_config::BrokerClientConfig;
use agent_broker::client_error::ClientError;
use agent_broker::command_identity::{
    CommandIdentity, CommandSequence, CommandSessionId, SessionOwnerEpoch, SessionOwnerInstanceId,
};
use agent_broker::domain::{NamespaceId, Revision, Term};
use agent_broker::error::{BrokerError, BrokerErrorCode, BrokerErrorDisposition};
use agent_broker::json::Json;
use agent_broker::protocol::{
    BrokerRequest, Operation, ProtocolCodec, ProtocolCodecError, ProtocolVersion, RequestBody,
    ResponseDecodeError, SuccessPayload,
};
use agent_broker::router::{
    operations_readiness_request, rediscovers, should_rediscover, ClusterNetwork,
    StaticClusterRouter,
};
use agent_broker::router_config::{
    judge_probe, select_write_leader, validate_readiness, ProbeReply, StaticClusterNode,
    StaticClusterRouterConfig, StaticClusterRoutingError, StaticClusterRoutingRetryPolicy,
};
use agent_broker::session_state::ClientSessionStoreError;
use agent_broker::time_span::TimeSpan;

/// A codec whose frames are the request ids; an answer starts with what it says.
struct LineCodec;

fn told(frame: &[u8]) -> Result<(), ResponseDecodeError> {
    let broker = |code, disposition| {
        Err(ResponseDecodeError::Broker(
            BrokerError::new(code, "told").with_disposition(disposition),
        ))
    };
    if frame.starts_with(b"ok") {
        Ok(())
    } else if frame.starts_with(b"unknown") {
        broker(BrokerErrorCode::TransportError, BrokerErrorDisposition::Unknown)
    } else if frame.starts_with(b"conflict") {
        broker(BrokerErrorCode::Conflict, BrokerErrorDisposition::Committed)
    } else {
        Err(ResponseDecodeError::Protocol(ProtocolCodecError::InvalidResponse("odd".to_owned())))
    }
}

impl ProtocolCodec for LineCodec {
    fn encode_request(&self, request: &BrokerRequest) -> Result<Vec<u8>, ProtocolCodecError> {
        Ok(request.request_id.clone().into_bytes())
    }

    fn encode_identified_request(
        &self,
        _identity: &CommandIdentity,
        request: &BrokerRequest,
    ) -> Result<Vec<u8>, ProtocolCodecError> {
        self.encode_request(request)
    }

    fn encode_owner_mutation_request(
        &self,
        _identity: &CommandIdentity,
        request: &BrokerRequest,
        _max_bytes: usize,
    ) -> Result<Vec<u8>, ProtocolCodecError> {
        self.encode_request(request)
    }

    fn encode_owner_acquisition_request(
        &self,
        request_id: &String,
        _session_id: &CommandSessionId,
        _expected_owner_epoch: SessionOwnerEpoch,
        _owner_instance_id: &SessionOwnerInstanceId,
        _max_bytes: usize,
    ) -> Result<Vec<u8>, ProtocolCodecError> {
        Ok(request_id.clone().into_bytes())
    }

    fn encode_stored_request(
        &self,
        request: &BrokerRequest,
    ) -> Result<String, ClientSessionStoreError> {
        Ok(request.request_id.clone())
    }

    fn decode_request(&self, frame: &str) -> Result<BrokerRequest, ProtocolCodecError> {
        Ok(BrokerRequest { request_id: frame.to_owned(), body: RequestBody::Health })
    }

    fn decode_response(
        &self,
        _version: ProtocolVersion,
        frame: &Vec<u8>,
        _request_id: &String,
        _operation: Operation,
        _max_bytes: usize,
    ) -> Result<SuccessPayload, ResponseDecodeError> {
        told(frame)?;
        Ok(SuccessPayload::Health {
            protocol_version: 3,
            term: Term::initial(),
            revision: Revision::new(1),
        })
    }

    fn decode_owner_acquisition_response(
        &self,
        frame: &Vec<u8>,
        _request_id: &String,
        _max_bytes: usize,
    ) -> Result<SessionOwnerEpoch, ResponseDecodeError> {
        told(frame)?;
        Ok(SessionOwnerEpoch::new(2).ok().unwrap())
    }
}

/// A network that answers from a script and remembers what was sent where.
struct ScriptedNetwork {
    documents: [ProbeScript; 3],
    answers: Vec<Result<Vec<u8>, ClientError>>,
    sent: std::rc::Rc<std::cell::RefCell<Vec<(SocketAddress, Vec<u8>)>>>,
}

#[derive(Clone)]
enum ProbeScript {
    Unavailable,
    TooLarge,
    Says(String),
}

impl ClusterNetwork for ScriptedNetwork {
    fn probe(
        &mut self,
        node: &StaticClusterNode,
        _timeout: TimeSpan,
        _max_response_frame_bytes: usize,
    ) -> ProbeReply {
        match &self.documents[(node.node_id - 1) as usize] {
            ProbeScript::Unavailable => ProbeReply::Unavailable,
            ProbeScript::TooLarge => ProbeReply::FrameTooLarge,
            ProbeScript::Says(text) => ProbeReply::Frame(text.clone().into_bytes()),
        }
    }

    fn round_trip(
        &mut self,
        config: &BrokerClientConfig,
        frame: &Vec<u8>,
    ) -> Result<Vec<u8>, ClientError> {
        self.sent.borrow_mut().push((config.address, frame.clone()));
        self.answers.remove(0)
    }
}

fn response(node_id: u64, ready: bool) -> String {
    if !ready {
        return r#"{"schema_version": 1, "operation": "readiness", "live": true,
            "write_ready": false, "reason": "follower", "maintenance_authority": false,
            "consensus": {"status": "follower", "write_ready": false, "progress": null}}"#
            .to_owned();
    }
    format!(
        r#"{{"schema_version": 1, "operation": "readiness", "live": true,
            "write_ready": true, "reason": "ready", "maintenance_authority": true,
            "consensus": {{"status": "ready", "write_ready": true,
                "progress": {{"node_id": {node_id}, "current_leader": {node_id}}}}}}}"#
    )
}

fn says(node_id: u64, ready: bool) -> ProbeScript {
    ProbeScript::Says(response(node_id, ready))
}

fn config() -> StaticClusterRouterConfig {
    let node = |node_id: u64, broker: u16, operations: u16| StaticClusterNode {
        node_id,
        broker_address: SocketAddress::localhost(broker),
        operations_address: SocketAddress::localhost(operations),
    };
    StaticClusterRouterConfig {
        nodes: [node(1, 18_811, 19_811), node(2, 18_812, 19_812), node(3, 18_813, 19_813)],
        ..StaticClusterRouterConfig::default()
    }
}

fn router(documents: [ProbeScript; 3]) -> StaticClusterRouter<LineCodec, ScriptedNetwork> {
    let network = ScriptedNetwork { documents, answers: Vec::new(), sent: Default::default() };
    StaticClusterRouter::new(config(), LineCodec, network).ok().unwrap()
}

#[test]
fn discovery_accepts_one_verified_ready_node_with_one_unavailable_peer() {
    let mut router = router([ProbeScript::Unavailable, says(2, true), says(3, false)]);
    let leader = router.discover_write_leader().ok().unwrap();
    assert_eq!(leader.node_id, 2);
}

#[test]
fn discovery_rejects_multiple_ready_nodes() {
    let mut router = router([says(1, true), says(2, true), says(3, false)]);
    assert!(matches!(
        router.discover_write_leader(),
        Err(StaticClusterRoutingError::MultipleWriteReadyLeaders(ref nodes)) if nodes == &[1, 2]
    ));
}

#[test]
fn discovery_rejects_ready_identity_mismatch() {
    let mut router = router([says(2, true), ProbeScript::Unavailable, ProbeScript::Unavailable]);
    assert!(matches!(
        router.discover_write_leader(),
        Err(StaticClusterRoutingError::InvalidOperationsResponse { node_id: 1, .. })
    ));
}

#[test]
fn config_rejects_duplicate_node_identity() {
    let mut config = StaticClusterRouterConfig::default();
    config.nodes[1].node_id = config.nodes[0].node_id;
    let network = ScriptedNetwork {
        documents: [ProbeScript::Unavailable, ProbeScript::Unavailable, ProbeScript::Unavailable],
        answers: Vec::new(),
        sent: Default::default(),
    };
    assert!(matches!(
        StaticClusterRouter::new(config, LineCodec, network),
        Err(StaticClusterRoutingError::InvalidConfiguration(_))
    ));
}

#[test]
fn discovery_finds_nobody_where_nobody_is_ready() {
    let mut router = router([says(1, false), ProbeScript::Unavailable, says(3, false)]);
    assert_eq!(
        router.discover_write_leader(),
        Err(StaticClusterRoutingError::NoWriteReadyLeader)
    );
}

#[test]
fn an_oversized_or_unreadable_document_is_refused() {
    let mut router_one = router([says(1, true), ProbeScript::TooLarge, says(3, false)]);
    assert!(matches!(
        router_one.discover_write_leader(),
        Err(StaticClusterRoutingError::InvalidOperationsResponse { node_id: 2, .. })
    ));
    let node = config().nodes[0];
    let broken = ProbeReply::Frame(b"{\"schema_version\":".to_vec());
    assert!(judge_probe(&node, &broken).is_err());
    assert_eq!(judge_probe(&node, &ProbeReply::Unavailable), Ok(false));
    let ready = ProbeReply::Frame(response(1, true).into_bytes());
    assert_eq!(judge_probe(&node, &ready), Ok(true));
}

#[test]
fn documents_are_read_member_by_member() {
    let text = br#"{"a": [null, true, -1, 2.5, 18446744073709551615], "b": {"c": "x\n"}, "b": 3}"#;
    let document = Json::parse(text).ok().unwrap();
    assert!(document.is_object());
    assert_eq!(
        document.get("a"),
        Some(&Json::List(vec![
            Json::Null,
            Json::Bool(true),
            Json::Number(None),
            Json::Number(None),
            Json::Number(Some(u64::MAX)),
        ]))
    );
    assert_eq!(document.unsigned("b"), Some(3));
    assert_eq!(document.get("c"), None);
    let nested = Json::parse(br#"{"t": "x\n", "f": false}"#).ok().unwrap();
    assert!(nested.has_text("t", "x\n"));
    assert!(!nested.has_text("t", "x"));
    assert!(nested.has_bool("f", false));
    assert!(!nested.has_bool("f", true));
    assert!(!nested.has_bool("t", false));
    assert!(Json::parse(b"").is_err());
    assert!(Json::parse(b"{} {}").is_err());
    assert!(!Json::parse(b"7").ok().unwrap().is_object());
}

#[test]
fn a_claim_of_readiness_has_to_be_whole() {
    let node = config().nodes[1];
    let judge = |text: &str| validate_readiness(&node, &Json::parse(text.as_bytes()).ok().unwrap());
    let ready = response(2, true);
    assert_eq!(judge(&ready), Ok(true));
    assert_eq!(judge(&response(2, false)), Ok(false));
    for (from, to) in [
        ("\"schema_version\": 1", "\"schema_version\": 2"),
        ("\"operation\": \"readiness\"", "\"operation\": \"health\""),
        ("\"live\": true", "\"live\": false"),
        ("\"write_ready\": true, \"reason\"", "\"write_ready\": 1, \"reason\""),
        ("\"reason\": \"ready\"", "\"reason\": \"follower\""),
        ("\"maintenance_authority\": true", "\"maintenance_authority\": false"),
        ("\"status\": \"ready\"", "\"status\": \"follower\""),
        ("\"write_ready\": true,\n", "\"write_ready\": false,\n"),
        ("\"node_id\": 2", "\"node_id\": 1"),
        ("\"current_leader\": 2", "\"current_leader\": null"),
    ] {
        let changed = ready.replacen(from, to, 1);
        assert_ne!(changed, ready, "{from}");
        assert!(judge(&changed) != Ok(true), "{from}");
    }
    assert!(judge("[]").is_err());
}

#[test]
fn the_only_ready_node_is_selected() {
    let nodes = config().nodes;
    assert_eq!(select_write_leader(&nodes, &[false, false, true]), Ok(nodes[2]));
    assert_eq!(
        select_write_leader(&nodes, &[true, true, true]),
        Err(StaticClusterRoutingError::MultipleWriteReadyLeaders(vec![1, 2, 3]))
    );
    let many = StaticClusterRoutingError::MultipleWriteReadyLeaders(vec![1, 3]);
    assert_eq!(
        many.message(),
        "static cluster reported multiple write-ready leaders: [1, 3]"
    );
}

#[test]
fn router_configurations_are_bounded() {
    assert!(StaticClusterRouterConfig::default().validate().is_ok());
    assert_eq!(StaticClusterRouterConfig::default().retry_policy.max_attempts(), 3);
    assert!(StaticClusterRoutingRetryPolicy::new(0).is_none());
    let mut zero = config();
    zero.timeout = TimeSpan::from_millis(0);
    assert!(zero.validate().is_err());
    let mut small = config();
    small.max_response_frame_bytes = 4_095;
    assert!(small.validate().is_err());
    small.max_response_frame_bytes = 4_096;
    assert!(small.validate().is_ok());
    let mut nameless = config();
    nameless.nodes[2].node_id = 0;
    assert!(nameless.validate().is_err());
    let mut public = config();
    public.nodes[0].broker_address = SocketAddress::V4 { a: 10, b: 0, c: 0, d: 1, port: 18_811 };
    assert!(public.validate().is_err());
    let mut shared = config();
    shared.nodes[0].operations_address = shared.nodes[0].broker_address;
    assert!(shared.validate().is_err());
    let mut twice = config();
    twice.nodes[2].operations_address = twice.nodes[0].operations_address;
    assert!(twice.validate().is_err());
}

fn unknown() -> ClientError {
    ClientError::Broker(BrokerError::new(BrokerErrorCode::TransportError, "lost"))
}

#[test]
fn only_ambiguous_answers_are_sent_elsewhere() {
    assert!(should_rediscover(&ClientError::Transport("cut".to_owned())));
    assert!(should_rediscover(&unknown()));
    let settled = BrokerError::new(BrokerErrorCode::TransportError, "settled")
        .with_disposition(BrokerErrorDisposition::Committed);
    assert!(!should_rediscover(&ClientError::Broker(settled)));
    assert!(!should_rediscover(&ClientError::RequestIdExhausted));
    let lost: Result<(), ClientError> = Err(unknown());
    assert!(rediscovers(&lost, 1, 3));
    assert!(!rediscovers(&lost, 3, 3));
    assert!(!rediscovers(&Ok::<(), ClientError>(()), 1, 3));
    assert!(operations_readiness_request().ends_with('\n'));
}

#[test]
fn a_lost_answer_is_asked_for_again_with_the_same_bytes() {
    let sent: std::rc::Rc<std::cell::RefCell<Vec<(SocketAddress, Vec<u8>)>>> = Default::default();
    let network = ScriptedNetwork {
        documents: [says(1, false), says(2, true), says(3, false)],
        answers: vec![
            Err(ClientError::Transport("cut".to_owned())),
            Ok(b"unknown".to_vec()),
            Ok(b"ok".to_vec()),
        ],
        sent: sent.clone(),
    };
    let mut router = StaticClusterRouter::new(config(), LineCodec, network).ok().unwrap();
    let identity = CommandIdentity::new(
        CommandSessionId::new("s").unwrap(),
        CommandSequence::new(1).unwrap(),
    );
    let request = BrokerRequest {
        request_id: "request-7".to_owned(),
        body: RequestBody::EnsureNamespace { namespace_id: NamespaceId::new("n").unwrap() },
    };
    assert!(router.execute_owned(&identity, &request).is_ok());
    let expected = (SocketAddress::localhost(18_812), b"request-7".to_vec());
    assert_eq!(*sent.borrow(), vec![expected.clone(), expected.clone(), expected]);
}

#[test]
fn a_settled_refusal_is_reported_at_once() {
    let sent: std::rc::Rc<std::cell::RefCell<Vec<(SocketAddress, Vec<u8>)>>> = Default::default();
    let network = ScriptedNetwork {
        documents: [says(1, true), says(2, false), says(3, false)],
        answers: vec![Ok(b"conflict".to_vec())],
        sent: sent.clone(),
    };
    let mut router = StaticClusterRouter::new(config(), LineCodec, network).ok().unwrap();
    let refused = router.acquire_command_session_owner(
        CommandSessionId::new("s").unwrap(),
        SessionOwnerEpoch::initial(),
        SessionOwnerInstanceId::new("o").unwrap(),
    );
    assert!(matches!(
        refused,
        Err(StaticClusterRoutingError::Client(ClientError::Broker(ref error)))
            if error.code() == BrokerErrorCode::Conflict
    ));
    assert_eq!(
        *sent.borrow(),
        vec![(SocketAddress::localhost(18_811), b"rust-cluster-router-1".to_vec())]
    );
}

#[test]
fn routing_gives_up_after_its_last_attempt() {
    let network = ScriptedNetwork {
        documents: [says(1, false), says(2, false), says(3, true)],
        answers: vec![Ok(b"unknown".to_vec()), Ok(b"unknown".to_vec()), Ok(b"unknown".to_vec())],
        sent: Default::default(),
    };
    let mut router = StaticClusterRouter::new(config(), LineCodec, network).ok().unwrap();
    let lost = router.acquire_command_session_owner(
        CommandSessionId::new("s").unwrap(),
        SessionOwnerEpoch::initial(),
        SessionOwnerInstanceId::new("o").unwrap(),
    );
    assert!(matches!(lost, Err(StaticClusterRoutingError::Client(ClientError::Broker(_)))));
}
