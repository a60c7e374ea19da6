use std::collections::BTreeMap;

use agent_broker::address::SocketAddress;
use agent_broker::cluster_config::{AdvertisedAddress, ClusterRaftConfig, RaftTiming};
use agent_broker::cluster_tls::{
    ca_certificate_file, decide_handshake, node_certificate_file, node_key_file, peer_server_name,
    settle_tls, ClusterRaftTlsConfig, HandshakeIo, HandshakeStep, LoadedClusterRaftTls, PeerFile, PeerRefusal,
    TlsFiles,
};
use agent_broker::error::{BrokerError, BrokerErrorCode};
use agent_broker::one_node::OneNodeRaftConfig;
use agent_broker::raft_frames::{
    accept_snapshot, announce_snapshot, bounded_rpc_io_timeout, next_chunk, read_frame_length,
    shorter, write_frame, FrameAssembly, RaftFrameRefusal, RPC_IO_TIMEOUT_SECONDS,
};
use agent_broker::time_span::TimeSpan;
use agent_broker::tls_crypto::TlsSetupFailure;
use rcgen::{
    BasicConstraints, CertificateParams, DnType, ExtendedKeyUsagePurpose, IsCa, Issuer, KeyPair,
    KeyUsagePurpose,
};

fn advertised(port: u16) -> AdvertisedAddress {
    AdvertisedAddress {
        text: format!("127.0.0.1:{port}"),
        resolved: Some(SocketAddress::localhost(port)),
    }
}

fn nodes() -> BTreeMap<u64, AdvertisedAddress> {
    BTreeMap::from([(1, advertised(18_001)), (2, advertised(18_002)), (3, advertised(18_003))])
}

fn validation_tls() -> ClusterRaftTlsConfig {
    ClusterRaftTlsConfig::new("unused-cluster-tls").unwrap()
}

fn cluster(nodes: BTreeMap<u64, AdvertisedAddress>) -> Result<ClusterRaftConfig, BrokerError> {
    ClusterRaftConfig::new(
        1,
        "unused-snapshot-policy-validation.redb",
        SocketAddress::localhost(18_001),
        nodes,
        validation_tls(),
        true,
    )
}

fn base() -> ClusterRaftConfig {
    cluster(nodes()).ok().unwrap()
}

#[test]
fn snapshot_catch_up_policy_rejects_invalid_threshold_relationships() {
    let zero_interval = base().with_snapshot_catch_up_policy(0, 16, 2);
    assert!(zero_interval.is_err());

    let equal_threshold = base().with_snapshot_catch_up_policy(8, 8, 2);
    assert!(equal_threshold.is_err());

    let lower_threshold = base().with_snapshot_catch_up_policy(8, 7, 2);
    assert!(lower_threshold.is_err());

    let mut hostname_nodes = nodes();
    hostname_nodes.insert(
        1,
        AdvertisedAddress { text: "raft-node-1:18001".to_owned(), resolved: None },
    );
    let hostname_error = cluster(hostname_nodes).err().unwrap();
    assert_eq!(hostname_error.code(), BrokerErrorCode::InvalidRequest);

    assert!(base().with_rpc_connect_timeout(TimeSpan::from_millis(0)).is_err());
    assert!(base().with_rpc_connect_timeout(TimeSpan::from_secs(31)).is_err());
}

#[test]
fn accepted_policies_are_what_the_engine_is_started_with() {
    let config = base()
        .with_snapshot_catch_up_policy(8, 16, 2)
        .ok()
        .unwrap()
        .with_raft_timing(
            TimeSpan::from_millis(300),
            TimeSpan::from_millis(600),
            TimeSpan::from_millis(50),
        )
        .ok()
        .unwrap();
    let settings = config.engine_settings().ok().unwrap();
    assert_eq!(settings.snapshot_log_interval, 8);
    assert_eq!(settings.replication_lag_threshold, Some(16));
    assert_eq!(settings.max_in_snapshot_log_to_keep, Some(2));
    assert_eq!(
        settings.timing,
        Some(RaftTiming {
            election_timeout_min_ms: 300,
            election_timeout_max_ms: 600,
            heartbeat_interval_ms: 50,
        })
    );
    let defaults = base().engine_settings().ok().unwrap();
    assert_eq!(defaults.snapshot_log_interval, 256);
    assert_eq!(defaults.replication_lag_threshold, Some(5_000));
    assert_eq!(defaults.max_in_snapshot_log_to_keep, Some(1_000));
}

#[test]
fn raft_timing_leaves_room_for_heartbeats() {
    let timed = |min: u64, max: u64, heartbeat: u64| {
        base().with_raft_timing(
            TimeSpan::from_millis(min),
            TimeSpan::from_millis(max),
            TimeSpan::from_millis(heartbeat),
        )
    };
    assert!(timed(300, 600, 50).is_ok());
    assert!(timed(600, 600, 50).is_err());
    assert!(timed(300, 600, 300).is_err());
    assert!(timed(300, 600, 0).is_err());
}

#[test]
fn cluster_members_are_three_known_nodes_and_this_one() {
    let mut two = nodes();
    two.remove(&3);
    assert!(cluster(two).is_err());
    let mut others = nodes();
    others.remove(&1);
    others.insert(4, advertised(18_004));
    assert!(cluster(others).is_err());
    let mut zero = nodes();
    zero.remove(&3);
    zero.insert(0, advertised(18_003));
    assert!(cluster(zero).is_err());
    let config = base();
    assert_eq!(config.node_id(), 1);
    assert_eq!(config.state_path(), "unused-snapshot-policy-validation.redb");
    assert!(config.bootstrap());
    assert_eq!(config.nodes().len(), 3);
    assert_eq!(config.identified_write_timeout(), TimeSpan::from_secs(2));
    assert_eq!(config.rpc_connect_timeout(), TimeSpan::from_secs(1));
    assert!(base().with_identified_write_timeout(TimeSpan::from_secs(60)).is_ok());
    assert!(base().with_identified_write_timeout(TimeSpan::from_secs(61)).is_err());
    assert!(base().with_snapshot_log_interval(0).is_err());
}

#[test]
fn a_one_node_group_runs_on_the_engine_defaults() {
    let config = OneNodeRaftConfig::new("one.redb").with_snapshot_log_interval(32).ok().unwrap();
    let settings = config.engine_settings().ok().unwrap();
    assert_eq!(settings.cluster_name, "agent-broker-one-node");
    assert_eq!(settings.snapshot_log_interval, 32);
    assert_eq!(settings.timing, None);
    assert!(OneNodeRaftConfig::new("one.redb").with_snapshot_log_interval(0).is_err());
}

#[test]
fn tls_handshake_timeout_is_explicitly_bounded() {
    let config = ClusterRaftTlsConfig::new("unused-tls").unwrap();
    assert!(config.clone().with_handshake_timeout(TimeSpan::from_millis(0)).is_err());
    assert!(config.with_handshake_timeout(TimeSpan::from_secs(31)).is_err());
}

/// The PEM files of a cluster of three nodes, and the certificate of each node.
struct Fixture {
    ca: Vec<u8>,
    pems: Vec<Vec<u8>>,
    keys: Vec<Vec<u8>>,
    certificates: Vec<Vec<u8>>,
}

fn fixture() -> Fixture {
    let mut ca_params = CertificateParams::default();
    ca_params.is_ca = IsCa::Ca(BasicConstraints::Unconstrained);
    ca_params.key_usages = vec![
        KeyUsagePurpose::DigitalSignature,
        KeyUsagePurpose::KeyCertSign,
        KeyUsagePurpose::CrlSign,
    ];
    let ca_key = KeyPair::generate().unwrap();
    let ca = ca_params.self_signed(&ca_key).unwrap().pem().into_bytes();
    let issuer = Issuer::new(ca_params, ca_key);
    let mut made = Fixture { ca, pems: Vec::new(), keys: Vec::new(), certificates: Vec::new() };
    for node_id in [1_u64, 2, 3] {
        let name = format!("node-{node_id}.agent-broker.internal");
        let mut params = CertificateParams::new(vec![name.clone()]).unwrap();
        params.distinguished_name.push(DnType::CommonName, name);
        params.key_usages = vec![KeyUsagePurpose::DigitalSignature];
        params.extended_key_usages =
            vec![ExtendedKeyUsagePurpose::ServerAuth, ExtendedKeyUsagePurpose::ClientAuth];
        let key = KeyPair::generate().unwrap();
        let certificate = params.signed_by(&key, &issuer).unwrap();
        made.pems.push(certificate.pem().into_bytes());
        made.keys.push(key.serialize_pem().into_bytes());
        made.certificates.push(certificate.der().to_vec());
    }
    made
}

fn files(fixture: &Fixture) -> TlsFiles {
    TlsFiles {
        ca: Some(fixture.ca.clone()),
        certificates: Some(fixture.pems[0].clone()),
        key: Some(fixture.keys[0].clone()),
        peers: [1, 2, 3]
            .iter()
            .map(|node_id| PeerFile {
                node_id: *node_id,
                certificates: Some(fixture.pems[(*node_id - 1) as usize].clone()),
            })
            .collect(),
    }
}

fn load(files: &TlsFiles) -> Result<LoadedClusterRaftTls, BrokerError> {
    ClusterRaftTlsConfig::new("cluster-tls").unwrap().load(1, files)
}

#[test]
fn peer_certificate_pin_is_bound_to_exact_node_id() {
    let fixture = fixture();
    let loaded = load(&files(&fixture)).ok().unwrap();
    let node_two = &fixture.certificates[1];

    assert!(loaded.matches_pinned_peer_certificate(2, node_two));
    assert!(!loaded.matches_pinned_peer_certificate(3, node_two));
    assert!(!loaded.matches_pinned_peer_certificate(99, node_two));
}

#[test]
fn each_way_a_peer_is_refused_has_its_own_name() {
    let fixture = fixture();
    let loaded = load(&files(&fixture)).ok().unwrap();
    let two = fixture.certificates[1].as_slice();
    assert_eq!(loaded.local_node_id(), 1);
    assert_eq!(loaded.handshake_timeout(), TimeSpan::from_secs(2));
    assert_eq!(loaded.pinned_peer_certificate(3), Some(&fixture.certificates[2]));
    assert_eq!(loaded.verify_pinned_peer_certificate(2, Some(two)), Ok(()));
    assert_eq!(
        loaded.verify_pinned_peer_certificate(3, Some(two)),
        Err(PeerRefusal::WrongCertificate)
    );
    assert_eq!(
        loaded.verify_pinned_peer_certificate(2, None),
        Err(PeerRefusal::MissingCertificate)
    );
    assert_eq!(
        loaded.verify_pinned_peer_certificate(9, Some(two)),
        Err(PeerRefusal::UnknownIdentity)
    );
    for refusal in
        [PeerRefusal::WrongCertificate, PeerRefusal::MissingCertificate, PeerRefusal::UnknownIdentity]
    {
        assert!(!refusal.message().is_empty());
    }
}

#[test]
fn incomplete_key_material_is_refused() {
    let fixture = fixture();
    let refused = |change: &dyn Fn(&mut TlsFiles)| {
        let mut changed = files(&fixture);
        change(&mut changed);
        load(&changed).err().unwrap().code()
    };
    assert_eq!(refused(&|files| files.ca = None), BrokerErrorCode::InvalidRequest);
    assert_eq!(refused(&|files| files.ca = Some(Vec::new())), BrokerErrorCode::InvalidRequest);
    assert_eq!(
        refused(&|files| files.certificates = Some(b"no certificate".to_vec())),
        BrokerErrorCode::InvalidRequest
    );
    assert_eq!(refused(&|files| files.key = None), BrokerErrorCode::InvalidRequest);
    assert_eq!(
        refused(&|files| files.key = Some(fixture.pems[0].clone())),
        BrokerErrorCode::InvalidRequest
    );
    assert_eq!(
        refused(&|files| files.key = Some(fixture.keys[1].clone())),
        BrokerErrorCode::InvalidRequest
    );
    assert_eq!(
        refused(&|files| files.peers[2].certificates = None),
        BrokerErrorCode::InvalidRequest
    );
    let garbage = b"-----BEGIN CERTIFICATE-----\nAAAA\n-----END CERTIFICATE-----\n".to_vec();
    assert_eq!(refused(&|files| files.ca = Some(garbage.clone())), BrokerErrorCode::InvalidRequest);
}

#[test]
fn tls_files_and_names_follow_the_node_id() {
    assert_eq!(ca_certificate_file(), "ca.pem");
    assert_eq!(node_certificate_file(2), "node-2.pem");
    assert_eq!(node_key_file(2), "node-2-key.pem");
    assert_eq!(peer_server_name(3).ok().unwrap(), "node-3.agent-broker.internal");
    assert!(ClusterRaftTlsConfig::new("").is_err());
    assert!(validation_tls().validate().is_ok());
    assert_eq!(validation_tls().directory(), "unused-cluster-tls");
}

#[test]
fn handshakes_end_at_their_deadline() {
    assert_eq!(decide_handshake(HandshakeIo::Progress, false, false), HandshakeStep::Established);
    assert_eq!(
        decide_handshake(HandshakeIo::WouldBlock, false, true),
        HandshakeStep::WaitAndContinue
    );
    assert_eq!(decide_handshake(HandshakeIo::WouldBlock, true, true), HandshakeStep::TimedOut);
    assert_eq!(decide_handshake(HandshakeIo::Failed, false, true), HandshakeStep::Failed);
}

#[test]
fn ordinary_raft_io_timeout_is_capped_by_openraft_hard_ttl() {
    assert_eq!(
        bounded_rpc_io_timeout(TimeSpan::from_millis(75)),
        TimeSpan::from_millis(75)
    );
    let cap = TimeSpan::from_secs(RPC_IO_TIMEOUT_SECONDS);
    assert_eq!(bounded_rpc_io_timeout(TimeSpan::from_secs(RPC_IO_TIMEOUT_SECONDS + 1)), cap);
    assert_eq!(bounded_rpc_io_timeout(TimeSpan::from_millis(0)), TimeSpan::from_millis(1));
    assert_eq!(shorter(TimeSpan::from_secs(1), TimeSpan::from_millis(10)), TimeSpan::from_millis(10));
}

#[test]
fn raft_frames_carry_their_length_in_front() {
    assert_eq!(write_frame(b"abc"), Ok(vec![0, 0, 0, 3, b'a', b'b', b'c']));
    assert_eq!(read_frame_length(&[0, 0, 1, 2]), Ok(258));
    assert_eq!(read_frame_length(&[16, 0, 0, 0]), Ok(268_435_456));
    assert_eq!(read_frame_length(&[16, 0, 0, 1]), Err(RaftFrameRefusal::FrameTooLarge));
    assert_eq!(announce_snapshot(5), Ok(5));
    assert_eq!(announce_snapshot(268_435_457), Err(RaftFrameRefusal::SnapshotTooLarge));
    assert_eq!(accept_snapshot(268_435_456), Ok(268_435_456));
    assert!(accept_snapshot(u64::MAX).is_err());
    assert_eq!(next_chunk(100_000, 0), 65_536);
    assert_eq!(next_chunk(100_000, 65_536), 34_464);
    assert_eq!(next_chunk(100_000, 100_000), 0);
    for refusal in [
        RaftFrameRefusal::FrameTooLarge,
        RaftFrameRefusal::SnapshotTooLarge,
        RaftFrameRefusal::SnapshotLengthUnrepresentable,
    ] {
        assert!(!refusal.message().is_empty());
    }
}

#[test]
fn the_outcomes_of_both_tls_setups_settle_the_load() {
    let loaded = load(&files(&fixture())).ok().unwrap();
    let client = || Ok(loaded.client_config().clone());
    let server = || Ok(loaded.server_config().clone());
    let settle = |client, server| {
        settle_tls(
            1,
            TimeSpan::from_secs(3),
            BTreeMap::from([(1, vec![7_u8]), (2, vec![8_u8])]),
            client,
            server,
        )
    };
    let settled = settle(client(), server()).ok().unwrap();
    assert_eq!(settled.local_node_id(), 1);
    assert_eq!(settled.handshake_timeout(), TimeSpan::from_secs(3));
    assert!(settled.matches_pinned_peer_certificate(2, &[8]));
    assert!(!settled.matches_pinned_peer_certificate(3, &[8]));

    let refusals = [
        (
            settle(Err(TlsSetupFailure::Protocol), server()),
            "cluster Raft TLS client protocol configuration failed",
        ),
        (
            settle(Err(TlsSetupFailure::Identity), Err(TlsSetupFailure::Verifier)),
            "cluster Raft TLS client identity is invalid",
        ),
        (
            settle(client(), Err(TlsSetupFailure::Verifier)),
            "cluster Raft TLS client verifier configuration failed",
        ),
        (
            settle(client(), Err(TlsSetupFailure::Protocol)),
            "cluster Raft TLS server protocol configuration failed",
        ),
        (
            settle(client(), Err(TlsSetupFailure::Identity)),
            "cluster Raft TLS server identity is invalid",
        ),
    ];
    for (refusal, message) in refusals {
        let error = refusal.err().unwrap();
        assert_eq!(error.code(), BrokerErrorCode::InvalidRequest);
        assert_eq!(error.message(), message);
    }
}

/// Read one frame from a stream, as many bytes at a time as the frame wants.
fn read_frame(stream: &[u8]) -> Result<Option<(Vec<u8>, usize)>, RaftFrameRefusal> {
    let mut frame = FrameAssembly::new();
    let mut taken = 0;
    loop {
        let wanted = frame.wanted()?;
        if wanted == 0 {
            return Ok(Some((frame.into_payload(), taken)));
        }
        if taken + wanted > stream.len() {
            return Ok(None);
        }
        frame.push(&stream[taken..taken + wanted]);
        taken += wanted;
    }
}

#[test]
fn frames_are_read_back_from_the_head_of_a_stream() {
    let mut stream = write_frame(b"payload").ok().unwrap();
    stream.extend_from_slice(b"rest");
    assert_eq!(read_frame(&stream), Ok(Some((b"payload".to_vec(), 11))));
    assert_eq!(read_frame(&stream[..10]), Ok(None));
    assert_eq!(read_frame(&stream[..3]), Ok(None));
    assert_eq!(read_frame(&[0, 0, 0, 0, 9]), Ok(Some((Vec::new(), 4))));
    assert_eq!(read_frame(&[16, 0, 0, 1, 0]), Err(RaftFrameRefusal::FrameTooLarge));
}

#[test]
fn configurations_can_be_cloned() {
    let config = base();
    assert_eq!(config.clone(), config);
}
