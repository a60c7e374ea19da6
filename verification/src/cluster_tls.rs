//! Mandatory mutual TLS of the cluster: file names, loading rules and certificate pins.
use crate::error::{ambiguous_error, BrokerError, BrokerErrorCode, BrokerErrorView};
use crate::text::{decimal, push_decimal};
use crate::time_span::{TimeSpan, NANOS_PER_SECOND};
use crate::tls_crypto::{
    accepts_server_name, add_root, byte_lists, client_config, client_setup, empty_roots,
    is_refused_identity, is_server_name, mutual_tls_13, pem_certificate_list, pem_certificates,
    pem_private_key, pem_private_key_of, root_anchors, server_config, server_setup, trust_anchor,
    PrivateKey, PrivateKeyView, TlsSetupFailure, TlsSetupView, TrustAnchorView,
};
use std::collections::BTreeMap;
use vstd::prelude::*;

verus! {

pub const DEFAULT_TLS_HANDSHAKE_SECONDS: u64 = 2;

pub const MAX_TLS_HANDSHAKE_SECONDS: u64 = 30;

/// The refusal of a TLS configuration.
pub open spec fn tls_refusal(message: Seq<char>) -> BrokerErrorView {
    ambiguous_error(BrokerErrorCode::InvalidRequest, message)
}

fn invalid_tls_configuration(message: &str) -> (r: BrokerError)
    ensures
        r@ == tls_refusal(message@),
{
    BrokerError::new(BrokerErrorCode::InvalidRequest, message)
}

/// Where the certificates and the key of a node lie, and how long a handshake may take.
#[derive(Debug, PartialEq, Eq)]
pub struct ClusterRaftTlsConfig {
    directory: String,
    handshake_timeout: TimeSpan,
}

/// The plain values of a TLS configuration.
pub struct TlsConfigView {
    pub directory: Seq<char>,
    pub handshake_timeout: nat,
}

impl View for ClusterRaftTlsConfig {
    type V = TlsConfigView;

    closed spec fn view(&self) -> TlsConfigView {
        TlsConfigView {
            directory: self.directory@,
            handshake_timeout: self.handshake_timeout@,
        }
    }
}

/// Why a TLS configuration is refused, or `None` if it is valid.
pub open spec fn tls_config_flaw(config: TlsConfigView) -> Option<Seq<char>> {
    if config.directory.len() == 0 {
        Some("cluster Raft TLS directory must not be empty"@)
    } else if config.handshake_timeout == 0 || config.handshake_timeout > MAX_TLS_HANDSHAKE_SECONDS
        * NANOS_PER_SECOND {
        Some("cluster Raft TLS handshake timeout must be between 1ns and 30s"@)
    } else {
        None
    }
}

impl Clone for ClusterRaftTlsConfig {
    fn clone(&self) -> (r: Self)
        ensures
            r@ == self@,
    {
        ClusterRaftTlsConfig {
            directory: self.directory.clone(),
            handshake_timeout: self.handshake_timeout,
        }
    }
}

impl ClusterRaftTlsConfig {
    /// Use the certificates in `directory`, with the default handshake deadline.
    pub fn new(directory: &str) -> (r: Result<Self, BrokerError>)
        ensures
            match r {
                Ok(config) => tls_config_flaw(config@) is None && config@ == (TlsConfigView {
                    directory: directory@,
                    handshake_timeout: (DEFAULT_TLS_HANDSHAKE_SECONDS * NANOS_PER_SECOND) as nat,
                }),
                Err(error) => directory@.len() == 0 && error@ == tls_refusal(
                    "cluster Raft TLS directory must not be empty"@,
                ),
            },
    {
        let config = ClusterRaftTlsConfig {
            directory: directory.to_owned(),
            handshake_timeout: TimeSpan::from_secs(DEFAULT_TLS_HANDSHAKE_SECONDS),
        };
        match config.validate() {
            Ok(_) => Ok(config),
            Err(error) => Err(error),
        }
    }

    /// Use another handshake deadline.
    pub fn with_handshake_timeout(self, timeout: TimeSpan) -> (r: Result<Self, BrokerError>)
        ensures
            ({
                let next = TlsConfigView { handshake_timeout: timeout@, ..self@ };
                match (tls_config_flaw(next), r) {
                    (None, Ok(config)) => config@ == next,
                    (Some(message), Err(error)) => error@ == tls_refusal(message),
                    _ => false,
                }
            }),
    {
        let config = ClusterRaftTlsConfig {
            directory: self.directory,
            handshake_timeout: timeout,
        };
        match config.validate() {
            Ok(_) => Ok(config),
            Err(error) => Err(error),
        }
    }

    pub fn directory(&self) -> (r: &str)
        ensures
            r@ == self@.directory,
    {
        self.directory.as_str()
    }

    pub fn handshake_timeout(&self) -> (r: TimeSpan)
        ensures
            r@ == self@.handshake_timeout,
    {
        self.handshake_timeout
    }

    /// Check that there is a directory and that the handshake deadline is in range.
    pub fn validate(&self) -> (r: Result<(), BrokerError>)
        ensures
            match r {
                Ok(_) => tls_config_flaw(self@) is None,
                Err(error) => tls_config_flaw(self@) matches Some(message) && error@
                    == tls_refusal(message),
            },
    {
        if self.directory.as_str().unicode_len() == 0 {
            return Err(invalid_tls_configuration("cluster Raft TLS directory must not be empty"));
        }
        let limit: u128 = MAX_TLS_HANDSHAKE_SECONDS as u128 * NANOS_PER_SECOND;
        if self.handshake_timeout.is_zero() || self.handshake_timeout.as_nanos() > limit {
            return Err(
                invalid_tls_configuration(
                    "cluster Raft TLS handshake timeout must be between 1ns and 30s",
                ),
            );
        }
        Ok(())
    }
}

/// The name of the certificate file of a node.
pub open spec fn certificate_file_text(node_id: u64) -> Seq<char> {
    "node-"@ + decimal(node_id as nat) + ".pem"@
}

/// The name of the key file of a node.
pub open spec fn key_file_text(node_id: u64) -> Seq<char> {
    "node-"@ + decimal(node_id as nat) + "-key.pem"@
}

/// The name of the file with the certificates of the authority.
pub fn ca_certificate_file() -> (r: &'static str)
    ensures
        r@ == "ca.pem"@,
{
    "ca.pem"
}

pub fn node_certificate_file(node_id: u64) -> (r: String)
    ensures
        r@ == certificate_file_text(node_id),
{
    let mut name = "node-".to_owned();
    push_decimal(&mut name, node_id);
    name.append(".pem");
    name
}

pub fn node_key_file(node_id: u64) -> (r: String)
    ensures
        r@ == key_file_text(node_id),
{
    let mut name = "node-".to_owned();
    push_decimal(&mut name, node_id);
    name.append("-key.pem");
    name
}

/// The server name that a node shows.
pub open spec fn server_name_text(node_id: u64) -> Seq<char> {
    "node-"@ + decimal(node_id as nat) + ".agent-broker.internal"@
}

/// The server name that is expected of a node.
pub fn peer_server_name(node_id: u64) -> (r: Result<String, BrokerError>)
    ensures
        match r {
            Ok(name) => name@ == server_name_text(node_id) && is_server_name(name@),
            Err(error) => !is_server_name(server_name_text(node_id)) && error@ == tls_refusal(
                "cluster Raft TLS peer server name is invalid"@,
            ),
        },
{
    let mut name = "node-".to_owned();
    push_decimal(&mut name, node_id);
    name.append(".agent-broker.internal");
    if accepts_server_name(name.as_str()) {
        Ok(name)
    } else {
        Err(invalid_tls_configuration("cluster Raft TLS peer server name is invalid"))
    }
}

/// The contents of one node's certificate file, or `None` if the file cannot be read.
#[derive(PartialEq, Eq)]
pub struct PeerFile {
    pub node_id: u64,
    pub certificates: Option<Vec<u8>>,
}

/// The contents of the files that one node loads. A file that cannot be read is `None`.
#[derive(PartialEq, Eq)]
pub struct TlsFiles {
    pub ca: Option<Vec<u8>>,
    pub certificates: Option<Vec<u8>>,
    pub key: Option<Vec<u8>>,
    pub peers: Vec<PeerFile>,
}

/// The certificates in a file, or why they cannot be had.
pub open spec fn certificates_in(file: Option<Vec<u8>>) -> Result<Seq<Seq<u8>>, Seq<char>> {
    match file {
        None => Err("cluster Raft TLS certificate file is unavailable"@),
        Some(bytes) => match pem_certificate_list(bytes@) {
            None => Err("cluster Raft TLS certificate PEM is invalid"@),
            Some(certificates) => Ok(certificates),
        },
    }
}

/// The private key in a file, or why it cannot be had.
pub open spec fn key_in(file: Option<Vec<u8>>) -> Result<PrivateKeyView, Seq<char>> {
    match file {
        None => Err("cluster Raft TLS identity key file is unavailable"@),
        Some(bytes) => match pem_private_key_of(bytes@) {
            None => Err("cluster Raft TLS identity key PEM is invalid"@),
            Some(None) => Err("cluster Raft TLS identity key file contains no key"@),
            Some(Some(key)) => Ok(key),
        },
    }
}

/// The anchors of a list of certificates, or `None` if one of them is refused.
pub open spec fn anchors_of(certificates: Seq<Seq<u8>>) -> Option<Seq<TrustAnchorView>>
    decreases certificates.len(),
{
    if certificates.len() == 0 {
        Some(Seq::empty())
    } else {
        match (anchors_of(certificates.drop_last()), trust_anchor(certificates.last())) {
            (Some(anchors), Some(anchor)) => Some(anchors.push(anchor)),
            _ => None,
        }
    }
}

/// The pinned certificate of each node, or why the peers are refused. A pin is the first
/// certificate of a node's file.
pub open spec fn pins_of(peers: Seq<PeerFile>) -> Result<Map<u64, Seq<u8>>, Seq<char>>
    decreases peers.len(),
{
    if peers.len() == 0 {
        Ok(Map::empty())
    } else {
        match pins_of(peers.drop_last()) {
            Err(message) => Err(message),
            Ok(pins) => match certificates_in(peers.last().certificates) {
                Err(message) => Err(message),
                Ok(chain) => if chain.len() == 0 {
                    Err("cluster Raft TLS peer certificate chain is empty"@)
                } else if pins.contains_key(peers.last().node_id) {
                    Err("cluster Raft TLS peer certificate map contains a duplicate node id"@)
                } else {
                    Ok(pins.insert(peers.last().node_id, chain[0]))
                },
            },
        }
    }
}

/// Everything that was read from the files of a node.
pub struct TlsMaterialView {
    pub anchors: Seq<TrustAnchorView>,
    pub chain: Seq<Seq<u8>>,
    pub key: PrivateKeyView,
    pub pins: Map<u64, Seq<u8>>,
}

/// What the files of node `local_node_id` hold, or the first reason to refuse them.
pub open spec fn material_of(local_node_id: u64, files: TlsFiles) -> Result<
    TlsMaterialView,
    Seq<char>,
> {
    match certificates_in(files.ca) {
        Err(message) => Err(message),
        Ok(authorities) => if authorities.len() == 0 {
            Err("cluster Raft TLS CA bundle must contain at least one certificate"@)
        } else {
            match anchors_of(authorities) {
                None => Err("cluster Raft TLS CA certificate is invalid"@),
                Some(anchors) => match certificates_in(files.certificates) {
                    Err(message) => Err(message),
                    Ok(chain) => if chain.len() == 0 {
                        Err("cluster Raft TLS local certificate chain is empty"@)
                    } else {
                        match key_in(files.key) {
                            Err(message) => Err(message),
                            Ok(key) => match pins_of(files.peers@) {
                                Err(message) => Err(message),
                                Ok(pins) => if !pins.contains_key(local_node_id) {
                                    Err(
                                        "cluster Raft TLS peer certificate map does not contain local node id"@,
                                    )
                                } else {
                                    Ok(TlsMaterialView { anchors, chain, key, pins })
                                },
                            },
                        }
                    },
                },
            }
        },
    }
}

/// What the connections of a node are set up with.
pub open spec fn setup_of(material: TlsMaterialView) -> TlsSetupView {
    mutual_tls_13(material.anchors, material.chain, material.key)
}

/// Why a client could not be set up.
pub open spec fn client_flaw(failure: TlsSetupFailure) -> Seq<char> {
    match failure {
        TlsSetupFailure::Protocol => "cluster Raft TLS client protocol configuration failed"@,
        _ => "cluster Raft TLS client identity is invalid"@,
    }
}

/// Why a server could not be set up.
pub open spec fn server_flaw(failure: TlsSetupFailure) -> Seq<char> {
    match failure {
        TlsSetupFailure::Verifier => "cluster Raft TLS client verifier configuration failed"@,
        TlsSetupFailure::Protocol => "cluster Raft TLS server protocol configuration failed"@,
        TlsSetupFailure::Identity => "cluster Raft TLS server identity is invalid"@,
    }
}

/// TLS set-up of one running node.
pub struct LoadedClusterRaftTls {
    local_node_id: u64,
    client_config: rustls::ClientConfig,
    server_config: rustls::ServerConfig,
    pinned_peer_certificates: BTreeMap<u64, Vec<u8>>,
    handshake_timeout: TimeSpan,
}

/// The contents of a map of byte strings.
pub open spec fn byte_map(map: Map<u64, Vec<u8>>) -> Map<u64, Seq<u8>> {
    map.map_values(|bytes: Vec<u8>| bytes@)
}

impl LoadedClusterRaftTls {
    pub closed spec fn spec_local_node_id(&self) -> u64 {
        self.local_node_id
    }

    /// The pinned certificate of each node.
    pub closed spec fn spec_pins(&self) -> Map<u64, Seq<u8>> {
        byte_map(self.pinned_peer_certificates@)
    }

    pub closed spec fn spec_client_config(&self) -> rustls::ClientConfig {
        self.client_config
    }

    pub closed spec fn spec_server_config(&self) -> rustls::ServerConfig {
        self.server_config
    }

    pub closed spec fn spec_handshake_timeout(&self) -> nat {
        self.handshake_timeout@
    }
}

fn read_certificates(file: &Option<Vec<u8>>) -> (r: Result<Vec<Vec<u8>>, BrokerError>)
    ensures
        match (r, certificates_in(*file)) {
            (Ok(certificates), Ok(expected)) => byte_lists(certificates@) == expected,
            (Err(error), Err(message)) => error@ == tls_refusal(message),
            _ => false,
        },
{
    match file {
        None => Err(invalid_tls_configuration("cluster Raft TLS certificate file is unavailable")),
        Some(bytes) => match pem_certificates(bytes.as_slice()) {
            None => Err(invalid_tls_configuration("cluster Raft TLS certificate PEM is invalid")),
            Some(certificates) => Ok(certificates),
        },
    }
}

fn read_private_key(file: &Option<Vec<u8>>) -> (r: Result<PrivateKey, BrokerError>)
    ensures
        match (r, key_in(*file)) {
            (Ok(key), Ok(expected)) => key@ == expected,
            (Err(error), Err(message)) => error@ == tls_refusal(message),
            _ => false,
        },
{
    match file {
        None => Err(invalid_tls_configuration("cluster Raft TLS identity key file is unavailable")),
        Some(bytes) => match pem_private_key(bytes.as_slice()) {
            None => Err(invalid_tls_configuration("cluster Raft TLS identity key PEM is invalid")),
            Some(None) => Err(
                invalid_tls_configuration("cluster Raft TLS identity key file contains no key"),
            ),
            Some(Some(key)) => Ok(key),
        },
    }
}

/// A certificate that is refused makes the whole list refused.
proof fn lemma_refused_anchor(certificates: Seq<Seq<u8>>, index: int)
    requires
        0 <= index < certificates.len(),
        trust_anchor(certificates[index]) is None,
    ensures
        anchors_of(certificates) is None,
    decreases certificates.len(),
{
    if index < certificates.len() - 1 {
        assert(certificates.drop_last()[index] == certificates[index]);
        lemma_refused_anchor(certificates.drop_last(), index);
    }
}

/// Each certificate of a list gives one anchor.
proof fn lemma_anchor_count(certificates: Seq<Seq<u8>>)
    ensures
        anchors_of(certificates) matches Some(anchors) ==> anchors.len() == certificates.len(),
    decreases certificates.len(),
{
    if certificates.len() > 0 {
        lemma_anchor_count(certificates.drop_last());
    }
}

fn read_roots(certificates: &Vec<Vec<u8>>) -> (r: Result<rustls::RootCertStore, BrokerError>)
    ensures
        match (r, anchors_of(byte_lists(certificates@))) {
            (Ok(roots), Some(anchors)) => root_anchors(roots) == anchors,
            (Err(error), None) => error@ == tls_refusal(
                "cluster Raft TLS CA certificate is invalid"@,
            ),
            _ => false,
        },
{
    let mut roots = empty_roots();
    let mut index: usize = 0;
    let ghost all = byte_lists(certificates@);
    assert(all.take(0) =~= Seq::<Seq<u8>>::empty());
    while index < certificates.len()
        invariant
            index <= certificates@.len(),
            all == byte_lists(certificates@),
            anchors_of(all.take(index as int)) == Some(root_anchors(roots)),
        decreases certificates.len() - index,
    {
        assert(all.take(index + 1).drop_last() =~= all.take(index as int));
        assert(all.take(index + 1).last() == certificates@[index as int]@);
        if !add_root(&mut roots, &certificates[index]) {
            proof {
                lemma_refused_anchor(all, index as int);
            }
            return Err(invalid_tls_configuration("cluster Raft TLS CA certificate is invalid"));
        }
        index = index + 1;
    }
    assert(all.take(index as int) =~= all);
    Ok(roots)
}

/// A reason to refuse the first peers is the reason to refuse all of them.
proof fn lemma_refused_peers(peers: Seq<PeerFile>, count: int)
    requires
        0 <= count <= peers.len(),
        pins_of(peers.take(count)) is Err,
    ensures
        pins_of(peers) == pins_of(peers.take(count)),
    decreases peers.len() - count,
{
    if count < peers.len() {
        assert(peers.take(count + 1).drop_last() =~= peers.take(count));
        lemma_refused_peers(peers, count + 1);
    } else {
        assert(peers.take(count) =~= peers);
    }
}

fn read_pins(peers: &Vec<PeerFile>) -> (r: Result<BTreeMap<u64, Vec<u8>>, BrokerError>)
    ensures
        match (r, pins_of(peers@)) {
            (Ok(pins), Ok(expected)) => byte_map(pins@) == expected,
            (Err(error), Err(message)) => error@ == tls_refusal(message),
            _ => false,
        },
{
    broadcast use vstd::std_specs::btree::group_btree_axioms;

    let mut pins: BTreeMap<u64, Vec<u8>> = BTreeMap::new();
    let mut index: usize = 0;
    assert(peers@.take(0) =~= Seq::<PeerFile>::empty());
    assert(byte_map(pins@) =~= Map::<u64, Seq<u8>>::empty());
    while index < peers.len()
        invariant
            index <= peers@.len(),
            pins_of(peers@.take(index as int)) == Ok::<_, Seq<char>>(byte_map(pins@)),
        decreases peers.len() - index,
    {
        let ghost taken = peers@.take(index + 1);
        let ghost before = pins@;
        let peer = &peers[index];
        proof {
            assert(taken.drop_last() =~= peers@.take(index as int));
            assert(taken.last() == *peer);
            if pins_of(taken) is Err {
                lemma_refused_peers(peers@, index + 1);
            }
        }
        let mut chain = read_certificates(&peer.certificates)?;
        if chain.len() == 0 {
            return Err(
                invalid_tls_configuration("cluster Raft TLS peer certificate chain is empty"),
            );
        }
        let leaf = chain.swap_remove(0);
        if pins.contains_key(&peer.node_id) {
            return Err(
                invalid_tls_configuration(
                    "cluster Raft TLS peer certificate map contains a duplicate node id",
                ),
            );
        }
        let ghost pinned = leaf@;
        pins.insert(peer.node_id, leaf);
        assert(byte_map(pins@) =~= byte_map(before).insert(peer.node_id, pinned));
        index = index + 1;
    }
    assert(peers@.take(index as int) =~= peers@);
    Ok(pins)
}

impl ClusterRaftTlsConfig {
    /// Set up TLS for node `local_node_id` from the contents of its files.
    pub fn load(&self, local_node_id: u64, files: &TlsFiles) -> (r: Result<
        LoadedClusterRaftTls,
        BrokerError,
    >)
        ensures
            match tls_config_flaw(self@) {
                Some(message) => r matches Err(error) && error@ == tls_refusal(message),
                None => match material_of(local_node_id, *files) {
                    Err(message) => r matches Err(error) && error@ == tls_refusal(message),
                    Ok(material) => match r {
                        Ok(loaded) => {
                            &&& !is_refused_identity(material.chain, material.key)
                            &&& loaded.spec_local_node_id() == local_node_id
                            &&& loaded.spec_pins() == material.pins
                            &&& loaded.spec_handshake_timeout() == self@.handshake_timeout
                            &&& client_setup(loaded.spec_client_config()) == setup_of(material)
                            &&& server_setup(loaded.spec_server_config()) == setup_of(material)
                        },
                        Err(error) => {
                            ||| error@ == tls_refusal(client_flaw(TlsSetupFailure::Identity))
                            ||| !is_refused_identity(material.chain, material.key) && error@
                                == tls_refusal(server_flaw(TlsSetupFailure::Identity))
                        },
                    },
                },
            },
    {
        broadcast use vstd::std_specs::btree::group_btree_axioms;

        match self.validate() {
            Ok(_) => {},
            Err(error) => return Err(error),
        }
        let authorities = read_certificates(&files.ca)?;
        if authorities.len() == 0 {
            return Err(
                invalid_tls_configuration(
                    "cluster Raft TLS CA bundle must contain at least one certificate",
                ),
            );
        }
        let roots = read_roots(&authorities)?;
        let chain = read_certificates(&files.certificates)?;
        if chain.len() == 0 {
            return Err(
                invalid_tls_configuration("cluster Raft TLS local certificate chain is empty"),
            );
        }
        let key = read_private_key(&files.key)?;
        let pins = read_pins(&files.peers)?;
        if !pins.contains_key(&local_node_id) {
            return Err(
                invalid_tls_configuration(
                    "cluster Raft TLS peer certificate map does not contain local node id",
                ),
            );
        }
        let client = client_config(&roots, &chain, &key);
        let server = server_config(&roots, &chain, key);
        proof {
            lemma_anchor_count(byte_lists(authorities@));
        }
        settle_tls(local_node_id, self.handshake_timeout, pins, client, server)
    }
}

/// Put together what the set-up of a client and of a server came to. A failure of the client counts
/// first.
pub fn settle_tls(
    local_node_id: u64,
    handshake_timeout: TimeSpan,
    pins: BTreeMap<u64, Vec<u8>>,
    client: Result<rustls::ClientConfig, TlsSetupFailure>,
    server: Result<rustls::ServerConfig, TlsSetupFailure>,
) -> (r: Result<LoadedClusterRaftTls, BrokerError>)
    ensures
        match (client, server) {
            (Err(failure), _) => r matches Err(error) && error@ == tls_refusal(
                client_flaw(failure),
            ),
            (Ok(_), Err(failure)) => r matches Err(error) && error@ == tls_refusal(
                server_flaw(failure),
            ),
            (Ok(client_config), Ok(server_config)) => {
                &&& r matches Ok(loaded)
                &&& loaded.spec_local_node_id() == local_node_id
                &&& loaded.spec_pins() == byte_map(pins@)
                &&& loaded.spec_handshake_timeout() == handshake_timeout@
                &&& loaded.spec_client_config() == client_config
                &&& loaded.spec_server_config() == server_config
            },
        },
{
    let client_config = match client {
        Ok(client_config) => client_config,
        Err(failure) => {
            let message = match failure {
                TlsSetupFailure::Protocol => {
                    "cluster Raft TLS client protocol configuration failed"
                },
                _ => "cluster Raft TLS client identity is invalid",
            };
            return Err(invalid_tls_configuration(message));
        },
    };
    let server_config = match server {
        Ok(server_config) => server_config,
        Err(failure) => {
            let message = match failure {
                TlsSetupFailure::Verifier => {
                    "cluster Raft TLS client verifier configuration failed"
                },
                TlsSetupFailure::Protocol => {
                    "cluster Raft TLS server protocol configuration failed"
                },
                TlsSetupFailure::Identity => "cluster Raft TLS server identity is invalid",
            };
            return Err(invalid_tls_configuration(message));
        },
    };
    Ok(
        LoadedClusterRaftTls {
            local_node_id,
            client_config,
            server_config,
            pinned_peer_certificates: pins,
            handshake_timeout,
        },
    )
}

/// Why a peer is turned away.
#[derive(Debug, Clone, Copy, PartialEq, Eq, Structural)]
pub enum PeerRefusal {
    UnknownIdentity,
    MissingCertificate,
    WrongCertificate,
}

impl PeerRefusal {
    /// The text of a refusal.
    pub open spec fn text(self) -> Seq<char> {
        match self {
            PeerRefusal::UnknownIdentity => "Raft TLS peer identity is unknown"@,
            PeerRefusal::MissingCertificate => "Raft TLS peer certificate is missing"@,
            PeerRefusal::WrongCertificate => {
                "Raft TLS peer certificate does not match configured node identity"@
            },
        }
    }

    pub fn message(self) -> (r: &'static str)
        ensures
            r@ == self.text(),
    {
        match self {
            PeerRefusal::UnknownIdentity => "Raft TLS peer identity is unknown",
            PeerRefusal::MissingCertificate => "Raft TLS peer certificate is missing",
            PeerRefusal::WrongCertificate => {
                "Raft TLS peer certificate does not match configured node identity"
            },
        }
    }
}

/// Why a peer that shows `shown` is not accepted as node `node_id`, or `None` if it is.
pub open spec fn peer_refusal(
    pins: Map<u64, Seq<u8>>,
    node_id: u64,
    shown: Option<Seq<u8>>,
) -> Option<PeerRefusal> {
    if !pins.contains_key(node_id) {
        Some(PeerRefusal::UnknownIdentity)
    } else {
        match shown {
            None => Some(PeerRefusal::MissingCertificate),
            Some(certificate) => if certificate != pins[node_id] {
                Some(PeerRefusal::WrongCertificate)
            } else {
                None
            },
        }
    }
}

fn same_bytes(left: &Vec<u8>, right: &[u8]) -> (r: bool)
    ensures
        r == (left@ == right@),
{
    let length: usize = left.len();
    if length != right.len() {
        return false;
    }
    let mut index: usize = 0;
    while index < length
        invariant
            length == left@.len(),
            length == right@.len(),
            index <= length,
            forall|i: int| 0 <= i < index ==> left@[i] == right@[i],
        decreases length - index,
    {
        if left[index] != right[index] {
            return false;
        }
        index = index + 1;
    }
    assert(left@ =~= right@);
    true
}

impl LoadedClusterRaftTls {
    pub fn local_node_id(&self) -> (r: u64)
        ensures
            r == self.spec_local_node_id(),
    {
        self.local_node_id
    }

    /// What connections to other nodes are set up with.
    pub fn client_config(&self) -> (r: &rustls::ClientConfig)
        ensures
            *r == self.spec_client_config(),
    {
        &self.client_config
    }

    /// What connections from other nodes are set up with.
    pub fn server_config(&self) -> (r: &rustls::ServerConfig)
        ensures
            *r == self.spec_server_config(),
    {
        &self.server_config
    }

    pub fn handshake_timeout(&self) -> (r: TimeSpan)
        ensures
            r@ == self.spec_handshake_timeout(),
    {
        self.handshake_timeout
    }

    /// The pinned certificate of a node.
    pub fn pinned_peer_certificate(&self, node_id: u64) -> (r: Option<&Vec<u8>>)
        ensures
            match r {
                Some(certificate) => self.spec_pins().contains_key(node_id) && certificate@
                    == self.spec_pins()[node_id],
                None => !self.spec_pins().contains_key(node_id),
            },
    {
        broadcast use vstd::std_specs::btree::group_btree_axioms;

        self.pinned_peer_certificates.get(&node_id)
    }

    /// Whether a certificate is exactly the pinned certificate of a node.
    pub fn matches_pinned_peer_certificate(&self, node_id: u64, certificate: &[u8]) -> (r: bool)
        ensures
            r == (self.spec_pins().contains_key(node_id) && self.spec_pins()[node_id]
                == certificate@),
    {
        match self.pinned_peer_certificate(node_id) {
            Some(expected) => same_bytes(expected, certificate),
            None => false,
        }
    }

    /// Check that the first certificate that a peer shows is the pinned one of node `node_id`.
    pub fn verify_pinned_peer_certificate(&self, node_id: u64, shown: Option<&[u8]>) -> (r: Result<
        (),
        PeerRefusal,
    >)
        ensures
            match r {
                Ok(_) => peer_refusal(
                    self.spec_pins(),
                    node_id,
                    match shown {
                        Some(certificate) => Some(certificate@),
                        None => None,
                    },
                ) is None,
                Err(refusal) => peer_refusal(
                    self.spec_pins(),
                    node_id,
                    match shown {
                        Some(certificate) => Some(certificate@),
                        None => None,
                    },
                ) == Some(refusal),
            },
    {
        if self.pinned_peer_certificate(node_id).is_none() {
            return Err(PeerRefusal::UnknownIdentity);
        }
        match shown {
            None => Err(PeerRefusal::MissingCertificate),
            Some(certificate) => if self.matches_pinned_peer_certificate(node_id, certificate) {
                Ok(())
            } else {
                Err(PeerRefusal::WrongCertificate)
            },
        }
    }
}

/// A certificate that is accepted for two nodes is the pin of both: distinct pins keep nodes apart.
pub proof fn law_pins_tell_nodes_apart(
    pins: Map<u64, Seq<u8>>,
    first: u64,
    second: u64,
    shown: Seq<u8>,
)
    requires
        pins.contains_key(first),
        pins.contains_key(second),
        pins[first] != pins[second],
        peer_refusal(pins, first, Some(shown)) is None,
    ensures
        peer_refusal(pins, second, Some(shown)) == Some(PeerRefusal::WrongCertificate),
{
}

/// What one step of a handshake came to.
#[derive(Debug, Clone, Copy, PartialEq, Eq, Structural)]
pub enum HandshakeIo {
    Progress,
    WouldBlock,
    Failed,
}

/// What follows one step of a handshake.
#[derive(Debug, Clone, Copy, PartialEq, Eq, Structural)]
pub enum HandshakeStep {
    Established,
    WaitAndContinue,
    Failed,
    TimedOut,
}

/// What follows one step of a handshake. A failure counts before the deadline, and the deadline
/// before success.
pub open spec fn handshake_step(
    io: HandshakeIo,
    deadline_passed: bool,
    handshaking: bool,
) -> HandshakeStep {
    if io == HandshakeIo::Failed {
        HandshakeStep::Failed
    } else if deadline_passed {
        HandshakeStep::TimedOut
    } else if handshaking {
        HandshakeStep::WaitAndContinue
    } else {
        HandshakeStep::Established
    }
}

/// Decide what follows one step of a handshake.
pub fn decide_handshake(io: HandshakeIo, deadline_passed: bool, handshaking: bool) -> (r:
    HandshakeStep)
    ensures
        r == handshake_step(io, deadline_passed, handshaking),
{
    if io == HandshakeIo::Failed {
        HandshakeStep::Failed
    } else if deadline_passed {
        HandshakeStep::TimedOut
    } else if handshaking {
        HandshakeStep::WaitAndContinue
    } else {
        HandshakeStep::Established
    }
}

} // verus!
