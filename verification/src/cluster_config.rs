//! Configuration of one member of a three-node cluster.
use crate::address::SocketAddress;
use crate::cluster_tls::{tls_config_flaw, ClusterRaftTlsConfig, TlsConfigView};
use crate::error::{ambiguous_error, BrokerError, BrokerErrorCode, BrokerErrorView};
use crate::text::decimal;
use crate::time_span::{TimeSpan, NANOS_PER_MILLI, NANOS_PER_SECOND};
use std::collections::BTreeMap;
use vstd::prelude::*;
use vstd::std_specs::iter::IteratorSpec;

verus! {

pub const DEFAULT_SNAPSHOT_LOG_INTERVAL: u64 = 256;

pub const DEFAULT_REPLICATION_LAG_THRESHOLD: u64 = 5_000;

pub const DEFAULT_MAX_IN_SNAPSHOT_LOG_TO_KEEP: u64 = 1_000;

pub const DEFAULT_IDENTIFIED_WRITE_SECONDS: u64 = 2;

pub const MAX_IDENTIFIED_WRITE_SECONDS: u64 = 60;

pub const DEFAULT_RPC_CONNECT_SECONDS: u64 = 1;

pub const MAX_RPC_CONNECT_SECONDS: u64 = 30;

pub const DEFAULT_ELECTION_TIMEOUT_MIN_MS: u64 = 1_000;

pub const DEFAULT_ELECTION_TIMEOUT_MAX_MS: u64 = 2_000;

pub const DEFAULT_HEARTBEAT_INTERVAL_MS: u64 = 100;

pub const THREE_NODE_CLUSTER_SIZE: usize = 3;

/// Election and heartbeat times of the Raft engine, in milliseconds.
#[derive(Debug, Clone, Copy, PartialEq, Eq, Structural)]
pub struct RaftTiming {
    pub election_timeout_min_ms: u64,
    pub election_timeout_max_ms: u64,
    pub heartbeat_interval_ms: u64,
}

/// The text with which the Raft engine refuses its timing, or `None` if it accepts.
pub open spec fn engine_timing_error(timing: RaftTiming) -> Option<Seq<char>> {
    if timing.election_timeout_min_ms >= timing.election_timeout_max_ms {
        Some(
            "election timeout: min("@ + decimal(timing.election_timeout_min_ms as nat)
                + ") must be < max("@ + decimal(timing.election_timeout_max_ms as nat) + ")"@,
        )
    } else if timing.election_timeout_min_ms <= timing.heartbeat_interval_ms {
        Some(
            "election_timeout_min("@ + decimal(timing.election_timeout_min_ms as nat)
                + ") must be > heartbeat_interval("@ + decimal(timing.heartbeat_interval_ms as nat)
                + ")"@,
        )
    } else {
        None
    }
}

/// The timing of the Raft engine where nothing else is asked for.
pub open spec fn standard_engine_timing() -> RaftTiming {
    RaftTiming {
        election_timeout_min_ms: 150,
        election_timeout_max_ms: 300,
        heartbeat_interval_ms: 50,
    }
}

/// The times in `openraft::Config::default`: elections after 150 to 300 milliseconds, heartbeats
/// every 50.
#[verifier::external_body]
pub(crate) fn default_engine_timing() -> (r: RaftTiming)
    ensures
        r == standard_engine_timing(),
{
    let config = openraft::Config::default();
    RaftTiming {
        election_timeout_min_ms: config.election_timeout_min,
        election_timeout_max_ms: config.election_timeout_max,
        heartbeat_interval_ms: config.heartbeat_interval,
    }
}

/// `openraft::Config::validate` on the default configuration with `timing` in place of its times:
/// the text of the error, or `None` if the configuration is accepted.
#[verifier::external_body]
pub(crate) fn engine_config_error(timing: RaftTiming) -> (r: Option<String>)
    ensures
        match engine_timing_error(timing) {
            None => r is None,
            Some(text) => r matches Some(error) && error@ == text,
        },
{
    let config = openraft::Config {
        election_timeout_min: timing.election_timeout_min_ms,
        election_timeout_max: timing.election_timeout_max_ms,
        heartbeat_interval: timing.heartbeat_interval_ms,
        ..openraft::Config::default()
    };
    config.validate().err().map(|error| error.to_string())
}

/// Address under which a member is reached: its text, and the socket address that the text spells,
/// if it spells one.
#[derive(Debug, Clone, PartialEq, Eq)]
pub struct AdvertisedAddress {
    pub text: String,
    pub resolved: Option<SocketAddress>,
}

/// Durable configuration of one member.
#[derive(Debug, Clone, PartialEq, Eq)]
pub struct ClusterRaftConfig {
    node_id: u64,
    state_path: String,
    raft_bind_addr: SocketAddress,
    nodes: BTreeMap<u64, AdvertisedAddress>,
    tls: ClusterRaftTlsConfig,
    bootstrap: bool,
    snapshot_log_interval: u64,
    replication_lag_threshold: u64,
    max_in_snapshot_log_to_keep: u64,
    identified_write_timeout: TimeSpan,
    rpc_connect_timeout: TimeSpan,
    timing: RaftTiming,
}

/// The plain values of a cluster configuration.
pub struct ClusterConfigView {
    pub node_id: u64,
    pub state_path: Seq<char>,
    pub raft_bind_addr: SocketAddress,
    pub nodes: Map<u64, AdvertisedAddress>,
    pub tls: TlsConfigView,
    pub bootstrap: bool,
    pub snapshot_log_interval: u64,
    pub replication_lag_threshold: u64,
    pub max_in_snapshot_log_to_keep: u64,
    pub identified_write_timeout: nat,
    pub rpc_connect_timeout: nat,
    pub timing: RaftTiming,
}

impl View for ClusterRaftConfig {
    type V = ClusterConfigView;

    closed spec fn view(&self) -> ClusterConfigView {
        ClusterConfigView {
            node_id: self.node_id,
            state_path: self.state_path@,
            raft_bind_addr: self.raft_bind_addr,
            nodes: self.nodes@,
            tls: self.tls@,
            bootstrap: self.bootstrap,
            snapshot_log_interval: self.snapshot_log_interval,
            replication_lag_threshold: self.replication_lag_threshold,
            max_in_snapshot_log_to_keep: self.max_in_snapshot_log_to_keep,
            identified_write_timeout: self.identified_write_timeout@,
            rpc_connect_timeout: self.rpc_connect_timeout@,
            timing: self.timing,
        }
    }
}

/// The refusal of a request or a configuration.
pub open spec fn config_refusal(message: Seq<char>) -> BrokerErrorView {
    ambiguous_error(BrokerErrorCode::InvalidRequest, message)
}

/// The first of two flaws.
pub open spec fn first_flaw(
    first: Option<Seq<char>>,
    second: Option<Seq<char>>,
) -> Option<Seq<char>> {
    match first {
        Some(flaw) => Some(flaw),
        None => second,
    }
}

/// Why the nodes are no topology of node `node_id`, or `None` if they are one.
pub open spec fn topology_flaw(
    node_id: u64,
    nodes: Map<u64, AdvertisedAddress>,
) -> Option<Seq<char>> {
    if node_id == 0 {
        Some("cluster Raft node_id must be greater than zero"@)
    } else if nodes.len() != THREE_NODE_CLUSTER_SIZE {
        Some("initial Agent Broker cluster topology must contain exactly three nodes"@)
    } else if !nodes.contains_key(node_id) {
        Some("cluster Raft topology does not contain the local node_id"@)
    } else if exists|id: u64| #[trigger]
        nodes.contains_key(id) && (id == 0 || nodes[id].resolved is None) {
        Some(
            "cluster Raft node IDs must be positive and advertised addresses must be pre-resolved IP socket addresses"@,
        )
    } else {
        None
    }
}

/// Why the snapshot policy is refused, or `None` if it is valid.
pub open spec fn snapshot_policy_flaw(interval: u64, lag_threshold: u64) -> Option<Seq<char>> {
    if interval == 0 {
        Some("cluster Raft snapshot log interval must be greater than zero"@)
    } else if lag_threshold <= interval {
        Some("cluster Raft replication lag threshold must exceed the snapshot log interval"@)
    } else {
        None
    }
}

/// Why the deadline of identified writes is refused, or `None` if it is valid.
pub open spec fn identified_write_flaw(timeout: nat) -> Option<Seq<char>> {
    if timeout == 0 || timeout > MAX_IDENTIFIED_WRITE_SECONDS * NANOS_PER_SECOND {
        Some("cluster identified write timeout must be between 1ns and 60s"@)
    } else {
        None
    }
}

/// Why the deadline of connections is refused, or `None` if it is valid.
pub open spec fn rpc_connect_flaw(timeout: nat) -> Option<Seq<char>> {
    if timeout == 0 || timeout > MAX_RPC_CONNECT_SECONDS * NANOS_PER_SECOND {
        Some("cluster Raft RPC connect timeout must be between 1ns and 30s"@)
    } else {
        None
    }
}

/// Why the engine timing is refused, or `None` if it is valid.
pub open spec fn timing_flaw(timing: RaftTiming) -> Option<Seq<char>> {
    if timing.election_timeout_min_ms >= timing.election_timeout_max_ms {
        Some("cluster election_timeout_min must be below election_timeout_max"@)
    } else if timing.election_timeout_min_ms <= timing.heartbeat_interval_ms {
        Some("cluster election_timeout_min must be greater than heartbeat_interval"@)
    } else {
        None
    }
}

/// Why a configuration is refused, or `None` if it is valid.
pub open spec fn cluster_config_flaw(config: ClusterConfigView) -> Option<Seq<char>> {
    first_flaw(
        topology_flaw(config.node_id, config.nodes),
        first_flaw(
            snapshot_policy_flaw(config.snapshot_log_interval, config.replication_lag_threshold),
            first_flaw(
                identified_write_flaw(config.identified_write_timeout),
                first_flaw(
                    rpc_connect_flaw(config.rpc_connect_timeout),
                    first_flaw(tls_config_flaw(config.tls), timing_flaw(config.timing)),
                ),
            ),
        ),
    )
}

/// Whether `r` is the valid configuration `next`, or its refusal for `flaw`.
pub open spec fn is_configured(
    next: ClusterConfigView,
    flaw: Option<Seq<char>>,
    r: Result<ClusterRaftConfig, BrokerError>,
) -> bool {
    match flaw {
        None => r matches Ok(config) && config@ == next,
        Some(message) => r matches Err(error) && error@ == config_refusal(message),
    }
}

fn invalid_config(message: &str) -> (r: BrokerError)
    ensures
        r@ == config_refusal(message@),
{
    BrokerError::new(BrokerErrorCode::InvalidRequest, message)
}

/// The whole milliseconds of a time, or why they cannot be used.
pub open spec fn usable_millis(duration: nat, label: Seq<char>) -> Result<u64, Seq<char>> {
    let millis = duration / (NANOS_PER_MILLI as nat);
    if millis > u64::MAX {
        Err(label + " exceeds u64 milliseconds"@)
    } else if millis == 0 {
        Err(label + " must be at least one millisecond"@)
    } else {
        Ok(millis as u64)
    }
}

fn duration_millis_u64(duration: TimeSpan, label: &str) -> (r: Result<u64, BrokerError>)
    ensures
        match (r, usable_millis(duration@, label@)) {
            (Ok(millis), Ok(expected)) => millis == expected,
            (Err(error), Err(message)) => error@ == config_refusal(message),
            _ => false,
        },
{
    let millis: u128 = duration.as_millis();
    if millis > u64::MAX as u128 {
        let message = label.to_owned().concat(" exceeds u64 milliseconds");
        return Err(invalid_config(message.as_str()));
    }
    if millis == 0 {
        let message = label.to_owned().concat(" must be at least one millisecond");
        return Err(invalid_config(message.as_str()));
    }
    Ok(millis as u64)
}

fn has_unusable_node(nodes: &BTreeMap<u64, AdvertisedAddress>) -> (r: bool)
    ensures
        r == exists|id: u64| #[trigger]
            nodes@.contains_key(id) && (id == 0 || nodes@[id].resolved is None),
{
    broadcast use vstd::std_specs::btree::group_btree_axioms;

    let mut found: bool = false;
    let ghost all = vstd::std_specs::btree::spec_btree_map_iter(nodes).remaining();
    for entry in entries: nodes.iter()
        invariant
            entries.seq() == all,
            found == exists|i: int|
                0 <= i < entries.index() && (*(#[trigger] all[i]).0 == 0 || all[i].1.resolved
                    is None),
    {
        let (id, node) = entry;
        if *id == 0 || node.resolved.is_none() {
            found = true;
        }
    }
    proof {
        if found {
            let i = choose|i: int|
                0 <= i < all.len() && (*(#[trigger] all[i]).0 == 0 || all[i].1.resolved is None);
            assert(nodes@.contains_key(*all[i].0));
        }
        assert forall|id: u64| #[trigger]
            nodes@.contains_key(id) && (id == 0 || nodes@[id].resolved is None) implies found by {
            assert(all.contains((&id, &nodes@[id])));
        }
    }
    found
}

/// What the Raft engine of a member is started with.
#[derive(Debug, PartialEq, Eq)]
pub struct RaftEngineSettings {
    pub cluster_name: &'static str,
    pub timing: Option<RaftTiming>,
    pub snapshot_log_interval: u64,
    pub replication_lag_threshold: Option<u64>,
    pub max_in_snapshot_log_to_keep: Option<u64>,
}

/// The error for engine settings that the engine refuses with `error`.
pub open spec fn engine_refusal(error: Seq<char>) -> BrokerErrorView {
    ambiguous_error(
        BrokerErrorCode::InternalError,
        "invalid cluster Raft configuration: "@ + error,
    )
}

impl ClusterRaftConfig {
    /// The configuration of member `node_id` of the topology `nodes`, with default policies.
    pub fn new(
        node_id: u64,
        state_path: &str,
        raft_bind_addr: SocketAddress,
        nodes: BTreeMap<u64, AdvertisedAddress>,
        tls: ClusterRaftTlsConfig,
        bootstrap: bool,
    ) -> (r: Result<Self, BrokerError>)
        ensures
            ({
                let config = ClusterConfigView {
                    node_id,
                    state_path: state_path@,
                    raft_bind_addr,
                    nodes: nodes@,
                    tls: tls@,
                    bootstrap,
                    snapshot_log_interval: DEFAULT_SNAPSHOT_LOG_INTERVAL,
                    replication_lag_threshold: DEFAULT_REPLICATION_LAG_THRESHOLD,
                    max_in_snapshot_log_to_keep: DEFAULT_MAX_IN_SNAPSHOT_LOG_TO_KEEP,
                    identified_write_timeout: (DEFAULT_IDENTIFIED_WRITE_SECONDS
                        * NANOS_PER_SECOND) as nat,
                    rpc_connect_timeout: (DEFAULT_RPC_CONNECT_SECONDS * NANOS_PER_SECOND) as nat,
                    timing: RaftTiming {
                        election_timeout_min_ms: DEFAULT_ELECTION_TIMEOUT_MIN_MS,
                        election_timeout_max_ms: DEFAULT_ELECTION_TIMEOUT_MAX_MS,
                        heartbeat_interval_ms: DEFAULT_HEARTBEAT_INTERVAL_MS,
                    },
                };
                is_configured(config, cluster_config_flaw(config), r)
            }),
    {
        let config = ClusterRaftConfig {
            node_id,
            state_path: state_path.to_owned(),
            raft_bind_addr,
            nodes,
            tls,
            bootstrap,
            snapshot_log_interval: DEFAULT_SNAPSHOT_LOG_INTERVAL,
            replication_lag_threshold: DEFAULT_REPLICATION_LAG_THRESHOLD,
            max_in_snapshot_log_to_keep: DEFAULT_MAX_IN_SNAPSHOT_LOG_TO_KEEP,
            identified_write_timeout: TimeSpan::from_secs(DEFAULT_IDENTIFIED_WRITE_SECONDS),
            rpc_connect_timeout: TimeSpan::from_secs(DEFAULT_RPC_CONNECT_SECONDS),
            timing: RaftTiming {
                election_timeout_min_ms: DEFAULT_ELECTION_TIMEOUT_MIN_MS,
                election_timeout_max_ms: DEFAULT_ELECTION_TIMEOUT_MAX_MS,
                heartbeat_interval_ms: DEFAULT_HEARTBEAT_INTERVAL_MS,
            },
        };
        match config.validate() {
            Ok(_) => Ok(config),
            Err(error) => Err(error),
        }
    }

    /// Use another number of committed entries between snapshots.
    pub fn with_snapshot_log_interval(self, interval: u64) -> (r: Result<Self, BrokerError>)
        ensures
            is_configured(
                ClusterConfigView { snapshot_log_interval: interval, ..self@ },
                snapshot_policy_flaw(interval, self@.replication_lag_threshold),
                r,
            ),
    {
        let mut config = self;
        config.snapshot_log_interval = interval;
        match config.validate_snapshot_catch_up_policy() {
            Ok(_) => Ok(config),
            Err(error) => Err(error),
        }
    }

    /// Use another snapshot policy. A follower that lags by more than the threshold is brought up
    /// by a snapshot, so the threshold must exceed the interval.
    pub fn with_snapshot_catch_up_policy(
        self,
        snapshot_log_interval: u64,
        replication_lag_threshold: u64,
        max_in_snapshot_log_to_keep: u64,
    ) -> (r: Result<Self, BrokerError>)
        ensures
            is_configured(
                ClusterConfigView {
                    snapshot_log_interval,
                    replication_lag_threshold,
                    max_in_snapshot_log_to_keep,
                    ..self@
                },
                snapshot_policy_flaw(snapshot_log_interval, replication_lag_threshold),
                r,
            ),
    {
        let mut config = self;
        config.snapshot_log_interval = snapshot_log_interval;
        config.replication_lag_threshold = replication_lag_threshold;
        config.max_in_snapshot_log_to_keep = max_in_snapshot_log_to_keep;
        match config.validate_snapshot_catch_up_policy() {
            Ok(_) => Ok(config),
            Err(error) => Err(error),
        }
    }

    /// Use another deadline for the answer to an identified mutation that was submitted. When it
    /// passes the outcome is unknown.
    pub fn with_identified_write_timeout(self, timeout: TimeSpan) -> (r: Result<Self, BrokerError>)
        ensures
            is_configured(
                ClusterConfigView { identified_write_timeout: timeout@, ..self@ },
                identified_write_flaw(timeout@),
                r,
            ),
    {
        let mut config = self;
        config.identified_write_timeout = timeout;
        match config.validate_identified_write_timeout() {
            Ok(_) => Ok(config),
            Err(error) => Err(error),
        }
    }

    /// Use another deadline for connections to other members.
    pub fn with_rpc_connect_timeout(self, timeout: TimeSpan) -> (r: Result<Self, BrokerError>)
        ensures
            is_configured(
                ClusterConfigView { rpc_connect_timeout: timeout@, ..self@ },
                rpc_connect_flaw(timeout@),
                r,
            ),
    {
        let mut config = self;
        config.rpc_connect_timeout = timeout;
        match config.validate_rpc_connect_timeout() {
            Ok(_) => Ok(config),
            Err(error) => Err(error),
        }
    }

    /// Use another engine timing.
    pub fn with_raft_timing(
        self,
        election_timeout_min: TimeSpan,
        election_timeout_max: TimeSpan,
        heartbeat_interval: TimeSpan,
    ) -> (r: Result<Self, BrokerError>)
        ensures
            match usable_millis(election_timeout_min@, "cluster election_timeout_min"@) {
                Err(message) => r matches Err(error) && error@ == config_refusal(message),
                Ok(election_timeout_min_ms) => match usable_millis(
                    election_timeout_max@,
                    "cluster election_timeout_max"@,
                ) {
                    Err(message) => r matches Err(error) && error@ == config_refusal(message),
                    Ok(election_timeout_max_ms) => match usable_millis(
                        heartbeat_interval@,
                        "cluster heartbeat_interval"@,
                    ) {
                        Err(message) => r matches Err(error) && error@ == config_refusal(message),
                        Ok(heartbeat_interval_ms) => {
                            let timing = RaftTiming {
                                election_timeout_min_ms,
                                election_timeout_max_ms,
                                heartbeat_interval_ms,
                            };
                            is_configured(
                                ClusterConfigView { timing, ..self@ },
                                timing_flaw(timing),
                                r,
                            )
                        },
                    },
                },
            },
    {
        let election_timeout_min_ms = duration_millis_u64(
            election_timeout_min,
            "cluster election_timeout_min",
        )?;
        let election_timeout_max_ms = duration_millis_u64(
            election_timeout_max,
            "cluster election_timeout_max",
        )?;
        let heartbeat_interval_ms = duration_millis_u64(
            heartbeat_interval,
            "cluster heartbeat_interval",
        )?;
        let mut config = self;
        config.timing =
        RaftTiming { election_timeout_min_ms, election_timeout_max_ms, heartbeat_interval_ms };
        match config.validate_raft_timing() {
            Ok(_) => Ok(config),
            Err(error) => Err(error),
        }
    }

    pub fn node_id(&self) -> (r: u64)
        ensures
            r == self@.node_id,
    {
        self.node_id
    }

    pub fn state_path(&self) -> (r: &str)
        ensures
            r@ == self@.state_path,
    {
        self.state_path.as_str()
    }

    pub fn raft_bind_addr(&self) -> (r: SocketAddress)
        ensures
            r == self@.raft_bind_addr,
    {
        self.raft_bind_addr
    }

    pub fn bootstrap(&self) -> (r: bool)
        ensures
            r == self@.bootstrap,
    {
        self.bootstrap
    }

    pub fn nodes(&self) -> (r: &BTreeMap<u64, AdvertisedAddress>)
        ensures
            r@ == self@.nodes,
    {
        &self.nodes
    }

    pub fn tls(&self) -> (r: &ClusterRaftTlsConfig)
        ensures
            r@ == self@.tls,
    {
        &self.tls
    }

    pub fn identified_write_timeout(&self) -> (r: TimeSpan)
        ensures
            r@ == self@.identified_write_timeout,
    {
        self.identified_write_timeout
    }

    pub fn rpc_connect_timeout(&self) -> (r: TimeSpan)
        ensures
            r@ == self@.rpc_connect_timeout,
    {
        self.rpc_connect_timeout
    }

    /// What the Raft engine is started with, once the engine accepts its timing.
    pub fn engine_settings(&self) -> (r: Result<RaftEngineSettings, BrokerError>)
        ensures
            match engine_timing_error(self@.timing) {
                Some(text) => r matches Err(error) && error@ == engine_refusal(text),
                None => r matches Ok(settings) && settings.cluster_name@ == "agent-broker-cluster"@
                    && settings.timing == Some(self@.timing) && settings.snapshot_log_interval
                    == self@.snapshot_log_interval && settings.replication_lag_threshold == Some(
                    self@.replication_lag_threshold,
                ) && settings.max_in_snapshot_log_to_keep == Some(
                    self@.max_in_snapshot_log_to_keep,
                ),
            },
    {
        match engine_config_error(self.timing) {
            Some(error) => {
                let message = "invalid cluster Raft configuration: ".to_owned().concat(
                    error.as_str(),
                );
                Err(BrokerError::new(BrokerErrorCode::InternalError, message.as_str()))
            },
            None => Ok(
                RaftEngineSettings {
                    cluster_name: "agent-broker-cluster",
                    timing: Some(self.timing),
                    snapshot_log_interval: self.snapshot_log_interval,
                    replication_lag_threshold: Some(self.replication_lag_threshold),
                    max_in_snapshot_log_to_keep: Some(self.max_in_snapshot_log_to_keep),
                },
            ),
        }
    }

    fn validate(&self) -> (r: Result<(), BrokerError>)
        ensures
            match cluster_config_flaw(self@) {
                None => r is Ok,
                Some(message) => r matches Err(error) && error@ == config_refusal(message),
            },
    {
        broadcast use vstd::std_specs::btree::group_btree_axioms;

        if self.node_id == 0 {
            return Err(invalid_config("cluster Raft node_id must be greater than zero"));
        }
        if self.nodes.len() != THREE_NODE_CLUSTER_SIZE {
            return Err(
                invalid_config(
                    "initial Agent Broker cluster topology must contain exactly three nodes",
                ),
            );
        }
        if !self.nodes.contains_key(&self.node_id) {
            return Err(
                invalid_config("cluster Raft topology does not contain the local node_id"),
            );
        }
        if has_unusable_node(&self.nodes) {
            return Err(
                invalid_config(
                    "cluster Raft node IDs must be positive and advertised addresses must be pre-resolved IP socket addresses",
                ),
            );
        }
        match self.validate_snapshot_catch_up_policy() {
            Ok(_) => {},
            Err(error) => return Err(error),
        }
        match self.validate_identified_write_timeout() {
            Ok(_) => {},
            Err(error) => return Err(error),
        }
        match self.validate_rpc_connect_timeout() {
            Ok(_) => {},
            Err(error) => return Err(error),
        }
        match self.tls.validate() {
            Ok(_) => {},
            Err(error) => return Err(error),
        }
        self.validate_raft_timing()
    }

    fn validate_snapshot_catch_up_policy(&self) -> (r: Result<(), BrokerError>)
        ensures
            match snapshot_policy_flaw(
                self@.snapshot_log_interval,
                self@.replication_lag_threshold,
            ) {
                None => r is Ok,
                Some(message) => r matches Err(error) && error@ == config_refusal(message),
            },
    {
        if self.snapshot_log_interval == 0 {
            return Err(
                invalid_config("cluster Raft snapshot log interval must be greater than zero"),
            );
        }
        if self.replication_lag_threshold <= self.snapshot_log_interval {
            return Err(
                invalid_config(
                    "cluster Raft replication lag threshold must exceed the snapshot log interval",
                ),
            );
        }
        Ok(())
    }

    fn validate_identified_write_timeout(&self) -> (r: Result<(), BrokerError>)
        ensures
            match identified_write_flaw(self@.identified_write_timeout) {
                None => r is Ok,
                Some(message) => r matches Err(error) && error@ == config_refusal(message),
            },
    {
        let limit: u128 = MAX_IDENTIFIED_WRITE_SECONDS as u128 * NANOS_PER_SECOND;
        if self.identified_write_timeout.is_zero() || self.identified_write_timeout.as_nanos()
            > limit {
            return Err(
                invalid_config("cluster identified write timeout must be between 1ns and 60s"),
            );
        }
        Ok(())
    }

    fn validate_rpc_connect_timeout(&self) -> (r: Result<(), BrokerError>)
        ensures
            match rpc_connect_flaw(self@.rpc_connect_timeout) {
                None => r is Ok,
                Some(message) => r matches Err(error) && error@ == config_refusal(message),
            },
    {
        let limit: u128 = MAX_RPC_CONNECT_SECONDS as u128 * NANOS_PER_SECOND;
        if self.rpc_connect_timeout.is_zero() || self.rpc_connect_timeout.as_nanos() > limit {
            return Err(
                invalid_config("cluster Raft RPC connect timeout must be between 1ns and 30s"),
            );
        }
        Ok(())
    }

    fn validate_raft_timing(&self) -> (r: Result<(), BrokerError>)
        ensures
            match timing_flaw(self@.timing) {
                None => r is Ok,
                Some(message) => r matches Err(error) && error@ == config_refusal(message),
            },
    {
        if self.timing.election_timeout_min_ms >= self.timing.election_timeout_max_ms {
            return Err(
                invalid_config("cluster election_timeout_min must be below election_timeout_max"),
            );
        }
        if self.timing.election_timeout_min_ms <= self.timing.heartbeat_interval_ms {
            return Err(
                invalid_config(
                    "cluster election_timeout_min must be greater than heartbeat_interval",
                ),
            );
        }
        Ok(())
    }
}

/// The engine accepts the timing of every valid configuration.
pub proof fn law_engine_accepts_valid_timing(config: ClusterConfigView)
    requires
        cluster_config_flaw(config) is None,
    ensures
        engine_timing_error(config.timing) is None,
{
}

/// A valid configuration stays valid under every policy that is accepted.
pub proof fn law_accepted_policies_keep_a_configuration_valid(
    config: ClusterConfigView,
    interval: u64,
    lag_threshold: u64,
    keep: u64,
    write_timeout: nat,
    connect_timeout: nat,
    timing: RaftTiming,
)
    requires
        cluster_config_flaw(config) is None,
        snapshot_policy_flaw(interval, lag_threshold) is None,
        identified_write_flaw(write_timeout) is None,
        rpc_connect_flaw(connect_timeout) is None,
        timing_flaw(timing) is None,
    ensures
        cluster_config_flaw(
            ClusterConfigView {
                snapshot_log_interval: interval,
                replication_lag_threshold: lag_threshold,
                max_in_snapshot_log_to_keep: keep,
                identified_write_timeout: write_timeout,
                rpc_connect_timeout: connect_timeout,
                timing,
                ..config
            },
        ) is None,
{
}

} // verus!
