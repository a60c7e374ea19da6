//! Configuration and decisions of a one-node Raft group.
use crate::cluster_config::{
    default_engine_timing, engine_config_error, RaftEngineSettings, DEFAULT_SNAPSHOT_LOG_INTERVAL,
};
use crate::domain::{zero_error, Revision, Term};
use crate::error::{ambiguous_error, BrokerError, BrokerErrorCode, BrokerErrorView};
use crate::raft_errors::{engine_stopped, raft_fatal_error, RaftMode};
use crate::raft_state_machine::RaftBrokerObservation;
use crate::results::BrokerMutationResult;
use vstd::prelude::*;

verus! {

/// The id of the only node.
pub const ONE_NODE_ID: u64 = 1;

/// Durable configuration of a one-node group.
#[derive(Debug, PartialEq, Eq)]
pub struct OneNodeRaftConfig {
    state_path: String,
    snapshot_log_interval: u64,
}

/// The plain values of a one-node configuration.
pub struct OneNodeConfigView {
    pub state_path: Seq<char>,
    pub snapshot_log_interval: u64,
}

impl View for OneNodeRaftConfig {
    type V = OneNodeConfigView;

    closed spec fn view(&self) -> OneNodeConfigView {
        OneNodeConfigView {
            state_path: self.state_path@,
            snapshot_log_interval: self.snapshot_log_interval,
        }
    }
}

impl OneNodeRaftConfig {
    /// Keep the durable state at `state_path`.
    pub fn new(state_path: &str) -> (r: Self)
        ensures
            r@ == (OneNodeConfigView {
                state_path: state_path@,
                snapshot_log_interval: DEFAULT_SNAPSHOT_LOG_INTERVAL,
            }),
    {
        OneNodeRaftConfig {
            state_path: state_path.to_owned(),
            snapshot_log_interval: DEFAULT_SNAPSHOT_LOG_INTERVAL,
        }
    }

    /// Use another number of committed entries between snapshots.
    pub fn with_snapshot_log_interval(self, interval: u64) -> (r: Result<Self, BrokerError>)
        ensures
            match r {
                Ok(config) => interval > 0 && config@ == (OneNodeConfigView {
                    snapshot_log_interval: interval,
                    ..self@
                }),
                Err(error) => interval == 0 && error@ == ambiguous_error(
                    BrokerErrorCode::InvalidRequest,
                    "one-node Raft snapshot log interval must be greater than zero"@,
                ),
            },
    {
        if interval == 0 {
            return Err(
                BrokerError::new(
                    BrokerErrorCode::InvalidRequest,
                    "one-node Raft snapshot log interval must be greater than zero",
                ),
            );
        }
        Ok(OneNodeRaftConfig { state_path: self.state_path, snapshot_log_interval: interval })
    }

    pub fn state_path(&self) -> (r: &str)
        ensures
            r@ == self@.state_path,
    {
        self.state_path.as_str()
    }

    /// What the Raft engine is started with. The engine accepts its own default timing.
    pub fn engine_settings(&self) -> (r: Result<RaftEngineSettings, BrokerError>)
        ensures
            r matches Ok(settings) && settings.cluster_name@ == "agent-broker-one-node"@
                && settings.timing is None && settings.snapshot_log_interval
                == self@.snapshot_log_interval && settings.replication_lag_threshold is None
                && settings.max_in_snapshot_log_to_keep is None,
    {
        match engine_config_error(default_engine_timing()) {
            Some(error) => {
                let message = "invalid one-node Raft configuration: ".to_owned().concat(
                    error.as_str(),
                );
                Err(BrokerError::new(BrokerErrorCode::InternalError, message.as_str()))
            },
            None => Ok(
                RaftEngineSettings {
                    cluster_name: "agent-broker-one-node",
                    timing: None,
                    snapshot_log_interval: self.snapshot_log_interval,
                    replication_lag_threshold: None,
                    max_in_snapshot_log_to_keep: None,
                },
            ),
        }
    }
}

/// Progress of a one-node group.
#[derive(Debug, Clone, Copy, PartialEq, Eq, Structural)]
pub struct OneNodeRaftProgress {
    pub raft_term: u64,
    pub last_log_index: Option<u64>,
    pub committed_index: Option<u64>,
    pub applied_index: Option<u64>,
    pub broker_term: Term,
    pub broker_revision: Revision,
    pub current_leader: Option<u64>,
    pub remote_attempt_count: u64,
}

/// Why no progress can be shown, or `None` if it can.
pub open spec fn one_node_progress_failure(
    committed_index: Result<Option<u64>, String>,
    broker_term: u64,
) -> Option<BrokerErrorView> {
    match committed_index {
        Err(error) => Some(engine_stopped(RaftMode::OneNode, error@)),
        Ok(_) => if broker_term == 0 {
            Some(ambiguous_error(BrokerErrorCode::InternalError, zero_error("Broker term"@)))
        } else {
            None
        },
    }
}

/// Put the progress together from what the engine, the committed state and the network show.
pub fn one_node_progress(
    raft_term: u64,
    last_log_index: Option<u64>,
    current_leader: Option<u64>,
    committed_index: Result<Option<u64>, String>,
    observation: &RaftBrokerObservation,
    remote_attempt_count: u64,
) -> (r: Result<OneNodeRaftProgress, BrokerError>)
    ensures
        match r {
            Err(error) => one_node_progress_failure(committed_index, observation.spec_term())
                == Some(error@),
            Ok(progress) => {
                &&& one_node_progress_failure(committed_index, observation.spec_term()) is None
                &&& progress.raft_term == raft_term
                &&& progress.last_log_index == last_log_index
                &&& committed_index == Ok::<_, String>(progress.committed_index)
                &&& progress.applied_index == observation.spec_applied_index()
                &&& progress.broker_term@ == observation.spec_term()
                &&& progress.broker_revision@ == observation.spec_revision()
                &&& progress.current_leader == current_leader
                &&& progress.remote_attempt_count == remote_attempt_count
            },
        },
{
    let committed_index: Option<u64> = match committed_index {
        Ok(index) => index,
        Err(error) => return Err(raft_fatal_error(RaftMode::OneNode, error.as_str())),
    };
    let broker_term = match Term::new(observation.term_value()) {
        Ok(term) => term,
        Err(error) => {
            return Err(
                BrokerError::new(BrokerErrorCode::InternalError, error.message().as_str()),
            );
        },
    };
    Ok(
        OneNodeRaftProgress {
            raft_term,
            last_log_index,
            committed_index,
            applied_index: observation.applied_index(),
            broker_term,
            broker_revision: observation.revision(),
            current_leader,
            remote_attempt_count,
        },
    )
}

/// What a one-node group was doing when it tried to reach another node.
#[derive(Debug, Clone, Copy, PartialEq, Eq, Structural)]
pub enum OneNodePhase {
    Startup,
    Commit,
}

/// The error of a one-node group that tried to reach another node.
pub open spec fn remote_attempted(phase: OneNodePhase) -> BrokerErrorView {
    ambiguous_error(
        BrokerErrorCode::InternalError,
        match phase {
            OneNodePhase::Startup => {
                "one-node Raft unexpectedly attempted a remote RPC during startup"@
            },
            OneNodePhase::Commit => {
                "one-node Raft unexpectedly attempted a remote RPC while committing a command"@
            },
        },
    )
}

/// Check that no other node was ever contacted.
pub fn ensure_no_remote_attempt(phase: OneNodePhase, remote_attempt_count: u64) -> (r: Result<
    (),
    BrokerError,
>)
    ensures
        match r {
            Ok(_) => remote_attempt_count == 0,
            Err(error) => remote_attempt_count != 0 && error@ == remote_attempted(phase),
        },
{
    if remote_attempt_count == 0 {
        return Ok(());
    }
    let message = match phase {
        OneNodePhase::Startup => "one-node Raft unexpectedly attempted a remote RPC during startup",
        OneNodePhase::Commit => {
            "one-node Raft unexpectedly attempted a remote RPC while committing a command"
        },
    };
    Err(BrokerError::new(BrokerErrorCode::InternalError, message))
}

/// What a one-node group answers to a proposal.
#[derive(Debug, PartialEq, Eq)]
pub struct OneNodeProposeReply {
    pub result: Result<BrokerMutationResult, BrokerError>,
    pub progress: OneNodeRaftProgress,
}

/// Answer a proposal once its result and the progress are known.
pub fn conclude_one_node_proposal(
    result: Result<BrokerMutationResult, BrokerError>,
    progress: OneNodeRaftProgress,
) -> (r: Result<OneNodeProposeReply, BrokerError>)
    ensures
        match r {
            Ok(reply) => progress.remote_attempt_count == 0 && reply.result == result
                && reply.progress == progress,
            Err(error) => progress.remote_attempt_count != 0 && error@ == remote_attempted(
                OneNodePhase::Commit,
            ),
        },
{
    match ensure_no_remote_attempt(OneNodePhase::Commit, progress.remote_attempt_count) {
        Ok(_) => Ok(OneNodeProposeReply { result, progress }),
        Err(error) => Err(error),
    }
}

/// The error of a one-node group without a leader.
pub open spec fn one_node_leaderless() -> BrokerErrorView {
    ambiguous_error(
        BrokerErrorCode::TransportError,
        "one-node Raft did not elect node 1 as leader within the startup deadline"@,
    )
}

/// The error of a one-node group without a leader.
pub fn one_node_leaderless_error() -> (r: BrokerError)
    ensures
        r@ == one_node_leaderless(),
{
    BrokerError::new(
        BrokerErrorCode::TransportError,
        "one-node Raft did not elect node 1 as leader within the startup deadline",
    )
}

/// The newest snapshot that the engine shows: the index it covers, if it covers any entry.
#[derive(Debug, Clone, Copy, PartialEq, Eq, Structural)]
pub struct SnapshotMark {
    pub last_log_index: Option<u64>,
}

/// Whether a snapshot covers everything that had been applied.
pub open spec fn snapshot_reached(target: Option<u64>, snapshot: Option<SnapshotMark>) -> bool {
    match (target, snapshot) {
        (_, None) => false,
        (None, Some(_)) => true,
        (Some(target), Some(mark)) => mark.last_log_index matches Some(index) && index >= target,
    }
}

/// Decide whether the snapshot that was asked for is there: `true` if it is, `false` to look again.
pub fn await_snapshot(
    target: Option<u64>,
    snapshot: Option<SnapshotMark>,
    deadline_passed: bool,
) -> (r:
    Result<bool, BrokerError>)
    ensures
        if snapshot_reached(target, snapshot) {
            r == Ok::<bool, BrokerError>(true)
        } else if deadline_passed {
            r matches Err(error) && error@ == ambiguous_error(
                BrokerErrorCode::PersistenceError,
                "one-node Raft snapshot did not reach the applied log before the deadline"@,
            )
        } else {
            r == Ok::<bool, BrokerError>(false)
        },
{
    let reached = match (target, snapshot) {
        (_, None) => false,
        (None, Some(_)) => true,
        (Some(target), Some(mark)) => match mark.last_log_index {
            Some(index) => index >= target,
            None => false,
        },
    };
    if reached {
        return Ok(true);
    }
    if deadline_passed {
        return Err(
            BrokerError::new(
                BrokerErrorCode::PersistenceError,
                "one-node Raft snapshot did not reach the applied log before the deadline",
            ),
        );
    }
    Ok(false)
}

} // verus!
