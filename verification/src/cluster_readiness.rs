//! Progress and write-readiness of one cluster member.
use crate::address::SocketAddress;
use crate::domain::{zero_error, Revision, Term};
use crate::error::{ambiguous_error, BrokerError, BrokerErrorCode, BrokerErrorView};
use crate::raft_errors::{engine_stopped, raft_fatal_error, RaftMode};
use crate::raft_state_machine::RaftBrokerObservation;
use crate::results::ConsumerGroupDirectory;
use vstd::prelude::*;

verus! {

/// Replicated progress of one member.
#[derive(Debug, PartialEq, Eq)]
pub struct ClusterRaftProgress {
    pub node_id: u64,
    pub raft_rpc_addr: SocketAddress,
    pub raft_rpc_queued_connections: usize,
    pub raft_rpc_active_connections: usize,
    pub raft_term: u64,
    pub last_log_index: Option<u64>,
    pub committed_index: Option<u64>,
    pub applied_index: Option<u64>,
    pub snapshot_index: Option<u64>,
    pub purged_index: Option<u64>,
    pub broker_term: Term,
    pub broker_revision: Revision,
    pub current_leader: Option<u64>,
    pub voters: Vec<u64>,
    pub learners: Vec<u64>,
}

/// What the engine shows of itself.
#[derive(Debug, PartialEq, Eq)]
pub struct EngineMetrics {
    pub raft_term: u64,
    pub last_log_index: Option<u64>,
    pub snapshot_index: Option<u64>,
    pub purged_index: Option<u64>,
    pub current_leader: Option<u64>,
    pub voters: Vec<u64>,
    pub learners: Vec<u64>,
}

/// What the server for the calls of other members shows of itself.
#[derive(Debug, Clone, Copy, PartialEq, Eq, Structural)]
pub struct RpcServerLoad {
    pub local_addr: SocketAddress,
    pub queued_connections: usize,
    pub active_connections: usize,
}

/// Why no progress can be shown, or `None` if it can.
pub open spec fn progress_failure(
    committed_index: Result<Option<u64>, String>,
    broker_term: u64,
    server: Option<RpcServerLoad>,
) -> Option<BrokerErrorView> {
    match committed_index {
        Err(error) => Some(engine_stopped(RaftMode::Cluster, error@)),
        Ok(_) => if broker_term == 0 {
            Some(ambiguous_error(BrokerErrorCode::InternalError, zero_error("Broker term"@)))
        } else if server is None {
            Some(
                ambiguous_error(
                    BrokerErrorCode::InternalError,
                    "cluster Raft RPC server is unavailable"@,
                ),
            )
        } else {
            None
        },
    }
}

/// Put the progress of member `node_id` together from what the engine, the committed state and the
/// server show.
pub fn assemble_progress(
    node_id: u64,
    metrics: EngineMetrics,
    committed_index: Result<Option<u64>, String>,
    observation: &RaftBrokerObservation,
    server: Option<RpcServerLoad>,
) -> (r: Result<ClusterRaftProgress, BrokerError>)
    ensures
        match r {
            Err(error) => progress_failure(committed_index, observation.spec_term(), server)
                == Some(error@),
            Ok(progress) => {
                &&& progress_failure(committed_index, observation.spec_term(), server) is None
                &&& progress.node_id == node_id
                &&& progress.raft_rpc_addr == server->0.local_addr
                &&& progress.raft_rpc_queued_connections == server->0.queued_connections
                &&& progress.raft_rpc_active_connections == server->0.active_connections
                &&& progress.raft_term == metrics.raft_term
                &&& progress.last_log_index == metrics.last_log_index
                &&& committed_index == Ok::<_, String>(progress.committed_index)
                &&& progress.applied_index == observation.spec_applied_index()
                &&& progress.snapshot_index == metrics.snapshot_index
                &&& progress.purged_index == metrics.purged_index
                &&& progress.broker_term@ == observation.spec_term()
                &&& progress.broker_revision@ == observation.spec_revision()
                &&& progress.current_leader == metrics.current_leader
                &&& progress.voters == metrics.voters
                &&& progress.learners == metrics.learners
            },
        },
{
    let committed_index: Option<u64> = match committed_index {
        Ok(index) => index,
        Err(error) => return Err(raft_fatal_error(RaftMode::Cluster, error.as_str())),
    };
    let broker_term = match Term::new(observation.term_value()) {
        Ok(term) => term,
        Err(error) => {
            return Err(
                BrokerError::new(BrokerErrorCode::InternalError, error.message().as_str()),
            );
        },
    };
    let server = match server {
        Some(server) => server,
        None => {
            return Err(
                BrokerError::new(
                    BrokerErrorCode::InternalError,
                    "cluster Raft RPC server is unavailable",
                ),
            );
        },
    };
    Ok(
        ClusterRaftProgress {
            node_id,
            raft_rpc_addr: server.local_addr,
            raft_rpc_queued_connections: server.queued_connections,
            raft_rpc_active_connections: server.active_connections,
            raft_term: metrics.raft_term,
            last_log_index: metrics.last_log_index,
            committed_index,
            applied_index: observation.applied_index(),
            snapshot_index: metrics.snapshot_index,
            purged_index: metrics.purged_index,
            broker_term,
            broker_revision: observation.revision(),
            current_leader: metrics.current_leader,
            voters: metrics.voters,
            learners: metrics.learners,
        },
    )
}

/// Write-readiness of one member.
#[derive(Debug, Clone, Copy, PartialEq, Eq, Structural)]
pub enum ClusterRaftReadinessStatus {
    /// This member is the leader, and a quorum confirmed it in the current term.
    Ready,
    /// Another member is the leader.
    Follower,
    /// No leader is known.
    NoLeader,
    /// This member takes itself for the leader, but no quorum confirmed it.
    QuorumUnavailable,
    /// Consensus has stopped on this member after a failure.
    ConsensusFailStopped,
    /// The consensus controller cannot be reached.
    ConsensusUnavailable,
    /// The queue of the consensus controller is full.
    ObservationSaturated,
    /// The deadline passed before a definitive observation.
    ProbeTimedOut,
}

impl ClusterRaftReadinessStatus {
    /// The stable text of a status.
    pub open spec fn text(self) -> Seq<char> {
        match self {
            ClusterRaftReadinessStatus::Ready => "ready"@,
            ClusterRaftReadinessStatus::Follower => "follower"@,
            ClusterRaftReadinessStatus::NoLeader => "no_leader"@,
            ClusterRaftReadinessStatus::QuorumUnavailable => "quorum_unavailable"@,
            ClusterRaftReadinessStatus::ConsensusFailStopped => "consensus_fail_stopped"@,
            ClusterRaftReadinessStatus::ConsensusUnavailable => "consensus_unavailable"@,
            ClusterRaftReadinessStatus::ObservationSaturated => "observation_saturated"@,
            ClusterRaftReadinessStatus::ProbeTimedOut => "probe_timed_out"@,
        }
    }

    pub fn as_str(self) -> (r: &'static str)
        ensures
            r@ == self.text(),
    {
        match self {
            ClusterRaftReadinessStatus::Ready => "ready",
            ClusterRaftReadinessStatus::Follower => "follower",
            ClusterRaftReadinessStatus::NoLeader => "no_leader",
            ClusterRaftReadinessStatus::QuorumUnavailable => "quorum_unavailable",
            ClusterRaftReadinessStatus::ConsensusFailStopped => "consensus_fail_stopped",
            ClusterRaftReadinessStatus::ConsensusUnavailable => "consensus_unavailable",
            ClusterRaftReadinessStatus::ObservationSaturated => "observation_saturated",
            ClusterRaftReadinessStatus::ProbeTimedOut => "probe_timed_out",
        }
    }
}

/// One observation of write-readiness.
#[derive(Debug, PartialEq, Eq)]
pub struct ClusterRaftReadiness {
    pub status: ClusterRaftReadinessStatus,
    pub progress: Option<ClusterRaftProgress>,
}

impl ClusterRaftReadiness {
    fn new(status: ClusterRaftReadinessStatus, progress: Option<ClusterRaftProgress>) -> (r: Self)
        ensures
            r == (ClusterRaftReadiness { status, progress }),
    {
        ClusterRaftReadiness { status, progress }
    }

    /// Whether this observation proves that the member may take writes.
    pub fn is_write_ready(&self) -> (r: bool)
        ensures
            r == (self.status == ClusterRaftReadinessStatus::Ready),
    {
        self.status == ClusterRaftReadinessStatus::Ready
    }
}

/// The status of a member that is not the leader.
pub open spec fn other_leader_status(leader: Option<u64>) -> ClusterRaftReadinessStatus {
    if leader is Some {
        ClusterRaftReadinessStatus::Follower
    } else {
        ClusterRaftReadinessStatus::NoLeader
    }
}

fn not_leading(progress: ClusterRaftProgress) -> (r: ClusterRaftReadiness)
    ensures
        r == (ClusterRaftReadiness {
            status: other_leader_status(progress.current_leader),
            progress: Some(progress),
        }),
{
    let status = if progress.current_leader.is_some() {
        ClusterRaftReadinessStatus::Follower
    } else {
        ClusterRaftReadinessStatus::NoLeader
    };
    ClusterRaftReadiness::new(status, Some(progress))
}

fn is_led_by(progress: &ClusterRaftProgress, node_id: u64) -> (r: bool)
    ensures
        r == (progress.current_leader == Some(node_id)),
{
    match progress.current_leader {
        Some(leader) => leader == node_id,
        None => false,
    }
}

/// The observation of a member that has stopped.
pub open spec fn fail_stopped_readiness() -> ClusterRaftReadiness {
    ClusterRaftReadiness {
        status: ClusterRaftReadinessStatus::ConsensusFailStopped,
        progress: None,
    }
}

/// A member that takes itself for the leader and has to have it confirmed by a quorum.
pub struct LeadershipClaim {
    node_id: u64,
    progress: ClusterRaftProgress,
}

/// A member that has to look at its progress again.
pub struct SecondLook {
    node_id: u64,
    confirmed: bool,
}

/// What follows the first look at the progress.
pub enum FirstStep {
    Done(ClusterRaftReadiness),
    Confirm(LeadershipClaim),
}

/// What follows the confirmation of a claim.
pub enum ConfirmStep {
    Done(ClusterRaftReadiness),
    LookAgain(SecondLook),
}

/// What the engine said to a claim.
#[derive(Debug, Clone, Copy, PartialEq, Eq, Structural)]
pub enum Confirmation {
    /// The deadline passed first.
    TimedOut,
    /// A quorum confirmed the leadership in the current term.
    Confirmed,
    /// No quorum answered.
    QuorumNotEnough,
    /// Another member leads.
    ForwardToLeader,
    /// The engine has stopped.
    Stopped,
}

/// Judge the first look at the progress of member `node_id`. An error of the look counts as
/// stopped.
pub fn begin_readiness(node_id: u64, progress: Result<ClusterRaftProgress, BrokerError>) -> (r:
    FirstStep)
    ensures
        match progress {
            Err(_) => r == FirstStep::Done(fail_stopped_readiness()),
            Ok(progress) => if progress.current_leader != Some(node_id) {
                r == FirstStep::Done(
                    ClusterRaftReadiness {
                        status: other_leader_status(progress.current_leader),
                        progress: Some(progress),
                    },
                )
            } else {
                r matches FirstStep::Confirm(claim) && claim.spec_node_id() == node_id
                    && claim.spec_progress() == progress
            },
        },
{
    match progress {
        Err(_) => FirstStep::Done(
            ClusterRaftReadiness::new(ClusterRaftReadinessStatus::ConsensusFailStopped, None),
        ),
        Ok(progress) => {
            if !is_led_by(&progress, node_id) {
                return FirstStep::Done(not_leading(progress));
            }
            FirstStep::Confirm(LeadershipClaim { node_id, progress })
        },
    }
}

impl LeadershipClaim {
    pub closed spec fn spec_node_id(&self) -> u64 {
        self.node_id
    }

    pub closed spec fn spec_progress(&self) -> ClusterRaftProgress {
        self.progress
    }

    /// Give up if no time is left to have the claim confirmed.
    pub fn budgeted(self, remaining_is_zero: bool) -> (r: Result<Self, ClusterRaftReadiness>)
        ensures
            if remaining_is_zero {
                r == Err::<Self, _>(
                    ClusterRaftReadiness {
                        status: ClusterRaftReadinessStatus::ProbeTimedOut,
                        progress: Some(self.spec_progress()),
                    },
                )
            } else {
                r == Ok::<Self, ClusterRaftReadiness>(self)
            },
    {
        if remaining_is_zero {
            Err(
                ClusterRaftReadiness::new(
                    ClusterRaftReadinessStatus::ProbeTimedOut,
                    Some(self.progress),
                ),
            )
        } else {
            Ok(self)
        }
    }

    /// Judge what the engine said to the claim.
    pub fn confirmed(self, confirmation: Confirmation) -> (r: ConfirmStep)
        ensures
            match confirmation {
                Confirmation::TimedOut => r == ConfirmStep::Done(
                    ClusterRaftReadiness {
                        status: ClusterRaftReadinessStatus::ProbeTimedOut,
                        progress: Some(self.spec_progress()),
                    },
                ),
                Confirmation::QuorumNotEnough => r == ConfirmStep::Done(
                    ClusterRaftReadiness {
                        status: ClusterRaftReadinessStatus::QuorumUnavailable,
                        progress: Some(self.spec_progress()),
                    },
                ),
                Confirmation::Stopped => r == ConfirmStep::Done(
                    ClusterRaftReadiness {
                        status: ClusterRaftReadinessStatus::ConsensusFailStopped,
                        progress: Some(self.spec_progress()),
                    },
                ),
                Confirmation::Confirmed => r matches ConfirmStep::LookAgain(look)
                    && look.spec_node_id() == self.spec_node_id() && look.spec_confirmed(),
                Confirmation::ForwardToLeader => r matches ConfirmStep::LookAgain(look)
                    && look.spec_node_id() == self.spec_node_id() && !look.spec_confirmed(),
            },
    {
        let node_id: u64 = self.node_id;
        match confirmation {
            Confirmation::TimedOut => ConfirmStep::Done(
                ClusterRaftReadiness::new(
                    ClusterRaftReadinessStatus::ProbeTimedOut,
                    Some(self.progress),
                ),
            ),
            Confirmation::QuorumNotEnough => ConfirmStep::Done(
                ClusterRaftReadiness::new(
                    ClusterRaftReadinessStatus::QuorumUnavailable,
                    Some(self.progress),
                ),
            ),
            Confirmation::Stopped => ConfirmStep::Done(
                ClusterRaftReadiness::new(
                    ClusterRaftReadinessStatus::ConsensusFailStopped,
                    Some(self.progress),
                ),
            ),
            Confirmation::Confirmed => ConfirmStep::LookAgain(
                SecondLook { node_id, confirmed: true },
            ),
            Confirmation::ForwardToLeader => ConfirmStep::LookAgain(
                SecondLook { node_id, confirmed: false },
            ),
        }
    }
}

/// What the second look at the progress says.
pub open spec fn second_look(
    node_id: u64,
    confirmed: bool,
    progress: Result<ClusterRaftProgress, BrokerError>,
) -> ClusterRaftReadiness {
    match progress {
        Err(_) => fail_stopped_readiness(),
        Ok(progress) => ClusterRaftReadiness {
            status: if confirmed && progress.current_leader == Some(node_id) {
                ClusterRaftReadinessStatus::Ready
            } else {
                other_leader_status(progress.current_leader)
            },
            progress: Some(progress),
        },
    }
}

impl SecondLook {
    pub closed spec fn spec_node_id(&self) -> u64 {
        self.node_id
    }

    /// Whether a quorum confirmed the claim.
    pub closed spec fn spec_confirmed(&self) -> bool {
        self.confirmed
    }

    /// Judge the second look at the progress.
    pub fn observed(self, progress: Result<ClusterRaftProgress, BrokerError>) -> (r:
        ClusterRaftReadiness)
        ensures
            r == second_look(self.spec_node_id(), self.spec_confirmed(), progress),
    {
        match progress {
            Err(_) => ClusterRaftReadiness::new(
                ClusterRaftReadinessStatus::ConsensusFailStopped,
                None,
            ),
            Ok(progress) => {
                if self.confirmed && is_led_by(&progress, self.node_id) {
                    ClusterRaftReadiness::new(ClusterRaftReadinessStatus::Ready, Some(progress))
                } else {
                    not_leading(progress)
                }
            },
        }
    }
}

/// A probe of a member, from the first look to the last.
pub struct ProbeTrace {
    pub node_id: u64,
    pub first: Result<ClusterRaftProgress, BrokerError>,
    pub remaining_is_zero: bool,
    pub confirmation: Confirmation,
    pub second: Result<ClusterRaftProgress, BrokerError>,
}

/// What a whole probe comes to.
pub open spec fn probed(trace: ProbeTrace) -> ClusterRaftReadiness {
    match trace.first {
        Err(_) => fail_stopped_readiness(),
        Ok(progress) => if progress.current_leader != Some(trace.node_id) {
            ClusterRaftReadiness {
                status: other_leader_status(progress.current_leader),
                progress: Some(progress),
            }
        } else if trace.remaining_is_zero {
            ClusterRaftReadiness {
                status: ClusterRaftReadinessStatus::ProbeTimedOut,
                progress: Some(progress),
            }
        } else {
            match trace.confirmation {
                Confirmation::TimedOut => ClusterRaftReadiness {
                    status: ClusterRaftReadinessStatus::ProbeTimedOut,
                    progress: Some(progress),
                },
                Confirmation::QuorumNotEnough => ClusterRaftReadiness {
                    status: ClusterRaftReadinessStatus::QuorumUnavailable,
                    progress: Some(progress),
                },
                Confirmation::Stopped => ClusterRaftReadiness {
                    status: ClusterRaftReadinessStatus::ConsensusFailStopped,
                    progress: Some(progress),
                },
                Confirmation::Confirmed => second_look(trace.node_id, true, trace.second),
                Confirmation::ForwardToLeader => second_look(trace.node_id, false, trace.second),
            }
        },
    }
}

/// Run a probe whose looks and confirmation are known.
pub fn replay_probe(trace: ProbeTrace) -> (r: ClusterRaftReadiness)
    ensures
        r == probed(trace),
{
    match begin_readiness(trace.node_id, trace.first) {
        FirstStep::Done(readiness) => readiness,
        FirstStep::Confirm(claim) => match claim.budgeted(trace.remaining_is_zero) {
            Err(readiness) => readiness,
            Ok(claim) => match claim.confirmed(trace.confirmation) {
                ConfirmStep::Done(readiness) => readiness,
                ConfirmStep::LookAgain(look) => look.observed(trace.second),
            },
        },
    }
}

/// A member is ready only if it was the leader at both looks and a quorum confirmed it in between,
/// within the deadline.
pub proof fn law_ready_means_confirmed_leader(trace: ProbeTrace)
    ensures
        probed(trace).status == ClusterRaftReadinessStatus::Ready <==> {
            &&& trace.first matches Ok(progress) && progress.current_leader == Some(trace.node_id)
            &&& !trace.remaining_is_zero
            &&& trace.confirmation == Confirmation::Confirmed
            &&& trace.second matches Ok(progress) && progress.current_leader == Some(trace.node_id)
        },
{
}

/// The error for a directory that cannot be read with authority.
pub open spec fn directory_unavailable(status: ClusterRaftReadinessStatus) -> BrokerErrorView {
    ambiguous_error(
        BrokerErrorCode::TransportError,
        "Consumer Group directory read is unavailable: "@ + status.text(),
    )
}

/// Hand out the Consumer Group directory only with the authority of a ready leader.
pub fn authoritative_directory(
    readiness: &ClusterRaftReadiness,
    directory: ConsumerGroupDirectory,
) -> (r: Result<ConsumerGroupDirectory, BrokerError>)
    ensures
        if readiness.status == ClusterRaftReadinessStatus::Ready {
            r == Ok::<ConsumerGroupDirectory, BrokerError>(directory)
        } else {
            r matches Err(error) && error@ == directory_unavailable(readiness.status)
        },
{
    if readiness.status == ClusterRaftReadinessStatus::Ready {
        return Ok(directory);
    }
    let message = "Consumer Group directory read is unavailable: ".to_owned().concat(
        readiness.status.as_str(),
    );
    Err(BrokerError::new(BrokerErrorCode::TransportError, message.as_str()))
}

/// What came of handing an observation request to the controller.
#[derive(Debug, PartialEq, Eq)]
pub enum ObservationReply {
    /// The queue was full.
    QueueFull,
    /// The controller is gone.
    Disconnected,
    /// The deadline passed before the answer.
    TimedOut,
    /// The controller answered.
    Answered(ClusterRaftReadiness),
}

/// Observer of one member. Once it learns that consensus has stopped it never asks again.
#[derive(Debug, PartialEq, Eq)]
pub struct ClusterRaftObserver {
    fail_stopped: bool,
}

/// What an observer reports for a reply of the controller.
pub open spec fn observed_readiness(reply: ObservationReply) -> ClusterRaftReadiness {
    match reply {
        ObservationReply::QueueFull => ClusterRaftReadiness {
            status: ClusterRaftReadinessStatus::ObservationSaturated,
            progress: None,
        },
        ObservationReply::Disconnected => ClusterRaftReadiness {
            status: ClusterRaftReadinessStatus::ConsensusUnavailable,
            progress: None,
        },
        ObservationReply::TimedOut => ClusterRaftReadiness {
            status: ClusterRaftReadinessStatus::ProbeTimedOut,
            progress: None,
        },
        ObservationReply::Answered(readiness) => readiness,
    }
}

/// Queue to the controller of a member.
pub trait ObservationQueue: Sized {
    /// Ask for the readiness within the probe deadline.
    fn probe(&mut self) -> ObservationReply;
}

impl ClusterRaftObserver {
    /// Whether consensus is known to have stopped.
    pub closed spec fn spec_fail_stopped(&self) -> bool {
        self.fail_stopped
    }

    pub fn new(fail_stopped: bool) -> (r: Self)
        ensures
            r.spec_fail_stopped() == fail_stopped,
    {
        ClusterRaftObserver { fail_stopped }
    }

    pub fn is_fail_stopped(&self) -> (r: bool)
        ensures
            r == self.spec_fail_stopped(),
    {
        self.fail_stopped
    }

    /// Take note of a reply and report it.
    pub fn replied(&mut self, reply: ObservationReply) -> (r: ClusterRaftReadiness)
        ensures
            r == observed_readiness(reply),
            final(self).spec_fail_stopped() == (old(self).spec_fail_stopped() || (reply matches
                ObservationReply::Answered(readiness) && readiness.status
                == ClusterRaftReadinessStatus::ConsensusFailStopped)),
    {
        match reply {
            ObservationReply::QueueFull => ClusterRaftReadiness::new(
                ClusterRaftReadinessStatus::ObservationSaturated,
                None,
            ),
            ObservationReply::Disconnected => ClusterRaftReadiness::new(
                ClusterRaftReadinessStatus::ConsensusUnavailable,
                None,
            ),
            ObservationReply::TimedOut => ClusterRaftReadiness::new(
                ClusterRaftReadinessStatus::ProbeTimedOut,
                None,
            ),
            ObservationReply::Answered(readiness) => {
                if readiness.status == ClusterRaftReadinessStatus::ConsensusFailStopped {
                    self.fail_stopped = true;
                }
                readiness
            },
        }
    }

    /// Observe the readiness of the member. Whatever cannot be observed is not ready.
    pub fn readiness<Q: ObservationQueue>(&mut self, queue: &mut Q) -> (r: ClusterRaftReadiness)
        ensures
            if old(self).spec_fail_stopped() {
                r == fail_stopped_readiness()
                    && *final(self) == *old(self)
                    && *final(queue) == *old(queue)
            } else {
                exists|asked: &mut Q, reply: ObservationReply|
                    {
                        &&& *asked == *old(queue)
                        &&& *final(asked) == *final(queue)
                        &&& #[trigger] call_ensures(Q::probe, (asked,), reply)
                        &&& r == observed_readiness(reply)
                        &&& final(self).spec_fail_stopped() == (reply matches
                            ObservationReply::Answered(readiness) && readiness.status
                            == ClusterRaftReadinessStatus::ConsensusFailStopped)
                    }
            },
    {
        if self.fail_stopped {
            return ClusterRaftReadiness::new(
                ClusterRaftReadinessStatus::ConsensusFailStopped,
                None,
            );
        }
        let reply = queue.probe();
        self.replied(reply)
    }
}

} // verus!
