//! What holds of the members of a cluster: their configuration, their TLS material, their readiness
//! and their start.
use crate::cluster_config::{
    cluster_config_flaw, engine_timing_error, identified_write_flaw, is_configured,
    rpc_connect_flaw, snapshot_policy_flaw, timing_flaw, usable_millis, ClusterConfigView,
    ClusterRaftConfig, RaftTiming,
};
use crate::cluster_readiness::{
    directory_unavailable, observed_readiness, probed, progress_failure, ClusterRaftReadinessStatus,
    Confirmation, ObservationReply, ProbeTrace, RpcServerLoad,
};
use crate::cluster_tls::{
    anchors_of, certificates_in, handshake_step, key_in, material_of, peer_refusal, pins_of,
    server_name_text, tls_config_flaw, HandshakeIo, HandshakeStep, PeerFile, PeerRefusal, TlsFiles,
};
use crate::error::{BrokerError, BrokerErrorCode, BrokerErrorDisposition};
use crate::one_node::{one_node_progress_failure, snapshot_reached, SnapshotMark};
use crate::raft_startup::{
    bootstrap_start, caught_up, change_step, converge_step, missing_nodes, next_bootstrap_step,
    next_cluster_step, next_one_node_step, wait_step, BootstrapStep, ChangeStep, ClusterStartStep,
    ConvergeStep, OneNodeStartStep, WaitStep,
};
use crate::text::decimal;
use vstd::prelude::*;

verus! {

/// A configuration is accepted exactly when its topology has three nodes with positive ids and
/// resolved addresses, the local one among them, its snapshots come before a follower lags too far,
/// its time limits are positive and within their bounds, its TLS directory is named, and its
/// election timeouts leave room for a heartbeat and for each other.
pub proof fn law_accepted_member_configurations(config: ClusterConfigView)
    ensures
        cluster_config_flaw(config) is None <==> {
            &&& config.nodes.len() == 3
            &&& config.nodes.contains_key(config.node_id)
            &&& config.node_id > 0
            &&& forall|id: u64| #[trigger]
                config.nodes.contains_key(id) ==> id > 0 && config.nodes[id].resolved is Some
            &&& 0 < config.snapshot_log_interval < config.replication_lag_threshold
            &&& 0 < config.identified_write_timeout <= 60_000_000_000
            &&& 0 < config.rpc_connect_timeout <= 30_000_000_000
            &&& config.tls.directory.len() > 0
            &&& 0 < config.tls.handshake_timeout <= 30_000_000_000
            &&& config.timing.heartbeat_interval_ms < config.timing.election_timeout_min_ms
            &&& config.timing.election_timeout_min_ms < config.timing.election_timeout_max_ms
        },
{
}

/// A refused configuration names its first flaw, and is told as an invalid request.
pub proof fn law_refused_member_configurations(
    next: ClusterConfigView,
    flaw: Option<Seq<char>>,
    r: Result<ClusterRaftConfig, BrokerError>,
)
    requires
        is_configured(next, flaw, r),
    ensures
        match r {
            Ok(config) => flaw is None && config@ == next,
            Err(error) => {
                &&& flaw == Some(error@.message)
                &&& error@.code == BrokerErrorCode::InvalidRequest
                &&& error@.disposition == BrokerErrorDisposition::Unknown
            },
        },
{
}

/// Each part of a configuration is judged by itself.
pub proof fn law_parts_of_a_configuration(
    interval: u64,
    lag_threshold: u64,
    timeout: nat,
    timing: RaftTiming,
)
    ensures
        snapshot_policy_flaw(interval, lag_threshold) is None <==> 0 < interval < lag_threshold,
        identified_write_flaw(timeout) is None <==> 0 < timeout <= 60_000_000_000,
        rpc_connect_flaw(timeout) is None <==> 0 < timeout <= 30_000_000_000,
        timing_flaw(timing) is None <==> timing.heartbeat_interval_ms
            < timing.election_timeout_min_ms < timing.election_timeout_max_ms,
        engine_timing_error(timing) is None <==> timing_flaw(timing) is None,
{
}

/// A duration is usable as whole milliseconds exactly when it has at least one of them and their
/// number can be held. What is left below a millisecond is cut off.
pub proof fn law_usable_milliseconds(duration: nat, label: Seq<char>)
    ensures
        match usable_millis(duration, label) {
            Ok(millis) => millis > 0 && millis * 1_000_000 <= duration < (millis + 1) * 1_000_000,
            Err(_) => duration < 1_000_000 || duration >= 18_446_744_073_709_551_616 * 1_000_000,
        },
        1_000_000 <= duration < 18_446_744_073_709_551_616 * 1_000_000 ==> usable_millis(
            duration,
            label,
        ) is Ok,
{
}

/// A TLS configuration is accepted exactly when its directory is named and a handshake may take up
/// to thirty seconds.
pub proof fn law_accepted_tls_configurations(config: crate::cluster_tls::TlsConfigView)
    ensures
        tls_config_flaw(config) is None <==> config.directory.len() > 0 && 0
            < config.handshake_timeout <= 30_000_000_000,
{
}

/// A peer is accepted exactly when it shows the certificate that is pinned for its node. An unknown
/// node is refused whatever it shows.
pub proof fn law_peers_show_their_pinned_certificate(
    pins: Map<u64, Seq<u8>>,
    node_id: u64,
    shown: Option<Seq<u8>>,
)
    ensures
        peer_refusal(pins, node_id, shown) is None <==> pins.contains_key(node_id) && shown == Some(
            pins[node_id],
        ),
        peer_refusal(pins, node_id, shown) == Some(PeerRefusal::UnknownIdentity)
            <==> !pins.contains_key(node_id),
        peer_refusal(pins, node_id, shown) == Some(PeerRefusal::MissingCertificate)
            <==> pins.contains_key(node_id) && shown is None,
{
}

/// Every pinned certificate is the first one in the file of its node, every node is pinned, and
/// none twice.
pub proof fn law_pins_are_first_certificates(peers: Seq<PeerFile>)
    requires
        pins_of(peers) is Ok,
    ensures
        forall|i: int|
            0 <= i < peers.len() ==> {
                let pins = pins_of(peers)->Ok_0;
                let chain = certificates_in((#[trigger] peers[i]).certificates);
                &&& pins.contains_key(peers[i].node_id)
                &&& chain is Ok
                &&& chain->Ok_0.len() > 0
                &&& pins[peers[i].node_id] == chain->Ok_0[0]
            },
        forall|i: int, j: int|
            0 <= i < j < peers.len() ==> (#[trigger] peers[i]).node_id != (
            #[trigger] peers[j]).node_id,
        forall|id: u64| #[trigger]
            pins_of(peers)->Ok_0.contains_key(id) ==> exists|i: int|
                0 <= i < peers.len() && (#[trigger] peers[i]).node_id == id,
    decreases peers.len(),
{
    if peers.len() > 0 {
        let rest = peers.drop_last();
        law_pins_are_first_certificates(rest);
        let pins = pins_of(rest)->Ok_0;
        assert forall|i: int, j: int| 0 <= i < j < peers.len() implies (
        #[trigger] peers[i]).node_id != (#[trigger] peers[j]).node_id by {
            assert(rest[i] == peers[i]);
            if j < rest.len() {
                assert(rest[j] == peers[j]);
            }
        }
        assert forall|i: int| 0 <= i < peers.len() implies {
            let all = pins_of(peers)->Ok_0;
            let chain = certificates_in((#[trigger] peers[i]).certificates);
            &&& all.contains_key(peers[i].node_id)
            &&& chain is Ok
            &&& chain->Ok_0.len() > 0
            &&& all[peers[i].node_id] == chain->Ok_0[0]
        } by {
            if i < rest.len() {
                assert(rest[i] == peers[i]);
                assert(peers[i].node_id != peers[peers.len() - 1].node_id);
            }
        }
        assert forall|id: u64| #[trigger] pins_of(peers)->Ok_0.contains_key(id) implies exists|
            i: int,
        | 0 <= i < peers.len() && (#[trigger] peers[i]).node_id == id by {
            if pins.contains_key(id) {
                let i = choose|i: int| 0 <= i < rest.len() && (#[trigger] rest[i]).node_id == id;
                assert(peers[i].node_id == id);
            } else {
                assert(peers[peers.len() - 1].node_id == id);
            }
        }
    }
}

/// The files of distinct nodes that each hold a certificate can all be pinned.
pub proof fn law_distinct_peers_are_pinned(peers: Seq<PeerFile>)
    requires
        forall|i: int|
            0 <= i < peers.len() ==> {
                let chain = certificates_in((#[trigger] peers[i]).certificates);
                chain is Ok && chain->Ok_0.len() > 0
            },
        forall|i: int, j: int|
            0 <= i < j < peers.len() ==> (#[trigger] peers[i]).node_id != (
            #[trigger] peers[j]).node_id,
    ensures
        pins_of(peers) is Ok,
    decreases peers.len(),
{
    if peers.len() > 0 {
        let rest = peers.drop_last();
        assert forall|i: int| 0 <= i < rest.len() implies {
            let chain = certificates_in((#[trigger] rest[i]).certificates);
            chain is Ok && chain->Ok_0.len() > 0
        } by {
            assert(rest[i] == peers[i]);
        }
        assert forall|i: int, j: int| 0 <= i < j < rest.len() implies (
        #[trigger] rest[i]).node_id != (#[trigger] rest[j]).node_id by {
            assert(rest[i] == peers[i] && rest[j] == peers[j]);
        }
        law_distinct_peers_are_pinned(rest);
        law_pins_are_first_certificates(rest);
        let last = peers[peers.len() - 1];
        assert(last == peers.last());
        if pins_of(rest)->Ok_0.contains_key(last.node_id) {
            let i = choose|i: int|
                0 <= i < rest.len() && (#[trigger] rest[i]).node_id == last.node_id;
            assert(peers[i].node_id == last.node_id);
        }
    }
}

/// A member has its TLS material exactly when every file can be read, its authorities and its own
/// chain hold a certificate each, and it is itself among the pinned nodes.
pub proof fn law_what_tls_material_takes(local_node_id: u64, files: TlsFiles)
    ensures
        match material_of(local_node_id, files) {
            Ok(material) => {
                &&& certificates_in(files.ca) matches Ok(authorities)
                &&& authorities.len() > 0
                &&& anchors_of(authorities) == Some(material.anchors)
                &&& certificates_in(files.certificates) == Ok::<_, Seq<char>>(material.chain)
                &&& material.chain.len() > 0
                &&& key_in(files.key) == Ok::<_, Seq<char>>(material.key)
                &&& pins_of(files.peers@) == Ok::<_, Seq<char>>(material.pins)
                &&& material.pins.contains_key(local_node_id)
            },
            Err(_) => {
                ||| certificates_in(files.ca) is Err
                ||| certificates_in(files.ca)->Ok_0.len() == 0
                ||| anchors_of(certificates_in(files.ca)->Ok_0) is None
                ||| certificates_in(files.certificates) is Err
                ||| certificates_in(files.certificates)->Ok_0.len() == 0
                ||| key_in(files.key) is Err
                ||| pins_of(files.peers@) is Err
                ||| !pins_of(files.peers@)->Ok_0.contains_key(local_node_id)
            },
        },
{
}

/// Every authority becomes one anchor, in the order of the bundle.
pub proof fn law_every_authority_is_an_anchor(certificates: Seq<Seq<u8>>)
    requires
        anchors_of(certificates) is Some,
    ensures
        anchors_of(certificates)->0.len() == certificates.len(),
        forall|i: int|
            0 <= i < certificates.len() ==> crate::tls_crypto::trust_anchor(
                #[trigger] certificates[i],
            ) == Some(anchors_of(certificates)->0[i]),
    decreases certificates.len(),
{
    if certificates.len() > 0 {
        let rest = certificates.drop_last();
        law_every_authority_is_an_anchor(rest);
        assert forall|i: int| 0 <= i < certificates.len() implies crate::tls_crypto::trust_anchor(
            #[trigger] certificates[i],
        ) == Some(anchors_of(certificates)->0[i]) by {
            if i < rest.len() {
                assert(rest[i] == certificates[i]);
            }
        }
    }
}

/// A handshake ends with its first failed step or with its deadline, and is established only before
/// that and only when nothing is left to be shaken.
pub proof fn law_how_handshakes_end(io: HandshakeIo, deadline_passed: bool, handshaking: bool)
    ensures
        handshake_step(io, deadline_passed, handshaking) == HandshakeStep::Established <==> io
            != HandshakeIo::Failed && !deadline_passed && !handshaking,
        handshake_step(io, deadline_passed, handshaking) == HandshakeStep::WaitAndContinue <==> io
            != HandshakeIo::Failed && !deadline_passed && handshaking,
        handshake_step(io, deadline_passed, handshaking) == HandshakeStep::Failed <==> io
            == HandshakeIo::Failed,
        handshake_step(io, deadline_passed, handshaking) == HandshakeStep::TimedOut <==> io
            != HandshakeIo::Failed && deadline_passed,
{
}

/// The names of two nodes differ.
pub proof fn law_server_names_tell_nodes_apart(first: u64, second: u64)
    requires
        server_name_text(first) == server_name_text(second),
    ensures
        first == second,
{
    let one = "node-"@ + decimal(first as nat);
    let two = "node-"@ + decimal(second as nat);
    let tail = ".agent-broker.internal"@;
    assert((one + tail).take(one.len() as int) =~= one);
    assert((one + tail).len() == one.len() + tail.len());
    assert((two + tail).len() == two.len() + tail.len());
    assert((two + tail).take(two.len() as int) =~= two);
    assert(one.skip("node-"@.len() as int) =~= decimal(first as nat));
    assert(two.skip("node-"@.len() as int) =~= decimal(second as nat));
    crate::text::lemma_decimal_injective(first as nat, second as nat);
}

/// Every probe has one status: a member that does not lead says who does, as far as that is known;
/// one that cannot confirm its lead says why; and a failed look at its own progress means that
/// consensus has stopped.
pub proof fn law_what_probes_find(trace: ProbeTrace)
    ensures
        ({
            let found = probed(trace);
            match trace.first {
                Err(_) => found.status == ClusterRaftReadinessStatus::ConsensusFailStopped
                    && found.progress is None,
                Ok(progress) => match progress.current_leader {
                    None => found.status == ClusterRaftReadinessStatus::NoLeader && found.progress
                        == Some(progress),
                    Some(leader) => if leader != trace.node_id {
                        found.status == ClusterRaftReadinessStatus::Follower && found.progress
                            == Some(progress)
                    } else if trace.remaining_is_zero || trace.confirmation
                        == Confirmation::TimedOut {
                        found.status == ClusterRaftReadinessStatus::ProbeTimedOut && found.progress
                            == Some(progress)
                    } else {
                        match trace.confirmation {
                            Confirmation::QuorumNotEnough => found.status
                                == ClusterRaftReadinessStatus::QuorumUnavailable && found.progress
                                == Some(progress),
                            Confirmation::Stopped => found.status
                                == ClusterRaftReadinessStatus::ConsensusFailStopped
                                && found.progress == Some(progress),
                            _ => match trace.second {
                                Err(_) => found.status
                                    == ClusterRaftReadinessStatus::ConsensusFailStopped
                                    && found.progress is None,
                                Ok(later) => {
                                    &&& found.progress == Some(later)
                                    &&& found.status == ClusterRaftReadinessStatus::Ready
                                        <==> trace.confirmation == Confirmation::Confirmed
                                        && later.current_leader == Some(trace.node_id)
                                    &&& found.status == ClusterRaftReadinessStatus::NoLeader
                                        <==> later.current_leader is None
                                    &&& found.status == ClusterRaftReadinessStatus::Ready
                                        || found.status == ClusterRaftReadinessStatus::NoLeader
                                        || found.status == ClusterRaftReadinessStatus::Follower
                                },
                            },
                        }
                    },
                },
            }
        }),
{
}

/// An observation that was answered is told as it was answered. One that was not is never ready.
pub proof fn law_what_observers_are_told(reply: ObservationReply)
    ensures
        match reply {
            ObservationReply::Answered(readiness) => observed_readiness(reply) == readiness,
            ObservationReply::QueueFull => observed_readiness(reply).progress is None
                && observed_readiness(reply).status
                == ClusterRaftReadinessStatus::ObservationSaturated,
            ObservationReply::Disconnected => observed_readiness(reply).progress is None
                && observed_readiness(reply).status
                == ClusterRaftReadinessStatus::ConsensusUnavailable,
            ObservationReply::TimedOut => observed_readiness(reply).progress is None
                && observed_readiness(reply).status == ClusterRaftReadinessStatus::ProbeTimedOut,
        },
{
}

/// Progress can be told exactly when the engine runs, the Broker has a term and, in a cluster, the
/// member serves its peers. A stopped engine is told as a failure of the durable state.
pub proof fn law_when_progress_can_be_told(
    committed_index: Result<Option<u64>, String>,
    broker_term: u64,
    server: Option<RpcServerLoad>,
)
    ensures
        progress_failure(committed_index, broker_term, server) is None <==> committed_index is Ok
            && broker_term > 0 && server is Some,
        one_node_progress_failure(committed_index, broker_term) is None <==> committed_index is Ok
            && broker_term > 0,
        progress_failure(committed_index, broker_term, server) matches Some(error) ==> (error.code
            == BrokerErrorCode::PersistenceError <==> committed_index is Err) && (error.code
            == BrokerErrorCode::InternalError <==> committed_index is Ok),
        one_node_progress_failure(committed_index, broker_term) matches Some(error) ==> (error.code
            == BrokerErrorCode::PersistenceError <==> committed_index is Err) && (error.code
            == BrokerErrorCode::InternalError <==> committed_index is Ok),
{
}

/// A directory without authority is told as a failure of transport.
pub proof fn law_directories_without_authority(status: ClusterRaftReadinessStatus)
    ensures
        directory_unavailable(status).code == BrokerErrorCode::TransportError,
        directory_unavailable(status).disposition == BrokerErrorDisposition::Unknown,
{
}

/// A snapshot reaches its target exactly when there is one and it covers every entry up to it.
pub proof fn law_snapshots_reach_their_target(target: Option<u64>, snapshot: Option<SnapshotMark>)
    ensures
        snapshot_reached(target, snapshot) <==> {
            &&& snapshot matches Some(mark)
            &&& target matches Some(index) ==> (mark.last_log_index matches Some(last) && index
                <= last)
        },
{
}

/// A wait ends when its condition holds, even at the deadline, and otherwise at the deadline.
pub proof fn law_how_waits_end(reached: bool, deadline_passed: bool)
    ensures
        wait_step(reached, deadline_passed) == WaitStep::Reached <==> reached,
        wait_step(reached, deadline_passed) == WaitStep::TimedOut <==> !reached && deadline_passed,
        wait_step(reached, deadline_passed) == WaitStep::PollAgain <==> !reached
            && !deadline_passed,
{
}

/// A member has caught up when it has applied every entry that is committed.
pub proof fn law_what_catching_up_means(committed: Option<u64>, applied: Option<u64>)
    ensures
        caught_up(committed, applied) <==> match (committed, applied) {
            (None, _) => true,
            (Some(_), None) => false,
            (Some(last), Some(done)) => last <= done,
        },
{
}

/// A bootstrap initializes a new cluster that it belongs to, leaves a cluster as it is that has the
/// wanted voters, and converges any other. It never initializes twice.
pub proof fn law_how_bootstraps_start(
    node_id: u64,
    desired: Seq<u64>,
    initialized: Result<bool, String>,
    voters: Seq<u64>,
)
    ensures
        match bootstrap_start(node_id, desired, initialized, voters) {
            Ok(step) => {
                &&& initialized is Ok
                &&& step == BootstrapStep::Done <==> initialized->Ok_0 && voters == desired
                &&& step == BootstrapStep::AwaitLeader <==> initialized->Ok_0 && voters != desired
                &&& step == BootstrapStep::Initialize <==> !initialized->Ok_0
                &&& step == BootstrapStep::Initialize ==> desired.contains(node_id)
            },
            Err(error) => {
                ||| initialized is Err && error.code == BrokerErrorCode::PersistenceError
                ||| initialized is Ok && !initialized->Ok_0 && !desired.contains(node_id)
                    && error.code == BrokerErrorCode::InvalidRequest
            },
        },
{
}

/// Members are changed only by a leader, and only where the voters are not as desired. A node that
/// does not lead stands for election once, and gives up where it does not win.
pub proof fn law_members_are_changed_by_the_leader(
    done: BootstrapStep,
    leads: bool,
    as_desired: bool,
)
    ensures
        next_bootstrap_step(done, leads, as_desired) == Some(BootstrapStep::AddLearners) <==> (done
            == BootstrapStep::AwaitLeader || done == BootstrapStep::AwaitElected) && leads
            && !as_desired,
        next_bootstrap_step(done, leads, as_desired) == Some(BootstrapStep::Elect) <==> done
            == BootstrapStep::AwaitLeader && !leads,
        next_bootstrap_step(done, leads, as_desired) is None <==> done
            == BootstrapStep::AwaitElected && !leads,
        next_bootstrap_step(done, leads, as_desired) == Some(BootstrapStep::Converge) <==> done
            == BootstrapStep::AddLearners,
        next_bootstrap_step(done, leads, as_desired) == Some(BootstrapStep::AwaitLeader) <==> done
            == BootstrapStep::Initialize,
        next_bootstrap_step(done, leads, as_desired) == Some(BootstrapStep::AwaitElected) <==> done
            == BootstrapStep::Elect,
        next_bootstrap_step(done, leads, as_desired) != Some(BootstrapStep::Initialize),
{
}

/// The nodes that are added are exactly those of the topology that are neither the local one nor
/// members already.
pub proof fn law_added_nodes_are_the_missing_ones(
    nodes: Seq<u64>,
    node_id: u64,
    members: Seq<u64>,
    id: u64,
)
    ensures
        missing_nodes(nodes, node_id, members).contains(id) <==> nodes.contains(id) && id != node_id
            && !members.contains(id),
    decreases nodes.len(),
{
    if nodes.len() > 0 {
        let rest = nodes.drop_last();
        let last = nodes.last();
        law_added_nodes_are_the_missing_ones(rest, node_id, members, id);
        let before = missing_nodes(rest, node_id, members);
        let all = missing_nodes(nodes, node_id, members);
        assert(nodes[nodes.len() - 1] == last);
        if nodes.contains(id) && id != last {
            let i = choose|i: int| 0 <= i < nodes.len() && nodes[i] == id;
            assert(rest[i] == id);
        }
        if rest.contains(id) {
            let i = choose|i: int| 0 <= i < rest.len() && rest[i] == id;
            assert(nodes[i] == id);
        }
        if !(last == node_id || members.contains(last)) {
            assert(all[all.len() - 1] == last);
            if before.contains(id) {
                let i = choose|i: int| 0 <= i < before.len() && before[i] == id;
                assert(all[i] == id);
            }
            if all.contains(id) && id != last {
                let i = choose|i: int| 0 <= i < all.len() && all[i] == id;
                assert(before[i] == id);
            }
        }
    }
}

/// A change that failed is reported only at the deadline; until then it is looked at again.
pub proof fn law_how_changes_are_followed(change: Result<(), String>, deadline_passed: bool)
    ensures
        match change_step(change, deadline_passed) {
            Ok(ChangeStep::Look) => change is Ok,
            Ok(ChangeStep::PauseAndLook) => change is Err && !deadline_passed,
            Err(error) => change is Err && deadline_passed && error.code
                == BrokerErrorCode::TransportError,
        },
{
}

/// A converged cluster is done, even at the deadline. One that has not converged is tried again
/// until the deadline.
pub proof fn law_how_convergence_ends(deadline_passed: bool, converged: bool)
    ensures
        match converge_step(deadline_passed, converged) {
            Ok(ConvergeStep::Done) => converged,
            Ok(ConvergeStep::TryAgain) => !converged && !deadline_passed,
            Err(error) => !converged && deadline_passed && error.code
                == BrokerErrorCode::TransportError,
        },
{
}

/// A member bootstraps only when it is asked to, syncs the term only when it leads, and runs only
/// after what is committed was applied.
pub proof fn law_how_members_start(done: Option<ClusterStartStep>, bootstrap: bool, leads: bool)
    ensures
        next_cluster_step(done, bootstrap, leads) == ClusterStartStep::Bootstrap <==> done is None
            && bootstrap,
        next_cluster_step(done, bootstrap, leads) == ClusterStartStep::AwaitApplied <==> (done
            is None && !bootstrap) || done == Some(ClusterStartStep::Bootstrap),
        next_cluster_step(done, bootstrap, leads) == ClusterStartStep::SyncTerm <==> done == Some(
            ClusterStartStep::AwaitApplied,
        ) && leads,
        next_cluster_step(done, bootstrap, leads) == ClusterStartStep::Run <==> (done == Some(
            ClusterStartStep::AwaitApplied,
        ) && !leads) || done == Some(ClusterStartStep::SyncTerm) || done == Some(
            ClusterStartStep::Run,
        ),
{
}

/// A group of one initializes a new log only, stands for election once where it does not lead, and
/// runs only after its log was applied, its term synced and no remote node was asked.
pub proof fn law_how_groups_of_one_start(
    done: Option<OneNodeStartStep>,
    initialized: bool,
    leads: bool,
)
    ensures
        next_one_node_step(done, initialized, leads) == Some(OneNodeStartStep::Initialize) <==> done
            is None && !initialized,
        next_one_node_step(done, initialized, leads) == Some(OneNodeStartStep::AwaitLeader) <==> (
        done is None && initialized) || done == Some(OneNodeStartStep::Initialize),
        next_one_node_step(done, initialized, leads) == Some(OneNodeStartStep::Elect) <==> done
            == Some(OneNodeStartStep::AwaitLeader) && !leads,
        next_one_node_step(done, initialized, leads) == Some(OneNodeStartStep::AwaitElected)
            <==> done == Some(OneNodeStartStep::Elect),
        next_one_node_step(done, initialized, leads) == Some(OneNodeStartStep::AwaitApplied)
            <==> leads && (done == Some(OneNodeStartStep::AwaitLeader) || done == Some(
            OneNodeStartStep::AwaitElected,
        )),
        next_one_node_step(done, initialized, leads) == Some(OneNodeStartStep::SyncTerm) <==> done
            == Some(OneNodeStartStep::AwaitApplied),
        next_one_node_step(done, initialized, leads) == Some(OneNodeStartStep::CheckRemote)
            <==> done == Some(OneNodeStartStep::SyncTerm),
        next_one_node_step(done, initialized, leads) == Some(OneNodeStartStep::Run) <==> done
            == Some(OneNodeStartStep::CheckRemote) || done == Some(OneNodeStartStep::Run),
        next_one_node_step(done, initialized, leads) is None <==> done == Some(
            OneNodeStartStep::AwaitElected,
        ) && !leads,
{
}

} // verus!
