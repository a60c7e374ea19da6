use agent_broker::address::SocketAddress;
use agent_broker::cluster_readiness::{
    assemble_progress, authoritative_directory, replay_probe, ClusterRaftObserver,
    ClusterRaftProgress, ClusterRaftReadiness, ClusterRaftReadinessStatus, Confirmation,
    EngineMetrics, ObservationQueue, ObservationReply, ProbeTrace, RpcServerLoad,
};
use agent_broker::command_identity::{
    CommandIdentity, CommandSequence, CommandSessionId, SessionOwnerEpoch, SessionOwnerInstanceId,
};
use agent_broker::commands::{AdvanceTermCommand, BrokerCommand, EnsureNamespaceCommand};
use agent_broker::consensus::ConsensusAdapter;
use agent_broker::debug_form::{domain_result_form, result_form};
use agent_broker::domain::{NamespaceId, Revision, Term};
use agent_broker::error::{BrokerError, BrokerErrorCode, BrokerErrorDisposition};
use agent_broker::one_node::{
    await_snapshot, conclude_one_node_proposal, ensure_no_remote_attempt, one_node_progress,
    OneNodePhase, OneNodeProposeReply, OneNodeRaftProgress, SnapshotMark,
};
use agent_broker::raft_adapters::{
    should_poison, ClusterController, ClusterRaftConsensusAdapter, OneNodeController,
    OneNodeRaftConsensusAdapter,
};
use agent_broker::raft_controller::{
    controller_error, decide_controller, ControllerAction, ControllerEvent, ControllerFault,
    RequestKind,
};
use agent_broker::raft_errors::{not_leader_error, RaftMode};
use agent_broker::raft_log::{
    check_append_batch, check_stored_index, keeps_on_purge, keeps_on_truncate, last_log_position,
    normalize_range, LogBound, LogRefusal,
};
use agent_broker::raft_proposal::{
    IdentifiedAnswer, IdentifiedJob, LeaderProposal, OwnerJob, PendingProposal, PlainJob, TermStep,
};
use agent_broker::raft_startup::{
    await_applied, await_leader, bootstrap_step, cluster_start_step, judge_change, judge_voters,
    missing_learners, one_node_start_step, plan_bootstrap, BootstrapStep, ChangeStep,
    ClusterStartStep, ConvergeStep, OneNodeStartStep, WaitStep,
};
use agent_broker::raft_state_machine::RaftBrokerObservation;
use agent_broker::replicated_command::ReplicatedBrokerCommandV1;
use agent_broker::replicated_response::{
    ReplicatedBrokerMutationResultV1, ReplicatedBrokerResponseV1, ReplicatedMutationMetadataV1,
    ReplicatedTaskStatusV1,
};
use agent_broker::results::{
    BrokerMutationResult, ConsumerGroupDirectory, MutationMetadata, TermAdvancedResult,
};
use agent_broker::rpc_server::{stop_result, AcceptEvent, AcceptStep, RaftRpcLoad};
use agent_broker::term_sync::{conclude_term_sync, plan_term_sync, TermPlan};

fn error(code: BrokerErrorCode) -> BrokerError {
    BrokerError::new(code, "failed")
}

fn progress(leader: Option<u64>) -> ClusterRaftProgress {
    ClusterRaftProgress {
        node_id: 1,
        raft_rpc_addr: SocketAddress::localhost(18_001),
        raft_rpc_queued_connections: 0,
        raft_rpc_active_connections: 0,
        raft_term: 4,
        last_log_index: Some(9),
        committed_index: Some(9),
        applied_index: Some(9),
        snapshot_index: None,
        purged_index: None,
        broker_term: Term::new(4).unwrap(),
        broker_revision: Revision::new(7),
        current_leader: leader,
        voters: vec![1, 2, 3],
        learners: Vec::new(),
    }
}

/// A queue that must not be asked.
struct ClosedQueue;

impl ObservationQueue for ClosedQueue {
    fn probe(&mut self) -> ObservationReply {
        panic!("a stopped observer asks nobody");
    }
}

/// A queue that answers once.
struct OneReply(Option<ObservationReply>);

impl ObservationQueue for OneReply {
    fn probe(&mut self) -> ObservationReply {
        self.0.take().unwrap()
    }
}

#[test]
fn readiness_fails_closed_when_consensus_fail_stop_is_latched() {
    let mut observer = ClusterRaftObserver::new(true);
    let readiness = observer.readiness(&mut ClosedQueue);
    assert_eq!(readiness.status, ClusterRaftReadinessStatus::ConsensusFailStopped);
    assert!(!readiness.is_write_ready());
    assert!(readiness.progress.is_none());
}

#[test]
fn observers_report_what_the_queue_did() {
    let ask = |reply: ObservationReply| {
        ClusterRaftObserver::new(false).readiness(&mut OneReply(Some(reply))).status
    };
    assert_eq!(
        ask(ObservationReply::QueueFull),
        ClusterRaftReadinessStatus::ObservationSaturated
    );
    assert_eq!(
        ask(ObservationReply::Disconnected),
        ClusterRaftReadinessStatus::ConsensusUnavailable
    );
    assert_eq!(ask(ObservationReply::TimedOut), ClusterRaftReadinessStatus::ProbeTimedOut);
    let ready = ClusterRaftReadiness {
        status: ClusterRaftReadinessStatus::Ready,
        progress: Some(progress(Some(1))),
    };
    assert_eq!(ask(ObservationReply::Answered(ready)), ClusterRaftReadinessStatus::Ready);
    assert_eq!(ClusterRaftReadinessStatus::ProbeTimedOut.as_str(), "probe_timed_out");
}

#[test]
fn only_a_twice_seen_confirmed_leader_is_ready() {
    let probe = |first: Option<u64>, zero: bool, confirmation: Confirmation, second: Option<u64>| {
        replay_probe(ProbeTrace {
            node_id: 1,
            first: Ok(progress(first)),
            remaining_is_zero: zero,
            confirmation,
            second: Ok(progress(second)),
        })
        .status
    };
    let yes = Confirmation::Confirmed;
    assert_eq!(probe(Some(1), false, yes, Some(1)), ClusterRaftReadinessStatus::Ready);
    assert_eq!(probe(Some(2), false, yes, Some(1)), ClusterRaftReadinessStatus::Follower);
    assert_eq!(probe(None, false, yes, Some(1)), ClusterRaftReadinessStatus::NoLeader);
    assert_eq!(probe(Some(1), true, yes, Some(1)), ClusterRaftReadinessStatus::ProbeTimedOut);
    assert_eq!(
        probe(Some(1), false, Confirmation::QuorumNotEnough, Some(1)),
        ClusterRaftReadinessStatus::QuorumUnavailable
    );
    assert_eq!(probe(Some(1), false, yes, Some(3)), ClusterRaftReadinessStatus::Follower);
}

#[test]
fn directories_are_read_from_a_ready_leader_only() {
    let directory = || ConsumerGroupDirectory {
        term: Term::initial(),
        revision: Revision::new(1),
        groups: Vec::new(),
    };
    let with = |status: ClusterRaftReadinessStatus| ClusterRaftReadiness { status, progress: None };
    assert!(
        authoritative_directory(&with(ClusterRaftReadinessStatus::Ready), directory()).is_ok()
    );
    assert!(
        authoritative_directory(&with(ClusterRaftReadinessStatus::Follower), directory()).is_err()
    );
}

#[test]
fn progress_needs_a_server_and_a_term() {
    let metrics = || EngineMetrics {
        raft_term: 4,
        last_log_index: Some(9),
        snapshot_index: None,
        purged_index: None,
        current_leader: Some(1),
        voters: vec![1, 2, 3],
        learners: Vec::new(),
    };
    let server = || {
        Some(RpcServerLoad {
            local_addr: SocketAddress::localhost(18_001),
            queued_connections: 0,
            active_connections: 0,
        })
    };
    let observed = RaftBrokerObservation::new(4, 7, Some(9));
    let shown = assemble_progress(1, metrics(), Ok(Some(9)), &observed, server());
    assert_eq!(shown.ok().unwrap(), progress(Some(1)));
    let no_server = assemble_progress(1, metrics(), Ok(Some(9)), &observed, None);
    assert_eq!(no_server.err().unwrap().code(), BrokerErrorCode::InternalError);
    let no_term = RaftBrokerObservation::new(0, 7, Some(9));
    assert!(assemble_progress(1, metrics(), Ok(None), &no_term, server()).is_err());
    let stopped = assemble_progress(1, metrics(), Err("gone".to_owned()), &observed, server());
    assert_eq!(stopped.err().unwrap().code(), BrokerErrorCode::PersistenceError);
}

fn advanced() -> ReplicatedBrokerResponseV1 {
    ReplicatedBrokerResponseV1::Success(ReplicatedBrokerMutationResultV1::TermAdvanced {
        metadata: ReplicatedMutationMetadataV1 { term: 4, revision: 8 },
    })
}

#[test]
fn the_broker_term_follows_the_raft_term() {
    assert_eq!(plan_term_sync(RaftMode::Cluster, Ok(4), 4), Ok(TermPlan::Synced));
    match plan_term_sync(RaftMode::Cluster, Ok(4), 3) {
        Ok(TermPlan::Advance(proposal)) => assert_eq!(
            proposal.command(),
            &ReplicatedBrokerCommandV1::AdvanceTerm { expected_term: 3, new_term: 4 }
        ),
        other => panic!("unexpected plan: {other:?}"),
    }
    let behind = plan_term_sync(RaftMode::OneNode, Ok(2), 3).err().unwrap();
    assert_eq!(behind.code(), BrokerErrorCode::PersistenceError);
    assert_eq!(behind.message(), "Raft term 2 is behind committed Broker term 3");
    assert!(plan_term_sync(RaftMode::Cluster, Ok(2), 0).is_err());
    assert!(plan_term_sync(RaftMode::Cluster, Err("gone".to_owned()), 3).is_err());
    assert_eq!(conclude_term_sync(RaftMode::Cluster, Ok(advanced())), Ok(()));
    assert!(
        conclude_term_sync(RaftMode::Cluster, Ok(ReplicatedBrokerResponseV1::RaftControl)).is_err()
    );
    assert!(conclude_term_sync(RaftMode::Cluster, Err("gone".to_owned())).is_err());
}

fn ensure() -> BrokerCommand {
    BrokerCommand::EnsureNamespace(EnsureNamespaceCommand {
        namespace_id: NamespaceId::new("n").unwrap(),
        max_namespaces: 4,
    })
}

#[test]
fn a_follower_proposes_nothing() {
    let job = PlainJob { mode: RaftMode::Cluster, command: ensure() };
    let refused = PendingProposal::new(1, job).leader_observed(Some(2)).err().unwrap();
    assert_eq!(refused.message(), "cluster node 1 is not leader; current leader is 2");
    assert_eq!(
        not_leader_error(1, None).message(),
        "cluster node 1 is not leader and no current leader is known"
    );
}

#[test]
fn a_leader_proposes_once_the_terms_agree() {
    let job = PlainJob { mode: RaftMode::OneNode, command: ensure() };
    let step = LeaderProposal::one_node(job).terms_observed(Ok(4), 3).ok().unwrap();
    let ready = match step {
        TermStep::Advance(advancing, _) => advancing.advance_answered(Ok(advanced())).ok().unwrap(),
        TermStep::Ready(_) => panic!("the terms differ"),
    };
    let (proposal, submission) = ready.submit();
    assert!(proposal.identity().is_none());
    let told = submission.answered(Ok(advanced())).ok().unwrap();
    assert!(matches!(told, BrokerMutationResult::TermAdvanced(_)));
}

#[test]
fn an_identified_write_without_an_answer_has_an_unknown_outcome() {
    let submit = || {
        let job = IdentifiedJob {
            identity: CommandIdentity::new(
                CommandSessionId::new("s").unwrap(),
                CommandSequence::new(3).unwrap(),
            ),
            command: ensure(),
        };
        let leader = PendingProposal::new(1, job).leader_observed(Some(1)).ok().unwrap();
        match leader.terms_observed(Ok(4), 4).ok().unwrap() {
            TermStep::Ready(ready) => ready.submit(),
            TermStep::Advance(..) => panic!("the terms agree"),
        }
    };
    let (proposal, submission) = submit();
    assert_eq!(proposal.identity().unwrap().sequence(), 3);
    let lost = submission.answered(IdentifiedAnswer::TimedOut).err().unwrap();
    assert_eq!(lost.code(), BrokerErrorCode::CommitOutcomeUnknown);
    assert_eq!(lost.disposition(), BrokerErrorDisposition::Unknown);
    let (_, submission) = submit();
    assert!(submission.answered(IdentifiedAnswer::Committed(advanced())).is_ok());
    let (_, submission) = submit();
    assert!(submission.answered(IdentifiedAnswer::Stopped("gone".to_owned())).is_err());
    let (_, submission) = submit();
    assert!(submission.answered(IdentifiedAnswer::Dropped("gone".to_owned())).is_err());
    let (_, submission) = submit();
    assert!(submission.answered(IdentifiedAnswer::Refused("no".to_owned())).is_err());
}

#[test]
fn an_owner_acquisition_reports_the_acquired_epoch() {
    let submit = || {
        let job = OwnerJob {
            session_id: CommandSessionId::new("s").unwrap(),
            expected_owner_epoch: SessionOwnerEpoch::initial(),
            owner_instance_id: SessionOwnerInstanceId::new("o").unwrap(),
        };
        let leader = PendingProposal::new(1, job).leader_observed(Some(1)).ok().unwrap();
        match leader.terms_observed(Ok(4), 4).ok().unwrap() {
            TermStep::Ready(ready) => ready.submit(),
            TermStep::Advance(..) => panic!("the terms agree"),
        }
    };
    let (proposal, submission) = submit();
    assert_eq!(
        proposal.command(),
        &ReplicatedBrokerCommandV1::AcquireCommandSessionOwner {
            session_id: "s".to_owned(),
            expected_owner_epoch: 1,
            owner_instance_id: "o".to_owned(),
        }
    );
    let acquired = ReplicatedBrokerResponseV1::SessionOwnerAcquired { owner_epoch: 2 };
    assert_eq!(submission.answered(Ok(acquired)).ok().unwrap().get(), 2);
    let (_, submission) = submit();
    let unexpected = submission.answered(Ok(advanced())).err().unwrap();
    assert_eq!(
        unexpected.message(),
        format!(
            "command-session owner acquisition returned unexpected response: {:?}",
            advanced()
        )
    );
}

#[test]
fn a_member_starts_step_by_step() {
    assert_eq!(await_leader(1, Some(1), true), WaitStep::Reached);
    assert_eq!(await_leader(1, Some(2), false), WaitStep::PollAgain);
    assert_eq!(await_leader(1, None, true), WaitStep::TimedOut);
    assert_eq!(await_applied(RaftMode::Cluster, Some(5), Some(5), false), Ok(true));
    assert_eq!(await_applied(RaftMode::Cluster, Some(5), Some(4), false), Ok(false));
    assert!(await_applied(RaftMode::Cluster, Some(5), None, true).is_err());
    assert_eq!(await_applied(RaftMode::OneNode, None, None, true), Ok(true));

    let three = vec![1, 2, 3];
    assert_eq!(plan_bootstrap(1, &three, Ok(true), &three), Ok(BootstrapStep::Done));
    assert_eq!(plan_bootstrap(1, &three, Ok(true), &vec![1]), Ok(BootstrapStep::AwaitLeader));
    assert_eq!(plan_bootstrap(1, &three, Ok(false), &vec![]), Ok(BootstrapStep::Initialize));
    assert!(plan_bootstrap(9, &three, Ok(false), &vec![]).is_err());
    assert!(plan_bootstrap(1, &three, Err("gone".to_owned()), &vec![]).is_err());
    assert_eq!(
        bootstrap_step(1, BootstrapStep::Initialize, false, &three, &vec![]),
        Ok(BootstrapStep::AwaitLeader)
    );
    assert_eq!(
        bootstrap_step(1, BootstrapStep::AwaitLeader, false, &three, &vec![1]),
        Ok(BootstrapStep::Elect)
    );
    assert_eq!(
        bootstrap_step(1, BootstrapStep::AwaitElected, true, &three, &vec![1]),
        Ok(BootstrapStep::AddLearners)
    );
    assert_eq!(
        bootstrap_step(1, BootstrapStep::AwaitElected, true, &three, &three),
        Ok(BootstrapStep::Done)
    );
    assert_eq!(
        bootstrap_step(1, BootstrapStep::AddLearners, true, &three, &vec![1]),
        Ok(BootstrapStep::Converge)
    );
    let refused = bootstrap_step(7, BootstrapStep::AwaitElected, false, &three, &vec![1]);
    assert_eq!(
        refused.err().unwrap().message(),
        "cluster bootstrap node 7 did not become leader before the deadline"
    );
    assert_eq!(missing_learners(&three, 1, &vec![1, 3]), vec![2]);

    let failed = || Err("busy".to_owned());
    assert_eq!(judge_change(Ok(()), false), Ok(ChangeStep::Look));
    assert_eq!(judge_change(Ok(()), true), Ok(ChangeStep::Look));
    assert_eq!(judge_change(failed(), false), Ok(ChangeStep::PauseAndLook));
    assert_eq!(
        judge_change(failed(), true).err().unwrap().message(),
        "cluster Raft change cluster membership failed: busy"
    );
    assert_eq!(judge_voters(false, true), Ok(ConvergeStep::Done));
    assert_eq!(judge_voters(true, true), Ok(ConvergeStep::Done));
    assert_eq!(judge_voters(false, false), Ok(ConvergeStep::TryAgain));
    assert_eq!(
        judge_voters(true, false).err().unwrap().message(),
        "cluster membership did not converge to three voters before the deadline"
    );
}

#[test]
fn starts_end_with_a_running_member() {
    assert_eq!(cluster_start_step(None, true, false), ClusterStartStep::Bootstrap);
    assert_eq!(cluster_start_step(None, false, false), ClusterStartStep::AwaitApplied);
    assert_eq!(
        cluster_start_step(Some(ClusterStartStep::AwaitApplied), false, true),
        ClusterStartStep::SyncTerm
    );
    assert_eq!(
        cluster_start_step(Some(ClusterStartStep::AwaitApplied), false, false),
        ClusterStartStep::Run
    );
    let mut done: Option<OneNodeStartStep> = None;
    let mut steps: Vec<OneNodeStartStep> = Vec::new();
    while done != Some(OneNodeStartStep::Run) {
        let next = one_node_start_step(done, false, true).ok().unwrap();
        steps.push(next);
        done = Some(next);
        assert!(steps.len() < 10);
    }
    assert_eq!(steps.first(), Some(&OneNodeStartStep::Initialize));
    assert_eq!(steps.last(), Some(&OneNodeStartStep::Run));
}

fn one_node(remote: u64) -> OneNodeRaftProgress {
    OneNodeRaftProgress {
        raft_term: 2,
        last_log_index: Some(3),
        committed_index: Some(3),
        applied_index: Some(3),
        broker_term: Term::new(2).unwrap(),
        broker_revision: Revision::new(1),
        current_leader: Some(1),
        remote_attempt_count: remote,
    }
}

fn term_result() -> BrokerMutationResult {
    BrokerMutationResult::TermAdvanced(TermAdvancedResult {
        metadata: MutationMetadata { term: Term::new(2).unwrap(), revision: Revision::new(1) },
    })
}

#[test]
fn a_one_node_group_never_calls_out() {
    assert_eq!(ensure_no_remote_attempt(OneNodePhase::Startup, 0), Ok(()));
    assert!(ensure_no_remote_attempt(OneNodePhase::Startup, 1).is_err());
    assert!(conclude_one_node_proposal(Ok(term_result()), one_node(0)).is_ok());
    assert!(conclude_one_node_proposal(Ok(term_result()), one_node(1)).is_err());
    let observed = RaftBrokerObservation::new(2, 1, Some(3));
    assert_eq!(
        one_node_progress(2, Some(3), Some(1), Ok(Some(3)), &observed, 0),
        Ok(one_node(0))
    );
    assert_eq!(await_snapshot(Some(3), Some(SnapshotMark { last_log_index: Some(3) }), false), Ok(true));
    assert_eq!(await_snapshot(Some(3), None, false), Ok(false));
    assert!(await_snapshot(Some(3), None, true).is_err());
}

/// A cluster controller that answers every proposal alike.
struct FixedController {
    answer: Result<Result<BrokerMutationResult, BrokerError>, BrokerError>,
    asked: usize,
    latched: bool,
}

impl ClusterController for FixedController {
    fn is_fail_stopped(&self) -> bool {
        self.latched
    }

    fn latch_fail_stop(&mut self) {
        self.latched = true;
    }

    fn observed_term(&self) -> Option<Term> {
        Some(Term::new(4).unwrap())
    }

    fn observed_revision(&self) -> Revision {
        Revision::new(7)
    }

    fn propose(
        &mut self,
        _command: BrokerCommand,
    ) -> Result<Result<BrokerMutationResult, BrokerError>, BrokerError> {
        self.asked += 1;
        self.answer.clone()
    }

    fn propose_identified(
        &mut self,
        _identity: CommandIdentity,
        command: BrokerCommand,
    ) -> Result<Result<BrokerMutationResult, BrokerError>, BrokerError> {
        self.propose(command)
    }

    fn acquire_command_session_owner(
        &mut self,
        _session_id: CommandSessionId,
        _expected_owner_epoch: SessionOwnerEpoch,
        _owner_instance_id: SessionOwnerInstanceId,
    ) -> Result<Result<SessionOwnerEpoch, BrokerError>, BrokerError> {
        Ok(Ok(SessionOwnerEpoch::initial()))
    }

    fn progress(&mut self) -> Result<Result<ClusterRaftProgress, BrokerError>, BrokerError> {
        Ok(Ok(progress(Some(1))))
    }

    fn group_directory(
        &mut self,
    ) -> Result<Result<ConsumerGroupDirectory, BrokerError>, BrokerError> {
        Ok(Err(error(BrokerErrorCode::TransportError)))
    }
}

#[test]
fn a_cluster_adapter_stops_after_an_engine_failure() {
    let with = |answer| {
        ClusterRaftConsensusAdapter::new(1, FixedController { answer, asked: 0, latched: false })
    };
    let mut business = with(Ok(Err(error(BrokerErrorCode::Conflict))));
    assert!(business.propose(ensure()).is_err());
    assert!(!business.is_fail_stopped());
    assert_eq!(business.term(), Term::new(4).unwrap());
    assert_eq!(business.maintenance_authority(), Ok(true));

    let mut stopped = with(Ok(Err(error(BrokerErrorCode::PersistenceError))));
    assert!(stopped.propose(ensure()).is_err());
    assert!(stopped.is_fail_stopped());
    let again = stopped.propose(ensure()).err().unwrap();
    assert_eq!(again.code(), BrokerErrorCode::PersistenceError);
    let controller = stopped.into_controller();
    assert_eq!(controller.asked, 1);
    assert!(controller.latched);
    let mut seen = ClusterRaftConsensusAdapter::new(1, controller);
    assert!(!seen.is_fail_stopped());
    assert!(seen.propose(ensure()).is_err());
    assert!(seen.progress().is_err());
    assert_eq!(seen.into_controller().asked, 1);

    let mut gone = with(Err(error(BrokerErrorCode::PersistenceError)));
    assert!(gone.propose(ensure()).is_err());
    assert!(gone.is_fail_stopped());

    let mut term = with(Ok(Ok(term_result())));
    let refused = term.propose(BrokerCommand::AdvanceTerm(AdvanceTermCommand {
        expected_term: Term::initial(),
        new_term: Term::new(2).unwrap(),
    }));
    assert_eq!(refused.err().unwrap().code(), BrokerErrorCode::InvalidRequest);
    assert_eq!(term.into_controller().asked, 0);
    assert!(should_poison(&error(BrokerErrorCode::InternalError)));
    assert!(!should_poison(&error(BrokerErrorCode::TransportError)));
}

/// A one-node controller that answers every proposal alike.
struct FixedOneNode {
    failed: bool,
}

impl OneNodeController for FixedOneNode {
    fn propose(
        &mut self,
        _command: BrokerCommand,
    ) -> Result<Result<OneNodeProposeReply, BrokerError>, BrokerError> {
        if self.failed {
            return Ok(Err(error(BrokerErrorCode::InternalError)));
        }
        let progress = OneNodeRaftProgress { broker_revision: Revision::new(8), ..one_node(0) };
        Ok(Ok(OneNodeProposeReply { result: Ok(term_result()), progress }))
    }

    fn progress(&mut self) -> Result<Result<OneNodeRaftProgress, BrokerError>, BrokerError> {
        Ok(Ok(one_node(0)))
    }

    fn trigger_snapshot(
        &mut self,
    ) -> Result<Result<OneNodeRaftProgress, BrokerError>, BrokerError> {
        Ok(Ok(one_node(0)))
    }
}

#[test]
fn a_one_node_adapter_shows_what_was_committed_last() {
    let mut adapter =
        OneNodeRaftConsensusAdapter::new(FixedOneNode { failed: false }, one_node(0));
    assert_eq!(adapter.revision(), Revision::new(1));
    assert!(adapter.propose(ensure()).is_ok());
    assert_eq!(adapter.revision(), Revision::new(8));
    assert!(adapter.trigger_snapshot().is_ok());
    let mut failing =
        OneNodeRaftConsensusAdapter::new(FixedOneNode { failed: true }, one_node(0));
    assert!(failing.propose(ensure()).is_err());
    assert!(failing.is_poisoned());
    assert!(failing.progress().is_err());
}

#[test]
fn log_ranges_and_batches_are_normalized() {
    assert_eq!(normalize_range(LogBound::Unbounded, LogBound::Unbounded), Ok(Some((0, None))));
    assert_eq!(
        normalize_range(LogBound::Excluded(2), LogBound::Included(5)),
        Ok(Some((3, Some(6))))
    );
    assert_eq!(normalize_range(LogBound::Included(5), LogBound::Excluded(5)), Ok(None));
    assert_eq!(
        normalize_range(LogBound::Excluded(u64::MAX), LogBound::Unbounded),
        Err(LogRefusal::RangeStartOverflow)
    );
    assert_eq!(check_append_batch(&vec![4, 5, 6]), Ok(()));
    assert_eq!(check_append_batch(&vec![4, 6]), Err(LogRefusal::IndexHole));
    assert_eq!(check_stored_index(4, 4), Ok(()));
    assert_eq!(
        check_stored_index(4, 5).err().unwrap().message(),
        "Raft log key/index mismatch: key=4, entry=5"
    );
    assert_eq!(last_log_position(Some((4, 4, "e")), Some("p")), Ok(Some("e")));
    assert_eq!(last_log_position(None, Some("p")), Ok(Some("p")));
    assert_eq!(
        last_log_position(Some((4, 5, "e")), None),
        Err(LogRefusal::LastIndexMismatch)
    );
    assert!(keeps_on_truncate(3, 4) && !keeps_on_truncate(4, 4));
    assert!(keeps_on_purge(5, 4) && !keeps_on_purge(4, 4));
}

#[test]
fn controllers_stop_their_engine_before_they_end() {
    let request = |kind: RequestKind, deadline_passed: bool| {
        decide_controller(ControllerEvent::Request { kind, deadline_passed })
    };
    assert_eq!(
        request(RequestKind::Propose, true),
        ControllerAction::Serve(RequestKind::Propose)
    );
    assert_eq!(
        request(RequestKind::Readiness, false),
        ControllerAction::Serve(RequestKind::Readiness)
    );
    assert!(matches!(
        request(RequestKind::Readiness, true),
        ControllerAction::ReplyReadiness(_)
    ));
    assert_eq!(request(RequestKind::Shutdown, false), ControllerAction::StopAndReply);
    assert_eq!(decide_controller(ControllerEvent::Disconnected), ControllerAction::StopAndEnd);
    assert_eq!(decide_controller(ControllerEvent::StarterGone), ControllerAction::StopAndEnd);
    let fault = controller_error(RaftMode::Cluster, ControllerFault::Unavailable, "full");
    assert_eq!(fault.message(), "cluster Raft controller is unavailable: full");
    assert_eq!(fault.code(), BrokerErrorCode::PersistenceError);
}

#[test]
fn the_rpc_server_counts_its_connections() {
    let mut load = RaftRpcLoad::idle();
    assert_eq!(load.accepted(AcceptEvent::Queued), AcceptStep::AcceptNext);
    assert_eq!(load.accepted(AcceptEvent::Queued), AcceptStep::AcceptNext);
    assert_eq!(load.accepted(AcceptEvent::QueueFull), AcceptStep::CloseConnection);
    assert_eq!(load.accepted(AcceptEvent::Nothing), AcceptStep::Pause);
    assert_eq!(load.accepted(AcceptEvent::WorkersGone), AcceptStep::FailWorkersGone);
    assert_eq!(load.accepted(AcceptEvent::Failed), AcceptStep::FailListener);
    assert_eq!(load, RaftRpcLoad { queued_connections: 2, active_connections: 0 });
    assert!(load.taken(false));
    assert!(!load.taken(true));
    assert_eq!(load, RaftRpcLoad { queued_connections: 0, active_connections: 1 });
    load.served();
    assert_eq!(load, RaftRpcLoad::idle());
    assert_eq!(stop_result(Ok(()), vec![Ok(()), Ok(())]), Ok(()));
    assert_eq!(
        stop_result(Ok(()), vec![Err("a".to_owned()), Ok(())]),
        Err("a".to_owned())
    );
    assert_eq!(
        stop_result(Err("l".to_owned()), vec![Err("a".to_owned())]),
        Err("l".to_owned())
    );
}

#[test]
fn unexpected_answers_are_written_out() {
    let metadata = ReplicatedMutationMetadataV1 { term: 2, revision: 9 };
    let claim = ReplicatedBrokerMutationResultV1::TaskClaim {
        metadata,
        task_id: Some("task-1".to_owned()),
        objective: Some("say \"hi\"\n".to_owned()),
        task_revision: Some(3),
        lease_id: Some("lease-1".to_owned()),
        lease_epoch: Some(1),
        lease_expires_at_ms: None,
        generation: 5,
    };
    assert_eq!(
        domain_result_form(&claim),
        "TaskClaim(TaskClaimResult { metadata: MutationMetadata { term: Term(2), revision: \
         Revision(9) }, task_id: Some(TaskId(\"task-1\")), objective: \
         Some(TaskObjective(\"say \\\"hi\\\"\\n\")), task_revision: Some(Revision(3)), lease_id: \
         Some(LeaseId(\"lease-1\")), lease_epoch: Some(LeaseEpoch(1)), lease_expires_at_ms: None, \
         generation: Generation(5) })"
    );
    let completed = ReplicatedBrokerMutationResultV1::TaskCompleted {
        metadata,
        task_id: "task-1".to_owned(),
        task_revision: 4,
        status: ReplicatedTaskStatusV1::Completed,
    };
    let namespace = || ReplicatedBrokerMutationResultV1::Namespace {
        metadata,
        namespace_id: "a".to_owned(),
        namespace_revision: 1,
    };
    for result in [claim, completed, namespace()] {
        assert_eq!(result_form(&result), format!("{result:?}"));
    }
    let error = conclude_term_sync(
        RaftMode::Cluster,
        Ok(ReplicatedBrokerResponseV1::Success(namespace())),
    );
    assert_eq!(
        error.err().unwrap().message(),
        "cluster term synchronization returned unexpected result: Namespace(NamespaceResult { \
         metadata: MutationMetadata { term: Term(2), revision: Revision(9) }, namespace_id: \
         NamespaceId(\"a\"), namespace_revision: Revision(1) })"
    );
}
