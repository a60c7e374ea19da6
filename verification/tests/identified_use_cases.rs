use agent_broker::command_identity::{CommandIdentity, CommandSequence, CommandSessionId};
use agent_broker::commands::{
    BrokerCommand, ClaimTaskCommand, CompleteTaskCommand, EnsureConsumerGroupCommand,
    EnsureNamespaceCommand, HeartbeatCommand, JoinConsumerGroupCommand, LeaveConsumerGroupCommand,
    PruneCompletedTasksCommand, PublishTaskCommand, ReapStaleMembersCommand, RenewTaskLeaseCommand,
};
use agent_broker::consensus::ConsensusAdapter;
use agent_broker::domain::{
    BrokerCapacityPolicy, Capabilities, ConsumerGroupId, ConsumerId, Generation, LeaseDurationMs,
    LeaseEpoch, LeaseId, NamespaceId, PruneTaskLimit, ReapMemberLimit, Revision, TaskId,
    TaskObjective, TaskResult, Term, TimestampMs,
};
use agent_broker::error::{BrokerError, BrokerErrorCode};
use agent_broker::results::{
    BrokerMutationResult, CompletedTasksPrunedResult, MutationMetadata, StaleMembersReapedResult,
};
use agent_broker::service::{
    BrokerApplicationService, ClaimTaskInput, CompleteTaskInput, RenewTaskLeaseInput,
};

/// Consensus that keeps what it is handed and answers with one result.
struct RecordingConsensus {
    proposed: Vec<(Option<u64>, BrokerCommand)>,
    answer: Result<BrokerMutationResult, BrokerError>,
}

impl ConsensusAdapter for RecordingConsensus {
    fn term(&self) -> Term {
        Term::initial()
    }

    fn revision(&self) -> Revision {
        Revision::new(9)
    }

    fn propose(&mut self, command: BrokerCommand) -> Result<BrokerMutationResult, BrokerError> {
        self.proposed.push((None, command));
        self.answer.clone()
    }

    fn propose_identified(
        &mut self,
        identity: CommandIdentity,
        command: BrokerCommand,
    ) -> Result<BrokerMutationResult, BrokerError> {
        self.proposed.push((Some(identity.sequence().get()), command));
        self.answer.clone()
    }
}

fn metadata() -> MutationMetadata {
    MutationMetadata { term: Term::initial(), revision: Revision::new(9) }
}

fn service(
    answer: Result<BrokerMutationResult, BrokerError>,
) -> BrokerApplicationService<RecordingConsensus> {
    let capacity = BrokerCapacityPolicy::new(11, 12, 13, 14).unwrap();
    BrokerApplicationService::new(RecordingConsensus { proposed: Vec::new(), answer }, capacity)
}

fn refused() -> Result<BrokerMutationResult, BrokerError> {
    Err(BrokerError::new(BrokerErrorCode::CommitOutcomeUnknown, "no answer in time"))
}

fn identity(sequence: u64) -> CommandIdentity {
    CommandIdentity::new(
        CommandSessionId::new("session-a").unwrap(),
        CommandSequence::new(sequence).unwrap(),
    )
}

fn namespace() -> NamespaceId {
    NamespaceId::new("project-a").unwrap()
}

fn group() -> ConsumerGroupId {
    ConsumerGroupId::new("engineering").unwrap()
}

fn member() -> ConsumerId {
    ConsumerId::new("worker-a").unwrap()
}

fn task() -> TaskId {
    TaskId::new("task-1").unwrap()
}

fn lease() -> LeaseId {
    LeaseId::new("lease-1").unwrap()
}

fn objective() -> TaskObjective {
    TaskObjective::new("build it").unwrap()
}

fn at(time: u64) -> TimestampMs {
    TimestampMs::new(time)
}

#[test]
fn identified_use_cases_hand_over_their_command_and_the_capacity_limits() {
    let mut service = service(refused());
    let capabilities = Capabilities::new(&vec!["rust".to_owned(), "review".to_owned()]).unwrap();
    assert!(service.ensure_namespace_identified(identity(1), namespace()).is_err());
    assert!(service
        .publish_task_identified(identity(2), namespace(), task(), objective(), at(20))
        .is_err());
    assert!(service.ensure_consumer_group_identified(identity(3), namespace(), group()).is_err());
    assert!(service
        .join_consumer_group_identified(identity(4), group(), member(), capabilities, at(40))
        .is_err());
    assert!(service
        .heartbeat_identified(identity(5), group(), member(), Generation::new(2), at(50))
        .is_err());
    assert!(service
        .leave_consumer_group_identified(identity(6), group(), member(), Generation::new(3))
        .is_err());

    let proposed = service.into_consensus().proposed;
    let expected = vec![
        (
            Some(1),
            BrokerCommand::EnsureNamespace(EnsureNamespaceCommand {
                namespace_id: namespace(),
                max_namespaces: 11,
            }),
        ),
        (
            Some(2),
            BrokerCommand::PublishTask(PublishTaskCommand {
                namespace_id: namespace(),
                task_id: task(),
                objective: objective(),
                created_at_ms: at(20),
                max_namespace_tasks: 12,
            }),
        ),
        (
            Some(3),
            BrokerCommand::EnsureConsumerGroup(EnsureConsumerGroupCommand {
                namespace_id: namespace(),
                group_id: group(),
                max_namespace_groups: 13,
            }),
        ),
        (
            Some(4),
            BrokerCommand::JoinConsumerGroup(JoinConsumerGroupCommand {
                group_id: group(),
                member_id: member(),
                capabilities: Capabilities::new(&vec!["rust".to_owned(), "review".to_owned()])
                    .unwrap(),
                now_ms: at(40),
                max_group_members: 14,
            }),
        ),
        (
            Some(5),
            BrokerCommand::Heartbeat(HeartbeatCommand {
                group_id: group(),
                member_id: member(),
                expected_generation: Generation::new(2),
                now_ms: at(50),
            }),
        ),
        (
            Some(6),
            BrokerCommand::LeaveConsumerGroup(LeaveConsumerGroupCommand {
                group_id: group(),
                member_id: member(),
                expected_generation: Generation::new(3),
            }),
        ),
    ];
    assert_eq!(proposed, expected);
}

#[test]
fn identified_lease_use_cases_carry_every_fence() {
    let mut service = service(refused());
    let claim = ClaimTaskInput {
        group_id: group(),
        member_id: member(),
        expected_term: Term::new(3).unwrap(),
        expected_generation: Generation::new(4),
        lease_id: lease(),
        now_ms: at(60),
        lease_duration: LeaseDurationMs::new(5_000).unwrap(),
    };
    let renew = RenewTaskLeaseInput {
        task_id: task(),
        group_id: group(),
        member_id: member(),
        expected_term: Term::new(3).unwrap(),
        expected_generation: Generation::new(4),
        expected_lease_epoch: LeaseEpoch::new(2),
        lease_id: lease(),
        now_ms: at(70),
        lease_duration: LeaseDurationMs::new(6_000).unwrap(),
    };
    let complete = CompleteTaskInput {
        task_id: task(),
        group_id: group(),
        member_id: member(),
        expected_term: Term::new(3).unwrap(),
        expected_generation: Generation::new(4),
        expected_lease_epoch: LeaseEpoch::new(2),
        lease_id: lease(),
        result: TaskResult::new("done").unwrap(),
        completed_at_ms: at(80),
    };
    assert!(service.claim_task_identified(identity(1), claim).is_err());
    assert!(service.renew_task_lease_identified(identity(2), renew).is_err());
    let error = service.complete_task_identified(identity(3), complete).err().unwrap();
    assert_eq!(error.code(), BrokerErrorCode::CommitOutcomeUnknown);
    assert_eq!(error.message(), "no answer in time");

    let proposed = service.into_consensus().proposed;
    let expected = vec![
        (
            Some(1),
            BrokerCommand::ClaimTask(ClaimTaskCommand {
                group_id: group(),
                member_id: member(),
                expected_term: Term::new(3).unwrap(),
                expected_generation: Generation::new(4),
                lease_id: lease(),
                now_ms: at(60),
                lease_duration_ms: 5_000,
            }),
        ),
        (
            Some(2),
            BrokerCommand::RenewTaskLease(RenewTaskLeaseCommand {
                task_id: task(),
                group_id: group(),
                member_id: member(),
                expected_term: Term::new(3).unwrap(),
                expected_generation: Generation::new(4),
                expected_lease_epoch: LeaseEpoch::new(2),
                lease_id: lease(),
                now_ms: at(70),
                lease_duration_ms: 6_000,
            }),
        ),
        (
            Some(3),
            BrokerCommand::CompleteTask(CompleteTaskCommand {
                task_id: task(),
                group_id: group(),
                member_id: member(),
                expected_term: Term::new(3).unwrap(),
                expected_generation: Generation::new(4),
                expected_lease_epoch: LeaseEpoch::new(2),
                lease_id: lease(),
                result: TaskResult::new("done").unwrap(),
                completed_at_ms: at(80),
            }),
        ),
    ];
    assert_eq!(proposed, expected);
}

#[test]
fn maintenance_use_cases_are_bounded_and_report_their_counts() {
    let mut reaping = service(Ok(BrokerMutationResult::StaleMembersReaped(
        StaleMembersReapedResult {
            metadata: metadata(),
            reaped_count: 2,
            affected_group_count: 1,
        },
    )));
    let reaped = reaping.reap_stale_members(at(100), ReapMemberLimit::new(7).unwrap()).unwrap();
    assert_eq!((reaped.reaped_count, reaped.affected_group_count), (2, 1));
    assert_eq!(
        reaping.into_consensus().proposed,
        vec![(
            None,
            BrokerCommand::ReapStaleMembers(ReapStaleMembersCommand {
                stale_before_ms: at(100),
                max_members: 7,
            }),
        )]
    );

    let mut pruning = service(Ok(BrokerMutationResult::CompletedTasksPruned(
        CompletedTasksPrunedResult { metadata: metadata(), pruned_count: 5 },
    )));
    let pruned = pruning.prune_completed_tasks(at(200), PruneTaskLimit::new(8).unwrap()).unwrap();
    assert_eq!(pruned.pruned_count, 5);
    assert!(pruning.reap_stale_members(at(100), ReapMemberLimit::new(7).unwrap()).is_err());
    assert_eq!(
        pruning.into_consensus().proposed[0],
        (
            None,
            BrokerCommand::PruneCompletedTasks(PruneCompletedTasksCommand {
                completed_before_ms: at(200),
                max_tasks: 8,
            }),
        )
    );
    assert!(ReapMemberLimit::new(0).is_err() && PruneTaskLimit::new(0).is_err());
}
