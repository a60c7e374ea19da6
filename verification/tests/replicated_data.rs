use agent_broker::commands::{
    AdvanceTermCommand, BrokerCommand, ClaimTaskCommand, CompleteTaskCommand,
    EnsureConsumerGroupCommand, EnsureNamespaceCommand, HeartbeatCommand, JoinConsumerGroupCommand,
    LeaveConsumerGroupCommand, PruneCompletedTasksCommand, PublishTaskCommand,
    ReapStaleMembersCommand, RenewTaskLeaseCommand,
};
use agent_broker::domain::{
    Capabilities, ConsumerGroupId, ConsumerId, DomainValueError, Generation, LeaseDurationMs,
    LeaseEpoch, LeaseId, NamespaceId, PruneTaskLimit, ReapMemberLimit, Revision, TaskId,
    TaskObjective, TaskResult, Term, TimestampMs,
};
use agent_broker::error::{BrokerError, BrokerErrorCode, BrokerErrorDisposition};
use agent_broker::replicated_command::ReplicatedBrokerCommandV1;
use agent_broker::replicated_proposal::{ReplicatedBrokerProposalV1, ReplicatedCommandIdentityV1};
use agent_broker::replicated_response::{
    ReplicatedBrokerErrorCodeV1, ReplicatedBrokerErrorV1, ReplicatedBrokerMutationResultV1,
    ReplicatedBrokerResponseV1, ReplicatedMutationMetadataV1,
};
use agent_broker::results::{
    BrokerMutationResult, CompletedTasksPrunedResult, ConsumerGroupResult, HeartbeatResult,
    MutationMetadata, NamespaceResult, StaleMembersReapedResult, TaskClaimResult,
    TaskCompletedResult, TaskLeaseRenewedResult, TaskPublishedResult, TaskStatus,
    TermAdvancedResult,
};

#[test]
fn every_broker_command_round_trips_through_replicated_schema() {
    for command in sample_commands() {
        let replicated = ReplicatedBrokerCommandV1::from_command(&command);
        let recovered = replicated.to_command().unwrap();
        assert_eq!(recovered, command);
    }
}

#[test]
fn every_broker_mutation_result_round_trips_through_replicated_response() {
    for result in sample_results() {
        let response =
            ReplicatedBrokerResponseV1::from_application_result(&Ok(result.clone())).unwrap();
        let recovered = response.into_application_result().unwrap().unwrap();
        assert_eq!(recovered, result);
    }
}

#[test]
fn broker_business_error_round_trips_as_application_data() {
    let error = BrokerError::new(BrokerErrorCode::StaleFence, "stale lease holder");
    let response =
        ReplicatedBrokerResponseV1::from_application_result(&Err(error.clone())).unwrap();
    let recovered = response.into_application_result().unwrap();
    assert_eq!(
        recovered,
        Err(error.with_disposition(BrokerErrorDisposition::Committed))
    );
}

#[test]
fn replicated_claim_rejects_partial_optional_payload() {
    let decoded = ReplicatedBrokerResponseV1::Success(ReplicatedBrokerMutationResultV1::TaskClaim {
        metadata: ReplicatedMutationMetadataV1 { term: 1, revision: 7 },
        task_id: Some("task-1".to_owned()),
        objective: None,
        task_revision: Some(7),
        lease_id: Some("lease-1".to_owned()),
        lease_epoch: Some(1),
        lease_expires_at_ms: Some(2000),
        generation: 1,
    });
    assert!(decoded.into_application_result().is_err());
}

#[test]
fn a_claim_without_a_task_round_trips() {
    let empty = BrokerMutationResult::TaskClaim(TaskClaimResult {
        metadata: MutationMetadata { term: Term::initial(), revision: Revision::new(7) },
        task_id: None,
        objective: None,
        task_revision: None,
        lease_id: None,
        lease_epoch: None,
        lease_expires_at_ms: None,
        generation: Generation::new(1),
    });
    let response = ReplicatedBrokerResponseV1::from_application_result(&Ok(empty.clone())).unwrap();
    assert_eq!(response.application_result().unwrap().unwrap(), empty);
}

#[test]
fn an_owner_acquisition_is_no_broker_command() {
    let acquisition = ReplicatedBrokerCommandV1::AcquireCommandSessionOwner {
        session_id: "s".to_owned(),
        expected_owner_epoch: 1,
        owner_instance_id: "o".to_owned(),
    };
    assert!(acquisition.to_command().is_err());
}

#[test]
fn durable_commands_are_validated_when_they_are_read() {
    let bad_name = ReplicatedBrokerCommandV1::EnsureNamespace {
        namespace_id: "-bad".to_owned(),
        max_namespaces: 1,
    };
    assert!(bad_name
        .to_command()
        .err()
        .unwrap()
        .message()
        .starts_with("replicated Broker command failed domain validation: "));
    let zero_term = ReplicatedBrokerCommandV1::AdvanceTerm { expected_term: 0, new_term: 1 };
    assert!(zero_term.to_command().is_err());
}

#[test]
fn an_ambiguous_commit_is_never_stored_as_an_answer() {
    let unknown = BrokerError::new(BrokerErrorCode::CommitOutcomeUnknown, "no answer");
    assert!(ReplicatedBrokerResponseV1::from_application_result(&Err(unknown.clone())).is_err());
    assert!(ReplicatedBrokerResponseV1::from_pre_application_rejection(&unknown).is_err());
}

#[test]
fn rejections_and_stored_outcomes_carry_their_disposition() {
    let error = BrokerError::new(BrokerErrorCode::Conflict, "already used");
    let rejected = ReplicatedBrokerResponseV1::from_pre_application_rejection(&error).unwrap();
    let told = rejected.application_result().unwrap().err().unwrap();
    assert_eq!(told.disposition(), BrokerErrorDisposition::Rejected);
    let stored = ReplicatedBrokerResponseV1::ApplicationError(ReplicatedBrokerErrorV1 {
        code: ReplicatedBrokerErrorCodeV1::Conflict,
        message: "already used".to_owned(),
        disposition: BrokerErrorDisposition::Unknown,
    });
    let normalized = stored.normalize_stored_session_outcome();
    let told = normalized.application_result().unwrap().err().unwrap();
    assert_eq!(told.disposition(), BrokerErrorDisposition::Committed);
    assert_eq!(told.code(), BrokerErrorCode::Conflict);
    assert_eq!(told.message(), "already used");
}

#[test]
fn control_answers_carry_no_application_result() {
    assert!(ReplicatedBrokerResponseV1::RaftControl.into_application_result().is_err());
    let acquired = ReplicatedBrokerResponseV1::SessionOwnerAcquired { owner_epoch: 2 };
    assert!(acquired.into_application_result().is_err());
}

#[test]
fn proposals_read_back_the_identity_they_were_made_with() {
    let command = ReplicatedBrokerCommandV1::AdvanceTerm { expected_term: 1, new_term: 2 };
    let legacy = ReplicatedBrokerProposalV1::legacy(command.clone());
    assert!(legacy.identity().is_none());
    let (identity, recovered) = legacy.into_parts().unwrap();
    assert!(identity.is_none());
    assert_eq!(recovered, command);
    let broken = ReplicatedBrokerProposalV1 {
        identity: Some(ReplicatedCommandIdentityV1 {
            session_id: "s".to_owned(),
            owner_epoch: 1,
            owner_instance_id: None,
            sequence: 0,
        }),
        command,
    };
    assert!(broken.into_parts().is_err());
}

#[test]
fn domain_values_reject_what_they_cannot_hold() {
    assert_eq!(
        LeaseDurationMs::new(0).err().unwrap().message(),
        "lease duration must be greater than zero"
    );
    assert!(matches!(Term::new(0), Err(DomainValueError::Zero { .. })));
    assert!(matches!(LeaseDurationMs::new(0), Err(DomainValueError::Zero { .. })));
    assert!(matches!(ReapMemberLimit::new(0), Err(DomainValueError::Zero { .. })));
    assert!(matches!(PruneTaskLimit::new(0), Err(DomainValueError::Zero { .. })));
    assert!(matches!(NamespaceId::new(""), Err(DomainValueError::InvalidText { .. })));
    let capabilities =
        Capabilities::new(&vec!["review".to_owned(), "code".to_owned(), "review".to_owned()])
            .unwrap();
    assert_eq!(capabilities.len(), 3);
    assert_eq!(capabilities.get(1), "code");
    assert!(Capabilities::new(&vec!["-bad".to_owned()]).is_err());
}

fn sample_commands() -> Vec<BrokerCommand> {
    let namespace_id = NamespaceId::new("project-a").unwrap();
    let task_id = TaskId::new("task-1").unwrap();
    let group_id = ConsumerGroupId::new("workers").unwrap();
    let member_id = ConsumerId::new("worker-1").unwrap();
    let lease_id = LeaseId::new("lease-1").unwrap();

    vec![
        BrokerCommand::EnsureNamespace(EnsureNamespaceCommand {
            namespace_id: namespace_id.clone(),
            max_namespaces: 64,
        }),
        BrokerCommand::PublishTask(PublishTaskCommand {
            namespace_id: namespace_id.clone(),
            task_id: task_id.clone(),
            objective: TaskObjective::new("compile the release").unwrap(),
            created_at_ms: TimestampMs::new(1_000),
            max_namespace_tasks: 4_096,
        }),
        BrokerCommand::EnsureConsumerGroup(EnsureConsumerGroupCommand {
            namespace_id,
            group_id: group_id.clone(),
            max_namespace_groups: 64,
        }),
        BrokerCommand::JoinConsumerGroup(JoinConsumerGroupCommand {
            group_id: group_id.clone(),
            member_id: member_id.clone(),
            capabilities: Capabilities::new(&vec!["rust".to_owned(), "linux".to_owned()]).unwrap(),
            now_ms: TimestampMs::new(1_100),
            max_group_members: 256,
        }),
        BrokerCommand::Heartbeat(HeartbeatCommand {
            group_id: group_id.clone(),
            member_id: member_id.clone(),
            expected_generation: Generation::new(1),
            now_ms: TimestampMs::new(1_200),
        }),
        BrokerCommand::LeaveConsumerGroup(LeaveConsumerGroupCommand {
            group_id: group_id.clone(),
            member_id: member_id.clone(),
            expected_generation: Generation::new(1),
        }),
        BrokerCommand::ReapStaleMembers(ReapStaleMembersCommand {
            stale_before_ms: TimestampMs::new(1_300),
            max_members: 16,
        }),
        BrokerCommand::ClaimTask(ClaimTaskCommand {
            group_id: group_id.clone(),
            member_id: member_id.clone(),
            expected_term: Term::initial(),
            expected_generation: Generation::new(1),
            lease_id: lease_id.clone(),
            now_ms: TimestampMs::new(1_400),
            lease_duration_ms: 30_000,
        }),
        BrokerCommand::RenewTaskLease(RenewTaskLeaseCommand {
            task_id: task_id.clone(),
            group_id: group_id.clone(),
            member_id: member_id.clone(),
            expected_term: Term::initial(),
            expected_generation: Generation::new(1),
            expected_lease_epoch: LeaseEpoch::new(1),
            lease_id: lease_id.clone(),
            now_ms: TimestampMs::new(1_500),
            lease_duration_ms: 30_000,
        }),
        BrokerCommand::CompleteTask(CompleteTaskCommand {
            task_id,
            group_id,
            member_id,
            expected_term: Term::initial(),
            expected_generation: Generation::new(1),
            expected_lease_epoch: LeaseEpoch::new(1),
            lease_id,
            result: TaskResult::new("done").unwrap(),
            completed_at_ms: TimestampMs::new(1_600),
        }),
        BrokerCommand::PruneCompletedTasks(PruneCompletedTasksCommand {
            completed_before_ms: TimestampMs::new(2_000),
            max_tasks: 128,
        }),
        BrokerCommand::AdvanceTerm(AdvanceTermCommand {
            expected_term: Term::initial(),
            new_term: Term::new(2).unwrap(),
        }),
    ]
}

fn sample_results() -> Vec<BrokerMutationResult> {
    let metadata = MutationMetadata {
        term: Term::initial(),
        revision: Revision::new(7),
    };
    vec![
        BrokerMutationResult::Namespace(NamespaceResult {
            metadata,
            namespace_id: NamespaceId::new("project-a").unwrap(),
            namespace_revision: Revision::new(1),
        }),
        BrokerMutationResult::TaskPublished(TaskPublishedResult {
            metadata,
            task_id: TaskId::new("task-1").unwrap(),
            task_revision: Revision::new(2),
            status: TaskStatus::Queued,
        }),
        BrokerMutationResult::ConsumerGroup(ConsumerGroupResult {
            metadata,
            group_id: ConsumerGroupId::new("workers").unwrap(),
            generation: Generation::new(1),
            group_revision: Revision::new(3),
            member_count: 2,
        }),
        BrokerMutationResult::Heartbeat(HeartbeatResult {
            metadata,
            group_id: ConsumerGroupId::new("workers").unwrap(),
            member_id: ConsumerId::new("worker-1").unwrap(),
            generation: Generation::new(1),
            member_revision: Revision::new(4),
        }),
        BrokerMutationResult::StaleMembersReaped(StaleMembersReapedResult {
            metadata,
            reaped_count: 2,
            affected_group_count: 1,
        }),
        BrokerMutationResult::TaskClaim(TaskClaimResult {
            metadata,
            task_id: Some(TaskId::new("task-1").unwrap()),
            objective: Some(TaskObjective::new("compile the release").unwrap()),
            task_revision: Some(Revision::new(5)),
            lease_id: Some(LeaseId::new("lease-1").unwrap()),
            lease_epoch: Some(LeaseEpoch::new(1)),
            lease_expires_at_ms: Some(TimestampMs::new(31_400)),
            generation: Generation::new(1),
        }),
        BrokerMutationResult::TaskLeaseRenewed(TaskLeaseRenewedResult {
            metadata,
            task_id: TaskId::new("task-1").unwrap(),
            task_revision: Revision::new(6),
            lease_id: LeaseId::new("lease-1").unwrap(),
            lease_epoch: LeaseEpoch::new(1),
            lease_expires_at_ms: TimestampMs::new(31_500),
            generation: Generation::new(1),
        }),
        BrokerMutationResult::TaskCompleted(TaskCompletedResult {
            metadata,
            task_id: TaskId::new("task-1").unwrap(),
            task_revision: Revision::new(7),
            status: TaskStatus::Completed,
        }),
        BrokerMutationResult::CompletedTasksPruned(CompletedTasksPrunedResult {
            metadata,
            pruned_count: 3,
        }),
        BrokerMutationResult::TermAdvanced(TermAdvancedResult { metadata }),
    ]
}
