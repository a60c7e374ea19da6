use agent_broker::broker::{AppliedCommand, BrokerStateMachine};
use agent_broker::command_identity::{
    CommandIdentity, CommandSequence, CommandSessionId, SessionOwnerEpoch, SessionOwnerInstanceId,
};
use agent_broker::command_sessions::CommandSessions;
use agent_broker::commands::{
    BrokerCommand, EnsureConsumerGroupCommand, EnsureNamespaceCommand, JoinConsumerGroupCommand,
    PublishTaskCommand,
};
use agent_broker::consensus::ConsensusAdapter;
use agent_broker::consensus_snapshot::{
    decode_snapshot_frame, encode_snapshot_frame, SnapshotParts,
};
use agent_broker::domain::{
    BrokerCapacityPolicy, Capabilities, ConsumerGroupId, ConsumerId, Generation, LeaseDurationMs,
    LeaseEpoch, LeaseId, MemberId, NamespaceId, Revision, TaskId, TaskObjective, TaskResult, Term,
    TimestampMs,
};
use agent_broker::error::{
    BrokerError, BrokerErrorCode, BrokerErrorDisposition, ConsumerGroupErrorKind,
    StateMachineError, StateMachineErrorKind, TaskTransitionErrorKind,
};
use agent_broker::raft_state_machine::{
    AgentBrokerRaftStateMachine, CommittedEntry, EntryPayload, LogPosition, StoredMembership,
};
use agent_broker::replicated_command::ReplicatedBrokerCommandV1;
use agent_broker::replicated_proposal::ReplicatedBrokerProposalV1;
use agent_broker::replicated_response::ReplicatedBrokerResponseV1;
use agent_broker::results::{
    BrokerMutationResult, ConsumerGroupDirectory, ConsumerGroupEntry, ConsumerGroupResult,
    HeartbeatResult, MutationMetadata, NamespaceResult, TaskClaimResult, TaskCompletedResult,
    TaskPublishedResult, TaskStatus, TermAdvancedResult,
};
use agent_broker::service::{BrokerApplicationService, ClaimTaskInput, CompleteTaskInput};
use agent_broker::session_snapshot::{
    decode_sessions, encode_sessions, CommandSessionsSnapshotV1,
};
use agent_broker::snapshot_store::{complete_pair, restore_parts, snapshot_id};
use agent_broker::standalone::{
    BrokerStateRepository, RepositoryError, StandaloneConsensusAdapter,
};

/// One task of the in-memory Broker.
#[derive(Debug, Clone)]
struct Task {
    id: TaskId,
    objective: TaskObjective,
    lease: Option<(ConsumerGroupId, MemberId, LeaseId, LeaseEpoch, Generation)>,
    done: bool,
}

/// One consumer group of the in-memory Broker.
#[derive(Debug, Clone)]
struct Group {
    id: ConsumerGroupId,
    namespace: NamespaceId,
    generation: u64,
    members: Vec<MemberId>,
}

/// A small Broker that keeps everything in memory.
#[derive(Debug, Clone)]
struct MemoryBroker {
    term: Term,
    revision: u64,
    namespaces: Vec<NamespaceId>,
    groups: Vec<Group>,
    tasks: Vec<Task>,
}

fn fresh_broker() -> MemoryBroker {
    MemoryBroker {
        term: Term::initial(),
        revision: 0,
        namespaces: Vec::new(),
        groups: Vec::new(),
        tasks: Vec::new(),
    }
}

fn refuse(kind: StateMachineErrorKind) -> StateMachineError {
    StateMachineError { kind, message: format!("{kind:?}") }
}

impl MemoryBroker {
    fn metadata(&self) -> MutationMetadata {
        MutationMetadata { term: self.term, revision: Revision::new(self.revision) }
    }

    fn group_result(&self, index: usize) -> BrokerMutationResult {
        let group = &self.groups[index];
        BrokerMutationResult::ConsumerGroup(ConsumerGroupResult {
            metadata: self.metadata(),
            group_id: group.id.clone(),
            generation: Generation::new(group.generation),
            group_revision: Revision::new(self.revision),
            member_count: group.members.len(),
        })
    }

    fn change(&mut self, command: BrokerCommand) -> Result<BrokerMutationResult, StateMachineError> {
        match command {
            BrokerCommand::EnsureNamespace(input) => {
                if !self.namespaces.contains(&input.namespace_id) {
                    if self.namespaces.len() >= input.max_namespaces {
                        return Err(refuse(StateMachineErrorKind::CapacityExceeded));
                    }
                    self.namespaces.push(input.namespace_id.clone());
                    self.revision += 1;
                }
                Ok(BrokerMutationResult::Namespace(NamespaceResult {
                    metadata: self.metadata(),
                    namespace_id: input.namespace_id,
                    namespace_revision: Revision::new(self.revision),
                }))
            }
            BrokerCommand::EnsureConsumerGroup(input) => {
                self.groups.push(Group {
                    id: input.group_id,
                    namespace: input.namespace_id,
                    generation: 0,
                    members: Vec::new(),
                });
                self.revision += 1;
                Ok(self.group_result(self.groups.len() - 1))
            }
            BrokerCommand::JoinConsumerGroup(input) => {
                let index = self.groups.iter().position(|group| group.id == input.group_id);
                let index =
                    index.ok_or(refuse(StateMachineErrorKind::ConsumerGroupNotFound))?;
                self.groups[index].members.push(input.member_id);
                self.groups[index].generation += 1;
                self.revision += 1;
                Ok(self.group_result(index))
            }
            BrokerCommand::Heartbeat(input) => {
                let group = self.groups.iter().find(|group| group.id == input.group_id);
                let group = group.ok_or(refuse(StateMachineErrorKind::ConsumerGroupNotFound))?;
                if group.generation != input.expected_generation.get() {
                    return Err(refuse(StateMachineErrorKind::ConsumerGroupTransition(
                        ConsumerGroupErrorKind::StaleGeneration,
                    )));
                }
                self.revision += 1;
                Ok(BrokerMutationResult::Heartbeat(HeartbeatResult {
                    metadata: self.metadata(),
                    group_id: input.group_id,
                    member_id: input.member_id,
                    generation: input.expected_generation,
                    member_revision: Revision::new(self.revision),
                }))
            }
            BrokerCommand::PublishTask(input) => {
                self.tasks.push(Task {
                    id: input.task_id.clone(),
                    objective: input.objective,
                    lease: None,
                    done: false,
                });
                self.revision += 1;
                Ok(BrokerMutationResult::TaskPublished(TaskPublishedResult {
                    metadata: self.metadata(),
                    task_id: input.task_id,
                    task_revision: Revision::new(self.revision),
                    status: TaskStatus::Queued,
                }))
            }
            BrokerCommand::ClaimTask(input) => {
                let free = self.tasks.iter().position(|task| task.lease.is_none() && !task.done);
                let index = free.ok_or(refuse(StateMachineErrorKind::TaskNotFound))?;
                self.revision += 1;
                let epoch = LeaseEpoch::new(1);
                let task = &mut self.tasks[index];
                task.lease = Some((
                    input.group_id,
                    input.member_id,
                    input.lease_id.clone(),
                    epoch,
                    input.expected_generation,
                ));
                let task = self.tasks[index].clone();
                Ok(BrokerMutationResult::TaskClaim(TaskClaimResult {
                    metadata: self.metadata(),
                    task_id: Some(task.id),
                    objective: Some(task.objective),
                    task_revision: Some(Revision::new(self.revision)),
                    lease_id: Some(input.lease_id),
                    lease_epoch: Some(epoch),
                    lease_expires_at_ms: Some(TimestampMs::new(
                        input.now_ms.get() + input.lease_duration_ms,
                    )),
                    generation: input.expected_generation,
                }))
            }
            BrokerCommand::CompleteTask(input) => {
                let index = self.tasks.iter().position(|task| task.id == input.task_id);
                let index = index.ok_or(refuse(StateMachineErrorKind::TaskNotFound))?;
                let held = Some((
                    input.group_id,
                    input.member_id,
                    input.lease_id,
                    input.expected_lease_epoch,
                    input.expected_generation,
                ));
                if self.tasks[index].lease != held {
                    return Err(refuse(StateMachineErrorKind::TaskTransition(
                        TaskTransitionErrorKind::StaleOwner,
                    )));
                }
                self.tasks[index].done = true;
                self.tasks[index].lease = None;
                self.revision += 1;
                Ok(BrokerMutationResult::TaskCompleted(TaskCompletedResult {
                    metadata: self.metadata(),
                    task_id: input.task_id,
                    task_revision: Revision::new(self.revision),
                    status: TaskStatus::Completed,
                }))
            }
            BrokerCommand::AdvanceTerm(input) => {
                self.term = input.new_term;
                self.revision += 1;
                Ok(BrokerMutationResult::TermAdvanced(TermAdvancedResult {
                    metadata: self.metadata(),
                }))
            }
            _ => Err(refuse(StateMachineErrorKind::NamespaceNotFound)),
        }
    }
}

impl BrokerStateMachine for MemoryBroker {
    type Checkpoint = MemoryBroker;
    type Changes = u64;

    fn from_checkpoint(checkpoint: MemoryBroker) -> Result<Self, StateMachineError> {
        if checkpoint.revision == u64::MAX {
            return Err(StateMachineError {
                kind: StateMachineErrorKind::FencingValue,
                message: "revision is exhausted".to_owned(),
            });
        }
        Ok(checkpoint)
    }

    fn apply(&mut self, command: BrokerCommand) -> Result<AppliedCommand<u64>, StateMachineError> {
        let result = self.change(command)?;
        Ok(AppliedCommand { result, changes: self.revision })
    }

    fn term(&self) -> Term {
        self.term
    }

    fn revision(&self) -> Revision {
        Revision::new(self.revision)
    }

    fn group_directory(&self) -> ConsumerGroupDirectory {
        ConsumerGroupDirectory {
            term: self.term,
            revision: Revision::new(self.revision),
            groups: self
                .groups
                .iter()
                .map(|group| ConsumerGroupEntry {
                    group_id: group.id.clone(),
                    namespace_id: group.namespace.clone(),
                    generation: Generation::new(group.generation),
                    consumer_count: group.members.len(),
                })
                .collect(),
        }
    }
}

/// Consensus that applies a command where it was proposed.
struct MemoryConsensus {
    machine: MemoryBroker,
}

impl ConsensusAdapter for MemoryConsensus {
    fn term(&self) -> Term {
        self.machine.term
    }

    fn revision(&self) -> Revision {
        Revision::new(self.machine.revision)
    }

    fn propose(&mut self, command: BrokerCommand) -> Result<BrokerMutationResult, BrokerError> {
        self.machine.change(command).map_err(BrokerError::from)
    }
}

fn memory_service(
    capacity: BrokerCapacityPolicy,
) -> BrokerApplicationService<MemoryConsensus> {
    BrokerApplicationService::new(MemoryConsensus { machine: fresh_broker() }, capacity)
}

fn capabilities(names: &[&str]) -> Capabilities {
    Capabilities::new(&names.iter().map(|name| (*name).to_owned()).collect()).unwrap()
}

#[test]
fn application_service_runs_typed_task_lifecycle_through_consensus_boundary() {
    let mut service = memory_service(BrokerCapacityPolicy::default());
    assert_eq!(service.health().term, Term::initial());
    assert_eq!(service.health().revision.get(), 0);
    assert_eq!(service.health().protocol_version, 1);

    let namespace_id = NamespaceId::new("project-a").unwrap();
    let group_id = ConsumerGroupId::new("engineering").unwrap();
    let member_id = MemberId::new("worker-a").unwrap();
    let task_id = TaskId::new("task-1").unwrap();
    service.ensure_namespace(namespace_id.clone()).unwrap();
    service.ensure_consumer_group(namespace_id.clone(), group_id.clone()).unwrap();
    let joined = service
        .join_consumer_group(
            group_id.clone(),
            member_id.clone(),
            capabilities(&["review", "code", "review"]),
            TimestampMs::new(1_000),
        )
        .unwrap();
    service
        .publish_task(
            namespace_id,
            task_id.clone(),
            TaskObjective::new("implement typed application boundary").unwrap(),
            TimestampMs::new(1_001),
        )
        .unwrap();

    let lease_id = LeaseId::new("lease-1").unwrap();
    let claimed = service
        .claim_task(ClaimTaskInput {
            group_id: group_id.clone(),
            member_id: member_id.clone(),
            expected_term: Term::initial(),
            expected_generation: joined.generation,
            lease_id: lease_id.clone(),
            now_ms: TimestampMs::new(2_000),
            lease_duration: LeaseDurationMs::new(1_000).unwrap(),
        })
        .unwrap();
    assert_eq!(claimed.task_id.as_ref(), Some(&task_id));
    assert_eq!(claimed.lease_expires_at_ms, Some(TimestampMs::new(3_000)));
    let lease_epoch = claimed.lease_epoch.unwrap();

    let completed = service
        .complete_task(CompleteTaskInput {
            task_id,
            group_id,
            member_id,
            expected_term: Term::initial(),
            expected_generation: joined.generation,
            expected_lease_epoch: lease_epoch,
            lease_id,
            result: TaskResult::new("done").unwrap(),
            completed_at_ms: TimestampMs::new(2_500),
        })
        .unwrap();
    assert_eq!(completed.status, TaskStatus::Completed);
    assert_eq!(service.health().revision, completed.metadata.revision);
}

#[test]
fn application_service_preserves_stable_stale_fence_code() {
    let mut service = memory_service(BrokerCapacityPolicy::default());
    let namespace_id = NamespaceId::new("project-a").unwrap();
    let group_id = ConsumerGroupId::new("engineering").unwrap();
    let member_id = MemberId::new("worker-a").unwrap();
    service.ensure_namespace(namespace_id.clone()).unwrap();
    service.ensure_consumer_group(namespace_id, group_id.clone()).unwrap();
    let joined = service
        .join_consumer_group(
            group_id.clone(),
            member_id.clone(),
            capabilities(&["code"]),
            TimestampMs::new(1_000),
        )
        .unwrap();

    let stale_generation = Generation::new(joined.generation.get().saturating_sub(1));
    let error = service
        .heartbeat(group_id, member_id, stale_generation, TimestampMs::new(2_000))
        .err()
        .unwrap();
    assert_eq!(error.code(), BrokerErrorCode::StaleFence);
    assert_eq!(error.code().as_str(), "STALE_FENCE");
}

#[test]
fn application_service_capacity_policy_maps_to_stable_capacity_error() {
    let capacity = BrokerCapacityPolicy::new(1, 1, 1, 1).unwrap();
    let mut service = memory_service(capacity);
    service.ensure_namespace(NamespaceId::new("project-a").unwrap()).unwrap();

    let error = service.ensure_namespace(NamespaceId::new("project-b").unwrap()).err().unwrap();
    assert_eq!(error.code(), BrokerErrorCode::CapacityExceeded);
    assert_eq!(error.code().as_str(), "CAPACITY_EXCEEDED");
}

#[test]
fn an_adapter_without_sessions_refuses_identified_work() {
    let mut service = memory_service(BrokerCapacityPolicy::default());
    let session = CommandSessionId::new("s").unwrap();
    let identity = CommandIdentity::new(session.clone(), CommandSequence::new(1).unwrap());
    let refused = service
        .ensure_namespace_identified(identity, NamespaceId::new("project-a").unwrap())
        .err()
        .unwrap();
    assert_eq!(refused.code(), BrokerErrorCode::InvalidRequest);
    let refused = service
        .acquire_command_session_owner(
            session,
            SessionOwnerEpoch::initial(),
            SessionOwnerInstanceId::new("o").unwrap(),
        )
        .err()
        .unwrap();
    assert_eq!(refused.code(), BrokerErrorCode::InvalidRequest);
    assert_eq!(service.maintenance_authority(), Ok(true));
    assert!(service.group_directory().is_err());
    assert_eq!(service.into_consensus().machine.revision, 0);
}

/// Consensus that advances the term whatever it is asked.
struct ConfusedConsensus;

impl ConsensusAdapter for ConfusedConsensus {
    fn term(&self) -> Term {
        Term::initial()
    }

    fn revision(&self) -> Revision {
        Revision::new(3)
    }

    fn propose(&mut self, _: BrokerCommand) -> Result<BrokerMutationResult, BrokerError> {
        Ok(BrokerMutationResult::TermAdvanced(TermAdvancedResult {
            metadata: MutationMetadata { term: Term::initial(), revision: Revision::new(3) },
        }))
    }
}

#[test]
fn an_answer_of_another_kind_is_an_internal_error() {
    let mut service =
        BrokerApplicationService::new(ConfusedConsensus, BrokerCapacityPolicy::default());
    let error = service.ensure_namespace(NamespaceId::new("project-a").unwrap()).err().unwrap();
    assert_eq!(error.code(), BrokerErrorCode::InternalError);
    assert!(service.advance_term(Term::initial(), Term::new(2).unwrap()).is_ok());
}

/// A repository that can be told to fail.
#[derive(Debug)]
struct FakeRepository {
    checkpoint: MemoryBroker,
    fail_load: bool,
    fail_commit: bool,
    commits: Vec<u64>,
}

impl BrokerStateRepository<MemoryBroker> for FakeRepository {
    fn load(&mut self) -> Result<MemoryBroker, RepositoryError> {
        if self.fail_load {
            return Err(RepositoryError { message: "injected load failure".to_owned() });
        }
        Ok(self.checkpoint.clone())
    }

    fn commit(&mut self, state: &MemoryBroker, changes: &u64) -> Result<(), RepositoryError> {
        if self.fail_commit {
            return Err(RepositoryError { message: "injected commit failure".to_owned() });
        }
        self.checkpoint = state.clone();
        self.commits.push(*changes);
        Ok(())
    }
}

fn repository(checkpoint: MemoryBroker, fail_load: bool, fail_commit: bool) -> FakeRepository {
    FakeRepository { checkpoint, fail_load, fail_commit, commits: Vec::new() }
}

fn ensure(name: &str) -> BrokerCommand {
    BrokerCommand::EnsureNamespace(EnsureNamespaceCommand {
        namespace_id: NamespaceId::new(name).unwrap(),
        max_namespaces: 64,
    })
}

fn checkpoint_with_namespace() -> MemoryBroker {
    let mut machine = fresh_broker();
    machine.change(ensure("project-a")).unwrap();
    machine
}

#[test]
fn idempotent_noop_skips_persistence_even_when_repository_would_fail() {
    let repository = repository(checkpoint_with_namespace(), false, true);
    let mut adapter = StandaloneConsensusAdapter::new(repository).unwrap();
    let before_revision = adapter.revision();

    adapter.propose(ensure("project-a")).unwrap();

    assert_eq!(adapter.revision(), before_revision);
    assert!(!adapter.is_poisoned());
}

#[test]
fn durability_failure_poison_stops_all_later_mutations() {
    let repository = repository(fresh_broker(), false, true);
    let mut adapter = StandaloneConsensusAdapter::new(repository).unwrap();
    let first_error = adapter.propose(ensure("project-a")).err().unwrap();
    assert_eq!(first_error.code(), BrokerErrorCode::PersistenceError);
    assert!(adapter.is_poisoned());
    assert_eq!(adapter.revision(), Revision::new(1));

    let second_error = adapter.propose(ensure("project-b")).err().unwrap();
    assert_eq!(second_error.code(), BrokerErrorCode::PersistenceError);
    assert_eq!(
        second_error.message(),
        "Standalone Broker is fail-stopped after a durability failure."
    );
    assert_eq!(adapter.revision(), Revision::new(1));
    assert!(adapter.group_directory().is_err());
}

#[test]
fn recovery_failure_maps_to_stable_persistence_error() {
    let repository = repository(fresh_broker(), true, false);
    let error = StandaloneConsensusAdapter::new(repository).err().unwrap();
    assert_eq!(error.code(), BrokerErrorCode::PersistenceError);
}

#[test]
fn committed_standalone_mutations_are_what_a_restart_loads() {
    let mut adapter =
        StandaloneConsensusAdapter::new(repository(fresh_broker(), false, false)).unwrap();
    adapter.propose(ensure("project-a")).unwrap();
    adapter
        .propose(BrokerCommand::PublishTask(PublishTaskCommand {
            namespace_id: NamespaceId::new("project-a").unwrap(),
            task_id: TaskId::new("task-1").unwrap(),
            objective: TaskObjective::new("survive standalone restart").unwrap(),
            created_at_ms: TimestampMs::new(1_000),
            max_namespace_tasks: 4_096,
        }))
        .unwrap();
    assert_eq!(adapter.revision(), Revision::new(2));

    let durable = repository(adapter.state_machine().clone(), false, false);
    let restarted = StandaloneConsensusAdapter::new(durable).unwrap();
    assert_eq!(restarted.revision(), Revision::new(2));
    assert_eq!(restarted.state_machine().namespaces, vec![NamespaceId::new("project-a").unwrap()]);
    assert_eq!(restarted.state_machine().tasks[0].id, TaskId::new("task-1").unwrap());
}

#[test]
fn standalone_group_directory_is_side_effect_free_and_current() {
    let repository = repository(fresh_broker(), false, false);
    let mut adapter = StandaloneConsensusAdapter::new(repository).unwrap();
    let namespace_id = NamespaceId::new("project-a").unwrap();
    let group_id = ConsumerGroupId::new("backend-company").unwrap();

    adapter.propose(ensure("project-a")).unwrap();
    adapter
        .propose(BrokerCommand::EnsureConsumerGroup(EnsureConsumerGroupCommand {
            namespace_id: namespace_id.clone(),
            group_id: group_id.clone(),
            max_namespace_groups: 64,
        }))
        .unwrap();
    adapter
        .propose(BrokerCommand::JoinConsumerGroup(JoinConsumerGroupCommand {
            group_id: group_id.clone(),
            member_id: ConsumerId::new("consumer-a").unwrap(),
            capabilities: capabilities(&["code", "rust"]),
            now_ms: TimestampMs::new(1_000),
            max_group_members: 64,
        }))
        .unwrap();

    let before_revision = adapter.revision();
    let directory = adapter.group_directory().unwrap();
    assert_eq!(adapter.revision(), before_revision);
    assert_eq!(directory.revision, before_revision);
    let group = directory.groups.iter().find(|entry| entry.group_id == group_id).unwrap();
    assert_eq!(group.namespace_id, namespace_id);
    assert_eq!(group.generation.get(), 1);
    assert_eq!(group.consumer_count, 1);
}

/// The replicated state machine over the in-memory Broker; a membership is a list of node ids.
type Machine = AgentBrokerRaftStateMachine<MemoryBroker, Vec<u64>>;

fn fresh_machine() -> Machine {
    AgentBrokerRaftStateMachine::assemble(
        fresh_broker(),
        CommandSessions::new(),
        None,
        StoredMembership { position: None, membership: Vec::new() },
    )
}

fn durable_ensure(name: &str) -> ReplicatedBrokerCommandV1 {
    ReplicatedBrokerCommandV1::from_command(&ensure(name))
}

fn identified(identity: &CommandIdentity, name: &str) -> ReplicatedBrokerProposalV1 {
    ReplicatedBrokerProposalV1::identified(identity, durable_ensure(name))
}

fn acquisition(session: &str, expected: u64, owner: &str) -> ReplicatedBrokerProposalV1 {
    ReplicatedBrokerProposalV1::legacy(ReplicatedBrokerCommandV1::AcquireCommandSessionOwner {
        session_id: session.to_owned(),
        expected_owner_epoch: expected,
        owner_instance_id: owner.to_owned(),
    })
}

fn apply(machine: &mut Machine, proposal: ReplicatedBrokerProposalV1) -> ReplicatedBrokerResponseV1 {
    machine.apply_proposal(proposal).ok().unwrap()
}

fn refusal_of(response: ReplicatedBrokerResponseV1) -> BrokerError {
    response.into_application_result().ok().unwrap().err().unwrap()
}

fn acquired_epoch(response: &ReplicatedBrokerResponseV1) -> SessionOwnerEpoch {
    match response {
        ReplicatedBrokerResponseV1::SessionOwnerAcquired { owner_epoch } => {
            SessionOwnerEpoch::new(*owner_epoch).unwrap()
        }
        other => panic!("unexpected owner acquisition response: {other:?}"),
    }
}

fn session(name: &str) -> CommandSessionId {
    CommandSessionId::new(name).unwrap()
}

fn sequence(value: u64) -> CommandSequence {
    CommandSequence::new(value).unwrap()
}

fn owner(name: &str) -> SessionOwnerInstanceId {
    SessionOwnerInstanceId::new(name).unwrap()
}

#[test]
fn identified_command_retry_returns_exact_committed_response_without_reapply() {
    let mut machine = fresh_machine();
    let identity = CommandIdentity::new(session("client-a"), sequence(1));

    let first = apply(&mut machine, identified(&identity, "identified-a"));
    let revision_after_first = machine.broker.revision;
    let retry = apply(&mut machine, identified(&identity, "identified-a"));

    assert_eq!(retry, first);
    assert_eq!(machine.broker.revision, revision_after_first);

    let conflict = refusal_of(apply(&mut machine, identified(&identity, "identified-conflict")));
    assert_eq!(conflict.code(), BrokerErrorCode::Conflict);
    assert_eq!(conflict.disposition(), BrokerErrorDisposition::Rejected);
    assert_eq!(machine.broker.revision, revision_after_first);
}

#[test]
fn new_session_owner_acquisition_bootstraps_epoch_one_without_business_mutation() {
    let mut machine = fresh_machine();
    let name = "owner-bootstrap-client";
    let revision_before = machine.broker.revision;

    let first = apply(&mut machine, acquisition(name, 1, "owner-bootstrap-process"));
    let retry = apply(&mut machine, acquisition(name, 1, "owner-bootstrap-process"));
    assert_eq!(first, retry);
    let owner_epoch = acquired_epoch(&first);
    assert_eq!(owner_epoch, SessionOwnerEpoch::initial());
    assert_eq!(machine.broker.revision, revision_before);

    let owned_identity = CommandIdentity::new_with_owner(
        session(name),
        owner_epoch,
        owner("owner-bootstrap-process"),
        sequence(1),
    );
    let committed = apply(&mut machine, identified(&owned_identity, "owner-bootstrap-namespace"))
        .into_application_result()
        .ok()
        .unwrap();
    assert!(committed.is_ok());
    assert_eq!(machine.broker.revision, revision_before + 1);

    let ownerless_identity =
        CommandIdentity::new_with_owner_epoch(session(name), owner_epoch, sequence(2));
    let ownerless =
        refusal_of(apply(&mut machine, identified(&ownerless_identity, "owner-bootstrap-ownerless")));
    assert_eq!(ownerless.code(), BrokerErrorCode::StaleFence);
}

#[test]
fn session_owner_acquisition_fences_old_owner_and_resets_sequence() {
    let mut machine = fresh_machine();
    let name = "owner-fencing-client";
    let epoch_one = SessionOwnerEpoch::initial();
    let first_identity =
        CommandIdentity::new_with_owner_epoch(session(name), epoch_one, sequence(1));
    apply(&mut machine, identified(&first_identity, "owner-epoch-one"));
    let revision_after_first = machine.broker.revision;

    let epoch_two = acquired_epoch(&apply(
        &mut machine,
        acquisition(name, epoch_one.get(), "owner-process-a"),
    ));
    assert_eq!(epoch_two.get(), 2);
    assert_eq!(machine.broker.revision, revision_after_first);

    let stale_identity =
        CommandIdentity::new_with_owner_epoch(session(name), epoch_one, sequence(2));
    let stale =
        refusal_of(apply(&mut machine, identified(&stale_identity, "stale-owner-must-not-apply")));
    assert_eq!(stale.code(), BrokerErrorCode::StaleFence);
    assert_eq!(machine.broker.revision, revision_after_first);

    let epoch_two_identity = CommandIdentity::new_with_owner(
        session(name),
        epoch_two,
        owner("owner-process-a"),
        sequence(1),
    );
    let committed = apply(&mut machine, identified(&epoch_two_identity, "owner-epoch-two"));
    let revision_after_epoch_two = machine.broker.revision;
    let retry = apply(&mut machine, identified(&epoch_two_identity, "owner-epoch-two"));
    assert_eq!(retry, committed);
    assert_eq!(machine.broker.revision, revision_after_epoch_two);
}

#[test]
fn session_owner_acquisition_retry_is_idempotent_and_stale_contender_is_fenced() {
    let mut machine = fresh_machine();
    let name = "owner-acquisition-retry";
    let epoch_one = SessionOwnerEpoch::initial();
    let initial_identity = CommandIdentity::new(session(name), sequence(1));
    apply(&mut machine, identified(&initial_identity, "owner-acquisition-seed"));
    let revision_before = machine.broker.revision;

    let first = apply(&mut machine, acquisition(name, epoch_one.get(), "owner-instance-a"));
    let retry = apply(&mut machine, acquisition(name, epoch_one.get(), "owner-instance-a"));
    assert_eq!(first, retry);
    let epoch_two = acquired_epoch(&first);
    assert_eq!(epoch_two.get(), 2);
    assert_eq!(machine.broker.revision, revision_before);

    let forged_owner_identity = CommandIdentity::new_with_owner(
        session(name),
        epoch_two,
        owner("owner-instance-b"),
        sequence(1),
    );
    let forged =
        refusal_of(apply(&mut machine, identified(&forged_owner_identity, "forged-same-epoch-owner")));
    assert_eq!(forged.code(), BrokerErrorCode::StaleFence);
    let stale =
        refusal_of(apply(&mut machine, acquisition(name, epoch_one.get(), "owner-instance-b")));
    assert_eq!(stale.code(), BrokerErrorCode::StaleFence);
    assert_eq!(machine.broker.revision, revision_before);

    let epoch_three = acquired_epoch(&apply(
        &mut machine,
        acquisition(name, epoch_two.get(), "owner-instance-b"),
    ));
    assert_eq!(epoch_three.get(), 3);
}

/// What a stored snapshot holds of a machine: the frame around its two parts, and the parts.
struct StoredSnapshot {
    frame: Vec<u8>,
    broker: MemoryBroker,
    sessions: CommandSessionsSnapshotV1,
    position: Option<LogPosition>,
}

fn take_snapshot(machine: &Machine) -> StoredSnapshot {
    StoredSnapshot {
        frame: encode_snapshot_frame(b"broker", b"sessions"),
        broker: machine.broker.clone(),
        sessions: encode_sessions(&machine.command_sessions),
        position: machine.last_applied,
    }
}

fn recover(snapshot: StoredSnapshot) -> Machine {
    let parts = decode_snapshot_frame(&snapshot.frame).unwrap();
    assert_eq!(
        parts,
        SnapshotParts::Framed { broker: b"broker".to_vec(), sidecar: b"sessions".to_vec() }
    );
    AgentBrokerRaftStateMachine::assemble(
        snapshot.broker,
        decode_sessions(&snapshot.sessions).unwrap(),
        snapshot.position,
        StoredMembership { position: None, membership: Vec::new() },
    )
}

#[test]
fn session_owner_epoch_survives_snapshot_and_keeps_old_owner_fenced() {
    let mut machine = fresh_machine();
    let name = "owner-snapshot-client";
    let epoch_one = SessionOwnerEpoch::initial();
    let first_identity = CommandIdentity::new(session(name), sequence(1));
    apply(&mut machine, identified(&first_identity, "owner-snapshot-one"));
    let epoch_two = acquired_epoch(&apply(
        &mut machine,
        acquisition(name, epoch_one.get(), "snapshot-owner-process"),
    ));
    let epoch_two_identity = CommandIdentity::new_with_owner(
        session(name),
        epoch_two,
        owner("snapshot-owner-process"),
        sequence(1),
    );
    let committed = apply(&mut machine, identified(&epoch_two_identity, "owner-snapshot-two"));

    let mut recovered = recover(take_snapshot(&machine));
    let stale_identity =
        CommandIdentity::new_with_owner_epoch(session(name), epoch_one, sequence(2));
    let stale =
        refusal_of(apply(&mut recovered, identified(&stale_identity, "owner-snapshot-stale")));
    assert_eq!(stale.code(), BrokerErrorCode::StaleFence);
    let retry = apply(&mut recovered, identified(&epoch_two_identity, "owner-snapshot-two"));
    assert_eq!(retry, committed);
}

#[test]
fn command_session_snapshot_preserves_retry_identity_after_recovery() {
    let mut machine = fresh_machine();
    let identity = CommandIdentity::new(session("snapshot-client"), sequence(9));
    let committed = apply(&mut machine, identified(&identity, "snapshot-identified"));
    let committed_revision = machine.broker.revision();

    let mut recovered = recover(take_snapshot(&machine));
    let retry = apply(&mut recovered, identified(&identity, "snapshot-identified"));

    assert_eq!(retry, committed);
    assert_eq!(recovered.observation.revision(), committed_revision);
}

#[test]
fn truncated_incoming_snapshot_preserves_authoritative_state() {
    let machine = fresh_machine();
    let revision_before = machine.observation.revision();
    let applied_before = machine.observation.applied_index();

    let whole = encode_snapshot_frame(b"{\"schema_version\":1}", b"{}");
    for cut in 8..whole.len() {
        assert!(decode_snapshot_frame(&whole[..cut]).is_err());
    }
    assert_eq!(
        decode_snapshot_frame(b"{\"schema_version\":").unwrap(),
        SnapshotParts::Legacy
    );
    assert_eq!(machine.observation.revision(), revision_before);
    assert_eq!(machine.observation.applied_index(), applied_before);
    assert_eq!(complete_pair::<u8, u8>(None, None).unwrap(), None);
    assert!(complete_pair::<u8, u8>(Some(1), None).is_err());
    assert!(complete_pair::<u8, u8>(None, Some(1)).is_err());
}

#[test]
fn a_snapshot_frame_is_exactly_its_header_and_parts() {
    let frame = encode_snapshot_frame(b"ab", b"c");
    assert_eq!(frame.len(), 28 + 3);
    assert_eq!(&frame[8..12], &[0, 0, 0, 1]);
    assert_eq!(&frame[12..20], &[0, 0, 0, 0, 0, 0, 0, 2]);
    assert_eq!(&frame[20..28], &[0, 0, 0, 0, 0, 0, 0, 1]);
    assert_eq!(&frame[28..], b"abc");
    let mut longer = frame.clone();
    longer.push(0);
    assert!(decode_snapshot_frame(&longer).is_err());
    let mut newer = frame;
    newer[11] = 2;
    assert!(decode_snapshot_frame(&newer).is_err());
}

#[test]
fn snapshots_of_sessions_refuse_what_no_machine_writes() {
    let mut machine = fresh_machine();
    let identity = CommandIdentity::new(session("a"), sequence(1));
    apply(&mut machine, identified(&identity, "one"));
    let identity = CommandIdentity::new(session("b"), sequence(1));
    apply(&mut machine, identified(&identity, "two"));
    let written = encode_sessions(&machine.command_sessions);
    assert_eq!(written.records.len(), 2);
    assert_eq!(decode_sessions(&written).unwrap(), machine.command_sessions);

    let mut newer = encode_sessions(&machine.command_sessions);
    newer.version += 1;
    assert!(decode_sessions(&newer).is_err());
    let mut doubled = encode_sessions(&machine.command_sessions);
    doubled.records[1].session_id = "a".to_owned();
    assert!(decode_sessions(&doubled).is_err());
    let mut half = encode_sessions(&machine.command_sessions);
    half.records[0].sequence = None;
    assert!(decode_sessions(&half).is_err());
    let mut unowned = encode_sessions(&machine.command_sessions);
    unowned.records[0].owner_epoch = 0;
    assert!(decode_sessions(&unowned).is_err());
}

fn position(index: u64) -> LogPosition {
    LogPosition { leader_term: 3, leader_node_id: 1, index }
}

#[test]
fn committed_entries_move_the_machine_one_position_at_a_time() {
    let mut machine = fresh_machine();
    let answers = machine
        .apply(vec![
            CommittedEntry { position: position(1), payload: EntryPayload::Blank },
            CommittedEntry {
                position: position(2),
                payload: EntryPayload::Membership(vec![1, 2, 3]),
            },
            CommittedEntry {
                position: position(3),
                payload: EntryPayload::Normal(ReplicatedBrokerProposalV1::from_command(&ensure(
                    "project-a",
                ))),
            },
        ])
        .ok()
        .unwrap();
    assert_eq!(answers.len(), 3);
    assert_eq!(answers[0], ReplicatedBrokerResponseV1::RaftControl);
    assert_eq!(answers[1], ReplicatedBrokerResponseV1::RaftControl);
    assert!(matches!(answers[2], ReplicatedBrokerResponseV1::Success(_)));
    assert_eq!(machine.last_applied, Some(position(3)));
    assert_eq!(machine.last_membership.position, Some(position(2)));
    assert_eq!(machine.last_membership.membership, vec![1, 2, 3]);
    assert_eq!(machine.observation.applied_index(), Some(3));
    assert_eq!(machine.observation.revision().get(), 1);
    assert_eq!(machine.observation.term_value(), 1);
    assert_eq!(machine.observation.validated_term().unwrap(), Term::initial());
}

#[test]
fn an_installed_snapshot_replaces_the_whole_machine() {
    let mut machine = fresh_machine();
    apply(&mut machine, identified(&CommandIdentity::new(session("a"), sequence(1)), "one"));
    let mut other = fresh_broker();
    other.change(ensure("elsewhere")).unwrap();
    other.change(ensure("elsewhere-too")).unwrap();
    machine.install(
        other,
        CommandSessions::new(),
        Some(position(9)),
        StoredMembership { position: Some(position(4)), membership: vec![2] },
    );
    assert_eq!(machine.command_sessions.len(), 0);
    assert_eq!(machine.observation.applied_index(), Some(9));
    assert_eq!(machine.observation.revision().get(), 2);
    assert_eq!(machine.last_membership.membership, vec![2]);
}

#[test]
fn sequences_of_one_owner_only_ascend() {
    let mut machine = fresh_machine();
    let at = |value: u64| CommandIdentity::new(session("ascending"), sequence(value));
    apply(&mut machine, identified(&at(5), "five"));
    let older = refusal_of(apply(&mut machine, identified(&at(4), "four")));
    assert_eq!(older.code(), BrokerErrorCode::StaleFence);
    assert!(matches!(
        apply(&mut machine, identified(&at(6), "six")),
        ReplicatedBrokerResponseV1::Success(_)
    ));
    assert_eq!(machine.broker.revision, 2);
}

#[test]
fn acquisitions_carry_no_identity_and_valid_names() {
    let mut machine = fresh_machine();
    let identity = CommandIdentity::new(session("a"), sequence(1));
    let acquire = ReplicatedBrokerCommandV1::AcquireCommandSessionOwner {
        session_id: "a".to_owned(),
        expected_owner_epoch: 1,
        owner_instance_id: "o".to_owned(),
    };
    let refused = machine
        .apply_proposal(ReplicatedBrokerProposalV1::identified(&identity, acquire))
        .err()
        .unwrap();
    assert_eq!(
        refused.message(),
        "command-session owner acquisition must not carry identified mutation identity"
    );
    assert!(machine.apply_proposal(acquisition("a", 0, "o")).is_err());
    assert!(machine.apply_proposal(acquisition("-a", 1, "o")).is_err());
    assert!(machine.apply_proposal(acquisition("a", 1, "-o")).is_err());
    assert_eq!(machine.command_sessions.len(), 0);
}

#[test]
fn a_session_table_holds_a_bounded_number_of_sessions() {
    let mut machine = fresh_machine();
    for number in 0..4096 {
        let name = format!("session-{number}");
        acquired_epoch(&apply(&mut machine, acquisition(&name, 1, "o")));
    }
    let full = refusal_of(apply(&mut machine, acquisition("one-more", 1, "o")));
    assert_eq!(full.code(), BrokerErrorCode::CapacityExceeded);
    let identity = CommandIdentity::new(session("another"), sequence(1));
    let full = refusal_of(apply(&mut machine, identified(&identity, "n")));
    assert_eq!(full.code(), BrokerErrorCode::CapacityExceeded);
    acquired_epoch(&apply(&mut machine, acquisition("session-7", 1, "p")));
}

#[test]
fn snapshot_names_tell_their_position() {
    assert_eq!(snapshot_id(Some(position(12)), 7), "agent-broker-T3-N1-12-7");
    assert_eq!(snapshot_id(None, 7), "agent-broker-empty-7");
}

#[test]
fn a_snapshot_restores_whole_or_not_at_all() {
    let restore = |broker: MemoryBroker, list| restore_parts::<MemoryBroker>(broker, list);
    let (broker, sessions) = restore(fresh_broker(), None).ok().unwrap();
    assert_eq!(broker.revision, fresh_broker().revision);
    assert_eq!(sessions.len(), 0);

    let listed = encode_sessions(&CommandSessions::new());
    assert!(restore(fresh_broker(), Some(Ok(listed))).is_ok());
    let newer = CommandSessionsSnapshotV1 { version: 2, records: Vec::new() };
    assert_eq!(
        restore(fresh_broker(), Some(Ok(newer))).err().unwrap().message(),
        "unsupported command session snapshot version 2"
    );
    assert_eq!(
        restore(fresh_broker(), Some(Err("not a list".to_owned()))).err().unwrap().message(),
        "not a list"
    );
    let mut exhausted = fresh_broker();
    exhausted.revision = u64::MAX;
    assert_eq!(
        restore(exhausted, Some(Err("not a list".to_owned()))).err().unwrap().message(),
        "revision is exhausted"
    );
}
