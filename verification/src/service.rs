//! Typed application use cases above consensus.
use crate::command_identity::{
    CommandIdentity, CommandSessionId, SessionOwnerEpoch, SessionOwnerInstanceId,
};
use crate::commands::{
    AdvanceTermCommand, BrokerCommand, ClaimTaskCommand, CompleteTaskCommand,
    EnsureConsumerGroupCommand, EnsureNamespaceCommand, HeartbeatCommand, JoinConsumerGroupCommand,
    LeaveConsumerGroupCommand, PruneCompletedTasksCommand, PublishTaskCommand,
    ReapStaleMembersCommand, RenewTaskLeaseCommand,
};
use crate::consensus::ConsensusAdapter;
use crate::domain::{
    BrokerCapacityPolicy, Capabilities, CapacityView, ConsumerGroupId, ConsumerId, Generation,
    LeaseDurationMs, LeaseEpoch, LeaseId, NamespaceId, PruneTaskLimit, ReapMemberLimit, Revision,
    TaskId, TaskObjective, TaskResult, Term, TimestampMs,
};
use crate::error::{ambiguous_error, BrokerError, BrokerErrorCode, BrokerErrorView};
use crate::results::{
    BrokerMutationResult, CompletedTasksPrunedResult, ConsumerGroupDirectory, ConsumerGroupResult,
    HeartbeatResult, NamespaceResult, StaleMembersReapedResult, TaskClaimResult,
    TaskCompletedResult, TaskLeaseRenewedResult, TaskPublishedResult, TermAdvancedResult,
};
use vstd::prelude::*;

verus! {

/// Health metadata, returned without mutating the Broker.
#[derive(Debug, Clone, Copy, PartialEq, Eq, Structural)]
pub struct BrokerHealth {
    /// Current authoritative Broker term.
    pub term: Term,
    /// Current committed Broker revision.
    pub revision: Revision,
    /// Stable application protocol generation.
    pub protocol_version: u32,
}

/// Input of a Task claim.
#[derive(Debug, Clone, PartialEq, Eq)]
pub struct ClaimTaskInput {
    pub group_id: ConsumerGroupId,
    pub member_id: ConsumerId,
    pub expected_term: Term,
    pub expected_generation: Generation,
    pub lease_id: LeaseId,
    pub now_ms: TimestampMs,
    pub lease_duration: LeaseDurationMs,
}

/// Input of a Task lease renewal.
#[derive(Debug, Clone, PartialEq, Eq)]
pub struct RenewTaskLeaseInput {
    pub task_id: TaskId,
    pub group_id: ConsumerGroupId,
    pub member_id: ConsumerId,
    pub expected_term: Term,
    pub expected_generation: Generation,
    pub expected_lease_epoch: LeaseEpoch,
    pub lease_id: LeaseId,
    pub now_ms: TimestampMs,
    pub lease_duration: LeaseDurationMs,
}

/// Input of a Task completion.
#[derive(Debug, Clone, PartialEq, Eq)]
pub struct CompleteTaskInput {
    pub task_id: TaskId,
    pub group_id: ConsumerGroupId,
    pub member_id: ConsumerId,
    pub expected_term: Term,
    pub expected_generation: Generation,
    pub expected_lease_epoch: LeaseEpoch,
    pub lease_id: LeaseId,
    pub result: TaskResult,
    pub completed_at_ms: TimestampMs,
}

/// The error for a result of the wrong kind.
pub open spec fn unexpected_result_error(expected: Seq<char>) -> BrokerErrorView {
    ambiguous_error(
        BrokerErrorCode::InternalError,
        "consensus returned an unexpected result variant; expected "@ + expected,
    )
}

fn unexpected_result(expected: &str) -> (r: BrokerError)
    ensures
        r@ == unexpected_result_error(expected@),
{
    let message = "consensus returned an unexpected result variant; expected ".to_owned().concat(
        expected,
    );
    BrokerError::new(BrokerErrorCode::InternalError, message.as_str())
}

/// Whether `outcome` is what a use case makes of the answer of consensus: a refusal is passed on,
/// the picked result is the outcome, and a result of another kind is an internal error.
pub open spec fn is_narrowed<T>(
    answer: Result<BrokerMutationResult, BrokerError>,
    picked: Option<T>,
    expected: Seq<char>,
    outcome: Result<T, BrokerError>,
) -> bool {
    match answer {
        Err(error) => outcome == Err::<T, BrokerError>(error),
        Ok(_) => match picked {
            Some(value) => outcome == Ok::<T, BrokerError>(value),
            None => outcome matches Err(error) && error@ == unexpected_result_error(expected),
        },
    }
}

/// The Namespace result in an answer of consensus.
pub open spec fn picked_namespace(answer: Result<BrokerMutationResult, BrokerError>) -> Option<
    NamespaceResult,
> {
    match answer {
        Ok(BrokerMutationResult::Namespace(value)) => Some(value),
        _ => None,
    }
}

/// Narrow an answer of consensus to a Namespace result.
pub fn expect_namespace(answer: Result<BrokerMutationResult, BrokerError>) -> (r: Result<
    NamespaceResult,
    BrokerError,
>)
    ensures
        is_narrowed(answer, picked_namespace(answer), "Namespace"@, r),
{
    match answer {
        Ok(BrokerMutationResult::Namespace(value)) => Ok(value),
        Ok(_) => Err(unexpected_result("Namespace")),
        Err(error) => Err(error),
    }
}

/// The TaskPublished result in an answer of consensus.
pub open spec fn picked_task_published(answer: Result<BrokerMutationResult, BrokerError>) -> Option<
    TaskPublishedResult,
> {
    match answer {
        Ok(BrokerMutationResult::TaskPublished(value)) => Some(value),
        _ => None,
    }
}

/// Narrow an answer of consensus to a TaskPublished result.
pub fn expect_task_published(answer: Result<BrokerMutationResult, BrokerError>) -> (r: Result<
    TaskPublishedResult,
    BrokerError,
>)
    ensures
        is_narrowed(answer, picked_task_published(answer), "TaskPublished"@, r),
{
    match answer {
        Ok(BrokerMutationResult::TaskPublished(value)) => Ok(value),
        Ok(_) => Err(unexpected_result("TaskPublished")),
        Err(error) => Err(error),
    }
}

/// The ConsumerGroup result in an answer of consensus.
pub open spec fn picked_consumer_group(answer: Result<BrokerMutationResult, BrokerError>) -> Option<
    ConsumerGroupResult,
> {
    match answer {
        Ok(BrokerMutationResult::ConsumerGroup(value)) => Some(value),
        _ => None,
    }
}

/// Narrow an answer of consensus to a ConsumerGroup result.
pub fn expect_consumer_group(answer: Result<BrokerMutationResult, BrokerError>) -> (r: Result<
    ConsumerGroupResult,
    BrokerError,
>)
    ensures
        is_narrowed(answer, picked_consumer_group(answer), "ConsumerGroup"@, r),
{
    match answer {
        Ok(BrokerMutationResult::ConsumerGroup(value)) => Ok(value),
        Ok(_) => Err(unexpected_result("ConsumerGroup")),
        Err(error) => Err(error),
    }
}

/// The Heartbeat result in an answer of consensus.
pub open spec fn picked_heartbeat(answer: Result<BrokerMutationResult, BrokerError>) -> Option<
    HeartbeatResult,
> {
    match answer {
        Ok(BrokerMutationResult::Heartbeat(value)) => Some(value),
        _ => None,
    }
}

/// Narrow an answer of consensus to a Heartbeat result.
pub fn expect_heartbeat(answer: Result<BrokerMutationResult, BrokerError>) -> (r: Result<
    HeartbeatResult,
    BrokerError,
>)
    ensures
        is_narrowed(answer, picked_heartbeat(answer), "Heartbeat"@, r),
{
    match answer {
        Ok(BrokerMutationResult::Heartbeat(value)) => Ok(value),
        Ok(_) => Err(unexpected_result("Heartbeat")),
        Err(error) => Err(error),
    }
}

/// The StaleMembersReaped result in an answer of consensus.
pub open spec fn picked_stale_members_reaped(
    answer: Result<BrokerMutationResult, BrokerError>,
) -> Option<
    StaleMembersReapedResult,
> {
    match answer {
        Ok(BrokerMutationResult::StaleMembersReaped(value)) => Some(value),
        _ => None,
    }
}

/// Narrow an answer of consensus to a StaleMembersReaped result.
pub fn expect_stale_members_reaped(answer: Result<BrokerMutationResult, BrokerError>) -> (r: Result<
    StaleMembersReapedResult,
    BrokerError,
>)
    ensures
        is_narrowed(answer, picked_stale_members_reaped(answer), "StaleMembersReaped"@, r),
{
    match answer {
        Ok(BrokerMutationResult::StaleMembersReaped(value)) => Ok(value),
        Ok(_) => Err(unexpected_result("StaleMembersReaped")),
        Err(error) => Err(error),
    }
}

/// The TaskClaim result in an answer of consensus.
pub open spec fn picked_task_claim(answer: Result<BrokerMutationResult, BrokerError>) -> Option<
    TaskClaimResult,
> {
    match answer {
        Ok(BrokerMutationResult::TaskClaim(value)) => Some(value),
        _ => None,
    }
}

/// Narrow an answer of consensus to a TaskClaim result.
pub fn expect_task_claim(answer: Result<BrokerMutationResult, BrokerError>) -> (r: Result<
    TaskClaimResult,
    BrokerError,
>)
    ensures
        is_narrowed(answer, picked_task_claim(answer), "TaskClaim"@, r),
{
    match answer {
        Ok(BrokerMutationResult::TaskClaim(value)) => Ok(value),
        Ok(_) => Err(unexpected_result("TaskClaim")),
        Err(error) => Err(error),
    }
}

/// The TaskLeaseRenewed result in an answer of consensus.
pub open spec fn picked_task_lease_renewed(
    answer: Result<BrokerMutationResult, BrokerError>,
) -> Option<
    TaskLeaseRenewedResult,
> {
    match answer {
        Ok(BrokerMutationResult::TaskLeaseRenewed(value)) => Some(value),
        _ => None,
    }
}

/// Narrow an answer of consensus to a TaskLeaseRenewed result.
pub fn expect_task_lease_renewed(answer: Result<BrokerMutationResult, BrokerError>) -> (r: Result<
    TaskLeaseRenewedResult,
    BrokerError,
>)
    ensures
        is_narrowed(answer, picked_task_lease_renewed(answer), "TaskLeaseRenewed"@, r),
{
    match answer {
        Ok(BrokerMutationResult::TaskLeaseRenewed(value)) => Ok(value),
        Ok(_) => Err(unexpected_result("TaskLeaseRenewed")),
        Err(error) => Err(error),
    }
}

/// The TaskCompleted result in an answer of consensus.
pub open spec fn picked_task_completed(answer: Result<BrokerMutationResult, BrokerError>) -> Option<
    TaskCompletedResult,
> {
    match answer {
        Ok(BrokerMutationResult::TaskCompleted(value)) => Some(value),
        _ => None,
    }
}

/// Narrow an answer of consensus to a TaskCompleted result.
pub fn expect_task_completed(answer: Result<BrokerMutationResult, BrokerError>) -> (r: Result<
    TaskCompletedResult,
    BrokerError,
>)
    ensures
        is_narrowed(answer, picked_task_completed(answer), "TaskCompleted"@, r),
{
    match answer {
        Ok(BrokerMutationResult::TaskCompleted(value)) => Ok(value),
        Ok(_) => Err(unexpected_result("TaskCompleted")),
        Err(error) => Err(error),
    }
}

/// The CompletedTasksPruned result in an answer of consensus.
pub open spec fn picked_completed_tasks_pruned(
    answer: Result<BrokerMutationResult, BrokerError>,
) -> Option<
    CompletedTasksPrunedResult,
> {
    match answer {
        Ok(BrokerMutationResult::CompletedTasksPruned(value)) => Some(value),
        _ => None,
    }
}

/// Narrow an answer of consensus to a CompletedTasksPruned result.
pub fn expect_completed_tasks_pruned(
    answer: Result<BrokerMutationResult, BrokerError>,
) -> (r: Result<CompletedTasksPrunedResult, BrokerError>)
    ensures
        is_narrowed(answer, picked_completed_tasks_pruned(answer), "CompletedTasksPruned"@, r),
{
    match answer {
        Ok(BrokerMutationResult::CompletedTasksPruned(value)) => Ok(value),
        Ok(_) => Err(unexpected_result("CompletedTasksPruned")),
        Err(error) => Err(error),
    }
}

/// The TermAdvanced result in an answer of consensus.
pub open spec fn picked_term_advanced(answer: Result<BrokerMutationResult, BrokerError>) -> Option<
    TermAdvancedResult,
> {
    match answer {
        Ok(BrokerMutationResult::TermAdvanced(value)) => Some(value),
        _ => None,
    }
}

/// Narrow an answer of consensus to a TermAdvanced result.
pub fn expect_term_advanced(answer: Result<BrokerMutationResult, BrokerError>) -> (r: Result<
    TermAdvancedResult,
    BrokerError,
>)
    ensures
        is_narrowed(answer, picked_term_advanced(answer), "TermAdvanced"@, r),
{
    match answer {
        Ok(BrokerMutationResult::TermAdvanced(value)) => Ok(value),
        Ok(_) => Err(unexpected_result("TermAdvanced")),
        Err(error) => Err(error),
    }
}

/// Typed application use-case boundary above consensus and the deterministic state machine.
pub struct BrokerApplicationService<C: ConsensusAdapter> {
    consensus: C,
    capacity: BrokerCapacityPolicy,
}

impl<C: ConsensusAdapter> BrokerApplicationService<C> {
    pub closed spec fn spec_consensus(&self) -> C {
        self.consensus
    }

    pub closed spec fn spec_capacity(&self) -> CapacityView {
        self.capacity@
    }

    /// The service over a consensus adapter with an explicit capacity policy.
    pub fn new(consensus: C, capacity: BrokerCapacityPolicy) -> (r: Self)
        ensures
            r.spec_consensus() == consensus,
            r.spec_capacity() == capacity@,
    {
        BrokerApplicationService { consensus, capacity }
    }

    /// Current health metadata, without a proposal.
    pub fn health(&self) -> (r: BrokerHealth)
        ensures
            call_ensures(C::term, (&self.spec_consensus(),), r.term),
            call_ensures(C::revision, (&self.spec_consensus(),), r.revision),
            r.protocol_version == 1,
    {
        BrokerHealth {
            term: self.consensus.term(),
            revision: self.consensus.revision(),
            protocol_version: 1,
        }
    }

    /// The Consumer Group directory of the consensus authority.
    pub fn group_directory(&mut self) -> (r: Result<ConsumerGroupDirectory, BrokerError>)
        ensures
            final(self).spec_capacity() == old(self).spec_capacity(),
            exists|consensus: &mut C|
                *consensus == old(self).spec_consensus() && *final(consensus)
                    == final(self).spec_consensus() && #[trigger] call_ensures(
                    C::group_directory,
                    (consensus,),
                    r,
                ),
    {
        self.consensus.group_directory()
    }

    /// Whether this process currently may start bounded maintenance.
    pub fn maintenance_authority(&mut self) -> (r: Result<bool, BrokerError>)
        ensures
            final(self).spec_capacity() == old(self).spec_capacity(),
            exists|consensus: &mut C|
                *consensus == old(self).spec_consensus() && *final(consensus)
                    == final(self).spec_consensus() && #[trigger] call_ensures(
                    C::maintenance_authority,
                    (consensus,),
                    r,
                ),
    {
        self.consensus.maintenance_authority()
    }

    /// Submit one domain mutation with a durable command identity.
    pub fn propose_identified(
        &mut self,
        identity: CommandIdentity,
        command: BrokerCommand,
    ) -> (r: Result<BrokerMutationResult, BrokerError>)
        ensures
            final(self).spec_capacity() == old(self).spec_capacity(),
            exists|consensus: &mut C|
                *consensus == old(self).spec_consensus() && *final(consensus)
                    == final(self).spec_consensus() && #[trigger] call_ensures(
                    C::propose_identified,
                    (consensus, identity, command),
                    r,
                ),
    {
        self.consensus.propose_identified(identity, command)
    }

    /// Acquire command-session ownership through consensus.
    pub fn acquire_command_session_owner(
        &mut self,
        session_id: CommandSessionId,
        expected_owner_epoch: SessionOwnerEpoch,
        owner_instance_id: SessionOwnerInstanceId,
    ) -> (r: Result<SessionOwnerEpoch, BrokerError>)
        ensures
            final(self).spec_capacity() == old(self).spec_capacity(),
            exists|consensus: &mut C|
                *consensus == old(self).spec_consensus() && *final(consensus)
                    == final(self).spec_consensus() && #[trigger] call_ensures(
                    C::acquire_command_session_owner,
                    (consensus, session_id, expected_owner_epoch, owner_instance_id),
                    r,
                ),
    {
        self.consensus.acquire_command_session_owner(
            session_id,
            expected_owner_epoch,
            owner_instance_id,
        )
    }

    /// The underlying adapter, for composition and shutdown only.
    pub fn into_consensus(self) -> (r: C)
        ensures
            r == self.spec_consensus(),
    {
        self.consensus
    }

    /// Idempotently ensure a namespace within the configured capacity.
    pub fn ensure_namespace(
        &mut self,
        namespace_id: NamespaceId,
    ) -> (r: Result<NamespaceResult, BrokerError>)
        ensures
            final(self).spec_capacity() == old(self).spec_capacity(),
            exists|consensus: &mut C, answer: Result<BrokerMutationResult, BrokerError>|
                *consensus == old(self).spec_consensus() && *final(consensus)
                    == final(self).spec_consensus() && #[trigger] call_ensures(
                    C::propose,
                    (
                        consensus,
                        BrokerCommand::EnsureNamespace((EnsureNamespaceCommand {
                                namespace_id,
                                max_namespaces: old(self).spec_capacity().max_namespaces,
                            })),
                    ),
                    answer,
                ) && is_narrowed(answer, picked_namespace(answer), "Namespace"@, r),
    {
        let command = BrokerCommand::EnsureNamespace(EnsureNamespaceCommand {
                namespace_id,
                max_namespaces: self.capacity.max_namespaces(),
            });
        expect_namespace(self.consensus.propose(command))
    }

    /// Identified variant of [`Self::ensure_namespace`].
    pub fn ensure_namespace_identified(
        &mut self,
        identity: CommandIdentity,
        namespace_id: NamespaceId,
    ) -> (r: Result<NamespaceResult, BrokerError>)
        ensures
            final(self).spec_capacity() == old(self).spec_capacity(),
            exists|consensus: &mut C, answer: Result<BrokerMutationResult, BrokerError>|
                *consensus == old(self).spec_consensus() && *final(consensus)
                    == final(self).spec_consensus() && #[trigger] call_ensures(
                    C::propose_identified,
                    (
                        consensus,
                        identity,
                        BrokerCommand::EnsureNamespace((EnsureNamespaceCommand {
                                namespace_id,
                                max_namespaces: old(self).spec_capacity().max_namespaces,
                            })),
                    ),
                    answer,
                ) && is_narrowed(answer, picked_namespace(answer), "Namespace"@, r),
    {
        let command = BrokerCommand::EnsureNamespace(EnsureNamespaceCommand {
                namespace_id,
                max_namespaces: self.capacity.max_namespaces(),
            });
        expect_namespace(self.consensus.propose_identified(identity, command))
    }

    /// Idempotently publish a Task within the configured capacity of its namespace.
    pub fn publish_task(
        &mut self,
        namespace_id: NamespaceId,
        task_id: TaskId,
        objective: TaskObjective,
        created_at_ms: TimestampMs,
    ) -> (r: Result<TaskPublishedResult, BrokerError>)
        ensures
            final(self).spec_capacity() == old(self).spec_capacity(),
            exists|consensus: &mut C, answer: Result<BrokerMutationResult, BrokerError>|
                *consensus == old(self).spec_consensus() && *final(consensus)
                    == final(self).spec_consensus() && #[trigger] call_ensures(
                    C::propose,
                    (
                        consensus,
                        BrokerCommand::PublishTask((PublishTaskCommand {
                                namespace_id,
                                task_id,
                                objective,
                                created_at_ms,
                                max_namespace_tasks: old(self).spec_capacity().max_tasks_per_namespace,
                            })),
                    ),
                    answer,
                ) && is_narrowed(answer, picked_task_published(answer), "TaskPublished"@, r),
    {
        let command = BrokerCommand::PublishTask(PublishTaskCommand {
                namespace_id,
                task_id,
                objective,
                created_at_ms,
                max_namespace_tasks: self.capacity.max_tasks_per_namespace(),
            });
        expect_task_published(self.consensus.propose(command))
    }

    /// Identified variant of [`Self::publish_task`].
    pub fn publish_task_identified(
        &mut self,
        identity: CommandIdentity,
        namespace_id: NamespaceId,
        task_id: TaskId,
        objective: TaskObjective,
        created_at_ms: TimestampMs,
    ) -> (r: Result<TaskPublishedResult, BrokerError>)
        ensures
            final(self).spec_capacity() == old(self).spec_capacity(),
            exists|consensus: &mut C, answer: Result<BrokerMutationResult, BrokerError>|
                *consensus == old(self).spec_consensus() && *final(consensus)
                    == final(self).spec_consensus() && #[trigger] call_ensures(
                    C::propose_identified,
                    (
                        consensus,
                        identity,
                        BrokerCommand::PublishTask((PublishTaskCommand {
                                namespace_id,
                                task_id,
                                objective,
                                created_at_ms,
                                max_namespace_tasks: old(self).spec_capacity().max_tasks_per_namespace,
                            })),
                    ),
                    answer,
                ) && is_narrowed(answer, picked_task_published(answer), "TaskPublished"@, r),
    {
        let command = BrokerCommand::PublishTask(PublishTaskCommand {
                namespace_id,
                task_id,
                objective,
                created_at_ms,
                max_namespace_tasks: self.capacity.max_tasks_per_namespace(),
            });
        expect_task_published(self.consensus.propose_identified(identity, command))
    }

    /// Idempotently ensure a Consumer Group within the configured capacity of its namespace.
    pub fn ensure_consumer_group(
        &mut self,
        namespace_id: NamespaceId,
        group_id: ConsumerGroupId,
    ) -> (r: Result<ConsumerGroupResult, BrokerError>)
        ensures
            final(self).spec_capacity() == old(self).spec_capacity(),
            exists|consensus: &mut C, answer: Result<BrokerMutationResult, BrokerError>|
                *consensus == old(self).spec_consensus() && *final(consensus)
                    == final(self).spec_consensus() && #[trigger] call_ensures(
                    C::propose,
                    (
                        consensus,
                        BrokerCommand::EnsureConsumerGroup((EnsureConsumerGroupCommand {
                                namespace_id,
                                group_id,
                                max_namespace_groups: old(self).spec_capacity().max_groups_per_namespace,
                            })),
                    ),
                    answer,
                ) && is_narrowed(answer, picked_consumer_group(answer), "ConsumerGroup"@, r),
    {
        let command = BrokerCommand::EnsureConsumerGroup(EnsureConsumerGroupCommand {
                namespace_id,
                group_id,
                max_namespace_groups: self.capacity.max_groups_per_namespace(),
            });
        expect_consumer_group(self.consensus.propose(command))
    }

    /// Identified variant of [`Self::ensure_consumer_group`].
    pub fn ensure_consumer_group_identified(
        &mut self,
        identity: CommandIdentity,
        namespace_id: NamespaceId,
        group_id: ConsumerGroupId,
    ) -> (r: Result<ConsumerGroupResult, BrokerError>)
        ensures
            final(self).spec_capacity() == old(self).spec_capacity(),
            exists|consensus: &mut C, answer: Result<BrokerMutationResult, BrokerError>|
                *consensus == old(self).spec_consensus() && *final(consensus)
                    == final(self).spec_consensus() && #[trigger] call_ensures(
                    C::propose_identified,
                    (
                        consensus,
                        identity,
                        BrokerCommand::EnsureConsumerGroup((EnsureConsumerGroupCommand {
                                namespace_id,
                                group_id,
                                max_namespace_groups: old(self).spec_capacity().max_groups_per_namespace,
                            })),
                    ),
                    answer,
                ) && is_narrowed(answer, picked_consumer_group(answer), "ConsumerGroup"@, r),
    {
        let command = BrokerCommand::EnsureConsumerGroup(EnsureConsumerGroupCommand {
                namespace_id,
                group_id,
                max_namespace_groups: self.capacity.max_groups_per_namespace(),
            });
        expect_consumer_group(self.consensus.propose_identified(identity, command))
    }

    /// Join a member within the configured capacity of its Consumer Group.
    pub fn join_consumer_group(
        &mut self,
        group_id: ConsumerGroupId,
        member_id: ConsumerId,
        capabilities: Capabilities,
        now_ms: TimestampMs,
    ) -> (r: Result<ConsumerGroupResult, BrokerError>)
        ensures
            final(self).spec_capacity() == old(self).spec_capacity(),
            exists|consensus: &mut C, answer: Result<BrokerMutationResult, BrokerError>|
                *consensus == old(self).spec_consensus() && *final(consensus)
                    == final(self).spec_consensus() && #[trigger] call_ensures(
                    C::propose,
                    (
                        consensus,
                        BrokerCommand::JoinConsumerGroup((JoinConsumerGroupCommand {
                                group_id,
                                member_id,
                                capabilities,
                                now_ms,
                                max_group_members: old(self).spec_capacity().max_members_per_group,
                            })),
                    ),
                    answer,
                ) && is_narrowed(answer, picked_consumer_group(answer), "ConsumerGroup"@, r),
    {
        let command = BrokerCommand::JoinConsumerGroup(JoinConsumerGroupCommand {
                group_id,
                member_id,
                capabilities,
                now_ms,
                max_group_members: self.capacity.max_members_per_group(),
            });
        expect_consumer_group(self.consensus.propose(command))
    }

    /// Identified variant of [`Self::join_consumer_group`].
    pub fn join_consumer_group_identified(
        &mut self,
        identity: CommandIdentity,
        group_id: ConsumerGroupId,
        member_id: ConsumerId,
        capabilities: Capabilities,
        now_ms: TimestampMs,
    ) -> (r: Result<ConsumerGroupResult, BrokerError>)
        ensures
            final(self).spec_capacity() == old(self).spec_capacity(),
            exists|consensus: &mut C, answer: Result<BrokerMutationResult, BrokerError>|
                *consensus == old(self).spec_consensus() && *final(consensus)
                    == final(self).spec_consensus() && #[trigger] call_ensures(
                    C::propose_identified,
                    (
                        consensus,
                        identity,
                        BrokerCommand::JoinConsumerGroup((JoinConsumerGroupCommand {
                                group_id,
                                member_id,
                                capabilities,
                                now_ms,
                                max_group_members: old(self).spec_capacity().max_members_per_group,
                            })),
                    ),
                    answer,
                ) && is_narrowed(answer, picked_consumer_group(answer), "ConsumerGroup"@, r),
    {
        let command = BrokerCommand::JoinConsumerGroup(JoinConsumerGroupCommand {
                group_id,
                member_id,
                capabilities,
                now_ms,
                max_group_members: self.capacity.max_members_per_group(),
            });
        expect_consumer_group(self.consensus.propose_identified(identity, command))
    }

    /// Record a heartbeat under an explicit generation fence.
    pub fn heartbeat(
        &mut self,
        group_id: ConsumerGroupId,
        member_id: ConsumerId,
        expected_generation: Generation,
        now_ms: TimestampMs,
    ) -> (r: Result<HeartbeatResult, BrokerError>)
        ensures
            final(self).spec_capacity() == old(self).spec_capacity(),
            exists|consensus: &mut C, answer: Result<BrokerMutationResult, BrokerError>|
                *consensus == old(self).spec_consensus() && *final(consensus)
                    == final(self).spec_consensus() && #[trigger] call_ensures(
                    C::propose,
                    (
                        consensus,
                        BrokerCommand::Heartbeat((HeartbeatCommand {
                                group_id,
                                member_id,
                                expected_generation,
                                now_ms,
                            })),
                    ),
                    answer,
                ) && is_narrowed(answer, picked_heartbeat(answer), "Heartbeat"@, r),
    {
        let command = BrokerCommand::Heartbeat(HeartbeatCommand {
                group_id,
                member_id,
                expected_generation,
                now_ms,
            });
        expect_heartbeat(self.consensus.propose(command))
    }

    /// Identified variant of [`Self::heartbeat`].
    pub fn heartbeat_identified(
        &mut self,
        identity: CommandIdentity,
        group_id: ConsumerGroupId,
        member_id: ConsumerId,
        expected_generation: Generation,
        now_ms: TimestampMs,
    ) -> (r: Result<HeartbeatResult, BrokerError>)
        ensures
            final(self).spec_capacity() == old(self).spec_capacity(),
            exists|consensus: &mut C, answer: Result<BrokerMutationResult, BrokerError>|
                *consensus == old(self).spec_consensus() && *final(consensus)
                    == final(self).spec_consensus() && #[trigger] call_ensures(
                    C::propose_identified,
                    (
                        consensus,
                        identity,
                        BrokerCommand::Heartbeat((HeartbeatCommand {
                                group_id,
                                member_id,
                                expected_generation,
                                now_ms,
                            })),
                    ),
                    answer,
                ) && is_narrowed(answer, picked_heartbeat(answer), "Heartbeat"@, r),
    {
        let command = BrokerCommand::Heartbeat(HeartbeatCommand {
                group_id,
                member_id,
                expected_generation,
                now_ms,
            });
        expect_heartbeat(self.consensus.propose_identified(identity, command))
    }

    /// Remove a member under an explicit generation fence.
    pub fn leave_consumer_group(
        &mut self,
        group_id: ConsumerGroupId,
        member_id: ConsumerId,
        expected_generation: Generation,
    ) -> (r: Result<ConsumerGroupResult, BrokerError>)
        ensures
            final(self).spec_capacity() == old(self).spec_capacity(),
            exists|consensus: &mut C, answer: Result<BrokerMutationResult, BrokerError>|
                *consensus == old(self).spec_consensus() && *final(consensus)
                    == final(self).spec_consensus() && #[trigger] call_ensures(
                    C::propose,
                    (
                        consensus,
                        BrokerCommand::LeaveConsumerGroup((LeaveConsumerGroupCommand {
                                group_id,
                                member_id,
                                expected_generation,
                            })),
                    ),
                    answer,
                ) && is_narrowed(answer, picked_consumer_group(answer), "ConsumerGroup"@, r),
    {
        let command = BrokerCommand::LeaveConsumerGroup(LeaveConsumerGroupCommand {
                group_id,
                member_id,
                expected_generation,
            });
        expect_consumer_group(self.consensus.propose(command))
    }

    /// Identified variant of [`Self::leave_consumer_group`].
    pub fn leave_consumer_group_identified(
        &mut self,
        identity: CommandIdentity,
        group_id: ConsumerGroupId,
        member_id: ConsumerId,
        expected_generation: Generation,
    ) -> (r: Result<ConsumerGroupResult, BrokerError>)
        ensures
            final(self).spec_capacity() == old(self).spec_capacity(),
            exists|consensus: &mut C, answer: Result<BrokerMutationResult, BrokerError>|
                *consensus == old(self).spec_consensus() && *final(consensus)
                    == final(self).spec_consensus() && #[trigger] call_ensures(
                    C::propose_identified,
                    (
                        consensus,
                        identity,
                        BrokerCommand::LeaveConsumerGroup((LeaveConsumerGroupCommand {
                                group_id,
                                member_id,
                                expected_generation,
                            })),
                    ),
                    answer,
                ) && is_narrowed(answer, picked_consumer_group(answer), "ConsumerGroup"@, r),
    {
        let command = BrokerCommand::LeaveConsumerGroup(LeaveConsumerGroupCommand {
                group_id,
                member_id,
                expected_generation,
            });
        expect_consumer_group(self.consensus.propose_identified(identity, command))
    }

    /// Remove a bounded number of stale members.
    pub fn reap_stale_members(
        &mut self,
        stale_before_ms: TimestampMs,
        max_members: ReapMemberLimit,
    ) -> (r: Result<StaleMembersReapedResult, BrokerError>)
        ensures
            final(self).spec_capacity() == old(self).spec_capacity(),
            exists|consensus: &mut C, answer: Result<BrokerMutationResult, BrokerError>|
                *consensus == old(self).spec_consensus() && *final(consensus)
                    == final(self).spec_consensus() && #[trigger] call_ensures(
                    C::propose,
                    (
                        consensus,
                        BrokerCommand::ReapStaleMembers((ReapStaleMembersCommand {
                                stale_before_ms,
                                max_members: max_members@,
                            })),
                    ),
                    answer,
                )
                    && is_narrowed(
                        answer,
                        picked_stale_members_reaped(answer),
                        "StaleMembersReaped"@,
                        r,
                    ),
    {
        let command = BrokerCommand::ReapStaleMembers(ReapStaleMembersCommand {
                stale_before_ms,
                max_members: max_members.get(),
            });
        expect_stale_members_reaped(self.consensus.propose(command))
    }

    /// Claim one queued Task under explicit term and generation fences.
    pub fn claim_task(
        &mut self,
        input: ClaimTaskInput,
    ) -> (r: Result<TaskClaimResult, BrokerError>)
        ensures
            final(self).spec_capacity() == old(self).spec_capacity(),
            exists|consensus: &mut C, answer: Result<BrokerMutationResult, BrokerError>|
                *consensus == old(self).spec_consensus() && *final(consensus)
                    == final(self).spec_consensus() && #[trigger] call_ensures(
                    C::propose,
                    (
                        consensus,
                        BrokerCommand::ClaimTask((ClaimTaskCommand {
                                group_id: input.group_id,
                                member_id: input.member_id,
                                expected_term: input.expected_term,
                                expected_generation: input.expected_generation,
                                lease_id: input.lease_id,
                                now_ms: input.now_ms,
                                lease_duration_ms: input.lease_duration@,
                            })),
                    ),
                    answer,
                ) && is_narrowed(answer, picked_task_claim(answer), "TaskClaim"@, r),
    {
        let command = BrokerCommand::ClaimTask(ClaimTaskCommand {
                group_id: input.group_id,
                member_id: input.member_id,
                expected_term: input.expected_term,
                expected_generation: input.expected_generation,
                lease_id: input.lease_id,
                now_ms: input.now_ms,
                lease_duration_ms: input.lease_duration.get(),
            });
        expect_task_claim(self.consensus.propose(command))
    }

    /// Identified variant of [`Self::claim_task`].
    pub fn claim_task_identified(
        &mut self,
        identity: CommandIdentity,
        input: ClaimTaskInput,
    ) -> (r: Result<TaskClaimResult, BrokerError>)
        ensures
            final(self).spec_capacity() == old(self).spec_capacity(),
            exists|consensus: &mut C, answer: Result<BrokerMutationResult, BrokerError>|
                *consensus == old(self).spec_consensus() && *final(consensus)
                    == final(self).spec_consensus() && #[trigger] call_ensures(
                    C::propose_identified,
                    (
                        consensus,
                        identity,
                        BrokerCommand::ClaimTask((ClaimTaskCommand {
                                group_id: input.group_id,
                                member_id: input.member_id,
                                expected_term: input.expected_term,
                                expected_generation: input.expected_generation,
                                lease_id: input.lease_id,
                                now_ms: input.now_ms,
                                lease_duration_ms: input.lease_duration@,
                            })),
                    ),
                    answer,
                ) && is_narrowed(answer, picked_task_claim(answer), "TaskClaim"@, r),
    {
        let command = BrokerCommand::ClaimTask(ClaimTaskCommand {
                group_id: input.group_id,
                member_id: input.member_id,
                expected_term: input.expected_term,
                expected_generation: input.expected_generation,
                lease_id: input.lease_id,
                now_ms: input.now_ms,
                lease_duration_ms: input.lease_duration.get(),
            });
        expect_task_claim(self.consensus.propose_identified(identity, command))
    }

    /// Renew a Task lease under explicit fences.
    pub fn renew_task_lease(
        &mut self,
        input: RenewTaskLeaseInput,
    ) -> (r: Result<TaskLeaseRenewedResult, BrokerError>)
        ensures
            final(self).spec_capacity() == old(self).spec_capacity(),
            exists|consensus: &mut C, answer: Result<BrokerMutationResult, BrokerError>|
                *consensus == old(self).spec_consensus() && *final(consensus)
                    == final(self).spec_consensus() && #[trigger] call_ensures(
                    C::propose,
                    (
                        consensus,
                        BrokerCommand::RenewTaskLease((RenewTaskLeaseCommand {
                                task_id: input.task_id,
                                group_id: input.group_id,
                                member_id: input.member_id,
                                expected_term: input.expected_term,
                                expected_generation: input.expected_generation,
                                expected_lease_epoch: input.expected_lease_epoch,
                                lease_id: input.lease_id,
                                now_ms: input.now_ms,
                                lease_duration_ms: input.lease_duration@,
                            })),
                    ),
                    answer,
                ) && is_narrowed(answer, picked_task_lease_renewed(answer), "TaskLeaseRenewed"@, r),
    {
        let command = BrokerCommand::RenewTaskLease(RenewTaskLeaseCommand {
                task_id: input.task_id,
                group_id: input.group_id,
                member_id: input.member_id,
                expected_term: input.expected_term,
                expected_generation: input.expected_generation,
                expected_lease_epoch: input.expected_lease_epoch,
                lease_id: input.lease_id,
                now_ms: input.now_ms,
                lease_duration_ms: input.lease_duration.get(),
            });
        expect_task_lease_renewed(self.consensus.propose(command))
    }

    /// Identified variant of [`Self::renew_task_lease`].
    pub fn renew_task_lease_identified(
        &mut self,
        identity: CommandIdentity,
        input: RenewTaskLeaseInput,
    ) -> (r: Result<TaskLeaseRenewedResult, BrokerError>)
        ensures
            final(self).spec_capacity() == old(self).spec_capacity(),
            exists|consensus: &mut C, answer: Result<BrokerMutationResult, BrokerError>|
                *consensus == old(self).spec_consensus() && *final(consensus)
                    == final(self).spec_consensus() && #[trigger] call_ensures(
                    C::propose_identified,
                    (
                        consensus,
                        identity,
                        BrokerCommand::RenewTaskLease((RenewTaskLeaseCommand {
                                task_id: input.task_id,
                                group_id: input.group_id,
                                member_id: input.member_id,
                                expected_term: input.expected_term,
                                expected_generation: input.expected_generation,
                                expected_lease_epoch: input.expected_lease_epoch,
                                lease_id: input.lease_id,
                                now_ms: input.now_ms,
                                lease_duration_ms: input.lease_duration@,
                            })),
                    ),
                    answer,
                ) && is_narrowed(answer, picked_task_lease_renewed(answer), "TaskLeaseRenewed"@, r),
    {
        let command = BrokerCommand::RenewTaskLease(RenewTaskLeaseCommand {
                task_id: input.task_id,
                group_id: input.group_id,
                member_id: input.member_id,
                expected_term: input.expected_term,
                expected_generation: input.expected_generation,
                expected_lease_epoch: input.expected_lease_epoch,
                lease_id: input.lease_id,
                now_ms: input.now_ms,
                lease_duration_ms: input.lease_duration.get(),
            });
        expect_task_lease_renewed(self.consensus.propose_identified(identity, command))
    }

    /// Complete a leased Task under explicit fences.
    pub fn complete_task(
        &mut self,
        input: CompleteTaskInput,
    ) -> (r: Result<TaskCompletedResult, BrokerError>)
        ensures
            final(self).spec_capacity() == old(self).spec_capacity(),
            exists|consensus: &mut C, answer: Result<BrokerMutationResult, BrokerError>|
                *consensus == old(self).spec_consensus() && *final(consensus)
                    == final(self).spec_consensus() && #[trigger] call_ensures(
                    C::propose,
                    (
                        consensus,
                        BrokerCommand::CompleteTask((CompleteTaskCommand {
                                task_id: input.task_id,
                                group_id: input.group_id,
                                member_id: input.member_id,
                                expected_term: input.expected_term,
                                expected_generation: input.expected_generation,
                                expected_lease_epoch: input.expected_lease_epoch,
                                lease_id: input.lease_id,
                                result: input.result,
                                completed_at_ms: input.completed_at_ms,
                            })),
                    ),
                    answer,
                ) && is_narrowed(answer, picked_task_completed(answer), "TaskCompleted"@, r),
    {
        let command = BrokerCommand::CompleteTask(CompleteTaskCommand {
                task_id: input.task_id,
                group_id: input.group_id,
                member_id: input.member_id,
                expected_term: input.expected_term,
                expected_generation: input.expected_generation,
                expected_lease_epoch: input.expected_lease_epoch,
                lease_id: input.lease_id,
                result: input.result,
                completed_at_ms: input.completed_at_ms,
            });
        expect_task_completed(self.consensus.propose(command))
    }

    /// Identified variant of [`Self::complete_task`].
    pub fn complete_task_identified(
        &mut self,
        identity: CommandIdentity,
        input: CompleteTaskInput,
    ) -> (r: Result<TaskCompletedResult, BrokerError>)
        ensures
            final(self).spec_capacity() == old(self).spec_capacity(),
            exists|consensus: &mut C, answer: Result<BrokerMutationResult, BrokerError>|
                *consensus == old(self).spec_consensus() && *final(consensus)
                    == final(self).spec_consensus() && #[trigger] call_ensures(
                    C::propose_identified,
                    (
                        consensus,
                        identity,
                        BrokerCommand::CompleteTask((CompleteTaskCommand {
                                task_id: input.task_id,
                                group_id: input.group_id,
                                member_id: input.member_id,
                                expected_term: input.expected_term,
                                expected_generation: input.expected_generation,
                                expected_lease_epoch: input.expected_lease_epoch,
                                lease_id: input.lease_id,
                                result: input.result,
                                completed_at_ms: input.completed_at_ms,
                            })),
                    ),
                    answer,
                ) && is_narrowed(answer, picked_task_completed(answer), "TaskCompleted"@, r),
    {
        let command = BrokerCommand::CompleteTask(CompleteTaskCommand {
                task_id: input.task_id,
                group_id: input.group_id,
                member_id: input.member_id,
                expected_term: input.expected_term,
                expected_generation: input.expected_generation,
                expected_lease_epoch: input.expected_lease_epoch,
                lease_id: input.lease_id,
                result: input.result,
                completed_at_ms: input.completed_at_ms,
            });
        expect_task_completed(self.consensus.propose_identified(identity, command))
    }

    /// Forget a bounded number of old completed Tasks.
    pub fn prune_completed_tasks(
        &mut self,
        completed_before_ms: TimestampMs,
        max_tasks: PruneTaskLimit,
    ) -> (r: Result<CompletedTasksPrunedResult, BrokerError>)
        ensures
            final(self).spec_capacity() == old(self).spec_capacity(),
            exists|consensus: &mut C, answer: Result<BrokerMutationResult, BrokerError>|
                *consensus == old(self).spec_consensus() && *final(consensus)
                    == final(self).spec_consensus() && #[trigger] call_ensures(
                    C::propose,
                    (
                        consensus,
                        BrokerCommand::PruneCompletedTasks((PruneCompletedTasksCommand {
                                completed_before_ms,
                                max_tasks: max_tasks@,
                            })),
                    ),
                    answer,
                )
                    && is_narrowed(
                        answer,
                        picked_completed_tasks_pruned(answer),
                        "CompletedTasksPruned"@,
                        r,
                    ),
    {
        let command = BrokerCommand::PruneCompletedTasks(PruneCompletedTasksCommand {
                completed_before_ms,
                max_tasks: max_tasks.get(),
            });
        expect_completed_tasks_pruned(self.consensus.propose(command))
    }

    /// Advance the Broker term.
    pub fn advance_term(
        &mut self,
        expected_term: Term,
        new_term: Term,
    ) -> (r: Result<TermAdvancedResult, BrokerError>)
        ensures
            final(self).spec_capacity() == old(self).spec_capacity(),
            exists|consensus: &mut C, answer: Result<BrokerMutationResult, BrokerError>|
                *consensus == old(self).spec_consensus() && *final(consensus)
                    == final(self).spec_consensus() && #[trigger] call_ensures(
                    C::propose,
                    (
                        consensus,
                        BrokerCommand::AdvanceTerm((AdvanceTermCommand {
                                expected_term,
                                new_term,
                            })),
                    ),
                    answer,
                ) && is_narrowed(answer, picked_term_advanced(answer), "TermAdvanced"@, r),
    {
        let command = BrokerCommand::AdvanceTerm(AdvanceTermCommand {
                expected_term,
                new_term,
            });
        expect_term_advanced(self.consensus.propose(command))
    }
}

} // verus!
