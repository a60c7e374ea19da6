//! Deterministic commands of the Broker state machine.
use crate::domain::{
    Capabilities, ConsumerGroupId, ConsumerId, Generation, LeaseEpoch, LeaseId, NamespaceId, TaskId,
    TaskObjective, TaskResult, Term, TimestampMs,
};
use vstd::prelude::*;

verus! {

/// Idempotently create a namespace.
#[derive(Debug, Clone, PartialEq, Eq)]
pub struct EnsureNamespaceCommand {
    pub namespace_id: NamespaceId,
    pub max_namespaces: usize,
}

/// Idempotently publish a Task.
#[derive(Debug, Clone, PartialEq, Eq)]
pub struct PublishTaskCommand {
    pub namespace_id: NamespaceId,
    pub task_id: TaskId,
    pub objective: TaskObjective,
    pub created_at_ms: TimestampMs,
    pub max_namespace_tasks: usize,
}

/// Idempotently create a Consumer Group.
#[derive(Debug, Clone, PartialEq, Eq)]
pub struct EnsureConsumerGroupCommand {
    pub namespace_id: NamespaceId,
    pub group_id: ConsumerGroupId,
    pub max_namespace_groups: usize,
}

/// Join a member to a Consumer Group.
#[derive(Debug, Clone, PartialEq, Eq)]
pub struct JoinConsumerGroupCommand {
    pub group_id: ConsumerGroupId,
    pub member_id: ConsumerId,
    pub capabilities: Capabilities,
    pub now_ms: TimestampMs,
    pub max_group_members: usize,
}

/// Keep a member alive.
#[derive(Debug, Clone, PartialEq, Eq)]
pub struct HeartbeatCommand {
    pub group_id: ConsumerGroupId,
    pub member_id: ConsumerId,
    pub expected_generation: Generation,
    pub now_ms: TimestampMs,
}

/// Remove a member from a Consumer Group.
#[derive(Debug, Clone, PartialEq, Eq)]
pub struct LeaveConsumerGroupCommand {
    pub group_id: ConsumerGroupId,
    pub member_id: ConsumerId,
    pub expected_generation: Generation,
}

/// Remove members whose heartbeat is too old.
#[derive(Debug, Clone, PartialEq, Eq)]
pub struct ReapStaleMembersCommand {
    pub stale_before_ms: TimestampMs,
    pub max_members: usize,
}

/// Lease one queued Task to a member.
#[derive(Debug, Clone, PartialEq, Eq)]
pub struct ClaimTaskCommand {
    pub group_id: ConsumerGroupId,
    pub member_id: ConsumerId,
    pub expected_term: Term,
    pub expected_generation: Generation,
    pub lease_id: LeaseId,
    pub now_ms: TimestampMs,
    pub lease_duration_ms: u64,
}

/// Extend the lease of a Task.
#[derive(Debug, Clone, PartialEq, Eq)]
pub struct RenewTaskLeaseCommand {
    pub task_id: TaskId,
    pub group_id: ConsumerGroupId,
    pub member_id: ConsumerId,
    pub expected_term: Term,
    pub expected_generation: Generation,
    pub expected_lease_epoch: LeaseEpoch,
    pub lease_id: LeaseId,
    pub now_ms: TimestampMs,
    pub lease_duration_ms: u64,
}

/// Complete a leased Task.
#[derive(Debug, Clone, PartialEq, Eq)]
pub struct CompleteTaskCommand {
    pub task_id: TaskId,
    pub group_id: ConsumerGroupId,
    pub member_id: ConsumerId,
    pub expected_term: Term,
    pub expected_generation: Generation,
    pub expected_lease_epoch: LeaseEpoch,
    pub lease_id: LeaseId,
    pub result: TaskResult,
    pub completed_at_ms: TimestampMs,
}

/// Forget completed Tasks that are old enough.
#[derive(Debug, Clone, PartialEq, Eq)]
pub struct PruneCompletedTasksCommand {
    pub completed_before_ms: TimestampMs,
    pub max_tasks: usize,
}

/// Advance the Broker term.
#[derive(Debug, Clone, PartialEq, Eq)]
pub struct AdvanceTermCommand {
    pub expected_term: Term,
    pub new_term: Term,
}

/// One mutation of the Broker state.
#[derive(Debug, Clone, PartialEq, Eq)]
pub enum BrokerCommand {
    EnsureNamespace(EnsureNamespaceCommand),
    PublishTask(PublishTaskCommand),
    EnsureConsumerGroup(EnsureConsumerGroupCommand),
    JoinConsumerGroup(JoinConsumerGroupCommand),
    Heartbeat(HeartbeatCommand),
    LeaveConsumerGroup(LeaveConsumerGroupCommand),
    ReapStaleMembers(ReapStaleMembersCommand),
    ClaimTask(ClaimTaskCommand),
    RenewTaskLease(RenewTaskLeaseCommand),
    CompleteTask(CompleteTaskCommand),
    PruneCompletedTasks(PruneCompletedTasksCommand),
    AdvanceTerm(AdvanceTermCommand),
}

} // verus!
