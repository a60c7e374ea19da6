//! Results of the deterministic Broker commands.
use crate::domain::{
    ConsumerGroupId, Generation, LeaseEpoch, LeaseId, MemberId, NamespaceId, Revision, TaskId,
    TaskObjective, Term, TimestampMs,
};
use vstd::prelude::*;

verus! {

/// Lifecycle state of a Task.
#[derive(Debug, Clone, Copy, PartialEq, Eq, Structural)]
pub enum TaskStatus {
    Queued,
    Leased,
    Completed,
}

/// Term and revision at which a mutation took effect.
#[derive(Debug, Clone, Copy, PartialEq, Eq, Structural)]
pub struct MutationMetadata {
    pub term: Term,
    pub revision: Revision,
}

/// A namespace exists.
#[derive(Debug, Clone, PartialEq, Eq)]
pub struct NamespaceResult {
    pub metadata: MutationMetadata,
    pub namespace_id: NamespaceId,
    pub namespace_revision: Revision,
}

/// A Task is published.
#[derive(Debug, Clone, PartialEq, Eq)]
pub struct TaskPublishedResult {
    pub metadata: MutationMetadata,
    pub task_id: TaskId,
    pub task_revision: Revision,
    pub status: TaskStatus,
}

/// A Consumer Group exists in the stated shape.
#[derive(Debug, Clone, PartialEq, Eq)]
pub struct ConsumerGroupResult {
    pub metadata: MutationMetadata,
    pub group_id: ConsumerGroupId,
    pub generation: Generation,
    pub group_revision: Revision,
    pub member_count: usize,
}

/// A heartbeat is recorded.
#[derive(Debug, Clone, PartialEq, Eq)]
pub struct HeartbeatResult {
    pub metadata: MutationMetadata,
    pub group_id: ConsumerGroupId,
    pub member_id: MemberId,
    pub generation: Generation,
    pub member_revision: Revision,
}

/// Stale members are removed.
#[derive(Debug, Clone, PartialEq, Eq)]
pub struct StaleMembersReapedResult {
    pub metadata: MutationMetadata,
    pub reaped_count: usize,
    pub affected_group_count: usize,
}

/// A claim was answered, with a lease or without one.
#[derive(Debug, Clone, PartialEq, Eq)]
pub struct TaskClaimResult {
    pub metadata: MutationMetadata,
    pub task_id: Option<TaskId>,
    pub objective: Option<TaskObjective>,
    pub task_revision: Option<Revision>,
    pub lease_id: Option<LeaseId>,
    pub lease_epoch: Option<LeaseEpoch>,
    pub lease_expires_at_ms: Option<TimestampMs>,
    pub generation: Generation,
}

/// A lease is extended.
#[derive(Debug, Clone, PartialEq, Eq)]
pub struct TaskLeaseRenewedResult {
    pub metadata: MutationMetadata,
    pub task_id: TaskId,
    pub task_revision: Revision,
    pub lease_id: LeaseId,
    pub lease_epoch: LeaseEpoch,
    pub lease_expires_at_ms: TimestampMs,
    pub generation: Generation,
}

/// A Task is completed.
#[derive(Debug, Clone, PartialEq, Eq)]
pub struct TaskCompletedResult {
    pub metadata: MutationMetadata,
    pub task_id: TaskId,
    pub task_revision: Revision,
    pub status: TaskStatus,
}

/// Completed Tasks are forgotten.
#[derive(Debug, Clone, PartialEq, Eq)]
pub struct CompletedTasksPrunedResult {
    pub metadata: MutationMetadata,
    pub pruned_count: usize,
}

/// The Broker term is advanced.
#[derive(Debug, Clone, PartialEq, Eq)]
pub struct TermAdvancedResult {
    pub metadata: MutationMetadata,
}

/// What one mutation of the Broker state answered.
#[derive(Debug, Clone, PartialEq, Eq)]
pub enum BrokerMutationResult {
    Namespace(NamespaceResult),
    TaskPublished(TaskPublishedResult),
    ConsumerGroup(ConsumerGroupResult),
    Heartbeat(HeartbeatResult),
    StaleMembersReaped(StaleMembersReapedResult),
    TaskClaim(TaskClaimResult),
    TaskLeaseRenewed(TaskLeaseRenewedResult),
    TaskCompleted(TaskCompletedResult),
    CompletedTasksPruned(CompletedTasksPrunedResult),
    TermAdvanced(TermAdvancedResult),
}

/// One Consumer Group as a directory read shows it.
#[derive(Debug, Clone, PartialEq, Eq)]
pub struct ConsumerGroupEntry {
    pub group_id: ConsumerGroupId,
    pub namespace_id: NamespaceId,
    pub generation: Generation,
    pub consumer_count: usize,
}

/// A side-effect-free listing of the Consumer Groups at one term and revision.
#[derive(Debug, Clone, PartialEq, Eq)]
pub struct ConsumerGroupDirectory {
    pub term: Term,
    pub revision: Revision,
    pub groups: Vec<ConsumerGroupEntry>,
}

} // verus!
