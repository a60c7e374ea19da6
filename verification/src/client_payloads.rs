//! Results that the answers of the Broker carry.
use crate::client_error::ClientError;
use crate::protocol::{Operation, SuccessPayload};
use crate::results::{
    ConsumerGroupResult, HeartbeatResult, MutationMetadata, NamespaceResult, TaskClaimResult,
    TaskCompletedResult, TaskLeaseRenewedResult, TaskPublishedResult,
};
use crate::service::BrokerHealth;
use vstd::prelude::*;

verus! {

/// The health that a payload of the right kind carries.
pub open spec fn payload_health_result(payload: SuccessPayload) -> Result<
    BrokerHealth,
    ClientError,
> {
    match payload {
        SuccessPayload::Health { protocol_version, term, revision } => Ok(
            BrokerHealth { term, revision, protocol_version },
        ),
        _ => Err(ClientError::UnexpectedPayload(Operation::Health)),
    }
}

/// Narrow a payload to health.
pub fn health_result(payload: SuccessPayload) -> (r: Result<BrokerHealth, ClientError>)
    ensures
        r == payload_health_result(payload),
        match payload {
            SuccessPayload::Health { protocol_version, term, revision } => {
                &&& r matches Ok(told)
                &&& told.protocol_version == protocol_version
                &&& told.term == term
                &&& told.revision == revision
            },
            _ => r matches Err(ClientError::UnexpectedPayload(operation)) && operation
                == Operation::Health,
        },
{
    match payload {
        SuccessPayload::Health { protocol_version, term, revision } => Ok(
            BrokerHealth { term, revision, protocol_version },
        ),
        _ => Err(ClientError::UnexpectedPayload(Operation::Health)),
    }
}

/// The result that a payload of the right kind carries.
pub open spec fn payload_namespace_result(payload: SuccessPayload) -> Result<
    NamespaceResult,
    ClientError,
> {
    match payload {
        SuccessPayload::Namespace {
            term,
            revision,
            namespace_id,
            namespace_revision,
        } => Ok(
            NamespaceResult {
                metadata: MutationMetadata { term, revision },
                namespace_id,
                namespace_revision,
            },
        ),
        _ => Err(ClientError::UnexpectedPayload(Operation::EnsureNamespace)),
    }
}

/// Narrow a payload to a result of one kind.
pub fn namespace_result(payload: SuccessPayload) -> (r: Result<NamespaceResult, ClientError>)
    ensures
        r == payload_namespace_result(payload),
        match payload {
            SuccessPayload::Namespace { term, revision, namespace_id, namespace_revision } => {
                &&& r matches Ok(told)
                &&& told.metadata.term == term
                &&& told.metadata.revision == revision
                &&& told.namespace_id == namespace_id
                &&& told.namespace_revision == namespace_revision
            },
            _ => r matches Err(ClientError::UnexpectedPayload(operation)) && operation
                == Operation::EnsureNamespace,
        },
{
    match payload {
        SuccessPayload::Namespace {
            term,
            revision,
            namespace_id,
            namespace_revision,
        } => Ok(
            NamespaceResult {
                metadata: MutationMetadata { term, revision },
                namespace_id,
                namespace_revision,
            },
        ),
        _ => Err(ClientError::UnexpectedPayload(Operation::EnsureNamespace)),
    }
}

/// The result that a payload of the right kind carries.
pub open spec fn payload_task_published_result(payload: SuccessPayload) -> Result<
    TaskPublishedResult,
    ClientError,
> {
    match payload {
        SuccessPayload::TaskPublished {
            term,
            revision,
            task_id,
            task_revision,
            status,
        } => Ok(
            TaskPublishedResult {
                metadata: MutationMetadata { term, revision },
                task_id,
                task_revision,
                status,
            },
        ),
        _ => Err(ClientError::UnexpectedPayload(Operation::PublishTask)),
    }
}

/// Narrow a payload to a result of one kind.
pub fn task_published_result(payload: SuccessPayload) -> (r: Result<
    TaskPublishedResult,
    ClientError,
>)
    ensures
        r == payload_task_published_result(payload),
        match payload {
            SuccessPayload::TaskPublished { term, revision, task_id, task_revision, status } => {
                &&& r matches Ok(told)
                &&& told.metadata.term == term
                &&& told.metadata.revision == revision
                &&& told.task_id == task_id
                &&& told.task_revision == task_revision
                &&& told.status == status
            },
            _ => r matches Err(ClientError::UnexpectedPayload(operation)) && operation
                == Operation::PublishTask,
        },
{
    match payload {
        SuccessPayload::TaskPublished {
            term,
            revision,
            task_id,
            task_revision,
            status,
        } => Ok(
            TaskPublishedResult {
                metadata: MutationMetadata { term, revision },
                task_id,
                task_revision,
                status,
            },
        ),
        _ => Err(ClientError::UnexpectedPayload(Operation::PublishTask)),
    }
}

/// The result that a payload of the right kind carries.
pub open spec fn payload_consumer_group_result(payload: SuccessPayload) -> Result<
    ConsumerGroupResult,
    ClientError,
> {
    match payload {
        SuccessPayload::ConsumerGroup {
            term,
            revision,
            group_id,
            generation,
            group_revision,
            member_count,
        } => Ok(
            ConsumerGroupResult {
                metadata: MutationMetadata { term, revision },
                group_id,
                generation,
                group_revision,
                member_count,
            },
        ),
        _ => Err(ClientError::UnexpectedPayload(Operation::EnsureConsumerGroup)),
    }
}

/// Narrow a payload to a result of one kind.
pub fn consumer_group_result(payload: SuccessPayload) -> (r: Result<
    ConsumerGroupResult,
    ClientError,
>)
    ensures
        r == payload_consumer_group_result(payload),
        match payload {
            SuccessPayload::ConsumerGroup {
                term,
                revision,
                group_id,
                generation,
                group_revision,
                member_count,
            } => {
                &&& r matches Ok(told)
                &&& told.metadata.term == term
                &&& told.metadata.revision == revision
                &&& told.group_id == group_id
                &&& told.generation == generation
                &&& told.group_revision == group_revision
                &&& told.member_count == member_count
            },
            _ => r matches Err(ClientError::UnexpectedPayload(operation)) && operation
                == Operation::EnsureConsumerGroup,
        },
{
    match payload {
        SuccessPayload::ConsumerGroup {
            term,
            revision,
            group_id,
            generation,
            group_revision,
            member_count,
        } => Ok(
            ConsumerGroupResult {
                metadata: MutationMetadata { term, revision },
                group_id,
                generation,
                group_revision,
                member_count,
            },
        ),
        _ => Err(ClientError::UnexpectedPayload(Operation::EnsureConsumerGroup)),
    }
}

/// The result that a payload of the right kind carries.
pub open spec fn payload_heartbeat_result(payload: SuccessPayload) -> Result<
    HeartbeatResult,
    ClientError,
> {
    match payload {
        SuccessPayload::Heartbeat {
            term,
            revision,
            group_id,
            member_id,
            generation,
            member_revision,
        } => Ok(
            HeartbeatResult {
                metadata: MutationMetadata { term, revision },
                group_id,
                member_id,
                generation,
                member_revision,
            },
        ),
        _ => Err(ClientError::UnexpectedPayload(Operation::Heartbeat)),
    }
}

/// Narrow a payload to a result of one kind.
pub fn heartbeat_result(payload: SuccessPayload) -> (r: Result<HeartbeatResult, ClientError>)
    ensures
        r == payload_heartbeat_result(payload),
        match payload {
            SuccessPayload::Heartbeat {
                term,
                revision,
                group_id,
                member_id,
                generation,
                member_revision,
            } => {
                &&& r matches Ok(told)
                &&& told.metadata.term == term
                &&& told.metadata.revision == revision
                &&& told.group_id == group_id
                &&& told.member_id == member_id
                &&& told.generation == generation
                &&& told.member_revision == member_revision
            },
            _ => r matches Err(ClientError::UnexpectedPayload(operation)) && operation
                == Operation::Heartbeat,
        },
{
    match payload {
        SuccessPayload::Heartbeat {
            term,
            revision,
            group_id,
            member_id,
            generation,
            member_revision,
        } => Ok(
            HeartbeatResult {
                metadata: MutationMetadata { term, revision },
                group_id,
                member_id,
                generation,
                member_revision,
            },
        ),
        _ => Err(ClientError::UnexpectedPayload(Operation::Heartbeat)),
    }
}

/// The result that a payload of the right kind carries.
pub open spec fn payload_task_claim_result(payload: SuccessPayload) -> Result<
    TaskClaimResult,
    ClientError,
> {
    match payload {
        SuccessPayload::TaskClaimed {
            term,
            revision,
            task_id,
            objective,
            task_revision,
            lease_id,
            lease_epoch,
            lease_expires_at_ms,
            generation,
        } => Ok(
            TaskClaimResult {
                metadata: MutationMetadata { term, revision },
                task_id,
                objective,
                task_revision,
                lease_id,
                lease_epoch,
                lease_expires_at_ms,
                generation,
            },
        ),
        _ => Err(ClientError::UnexpectedPayload(Operation::ClaimTask)),
    }
}

/// Narrow a payload to a result of one kind.
pub fn task_claim_result(payload: SuccessPayload) -> (r: Result<TaskClaimResult, ClientError>)
    ensures
        r == payload_task_claim_result(payload),
        match payload {
            SuccessPayload::TaskClaimed {
                term,
                revision,
                task_id,
                objective,
                task_revision,
                lease_id,
                lease_epoch,
                lease_expires_at_ms,
                generation,
            } => {
                &&& r matches Ok(told)
                &&& told.metadata.term == term
                &&& told.metadata.revision == revision
                &&& told.task_id == task_id
                &&& told.objective == objective
                &&& told.task_revision == task_revision
                &&& told.lease_id == lease_id
                &&& told.lease_epoch == lease_epoch
                &&& told.lease_expires_at_ms == lease_expires_at_ms
                &&& told.generation == generation
            },
            _ => r matches Err(ClientError::UnexpectedPayload(operation)) && operation
                == Operation::ClaimTask,
        },
{
    match payload {
        SuccessPayload::TaskClaimed {
            term,
            revision,
            task_id,
            objective,
            task_revision,
            lease_id,
            lease_epoch,
            lease_expires_at_ms,
            generation,
        } => Ok(
            TaskClaimResult {
                metadata: MutationMetadata { term, revision },
                task_id,
                objective,
                task_revision,
                lease_id,
                lease_epoch,
                lease_expires_at_ms,
                generation,
            },
        ),
        _ => Err(ClientError::UnexpectedPayload(Operation::ClaimTask)),
    }
}

/// The result that a payload of the right kind carries.
pub open spec fn payload_task_lease_renewed_result(payload: SuccessPayload) -> Result<
    TaskLeaseRenewedResult,
    ClientError,
> {
    match payload {
        SuccessPayload::TaskLeaseRenewed {
            term,
            revision,
            task_id,
            task_revision,
            lease_id,
            lease_epoch,
            lease_expires_at_ms,
            generation,
        } => Ok(
            TaskLeaseRenewedResult {
                metadata: MutationMetadata { term, revision },
                task_id,
                task_revision,
                lease_id,
                lease_epoch,
                lease_expires_at_ms,
                generation,
            },
        ),
        _ => Err(ClientError::UnexpectedPayload(Operation::RenewTaskLease)),
    }
}

/// Narrow a payload to a result of one kind.
pub fn task_lease_renewed_result(payload: SuccessPayload) -> (r: Result<
    TaskLeaseRenewedResult,
    ClientError,
>)
    ensures
        r == payload_task_lease_renewed_result(payload),
        match payload {
            SuccessPayload::TaskLeaseRenewed {
                term,
                revision,
                task_id,
                task_revision,
                lease_id,
                lease_epoch,
                lease_expires_at_ms,
                generation,
            } => {
                &&& r matches Ok(told)
                &&& told.metadata.term == term
                &&& told.metadata.revision == revision
                &&& told.task_id == task_id
                &&& told.task_revision == task_revision
                &&& told.lease_id == lease_id
                &&& told.lease_epoch == lease_epoch
                &&& told.lease_expires_at_ms == lease_expires_at_ms
                &&& told.generation == generation
            },
            _ => r matches Err(ClientError::UnexpectedPayload(operation)) && operation
                == Operation::RenewTaskLease,
        },
{
    match payload {
        SuccessPayload::TaskLeaseRenewed {
            term,
            revision,
            task_id,
            task_revision,
            lease_id,
            lease_epoch,
            lease_expires_at_ms,
            generation,
        } => Ok(
            TaskLeaseRenewedResult {
                metadata: MutationMetadata { term, revision },
                task_id,
                task_revision,
                lease_id,
                lease_epoch,
                lease_expires_at_ms,
                generation,
            },
        ),
        _ => Err(ClientError::UnexpectedPayload(Operation::RenewTaskLease)),
    }
}

/// The result that a payload of the right kind carries.
pub open spec fn payload_task_completed_result(payload: SuccessPayload) -> Result<
    TaskCompletedResult,
    ClientError,
> {
    match payload {
        SuccessPayload::TaskCompleted {
            term,
            revision,
            task_id,
            task_revision,
            status,
        } => Ok(
            TaskCompletedResult {
                metadata: MutationMetadata { term, revision },
                task_id,
                task_revision,
                status,
            },
        ),
        _ => Err(ClientError::UnexpectedPayload(Operation::CompleteTask)),
    }
}

/// Narrow a payload to a result of one kind.
pub fn task_completed_result(payload: SuccessPayload) -> (r: Result<
    TaskCompletedResult,
    ClientError,
>)
    ensures
        r == payload_task_completed_result(payload),
        match payload {
            SuccessPayload::TaskCompleted { term, revision, task_id, task_revision, status } => {
                &&& r matches Ok(told)
                &&& told.metadata.term == term
                &&& told.metadata.revision == revision
                &&& told.task_id == task_id
                &&& told.task_revision == task_revision
                &&& told.status == status
            },
            _ => r matches Err(ClientError::UnexpectedPayload(operation)) && operation
                == Operation::CompleteTask,
        },
{
    match payload {
        SuccessPayload::TaskCompleted {
            term,
            revision,
            task_id,
            task_revision,
            status,
        } => Ok(
            TaskCompletedResult {
                metadata: MutationMetadata { term, revision },
                task_id,
                task_revision,
                status,
            },
        ),
        _ => Err(ClientError::UnexpectedPayload(Operation::CompleteTask)),
    }
}

/// A `Health` answer is reported with each of its values, and no other answer is.
pub proof fn law_health_result_keeps_every_value(payload: SuccessPayload)
    ensures
        match payload {
            SuccessPayload::Health { protocol_version, term, revision } => {
                &&& payload_health_result(payload) matches Ok(told)
                &&& told.protocol_version == protocol_version
                &&& told.term == term
                &&& told.revision == revision
            },
            _ => payload_health_result(payload) matches Err(
                ClientError::UnexpectedPayload(operation),
            )
                && operation
                == Operation::Health,
        },
{
}

/// Two different `Health` answers are reported differently.
pub proof fn law_health_result_tells_answers_apart(left: SuccessPayload, right: SuccessPayload)
    requires
        left is Health,
        right is Health,
        left != right,
    ensures
        payload_health_result(left) is Ok,
        payload_health_result(right) is Ok,
        payload_health_result(left) != payload_health_result(right),
{
}

/// A `Namespace` answer is reported with each of its values, and no other answer is.
pub proof fn law_namespace_result_keeps_every_value(payload: SuccessPayload)
    ensures
        match payload {
            SuccessPayload::Namespace { term, revision, namespace_id, namespace_revision } => {
                &&& payload_namespace_result(payload) matches Ok(told)
                &&& told.metadata.term == term
                &&& told.metadata.revision == revision
                &&& told.namespace_id == namespace_id
                &&& told.namespace_revision == namespace_revision
            },
            _ => payload_namespace_result(payload) matches Err(
                ClientError::UnexpectedPayload(operation),
            )
                && operation
                == Operation::EnsureNamespace,
        },
{
}

/// Two different `Namespace` answers are reported differently.
pub proof fn law_namespace_result_tells_answers_apart(left: SuccessPayload, right: SuccessPayload)
    requires
        left is Namespace,
        right is Namespace,
        left != right,
    ensures
        payload_namespace_result(left) is Ok,
        payload_namespace_result(right) is Ok,
        payload_namespace_result(left) != payload_namespace_result(right),
{
}

/// A `TaskPublished` answer is reported with each of its values, and no other answer is.
pub proof fn law_task_published_result_keeps_every_value(payload: SuccessPayload)
    ensures
        match payload {
            SuccessPayload::TaskPublished { term, revision, task_id, task_revision, status } => {
                &&& payload_task_published_result(payload) matches Ok(told)
                &&& told.metadata.term == term
                &&& told.metadata.revision == revision
                &&& told.task_id == task_id
                &&& told.task_revision == task_revision
                &&& told.status == status
            },
            _ => payload_task_published_result(payload) matches Err(
                ClientError::UnexpectedPayload(operation),
            )
                && operation
                == Operation::PublishTask,
        },
{
}

/// Two different `TaskPublished` answers are reported differently.
pub proof fn law_task_published_result_tells_answers_apart(
    left: SuccessPayload,
    right: SuccessPayload,
)
    requires
        left is TaskPublished,
        right is TaskPublished,
        left != right,
    ensures
        payload_task_published_result(left) is Ok,
        payload_task_published_result(right) is Ok,
        payload_task_published_result(left) != payload_task_published_result(right),
{
}

/// A `ConsumerGroup` answer is reported with each of its values, and no other answer is.
pub proof fn law_consumer_group_result_keeps_every_value(payload: SuccessPayload)
    ensures
        match payload {
            SuccessPayload::ConsumerGroup {
                term,
                revision,
                group_id,
                generation,
                group_revision,
                member_count,
            } => {
                &&& payload_consumer_group_result(payload) matches Ok(told)
                &&& told.metadata.term == term
                &&& told.metadata.revision == revision
                &&& told.group_id == group_id
                &&& told.generation == generation
                &&& told.group_revision == group_revision
                &&& told.member_count == member_count
            },
            _ => payload_consumer_group_result(payload) matches Err(
                ClientError::UnexpectedPayload(operation),
            )
                && operation
                == Operation::EnsureConsumerGroup,
        },
{
}

/// Two different `ConsumerGroup` answers are reported differently.
pub proof fn law_consumer_group_result_tells_answers_apart(
    left: SuccessPayload,
    right: SuccessPayload,
)
    requires
        left is ConsumerGroup,
        right is ConsumerGroup,
        left != right,
    ensures
        payload_consumer_group_result(left) is Ok,
        payload_consumer_group_result(right) is Ok,
        payload_consumer_group_result(left) != payload_consumer_group_result(right),
{
}

/// A `Heartbeat` answer is reported with each of its values, and no other answer is.
pub proof fn law_heartbeat_result_keeps_every_value(payload: SuccessPayload)
    ensures
        match payload {
            SuccessPayload::Heartbeat {
                term,
                revision,
                group_id,
                member_id,
                generation,
                member_revision,
            } => {
                &&& payload_heartbeat_result(payload) matches Ok(told)
                &&& told.metadata.term == term
                &&& told.metadata.revision == revision
                &&& told.group_id == group_id
                &&& told.member_id == member_id
                &&& told.generation == generation
                &&& told.member_revision == member_revision
            },
            _ => payload_heartbeat_result(payload) matches Err(
                ClientError::UnexpectedPayload(operation),
            )
                && operation
                == Operation::Heartbeat,
        },
{
}

/// Two different `Heartbeat` answers are reported differently.
pub proof fn law_heartbeat_result_tells_answers_apart(left: SuccessPayload, right: SuccessPayload)
    requires
        left is Heartbeat,
        right is Heartbeat,
        left != right,
    ensures
        payload_heartbeat_result(left) is Ok,
        payload_heartbeat_result(right) is Ok,
        payload_heartbeat_result(left) != payload_heartbeat_result(right),
{
}

/// A `TaskClaimed` answer is reported with each of its values, and no other answer is.
pub proof fn law_task_claim_result_keeps_every_value(payload: SuccessPayload)
    ensures
        match payload {
            SuccessPayload::TaskClaimed {
                term,
                revision,
                task_id,
                objective,
                task_revision,
                lease_id,
                lease_epoch,
                lease_expires_at_ms,
                generation,
            } => {
                &&& payload_task_claim_result(payload) matches Ok(told)
                &&& told.metadata.term == term
                &&& told.metadata.revision == revision
                &&& told.task_id == task_id
                &&& told.objective == objective
                &&& told.task_revision == task_revision
                &&& told.lease_id == lease_id
                &&& told.lease_epoch == lease_epoch
                &&& told.lease_expires_at_ms == lease_expires_at_ms
                &&& told.generation == generation
            },
            _ => payload_task_claim_result(payload) matches Err(
                ClientError::UnexpectedPayload(operation),
            )
                && operation
                == Operation::ClaimTask,
        },
{
}

/// Two different `TaskClaimed` answers are reported differently.
pub proof fn law_task_claim_result_tells_answers_apart(left: SuccessPayload, right: SuccessPayload)
    requires
        left is TaskClaimed,
        right is TaskClaimed,
        left != right,
    ensures
        payload_task_claim_result(left) is Ok,
        payload_task_claim_result(right) is Ok,
        payload_task_claim_result(left) != payload_task_claim_result(right),
{
}

/// A `TaskLeaseRenewed` answer is reported with each of its values, and no other answer is.
pub proof fn law_task_lease_renewed_result_keeps_every_value(payload: SuccessPayload)
    ensures
        match payload {
            SuccessPayload::TaskLeaseRenewed {
                term,
                revision,
                task_id,
                task_revision,
                lease_id,
                lease_epoch,
                lease_expires_at_ms,
                generation,
            } => {
                &&& payload_task_lease_renewed_result(payload) matches Ok(told)
                &&& told.metadata.term == term
                &&& told.metadata.revision == revision
                &&& told.task_id == task_id
                &&& told.task_revision == task_revision
                &&& told.lease_id == lease_id
                &&& told.lease_epoch == lease_epoch
                &&& told.lease_expires_at_ms == lease_expires_at_ms
                &&& told.generation == generation
            },
            _ => payload_task_lease_renewed_result(payload) matches Err(
                ClientError::UnexpectedPayload(operation),
            )
                && operation
                == Operation::RenewTaskLease,
        },
{
}

/// Two different `TaskLeaseRenewed` answers are reported differently.
pub proof fn law_task_lease_renewed_result_tells_answers_apart(
    left: SuccessPayload,
    right: SuccessPayload,
)
    requires
        left is TaskLeaseRenewed,
        right is TaskLeaseRenewed,
        left != right,
    ensures
        payload_task_lease_renewed_result(left) is Ok,
        payload_task_lease_renewed_result(right) is Ok,
        payload_task_lease_renewed_result(left) != payload_task_lease_renewed_result(right),
{
}

/// A `TaskCompleted` answer is reported with each of its values, and no other answer is.
pub proof fn law_task_completed_result_keeps_every_value(payload: SuccessPayload)
    ensures
        match payload {
            SuccessPayload::TaskCompleted { term, revision, task_id, task_revision, status } => {
                &&& payload_task_completed_result(payload) matches Ok(told)
                &&& told.metadata.term == term
                &&& told.metadata.revision == revision
                &&& told.task_id == task_id
                &&& told.task_revision == task_revision
                &&& told.status == status
            },
            _ => payload_task_completed_result(payload) matches Err(
                ClientError::UnexpectedPayload(operation),
            )
                && operation
                == Operation::CompleteTask,
        },
{
}

/// Two different `TaskCompleted` answers are reported differently.
pub proof fn law_task_completed_result_tells_answers_apart(
    left: SuccessPayload,
    right: SuccessPayload,
)
    requires
        left is TaskCompleted,
        right is TaskCompleted,
        left != right,
    ensures
        payload_task_completed_result(left) is Ok,
        payload_task_completed_result(right) is Ok,
        payload_task_completed_result(left) != payload_task_completed_result(right),
{
}

} // verus!
