//! Versioned responses of the replicated apply path.
use crate::domain::{
    text_error, zero_error, ConsumerGroupKind, ConsumerKind, DomainText, Generation, LeaseEpoch,
    LeaseKind, NamespaceKind, ObjectiveKind, Revision, TaskKind, Term, TextKind, TimestampMs,
};
use crate::error::{BrokerError, BrokerErrorCode, BrokerErrorDisposition, BrokerErrorView};
use crate::replicated_command::{count_finding, first_of};
use crate::results::{
    BrokerMutationResult, CompletedTasksPrunedResult, ConsumerGroupResult, HeartbeatResult,
    MutationMetadata, NamespaceResult, StaleMembersReapedResult, TaskClaimResult,
    TaskCompletedResult, TaskLeaseRenewedResult, TaskPublishedResult, TaskStatus,
    TermAdvancedResult,
};
use vstd::prelude::*;

verus! {

/// Term and revision of a mutation as durable values.
#[derive(Debug, Clone, Copy, PartialEq, Eq, Structural)]
pub struct ReplicatedMutationMetadataV1 {
    pub term: u64,
    pub revision: u64,
}

/// Lifecycle state of a Task as a durable value.
#[derive(Debug, Clone, Copy, PartialEq, Eq, Structural)]
pub enum ReplicatedTaskStatusV1 {
    Queued,
    Leased,
    Completed,
}

/// Error codes that a committed response can carry.
#[derive(Debug, Clone, Copy, PartialEq, Eq, Structural)]
pub enum ReplicatedBrokerErrorCodeV1 {
    InvalidRequest,
    NotFound,
    Conflict,
    CapacityExceeded,
    StaleFence,
    PersistenceError,
    TransportError,
    InternalError,
}

/// An application error as durable values.
#[derive(Debug, PartialEq, Eq)]
pub struct ReplicatedBrokerErrorV1 {
    pub code: ReplicatedBrokerErrorCodeV1,
    pub message: String,
    pub disposition: BrokerErrorDisposition,
}

/// A mutation result as durable values.
#[derive(Debug, PartialEq, Eq)]
pub enum ReplicatedBrokerMutationResultV1 {
    Namespace {
        metadata: ReplicatedMutationMetadataV1,
        namespace_id: String,
        namespace_revision: u64,
    },
    TaskPublished {
        metadata: ReplicatedMutationMetadataV1,
        task_id: String,
        task_revision: u64,
        status: ReplicatedTaskStatusV1,
    },
    ConsumerGroup {
        metadata: ReplicatedMutationMetadataV1,
        group_id: String,
        generation: u64,
        group_revision: u64,
        member_count: u64,
    },
    Heartbeat {
        metadata: ReplicatedMutationMetadataV1,
        group_id: String,
        member_id: String,
        generation: u64,
        member_revision: u64,
    },
    StaleMembersReaped {
        metadata: ReplicatedMutationMetadataV1,
        reaped_count: u64,
        affected_group_count: u64,
    },
    TaskClaim {
        metadata: ReplicatedMutationMetadataV1,
        task_id: Option<String>,
        objective: Option<String>,
        task_revision: Option<u64>,
        lease_id: Option<String>,
        lease_epoch: Option<u64>,
        lease_expires_at_ms: Option<u64>,
        generation: u64,
    },
    TaskLeaseRenewed {
        metadata: ReplicatedMutationMetadataV1,
        task_id: String,
        task_revision: u64,
        lease_id: String,
        lease_epoch: u64,
        lease_expires_at_ms: u64,
        generation: u64,
    },
    TaskCompleted {
        metadata: ReplicatedMutationMetadataV1,
        task_id: String,
        task_revision: u64,
        status: ReplicatedTaskStatusV1,
    },
    CompletedTasksPruned { metadata: ReplicatedMutationMetadataV1, pruned_count: u64 },
    TermAdvanced { metadata: ReplicatedMutationMetadataV1 },
}

/// Versioned response of the replicated apply path.
///
/// Business failures are application data, not transport or storage failures: kept inside the
/// committed response, every replica produces the same deterministic outcome.
#[derive(Debug, PartialEq, Eq)]
pub enum ReplicatedBrokerResponseV1 {
    /// Placeholder of committed blank and membership entries.
    RaftControl,
    Success(ReplicatedBrokerMutationResultV1),
    /// A committed acquisition of command-session ownership.
    SessionOwnerAcquired { owner_epoch: u64 },
    ApplicationError(ReplicatedBrokerErrorV1),
}

/// Why a durable response is no application result.
#[derive(Debug, Clone, PartialEq, Eq)]
pub struct ReplicatedResponseError {
    message: String,
}

impl View for ReplicatedResponseError {
    type V = Seq<char>;

    closed spec fn view(&self) -> Seq<char> {
        self.message@
    }
}

impl ReplicatedResponseError {
    fn new(message: &str) -> (r: Self)
        ensures
            r@ == message@,
    {
        ReplicatedResponseError { message: message.to_owned() }
    }

    pub fn message(&self) -> (r: &str)
        ensures
            r@ == self@,
    {
        self.message.as_str()
    }
}

fn clone_text(text: &Option<String>) -> (r: Option<String>)
    ensures
        r == *text,
{
    match text {
        Some(value) => Some(value.clone()),
        None => None,
    }
}

impl Clone for ReplicatedBrokerErrorV1 {
    fn clone(&self) -> (r: Self)
        ensures
            r == *self,
    {
        ReplicatedBrokerErrorV1 {
            code: self.code,
            message: self.message.clone(),
            disposition: self.disposition,
        }
    }
}

impl Clone for ReplicatedBrokerMutationResultV1 {
    fn clone(&self) -> (r: Self)
        ensures
            r == *self,
    {
        match self {
            ReplicatedBrokerMutationResultV1::Namespace {
                metadata,
                namespace_id,
                namespace_revision,
            } => ReplicatedBrokerMutationResultV1::Namespace {
                metadata: *metadata,
                namespace_id: namespace_id.clone(),
                namespace_revision: *namespace_revision,
            },
            ReplicatedBrokerMutationResultV1::TaskPublished {
                metadata,
                task_id,
                task_revision,
                status,
            } => ReplicatedBrokerMutationResultV1::TaskPublished {
                metadata: *metadata,
                task_id: task_id.clone(),
                task_revision: *task_revision,
                status: *status,
            },
            ReplicatedBrokerMutationResultV1::ConsumerGroup {
                metadata,
                group_id,
                generation,
                group_revision,
                member_count,
            } => ReplicatedBrokerMutationResultV1::ConsumerGroup {
                metadata: *metadata,
                group_id: group_id.clone(),
                generation: *generation,
                group_revision: *group_revision,
                member_count: *member_count,
            },
            ReplicatedBrokerMutationResultV1::Heartbeat {
                metadata,
                group_id,
                member_id,
                generation,
                member_revision,
            } => ReplicatedBrokerMutationResultV1::Heartbeat {
                metadata: *metadata,
                group_id: group_id.clone(),
                member_id: member_id.clone(),
                generation: *generation,
                member_revision: *member_revision,
            },
            ReplicatedBrokerMutationResultV1::StaleMembersReaped {
                metadata,
                reaped_count,
                affected_group_count,
            } => ReplicatedBrokerMutationResultV1::StaleMembersReaped {
                metadata: *metadata,
                reaped_count: *reaped_count,
                affected_group_count: *affected_group_count,
            },
            ReplicatedBrokerMutationResultV1::TaskClaim {
                metadata,
                task_id,
                objective,
                task_revision,
                lease_id,
                lease_epoch,
                lease_expires_at_ms,
                generation,
            } => ReplicatedBrokerMutationResultV1::TaskClaim {
                metadata: *metadata,
                task_id: clone_text(task_id),
                objective: clone_text(objective),
                task_revision: *task_revision,
                lease_id: clone_text(lease_id),
                lease_epoch: *lease_epoch,
                lease_expires_at_ms: *lease_expires_at_ms,
                generation: *generation,
            },
            ReplicatedBrokerMutationResultV1::TaskLeaseRenewed {
                metadata,
                task_id,
                task_revision,
                lease_id,
                lease_epoch,
                lease_expires_at_ms,
                generation,
            } => ReplicatedBrokerMutationResultV1::TaskLeaseRenewed {
                metadata: *metadata,
                task_id: task_id.clone(),
                task_revision: *task_revision,
                lease_id: lease_id.clone(),
                lease_epoch: *lease_epoch,
                lease_expires_at_ms: *lease_expires_at_ms,
                generation: *generation,
            },
            ReplicatedBrokerMutationResultV1::TaskCompleted {
                metadata,
                task_id,
                task_revision,
                status,
            } => ReplicatedBrokerMutationResultV1::TaskCompleted {
                metadata: *metadata,
                task_id: task_id.clone(),
                task_revision: *task_revision,
                status: *status,
            },
            ReplicatedBrokerMutationResultV1::CompletedTasksPruned {
                metadata,
                pruned_count,
            } => ReplicatedBrokerMutationResultV1::CompletedTasksPruned {
                metadata: *metadata,
                pruned_count: *pruned_count,
            },
            ReplicatedBrokerMutationResultV1::TermAdvanced {
                metadata,
            } => ReplicatedBrokerMutationResultV1::TermAdvanced {
                metadata: *metadata,
            },
        }
    }
}

impl Clone for ReplicatedBrokerResponseV1 {
    fn clone(&self) -> (r: Self)
        ensures
            r == *self,
    {
        match self {
            ReplicatedBrokerResponseV1::RaftControl => ReplicatedBrokerResponseV1::RaftControl,
            ReplicatedBrokerResponseV1::Success(result) => {
                ReplicatedBrokerResponseV1::Success(result.clone())
            },
            ReplicatedBrokerResponseV1::SessionOwnerAcquired { owner_epoch } => {
                ReplicatedBrokerResponseV1::SessionOwnerAcquired { owner_epoch: *owner_epoch }
            },
            ReplicatedBrokerResponseV1::ApplicationError(error) => {
                ReplicatedBrokerResponseV1::ApplicationError(error.clone())
            },
        }
    }
}

/// The durable form of an application error code; an unknown commit outcome has none.
pub open spec fn durable_code(code: BrokerErrorCode) -> Option<ReplicatedBrokerErrorCodeV1> {
    match code {
        BrokerErrorCode::InvalidRequest => Some(ReplicatedBrokerErrorCodeV1::InvalidRequest),
        BrokerErrorCode::NotFound => Some(ReplicatedBrokerErrorCodeV1::NotFound),
        BrokerErrorCode::Conflict => Some(ReplicatedBrokerErrorCodeV1::Conflict),
        BrokerErrorCode::CapacityExceeded => Some(ReplicatedBrokerErrorCodeV1::CapacityExceeded),
        BrokerErrorCode::StaleFence => Some(ReplicatedBrokerErrorCodeV1::StaleFence),
        BrokerErrorCode::PersistenceError => Some(ReplicatedBrokerErrorCodeV1::PersistenceError),
        BrokerErrorCode::TransportError => Some(ReplicatedBrokerErrorCodeV1::TransportError),
        BrokerErrorCode::CommitOutcomeUnknown => None,
        BrokerErrorCode::InternalError => Some(ReplicatedBrokerErrorCodeV1::InternalError),
    }
}

fn encode_code(code: BrokerErrorCode) -> (r: Option<ReplicatedBrokerErrorCodeV1>)
    ensures
        r == durable_code(code),
{
    match code {
        BrokerErrorCode::InvalidRequest => Some(ReplicatedBrokerErrorCodeV1::InvalidRequest),
        BrokerErrorCode::NotFound => Some(ReplicatedBrokerErrorCodeV1::NotFound),
        BrokerErrorCode::Conflict => Some(ReplicatedBrokerErrorCodeV1::Conflict),
        BrokerErrorCode::CapacityExceeded => Some(ReplicatedBrokerErrorCodeV1::CapacityExceeded),
        BrokerErrorCode::StaleFence => Some(ReplicatedBrokerErrorCodeV1::StaleFence),
        BrokerErrorCode::PersistenceError => Some(ReplicatedBrokerErrorCodeV1::PersistenceError),
        BrokerErrorCode::TransportError => Some(ReplicatedBrokerErrorCodeV1::TransportError),
        BrokerErrorCode::CommitOutcomeUnknown => None,
        BrokerErrorCode::InternalError => Some(ReplicatedBrokerErrorCodeV1::InternalError),
    }
}

/// The application error code of a durable one.
pub open spec fn application_code(code: ReplicatedBrokerErrorCodeV1) -> BrokerErrorCode {
    match code {
        ReplicatedBrokerErrorCodeV1::InvalidRequest => BrokerErrorCode::InvalidRequest,
        ReplicatedBrokerErrorCodeV1::NotFound => BrokerErrorCode::NotFound,
        ReplicatedBrokerErrorCodeV1::Conflict => BrokerErrorCode::Conflict,
        ReplicatedBrokerErrorCodeV1::CapacityExceeded => BrokerErrorCode::CapacityExceeded,
        ReplicatedBrokerErrorCodeV1::StaleFence => BrokerErrorCode::StaleFence,
        ReplicatedBrokerErrorCodeV1::PersistenceError => BrokerErrorCode::PersistenceError,
        ReplicatedBrokerErrorCodeV1::TransportError => BrokerErrorCode::TransportError,
        ReplicatedBrokerErrorCodeV1::InternalError => BrokerErrorCode::InternalError,
    }
}

fn decode_code(code: ReplicatedBrokerErrorCodeV1) -> (r: BrokerErrorCode)
    ensures
        r == application_code(code),
{
    match code {
        ReplicatedBrokerErrorCodeV1::InvalidRequest => BrokerErrorCode::InvalidRequest,
        ReplicatedBrokerErrorCodeV1::NotFound => BrokerErrorCode::NotFound,
        ReplicatedBrokerErrorCodeV1::Conflict => BrokerErrorCode::Conflict,
        ReplicatedBrokerErrorCodeV1::CapacityExceeded => BrokerErrorCode::CapacityExceeded,
        ReplicatedBrokerErrorCodeV1::StaleFence => BrokerErrorCode::StaleFence,
        ReplicatedBrokerErrorCodeV1::PersistenceError => BrokerErrorCode::PersistenceError,
        ReplicatedBrokerErrorCodeV1::TransportError => BrokerErrorCode::TransportError,
        ReplicatedBrokerErrorCodeV1::InternalError => BrokerErrorCode::InternalError,
    }
}

/// The application error of a durable one.
pub open spec fn application_error(error: ReplicatedBrokerErrorV1) -> BrokerErrorView {
    BrokerErrorView {
        code: application_code(error.code),
        message: error.message@,
        disposition: error.disposition,
    }
}

/// The durable form of a Task status.
pub open spec fn durable_status(status: TaskStatus) -> ReplicatedTaskStatusV1 {
    match status {
        TaskStatus::Queued => ReplicatedTaskStatusV1::Queued,
        TaskStatus::Leased => ReplicatedTaskStatusV1::Leased,
        TaskStatus::Completed => ReplicatedTaskStatusV1::Completed,
    }
}

fn encode_status(status: TaskStatus) -> (r: ReplicatedTaskStatusV1)
    ensures
        r == durable_status(status),
{
    match status {
        TaskStatus::Queued => ReplicatedTaskStatusV1::Queued,
        TaskStatus::Leased => ReplicatedTaskStatusV1::Leased,
        TaskStatus::Completed => ReplicatedTaskStatusV1::Completed,
    }
}

fn decode_status(status: ReplicatedTaskStatusV1) -> (r: TaskStatus)
    ensures
        durable_status(r) == status,
{
    match status {
        ReplicatedTaskStatusV1::Queued => TaskStatus::Queued,
        ReplicatedTaskStatusV1::Leased => TaskStatus::Leased,
        ReplicatedTaskStatusV1::Completed => TaskStatus::Completed,
    }
}

/// The text of an optional string.
pub open spec fn optional_text(text: Option<String>) -> Option<Seq<char>> {
    match text {
        Some(value) => Some(value@),
        None => None,
    }
}

/// The text of an optional validated text.
pub open spec fn optional_domain_text<K: TextKind>(text: Option<DomainText<K>>) -> Option<
    Seq<char>,
> {
    match text {
        Some(value) => Some(value@),
        None => None,
    }
}

/// The number of an optional revision.
pub open spec fn optional_revision(value: Option<Revision>) -> Option<u64> {
    match value {
        Some(number) => Some(number@),
        None => None,
    }
}

/// The number of an optional lease epoch.
pub open spec fn optional_lease_epoch(value: Option<LeaseEpoch>) -> Option<u64> {
    match value {
        Some(number) => Some(number@),
        None => None,
    }
}

/// The number of an optional timestamp.
pub open spec fn optional_timestamp(value: Option<TimestampMs>) -> Option<u64> {
    match value {
        Some(number) => Some(number@),
        None => None,
    }
}

/// Whether the durable metadata is that of a mutation.
pub open spec fn encodes_metadata(
    metadata: MutationMetadata,
    wire: ReplicatedMutationMetadataV1,
) -> bool {
    wire.term == metadata.term@ && wire.revision == metadata.revision@
}

/// Whether `wire` is the durable form of `result`.
pub open spec fn encodes_result(
    result: BrokerMutationResult,
    wire: ReplicatedBrokerMutationResultV1,
) -> bool {
    match (result, wire) {
        (
            BrokerMutationResult::Namespace(x),
            ReplicatedBrokerMutationResultV1::Namespace {
                metadata,
                namespace_id,
                namespace_revision,
            },
        ) => encodes_metadata(x.metadata, metadata)
            && namespace_id@ == x.namespace_id@
            && namespace_revision == x.namespace_revision@,
        (
            BrokerMutationResult::TaskPublished(x),
            ReplicatedBrokerMutationResultV1::TaskPublished {
                metadata,
                task_id,
                task_revision,
                status,
            },
        ) => encodes_metadata(x.metadata, metadata)
            && task_id@ == x.task_id@
            && task_revision == x.task_revision@
            && status == durable_status(x.status),
        (
            BrokerMutationResult::ConsumerGroup(x),
            ReplicatedBrokerMutationResultV1::ConsumerGroup {
                metadata,
                group_id,
                generation,
                group_revision,
                member_count,
            },
        ) => encodes_metadata(x.metadata, metadata)
            && group_id@ == x.group_id@
            && generation == x.generation@
            && group_revision == x.group_revision@
            && member_count == x.member_count,
        (
            BrokerMutationResult::Heartbeat(x),
            ReplicatedBrokerMutationResultV1::Heartbeat {
                metadata,
                group_id,
                member_id,
                generation,
                member_revision,
            },
        ) => encodes_metadata(x.metadata, metadata)
            && group_id@ == x.group_id@
            && member_id@ == x.member_id@
            && generation == x.generation@
            && member_revision == x.member_revision@,
        (
            BrokerMutationResult::StaleMembersReaped(x),
            ReplicatedBrokerMutationResultV1::StaleMembersReaped {
                metadata,
                reaped_count,
                affected_group_count,
            },
        ) => encodes_metadata(x.metadata, metadata)
            && reaped_count == x.reaped_count
            && affected_group_count == x.affected_group_count,
        (
            BrokerMutationResult::TaskClaim(x),
            ReplicatedBrokerMutationResultV1::TaskClaim {
                metadata,
                task_id,
                objective,
                task_revision,
                lease_id,
                lease_epoch,
                lease_expires_at_ms,
                generation,
            },
        ) => encodes_metadata(x.metadata, metadata)
            && optional_text(task_id) == optional_domain_text(x.task_id)
            && optional_text(objective) == optional_domain_text(x.objective)
            && task_revision == optional_revision(x.task_revision)
            && optional_text(lease_id) == optional_domain_text(x.lease_id)
            && lease_epoch == optional_lease_epoch(x.lease_epoch)
            && lease_expires_at_ms == optional_timestamp(x.lease_expires_at_ms)
            && generation == x.generation@,
        (
            BrokerMutationResult::TaskLeaseRenewed(x),
            ReplicatedBrokerMutationResultV1::TaskLeaseRenewed {
                metadata,
                task_id,
                task_revision,
                lease_id,
                lease_epoch,
                lease_expires_at_ms,
                generation,
            },
        ) => encodes_metadata(x.metadata, metadata)
            && task_id@ == x.task_id@
            && task_revision == x.task_revision@
            && lease_id@ == x.lease_id@
            && lease_epoch == x.lease_epoch@
            && lease_expires_at_ms == x.lease_expires_at_ms@
            && generation == x.generation@,
        (
            BrokerMutationResult::TaskCompleted(x),
            ReplicatedBrokerMutationResultV1::TaskCompleted {
                metadata,
                task_id,
                task_revision,
                status,
            },
        ) => encodes_metadata(x.metadata, metadata)
            && task_id@ == x.task_id@
            && task_revision == x.task_revision@
            && status == durable_status(x.status),
        (
            BrokerMutationResult::CompletedTasksPruned(x),
            ReplicatedBrokerMutationResultV1::CompletedTasksPruned { metadata, pruned_count },
        ) => encodes_metadata(x.metadata, metadata) && pruned_count == x.pruned_count,
        (
            BrokerMutationResult::TermAdvanced(x),
            ReplicatedBrokerMutationResultV1::TermAdvanced { metadata },
        ) => encodes_metadata(x.metadata, metadata),
        _ => false,
    }
}

/// The text of a failed domain validation.
pub open spec fn response_validation_text(error: Seq<char>) -> Seq<char> {
    "replicated Broker response failed domain validation: "@ + error
}

/// The finding on one text of kind `K`.
pub open spec fn response_text_finding<K: TextKind>(text: Seq<char>) -> Option<Seq<char>> {
    match K::flaw(text) {
        Some(reason) => Some(response_validation_text(text_error(K::label(), reason))),
        None => None,
    }
}

/// The finding on one optional text of kind `K`.
pub open spec fn optional_text_finding<K: TextKind>(text: Option<String>) -> Option<Seq<char>> {
    match text {
        Some(value) => response_text_finding::<K>(value@),
        None => None,
    }
}

/// The finding on durable metadata.
pub open spec fn metadata_finding(metadata: ReplicatedMutationMetadataV1) -> Option<Seq<char>> {
    if metadata.term == 0 {
        Some(response_validation_text(zero_error("Broker term"@)))
    } else {
        None
    }
}

/// The finding on the shape of a claim: a lease payload is complete or absent.
pub open spec fn claim_shape_finding(
    task_id: Option<String>,
    objective: Option<String>,
    task_revision: Option<u64>,
    lease_id: Option<String>,
    lease_epoch: Option<u64>,
    lease_expires_at_ms: Option<u64>,
) -> Option<Seq<char>> {
    if (task_id is Some) == (objective is Some) && (objective is Some) == (task_revision is Some)
        && (task_revision is Some) == (lease_id is Some) && (lease_id is Some) == (
    lease_epoch is Some) && (lease_epoch is Some) == (lease_expires_at_ms is Some) {
        None
    } else {
        Some("replicated TaskClaim response contains a partial lease payload"@)
    }
}

/// Why a durable result is no domain result, or `None` if it is one.
pub open spec fn result_finding(wire: ReplicatedBrokerMutationResultV1) -> Option<Seq<char>> {
    match wire {
        ReplicatedBrokerMutationResultV1::Namespace { metadata, namespace_id, .. } => first_of(
            metadata_finding(metadata),
            response_text_finding::<NamespaceKind>(namespace_id@),
        ),
        ReplicatedBrokerMutationResultV1::TaskPublished { metadata, task_id, .. } => first_of(
            metadata_finding(metadata),
            response_text_finding::<TaskKind>(task_id@),
        ),
        ReplicatedBrokerMutationResultV1::ConsumerGroup {
            metadata,
            group_id,
            member_count,
            ..
        } => first_of(
            metadata_finding(metadata),
            first_of(
                response_text_finding::<ConsumerGroupKind>(group_id@),
                count_finding(member_count, "member_count"@),
            ),
        ),
        ReplicatedBrokerMutationResultV1::Heartbeat {
            metadata,
            group_id,
            member_id,
            ..
        } => first_of(
            metadata_finding(metadata),
            first_of(
                response_text_finding::<ConsumerGroupKind>(group_id@),
                response_text_finding::<ConsumerKind>(member_id@),
            ),
        ),
        ReplicatedBrokerMutationResultV1::StaleMembersReaped {
            metadata,
            reaped_count,
            affected_group_count,
        } => first_of(
            metadata_finding(metadata),
            first_of(
                count_finding(reaped_count, "reaped_count"@),
                count_finding(affected_group_count, "affected_group_count"@),
            ),
        ),
        ReplicatedBrokerMutationResultV1::TaskClaim {
            metadata,
            task_id,
            objective,
            task_revision,
            lease_id,
            lease_epoch,
            lease_expires_at_ms,
            ..
        } => first_of(
            claim_shape_finding(
                task_id,
                objective,
                task_revision,
                lease_id,
                lease_epoch,
                lease_expires_at_ms,
            ),
            first_of(
                metadata_finding(metadata),
                first_of(
                    optional_text_finding::<TaskKind>(task_id),
                    first_of(
                        optional_text_finding::<ObjectiveKind>(objective),
                        optional_text_finding::<LeaseKind>(lease_id),
                    ),
                ),
            ),
        ),
        ReplicatedBrokerMutationResultV1::TaskLeaseRenewed {
            metadata,
            task_id,
            lease_id,
            ..
        } => first_of(
            metadata_finding(metadata),
            first_of(
                response_text_finding::<TaskKind>(task_id@),
                response_text_finding::<LeaseKind>(lease_id@),
            ),
        ),
        ReplicatedBrokerMutationResultV1::TaskCompleted { metadata, task_id, .. } => first_of(
            metadata_finding(metadata),
            response_text_finding::<TaskKind>(task_id@),
        ),
        ReplicatedBrokerMutationResultV1::CompletedTasksPruned {
            metadata,
            pruned_count,
        } => first_of(
            metadata_finding(metadata),
            count_finding(pruned_count, "pruned_count"@),
        ),
        ReplicatedBrokerMutationResultV1::TermAdvanced { metadata } => metadata_finding(metadata),
    }
}

fn response_validation_error(error: &str) -> (r: ReplicatedResponseError)
    ensures
        r@ == response_validation_text(error@),
{
    ReplicatedResponseError {
        message: "replicated Broker response failed domain validation: ".to_owned().concat(error),
    }
}

fn decode_response_text<K: TextKind>(value: &str) -> (r: Result<
    DomainText<K>,
    ReplicatedResponseError,
>)
    ensures
        match r {
            Ok(text) => text@ == value@ && response_text_finding::<K>(value@) is None,
            Err(error) => response_text_finding::<K>(value@) == Some(error@),
        },
{
    match DomainText::<K>::new(value) {
        Ok(text) => Ok(text),
        Err(error) => Err(response_validation_error(error.message().as_str())),
    }
}

fn decode_optional_text<K: TextKind>(value: &Option<String>) -> (r: Result<
    Option<DomainText<K>>,
    ReplicatedResponseError,
>)
    ensures
        match r {
            Ok(text) => optional_domain_text(text) == optional_text(*value)
                && optional_text_finding::<K>(*value) is None,
            Err(error) => optional_text_finding::<K>(*value) == Some(error@),
        },
{
    match value {
        Some(text) => match decode_response_text::<K>(text.as_str()) {
            Ok(decoded) => Ok(Some(decoded)),
            Err(error) => Err(error),
        },
        None => Ok(None),
    }
}

fn decode_metadata(metadata: ReplicatedMutationMetadataV1) -> (r: Result<
    MutationMetadata,
    ReplicatedResponseError,
>)
    ensures
        match r {
            Ok(decoded) => encodes_metadata(decoded, metadata) && metadata_finding(metadata)
                is None,
            Err(error) => metadata_finding(metadata) == Some(error@),
        },
{
    match Term::new(metadata.term) {
        Ok(term) => Ok(MutationMetadata { term, revision: Revision::new(metadata.revision) }),
        Err(error) => Err(response_validation_error(error.message().as_str())),
    }
}

fn encode_metadata(metadata: &MutationMetadata) -> (r: ReplicatedMutationMetadataV1)
    ensures
        encodes_metadata(*metadata, r),
        metadata_finding(r) is None,
{
    ReplicatedMutationMetadataV1 {
        term: metadata.term.get(),
        revision: metadata.revision.get(),
    }
}

fn decode_count(value: u64, field: &str) -> (r: Result<usize, ReplicatedResponseError>)
    ensures
        match r {
            Ok(count) => count == value && count_finding(value, field@) is None,
            Err(error) => count_finding(value, field@) == Some(error@),
        },
{
    if value > usize::MAX as u64 {
        Err(ReplicatedResponseError { message: field.to_owned().concat(" exceeds platform usize") })
    } else {
        Ok(value as usize)
    }
}

/// Check that a claim carries a complete lease payload or none.
fn validate_claim_option_shape(
    task_id: &Option<String>,
    objective: &Option<String>,
    task_revision: &Option<u64>,
    lease_id: &Option<String>,
    lease_epoch: &Option<u64>,
    lease_expires_at_ms: &Option<u64>,
) -> (r: Result<(), ReplicatedResponseError>)
    ensures
        match r {
            Ok(_) => claim_shape_finding(
                *task_id,
                *objective,
                *task_revision,
                *lease_id,
                *lease_epoch,
                *lease_expires_at_ms,
            ) is None,
            Err(error) => claim_shape_finding(
                *task_id,
                *objective,
                *task_revision,
                *lease_id,
                *lease_epoch,
                *lease_expires_at_ms,
            ) == Some(error@),
        },
{
    let all_present = task_id.is_some() && objective.is_some() && task_revision.is_some()
        && lease_id.is_some() && lease_epoch.is_some() && lease_expires_at_ms.is_some();
    let all_absent = task_id.is_none() && objective.is_none() && task_revision.is_none()
        && lease_id.is_none() && lease_epoch.is_none() && lease_expires_at_ms.is_none();
    if all_present || all_absent {
        Ok(())
    } else {
        Err(
            ReplicatedResponseError::new(
                "replicated TaskClaim response contains a partial lease payload",
            ),
        )
    }
}

fn encode_optional_text<K: TextKind>(text: &Option<DomainText<K>>) -> (r: Option<String>)
    ensures
        optional_text(r) == optional_domain_text(*text),
        optional_text_finding::<K>(r) is None,
{
    match text {
        Some(value) => {
            proof {
                use_type_invariant(value);
            }
            Some(value.as_str().to_owned())
        },
        None => None,
    }
}

/// A domain result whose claim, if it is one, carries a complete lease payload or none.
pub open spec fn has_whole_claim(result: BrokerMutationResult) -> bool {
    result matches BrokerMutationResult::TaskClaim(x) ==> (x.task_id is Some) == (
    x.objective is Some) && (x.objective is Some) == (x.task_revision is Some) && (
    x.task_revision is Some) == (x.lease_id is Some) && (x.lease_id is Some) == (
    x.lease_epoch is Some) && (x.lease_epoch is Some) == (x.lease_expires_at_ms is Some)
}

impl ReplicatedBrokerMutationResultV1 {
    /// The durable form of a domain result.
    pub fn from_result(result: &BrokerMutationResult) -> (r: Self)
        ensures
            encodes_result(*result, r),
            result_finding(r) is None <==> has_whole_claim(*result),
    {
        match result {
            BrokerMutationResult::Namespace(x) => {
                proof {
                    use_type_invariant(&x.namespace_id);
                }
                ReplicatedBrokerMutationResultV1::Namespace {
                    metadata: encode_metadata(&x.metadata),
                    namespace_id: x.namespace_id.as_str().to_owned(),
                    namespace_revision: x.namespace_revision.get(),
                }
            },
            BrokerMutationResult::TaskPublished(x) => {
                proof {
                    use_type_invariant(&x.task_id);
                }
                ReplicatedBrokerMutationResultV1::TaskPublished {
                    metadata: encode_metadata(&x.metadata),
                    task_id: x.task_id.as_str().to_owned(),
                    task_revision: x.task_revision.get(),
                    status: encode_status(x.status),
                }
            },
            BrokerMutationResult::ConsumerGroup(x) => {
                proof {
                    use_type_invariant(&x.group_id);
                }
                ReplicatedBrokerMutationResultV1::ConsumerGroup {
                    metadata: encode_metadata(&x.metadata),
                    group_id: x.group_id.as_str().to_owned(),
                    generation: x.generation.get(),
                    group_revision: x.group_revision.get(),
                    member_count: x.member_count as u64,
                }
            },
            BrokerMutationResult::Heartbeat(x) => {
                proof {
                    use_type_invariant(&x.group_id);
                    use_type_invariant(&x.member_id);
                }
                ReplicatedBrokerMutationResultV1::Heartbeat {
                    metadata: encode_metadata(&x.metadata),
                    group_id: x.group_id.as_str().to_owned(),
                    member_id: x.member_id.as_str().to_owned(),
                    generation: x.generation.get(),
                    member_revision: x.member_revision.get(),
                }
            },
            BrokerMutationResult::StaleMembersReaped(x) => {
                ReplicatedBrokerMutationResultV1::StaleMembersReaped {
                    metadata: encode_metadata(&x.metadata),
                    reaped_count: x.reaped_count as u64,
                    affected_group_count: x.affected_group_count as u64,
                }
            },
            BrokerMutationResult::TaskClaim(x) => {
                ReplicatedBrokerMutationResultV1::TaskClaim {
                    metadata: encode_metadata(&x.metadata),
                    task_id: encode_optional_text(&x.task_id),
                    objective: encode_optional_text(&x.objective),
                    task_revision: match x.task_revision {
                        Some(number) => Some(number.get()),
                        None => None,
                    },
                    lease_id: encode_optional_text(&x.lease_id),
                    lease_epoch: match x.lease_epoch {
                        Some(number) => Some(number.get()),
                        None => None,
                    },
                    lease_expires_at_ms: match x.lease_expires_at_ms {
                        Some(number) => Some(number.get()),
                        None => None,
                    },
                    generation: x.generation.get(),
                }
            },
            BrokerMutationResult::TaskLeaseRenewed(x) => {
                proof {
                    use_type_invariant(&x.task_id);
                    use_type_invariant(&x.lease_id);
                }
                ReplicatedBrokerMutationResultV1::TaskLeaseRenewed {
                    metadata: encode_metadata(&x.metadata),
                    task_id: x.task_id.as_str().to_owned(),
                    task_revision: x.task_revision.get(),
                    lease_id: x.lease_id.as_str().to_owned(),
                    lease_epoch: x.lease_epoch.get(),
                    lease_expires_at_ms: x.lease_expires_at_ms.get(),
                    generation: x.generation.get(),
                }
            },
            BrokerMutationResult::TaskCompleted(x) => {
                proof {
                    use_type_invariant(&x.task_id);
                }
                ReplicatedBrokerMutationResultV1::TaskCompleted {
                    metadata: encode_metadata(&x.metadata),
                    task_id: x.task_id.as_str().to_owned(),
                    task_revision: x.task_revision.get(),
                    status: encode_status(x.status),
                }
            },
            BrokerMutationResult::CompletedTasksPruned(x) => {
                ReplicatedBrokerMutationResultV1::CompletedTasksPruned {
                    metadata: encode_metadata(&x.metadata),
                    pruned_count: x.pruned_count as u64,
                }
            },
            BrokerMutationResult::TermAdvanced(x) => {
                ReplicatedBrokerMutationResultV1::TermAdvanced {
                    metadata: encode_metadata(&x.metadata),
                }
            },
        }
    }

    /// The domain result of a durable form, with every domain rule checked again.
    pub fn to_result(&self) -> (r: Result<BrokerMutationResult, ReplicatedResponseError>)
        ensures
            match r {
                Ok(result) => encodes_result(result, *self) && result_finding(*self) is None,
                Err(error) => result_finding(*self) == Some(error@),
            },
    {
        match self {
            ReplicatedBrokerMutationResultV1::Namespace {
                metadata,
                namespace_id,
                namespace_revision,
            } => {
                let metadata = decode_metadata(*metadata)?;
                let namespace_id = decode_response_text::<NamespaceKind>(namespace_id.as_str())?;
                Ok(
                    BrokerMutationResult::Namespace(NamespaceResult {
                        metadata,
                        namespace_id,
                        namespace_revision: Revision::new(*namespace_revision),
                    }),
                )
            },
            ReplicatedBrokerMutationResultV1::TaskPublished {
                metadata,
                task_id,
                task_revision,
                status,
            } => {
                let metadata = decode_metadata(*metadata)?;
                let task_id = decode_response_text::<TaskKind>(task_id.as_str())?;
                Ok(
                    BrokerMutationResult::TaskPublished(TaskPublishedResult {
                        metadata,
                        task_id,
                        task_revision: Revision::new(*task_revision),
                        status: decode_status(*status),
                    }),
                )
            },
            ReplicatedBrokerMutationResultV1::ConsumerGroup {
                metadata,
                group_id,
                generation,
                group_revision,
                member_count,
            } => {
                let metadata = decode_metadata(*metadata)?;
                let group_id = decode_response_text::<ConsumerGroupKind>(group_id.as_str())?;
                let member_count = decode_count(*member_count, "member_count")?;
                Ok(
                    BrokerMutationResult::ConsumerGroup(ConsumerGroupResult {
                        metadata,
                        group_id,
                        generation: Generation::new(*generation),
                        group_revision: Revision::new(*group_revision),
                        member_count,
                    }),
                )
            },
            ReplicatedBrokerMutationResultV1::Heartbeat {
                metadata,
                group_id,
                member_id,
                generation,
                member_revision,
            } => {
                let metadata = decode_metadata(*metadata)?;
                let group_id = decode_response_text::<ConsumerGroupKind>(group_id.as_str())?;
                let member_id = decode_response_text::<ConsumerKind>(member_id.as_str())?;
                Ok(
                    BrokerMutationResult::Heartbeat(HeartbeatResult {
                        metadata,
                        group_id,
                        member_id,
                        generation: Generation::new(*generation),
                        member_revision: Revision::new(*member_revision),
                    }),
                )
            },
            ReplicatedBrokerMutationResultV1::StaleMembersReaped {
                metadata,
                reaped_count,
                affected_group_count,
            } => {
                let metadata = decode_metadata(*metadata)?;
                let reaped_count = decode_count(*reaped_count, "reaped_count")?;
                let affected_group_count = decode_count(
                    *affected_group_count,
                    "affected_group_count",
                )?;
                Ok(
                    BrokerMutationResult::StaleMembersReaped(StaleMembersReapedResult {
                        metadata,
                        reaped_count,
                        affected_group_count,
                    }),
                )
            },
            ReplicatedBrokerMutationResultV1::TaskClaim {
                metadata,
                task_id,
                objective,
                task_revision,
                lease_id,
                lease_epoch,
                lease_expires_at_ms,
                generation,
            } => {
                validate_claim_option_shape(
                    task_id,
                    objective,
                    task_revision,
                    lease_id,
                    lease_epoch,
                    lease_expires_at_ms,
                )?;
                let metadata = decode_metadata(*metadata)?;
                let task_id = decode_optional_text::<TaskKind>(task_id)?;
                let objective = decode_optional_text::<ObjectiveKind>(objective)?;
                let lease_id = decode_optional_text::<LeaseKind>(lease_id)?;
                Ok(
                    BrokerMutationResult::TaskClaim(TaskClaimResult {
                        metadata,
                        task_id,
                        objective,
                        task_revision: match task_revision {
                            Some(number) => Some(Revision::new(*number)),
                            None => None,
                        },
                        lease_id,
                        lease_epoch: match lease_epoch {
                            Some(number) => Some(LeaseEpoch::new(*number)),
                            None => None,
                        },
                        lease_expires_at_ms: match lease_expires_at_ms {
                            Some(number) => Some(TimestampMs::new(*number)),
                            None => None,
                        },
                        generation: Generation::new(*generation),
                    }),
                )
            },
            ReplicatedBrokerMutationResultV1::TaskLeaseRenewed {
                metadata,
                task_id,
                task_revision,
                lease_id,
                lease_epoch,
                lease_expires_at_ms,
                generation,
            } => {
                let metadata = decode_metadata(*metadata)?;
                let task_id = decode_response_text::<TaskKind>(task_id.as_str())?;
                let lease_id = decode_response_text::<LeaseKind>(lease_id.as_str())?;
                Ok(
                    BrokerMutationResult::TaskLeaseRenewed(TaskLeaseRenewedResult {
                        metadata,
                        task_id,
                        task_revision: Revision::new(*task_revision),
                        lease_id,
                        lease_epoch: LeaseEpoch::new(*lease_epoch),
                        lease_expires_at_ms: TimestampMs::new(*lease_expires_at_ms),
                        generation: Generation::new(*generation),
                    }),
                )
            },
            ReplicatedBrokerMutationResultV1::TaskCompleted {
                metadata,
                task_id,
                task_revision,
                status,
            } => {
                let metadata = decode_metadata(*metadata)?;
                let task_id = decode_response_text::<TaskKind>(task_id.as_str())?;
                Ok(
                    BrokerMutationResult::TaskCompleted(TaskCompletedResult {
                        metadata,
                        task_id,
                        task_revision: Revision::new(*task_revision),
                        status: decode_status(*status),
                    }),
                )
            },
            ReplicatedBrokerMutationResultV1::CompletedTasksPruned { metadata, pruned_count } => {
                let metadata = decode_metadata(*metadata)?;
                let pruned_count = decode_count(*pruned_count, "pruned_count")?;
                Ok(
                    BrokerMutationResult::CompletedTasksPruned(CompletedTasksPrunedResult {
                        metadata,
                        pruned_count,
                    }),
                )
            },
            ReplicatedBrokerMutationResultV1::TermAdvanced { metadata } => {
                let metadata = decode_metadata(*metadata)?;
                Ok(
                    BrokerMutationResult::TermAdvanced(TermAdvancedResult {
                        metadata,
                    }),
                )
            },
        }
    }
}

/// The text for an error code that no committed response can carry.
pub open spec fn unreplicable_code_text() -> Seq<char> {
    "an unknown commit outcome cannot be a committed application error"@
}

/// The durable form of an application error, with a given disposition.
pub open spec fn is_durable_error(
    error: BrokerErrorView,
    disposition: BrokerErrorDisposition,
    wire: ReplicatedBrokerErrorV1,
) -> bool {
    &&& durable_code(error.code) == Some(wire.code)
    &&& wire.message@ == error.message
    &&& wire.disposition == disposition
}

fn durable_error(
    error: &BrokerError,
    disposition: BrokerErrorDisposition,
) -> (r: Result<ReplicatedBrokerErrorV1, ReplicatedResponseError>)
    ensures
        match r {
            Ok(wire) => is_durable_error(error@, disposition, wire),
            Err(refusal) => durable_code(error@.code) is None && refusal@
                == unreplicable_code_text(),
        },
{
    match encode_code(error.code()) {
        Some(code) => Ok(
            ReplicatedBrokerErrorV1 { code, message: error.message().to_owned(), disposition },
        ),
        None => Err(
            ReplicatedResponseError::new(
                "an unknown commit outcome cannot be a committed application error",
            ),
        ),
    }
}

impl ReplicatedBrokerErrorV1 {
    /// The application error of a durable one.
    pub fn to_broker_error(&self) -> (r: BrokerError)
        ensures
            r@ == application_error(*self),
    {
        BrokerError::new(decode_code(self.code), self.message.as_str()).with_disposition(
            self.disposition,
        )
    }
}

/// Why a response holds no application result, or `None` if it holds one.
pub open spec fn response_finding(response: ReplicatedBrokerResponseV1) -> Option<Seq<char>> {
    match response {
        ReplicatedBrokerResponseV1::RaftControl => Some(
            "Raft control entry does not contain a Broker application result"@,
        ),
        ReplicatedBrokerResponseV1::SessionOwnerAcquired { .. } => Some(
            "command-session owner acquisition does not contain a Broker application result"@,
        ),
        ReplicatedBrokerResponseV1::Success(result) => result_finding(result),
        ReplicatedBrokerResponseV1::ApplicationError(_) => None,
    }
}

/// Whether a response is the committed form of what the Broker answered.
pub open spec fn is_committed_response(
    result: Result<BrokerMutationResult, BrokerError>,
    response: ReplicatedBrokerResponseV1,
) -> bool {
    match result {
        Ok(value) => response matches ReplicatedBrokerResponseV1::Success(wire) && encodes_result(
            value,
            wire,
        ),
        Err(error) => response matches ReplicatedBrokerResponseV1::ApplicationError(wire)
            && is_durable_error(error@, BrokerErrorDisposition::Committed, wire),
    }
}

/// Whether `result` is the application result that a response holds.
pub open spec fn is_application_result(
    response: ReplicatedBrokerResponseV1,
    result: Result<BrokerMutationResult, BrokerError>,
) -> bool {
    match result {
        Ok(value) => response matches ReplicatedBrokerResponseV1::Success(wire) && encodes_result(
            value,
            wire,
        ),
        Err(error) => response matches ReplicatedBrokerResponseV1::ApplicationError(wire)
            && error@ == application_error(wire),
    }
}

impl ReplicatedBrokerResponseV1 {
    /// The committed response for what the Broker answered to an applied command.
    ///
    /// A business error is a committed outcome, whatever disposition it came with.
    pub fn from_application_result(
        result: &Result<BrokerMutationResult, BrokerError>,
    ) -> (r: Result<Self, ReplicatedResponseError>)
        ensures
            match r {
                Ok(response) => {
                    &&& is_committed_response(*result, response)
                    &&& normalized_outcome(response) == response
                    &&& response_finding(response) is None <==> (*result matches Ok(value)
                        ==> has_whole_claim(value))
                },
                Err(refusal) => *result matches Err(error) && durable_code(error@.code) is None
                    && refusal@ == unreplicable_code_text(),
            },
    {
        match result {
            Ok(value) => Ok(
                ReplicatedBrokerResponseV1::Success(
                    ReplicatedBrokerMutationResultV1::from_result(value),
                ),
            ),
            Err(error) => match durable_error(error, BrokerErrorDisposition::Committed) {
                Ok(wire) => Ok(ReplicatedBrokerResponseV1::ApplicationError(wire)),
                Err(refusal) => Err(refusal),
            },
        }
    }

    /// The response for a command that was refused before it was applied.
    pub fn from_pre_application_rejection(error: &BrokerError) -> (r: Result<
        Self,
        ReplicatedResponseError,
    >)
        ensures
            match r {
                Ok(response) => response matches ReplicatedBrokerResponseV1::ApplicationError(wire)
                    && is_durable_error(error@, BrokerErrorDisposition::Rejected, wire),
                Err(refusal) => durable_code(error@.code) is None && refusal@
                    == unreplicable_code_text(),
            },
    {
        match durable_error(error, BrokerErrorDisposition::Rejected) {
            Ok(wire) => Ok(ReplicatedBrokerResponseV1::ApplicationError(wire)),
            Err(refusal) => Err(refusal),
        }
    }

    /// The application result after a committed write completes.
    pub fn into_application_result(self) -> (r: Result<
        Result<BrokerMutationResult, BrokerError>,
        ReplicatedResponseError,
    >)
        ensures
            match r {
                Ok(result) => is_application_result(self, result) && response_finding(self)
                    is None,
                Err(refusal) => response_finding(self) == Some(refusal@),
            },
    {
        self.application_result()
    }

    /// The application result that a response holds.
    pub fn application_result(&self) -> (r: Result<
        Result<BrokerMutationResult, BrokerError>,
        ReplicatedResponseError,
    >)
        ensures
            match r {
                Ok(result) => is_application_result(*self, result) && response_finding(*self)
                    is None,
                Err(refusal) => response_finding(*self) == Some(refusal@),
            },
    {
        match self {
            ReplicatedBrokerResponseV1::RaftControl => Err(
                ReplicatedResponseError::new(
                    "Raft control entry does not contain a Broker application result",
                ),
            ),
            ReplicatedBrokerResponseV1::SessionOwnerAcquired { .. } => Err(
                ReplicatedResponseError::new(
                    "command-session owner acquisition does not contain a Broker application result",
                ),
            ),
            ReplicatedBrokerResponseV1::Success(result) => match result.to_result() {
                Ok(value) => Ok(Ok(value)),
                Err(refusal) => Err(refusal),
            },
            ReplicatedBrokerResponseV1::ApplicationError(error) => Ok(Err(error.to_broker_error())),
        }
    }

    /// The stored outcome of a session: a stored business error is a committed outcome, also where
    /// it was stored without a disposition.
    pub fn normalize_stored_session_outcome(self) -> (r: Self)
        ensures
            r == normalized_outcome(self),
    {
        match self {
            ReplicatedBrokerResponseV1::ApplicationError(error) => {
                ReplicatedBrokerResponseV1::ApplicationError(
                    ReplicatedBrokerErrorV1 {
                        code: error.code,
                        message: error.message,
                        disposition: BrokerErrorDisposition::Committed,
                    },
                )
            },
            other => other,
        }
    }
}

/// A stored session outcome with the disposition that storage implies.
pub open spec fn normalized_outcome(
    response: ReplicatedBrokerResponseV1,
) -> ReplicatedBrokerResponseV1 {
    match response {
        ReplicatedBrokerResponseV1::ApplicationError(error) => {
            ReplicatedBrokerResponseV1::ApplicationError(
                ReplicatedBrokerErrorV1 { disposition: BrokerErrorDisposition::Committed, ..error },
            )
        },
        other => other,
    }
}

/// A durable result determines the values of its domain result: two results with one durable form
/// have all durable forms in common.
pub proof fn law_durable_result_determines_result(
    left: BrokerMutationResult,
    right: BrokerMutationResult,
    wire: ReplicatedBrokerMutationResultV1,
    other: ReplicatedBrokerMutationResultV1,
)
    requires
        encodes_result(left, wire),
        encodes_result(right, wire),
    ensures
        encodes_result(left, other) <==> encodes_result(right, other),
{
}

/// A business error comes back from its committed response with its code and text and as a
/// committed outcome.
pub proof fn law_business_error_round_trips_as_committed(
    error: BrokerError,
    response: ReplicatedBrokerResponseV1,
    recovered: Result<BrokerMutationResult, BrokerError>,
)
    requires
        is_committed_response(Err(error), response),
        is_application_result(response, recovered),
    ensures
        response_finding(response) is None,
        recovered matches Err(back) && back@ == (BrokerErrorView {
            disposition: BrokerErrorDisposition::Committed,
            ..error@
        }),
{
}

/// A committed response is already normalized, and normalizing twice changes nothing more.
pub proof fn law_committed_response_is_normalized(
    result: Result<BrokerMutationResult, BrokerError>,
    response: ReplicatedBrokerResponseV1,
)
    requires
        is_committed_response(result, response),
    ensures
        normalized_outcome(response) == response,
        normalized_outcome(normalized_outcome(response)) == normalized_outcome(response),
{
}

} // verus!
