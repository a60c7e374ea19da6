//! Requests, answers and errors of the Broker protocol, and the codec that a client is given.
//!
//! The texts of codec refusals are this library's own. What the bytes of a frame are is left to the
//! codec.
use crate::command_identity::{
    CommandIdentity, CommandSessionId, SessionOwnerEpoch, SessionOwnerInstanceId,
};
use crate::domain::{
    Capabilities, ConsumerGroupId, Generation, LeaseDurationMs, LeaseEpoch, LeaseId, MemberId,
    NamespaceId, Revision, TaskId, TaskObjective, TaskResult, Term, TimestampMs,
};
use crate::error::BrokerError;
use crate::results::TaskStatus;
use crate::session_state::ClientSessionStoreError;
use crate::text::{decimal, push_decimal};
use vstd::prelude::*;

verus! {

/// One operation of the Broker protocol.
#[derive(Debug, Clone, Copy, PartialEq, Eq, Hash, Structural)]
pub enum Operation {
    Health,
    EnsureNamespace,
    PublishTask,
    EnsureConsumerGroup,
    JoinConsumerGroup,
    Heartbeat,
    LeaveConsumerGroup,
    ClaimTask,
    RenewTaskLease,
    CompleteTask,
}

impl Operation {
    /// The wire name of an operation.
    pub open spec fn text(self) -> Seq<char> {
        match self {
            Operation::Health => "health"@,
            Operation::EnsureNamespace => "ensure_namespace"@,
            Operation::PublishTask => "publish_task"@,
            Operation::EnsureConsumerGroup => "ensure_consumer_group"@,
            Operation::JoinConsumerGroup => "join_consumer_group"@,
            Operation::Heartbeat => "heartbeat"@,
            Operation::LeaveConsumerGroup => "leave_consumer_group"@,
            Operation::ClaimTask => "claim_task"@,
            Operation::RenewTaskLease => "renew_task_lease"@,
            Operation::CompleteTask => "complete_task"@,
        }
    }

    pub fn as_str(self) -> (r: &'static str)
        ensures
            r@ == self.text(),
    {
        match self {
            Operation::Health => "health",
            Operation::EnsureNamespace => "ensure_namespace",
            Operation::PublishTask => "publish_task",
            Operation::EnsureConsumerGroup => "ensure_consumer_group",
            Operation::JoinConsumerGroup => "join_consumer_group",
            Operation::Heartbeat => "heartbeat",
            Operation::LeaveConsumerGroup => "leave_consumer_group",
            Operation::ClaimTask => "claim_task",
            Operation::RenewTaskLease => "renew_task_lease",
            Operation::CompleteTask => "complete_task",
        }
    }
}

/// What a request asks of the Broker. No field holds a clock of the client.
#[derive(Debug, PartialEq, Eq)]
pub enum RequestBody {
    Health,
    EnsureNamespace { namespace_id: NamespaceId },
    PublishTask { namespace_id: NamespaceId, task_id: TaskId, objective: TaskObjective },
    EnsureConsumerGroup { namespace_id: NamespaceId, group_id: ConsumerGroupId },
    JoinConsumerGroup {
        group_id: ConsumerGroupId,
        member_id: MemberId,
        capabilities: Capabilities,
    },
    Heartbeat {
        group_id: ConsumerGroupId,
        member_id: MemberId,
        expected_generation: Generation,
    },
    LeaveConsumerGroup {
        group_id: ConsumerGroupId,
        member_id: MemberId,
        expected_generation: Generation,
    },
    ClaimTask {
        group_id: ConsumerGroupId,
        member_id: MemberId,
        expected_term: Term,
        expected_generation: Generation,
        lease_id: LeaseId,
        lease_duration: LeaseDurationMs,
    },
    RenewTaskLease {
        task_id: TaskId,
        group_id: ConsumerGroupId,
        member_id: MemberId,
        expected_term: Term,
        expected_generation: Generation,
        expected_lease_epoch: LeaseEpoch,
        lease_id: LeaseId,
        lease_duration: LeaseDurationMs,
    },
    CompleteTask {
        task_id: TaskId,
        group_id: ConsumerGroupId,
        member_id: MemberId,
        expected_term: Term,
        expected_generation: Generation,
        expected_lease_epoch: LeaseEpoch,
        lease_id: LeaseId,
        result: TaskResult,
    },
}

/// One request with the id that its answer carries back.
#[derive(Debug, PartialEq, Eq)]
pub struct BrokerRequest {
    pub request_id: String,
    pub body: RequestBody,
}

impl BrokerRequest {
    /// The operation of a request.
    pub open spec fn spec_operation(&self) -> Operation {
        match self.body {
            RequestBody::Health => Operation::Health,
            RequestBody::EnsureNamespace { .. } => Operation::EnsureNamespace,
            RequestBody::PublishTask { .. } => Operation::PublishTask,
            RequestBody::EnsureConsumerGroup { .. } => Operation::EnsureConsumerGroup,
            RequestBody::JoinConsumerGroup { .. } => Operation::JoinConsumerGroup,
            RequestBody::Heartbeat { .. } => Operation::Heartbeat,
            RequestBody::LeaveConsumerGroup { .. } => Operation::LeaveConsumerGroup,
            RequestBody::ClaimTask { .. } => Operation::ClaimTask,
            RequestBody::RenewTaskLease { .. } => Operation::RenewTaskLease,
            RequestBody::CompleteTask { .. } => Operation::CompleteTask,
        }
    }

    pub fn operation(&self) -> (r: Operation)
        ensures
            r == self.spec_operation(),
    {
        match &self.body {
            RequestBody::Health => Operation::Health,
            RequestBody::EnsureNamespace { .. } => Operation::EnsureNamespace,
            RequestBody::PublishTask { .. } => Operation::PublishTask,
            RequestBody::EnsureConsumerGroup { .. } => Operation::EnsureConsumerGroup,
            RequestBody::JoinConsumerGroup { .. } => Operation::JoinConsumerGroup,
            RequestBody::Heartbeat { .. } => Operation::Heartbeat,
            RequestBody::LeaveConsumerGroup { .. } => Operation::LeaveConsumerGroup,
            RequestBody::ClaimTask { .. } => Operation::ClaimTask,
            RequestBody::RenewTaskLease { .. } => Operation::RenewTaskLease,
            RequestBody::CompleteTask { .. } => Operation::CompleteTask,
        }
    }
}

/// What a successful answer carries.
#[derive(Debug, PartialEq, Eq)]
pub enum SuccessPayload {
    Health { protocol_version: u32, term: Term, revision: Revision },
    Namespace {
        term: Term,
        revision: Revision,
        namespace_id: NamespaceId,
        namespace_revision: Revision,
    },
    TaskPublished {
        term: Term,
        revision: Revision,
        task_id: TaskId,
        task_revision: Revision,
        status: TaskStatus,
    },
    ConsumerGroup {
        term: Term,
        revision: Revision,
        group_id: ConsumerGroupId,
        generation: Generation,
        group_revision: Revision,
        member_count: usize,
    },
    Heartbeat {
        term: Term,
        revision: Revision,
        group_id: ConsumerGroupId,
        member_id: MemberId,
        generation: Generation,
        member_revision: Revision,
    },
    TaskClaimed {
        term: Term,
        revision: Revision,
        task_id: Option<TaskId>,
        objective: Option<TaskObjective>,
        task_revision: Option<Revision>,
        lease_id: Option<LeaseId>,
        lease_epoch: Option<LeaseEpoch>,
        lease_expires_at_ms: Option<TimestampMs>,
        generation: Generation,
    },
    TaskLeaseRenewed {
        term: Term,
        revision: Revision,
        task_id: TaskId,
        task_revision: Revision,
        lease_id: LeaseId,
        lease_epoch: LeaseEpoch,
        lease_expires_at_ms: TimestampMs,
        generation: Generation,
    },
    TaskCompleted {
        term: Term,
        revision: Revision,
        task_id: TaskId,
        task_revision: Revision,
        status: TaskStatus,
    },
}

/// Why the protocol codec refused a frame or a request.
#[derive(Debug, PartialEq, Eq)]
pub enum ProtocolCodecError {
    InvalidRequest(String),
    InvalidResponse(String),
    FrameTooLarge { actual: usize, max: usize },
}

impl ProtocolCodecError {
    /// The text of a refusal.
    pub open spec fn text(self) -> Seq<char> {
        match self {
            ProtocolCodecError::InvalidRequest(message) => message@,
            ProtocolCodecError::InvalidResponse(message) => message@,
            ProtocolCodecError::FrameTooLarge { actual, max } => "frame of "@ + decimal(
                actual as nat,
            ) + " bytes exceeds the bound of "@ + decimal(max as nat) + " bytes"@,
        }
    }

    /// Render the refusal for people.
    pub fn message(&self) -> (r: String)
        ensures
            r@ == self.text(),
    {
        match self {
            ProtocolCodecError::InvalidRequest(message) => message.clone(),
            ProtocolCodecError::InvalidResponse(message) => message.clone(),
            ProtocolCodecError::FrameTooLarge { actual, max } => {
                let mut text = "frame of ".to_owned();
                push_decimal(&mut text, *actual as u64);
                text.append(" bytes exceeds the bound of ");
                push_decimal(&mut text, *max as u64);
                text.append(" bytes");
                text
            },
        }
    }
}

/// Why an answer frame carries no result.
#[derive(Debug, PartialEq, Eq)]
pub enum ResponseDecodeError {
    Protocol(ProtocolCodecError),
    Broker(BrokerError),
}

/// Generation of the request form that an answer belongs to.
#[derive(Debug, Clone, Copy, PartialEq, Eq, Structural)]
pub enum ProtocolVersion {
    /// A plain request.
    V1,
    /// A request with a command identity.
    V2,
    /// A request with a command identity and its owner.
    V3,
}

/// Codec of the Broker protocol. A frame is one line of bytes that ends in a newline.
pub trait ProtocolCodec: Sized {
    fn encode_request(&self, request: &BrokerRequest) -> Result<Vec<u8>, ProtocolCodecError>;

    fn encode_identified_request(
        &self,
        identity: &CommandIdentity,
        request: &BrokerRequest,
    ) -> Result<Vec<u8>, ProtocolCodecError>;

    fn encode_owner_mutation_request(
        &self,
        identity: &CommandIdentity,
        request: &BrokerRequest,
        max_bytes: usize,
    ) -> Result<Vec<u8>, ProtocolCodecError>;

    fn encode_owner_acquisition_request(
        &self,
        request_id: &String,
        session_id: &CommandSessionId,
        expected_owner_epoch: SessionOwnerEpoch,
        owner_instance_id: &SessionOwnerInstanceId,
        max_bytes: usize,
    ) -> Result<Vec<u8>, ProtocolCodecError>;

    /// Encode a plain request as text that is kept durably.
    fn encode_stored_request(&self, request: &BrokerRequest) -> Result<
        String,
        ClientSessionStoreError,
    >;

    /// Read back a plain request frame.
    fn decode_request(&self, frame: &str) -> Result<BrokerRequest, ProtocolCodecError>;

    /// Read the answer to request `request_id`, which asked for `operation`.
    fn decode_response(
        &self,
        version: ProtocolVersion,
        frame: &Vec<u8>,
        request_id: &String,
        operation: Operation,
        max_bytes: usize,
    ) -> Result<SuccessPayload, ResponseDecodeError>;

    /// Read the answer to the owner acquisition `request_id`.
    fn decode_owner_acquisition_response(
        &self,
        frame: &Vec<u8>,
        request_id: &String,
        max_bytes: usize,
    ) -> Result<SessionOwnerEpoch, ResponseDecodeError>;
}

} // verus!
