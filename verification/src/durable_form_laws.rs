//! What holds of the durable forms: they hold exactly what they are the forms of.
use crate::command_identity::{CommandSessionId, IdentityView, SessionOwnerInstanceId};
use crate::commands::{
    AdvanceTermCommand, BrokerCommand, ClaimTaskCommand, CompleteTaskCommand,
    EnsureConsumerGroupCommand, EnsureNamespaceCommand, HeartbeatCommand, JoinConsumerGroupCommand,
    LeaveConsumerGroupCommand, PruneCompletedTasksCommand, PublishTaskCommand,
    ReapStaleMembersCommand, RenewTaskLeaseCommand,
};
use crate::domain::{
    capabilities_flaw, ConsumerGroupKind, ConsumerKind, LeaseKind, NamespaceKind, ObjectiveKind,
    OutcomeKind, TaskKind, TextKind,
};
use crate::error::{BrokerError, BrokerErrorCode, BrokerErrorDisposition};
use crate::replicated_command::{client_request, decode_finding, encodes, WireCommand};
use crate::replicated_proposal::{durable_identity, identity_finding, ReplicatedCommandIdentityV1};
use crate::replicated_response::{
    application_code, application_error, durable_code, durable_status, encodes_result,
    has_whole_claim, is_application_result, is_committed_response, normalized_outcome,
    response_finding, result_finding, ReplicatedBrokerErrorCodeV1, ReplicatedBrokerErrorV1,
    ReplicatedBrokerMutationResultV1, ReplicatedBrokerResponseV1, ReplicatedTaskStatusV1,
};
use crate::results::{
    BrokerMutationResult, CompletedTasksPrunedResult, ConsumerGroupResult, HeartbeatResult,
    NamespaceResult, StaleMembersReapedResult, TaskClaimResult, TaskCompletedResult,
    TaskLeaseRenewedResult, TaskPublishedResult, TaskStatus, TermAdvancedResult,
};
use vstd::prelude::*;

verus! {

/// The durable form of a namespace request holds every value of it, and nothing else is its durable
/// form.
pub proof fn law_durable_ensure_namespace_keeps_every_value(
    command: EnsureNamespaceCommand,
    wire: WireCommand,
)
    ensures
        encodes(BrokerCommand::EnsureNamespace(command), wire) <==> match wire {
            WireCommand::EnsureNamespace { namespace_id, max_namespaces } => {
                &&& namespace_id == command.namespace_id@
                &&& max_namespaces == command.max_namespaces
            },
            _ => false,
        },
{
}

/// The durable form of a published Task holds every value of it, and nothing else is its durable
/// form.
pub proof fn law_durable_publish_task_keeps_every_value(
    command: PublishTaskCommand,
    wire: WireCommand,
)
    ensures
        encodes(BrokerCommand::PublishTask(command), wire) <==> match wire {
            WireCommand::PublishTask {
                namespace_id,
                task_id,
                objective,
                created_at_ms,
                max_namespace_tasks,
            } => {
                &&& namespace_id == command.namespace_id@
                &&& task_id == command.task_id@
                &&& objective == command.objective@
                &&& created_at_ms == command.created_at_ms@
                &&& max_namespace_tasks == command.max_namespace_tasks
            },
            _ => false,
        },
{
}

/// The durable form of a Consumer Group request holds every value of it, and nothing else is its
/// durable form.
pub proof fn law_durable_ensure_consumer_group_keeps_every_value(
    command: EnsureConsumerGroupCommand,
    wire: WireCommand,
)
    ensures
        encodes(BrokerCommand::EnsureConsumerGroup(command), wire) <==> match wire {
            WireCommand::EnsureConsumerGroup { namespace_id, group_id, max_namespace_groups } => {
                &&& namespace_id == command.namespace_id@
                &&& group_id == command.group_id@
                &&& max_namespace_groups == command.max_namespace_groups
            },
            _ => false,
        },
{
}

/// The durable form of a join holds every value of it, and nothing else is its durable form.
pub proof fn law_durable_join_consumer_group_keeps_every_value(
    command: JoinConsumerGroupCommand,
    wire: WireCommand,
)
    ensures
        encodes(BrokerCommand::JoinConsumerGroup(command), wire) <==> match wire {
            WireCommand::JoinConsumerGroup {
                group_id,
                member_id,
                capabilities,
                now_ms,
                max_group_members,
            } => {
                &&& group_id == command.group_id@
                &&& member_id == command.member_id@
                &&& capabilities == command.capabilities@
                &&& now_ms == command.now_ms@
                &&& max_group_members == command.max_group_members
            },
            _ => false,
        },
{
}

/// The durable form of a heartbeat holds every value of it, and nothing else is its durable form.
pub proof fn law_durable_heartbeat_keeps_every_value(command: HeartbeatCommand, wire: WireCommand)
    ensures
        encodes(BrokerCommand::Heartbeat(command), wire) <==> match wire {
            WireCommand::Heartbeat { group_id, member_id, expected_generation, now_ms } => {
                &&& group_id == command.group_id@
                &&& member_id == command.member_id@
                &&& expected_generation == command.expected_generation@
                &&& now_ms == command.now_ms@
            },
            _ => false,
        },
{
}

/// The durable form of a leave holds every value of it, and nothing else is its durable form.
pub proof fn law_durable_leave_consumer_group_keeps_every_value(
    command: LeaveConsumerGroupCommand,
    wire: WireCommand,
)
    ensures
        encodes(BrokerCommand::LeaveConsumerGroup(command), wire) <==> match wire {
            WireCommand::LeaveConsumerGroup { group_id, member_id, expected_generation } => {
                &&& group_id == command.group_id@
                &&& member_id == command.member_id@
                &&& expected_generation == command.expected_generation@
            },
            _ => false,
        },
{
}

/// The durable form of a reaping of stale members holds every value of it, and nothing else is its
/// durable form.
pub proof fn law_durable_reap_stale_members_keeps_every_value(
    command: ReapStaleMembersCommand,
    wire: WireCommand,
)
    ensures
        encodes(BrokerCommand::ReapStaleMembers(command), wire) <==> match wire {
            WireCommand::ReapStaleMembers { stale_before_ms, max_members } => {
                &&& stale_before_ms == command.stale_before_ms@
                &&& max_members == command.max_members
            },
            _ => false,
        },
{
}

/// The durable form of a claim holds every value of it, and nothing else is its durable form.
pub proof fn law_durable_claim_task_keeps_every_value(command: ClaimTaskCommand, wire: WireCommand)
    ensures
        encodes(BrokerCommand::ClaimTask(command), wire) <==> match wire {
            WireCommand::ClaimTask {
                group_id,
                member_id,
                expected_term,
                expected_generation,
                lease_id,
                now_ms,
                lease_duration_ms,
            } => {
                &&& group_id == command.group_id@
                &&& member_id == command.member_id@
                &&& expected_term == command.expected_term@
                &&& expected_generation == command.expected_generation@
                &&& lease_id == command.lease_id@
                &&& now_ms == command.now_ms@
                &&& lease_duration_ms == command.lease_duration_ms
            },
            _ => false,
        },
{
}

/// The durable form of a lease renewal holds every value of it, and nothing else is its durable
/// form.
pub proof fn law_durable_renew_task_lease_keeps_every_value(
    command: RenewTaskLeaseCommand,
    wire: WireCommand,
)
    ensures
        encodes(BrokerCommand::RenewTaskLease(command), wire) <==> match wire {
            WireCommand::RenewTaskLease {
                task_id,
                group_id,
                member_id,
                expected_term,
                expected_generation,
                expected_lease_epoch,
                lease_id,
                now_ms,
                lease_duration_ms,
            } => {
                &&& task_id == command.task_id@
                &&& group_id == command.group_id@
                &&& member_id == command.member_id@
                &&& expected_term == command.expected_term@
                &&& expected_generation == command.expected_generation@
                &&& expected_lease_epoch == command.expected_lease_epoch@
                &&& lease_id == command.lease_id@
                &&& now_ms == command.now_ms@
                &&& lease_duration_ms == command.lease_duration_ms
            },
            _ => false,
        },
{
}

/// The durable form of a completion holds every value of it, and nothing else is its durable form.
pub proof fn law_durable_complete_task_keeps_every_value(
    command: CompleteTaskCommand,
    wire: WireCommand,
)
    ensures
        encodes(BrokerCommand::CompleteTask(command), wire) <==> match wire {
            WireCommand::CompleteTask {
                task_id,
                group_id,
                member_id,
                expected_term,
                expected_generation,
                expected_lease_epoch,
                lease_id,
                result,
                completed_at_ms,
            } => {
                &&& task_id == command.task_id@
                &&& group_id == command.group_id@
                &&& member_id == command.member_id@
                &&& expected_term == command.expected_term@
                &&& expected_generation == command.expected_generation@
                &&& expected_lease_epoch == command.expected_lease_epoch@
                &&& lease_id == command.lease_id@
                &&& result == command.result@
                &&& completed_at_ms == command.completed_at_ms@
            },
            _ => false,
        },
{
}

/// The durable form of a pruning of completed Tasks holds every value of it, and nothing else is
/// its durable form.
pub proof fn law_durable_prune_completed_tasks_keeps_every_value(
    command: PruneCompletedTasksCommand,
    wire: WireCommand,
)
    ensures
        encodes(BrokerCommand::PruneCompletedTasks(command), wire) <==> match wire {
            WireCommand::PruneCompletedTasks { completed_before_ms, max_tasks } => {
                &&& completed_before_ms == command.completed_before_ms@
                &&& max_tasks == command.max_tasks
            },
            _ => false,
        },
{
}

/// The durable form of an advance of the term holds every value of it, and nothing else is its
/// durable form.
pub proof fn law_durable_advance_term_keeps_every_value(
    command: AdvanceTermCommand,
    wire: WireCommand,
)
    ensures
        encodes(BrokerCommand::AdvanceTerm(command), wire) <==> match wire {
            WireCommand::AdvanceTerm { expected_term, new_term } => {
                &&& expected_term == command.expected_term@
                &&& new_term == command.new_term@
            },
            _ => false,
        },
{
}

/// Two commands of this kind are the same request exactly when everything that the client fixed is
/// the same. What the Broker observed, the time or a limit, does not matter.
pub proof fn law_same_ensure_namespace_requests(
    first_namespace_id: Seq<char>,
    second_namespace_id: Seq<char>,
    first_max_namespaces: u64,
    second_max_namespaces: u64,
)
    ensures
        client_request(
            WireCommand::EnsureNamespace {
                namespace_id: first_namespace_id,
                max_namespaces: first_max_namespaces,
            },
        ) == client_request(
            WireCommand::EnsureNamespace {
                namespace_id: second_namespace_id,
                max_namespaces: second_max_namespaces,
            },
        ) <==> {
            &&& first_namespace_id == second_namespace_id
        },
{
}

/// Two commands of this kind are the same request exactly when everything that the client fixed is
/// the same. What the Broker observed, the time or a limit, does not matter.
pub proof fn law_same_publish_task_requests(
    first_namespace_id: Seq<char>,
    second_namespace_id: Seq<char>,
    first_task_id: Seq<char>,
    second_task_id: Seq<char>,
    first_objective: Seq<char>,
    second_objective: Seq<char>,
    first_created_at_ms: u64,
    second_created_at_ms: u64,
    first_max_namespace_tasks: u64,
    second_max_namespace_tasks: u64,
)
    ensures
        client_request(
            WireCommand::PublishTask {
                namespace_id: first_namespace_id,
                task_id: first_task_id,
                objective: first_objective,
                created_at_ms: first_created_at_ms,
                max_namespace_tasks: first_max_namespace_tasks,
            },
        ) == client_request(
            WireCommand::PublishTask {
                namespace_id: second_namespace_id,
                task_id: second_task_id,
                objective: second_objective,
                created_at_ms: second_created_at_ms,
                max_namespace_tasks: second_max_namespace_tasks,
            },
        ) <==> {
            &&& first_namespace_id == second_namespace_id
            &&& first_task_id == second_task_id
            &&& first_objective == second_objective
        },
{
}

/// Two commands of this kind are the same request exactly when everything that the client fixed is
/// the same. What the Broker observed, the time or a limit, does not matter.
pub proof fn law_same_ensure_consumer_group_requests(
    first_namespace_id: Seq<char>,
    second_namespace_id: Seq<char>,
    first_group_id: Seq<char>,
    second_group_id: Seq<char>,
    first_max_namespace_groups: u64,
    second_max_namespace_groups: u64,
)
    ensures
        client_request(
            WireCommand::EnsureConsumerGroup {
                namespace_id: first_namespace_id,
                group_id: first_group_id,
                max_namespace_groups: first_max_namespace_groups,
            },
        ) == client_request(
            WireCommand::EnsureConsumerGroup {
                namespace_id: second_namespace_id,
                group_id: second_group_id,
                max_namespace_groups: second_max_namespace_groups,
            },
        ) <==> {
            &&& first_namespace_id == second_namespace_id
            &&& first_group_id == second_group_id
        },
{
}

/// Two commands of this kind are the same request exactly when everything that the client fixed is
/// the same. What the Broker observed, the time or a limit, does not matter.
pub proof fn law_same_join_consumer_group_requests(
    first_group_id: Seq<char>,
    second_group_id: Seq<char>,
    first_member_id: Seq<char>,
    second_member_id: Seq<char>,
    first_capabilities: Seq<Seq<char>>,
    second_capabilities: Seq<Seq<char>>,
    first_now_ms: u64,
    second_now_ms: u64,
    first_max_group_members: u64,
    second_max_group_members: u64,
)
    ensures
        client_request(
            WireCommand::JoinConsumerGroup {
                group_id: first_group_id,
                member_id: first_member_id,
                capabilities: first_capabilities,
                now_ms: first_now_ms,
                max_group_members: first_max_group_members,
            },
        ) == client_request(
            WireCommand::JoinConsumerGroup {
                group_id: second_group_id,
                member_id: second_member_id,
                capabilities: second_capabilities,
                now_ms: second_now_ms,
                max_group_members: second_max_group_members,
            },
        ) <==> {
            &&& first_group_id == second_group_id
            &&& first_member_id == second_member_id
            &&& first_capabilities == second_capabilities
        },
{
}

/// Two commands of this kind are the same request exactly when everything that the client fixed is
/// the same. What the Broker observed, the time or a limit, does not matter.
pub proof fn law_same_heartbeat_requests(
    first_group_id: Seq<char>,
    second_group_id: Seq<char>,
    first_member_id: Seq<char>,
    second_member_id: Seq<char>,
    first_expected_generation: u64,
    second_expected_generation: u64,
    first_now_ms: u64,
    second_now_ms: u64,
)
    ensures
        client_request(
            WireCommand::Heartbeat {
                group_id: first_group_id,
                member_id: first_member_id,
                expected_generation: first_expected_generation,
                now_ms: first_now_ms,
            },
        ) == client_request(
            WireCommand::Heartbeat {
                group_id: second_group_id,
                member_id: second_member_id,
                expected_generation: second_expected_generation,
                now_ms: second_now_ms,
            },
        ) <==> {
            &&& first_group_id == second_group_id
            &&& first_member_id == second_member_id
            &&& first_expected_generation == second_expected_generation
        },
{
}

/// Two commands of this kind are the same request exactly when everything that the client fixed is
/// the same.
pub proof fn law_same_leave_consumer_group_requests(
    first_group_id: Seq<char>,
    second_group_id: Seq<char>,
    first_member_id: Seq<char>,
    second_member_id: Seq<char>,
    first_expected_generation: u64,
    second_expected_generation: u64,
)
    ensures
        client_request(
            WireCommand::LeaveConsumerGroup {
                group_id: first_group_id,
                member_id: first_member_id,
                expected_generation: first_expected_generation,
            },
        ) == client_request(
            WireCommand::LeaveConsumerGroup {
                group_id: second_group_id,
                member_id: second_member_id,
                expected_generation: second_expected_generation,
            },
        ) <==> {
            &&& first_group_id == second_group_id
            &&& first_member_id == second_member_id
            &&& first_expected_generation == second_expected_generation
        },
{
}

/// Two commands of this kind are the same request exactly when everything that the client fixed is
/// the same.
pub proof fn law_same_reap_stale_members_requests(
    first_stale_before_ms: u64,
    second_stale_before_ms: u64,
    first_max_members: u64,
    second_max_members: u64,
)
    ensures
        client_request(
            WireCommand::ReapStaleMembers {
                stale_before_ms: first_stale_before_ms,
                max_members: first_max_members,
            },
        ) == client_request(
            WireCommand::ReapStaleMembers {
                stale_before_ms: second_stale_before_ms,
                max_members: second_max_members,
            },
        ) <==> {
            &&& first_stale_before_ms == second_stale_before_ms
            &&& first_max_members == second_max_members
        },
{
}

/// Two commands of this kind are the same request exactly when everything that the client fixed is
/// the same. What the Broker observed, the time or a limit, does not matter.
pub proof fn law_same_claim_task_requests(
    first_group_id: Seq<char>,
    second_group_id: Seq<char>,
    first_member_id: Seq<char>,
    second_member_id: Seq<char>,
    first_expected_term: u64,
    second_expected_term: u64,
    first_expected_generation: u64,
    second_expected_generation: u64,
    first_lease_id: Seq<char>,
    second_lease_id: Seq<char>,
    first_now_ms: u64,
    second_now_ms: u64,
    first_lease_duration_ms: u64,
    second_lease_duration_ms: u64,
)
    ensures
        client_request(
            WireCommand::ClaimTask {
                group_id: first_group_id,
                member_id: first_member_id,
                expected_term: first_expected_term,
                expected_generation: first_expected_generation,
                lease_id: first_lease_id,
                now_ms: first_now_ms,
                lease_duration_ms: first_lease_duration_ms,
            },
        ) == client_request(
            WireCommand::ClaimTask {
                group_id: second_group_id,
                member_id: second_member_id,
                expected_term: second_expected_term,
                expected_generation: second_expected_generation,
                lease_id: second_lease_id,
                now_ms: second_now_ms,
                lease_duration_ms: second_lease_duration_ms,
            },
        ) <==> {
            &&& first_group_id == second_group_id
            &&& first_member_id == second_member_id
            &&& first_expected_term == second_expected_term
            &&& first_expected_generation == second_expected_generation
            &&& first_lease_id == second_lease_id
            &&& first_lease_duration_ms == second_lease_duration_ms
        },
{
}

/// Two commands of this kind are the same request exactly when everything that the client fixed is
/// the same. What the Broker observed, the time or a limit, does not matter.
pub proof fn law_same_renew_task_lease_requests(
    first_task_id: Seq<char>,
    second_task_id: Seq<char>,
    first_group_id: Seq<char>,
    second_group_id: Seq<char>,
    first_member_id: Seq<char>,
    second_member_id: Seq<char>,
    first_expected_term: u64,
    second_expected_term: u64,
    first_expected_generation: u64,
    second_expected_generation: u64,
    first_expected_lease_epoch: u64,
    second_expected_lease_epoch: u64,
    first_lease_id: Seq<char>,
    second_lease_id: Seq<char>,
    first_now_ms: u64,
    second_now_ms: u64,
    first_lease_duration_ms: u64,
    second_lease_duration_ms: u64,
)
    ensures
        client_request(
            WireCommand::RenewTaskLease {
                task_id: first_task_id,
                group_id: first_group_id,
                member_id: first_member_id,
                expected_term: first_expected_term,
                expected_generation: first_expected_generation,
                expected_lease_epoch: first_expected_lease_epoch,
                lease_id: first_lease_id,
                now_ms: first_now_ms,
                lease_duration_ms: first_lease_duration_ms,
            },
        ) == client_request(
            WireCommand::RenewTaskLease {
                task_id: second_task_id,
                group_id: second_group_id,
                member_id: second_member_id,
                expected_term: second_expected_term,
                expected_generation: second_expected_generation,
                expected_lease_epoch: second_expected_lease_epoch,
                lease_id: second_lease_id,
                now_ms: second_now_ms,
                lease_duration_ms: second_lease_duration_ms,
            },
        ) <==> {
            &&& first_task_id == second_task_id
            &&& first_group_id == second_group_id
            &&& first_member_id == second_member_id
            &&& first_expected_term == second_expected_term
            &&& first_expected_generation == second_expected_generation
            &&& first_expected_lease_epoch == second_expected_lease_epoch
            &&& first_lease_id == second_lease_id
            &&& first_lease_duration_ms == second_lease_duration_ms
        },
{
}

/// Two commands of this kind are the same request exactly when everything that the client fixed is
/// the same. What the Broker observed, the time or a limit, does not matter.
pub proof fn law_same_complete_task_requests(
    first_task_id: Seq<char>,
    second_task_id: Seq<char>,
    first_group_id: Seq<char>,
    second_group_id: Seq<char>,
    first_member_id: Seq<char>,
    second_member_id: Seq<char>,
    first_expected_term: u64,
    second_expected_term: u64,
    first_expected_generation: u64,
    second_expected_generation: u64,
    first_expected_lease_epoch: u64,
    second_expected_lease_epoch: u64,
    first_lease_id: Seq<char>,
    second_lease_id: Seq<char>,
    first_result: Seq<char>,
    second_result: Seq<char>,
    first_completed_at_ms: u64,
    second_completed_at_ms: u64,
)
    ensures
        client_request(
            WireCommand::CompleteTask {
                task_id: first_task_id,
                group_id: first_group_id,
                member_id: first_member_id,
                expected_term: first_expected_term,
                expected_generation: first_expected_generation,
                expected_lease_epoch: first_expected_lease_epoch,
                lease_id: first_lease_id,
                result: first_result,
                completed_at_ms: first_completed_at_ms,
            },
        ) == client_request(
            WireCommand::CompleteTask {
                task_id: second_task_id,
                group_id: second_group_id,
                member_id: second_member_id,
                expected_term: second_expected_term,
                expected_generation: second_expected_generation,
                expected_lease_epoch: second_expected_lease_epoch,
                lease_id: second_lease_id,
                result: second_result,
                completed_at_ms: second_completed_at_ms,
            },
        ) <==> {
            &&& first_task_id == second_task_id
            &&& first_group_id == second_group_id
            &&& first_member_id == second_member_id
            &&& first_expected_term == second_expected_term
            &&& first_expected_generation == second_expected_generation
            &&& first_expected_lease_epoch == second_expected_lease_epoch
            &&& first_lease_id == second_lease_id
            &&& first_result == second_result
        },
{
}

/// Two commands of this kind are the same request exactly when everything that the client fixed is
/// the same.
pub proof fn law_same_prune_completed_tasks_requests(
    first_completed_before_ms: u64,
    second_completed_before_ms: u64,
    first_max_tasks: u64,
    second_max_tasks: u64,
)
    ensures
        client_request(
            WireCommand::PruneCompletedTasks {
                completed_before_ms: first_completed_before_ms,
                max_tasks: first_max_tasks,
            },
        ) == client_request(
            WireCommand::PruneCompletedTasks {
                completed_before_ms: second_completed_before_ms,
                max_tasks: second_max_tasks,
            },
        ) <==> {
            &&& first_completed_before_ms == second_completed_before_ms
            &&& first_max_tasks == second_max_tasks
        },
{
}

/// Two commands of this kind are the same request exactly when everything that the client fixed is
/// the same.
pub proof fn law_same_advance_term_requests(
    first_expected_term: u64,
    second_expected_term: u64,
    first_new_term: u64,
    second_new_term: u64,
)
    ensures
        client_request(
            WireCommand::AdvanceTerm {
                expected_term: first_expected_term,
                new_term: first_new_term,
            },
        ) == client_request(
            WireCommand::AdvanceTerm {
                expected_term: second_expected_term,
                new_term: second_new_term,
            },
        ) <==> {
            &&& first_expected_term == second_expected_term
            &&& first_new_term == second_new_term
        },
{
}

/// Two commands of this kind are the same request exactly when everything that the client fixed is
/// the same.
pub proof fn law_same_acquire_command_session_owner_requests(
    first_session_id: Seq<char>,
    second_session_id: Seq<char>,
    first_expected_owner_epoch: u64,
    second_expected_owner_epoch: u64,
    first_owner_instance_id: Seq<char>,
    second_owner_instance_id: Seq<char>,
)
    ensures
        client_request(
            WireCommand::AcquireCommandSessionOwner {
                session_id: first_session_id,
                expected_owner_epoch: first_expected_owner_epoch,
                owner_instance_id: first_owner_instance_id,
            },
        ) == client_request(
            WireCommand::AcquireCommandSessionOwner {
                session_id: second_session_id,
                expected_owner_epoch: second_expected_owner_epoch,
                owner_instance_id: second_owner_instance_id,
            },
        ) <==> {
            &&& first_session_id == second_session_id
            &&& first_expected_owner_epoch == second_expected_owner_epoch
            &&& first_owner_instance_id == second_owner_instance_id
        },
{
}

/// Commands of different kinds are never the same request.
pub proof fn law_kinds_make_other_requests(left: WireCommand, right: WireCommand)
    requires
        client_request(left) == client_request(right),
    ensures
        left is EnsureNamespace <==> right is EnsureNamespace,
        left is PublishTask <==> right is PublishTask,
        left is EnsureConsumerGroup <==> right is EnsureConsumerGroup,
        left is JoinConsumerGroup <==> right is JoinConsumerGroup,
        left is Heartbeat <==> right is Heartbeat,
        left is LeaveConsumerGroup <==> right is LeaveConsumerGroup,
        left is ReapStaleMembers <==> right is ReapStaleMembers,
        left is ClaimTask <==> right is ClaimTask,
        left is RenewTaskLease <==> right is RenewTaskLease,
        left is CompleteTask <==> right is CompleteTask,
        left is PruneCompletedTasks <==> right is PruneCompletedTasks,
        left is AdvanceTerm <==> right is AdvanceTerm,
        left is AcquireCommandSessionOwner <==> right is AcquireCommandSessionOwner,
{
}

/// A durable command can be applied exactly when every name in it is one, every text and capability
/// in it is proper, every term in it is positive and every limit in it can be held. An acquisition
/// of a session is none.
pub proof fn law_which_durable_commands_can_be_applied(wire: WireCommand)
    ensures
        decode_finding(wire) is None <==> match wire {
            WireCommand::EnsureNamespace {
                namespace_id,
                max_namespaces,
            } => NamespaceKind::flaw(namespace_id) is None
                && max_namespaces <= usize::MAX,
            WireCommand::PublishTask {
                namespace_id,
                task_id,
                objective,
                max_namespace_tasks,
                ..
            } => NamespaceKind::flaw(namespace_id) is None
                && TaskKind::flaw(task_id) is None
                && ObjectiveKind::flaw(objective) is None
                && max_namespace_tasks <= usize::MAX,
            WireCommand::EnsureConsumerGroup {
                namespace_id,
                group_id,
                max_namespace_groups,
            } => NamespaceKind::flaw(namespace_id) is None
                && ConsumerGroupKind::flaw(group_id) is None
                && max_namespace_groups <= usize::MAX,
            WireCommand::JoinConsumerGroup {
                group_id,
                member_id,
                capabilities,
                max_group_members,
                ..
            } => ConsumerGroupKind::flaw(group_id) is None
                && ConsumerKind::flaw(member_id) is None
                && capabilities_flaw(capabilities) is None
                && max_group_members <= usize::MAX,
            WireCommand::Heartbeat {
                group_id,
                member_id,
                ..
            } => ConsumerGroupKind::flaw(group_id) is None
                && ConsumerKind::flaw(member_id) is None,
            WireCommand::LeaveConsumerGroup {
                group_id,
                member_id,
                ..
            } => ConsumerGroupKind::flaw(group_id) is None
                && ConsumerKind::flaw(member_id) is None,
            WireCommand::ReapStaleMembers { max_members, .. } => max_members <= usize::MAX,
            WireCommand::ClaimTask {
                group_id,
                member_id,
                expected_term,
                lease_id,
                ..
            } => ConsumerGroupKind::flaw(group_id) is None
                && ConsumerKind::flaw(member_id) is None
                && expected_term > 0
                && LeaseKind::flaw(lease_id) is None,
            WireCommand::RenewTaskLease {
                task_id,
                group_id,
                member_id,
                expected_term,
                lease_id,
                ..
            } => TaskKind::flaw(task_id) is None
                && ConsumerGroupKind::flaw(group_id) is None
                && ConsumerKind::flaw(member_id) is None
                && expected_term > 0
                && LeaseKind::flaw(lease_id) is None,
            WireCommand::CompleteTask {
                task_id,
                group_id,
                member_id,
                expected_term,
                lease_id,
                result,
                ..
            } => TaskKind::flaw(task_id) is None
                && ConsumerGroupKind::flaw(group_id) is None
                && ConsumerKind::flaw(member_id) is None
                && expected_term > 0
                && LeaseKind::flaw(lease_id) is None
                && OutcomeKind::flaw(result) is None,
            WireCommand::PruneCompletedTasks { max_tasks, .. } => max_tasks <= usize::MAX,
            WireCommand::AdvanceTerm { expected_term, new_term } => expected_term > 0
                && new_term > 0,
            WireCommand::AcquireCommandSessionOwner { .. } => false,
        },
{
}

/// The durable form of a namespace result holds every value of it, and nothing else is its durable
/// form.
pub proof fn law_durable_namespace_result_keeps_every_value(
    result: NamespaceResult,
    wire: ReplicatedBrokerMutationResultV1,
)
    ensures
        encodes_result(BrokerMutationResult::Namespace(result), wire) <==> match wire {
            ReplicatedBrokerMutationResultV1::Namespace {
                metadata,
                namespace_id,
                namespace_revision,
            } => {
                &&& metadata.term == result.metadata.term@
                &&& metadata.revision == result.metadata.revision@
                &&& namespace_id@ == result.namespace_id@
                &&& namespace_revision == result.namespace_revision@
            },
            _ => false,
        },
{
}

/// The durable form of the result of a publication holds every value of it, and nothing else is its
/// durable form.
pub proof fn law_durable_task_published_result_keeps_every_value(
    result: TaskPublishedResult,
    wire: ReplicatedBrokerMutationResultV1,
)
    ensures
        encodes_result(BrokerMutationResult::TaskPublished(result), wire) <==> match wire {
            ReplicatedBrokerMutationResultV1::TaskPublished {
                metadata,
                task_id,
                task_revision,
                status,
            } => {
                &&& metadata.term == result.metadata.term@
                &&& metadata.revision == result.metadata.revision@
                &&& task_id@ == result.task_id@
                &&& task_revision == result.task_revision@
                &&& status == ReplicatedTaskStatusV1::Queued <==> result.status
                    == TaskStatus::Queued
                &&& status == ReplicatedTaskStatusV1::Leased <==> result.status
                    == TaskStatus::Leased
                &&& status == ReplicatedTaskStatusV1::Completed <==> result.status
                    == TaskStatus::Completed
            },
            _ => false,
        },
{
}

/// The durable form of a Consumer Group result holds every value of it, and nothing else is its
/// durable form.
pub proof fn law_durable_consumer_group_result_keeps_every_value(
    result: ConsumerGroupResult,
    wire: ReplicatedBrokerMutationResultV1,
)
    ensures
        encodes_result(BrokerMutationResult::ConsumerGroup(result), wire) <==> match wire {
            ReplicatedBrokerMutationResultV1::ConsumerGroup {
                metadata,
                group_id,
                generation,
                group_revision,
                member_count,
            } => {
                &&& metadata.term == result.metadata.term@
                &&& metadata.revision == result.metadata.revision@
                &&& group_id@ == result.group_id@
                &&& generation == result.generation@
                &&& group_revision == result.group_revision@
                &&& member_count == result.member_count
            },
            _ => false,
        },
{
}

/// The durable form of the result of a heartbeat holds every value of it, and nothing else is its
/// durable form.
pub proof fn law_durable_heartbeat_result_keeps_every_value(
    result: HeartbeatResult,
    wire: ReplicatedBrokerMutationResultV1,
)
    ensures
        encodes_result(BrokerMutationResult::Heartbeat(result), wire) <==> match wire {
            ReplicatedBrokerMutationResultV1::Heartbeat {
                metadata,
                group_id,
                member_id,
                generation,
                member_revision,
            } => {
                &&& metadata.term == result.metadata.term@
                &&& metadata.revision == result.metadata.revision@
                &&& group_id@ == result.group_id@
                &&& member_id@ == result.member_id@
                &&& generation == result.generation@
                &&& member_revision == result.member_revision@
            },
            _ => false,
        },
{
}

/// The durable form of the result of a reaping holds every value of it, and nothing else is its
/// durable form.
pub proof fn law_durable_stale_members_reaped_result_keeps_every_value(
    result: StaleMembersReapedResult,
    wire: ReplicatedBrokerMutationResultV1,
)
    ensures
        encodes_result(BrokerMutationResult::StaleMembersReaped(result), wire) <==> match wire {
            ReplicatedBrokerMutationResultV1::StaleMembersReaped {
                metadata,
                reaped_count,
                affected_group_count,
            } => {
                &&& metadata.term == result.metadata.term@
                &&& metadata.revision == result.metadata.revision@
                &&& reaped_count == result.reaped_count
                &&& affected_group_count == result.affected_group_count
            },
            _ => false,
        },
{
}

/// The durable form of the result of a claim holds every value of it, and nothing else is its
/// durable form.
pub proof fn law_durable_task_claim_result_keeps_every_value(
    result: TaskClaimResult,
    wire: ReplicatedBrokerMutationResultV1,
)
    ensures
        encodes_result(BrokerMutationResult::TaskClaim(result), wire) <==> match wire {
            ReplicatedBrokerMutationResultV1::TaskClaim {
                metadata,
                task_id,
                objective,
                task_revision,
                lease_id,
                lease_epoch,
                lease_expires_at_ms,
                generation,
            } => {
                &&& metadata.term == result.metadata.term@
                &&& metadata.revision == result.metadata.revision@
                &&& (task_id is Some) == (result.task_id is Some)
                &&& task_id is Some ==> task_id->0@ == result.task_id->0@
                &&& (objective is Some) == (result.objective is Some)
                &&& objective is Some ==> objective->0@ == result.objective->0@
                &&& (task_revision is Some) == (result.task_revision is Some)
                &&& task_revision is Some ==> task_revision->0 == result.task_revision->0@
                &&& (lease_id is Some) == (result.lease_id is Some)
                &&& lease_id is Some ==> lease_id->0@ == result.lease_id->0@
                &&& (lease_epoch is Some) == (result.lease_epoch is Some)
                &&& lease_epoch is Some ==> lease_epoch->0 == result.lease_epoch->0@
                &&& (lease_expires_at_ms is Some) == (result.lease_expires_at_ms is Some)
                &&& lease_expires_at_ms is Some ==> lease_expires_at_ms->0 == result.lease_expires_at_ms->0@
                &&& generation == result.generation@
            },
            _ => false,
        },
{
}

/// The durable form of the result of a renewal holds every value of it, and nothing else is its
/// durable form.
pub proof fn law_durable_task_lease_renewed_result_keeps_every_value(
    result: TaskLeaseRenewedResult,
    wire: ReplicatedBrokerMutationResultV1,
)
    ensures
        encodes_result(BrokerMutationResult::TaskLeaseRenewed(result), wire) <==> match wire {
            ReplicatedBrokerMutationResultV1::TaskLeaseRenewed {
                metadata,
                task_id,
                task_revision,
                lease_id,
                lease_epoch,
                lease_expires_at_ms,
                generation,
            } => {
                &&& metadata.term == result.metadata.term@
                &&& metadata.revision == result.metadata.revision@
                &&& task_id@ == result.task_id@
                &&& task_revision == result.task_revision@
                &&& lease_id@ == result.lease_id@
                &&& lease_epoch == result.lease_epoch@
                &&& lease_expires_at_ms == result.lease_expires_at_ms@
                &&& generation == result.generation@
            },
            _ => false,
        },
{
}

/// The durable form of the result of a completion holds every value of it, and nothing else is its
/// durable form.
pub proof fn law_durable_task_completed_result_keeps_every_value(
    result: TaskCompletedResult,
    wire: ReplicatedBrokerMutationResultV1,
)
    ensures
        encodes_result(BrokerMutationResult::TaskCompleted(result), wire) <==> match wire {
            ReplicatedBrokerMutationResultV1::TaskCompleted {
                metadata,
                task_id,
                task_revision,
                status,
            } => {
                &&& metadata.term == result.metadata.term@
                &&& metadata.revision == result.metadata.revision@
                &&& task_id@ == result.task_id@
                &&& task_revision == result.task_revision@
                &&& status == ReplicatedTaskStatusV1::Queued <==> result.status
                    == TaskStatus::Queued
                &&& status == ReplicatedTaskStatusV1::Leased <==> result.status
                    == TaskStatus::Leased
                &&& status == ReplicatedTaskStatusV1::Completed <==> result.status
                    == TaskStatus::Completed
            },
            _ => false,
        },
{
}

/// The durable form of the result of a pruning holds every value of it, and nothing else is its
/// durable form.
pub proof fn law_durable_completed_tasks_pruned_result_keeps_every_value(
    result: CompletedTasksPrunedResult,
    wire: ReplicatedBrokerMutationResultV1,
)
    ensures
        encodes_result(BrokerMutationResult::CompletedTasksPruned(result), wire) <==> match wire {
            ReplicatedBrokerMutationResultV1::CompletedTasksPruned { metadata, pruned_count } => {
                &&& metadata.term == result.metadata.term@
                &&& metadata.revision == result.metadata.revision@
                &&& pruned_count == result.pruned_count
            },
            _ => false,
        },
{
}

/// The durable form of the result of a term advance holds every value of it, and nothing else is
/// its durable form.
pub proof fn law_durable_term_advanced_result_keeps_every_value(
    result: TermAdvancedResult,
    wire: ReplicatedBrokerMutationResultV1,
)
    ensures
        encodes_result(BrokerMutationResult::TermAdvanced(result), wire) <==> match wire {
            ReplicatedBrokerMutationResultV1::TermAdvanced { metadata } => {
                &&& metadata.term == result.metadata.term@
                &&& metadata.revision == result.metadata.revision@
            },
            _ => false,
        },
{
}

/// A durable result can be told exactly when its term is positive, every name and text in it is
/// proper, every count in it can be held, and a claim is whole or empty.
pub proof fn law_which_durable_results_can_be_told(wire: ReplicatedBrokerMutationResultV1)
    ensures
        result_finding(wire) is None <==> match wire {
            ReplicatedBrokerMutationResultV1::Namespace {
                metadata,
                namespace_id,
                ..
            } => metadata.term > 0
                && NamespaceKind::flaw(namespace_id@) is None,
            ReplicatedBrokerMutationResultV1::TaskPublished {
                metadata,
                task_id,
                ..
            } => metadata.term > 0
                && TaskKind::flaw(task_id@) is None,
            ReplicatedBrokerMutationResultV1::ConsumerGroup {
                metadata,
                group_id,
                member_count,
                ..
            } => metadata.term > 0
                && ConsumerGroupKind::flaw(group_id@) is None
                && member_count <= usize::MAX,
            ReplicatedBrokerMutationResultV1::Heartbeat {
                metadata,
                group_id,
                member_id,
                ..
            } => metadata.term > 0
                && ConsumerGroupKind::flaw(group_id@) is None
                && ConsumerKind::flaw(member_id@) is None,
            ReplicatedBrokerMutationResultV1::StaleMembersReaped {
                metadata,
                reaped_count,
                affected_group_count,
            } => metadata.term > 0
                && reaped_count <= usize::MAX
                && affected_group_count <= usize::MAX,
            ReplicatedBrokerMutationResultV1::TaskClaim {
                metadata,
                task_id,
                objective,
                task_revision,
                lease_id,
                lease_epoch,
                lease_expires_at_ms,
                ..
            } => metadata.term > 0
                && {
                let held = task_id is Some;
                &&& objective is Some == held
                &&& task_revision is Some == held
                &&& lease_id is Some == held
                &&& lease_epoch is Some == held
                &&& lease_expires_at_ms is Some == held
                &&& held ==> TaskKind::flaw(task_id->0@) is None && ObjectiveKind::flaw(
                    objective->0@,
                ) is None && LeaseKind::flaw(lease_id->0@) is None
            },
            ReplicatedBrokerMutationResultV1::TaskLeaseRenewed {
                metadata,
                task_id,
                lease_id,
                ..
            } => metadata.term > 0
                && TaskKind::flaw(task_id@) is None
                && LeaseKind::flaw(lease_id@) is None,
            ReplicatedBrokerMutationResultV1::TaskCompleted {
                metadata,
                task_id,
                ..
            } => metadata.term > 0
                && TaskKind::flaw(task_id@) is None,
            ReplicatedBrokerMutationResultV1::CompletedTasksPruned {
                metadata,
                pruned_count,
            } => metadata.term > 0
                && pruned_count <= usize::MAX,
            ReplicatedBrokerMutationResultV1::TermAdvanced { metadata } => metadata.term > 0,
        },
{
}

/// Every code is stored as itself, and only an unknown commit outcome cannot be stored.
pub proof fn law_codes_are_stored_as_themselves(code: BrokerErrorCode)
    ensures
        durable_code(code) is None <==> code == BrokerErrorCode::CommitOutcomeUnknown,
        durable_code(code) matches Some(stored) ==> application_code(stored) == code,
        code == BrokerErrorCode::InvalidRequest <==> durable_code(code) == Some(
            ReplicatedBrokerErrorCodeV1::InvalidRequest,
        ),
        code == BrokerErrorCode::NotFound <==> durable_code(code) == Some(
            ReplicatedBrokerErrorCodeV1::NotFound,
        ),
        code == BrokerErrorCode::Conflict <==> durable_code(code) == Some(
            ReplicatedBrokerErrorCodeV1::Conflict,
        ),
        code == BrokerErrorCode::CapacityExceeded <==> durable_code(code) == Some(
            ReplicatedBrokerErrorCodeV1::CapacityExceeded,
        ),
        code == BrokerErrorCode::StaleFence <==> durable_code(code) == Some(
            ReplicatedBrokerErrorCodeV1::StaleFence,
        ),
        code == BrokerErrorCode::PersistenceError <==> durable_code(code) == Some(
            ReplicatedBrokerErrorCodeV1::PersistenceError,
        ),
        code == BrokerErrorCode::TransportError <==> durable_code(code) == Some(
            ReplicatedBrokerErrorCodeV1::TransportError,
        ),
        code == BrokerErrorCode::InternalError <==> durable_code(code) == Some(
            ReplicatedBrokerErrorCodeV1::InternalError,
        ),
{
}

/// What is stored of a code is told as that code.
pub proof fn law_stored_codes_are_told_as_they_were(stored: ReplicatedBrokerErrorCodeV1)
    ensures
        durable_code(application_code(stored)) == Some(stored),
{
}

/// A stored refusal is told with its code, its text and its disposition.
pub proof fn law_stored_refusals_are_told_as_they_are(stored: ReplicatedBrokerErrorV1)
    ensures
        durable_code(application_error(stored).code) == Some(stored.code),
        application_error(stored).message == stored.message@,
        application_error(stored).disposition == stored.disposition,
{
}

/// A status is stored as itself.
pub proof fn law_statuses_are_stored_as_themselves(status: TaskStatus)
    ensures
        durable_status(status) == ReplicatedTaskStatusV1::Queued <==> status == TaskStatus::Queued,
        durable_status(status) == ReplicatedTaskStatusV1::Leased <==> status == TaskStatus::Leased,
        durable_status(status) == ReplicatedTaskStatusV1::Completed <==> status
            == TaskStatus::Completed,
{
}

/// A restored outcome is the stored one, except that a refusal counts as committed.
pub proof fn law_restored_outcomes_are_committed(response: ReplicatedBrokerResponseV1)
    ensures
        match (response, normalized_outcome(response)) {
            (
                ReplicatedBrokerResponseV1::ApplicationError(stored),
                ReplicatedBrokerResponseV1::ApplicationError(restored),
            ) => {
                &&& restored.code == stored.code
                &&& restored.message == stored.message
                &&& restored.disposition == BrokerErrorDisposition::Committed
            },
            (ReplicatedBrokerResponseV1::ApplicationError(_), _) => false,
            (_, restored) => restored == response,
        },
        normalized_outcome(normalized_outcome(response)) == normalized_outcome(response),
{
}

/// What the Broker answered is committed as it is: a result in its durable form, a refusal with its
/// code and its text, as committed.
pub proof fn law_answers_are_committed_as_they_are(
    answer: Result<BrokerMutationResult, BrokerError>,
    response: ReplicatedBrokerResponseV1,
)
    requires
        is_committed_response(answer, response),
    ensures
        match (answer, response) {
            (Ok(result), ReplicatedBrokerResponseV1::Success(wire)) => encodes_result(result, wire),
            (Err(error), ReplicatedBrokerResponseV1::ApplicationError(stored)) => {
                &&& application_code(stored.code) == error@.code
                &&& stored.message@ == error@.message
                &&& stored.disposition == BrokerErrorDisposition::Committed
            },
            _ => false,
        },
{
}

/// What was committed is told as it is: a result from its durable form, a refusal with its code,
/// its text and its disposition.
pub proof fn law_committed_answers_are_told_as_they_are(
    response: ReplicatedBrokerResponseV1,
    answer: Result<BrokerMutationResult, BrokerError>,
)
    requires
        is_application_result(response, answer),
    ensures
        match (answer, response) {
            (Ok(result), ReplicatedBrokerResponseV1::Success(wire)) => encodes_result(result, wire),
            (Err(error), ReplicatedBrokerResponseV1::ApplicationError(stored)) => {
                &&& error@.code == application_code(stored.code)
                &&& error@.message == stored.message@
                &&& error@.disposition == stored.disposition
            },
            _ => false,
        },
{
}

/// A response can be told to the one who asked exactly when it holds a refusal or a proper result.
pub proof fn law_which_responses_can_be_told(response: ReplicatedBrokerResponseV1)
    ensures
        response_finding(response) is None <==> match response {
            ReplicatedBrokerResponseV1::ApplicationError(_) => true,
            ReplicatedBrokerResponseV1::Success(wire) => result_finding(wire) is None,
            ReplicatedBrokerResponseV1::RaftControl => false,
            ReplicatedBrokerResponseV1::SessionOwnerAcquired { .. } => false,
        },
{
}

/// A stored identity is one exactly when its session is named properly, its epoch and its sequence
/// are positive, and its instance is named properly where there is one.
pub proof fn law_which_stored_identities_are_ones(identity: IdentityView)
    ensures
        identity_finding(identity) is None <==> {
            &&& CommandSessionId::flaw(identity.session_id) is None
            &&& identity.owner_epoch > 0
            &&& identity.owner_instance_id matches Some(text) ==> SessionOwnerInstanceId::flaw(text)
                is None
            &&& identity.sequence > 0
        },
{
}

/// A stored identity holds every value of the identity.
pub proof fn law_stored_identities_keep_every_value(identity: ReplicatedCommandIdentityV1)
    ensures
        durable_identity(identity).session_id == identity.session_id@,
        durable_identity(identity).owner_epoch == identity.owner_epoch,
        durable_identity(identity).sequence == identity.sequence,
        (durable_identity(identity).owner_instance_id is Some) == (identity.owner_instance_id
            is Some),
        identity.owner_instance_id matches Some(text) ==> durable_identity(
            identity,
        ).owner_instance_id == Some(text@),
{
}

/// A claim is whole when it holds all parts of a lease or none; every other result is whole.
pub proof fn law_which_claims_are_whole(result: BrokerMutationResult)
    ensures
        has_whole_claim(result) <==> match result {
            BrokerMutationResult::TaskClaim(claim) => {
                ||| {
                    &&& claim.task_id is Some
                    &&& claim.objective is Some
                    &&& claim.task_revision is Some
                    &&& claim.lease_id is Some
                    &&& claim.lease_epoch is Some
                    &&& claim.lease_expires_at_ms is Some
                }
                ||| {
                    &&& claim.task_id is None
                    &&& claim.objective is None
                    &&& claim.task_revision is None
                    &&& claim.lease_id is None
                    &&& claim.lease_epoch is None
                    &&& claim.lease_expires_at_ms is None
                }
            },
            _ => true,
        },
{
}

} // verus!
