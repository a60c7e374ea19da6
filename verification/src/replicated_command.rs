//! Versioned, consensus-owned durable form of the Broker commands.
use crate::commands::{
    AdvanceTermCommand, BrokerCommand, ClaimTaskCommand, CompleteTaskCommand,
    EnsureConsumerGroupCommand, EnsureNamespaceCommand, HeartbeatCommand, JoinConsumerGroupCommand,
    LeaveConsumerGroupCommand, PruneCompletedTasksCommand, PublishTaskCommand,
    ReapStaleMembersCommand, RenewTaskLeaseCommand,
};
use crate::domain::{
    capabilities_flaw, string_list, text_error, zero_error, Capabilities, ConsumerGroupKind,
    ConsumerKind, DomainText, Generation, LeaseEpoch, LeaseKind, NamespaceKind, ObjectiveKind,
    OutcomeKind, TaskKind, Term, TextKind, TimestampMs,
};
use vstd::prelude::*;

verus! {

/// Versioned, consensus-owned durable form of one Broker command.
///
/// It holds primitive values only. Turning it back into a domain command runs every validated
/// constructor again, so persisted data cannot bypass the domain rules.
#[derive(Debug, PartialEq, Eq)]
pub enum ReplicatedBrokerCommandV1 {
    EnsureNamespace { namespace_id: String, max_namespaces: u64 },
    PublishTask {
        namespace_id: String,
        task_id: String,
        objective: String,
        created_at_ms: u64,
        max_namespace_tasks: u64,
    },
    EnsureConsumerGroup { namespace_id: String, group_id: String, max_namespace_groups: u64 },
    JoinConsumerGroup {
        group_id: String,
        member_id: String,
        capabilities: Vec<String>,
        now_ms: u64,
        max_group_members: u64,
    },
    Heartbeat { group_id: String, member_id: String, expected_generation: u64, now_ms: u64 },
    LeaveConsumerGroup { group_id: String, member_id: String, expected_generation: u64 },
    ReapStaleMembers { stale_before_ms: u64, max_members: u64 },
    ClaimTask {
        group_id: String,
        member_id: String,
        expected_term: u64,
        expected_generation: u64,
        lease_id: String,
        now_ms: u64,
        lease_duration_ms: u64,
    },
    RenewTaskLease {
        task_id: String,
        group_id: String,
        member_id: String,
        expected_term: u64,
        expected_generation: u64,
        expected_lease_epoch: u64,
        lease_id: String,
        now_ms: u64,
        lease_duration_ms: u64,
    },
    CompleteTask {
        task_id: String,
        group_id: String,
        member_id: String,
        expected_term: u64,
        expected_generation: u64,
        expected_lease_epoch: u64,
        lease_id: String,
        result: String,
        completed_at_ms: u64,
    },
    PruneCompletedTasks { completed_before_ms: u64, max_tasks: u64 },
    AdvanceTerm { expected_term: u64, new_term: u64 },
    AcquireCommandSessionOwner {
        session_id: String,
        expected_owner_epoch: u64,
        owner_instance_id: String,
    },
}

/// The plain values of a durable command.
pub enum WireCommand {
    EnsureNamespace { namespace_id: Seq<char>, max_namespaces: u64 },
    PublishTask {
        namespace_id: Seq<char>,
        task_id: Seq<char>,
        objective: Seq<char>,
        created_at_ms: u64,
        max_namespace_tasks: u64,
    },
    EnsureConsumerGroup { namespace_id: Seq<char>, group_id: Seq<char>, max_namespace_groups: u64 },
    JoinConsumerGroup {
        group_id: Seq<char>,
        member_id: Seq<char>,
        capabilities: Seq<Seq<char>>,
        now_ms: u64,
        max_group_members: u64,
    },
    Heartbeat { group_id: Seq<char>, member_id: Seq<char>, expected_generation: u64, now_ms: u64 },
    LeaveConsumerGroup { group_id: Seq<char>, member_id: Seq<char>, expected_generation: u64 },
    ReapStaleMembers { stale_before_ms: u64, max_members: u64 },
    ClaimTask {
        group_id: Seq<char>,
        member_id: Seq<char>,
        expected_term: u64,
        expected_generation: u64,
        lease_id: Seq<char>,
        now_ms: u64,
        lease_duration_ms: u64,
    },
    RenewTaskLease {
        task_id: Seq<char>,
        group_id: Seq<char>,
        member_id: Seq<char>,
        expected_term: u64,
        expected_generation: u64,
        expected_lease_epoch: u64,
        lease_id: Seq<char>,
        now_ms: u64,
        lease_duration_ms: u64,
    },
    CompleteTask {
        task_id: Seq<char>,
        group_id: Seq<char>,
        member_id: Seq<char>,
        expected_term: u64,
        expected_generation: u64,
        expected_lease_epoch: u64,
        lease_id: Seq<char>,
        result: Seq<char>,
        completed_at_ms: u64,
    },
    PruneCompletedTasks { completed_before_ms: u64, max_tasks: u64 },
    AdvanceTerm { expected_term: u64, new_term: u64 },
    AcquireCommandSessionOwner {
        session_id: Seq<char>,
        expected_owner_epoch: u64,
        owner_instance_id: Seq<char>,
    },
}

impl View for ReplicatedBrokerCommandV1 {
    type V = WireCommand;

    open spec fn view(&self) -> WireCommand {
        match *self {
            ReplicatedBrokerCommandV1::EnsureNamespace {
                namespace_id,
                max_namespaces,
            } => WireCommand::EnsureNamespace {
                namespace_id: namespace_id@,
                max_namespaces,
            },
            ReplicatedBrokerCommandV1::PublishTask {
                namespace_id,
                task_id,
                objective,
                created_at_ms,
                max_namespace_tasks,
            } => WireCommand::PublishTask {
                namespace_id: namespace_id@,
                task_id: task_id@,
                objective: objective@,
                created_at_ms,
                max_namespace_tasks,
            },
            ReplicatedBrokerCommandV1::EnsureConsumerGroup {
                namespace_id,
                group_id,
                max_namespace_groups,
            } => WireCommand::EnsureConsumerGroup {
                namespace_id: namespace_id@,
                group_id: group_id@,
                max_namespace_groups,
            },
            ReplicatedBrokerCommandV1::JoinConsumerGroup {
                group_id,
                member_id,
                capabilities,
                now_ms,
                max_group_members,
            } => WireCommand::JoinConsumerGroup {
                group_id: group_id@,
                member_id: member_id@,
                capabilities: string_list(capabilities@),
                now_ms,
                max_group_members,
            },
            ReplicatedBrokerCommandV1::Heartbeat {
                group_id,
                member_id,
                expected_generation,
                now_ms,
            } => WireCommand::Heartbeat {
                group_id: group_id@,
                member_id: member_id@,
                expected_generation,
                now_ms,
            },
            ReplicatedBrokerCommandV1::LeaveConsumerGroup {
                group_id,
                member_id,
                expected_generation,
            } => WireCommand::LeaveConsumerGroup {
                group_id: group_id@,
                member_id: member_id@,
                expected_generation,
            },
            ReplicatedBrokerCommandV1::ReapStaleMembers {
                stale_before_ms,
                max_members,
            } => WireCommand::ReapStaleMembers { stale_before_ms, max_members },
            ReplicatedBrokerCommandV1::ClaimTask {
                group_id,
                member_id,
                expected_term,
                expected_generation,
                lease_id,
                now_ms,
                lease_duration_ms,
            } => WireCommand::ClaimTask {
                group_id: group_id@,
                member_id: member_id@,
                expected_term,
                expected_generation,
                lease_id: lease_id@,
                now_ms,
                lease_duration_ms,
            },
            ReplicatedBrokerCommandV1::RenewTaskLease {
                task_id,
                group_id,
                member_id,
                expected_term,
                expected_generation,
                expected_lease_epoch,
                lease_id,
                now_ms,
                lease_duration_ms,
            } => WireCommand::RenewTaskLease {
                task_id: task_id@,
                group_id: group_id@,
                member_id: member_id@,
                expected_term,
                expected_generation,
                expected_lease_epoch,
                lease_id: lease_id@,
                now_ms,
                lease_duration_ms,
            },
            ReplicatedBrokerCommandV1::CompleteTask {
                task_id,
                group_id,
                member_id,
                expected_term,
                expected_generation,
                expected_lease_epoch,
                lease_id,
                result,
                completed_at_ms,
            } => WireCommand::CompleteTask {
                task_id: task_id@,
                group_id: group_id@,
                member_id: member_id@,
                expected_term,
                expected_generation,
                expected_lease_epoch,
                lease_id: lease_id@,
                result: result@,
                completed_at_ms,
            },
            ReplicatedBrokerCommandV1::PruneCompletedTasks {
                completed_before_ms,
                max_tasks,
            } => WireCommand::PruneCompletedTasks { completed_before_ms, max_tasks },
            ReplicatedBrokerCommandV1::AdvanceTerm {
                expected_term,
                new_term,
            } => WireCommand::AdvanceTerm { expected_term, new_term },
            ReplicatedBrokerCommandV1::AcquireCommandSessionOwner {
                session_id,
                expected_owner_epoch,
                owner_instance_id,
            } => WireCommand::AcquireCommandSessionOwner {
                session_id: session_id@,
                expected_owner_epoch,
                owner_instance_id: owner_instance_id@,
            },
        }
    }
}

fn clone_texts(texts: &Vec<String>) -> (r: Vec<String>)
    ensures
        r@ == texts@,
{
    let mut copy: Vec<String> = Vec::new();
    let mut index: usize = 0;
    while index < texts.len()
        invariant
            index <= texts@.len(),
            copy@ == texts@.take(index as int),
        decreases texts.len() - index,
    {
        copy.push(texts[index].clone());
        assert(copy@ =~= texts@.take(index + 1));
        index = index + 1;
    }
    assert(copy@ =~= texts@);
    copy
}

impl Clone for ReplicatedBrokerCommandV1 {
    fn clone(&self) -> (r: Self)
        ensures
            r@ == self@,
    {
        match self {
            ReplicatedBrokerCommandV1::EnsureNamespace {
                namespace_id,
                max_namespaces,
            } => ReplicatedBrokerCommandV1::EnsureNamespace {
                namespace_id: namespace_id.clone(),
                max_namespaces: *max_namespaces,
            },
            ReplicatedBrokerCommandV1::PublishTask {
                namespace_id,
                task_id,
                objective,
                created_at_ms,
                max_namespace_tasks,
            } => ReplicatedBrokerCommandV1::PublishTask {
                namespace_id: namespace_id.clone(),
                task_id: task_id.clone(),
                objective: objective.clone(),
                created_at_ms: *created_at_ms,
                max_namespace_tasks: *max_namespace_tasks,
            },
            ReplicatedBrokerCommandV1::EnsureConsumerGroup {
                namespace_id,
                group_id,
                max_namespace_groups,
            } => ReplicatedBrokerCommandV1::EnsureConsumerGroup {
                namespace_id: namespace_id.clone(),
                group_id: group_id.clone(),
                max_namespace_groups: *max_namespace_groups,
            },
            ReplicatedBrokerCommandV1::JoinConsumerGroup {
                group_id,
                member_id,
                capabilities,
                now_ms,
                max_group_members,
            } => ReplicatedBrokerCommandV1::JoinConsumerGroup {
                group_id: group_id.clone(),
                member_id: member_id.clone(),
                capabilities: clone_texts(capabilities),
                now_ms: *now_ms,
                max_group_members: *max_group_members,
            },
            ReplicatedBrokerCommandV1::Heartbeat {
                group_id,
                member_id,
                expected_generation,
                now_ms,
            } => ReplicatedBrokerCommandV1::Heartbeat {
                group_id: group_id.clone(),
                member_id: member_id.clone(),
                expected_generation: *expected_generation,
                now_ms: *now_ms,
            },
            ReplicatedBrokerCommandV1::LeaveConsumerGroup {
                group_id,
                member_id,
                expected_generation,
            } => ReplicatedBrokerCommandV1::LeaveConsumerGroup {
                group_id: group_id.clone(),
                member_id: member_id.clone(),
                expected_generation: *expected_generation,
            },
            ReplicatedBrokerCommandV1::ReapStaleMembers {
                stale_before_ms,
                max_members,
            } => ReplicatedBrokerCommandV1::ReapStaleMembers {
                stale_before_ms: *stale_before_ms,
                max_members: *max_members,
            },
            ReplicatedBrokerCommandV1::ClaimTask {
                group_id,
                member_id,
                expected_term,
                expected_generation,
                lease_id,
                now_ms,
                lease_duration_ms,
            } => ReplicatedBrokerCommandV1::ClaimTask {
                group_id: group_id.clone(),
                member_id: member_id.clone(),
                expected_term: *expected_term,
                expected_generation: *expected_generation,
                lease_id: lease_id.clone(),
                now_ms: *now_ms,
                lease_duration_ms: *lease_duration_ms,
            },
            ReplicatedBrokerCommandV1::RenewTaskLease {
                task_id,
                group_id,
                member_id,
                expected_term,
                expected_generation,
                expected_lease_epoch,
                lease_id,
                now_ms,
                lease_duration_ms,
            } => ReplicatedBrokerCommandV1::RenewTaskLease {
                task_id: task_id.clone(),
                group_id: group_id.clone(),
                member_id: member_id.clone(),
                expected_term: *expected_term,
                expected_generation: *expected_generation,
                expected_lease_epoch: *expected_lease_epoch,
                lease_id: lease_id.clone(),
                now_ms: *now_ms,
                lease_duration_ms: *lease_duration_ms,
            },
            ReplicatedBrokerCommandV1::CompleteTask {
                task_id,
                group_id,
                member_id,
                expected_term,
                expected_generation,
                expected_lease_epoch,
                lease_id,
                result,
                completed_at_ms,
            } => ReplicatedBrokerCommandV1::CompleteTask {
                task_id: task_id.clone(),
                group_id: group_id.clone(),
                member_id: member_id.clone(),
                expected_term: *expected_term,
                expected_generation: *expected_generation,
                expected_lease_epoch: *expected_lease_epoch,
                lease_id: lease_id.clone(),
                result: result.clone(),
                completed_at_ms: *completed_at_ms,
            },
            ReplicatedBrokerCommandV1::PruneCompletedTasks {
                completed_before_ms,
                max_tasks,
            } => ReplicatedBrokerCommandV1::PruneCompletedTasks {
                completed_before_ms: *completed_before_ms,
                max_tasks: *max_tasks,
            },
            ReplicatedBrokerCommandV1::AdvanceTerm {
                expected_term,
                new_term,
            } => ReplicatedBrokerCommandV1::AdvanceTerm {
                expected_term: *expected_term,
                new_term: *new_term,
            },
            ReplicatedBrokerCommandV1::AcquireCommandSessionOwner {
                session_id,
                expected_owner_epoch,
                owner_instance_id,
            } => ReplicatedBrokerCommandV1::AcquireCommandSessionOwner {
                session_id: session_id.clone(),
                expected_owner_epoch: *expected_owner_epoch,
                owner_instance_id: owner_instance_id.clone(),
            },
        }
    }
}

/// Why a durable command is no domain command.
#[derive(Debug, Clone, PartialEq, Eq)]
pub struct ReplicatedCommandError {
    message: String,
}

impl View for ReplicatedCommandError {
    type V = Seq<char>;

    closed spec fn view(&self) -> Seq<char> {
        self.message@
    }
}

impl ReplicatedCommandError {
    pub fn new(message: &str) -> (r: Self)
        ensures
            r@ == message@,
    {
        ReplicatedCommandError { message: message.to_owned() }
    }

    pub fn message(&self) -> (r: &str)
        ensures
            r@ == self@,
    {
        self.message.as_str()
    }
}

/// The request content that a client fixes, without what the server observed or configured.
pub enum ClientRequest {
    EnsureNamespace { namespace_id: Seq<char> },
    PublishTask { namespace_id: Seq<char>, task_id: Seq<char>, objective: Seq<char> },
    EnsureConsumerGroup { namespace_id: Seq<char>, group_id: Seq<char> },
    JoinConsumerGroup { group_id: Seq<char>, member_id: Seq<char>, capabilities: Seq<Seq<char>> },
    Heartbeat { group_id: Seq<char>, member_id: Seq<char>, expected_generation: u64 },
    LeaveConsumerGroup { group_id: Seq<char>, member_id: Seq<char>, expected_generation: u64 },
    ReapStaleMembers { stale_before_ms: u64, max_members: u64 },
    ClaimTask {
        group_id: Seq<char>,
        member_id: Seq<char>,
        expected_term: u64,
        expected_generation: u64,
        lease_id: Seq<char>,
        lease_duration_ms: u64,
    },
    RenewTaskLease {
        task_id: Seq<char>,
        group_id: Seq<char>,
        member_id: Seq<char>,
        expected_term: u64,
        expected_generation: u64,
        expected_lease_epoch: u64,
        lease_id: Seq<char>,
        lease_duration_ms: u64,
    },
    CompleteTask {
        task_id: Seq<char>,
        group_id: Seq<char>,
        member_id: Seq<char>,
        expected_term: u64,
        expected_generation: u64,
        expected_lease_epoch: u64,
        lease_id: Seq<char>,
        result: Seq<char>,
    },
    PruneCompletedTasks { completed_before_ms: u64, max_tasks: u64 },
    AdvanceTerm { expected_term: u64, new_term: u64 },
    AcquireCommandSessionOwner {
        session_id: Seq<char>,
        expected_owner_epoch: u64,
        owner_instance_id: Seq<char>,
    },
}

/// The client-fixed content of a durable command.
pub open spec fn client_request(command: WireCommand) -> ClientRequest {
    match command {
        WireCommand::EnsureNamespace {
            namespace_id,
            ..
        } => ClientRequest::EnsureNamespace { namespace_id },
        WireCommand::PublishTask {
            namespace_id,
            task_id,
            objective,
            ..
        } => ClientRequest::PublishTask { namespace_id, task_id, objective },
        WireCommand::EnsureConsumerGroup {
            namespace_id,
            group_id,
            ..
        } => ClientRequest::EnsureConsumerGroup { namespace_id, group_id },
        WireCommand::JoinConsumerGroup {
            group_id,
            member_id,
            capabilities,
            ..
        } => ClientRequest::JoinConsumerGroup { group_id, member_id, capabilities },
        WireCommand::Heartbeat {
            group_id,
            member_id,
            expected_generation,
            ..
        } => ClientRequest::Heartbeat { group_id, member_id, expected_generation },
        WireCommand::LeaveConsumerGroup {
            group_id,
            member_id,
            expected_generation,
        } => ClientRequest::LeaveConsumerGroup { group_id, member_id, expected_generation },
        WireCommand::ReapStaleMembers {
            stale_before_ms,
            max_members,
        } => ClientRequest::ReapStaleMembers { stale_before_ms, max_members },
        WireCommand::ClaimTask {
            group_id,
            member_id,
            expected_term,
            expected_generation,
            lease_id,
            lease_duration_ms,
            ..
        } => ClientRequest::ClaimTask {
            group_id,
            member_id,
            expected_term,
            expected_generation,
            lease_id,
            lease_duration_ms,
        },
        WireCommand::RenewTaskLease {
            task_id,
            group_id,
            member_id,
            expected_term,
            expected_generation,
            expected_lease_epoch,
            lease_id,
            lease_duration_ms,
            ..
        } => ClientRequest::RenewTaskLease {
            task_id,
            group_id,
            member_id,
            expected_term,
            expected_generation,
            expected_lease_epoch,
            lease_id,
            lease_duration_ms,
        },
        WireCommand::CompleteTask {
            task_id,
            group_id,
            member_id,
            expected_term,
            expected_generation,
            expected_lease_epoch,
            lease_id,
            result,
            ..
        } => ClientRequest::CompleteTask {
            task_id,
            group_id,
            member_id,
            expected_term,
            expected_generation,
            expected_lease_epoch,
            lease_id,
            result,
        },
        WireCommand::PruneCompletedTasks {
            completed_before_ms,
            max_tasks,
        } => ClientRequest::PruneCompletedTasks { completed_before_ms, max_tasks },
        WireCommand::AdvanceTerm {
            expected_term,
            new_term,
        } => ClientRequest::AdvanceTerm { expected_term, new_term },
        WireCommand::AcquireCommandSessionOwner {
            session_id,
            expected_owner_epoch,
            owner_instance_id,
        } => ClientRequest::AcquireCommandSessionOwner {
            session_id,
            expected_owner_epoch,
            owner_instance_id,
        },
    }
}

/// Whether two lists of strings hold the same texts.
fn same_texts(left: &Vec<String>, right: &Vec<String>) -> (r: bool)
    ensures
        r == (string_list(left@) == string_list(right@)),
{
    if left.len() != right.len() {
        assert(string_list(left@).len() != string_list(right@).len());
        return false;
    }
    let mut index: usize = 0;
    while index < left.len()
        invariant
            index <= left@.len() == right@.len(),
            forall|i: int| 0 <= i < index ==> #[trigger] left@[i]@ == right@[i]@,
        decreases left.len() - index,
    {
        if left[index] != right[index] {
            assert(string_list(left@)[index as int] != string_list(right@)[index as int]);
            return false;
        }
        index = index + 1;
    }
    assert(string_list(left@) =~= string_list(right@));
    true
}

impl ReplicatedBrokerCommandV1 {
    /// Compare only what the client fixes, to match the retry of an identified command.
    ///
    /// Server-observed timestamps and server-local capacity limits are left out: the first
    /// committed command keeps those authoritative values, and a later exact retry may be seen at
    /// another time or after a policy reload without becoming a different client command.
    pub fn same_identified_request(&self, other: &Self) -> (r: bool)
        ensures
            r == (client_request(self@) == client_request(other@)),
    {
        match (self, other) {
            (
                ReplicatedBrokerCommandV1::EnsureNamespace { namespace_id, .. },
                ReplicatedBrokerCommandV1::EnsureNamespace { namespace_id: other_namespace_id, .. },
            ) => *namespace_id == *other_namespace_id,
            (
                ReplicatedBrokerCommandV1::PublishTask { namespace_id, task_id, objective, .. },
                ReplicatedBrokerCommandV1::PublishTask {
                    namespace_id: other_namespace_id,
                    task_id: other_task_id,
                    objective: other_objective,
                    ..
                },
            ) => *namespace_id == *other_namespace_id
                && *task_id == *other_task_id
                && *objective == *other_objective,
            (
                ReplicatedBrokerCommandV1::EnsureConsumerGroup { namespace_id, group_id, .. },
                ReplicatedBrokerCommandV1::EnsureConsumerGroup {
                    namespace_id: other_namespace_id,
                    group_id: other_group_id,
                    ..
                },
            ) => *namespace_id == *other_namespace_id && *group_id == *other_group_id,
            (
                ReplicatedBrokerCommandV1::JoinConsumerGroup {
                    group_id,
                    member_id,
                    capabilities,
                    ..
                },
                ReplicatedBrokerCommandV1::JoinConsumerGroup {
                    group_id: other_group_id,
                    member_id: other_member_id,
                    capabilities: other_capabilities,
                    ..
                },
            ) => *group_id == *other_group_id
                && *member_id == *other_member_id
                && same_texts(capabilities, other_capabilities),
            (
                ReplicatedBrokerCommandV1::Heartbeat {
                    group_id,
                    member_id,
                    expected_generation,
                    ..
                },
                ReplicatedBrokerCommandV1::Heartbeat {
                    group_id: other_group_id,
                    member_id: other_member_id,
                    expected_generation: other_expected_generation,
                    ..
                },
            ) => *group_id == *other_group_id
                && *member_id == *other_member_id
                && *expected_generation == *other_expected_generation,
            (
                ReplicatedBrokerCommandV1::LeaveConsumerGroup {
                    group_id,
                    member_id,
                    expected_generation,
                },
                ReplicatedBrokerCommandV1::LeaveConsumerGroup {
                    group_id: other_group_id,
                    member_id: other_member_id,
                    expected_generation: other_expected_generation,
                },
            ) => *group_id == *other_group_id
                && *member_id == *other_member_id
                && *expected_generation == *other_expected_generation,
            (
                ReplicatedBrokerCommandV1::ReapStaleMembers { stale_before_ms, max_members },
                ReplicatedBrokerCommandV1::ReapStaleMembers {
                    stale_before_ms: other_stale_before_ms,
                    max_members: other_max_members,
                },
            ) => *stale_before_ms == *other_stale_before_ms && *max_members == *other_max_members,
            (
                ReplicatedBrokerCommandV1::ClaimTask {
                    group_id,
                    member_id,
                    expected_term,
                    expected_generation,
                    lease_id,
                    lease_duration_ms,
                    ..
                },
                ReplicatedBrokerCommandV1::ClaimTask {
                    group_id: other_group_id,
                    member_id: other_member_id,
                    expected_term: other_expected_term,
                    expected_generation: other_expected_generation,
                    lease_id: other_lease_id,
                    lease_duration_ms: other_lease_duration_ms,
                    ..
                },
            ) => *group_id == *other_group_id
                && *member_id == *other_member_id
                && *expected_term == *other_expected_term
                && *expected_generation == *other_expected_generation
                && *lease_id == *other_lease_id
                && *lease_duration_ms == *other_lease_duration_ms,
            (
                ReplicatedBrokerCommandV1::RenewTaskLease {
                    task_id,
                    group_id,
                    member_id,
                    expected_term,
                    expected_generation,
                    expected_lease_epoch,
                    lease_id,
                    lease_duration_ms,
                    ..
                },
                ReplicatedBrokerCommandV1::RenewTaskLease {
                    task_id: other_task_id,
                    group_id: other_group_id,
                    member_id: other_member_id,
                    expected_term: other_expected_term,
                    expected_generation: other_expected_generation,
                    expected_lease_epoch: other_expected_lease_epoch,
                    lease_id: other_lease_id,
                    lease_duration_ms: other_lease_duration_ms,
                    ..
                },
            ) => *task_id == *other_task_id
                && *group_id == *other_group_id
                && *member_id == *other_member_id
                && *expected_term == *other_expected_term
                && *expected_generation == *other_expected_generation
                && *expected_lease_epoch == *other_expected_lease_epoch
                && *lease_id == *other_lease_id
                && *lease_duration_ms == *other_lease_duration_ms,
            (
                ReplicatedBrokerCommandV1::CompleteTask {
                    task_id,
                    group_id,
                    member_id,
                    expected_term,
                    expected_generation,
                    expected_lease_epoch,
                    lease_id,
                    result,
                    ..
                },
                ReplicatedBrokerCommandV1::CompleteTask {
                    task_id: other_task_id,
                    group_id: other_group_id,
                    member_id: other_member_id,
                    expected_term: other_expected_term,
                    expected_generation: other_expected_generation,
                    expected_lease_epoch: other_expected_lease_epoch,
                    lease_id: other_lease_id,
                    result: other_result,
                    ..
                },
            ) => *task_id == *other_task_id
                && *group_id == *other_group_id
                && *member_id == *other_member_id
                && *expected_term == *other_expected_term
                && *expected_generation == *other_expected_generation
                && *expected_lease_epoch == *other_expected_lease_epoch
                && *lease_id == *other_lease_id
                && *result == *other_result,
            (
                ReplicatedBrokerCommandV1::PruneCompletedTasks { completed_before_ms, max_tasks },
                ReplicatedBrokerCommandV1::PruneCompletedTasks {
                    completed_before_ms: other_completed_before_ms,
                    max_tasks: other_max_tasks,
                },
            ) => *completed_before_ms == *other_completed_before_ms
                && *max_tasks == *other_max_tasks,
            (
                ReplicatedBrokerCommandV1::AdvanceTerm { expected_term, new_term },
                ReplicatedBrokerCommandV1::AdvanceTerm {
                    expected_term: other_expected_term,
                    new_term: other_new_term,
                },
            ) => *expected_term == *other_expected_term && *new_term == *other_new_term,
            (
                ReplicatedBrokerCommandV1::AcquireCommandSessionOwner {
                    session_id,
                    expected_owner_epoch,
                    owner_instance_id,
                },
                ReplicatedBrokerCommandV1::AcquireCommandSessionOwner {
                    session_id: other_session_id,
                    expected_owner_epoch: other_expected_owner_epoch,
                    owner_instance_id: other_owner_instance_id,
                },
            ) => *session_id == *other_session_id
                && *expected_owner_epoch == *other_expected_owner_epoch
                && *owner_instance_id == *other_owner_instance_id,
            _ => false,
        }
    }
}

/// Whether `wire` is the durable form of `command`.
pub open spec fn encodes(command: BrokerCommand, wire: WireCommand) -> bool {
    match (command, wire) {
        (
            BrokerCommand::EnsureNamespace(c),
            WireCommand::EnsureNamespace { namespace_id, max_namespaces },
        ) => namespace_id == c.namespace_id@ && max_namespaces == c.max_namespaces,
        (
            BrokerCommand::PublishTask(c),
            WireCommand::PublishTask {
                namespace_id,
                task_id,
                objective,
                created_at_ms,
                max_namespace_tasks,
            },
        ) => namespace_id == c.namespace_id@
            && task_id == c.task_id@
            && objective == c.objective@
            && created_at_ms == c.created_at_ms@
            && max_namespace_tasks == c.max_namespace_tasks,
        (
            BrokerCommand::EnsureConsumerGroup(c),
            WireCommand::EnsureConsumerGroup { namespace_id, group_id, max_namespace_groups },
        ) => namespace_id == c.namespace_id@
            && group_id == c.group_id@
            && max_namespace_groups == c.max_namespace_groups,
        (
            BrokerCommand::JoinConsumerGroup(c),
            WireCommand::JoinConsumerGroup {
                group_id,
                member_id,
                capabilities,
                now_ms,
                max_group_members,
            },
        ) => group_id == c.group_id@
            && member_id == c.member_id@
            && capabilities == c.capabilities@
            && now_ms == c.now_ms@
            && max_group_members == c.max_group_members,
        (
            BrokerCommand::Heartbeat(c),
            WireCommand::Heartbeat { group_id, member_id, expected_generation, now_ms },
        ) => group_id == c.group_id@
            && member_id == c.member_id@
            && expected_generation == c.expected_generation@
            && now_ms == c.now_ms@,
        (
            BrokerCommand::LeaveConsumerGroup(c),
            WireCommand::LeaveConsumerGroup { group_id, member_id, expected_generation },
        ) => group_id == c.group_id@
            && member_id == c.member_id@
            && expected_generation == c.expected_generation@,
        (
            BrokerCommand::ReapStaleMembers(c),
            WireCommand::ReapStaleMembers { stale_before_ms, max_members },
        ) => stale_before_ms == c.stale_before_ms@ && max_members == c.max_members,
        (
            BrokerCommand::ClaimTask(c),
            WireCommand::ClaimTask {
                group_id,
                member_id,
                expected_term,
                expected_generation,
                lease_id,
                now_ms,
                lease_duration_ms,
            },
        ) => group_id == c.group_id@
            && member_id == c.member_id@
            && expected_term == c.expected_term@
            && expected_generation == c.expected_generation@
            && lease_id == c.lease_id@
            && now_ms == c.now_ms@
            && lease_duration_ms == c.lease_duration_ms,
        (
            BrokerCommand::RenewTaskLease(c),
            WireCommand::RenewTaskLease {
                task_id,
                group_id,
                member_id,
                expected_term,
                expected_generation,
                expected_lease_epoch,
                lease_id,
                now_ms,
                lease_duration_ms,
            },
        ) => task_id == c.task_id@
            && group_id == c.group_id@
            && member_id == c.member_id@
            && expected_term == c.expected_term@
            && expected_generation == c.expected_generation@
            && expected_lease_epoch == c.expected_lease_epoch@
            && lease_id == c.lease_id@
            && now_ms == c.now_ms@
            && lease_duration_ms == c.lease_duration_ms,
        (
            BrokerCommand::CompleteTask(c),
            WireCommand::CompleteTask {
                task_id,
                group_id,
                member_id,
                expected_term,
                expected_generation,
                expected_lease_epoch,
                lease_id,
                result,
                completed_at_ms,
            },
        ) => task_id == c.task_id@
            && group_id == c.group_id@
            && member_id == c.member_id@
            && expected_term == c.expected_term@
            && expected_generation == c.expected_generation@
            && expected_lease_epoch == c.expected_lease_epoch@
            && lease_id == c.lease_id@
            && result == c.result@
            && completed_at_ms == c.completed_at_ms@,
        (
            BrokerCommand::PruneCompletedTasks(c),
            WireCommand::PruneCompletedTasks { completed_before_ms, max_tasks },
        ) => completed_before_ms == c.completed_before_ms@ && max_tasks == c.max_tasks,
        (
            BrokerCommand::AdvanceTerm(c),
            WireCommand::AdvanceTerm { expected_term, new_term },
        ) => expected_term == c.expected_term@ && new_term == c.new_term@,
        _ => false,
    }
}

/// The first of two findings.
pub open spec fn first_of(
    first: Option<Seq<char>>,
    second: Option<Seq<char>>,
) -> Option<Seq<char>> {
    match first {
        Some(finding) => Some(finding),
        None => second,
    }
}

/// The text of a failed domain validation.
pub open spec fn validation_text(error: Seq<char>) -> Seq<char> {
    "replicated Broker command failed domain validation: "@ + error
}

/// The finding on one text of kind `K`.
pub open spec fn text_finding<K: TextKind>(text: Seq<char>) -> Option<Seq<char>> {
    match K::flaw(text) {
        Some(reason) => Some(validation_text(text_error(K::label(), reason))),
        None => None,
    }
}

/// The finding on a list of capabilities.
pub open spec fn capabilities_finding(texts: Seq<Seq<char>>) -> Option<Seq<char>> {
    match capabilities_flaw(texts) {
        Some(reason) => Some(validation_text(text_error("capability"@, reason))),
        None => None,
    }
}

/// The finding on one Broker term.
pub open spec fn term_finding(term: u64) -> Option<Seq<char>> {
    if term == 0 {
        Some(validation_text(zero_error("Broker term"@)))
    } else {
        None
    }
}

/// The finding on one count that must fit the platform.
pub open spec fn count_finding(count: u64, field: Seq<char>) -> Option<Seq<char>> {
    if count > usize::MAX {
        Some(field + " exceeds platform usize"@)
    } else {
        None
    }
}

/// Why a durable command is no domain command, or `None` if it is one.
pub open spec fn decode_finding(wire: WireCommand) -> Option<Seq<char>> {
    match wire {
        WireCommand::EnsureNamespace { namespace_id, max_namespaces } => first_of(
            text_finding::<NamespaceKind>(namespace_id),
            count_finding(max_namespaces, "max_namespaces"@),
        ),
        WireCommand::PublishTask {
            namespace_id,
            task_id,
            objective,
            max_namespace_tasks,
            ..
        } => first_of(
            text_finding::<NamespaceKind>(namespace_id),
            first_of(
                text_finding::<TaskKind>(task_id),
                first_of(
                    text_finding::<ObjectiveKind>(objective),
                    count_finding(max_namespace_tasks, "max_namespace_tasks"@),
                ),
            ),
        ),
        WireCommand::EnsureConsumerGroup {
            namespace_id,
            group_id,
            max_namespace_groups,
        } => first_of(
            text_finding::<NamespaceKind>(namespace_id),
            first_of(
                text_finding::<ConsumerGroupKind>(group_id),
                count_finding(max_namespace_groups, "max_namespace_groups"@),
            ),
        ),
        WireCommand::JoinConsumerGroup {
            group_id,
            member_id,
            capabilities,
            max_group_members,
            ..
        } => first_of(
            text_finding::<ConsumerGroupKind>(group_id),
            first_of(
                text_finding::<ConsumerKind>(member_id),
                first_of(
                    capabilities_finding(capabilities),
                    count_finding(max_group_members, "max_group_members"@),
                ),
            ),
        ),
        WireCommand::Heartbeat { group_id, member_id, .. } => first_of(
            text_finding::<ConsumerGroupKind>(group_id),
            text_finding::<ConsumerKind>(member_id),
        ),
        WireCommand::LeaveConsumerGroup { group_id, member_id, .. } => first_of(
            text_finding::<ConsumerGroupKind>(group_id),
            text_finding::<ConsumerKind>(member_id),
        ),
        WireCommand::ReapStaleMembers { max_members, .. } => count_finding(
            max_members,
            "max_members"@,
        ),
        WireCommand::ClaimTask { group_id, member_id, expected_term, lease_id, .. } => first_of(
            text_finding::<ConsumerGroupKind>(group_id),
            first_of(
                text_finding::<ConsumerKind>(member_id),
                first_of(term_finding(expected_term), text_finding::<LeaseKind>(lease_id)),
            ),
        ),
        WireCommand::RenewTaskLease {
            task_id,
            group_id,
            member_id,
            expected_term,
            lease_id,
            ..
        } => first_of(
            text_finding::<TaskKind>(task_id),
            first_of(
                text_finding::<ConsumerGroupKind>(group_id),
                first_of(
                    text_finding::<ConsumerKind>(member_id),
                    first_of(term_finding(expected_term), text_finding::<LeaseKind>(lease_id)),
                ),
            ),
        ),
        WireCommand::CompleteTask {
            task_id,
            group_id,
            member_id,
            expected_term,
            lease_id,
            result,
            ..
        } => first_of(
            text_finding::<TaskKind>(task_id),
            first_of(
                text_finding::<ConsumerGroupKind>(group_id),
                first_of(
                    text_finding::<ConsumerKind>(member_id),
                    first_of(
                        term_finding(expected_term),
                        first_of(
                            text_finding::<LeaseKind>(lease_id),
                            text_finding::<OutcomeKind>(result),
                        ),
                    ),
                ),
            ),
        ),
        WireCommand::PruneCompletedTasks { max_tasks, .. } => count_finding(
            max_tasks,
            "max_tasks"@,
        ),
        WireCommand::AdvanceTerm { expected_term, new_term } => first_of(
            term_finding(expected_term),
            term_finding(new_term),
        ),
        WireCommand::AcquireCommandSessionOwner { .. } => Some(
            "command-session owner acquisition is consensus-owned and cannot become a Broker domain command"@,
        ),
    }
}

fn validation_error(error: &str) -> (r: ReplicatedCommandError)
    ensures
        r@ == validation_text(error@),
{
    ReplicatedCommandError {
        message: "replicated Broker command failed domain validation: ".to_owned().concat(error),
    }
}

fn decode_text<K: TextKind>(value: &str) -> (r: Result<DomainText<K>, ReplicatedCommandError>)
    ensures
        match r {
            Ok(text) => text@ == value@ && text_finding::<K>(value@) is None,
            Err(error) => text_finding::<K>(value@) == Some(error@),
        },
{
    match DomainText::<K>::new(value) {
        Ok(text) => Ok(text),
        Err(error) => Err(validation_error(error.message().as_str())),
    }
}

fn decode_capabilities(values: &Vec<String>) -> (r: Result<Capabilities, ReplicatedCommandError>)
    ensures
        match r {
            Ok(capabilities) => capabilities@ == string_list(values@) && capabilities_finding(
                string_list(values@),
            ) is None,
            Err(error) => capabilities_finding(string_list(values@)) == Some(error@),
        },
{
    match Capabilities::new(values) {
        Ok(capabilities) => Ok(capabilities),
        Err(error) => Err(validation_error(error.message().as_str())),
    }
}

fn decode_term(value: u64) -> (r: Result<Term, ReplicatedCommandError>)
    ensures
        match r {
            Ok(term) => term@ == value && term_finding(value) is None,
            Err(error) => term_finding(value) == Some(error@),
        },
{
    match Term::new(value) {
        Ok(term) => Ok(term),
        Err(error) => Err(validation_error(error.message().as_str())),
    }
}

fn u64_to_usize(value: u64, field: &str) -> (r: Result<usize, ReplicatedCommandError>)
    ensures
        match r {
            Ok(count) => count == value && count_finding(value, field@) is None,
            Err(error) => count_finding(value, field@) == Some(error@),
        },
{
    if value > usize::MAX as u64 {
        Err(ReplicatedCommandError { message: field.to_owned().concat(" exceeds platform usize") })
    } else {
        Ok(value as usize)
    }
}

fn encode_capabilities(capabilities: &Capabilities) -> (r: Vec<String>)
    ensures
        string_list(r@) == capabilities@,
{
    let mut texts: Vec<String> = Vec::new();
    let mut index: usize = 0;
    assert(string_list(texts@) =~= capabilities@.take(0));
    while index < capabilities.len()
        invariant
            index <= capabilities@.len(),
            string_list(texts@) == capabilities@.take(index as int),
        decreases capabilities@.len() - index,
    {
        let ghost before = texts@;
        texts.push(capabilities.get(index).to_owned());
        assert(string_list(texts@) =~= string_list(before).push(capabilities@[index as int]));
        assert(string_list(texts@) =~= capabilities@.take(index + 1));
        index = index + 1;
    }
    assert(capabilities@.take(index as int) =~= capabilities@);
    texts
}

impl ReplicatedBrokerCommandV1 {
    /// The durable form of a domain command.
    pub fn from_command(command: &BrokerCommand) -> (r: Self)
        ensures
            encodes(*command, r@),
            decode_finding(r@) is None,
    {
        match command {
            BrokerCommand::EnsureNamespace(c) => {
                proof {
                    use_type_invariant(&c.namespace_id);
                }
                ReplicatedBrokerCommandV1::EnsureNamespace {
                    namespace_id: c.namespace_id.as_str().to_owned(),
                    max_namespaces: c.max_namespaces as u64,
                }
            },
            BrokerCommand::PublishTask(c) => {
                proof {
                    use_type_invariant(&c.namespace_id);
                    use_type_invariant(&c.task_id);
                    use_type_invariant(&c.objective);
                }
                ReplicatedBrokerCommandV1::PublishTask {
                    namespace_id: c.namespace_id.as_str().to_owned(),
                    task_id: c.task_id.as_str().to_owned(),
                    objective: c.objective.as_str().to_owned(),
                    created_at_ms: c.created_at_ms.get(),
                    max_namespace_tasks: c.max_namespace_tasks as u64,
                }
            },
            BrokerCommand::EnsureConsumerGroup(c) => {
                proof {
                    use_type_invariant(&c.namespace_id);
                    use_type_invariant(&c.group_id);
                }
                ReplicatedBrokerCommandV1::EnsureConsumerGroup {
                    namespace_id: c.namespace_id.as_str().to_owned(),
                    group_id: c.group_id.as_str().to_owned(),
                    max_namespace_groups: c.max_namespace_groups as u64,
                }
            },
            BrokerCommand::JoinConsumerGroup(c) => {
                proof {
                    use_type_invariant(&c.group_id);
                    use_type_invariant(&c.member_id);
                    use_type_invariant(&c.capabilities);
                }
                ReplicatedBrokerCommandV1::JoinConsumerGroup {
                    group_id: c.group_id.as_str().to_owned(),
                    member_id: c.member_id.as_str().to_owned(),
                    capabilities: encode_capabilities(&c.capabilities),
                    now_ms: c.now_ms.get(),
                    max_group_members: c.max_group_members as u64,
                }
            },
            BrokerCommand::Heartbeat(c) => {
                proof {
                    use_type_invariant(&c.group_id);
                    use_type_invariant(&c.member_id);
                }
                ReplicatedBrokerCommandV1::Heartbeat {
                    group_id: c.group_id.as_str().to_owned(),
                    member_id: c.member_id.as_str().to_owned(),
                    expected_generation: c.expected_generation.get(),
                    now_ms: c.now_ms.get(),
                }
            },
            BrokerCommand::LeaveConsumerGroup(c) => {
                proof {
                    use_type_invariant(&c.group_id);
                    use_type_invariant(&c.member_id);
                }
                ReplicatedBrokerCommandV1::LeaveConsumerGroup {
                    group_id: c.group_id.as_str().to_owned(),
                    member_id: c.member_id.as_str().to_owned(),
                    expected_generation: c.expected_generation.get(),
                }
            },
            BrokerCommand::ReapStaleMembers(c) => {
                ReplicatedBrokerCommandV1::ReapStaleMembers {
                    stale_before_ms: c.stale_before_ms.get(),
                    max_members: c.max_members as u64,
                }
            },
            BrokerCommand::ClaimTask(c) => {
                proof {
                    use_type_invariant(&c.group_id);
                    use_type_invariant(&c.member_id);
                    use_type_invariant(&c.expected_term);
                    use_type_invariant(&c.lease_id);
                }
                ReplicatedBrokerCommandV1::ClaimTask {
                    group_id: c.group_id.as_str().to_owned(),
                    member_id: c.member_id.as_str().to_owned(),
                    expected_term: c.expected_term.get(),
                    expected_generation: c.expected_generation.get(),
                    lease_id: c.lease_id.as_str().to_owned(),
                    now_ms: c.now_ms.get(),
                    lease_duration_ms: c.lease_duration_ms,
                }
            },
            BrokerCommand::RenewTaskLease(c) => {
                proof {
                    use_type_invariant(&c.task_id);
                    use_type_invariant(&c.group_id);
                    use_type_invariant(&c.member_id);
                    use_type_invariant(&c.expected_term);
                    use_type_invariant(&c.lease_id);
                }
                ReplicatedBrokerCommandV1::RenewTaskLease {
                    task_id: c.task_id.as_str().to_owned(),
                    group_id: c.group_id.as_str().to_owned(),
                    member_id: c.member_id.as_str().to_owned(),
                    expected_term: c.expected_term.get(),
                    expected_generation: c.expected_generation.get(),
                    expected_lease_epoch: c.expected_lease_epoch.get(),
                    lease_id: c.lease_id.as_str().to_owned(),
                    now_ms: c.now_ms.get(),
                    lease_duration_ms: c.lease_duration_ms,
                }
            },
            BrokerCommand::CompleteTask(c) => {
                proof {
                    use_type_invariant(&c.task_id);
                    use_type_invariant(&c.group_id);
                    use_type_invariant(&c.member_id);
                    use_type_invariant(&c.expected_term);
                    use_type_invariant(&c.lease_id);
                    use_type_invariant(&c.result);
                }
                ReplicatedBrokerCommandV1::CompleteTask {
                    task_id: c.task_id.as_str().to_owned(),
                    group_id: c.group_id.as_str().to_owned(),
                    member_id: c.member_id.as_str().to_owned(),
                    expected_term: c.expected_term.get(),
                    expected_generation: c.expected_generation.get(),
                    expected_lease_epoch: c.expected_lease_epoch.get(),
                    lease_id: c.lease_id.as_str().to_owned(),
                    result: c.result.as_str().to_owned(),
                    completed_at_ms: c.completed_at_ms.get(),
                }
            },
            BrokerCommand::PruneCompletedTasks(c) => {
                ReplicatedBrokerCommandV1::PruneCompletedTasks {
                    completed_before_ms: c.completed_before_ms.get(),
                    max_tasks: c.max_tasks as u64,
                }
            },
            BrokerCommand::AdvanceTerm(c) => {
                proof {
                    use_type_invariant(&c.expected_term);
                    use_type_invariant(&c.new_term);
                }
                ReplicatedBrokerCommandV1::AdvanceTerm {
                    expected_term: c.expected_term.get(),
                    new_term: c.new_term.get(),
                }
            },
        }
    }

    /// The domain command of a durable form, with every domain rule checked again.
    pub fn to_command(&self) -> (r: Result<BrokerCommand, ReplicatedCommandError>)
        ensures
            match r {
                Ok(command) => encodes(command, self@) && decode_finding(self@) is None,
                Err(error) => decode_finding(self@) == Some(error@),
            },
    {
        match self {
            ReplicatedBrokerCommandV1::EnsureNamespace { namespace_id, max_namespaces } => {
                let namespace_id = decode_text::<NamespaceKind>(namespace_id.as_str())?;
                let max_namespaces = u64_to_usize(*max_namespaces, "max_namespaces")?;
                Ok(
                    BrokerCommand::EnsureNamespace(
                        EnsureNamespaceCommand { namespace_id, max_namespaces },
                    ),
                )
            },
            ReplicatedBrokerCommandV1::PublishTask {
                namespace_id,
                task_id,
                objective,
                created_at_ms,
                max_namespace_tasks,
            } => {
                let namespace_id = decode_text::<NamespaceKind>(namespace_id.as_str())?;
                let task_id = decode_text::<TaskKind>(task_id.as_str())?;
                let objective = decode_text::<ObjectiveKind>(objective.as_str())?;
                let max_namespace_tasks = u64_to_usize(
                    *max_namespace_tasks,
                    "max_namespace_tasks",
                )?;
                Ok(
                    BrokerCommand::PublishTask(
                        PublishTaskCommand {
                            namespace_id,
                            task_id,
                            objective,
                            created_at_ms: TimestampMs::new(*created_at_ms),
                            max_namespace_tasks,
                        },
                    ),
                )
            },
            ReplicatedBrokerCommandV1::EnsureConsumerGroup {
                namespace_id,
                group_id,
                max_namespace_groups,
            } => {
                let namespace_id = decode_text::<NamespaceKind>(namespace_id.as_str())?;
                let group_id = decode_text::<ConsumerGroupKind>(group_id.as_str())?;
                let max_namespace_groups = u64_to_usize(
                    *max_namespace_groups,
                    "max_namespace_groups",
                )?;
                Ok(
                    BrokerCommand::EnsureConsumerGroup(
                        EnsureConsumerGroupCommand { namespace_id, group_id, max_namespace_groups },
                    ),
                )
            },
            ReplicatedBrokerCommandV1::JoinConsumerGroup {
                group_id,
                member_id,
                capabilities,
                now_ms,
                max_group_members,
            } => {
                let group_id = decode_text::<ConsumerGroupKind>(group_id.as_str())?;
                let member_id = decode_text::<ConsumerKind>(member_id.as_str())?;
                let capabilities = decode_capabilities(capabilities)?;
                let max_group_members = u64_to_usize(*max_group_members, "max_group_members")?;
                Ok(
                    BrokerCommand::JoinConsumerGroup(
                        JoinConsumerGroupCommand {
                            group_id,
                            member_id,
                            capabilities,
                            now_ms: TimestampMs::new(*now_ms),
                            max_group_members,
                        },
                    ),
                )
            },
            ReplicatedBrokerCommandV1::Heartbeat {
                group_id,
                member_id,
                expected_generation,
                now_ms,
            } => {
                let group_id = decode_text::<ConsumerGroupKind>(group_id.as_str())?;
                let member_id = decode_text::<ConsumerKind>(member_id.as_str())?;
                Ok(
                    BrokerCommand::Heartbeat(
                        HeartbeatCommand {
                            group_id,
                            member_id,
                            expected_generation: Generation::new(*expected_generation),
                            now_ms: TimestampMs::new(*now_ms),
                        },
                    ),
                )
            },
            ReplicatedBrokerCommandV1::LeaveConsumerGroup {
                group_id,
                member_id,
                expected_generation,
            } => {
                let group_id = decode_text::<ConsumerGroupKind>(group_id.as_str())?;
                let member_id = decode_text::<ConsumerKind>(member_id.as_str())?;
                Ok(
                    BrokerCommand::LeaveConsumerGroup(
                        LeaveConsumerGroupCommand {
                            group_id,
                            member_id,
                            expected_generation: Generation::new(*expected_generation),
                        },
                    ),
                )
            },
            ReplicatedBrokerCommandV1::ReapStaleMembers { stale_before_ms, max_members } => {
                let max_members = u64_to_usize(*max_members, "max_members")?;
                Ok(
                    BrokerCommand::ReapStaleMembers(
                        ReapStaleMembersCommand {
                            stale_before_ms: TimestampMs::new(*stale_before_ms),
                            max_members,
                        },
                    ),
                )
            },
            ReplicatedBrokerCommandV1::ClaimTask {
                group_id,
                member_id,
                expected_term,
                expected_generation,
                lease_id,
                now_ms,
                lease_duration_ms,
            } => {
                let group_id = decode_text::<ConsumerGroupKind>(group_id.as_str())?;
                let member_id = decode_text::<ConsumerKind>(member_id.as_str())?;
                let expected_term = decode_term(*expected_term)?;
                let lease_id = decode_text::<LeaseKind>(lease_id.as_str())?;
                Ok(
                    BrokerCommand::ClaimTask(
                        ClaimTaskCommand {
                            group_id,
                            member_id,
                            expected_term,
                            expected_generation: Generation::new(*expected_generation),
                            lease_id,
                            now_ms: TimestampMs::new(*now_ms),
                            lease_duration_ms: *lease_duration_ms,
                        },
                    ),
                )
            },
            ReplicatedBrokerCommandV1::RenewTaskLease {
                task_id,
                group_id,
                member_id,
                expected_term,
                expected_generation,
                expected_lease_epoch,
                lease_id,
                now_ms,
                lease_duration_ms,
            } => {
                let task_id = decode_text::<TaskKind>(task_id.as_str())?;
                let group_id = decode_text::<ConsumerGroupKind>(group_id.as_str())?;
                let member_id = decode_text::<ConsumerKind>(member_id.as_str())?;
                let expected_term = decode_term(*expected_term)?;
                let lease_id = decode_text::<LeaseKind>(lease_id.as_str())?;
                Ok(
                    BrokerCommand::RenewTaskLease(
                        RenewTaskLeaseCommand {
                            task_id,
                            group_id,
                            member_id,
                            expected_term,
                            expected_generation: Generation::new(*expected_generation),
                            expected_lease_epoch: LeaseEpoch::new(*expected_lease_epoch),
                            lease_id,
                            now_ms: TimestampMs::new(*now_ms),
                            lease_duration_ms: *lease_duration_ms,
                        },
                    ),
                )
            },
            ReplicatedBrokerCommandV1::CompleteTask {
                task_id,
                group_id,
                member_id,
                expected_term,
                expected_generation,
                expected_lease_epoch,
                lease_id,
                result,
                completed_at_ms,
            } => {
                let task_id = decode_text::<TaskKind>(task_id.as_str())?;
                let group_id = decode_text::<ConsumerGroupKind>(group_id.as_str())?;
                let member_id = decode_text::<ConsumerKind>(member_id.as_str())?;
                let expected_term = decode_term(*expected_term)?;
                let lease_id = decode_text::<LeaseKind>(lease_id.as_str())?;
                let result = decode_text::<OutcomeKind>(result.as_str())?;
                Ok(
                    BrokerCommand::CompleteTask(
                        CompleteTaskCommand {
                            task_id,
                            group_id,
                            member_id,
                            expected_term,
                            expected_generation: Generation::new(*expected_generation),
                            expected_lease_epoch: LeaseEpoch::new(*expected_lease_epoch),
                            lease_id,
                            result,
                            completed_at_ms: TimestampMs::new(*completed_at_ms),
                        },
                    ),
                )
            },
            ReplicatedBrokerCommandV1::PruneCompletedTasks { completed_before_ms, max_tasks } => {
                let max_tasks = u64_to_usize(*max_tasks, "max_tasks")?;
                Ok(
                    BrokerCommand::PruneCompletedTasks(
                        PruneCompletedTasksCommand {
                            completed_before_ms: TimestampMs::new(*completed_before_ms),
                            max_tasks,
                        },
                    ),
                )
            },
            ReplicatedBrokerCommandV1::AdvanceTerm { expected_term, new_term } => {
                let expected_term = decode_term(*expected_term)?;
                let new_term = decode_term(*new_term)?;
                Ok(BrokerCommand::AdvanceTerm(AdvanceTermCommand { expected_term, new_term }))
            },
            ReplicatedBrokerCommandV1::AcquireCommandSessionOwner { .. } => Err(
                ReplicatedCommandError::new(
                    "command-session owner acquisition is consensus-owned and cannot become a Broker domain command",
                ),
            ),
        }
    }
}

/// A durable form determines the values of its domain command: two commands with one durable form
/// have all durable forms in common.
pub proof fn law_durable_form_determines_command(
    left: BrokerCommand,
    right: BrokerCommand,
    wire: WireCommand,
    other: WireCommand,
)
    requires
        encodes(left, wire),
        encodes(right, wire),
    ensures
        encodes(left, other) <==> encodes(right, other),
{
}

/// Durable forms of one domain command are the same identified request.
pub proof fn law_durable_forms_of_a_command_match(
    command: BrokerCommand,
    left: WireCommand,
    right: WireCommand,
)
    requires
        encodes(command, left),
        encodes(command, right),
    ensures
        client_request(left) == client_request(right),
        decode_finding(left) == decode_finding(right),
{
}

/// The same request as a server builds it at another time and with another capacity limit.
pub open spec fn observed_again(command: WireCommand, time_ms: u64, limit: u64) -> WireCommand {
    match command {
        WireCommand::EnsureNamespace { namespace_id, .. } => WireCommand::EnsureNamespace {
            namespace_id,
            max_namespaces: limit,
        },
        WireCommand::PublishTask { namespace_id, task_id, objective, .. } => {
            WireCommand::PublishTask {
                namespace_id,
                task_id,
                objective,
                created_at_ms: time_ms,
                max_namespace_tasks: limit,
            }
        },
        WireCommand::EnsureConsumerGroup { namespace_id, group_id, .. } => {
            WireCommand::EnsureConsumerGroup { namespace_id, group_id, max_namespace_groups: limit }
        },
        WireCommand::JoinConsumerGroup { group_id, member_id, capabilities, .. } => {
            WireCommand::JoinConsumerGroup {
                group_id,
                member_id,
                capabilities,
                now_ms: time_ms,
                max_group_members: limit,
            }
        },
        WireCommand::Heartbeat { group_id, member_id, expected_generation, .. } => {
            WireCommand::Heartbeat { group_id, member_id, expected_generation, now_ms: time_ms }
        },
        WireCommand::ClaimTask {
            group_id,
            member_id,
            expected_term,
            expected_generation,
            lease_id,
            lease_duration_ms,
            ..
        } => WireCommand::ClaimTask {
            group_id,
            member_id,
            expected_term,
            expected_generation,
            lease_id,
            now_ms: time_ms,
            lease_duration_ms,
        },
        WireCommand::RenewTaskLease {
            task_id,
            group_id,
            member_id,
            expected_term,
            expected_generation,
            expected_lease_epoch,
            lease_id,
            lease_duration_ms,
            ..
        } => WireCommand::RenewTaskLease {
            task_id,
            group_id,
            member_id,
            expected_term,
            expected_generation,
            expected_lease_epoch,
            lease_id,
            now_ms: time_ms,
            lease_duration_ms,
        },
        WireCommand::CompleteTask {
            task_id,
            group_id,
            member_id,
            expected_term,
            expected_generation,
            expected_lease_epoch,
            lease_id,
            result,
            ..
        } => WireCommand::CompleteTask {
            task_id,
            group_id,
            member_id,
            expected_term,
            expected_generation,
            expected_lease_epoch,
            lease_id,
            result,
            completed_at_ms: time_ms,
        },
        _ => command,
    }
}

/// What a server observes on its own, the time and its capacity limits, makes no other request.
pub proof fn law_observations_make_no_other_request(
    command: WireCommand,
    time_ms: u64,
    limit: u64,
)
    ensures
        client_request(observed_again(command, time_ms, limit)) == client_request(command),
{
}

/// Two commands are the same request only if one is the other with another time and limit: whatever
/// the client fixes makes another request.
pub proof fn law_same_requests_differ_in_observations_alone(left: WireCommand, right: WireCommand)
    requires
        client_request(left) == client_request(right),
    ensures
        exists|time_ms: u64, limit: u64| right == #[trigger] observed_again(left, time_ms, limit),
{
    match right {
        WireCommand::EnsureNamespace { max_namespaces, .. } => {
            assert(right == observed_again(left, 0, max_namespaces));
        },
        WireCommand::PublishTask { created_at_ms, max_namespace_tasks, .. } => {
            assert(right == observed_again(left, created_at_ms, max_namespace_tasks));
        },
        WireCommand::EnsureConsumerGroup { max_namespace_groups, .. } => {
            assert(right == observed_again(left, 0, max_namespace_groups));
        },
        WireCommand::JoinConsumerGroup { now_ms, max_group_members, .. } => {
            assert(right == observed_again(left, now_ms, max_group_members));
        },
        WireCommand::Heartbeat { now_ms, .. } => {
            assert(right == observed_again(left, now_ms, 0));
        },
        WireCommand::ClaimTask { now_ms, .. } => {
            assert(right == observed_again(left, now_ms, 0));
        },
        WireCommand::RenewTaskLease { now_ms, .. } => {
            assert(right == observed_again(left, now_ms, 0));
        },
        WireCommand::CompleteTask { completed_at_ms, .. } => {
            assert(right == observed_again(left, completed_at_ms, 0));
        },
        _ => {
            assert(right == observed_again(left, 0, 0));
        },
    }
}

/// An owner acquisition is never a domain command.
pub proof fn law_owner_acquisition_is_no_domain_command(
    command: BrokerCommand,
    wire: WireCommand,
)
    requires
        wire is AcquireCommandSessionOwner,
    ensures
        !encodes(command, wire),
        decode_finding(wire) is Some,
{
}

} // verus!
