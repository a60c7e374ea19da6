use agent_broker::replicated_command::ReplicatedBrokerCommandV1 as Command;

fn assert_equivalent<const N: usize>(pairs: [(Command, Command); N]) {
    for (first, retry) in pairs {
        assert!(first.same_identified_request(&retry));
        assert!(retry.same_identified_request(&first));
    }
}

#[test]
fn identified_retry_ignores_server_capacity_fields() {
    assert_equivalent([
        (
            Command::EnsureNamespace {
                namespace_id: "ns".to_owned(),
                max_namespaces: 1,
            },
            Command::EnsureNamespace {
                namespace_id: "ns".to_owned(),
                max_namespaces: 999,
            },
        ),
        (
            Command::PublishTask {
                namespace_id: "ns".to_owned(),
                task_id: "task".to_owned(),
                objective: "objective".to_owned(),
                created_at_ms: 10,
                max_namespace_tasks: 1,
            },
            Command::PublishTask {
                namespace_id: "ns".to_owned(),
                task_id: "task".to_owned(),
                objective: "objective".to_owned(),
                created_at_ms: 10,
                max_namespace_tasks: 999,
            },
        ),
        (
            Command::EnsureConsumerGroup {
                namespace_id: "ns".to_owned(),
                group_id: "group".to_owned(),
                max_namespace_groups: 1,
            },
            Command::EnsureConsumerGroup {
                namespace_id: "ns".to_owned(),
                group_id: "group".to_owned(),
                max_namespace_groups: 999,
            },
        ),
        (
            Command::JoinConsumerGroup {
                group_id: "group".to_owned(),
                member_id: "member".to_owned(),
                capabilities: vec!["cap".to_owned()],
                now_ms: 10,
                max_group_members: 1,
            },
            Command::JoinConsumerGroup {
                group_id: "group".to_owned(),
                member_id: "member".to_owned(),
                capabilities: vec!["cap".to_owned()],
                now_ms: 10,
                max_group_members: 999,
            },
        ),
    ]);
}

#[test]
fn identified_retry_ignores_server_observed_coordination_timestamps() {
    assert_equivalent([
        (
            Command::PublishTask {
                namespace_id: "ns".to_owned(),
                task_id: "task".to_owned(),
                objective: "objective".to_owned(),
                created_at_ms: 10,
                max_namespace_tasks: 8,
            },
            Command::PublishTask {
                namespace_id: "ns".to_owned(),
                task_id: "task".to_owned(),
                objective: "objective".to_owned(),
                created_at_ms: 99,
                max_namespace_tasks: 8,
            },
        ),
        (
            Command::JoinConsumerGroup {
                group_id: "group".to_owned(),
                member_id: "member".to_owned(),
                capabilities: vec!["cap".to_owned()],
                now_ms: 10,
                max_group_members: 8,
            },
            Command::JoinConsumerGroup {
                group_id: "group".to_owned(),
                member_id: "member".to_owned(),
                capabilities: vec!["cap".to_owned()],
                now_ms: 99,
                max_group_members: 8,
            },
        ),
        (
            Command::Heartbeat {
                group_id: "group".to_owned(),
                member_id: "member".to_owned(),
                expected_generation: 2,
                now_ms: 10,
            },
            Command::Heartbeat {
                group_id: "group".to_owned(),
                member_id: "member".to_owned(),
                expected_generation: 2,
                now_ms: 99,
            },
        ),
    ]);
}

#[test]
fn identified_retry_ignores_server_observed_task_timestamps() {
    assert_equivalent([
        (
            Command::ClaimTask {
                group_id: "group".to_owned(),
                member_id: "member".to_owned(),
                expected_term: 3,
                expected_generation: 2,
                lease_id: "lease".to_owned(),
                now_ms: 10,
                lease_duration_ms: 500,
            },
            Command::ClaimTask {
                group_id: "group".to_owned(),
                member_id: "member".to_owned(),
                expected_term: 3,
                expected_generation: 2,
                lease_id: "lease".to_owned(),
                now_ms: 99,
                lease_duration_ms: 500,
            },
        ),
        (
            Command::RenewTaskLease {
                task_id: "task".to_owned(),
                group_id: "group".to_owned(),
                member_id: "member".to_owned(),
                expected_term: 3,
                expected_generation: 2,
                expected_lease_epoch: 4,
                lease_id: "lease".to_owned(),
                now_ms: 10,
                lease_duration_ms: 500,
            },
            Command::RenewTaskLease {
                task_id: "task".to_owned(),
                group_id: "group".to_owned(),
                member_id: "member".to_owned(),
                expected_term: 3,
                expected_generation: 2,
                expected_lease_epoch: 4,
                lease_id: "lease".to_owned(),
                now_ms: 99,
                lease_duration_ms: 500,
            },
        ),
        (
            Command::CompleteTask {
                task_id: "task".to_owned(),
                group_id: "group".to_owned(),
                member_id: "member".to_owned(),
                expected_term: 3,
                expected_generation: 2,
                expected_lease_epoch: 4,
                lease_id: "lease".to_owned(),
                result: "done".to_owned(),
                completed_at_ms: 10,
            },
            Command::CompleteTask {
                task_id: "task".to_owned(),
                group_id: "group".to_owned(),
                member_id: "member".to_owned(),
                expected_term: 3,
                expected_generation: 2,
                expected_lease_epoch: 4,
                lease_id: "lease".to_owned(),
                result: "done".to_owned(),
                completed_at_ms: 99,
            },
        ),
    ]);
}

#[test]
fn identified_retry_rejects_changed_client_semantics() {
    let base = Command::PublishTask {
        namespace_id: "ns".to_owned(),
        task_id: "task".to_owned(),
        objective: "objective".to_owned(),
        created_at_ms: 10,
        max_namespace_tasks: 1,
    };
    let changed = Command::PublishTask {
        namespace_id: "ns".to_owned(),
        task_id: "task-other".to_owned(),
        objective: "objective".to_owned(),
        created_at_ms: 99,
        max_namespace_tasks: 999,
    };
    assert!(!base.same_identified_request(&changed));

    let base = Command::ClaimTask {
        group_id: "group".to_owned(),
        member_id: "member".to_owned(),
        expected_term: 3,
        expected_generation: 2,
        lease_id: "lease".to_owned(),
        now_ms: 10,
        lease_duration_ms: 500,
    };
    let changed = Command::ClaimTask {
        group_id: "group".to_owned(),
        member_id: "member".to_owned(),
        expected_term: 3,
        expected_generation: 2,
        lease_id: "lease".to_owned(),
        now_ms: 99,
        lease_duration_ms: 501,
    };
    assert!(!base.same_identified_request(&changed));

    let base = Command::CompleteTask {
        task_id: "task".to_owned(),
        group_id: "group".to_owned(),
        member_id: "member".to_owned(),
        expected_term: 3,
        expected_generation: 2,
        expected_lease_epoch: 4,
        lease_id: "lease".to_owned(),
        result: "done".to_owned(),
        completed_at_ms: 10,
    };
    let changed = Command::CompleteTask {
        task_id: "task".to_owned(),
        group_id: "group".to_owned(),
        member_id: "member".to_owned(),
        expected_term: 3,
        expected_generation: 2,
        expected_lease_epoch: 4,
        lease_id: "lease".to_owned(),
        result: "different".to_owned(),
        completed_at_ms: 99,
    };
    assert!(!base.same_identified_request(&changed));
}

#[test]
fn every_client_chosen_field_tells_two_requests_apart() {
    let base = Command::Heartbeat {
        group_id: "group".to_owned(),
        member_id: "member".to_owned(),
        expected_generation: 2,
        now_ms: 10,
    };
    let other_group = Command::Heartbeat {
        group_id: "group-other".to_owned(),
        member_id: "member".to_owned(),
        expected_generation: 2,
        now_ms: 10,
    };
    let other_member = Command::Heartbeat {
        group_id: "group".to_owned(),
        member_id: "member-other".to_owned(),
        expected_generation: 2,
        now_ms: 10,
    };
    let other_generation = Command::Heartbeat {
        group_id: "group".to_owned(),
        member_id: "member".to_owned(),
        expected_generation: 3,
        now_ms: 10,
    };
    assert!(!base.same_identified_request(&other_group));
    assert!(!base.same_identified_request(&other_member));
    assert!(!base.same_identified_request(&other_generation));

    let joined = |capabilities: Vec<String>| Command::JoinConsumerGroup {
        group_id: "group".to_owned(),
        member_id: "member".to_owned(),
        capabilities,
        now_ms: 10,
        max_group_members: 8,
    };
    let code = joined(vec!["code".to_owned()]);
    let both = joined(vec!["code".to_owned(), "rust".to_owned()]);
    let turned = joined(vec!["rust".to_owned(), "code".to_owned()]);
    assert!(!code.same_identified_request(&both));
    assert!(!both.same_identified_request(&turned));
    assert!(!code.same_identified_request(&base));
}

#[test]
fn commands_without_server_fields_are_compared_whole() {
    let reap = |stale_before_ms: u64| Command::ReapStaleMembers { stale_before_ms, max_members: 4 };
    assert!(reap(10).same_identified_request(&reap(10)));
    assert!(!reap(10).same_identified_request(&reap(11)));
    let advance = |new_term: u64| Command::AdvanceTerm { expected_term: 1, new_term };
    assert!(advance(2).same_identified_request(&advance(2)));
    assert!(!advance(2).same_identified_request(&advance(3)));
}
