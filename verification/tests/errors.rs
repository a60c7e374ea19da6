use agent_broker::error::{
    BrokerError, BrokerErrorCode, BrokerErrorDisposition, ConsumerGroupErrorKind,
    StateMachineError, StateMachineErrorKind, TaskTransitionErrorKind,
};

fn refusal(kind: StateMachineErrorKind) -> StateMachineError {
    StateMachineError { kind, message: "refused".to_owned() }
}

#[test]
fn stable_codes_match_python_reference_strings() {
    assert_eq!(BrokerErrorCode::InvalidRequest.as_str(), "INVALID_REQUEST");
    assert_eq!(BrokerErrorCode::NotFound.as_str(), "NOT_FOUND");
    assert_eq!(BrokerErrorCode::Conflict.as_str(), "CONFLICT");
    assert_eq!(
        BrokerErrorCode::CapacityExceeded.as_str(),
        "CAPACITY_EXCEEDED"
    );
    assert_eq!(BrokerErrorCode::StaleFence.as_str(), "STALE_FENCE");
    assert_eq!(
        BrokerErrorCode::PersistenceError.as_str(),
        "PERSISTENCE_ERROR"
    );
    assert_eq!(BrokerErrorCode::TransportError.as_str(), "TRANSPORT_ERROR");
    assert_eq!(
        BrokerErrorCode::CommitOutcomeUnknown.as_str(),
        "COMMIT_OUTCOME_UNKNOWN"
    );
    assert_eq!(BrokerErrorCode::InternalError.as_str(), "INTERNAL_ERROR");
    assert_eq!(BrokerErrorDisposition::Committed.as_str(), "COMMITTED");
    assert_eq!(BrokerErrorDisposition::Rejected.as_str(), "REJECTED");
    assert_eq!(BrokerErrorDisposition::Unknown.as_str(), "UNKNOWN");
    assert_eq!(
        BrokerError::new(BrokerErrorCode::Conflict, "conflict").disposition(),
        BrokerErrorDisposition::Unknown
    );
}

#[test]
fn state_machine_categories_map_to_stable_protocol_codes() {
    let not_found = BrokerError::from(refusal(StateMachineErrorKind::TaskNotFound));
    assert_eq!(not_found.code(), BrokerErrorCode::NotFound);

    let conflict = BrokerError::from(refusal(StateMachineErrorKind::LeaseIdConflict));
    assert_eq!(conflict.code(), BrokerErrorCode::Conflict);

    let capacity = BrokerError::from(refusal(StateMachineErrorKind::CapacityExceeded));
    assert_eq!(capacity.code(), BrokerErrorCode::CapacityExceeded);

    let stale_group = BrokerError::from(refusal(
        StateMachineErrorKind::ConsumerGroupTransition(ConsumerGroupErrorKind::StaleGeneration),
    ));
    assert_eq!(stale_group.code(), BrokerErrorCode::StaleFence);

    let missing_member = BrokerError::from(refusal(
        StateMachineErrorKind::ConsumerGroupTransition(ConsumerGroupErrorKind::MemberNotFound),
    ));
    assert_eq!(missing_member.code(), BrokerErrorCode::NotFound);

    let stale_lease = BrokerError::from(refusal(StateMachineErrorKind::TaskTransition(
        TaskTransitionErrorKind::LeaseExpired,
    )));
    assert_eq!(stale_lease.code(), BrokerErrorCode::StaleFence);

    let group_conflict = BrokerError::from(refusal(StateMachineErrorKind::ConsumerGroupConflict));
    assert_eq!(group_conflict.code(), BrokerErrorCode::Conflict);
}

#[test]
fn a_state_machine_refusal_keeps_its_message_and_says_nothing_of_the_outcome() {
    let error = BrokerError::from_state_machine(refusal(StateMachineErrorKind::StaleTerm));
    assert_eq!(error.message(), "refused");
    assert_eq!(error.disposition(), BrokerErrorDisposition::Unknown);
    let settled = error.clone().with_disposition(BrokerErrorDisposition::Rejected);
    assert_eq!(settled.code(), error.code());
    assert_eq!(settled.message(), error.message());
    assert_eq!(settled.disposition(), BrokerErrorDisposition::Rejected);
}
