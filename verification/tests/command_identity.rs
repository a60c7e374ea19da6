use agent_broker::command_identity::{
    CommandIdentity, CommandIdentityError, CommandSequence, CommandSessionId, SessionOwnerEpoch,
    SessionOwnerInstanceId,
};

#[test]
fn command_identity_requires_stable_bounded_session_and_nonzero_sequence() {
    let session = CommandSessionId::new("orchestrator-a:session-1").unwrap();
    let sequence = CommandSequence::new(7).unwrap();
    let identity = CommandIdentity::new(session.clone(), sequence);
    assert_eq!(identity.session_id(), &session);
    assert_eq!(identity.owner_epoch(), SessionOwnerEpoch::initial());
    assert_eq!(identity.sequence().get(), 7);
    let next_owner = SessionOwnerEpoch::new(2).unwrap();
    let next_identity = CommandIdentity::new_with_owner_epoch(session, next_owner, sequence);
    assert_eq!(next_identity.owner_epoch(), next_owner);
    assert_eq!(next_identity.owner_instance_id(), None);
    let owner_instance = SessionOwnerInstanceId::new("worker-process-2").unwrap();
    let owned_identity = CommandIdentity::new_with_owner(
        next_identity.session_id().clone(),
        next_owner,
        owner_instance.clone(),
        sequence,
    );
    assert_eq!(owned_identity.owner_instance_id(), Some(&owner_instance));
    assert!(CommandSessionId::new("-bad").is_err());
    assert!(SessionOwnerInstanceId::new("-bad").is_err());
    assert!(SessionOwnerEpoch::new(0).is_err());
    assert!(CommandSequence::new(0).is_err());
}

#[test]
fn identifiers_are_bounded_and_made_of_stable_bytes() {
    let longest = "a".repeat(128);
    assert_eq!(CommandSessionId::new(&longest).unwrap().as_str(), longest);
    assert_eq!(SessionOwnerInstanceId::new(&longest).unwrap().as_str(), longest);
    let too_long = "a".repeat(129);
    for bad in ["", too_long.as_str(), "_start", "with space", "tab\t", "caf\u{e9}", "a/b"] {
        assert!(CommandSessionId::new(bad).is_err());
        assert!(SessionOwnerInstanceId::new(bad).is_err());
    }
    for good in ["a", "9", "A.b_c:d-e", "z--", "0:0"] {
        assert_eq!(CommandSessionId::new(good).unwrap().as_str(), good);
    }
}

#[test]
fn each_identity_error_says_what_is_wrong() {
    assert_eq!(CommandSequence::new(0), Err(CommandIdentityError::ZeroSequence));
    assert_eq!(SessionOwnerEpoch::new(0), Err(CommandIdentityError::ZeroOwnerEpoch));
    assert!(matches!(
        CommandSessionId::new(""),
        Err(CommandIdentityError::InvalidSessionId(_))
    ));
    assert!(matches!(
        SessionOwnerInstanceId::new(""),
        Err(CommandIdentityError::InvalidOwnerInstanceId(_))
    ));
    for error in [
        CommandSequence::new(0).err().unwrap(),
        SessionOwnerEpoch::new(0).err().unwrap(),
        CommandSessionId::new("").err().unwrap(),
        SessionOwnerInstanceId::new("").err().unwrap(),
    ] {
        assert!(!error.message().is_empty());
    }
}

#[test]
fn identities_are_the_same_only_field_by_field() {
    let session = CommandSessionId::new("s").unwrap();
    let other_session = CommandSessionId::new("t").unwrap();
    let one = CommandSequence::new(1).unwrap();
    let two = CommandSequence::new(2).unwrap();
    let epoch = SessionOwnerEpoch::new(2).unwrap();
    let owner = SessionOwnerInstanceId::new("o").unwrap();
    let base = CommandIdentity::new(session.clone(), one);
    assert!(base.same_as(&base.clone()));
    assert!(!base.same_as(&CommandIdentity::new(other_session, one)));
    assert!(!base.same_as(&CommandIdentity::new(session.clone(), two)));
    assert!(!base.same_as(&CommandIdentity::new_with_owner_epoch(session.clone(), epoch, one)));
    let initial = SessionOwnerEpoch::initial();
    assert!(!base.same_as(&CommandIdentity::new_with_owner(session, initial, owner, one)));
}

#[test]
fn sequences_compare_as_their_numbers() {
    let one = CommandSequence::new(1).unwrap();
    let again = CommandSequence::new(1).unwrap();
    let largest = CommandSequence::new(u64::MAX).unwrap();
    assert!(one == again && one.get() == 1);
    assert!(one < largest && !(largest < one) && one != largest);
    assert!(one <= again && !(one < again));
    assert_eq!(one.max(largest), largest);
}
