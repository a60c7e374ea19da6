use std::cell::RefCell;
use std::rc::Rc;

use agent_broker::command_identity::{
    CommandIdentity, CommandSequence, CommandSessionId, SessionOwnerEpoch, SessionOwnerInstanceId,
};
use agent_broker::protocol::Operation;
use agent_broker::session_state::{
    ClientSessionStoreError, OutgoingRequest, PersistedInFlight, PersistedOwner,
    PersistedSessionState, StoredRequest, StoredState,
};
use agent_broker::session_store::{DurableClientSessionStore, SessionJournal};

/// A journal that outlives the store that writes to it.
#[derive(Clone)]
struct SharedJournal {
    state: Rc<RefCell<Option<PersistedSessionState>>>,
    in_use: bool,
    unreadable: bool,
    full: bool,
}

fn journal() -> SharedJournal {
    SharedJournal {
        state: Rc::new(RefCell::new(None)),
        in_use: false,
        unreadable: false,
        full: false,
    }
}

fn journal_with(state: PersistedSessionState) -> SharedJournal {
    SharedJournal { state: Rc::new(RefCell::new(Some(state))), ..journal() }
}

impl SessionJournal for SharedJournal {
    fn lock(&mut self) -> Result<bool, ClientSessionStoreError> {
        Ok(!self.in_use)
    }

    fn load(&mut self) -> Result<StoredState, ClientSessionStoreError> {
        if self.unreadable {
            return Ok(StoredState::Undecodable("{not-json".to_owned()));
        }
        Ok(match self.state.borrow().clone() {
            Some(state) => StoredState::Decoded(state),
            None => StoredState::Missing,
        })
    }

    fn persist(&mut self, state: &PersistedSessionState) -> Result<(), ClientSessionStoreError> {
        if self.full {
            return Err(ClientSessionStoreError::Io {
                context: "client session state write failed",
                source: "no space".to_owned(),
            });
        }
        *self.state.borrow_mut() = Some(state.clone());
        Ok(())
    }
}

fn session(name: &str) -> CommandSessionId {
    CommandSessionId::new(name).unwrap()
}

fn owner(name: &str) -> SessionOwnerInstanceId {
    SessionOwnerInstanceId::new(name).unwrap()
}

fn epoch(value: u64) -> SessionOwnerEpoch {
    SessionOwnerEpoch::new(value).unwrap()
}

fn outgoing() -> OutgoingRequest {
    OutgoingRequest {
        operation: Operation::EnsureNamespace,
        encoding: Ok(StoredRequest {
            frame: "durable-client-request-1 durable-client-namespace".to_owned(),
            decoded: Ok(Operation::EnsureNamespace),
        }),
    }
}

fn open(
    journal: &SharedJournal,
    name: &str,
) -> Result<DurableClientSessionStore<SharedJournal>, ClientSessionStoreError> {
    DurableClientSessionStore::open_or_create(journal.clone(), session(name))
}

#[test]
fn reserved_command_survives_reopen_and_blocks_takeover_until_acknowledged() {
    let journal = journal();
    let name = "durable-client-session";

    let reserved = {
        let mut store = open(&journal, name).ok().unwrap();
        let pending = store.begin_owner_acquisition(owner("durable-client-process-a")).unwrap();
        assert_eq!(pending.expected_owner_epoch(), SessionOwnerEpoch::initial());
        let confirmed = store.confirm_owner_acquisition(SessionOwnerEpoch::initial()).unwrap();
        assert_eq!(confirmed.owner_instance_id(), &owner("durable-client-process-a"));
        store.reserve_command(outgoing()).unwrap()
    };

    let mut reopened = open(&journal, name).ok().unwrap();
    assert_eq!(reopened.in_flight().unwrap().as_ref(), Some(&reserved));
    let blocked = reopened.begin_owner_acquisition(owner("durable-client-process-b"));
    assert!(matches!(blocked, Err(ClientSessionStoreError::OperationBlocked(_))));
    reopened.acknowledge_in_flight_outcome(reserved.identity()).unwrap();
    assert!(reopened.in_flight().unwrap().is_none());
    assert!(matches!(
        reopened.begin_owner_acquisition(owner("durable-client-process-a")),
        Err(ClientSessionStoreError::OperationBlocked(_))
    ));
    let takeover = reopened.begin_owner_acquisition(owner("durable-client-process-b")).unwrap();
    assert_eq!(takeover.expected_owner_epoch(), SessionOwnerEpoch::initial());
    assert!(matches!(
        reopened.confirm_owner_acquisition(SessionOwnerEpoch::initial()),
        Err(ClientSessionStoreError::InvalidState(_))
    ));
    let owner_two = reopened.confirm_owner_acquisition(epoch(2)).unwrap();
    assert_eq!(owner_two.owner_epoch().get(), 2);
}

#[test]
fn pending_owner_acquisition_survives_reopen_for_exact_retry() {
    let journal = journal();
    let name = "durable-client-pending-owner";
    let pending = {
        let mut store = open(&journal, name).ok().unwrap();
        store.begin_owner_acquisition(owner("durable-client-pending-process")).unwrap()
    };

    let mut reopened = open(&journal, name).ok().unwrap();
    assert_eq!(reopened.pending_owner_acquisition().unwrap(), Some(pending));
    assert!(reopened.owner().unwrap().is_none());
    let confirmed = reopened.confirm_owner_acquisition(SessionOwnerEpoch::initial()).unwrap();
    assert_eq!(confirmed.owner_epoch(), SessionOwnerEpoch::initial());
    assert!(reopened.pending_owner_acquisition().unwrap().is_none());
}

#[test]
fn corrupt_or_cross_session_state_fails_closed() {
    let mut corrupt = journal();
    open(&corrupt, "durable-client-corrupt").ok().unwrap();
    corrupt.unreadable = true;
    assert!(matches!(
        open(&corrupt, "durable-client-corrupt"),
        Err(ClientSessionStoreError::InvalidState(_))
    ));

    let other = journal();
    open(&other, "durable-client-actual").ok().unwrap();
    assert!(matches!(
        open(&other, "durable-client-expected"),
        Err(ClientSessionStoreError::InvalidState(_))
    ));
}

#[test]
fn a_new_session_is_written_before_it_is_used() {
    let written = journal();
    let store = open(&written, "fresh").ok().unwrap();
    assert_eq!(store.next_sequence().unwrap().get(), 1);
    assert_eq!(
        written.state.borrow().as_ref(),
        Some(&PersistedSessionState {
            version: 1,
            session_id: "fresh".to_owned(),
            owner: None,
            pending_owner_acquisition: None,
            next_sequence: 1,
            in_flight: None,
        })
    );
    let mut full = journal();
    full.full = true;
    assert!(matches!(open(&full, "fresh"), Err(ClientSessionStoreError::Io { .. })));
}

#[test]
fn a_failed_write_leaves_the_store_as_it_was() {
    let mut full = journal_with(PersistedSessionState::new(&session("s")));
    full.full = true;
    let mut store = open(&full, "s").ok().unwrap();
    assert!(store.begin_owner_acquisition(owner("o")).is_err());
    assert!(store.pending_owner_acquisition().unwrap().is_none());
    assert_eq!(store.session_id(), &session("s"));
}

#[test]
fn acknowledged_commands_advance_and_released_ones_do_not() {
    let journal = journal();
    let mut store = open(&journal, "s").ok().unwrap();
    assert!(matches!(
        store.reserve_command(outgoing()),
        Err(ClientSessionStoreError::OperationBlocked(_))
    ));
    store.begin_owner_acquisition(owner("o")).unwrap();
    assert!(matches!(
        store.reserve_command(outgoing()),
        Err(ClientSessionStoreError::OperationBlocked(_))
    ));
    store.confirm_owner_acquisition(epoch(2)).unwrap();
    assert_eq!(store.owner().unwrap().unwrap().owner_epoch(), epoch(2));

    let first = store.reserve_command(outgoing()).unwrap();
    assert_eq!(first.identity().sequence().get(), 1);
    assert_eq!(first.identity().owner_epoch(), epoch(2));
    assert_eq!(first.operation(), Operation::EnsureNamespace);
    assert_eq!(first.request(), "durable-client-request-1 durable-client-namespace");
    assert!(matches!(
        store.reserve_command(outgoing()),
        Err(ClientSessionStoreError::OperationBlocked(_))
    ));
    let other = CommandIdentity::new(session("s"), CommandSequence::new(1).unwrap());
    assert!(store.acknowledge_in_flight_outcome(&other).is_err());
    assert!(store.release_rejected_in_flight(&other).is_err());

    store.release_rejected_in_flight(first.identity()).unwrap();
    assert_eq!(store.next_sequence().unwrap().get(), 1);
    let again = store.reserve_command(outgoing()).unwrap();
    assert_eq!(again.identity(), first.identity());
    store.acknowledge_in_flight_outcome(again.identity()).unwrap();
    assert_eq!(store.next_sequence().unwrap().get(), 2);
    assert!(store.acknowledge_in_flight_outcome(again.identity()).is_err());
}

#[test]
fn health_requests_and_unencodable_requests_are_never_reserved() {
    let journal = journal();
    let mut store = open(&journal, "s").ok().unwrap();
    store.begin_owner_acquisition(owner("o")).unwrap();
    store.confirm_owner_acquisition(epoch(1)).unwrap();
    let health = OutgoingRequest {
        operation: Operation::Health,
        encoding: Ok(StoredRequest { frame: "h".to_owned(), decoded: Ok(Operation::Health) }),
    };
    assert!(store.reserve_command(health).is_err());
    let broken = OutgoingRequest {
        operation: Operation::PublishTask,
        encoding: Err(ClientSessionStoreError::Protocol("too large".to_owned())),
    };
    assert!(matches!(
        store.reserve_command(broken),
        Err(ClientSessionStoreError::Protocol(_))
    ));
    assert!(store.in_flight().unwrap().is_none());
}

#[test]
fn an_exhausted_sequence_reserves_nothing_more() {
    let mut state = PersistedSessionState::new(&session("s"));
    state.owner = Some(PersistedOwner { owner_epoch: 1, owner_instance_id: "o".to_owned() });
    state.next_sequence = u64::MAX;
    let mut store = open(&journal_with(state), "s").ok().unwrap();
    match store.reserve_command(outgoing()) {
        Err(error) => assert_eq!(error, ClientSessionStoreError::SequenceExhausted),
        Ok(last) => assert!(store.acknowledge_in_flight_outcome(last.identity()).is_err()),
    }
}

#[test]
fn states_that_no_store_writes_are_refused() {
    let valid = || {
        let mut state = PersistedSessionState::new(&session("s"));
        state.owner = Some(PersistedOwner { owner_epoch: 2, owner_instance_id: "o".to_owned() });
        state
    };
    assert!(open(&journal_with(valid()), "s").is_ok());
    let mut newer = valid();
    newer.version = 2;
    assert!(open(&journal_with(newer), "s").is_err());
    let mut zero = valid();
    zero.next_sequence = 0;
    assert!(open(&journal_with(zero), "s").is_err());
    let mut unowned = valid();
    unowned.owner = Some(PersistedOwner { owner_epoch: 0, owner_instance_id: "o".to_owned() });
    assert!(open(&journal_with(unowned), "s").is_err());
    let in_flight = |sequence: u64, decoded: Result<Operation, String>| PersistedInFlight {
        owner_epoch: 2,
        owner_instance_id: "o".to_owned(),
        sequence,
        request: StoredRequest { frame: "f".to_owned(), decoded },
    };
    let mut held = valid();
    held.in_flight = Some(in_flight(1, Ok(Operation::ClaimTask)));
    assert!(open(&journal_with(held), "s").is_ok());
    let mut ahead = valid();
    ahead.in_flight = Some(in_flight(2, Ok(Operation::ClaimTask)));
    assert!(open(&journal_with(ahead), "s").is_err());
    let mut unreadable = valid();
    unreadable.in_flight = Some(in_flight(1, Err("not a request".to_owned())));
    assert!(open(&journal_with(unreadable), "s").is_err());
    let mut ownerless = PersistedSessionState::new(&session("s"));
    ownerless.in_flight = Some(in_flight(1, Ok(Operation::ClaimTask)));
    assert!(open(&journal_with(ownerless), "s").is_err());
}

#[test]
fn every_store_error_has_a_text() {
    for error in [
        ClientSessionStoreError::Io { context: "lock failed", source: "busy".to_owned() },
        ClientSessionStoreError::Protocol("p".to_owned()),
        ClientSessionStoreError::InvalidState("i".to_owned()),
        ClientSessionStoreError::StateAlreadyOwned,
        ClientSessionStoreError::OperationBlocked("b"),
        ClientSessionStoreError::SequenceExhausted,
    ] {
        assert!(!error.message().is_empty());
    }
    let io = ClientSessionStoreError::Io { context: "lock failed", source: "busy".to_owned() };
    assert_eq!(io.message(), "lock failed: busy");
}

#[test]
fn a_reopened_session_is_as_it_was_left() {
    let mut left = PersistedSessionState::new(&session("s"));
    left.owner = Some(PersistedOwner { owner_epoch: 4, owner_instance_id: "o".to_owned() });
    left.next_sequence = 7;
    left.pending_owner_acquisition =
        Some(PersistedOwner { owner_epoch: 4, owner_instance_id: "p".to_owned() });
    let journal = journal_with(left);
    let store = open(&journal, "s").ok().unwrap();
    assert_eq!(store.next_sequence().unwrap().get(), 7);
    assert_eq!(store.owner().unwrap().unwrap().owner_epoch().get(), 4);
    let pending = store.pending_owner_acquisition().unwrap().unwrap();
    assert_eq!(pending.owner_instance_id().as_str(), "p");
    assert!(store.in_flight().unwrap().is_none());
    assert!(matches!(
        open(&journal, "t").err().unwrap(),
        ClientSessionStoreError::InvalidState(_)
    ));
}

#[test]
fn a_session_in_use_or_unreadable_does_not_open() {
    let mut used = journal();
    used.in_use = true;
    assert_eq!(open(&used, "s").err().unwrap(), ClientSessionStoreError::StateAlreadyOwned);
    assert!(used.state.borrow().is_none());
    let mut unreadable = journal();
    unreadable.unreadable = true;
    assert_eq!(
        open(&unreadable, "s").err().unwrap(),
        ClientSessionStoreError::InvalidState("state JSON decode failed: {not-json".to_owned())
    );
}
