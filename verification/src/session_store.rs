//! Durable write-ahead state of one logical command session.
use crate::command_identity::{
    CommandIdentity, CommandIdentityError, CommandSequence, CommandSessionId, SessionOwnerEpoch,
    SessionOwnerInstanceId,
};
use crate::session_state::{
    acknowledged, begun, confirmed, expected_epoch, in_flight_failure, in_flight_identity,
    is_in_flight, opened, owner_failure, pending_view, released, reserved, validate_state,
    ClientSessionStoreError, DurableSessionOwner, OpeningView, OutgoingRequest, OwnerView,
    PendingOwnerAcquisition, PersistedSessionState, ReservedCommand, SessionStateView,
    StoreErrorView, StoredState,
};
use vstd::prelude::*;

verus! {

/// Durable place of one session state, owned by one process at a time.
pub trait SessionJournal: Sized {
    /// Take the exclusive ownership of the durable place: `false` if another process has it.
    fn lock(&mut self) -> Result<bool, ClientSessionStoreError>;

    /// What is durable.
    fn load(&mut self) -> Result<StoredState, ClientSessionStoreError>;

    /// Replace the durable state atomically.
    fn persist(&mut self, state: &PersistedSessionState) -> Result<(), ClientSessionStoreError>;
}

/// Write-ahead state of one logical command session.
pub struct DurableClientSessionStore<J: SessionJournal> {
    journal: J,
    session_id: CommandSessionId,
    state: PersistedSessionState,
}

impl<J: SessionJournal> DurableClientSessionStore<J> {
    pub closed spec fn spec_journal(&self) -> J {
        self.journal
    }

    pub closed spec fn spec_session(&self) -> Seq<char> {
        self.session_id@
    }

    pub closed spec fn spec_state(&self) -> SessionStateView {
        self.state@
    }

    /// Whether the state is a valid state of this session. Opening establishes it and every
    /// operation keeps it.
    pub open spec fn is_valid(&self) -> bool {
        self.spec_state().valid(self.spec_session())
    }

    /// Open the session in `journal`, or create it there.
    pub fn open_or_create(journal: J, session_id: CommandSessionId) -> (r: Result<
        Self,
        ClientSessionStoreError,
    >)
        ensures
            r matches Ok(store) ==> store.spec_session() == session_id@ && store.is_valid(),
            exists|locker: &mut J, locked: Result<bool, ClientSessionStoreError>|
                {
                    &&& *locker == journal
                    &&& #[trigger] call_ensures(J::lock, (locker,), locked)
                    &&& match locked {
                        Err(error) => r matches Err(failure) && failure@ == error@,
                        Ok(false) => r matches Err(failure) && opened(
                            OpeningView::InUse,
                            session_id@,
                        ) == Err::<SessionStateView, _>(failure@),
                        Ok(true) => exists|
                            reader: &mut J,
                            loaded: Result<StoredState, ClientSessionStoreError>,
                        |
                            {
                                &&& *reader == *final(locker)
                                &&& #[trigger] call_ensures(J::load, (reader,), loaded)
                                &&& match loaded {
                                    Err(error) => r matches Err(failure) && failure@ == error@,
                                    Ok(stored) => match opened(stored@, session_id@) {
                                        Err(expected) => r matches Err(failure) && failure@
                                            == expected,
                                        Ok(expected) => if stored is Missing {
                                            exists|
                                                writer: &mut J,
                                                state: PersistedSessionState,
                                                answer: Result<(), ClientSessionStoreError>,
                                            |
                                                {
                                                    &&& *writer == *final(reader)
                                                    &&& state@ == expected
                                                    &&& #[trigger] call_ensures(
                                                        J::persist,
                                                        (writer, &state),
                                                        answer,
                                                    )
                                                    &&& match answer {
                                                        Err(error) => r matches Err(failure)
                                                            && failure@ == error@,
                                                        Ok(_) => {
                                                            &&& r matches Ok(store)
                                                            &&& store.spec_state() == expected
                                                            &&& store.spec_journal()
                                                                == *final(writer)
                                                        },
                                                    }
                                                }
                                        } else {
                                            &&& r matches Ok(store)
                                            &&& store.spec_state() == expected
                                            &&& store.spec_journal() == *final(reader)
                                        },
                                    },
                                }
                            },
                    }
                },
    {
        let mut journal = journal;
        let locked = journal.lock();
        match locked {
            Ok(true) => {},
            Ok(false) => return Err(ClientSessionStoreError::StateAlreadyOwned),
            Err(error) => return Err(error),
        }
        let loaded = journal.load();
        match loaded {
            Err(error) => Err(error),
            Ok(StoredState::Decoded(state)) => {
                match validate_state(&state, &session_id) {
                    Ok(_) => {},
                    Err(error) => return Err(error),
                }
                Ok(DurableClientSessionStore { journal, session_id, state })
            },
            Ok(StoredState::Undecodable(error)) => {
                let message = "state JSON decode failed: ".to_owned().concat(error.as_str());
                Err(ClientSessionStoreError::InvalidState(message))
            },
            Ok(StoredState::Missing) => {
                let state = PersistedSessionState::new(&session_id);
                proof {
                    use_type_invariant(&session_id);
                }
                let answer = journal.persist(&state);
                match answer {
                    Err(error) => Err(error),
                    Ok(_) => Ok(DurableClientSessionStore { journal, session_id, state }),
                }
            },
        }
    }

    pub fn session_id(&self) -> (r: &CommandSessionId)
        ensures
            r@ == self.spec_session(),
    {
        &self.session_id
    }

    /// The journal that keeps the state.
    pub fn journal(&self) -> (r: &J)
        ensures
            *r == self.spec_journal(),
    {
        &self.journal
    }

    /// The sequence that the next command of the owner gets.
    pub fn next_sequence(&self) -> (r: Result<CommandSequence, ClientSessionStoreError>)
        ensures
            self.is_valid() ==> r is Ok,
            match r {
                Ok(sequence) => sequence@ == self.spec_state().next_sequence,
                Err(error) => self.spec_state().next_sequence == 0 && error@
                    == StoreErrorView::InvalidState(
                    CommandIdentityError::ZeroSequence.text(),
                ),
            },
    {
        match CommandSequence::new(self.state.next_sequence) {
            Ok(sequence) => Ok(sequence),
            Err(error) => Err(ClientSessionStoreError::InvalidState(error.message())),
        }
    }

    /// The confirmed owner, if an acquisition has completed.
    pub fn owner(&self) -> (r: Result<Option<DurableSessionOwner>, ClientSessionStoreError>)
        ensures
            self.is_valid() ==> r is Ok,
            match r {
                Ok(Some(owner)) => self.spec_state().owner == Some(owner@) && owner_failure(
                    self.spec_state().owner,
                ) is None,
                Ok(None) => self.spec_state().owner is None,
                Err(error) => owner_failure(self.spec_state().owner) == Some(error@),
            },
    {
        self.state.confirmed_owner()
    }

    /// The acquisition that must be retried with exactly these fields.
    pub fn pending_owner_acquisition(&self) -> (r: Result<
        Option<PendingOwnerAcquisition>,
        ClientSessionStoreError,
    >)
        ensures
            self.is_valid() ==> r is Ok,
            match r {
                Ok(Some(pending)) => self.spec_state().pending is Some && pending@ == pending_view(
                    self.spec_session(),
                    self.spec_state().pending->0,
                ) && owner_failure(self.spec_state().pending) is None,
                Ok(None) => self.spec_state().pending is None,
                Err(error) => owner_failure(self.spec_state().pending) == Some(error@),
            },
    {
        self.state.pending_acquisition(&self.session_id)
    }

    /// The command whose outcome is not known yet. The store never retries it on its own.
    pub fn in_flight(&self) -> (r: Result<Option<ReservedCommand>, ClientSessionStoreError>)
        ensures
            self.is_valid() ==> r is Ok,
            match r {
                Ok(Some(command)) => self.spec_state().in_flight is Some && in_flight_failure(
                    self.spec_state().in_flight,
                ) is None && is_in_flight(
                    command@,
                    self.spec_session(),
                    self.spec_state().in_flight->0,
                ),
                Ok(None) => self.spec_state().in_flight is None,
                Err(error) => in_flight_failure(self.spec_state().in_flight) == Some(error@),
            },
    {
        self.state.reserved_command(&self.session_id)
    }

    /// Make `next` durable and adopt it. Nothing changes here when the journal fails.
    fn commit_state(&mut self, next: PersistedSessionState) -> (r: Result<
        (),
        ClientSessionStoreError,
    >)
        ensures
            final(self).spec_session() == old(self).spec_session(),
            exists|journal: &mut J|
                {
                    &&& *journal == old(self).spec_journal()
                    &&& *final(journal) == final(self).spec_journal()
                    &&& #[trigger] call_ensures(J::persist, (journal, &next), r)
                },
            match r {
                Ok(_) => final(self).spec_state() == next@,
                Err(_) => final(self).spec_state() == old(self).spec_state(),
            },
    {
        let answer = self.journal.persist(&next);
        if answer.is_ok() {
            self.state = next;
        }
        answer
    }

    /// Reserve an owner acquisition durably before any network send.
    pub fn begin_owner_acquisition(
        &mut self,
        owner_instance_id: SessionOwnerInstanceId,
    ) -> (r: Result<PendingOwnerAcquisition, ClientSessionStoreError>)
        ensures
            final(self).spec_session() == old(self).spec_session(),
            old(self).is_valid() ==> final(self).is_valid(),
            match begun(old(self).spec_state(), old(self).spec_session(), owner_instance_id@) {
                Err(failure) => *final(self) == *old(self) && (r matches Err(error) && error@
                    == failure),
                Ok(next) => exists|
                    journal: &mut J,
                    state: PersistedSessionState,
                    answer: Result<(), ClientSessionStoreError>,
                |
                    {
                        &&& *journal == old(self).spec_journal()
                        &&& *final(journal) == final(self).spec_journal()
                        &&& state@ == next
                        &&& #[trigger] call_ensures(J::persist, (journal, &state), answer)
                        &&& match answer {
                            Ok(_) => final(self).spec_state() == next && (r matches Ok(pending)
                                && pending@ == pending_view(
                                old(self).spec_session(),
                                OwnerView {
                                    owner_epoch: expected_epoch(old(self).spec_state()),
                                    owner_instance_id: owner_instance_id@,
                                },
                            )),
                            Err(error) => final(self).spec_state() == old(self).spec_state()
                                && r == Err::<PendingOwnerAcquisition, _>(error),
                        }
                    },
            },
    {
        let (next, pending) = self.state.begin(&self.session_id, owner_instance_id)?;
        let answer = self.commit_state(next);
        match answer {
            Ok(_) => Ok(pending),
            Err(error) => Err(error),
        }
    }

    /// Adopt the owner epoch with which the Broker confirmed the pending acquisition.
    pub fn confirm_owner_acquisition(&mut self, owner_epoch: SessionOwnerEpoch) -> (r: Result<
        DurableSessionOwner,
        ClientSessionStoreError,
    >)
        ensures
            final(self).spec_session() == old(self).spec_session(),
            old(self).is_valid() ==> final(self).is_valid(),
            match confirmed(old(self).spec_state(), old(self).spec_session(), owner_epoch@) {
                Err(failure) => *final(self) == *old(self) && (r matches Err(error) && error@
                    == failure),
                Ok(next) => exists|
                    journal: &mut J,
                    state: PersistedSessionState,
                    answer: Result<(), ClientSessionStoreError>,
                |
                    {
                        &&& *journal == old(self).spec_journal()
                        &&& *final(journal) == final(self).spec_journal()
                        &&& state@ == next
                        &&& #[trigger] call_ensures(J::persist, (journal, &state), answer)
                        &&& match answer {
                            Ok(_) => final(self).spec_state() == next && (r matches Ok(owner)
                                && next.owner == Some(owner@)),
                            Err(error) => final(self).spec_state() == old(self).spec_state()
                                && r == Err::<DurableSessionOwner, _>(error),
                        }
                    },
            },
    {
        let (next, owner) = self.state.confirm(&self.session_id, owner_epoch)?;
        let answer = self.commit_state(next);
        match answer {
            Ok(_) => Ok(owner),
            Err(error) => Err(error),
        }
    }

    /// Reserve one mutation durably before it may be sent to the Broker.
    pub fn reserve_command(&mut self, request: OutgoingRequest) -> (r: Result<
        ReservedCommand,
        ClientSessionStoreError,
    >)
        ensures
            final(self).spec_session() == old(self).spec_session(),
            old(self).is_valid() ==> final(self).is_valid(),
            match reserved(old(self).spec_state(), old(self).spec_session(), request) {
                Err(failure) => *final(self) == *old(self) && (r matches Err(error) && error@
                    == failure),
                Ok(next) => exists|
                    journal: &mut J,
                    state: PersistedSessionState,
                    answer: Result<(), ClientSessionStoreError>,
                |
                    {
                        &&& *journal == old(self).spec_journal()
                        &&& *final(journal) == final(self).spec_journal()
                        &&& state@ == next
                        &&& #[trigger] call_ensures(J::persist, (journal, &state), answer)
                        &&& match answer {
                            Ok(_) => final(self).spec_state() == next && (r matches Ok(command)
                                && command@.identity == in_flight_identity(
                                old(self).spec_session(),
                                next.in_flight->0,
                            ) && command@.operation == request.operation && command@.frame
                                == next.in_flight->0.frame),
                            Err(error) => final(self).spec_state() == old(self).spec_state()
                                && r == Err::<ReservedCommand, _>(error),
                        }
                    },
            },
    {
        let (next, command) = self.state.reserve(&self.session_id, request)?;
        let answer = self.commit_state(next);
        match answer {
            Ok(_) => Ok(command),
            Err(error) => Err(error),
        }
    }

    /// Acknowledge a definitive outcome of the command in flight. The sequence advances durably
    /// before another command can be reserved.
    pub fn acknowledge_in_flight_outcome(&mut self, identity: &CommandIdentity) -> (r: Result<
        (),
        ClientSessionStoreError,
    >)
        ensures
            final(self).spec_session() == old(self).spec_session(),
            old(self).is_valid() ==> final(self).is_valid(),
            match acknowledged(old(self).spec_state(), old(self).spec_session(), identity@) {
                Err(failure) => *final(self) == *old(self) && (r matches Err(error) && error@
                    == failure),
                Ok(next) => final(self).spec_state() == (if r is Ok {
                    next
                } else {
                    old(self).spec_state()
                }) && exists|journal: &mut J, state: PersistedSessionState|
                    {
                        &&& *journal == old(self).spec_journal()
                        &&& *final(journal) == final(self).spec_journal()
                        &&& state@ == next
                        &&& #[trigger] call_ensures(J::persist, (journal, &state), r)
                    },
            },
    {
        let next = self.state.acknowledge(&self.session_id, identity)?;
        self.commit_state(next)
    }

    /// Release the command in flight after the Broker rejected it before it was stored. The
    /// sequence is not consumed. An unknown outcome must never be released.
    pub fn release_rejected_in_flight(&mut self, identity: &CommandIdentity) -> (r: Result<
        (),
        ClientSessionStoreError,
    >)
        ensures
            final(self).spec_session() == old(self).spec_session(),
            old(self).is_valid() ==> final(self).is_valid(),
            match released(old(self).spec_state(), old(self).spec_session(), identity@) {
                Err(failure) => *final(self) == *old(self) && (r matches Err(error) && error@
                    == failure),
                Ok(next) => final(self).spec_state() == (if r is Ok {
                    next
                } else {
                    old(self).spec_state()
                }) && exists|journal: &mut J, state: PersistedSessionState|
                    {
                        &&& *journal == old(self).spec_journal()
                        &&& *final(journal) == final(self).spec_journal()
                        &&& state@ == next
                        &&& #[trigger] call_ensures(J::persist, (journal, &state), r)
                    },
            },
    {
        let next = self.state.release(&self.session_id, identity)?;
        self.commit_state(next)
    }
}

} // verus!
