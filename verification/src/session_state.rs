//! Crash-recoverable local state of one owner-aware command session.
use crate::command_identity::{
    CommandIdentity, CommandIdentityError, CommandSequence, CommandSessionId, IdentityView,
    SessionOwnerEpoch, SessionOwnerInstanceId,
};
use crate::protocol::Operation;
use crate::text::{decimal, push_decimal};
use vstd::prelude::*;

verus! {

/// Version of the persisted session state.
pub const SESSION_STORE_VERSION: u32 = 1;

/// Failure of the durable local command-session state.
#[derive(Debug, PartialEq, Eq)]
pub enum ClientSessionStoreError {
    Io { context: &'static str, source: String },
    Protocol(String),
    InvalidState(String),
    StateAlreadyOwned,
    OperationBlocked(&'static str),
    SequenceExhausted,
}

/// The plain values of a store failure.
pub enum StoreErrorView {
    Io { context: Seq<char>, source: Seq<char> },
    Protocol(Seq<char>),
    InvalidState(Seq<char>),
    StateAlreadyOwned,
    OperationBlocked(Seq<char>),
    SequenceExhausted,
}

impl View for ClientSessionStoreError {
    type V = StoreErrorView;

    open spec fn view(&self) -> StoreErrorView {
        match self {
            ClientSessionStoreError::Io { context, source } => StoreErrorView::Io {
                context: context@,
                source: source@,
            },
            ClientSessionStoreError::Protocol(message) => StoreErrorView::Protocol(message@),
            ClientSessionStoreError::InvalidState(message) => StoreErrorView::InvalidState(
                message@,
            ),
            ClientSessionStoreError::StateAlreadyOwned => StoreErrorView::StateAlreadyOwned,
            ClientSessionStoreError::OperationBlocked(message) => {
                StoreErrorView::OperationBlocked(message@)
            },
            ClientSessionStoreError::SequenceExhausted => StoreErrorView::SequenceExhausted,
        }
    }
}

impl StoreErrorView {
    /// The text of a store failure.
    pub open spec fn text(self) -> Seq<char> {
        match self {
            StoreErrorView::Io { context, source } => context + ": "@ + source,
            StoreErrorView::Protocol(message) => message,
            StoreErrorView::InvalidState(message) => "invalid client session state: "@ + message,
            StoreErrorView::StateAlreadyOwned => {
                "client session state is already owned by another process"@
            },
            StoreErrorView::OperationBlocked(message) => message,
            StoreErrorView::SequenceExhausted => "client command sequence is exhausted"@,
        }
    }
}

impl ClientSessionStoreError {
    /// Render the failure for people.
    pub fn message(&self) -> (r: String)
        ensures
            r@ == self@.text(),
    {
        match self {
            ClientSessionStoreError::Io { context, source } => {
                (*context).to_owned().concat(": ").concat(source.as_str())
            },
            ClientSessionStoreError::Protocol(message) => message.clone(),
            ClientSessionStoreError::InvalidState(message) => {
                "invalid client session state: ".to_owned().concat(message.as_str())
            },
            ClientSessionStoreError::StateAlreadyOwned => {
                "client session state is already owned by another process".to_owned()
            },
            ClientSessionStoreError::OperationBlocked(message) => (*message).to_owned(),
            ClientSessionStoreError::SequenceExhausted => {
                "client command sequence is exhausted".to_owned()
            },
        }
    }
}

fn invalid_state(message: &str) -> (r: ClientSessionStoreError)
    ensures
        r@ == StoreErrorView::InvalidState(message@),
{
    ClientSessionStoreError::InvalidState(message.to_owned())
}

fn invalid_identity(error: CommandIdentityError) -> (r: ClientSessionStoreError)
    ensures
        r@ == StoreErrorView::InvalidState(error.text()),
{
    ClientSessionStoreError::InvalidState(error.message())
}

/// A persisted owner: its epoch and its instance. A pending acquisition persists the expected epoch
/// and the instance that acquires.
#[derive(Debug, PartialEq, Eq)]
pub struct PersistedOwner {
    pub owner_epoch: u64,
    pub owner_instance_id: String,
}

/// A persisted request frame and what the protocol codec reads from it.
#[derive(Debug, PartialEq, Eq)]
pub struct StoredRequest {
    pub frame: String,
    pub decoded: Result<Operation, String>,
}

/// A persisted command whose outcome is not known yet.
#[derive(Debug, PartialEq, Eq)]
pub struct PersistedInFlight {
    pub owner_epoch: u64,
    pub owner_instance_id: String,
    pub sequence: u64,
    pub request: StoredRequest,
}

/// The persisted state of one session.
#[derive(Debug, PartialEq, Eq)]
pub struct PersistedSessionState {
    pub version: u32,
    pub session_id: String,
    pub owner: Option<PersistedOwner>,
    pub pending_owner_acquisition: Option<PersistedOwner>,
    pub next_sequence: u64,
    pub in_flight: Option<PersistedInFlight>,
}

/// The plain values of a persisted owner.
pub struct OwnerView {
    pub owner_epoch: u64,
    pub owner_instance_id: Seq<char>,
}

/// The plain values of a persisted command in flight.
pub struct InFlightView {
    pub owner_epoch: u64,
    pub owner_instance_id: Seq<char>,
    pub sequence: u64,
    pub frame: Seq<char>,
    pub decoded: Result<Operation, Seq<char>>,
}

/// The plain values of a persisted session state.
pub struct SessionStateView {
    pub version: u32,
    pub session_id: Seq<char>,
    pub owner: Option<OwnerView>,
    pub pending: Option<OwnerView>,
    pub next_sequence: u64,
    pub in_flight: Option<InFlightView>,
}

impl View for PersistedOwner {
    type V = OwnerView;

    open spec fn view(&self) -> OwnerView {
        OwnerView { owner_epoch: self.owner_epoch, owner_instance_id: self.owner_instance_id@ }
    }
}

impl View for PersistedInFlight {
    type V = InFlightView;

    open spec fn view(&self) -> InFlightView {
        InFlightView {
            owner_epoch: self.owner_epoch,
            owner_instance_id: self.owner_instance_id@,
            sequence: self.sequence,
            frame: self.request.frame@,
            decoded: match self.request.decoded {
                Ok(operation) => Ok(operation),
                Err(message) => Err(message@),
            },
        }
    }
}

/// The plain values of an optional persisted owner.
pub open spec fn optional_owner(owner: Option<PersistedOwner>) -> Option<OwnerView> {
    match owner {
        Some(value) => Some(value@),
        None => None,
    }
}

impl View for PersistedSessionState {
    type V = SessionStateView;

    open spec fn view(&self) -> SessionStateView {
        SessionStateView {
            version: self.version,
            session_id: self.session_id@,
            owner: optional_owner(self.owner),
            pending: optional_owner(self.pending_owner_acquisition),
            next_sequence: self.next_sequence,
            in_flight: match self.in_flight {
                Some(value) => Some(value@),
                None => None,
            },
        }
    }
}

/// What is durable of a session.
#[derive(Debug, PartialEq, Eq)]
pub enum StoredState {
    /// Nothing was ever written.
    Missing,
    /// Bytes that are no state, and why they are none.
    Undecodable(String),
    /// A state, valid or not.
    Decoded(PersistedSessionState),
}

/// What is found when a session is opened.
pub enum OpeningView {
    /// Another process owns the state.
    InUse,
    /// Nothing was ever written.
    Missing,
    /// Bytes that are no state, and why they are none.
    Undecodable(Seq<char>),
    /// A state, valid or not.
    Decoded(SessionStateView),
}

impl View for StoredState {
    type V = OpeningView;

    open spec fn view(&self) -> OpeningView {
        match self {
            StoredState::Missing => OpeningView::Missing,
            StoredState::Undecodable(error) => OpeningView::Undecodable(error@),
            StoredState::Decoded(state) => OpeningView::Decoded(state@),
        }
    }
}

fn clone_owner(owner: &Option<PersistedOwner>) -> (r: Option<PersistedOwner>)
    ensures
        optional_owner(r) == optional_owner(*owner),
{
    match owner {
        Some(value) => Some(
            PersistedOwner {
                owner_epoch: value.owner_epoch,
                owner_instance_id: value.owner_instance_id.clone(),
            },
        ),
        None => None,
    }
}

impl Clone for StoredRequest {
    fn clone(&self) -> (r: Self)
        ensures
            r == *self,
    {
        StoredRequest {
            frame: self.frame.clone(),
            decoded: match &self.decoded {
                Ok(operation) => Ok(*operation),
                Err(message) => Err(message.clone()),
            },
        }
    }
}

impl Clone for PersistedSessionState {
    fn clone(&self) -> (r: Self)
        ensures
            r@ == self@,
    {
        PersistedSessionState {
            version: self.version,
            session_id: self.session_id.clone(),
            owner: clone_owner(&self.owner),
            pending_owner_acquisition: clone_owner(&self.pending_owner_acquisition),
            next_sequence: self.next_sequence,
            in_flight: match &self.in_flight {
                Some(value) => Some(
                    PersistedInFlight {
                        owner_epoch: value.owner_epoch,
                        owner_instance_id: value.owner_instance_id.clone(),
                        sequence: value.sequence,
                        request: value.request.clone(),
                    },
                ),
                None => None,
            },
        }
    }
}

impl PersistedSessionState {
    /// The state of a session that no one owns yet.
    pub fn new(session_id: &CommandSessionId) -> (r: Self)
        ensures
            r@ == SessionStateView::fresh(session_id@),
    {
        PersistedSessionState {
            version: SESSION_STORE_VERSION,
            session_id: session_id.as_str().to_owned(),
            owner: None,
            pending_owner_acquisition: None,
            next_sequence: 1,
            in_flight: None,
        }
    }
}

impl SessionStateView {
    /// The state of a session that no one owns yet.
    pub open spec fn fresh(session_id: Seq<char>) -> SessionStateView {
        SessionStateView {
            version: SESSION_STORE_VERSION,
            session_id,
            owner: None,
            pending: None,
            next_sequence: 1,
            in_flight: None,
        }
    }

    /// Whether this is a valid state of session `session_id`.
    pub open spec fn valid(self, session_id: Seq<char>) -> bool {
        state_failure(self, session_id) is None
    }
}

/// The first of two failures.
pub open spec fn first_failure(
    first: Option<StoreErrorView>,
    second: Option<StoreErrorView>,
) -> Option<StoreErrorView> {
    match first {
        Some(failure) => Some(failure),
        None => second,
    }
}

/// Why plain values are no owner, or `None` if they are one.
pub open spec fn owner_failure(owner: Option<OwnerView>) -> Option<StoreErrorView> {
    match owner {
        None => None,
        Some(value) => if value.owner_epoch == 0 {
            Some(StoreErrorView::InvalidState(CommandIdentityError::ZeroOwnerEpoch.text()))
        } else {
            match SessionOwnerInstanceId::flaw(value.owner_instance_id) {
                Some(reason) => Some(
                    StoreErrorView::InvalidState(
                        "invalid command_session_owner_instance_id: "@ + reason,
                    ),
                ),
                None => None,
            }
        },
    }
}

/// Why plain values are no command in flight, or `None` if they are one.
pub open spec fn in_flight_failure(in_flight: Option<InFlightView>) -> Option<StoreErrorView> {
    match in_flight {
        None => None,
        Some(value) => first_failure(
            owner_failure(
                Some(
                    OwnerView {
                        owner_epoch: value.owner_epoch,
                        owner_instance_id: value.owner_instance_id,
                    },
                ),
            ),
            if value.sequence == 0 {
                Some(StoreErrorView::InvalidState(CommandIdentityError::ZeroSequence.text()))
            } else {
                match value.decoded {
                    Err(message) => Some(StoreErrorView::Protocol(message)),
                    Ok(operation) => if operation == Operation::Health {
                        Some(
                            StoreErrorView::InvalidState(
                                "in-flight durable command cannot be health"@,
                            ),
                        )
                    } else {
                        None
                    },
                }
            },
        ),
    }
}

/// Why the parts of a state do not fit together, or `None` if they do.
pub open spec fn relationship_failure(state: SessionStateView) -> Option<StoreErrorView> {
    if state.pending is Some && state.in_flight is Some {
        Some(
            StoreErrorView::InvalidState(
                "owner acquisition and command cannot both be in flight"@,
            ),
        )
    } else if state.owner is None && state.next_sequence != 1 {
        Some(StoreErrorView::InvalidState("unowned session must keep next_sequence at 1"@))
    } else {
        match (state.owner, state.in_flight) {
            (Some(owner), Some(in_flight)) => if in_flight.owner_epoch != owner.owner_epoch
                || in_flight.owner_instance_id != owner.owner_instance_id || in_flight.sequence
                != state.next_sequence {
                Some(
                    StoreErrorView::InvalidState(
                        "in-flight command identity does not match durable owner/next sequence"@,
                    ),
                )
            } else {
                None
            },
            (None, Some(_)) => Some(
                StoreErrorView::InvalidState("in-flight command requires a confirmed owner"@),
            ),
            _ => None,
        }
    }
}

/// Why a persisted state is not a valid state of session `expected`, or `None` if it is.
pub open spec fn state_failure(state: SessionStateView, expected: Seq<char>) -> Option<
    StoreErrorView,
> {
    if state.version != SESSION_STORE_VERSION {
        Some(StoreErrorView::InvalidState("unsupported version "@ + decimal(state.version as nat)))
    } else {
        match CommandSessionId::flaw(state.session_id) {
            Some(reason) => Some(
                StoreErrorView::InvalidState("invalid command_session_id: "@ + reason),
            ),
            None => if state.session_id != expected {
                Some(
                    StoreErrorView::InvalidState(
                        "session id mismatch: expected "@ + expected + ", found "@
                            + state.session_id,
                    ),
                )
            } else if state.next_sequence == 0 {
                Some(StoreErrorView::InvalidState(CommandIdentityError::ZeroSequence.text()))
            } else {
                first_failure(
                    owner_failure(state.owner),
                    first_failure(
                        owner_failure(state.pending),
                        first_failure(
                            in_flight_failure(state.in_flight),
                            relationship_failure(state),
                        ),
                    ),
                )
            },
        }
    }
}

/// A confirmed owner of a session.
#[derive(Debug, PartialEq, Eq)]
pub struct DurableSessionOwner {
    owner_epoch: SessionOwnerEpoch,
    owner_instance_id: SessionOwnerInstanceId,
}

impl View for DurableSessionOwner {
    type V = OwnerView;

    closed spec fn view(&self) -> OwnerView {
        OwnerView {
            owner_epoch: self.owner_epoch@,
            owner_instance_id: self.owner_instance_id@,
        }
    }
}

impl DurableSessionOwner {
    pub fn owner_epoch(&self) -> (r: SessionOwnerEpoch)
        ensures
            r@ == self@.owner_epoch,
    {
        self.owner_epoch
    }

    pub fn owner_instance_id(&self) -> (r: &SessionOwnerInstanceId)
        ensures
            r@ == self@.owner_instance_id,
    {
        &self.owner_instance_id
    }
}

/// An owner acquisition that was reserved durably before any network send.
#[derive(Debug, PartialEq, Eq)]
pub struct PendingOwnerAcquisition {
    session_id: CommandSessionId,
    expected_owner_epoch: SessionOwnerEpoch,
    owner_instance_id: SessionOwnerInstanceId,
}

/// The plain values of a pending acquisition.
pub struct PendingView {
    pub session_id: Seq<char>,
    pub expected_owner_epoch: u64,
    pub owner_instance_id: Seq<char>,
}

impl View for PendingOwnerAcquisition {
    type V = PendingView;

    closed spec fn view(&self) -> PendingView {
        PendingView {
            session_id: self.session_id@,
            expected_owner_epoch: self.expected_owner_epoch@,
            owner_instance_id: self.owner_instance_id@,
        }
    }
}

impl PendingOwnerAcquisition {
    pub fn session_id(&self) -> (r: &CommandSessionId)
        ensures
            r@ == self@.session_id,
    {
        &self.session_id
    }

    pub fn expected_owner_epoch(&self) -> (r: SessionOwnerEpoch)
        ensures
            r@ == self@.expected_owner_epoch,
    {
        self.expected_owner_epoch
    }

    pub fn owner_instance_id(&self) -> (r: &SessionOwnerInstanceId)
        ensures
            r@ == self@.owner_instance_id,
    {
        &self.owner_instance_id
    }
}

/// The exact identity and request frame of a mutation that was reserved durably.
#[derive(Debug, PartialEq, Eq)]
pub struct ReservedCommand {
    identity: CommandIdentity,
    operation: Operation,
    frame: String,
}

/// The plain values of a reserved command.
pub struct ReservedView {
    pub identity: IdentityView,
    pub operation: Operation,
    pub frame: Seq<char>,
}

impl View for ReservedCommand {
    type V = ReservedView;

    closed spec fn view(&self) -> ReservedView {
        ReservedView {
            identity: self.identity@,
            operation: self.operation,
            frame: self.frame@,
        }
    }
}

impl ReservedCommand {
    pub closed spec fn spec_identity(&self) -> CommandIdentity {
        self.identity
    }

    pub fn identity(&self) -> (r: &CommandIdentity)
        ensures
            *r == self.spec_identity(),
            r@ == self@.identity,
    {
        &self.identity
    }

    pub fn operation(&self) -> (r: Operation)
        ensures
            r == self@.operation,
    {
        self.operation
    }

    /// The encoded request.
    pub fn request(&self) -> (r: &str)
        ensures
            r@ == self@.frame,
    {
        self.frame.as_str()
    }
}

fn decode_owner(owner: &PersistedOwner) -> (r: Result<DurableSessionOwner, ClientSessionStoreError>)
    ensures
        match r {
            Ok(value) => value@ == owner@ && owner_failure(Some(owner@)) is None,
            Err(error) => owner_failure(Some(owner@)) == Some(error@),
        },
{
    let owner_epoch = match SessionOwnerEpoch::new(owner.owner_epoch) {
        Ok(owner_epoch) => owner_epoch,
        Err(error) => return Err(invalid_identity(error)),
    };
    match SessionOwnerInstanceId::new(owner.owner_instance_id.as_str()) {
        Ok(owner_instance_id) => Ok(DurableSessionOwner { owner_epoch, owner_instance_id }),
        Err(error) => Err(invalid_identity(error)),
    }
}

fn decode_pending(
    session_id: &CommandSessionId,
    pending: &PersistedOwner,
) -> (r: Result<PendingOwnerAcquisition, ClientSessionStoreError>)
    ensures
        match r {
            Ok(value) => value@ == (PendingView {
                session_id: session_id@,
                expected_owner_epoch: pending@.owner_epoch,
                owner_instance_id: pending@.owner_instance_id,
            }) && owner_failure(Some(pending@)) is None,
            Err(error) => owner_failure(Some(pending@)) == Some(error@),
        },
{
    match decode_owner(pending) {
        Ok(owner) => Ok(
            PendingOwnerAcquisition {
                session_id: session_id.clone(),
                expected_owner_epoch: owner.owner_epoch,
                owner_instance_id: owner.owner_instance_id,
            },
        ),
        Err(error) => Err(error),
    }
}

/// The identity of a command in flight in session `session_id`.
pub open spec fn in_flight_identity(
    session_id: Seq<char>,
    in_flight: InFlightView,
) -> IdentityView {
    IdentityView {
        session_id,
        owner_epoch: in_flight.owner_epoch,
        owner_instance_id: Some(in_flight.owner_instance_id),
        sequence: in_flight.sequence,
    }
}

/// Whether a reserved command is the command in flight of a state.
pub open spec fn is_in_flight(
    command: ReservedView,
    session_id: Seq<char>,
    in_flight: InFlightView,
) -> bool {
    &&& command.identity == in_flight_identity(session_id, in_flight)
    &&& command.frame == in_flight.frame
    &&& in_flight.decoded == Ok::<Operation, Seq<char>>(command.operation)
}

fn decode_in_flight(session_id: &CommandSessionId, in_flight: &PersistedInFlight) -> (r: Result<
    ReservedCommand,
    ClientSessionStoreError,
>)
    ensures
        match r {
            Ok(command) => in_flight_failure(Some(in_flight@)) is None && is_in_flight(
                command@,
                session_id@,
                in_flight@,
            ),
            Err(error) => in_flight_failure(Some(in_flight@)) == Some(error@),
        },
{
    let owner_epoch = match SessionOwnerEpoch::new(in_flight.owner_epoch) {
        Ok(owner_epoch) => owner_epoch,
        Err(error) => return Err(invalid_identity(error)),
    };
    let owner_instance_id = match SessionOwnerInstanceId::new(
        in_flight.owner_instance_id.as_str(),
    ) {
        Ok(owner_instance_id) => owner_instance_id,
        Err(error) => return Err(invalid_identity(error)),
    };
    let sequence = match CommandSequence::new(in_flight.sequence) {
        Ok(sequence) => sequence,
        Err(error) => return Err(invalid_identity(error)),
    };
    match &in_flight.request.decoded {
        Err(message) => Err(ClientSessionStoreError::Protocol(message.clone())),
        Ok(operation) => {
            if *operation == Operation::Health {
                return Err(invalid_state("in-flight durable command cannot be health"));
            }
            Ok(
                ReservedCommand {
                    identity: CommandIdentity::new_with_owner(
                        session_id.clone(),
                        owner_epoch,
                        owner_instance_id,
                        sequence,
                    ),
                    operation: *operation,
                    frame: in_flight.request.frame.clone(),
                },
            )
        },
    }
}

/// Check that the parts of a state fit together.
fn validate_state_relationships(state: &PersistedSessionState) -> (r: Result<
    (),
    ClientSessionStoreError,
>)
    ensures
        match r {
            Ok(_) => relationship_failure(state@) is None,
            Err(error) => relationship_failure(state@) == Some(error@),
        },
{
    if state.pending_owner_acquisition.is_some() && state.in_flight.is_some() {
        return Err(invalid_state("owner acquisition and command cannot both be in flight"));
    }
    if state.owner.is_none() && state.next_sequence != 1 {
        return Err(invalid_state("unowned session must keep next_sequence at 1"));
    }
    match (&state.owner, &state.in_flight) {
        (Some(owner), Some(in_flight)) => {
            if in_flight.owner_epoch != owner.owner_epoch || in_flight.owner_instance_id
                != owner.owner_instance_id || in_flight.sequence != state.next_sequence {
                return Err(
                    invalid_state(
                        "in-flight command identity does not match durable owner/next sequence",
                    ),
                );
            }
            Ok(())
        },
        (None, Some(_)) => Err(invalid_state("in-flight command requires a confirmed owner")),
        _ => Ok(()),
    }
}

/// Check that a persisted state is a valid state of session `expected`.
pub fn validate_state(state: &PersistedSessionState, expected: &CommandSessionId) -> (r: Result<
    (),
    ClientSessionStoreError,
>)
    ensures
        match r {
            Ok(_) => state_failure(state@, expected@) is None,
            Err(error) => state_failure(state@, expected@) == Some(error@),
        },
{
    if state.version != SESSION_STORE_VERSION {
        let mut message = "unsupported version ".to_owned();
        push_decimal(&mut message, state.version as u64);
        return Err(ClientSessionStoreError::InvalidState(message));
    }
    let stored = match CommandSessionId::new(state.session_id.as_str()) {
        Ok(stored) => stored,
        Err(error) => return Err(invalid_identity(error)),
    };
    if !stored.same_as(expected) {
        let mut message = "session id mismatch: expected ".to_owned();
        message.append(expected.as_str());
        message.append(", found ");
        message.append(state.session_id.as_str());
        return Err(ClientSessionStoreError::InvalidState(message));
    }
    match CommandSequence::new(state.next_sequence) {
        Ok(_) => {},
        Err(error) => return Err(invalid_identity(error)),
    }
    match &state.owner {
        Some(owner) => match decode_owner(owner) {
            Ok(_) => {},
            Err(error) => return Err(error),
        },
        None => {},
    }
    match &state.pending_owner_acquisition {
        Some(pending) => match decode_pending(expected, pending) {
            Ok(_) => {},
            Err(error) => return Err(error),
        },
        None => {},
    }
    match &state.in_flight {
        Some(in_flight) => match decode_in_flight(expected, in_flight) {
            Ok(_) => {},
            Err(error) => return Err(error),
        },
        None => {},
    }
    validate_state_relationships(state)
}

/// Whether the Broker may answer an acquisition that expected `expected` with `actual`: a confirmed
/// owner is replaced at exactly the next epoch, a first owner gets the expected or the next one.
pub open spec fn epoch_may_follow(expected: u64, actual: u64, replacing: bool) -> bool {
    actual == expected + 1 || (!replacing && actual == expected)
}

/// The text for an epoch that cannot answer an acquisition.
pub open spec fn wrong_epoch_text(expected: u64, actual: u64) -> Seq<char> {
    "Broker returned owner epoch "@ + decimal(actual as nat) + " for expected epoch "@ + decimal(
        expected as nat,
    )
}

/// Check the epoch with which the Broker answers an acquisition.
fn validate_acquired_epoch(
    expected: SessionOwnerEpoch,
    actual: SessionOwnerEpoch,
    replacing_confirmed_owner: bool,
) -> (r: Result<(), ClientSessionStoreError>)
    ensures
        match r {
            Ok(_) => epoch_may_follow(expected@, actual@, replacing_confirmed_owner),
            Err(error) => !epoch_may_follow(expected@, actual@, replacing_confirmed_owner)
                && error@ == StoreErrorView::InvalidState(wrong_epoch_text(expected@, actual@)),
        },
{
    let advanced = expected.get() < u64::MAX && actual.get() == expected.get() + 1;
    if advanced || (!replacing_confirmed_owner && actual.get() == expected.get()) {
        return Ok(());
    }
    let mut message = "Broker returned owner epoch ".to_owned();
    push_decimal(&mut message, actual.get());
    message.append(" for expected epoch ");
    push_decimal(&mut message, expected.get());
    Err(ClientSessionStoreError::InvalidState(message))
}

/// A state that was validated before it is made durable.
pub open spec fn checked_state(next: SessionStateView, session_id: Seq<char>) -> Result<
    SessionStateView,
    StoreErrorView,
> {
    match state_failure(next, session_id) {
        Some(failure) => Err(failure),
        None => Ok(next),
    }
}

/// The state in which session `session_id` opens where `found` is found, or why it does not open.
pub open spec fn opened(found: OpeningView, session_id: Seq<char>) -> Result<
    SessionStateView,
    StoreErrorView,
> {
    match found {
        OpeningView::InUse => Err(StoreErrorView::StateAlreadyOwned),
        OpeningView::Missing => Ok(SessionStateView::fresh(session_id)),
        OpeningView::Undecodable(error) => Err(
            StoreErrorView::InvalidState("state JSON decode failed: "@ + error),
        ),
        OpeningView::Decoded(state) => checked_state(state, session_id),
    }
}

/// The owner epoch that the next acquisition expects.
pub open spec fn expected_epoch(state: SessionStateView) -> u64 {
    match state.owner {
        Some(owner) => owner.owner_epoch,
        None => 1,
    }
}

/// The state after instance `instance` has begun an acquisition, or why it cannot.
pub open spec fn begun(
    state: SessionStateView,
    session_id: Seq<char>,
    instance: Seq<char>,
) -> Result<
    SessionStateView,
    StoreErrorView,
> {
    if state.in_flight is Some {
        Err(
            StoreErrorView::OperationBlocked(
                "cannot acquire a new session owner while an in-flight command is unresolved"@,
            ),
        )
    } else if state.pending is Some {
        Err(StoreErrorView::OperationBlocked("session owner acquisition is already pending"@))
    } else {
        match owner_failure(state.owner) {
            Some(failure) => Err(failure),
            None => if state.owner is Some && state.owner->0.owner_instance_id == instance {
                Err(
                    StoreErrorView::OperationBlocked(
                        "confirmed owner instance must continue its current sequence domain instead of reacquiring ownership"@,
                    ),
                )
            } else {
                checked_state(
                    SessionStateView {
                        pending: Some(
                            OwnerView {
                                owner_epoch: expected_epoch(state),
                                owner_instance_id: instance,
                            },
                        ),
                        ..state
                    },
                    session_id,
                )
            },
        }
    }
}

/// The state after the Broker confirmed the pending acquisition at `owner_epoch`, or why it cannot
/// be confirmed.
pub open spec fn confirmed(
    state: SessionStateView,
    session_id: Seq<char>,
    owner_epoch: u64,
) -> Result<SessionStateView, StoreErrorView> {
    match state.pending {
        None => Err(
            StoreErrorView::InvalidState(
                "owner acquisition response received without a durable pending acquisition"@,
            ),
        ),
        Some(pending) => match owner_failure(Some(pending)) {
            Some(failure) => Err(failure),
            None => if !epoch_may_follow(pending.owner_epoch, owner_epoch, state.owner is Some) {
                Err(
                    StoreErrorView::InvalidState(
                        wrong_epoch_text(pending.owner_epoch, owner_epoch),
                    ),
                )
            } else {
                checked_state(
                    SessionStateView {
                        owner: Some(
                            OwnerView {
                                owner_epoch,
                                owner_instance_id: pending.owner_instance_id,
                            },
                        ),
                        pending: None,
                        next_sequence: 1,
                        in_flight: None,
                        ..state
                    },
                    session_id,
                )
            },
        },
    }
}

/// A request that is to be reserved: its operation, and its encoded frame or why the protocol codec
/// could not encode it.
#[derive(Debug, PartialEq, Eq)]
pub struct OutgoingRequest {
    pub operation: Operation,
    pub encoding: Result<StoredRequest, ClientSessionStoreError>,
}

/// The command in flight that reserves `request` for `owner` at `sequence`.
pub open spec fn in_flight_of(
    owner: OwnerView,
    sequence: u64,
    request: StoredRequest,
) -> InFlightView {
    InFlightView {
        owner_epoch: owner.owner_epoch,
        owner_instance_id: owner.owner_instance_id,
        sequence,
        frame: request.frame@,
        decoded: match request.decoded {
            Ok(operation) => Ok(operation),
            Err(message) => Err(message@),
        },
    }
}

/// The state after `request` was reserved, or why it cannot be.
pub open spec fn reserved(
    state: SessionStateView,
    session_id: Seq<char>,
    request: OutgoingRequest,
) -> Result<SessionStateView, StoreErrorView> {
    if state.pending is Some {
        Err(
            StoreErrorView::OperationBlocked(
                "cannot reserve a command while owner acquisition is unresolved"@,
            ),
        )
    } else if state.in_flight is Some {
        Err(
            StoreErrorView::OperationBlocked(
                "cannot reserve a second command while an in-flight command is unresolved"@,
            ),
        )
    } else if request.operation == Operation::Health {
        Err(StoreErrorView::OperationBlocked("durable command sessions are mutation-only"@))
    } else if state.next_sequence == u64::MAX {
        Err(StoreErrorView::SequenceExhausted)
    } else {
        match owner_failure(state.owner) {
            Some(failure) => Err(failure),
            None => match state.owner {
                None => Err(
                    StoreErrorView::OperationBlocked(
                        "cannot reserve a command before Broker owner acquisition"@,
                    ),
                ),
                Some(owner) => if state.next_sequence == 0 {
                    Err(StoreErrorView::InvalidState(CommandIdentityError::ZeroSequence.text()))
                } else {
                    match request.encoding {
                        Err(error) => Err(error@),
                        Ok(stored) => checked_state(
                            SessionStateView {
                                in_flight: Some(in_flight_of(owner, state.next_sequence, stored)),
                                ..state
                            },
                            session_id,
                        ),
                    }
                },
            },
        }
    }
}

/// What both ways of resolving the command in flight check first.
pub open spec fn resolution_failure(
    state: SessionStateView,
    session_id: Seq<char>,
    identity: IdentityView,
    nothing: Seq<char>,
    mismatch: Seq<char>,
) -> Option<StoreErrorView> {
    match state.in_flight {
        None => Some(StoreErrorView::InvalidState(nothing)),
        Some(in_flight) => match in_flight_failure(Some(in_flight)) {
            Some(failure) => Some(failure),
            None => if in_flight_identity(session_id, in_flight) != identity {
                Some(StoreErrorView::InvalidState(mismatch))
            } else {
                None
            },
        },
    }
}

/// The state after a definitive outcome of the command in flight was acknowledged, or why it cannot
/// be.
pub open spec fn acknowledged(
    state: SessionStateView,
    session_id: Seq<char>,
    identity: IdentityView,
) -> Result<SessionStateView, StoreErrorView> {
    match resolution_failure(
        state,
        session_id,
        identity,
        "cannot acknowledge an outcome without an in-flight command"@,
        "outcome identity does not match durable in-flight command"@,
    ) {
        Some(failure) => Err(failure),
        None => if identity.sequence == u64::MAX {
            Err(StoreErrorView::SequenceExhausted)
        } else {
            checked_state(
                SessionStateView {
                    next_sequence: (identity.sequence + 1) as u64,
                    in_flight: None,
                    ..state
                },
                session_id,
            )
        },
    }
}

/// The state after the command in flight was released as rejected, or why it cannot be.
pub open spec fn released(
    state: SessionStateView,
    session_id: Seq<char>,
    identity: IdentityView,
) -> Result<SessionStateView, StoreErrorView> {
    match resolution_failure(
        state,
        session_id,
        identity,
        "cannot release a rejected command without an in-flight command"@,
        "rejected outcome identity does not match durable in-flight command"@,
    ) {
        Some(failure) => Err(failure),
        None => checked_state(SessionStateView { in_flight: None, ..state }, session_id),
    }
}

/// Validate a next state before it is made durable.
fn check_state(next: PersistedSessionState, session_id: &CommandSessionId) -> (r: Result<
    PersistedSessionState,
    ClientSessionStoreError,
>)
    ensures
        match (r, checked_state(next@, session_id@)) {
            (Ok(state), Ok(expected)) => state@ == expected,
            (Err(error), Err(failure)) => error@ == failure,
            _ => false,
        },
{
    match validate_state(&next, session_id) {
        Ok(_) => Ok(next),
        Err(error) => Err(error),
    }
}

/// The plain values of a pending acquisition in a state.
pub open spec fn pending_view(session_id: Seq<char>, pending: OwnerView) -> PendingView {
    PendingView {
        session_id,
        expected_owner_epoch: pending.owner_epoch,
        owner_instance_id: pending.owner_instance_id,
    }
}

impl PersistedSessionState {
    /// The confirmed owner, if there is one.
    pub fn confirmed_owner(&self) -> (r: Result<
        Option<DurableSessionOwner>,
        ClientSessionStoreError,
    >)
        ensures
            match r {
                Ok(Some(owner)) => self@.owner == Some(owner@)
                    && owner_failure(self@.owner) is None,
                Ok(None) => self@.owner is None,
                Err(error) => owner_failure(self@.owner) == Some(error@),
            },
    {
        match &self.owner {
            Some(owner) => match decode_owner(owner) {
                Ok(owner) => Ok(Some(owner)),
                Err(error) => Err(error),
            },
            None => Ok(None),
        }
    }

    /// The pending acquisition of session `session_id`, if there is one.
    pub fn pending_acquisition(&self, session_id: &CommandSessionId) -> (r: Result<
        Option<PendingOwnerAcquisition>,
        ClientSessionStoreError,
    >)
        ensures
            match r {
                Ok(Some(pending)) => self@.pending is Some && pending@ == pending_view(
                    session_id@,
                    self@.pending->0,
                ) && owner_failure(self@.pending) is None,
                Ok(None) => self@.pending is None,
                Err(error) => owner_failure(self@.pending) == Some(error@),
            },
    {
        match &self.pending_owner_acquisition {
            Some(pending) => match decode_pending(session_id, pending) {
                Ok(pending) => Ok(Some(pending)),
                Err(error) => Err(error),
            },
            None => Ok(None),
        }
    }

    /// The command in flight in session `session_id`, if there is one.
    pub fn reserved_command(&self, session_id: &CommandSessionId) -> (r: Result<
        Option<ReservedCommand>,
        ClientSessionStoreError,
    >)
        ensures
            match r {
                Ok(Some(command)) => self@.in_flight is Some && in_flight_failure(self@.in_flight)
                    is None && is_in_flight(command@, session_id@, self@.in_flight->0),
                Ok(None) => self@.in_flight is None,
                Err(error) => in_flight_failure(self@.in_flight) == Some(error@),
            },
    {
        match &self.in_flight {
            Some(in_flight) => match decode_in_flight(session_id, in_flight) {
                Ok(command) => Ok(Some(command)),
                Err(error) => Err(error),
            },
            None => Ok(None),
        }
    }

    /// The state in which `owner_instance_id` has begun to acquire session `session_id`.
    pub fn begin(
        &self,
        session_id: &CommandSessionId,
        owner_instance_id: SessionOwnerInstanceId,
    ) -> (r: Result<(PersistedSessionState, PendingOwnerAcquisition), ClientSessionStoreError>)
        ensures
            match (r, begun(self@, session_id@, owner_instance_id@)) {
                (Ok((next, pending)), Ok(expected)) => next@ == expected && pending@
                    == pending_view(
                    session_id@,
                    OwnerView {
                        owner_epoch: expected_epoch(self@),
                        owner_instance_id: owner_instance_id@,
                    },
                ),
                (Err(error), Err(failure)) => error@ == failure,
                _ => false,
            },
    {
        if self.in_flight.is_some() {
            return Err(
                ClientSessionStoreError::OperationBlocked(
                    "cannot acquire a new session owner while an in-flight command is unresolved",
                ),
            );
        }
        if self.pending_owner_acquisition.is_some() {
            return Err(
                ClientSessionStoreError::OperationBlocked(
                    "session owner acquisition is already pending",
                ),
            );
        }
        let current = self.confirmed_owner()?;
        let expected_owner_epoch = match &current {
            Some(owner) => {
                if owner.owner_instance_id.same_as(&owner_instance_id) {
                    return Err(
                        ClientSessionStoreError::OperationBlocked(
                            "confirmed owner instance must continue its current sequence domain instead of reacquiring ownership",
                        ),
                    );
                }
                owner.owner_epoch
            },
            None => SessionOwnerEpoch::initial(),
        };
        let mut next = self.clone();
        next.pending_owner_acquisition = Some(
            PersistedOwner {
                owner_epoch: expected_owner_epoch.get(),
                owner_instance_id: owner_instance_id.as_str().to_owned(),
            },
        );
        let next = check_state(next, session_id)?;
        let pending = PendingOwnerAcquisition {
            session_id: session_id.clone(),
            expected_owner_epoch,
            owner_instance_id,
        };
        Ok((next, pending))
    }

    /// The state in which the Broker has confirmed the pending acquisition at `owner_epoch`.
    pub fn confirm(
        &self,
        session_id: &CommandSessionId,
        owner_epoch: SessionOwnerEpoch,
    ) -> (r: Result<(PersistedSessionState, DurableSessionOwner), ClientSessionStoreError>)
        ensures
            match (r, confirmed(self@, session_id@, owner_epoch@)) {
                (Ok((next, owner)), Ok(expected)) => next@ == expected && expected.owner == Some(
                    owner@,
                ),
                (Err(error), Err(failure)) => error@ == failure,
                _ => false,
            },
    {
        let pending = match self.pending_acquisition(session_id)? {
            Some(pending) => pending,
            None => {
                return Err(
                    invalid_state(
                        "owner acquisition response received without a durable pending acquisition",
                    ),
                );
            },
        };
        validate_acquired_epoch(pending.expected_owner_epoch, owner_epoch, self.owner.is_some())?;
        let owner = DurableSessionOwner {
            owner_epoch,
            owner_instance_id: pending.owner_instance_id,
        };
        let mut next = self.clone();
        next.owner =
        Some(
            PersistedOwner {
                owner_epoch: owner_epoch.get(),
                owner_instance_id: owner.owner_instance_id.as_str().to_owned(),
            },
        );
        next.pending_owner_acquisition = None;
        next.next_sequence = 1;
        next.in_flight = None;
        let next = check_state(next, session_id)?;
        Ok((next, owner))
    }

    /// The state in which `request` is reserved.
    pub fn reserve(&self, session_id: &CommandSessionId, request: OutgoingRequest) -> (r: Result<
        (PersistedSessionState, ReservedCommand),
        ClientSessionStoreError,
    >)
        ensures
            match (r, reserved(self@, session_id@, request)) {
                (Ok((next, command)), Ok(expected)) => {
                    &&& next@ == expected
                    &&& expected.in_flight is Some
                    &&& command@.identity == in_flight_identity(session_id@, expected.in_flight->0)
                    &&& command@.operation == request.operation
                    &&& command@.frame == expected.in_flight->0.frame
                },
                (Err(error), Err(failure)) => error@ == failure,
                _ => false,
            },
    {
        if self.pending_owner_acquisition.is_some() {
            return Err(
                ClientSessionStoreError::OperationBlocked(
                    "cannot reserve a command while owner acquisition is unresolved",
                ),
            );
        }
        if self.in_flight.is_some() {
            return Err(
                ClientSessionStoreError::OperationBlocked(
                    "cannot reserve a second command while an in-flight command is unresolved",
                ),
            );
        }
        if request.operation == Operation::Health {
            return Err(
                ClientSessionStoreError::OperationBlocked(
                    "durable command sessions are mutation-only",
                ),
            );
        }
        if self.next_sequence == u64::MAX {
            return Err(ClientSessionStoreError::SequenceExhausted);
        }
        let owner = match self.confirmed_owner()? {
            Some(owner) => owner,
            None => {
                return Err(
                    ClientSessionStoreError::OperationBlocked(
                        "cannot reserve a command before Broker owner acquisition",
                    ),
                );
            },
        };
        let sequence = match CommandSequence::new(self.next_sequence) {
            Ok(sequence) => sequence,
            Err(error) => return Err(invalid_identity(error)),
        };
        let stored = request.encoding?;
        let frame = stored.frame.clone();
        let mut next = self.clone();
        next.in_flight =
        Some(
            PersistedInFlight {
                owner_epoch: owner.owner_epoch.get(),
                owner_instance_id: owner.owner_instance_id.as_str().to_owned(),
                sequence: sequence.get(),
                request: stored,
            },
        );
        let next = check_state(next, session_id)?;
        let command = ReservedCommand {
            identity: CommandIdentity::new_with_owner(
                session_id.clone(),
                owner.owner_epoch,
                owner.owner_instance_id,
                sequence,
            ),
            operation: request.operation,
            frame,
        };
        Ok((next, command))
    }

    /// The state in which a definitive outcome of the command `identity` was acknowledged.
    pub fn acknowledge(
        &self,
        session_id: &CommandSessionId,
        identity: &CommandIdentity,
    ) -> (r: Result<PersistedSessionState, ClientSessionStoreError>)
        ensures
            match (r, acknowledged(self@, session_id@, identity@)) {
                (Ok(next), Ok(expected)) => next@ == expected,
                (Err(error), Err(failure)) => error@ == failure,
                _ => false,
            },
    {
        match self.reserved_command(session_id)? {
            None => {
                return Err(
                    invalid_state("cannot acknowledge an outcome without an in-flight command"),
                );
            },
            Some(in_flight) => {
                if !in_flight.identity.same_as(identity) {
                    return Err(
                        invalid_state("outcome identity does not match durable in-flight command"),
                    );
                }
            },
        }
        let next_sequence = match identity.sequence().get().checked_add(1) {
            Some(next_sequence) => next_sequence,
            None => return Err(ClientSessionStoreError::SequenceExhausted),
        };
        let mut next = self.clone();
        next.next_sequence = next_sequence;
        next.in_flight = None;
        check_state(next, session_id)
    }

    /// The state in which the command `identity` was released as rejected.
    pub fn release(&self, session_id: &CommandSessionId, identity: &CommandIdentity) -> (r: Result<
        PersistedSessionState,
        ClientSessionStoreError,
    >)
        ensures
            match (r, released(self@, session_id@, identity@)) {
                (Ok(next), Ok(expected)) => next@ == expected,
                (Err(error), Err(failure)) => error@ == failure,
                _ => false,
            },
    {
        match self.reserved_command(session_id)? {
            None => {
                return Err(
                    invalid_state("cannot release a rejected command without an in-flight command"),
                );
            },
            Some(in_flight) => {
                if !in_flight.identity.same_as(identity) {
                    return Err(
                        invalid_state(
                            "rejected outcome identity does not match durable in-flight command",
                        ),
                    );
                }
            },
        }
        let mut next = self.clone();
        next.in_flight = None;
        check_state(next, session_id)
    }
}

} // verus!
