//! Stable application errors and the mapping of domain errors to them.
use vstd::prelude::*;

verus! {

/// Stable protocol-facing Broker error codes.
#[derive(Debug, Clone, Copy, PartialEq, Eq, Hash, Structural)]
pub enum BrokerErrorCode {
    InvalidRequest,
    NotFound,
    Conflict,
    CapacityExceeded,
    StaleFence,
    PersistenceError,
    TransportError,
    CommitOutcomeUnknown,
    InternalError,
}

/// Whether a client-visible mutation error is a committed command outcome, a definitive rejection
/// before application, or still ambiguous.
#[derive(Debug, Clone, Copy, PartialEq, Eq, Hash, Structural)]
pub enum BrokerErrorDisposition {
    Committed,
    Rejected,
    Unknown,
}

impl Default for BrokerErrorDisposition {
    fn default() -> (r: Self)
        ensures
            r == BrokerErrorDisposition::Unknown,
    {
        BrokerErrorDisposition::Unknown
    }
}

impl BrokerErrorDisposition {
    /// The wire text of a disposition.
    pub open spec fn text(self) -> Seq<char> {
        match self {
            BrokerErrorDisposition::Committed => "COMMITTED"@,
            BrokerErrorDisposition::Rejected => "REJECTED"@,
            BrokerErrorDisposition::Unknown => "UNKNOWN"@,
        }
    }

    pub fn as_str(self) -> (r: &'static str)
        ensures
            r@ == self.text(),
    {
        match self {
            BrokerErrorDisposition::Committed => "COMMITTED",
            BrokerErrorDisposition::Rejected => "REJECTED",
            BrokerErrorDisposition::Unknown => "UNKNOWN",
        }
    }
}

impl BrokerErrorCode {
    /// The wire text of a code.
    pub open spec fn text(self) -> Seq<char> {
        match self {
            BrokerErrorCode::InvalidRequest => "INVALID_REQUEST"@,
            BrokerErrorCode::NotFound => "NOT_FOUND"@,
            BrokerErrorCode::Conflict => "CONFLICT"@,
            BrokerErrorCode::CapacityExceeded => "CAPACITY_EXCEEDED"@,
            BrokerErrorCode::StaleFence => "STALE_FENCE"@,
            BrokerErrorCode::PersistenceError => "PERSISTENCE_ERROR"@,
            BrokerErrorCode::TransportError => "TRANSPORT_ERROR"@,
            BrokerErrorCode::CommitOutcomeUnknown => "COMMIT_OUTCOME_UNKNOWN"@,
            BrokerErrorCode::InternalError => "INTERNAL_ERROR"@,
        }
    }

    /// The stable wire-compatible error code.
    pub fn as_str(self) -> (r: &'static str)
        ensures
            r@ == self.text(),
    {
        match self {
            BrokerErrorCode::InvalidRequest => "INVALID_REQUEST",
            BrokerErrorCode::NotFound => "NOT_FOUND",
            BrokerErrorCode::Conflict => "CONFLICT",
            BrokerErrorCode::CapacityExceeded => "CAPACITY_EXCEEDED",
            BrokerErrorCode::StaleFence => "STALE_FENCE",
            BrokerErrorCode::PersistenceError => "PERSISTENCE_ERROR",
            BrokerErrorCode::TransportError => "TRANSPORT_ERROR",
            BrokerErrorCode::CommitOutcomeUnknown => "COMMIT_OUTCOME_UNKNOWN",
            BrokerErrorCode::InternalError => "INTERNAL_ERROR",
        }
    }
}

/// Stable application error, independent of transport and consensus.
#[derive(Debug, PartialEq, Eq)]
pub struct BrokerError {
    code: BrokerErrorCode,
    message: String,
    disposition: BrokerErrorDisposition,
}

/// What a Broker error is, as plain values.
pub struct BrokerErrorView {
    pub code: BrokerErrorCode,
    pub message: Seq<char>,
    pub disposition: BrokerErrorDisposition,
}

impl View for BrokerError {
    type V = BrokerErrorView;

    closed spec fn view(&self) -> BrokerErrorView {
        BrokerErrorView { code: self.code, message: self.message@, disposition: self.disposition }
    }
}

/// An error whose outcome is still ambiguous.
pub open spec fn ambiguous_error(code: BrokerErrorCode, message: Seq<char>) -> BrokerErrorView {
    BrokerErrorView { code, message, disposition: BrokerErrorDisposition::Unknown }
}

impl BrokerError {
    /// A stable Broker error; its disposition is unknown until one is attached.
    pub fn new(code: BrokerErrorCode, message: &str) -> (r: Self)
        ensures
            r@ == ambiguous_error(code, message@),
    {
        BrokerError {
            code,
            message: message.to_owned(),
            disposition: BrokerErrorDisposition::Unknown,
        }
    }

    /// Attach a commit-aware disposition; code and message stay.
    pub fn with_disposition(self, disposition: BrokerErrorDisposition) -> (r: Self)
        ensures
            r@ == (BrokerErrorView { disposition, ..self@ }),
    {
        BrokerError { code: self.code, message: self.message, disposition }
    }

    pub fn code(&self) -> (r: BrokerErrorCode)
        ensures
            r == self@.code,
    {
        self.code
    }

    pub fn message(&self) -> (r: &str)
        ensures
            r@ == self@.message,
    {
        self.message.as_str()
    }

    pub fn disposition(&self) -> (r: BrokerErrorDisposition)
        ensures
            r == self@.disposition,
    {
        self.disposition
    }
}

impl Clone for BrokerError {
    fn clone(&self) -> (r: Self)
        ensures
            r == *self,
    {
        BrokerError {
            code: self.code,
            message: self.message.clone(),
            disposition: self.disposition,
        }
    }
}

/// Why a Consumer Group refused a transition.
#[derive(Debug, Clone, Copy, PartialEq, Eq, Structural)]
pub enum ConsumerGroupErrorKind {
    StaleGeneration,
    MemberNotFound,
    CapabilityConflict,
    MemberCapacityReached,
    InvalidMemberCapacity,
    FencingValue,
}

/// Why a Task refused a transition.
#[derive(Debug, Clone, Copy, PartialEq, Eq, Structural)]
pub enum TaskTransitionErrorKind {
    NotQueued,
    AlreadyCompleted,
    NotLeased,
    StaleGroup,
    StaleOwner,
    StaleGeneration,
    StaleLeaseEpoch,
    StaleLeaseId,
    LeaseExpired,
    FencingValue,
}

/// Why the Broker state machine refused a command.
#[derive(Debug, Clone, Copy, PartialEq, Eq, Structural)]
pub enum StateMachineErrorKind {
    InvalidCapacity,
    TimestampOverflow,
    CapacityExceeded,
    NamespaceNotFound,
    TaskNotFound,
    ConsumerGroupNotFound,
    TaskConflict,
    LeaseIdConflict,
    ConsumerGroupConflict,
    StaleTerm,
    NewTermNotGreater,
    ConsumerGroupTransition(ConsumerGroupErrorKind),
    TaskTransition(TaskTransitionErrorKind),
    TaskCountUnderflow,
    FencingValue,
}

/// A refusal of the Broker state machine together with its rendered text.
#[derive(Debug, Clone, PartialEq, Eq)]
pub struct StateMachineError {
    pub kind: StateMachineErrorKind,
    pub message: String,
}

/// The stable code of a state-machine refusal.
pub open spec fn stable_code(kind: StateMachineErrorKind) -> BrokerErrorCode {
    match kind {
        StateMachineErrorKind::InvalidCapacity | StateMachineErrorKind::TimestampOverflow => {
            BrokerErrorCode::InvalidRequest
        },
        StateMachineErrorKind::CapacityExceeded => BrokerErrorCode::CapacityExceeded,
        StateMachineErrorKind::NamespaceNotFound
        | StateMachineErrorKind::TaskNotFound
        | StateMachineErrorKind::ConsumerGroupNotFound => BrokerErrorCode::NotFound,
        StateMachineErrorKind::TaskConflict
        | StateMachineErrorKind::LeaseIdConflict
        | StateMachineErrorKind::ConsumerGroupConflict => BrokerErrorCode::Conflict,
        StateMachineErrorKind::StaleTerm | StateMachineErrorKind::NewTermNotGreater => {
            BrokerErrorCode::StaleFence
        },
        StateMachineErrorKind::ConsumerGroupTransition(inner) => stable_group_code(inner),
        StateMachineErrorKind::TaskTransition(inner) => stable_task_code(inner),
        StateMachineErrorKind::TaskCountUnderflow | StateMachineErrorKind::FencingValue => {
            BrokerErrorCode::InternalError
        },
    }
}

/// The stable code of a Consumer Group refusal.
pub open spec fn stable_group_code(kind: ConsumerGroupErrorKind) -> BrokerErrorCode {
    match kind {
        ConsumerGroupErrorKind::StaleGeneration => BrokerErrorCode::StaleFence,
        ConsumerGroupErrorKind::MemberNotFound => BrokerErrorCode::NotFound,
        ConsumerGroupErrorKind::CapabilityConflict => BrokerErrorCode::Conflict,
        ConsumerGroupErrorKind::MemberCapacityReached => BrokerErrorCode::CapacityExceeded,
        ConsumerGroupErrorKind::InvalidMemberCapacity => BrokerErrorCode::InvalidRequest,
        ConsumerGroupErrorKind::FencingValue => BrokerErrorCode::InternalError,
    }
}

/// The stable code of a Task refusal.
pub open spec fn stable_task_code(kind: TaskTransitionErrorKind) -> BrokerErrorCode {
    match kind {
        TaskTransitionErrorKind::NotQueued | TaskTransitionErrorKind::AlreadyCompleted => {
            BrokerErrorCode::Conflict
        },
        TaskTransitionErrorKind::FencingValue => BrokerErrorCode::InternalError,
        _ => BrokerErrorCode::StaleFence,
    }
}

/// Map a state-machine refusal to its stable code.
pub fn state_machine_error_code(kind: StateMachineErrorKind) -> (r: BrokerErrorCode)
    ensures
        r == stable_code(kind),
{
    match kind {
        StateMachineErrorKind::InvalidCapacity | StateMachineErrorKind::TimestampOverflow => {
            BrokerErrorCode::InvalidRequest
        },
        StateMachineErrorKind::CapacityExceeded => BrokerErrorCode::CapacityExceeded,
        StateMachineErrorKind::NamespaceNotFound
        | StateMachineErrorKind::TaskNotFound
        | StateMachineErrorKind::ConsumerGroupNotFound => BrokerErrorCode::NotFound,
        StateMachineErrorKind::TaskConflict
        | StateMachineErrorKind::LeaseIdConflict
        | StateMachineErrorKind::ConsumerGroupConflict => BrokerErrorCode::Conflict,
        StateMachineErrorKind::StaleTerm | StateMachineErrorKind::NewTermNotGreater => {
            BrokerErrorCode::StaleFence
        },
        StateMachineErrorKind::ConsumerGroupTransition(inner) => consumer_group_error_code(inner),
        StateMachineErrorKind::TaskTransition(inner) => task_transition_error_code(inner),
        StateMachineErrorKind::TaskCountUnderflow | StateMachineErrorKind::FencingValue => {
            BrokerErrorCode::InternalError
        },
    }
}

fn consumer_group_error_code(kind: ConsumerGroupErrorKind) -> (r: BrokerErrorCode)
    ensures
        r == stable_group_code(kind),
{
    match kind {
        ConsumerGroupErrorKind::StaleGeneration => BrokerErrorCode::StaleFence,
        ConsumerGroupErrorKind::MemberNotFound => BrokerErrorCode::NotFound,
        ConsumerGroupErrorKind::CapabilityConflict => BrokerErrorCode::Conflict,
        ConsumerGroupErrorKind::MemberCapacityReached => BrokerErrorCode::CapacityExceeded,
        ConsumerGroupErrorKind::InvalidMemberCapacity => BrokerErrorCode::InvalidRequest,
        ConsumerGroupErrorKind::FencingValue => BrokerErrorCode::InternalError,
    }
}

fn task_transition_error_code(kind: TaskTransitionErrorKind) -> (r: BrokerErrorCode)
    ensures
        r == stable_task_code(kind),
{
    match kind {
        TaskTransitionErrorKind::NotQueued | TaskTransitionErrorKind::AlreadyCompleted => {
            BrokerErrorCode::Conflict
        },
        TaskTransitionErrorKind::NotLeased
        | TaskTransitionErrorKind::StaleGroup
        | TaskTransitionErrorKind::StaleOwner
        | TaskTransitionErrorKind::StaleGeneration
        | TaskTransitionErrorKind::StaleLeaseEpoch
        | TaskTransitionErrorKind::StaleLeaseId
        | TaskTransitionErrorKind::LeaseExpired => BrokerErrorCode::StaleFence,
        TaskTransitionErrorKind::FencingValue => BrokerErrorCode::InternalError,
    }
}

impl From<StateMachineError> for BrokerError {
    fn from(error: StateMachineError) -> (r: Self) {
        BrokerError {
            code: state_machine_error_code(error.kind),
            message: error.message,
            disposition: BrokerErrorDisposition::Unknown,
        }
    }
}

impl vstd::std_specs::convert::FromSpecImpl<StateMachineError> for BrokerError {
    open spec fn obeys_from_spec() -> bool {
        true
    }

    closed spec fn from_spec(error: StateMachineError) -> BrokerError {
        BrokerError {
            code: stable_code(error.kind),
            message: error.message,
            disposition: BrokerErrorDisposition::Unknown,
        }
    }
}

impl BrokerError {
    /// The stable form of a state-machine refusal: its code, its text, an unknown disposition.
    pub fn from_state_machine(error: StateMachineError) -> (r: Self)
        ensures
            r@ == ambiguous_error(stable_code(error.kind), error.message@),
            r == <BrokerError as vstd::std_specs::convert::FromSpec<StateMachineError>>::from_spec(
                error,
            ),
    {
        BrokerError::from(error)
    }
}

/// A refusal for its rules is told by what the Broker found: a bad request, a missing item, a
/// conflict, a full store or a stale fence. Only a fault of the Broker is an internal error, and no
/// refusal is told as a failure of storage, of transport or of a commit.
pub proof fn law_refusals_are_told_by_what_was_found(kind: StateMachineErrorKind)
    ensures
        stable_code(kind) == BrokerErrorCode::InvalidRequest <==> {
            ||| kind == StateMachineErrorKind::InvalidCapacity
            ||| kind == StateMachineErrorKind::TimestampOverflow
            ||| kind == StateMachineErrorKind::ConsumerGroupTransition(
                ConsumerGroupErrorKind::InvalidMemberCapacity,
            )
        },
        stable_code(kind) == BrokerErrorCode::NotFound <==> {
            ||| kind == StateMachineErrorKind::NamespaceNotFound
            ||| kind == StateMachineErrorKind::TaskNotFound
            ||| kind == StateMachineErrorKind::ConsumerGroupNotFound
            ||| kind == StateMachineErrorKind::ConsumerGroupTransition(
                ConsumerGroupErrorKind::MemberNotFound,
            )
        },
        stable_code(kind) == BrokerErrorCode::Conflict <==> {
            ||| kind == StateMachineErrorKind::TaskConflict
            ||| kind == StateMachineErrorKind::LeaseIdConflict
            ||| kind == StateMachineErrorKind::ConsumerGroupConflict
            ||| kind == StateMachineErrorKind::ConsumerGroupTransition(
                ConsumerGroupErrorKind::CapabilityConflict,
            )
            ||| kind == StateMachineErrorKind::TaskTransition(TaskTransitionErrorKind::NotQueued)
            ||| kind == StateMachineErrorKind::TaskTransition(
                TaskTransitionErrorKind::AlreadyCompleted,
            )
        },
        stable_code(kind) == BrokerErrorCode::CapacityExceeded <==> {
            ||| kind == StateMachineErrorKind::CapacityExceeded
            ||| kind == StateMachineErrorKind::ConsumerGroupTransition(
                ConsumerGroupErrorKind::MemberCapacityReached,
            )
        },
        stable_code(kind) == BrokerErrorCode::InternalError <==> {
            ||| kind == StateMachineErrorKind::TaskCountUnderflow
            ||| kind == StateMachineErrorKind::FencingValue
            ||| kind == StateMachineErrorKind::ConsumerGroupTransition(
                ConsumerGroupErrorKind::FencingValue,
            )
            ||| kind == StateMachineErrorKind::TaskTransition(TaskTransitionErrorKind::FencingValue)
        },
        stable_code(kind) != BrokerErrorCode::PersistenceError,
        stable_code(kind) != BrokerErrorCode::TransportError,
        stable_code(kind) != BrokerErrorCode::CommitOutcomeUnknown,
{
}

/// No two codes have the same wire text.
pub proof fn law_codes_are_told_apart(first: BrokerErrorCode, second: BrokerErrorCode)
    requires
        first.text() == second.text(),
    ensures
        first == second,
{
    reveal_strlit("INVALID_REQUEST");
    reveal_strlit("NOT_FOUND");
    reveal_strlit("CONFLICT");
    reveal_strlit("CAPACITY_EXCEEDED");
    reveal_strlit("STALE_FENCE");
    reveal_strlit("PERSISTENCE_ERROR");
    reveal_strlit("TRANSPORT_ERROR");
    reveal_strlit("COMMIT_OUTCOME_UNKNOWN");
    reveal_strlit("INTERNAL_ERROR");
    assert("INVALID_REQUEST"@[0] == 'I' && "INVALID_REQUEST"@[2] == 'V');
    assert("NOT_FOUND"@[0] == 'N' && "NOT_FOUND"@[2] == 'T');
    assert("CONFLICT"@[0] == 'C' && "CONFLICT"@[2] == 'N');
    assert("CAPACITY_EXCEEDED"@[0] == 'C' && "CAPACITY_EXCEEDED"@[2] == 'P');
    assert("STALE_FENCE"@[0] == 'S' && "STALE_FENCE"@[2] == 'A');
    assert("PERSISTENCE_ERROR"@[0] == 'P' && "PERSISTENCE_ERROR"@[2] == 'R');
    assert("TRANSPORT_ERROR"@[0] == 'T' && "TRANSPORT_ERROR"@[2] == 'A');
    assert("COMMIT_OUTCOME_UNKNOWN"@[0] == 'C' && "COMMIT_OUTCOME_UNKNOWN"@[2] == 'M');
    assert("INTERNAL_ERROR"@[0] == 'I' && "INTERNAL_ERROR"@[2] == 'T');
}

/// No two dispositions have the same wire text.
pub proof fn law_dispositions_are_told_apart(
    first: BrokerErrorDisposition,
    second: BrokerErrorDisposition,
)
    requires
        first.text() == second.text(),
    ensures
        first == second,
{
    reveal_strlit("COMMITTED");
    reveal_strlit("REJECTED");
    reveal_strlit("UNKNOWN");
    assert("COMMITTED"@[0] == 'C');
    assert("REJECTED"@[0] == 'R');
    assert("UNKNOWN"@[0] == 'U');
}

/// An error without an attached disposition is ambiguous, with its code and text as given.
pub proof fn law_plain_errors_are_ambiguous(code: BrokerErrorCode, message: Seq<char>)
    ensures
        ambiguous_error(code, message).code == code,
        ambiguous_error(code, message).message == message,
        ambiguous_error(code, message).disposition == BrokerErrorDisposition::Unknown,
{
}

} // verus!
