//! Stable identity of one retry-safe mutation: session, owner incarnation and sequence.
use std::cmp::Ordering;
use vstd::prelude::*;
use vstd::std_specs::cmp::{PartialEqSpec, PartialEqSpecImpl, PartialOrdSpec, PartialOrdSpecImpl};
use vstd::utf8::encode_utf8;

verus! {

/// Largest number of bytes in a command-session identifier.
pub const MAX_COMMAND_SESSION_ID_BYTES: usize = 128;

/// Largest number of bytes in an owner-instance identifier.
pub const MAX_OWNER_INSTANCE_ID_BYTES: usize = 128;

/// ASCII letters and digits.
pub open spec fn is_ascii_alphanumeric_byte(byte: u8) -> bool {
    ||| 48 <= byte <= 57
    ||| 65 <= byte <= 90
    ||| 97 <= byte <= 122
}

/// Bytes that may follow the first one: ASCII letters, digits, `_`, `.`, `:` and `-`.
pub open spec fn is_identifier_byte(byte: u8) -> bool {
    ||| is_ascii_alphanumeric_byte(byte)
    ||| byte == 95
    ||| byte == 46
    ||| byte == 58
    ||| byte == 45
}

/// Why `bytes` is no identifier of at most `max_bytes` bytes, or `None` if it is one.
pub open spec fn identifier_flaw(bytes: Seq<u8>, max_bytes: int) -> Option<Seq<char>> {
    if bytes.len() == 0 {
        Some("must not be empty"@)
    } else if bytes.len() > max_bytes {
        Some("must be at most 128 ASCII bytes"@)
    } else if !is_ascii_alphanumeric_byte(bytes[0]) {
        Some("must start with an ASCII alphanumeric character"@)
    } else if exists|i: int| 1 <= i < bytes.len() && !is_identifier_byte(#[trigger] bytes[i]) {
        Some("contains unsupported characters"@)
    } else {
        None
    }
}

/// Whether `text` is a stable identifier of at most `max_bytes` bytes.
pub open spec fn is_identifier(text: Seq<char>, max_bytes: int) -> bool {
    identifier_flaw(encode_utf8(text), max_bytes) is None
}

fn is_alphanumeric(byte: u8) -> (r: bool)
    ensures
        r == is_ascii_alphanumeric_byte(byte),
{
    (48 <= byte && byte <= 57) || (65 <= byte && byte <= 90) || (97 <= byte && byte <= 122)
}

/// Check that `value` is a stable identifier of at most `max_bytes` bytes.
pub(crate) fn validate_identifier(value: &str, max_bytes: usize) -> (r: Result<(), &'static str>)
    ensures
        match r {
            Ok(_) => identifier_flaw(encode_utf8(value@), max_bytes as int) is None,
            Err(reason) => identifier_flaw(encode_utf8(value@), max_bytes as int) == Some(reason@),
        },
{
    let bytes = value.as_bytes();
    let length: usize = bytes.len();
    if length == 0 {
        return Err("must not be empty");
    }
    if length > max_bytes {
        return Err("must be at most 128 ASCII bytes");
    }
    if !is_alphanumeric(bytes[0]) {
        return Err("must start with an ASCII alphanumeric character");
    }
    let mut index: usize = 1;
    while index < length
        invariant
            1 <= index <= length <= max_bytes,
            length == bytes@.len(),
            bytes@ == encode_utf8(value@),
            is_ascii_alphanumeric_byte(bytes@[0]),
            forall|i: int| 1 <= i < index ==> is_identifier_byte(#[trigger] bytes@[i]),
        decreases length - index,
    {
        let byte: u8 = bytes[index];
        if !(is_alphanumeric(byte) || byte == 95 || byte == 46 || byte == 58 || byte == 45) {
            assert(!is_identifier_byte(bytes@[index as int]));
            return Err("contains unsupported characters");
        }
        index = index + 1;
    }
    Ok(())
}

/// Why a part of a command identity was refused.
#[derive(Debug, Clone, Copy, PartialEq, Eq)]
pub enum CommandIdentityError {
    InvalidSessionId(&'static str),
    InvalidOwnerInstanceId(&'static str),
    ZeroOwnerEpoch,
    ZeroSequence,
}

impl CommandIdentityError {
    /// The text of the error.
    pub open spec fn text(self) -> Seq<char> {
        match self {
            CommandIdentityError::InvalidSessionId(reason) => "invalid command_session_id: "@ + reason@,
            CommandIdentityError::InvalidOwnerInstanceId(reason) => {
                "invalid command_session_owner_instance_id: "@ + reason@
            },
            CommandIdentityError::ZeroOwnerEpoch => {
                "command_session_owner_epoch must be greater than zero"@
            },
            CommandIdentityError::ZeroSequence => "command_sequence must be greater than zero"@,
        }
    }

    /// Render the error for people.
    pub fn message(&self) -> (r: String)
        ensures
            r@ == self.text(),
    {
        match self {
            CommandIdentityError::InvalidSessionId(reason) => {
                "invalid command_session_id: ".to_owned().concat(reason)
            },
            CommandIdentityError::InvalidOwnerInstanceId(reason) => {
                "invalid command_session_owner_instance_id: ".to_owned().concat(reason)
            },
            CommandIdentityError::ZeroOwnerEpoch => {
                "command_session_owner_epoch must be greater than zero".to_owned()
            },
            CommandIdentityError::ZeroSequence => {
                "command_sequence must be greater than zero".to_owned()
            },
        }
    }
}

/// Stable provider-neutral client session identity, used only for idempotent mutation ordering.
#[derive(Debug, PartialEq, Eq, PartialOrd, Ord, Hash)]
pub struct CommandSessionId {
    text: String,
}

impl View for CommandSessionId {
    type V = Seq<char>;

    closed spec fn view(&self) -> Seq<char> {
        self.text@
    }
}

impl CommandSessionId {
    /// Every session identifier is a stable identifier.
    #[verifier::type_invariant]
    pub open spec fn wf(&self) -> bool {
        is_identifier(self@, MAX_COMMAND_SESSION_ID_BYTES as int)
    }

    /// Why `text` is no session identifier, or `None` if it is one.
    pub open spec fn flaw(text: Seq<char>) -> Option<Seq<char>> {
        identifier_flaw(encode_utf8(text), MAX_COMMAND_SESSION_ID_BYTES as int)
    }

    /// Construct a bounded ASCII command-session identifier.
    pub fn new(value: &str) -> (r: Result<Self, CommandIdentityError>)
        ensures
            match r {
                Ok(id) => id@ == value@ && Self::flaw(value@) is None,
                Err(CommandIdentityError::InvalidSessionId(reason)) => Self::flaw(value@) == Some(
                    reason@,
                ),
                Err(_) => false,
            },
    {
        match validate_identifier(value, MAX_COMMAND_SESSION_ID_BYTES) {
            Ok(_) => Ok(CommandSessionId { text: value.to_owned() }),
            Err(reason) => Err(CommandIdentityError::InvalidSessionId(reason)),
        }
    }

    pub fn as_str(&self) -> (r: &str)
        ensures
            r@ == self@,
    {
        self.text.as_str()
    }

    /// Whether two identifiers have the same text.
    pub fn same_as(&self, other: &Self) -> (r: bool)
        ensures
            r == (self@ == other@),
    {
        self.text == other.text
    }
}

impl Clone for CommandSessionId {
    fn clone(&self) -> (r: Self)
        ensures
            r == *self,
    {
        proof {
            use_type_invariant(self);
        }
        CommandSessionId { text: self.text.clone() }
    }
}

/// Monotonic non-zero sequence within one command session.
#[derive(Debug, Clone, Copy, Eq, Ord, Hash)]
pub struct CommandSequence {
    value: u64,
}

impl View for CommandSequence {
    type V = u64;

    closed spec fn view(&self) -> u64 {
        self.value
    }
}

impl CommandSequence {
    /// Every sequence is positive.
    #[verifier::type_invariant]
    pub open spec fn wf(&self) -> bool {
        self@ > 0
    }

    /// Construct a non-zero command sequence.
    pub fn new(value: u64) -> (r: Result<Self, CommandIdentityError>)
        ensures
            match r {
                Ok(sequence) => value != 0 && sequence@ == value,
                Err(error) => value == 0 && error == CommandIdentityError::ZeroSequence,
            },
    {
        if value == 0 {
            Err(CommandIdentityError::ZeroSequence)
        } else {
            Ok(CommandSequence { value })
        }
    }

    pub fn get(self) -> (r: u64)
        ensures
            r == self@,
            r > 0,
    {
        proof {
            use_type_invariant(&self);
        }
        self.value
    }
}

impl PartialEq for CommandSequence {
    fn eq(&self, other: &Self) -> (r: bool) {
        self.value == other.value
    }
}

impl PartialEqSpecImpl for CommandSequence {
    open spec fn obeys_eq_spec() -> bool {
        true
    }

    open spec fn eq_spec(&self, other: &Self) -> bool {
        self@ == other@
    }
}

impl PartialOrd for CommandSequence {
    fn partial_cmp(&self, other: &Self) -> (r: Option<Ordering>) {
        if self.value < other.value {
            Some(Ordering::Less)
        } else if self.value == other.value {
            Some(Ordering::Equal)
        } else {
            Some(Ordering::Greater)
        }
    }
}

impl PartialOrdSpecImpl for CommandSequence {
    open spec fn obeys_partial_cmp_spec() -> bool {
        true
    }

    open spec fn partial_cmp_spec(&self, other: &Self) -> Option<Ordering> {
        if self@ < other@ {
            Some(Ordering::Less)
        } else if self@ == other@ {
            Some(Ordering::Equal)
        } else {
            Some(Ordering::Greater)
        }
    }
}

/// Sequences compare as their numbers: `==` and `<` of two sequences say the same as those of what
/// `get` returns, and equal sequences are one value.
pub proof fn law_sequences_compare_as_their_numbers(left: CommandSequence, right: CommandSequence)
    ensures
        PartialEqSpec::eq_spec(&left, &right) <==> left@ == right@,
        PartialOrdSpec::partial_cmp_spec(&left, &right) == Some(Ordering::Less) <==> left@ < right@,
        left@ == right@ ==> left == right,
{
}

/// Broker-authoritative owner incarnation of one logical command session.
///
/// Epoch `1` is the initial owner. A larger epoch is reached only by a committed ownership
/// transition; the number alone authorizes nothing.
#[derive(Debug, Clone, Copy, PartialEq, Eq, PartialOrd, Ord, Hash, Structural)]
pub struct SessionOwnerEpoch {
    value: u64,
}

impl View for SessionOwnerEpoch {
    type V = u64;

    closed spec fn view(&self) -> u64 {
        self.value
    }
}

impl SessionOwnerEpoch {
    /// Every owner epoch is positive.
    #[verifier::type_invariant]
    pub open spec fn wf(&self) -> bool {
        self@ > 0
    }

    /// Construct a non-zero session-owner epoch.
    pub fn new(value: u64) -> (r: Result<Self, CommandIdentityError>)
        ensures
            match r {
                Ok(epoch) => value != 0 && epoch@ == value,
                Err(error) => value == 0 && error == CommandIdentityError::ZeroOwnerEpoch,
            },
    {
        if value == 0 {
            Err(CommandIdentityError::ZeroOwnerEpoch)
        } else {
            Ok(SessionOwnerEpoch { value })
        }
    }

    /// The epoch of the first owner of a session.
    pub fn initial() -> (r: Self)
        ensures
            r@ == 1,
    {
        SessionOwnerEpoch { value: 1 }
    }

    pub fn get(self) -> (r: u64)
        ensures
            r == self@,
            r > 0,
    {
        proof {
            use_type_invariant(&self);
        }
        self.value
    }
}

/// Identity of one concrete process incarnation that owns a logical command session.
///
/// A process that takes a session over uses a new instance identifier. The value is compared with
/// the replicated ownership state; it is no correlation identifier.
#[derive(Debug, PartialEq, Eq, PartialOrd, Ord, Hash)]
pub struct SessionOwnerInstanceId {
    text: String,
}

impl View for SessionOwnerInstanceId {
    type V = Seq<char>;

    closed spec fn view(&self) -> Seq<char> {
        self.text@
    }
}

impl SessionOwnerInstanceId {
    /// Every owner-instance identifier is a stable identifier.
    #[verifier::type_invariant]
    pub open spec fn wf(&self) -> bool {
        is_identifier(self@, MAX_OWNER_INSTANCE_ID_BYTES as int)
    }

    /// Why `text` is no owner-instance identifier, or `None` if it is one.
    pub open spec fn flaw(text: Seq<char>) -> Option<Seq<char>> {
        identifier_flaw(encode_utf8(text), MAX_OWNER_INSTANCE_ID_BYTES as int)
    }

    /// Construct a bounded ASCII owner-instance identifier.
    pub fn new(value: &str) -> (r: Result<Self, CommandIdentityError>)
        ensures
            match r {
                Ok(id) => id@ == value@ && Self::flaw(value@) is None,
                Err(CommandIdentityError::InvalidOwnerInstanceId(reason)) => Self::flaw(value@)
                    == Some(reason@),
                Err(_) => false,
            },
    {
        match validate_identifier(value, MAX_OWNER_INSTANCE_ID_BYTES) {
            Ok(_) => Ok(SessionOwnerInstanceId { text: value.to_owned() }),
            Err(reason) => Err(CommandIdentityError::InvalidOwnerInstanceId(reason)),
        }
    }

    pub fn as_str(&self) -> (r: &str)
        ensures
            r@ == self@,
    {
        self.text.as_str()
    }

    /// Whether two identifiers have the same text.
    pub fn same_as(&self, other: &Self) -> (r: bool)
        ensures
            r == (self@ == other@),
    {
        self.text == other.text
    }
}

impl Clone for SessionOwnerInstanceId {
    fn clone(&self) -> (r: Self)
        ensures
            r == *self,
    {
        proof {
            use_type_invariant(self);
        }
        SessionOwnerInstanceId { text: self.text.clone() }
    }
}

/// The text of an optional owner instance.
pub open spec fn instance_view(instance: Option<SessionOwnerInstanceId>) -> Option<Seq<char>> {
    match instance {
        Some(id) => Some(id@),
        None => None,
    }
}

/// Whether two optional owner instances have the same text.
pub fn same_instance(
    left: Option<&SessionOwnerInstanceId>,
    right: Option<&SessionOwnerInstanceId>,
) -> (r: bool)
    ensures
        r == match (left, right) {
            (Some(l), Some(r)) => l@ == r@,
            (None, None) => true,
            _ => false,
        },
{
    match (left, right) {
        (Some(l), Some(r)) => l.same_as(r),
        (None, None) => true,
        _ => false,
    }
}

/// What a command identity is, as plain values.
pub struct IdentityView {
    pub session_id: Seq<char>,
    pub owner_epoch: u64,
    pub owner_instance_id: Option<Seq<char>>,
    pub sequence: u64,
}

/// Stable mutation identity. A request identifier is for correlation only and never stands in
/// for this value.
#[derive(Debug, PartialEq, Eq, PartialOrd, Ord, Hash)]
pub struct CommandIdentity {
    session_id: CommandSessionId,
    owner_epoch: SessionOwnerEpoch,
    owner_instance_id: Option<SessionOwnerInstanceId>,
    sequence: CommandSequence,
}

impl View for CommandIdentity {
    type V = IdentityView;

    closed spec fn view(&self) -> IdentityView {
        IdentityView {
            session_id: self.session_id@,
            owner_epoch: self.owner_epoch@,
            owner_instance_id: instance_view(self.owner_instance_id),
            sequence: self.sequence@,
        }
    }
}

impl IdentityView {
    /// The plain values are those of some command identity.
    pub open spec fn wf(self) -> bool {
        &&& CommandSessionId::flaw(self.session_id) is None
        &&& self.owner_epoch > 0
        &&& self.owner_instance_id matches Some(text) ==> SessionOwnerInstanceId::flaw(text) is None
        &&& self.sequence > 0
    }
}

impl CommandIdentity {
    /// Every command identity holds valid plain values.
    #[verifier::type_invariant]
    pub open spec fn wf(&self) -> bool {
        self@.wf()
    }

    /// Identity under the initial owner epoch, without an owner instance.
    pub fn new(session_id: CommandSessionId, sequence: CommandSequence) -> (r: Self)
        ensures
            r@ == (IdentityView {
                session_id: session_id@,
                owner_epoch: 1,
                owner_instance_id: None,
                sequence: sequence@,
            }),
    {
        proof {
            use_type_invariant(&session_id);
            use_type_invariant(&sequence);
        }
        CommandIdentity {
            session_id,
            owner_epoch: SessionOwnerEpoch::initial(),
            owner_instance_id: None,
            sequence,
        }
    }

    /// Identity under a given owner epoch, without an owner instance.
    pub fn new_with_owner_epoch(
        session_id: CommandSessionId,
        owner_epoch: SessionOwnerEpoch,
        sequence: CommandSequence,
    ) -> (r: Self)
        ensures
            r@ == (IdentityView {
                session_id: session_id@,
                owner_epoch: owner_epoch@,
                owner_instance_id: None,
                sequence: sequence@,
            }),
    {
        proof {
            use_type_invariant(&session_id);
            use_type_invariant(&owner_epoch);
            use_type_invariant(&sequence);
        }
        CommandIdentity { session_id, owner_epoch, owner_instance_id: None, sequence }
    }

    /// Identity under a given owner epoch and owner instance.
    pub fn new_with_owner(
        session_id: CommandSessionId,
        owner_epoch: SessionOwnerEpoch,
        owner_instance_id: SessionOwnerInstanceId,
        sequence: CommandSequence,
    ) -> (r: Self)
        ensures
            r@ == (IdentityView {
                session_id: session_id@,
                owner_epoch: owner_epoch@,
                owner_instance_id: Some(owner_instance_id@),
                sequence: sequence@,
            }),
    {
        proof {
            use_type_invariant(&session_id);
            use_type_invariant(&owner_epoch);
            use_type_invariant(&owner_instance_id);
            use_type_invariant(&sequence);
        }
        CommandIdentity {
            session_id,
            owner_epoch,
            owner_instance_id: Some(owner_instance_id),
            sequence,
        }
    }

    pub fn session_id(&self) -> (r: &CommandSessionId)
        ensures
            r@ == self@.session_id,
    {
        &self.session_id
    }

    pub fn owner_epoch(&self) -> (r: SessionOwnerEpoch)
        ensures
            r@ == self@.owner_epoch,
    {
        self.owner_epoch
    }

    pub fn owner_instance_id(&self) -> (r: Option<&SessionOwnerInstanceId>)
        ensures
            match r {
                Some(id) => self@.owner_instance_id == Some(id@),
                None => self@.owner_instance_id is None,
            },
    {
        self.owner_instance_id.as_ref()
    }

    pub fn sequence(&self) -> (r: CommandSequence)
        ensures
            r@ == self@.sequence,
    {
        self.sequence
    }

    /// Whether two identities hold the same plain values.
    pub fn same_as(&self, other: &Self) -> (r: bool)
        ensures
            r == (self@ == other@),
    {
        self.session_id.same_as(&other.session_id) && self.owner_epoch == other.owner_epoch
            && same_instance(self.owner_instance_id.as_ref(), other.owner_instance_id.as_ref())
            && self.sequence == other.sequence
    }
}

impl Clone for CommandIdentity {
    fn clone(&self) -> (r: Self)
        ensures
            r == *self,
    {
        proof {
            use_type_invariant(self);
        }
        CommandIdentity {
            session_id: self.session_id.clone(),
            owner_epoch: self.owner_epoch,
            owner_instance_id: match &self.owner_instance_id {
                Some(id) => Some(id.clone()),
                None => None,
            },
            sequence: self.sequence,
        }
    }
}

} // verus!
