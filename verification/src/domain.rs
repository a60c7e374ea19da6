//! Values of the broker domain: identifiers, texts, capabilities, fencing numbers and limits.
//!
//! The rules of these values are this library's own: an identifier has at most 128 bytes of the
//! characters that command identities allow, prose is not empty, capabilities keep the order in
//! which they are declared, and terms, lease durations and limits are positive. The labels and
//! texts of their refusals are the library's own too.
use crate::command_identity::{identifier_flaw, validate_identifier};
use std::marker::PhantomData;
use vstd::prelude::*;
use vstd::utf8::encode_utf8;

verus! {

/// Largest number of bytes in a domain identifier.
pub const MAX_DOMAIN_IDENTIFIER_BYTES: usize = 128;

/// Why a domain value was refused.
#[derive(Debug, Clone, Copy, PartialEq, Eq)]
pub enum DomainValueError {
    /// The text of the named field breaks the field's rule.
    InvalidText { label: &'static str, reason: &'static str },
    /// The named number must be positive.
    Zero { label: &'static str },
}

impl DomainValueError {
    /// The text of the error.
    pub open spec fn text(self) -> Seq<char> {
        match self {
            DomainValueError::InvalidText { label, reason } => text_error(label@, reason@),
            DomainValueError::Zero { label } => zero_error(label@),
        }
    }

    /// Render the error for people.
    pub fn message(&self) -> (r: String)
        ensures
            r@ == self.text(),
    {
        match self {
            DomainValueError::InvalidText { label, reason } => {
                "invalid ".to_owned().concat(label).concat(": ").concat(reason)
            },
            DomainValueError::Zero { label } => {
                (*label).to_owned().concat(" must be greater than zero")
            },
        }
    }
}

/// The error text for a field whose text breaks its rule.
pub open spec fn text_error(label: Seq<char>, reason: Seq<char>) -> Seq<char> {
    "invalid "@ + label + ": "@ + reason
}

/// The error text for a number that must be positive.
pub open spec fn zero_error(label: Seq<char>) -> Seq<char> {
    label + " must be greater than zero"@
}

/// The rule and the name of one kind of validated text.
pub trait TextKind: Sized {
    /// Why `text` is refused, or `None` if it is accepted.
    spec fn flaw(text: Seq<char>) -> Option<Seq<char>>;

    /// The name of the field.
    spec fn label() -> Seq<char>;

    fn check(value: &str) -> (r: Result<(), &'static str>)
        ensures
            match r {
                Ok(_) => Self::flaw(value@) is None,
                Err(reason) => Self::flaw(value@) == Some(reason@),
            },
    ;

    fn name() -> (r: &'static str)
        ensures
            r@ == Self::label(),
    ;
}

/// Why `text` is no domain identifier, or `None` if it is one.
pub open spec fn domain_identifier_flaw(text: Seq<char>) -> Option<Seq<char>> {
    identifier_flaw(encode_utf8(text), MAX_DOMAIN_IDENTIFIER_BYTES as int)
}

/// Why `text` is no domain prose, or `None` if it is.
pub open spec fn prose_flaw(text: Seq<char>) -> Option<Seq<char>> {
    if text.len() == 0 {
        Some("must not be empty"@)
    } else {
        None
    }
}

/// Identifiers of a namespace.
#[derive(Debug, Clone, Copy, PartialEq, Eq, PartialOrd, Ord, Hash)]
pub struct NamespaceKind;

impl TextKind for NamespaceKind {
    open spec fn flaw(text: Seq<char>) -> Option<Seq<char>> {
        domain_identifier_flaw(text)
    }

    open spec fn label() -> Seq<char> {
        "namespace_id"@
    }

    fn check(value: &str) -> (r: Result<(), &'static str>) {
        validate_identifier(value, MAX_DOMAIN_IDENTIFIER_BYTES)
    }

    fn name() -> (r: &'static str) {
        "namespace_id"
    }
}

/// Identifiers of a Task.
#[derive(Debug, Clone, Copy, PartialEq, Eq, PartialOrd, Ord, Hash)]
pub struct TaskKind;

impl TextKind for TaskKind {
    open spec fn flaw(text: Seq<char>) -> Option<Seq<char>> {
        domain_identifier_flaw(text)
    }

    open spec fn label() -> Seq<char> {
        "task_id"@
    }

    fn check(value: &str) -> (r: Result<(), &'static str>) {
        validate_identifier(value, MAX_DOMAIN_IDENTIFIER_BYTES)
    }

    fn name() -> (r: &'static str) {
        "task_id"
    }
}

/// Identifiers of a Consumer Group.
#[derive(Debug, Clone, Copy, PartialEq, Eq, PartialOrd, Ord, Hash)]
pub struct ConsumerGroupKind;

impl TextKind for ConsumerGroupKind {
    open spec fn flaw(text: Seq<char>) -> Option<Seq<char>> {
        domain_identifier_flaw(text)
    }

    open spec fn label() -> Seq<char> {
        "group_id"@
    }

    fn check(value: &str) -> (r: Result<(), &'static str>) {
        validate_identifier(value, MAX_DOMAIN_IDENTIFIER_BYTES)
    }

    fn name() -> (r: &'static str) {
        "group_id"
    }
}

/// Identifiers of a member of a Consumer Group.
#[derive(Debug, Clone, Copy, PartialEq, Eq, PartialOrd, Ord, Hash)]
pub struct ConsumerKind;

impl TextKind for ConsumerKind {
    open spec fn flaw(text: Seq<char>) -> Option<Seq<char>> {
        domain_identifier_flaw(text)
    }

    open spec fn label() -> Seq<char> {
        "member_id"@
    }

    fn check(value: &str) -> (r: Result<(), &'static str>) {
        validate_identifier(value, MAX_DOMAIN_IDENTIFIER_BYTES)
    }

    fn name() -> (r: &'static str) {
        "member_id"
    }
}

/// Identifiers of a Task lease.
#[derive(Debug, Clone, Copy, PartialEq, Eq, PartialOrd, Ord, Hash)]
pub struct LeaseKind;

impl TextKind for LeaseKind {
    open spec fn flaw(text: Seq<char>) -> Option<Seq<char>> {
        domain_identifier_flaw(text)
    }

    open spec fn label() -> Seq<char> {
        "lease_id"@
    }

    fn check(value: &str) -> (r: Result<(), &'static str>) {
        validate_identifier(value, MAX_DOMAIN_IDENTIFIER_BYTES)
    }

    fn name() -> (r: &'static str) {
        "lease_id"
    }
}

/// Identifiers of a capability of a member.
#[derive(Debug, Clone, Copy, PartialEq, Eq, PartialOrd, Ord, Hash)]
pub struct CapabilityKind;

impl TextKind for CapabilityKind {
    open spec fn flaw(text: Seq<char>) -> Option<Seq<char>> {
        domain_identifier_flaw(text)
    }

    open spec fn label() -> Seq<char> {
        "capability"@
    }

    fn check(value: &str) -> (r: Result<(), &'static str>) {
        validate_identifier(value, MAX_DOMAIN_IDENTIFIER_BYTES)
    }

    fn name() -> (r: &'static str) {
        "capability"
    }
}

/// Texts of the objective of a Task.
#[derive(Debug, Clone, Copy, PartialEq, Eq, PartialOrd, Ord, Hash)]
pub struct ObjectiveKind;

impl TextKind for ObjectiveKind {
    open spec fn flaw(text: Seq<char>) -> Option<Seq<char>> {
        prose_flaw(text)
    }

    open spec fn label() -> Seq<char> {
        "objective"@
    }

    fn check(value: &str) -> (r: Result<(), &'static str>) {
        if value.is_empty() {
            Err("must not be empty")
        } else {
            Ok(())
        }
    }

    fn name() -> (r: &'static str) {
        "objective"
    }
}

/// Texts of the result of a Task.
#[derive(Debug, Clone, Copy, PartialEq, Eq, PartialOrd, Ord, Hash)]
pub struct OutcomeKind;

impl TextKind for OutcomeKind {
    open spec fn flaw(text: Seq<char>) -> Option<Seq<char>> {
        prose_flaw(text)
    }

    open spec fn label() -> Seq<char> {
        "result"@
    }

    fn check(value: &str) -> (r: Result<(), &'static str>) {
        if value.is_empty() {
            Err("must not be empty")
        } else {
            Ok(())
        }
    }

    fn name() -> (r: &'static str) {
        "result"
    }
}

/// A validated text of one kind.
#[derive(Debug, PartialEq, Eq, PartialOrd, Ord, Hash)]
pub struct DomainText<K: TextKind> {
    text: String,
    kind: PhantomData<K>,
}

impl<K: TextKind> View for DomainText<K> {
    type V = Seq<char>;

    closed spec fn view(&self) -> Seq<char> {
        self.text@
    }
}

impl<K: TextKind> DomainText<K> {
    /// Every text obeys the rule of its kind.
    #[verifier::type_invariant]
    pub open spec fn wf(&self) -> bool {
        K::flaw(self@) is None
    }

    /// Validate a text.
    pub fn new(value: &str) -> (r: Result<Self, DomainValueError>)
        ensures
            match r {
                Ok(text) => text@ == value@ && K::flaw(value@) is None,
                Err(error) => K::flaw(value@) matches Some(reason) && error.text() == text_error(
                    K::label(),
                    reason,
                ),
            },
    {
        match K::check(value) {
            Ok(_) => Ok(DomainText { text: value.to_owned(), kind: PhantomData }),
            Err(reason) => Err(DomainValueError::InvalidText { label: K::name(), reason }),
        }
    }

    pub fn as_str(&self) -> (r: &str)
        ensures
            r@ == self@,
    {
        self.text.as_str()
    }
}

impl<K: TextKind> Clone for DomainText<K> {
    fn clone(&self) -> (r: Self)
        ensures
            r == *self,
    {
        proof {
            use_type_invariant(self);
        }
        DomainText { text: self.text.clone(), kind: PhantomData }
    }
}

pub type NamespaceId = DomainText<NamespaceKind>;

pub type TaskId = DomainText<TaskKind>;

pub type ConsumerGroupId = DomainText<ConsumerGroupKind>;

pub type ConsumerId = DomainText<ConsumerKind>;

pub type MemberId = DomainText<ConsumerKind>;

pub type LeaseId = DomainText<LeaseKind>;

pub type Capability = DomainText<CapabilityKind>;

pub type TaskObjective = DomainText<ObjectiveKind>;

pub type TaskResult = DomainText<OutcomeKind>;

/// Committed revision of the Broker state or of one of its entities.
#[derive(Debug, Clone, Copy, PartialEq, Eq, PartialOrd, Ord, Hash, Structural)]
pub struct Revision {
    value: u64,
}

impl View for Revision {
    type V = u64;

    closed spec fn view(&self) -> u64 {
        self.value
    }
}

impl Revision {
    pub fn new(value: u64) -> (r: Self)
        ensures
            r@ == value,
    {
        Revision { value }
    }

    pub fn get(self) -> (r: u64)
        ensures
            r == self@,
    {
        self.value
    }
}

/// Membership generation of a Consumer Group.
#[derive(Debug, Clone, Copy, PartialEq, Eq, PartialOrd, Ord, Hash, Structural)]
pub struct Generation {
    value: u64,
}

impl View for Generation {
    type V = u64;

    closed spec fn view(&self) -> u64 {
        self.value
    }
}

impl Generation {
    pub fn new(value: u64) -> (r: Self)
        ensures
            r@ == value,
    {
        Generation { value }
    }

    pub fn get(self) -> (r: u64)
        ensures
            r == self@,
    {
        self.value
    }
}

/// Fencing epoch of a Task lease.
#[derive(Debug, Clone, Copy, PartialEq, Eq, PartialOrd, Ord, Hash, Structural)]
pub struct LeaseEpoch {
    value: u64,
}

impl View for LeaseEpoch {
    type V = u64;

    closed spec fn view(&self) -> u64 {
        self.value
    }
}

impl LeaseEpoch {
    pub fn new(value: u64) -> (r: Self)
        ensures
            r@ == value,
    {
        LeaseEpoch { value }
    }

    pub fn get(self) -> (r: u64)
        ensures
            r == self@,
    {
        self.value
    }
}

/// Server-observed time in milliseconds.
#[derive(Debug, Clone, Copy, PartialEq, Eq, PartialOrd, Ord, Hash, Structural)]
pub struct TimestampMs {
    value: u64,
}

impl View for TimestampMs {
    type V = u64;

    closed spec fn view(&self) -> u64 {
        self.value
    }
}

impl TimestampMs {
    pub fn new(value: u64) -> (r: Self)
        ensures
            r@ == value,
    {
        TimestampMs { value }
    }

    pub fn get(self) -> (r: u64)
        ensures
            r == self@,
    {
        self.value
    }
}

/// Authoritative fencing term of the Broker.
#[derive(Debug, Clone, Copy, PartialEq, Eq, PartialOrd, Ord, Hash, Structural)]
pub struct Term {
    value: u64,
}

impl View for Term {
    type V = u64;

    closed spec fn view(&self) -> u64 {
        self.value
    }
}

impl Term {
    /// The value is positive.
    #[verifier::type_invariant]
    pub open spec fn wf(&self) -> bool {
        self@ > 0
    }

    pub fn new(value: u64) -> (r: Result<Self, DomainValueError>)
        ensures
            match r {
                Ok(number) => value != 0 && number@ == value,
                Err(error) => value == 0 && error.text() == zero_error("Broker term"@),
            },
    {
        if value == 0 {
            Err(DomainValueError::Zero { label: "Broker term" })
        } else {
            Ok(Term { value })
        }
    }

    pub fn get(self) -> (r: u64)
        ensures
            r == self@,
            r > 0,
    {
        proof {
            use_type_invariant(&self);
        }
        self.value
    }

    /// The first term of a Broker.
    pub fn initial() -> (r: Self)
        ensures
            r@ == 1,
    {
        Term { value: 1 }
    }
}

/// Positive duration of a Task lease in milliseconds.
#[derive(Debug, Clone, Copy, PartialEq, Eq, PartialOrd, Ord, Hash, Structural)]
pub struct LeaseDurationMs {
    value: u64,
}

impl View for LeaseDurationMs {
    type V = u64;

    closed spec fn view(&self) -> u64 {
        self.value
    }
}

impl LeaseDurationMs {
    /// The value is positive.
    #[verifier::type_invariant]
    pub open spec fn wf(&self) -> bool {
        self@ > 0
    }

    pub fn new(value: u64) -> (r: Result<Self, DomainValueError>)
        ensures
            match r {
                Ok(number) => value != 0 && number@ == value,
                Err(error) => value == 0 && error.text() == zero_error("lease duration"@),
            },
    {
        if value == 0 {
            Err(DomainValueError::Zero { label: "lease duration" })
        } else {
            Ok(LeaseDurationMs { value })
        }
    }

    pub fn get(self) -> (r: u64)
        ensures
            r == self@,
            r > 0,
    {
        proof {
            use_type_invariant(&self);
        }
        self.value
    }
}

/// Positive bound on the members that one reap removes.
#[derive(Debug, Clone, Copy, PartialEq, Eq, PartialOrd, Ord, Hash, Structural)]
pub struct ReapMemberLimit {
    value: usize,
}

impl View for ReapMemberLimit {
    type V = usize;

    closed spec fn view(&self) -> usize {
        self.value
    }
}

impl ReapMemberLimit {
    /// The value is positive.
    #[verifier::type_invariant]
    pub open spec fn wf(&self) -> bool {
        self@ > 0
    }

    pub fn new(value: usize) -> (r: Result<Self, DomainValueError>)
        ensures
            match r {
                Ok(number) => value != 0 && number@ == value,
                Err(error) => value == 0 && error.text() == zero_error("stale-member reap limit"@),
            },
    {
        if value == 0 {
            Err(DomainValueError::Zero { label: "stale-member reap limit" })
        } else {
            Ok(ReapMemberLimit { value })
        }
    }

    pub fn get(self) -> (r: usize)
        ensures
            r == self@,
            r > 0,
    {
        proof {
            use_type_invariant(&self);
        }
        self.value
    }
}

/// Positive bound on the Tasks that one prune removes.
#[derive(Debug, Clone, Copy, PartialEq, Eq, PartialOrd, Ord, Hash, Structural)]
pub struct PruneTaskLimit {
    value: usize,
}

impl View for PruneTaskLimit {
    type V = usize;

    closed spec fn view(&self) -> usize {
        self.value
    }
}

impl PruneTaskLimit {
    /// The value is positive.
    #[verifier::type_invariant]
    pub open spec fn wf(&self) -> bool {
        self@ > 0
    }

    pub fn new(value: usize) -> (r: Result<Self, DomainValueError>)
        ensures
            match r {
                Ok(number) => value != 0 && number@ == value,
                Err(error) => value == 0
                    && error.text() == zero_error("completed-Task prune limit"@),
            },
    {
        if value == 0 {
            Err(DomainValueError::Zero { label: "completed-Task prune limit" })
        } else {
            Ok(PruneTaskLimit { value })
        }
    }

    pub fn get(self) -> (r: usize)
        ensures
            r == self@,
            r > 0,
    {
        proof {
            use_type_invariant(&self);
        }
        self.value
    }
}

/// The texts of a list of validated texts.
pub open spec fn text_list<K: TextKind>(texts: Seq<DomainText<K>>) -> Seq<Seq<char>> {
    texts.map_values(|text: DomainText<K>| text@)
}

/// The texts of a list of strings.
pub open spec fn string_list(texts: Seq<String>) -> Seq<Seq<char>> {
    texts.map_values(|text: String| text@)
}

/// Capabilities that a member declares, in declaration order.
#[derive(Debug, PartialEq, Eq, PartialOrd, Ord, Hash)]
pub struct Capabilities {
    items: Vec<Capability>,
}

impl View for Capabilities {
    type V = Seq<Seq<char>>;

    closed spec fn view(&self) -> Seq<Seq<char>> {
        text_list(self.items@)
    }
}

/// Why the first refused capability of a list is refused, or `None` if all are accepted.
pub open spec fn capabilities_flaw(texts: Seq<Seq<char>>) -> Option<Seq<char>>
    decreases texts.len(),
{
    if texts.len() == 0 {
        None
    } else {
        match capabilities_flaw(texts.drop_last()) {
            Some(reason) => Some(reason),
            None => CapabilityKind::flaw(texts.last()),
        }
    }
}

impl Capabilities {
    /// Every capability obeys its rule.
    #[verifier::type_invariant]
    pub open spec fn wf(&self) -> bool {
        capabilities_flaw(self@) is None
    }

    /// Validate a list of capabilities.
    pub fn new(values: &Vec<String>) -> (r: Result<Self, DomainValueError>)
        ensures
            match r {
                Ok(capabilities) => capabilities@ == string_list(values@) && capabilities_flaw(
                    string_list(values@),
                ) is None,
                Err(error) => capabilities_flaw(string_list(values@)) matches Some(reason)
                    && error.text() == text_error("capability"@, reason),
            },
    {
        let mut items: Vec<Capability> = Vec::new();
        let mut index: usize = 0;
        assert(text_list(items@) =~= string_list(values@).take(0));
        while index < values.len()
            invariant
                index <= values@.len(),
                text_list(items@) == string_list(values@).take(index as int),
                capabilities_flaw(string_list(values@).take(index as int)) is None,
            decreases values.len() - index,
        {
            let ghost all = string_list(values@);
            assert(all.take(index + 1).drop_last() =~= all.take(index as int));
            assert(all.take(index + 1).last() == values@[index as int]@);
            match Capability::new(values[index].as_str()) {
                Ok(capability) => {
                    let ghost before = items@;
                    items.push(capability);
                    assert(text_list(items@) =~= text_list(before).push(capability@));
                    assert(text_list(items@) =~= all.take(index + 1));
                },
                Err(error) => {
                    proof {
                        flaw_of_prefix(all, index + 1);
                    }
                    return Err(error);
                },
            }
            index = index + 1;
        }
        assert(string_list(values@).take(index as int) =~= string_list(values@));
        Ok(Capabilities { items })
    }

    /// The number of declared capabilities.
    pub fn len(&self) -> (r: usize)
        ensures
            r == self@.len(),
    {
        self.items.len()
    }

    /// The capability at a position.
    pub fn get(&self, index: usize) -> (r: &str)
        requires
            index < self@.len(),
        ensures
            r@ == self@[index as int],
    {
        self.items[index].as_str()
    }
}

/// A flaw of a prefix is the flaw of the whole list.
proof fn flaw_of_prefix(texts: Seq<Seq<char>>, count: int)
    requires
        0 <= count <= texts.len(),
        capabilities_flaw(texts.take(count)) is Some,
    ensures
        capabilities_flaw(texts) == capabilities_flaw(texts.take(count)),
    decreases texts.len(),
{
    if count == texts.len() {
        assert(texts.take(count) =~= texts);
    } else {
        assert(texts.drop_last().take(count) =~= texts.take(count));
        flaw_of_prefix(texts.drop_last(), count);
    }
}

impl Clone for Capabilities {
    fn clone(&self) -> (r: Self)
        ensures
            r@ == self@,
    {
        proof {
            use_type_invariant(self);
        }
        let mut items: Vec<Capability> = Vec::new();
        let mut index: usize = 0;
        while index < self.items.len()
            invariant
                index <= self.items@.len(),
                items@ == self.items@.take(index as int),
            decreases self.items.len() - index,
        {
            items.push(self.items[index].clone());
            assert(items@ =~= self.items@.take(index + 1));
            index = index + 1;
        }
        assert(items@ =~= self.items@);
        Capabilities { items }
    }
}

/// Hot-state capacity of a Broker.
#[derive(Debug, Clone, Copy, PartialEq, Eq, Structural)]
pub struct BrokerCapacityPolicy {
    max_namespaces: usize,
    max_tasks_per_namespace: usize,
    max_groups_per_namespace: usize,
    max_members_per_group: usize,
}

/// What a capacity policy is, as plain values.
pub struct CapacityView {
    pub max_namespaces: usize,
    pub max_tasks_per_namespace: usize,
    pub max_groups_per_namespace: usize,
    pub max_members_per_group: usize,
}

impl View for BrokerCapacityPolicy {
    type V = CapacityView;

    closed spec fn view(&self) -> CapacityView {
        CapacityView {
            max_namespaces: self.max_namespaces,
            max_tasks_per_namespace: self.max_tasks_per_namespace,
            max_groups_per_namespace: self.max_groups_per_namespace,
            max_members_per_group: self.max_members_per_group,
        }
    }
}

impl BrokerCapacityPolicy {
    /// Every limit is positive.
    #[verifier::type_invariant]
    pub open spec fn wf(&self) -> bool {
        &&& self@.max_namespaces > 0
        &&& self@.max_tasks_per_namespace > 0
        &&& self@.max_groups_per_namespace > 0
        &&& self@.max_members_per_group > 0
    }

    /// A policy from four positive limits.
    pub fn new(
        max_namespaces: usize,
        max_tasks_per_namespace: usize,
        max_groups_per_namespace: usize,
        max_members_per_group: usize,
    ) -> (r: Result<Self, DomainValueError>)
        ensures
            match r {
                Ok(policy) => policy@ == (CapacityView {
                    max_namespaces,
                    max_tasks_per_namespace,
                    max_groups_per_namespace,
                    max_members_per_group,
                }) && max_namespaces > 0 && max_tasks_per_namespace > 0
                    && max_groups_per_namespace > 0 && max_members_per_group > 0,
                Err(error) => {
                    &&& max_namespaces == 0 || max_tasks_per_namespace == 0
                        || max_groups_per_namespace == 0 || max_members_per_group == 0
                    &&& error.text() == zero_error("Broker capacity"@)
                },
            },
    {
        if max_namespaces == 0 || max_tasks_per_namespace == 0 || max_groups_per_namespace == 0
            || max_members_per_group == 0 {
            return Err(DomainValueError::Zero { label: "Broker capacity" });
        }
        Ok(
            BrokerCapacityPolicy {
                max_namespaces,
                max_tasks_per_namespace,
                max_groups_per_namespace,
                max_members_per_group,
            },
        )
    }

    pub fn max_namespaces(&self) -> (r: usize)
        ensures
            r == self@.max_namespaces,
    {
        self.max_namespaces
    }

    pub fn max_tasks_per_namespace(&self) -> (r: usize)
        ensures
            r == self@.max_tasks_per_namespace,
    {
        self.max_tasks_per_namespace
    }

    pub fn max_groups_per_namespace(&self) -> (r: usize)
        ensures
            r == self@.max_groups_per_namespace,
    {
        self.max_groups_per_namespace
    }

    pub fn max_members_per_group(&self) -> (r: usize)
        ensures
            r == self@.max_members_per_group,
    {
        self.max_members_per_group
    }
}

impl Default for BrokerCapacityPolicy {
    fn default() -> (r: Self)
        ensures
            r@ == (CapacityView {
                max_namespaces: 64,
                max_tasks_per_namespace: 4096,
                max_groups_per_namespace: 64,
                max_members_per_group: 256,
            }),
    {
        BrokerCapacityPolicy {
            max_namespaces: 64,
            max_tasks_per_namespace: 4096,
            max_groups_per_namespace: 64,
            max_members_per_group: 256,
        }
    }
}

} // verus!
