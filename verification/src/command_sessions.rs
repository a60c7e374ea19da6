//! Broker-authoritative state of the command sessions.
use crate::command_identity::{
    instance_view, CommandSequence, CommandSessionId, SessionOwnerEpoch, SessionOwnerInstanceId,
};
use crate::replicated_command::{ReplicatedBrokerCommandV1, WireCommand};
use crate::replicated_response::ReplicatedBrokerResponseV1;
use crate::text::{
    comes_before, lemma_text_less_irreflexive, lemma_text_less_total, lemma_text_less_transitive,
    text_less,
};
use vstd::prelude::*;

verus! {

/// Largest number of command sessions that are held at one time.
pub const MAX_COMMAND_SESSIONS: usize = 4096;

/// The last committed command of a session under its current owner.
#[derive(Debug, PartialEq, Eq)]
pub struct CommandSessionOutcome {
    pub sequence: CommandSequence,
    pub command: ReplicatedBrokerCommandV1,
    pub response: ReplicatedBrokerResponseV1,
}

/// Owner and last outcome of one command session.
#[derive(Debug, PartialEq, Eq)]
pub struct CommandSessionRecord {
    pub owner_epoch: SessionOwnerEpoch,
    pub owner_instance_id: Option<SessionOwnerInstanceId>,
    pub last_outcome: Option<CommandSessionOutcome>,
}

/// The plain values of a last outcome.
pub struct OutcomeView {
    pub sequence: u64,
    pub command: WireCommand,
    pub response: ReplicatedBrokerResponseV1,
}

/// The plain values of a session record.
pub struct SessionView {
    pub owner_epoch: u64,
    pub owner_instance_id: Option<Seq<char>>,
    pub last_outcome: Option<OutcomeView>,
}

impl View for CommandSessionOutcome {
    type V = OutcomeView;

    open spec fn view(&self) -> OutcomeView {
        OutcomeView {
            sequence: self.sequence@,
            command: self.command@,
            response: self.response,
        }
    }
}

impl View for CommandSessionRecord {
    type V = SessionView;

    open spec fn view(&self) -> SessionView {
        SessionView {
            owner_epoch: self.owner_epoch@,
            owner_instance_id: instance_view(self.owner_instance_id),
            last_outcome: match self.last_outcome {
                Some(outcome) => Some(outcome@),
                None => None,
            },
        }
    }
}

/// One session and its record.
#[derive(Debug, PartialEq, Eq)]
pub struct SessionEntry {
    pub session_id: CommandSessionId,
    pub record: CommandSessionRecord,
}

/// The command sessions, in the order of their identifiers.
#[derive(Debug, PartialEq, Eq)]
pub struct CommandSessions {
    entries: Vec<SessionEntry>,
}

/// The identifiers of a list of entries.
pub open spec fn entry_keys(entries: Seq<SessionEntry>) -> Seq<Seq<char>> {
    entries.map_values(|entry: SessionEntry| entry.session_id@)
}

/// Whether entries stand in strictly ascending order of their identifiers.
pub open spec fn entries_ascend(entries: Seq<SessionEntry>) -> bool {
    forall|i: int, j: int|
        0 <= i < j < entries.len() ==> text_less(
            #[trigger] entries[i].session_id@,
            #[trigger] entries[j].session_id@,
        )
}

/// The sessions of a list of entries.
pub open spec fn entries_map(entries: Seq<SessionEntry>) -> Map<Seq<char>, SessionView> {
    Map::new(
        |key: Seq<char>| entry_keys(entries).contains(key),
        |key: Seq<char>| entries[entry_keys(entries).index_of(key)].record@,
    )
}

/// Distinct identifiers: an identifier is found at one position only.
pub proof fn lemma_entry_at(entries: Seq<SessionEntry>, index: int)
    requires
        entries_ascend(entries),
        0 <= index < entries.len(),
    ensures
        entry_keys(entries).contains(entries[index].session_id@),
        entry_keys(entries).index_of(entries[index].session_id@) == index,
        entries_map(entries).dom().contains(entries[index].session_id@),
        entries_map(entries)[entries[index].session_id@] == entries[index].record@,
{
    let keys = entry_keys(entries);
    let key = entries[index].session_id@;
    assert(keys[index] == key);
    let found = keys.index_of(key);
    assert(0 <= found < keys.len() && keys[found] == key);
    if found != index {
        lemma_text_less_irreflexive(key);
        if found < index {
            assert(text_less(entries[found].session_id@, entries[index].session_id@));
        } else {
            assert(text_less(entries[index].session_id@, entries[found].session_id@));
        }
    }
}

/// The number of sessions is the number of entries.
pub proof fn lemma_entries_len(entries: Seq<SessionEntry>)
    requires
        entries_ascend(entries),
    ensures
        entries_map(entries).dom().finite(),
        entries_map(entries).dom().len() == entries.len(),
{
    let keys = entry_keys(entries);
    assert(keys.no_duplicates()) by {
        assert forall|i: int, j: int| 0 <= i < j < keys.len() implies keys[i] != keys[j] by {
            lemma_text_less_irreflexive(keys[i]);
            assert(text_less(entries[i].session_id@, entries[j].session_id@));
        }
    }
    keys.unique_seq_to_set();
    assert(entries_map(entries).dom() =~= keys.to_set());
    vstd::seq_lib::seq_to_set_is_finite(keys);
}

impl View for CommandSessions {
    type V = Map<Seq<char>, SessionView>;

    closed spec fn view(&self) -> Map<Seq<char>, SessionView> {
        entries_map(self.entries@)
    }
}

impl CommandSessions {
    /// The entries stand in strictly ascending order.
    #[verifier::type_invariant]
    spec fn in_order(&self) -> bool {
        entries_ascend(self.entries@)
    }

    /// The entries in the order of their identifiers.
    pub closed spec fn spec_entries(&self) -> Seq<SessionEntry> {
        self.entries@
    }

    /// No session.
    pub fn new() -> (r: Self)
        ensures
            r@ == Map::<Seq<char>, SessionView>::empty(),
    {
        let r = CommandSessions { entries: Vec::new() };
        assert(r@ =~= Map::<Seq<char>, SessionView>::empty());
        r
    }

    /// The number of sessions.
    pub fn len(&self) -> (r: usize)
        ensures
            self@.dom().finite(),
            r == self@.dom().len(),
    {
        proof {
            use_type_invariant(self);
            lemma_entries_len(self.entries@);
        }
        self.entries.len()
    }

    /// The entries in the order of their identifiers.
    pub fn entries(&self) -> (r: &Vec<SessionEntry>)
        ensures
            r@ == self.spec_entries(),
            entries_ascend(r@),
            entries_map(r@) == self@,
    {
        proof {
            use_type_invariant(self);
        }
        &self.entries
    }

    /// The first position whose identifier does not come before `session_id`.
    fn position(&self, session_id: &CommandSessionId) -> (r: usize)
        ensures
            r <= self.entries@.len(),
            forall|i: int|
                0 <= i < r ==> text_less(
                    #[trigger] self.entries@[i].session_id@,
                    session_id@,
                ),
            r < self.entries@.len() ==> !text_less(
                self.entries@[r as int].session_id@,
                session_id@,
            ),
    {
        let mut index: usize = 0;
        while index < self.entries.len()
            invariant
                index <= self.entries@.len(),
                forall|i: int|
                    0 <= i < index ==> text_less(
                        #[trigger] self.entries@[i].session_id@,
                        session_id@,
                    ),
            decreases self.entries.len() - index,
        {
            if !comes_before(self.entries[index].session_id.as_str(), session_id.as_str()) {
                return index;
            }
            index = index + 1;
        }
        index
    }

    /// What is known of a position found for an identifier.
    proof fn lemma_position(entries: Seq<SessionEntry>, key: Seq<char>, at: int)
        requires
            entries_ascend(entries),
            0 <= at <= entries.len(),
            forall|i: int| 0 <= i < at ==> text_less(#[trigger] entries[i].session_id@, key),
            at < entries.len() ==> !text_less(entries[at].session_id@, key),
        ensures
            entries_map(entries).dom().contains(key) <==> at < entries.len()
                && entries[at].session_id@ == key,
            at < entries.len() && entries[at].session_id@ != key ==> text_less(
                key,
                entries[at].session_id@,
            ),
    {
        lemma_text_less_irreflexive(key);
        if at < entries.len() {
            lemma_text_less_total(entries[at].session_id@, key);
            if entries[at].session_id@ == key {
                lemma_entry_at(entries, at);
            }
        }
        if entries_map(entries).dom().contains(key) {
            let found = entry_keys(entries).index_of(key);
            assert(entries[found].session_id@ == key);
            if found > at {
                assert(text_less(entries[at].session_id@, entries[found].session_id@));
            }
        }
    }

    /// The record of a session.
    pub fn get(&self, session_id: &CommandSessionId) -> (r: Option<&CommandSessionRecord>)
        ensures
            match r {
                Some(record) => self@.dom().contains(session_id@) && record@
                    == self@[session_id@],
                None => !self@.dom().contains(session_id@),
            },
    {
        let at: usize = self.position(session_id);
        proof {
            use_type_invariant(self);
            Self::lemma_position(self.entries@, session_id@, at as int);
        }
        if at < self.entries.len() && self.entries[at].session_id.same_as(session_id) {
            proof {
                lemma_entry_at(self.entries@, at as int);
            }
            Some(&self.entries[at].record)
        } else {
            None
        }
    }

    /// Set the record of a session.
    pub fn insert(&mut self, session_id: &CommandSessionId, record: CommandSessionRecord)
        ensures
            final(self)@ == old(self)@.insert(session_id@, record@),
    {
        let at: usize = self.position(session_id);
        let ghost before = self.entries@;
        proof {
            use_type_invariant(&*self);
            Self::lemma_position(before, session_id@, at as int);
        }
        let mut entries: Vec<SessionEntry> = Vec::new();
        core::mem::swap(&mut entries, &mut self.entries);
        let entry = SessionEntry { session_id: session_id.clone(), record };
        if at < entries.len() && entries[at].session_id.same_as(session_id) {
            entries.set(at, entry);
            proof {
                lemma_replace(before, at as int, entry);
            }
        } else {
            entries.insert(at, entry);
            proof {
                lemma_insert(before, at as int, entry);
            }
        }
        self.entries = entries;
    }
}

/// The last entry adds one session to those of the entries before it.
pub proof fn lemma_last_entry(entries: Seq<SessionEntry>)
    requires
        entries_ascend(entries),
        entries.len() > 0,
    ensures
        !entries_map(entries.drop_last()).dom().contains(entries.last().session_id@),
        entries_map(entries) == entries_map(entries.drop_last()).insert(
            entries.last().session_id@,
            entries.last().record@,
        ),
{
    let rest = entries.drop_last();
    let last = entries.last();
    let at = rest.len() as int;
    assert(entries_ascend(rest)) by {
        assert forall|i: int, j: int| 0 <= i < j < rest.len() implies text_less(
            #[trigger] rest[i].session_id@,
            #[trigger] rest[j].session_id@,
        ) by {
            assert(text_less(entries[i].session_id@, entries[j].session_id@));
        }
    }
    assert forall|i: int| 0 <= i < at implies text_less(
        #[trigger] rest[i].session_id@,
        last.session_id@,
    ) by {
        assert(text_less(entries[i].session_id@, entries[at].session_id@));
    }
    CommandSessions::lemma_position(rest, last.session_id@, at);
    lemma_insert(rest, at, last);
    assert(rest.insert(at, last) =~= entries);
}

/// Replacing the record of a session.
proof fn lemma_replace(entries: Seq<SessionEntry>, at: int, entry: SessionEntry)
    requires
        entries_ascend(entries),
        0 <= at < entries.len(),
        entries[at].session_id@ == entry.session_id@,
    ensures
        entries_ascend(entries.update(at, entry)),
        entries_map(entries.update(at, entry)) == entries_map(entries).insert(
            entry.session_id@,
            entry.record@,
        ),
{
    let after = entries.update(at, entry);
    assert(entry_keys(after) =~= entry_keys(entries));
    assert forall|i: int, j: int| 0 <= i < j < after.len() implies text_less(
        #[trigger] after[i].session_id@,
        #[trigger] after[j].session_id@,
    ) by {
        assert(text_less(entries[i].session_id@, entries[j].session_id@));
    }
    lemma_entry_at(after, at);
    assert forall|key: Seq<char>| #[trigger]
        entries_map(after).dom().contains(key) && key != entry.session_id@ implies entries_map(
        after,
    )[key] == entries_map(entries)[key] by {
        let found = entry_keys(after).index_of(key);
        lemma_entry_at(after, found);
        lemma_entry_at(entries, found);
    }
    lemma_entry_at(entries, at);
    assert(entries_map(after) =~= entries_map(entries).insert(entry.session_id@, entry.record@));
}

/// Adding a session at its place.
proof fn lemma_insert(entries: Seq<SessionEntry>, at: int, entry: SessionEntry)
    requires
        entries_ascend(entries),
        0 <= at <= entries.len(),
        forall|i: int|
            0 <= i < at ==> text_less(#[trigger] entries[i].session_id@, entry.session_id@),
        at < entries.len() ==> text_less(entry.session_id@, entries[at].session_id@),
    ensures
        entries_ascend(entries.insert(at, entry)),
        entries_map(entries.insert(at, entry)) == entries_map(entries).insert(
            entry.session_id@,
            entry.record@,
        ),
{
    let after = entries.insert(at, entry);
    assert forall|i: int, j: int| 0 <= i < j < after.len() implies text_less(
        #[trigger] after[i].session_id@,
        #[trigger] after[j].session_id@,
    ) by {
        if j < at {
            assert(after[i] == entries[i] && after[j] == entries[j]);
        } else if j == at {
            assert(after[i] == entries[i]);
        } else if i > at {
            assert(after[i] == entries[i - 1] && after[j] == entries[j - 1]);
        } else {
            assert(after[j] == entries[j - 1]);
            if j - 1 > at {
                assert(text_less(entries[at].session_id@, entries[j - 1].session_id@));
                lemma_text_less_transitive(
                    entry.session_id@,
                    entries[at].session_id@,
                    entries[j - 1].session_id@,
                );
            }
            assert(text_less(entry.session_id@, entries[j - 1].session_id@));
            if i < at {
                assert(after[i] == entries[i]);
                lemma_text_less_transitive(
                    entries[i].session_id@,
                    entry.session_id@,
                    entries[j - 1].session_id@,
                );
            }
        }
    }
    lemma_entry_at(after, at);
    assert forall|key: Seq<char>| #[trigger] entries_map(after).dom().contains(key) implies key
        == entry.session_id@ || (entries_map(entries).dom().contains(key) && entries_map(after)[key]
        == entries_map(entries)[key]) by {
        let found = entry_keys(after).index_of(key);
        lemma_entry_at(after, found);
        if found < at {
            assert(after[found] == entries[found]);
            lemma_entry_at(entries, found);
        } else if found > at {
            assert(after[found] == entries[found - 1]);
            lemma_entry_at(entries, found - 1);
        }
    }
    assert forall|key: Seq<char>| #[trigger]
        entries_map(entries).dom().contains(key) implies entries_map(after).dom().contains(key) by {
        let found = entry_keys(entries).index_of(key);
        if found < at {
            assert(after[found] == entries[found]);
            lemma_entry_at(after, found);
        } else {
            assert(after[found + 1] == entries[found]);
            lemma_entry_at(after, found + 1);
        }
    }
    assert(entries_map(after) =~= entries_map(entries).insert(entry.session_id@, entry.record@));
}

} // verus!
