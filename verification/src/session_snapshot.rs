//! Durable list of the command sessions beside a Broker snapshot.
use crate::command_identity::{
    CommandIdentityError, CommandSequence, CommandSessionId, SessionOwnerEpoch,
    SessionOwnerInstanceId,
};
use crate::command_sessions::{
    entries_ascend, entries_map, CommandSessionOutcome, CommandSessionRecord, CommandSessions,
    OutcomeView, SessionEntry, SessionView, MAX_COMMAND_SESSIONS,
};
use crate::consensus_snapshot::{SnapshotDataError, CONSENSUS_SNAPSHOT_VERSION};
use crate::replicated_command::{decode_finding, first_of, ReplicatedBrokerCommandV1, WireCommand};
use crate::replicated_response::{
    normalized_outcome, optional_text, response_finding, ReplicatedBrokerResponseV1,
};
use crate::text::{decimal, push_decimal, text_less};
use vstd::prelude::*;

verus! {

/// Durable form of one command session.
#[derive(Debug, PartialEq, Eq)]
pub struct CommandSessionSnapshotRecordV1 {
    pub session_id: String,
    pub owner_epoch: u64,
    pub owner_instance_id: Option<String>,
    pub sequence: Option<u64>,
    pub command: Option<ReplicatedBrokerCommandV1>,
    pub response: Option<ReplicatedBrokerResponseV1>,
}

/// Durable form of all command sessions.
#[derive(Debug, PartialEq, Eq)]
pub struct CommandSessionsSnapshotV1 {
    pub version: u32,
    pub records: Vec<CommandSessionSnapshotRecordV1>,
}

/// The plain values of a durable session.
pub struct RecordView {
    pub session_id: Seq<char>,
    pub owner_epoch: u64,
    pub owner_instance_id: Option<Seq<char>>,
    pub sequence: Option<u64>,
    pub command: Option<WireCommand>,
    pub response: Option<ReplicatedBrokerResponseV1>,
}

impl View for CommandSessionSnapshotRecordV1 {
    type V = RecordView;

    open spec fn view(&self) -> RecordView {
        RecordView {
            session_id: self.session_id@,
            owner_epoch: self.owner_epoch,
            owner_instance_id: optional_text(self.owner_instance_id),
            sequence: self.sequence,
            command: match self.command {
                Some(command) => Some(command@),
                None => None,
            },
            response: self.response,
        }
    }
}

/// The plain values of a list of durable sessions.
pub open spec fn record_list(records: Seq<CommandSessionSnapshotRecordV1>) -> Seq<RecordView> {
    records.map_values(|record: CommandSessionSnapshotRecordV1| record@)
}

/// The durable form of one session.
pub open spec fn durable_session(session_id: Seq<char>, session: SessionView) -> RecordView {
    RecordView {
        session_id,
        owner_epoch: session.owner_epoch,
        owner_instance_id: session.owner_instance_id,
        sequence: match session.last_outcome {
            Some(outcome) => Some(outcome.sequence),
            None => None,
        },
        command: match session.last_outcome {
            Some(outcome) => Some(outcome.command),
            None => None,
        },
        response: match session.last_outcome {
            Some(outcome) => Some(outcome.response),
            None => None,
        },
    }
}

/// The durable forms of a list of entries, in their order.
pub open spec fn durable_entries(entries: Seq<SessionEntry>) -> Seq<RecordView> {
    entries.map_values(|entry: SessionEntry| durable_session(entry.session_id@, entry.record@))
}

/// The session of a durable form.
pub open spec fn restored_session(record: RecordView) -> SessionView {
    SessionView {
        owner_epoch: record.owner_epoch,
        owner_instance_id: record.owner_instance_id,
        last_outcome: match (record.sequence, record.command, record.response) {
            (Some(sequence), Some(command), Some(response)) => Some(
                OutcomeView { sequence, command, response: normalized_outcome(response) },
            ),
            _ => None,
        },
    }
}

/// The finding on the outcome fields of a durable session.
pub open spec fn outcome_finding(
    sequence: Option<u64>,
    command: Option<WireCommand>,
    response: Option<ReplicatedBrokerResponseV1>,
) -> Option<Seq<char>> {
    match (sequence, command, response) {
        (None, None, None) => None,
        (Some(number), Some(wire), Some(answer)) => first_of(
            if number == 0 {
                Some(CommandIdentityError::ZeroSequence.text())
            } else {
                None
            },
            first_of(decode_finding(wire), response_finding(normalized_outcome(answer))),
        ),
        _ => Some("command session snapshot outcome fields must be all present or all absent"@),
    }
}

/// The finding on one durable session.
pub open spec fn record_finding(record: RecordView) -> Option<Seq<char>> {
    first_of(
        match CommandSessionId::flaw(record.session_id) {
            Some(reason) => Some("invalid command_session_id: "@ + reason),
            None => None,
        },
        first_of(
            if record.owner_epoch == 0 {
                Some(CommandIdentityError::ZeroOwnerEpoch.text())
            } else {
                None
            },
            first_of(
                match record.owner_instance_id {
                    Some(text) => match SessionOwnerInstanceId::flaw(text) {
                        Some(reason) => Some(
                            "invalid command_session_owner_instance_id: "@ + reason,
                        ),
                        None => None,
                    },
                    None => None,
                },
                outcome_finding(record.sequence, record.command, record.response),
            ),
        ),
    )
}

/// The sessions of a list of durable forms, or why the list is refused.
pub open spec fn restored_sessions(records: Seq<RecordView>) -> Result<
    Map<Seq<char>, SessionView>,
    Seq<char>,
>
    decreases records.len(),
{
    if records.len() == 0 {
        Ok(Map::empty())
    } else {
        match restored_sessions(records.drop_last()) {
            Err(finding) => Err(finding),
            Ok(sessions) => {
                let record = records.last();
                match record_finding(record) {
                    Some(finding) => Err(finding),
                    None => if sessions.dom().contains(record.session_id) {
                        Err("command session snapshot contains duplicate session_id"@)
                    } else {
                        Ok(sessions.insert(record.session_id, restored_session(record)))
                    },
                }
            },
        }
    }
}

/// The sessions of a durable list with its version, or why it is refused.
pub open spec fn restored_snapshot(version: u32, records: Seq<RecordView>) -> Result<
    Map<Seq<char>, SessionView>,
    Seq<char>,
> {
    if version != CONSENSUS_SNAPSHOT_VERSION {
        Err("unsupported command session snapshot version "@ + decimal(version as nat))
    } else if records.len() > MAX_COMMAND_SESSIONS {
        Err("command session snapshot exceeds capacity 4096"@)
    } else {
        restored_sessions(records)
    }
}

/// The durable form of all sessions, in the order of their identifiers.
pub fn encode_sessions(sessions: &CommandSessions) -> (r: CommandSessionsSnapshotV1)
    ensures
        r.version == CONSENSUS_SNAPSHOT_VERSION,
        record_list(r.records@) == durable_entries(sessions.spec_entries()),
        entries_ascend(sessions.spec_entries()),
        entries_map(sessions.spec_entries()) == sessions@,
        all_restorable(sessions@) && sessions@.dom().len() <= MAX_COMMAND_SESSIONS
            ==> restored_snapshot(r.version, record_list(r.records@)) == Ok::<
            Map<Seq<char>, SessionView>,
            Seq<char>,
        >(sessions@),
{
    let entries = sessions.entries();
    let mut records: Vec<CommandSessionSnapshotRecordV1> = Vec::new();
    let mut index: usize = 0;
    assert(record_list(records@) =~= durable_entries(entries@).take(0));
    while index < entries.len()
        invariant
            index <= entries@.len(),
            record_list(records@) == durable_entries(entries@).take(index as int),
        decreases entries.len() - index,
    {
        let entry = &entries[index];
        let record = CommandSessionSnapshotRecordV1 {
            session_id: entry.session_id.as_str().to_owned(),
            owner_epoch: entry.record.owner_epoch.get(),
            owner_instance_id: match &entry.record.owner_instance_id {
                Some(instance) => Some(instance.as_str().to_owned()),
                None => None,
            },
            sequence: match &entry.record.last_outcome {
                Some(outcome) => Some(outcome.sequence.get()),
                None => None,
            },
            command: match &entry.record.last_outcome {
                Some(outcome) => Some(outcome.command.clone()),
                None => None,
            },
            response: match &entry.record.last_outcome {
                Some(outcome) => Some(outcome.response.clone()),
                None => None,
            },
        };
        let ghost before = records@;
        records.push(record);
        proof {
            assert(record@ == durable_session(entry.session_id@, entry.record@));
            assert(record_list(records@) =~= record_list(before).push(record@));
            assert(record_list(records@) =~= durable_entries(entries@).take(index + 1));
        }
        index = index + 1;
    }
    assert(durable_entries(entries@).take(index as int) =~= durable_entries(entries@));
    proof {
        if all_restorable(sessions@) && sessions@.dom().len() <= MAX_COMMAND_SESSIONS {
            crate::command_sessions::lemma_entries_len(entries@);
            assert forall|i: int| 0 <= i < entries@.len() implies restorable(
                (#[trigger] entries@[i]).session_id@,
                entries@[i].record@,
            ) by {
                crate::command_sessions::lemma_entry_at(entries@, i);
            }
            law_sessions_survive_a_snapshot(entries@);
        }
    }
    CommandSessionsSnapshotV1 { version: CONSENSUS_SNAPSHOT_VERSION, records }
}

fn identity_data_error(error: CommandIdentityError) -> (r: SnapshotDataError)
    ensures
        r@ == error.text(),
{
    SnapshotDataError::new(error.message().as_str())
}

/// The outcome of a durable session, with command and response checked again.
fn decode_command_session_outcome(record: &CommandSessionSnapshotRecordV1) -> (r: Result<
    Option<CommandSessionOutcome>,
    SnapshotDataError,
>)
    ensures
        match r {
            Ok(outcome) => {
                &&& outcome_finding(record@.sequence, record@.command, record@.response) is None
                &&& restored_session(record@).last_outcome == match outcome {
                    Some(value) => Some(value@),
                    None => None,
                }
            },
            Err(error) => outcome_finding(record@.sequence, record@.command, record@.response)
                == Some(error@),
        },
{
    match (&record.sequence, &record.command, &record.response) {
        (None, None, None) => Ok(None),
        (Some(number), Some(command), Some(response)) => {
            let sequence = match CommandSequence::new(*number) {
                Ok(sequence) => sequence,
                Err(error) => return Err(identity_data_error(error)),
            };
            match command.to_command() {
                Ok(_) => {},
                Err(error) => return Err(SnapshotDataError::new(error.message())),
            }
            let response = response.clone().normalize_stored_session_outcome();
            match response.application_result() {
                Ok(_) => {},
                Err(error) => return Err(SnapshotDataError::new(error.message())),
            }
            Ok(Some(CommandSessionOutcome { sequence, command: command.clone(), response }))
        },
        _ => Err(
            SnapshotDataError::new(
                "command session snapshot outcome fields must be all present or all absent",
            ),
        ),
    }
}

/// The sessions of a list of durable forms.
pub fn decode_command_session_records(records: &Vec<CommandSessionSnapshotRecordV1>) -> (r: Result<
    CommandSessions,
    SnapshotDataError,
>)
    ensures
        match r {
            Ok(sessions) => restored_sessions(record_list(records@)) == Ok::<
                Map<Seq<char>, SessionView>,
                Seq<char>,
            >(sessions@),
            Err(error) => restored_sessions(record_list(records@)) == Err::<
                Map<Seq<char>, SessionView>,
                Seq<char>,
            >(error@),
        },
{
    let mut sessions = CommandSessions::new();
    let mut index: usize = 0;
    let ghost list = record_list(records@);
    assert(list.take(0) =~= seq![]);
    while index < records.len()
        invariant
            index <= records@.len(),
            list == record_list(records@),
            restored_sessions(list.take(index as int)) == Ok::<
                Map<Seq<char>, SessionView>,
                Seq<char>,
            >(sessions@),
        decreases records.len() - index,
    {
        let record = &records[index];
        proof {
            assert(list.take(index + 1).drop_last() =~= list.take(index as int));
            assert(list.take(index + 1).last() == record@);
            lemma_refused_prefix(list, index + 1);
        }
        let session_id = match CommandSessionId::new(record.session_id.as_str()) {
            Ok(session_id) => session_id,
            Err(error) => return Err(identity_data_error(error)),
        };
        let owner_epoch = match SessionOwnerEpoch::new(record.owner_epoch) {
            Ok(owner_epoch) => owner_epoch,
            Err(error) => return Err(identity_data_error(error)),
        };
        let owner_instance_id = match &record.owner_instance_id {
            Some(text) => match SessionOwnerInstanceId::new(text.as_str()) {
                Ok(instance) => Some(instance),
                Err(error) => return Err(identity_data_error(error)),
            },
            None => None,
        };
        let last_outcome = match decode_command_session_outcome(record) {
            Ok(last_outcome) => last_outcome,
            Err(error) => return Err(error),
        };
        if sessions.get(&session_id).is_some() {
            return Err(
                SnapshotDataError::new("command session snapshot contains duplicate session_id"),
            );
        }
        sessions.insert(
            &session_id,
            CommandSessionRecord { owner_epoch, owner_instance_id, last_outcome },
        );
        index = index + 1;
    }
    assert(list.take(index as int) =~= list);
    Ok(sessions)
}

/// The sessions of a durable list.
pub fn decode_sessions(snapshot: &CommandSessionsSnapshotV1) -> (r: Result<
    CommandSessions,
    SnapshotDataError,
>)
    ensures
        match r {
            Ok(sessions) => restored_snapshot(snapshot.version, record_list(snapshot.records@))
                == Ok::<Map<Seq<char>, SessionView>, Seq<char>>(sessions@) && all_restorable(
                sessions@,
            ),
            Err(error) => restored_snapshot(snapshot.version, record_list(snapshot.records@))
                == Err::<Map<Seq<char>, SessionView>, Seq<char>>(error@),
        },
{
    if snapshot.version != CONSENSUS_SNAPSHOT_VERSION {
        let mut message = "unsupported command session snapshot version ".to_owned();
        push_decimal(&mut message, snapshot.version as u64);
        return Err(SnapshotDataError::new(message.as_str()));
    }
    if snapshot.records.len() > MAX_COMMAND_SESSIONS {
        return Err(SnapshotDataError::new("command session snapshot exceeds capacity 4096"));
    }
    proof {
        lemma_restored_sessions_are_restorable(record_list(snapshot.records@));
    }
    decode_command_session_records(&snapshot.records)
}

/// A list whose beginning is refused is refused for the same reason.
proof fn lemma_refused_prefix(records: Seq<RecordView>, count: int)
    requires
        0 <= count <= records.len(),
    ensures
        restored_sessions(records.take(count)) matches Err(finding) ==> restored_sessions(records)
            == Err::<Map<Seq<char>, SessionView>, Seq<char>>(finding),
    decreases records.len(),
{
    if count == records.len() {
        assert(records.take(count) =~= records);
    } else {
        assert(records.drop_last().take(count) =~= records.take(count));
        lemma_refused_prefix(records.drop_last(), count);
    }
}

/// The values of a session are valid, and its outcome is one that a restore accepts: the command is
/// a domain command, the response holds an application result, and a stored error is committed.
pub open spec fn restorable(session_id: Seq<char>, session: SessionView) -> bool {
    &&& CommandSessionId::flaw(session_id) is None
    &&& session.owner_epoch > 0
    &&& session.owner_instance_id matches Some(text) ==> SessionOwnerInstanceId::flaw(text) is None
    &&& session.last_outcome matches Some(outcome) ==> {
        &&& outcome.sequence > 0
        &&& decode_finding(outcome.command) is None
        &&& normalized_outcome(outcome.response) == outcome.response
        &&& response_finding(outcome.response) is None
    }
}

/// Every session is one that a restore accepts.
pub open spec fn all_restorable(sessions: Map<Seq<char>, SessionView>) -> bool {
    forall|session_id: Seq<char>| #[trigger]
        sessions.contains_key(session_id) ==> restorable(session_id, sessions[session_id])
}

/// Sessions that were restored can be restored again.
proof fn lemma_restored_sessions_are_restorable(records: Seq<RecordView>)
    ensures
        restored_sessions(records) matches Ok(sessions) ==> all_restorable(sessions),
    decreases records.len(),
{
    if records.len() > 0 {
        lemma_restored_sessions_are_restorable(records.drop_last());
    }
}

/// Restoring the durable form of sessions gives back exactly the same sessions, so owners stay
/// fenced and exact retries keep their committed answers across a snapshot.
pub proof fn law_sessions_survive_a_snapshot(entries: Seq<SessionEntry>)
    requires
        entries_ascend(entries),
        entries.len() <= MAX_COMMAND_SESSIONS,
        forall|i: int|
            0 <= i < entries.len() ==> restorable(
                (#[trigger] entries[i]).session_id@,
                entries[i].record@,
            ),
    ensures
        restored_snapshot(CONSENSUS_SNAPSHOT_VERSION, durable_entries(entries)) == Ok::<
            Map<Seq<char>, SessionView>,
            Seq<char>,
        >(entries_map(entries)),
{
    lemma_restored_entries(entries);
}

proof fn lemma_restored_entries(entries: Seq<SessionEntry>)
    requires
        entries_ascend(entries),
        forall|i: int|
            0 <= i < entries.len() ==> restorable(
                (#[trigger] entries[i]).session_id@,
                entries[i].record@,
            ),
    ensures
        restored_sessions(durable_entries(entries)) == Ok::<
            Map<Seq<char>, SessionView>,
            Seq<char>,
        >(entries_map(entries)),
    decreases entries.len(),
{
    let records = durable_entries(entries);
    if entries.len() == 0 {
        assert(entries_map(entries) =~= Map::<Seq<char>, SessionView>::empty());
    } else {
        let rest = entries.drop_last();
        let last = entries.last();
        assert(records.drop_last() =~= durable_entries(rest));
        assert(records.last() == durable_session(last.session_id@, last.record@));
        assert(entries_ascend(rest)) by {
            assert forall|i: int, j: int| 0 <= i < j < rest.len() implies text_less(
                #[trigger] rest[i].session_id@,
                #[trigger] rest[j].session_id@,
            ) by {
                assert(text_less(entries[i].session_id@, entries[j].session_id@));
            }
        }
        lemma_restored_entries(rest);
        crate::command_sessions::lemma_last_entry(entries);
        assert(restored_session(records.last()) == last.record@);
    }
}

} // verus!
