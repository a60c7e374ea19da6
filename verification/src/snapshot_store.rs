//! Naming, completeness and restoring of durable snapshots.
use crate::broker::BrokerStateMachine;
use crate::command_sessions::{CommandSessions, SessionView};
use crate::consensus_snapshot::SnapshotDataError;
use crate::error::StateMachineError;
use crate::raft_state_machine::LogPosition;
use crate::session_snapshot::{
    all_restorable, decode_sessions, record_list, restored_snapshot, CommandSessionsSnapshotV1,
};
use crate::text::{decimal, push_decimal};
use vstd::prelude::*;

verus! {

/// The id of a snapshot: what it covers and the Broker revision.
pub open spec fn snapshot_id_text(last_applied: Option<LogPosition>, revision: u64) -> Seq<char> {
    match last_applied {
        Some(position) => "agent-broker-T"@ + decimal(position.leader_term as nat) + "-N"@
            + decimal(position.leader_node_id as nat) + "-"@ + decimal(position.index as nat)
            + "-"@ + decimal(revision as nat),
        None => "agent-broker-empty-"@ + decimal(revision as nat),
    }
}

/// Name a snapshot.
pub fn snapshot_id(last_applied: Option<LogPosition>, revision: u64) -> (r: String)
    ensures
        r@ == snapshot_id_text(last_applied, revision),
{
    match last_applied {
        Some(position) => {
            let mut id = "agent-broker-T".to_owned();
            push_decimal(&mut id, position.leader_term);
            id.append("-N");
            push_decimal(&mut id, position.leader_node_id);
            id.append("-");
            push_decimal(&mut id, position.index);
            id.append("-");
            push_decimal(&mut id, revision);
            id
        },
        None => {
            let mut id = "agent-broker-empty-".to_owned();
            push_decimal(&mut id, revision);
            id
        },
    }
}

/// Put the two durable parts of a snapshot together. One without the other is refused.
pub fn complete_pair<M, D>(meta: Option<M>, data: Option<D>) -> (r: Result<
    Option<(M, D)>,
    SnapshotDataError,
>)
    ensures
        match (meta, data) {
            (None, None) => r == Ok::<Option<(M, D)>, SnapshotDataError>(None),
            (Some(meta), Some(data)) => r == Ok::<_, SnapshotDataError>(Some((meta, data))),
            _ => r matches Err(error) && error@
                == "persisted Raft snapshot metadata/data pair is incomplete"@,
        },
{
    match (meta, data) {
        (None, None) => Ok(None),
        (Some(meta), Some(data)) => Ok(Some((meta, data))),
        _ => Err(
            SnapshotDataError::new("persisted Raft snapshot metadata/data pair is incomplete"),
        ),
    }
}

/// Whether `r` is what a session list beside a Broker snapshot restores to: no sessions where there
/// is no list, and otherwise the sessions of the list, or why it is refused. A list that could not
/// be read is refused with the error of the read.
pub open spec fn is_restored_list(
    list: Option<Result<CommandSessionsSnapshotV1, String>>,
    r: Result<Map<Seq<char>, SessionView>, Seq<char>>,
) -> bool {
    r == match list {
        None => Ok(Map::empty()),
        Some(Err(error)) => Err(error@),
        Some(Ok(snapshot)) => restored_snapshot(snapshot.version, record_list(snapshot.records@)),
    }
}

/// Restore the Broker and the command sessions of a snapshot. Both are restored, or neither is. A
/// snapshot without a session list has no sessions. The Broker is checked first.
pub fn restore_parts<B: BrokerStateMachine>(
    checkpoint: B::Checkpoint,
    list: Option<Result<CommandSessionsSnapshotV1, String>>,
) -> (r: Result<(B, CommandSessions), SnapshotDataError>)
    ensures
        exists|built: Result<B, StateMachineError>| #[trigger]
            call_ensures(B::from_checkpoint, (checkpoint,), built) && match built {
                Err(error) => r matches Err(refusal) && refusal@ == error.message@,
                Ok(broker) => match r {
                    Ok((restored, sessions)) => {
                        &&& restored == broker
                        &&& is_restored_list(list, Ok(sessions@))
                        &&& all_restorable(sessions@)
                    },
                    Err(refusal) => is_restored_list(list, Err(refusal@)),
                },
            },
{
    let built = B::from_checkpoint(checkpoint);
    let broker = match built {
        Ok(broker) => broker,
        Err(error) => return Err(SnapshotDataError::new(error.message.as_str())),
    };
    match list {
        None => Ok((broker, CommandSessions::new())),
        Some(Err(error)) => Err(SnapshotDataError::new(error.as_str())),
        Some(Ok(snapshot)) => match decode_sessions(&snapshot) {
            Ok(sessions) => Ok((broker, sessions)),
            Err(error) => Err(error),
        },
    }
}

} // verus!
