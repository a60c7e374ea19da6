//! Application errors for what the Raft engine of a member reports.
use crate::error::{ambiguous_error, BrokerError, BrokerErrorCode, BrokerErrorView};
use crate::text::{decimal, push_decimal};
use vstd::prelude::*;

verus! {

/// Kind of Raft group that a member belongs to.
#[derive(Debug, Clone, Copy, PartialEq, Eq, Structural)]
pub enum RaftMode {
    Cluster,
    OneNode,
}

impl RaftMode {
    /// How a group is called in messages.
    pub open spec fn text(self) -> Seq<char> {
        match self {
            RaftMode::Cluster => "cluster"@,
            RaftMode::OneNode => "one-node"@,
        }
    }

    pub fn as_str(self) -> (r: &'static str)
        ensures
            r@ == self.text(),
    {
        match self {
            RaftMode::Cluster => "cluster",
            RaftMode::OneNode => "one-node",
        }
    }
}

/// The error for a failure of the durable Raft state.
pub open spec fn storage_failure(mode: RaftMode, error: Seq<char>) -> BrokerErrorView {
    ambiguous_error(
        BrokerErrorCode::PersistenceError,
        mode.text() + " Raft storage failed: "@ + error,
    )
}

/// The error for an engine that has stopped.
pub open spec fn engine_stopped(mode: RaftMode, error: Seq<char>) -> BrokerErrorView {
    ambiguous_error(
        BrokerErrorCode::PersistenceError,
        mode.text() + " Raft engine failed: "@ + error,
    )
}

/// The error for an operation that the engine refused.
pub open spec fn engine_failure(
    mode: RaftMode,
    operation: Seq<char>,
    error: Seq<char>,
) -> BrokerErrorView {
    ambiguous_error(
        BrokerErrorCode::TransportError,
        mode.text() + " Raft "@ + operation + " failed: "@ + error,
    )
}

/// The error of a member that is not the leader.
pub open spec fn not_leader(node_id: u64, leader: Option<u64>) -> BrokerErrorView {
    ambiguous_error(
        BrokerErrorCode::TransportError,
        match leader {
            Some(leader) => "cluster node "@ + decimal(node_id as nat)
                + " is not leader; current leader is "@ + decimal(leader as nat),
            None => "cluster node "@ + decimal(node_id as nat)
                + " is not leader and no current leader is known"@,
        },
    )
}

/// The error for an internal fault with a cause.
pub open spec fn internal_fault(what: Seq<char>, cause: Seq<char>) -> BrokerErrorView {
    ambiguous_error(BrokerErrorCode::InternalError, what + cause)
}

pub fn raft_storage_error(mode: RaftMode, error: &str) -> (r: BrokerError)
    ensures
        r@ == storage_failure(mode, error@),
{
    let message = mode.as_str().to_owned().concat(" Raft storage failed: ").concat(error);
    BrokerError::new(BrokerErrorCode::PersistenceError, message.as_str())
}

pub fn raft_fatal_error(mode: RaftMode, error: &str) -> (r: BrokerError)
    ensures
        r@ == engine_stopped(mode, error@),
{
    let message = mode.as_str().to_owned().concat(" Raft engine failed: ").concat(error);
    BrokerError::new(BrokerErrorCode::PersistenceError, message.as_str())
}

pub fn raft_engine_error(mode: RaftMode, operation: &str, error: &str) -> (r: BrokerError)
    ensures
        r@ == engine_failure(mode, operation@, error@),
{
    let message = mode.as_str().to_owned().concat(" Raft ").concat(operation).concat(
        " failed: ",
    ).concat(error);
    BrokerError::new(BrokerErrorCode::TransportError, message.as_str())
}

pub fn not_leader_error(node_id: u64, leader: Option<u64>) -> (r: BrokerError)
    ensures
        r@ == not_leader(node_id, leader),
{
    let mut message = "cluster node ".to_owned();
    push_decimal(&mut message, node_id);
    match leader {
        Some(leader) => {
            message.append(" is not leader; current leader is ");
            push_decimal(&mut message, leader);
        },
        None => message.append(" is not leader and no current leader is known"),
    }
    BrokerError::new(BrokerErrorCode::TransportError, message.as_str())
}

pub(crate) fn internal_error(what: &str, cause: &str) -> (r: BrokerError)
    ensures
        r@ == internal_fault(what@, cause@),
{
    let message = what.to_owned().concat(cause);
    BrokerError::new(BrokerErrorCode::InternalError, message.as_str())
}

} // verus!
