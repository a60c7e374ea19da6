//! Failures of the Broker clients.
use crate::error::BrokerError;
use crate::protocol::{Operation, ProtocolCodecError, ResponseDecodeError};
use crate::session_state::ClientSessionStoreError;
use vstd::prelude::*;

verus! {

/// Stable failure categories of a client. None of them implies a retry of a mutation.
#[derive(Debug, PartialEq, Eq)]
pub enum ClientError {
    Transport(String),
    Protocol(ProtocolCodecError),
    Broker(BrokerError),
    UnexpectedPayload(Operation),
    RequestIdExhausted,
}

impl ClientError {
    /// The text of a failure.
    pub open spec fn text(self) -> Seq<char> {
        match self {
            ClientError::Transport(message) => "Broker transport failed: "@ + message@,
            ClientError::Protocol(error) => error.text(),
            ClientError::Broker(error) => error@.message,
            ClientError::UnexpectedPayload(operation) => {
                "Broker response payload does not match "@ + operation.text()
            },
            ClientError::RequestIdExhausted => "Broker client request IDs exhausted"@,
        }
    }

    /// Render the failure for people.
    pub fn message(&self) -> (r: String)
        ensures
            r@ == self.text(),
    {
        match self {
            ClientError::Transport(message) => {
                "Broker transport failed: ".to_owned().concat(message.as_str())
            },
            ClientError::Protocol(error) => error.message(),
            ClientError::Broker(error) => error.message().to_owned(),
            ClientError::UnexpectedPayload(operation) => {
                "Broker response payload does not match ".to_owned().concat(operation.as_str())
            },
            ClientError::RequestIdExhausted => "Broker client request IDs exhausted".to_owned(),
        }
    }
}

/// Failure of an execution or a recovery with durable local state.
#[derive(Debug, PartialEq, Eq)]
pub enum DurableExecutionError {
    Client(ClientError),
    SessionStore(ClientSessionStoreError),
}

impl DurableExecutionError {
    /// The text of a failure.
    pub open spec fn text(self) -> Seq<char> {
        match self {
            DurableExecutionError::Client(error) => error.text(),
            DurableExecutionError::SessionStore(error) => error@.text(),
        }
    }

    /// Render the failure for people.
    pub fn message(&self) -> (r: String)
        ensures
            r@ == self.text(),
    {
        match self {
            DurableExecutionError::Client(error) => error.message(),
            DurableExecutionError::SessionStore(error) => error.message(),
        }
    }
}

/// What a client reports of a decoded answer.
pub open spec fn client_outcome<P>(decoded: Result<P, ResponseDecodeError>) -> Result<
    P,
    ClientError,
> {
    match decoded {
        Ok(payload) => Ok(payload),
        Err(ResponseDecodeError::Protocol(error)) => Err(ClientError::Protocol(error)),
        Err(ResponseDecodeError::Broker(error)) => Err(ClientError::Broker(error)),
    }
}

/// Report a decoded answer.
pub fn classify_response<P>(decoded: Result<P, ResponseDecodeError>) -> (r: Result<P, ClientError>)
    ensures
        r == client_outcome(decoded),
{
    match decoded {
        Ok(payload) => Ok(payload),
        Err(ResponseDecodeError::Protocol(error)) => Err(ClientError::Protocol(error)),
        Err(ResponseDecodeError::Broker(error)) => Err(ClientError::Broker(error)),
    }
}

/// Whether a failure leaves the connection in an unknown state, so that it is closed.
pub open spec fn is_connection_failure<P>(outcome: Result<P, ClientError>) -> bool {
    outcome matches Err(ClientError::Transport(_)) || outcome matches Err(ClientError::Protocol(_))
}

/// Test whether an outcome closes the connection.
pub fn closes_connection<P>(outcome: &Result<P, ClientError>) -> (r: bool)
    ensures
        r == is_connection_failure(*outcome),
{
    match outcome {
        Err(ClientError::Transport(_)) => true,
        Err(ClientError::Protocol(_)) => true,
        _ => false,
    }
}

} // verus!
