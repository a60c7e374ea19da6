//! Bounds and retry policies of the Broker clients.
use crate::address::SocketAddress;
use crate::client_error::ClientError;
use crate::protocol::ProtocolCodecError;
use crate::text::{decimal, lemma_decimal_injective, push_decimal};
use crate::time_span::{TimeSpan, NANOS_PER_SECOND};
use vstd::prelude::*;

verus! {

pub const DEFAULT_MAX_RESPONSE_FRAME_BYTES: usize = 131_072;

pub const MIN_FRAME_BYTES: usize = 4_096;

pub const MAX_FRAME_BYTES: usize = 1_048_576;

pub const DEFAULT_PORT: u16 = 8_811;

pub const DEFAULT_TIMEOUT_SECONDS: u64 = 5;

/// Bound on the attempts of one command with durable local state.
#[derive(Debug, Clone, Copy, PartialEq, Eq, Structural)]
pub struct DurableRetryPolicy {
    max_attempts: usize,
}

impl View for DurableRetryPolicy {
    type V = usize;

    closed spec fn view(&self) -> usize {
        self.max_attempts
    }
}

impl DurableRetryPolicy {
    /// At least one attempt is made.
    #[verifier::type_invariant]
    spec fn wf(&self) -> bool {
        self.max_attempts > 0
    }

    /// A policy of `max_attempts` attempts, of which there must be one.
    pub fn new(max_attempts: usize) -> (r: Option<Self>)
        ensures
            match r {
                Some(policy) => policy@ == max_attempts && max_attempts > 0,
                None => max_attempts == 0,
            },
    {
        if max_attempts == 0 {
            None
        } else {
            Some(DurableRetryPolicy { max_attempts })
        }
    }

    pub fn max_attempts(self) -> (r: usize)
        ensures
            r == self@,
            r > 0,
    {
        proof {
            use_type_invariant(&self);
        }
        self.max_attempts
    }
}

/// Connection and answer bounds of a client.
#[derive(Debug, Clone, Copy, PartialEq, Eq, Structural)]
pub struct BrokerClientConfig {
    pub address: SocketAddress,
    pub timeout: TimeSpan,
    pub max_response_frame_bytes: usize,
}

impl Default for BrokerClientConfig {
    fn default() -> (r: Self)
        ensures
            r.address == SocketAddress::spec_localhost(DEFAULT_PORT),
            r.timeout@ == DEFAULT_TIMEOUT_SECONDS * NANOS_PER_SECOND,
            r.max_response_frame_bytes == DEFAULT_MAX_RESPONSE_FRAME_BYTES,
    {
        BrokerClientConfig {
            address: SocketAddress::localhost(DEFAULT_PORT),
            timeout: TimeSpan::from_secs(DEFAULT_TIMEOUT_SECONDS),
            max_response_frame_bytes: DEFAULT_MAX_RESPONSE_FRAME_BYTES,
        }
    }
}

/// Why a configuration is refused, or `None` if it is valid.
pub open spec fn config_flaw(config: BrokerClientConfig) -> Option<Seq<char>> {
    if !config.address.spec_is_loopback() {
        Some("Broker client address must be loopback-only."@)
    } else if !(MIN_FRAME_BYTES <= config.max_response_frame_bytes <= MAX_FRAME_BYTES) {
        Some("max_response_frame_bytes must be between 4096 and 1048576."@)
    } else if config.timeout@ == 0 {
        Some("Broker client timeout must be positive."@)
    } else {
        None
    }
}

/// Whether a client error is the refusal of a request for `reason`.
pub open spec fn is_invalid_request(error: ClientError, reason: Seq<char>) -> bool {
    error matches ClientError::Protocol(ProtocolCodecError::InvalidRequest(message)) && message@
        == reason
}

impl BrokerClientConfig {
    /// Check that the address is loopback, the answer bound is in range and the timeout positive.
    pub fn validate(self) -> (r: Result<Self, ClientError>)
        ensures
            match config_flaw(self) {
                None => r == Ok::<Self, ClientError>(self),
                Some(reason) => r matches Err(error) && is_invalid_request(error, reason),
            },
    {
        let flaw = if !self.address.is_loopback() {
            "Broker client address must be loopback-only."
        } else if self.max_response_frame_bytes < MIN_FRAME_BYTES || self.max_response_frame_bytes
            > MAX_FRAME_BYTES {
            "max_response_frame_bytes must be between 4096 and 1048576."
        } else if self.timeout.is_zero() {
            "Broker client timeout must be positive."
        } else {
            return Ok(self);
        };
        Err(ClientError::Protocol(ProtocolCodecError::InvalidRequest(flaw.to_owned())))
    }
}

/// The default configuration is valid.
pub proof fn law_default_configuration_is_valid(config: BrokerClientConfig)
    requires
        config.address == SocketAddress::spec_localhost(DEFAULT_PORT),
        config.timeout@ == DEFAULT_TIMEOUT_SECONDS * NANOS_PER_SECOND,
        config.max_response_frame_bytes == DEFAULT_MAX_RESPONSE_FRAME_BYTES,
    ensures
        config_flaw(config) is None,
{
}

/// Kind of client, which shows in its request ids.
#[derive(Debug, Clone, Copy, PartialEq, Eq, Structural)]
pub enum RequestSource {
    Client,
    AsyncClient,
    ClusterRouter,
    AsyncClusterRouter,
}

impl RequestSource {
    /// What the request ids of a client begin with.
    pub open spec fn prefix(self) -> Seq<char> {
        match self {
            RequestSource::Client => "rust-client-"@,
            RequestSource::AsyncClient => "rust-async-client-"@,
            RequestSource::ClusterRouter => "rust-cluster-router-"@,
            RequestSource::AsyncClusterRouter => "rust-async-cluster-router-"@,
        }
    }
}

/// The request id that follows `previous` ids of one client.
pub open spec fn request_id_text(source: RequestSource, previous: u64) -> Seq<char> {
    source.prefix() + decimal(previous as nat + 1)
}

/// The request id that follows `previous` ids of one client, and the new count.
pub fn next_request_id(source: RequestSource, previous: u64) -> (r: Result<
    (u64, String),
    ClientError,
>)
    ensures
        match r {
            Ok((count, id)) => count == previous + 1 && id@ == request_id_text(source, previous),
            Err(error) => previous == u64::MAX && error == ClientError::RequestIdExhausted,
        },
{
    let count: u64 = match previous.checked_add(1) {
        Some(count) => count,
        None => return Err(ClientError::RequestIdExhausted),
    };
    let mut id = match source {
        RequestSource::Client => "rust-client-".to_owned(),
        RequestSource::AsyncClient => "rust-async-client-".to_owned(),
        RequestSource::ClusterRouter => "rust-cluster-router-".to_owned(),
        RequestSource::AsyncClusterRouter => "rust-async-cluster-router-".to_owned(),
    };
    push_decimal(&mut id, count);
    Ok((count, id))
}

/// No two requests of one client have the same id.
pub proof fn law_request_ids_are_distinct(source: RequestSource, first: u64, second: u64)
    requires
        first != second,
    ensures
        request_id_text(source, first) != request_id_text(source, second),
{
    let prefix = source.prefix();
    if request_id_text(source, first) == request_id_text(source, second) {
        let left = decimal(first as nat + 1);
        let right = decimal(second as nat + 1);
        assert((prefix + left).skip(prefix.len() as int) =~= left);
        assert((prefix + right).skip(prefix.len() as int) =~= right);
        lemma_decimal_injective(first as nat + 1, second as nat + 1);
    }
}

} // verus!
