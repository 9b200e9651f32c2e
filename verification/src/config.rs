//! What the facade is configured with, and what it asks of the connection.

use vstd::prelude::*;
use std::time::Duration;
use crate::events::ADDRESS_SIZE;

verus! {

/// `backoff::exponential::ExponentialBackoff`, the retry policy of a
/// connection. Opaque: it is made here and handed on, and nothing is read of
/// it.
#[verifier::external_type_specification]
#[verifier::external_body]
#[verifier::reject_recursive_types(C)]
pub struct ExExponentialBackoff<C>(backoff::exponential::ExponentialBackoff<C>);

/// `backoff::SystemClock`, the clock that the retry policy reads. Opaque.
#[verifier::external_type_specification]
#[verifier::external_body]
pub struct ExSystemClock(backoff::SystemClock);

/// Configuration of the facade.
#[derive(Debug)]
pub struct BrokerConfig {
    /// Where the transport is reached.
    pub redis_endpoint: String,
    /// Chain that the rollup lives on.
    pub chain_id: u64,
    /// Address of the rollup's contract.
    pub dapp_contract_address: [u8; ADDRESS_SIZE],
    /// How long a read of the claims stream may take.
    pub claims_consume_timeout: usize,
    /// How long connecting may be retried, all attempts together.
    pub backoff_max_elapsed_duration: Duration,
}

/// What the transport needs to connect.
#[derive(Debug)]
pub struct ConnectionConfig {
    pub redis_endpoint: String,
    pub backoff: backoff::ExponentialBackoff,
    pub consume_timeout: usize,
}

/// The rollup that a pair of streams belongs to.
#[derive(Clone, Copy, Debug, PartialEq, Eq)]
pub struct DAppMetadata {
    pub chain_id: u64,
    pub dapp_address: [u8; ADDRESS_SIZE],
}

/// Calls `backoff::ExponentialBackoffBuilder`: `new`, `with_max_elapsed_time`
/// and `build`. The policy that comes back is opaque and starts its clock at
/// the call, so nothing is claimed of it: that it gives up after
/// `max_elapsed_time` rests on the builder.
#[verifier::external_body]
fn exponential_backoff(max_elapsed_time: Duration) -> backoff::ExponentialBackoff {
    backoff::ExponentialBackoffBuilder::new().with_max_elapsed_time(Some(max_elapsed_time)).build()
}

impl BrokerConfig {
    /// The connection that this configuration asks for: the same endpoint and
    /// read timeout, and an exponential retry policy that gives up after
    /// `backoff_max_elapsed_duration`.
    pub fn connection(&self) -> (connection: ConnectionConfig)
        ensures
            connection.redis_endpoint@ == self.redis_endpoint@,
            connection.consume_timeout == self.claims_consume_timeout,
    {
        ConnectionConfig {
            redis_endpoint: self.redis_endpoint.clone(),
            backoff: exponential_backoff(self.backoff_max_elapsed_duration),
            consume_timeout: self.claims_consume_timeout,
        }
    }

    /// The rollup that this configuration names.
    pub fn dapp_metadata(&self) -> (metadata: DAppMetadata)
        ensures
            metadata.chain_id == self.chain_id,
            metadata.dapp_address == self.dapp_contract_address,
    {
        DAppMetadata { chain_id: self.chain_id, dapp_address: self.dapp_contract_address }
    }
}

} // verus!
