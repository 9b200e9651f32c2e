//! Failures of the facade's operations. Each wraps the transport failure that
//! caused it and is handed to the caller as it is; nothing is retried.

use vstd::prelude::*;

verus! {

/// A failure of the transport that stores the streams, as it described
/// itself.
#[derive(Clone, Debug, PartialEq, Eq)]
pub struct BrokerError {
    pub reason: String,
}

/// Why an operation of the facade failed.
#[derive(Clone, Debug, PartialEq, Eq)]
pub enum BrokerFacadeError {
    /// The connection could not be established.
    BrokerConnectionError { source: BrokerError },
    /// The latest entry of the inputs stream could not be read.
    PeekInputError { source: BrokerError },
    /// An input record could not be appended.
    ProduceInputError { source: BrokerError },
    /// A record that closes an epoch could not be appended.
    ProduceFinishError { source: BrokerError },
    /// The claims stream could not be read.
    ConsumeClaimError { source: BrokerError },
}

impl BrokerFacadeError {
    /// The transport failure behind this error.
    pub open spec fn spec_source(self) -> BrokerError {
        match self {
            BrokerFacadeError::BrokerConnectionError { source } => source,
            BrokerFacadeError::PeekInputError { source } => source,
            BrokerFacadeError::ProduceInputError { source } => source,
            BrokerFacadeError::ProduceFinishError { source } => source,
            BrokerFacadeError::ConsumeClaimError { source } => source,
        }
    }

    /// The text that describes this error.
    pub open spec fn spec_message(self) -> Seq<char> {
        match self {
            BrokerFacadeError::BrokerConnectionError { .. } => "error connecting to the broker"@,
            BrokerFacadeError::PeekInputError { .. } => "error peeking at the end of the stream"@,
            BrokerFacadeError::ProduceInputError { .. } => "error producing input event"@,
            BrokerFacadeError::ProduceFinishError { .. } => "error producing finish-epoch event"@,
            BrokerFacadeError::ConsumeClaimError { .. } => "error consuming claim event"@,
        }
    }

    /// The transport failure behind this error.
    pub fn source(&self) -> (source: &BrokerError)
        ensures
            *source == self.spec_source(),
    {
        match self {
            BrokerFacadeError::BrokerConnectionError { source } => source,
            BrokerFacadeError::PeekInputError { source } => source,
            BrokerFacadeError::ProduceInputError { source } => source,
            BrokerFacadeError::ProduceFinishError { source } => source,
            BrokerFacadeError::ConsumeClaimError { source } => source,
        }
    }

    /// The text that describes this error.
    pub fn message(&self) -> (text: String)
        ensures
            text@ == self.spec_message(),
    {
        match self {
            BrokerFacadeError::BrokerConnectionError { .. } => {
                "error connecting to the broker".to_owned()
            },
            BrokerFacadeError::PeekInputError { .. } => {
                "error peeking at the end of the stream".to_owned()
            },
            BrokerFacadeError::ProduceInputError { .. } => "error producing input event".to_owned(),
            BrokerFacadeError::ProduceFinishError { .. } => {
                "error producing finish-epoch event".to_owned()
            },
            BrokerFacadeError::ConsumeClaimError { .. } => "error consuming claim event".to_owned(),
        }
    }
}

} // verus!
