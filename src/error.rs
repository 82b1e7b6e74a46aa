use vstd::prelude::*;
use crate::key::OneTimeKey;

verus! {

/// Why a request could not be registered or completed.
#[derive(PartialEq, Eq, Structural, Clone, Copy, Debug)]
pub enum ClientError {
    /// The outbound packet carries no packet identifier, so no key can be derived.
    MissingPacketId,
    /// The acknowledgment reported a failure for the request with this key.
    Rejected(OneTimeKey),
}

/// What a caller receives when its request is acknowledged.
#[derive(PartialEq, Eq, Structural, Clone, Copy, Debug)]
pub enum ClientReturn {
    Acknowledged(OneTimeKey),
}

/// The value delivered through a completion notifier.
pub type Outcome = Result<ClientReturn, ClientError>;

} // verus!
