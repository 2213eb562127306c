use vstd::prelude::*;

verus! {

/// Errors returned to the immediate caller of a per-request operation.
/// None are swallowed inside the core; the caller decides what to do.
#[derive(Clone, Copy, Debug, PartialEq, Eq, Structural)]
pub enum ApiError {
    /// The requested or configured chain name has no registry entry.
    /// Non-retryable: it indicates misconfiguration.
    UnknownChain,
    /// A source field violates the non-negativity invariant required for
    /// safe widening. Non-retryable: it indicates an upstream producer bug.
    InvalidFieldValue,
}

/// Errors that make registry construction fail. A process that cannot build
/// its registry cannot serve any request, so these are startup-fatal.
#[derive(Clone, Copy, Debug, PartialEq, Eq, Structural)]
pub enum ConfigError {
    /// An entry is missing a required field (chain name, currency, endpoint)
    /// or its entrypoint address has the wrong length.
    MalformedEntry,
    /// Two entries share one chain name.
    DuplicateChain,
}

/// Errors from submitting an encoded operation to a chain node.
#[derive(Clone, Copy, Debug, PartialEq, Eq, Structural)]
pub enum DispatchError {
    /// The connection to the node could not be made or broke down.
    ConnectionFailure,
    /// The node did not answer in time.
    Timeout,
    /// The contract rejected the call on chain.
    ContractReverted,
    /// The node refused the call as malformed.
    MalformedCallRejected,
}

impl DispatchError {
    /// Whether this failure is transient: only transient failures are
    /// candidates for caller-directed retry. The core itself never retries,
    /// since retry safety depends on whether the remote node already
    /// accepted the submission.
    pub open spec fn spec_is_transient(self) -> bool {
        self is ConnectionFailure || self is Timeout
    }

    pub fn is_transient(&self) -> (r: bool)
        ensures
            r == self.spec_is_transient(),
    {
        match self {
            DispatchError::ConnectionFailure => true,
            DispatchError::Timeout => true,
            DispatchError::ContractReverted => false,
            DispatchError::MalformedCallRejected => false,
        }
    }
}

} // verus!
