//! Error taxonomy of the registry client.
//!
//! Every fallible operation of the library reports one of these variants;
//! the surrounding application maps transport failures onto them and prints
//! the description on its error path.

use vstd::prelude::*;
use vstd::string::StringExecFns;

verus! {

/// One error kind per failure class of the client.
#[derive(Clone, Copy, Debug, PartialEq, Eq, Structural)]
pub enum RegistryError {
    /// Missing or malformed configuration (contract address).
    ConfigError,
    /// The private key is not valid hex or has the wrong length.
    KeyDecodeError,
    /// Transport or HTTP failure on a gateway call.
    NetworkError,
    /// A queried name or an expected resource does not exist.
    NotFoundError,
    /// The network rejected the signed call.
    SubmissionError,
    /// The chain finalized the transaction as a failure or abort.
    ExecutionError,
    /// Finalization was not observed within the wait bound.
    TimeoutError,
}

/// The message that [`RegistryError::describe`] returns for each variant.
pub open spec fn spec_describe(e: RegistryError) -> Seq<char> {
    match e {
        RegistryError::ConfigError => "missing or malformed configuration"@,
        RegistryError::KeyDecodeError => "failed to decode the private key"@,
        RegistryError::NetworkError => "network request failed"@,
        RegistryError::NotFoundError => "not found"@,
        RegistryError::SubmissionError => "failed to submit the transaction"@,
        RegistryError::ExecutionError => "transaction execution failed"@,
        RegistryError::TimeoutError => "timed out waiting for finalization"@,
    }
}

impl RegistryError {
    /// A human-readable description, printed by the caller on the error path.
    pub fn describe(&self) -> (r: String)
        ensures
            r@ == spec_describe(*self),
    {
        match self {
            RegistryError::ConfigError => String::from_str("missing or malformed configuration"),
            RegistryError::KeyDecodeError => String::from_str("failed to decode the private key"),
            RegistryError::NetworkError => String::from_str("network request failed"),
            RegistryError::NotFoundError => String::from_str("not found"),
            RegistryError::SubmissionError => String::from_str("failed to submit the transaction"),
            RegistryError::ExecutionError => String::from_str("transaction execution failed"),
            RegistryError::TimeoutError => String::from_str("timed out waiting for finalization"),
        }
    }
}

} // verus!
