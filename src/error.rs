//! Errors of the bridge.

use vstd::prelude::*;

verus! {

/// Why an operation of the bridge failed.
#[derive(Clone, Debug, PartialEq, Eq)]
pub enum BridgeError {
    /// A required argument was absent.
    NullArgument,
    /// Text was not valid UTF-8.
    InvalidUtf8Text,
    /// Text was not valid hexadecimal.
    InvalidHexEncoding,
    /// An address did not have exactly 40 hex digits.
    InvalidAddressLength,
    /// A number was not a valid hexadecimal 256-bit integer.
    InvalidIntegerEncoding,
    /// A hardfork ordinal outside the supported table.
    UnsupportedHardfork(u8),
    /// A call to the host failed; the text says which.
    HostCallFailure(String),
    /// An execution was asked for before any transaction was staged.
    NoTransaction,
    /// The engine refused to run the transaction; the text says why.
    ExecutionFailure(String),
}

impl BridgeError {
    /// A copy of this error.
    pub fn duplicate(&self) -> (r: BridgeError)
        ensures
            r == *self,
    {
        match self {
            BridgeError::NullArgument => BridgeError::NullArgument,
            BridgeError::InvalidUtf8Text => BridgeError::InvalidUtf8Text,
            BridgeError::InvalidHexEncoding => BridgeError::InvalidHexEncoding,
            BridgeError::InvalidAddressLength => BridgeError::InvalidAddressLength,
            BridgeError::InvalidIntegerEncoding => BridgeError::InvalidIntegerEncoding,
            BridgeError::UnsupportedHardfork(o) => BridgeError::UnsupportedHardfork(*o),
            BridgeError::HostCallFailure(m) => BridgeError::HostCallFailure(m.clone()),
            BridgeError::NoTransaction => BridgeError::NoTransaction,
            BridgeError::ExecutionFailure(m) => BridgeError::ExecutionFailure(m.clone()),
        }
    }
}

/// The error that a state read reports: a description of the failed host call.
#[derive(Clone, Debug, PartialEq, Eq)]
pub struct GoDBError(pub String);

} // verus!
