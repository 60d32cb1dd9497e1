//! The ways in which an operation of this library can fail.

use vstd::prelude::*;

verus! {

/// Why an operation stopped. Validation errors are raised before anything
/// is read from the chain or the relay; nothing is retried.
#[derive(Debug, Clone, Copy, PartialEq, Eq, Structural)]
pub enum TradeError {
    /// An amount that has to be positive was zero.
    InvalidInput,
    /// An address holds no account, or no address could be derived.
    AccountNotFound,
    /// Account data or a balance did not have the expected form.
    DeserializationFailed,
    /// The payer holds less than the amount to move.
    InsufficientBalance,
    /// The chain could not be reached.
    TransportFailure,
    /// The relay answered with an error.
    RelayError,
    /// A text is not a base58 address of 32 bytes.
    AddressFormatError,
    /// The relay offered no tip account, even after a refresh.
    NoTipAccountsAvailable,
    /// A relay operation was asked of a client that has no relay.
    MissingRelayClient,
}

impl TradeError {
    /// The text shown for each kind of error.
    pub fn message(&self) -> (text: &'static str)
        ensures
            text@ == error_text(*self),
    {
        match self {
            TradeError::InvalidInput => "Amount cannot be zero",
            TradeError::AccountNotFound => "Account not found",
            TradeError::DeserializationFailed => "Failed to deserialize account data",
            TradeError::InsufficientBalance => "Insufficient balance",
            TradeError::TransportFailure => "Failed to reach the chain",
            TradeError::RelayError => "jito: relay returned an error",
            TradeError::AddressFormatError => "Invalid pubkey format",
            TradeError::NoTipAccountsAvailable => "jito: no tip accounts available",
            TradeError::MissingRelayClient => "Jito client not found",
        }
    }
}

/// The text of each kind of error.
pub open spec fn error_text(error: TradeError) -> Seq<char> {
    match error {
        TradeError::InvalidInput => "Amount cannot be zero"@,
        TradeError::AccountNotFound => "Account not found"@,
        TradeError::DeserializationFailed => "Failed to deserialize account data"@,
        TradeError::InsufficientBalance => "Insufficient balance"@,
        TradeError::TransportFailure => "Failed to reach the chain"@,
        TradeError::RelayError => "jito: relay returned an error"@,
        TradeError::AddressFormatError => "Invalid pubkey format"@,
        TradeError::NoTipAccountsAvailable => "jito: no tip accounts available"@,
        TradeError::MissingRelayClient => "Jito client not found"@,
    }
}

} // verus!
