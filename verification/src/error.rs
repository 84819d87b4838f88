//! The failures that an engine operation can report.

use vstd::prelude::*;

verus! {

/// Why an operation was aborted. Every error is terminal for the call that
/// raised it, and a call that reports one leaves all state as it found it.
#[derive(Clone, Copy, Debug, PartialEq, Eq, Structural)]
pub enum ErrorCode {
    /// An arithmetic step left its representable range.
    MathOverflow,
    /// The requested amount meets or exceeds the remaining virtual or real stock.
    InsufficientStock,
    /// A curve or a listing already exists where a new one was to be created.
    AlreadyInitialized,
    /// Two holdings of one transfer are bound to different assets.
    AssetMismatch,
    /// The paying side cannot cover a transfer.
    InsufficientBalance,
    /// The custody account does not answer to the engine's derived authority.
    CustodyAuthorizationFailure,
}

impl ErrorCode {
    /// The message that belongs to the error.
    pub fn message(&self) -> (text: &'static str)
        ensures
            text@ == self.spec_message(),
    {
        match self {
            ErrorCode::MathOverflow => "Math Overflow",
            ErrorCode::InsufficientStock => "Insufficient Stock",
            ErrorCode::AlreadyInitialized => "Already Initialized",
            ErrorCode::AssetMismatch => "Asset Mismatch",
            ErrorCode::InsufficientBalance => "Insufficient Balance",
            ErrorCode::CustodyAuthorizationFailure => "Custody Authorization Failure",
        }
    }

    /// The message of each error, as a sequence of characters.
    pub open spec fn spec_message(&self) -> Seq<char> {
        match self {
            ErrorCode::MathOverflow => "Math Overflow"@,
            ErrorCode::InsufficientStock => "Insufficient Stock"@,
            ErrorCode::AlreadyInitialized => "Already Initialized"@,
            ErrorCode::AssetMismatch => "Asset Mismatch"@,
            ErrorCode::InsufficientBalance => "Insufficient Balance"@,
            ErrorCode::CustodyAuthorizationFailure => "Custody Authorization Failure"@,
        }
    }
}

} // verus!
