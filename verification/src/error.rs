//! The ways a call can be refused.

use vstd::prelude::*;

verus! {

/// Why the protocol aborted a call. Every error aborts the whole call; none is retried.
#[derive(Clone, Copy, Debug, PartialEq, Eq, Hash, Structural)]
pub enum SwapError {
    /// The admin identity passed to initialization is not the admin that authorized the call.
    InvalidAdmin,
    /// The referral identity passed to initialization is not the referral that authorized the call.
    InvalidReferral,
    /// The input amount is zero.
    InvalidAmount,
    /// The slippage floor is zero.
    InvalidMinOutAmount,
    /// A commission computation left the range of its integers.
    CommissionOverflow,
    /// The caller's destination balance after the conversion is below the slippage floor.
    SlippageExceeded,
    /// The router reported a failure.
    JupiterSwapFailed,
    /// The router or the settlement asset presented is not the trusted one.
    InvalidJupiterRoute,
    /// The caller's source balance does not cover the input amount.
    InsufficientBalance,
    /// A token account is not bound to the asset and owner the protocol needs,
    /// or the ledger refused a transfer on it.
    InvalidTokenAccount,
}

impl SwapError {
    /// The text shown for this error.
    pub open spec fn message_text(self) -> Seq<char> {
        match self {
            SwapError::InvalidAdmin => "Invalid admin address"@,
            SwapError::InvalidReferral => "Invalid referral address"@,
            SwapError::InvalidAmount => "Invalid amount"@,
            SwapError::InvalidMinOutAmount => "Invalid minimum output amount"@,
            SwapError::CommissionOverflow => "Commission calculation overflow"@,
            SwapError::SlippageExceeded => "Slippage tolerance exceeded"@,
            SwapError::JupiterSwapFailed => "Jupiter swap failed"@,
            SwapError::InvalidJupiterRoute => "Invalid Jupiter route"@,
            SwapError::InsufficientBalance => "Insufficient balance"@,
            SwapError::InvalidTokenAccount => "Invalid token account"@,
        }
    }

    /// The text shown for this error.
    pub fn message(&self) -> (text: &'static str)
        ensures
            text@ == self.message_text(),
    {
        match self {
            SwapError::InvalidAdmin => "Invalid admin address",
            SwapError::InvalidReferral => "Invalid referral address",
            SwapError::InvalidAmount => "Invalid amount",
            SwapError::InvalidMinOutAmount => "Invalid minimum output amount",
            SwapError::CommissionOverflow => "Commission calculation overflow",
            SwapError::SlippageExceeded => "Slippage tolerance exceeded",
            SwapError::JupiterSwapFailed => "Jupiter swap failed",
            SwapError::InvalidJupiterRoute => "Invalid Jupiter route",
            SwapError::InsufficientBalance => "Insufficient balance",
            SwapError::InvalidTokenAccount => "Invalid token account",
        }
    }
}

/// Why an initialization call was refused.
#[derive(Clone, Copy, Debug, PartialEq, Eq, Hash, Structural)]
pub enum InitializeError {
    /// The well-known address already holds a registry. The ledger raises this, before the
    /// protocol looks at the call.
    AlreadyInitialized,
    /// The protocol refused the call.
    Protocol(SwapError),
}

/// A general arithmetic failure.
#[derive(Clone, Copy, Debug, PartialEq, Eq, Hash, Structural)]
pub enum ErrorCode {
    /// An integer operation overflowed.
    Overflow,
}

impl ErrorCode {
    /// The text shown for this error.
    pub open spec fn message_text(self) -> Seq<char> {
        "Overflow occurred"@
    }

    /// The text shown for this error.
    pub fn message(&self) -> (text: &'static str)
        ensures
            text@ == self.message_text(),
    {
        "Overflow occurred"
    }
}

} // verus!
