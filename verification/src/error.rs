//! Error taxonomy of the engine. Every failure aborts the whole
//! instruction with no partial effect; errors are surfaced as inspectable
//! values so a caller can tell configuration mistakes from transient
//! ledger failures.

use vstd::prelude::*;

verus! {

/// Every way an instruction can fail.
#[derive(Clone, Copy, Debug, PartialEq, Eq, Structural)]
pub enum TokenError {
    /// Unknown opcode or malformed payload.
    InvalidInstruction,
    /// Fewer accounts supplied than the instruction requires.
    MissingAccount,
    /// A fee, split or interest computation cannot be represented in 64 bits.
    ArithmeticOverflow,
    /// A split computation would be negative.
    ArithmeticUnderflow,
    /// Propagated verbatim from the external move primitive.
    UnderlyingTransferFailure,
    /// `pay_loan` was called with no loan record.
    NoActiveLoan,
    /// `take_loan` was called while a loan record exists.
    LoanAlreadyActive,
    /// A repayment below the amount due was refused by the configured
    /// repayment policy.
    PartialRepaymentRejected,
}

impl TokenError {
    /// Short description of the error, for callers that print diagnostics.
    pub fn describe(&self) -> String {
        match self {
            TokenError::InvalidInstruction => "invalid instruction".to_string(),
            TokenError::MissingAccount => "missing account".to_string(),
            TokenError::ArithmeticOverflow => "arithmetic overflow".to_string(),
            TokenError::ArithmeticUnderflow => "arithmetic underflow".to_string(),
            TokenError::UnderlyingTransferFailure => "underlying transfer failure".to_string(),
            TokenError::NoActiveLoan => "no active loan".to_string(),
            TokenError::LoanAlreadyActive => "loan already active".to_string(),
            TokenError::PartialRepaymentRejected => "partial repayment rejected".to_string(),
        }
    }
}

} // verus!
