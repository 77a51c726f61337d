//! Deterministic state-transition engine for a fixed-supply token ledger
//! with role-based treasury accounts and an automatic fee-redistribution
//! policy on transfers.
//!
//! The engine is a pure function over plain values: it decodes an
//! instruction, classifies the parties against the configured official
//! wallets, computes fee splits and treasury distributions, and emits the
//! set of moves to be performed by an external transfer executor. It never
//! touches balances itself.

use vstd::prelude::*;

pub mod error;
pub mod fees;
pub mod identity;
pub mod instruction;
pub mod loan;
pub mod process;
pub mod router;
pub mod treasury;

verus! {

/// Total token supply in minor units: 100 billion whole tokens at 8
/// implied fractional decimals. Created once at initialization and never
/// changed afterwards by this engine.
pub const TOTAL_SUPPLY: u64 = 100_000_000_000 * 100_000_000;

/// Number of implied fractional decimals of the token.
pub const DECIMALS: u8 = 8;

} // verus!
