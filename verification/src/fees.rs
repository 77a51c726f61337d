//! Fee computation for ordinary transfers.
//!
//! The fee rate is 1% of the transferred amount, computed in exact
//! fixed-point integer arithmetic with round-half-up, so results are
//! bit-reproducible on every platform.

use vstd::prelude::*;

verus! {

/// The transfer fee on `amount`: 1% rounded half-up,
/// `(amount + 50) / 100` in exact integer arithmetic.
pub open spec fn spec_fee(amount: int) -> int {
    (amount + 50) / 100
}

/// The fee never exceeds the amount it is charged on.
pub proof fn lemma_fee_le_amount(amount: u64)
    ensures
        0 <= spec_fee(amount as int) <= amount as int,
{
    if amount == 0 {
        assert(spec_fee(0) == 0);
    } else {
        assert((amount as int + 50) / 100 <= amount as int) by (nonlinear_arith)
            requires
                amount >= 1,
        ;
        assert((amount as int + 50) / 100 >= 0) by (nonlinear_arith)
            requires
                amount >= 1,
        ;
    }
}

/// The 1% transfer fee on `amount`, rounded half-up.
pub fn calculate_fee(amount: u64) -> (fee: u64)
    ensures
        fee == spec_fee(amount as int),
        fee <= amount,
{
    proof {
        lemma_fee_le_amount(amount);
    }
    let wide: u128 = (amount as u128 + 50) / 100;
    wide as u64
}

/// The split of an ordinary transfer into the principal forwarded to the
/// recipient and the fee redirected to the Seed wallet.
#[derive(Clone, Copy, Debug, PartialEq, Eq, Structural)]
pub struct FeeSplit {
    pub principal: u64,
    pub fee: u64,
}

impl FeeSplit {
    /// The split is exact: principal and fee add back up to the amount
    /// they were derived from.
    pub open spec fn wf(self, amount: u64) -> bool {
        &&& self.principal + self.fee == amount
        &&& self.fee == spec_fee(amount as int)
        &&& self.fee <= amount
    }
}

/// Splits `amount` into principal and 1% fee. For every amount the split
/// conserves value: `principal + fee == amount` and `fee <= amount`.
pub fn fee_split(amount: u64) -> (split: FeeSplit)
    ensures
        split.wf(amount),
        split.principal == amount - spec_fee(amount as int),
{
    let fee = calculate_fee(amount);
    FeeSplit { principal: amount - fee, fee }
}

} // verus!
