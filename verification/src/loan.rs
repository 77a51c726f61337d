//! Loan lifecycle of the Loan treasury role.
//!
//! Per borrower the state machine is `NoLoan -> Active -> Closed`. A loan
//! accrues no interest for its first 30 days; past the 30-day grace
//! window interest accrues per started late day at a configurable rate,
//! injected as an [`InterestPolicy`] rather than hard-coded. Repayment of
//! the full amount due closes the loan; a repayment below the amount due
//! is handled by the configured [`RepaymentPolicy`]: rejected, or tracked
//! as a reduced outstanding balance.

use vstd::prelude::*;

use crate::error::TokenError;
use vstd::arithmetic::div_mod::lemma_div_is_ordered;
use vstd::arithmetic::mul::lemma_mul_inequality;

verus! {

/// Seconds in one day.
pub const SECONDS_PER_DAY: u64 = 86_400;

/// The zero-interest grace window: 30 days, in seconds.
pub const GRACE_PERIOD_SECS: u64 = 30 * 86_400;

/// Interest rate denominator: rates are given in basis points.
pub const BPS_DENOMINATOR: u64 = 10_000;

/// One outstanding loan: the amount owed and the moment it was issued
/// (seconds of a monotonic ledger clock).
#[derive(Clone, Copy, Debug, PartialEq, Eq, Structural)]
pub struct LoanRecord {
    pub principal: u64,
    pub issued_at: u64,
}

/// The loan state of one borrower.
#[derive(Clone, Copy, Debug, PartialEq, Eq, Structural)]
pub enum LoanState {
    NoLoan,
    Active { record: LoanRecord },
    Closed,
}

/// Post-grace interest configuration: basis points of the principal per
/// started late day. Injected configuration, never hard-coded.
#[derive(Clone, Copy, Debug, PartialEq, Eq, Structural)]
pub struct InterestPolicy {
    pub rate_bps_per_day: u64,
}

/// How a repayment below the amount due is handled.
#[derive(Clone, Copy, Debug, PartialEq, Eq, Structural)]
pub enum RepaymentPolicy {
    /// Refuse the payment and leave the loan unchanged.
    RejectPartial,
    /// Accept the payment and track the remainder as the new outstanding
    /// balance.
    TrackPartial,
}

impl InterestPolicy {
    /// A usable policy charges at most 100% of the principal per late
    /// day, which keeps every interest computation inside 128 bits.
    pub open spec fn wf(self) -> bool {
        self.rate_bps_per_day <= BPS_DENOMINATOR
    }

    /// Builds a policy, rejecting a rate above 100% per late day.
    pub fn new(rate_bps_per_day: u64) -> (r: Option<InterestPolicy>)
        ensures
            rate_bps_per_day <= BPS_DENOMINATOR ==> r == Some(InterestPolicy { rate_bps_per_day }),
            rate_bps_per_day > BPS_DENOMINATOR ==> r == None::<InterestPolicy>,
    {
        if rate_bps_per_day <= BPS_DENOMINATOR {
            Some(InterestPolicy { rate_bps_per_day })
        } else {
            None
        }
    }
}

/// The number of started late days after the grace window, given the
/// seconds elapsed since issuance: zero within the window, otherwise the
/// late seconds divided by one day, rounded up.
pub open spec fn spec_late_days(elapsed: int) -> int {
    if elapsed <= GRACE_PERIOD_SECS {
        0
    } else {
        (elapsed - GRACE_PERIOD_SECS + (SECONDS_PER_DAY - 1)) / (SECONDS_PER_DAY as int)
    }
}

/// Interest accrued on `principal` after `elapsed` seconds under `rate`
/// basis points per started late day: zero within the grace window,
/// non-decreasing afterwards.
pub open spec fn spec_interest(principal: int, rate: int, elapsed: int) -> int {
    principal * rate * spec_late_days(elapsed) / (BPS_DENOMINATOR as int)
}

/// The amount due on `record` at time `now` under `policy`: the principal
/// alone within the 30-day grace window, principal plus accrued interest
/// afterwards.
pub open spec fn spec_due(record: LoanRecord, now: u64, policy: InterestPolicy) -> int
    recommends
        now >= record.issued_at,
{
    record.principal + spec_interest(
        record.principal as int,
        policy.rate_bps_per_day as int,
        now - record.issued_at,
    )
}

/// Within the grace window no interest accrues: the amount due is exactly
/// the principal.
pub proof fn lemma_no_interest_within_grace(record: LoanRecord, now: u64, policy: InterestPolicy)
    requires
        record.issued_at <= now,
        now - record.issued_at <= GRACE_PERIOD_SECS,
    ensures
        spec_due(record, now, policy) == record.principal,
{
    assert(spec_late_days(now - record.issued_at) == 0);
    assert(record.principal as int * policy.rate_bps_per_day as int * 0 == 0) by (nonlinear_arith);
}

/// The amount due never decreases as time passes: for any loan and any
/// interest policy, the amount due at a later moment is at least the
/// amount due at an earlier one.
pub proof fn lemma_due_monotonic(
    record: LoanRecord,
    policy: InterestPolicy,
    now1: u64,
    now2: u64,
)
    requires
        record.issued_at <= now1 <= now2,
    ensures
        spec_due(record, now1, policy) <= spec_due(record, now2, policy),
{
    let e1 = now1 - record.issued_at;
    let e2 = now2 - record.issued_at;
    let p = record.principal as int;
    let r = policy.rate_bps_per_day as int;
    assert(spec_late_days(e1) <= spec_late_days(e2)) by {
        if e1 > GRACE_PERIOD_SECS {
            lemma_div_is_ordered(
                e1 - GRACE_PERIOD_SECS + (SECONDS_PER_DAY - 1),
                e2 - GRACE_PERIOD_SECS + (SECONDS_PER_DAY - 1),
                SECONDS_PER_DAY as int,
            );
        } else if e2 > GRACE_PERIOD_SECS {
            assert((e2 - GRACE_PERIOD_SECS + (SECONDS_PER_DAY - 1)) / (SECONDS_PER_DAY as int)
                >= 0) by (nonlinear_arith)
                requires
                    e2 > GRACE_PERIOD_SECS,
            ;
        }
    }
    assert(p * r >= 0) by (nonlinear_arith)
        requires
            p >= 0,
            r >= 0,
    ;
    lemma_mul_inequality(spec_late_days(e1), spec_late_days(e2), p * r);
    assert(p * r * spec_late_days(e1) == spec_late_days(e1) * (p * r)) by (nonlinear_arith);
    assert(p * r * spec_late_days(e2) == spec_late_days(e2) * (p * r)) by (nonlinear_arith);
    lemma_div_is_ordered(
        p * r * spec_late_days(e1),
        p * r * spec_late_days(e2),
        BPS_DENOMINATOR as int,
    );
}

/// The amount due on `record` at `now` under `policy`, or
/// `ArithmeticOverflow` exactly when it does not fit in 64 bits.
pub fn amount_due(record: &LoanRecord, now: u64, policy: &InterestPolicy) -> (r: Result<
    u64,
    TokenError,
>)
    requires
        policy.wf(),
        now >= record.issued_at,
    ensures
        spec_due(*record, now, *policy) <= u64::MAX ==> r == Ok::<u64, TokenError>(
            spec_due(*record, now, *policy) as u64,
        ),
        spec_due(*record, now, *policy) > u64::MAX ==> r == Err::<u64, TokenError>(
            TokenError::ArithmeticOverflow,
        ),
{
    let elapsed = now - record.issued_at;
    if elapsed <= GRACE_PERIOD_SECS {
        proof {
            lemma_no_interest_within_grace(*record, now, *policy);
        }
        return Ok(record.principal);
    }
    let late: u64 = elapsed - GRACE_PERIOD_SECS;
    let late_days: u128 = (late as u128 + (SECONDS_PER_DAY as u128 - 1)) / (SECONDS_PER_DAY
        as u128);
    assert(late_days <= 0xFFFF_FFFF_FFFF_FFFFu128 / 86_400 + 1) by (nonlinear_arith)
        requires
            late_days == (late as u128 + 86_399) / 86_400,
            late <= u64::MAX,
    ;
    let p128: u128 = record.principal as u128;
    let r128: u128 = policy.rate_bps_per_day as u128;
    assert(p128 * r128 <= 0xFFFF_FFFF_FFFF_FFFFu128 * 10_000) by (nonlinear_arith)
        requires
            p128 <= 0xFFFF_FFFF_FFFF_FFFFu128,
            r128 <= 10_000,
    ;
    let scaled: u128 = p128 * r128;
    assert(scaled * late_days <= u128::MAX) by (nonlinear_arith)
        requires
            scaled <= 0xFFFF_FFFF_FFFF_FFFFu128 * 10_000,
            late_days <= 0xFFFF_FFFF_FFFF_FFFFu128 / 86_400 + 1,
    ;
    let interest: u128 = scaled * late_days / (BPS_DENOMINATOR as u128);
    let due: u128 = record.principal as u128 + interest;
    if due > u64::MAX as u128 {
        Err(TokenError::ArithmeticOverflow)
    } else {
        Ok(due as u64)
    }
}

impl LoanState {
    /// Whether a loan is currently outstanding.
    pub open spec fn is_active(self) -> bool {
        self is Active
    }

    /// Issues a loan of `amount` at time `now`. Valid only from `NoLoan`:
    /// a borrower with an active or settled record must not open another
    /// loan under the same record. The fresh loan starts its 30-day
    /// zero-interest window at `now`.
    pub fn take_loan(&self, amount: u64, now: u64) -> (r: Result<LoanState, TokenError>)
        ensures
            self is NoLoan ==> r == Ok::<LoanState, TokenError>(
                LoanState::Active { record: LoanRecord { principal: amount, issued_at: now } },
            ),
            !(self is NoLoan) ==> r == Err::<LoanState, TokenError>(TokenError::LoanAlreadyActive),
    {
        match self {
            LoanState::NoLoan => Ok(
                LoanState::Active { record: LoanRecord { principal: amount, issued_at: now } },
            ),
            _ => Err(TokenError::LoanAlreadyActive),
        }
    }

    /// Repays a loan at time `now`. With no active loan the call fails
    /// with `NoActiveLoan`. Otherwise, a payment covering the amount due
    /// closes the loan; a smaller payment is rejected or tracked as the
    /// reduced outstanding balance, per the configured repayment policy.
    pub fn pay_loan(
        &self,
        payment: u64,
        now: u64,
        policy: &InterestPolicy,
        repayment: RepaymentPolicy,
    ) -> (r: Result<LoanState, TokenError>)
        requires
            policy.wf(),
            (*self) matches LoanState::Active { record } ==> now >= record.issued_at,
        ensures
            !((*self) is Active) ==> r == Err::<LoanState, TokenError>(TokenError::NoActiveLoan),
            (*self) matches LoanState::Active { record } ==> {
                let due = spec_due(record, now, *policy);
                if due > u64::MAX {
                    r == Err::<LoanState, TokenError>(TokenError::ArithmeticOverflow)
                } else if payment >= due {
                    r == Ok::<LoanState, TokenError>(LoanState::Closed)
                } else if repayment is RejectPartial {
                    r == Err::<LoanState, TokenError>(TokenError::PartialRepaymentRejected)
                } else {
                    r == Ok::<LoanState, TokenError>(
                        LoanState::Active {
                            record: LoanRecord {
                                principal: (due - payment) as u64,
                                issued_at: record.issued_at,
                            },
                        },
                    )
                }
            },
    {
        match self {
            LoanState::Active { record } => {
                let due = match amount_due(record, now, policy) {
                    Ok(due) => due,
                    Err(e) => {
                        return Err(e);
                    },
                };
                if payment >= due {
                    Ok(LoanState::Closed)
                } else {
                    match repayment {
                        RepaymentPolicy::RejectPartial => Err(TokenError::PartialRepaymentRejected),
                        RepaymentPolicy::TrackPartial => Ok(
                            LoanState::Active {
                                record: LoanRecord {
                                    principal: due - payment,
                                    issued_at: record.issued_at,
                                },
                            },
                        ),
                    }
                }
            },
            _ => Err(TokenError::NoActiveLoan),
        }
    }
}

} // verus!
