//! Role-specific treasury policies: Treasury forwarding and the
//! Treasury-to-Market split, Market buyback requests and yield
//! calculation, and the Seed reward, award and lottery disbursements.
//! Each policy is a pure computation that emits delegated moves; the
//! external executor applies each emitted set all-or-nothing.

use vstd::prelude::*;

use crate::error::TokenError;
use crate::identity::Identity;
use crate::identity::OfficialWallets;
use crate::router::Move;
use crate::router::spec_sum;

verus! {

/// Fixed reward sent to an investor: 25 whole tokens in minor units.
pub const REWARD_AMOUNT: u64 = 25 * 100_000_000;

/// Fixed award sent to a client: 50,000 whole tokens in minor units.
pub const AWARD_AMOUNT: u64 = 50_000 * 100_000_000;

/// The Seed share of a Treasury-to-Market distribution: 20% of the
/// amount, rounded half-up, in exact integer arithmetic.
pub open spec fn spec_seed_share(amount: int) -> int {
    (2 * amount + 5) / 10
}

/// The yield on `amount`: the fixed 2.48832 multiplier, rounded half-up,
/// in exact integer arithmetic.
pub open spec fn spec_yield(amount: int) -> int {
    (amount * 248832 + 50000) / 100000
}

/// The Seed share of a distribution never exceeds the distributed amount.
pub proof fn lemma_seed_share_le_amount(amount: u64)
    ensures
        0 <= spec_seed_share(amount as int) <= amount as int,
{
    if amount == 0 {
        assert(spec_seed_share(0) == 0);
    } else {
        assert((2 * (amount as int) + 5) / 10 <= amount as int) by (nonlinear_arith)
            requires
                amount >= 1,
        ;
        assert((2 * (amount as int) + 5) / 10 >= 0) by (nonlinear_arith)
            requires
                amount >= 1,
        ;
    }
}

/// The two moves of a Treasury-to-Market distribution of `amount`: the
/// Market share to the Market wallet and the 20% Seed share to the Seed
/// wallet.
pub open spec fn spec_market_moves(wallets: OfficialWallets, amount: u64) -> Seq<Move> {
    seq![
        Move {
            from: wallets.treasury,
            to: wallets.market,
            amount: (amount - spec_seed_share(amount as int)) as u64,
        },
        Move {
            from: wallets.treasury,
            to: wallets.seed,
            amount: spec_seed_share(amount as int) as u64,
        },
    ]
}

/// A Treasury-to-Market distribution never creates or destroys value:
/// its two moves sum to exactly the distributed amount, and the Seed
/// share is exactly 20% rounded half-up.
pub proof fn lemma_market_moves_sum(wallets: OfficialWallets, amount: u64)
    ensures
        spec_sum(spec_market_moves(wallets, amount)) == amount,
        spec_market_moves(wallets, amount)[1].amount == spec_seed_share(amount as int),
{
    lemma_seed_share_le_amount(amount);
    let moves = spec_market_moves(wallets, amount);
    assert(spec_sum(moves.drop_first().drop_first()) == 0);
    assert(spec_sum(moves.drop_first()) == moves[1].amount);
}

/// A request for the external asset-conversion collaborator: buy back
/// `budget` worth of the opaque asset on behalf of the Market wallet.
/// The conversion itself is performed outside the engine.
#[derive(Debug)]
pub struct BuybackRequest {
    pub market: Identity,
    pub asset: String,
    pub budget: u64,
}

impl OfficialWallets {
    /// Treasury role: acknowledges receipt of `amount` freshly created
    /// tokens. The credit itself is performed by the external mint
    /// primitive; the engine holds no ledger state, so there is nothing
    /// to record and the call always succeeds.
    pub fn receive_tokens(&self, amount: u64) -> (r: Result<u64, TokenError>)
        ensures
            r == Ok::<u64, TokenError>(amount),
    {
        Ok(amount)
    }

    /// Treasury role: distributes `amount` between the Market and Seed
    /// wallets. The Seed share is exactly 20% rounded half-up and the two
    /// moves always sum back to `amount`; both are submitted as one
    /// indivisible unit. The underflow arm is checked, not assumed, and
    /// provably never taken.
    pub fn send_to_market(&self, amount: u64) -> (r: Result<Vec<Move>, TokenError>)
        ensures
            r matches Ok(moves) && {
                &&& moves@ == spec_market_moves(*self, amount)
                &&& moves@.len() == 2
                &&& moves@[0].amount + moves@[1].amount == amount
                &&& moves@[1].amount == spec_seed_share(amount as int)
                &&& moves@[1].to == self.seed
            },
    {
        proof {
            lemma_seed_share_le_amount(amount);
        }
        let doubled: u128 = 2 * (amount as u128) + 5;
        let seed_share: u64 = (doubled / 10) as u64;
        if seed_share > amount {
            // Unreachable: the Seed share is at most 20% plus rounding.
            return Err(TokenError::ArithmeticUnderflow);
        }
        let market_share = amount - seed_share;
        let mut moves: Vec<Move> = Vec::new();
        moves.push(Move { from: self.treasury, to: self.market, amount: market_share });
        moves.push(Move { from: self.treasury, to: self.seed, amount: seed_share });
        assert(moves@ =~= spec_market_moves(*self, amount));
        Ok(moves)
    }

    /// Market role: builds the request handed to the external
    /// asset-conversion collaborator. The engine only fixes the target
    /// asset and the budget; the conversion logic is out of its scope.
    pub fn buyback(&self, amount: u64, asset: &str) -> (r: BuybackRequest)
        ensures
            r.market == self.market,
            r.asset@ == asset@,
            r.budget == amount,
    {
        BuybackRequest { market: self.market, asset: asset.to_owned(), budget: amount }
    }

    /// Market role: the yield on `amount` under the fixed 2.48832
    /// multiplier, rounded half-up. Returns `ArithmeticOverflow` exactly
    /// when the yield does not fit in 64 bits.
    pub fn calculate_yield(&self, amount: u64) -> (r: Result<u64, TokenError>)
        ensures
            spec_yield(amount as int) <= u64::MAX ==> r == Ok::<u64, TokenError>(
                spec_yield(amount as int) as u64,
            ),
            spec_yield(amount as int) > u64::MAX ==> r == Err::<u64, TokenError>(
                TokenError::ArithmeticOverflow,
            ),
    {
        let wide: u128 = ((amount as u128) * 248832 + 50000) / 100000;
        if wide > u64::MAX as u128 {
            Err(TokenError::ArithmeticOverflow)
        } else {
            Ok(wide as u64)
        }
    }

    /// Seed role: the fixed 25-token reward move to an investor.
    pub fn send_reward(&self, investor: &Identity) -> (r: Move)
        ensures
            r == (Move { from: self.seed, to: *investor, amount: REWARD_AMOUNT }),
    {
        Move { from: self.seed, to: *investor, amount: REWARD_AMOUNT }
    }

    /// Seed role: the fixed 50,000-token award move to a client.
    pub fn send_award(&self, client: &Identity) -> (r: Move)
        ensures
            r == (Move { from: self.seed, to: *client, amount: AWARD_AMOUNT }),
    {
        Move { from: self.seed, to: *client, amount: AWARD_AMOUNT }
    }

    /// Seed role: disburses `payout` to one of the eligible participants.
    /// Selection policy is deliberately external: the caller supplies the
    /// eligible set and a verifiable random value, and the winner is the
    /// participant at `random` modulo the number of participants. Fails
    /// with `MissingAccount` exactly when no participant is eligible.
    pub fn lottery(&self, participants: &Vec<Identity>, random: u64, payout: u64) -> (r: Result<
        Move,
        TokenError,
    >)
        ensures
            participants@.len() == 0 ==> r == Err::<Move, TokenError>(TokenError::MissingAccount),
            participants@.len() > 0 ==> r == Ok::<Move, TokenError>(
                Move {
                    from: self.seed,
                    to: participants@[(random as int) % (participants@.len() as int)],
                    amount: payout,
                },
            ),
    {
        if participants.len() == 0 {
            return Err(TokenError::MissingAccount);
        }
        let index: usize = (random % (participants.len() as u64)) as usize;
        let winner = participants[index];
        Ok(Move { from: self.seed, to: winner, amount: payout })
    }
}

} // verus!
