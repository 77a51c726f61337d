//! Transfer dispatch: turns one requested transfer into the set of moves
//! the external executor must perform atomically.
//!
//! A fee applies only when both parties are unclassified; a transfer
//! touching any official wallet moves the full amount with no fee. All
//! moves produced by one call form a single indivisible unit: the engine
//! only emits the set, the external executor applies it all-or-nothing.

use vstd::prelude::*;

use crate::error::TokenError;
use crate::fees::calculate_fee;
use crate::fees::lemma_fee_le_amount;
use crate::fees::spec_fee;
use crate::identity::Identity;
use crate::identity::OfficialWallets;
use crate::identity::is_official_wallet;
use crate::identity::spec_is_official;

verus! {

/// One requested value movement, delegated to the external executor.
#[derive(Clone, Copy, Debug, PartialEq, Eq, Structural)]
pub struct Move {
    pub from: Identity,
    pub to: Identity,
    pub amount: u64,
}

/// The total value carried by a sequence of moves.
pub open spec fn spec_sum(moves: Seq<Move>) -> int
    decreases moves.len(),
{
    if moves.len() == 0 {
        0
    } else {
        moves[0].amount + spec_sum(moves.drop_first())
    }
}

/// Whether the transfer `from -> to` is fee-exempt: it is exactly when
/// either party is an official wallet.
pub open spec fn spec_fee_exempt(from: Identity, to: Identity, wallets: OfficialWallets) -> bool {
    spec_is_official(from, wallets) || spec_is_official(to, wallets)
}

/// The moves produced for a transfer of `amount` from `from` to `to`:
/// one full-amount move when the transfer is fee-exempt or the fee rounds
/// to zero, otherwise the principal to the recipient and the 1% fee to
/// the Seed wallet.
pub open spec fn spec_route(
    from: Identity,
    to: Identity,
    amount: u64,
    wallets: OfficialWallets,
) -> Seq<Move> {
    if spec_fee_exempt(from, to, wallets) || spec_fee(amount as int) == 0 {
        seq![Move { from, to, amount }]
    } else {
        seq![
            Move { from, to, amount: (amount - spec_fee(amount as int)) as u64 },
            Move { from, to: wallets.seed, amount: spec_fee(amount as int) as u64 },
        ]
    }
}

/// Conservation of value under fee routing. A transfer touching an
/// official wallet yields exactly one move of the full amount; a transfer
/// between unclassified parties whose fee is positive yields exactly two
/// moves whose amounts sum to the original amount, with the fee move
/// targeting the Seed wallet; when the fee rounds to zero the single move
/// still carries the full amount.
pub proof fn lemma_route_conserves(from: Identity, to: Identity, amount: u64, wallets: OfficialWallets)
    ensures
        spec_fee_exempt(from, to, wallets) ==> {
            let moves = spec_route(from, to, amount, wallets);
            &&& moves.len() == 1
            &&& moves[0] == Move { from, to, amount }
        },
        !spec_fee_exempt(from, to, wallets) && spec_fee(amount as int) > 0 ==> {
            let moves = spec_route(from, to, amount, wallets);
            &&& moves.len() == 2
            &&& moves[0].amount + moves[1].amount == amount
            &&& moves[0].from == from && moves[0].to == to
            &&& moves[1].from == from && moves[1].to == wallets.seed
            &&& moves[1].amount == spec_fee(amount as int)
        },
        !spec_fee_exempt(from, to, wallets) && spec_fee(amount as int) == 0 ==> {
            let moves = spec_route(from, to, amount, wallets);
            &&& moves.len() == 1
            &&& moves[0] == Move { from, to, amount }
        },
{
    lemma_fee_le_amount(amount);
}

/// Fee routing never creates or destroys value: whatever the parties and
/// the configuration, the emitted moves sum to exactly the requested
/// amount.
pub proof fn lemma_route_sum(from: Identity, to: Identity, amount: u64, wallets: OfficialWallets)
    ensures
        spec_sum(spec_route(from, to, amount, wallets)) == amount,
{
    lemma_fee_le_amount(amount);
    let moves = spec_route(from, to, amount, wallets);
    if moves.len() == 1 {
        assert(spec_sum(moves.drop_first()) == 0);
    } else {
        assert(spec_sum(moves.drop_first().drop_first()) == 0);
        assert(spec_sum(moves.drop_first()) == moves[1].amount);
    }
}

/// Computes the move set of one transfer. Always succeeds: the fee is
/// bounded by the amount, which is checked at run time rather than
/// assumed, so the underflow arm is provably never taken.
pub fn route_transfer(
    from: Identity,
    to: Identity,
    amount: u64,
    wallets: &OfficialWallets,
) -> (r: Result<Vec<Move>, TokenError>)
    ensures
        r matches Ok(moves) && moves@ == spec_route(from, to, amount, *wallets),
{
    let fee: u64 = if !is_official_wallet(&from, wallets) && !is_official_wallet(&to, wallets) {
        calculate_fee(amount)
    } else {
        0
    };
    if fee > amount {
        // Unreachable: the fee rate is at most 1. Checked, not assumed.
        return Err(TokenError::ArithmeticUnderflow);
    }
    let principal = amount - fee;
    let mut moves: Vec<Move> = Vec::new();
    moves.push(Move { from, to, amount: principal });
    if fee > 0 {
        moves.push(Move { from, to: wallets.seed, amount: fee });
        assert(moves@ =~= spec_route(from, to, amount, *wallets));
    } else {
        if !is_official_wallet(&from, wallets) && !is_official_wallet(&to, wallets) {
            assert(moves@ =~= spec_route(from, to, amount, *wallets)) by {
                assert(spec_fee(amount as int) == 0);
            }
        } else {
            assert(moves@ =~= spec_route(from, to, amount, *wallets));
        }
    }
    Ok(moves)
}

} // verus!
