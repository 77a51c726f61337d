//! The instruction dispatcher: decodes raw bytes, checks the positional
//! account list, and computes the full effect of the instruction as a
//! value. The caller hands the effect to the external collaborators (mint
//! primitive or transfer executor); any failure there aborts the whole
//! instruction, so no partial application is ever observable.

use vstd::prelude::*;

use crate::DECIMALS;
use crate::TOTAL_SUPPLY;
use crate::error::TokenError;
use crate::identity::Identity;
use crate::identity::OfficialWallets;
use crate::instruction::TokenInstruction;
use crate::instruction::spec_unpack;
use crate::router::Move;
use crate::router::lemma_route_sum;
use crate::router::route_transfer;
use crate::router::spec_route;
use crate::router::spec_sum;

verus! {

/// Accounts required by an `InitializeMint` instruction:
/// `[mint, mint_authority, rent_sysvar]`.
pub const INITIALIZE_MINT_ACCOUNTS: usize = 3;

/// Accounts required by a `Transfer` instruction: `[source, destination,
/// authority, treasury, market, seed, loan]`.
pub const TRANSFER_ACCOUNTS: usize = 7;

/// The computed effect of one instruction: either the one-time mint
/// initialization or an atomic set of transfer moves.
#[derive(Clone, Debug, PartialEq, Eq)]
pub enum Effect {
    /// Create the mint with `decimals` fractional decimals and issue the
    /// fixed total supply to the mint authority.
    InitializeMint { mint: Identity, mint_authority: Identity, supply: u64, decimals: u8 },
    /// Perform every move as one indivisible unit, signed by `authority`.
    Transfer { authority: Identity, moves: Vec<Move> },
}

/// The official-wallet configuration carried positionally in a Transfer
/// account list.
pub open spec fn spec_wallets_of(accounts: Seq<Identity>) -> OfficialWallets
    recommends
        accounts.len() >= TRANSFER_ACCOUNTS,
{
    OfficialWallets {
        treasury: accounts[3],
        market: accounts[4],
        seed: accounts[5],
        loan: accounts[6],
    }
}

/// Value conservation through the whole dispatch pipeline: whenever raw
/// bytes decode to a transfer and enough accounts are supplied, the moves
/// of the computed effect sum to exactly the decoded amount, whatever the
/// parties and the wallet configuration.
pub proof fn lemma_process_conserves(bytes: Seq<u8>, accounts: Seq<Identity>)
    requires
        accounts.len() >= TRANSFER_ACCOUNTS,
    ensures
        spec_unpack(bytes) matches Ok(TokenInstruction::Transfer { amount }) ==> spec_sum(
            spec_route(accounts[0], accounts[1], amount, spec_wallets_of(accounts)),
        ) == amount,
{
    match spec_unpack(bytes) {
        Ok(TokenInstruction::Transfer { amount }) => {
            lemma_route_sum(accounts[0], accounts[1], amount, spec_wallets_of(accounts));
        },
        _ => {},
    }
}

/// Decodes and dispatches one instruction against a positional account
/// list, returning the effect to delegate or the error that aborts the
/// instruction.
pub fn process(instruction_data: &[u8], accounts: &Vec<Identity>) -> (r: Result<
    Effect,
    TokenError,
>)
    ensures
        spec_unpack(instruction_data@) matches Err(e) ==> r == Err::<Effect, TokenError>(e),
        spec_unpack(instruction_data@) == Ok::<TokenInstruction, TokenError>(
            TokenInstruction::InitializeMint,
        ) ==> if accounts@.len() < INITIALIZE_MINT_ACCOUNTS {
            r == Err::<Effect, TokenError>(TokenError::MissingAccount)
        } else {
            r matches Ok(Effect::InitializeMint { mint, mint_authority, supply, decimals })
                && mint == accounts@[0] && mint_authority == accounts@[1] && supply == TOTAL_SUPPLY
                && decimals == DECIMALS
        },
        spec_unpack(instruction_data@) matches Ok(TokenInstruction::Transfer { amount })
            ==> if accounts@.len() < TRANSFER_ACCOUNTS {
            r == Err::<Effect, TokenError>(TokenError::MissingAccount)
        } else {
            r matches Ok(Effect::Transfer { authority, moves }) && authority == accounts@[2]
                && moves@ == spec_route(accounts@[0], accounts@[1], amount, spec_wallets_of(accounts@))
        },
{
    let instruction = match TokenInstruction::unpack(instruction_data) {
        Ok(instruction) => instruction,
        Err(e) => {
            return Err(e);
        },
    };
    match instruction {
        TokenInstruction::InitializeMint => {
            if accounts.len() < INITIALIZE_MINT_ACCOUNTS {
                return Err(TokenError::MissingAccount);
            }
            Ok(
                Effect::InitializeMint {
                    mint: accounts[0],
                    mint_authority: accounts[1],
                    supply: TOTAL_SUPPLY,
                    decimals: DECIMALS,
                },
            )
        },
        TokenInstruction::Transfer { amount } => {
            if accounts.len() < TRANSFER_ACCOUNTS {
                return Err(TokenError::MissingAccount);
            }
            let wallets = OfficialWallets {
                treasury: accounts[3],
                market: accounts[4],
                seed: accounts[5],
                loan: accounts[6],
            };
            let moves = match route_transfer(accounts[0], accounts[1], amount, &wallets) {
                Ok(moves) => moves,
                Err(e) => {
                    return Err(e);
                },
            };
            Ok(Effect::Transfer { authority: accounts[2], moves })
        },
    }
}

} // verus!
