use us20_core::error::TokenError;
use us20_core::fees::{calculate_fee, fee_split};
use us20_core::identity::{classify, is_official_wallet, Identity, OfficialWallets, WalletRole};
use us20_core::instruction::TokenInstruction;
use us20_core::loan::{InterestPolicy, LoanRecord, LoanState, RepaymentPolicy};
use us20_core::loan::amount_due;
use us20_core::process::{process, Effect};
use us20_core::router::{route_transfer, Move};
use us20_core::treasury::{AWARD_AMOUNT, REWARD_AMOUNT};
use us20_core::{DECIMALS, TOTAL_SUPPLY};

fn ident(n: u64) -> Identity {
    Identity { w0: n, w1: 0, w2: 0, w3: 0 }
}

fn wallets() -> OfficialWallets {
    OfficialWallets { treasury: ident(1), market: ident(2), seed: ident(3), loan: ident(4) }
}

const DAY: u64 = 86_400;

// Instruction decoding

#[test]
fn decode_transfer_amount_100() {
    let bytes = [1u8, 100, 0, 0, 0, 0, 0, 0, 0];
    assert_eq!(
        TokenInstruction::unpack(&bytes),
        Ok(TokenInstruction::Transfer { amount: 100 })
    );
}

#[test]
fn decode_initialize_mint() {
    assert_eq!(TokenInstruction::unpack(&[0u8]), Ok(TokenInstruction::InitializeMint));
}

#[test]
fn decode_unknown_opcode() {
    assert_eq!(TokenInstruction::unpack(&[2u8]), Err(TokenError::InvalidInstruction));
}

#[test]
fn decode_short_payload() {
    assert_eq!(TokenInstruction::unpack(&[1u8, 1, 2, 3]), Err(TokenError::InvalidInstruction));
}

#[test]
fn decode_empty_input() {
    assert_eq!(TokenInstruction::unpack(&[]), Err(TokenError::InvalidInstruction));
}

#[test]
fn decode_little_endian_full_width() {
    let bytes = [1u8, 0x88, 0x77, 0x66, 0x55, 0x44, 0x33, 0x22, 0x11];
    assert_eq!(
        TokenInstruction::unpack(&bytes),
        Ok(TokenInstruction::Transfer { amount: 0x1122_3344_5566_7788 })
    );
}

// Fee computation

#[test]
fn fee_rounds_half_up() {
    assert_eq!(calculate_fee(0), 0);
    assert_eq!(calculate_fee(49), 0);
    assert_eq!(calculate_fee(50), 1);
    assert_eq!(calculate_fee(100), 1);
    assert_eq!(calculate_fee(149), 1);
    assert_eq!(calculate_fee(150), 2);
    assert_eq!(calculate_fee(u64::MAX), (u64::MAX - 50) / 100 + 1);
}

#[test]
fn fee_split_conserves_amount() {
    for amount in [0u64, 1, 49, 50, 99, 100, 12_345, u64::MAX] {
        let split = fee_split(amount);
        assert_eq!(split.principal + split.fee, amount);
        assert!(split.fee <= amount);
    }
}

// Transfer routing

#[test]
fn transfer_between_unofficial_parties_pays_fee_to_seed() {
    let w = wallets();
    let moves = route_transfer(ident(10), ident(11), 10_000, &w).unwrap();
    assert_eq!(moves.len(), 2);
    assert_eq!(moves[0], Move { from: ident(10), to: ident(11), amount: 9_900 });
    assert_eq!(moves[1], Move { from: ident(10), to: w.seed, amount: 100 });
    assert_eq!(moves[0].amount + moves[1].amount, 10_000);
}

#[test]
fn transfer_from_official_wallet_is_fee_free() {
    let w = wallets();
    let moves = route_transfer(w.treasury, ident(11), 10_000, &w).unwrap();
    assert_eq!(moves, vec![Move { from: w.treasury, to: ident(11), amount: 10_000 }]);
}

#[test]
fn transfer_to_official_wallet_is_fee_free() {
    let w = wallets();
    let moves = route_transfer(ident(10), w.loan, 10_000, &w).unwrap();
    assert_eq!(moves, vec![Move { from: ident(10), to: w.loan, amount: 10_000 }]);
}

#[test]
fn tiny_transfer_fee_rounds_to_zero_single_move() {
    let w = wallets();
    let moves = route_transfer(ident(10), ident(11), 49, &w).unwrap();
    assert_eq!(moves, vec![Move { from: ident(10), to: ident(11), amount: 49 }]);
}

// Treasury-to-Market distribution

#[test]
fn send_to_market_splits_eighty_twenty() {
    let w = wallets();
    let moves = w.send_to_market(100).unwrap();
    assert_eq!(moves.len(), 2);
    assert_eq!(moves[0], Move { from: w.treasury, to: w.market, amount: 80 });
    assert_eq!(moves[1], Move { from: w.treasury, to: w.seed, amount: 20 });
}

#[test]
fn send_to_market_rounds_seed_share_half_up() {
    let w = wallets();
    let moves = w.send_to_market(103).unwrap();
    assert_eq!(moves[0].amount, 82);
    assert_eq!(moves[1].amount, 21);
}

#[test]
fn send_to_market_conserves_amount() {
    let w = wallets();
    for amount in [0u64, 1, 2, 3, 99, 100, 101, 12_345, u64::MAX] {
        let moves = w.send_to_market(amount).unwrap();
        assert_eq!(moves[0].amount + moves[1].amount, amount);
        assert_eq!(moves[1].to, w.seed);
    }
}

// Market role

#[test]
fn yield_applies_fixed_multiplier() {
    let w = wallets();
    assert_eq!(w.calculate_yield(0), Ok(0));
    assert_eq!(w.calculate_yield(100), Ok(249));
    assert_eq!(w.calculate_yield(100_000), Ok(248_832));
}

#[test]
fn yield_of_largest_representable_amount() {
    let w = wallets();
    assert_eq!(
        w.calculate_yield(7_413_332_719_951_433_744),
        Ok(18_446_744_073_709_551_614)
    );
    assert_eq!(
        w.calculate_yield(7_413_332_719_951_433_745),
        Err(TokenError::ArithmeticOverflow)
    );
    assert_eq!(w.calculate_yield(u64::MAX), Err(TokenError::ArithmeticOverflow));
}

#[test]
fn buyback_builds_conversion_request() {
    let w = wallets();
    let request = w.buyback(5_000, "USDC");
    assert_eq!(request.market, w.market);
    assert_eq!(request.asset, "USDC");
    assert_eq!(request.budget, 5_000);
}

#[test]
fn receive_tokens_forwards_amount() {
    let w = wallets();
    assert_eq!(w.receive_tokens(TOTAL_SUPPLY), Ok(TOTAL_SUPPLY));
}

// Seed role

#[test]
fn reward_is_25_tokens_from_seed() {
    let w = wallets();
    let investor = ident(42);
    assert_eq!(REWARD_AMOUNT, 2_500_000_000);
    assert_eq!(
        w.send_reward(&investor),
        Move { from: w.seed, to: investor, amount: REWARD_AMOUNT }
    );
}

#[test]
fn award_is_50_000_tokens_from_seed() {
    let w = wallets();
    let client = ident(43);
    assert_eq!(AWARD_AMOUNT, 5_000_000_000_000);
    assert_eq!(
        w.send_award(&client),
        Move { from: w.seed, to: client, amount: AWARD_AMOUNT }
    );
}

#[test]
fn lottery_picks_winner_by_random_modulo() {
    let w = wallets();
    let participants = vec![ident(20), ident(21), ident(22)];
    let outcome = w.lottery(&participants, 5, 1_000).unwrap();
    assert_eq!(outcome, Move { from: w.seed, to: ident(22), amount: 1_000 });
}

#[test]
fn lottery_with_no_participants_fails() {
    let w = wallets();
    assert_eq!(w.lottery(&vec![], 5, 1_000), Err(TokenError::MissingAccount));
}

// Wallet classification

#[test]
fn classify_returns_each_configured_role() {
    let w = wallets();
    assert_eq!(classify(&w.treasury, &w), WalletRole::Treasury);
    assert_eq!(classify(&w.market, &w), WalletRole::Market);
    assert_eq!(classify(&w.seed, &w), WalletRole::Seed);
    assert_eq!(classify(&w.loan, &w), WalletRole::Loan);
    assert_eq!(classify(&ident(99), &w), WalletRole::Unclassified);
}

#[test]
fn classify_is_idempotent() {
    let w = wallets();
    for id in [w.treasury, w.market, w.seed, w.loan, ident(99)] {
        let first = classify(&id, &w);
        let second = classify(&id, &w);
        assert_eq!(first, second);
        assert_eq!(is_official_wallet(&id, &w), is_official_wallet(&id, &w));
    }
}

#[test]
fn duplicate_official_wallets_rejected_at_setup() {
    assert_eq!(OfficialWallets::new(ident(1), ident(1), ident(3), ident(4)), None);
    assert_eq!(OfficialWallets::new(ident(1), ident(2), ident(3), ident(4)), Some(wallets()));
}

// Loan lifecycle

#[test]
fn loan_due_within_grace_window_is_principal() {
    let policy = InterestPolicy::new(100).unwrap();
    let state = LoanState::NoLoan.take_loan(1_000, 0).unwrap();
    let record = match state {
        LoanState::Active { record } => record,
        _ => panic!("expected an active loan"),
    };
    assert_eq!(amount_due(&record, 29 * DAY, &policy), Ok(1_000));
    assert_eq!(amount_due(&record, 30 * DAY, &policy), Ok(1_000));
    assert_eq!(
        state.pay_loan(1_000, 29 * DAY, &policy, RepaymentPolicy::RejectPartial),
        Ok(LoanState::Closed)
    );
}

#[test]
fn loan_due_after_grace_window_exceeds_principal() {
    let policy = InterestPolicy::new(100).unwrap();
    let record = LoanRecord { principal: 1_000, issued_at: 0 };
    let due_31 = amount_due(&record, 31 * DAY, &policy).unwrap();
    assert_eq!(due_31, 1_010);
    assert!(due_31 > 1_000);
    // Interest keeps growing per started late day.
    assert_eq!(amount_due(&record, 31 * DAY + 1, &policy), Ok(1_020));
    assert_eq!(amount_due(&record, 40 * DAY, &policy), Ok(1_100));
}

#[test]
fn take_loan_twice_fails() {
    let state = LoanState::NoLoan.take_loan(1_000, 0).unwrap();
    assert_eq!(state.take_loan(500, 10), Err(TokenError::LoanAlreadyActive));
    assert_eq!(LoanState::Closed.take_loan(500, 10), Err(TokenError::LoanAlreadyActive));
}

#[test]
fn pay_loan_without_loan_fails() {
    let policy = InterestPolicy::new(100).unwrap();
    assert_eq!(
        LoanState::NoLoan.pay_loan(1_000, 0, &policy, RepaymentPolicy::RejectPartial),
        Err(TokenError::NoActiveLoan)
    );
    assert_eq!(
        LoanState::Closed.pay_loan(1_000, 0, &policy, RepaymentPolicy::RejectPartial),
        Err(TokenError::NoActiveLoan)
    );
}

#[test]
fn partial_repayment_rejected_or_tracked_per_policy() {
    let policy = InterestPolicy::new(100).unwrap();
    let state = LoanState::NoLoan.take_loan(1_000, 0).unwrap();
    assert_eq!(
        state.pay_loan(400, 10 * DAY, &policy, RepaymentPolicy::RejectPartial),
        Err(TokenError::PartialRepaymentRejected)
    );
    assert_eq!(
        state.pay_loan(400, 10 * DAY, &policy, RepaymentPolicy::TrackPartial),
        Ok(LoanState::Active { record: LoanRecord { principal: 600, issued_at: 0 } })
    );
}

#[test]
fn interest_rate_above_full_principal_per_day_rejected() {
    assert_eq!(InterestPolicy::new(10_000).map(|p| p.rate_bps_per_day), Some(10_000));
    assert_eq!(InterestPolicy::new(10_001), None);
}

// Dispatcher

#[test]
fn process_transfer_emits_fee_routed_moves() {
    let w = wallets();
    let accounts = vec![ident(10), ident(11), ident(12), w.treasury, w.market, w.seed, w.loan];
    let bytes = [1u8, 16, 39, 0, 0, 0, 0, 0, 0]; // 10_000 little-endian
    match process(&bytes, &accounts).unwrap() {
        Effect::Transfer { authority, moves } => {
            assert_eq!(authority, ident(12));
            assert_eq!(moves.len(), 2);
            assert_eq!(moves[0], Move { from: ident(10), to: ident(11), amount: 9_900 });
            assert_eq!(moves[1], Move { from: ident(10), to: w.seed, amount: 100 });
        }
        other => panic!("expected a transfer effect, got {:?}", other),
    }
}

#[test]
fn process_initialize_mint_issues_total_supply() {
    let accounts = vec![ident(30), ident(31), ident(32)];
    assert_eq!(
        process(&[0u8], &accounts),
        Ok(Effect::InitializeMint {
            mint: ident(30),
            mint_authority: ident(31),
            supply: TOTAL_SUPPLY,
            decimals: DECIMALS,
        })
    );
}

#[test]
fn process_with_missing_accounts_fails() {
    let w = wallets();
    let bytes = [1u8, 100, 0, 0, 0, 0, 0, 0, 0];
    let short = vec![ident(10), ident(11), ident(12), w.treasury, w.market, w.seed];
    assert_eq!(process(&bytes, &short), Err(TokenError::MissingAccount));
    assert_eq!(process(&[0u8], &vec![ident(30)]), Err(TokenError::MissingAccount));
}

#[test]
fn process_rejects_malformed_instruction() {
    let accounts = vec![ident(30), ident(31), ident(32)];
    assert_eq!(process(&[9u8], &accounts), Err(TokenError::InvalidInstruction));
    assert_eq!(process(&[], &accounts), Err(TokenError::InvalidInstruction));
}

#[test]
fn total_supply_is_100_billion_at_8_decimals() {
    assert_eq!(TOTAL_SUPPLY, 10_000_000_000_000_000_000);
    assert_eq!(DECIMALS, 8);
    assert_eq!(TokenError::ArithmeticOverflow.describe(), "arithmetic overflow");
}
