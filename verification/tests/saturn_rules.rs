use saturn_v1_lite::errors::{BondError, SaturnError};
use saturn_v1_lite::instructions::bonds::{create_bond, redeem_bond, update_quote};
use saturn_v1_lite::instructions::staking::{stake, unstake};
use saturn_v1_lite::instructions::stf::burn_tokens;
use saturn_v1_lite::instructions::treasury::init_treasury;
use saturn_v1_lite::instructions::Timing;
use saturn_v1_lite::keys::{keys_equal, same_key_text};
use saturn_v1_lite::saturnaccounts::{SaturnBond, Treasury, UserStakeAccount};
use saturn_v1_lite::utils::{calculate_bond_quote, safe_divide};

const ADMIN: [u8; 32] = [1u8; 32];
const API_KEY: [u8; 32] = [2u8; 32];
const USER: [u8; 32] = [7u8; 32];
const SYSTEM_PROGRAM: [u8; 32] = [0u8; 32];
const TIMING: Timing = Timing { quote_validity: 600, bond_duration: 86_400 };

fn initialized() -> Treasury {
    let mut treasury = Treasury::default();
    init_treasury::handle(&mut treasury, ADMIN, API_KEY, 5);
    treasury
}

/// A treasury whose quote was updated at time 10 with a backing price of
/// 2_000_000 and a trading price of 3_500_000.
fn quoted() -> Treasury {
    let mut treasury = initialized();
    assert_eq!(update_quote::handle(&mut treasury, API_KEY, 3_500_000, 2_000_000, 10), Ok(()));
    treasury
}

#[test]
fn safe_divide_rounds_to_nearest() {
    assert_eq!(safe_divide(7, 2), 4);
    assert_eq!(safe_divide(5, 3), 2);
    assert_eq!(safe_divide(4, 3), 1);
    assert_eq!(safe_divide(10, 4), 3);
    assert_eq!(safe_divide(9, 4), 2);
    assert_eq!(safe_divide(0, 5), 0);
    assert_eq!(safe_divide(u64::MAX, 1), u64::MAX);
    assert_eq!(safe_divide(u64::MAX, 2), u64::MAX / 2 + 1);
}

#[test]
fn bond_quote_tiers() {
    assert_eq!(calculate_bond_quote(2500, 1000), 1000 + 15 * 30);
    assert_eq!(calculate_bond_quote(1700, 1000), 1000 + 7 * 50);
    assert_eq!(calculate_bond_quote(1300, 1000), 1000 + 3 * 65);
    assert_eq!(calculate_bond_quote(1100, 1000), 1000 + 80);
    assert_eq!(calculate_bond_quote(1000, 1000), 1000);
}

#[test]
fn bond_quote_on_tier_boundaries_is_zero() {
    assert_eq!(calculate_bond_quote(2000, 1000), 0);
    assert_eq!(calculate_bond_quote(1500, 1000), 0);
    assert_eq!(calculate_bond_quote(1250, 1000), 0);
    assert_eq!(calculate_bond_quote(0, 0), 0);
}

#[test]
fn bond_quote_lies_between_backing_and_trading() {
    for trading in 1000u64..3000 {
        let quote = calculate_bond_quote(trading, 1000);
        if quote != 0 {
            assert!(1000 <= quote && quote <= trading);
        }
    }
}

#[test]
fn keys_compare_by_bytes_and_text() {
    assert!(keys_equal(&ADMIN, &ADMIN));
    assert!(!keys_equal(&ADMIN, &API_KEY));
    let mut almost = ADMIN;
    almost[31] = 9;
    assert!(!keys_equal(&ADMIN, &almost));
    assert!(same_key_text(&SYSTEM_PROGRAM, &[0u8; 32]));
    assert!(!same_key_text(&SYSTEM_PROGRAM, &USER));
    assert!(!same_key_text(&ADMIN, &almost));
}

#[test]
fn init_treasury_sets_the_starting_state() {
    let treasury = initialized();
    assert_eq!(treasury.staking_index, 1_000_000_000);
    assert_eq!(treasury.token_minted, 1_000_000_000);
    assert_eq!(treasury.treasury_value, 1_000_000_000);
    assert_eq!(treasury.treasury_admin, ADMIN);
    assert_eq!(treasury.saturn_group_api_key, API_KEY);
    assert_eq!(treasury.last_treasury_value_update, 5);
    assert_eq!(treasury.bond_quote_usd, 0);
    assert_eq!(treasury.token_staked, 0);
    assert_eq!(treasury.tokens_minted_last_update, 0);
}

#[test]
fn update_quote_records_the_quote() {
    let treasury = quoted();
    // backing 2_000_000 * 1000 / 1e9 * 1e6 = 2_000_000; premium 1_500_000 in the 50% tier
    assert_eq!(treasury.bond_quote_usd, 2_000_000 + 15_000 * 50);
    assert_eq!(treasury.last_treasury_value_update, 10);
    assert_eq!(treasury.treasury_value, 2_000_000);
    assert_eq!(treasury.tokens_minted_last_update, 1_000_000_000);
}

#[test]
fn update_quote_refusals() {
    let mut treasury = initialized();
    assert_eq!(
        update_quote::handle(&mut treasury, USER, 3_500_000, 2_000_000, 10),
        Err(SaturnError::UnauthorizedQuoteUpdate)
    );
    assert_eq!(
        update_quote::handle(&mut treasury, API_KEY, 1_000_000, 2_000_000, 10),
        Err(SaturnError::ArithmeticOverflow)
    );
    assert_eq!(
        update_quote::handle(&mut treasury, API_KEY, 3_500_000, i128::MAX, 10),
        Err(SaturnError::ArithmeticOverflow)
    );
    assert_eq!(treasury.last_treasury_value_update, 5);
    let mut empty = Treasury::default();
    empty.saturn_group_api_key = API_KEY;
    assert_eq!(
        update_quote::handle(&mut empty, API_KEY, 3_500_000, 2_000_000, 10),
        Err(SaturnError::DivisionByZero)
    );
}

#[test]
fn update_quote_with_negative_value_truncates_toward_zero() {
    let mut treasury = initialized();
    treasury.token_minted = 3;
    // -1 * 1000 / 3 == -333; times 1e6 and cut to u64 is far above the trading price
    assert_eq!(
        update_quote::handle(&mut treasury, API_KEY, 3_500_000, -1, 10),
        Err(SaturnError::ArithmeticOverflow)
    );
}

#[test]
fn create_bond_records_the_bond() {
    let mut treasury = quoted();
    let mut bond = SaturnBond::default();
    assert_eq!(
        create_bond::handle(&mut treasury, &mut bond, USER, SYSTEM_PROGRAM, 1_000_000, 20, &TIMING),
        Ok(())
    );
    assert_eq!(bond.creator, USER);
    assert_eq!(bond.token_amount, 1_000_000);
    assert_eq!(bond.start_timestamp, 20);
    assert_eq!(bond.end_timestamp, 20 + 86_400);
    // 1e13 / 2_750_000 = 3_636_363.6..., rounded to 3_636_364, times 100
    assert_eq!(bond.num_token_to_redeem, 363_636_400);
    assert!(!bond.is_finished);
    assert_eq!(treasury.token_minted, 1_000_000_000 + 1_000_000);
}

#[test]
fn create_bond_refusals() {
    let mut treasury = quoted();
    let mut bond = SaturnBond::default();
    assert_eq!(
        create_bond::handle(&mut treasury, &mut bond, USER, SYSTEM_PROGRAM, 1_000_000, 610, &TIMING),
        Err(SaturnError::QuoteExpired)
    );
    assert_eq!(
        create_bond::handle(&mut treasury, &mut bond, USER, SYSTEM_PROGRAM, u64::MAX, 20, &TIMING),
        Err(SaturnError::ArithmeticOverflow)
    );
    let long = Timing { quote_validity: 600, bond_duration: i64::MAX };
    assert_eq!(
        create_bond::handle(&mut treasury, &mut bond, USER, SYSTEM_PROGRAM, 1, 20, &long),
        Err(SaturnError::ArithmeticOverflow)
    );
    assert_eq!(bond.creator, SYSTEM_PROGRAM);
    assert_eq!(treasury.token_minted, 1_000_000_000);

    let mut unquoted = initialized();
    assert_eq!(
        create_bond::handle(&mut unquoted, &mut bond, USER, SYSTEM_PROGRAM, 1_000_000, 20, &TIMING),
        Err(SaturnError::DivisionByZero)
    );
}

#[test]
fn bond_opens_once() {
    let mut treasury = quoted();
    let mut bond = SaturnBond::default();
    assert_eq!(
        create_bond::handle(&mut treasury, &mut bond, USER, SYSTEM_PROGRAM, 1_000_000, 20, &TIMING),
        Ok(())
    );
    let before = bond;
    assert_eq!(
        create_bond::handle(&mut treasury, &mut bond, ADMIN, SYSTEM_PROGRAM, 5, 30, &TIMING),
        Err(SaturnError::BondAlreadyInitialized)
    );
    assert_eq!(bond.creator, before.creator);
    assert_eq!(bond.token_amount, before.token_amount);
    assert_eq!(treasury.token_minted, 1_000_000_000 + 1_000_000);
}

#[test]
fn bond_pays_once() {
    let mut treasury = quoted();
    let mut bond = SaturnBond::default();
    create_bond::handle(&mut treasury, &mut bond, USER, SYSTEM_PROGRAM, 1_000_000, 20, &TIMING).unwrap();
    assert_eq!(redeem_bond::handle(&mut bond), Ok(363_636_400));
    assert!(bond.is_finished);
    assert_eq!(redeem_bond::handle(&mut bond), Err(SaturnError::BondAlreadyRedeemed));
    assert!(bond.is_finished);
}

#[test]
fn quote_stays_valid_through_its_window() {
    let mut treasury = quoted();
    let mut bond = SaturnBond::default();
    assert_eq!(
        create_bond::handle(&mut treasury, &mut bond, USER, SYSTEM_PROGRAM, 1_000_000, 609, &TIMING),
        Ok(())
    );
    let mut fresh = quoted();
    assert_eq!(burn_tokens::handle(&mut fresh, 5_000, 1_000, 609, &TIMING), Ok(2));
}

#[test]
fn stake_and_unstake() {
    let mut treasury = initialized();
    let mut account = UserStakeAccount::default();
    assert_eq!(stake::handle(&mut treasury, &mut account, 3_000_000_000), Ok(()));
    assert_eq!(account.total_staked_index, 3);
    assert_eq!(treasury.token_staked, 3_000_000_000);
    assert_eq!(
        unstake::handle(&mut treasury, &mut account, 4),
        Err(SaturnError::Program(BondError::UnstakingError))
    );
    assert_eq!(account.total_staked_index, 3);
    assert_eq!(unstake::handle(&mut treasury, &mut account, 2), Ok(2_000_000_000));
    assert_eq!(account.total_staked_index, 1);
    assert_eq!(treasury.token_staked, 3_000_000_000 - 2);
    assert_eq!(treasury.staking_index, 1_000_000_000);
}

#[test]
fn stake_unstake_round_trip() {
    let mut treasury = initialized();
    let mut account = UserStakeAccount::default();
    stake::handle(&mut treasury, &mut account, 2_500_000_000).unwrap();
    let shares = 2_500_000_000 / treasury.staking_index;
    let paid = unstake::handle(&mut treasury, &mut account, shares).unwrap();
    assert_eq!(paid, 2_000_000_000);
    assert!(paid <= 2_500_000_000 && 2_500_000_000 - paid < treasury.staking_index);
    assert_eq!(account.total_staked_index, 0);
    assert_eq!(treasury.token_staked, 2_500_000_000 - 2);
}

#[test]
fn stake_refusals() {
    let mut empty = Treasury::default();
    let mut account = UserStakeAccount::default();
    assert_eq!(stake::handle(&mut empty, &mut account, 10), Err(SaturnError::DivisionByZero));
    let mut treasury = initialized();
    treasury.token_staked = u64::MAX;
    assert_eq!(stake::handle(&mut treasury, &mut account, 10), Err(SaturnError::ArithmeticOverflow));
    assert_eq!(account.total_staked_index, 0);
    let mut treasury = initialized();
    let mut rich = UserStakeAccount { total_staked_index: u64::MAX, total_points: 0 };
    assert_eq!(
        unstake::handle(&mut treasury, &mut rich, u64::MAX),
        Err(SaturnError::ArithmeticOverflow)
    );
}

#[test]
fn cash_out_pays_the_backing_price() {
    let mut treasury = quoted();
    // backing price: 2_000_000 * 1e9 / 1e9 = 2_000_000; 1000 tokens pay 1000 * 2e6 / 1e9
    assert_eq!(burn_tokens::handle(&mut treasury, 5_000, 1_000, 20, &TIMING), Ok(2));
    assert_eq!(treasury.token_minted, 1_000_000_000 - 1_000);
    assert_eq!(
        burn_tokens::handle(&mut treasury, 5_000, 1_000, 20, &TIMING),
        Err(SaturnError::MintedSupplyChanged)
    );
}

#[test]
fn cash_out_refusals() {
    let mut treasury = quoted();
    assert_eq!(
        burn_tokens::handle(&mut treasury, 1_000, 1_000, 20, &TIMING),
        Err(SaturnError::NotEnoughTokens)
    );
    assert_eq!(
        burn_tokens::handle(&mut treasury, 5_000, 1_000, 700, &TIMING),
        Err(SaturnError::QuoteExpired)
    );
    let mut rich = quoted();
    rich.treasury_value = u64::MAX as u128;
    assert_eq!(
        burn_tokens::handle(&mut rich, 5_000, 1_000, 20, &TIMING),
        Err(SaturnError::ArithmeticOverflow)
    );
    let mut empty = quoted();
    empty.token_minted = 0;
    empty.tokens_minted_last_update = 0;
    assert_eq!(
        burn_tokens::handle(&mut empty, 5_000, 1_000, 20, &TIMING),
        Err(SaturnError::DivisionByZero)
    );
    let mut late = quoted();
    late.last_treasury_value_update = i64::MAX;
    assert_eq!(
        burn_tokens::handle(&mut late, 5_000, 1_000, 20, &TIMING),
        Err(SaturnError::ArithmeticOverflow)
    );
    assert_eq!(treasury.token_minted, 1_000_000_000);
}

#[test]
fn supply_moves_only_with_bonds_and_cash_outs() {
    let mut treasury = quoted();
    let mut account = UserStakeAccount::default();
    stake::handle(&mut treasury, &mut account, 5_000_000_000).unwrap();
    unstake::handle(&mut treasury, &mut account, 1).unwrap();
    assert_eq!(treasury.token_minted, 1_000_000_000);
    let mut bond = SaturnBond::default();
    create_bond::handle(&mut treasury, &mut bond, USER, SYSTEM_PROGRAM, 500, 20, &TIMING).unwrap();
    assert_eq!(treasury.token_minted, 1_000_000_500);
    assert_eq!(treasury.staking_index, 1_000_000_000);
}

#[test]
fn bond_reward_is_within_fifty_units_of_the_exact_share() {
    for (amount, quote) in [(1_000_000u64, 2_750_000u64), (3, 7), (123_456_789, 1_000_003), (1, 1)] {
        let mut treasury = initialized();
        treasury.bond_quote_usd = quote;
        let mut bond = SaturnBond::default();
        create_bond::handle(&mut treasury, &mut bond, USER, SYSTEM_PROGRAM, amount, 6, &TIMING).unwrap();
        let gap = bond.num_token_to_redeem as i128 * quote as i128 - amount as i128 * 1_000_000_000;
        assert!(-50 * (quote as i128) < gap && gap <= 50 * quote as i128);
    }
}

#[test]
fn bond_in_use_is_refused() {
    let mut treasury = quoted();
    let mut bond = SaturnBond::default();
    bond.creator = [0u8; 32];
    bond.creator[0] = 1;
    assert_eq!(
        create_bond::handle(&mut treasury, &mut bond, USER, SYSTEM_PROGRAM, 1_000_000, 20, &TIMING),
        Err(SaturnError::BondAlreadyInitialized)
    );
    assert_eq!(bond.token_amount, 0);
    assert_eq!(treasury.token_minted, 1_000_000_000);
}

#[test]
fn treasury_settings_stay_after_initialization() {
    let mut treasury = quoted();
    let mut account = UserStakeAccount::default();
    let mut bond = SaturnBond::default();
    stake::handle(&mut treasury, &mut account, 7_000_000_000).unwrap();
    create_bond::handle(&mut treasury, &mut bond, USER, SYSTEM_PROGRAM, 10, 20, &TIMING).unwrap();
    redeem_bond::handle(&mut bond).unwrap();
    let _ = update_quote::handle(&mut treasury, USER, 3_500_000, 2_000_000, 30);
    unstake::handle(&mut treasury, &mut account, 3).unwrap();
    let _ = burn_tokens::handle(&mut treasury, 5_000, 1_000, 40, &TIMING);
    assert_eq!(treasury.staking_index, 1_000_000_000);
    assert_eq!(treasury.treasury_admin, ADMIN);
    assert_eq!(treasury.saturn_group_api_key, API_KEY);
}
