use vstd::prelude::*;

use crate::errors::SaturnError;
use crate::instructions::{check_quote, quote_refusal, Timing};
use crate::saturnaccounts::Treasury;
use crate::utils::{rounded_div, safe_divide};

verus! {

/// The treasury value cut to its low 64 bits, scaled by a billion.
pub open spec fn scaled_treasury_value(treasury: Treasury) -> int {
    (treasury.treasury_value as u64) * 1_000_000_000
}

/// The backing price of one token, scaled by a billion: the scaled treasury
/// value divided by the supply, rounded.
pub open spec fn token_backing_price(treasury: Treasury) -> int {
    rounded_div(scaled_treasury_value(treasury), treasury.token_minted as int)
}

/// USDC paid out for `token_amount` tokens at the backing price.
pub open spec fn redemption_payout(treasury: Treasury, token_amount: u64) -> int {
    token_amount * token_backing_price(treasury) / 1_000_000_000
}

/// The refusal, if any, of cashing out `token_amount` tokens from a holder
/// who has `user_balance`; the checks in the order in which the instruction
/// makes them.
pub open spec fn redeem_refusal(
    treasury: Treasury,
    user_balance: u64,
    token_amount: u64,
    now: i64,
    timing: Timing,
) -> Option<SaturnError> {
    if user_balance <= token_amount {
        Some(SaturnError::NotEnoughTokens)
    } else if quote_refusal(treasury, timing, now) is Some {
        quote_refusal(treasury, timing, now)
    } else if treasury.token_minted != treasury.tokens_minted_last_update {
        Some(SaturnError::MintedSupplyChanged)
    } else if scaled_treasury_value(treasury) > u64::MAX {
        Some(SaturnError::ArithmeticOverflow)
    } else if treasury.token_minted == 0 {
        Some(SaturnError::DivisionByZero)
    } else if token_amount * token_backing_price(treasury) > u64::MAX
        || treasury.token_minted < token_amount {
        Some(SaturnError::ArithmeticOverflow)
    } else {
        None
    }
}

/// The effect of cashing out: the USDC payout and the treasury afterwards,
/// whose supply is less by the tokens burned.
pub open spec fn redeem_effect(
    treasury: Treasury,
    user_balance: u64,
    token_amount: u64,
    now: i64,
    timing: Timing,
) -> (Result<u64, SaturnError>, Treasury) {
    match redeem_refusal(treasury, user_balance, token_amount, now, timing) {
        Some(e) => (Err(e), treasury),
        None => (
            Ok(redemption_payout(treasury, token_amount) as u64),
            Treasury { token_minted: (treasury.token_minted - token_amount) as u64, ..treasury },
        ),
    }
}

/// Cashes out `token_amount` STF at time `now` for a holder whose balance
/// is `user_balance`. On `Ok(payout)` the caller burns the `token_amount`
/// STF and moves `payout` USDC from the treasury to the holder.
pub fn handle(
    treasury: &mut Treasury,
    user_balance: u64,
    token_amount: u64,
    now: i64,
    timing: &Timing,
) -> (result: Result<u64, SaturnError>)
    ensures
        (result, *final(treasury)) == redeem_effect(
            *old(treasury),
            user_balance,
            token_amount,
            now,
            *timing,
        ),
{
    if user_balance <= token_amount {
        return Err(SaturnError::NotEnoughTokens);
    }
    check_quote(treasury, timing, now)?;
    if treasury.token_minted != treasury.tokens_minted_last_update {
        return Err(SaturnError::MintedSupplyChanged);
    }
    let value = treasury.treasury_value as u64;
    let scaled = match value.checked_mul(1_000_000_000) {
        Some(scaled) => scaled,
        None => return Err(SaturnError::ArithmeticOverflow),
    };
    if treasury.token_minted == 0 {
        return Err(SaturnError::DivisionByZero);
    }
    let token_backing_price = safe_divide(scaled, treasury.token_minted);
    let payout = match token_amount.checked_mul(token_backing_price) {
        Some(product) => product / 1_000_000_000,
        None => return Err(SaturnError::ArithmeticOverflow),
    };
    if treasury.token_minted < token_amount {
        return Err(SaturnError::ArithmeticOverflow);
    }
    treasury.token_minted = treasury.token_minted - token_amount;
    Ok(payout)
}

} // verus!
