use vstd::prelude::*;

use crate::errors::SaturnError;
use crate::instructions::fits_i128;
use crate::keys::keys_equal;
use crate::saturnaccounts::Treasury;
use crate::utils::{calculate_bond_quote, spec_bond_quote};

verus! {

/// Integer division that truncates toward zero, for a positive divisor.
pub open spec fn div_toward_zero(a: int, b: int) -> int {
    if a >= 0 {
        a / b
    } else {
        -((-a) / b)
    }
}

/// The treasury value per minted token, scaled by a thousand.
pub open spec fn backing_value_per_token(treasury_value: int, token_minted: int) -> int {
    div_toward_zero(treasury_value * 1000, token_minted)
}

/// The backing value per token in USDC units.
pub open spec fn usdc_value_per_token(treasury_value: int, token_minted: int) -> int {
    backing_value_per_token(treasury_value, token_minted) * 1_000_000
}

/// The backing price that the quote is computed from: the USDC value per
/// token cut to its low 64 bits.
pub open spec fn backing_price(treasury_value: int, token_minted: int) -> u64 {
    usdc_value_per_token(treasury_value, token_minted) as u64
}

/// The refusal, if any, of a quote update; the checks in the order in which
/// the instruction makes them.
pub open spec fn update_quote_refusal(
    treasury: Treasury,
    signer: [u8; 32],
    current_trading_price: u64,
    current_treasury_value: i128,
) -> Option<SaturnError> {
    let minted = treasury.token_minted as int;
    let backing = backing_price(current_treasury_value as int, minted);
    if signer@ != treasury.saturn_group_api_key@ {
        Some(SaturnError::UnauthorizedQuoteUpdate)
    } else if !fits_i128(current_treasury_value * 1000) {
        Some(SaturnError::ArithmeticOverflow)
    } else if minted == 0 {
        Some(SaturnError::DivisionByZero)
    } else if !fits_i128(usdc_value_per_token(current_treasury_value as int, minted))
        || current_trading_price < backing {
        Some(SaturnError::ArithmeticOverflow)
    } else {
        None
    }
}

/// The effect of a quote update: the result and the treasury afterwards. An
/// accepted update records the time, the new bond quote, the treasury value
/// (as its low 128 bits, unsigned) and the supply at this moment.
pub open spec fn update_quote_effect(
    treasury: Treasury,
    signer: [u8; 32],
    current_trading_price: u64,
    current_treasury_value: i128,
    now: i64,
) -> (Result<(), SaturnError>, Treasury) {
    match update_quote_refusal(treasury, signer, current_trading_price, current_treasury_value) {
        Some(e) => (Err(e), treasury),
        None => (
            Ok(()),
            Treasury {
                last_treasury_value_update: now,
                bond_quote_usd: spec_bond_quote(
                    current_trading_price as int,
                    backing_price(current_treasury_value as int, treasury.token_minted as int) as int,
                ) as u64,
                treasury_value: current_treasury_value as u128,
                tokens_minted_last_update: treasury.token_minted,
                ..treasury
            },
        ),
    }
}

/// Updates the bond quote from the current trading price and treasury value,
/// at time `now`; only the treasury's quote key may sign for it.
pub fn handle(
    treasury: &mut Treasury,
    signer: [u8; 32],
    current_trading_price: u64,
    current_treasury_value: i128,
    now: i64,
) -> (result: Result<(), SaturnError>)
    ensures
        (result, *final(treasury)) == update_quote_effect(
            *old(treasury),
            signer,
            current_trading_price,
            current_treasury_value,
            now,
        ),
{
    if !keys_equal(&signer, &treasury.saturn_group_api_key) {
        return Err(SaturnError::UnauthorizedQuoteUpdate);
    }
    let scaled = match current_treasury_value.checked_mul(1000) {
        Some(scaled) => scaled,
        None => return Err(SaturnError::ArithmeticOverflow),
    };
    if treasury.token_minted == 0 {
        return Err(SaturnError::DivisionByZero);
    }
    let backing_value_per_token = scaled / (treasury.token_minted as i128);
    let usdc_value_per_token = match backing_value_per_token.checked_mul(1_000_000) {
        Some(value) => value,
        None => return Err(SaturnError::ArithmeticOverflow),
    };
    let backing = usdc_value_per_token as u64;
    if current_trading_price < backing {
        return Err(SaturnError::ArithmeticOverflow);
    }
    let quote = calculate_bond_quote(current_trading_price, backing);
    treasury.last_treasury_value_update = now;
    treasury.bond_quote_usd = quote;
    treasury.treasury_value = current_treasury_value as u128;
    treasury.tokens_minted_last_update = treasury.token_minted;
    Ok(())
}

} // verus!
