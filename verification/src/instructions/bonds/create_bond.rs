use vstd::prelude::*;

use crate::errors::SaturnError;
use crate::instructions::{check_quote, fits_i64, quote_refusal, Timing};
use crate::keys::same_key_text;
use crate::saturnaccounts::{SaturnBond, Treasury};
use crate::utils::{rounded_div, safe_divide};

verus! {

/// STF owed for a bond of `token_amount` USDC at the quote `bond_quote_usd`:
/// the amount scaled up by ten million, divided by the quote with rounding,
/// then scaled up by a hundred.
pub open spec fn bond_reward(token_amount: int, bond_quote_usd: int) -> int {
    rounded_div(token_amount * 10_000_000, bond_quote_usd) * 100
}

/// The refusal, if any, of opening a bond; the checks in the order in which
/// the instruction makes them.
pub open spec fn open_bond_refusal(
    treasury: Treasury,
    unopened: bool,
    token_amount: u64,
    now: i64,
    timing: Timing,
) -> Option<SaturnError> {
    if !unopened {
        Some(SaturnError::BondAlreadyInitialized)
    } else if quote_refusal(treasury, timing, now) is Some {
        quote_refusal(treasury, timing, now)
    } else if !fits_i64(now + timing.bond_duration) || token_amount * 10_000_000 > u64::MAX {
        Some(SaturnError::ArithmeticOverflow)
    } else if treasury.bond_quote_usd == 0 {
        Some(SaturnError::DivisionByZero)
    } else if bond_reward(token_amount as int, treasury.bond_quote_usd as int) > u64::MAX
        || treasury.token_minted + token_amount > u64::MAX {
        Some(SaturnError::ArithmeticOverflow)
    } else {
        None
    }
}

/// The effect of opening a bond: the result, then the treasury and the bond
/// afterwards. A refused bond changes nothing; an accepted one records its
/// creator, amount, start and end, and the STF it will pay, and counts the
/// amount into `token_minted`.
pub open spec fn open_bond_effect(
    treasury: Treasury,
    bond: SaturnBond,
    unopened: bool,
    user: [u8; 32],
    token_amount: u64,
    now: i64,
    timing: Timing,
) -> (Result<(), SaturnError>, Treasury, SaturnBond) {
    match open_bond_refusal(treasury, unopened, token_amount, now, timing) {
        Some(e) => (Err(e), treasury, bond),
        None => (
            Ok(()),
            Treasury { token_minted: (treasury.token_minted + token_amount) as u64, ..treasury },
            SaturnBond {
                creator: user,
                token_amount: token_amount,
                start_timestamp: now,
                end_timestamp: (now + timing.bond_duration) as i64,
                num_token_to_redeem: bond_reward(
                    token_amount as int,
                    treasury.bond_quote_usd as int,
                ) as u64,
                ..bond
            },
        ),
    }
}

/// Opens a bond for `user`, who pays `token_amount` USDC into the treasury
/// at time `now`; `unopened` tells whether the bond account is still unused.
/// On `Ok` the caller moves the USDC from the user to the treasury.
pub fn open_bond(
    treasury: &mut Treasury,
    bond: &mut SaturnBond,
    unopened: bool,
    user: [u8; 32],
    token_amount: u64,
    now: i64,
    timing: &Timing,
) -> (result: Result<(), SaturnError>)
    ensures
        (result, *final(treasury), *final(bond)) == open_bond_effect(
            *old(treasury),
            *old(bond),
            unopened,
            user,
            token_amount,
            now,
            *timing,
        ),
{
    if !unopened {
        return Err(SaturnError::BondAlreadyInitialized);
    }
    check_quote(treasury, timing, now)?;
    let end_timestamp = match now.checked_add(timing.bond_duration) {
        Some(end) => end,
        None => return Err(SaturnError::ArithmeticOverflow),
    };
    let scaled = match token_amount.checked_mul(10_000_000) {
        Some(scaled) => scaled,
        None => return Err(SaturnError::ArithmeticOverflow),
    };
    if treasury.bond_quote_usd == 0 {
        return Err(SaturnError::DivisionByZero);
    }
    let reward = match safe_divide(scaled, treasury.bond_quote_usd).checked_mul(100) {
        Some(reward) => reward,
        None => return Err(SaturnError::ArithmeticOverflow),
    };
    let minted = match treasury.token_minted.checked_add(token_amount) {
        Some(minted) => minted,
        None => return Err(SaturnError::ArithmeticOverflow),
    };
    bond.creator = user;
    bond.end_timestamp = end_timestamp;
    bond.start_timestamp = now;
    bond.token_amount = token_amount;
    bond.num_token_to_redeem = reward;
    treasury.token_minted = minted;
    Ok(())
}

/// Creates a bond for `user` paying `token_amount` USDC at time `now`. The
/// bond account counts as unused while its creator prints as the same text
/// as `system_program`'s key (the key that an unused account holds), that is,
/// while its creator is that key.
pub fn handle(
    treasury: &mut Treasury,
    bond: &mut SaturnBond,
    user: [u8; 32],
    system_program: [u8; 32],
    token_amount: u64,
    now: i64,
    timing: &Timing,
) -> (result: Result<(), SaturnError>)
    ensures
        (result, *final(treasury), *final(bond)) == open_bond_effect(
            *old(treasury),
            *old(bond),
            old(bond).creator@ == system_program@,
            user,
            token_amount,
            now,
            *timing,
        ),
{
    let unopened = same_key_text(&bond.creator, &system_program);
    open_bond(treasury, bond, unopened, user, token_amount, now, timing)
}

} // verus!
