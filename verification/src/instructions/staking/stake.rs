use vstd::prelude::*;

use crate::errors::SaturnError;
use crate::saturnaccounts::{Treasury, UserStakeAccount};

verus! {

/// The refusal, if any, of a stake of `amount_to_stake` STF.
pub open spec fn stake_refusal(
    treasury: Treasury,
    stake: UserStakeAccount,
    amount_to_stake: u64,
) -> Option<SaturnError> {
    if treasury.staking_index == 0 {
        Some(SaturnError::DivisionByZero)
    } else if stake.total_staked_index + amount_to_stake / treasury.staking_index > u64::MAX
        || treasury.token_staked + amount_to_stake > u64::MAX {
        Some(SaturnError::ArithmeticOverflow)
    } else {
        None
    }
}

/// The effect of staking: the holder gains `amount / staking_index` shares
/// (rounded down) and the treasury counts the whole amount as staked.
pub open spec fn stake_effect(
    treasury: Treasury,
    stake: UserStakeAccount,
    amount_to_stake: u64,
) -> (Result<(), SaturnError>, Treasury, UserStakeAccount) {
    match stake_refusal(treasury, stake, amount_to_stake) {
        Some(e) => (Err(e), treasury, stake),
        None => (
            Ok(()),
            Treasury {
                token_staked: (treasury.token_staked + amount_to_stake) as u64,
                ..treasury
            },
            UserStakeAccount {
                total_staked_index: (stake.total_staked_index + amount_to_stake
                    / treasury.staking_index) as u64,
                ..stake
            },
        ),
    }
}

/// Stakes `amount_to_stake` STF. On `Ok` the caller moves the STF from the
/// holder to the treasury.
pub fn handle(
    treasury: &mut Treasury,
    user_stake_account: &mut UserStakeAccount,
    amount_to_stake: u64,
) -> (result: Result<(), SaturnError>)
    ensures
        (result, *final(treasury), *final(user_stake_account)) == stake_effect(
            *old(treasury),
            *old(user_stake_account),
            amount_to_stake,
        ),
{
    if treasury.staking_index == 0 {
        return Err(SaturnError::DivisionByZero);
    }
    let shares = amount_to_stake / treasury.staking_index;
    let total = match user_stake_account.total_staked_index.checked_add(shares) {
        Some(total) => total,
        None => return Err(SaturnError::ArithmeticOverflow),
    };
    let staked = match treasury.token_staked.checked_add(amount_to_stake) {
        Some(staked) => staked,
        None => return Err(SaturnError::ArithmeticOverflow),
    };
    user_stake_account.total_staked_index = total;
    treasury.token_staked = staked;
    Ok(())
}

} // verus!
