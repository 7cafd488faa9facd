use vstd::prelude::*;

use crate::errors::{BondError, SaturnError};
use crate::saturnaccounts::{Treasury, UserStakeAccount};

verus! {

/// The refusal, if any, of unstaking `amount_to_unstake` shares.
pub open spec fn unstake_refusal(
    treasury: Treasury,
    stake: UserStakeAccount,
    amount_to_unstake: u64,
) -> Option<SaturnError> {
    if stake.total_staked_index < amount_to_unstake {
        Some(SaturnError::Program(BondError::UnstakingError))
    } else if amount_to_unstake * treasury.staking_index > u64::MAX
        || treasury.token_staked < amount_to_unstake {
        Some(SaturnError::ArithmeticOverflow)
    } else {
        None
    }
}

/// The effect of unstaking: the STF paid out (`shares * staking_index`), and
/// the holder's shares and the treasury's staked count each less by the
/// number of shares.
pub open spec fn unstake_effect(
    treasury: Treasury,
    stake: UserStakeAccount,
    amount_to_unstake: u64,
) -> (Result<u64, SaturnError>, Treasury, UserStakeAccount) {
    match unstake_refusal(treasury, stake, amount_to_unstake) {
        Some(e) => (Err(e), treasury, stake),
        None => (
            Ok((amount_to_unstake * treasury.staking_index) as u64),
            Treasury {
                token_staked: (treasury.token_staked - amount_to_unstake) as u64,
                ..treasury
            },
            UserStakeAccount {
                total_staked_index: (stake.total_staked_index - amount_to_unstake) as u64,
                ..stake
            },
        ),
    }
}

/// Unstakes `amount_to_unstake` shares. On `Ok(amount)` the caller moves
/// `amount` STF from the treasury to the holder.
pub fn handle(
    treasury: &mut Treasury,
    user_stake_account: &mut UserStakeAccount,
    amount_to_unstake: u64,
) -> (result: Result<u64, SaturnError>)
    ensures
        (result, *final(treasury), *final(user_stake_account)) == unstake_effect(
            *old(treasury),
            *old(user_stake_account),
            amount_to_unstake,
        ),
{
    if user_stake_account.total_staked_index < amount_to_unstake {
        return Err(SaturnError::Program(BondError::UnstakingError));
    }
    let amount_to_transfer = match amount_to_unstake.checked_mul(treasury.staking_index) {
        Some(amount) => amount,
        None => return Err(SaturnError::ArithmeticOverflow),
    };
    if treasury.token_staked < amount_to_unstake {
        return Err(SaturnError::ArithmeticOverflow);
    }
    user_stake_account.total_staked_index = user_stake_account.total_staked_index - amount_to_unstake;
    treasury.token_staked = treasury.token_staked - amount_to_unstake;
    Ok(amount_to_transfer)
}

} // verus!
