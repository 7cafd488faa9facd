use vstd::prelude::*;

use crate::saturnaccounts::Treasury;

verus! {

/// The treasury as the initialization leaves it: a staking index and a supply
/// of a billion, a treasury value of a billion, the admin and quote keys, and
/// the quote update time set to `now`; every other field as it was.
pub open spec fn initialized_treasury(
    treasury: Treasury,
    payer: [u8; 32],
    saturn_api_key: [u8; 32],
    now: i64,
) -> Treasury {
    Treasury {
        staking_index: 1_000_000_000,
        token_minted: 1_000_000_000,
        treasury_admin: payer,
        saturn_group_api_key: saturn_api_key,
        last_treasury_value_update: now,
        treasury_value: 1_000_000_000,
        ..treasury
    }
}

/// Initializes the treasury at time `now`, with `payer` as its admin and
/// `saturn_api_key` as the key that may update the bond quote.
pub fn handle(saturn_group: &mut Treasury, payer: [u8; 32], saturn_api_key: [u8; 32], now: i64)
    ensures
        *final(saturn_group) == initialized_treasury(*old(saturn_group), payer, saturn_api_key, now),
{
    saturn_group.staking_index = 1_000_000_000;
    saturn_group.token_minted = 1_000_000_000;
    saturn_group.treasury_admin = payer;
    saturn_group.saturn_group_api_key = saturn_api_key;
    saturn_group.last_treasury_value_update = now;
    saturn_group.treasury_value = 1_000_000_000;
}

} // verus!
