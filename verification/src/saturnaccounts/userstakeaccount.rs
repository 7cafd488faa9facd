use vstd::prelude::*;

verus! {

/// A holder's stake: shares of the staked STF, counted in staking-index units.
#[derive(Clone, Copy, Debug, PartialEq, Eq, Structural)]
pub struct UserStakeAccount {
    pub total_staked_index: u64,
    pub total_points: u64,
}

impl Default for UserStakeAccount {
    fn default() -> (account: Self)
        ensures
            account.total_staked_index == 0,
            account.total_points == 0,
    {
        UserStakeAccount { total_staked_index: 0, total_points: 0 }
    }
}

} // verus!
