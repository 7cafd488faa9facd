use vstd::prelude::*;

verus! {

/// The program's global state.
#[derive(Clone, Copy, Debug)]
pub struct Treasury {
    pub treasury_admin: [u8; 32],
    /// The key that may update the bond quote.
    pub saturn_group_api_key: [u8; 32],
    /// STF per staking share.
    pub staking_index: u64,
    /// Value of the treasury in USD.
    pub treasury_value: u128,
    pub last_treasury_value_update: i64,
    pub bond_quote_usd: u64,
    /// `token_minted` as it was at the last quote update.
    pub tokens_minted_last_update: u64,
    pub token_minted: u64,
    pub token_staked: u64,
    pub tokens_in_bonds: u64,
}

impl Treasury {
    /// A treasury account as it is before first use: every field zero.
    pub open spec fn is_zeroed(self) -> bool {
        &&& self.treasury_admin@ == Seq::new(32, |i: int| 0u8)
        &&& self.saturn_group_api_key@ == Seq::new(32, |i: int| 0u8)
        &&& self.staking_index == 0
        &&& self.treasury_value == 0
        &&& self.last_treasury_value_update == 0
        &&& self.bond_quote_usd == 0
        &&& self.tokens_minted_last_update == 0
        &&& self.token_minted == 0
        &&& self.token_staked == 0
        &&& self.tokens_in_bonds == 0
    }
}

impl Default for Treasury {
    fn default() -> (treasury: Self)
        ensures
            treasury.is_zeroed(),
    {
        let treasury = Treasury {
            treasury_admin: [0u8; 32],
            saturn_group_api_key: [0u8; 32],
            staking_index: 0,
            treasury_value: 0,
            last_treasury_value_update: 0,
            bond_quote_usd: 0,
            tokens_minted_last_update: 0,
            token_minted: 0,
            token_staked: 0,
            tokens_in_bonds: 0,
        };
        assert(treasury.treasury_admin@ =~= Seq::new(32, |i: int| 0u8));
        assert(treasury.saturn_group_api_key@ =~= Seq::new(32, |i: int| 0u8));
        treasury
    }
}

} // verus!
