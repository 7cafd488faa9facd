use vstd::prelude::*;

verus! {

/// A bond: USDC paid into the treasury now, STF minted to its creator later.
#[derive(Clone, Copy, Debug)]
pub struct SaturnBond {
    /// The key of the bond's creator; all zero bytes while the bond is unused.
    pub creator: [u8; 32],
    /// USDC paid in.
    pub token_amount: u64,
    pub start_timestamp: i64,
    pub end_timestamp: i64,
    /// STF minted to the creator on redemption.
    pub num_token_to_redeem: u64,
    pub is_finished: bool,
}

impl SaturnBond {
    /// A bond account as it is before first use: every field zero.
    pub open spec fn is_zeroed(self) -> bool {
        &&& self.creator@ == Seq::new(32, |i: int| 0u8)
        &&& self.token_amount == 0
        &&& self.start_timestamp == 0
        &&& self.end_timestamp == 0
        &&& self.num_token_to_redeem == 0
        &&& !self.is_finished
    }
}

impl Default for SaturnBond {
    fn default() -> (bond: Self)
        ensures
            bond.is_zeroed(),
    {
        let bond = SaturnBond {
            creator: [0u8; 32],
            token_amount: 0,
            start_timestamp: 0,
            end_timestamp: 0,
            num_token_to_redeem: 0,
            is_finished: false,
        };
        assert(bond.creator@ =~= Seq::new(32, |i: int| 0u8));
        bond
    }
}

} // verus!
