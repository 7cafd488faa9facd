use vstd::prelude::*;

use crate::errors::SaturnError;
use crate::saturnaccounts::SaturnBond;

verus! {

/// The effect of redeeming a bond: the STF to mint to its creator, or the
/// refusal, and the bond afterwards. A bond pays once.
pub open spec fn redeem_bond_effect(bond: SaturnBond) -> (Result<u64, SaturnError>, SaturnBond) {
    if bond.is_finished {
        (Err(SaturnError::BondAlreadyRedeemed), bond)
    } else {
        (Ok(bond.num_token_to_redeem), SaturnBond { is_finished: true, ..bond })
    }
}

/// Redeems a bond. On `Ok(amount)` the caller mints `amount` STF to the
/// bond's creator.
pub fn handle(bond: &mut SaturnBond) -> (result: Result<u64, SaturnError>)
    ensures
        (result, *final(bond)) == redeem_bond_effect(*old(bond)),
{
    if bond.is_finished {
        return Err(SaturnError::BondAlreadyRedeemed);
    }
    bond.is_finished = true;
    Ok(bond.num_token_to_redeem)
}

} // verus!
