pub mod bonds;
pub mod staking;
pub mod stf;
pub mod treasury;

use vstd::prelude::*;

use crate::errors::SaturnError;
use crate::saturnaccounts::Treasury;

verus! {

/// The program's time settings, in seconds.
#[derive(Clone, Copy, Debug)]
pub struct Timing {
    /// How long a bond quote stays valid after the quote update.
    pub quote_validity: i64,
    /// How long a bond runs.
    pub bond_duration: i64,
}

pub open spec fn fits_i64(x: int) -> bool {
    i64::MIN <= x <= i64::MAX
}

pub open spec fn fits_i128(x: int) -> bool {
    i128::MIN <= x <= i128::MAX
}

/// The refusal, if any, of the check that the treasury's bond quote is
/// still valid at `now`: valid while `now` lies before the update time plus
/// the validity window.
pub open spec fn quote_refusal(treasury: Treasury, timing: Timing, now: i64) -> Option<SaturnError> {
    let expiry = treasury.last_treasury_value_update + timing.quote_validity;
    if !fits_i64(expiry) {
        Some(SaturnError::ArithmeticOverflow)
    } else if expiry > now {
        None
    } else {
        Some(SaturnError::QuoteExpired)
    }
}

/// `Err` of the refusal, `Ok` where there is none.
pub open spec fn refusal_result(refusal: Option<SaturnError>) -> Result<(), SaturnError> {
    match refusal {
        Some(e) => Err(e),
        None => Ok(()),
    }
}

/// Checks that the treasury's bond quote is still valid at `now`.
pub fn check_quote(treasury: &Treasury, timing: &Timing, now: i64) -> (result: Result<(), SaturnError>)
    ensures
        result == refusal_result(quote_refusal(*treasury, *timing, now)),
{
    match treasury.last_treasury_value_update.checked_add(timing.quote_validity) {
        Some(expiry) => {
            if expiry > now {
                Ok(())
            } else {
                Err(SaturnError::QuoteExpired)
            }
        },
        None => Err(SaturnError::ArithmeticOverflow),
    }
}

} // verus!
