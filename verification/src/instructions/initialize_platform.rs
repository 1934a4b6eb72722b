use vstd::prelude::*;

use crate::errors::SolFightError;
use crate::state::{Platform, Pubkey};

verus! {

/// The largest fee the platform may be configured with: 2500 basis
/// points, one quarter of the pot.
pub const MAX_FEE_BPS: u16 = 2500;

/// One-time platform bootstrap: records the operating authority, the fee
/// configuration, and the treasury, with both running totals at zero.
///
/// Succeeds exactly when the fee is within bounds.  That the registry is
/// created only once is the storage layer's charge: it must refuse to
/// store a second instance.
pub fn handler(authority: Pubkey, treasury: Pubkey, fee_bps: u16) -> (r: Result<
    Platform,
    SolFightError,
>)
    ensures
        r is Ok <==> fee_bps <= MAX_FEE_BPS,
        r matches Ok(p) ==> p == (Platform {
            authority,
            fee_bps,
            treasury,
            total_games: 0,
            total_volume: 0,
        }),
        r matches Ok(p) ==> p.wf(),
        r matches Err(e) ==> e == SolFightError::InvalidFeeBps,
{
    if fee_bps > MAX_FEE_BPS {
        return Err(SolFightError::InvalidFeeBps);
    }
    Ok(Platform { authority, fee_bps, treasury, total_games: 0, total_volume: 0 })
}

} // verus!
