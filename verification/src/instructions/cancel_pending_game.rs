use vstd::prelude::*;

use crate::errors::SolFightError;
use crate::state::{Game, GameStatus, Platform, Pubkey};

verus! {

/// Why a cancellation is refused, or nothing when it may proceed.
pub open spec fn spec_cancel_err(platform: Platform, game: Game, caller: Pubkey) -> Option<
    SolFightError,
> {
    if caller != platform.authority {
        Some(SolFightError::Unauthorized)
    } else if !(game.status is Pending) {
        Some(SolFightError::GameNotPending)
    } else {
        None
    }
}

/// Calls a match off before it became Active.  Only the platform
/// authority may cancel, and only while the match is still Pending; any
/// stake already deposited stays in escrow for a later refund.
pub fn handler(platform: &Platform, game: &mut Game, caller: Pubkey) -> (r: Result<
    (),
    SolFightError,
>)
    ensures
        r is Ok <==> spec_cancel_err(*platform, *old(game), caller) is None,
        r matches Err(e) ==> Some(e) == spec_cancel_err(*platform, *old(game), caller)
            && *final(game) == *old(game),
        r is Ok ==> *final(game) == (Game { status: GameStatus::Cancelled, ..*old(game) }),
        old(game).wf() ==> final(game).wf(),
{
    if caller != platform.authority {
        return Err(SolFightError::Unauthorized);
    }
    if !matches!(game.status, GameStatus::Pending) {
        return Err(SolFightError::GameNotPending);
    }
    game.status = GameStatus::Cancelled;
    Ok(())
}

} // verus!
