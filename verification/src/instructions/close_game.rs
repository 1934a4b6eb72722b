use vstd::prelude::*;

use crate::errors::SolFightError;
use crate::state::{Game, Platform, Pubkey, TokenAccount};

verus! {

/// Why a closure is refused, or nothing when the record may be removed.
pub open spec fn spec_close_err(
    platform: Platform,
    game: Game,
    escrow_token_account: TokenAccount,
    caller: Pubkey,
) -> Option<SolFightError> {
    if caller != platform.authority {
        Some(SolFightError::Unauthorized)
    } else if escrow_token_account.address != game.escrow_token_account {
        Some(SolFightError::TransferFailed)
    } else if escrow_token_account.balance != 0 {
        Some(SolFightError::EscrowNotEmpty)
    } else if !game.status.is_resolved() {
        Some(SolFightError::GameNotSettled)
    } else {
        None
    }
}

/// Clears a fully resolved match for removal: the caller must be the
/// platform authority, the escrow must be this match's own holding
/// account, drained to exactly zero, and the status must be one of the
/// four resolved states.  On `Ok` the storage layer may reclaim both the
/// match record and its escrow account.
pub fn handler(
    platform: &Platform,
    game: &Game,
    escrow_token_account: &TokenAccount,
    caller: Pubkey,
) -> (r: Result<(), SolFightError>)
    ensures
        r is Ok <==> spec_close_err(*platform, *game, *escrow_token_account, caller) is None,
        r matches Err(e) ==> Some(e) == spec_close_err(
            *platform,
            *game,
            *escrow_token_account,
            caller,
        ),
{
    if caller != platform.authority {
        return Err(SolFightError::Unauthorized);
    }
    if escrow_token_account.address != game.escrow_token_account {
        return Err(SolFightError::TransferFailed);
    }
    if escrow_token_account.balance != 0 {
        return Err(SolFightError::EscrowNotEmpty);
    }
    let resolved: bool = match game.status {
        crate::state::GameStatus::Settled => true,
        crate::state::GameStatus::Tied => true,
        crate::state::GameStatus::Forfeited => true,
        crate::state::GameStatus::Cancelled => true,
        _ => false,
    };
    if !resolved {
        return Err(SolFightError::GameNotSettled);
    }
    Ok(())
}

} // verus!
