use vstd::prelude::*;

use crate::accounting::{payout_computable, spec_fee, spec_payout, spec_total_pot};
use crate::errors::SolFightError;
use crate::events::WinningsClaimed;
use crate::state::{Game, Platform, Pubkey, TokenAccount};

verus! {

/// Why a claim is refused, or nothing when it may proceed.
pub open spec fn spec_claim_err(
    platform: Platform,
    game: Game,
    escrow_token_account: TokenAccount,
    winner_token_account: TokenAccount,
    treasury_token_account: TokenAccount,
    caller: Pubkey,
) -> Option<SolFightError> {
    if !(game.status is Settled || game.status is Forfeited) {
        Some(SolFightError::NotClaimable)
    } else if game.winner != Some(caller) {
        Some(SolFightError::NotWinner)
    } else if escrow_token_account.address != game.escrow_token_account {
        Some(SolFightError::TransferFailed)
    } else if winner_token_account.owner != caller {
        Some(SolFightError::TransferFailed)
    } else if treasury_token_account.owner != platform.treasury {
        Some(SolFightError::TransferFailed)
    } else if !payout_computable(game.bet_amount, platform.fee_bps) {
        Some(SolFightError::MathOverflow)
    } else if escrow_token_account.balance < spec_total_pot(game.bet_amount) {
        Some(SolFightError::TransferFailed)
    } else if winner_token_account.balance + spec_payout(game.bet_amount, platform.fee_bps)
        > u64::MAX {
        Some(SolFightError::TransferFailed)
    } else if treasury_token_account.balance + spec_fee(game.bet_amount, platform.fee_bps)
        > u64::MAX {
        Some(SolFightError::TransferFailed)
    } else {
        None
    }
}

/// The recorded winner draws the pot of a Settled or Forfeited match:
/// the payout moves from the escrow to the winner's account and the fee
/// to the treasury, recombining to exactly `2 * bet_amount`.  A zero fee
/// moves nothing to the treasury.  The match record itself is unchanged;
/// once the escrow is empty the match can be closed.
///
/// On any error no balance changes.
pub fn handler(
    platform: &Platform,
    game: &Game,
    escrow_token_account: &mut TokenAccount,
    winner_token_account: &mut TokenAccount,
    treasury_token_account: &mut TokenAccount,
    caller: Pubkey,
) -> (r: Result<WinningsClaimed, SolFightError>)
    ensures
        r is Ok <==> spec_claim_err(
            *platform,
            *game,
            *old(escrow_token_account),
            *old(winner_token_account),
            *old(treasury_token_account),
            caller,
        ) is None,
        r matches Err(e) ==> {
            &&& Some(e) == spec_claim_err(
                *platform,
                *game,
                *old(escrow_token_account),
                *old(winner_token_account),
                *old(treasury_token_account),
                caller,
            )
            &&& *final(escrow_token_account) == *old(escrow_token_account)
            &&& *final(winner_token_account) == *old(winner_token_account)
            &&& *final(treasury_token_account) == *old(treasury_token_account)
        },
        r matches Ok(ev) ==> {
            &&& *final(escrow_token_account) == (TokenAccount {
                balance: (old(escrow_token_account).balance - spec_total_pot(game.bet_amount))
                    as u64,
                ..*old(escrow_token_account)
            })
            &&& *final(winner_token_account) == (TokenAccount {
                balance: (old(winner_token_account).balance + spec_payout(
                    game.bet_amount,
                    platform.fee_bps,
                )) as u64,
                ..*old(winner_token_account)
            })
            &&& *final(treasury_token_account) == (TokenAccount {
                balance: (old(treasury_token_account).balance + spec_fee(
                    game.bet_amount,
                    platform.fee_bps,
                )) as u64,
                ..*old(treasury_token_account)
            })
            &&& ev == (WinningsClaimed {
                game_id: game.game_id,
                winner: caller,
                payout: spec_payout(game.bet_amount, platform.fee_bps) as u64,
                fee: spec_fee(game.bet_amount, platform.fee_bps) as u64,
            })
        },
        final(escrow_token_account).balance + final(winner_token_account).balance
            + final(treasury_token_account).balance == old(escrow_token_account).balance
            + old(winner_token_account).balance + old(treasury_token_account).balance,
{
    let claimable: bool = match game.status {
        crate::state::GameStatus::Settled => true,
        crate::state::GameStatus::Forfeited => true,
        _ => false,
    };
    if !claimable {
        return Err(SolFightError::NotClaimable);
    }
    let is_winner: bool = match game.winner {
        Some(w) => w == caller,
        None => false,
    };
    if !is_winner {
        return Err(SolFightError::NotWinner);
    }
    if escrow_token_account.address != game.escrow_token_account {
        return Err(SolFightError::TransferFailed);
    }
    if winner_token_account.owner != caller {
        return Err(SolFightError::TransferFailed);
    }
    if treasury_token_account.owner != platform.treasury {
        return Err(SolFightError::TransferFailed);
    }
    let breakdown = match crate::accounting::compute_payout(game.bet_amount, platform.fee_bps) {
        Ok(b) => b,
        Err(e) => {
            return Err(e);
        },
    };
    if escrow_token_account.balance < breakdown.total_pot {
        return Err(SolFightError::TransferFailed);
    }
    let winner_after: u64 = match winner_token_account.balance.checked_add(breakdown.payout) {
        Some(v) => v,
        None => {
            return Err(SolFightError::TransferFailed);
        },
    };
    let treasury_after: u64 = match treasury_token_account.balance.checked_add(breakdown.fee) {
        Some(v) => v,
        None => {
            return Err(SolFightError::TransferFailed);
        },
    };
    escrow_token_account.balance = escrow_token_account.balance - breakdown.total_pot;
    winner_token_account.balance = winner_after;
    treasury_token_account.balance = treasury_after;
    Ok(
        WinningsClaimed {
            game_id: game.game_id,
            winner: caller,
            payout: breakdown.payout,
            fee: breakdown.fee,
        },
    )
}

} // verus!
