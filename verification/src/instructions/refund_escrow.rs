use vstd::prelude::*;

use crate::errors::SolFightError;
use crate::events::EscrowRefunded;
use crate::state::{Game, Pubkey, TokenAccount};

verus! {

/// What the escrow still owes its depositors: one stake per deposit
/// flag that is set.
pub open spec fn spec_refund_total(game: Game) -> int {
    let one: int = if game.player_one_deposited {
        game.bet_amount as int
    } else {
        0
    };
    let two: int = if game.player_two_deposited {
        game.bet_amount as int
    } else {
        0
    };
    one + two
}

/// Why a refund is refused, or nothing when it may proceed.
pub open spec fn spec_refund_err(
    game: Game,
    escrow_token_account: TokenAccount,
    player_one_token_account: TokenAccount,
    player_two_token_account: TokenAccount,
) -> Option<SolFightError> {
    if !(game.status is Tied || game.status is Cancelled) {
        Some(SolFightError::NotRefundable)
    } else if escrow_token_account.address != game.escrow_token_account {
        Some(SolFightError::TransferFailed)
    } else if player_one_token_account.owner != game.player_one {
        Some(SolFightError::TransferFailed)
    } else if player_two_token_account.owner != game.player_two {
        Some(SolFightError::TransferFailed)
    } else if escrow_token_account.balance < spec_refund_total(game) {
        Some(SolFightError::TransferFailed)
    } else if game.player_one_deposited && player_one_token_account.balance + game.bet_amount
        > u64::MAX {
        Some(SolFightError::TransferFailed)
    } else if game.player_two_deposited && player_two_token_account.balance + game.bet_amount
        > u64::MAX {
        Some(SolFightError::TransferFailed)
    } else {
        None
    }
}

/// Returns every deposited stake: for each player whose deposit flag is
/// set, exactly `bet_amount` moves from the escrow back to that player's
/// account.  A player who never deposited receives nothing.  Anyone may
/// trigger a refund — it only ever moves funds to their pre-recorded
/// owners — but only for a Tied or Cancelled match.
///
/// On any error no balance changes.
pub fn handler(
    game: &Game,
    escrow_token_account: &mut TokenAccount,
    player_one_token_account: &mut TokenAccount,
    player_two_token_account: &mut TokenAccount,
) -> (r: Result<EscrowRefunded, SolFightError>)
    ensures
        r is Ok <==> spec_refund_err(
            *game,
            *old(escrow_token_account),
            *old(player_one_token_account),
            *old(player_two_token_account),
        ) is None,
        r matches Err(e) ==> {
            &&& Some(e) == spec_refund_err(
                *game,
                *old(escrow_token_account),
                *old(player_one_token_account),
                *old(player_two_token_account),
            )
            &&& *final(escrow_token_account) == *old(escrow_token_account)
            &&& *final(player_one_token_account) == *old(player_one_token_account)
            &&& *final(player_two_token_account) == *old(player_two_token_account)
        },
        r matches Ok(ev) ==> {
            &&& *final(escrow_token_account) == (TokenAccount {
                balance: (old(escrow_token_account).balance - spec_refund_total(*game)) as u64,
                ..*old(escrow_token_account)
            })
            &&& *final(player_one_token_account) == (TokenAccount {
                balance: if game.player_one_deposited {
                    (old(player_one_token_account).balance + game.bet_amount) as u64
                } else {
                    old(player_one_token_account).balance
                },
                ..*old(player_one_token_account)
            })
            &&& *final(player_two_token_account) == (TokenAccount {
                balance: if game.player_two_deposited {
                    (old(player_two_token_account).balance + game.bet_amount) as u64
                } else {
                    old(player_two_token_account).balance
                },
                ..*old(player_two_token_account)
            })
            &&& ev == (EscrowRefunded {
                game_id: game.game_id,
                player_one: game.player_one,
                player_two: game.player_two,
                refund_amount: game.bet_amount,
            })
        },
        final(escrow_token_account).balance + final(player_one_token_account).balance
            + final(player_two_token_account).balance == old(escrow_token_account).balance
            + old(player_one_token_account).balance + old(player_two_token_account).balance,
{
    let refundable: bool = match game.status {
        crate::state::GameStatus::Tied => true,
        crate::state::GameStatus::Cancelled => true,
        _ => false,
    };
    if !refundable {
        return Err(SolFightError::NotRefundable);
    }
    if escrow_token_account.address != game.escrow_token_account {
        return Err(SolFightError::TransferFailed);
    }
    if player_one_token_account.owner != game.player_one {
        return Err(SolFightError::TransferFailed);
    }
    if player_two_token_account.owner != game.player_two {
        return Err(SolFightError::TransferFailed);
    }
    let mut owed: u64 = 0;
    if game.player_one_deposited {
        owed = match owed.checked_add(game.bet_amount) {
            Some(v) => v,
            None => {
                return Err(SolFightError::TransferFailed);
            },
        };
    }
    if game.player_two_deposited {
        owed = match owed.checked_add(game.bet_amount) {
            Some(v) => v,
            None => {
                return Err(SolFightError::TransferFailed);
            },
        };
    }
    if escrow_token_account.balance < owed {
        return Err(SolFightError::TransferFailed);
    }
    let player_one_after: u64 = if game.player_one_deposited {
        match player_one_token_account.balance.checked_add(game.bet_amount) {
            Some(v) => v,
            None => {
                return Err(SolFightError::TransferFailed);
            },
        }
    } else {
        player_one_token_account.balance
    };
    let player_two_after: u64 = if game.player_two_deposited {
        match player_two_token_account.balance.checked_add(game.bet_amount) {
            Some(v) => v,
            None => {
                return Err(SolFightError::TransferFailed);
            },
        }
    } else {
        player_two_token_account.balance
    };
    player_one_token_account.balance = player_one_after;
    player_two_token_account.balance = player_two_after;
    escrow_token_account.balance = escrow_token_account.balance - owed;
    Ok(
        EscrowRefunded {
            game_id: game.game_id,
            player_one: game.player_one,
            player_two: game.player_two,
            refund_amount: game.bet_amount,
        },
    )
}

} // verus!
