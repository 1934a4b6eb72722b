use vstd::prelude::*;

use crate::errors::SolFightError;
use crate::events::{GameStarted, PlayerDeposited};
use crate::state::{Game, GameStatus, Pubkey, TokenAccount};

verus! {

/// Whether this deposit is the second of the two, so the match becomes
/// Active the moment it lands.
pub open spec fn spec_deposit_activates(game: Game, player: Pubkey) -> bool {
    if player == game.player_one {
        game.player_two_deposited
    } else {
        game.player_one_deposited
    }
}

/// Why a deposit is refused, or nothing when it may proceed.
pub open spec fn spec_deposit_err(
    game: Game,
    player_token_account: TokenAccount,
    escrow_token_account: TokenAccount,
    player: Pubkey,
    now: i64,
) -> Option<SolFightError> {
    if !(game.status is Pending) {
        Some(SolFightError::GameNotPending)
    } else if !game.is_participant(player) {
        Some(SolFightError::NotAPlayer)
    } else if game.has_deposited(player) {
        Some(SolFightError::AlreadyDeposited)
    } else if player_token_account.owner != player {
        Some(SolFightError::TransferFailed)
    } else if escrow_token_account.address != game.escrow_token_account {
        Some(SolFightError::TransferFailed)
    } else if player_token_account.balance < game.bet_amount {
        Some(SolFightError::TransferFailed)
    } else if escrow_token_account.balance + game.bet_amount > u64::MAX {
        Some(SolFightError::TransferFailed)
    } else if spec_deposit_activates(game, player) && now + game.timeframe_seconds > i64::MAX {
        Some(SolFightError::MathOverflow)
    } else {
        None
    }
}

/// The match record after a successful deposit: the depositor's flag
/// set, and — when this was the second stake — status Active with the
/// active phase stamped to run from `now` for exactly the match's
/// timeframe.
pub open spec fn spec_deposited_game(game: Game, player: Pubkey, now: i64) -> Game {
    let flagged = if player == game.player_one {
        Game { player_one_deposited: true, ..game }
    } else {
        Game { player_two_deposited: true, ..game }
    };
    if flagged.player_one_deposited && flagged.player_two_deposited {
        Game {
            status: GameStatus::Active,
            start_time: now,
            end_time: (now + game.timeframe_seconds) as i64,
            ..flagged
        }
    } else {
        flagged
    }
}

/// A participant stakes their bet: `bet_amount` moves from the player's
/// account into the match escrow and the player's deposit flag is set,
/// exactly once per player.  The second stake activates the match, with
/// `end_time - start_time == timeframe_seconds` exactly.
///
/// On any error — wrong status, stranger, wrong accounts, repeated
/// deposit, or a transfer the ledger cannot carry — no record changes.
pub fn handler(
    game: &mut Game,
    player_token_account: &mut TokenAccount,
    escrow_token_account: &mut TokenAccount,
    player: Pubkey,
    now: i64,
) -> (r: Result<(PlayerDeposited, Option<GameStarted>), SolFightError>)
    ensures
        r is Ok <==> spec_deposit_err(
            *old(game),
            *old(player_token_account),
            *old(escrow_token_account),
            player,
            now,
        ) is None,
        r matches Err(e) ==> {
            &&& Some(e) == spec_deposit_err(
                *old(game),
                *old(player_token_account),
                *old(escrow_token_account),
                player,
                now,
            )
            &&& *final(game) == *old(game)
            &&& *final(player_token_account) == *old(player_token_account)
            &&& *final(escrow_token_account) == *old(escrow_token_account)
        },
        r matches Ok((deposited, started)) ==> {
            &&& *final(game) == spec_deposited_game(*old(game), player, now)
            &&& *final(player_token_account) == (TokenAccount {
                balance: (old(player_token_account).balance - old(game).bet_amount) as u64,
                ..*old(player_token_account)
            })
            &&& *final(escrow_token_account) == (TokenAccount {
                balance: (old(escrow_token_account).balance + old(game).bet_amount) as u64,
                ..*old(escrow_token_account)
            })
            &&& deposited == (PlayerDeposited {
                game_id: old(game).game_id,
                player,
                amount: old(game).bet_amount,
            })
            &&& final(game).status is Active <==> spec_deposit_activates(*old(game), player)
            &&& started matches Some(ev) ==> ev == (GameStarted {
                game_id: old(game).game_id,
                start_time: now,
                end_time: (now + old(game).timeframe_seconds) as i64,
            })
            &&& (started is Some <==> spec_deposit_activates(*old(game), player))
        },
        final(player_token_account).balance + final(escrow_token_account).balance
            == old(player_token_account).balance + old(escrow_token_account).balance,
        old(game).wf() ==> final(game).wf(),
{
    if !matches!(game.status, GameStatus::Pending) {
        return Err(SolFightError::GameNotPending);
    }
    let is_player_one: bool = player == game.player_one;
    if !is_player_one && player != game.player_two {
        return Err(SolFightError::NotAPlayer);
    }
    if is_player_one {
        if game.player_one_deposited {
            return Err(SolFightError::AlreadyDeposited);
        }
    } else {
        if game.player_two_deposited {
            return Err(SolFightError::AlreadyDeposited);
        }
    }
    if player_token_account.owner != player {
        return Err(SolFightError::TransferFailed);
    }
    if escrow_token_account.address != game.escrow_token_account {
        return Err(SolFightError::TransferFailed);
    }
    if player_token_account.balance < game.bet_amount {
        return Err(SolFightError::TransferFailed);
    }
    let escrow_after: u64 = match escrow_token_account.balance.checked_add(game.bet_amount) {
        Some(b) => b,
        None => {
            return Err(SolFightError::TransferFailed);
        },
    };
    let activates: bool = if is_player_one {
        game.player_two_deposited
    } else {
        game.player_one_deposited
    };
    let mut started: Option<GameStarted> = None;
    let mut end_time: i64 = 0;
    if activates {
        end_time = match now.checked_add(game.timeframe_seconds as i64) {
            Some(t) => t,
            None => {
                return Err(SolFightError::MathOverflow);
            },
        };
    }
    player_token_account.balance = player_token_account.balance - game.bet_amount;
    escrow_token_account.balance = escrow_after;
    if is_player_one {
        game.player_one_deposited = true;
    } else {
        game.player_two_deposited = true;
    }
    let deposited = PlayerDeposited { game_id: game.game_id, player, amount: game.bet_amount };
    if activates {
        game.status = GameStatus::Active;
        game.start_time = now;
        game.end_time = end_time;
        started = Some(GameStarted { game_id: game.game_id, start_time: now, end_time });
    }
    Ok((deposited, started))
}

} // verus!
