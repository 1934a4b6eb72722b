use vstd::prelude::*;

use crate::errors::SolFightError;
use crate::events::GameCreated;
use crate::state::{Game, GameStatus, Platform, Pubkey, TokenAccount};

verus! {

/// Why a match creation is refused, or nothing when it may proceed.
pub open spec fn spec_start_err(
    platform: Platform,
    caller: Pubkey,
    player_one: Pubkey,
    player_two: Pubkey,
    bet_amount: u64,
    escrow_token_account: TokenAccount,
) -> Option<SolFightError> {
    if caller != platform.authority {
        Some(SolFightError::Unauthorized)
    } else if bet_amount == 0 {
        Some(SolFightError::InvalidBetAmount)
    } else if player_one == player_two {
        Some(SolFightError::DuplicatePlayers)
    } else if escrow_token_account.balance != 0 {
        Some(SolFightError::EscrowNotEmpty)
    } else if platform.total_games + 1 > u64::MAX {
        Some(SolFightError::MathOverflow)
    } else if 2 * bet_amount > u64::MAX {
        Some(SolFightError::MathOverflow)
    } else if platform.total_volume + 2 * bet_amount > u64::MAX {
        Some(SolFightError::MathOverflow)
    } else {
        None
    }
}

/// The match record a successful creation stores: Pending, nothing
/// deposited, no winner, all timestamps zero.
pub open spec fn spec_new_game(
    platform: Platform,
    player_one: Pubkey,
    player_two: Pubkey,
    bet_amount: u64,
    timeframe_seconds: u32,
    escrow_token_account: TokenAccount,
) -> Game {
    Game {
        game_id: (platform.total_games + 1) as u64,
        player_one,
        player_two,
        bet_amount,
        timeframe_seconds,
        escrow_token_account: escrow_token_account.address,
        status: GameStatus::Pending,
        winner: None,
        player_one_pnl: 0,
        player_two_pnl: 0,
        player_one_deposited: false,
        player_two_deposited: false,
        start_time: 0,
        end_time: 0,
        settled_at: 0,
    }
}

/// Creates a match between two distinct players, reserving the supplied
/// empty holding account as its escrow.
///
/// Only the platform authority creates matches, and only with a positive
/// stake.  On success the match identifier is the incremented match
/// counter — unique by construction — and the combined stake
/// `2 * bet_amount` is added to the platform's cumulative volume.  On any
/// error the platform registry is untouched.
pub fn handler(
    platform: &mut Platform,
    caller: Pubkey,
    player_one: Pubkey,
    player_two: Pubkey,
    bet_amount: u64,
    timeframe_seconds: u32,
    escrow_token_account: &TokenAccount,
) -> (r: Result<(Game, GameCreated), SolFightError>)
    ensures
        r is Ok <==> spec_start_err(
            *old(platform),
            caller,
            player_one,
            player_two,
            bet_amount,
            *escrow_token_account,
        ) is None,
        r matches Err(e) ==> Some(e) == spec_start_err(
            *old(platform),
            caller,
            player_one,
            player_two,
            bet_amount,
            *escrow_token_account,
        ) && *final(platform) == *old(platform),
        r matches Ok((g, ev)) ==> {
            &&& g == spec_new_game(
                *old(platform),
                player_one,
                player_two,
                bet_amount,
                timeframe_seconds,
                *escrow_token_account,
            )
            &&& g.wf()
            &&& *final(platform) == (Platform {
                total_games: g.game_id,
                total_volume: (old(platform).total_volume + 2 * bet_amount) as u64,
                ..*old(platform)
            })
            &&& ev == (GameCreated {
                game_id: g.game_id,
                player_one,
                player_two,
                bet_amount,
                timeframe_seconds,
            })
        },
        old(platform).wf() ==> final(platform).wf(),
{
    if caller != platform.authority {
        return Err(SolFightError::Unauthorized);
    }
    if bet_amount == 0 {
        return Err(SolFightError::InvalidBetAmount);
    }
    if player_one == player_two {
        return Err(SolFightError::DuplicatePlayers);
    }
    if escrow_token_account.balance != 0 {
        return Err(SolFightError::EscrowNotEmpty);
    }
    let game_id: u64 = match platform.total_games.checked_add(1) {
        Some(id) => id,
        None => {
            return Err(SolFightError::MathOverflow);
        },
    };
    let stake_volume: u64 = match bet_amount.checked_mul(2) {
        Some(v) => v,
        None => {
            return Err(SolFightError::MathOverflow);
        },
    };
    let new_volume: u64 = match platform.total_volume.checked_add(stake_volume) {
        Some(v) => v,
        None => {
            return Err(SolFightError::MathOverflow);
        },
    };
    platform.total_games = game_id;
    platform.total_volume = new_volume;
    let game = Game {
        game_id,
        player_one,
        player_two,
        bet_amount,
        timeframe_seconds,
        escrow_token_account: escrow_token_account.address,
        status: GameStatus::Pending,
        winner: None,
        player_one_pnl: 0,
        player_two_pnl: 0,
        player_one_deposited: false,
        player_two_deposited: false,
        start_time: 0,
        end_time: 0,
        settled_at: 0,
    };
    let event = GameCreated {
        game_id,
        player_one,
        player_two,
        bet_amount,
        timeframe_seconds,
    };
    Ok((game, event))
}

} // verus!
