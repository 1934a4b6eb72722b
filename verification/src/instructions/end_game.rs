use vstd::prelude::*;

use crate::errors::SolFightError;
use crate::events::GameSettled;
use crate::rating::{calculate_elo, spec_new_loser_rating, spec_new_winner_rating};
use crate::state::{Game, GameStatus, Platform, PlayerProfile, Pubkey};

verus! {

/// The resolved status a settlement produces: Tied when no winner was
/// reported, Forfeited when the winner stands by forfeit, Settled when
/// the winner was determined in play.
pub open spec fn spec_settled_status(winner: Option<Pubkey>, is_forfeit: bool) -> GameStatus {
    if winner is None {
        GameStatus::Tied
    } else if is_forfeit {
        GameStatus::Forfeited
    } else {
        GameStatus::Settled
    }
}

/// One profile's statistics after a settlement it took part in:
/// `games_played` and the cumulative PnL always advance; a win adds a
/// win and extends the streak, a loss adds a loss and breaks the streak,
/// a tie (`won` is `None`) only breaks the streak.  `rating_after` is
/// the rating the settlement assigns; for an unrated outcome the caller
/// passes the rating unchanged.
pub open spec fn spec_profile_after(
    profile: PlayerProfile,
    pnl: i64,
    won: Option<bool>,
    rating_after: u32,
) -> PlayerProfile {
    let base = PlayerProfile {
        games_played: (profile.games_played + 1) as u32,
        total_pnl: (profile.total_pnl + pnl) as i64,
        ..profile
    };
    match won {
        None => PlayerProfile { current_streak: 0, ..base },
        Some(true) => PlayerProfile {
            wins: (base.wins + 1) as u32,
            current_streak: (base.current_streak + 1) as u32,
            elo_rating: rating_after,
            ..base
        },
        Some(false) => PlayerProfile {
            losses: (base.losses + 1) as u32,
            current_streak: 0,
            elo_rating: rating_after,
            ..base
        },
    }
}

/// Whether any counter or PnL update of this settlement would leave its
/// machine type.  Every such overflow aborts the settlement whole.
pub open spec fn spec_end_overflows(
    game: Game,
    player_one_profile: PlayerProfile,
    player_two_profile: PlayerProfile,
    winner: Option<Pubkey>,
    player_one_pnl: i64,
    player_two_pnl: i64,
) -> bool {
    let pnl_one = player_one_profile.total_pnl + player_one_pnl;
    let pnl_two = player_two_profile.total_pnl + player_two_pnl;
    ||| pnl_one > i64::MAX
    ||| pnl_one < i64::MIN
    ||| pnl_two > i64::MAX
    ||| pnl_two < i64::MIN
    ||| player_one_profile.games_played + 1 > u32::MAX
    ||| player_two_profile.games_played + 1 > u32::MAX
    ||| (winner is Some && (if winner == Some(game.player_one) {
        player_one_profile.wins + 1 > u32::MAX || player_one_profile.current_streak + 1
            > u32::MAX || player_two_profile.losses + 1 > u32::MAX
    } else {
        player_two_profile.wins + 1 > u32::MAX || player_two_profile.current_streak + 1
            > u32::MAX || player_one_profile.losses + 1 > u32::MAX
    }))
}

/// Why a settlement is refused, or nothing when it may proceed.  A
/// forfeit must name its winner: a forfeit with no winner reported is
/// rejected as naming no player.
pub open spec fn spec_end_err(
    platform: Platform,
    game: Game,
    player_one_profile: PlayerProfile,
    player_two_profile: PlayerProfile,
    caller: Pubkey,
    winner: Option<Pubkey>,
    player_one_pnl: i64,
    player_two_pnl: i64,
    is_forfeit: bool,
) -> Option<SolFightError> {
    if caller != platform.authority {
        Some(SolFightError::Unauthorized)
    } else if !(game.status is Active) {
        Some(SolFightError::GameNotActive)
    } else if winner matches Some(w) && !game.is_participant(w) {
        Some(SolFightError::NotAPlayer)
    } else if winner is None && is_forfeit {
        Some(SolFightError::NotAPlayer)
    } else if player_one_profile.authority != game.player_one || player_two_profile.authority
        != game.player_two {
        Some(SolFightError::NotAPlayer)
    } else if spec_end_overflows(
        game,
        player_one_profile,
        player_two_profile,
        winner,
        player_one_pnl,
        player_two_pnl,
    ) {
        Some(SolFightError::MathOverflow)
    } else {
        None
    }
}

/// The records a successful settlement leaves behind: the resolved match
/// and the two updated profiles, in that order.  Ratings move only on a
/// rated outcome — a winner determined in play; ties and forfeits leave
/// both ratings untouched.
pub open spec fn spec_end_next(
    game: Game,
    player_one_profile: PlayerProfile,
    player_two_profile: PlayerProfile,
    winner: Option<Pubkey>,
    player_one_pnl: i64,
    player_two_pnl: i64,
    is_forfeit: bool,
    now: i64,
) -> (Game, PlayerProfile, PlayerProfile) {
    let game_after = Game {
        status: spec_settled_status(winner, is_forfeit),
        winner,
        player_one_pnl,
        player_two_pnl,
        settled_at: now,
        ..game
    };
    if winner is None {
        (
            game_after,
            spec_profile_after(
                player_one_profile,
                player_one_pnl,
                None,
                player_one_profile.elo_rating,
            ),
            spec_profile_after(
                player_two_profile,
                player_two_pnl,
                None,
                player_two_profile.elo_rating,
            ),
        )
    } else {
        let one_won = winner == Some(game.player_one);
        let winner_profile = if one_won {
            player_one_profile
        } else {
            player_two_profile
        };
        let loser_profile = if one_won {
            player_two_profile
        } else {
            player_one_profile
        };
        let winner_rating = if is_forfeit {
            winner_profile.elo_rating
        } else {
            spec_new_winner_rating(
                winner_profile.elo_rating,
                loser_profile.elo_rating,
                winner_profile.games_played,
            ) as u32
        };
        let loser_rating = if is_forfeit {
            loser_profile.elo_rating
        } else {
            spec_new_loser_rating(
                winner_profile.elo_rating,
                loser_profile.elo_rating,
                loser_profile.games_played,
            ) as u32
        };
        if one_won {
            (
                game_after,
                spec_profile_after(player_one_profile, player_one_pnl, Some(true), winner_rating),
                spec_profile_after(player_two_profile, player_two_pnl, Some(false), loser_rating),
            )
        } else {
            (
                game_after,
                spec_profile_after(player_one_profile, player_one_pnl, Some(false), loser_rating),
                spec_profile_after(player_two_profile, player_two_pnl, Some(true), winner_rating),
            )
        }
    }
}

/// The trusted scorer resolves an Active match.
///
/// A reported winner must be one of the two participants; no winner
/// means a tie, and the forfeit flag marks a winner who stands without a
/// live contest.  Both profiles advance their games-played counts and
/// cumulative PnL; the winner's and loser's win, loss, and streak
/// counters move with the outcome; ratings are recomputed only for a
/// winner determined in play.  The escrow is untouched here — the pot
/// waits for `claim_winnings` or `refund_escrow`.
///
/// On any error — wrong caller, wrong status, a stranger as winner, a
/// forfeit without a winner, profiles that do not belong to the players,
/// or counter overflow — no record changes.
pub fn handler(
    platform: &Platform,
    game: &mut Game,
    player_one_profile: &mut PlayerProfile,
    player_two_profile: &mut PlayerProfile,
    caller: Pubkey,
    winner: Option<Pubkey>,
    player_one_pnl: i64,
    player_two_pnl: i64,
    is_forfeit: bool,
    now: i64,
) -> (r: Result<GameSettled, SolFightError>)
    ensures
        r is Ok <==> spec_end_err(
            *platform,
            *old(game),
            *old(player_one_profile),
            *old(player_two_profile),
            caller,
            winner,
            player_one_pnl,
            player_two_pnl,
            is_forfeit,
        ) is None,
        r matches Err(e) ==> {
            &&& Some(e) == spec_end_err(
                *platform,
                *old(game),
                *old(player_one_profile),
                *old(player_two_profile),
                caller,
                winner,
                player_one_pnl,
                player_two_pnl,
                is_forfeit,
            )
            &&& *final(game) == *old(game)
            &&& *final(player_one_profile) == *old(player_one_profile)
            &&& *final(player_two_profile) == *old(player_two_profile)
        },
        r matches Ok(ev) ==> {
            &&& (*final(game), *final(player_one_profile), *final(player_two_profile))
                == spec_end_next(
                *old(game),
                *old(player_one_profile),
                *old(player_two_profile),
                winner,
                player_one_pnl,
                player_two_pnl,
                is_forfeit,
                now,
            )
            &&& ev == (GameSettled {
                game_id: old(game).game_id,
                winner,
                player_one_pnl,
                player_two_pnl,
                is_tie: winner is None,
                is_forfeit,
            })
        },
        r is Ok && old(game).wf() && old(player_one_profile).wf()
            && old(player_two_profile).wf() ==> final(game).wf()
            && final(player_one_profile).wf() && final(player_two_profile).wf(),
{
    if caller != platform.authority {
        return Err(SolFightError::Unauthorized);
    }
    if !matches!(game.status, GameStatus::Active) {
        return Err(SolFightError::GameNotActive);
    }
    let one_won: bool;
    match winner {
        Some(w) => {
            if w != game.player_one && w != game.player_two {
                return Err(SolFightError::NotAPlayer);
            }
            one_won = w == game.player_one;
        },
        None => {
            if is_forfeit {
                return Err(SolFightError::NotAPlayer);
            }
            one_won = false;
        },
    }
    if player_one_profile.authority != game.player_one {
        return Err(SolFightError::NotAPlayer);
    }
    if player_two_profile.authority != game.player_two {
        return Err(SolFightError::NotAPlayer);
    }
    let pnl_one: i64 = match player_one_profile.total_pnl.checked_add(player_one_pnl) {
        Some(v) => v,
        None => {
            return Err(SolFightError::MathOverflow);
        },
    };
    let pnl_two: i64 = match player_two_profile.total_pnl.checked_add(player_two_pnl) {
        Some(v) => v,
        None => {
            return Err(SolFightError::MathOverflow);
        },
    };
    let games_one: u32 = match player_one_profile.games_played.checked_add(1) {
        Some(v) => v,
        None => {
            return Err(SolFightError::MathOverflow);
        },
    };
    let games_two: u32 = match player_two_profile.games_played.checked_add(1) {
        Some(v) => v,
        None => {
            return Err(SolFightError::MathOverflow);
        },
    };
    match winner {
        None => {
            // Tie: both streaks break; wins, losses, and ratings stand.
            game.status = GameStatus::Tied;
            game.winner = None;
            game.player_one_pnl = player_one_pnl;
            game.player_two_pnl = player_two_pnl;
            game.settled_at = now;
            player_one_profile.games_played = games_one;
            player_one_profile.total_pnl = pnl_one;
            player_one_profile.current_streak = 0;
            player_two_profile.games_played = games_two;
            player_two_profile.total_pnl = pnl_two;
            player_two_profile.current_streak = 0;
            Ok(
                GameSettled {
                    game_id: game.game_id,
                    winner: None,
                    player_one_pnl,
                    player_two_pnl,
                    is_tie: true,
                    is_forfeit,
                },
            )
        },
        Some(w) => {
            let wins_before: u32 = if one_won {
                player_one_profile.wins
            } else {
                player_two_profile.wins
            };
            let streak_before: u32 = if one_won {
                player_one_profile.current_streak
            } else {
                player_two_profile.current_streak
            };
            let losses_before: u32 = if one_won {
                player_two_profile.losses
            } else {
                player_one_profile.losses
            };
            let wins_after: u32 = match wins_before.checked_add(1) {
                Some(v) => v,
                None => {
                    return Err(SolFightError::MathOverflow);
                },
            };
            let streak_after: u32 = match streak_before.checked_add(1) {
                Some(v) => v,
                None => {
                    return Err(SolFightError::MathOverflow);
                },
            };
            let losses_after: u32 = match losses_before.checked_add(1) {
                Some(v) => v,
                None => {
                    return Err(SolFightError::MathOverflow);
                },
            };
            let winner_elo_before: u32 = if one_won {
                player_one_profile.elo_rating
            } else {
                player_two_profile.elo_rating
            };
            let loser_elo_before: u32 = if one_won {
                player_two_profile.elo_rating
            } else {
                player_one_profile.elo_rating
            };
            let winner_games_before: u32 = if one_won {
                player_one_profile.games_played
            } else {
                player_two_profile.games_played
            };
            let loser_games_before: u32 = if one_won {
                player_two_profile.games_played
            } else {
                player_one_profile.games_played
            };
            let winner_rating: u32;
            let loser_rating: u32;
            if is_forfeit {
                winner_rating = winner_elo_before;
                loser_rating = loser_elo_before;
            } else {
                let updated = calculate_elo(
                    winner_elo_before,
                    loser_elo_before,
                    winner_games_before,
                    loser_games_before,
                );
                winner_rating = updated.0;
                loser_rating = updated.1;
            }
            game.status = if is_forfeit {
                GameStatus::Forfeited
            } else {
                GameStatus::Settled
            };
            game.winner = Some(w);
            game.player_one_pnl = player_one_pnl;
            game.player_two_pnl = player_two_pnl;
            game.settled_at = now;
            player_one_profile.games_played = games_one;
            player_one_profile.total_pnl = pnl_one;
            player_two_profile.games_played = games_two;
            player_two_profile.total_pnl = pnl_two;
            if one_won {
                player_one_profile.wins = wins_after;
                player_one_profile.current_streak = streak_after;
                player_one_profile.elo_rating = winner_rating;
                player_two_profile.losses = losses_after;
                player_two_profile.current_streak = 0;
                player_two_profile.elo_rating = loser_rating;
            } else {
                player_two_profile.wins = wins_after;
                player_two_profile.current_streak = streak_after;
                player_two_profile.elo_rating = winner_rating;
                player_one_profile.losses = losses_after;
                player_one_profile.current_streak = 0;
                player_one_profile.elo_rating = loser_rating;
            }
            Ok(
                GameSettled {
                    game_id: game.game_id,
                    winner: Some(w),
                    player_one_pnl,
                    player_two_pnl,
                    is_tie: false,
                    is_forfeit,
                },
            )
        },
    }
}

} // verus!
