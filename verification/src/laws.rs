use vstd::prelude::*;

use crate::errors::SolFightError;
use crate::instructions::cancel_pending_game::spec_cancel_err;
use crate::instructions::claim_winnings::spec_claim_err;
use crate::instructions::close_game::spec_close_err;
use crate::instructions::deposit_to_escrow::{
    spec_deposit_activates, spec_deposit_err, spec_deposited_game,
};
use crate::instructions::end_game::spec_end_err;
use crate::instructions::refund_escrow::spec_refund_err;
use crate::rating::{
    spec_k_factor, spec_new_loser_rating, spec_new_winner_rating, RATING_FLOOR,
};
use crate::state::{Game, Platform, PlayerProfile, Pubkey, TokenAccount};

verus! {

/// A second deposit by the same player is always rejected.  Once a
/// deposit by `player` has gone through, every further deposit attempt
/// by `player` on the resulting match fails — whatever accounts it
/// brings and whenever it comes — and while the match is still waiting
/// for the other stake the error is precisely `AlreadyDeposited`.  The
/// deposit contract adds that a rejected deposit changes no record.
pub proof fn lemma_deposit_idempotent_rejecting(
    game: Game,
    player_token_account: TokenAccount,
    escrow_token_account: TokenAccount,
    player: Pubkey,
    now: i64,
    later_player_token_account: TokenAccount,
    later_escrow_token_account: TokenAccount,
    later: i64,
)
    requires
        spec_deposit_err(game, player_token_account, escrow_token_account, player, now) is None,
    ensures
        spec_deposit_err(
            spec_deposited_game(game, player, now),
            later_player_token_account,
            later_escrow_token_account,
            player,
            later,
        ) is Some,
        spec_deposited_game(game, player, now).status is Pending ==> spec_deposit_err(
            spec_deposited_game(game, player, now),
            later_player_token_account,
            later_escrow_token_account,
            player,
            later,
        ) == Some(SolFightError::AlreadyDeposited),
{
}

/// Activation occurs exactly when the second stake lands: after a
/// successful deposit the match is Active if and only if both deposit
/// flags are set, and an activated match has its active phase stamped to
/// exactly the configured timeframe: `end_time - start_time ==
/// timeframe_seconds`.
pub proof fn lemma_activation_exact(
    game: Game,
    player_token_account: TokenAccount,
    escrow_token_account: TokenAccount,
    player: Pubkey,
    now: i64,
)
    requires
        spec_deposit_err(game, player_token_account, escrow_token_account, player, now) is None,
    ensures
        ({
            let after = spec_deposited_game(game, player, now);
            &&& (after.status is Active <==> after.player_one_deposited
                && after.player_two_deposited)
            &&& (after.status is Active <==> spec_deposit_activates(game, player))
            &&& (after.status is Active ==> after.end_time - after.start_time
                == game.timeframe_seconds)
        }),
{
}

/// Settlement is only reachable from Active: whatever else the request
/// carries, `end_game` refuses a match in any other state.  Its contract
/// adds that a refused settlement changes no record.
pub proof fn lemma_settle_only_from_active(
    platform: Platform,
    game: Game,
    player_one_profile: PlayerProfile,
    player_two_profile: PlayerProfile,
    caller: Pubkey,
    winner: Option<Pubkey>,
    player_one_pnl: i64,
    player_two_pnl: i64,
    is_forfeit: bool,
)
    requires
        !(game.status is Active),
    ensures
        spec_end_err(
            platform,
            game,
            player_one_profile,
            player_two_profile,
            caller,
            winner,
            player_one_pnl,
            player_two_pnl,
            is_forfeit,
        ) is Some,
{
}

/// A claim is only reachable from Settled or Forfeited; from any other
/// state `claim_winnings` refuses, moving nothing.
pub proof fn lemma_claim_only_from_claimable(
    platform: Platform,
    game: Game,
    escrow_token_account: TokenAccount,
    winner_token_account: TokenAccount,
    treasury_token_account: TokenAccount,
    caller: Pubkey,
)
    requires
        !(game.status is Settled || game.status is Forfeited),
    ensures
        spec_claim_err(
            platform,
            game,
            escrow_token_account,
            winner_token_account,
            treasury_token_account,
            caller,
        ) == Some(SolFightError::NotClaimable),
{
}

/// A refund is only reachable from Tied or Cancelled; from any other
/// state `refund_escrow` refuses, moving nothing.
pub proof fn lemma_refund_only_from_refundable(
    game: Game,
    escrow_token_account: TokenAccount,
    player_one_token_account: TokenAccount,
    player_two_token_account: TokenAccount,
)
    requires
        !(game.status is Tied || game.status is Cancelled),
    ensures
        spec_refund_err(
            game,
            escrow_token_account,
            player_one_token_account,
            player_two_token_account,
        ) == Some(SolFightError::NotRefundable),
{
}

/// A match can only be cancelled while Pending; from any other state
/// `cancel_pending_game` refuses, changing nothing.
pub proof fn lemma_cancel_only_from_pending(platform: Platform, game: Game, caller: Pubkey)
    requires
        !(game.status is Pending),
    ensures
        spec_cancel_err(platform, game, caller) is Some,
{
}

/// Closure requires a drained escrow and a resolved match: while the
/// match's own holding account still carries a balance, or the match is
/// not yet resolved, `close_game` refuses.
pub proof fn lemma_close_only_when_drained(
    platform: Platform,
    game: Game,
    escrow_token_account: TokenAccount,
    caller: Pubkey,
)
    requires
        escrow_token_account.address == game.escrow_token_account,
        escrow_token_account.balance != 0 || !game.status.is_resolved(),
    ensures
        spec_close_err(platform, game, escrow_token_account, caller) is Some,
{
}

/// For equal ratings and equal standing the adjustment is exactly half
/// the K-factor each way: the winner gains `k / 2` and the loser drops
/// `k / 2`, to the rating floor at most.  (`k * 0.5` is a whole number
/// for both K-factors, so the rounding in the rating engine vanishes.)
pub proof fn lemma_equal_rating_symmetry(elo: u32, games: u32)
    requires
        elo + spec_k_factor(games) / 2 <= u32::MAX,
    ensures
        spec_new_winner_rating(elo, elo, games) == elo + spec_k_factor(games) / 2,
        spec_new_loser_rating(elo, elo, games) == if elo - spec_k_factor(games) / 2
            > RATING_FLOOR {
            elo - spec_k_factor(games) / 2
        } else {
            RATING_FLOOR as int
        },
{
    crate::rating::lemma_expected_fp_bounds(elo, elo);
}

/// Ratings never run away downward: whatever the inputs, the loser's new
/// rating stays at or above the floor, and the winner never loses
/// points.
pub proof fn lemma_rating_floor(winner_elo: u32, loser_elo: u32, winner_games: u32, loser_games: u32)
    ensures
        spec_new_loser_rating(winner_elo, loser_elo, loser_games) >= RATING_FLOOR,
        spec_new_winner_rating(winner_elo, loser_elo, winner_games) >= winner_elo,
{
    crate::rating::lemma_expected_fp_bounds(winner_elo, loser_elo);
    crate::rating::lemma_rating_delta_bounds(
        spec_k_factor(winner_games),
        crate::rating::FP_ONE - crate::rating::spec_expected_fp(winner_elo, loser_elo),
    );
    crate::rating::lemma_rating_delta_bounds(
        spec_k_factor(loser_games),
        crate::rating::FP_ONE - crate::rating::spec_expected_fp(winner_elo, loser_elo),
    );
}

/// The cumulative volume after `n` match creations of stake `stake`
/// each, starting from a fresh registry: `start_game` adds exactly
/// `2 * stake` per creation, so the running total compounds one stake
/// pair at a time.
pub open spec fn spec_volume_after(n: nat, stake: u64) -> int
    decreases n,
{
    if n == 0 {
        0
    } else {
        spec_volume_after((n - 1) as nat, stake) + 2 * stake
    }
}

/// Total volume accounting: after `n` matches of stake `stake` each the
/// registry's cumulative volume is exactly `n * 2 * stake`.
pub proof fn lemma_total_volume(n: nat, stake: u64)
    ensures
        spec_volume_after(n, stake) == n * (2 * stake),
    decreases n,
{
    if n > 0 {
        lemma_total_volume((n - 1) as nat, stake);
        assert((n - 1) * (2 * stake) + (2 * stake) == n * (2 * stake)) by {
            vstd::arithmetic::mul::lemma_mul_is_distributive_add_other_way(
                2 * stake,
                n - 1,
                1,
            );
        }
    } else {
        assert(0int * (2 * stake) == 0) by {
            vstd::arithmetic::mul::lemma_mul_by_zero_is_zero(2 * stake);
        }
    }
}

} // verus!
