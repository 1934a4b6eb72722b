use vstd::prelude::*;

use vstd::arithmetic::div_mod::{
    lemma_div_by_multiple, lemma_div_is_ordered, lemma_multiply_divide_lt,
};
use vstd::arithmetic::mul::{lemma_mul_inequality, lemma_mul_upper_bound};

verus! {

/// One, in the 2^20 fixed-point scale all rating arithmetic uses.
pub const FP_ONE: u64 = 1048576;

/// One half in the fixed-point scale; added before a division to round to
/// the nearest whole rating point.
pub const FP_HALF: u64 = 524288;

/// `10^(1/400)` in the fixed-point scale: the factor by which the rating
/// odds grow per point of rating difference.
pub const FP_GROWTH: u64 = 1054629;

/// `10^6` in the fixed-point scale: the odds ratio at a rating difference
/// of 2400 points, where the odds curve is capped.  Beyond that distance
/// the expected score is indistinguishable from certainty at this scale.
pub const FP_POW_CAP: u64 = 1048576000000;

/// Rating differences are clamped to this magnitude before the odds are
/// computed; see `FP_POW_CAP`.
pub const DIFF_CAP: u32 = 2400;

/// No rating ever falls below this floor.
pub const RATING_FLOOR: u32 = 100;

/// Rating every new profile starts with.
pub const INITIAL_RATING: u32 = 1200;

/// K-factor while a player is still placing: fewer than
/// `PLACEMENT_GAMES` games played.
pub const K_PLACEMENT: u32 = 40;

/// K-factor of an established player.
pub const K_ESTABLISHED: u32 = 32;

/// Games played at which the K-factor drops from `K_PLACEMENT` to
/// `K_ESTABLISHED`.
pub const PLACEMENT_GAMES: u32 = 30;

/// The K-factor scaling a player's rating adjustment, chosen from that
/// player's own games-played count before the match.
pub open spec fn spec_k_factor(games_played: u32) -> int {
    if games_played < PLACEMENT_GAMES {
        K_PLACEMENT as int
    } else {
        K_ESTABLISHED as int
    }
}

/// `10^(d/400)` in fixed point, for a rating difference of `d` points:
/// the odds the higher-rated player is given.  Defined by compounding
/// `FP_GROWTH` once per point and capped at `FP_POW_CAP` (the true value
/// at the largest difference ever passed in, `DIFF_CAP`).
pub open spec fn spec_pow10_fp(d: nat) -> int
    decreases d,
{
    if d == 0 {
        FP_ONE as int
    } else {
        let grown = spec_pow10_fp((d - 1) as nat) * FP_GROWTH / FP_ONE as int;
        if grown > FP_POW_CAP {
            FP_POW_CAP as int
        } else {
            grown
        }
    }
}

/// The compounded odds stay between even (`FP_ONE`) and the cap.
pub proof fn lemma_pow10_fp_bounds(d: nat)
    ensures
        FP_ONE <= spec_pow10_fp(d) <= FP_POW_CAP,
    decreases d,
{
    if d > 0 {
        lemma_pow10_fp_bounds((d - 1) as nat);
        let prev = spec_pow10_fp((d - 1) as nat);
        assert(prev * FP_ONE <= prev * FP_GROWTH) by {
            lemma_mul_inequality(FP_ONE as int, FP_GROWTH as int, prev);
        }
        assert(prev * FP_ONE / FP_ONE as int == prev) by {
            lemma_div_by_multiple(prev, FP_ONE as int);
        }
        lemma_div_is_ordered(prev * FP_ONE, prev * FP_GROWTH, FP_ONE as int);
    }
}

/// The winner's expected score in fixed point: `1 / (1 + 10^(d/400))`
/// where `d` is the rating distance `loser_elo - winner_elo`, clamped to
/// `DIFF_CAP`.  A negative distance (the winner was favoured) uses the
/// exact mirror identity, so expected scores of the two players always
/// sum to exactly `FP_ONE`.
pub open spec fn spec_expected_fp(winner_elo: u32, loser_elo: u32) -> int {
    if loser_elo >= winner_elo {
        let d = if loser_elo - winner_elo > DIFF_CAP {
            DIFF_CAP as nat
        } else {
            (loser_elo - winner_elo) as nat
        };
        (FP_ONE * FP_ONE) as int / (FP_ONE + spec_pow10_fp(d))
    } else {
        let d = if winner_elo - loser_elo > DIFF_CAP {
            DIFF_CAP as nat
        } else {
            (winner_elo - loser_elo) as nat
        };
        FP_ONE - (FP_ONE * FP_ONE) as int / (FP_ONE + spec_pow10_fp(d))
    }
}

/// A rating adjustment: `k` times a fixed-point score, rounded to the
/// nearest whole point.
pub open spec fn spec_rating_delta(k: int, score_fp: int) -> int {
    (k * score_fp + FP_HALF) / FP_ONE as int
}

/// The winner's rating after the match: the old rating plus
/// `round(k * (1 - expected))`, saturating at the rating type's maximum.
pub open spec fn spec_new_winner_rating(winner_elo: u32, loser_elo: u32, winner_games: u32) -> int {
    let gain = spec_rating_delta(
        spec_k_factor(winner_games),
        FP_ONE - spec_expected_fp(winner_elo, loser_elo),
    );
    if winner_elo + gain > u32::MAX {
        u32::MAX as int
    } else {
        winner_elo + gain
    }
}

/// The loser's rating after the match: the old rating minus
/// `round(k * expected_loser)` where `expected_loser` mirrors the
/// winner's expected score, floored at `RATING_FLOOR`.
pub open spec fn spec_new_loser_rating(winner_elo: u32, loser_elo: u32, loser_games: u32) -> int {
    let drop = spec_rating_delta(
        spec_k_factor(loser_games),
        FP_ONE - spec_expected_fp(winner_elo, loser_elo),
    );
    if loser_elo - drop > RATING_FLOOR {
        loser_elo - drop
    } else {
        RATING_FLOOR as int
    }
}

/// The expected score always lies strictly inside the scale.
pub proof fn lemma_expected_fp_bounds(winner_elo: u32, loser_elo: u32)
    ensures
        0 <= spec_expected_fp(winner_elo, loser_elo) <= FP_ONE,
        winner_elo == loser_elo ==> spec_expected_fp(winner_elo, loser_elo) == FP_HALF,
{
    if loser_elo >= winner_elo {
        let d = if loser_elo - winner_elo > DIFF_CAP {
            DIFF_CAP as nat
        } else {
            (loser_elo - winner_elo) as nat
        };
        lemma_pow10_fp_bounds(d);
        let den = FP_ONE + spec_pow10_fp(d);
        assert((FP_ONE * FP_ONE) as int / den <= FP_HALF) by {
            assert((FP_ONE * FP_ONE) as int <= den * FP_HALF) by (nonlinear_arith)
                requires
                    den >= 2 * FP_ONE,
            ;
            vstd::arithmetic::div_mod::lemma_multiply_divide_le(
                (FP_ONE * FP_ONE) as int,
                den,
                FP_HALF as int,
            );
        }
        vstd::arithmetic::div_mod::lemma_div_pos_is_pos((FP_ONE * FP_ONE) as int, den);
        if winner_elo == loser_elo {
            assert(spec_pow10_fp(0) == FP_ONE);
            assert((FP_ONE * FP_ONE) as int / (2 * FP_ONE) == FP_HALF) by {
                assert(FP_HALF * (2 * FP_ONE) == (FP_ONE * FP_ONE)) by (nonlinear_arith);
                lemma_div_by_multiple(FP_HALF as int, 2 * FP_ONE);
            }
        }
    } else {
        let d = if winner_elo - loser_elo > DIFF_CAP {
            DIFF_CAP as nat
        } else {
            (winner_elo - loser_elo) as nat
        };
        lemma_pow10_fp_bounds(d);
        let den = FP_ONE + spec_pow10_fp(d);
        assert((FP_ONE * FP_ONE) as int / den <= FP_HALF) by {
            assert((FP_ONE * FP_ONE) as int <= den * FP_HALF) by (nonlinear_arith)
                requires
                    den >= 2 * FP_ONE,
            ;
            vstd::arithmetic::div_mod::lemma_multiply_divide_le(
                (FP_ONE * FP_ONE) as int,
                den,
                FP_HALF as int,
            );
        }
        vstd::arithmetic::div_mod::lemma_div_pos_is_pos((FP_ONE * FP_ONE) as int, den);
    }
}

/// A rounded adjustment with `k` at most `K_PLACEMENT` never exceeds
/// `k` itself.
pub proof fn lemma_rating_delta_bounds(k: int, score_fp: int)
    requires
        0 <= k <= K_PLACEMENT,
        0 <= score_fp <= FP_ONE,
    ensures
        0 <= spec_rating_delta(k, score_fp) <= k,
{
    assert(k * score_fp >= 0) by {
        vstd::arithmetic::mul::lemma_mul_nonnegative(k, score_fp);
    }
    assert(k * score_fp + FP_HALF < FP_ONE * (k + 1)) by {
        lemma_mul_upper_bound(k, k, score_fp, FP_ONE as int);
        assert(k * FP_ONE == FP_ONE * k) by {
            vstd::arithmetic::mul::lemma_mul_is_commutative(k, FP_ONE as int);
        }
        assert(FP_ONE * (k + 1) == FP_ONE * k + FP_ONE) by {
            vstd::arithmetic::mul::lemma_mul_is_distributive_add(FP_ONE as int, k, 1);
        }
    }
    lemma_multiply_divide_lt(k * score_fp + FP_HALF, FP_ONE as int, k + 1);
    vstd::arithmetic::div_mod::lemma_div_pos_is_pos(k * score_fp + FP_HALF, FP_ONE as int);
}

/// Compounds `FP_GROWTH` over a clamped rating distance: returns
/// `spec_pow10_fp(d)`.
fn pow10_fp(d: u32) -> (r: u64)
    requires
        d <= DIFF_CAP,
    ensures
        r == spec_pow10_fp(d as nat),
        FP_ONE <= r <= FP_POW_CAP,
{
    let mut acc: u64 = FP_ONE;
    let mut i: u32 = 0;
    proof {
        lemma_pow10_fp_bounds(0);
    }
    while i < d
        invariant
            i <= d,
            acc == spec_pow10_fp(i as nat),
            FP_ONE <= acc <= FP_POW_CAP,
        decreases d - i,
    {
        proof {
            lemma_mul_upper_bound(acc as int, FP_POW_CAP as int, FP_GROWTH as int, FP_GROWTH as int);
            lemma_pow10_fp_bounds((i + 1) as nat);
        }
        let grown: u64 = acc * FP_GROWTH / FP_ONE;
        acc = if grown > FP_POW_CAP {
            FP_POW_CAP
        } else {
            grown
        };
        i = i + 1;
    }
    acc
}

/// The winner's expected score in fixed point; see `spec_expected_fp`.
fn expected_fp(winner_elo: u32, loser_elo: u32) -> (r: u64)
    ensures
        r == spec_expected_fp(winner_elo, loser_elo),
        r <= FP_ONE,
{
    proof {
        lemma_expected_fp_bounds(winner_elo, loser_elo);
    }
    if loser_elo >= winner_elo {
        let gap: u32 = loser_elo - winner_elo;
        let d: u32 = if gap > DIFF_CAP {
            DIFF_CAP
        } else {
            gap
        };
        let p: u64 = pow10_fp(d);
        (FP_ONE * FP_ONE) / (FP_ONE + p)
    } else {
        let gap: u32 = winner_elo - loser_elo;
        let d: u32 = if gap > DIFF_CAP {
            DIFF_CAP
        } else {
            gap
        };
        let p: u64 = pow10_fp(d);
        FP_ONE - (FP_ONE * FP_ONE) / (FP_ONE + p)
    }
}

/// The K-factor for a player with `games_played` completed matches.
pub fn k_factor(games_played: u32) -> (k: u32)
    ensures
        k == spec_k_factor(games_played),
{
    if games_played < PLACEMENT_GAMES {
        K_PLACEMENT
    } else {
        K_ESTABLISHED
    }
}

/// Updated skill ratings after a decided match.
///
/// The winner gains `round(k_winner * (1 - expected_winner))` points and
/// the loser drops `round(k_loser * (1 - expected_winner))` points, where
/// `expected_winner = 1 / (1 + 10^((loser_elo - winner_elo)/400))` is
/// realized in 2^20 fixed point, each K-factor is chosen from that
/// player's own games-played count, and the loser's rating never falls
/// below `RATING_FLOOR`.
pub fn calculate_elo(winner_elo: u32, loser_elo: u32, winner_games: u32, loser_games: u32) -> (r:
    (u32, u32))
    ensures
        r.0 == spec_new_winner_rating(winner_elo, loser_elo, winner_games),
        r.1 == spec_new_loser_rating(winner_elo, loser_elo, loser_games),
        r.0 >= winner_elo,
        r.1 >= RATING_FLOOR,
        r.1 <= loser_elo || r.1 == RATING_FLOOR,
{
    let e_w: u64 = expected_fp(winner_elo, loser_elo);
    let k_w: u32 = k_factor(winner_games);
    let k_l: u32 = k_factor(loser_games);
    proof {
        lemma_expected_fp_bounds(winner_elo, loser_elo);
        lemma_rating_delta_bounds(k_w as int, FP_ONE - e_w);
        lemma_rating_delta_bounds(k_l as int, FP_ONE - e_w);
    }
    let gain: u64 = ((k_w as u64) * (FP_ONE - e_w) + FP_HALF) / FP_ONE;
    let drop: u64 = ((k_l as u64) * (FP_ONE - e_w) + FP_HALF) / FP_ONE;
    let raised: u64 = winner_elo as u64 + gain;
    let new_winner: u32 = if raised > u32::MAX as u64 {
        u32::MAX
    } else {
        raised as u32
    };
    let new_loser: u32 = if loser_elo as u64 > drop + RATING_FLOOR as u64 {
        (loser_elo as u64 - drop) as u32
    } else {
        RATING_FLOOR
    };
    (new_winner, new_loser)
}

} // verus!
