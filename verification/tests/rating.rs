use solfight::rating::{calculate_elo, k_factor};

#[test]
fn equal_ratings_example_scenario() {
    // Two fresh 1200 players, K = 40 each, expected score one half:
    // the winner gains exactly 20 and the loser drops exactly 20.
    let (w, l) = calculate_elo(1200, 1200, 0, 0);
    assert_eq!(w, 1220);
    assert_eq!(l, 1180);
}

#[test]
fn equal_ratings_established_players() {
    // At 30 games the K-factor is 32: half of it each way.
    let (w, l) = calculate_elo(1000, 1000, 30, 30);
    assert_eq!(w, 1016);
    assert_eq!(l, 984);
}

#[test]
fn k_factor_switches_at_thirty_games() {
    assert_eq!(k_factor(0), 40);
    assert_eq!(k_factor(29), 40);
    assert_eq!(k_factor(30), 32);
    assert_eq!(k_factor(1000), 32);
}

#[test]
fn k_factor_chosen_per_player() {
    // Equal ratings, one fresh winner against an established loser:
    // the winner moves by half of 40, the loser by half of 32.
    let (w, l) = calculate_elo(1200, 1200, 29, 30);
    assert_eq!(w, 1220);
    assert_eq!(l, 1184);
}

#[test]
fn upset_moves_ratings_more_than_expected_win() {
    // An underdog at 1000 beating a 1400 favourite moves both ratings
    // far; the reverse, almost nothing.
    let (w, l) = calculate_elo(1000, 1400, 0, 0);
    assert_eq!(w, 1036);
    assert_eq!(l, 1364);
    let (w, l) = calculate_elo(1400, 1000, 0, 0);
    assert_eq!(w, 1404);
    assert_eq!(l, 996);
}

#[test]
fn rating_never_drops_below_floor() {
    // A loser near the floor is clamped to exactly 100.
    let (w, l) = calculate_elo(110, 110, 0, 0);
    assert_eq!(w, 130);
    assert_eq!(l, 100);
    // At the floor already: stays there.
    let (_, l) = calculate_elo(1200, 100, 0, 0);
    assert!(l >= 100);
    // Far apart: a crushing favourite barely moves either side.
    let (w, l) = calculate_elo(1200, 105, 0, 0);
    assert_eq!(w, 1200);
    assert_eq!(l, 105);
}

#[test]
fn huge_rating_gap_is_clamped() {
    // Beyond the clamp distance the outcome is treated as certain one
    // way and maximally surprising the other.
    let (w, l) = calculate_elo(500, 3500, 0, 0);
    assert_eq!(w, 540);
    assert_eq!(l, 3460);
}

#[test]
fn winner_never_loses_points() {
    for (we, le) in [(100, 4000), (1200, 1200), (4000, 100)] {
        let (w, _) = calculate_elo(we, le, 5, 5);
        assert!(w >= we);
    }
}

#[test]
fn winner_rating_saturates_at_type_maximum() {
    let (w, l) = calculate_elo(u32::MAX, 1200, 0, 0);
    assert_eq!(w, u32::MAX);
    assert_eq!(l, 1200);
}
