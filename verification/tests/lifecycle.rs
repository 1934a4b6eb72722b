use solfight::errors::SolFightError;
use solfight::instructions::{
    cancel_pending_game, claim_winnings, close_game, create_profile, deposit_to_escrow, end_game,
    initialize_platform, refund_escrow, start_game,
};
use solfight::state::{Game, GameStatus, Platform, PlayerProfile, Pubkey, TokenAccount};

const AUTHORITY: Pubkey = Pubkey(1);
const TREASURY: Pubkey = Pubkey(2);
const ALICE: Pubkey = Pubkey(10);
const BOB: Pubkey = Pubkey(11);
const ESCROW_ADDR: Pubkey = Pubkey(100);

fn platform(fee_bps: u16) -> Platform {
    initialize_platform::handler(AUTHORITY, TREASURY, fee_bps).unwrap()
}

fn profile(owner: Pubkey, name: &str) -> PlayerProfile {
    create_profile::handler(owner, name.to_string(), 1_700_000_000).unwrap().0
}

fn token(address: Pubkey, owner: Pubkey, balance: u64) -> TokenAccount {
    TokenAccount { address, owner, balance }
}

fn fresh_game(p: &mut Platform, stake: u64, timeframe: u32) -> (Game, TokenAccount) {
    let escrow = token(ESCROW_ADDR, ESCROW_ADDR, 0);
    let (game, _) = start_game::handler(p, AUTHORITY, ALICE, BOB, stake, timeframe, &escrow)
        .unwrap();
    (game, escrow)
}

/// Drives a game to Active: both players deposit their stakes.
fn activate(
    game: &mut Game,
    escrow: &mut TokenAccount,
    alice_tok: &mut TokenAccount,
    bob_tok: &mut TokenAccount,
    now: i64,
) {
    deposit_to_escrow::handler(game, alice_tok, escrow, ALICE, now).unwrap();
    deposit_to_escrow::handler(game, bob_tok, escrow, BOB, now).unwrap();
}

#[test]
fn platform_bootstrap_and_fee_bounds() {
    let p = platform(250);
    assert_eq!(p.authority, AUTHORITY);
    assert_eq!(p.treasury, TREASURY);
    assert_eq!(p.fee_bps, 250);
    assert_eq!(p.total_games, 0);
    assert_eq!(p.total_volume, 0);
    assert_eq!(initialize_platform::handler(AUTHORITY, TREASURY, 2500).unwrap().fee_bps, 2500);
    assert_eq!(
        initialize_platform::handler(AUTHORITY, TREASURY, 2501),
        Err(SolFightError::InvalidFeeBps)
    );
}

#[test]
fn profile_creation_and_tag_bounds() {
    let (p, ev) = create_profile::handler(ALICE, "alice".to_string(), 42).unwrap();
    assert_eq!(p.authority, ALICE);
    assert_eq!(p.gamer_tag, "alice");
    assert_eq!(p.elo_rating, 1200);
    assert_eq!(p.wins, 0);
    assert_eq!(p.losses, 0);
    assert_eq!(p.total_pnl, 0);
    assert_eq!(p.current_streak, 0);
    assert_eq!(p.games_played, 0);
    assert_eq!(p.created_at, 42);
    assert_eq!(ev.player, ALICE);
    assert_eq!(ev.gamer_tag, "alice");
    assert_eq!(ev.timestamp, 42);
    assert!(matches!(
        create_profile::handler(ALICE, String::new(), 0),
        Err(SolFightError::GamerTagEmpty)
    ));
    assert!(matches!(
        create_profile::handler(ALICE, "seventeen-bytes-x".to_string(), 0),
        Err(SolFightError::GamerTagTooLong)
    ));
    // Sixteen bytes exactly is accepted.
    assert!(create_profile::handler(ALICE, "sixteen-bytes-xx".to_string(), 0).is_ok());
    // The limit counts UTF-8 bytes, not characters.
    assert!(matches!(
        create_profile::handler(ALICE, "ééééééééé".to_string(), 0),
        Err(SolFightError::GamerTagTooLong)
    ));
}

#[test]
fn match_creation_assigns_id_and_volume() {
    let mut p = platform(250);
    let (game, _) = fresh_game(&mut p, 1_000_000, 3600);
    assert_eq!(game.game_id, 1);
    assert_eq!(game.player_one, ALICE);
    assert_eq!(game.player_two, BOB);
    assert_eq!(game.bet_amount, 1_000_000);
    assert_eq!(game.timeframe_seconds, 3600);
    assert_eq!(game.escrow_token_account, ESCROW_ADDR);
    assert_eq!(game.status, GameStatus::Pending);
    assert_eq!(game.winner, None);
    assert!(!game.player_one_deposited);
    assert!(!game.player_two_deposited);
    assert_eq!(p.total_games, 1);
    assert_eq!(p.total_volume, 2_000_000);
}

#[test]
fn match_creation_guards() {
    let mut p = platform(250);
    let escrow = token(ESCROW_ADDR, ESCROW_ADDR, 0);
    assert!(matches!(
        start_game::handler(&mut p, ALICE, ALICE, BOB, 1, 60, &escrow),
        Err(SolFightError::Unauthorized)
    ));
    assert!(matches!(
        start_game::handler(&mut p, AUTHORITY, ALICE, BOB, 0, 60, &escrow),
        Err(SolFightError::InvalidBetAmount)
    ));
    assert!(matches!(
        start_game::handler(&mut p, AUTHORITY, ALICE, ALICE, 1, 60, &escrow),
        Err(SolFightError::DuplicatePlayers)
    ));
    let dirty = token(ESCROW_ADDR, ESCROW_ADDR, 5);
    assert!(matches!(
        start_game::handler(&mut p, AUTHORITY, ALICE, BOB, 1, 60, &dirty),
        Err(SolFightError::EscrowNotEmpty)
    ));
    // No failed attempt touched the registry.
    assert_eq!(p.total_games, 0);
    assert_eq!(p.total_volume, 0);
}

#[test]
fn total_volume_accumulates_per_match() {
    let mut p = platform(100);
    let stake: u64 = 250_000;
    for n in 1..=5u64 {
        let escrow = token(Pubkey(100 + n), ESCROW_ADDR, 0);
        start_game::handler(&mut p, AUTHORITY, ALICE, BOB, stake, 60, &escrow).unwrap();
        assert_eq!(p.total_games, n);
        assert_eq!(p.total_volume, n * 2 * stake);
    }
}

#[test]
fn deposits_in_either_order_activate_exactly_on_the_second() {
    for alice_first in [true, false] {
        let mut p = platform(250);
        let (mut game, mut escrow) = fresh_game(&mut p, 1_000, 3600);
        let mut alice_tok = token(Pubkey(201), ALICE, 5_000);
        let mut bob_tok = token(Pubkey(202), BOB, 5_000);
        let now: i64 = 1_700_000_000;
        let (first, first_tok, second, second_tok) = if alice_first {
            (ALICE, &mut alice_tok, BOB, &mut bob_tok)
        } else {
            (BOB, &mut bob_tok, ALICE, &mut alice_tok)
        };
        let (ev, started) =
            deposit_to_escrow::handler(&mut game, first_tok, &mut escrow, first, now).unwrap();
        assert_eq!(ev.player, first);
        assert_eq!(ev.amount, 1_000);
        assert!(started.is_none());
        assert_eq!(game.status, GameStatus::Pending);
        assert_eq!(escrow.balance, 1_000);
        let (_, started) =
            deposit_to_escrow::handler(&mut game, second_tok, &mut escrow, second, now + 5)
                .unwrap();
        let started = started.expect("second deposit must activate");
        assert_eq!(game.status, GameStatus::Active);
        assert_eq!(escrow.balance, 2_000);
        assert_eq!(alice_tok.balance, 4_000);
        assert_eq!(bob_tok.balance, 4_000);
        // Activation stamps the active phase to exactly the timeframe.
        assert_eq!(game.start_time, now + 5);
        assert_eq!(game.end_time - game.start_time, 3600);
        assert_eq!(started.start_time, now + 5);
        assert_eq!(started.end_time, now + 5 + 3600);
    }
}

#[test]
fn second_deposit_by_same_player_is_rejected() {
    let mut p = platform(250);
    let (mut game, mut escrow) = fresh_game(&mut p, 1_000, 60);
    let mut alice_tok = token(Pubkey(201), ALICE, 5_000);
    deposit_to_escrow::handler(&mut game, &mut alice_tok, &mut escrow, ALICE, 0).unwrap();
    let again = deposit_to_escrow::handler(&mut game, &mut alice_tok, &mut escrow, ALICE, 1);
    assert!(matches!(again, Err(SolFightError::AlreadyDeposited)));
    // Nothing moved on the failed attempt.
    assert_eq!(alice_tok.balance, 4_000);
    assert_eq!(escrow.balance, 1_000);
    assert!(game.player_one_deposited);
    assert!(!game.player_two_deposited);
}

#[test]
fn deposit_guards() {
    let mut p = platform(250);
    let (mut game, mut escrow) = fresh_game(&mut p, 1_000, 60);
    let mut outsider_tok = token(Pubkey(203), Pubkey(99), 5_000);
    assert!(matches!(
        deposit_to_escrow::handler(&mut game, &mut outsider_tok, &mut escrow, Pubkey(99), 0),
        Err(SolFightError::NotAPlayer)
    ));
    // A participant paying from an account that is not theirs.
    let mut stray = token(Pubkey(204), BOB, 5_000);
    assert!(matches!(
        deposit_to_escrow::handler(&mut game, &mut stray, &mut escrow, ALICE, 0),
        Err(SolFightError::TransferFailed)
    ));
    // Insufficient balance.
    let mut poor = token(Pubkey(205), ALICE, 999);
    assert!(matches!(
        deposit_to_escrow::handler(&mut game, &mut poor, &mut escrow, ALICE, 0),
        Err(SolFightError::TransferFailed)
    ));
    // The wrong escrow account.
    let mut wrong_escrow = token(Pubkey(206), ESCROW_ADDR, 0);
    let mut alice_tok = token(Pubkey(201), ALICE, 5_000);
    assert!(matches!(
        deposit_to_escrow::handler(&mut game, &mut alice_tok, &mut wrong_escrow, ALICE, 0),
        Err(SolFightError::TransferFailed)
    ));
    assert_eq!(escrow.balance, 0);
    assert_eq!(game.status, GameStatus::Pending);
}

#[test]
fn settlement_updates_profiles_and_ratings() {
    let mut p = platform(250);
    let (mut game, mut escrow) = fresh_game(&mut p, 1_000, 60);
    let mut alice_tok = token(Pubkey(201), ALICE, 5_000);
    let mut bob_tok = token(Pubkey(202), BOB, 5_000);
    activate(&mut game, &mut escrow, &mut alice_tok, &mut bob_tok, 50);
    let mut alice_prof = profile(ALICE, "alice");
    let mut bob_prof = profile(BOB, "bob");
    let ev = end_game::handler(
        &p,
        &mut game,
        &mut alice_prof,
        &mut bob_prof,
        AUTHORITY,
        Some(ALICE),
        2_500,
        -2_500,
        false,
        90,
    )
    .unwrap();
    assert_eq!(game.status, GameStatus::Settled);
    assert_eq!(game.winner, Some(ALICE));
    assert_eq!(game.player_one_pnl, 2_500);
    assert_eq!(game.player_two_pnl, -2_500);
    assert_eq!(game.settled_at, 90);
    assert_eq!(alice_prof.wins, 1);
    assert_eq!(alice_prof.losses, 0);
    assert_eq!(alice_prof.current_streak, 1);
    assert_eq!(alice_prof.games_played, 1);
    assert_eq!(alice_prof.total_pnl, 2_500);
    assert_eq!(alice_prof.elo_rating, 1220);
    assert_eq!(bob_prof.wins, 0);
    assert_eq!(bob_prof.losses, 1);
    assert_eq!(bob_prof.current_streak, 0);
    assert_eq!(bob_prof.games_played, 1);
    assert_eq!(bob_prof.total_pnl, -2_500);
    assert_eq!(bob_prof.elo_rating, 1180);
    assert_eq!(ev.winner, Some(ALICE));
    assert!(!ev.is_tie);
    assert!(!ev.is_forfeit);
}

#[test]
fn forfeit_counts_the_win_but_leaves_ratings() {
    let mut p = platform(250);
    let (mut game, mut escrow) = fresh_game(&mut p, 1_000, 60);
    let mut alice_tok = token(Pubkey(201), ALICE, 5_000);
    let mut bob_tok = token(Pubkey(202), BOB, 5_000);
    activate(&mut game, &mut escrow, &mut alice_tok, &mut bob_tok, 50);
    let mut alice_prof = profile(ALICE, "alice");
    let mut bob_prof = profile(BOB, "bob");
    let ev = end_game::handler(
        &p,
        &mut game,
        &mut alice_prof,
        &mut bob_prof,
        AUTHORITY,
        Some(BOB),
        -1,
        1,
        true,
        90,
    )
    .unwrap();
    assert_eq!(game.status, GameStatus::Forfeited);
    assert_eq!(game.winner, Some(BOB));
    assert_eq!(bob_prof.wins, 1);
    assert_eq!(bob_prof.elo_rating, 1200);
    assert_eq!(alice_prof.losses, 1);
    assert_eq!(alice_prof.elo_rating, 1200);
    assert!(ev.is_forfeit);
    assert!(!ev.is_tie);
}

#[test]
fn tie_breaks_streaks_and_leaves_counts() {
    let mut p = platform(250);
    let (mut game, mut escrow) = fresh_game(&mut p, 1_000, 60);
    let mut alice_tok = token(Pubkey(201), ALICE, 5_000);
    let mut bob_tok = token(Pubkey(202), BOB, 5_000);
    activate(&mut game, &mut escrow, &mut alice_tok, &mut bob_tok, 50);
    let mut alice_prof = profile(ALICE, "alice");
    alice_prof.current_streak = 3;
    alice_prof.wins = 3;
    let mut bob_prof = profile(BOB, "bob");
    let ev = end_game::handler(
        &p,
        &mut game,
        &mut alice_prof,
        &mut bob_prof,
        AUTHORITY,
        None,
        0,
        0,
        false,
        90,
    )
    .unwrap();
    assert_eq!(game.status, GameStatus::Tied);
    assert_eq!(game.winner, None);
    assert_eq!(alice_prof.current_streak, 0);
    assert_eq!(alice_prof.wins, 3);
    assert_eq!(alice_prof.losses, 0);
    assert_eq!(alice_prof.games_played, 1);
    assert_eq!(alice_prof.elo_rating, 1200);
    assert_eq!(bob_prof.games_played, 1);
    assert!(ev.is_tie);
}

#[test]
fn settlement_guards() {
    let mut p = platform(250);
    let (mut game, mut escrow) = fresh_game(&mut p, 1_000, 60);
    let mut alice_prof = profile(ALICE, "alice");
    let mut bob_prof = profile(BOB, "bob");
    // Not Active yet.
    assert!(matches!(
        end_game::handler(
            &p, &mut game, &mut alice_prof, &mut bob_prof, AUTHORITY, Some(ALICE), 0, 0, false, 0
        ),
        Err(SolFightError::GameNotActive)
    ));
    let mut alice_tok = token(Pubkey(201), ALICE, 5_000);
    let mut bob_tok = token(Pubkey(202), BOB, 5_000);
    activate(&mut game, &mut escrow, &mut alice_tok, &mut bob_tok, 50);
    // Wrong caller.
    assert!(matches!(
        end_game::handler(
            &p, &mut game, &mut alice_prof, &mut bob_prof, ALICE, Some(ALICE), 0, 0, false, 0
        ),
        Err(SolFightError::Unauthorized)
    ));
    // A winner who is not a participant.
    assert!(matches!(
        end_game::handler(
            &p, &mut game, &mut alice_prof, &mut bob_prof, AUTHORITY, Some(Pubkey(99)), 0, 0,
            false, 0
        ),
        Err(SolFightError::NotAPlayer)
    ));
    // A forfeit must name its winner.
    assert!(matches!(
        end_game::handler(
            &p, &mut game, &mut alice_prof, &mut bob_prof, AUTHORITY, None, 0, 0, true, 0
        ),
        Err(SolFightError::NotAPlayer)
    ));
    // Profiles must belong to the players.
    let mut stranger_prof = profile(Pubkey(99), "stranger");
    assert!(matches!(
        end_game::handler(
            &p, &mut game, &mut stranger_prof, &mut bob_prof, AUTHORITY, Some(ALICE), 0, 0, false,
            0
        ),
        Err(SolFightError::NotAPlayer)
    ));
    // A PnL update that would overflow aborts the whole settlement.
    alice_prof.total_pnl = i64::MAX;
    assert!(matches!(
        end_game::handler(
            &p, &mut game, &mut alice_prof, &mut bob_prof, AUTHORITY, Some(ALICE), 1, -1, false, 0
        ),
        Err(SolFightError::MathOverflow)
    ));
    assert_eq!(alice_prof.games_played, 0);
    assert_eq!(bob_prof.games_played, 0);
    assert_eq!(game.status, GameStatus::Active);
}

#[test]
fn claim_pays_winner_and_treasury_exactly() {
    let mut p = platform(250);
    let (mut game, mut escrow) = fresh_game(&mut p, 1_000_000, 60);
    let mut alice_tok = token(Pubkey(201), ALICE, 1_000_000);
    let mut bob_tok = token(Pubkey(202), BOB, 1_000_000);
    activate(&mut game, &mut escrow, &mut alice_tok, &mut bob_tok, 50);
    let mut alice_prof = profile(ALICE, "alice");
    let mut bob_prof = profile(BOB, "bob");
    end_game::handler(
        &p, &mut game, &mut alice_prof, &mut bob_prof, AUTHORITY, Some(ALICE), 1, -1, false, 90,
    )
    .unwrap();
    let mut treasury_tok = token(Pubkey(301), TREASURY, 0);
    let ev = claim_winnings::handler(
        &p,
        &game,
        &mut escrow,
        &mut alice_tok,
        &mut treasury_tok,
        ALICE,
    )
    .unwrap();
    assert_eq!(escrow.balance, 0);
    assert_eq!(alice_tok.balance, 1_950_000);
    assert_eq!(treasury_tok.balance, 50_000);
    assert_eq!(ev.payout, 1_950_000);
    assert_eq!(ev.fee, 50_000);
    assert_eq!(ev.winner, ALICE);
    // The drained escrow cannot be claimed twice.
    assert!(matches!(
        claim_winnings::handler(&p, &game, &mut escrow, &mut alice_tok, &mut treasury_tok, ALICE),
        Err(SolFightError::TransferFailed)
    ));
    // And the resolved, drained match can now be closed.
    assert!(close_game::handler(&p, &game, &escrow, AUTHORITY).is_ok());
}

#[test]
fn zero_fee_claim_moves_nothing_to_treasury() {
    let mut p = platform(0);
    let (mut game, mut escrow) = fresh_game(&mut p, 1_000, 60);
    let mut alice_tok = token(Pubkey(201), ALICE, 1_000);
    let mut bob_tok = token(Pubkey(202), BOB, 1_000);
    activate(&mut game, &mut escrow, &mut alice_tok, &mut bob_tok, 50);
    let mut alice_prof = profile(ALICE, "alice");
    let mut bob_prof = profile(BOB, "bob");
    end_game::handler(
        &p, &mut game, &mut alice_prof, &mut bob_prof, AUTHORITY, Some(BOB), -1, 1, false, 90,
    )
    .unwrap();
    let mut treasury_tok = token(Pubkey(301), TREASURY, 7);
    let ev =
        claim_winnings::handler(&p, &game, &mut escrow, &mut bob_tok, &mut treasury_tok, BOB)
            .unwrap();
    assert_eq!(ev.fee, 0);
    assert_eq!(bob_tok.balance, 2_000);
    assert_eq!(treasury_tok.balance, 7);
}

#[test]
fn claim_guards() {
    let mut p = platform(250);
    let (mut game, mut escrow) = fresh_game(&mut p, 1_000, 60);
    let mut alice_tok = token(Pubkey(201), ALICE, 5_000);
    let mut bob_tok = token(Pubkey(202), BOB, 5_000);
    let mut treasury_tok = token(Pubkey(301), TREASURY, 0);
    // Not claimable while Pending or Active.
    assert!(matches!(
        claim_winnings::handler(&p, &game, &mut escrow, &mut alice_tok, &mut treasury_tok, ALICE),
        Err(SolFightError::NotClaimable)
    ));
    activate(&mut game, &mut escrow, &mut alice_tok, &mut bob_tok, 50);
    assert!(matches!(
        claim_winnings::handler(&p, &game, &mut escrow, &mut alice_tok, &mut treasury_tok, ALICE),
        Err(SolFightError::NotClaimable)
    ));
    let mut alice_prof = profile(ALICE, "alice");
    let mut bob_prof = profile(BOB, "bob");
    end_game::handler(
        &p, &mut game, &mut alice_prof, &mut bob_prof, AUTHORITY, Some(ALICE), 1, -1, false, 90,
    )
    .unwrap();
    // Only the recorded winner can claim.
    assert!(matches!(
        claim_winnings::handler(&p, &game, &mut escrow, &mut bob_tok, &mut treasury_tok, BOB),
        Err(SolFightError::NotWinner)
    ));
    // The payout account must belong to the winner.
    assert!(matches!(
        claim_winnings::handler(&p, &game, &mut escrow, &mut bob_tok, &mut treasury_tok, ALICE),
        Err(SolFightError::TransferFailed)
    ));
    assert_eq!(escrow.balance, 2_000);
}

#[test]
fn cancelled_match_with_one_deposit_refunds_exactly_that_stake() {
    // Only the first player deposited before the match was called off:
    // the refund returns exactly that one stake, the other player
    // receives nothing, and the escrow is left empty.
    let mut p = platform(250);
    let (mut game, mut escrow) = fresh_game(&mut p, 1_000, 60);
    let mut alice_tok = token(Pubkey(201), ALICE, 1_000);
    deposit_to_escrow::handler(&mut game, &mut alice_tok, &mut escrow, ALICE, 10).unwrap();
    assert_eq!(alice_tok.balance, 0);
    assert_eq!(escrow.balance, 1_000);
    cancel_pending_game::handler(&p, &mut game, AUTHORITY).unwrap();
    assert_eq!(game.status, GameStatus::Cancelled);
    let mut bob_tok = token(Pubkey(202), BOB, 77);
    let ev = refund_escrow::handler(&game, &mut escrow, &mut alice_tok, &mut bob_tok).unwrap();
    assert_eq!(alice_tok.balance, 1_000);
    assert_eq!(bob_tok.balance, 77);
    assert_eq!(escrow.balance, 0);
    assert_eq!(ev.refund_amount, 1_000);
    // Now closable.
    assert!(close_game::handler(&p, &game, &escrow, AUTHORITY).is_ok());
}

#[test]
fn tied_match_refunds_both_stakes() {
    let mut p = platform(250);
    let (mut game, mut escrow) = fresh_game(&mut p, 1_000, 60);
    let mut alice_tok = token(Pubkey(201), ALICE, 1_500);
    let mut bob_tok = token(Pubkey(202), BOB, 1_000);
    activate(&mut game, &mut escrow, &mut alice_tok, &mut bob_tok, 50);
    let mut alice_prof = profile(ALICE, "alice");
    let mut bob_prof = profile(BOB, "bob");
    end_game::handler(
        &p, &mut game, &mut alice_prof, &mut bob_prof, AUTHORITY, None, 0, 0, false, 90,
    )
    .unwrap();
    refund_escrow::handler(&game, &mut escrow, &mut alice_tok, &mut bob_tok).unwrap();
    assert_eq!(alice_tok.balance, 1_500);
    assert_eq!(bob_tok.balance, 1_000);
    assert_eq!(escrow.balance, 0);
}

#[test]
fn refund_guards() {
    let mut p = platform(250);
    let (mut game, mut escrow) = fresh_game(&mut p, 1_000, 60);
    let mut alice_tok = token(Pubkey(201), ALICE, 5_000);
    let mut bob_tok = token(Pubkey(202), BOB, 5_000);
    // Pending is not refundable.
    assert!(matches!(
        refund_escrow::handler(&game, &mut escrow, &mut alice_tok, &mut bob_tok),
        Err(SolFightError::NotRefundable)
    ));
    activate(&mut game, &mut escrow, &mut alice_tok, &mut bob_tok, 50);
    // Active is not refundable either.
    assert!(matches!(
        refund_escrow::handler(&game, &mut escrow, &mut alice_tok, &mut bob_tok),
        Err(SolFightError::NotRefundable)
    ));
    let mut alice_prof = profile(ALICE, "alice");
    let mut bob_prof = profile(BOB, "bob");
    end_game::handler(
        &p, &mut game, &mut alice_prof, &mut bob_prof, AUTHORITY, Some(ALICE), 0, 0, false, 90,
    )
    .unwrap();
    // Settled is claimed, not refunded.
    assert!(matches!(
        refund_escrow::handler(&game, &mut escrow, &mut alice_tok, &mut bob_tok),
        Err(SolFightError::NotRefundable)
    ));
    assert_eq!(escrow.balance, 2_000);
}

#[test]
fn cancel_guards() {
    let mut p = platform(250);
    let (mut game, mut escrow) = fresh_game(&mut p, 1_000, 60);
    assert!(matches!(
        cancel_pending_game::handler(&p, &mut game, ALICE),
        Err(SolFightError::Unauthorized)
    ));
    let mut alice_tok = token(Pubkey(201), ALICE, 5_000);
    let mut bob_tok = token(Pubkey(202), BOB, 5_000);
    activate(&mut game, &mut escrow, &mut alice_tok, &mut bob_tok, 50);
    // An Active match can no longer be cancelled.
    assert!(matches!(
        cancel_pending_game::handler(&p, &mut game, AUTHORITY),
        Err(SolFightError::GameNotPending)
    ));
    assert_eq!(game.status, GameStatus::Active);
}

#[test]
fn close_guards() {
    let mut p = platform(250);
    let (mut game, mut escrow) = fresh_game(&mut p, 1_000, 60);
    // Unresolved: refused.
    assert!(matches!(
        close_game::handler(&p, &game, &escrow, AUTHORITY),
        Err(SolFightError::GameNotSettled)
    ));
    let mut alice_tok = token(Pubkey(201), ALICE, 5_000);
    let mut bob_tok = token(Pubkey(202), BOB, 5_000);
    activate(&mut game, &mut escrow, &mut alice_tok, &mut bob_tok, 50);
    let mut alice_prof = profile(ALICE, "alice");
    let mut bob_prof = profile(BOB, "bob");
    end_game::handler(
        &p, &mut game, &mut alice_prof, &mut bob_prof, AUTHORITY, Some(ALICE), 0, 0, false, 90,
    )
    .unwrap();
    // Resolved but the escrow still holds the pot: refused.
    assert!(matches!(
        close_game::handler(&p, &game, &escrow, AUTHORITY),
        Err(SolFightError::EscrowNotEmpty)
    ));
    let mut treasury_tok = token(Pubkey(301), TREASURY, 0);
    claim_winnings::handler(&p, &game, &mut escrow, &mut alice_tok, &mut treasury_tok, ALICE)
        .unwrap();
    // Only the authority closes.
    assert!(matches!(
        close_game::handler(&p, &game, &escrow, ALICE),
        Err(SolFightError::Unauthorized)
    ));
    assert!(close_game::handler(&p, &game, &escrow, AUTHORITY).is_ok());
}

#[test]
fn deposit_after_activation_is_rejected() {
    let mut p = platform(250);
    let (mut game, mut escrow) = fresh_game(&mut p, 1_000, 60);
    let mut alice_tok = token(Pubkey(201), ALICE, 5_000);
    let mut bob_tok = token(Pubkey(202), BOB, 5_000);
    activate(&mut game, &mut escrow, &mut alice_tok, &mut bob_tok, 50);
    assert!(matches!(
        deposit_to_escrow::handler(&mut game, &mut alice_tok, &mut escrow, ALICE, 51),
        Err(SolFightError::GameNotPending)
    ));
    assert_eq!(escrow.balance, 2_000);
}

#[test]
fn activation_near_the_end_of_time_is_rejected() {
    let mut p = platform(250);
    let (mut game, mut escrow) = fresh_game(&mut p, 1_000, 60);
    let mut alice_tok = token(Pubkey(201), ALICE, 5_000);
    let mut bob_tok = token(Pubkey(202), BOB, 5_000);
    deposit_to_escrow::handler(&mut game, &mut alice_tok, &mut escrow, ALICE, 0).unwrap();
    // The second deposit would stamp an end time past the clock's range.
    assert!(matches!(
        deposit_to_escrow::handler(&mut game, &mut bob_tok, &mut escrow, BOB, i64::MAX),
        Err(SolFightError::MathOverflow)
    ));
    assert_eq!(escrow.balance, 1_000);
    assert_eq!(game.status, GameStatus::Pending);
    assert!(!game.player_two_deposited);
}

#[test]
fn volume_overflow_aborts_match_creation() {
    let mut p = platform(0);
    p.total_volume = u64::MAX - 1;
    let escrow = token(ESCROW_ADDR, ESCROW_ADDR, 0);
    assert!(matches!(
        start_game::handler(&mut p, AUTHORITY, ALICE, BOB, 1, 60, &escrow),
        Err(SolFightError::MathOverflow)
    ));
    assert_eq!(p.total_volume, u64::MAX - 1);
    assert_eq!(p.total_games, 0);
}

#[test]
fn winning_streak_grows_and_breaks() {
    let mut p = platform(0);
    let mut alice_prof = profile(ALICE, "alice");
    let mut bob_prof = profile(BOB, "bob");
    for round in 0..3i64 {
        let escrow_addr = Pubkey(400 + round as u64);
        let escrow0 = token(escrow_addr, escrow_addr, 0);
        let (mut game, _) =
            start_game::handler(&mut p, AUTHORITY, ALICE, BOB, 100, 60, &escrow0).unwrap();
        let mut escrow = escrow0;
        let mut alice_tok = token(Pubkey(201), ALICE, 100);
        let mut bob_tok = token(Pubkey(202), BOB, 100);
        activate(&mut game, &mut escrow, &mut alice_tok, &mut bob_tok, round);
        end_game::handler(
            &p, &mut game, &mut alice_prof, &mut bob_prof, AUTHORITY, Some(ALICE), 1, -1, false,
            round,
        )
        .unwrap();
    }
    assert_eq!(alice_prof.current_streak, 3);
    assert_eq!(alice_prof.wins, 3);
    assert_eq!(bob_prof.losses, 3);
    assert_eq!(bob_prof.current_streak, 0);
    // One loss breaks the streak.
    let escrow0 = token(Pubkey(500), Pubkey(500), 0);
    let (mut game, _) =
        start_game::handler(&mut p, AUTHORITY, ALICE, BOB, 100, 60, &escrow0).unwrap();
    let mut escrow = escrow0;
    let mut alice_tok = token(Pubkey(201), ALICE, 100);
    let mut bob_tok = token(Pubkey(202), BOB, 100);
    activate(&mut game, &mut escrow, &mut alice_tok, &mut bob_tok, 9);
    end_game::handler(
        &p, &mut game, &mut alice_prof, &mut bob_prof, AUTHORITY, Some(BOB), -1, 1, false, 9,
    )
    .unwrap();
    assert_eq!(alice_prof.current_streak, 0);
    assert_eq!(bob_prof.current_streak, 1);
}
