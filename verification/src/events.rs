use vstd::prelude::*;

use crate::state::Pubkey;

verus! {

/// A player registered a profile.
#[derive(Clone, Debug)]
pub struct ProfileCreated {
    pub player: Pubkey,
    pub gamer_tag: String,
    pub timestamp: i64,
}

/// A match record was created and its escrow reserved.
#[derive(Clone, Copy, Debug)]
pub struct GameCreated {
    pub game_id: u64,
    pub player_one: Pubkey,
    pub player_two: Pubkey,
    pub bet_amount: u64,
    pub timeframe_seconds: u32,
}

/// A player's stake arrived in the escrow.
#[derive(Clone, Copy, Debug)]
pub struct PlayerDeposited {
    pub game_id: u64,
    pub player: Pubkey,
    pub amount: u64,
}

/// Both stakes arrived; the match became Active.
#[derive(Clone, Copy, Debug)]
pub struct GameStarted {
    pub game_id: u64,
    pub start_time: i64,
    pub end_time: i64,
}

/// The trusted scorer settled the match.
#[derive(Clone, Copy, Debug)]
pub struct GameSettled {
    pub game_id: u64,
    pub winner: Option<Pubkey>,
    pub player_one_pnl: i64,
    pub player_two_pnl: i64,
    pub is_tie: bool,
    pub is_forfeit: bool,
}

/// The winner drew the payout; the fee went to the treasury.
#[derive(Clone, Copy, Debug)]
pub struct WinningsClaimed {
    pub game_id: u64,
    pub winner: Pubkey,
    pub payout: u64,
    pub fee: u64,
}

/// Deposited stakes went back to their depositors.
#[derive(Clone, Copy, Debug)]
pub struct EscrowRefunded {
    pub game_id: u64,
    pub player_one: Pubkey,
    pub player_two: Pubkey,
    pub refund_amount: u64,
}

} // verus!
