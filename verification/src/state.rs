use vstd::prelude::*;

verus! {

/// An identity on the ledger: a player wallet, the platform authority, the
/// treasury, or the address of a holding account.  The state machine only
/// ever compares identities, so an opaque word-sized key is all it keeps.
#[derive(Clone, Copy, Debug, PartialEq, Eq, Structural)]
pub struct Pubkey(pub u64);

/// A holding account on the ledger: the balance of one asset held for one
/// owner at one address.  The escrow account of a match and the accounts
/// that receive payouts, fees, and refunds are all of this shape.
#[derive(Clone, Copy, Debug, PartialEq, Eq, Structural)]
pub struct TokenAccount {
    /// Address under which the ledger knows this account.
    pub address: Pubkey,
    /// Identity entitled to what the account holds.
    pub owner: Pubkey,
    /// Current balance.
    pub balance: u64,
}

/// Lifecycle phase of a match.
#[derive(Clone, Copy, Debug, PartialEq, Eq, Structural)]
pub enum GameStatus {
    /// Waiting for both players to deposit.
    Pending,
    /// Both deposited; match in progress.
    Active,
    /// A winner was determined in play, awaiting claim.
    Settled,
    /// Ended with no winner; stakes await refund.
    Tied,
    /// A winner was declared without a live contest, awaiting claim.
    Forfeited,
    /// Called off before it became Active; any stakes await refund.
    Cancelled,
}

impl GameStatus {
    /// A resolved match can never transition again; once its escrow is
    /// drained the record may be closed.
    pub open spec fn is_resolved(self) -> bool {
        self is Settled || self is Tied || self is Forfeited || self is Cancelled
    }
}

/// Platform-wide configuration and running totals.  A deployment holds a
/// single authoritative instance, created once and passed to every
/// operation.
#[derive(Clone, Copy, Debug, PartialEq, Eq, Structural)]
pub struct Platform {
    /// Identity permitted to create, settle, cancel, and close matches.
    pub authority: Pubkey,
    /// Platform fee in basis points (100 = 1%).
    pub fee_bps: u16,
    /// Identity whose account receives collected fees.
    pub treasury: Pubkey,
    /// Count of matches ever created; source of match identifiers.
    pub total_games: u64,
    /// Cumulative stake volume ever escrowed (both players' stakes per
    /// match).
    pub total_volume: u64,
}

impl Platform {
    /// Configuration invariant: the fee never exceeds 25%.
    pub open spec fn wf(self) -> bool {
        self.fee_bps <= 2500
    }
}

/// One player's standing record: skill rating and cumulative statistics.
#[derive(Clone, Debug)]
pub struct PlayerProfile {
    /// Wallet that owns this profile.
    pub authority: Pubkey,
    /// Display name, 1 to 16 UTF-8 bytes.
    pub gamer_tag: String,
    /// Current skill rating; starts at 1200, never falls below 100.
    pub elo_rating: u32,
    /// Total wins.
    pub wins: u32,
    /// Total losses.
    pub losses: u32,
    /// Cumulative profit and loss across all settled matches.
    pub total_pnl: i64,
    /// Consecutive wins; resets to zero on any non-win outcome.
    pub current_streak: u32,
    /// Total matches this player has played to completion.
    pub games_played: u32,
    /// Unix timestamp of profile creation.
    pub created_at: i64,
}

impl PlayerProfile {
    /// Profile invariant: the display name is 1 to 16 bytes in its UTF-8
    /// encoding, and the rating respects the floor of 100.
    pub open spec fn wf(self) -> bool {
        &&& 1 <= vstd::utf8::encode_utf8(self.gamer_tag@).len() <= 16
        &&& self.elo_rating >= 100
    }
}

/// One match: participants, stake, escrow reference, deposit flags,
/// timestamps, and lifecycle status.
#[derive(Clone, Copy, Debug)]
pub struct Game {
    /// Sequential match identifier, unique by construction.
    pub game_id: u64,
    /// First player's identity.
    pub player_one: Pubkey,
    /// Second player's identity.
    pub player_two: Pubkey,
    /// Stake each player must deposit.
    pub bet_amount: u64,
    /// Duration of the active phase in seconds.
    pub timeframe_seconds: u32,
    /// Address of the holding account that custodies both stakes.
    pub escrow_token_account: Pubkey,
    /// Current lifecycle status.
    pub status: GameStatus,
    /// Recorded winner; set exactly on the transition into Settled or
    /// Forfeited, `None` otherwise.
    pub winner: Option<Pubkey>,
    /// First player's final profit and loss, set at settlement.
    pub player_one_pnl: i64,
    /// Second player's final profit and loss, set at settlement.
    pub player_two_pnl: i64,
    /// Whether the first player has deposited; settable exactly once.
    pub player_one_deposited: bool,
    /// Whether the second player has deposited; settable exactly once.
    pub player_two_deposited: bool,
    /// Unix timestamp when the match became Active; zero until then.
    pub start_time: i64,
    /// Unix timestamp when the active phase is scheduled to end; zero
    /// until activation.
    pub end_time: i64,
    /// Unix timestamp of settlement; zero until then.
    pub settled_at: i64,
}

impl Game {
    /// Whether `who` is one of the two participants.
    pub open spec fn is_participant(self, who: Pubkey) -> bool {
        who == self.player_one || who == self.player_two
    }

    /// Whether the participant `who` has already deposited.
    pub open spec fn has_deposited(self, who: Pubkey) -> bool {
        if who == self.player_one {
            self.player_one_deposited
        } else {
            self.player_two_deposited
        }
    }

    /// Match invariant, established at creation and preserved by every
    /// transition:
    /// - the stake is positive and the players are distinct;
    /// - a winner is recorded exactly in the Settled and Forfeited states,
    ///   and is then one of the two players;
    /// - every state at or past activation has both deposits, while
    ///   Pending and Cancelled never have both;
    /// - from activation on, the scheduled end lies exactly `timeframe`
    ///   seconds after the start.
    pub open spec fn wf(self) -> bool {
        &&& self.bet_amount > 0
        &&& self.player_one != self.player_two
        &&& (self.winner is Some <==> (self.status is Settled || self.status is Forfeited))
        &&& (self.winner matches Some(w) ==> self.is_participant(w))
        &&& (self.status is Active || self.status is Settled || self.status is Tied
            || self.status is Forfeited ==> self.player_one_deposited && self.player_two_deposited)
        &&& (self.status is Pending || self.status is Cancelled ==> !(self.player_one_deposited
            && self.player_two_deposited))
        &&& (self.status is Active || self.status is Settled || self.status is Tied
            || self.status is Forfeited ==> self.end_time == self.start_time
            + self.timeframe_seconds)
    }
}

} // verus!
