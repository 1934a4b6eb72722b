use vstd::prelude::*;

verus! {

/// Every way an operation can be rejected.  A rejected operation leaves all
/// of its inputs untouched: each transition's contract states that on an
/// `Err` result no record it was handed has changed.
#[derive(Clone, Copy, Debug, PartialEq, Eq, Structural)]
pub enum SolFightError {
    /// Bet amount must be greater than zero.
    InvalidBetAmount,
    /// Game is not in Active status.
    GameNotActive,
    /// Game is not in Pending status.
    GameNotPending,
    /// Signer is not a player in this game.
    NotAPlayer,
    /// Game has already been settled.
    AlreadySettled,
    /// Both players must deposit before the match can start.
    EscrowNotFull,
    /// Only the platform authority can perform this action.
    Unauthorized,
    /// Only the winner can claim winnings.
    NotWinner,
    /// Player has already deposited for this game.
    AlreadyDeposited,
    /// Gamer tag exceeds the maximum length of 16 bytes.
    GamerTagTooLong,
    /// Gamer tag cannot be empty.
    GamerTagEmpty,
    /// Fee basis points must be between 0 and 2500 (25%).
    InvalidFeeBps,
    /// Arithmetic overflow.
    MathOverflow,
    /// Game must be Tied or Cancelled for refund.
    NotRefundable,
    /// Game must be Settled or Forfeited for claim.
    NotClaimable,
    /// Escrow token account must be empty before closing the game.
    EscrowNotEmpty,
    /// Game must be fully resolved before it can be closed.
    GameNotSettled,
    /// The two players of a match must be distinct identities.
    DuplicatePlayers,
    /// The ledger refused the transfer: wrong account, insufficient
    /// balance, or a balance that would overflow.
    TransferFailed,
}

impl SolFightError {
    /// A short description of the rejection, for callers that surface
    /// errors to people.
    pub fn message(&self) -> &'static str {
        match self {
            SolFightError::InvalidBetAmount => "Bet amount must be greater than zero.",
            SolFightError::GameNotActive => "Game is not in Active status.",
            SolFightError::GameNotPending => "Game is not in Pending status.",
            SolFightError::NotAPlayer => "Signer is not a player in this game.",
            SolFightError::AlreadySettled => "Game has already been settled.",
            SolFightError::EscrowNotFull => "Both players must deposit before the match can start.",
            SolFightError::Unauthorized => "Only the platform authority can perform this action.",
            SolFightError::NotWinner => "Only the winner can claim winnings.",
            SolFightError::AlreadyDeposited => "Player has already deposited for this game.",
            SolFightError::GamerTagTooLong => "Gamer tag exceeds maximum length of 16 bytes.",
            SolFightError::GamerTagEmpty => "Gamer tag cannot be empty.",
            SolFightError::InvalidFeeBps => "Fee basis points must be between 0 and 2500 (25%).",
            SolFightError::MathOverflow => "Arithmetic overflow.",
            SolFightError::NotRefundable => "Game must be Tied or Cancelled for refund.",
            SolFightError::NotClaimable => "Game must be Settled or Forfeited for claim.",
            SolFightError::EscrowNotEmpty => "Escrow token account must be empty before closing the game.",
            SolFightError::GameNotSettled => "Game must be fully settled before it can be closed.",
            SolFightError::DuplicatePlayers => "The two players of a match must be distinct.",
            SolFightError::TransferFailed => "The ledger refused the transfer.",
        }
    }
}

} // verus!
