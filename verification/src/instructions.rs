//! One module per operation of the platform, each exposing a `handler`
//! that performs one state transition of the match lifecycle.  Every
//! handler is atomic: it either returns `Ok` having applied exactly the
//! effects its contract states, or returns a definite error having
//! changed nothing.

pub mod cancel_pending_game;
pub mod claim_winnings;
pub mod close_game;
pub mod create_profile;
pub mod deposit_to_escrow;
pub mod end_game;
pub mod refund_escrow;
pub mod initialize_platform;
pub mod start_game;
