//! Two-player wagering escrow with skill-rating progression.
//!
//! Two players each stake an equal bet into a match escrow, a trusted scorer
//! reports the outcome, and the escrowed funds move to the winner (minus a
//! platform fee) or return to the depositors on a tie or cancellation.  Every
//! state transition, every balance-affecting computation, and the rating
//! update are verified: transitions either succeed with exactly the effects
//! stated in their contracts or fail with a definite error and no state
//! change.
//!
//! The asset-transfer primitive, persistence, and signer authentication are
//! external collaborators: callers authenticate identities, supply the clock,
//! and mirror the token-account balance changes recorded here onto the real
//! ledger.

pub mod accounting;
pub mod errors;
pub mod events;
pub mod instructions;
pub mod laws;
pub mod rating;
pub mod state;
