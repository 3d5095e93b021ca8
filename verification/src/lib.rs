//! A single-election on-chain voting ledger.
//!
//! Authenticated participants cast one vote each for a candidate within a
//! numbered folio (ballot slot), and a fixed set of validators collectively
//! decides when voting closes. The ledger is a deterministic state machine:
//! each action either applies all of its effects atomically and reports the
//! notifications it emits, or fails with a tagged error and changes nothing.

pub mod laws;
pub mod ledger;
pub mod state;
pub mod types;

pub use ledger::Ledger;
pub use types::{Event, Vote, VotingError};
