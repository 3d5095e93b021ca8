//! The ledger's record, notification and error types.

use vstd::prelude::*;

verus! {

/// A recorded vote: one per used folio, never updated or deleted.
#[derive(Clone, Copy, PartialEq, Eq, Structural, Debug)]
pub struct Vote {
    /// The ballot slot this vote occupies.
    pub folio: u32,
    /// The candidate voted for; always strictly positive.
    pub candidate_id: u32,
    /// The authenticated identity that cast the vote.
    pub voter: u64,
    /// Recorded verbatim from the caller's input.
    pub is_coalition: bool,
}

/// A notification emitted by a successful action, for external observers.
/// Events carry no control-flow significance within the ledger itself.
#[derive(Clone, Copy, PartialEq, Eq, Structural, Debug)]
pub enum Event {
    /// A vote was recorded: folio, candidate, voter, coalition flag.
    VoteCast {
        /// The folio the vote was recorded under.
        folio: u32,
        /// The candidate voted for.
        candidate_id: u32,
        /// The identity that cast the vote.
        voter: u64,
        /// The coalition flag as supplied by the voter.
        is_coalition: bool,
    },
    /// Voting closed: every validator has called for closure.
    VotingClosed,
}

/// The reason an action was rejected. Every failure is terminal for the
/// triggering call and leaves the ledger unchanged.
#[derive(Clone, Copy, PartialEq, Eq, Structural, Debug)]
pub enum VotingError {
    /// The caller of `close_voting` is not in the validator set.
    NotValidator,
    /// `cast_vote` was attempted after the election closed.
    VotingIsClosed,
    /// The folio is already occupied by a recorded vote.
    FolioAlreadyUsed,
    /// The caller already has a recorded vote.
    AlreadyVoted,
    /// The candidate id is zero.
    InvalidCandidateId,
}

} // verus!
