//! The executable voting ledger: the two actions and the read-only queries.
//!
//! Each action's contract pins the returned value and the whole successor
//! state to the transition functions of [`crate::state`], so a caller knows
//! exactly which effects were applied and which notification, if any, was
//! emitted.

use vstd::prelude::*;

verus! {

use crate::state::{
    cast_vote_next, cast_vote_result, close_voting_next, close_voting_result, init_state,
    lemma_cast_vote_preserves, lemma_close_voting_preserves, lemma_closed_all_counted,
    lemma_closure_counter_bounded, vote_for, well_formed, StateModel,
};
use crate::types::{Event, Vote, VotingError};

/// Whether the sequence holds the given folio number.
fn seq_holds_u32(v: &Vec<u32>, x: u32) -> (b: bool)
    ensures
        b == v@.contains(x),
{
    let mut k: usize = 0;
    while k < v.len()
        invariant
            0 <= k <= v@.len(),
            forall|j: int| 0 <= j < k ==> v@[j] != x,
        decreases v@.len() - k,
    {
        if v[k] == x {
            return true;
        }
        k = k + 1;
    }
    false
}

/// Whether the sequence holds the given identity.
fn seq_holds_u64(v: &Vec<u64>, x: u64) -> (b: bool)
    ensures
        b == v@.contains(x),
{
    let mut k: usize = 0;
    while k < v.len()
        invariant
            0 <= k <= v@.len(),
            forall|j: int| 0 <= j < k ==> v@[j] != x,
        decreases v@.len() - k,
    {
        if v[k] == x {
            return true;
        }
        k = k + 1;
    }
    false
}

/// One election's state: the recorded votes with their folio and voter
/// indices, the fixed validator set, the validators counted toward closure,
/// the closed flag, and the recorded start height.
pub struct Ledger {
    votes: Vec<Vote>,
    folio_used: Vec<u32>,
    has_voted: Vec<u64>,
    validators: Vec<u64>,
    closure_voters: Vec<u64>,
    voting_closed: bool,
    voting_start_time: u64,
}

impl View for Ledger {
    type V = StateModel;

    closed spec fn view(&self) -> StateModel {
        StateModel {
            votes: self.votes@,
            folio_used: self.folio_used@,
            has_voted: self.has_voted@,
            validators: self.validators@,
            closure_voters: self.closure_voters@,
            voting_closed: self.voting_closed,
            voting_start_time: self.voting_start_time,
        }
    }
}

impl Ledger {
    /// Sets up an open election with the given validator set and start
    /// height. The validator set is a set: each identity appears once.
    pub fn new(validators: Vec<u64>, start_time: u64) -> (ledger: Ledger)
        requires
            validators@.no_duplicates(),
            validators@.len() <= u32::MAX,
        ensures
            ledger@ == init_state(validators@, start_time),
            well_formed(ledger@),
    {
        let ledger = Ledger {
            votes: Vec::new(),
            folio_used: Vec::new(),
            has_voted: Vec::new(),
            validators,
            closure_voters: Vec::new(),
            voting_closed: false,
            voting_start_time: start_time,
        };
        proof {
            assert(ledger@ =~= init_state(ledger.validators@, start_time));
        }
        ledger
    }

    /// Records one vote for `caller` under `folio`, or rejects the call
    /// with the first failed precondition: the election must be open, the
    /// folio unused, the caller without a prior vote, and the candidate id
    /// non-zero. On success all three records are updated together and the
    /// `VoteCast` notification is returned; on failure nothing changes.
    pub fn cast_vote(
        &mut self,
        caller: u64,
        folio: u32,
        candidate_id: u32,
        is_coalition: bool,
    ) -> (r: Result<Event, VotingError>)
        requires
            well_formed(old(self)@),
        ensures
            r == cast_vote_result(old(self)@, caller, folio, candidate_id, is_coalition),
            final(self)@ == cast_vote_next(old(self)@, caller, folio, candidate_id, is_coalition),
            well_formed(final(self)@),
    {
        proof {
            lemma_cast_vote_preserves(self@, caller, folio, candidate_id, is_coalition);
        }
        if self.voting_closed {
            return Result::Err(VotingError::VotingIsClosed);
        }
        if seq_holds_u32(&self.folio_used, folio) {
            return Result::Err(VotingError::FolioAlreadyUsed);
        }
        if seq_holds_u64(&self.has_voted, caller) {
            return Result::Err(VotingError::AlreadyVoted);
        }
        if candidate_id == 0 {
            return Result::Err(VotingError::InvalidCandidateId);
        }
        let vote = Vote { folio, candidate_id, voter: caller, is_coalition };
        self.folio_used.push(folio);
        self.votes.push(vote);
        self.has_voted.push(caller);
        proof {
            assert(self@ =~= cast_vote_next(old(self)@, caller, folio, candidate_id, is_coalition));
        }
        Result::Ok(Event::VoteCast { folio, candidate_id, voter: caller, is_coalition })
    }

    /// Counts `caller` toward closing the election. Only a validator may
    /// call; a validator already counted is accepted again without effect.
    /// The moment every validator has been counted, the election closes
    /// and the single `VotingClosed` notification is returned.
    pub fn close_voting(&mut self, caller: u64) -> (r: Result<Option<Event>, VotingError>)
        requires
            well_formed(old(self)@),
        ensures
            r == close_voting_result(old(self)@, caller),
            final(self)@ == close_voting_next(old(self)@, caller),
            well_formed(final(self)@),
    {
        proof {
            lemma_close_voting_preserves(self@, caller);
        }
        if !self.is_validator(caller) {
            return Result::Err(VotingError::NotValidator);
        }
        if seq_holds_u64(&self.closure_voters, caller) {
            return Result::Ok(None);
        }
        proof {
            if self.voting_closed {
                lemma_closed_all_counted(self@);
                assert(false);
            }
        }
        self.closure_voters.push(caller);
        if self.closure_voters.len() == self.validators.len() {
            self.voting_closed = true;
            proof {
                assert(self@ =~= close_voting_next(old(self)@, caller));
            }
            return Result::Ok(Some(Event::VotingClosed));
        }
        proof {
            assert(self@ =~= close_voting_next(old(self)@, caller));
        }
        Result::Ok(None)
    }

    /// Whether the given folio is already occupied by a recorded vote.
    pub fn folio_used(&self, folio: u32) -> (b: bool)
        ensures
            b == self@.folio_used.contains(folio),
    {
        seq_holds_u32(&self.folio_used, folio)
    }

    /// The vote record occupying the given folio, or `None` for an unused
    /// folio.
    pub fn votes(&self, folio: u32) -> (r: Option<Vote>)
        requires
            well_formed(self@),
        ensures
            r == vote_for(self@, folio),
    {
        let mut k: usize = 0;
        while k < self.votes.len()
            invariant
                0 <= k <= self.votes@.len(),
                well_formed(self@),
                forall|j: int| 0 <= j < k ==> (#[trigger] self.votes@[j]).folio != folio,
            decreases self.votes@.len() - k,
        {
            if self.votes[k].folio == folio {
                proof {
                    let w = crate::state::folio_index(self@.votes, folio);
                    assert(0 <= w < self@.votes.len() && self@.votes[w].folio == folio);
                    assert(w == k as int);
                }
                return Some(self.votes[k]);
            }
            k = k + 1;
        }
        None
    }

    /// Whether the given identity has already cast a vote.
    pub fn has_voted(&self, who: u64) -> (b: bool)
        ensures
            b == self@.has_voted.contains(who),
    {
        seq_holds_u64(&self.has_voted, who)
    }

    /// The fixed validator sequence.
    pub fn validators(&self) -> (v: &Vec<u64>)
        ensures
            v@ == self@.validators,
    {
        &self.validators
    }

    /// How many validators have been counted toward closure so far.
    pub fn validator_count(&self) -> (n: u32)
        requires
            well_formed(self@),
        ensures
            n == self@.closure_voters.len(),
    {
        proof {
            lemma_closure_counter_bounded(self@);
        }
        self.closure_voters.len() as u32
    }

    /// Whether the election has closed.
    pub fn voting_closed(&self) -> (b: bool)
        ensures
            b == self@.voting_closed,
    {
        self.voting_closed
    }

    /// The block height recorded when the election was set up.
    pub fn voting_start_time(&self) -> (t: u64)
        ensures
            t == self@.voting_start_time,
    {
        self.voting_start_time
    }

    /// Whether the given identity is a member of the validator set.
    fn is_validator(&self, who: u64) -> (b: bool)
        ensures
            b == self@.validators.contains(who),
    {
        seq_holds_u64(&self.validators, who)
    }
}

} // verus!
