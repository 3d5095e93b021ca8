//! The mathematical model of the ledger: its state, its well-formedness
//! invariant, and the two state transitions as pure functions. The
//! executable ledger's contracts pin its behaviour to these definitions,
//! and the laws in [`crate::laws`] are proved over them.

use vstd::prelude::*;

verus! {

use crate::types::{Event, Vote, VotingError};

/// The abstract state of one election.
///
/// `folio_used` and `has_voted` mirror `votes` entry for entry: the `i`th
/// used folio and the `i`th recorded voter belong to the `i`th vote. The
/// closure gate is a set of validator identities rather than a bare call
/// counter, so a validator calling `close_voting` repeatedly counts only
/// once toward unanimity.
#[verifier::ext_equal]
pub ghost struct StateModel {
    /// All recorded votes, in the order they were cast.
    pub votes: Seq<Vote>,
    /// The folios occupied so far, one per recorded vote.
    pub folio_used: Seq<u32>,
    /// The identities that have voted, one per recorded vote.
    pub has_voted: Seq<u64>,
    /// The validator identities, fixed when the election is set up.
    pub validators: Seq<u64>,
    /// The distinct validators that have called for closure so far.
    pub closure_voters: Seq<u64>,
    /// Whether the election has closed. Starts false; once true, stays true.
    pub voting_closed: bool,
    /// The block height recorded when the election was set up.
    pub voting_start_time: u64,
}

/// The ledger's invariant: the three vote records agree entry for entry,
/// folios and voters are never recorded twice, every recorded vote names a
/// candidate, the closure voters are distinct validators, and the closed
/// flag is set exactly when every validator has called for closure (on a
/// non-empty validator set).
pub open spec fn well_formed(m: StateModel) -> bool {
    &&& m.folio_used.len() == m.votes.len()
    &&& (forall|i: int| 0 <= i < m.votes.len() ==> m.folio_used[i] == (#[trigger] m.votes[i]).folio)
    &&& m.has_voted.len() == m.votes.len()
    &&& (forall|i: int| 0 <= i < m.votes.len() ==> m.has_voted[i] == (#[trigger] m.votes[i]).voter)
    &&& (forall|i: int, j: int|
        0 <= i < j < m.votes.len() ==> (#[trigger] m.votes[i]).folio != (#[trigger] m.votes[j]).folio)
    &&& (forall|i: int, j: int|
        0 <= i < j < m.votes.len() ==> (#[trigger] m.votes[i]).voter != (#[trigger] m.votes[j]).voter)
    &&& (forall|i: int| 0 <= i < m.votes.len() ==> (#[trigger] m.votes[i]).candidate_id > 0)
    &&& m.validators.no_duplicates()
    &&& m.validators.len() <= u32::MAX
    &&& m.closure_voters.no_duplicates()
    &&& (forall|i: int|
        0 <= i < m.closure_voters.len() ==> m.validators.contains(#[trigger] m.closure_voters[i]))
    &&& (m.voting_closed ==> m.closure_voters.len() == m.validators.len())
    &&& (m.validators.len() > 0 && m.closure_voters.len() == m.validators.len()
        ==> m.voting_closed)
}

/// The state of a freshly set-up election: no votes, no closure calls,
/// open, with the given validator set and start height.
pub open spec fn init_state(validators: Seq<u64>, start_time: u64) -> StateModel {
    StateModel {
        votes: Seq::empty(),
        folio_used: Seq::empty(),
        has_voted: Seq::empty(),
        validators,
        closure_voters: Seq::empty(),
        voting_closed: false,
        voting_start_time: start_time,
    }
}

/// What `cast_vote` returns: the first failed precondition wins, in the
/// fixed order closed, folio, voter, candidate; on success, the emitted
/// `VoteCast` notification.
pub open spec fn cast_vote_result(
    m: StateModel,
    caller: u64,
    folio: u32,
    candidate_id: u32,
    is_coalition: bool,
) -> Result<Event, VotingError> {
    if m.voting_closed {
        Result::Err(VotingError::VotingIsClosed)
    } else if m.folio_used.contains(folio) {
        Result::Err(VotingError::FolioAlreadyUsed)
    } else if m.has_voted.contains(caller) {
        Result::Err(VotingError::AlreadyVoted)
    } else if candidate_id == 0 {
        Result::Err(VotingError::InvalidCandidateId)
    } else {
        Result::Ok(Event::VoteCast { folio, candidate_id, voter: caller, is_coalition })
    }
}

/// The state after `cast_vote`: on success the vote is recorded, the folio
/// marked used and the caller marked as having voted, all together; on any
/// failure the state is unchanged.
pub open spec fn cast_vote_next(
    m: StateModel,
    caller: u64,
    folio: u32,
    candidate_id: u32,
    is_coalition: bool,
) -> StateModel {
    if cast_vote_result(m, caller, folio, candidate_id, is_coalition) is Ok {
        StateModel {
            votes: m.votes.push(Vote { folio, candidate_id, voter: caller, is_coalition }),
            folio_used: m.folio_used.push(folio),
            has_voted: m.has_voted.push(caller),
            ..m
        }
    } else {
        m
    }
}

/// What `close_voting` returns: `NotValidator` for a caller outside the
/// validator set; otherwise success, with the `VotingClosed` notification
/// exactly when this call completes the unanimity gate on an open election.
pub open spec fn close_voting_result(m: StateModel, caller: u64) -> Result<
    Option<Event>,
    VotingError,
> {
    if !m.validators.contains(caller) {
        Result::Err(VotingError::NotValidator)
    } else if !m.closure_voters.contains(caller) && !m.voting_closed && m.closure_voters.len() + 1
        == m.validators.len() {
        Result::Ok(Some(Event::VotingClosed))
    } else {
        Result::Ok(None)
    }
}

/// The state after `close_voting`: a validator not yet counted is added to
/// the closure voters, and the election closes when every validator has
/// been counted; a repeated caller, or a non-validator, changes nothing.
pub open spec fn close_voting_next(m: StateModel, caller: u64) -> StateModel {
    if m.validators.contains(caller) && !m.closure_voters.contains(caller) {
        let voters = m.closure_voters.push(caller);
        StateModel {
            closure_voters: voters,
            voting_closed: m.voting_closed || voters.len() == m.validators.len(),
            ..m
        }
    } else {
        m
    }
}

/// Whether some recorded vote occupies the given folio.
pub open spec fn has_folio(votes: Seq<Vote>, folio: u32) -> bool {
    exists|i: int| 0 <= i < votes.len() && (#[trigger] votes[i]).folio == folio
}

/// The index of the recorded vote occupying the given folio, where one exists.
pub open spec fn folio_index(votes: Seq<Vote>, folio: u32) -> int {
    choose|i: int| 0 <= i < votes.len() && (#[trigger] votes[i]).folio == folio
}

/// The vote record for a folio: `Some` of the unique vote occupying it, or
/// `None` where the folio is unused.
pub open spec fn vote_for(m: StateModel, folio: u32) -> Option<Vote> {
    if has_folio(m.votes, folio) {
        Some(m.votes[folio_index(m.votes, folio)])
    } else {
        None
    }
}

/// The closure counter never exceeds the validator count: the closure
/// voters are distinct identities drawn from the validator set.
pub proof fn lemma_closure_counter_bounded(m: StateModel)
    requires
        well_formed(m),
    ensures
        m.closure_voters.len() <= m.validators.len(),
{
    broadcast use vstd::seq_lib::seq_to_set_is_finite;

    m.closure_voters.unique_seq_to_set();
    m.validators.unique_seq_to_set();
    assert forall|x: u64| m.closure_voters.to_set().contains(x) implies m.validators.to_set().contains(x) by {
        let i = choose|i: int| 0 <= i < m.closure_voters.len() && m.closure_voters[i] == x;
        assert(m.validators.contains(m.closure_voters[i]));
    }
    vstd::set_lib::lemma_len_subset(m.closure_voters.to_set(), m.validators.to_set());
}

/// Once the election is closed, every validator has already been counted
/// toward closure: the closure voters and the validator set coincide.
pub proof fn lemma_closed_all_counted(m: StateModel)
    requires
        well_formed(m),
        m.voting_closed,
    ensures
        forall|v: u64| m.validators.contains(v) ==> m.closure_voters.contains(v),
{
    broadcast use vstd::seq_lib::seq_to_set_is_finite;

    m.closure_voters.unique_seq_to_set();
    m.validators.unique_seq_to_set();
    assert forall|x: u64| m.closure_voters.to_set().contains(x) implies m.validators.to_set().contains(x) by {
        let i = choose|i: int| 0 <= i < m.closure_voters.len() && m.closure_voters[i] == x;
        assert(m.validators.contains(m.closure_voters[i]));
    }
    vstd::set_lib::lemma_subset_equality(m.closure_voters.to_set(), m.validators.to_set());
    assert forall|v: u64| m.validators.contains(v) implies m.closure_voters.contains(v) by {
        assert(m.validators.to_set().contains(v));
        assert(m.closure_voters.to_set().contains(v));
    }
}

/// `cast_vote` preserves the ledger's invariant.
pub proof fn lemma_cast_vote_preserves(
    m: StateModel,
    caller: u64,
    folio: u32,
    candidate_id: u32,
    is_coalition: bool,
)
    requires
        well_formed(m),
    ensures
        well_formed(cast_vote_next(m, caller, folio, candidate_id, is_coalition)),
{
    if cast_vote_result(m, caller, folio, candidate_id, is_coalition) is Ok {
        let m2 = cast_vote_next(m, caller, folio, candidate_id, is_coalition);
        assert forall|i: int, j: int| 0 <= i < j < m2.votes.len() implies (#[trigger] m2.votes[i]).folio
            != (#[trigger] m2.votes[j]).folio by {
            if j == m.votes.len() as int {
                assert(m.folio_used[i] == m.votes[i].folio);
                assert(!m.folio_used.contains(folio));
                assert(m.folio_used[i] != folio);
            }
        }
        assert forall|i: int, j: int| 0 <= i < j < m2.votes.len() implies (#[trigger] m2.votes[i]).voter
            != (#[trigger] m2.votes[j]).voter by {
            if j == m.votes.len() as int {
                assert(m.has_voted[i] == m.votes[i].voter);
                assert(!m.has_voted.contains(caller));
                assert(m.has_voted[i] != caller);
            }
        }
    }
}

/// `close_voting` preserves the ledger's invariant.
pub proof fn lemma_close_voting_preserves(m: StateModel, caller: u64)
    requires
        well_formed(m),
    ensures
        well_formed(close_voting_next(m, caller)),
{
    if m.validators.contains(caller) && !m.closure_voters.contains(caller) {
        if m.voting_closed {
            lemma_closed_all_counted(m);
            assert(m.closure_voters.contains(caller));
            assert(false);
        }
        let m2 = close_voting_next(m, caller);
        assert forall|i: int, j: int|
            0 <= i < m2.closure_voters.len() && 0 <= j < m2.closure_voters.len() && i != j implies
            m2.closure_voters[i] != m2.closure_voters[j] by {
            if i == m.closure_voters.len() as int {
                assert(!m.closure_voters.contains(caller));
                assert(m.closure_voters[j] != caller);
            }
            if j == m.closure_voters.len() as int {
                assert(!m.closure_voters.contains(caller));
                assert(m.closure_voters[i] != caller);
            }
        }
    }
}

} // verus!
