//! The ledger's laws, proved over the transition functions of
//! [`crate::state`]. Together with the invariant-preservation lemmas there,
//! they pin down the behaviour of every reachable election state.

use vstd::prelude::*;

verus! {

use crate::state::{
    cast_vote_next, cast_vote_result, close_voting_next, close_voting_result, folio_index,
    has_folio, lemma_closed_all_counted, vote_for, well_formed, StateModel,
};
use crate::types::{Event, Vote, VotingError};

/// On an open election, a valid vote — unused folio, caller without a prior
/// vote, non-zero candidate — succeeds, and afterwards the folio is used,
/// the caller has voted, and the folio's record is exactly the cast vote.
pub proof fn lemma_cast_vote_records(
    m: StateModel,
    caller: u64,
    folio: u32,
    candidate_id: u32,
    is_coalition: bool,
)
    requires
        well_formed(m),
        !m.voting_closed,
        !m.folio_used.contains(folio),
        !m.has_voted.contains(caller),
        candidate_id > 0,
    ensures
        cast_vote_result(m, caller, folio, candidate_id, is_coalition) == Result::<
            Event,
            VotingError,
        >::Ok(Event::VoteCast { folio, candidate_id, voter: caller, is_coalition }),
        cast_vote_next(m, caller, folio, candidate_id, is_coalition).folio_used.contains(folio),
        cast_vote_next(m, caller, folio, candidate_id, is_coalition).has_voted.contains(caller),
        vote_for(cast_vote_next(m, caller, folio, candidate_id, is_coalition), folio) == Some(
            Vote { folio, candidate_id, voter: caller, is_coalition },
        ),
{
    let m2 = cast_vote_next(m, caller, folio, candidate_id, is_coalition);
    let n = m.votes.len() as int;
    assert(m2.folio_used[n] == folio);
    assert(m2.has_voted[n] == caller);
    assert(m2.votes[n].folio == folio);
    assert(has_folio(m2.votes, folio));
    let w = folio_index(m2.votes, folio);
    assert(0 <= w < m2.votes.len() && m2.votes[w].folio == folio);
    assert forall|i: int| 0 <= i < n implies (#[trigger] m2.votes[i]).folio != folio by {
        assert(m.folio_used[i] == m.votes[i].folio);
        assert(m.folio_used[i] != folio);
    }
    assert(w == n);
}

/// Failure is idempotent over folios: after a vote occupies a folio, any
/// further `cast_vote` on that folio — whatever the caller, candidate or
/// flag — fails with `FolioAlreadyUsed` and leaves the state exactly as it
/// was after the first vote.
pub proof fn lemma_folio_reuse_rejected(
    m: StateModel,
    caller1: u64,
    caller2: u64,
    folio: u32,
    candidate_id1: u32,
    candidate_id2: u32,
    is_coalition1: bool,
    is_coalition2: bool,
)
    requires
        well_formed(m),
        cast_vote_result(m, caller1, folio, candidate_id1, is_coalition1) is Ok,
    ensures
        ({
            let m2 = cast_vote_next(m, caller1, folio, candidate_id1, is_coalition1);
            &&& cast_vote_result(m2, caller2, folio, candidate_id2, is_coalition2) == Result::<
                Event,
                VotingError,
            >::Err(VotingError::FolioAlreadyUsed)
            &&& cast_vote_next(m2, caller2, folio, candidate_id2, is_coalition2) == m2
        }),
{
    let m2 = cast_vote_next(m, caller1, folio, candidate_id1, is_coalition1);
    assert(m2.folio_used[m.folio_used.len() as int] == folio);
    assert(m2.folio_used.contains(folio));
}

/// An identity votes at most once: while the election is open, a caller
/// with a recorded vote is rejected with `AlreadyVoted` on any unused
/// folio, and nothing changes. (On a folio already in use the folio check
/// comes first and reports `FolioAlreadyUsed` instead, and on a closed
/// election the closed check comes first.)
pub proof fn lemma_repeat_voter_rejected(
    m: StateModel,
    caller: u64,
    folio: u32,
    candidate_id: u32,
    is_coalition: bool,
)
    requires
        well_formed(m),
        !m.voting_closed,
        !m.folio_used.contains(folio),
        m.has_voted.contains(caller),
    ensures
        cast_vote_result(m, caller, folio, candidate_id, is_coalition) == Result::<
            Event,
            VotingError,
        >::Err(VotingError::AlreadyVoted),
        cast_vote_next(m, caller, folio, candidate_id, is_coalition) == m,
{
}

/// A zero candidate id is never recorded: the call fails and mutates
/// nothing, whatever the caller, folio or flag; and whenever the earlier
/// checks pass — open election, unused folio, fresh caller — the reported
/// error is `InvalidCandidateId`.
pub proof fn lemma_zero_candidate_rejected(m: StateModel, caller: u64, folio: u32, is_coalition: bool)
    requires
        well_formed(m),
    ensures
        cast_vote_result(m, caller, folio, 0, is_coalition) is Err,
        cast_vote_next(m, caller, folio, 0, is_coalition) == m,
        !m.voting_closed && !m.folio_used.contains(folio) && !m.has_voted.contains(caller)
            ==> cast_vote_result(m, caller, folio, 0, is_coalition) == Result::<
            Event,
            VotingError,
        >::Err(VotingError::InvalidCandidateId),
{
}

/// The unanimity gate: once every member of a non-empty validator set has
/// been counted toward closure, the election is closed.
pub proof fn lemma_unanimity_closes(m: StateModel)
    requires
        well_formed(m),
        m.validators.len() > 0,
        forall|i: int|
            0 <= i < m.validators.len() ==> m.closure_voters.contains(
                #[trigger] m.validators[i],
            ),
    ensures
        m.voting_closed,
{
    broadcast use vstd::seq_lib::seq_to_set_is_finite;

    m.closure_voters.unique_seq_to_set();
    m.validators.unique_seq_to_set();
    assert forall|x: u64| m.validators.to_set().contains(x) implies m.closure_voters.to_set().contains(x) by {
        let i = choose|i: int| 0 <= i < m.validators.len() && m.validators[i] == x;
        assert(m.closure_voters.contains(m.validators[i]));
    }
    vstd::set_lib::lemma_len_subset(m.validators.to_set(), m.closure_voters.to_set());
    assert forall|x: u64| m.closure_voters.to_set().contains(x) implies m.validators.to_set().contains(x) by {
        let i = choose|i: int| 0 <= i < m.closure_voters.len() && m.closure_voters[i] == x;
        assert(m.validators.contains(m.closure_voters[i]));
    }
    vstd::set_lib::lemma_len_subset(m.closure_voters.to_set(), m.validators.to_set());
}

/// Closed is terminal: on a closed election every `cast_vote` fails with
/// `VotingIsClosed`, every `close_voting` leaves the state unchanged, and
/// no further `VotingClosed` notification is ever emitted — the single
/// notification of the closing call stays the only one.
pub proof fn lemma_closed_is_terminal(
    m: StateModel,
    caller: u64,
    folio: u32,
    candidate_id: u32,
    is_coalition: bool,
)
    requires
        well_formed(m),
        m.voting_closed,
    ensures
        cast_vote_result(m, caller, folio, candidate_id, is_coalition) == Result::<
            Event,
            VotingError,
        >::Err(VotingError::VotingIsClosed),
        cast_vote_next(m, caller, folio, candidate_id, is_coalition) == m,
        close_voting_next(m, caller) == m,
        close_voting_result(m, caller) != Result::<Option<Event>, VotingError>::Ok(
            Some(Event::VotingClosed),
        ),
{
    if m.validators.contains(caller) {
        lemma_closed_all_counted(m);
        assert(m.closure_voters.contains(caller));
    }
}

/// A caller outside the validator set never closes anything: the call
/// fails with `NotValidator` and the state — the closure count included —
/// is unchanged.
pub proof fn lemma_non_validator_rejected(m: StateModel, caller: u64)
    requires
        !m.validators.contains(caller),
    ensures
        close_voting_result(m, caller) == Result::<Option<Event>, VotingError>::Err(
            VotingError::NotValidator,
        ),
        close_voting_next(m, caller) == m,
{
}

} // verus!
