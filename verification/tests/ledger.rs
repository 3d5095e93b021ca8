use voting_ledger::{Event, Ledger, Vote, VotingError};

fn open_ledger(validators: Vec<u64>) -> Ledger {
    Ledger::new(validators, 0)
}

#[test]
fn valid_vote_is_recorded() {
    let mut ledger = open_ledger(vec![1, 2, 3]);
    let r = ledger.cast_vote(100, 7, 3, false);
    assert_eq!(
        r,
        Ok(Event::VoteCast { folio: 7, candidate_id: 3, voter: 100, is_coalition: false })
    );
    assert!(ledger.folio_used(7));
    assert!(ledger.has_voted(100));
    assert_eq!(
        ledger.votes(7),
        Some(Vote { folio: 7, candidate_id: 3, voter: 100, is_coalition: false })
    );
}

#[test]
fn coalition_flag_is_recorded_verbatim() {
    let mut ledger = open_ledger(vec![1]);
    let r = ledger.cast_vote(100, 7, 3, true);
    assert_eq!(
        r,
        Ok(Event::VoteCast { folio: 7, candidate_id: 3, voter: 100, is_coalition: true })
    );
    assert_eq!(
        ledger.votes(7),
        Some(Vote { folio: 7, candidate_id: 3, voter: 100, is_coalition: true })
    );
}

#[test]
fn folio_reuse_fails_and_mutates_nothing() {
    let mut ledger = open_ledger(vec![1, 2, 3]);
    assert!(ledger.cast_vote(100, 7, 3, false).is_ok());
    let second = ledger.cast_vote(200, 7, 4, true);
    assert_eq!(second, Err(VotingError::FolioAlreadyUsed));
    // State identical to after the first call: the first vote stands, the
    // second caller is not marked as having voted.
    assert_eq!(
        ledger.votes(7),
        Some(Vote { folio: 7, candidate_id: 3, voter: 100, is_coalition: false })
    );
    assert!(!ledger.has_voted(200));
    // Same caller, same folio: the folio check still comes first.
    let third = ledger.cast_vote(100, 7, 5, false);
    assert_eq!(third, Err(VotingError::FolioAlreadyUsed));
}

#[test]
fn repeat_voter_fails_and_mutates_nothing() {
    let mut ledger = open_ledger(vec![1, 2, 3]);
    assert!(ledger.cast_vote(100, 7, 3, false).is_ok());
    let second = ledger.cast_vote(100, 8, 4, false);
    assert_eq!(second, Err(VotingError::AlreadyVoted));
    assert!(!ledger.folio_used(8));
    assert_eq!(ledger.votes(8), None);
}

#[test]
fn zero_candidate_fails_and_mutates_nothing() {
    let mut ledger = open_ledger(vec![1, 2, 3]);
    let r = ledger.cast_vote(100, 7, 0, true);
    assert_eq!(r, Err(VotingError::InvalidCandidateId));
    assert!(!ledger.folio_used(7));
    assert!(!ledger.has_voted(100));
    assert_eq!(ledger.votes(7), None);
}

#[test]
fn non_validator_cannot_close() {
    let mut ledger = open_ledger(vec![1, 2, 3]);
    let r = ledger.close_voting(9);
    assert_eq!(r, Err(VotingError::NotValidator));
    assert_eq!(ledger.validator_count(), 0);
    assert!(!ledger.voting_closed());
}

#[test]
fn unanimity_closes_voting() {
    let mut ledger = open_ledger(vec![1, 2, 3]);
    assert_eq!(ledger.close_voting(1), Ok(None));
    assert!(!ledger.voting_closed());
    assert_eq!(ledger.close_voting(2), Ok(None));
    assert!(!ledger.voting_closed());
    assert_eq!(ledger.close_voting(3), Ok(Some(Event::VotingClosed)));
    assert!(ledger.voting_closed());
    let r = ledger.cast_vote(100, 7, 3, false);
    assert_eq!(r, Err(VotingError::VotingIsClosed));
    assert!(!ledger.folio_used(7));
}

#[test]
fn repeated_validator_counts_once() {
    let mut ledger = open_ledger(vec![1, 2]);
    assert_eq!(ledger.close_voting(1), Ok(None));
    assert_eq!(ledger.validator_count(), 1);
    assert_eq!(ledger.close_voting(1), Ok(None));
    assert_eq!(ledger.validator_count(), 1);
    assert!(!ledger.voting_closed());
    assert_eq!(ledger.close_voting(2), Ok(Some(Event::VotingClosed)));
    assert!(ledger.voting_closed());
}

#[test]
fn closing_is_terminal() {
    let mut ledger = open_ledger(vec![1]);
    assert_eq!(ledger.close_voting(1), Ok(Some(Event::VotingClosed)));
    assert!(ledger.voting_closed());
    // A late closure call is accepted but emits nothing and changes nothing.
    assert_eq!(ledger.close_voting(1), Ok(None));
    assert!(ledger.voting_closed());
    assert_eq!(ledger.validator_count(), 1);
}

#[test]
fn empty_validator_set_never_closes() {
    let mut ledger = open_ledger(vec![]);
    assert_eq!(ledger.close_voting(1), Err(VotingError::NotValidator));
    assert!(!ledger.voting_closed());
    assert!(ledger.cast_vote(100, 7, 3, false).is_ok());
}

#[test]
fn queries_report_initial_state() {
    let ledger = Ledger::new(vec![4, 5], 42);
    assert_eq!(ledger.voting_start_time(), 42);
    assert_eq!(ledger.validators(), &vec![4, 5]);
    assert_eq!(ledger.validator_count(), 0);
    assert!(!ledger.voting_closed());
    assert!(!ledger.folio_used(0));
    assert!(!ledger.has_voted(0));
    assert_eq!(ledger.votes(0), None);
}

#[test]
fn three_validator_scenario() {
    let mut ledger = open_ledger(vec![1, 2, 3]);
    assert_eq!(ledger.close_voting(1), Ok(None));
    assert_eq!(ledger.validator_count(), 1);
    assert!(!ledger.voting_closed());
    assert_eq!(ledger.close_voting(2), Ok(None));
    assert_eq!(ledger.validator_count(), 2);
    assert!(!ledger.voting_closed());
    let vote = ledger.cast_vote(100, 7, 3, false);
    assert_eq!(
        vote,
        Ok(Event::VoteCast { folio: 7, candidate_id: 3, voter: 100, is_coalition: false })
    );
    assert_eq!(
        ledger.votes(7),
        Some(Vote { folio: 7, candidate_id: 3, voter: 100, is_coalition: false })
    );
    assert_eq!(ledger.close_voting(3), Ok(Some(Event::VotingClosed)));
    assert_eq!(ledger.validator_count(), 3);
    assert!(ledger.voting_closed());
    assert_eq!(ledger.cast_vote(200, 8, 4, false), Err(VotingError::VotingIsClosed));
}

#[test]
fn first_failed_precondition_wins() {
    let mut ledger = open_ledger(vec![1]);
    assert!(ledger.cast_vote(100, 7, 3, false).is_ok());
    // Used folio and repeat voter and zero candidate: the folio check wins.
    assert_eq!(ledger.cast_vote(100, 7, 0, false), Err(VotingError::FolioAlreadyUsed));
    // Repeat voter and zero candidate on a fresh folio: the voter check wins.
    assert_eq!(ledger.cast_vote(100, 8, 0, false), Err(VotingError::AlreadyVoted));
    // After closure everything fails with the closed error.
    assert_eq!(ledger.close_voting(1), Ok(Some(Event::VotingClosed)));
    assert_eq!(ledger.cast_vote(200, 7, 0, false), Err(VotingError::VotingIsClosed));
}
