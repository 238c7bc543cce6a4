use voting_app::records::{Proposal, VotingError};
use voting_app::weighted;

const NOW: i64 = 1_700_000_000;

#[test]
fn vote_adds_the_voter_balance() {
    let mut proposal = Proposal::new(4, String::from("Weighted"), NOW + 3600);
    assert_eq!(weighted::cast_vote(&mut proposal, 50, false, NOW), Ok(()));
    assert_eq!(voting_app::ballot::get_results(&proposal), (0, 50));
}

#[test]
fn zero_balance_is_rejected_and_changes_nothing() {
    let mut proposal = Proposal::new(4, String::from("Weighted"), NOW + 3600);
    assert_eq!(weighted::cast_vote(&mut proposal, 50, false, NOW), Ok(()));
    assert_eq!(
        weighted::cast_vote(&mut proposal, 0, true, NOW),
        Err(VotingError::InsufficientTokens)
    );
    assert_eq!(voting_app::ballot::get_results(&proposal), (0, 50));
}

#[test]
fn expired_weighted_vote_is_rejected() {
    let mut proposal = Proposal::new(4, String::from("Closed"), NOW - 1);
    assert_eq!(
        weighted::cast_vote(&mut proposal, 50, true, NOW),
        Err(VotingError::VoteExpired)
    );
    assert_eq!(voting_app::ballot::get_results(&proposal), (0, 0));
}

#[test]
fn nothing_bars_a_repeated_weighted_vote() {
    // This variant has no replay guard: each accepted ballot adds the
    // voter's current balance again.
    let mut proposal = Proposal::new(4, String::from("Repeat"), NOW + 3600);
    assert_eq!(weighted::cast_vote(&mut proposal, 10, true, NOW), Ok(()));
    assert_eq!(weighted::cast_vote(&mut proposal, 10, true, NOW), Ok(()));
    assert_eq!(voting_app::ballot::get_results(&proposal), (20, 0));
}

#[test]
fn failing_weighted_vote_retried_fails_identically() {
    let mut proposal = Proposal::new(4, String::from("Broke"), NOW + 3600);
    let first = weighted::cast_vote(&mut proposal, 0, false, NOW);
    let second = weighted::cast_vote(&mut proposal, 0, false, NOW);
    assert_eq!(first, Err(VotingError::InsufficientTokens));
    assert_eq!(second, first);
    assert_eq!(voting_app::ballot::get_results(&proposal), (0, 0));
}
