use voting_app::ballot;
use voting_app::records::{Proposal, VoterInfo, VotingError, MAX_DESCRIPTION_SIZE};
use voting_app::store::ProposalStore;

const NOW: i64 = 1_700_000_000;

#[test]
fn two_distinct_voters_both_count() {
    let mut store = ProposalStore::new();
    let id = store.create_proposal(7, String::from("Upgrade treasury"), NOW + 3600);
    assert_eq!(store.cast_vote(id, 1, true, NOW), Ok(()));
    assert_eq!(store.cast_vote(id, 2, true, NOW), Ok(()));
    assert_eq!(store.get_results(id), (2, 0));
}

#[test]
fn second_vote_by_same_voter_is_rejected() {
    let mut store = ProposalStore::new();
    let id = store.create_proposal(7, String::from("Upgrade treasury"), NOW + 3600);
    assert_eq!(store.cast_vote(id, 42, true, NOW), Ok(()));
    assert_eq!(store.cast_vote(id, 42, true, NOW), Err(VotingError::AlreadyVoted));
    assert_eq!(store.get_results(id), (1, 0));
}

#[test]
fn expired_proposal_rejects_every_vote() {
    let mut store = ProposalStore::new();
    let id = store.create_proposal(7, String::from("Too late"), NOW - 1);
    assert_eq!(store.cast_vote(id, 1, true, NOW), Err(VotingError::VoteExpired));
    assert_eq!(store.cast_vote(id, 2, false, NOW), Err(VotingError::VoteExpired));
    assert_eq!(store.get_results(id), (0, 0));
}

#[test]
fn vote_at_the_expiration_instant_is_rejected() {
    let mut store = ProposalStore::new();
    let id = store.create_proposal(7, String::from("Boundary"), NOW);
    assert_eq!(store.cast_vote(id, 1, true, NOW), Err(VotingError::VoteExpired));
    assert_eq!(store.cast_vote(id, 1, true, NOW - 1), Ok(()));
    assert_eq!(store.get_results(id), (1, 0));
}

#[test]
fn results_count_yes_and_no_votes_exactly() {
    let mut store = ProposalStore::new();
    let id = store.create_proposal(9, String::from("Mixed"), NOW + 100);
    assert_eq!(store.cast_vote(id, 1, true, NOW), Ok(()));
    assert_eq!(store.cast_vote(id, 2, false, NOW), Ok(()));
    assert_eq!(store.cast_vote(id, 3, true, NOW), Ok(()));
    assert_eq!(store.get_results(id), (2, 1));
}

#[test]
fn failing_vote_retried_fails_identically() {
    let mut store = ProposalStore::new();
    let id = store.create_proposal(7, String::from("Stale"), NOW - 10);
    let first = store.cast_vote(id, 5, true, NOW);
    let second = store.cast_vote(id, 5, true, NOW);
    assert_eq!(first, Err(VotingError::VoteExpired));
    assert_eq!(second, first);
    assert_eq!(store.get_results(id), (0, 0));

    let open = store.create_proposal(7, String::from("Open"), NOW + 100);
    assert_eq!(store.cast_vote(open, 5, true, NOW), Ok(()));
    let third = store.cast_vote(open, 5, false, NOW);
    let fourth = store.cast_vote(open, 5, false, NOW);
    assert_eq!(third, Err(VotingError::AlreadyVoted));
    assert_eq!(fourth, third);
    assert_eq!(store.get_results(open), (1, 0));
}

#[test]
fn proposals_are_independent() {
    let mut store = ProposalStore::new();
    let a = store.create_proposal(1, String::from("First"), NOW + 100);
    let b = store.create_proposal(2, String::from("Second"), NOW + 100);
    assert_eq!(store.cast_vote(a, 5, true, NOW), Ok(()));
    assert_eq!(store.cast_vote(b, 5, false, NOW), Ok(()));
    assert_eq!(store.cast_vote(b, 5, false, NOW), Err(VotingError::AlreadyVoted));
    assert_eq!(store.get_results(a), (1, 0));
    assert_eq!(store.get_results(b), (0, 1));
}

#[test]
fn tallies_never_decrease_across_operations() {
    let mut store = ProposalStore::new();
    let id = store.create_proposal(1, String::from("Monotone"), NOW + 100);
    let mut last = store.get_results(id);
    let attempts: Vec<(u64, bool, i64)> = vec![
        (1, true, NOW),
        (1, true, NOW),
        (2, false, NOW),
        (3, true, NOW + 200),
        (4, true, NOW),
    ];
    for (voter, vote, at) in attempts {
        let _ = store.cast_vote(id, voter, vote, at);
        let next = store.get_results(id);
        assert!(next.0 >= last.0 && next.1 >= last.1);
        last = next;
    }
    assert_eq!(last, (2, 1));
}

#[test]
fn record_level_ballot_follows_the_same_rules() {
    let mut proposal = Proposal::new(3, String::from("Direct"), NOW + 50);
    let mut voter = VoterInfo { voted: false };
    assert_eq!(ballot::cast_vote(&mut proposal, &mut voter, false, NOW), Ok(()));
    assert!(voter.voted);
    assert_eq!(ballot::get_results(&proposal), (0, 1));
    assert_eq!(
        ballot::cast_vote(&mut proposal, &mut voter, true, NOW),
        Err(VotingError::AlreadyVoted)
    );
    assert_eq!(
        ballot::cast_vote(&mut proposal, &mut voter, true, NOW + 50),
        Err(VotingError::VoteExpired)
    );
    assert_eq!(ballot::get_results(&proposal), (0, 1));
}

#[test]
fn description_at_the_maximum_length_is_stored() {
    let text = "d".repeat(MAX_DESCRIPTION_SIZE);
    let proposal = Proposal::new(1, text.clone(), NOW + 1);
    assert_eq!(proposal.description, text);
    assert_eq!(proposal.authority, 1);
    assert_eq!(proposal.expiration, NOW + 1);
    assert_eq!(proposal.yes_votes, 0);
    assert_eq!(proposal.no_votes, 0);
}
