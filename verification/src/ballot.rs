//! The identity-gated ballot engine: one unit per voter per proposal, with
//! replay barred by the voter's record. The transition is stated once as a
//! spec-level model, the executable operation is proved to follow it, and
//! the laws of the engine are proved of the model.

use vstd::prelude::*;

use crate::records::{Proposal, ProposalView, VoterInfo, VotingError};

verus! {

/// Whether the proposal still accepts votes at instant `now`: closure is
/// derived from the clock, never stored.
pub open spec fn proposal_open(p: ProposalView, now: int) -> bool {
    now < p.expiration
}

/// The tallies after one accepted ballot of magnitude `unit`; every other
/// field is kept.
pub open spec fn tally_with(p: ProposalView, vote: bool, unit: int) -> ProposalView {
    if vote {
        ProposalView { yes_votes: p.yes_votes + unit, ..p }
    } else {
        ProposalView { no_votes: p.no_votes + unit, ..p }
    }
}

/// The verdict of the identity-gated checks, in the order the engine makes
/// them: expiration first, then the replay guard.
pub open spec fn cast_vote_verdict(p: ProposalView, voted: bool, now: int) -> Result<
    (),
    VotingError,
> {
    if !proposal_open(p, now) {
        Err(VotingError::VoteExpired)
    } else if voted {
        Err(VotingError::AlreadyVoted)
    } else {
        Ok(())
    }
}

/// One identity-gated step as a function of the state and the request:
/// the proposal after the call, the voter's marker after the call, and the
/// result. A rejected ballot changes nothing.
pub open spec fn cast_vote_model(p: ProposalView, voted: bool, vote: bool, now: int) -> (
    ProposalView,
    bool,
    Result<(), VotingError>,
) {
    match cast_vote_verdict(p, voted, now) {
        Ok(()) => (tally_with(p, vote, 1), true, Ok(())),
        Err(e) => (p, voted, Err(e)),
    }
}

/// Casts one identity-gated ballot against a proposal and this voter's
/// record: exactly the model step, on the live records.
pub fn cast_vote(proposal: &mut Proposal, voter: &mut VoterInfo, vote: bool, now: i64) -> (r:
    Result<(), VotingError>)
    requires
        vote ==> old(proposal).yes_votes < u64::MAX,
        !vote ==> old(proposal).no_votes < u64::MAX,
    ensures
        (final(proposal)@, final(voter).voted, r) == cast_vote_model(
            old(proposal)@,
            old(voter).voted,
            vote,
            now as int,
        ),
        r is Ok <==> (now < old(proposal).expiration && !old(voter).voted),
        now >= old(proposal).expiration ==> r == Err::<(), VotingError>(VotingError::VoteExpired),
        (now < old(proposal).expiration && old(voter).voted) ==> r == Err::<(), VotingError>(
            VotingError::AlreadyVoted,
        ),
        r is Err ==> final(proposal)@ == old(proposal)@ && final(voter).voted == old(voter).voted,
        final(proposal).yes_votes >= old(proposal).yes_votes,
        final(proposal).no_votes >= old(proposal).no_votes,
        final(proposal).authority == old(proposal).authority,
        final(proposal).description@ == old(proposal).description@,
        final(proposal).expiration == old(proposal).expiration,
{
    if now >= proposal.expiration {
        return Err(VotingError::VoteExpired);
    }
    if voter.voted {
        return Err(VotingError::AlreadyVoted);
    }
    if vote {
        proposal.yes_votes = proposal.yes_votes + 1;
    } else {
        proposal.no_votes = proposal.no_votes + 1;
    }
    voter.voted = true;
    Ok(())
}

/// Law: tallies only grow. One identity-gated step, accepted or rejected,
/// never decreases either counter, and keeps both non-negative.
pub proof fn lemma_cast_vote_monotonic(p: ProposalView, voted: bool, vote: bool, now: int)
    requires
        p.yes_votes >= 0,
        p.no_votes >= 0,
    ensures
        cast_vote_model(p, voted, vote, now).0.yes_votes >= p.yes_votes,
        cast_vote_model(p, voted, vote, now).0.no_votes >= p.no_votes,
        cast_vote_model(p, voted, vote, now).0.yes_votes >= 0,
        cast_vote_model(p, voted, vote, now).0.no_votes >= 0,
{
}

/// Law: at most one ballot by the same voter succeeds. After an accepted
/// step the voter's marker is set for good, every later attempt by that
/// voter is rejected, changes nothing, and — while the proposal is still
/// open — is rejected as a replay.
pub proof fn lemma_single_successful_vote(
    p: ProposalView,
    voted: bool,
    vote1: bool,
    now1: int,
    vote2: bool,
    now2: int,
)
    requires
        cast_vote_model(p, voted, vote1, now1).2 is Ok,
    ensures
        ({
            let (p1, voted1, r1) = cast_vote_model(p, voted, vote1, now1);
            let (p2, voted2, r2) = cast_vote_model(p1, voted1, vote2, now2);
            &&& voted1
            &&& voted2
            &&& r2 is Err
            &&& p2 == p1
            &&& now2 < p1.expiration ==> r2 == Err::<(), VotingError>(VotingError::AlreadyVoted)
        }),
{
}

/// Law: once the voter's marker is set, every identity-gated step keeps it
/// set and is rejected.
pub proof fn lemma_voted_is_permanent(p: ProposalView, vote: bool, now: int)
    ensures
        cast_vote_model(p, true, vote, now).1,
        cast_vote_model(p, true, vote, now).2 is Err,
        cast_vote_model(p, true, vote, now).0 == p,
{
}

/// Law: a ballot at or after the expiration is rejected as expired and
/// changes nothing.
pub proof fn lemma_expired_vote_rejected(p: ProposalView, voted: bool, vote: bool, now: int)
    requires
        now >= p.expiration,
    ensures
        cast_vote_model(p, voted, vote, now) == (p, voted, Err::<(), VotingError>(
            VotingError::VoteExpired,
        )),
{
}

/// Law: failure is idempotent. A rejected step leaves the state unchanged,
/// so the identical retry is rejected with the very same error.
pub proof fn lemma_failed_vote_retry_identical(p: ProposalView, voted: bool, vote: bool, now: int)
    requires
        cast_vote_model(p, voted, vote, now).2 is Err,
    ensures
        ({
            let (p1, voted1, r1) = cast_vote_model(p, voted, vote, now);
            &&& p1 == p
            &&& voted1 == voted
            &&& cast_vote_model(p1, voted1, vote, now) == (p1, voted1, r1)
        }),
{
}

/// How many of a run of ballots say yes.
pub open spec fn count_yes(votes: Seq<bool>) -> int
    decreases votes.len(),
{
    if votes.len() == 0 {
        0
    } else {
        count_yes(votes.drop_last()) + if votes.last() {
            1int
        } else {
            0int
        }
    }
}

/// The proposal after a run of accepted identity-gated ballots, one unit
/// each, in order.
pub open spec fn apply_successful_votes(p: ProposalView, votes: Seq<bool>) -> ProposalView
    decreases votes.len(),
{
    if votes.len() == 0 {
        p
    } else {
        tally_with(apply_successful_votes(p, votes.drop_last()), votes.last(), 1)
    }
}

/// Law: the results count the ballots. After any run of accepted ballots
/// the yes tally has grown by exactly the number of yes ballots and the no
/// tally by exactly the number of no ballots — so reading the results after
/// N accepted yes-votes and M accepted no-votes from a fresh proposal gives
/// exactly (N, M).
pub proof fn lemma_results_count_votes(p: ProposalView, votes: Seq<bool>)
    ensures
        apply_successful_votes(p, votes).yes_votes == p.yes_votes + count_yes(votes),
        apply_successful_votes(p, votes).no_votes == p.no_votes + votes.len() - count_yes(votes),
        apply_successful_votes(p, votes).authority == p.authority,
        apply_successful_votes(p, votes).description == p.description,
        apply_successful_votes(p, votes).expiration == p.expiration,
    decreases votes.len(),
{
    if votes.len() > 0 {
        lemma_results_count_votes(p, votes.drop_last());
    }
}

/// Law: an accepted step is exactly one unit ballot. Its new proposal is
/// the old one with a single unit added to the chosen tally, which ties the
/// executable operation to [`apply_successful_votes`] one step at a time.
pub proof fn lemma_successful_vote_tallies(p: ProposalView, voted: bool, vote: bool, now: int)
    requires
        cast_vote_model(p, voted, vote, now).2 is Ok,
    ensures
        cast_vote_model(p, voted, vote, now).0 == tally_with(p, vote, 1),
{
}

/// Reads the current results of a proposal: a pure projection, always
/// exactly the two tallies.
pub fn get_results(proposal: &Proposal) -> (r: (u64, u64))
    ensures
        r.0 == proposal.yes_votes,
        r.1 == proposal.no_votes,
{
    (proposal.yes_votes, proposal.no_votes)
}

} // verus!
