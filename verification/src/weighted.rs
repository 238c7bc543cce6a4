//! The weight-gated ballot variant: a vote adds the voter's current token
//! balance to a tally. There is no per-voter record in this variant, so
//! nothing bars a repeated ballot; the balance itself is read by the caller
//! from whatever oracle holds it and handed in as a plain value.

use vstd::prelude::*;

use crate::records::{Proposal, ProposalView, VotingError};
use crate::ballot::{proposal_open, tally_with};

verus! {

/// The verdict of the weight-gated checks, in the order the engine makes
/// them: expiration first, then the balance.
pub open spec fn cast_vote_weighted_verdict(p: ProposalView, balance: int, now: int) -> Result<
    (),
    VotingError,
> {
    if !proposal_open(p, now) {
        Err(VotingError::VoteExpired)
    } else if balance <= 0 {
        Err(VotingError::InsufficientTokens)
    } else {
        Ok(())
    }
}

/// One weight-gated step as a function of the state and the request: the
/// proposal after the call and the result. A rejected ballot changes nothing.
pub open spec fn cast_vote_weighted_model(p: ProposalView, balance: int, vote: bool, now: int) -> (
    ProposalView,
    Result<(), VotingError>,
) {
    match cast_vote_weighted_verdict(p, balance, now) {
        Ok(()) => (tally_with(p, vote, balance), Ok(())),
        Err(e) => (p, Err(e)),
    }
}

/// Law: tallies only grow. One weight-gated step, accepted or rejected,
/// never decreases either counter, and keeps both non-negative.
pub proof fn lemma_cast_vote_weighted_monotonic(
    p: ProposalView,
    balance: int,
    vote: bool,
    now: int,
)
    requires
        p.yes_votes >= 0,
        p.no_votes >= 0,
        balance >= 0,
    ensures
        cast_vote_weighted_model(p, balance, vote, now).0.yes_votes >= p.yes_votes,
        cast_vote_weighted_model(p, balance, vote, now).0.no_votes >= p.no_votes,
        cast_vote_weighted_model(p, balance, vote, now).0.yes_votes >= 0,
        cast_vote_weighted_model(p, balance, vote, now).0.no_votes >= 0,
{
}

/// Law: a ballot at or after the expiration is rejected as expired and
/// changes nothing, whatever the balance.
pub proof fn lemma_expired_weighted_vote_rejected(
    p: ProposalView,
    balance: int,
    vote: bool,
    now: int,
)
    requires
        now >= p.expiration,
    ensures
        cast_vote_weighted_model(p, balance, vote, now) == (p, Err::<(), VotingError>(
            VotingError::VoteExpired,
        )),
{
}

/// Law: failure is idempotent. A rejected weight-gated step leaves the
/// proposal unchanged, so the identical retry is rejected with the very
/// same error.
pub proof fn lemma_failed_weighted_retry_identical(
    p: ProposalView,
    balance: int,
    vote: bool,
    now: int,
)
    requires
        cast_vote_weighted_model(p, balance, vote, now).1 is Err,
    ensures
        ({
            let (p1, r1) = cast_vote_weighted_model(p, balance, vote, now);
            &&& p1 == p
            &&& cast_vote_weighted_model(p1, balance, vote, now) == (p1, r1)
        }),
{
}

/// Casts one weight-gated ballot of magnitude `voter_balance` against a
/// proposal: exactly the model step, on the live record.
pub fn cast_vote(proposal: &mut Proposal, voter_balance: u64, vote: bool, now: i64) -> (r: Result<
    (),
    VotingError,
>)
    requires
        vote ==> old(proposal).yes_votes + voter_balance <= u64::MAX,
        !vote ==> old(proposal).no_votes + voter_balance <= u64::MAX,
    ensures
        (final(proposal)@, r) == cast_vote_weighted_model(
            old(proposal)@,
            voter_balance as int,
            vote,
            now as int,
        ),
        r is Ok <==> (now < old(proposal).expiration && voter_balance > 0),
        now >= old(proposal).expiration ==> r == Err::<(), VotingError>(VotingError::VoteExpired),
        (now < old(proposal).expiration && voter_balance == 0) ==> r == Err::<(), VotingError>(
            VotingError::InsufficientTokens,
        ),
        r is Err ==> final(proposal)@ == old(proposal)@,
        final(proposal).yes_votes >= old(proposal).yes_votes,
        final(proposal).no_votes >= old(proposal).no_votes,
        final(proposal).authority == old(proposal).authority,
        final(proposal).description@ == old(proposal).description@,
        final(proposal).expiration == old(proposal).expiration,
{
    if now >= proposal.expiration {
        return Err(VotingError::VoteExpired);
    }
    if voter_balance == 0 {
        return Err(VotingError::InsufficientTokens);
    }
    if vote {
        proposal.yes_votes = proposal.yes_votes + voter_balance;
    } else {
        proposal.no_votes = proposal.no_votes + voter_balance;
    }
    Ok(())
}

} // verus!
