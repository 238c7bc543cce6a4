//! The record types of the voting core: proposals, per-voter markers and the
//! error taxonomy shared by both ballot variants.

use vstd::prelude::*;

verus! {

/// Upper bound on a proposal description, in characters.
pub const MAX_DESCRIPTION_SIZE: usize = 280;

/// A voteable subject: immutable metadata plus two monotone tallies.
pub struct Proposal {
    /// Identity of the creator; immutable after creation.
    pub authority: u64,
    /// What the proposal is about; immutable after creation.
    pub description: String,
    /// Absolute instant; votes are accepted only strictly before it.
    pub expiration: i64,
    /// Number of yes units cast so far.
    pub yes_votes: u64,
    /// Number of no units cast so far.
    pub no_votes: u64,
}

/// Mathematical image of a [`Proposal`]: the same fields over `Seq<char>`
/// and `int`, the form the contracts speak of.
#[verifier::ext_equal]
pub struct ProposalView {
    pub authority: u64,
    pub description: Seq<char>,
    pub expiration: int,
    pub yes_votes: int,
    pub no_votes: int,
}

impl View for Proposal {
    type V = ProposalView;

    open spec fn view(&self) -> ProposalView {
        ProposalView {
            authority: self.authority,
            description: self.description@,
            expiration: self.expiration as int,
            yes_votes: self.yes_votes as int,
            no_votes: self.no_votes as int,
        }
    }
}

impl Proposal {
    /// Allocates a fresh proposal: metadata stored verbatim, both tallies zero.
    pub fn new(authority: u64, description: String, expiration: i64) -> (p: Proposal)
        requires
            description@.len() <= MAX_DESCRIPTION_SIZE,
        ensures
            p@ == (ProposalView {
                authority,
                description: description@,
                expiration: expiration as int,
                yes_votes: 0,
                no_votes: 0,
            }),
    {
        Proposal { authority, description, expiration, yes_votes: 0, no_votes: 0 }
    }
}

/// Per-(proposal, voter) marker of the identity-gated variant: set exactly
/// once, never reset; its presence bars a second ballot.
#[derive(Clone, Copy, Debug, PartialEq, Eq, Structural)]
pub struct VoterInfo {
    pub voted: bool,
}

/// Why a ballot was rejected. Every error is reported before any mutation:
/// a failing operation leaves every record exactly as it was.
#[derive(Clone, Copy, Debug, PartialEq, Eq, Structural)]
pub enum VotingError {
    /// The vote arrived at or after the proposal's expiration.
    VoteExpired,
    /// Identity-gated variant: this voter's record is already marked.
    AlreadyVoted,
    /// Weight-gated variant: the voter's balance is zero.
    InsufficientTokens,
}

} // verus!
