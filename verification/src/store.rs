//! The proposal store of the identity-gated variant: it owns the proposal
//! records and the per-(proposal, voter) records, keys voter records by the
//! pair, and mediates every mutation through the ballot engine. Its
//! well-formedness invariant ties each proposal's tallies to the number of
//! its voters marked as having voted, which is what makes the replay guard
//! bound the tallies.

use vstd::prelude::*;

use crate::ballot;
use crate::ballot::tally_with;
use crate::records::{Proposal, ProposalView, VoterInfo, VotingError, MAX_DESCRIPTION_SIZE};

verus! {

/// One per-(proposal, voter) record, keyed by the pair. Created lazily on a
/// voter's first accepted ballot for a proposal; never removed.
#[derive(Clone, Copy, Debug, PartialEq, Eq, Structural)]
pub struct VoterEntry {
    /// Handle of the proposal this record belongs to.
    pub proposal_id: usize,
    /// The voter's identity token.
    pub voter: u64,
    /// The replay marker itself.
    pub info: VoterInfo,
}

/// What one record contributes to a proposal's tallies: one unit when it
/// belongs to the proposal and is marked voted, nothing otherwise.
pub open spec fn ballot_weight(e: VoterEntry, pid: int) -> int {
    if e.proposal_id as int == pid && e.info.voted {
        1int
    } else {
        0int
    }
}

/// How many records of a run belong to proposal `pid` and are marked voted.
pub open spec fn count_voted(s: Seq<VoterEntry>, pid: int) -> int
    decreases s.len(),
{
    if s.len() == 0 {
        0int
    } else {
        count_voted(s.drop_last(), pid) + ballot_weight(s.last(), pid)
    }
}

proof fn lemma_count_voted_push(s: Seq<VoterEntry>, e: VoterEntry, pid: int)
    ensures
        count_voted(s.push(e), pid) == count_voted(s, pid) + ballot_weight(e, pid),
{
    assert(s.push(e).drop_last() =~= s);
}

proof fn lemma_count_voted_update(s: Seq<VoterEntry>, i: int, e: VoterEntry, pid: int)
    requires
        0 <= i < s.len(),
    ensures
        count_voted(s.update(i, e), pid) == count_voted(s, pid) - ballot_weight(s[i], pid)
            + ballot_weight(e, pid),
    decreases s.len(),
{
    let su = s.update(i, e);
    if i == s.len() - 1 {
        assert(su.drop_last() =~= s.drop_last());
        assert(su.last() == e);
    } else {
        assert(su.drop_last() =~= s.drop_last().update(i, e));
        assert(su.last() == s.last());
        lemma_count_voted_update(s.drop_last(), i, e, pid);
    }
}

proof fn lemma_count_voted_le_len(s: Seq<VoterEntry>, pid: int)
    ensures
        0 <= count_voted(s, pid) <= s.len(),
    decreases s.len(),
{
    if s.len() > 0 {
        lemma_count_voted_le_len(s.drop_last(), pid);
    }
}

proof fn lemma_count_voted_skips_unvoted(s: Seq<VoterEntry>, i: int, pid: int)
    requires
        0 <= i < s.len(),
        ballot_weight(s[i], pid) == 0,
    ensures
        count_voted(s, pid) <= s.len() - 1,
    decreases s.len(),
{
    if i == s.len() - 1 {
        lemma_count_voted_le_len(s.drop_last(), pid);
    } else {
        lemma_count_voted_skips_unvoted(s.drop_last(), i, pid);
    }
}

proof fn lemma_count_voted_no_matching(s: Seq<VoterEntry>, pid: int)
    requires
        forall|j: int| 0 <= j < s.len() ==> (#[trigger] s[j].proposal_id) as int != pid,
    ensures
        count_voted(s, pid) == 0,
    decreases s.len(),
{
    if s.len() > 0 {
        lemma_count_voted_no_matching(s.drop_last(), pid);
    }
}

/// Creates and holds the records; all mutation goes through its two
/// operations, so the invariant below holds of every reachable store.
pub struct ProposalStore {
    proposals: Vec<Proposal>,
    voters: Vec<VoterEntry>,
}

impl ProposalStore {
    /// How many proposals have been created.
    pub closed spec fn num_proposals(&self) -> int {
        self.proposals@.len() as int
    }

    /// How many per-voter records exist, over all proposals.
    pub closed spec fn num_voter_records(&self) -> int {
        self.voters@.len() as int
    }

    /// The mathematical image of the proposal with handle `id`.
    pub closed spec fn proposal_view(&self, id: int) -> ProposalView
        recommends
            0 <= id < self.num_proposals(),
    {
        self.proposals@[id]@
    }

    /// Whether this voter's ballot for this proposal has been accepted.
    pub closed spec fn has_voted(&self, pid: int, voter: u64) -> bool {
        exists|j: int|
            0 <= j < self.voters@.len() && (#[trigger] self.voters@[j]).proposal_id as int == pid
                && self.voters@[j].voter == voter && self.voters@[j].info.voted
    }

    /// Well-formedness: at most one record per (proposal, voter) pair, every
    /// record points at an existing proposal, and each proposal's tallies
    /// sum to exactly the number of its records marked voted.
    pub closed spec fn wf(&self) -> bool {
        &&& forall|i: int, j: int|
            0 <= i < j < self.voters@.len() ==> !((#[trigger] self.voters@[i]).proposal_id == (
            #[trigger] self.voters@[j]).proposal_id && self.voters@[i].voter
                == self.voters@[j].voter)
        &&& forall|j: int|
            0 <= j < self.voters@.len() ==> ((#[trigger] self.voters@[j]).proposal_id as int)
                < self.num_proposals()
        &&& forall|k: int|
            0 <= k < self.num_proposals() ==> (#[trigger] self.proposal_view(k)).yes_votes
                + self.proposal_view(k).no_votes == count_voted(self.voters@, k)
    }

    /// An empty store: no proposals, no voter records, nobody has voted.
    pub fn new() -> (s: ProposalStore)
        ensures
            s.wf(),
            s.num_proposals() == 0,
            s.num_voter_records() == 0,
            forall|p: int, v: u64| !(#[trigger] s.has_voted(p, v)),
    {
        ProposalStore { proposals: Vec::new(), voters: Vec::new() }
    }

    /// Allocates a new proposal: the metadata is stored verbatim, both
    /// tallies start at zero, and the handle of the new record is returned.
    /// Nothing else changes — older proposals and every voter record are
    /// kept as they were.
    pub fn create_proposal(&mut self, authority: u64, description: String, expiration: i64) -> (id:
        usize)
        requires
            old(self).wf(),
            description@.len() <= MAX_DESCRIPTION_SIZE,
        ensures
            final(self).wf(),
            id as int == old(self).num_proposals(),
            final(self).num_proposals() == old(self).num_proposals() + 1,
            final(self).proposal_view(id as int) == (ProposalView {
                authority,
                description: description@,
                expiration: expiration as int,
                yes_votes: 0,
                no_votes: 0,
            }),
            forall|k: int|
                0 <= k < old(self).num_proposals() ==> final(self).proposal_view(k) == old(
                    self,
                ).proposal_view(k),
            forall|p: int, v: u64|
                #[trigger] final(self).has_voted(p, v) == old(self).has_voted(p, v),
            final(self).num_voter_records() == old(self).num_voter_records(),
    {
        let id: usize = self.proposals.len();
        let p = Proposal::new(authority, description, expiration);
        self.proposals.push(p);
        proof {
            assert forall|j: int| 0 <= j < self.voters@.len() implies ((
            #[trigger] self.voters@[j]).proposal_id as int) != id as int by {
                assert(((old(self).voters@[j]).proposal_id as int) < old(self).num_proposals());
            }
            lemma_count_voted_no_matching(self.voters@, id as int);
            assert forall|k: int|
                0 <= k < self.num_proposals() implies (#[trigger] self.proposal_view(k)).yes_votes
                + self.proposal_view(k).no_votes == count_voted(self.voters@, k) by {
                if k < id as int {
                    assert(self.proposal_view(k) == old(self).proposal_view(k));
                }
            }
        }
        id
    }

    /// Finds the record of this (proposal, voter) pair, if one exists.
    fn find_record(&self, pid: usize, voter: u64) -> (r: Option<usize>)
        ensures
            self.voters@.len() <= usize::MAX,
            match r {
                Some(i) => (i as int) < self.voters@.len() && self.voters@[i as int].proposal_id
                    == pid && self.voters@[i as int].voter == voter,
                None => forall|j: int|
                    0 <= j < self.voters@.len() ==> !((#[trigger] self.voters@[j]).proposal_id
                        == pid && self.voters@[j].voter == voter),
            },
    {
        let n: usize = self.voters.len();
        let mut k: usize = 0;
        while k < n
            invariant
                k <= n,
                n == self.voters@.len(),
                forall|j: int|
                    0 <= j < k ==> !((#[trigger] self.voters@[j]).proposal_id == pid
                        && self.voters@[j].voter == voter),
            decreases n - k,
        {
            let e = self.voters[k];
            if e.proposal_id == pid && e.voter == voter {
                return Some(k);
            }
            k = k + 1;
        }
        None
    }

    /// Casts one identity-gated ballot. The ballot is accepted exactly when
    /// the proposal is still open and this voter's ballot for it has not
    /// been accepted before; an accepted ballot adds one unit to the chosen
    /// tally and marks the voter, a rejected one reports why and leaves the
    /// whole store exactly as it was. No other proposal and no other
    /// voter's standing is touched either way.
    pub fn cast_vote(&mut self, id: usize, voter: u64, vote: bool, now: i64) -> (r: Result<
        (),
        VotingError,
    >)
        requires
            old(self).wf(),
            (id as int) < old(self).num_proposals(),
        ensures
            final(self).wf(),
            final(self).num_proposals() == old(self).num_proposals(),
            r is Ok <==> (now < old(self).proposal_view(id as int).expiration && !old(
                self,
            ).has_voted(id as int, voter)),
            now >= old(self).proposal_view(id as int).expiration ==> r == Err::<(), VotingError>(
                VotingError::VoteExpired,
            ),
            (now < old(self).proposal_view(id as int).expiration && old(self).has_voted(
                id as int,
                voter,
            )) ==> r == Err::<(), VotingError>(VotingError::AlreadyVoted),
            r is Err ==> *final(self) == *old(self),
            r is Ok ==> final(self).proposal_view(id as int) == tally_with(
                old(self).proposal_view(id as int),
                vote,
                1,
            ),
            r is Ok ==> final(self).has_voted(id as int, voter),
            final(self).proposal_view(id as int).yes_votes >= old(self).proposal_view(
                id as int,
            ).yes_votes,
            final(self).proposal_view(id as int).no_votes >= old(self).proposal_view(
                id as int,
            ).no_votes,
            forall|k: int|
                0 <= k < old(self).num_proposals() && k != id as int
                    ==> final(self).proposal_view(k) == old(self).proposal_view(k),
            forall|p: int, v: u64|
                !(p == id as int && v == voter) ==> #[trigger] final(self).has_voted(p, v) == old(
                    self,
                ).has_voted(p, v),
    {
        let expiration: i64 = self.proposals[id].expiration;
        if now >= expiration {
            return Err(VotingError::VoteExpired);
        }
        let found = self.find_record(id, voter);
        let i: usize = match found {
            Some(i) => i,
            None => {
                let entry = VoterEntry { proposal_id: id, voter, info: VoterInfo { voted: false } };
                proof {
                    assert forall|pid: int| true implies count_voted(
                        self.voters@.push(entry),
                        pid,
                    ) == count_voted(self.voters@, pid) by {
                        lemma_count_voted_push(self.voters@, entry, pid);
                    }
                }
                self.voters.push(entry);
                self.voters.len() - 1
            },
        };
        if self.voters[i].info.voted {
            proof {
                assert(old(self).has_voted(id as int, voter));
            }
            return Err(VotingError::AlreadyVoted);
        }
        let ghost pre = *self;
        proof {
            assert(usize::MAX <= u64::MAX);
            assert(ballot_weight(pre.voters@[i as int], id as int) == 0);
            lemma_count_voted_skips_unvoted(pre.voters@, i as int, id as int);
            assert(pre.proposal_view(id as int).yes_votes + pre.proposal_view(id as int).no_votes
                <= pre.voters@.len() - 1);
        }
        let mut info = self.voters[i].info;
        let res = ballot::cast_vote(&mut self.proposals[id], &mut info, vote, now);
        self.voters[i] = VoterEntry { proposal_id: id, voter, info };
        proof {
            let s0 = old(self).voters@;
            let s1 = pre.voters@;
            let s2 = self.voters@;
            let e1 = VoterEntry { proposal_id: id, voter, info: VoterInfo { voted: true } };
            assert(info == (VoterInfo { voted: true }));
            assert(s2 == s1.update(i as int, e1));
            // the run of records before the mutation: either untouched, or the
            // old run with one fresh unvoted record for this pair at its end
            if found is None {
                assert(s1 == s0.push(
                    VoterEntry { proposal_id: id, voter, info: VoterInfo { voted: false } },
                ));
                assert(s1[i as int].proposal_id == id && s1[i as int].voter == voter);
                assert(forall|j: int| 0 <= j < s0.len() ==> s1[j] == s0[j]);
            } else {
                assert(s1 == s0);
            }
            // no record but the one at i carries this (proposal, voter) pair
            assert forall|j: int|
                0 <= j < s1.len() && j != i as int implies !((#[trigger] s1[j]).proposal_id == id
                && s1[j].voter == voter) by {
                if found is None && j < s0.len() {
                    assert(s1[j] == s0[j]);
                }
            }
            // the mutation kept every (proposal, voter) pair in place
            assert forall|x: int|
                0 <= x < s2.len() implies (#[trigger] s2[x]).proposal_id == s1[x].proposal_id
                && s2[x].voter == s1[x].voter by {
                if x != i as int {
                    assert(s2[x] == s1[x]);
                }
            }
            assert forall|pid: int| true implies count_voted(s2, pid) == count_voted(s1, pid) + (
            if pid == id as int {
                1int
            } else {
                0int
            }) by {
                lemma_count_voted_update(s1, i as int, e1, pid);
            }
            assert(!old(self).has_voted(id as int, voter));
            assert(s2[i as int].proposal_id as int == id as int && s2[i as int].voter == voter
                && s2[i as int].info.voted);
            assert(self.has_voted(id as int, voter));
            // each proposal's tallies still count its voted records
            assert forall|k: int|
                0 <= k < self.num_proposals() implies (#[trigger] self.proposal_view(k)).yes_votes
                + self.proposal_view(k).no_votes == count_voted(s2, k) by {
                assert(pre.proposal_view(k) == old(self).proposal_view(k));
                assert(count_voted(s1, k) == count_voted(s0, k));
                assert(old(self).proposal_view(k).yes_votes + old(self).proposal_view(k).no_votes
                    == count_voted(s0, k));
                if k == id as int {
                    assert(res is Ok);
                    assert(self.proposal_view(k) == tally_with(pre.proposal_view(k), vote, 1));
                } else {
                    assert(self.proposal_view(k) == pre.proposal_view(k));
                    assert(count_voted(s2, k) == count_voted(s1, k));
                }
            }
            assert(self.wf());
            // no other voter's standing moved, in either direction
            assert forall|p: int, v: u64|
                !(p == id as int && v == voter) implies #[trigger] self.has_voted(p, v) == old(
                self,
            ).has_voted(p, v) by {
                if self.has_voted(p, v) {
                    let j = choose|j: int|
                        0 <= j < self.voters@.len() && (#[trigger] self.voters@[j]).proposal_id
                            as int == p && self.voters@[j].voter == v
                            && self.voters@[j].info.voted;
                    assert(j != i as int);
                    assert(s1[j] == s2[j]);
                    if found is None {
                        assert(j != s0.len());
                        assert(s0[j] == s1[j]);
                    }
                    assert(old(self).has_voted(p, v));
                }
                if old(self).has_voted(p, v) {
                    let j = choose|j: int|
                        0 <= j < old(self).voters@.len() && (#[trigger] old(
                            self,
                        ).voters@[j]).proposal_id as int == p && old(self).voters@[j].voter == v
                            && old(self).voters@[j].info.voted;
                    assert(s1[j] == s0[j]);
                    assert(j != i as int);
                    assert(s2[j] == s1[j]);
                    assert(self.has_voted(p, v));
                }
            }
        }
        res
    }

    /// Reads the current results of the proposal with handle `id`: always
    /// exactly its two tallies, with no side effect.
    pub fn get_results(&self, id: usize) -> (r: (u64, u64))
        requires
            (id as int) < self.num_proposals(),
        ensures
            r.0 == self.proposal_view(id as int).yes_votes,
            r.1 == self.proposal_view(id as int).no_votes,
    {
        ballot::get_results(&self.proposals[id])
    }

    /// Law: the replay guard bounds the tallies. In a well-formed store a
    /// proposal's yes and no counts sum to the number of its voters marked
    /// as having voted, so the sum never exceeds the number of voter
    /// records.
    pub proof fn lemma_tallies_bounded_by_voter_records(&self, id: int)
        requires
            self.wf(),
            0 <= id < self.num_proposals(),
        ensures
            0 <= self.proposal_view(id).yes_votes + self.proposal_view(id).no_votes
                <= self.num_voter_records(),
    {
        lemma_count_voted_le_len(self.voters@, id);
    }
}

} // verus!
