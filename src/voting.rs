//! Casting votes: eligibility, the once-per-stake-position guard, the weighted
//! tally and the audit chain, applied all together or not at all.
use vstd::prelude::*;
use crate::chain::{VoteEvent, chain_digest, create_leaf_node, event_leaf, fold_root, update_merkle_root};
use crate::error::VoteError;
use crate::lifecycle::{Proposal, Tally, initial_tally};
use crate::stake::{StakeState, eligibility, same_key, verify_voter};

verus! {

/// The mark that a stake position has voted on a proposal.
#[derive(Clone, Copy, Debug, PartialEq, Eq)]
pub struct VoteRecord {
    pub stake_account: [u8; 32],
    pub proposal: [u8; 32],
}

/// The vote records that exist, at most one per (proposal, stake account).
pub struct VoteRecords {
    records: Vec<VoteRecord>,
}

impl View for VoteRecords {
    type V = Seq<VoteRecord>;

    closed spec fn view(&self) -> Seq<VoteRecord> {
        self.records@
    }
}

/// Whether `records` holds a record of `stake_account` voting on `proposal`.
pub open spec fn has_record(records: Seq<VoteRecord>, proposal: Seq<u8>, stake_account: Seq<u8>) -> bool {
    exists|i: int| 0 <= i < records.len() && #[trigger] records[i].proposal@ == proposal
        && records[i].stake_account@ == stake_account
}

/// No two records share a (proposal, stake account) pair.
pub open spec fn keys_unique(records: Seq<VoteRecord>) -> bool {
    forall|i: int, j: int| 0 <= i < j < records.len() ==> !(#[trigger] records[i].proposal@
        == #[trigger] records[j].proposal@ && records[i].stake_account@ == records[j].stake_account@)
}

impl VoteRecords {
    pub open spec fn wf(&self) -> bool {
        keys_unique(self@)
    }

    /// An empty store.
    pub fn new() -> (r: VoteRecords)
        ensures
            r@ == Seq::<VoteRecord>::empty(),
            r.wf(),
    {
        VoteRecords { records: Vec::new() }
    }

    pub fn len(&self) -> (r: usize)
        ensures
            r == self@.len(),
    {
        self.records.len()
    }

    /// Whether `stake_account` has voted on `proposal`.
    pub fn contains(&self, proposal: &[u8; 32], stake_account: &[u8; 32]) -> (r: bool)
        ensures
            r == has_record(self@, proposal@, stake_account@),
    {
        let mut i: usize = 0;
        while i < self.records.len()
            invariant
                0 <= i <= self@.len(),
                self@ == self.records@,
                forall|j: int| 0 <= j < i ==> !(#[trigger] self@[j].proposal@ == proposal@
                    && self@[j].stake_account@ == stake_account@),
            decreases self@.len() - i,
        {
            let rec = &self.records[i];
            if same_key(&rec.proposal, proposal) && same_key(&rec.stake_account, stake_account) {
                assert(self@[i as int].proposal@ == proposal@);
                return true;
            }
            i = i + 1;
        }
        false
    }

    /// Adds `record` unless one with its key is there already; says whether it
    /// added it.
    pub fn create_if_absent(&mut self, record: VoteRecord) -> (r: bool)
        requires
            old(self).wf(),
        ensures
            final(self).wf(),
            r == !has_record(old(self)@, record.proposal@, record.stake_account@),
            r ==> final(self)@ == old(self)@.push(record),
            !r ==> final(self)@ == old(self)@,
    {
        if self.contains(&record.proposal, &record.stake_account) {
            return false;
        }
        self.records.push(record);
        assert forall|i: int, j: int| 0 <= i < j < self@.len() implies !(#[trigger] self@[i].proposal@
            == #[trigger] self@[j].proposal@ && self@[i].stake_account@ == self@[j].stake_account@) by {
            if j == self@.len() - 1 {
                if self@[i].proposal@ == record.proposal@ && self@[i].stake_account@
                    == record.stake_account@ {
                    assert(old(self)@[i].proposal@ == record.proposal@);
                }
            } else {
                assert(old(self)@[i] == self@[i] && old(self)@[j] == self@[j]);
            }
        }
        true
    }
}

/// The accounts that casting a vote involves: the proposal's address, the stake
/// account that votes, and who signs for it.
#[derive(Clone, Copy, Debug, PartialEq, Eq)]
pub struct CastVote {
    pub proposal: [u8; 32],
    pub stake_account: [u8; 32],
    pub voter: [u8; 32],
}

/// The weight that casting counts, or the first reason, in order, that refuses
/// it: the voting period, the proposal's state, the voter's eligibility, and a
/// vote already cast with this stake account.
pub open spec fn cast_outcome(
    proposal: Proposal,
    records: Seq<VoteRecord>,
    ctx: CastVote,
    stake: StakeState,
    expected_validator: Seq<u8>,
    vote: u8,
    now: i64,
) -> Result<u64, VoteError> {
    if proposal.end_time <= now {
        Err(VoteError::VotingPeriodEnded)
    } else if !proposal.is_active {
        Err(VoteError::ProposalInactive)
    } else {
        match eligibility(ctx.voter@, stake, expected_validator, vote) {
            Err(e) => Err(e),
            Ok(w) => if has_record(records, ctx.proposal@, ctx.stake_account@) {
                Err(VoteError::AlreadyVoted)
            } else {
                Ok(w)
            },
        }
    }
}

/// A tally after one more accepted vote: its weight goes to yes (`1`) or no
/// (`0`), the count grows by one, and its leaf is folded into the root.
pub open spec fn apply_vote(t: Tally, e: VoteEvent) -> Tally {
    Tally {
        yes_votes: if e.vote == 1 { t.yes_votes + e.weight } else { t.yes_votes },
        no_votes: if e.vote == 0 { t.no_votes + e.weight } else { t.no_votes },
        vote_count: t.vote_count + 1,
        merkle_root: fold_root(t.merkle_root, event_leaf(e)),
    }
}

/// Whether adding a vote of weight `w` keeps every counter within 64 bits.
pub open spec fn tally_has_room(proposal: Proposal, vote: u8, w: u64) -> bool {
    &&& proposal.vote_count < u64::MAX
    &&& vote == 1 ==> proposal.yes_votes + w <= u64::MAX
    &&& vote == 0 ==> proposal.no_votes + w <= u64::MAX
}

/// Casts `vote` (`1` yes, `0` no) on `proposal` with the stake position
/// `ctx.stake_account`, whose account data decoded to `stake`; only stake
/// delegated to `expected_validator` may vote, and `now` is the current time.
/// On success the vote is recorded and counted; on failure nothing changes.
pub fn cast_vote(
    ctx: &CastVote,
    proposal: &mut Proposal,
    records: &mut VoteRecords,
    stake: &StakeState,
    expected_validator: &[u8; 32],
    vote: u8,
    now: i64,
) -> (r: Result<(), VoteError>)
    requires
        old(records).wf(),
        cast_outcome(*old(proposal), old(records)@, *ctx, *stake, expected_validator@, vote, now) matches Ok(w)
            ==> tally_has_room(*old(proposal), vote, w),
    ensures
        final(records).wf(),
        match cast_outcome(*old(proposal), old(records)@, *ctx, *stake, expected_validator@, vote, now) {
            Ok(w) => {
                &&& r == Ok::<(), VoteError>(())
                &&& final(proposal).same_terms(*old(proposal))
                &&& final(proposal).is_active == old(proposal).is_active
                &&& final(proposal).tally() == apply_vote(
                    old(proposal).tally(),
                    VoteEvent { stake_account: ctx.stake_account, proposal: ctx.proposal, vote, weight: w },
                )
                &&& final(records)@ == old(records)@.push(
                    VoteRecord { stake_account: ctx.stake_account, proposal: ctx.proposal },
                )
            },
            Err(e) => {
                &&& r == Err::<(), VoteError>(e)
                &&& *final(proposal) == *old(proposal)
                &&& final(records)@ == old(records)@
            },
        },
{
    if proposal.end_time <= now {
        return Err(VoteError::VotingPeriodEnded);
    }
    if !proposal.is_active {
        return Err(VoteError::ProposalInactive);
    }
    let weight = match verify_voter(&ctx.voter, stake, expected_validator, vote) {
        Ok(w) => w,
        Err(e) => return Err(e),
    };
    let record = VoteRecord { stake_account: ctx.stake_account, proposal: ctx.proposal };
    if !records.create_if_absent(record) {
        return Err(VoteError::AlreadyVoted);
    }
    if vote == 1 {
        proposal.yes_votes = proposal.yes_votes + weight;
    } else {
        proposal.no_votes = proposal.no_votes + weight;
    }
    proposal.vote_count = proposal.vote_count + 1;
    let leaf = create_leaf_node(&ctx.stake_account, &ctx.proposal, vote, weight);
    proposal.merkle_root = update_merkle_root(&proposal.merkle_root, &leaf);
    Ok(())
}

/// The tally after a history of accepted votes, starting from an empty one.
pub open spec fn tally_after(events: Seq<VoteEvent>) -> Tally
    decreases events.len(),
{
    if events.len() == 0 {
        initial_tally()
    } else {
        apply_vote(tally_after(events.drop_last()), events.last())
    }
}

/// The total weight of a history of votes.
pub open spec fn weight_sum(events: Seq<VoteEvent>) -> int
    decreases events.len(),
{
    if events.len() == 0 {
        0
    } else {
        weight_sum(events.drop_last()) + events.last().weight
    }
}

/// After N accepted votes, each `0` or `1`, the count is N, yes and no together
/// hold the sum of their weights, and the root is the chain of their leaves in
/// order.
pub proof fn lemma_tally_after(events: Seq<VoteEvent>)
    requires
        forall|i: int| 0 <= i < events.len() ==> #[trigger] events[i].vote <= 1,
    ensures
        tally_after(events).vote_count == events.len(),
        tally_after(events).yes_votes + tally_after(events).no_votes == weight_sum(events),
        tally_after(events).merkle_root == chain_digest(events),
    decreases events.len(),
{
    if events.len() > 0 {
        let prefix = events.drop_last();
        assert forall|i: int| 0 <= i < prefix.len() implies #[trigger] prefix[i].vote <= 1 by {
            assert(prefix[i] == events[i]);
        }
        lemma_tally_after(prefix);
        assert(events.last() == events[events.len() - 1]);
    }
}

/// A stake account that has voted on a proposal cannot vote on it again: once a
/// cast is accepted, the same cast on the updated proposal and records is
/// refused as a repeat.
pub proof fn lemma_second_cast_rejected(
    p1: Proposal,
    r1: Seq<VoteRecord>,
    p2: Proposal,
    r2: Seq<VoteRecord>,
    ctx: CastVote,
    stake: StakeState,
    expected_validator: Seq<u8>,
    vote: u8,
    now: i64,
)
    requires
        cast_outcome(p1, r1, ctx, stake, expected_validator, vote, now) is Ok,
        p2.same_terms(p1),
        p2.is_active == p1.is_active,
        r2 == r1.push(VoteRecord { stake_account: ctx.stake_account, proposal: ctx.proposal }),
    ensures
        cast_outcome(p2, r2, ctx, stake, expected_validator, vote, now) == Err::<u64, VoteError>(
            VoteError::AlreadyVoted,
        ),
{
    let i = r1.len() as int;
    assert(r2[i].proposal@ == ctx.proposal@ && r2[i].stake_account@ == ctx.stake_account@);
}

/// A vote option other than `0` and `1` is refused as such on an open proposal,
/// whatever the stake and the records.
pub proof fn lemma_invalid_option_rejected(
    p: Proposal,
    records: Seq<VoteRecord>,
    ctx: CastVote,
    stake: StakeState,
    expected_validator: Seq<u8>,
    vote: u8,
    now: i64,
)
    requires
        vote > 1,
        p.end_time > now,
        p.is_active,
    ensures
        cast_outcome(p, records, ctx, stake, expected_validator, vote, now) == Err::<u64, VoteError>(
            VoteError::InvalidVoteOption,
        ),
{
}

/// Casting at or after a proposal's end time is refused as late; casting before
/// it on a closed proposal is refused as inactive.
pub proof fn lemma_late_or_closed_rejected(
    p: Proposal,
    records: Seq<VoteRecord>,
    ctx: CastVote,
    stake: StakeState,
    expected_validator: Seq<u8>,
    vote: u8,
    now: i64,
)
    ensures
        p.end_time <= now ==> cast_outcome(p, records, ctx, stake, expected_validator, vote, now)
            == Err::<u64, VoteError>(VoteError::VotingPeriodEnded),
        p.end_time > now && !p.is_active ==> cast_outcome(p, records, ctx, stake, expected_validator, vote, now)
            == Err::<u64, VoteError>(VoteError::ProposalInactive),
{
}

} // verus!
