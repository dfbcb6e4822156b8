//! Proposals: creation with its validation, and closing by the authority.
use vstd::prelude::*;
use crate::chain::{empty_root, zero_root};
use crate::error::VoteError;
use crate::stake::same_key;

verus! {

/// Longest proposal id, in bytes.
pub const MAX_PROPOSAL_ID_LEN: usize = 32;
/// Longest title, in bytes.
pub const MAX_TITLE_LEN: usize = 64;
/// Longest description, in bytes.
pub const MAX_DESCRIPTION_LEN: usize = 256;

/// A governance question and its running tally.
#[derive(Clone, Debug)]
pub struct Proposal {
    pub authority: [u8; 32],
    pub proposal_id: String,
    pub title: String,
    pub description: String,
    pub yes_votes: u64,
    pub no_votes: u64,
    pub end_time: i64,
    pub is_active: bool,
    pub vote_count: u64,
    pub merkle_root: [u8; 32],
}

/// The part of a proposal that votes change.
pub struct Tally {
    pub yes_votes: int,
    pub no_votes: int,
    pub vote_count: int,
    pub merkle_root: Seq<u8>,
}

impl Proposal {
    pub open spec fn tally(&self) -> Tally {
        Tally {
            yes_votes: self.yes_votes as int,
            no_votes: self.no_votes as int,
            vote_count: self.vote_count as int,
            merkle_root: self.merkle_root@,
        }
    }

    /// The fields that no vote changes are those of `other`.
    pub open spec fn same_terms(&self, other: Proposal) -> bool {
        &&& self.authority == other.authority
        &&& self.proposal_id@ == other.proposal_id@
        &&& self.title@ == other.title@
        &&& self.description@ == other.description@
        &&& self.end_time == other.end_time
    }
}

/// The tally of a proposal that no vote has reached.
pub open spec fn initial_tally() -> Tally {
    Tally { yes_votes: 0, no_votes: 0, vote_count: 0, merkle_root: zero_root() }
}

/// The accounts that creating a proposal involves: its creator.
#[derive(Clone, Copy, Debug, PartialEq, Eq)]
pub struct InitializeProposal {
    pub authority: [u8; 32],
}

/// The accounts that closing a proposal involves: who asks for it.
#[derive(Clone, Copy, Debug, PartialEq, Eq)]
pub struct CloseProposal {
    pub authority: [u8; 32],
}

/// The length of a string in UTF-8 bytes.
pub open spec fn byte_len(s: Seq<char>) -> nat {
    vstd::utf8::encode_utf8(s).len()
}

/// Why creating a proposal with these inputs is refused, if it is.
pub open spec fn creation_error(proposal_id: Seq<char>, title: Seq<char>, description: Seq<char>, end_time: i64, now: i64) -> Option<VoteError> {
    if byte_len(proposal_id) > MAX_PROPOSAL_ID_LEN {
        Some(VoteError::ProposalIdTooLong)
    } else if byte_len(title) > MAX_TITLE_LEN {
        Some(VoteError::TitleTooLong)
    } else if byte_len(description) > MAX_DESCRIPTION_LEN {
        Some(VoteError::DescriptionTooLong)
    } else if end_time <= now {
        Some(VoteError::InvalidEndTime)
    } else {
        None
    }
}

/// Creates a proposal owned by `ctx.authority`, open until `end_time`, with an
/// empty tally; `now` is the current time in seconds.
pub fn initialize_proposal(
    ctx: &InitializeProposal,
    proposal_id: String,
    title: String,
    description: String,
    end_time: i64,
    now: i64,
) -> (r: Result<Proposal, VoteError>)
    ensures
        match creation_error(proposal_id@, title@, description@, end_time, now) {
            Some(e) => r == Err::<Proposal, VoteError>(e),
            None => r matches Ok(p) && {
                &&& p.authority == ctx.authority
                &&& p.proposal_id@ == proposal_id@
                &&& p.title@ == title@
                &&& p.description@ == description@
                &&& p.end_time == end_time
                &&& p.is_active
                &&& p.tally() == initial_tally()
            },
        },
{
    if proposal_id.as_str().as_bytes().len() > MAX_PROPOSAL_ID_LEN {
        return Err(VoteError::ProposalIdTooLong);
    }
    if title.as_str().as_bytes().len() > MAX_TITLE_LEN {
        return Err(VoteError::TitleTooLong);
    }
    if description.as_str().as_bytes().len() > MAX_DESCRIPTION_LEN {
        return Err(VoteError::DescriptionTooLong);
    }
    if end_time <= now {
        return Err(VoteError::InvalidEndTime);
    }
    Ok(Proposal {
        authority: ctx.authority,
        proposal_id,
        title,
        description,
        yes_votes: 0,
        no_votes: 0,
        end_time,
        is_active: true,
        vote_count: 0,
        merkle_root: empty_root(),
    })
}

/// Closes a proposal to further votes; only its authority may. Closing a
/// closed proposal again succeeds and leaves it closed.
pub fn close_proposal(ctx: &CloseProposal, proposal: &mut Proposal) -> (r: Result<(), VoteError>)
    ensures
        old(proposal).authority@ == ctx.authority@ ==> {
            &&& r == Ok::<(), VoteError>(())
            &&& *final(proposal) == (Proposal { is_active: false, ..*old(proposal) })
        },
        old(proposal).authority@ != ctx.authority@ ==> {
            &&& r == Err::<(), VoteError>(VoteError::UnauthorizedAction)
            &&& *final(proposal) == *old(proposal)
        },
{
    if !same_key(&proposal.authority, &ctx.authority) {
        return Err(VoteError::UnauthorizedAction);
    }
    proposal.is_active = false;
    Ok(())
}

} // verus!
