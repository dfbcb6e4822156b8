use vstd::prelude::*;

verus! {

/// Why an operation was rejected. A rejected operation changes nothing.
#[derive(Clone, Copy, Debug, PartialEq, Eq, Structural)]
pub enum VoteError {
    UnauthorizedVoter,
    InvalidVoteOption,
    InvalidStakeAccount,
    AlreadyVoted,
    UnauthorizedAction,
    VotingPeriodEnded,
    ProposalInactive,
    ProposalIdTooLong,
    TitleTooLong,
    DescriptionTooLong,
    InvalidEndTime,
    NotDelegatedToValidator,
}

impl VoteError {
    /// The message shown to a caller for this error.
    pub fn message(&self) -> (r: &'static str) {
        match self {
            VoteError::UnauthorizedVoter => "Unauthorized voter",
            VoteError::InvalidVoteOption => "Invalid vote option - must be 0 or 1",
            VoteError::InvalidStakeAccount => "Invalid stake account - must be initialized stake account",
            VoteError::AlreadyVoted => "This stake account has already voted",
            VoteError::UnauthorizedAction => "Unauthorized action",
            VoteError::VotingPeriodEnded => "Voting period has ended",
            VoteError::ProposalInactive => "Proposal is no longer active",
            VoteError::ProposalIdTooLong => "Proposal ID too long - maximum 32 characters",
            VoteError::TitleTooLong => "Title too long - maximum 64 characters",
            VoteError::DescriptionTooLong => "Description too long - maximum 256 characters",
            VoteError::InvalidEndTime => "End time must be in the future",
            VoteError::NotDelegatedToValidator => "Stake account is not delegated to the validator",
        }
    }
}

} // verus!
