//! Stake-weighted governance voting: proposals, one weighted vote per stake
//! position, and a running hash chain that binds every accepted vote.
pub mod chain;
pub mod error;
pub mod lifecycle;
pub mod stake;
pub mod voting;

pub use chain::{VoteEvent, audit_digest, create_leaf_node, update_merkle_root};
pub use error::VoteError;
pub use lifecycle::{CloseProposal, InitializeProposal, Proposal, close_proposal, initialize_proposal};
pub use stake::{StakeSnapshot, StakeState};
pub use voting::{CastVote, VoteRecord, VoteRecords, cast_vote};
