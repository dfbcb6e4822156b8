//! What the stake ledger reports of a stake position, and who may vote with it.
use vstd::prelude::*;
use crate::error::VoteError;
use anchor_lang::solana_program::stake::state::StakeStateV2;

verus! {

/// A stake position that is delegated: who may withdraw it, to which validator
/// it is delegated, and how much.
#[derive(Clone, Copy, Debug, PartialEq, Eq)]
pub struct StakeSnapshot {
    pub withdrawal_authority: [u8; 32],
    pub delegated_validator: [u8; 32],
    pub delegated_amount: u64,
}

/// A stake account's data, decoded.
#[derive(Clone, Copy, Debug, PartialEq, Eq)]
pub enum StakeState {
    /// A delegated stake position.
    Delegated(StakeSnapshot),
    /// Valid stake account data in any other state (uninitialized,
    /// initialized but not delegated, rewards pool).
    NotDelegated,
    /// Data that is no stake account.
    Malformed,
}

/// What the stake program's account decoding gives for these bytes: `None`
/// where they do not decode, `Some(None)` for a state other than a delegated
/// stake, and `Some(Some((withdrawer, voter, stake)))` for a delegated stake.
pub uninterp spec fn decoded_stake_of(data: Seq<u8>) -> Option<Option<(Seq<u8>, Seq<u8>, u64)>>;

/// The decoded form of a state, in the terms of `decoded_stake_of`.
pub open spec fn stake_state_model(s: StakeState) -> Option<Option<(Seq<u8>, Seq<u8>, u64)>> {
    match s {
        StakeState::Delegated(d) => Some(Some((d.withdrawal_authority@, d.delegated_validator@, d.delegated_amount))),
        StakeState::NotDelegated => Some(None),
        StakeState::Malformed => None,
    }
}

/// Relies on `solana_program::borsh0_10::try_from_slice_unchecked` for
/// `StakeStateV2`: it decodes a stake account's data, trailing bytes allowed.
#[verifier::external_body]
fn decode_stake_account(data: &[u8]) -> (r: StakeState)
    ensures
        stake_state_model(r) == decoded_stake_of(data@),
{
    match anchor_lang::solana_program::borsh0_10::try_from_slice_unchecked::<StakeStateV2>(data) {
        Ok(StakeStateV2::Stake(meta, stake, _)) => StakeState::Delegated(StakeSnapshot {
            withdrawal_authority: meta.authorized.withdrawer.to_bytes(),
            delegated_validator: stake.delegation.voter_pubkey.to_bytes(),
            delegated_amount: stake.delegation.stake,
        }),
        Ok(_) => StakeState::NotDelegated,
        Err(_) => StakeState::Malformed,
    }
}

impl StakeState {
    /// Decodes the data of a stake account.
    pub fn from_account_data(data: &[u8]) -> (r: StakeState)
        ensures
            stake_state_model(r) == decoded_stake_of(data@),
    {
        decode_stake_account(data)
    }
}

/// Whether two account addresses are the same.
pub fn same_key(a: &[u8; 32], b: &[u8; 32]) -> (r: bool)
    ensures
        r == (a@ == b@),
{
    let mut i: usize = 0;
    while i < 32
        invariant
            0 <= i <= 32,
            a@.len() == 32,
            b@.len() == 32,
            forall|j: int| 0 <= j < i ==> a@[j] == b@[j],
        decreases 32 - i,
    {
        if a[i] != b[i] {
            return false;
        }
        i = i + 1;
    }
    assert(a@ =~= b@);
    true
}

/// The outcome of checking a vote: its weight, or the first reason, in the
/// order vote option, withdrawal authority, validator, stake state, that
/// rejects it.
pub open spec fn eligibility(voter: Seq<u8>, stake: StakeState, expected_validator: Seq<u8>, vote: u8) -> Result<u64, VoteError> {
    if vote > 1 {
        Err(VoteError::InvalidVoteOption)
    } else {
        match stake {
            StakeState::Delegated(s) => {
                if s.withdrawal_authority@ != voter {
                    Err(VoteError::UnauthorizedVoter)
                } else if s.delegated_validator@ != expected_validator {
                    Err(VoteError::NotDelegatedToValidator)
                } else {
                    Ok(s.delegated_amount)
                }
            },
            _ => Err(VoteError::InvalidStakeAccount),
        }
    }
}

/// Checks that `voter` may cast `vote` with the stake position `stake` when
/// only stake delegated to `expected_validator` counts; gives the vote's weight.
pub fn verify_voter(voter: &[u8; 32], stake: &StakeState, expected_validator: &[u8; 32], vote: u8) -> (r: Result<u64, VoteError>)
    ensures
        r == eligibility(voter@, *stake, expected_validator@, vote),
{
    if vote > 1 {
        return Err(VoteError::InvalidVoteOption);
    }
    match stake {
        StakeState::Delegated(s) => {
            if !same_key(&s.withdrawal_authority, voter) {
                Err(VoteError::UnauthorizedVoter)
            } else if !same_key(&s.delegated_validator, expected_validator) {
                Err(VoteError::NotDelegatedToValidator)
            } else {
                Ok(s.delegated_amount)
            }
        },
        _ => Err(VoteError::InvalidStakeAccount),
    }
}

} // verus!
