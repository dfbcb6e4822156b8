use anchor_lang::solana_program::hash::hashv;
use voteyourstake::{
    audit_digest, cast_vote, close_proposal, create_leaf_node, initialize_proposal, update_merkle_root,
    CastVote, CloseProposal, InitializeProposal, Proposal, StakeSnapshot, StakeState, VoteError, VoteEvent,
    VoteRecords,
};

const NOW: i64 = 1_700_000_000;
const END: i64 = NOW + 3600;

fn key(b: u8) -> [u8; 32] {
    [b; 32]
}

fn authority() -> [u8; 32] {
    key(1)
}

fn validator() -> [u8; 32] {
    key(9)
}

fn proposal_addr() -> [u8; 32] {
    key(2)
}

fn new_proposal() -> Proposal {
    initialize_proposal(
        &InitializeProposal { authority: authority() },
        "p1".to_string(),
        "Raise fee".to_string(),
        "desc".to_string(),
        END,
        NOW,
    )
    .unwrap()
}

fn delegated(withdrawer: [u8; 32], amount: u64) -> StakeState {
    StakeState::Delegated(StakeSnapshot {
        withdrawal_authority: withdrawer,
        delegated_validator: validator(),
        delegated_amount: amount,
    })
}

fn ctx(stake_account: [u8; 32], voter: [u8; 32]) -> CastVote {
    CastVote { proposal: proposal_addr(), stake_account, voter }
}

fn cast(p: &mut Proposal, recs: &mut VoteRecords, stake_account: u8, voter: u8, amount: u64, vote: u8) -> Result<(), VoteError> {
    cast_vote(
        &ctx(key(stake_account), key(voter)),
        p,
        recs,
        &delegated(key(voter), amount),
        &validator(),
        vote,
        NOW,
    )
}

fn tally(p: &Proposal) -> (u64, u64, u64, [u8; 32]) {
    (p.yes_votes, p.no_votes, p.vote_count, p.merkle_root)
}

/// Bytes of a stake account as the stake program lays them out.
fn stake_account_bytes(tag: u32, withdrawer: [u8; 32], voter: [u8; 32], stake: u64) -> Vec<u8> {
    let mut v = Vec::new();
    v.extend_from_slice(&tag.to_le_bytes());
    v.extend_from_slice(&2_282_880u64.to_le_bytes());
    v.extend_from_slice(&key(7));
    v.extend_from_slice(&withdrawer);
    v.extend_from_slice(&0i64.to_le_bytes());
    v.extend_from_slice(&0u64.to_le_bytes());
    v.extend_from_slice(&key(0));
    if tag == 2 {
        v.extend_from_slice(&voter);
        v.extend_from_slice(&stake.to_le_bytes());
        v.extend_from_slice(&5u64.to_le_bytes());
        v.extend_from_slice(&u64::MAX.to_le_bytes());
        v.extend_from_slice(&0.25f64.to_le_bytes());
        v.extend_from_slice(&11u64.to_le_bytes());
        v.push(0);
    }
    v
}

#[test]
fn create_starts_with_empty_tally() {
    let p = new_proposal();
    assert_eq!(p.authority, authority());
    assert_eq!(p.proposal_id, "p1");
    assert_eq!(p.title, "Raise fee");
    assert_eq!(p.description, "desc");
    assert_eq!(p.end_time, END);
    assert!(p.is_active);
    assert_eq!(tally(&p), (0, 0, 0, [0u8; 32]));
}

#[test]
fn create_accepts_the_longest_fields() {
    let r = initialize_proposal(
        &InitializeProposal { authority: authority() },
        "i".repeat(32),
        "t".repeat(64),
        "d".repeat(256),
        NOW + 1,
        NOW,
    );
    assert!(r.is_ok());
}

#[test]
fn create_rejects_long_fields_in_order() {
    let a = InitializeProposal { authority: authority() };
    let r = initialize_proposal(&a, "i".repeat(33), "t".repeat(65), "d".to_string(), END, NOW);
    assert_eq!(r.unwrap_err(), VoteError::ProposalIdTooLong);
    let r = initialize_proposal(&a, "i".to_string(), "t".repeat(65), "d".repeat(257), END, NOW);
    assert_eq!(r.unwrap_err(), VoteError::TitleTooLong);
    let r = initialize_proposal(&a, "i".to_string(), "t".to_string(), "d".repeat(257), NOW, NOW);
    assert_eq!(r.unwrap_err(), VoteError::DescriptionTooLong);
}

#[test]
fn create_counts_bytes_not_characters() {
    let a = InitializeProposal { authority: authority() };
    let r = initialize_proposal(&a, "p".to_string(), "é".repeat(33), "d".to_string(), END, NOW);
    assert_eq!(r.unwrap_err(), VoteError::TitleTooLong);
    let r = initialize_proposal(&a, "p".to_string(), "é".repeat(32), "d".to_string(), END, NOW);
    assert!(r.is_ok());
}

#[test]
fn create_rejects_end_time_not_in_future() {
    let a = InitializeProposal { authority: authority() };
    let r = initialize_proposal(&a, "p".to_string(), "t".to_string(), "d".to_string(), NOW, NOW);
    assert_eq!(r.unwrap_err(), VoteError::InvalidEndTime);
    let r = initialize_proposal(&a, "p".to_string(), "t".to_string(), "d".to_string(), NOW - 5, NOW);
    assert_eq!(r.unwrap_err(), VoteError::InvalidEndTime);
}

#[test]
fn end_to_end_scenario() {
    let mut p = new_proposal();
    let mut recs = VoteRecords::new();
    assert_eq!(cast(&mut p, &mut recs, 0xA, 0x1A, 1000, 1), Ok(()));
    assert_eq!(p.yes_votes, 1000);
    assert_eq!(p.vote_count, 1);
    let d1 = p.merkle_root;
    assert_ne!(d1, [0u8; 32]);
    assert_eq!(cast(&mut p, &mut recs, 0xB, 0x1B, 500, 0), Ok(()));
    assert_eq!(p.no_votes, 500);
    assert_eq!(p.vote_count, 2);
    let d2 = p.merkle_root;
    assert_ne!(d2, d1);
    let after_two = tally(&p);
    assert_eq!(cast(&mut p, &mut recs, 0xA, 0x1A, 1000, 1), Err(VoteError::AlreadyVoted));
    assert_eq!(tally(&p), after_two);
    assert_eq!(recs.len(), 2);
}

#[test]
fn second_cast_with_same_stake_account_is_rejected() {
    let mut p = new_proposal();
    let mut recs = VoteRecords::new();
    assert_eq!(cast(&mut p, &mut recs, 3, 4, 77, 0), Ok(()));
    let before = tally(&p);
    assert_eq!(cast(&mut p, &mut recs, 3, 4, 77, 1), Err(VoteError::AlreadyVoted));
    assert_eq!(tally(&p), before);
    assert!(recs.contains(&proposal_addr(), &key(3)));
    assert!(!recs.contains(&proposal_addr(), &key(4)));
}

#[test]
fn same_stake_account_may_vote_on_another_proposal() {
    let mut p = new_proposal();
    let mut recs = VoteRecords::new();
    assert_eq!(cast(&mut p, &mut recs, 3, 4, 10, 1), Ok(()));
    let mut q = new_proposal();
    let other = CastVote { proposal: key(0x22), stake_account: key(3), voter: key(4) };
    let r = cast_vote(&other, &mut q, &mut recs, &delegated(key(4), 10), &validator(), 1, NOW);
    assert_eq!(r, Ok(()));
    assert_eq!(recs.len(), 2);
}

#[test]
fn tallies_sum_weights_of_accepted_votes() {
    let mut p = new_proposal();
    let mut recs = VoteRecords::new();
    let votes: [(u8, u64, u8); 5] = [(10, 5, 1), (11, 7, 0), (12, 11, 1), (13, 0, 0), (14, 13, 1)];
    for (sa, w, v) in votes {
        assert_eq!(cast(&mut p, &mut recs, sa, sa + 100, w, v), Ok(()));
    }
    assert_eq!(p.vote_count, 5);
    assert_eq!(p.yes_votes, 29);
    assert_eq!(p.no_votes, 7);
    assert_eq!(p.yes_votes + p.no_votes, 36);
}

#[test]
fn invalid_vote_option_changes_nothing() {
    let mut p = new_proposal();
    let mut recs = VoteRecords::new();
    assert_eq!(cast(&mut p, &mut recs, 1, 2, 40, 1), Ok(()));
    let before = tally(&p);
    for v in [2u8, 7, 255] {
        assert_eq!(cast(&mut p, &mut recs, 5, 6, 40, v), Err(VoteError::InvalidVoteOption));
    }
    assert_eq!(tally(&p), before);
    assert_eq!(recs.len(), 1);
}

#[test]
fn casting_after_end_time_is_rejected() {
    let mut p = new_proposal();
    let mut recs = VoteRecords::new();
    let c = ctx(key(5), key(6));
    let s = delegated(key(6), 40);
    assert_eq!(cast_vote(&c, &mut p, &mut recs, &s, &validator(), 1, END), Err(VoteError::VotingPeriodEnded));
    assert_eq!(cast_vote(&c, &mut p, &mut recs, &s, &validator(), 9, END + 1), Err(VoteError::VotingPeriodEnded));
    assert_eq!(tally(&p), (0, 0, 0, [0u8; 32]));
}

#[test]
fn casting_after_close_is_rejected() {
    let mut p = new_proposal();
    let mut recs = VoteRecords::new();
    assert_eq!(close_proposal(&CloseProposal { authority: authority() }, &mut p), Ok(()));
    assert!(!p.is_active);
    assert_eq!(cast(&mut p, &mut recs, 5, 6, 40, 1), Err(VoteError::ProposalInactive));
    assert_eq!(recs.len(), 0);
}

#[test]
fn close_by_other_identity_is_rejected() {
    let mut p = new_proposal();
    assert_eq!(close_proposal(&CloseProposal { authority: key(8) }, &mut p), Err(VoteError::UnauthorizedAction));
    assert!(p.is_active);
}

#[test]
fn closing_twice_succeeds() {
    let mut p = new_proposal();
    let c = CloseProposal { authority: authority() };
    assert_eq!(close_proposal(&c, &mut p), Ok(()));
    assert_eq!(close_proposal(&c, &mut p), Ok(()));
    assert!(!p.is_active);
}

#[test]
fn voter_must_be_withdrawal_authority() {
    let mut p = new_proposal();
    let mut recs = VoteRecords::new();
    let r = cast_vote(&ctx(key(5), key(6)), &mut p, &mut recs, &delegated(key(7), 40), &validator(), 1, NOW);
    assert_eq!(r, Err(VoteError::UnauthorizedVoter));
    assert_eq!(recs.len(), 0);
}

#[test]
fn stake_must_be_delegated_to_validator() {
    let mut p = new_proposal();
    let mut recs = VoteRecords::new();
    let r = cast_vote(&ctx(key(5), key(6)), &mut p, &mut recs, &delegated(key(6), 40), &key(10), 1, NOW);
    assert_eq!(r, Err(VoteError::NotDelegatedToValidator));
    assert_eq!(tally(&p), (0, 0, 0, [0u8; 32]));
}

#[test]
fn stake_must_be_a_delegated_stake_account() {
    let mut p = new_proposal();
    let mut recs = VoteRecords::new();
    for s in [StakeState::NotDelegated, StakeState::Malformed] {
        let r = cast_vote(&ctx(key(5), key(6)), &mut p, &mut recs, &s, &validator(), 0, NOW);
        assert_eq!(r, Err(VoteError::InvalidStakeAccount));
    }
    assert_eq!(recs.len(), 0);
}

#[test]
fn decodes_delegated_stake_account() {
    let data = stake_account_bytes(2, key(6), validator(), 123_456);
    assert_eq!(data.len(), 197);
    let s = StakeState::from_account_data(&data);
    assert_eq!(
        s,
        StakeState::Delegated(StakeSnapshot {
            withdrawal_authority: key(6),
            delegated_validator: validator(),
            delegated_amount: 123_456,
        })
    );
    let mut longer = data.clone();
    longer.extend_from_slice(&[0u8; 3]);
    assert_eq!(StakeState::from_account_data(&longer), s);
}

#[test]
fn decodes_other_stake_states() {
    assert_eq!(StakeState::from_account_data(&0u32.to_le_bytes()), StakeState::NotDelegated);
    let initialized = stake_account_bytes(1, key(6), validator(), 0);
    assert_eq!(StakeState::from_account_data(&initialized), StakeState::NotDelegated);
    assert_eq!(StakeState::from_account_data(&3u32.to_le_bytes()), StakeState::NotDelegated);
}

#[test]
fn rejects_malformed_stake_data() {
    assert_eq!(StakeState::from_account_data(&[]), StakeState::Malformed);
    assert_eq!(StakeState::from_account_data(&4u32.to_le_bytes()), StakeState::Malformed);
    let mut short = stake_account_bytes(2, key(6), validator(), 5);
    short.truncate(150);
    assert_eq!(StakeState::from_account_data(&short), StakeState::Malformed);
}

#[test]
fn decoded_stake_votes_end_to_end() {
    let mut p = new_proposal();
    let mut recs = VoteRecords::new();
    let data = stake_account_bytes(2, key(6), validator(), 900);
    let s = StakeState::from_account_data(&data);
    assert_eq!(cast_vote(&ctx(key(5), key(6)), &mut p, &mut recs, &s, &validator(), 1, NOW), Ok(()));
    assert_eq!(p.yes_votes, 900);
}

#[test]
fn leaf_digests_account_proposal_vote_and_weight() {
    let leaf = create_leaf_node(&key(3), &key(4), 1, 1000);
    let expected = hashv(&[&key(3), &key(4), &[1u8], &1000u64.to_le_bytes()]).to_bytes();
    assert_eq!(leaf, expected);
    assert_ne!(leaf, create_leaf_node(&key(3), &key(4), 0, 1000));
    assert_ne!(leaf, create_leaf_node(&key(3), &key(4), 1, 1001));
}

#[test]
fn fold_takes_leaf_on_empty_root_and_hashes_otherwise() {
    let leaf = create_leaf_node(&key(3), &key(4), 1, 1000);
    assert_eq!(update_merkle_root(&[0u8; 32], &leaf), leaf);
    let root = create_leaf_node(&key(5), &key(4), 0, 7);
    let expected = hashv(&[&root, &leaf]).to_bytes();
    assert_eq!(update_merkle_root(&root, &leaf), expected);
    assert_ne!(update_merkle_root(&root, &leaf), leaf);
}

#[test]
fn stored_root_matches_replayed_history() {
    let mut p = new_proposal();
    let mut recs = VoteRecords::new();
    assert_eq!(cast(&mut p, &mut recs, 0xA, 0x1A, 1000, 1), Ok(()));
    assert_eq!(cast(&mut p, &mut recs, 0xB, 0x1B, 500, 0), Ok(()));
    let history = vec![
        VoteEvent { stake_account: key(0xA), proposal: proposal_addr(), vote: 1, weight: 1000 },
        VoteEvent { stake_account: key(0xB), proposal: proposal_addr(), vote: 0, weight: 500 },
    ];
    assert_eq!(audit_digest(&history), p.merkle_root);
}

#[test]
fn digest_is_deterministic_and_order_sensitive() {
    let a = VoteEvent { stake_account: key(0xA), proposal: proposal_addr(), vote: 1, weight: 1000 };
    let b = VoteEvent { stake_account: key(0xB), proposal: proposal_addr(), vote: 0, weight: 500 };
    let c = VoteEvent { stake_account: key(0xC), proposal: proposal_addr(), vote: 1, weight: 1 };
    assert_eq!(audit_digest(&vec![a, b, c]), audit_digest(&vec![a, b, c]));
    assert_ne!(audit_digest(&vec![a, b, c]), audit_digest(&vec![b, a, c]));
    assert_ne!(audit_digest(&vec![a, b, c]), audit_digest(&vec![a, c, b]));
    assert_eq!(audit_digest(&vec![]), [0u8; 32]);
    assert_eq!(audit_digest(&vec![a]), create_leaf_node(&a.stake_account, &a.proposal, 1, 1000));
}

#[test]
fn error_messages() {
    assert_eq!(VoteError::AlreadyVoted.message(), "This stake account has already voted");
    assert_eq!(VoteError::InvalidVoteOption.message(), "Invalid vote option - must be 0 or 1");
}
