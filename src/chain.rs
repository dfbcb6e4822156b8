//! The audit chain: each accepted vote becomes a leaf digest, and leaves are
//! folded, in order, into one running root.
use vstd::prelude::*;

verus! {

/// What SHA-256 gives for a byte string.
pub uninterp spec fn sha256_of(data: Seq<u8>) -> Seq<u8>;

/// Relies on `solana_program::hash::hashv`: the SHA-256 digest of the
/// concatenation of the slices handed to it, as 32 bytes.
#[verifier::external_body]
fn sha256(data: &[u8]) -> (r: [u8; 32])
    ensures
        r@ == sha256_of(data@),
{
    anchor_lang::solana_program::hash::hashv(&[data]).to_bytes()
}

/// The 32-byte all-zero root of a chain that holds no vote yet.
pub open spec fn zero_root() -> Seq<u8> {
    Seq::new(32, |i: int| 0u8)
}

pub open spec fn is_zero_root(root: Seq<u8>) -> bool {
    forall|i: int| 0 <= i < root.len() ==> root[i] == 0u8
}

/// The `n` low bytes of `w`, least significant first.
pub open spec fn le_bytes_n(w: nat, n: nat) -> Seq<u8>
    decreases n,
{
    if n == 0 {
        Seq::empty()
    } else {
        seq![(w % 256) as u8] + le_bytes_n(w / 256, (n - 1) as nat)
    }
}

/// The 8-byte little-endian encoding of a weight.
pub open spec fn le_bytes(w: u64) -> Seq<u8> {
    le_bytes_n(w as nat, 8)
}

/// One accepted vote, as the chain sees it.
#[derive(Clone, Copy, Debug, PartialEq, Eq)]
pub struct VoteEvent {
    pub stake_account: [u8; 32],
    pub proposal: [u8; 32],
    pub vote: u8,
    pub weight: u64,
}

/// The bytes that a leaf digests: stake account, proposal, vote, weight.
pub open spec fn leaf_bytes(stake_account: Seq<u8>, proposal: Seq<u8>, vote: u8, weight: u64) -> Seq<u8> {
    stake_account + proposal + seq![vote] + le_bytes(weight)
}

pub open spec fn leaf_of(stake_account: Seq<u8>, proposal: Seq<u8>, vote: u8, weight: u64) -> Seq<u8> {
    sha256_of(leaf_bytes(stake_account, proposal, vote, weight))
}

pub open spec fn event_leaf(e: VoteEvent) -> Seq<u8> {
    leaf_of(e.stake_account@, e.proposal@, e.vote, e.weight)
}

/// Folding one leaf into a root: an empty chain takes the leaf as it is.
pub open spec fn fold_root(root: Seq<u8>, leaf: Seq<u8>) -> Seq<u8> {
    if is_zero_root(root) {
        leaf
    } else {
        sha256_of(root + leaf)
    }
}

/// The root after folding the leaves of `events`, in order, into an empty chain.
pub open spec fn chain_digest(events: Seq<VoteEvent>) -> Seq<u8>
    decreases events.len(),
{
    if events.len() == 0 {
        zero_root()
    } else {
        fold_root(chain_digest(events.drop_last()), event_leaf(events.last()))
    }
}

fn append_bytes(out: &mut Vec<u8>, bytes: &[u8; 32])
    ensures
        final(out)@ == old(out)@ + bytes@,
{
    let mut i: usize = 0;
    while i < 32
        invariant
            0 <= i <= 32,
            bytes@.len() == 32,
            out@ == old(out)@ + bytes@.subrange(0, i as int),
        decreases 32 - i,
    {
        out.push(bytes[i]);
        i = i + 1;
        assert(out@ =~= old(out)@ + bytes@.subrange(0, i as int));
    }
    assert(bytes@.subrange(0, 32) =~= bytes@);
}

fn append_le_u64(out: &mut Vec<u8>, w: u64)
    ensures
        final(out)@ == old(out)@ + le_bytes(w),
{
    let mut x: u64 = w;
    let mut i: usize = 0;
    while i < 8
        invariant
            0 <= i <= 8,
            out@ + le_bytes_n(x as nat, (8 - i) as nat) == old(out)@ + le_bytes(w),
        decreases 8 - i,
    {
        let ghost before = out@;
        out.push((x % 256) as u8);
        assert(le_bytes_n(x as nat, (8 - i) as nat) == seq![(x % 256) as u8] + le_bytes_n(
            (x / 256) as nat,
            (8 - i - 1) as nat,
        ));
        assert(out@ + le_bytes_n((x / 256) as nat, (8 - i - 1) as nat) =~= before
            + le_bytes_n(x as nat, (8 - i) as nat));
        x = x / 256;
        i = i + 1;
    }
    assert(le_bytes_n(x as nat, 0) =~= Seq::<u8>::empty());
    assert(out@ =~= out@ + le_bytes_n(x as nat, 0));
}

/// The leaf digest of one vote.
pub fn create_leaf_node(stake_account: &[u8; 32], proposal: &[u8; 32], vote: u8, stake_weight: u64) -> (r: [u8; 32])
    ensures
        r@ == leaf_of(stake_account@, proposal@, vote, stake_weight),
{
    let mut data: Vec<u8> = Vec::new();
    append_bytes(&mut data, stake_account);
    append_bytes(&mut data, proposal);
    data.push(vote);
    append_le_u64(&mut data, stake_weight);
    assert(data@ =~= leaf_bytes(stake_account@, proposal@, vote, stake_weight));
    sha256(data.as_slice())
}

/// Whether every byte of a root is zero, i.e. the chain is still empty.
pub fn is_empty_root(root: &[u8; 32]) -> (r: bool)
    ensures
        r == is_zero_root(root@),
{
    let mut i: usize = 0;
    while i < 32
        invariant
            0 <= i <= 32,
            root@.len() == 32,
            forall|j: int| 0 <= j < i ==> root@[j] == 0u8,
        decreases 32 - i,
    {
        if root[i] != 0 {
            return false;
        }
        i = i + 1;
    }
    true
}

/// Folds a leaf into the running root.
pub fn update_merkle_root(current_root: &[u8; 32], new_leaf: &[u8; 32]) -> (r: [u8; 32])
    ensures
        r@ == fold_root(current_root@, new_leaf@),
{
    if is_empty_root(current_root) {
        return *new_leaf;
    }
    let mut data: Vec<u8> = Vec::new();
    append_bytes(&mut data, current_root);
    append_bytes(&mut data, new_leaf);
    assert(data@ =~= current_root@ + new_leaf@);
    sha256(data.as_slice())
}

/// The all-zero root of an empty chain.
pub fn empty_root() -> (r: [u8; 32])
    ensures
        r@ == zero_root(),
{
    let r: [u8; 32] = [0u8; 32];
    assert(r@ =~= zero_root());
    r
}

/// Replays an ordered history of votes into the root it yields, so that a
/// stored root can be audited against that history.
pub fn audit_digest(events: &Vec<VoteEvent>) -> (r: [u8; 32])
    ensures
        r@ == chain_digest(events@),
{
    let mut root = empty_root();
    let mut i: usize = 0;
    while i < events.len()
        invariant
            0 <= i <= events@.len(),
            root@ == chain_digest(events@.subrange(0, i as int)),
        decreases events@.len() - i,
    {
        let e = &events[i];
        let leaf = create_leaf_node(&e.stake_account, &e.proposal, e.vote, e.weight);
        root = update_merkle_root(&root, &leaf);
        assert(events@.subrange(0, i + 1).drop_last() =~= events@.subrange(0, i as int));
        i = i + 1;
    }
    assert(events@.subrange(0, events@.len() as int) =~= events@);
    root
}

/// Replaying a history is deterministic: one ordered history of votes has one
/// root.
pub proof fn lemma_digest_deterministic(a: Seq<VoteEvent>, b: Seq<VoteEvent>)
    requires
        a == b,
    ensures
        chain_digest(a) == chain_digest(b),
{
}

/// Appending a vote to a history folds that vote's leaf into the history's root.
pub proof fn lemma_digest_push(events: Seq<VoteEvent>, e: VoteEvent)
    ensures
        chain_digest(events.push(e)) == fold_root(chain_digest(events), event_leaf(e)),
{
    assert(events.push(e).drop_last() =~= events);
}

} // verus!
