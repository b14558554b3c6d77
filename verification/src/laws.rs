//! What holds of the destinations that the chains select, for every hash
//! primitive, every key and every number of destinations.

use vstd::prelude::*;
use crate::chain::{after_step, claims, is_last_claim, link, shard_index};
use crate::primitive::HashPrimitive;
use crate::shard::key_shard;

verus! {

/// With at least one destination, the destination of a key is one of them.
pub proof fn lemma_shard_index_in_range<H: HashPrimitive>(hasher: &H, seed: u64, total: nat)
    requires
        total >= 1,
    ensures
        shard_index(hasher, seed, total) < total,
    decreases total,
{
    if total > 1 {
        lemma_shard_index_in_range(hasher, seed, (total - 1) as nat);
    }
}

/// With a single destination every key goes to destination 0.
pub proof fn lemma_single_destination<H: HashPrimitive>(hasher: &H, seed: u64)
    ensures
        shard_index(hasher, seed, 1) == 0,
{
}

/// The destination of a key is the last step that claims it, and no other
/// index is.
pub proof fn lemma_shard_index_is_last_claim<H: HashPrimitive>(
    hasher: &H,
    seed: u64,
    total: nat,
    shard: nat,
)
    requires
        total >= 1,
    ensures
        is_last_claim(hasher, seed, total, shard) <==> shard == shard_index(hasher, seed, total),
    decreases total,
{
    if total > 1 {
        let below: nat = (total - 1) as nat;
        lemma_shard_index_is_last_claim(hasher, seed, below, shard);
        lemma_shard_index_is_last_claim(hasher, seed, below, shard_index(hasher, seed, below));
        lemma_shard_index_in_range(hasher, seed, below);
        if is_last_claim(hasher, seed, total, shard) && shard < below {
            assert(!claims(hasher, seed, below));
            assert(is_last_claim(hasher, seed, below, shard));
        }
    }
}

/// One more destination is one more step: the destination among `n + 1` is
/// the destination among `n` after step `n` has seen its link.
pub proof fn lemma_shard_index_step<H: HashPrimitive>(hasher: &H, seed: u64, n: nat)
    requires
        n >= 1,
    ensures
        shard_index(hasher, seed, n + 1) == after_step(
            shard_index(hasher, seed, n),
            n,
            link(hasher, seed, n),
        ),
{
}

/// Adding one destination leaves a key where it was or moves it to the new
/// destination: with `n` destinations before, the new one is destination `n`.
pub proof fn lemma_one_more_destination<H: HashPrimitive>(hasher: &H, seed: u64, n: nat)
    requires
        n >= 1,
    ensures
        shard_index(hasher, seed, n + 1) == shard_index(hasher, seed, n) || shard_index(
            hasher,
            seed,
            n + 1,
        ) == n,
{
}

/// Growing from `n` to `m` destinations leaves a key where it was or moves it
/// to one of the new destinations `n`, ..., `m - 1`: no key ever moves
/// between two destinations that both existed before.
pub proof fn lemma_growth_moves_only_to_new<H: HashPrimitive>(
    hasher: &H,
    seed: u64,
    n: nat,
    m: nat,
)
    requires
        1 <= n <= m,
    ensures
        shard_index(hasher, seed, m) == shard_index(hasher, seed, n) || n <= shard_index(
            hasher,
            seed,
            m,
        ) < m,
    decreases m,
{
    if n < m {
        lemma_growth_moves_only_to_new(hasher, seed, n, (m - 1) as nat);
    }
}

/// The destination among `total` of them depends only on the links below
/// `total`: two chains that agree there select the same destination.
pub proof fn lemma_shard_index_reads_prefix<H: HashPrimitive, G: HashPrimitive>(
    hasher: &H,
    seed: u64,
    other: &G,
    other_seed: u64,
    total: nat,
)
    requires
        forall|n: nat| n < total ==> #[trigger] link(hasher, seed, n) == link(other, other_seed, n),
    ensures
        shard_index(hasher, seed, total) == shard_index(other, other_seed, total),
    decreases total,
{
    if total > 1 {
        lemma_shard_index_reads_prefix(hasher, seed, other, other_seed, (total - 1) as nat);
        assert(link(hasher, seed, (total - 1) as nat) == link(other, other_seed, (total - 1) as nat));
    }
}

/// Going from `n` to `n + 1` destinations, a key either keeps its destination
/// or moves to destination `n`, the one that was added.
pub proof fn lemma_key_moves_only_to_new_destination<H: HashPrimitive>(
    hasher: &H,
    key: Seq<u8>,
    n: nat,
)
    requires
        n >= 1,
    ensures
        key_shard(hasher, key, n + 1) == key_shard(hasher, key, n) || key_shard(hasher, key, n + 1)
            == n,
{
    lemma_one_more_destination(hasher, hasher.bytes_digest(key), n);
}

} // verus!
