//! The hash chain of a key and the destination it selects.

use vstd::prelude::*;
use crate::laws::lemma_shard_index_in_range;
use crate::primitive::HashPrimitive;

verus! {

/// Link `n` of the chain that starts at `seed`: link 0 is the seed itself,
/// and every later link is the hash of the link before it.
pub open spec fn link<H: HashPrimitive>(hasher: &H, seed: u64, n: nat) -> u64
    decreases n,
{
    if n == 0 {
        seed
    } else {
        hasher.word_digest(link(hasher, seed, (n - 1) as nat))
    }
}

/// The test of step `n` on its link `hash`: the step claims the key for
/// destination `n` when the link is a multiple of `n + 1`.
pub open spec fn is_claim(n: nat, hash: u64) -> bool {
    hash as int % (n as int + 1) == 0
}

/// The destination of a key after step `n`, when it was `current` before the
/// step and `hash` is the link of the step.
pub open spec fn after_step(current: nat, n: nat, hash: u64) -> nat {
    if is_claim(n, hash) {
        n
    } else {
        current
    }
}

/// Whether step `n` of the chain that starts at `seed` claims the key. Step 0
/// claims every key.
pub open spec fn claims<H: HashPrimitive>(hasher: &H, seed: u64, n: nat) -> bool {
    is_claim(n, link(hasher, seed, n))
}

/// The destination, among `total` of them, of the key whose chain starts at
/// `seed`: the last step below `total` that claims the key.
pub open spec fn shard_index<H: HashPrimitive>(hasher: &H, seed: u64, total: nat) -> nat
    decreases total,
{
    if total <= 1 {
        0
    } else if claims(hasher, seed, (total - 1) as nat) {
        (total - 1) as nat
    } else {
        shard_index(hasher, seed, (total - 1) as nat)
    }
}

/// Whether `shard` is the last step below `total` that claims the key.
pub open spec fn is_last_claim<H: HashPrimitive>(
    hasher: &H,
    seed: u64,
    total: nat,
    shard: nat,
) -> bool {
    &&& shard < total
    &&& claims(hasher, seed, shard)
    &&& forall|m: nat| shard < m < total ==> !#[trigger] claims(hasher, seed, m)
}

/// Takes step `n` of a chain: given the destination before the step and the
/// link `hash` of the step, returns the destination after it.
pub fn next_shard(current_shard: u64, n: u64, hash: u64) -> (next: u64)
    requires
        n < u64::MAX,
    ensures
        next == after_step(current_shard as nat, n as nat, hash),
{
    if hash % (n + 1) == 0 {
        n
    } else {
        current_shard
    }
}

/// Walks the chain that starts at `seed` and returns the destination it
/// selects among `total_destinations`: `seed` is the hash of the key, each
/// step hashes the link before it, and step `n` moves the key to destination
/// `n` when its link is a multiple of `n + 1`.
pub fn shard_from_seed<H: HashPrimitive>(
    seed: u64,
    total_destinations: u64,
    hasher: &H,
) -> (shard: u64)
    requires
        total_destinations > 0,
    ensures
        shard == shard_index(hasher, seed, total_destinations as nat),
        shard < total_destinations,
        total_destinations == 1 ==> shard == 0,
{
    let mut final_shard: u64 = 0;
    let mut last_hash: u64 = seed;
    for n in 1..total_destinations
        invariant
            last_hash == link(hasher, seed, (n - 1) as nat),
            final_shard == shard_index(hasher, seed, n as nat),
    {
        let hash: u64 = hasher.hash_word(last_hash);
        final_shard = next_shard(final_shard, n, hash);
        last_hash = hash;
    }
    proof {
        lemma_shard_index_in_range(hasher, seed, total_destinations as nat);
    }
    final_shard
}

} // verus!
