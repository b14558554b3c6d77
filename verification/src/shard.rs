//! The sharding function.

use vstd::prelude::*;
use crate::chain::{shard_from_seed, shard_index};
use crate::primitive::HashPrimitive;
use crate::with_seahash::SeaHash;

verus! {

/// The destination of `key` among `total` of them under `hasher`: the one
/// selected by the chain that starts at the hash of the key.
pub open spec fn key_shard<H: HashPrimitive>(hasher: &H, key: Seq<u8>, total: nat) -> nat {
    shard_index(hasher, hasher.bytes_digest(key), total)
}

/// Returns the index of the shard for `key` among `total_destinations`, using
/// the hash primitive provided.
///
/// Every key is valid, the empty one too. There has to be a destination:
/// `total_destinations` is not 0.
pub fn shard_with_hasher<H: HashPrimitive>(
    key: &[u8],
    total_destinations: u64,
    hasher: &H,
) -> (shard: u64)
    requires
        total_destinations > 0,
    ensures
        shard == key_shard(hasher, key@, total_destinations as nat),
        shard < total_destinations,
        total_destinations == 1 ==> shard == 0,
{
    let seed: u64 = hasher.hash_bytes(key);
    shard_from_seed(seed, total_destinations, hasher)
}

/// [`shard_with_hasher`] using [`SeaHash`].
///
/// The shards of this function are fixed for good: systems that route by
/// them find every key where they left it.
pub fn shard_for(key: &[u8], total_destinations: u64) -> (shard: u64)
    requires
        total_destinations > 0,
    ensures
        shard == key_shard(&SeaHash, key@, total_destinations as nat),
        shard < total_destinations,
        total_destinations == 1 ==> shard == 0,
{
    shard_with_hasher(key, total_destinations, &SeaHash)
}

} // verus!
