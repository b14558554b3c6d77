//! What the sharding function needs from a hash function.

use vstd::prelude::*;

verus! {

/// A stateless, deterministic hash function with 64-bit outputs.
///
/// The two `spec` functions say which value the primitive gives to an input,
/// and the two executable methods return exactly those values. Equal inputs
/// therefore hash to equal outputs, in every process and on every machine:
/// a hasher that draws a seed per process cannot implement this trait.
///
/// An implementation written in Verus is checked against these contracts.
/// Where a method's body is not verified, the contract is taken on trust, and
/// everything that this crate proves of the primitive's shards rests on it.
pub trait HashPrimitive {
    /// The hash of a byte sequence.
    spec fn bytes_digest(&self, bytes: Seq<u8>) -> u64;

    /// The hash of an earlier output of this primitive.
    spec fn word_digest(&self, word: u64) -> u64;

    /// Hashes a key, given as its bytes: link 0 of the key's chain.
    fn hash_bytes(&self, bytes: &[u8]) -> (digest: u64)
        ensures
            digest == self.bytes_digest(bytes@),
    ;

    /// Hashes an earlier output: the step from one link of a chain to the
    /// next.
    fn hash_word(&self, word: u64) -> (digest: u64)
        ensures
            digest == self.word_digest(word),
    ;
}

} // verus!
