//! The default hash primitive, built on SeaHash.

use vstd::prelude::*;
use crate::primitive::HashPrimitive;

verus! {

/// The SeaHash of a byte sequence, with the seeds that the algorithm fixes.
pub uninterp spec fn sea_digest(bytes: Seq<u8>) -> u64;

/// Calls `seahash::hash`, which hashes a buffer in one go with the four
/// seeds built into the algorithm. Nothing is proved of it. The contract
/// claims that the result depends on the bytes of the buffer alone and gives
/// that result its name; of the value itself it claims nothing.
#[verifier::external_body]
fn sea_hash(bytes: &[u8]) -> (digest: u64)
    ensures
        digest == sea_digest(bytes@),
{
    seahash::hash(bytes)
}

/// The eight bytes of `word`, least significant first.
pub open spec fn le_bytes(word: u64) -> Seq<u8> {
    seq![
        (word % 0x100) as u8,
        (word / 0x100 % 0x100) as u8,
        (word / 0x1_0000 % 0x100) as u8,
        (word / 0x100_0000 % 0x100) as u8,
        (word / 0x1_0000_0000 % 0x100) as u8,
        (word / 0x100_0000_0000 % 0x100) as u8,
        (word / 0x1_0000_0000_0000 % 0x100) as u8,
        (word / 0x100_0000_0000_0000 % 0x100) as u8,
    ]
}

/// Writes `word` as its eight little-endian bytes.
fn word_to_le_bytes(word: u64) -> (bytes: [u8; 8])
    ensures
        bytes@ == le_bytes(word),
{
    let bytes: [u8; 8] = [
        (word % 0x100) as u8,
        (word / 0x100 % 0x100) as u8,
        (word / 0x1_0000 % 0x100) as u8,
        (word / 0x100_0000 % 0x100) as u8,
        (word / 0x1_0000_0000 % 0x100) as u8,
        (word / 0x100_0000_0000 % 0x100) as u8,
        (word / 0x1_0000_0000_0000 % 0x100) as u8,
        (word / 0x100_0000_0000_0000 % 0x100) as u8,
    ];
    assert(bytes@ =~= le_bytes(word));
    bytes
}

/// The default hash primitive: SeaHash with its fixed seeds, which gives the
/// same hashes in every process and on every platform.
///
/// A key is hashed as the bytes it is made of. An earlier output is hashed as
/// its eight little-endian bytes, which is also what a `SeaHasher` makes of a
/// `u64` written to it.
#[derive(Clone, Copy, Debug)]
pub struct SeaHash;

impl HashPrimitive for SeaHash {
    open spec fn bytes_digest(&self, bytes: Seq<u8>) -> u64 {
        sea_digest(bytes)
    }

    open spec fn word_digest(&self, word: u64) -> u64 {
        sea_digest(le_bytes(word))
    }

    fn hash_bytes(&self, bytes: &[u8]) -> (digest: u64) {
        sea_hash(bytes)
    }

    fn hash_word(&self, word: u64) -> (digest: u64) {
        let bytes: [u8; 8] = word_to_le_bytes(word);
        sea_hash(bytes.as_slice())
    }
}

} // verus!
