//! Faro sharding assigns every key to one of `N` numbered destinations in
//! such a way that adding a destination never moves a key between two
//! destinations that were already there: a key stays where it is or moves to
//! the new one.
//!
//! With data sharded among 10 servers, adding an 11th moves nothing from
//! server 3 to server 5; whatever moves, moves to server 10.
//!
//! # Algorithm
//!
//! The key is hashed, then that hash is hashed, and so on: link 0 of the
//! chain is the hash of the key, link `n` the hash of link `n - 1`. Step `n`,
//! for `n` from 1 up to `N - 1`, moves the key to destination `n` when link
//! `n` is a multiple of `n + 1`. The key ends at the destination of the last
//! step that moved it, and at destination 0 when none did.
//!
//! A key can reach destination `n` only at step `n`, and about one key in
//! `n + 1` does, which spreads the keys evenly over the destinations.
//!
//! # Keys
//!
//! A key is a sequence of bytes. Systems that must agree on where a key lives
//! have to agree on the bytes that stand for it, and on the hash primitive.

pub mod chain;
pub mod laws;
pub mod primitive;
pub mod shard;
pub mod with_seahash;

pub use crate::chain::{next_shard, shard_from_seed};
pub use crate::primitive::HashPrimitive;
pub use crate::shard::{shard_for, shard_with_hasher};
pub use crate::with_seahash::SeaHash;
