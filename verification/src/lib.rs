//! Istanbul BFT consensus with its supporting primitives.
//!
//! `primitives` holds keys, addresses and recoverable signatures; `poa` is the
//! proof-of-authority engine, which moves on to later rounds by round changes;
//! `consensus` is the engine that agrees on a block in round zero or not at all.

pub mod consensus;
pub mod poa;
pub mod primitives;
