//! A single-claim Merkle-proof airdrop verifier.
//!
//! A claimant identity and an ordered proof path are folded into a candidate
//! root hash, which is checked against a root stored at initialization.
//! Each identity can claim exactly once; a processed-claims counter moves in
//! lockstep with the set of recorded claims.

pub mod contract;
pub mod error;
pub mod hash;
pub mod hex_codec;
pub mod laws;
pub mod merkle;
pub mod msg;
pub mod query;
pub mod responses;
pub mod state;
pub mod token;
