//! Core of a RandomX proof-of-work mining client.
//!
//! The library holds the verified logic of the miner: the byte-level
//! block-header mutation performed by the hash loop, the difficulty gate,
//! the per-template mining session bookkeeping, the keyed store of
//! memory-hard cache/dataset resources with its fallback allocation
//! policy, and the decoding of protocol blobs. Network transport and the
//! native hashing engine are external collaborators: the surrounding
//! binary performs those calls and feeds their results into the decision
//! functions defined here.

mod clock;
pub mod errors;
pub mod header;
pub mod hex_codec;
pub mod resolve;
pub mod session;
pub mod store;
pub mod template;
pub mod wallet;
