//! Error kinds of the mining core, by stage.
//!
//! Network and transport failures while fetching or submitting belong to
//! the protocol client and are reported by the surrounding binary; the
//! kinds here cover what the core itself decides: malformed protocol
//! blobs, failed resource allocation, and failures of the hashing
//! primitive.

use vstd::prelude::*;

verus! {

/// Which protocol blob an error is about.
#[derive(Clone, Copy, PartialEq, Eq, Structural, Debug)]
pub enum BlobKind {
    /// The buffer that is mined in place.
    BlockHashing,
    /// The buffer submitted once a candidate is found.
    BlockTemplate,
    /// The seed identifier selecting the cache/dataset pair.
    SeedHash,
}

/// Which resource construction failed.
#[derive(Clone, Copy, PartialEq, Eq, Structural, Debug)]
pub enum ResourceStage {
    Cache,
    Dataset,
}

/// Failure to decode a hexadecimal blob.
#[derive(Clone, Copy, PartialEq, Eq, Structural, Debug)]
pub enum HexError {
    /// A byte that is not an ASCII hexadecimal digit stands at `index`.
    InvalidHexByte { index: usize },
    /// The blob holds an odd number of digits.
    OddLength,
}

/// An error of the mining core.
#[derive(Clone, Copy, PartialEq, Eq, Structural, Debug)]
pub enum MinerError {
    /// A required address was not resolved before mining started.
    Configuration,
    /// A protocol blob is not well-formed hexadecimal.
    InvalidBlob { blob: BlobKind, cause: HexError },
    /// A decoded protocol buffer is too short to carry the header fields.
    ShortBlob { blob: BlobKind },
    /// Cache or dataset construction failed, including after the
    /// fallback retry.
    ResourceAllocation { stage: ResourceStage },
    /// The hashing primitive failed during a cycle.
    Hashing,
}

} // verus!
