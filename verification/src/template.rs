//! The block template fetched for each orchestration iteration.
//!
//! The remote node hands three hexadecimal blobs and a target
//! difficulty. Decoding them, checking that the buffers can carry the
//! header fields, and assembling the submission payload are the core's
//! part of the protocol; the transport is not.

use vstd::prelude::*;

verus! {

use crate::errors::BlobKind;
use crate::errors::MinerError;
use crate::header::SPLICE_LEN;
use crate::header::with_header_spliced;
use crate::header::build_submission_bytes;
use crate::hex_codec::hex_valid;
use crate::hex_codec::hex_decoded;
use crate::hex_codec::hex_encoded;
use crate::hex_codec::hex_decode;
use crate::hex_codec::hex_encode;

/// A block template, immutable once fetched: the buffer mined in place,
/// the buffer used for submission, the seed identifier selecting the
/// cache/dataset pair, and the difficulty a candidate must meet.
pub struct BlockTemplate {
    pub blockhashing_bytes: Vec<u8>,
    pub blocktemplate_bytes: Vec<u8>,
    pub seed: Vec<u8>,
    pub target_difficulty: u64,
}

impl BlockTemplate {
    /// Both byte buffers are long enough to carry the spliced header.
    pub open spec fn wf(&self) -> bool {
        &&& self.blockhashing_bytes@.len() >= SPLICE_LEN
        &&& self.blocktemplate_bytes@.len() >= SPLICE_LEN
    }

    /// True when the three hexadecimal blobs decode into a well-formed
    /// template.
    pub open spec fn blobs_ok(bh: Seq<u8>, bt: Seq<u8>, seed: Seq<u8>) -> bool {
        &&& hex_valid(bh)
        &&& hex_decoded(bh).len() >= SPLICE_LEN
        &&& hex_valid(bt)
        &&& hex_decoded(bt).len() >= SPLICE_LEN
        &&& hex_valid(seed)
    }

    /// Decodes a fetched template from its hexadecimal blobs.
    ///
    /// Succeeds exactly when every blob is well-formed hexadecimal and
    /// both decoded buffers are long enough to carry the header fields;
    /// the blobs are examined in that order, mining buffer first, and
    /// the first fault is reported with the blob it is about.
    pub fn from_blobs(
        blockhashing_blob: &Vec<u8>,
        blocktemplate_blob: &Vec<u8>,
        seed_hash: &Vec<u8>,
        difficulty: u64,
    ) -> (r: Result<BlockTemplate, MinerError>)
        ensures
            (r is Ok) == Self::blobs_ok(blockhashing_blob@, blocktemplate_blob@, seed_hash@),
            r matches Ok(t) ==> {
                &&& t.wf()
                &&& t.blockhashing_bytes@ == hex_decoded(blockhashing_blob@)
                &&& t.blocktemplate_bytes@ == hex_decoded(blocktemplate_blob@)
                &&& t.seed@ == hex_decoded(seed_hash@)
                &&& t.target_difficulty == difficulty
            },
            !hex_valid(blockhashing_blob@) ==> (r matches Err(e) && e matches
                MinerError::InvalidBlob { blob: BlobKind::BlockHashing, .. }),
            hex_valid(blockhashing_blob@) && hex_decoded(blockhashing_blob@).len() < SPLICE_LEN
                ==> r == Err::<BlockTemplate, MinerError>(
                    MinerError::ShortBlob { blob: BlobKind::BlockHashing },
                ),
            hex_valid(blockhashing_blob@) && hex_decoded(blockhashing_blob@).len() >= SPLICE_LEN
                && !hex_valid(blocktemplate_blob@) ==> (r matches Err(e) && e matches
                MinerError::InvalidBlob { blob: BlobKind::BlockTemplate, .. }),
            hex_valid(blockhashing_blob@) && hex_decoded(blockhashing_blob@).len() >= SPLICE_LEN
                && hex_valid(blocktemplate_blob@)
                && hex_decoded(blocktemplate_blob@).len() < SPLICE_LEN
                ==> r == Err::<BlockTemplate, MinerError>(
                    MinerError::ShortBlob { blob: BlobKind::BlockTemplate },
                ),
            hex_valid(blockhashing_blob@) && hex_decoded(blockhashing_blob@).len() >= SPLICE_LEN
                && hex_valid(blocktemplate_blob@)
                && hex_decoded(blocktemplate_blob@).len() >= SPLICE_LEN
                && !hex_valid(seed_hash@) ==> (r matches Err(e) && e matches
                MinerError::InvalidBlob { blob: BlobKind::SeedHash, .. }),
    {
        let blockhashing_bytes = match hex_decode(blockhashing_blob) {
            Ok(b) => b,
            Err(e) => {
                return Err(MinerError::InvalidBlob { blob: BlobKind::BlockHashing, cause: e });
            },
        };
        if blockhashing_bytes.len() < SPLICE_LEN {
            return Err(MinerError::ShortBlob { blob: BlobKind::BlockHashing });
        }
        let blocktemplate_bytes = match hex_decode(blocktemplate_blob) {
            Ok(b) => b,
            Err(e) => {
                return Err(MinerError::InvalidBlob { blob: BlobKind::BlockTemplate, cause: e });
            },
        };
        if blocktemplate_bytes.len() < SPLICE_LEN {
            return Err(MinerError::ShortBlob { blob: BlobKind::BlockTemplate });
        }
        let seed = match hex_decode(seed_hash) {
            Ok(b) => b,
            Err(e) => {
                return Err(MinerError::InvalidBlob { blob: BlobKind::SeedHash, cause: e });
            },
        };
        Ok(
            BlockTemplate {
                blockhashing_bytes,
                blocktemplate_bytes,
                seed,
                target_difficulty: difficulty,
            },
        )
    }

    /// The hex-encoded submission payload for a winning mined header:
    /// the template buffer with the leading header bytes spliced in,
    /// encoded as lowercase hexadecimal.
    pub fn submission_hex(&self, mined_header: &Vec<u8>) -> (r: String)
        requires
            self.wf(),
            mined_header@.len() >= SPLICE_LEN,
        ensures
            r@ == hex_encoded(with_header_spliced(self.blocktemplate_bytes@, mined_header@)),
    {
        let payload = build_submission_bytes(&self.blocktemplate_bytes, mined_header);
        hex_encode(&payload)
    }
}

} // verus!
