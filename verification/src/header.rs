//! Byte layout of the block-hashing header.
//!
//! Within the header buffer the timestamp occupies bytes [8, 12) and the
//! nonce occupies bytes [38, 42), both as little-endian 32-bit unsigned
//! integers. A mining iteration rewrites exactly these two ranges and
//! nothing else. On success, the leading 42 bytes of the mined header are
//! spliced over the leading bytes of the full block-template buffer.

use vstd::prelude::*;

verus! {

use vstd::bytes::spec_u32_to_le_bytes;
use vstd::bytes::u32_to_le_bytes;

/// First byte of the little-endian timestamp field.
pub const TIMESTAMP_OFFSET: usize = 8;

/// First byte of the little-endian nonce field.
pub const NONCE_OFFSET: usize = 38;

/// Width in bytes of the timestamp and nonce fields.
pub const FIELD_WIDTH: usize = 4;

/// Number of leading header bytes spliced into the submission payload.
pub const SPLICE_LEN: usize = 42;

/// True of byte positions inside the timestamp field.
pub open spec fn in_timestamp_field(i: int) -> bool {
    TIMESTAMP_OFFSET <= i < TIMESTAMP_OFFSET + FIELD_WIDTH
}

/// True of byte positions inside the nonce field.
pub open spec fn in_nonce_field(i: int) -> bool {
    NONCE_OFFSET <= i < NONCE_OFFSET + FIELD_WIDTH
}

/// The header buffer after one mining iteration has written the nonce and
/// timestamp fields: those two ranges hold the little-endian encodings,
/// every other byte is the old one.
pub open spec fn with_fields_written(b: Seq<u8>, nonce: u32, timestamp: u32) -> Seq<u8> {
    Seq::new(
        b.len(),
        |i: int|
            if in_timestamp_field(i) {
                spec_u32_to_le_bytes(timestamp)[i - TIMESTAMP_OFFSET]
            } else if in_nonce_field(i) {
                spec_u32_to_le_bytes(nonce)[i - NONCE_OFFSET]
            } else {
                b[i]
            },
    )
}

/// Writes `nonce` and `timestamp` into their fixed little-endian fields,
/// leaving every byte outside the two ranges unchanged.
pub fn write_header_fields(bytes: &mut Vec<u8>, nonce: u32, timestamp: u32)
    requires
        old(bytes)@.len() >= SPLICE_LEN,
    ensures
        final(bytes)@ == with_fields_written(old(bytes)@, nonce, timestamp),
        final(bytes)@.len() == old(bytes)@.len(),
        forall|i: int|
            0 <= i < old(bytes)@.len() && !in_timestamp_field(i) && !in_nonce_field(i)
                ==> final(bytes)@[i] == old(bytes)@[i],
        final(bytes)@.subrange(
            TIMESTAMP_OFFSET as int,
            TIMESTAMP_OFFSET + FIELD_WIDTH,
        ) == spec_u32_to_le_bytes(timestamp),
        final(bytes)@.subrange(
            NONCE_OFFSET as int,
            NONCE_OFFSET + FIELD_WIDTH,
        ) == spec_u32_to_le_bytes(nonce),
{
    let ts = u32_to_le_bytes(timestamp);
    let nn = u32_to_le_bytes(nonce);
    bytes.set(TIMESTAMP_OFFSET, ts[0]);
    bytes.set(TIMESTAMP_OFFSET + 1, ts[1]);
    bytes.set(TIMESTAMP_OFFSET + 2, ts[2]);
    bytes.set(TIMESTAMP_OFFSET + 3, ts[3]);
    bytes.set(NONCE_OFFSET, nn[0]);
    bytes.set(NONCE_OFFSET + 1, nn[1]);
    bytes.set(NONCE_OFFSET + 2, nn[2]);
    bytes.set(NONCE_OFFSET + 3, nn[3]);
    proof {
        assert(bytes@ =~= with_fields_written(old(bytes)@, nonce, timestamp));
        assert(bytes@.subrange(
            TIMESTAMP_OFFSET as int,
            TIMESTAMP_OFFSET + FIELD_WIDTH,
        ) =~= spec_u32_to_le_bytes(timestamp));
        assert(bytes@.subrange(
            NONCE_OFFSET as int,
            NONCE_OFFSET + FIELD_WIDTH,
        ) =~= spec_u32_to_le_bytes(nonce));
    }
}

/// One mining attempt's working buffer: a copy of the template's mining
/// buffer with the nonce and the current wall-clock time (seconds since
/// epoch, truncated to 32 bits) written into their fixed little-endian
/// fields. Every byte outside the two fields is the template's own.
pub fn prepare_attempt(bytes: &Vec<u8>, nonce: u32) -> (r: Vec<u8>)
    requires
        bytes@.len() >= SPLICE_LEN,
    ensures
        exists|t: u32| r@ == with_fields_written(bytes@, nonce, t),
        r@.len() == bytes@.len(),
        forall|i: int|
            0 <= i < bytes@.len() && !in_timestamp_field(i) && !in_nonce_field(i)
                ==> r@[i] == bytes@[i],
        r@.subrange(NONCE_OFFSET as int, NONCE_OFFSET + FIELD_WIDTH)
            == spec_u32_to_le_bytes(nonce),
{
    let mut work = crate::store::clone_bytes(bytes);
    let now = crate::clock::epoch_seconds_now();
    let ts: u32 = #[verifier::truncate] (now as u32);
    write_header_fields(&mut work, nonce, ts);
    proof {
        assert(work@ == with_fields_written(bytes@, nonce, ts));
    }
    work
}

/// The submission payload: the block-template buffer with its leading
/// `SPLICE_LEN` bytes replaced by those of the mined header.
pub open spec fn with_header_spliced(template: Seq<u8>, header: Seq<u8>) -> Seq<u8> {
    Seq::new(
        template.len(),
        |i: int|
            if i < SPLICE_LEN {
                header[i]
            } else {
                template[i]
            },
    )
}

/// Builds the submission payload from the template buffer and the mined
/// header, splicing the leading `SPLICE_LEN` header bytes over the
/// template's.
pub fn build_submission_bytes(template: &Vec<u8>, header: &Vec<u8>) -> (r: Vec<u8>)
    requires
        template@.len() >= SPLICE_LEN,
        header@.len() >= SPLICE_LEN,
    ensures
        r@ == with_header_spliced(template@, header@),
        r@.len() == template@.len(),
        r@.subrange(0, SPLICE_LEN as int) == header@.subrange(0, SPLICE_LEN as int),
        forall|i: int|
            SPLICE_LEN <= i < template@.len() ==> r@[i] == template@[i],
{
    let mut out: Vec<u8> = Vec::new();
    let mut i: usize = 0;
    while i < template.len()
        invariant
            0 <= i <= template@.len(),
            template@.len() >= SPLICE_LEN,
            header@.len() >= SPLICE_LEN,
            out@.len() == i,
            forall|j: int|
                0 <= j < i ==> out@[j] == with_header_spliced(template@, header@)[j],
        decreases template@.len() - i,
    {
        if i < SPLICE_LEN {
            out.push(header[i]);
        } else {
            out.push(template[i]);
        }
        i = i + 1;
    }
    proof {
        assert(out@ =~= with_header_spliced(template@, header@));
        assert(out@.subrange(0, SPLICE_LEN as int) =~= header@.subrange(0, SPLICE_LEN as int));
    }
    out
}

} // verus!
