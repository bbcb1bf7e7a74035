//! Accumulation of chunked script-signature requests.
//!
//! A signing request arrives in chunks of at most an APDU's worth of
//! bytes. The context gathers them into a fixed payload buffer, rejects
//! overflow, and parses the account index from the first eight payload
//! bytes once the last chunk is in. The signing itself — key derivation
//! and the commitment signature — is done by the secure element's
//! cryptography, outside this library.

use vstd::prelude::*;

verus! {

use vstd::bytes::spec_u64_from_le_bytes;
use vstd::bytes::u64_from_le_bytes;
use vstd::slice::slice_subrange;

/// Greatest number of payload bytes a request may carry.
pub const MAX_TRANSACTION_LEN: usize = 312;

/// Error of the chunk-accumulation handler.
#[derive(Clone, Copy, PartialEq, Eq, Structural, Debug)]
pub enum WalletError {
    /// The accumulated payload would exceed `MAX_TRANSACTION_LEN`.
    ScriptSignatureFail,
}

/// What a processed chunk led to.
#[derive(Clone, Copy, PartialEq, Eq, Structural, Debug)]
pub enum ChunkStatus {
    /// More chunks are expected; nothing is parsed yet.
    NeedMore,
    /// The payload is complete: `account` was parsed from its first
    /// eight bytes, little endian, and signing may proceed.
    ReadyToSign { account: u64 },
}

/// An all-zero payload buffer.
pub open spec fn zeroed_payload() -> Seq<u8> {
    Seq::new(MAX_TRANSACTION_LEN as nat, |i: int| 0u8)
}

/// The payload after the bytes of `data` are written at position `at`.
pub open spec fn with_chunk_written(p: Seq<u8>, at: int, data: Seq<u8>) -> Seq<u8> {
    Seq::new(
        p.len(),
        |i: int|
            if at <= i < at + data.len() {
                data[i - at]
            } else {
                p[i]
            },
    )
}

/// Context of one script-signature request: the payload bytes received
/// so far and the account index parsed once the payload is complete.
pub struct ScriptSignatureCtx {
    payload: Vec<u8>,
    payload_len: usize,
    account: u64,
}

impl ScriptSignatureCtx {
    /// The payload buffer, `MAX_TRANSACTION_LEN` bytes of which the
    /// first `payload_len` have been received.
    pub closed spec fn spec_payload(&self) -> Seq<u8> {
        self.payload@
    }

    /// Number of payload bytes received so far.
    pub closed spec fn spec_payload_len(&self) -> int {
        self.payload_len as int
    }

    /// The account index parsed from a complete payload.
    pub closed spec fn spec_account(&self) -> u64 {
        self.account
    }

    /// The buffer is full-sized and the received count lies within it.
    pub open spec fn wf(&self) -> bool {
        &&& self.spec_payload().len() == MAX_TRANSACTION_LEN
        &&& 0 <= self.spec_payload_len() <= MAX_TRANSACTION_LEN
    }

    /// A context holding a zeroed payload and nothing received.
    pub open spec fn is_reset(&self) -> bool {
        &&& self.spec_payload() == zeroed_payload()
        &&& self.spec_payload_len() == 0
        &&& self.spec_account() == 0
    }

    /// Creates an empty context.
    pub fn new() -> (r: ScriptSignatureCtx)
        ensures
            r.wf(),
            r.is_reset(),
    {
        let mut payload: Vec<u8> = Vec::new();
        let mut i: usize = 0;
        while i < MAX_TRANSACTION_LEN
            invariant
                0 <= i <= MAX_TRANSACTION_LEN,
                payload@ == Seq::new(i as nat, |j: int| 0u8),
            decreases MAX_TRANSACTION_LEN - i,
        {
            payload.push(0u8);
            proof {
                assert(payload@ =~= Seq::new((i + 1) as nat, |j: int| 0u8));
            }
            i = i + 1;
        }
        let r = ScriptSignatureCtx { payload, payload_len: 0, account: 0 };
        proof {
            assert(r.spec_payload() =~= zeroed_payload());
        }
        r
    }

    /// Returns the context to its empty state: payload zeroed, nothing
    /// received, account cleared.
    pub fn reset(&mut self)
        requires
            old(self).wf(),
        ensures
            final(self).wf(),
            final(self).is_reset(),
    {
        let n = self.payload.len();
        let mut i: usize = 0;
        while i < n
            invariant
                n == self.payload@.len(),
                n == MAX_TRANSACTION_LEN,
                0 <= i <= n,
                forall|j: int| 0 <= j < i ==> self.payload@[j] == 0u8,
            decreases n - i,
        {
            self.payload.set(i, 0u8);
            i = i + 1;
        }
        self.payload_len = 0;
        self.account = 0;
        proof {
            assert(self.spec_payload() =~= zeroed_payload());
        }
    }

    /// Handles one chunk of a script-signature request.
    ///
    /// The first chunk resets the context. The chunk's bytes are
    /// appended to the payload, unless they would overflow it, which
    /// fails the request and leaves the (possibly just reset) context
    /// as it was. When no more chunks are expected, the account index
    /// is parsed from the first eight payload bytes, little endian, and
    /// the request is ready for signing.
    pub fn process_chunk(&mut self, data: &Vec<u8>, chunk: u8, more: bool) -> (r: Result<
        ChunkStatus,
        WalletError,
    >)
        requires
            old(self).wf(),
        ensures
            final(self).wf(),
            ({
                let base_payload = if chunk == 0 {
                    zeroed_payload()
                } else {
                    old(self).spec_payload()
                };
                let base_len = if chunk == 0 {
                    0int
                } else {
                    old(self).spec_payload_len()
                };
                let base_account = if chunk == 0 {
                    0u64
                } else {
                    old(self).spec_account()
                };
                &&& (r is Err) == (base_len + data@.len() > MAX_TRANSACTION_LEN)
                &&& r is Err ==> r == Err::<ChunkStatus, WalletError>(
                    WalletError::ScriptSignatureFail,
                ) && final(self).spec_payload() == base_payload && final(self).spec_payload_len()
                    == base_len && final(self).spec_account() == base_account
                &&& r is Ok ==> final(self).spec_payload() == with_chunk_written(
                    base_payload,
                    base_len,
                    data@,
                ) && final(self).spec_payload_len() == base_len + data@.len()
                &&& (r is Ok && more) ==> r == Ok::<ChunkStatus, WalletError>(
                    ChunkStatus::NeedMore,
                ) && final(self).spec_account() == base_account
                &&& (r is Ok && !more) ==> r == Ok::<ChunkStatus, WalletError>(
                    (ChunkStatus::ReadyToSign {
                        account: spec_u64_from_le_bytes(
                            final(self).spec_payload().subrange(0, 8),
                        ),
                    }),
                ) && final(self).spec_account() == spec_u64_from_le_bytes(
                    final(self).spec_payload().subrange(0, 8),
                )
            }),
    {
        if chunk == 0 {
            self.reset();
        }
        let ghost base_payload = self.payload@;
        let ghost base_len = self.payload_len as int;
        let ghost base_account = self.account;
        if data.len() > MAX_TRANSACTION_LEN - self.payload_len {
            return Err(WalletError::ScriptSignatureFail);
        }
        let n = data.len();
        let at = self.payload_len;
        let mut j: usize = 0;
        while j < n
            invariant
                n == data@.len(),
                at + n <= MAX_TRANSACTION_LEN,
                self.payload@.len() == MAX_TRANSACTION_LEN,
                at == base_len,
                self.payload_len == at,
                self.account == base_account,
                0 <= j <= n,
                forall|i: int|
                    0 <= i < self.payload@.len() && !(at <= i < at + j)
                        ==> self.payload@[i] == base_payload[i],
                forall|i: int| at <= i < at + j ==> self.payload@[i] == data@[i - at],
            decreases n - j,
        {
            self.payload.set(at + j, data[j]);
            j = j + 1;
        }
        self.payload_len = at + n;
        proof {
            assert(self.payload@ =~= with_chunk_written(base_payload, base_len, data@));
        }
        if more {
            return Ok(ChunkStatus::NeedMore);
        }
        let head: &[u8] = slice_subrange(self.payload.as_slice(), 0, 8);
        let account = u64_from_le_bytes(head);
        self.account = account;
        proof {
            assert(head@ == self.spec_payload().subrange(0, 8));
        }
        Ok(ChunkStatus::ReadyToSign { account })
    }
}

} // verus!
