use randomx_miner::wallet::ChunkStatus;
use randomx_miner::wallet::ScriptSignatureCtx;
use randomx_miner::wallet::WalletError;
use randomx_miner::wallet::MAX_TRANSACTION_LEN;

#[test]
fn single_chunk_parses_account() {
    let mut ctx = ScriptSignatureCtx::new();
    let mut data = vec![0u8; 16];
    data[0] = 0x2a;
    let status = ctx.process_chunk(&data, 0, false).unwrap();
    assert_eq!(status, ChunkStatus::ReadyToSign { account: 0x2a });
}

#[test]
fn account_is_little_endian() {
    let mut ctx = ScriptSignatureCtx::new();
    let data = vec![0x01, 0x02, 0x03, 0x04, 0x05, 0x06, 0x07, 0x08];
    let status = ctx.process_chunk(&data, 0, false).unwrap();
    assert_eq!(status, ChunkStatus::ReadyToSign { account: 0x0807_0605_0403_0201 });
}

#[test]
fn chunked_payload_accumulates() {
    let mut ctx = ScriptSignatureCtx::new();
    let first = vec![0x09, 0x00, 0x00, 0x00];
    assert_eq!(ctx.process_chunk(&first, 0, true).unwrap(), ChunkStatus::NeedMore);
    let second = vec![0x00, 0x00, 0x00, 0x00, 0xff];
    let status = ctx.process_chunk(&second, 1, false).unwrap();
    assert_eq!(status, ChunkStatus::ReadyToSign { account: 9 });
}

#[test]
fn first_chunk_resets_previous_request() {
    let mut ctx = ScriptSignatureCtx::new();
    let stale = vec![0xffu8; 8];
    assert_eq!(ctx.process_chunk(&stale, 0, true).unwrap(), ChunkStatus::NeedMore);
    // A new request starts over: the stale bytes are gone and the
    // zeroed payload parses as account 0.
    let fresh: Vec<u8> = Vec::new();
    let status = ctx.process_chunk(&fresh, 0, false).unwrap();
    assert_eq!(status, ChunkStatus::ReadyToSign { account: 0 });
}

#[test]
fn oversized_payload_is_rejected() {
    let mut ctx = ScriptSignatureCtx::new();
    let big = vec![0u8; MAX_TRANSACTION_LEN];
    assert_eq!(ctx.process_chunk(&big, 0, true).unwrap(), ChunkStatus::NeedMore);
    let one_more = vec![0u8; 1];
    let r = ctx.process_chunk(&one_more, 1, true);
    assert_eq!(r, Err(WalletError::ScriptSignatureFail));
    // The failed request can start over from chunk zero.
    let r = ctx.process_chunk(&one_more, 0, false);
    assert!(r.is_ok());
}

#[test]
fn reset_clears_the_context() {
    let mut ctx = ScriptSignatureCtx::new();
    let data = vec![0x07u8; 8];
    ctx.process_chunk(&data, 0, true).unwrap();
    ctx.reset();
    let status = ctx.process_chunk(&Vec::new(), 1, false).unwrap();
    assert_eq!(status, ChunkStatus::ReadyToSign { account: 0 });
}
