use randomx_miner::errors::BlobKind;
use randomx_miner::errors::HexError;
use randomx_miner::errors::MinerError;
use randomx_miner::header::build_submission_bytes;
use randomx_miner::header::write_header_fields;
use randomx_miner::session::MiningSession;
use randomx_miner::template::BlockTemplate;

fn hex_blob(bytes: &[u8]) -> Vec<u8> {
    hex::encode(bytes).into_bytes()
}

#[test]
fn write_header_fields_encodes_little_endian() {
    let mut buf = vec![0xabu8; 64];
    write_header_fields(&mut buf, 0x0102_0304, 0x1112_1314);
    assert_eq!(&buf[8..12], &[0x14, 0x13, 0x12, 0x11]);
    assert_eq!(&buf[38..42], &[0x04, 0x03, 0x02, 0x01]);
    for (i, b) in buf.iter().enumerate() {
        if !(8..12).contains(&i) && !(38..42).contains(&i) {
            assert_eq!(*b, 0xab, "byte {} must be untouched", i);
        }
    }
}

#[test]
fn byte_range_isolation_between_iterations() {
    let mut first = (0u8..=255).cycle().take(80).collect::<Vec<u8>>();
    write_header_fields(&mut first, 7, 1_000_000);
    let mut second = first.clone();
    write_header_fields(&mut second, 8, 1_000_001);
    for i in 0..first.len() {
        if (8..12).contains(&i) || (38..42).contains(&i) {
            continue;
        }
        assert_eq!(first[i], second[i], "byte {} changed outside the fields", i);
    }
    assert_ne!(&first[38..42], &second[38..42]);
}

#[test]
fn prepare_attempt_writes_nonce_and_preserves_rest() {
    let template = vec![0x33u8; 48];
    let work = randomx_miner::header::prepare_attempt(&template, 0xdead_beef);
    assert_eq!(work.len(), 48);
    assert_eq!(&work[38..42], &0xdead_beefu32.to_le_bytes());
    for i in 0..48 {
        if !(8..12).contains(&i) && !(38..42).contains(&i) {
            assert_eq!(work[i], 0x33, "byte {} must be the template's", i);
        }
    }
}

#[test]
fn difficulty_gate_exact_threshold() {
    let mut s = MiningSession::new(100, 0);
    let (_, found) = s.step(99, 0);
    assert!(!found, "one below the target must not trigger submission");
    let (_, found) = s.step(100, 0);
    assert!(found, "meeting the target exactly must trigger submission");
    let mut s2 = MiningSession::new(100, 0);
    let (_, found) = s2.step(101, 0);
    assert!(found);
}

#[test]
fn session_tracks_nonce_and_maximum() {
    let mut s = MiningSession::new(u64::MAX, 0);
    assert_eq!(s.nonce, 0);
    let (_, found) = s.step(10, 0);
    assert!(!found);
    assert_eq!(s.nonce, 1);
    assert_eq!(s.max_difficulty, 10);
    let (_, found) = s.step(5, 1);
    assert!(!found);
    assert_eq!(s.nonce, 2);
    assert_eq!(s.max_difficulty, 10);
}

#[test]
fn telemetry_rate_on_synthetic_clock() {
    // The clock advances by exactly 2 seconds for every C hashes; each
    // report must then show an instantaneous rate of C / 2.0.
    let c: u32 = 5;
    let mut s = MiningSession::new(u64::MAX, 0);
    let mut reports = 0usize;
    for i in 0..(3 * c) {
        let now = 2 * u64::from(i / c);
        let (telemetry, found) = s.step(0, now);
        assert!(!found);
        if i > 0 && i % c == 0 {
            let t = telemetry.expect("a report is due at each 2-second boundary");
            assert_eq!(t.hashes, u64::from(i));
            assert_eq!(t.elapsed_seconds, now);
            let rate = t.hashes as f64 / t.elapsed_seconds as f64;
            assert!((rate - f64::from(c) / 2.0).abs() < 1e-9);
            reports += 1;
        } else {
            assert!(telemetry.is_none());
        }
    }
    assert_eq!(reports, 2);
}

#[test]
fn telemetry_reports_running_maximum() {
    let mut s = MiningSession::new(u64::MAX, 0);
    let (t, _) = s.step(42, 0);
    assert!(t.is_none());
    let (t, _) = s.step(7, 2);
    let t = t.expect("two seconds elapsed");
    assert_eq!(t.max_difficulty, 42);
    assert_eq!(t.hashes, 1);
    assert_eq!(t.elapsed_seconds, 2);
}

#[test]
fn template_decodes_blobs() {
    let bh = vec![1u8; 50];
    let bt = vec![2u8; 60];
    let t = BlockTemplate::from_blobs(&hex_blob(&bh), &hex_blob(&bt), &hex_blob(&[0xaa]), 100)
        .expect("well-formed blobs");
    assert_eq!(t.blockhashing_bytes, bh);
    assert_eq!(t.blocktemplate_bytes, bt);
    assert_eq!(t.seed, vec![0xaa]);
    assert_eq!(t.target_difficulty, 100);
}

#[test]
fn template_rejects_bad_hex() {
    let good = hex_blob(&[3u8; 42]);
    let r = BlockTemplate::from_blobs(&b"zz".to_vec(), &good, &good, 1);
    assert_eq!(
        r.err(),
        Some(MinerError::InvalidBlob {
            blob: BlobKind::BlockHashing,
            cause: HexError::InvalidHexByte { index: 0 },
        })
    );
    let r = BlockTemplate::from_blobs(&good, &b"abc".to_vec(), &good, 1);
    assert_eq!(
        r.err(),
        Some(MinerError::InvalidBlob { blob: BlobKind::BlockTemplate, cause: HexError::OddLength })
    );
    let r = BlockTemplate::from_blobs(&good, &good, &b"a!".to_vec(), 1);
    assert_eq!(
        r.err(),
        Some(MinerError::InvalidBlob {
            blob: BlobKind::SeedHash,
            cause: HexError::InvalidHexByte { index: 1 },
        })
    );
}

#[test]
fn template_rejects_short_buffers() {
    let good = hex_blob(&[3u8; 42]);
    let short = hex_blob(&[3u8; 41]);
    let r = BlockTemplate::from_blobs(&short, &good, &good, 1);
    assert_eq!(r.err(), Some(MinerError::ShortBlob { blob: BlobKind::BlockHashing }));
    let r = BlockTemplate::from_blobs(&good, &short, &good, 1);
    assert_eq!(r.err(), Some(MinerError::ShortBlob { blob: BlobKind::BlockTemplate }));
}

#[test]
fn submission_splices_header_prefix() {
    let template_bytes = vec![9u8; 100];
    let mut header = vec![1u8; 50];
    header[0] = 0xee;
    header[41] = 0xdd;
    let spliced = build_submission_bytes(&template_bytes, &header);
    assert_eq!(spliced.len(), 100);
    assert_eq!(&spliced[0..42], &header[0..42]);
    assert!(spliced[42..].iter().all(|b| *b == 9));
}

#[test]
fn mining_scenario_finds_on_37th_attempt() {
    // Template whose seed hash is "aa" and whose target difficulty is
    // 100; the synthetic engine scores every attempt 99 except the
    // 37th, which scores exactly 100.
    let bh = vec![0u8; 46];
    let bt = vec![5u8; 46];
    let template =
        BlockTemplate::from_blobs(&hex_blob(&bh), &hex_blob(&bt), &b"aa".to_vec(), 100).unwrap();
    assert_eq!(template.seed, vec![0xaa]);

    let mut session = MiningSession::new(template.target_difficulty, 0);
    let mut evaluations = 0u32;
    let mut submissions: Vec<String> = Vec::new();
    let mut winning_header: Vec<u8> = Vec::new();
    loop {
        let mut work = template.blockhashing_bytes.clone();
        write_header_fields(&mut work, session.nonce, 0);
        evaluations += 1;
        let score: u64 = if evaluations == 37 { 100 } else { 99 };
        let (_, found) = session.step(score, 0);
        if found {
            submissions.push(template.submission_hex(&work));
            winning_header = work;
            break;
        }
        assert!(evaluations < 100, "the 37th attempt must have ended the loop");
    }
    assert_eq!(evaluations, 37);
    assert_eq!(submissions.len(), 1);
    let payload = hex::decode(&submissions[0]).unwrap();
    assert_eq!(&payload[0..42], &winning_header[0..42]);
    assert_eq!(&payload[42..], &template.blocktemplate_bytes[42..]);
}
