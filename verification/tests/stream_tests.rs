use content_integrity::progress::Progress;
use content_integrity::stream::{
    classify_failure, declares_too_much, validate_bao, validate_reporting, BaoValidationError,
    Phase, ProgressReader, ProgressReaderUpdate, ReadFailure, ReadStep, ValidatingReader,
    VALIDATE_BUFFER_LEN,
};

fn content(len: usize) -> Vec<u8> {
    let mut data = Vec::with_capacity(len);
    let mut x: u32 = 12345;
    for _ in 0..len {
        x = x.wrapping_mul(1103515245).wrapping_add(12345);
        data.push((x >> 16) as u8);
    }
    data
}

fn honest(data: &[u8]) -> (Vec<u8>, content_integrity::hash::Hash) {
    let (outboard, hash) = abao::encode::outboard(data);
    (outboard, content_integrity::hash::Hash::from(*hash.as_bytes()))
}

fn read_all(reader: &mut ValidatingReader, buf_len: usize) -> (Vec<u8>, Vec<ReadStep>) {
    let mut out = Vec::new();
    let mut steps = Vec::new();
    let mut buf = vec![0u8; buf_len];
    loop {
        let step = reader.read(&mut buf);
        steps.push(step);
        match step.result {
            Ok(0) => break,
            Ok(n) => out.extend_from_slice(&buf[..n]),
            Err(_) => break,
        }
    }
    (out, steps)
}

const SIZES: [usize; 9] = [0, 1, 1023, 1024, 1025, 16384, 16385, 40000, 100000];

#[test]
fn honest_content_validates() {
    for len in SIZES {
        let data = content(len);
        let (outboard, hash) = honest(&data);
        assert_eq!(
            validate_bao(hash, data, outboard, &Progress::none()),
            Ok(()),
            "len {}",
            len
        );
    }
}

#[test]
fn honest_content_reports_its_whole_length() {
    for len in SIZES {
        let data = content(len);
        let (outboard, hash) = honest(&data);
        let (tx, mut rx) = tokio::sync::mpsc::channel::<u64>(64);
        assert_eq!(validate_bao(hash, data, outboard, &Progress::new(tx)), Ok(()));
        let mut last = 0u64;
        while let Ok(confirmed) = rx.try_recv() {
            assert!(confirmed > last);
            last = confirmed;
        }
        assert_eq!(last, len as u64);
    }
}

#[test]
fn reading_yields_exactly_the_content() {
    for len in SIZES {
        for buf_len in [1usize, 7, 1024, 16384, VALIDATE_BUFFER_LEN, 70000] {
            if buf_len < 1024 && len > 20000 {
                continue;
            }
            let data = content(len);
            let (outboard, hash) = honest(&data);
            let mut reader = ValidatingReader::open(hash, data.clone(), outboard);
            assert_eq!(reader.phase(), Phase::Unopened);
            assert_eq!(reader.offset(), 0);
            let (out, steps) = read_all(&mut reader, buf_len);
            assert_eq!(out, data);
            assert_eq!(reader.phase(), Phase::Exhausted);
            assert_eq!(reader.offset(), len as u64);
            let last = steps.last().unwrap();
            assert_eq!(
                *last,
                ReadStep { result: Ok(0), update: None, done: true }
            );
            let mut total = 0u64;
            for step in &steps[..steps.len() - 1] {
                let n = step.result.unwrap();
                assert!(n > 0 && n <= buf_len);
                total += n as u64;
                assert_eq!(step.update, Some(ProgressReaderUpdate::Progress(total)));
                assert!(!step.done);
            }
            assert_eq!(total, len as u64);
            assert!(!reader.close());
        }
    }
}

#[test]
fn a_changed_byte_fails_validation() {
    for len in [1usize, 1024, 16385, 40000, 100000] {
        for at in [0, len / 2, len - 1] {
            let data = content(len);
            let (outboard, hash) = honest(&data);
            let mut bad = data.clone();
            bad[at] ^= 0x01;
            assert_eq!(
                validate_bao(hash, bad, outboard, &Progress::none()),
                Err(BaoValidationError::VerificationError),
                "len {} at {}",
                len,
                at
            );
        }
    }
}

#[test]
fn nothing_past_a_changed_byte_is_handed_out() {
    let len = 100000;
    let at = 50000;
    let data = content(len);
    let (outboard, hash) = honest(&data);
    let mut bad = data.clone();
    bad[at] ^= 0x80;
    let mut reader = ValidatingReader::open(hash, bad, outboard);
    let (out, steps) = read_all(&mut reader, 4096);
    assert!(out.len() <= at);
    assert_eq!(out[..], data[..out.len()]);
    assert_eq!(reader.offset(), out.len() as u64);
    assert_eq!(
        *steps.last().unwrap(),
        ReadStep {
            result: Err(BaoValidationError::VerificationError),
            update: None,
            done: true
        }
    );
    assert_eq!(
        reader.phase(),
        Phase::Failed(BaoValidationError::VerificationError)
    );
}

#[test]
fn a_failed_read_leaves_the_buffer_alone() {
    let data = content(5000);
    let (outboard, hash) = honest(&data);
    let mut bad = data.clone();
    bad[100] ^= 0xff;
    let mut reader = ValidatingReader::open(hash, bad, outboard);
    let mut buf = vec![0xaau8; 20000];
    let step = reader.read(&mut buf);
    assert_eq!(step.result, Err(BaoValidationError::VerificationError));
    assert_eq!(buf, vec![0xaau8; 20000]);
}

#[test]
fn a_read_fills_only_the_front_of_the_buffer() {
    let data = content(3000);
    let (outboard, hash) = honest(&data);
    let mut reader = ValidatingReader::open(hash, data.clone(), outboard);
    let mut buf = vec![0xaau8; 5000];
    let step = reader.read(&mut buf);
    assert_eq!(step.result, Ok(3000));
    assert_eq!(buf[..3000], data[..]);
    assert_eq!(buf[3000..], vec![0xaau8; 2000][..]);
}

#[test]
fn truncated_content_fails_validation() {
    for len in [1usize, 1024, 16385, 40000] {
        for keep in [0, len / 2, len - 1] {
            let data = content(len);
            let (outboard, hash) = honest(&data);
            let short = data[..keep].to_vec();
            assert_eq!(
                validate_bao(hash, short, outboard, &Progress::none()),
                Err(BaoValidationError::VerificationError),
                "len {} keep {}",
                len,
                keep
            );
        }
    }
}

#[test]
fn a_damaged_or_short_tree_fails_validation() {
    let data = content(100000);
    let (outboard, hash) = honest(&data);
    let mut damaged = outboard.clone();
    damaged[20] ^= 0x01;
    assert_eq!(
        validate_bao(hash, data.clone(), damaged, &Progress::none()),
        Err(BaoValidationError::VerificationError)
    );
    let short = outboard[..outboard.len() - 1].to_vec();
    assert_eq!(
        validate_bao(hash, data.clone(), short, &Progress::none()),
        Err(BaoValidationError::VerificationError)
    );
    assert_eq!(
        validate_bao(hash, data, Vec::new(), &Progress::none()),
        Err(BaoValidationError::VerificationError)
    );
}

#[test]
fn the_wrong_root_hash_fails_validation() {
    let data = content(2000);
    let (outboard, _) = honest(&data);
    let other = content_integrity::hash::Hash::new(b"something else");
    assert_eq!(
        validate_bao(other, data, outboard, &Progress::none()),
        Err(BaoValidationError::VerificationError)
    );
}

#[test]
fn a_disabled_channel_changes_no_result() {
    let data = content(40000);
    let (outboard, hash) = honest(&data);
    let (tx, mut rx) = tokio::sync::mpsc::channel::<u64>(64);
    let with = validate_bao(hash, data.clone(), outboard.clone(), &Progress::new(tx));
    let without = validate_bao(hash, data.clone(), outboard.clone(), &Progress::none());
    assert_eq!(with, without);
    assert!(rx.try_recv().is_ok());

    let mut bad = data;
    bad[7] ^= 1;
    let (tx, _rx) = tokio::sync::mpsc::channel::<u64>(64);
    let with = validate_bao(hash, bad.clone(), outboard.clone(), &Progress::new(tx));
    let without = validate_bao(hash, bad, outboard, &Progress::none());
    assert_eq!(with, without);
}

#[test]
fn a_full_queue_does_not_stop_validation() {
    let data = content(100000);
    let (outboard, hash) = honest(&data);
    let (tx, mut rx) = tokio::sync::mpsc::channel::<u64>(1);
    assert_eq!(validate_bao(hash, data, outboard, &Progress::new(tx)), Ok(()));
    assert!(rx.try_recv().is_ok());
    assert!(rx.try_recv().is_err());
}

#[test]
fn abandoning_a_stream_owes_one_done() {
    let data = content(100000);
    let (outboard, hash) = honest(&data);
    let mut reader = ValidatingReader::open(hash, data, outboard);
    let mut buf = vec![0u8; 1000];
    let mut done_events = 0;
    for _ in 0..5 {
        let step = reader.read(&mut buf);
        assert_eq!(step.result, Ok(1000));
        if step.done {
            done_events += 1;
        }
    }
    assert_eq!(reader.phase(), Phase::Reading);
    if reader.close() {
        done_events += 1;
    }
    assert_eq!(done_events, 1);
}

#[test]
fn a_stream_that_was_never_read_owes_one_done() {
    let data = content(10);
    let (outboard, hash) = honest(&data);
    let reader = ValidatingReader::open(hash, data, outboard);
    assert!(reader.close());
    assert!(ProgressReader::new().finish());
}

#[test]
fn an_ended_stream_is_not_read_again() {
    let data = content(10);
    let (outboard, hash) = honest(&data);
    let mut reader = ValidatingReader::open(hash, data, outboard);
    let (_, steps) = read_all(&mut reader, 100);
    assert_eq!(steps.iter().filter(|s| s.done).count(), 1);
    let mut buf = vec![1u8; 100];
    for _ in 0..3 {
        let step = reader.read(&mut buf);
        assert_eq!(step, ReadStep { result: Ok(0), update: None, done: false });
        assert_eq!(buf, vec![1u8; 100]);
    }
    assert!(!reader.close());

    let mut bad = content(10);
    let (outboard, hash) = honest(&bad);
    bad[0] ^= 1;
    let mut reader = ValidatingReader::open(hash, bad, outboard);
    let (_, steps) = read_all(&mut reader, 100);
    assert_eq!(steps.iter().filter(|s| s.done).count(), 1);
    for _ in 0..3 {
        let step = reader.read(&mut buf);
        assert_eq!(
            step,
            ReadStep {
                result: Err(BaoValidationError::VerificationError),
                update: None,
                done: false
            }
        );
    }
    assert!(!reader.close());
}

#[test]
fn an_empty_buffer_reads_nothing_and_ends_nothing() {
    let data = content(10);
    let (outboard, hash) = honest(&data);
    let mut reader = ValidatingReader::open(hash, data, outboard);
    let mut empty: Vec<u8> = Vec::new();
    let step = reader.read(&mut empty);
    assert_eq!(step, ReadStep { result: Ok(0), update: None, done: false });
    assert_eq!(reader.phase(), Phase::Unopened);
    let mut buf = vec![0u8; 4];
    assert_eq!(reader.read(&mut buf).result, Ok(4));
    assert_eq!(reader.read(&mut empty).result, Ok(0));
    assert_eq!(reader.phase(), Phase::Reading);
    assert_eq!(reader.offset(), 4);
}

#[test]
fn the_tracker_follows_reported_reads() {
    let mut tracker = ProgressReader::new();
    assert_eq!(tracker.phase(), Phase::Unopened);
    assert_eq!(tracker.offset(), 0);
    assert!(!tracker.is_terminal());

    let step = tracker.record(Ok(100), 4096);
    assert_eq!(
        step,
        ReadStep {
            result: Ok(100),
            update: Some(ProgressReaderUpdate::Progress(100)),
            done: false
        }
    );
    let step = tracker.record(Ok(4096), 4096);
    assert_eq!(
        step,
        ReadStep {
            result: Ok(4096),
            update: Some(ProgressReaderUpdate::Progress(4196)),
            done: false
        }
    );
    assert_eq!(tracker.offset(), 4196);
    assert_eq!(tracker.phase(), Phase::Reading);

    let step = tracker.record(Ok(0), 4096);
    assert_eq!(step, ReadStep { result: Ok(0), update: None, done: true });
    assert_eq!(tracker.phase(), Phase::Exhausted);
    assert!(tracker.is_terminal());
    assert_eq!(tracker.offset(), 4196);

    let step = tracker.record(Ok(5), 4096);
    assert_eq!(step, ReadStep { result: Ok(0), update: None, done: false });
    assert_eq!(tracker.offset(), 4196);
    assert!(!tracker.finish());
}

#[test]
fn the_tracker_tells_failures_apart() {
    for (failure, error) in [
        (ReadFailure::HashMismatch, BaoValidationError::VerificationError),
        (ReadFailure::Truncated, BaoValidationError::VerificationError),
        (ReadFailure::Io, BaoValidationError::IoError),
    ] {
        assert_eq!(classify_failure(failure), error);
        let mut tracker = ProgressReader::new();
        tracker.record(Ok(10), 64);
        let step = tracker.record(Err(failure), 64);
        assert_eq!(step, ReadStep { result: Err(error), update: None, done: true });
        assert_eq!(tracker.phase(), Phase::Failed(error));
        assert_eq!(tracker.offset(), 10);
        let again = tracker.record(Ok(3), 64);
        assert_eq!(again, ReadStep { result: Err(error), update: None, done: false });
        assert!(!tracker.finish());
    }
}

fn tree_declaring(len: u64, nodes: usize) -> Vec<u8> {
    let mut tree = len.to_le_bytes().to_vec();
    tree.extend(std::iter::repeat(0x5au8).take(nodes * 64));
    tree
}

#[test]
fn a_tree_may_declare_at_most_two_to_the_63() {
    assert!(!declares_too_much(&tree_declaring(0, 0)));
    assert!(!declares_too_much(&tree_declaring(1 << 40, 0)));
    assert!(!declares_too_much(&tree_declaring(1 << 63, 0)));
    assert!(declares_too_much(&tree_declaring((1 << 63) + 1, 0)));
    assert!(declares_too_much(&tree_declaring((1 << 63) + 256, 0)));
    assert!(declares_too_much(&tree_declaring((1 << 63) + (1 << 48), 0)));
    assert!(declares_too_much(&tree_declaring(u64::MAX, 0)));
    assert!(declares_too_much(&tree_declaring(0x8100_0000_0000_0000, 0)));
    assert!(!declares_too_much(&tree_declaring(0x7fff_ffff_ffff_ffff, 0)));
    assert!(!declares_too_much(&[0xffu8; 7].to_vec()));
    assert!(!declares_too_much(&Vec::new()));
}

#[test]
fn a_tree_that_declares_too_much_fails_validation() {
    for len in [(1u64 << 63) + 1, u64::MAX] {
        // Parent nodes that hash up to the root, as deep as the tree claims to be.
        let mut nodes: Vec<[u8; 64]> = Vec::new();
        let mut expected = blake3::hash(b"leaf");
        for depth in 0..50 {
            let mut node = [0u8; 64];
            node[..32].copy_from_slice(expected.as_bytes());
            node[32..].copy_from_slice(blake3::hash(&[depth as u8]).as_bytes());
            let left = blake3::Hash::from(*expected.as_bytes());
            let right = blake3::hash(&[depth as u8]);
            expected = blake3::guts::parent_cv(&left, &right, depth == 49);
            nodes.push(node);
        }
        let mut tree = len.to_le_bytes().to_vec();
        for node in nodes.iter().rev() {
            tree.extend_from_slice(node);
        }
        let root = content_integrity::hash::Hash::from(*expected.as_bytes());
        assert_eq!(
            validate_bao(root, content(100), tree.clone(), &Progress::none()),
            Err(BaoValidationError::VerificationError)
        );
        let mut reader = ValidatingReader::open(root, content(100), tree);
        let mut buf = vec![7u8; 64];
        assert_eq!(
            reader.read(&mut buf),
            ReadStep {
                result: Err(BaoValidationError::VerificationError),
                update: None,
                done: true
            }
        );
        assert_eq!(buf, vec![7u8; 64]);
        assert!(!reader.close());
    }
}

#[test]
fn a_tree_at_the_limit_goes_to_the_decoder() {
    let tree = tree_declaring(1 << 63, 49);
    let root = content_integrity::hash::Hash::new(b"x");
    assert_eq!(
        validate_bao(root, content(100), tree, &Progress::none()),
        Err(BaoValidationError::VerificationError)
    );
}

#[test]
fn the_counts_returned_are_the_counts_offered() {
    for len in SIZES {
        let data = content(len);
        let (outboard, hash) = honest(&data);
        let (tx, mut rx) = tokio::sync::mpsc::channel::<u64>(64);
        let (outcome, counts) = validate_reporting(hash, data, outboard, &Progress::new(tx));
        assert_eq!(outcome, Ok(()));
        let mut offered = Vec::new();
        while let Ok(confirmed) = rx.try_recv() {
            offered.push(confirmed);
        }
        assert_eq!(counts, offered);
        assert_eq!(counts.last().copied().unwrap_or(0), len as u64);
        assert!(counts.windows(2).all(|w| w[0] < w[1]));
    }
    let data = content(100000);
    let (outboard, hash) = honest(&data);
    let mut bad = data;
    bad[50000] ^= 1;
    let (outcome, counts) = validate_reporting(hash, bad, outboard, &Progress::none());
    assert_eq!(outcome, Err(BaoValidationError::VerificationError));
    assert!(counts.iter().all(|c| *c <= 50000));
    assert!(counts.windows(2).all(|w| w[0] < w[1]));
}
