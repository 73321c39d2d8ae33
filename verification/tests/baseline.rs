use openzl_bench::baseline::ZstdBenchmark;
use openzl_bench::runner::{same_bytes, total_bytes, verify_roundtrip, BenchmarkError};

fn corpus() -> Vec<Vec<u8>> {
    vec![
        b"Hello, codec! This is a test of compression and decompression.".to_vec(),
        vec![b'A'; 10000],
        (0..=255u8).cycle().take(1024).collect(),
        Vec::new(),
        vec![0u8],
    ]
}

#[test]
fn every_payload_comes_back_from_zstd_as_it_went_in() {
    let payloads = corpus();
    for level in [1, 3, 9, 19] {
        let benchmark = ZstdBenchmark::new(level);
        let (frames, _) = benchmark.compress_all(&payloads).unwrap();
        assert_eq!(frames.len(), payloads.len());
        let (back, _) = benchmark.decompress_all(&frames).unwrap();
        assert_eq!(back, payloads);
    }
}

#[test]
fn frames_are_not_the_payloads() {
    let payloads = corpus();
    let (frames, _) = ZstdBenchmark::new(3).compress_all(&payloads).unwrap();
    for (frame, payload) in frames.iter().zip(payloads.iter()) {
        assert_ne!(frame, payload);
        // every zstd frame begins with the format's magic number
        assert_eq!(&frame[..4], &[0x28, 0xB5, 0x2F, 0xFD]);
    }
    assert!(frames[1].len() < payloads[1].len(), "Repetitive data should compress");
}

#[test]
fn decompression_gives_the_content_not_the_frame() {
    let payloads = vec![vec![b'z'; 5000]];
    let benchmark = ZstdBenchmark::new(3);
    let (frames, _) = benchmark.compress_all(&payloads).unwrap();
    let (back, _) = benchmark.decompress_all(&frames).unwrap();
    assert_ne!(back[0], frames[0]);
    assert_eq!(back[0].len(), 5000);
}

#[test]
fn the_same_payload_gives_the_same_frame() {
    let payloads = corpus();
    let first = ZstdBenchmark::new(9).compress_all(&payloads).unwrap().0;
    let second = ZstdBenchmark::new(9).compress_all(&payloads).unwrap().0;
    assert_eq!(first, second);
}

#[test]
fn what_is_no_frame_fails_to_decompress() {
    let garbage = vec![b"this is not a zstd frame".to_vec()];
    let error = ZstdBenchmark::new(3).decompress_all(&garbage).unwrap_err();
    assert!(matches!(error, BenchmarkError::ZstdDecompress(_)));
}

#[test]
fn a_run_times_every_pass_and_sizes_the_first() {
    let payloads = corpus();
    let benchmark = ZstdBenchmark::new(3);
    let result = benchmark.run(&payloads, 3).unwrap();
    assert_eq!(result.compression_times.len(), 3);
    assert_eq!(result.decompression_times.len(), 3);
    let (frames, _) = benchmark.compress_all(&payloads).unwrap();
    let expected: usize = frames.iter().map(|frame| frame.len()).sum();
    assert_eq!(result.total_compressed_bytes, expected as u128);
}

#[test]
fn a_run_without_passes_measures_nothing() {
    let result = ZstdBenchmark::new(3).run(&corpus(), 0).unwrap();
    assert!(result.compression_times.is_empty());
    assert!(result.decompression_times.is_empty());
    assert_eq!(result.total_compressed_bytes, 0);
}

#[test]
fn a_run_over_no_payloads_takes_no_time() {
    let result = ZstdBenchmark::new(3).run(&Vec::new(), 4).unwrap();
    assert_eq!(result.compression_times, vec![0, 0, 0, 0]);
    assert_eq!(result.decompression_times, vec![0, 0, 0, 0]);
    assert_eq!(result.total_compressed_bytes, 0);
}

#[test]
fn passes_over_no_payloads_take_no_time() {
    let benchmark = ZstdBenchmark::new(3);
    let (frames, time) = benchmark.compress_all(&Vec::new()).unwrap();
    assert!(frames.is_empty());
    assert_eq!(time, 0);
    let (contents, time) = benchmark.decompress_all(&Vec::new()).unwrap();
    assert!(contents.is_empty());
    assert_eq!(time, 0);
    let result = benchmark.run(&Vec::new(), 2).unwrap();
    assert_eq!(result.total_compressed_bytes, 0);
    assert_eq!(result.compression_times, vec![0, 0]);
    assert_eq!(result.decompression_times, vec![0, 0]);
}

#[test]
fn pass_times_stay_within_their_bound() {
    let payloads = corpus();
    let bound = payloads.len() as u128 * u64::MAX as u128;
    let benchmark = ZstdBenchmark::new(3);
    let (frames, time) = benchmark.compress_all(&payloads).unwrap();
    assert!(time <= bound);
    let (_, time) = benchmark.decompress_all(&frames).unwrap();
    assert!(time <= bound);
    let result = benchmark.run(&payloads, 2).unwrap();
    assert!(result.compression_times.iter().all(|time| *time <= bound));
    assert!(result.decompression_times.iter().all(|time| *time <= bound));
}

#[test]
fn keeps_its_level() {
    assert_eq!(ZstdBenchmark::new(9).level(), 9);
    assert_eq!(ZstdBenchmark::new(-5).level(), -5);
}

#[test]
fn roundtrip_check_passes_identical_lists() {
    let payloads = corpus();
    assert!(verify_roundtrip(&payloads, &payloads.clone()).is_ok());
    assert!(verify_roundtrip(&Vec::new(), &Vec::new()).is_ok());
}

#[test]
fn roundtrip_check_names_the_first_payload_that_differs() {
    let original = vec![vec![1u8, 2, 3], vec![4u8, 5], vec![6u8], vec![7u8, 8, 9, 10]];
    let mut back = original.clone();
    back[1] = vec![4u8, 5, 0];
    back[3] = vec![7u8];
    match verify_roundtrip(&original, &back) {
        Err(BenchmarkError::RoundTripMismatch { index, original_len, decompressed_len }) => {
            assert_eq!(index, 1);
            assert_eq!(original_len, 2);
            assert_eq!(decompressed_len, 3);
        }
        other => panic!("unexpected verdict {:?}", other),
    }
}

#[test]
fn roundtrip_check_sees_a_changed_byte_of_equal_length() {
    let original = vec![vec![1u8, 2, 3]];
    let back = vec![vec![1u8, 2, 4]];
    match verify_roundtrip(&original, &back) {
        Err(BenchmarkError::RoundTripMismatch { index, original_len, decompressed_len }) => {
            assert_eq!((index, original_len, decompressed_len), (0, 3, 3));
        }
        other => panic!("unexpected verdict {:?}", other),
    }
}

#[test]
fn roundtrip_check_compares_pairs_only() {
    let original = vec![vec![1u8], vec![2u8]];
    assert!(verify_roundtrip(&original, &vec![vec![1u8]]).is_ok());
    assert!(verify_roundtrip(&vec![vec![1u8]], &original).is_ok());
    assert!(verify_roundtrip(&original, &Vec::new()).is_ok());
}

#[test]
fn sums_payload_sizes() {
    assert_eq!(total_bytes(&Vec::new()), 0);
    assert_eq!(total_bytes(&corpus()), 62 + 10000 + 1024 + 0 + 1);
    assert_eq!(total_bytes(&vec![Vec::new(), Vec::new()]), 0);
}

#[test]
fn compares_bytes() {
    assert!(same_bytes(&vec![], &vec![]));
    assert!(same_bytes(&vec![1, 2, 3], &vec![1, 2, 3]));
    assert!(!same_bytes(&vec![1, 2, 3], &vec![1, 2]));
    assert!(!same_bytes(&vec![1, 2, 3], &vec![1, 2, 4]));
}
