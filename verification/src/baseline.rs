//! The baseline benchmark: every payload through zstd and back.

use crate::clock::{elapsed_nanos, lemma_time_sum_fits};
use crate::runner::{roundtrip_verdict, total_bytes, total_len, verify_roundtrip, views, BenchmarkError};
use std::time::Instant;
use vstd::prelude::*;

verus! {

/// The zstd frame that `zstd::encode_all` makes of `data` at `level`.
pub uninterp spec fn zstd_frame(data: Seq<u8>, level: i32) -> Seq<u8>;

/// The bytes that `zstd::decode_all` gets out of `frame`.
pub uninterp spec fn zstd_content(frame: Seq<u8>) -> Seq<u8>;

/// Calls `zstd::encode_all` on the bytes of `data`. Where it succeeds, the
/// frame is the one that zstd makes of these bytes at this level; whether
/// it succeeds is not stated.
#[verifier::external_body]
fn encode_all(data: &Vec<u8>, level: i32) -> (r: Result<Vec<u8>, std::io::Error>)
    ensures
        r matches Ok(frame) ==> frame@ == zstd_frame(data@, level),
{
    ::zstd::encode_all(data.as_slice(), level)
}

/// Calls `zstd::decode_all` on the bytes of `frame`. Where it succeeds, the
/// result is what zstd gets out of these bytes; whether it succeeds is not
/// stated.
#[verifier::external_body]
fn decode_all(frame: &Vec<u8>) -> (r: Result<Vec<u8>, std::io::Error>)
    ensures
        r matches Ok(content) ==> content@ == zstd_content(frame@),
{
    ::zstd::decode_all(frame.as_slice())
}

/// The frames of all payloads, in order.
pub open spec fn frames(payloads: Seq<Seq<u8>>, level: i32) -> Seq<Seq<u8>> {
    Seq::new(payloads.len(), |i: int| zstd_frame(payloads[i], level))
}

/// The contents of all frames, in order.
pub open spec fn contents(frames: Seq<Seq<u8>>) -> Seq<Seq<u8>> {
    Seq::new(frames.len(), |i: int| zstd_content(frames[i]))
}

/// `time` can be what the calls of one pass over `count` items took
/// together: nothing where there is no item, and at most the largest
/// 64-bit number of nanoseconds for each item, since one call's time is cut
/// to 64 bits.
pub open spec fn is_pass_time(time: u128, count: nat) -> bool {
    if count == 0 {
        time == 0
    } else {
        time <= count * u64::MAX
    }
}

/// Each of `times` can be the time of a pass over `count` items.
pub open spec fn are_pass_times(times: Seq<u128>, count: nat) -> bool {
    forall|i: int| 0 <= i < times.len() ==> is_pass_time(#[trigger] times[i], count)
}

/// What a zstd run of `iterations` passes over `payloads` at `level` owes.
///
/// A result has one compression and one decompression time for each pass,
/// each of them a pass time over the payloads, so zero where there is no
/// payload. Where there was a pass, the result has the total size of the
/// payloads' frames, and every payload has come back from its frame as it
/// went in. A run fails only where there was a pass over some payload:
/// because zstd failed, or with the first payload that did not come back as
/// it went in.
pub open spec fn zstd_run_outcome(
    payloads: Seq<Seq<u8>>,
    level: i32,
    iterations: usize,
    r: Result<ZstdResult, BenchmarkError>,
) -> bool {
    let made = frames(payloads, level);
    match r {
        Ok(result) => {
            &&& result.compression_times@.len() == iterations
            &&& result.decompression_times@.len() == iterations
            &&& are_pass_times(result.compression_times@, payloads.len())
            &&& are_pass_times(result.decompression_times@, payloads.len())
            &&& iterations == 0 ==> result.total_compressed_bytes == 0
            &&& iterations > 0 ==> result.total_compressed_bytes == total_len(made)
            &&& iterations > 0 ==> contents(made) == payloads
        },
        Err(BenchmarkError::ZstdCompress(_)) => iterations > 0 && payloads.len() > 0,
        Err(BenchmarkError::ZstdDecompress(_)) => iterations > 0 && payloads.len() > 0,
        Err(e) => iterations > 0 && e is RoundTripMismatch && roundtrip_verdict(
            payloads,
            contents(made),
            Err(e),
        ),
    }
}

/// The check of the first pass holds of every pass: once a run with at
/// least one pass has succeeded, each payload comes back from its frame as
/// it went in whenever zstd makes that frame and reads it again. That zstd
/// gives every payload back is not assumed anywhere; a run finds it out.
pub proof fn lemma_checked_once_holds_always(
    payloads: Seq<Seq<u8>>,
    level: i32,
    iterations: usize,
    result: ZstdResult,
    index: int,
)
    requires
        iterations > 0,
        zstd_run_outcome(payloads, level, iterations, Ok(result)),
        0 <= index < payloads.len(),
    ensures
        zstd_content(zstd_frame(payloads[index], level)) == payloads[index],
{
    let made = frames(payloads, level);
    assert(contents(made)[index] == zstd_content(made[index]));
}

/// A zstd benchmark at one compression level.
pub struct ZstdBenchmark {
    level: i32,
}

/// What a zstd benchmark measured.
#[derive(Debug)]
pub struct ZstdResult {
    /// Total size of the frames of one pass, in bytes.
    pub total_compressed_bytes: u128,
    /// Time spent compressing, per pass, in nanoseconds.
    pub compression_times: Vec<u128>,
    /// Time spent decompressing, per pass, in nanoseconds.
    pub decompression_times: Vec<u128>,
}

impl ZstdBenchmark {
    /// The compression level of this benchmark.
    pub closed spec fn spec_level(&self) -> i32 {
        self.level
    }

    /// A benchmark at compression level `level`.
    pub fn new(level: i32) -> (r: Self)
        ensures
            r.spec_level() == level,
    {
        Self { level }
    }

    /// The compression level of this benchmark.
    pub fn level(&self) -> (r: i32)
        ensures
            r == self.spec_level(),
    {
        self.level
    }

    /// Runs `iterations` passes over the payloads: each pass compresses
    /// every payload and then decompresses every frame of that same pass.
    /// The first pass gives the compressed size and is checked for a
    /// faithful round trip.
    pub fn run(&self, payloads: &Vec<Vec<u8>>, iterations: usize) -> (r: Result<
        ZstdResult,
        BenchmarkError,
    >)
        ensures
            zstd_run_outcome(views(payloads@), self.spec_level(), iterations, r),
    {
        let mut compression_times: Vec<u128> = Vec::new();
        let mut decompression_times: Vec<u128> = Vec::new();
        let mut total_compressed_bytes: u128 = 0;
        let ghost made = frames(views(payloads@), self.level);
        let mut pass: usize = 0;
        while pass < iterations
            invariant
                pass <= iterations,
                made == frames(views(payloads@), self.spec_level()),
                compression_times@.len() == pass,
                decompression_times@.len() == pass,
                are_pass_times(compression_times@, payloads@.len()),
                are_pass_times(decompression_times@, payloads@.len()),
                pass == 0 ==> total_compressed_bytes == 0,
                pass > 0 ==> total_compressed_bytes == total_len(made),
                pass > 0 ==> contents(made) == views(payloads@),
            decreases iterations - pass,
        {
            let (compressed, compress_time) = self.compress_all(payloads)?;
            if pass == 0 {
                total_compressed_bytes = total_bytes(&compressed);
            }
            compression_times.push(compress_time);
            let (decompressed, decompress_time) = self.decompress_all(&compressed)?;
            assert(compressed@.len() == views(compressed@).len());
            decompression_times.push(decompress_time);
            if pass == 0 {
                match verify_roundtrip(payloads, &decompressed) {
                    Ok(()) => {
                        assert(contents(made) =~= views(payloads@));
                    },
                    Err(e) => {
                        return Err(e);
                    },
                }
            }
            pass += 1;
        }
        Ok(ZstdResult { total_compressed_bytes, compression_times, decompression_times })
    }

    /// Compresses every payload; gives the frames and the time that the
    /// calls took together, in nanoseconds: a pass time over the payloads.
    pub fn compress_all(&self, payloads: &Vec<Vec<u8>>) -> (r: Result<
        (Vec<Vec<u8>>, u128),
        BenchmarkError,
    >)
        ensures
            match r {
                Ok((made, time)) => {
                    &&& views(made@) == frames(views(payloads@), self.spec_level())
                    &&& is_pass_time(time, payloads@.len())
                },
                Err(e) => e is ZstdCompress && payloads.len() > 0,
            },
    {
        let n: usize = payloads.len();
        let mut compressed: Vec<Vec<u8>> = Vec::new();
        let mut total_time: u128 = 0;
        let mut i: usize = 0;
        while i < n
            invariant
                n == payloads.len(),
                i <= n,
                compressed@.len() == i,
                forall|j: int|
                    0 <= j < i ==> (#[trigger] compressed@[j])@ == zstd_frame(
                        payloads@[j]@,
                        self.spec_level(),
                    ),
                total_time <= i * u64::MAX,
            decreases n - i,
        {
            let start = Instant::now();
            let frame = match encode_all(&payloads[i], self.level) {
                Ok(frame) => frame,
                Err(e) => {
                    return Err(BenchmarkError::ZstdCompress(e));
                },
            };
            let spent: u64 = elapsed_nanos(&start);
            proof {
                lemma_time_sum_fits(total_time, i, spent);
            }
            total_time = total_time + spent as u128;
            compressed.push(frame);
            i += 1;
        }
        assert(views(compressed@) =~= frames(views(payloads@), self.spec_level()));
        Ok((compressed, total_time))
    }

    /// Decompresses every frame; gives the contents and the time that the
    /// calls took together, in nanoseconds: a pass time over the frames.
    pub fn decompress_all(&self, compressed: &Vec<Vec<u8>>) -> (r: Result<
        (Vec<Vec<u8>>, u128),
        BenchmarkError,
    >)
        ensures
            match r {
                Ok((got, time)) => {
                    &&& views(got@) == contents(views(compressed@))
                    &&& is_pass_time(time, compressed@.len())
                },
                Err(e) => e is ZstdDecompress && compressed.len() > 0,
            },
    {
        let n: usize = compressed.len();
        let mut decompressed: Vec<Vec<u8>> = Vec::new();
        let mut total_time: u128 = 0;
        let mut i: usize = 0;
        while i < n
            invariant
                n == compressed.len(),
                i <= n,
                decompressed@.len() == i,
                forall|j: int|
                    0 <= j < i ==> (#[trigger] decompressed@[j])@ == zstd_content(compressed@[j]@),
                total_time <= i * u64::MAX,
            decreases n - i,
        {
            let start = Instant::now();
            let content = match decode_all(&compressed[i]) {
                Ok(content) => content,
                Err(e) => {
                    return Err(BenchmarkError::ZstdDecompress(e));
                },
            };
            let spent: u64 = elapsed_nanos(&start);
            proof {
                lemma_time_sum_fits(total_time, i, spent);
            }
            total_time = total_time + spent as u128;
            decompressed.push(content);
            i += 1;
        }
        assert(views(decompressed@) =~= contents(views(compressed@)));
        Ok((decompressed, total_time))
    }
}

} // verus!
