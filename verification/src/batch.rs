//! The measurement of one batch: corpus check, sizes, baseline run, and
//! the opening of the structured run.

use crate::baseline::{zstd_run_outcome, ZstdBenchmark, ZstdResult};
use crate::discovery::{BatchDirInfo, BatchMetadata};
use crate::proto::spec_from_compressor_name;
use crate::runner::{total_bytes, total_len, views, BenchmarkError};
use crate::structured::{spec_start, OpenZLBenchmark, OpenZLResult, PassAction};
use vstd::prelude::*;

verus! {

/// What was measured of one batch, in whole numbers: sizes in bytes, times
/// in nanoseconds.
#[derive(Debug)]
pub struct BatchMeasurement {
    pub dataset: String,
    pub batch_size: usize,
    /// Name of the compressor, or of the format where it is baseline-only.
    pub compressor: String,
    pub num_payloads: usize,
    pub total_data_points: usize,
    pub iterations: usize,
    pub total_uncompressed_bytes: u128,
    pub zstd_level: i32,
    pub zstd: ZstdResult,
    pub openzl: Option<OpenZLResult>,
}

/// What a request for a measurement consists of.
pub struct BatchRequest {
    pub dataset: Seq<char>,
    pub batch_size: usize,
    pub compressor: Seq<char>,
    pub total_data_points: usize,
    pub payloads: Seq<Seq<u8>>,
    pub zstd_level: i32,
    pub iterations: usize,
}

/// `measurement` answers `request` with a baseline measurement and no
/// structured one.
pub open spec fn answers(request: BatchRequest, measurement: BatchMeasurement) -> bool {
    &&& measurement.dataset@ == request.dataset
    &&& measurement.batch_size == request.batch_size
    &&& measurement.compressor@ == request.compressor
    &&& measurement.num_payloads == request.payloads.len()
    &&& measurement.total_data_points == request.total_data_points
    &&& measurement.iterations == request.iterations
    &&& measurement.total_uncompressed_bytes == total_len(request.payloads)
    &&& measurement.zstd_level == request.zstd_level
    &&& measurement.openzl is None
    &&& zstd_run_outcome(
        request.payloads,
        request.zstd_level,
        request.iterations,
        Ok(measurement.zstd),
    )
}

/// What a baseline-only measurement owes: `EmptyCorpus` exactly for a
/// batch without payloads; else a measurement that answers the request,
/// or the error of the zstd run.
pub open spec fn baseline_outcome(
    request: BatchRequest,
    r: Result<BatchMeasurement, BenchmarkError>,
) -> bool {
    match r {
        Ok(measurement) => request.payloads.len() > 0 && answers(request, measurement),
        Err(BenchmarkError::EmptyCorpus) => request.payloads.len() == 0,
        Err(e) => request.payloads.len() > 0 && zstd_run_outcome(
            request.payloads,
            request.zstd_level,
            request.iterations,
            Err(e),
        ),
    }
}

/// The request that the arguments of a measurement make up.
pub open spec fn request_of(
    batch_info: &BatchDirInfo,
    compressor_name: &str,
    metadata: &BatchMetadata,
    payloads: &Vec<Vec<u8>>,
    zstd_level: i32,
    iterations: usize,
) -> BatchRequest {
    BatchRequest {
        dataset: batch_info.dataset@,
        batch_size: batch_info.batch_size,
        compressor: compressor_name@,
        total_data_points: metadata.total_data_points,
        payloads: views(payloads@),
        zstd_level,
        iterations,
    }
}

/// Measures a batch with the baseline compressor alone.
pub fn run_zstd_only_benchmark(
    batch_info: &BatchDirInfo,
    compressor_name: &str,
    metadata: &BatchMetadata,
    payloads: &Vec<Vec<u8>>,
    zstd_level: i32,
    iterations: usize,
) -> (r: Result<BatchMeasurement, BenchmarkError>)
    ensures
        baseline_outcome(
            request_of(batch_info, compressor_name, metadata, payloads, zstd_level, iterations),
            r,
        ),
{
    let num_payloads: usize = payloads.len();
    if num_payloads == 0 {
        return Err(BenchmarkError::EmptyCorpus);
    }
    let total_uncompressed_bytes: u128 = total_bytes(payloads);
    let zstd_benchmark = ZstdBenchmark::new(zstd_level);
    let zstd = match zstd_benchmark.run(payloads, iterations) {
        Ok(zstd) => zstd,
        Err(e) => {
            return Err(e);
        },
    };
    Ok(
        BatchMeasurement {
            dataset: batch_info.dataset.clone(),
            batch_size: batch_info.batch_size,
            compressor: compressor_name.to_owned(),
            num_payloads,
            total_data_points: metadata.total_data_points,
            iterations,
            total_uncompressed_bytes,
            zstd_level,
            zstd,
            openzl: None,
        },
    )
}

/// The lengths of the byte strings.
pub open spec fn lens(items: Seq<Seq<u8>>) -> Seq<usize> {
    Seq::new(items.len(), |i: int| items[i].len() as usize)
}

/// What the first half of a measurement with both codecs owes: the
/// baseline half as for a baseline-only measurement; then
/// `UnknownCompressor` where no schema goes by the compressor's name, else
/// the opened book of the structured run and its first action.
pub open spec fn both_outcome(
    request: BatchRequest,
    r: Result<(BatchMeasurement, OpenZLBenchmark, PassAction), BenchmarkError>,
) -> bool {
    match r {
        Ok((measurement, book, action)) => {
            &&& request.payloads.len() > 0
            &&& answers(request, measurement)
            &&& spec_from_compressor_name(request.compressor) matches Some(schema)
            &&& (book@, action) == spec_start(schema, lens(request.payloads), request.iterations)
        },
        Err(BenchmarkError::UnknownCompressor) => {
            &&& request.payloads.len() > 0
            &&& spec_from_compressor_name(request.compressor) is None
        },
        Err(e) => baseline_outcome(request, Err(e)),
    }
}

/// Measures a batch with the baseline compressor and opens the structured
/// run over the same payloads. The driver carries that run through and
/// adds its result with `BatchMeasurement::with_structured`.
pub fn run_benchmark(
    batch_info: &BatchDirInfo,
    compressor_name: &str,
    metadata: &BatchMetadata,
    payloads: &Vec<Vec<u8>>,
    zstd_level: i32,
    iterations: usize,
) -> (r: Result<(BatchMeasurement, OpenZLBenchmark, PassAction), BenchmarkError>)
    ensures
        both_outcome(
            request_of(batch_info, compressor_name, metadata, payloads, zstd_level, iterations),
            r,
        ),
{
    let measurement = match run_zstd_only_benchmark(
        batch_info,
        compressor_name,
        metadata,
        payloads,
        zstd_level,
        iterations,
    ) {
        Ok(measurement) => measurement,
        Err(e) => {
            return Err(e);
        },
    };
    let benchmark = match OpenZLBenchmark::new(compressor_name) {
        Ok(benchmark) => benchmark,
        Err(e) => {
            return Err(e);
        },
    };
    let mut payload_lens: Vec<usize> = Vec::new();
    let mut i: usize = 0;
    while i < payloads.len()
        invariant
            i <= payloads.len(),
            payload_lens@ == lens(views(payloads@)).take(i as int),
        decreases payloads.len() - i,
    {
        payload_lens.push(payloads[i].len());
        assert(payload_lens@ =~= lens(views(payloads@)).take(i + 1));
        i += 1;
    }
    assert(payload_lens@ =~= lens(views(payloads@)));
    let (book, action) = benchmark.run(payload_lens, iterations);
    Ok((measurement, book, action))
}

impl BatchMeasurement {
    /// The measurement with the structured run's result added.
    pub fn with_structured(self, result: OpenZLResult) -> (r: Self)
        ensures
            r.openzl == Some(result),
            r.dataset == self.dataset,
            r.batch_size == self.batch_size,
            r.compressor == self.compressor,
            r.num_payloads == self.num_payloads,
            r.total_data_points == self.total_data_points,
            r.iterations == self.iterations,
            r.total_uncompressed_bytes == self.total_uncompressed_bytes,
            r.zstd_level == self.zstd_level,
            r.zstd == self.zstd,
    {
        BatchMeasurement { openzl: Some(result), ..self }
    }
}

} // verus!
