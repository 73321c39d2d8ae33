//! The structured benchmark: every payload through the schema-aware codec
//! and back, pass after pass.
//!
//! The codec is the native engine, so the library runs no loop here. It
//! keeps the book of a run: it says which payload is compressed,
//! decompressed or compared next, takes what came of it, and closes the run
//! with its result or with the first error.

use crate::clock::lemma_time_sum_fits;
use crate::proto::{spec_from_compressor_name, ProtoSchema};
use crate::runner::BenchmarkError;
use crate::session::OpenZLError;
use vstd::prelude::*;

verus! {

/// What a structured benchmark measured.
#[derive(Debug)]
pub struct OpenZLResult {
    /// Total size of the frames of the first pass, in bytes.
    pub total_compressed_bytes: u128,
    /// Time spent compressing, per pass, in nanoseconds.
    pub compression_times: Vec<u128>,
    /// Time spent decompressing, per pass, in nanoseconds.
    pub decompression_times: Vec<u128>,
}

/// The part of a pass that a run is in.
#[derive(Debug, Clone, Copy, PartialEq, Eq)]
pub enum Phase {
    Compressing,
    Decompressing,
    /// Comparing what the first pass gave back with what went in.
    Verifying,
    Succeeded,
    Failed,
}

/// What the driver does next.
#[derive(Debug)]
pub enum PassAction {
    /// Compress the payload at `index`, keep the frame, time the call.
    Compress { index: usize },
    /// Decompress the frame that this pass made of the payload at `index`,
    /// and time the call.
    Decompress { index: usize },
    /// Ask the engine whether what the first pass gave back for the payload
    /// at `index` is the same message as the payload.
    Compare { index: usize },
    /// The run is over; `OpenZLBenchmark::result` holds what it measured.
    Succeed,
    /// The run is over and has no result.
    Fail(BenchmarkError),
}

/// What came of the last action.
#[derive(Debug)]
pub enum PassEvent {
    /// The frame's length or the engine's error, and the call's time.
    Compressed { outcome: Result<usize, OpenZLError>, nanos: u64 },
    /// The decompressed length or the engine's error, and the call's time.
    Decompressed { outcome: Result<usize, OpenZLError>, nanos: u64 },
    /// The engine's verdict.
    Compared { equivalent: bool },
}

/// The book of a run, as mathematics.
pub struct RunModel {
    pub schema: ProtoSchema,
    /// Length of each payload.
    pub payload_lens: Seq<usize>,
    pub iterations: usize,
    /// Passes completed.
    pub pass: usize,
    pub phase: Phase,
    /// Payloads done in this phase.
    pub index: usize,
    /// Time of the calls of this phase so far.
    pub phase_time: u128,
    /// Bytes of the frames that the first pass has made so far.
    pub compressed_bytes: u128,
    /// Lengths of what the first pass has given back so far.
    pub decompressed_lens: Seq<usize>,
    /// Payloads of the first pass that the engine has judged to have come
    /// back as the message that went in.
    pub verified: usize,
    pub compression_times: Seq<u128>,
    pub decompression_times: Seq<u128>,
}

impl RunModel {
    /// The book is consistent: the counters are in range, each pass that
    /// has compressed or decompressed everything has its time recorded,
    /// and a run that succeeded has the times of all its passes.
    pub open spec fn wf(self) -> bool {
        let n = self.payload_lens.len();
        &&& n <= usize::MAX
        &&& self.pass <= self.iterations
        &&& self.phase_time <= self.index * u64::MAX
        &&& self.compressed_bytes <= n * usize::MAX
        &&& match self.phase {
            Phase::Compressing => {
                &&& self.pass < self.iterations
                &&& self.index < n
                &&& self.compression_times.len() == self.pass
                &&& self.decompression_times.len() == self.pass
                &&& self.pass == 0 ==> self.compressed_bytes <= self.index * usize::MAX
                &&& self.pass == 0 ==> self.decompressed_lens.len() == 0
                &&& self.pass > 0 ==> self.decompressed_lens.len() == n
                &&& self.verified == if self.pass == 0 {
                    0
                } else {
                    n
                }
            },
            Phase::Decompressing => {
                &&& self.pass < self.iterations
                &&& self.index < n
                &&& self.compression_times.len() == self.pass + 1
                &&& self.decompression_times.len() == self.pass
                &&& self.pass == 0 ==> self.decompressed_lens.len() == self.index
                &&& self.pass > 0 ==> self.decompressed_lens.len() == n
                &&& self.verified == if self.pass == 0 {
                    0
                } else {
                    n
                }
            },
            Phase::Verifying => {
                &&& self.pass == 0
                &&& self.pass < self.iterations
                &&& self.index < n
                &&& self.compression_times.len() == 1
                &&& self.decompression_times.len() == 1
                &&& self.decompressed_lens.len() == n
                &&& self.verified == self.index
            },
            Phase::Succeeded => {
                &&& self.pass == self.iterations
                &&& self.compression_times.len() == self.iterations
                &&& self.decompression_times.len() == self.iterations
                &&& self.iterations > 0 && n > 0 ==> self.verified == n
            },
            Phase::Failed => true,
        }
    }

    /// The book once the run has failed.
    pub open spec fn failed(self) -> RunModel {
        RunModel { phase: Phase::Failed, ..self }
    }

    /// The book and the action when pass `self.pass` is complete: the next
    /// pass begins with the first payload, or the run has succeeded.
    pub open spec fn pass_done(self) -> (RunModel, PassAction) {
        let pass = (self.pass + 1) as usize;
        if pass < self.iterations {
            (
                RunModel { pass, phase: Phase::Compressing, index: 0, phase_time: 0, ..self },
                PassAction::Compress { index: 0 },
            )
        } else {
            (
                RunModel { pass, phase: Phase::Succeeded, index: 0, phase_time: 0, ..self },
                PassAction::Succeed,
            )
        }
    }

    /// How the run goes on after `event`. `None` where `event` does not
    /// answer the action that the run waits for.
    pub open spec fn spec_step(self, event: PassEvent) -> Option<(RunModel, PassAction)> {
        let n = self.payload_lens.len();
        let next = (self.index + 1) as usize;
        match (self.phase, event) {
            (Phase::Compressing, PassEvent::Compressed { outcome: Err(source), .. }) => Some(
                (
                    self.failed(),
                    PassAction::Fail(
                        BenchmarkError::OpenZLCompress {
                            index: self.index,
                            len: self.payload_lens[self.index as int],
                            source,
                        },
                    ),
                ),
            ),
            (Phase::Compressing, PassEvent::Compressed { outcome: Ok(frame_len), nanos }) => {
                let time = (self.phase_time + nanos) as u128;
                let compressed_bytes = if self.pass == 0 {
                    (self.compressed_bytes + frame_len) as u128
                } else {
                    self.compressed_bytes
                };
                Some(
                    if next < n {
                        (
                            RunModel { index: next, phase_time: time, compressed_bytes, ..self },
                            PassAction::Compress { index: next },
                        )
                    } else {
                        (
                            RunModel {
                                phase: Phase::Decompressing,
                                index: 0,
                                phase_time: 0,
                                compressed_bytes,
                                compression_times: self.compression_times.push(time),
                                ..self
                            },
                            PassAction::Decompress { index: 0 },
                        )
                    },
                )
            },
            (Phase::Decompressing, PassEvent::Decompressed { outcome: Err(source), .. }) => Some(
                (
                    self.failed(),
                    PassAction::Fail(BenchmarkError::OpenZLDecompress { index: self.index, source }),
                ),
            ),
            (Phase::Decompressing, PassEvent::Decompressed { outcome: Ok(len), nanos }) => {
                let time = (self.phase_time + nanos) as u128;
                let decompressed_lens = if self.pass == 0 {
                    self.decompressed_lens.push(len)
                } else {
                    self.decompressed_lens
                };
                Some(
                    if next < n {
                        (
                            RunModel { index: next, phase_time: time, decompressed_lens, ..self },
                            PassAction::Decompress { index: next },
                        )
                    } else {
                        let timed = RunModel {
                            decompressed_lens,
                            verified: self.verified,
                            decompression_times: self.decompression_times.push(time),
                            ..self
                        };
                        if self.pass == 0 {
                            (
                                RunModel {
                                    phase: Phase::Verifying,
                                    index: 0,
                                    phase_time: 0,
                                    ..timed
                                },
                                PassAction::Compare { index: 0 },
                            )
                        } else {
                            timed.pass_done()
                        }
                    },
                )
            },
            (Phase::Verifying, PassEvent::Compared { equivalent }) => Some(
                if !equivalent {
                    (
                        self.failed(),
                        PassAction::Fail(
                            BenchmarkError::RoundTripMismatch {
                                index: self.index,
                                original_len: self.payload_lens[self.index as int],
                                decompressed_len: self.decompressed_lens[self.index as int],
                            },
                        ),
                    )
                } else if next < n {
                    (
                        RunModel { index: next, verified: next, ..self },
                        PassAction::Compare { index: next },
                    )
                } else {
                    RunModel { verified: next, ..self }.pass_done()
                },
            ),
            _ => None,
        }
    }
}

/// The book of the run that `OpenZLBenchmark::start` opens.
pub open spec fn spec_start(schema: ProtoSchema, payload_lens: Seq<usize>, iterations: usize) -> (
    RunModel,
    PassAction,
) {
    let zeros = Seq::new(iterations as nat, |i: int| 0u128);
    let book = RunModel {
        schema,
        payload_lens,
        iterations,
        pass: 0,
        phase: Phase::Compressing,
        index: 0,
        phase_time: 0,
        compressed_bytes: 0,
        decompressed_lens: Seq::empty(),
        verified: 0,
        compression_times: Seq::empty(),
        decompression_times: Seq::empty(),
    };
    if iterations == 0 || payload_lens.len() == 0 {
        (
            RunModel {
                pass: iterations,
                phase: Phase::Succeeded,
                compression_times: zeros,
                decompression_times: zeros,
                ..book
            },
            PassAction::Succeed,
        )
    } else {
        (book, PassAction::Compress { index: 0 })
    }
}

/// A structured benchmark with one schema, and the book of its run.
pub struct OpenZLBenchmark {
    schema: ProtoSchema,
    payload_lens: Vec<usize>,
    iterations: usize,
    pass: usize,
    phase: Phase,
    index: usize,
    phase_time: u128,
    compressed_bytes: u128,
    decompressed_lens: Vec<usize>,
    verified: usize,
    compression_times: Vec<u128>,
    decompression_times: Vec<u128>,
}

impl View for OpenZLBenchmark {
    type V = RunModel;

    closed spec fn view(&self) -> RunModel {
        RunModel {
            schema: self.schema,
            payload_lens: self.payload_lens@,
            iterations: self.iterations,
            pass: self.pass,
            phase: self.phase,
            index: self.index,
            phase_time: self.phase_time,
            compressed_bytes: self.compressed_bytes,
            decompressed_lens: self.decompressed_lens@,
            verified: self.verified,
            compression_times: self.compression_times@,
            decompression_times: self.decompression_times@,
        }
    }
}

/// The bytes of one more frame keep the first pass's total within bounds.
proof fn lemma_bytes_fit(sum: u128, count: usize, sample: usize, n: nat)
    requires
        sum <= count * usize::MAX,
        count < n <= usize::MAX,
    ensures
        sum + sample <= (count + 1) * usize::MAX,
        (count + 1) * usize::MAX <= n * usize::MAX,
        sum + sample <= u128::MAX,
{
    assert(count * usize::MAX + usize::MAX == (count + 1) * usize::MAX) by (nonlinear_arith);
    assert((count + 1) * usize::MAX <= n * usize::MAX) by (nonlinear_arith)
        requires
            count + 1 <= n,
    ;
    assert(n * usize::MAX <= 0x1_0000_0000_0000_0000 * 0x1_0000_0000_0000_0000)
        by (nonlinear_arith)
        requires
            n <= 0x1_0000_0000_0000_0000,
            usize::MAX <= 0x1_0000_0000_0000_0000,
    ;
}

impl OpenZLBenchmark {
    #[verifier::type_invariant]
    spec fn consistent(self) -> bool {
        self@.wf()
    }

    /// A benchmark for the schema that goes by `compressor_name`, with no
    /// run begun; `UnknownCompressor` where no schema goes by that name.
    pub fn new(compressor_name: &str) -> (r: Result<Self, BenchmarkError>)
        ensures
            match (r, spec_from_compressor_name(compressor_name@)) {
                (Ok(benchmark), Some(schema)) => benchmark@ == spec_start(
                    schema,
                    Seq::empty(),
                    0,
                ).0,
                (Err(e), None) => e == BenchmarkError::UnknownCompressor,
                _ => false,
            },
    {
        match ProtoSchema::from_compressor_name(compressor_name) {
            Some(schema) => {
                let benchmark = OpenZLBenchmark {
                    schema,
                    payload_lens: Vec::new(),
                    iterations: 0,
                    pass: 0,
                    phase: Phase::Succeeded,
                    index: 0,
                    phase_time: 0,
                    compressed_bytes: 0,
                    decompressed_lens: Vec::new(),
                    verified: 0,
                    compression_times: Vec::new(),
                    decompression_times: Vec::new(),
                };
                assert(benchmark@.compression_times =~= Seq::new(0nat, |i: int| 0u128));
                assert(benchmark@.decompression_times =~= Seq::new(0nat, |i: int| 0u128));
                Ok(benchmark)
            },
            None => Err(BenchmarkError::UnknownCompressor),
        }
    }

    /// The schema that payloads are compressed by.
    pub fn schema(&self) -> (r: ProtoSchema)
        ensures
            r == self@.schema,
    {
        self.schema
    }

    /// Opens the book of a run of `iterations` passes over payloads of the
    /// given lengths, and says what to do first. Each pass compresses every
    /// payload and then decompresses every frame of that same pass; the
    /// first pass is then checked payload by payload.
    pub fn run(self, payload_lens: Vec<usize>, iterations: usize) -> (r: (Self, PassAction))
        ensures
            (r.0@, r.1) == spec_start(self@.schema, payload_lens@, iterations),
    {
        let schema = self.schema;
        let n: usize = payload_lens.len();
        if iterations == 0 || n == 0 {
            let compression_times = zeros(iterations);
            let decompression_times = zeros(iterations);
            (
                OpenZLBenchmark {
                    schema,
                    payload_lens,
                    iterations,
                    pass: iterations,
                    phase: Phase::Succeeded,
                    index: 0,
                    phase_time: 0,
                    compressed_bytes: 0,
                    decompressed_lens: Vec::new(),
                    verified: 0,
                    compression_times,
                    decompression_times,
                },
                PassAction::Succeed,
            )
        } else {
            (
                OpenZLBenchmark {
                    schema,
                    payload_lens,
                    iterations,
                    pass: 0,
                    phase: Phase::Compressing,
                    index: 0,
                    phase_time: 0,
                    compressed_bytes: 0,
                    decompressed_lens: Vec::new(),
                    verified: 0,
                    compression_times: Vec::new(),
                    decompression_times: Vec::new(),
                },
                PassAction::Compress { index: 0 },
            )
        }
    }

    /// What the run measured, once it has succeeded.
    pub fn result(self) -> (r: Option<OpenZLResult>)
        ensures
            r is Some <==> self@.phase == Phase::Succeeded,
            r matches Some(result) ==> {
                &&& result.total_compressed_bytes == self@.compressed_bytes
                &&& result.compression_times@ == self@.compression_times
                &&& result.decompression_times@ == self@.decompression_times
                &&& result.compression_times@.len() == self@.iterations
                &&& result.decompression_times@.len() == self@.iterations
                &&& self@.iterations > 0 && self@.payload_lens.len() > 0 ==> self@.verified
                    == self@.payload_lens.len()
            },
    {
        proof {
            use_type_invariant(&self);
        }
        match self.phase {
            Phase::Succeeded => Some(
                OpenZLResult {
                    total_compressed_bytes: self.compressed_bytes,
                    compression_times: self.compression_times,
                    decompression_times: self.decompression_times,
                },
            ),
            _ => None,
        }
    }

    /// Takes what came of the last action and says what to do next. Where
    /// `event` does not answer the action that the run waits for, the book
    /// stays as it is and there is no next action.
    pub fn advance(self, event: PassEvent) -> (r: (Self, Option<PassAction>))
        ensures
            match self@.spec_step(event) {
                Some((book, action)) => r.0@ == book && r.1 == Some(action),
                None => r.0@ == self@ && r.1 is None,
            },
    {
        proof {
            use_type_invariant(&self);
        }
        let ghost before = self@;
        let n: usize = self.payload_lens.len();
        match (self.phase, event) {
            (Phase::Compressing, PassEvent::Compressed { outcome: Err(source), .. }) => {
                let index = self.index;
                let len = self.payload_lens[index];
                (
                    OpenZLBenchmark { phase: Phase::Failed, ..self },
                    Some(PassAction::Fail(BenchmarkError::OpenZLCompress { index, len, source })),
                )
            },
            (Phase::Compressing, PassEvent::Compressed { outcome: Ok(frame_len), nanos }) => {
                proof {
                    lemma_time_sum_fits(self.phase_time, self.index, nanos);
                    if self.pass == 0 {
                        lemma_bytes_fit(self.compressed_bytes, self.index, frame_len, n as nat);
                    }
                }
                let time: u128 = self.phase_time + nanos as u128;
                let compressed_bytes: u128 = if self.pass == 0 {
                    self.compressed_bytes + frame_len as u128
                } else {
                    self.compressed_bytes
                };
                let next: usize = self.index + 1;
                if next < n {
                    (
                        OpenZLBenchmark { index: next, phase_time: time, compressed_bytes, ..self },
                        Some(PassAction::Compress { index: next }),
                    )
                } else {
                    let mut compression_times = self.compression_times;
                    compression_times.push(time);
                    (
                        OpenZLBenchmark {
                            schema: self.schema,
                            payload_lens: self.payload_lens,
                            iterations: self.iterations,
                            pass: self.pass,
                            phase: Phase::Decompressing,
                            index: 0,
                            phase_time: 0,
                            compressed_bytes,
                            decompressed_lens: self.decompressed_lens,
                            verified: self.verified,
                            compression_times,
                            decompression_times: self.decompression_times,
                        },
                        Some(PassAction::Decompress { index: 0 }),
                    )
                }
            },
            (Phase::Decompressing, PassEvent::Decompressed { outcome: Err(source), .. }) => {
                let index = self.index;
                (
                    OpenZLBenchmark { phase: Phase::Failed, ..self },
                    Some(PassAction::Fail(BenchmarkError::OpenZLDecompress { index, source })),
                )
            },
            (Phase::Decompressing, PassEvent::Decompressed { outcome: Ok(len), nanos }) => {
                proof {
                    lemma_time_sum_fits(self.phase_time, self.index, nanos);
                }
                let time: u128 = self.phase_time + nanos as u128;
                let first: bool = self.pass == 0;
                let next: usize = self.index + 1;
                let mut decompressed_lens = self.decompressed_lens;
                if first {
                    decompressed_lens.push(len);
                }
                if next < n {
                    (
                        OpenZLBenchmark {
                            schema: self.schema,
                            payload_lens: self.payload_lens,
                            iterations: self.iterations,
                            pass: self.pass,
                            phase: self.phase,
                            index: next,
                            phase_time: time,
                            compressed_bytes: self.compressed_bytes,
                            decompressed_lens,
                            verified: self.verified,
                            compression_times: self.compression_times,
                            decompression_times: self.decompression_times,
                        },
                        Some(PassAction::Decompress { index: next }),
                    )
                } else {
                    let mut decompression_times = self.decompression_times;
                    decompression_times.push(time);
                    let (pass, phase, action) = if first {
                        (self.pass, Phase::Verifying, PassAction::Compare { index: 0 })
                    } else {
                        after_pass(self.pass, self.iterations)
                    };
                    (
                        OpenZLBenchmark {
                            schema: self.schema,
                            payload_lens: self.payload_lens,
                            iterations: self.iterations,
                            pass,
                            phase,
                            index: 0,
                            phase_time: 0,
                            compressed_bytes: self.compressed_bytes,
                            decompressed_lens,
                            verified: self.verified,
                            compression_times: self.compression_times,
                            decompression_times,
                        },
                        Some(action),
                    )
                }
            },
            (Phase::Verifying, PassEvent::Compared { equivalent }) => {
                let index = self.index;
                let next: usize = index + 1;
                if !equivalent {
                    let original_len = self.payload_lens[index];
                    let decompressed_len = self.decompressed_lens[index];
                    (
                        OpenZLBenchmark { phase: Phase::Failed, ..self },
                        Some(
                            PassAction::Fail(
                                BenchmarkError::RoundTripMismatch {
                                    index,
                                    original_len,
                                    decompressed_len,
                                },
                            ),
                        ),
                    )
                } else if next < n {
                    (
                        OpenZLBenchmark { index: next, verified: next, ..self },
                        Some(PassAction::Compare { index: next }),
                    )
                } else {
                    let (pass, phase, action) = after_pass(self.pass, self.iterations);
                    (
                        OpenZLBenchmark {
                            pass,
                            phase,
                            index: 0,
                            phase_time: 0,
                            verified: next,
                            ..self
                        },
                        Some(action),
                    )
                }
            },
            _ => (self, None),
        }
    }
}

/// The pass count, phase and action when pass `pass` is complete.
fn after_pass(pass: usize, iterations: usize) -> (r: (usize, Phase, PassAction))
    requires
        pass < iterations,
    ensures
        r.0 == pass + 1,
        r.0 < iterations ==> r.1 == Phase::Compressing && r.2 == (PassAction::Compress { index: 0 }),
        r.0 >= iterations ==> r.1 == Phase::Succeeded && r.2 == PassAction::Succeed,
{
    let done: usize = pass + 1;
    if done < iterations {
        (done, Phase::Compressing, PassAction::Compress { index: 0 })
    } else {
        (done, Phase::Succeeded, PassAction::Succeed)
    }
}

/// `count` zeros.
fn zeros(count: usize) -> (r: Vec<u128>)
    ensures
        r@ == Seq::new(count as nat, |i: int| 0u128),
{
    let mut r: Vec<u128> = Vec::new();
    let mut i: usize = 0;
    while i < count
        invariant
            i <= count,
            r@ == Seq::new(i as nat, |i: int| 0u128),
        decreases count - i,
    {
        r.push(0);
        i += 1;
        assert(r@ =~= Seq::new(i as nat, |i: int| 0u128));
    }
    r
}

} // verus!
