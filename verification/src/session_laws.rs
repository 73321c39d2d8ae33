//! Whole conversations with the engine, and what holds of every one of them.

use crate::session::{
    compressed, spec_compress_bound, spec_min, Action, EngineCall, OpenZLError, Operation, Reply,
    Report, Stage, CLUSTERING_TAG_METADATA_ID,
};
use vstd::prelude::*;

verus! {

/// Engine objects that an operation may create on its way and must not
/// leave behind: created minus freed, for each kind.
pub struct Holdings {
    pub compressors: int,
    pub model_readers: int,
    pub inputs: int,
}

/// What a conversation came to.
pub struct Trace {
    /// The calls that were made, in order.
    pub calls: Seq<EngineCall>,
    /// The operation's result, once it has returned.
    pub outcome: Option<Result<usize, OpenZLError>>,
    /// The engine objects created and not freed by `calls`.
    pub held: Holdings,
}

/// What one call, answered by `reply`, adds to the holdings.
pub open spec fn effect(call: EngineCall, reply: Reply) -> Holdings {
    let made: int = if reply == Reply::Handle(true) {
        1
    } else {
        0
    };
    match call {
        EngineCall::CreateCompressor => Holdings { compressors: made, model_readers: 0, inputs: 0 },
        EngineCall::FreeCompressor => Holdings { compressors: -1, model_readers: 0, inputs: 0 },
        EngineCall::CreateModelReader => Holdings {
            compressors: 0,
            model_readers: made,
            inputs: 0,
        },
        EngineCall::FreeModelReader => Holdings { compressors: 0, model_readers: -1, inputs: 0 },
        EngineCall::CreateInput => Holdings { compressors: 0, model_readers: 0, inputs: made },
        EngineCall::FreeInput => Holdings { compressors: 0, model_readers: 0, inputs: -1 },
        _ => Holdings { compressors: 0, model_readers: 0, inputs: 0 },
    }
}

/// The conversation that follows when `pending` has been called at `stage`
/// and the engine's replies arrive in the order of `replies`. It ends when
/// the operation returns, when the replies run out, or at a reply that the
/// pending call cannot have given.
pub open spec fn run(stage: Stage, pending: EngineCall, replies: Seq<Reply>) -> Trace
    decreases replies.len(),
{
    let nothing = Holdings { compressors: 0, model_readers: 0, inputs: 0 };
    if replies.len() == 0 {
        Trace { calls: seq![pending], outcome: None, held: nothing }
    } else {
        let gain = effect(pending, replies[0]);
        match stage.spec_advance(replies[0]) {
            None => Trace { calls: seq![pending], outcome: None, held: nothing },
            Some((next, Action::Call(call))) => {
                let rest = run(next, call, replies.skip(1));
                Trace {
                    calls: seq![pending] + rest.calls,
                    outcome: rest.outcome,
                    held: Holdings {
                        compressors: gain.compressors + rest.held.compressors,
                        model_readers: gain.model_readers + rest.held.model_readers,
                        inputs: gain.inputs + rest.held.inputs,
                    },
                }
            },
            Some((_, Action::Return(outcome))) => Trace {
                calls: seq![pending],
                outcome: Some(outcome),
                held: gain,
            },
        }
    }
}

/// The whole conversation of `operation` under `replies`.
pub open spec fn trace_of(operation: Operation, replies: Seq<Reply>) -> Trace {
    match operation.spec_begin() {
        (stage, Action::Call(call)) => run(stage, call, replies),
        (_, Action::Return(outcome)) => Trace {
            calls: Seq::empty(),
            outcome: Some(outcome),
            held: Holdings { compressors: 0, model_readers: 0, inputs: 0 },
        },
    }
}

/// The operations whose product is a compressor.
pub open spec fn builds_compressor(operation: Operation) -> bool {
    operation == Operation::NewCompressor || operation == Operation::LoadCompressor
}

/// What an operation holds when it stands at `stage`, before the call that
/// the stage waits for has had its effect.
pub open spec fn held_at(stage: Stage) -> Holdings {
    let compressors: int = match stage {
        Stage::NewCompressorVersioning
        | Stage::NewCompressorSelecting
        | Stage::LoadCreatingReader
        | Stage::LoadReading
        | Stage::LoadFreeingReader { .. }
        | Stage::LoadVersioning
        | Stage::ReleasingCompressor { .. } => 1,
        _ => 0,
    };
    let model_readers: int = match stage {
        Stage::LoadReading | Stage::LoadFreeingReader { .. } => 1,
        _ => 0,
    };
    let inputs: int = match stage {
        Stage::InputTagging { .. } | Stage::InputCompressing { .. } | Stage::InputFreeing { .. } => 1,
        _ => 0,
    };
    Holdings { compressors, model_readers, inputs }
}

/// The stages of the operations whose product is a compressor.
pub open spec fn building(stage: Stage) -> bool {
    match stage {
        Stage::NewCompressorCreating
        | Stage::NewCompressorVersioning
        | Stage::NewCompressorSelecting
        | Stage::LoadCreating
        | Stage::LoadCreatingReader
        | Stage::LoadReading
        | Stage::LoadFreeingReader { .. }
        | Stage::LoadVersioning => true,
        _ => false,
    }
}

/// `pending` is a call that `stage` can be waiting for, as far as the
/// holdings go.
pub open spec fn awaits(stage: Stage, pending: EngineCall) -> bool {
    match stage {
        Stage::NewCompressorCreating | Stage::LoadCreating => pending
            == EngineCall::CreateCompressor,
        Stage::LoadCreatingReader => pending == EngineCall::CreateModelReader,
        Stage::LoadFreeingReader { .. } => pending == EngineCall::FreeModelReader,
        Stage::ReleasingCompressor { .. } => pending == EngineCall::FreeCompressor,
        Stage::InputCreating { .. } => pending == EngineCall::CreateInput,
        Stage::InputFreeing { .. } => pending == EngineCall::FreeInput,
        _ => {
            &&& pending != EngineCall::CreateCompressor
            &&& pending != EngineCall::FreeCompressor
            &&& pending != EngineCall::CreateModelReader
            &&& pending != EngineCall::FreeModelReader
            &&& pending != EngineCall::CreateInput
            &&& pending != EngineCall::FreeInput
        },
    }
}

/// From any stage on, an operation that returns leaves behind nothing but
/// the compressor that it was building, and that only on success.
pub proof fn lemma_run_releases(stage: Stage, pending: EngineCall, replies: Seq<Reply>)
    requires
        awaits(stage, pending),
        run(stage, pending, replies).outcome is Some,
    ensures
        ({
            let trace = run(stage, pending, replies);
            let kept: int = if building(stage) && trace.outcome->0 is Ok {
                1
            } else {
                0
            };
            &&& held_at(stage).model_readers + trace.held.model_readers == 0
            &&& held_at(stage).inputs + trace.held.inputs == 0
            &&& held_at(stage).compressors + trace.held.compressors == kept
            &&& stage is ReleasingCompressor ==> trace.outcome->0 is Err
        }),
    decreases replies.len(),
{
    if replies.len() > 0 {
        match stage.spec_advance(replies[0]) {
            Some((next, Action::Call(call))) => {
                lemma_run_releases(next, call, replies.skip(1));
            },
            _ => {},
        }
    }
}

/// Deterministic release: whatever the engine replies, an operation that
/// returns has freed every model reader and typed input that it created,
/// and every compressor but the one that it hands out on success.
pub proof fn lemma_nothing_left_behind(operation: Operation, replies: Seq<Reply>)
    requires
        trace_of(operation, replies).outcome is Some,
    ensures
        ({
            let trace = trace_of(operation, replies);
            let kept: int = if builds_compressor(operation) && trace.outcome->0 is Ok {
                1
            } else {
                0
            };
            &&& trace.held.model_readers == 0
            &&& trace.held.inputs == 0
            &&& trace.held.compressors == kept
        }),
{
    match operation.spec_begin() {
        (stage, Action::Call(call)) => {
            lemma_run_releases(stage, call, replies);
        },
        _ => {},
    }
}

/// The most calls that can still follow the one that `stage` waits for.
pub open spec fn calls_left(stage: Stage) -> nat {
    match stage {
        Stage::LoadCreating => 5,
        Stage::LoadCreatingReader => 4,
        Stage::LoadReading => 3,
        Stage::LoadFreeingReader { .. } => 2,
        Stage::LoadVersioning => 1,
        Stage::NewCompressorCreating => 3,
        Stage::NewCompressorVersioning => 2,
        Stage::NewCompressorSelecting => 1,
        Stage::InputCreating { .. } => 3,
        Stage::InputTagging { .. } => 2,
        Stage::InputCompressing { .. } => 1,
        Stage::Sizing => 1,
        _ => 0,
    }
}

/// Every reply that asks for another call brings the operation nearer to
/// its end.
pub proof fn lemma_run_is_bounded(stage: Stage, pending: EngineCall, replies: Seq<Reply>)
    ensures
        run(stage, pending, replies).calls.len() <= 1 + calls_left(stage),
    decreases replies.len(),
{
    if replies.len() > 0 {
        match stage.spec_advance(replies[0]) {
            Some((next, Action::Call(call))) => {
                lemma_run_is_bounded(next, call, replies.skip(1));
            },
            _ => {},
        }
    }
}

/// No operation takes more than six calls, whatever the engine replies.
pub proof fn lemma_at_most_six_calls(operation: Operation, replies: Seq<Reply>)
    ensures
        trace_of(operation, replies).calls.len() <= 6,
{
    match operation.spec_begin() {
        (stage, Action::Call(call)) => {
            lemma_run_is_bounded(stage, call, replies);
        },
        _ => {},
    }
}

/// The result of loading a trained model, read off the engine's answers:
/// whether it made the compressor and the model reader, and what it
/// reported of reading the model and of setting the format version.
pub open spec fn load_outcome(
    compressor: bool,
    reader: bool,
    read: Report,
    versioned: Report,
) -> Result<usize, OpenZLError> {
    if !compressor || !reader {
        Err(OpenZLError::CompressorCreateFailed)
    } else if let Report::Error(code) = read {
        Err(OpenZLError::DeserializationFailed(code))
    } else if let Report::Error(code) = versioned {
        Err(OpenZLError::SetParameterFailed(code))
    } else {
        Ok(0)
    }
}

/// The replies that the library sees while it loads a trained model, given
/// the same four answers: after the first failure only releases follow.
pub open spec fn load_replies(
    compressor: bool,
    reader: bool,
    read: Report,
    versioned: Report,
) -> Seq<Reply> {
    if !compressor {
        seq![Reply::Handle(false)]
    } else if !reader {
        seq![Reply::Handle(true), Reply::Handle(false), Reply::Released]
    } else if read is Error {
        seq![
            Reply::Handle(true),
            Reply::Handle(true),
            Reply::Report(read),
            Reply::Released,
            Reply::Released,
        ]
    } else if versioned is Error {
        seq![
            Reply::Handle(true),
            Reply::Handle(true),
            Reply::Report(read),
            Reply::Released,
            Reply::Report(versioned),
            Reply::Released,
        ]
    } else {
        seq![
            Reply::Handle(true),
            Reply::Handle(true),
            Reply::Report(read),
            Reply::Released,
            Reply::Report(versioned),
        ]
    }
}

/// Loading a trained model returns `load_outcome` of the engine's answers.
#[verifier::rlimit(50)]
pub proof fn lemma_load_compressor_outcome(
    compressor: bool,
    reader: bool,
    read: Report,
    versioned: Report,
)
    ensures
        trace_of(
            Operation::LoadCompressor,
            load_replies(compressor, reader, read, versioned),
        ).outcome == Some(load_outcome(compressor, reader, read, versioned)),
{
    reveal_with_fuel(run, 7);
}

/// The result of compressing `len > 0` bytes under a clustering tag, read
/// off the engine's answers: whether it wrapped the input, and what it
/// reported of tagging and of compressing it.
pub open spec fn tagged_compress_outcome(
    len: usize,
    input: bool,
    tagged: Report,
    done: Report,
) -> Result<usize, OpenZLError> {
    if !input {
        Err(OpenZLError::CompressionFailed(0))
    } else if let Report::Error(code) = tagged {
        Err(OpenZLError::SetParameterFailed(code))
    } else {
        compressed(done, spec_compress_bound(len as int) as usize)
    }
}

/// The replies that the library sees while it compresses tagged input.
pub open spec fn tagged_compress_replies(input: bool, tagged: Report, done: Report) -> Seq<Reply> {
    if !input {
        seq![Reply::Handle(false)]
    } else if tagged is Error {
        seq![Reply::Handle(true), Reply::Report(tagged), Reply::Released]
    } else {
        seq![Reply::Handle(true), Reply::Report(tagged), Reply::Report(done), Reply::Released]
    }
}

/// Compression under a clustering tag hands the tag to the engine as the
/// input's clustering metadata and returns `tagged_compress_outcome`.
#[verifier::rlimit(50)]
pub proof fn lemma_tagged_compress_outcome(
    len: usize,
    tag: i32,
    input: bool,
    tagged: Report,
    done: Report,
)
    requires
        len > 0,
    ensures
        ({
            let operation = Operation::CompressWithMetadata { len, tag };
            let trace = trace_of(operation, tagged_compress_replies(input, tagged, done));
            &&& trace.outcome == Some(tagged_compress_outcome(len, input, tagged, done))
            &&& input ==> trace.calls[1] == EngineCall::SetInputMetadata {
                id: CLUSTERING_TAG_METADATA_ID,
                value: tag,
            }
        }),
{
    reveal_with_fuel(run, 5);
}

/// The result of building a generic compressor, read off the engine's
/// answers: whether it made the compressor, and what it reported of setting
/// the format version and of selecting the generic graph.
pub open spec fn new_compressor_outcome(compressor: bool, versioned: Report, selected: Report) -> Result<
    usize,
    OpenZLError,
> {
    if !compressor {
        Err(OpenZLError::CompressorCreateFailed)
    } else if let Report::Error(code) = versioned {
        Err(OpenZLError::SetParameterFailed(code))
    } else if let Report::Error(code) = selected {
        Err(OpenZLError::SetParameterFailed(code))
    } else {
        Ok(0)
    }
}

/// The replies that the library sees while it builds a generic compressor.
pub open spec fn new_compressor_replies(compressor: bool, versioned: Report, selected: Report) -> Seq<
    Reply,
> {
    if !compressor {
        seq![Reply::Handle(false)]
    } else if versioned is Error {
        seq![Reply::Handle(true), Reply::Report(versioned), Reply::Released]
    } else if selected is Error {
        seq![
            Reply::Handle(true),
            Reply::Report(versioned),
            Reply::Report(selected),
            Reply::Released,
        ]
    } else {
        seq![Reply::Handle(true), Reply::Report(versioned), Reply::Report(selected)]
    }
}

/// Building a generic compressor returns `new_compressor_outcome` of the
/// engine's answers.
#[verifier::rlimit(50)]
pub proof fn lemma_new_compressor_outcome(compressor: bool, versioned: Report, selected: Report)
    ensures
        trace_of(
            Operation::NewCompressor,
            new_compressor_replies(compressor, versioned, selected),
        ).outcome == Some(new_compressor_outcome(compressor, versioned, selected)),
{
    reveal_with_fuel(run, 5);
}

/// Compression of `len > 0` bytes is one call into a buffer of
/// `compress_bound(len)` bytes; it returns the reported size, cut to the
/// buffer's, or `CompressionFailed` with the engine's code.
#[verifier::rlimit(50)]
pub proof fn lemma_compress_outcome(len: usize, done: Report)
    requires
        len > 0,
    ensures
        ({
            let capacity = spec_compress_bound(len as int) as usize;
            let trace = trace_of(Operation::Compress { len }, seq![Reply::Report(done)]);
            &&& trace.calls == seq![EngineCall::Compress { capacity }]
            &&& trace.outcome == Some(
                match done {
                    Report::Value(size) => Ok::<usize, OpenZLError>(spec_min(size, capacity)),
                    Report::Error(code) => Err(OpenZLError::CompressionFailed(code)),
                },
            )
        }),
{
    reveal_with_fuel(run, 2);
}

/// Decompression of a frame of `len > 0` bytes asks for the size that the
/// frame declares and decompresses into a buffer of that size, all of which
/// is its output. It fails with `DecompressSizeFailed` where the size
/// cannot be had, with `DecompressionFailed` where decompression fails.
#[verifier::rlimit(50)]
pub proof fn lemma_decompress_outcome(len: usize, sized: Report, done: Report)
    requires
        len > 0,
    ensures
        ({
            let trace = trace_of(
                Operation::Decompress { len },
                seq![Reply::Report(sized), Reply::Report(done)],
            );
            trace.outcome == Some(
                match (sized, done) {
                    (Report::Error(code), _) => Err::<usize, OpenZLError>(
                        OpenZLError::DecompressSizeFailed(code),
                    ),
                    (Report::Value(_), Report::Error(code)) => Err(
                        OpenZLError::DecompressionFailed(code),
                    ),
                    (Report::Value(size), Report::Value(_)) => Ok(size),
                },
            )
        }),
{
    reveal_with_fuel(run, 3);
}

/// Empty input is compressed, and an empty frame decompressed, to nothing
/// without any call into the engine.
pub proof fn lemma_empty_needs_no_call(tag: i32, replies: Seq<Reply>)
    ensures
        trace_of(Operation::Compress { len: 0 }, replies).calls.len() == 0,
        trace_of(Operation::Compress { len: 0 }, replies).outcome == Some(
            Ok::<usize, OpenZLError>(0),
        ),
        trace_of(Operation::CompressWithMetadata { len: 0, tag }, replies).calls.len() == 0,
        trace_of(Operation::CompressWithMetadata { len: 0, tag }, replies).outcome == Some(
            Ok::<usize, OpenZLError>(0),
        ),
        trace_of(Operation::Decompress { len: 0 }, replies).calls.len() == 0,
        trace_of(Operation::Decompress { len: 0 }, replies).outcome == Some(
            Ok::<usize, OpenZLError>(0),
        ),
{
}

} // verus!
