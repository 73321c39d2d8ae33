//! The codec engine's session protocol.
//!
//! The engine is a native library that this crate never calls. Each
//! operation on it is a short conversation: the library names the next
//! engine call, a driver makes the call and hands back what the engine
//! replied, and the library decides how to go on: with another call, with a
//! release of what was created so far, or with the operation's result.

use crate::proto::ProtoSchema;
use vstd::prelude::*;

verus! {

/// `std::io::Error`, carried through unopened.
#[verifier::external_type_specification]
#[verifier::external_body]
pub struct ExIoError(std::io::Error);

/// What an engine call reports: a size on success, else the engine's error code.
#[derive(Debug, Clone, Copy, PartialEq, Eq)]
pub enum Report {
    Value(usize),
    Error(u32),
}

/// The ways in which an engine operation fails.
#[derive(Debug)]
pub enum OpenZLError {
    CompressionFailed(u32),
    DecompressionFailed(u32),
    DecompressSizeFailed(u32),
    BufferTooSmall { needed: usize, available: usize },
    CompressorCreateFailed,
    DeserializationFailed(u32),
    CCtxCreateFailed,
    DCtxCreateFailed,
    AttachCompressorFailed(u32),
    SetParameterFailed(u32),
    IoError(std::io::Error),
}

/// Parameters of a compression session.
#[derive(Debug, Clone, Copy, PartialEq, Eq)]
pub enum CParam {
    FormatVersion,
}

/// The size of `compress_bound(size)` as a mathematical integer.
pub open spec fn spec_compress_bound(size: int) -> int {
    size * 2 + 512 + 8
}

/// Size of an output buffer that holds the compressed form of `size`
/// input bytes whatever they are.
pub fn compress_bound(size: usize) -> (bound: usize)
    requires
        spec_compress_bound(size as int) <= usize::MAX,
    ensures
        bound == spec_compress_bound(size as int),
{
    (size * 2) + 512 + 8
}

/// The size of the buffer that schema-aware decompression is given.
pub open spec fn spec_expansion_bound(size: int) -> int {
    size * 200
}

/// The operations of the engine that the harness uses.
#[derive(Debug, Clone, Copy, PartialEq, Eq)]
pub enum Operation {
    /// Build a compressor with the generic graph.
    NewCompressor,
    /// Build a compressor from a serialized trained model.
    LoadCompressor,
    /// Open a compression session.
    NewCCtx,
    /// Attach a compressor to a compression session.
    AttachCompressor,
    /// Set a parameter of a compression session.
    SetParameter { param: CParam, value: i32 },
    /// Compress `len` bytes.
    Compress { len: usize },
    /// Compress `len` bytes that carry a clustering tag.
    CompressWithMetadata { len: usize, tag: i32 },
    /// Open a decompression session.
    NewDCtx,
    /// Decompress a frame of `len` bytes.
    Decompress { len: usize },
    /// Open a schema-aware compression session, with or without a trained model.
    NewSerializer { trained: bool },
    /// Compress a message of `len` bytes by its schema.
    ProtoCompress { len: usize, schema: ProtoSchema },
    /// Open a schema-aware decompression session.
    NewDeserializer,
    /// Decompress a frame of `len` bytes into a message of the schema.
    ProtoDecompress { len: usize, schema: ProtoSchema },
}

/// One call into the engine, with the arguments that the library decides.
#[derive(Debug, Clone, Copy, PartialEq, Eq)]
pub enum EngineCall {
    CreateCompressor,
    FreeCompressor,
    /// Set the compressor's format version to the newest one.
    SetFormatVersion,
    /// Make the generic graph the compressor's starting graph.
    SelectGenericGraph,
    CreateModelReader,
    /// Read the serialized model into the compressor.
    ReadModel,
    FreeModelReader,
    CreateCCtx,
    RefCompressor,
    SetParameter { param: CParam, value: i32 },
    /// Compress the input into a buffer of `capacity` bytes.
    Compress { capacity: usize },
    /// Wrap the input bytes as one serial typed input.
    CreateInput,
    /// Set integer metadata `id` of the typed input to `value`.
    SetInputMetadata { id: i32, value: i32 },
    /// Compress the typed input into a buffer of `capacity` bytes.
    CompressInput { capacity: usize },
    FreeInput,
    CreateDCtx,
    /// Ask for the decompressed size that the frame declares.
    DecompressedSize,
    /// Decompress the frame into a buffer of `capacity` bytes.
    Decompress { capacity: usize },
    CreateSerializer { trained: bool },
    ProtoCompress { capacity: usize, schema: ProtoSchema },
    CreateDeserializer,
    ProtoDecompress { capacity: usize, schema: ProtoSchema },
}

/// What the driver hands back after an engine call.
#[derive(Debug, Clone, Copy, PartialEq, Eq)]
pub enum Reply {
    /// A create call returned a handle (`true`) or nothing (`false`).
    Handle(bool),
    /// A call returned a report.
    Report(Report),
    /// A schema-aware call wrote this many bytes; zero stands for failure.
    Written(usize),
    /// A free call returned.
    Released,
}

/// What the driver does next.
#[derive(Debug)]
pub enum Action {
    /// Make this call and hand its reply to `Stage::advance`.
    Call(EngineCall),
    /// The operation is over. `Ok(n)`: it succeeded, and where it filled a
    /// buffer, the first `n` bytes of the buffer are its output.
    Return(Result<usize, OpenZLError>),
}

/// Metadata id under which a typed input carries its clustering tag.
pub const CLUSTERING_TAG_METADATA_ID: i32 = 0;

/// Where an operation stands: the call whose reply it waits for.
#[derive(Debug)]
pub enum Stage {
    /// Waits for a create call; fails with `error` where no handle comes back.
    Creating { error: OpenZLError },
    NewCompressorCreating,
    NewCompressorVersioning,
    NewCompressorSelecting,
    LoadCreating,
    LoadCreatingReader,
    LoadReading,
    LoadFreeingReader { report: Report },
    LoadVersioning,
    /// Waits for the compressor's release, then fails with `error`.
    ReleasingCompressor { error: OpenZLError },
    Attaching,
    Setting,
    Compressing { capacity: usize },
    InputCreating { capacity: usize, tag: i32 },
    InputTagging { capacity: usize },
    InputCompressing { capacity: usize },
    /// Waits for the typed input's release, then returns `outcome`.
    InputFreeing { outcome: Result<usize, OpenZLError> },
    Sizing,
    Decompressing { capacity: usize },
    ProtoCompressing { capacity: usize },
    ProtoDecompressing { capacity: usize },
    /// The operation has returned.
    Finished,
}

/// The smaller of two sizes.
pub open spec fn spec_min(a: usize, b: usize) -> usize {
    if a <= b {
        a
    } else {
        b
    }
}

impl Operation {
    /// The buffer sizes that the operation asks for fit in `usize`.
    pub open spec fn fits(self) -> bool {
        match self {
            Operation::Compress { len } => spec_compress_bound(len as int) <= usize::MAX,
            Operation::CompressWithMetadata { len, .. } => spec_compress_bound(len as int)
                <= usize::MAX,
            Operation::ProtoCompress { len, .. } => spec_compress_bound(len as int) <= usize::MAX,
            Operation::ProtoDecompress { len, .. } => spec_expansion_bound(len as int)
                <= usize::MAX,
            _ => true,
        }
    }

    /// How the operation begins: its first call, or its result at once.
    /// Empty input is compressed, and an empty frame decompressed, to
    /// nothing without a call; the schema-aware operations call even then.
    pub open spec fn spec_begin(self) -> (Stage, Action) {
        match self {
            Operation::NewCompressor => (
                Stage::NewCompressorCreating,
                Action::Call(EngineCall::CreateCompressor),
            ),
            Operation::LoadCompressor => (
                Stage::LoadCreating,
                Action::Call(EngineCall::CreateCompressor),
            ),
            Operation::NewCCtx => (
                Stage::Creating { error: OpenZLError::CCtxCreateFailed },
                Action::Call(EngineCall::CreateCCtx),
            ),
            Operation::AttachCompressor => (
                Stage::Attaching,
                Action::Call(EngineCall::RefCompressor),
            ),
            Operation::SetParameter { param, value } => (
                Stage::Setting,
                Action::Call(EngineCall::SetParameter { param, value }),
            ),
            Operation::Compress { len } => if len == 0 {
                (Stage::Finished, Action::Return(Ok(0)))
            } else {
                let capacity = spec_compress_bound(len as int) as usize;
                (Stage::Compressing { capacity }, Action::Call(EngineCall::Compress { capacity }))
            },
            Operation::CompressWithMetadata { len, tag } => if len == 0 {
                (Stage::Finished, Action::Return(Ok(0)))
            } else {
                let capacity = spec_compress_bound(len as int) as usize;
                (Stage::InputCreating { capacity, tag }, Action::Call(EngineCall::CreateInput))
            },
            Operation::NewDCtx => (
                Stage::Creating { error: OpenZLError::DCtxCreateFailed },
                Action::Call(EngineCall::CreateDCtx),
            ),
            Operation::Decompress { len } => if len == 0 {
                (Stage::Finished, Action::Return(Ok(0)))
            } else {
                (Stage::Sizing, Action::Call(EngineCall::DecompressedSize))
            },
            Operation::NewSerializer { trained } => (
                Stage::Creating { error: OpenZLError::CompressorCreateFailed },
                Action::Call(EngineCall::CreateSerializer { trained }),
            ),
            Operation::ProtoCompress { len, schema } => {
                let capacity = spec_compress_bound(len as int) as usize;
                (
                    Stage::ProtoCompressing { capacity },
                    Action::Call(EngineCall::ProtoCompress { capacity, schema }),
                )
            },
            Operation::NewDeserializer => (
                Stage::Creating { error: OpenZLError::DCtxCreateFailed },
                Action::Call(EngineCall::CreateDeserializer),
            ),
            Operation::ProtoDecompress { len, schema } => {
                let capacity = spec_expansion_bound(len as int) as usize;
                (
                    Stage::ProtoDecompressing { capacity },
                    Action::Call(EngineCall::ProtoDecompress { capacity, schema }),
                )
            },
        }
    }

    /// Tests whether the operation's buffer sizes fit in `usize`.
    pub fn can_begin(&self) -> (r: bool)
        ensures
            r == self.fits(),
    {
        match self {
            Operation::Compress { len } => *len <= (usize::MAX - 520) / 2,
            Operation::CompressWithMetadata { len, .. } => *len <= (usize::MAX - 520) / 2,
            Operation::ProtoCompress { len, .. } => *len <= (usize::MAX - 520) / 2,
            Operation::ProtoDecompress { len, .. } => *len <= usize::MAX / 200,
            _ => true,
        }
    }

    /// Begins the operation.
    pub fn begin(self) -> (r: (Stage, Action))
        requires
            self.fits(),
        ensures
            r == self.spec_begin(),
    {
        match self {
            Operation::NewCompressor => (
                Stage::NewCompressorCreating,
                Action::Call(EngineCall::CreateCompressor),
            ),
            Operation::LoadCompressor => (
                Stage::LoadCreating,
                Action::Call(EngineCall::CreateCompressor),
            ),
            Operation::NewCCtx => (
                Stage::Creating { error: OpenZLError::CCtxCreateFailed },
                Action::Call(EngineCall::CreateCCtx),
            ),
            Operation::AttachCompressor => (
                Stage::Attaching,
                Action::Call(EngineCall::RefCompressor),
            ),
            Operation::SetParameter { param, value } => (
                Stage::Setting,
                Action::Call(EngineCall::SetParameter { param, value }),
            ),
            Operation::Compress { len } => if len == 0 {
                (Stage::Finished, Action::Return(Ok(0)))
            } else {
                let capacity = compress_bound(len);
                (Stage::Compressing { capacity }, Action::Call(EngineCall::Compress { capacity }))
            },
            Operation::CompressWithMetadata { len, tag } => if len == 0 {
                (Stage::Finished, Action::Return(Ok(0)))
            } else {
                let capacity = compress_bound(len);
                (Stage::InputCreating { capacity, tag }, Action::Call(EngineCall::CreateInput))
            },
            Operation::NewDCtx => (
                Stage::Creating { error: OpenZLError::DCtxCreateFailed },
                Action::Call(EngineCall::CreateDCtx),
            ),
            Operation::Decompress { len } => if len == 0 {
                (Stage::Finished, Action::Return(Ok(0)))
            } else {
                (Stage::Sizing, Action::Call(EngineCall::DecompressedSize))
            },
            Operation::NewSerializer { trained } => (
                Stage::Creating { error: OpenZLError::CompressorCreateFailed },
                Action::Call(EngineCall::CreateSerializer { trained }),
            ),
            Operation::ProtoCompress { len, schema } => {
                let capacity = compress_bound(len);
                (
                    Stage::ProtoCompressing { capacity },
                    Action::Call(EngineCall::ProtoCompress { capacity, schema }),
                )
            },
            Operation::NewDeserializer => (
                Stage::Creating { error: OpenZLError::DCtxCreateFailed },
                Action::Call(EngineCall::CreateDeserializer),
            ),
            Operation::ProtoDecompress { len, schema } => {
                let capacity = len * 200;
                (
                    Stage::ProtoDecompressing { capacity },
                    Action::Call(EngineCall::ProtoDecompress { capacity, schema }),
                )
            },
        }
    }
}

impl Stage {
    /// How the operation goes on after `reply`: the next stage and what to
    /// do then. `None` where the call that this stage waits for cannot have
    /// given `reply`.
    pub open spec fn spec_advance(self, reply: Reply) -> Option<(Stage, Action)> {
        match (self, reply) {
            (Stage::Creating { error }, Reply::Handle(present)) => Some(
                (
                    Stage::Finished,
                    Action::Return(
                        if present {
                            Ok(0)
                        } else {
                            Err(error)
                        },
                    ),
                ),
            ),
            (Stage::NewCompressorCreating, Reply::Handle(present)) => Some(
                if present {
                    (Stage::NewCompressorVersioning, Action::Call(EngineCall::SetFormatVersion))
                } else {
                    (Stage::Finished, Action::Return(Err(OpenZLError::CompressorCreateFailed)))
                },
            ),
            (Stage::NewCompressorVersioning, Reply::Report(report)) => Some(
                match report {
                    Report::Value(_) => (
                        Stage::NewCompressorSelecting,
                        Action::Call(EngineCall::SelectGenericGraph),
                    ),
                    Report::Error(code) => release_compressor(
                        OpenZLError::SetParameterFailed(code),
                    ),
                },
            ),
            (Stage::NewCompressorSelecting, Reply::Report(report)) => Some(
                match report {
                    Report::Value(_) => (Stage::Finished, Action::Return(Ok(0))),
                    Report::Error(code) => release_compressor(
                        OpenZLError::SetParameterFailed(code),
                    ),
                },
            ),
            (Stage::LoadCreating, Reply::Handle(present)) => Some(
                if present {
                    (Stage::LoadCreatingReader, Action::Call(EngineCall::CreateModelReader))
                } else {
                    (Stage::Finished, Action::Return(Err(OpenZLError::CompressorCreateFailed)))
                },
            ),
            (Stage::LoadCreatingReader, Reply::Handle(present)) => Some(
                if present {
                    (Stage::LoadReading, Action::Call(EngineCall::ReadModel))
                } else {
                    release_compressor(OpenZLError::CompressorCreateFailed)
                },
            ),
            (Stage::LoadReading, Reply::Report(report)) => Some(
                (Stage::LoadFreeingReader { report }, Action::Call(EngineCall::FreeModelReader)),
            ),
            (Stage::LoadFreeingReader { report }, Reply::Released) => Some(
                match report {
                    Report::Value(_) => (
                        Stage::LoadVersioning,
                        Action::Call(EngineCall::SetFormatVersion),
                    ),
                    Report::Error(code) => release_compressor(
                        OpenZLError::DeserializationFailed(code),
                    ),
                },
            ),
            (Stage::LoadVersioning, Reply::Report(report)) => Some(
                match report {
                    Report::Value(_) => (Stage::Finished, Action::Return(Ok(0))),
                    Report::Error(code) => release_compressor(
                        OpenZLError::SetParameterFailed(code),
                    ),
                },
            ),
            (Stage::ReleasingCompressor { error }, Reply::Released) => Some(
                (Stage::Finished, Action::Return(Err(error))),
            ),
            (Stage::Attaching, Reply::Report(report)) => Some(
                (
                    Stage::Finished,
                    Action::Return(
                        match report {
                            Report::Value(_) => Ok(0),
                            Report::Error(code) => Err(OpenZLError::AttachCompressorFailed(code)),
                        },
                    ),
                ),
            ),
            (Stage::Setting, Reply::Report(report)) => Some(
                (
                    Stage::Finished,
                    Action::Return(
                        match report {
                            Report::Value(_) => Ok(0),
                            Report::Error(code) => Err(OpenZLError::SetParameterFailed(code)),
                        },
                    ),
                ),
            ),
            (Stage::Compressing { capacity }, Reply::Report(report)) => Some(
                (Stage::Finished, Action::Return(compressed(report, capacity))),
            ),
            (Stage::InputCreating { capacity, tag }, Reply::Handle(present)) => Some(
                if present {
                    (
                        Stage::InputTagging { capacity },
                        Action::Call(
                            EngineCall::SetInputMetadata {
                                id: CLUSTERING_TAG_METADATA_ID,
                                value: tag,
                            },
                        ),
                    )
                } else {
                    (Stage::Finished, Action::Return(Err(OpenZLError::CompressionFailed(0))))
                },
            ),
            (Stage::InputTagging { capacity }, Reply::Report(report)) => Some(
                match report {
                    Report::Value(_) => (
                        Stage::InputCompressing { capacity },
                        Action::Call(EngineCall::CompressInput { capacity }),
                    ),
                    Report::Error(code) => (
                        Stage::InputFreeing { outcome: Err(OpenZLError::SetParameterFailed(code)) },
                        Action::Call(EngineCall::FreeInput),
                    ),
                },
            ),
            (Stage::InputCompressing { capacity }, Reply::Report(report)) => Some(
                (
                    Stage::InputFreeing { outcome: compressed(report, capacity) },
                    Action::Call(EngineCall::FreeInput),
                ),
            ),
            (Stage::InputFreeing { outcome }, Reply::Released) => Some(
                (Stage::Finished, Action::Return(outcome)),
            ),
            (Stage::Sizing, Reply::Report(report)) => Some(
                match report {
                    Report::Value(size) => (
                        Stage::Decompressing { capacity: size },
                        Action::Call(EngineCall::Decompress { capacity: size }),
                    ),
                    Report::Error(code) => (
                        Stage::Finished,
                        Action::Return(Err(OpenZLError::DecompressSizeFailed(code))),
                    ),
                },
            ),
            (Stage::Decompressing { capacity }, Reply::Report(report)) => Some(
                (
                    Stage::Finished,
                    Action::Return(
                        match report {
                            Report::Value(_) => Ok(capacity),
                            Report::Error(code) => Err(OpenZLError::DecompressionFailed(code)),
                        },
                    ),
                ),
            ),
            (Stage::ProtoCompressing { capacity }, Reply::Written(written)) => Some(
                (
                    Stage::Finished,
                    Action::Return(
                        if written == 0 {
                            Err(OpenZLError::CompressionFailed(0))
                        } else {
                            Ok(spec_min(written, capacity))
                        },
                    ),
                ),
            ),
            (Stage::ProtoDecompressing { capacity }, Reply::Written(written)) => Some(
                (
                    Stage::Finished,
                    Action::Return(
                        if written == 0 {
                            Err(OpenZLError::DecompressionFailed(0))
                        } else {
                            Ok(spec_min(written, capacity))
                        },
                    ),
                ),
            ),
            _ => None,
        }
    }

    /// Takes the reply to the pending call and decides how to go on.
    pub fn advance(self, reply: Reply) -> (r: Option<(Stage, Action)>)
        ensures
            r == self.spec_advance(reply),
    {
        match (self, reply) {
            (Stage::Creating { error }, Reply::Handle(present)) => Some(
                (
                    Stage::Finished,
                    Action::Return(
                        if present {
                            Ok(0)
                        } else {
                            Err(error)
                        },
                    ),
                ),
            ),
            (Stage::NewCompressorCreating, Reply::Handle(present)) => Some(
                if present {
                    (Stage::NewCompressorVersioning, Action::Call(EngineCall::SetFormatVersion))
                } else {
                    (Stage::Finished, Action::Return(Err(OpenZLError::CompressorCreateFailed)))
                },
            ),
            (Stage::NewCompressorVersioning, Reply::Report(report)) => Some(
                match report {
                    Report::Value(_) => (
                        Stage::NewCompressorSelecting,
                        Action::Call(EngineCall::SelectGenericGraph),
                    ),
                    Report::Error(code) => then_release_compressor(
                        OpenZLError::SetParameterFailed(code),
                    ),
                },
            ),
            (Stage::NewCompressorSelecting, Reply::Report(report)) => Some(
                match report {
                    Report::Value(_) => (Stage::Finished, Action::Return(Ok(0))),
                    Report::Error(code) => then_release_compressor(
                        OpenZLError::SetParameterFailed(code),
                    ),
                },
            ),
            (Stage::LoadCreating, Reply::Handle(present)) => Some(
                if present {
                    (Stage::LoadCreatingReader, Action::Call(EngineCall::CreateModelReader))
                } else {
                    (Stage::Finished, Action::Return(Err(OpenZLError::CompressorCreateFailed)))
                },
            ),
            (Stage::LoadCreatingReader, Reply::Handle(present)) => Some(
                if present {
                    (Stage::LoadReading, Action::Call(EngineCall::ReadModel))
                } else {
                    then_release_compressor(OpenZLError::CompressorCreateFailed)
                },
            ),
            (Stage::LoadReading, Reply::Report(report)) => Some(
                (Stage::LoadFreeingReader { report }, Action::Call(EngineCall::FreeModelReader)),
            ),
            (Stage::LoadFreeingReader { report }, Reply::Released) => Some(
                match report {
                    Report::Value(_) => (
                        Stage::LoadVersioning,
                        Action::Call(EngineCall::SetFormatVersion),
                    ),
                    Report::Error(code) => then_release_compressor(
                        OpenZLError::DeserializationFailed(code),
                    ),
                },
            ),
            (Stage::LoadVersioning, Reply::Report(report)) => Some(
                match report {
                    Report::Value(_) => (Stage::Finished, Action::Return(Ok(0))),
                    Report::Error(code) => then_release_compressor(
                        OpenZLError::SetParameterFailed(code),
                    ),
                },
            ),
            (Stage::ReleasingCompressor { error }, Reply::Released) => Some(
                (Stage::Finished, Action::Return(Err(error))),
            ),
            (Stage::Attaching, Reply::Report(report)) => Some(
                (
                    Stage::Finished,
                    Action::Return(
                        match report {
                            Report::Value(_) => Ok(0),
                            Report::Error(code) => Err(OpenZLError::AttachCompressorFailed(code)),
                        },
                    ),
                ),
            ),
            (Stage::Setting, Reply::Report(report)) => Some(
                (
                    Stage::Finished,
                    Action::Return(
                        match report {
                            Report::Value(_) => Ok(0),
                            Report::Error(code) => Err(OpenZLError::SetParameterFailed(code)),
                        },
                    ),
                ),
            ),
            (Stage::Compressing { capacity }, Reply::Report(report)) => Some(
                (Stage::Finished, Action::Return(finish_compress(report, capacity))),
            ),
            (Stage::InputCreating { capacity, tag }, Reply::Handle(present)) => Some(
                if present {
                    (
                        Stage::InputTagging { capacity },
                        Action::Call(
                            EngineCall::SetInputMetadata {
                                id: CLUSTERING_TAG_METADATA_ID,
                                value: tag,
                            },
                        ),
                    )
                } else {
                    (Stage::Finished, Action::Return(Err(OpenZLError::CompressionFailed(0))))
                },
            ),
            (Stage::InputTagging { capacity }, Reply::Report(report)) => Some(
                match report {
                    Report::Value(_) => (
                        Stage::InputCompressing { capacity },
                        Action::Call(EngineCall::CompressInput { capacity }),
                    ),
                    Report::Error(code) => (
                        Stage::InputFreeing { outcome: Err(OpenZLError::SetParameterFailed(code)) },
                        Action::Call(EngineCall::FreeInput),
                    ),
                },
            ),
            (Stage::InputCompressing { capacity }, Reply::Report(report)) => Some(
                (
                    Stage::InputFreeing { outcome: finish_compress(report, capacity) },
                    Action::Call(EngineCall::FreeInput),
                ),
            ),
            (Stage::InputFreeing { outcome }, Reply::Released) => Some(
                (Stage::Finished, Action::Return(outcome)),
            ),
            (Stage::Sizing, Reply::Report(report)) => Some(
                match report {
                    Report::Value(size) => (
                        Stage::Decompressing { capacity: size },
                        Action::Call(EngineCall::Decompress { capacity: size }),
                    ),
                    Report::Error(code) => (
                        Stage::Finished,
                        Action::Return(Err(OpenZLError::DecompressSizeFailed(code))),
                    ),
                },
            ),
            (Stage::Decompressing { capacity }, Reply::Report(report)) => Some(
                (
                    Stage::Finished,
                    Action::Return(
                        match report {
                            Report::Value(_) => Ok(capacity),
                            Report::Error(code) => Err(OpenZLError::DecompressionFailed(code)),
                        },
                    ),
                ),
            ),
            (Stage::ProtoCompressing { capacity }, Reply::Written(written)) => Some(
                (
                    Stage::Finished,
                    Action::Return(
                        if written == 0 {
                            Err(OpenZLError::CompressionFailed(0))
                        } else {
                            Ok(min_size(written, capacity))
                        },
                    ),
                ),
            ),
            (Stage::ProtoDecompressing { capacity }, Reply::Written(written)) => Some(
                (
                    Stage::Finished,
                    Action::Return(
                        if written == 0 {
                            Err(OpenZLError::DecompressionFailed(0))
                        } else {
                            Ok(min_size(written, capacity))
                        },
                    ),
                ),
            ),
            _ => None,
        }
    }
}

/// The failure path of building a compressor: release it, then fail.
pub open spec fn release_compressor(error: OpenZLError) -> (Stage, Action) {
    (Stage::ReleasingCompressor { error }, Action::Call(EngineCall::FreeCompressor))
}

/// The same, for execution.
fn then_release_compressor(error: OpenZLError) -> (r: (Stage, Action))
    ensures
        r == release_compressor(error),
{
    (Stage::ReleasingCompressor { error }, Action::Call(EngineCall::FreeCompressor))
}

/// The result of a compression call into a buffer of `capacity` bytes: the
/// reported size, cut to the buffer's, or the engine's error code.
pub open spec fn compressed(report: Report, capacity: usize) -> Result<usize, OpenZLError> {
    match report {
        Report::Value(size) => Ok(spec_min(size, capacity)),
        Report::Error(code) => Err(OpenZLError::CompressionFailed(code)),
    }
}

/// The same, for execution.
fn finish_compress(report: Report, capacity: usize) -> (r: Result<usize, OpenZLError>)
    ensures
        r == compressed(report, capacity),
{
    match report {
        Report::Value(size) => Ok(min_size(size, capacity)),
        Report::Error(code) => Err(OpenZLError::CompressionFailed(code)),
    }
}

/// The smaller of two sizes.
fn min_size(a: usize, b: usize) -> (r: usize)
    ensures
        r == spec_min(a, b),
{
    if a <= b {
        a
    } else {
        b
    }
}

} // verus!
