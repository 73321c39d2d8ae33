use openzl_bench::proto::ProtoSchema;
use openzl_bench::session::{
    compress_bound, Action, CParam, EngineCall, OpenZLError, Operation, Reply, Report, Stage,
    CLUSTERING_TAG_METADATA_ID,
};

/// Plays `replies` to the operation; gives the calls that it made and its
/// result, if it came to one.
fn converse(operation: Operation, replies: &[Reply]) -> (Vec<EngineCall>, Option<Result<usize, OpenZLError>>) {
    assert!(operation.can_begin());
    let mut calls = Vec::new();
    let (mut stage, mut action) = operation.begin();
    let mut next_reply = replies.iter();
    loop {
        match action {
            Action::Return(outcome) => return (calls, Some(outcome)),
            Action::Call(call) => {
                calls.push(call);
                let reply = match next_reply.next() {
                    Some(reply) => *reply,
                    None => return (calls, None),
                };
                match stage.advance(reply) {
                    Some((next_stage, next_action)) => {
                        stage = next_stage;
                        action = next_action;
                    }
                    None => return (calls, None),
                }
            }
        }
    }
}

const OK: Reply = Reply::Report(Report::Value(0));

#[test]
fn test_bindings_exist() {
    let _report = Report::Value(0);
    let _error = Report::Error(1);
    let _call = EngineCall::CreateCompressor;
    let _reply = Reply::Handle(true);
    let _param = CParam::FormatVersion;
}

#[test]
fn test_empty_data() {
    let (calls, outcome) = converse(Operation::Compress { len: 0 }, &[]);
    assert!(calls.is_empty());
    assert!(matches!(outcome, Some(Ok(0))), "Empty data should compress to empty");

    let (calls, outcome) = converse(Operation::Decompress { len: 0 }, &[]);
    assert!(calls.is_empty());
    assert!(matches!(outcome, Some(Ok(0))), "Empty compressed should decompress to empty");
}

#[test]
fn empty_tagged_input_compresses_to_nothing_without_a_call() {
    let (calls, outcome) = converse(Operation::CompressWithMetadata { len: 0, tag: 3 }, &[]);
    assert!(calls.is_empty());
    assert!(matches!(outcome, Some(Ok(0))));
}

#[test]
fn compress_bound_is_twice_the_size_plus_overhead() {
    assert_eq!(compress_bound(0), 520);
    assert_eq!(compress_bound(1), 522);
    assert_eq!(compress_bound(100), 720);
    assert_eq!(compress_bound(1_000_000), 2_000_520);
}

#[test]
fn refuses_sizes_whose_buffer_cannot_exist() {
    assert!(Operation::Compress { len: (usize::MAX - 520) / 2 }.can_begin());
    assert!(!Operation::Compress { len: (usize::MAX - 520) / 2 + 1 }.can_begin());
    assert!(!Operation::CompressWithMetadata { len: usize::MAX, tag: 0 }.can_begin());
    assert!(!Operation::ProtoCompress { len: usize::MAX, schema: ProtoSchema::Otap }.can_begin());
    assert!(Operation::ProtoDecompress { len: usize::MAX / 200, schema: ProtoSchema::Otap }.can_begin());
    assert!(!Operation::ProtoDecompress { len: usize::MAX / 200 + 1, schema: ProtoSchema::Otap }.can_begin());
    assert!(Operation::Decompress { len: usize::MAX }.can_begin());
    assert!(Operation::NewCompressor.can_begin());
}

#[test]
fn builds_a_generic_compressor() {
    let (calls, outcome) = converse(Operation::NewCompressor, &[Reply::Handle(true), OK, OK]);
    assert_eq!(
        calls,
        vec![EngineCall::CreateCompressor, EngineCall::SetFormatVersion, EngineCall::SelectGenericGraph]
    );
    assert!(matches!(outcome, Some(Ok(0))));
}

#[test]
fn generic_compressor_is_released_when_a_setting_fails() {
    let (calls, outcome) = converse(
        Operation::NewCompressor,
        &[Reply::Handle(true), Reply::Report(Report::Error(9)), Reply::Released],
    );
    assert_eq!(
        calls,
        vec![EngineCall::CreateCompressor, EngineCall::SetFormatVersion, EngineCall::FreeCompressor]
    );
    assert!(matches!(outcome, Some(Err(OpenZLError::SetParameterFailed(9)))));

    let (calls, outcome) = converse(
        Operation::NewCompressor,
        &[Reply::Handle(true), OK, Reply::Report(Report::Error(4)), Reply::Released],
    );
    assert_eq!(calls.last(), Some(&EngineCall::FreeCompressor));
    assert_eq!(calls.len(), 4);
    assert!(matches!(outcome, Some(Err(OpenZLError::SetParameterFailed(4)))));

    let (calls, outcome) = converse(Operation::NewCompressor, &[Reply::Handle(false)]);
    assert_eq!(calls, vec![EngineCall::CreateCompressor]);
    assert!(matches!(outcome, Some(Err(OpenZLError::CompressorCreateFailed))));
}

#[test]
fn loads_a_trained_model() {
    let (calls, outcome) = converse(
        Operation::LoadCompressor,
        &[Reply::Handle(true), Reply::Handle(true), OK, Reply::Released, OK],
    );
    assert_eq!(
        calls,
        vec![
            EngineCall::CreateCompressor,
            EngineCall::CreateModelReader,
            EngineCall::ReadModel,
            EngineCall::FreeModelReader,
            EngineCall::SetFormatVersion,
        ]
    );
    assert!(matches!(outcome, Some(Ok(0))));
}

#[test]
fn a_model_that_cannot_be_read_leaves_nothing_behind() {
    let (calls, outcome) = converse(
        Operation::LoadCompressor,
        &[
            Reply::Handle(true),
            Reply::Handle(true),
            Reply::Report(Report::Error(17)),
            Reply::Released,
            Reply::Released,
        ],
    );
    assert_eq!(
        calls,
        vec![
            EngineCall::CreateCompressor,
            EngineCall::CreateModelReader,
            EngineCall::ReadModel,
            EngineCall::FreeModelReader,
            EngineCall::FreeCompressor,
        ]
    );
    assert!(matches!(outcome, Some(Err(OpenZLError::DeserializationFailed(17)))));
}

#[test]
fn loading_fails_where_the_engine_gives_no_handle() {
    let (calls, outcome) = converse(Operation::LoadCompressor, &[Reply::Handle(false)]);
    assert_eq!(calls, vec![EngineCall::CreateCompressor]);
    assert!(matches!(outcome, Some(Err(OpenZLError::CompressorCreateFailed))));

    let (calls, outcome) = converse(
        Operation::LoadCompressor,
        &[Reply::Handle(true), Reply::Handle(false), Reply::Released],
    );
    assert_eq!(
        calls,
        vec![EngineCall::CreateCompressor, EngineCall::CreateModelReader, EngineCall::FreeCompressor]
    );
    assert!(matches!(outcome, Some(Err(OpenZLError::CompressorCreateFailed))));
}

#[test]
fn loaded_model_is_released_when_its_version_cannot_be_set() {
    let (calls, outcome) = converse(
        Operation::LoadCompressor,
        &[
            Reply::Handle(true),
            Reply::Handle(true),
            OK,
            Reply::Released,
            Reply::Report(Report::Error(2)),
            Reply::Released,
        ],
    );
    assert_eq!(calls.len(), 6);
    assert_eq!(calls[4], EngineCall::SetFormatVersion);
    assert_eq!(calls[5], EngineCall::FreeCompressor);
    assert!(matches!(outcome, Some(Err(OpenZLError::SetParameterFailed(2)))));
}

#[test]
fn opens_sessions() {
    for (operation, call) in [
        (Operation::NewCCtx, EngineCall::CreateCCtx),
        (Operation::NewDCtx, EngineCall::CreateDCtx),
        (Operation::NewSerializer { trained: true }, EngineCall::CreateSerializer { trained: true }),
        (Operation::NewSerializer { trained: false }, EngineCall::CreateSerializer { trained: false }),
        (Operation::NewDeserializer, EngineCall::CreateDeserializer),
    ] {
        let (calls, outcome) = converse(operation, &[Reply::Handle(true)]);
        assert_eq!(calls, vec![call]);
        assert!(matches!(outcome, Some(Ok(0))));
    }
}

#[test]
fn each_session_fails_with_its_own_error() {
    let (_, outcome) = converse(Operation::NewCCtx, &[Reply::Handle(false)]);
    assert!(matches!(outcome, Some(Err(OpenZLError::CCtxCreateFailed))));
    let (_, outcome) = converse(Operation::NewDCtx, &[Reply::Handle(false)]);
    assert!(matches!(outcome, Some(Err(OpenZLError::DCtxCreateFailed))));
    let (_, outcome) = converse(Operation::NewSerializer { trained: true }, &[Reply::Handle(false)]);
    assert!(matches!(outcome, Some(Err(OpenZLError::CompressorCreateFailed))));
    let (_, outcome) = converse(Operation::NewDeserializer, &[Reply::Handle(false)]);
    assert!(matches!(outcome, Some(Err(OpenZLError::DCtxCreateFailed))));
}

#[test]
fn attaches_a_compressor_and_sets_parameters() {
    let (calls, outcome) = converse(Operation::AttachCompressor, &[OK]);
    assert_eq!(calls, vec![EngineCall::RefCompressor]);
    assert!(matches!(outcome, Some(Ok(0))));
    let (_, outcome) = converse(Operation::AttachCompressor, &[Reply::Report(Report::Error(5))]);
    assert!(matches!(outcome, Some(Err(OpenZLError::AttachCompressorFailed(5)))));

    let set = Operation::SetParameter { param: CParam::FormatVersion, value: 21 };
    let (calls, outcome) = converse(set, &[OK]);
    assert_eq!(calls, vec![EngineCall::SetParameter { param: CParam::FormatVersion, value: 21 }]);
    assert!(matches!(outcome, Some(Ok(0))));
    let (_, outcome) = converse(set, &[Reply::Report(Report::Error(6))]);
    assert!(matches!(outcome, Some(Err(OpenZLError::SetParameterFailed(6)))));
}

#[test]
fn compresses_into_a_bounded_buffer() {
    let (calls, outcome) =
        converse(Operation::Compress { len: 63 }, &[Reply::Report(Report::Value(40))]);
    assert_eq!(calls, vec![EngineCall::Compress { capacity: 646 }]);
    assert!(matches!(outcome, Some(Ok(40))));
}

#[test]
fn never_reports_more_output_than_the_buffer_holds() {
    let (_, outcome) =
        converse(Operation::Compress { len: 1 }, &[Reply::Report(Report::Value(10_000))]);
    assert!(matches!(outcome, Some(Ok(522))));
    let (_, outcome) =
        converse(Operation::Compress { len: 1 }, &[Reply::Report(Report::Value(522))]);
    assert!(matches!(outcome, Some(Ok(522))));
}

#[test]
fn compression_failure_carries_the_engine_code() {
    let (_, outcome) =
        converse(Operation::Compress { len: 10 }, &[Reply::Report(Report::Error(33))]);
    assert!(matches!(outcome, Some(Err(OpenZLError::CompressionFailed(33)))));
}

#[test]
fn compresses_tagged_input() {
    let (calls, outcome) = converse(
        Operation::CompressWithMetadata { len: 1000, tag: 7 },
        &[Reply::Handle(true), OK, Reply::Report(Report::Value(123)), Reply::Released],
    );
    assert_eq!(
        calls,
        vec![
            EngineCall::CreateInput,
            EngineCall::SetInputMetadata { id: CLUSTERING_TAG_METADATA_ID, value: 7 },
            EngineCall::CompressInput { capacity: 2520 },
            EngineCall::FreeInput,
        ]
    );
    assert_eq!(CLUSTERING_TAG_METADATA_ID, 0);
    assert!(matches!(outcome, Some(Ok(123))));
}

#[test]
fn tagged_input_is_released_on_every_failure() {
    let (calls, outcome) =
        converse(Operation::CompressWithMetadata { len: 8, tag: 0 }, &[Reply::Handle(false)]);
    assert_eq!(calls, vec![EngineCall::CreateInput]);
    assert!(matches!(outcome, Some(Err(OpenZLError::CompressionFailed(0)))));

    let (calls, outcome) = converse(
        Operation::CompressWithMetadata { len: 8, tag: 0 },
        &[Reply::Handle(true), Reply::Report(Report::Error(12)), Reply::Released],
    );
    assert_eq!(calls.len(), 3);
    assert_eq!(calls[2], EngineCall::FreeInput);
    assert!(matches!(outcome, Some(Err(OpenZLError::SetParameterFailed(12)))));

    let (calls, outcome) = converse(
        Operation::CompressWithMetadata { len: 8, tag: 0 },
        &[Reply::Handle(true), OK, Reply::Report(Report::Error(13)), Reply::Released],
    );
    assert_eq!(calls.len(), 4);
    assert_eq!(calls[3], EngineCall::FreeInput);
    assert!(matches!(outcome, Some(Err(OpenZLError::CompressionFailed(13)))));
}

#[test]
fn result_waits_for_the_release() {
    let (calls, outcome) = converse(
        Operation::CompressWithMetadata { len: 8, tag: 0 },
        &[Reply::Handle(true), OK, Reply::Report(Report::Value(5))],
    );
    assert_eq!(calls.last(), Some(&EngineCall::FreeInput));
    assert!(outcome.is_none());
}

#[test]
fn decompresses_into_the_declared_size() {
    let (calls, outcome) = converse(
        Operation::Decompress { len: 40 },
        &[Reply::Report(Report::Value(63)), Reply::Report(Report::Value(63))],
    );
    assert_eq!(calls, vec![EngineCall::DecompressedSize, EngineCall::Decompress { capacity: 63 }]);
    assert!(matches!(outcome, Some(Ok(63))));
}

#[test]
fn decompressed_output_is_the_whole_declared_buffer() {
    let (_, outcome) = converse(
        Operation::Decompress { len: 40 },
        &[Reply::Report(Report::Value(63)), Reply::Report(Report::Value(10))],
    );
    assert!(matches!(outcome, Some(Ok(63))));
}

#[test]
fn decompression_failures_tell_sizing_from_decoding() {
    let (calls, outcome) =
        converse(Operation::Decompress { len: 40 }, &[Reply::Report(Report::Error(21))]);
    assert_eq!(calls, vec![EngineCall::DecompressedSize]);
    assert!(matches!(outcome, Some(Err(OpenZLError::DecompressSizeFailed(21)))));

    let (_, outcome) = converse(
        Operation::Decompress { len: 40 },
        &[Reply::Report(Report::Value(63)), Reply::Report(Report::Error(22))],
    );
    assert!(matches!(outcome, Some(Err(OpenZLError::DecompressionFailed(22)))));
}

#[test]
fn schema_aware_compression_takes_zero_bytes_for_failure() {
    let operation = Operation::ProtoCompress { len: 100, schema: ProtoSchema::OtlpMetrics };
    let (calls, outcome) = converse(operation, &[Reply::Written(60)]);
    assert_eq!(
        calls,
        vec![EngineCall::ProtoCompress { capacity: 720, schema: ProtoSchema::OtlpMetrics }]
    );
    assert!(matches!(outcome, Some(Ok(60))));
    let (_, outcome) = converse(operation, &[Reply::Written(0)]);
    assert!(matches!(outcome, Some(Err(OpenZLError::CompressionFailed(0)))));
}

#[test]
fn schema_aware_compression_calls_the_engine_on_empty_input() {
    let operation = Operation::ProtoCompress { len: 0, schema: ProtoSchema::Tpch };
    let (calls, outcome) = converse(operation, &[Reply::Written(11)]);
    assert_eq!(calls, vec![EngineCall::ProtoCompress { capacity: 520, schema: ProtoSchema::Tpch }]);
    assert!(matches!(outcome, Some(Ok(11))));
}

#[test]
fn schema_aware_decompression_allows_two_hundredfold_growth() {
    let operation = Operation::ProtoDecompress { len: 50, schema: ProtoSchema::OtlpTraces };
    let (calls, outcome) = converse(operation, &[Reply::Written(9000)]);
    assert_eq!(
        calls,
        vec![EngineCall::ProtoDecompress { capacity: 10_000, schema: ProtoSchema::OtlpTraces }]
    );
    assert!(matches!(outcome, Some(Ok(9000))));
    let (_, outcome) = converse(operation, &[Reply::Written(0)]);
    assert!(matches!(outcome, Some(Err(OpenZLError::DecompressionFailed(0)))));
    let (_, outcome) = converse(operation, &[Reply::Written(20_000)]);
    assert!(matches!(outcome, Some(Ok(10_000))));
}

#[test]
fn a_reply_of_the_wrong_kind_is_refused() {
    let (stage, _) = Operation::NewCCtx.begin();
    assert!(stage.advance(Reply::Released).is_none());
    let (stage, _) = Operation::AttachCompressor.begin();
    assert!(stage.advance(Reply::Handle(true)).is_none());
    let (stage, _) = Operation::Compress { len: 4 }.begin();
    assert!(stage.advance(Reply::Written(4)).is_none());
    let (stage, _) = Operation::ProtoCompress { len: 4, schema: ProtoSchema::Otap }.begin();
    assert!(stage.advance(Reply::Report(Report::Value(4))).is_none());
    assert!(Stage::Finished.advance(Reply::Released).is_none());
    assert!(Stage::Finished.advance(Reply::Handle(true)).is_none());
}

#[test]
fn no_operation_takes_more_than_six_calls() {
    let replies = [
        Reply::Handle(true),
        Reply::Handle(true),
        OK,
        Reply::Released,
        Reply::Report(Report::Error(1)),
        Reply::Released,
        Reply::Released,
        Reply::Released,
    ];
    let (calls, outcome) = converse(Operation::LoadCompressor, &replies);
    assert_eq!(calls.len(), 6);
    assert!(outcome.is_some());
}
