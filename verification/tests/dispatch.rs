use openzl_bench::batch::{run_benchmark, run_zstd_only_benchmark};
use openzl_bench::discovery::{
    discover_batch_directories, has_payload_files, parse_batch_dir_name, payload_file_order,
    BatchDirInfo, BatchMetadata, DirectoryListing,
};
use openzl_bench::dispatch::{
    discover_compressors, resolve, should_include_dataset, trained_schema_names, CodecAssignment,
    DatasetFilter, TRAINED_MODEL_FILE,
};
use openzl_bench::proto::ProtoSchema;
use openzl_bench::runner::{check_results, BenchmarkError};
use openzl_bench::structured::{OpenZLResult, PassAction};

fn names(list: &[&str]) -> Vec<String> {
    list.iter().map(|name| name.to_string()).collect()
}

fn info(dataset: &str, format: &str) -> BatchDirInfo {
    BatchDirInfo { dataset: dataset.to_string(), format: format.to_string(), batch_size: 100 }
}

#[test]
fn finds_the_models_that_are_there() {
    assert_eq!(
        discover_compressors(&vec![true, true, true]),
        vec!["otlp_metrics", "otlp_traces", "tpch_proto"]
    );
    assert_eq!(discover_compressors(&vec![false, true, false]), vec!["otlp_traces"]);
    assert_eq!(discover_compressors(&vec![true, false, true]), vec!["otlp_metrics", "tpch_proto"]);
    assert!(discover_compressors(&vec![false, false, false]).is_empty());
    assert!(discover_compressors(&Vec::new()).is_empty());
    assert_eq!(discover_compressors(&vec![true]), vec!["otlp_metrics"]);
    assert_eq!(discover_compressors(&vec![false, false, true, true]), vec!["tpch_proto"]);
    assert_eq!(TRAINED_MODEL_FILE, "trained.zlc");
    assert_eq!(trained_schema_names(), vec!["otlp_metrics", "otlp_traces", "tpch_proto"]);
}

#[test]
fn every_trained_schema_is_known() {
    for name in trained_schema_names() {
        assert!(ProtoSchema::from_compressor_name(name).is_some());
    }
}

#[test]
fn reads_filter_words() {
    assert_eq!(DatasetFilter::parse("all"), Some(DatasetFilter::All));
    assert_eq!(DatasetFilter::parse("otel"), Some(DatasetFilter::Otel));
    assert_eq!(DatasetFilter::parse("tpch"), Some(DatasetFilter::Tpch));
    assert_eq!(DatasetFilter::parse("ALL"), None);
    assert_eq!(DatasetFilter::parse(""), None);
    assert_eq!(DatasetFilter::parse("tpch-"), None);
}

#[test]
fn filters_datasets() {
    assert_eq!(should_include_dataset("astronomy-otelmetrics", "all"), Some(true));
    assert_eq!(should_include_dataset("tpch-lineitem", "all"), Some(true));
    assert_eq!(should_include_dataset("astronomy-otelmetrics", "otel"), Some(true));
    assert_eq!(should_include_dataset("tpch-lineitem", "otel"), Some(false));
    assert_eq!(should_include_dataset("tpch-lineitem", "tpch"), Some(true));
    assert_eq!(should_include_dataset("my-tpch-lineitem", "tpch"), Some(false));
    assert_eq!(should_include_dataset("tpch", "tpch"), Some(false));
    assert_eq!(should_include_dataset("hotel", "otel"), Some(true));
    assert_eq!(should_include_dataset("astronomy-otelmetrics", "everything"), None);
    assert!(DatasetFilter::Otel.admits("x-oteltraces"));
    assert!(!DatasetFilter::Tpch.admits("x-oteltraces"));
}

#[test]
fn baseline_only_formats_need_no_model() {
    let none: Vec<String> = Vec::new();
    assert_eq!(resolve(&info("astronomy-otelmetrics", "otap"), &none), CodecAssignment::BaselineOnly);
    assert_eq!(resolve(&info("tpch-orders", "arrow"), &none), CodecAssignment::BaselineOnly);
    assert_eq!(
        resolve(&info("astronomy-otelmetrics", "otapnodict"), &names(&["otlp_metrics"])),
        CodecAssignment::BaselineOnly
    );
}

#[test]
fn variants_of_a_format_share_one_model() {
    let models = names(&["otlp_traces", "otlp_metrics", "tpch_proto"]);
    assert_eq!(
        resolve(&info("astronomy-otelmetrics", "otlp"), &models),
        CodecAssignment::Structured { schema: ProtoSchema::OtlpMetrics, model: 1 }
    );
    assert_eq!(
        resolve(&info("astronomy-otelmetrics", "otlpmetricsdict"), &models),
        CodecAssignment::Structured { schema: ProtoSchema::OtlpMetrics, model: 1 }
    );
    assert_eq!(
        resolve(&info("astronomy-oteltraces", "otlp"), &models),
        CodecAssignment::Structured { schema: ProtoSchema::OtlpTraces, model: 0 }
    );
    assert_eq!(
        resolve(&info("astronomy-oteltraces", "otlptracesdict"), &models),
        CodecAssignment::Structured { schema: ProtoSchema::OtlpTraces, model: 0 }
    );
    assert_eq!(
        resolve(&info("tpch-lineitem", "proto"), &models),
        CodecAssignment::Structured { schema: ProtoSchema::Tpch, model: 2 }
    );
}

#[test]
fn the_first_model_of_the_name_serves() {
    let models = names(&["tpch_proto", "otlp_metrics", "otlp_metrics"]);
    assert_eq!(
        resolve(&info("astronomy-otelmetrics", "otlp"), &models),
        CodecAssignment::Structured { schema: ProtoSchema::OtlpMetrics, model: 1 }
    );
}

#[test]
fn unknown_formats_are_unsupported() {
    let models = names(&["otlp_metrics", "otlp_traces", "tpch_proto"]);
    assert_eq!(resolve(&info("astronomy-otelmetrics", "csv"), &models), CodecAssignment::Unsupported);
    assert_eq!(resolve(&info("lineitem", "proto"), &models), CodecAssignment::Unsupported);
    assert_eq!(resolve(&info("lineitem", "arrow"), &models), CodecAssignment::Unsupported);
    assert_eq!(resolve(&info("astronomy-otellogs", "otlp"), &models), CodecAssignment::Unsupported);
}

#[test]
fn a_run_goes_on_past_a_batch_whose_model_is_missing() {
    let models = names(&["otlp_metrics"]);
    let batches = ["astronomy-oteltraces-otlp-1000", "astronomy-otelmetrics-otlp-1000"];
    let mut measured = Vec::new();
    let mut skipped = Vec::new();
    for name in batches {
        let parsed = parse_batch_dir_name(name).unwrap();
        match resolve(&parsed, &models) {
            CodecAssignment::Structured { model, .. } => measured.push((name, model)),
            other => skipped.push((name, other)),
        }
    }
    assert_eq!(measured, vec![("astronomy-otelmetrics-otlp-1000", 0)]);
    assert_eq!(skipped, vec![("astronomy-oteltraces-otlp-1000", CodecAssignment::ModelMissing)]);
    assert!(check_results(measured.len()).is_ok());
}

#[test]
fn a_run_without_any_result_has_failed() {
    assert!(matches!(check_results(0), Err(BenchmarkError::NoResults)));
    assert!(check_results(1).is_ok());
    assert!(check_results(usize::MAX).is_ok());
}

#[test]
fn an_empty_batch_is_an_error_not_an_empty_result() {
    let batch = info("astronomy-otelmetrics", "otap");
    let metadata = BatchMetadata { total_data_points: 10, num_payloads: 0 };
    let empty: Vec<Vec<u8>> = Vec::new();
    assert!(matches!(
        run_zstd_only_benchmark(&batch, "otap", &metadata, &empty, 3, 3),
        Err(BenchmarkError::EmptyCorpus)
    ));
    assert!(matches!(
        run_zstd_only_benchmark(&batch, "otap", &metadata, &empty, 3, 0),
        Err(BenchmarkError::EmptyCorpus)
    ));
    assert!(matches!(
        run_benchmark(&batch, "otlp_metrics", &metadata, &empty, 3, 3),
        Err(BenchmarkError::EmptyCorpus)
    ));
    assert!(matches!(
        run_benchmark(&batch, "no such compressor", &metadata, &empty, 3, 3),
        Err(BenchmarkError::EmptyCorpus)
    ));
}

#[test]
fn measures_a_baseline_only_batch() {
    let batch = info("astronomy-otelmetrics", "otap");
    let metadata = BatchMetadata { total_data_points: 4321, num_payloads: 2 };
    let payloads = vec![vec![7u8; 3000], b"some other payload".to_vec()];
    let measured = run_zstd_only_benchmark(&batch, "otap", &metadata, &payloads, 9, 2).unwrap();
    assert_eq!(measured.dataset, "astronomy-otelmetrics");
    assert_eq!(measured.batch_size, 100);
    assert_eq!(measured.compressor, "otap");
    assert_eq!(measured.num_payloads, 2);
    assert_eq!(measured.total_data_points, 4321);
    assert_eq!(measured.iterations, 2);
    assert_eq!(measured.total_uncompressed_bytes, 3018);
    assert_eq!(measured.zstd_level, 9);
    assert!(measured.openzl.is_none());
    assert_eq!(measured.zstd.compression_times.len(), 2);
    assert_eq!(measured.zstd.decompression_times.len(), 2);
    assert!(measured.zstd.total_compressed_bytes > 0);
    assert!(measured.zstd.total_compressed_bytes < 3018);
}

#[test]
fn opens_the_structured_run_after_the_baseline() {
    let batch = info("astronomy-otelmetrics", "otlp");
    let metadata = BatchMetadata { total_data_points: 5, num_payloads: 2 };
    let payloads = vec![vec![1u8; 10], vec![2u8; 20]];
    let (measured, book, action) =
        run_benchmark(&batch, "otlp_metrics", &metadata, &payloads, 3, 1).unwrap();
    assert_eq!(measured.total_uncompressed_bytes, 30);
    assert!(measured.openzl.is_none());
    assert_eq!(book.schema(), ProtoSchema::OtlpMetrics);
    assert!(matches!(action, PassAction::Compress { index: 0 }));

    let structured = OpenZLResult {
        total_compressed_bytes: 12,
        compression_times: vec![5],
        decompression_times: vec![6],
    };
    let whole = measured.with_structured(structured);
    assert_eq!(whole.openzl.as_ref().unwrap().total_compressed_bytes, 12);
    assert_eq!(whole.total_uncompressed_bytes, 30);
    assert_eq!(whole.compressor, "otlp_metrics");
}

#[test]
fn a_compressor_without_schema_fails_after_the_baseline() {
    let batch = info("astronomy-otelmetrics", "otlp");
    let metadata = BatchMetadata { total_data_points: 5, num_payloads: 1 };
    let payloads = vec![vec![1u8; 10]];
    assert!(matches!(
        run_benchmark(&batch, "gzip", &metadata, &payloads, 3, 1),
        Err(BenchmarkError::UnknownCompressor)
    ));
}

#[test]
fn payloads_are_read_in_file_name_order() {
    let files = names(&[
        "payload_2.bin",
        "metadata.json",
        "payload_10.bin",
        "payload_1.bin",
        "notes.txt",
        "payload_3.json",
    ]);
    assert_eq!(payload_file_order(&files), vec![3, 2, 0]);
    assert!(has_payload_files(&files));
    assert!(!has_payload_files(&names(&["metadata.json", "payload.bin"])));
    assert!(!has_payload_files(&Vec::new()));
    assert!(payload_file_order(&names(&["metadata.json"])).is_empty());
}

#[test]
fn batch_directories_are_the_directories_with_payloads() {
    let entry = |name: &str, is_dir: bool, files: &[&str]| DirectoryListing {
        name: name.to_string(),
        is_dir,
        files: names(files),
    };
    let entries = vec![
        entry("tpch-lineitem-proto-100", true, &["payload_0.bin", "metadata.json"]),
        entry("README.md", false, &[]),
        entry("empty-dir-otlp-5", true, &["metadata.json"]),
        entry("astronomy-otelmetrics-otlp-100", true, &["payload_0.bin"]),
        entry("payload_0.bin", false, &["payload_0.bin"]),
        entry("astronomy-otelmetrics-otap-100", true, &["x", "payload_7.bin"]),
    ];
    assert_eq!(discover_batch_directories(&entries), vec![5, 3, 0]);
    assert!(discover_batch_directories(&Vec::new()).is_empty());
}
