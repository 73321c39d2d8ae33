use openzl_bench::discovery::{
    is_payload_file_name, parse_batch_dir_name, BatchDirInfo, NameParseError,
};
use openzl_bench::proto::ProtoSchema;

fn info(dataset: &str, format: &str, batch_size: usize) -> BatchDirInfo {
    BatchDirInfo { dataset: dataset.to_string(), format: format.to_string(), batch_size }
}

#[test]
fn parses_name_with_hyphens_in_dataset() {
    let parsed = parse_batch_dir_name("astronomy-otelmetrics-otapdictperfile-1000").unwrap();
    assert_eq!(parsed.dataset, "astronomy-otelmetrics");
    assert_eq!(parsed.format, "otapdictperfile");
    assert_eq!(parsed.batch_size, 1000);
}

#[test]
fn parses_minimal_name() {
    let parsed = parse_batch_dir_name("a-b-7").unwrap();
    assert_eq!(parsed.dataset, "a");
    assert_eq!(parsed.format, "b");
    assert_eq!(parsed.batch_size, 7);
}

#[test]
fn rejects_names_with_fewer_than_two_hyphens() {
    assert_eq!(parse_batch_dir_name("").unwrap_err(), NameParseError::TooFewSegments);
    assert_eq!(parse_batch_dir_name("astronomy").unwrap_err(), NameParseError::TooFewSegments);
    assert_eq!(parse_batch_dir_name("otlp-1000").unwrap_err(), NameParseError::TooFewSegments);
}

#[test]
fn rejects_non_numeric_batch_size() {
    assert_eq!(
        parse_batch_dir_name("astronomy-otlp-many").unwrap_err(),
        NameParseError::InvalidBatchSize
    );
    assert_eq!(parse_batch_dir_name("a-b-").unwrap_err(), NameParseError::InvalidBatchSize);
    assert_eq!(parse_batch_dir_name("a-b-12x").unwrap_err(), NameParseError::InvalidBatchSize);
    assert_eq!(parse_batch_dir_name("a-b-+").unwrap_err(), NameParseError::InvalidBatchSize);
    assert_eq!(parse_batch_dir_name("a-b-1_000").unwrap_err(), NameParseError::InvalidBatchSize);
}

#[test]
fn rejects_batch_size_that_does_not_fit() {
    assert_eq!(
        parse_batch_dir_name("a-b-340282366920938463463374607431768211456").unwrap_err(),
        NameParseError::InvalidBatchSize
    );
}

#[test]
fn accepts_the_positive_numerals_of_the_standard_parser() {
    for text in ["1", "007", "+5", "18446744073709551615", "00000000000000000000000001"] {
        let expected: usize = text.parse().unwrap();
        let name = format!("d-f-{}", text);
        assert_eq!(parse_batch_dir_name(&name).unwrap().batch_size, expected);
    }
    for text in ["", "+", "++1", " 1", "1 ", "٣", "18446744073709551616", "1e3", "0x10"] {
        assert!(text.parse::<usize>().is_err());
        let name = format!("d-f-{}", text);
        assert_eq!(parse_batch_dir_name(&name).unwrap_err(), NameParseError::InvalidBatchSize);
    }
}

#[test]
fn rejects_a_batch_size_of_zero() {
    for name in ["tpch-lineitem-proto-0", "a-b-0", "a-b-000", "a-b-+0", "a-b--0"] {
        assert_eq!(parse_batch_dir_name(name).unwrap_err(), NameParseError::InvalidBatchSize);
    }
    assert_eq!(parse_batch_dir_name("a-b-10").unwrap().batch_size, 10);
    assert_eq!(parse_batch_dir_name("a-b-01").unwrap().batch_size, 1);
}

#[test]
fn splits_at_the_last_two_hyphens() {
    let parsed = parse_batch_dir_name("a-b--5").unwrap();
    assert_eq!(parsed.dataset, "a-b");
    assert_eq!(parsed.format, "");
    assert_eq!(parsed.batch_size, 5);
    let parsed = parse_batch_dir_name("-x-5").unwrap();
    assert_eq!(parsed.dataset, "");
    assert_eq!(parsed.format, "x");
    let parsed = parse_batch_dir_name("tpch-lineitem-proto-50000").unwrap();
    assert_eq!(parsed.dataset, "tpch-lineitem");
    assert_eq!(parsed.format, "proto");
    assert_eq!(parsed.batch_size, 50000);
}

#[test]
fn parses_names_beyond_ascii() {
    let parsed = parse_batch_dir_name("données-météo-otlp-12").unwrap();
    assert_eq!(parsed.dataset, "données-météo");
    assert_eq!(parsed.format, "otlp");
    assert_eq!(parsed.batch_size, 12);
}

#[test]
fn parsed_parts_put_the_name_together_again() {
    let name = "hipstershop-oteltraces-otlptracesdict-100";
    let parsed = parse_batch_dir_name(name).unwrap();
    assert_eq!(format!("{}-{}-{}", parsed.dataset, parsed.format, parsed.batch_size), name);
    assert!(!parsed.format.contains('-'));
}

#[test]
fn names_the_compressor_of_each_format() {
    assert_eq!(info("astronomy-otelmetrics", "otlp", 1).compressor_name(), Some("otlp_metrics"));
    assert_eq!(info("astronomy-oteltraces", "otlp", 1).compressor_name(), Some("otlp_traces"));
    assert_eq!(info("anything", "otlpmetricsdict", 1).compressor_name(), Some("otlp_metrics"));
    assert_eq!(info("anything", "otlptracesdict", 1).compressor_name(), Some("otlp_traces"));
    assert_eq!(info("tpch-lineitem", "proto", 1).compressor_name(), Some("tpch_proto"));
    assert_eq!(info("lineitem", "proto", 1).compressor_name(), None);
    assert_eq!(info("astronomy-otellogs", "otlp", 1).compressor_name(), None);
    assert_eq!(info("astronomy-otelmetrics", "otap", 1).compressor_name(), None);
    assert_eq!(info("astronomy-otelmetrics", "", 1).compressor_name(), None);
}

#[test]
fn metrics_win_where_a_dataset_names_both_signals() {
    let both = info("otelmetrics-and-oteltraces", "otlp", 1);
    assert_eq!(both.compressor_name(), Some("otlp_metrics"));
    assert_eq!(both.trained_compressor_name(), Some("otlp_metrics"));
}

#[test]
fn trained_compressor_is_the_compressor() {
    for (dataset, format) in [
        ("astronomy-otelmetrics", "otlp"),
        ("astronomy-oteltraces", "otlp"),
        ("x", "otlpmetricsdict"),
        ("x", "otlptracesdict"),
        ("tpch-orders", "proto"),
        ("tpch-orders", "arrow"),
        ("x", "unknown"),
    ] {
        let batch = info(dataset, format, 1);
        assert_eq!(batch.trained_compressor_name(), batch.compressor_name());
    }
}

#[test]
fn knows_the_baseline_only_formats() {
    for format in ["otap", "otapnodict", "otapdictperfile", "otapnosort", "otapnodedup"] {
        let batch = info("astronomy-otelmetrics", format, 1);
        assert!(batch.is_zstd_only_format());
        assert_eq!(batch.zstd_only_format_name(), Some(format));
        assert_eq!(batch.compressor_name(), None);
    }
    for format in ["arrow", "arrownodict", "arrowdictperfile"] {
        assert!(info("tpch-lineitem", format, 1).is_zstd_only_format());
        assert!(!info("lineitem", format, 1).is_zstd_only_format());
        assert_eq!(info("lineitem", format, 1).zstd_only_format_name(), None);
    }
    for format in ["otlp", "otlpmetricsdict", "otlptracesdict", "proto", "", "OTAP", "otapx"] {
        assert!(!info("tpch-lineitem", format, 1).is_zstd_only_format());
        assert_eq!(info("tpch-lineitem", format, 1).zstd_only_format_name(), None);
    }
}

#[test]
fn recognises_payload_file_names() {
    assert!(is_payload_file_name("payload_0.bin"));
    assert!(is_payload_file_name("payload_00042.bin"));
    assert!(is_payload_file_name("payload_.bin"));
    assert!(!is_payload_file_name("payload_0.json"));
    assert!(!is_payload_file_name("metadata.json"));
    assert!(!is_payload_file_name("xpayload_0.bin"));
    assert!(!is_payload_file_name("payload_0.bin.tmp"));
    assert!(!is_payload_file_name("payload"));
    assert!(!is_payload_file_name(".bin"));
    assert!(!is_payload_file_name(""));
}

#[test]
fn finds_schema_by_compressor_name() {
    assert_eq!(ProtoSchema::from_compressor_name("otlp_metrics"), Some(ProtoSchema::OtlpMetrics));
    assert_eq!(ProtoSchema::from_compressor_name("otlp_traces"), Some(ProtoSchema::OtlpTraces));
    assert_eq!(
        ProtoSchema::from_compressor_name("otlpmetricsdict"),
        Some(ProtoSchema::OtlpMetricsDict)
    );
    assert_eq!(ProtoSchema::from_compressor_name("otap"), Some(ProtoSchema::Otap));
    assert_eq!(ProtoSchema::from_compressor_name("otapnodict"), Some(ProtoSchema::Otap));
    assert_eq!(ProtoSchema::from_compressor_name("otapdictperfile"), Some(ProtoSchema::Otap));
    assert_eq!(ProtoSchema::from_compressor_name("tpch_proto"), Some(ProtoSchema::Tpch));
    assert_eq!(ProtoSchema::from_compressor_name("otlptracesdict"), None);
    assert_eq!(ProtoSchema::from_compressor_name(""), None);
    assert_eq!(ProtoSchema::from_compressor_name("OTAP"), None);
}
