//! Which batches are measured, and with which codecs.

use crate::dictionary::string_texts;
use crate::discovery::{spec_compressor_name, spec_is_zstd_only_format, BatchDirInfo};
use crate::proto::{spec_from_compressor_name, ProtoSchema};
use crate::text::{contains, has_prefix, has_substring, same_text, starts_with};
use vstd::prelude::*;

verus! {

/// Name of the file that holds a schema's trained model, in the directory
/// that bears the schema's name.
pub const TRAINED_MODEL_FILE: &'static str = "trained.zlc";

/// The schemas that have a trained model, in the order in which they are
/// looked for.
pub open spec fn trained_schemas() -> Seq<Seq<char>> {
    seq!["otlp_metrics"@, "otlp_traces"@, "tpch_proto"@]
}

/// The schemas among the first `upto` whose model file is present.
pub open spec fn spec_discover(present: Seq<bool>, upto: int) -> Seq<Seq<char>>
    decreases upto,
{
    if upto <= 0 {
        Seq::empty()
    } else {
        let earlier = spec_discover(present, upto - 1);
        if upto - 1 < present.len() && present[upto - 1] {
            earlier.push(trained_schemas()[upto - 1])
        } else {
            earlier
        }
    }
}

/// The texts that a list of names holds.
pub open spec fn texts(names: Seq<&'static str>) -> Seq<Seq<char>> {
    Seq::new(names.len(), |i: int| names[i]@)
}

/// The schemas that have a trained model, by name.
pub fn trained_schema_names() -> (names: Vec<&'static str>)
    ensures
        texts(names@) == trained_schemas(),
{
    let mut names: Vec<&'static str> = Vec::new();
    names.push("otlp_metrics");
    names.push("otlp_traces");
    names.push("tpch_proto");
    assert(texts(names@) =~= trained_schemas());
    names
}

/// The trained models that are there: `present[i]` says whether the model
/// file of the `i`-th schema of `trained_schemas` exists; what `present`
/// does not reach counts as missing.
pub fn discover_compressors(present: &Vec<bool>) -> (found: Vec<&'static str>)
    ensures
        texts(found@) == spec_discover(present@, 3),
{
    let schemas = trained_schema_names();
    let mut found: Vec<&'static str> = Vec::new();
    let mut i: usize = 0;
    assert(texts(found@) =~= spec_discover(present@, 0));
    assert(texts(schemas@).len() == 3);
    while i < 3
        invariant
            i <= 3,
            schemas@.len() == 3,
            texts(schemas@) == trained_schemas(),
            texts(found@) == spec_discover(present@, i as int),
        decreases 3 - i,
    {
        if i < present.len() && present[i] {
            assert(texts(schemas@)[i as int] == schemas@[i as int]@);
            found.push(schemas[i]);
            assert(texts(found@) =~= spec_discover(present@, i + 1));
        }
        i += 1;
    }
    found
}

/// The datasets that a run is asked to cover.
#[derive(Debug, Clone, Copy, PartialEq, Eq, Structural)]
pub enum DatasetFilter {
    All,
    Otel,
    Tpch,
}

/// The filter that the word `filter` stands for, if it stands for one.
pub open spec fn spec_parse_filter(filter: Seq<char>) -> Option<DatasetFilter> {
    if filter == "all"@ {
        Some(DatasetFilter::All)
    } else if filter == "otel"@ {
        Some(DatasetFilter::Otel)
    } else if filter == "tpch"@ {
        Some(DatasetFilter::Tpch)
    } else {
        None
    }
}

impl DatasetFilter {
    /// Whether the filter lets the dataset through.
    pub open spec fn includes(self, dataset: Seq<char>) -> bool {
        match self {
            DatasetFilter::All => true,
            DatasetFilter::Otel => has_substring(dataset, "otel"@),
            DatasetFilter::Tpch => has_prefix(dataset, "tpch-"@),
        }
    }

    /// Reads a filter word: `all`, `otel` or `tpch`.
    pub fn parse(filter: &str) -> (r: Option<DatasetFilter>)
        ensures
            r == spec_parse_filter(filter@),
    {
        if same_text(filter, "all") {
            Some(DatasetFilter::All)
        } else if same_text(filter, "otel") {
            Some(DatasetFilter::Otel)
        } else if same_text(filter, "tpch") {
            Some(DatasetFilter::Tpch)
        } else {
            None
        }
    }

    /// Tests whether the filter lets the dataset through.
    pub fn admits(&self, dataset_name: &str) -> (r: bool)
        ensures
            r == self.includes(dataset_name@),
    {
        match self {
            DatasetFilter::All => true,
            DatasetFilter::Otel => contains(dataset_name, "otel"),
            DatasetFilter::Tpch => starts_with(dataset_name, "tpch-"),
        }
    }
}

/// Whether the dataset passes the filter that `filter` names; `None` where
/// `filter` names none.
pub fn should_include_dataset(dataset_name: &str, filter: &str) -> (r: Option<bool>)
    ensures
        r == match spec_parse_filter(filter@) {
            Some(parsed) => Some(parsed.includes(dataset_name@)),
            None => None,
        },
{
    match DatasetFilter::parse(filter) {
        Some(parsed) => Some(parsed.admits(dataset_name)),
        None => None,
    }
}

/// The codecs that a batch is measured with.
#[derive(Debug, Clone, Copy, PartialEq, Eq, Structural)]
pub enum CodecAssignment {
    /// The baseline compressor alone: no structured codec reads the format.
    BaselineOnly,
    /// The baseline compressor and the structured one, with the schema of
    /// the format and the trained model at position `model` of the models
    /// at hand.
    Structured { schema: ProtoSchema, model: usize },
    /// Neither: the format is not known.
    Unsupported,
    /// Neither: the format needs a trained model that is not at hand.
    ModelMissing,
}

/// How a batch of the given dataset and format is measured when the
/// trained models named `models` are at hand: the first model of the right
/// name serves.
pub open spec fn resolves_to(
    dataset: Seq<char>,
    format: Seq<char>,
    models: Seq<Seq<char>>,
    r: CodecAssignment,
) -> bool {
    if spec_is_zstd_only_format(dataset, format) {
        r == CodecAssignment::BaselineOnly
    } else {
        match spec_compressor_name(dataset, format) {
            None => r == CodecAssignment::Unsupported,
            Some(name) => match (spec_from_compressor_name(name), r) {
                (None, _) => r == CodecAssignment::Unsupported,
                (Some(known), CodecAssignment::Structured { schema, model }) => {
                    &&& schema == known
                    &&& model < models.len()
                    &&& models[model as int] == name
                    &&& forall|j: int| 0 <= j < model ==> models[j] != name
                },
                (Some(_), CodecAssignment::ModelMissing) => forall|j: int|
                    0 <= j < models.len() ==> models[j] != name,
                _ => false,
            },
        }
    }
}

/// Decides how a batch is measured, given the names of the trained models
/// at hand.
pub fn resolve(info: &BatchDirInfo, models: &Vec<String>) -> (r: CodecAssignment)
    ensures
        resolves_to(info.dataset@, info.format@, string_texts(models@), r),
{
    if info.is_zstd_only_format() {
        return CodecAssignment::BaselineOnly;
    }
    let name: &str = match info.trained_compressor_name() {
        Some(name) => name,
        None => {
            return CodecAssignment::Unsupported;
        },
    };
    let schema = match ProtoSchema::from_compressor_name(name) {
        Some(schema) => schema,
        None => {
            return CodecAssignment::Unsupported;
        },
    };
    let mut i: usize = 0;
    while i < models.len()
        invariant
            i <= models.len(),
            !spec_is_zstd_only_format(info.dataset@, info.format@),
            spec_compressor_name(info.dataset@, info.format@) == Some(name@),
            spec_from_compressor_name(name@) == Some(schema),
            forall|j: int| 0 <= j < i ==> string_texts(models@)[j] != name@,
        decreases models.len() - i,
    {
        if same_text(models[i].as_str(), name) {
            return CodecAssignment::Structured { schema, model: i };
        }
        i += 1;
    }
    CodecAssignment::ModelMissing
}

/// A format that is measured with the baseline alone has no trained model:
/// the two rules never both claim a batch.
pub proof fn lemma_baseline_only_has_no_model(dataset: Seq<char>, format: Seq<char>)
    requires
        spec_is_zstd_only_format(dataset, format),
    ensures
        spec_compressor_name(dataset, format) is None,
{
    reveal_strlit("arrow");
    reveal_strlit("arrownodict");
    reveal_strlit("arrowdictperfile");
    reveal_strlit("otap");
    reveal_strlit("otapnodict");
    reveal_strlit("otapdictperfile");
    reveal_strlit("otapnosort");
    reveal_strlit("otapnodedup");
    reveal_strlit("otlp");
    reveal_strlit("otlpmetricsdict");
    reveal_strlit("otlptracesdict");
    reveal_strlit("proto");
    assert(format.len() > 2);
    assert(format[0] == 'a' || format[2] == 'a');
    assert("otlp"@[2] == 'l' && "otlpmetricsdict"@[2] == 'l' && "otlptracesdict"@[2] == 'l');
    assert("proto"@[0] == 'p' && "proto"@[2] == 'o');
}

/// A dictionary-encoded variant is served by the model of its plain
/// counterpart: metrics with metrics, traces with traces.
pub proof fn lemma_dictionary_variants_share_model(dataset: Seq<char>)
    ensures
        has_substring(dataset, "otelmetrics"@) ==> spec_compressor_name(dataset, "otlp"@)
            == spec_compressor_name(dataset, "otlpmetricsdict"@),
        !has_substring(dataset, "otelmetrics"@) && has_substring(dataset, "oteltraces"@)
            ==> spec_compressor_name(dataset, "otlp"@) == spec_compressor_name(
            dataset,
            "otlptracesdict"@,
        ),
{
    reveal_strlit("otlp");
    reveal_strlit("otlpmetricsdict");
    reveal_strlit("otlptracesdict");
    assert("otlp"@.len() == 4 && "otlpmetricsdict"@.len() == 15 && "otlptracesdict"@.len() == 14);
}

/// Every format that has a trained model has a schema: a batch is
/// unsupported only where no compressor goes with its format.
pub proof fn lemma_named_compressors_have_schemas(dataset: Seq<char>, format: Seq<char>)
    requires
        spec_compressor_name(dataset, format) is Some,
    ensures
        spec_from_compressor_name(spec_compressor_name(dataset, format)->0) is Some,
{
}

} // verus!
