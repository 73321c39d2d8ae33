//! The order of a report: results grouped by dataset and batch size, the
//! groups and the rows within a group in dictionary order of their names.

use crate::dictionary::{
    arrange, before, in_key_order, is_arrangement, key_le, lemma_text_le_antisymmetric,
    lemma_text_le_reflexive, KeyModel, SortKey,
};
use crate::text::{chars_of, same_text};
use vstd::prelude::*;

verus! {

/// What places a result in the report.
#[derive(Debug, Clone)]
pub struct ResultKey {
    pub dataset: String,
    pub batch_size: usize,
    /// Name of the compressor, or of the format where it is baseline-only.
    pub compressor: String,
    /// Whether the result holds a structured measurement beside the baseline.
    pub structured: bool,
}

impl View for ResultKey {
    type V = KeyModel;

    open spec fn view(&self) -> KeyModel {
        KeyModel { name: self.dataset@, number: self.batch_size, detail: self.compressor@ }
    }
}

/// The keys of all results.
pub open spec fn key_models(keys: Seq<ResultKey>) -> Seq<KeyModel> {
    Seq::new(keys.len(), |i: int| keys[i]@)
}

/// Two results belong to the same group of the report.
pub open spec fn same_group(a: KeyModel, b: KeyModel) -> bool {
    a.name == b.name && a.number == b.number
}

/// The order in which a report shows the results with the given keys:
/// positions into `keys`, sorted by dataset, batch size and compressor
/// name; results with the same key keep the order in which they came.
pub fn report_order(keys: &Vec<ResultKey>) -> (order: Vec<usize>)
    ensures
        is_arrangement(order@, keys@.len()),
        in_key_order(key_models(keys@), order@),
{
    let mut sort_keys: Vec<SortKey> = Vec::new();
    let mut i: usize = 0;
    while i < keys.len()
        invariant
            i <= keys.len(),
            sort_keys@.len() == i,
            forall|j: int| 0 <= j < i ==> (#[trigger] sort_keys@[j])@ == keys@[j]@,
        decreases keys.len() - i,
    {
        let key = &keys[i];
        sort_keys.push(
            SortKey {
                name: chars_of(key.dataset.as_str()),
                number: key.batch_size,
                detail: chars_of(key.compressor.as_str()),
            },
        );
        i += 1;
    }
    let order = arrange(&sort_keys);
    assert(crate::dictionary::key_models(sort_keys@) =~= key_models(keys@));
    order
}

/// In a report's order a group is one stretch: what stands between two
/// results of a group belongs to the group.
pub proof fn lemma_groups_are_contiguous(
    keys: Seq<KeyModel>,
    order: Seq<usize>,
    a: int,
    b: int,
    c: int,
)
    requires
        in_key_order(keys, order),
        0 <= a < b < c < order.len(),
        same_group(keys[order[a] as int], keys[order[c] as int]),
    ensures
        same_group(keys[order[a] as int], keys[order[b] as int]),
{
    let first = keys[order[a] as int];
    let mid = keys[order[b] as int];
    let last = keys[order[c] as int];
    assert(before(keys, order[a] as int, order[b] as int));
    assert(before(keys, order[b] as int, order[c] as int));
    lemma_text_le_reflexive(first.name);
    lemma_text_le_reflexive(first.detail);
    lemma_text_le_reflexive(mid.name);
    lemma_text_le_reflexive(mid.detail);
    assert(key_le(first, mid) && key_le(mid, last));
    if first.name != mid.name {
        lemma_text_le_antisymmetric(first.name, mid.name);
    }
}

/// The codec that a row of the report is about.
#[derive(Debug, Clone, Copy, PartialEq, Eq)]
pub enum Codec {
    Baseline,
    Structured,
}

/// One row of the report.
#[derive(Debug, Clone, Copy, PartialEq, Eq)]
pub struct Row {
    /// Position of the result that the row shows.
    pub result: usize,
    pub codec: Codec,
    /// Whether the row is the first of its group.
    pub starts_group: bool,
}

/// The rows of the results that `order` names, in that order: for each
/// result its baseline row and then, where it has one, its structured row.
/// A group starts where dataset or batch size differ from the result before.
pub open spec fn rows_of(keys: Seq<ResultKey>, order: Seq<usize>) -> Seq<Row>
    decreases order.len(),
{
    if order.len() == 0 {
        Seq::empty()
    } else {
        let shown = order.last();
        let starts_group = order.len() == 1 || !same_group(
            keys[order[order.len() - 2] as int]@,
            keys[shown as int]@,
        );
        let baseline = rows_of(keys, order.drop_last()).push(
            Row { result: shown, codec: Codec::Baseline, starts_group },
        );
        if keys[shown as int].structured {
            baseline.push(Row { result: shown, codec: Codec::Structured, starts_group: false })
        } else {
            baseline
        }
    }
}

/// The rows of a report of the results with the given keys: the results
/// in report order, each with its baseline row before its structured row.
pub fn report_rows(keys: &Vec<ResultKey>) -> (r: (Vec<usize>, Vec<Row>))
    ensures
        is_arrangement(r.0@, keys@.len()),
        in_key_order(key_models(keys@), r.0@),
        r.1@ == rows_of(keys@, r.0@),
{
    let order = report_order(keys);
    let mut rows: Vec<Row> = Vec::new();
    let mut j: usize = 0;
    while j < order.len()
        invariant
            j <= order@.len(),
            is_arrangement(order@, keys@.len()),
            rows@ == rows_of(keys@, order@.take(j as int)),
        decreases order.len() - j,
    {
        let shown: usize = order[j];
        let key = &keys[shown];
        let starts_group = if j == 0 {
            true
        } else {
            let earlier = &keys[order[j - 1]];
            !(earlier.batch_size == key.batch_size && same_text(
                earlier.dataset.as_str(),
                key.dataset.as_str(),
            ))
        };
        proof {
            let upto = order@.take(j + 1);
            assert(upto.drop_last() =~= order@.take(j as int));
            assert(upto.last() == shown);
            if j > 0 {
                assert(upto[upto.len() - 2] == order@[j - 1]);
            }
        }
        rows.push(Row { result: shown, codec: Codec::Baseline, starts_group });
        if key.structured {
            rows.push(Row { result: shown, codec: Codec::Structured, starts_group: false });
        }
        j += 1;
    }
    assert(order@.take(order@.len() as int) =~= order@);
    (order, rows)
}

/// The name under which a report shows a compressor's format, where it
/// has one of its own.
pub open spec fn spec_format_label(compressor: Seq<char>) -> Option<Seq<char>> {
    if compressor == "otlp_metrics"@ || compressor == "otlp_traces"@ {
        Some("OTLP"@)
    } else if compressor == "otap"@ {
        Some("OTAP"@)
    } else {
        None
    }
}

/// The format name to show for a compressor; `None` where the compressor's
/// own name is shown.
pub fn format_label(compressor: &str) -> (r: Option<&'static str>)
    ensures
        match (r, spec_format_label(compressor@)) {
            (Some(label), Some(text)) => label@ == text,
            (None, None) => true,
            _ => false,
        },
{
    if same_text(compressor, "otlp_metrics") || same_text(compressor, "otlp_traces") {
        Some("OTLP")
    } else if same_text(compressor, "otap") {
        Some("OTAP")
    } else {
        None
    }
}

} // verus!
