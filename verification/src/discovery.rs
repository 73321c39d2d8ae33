//! The corpus on disk: which directories are batches, how their names
//! read, which files are payloads and in which order they are read.
//!
//! A batch directory is named `{dataset}-{format}-{batch_size}`; the name is
//! read from the right, so that the dataset may itself contain hyphens.

use crate::dictionary::{in_name_order, is_selection, select_in_name_order, string_texts};
use crate::text::{
    chars_of, contains, ends_with, has_prefix, has_substring, has_suffix, parse_usize, same_text,
    spec_parse_usize, starts_with,
};
use vstd::prelude::*;

verus! {

/// Record counts that a batch directory's metadata file declares.
#[derive(Debug, Clone, Copy, PartialEq, Eq)]
pub struct BatchMetadata {
    pub total_data_points: usize,
    pub num_payloads: usize,
}

/// The three parts of a batch directory's name.
#[derive(Debug, Clone)]
pub struct BatchDirInfo {
    /// Dataset name, which may contain hyphens.
    pub dataset: String,
    /// Payload format name.
    pub format: String,
    /// Number of records per payload; a parsed name never gives zero.
    pub batch_size: usize,
}

/// Why a directory name is not a batch directory name.
#[derive(Debug, Clone, Copy, PartialEq, Eq)]
pub enum NameParseError {
    /// The name has fewer than three hyphen-separated segments.
    TooFewSegments,
    /// The last segment is not a positive decimal numeral that fits `usize`:
    /// it is no numeral, its value is zero, or its value is too large.
    InvalidBatchSize,
}

/// Index of the last occurrence of `c` in `s`, or `-1` where there is none.
pub open spec fn last_index_of(s: Seq<char>, c: char) -> int
    decreases s.len(),
{
    if s.len() == 0 {
        -1
    } else if s.last() == c {
        s.len() - 1
    } else {
        last_index_of(s.drop_last(), c)
    }
}

/// What `last_index_of` promises: the index holds `c`, nothing after it does.
pub proof fn lemma_last_index_of(s: Seq<char>, c: char)
    ensures
        -1 <= last_index_of(s, c) < s.len(),
        last_index_of(s, c) >= 0 ==> s[last_index_of(s, c)] == c,
        forall|j: int| last_index_of(s, c) < j < s.len() ==> s[j] != c,
    decreases s.len(),
{
    if s.len() > 0 && s.last() != c {
        let front = s.drop_last();
        lemma_last_index_of(front, c);
        assert forall|j: int| last_index_of(s, c) < j < s.len() implies s[j] != c by {
            if j < front.len() {
                assert(front[j] == s[j]);
            }
        }
    }
}

/// The parts of a valid batch directory name, as character sequences.
pub struct NameParts {
    pub dataset: Seq<char>,
    pub format: Seq<char>,
    pub batch_size: usize,
}

/// The batch size that the text after the last hyphen stands for: the
/// value of a decimal numeral that is positive and fits `usize`. A batch of
/// no records is no batch, so a numeral worth zero stands for none. A
/// numeral may begin with a plus sign and with zeros.
pub open spec fn spec_batch_size(text: Seq<char>) -> Option<usize> {
    match spec_parse_usize(text) {
        Some(value) => if value > 0 {
            Some(value)
        } else {
            None
        },
        None => None,
    }
}

/// The meaning of a directory name: its three parts, split at the last two
/// hyphens, or the reason why it has none.
pub open spec fn spec_parse_batch_dir_name(name: Seq<char>) -> Result<NameParts, NameParseError> {
    let second = last_index_of(name, '-');
    let first = last_index_of(name.take(second), '-');
    if second < 0 || first < 0 {
        Err(NameParseError::TooFewSegments)
    } else {
        match spec_batch_size(name.skip(second + 1)) {
            Some(batch_size) => Ok(
                NameParts {
                    dataset: name.take(first),
                    format: name.subrange(first + 1, second),
                    batch_size,
                },
            ),
            None => Err(NameParseError::InvalidBatchSize),
        }
    }
}

/// Finds the last occurrence of `c` among the first `end` characters.
fn rfind(s: &Vec<char>, end: usize, c: char) -> (r: Option<usize>)
    requires
        end <= s.len(),
    ensures
        match r {
            Some(i) => i == last_index_of(s@.take(end as int), c),
            None => last_index_of(s@.take(end as int), c) == -1,
        },
{
    let mut i: usize = end;
    while i > 0
        invariant
            i <= end <= s.len(),
            last_index_of(s@.take(end as int), c) == last_index_of(s@.take(i as int), c),
        decreases i,
    {
        proof {
            assert(s@.take(i as int).drop_last() =~= s@.take(i - 1));
        }
        if s[i - 1] == c {
            return Some(i - 1);
        }
        i -= 1;
    }
    None
}

/// Splits a batch directory name into dataset, format and batch size.
pub fn parse_batch_dir_name(dir_name: &str) -> (r: Result<BatchDirInfo, NameParseError>)
    ensures
        match (r, spec_parse_batch_dir_name(dir_name@)) {
            (Ok(info), Ok(parts)) => {
                &&& info.dataset@ == parts.dataset
                &&& info.format@ == parts.format
                &&& info.batch_size == parts.batch_size
            },
            (Err(e), Err(f)) => e == f,
            _ => false,
        },
{
    let chars = chars_of(dir_name);
    let n: usize = chars.len();
    proof {
        assert(chars@.take(n as int) =~= chars@);
    }
    let second: usize = match rfind(&chars, n, '-') {
        Some(i) => i,
        None => {
            return Err(NameParseError::TooFewSegments);
        },
    };
    proof {
        lemma_last_index_of(chars@, '-');
    }
    let first: usize = match rfind(&chars, second, '-') {
        Some(i) => i,
        None => {
            return Err(NameParseError::TooFewSegments);
        },
    };
    proof {
        lemma_last_index_of(chars@.take(second as int), '-');
    }
    let mut tail: Vec<char> = Vec::new();
    let mut k: usize = second + 1;
    while k < n
        invariant
            n == chars.len(),
            second + 1 <= k <= n,
            tail@ == chars@.subrange(second + 1, k as int),
        decreases n - k,
    {
        tail.push(chars[k]);
        k += 1;
    }
    assert(tail@ =~= chars@.skip(second + 1));
    let batch_size: usize = match parse_usize(&tail) {
        Some(v) => v,
        None => {
            return Err(NameParseError::InvalidBatchSize);
        },
    };
    if batch_size == 0 {
        return Err(NameParseError::InvalidBatchSize);
    }
    let dataset = dir_name.substring_char(0, first).to_owned();
    let format = dir_name.substring_char(first + 1, second).to_owned();
    assert(dataset@ =~= chars@.take(first as int));
    Ok(BatchDirInfo { dataset, format, batch_size })
}

/// Number of occurrences of `c` in `s`.
pub open spec fn count_of(s: Seq<char>, c: char) -> nat
    decreases s.len(),
{
    if s.len() == 0 {
        0
    } else {
        count_of(s.drop_last(), c) + if s.last() == c {
            1nat
        } else {
            0nat
        }
    }
}

/// `c` has a last occurrence exactly where it occurs at all, and the text
/// before that occurrence holds one occurrence less.
pub proof fn lemma_count_before_last(s: Seq<char>, c: char)
    ensures
        last_index_of(s, c) < 0 <==> count_of(s, c) == 0,
        last_index_of(s, c) >= 0 ==> count_of(s.take(last_index_of(s, c)), c) + 1 == count_of(
            s,
            c,
        ),
    decreases s.len(),
{
    if s.len() > 0 {
        let front = s.drop_last();
        if s.last() == c {
            assert(s.take(s.len() - 1) =~= front);
        } else {
            lemma_count_before_last(front, c);
            lemma_last_index_of(front, c);
            let at = last_index_of(front, c);
            if at >= 0 {
                assert(s.take(at) =~= front.take(at));
            }
        }
    }
}

/// A name is refused for its shape exactly when it holds fewer than two
/// hyphens, that is, fewer than three hyphen-separated segments.
pub proof fn lemma_too_few_segments(name: Seq<char>)
    ensures
        spec_parse_batch_dir_name(name) == Err::<NameParts, NameParseError>(
            NameParseError::TooFewSegments,
        ) <==> count_of(name, '-') < 2,
{
    lemma_count_before_last(name, '-');
    let second = last_index_of(name, '-');
    if second >= 0 {
        lemma_count_before_last(name.take(second), '-');
    }
}

/// A name is accepted exactly when it holds at least two hyphens and the
/// text after the last one is a decimal numeral that is positive and fits
/// `usize`.
pub proof fn lemma_accepted_names(name: Seq<char>)
    ensures
        spec_parse_batch_dir_name(name) is Ok <==> {
            &&& count_of(name, '-') >= 2
            &&& spec_parse_usize(name.skip(last_index_of(name, '-') + 1)) matches Some(value)
            &&& value > 0
        },
{
    lemma_too_few_segments(name);
}

/// The parts of an accepted name put the name together again: dataset,
/// hyphen, format, hyphen, batch size text. Neither the format nor the batch
/// size text holds a hyphen, so the split is the rightmost one.
pub proof fn lemma_parsed_name_reassembles(name: Seq<char>)
    requires
        spec_parse_batch_dir_name(name) is Ok,
    ensures
        ({
            let parts = spec_parse_batch_dir_name(name)->Ok_0;
            let size_text = name.skip(last_index_of(name, '-') + 1);
            &&& name == parts.dataset + seq!['-'] + parts.format + seq!['-'] + size_text
            &&& !parts.format.contains('-')
            &&& !size_text.contains('-')
            &&& spec_parse_usize(size_text) == Some(parts.batch_size)
            &&& parts.batch_size > 0
        }),
{
    let second = last_index_of(name, '-');
    let head = name.take(second);
    let first = last_index_of(head, '-');
    lemma_last_index_of(name, '-');
    lemma_last_index_of(head, '-');
    let parts = spec_parse_batch_dir_name(name)->Ok_0;
    let size_text = name.skip(second + 1);
    assert(name =~= parts.dataset + seq!['-'] + parts.format + seq!['-'] + size_text);
    assert forall|j: int| 0 <= j < parts.format.len() implies parts.format[j] != '-' by {
        assert(parts.format[j] == head[first + 1 + j]);
    }
    assert forall|j: int| 0 <= j < size_text.len() implies size_text[j] != '-' by {
        assert(size_text[j] == name[second + 1 + j]);
    }
}

/// The trained model that serves a dataset and format, by name; `None` for
/// the formats that no structured codec handles.
pub open spec fn spec_compressor_name(dataset: Seq<char>, format: Seq<char>) -> Option<Seq<char>> {
    if format == "otlp"@ && has_substring(dataset, "otelmetrics"@) {
        Some("otlp_metrics"@)
    } else if format == "otlp"@ && has_substring(dataset, "oteltraces"@) {
        Some("otlp_traces"@)
    } else if format == "otlpmetricsdict"@ {
        Some("otlp_metrics"@)
    } else if format == "otlptracesdict"@ {
        Some("otlp_traces"@)
    } else if format == "proto"@ && has_prefix(dataset, "tpch-"@) {
        Some("tpch_proto"@)
    } else {
        None
    }
}

/// The formats that are measured with the baseline compressor only.
pub open spec fn spec_is_zstd_only_format(dataset: Seq<char>, format: Seq<char>) -> bool {
    ||| (format == "arrow"@ || format == "arrownodict"@ || format == "arrowdictperfile"@)
        && has_prefix(dataset, "tpch-"@)
    ||| format == "otap"@
    ||| format == "otapnodict"@
    ||| format == "otapdictperfile"@
    ||| format == "otapnosort"@
    ||| format == "otapnodedup"@
}

/// `r` names exactly the text `expected`, or both are absent.
pub open spec fn names_text(r: Option<&str>, expected: Option<Seq<char>>) -> bool {
    match (r, expected) {
        (Some(name), Some(text)) => name@ == text,
        (None, None) => true,
        _ => false,
    }
}

impl BatchDirInfo {
    /// Name of the structured compressor for this batch, if it has one.
    pub fn compressor_name(&self) -> (r: Option<&str>)
        ensures
            names_text(r, spec_compressor_name(self.dataset@, self.format@)),
    {
        let name: Option<&str> = self.trained_compressor_name();
        name
    }

    /// Name of the trained model to load for this batch, if it needs one.
    pub fn trained_compressor_name(&self) -> (r: Option<&'static str>)
        ensures
            names_text(r, spec_compressor_name(self.dataset@, self.format@)),
    {
        let format = self.format.as_str();
        let dataset = self.dataset.as_str();
        if same_text(format, "otlp") && contains(dataset, "otelmetrics") {
            Some("otlp_metrics")
        } else if same_text(format, "otlp") && contains(dataset, "oteltraces") {
            Some("otlp_traces")
        } else if same_text(format, "otlpmetricsdict") {
            Some("otlp_metrics")
        } else if same_text(format, "otlptracesdict") {
            Some("otlp_traces")
        } else if same_text(format, "proto") && starts_with(dataset, "tpch-") {
            Some("tpch_proto")
        } else {
            None
        }
    }

    /// Whether this batch is measured with the baseline compressor only.
    pub fn is_zstd_only_format(&self) -> (r: bool)
        ensures
            r == spec_is_zstd_only_format(self.dataset@, self.format@),
    {
        let format = self.format.as_str();
        let is_arrow = (same_text(format, "arrow") || same_text(format, "arrownodict")
            || same_text(format, "arrowdictperfile")) && starts_with(
            self.dataset.as_str(),
            "tpch-",
        );
        let is_otap = same_text(format, "otap");
        let is_otap_variant = same_text(format, "otapnodict") || same_text(
            format,
            "otapdictperfile",
        ) || same_text(format, "otapnosort") || same_text(format, "otapnodedup");
        is_arrow || is_otap || is_otap_variant
    }

    /// The format's name where the batch is baseline-only, else `None`.
    pub fn zstd_only_format_name(&self) -> (r: Option<&str>)
        ensures
            r is Some <==> spec_is_zstd_only_format(self.dataset@, self.format@),
            r matches Some(name) ==> name@ == self.format@,
    {
        if self.is_zstd_only_format() {
            Some(self.format.as_str())
        } else {
            None
        }
    }
}

/// A payload file's name begins with `payload_` and ends with `.bin`.
pub open spec fn spec_is_payload_file_name(name: Seq<char>) -> bool {
    has_prefix(name, "payload_"@) && has_suffix(name, ".bin"@)
}

/// Tests whether a file name follows the payload naming convention.
pub fn is_payload_file_name(name: &str) -> (r: bool)
    ensures
        r == spec_is_payload_file_name(name@),
{
    starts_with(name, "payload_") && ends_with(name, ".bin")
}

/// Some file of the list is a payload file.
pub open spec fn spec_has_payload_files(file_names: Seq<Seq<char>>) -> bool {
    exists|i: int|
        0 <= i < file_names.len() && spec_is_payload_file_name(#[trigger] file_names[i])
}

/// Tests whether a directory with these files holds a payload file.
pub fn has_payload_files(file_names: &Vec<String>) -> (r: bool)
    ensures
        r == spec_has_payload_files(string_texts(file_names@)),
{
    let mut i: usize = 0;
    while i < file_names.len()
        invariant
            i <= file_names.len(),
            forall|j: int|
                0 <= j < i ==> !spec_is_payload_file_name(#[trigger] string_texts(file_names@)[j]),
        decreases file_names.len() - i,
    {
        if is_payload_file_name(file_names[i].as_str()) {
            assert(spec_is_payload_file_name(string_texts(file_names@)[i as int]));
            return true;
        }
        i += 1;
    }
    false
}

/// For each file, whether it is a payload file.
pub open spec fn payload_flags(file_names: Seq<Seq<char>>) -> Seq<bool> {
    Seq::new(file_names.len(), |i: int| spec_is_payload_file_name(file_names[i]))
}

/// The order in which a batch directory's payloads are read: the
/// positions of its payload files, by file name.
pub fn payload_file_order(file_names: &Vec<String>) -> (order: Vec<usize>)
    ensures
        is_selection(order@, payload_flags(string_texts(file_names@))),
        in_name_order(string_texts(file_names@), order@),
{
    let mut wanted: Vec<bool> = Vec::new();
    let mut i: usize = 0;
    while i < file_names.len()
        invariant
            i <= file_names.len(),
            wanted@ == payload_flags(string_texts(file_names@)).take(i as int),
        decreases file_names.len() - i,
    {
        wanted.push(is_payload_file_name(file_names[i].as_str()));
        assert(wanted@ =~= payload_flags(string_texts(file_names@)).take(i + 1));
        i += 1;
    }
    assert(wanted@ =~= payload_flags(string_texts(file_names@)));
    select_in_name_order(file_names, &wanted)
}

/// What a listing shows of one entry of the data directory.
#[derive(Debug, Clone)]
pub struct DirectoryListing {
    pub name: String,
    pub is_dir: bool,
    /// Names of the files in it, where it is a directory.
    pub files: Vec<String>,
}

/// The names of the entries.
pub open spec fn entry_names(entries: Seq<DirectoryListing>) -> Seq<Seq<char>> {
    Seq::new(entries.len(), |i: int| entries[i].name@)
}

/// For each entry, whether it is a batch directory: a directory that
/// holds at least one payload file.
pub open spec fn batch_flags(entries: Seq<DirectoryListing>) -> Seq<bool> {
    Seq::new(
        entries.len(),
        |i: int| entries[i].is_dir && spec_has_payload_files(string_texts(entries[i].files@)),
    )
}

/// The batch directories among the entries of the data directory: their
/// positions, by name.
pub fn discover_batch_directories(entries: &Vec<DirectoryListing>) -> (order: Vec<usize>)
    ensures
        is_selection(order@, batch_flags(entries@)),
        in_name_order(entry_names(entries@), order@),
{
    let mut names: Vec<String> = Vec::new();
    let mut wanted: Vec<bool> = Vec::new();
    let mut i: usize = 0;
    while i < entries.len()
        invariant
            i <= entries.len(),
            names@.len() == i,
            string_texts(names@) == entry_names(entries@).take(i as int),
            wanted@ == batch_flags(entries@).take(i as int),
        decreases entries.len() - i,
    {
        let entry = &entries[i];
        names.push(entry.name.clone());
        wanted.push(entry.is_dir && has_payload_files(&entry.files));
        assert(string_texts(names@) =~= entry_names(entries@).take(i + 1));
        assert(wanted@ =~= batch_flags(entries@).take(i + 1));
        i += 1;
    }
    assert(string_texts(names@) =~= entry_names(entries@));
    assert(wanted@ =~= batch_flags(entries@));
    select_in_name_order(&names, &wanted)
}

} // verus!
