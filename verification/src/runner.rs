//! What every benchmark run shares: its errors, the size of a corpus and
//! the round-trip check.

use crate::session::OpenZLError;
use vstd::prelude::*;

verus! {

/// Why a benchmark of one batch with one codec gave no result.
#[derive(Debug)]
pub enum BenchmarkError {
    /// The batch holds no payload.
    EmptyCorpus,
    /// No schema goes by the compressor's name.
    UnknownCompressor,
    /// The baseline compressor failed.
    ZstdCompress(std::io::Error),
    /// The baseline decompressor failed.
    ZstdDecompress(std::io::Error),
    /// The structured compressor failed on the payload at `index`, of `len` bytes.
    OpenZLCompress { index: usize, len: usize, source: OpenZLError },
    /// The structured decompressor failed on the frame at `index`.
    OpenZLDecompress { index: usize, source: OpenZLError },
    /// The payload at `index` did not come back from compression and
    /// decompression as it went in.
    RoundTripMismatch { index: usize, original_len: usize, decompressed_len: usize },
    /// No batch of the whole run gave a result.
    NoResults,
}

/// The byte strings that a list of buffers holds.
pub open spec fn views(items: Seq<Vec<u8>>) -> Seq<Seq<u8>> {
    Seq::new(items.len(), |i: int| items[i]@)
}

/// The summed length of the byte strings.
pub open spec fn total_len(items: Seq<Seq<u8>>) -> nat
    decreases items.len(),
{
    if items.len() == 0 {
        0
    } else {
        total_len(items.drop_last()) + items.last().len()
    }
}

/// The first `n` byte strings of `a` and `b` are the same.
pub open spec fn agree_upto(a: Seq<Seq<u8>>, b: Seq<Seq<u8>>, n: int) -> bool {
    forall|i: int| 0 <= i < n ==> a[i] == b[i]
}

/// The number of pairs that a round-trip check compares.
pub open spec fn paired(a: Seq<Seq<u8>>, b: Seq<Seq<u8>>) -> int {
    if a.len() <= b.len() {
        a.len() as int
    } else {
        b.len() as int
    }
}

/// What a round-trip check of `original` against `decompressed` owes: no
/// error where every pair agrees, else the first pair that differs, with
/// the lengths of its two sides.
pub open spec fn roundtrip_verdict(
    original: Seq<Seq<u8>>,
    decompressed: Seq<Seq<u8>>,
    r: Result<(), BenchmarkError>,
) -> bool {
    match r {
        Ok(()) => agree_upto(original, decompressed, paired(original, decompressed)),
        Err(BenchmarkError::RoundTripMismatch { index, original_len, decompressed_len }) => {
            &&& index < paired(original, decompressed)
            &&& agree_upto(original, decompressed, index as int)
            &&& original[index as int] != decompressed[index as int]
            &&& original_len == original[index as int].len()
            &&& decompressed_len == decompressed[index as int].len()
        },
        Err(_) => false,
    }
}

/// Judges a whole run by the number of results that its batches gave: it
/// has failed only where no batch gave one, however many were skipped.
pub fn check_results(produced: usize) -> (r: Result<(), BenchmarkError>)
    ensures
        produced > 0 ==> r == Ok::<(), BenchmarkError>(()),
        produced == 0 ==> r == Err::<(), BenchmarkError>(BenchmarkError::NoResults),
{
    if produced > 0 {
        Ok(())
    } else {
        Err(BenchmarkError::NoResults)
    }
}

/// The total size of the buffers, in bytes.
pub fn total_bytes(items: &Vec<Vec<u8>>) -> (total: u128)
    ensures
        total == total_len(views(items@)),
{
    let n: usize = items.len();
    let mut total: u128 = 0;
    let mut i: usize = 0;
    while i < n
        invariant
            n == items.len(),
            i <= n,
            total == total_len(views(items@).take(i as int)),
            total <= i * usize::MAX,
        decreases n - i,
    {
        let len: usize = items[i].len();
        proof {
            let upto = views(items@).take(i + 1);
            assert(upto.drop_last() =~= views(items@).take(i as int));
            assert(upto.last() == items@[i as int]@);
            assert(i * usize::MAX + usize::MAX == (i + 1) * usize::MAX) by (nonlinear_arith);
            assert((i + 1) * usize::MAX <= u64::MAX * u64::MAX) by (nonlinear_arith)
                requires
                    i + 1 <= u64::MAX,
                    usize::MAX <= u64::MAX,
            ;
        }
        total = total + len as u128;
        i += 1;
    }
    assert(views(items@).take(n as int) =~= views(items@));
    total
}

/// Tests whether two buffers hold the same bytes.
pub fn same_bytes(a: &Vec<u8>, b: &Vec<u8>) -> (r: bool)
    ensures
        r == (a@ == b@),
{
    let r = a == b;
    if r {
        assert(a@ =~= b@);
    }
    r
}

/// Checks that each decompressed payload equals the original at the same
/// place, byte for byte.
pub fn verify_roundtrip(original: &Vec<Vec<u8>>, decompressed: &Vec<Vec<u8>>) -> (r: Result<
    (),
    BenchmarkError,
>)
    ensures
        roundtrip_verdict(views(original@), views(decompressed@), r),
{
    let n: usize = if original.len() <= decompressed.len() {
        original.len()
    } else {
        decompressed.len()
    };
    let mut i: usize = 0;
    while i < n
        invariant
            n == paired(views(original@), views(decompressed@)),
            i <= n,
            agree_upto(views(original@), views(decompressed@), i as int),
        decreases n - i,
    {
        if !same_bytes(&original[i], &decompressed[i]) {
            return Err(
                BenchmarkError::RoundTripMismatch {
                    index: i,
                    original_len: original[i].len(),
                    decompressed_len: decompressed[i].len(),
                },
            );
        }
        i += 1;
    }
    Ok(())
}

} // verus!
