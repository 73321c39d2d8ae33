//! What holds of every structured run, whatever the engine does.

use crate::proto::ProtoSchema;
use crate::structured::{spec_start, PassAction, PassEvent, Phase, RunModel};
use vstd::prelude::*;

verus! {

/// Each step leaves the book consistent.
pub proof fn lemma_step_keeps_book_consistent(book: RunModel, event: PassEvent)
    requires
        book.wf(),
        book.spec_step(event) is Some,
    ensures
        ({
            let (next, _) = book.spec_step(event).unwrap();
            next.wf()
        }),
{
    let n = book.payload_lens.len();
    let i = book.index;
    assert(i * u64::MAX + u64::MAX == (i + 1) * u64::MAX) by (nonlinear_arith);
    assert(i * usize::MAX + usize::MAX == (i + 1) * usize::MAX) by (nonlinear_arith);
    assert((i + 1) * u64::MAX <= 0x1_0000_0000_0000_0000 * u64::MAX) by (nonlinear_arith)
        requires
            i + 1 <= 0x1_0000_0000_0000_0000,
    ;
    if i < n {
        assert((i + 1) * usize::MAX <= n * usize::MAX) by (nonlinear_arith)
            requires
                i + 1 <= n,
        ;
        assert(n * usize::MAX <= 0x1_0000_0000_0000_0000 * 0x1_0000_0000_0000_0000)
            by (nonlinear_arith)
            requires
                n <= 0x1_0000_0000_0000_0000,
                usize::MAX <= 0x1_0000_0000_0000_0000,
        ;
    }
}

/// Passes do not mix. A frame is decompressed only in the pass that made
/// it, once that pass has compressed every payload; and a payload is
/// compressed only when every earlier pass has decompressed all its frames.
pub proof fn lemma_passes_do_not_mix(book: RunModel, event: PassEvent)
    requires
        book.wf(),
        book.spec_step(event) is Some,
    ensures
        ({
            let (next, action) = book.spec_step(event).unwrap();
            &&& action matches PassAction::Decompress { index } ==> {
                &&& next.pass == book.pass
                &&& next.phase == Phase::Decompressing
                &&& next.index == index
                &&& next.compression_times.len() == next.pass + 1
                &&& next.decompression_times.len() == next.pass
            }
            &&& action matches PassAction::Compress { index } ==> {
                &&& next.phase == Phase::Compressing
                &&& next.index == index
                &&& next.compression_times.len() == next.pass
                &&& next.decompression_times.len() == next.pass
                &&& next.pass > book.pass ==> index == 0
            }
            &&& action matches PassAction::Compare { index } ==> {
                &&& next.pass == 0
                &&& next.phase == Phase::Verifying
                &&& next.index == index
                &&& next.verified == index
                &&& next.decompressed_lens.len() == next.payload_lens.len()
            }
        }),
{
    lemma_step_keeps_book_consistent(book, event);
}

/// A run succeeds only with the times of all its passes on the book and,
/// where it made any pass over any payload, with every payload of the
/// first pass judged to have come back as it went in.
pub proof fn lemma_success_is_verified(book: RunModel, event: PassEvent)
    requires
        book.wf(),
        book.spec_step(event) matches Some((_, PassAction::Succeed)),
    ensures
        ({
            let (next, _) = book.spec_step(event).unwrap();
            &&& next.phase == Phase::Succeeded
            &&& next.compression_times.len() == next.iterations
            &&& next.decompression_times.len() == next.iterations
            &&& next.verified == next.payload_lens.len()
        }),
{
    lemma_step_keeps_book_consistent(book, event);
}

/// The events of `passes` whole passes after the first over `n` payloads:
/// one for each compression and one for each decompression.
pub open spec fn later_events(passes: int, n: int) -> int {
    passes * (2 * n)
}

/// How the events of whole passes add up: each pass counts `2 * n`, no
/// pass counts nothing, and no count is negative.
pub proof fn lemma_later_events(passes: int, n: int)
    requires
        n >= 0,
    ensures
        later_events(passes + 1, n) == later_events(passes, n) + 2 * n,
        later_events(0, n) == 0,
        passes >= 0 ==> later_events(passes, n) >= 0,
{
    assert((passes + 1) * (2 * n) == passes * (2 * n) + 2 * n) by (nonlinear_arith);
    assert(passes >= 0 ==> passes * (2 * n) >= 0) by (nonlinear_arith)
        requires
            n >= 0,
    ;
}

/// The most events that a run can still take.
pub open spec fn events_left(book: RunModel) -> int {
    let n = book.payload_lens.len() as int;
    let later = later_events(book.iterations - book.pass - 1, n);
    let check = if book.pass == 0 {
        n
    } else {
        0
    };
    match book.phase {
        Phase::Compressing => later + (n - book.index) + n + check,
        Phase::Decompressing => later + (n - book.index) + check,
        Phase::Verifying => later + (n - book.index),
        Phase::Succeeded => 0,
        Phase::Failed => 0,
    }
}

/// Every event brings the run nearer to its end: a run of `iterations`
/// passes over `n` payloads takes `2 * n` events a pass and `n` more to
/// check the first.
pub proof fn lemma_run_ends(book: RunModel, event: PassEvent)
    requires
        book.wf(),
        book.spec_step(event) is Some,
    ensures
        ({
            let (next, _) = book.spec_step(event).unwrap();
            0 <= events_left(next) < events_left(book)
        }),
{
    let n = book.payload_lens.len() as int;
    let passes = book.iterations - book.pass - 1;
    lemma_later_events(passes, n);
    lemma_later_events(passes - 1, n);
}

/// A run that goes on takes one event for each call: as long as nothing
/// fails, every event leaves exactly one event less to come, and none is
/// left exactly when the run has succeeded.
pub proof fn lemma_each_event_counts(book: RunModel, event: PassEvent)
    requires
        book.wf(),
        book.spec_step(event) is Some,
        !(book.spec_step(event).unwrap().1 is Fail),
    ensures
        ({
            let (next, action) = book.spec_step(event).unwrap();
            &&& events_left(next) == events_left(book) - 1
            &&& events_left(next) == 0 <==> action is Succeed
        }),
{
    let n = book.payload_lens.len() as int;
    let passes = book.iterations - book.pass - 1;
    lemma_later_events(passes, n);
    lemma_later_events(passes - 1, n);
}

/// A run of `iterations` passes over `n` payloads opens with
/// `iterations * 2 * n + n` events to come: one for each compression and
/// each decompression of each pass, and one for each check of the first.
pub proof fn lemma_run_length(schema: ProtoSchema, payload_lens: Seq<usize>, iterations: usize)
    requires
        iterations > 0,
        0 < payload_lens.len() <= usize::MAX,
    ensures
        ({
            let (book, action) = spec_start(schema, payload_lens, iterations);
            &&& book.wf()
            &&& action == PassAction::Compress { index: 0 }
            &&& events_left(book) == iterations * (2 * payload_lens.len()) + payload_lens.len()
        }),
{
    let n = payload_lens.len() as int;
    lemma_later_events(iterations - 1, n);
    assert(later_events(iterations as int, n) == iterations * (2 * payload_lens.len()));
}

} // verus!
