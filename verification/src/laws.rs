//! The engine's guarantees over whole runs of writes, stated and proved over
//! the same spec functions the engine's contracts use.
//!
//! A size-mode write step is modelled by `spec_size_step`: the engine's
//! `should_rollover` decides by `size >= threshold`, `commit_rotation` then
//! takes the suffix up by one and zeroes the counter, and `record_write`
//! adds the write's length — exactly the two branches of the step function.

use vstd::prelude::*;
use crate::config::{Rotation, RotationAge};
use crate::engine::LogRoller;
use crate::paths::{
    counted_suffix, lemma_dec_val_nonneg, pad2, pad4, spec_join, spec_max_suffix, spec_suffix_num,
    spec_timestamp, spec_ts_name,
};
use crate::time::{lemma_next_time_advances, spec_next_time, DateTime};

verus! {

/// Size-mode bookkeeping as pure mathematics: the byte counter of the active
/// segment and the suffix the next closed segment will receive.
pub struct SizeRunState {
    pub size: int,
    pub index: int,
}

/// One write against the size-mode engine: rotation happens first exactly
/// when the bytes already accumulated reach the threshold, then the write
/// lands in the (possibly fresh) segment.
pub open spec fn spec_size_step(st: SizeRunState, threshold: int, len: int) -> SizeRunState {
    if st.size >= threshold {
        SizeRunState { size: len, index: st.index + 1 }
    } else {
        SizeRunState { size: st.size + len, index: st.index }
    }
}

/// A whole run of writes, first to last.
pub open spec fn spec_size_run(st: SizeRunState, threshold: int, writes: Seq<u64>) -> SizeRunState
    decreases writes.len(),
{
    if writes.len() == 0 {
        st
    } else {
        spec_size_step(
            spec_size_run(st, threshold, writes.drop_last()),
            threshold,
            writes.last() as int,
        )
    }
}

/// Total bytes of a run of writes.
pub open spec fn spec_sum(writes: Seq<u64>) -> int
    decreases writes.len(),
{
    if writes.len() == 0 {
        0
    } else {
        spec_sum(writes.drop_last()) + writes.last()
    }
}

/// A prefix of a run never holds more bytes than the whole run.
pub proof fn lemma_sum_prefix_le(writes: Seq<u64>, n: int)
    requires
        0 <= n <= writes.len(),
    ensures
        spec_sum(writes.take(n)) <= spec_sum(writes),
    decreases writes.len(),
{
    if n == writes.len() {
        assert(writes.take(n) =~= writes);
    } else {
        assert(writes.take(n) =~= writes.drop_last().take(n));
        lemma_sum_prefix_le(writes.drop_last(), n);
    }
}

/// While every cumulative prefix stays below the threshold, no write
/// rotates: the suffix never moves and the counter tracks the exact sum.
pub proof fn lemma_run_without_rotation(st0: SizeRunState, threshold: int, writes: Seq<u64>)
    requires
        st0.size == 0,
        forall|j: int| 0 <= j < writes.len() ==> spec_sum(#[trigger] writes.take(j)) < threshold,
    ensures
        spec_size_run(st0, threshold, writes).index == st0.index,
        spec_size_run(st0, threshold, writes).size == spec_sum(writes),
    decreases writes.len(),
{
    if writes.len() > 0 {
        assert forall|j: int| 0 <= j < writes.len() - 1 implies spec_sum(
            #[trigger] writes.drop_last().take(j),
        ) < threshold by {
            assert(writes.drop_last().take(j) =~= writes.take(j));
        }
        lemma_run_without_rotation(st0, threshold, writes.drop_last());
        assert(writes.take(writes.len() - 1) =~= writes.drop_last());
    }
}

/// Any sequence of writes whose total stays below the threshold leaves the
/// roller on its initial segment, holding exactly the sum of the lengths:
/// one segment file, no rotation.
pub proof fn lemma_single_segment_below_threshold(
    st0: SizeRunState,
    threshold: int,
    writes: Seq<u64>,
)
    requires
        st0.size == 0,
        spec_sum(writes) < threshold,
    ensures
        spec_size_run(st0, threshold, writes).index == st0.index,
        spec_size_run(st0, threshold, writes).size == spec_sum(writes),
{
    assert forall|j: int| 0 <= j < writes.len() implies spec_sum(#[trigger] writes.take(j))
        < threshold by {
        lemma_sum_prefix_le(writes, j);
    }
    lemma_run_without_rotation(st0, threshold, writes);
}

/// The first write that takes the cumulative size to the threshold (judged
/// on the bytes accumulated before it) still lands in the old segment; the
/// write after it triggers exactly one rotation, and the fresh segment then
/// holds exactly that following write.
pub proof fn lemma_threshold_crossing_rotates_next_write(
    st0: SizeRunState,
    threshold: int,
    writes: Seq<u64>,
    c: int,
)
    requires
        st0.size == 0,
        0 <= c < writes.len(),
        spec_sum(writes.take(c + 1)) >= threshold,
        forall|j: int| 0 <= j <= c ==> spec_sum(#[trigger] writes.take(j)) < threshold,
    ensures
        spec_size_run(st0, threshold, writes.take(c + 1)).index == st0.index,
        spec_size_run(st0, threshold, writes.take(c + 1)).size == spec_sum(writes.take(c + 1)),
        c + 1 < writes.len() ==> spec_size_run(st0, threshold, writes.take(c + 2))
            == (SizeRunState { size: writes[c + 1] as int, index: st0.index + 1 }),
{
    let upto = writes.take(c + 1);
    assert forall|j: int| 0 <= j < upto.len() implies spec_sum(#[trigger] upto.take(j))
        < threshold by {
        assert(upto.take(j) =~= writes.take(j));
    }
    lemma_run_without_rotation(st0, threshold, upto);
    if c + 1 < writes.len() {
        assert(writes.take(c + 2).drop_last() =~= upto);
        assert(writes.take(c + 2).last() == writes[c + 1]);
    }
}

/// The suffix counter never goes backwards over any run.
pub proof fn lemma_suffix_monotone(st0: SizeRunState, threshold: int, writes: Seq<u64>)
    ensures
        spec_size_run(st0, threshold, writes).index >= st0.index,
    decreases writes.len(),
{
    if writes.len() > 0 {
        lemma_suffix_monotone(st0, threshold, writes.drop_last());
    }
}

/// Startup recovery resumes strictly above every suffix present in the
/// directory: a suffix once assigned is never reused, even across a restart
/// and even when manual deletion left gaps.
pub proof fn lemma_no_suffix_reuse_after_restart(
    entries: Seq<Vec<u8>>,
    filename: Seq<u8>,
    i: int,
    v: int,
)
    requires
        0 <= i < entries.len(),
        spec_suffix_num(entries[i]@, filename) == Some(v),
        v <= usize::MAX,
    ensures
        spec_max_suffix(entries, filename) + 1 > v,
    decreases entries.len(),
{
    if i == entries.len() - 1 {
        lemma_dec_val_nonneg(entries[i]@.skip(filename.len() as int + 1));
        assert(counted_suffix(entries.last()@, filename) == v);
    } else {
        assert(entries.drop_last()[i] == entries[i]);
        lemma_no_suffix_reuse_after_restart(entries.drop_last(), filename, i, v);
    }
}

/// Age mode at a boundary: a write strictly before the deadline appends to
/// the current segment (no rotation); a write at or past it rotates to the
/// segment named after the deadline, and the recomputed deadline lies
/// strictly after `now` — the engine only ever moves to later deadlines.
pub proof fn lemma_age_boundary(roller: LogRoller, now: DateTime, ra: RotationAge)
    requires
        roller.wf(),
        roller.meta.rotation == Rotation::AgeBased(ra),
        now.dt_ok(),
        now.year <= 9998,
    ensures
        now.stamp() < roller.state.next_age_based_time.stamp()
            ==> roller.spec_should_rollover(now) is None,
        roller.state.next_age_based_time.stamp() <= now.stamp()
            ==> roller.spec_should_rollover(now) == Some(
            spec_join(
                roller.meta.directory@,
                spec_ts_name(roller.meta.filename@, roller.state.next_age_based_time, ra),
            ),
        ) && now.stamp() < spec_next_time(now, ra).stamp(),
{
    lemma_next_time_advances(now, ra);
}

/// Two-digit rendering is injective on `0..=99`.
pub proof fn lemma_pad2_injective(x: int, y: int)
    requires
        0 <= x <= 99,
        0 <= y <= 99,
        pad2(x) == pad2(y),
    ensures
        x == y,
{
    assert(pad2(x)[0] == pad2(y)[0]);
    assert(pad2(x)[1] == pad2(y)[1]);
}

/// Four-digit rendering is injective on `0..=9999`.
pub proof fn lemma_pad4_injective(x: int, y: int)
    requires
        0 <= x <= 9999,
        0 <= y <= 9999,
        pad4(x) == pad4(y),
    ensures
        x == y,
{
    assert(pad4(x)[0] == pad4(y)[0]);
    assert(pad4(x)[1] == pad4(y)[1]);
    assert(pad4(x)[2] == pad4(y)[2]);
    assert(pad4(x)[3] == pad4(y)[3]);
}

/// Segment timestamps are injective on the fields the granularity formats:
/// two instants with the same formatted name agree on those fields, so
/// distinct boundaries always yield distinct segment names and a closed
/// age-based segment is never reopened.
pub proof fn lemma_timestamp_injective(a: DateTime, b: DateTime, ra: RotationAge)
    requires
        a.dt_ok(),
        b.dt_ok(),
        spec_timestamp(a, ra) == spec_timestamp(b, ra),
    ensures
        a.year == b.year,
        a.month == b.month,
        a.day == b.day,
        ra != RotationAge::Daily ==> a.hour == b.hour,
        ra == RotationAge::Minutely ==> a.minute == b.minute,
{
    let sa = spec_timestamp(a, ra);
    let sb = spec_timestamp(b, ra);
    assert(pad4(a.year as int) =~= sa.subrange(0, 4));
    assert(pad4(b.year as int) =~= sb.subrange(0, 4));
    lemma_pad4_injective(a.year as int, b.year as int);
    assert(pad2(a.month as int) =~= sa.subrange(5, 7));
    assert(pad2(b.month as int) =~= sb.subrange(5, 7));
    lemma_pad2_injective(a.month as int, b.month as int);
    assert(pad2(a.day as int) =~= sa.subrange(8, 10));
    assert(pad2(b.day as int) =~= sb.subrange(8, 10));
    lemma_pad2_injective(a.day as int, b.day as int);
    if ra != RotationAge::Daily {
        assert(pad2(a.hour as int) =~= sa.subrange(11, 13));
        assert(pad2(b.hour as int) =~= sb.subrange(11, 13));
        lemma_pad2_injective(a.hour as int, b.hour as int);
    }
    if ra == RotationAge::Minutely {
        assert(pad2(a.minute as int) =~= sa.subrange(14, 16));
        assert(pad2(b.minute as int) =~= sb.subrange(14, 16));
        lemma_pad2_injective(a.minute as int, b.minute as int);
    }
}

} // verus!
