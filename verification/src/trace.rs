//! The ghost call trace: a record of every runtime call the loop issues,
//! together with whether the session counted as running at that moment.
//! The protocol the loop owes its runtime — gating while stopped,
//! acquire/release alternation, strict frame pacing, the warm-up bound on
//! renders — is stated here as an invariant over that trace and proved as
//! laws about it.

use vstd::prelude::*;
use vstd::assert_by_contradiction;

verus! {

/// The kind of one issued runtime call.
#[derive(Clone, Copy, Debug, PartialEq, Eq, Structural)]
pub enum CallKind {
    Poll,
    BeginSession,
    Sleep,
    WaitFrame,
    BeginFrame,
    Acquire,
    WaitImage,
    Render,
    Release,
    Locate,
    EndFrame,
    Abort,
}

/// One entry of the call trace.
#[derive(Clone, Copy, Debug, PartialEq, Eq, Structural)]
pub struct TraceEntry {
    pub call: CallKind,
    /// Whether the session counted as running when the call was issued.
    pub running: bool,
}

/// How many calls of kind `k` the trace holds.
pub open spec fn count_calls(t: Seq<TraceEntry>, k: CallKind) -> nat
    decreases t.len(),
{
    if t.len() == 0 {
        0
    } else {
        count_calls(t.drop_last(), k) + (if t.last().call == k {
            1nat
        } else {
            0nat
        })
    }
}

/// The conditions every issued call must meet, judged against the prefix of
/// calls issued before it:
/// - frame-wait, acquire and composition-submit are issued only while running;
/// - an acquire is issued only when every earlier acquire has been released;
/// - a release is issued only against exactly one outstanding acquire;
/// - an acquire or render is issued only while fewer than `warmup` renders
///   have been issued;
/// - a render is issued only against exactly one outstanding acquire;
/// - frame pacing is strict: a frame-wait only once every paced frame has
///   begun and ended, a begin-frame only against exactly one outstanding
///   frame-wait, an end-frame only against exactly one outstanding
///   begin-frame.
pub open spec fn entry_ok(prefix: Seq<TraceEntry>, e: TraceEntry, warmup: u32) -> bool {
    &&& (e.call == CallKind::WaitFrame ==> e.running)
    &&& (e.call == CallKind::Acquire ==> e.running)
    &&& (e.call == CallKind::EndFrame ==> e.running)
    &&& (e.call == CallKind::Acquire ==> count_calls(prefix, CallKind::Acquire) == count_calls(
        prefix,
        CallKind::Release,
    ))
    &&& (e.call == CallKind::Release ==> count_calls(prefix, CallKind::Acquire) == count_calls(
        prefix,
        CallKind::Release,
    ) + 1)
    &&& (e.call == CallKind::Acquire ==> count_calls(prefix, CallKind::Render) < warmup)
    &&& (e.call == CallKind::Render ==> count_calls(prefix, CallKind::Render) < warmup)
    &&& (e.call == CallKind::Render ==> count_calls(prefix, CallKind::Acquire) == count_calls(
        prefix,
        CallKind::Release,
    ) + 1)
    &&& (e.call == CallKind::WaitFrame ==> count_calls(prefix, CallKind::WaitFrame)
        == count_calls(prefix, CallKind::BeginFrame) && count_calls(prefix, CallKind::BeginFrame)
        == count_calls(prefix, CallKind::EndFrame))
    &&& (e.call == CallKind::BeginFrame ==> count_calls(prefix, CallKind::WaitFrame)
        == count_calls(prefix, CallKind::BeginFrame) + 1)
    &&& (e.call == CallKind::EndFrame ==> count_calls(prefix, CallKind::WaitFrame) == count_calls(
        prefix,
        CallKind::EndFrame,
    ) + 1 && count_calls(prefix, CallKind::BeginFrame) == count_calls(
        prefix,
        CallKind::EndFrame,
    ) + 1)
}

/// The trace invariant: every entry meets `entry_ok` against the calls
/// issued before it.
pub open spec fn trace_ok(t: Seq<TraceEntry>, warmup: u32) -> bool {
    forall|i: int| 0 <= i < t.len() ==> #[trigger] entry_ok(t.take(i), t[i], warmup)
}

/// Appending one call keeps the count of every kind, plus one for the kind
/// appended.
pub proof fn lemma_count_push(t: Seq<TraceEntry>, e: TraceEntry, k: CallKind)
    ensures
        count_calls(t.push(e), k) == count_calls(t, k) + (if e.call == k {
            1int
        } else {
            0int
        }),
{
    assert(t.push(e).drop_last() =~= t);
    assert(t.push(e).last() == e);
}

/// A well-formed trace stays well formed when a call meeting `entry_ok`
/// against it is appended.
pub proof fn lemma_trace_ok_push(t: Seq<TraceEntry>, e: TraceEntry, warmup: u32)
    requires
        trace_ok(t, warmup),
        entry_ok(t, e, warmup),
    ensures
        trace_ok(t.push(e), warmup),
{
    let t2 = t.push(e);
    assert forall|i: int| 0 <= i < t2.len() implies #[trigger] entry_ok(
        t2.take(i),
        t2[i],
        warmup,
    ) by {
        if i < t.len() {
            assert(t2.take(i) =~= t.take(i));
            assert(t2[i] == t[i]);
            assert(entry_ok(t.take(i), t[i], warmup));
        } else {
            assert(i == t.len());
            assert(t2.take(i) =~= t);
            assert(t2[i] == e);
        }
    }
}

/// Counts of prefixes grow by at most the entry at each position.
proof fn lemma_count_take_succ(t: Seq<TraceEntry>, k: CallKind, i: int)
    requires
        0 <= i < t.len(),
    ensures
        count_calls(t.take(i + 1), k) == count_calls(t.take(i), k) + (if t[i].call == k {
            1int
        } else {
            0int
        }),
{
    assert(t.take(i + 1).drop_last() =~= t.take(i));
    assert(t.take(i + 1).last() == t[i]);
}

/// Counts of prefixes are monotone in the prefix length.
proof fn lemma_count_take_monotone(t: Seq<TraceEntry>, k: CallKind, a: int, b: int)
    requires
        0 <= a <= b <= t.len(),
    ensures
        count_calls(t.take(a), k) <= count_calls(t.take(b), k),
    decreases b - a,
{
    if a < b {
        lemma_count_take_succ(t, k, b - 1);
        lemma_count_take_monotone(t, k, a, b - 1);
    }
}

/// Over a stretch with no call of kind `k`, the prefix count of `k` is
/// constant.
proof fn lemma_count_constant(t: Seq<TraceEntry>, k: CallKind, a: int, b: int)
    requires
        0 <= a <= b <= t.len(),
        forall|m: int| a <= m < b ==> (#[trigger] t[m]).call != k,
    ensures
        count_calls(t.take(a), k) == count_calls(t.take(b), k),
    decreases b - a,
{
    if a < b {
        lemma_count_take_succ(t, k, b - 1);
        lemma_count_constant(t, k, a, b - 1);
    }
}

/// Law: while the session is not running, no frame-wait, acquire, or
/// composition-submit call is issued — every such entry of a well-formed
/// trace was issued while running.
pub proof fn lemma_running_gates_calls(t: Seq<TraceEntry>, warmup: u32, i: int)
    requires
        trace_ok(t, warmup),
        0 <= i < t.len(),
        t[i].call == CallKind::WaitFrame || t[i].call == CallKind::Acquire || t[i].call
            == CallKind::EndFrame,
    ensures
        t[i].running,
{
    assert(entry_ok(t.take(i), t[i], warmup));
}

/// Between two consecutive openers stands exactly one closer, whenever the
/// trace keeps the pair balanced: the counts agree before every opener, and
/// every closer answers exactly one outstanding opener.
proof fn lemma_opener_closer_alternation(t: Seq<TraceEntry>, o: CallKind, c: CallKind, i: int, j:
    int)
    requires
        o != c,
        forall|m: int|
            0 <= m < t.len() && (#[trigger] t[m]).call == o ==> count_calls(t.take(m), o)
                == count_calls(t.take(m), c),
        forall|m: int|
            0 <= m < t.len() && (#[trigger] t[m]).call == c ==> count_calls(t.take(m), o)
                == count_calls(t.take(m), c) + 1,
        0 <= i < j < t.len(),
        t[i].call == o,
        t[j].call == o,
        forall|m: int| i < m < j ==> (#[trigger] t[m]).call != o,
    ensures
        exists|k: int| i < k < j && (#[trigger] t[k]).call == c,
        forall|k1: int, k2: int|
            i < k1 < j && i < k2 < j && (#[trigger] t[k1]).call == c && (#[trigger] t[k2]).call
                == c ==> k1 == k2,
{
    // Balanced at both openers: the closer count between them is exactly
    // the opener count between them, which is one (the opener at `i`).
    lemma_count_take_succ(t, o, i);
    lemma_count_take_succ(t, c, i);
    lemma_count_constant(t, o, i + 1, j);
    assert(count_calls(t.take(j), c) == count_calls(t.take(i), c) + 1);
    // Existence: were there no closer in between, the closer count would be
    // constant from i + 1 to j.
    assert_by_contradiction!(
        exists|k: int| i < k < j && (#[trigger] t[k]).call == c,
        {
            assert(forall|m: int| i + 1 <= m < j ==> (#[trigger] t[m]).call != c);
            lemma_count_constant(t, c, i + 1, j);
        }
    );
    // Uniqueness: two distinct closers in between would raise the closer
    // count by at least two.
    assert forall|k1: int, k2: int|
        i < k1 < j && i < k2 < j && (#[trigger] t[k1]).call == c && (#[trigger] t[k2]).call
            == c implies k1 == k2 by {
        if k1 != k2 {
            let lo = if k1 < k2 {
                k1
            } else {
                k2
            };
            let hi = if k1 < k2 {
                k2
            } else {
                k1
            };
            lemma_count_take_succ(t, c, lo);
            lemma_count_take_succ(t, c, hi);
            lemma_count_take_monotone(t, c, i + 1, lo);
            lemma_count_take_monotone(t, c, lo + 1, hi);
            lemma_count_take_monotone(t, c, hi + 1, j);
        }
    }
}

/// Law: for every acquire, exactly one release stands between it and the
/// next acquire — so every successful acquire is released exactly once
/// before the image is acquired again.
pub proof fn lemma_acquire_release_pairing(t: Seq<TraceEntry>, warmup: u32, i: int, j: int)
    requires
        trace_ok(t, warmup),
        0 <= i < j < t.len(),
        t[i].call == CallKind::Acquire,
        t[j].call == CallKind::Acquire,
        forall|m: int| i < m < j ==> (#[trigger] t[m]).call != CallKind::Acquire,
    ensures
        exists|k: int| i < k < j && (#[trigger] t[k]).call == CallKind::Release,
        forall|k1: int, k2: int|
            i < k1 < j && i < k2 < j && (#[trigger] t[k1]).call == CallKind::Release && (
            #[trigger] t[k2]).call == CallKind::Release ==> k1 == k2,
{
    assert forall|m: int|
        0 <= m < t.len() && (#[trigger] t[m]).call == CallKind::Acquire implies count_calls(
        t.take(m),
        CallKind::Acquire,
    ) == count_calls(t.take(m), CallKind::Release) by {
        assert(entry_ok(t.take(m), t[m], warmup));
    }
    assert forall|m: int|
        0 <= m < t.len() && (#[trigger] t[m]).call == CallKind::Release implies count_calls(
        t.take(m),
        CallKind::Acquire,
    ) == count_calls(t.take(m), CallKind::Release) + 1 by {
        assert(entry_ok(t.take(m), t[m], warmup));
    }
    lemma_opener_closer_alternation(t, CallKind::Acquire, CallKind::Release, i, j);
}

/// Law: frame pacing is strict: between two consecutive frame-waits stands
/// exactly one begin-frame and exactly one end-frame — wait, begin, work,
/// end, with begin and end never skipped or reordered.
pub proof fn lemma_frame_pacing(t: Seq<TraceEntry>, warmup: u32, i: int, j: int)
    requires
        trace_ok(t, warmup),
        0 <= i < j < t.len(),
        t[i].call == CallKind::WaitFrame,
        t[j].call == CallKind::WaitFrame,
        forall|m: int| i < m < j ==> (#[trigger] t[m]).call != CallKind::WaitFrame,
    ensures
        exists|k: int| i < k < j && (#[trigger] t[k]).call == CallKind::BeginFrame,
        forall|k1: int, k2: int|
            i < k1 < j && i < k2 < j && (#[trigger] t[k1]).call == CallKind::BeginFrame && (
            #[trigger] t[k2]).call == CallKind::BeginFrame ==> k1 == k2,
        exists|k: int| i < k < j && (#[trigger] t[k]).call == CallKind::EndFrame,
        forall|k1: int, k2: int|
            i < k1 < j && i < k2 < j && (#[trigger] t[k1]).call == CallKind::EndFrame && (
            #[trigger] t[k2]).call == CallKind::EndFrame ==> k1 == k2,
{
    assert forall|m: int|
        0 <= m < t.len() && (#[trigger] t[m]).call == CallKind::WaitFrame implies count_calls(
        t.take(m),
        CallKind::WaitFrame,
    ) == count_calls(t.take(m), CallKind::BeginFrame) && count_calls(t.take(m), CallKind::WaitFrame)
        == count_calls(t.take(m), CallKind::EndFrame) by {
        assert(entry_ok(t.take(m), t[m], warmup));
    }
    assert forall|m: int|
        0 <= m < t.len() && (#[trigger] t[m]).call == CallKind::BeginFrame implies count_calls(
        t.take(m),
        CallKind::WaitFrame,
    ) == count_calls(t.take(m), CallKind::BeginFrame) + 1 by {
        assert(entry_ok(t.take(m), t[m], warmup));
    }
    assert forall|m: int|
        0 <= m < t.len() && (#[trigger] t[m]).call == CallKind::EndFrame implies count_calls(
        t.take(m),
        CallKind::WaitFrame,
    ) == count_calls(t.take(m), CallKind::EndFrame) + 1 by {
        assert(entry_ok(t.take(m), t[m], warmup));
    }
    lemma_opener_closer_alternation(t, CallKind::WaitFrame, CallKind::BeginFrame, i, j);
    lemma_opener_closer_alternation(t, CallKind::WaitFrame, CallKind::EndFrame, i, j);
}

/// A well-formed trace stays well formed when its last call is dropped.
proof fn lemma_trace_ok_drop_last(t: Seq<TraceEntry>, warmup: u32)
    requires
        trace_ok(t, warmup),
        t.len() > 0,
    ensures
        trace_ok(t.drop_last(), warmup),
{
    let d = t.drop_last();
    assert forall|i: int| 0 <= i < d.len() implies #[trigger] entry_ok(
        d.take(i),
        d[i],
        warmup,
    ) by {
        assert(d.take(i) =~= t.take(i));
        assert(d[i] == t[i]);
        assert(entry_ok(t.take(i), t[i], warmup));
    }
}

/// Law: a well-formed trace never holds more than `warmup` render calls —
/// content is produced for at most the configured number of frames.
pub proof fn lemma_warmup_render_bound(t: Seq<TraceEntry>, warmup: u32)
    requires
        trace_ok(t, warmup),
    ensures
        count_calls(t, CallKind::Render) <= warmup,
    decreases t.len(),
{
    if t.len() > 0 {
        lemma_trace_ok_drop_last(t, warmup);
        lemma_warmup_render_bound(t.drop_last(), warmup);
        if t.last().call == CallKind::Render {
            let i = t.len() - 1;
            assert(entry_ok(t.take(i), t[i], warmup));
            assert(t.take(i) =~= t.drop_last());
        }
    }
}

/// Law: a render is only issued while its image is held: when each render
/// is issued, exactly one acquire is outstanding.
pub proof fn lemma_render_requires_acquire(t: Seq<TraceEntry>, warmup: u32, i: int)
    requires
        trace_ok(t, warmup),
        0 <= i < t.len(),
        t[i].call == CallKind::Render,
    ensures
        count_calls(t.take(i), CallKind::Acquire) == count_calls(t.take(i), CallKind::Release) + 1,
{
    assert(entry_ok(t.take(i), t[i], warmup));
}

/// Law: once `warmup` renders have been issued, no later call acquires an
/// image — every acquire in a well-formed trace stands before the warm-up
/// bound is reached.
pub proof fn lemma_no_acquire_past_warmup(t: Seq<TraceEntry>, warmup: u32, i: int)
    requires
        trace_ok(t, warmup),
        0 <= i < t.len(),
        t[i].call == CallKind::Acquire,
    ensures
        count_calls(t.take(i), CallKind::Render) < warmup,
{
    assert(entry_ok(t.take(i), t[i], warmup));
}

} // verus!
