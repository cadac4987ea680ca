//! Decode→present latency: every decoded frame queues its decode time, every
//! sink event (a present or a present-limiter drop) consumes one entry, and
//! the HUD reads the median of the recent decode→present deltas.
use std::collections::VecDeque;
use vstd::prelude::*;
use crate::order::{ascending, lemma_ascending, lower_median_index, median_of_deltas};
use crate::stall::sat_sub;

verus! {

/// Capacity of the decode-timestamp queue (about 4 s at 120 entries/s).
pub const DECODE_TIMESTAMP_QUEUE_MAX: usize = 512;
/// Oldest plausible decode→present latency (ms); older entries are stall
/// residue and never paired.
pub const DECODE_PRESENT_MAX_AGE_MS: u64 = 1_000;
/// Number of recent deltas the median is taken over.
pub const DECODE_PRESENT_MEDIAN_WINDOW: usize = 32;

/// The pairing queue and the latency window.
pub struct DecodePresentPairing {
    /// Decode finish times (ms) of frames not yet presented, oldest first.
    pub decode_timestamps: VecDeque<u64>,
    /// Recent decode→present deltas (ms), oldest first.
    pub deltas: VecDeque<u32>,
    /// Median of `deltas` (0 before the first present).
    pub median_ms: u32,
}

/// `q` without its leading entries older than the plausible latency at
/// `now_ms`.
pub open spec fn expire_stale(q: Seq<u64>, now_ms: u64) -> Seq<u64>
    decreases q.len(),
{
    if q.len() > 0 && sat_sub(now_ms, q[0]) > DECODE_PRESENT_MAX_AGE_MS {
        expire_stale(q.drop_first(), now_ms)
    } else {
        q
    }
}

/// The lower median of a non-empty window.
pub open spec fn window_median(w: Seq<u32>) -> u32 {
    ascending(w)[lower_median_index(w.len())]
}

/// The window after recording `delta`: appended, oldest dropped beyond the
/// window size.
pub open spec fn window_push(w: Seq<u32>, delta: u32) -> Seq<u32> {
    if w.len() + 1 > DECODE_PRESENT_MEDIAN_WINDOW { w.push(delta).drop_first() } else { w.push(delta) }
}

/// The window after recording the deltas `ds` in order.
pub open spec fn window_after(w: Seq<u32>, ds: Seq<u32>) -> Seq<u32>
    decreases ds.len(),
{
    if ds.len() == 0 {
        w
    } else {
        window_push(window_after(w, ds.drop_last()), ds.last())
    }
}

/// One push keeps the most recent deltas in arrival order: the new delta is
/// last, the window grows by one up to its capacity, and the deltas before
/// it are the newest of the old window, in order.
pub proof fn lemma_window_push_keeps_recent(w: Seq<u32>, d: u32)
    requires
        w.len() <= DECODE_PRESENT_MEDIAN_WINDOW,
    ensures
        window_push(w, d).len() == (if w.len() < DECODE_PRESENT_MEDIAN_WINDOW { w.len() + 1 } else { w.len() + 0 }),
        window_push(w, d)[window_push(w, d).len() - 1] == d,
        forall|i: int|
            0 <= i < window_push(w, d).len() - 1 ==> #[trigger] window_push(w, d)[i] == w[w.len() - (window_push(w, d).len()
                - 1) + i],
{
}

/// The window holds the latest deltas: after recording `ds` on a window
/// `w`, it is the last `min(n, DECODE_PRESENT_MEDIAN_WINDOW)` of the `n`
/// deltas of `w` followed by `ds`, in arrival order.
pub proof fn lemma_window_holds_latest(w: Seq<u32>, ds: Seq<u32>)
    requires
        w.len() <= DECODE_PRESENT_MEDIAN_WINDOW,
    ensures
        window_after(w, ds) == (w + ds).subrange(
            (w + ds).len() - (if (w + ds).len() < DECODE_PRESENT_MEDIAN_WINDOW {
                (w + ds).len() as int
            } else {
                DECODE_PRESENT_MEDIAN_WINDOW as int
            }),
            (w + ds).len() as int,
        ),
    decreases ds.len(),
{
    let all = w + ds;
    if ds.len() == 0 {
        assert(all =~= w);
        assert(all.subrange(0, all.len() as int) =~= all);
    } else {
        let prev = ds.drop_last();
        let x = ds.last();
        lemma_window_holds_latest(w, prev);
        let before = w + prev;
        assert(all =~= before.push(x));
        let wb = window_after(w, prev);
        if before.len() < DECODE_PRESENT_MEDIAN_WINDOW {
            assert(before.subrange(0, before.len() as int) =~= before);
            assert(wb.push(x) =~= all);
            if all.len() < DECODE_PRESENT_MEDIAN_WINDOW {
                assert(all.subrange(0, all.len() as int) =~= all);
            } else {
                assert(all.subrange(0, all.len() as int) =~= all);
            }
        } else {
            let lb = before.len() as int;
            let k = DECODE_PRESENT_MEDIAN_WINDOW as int;
            assert(wb =~= before.subrange(lb - k, lb));
            assert(wb.push(x).drop_first() =~= all.subrange(lb + 1 - k, lb + 1));
        }
    }
}

impl DecodePresentPairing {
    /// The queue and window stay bounded, every recorded delta is a
    /// plausible latency, and the median is that of the window (0 while the
    /// window is empty).
    pub open spec fn wf(&self) -> bool {
        &&& self.decode_timestamps@.len() <= DECODE_TIMESTAMP_QUEUE_MAX
        &&& self.deltas@.len() <= DECODE_PRESENT_MEDIAN_WINDOW
        &&& forall|i: int| 0 <= i < self.deltas@.len() ==> self.deltas@[i] <= DECODE_PRESENT_MAX_AGE_MS
        &&& self.deltas@.len() == 0 ==> self.median_ms == 0
        &&& self.deltas@.len() > 0 ==> self.median_ms == window_median(self.deltas@)
    }

    pub fn new() -> (p: Self)
        ensures
            p.wf(),
            p.decode_timestamps@.len() == 0,
            p.deltas@.len() == 0,
            p.median_ms == 0,
    {
        DecodePresentPairing { decode_timestamps: VecDeque::new(), deltas: VecDeque::new(), median_ms: 0 }
    }

    /// Queue the decode time of one decoded frame (the oldest entry is
    /// dropped once the queue is full).
    pub fn record_decoded(&mut self, now_ms: u64)
        requires
            old(self).wf(),
        ensures
            final(self).wf(),
            final(self).decode_timestamps@ == (if old(self).decode_timestamps@.len() + 1 > DECODE_TIMESTAMP_QUEUE_MAX {
                old(self).decode_timestamps@.push(now_ms).drop_first()
            } else {
                old(self).decode_timestamps@.push(now_ms)
            }),
            final(self).deltas@ == old(self).deltas@,
            final(self).median_ms == old(self).median_ms,
    {
        self.decode_timestamps.push_back(now_ms);
        if self.decode_timestamps.len() > DECODE_TIMESTAMP_QUEUE_MAX {
            let _ = self.decode_timestamps.pop_front();
        }
    }

    /// A present-limiter drop consumes the oldest pending entry, keeping the
    /// queue paired with the frames still to be presented.
    pub fn record_limiter_drop(&mut self)
        requires
            old(self).wf(),
        ensures
            final(self).wf(),
            final(self).decode_timestamps@ == (if old(self).decode_timestamps@.len() > 0 {
                old(self).decode_timestamps@.drop_first()
            } else {
                old(self).decode_timestamps@
            }),
            final(self).deltas@ == old(self).deltas@,
            final(self).median_ms == old(self).median_ms,
    {
        let _ = self.decode_timestamps.pop_front();
    }

    /// Drop every pending entry (the sink is stalled: those frames would
    /// report the stall as decode time).
    pub fn clear_timestamps(&mut self)
        requires
            old(self).wf(),
        ensures
            final(self).wf(),
            final(self).decode_timestamps@.len() == 0,
            final(self).deltas@ == old(self).deltas@,
            final(self).median_ms == old(self).median_ms,
    {
        self.decode_timestamps.clear();
    }

    /// Pair one present at `now_ms` with the oldest plausible pending decode
    /// time: stale entries are expired first, then the oldest remaining one
    /// is consumed and its delta enters the median window. With nothing
    /// pending the window and median are unchanged.
    pub fn record_present(&mut self, now_ms: u64)
        requires
            old(self).wf(),
        ensures
            final(self).wf(),
            ({
                let pending = expire_stale(old(self).decode_timestamps@, now_ms);
                if pending.len() > 0 {
                    let delta = sat_sub(now_ms, pending[0]) as u32;
                    &&& final(self).decode_timestamps@ == pending.drop_first()
                    &&& final(self).deltas@ == window_push(old(self).deltas@, delta)
                    &&& final(self).deltas@.len() == (if old(self).deltas@.len() < DECODE_PRESENT_MEDIAN_WINDOW {
                        old(self).deltas@.len() + 1
                    } else {
                        DECODE_PRESENT_MEDIAN_WINDOW as nat
                    })
                    &&& final(self).deltas@[final(self).deltas@.len() - 1] == delta
                    &&& forall|i: int|
                        0 <= i < final(self).deltas@.len() - 1 ==> #[trigger] final(self).deltas@[i] == old(self).deltas@[old(
                            self,
                        ).deltas@.len() - (final(self).deltas@.len() - 1) + i]
                    &&& final(self).median_ms == window_median(final(self).deltas@)
                } else {
                    &&& final(self).decode_timestamps@ == pending
                    &&& final(self).deltas@ == old(self).deltas@
                    &&& final(self).median_ms == old(self).median_ms
                }
            }),
    {
        let ghost q0 = self.decode_timestamps@;
        while self.decode_timestamps.len() > 0 && now_ms.saturating_sub(self.decode_timestamps[0]) > DECODE_PRESENT_MAX_AGE_MS
            invariant
                self.decode_timestamps@.len() <= DECODE_TIMESTAMP_QUEUE_MAX,
                expire_stale(q0, now_ms) == expire_stale(self.decode_timestamps@, now_ms),
                self.deltas == old(self).deltas,
                self.median_ms == old(self).median_ms,
            decreases self.decode_timestamps@.len(),
        {
            let _ = self.decode_timestamps.pop_front();
        }
        assert(expire_stale(self.decode_timestamps@, now_ms) == self.decode_timestamps@);
        if let Some(decoded_at_ms) = self.decode_timestamps.pop_front() {
            let delta = now_ms.saturating_sub(decoded_at_ms) as u32;
            self.deltas.push_back(delta);
            if self.deltas.len() > DECODE_PRESENT_MEDIAN_WINDOW {
                let _ = self.deltas.pop_front();
            }
            proof {
                assert forall|i: int| 0 <= i < self.deltas@.len() implies self.deltas@[i] <= DECODE_PRESENT_MAX_AGE_MS by {
                    if old(self).deltas@.len() + 1 > DECODE_PRESENT_MEDIAN_WINDOW {
                        assert(self.deltas@[i] == old(self).deltas@.push(delta)[i + 1]);
                    } else {
                        assert(self.deltas@[i] == old(self).deltas@.push(delta)[i]);
                    }
                }
            }
            self.median_ms = median_of_deltas(&self.deltas);
            proof {
                lemma_window_push_keeps_recent(old(self).deltas@, delta);
            }
        }
    }

    /// The median decode→present latency, `None` until the first present.
    pub fn median(&self) -> (m: Option<u32>)
        ensures
            m == (if self.median_ms > 0 { Some(self.median_ms) } else { None }),
    {
        if self.median_ms > 0 { Some(self.median_ms) } else { None }
    }
}


/// A value of the ascending order is a value of the window.
proof fn lemma_ascending_member(w: Seq<u32>, j: int)
    requires
        0 <= j < w.len(),
    ensures
        w.contains(ascending(w)[j]),
{
    broadcast use vstd::seq_lib::group_to_multiset_ensures;
    lemma_ascending(w);
    let t = ascending(w);
    assert(t.contains(t[j]));
    assert(t.to_multiset().count(t[j]) > 0);
}

/// The median of a window whose values are all at most `x` is at most `x`.
pub proof fn lemma_median_bounded(w: Seq<u32>, x: u32)
    requires
        w.len() > 0,
        forall|i: int| 0 <= i < w.len() ==> w[i] <= x,
    ensures
        window_median(w) <= x,
{
    lemma_ascending(w);
    lemma_ascending_member(w, lower_median_index(w.len()));
}

/// A single inflated delta cannot move the median: in a window of at least
/// two deltas where every delta but the one at `spike` is at most `x`, the
/// median is at most `x`.
pub proof fn lemma_median_ignores_single_spike(w: Seq<u32>, spike: int, x: u32)
    requires
        w.len() >= 2,
        0 <= spike < w.len(),
        forall|i: int| 0 <= i < w.len() && i != spike ==> w[i] <= x,
    ensures
        window_median(w) <= x,
{
    broadcast use vstd::seq_lib::group_to_multiset_ensures;
    broadcast use vstd::multiset::group_multiset_axioms;
    lemma_ascending(w);
    let t = ascending(w);
    let n = w.len();
    let k = lower_median_index(n);
    if t[k] > x {
        assert(crate::order::u32_leq()(t[k], t[k + 1]));
        assert(t[k] <= t[k + 1]);
        let a = t[k];
        let b = t[k + 1];
        lemma_ascending_member(w, k);
        lemma_ascending_member(w, k + 1);
        let ia = choose|i: int| 0 <= i < n && w[i] == a;
        let ib = choose|i: int| 0 <= i < n && w[i] == b;
        assert(ia == spike);
        assert(ib == spike);
        // Both ranks hold the spike's value, which then occurs twice in the
        // window, but only the spike's slot can hold it.
        let rest = w.remove(spike);
        assert forall|i: int| 0 <= i < rest.len() implies rest[i] <= x by {
            if i < spike {
                assert(rest[i] == w[i]);
            } else {
                assert(rest[i] == w[i + 1]);
            }
        }
        assert(!rest.contains(a));
        assert(rest.to_multiset().count(a) == 0);
        assert(w.to_multiset().count(a) == 1);
        let t_rest = t.remove(k);
        assert(t_rest[k] == b);
        assert(t_rest.contains(a));
        assert(t_rest.to_multiset().count(a) > 0);
        assert(t.to_multiset().count(a) >= 2);
    }
}

/// The median latency of a well-formed pairing is a plausible latency.
pub proof fn lemma_median_is_plausible(p: DecodePresentPairing)
    requires
        p.wf(),
    ensures
        p.median_ms <= DECODE_PRESENT_MAX_AGE_MS,
{
    if p.deltas@.len() > 0 {
        lemma_median_bounded(p.deltas@, DECODE_PRESENT_MAX_AGE_MS as u32);
    }
}

} // verus!
