//! Windowed moving average of per-callback latency measurements.

use vstd::prelude::*;

use core::sync::atomic::{AtomicU32, Ordering};
use std::sync::Arc;

use crate::fp;

verus! {

/// How many measurements the ring window holds.
pub const LATENCY_RECORD_NUM: usize = 64;

/// The recorder's state: the ring cells, the next write position, the running
/// sum (bits of a binary32 value) and whether the ring has wrapped at least
/// once.
pub struct RecorderView {
    pub records: Seq<u32>,
    pub head: int,
    pub sum: u32,
    pub full: bool,
}

/// The state of a recorder that has seen no measurement: 64 zeroed cells.
pub open spec fn fresh_recorder() -> RecorderView {
    RecorderView {
        records: Seq::new(LATENCY_RECORD_NUM as nat, |i: int| 0u32),
        head: 0,
        sum: 0u32,
        full: false,
    }
}

/// A recorder state is well formed when the ring has its fixed size and the
/// write position lies inside it.
pub open spec fn recorder_wf(m: RecorderView) -> bool {
    m.records.len() == LATENCY_RECORD_NUM && 0 <= m.head < LATENCY_RECORD_NUM
}

/// What one push does: the displaced cell leaves the running sum, the new
/// measurement enters it and overwrites the cell, and the write position
/// advances, wrapping and marking the ring full at the end.
pub open spec fn push_spec(m: RecorderView, record: u32) -> RecorderView {
    let sum = fp::add32(m.sum, fp::sub32(record, m.records[m.head]));
    let records = m.records.update(m.head, record);
    if m.head + 1 == LATENCY_RECORD_NUM {
        RecorderView { records, head: 0, sum, full: true }
    } else {
        RecorderView { records, head: m.head + 1, sum, full: m.full }
    }
}

/// How many measurements the published average divides by: the full window
/// once wrapped, otherwise the number of measurements seen (at least 1).
pub open spec fn recorder_divisor(m: RecorderView) -> int {
    if m.full {
        LATENCY_RECORD_NUM as int
    } else if m.head == 0 {
        1
    } else {
        m.head
    }
}

/// The value the recorder publishes after a push: the running sum divided by
/// the window size.
pub open spec fn published(m: RecorderView) -> u32 {
    fp::div32(m.sum, fp::of_uint32(recorder_divisor(m) as u64))
}

/// The recorder state after pushing every measurement of `xs` in order onto
/// a fresh recorder.
pub open spec fn recorder_after(xs: Seq<u32>) -> RecorderView
    decreases xs.len(),
{
    if xs.len() == 0 {
        fresh_recorder()
    } else {
        push_spec(recorder_after(xs.drop_last()), xs.last())
    }
}

/// What ring cell `i` holds after the pushes `xs`: the latest measurement
/// whose push number is congruent to `i`, or 0 when cell `i` was never
/// written.
pub open spec fn window_cell(xs: Seq<u32>, i: int) -> u32 {
    let k = xs.len() as int;
    let n = LATENCY_RECORD_NUM as int;
    if i < k % n {
        xs[k - k % n + i]
    } else if k - k % n + i - n >= 0 {
        xs[k - k % n + i - n]
    } else {
        0u32
    }
}

/// The ring window holds exactly the most recent measurements: after `k`
/// pushes the write position is `k` modulo 64, the ring is full once `k`
/// reaches 64, and each cell holds the latest measurement written to it
/// (so the window as a whole holds the last `min(k, 64)` measurements).
pub proof fn lemma_window_holds_recent(xs: Seq<u32>)
    ensures
        recorder_wf(recorder_after(xs)),
        recorder_after(xs).head == xs.len() as int % (LATENCY_RECORD_NUM as int),
        recorder_after(xs).full == (xs.len() >= LATENCY_RECORD_NUM),
        forall|i: int|
            0 <= i < LATENCY_RECORD_NUM as int ==> recorder_after(xs).records[i] == window_cell(
                xs,
                i,
            ),
    decreases xs.len(),
{
    let n = LATENCY_RECORD_NUM as int;
    if xs.len() == 0 {
    } else {
        let ys = xs.drop_last();
        lemma_window_holds_recent(ys);
        let k = ys.len() as int;
        let m = recorder_after(ys);
        assert(k % n == (k + 1) % n - 1 || (k % n == n - 1 && (k + 1) % n == 0))
            by (nonlinear_arith)
            requires n == 64, k >= 0;
        assert forall|i: int| 0 <= i < n implies recorder_after(xs).records[i] == window_cell(
            xs,
            i,
        ) by {
            assert(k - k % n >= 0 && (k + 1) - (k + 1) % n >= 0) by (nonlinear_arith)
                requires n == 64, k >= 0;
            if i == m.head {
                assert(recorder_after(xs).records[i] == xs.last());
                assert((k + 1) - (k + 1) % n + i == k || (k + 1) - (k + 1) % n + i - n == k)
                    by (nonlinear_arith)
                    requires n == 64, k >= 0, i == k % n;
            } else {
                assert(recorder_after(xs).records[i] == m.records[i]);
                assert(window_cell(xs, i) == window_cell(ys, i)) by {
                    if k % n == n - 1 {
                        assert((k + 1) % n == 0) by (nonlinear_arith)
                            requires n == 64, k >= 0, k % n == n - 1;
                    } else {
                        assert((k + 1) % n == k % n + 1) by (nonlinear_arith)
                            requires n == 64, k >= 0, k % n < n - 1;
                    }
                }
            }
        }
    }
}

/// A bounded ring window over the latest latency measurements, publishing
/// their average through a shared atomic as binary32 bits.
pub struct LatencyRecorder {
    records: Vec<u32>,
    head: usize,
    sum: u32,
    full: bool,
    result: Arc<AtomicU32>,
}

impl View for LatencyRecorder {
    type V = RecorderView;

    closed spec fn view(&self) -> RecorderView {
        RecorderView {
            records: self.records@,
            head: self.head as int,
            sum: self.sum,
            full: self.full,
        }
    }
}

impl LatencyRecorder {
    /// A fresh recorder that will publish its averages into `result`.
    pub fn new(result: Arc<AtomicU32>) -> (r: Self)
        ensures
            r@ == fresh_recorder(),
            recorder_wf(r@),
    {
        let mut records: Vec<u32> = Vec::new();
        while records.len() < LATENCY_RECORD_NUM
            invariant
                records@ =~= Seq::new(records.len() as nat, |i: int| 0u32),
                records.len() <= LATENCY_RECORD_NUM,
            decreases LATENCY_RECORD_NUM - records.len(),
        {
            records.push(0u32);
        }
        proof {
            assert(records@ =~= fresh_recorder().records);
        }
        LatencyRecorder { records, head: 0, sum: 0, full: false, result }
    }

    /// Records one measurement: displaces the oldest cell from the running
    /// sum, stores the measurement, advances the window, and publishes the
    /// new average (the sum divided by the window size) into the shared
    /// atomic with sequentially consistent ordering.
    pub fn push(&mut self, record: u32)
        requires
            recorder_wf(old(self)@),
        ensures
            recorder_wf(final(self)@),
            final(self)@ == push_spec(old(self)@, record),
    {
        let displaced = self.records[self.head];
        self.sum = fp::f32_add(self.sum, fp::f32_sub(record, displaced));
        self.records.set(self.head, record);
        self.head = self.head + 1;
        if self.head == LATENCY_RECORD_NUM {
            self.full = true;
            self.head = 0;
        }
        let divisor: usize = if self.full {
            LATENCY_RECORD_NUM
        } else if self.head == 0 {
            1
        } else {
            self.head
        };
        let avg = fp::f32_div(self.sum, fp::f32_of_uint(divisor as u64));
        proof {
            assert(avg == published(self@));
        }
        self.result.store(avg, Ordering::SeqCst);
    }
}

} // verus!
