//! The timing probe on the raw capture path.
//!
//! Invoked once per produced video frame, it computes the wall-clock
//! inter-arrival interval, numbers the frame, and classifies the frame as
//! on-time or late against a fixed real-time budget. It is purely
//! observational: it never mutates or drops the frame it reports on.

use vstd::prelude::*;

verus! {

/// Whether a frame's production interval stayed inside the real-time budget.
#[derive(Clone, Copy, PartialEq, Eq, Structural, Debug)]
pub enum FrameClass {
    OnTime,
    Late,
}

/// The classification rule: an interval is late exactly when it exceeds the
/// budget; the boundary `delta == budget` is on time (inclusive bound).
pub open spec fn classify_spec(delta: u64, budget: u64) -> FrameClass {
    if delta > budget {
        FrameClass::Late
    } else {
        FrameClass::OnTime
    }
}

/// Classifies one inter-arrival interval against the real-time budget.
pub fn classify(delta: u64, budget: u64) -> (c: FrameClass)
    ensures
        c == classify_spec(delta, budget),
{
    if delta > budget {
        FrameClass::Late
    } else {
        FrameClass::OnTime
    }
}

/// What the probe reports for one observed frame.
#[derive(Clone, Copy, PartialEq, Eq, Structural, Debug)]
pub struct ProbeReport {
    /// The frame's number in arrival order, starting at 0.
    pub frame_index: u64,
    /// Wall-clock interval since the previous observation, in microseconds.
    pub delta: u64,
    /// On-time or late, per `classify_spec`.
    pub class: FrameClass,
}

/// Rolling state of the timing probe: the wall-clock instant of the last
/// observation and a monotonically increasing frame counter. Owned and
/// mutated by a single execution context; the ghost `issued` sequence
/// records every frame index ever handed out, in order.
pub struct FrameStats {
    pub last_observed_time: u64,
    pub frame_index: u64,
    pub issued: Ghost<Seq<u64>>,
}

impl FrameStats {
    /// The issued-index ledger matches the counter: indices 0, 1, ...,
    /// `frame_index - 1` have been handed out, each exactly once.
    pub open spec fn wf(self) -> bool {
        &&& self.issued@.len() == self.frame_index
        &&& forall|i: int| 0 <= i < self.issued@.len() ==> self.issued@[i] == i
    }

    /// A fresh probe that has observed nothing yet.
    pub fn new(start: u64) -> (r: FrameStats)
        ensures
            r.wf(),
            r.last_observed_time == start,
            r.frame_index == 0,
            r.issued@ == Seq::<u64>::empty(),
    {
        FrameStats { last_observed_time: start, frame_index: 0, issued: Ghost(Seq::empty()) }
    }

    /// Observes one frame arriving at wall-clock instant `now` and reports
    /// its number, its inter-arrival interval and its classification.
    ///
    /// The frame index increases by exactly 1 per invocation and is never
    /// reused: the reported index is absent from the ledger of all earlier
    /// reports.
    pub fn observe(&mut self, now: u64, budget: u64) -> (r: ProbeReport)
        requires
            old(self).wf(),
            now >= old(self).last_observed_time,
            old(self).frame_index < u64::MAX,
        ensures
            final(self).wf(),
            r.frame_index == old(self).frame_index,
            final(self).frame_index == old(self).frame_index + 1,
            final(self).last_observed_time == now,
            r.delta == now - old(self).last_observed_time,
            r.class == classify_spec(r.delta, budget),
            final(self).issued@ == old(self).issued@.push(r.frame_index),
            forall|i: int|
                0 <= i < old(self).issued@.len() ==> old(self).issued@[i] != r.frame_index,
    {
        let delta = now - self.last_observed_time;
        let report = ProbeReport {
            frame_index: self.frame_index,
            delta,
            class: classify(delta, budget),
        };
        self.last_observed_time = now;
        self.frame_index = self.frame_index + 1;
        proof {
            self.issued@ = self.issued@.push(report.frame_index);
        }
        report
    }
}

/// Frame numbers are never reused: any two distinct entries of the
/// issued-index ledger differ.
pub proof fn lemma_issued_indices_unique(s: FrameStats, i: int, j: int)
    requires
        s.wf(),
        0 <= i < s.issued@.len(),
        0 <= j < s.issued@.len(),
        i != j,
    ensures
        s.issued@[i] != s.issued@[j],
{
}

} // verus!
