//! The animation timer: a repeating countdown with a fixed period that gates
//! how often the frame selector is allowed to run.

use vstd::prelude::*;

verus! {

/// A repeating countdown. Advancing it by the elapsed wall-clock time yields
/// a one-shot "just became due" signal each time the countdown crosses zero,
/// after which it resets itself to the full period. Time is measured in whole
/// milliseconds.
#[derive(Clone, Copy, Debug)]
pub struct AnimationTimer {
    /// The fixed period the countdown resets to.
    pub period_ms: u32,
    /// Time left until the countdown next becomes due.
    pub remaining_ms: u32,
}

impl AnimationTimer {
    /// The countdown is running towards a deadline no further away than one
    /// full period.
    pub open spec fn wf(self) -> bool {
        0 < self.remaining_ms <= self.period_ms
    }

    /// Whether advancing by `elapsed_ms` makes the countdown due.
    pub open spec fn is_due(self, elapsed_ms: u32) -> bool {
        elapsed_ms >= self.remaining_ms
    }

    /// A fresh timer that first becomes due after one full period.
    pub fn new(period_ms: u32) -> (timer: AnimationTimer)
        requires
            0 < period_ms,
        ensures
            timer.period_ms == period_ms,
            timer.remaining_ms == period_ms,
            timer.wf(),
    {
        AnimationTimer { period_ms, remaining_ms: period_ms }
    }

    /// Advance the countdown by `elapsed_ms` and report whether it became
    /// due. The countdown fires at most once per call: when `elapsed_ms`
    /// spans several periods the missed ones are not queued, the countdown
    /// simply resets to one full period.
    pub fn advance(&mut self, elapsed_ms: u32) -> (due: bool)
        requires
            old(self).wf(),
        ensures
            due == old(self).is_due(elapsed_ms),
            final(self).period_ms == old(self).period_ms,
            due ==> final(self).remaining_ms == old(self).period_ms,
            !due ==> final(self).remaining_ms == old(self).remaining_ms - elapsed_ms,
            final(self).wf(),
    {
        if elapsed_ms >= self.remaining_ms {
            self.remaining_ms = self.period_ms;
            true
        } else {
            self.remaining_ms = self.remaining_ms - elapsed_ms;
            false
        }
    }
}

} // verus!
