use vstd::prelude::*;

verus! {

/// A repeating countdown measured in microseconds: it finishes each time the
/// time fed to it reaches a whole period, and carries the remainder over.
#[derive(Clone, Copy, Debug, PartialEq, Eq, Structural)]
pub struct RepeatTimer {
    pub period_us: u64,
    pub elapsed_us: u64,
}

impl RepeatTimer {
    /// A positive period, and less than one period elapsed.
    pub open spec fn wf(&self) -> bool {
        self.period_us > 0 && self.elapsed_us < self.period_us
    }

    /// A timer of the given period with no time elapsed.
    pub fn from_micros(period_us: u64) -> (r: RepeatTimer)
        requires
            period_us > 0,
        ensures
            r.wf(),
            r.period_us == period_us,
            r.elapsed_us == 0,
    {
        RepeatTimer { period_us, elapsed_us: 0 }
    }

    /// Feeds `delta_us` microseconds to the timer; true when it finished at
    /// least once during them.
    pub fn tick(&mut self, delta_us: u64) -> (just_finished: bool)
        requires
            old(self).wf(),
        ensures
            final(self).wf(),
            final(self).period_us == old(self).period_us,
            final(self).elapsed_us == (old(self).elapsed_us + delta_us) % (old(self).period_us as int),
            just_finished == (old(self).elapsed_us + delta_us >= old(self).period_us),
    {
        let total: u128 = self.elapsed_us as u128 + delta_us as u128;
        let period: u128 = self.period_us as u128;
        self.elapsed_us = (total % period) as u64;
        total >= period
    }

    /// Sets the elapsed time back to zero.
    pub fn reset(&mut self)
        ensures
            final(self).period_us == old(self).period_us,
            final(self).elapsed_us == 0,
    {
        self.elapsed_us = 0;
    }
}

} // verus!
