use vstd::prelude::*;

verus! {

/// A countdown measured in microseconds. A one-shot timer stops at its
/// duration; a repeating one wraps round and keeps counting.
#[derive(Clone, Copy, Debug, PartialEq, Eq, Structural)]
pub struct Timer {
    pub duration_us: u64,
    pub elapsed_us: u64,
    pub repeating: bool,
    /// Whether the last `tick` reached the end of the countdown.
    pub just_finished: bool,
}

impl Timer {
    /// A timer has a positive duration; a repeating one never rests at its end.
    pub open spec fn wf(self) -> bool {
        &&& self.duration_us > 0
        &&& self.elapsed_us <= self.duration_us
        &&& self.repeating ==> self.elapsed_us < self.duration_us
    }

    /// A one-shot timer that has run out.
    pub open spec fn spent(self) -> bool {
        !self.repeating && self.elapsed_us >= self.duration_us
    }

    /// The timer after `delta_us` more microseconds have gone by.
    pub open spec fn ticked(self, delta_us: u64) -> Timer {
        let total = self.elapsed_us + delta_us;
        if self.repeating {
            Timer {
                elapsed_us: (total % (self.duration_us as int)) as u64,
                just_finished: total >= self.duration_us,
                ..self
            }
        } else if self.spent() {
            Timer { just_finished: false, ..self }
        } else if total >= self.duration_us {
            Timer { elapsed_us: self.duration_us, just_finished: true, ..self }
        } else {
            Timer { elapsed_us: total as u64, just_finished: false, ..self }
        }
    }

    /// A timer of `duration_us` that has not started counting.
    pub fn new(duration_us: u64, repeating: bool) -> (r: Timer)
        requires
            duration_us > 0,
        ensures
            r.wf(),
            r.duration_us == duration_us,
            r.elapsed_us == 0,
            r.repeating == repeating,
            !r.just_finished,
    {
        Timer { duration_us, elapsed_us: 0, repeating, just_finished: false }
    }

    /// Advances the timer by `delta_us` microseconds.
    pub fn tick(&mut self, delta_us: u64)
        requires
            old(self).wf(),
        ensures
            final(self).wf(),
            *final(self) == old(self).ticked(delta_us),
    {
        let total: u128 = self.elapsed_us as u128 + delta_us as u128;
        if self.repeating {
            let rest: u128 = total % (self.duration_us as u128);
            self.elapsed_us = rest as u64;
            self.just_finished = total >= self.duration_us as u128;
        } else if self.elapsed_us >= self.duration_us {
            self.just_finished = false;
        } else if total >= self.duration_us as u128 {
            self.elapsed_us = self.duration_us;
            self.just_finished = true;
        } else {
            self.elapsed_us = total as u64;
            self.just_finished = false;
        }
    }

    /// Whether the last tick reached the end of the countdown.
    pub fn just_finished(&self) -> (r: bool)
        ensures
            r == self.just_finished,
    {
        self.just_finished
    }
}

} // verus!
