use vstd::prelude::*;
use crate::action::{Action, ActionList};

verus! {

/// LEDs walked by one pass of the sweep; also the number of duty steps.
pub const SWEEP_LEDS: usize = 8;

/// Dwell at each position, in milliseconds.
pub const DWELL_MS: u32 = 500;

/// The duty of the shortest pulse (about 0.5 ms of the 20 ms period).
pub open spec fn min_duty(max_duty: nat) -> nat {
    max_duty / 40
}

/// The duty of the longest pulse (about 2.5 ms of the 20 ms period).
pub open spec fn top_duty(max_duty: nat) -> nat {
    max_duty / 8
}

/// One of the eight equal steps between the shortest and longest pulse.
pub open spec fn duty_step(max_duty: nat) -> nat {
    ((top_duty(max_duty) - min_duty(max_duty)) as nat) / 8
}

/// How many steps above the shortest pulse the servo stands at a stage of
/// the sweep: stages 0 to 8 climb, stages 9 to 15 come back down.
pub open spec fn steps_at(stage: nat) -> nat {
    if stage <= 8 {
        stage
    } else {
        (16 - stage) as nat
    }
}

/// The foreground servo sweep: a forward pass lights LEDs 0 to 7 one by
/// one, raising the duty a step after each; a reverse pass puts them out
/// from 7 down to 0, lowering it again. Then it repeats.
pub struct ServoSweep {
    min: u16,
    step: u16,
    duty: u16,
    stage: usize,
}

impl ServoSweep {
    pub closed spec fn low(&self) -> nat {
        self.min as nat
    }

    pub closed spec fn step_size(&self) -> nat {
        self.step as nat
    }

    pub closed spec fn current_duty(&self) -> nat {
        self.duty as nat
    }

    pub closed spec fn current_stage(&self) -> nat {
        self.stage as nat
    }

    pub open spec fn wf(&self) -> bool {
        &&& self.current_stage() < 16
        &&& self.low() + 8 * self.step_size() <= u16::MAX
        &&& self.current_duty() == self.low() + self.step_size() * steps_at(self.current_stage())
    }

    /// A sweep for a channel whose largest duty is `max_duty`, standing at
    /// the shortest pulse before its first stage.
    pub fn new(max_duty: u16) -> (r: ServoSweep)
        ensures
            r.wf(),
            r.low() == min_duty(max_duty as nat),
            r.step_size() == duty_step(max_duty as nat),
            r.current_duty() == min_duty(max_duty as nat),
            r.current_stage() == 0,
    {
        let top: u16 = max_duty / 8;
        let min: u16 = max_duty / 40;
        let step: u16 = (top - min) / 8;
        assert(min as nat + 8 * (step as nat) <= top as nat) by (nonlinear_arith)
            requires
                step == (top - min) / 8,
                min <= top,
        ;
        assert(step as nat * steps_at(0) == 0) by (nonlinear_arith);
        ServoSweep { min, step, duty: min, stage: 0 }
    }

    pub fn min_duty(&self) -> (r: u16)
        ensures
            r == self.low(),
    {
        self.min
    }

    pub fn step(&self) -> (r: u16)
        ensures
            r == self.step_size(),
    {
        self.step
    }

    pub fn duty(&self) -> (r: u16)
        ensures
            r == self.current_duty(),
    {
        self.duty
    }

    pub fn stage(&self) -> (r: usize)
        ensures
            r == self.current_stage(),
    {
        self.stage
    }

    /// Performs one stage: on the forward pass LED `stage` lights, on the
    /// reverse pass LED `15 - stage` goes out; then the dwell, then the
    /// duty moves one step.
    pub fn advance(&mut self) -> (r: ActionList)
        requires
            old(self).wf(),
        ensures
            final(self).wf(),
            final(self).low() == old(self).low(),
            final(self).step_size() == old(self).step_size(),
            final(self).current_stage() == (old(self).current_stage() + 1) % 16,
            old(self).current_stage() < 8 ==> r@ == seq![
                Action::LedLow(old(self).current_stage() as usize),
                Action::DelayMs(DWELL_MS),
                Action::SetDuty(final(self).current_duty() as u16),
            ] && final(self).current_duty() == old(self).current_duty() + old(self).step_size(),
            old(self).current_stage() >= 8 ==> r@ == seq![
                Action::LedHigh((15 - old(self).current_stage()) as usize),
                Action::DelayMs(DWELL_MS),
                Action::SetDuty(final(self).current_duty() as u16),
            ] && final(self).current_duty() == old(self).current_duty() - old(self).step_size(),
    {
        let mut r: ActionList = ActionList::new();
        proof {
            let k = steps_at(self.stage as nat);
            assert(self.step as nat * k <= 8 * self.step as nat) by (nonlinear_arith)
                requires
                    k <= 8,
            ;
            assert(self.step as nat * (k + 1) == self.step as nat * k + self.step as nat)
                by (nonlinear_arith);
            assert(k < 8 ==> self.step as nat * (k + 1) <= 8 * self.step as nat)
                by (nonlinear_arith);
            assert(k >= 1 ==> self.step as nat * (k - 1) == self.step as nat * k
                - self.step as nat) by (nonlinear_arith);
        }
        if self.stage < SWEEP_LEDS {
            r.push(Action::LedLow(self.stage));
            r.push(Action::DelayMs(DWELL_MS));
            self.duty = self.duty + self.step;
        } else {
            r.push(Action::LedHigh(15 - self.stage));
            r.push(Action::DelayMs(DWELL_MS));
            self.duty = self.duty - self.step;
        }
        r.push(Action::SetDuty(self.duty));
        self.stage = (self.stage + 1) % 16;
        r
    }
}

} // verus!
