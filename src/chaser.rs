use vstd::prelude::*;
use crate::action::{Action, ActionList, Source};
use crate::context::{Interrupts, Shared};

verus! {

/// Period of the chaser's timer, in milliseconds.
pub const CHASER_PERIOD_MS: u32 = 500;

/// The cursor of the timer-driven LED chaser over a bank of `len` LEDs.
pub struct Chaser {
    index: usize,
    len: usize,
}

/// The cursor after one update: it moves to the next LED, cyclically.
pub open spec fn next_index(index: nat, len: nat) -> nat {
    (index + 1) % len
}

/// The cursor after `n` updates of a chaser that started at LED 0.
pub open spec fn index_after(len: nat, n: nat) -> nat
    decreases n,
{
    if n == 0 {
        0
    } else {
        next_index(index_after(len, (n - 1) as nat), len)
    }
}

/// How many of the first `n` updates of a chaser that started at LED 0
/// toggled LED `i`.
pub open spec fn toggles_after(len: nat, n: nat, i: nat) -> nat
    decreases n,
{
    if n == 0 {
        0
    } else {
        let m = (n - 1) as nat;
        toggles_after(len, m, i) + if index_after(len, m) == i {
            1nat
        } else {
            0nat
        }
    }
}

impl Chaser {
    pub closed spec fn cursor(&self) -> nat {
        self.index as nat
    }

    pub closed spec fn bank_len(&self) -> nat {
        self.len as nat
    }

    pub open spec fn wf(&self) -> bool {
        0 < self.bank_len() && self.cursor() < self.bank_len()
    }

    /// A chaser over `len` LEDs, pointing at LED 0.
    pub fn new(len: usize) -> (r: Chaser)
        requires
            len > 0,
        ensures
            r.wf(),
            r.cursor() == 0,
            r.bank_len() == len,
    {
        Chaser { index: 0, len }
    }

    pub fn index(&self) -> (r: usize)
        ensures
            r == self.cursor(),
    {
        self.index
    }

    pub fn len(&self) -> (r: usize)
        ensures
            r == self.bank_len(),
    {
        self.len
    }

    /// Handles one timer interrupt. With the update flag set it toggles the
    /// LED under the cursor, advances the cursor and acknowledges the flag;
    /// without it nothing changes and nothing is done.
    pub fn on_update(&mut self, update_pending: bool) -> (r: ActionList)
        requires
            old(self).wf(),
        ensures
            final(self).wf(),
            final(self).bank_len() == old(self).bank_len(),
            !update_pending ==> r@ == Seq::<Action>::empty() && final(self).cursor() == old(
                self,
            ).cursor(),
            update_pending ==> r@ == seq![
                Action::ToggleLed(old(self).cursor() as usize),
                Action::Acknowledge(Source::TimerUpdate),
            ] && final(self).cursor() == next_index(old(self).cursor(), old(self).bank_len()),
    {
        let mut r: ActionList = ActionList::new();
        if update_pending {
            r.push(Action::ToggleLed(self.index));
            self.index = (self.index + 1) % self.len;
            r.push(Action::Acknowledge(Source::TimerUpdate));
        }
        r
    }
}

/// The timer interrupt: enters a critical section, lets the published
/// chaser handle the update, and restores the interrupt mask. Before
/// publication it does nothing.
pub fn tim2(irq: &mut Interrupts, shared: &mut Shared<Chaser>, update_pending: bool) -> (r: ActionList)
    requires
        match old(shared).content() {
            Some(c) => c.wf(),
            None => true,
        },
    ensures
        final(irq).is_masked() == old(irq).is_masked(),
        match old(shared).content() {
            None => r@ == Seq::<Action>::empty() && final(shared).content() is None,
            Some(c0) => match final(shared).content() {
                Some(c1) => c1.wf() && c1.bank_len() == c0.bank_len() && (if update_pending {
                    c1.cursor() == next_index(c0.cursor(), c0.bank_len()) && r@ == seq![
                        Action::ToggleLed(c0.cursor() as usize),
                        Action::Acknowledge(Source::TimerUpdate),
                    ]
                } else {
                    c1.cursor() == c0.cursor() && r@ == Seq::<Action>::empty()
                }),
                None => false,
            },
        },
{
    let cs = irq.acquire();
    let r = match shared.live_mut(irq) {
        Some(c) => c.on_update(update_pending),
        None => ActionList::new(),
    };
    irq.release(cs);
    r
}

/// The foreground blink: one LED per timer tick lights, in bank order,
/// until all are lit; then one per tick goes out, in the same order.
pub struct FillDrain {
    stage: usize,
    len: usize,
}

impl FillDrain {
    pub closed spec fn current_stage(&self) -> nat {
        self.stage as nat
    }

    pub closed spec fn bank_len(&self) -> nat {
        self.len as nat
    }

    pub open spec fn wf(&self) -> bool {
        0 < self.bank_len() && self.current_stage() < 2 * self.bank_len() && 2
            * self.bank_len() <= usize::MAX
    }

    pub fn new(len: usize) -> (r: FillDrain)
        requires
            0 < len <= usize::MAX / 2,
        ensures
            r.wf(),
            r.current_stage() == 0,
            r.bank_len() == len,
    {
        FillDrain { stage: 0, len }
    }

    pub fn stage(&self) -> (r: usize)
        ensures
            r == self.current_stage(),
    {
        self.stage
    }

    /// The pin change to make before waiting for the next tick.
    pub fn advance(&mut self) -> (r: Action)
        requires
            old(self).wf(),
        ensures
            final(self).wf(),
            final(self).bank_len() == old(self).bank_len(),
            final(self).current_stage() == (old(self).current_stage() + 1) % (2 * old(
                self,
            ).bank_len()),
            old(self).current_stage() < old(self).bank_len() ==> r == Action::LedLow(
                old(self).current_stage() as usize,
            ),
            old(self).current_stage() >= old(self).bank_len() ==> r == Action::LedHigh(
                (old(self).current_stage() - old(self).bank_len()) as usize,
            ),
    {
        let r = if self.stage < self.len {
            Action::LedLow(self.stage)
        } else {
            Action::LedHigh(self.stage - self.len)
        };
        self.stage = (self.stage + 1) % (2 * self.len);
        r
    }
}

/// After `n` updates of a chaser that started at LED 0 the cursor stands
/// at `n mod len`, and the LED toggled by the last of them is the one at
/// `(n - 1) mod len`.
pub proof fn lemma_chaser_cursor(len: nat, n: nat)
    requires
        len > 0,
    ensures
        index_after(len, n) == n % len,
        n > 0 ==> index_after(len, (n - 1) as nat) == (n - 1) as nat % len,
    decreases n,
{
    if n > 0 {
        lemma_chaser_cursor(len, (n - 1) as nat);
        let m = (n - 1) as nat;
        vstd::arithmetic::div_mod::lemma_add_mod_noop(m as int, 1, len as int);
        vstd::arithmetic::div_mod::lemma_add_mod_noop((m % len) as int, 1, len as int);
        vstd::arithmetic::div_mod::lemma_mod_twice(m as int, len as int);
    } else {
        vstd::arithmetic::div_mod::lemma_small_mod(0, len);
    }
}

/// After `n` updates of a chaser over `len` LEDs that started at LED 0,
/// LED `i` has been toggled once per full round, `n / len` times, and once
/// more if the unfinished round has passed it.
pub proof fn lemma_chaser_toggle_counts(len: nat, n: nat, i: nat)
    requires
        len > 0,
        i < len,
    ensures
        toggles_after(len, n, i) == n / len + if i < n % len {
            1nat
        } else {
            0nat
        },
    decreases n,
{
    if n == 0 {
        vstd::arithmetic::div_mod::lemma_fundamental_div_mod_converse(0, len as int, 0, 0);
    } else {
        let m = (n - 1) as nat;
        lemma_chaser_toggle_counts(len, m, i);
        lemma_chaser_cursor(len, m);
        let q = m / len;
        let r = m % len;
        vstd::arithmetic::div_mod::lemma_fundamental_div_mod(m as int, len as int);
        if r + 1 < len {
            vstd::arithmetic::div_mod::lemma_fundamental_div_mod_converse(
                n as int,
                len as int,
                q as int,
                (r + 1) as int,
            );
        } else {
            assert((q + 1) * len == q * len + len) by (nonlinear_arith);
            vstd::arithmetic::div_mod::lemma_fundamental_div_mod_converse(
                n as int,
                len as int,
                (q + 1) as int,
                0,
            );
        }
    }
}

} // verus!
