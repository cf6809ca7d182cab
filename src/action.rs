use vstd::prelude::*;

verus! {

/// A hardware condition that an interrupt handler acknowledges.
#[derive(Clone, Copy, Debug, PartialEq, Eq, Structural)]
pub enum Source {
    /// The update flag of the general-purpose timer.
    TimerUpdate,
    /// External interrupt line 0 (wakeup key).
    Exti0,
    /// External interrupt line 2 (key 2).
    Exti2,
    /// External interrupt line 8 (key 0).
    Exti8,
    /// External interrupt line 9 (key 1).
    Exti9,
}

/// One step of hardware work, performed in order by the board code.
/// LEDs and the beeper are active-low: a low pin lights or sounds.
#[derive(Clone, Copy, Debug, PartialEq, Eq, Structural)]
pub enum Action {
    ToggleLed(usize),
    LedLow(usize),
    LedHigh(usize),
    BeepLow,
    BeepHigh,
    DelayMs(u32),
    /// Sets the compare value of the PWM channel.
    SetDuty(u16),
    Acknowledge(Source),
}

/// Room in an action list: the longest handler needs seven steps.
pub const ACTION_CAPACITY: usize = 7;

/// A short, fixed-capacity list of actions, filled without allocation.
pub struct ActionList {
    items: [Action; 7],
    len: usize,
}

impl View for ActionList {
    type V = Seq<Action>;

    closed spec fn view(&self) -> Seq<Action> {
        self.items@.subrange(0, self.len as int)
    }
}

impl ActionList {
    #[verifier::type_invariant]
    spec fn fits(&self) -> bool {
        self.len <= ACTION_CAPACITY
    }

    pub fn new() -> (r: ActionList)
        ensures
            r@ == Seq::<Action>::empty(),
    {
        let r = ActionList { items: [Action::BeepHigh; 7], len: 0 };
        assert(r@ =~= Seq::<Action>::empty());
        r
    }

    pub fn len(&self) -> (r: usize)
        ensures
            r == self@.len(),
    {
        proof {
            use_type_invariant(self);
        }
        self.len
    }

    pub fn is_empty(&self) -> (r: bool)
        ensures
            r == (self@.len() == 0),
    {
        proof {
            use_type_invariant(self);
        }
        self.len == 0
    }

    /// Appends one action.
    pub fn push(&mut self, a: Action)
        requires
            old(self)@.len() < ACTION_CAPACITY,
        ensures
            final(self)@ == old(self)@.push(a),
    {
        proof {
            use_type_invariant(&*self);
        }
        self.items[self.len] = a;
        self.len = self.len + 1;
        assert(self@ =~= old(self)@.push(a));
    }

    /// The actions, in order.
    pub fn as_slice(&self) -> (r: &[Action])
        ensures
            r@ == self@,
    {
        proof {
            use_type_invariant(self);
        }
        vstd::slice::slice_subrange(self.items.as_slice(), 0, self.len)
    }
}

} // verus!
