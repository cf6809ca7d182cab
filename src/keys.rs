use vstd::prelude::*;
use crate::action::{Action, ActionList, Source, ACTION_CAPACITY};

verus! {

/// How long the beeper sounds after the wakeup key.
pub const BEEP_MS: u32 = 500;

/// Debounce delay of the key interrupts.
pub const DEBOUNCE_MS: u32 = 10;

/// Debounce delay of the polled key loop, before each sample.
pub const POLL_DEBOUNCE_MS: u32 = 50;

/// The wakeup action: every LED of the three-LED bank toggles, then the
/// beeper sounds for `BEEP_MS` and falls silent.
pub open spec fn wakeup_actions() -> Seq<Action> {
    seq![
        Action::ToggleLed(0),
        Action::ToggleLed(1),
        Action::ToggleLed(2),
        Action::BeepLow,
        Action::DelayMs(BEEP_MS),
        Action::BeepHigh,
    ]
}

fn push_wakeup(r: &mut ActionList)
    requires
        old(r)@.len() + 6 <= ACTION_CAPACITY,
    ensures
        final(r)@ == old(r)@ + wakeup_actions(),
{
    r.push(Action::ToggleLed(0));
    r.push(Action::ToggleLed(1));
    r.push(Action::ToggleLed(2));
    r.push(Action::BeepLow);
    r.push(Action::DelayMs(BEEP_MS));
    r.push(Action::BeepHigh);
    assert(final(r)@ =~= old(r)@ + wakeup_actions());
}

/// Interrupt of line 0, the wakeup key (rising edge).
pub fn exti0(line0_pending: bool) -> (r: ActionList)
    ensures
        line0_pending ==> r@ == wakeup_actions().push(Action::Acknowledge(Source::Exti0)),
        !line0_pending ==> r@ == Seq::<Action>::empty(),
{
    let mut r: ActionList = ActionList::new();
    if line0_pending {
        push_wakeup(&mut r);
        r.push(Action::Acknowledge(Source::Exti0));
    }
    r
}

/// Interrupt of line 2, key 2 (falling edge): toggles LED 2, waits out the
/// bounce and acknowledges the line.
pub fn exti2(line2_pending: bool) -> (r: ActionList)
    ensures
        line2_pending ==> r@ == seq![
            Action::ToggleLed(2),
            Action::DelayMs(DEBOUNCE_MS),
            Action::Acknowledge(Source::Exti2),
        ],
        !line2_pending ==> r@ == Seq::<Action>::empty(),
{
    let mut r: ActionList = ActionList::new();
    if line2_pending {
        r.push(Action::ToggleLed(2));
        r.push(Action::DelayMs(DEBOUNCE_MS));
        r.push(Action::Acknowledge(Source::Exti2));
    }
    r
}

/// The shared interrupt of lines 5 to 9, which carries key 0 (line 8)
/// and key 1 (line 9). One line is served per entry, line 8 first; a
/// line left pending fires the interrupt again. Every entry ends with the
/// debounce delay, a spurious one included.
pub fn exti9_5(line8_pending: bool, line9_pending: bool) -> (r: ActionList)
    ensures
        line8_pending ==> r@ == seq![
            Action::ToggleLed(0),
            Action::Acknowledge(Source::Exti8),
            Action::DelayMs(DEBOUNCE_MS),
        ],
        !line8_pending && line9_pending ==> r@ == seq![
            Action::ToggleLed(1),
            Action::Acknowledge(Source::Exti9),
            Action::DelayMs(DEBOUNCE_MS),
        ],
        !line8_pending && !line9_pending ==> r@ == seq![Action::DelayMs(DEBOUNCE_MS)],
{
    let mut r: ActionList = ActionList::new();
    if line8_pending {
        r.push(Action::ToggleLed(0));
        r.push(Action::Acknowledge(Source::Exti8));
        r.push(Action::DelayMs(DEBOUNCE_MS));
    } else if line9_pending {
        r.push(Action::ToggleLed(1));
        r.push(Action::Acknowledge(Source::Exti9));
        r.push(Action::DelayMs(DEBOUNCE_MS));
    } else {
        r.push(Action::DelayMs(DEBOUNCE_MS));
    }
    r
}

/// One sample of the four keys, each `true` when pressed: keys 0 to 2
/// read low when pressed, the wakeup key reads high.
#[derive(Clone, Copy, Debug, PartialEq, Eq, Structural)]
pub struct KeySample {
    pub key_0: bool,
    pub key_1: bool,
    pub key_2: bool,
    pub key_up: bool,
}

/// The toggles for the pressed keys among 0 to 2, in key order.
pub open spec fn key_toggles(k: KeySample) -> Seq<Action> {
    (if k.key_0 { seq![Action::ToggleLed(0)] } else { Seq::empty() }) + (if k.key_1 {
        seq![Action::ToggleLed(1)]
    } else {
        Seq::empty()
    }) + (if k.key_2 { seq![Action::ToggleLed(2)] } else { Seq::empty() })
}

/// The polled key loop, after its debounce delay: the wakeup key wins and
/// gives the wakeup action; otherwise the LED of each pressed key toggles.
pub fn poll_keys(k: KeySample) -> (r: ActionList)
    ensures
        k.key_up ==> r@ == wakeup_actions(),
        !k.key_up ==> r@ == key_toggles(k),
{
    let mut r: ActionList = ActionList::new();
    if k.key_up {
        push_wakeup(&mut r);
    } else {
        if k.key_0 {
            r.push(Action::ToggleLed(0));
        }
        if k.key_1 {
            r.push(Action::ToggleLed(1));
        }
        if k.key_2 {
            r.push(Action::ToggleLed(2));
        }
        assert(r@ =~= key_toggles(k));
    }
    r
}

/// One turn of the wait after a sample: while the wakeup key is held the
/// beeper sounds; once it is released the beeper falls silent and the
/// wait ends (`true`).
pub fn hold_step(k: KeySample) -> (r: (Action, bool))
    ensures
        r.1 == !k.key_up,
        r.0 == (if r.1 { Action::BeepHigh } else { Action::BeepLow }),
{
    if !k.key_up {
        (Action::BeepHigh, true)
    } else {
        (Action::BeepLow, false)
    }
}

} // verus!
