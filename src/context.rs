use vstd::prelude::*;

verus! {

/// The global interrupt mask of the single core.
pub struct Interrupts {
    masked: bool,
}

/// Evidence that a critical section is open: it remembers whether
/// interrupts were masked before it was entered.
pub struct CriticalSection {
    prior: bool,
}

impl Interrupts {
    pub closed spec fn is_masked(&self) -> bool {
        self.masked
    }

    /// Interrupts as they stand after reset: unmasked.
    pub fn new() -> (r: Interrupts)
        ensures
            !r.is_masked(),
    {
        Interrupts { masked: false }
    }

    pub fn masked(&self) -> (r: bool)
        ensures
            r == self.is_masked(),
    {
        self.masked
    }

    /// Masks every maskable interrupt and opens a critical section.
    pub fn acquire(&mut self) -> (cs: CriticalSection)
        ensures
            final(self).is_masked(),
            cs.prior() == old(self).is_masked(),
    {
        let cs = CriticalSection { prior: self.masked };
        self.masked = true;
        cs
    }

    /// Closes a critical section, restoring the mask it found.
    pub fn release(&mut self, cs: CriticalSection)
        ensures
            final(self).is_masked() == cs.prior(),
    {
        self.masked = cs.prior;
    }
}

impl CriticalSection {
    pub closed spec fn prior(&self) -> bool {
        self.prior
    }
}

/// A process-wide cell for the reactive context. It starts empty, is
/// published at most once, and after that keeps its identity; its interior
/// is reached only while interrupts are masked.
pub struct Shared<T> {
    slot: Option<T>,
}

impl<T> Shared<T> {
    pub closed spec fn content(&self) -> Option<T> {
        self.slot
    }

    pub fn new() -> (r: Shared<T>)
        ensures
            r.content() is None,
    {
        Shared { slot: None }
    }

    pub fn is_live(&self) -> (r: bool)
        ensures
            r == self.content() is Some,
    {
        self.slot.is_some()
    }

    /// Publishes the context. A second publication is refused and hands the
    /// value back, leaving the published context as it was.
    pub fn publish(&mut self, irq: &Interrupts, ctx: T) -> (r: Result<(), T>)
        requires
            irq.is_masked(),
        ensures
            old(self).content() is None ==> r is Ok && final(self).content() == Some(ctx),
            old(self).content() is Some ==> r == Err::<(), T>(ctx) && final(self).content()
                == old(self).content(),
    {
        if self.slot.is_some() {
            Err(ctx)
        } else {
            self.slot = Some(ctx);
            Ok(())
        }
    }

    /// An exclusive view of the published context, while interrupts are
    /// masked; `None` before publication.
    pub fn live_mut(&mut self, irq: &Interrupts) -> (r: Option<&mut T>)
        requires
            irq.is_masked(),
        ensures
            match r {
                Some(c) => old(self).content() == Some(*c) && final(self).content() == Some(*final(c)),
                None => old(self).content() is None && final(self).content() is None,
            },
    {
        match &mut self.slot {
            Some(c) => Some(c),
            None => None,
        }
    }
}

} // verus!
