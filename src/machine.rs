//! The processor's interrupt registers as plain values.
//!
//! [`Registers`] holds what the custom instructions read and write: the IRQ
//! mask, the pending-IRQ bitmask, the timer counter, the shadow registers
//! `q2` and `q3`, and whether an interrupt handler is running. Each
//! instruction is a method with the effect the processor gives it, and three
//! events stand for what the hardware does by itself: a clock cycle
//! ([`Registers::tick`]), an interrupt condition coming up
//! ([`Registers::raise`]) and the processor entering the handler
//! ([`Registers::enter_handler`]).
use vstd::prelude::*;
use crate::interrupt::{MaskIrq, ALL_MASKED};

verus! {

/// The interrupt registers of one processor.
#[derive(Clone, Copy, Debug, PartialEq, Eq)]
pub struct Registers {
    /// IRQ mask: a set bit disables the interrupt line at that offset.
    pub mask: u32,
    /// Pending IRQs: a set bit means that line's interrupt condition holds.
    pub pending: u32,
    /// Timer counter: counts down once per cycle; zero means stopped.
    pub counter: u32,
    /// Shadow register `q2`.
    pub q2: u32,
    /// Shadow register `q3`.
    pub q3: u32,
    /// Whether the processor is running the interrupt handler: set on
    /// interrupt entry, cleared by `retirq`.
    pub in_handler: bool,
}

/// The pending bit of the timer interrupt.
pub const TIMER_IRQ: u32 = 1;

/// The registers after one clock cycle: a running counter counts down, and
/// going from one to zero raises the timer interrupt.
pub open spec fn tick_spec(r: Registers) -> Registers {
    if r.counter == 0 {
        r
    } else if r.counter == 1 {
        Registers { counter: 0, pending: r.pending | TIMER_IRQ, ..r }
    } else {
        Registers { counter: (r.counter - 1) as u32, ..r }
    }
}

/// The registers after `n` clock cycles.
pub open spec fn run_ticks(r: Registers, n: nat) -> Registers
    decreases n,
{
    if n == 0 {
        r
    } else {
        run_ticks(tick_spec(r), (n - 1) as nat)
    }
}

impl Registers {
    /// The registers at processor reset: every interrupt masked, nothing
    /// pending, the timer stopped.
    pub fn new() -> (r: Registers)
        ensures
            r.mask == ALL_MASKED,
            r.pending == 0,
            r.counter == 0,
            r.q2 == 0,
            r.q3 == 0,
            !r.in_handler,
    {
        Registers { mask: ALL_MASKED, pending: 0, counter: 0, q2: 0, q3: 0, in_handler: false }
    }

    /// `timer`: writes `cycles` to the timer counter and returns the value it
    /// held. Zero stops the timer.
    pub fn timer(&mut self, cycles: u32) -> (prev: u32)
        ensures
            prev == old(self).counter,
            *final(self) == (Registers { counter: cycles, ..*old(self) }),
    {
        let prev = self.counter;
        self.counter = cycles;
        prev
    }

    /// `waitirq`: returns the bitmask of pending IRQs once one that the mask
    /// lets through is pending.
    ///
    /// On the processor the instruction stalls until that happens; here
    /// nothing else runs meanwhile, so one must be pending already.
    pub fn waitirq(&self) -> (pending: u32)
        requires
            self.pending & !self.mask != 0,
        ensures
            pending == self.pending,
    {
        self.pending
    }

    /// `getq`: the value of shadow register `q2`.
    pub fn getq2(&self) -> (v: u32)
        ensures
            v == self.q2,
    {
        self.q2
    }

    /// `getq`: the value of shadow register `q3`.
    pub fn getq3(&self) -> (v: u32)
        ensures
            v == self.q3,
    {
        self.q3
    }

    /// `setq`: writes `val` to shadow register `q2`.
    pub fn setq2(&mut self, val: u32)
        ensures
            *final(self) == (Registers { q2: val, ..*old(self) }),
    {
        self.q2 = val;
    }

    /// `setq`: writes `val` to shadow register `q3`.
    pub fn setq3(&mut self, val: u32)
        ensures
            *final(self) == (Registers { q3: val, ..*old(self) }),
    {
        self.q3 = val;
    }

    /// `retirq`: leaves the interrupt handler, which re-enables interrupts.
    /// Only valid inside the handler.
    pub fn retirq(&mut self)
        requires
            old(self).in_handler,
        ensures
            *final(self) == (Registers { in_handler: false, ..*old(self) }),
    {
        self.in_handler = false;
    }

    /// The processor takes an interrupt: outside the handler, with a line
    /// pending that the mask lets through, it enters the handler, where no
    /// further interrupt is taken until `retirq`.
    pub fn enter_handler(&mut self)
        requires
            !old(self).in_handler,
            old(self).pending & !old(self).mask != 0,
        ensures
            *final(self) == (Registers { in_handler: true, ..*old(self) }),
    {
        self.in_handler = true;
    }

    /// One clock cycle.
    pub fn tick(&mut self)
        ensures
            *final(self) == tick_spec(*old(self)),
    {
        if self.counter == 1 {
            self.counter = 0;
            self.pending = self.pending | TIMER_IRQ;
        } else if self.counter > 1 {
            self.counter = self.counter - 1;
        }
    }

    /// The interrupt condition of `line` comes up: its pending bit is set.
    pub fn raise(&mut self, line: u32)
        requires
            line < 32,
        ensures
            *final(self) == (Registers { pending: old(self).pending | (1u32 << line), ..*old(self) }),
    {
        self.pending = self.pending | (1u32 << line);
    }
}

impl MaskIrq for Registers {
    open spec fn mask(&self) -> u32 {
        self.mask
    }

    open spec fn with_mask(&self, new_mask: u32) -> Registers {
        Registers { mask: new_mask, ..*self }
    }

    /// `maskirq`: writes `new_mask` and returns the mask it replaced.
    fn maskirq(&mut self, new_mask: u32) -> (prev: u32)
        ensures
            *final(self) == (Registers { mask: new_mask, ..*old(self) }),
    {
        let prev = self.mask;
        self.mask = new_mask;
        prev
    }
}

/// A stopped timer stays stopped: from registers whose counter is zero, no
/// number of clock cycles changes the counter or sets the timer's pending
/// bit, so only a later `timer` call with a non-zero count brings the timer
/// interrupt back.
pub proof fn lemma_stopped_timer_stays_quiet(r: Registers, n: nat)
    requires
        r.counter == 0,
    ensures
        run_ticks(r, n) == r,
    decreases n,
{
    if n > 0 {
        lemma_stopped_timer_stays_quiet(tick_spec(r), (n - 1) as nat);
    }
}

/// Writing zero to the timer stops it: after `timer(0)` from any registers,
/// every number of clock cycles leaves the counter at zero and the timer's
/// pending bit as it was right after the write.
pub proof fn lemma_timer_zero_disables(before: Registers, prev: u32, after: Registers, n: nat)
    requires
        prev == before.counter,
        after == (Registers { counter: 0, ..before }),
    ensures
        run_ticks(after, n).counter == 0,
        run_ticks(after, n).pending & TIMER_IRQ == after.pending & TIMER_IRQ,
{
    lemma_stopped_timer_stays_quiet(after, n);
}

} // verus!
