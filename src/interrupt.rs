//! Interrupts: disabling, enabling and critical sections.
//!
//! Every operation here is built on one primitive, the `maskirq`
//! instruction, which writes a new IRQ mask and returns the previous one in
//! a single step. The primitive is reached through [`MaskIrq`], so the same
//! verified code drives the processor itself and the register model in
//! `machine`.
use vstd::prelude::*;

verus! {

/// The mask with every interrupt line masked (disabled).
pub const ALL_MASKED: u32 = 0xffff_ffff;

/// The mask with every interrupt line enabled.
pub const NONE_MASKED: u32 = 0;

/// Access to the IRQ mask register.
///
/// A bit set in the mask disables the interrupt line at that offset.
/// `machine::Registers` implements it on the register model; a program on
/// the processor implements it with the `maskirq` instruction itself.
pub trait MaskIrq: Sized {
    /// The value the IRQ mask register holds.
    spec fn mask(&self) -> u32;

    /// The same state with the IRQ mask register holding `new_mask` and
    /// everything else as it is.
    spec fn with_mask(&self, new_mask: u32) -> Self;

    /// Writes `new_mask` to the IRQ mask register and returns the value it
    /// held before, in one indivisible step.
    fn maskirq(&mut self, new_mask: u32) -> (prev: u32)
        ensures
            prev == old(self).mask(),
            final(self).mask() == new_mask,
            *final(self) == old(self).with_mask(new_mask),
    ;
}

/// One `maskirq(new_mask)`, as [`MaskIrq::maskirq`] states it, taking the
/// register from `before` to `after` and returning `prev`.
pub open spec fn maskirq_step<M: MaskIrq>(before: M, new_mask: u32, prev: u32, after: M) -> bool {
    &&& prev == before.mask()
    &&& after.mask() == new_mask
}

/// Critical section token.
///
/// Only [`free`] makes one, and only while it holds every interrupt masked:
/// holding one shows that the code runs inside a critical section.
pub struct CriticalSection {
    _private: (),
}

/// Disables all interrupts: the mask becomes all ones.
pub fn disable<M: MaskIrq>(irq: &mut M)
    ensures
        final(irq).mask() == ALL_MASKED,
        *final(irq) == old(irq).with_mask(ALL_MASKED),
{
    irq.maskirq(ALL_MASKED);
}

/// Enables all interrupts: the mask becomes all zeros.
///
/// Must not be called inside a critical section: the section's exit would
/// still restore its saved mask, but its body would no longer run with
/// interrupts masked.
pub fn enable<M: MaskIrq>(irq: &mut M)
    ensures
        final(irq).mask() == NONE_MASKED,
        *final(irq) == old(irq).with_mask(NONE_MASKED),
{
    irq.maskirq(NONE_MASKED);
}

/// Executes `f` in an interrupt-free context (a critical section).
///
/// Masks every interrupt, saving the mask that held on entry, runs `f` with
/// a token that proves it, then writes the saved mask back and returns what
/// `f` returned. `f` runs on the caller's state with only the mask replaced,
/// and the state on return is the one `f` left with only the mask restored. Whatever `f` does to the mask, including entering sections of
/// its own, the mask on return equals the mask on entry bit for bit, so
/// sections nest to any depth.
pub fn free<M: MaskIrq, F, R>(irq: &mut M, f: F) -> (r: R)
    where
        F: FnOnce(&mut M, &CriticalSection) -> R,
    requires
        forall|m: &mut M, cs: &CriticalSection| m.mask() == ALL_MASKED ==> f.requires((m, cs)),
    ensures
        final(irq).mask() == old(irq).mask(),
        exists|m: &mut M, cs: &CriticalSection|
            {
                &&& *m == old(irq).with_mask(ALL_MASKED)
                &&& f.ensures((m, cs), r)
                &&& *final(irq) == final(m).with_mask(old(irq).mask())
            },
{
    let saved = irq.maskirq(ALL_MASKED);
    let cs = CriticalSection { _private: () };
    let r = f(irq, &cs);
    irq.maskirq(saved);
    r
}

/// Mask writes read back: `maskirq(m)` returns whatever mask held just
/// before it, and a second `maskirq(m)` right after returns `m` and leaves
/// `m` in place.
pub proof fn lemma_maskirq_read_back<M: MaskIrq>(
    s0: M,
    m: u32,
    p1: u32,
    s1: M,
    p2: u32,
    s2: M,
)
    requires
        maskirq_step(s0, m, p1, s1),
        maskirq_step(s1, m, p2, s2),
    ensures
        p1 == s0.mask(),
        p2 == m,
        s2.mask() == m,
{
}

/// A mask read right after `disable` returns all ones, and one right after
/// `enable` returns all zeros: whatever `x` the read writes, it hands back the
/// mask that the preceding call left.
pub proof fn lemma_read_after_disable_enable<M: MaskIrq>(s1: M, x: u32, p: u32, s2: M)
    requires
        maskirq_step(s1, x, p, s2),
    ensures
        s1.mask() == ALL_MASKED ==> p == 0xffff_ffffu32,
        s1.mask() == NONE_MASKED ==> p == 0u32,
{
}

} // verus!
