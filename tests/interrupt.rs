use picorv32::interrupt::{disable, enable, free, CriticalSection, MaskIrq, ALL_MASKED, NONE_MASKED};
use picorv32::machine::Registers;

#[test]
fn maskirq_returns_previous_mask_and_reads_back() {
    let mut r = Registers::new();
    assert_eq!(r.maskirq(0x0000_00f0), 0xffff_ffff);
    assert_eq!(r.maskirq(0x0000_00f0), 0x0000_00f0);
    assert_eq!(r.mask, 0x0000_00f0);
}

#[test]
fn disable_then_read_gives_all_ones() {
    let mut r = Registers::new();
    r.maskirq(0x1234_5678);
    disable(&mut r);
    assert_eq!(r.maskirq(0), ALL_MASKED);
}

#[test]
fn enable_then_read_gives_all_zeros() {
    let mut r = Registers::new();
    enable(&mut r);
    assert_eq!(r.maskirq(0xffff_ffff), NONE_MASKED);
}

#[test]
fn critical_section_masks_and_restores() {
    let mut r = Registers::new();
    r.maskirq(0b0000_0000);
    let out = free(&mut r, |regs: &mut Registers, _cs: &CriticalSection| {
        assert_eq!(regs.mask, 0xffff_ffff);
        42
    });
    assert_eq!(out, 42);
    assert_eq!(r.mask, 0b0000_0000);
}

#[test]
fn critical_section_restores_a_partial_mask() {
    let mut r = Registers::new();
    r.maskirq(0x0000_0f0f);
    free(&mut r, |regs: &mut Registers, _cs: &CriticalSection| {
        regs.maskirq(0x0000_0f0f);
    });
    assert_eq!(r.mask, 0x0000_0f0f);
}

#[test]
fn critical_section_restores_after_body_enables() {
    let mut r = Registers::new();
    r.maskirq(0x8000_0001);
    free(&mut r, |regs: &mut Registers, _cs: &CriticalSection| {
        enable(regs);
    });
    assert_eq!(r.mask, 0x8000_0001);
}

#[test]
fn nested_critical_sections_restore_each_level() {
    let mut r = Registers::new();
    enable(&mut r);
    let mut seen_inner_entry = 0u32;
    let mut seen_between = 0u32;
    free(&mut r, |outer: &mut Registers, _cs: &CriticalSection| {
        free(outer, |inner: &mut Registers, _cs: &CriticalSection| {
            seen_inner_entry = inner.mask;
        });
        seen_between = outer.mask;
    });
    assert_eq!(seen_inner_entry, 0xffff_ffff);
    assert_eq!(seen_between, 0xffff_ffff);
    assert_eq!(r.mask, 0x0);
}

#[test]
fn three_nested_critical_sections_restore_the_original_mask() {
    let mut r = Registers::new();
    r.maskirq(0x0000_00aa);
    let depth = free(&mut r, |a: &mut Registers, _cs: &CriticalSection| {
        free(a, |b: &mut Registers, _cs: &CriticalSection| {
            free(b, |c: &mut Registers, _cs: &CriticalSection| {
                assert_eq!(c.mask, 0xffff_ffff);
                3u32
            })
        })
    });
    assert_eq!(depth, 3);
    assert_eq!(r.mask, 0x0000_00aa);
}

#[test]
fn critical_section_from_fully_masked_is_a_no_op() {
    let mut r = Registers::new();
    free(&mut r, |_regs: &mut Registers, _cs: &CriticalSection| ());
    assert_eq!(r.mask, 0xffff_ffff);
}

fn nest(r: &mut Registers, depth: u32) -> u32 {
    if depth == 0 {
        return r.mask;
    }
    free(r, |inner: &mut Registers, _cs: &CriticalSection| {
        assert_eq!(inner.mask, 0xffff_ffff);
        let seen = nest(inner, depth - 1);
        assert_eq!(inner.mask, 0xffff_ffff);
        seen
    })
}

#[test]
fn critical_sections_nested_to_any_depth_restore_the_mask() {
    for depth in 1..=12u32 {
        let mut r = Registers::new();
        r.maskirq(0x0f0f_0000 ^ depth);
        r.timer(depth);
        r.setq3(depth);
        assert_eq!(nest(&mut r, depth), 0xffff_ffff);
        assert_eq!(r.mask, 0x0f0f_0000 ^ depth);
        assert_eq!(r.counter, depth);
        assert_eq!(r.q3, depth);
    }
}

#[test]
fn disable_and_enable_change_only_the_mask() {
    let mut r = Registers::new();
    r.timer(40);
    r.setq2(2);
    r.setq3(3);
    r.raise(7);
    let before = r;
    disable(&mut r);
    assert_eq!(r, Registers { mask: 0xffff_ffff, ..before });
    enable(&mut r);
    assert_eq!(r, Registers { mask: 0, ..before });
}

#[test]
fn critical_section_body_sees_the_callers_registers() {
    let mut r = Registers::new();
    r.setq2(0x55);
    r.maskirq(0x3);
    let got = free(&mut r, |regs: &mut Registers, _cs: &CriticalSection| {
        regs.timer(10);
        regs.getq2()
    });
    assert_eq!(got, 0x55);
    assert_eq!(r.counter, 10);
    assert_eq!(r.mask, 0x3);
}
