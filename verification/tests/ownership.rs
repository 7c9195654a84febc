use mcan::config::InterruptConfiguration;
use mcan::flags::InterruptSet;
use mcan::owned::OwnedInterruptSet;
use mcan::regs::InterruptRegs;
use mcan::state;

struct Peripheral;

const FULL: u32 = 0x3fff_ffff;

#[test]
fn split_contained_subset_partitions_the_mask() {
    let mut regs = InterruptRegs::reset();
    let (_cfg, mut tok) = InterruptConfiguration::<Peripheral>::new(&mut regs);
    assert_eq!(tok.interrupt_set().0, FULL);

    let subset = 0x0000_0f0f;
    let out = tok.split(InterruptSet(subset)).unwrap_or_else(|_| panic!());
    let remainder = tok.interrupt_set().0;
    let returned = out.interrupt_set().0;
    assert_eq!(returned, subset);
    assert_eq!(remainder, FULL ^ subset);
    assert_eq!(remainder & returned, 0);
    assert_eq!(remainder | returned, FULL);
}

#[test]
fn split_with_unowned_bits_fails_and_changes_nothing() {
    let mut regs = InterruptRegs::reset();
    let (_cfg, mut tok) = InterruptConfiguration::<Peripheral>::new(&mut regs);

    // Bit 30 is reserved and bit 31 too: neither is ever owned.
    match tok.split(InterruptSet(0x4000_00ff)) {
        Ok(_) => panic!("split must fail on unowned bits"),
        Err(e) => assert_eq!(e.0 .0, 0x4000_0000),
    }
    assert_eq!(tok.interrupt_set().0, FULL);

    let mut small = tok.split(InterruptSet(0xf)).unwrap_or_else(|_| panic!());
    match small.split(InterruptSet(0xff)) {
        Ok(_) => panic!("split must fail on unowned bits"),
        Err(e) => assert_eq!(e.0 .0, 0xf0),
    }
    assert_eq!(small.interrupt_set().0, 0xf);
}

#[test]
fn join_inverts_split() {
    let mut regs = InterruptRegs::reset();
    let (_cfg, mut tok) = InterruptConfiguration::<Peripheral>::new(&mut regs);

    let a = 0x0000_00ff;
    let b = 0x00ff_0000;
    let mut token_a = tok.split(InterruptSet(a)).unwrap_or_else(|_| panic!());
    let token_b = tok.split(InterruptSet(b)).unwrap_or_else(|_| panic!());

    token_a.join(token_b);
    assert_eq!(token_a.interrupt_set().0, a | b);

    let recovered = token_a.split(InterruptSet(a)).unwrap_or_else(|_| panic!());
    assert_eq!(recovered.interrupt_set().0, a);
    assert_eq!(token_a.interrupt_set().0, b);
}

#[test]
fn empty_tokens_own_nothing() {
    let e = OwnedInterruptSet::<Peripheral, state::Disabled>::empty();
    assert_eq!(e.interrupt_set().0, 0);
    let d = OwnedInterruptSet::<Peripheral, state::EnabledLine1>::default();
    assert_eq!(d.interrupt_set().0, 0);
    assert!(e.interrupt_set().is_empty());
}

#[test]
fn widening_to_dynamic_keeps_the_mask() {
    let mut regs = InterruptRegs::reset();
    let (_cfg, mut tok) = InterruptConfiguration::<Peripheral>::new(&mut regs);
    let part = tok.split(InterruptSet(0xf0)).unwrap_or_else(|_| panic!());

    // A statically known state widens freely; the dynamic token reads and
    // clears flags like any possibly-delivering one.
    let part = part.into_dynamic();
    assert_eq!(part.interrupt_set().0, 0xf0);
    regs.ir = 0xff;
    assert_eq!(part.interrupt_flags(&regs).0, 0xf0);
}

#[test]
fn interrupt_flags_reads_only_owned_bits() {
    let mut regs = InterruptRegs::reset();
    let (mut cfg, tok) = InterruptConfiguration::<Peripheral>::new(&mut regs);
    let mut tok = cfg.enable_line_0(&mut regs, tok);

    let other = tok.split(InterruptSet(0xff00)).unwrap_or_else(|_| panic!());
    regs.ir = 0x0001_23cd;
    assert_eq!(tok.interrupt_flags(&regs).0, 0x0001_00cd);
    assert_eq!(other.interrupt_flags(&regs).0, 0x2300);
}

#[test]
fn clear_interrupts_is_masked_to_ownership() {
    let mut regs = InterruptRegs::reset();
    let (mut cfg, tok) = InterruptConfiguration::<Peripheral>::new(&mut regs);
    let mut tok = cfg.enable_line_0(&mut regs, tok);
    let small = tok.split(InterruptSet(0xff)).unwrap_or_else(|_| panic!());

    regs.ir = 0x0001_0005;
    small.clear_interrupts(&mut regs, InterruptSet(0xffff_ffff));
    // Only the owned pending bits were cleared; bit 16 belongs elsewhere.
    assert_eq!(regs.ir, 0x0001_0000);
}

#[test]
fn split_flagged_moves_exactly_the_pending_bits() {
    let mut regs = InterruptRegs::reset();
    let (mut cfg, tok) = InterruptConfiguration::<Peripheral>::new(&mut regs);
    let mut tok = cfg.enable_line_1(&mut regs, tok);

    regs.ir = 0x0000_0141;
    let flagged = tok.split_flagged(&regs);
    assert_eq!(flagged.interrupt_set().0, 0x0000_0141);
    assert_eq!(tok.interrupt_set().0, FULL & !0x0000_0141);
    // The read moved ownership only; no flag was cleared.
    assert_eq!(regs.ir, 0x0000_0141);
}
