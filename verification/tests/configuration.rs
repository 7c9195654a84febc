use mcan::config::{InterruptConfiguration, InterruptLine};
use mcan::flags::InterruptSet;
use mcan::regs::InterruptRegs;

struct Peripheral;

const FULL: u32 = 0x3fff_ffff;

#[test]
fn bring_up_resets_routing_and_hands_out_the_full_mask() {
    let mut regs = InterruptRegs::reset();
    regs.ils = 0x1234;
    let (_cfg, tok) = InterruptConfiguration::<Peripheral>::new(&mut regs);
    assert_eq!(regs.ils, 0);
    assert_eq!(regs.ie, 0);
    assert_eq!(regs.ile, 0);
    assert_eq!(tok.interrupt_set().0, FULL);
}

#[test]
fn enable_line_0_routes_enables_and_sets_flags() {
    let mut regs = InterruptRegs::reset();
    let (mut cfg, mut tok) = InterruptConfiguration::<Peripheral>::new(&mut regs);
    let part = tok.split(InterruptSet(0xff)).unwrap_or_else(|_| panic!());

    let part = cfg.enable_line_0(&mut regs, part);
    assert_eq!(regs.ils & 0xff, 0);
    assert_eq!(regs.ile & 0x1, 0x1);
    assert_eq!(regs.ie, 0xff);
    assert_eq!(part.interrupt_set().0, 0xff);
}

#[test]
fn switching_lines_keeps_flags_enabled_throughout() {
    let mut regs = InterruptRegs::reset();
    let (mut cfg, mut tok) = InterruptConfiguration::<Peripheral>::new(&mut regs);
    let part = tok.split(InterruptSet(0x3c)).unwrap_or_else(|_| panic!());

    let part = cfg.enable_line_0(&mut regs, part);
    assert_eq!(regs.ie & 0x3c, 0x3c);
    let part = cfg.enable_line_1(&mut regs, part);
    // The bits are now fully routed to line 1 and never stopped delivering.
    assert_eq!(regs.ils & 0x3c, 0x3c);
    assert_eq!(regs.ie & 0x3c, 0x3c);
    assert_eq!(regs.ile & 0x2, 0x2);
    assert_eq!(part.interrupt_set().0, 0x3c);
}

#[test]
fn enable_picks_the_line_at_run_time() {
    let mut regs = InterruptRegs::reset();
    let (mut cfg, mut tok) = InterruptConfiguration::<Peripheral>::new(&mut regs);
    let part = tok.split(InterruptSet(0xf)).unwrap_or_else(|_| panic!());

    let part = cfg.enable(&mut regs, part, InterruptLine::Line1);
    assert_eq!(regs.ils & 0xf, 0xf);
    assert_eq!(regs.ile & 0x2, 0x2);
    assert_eq!(regs.ie & 0xf, 0xf);

    let part = cfg.enable(&mut regs, part, InterruptLine::Line0);
    assert_eq!(regs.ils & 0xf, 0);
    assert_eq!(regs.ile, 0x3);
    assert_eq!(part.interrupt_set().0, 0xf);
}

#[test]
fn disable_clears_only_the_owned_enable_bits() {
    let mut regs = InterruptRegs::reset();
    let (mut cfg, mut tok) = InterruptConfiguration::<Peripheral>::new(&mut regs);
    let a = tok.split(InterruptSet(0xff)).unwrap_or_else(|_| panic!());
    let b = tok.split(InterruptSet(0xff00)).unwrap_or_else(|_| panic!());

    let a = cfg.enable_line_0(&mut regs, a);
    let _b = cfg.enable_line_0(&mut regs, b);
    assert_eq!(regs.ie, 0xffff);

    let a = cfg.disable(&mut regs, a);
    assert_eq!(regs.ie, 0xff00);
    assert_eq!(a.interrupt_set().0, 0xff);
}

#[test]
fn disabled_bits_never_show_in_a_disjoint_read() {
    let mut regs = InterruptRegs::reset();
    let (mut cfg, mut tok) = InterruptConfiguration::<Peripheral>::new(&mut regs);
    let a = tok.split(InterruptSet(0xff)).unwrap_or_else(|_| panic!());
    let b = tok.split(InterruptSet(0xff00)).unwrap_or_else(|_| panic!());

    let a = cfg.enable_line_0(&mut regs, a);
    let b = cfg.enable_line_1(&mut regs, b);
    let _a = cfg.disable(&mut regs, a);

    // Both tokens' flags are pending in hardware, a's in spite of being
    // disabled (for instance left over from before the disable).
    regs.ir = 0x04ff;
    let seen = b.interrupt_flags(&regs);
    assert_eq!(seen.0 & 0xff, 0);
    assert_eq!(seen.0, 0x0400);
}

#[test]
fn iter_flagged_clears_exactly_what_it_returns() {
    let mut regs = InterruptRegs::reset();
    let (mut cfg, mut tok) = InterruptConfiguration::<Peripheral>::new(&mut regs);
    let part = tok.split(InterruptSet(0xff)).unwrap_or_else(|_| panic!());
    let part = cfg.enable_line_0(&mut regs, part);

    regs.ir = 0x0000_0105;
    let it = part.iter_flagged(&mut regs);
    let returned = InterruptSet::from_iter(it);
    assert_eq!(returned.0, 0x05);
    // Exactly the returned flags are gone; the unowned bit 8 is untouched.
    assert_eq!(regs.ir, 0x0100);
    // A second immediate read through the same token is empty.
    assert!(part.interrupt_flags(&regs).is_empty());
}
