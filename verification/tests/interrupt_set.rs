use mcan::flags::InterruptSet;
use mcan::interrupt::{Interrupt, InvalidInterruptNumber};

fn count(set: InterruptSet) -> usize {
    let mut it = set.iter();
    let mut n = 0;
    while let Some(_) = it.next() {
        n += 1;
    }
    n
}

fn iter_collect(int: u32) -> u32 {
    InterruptSet::from_iter(InterruptSet(int).iter()).0
}

#[test]
fn iter_preserves_length() {
    assert_eq!(count(InterruptSet(0)), 0);
    assert_eq!(count(InterruptSet(1)), 1);
    assert_eq!(count(InterruptSet(0x1555_5555)), 15);
    assert_eq!(count(InterruptSet(0x2aaa_aaaa)), 15);
    assert_eq!(count(InterruptSet(0x3fff_ffff)), 30);
    assert_eq!(count(InterruptSet(0xffff_ffff)), 30);
}

#[test]
fn iter_collect_preserves_interrupts() {
    assert_eq!(iter_collect(0), 0);
    assert_eq!(iter_collect(1), 1);
    assert_eq!(iter_collect(0x1555_5555), 0x1555_5555);
    assert_eq!(iter_collect(0x2aaa_aaaa), 0x2aaa_aaaa);
}

#[test]
fn iter_collect_drops_reserved_bits() {
    assert_eq!(iter_collect(0xffff_ffff), 0x3fff_ffff);
}

#[test]
fn iter_ascends_bit_positions() {
    let mut it = InterruptSet((1 << 25) | 1).iter();
    assert!(matches!(it.next(), Some(Interrupt::RxFifo0NewMessage)));
    assert!(matches!(it.next(), Some(Interrupt::BusOff)));
    assert!(matches!(it.next(), None));
}

#[test]
fn iter_skips_reserved_positions() {
    let mut it = InterruptSet(0xc000_0000).iter();
    assert!(matches!(it.next(), None));
}

#[test]
fn try_from_accepts_valid_numbers() {
    assert!(matches!(
        Interrupt::try_from(0),
        Ok(Interrupt::RxFifo0NewMessage)
    ));
    assert!(matches!(Interrupt::try_from(25), Ok(Interrupt::BusOff)));
    assert!(matches!(
        Interrupt::try_from(29),
        Ok(Interrupt::AccessToReservedAddress)
    ));
}

#[test]
fn try_from_rejects_reserved_numbers() {
    assert!(matches!(
        Interrupt::try_from(30),
        Err(InvalidInterruptNumber)
    ));
    assert!(matches!(
        Interrupt::try_from(31),
        Err(InvalidInterruptNumber)
    ));
    assert!(matches!(
        Interrupt::try_from(255),
        Err(InvalidInterruptNumber)
    ));
}

#[test]
fn number_and_mask_match_positions() {
    assert_eq!(Interrupt::RxFifo0NewMessage.number(), 0);
    assert_eq!(Interrupt::BusOff.number(), 25);
    assert_eq!(Interrupt::AccessToReservedAddress.number(), 29);
    assert_eq!(Interrupt::BusOff.mask(), 1 << 25);
    assert_eq!(Interrupt::RxFifo0NewMessage.mask(), 1);
}

#[test]
fn from_interrupt_builds_single_bit_set() {
    assert_eq!(InterruptSet::from_interrupt(Interrupt::Watchdog).0, 1 << 26);
}

#[test]
fn from_interrupts_unions_either_order() {
    let ab = InterruptSet::from_interrupts(&[Interrupt::BusOff, Interrupt::RxFifo0NewMessage]);
    let ba = InterruptSet::from_interrupts(&[Interrupt::RxFifo0NewMessage, Interrupt::BusOff]);
    assert_eq!(ab.0, (1 << 25) | 1);
    assert_eq!(ab, ba);
    assert_eq!(InterruptSet::from_interrupts(&[]).0, 0);
}

#[test]
fn contains_tests_membership() {
    let set = InterruptSet((1 << 25) | 1);
    assert!(set.contains(Interrupt::BusOff));
    assert!(set.contains(Interrupt::RxFifo0NewMessage));
    assert!(!set.contains(Interrupt::Watchdog));
}

#[test]
fn union_is_bitwise_or() {
    let a = InterruptSet(0x5);
    let b = InterruptSet(0x30);
    assert_eq!(a.union(&b).0, 0x35);
    assert_eq!(b.union(&a), a.union(&b));
}

#[test]
fn is_empty_checks_the_whole_word() {
    assert!(InterruptSet(0).is_empty());
    assert!(!InterruptSet(1).is_empty());
    assert!(!InterruptSet(0x8000_0000).is_empty());
}

#[test]
fn describe_lists_mnemonics() {
    assert_eq!(InterruptSet(0).describe(), "InterruptSet { }");
    assert_eq!(InterruptSet(1).describe(), "InterruptSet { RF0N }");
    assert_eq!(
        InterruptSet((1 << 25) | 1).describe(),
        "InterruptSet { BO RF0N }"
    );
    assert_eq!(InterruptSet(0xc000_0000).describe(), "InterruptSet { }");
    assert_eq!(
        InterruptSet(0x7).describe(),
        "InterruptSet { RF0F RF0W RF0N }"
    );
}
