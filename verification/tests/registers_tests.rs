//! Register file tests: index registers and status flags.

use s1130_core::cpu::{IndexRegisters, StatusFlags};

#[test]
fn test_index_registers_new() {
    let xr = IndexRegisters::new();
    assert_eq!(xr.xr1, 0);
    assert_eq!(xr.xr2, 0);
    assert_eq!(xr.xr3, 0);
}

#[test]
fn test_index_register_get() {
    let mut xr = IndexRegisters::new();
    xr.xr1 = 0x1111;
    xr.xr2 = 0x2222;
    xr.xr3 = 0x3333;

    assert_eq!(xr.get(1), 0x1111);
    assert_eq!(xr.get(2), 0x2222);
    assert_eq!(xr.get(3), 0x3333);
    assert_eq!(xr.get(0), 0);
    assert_eq!(xr.get(4), 0);
}

#[test]
fn test_index_register_set() {
    let mut xr = IndexRegisters::new();

    xr.set(1, 0xABCD);
    assert_eq!(xr.xr1, 0xABCD);

    xr.set(2, 0x1234);
    assert_eq!(xr.xr2, 0x1234);

    xr.set(3, 0x5678);
    assert_eq!(xr.xr3, 0x5678);

    xr.set(0, 0xFFFF);
    xr.set(4, 0xFFFF);
    assert_eq!(xr.xr1, 0xABCD);
}

#[test]
fn test_index_registers_reset() {
    let mut xr = IndexRegisters::new();
    xr.xr1 = 0x1111;
    xr.xr2 = 0x2222;
    xr.xr3 = 0x3333;

    xr.reset();

    assert_eq!(xr.xr1, 0);
    assert_eq!(xr.xr2, 0);
    assert_eq!(xr.xr3, 0);
}

#[test]
fn test_status_flags_new() {
    let flags = StatusFlags::new();
    assert!(!flags.carry);
    assert!(!flags.overflow);
    assert!(!flags.wait);
}

#[test]
fn test_status_flags_reset() {
    let mut flags = StatusFlags::new();
    flags.carry = true;
    flags.overflow = true;
    flags.wait = true;

    flags.reset();

    assert!(!flags.carry);
    assert!(!flags.overflow);
    assert!(!flags.wait);
}

#[test]
fn test_status_flags_to_word() {
    let mut flags = StatusFlags::new();
    assert_eq!(flags.to_word(), 0x0000);

    flags.carry = true;
    assert_eq!(flags.to_word(), 0x8000);

    flags.overflow = true;
    assert_eq!(flags.to_word(), 0xC000);
}

#[test]
fn test_status_flags_from_word() {
    let flags = StatusFlags::from_word(0x0000);
    assert!(!flags.carry);
    assert!(!flags.overflow);

    let flags = StatusFlags::from_word(0x8000);
    assert!(flags.carry);
    assert!(!flags.overflow);

    let flags = StatusFlags::from_word(0xC000);
    assert!(flags.carry);
    assert!(flags.overflow);
}
