//! Per-instruction execution tests: each handler's effect on registers,
//! memory and flags.

use s1130_core::Cpu;

#[test]
fn test_ld_basic() {
    let mut cpu = Cpu::new();
    cpu.set_iar(0x0100);

    cpu.write_memory(0x0100, 0x6000).unwrap();
    cpu.write_memory(0x0101, 0x0200).unwrap();
    cpu.write_memory(0x0200, 0x1234).unwrap();

    cpu.step().unwrap();

    assert_eq!(cpu.get_acc(), 0x1234);
    assert_eq!(cpu.get_iar(), 0x0102);
}

#[test]
fn test_ldd_basic() {
    let mut cpu = Cpu::new();
    cpu.set_iar(0x0100);

    cpu.write_memory(0x0100, 0x6800).unwrap();
    cpu.write_memory(0x0101, 0x0200).unwrap();
    cpu.write_memory(0x0200, 0x1234).unwrap();
    cpu.write_memory(0x0201, 0x5678).unwrap();

    cpu.step().unwrap();

    assert_eq!(cpu.get_acc(), 0x1234);
    assert_eq!(cpu.get_ext(), 0x5678);
}

#[test]
fn test_sto_basic() {
    let mut cpu = Cpu::new();
    cpu.set_iar(0x0100);
    cpu.set_acc(0xABCD);

    cpu.write_memory(0x0100, 0x7000).unwrap();
    cpu.write_memory(0x0101, 0x0200).unwrap();

    cpu.step().unwrap();

    assert_eq!(cpu.read_memory(0x0200).unwrap(), 0xABCD);
}

#[test]
fn test_std_basic() {
    let mut cpu = Cpu::new();
    cpu.set_iar(0x0100);
    cpu.set_acc(0x1111);
    cpu.set_ext(0x2222);

    cpu.write_memory(0x0100, 0x7800).unwrap();
    cpu.write_memory(0x0101, 0x0200).unwrap();

    cpu.step().unwrap();

    assert_eq!(cpu.read_memory(0x0200).unwrap(), 0x1111);
    assert_eq!(cpu.read_memory(0x0201).unwrap(), 0x2222);
}

#[test]
fn test_add_positive() {
    let mut cpu = Cpu::new();
    cpu.set_iar(0x0100);
    cpu.set_acc(100);

    cpu.write_memory(0x0100, 0xE000).unwrap();
    cpu.write_memory(0x0101, 0x0200).unwrap();
    cpu.write_memory(0x0200, 50).unwrap();

    cpu.step().unwrap();

    assert_eq!(cpu.get_acc(), 150);
    assert!(!cpu.get_carry());
    assert!(!cpu.get_overflow());
}

#[test]
fn test_add_with_carry() {
    let mut cpu = Cpu::new();
    cpu.set_iar(0x0100);
    cpu.set_acc(0xFFFF);

    cpu.write_memory(0x0100, 0xE000).unwrap();
    cpu.write_memory(0x0101, 0x0200).unwrap();
    cpu.write_memory(0x0200, 1).unwrap();

    cpu.step().unwrap();

    assert_eq!(cpu.get_acc(), 0);
    assert!(cpu.get_carry());
}

#[test]
fn test_add_overflow() {
    let mut cpu = Cpu::new();
    cpu.set_iar(0x0100);
    cpu.set_acc(0x7FFF);

    cpu.write_memory(0x0100, 0xE000).unwrap();
    cpu.write_memory(0x0101, 0x0200).unwrap();
    cpu.write_memory(0x0200, 1).unwrap();

    cpu.step().unwrap();

    assert_eq!(cpu.get_acc() as i16, -32768);
    assert!(cpu.get_overflow());
}

#[test]
fn test_subtract_basic() {
    let mut cpu = Cpu::new();
    cpu.set_iar(0x0100);
    cpu.set_acc(100);

    cpu.write_memory(0x0100, 0xC000).unwrap();
    cpu.write_memory(0x0101, 0x0200).unwrap();
    cpu.write_memory(0x0200, 30).unwrap();

    cpu.step().unwrap();

    assert_eq!(cpu.get_acc(), 70);
    assert!(!cpu.get_carry());
}

#[test]
fn test_subtract_with_borrow() {
    let mut cpu = Cpu::new();
    cpu.set_iar(0x0100);
    cpu.set_acc(10);

    cpu.write_memory(0x0100, 0xC000).unwrap();
    cpu.write_memory(0x0101, 0x0200).unwrap();
    cpu.write_memory(0x0200, 20).unwrap();

    cpu.step().unwrap();

    assert_eq!(cpu.get_acc() as i16, -10);
    assert!(cpu.get_carry());
}

#[test]
fn test_multiply_basic() {
    let mut cpu = Cpu::new();
    cpu.set_iar(0x0100);
    cpu.set_acc(12);

    cpu.write_memory(0x0100, 0xF000).unwrap();
    cpu.write_memory(0x0101, 0x0200).unwrap();
    cpu.write_memory(0x0200, 5).unwrap();

    cpu.step().unwrap();

    assert_eq!(cpu.get_acc_ext(), 60);
}

#[test]
fn test_multiply_negative() {
    let mut cpu = Cpu::new();
    cpu.set_iar(0x0100);
    cpu.set_acc((-10i16) as u16);

    cpu.write_memory(0x0100, 0xF000).unwrap();
    cpu.write_memory(0x0101, 0x0200).unwrap();
    cpu.write_memory(0x0200, 3).unwrap();

    cpu.step().unwrap();

    assert_eq!(cpu.get_acc_ext() as i32, -30);
}

#[test]
fn test_divide_basic() {
    let mut cpu = Cpu::new();
    cpu.set_iar(0x0100);
    cpu.set_acc_ext(100);

    cpu.write_memory(0x0100, 0xF800).unwrap();
    cpu.write_memory(0x0101, 0x0200).unwrap();
    cpu.write_memory(0x0200, 7).unwrap();

    cpu.step().unwrap();

    assert_eq!(cpu.get_acc(), 14);
    assert_eq!(cpu.get_ext(), 2);
    assert!(!cpu.get_overflow());
}

#[test]
fn test_divide_by_zero() {
    let mut cpu = Cpu::new();
    cpu.set_iar(0x0100);
    cpu.set_acc_ext(100);

    cpu.write_memory(0x0100, 0xF800).unwrap();
    cpu.write_memory(0x0101, 0x0200).unwrap();
    cpu.write_memory(0x0200, 0).unwrap();

    cpu.step().unwrap();

    assert!(cpu.get_overflow());
}

#[test]
fn test_add_double() {
    let mut cpu = Cpu::new();
    cpu.set_iar(0x0100);
    cpu.set_acc_ext(1000);

    cpu.write_memory(0x0100, 0xE800).unwrap();
    cpu.write_memory(0x0101, 0x0200).unwrap();
    cpu.write_memory(0x0200, 0).unwrap();
    cpu.write_memory(0x0201, 500).unwrap();

    cpu.step().unwrap();

    assert_eq!(cpu.get_acc_ext(), 1500);
}

#[test]
fn test_subtract_double() {
    let mut cpu = Cpu::new();
    cpu.set_iar(0x0100);
    cpu.set_acc_ext(1000);

    cpu.write_memory(0x0100, 0xC800).unwrap();
    cpu.write_memory(0x0101, 0x0200).unwrap();
    cpu.write_memory(0x0200, 0).unwrap();
    cpu.write_memory(0x0201, 300).unwrap();

    cpu.step().unwrap();

    assert_eq!(cpu.get_acc_ext(), 700);
}

#[test]
fn test_and_basic() {
    let mut cpu = Cpu::new();
    cpu.set_iar(0x0100);
    cpu.set_acc(0b1111_0000_1111_0000);

    cpu.write_memory(0x0100, 0x8000).unwrap();
    cpu.write_memory(0x0101, 0x0200).unwrap();
    cpu.write_memory(0x0200, 0b1010_1010_1010_1010).unwrap();

    cpu.step().unwrap();

    assert_eq!(cpu.get_acc(), 0b1010_0000_1010_0000);
}

#[test]
fn test_or_basic() {
    let mut cpu = Cpu::new();
    cpu.set_iar(0x0100);
    cpu.set_acc(0b1111_0000_0000_0000);

    cpu.write_memory(0x0100, 0x9000).unwrap();
    cpu.write_memory(0x0101, 0x0200).unwrap();
    cpu.write_memory(0x0200, 0b0000_1111_0000_0000).unwrap();

    cpu.step().unwrap();

    assert_eq!(cpu.get_acc(), 0b1111_1111_0000_0000);
}

#[test]
fn test_eor_basic() {
    let mut cpu = Cpu::new();
    cpu.set_iar(0x0100);
    cpu.set_acc(0b1111_0000_1111_0000);

    cpu.write_memory(0x0100, 0x9800).unwrap();
    cpu.write_memory(0x0101, 0x0200).unwrap();
    cpu.write_memory(0x0200, 0b1111_1111_0000_0000).unwrap();

    cpu.step().unwrap();

    assert_eq!(cpu.get_acc(), 0b0000_1111_1111_0000);
}

#[test]
fn test_sla_basic() {
    let mut cpu = Cpu::new();
    cpu.set_iar(0x0100);
    cpu.set_acc(0b0000_0001_0000_0000);

    cpu.write_memory(0x0100, 0x2004).unwrap();

    cpu.step().unwrap();

    assert_eq!(cpu.get_acc(), 0b0001_0000_0000_0000);
}

#[test]
fn test_sla_carry() {
    let mut cpu = Cpu::new();
    cpu.set_iar(0x0100);
    cpu.set_acc(0b1000_0000_0000_0000);

    cpu.write_memory(0x0100, 0x2001).unwrap();

    cpu.step().unwrap();

    assert!(cpu.get_carry());
}

#[test]
fn test_sra_basic() {
    let mut cpu = Cpu::new();
    cpu.set_iar(0x0100);
    cpu.set_acc(0b0001_0000_0000_0000);

    cpu.write_memory(0x0100, 0x3004).unwrap();

    cpu.step().unwrap();

    assert_eq!(cpu.get_acc(), 0b0000_0001_0000_0000);
}

#[test]
fn test_sra_sign_extend() {
    let mut cpu = Cpu::new();
    cpu.set_iar(0x0100);
    cpu.set_acc(0b1000_0000_0000_0000);

    cpu.write_memory(0x0100, 0x3001).unwrap();

    cpu.step().unwrap();

    assert_eq!(cpu.get_acc(), 0b1100_0000_0000_0000);
}

#[test]
fn test_slca_basic() {
    let mut cpu = Cpu::new();
    cpu.set_iar(0x0100);
    cpu.set_acc(0x0001);
    cpu.set_ext(0x0000);

    cpu.write_memory(0x0100, 0x2808).unwrap();

    cpu.step().unwrap();

    assert_eq!(cpu.get_acc(), 0x0100);
    assert_eq!(cpu.get_ext(), 0x0000);
}

#[test]
fn test_srt_basic() {
    let mut cpu = Cpu::new();
    cpu.set_iar(0x0100);
    cpu.set_acc(0x1234);
    cpu.set_ext(0x5678);

    cpu.write_memory(0x0100, 0x3808).unwrap();

    cpu.step().unwrap();

    assert_eq!(cpu.get_acc_ext(), 0x00123456);
}

#[test]
fn test_bsi_basic() {
    let mut cpu = Cpu::new();
    cpu.set_iar(0x0100);

    cpu.write_memory(0x0100, 0x4800).unwrap();
    cpu.write_memory(0x0101, 0x0300).unwrap();

    cpu.step().unwrap();

    assert_eq!(cpu.read_memory(0x0300).unwrap(), 0x0102);
    assert_eq!(cpu.get_iar(), 0x0301);
}

#[test]
fn test_bc_unconditional() {
    let mut cpu = Cpu::new();
    cpu.set_iar(0x0100);

    cpu.write_memory(0x0100, 0x4020 | 0x0010).unwrap();
    cpu.write_memory(0x0010, 0x0500).unwrap();

    cpu.step().unwrap();

    assert_eq!(cpu.get_iar(), 0x0500);
}

#[test]
fn test_bc_carry_true() {
    let mut cpu = Cpu::new();
    cpu.set_iar(0x0100);
    cpu.set_carry(true);

    cpu.write_memory(0x0100, 0x4060 | 0x0010).unwrap();
    cpu.write_memory(0x0010, 0x0500).unwrap();

    cpu.step().unwrap();

    assert_eq!(cpu.get_iar(), 0x0500);
}

#[test]
fn test_bc_carry_false() {
    let mut cpu = Cpu::new();
    cpu.set_iar(0x0100);
    cpu.set_carry(false);

    cpu.write_memory(0x0100, 0x4060 | 0x0010).unwrap();
    cpu.write_memory(0x0010, 0x0500).unwrap();

    cpu.step().unwrap();

    assert_eq!(cpu.get_iar(), 0x0101);
}

#[test]
fn test_ldx_basic() {
    let mut cpu = Cpu::new();
    cpu.set_iar(0x0100);

    cpu.write_memory(0x0100, 0x7440).unwrap();
    cpu.write_memory(0x0101, 0x0200).unwrap();
    cpu.write_memory(0x0200, 0x5555).unwrap();

    cpu.step().unwrap();

    assert_eq!(cpu.get_index_register(1), 0x5555);
}

#[test]
fn test_stx_basic() {
    let mut cpu = Cpu::new();
    cpu.set_iar(0x0100);
    cpu.set_index_register(2, 0x9999);

    cpu.write_memory(0x0100, 0x5480).unwrap();
    cpu.write_memory(0x0101, 0x0200).unwrap();

    cpu.step().unwrap();

    assert_eq!(cpu.read_memory(0x0200).unwrap(), 0x9999);
}

#[test]
fn test_mdx_no_skip() {
    let mut cpu = Cpu::new();
    cpu.set_iar(0x0100);
    cpu.set_index_register(1, 10);

    cpu.write_memory(0x0100, 0x5840).unwrap();
    cpu.write_memory(0x0101, 0x0200).unwrap();
    cpu.write_memory(0x0102, 0xB000).unwrap();
    cpu.write_memory(0x0200, 5).unwrap();

    cpu.step().unwrap();

    assert_eq!(cpu.get_index_register(1), 15);
    assert_eq!(cpu.get_iar(), 0x0102);
}

#[test]
fn test_mdx_with_skip() {
    let mut cpu = Cpu::new();
    cpu.set_iar(0x0100);
    cpu.set_index_register(1, 5);

    cpu.write_memory(0x0100, 0x5840).unwrap();
    cpu.write_memory(0x0101, 0x0200).unwrap();
    cpu.write_memory(0x0102, 0xB000).unwrap();
    cpu.write_memory(0x0103, 0xB000).unwrap();
    cpu.write_memory(0x0200, (-5i16) as u16).unwrap();

    cpu.step().unwrap();

    assert_eq!(cpu.get_index_register(1), 0);
    assert_eq!(cpu.get_iar(), 0x0103);
}

#[test]
fn test_lds_basic() {
    let mut cpu = Cpu::new();
    cpu.set_iar(0x0100);

    // LDS is one word; the status word at 0x0200 is reached through the
    // indirect pointer in low memory.
    cpu.write_memory(0x0100, 0xC430).unwrap();
    cpu.write_memory(0x0010, 0x0200).unwrap();
    cpu.write_memory(0x0200, 0xC000).unwrap();

    cpu.step().unwrap();

    assert!(cpu.get_carry());
    assert!(cpu.get_overflow());
}

#[test]
fn test_sts_basic() {
    let mut cpu = Cpu::new();
    cpu.set_iar(0x0100);
    cpu.set_carry(true);
    cpu.set_overflow(false);

    // STS is one word; the target cell at 0x0200 is reached through the
    // indirect pointer in low memory.
    cpu.write_memory(0x0100, 0xCC30).unwrap();
    cpu.write_memory(0x0010, 0x0200).unwrap();

    cpu.step().unwrap();

    let status_word = cpu.read_memory(0x0200).unwrap();
    assert_eq!(status_word & 0x8000, 0x8000);
    assert_eq!(status_word & 0x4000, 0);
}
