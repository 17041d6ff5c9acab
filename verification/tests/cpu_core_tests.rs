//! Processor core tests: registers, flags, fetch, decode, effective
//! addresses, stepping and running.

use s1130_core::{Cpu, CpuError, OpCode};

#[test]
fn test_cpu_new() {
    let cpu = Cpu::new();
    assert_eq!(cpu.get_acc(), 0);
    assert_eq!(cpu.get_ext(), 0);
    assert_eq!(cpu.get_iar(), 0);
    assert!(!cpu.get_carry());
    assert!(!cpu.get_overflow());
    assert!(!cpu.get_wait());
}

#[test]
fn test_accumulator_operations() {
    let mut cpu = Cpu::new();
    cpu.set_acc(0x1234);
    assert_eq!(cpu.get_acc(), 0x1234);
}

#[test]
fn test_extension_register_operations() {
    let mut cpu = Cpu::new();
    cpu.set_ext(0x5678);
    assert_eq!(cpu.get_ext(), 0x5678);
}

#[test]
fn test_acc_ext_combined() {
    let mut cpu = Cpu::new();
    cpu.set_acc_ext(0x12345678);
    assert_eq!(cpu.get_acc(), 0x1234);
    assert_eq!(cpu.get_ext(), 0x5678);
    assert_eq!(cpu.get_acc_ext(), 0x12345678);
}

#[test]
fn test_iar_operations() {
    let mut cpu = Cpu::new();
    cpu.set_iar(0x0100);
    assert_eq!(cpu.get_iar(), 0x0100);

    cpu.increment_iar(2);
    assert_eq!(cpu.get_iar(), 0x0102);
}

#[test]
fn mod_test_index_registers() {
    let mut cpu = Cpu::new();

    cpu.set_index_register(1, 0x1111);
    cpu.set_index_register(2, 0x2222);
    cpu.set_index_register(3, 0x3333);

    assert_eq!(cpu.get_index_register(1), 0x1111);
    assert_eq!(cpu.get_index_register(2), 0x2222);
    assert_eq!(cpu.get_index_register(3), 0x3333);
}

#[test]
fn test_status_flags() {
    let mut cpu = Cpu::new();

    cpu.set_carry(true);
    assert!(cpu.get_carry());

    cpu.set_overflow(true);
    assert!(cpu.get_overflow());

    cpu.set_wait(true);
    assert!(cpu.get_wait());
}

#[test]
fn test_memory_operations() {
    let mut cpu = Cpu::new();
    cpu.write_memory(0x100, 0x1234).unwrap();
    assert_eq!(cpu.read_memory(0x100).unwrap(), 0x1234);
}

#[test]
fn mod_test_memory_bounds_check() {
    let cpu = Cpu::new();
    let result = cpu.read_memory(0x10000);
    assert!(result.is_err());
}

#[test]
fn mod_test_memory_mapped_index_registers() {
    let mut cpu = Cpu::new();

    cpu.write_memory(0x0001, 0xABCD).unwrap();
    assert_eq!(cpu.index_registers.xr1, 0xABCD);
    assert_eq!(cpu.read_memory(0x0001).unwrap(), 0xABCD);

    cpu.set_index_register(2, 0x1234);
    assert_eq!(cpu.read_memory(0x0002).unwrap(), 0x1234);
}

#[test]
fn mod_test_reset() {
    let mut cpu = Cpu::new();
    cpu.set_acc(0x1234);
    cpu.set_iar(0x0100);
    cpu.set_carry(true);
    cpu.write_memory(0x200, 0xABCD).unwrap();
    cpu.instruction_count = 42;

    cpu.reset();

    assert_eq!(cpu.get_acc(), 0);
    assert_eq!(cpu.get_iar(), 0);
    assert!(!cpu.get_carry());
    assert_eq!(cpu.instruction_count, 0);

    assert_eq!(cpu.read_memory(0x200).unwrap(), 0xABCD);
}

#[test]
fn test_instruction_count() {
    let mut cpu = Cpu::new();
    assert_eq!(cpu.get_instruction_count(), 0);

    cpu.increment_instruction_count();
    assert_eq!(cpu.get_instruction_count(), 1);

    cpu.increment_instruction_count();
    assert_eq!(cpu.get_instruction_count(), 2);
}

#[test]
fn test_fetch_instruction_short_format() {
    let mut cpu = Cpu::new();
    cpu.set_iar(0x0100);

    cpu.write_memory(0x0100, 0xB000).unwrap();

    let (word1, word2) = cpu.fetch_instruction().unwrap();
    assert_eq!(word1, 0xB000);
    assert_eq!(word2, None);
}

#[test]
fn test_fetch_instruction_long_format() {
    let mut cpu = Cpu::new();
    cpu.set_iar(0x0100);

    cpu.write_memory(0x0100, 0x6000).unwrap();
    cpu.write_memory(0x0101, 0x1234).unwrap();

    let (word1, word2) = cpu.fetch_instruction().unwrap();
    assert_eq!(word1, 0x6000);
    assert_eq!(word2, Some(0x1234));
}

#[test]
fn test_fetch_and_decode() {
    let mut cpu = Cpu::new();
    cpu.set_iar(0x0100);

    cpu.write_memory(0x0100, 0x6000).unwrap();
    cpu.write_memory(0x0101, 0x5678).unwrap();

    let instr = cpu.fetch_and_decode().unwrap();
    assert_eq!(instr.opcode, OpCode::LD);
    assert_eq!(instr.displacement, 0x5678);
}

#[test]
fn test_calculate_effective_address() {
    let mut cpu = Cpu::new();
    cpu.set_iar(0x0100);

    cpu.write_memory(0x0100, 0x6040).unwrap();
    cpu.write_memory(0x0101, 0x0200).unwrap();

    cpu.set_index_register(1, 0x0050);

    let mut instr = cpu.fetch_and_decode().unwrap();
    let ea = cpu.calculate_effective_address(&mut instr).unwrap();

    assert_eq!(ea, 0x0250);
}

#[test]
fn test_step_wait_instruction() {
    let mut cpu = Cpu::new();
    cpu.set_iar(0x0100);

    cpu.write_memory(0x0100, 0xB000).unwrap();

    let result = cpu.step();
    assert!(result.is_ok());

    assert!(cpu.get_wait());

    assert_eq!(cpu.get_iar(), 0x0101);

    assert_eq!(cpu.get_instruction_count(), 1);

    let result = cpu.step();
    assert!(result.is_err());
    match result {
        Err(CpuError::WaitState) => {}
        _ => panic!("Expected WaitState error"),
    }
}

#[test]
fn test_run_until_wait() {
    let mut cpu = Cpu::new();
    cpu.set_iar(0x0100);

    cpu.write_memory(0x0100, 0xB000).unwrap();
    cpu.write_memory(0x0101, 0xB000).unwrap();
    cpu.write_memory(0x0102, 0xB000).unwrap();

    let steps = cpu.run(10);
    assert_eq!(steps, 1);
    assert!(cpu.get_wait());
}

#[test]
fn test_fetch_instruction_invalid_opcode() {
    let mut cpu = Cpu::new();
    cpu.set_iar(0x0100);

    cpu.write_memory(0x0100, 0xFF00).unwrap();

    let result = cpu.fetch_instruction();
    assert!(result.is_err());
}
