//! State snapshot tests.

use s1130_core::{Cpu, CpuState};

#[test]
fn test_cpu_state_new() {
    let state = CpuState::new();
    assert_eq!(state.acc, 0);
    assert_eq!(state.ext, 0);
    assert_eq!(state.iar, 0);
    assert!(!state.carry);
    assert!(!state.overflow);
    assert!(!state.wait);
    assert_eq!(state.instruction_count, 0);
    assert_eq!(state.current_interrupt_level, None);
}

#[test]
fn test_cpu_state_acc_ext() {
    let mut state = CpuState::new();
    state.acc = 0x1234;
    state.ext = 0x5678;
    assert_eq!(state.acc_ext(), 0x12345678);
}

#[test]
fn test_cpu_state_is_halted() {
    let mut state = CpuState::new();
    assert!(!state.is_halted());

    state.wait = true;
    assert!(state.is_halted());
}

#[test]
fn test_cpu_state_has_status_flags() {
    let mut state = CpuState::new();
    assert!(!state.has_status_flags());

    state.carry = true;
    assert!(state.has_status_flags());

    state.carry = false;
    state.overflow = true;
    assert!(state.has_status_flags());

    state.overflow = false;
    assert!(!state.has_status_flags());
}

#[test]
fn test_get_state() {
    let mut cpu = Cpu::new();
    cpu.set_acc(0x1234);
    cpu.set_ext(0x5678);
    cpu.set_iar(0x0100);
    cpu.set_carry(true);
    cpu.set_index_register(1, 0xAAAA);

    let state = cpu.get_state();
    assert_eq!(state.acc, 0x1234);
    assert_eq!(state.ext, 0x5678);
    assert_eq!(state.iar, 0x0100);
    assert!(state.carry);
    assert_eq!(state.xr1, 0xAAAA);
}

#[test]
fn test_cpu_with_custom_memory_size() {
    let cpu = Cpu::with_memory_size(8192);
    let state = cpu.get_state();
    assert_eq!(state.acc, 0);
}
