//! Binary-program tests: small instruction sequences loaded into memory
//! and executed, checking the observable state afterwards.

use s1130_core::Cpu;

#[test]
fn test_single_wait_instruction() {
    let mut cpu = Cpu::new();
    cpu.write_memory_range(0x0100, &[0xB000]).unwrap();
    cpu.set_iar(0x0100);

    cpu.run(10);

    let state = cpu.get_state();
    assert!(state.wait, "CPU should be in wait state");
    assert_eq!(state.iar, 0x0101, "IAR should advance by 1");
    assert_eq!(state.instruction_count, 1, "Should execute 1 instruction");
}

#[test]
fn test_wait_with_initial_acc() {
    let mut cpu = Cpu::new();
    cpu.set_acc(0x1234);
    cpu.set_ext(0x5678);
    cpu.write_memory_range(0x0200, &[0xB000]).unwrap();
    cpu.set_iar(0x0200);

    cpu.run(10);

    let state = cpu.get_state();
    assert!(state.wait);
    assert_eq!(state.acc, 0x1234, "ACC should be preserved");
    assert_eq!(state.ext, 0x5678, "EXT should be preserved");
}

#[test]
fn test_wait_with_index_registers() {
    let mut cpu = Cpu::new();
    cpu.set_index_register(1, 0x1111);
    cpu.set_index_register(2, 0x2222);
    cpu.set_index_register(3, 0x3333);
    cpu.write_memory_range(0x0100, &[0xB000]).unwrap();
    cpu.set_iar(0x0100);

    cpu.run(10);

    let state = cpu.get_state();
    assert!(state.wait);
    assert_eq!(state.xr1, 0x1111, "XR1 should be preserved");
    assert_eq!(state.xr2, 0x2222, "XR2 should be preserved");
    assert_eq!(state.xr3, 0x3333, "XR3 should be preserved");
}

#[test]
fn test_wait_with_flags() {
    let mut cpu = Cpu::new();
    cpu.set_carry(true);
    cpu.set_overflow(true);
    cpu.write_memory_range(0x0100, &[0xB000]).unwrap();
    cpu.set_iar(0x0100);

    cpu.run(10);

    let state = cpu.get_state();
    assert!(state.wait);
    assert!(state.carry, "Carry flag should be preserved");
    assert!(state.overflow, "Overflow flag should be preserved");
}

#[test]
fn test_deck_at_different_addresses() {
    let test_addresses = [0x0000u16, 0x0100, 0x1000, 0x7FFF];

    for &addr in &test_addresses {
        let mut cpu = Cpu::new();
        cpu.write_memory_range(addr as usize, &[0xB000]).unwrap();
        cpu.set_iar(addr);

        cpu.run(10);

        let state = cpu.get_state();
        assert!(state.wait);
        assert_eq!(
            state.iar,
            addr.wrapping_add(1),
            "IAR should advance from address {:#06x}",
            addr
        );
    }
}

#[test]
fn test_instruction_deck_format() {
    let mut cpu = Cpu::new();
    cpu.write_memory_range(0x0100, &[0xB000, 0x6000, 0x1234, 0xB000])
        .unwrap();
    cpu.set_iar(0x0100);

    cpu.run(1);

    let state = cpu.get_state();
    assert!(state.wait);
    assert_eq!(state.iar, 0x0101);
}

#[test]
fn test_empty_deck() {
    let mut cpu = Cpu::new();
    cpu.set_iar(0x0100);

    let result = cpu.step();

    assert!(result.is_err());
}

#[test]
fn test_memory_mapped_registers_in_deck() {
    let mut cpu = Cpu::new();
    cpu.write_memory(0x0001, 0xAAAA).unwrap();
    cpu.write_memory(0x0002, 0xBBBB).unwrap();
    cpu.write_memory(0x0003, 0xCCCC).unwrap();
    cpu.write_memory_range(0x0100, &[0xB000]).unwrap();
    cpu.set_iar(0x0100);

    cpu.run(10);

    let state = cpu.get_state();
    assert!(state.wait);
    assert_eq!(state.xr1, 0xAAAA, "XR1 via memory-mapped location");
    assert_eq!(state.xr2, 0xBBBB, "XR2 via memory-mapped location");
    assert_eq!(state.xr3, 0xCCCC, "XR3 via memory-mapped location");
}

#[test]
fn test_instruction_counting() {
    let mut cpu = Cpu::new();
    cpu.write_memory_range(0x0100, &[0xB000]).unwrap();
    cpu.set_iar(0x0100);

    cpu.run(10);

    let state = cpu.get_state();
    assert_eq!(state.instruction_count, 1, "Should count 1 instruction");
}
