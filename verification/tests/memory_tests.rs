//! Word memory tests: bounds-checked reads and writes, ranges, clearing
//! and slices.

use s1130_core::cpu::Memory;
use s1130_core::CpuError;

#[test]
fn test_memory_new() {
    let mem = Memory::new();
    assert_eq!(mem.size(), 32768);
}

#[test]
fn test_memory_with_size() {
    let mem = Memory::with_size(8192);
    assert_eq!(mem.size(), 8192);
}

#[test]
fn memory_test_memory_read_write() {
    let mut mem = Memory::new();
    mem.write(0x100, 0x1234).unwrap();
    assert_eq!(mem.read(0x100).unwrap(), 0x1234);
}

#[test]
fn test_memory_read_bounds_check() {
    let mem = Memory::with_size(100);
    let result = mem.read(100);
    assert!(result.is_err());
    match result {
        Err(CpuError::MemoryViolation(addr)) => assert_eq!(addr, 100),
        _ => panic!("Expected MemoryViolation"),
    }
}

#[test]
fn test_memory_write_bounds_check() {
    let mut mem = Memory::with_size(100);
    let result = mem.write(100, 0x1234);
    assert!(result.is_err());
}

#[test]
fn test_memory_read_range() {
    let mut mem = Memory::new();
    mem.write(0x100, 0x1111).unwrap();
    mem.write(0x101, 0x2222).unwrap();
    mem.write(0x102, 0x3333).unwrap();

    let values = mem.read_range(0x100, 3);
    assert_eq!(values, vec![0x1111, 0x2222, 0x3333]);
}

#[test]
fn test_memory_read_range_at_boundary() {
    let mem = Memory::with_size(10);
    let values = mem.read_range(8, 5);
    assert_eq!(values.len(), 2);
}

#[test]
fn test_memory_write_range() {
    let mut mem = Memory::new();
    let values = vec![0x1111, 0x2222, 0x3333];
    mem.write_range(0x100, &values).unwrap();

    assert_eq!(mem.read(0x100).unwrap(), 0x1111);
    assert_eq!(mem.read(0x101).unwrap(), 0x2222);
    assert_eq!(mem.read(0x102).unwrap(), 0x3333);
}

#[test]
fn test_memory_write_range_bounds() {
    let mut mem = Memory::with_size(10);
    let values = vec![1, 2, 3, 4, 5];
    let result = mem.write_range(8, &values);
    assert!(result.is_ok());

    assert_eq!(mem.read(8).unwrap(), 1);
    assert_eq!(mem.read(9).unwrap(), 2);
}

#[test]
fn test_memory_clear() {
    let mut mem = Memory::with_size(10);
    mem.write(0, 0x1234).unwrap();
    mem.write(5, 0x5678).unwrap();
    mem.write(9, 0xABCD).unwrap();

    mem.clear();

    for i in 0..10 {
        assert_eq!(mem.read(i).unwrap(), 0);
    }
}

#[test]
fn test_memory_as_slice() {
    let mut mem = Memory::with_size(5);
    mem.write(0, 1).unwrap();
    mem.write(1, 2).unwrap();
    mem.write(2, 3).unwrap();

    let slice = mem.as_slice();
    assert_eq!(slice[0], 1);
    assert_eq!(slice[1], 2);
    assert_eq!(slice[2], 3);
}

#[test]
fn test_memory_as_mut_slice() {
    let mut mem = Memory::with_size(5);

    let slice = mem.as_mut_slice();
    slice[0] = 0x1111;
    slice[1] = 0x2222;

    assert_eq!(mem.read(0).unwrap(), 0x1111);
    assert_eq!(mem.read(1).unwrap(), 0x2222);
}
