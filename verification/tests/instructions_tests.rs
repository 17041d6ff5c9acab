//! Decoder tests: opcode bytes, formats, fields and effective addresses.

use s1130_core::cpu::Memory;
use s1130_core::{InstructionError, InstructionFormat, InstructionInfo, OpCode};

#[test]
fn test_opcode_from_word_valid() {
    assert_eq!(OpCode::from_word(0x6000).unwrap(), OpCode::LD);
    assert_eq!(OpCode::from_word(0xE000).unwrap(), OpCode::A);
    assert_eq!(OpCode::from_word(0xC000).unwrap(), OpCode::S);
    assert_eq!(OpCode::from_word(0x4800).unwrap(), OpCode::BSI);
    assert_eq!(OpCode::from_word(0xB000).unwrap(), OpCode::WAIT);
}

#[test]
fn test_opcode_from_word_invalid() {
    let result = OpCode::from_word(0xFF00);
    assert!(result.is_err());
    match result {
        Err(InstructionError::InvalidOpcode(0xFF)) => {}
        _ => panic!("Expected InvalidOpcode error"),
    }
}

#[test]
fn test_opcode_is_long_format() {
    assert!(OpCode::LD.is_long_format());
    assert!(OpCode::A.is_long_format());
    assert!(OpCode::BSI.is_long_format());

    assert!(!OpCode::WAIT.is_long_format());
    assert!(!OpCode::SLA.is_long_format());
    assert!(!OpCode::BC.is_long_format());
}

#[test]
fn test_decode_short_format() {
    let instr = InstructionInfo::decode(0xB000, None).unwrap();
    assert_eq!(instr.opcode, OpCode::WAIT);
    assert_eq!(instr.format, InstructionFormat::Short);
    assert_eq!(instr.tag, 0);
    assert!(!instr.indirect);
    assert_eq!(instr.displacement, 0);
}

#[test]
fn test_decode_short_format_with_tag() {
    let instr = InstructionInfo::decode(0x2040, None).unwrap();
    assert_eq!(instr.opcode, OpCode::SLA);
    assert_eq!(instr.tag, 1);
    assert!(!instr.indirect);
}

#[test]
fn test_decode_short_format_with_indirect() {
    let instr = InstructionInfo::decode(0x4020, None).unwrap();
    assert_eq!(instr.opcode, OpCode::BC);
    assert_eq!(instr.tag, 0);
    assert!(instr.indirect);
}

#[test]
fn test_decode_long_format() {
    let instr = InstructionInfo::decode(0x6000, Some(0x1234)).unwrap();
    assert_eq!(instr.opcode, OpCode::LD);
    assert_eq!(instr.format, InstructionFormat::Long);
    assert_eq!(instr.tag, 0);
    assert!(!instr.indirect);
    assert_eq!(instr.displacement, 0x1234);
}

#[test]
fn test_decode_long_format_with_tag() {
    let instr = InstructionInfo::decode(0x6080, Some(0x5678)).unwrap();
    assert_eq!(instr.opcode, OpCode::LD);
    assert_eq!(instr.tag, 2);
    assert_eq!(instr.displacement, 0x5678);
}

#[test]
fn test_decode_long_format_with_indirect() {
    let instr = InstructionInfo::decode(0x6020, Some(0xABCD)).unwrap();
    assert_eq!(instr.opcode, OpCode::LD);
    assert!(instr.indirect);
    assert_eq!(instr.displacement, 0xABCD);
}

#[test]
fn test_decode_long_format_missing_displacement() {
    let result = InstructionInfo::decode(0x6000, None);
    assert!(result.is_err());
    match result {
        Err(InstructionError::MissingDisplacement) => {}
        _ => panic!("Expected MissingDisplacement error"),
    }
}

#[test]
fn test_calculate_effective_address_direct() {
    let mut instr = InstructionInfo::decode(0x6000, Some(0x1234)).unwrap();

    let mem = Memory::with_size(16);
    let ea = instr.calculate_effective_address(0, &mem).unwrap();
    assert_eq!(ea, 0x1234);
    assert_eq!(instr.effective_address, Some(0x1234));
}

#[test]
fn test_calculate_effective_address_with_index() {
    let mut instr = InstructionInfo::decode(0x6040, Some(0x0100)).unwrap();
    assert_eq!(instr.tag, 1);

    let mem = Memory::with_size(16);
    let ea = instr.calculate_effective_address(0x0050, &mem).unwrap();
    assert_eq!(ea, 0x0150);
}

#[test]
fn test_calculate_effective_address_indirect() {
    let mut instr = InstructionInfo::decode(0x6020, Some(0x0100)).unwrap();
    assert!(instr.indirect);

    let mut mem = Memory::with_size(0x400);
    mem.write(0x0100, 0x0200).unwrap();
    let ea = instr.calculate_effective_address(0, &mem).unwrap();
    assert_eq!(ea, 0x0200);
}

#[test]
fn test_calculate_effective_address_with_index_and_indirect() {
    let mut instr = InstructionInfo::decode(0x6060, Some(0x0100)).unwrap();
    assert_eq!(instr.tag, 1);
    assert!(instr.indirect);

    let mut mem = Memory::with_size(0x400);
    mem.write(0x0150, 0x0300).unwrap();
    let ea = instr.calculate_effective_address(0x0050, &mem).unwrap();
    assert_eq!(ea, 0x0300);
}

#[test]
fn test_size_in_words() {
    let short = InstructionInfo::decode(0xB000, None).unwrap();
    assert_eq!(short.size_in_words(), 1);

    let long = InstructionInfo::decode(0x6000, Some(0x1234)).unwrap();
    assert_eq!(long.size_in_words(), 2);
}

#[test]
fn test_all_opcodes_decode() {
    let opcodes = [
        (0x6000, OpCode::LD),
        (0x6800, OpCode::LDD),
        (0x7000, OpCode::STO),
        (0x7800, OpCode::STD),
        (0xE000, OpCode::A),
        (0xE800, OpCode::AD),
        (0xC000, OpCode::S),
        (0xC800, OpCode::SD),
        (0xF000, OpCode::M),
        (0xF800, OpCode::D),
        (0x8000, OpCode::AND),
        (0x9000, OpCode::OR),
        (0x9800, OpCode::EOR),
        (0x2000, OpCode::SLA),
        (0x2800, OpCode::SLCA),
        (0x3000, OpCode::SRA),
        (0x3800, OpCode::SRT),
        (0x4800, OpCode::BSI),
        (0x4000, OpCode::BC),
        (0x5000, OpCode::BSC),
        (0x7400, OpCode::LDX),
        (0x5400, OpCode::STX),
        (0x5800, OpCode::MDX),
        (0xB000, OpCode::WAIT),
        (0xC400, OpCode::LDS),
        (0xCC00, OpCode::STS),
        (0x4400, OpCode::XIO),
        (0x4C00, OpCode::SDS),
    ];

    for (word, expected_op) in &opcodes {
        let decoded_op = OpCode::from_word(*word).unwrap();
        assert_eq!(decoded_op, *expected_op, "Failed for word {:#06x}", word);
    }
}
