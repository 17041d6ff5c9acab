//! Error message tests.

use s1130_core::{AssemblerError, CpuError, InstructionError};

#[test]
fn test_error_display() {
    let err = CpuError::MemoryViolation(0x1234);
    assert_eq!(err.message(), "Memory access violation at address 0x1234");
}

#[test]
fn test_instruction_error_from_cpu_error() {
    let cpu_err = CpuError::MemoryViolation(0x5678);
    let instr_err: InstructionError = cpu_err.into();
    assert_eq!(
        instr_err.message(),
        "Memory access error: Memory access violation at address 0x5678"
    );
}

#[test]
fn test_assembler_syntax_error() {
    let err = AssemblerError::SyntaxError {
        line: 42,
        message: "Missing operand".to_string(),
    };
    assert_eq!(err.message(), "Syntax error on line 42: Missing operand");
}
