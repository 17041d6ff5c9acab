//! Line parser tests: labels, operations, operands, comments and blank
//! lines.

use s1130_core::assembler::parser::parse_line;
use s1130_core::assembler::Operation;

#[test]
fn test_parse_simple_instruction() {
    let line = parse_line("    LD 100", 1).unwrap();
    assert!(line.label.is_none());
    assert!(matches!(line.operation, Operation::Instruction(_)));
    assert_eq!(line.operand, Some("100".to_string()));
}

#[test]
fn test_parse_with_label() {
    let line = parse_line("START LD 100", 1).unwrap();
    assert_eq!(line.label, Some("START".to_string()));
    assert!(matches!(line.operation, Operation::Instruction(_)));
    assert_eq!(line.operand, Some("100".to_string()));
}

#[test]
fn test_parse_pseudo_op() {
    let line = parse_line("    ORG 0x100", 1).unwrap();
    assert!(line.label.is_none());
    assert!(matches!(line.operation, Operation::PseudoOp(_)));
    assert_eq!(line.operand, Some("0x100".to_string()));
}

#[test]
fn test_parse_label_only() {
    let line = parse_line("LABEL", 1).unwrap();
    assert_eq!(line.label, Some("LABEL".to_string()));
    assert!(matches!(line.operation, Operation::Nothing));
}

#[test]
fn test_parse_comment() {
    let line = parse_line("* This is a comment", 1).unwrap();
    assert!(matches!(line.operation, Operation::Nothing));
}

#[test]
fn test_parse_empty_line() {
    let line = parse_line("", 1).unwrap();
    assert!(matches!(line.operation, Operation::Nothing));
}

#[test]
fn test_parse_indirect_operand() {
    let line = parse_line("    LD /100", 1).unwrap();
    assert_eq!(line.operand, Some("/100".to_string()));
}

#[test]
fn test_parse_indexed_operand() {
    let line = parse_line("    LD 100,1", 1).unwrap();
    assert_eq!(line.operand, Some("100,1".to_string()));
}
