//! Lexer tests: tokenizing instructions, labels, numbers, punctuation and
//! comments.

use s1130_core::assembler::{Lexer, Token};

#[test]
fn test_tokenize_simple_instruction() {
    let source = "LD 100";
    let mut lexer = Lexer::new(source);
    let tokens = lexer.tokenize().unwrap();

    assert_eq!(tokens.len(), 3);
    assert_eq!(tokens[0], Token::Instruction("LD".to_string()));
    assert_eq!(tokens[1], Token::Number(100));
    assert_eq!(tokens[2], Token::Eof);
}

#[test]
fn test_tokenize_with_label() {
    let source = "START LD 100";
    let mut lexer = Lexer::new(source);

    let token1 = lexer.next_token().unwrap();
    assert_eq!(token1, Token::Identifier("START".to_string()));

    let token2 = lexer.next_token().unwrap();
    assert_eq!(token2, Token::Instruction("LD".to_string()));

    let token3 = lexer.next_token().unwrap();
    assert_eq!(token3, Token::Number(100));
}

#[test]
fn test_tokenize_hex_number() {
    let source = "0x1234";
    let mut lexer = Lexer::new(source);
    let token = lexer.next_token().unwrap();

    assert_eq!(token, Token::Number(0x1234));
}

#[test]
fn test_tokenize_octal_number() {
    let source = "0777";
    let mut lexer = Lexer::new(source);
    let token = lexer.next_token().unwrap();

    assert_eq!(token, Token::Number(0o777));
}

#[test]
fn test_tokenize_with_index() {
    let source = "100,1";
    let mut lexer = Lexer::new(source);

    assert_eq!(lexer.next_token().unwrap(), Token::Number(100));
    assert_eq!(lexer.next_token().unwrap(), Token::Comma);
    assert_eq!(lexer.next_token().unwrap(), Token::Number(1));
}

#[test]
fn test_tokenize_indirect() {
    let source = "/100";
    let mut lexer = Lexer::new(source);

    assert_eq!(lexer.next_token().unwrap(), Token::Slash);
    assert_eq!(lexer.next_token().unwrap(), Token::Number(100));
}

#[test]
fn test_tokenize_comment() {
    let source = "* This is a comment\nLD 100";
    let mut lexer = Lexer::new(source);

    assert_eq!(lexer.next_token().unwrap(), Token::Newline);
    assert_eq!(
        lexer.next_token().unwrap(),
        Token::Instruction("LD".to_string())
    );
}

#[test]
fn test_tokenize_pseudo_ops() {
    let source = "ORG 0x100\nDC 42\nEND";
    let mut lexer = Lexer::new(source);
    let tokens = lexer.tokenize().unwrap();

    assert!(matches!(tokens[0], Token::PseudoOp(_)));
    assert!(matches!(tokens[2], Token::Newline));
    assert!(matches!(tokens[3], Token::PseudoOp(_)));
}
