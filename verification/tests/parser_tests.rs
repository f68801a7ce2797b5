use z80asm::parser::Parser;

#[test]
fn test_parse_simple_instruction() {
    let parser = Parser::new();
    let result = parser.parse_line("    ld hl, 1234").unwrap();
    assert_eq!(result.label, None);
    assert_eq!(result.mnemonic, Some("ld".to_string()));
    assert_eq!(result.operands, Some("hl, 1234".to_string()));
}

#[test]
fn test_parse_label_and_instruction() {
    let parser = Parser::new();
    let result = parser.parse_line("loop:   inc a").unwrap();
    assert_eq!(result.label, Some("loop".to_string()));
    assert_eq!(result.mnemonic, Some("inc".to_string()));
    assert_eq!(result.operands, Some("a".to_string()));
}

#[test]
fn test_parse_bcall() {
    let parser = Parser::new();
    let result = parser.parse_line("    bcall(_ClrLCDFull)").unwrap();
    assert_eq!(result.mnemonic, Some("bcall".to_string()));
    assert_eq!(result.operands, Some("_ClrLCDFull".to_string()));
}

#[test]
fn test_split_operands() {
    let parser = Parser::new();
    assert_eq!(
        parser.split_operands("hl, ($8000)"),
        vec!["hl".to_string(), "($8000)".to_string()]
    );
    assert_eq!(
        parser.split_operands("a, b"),
        vec!["a".to_string(), "b".to_string()]
    );
}

#[test]
fn test_parse_comment_only_line() {
    let parser = Parser::new();
    assert!(parser.parse_line("  ; just a comment").is_none());
    assert!(parser.parse_line("").is_none());
}

#[test]
fn test_parse_label_alone() {
    let parser = Parser::new();
    let result = parser.parse_line("start:").unwrap();
    assert_eq!(result.label, Some("start".to_string()));
    assert_eq!(result.mnemonic, None);
    assert_eq!(result.operands, None);
}

#[test]
fn test_parse_uppercase_mnemonic() {
    let parser = Parser::new();
    let result = parser.parse_line("  LD A,B").unwrap();
    assert_eq!(result.mnemonic, Some("ld".to_string()));
    assert_eq!(result.operands, Some("A,B".to_string()));
}

#[test]
fn test_split_operands_empty_tail() {
    let parser = Parser::new();
    assert_eq!(parser.split_operands("a,"), vec!["a".to_string()]);
}
