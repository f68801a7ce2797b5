use z80asm::error::ErrKind;
use z80asm::immediate::parse_immediate;
use z80asm::symtab::SymTab;

#[test]
fn test_parse_decimal() {
    let constants = SymTab::new();
    assert_eq!(parse_immediate("42", &constants).unwrap(), 42);
    assert_eq!(parse_immediate("0", &constants).unwrap(), 0);
    assert_eq!(parse_immediate("65535", &constants).unwrap(), 65535);
}

#[test]
fn test_parse_hex() {
    let constants = SymTab::new();
    assert_eq!(parse_immediate("$FF", &constants).unwrap(), 0xFF);
    assert_eq!(parse_immediate("0x1234", &constants).unwrap(), 0x1234);
    assert_eq!(parse_immediate("$9D93", &constants).unwrap(), 0x9D93);
}

#[test]
fn test_parse_binary() {
    let constants = SymTab::new();
    assert_eq!(parse_immediate("%11111111", &constants).unwrap(), 0xFF);
    assert_eq!(parse_immediate("0b1010", &constants).unwrap(), 0b1010);
}

#[test]
fn test_parse_char() {
    let constants = SymTab::new();
    assert_eq!(parse_immediate("'A'", &constants).unwrap(), 65);
    assert_eq!(parse_immediate("'0'", &constants).unwrap(), 48);
}

#[test]
fn test_parse_constant() {
    let mut constants = SymTab::new();
    constants.insert("SCREEN_WIDTH", 96);
    assert_eq!(parse_immediate("SCREEN_WIDTH", &constants).unwrap(), 96);
}

#[test]
fn test_parse_negative_decimal() {
    let constants = SymTab::new();
    assert_eq!(parse_immediate("-1", &constants).unwrap(), 0xFFFF);
    assert_eq!(parse_immediate("-5", &constants).unwrap(), 0xFFFB);
    assert_eq!(parse_immediate("-32768", &constants).unwrap(), 0x8000);
}

#[test]
fn test_parse_expressions() {
    let mut constants = SymTab::new();
    constants.insert("BASE", 0x8000);
    assert_eq!(parse_immediate("2+2", &constants).unwrap(), 4);
    assert_eq!(parse_immediate("BASE+5", &constants).unwrap(), 0x8005);
    assert_eq!(parse_immediate("10-3", &constants).unwrap(), 7);
    assert_eq!(parse_immediate("65535+1", &constants).unwrap(), 0);
}

#[test]
fn test_parse_unknown_identifier_fails() {
    let constants = SymTab::new();
    let err = parse_immediate("nowhere", &constants).unwrap_err();
    assert_eq!(err.kind(), ErrKind::InvalidLiteral);
}

#[test]
fn test_parse_overflow_fails() {
    let constants = SymTab::new();
    assert!(parse_immediate("65536", &constants).is_err());
    assert!(parse_immediate("$10000", &constants).is_err());
}
