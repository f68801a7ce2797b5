use z80asm::assembler::Z80Assembler;
use z80asm::error::ErrKind;

// Size/address consistency: a label placed after a mix of every instruction
// family lands exactly where the emitted bytes say it does, so the jump to
// it encodes the right address.
#[test]
fn test_estimate_parity_over_families() {
    let source = "\
        .org $9D93\n\
        jp end\n\
        ld a,1\n\
        ld hl,$8000\n\
        ld (ix+2),b\n\
        bit 3,a\n\
        rlc c\n\
        in a,($10)\n\
        otir\n\
        add a,7\n\
        push ix\n\
        ldir\n\
        reti\n\
        call end\n\
        ret nz\n\
        .db 1,2,\"ab\"\n\
        .dw $1234\n\
end:\n\
        ret\n";
    let mut assembler = Z80Assembler::new();
    let code = assembler.assemble(source).expect("corpus should assemble");
    // The label address equals the origin plus every byte before it.
    let end_addr = 0x9D93 + (code.len() as u16) - 1;
    assert_eq!(code[0], 0xc3);
    assert_eq!(code[1], (end_addr & 0xff) as u8);
    assert_eq!(code[2], (end_addr >> 8) as u8);
    assert_eq!(*code.last().unwrap(), 0xc9);
}

// Idempotence: assembling the same source twice yields byte-identical
// output, on one assembler and on a fresh one.
#[test]
fn test_assemble_twice_identical() {
    let source = ".org $9D93\nstart:\n ld hl,start\n jr start\n .db \"x\",1\n";
    let mut a1 = Z80Assembler::new();
    let first = a1.assemble(source).expect("first run");
    let second = a1.assemble(source).expect("second run");
    assert_eq!(first, second);
    let mut a2 = Z80Assembler::new();
    let third = a2.assemble(source).expect("fresh run");
    assert_eq!(first, third);
}

// Forward reference: a label used before its definition resolves to the
// same address as one used after its definition.
#[test]
fn test_forward_and_backward_reference() {
    let fwd = ".org $9D93\n jp target\n nop\ntarget:\n ret\n";
    let bwd = ".org $9D93\ntarget:\n jp target\n nop\n ret\n";
    let mut assembler = Z80Assembler::new();
    let code_fwd = assembler.assemble(fwd).expect("forward reference");
    // target = $9D93 + 3 + 1 = $9D97
    assert_eq!(&code_fwd[0..3], &[0xc3, 0x97, 0x9d]);
    let code_bwd = assembler.assemble(bwd).expect("backward reference");
    // target = $9D93
    assert_eq!(&code_bwd[0..3], &[0xc3, 0x93, 0x9d]);
}

// Range enforcement: a relative jump exactly at the +127 and -128
// boundaries succeeds; one byte further fails with the range error.
#[test]
fn test_relative_jump_boundaries() {
    let mut assembler = Z80Assembler::new();

    // jr at $9D93; displacement = target - $9D95.
    let code = assembler
        .assemble(".org $9D93\n jr $9E14\n")
        .expect("displacement +127");
    assert_eq!(code, vec![0x18, 0x7f]);

    let code = assembler
        .assemble(".org $9D93\n jr $9D15\n")
        .expect("displacement -128");
    assert_eq!(code, vec![0x18, 0x80]);

    let err = assembler
        .assemble(".org $9D93\n jr $9E15\n")
        .expect_err("displacement +128 is out of range");
    assert_eq!(err.kind(), ErrKind::RangeError);

    let err = assembler
        .assemble(".org $9D93\n jr $9D14\n")
        .expect_err("displacement -129 is out of range");
    assert_eq!(err.kind(), ErrKind::RangeError);

    let err = assembler
        .assemble(".org $9D93\n djnz $9E15\n")
        .expect_err("djnz out of range");
    assert_eq!(err.kind(), ErrKind::RangeError);
}

// Each error kind arises from the input class that names it.
#[test]
fn test_error_kinds() {
    let mut assembler = Z80Assembler::new();

    let err = assembler.assemble("frobnicate a,b").unwrap_err();
    assert_eq!(err.kind(), ErrKind::UnknownInstruction);

    let err = assembler.assemble(".equ ONLYNAME").unwrap_err();
    assert_eq!(err.kind(), ErrKind::InvalidOperandCount);

    let err = assembler.assemble("ld a,bogusname").unwrap_err();
    assert_eq!(err.kind(), ErrKind::InvalidLiteral);

    let err = assembler.assemble("bit 3,q").unwrap_err();
    assert_eq!(err.kind(), ErrKind::InvalidRegister);

    let err = assembler.assemble("bit 9,a").unwrap_err();
    assert_eq!(err.kind(), ErrKind::RangeError);

    let err = assembler.assemble("bcall(_NoSuchCall)").unwrap_err();
    assert_eq!(err.kind(), ErrKind::UnknownInstruction);
}

// Error messages name their kind and carry the offending text.
#[test]
fn test_error_message_text() {
    let mut assembler = Z80Assembler::new();
    let err = assembler.assemble("frobnicate").unwrap_err();
    let msg = err.message();
    assert!(msg.contains("unknown instruction"));
    assert!(msg.contains("frobnicate"));
}

// Constants defined by the definition directive feed the evaluator, and the
// origin directive relocates everything after it.
#[test]
fn test_equ_and_org() {
    let mut assembler = Z80Assembler::new();
    let source = ".equ PORT, $10\n.org $8000\n in a,(PORT)\nhere:\n ld hl,here\n";
    let code = assembler.assemble(source).expect("equ and org");
    assert_eq!(code, vec![0xdb, 0x10, 0x21, 0x02, 0x80]);
}

// Indexed displacements go through the evaluator and are range-checked.
#[test]
fn test_indexed_displacements() {
    let mut assembler = Z80Assembler::new();

    let code = assembler.assemble("ld a,(ix+5)").expect("ix plus");
    assert_eq!(code, vec![0xdd, 0x7e, 0x05]);

    let code = assembler.assemble("ld b,(iy-3)").expect("iy minus");
    assert_eq!(code, vec![0xfd, 0x46, 0xfd]);

    let code = assembler.assemble("ld (ix+0),c").expect("store through ix");
    assert_eq!(code, vec![0xdd, 0x71, 0x00]);

    let err = assembler.assemble("ld a,(ix+200)").unwrap_err();
    assert_eq!(err.kind(), ErrKind::RangeError);

    let code = assembler.assemble("ld a,(ix-128)").expect("minus 128");
    assert_eq!(code, vec![0xdd, 0x7e, 0x80]);
}

// The .db directive decodes escape sequences and takes label low bytes.
#[test]
fn test_db_escapes_and_labels() {
    let mut assembler = Z80Assembler::new();
    let code = assembler
        .assemble(".org $9D93\nlbl:\n .db \"a\\nb\",lbl\n")
        .expect("escapes and label byte");
    assert_eq!(code, vec![0x61, 0x0a, 0x62, 0x93]);
}

// The .dw directive resolves labels to full little-endian addresses.
#[test]
fn test_dw_labels() {
    let mut assembler = Z80Assembler::new();
    let code = assembler
        .assemble(".org $9D93\nstart:\n .dw start, $ABCD\n")
        .expect("dw labels");
    assert_eq!(code, vec![0x93, 0x9d, 0xcd, 0xab]);
}

// System variables resolve by name inside load addresses.
#[test]
fn test_sys_var_loads() {
    let mut assembler = Z80Assembler::new();
    let code = assembler.assemble("ld hl,(curRow)\n ld (penCol),a\n").expect("sys vars");
    assert_eq!(code, vec![0x2a, 0x4b, 0x84, 0x32, 0xd7, 0x86]);
}
