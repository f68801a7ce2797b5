use z80asm::assembler::Z80Assembler;
use z80asm::generator::TI8XPGenerator;

#[test]
fn test_hello_world_assembly() {
    let source = "; display a greeting\n\
        .org $9D93\n\
        .db $BB,$6D\n\
        bcall(_ClrLCDFull)\n\
        ld hl,msg\n\
        bcall(_PutS)\n\
        bcall(_GetKey)\n\
        ret\n\
msg:\n\
        .db \"HELLO\",0\n";
    let mut assembler = Z80Assembler::new();

    let code = assembler
        .assemble(source)
        .expect("Failed to assemble hello.asm");

    // Hand-assembled machine code: the AsmPrgm marker, three system calls,
    // a load of the message address (origin + 15), a return, and the text.
    let expected_code: Vec<u8> = vec![
        0xBB, 0x6D, // .db $BB,$6D
        0xEF, 0x40, 0x45, // bcall(_ClrLCDFull)
        0x21, 0xA2, 0x9D, // ld hl,msg  (msg = $9DA2)
        0xEF, 0x0A, 0x45, // bcall(_PutS)
        0xEF, 0x72, 0x49, // bcall(_GetKey)
        0xC9, // ret
        0x48, 0x45, 0x4C, 0x4C, 0x4F, 0x00, // "HELLO",0
    ];
    assert_eq!(code, expected_code);

    // Generate the container and check it exactly: signature, lengths,
    // name field, size-prefixed data, and the checksum of everything from
    // the variable header onward.
    let output = TI8XPGenerator::create_8xp("HELLO", &code);
    assert_eq!(output.len(), 76 + code.len(), "File sizes differ");
    assert_eq!(&output[0..11], &[0x2a, 0x2a, 0x54, 0x49, 0x38, 0x33, 0x46, 0x2a, 0x1a, 0x0a, 0x00]);
    let dl = code.len() + 2;
    assert_eq!(output[53] as usize, (dl + 13) & 0xff);
    assert_eq!(output[54] as usize, ((dl + 13) >> 8) & 0xff);
    assert_eq!(output[55], 0x0d);
    assert_eq!(output[56], 0x00);
    assert_eq!(output[57] as usize, dl & 0xff);
    assert_eq!(output[58] as usize, (dl >> 8) & 0xff);
    assert_eq!(output[59], 0x05);
    assert_eq!(&output[60..68], b"HELLO\0\0\0");
    assert_eq!(output[70] as usize, dl & 0xff);
    assert_eq!(output[72] as usize, code.len() & 0xff);
    assert_eq!(output[73] as usize, (code.len() >> 8) & 0xff);
    assert_eq!(&output[74..74 + code.len()], &code[..]);
    let mut checksum: u16 = 0;
    for &b in &output[55..output.len() - 2] {
        checksum = checksum.wrapping_add(b as u16);
    }
    assert_eq!(output[output.len() - 2] as u16, checksum & 0xff, "Generated .8xp file doesn't match expected");
    assert_eq!(output[output.len() - 1] as u16, (checksum >> 8) & 0xff);
}

#[test]
fn test_math_demo_assembly() {
    let source = "\
        .org $9D93\n\
        .db $BB,$6D\n\
        .equ COUNT, 10\n\
        ld b,COUNT\n\
        ld hl,table\n\
        ld a,0\n\
loop:\n\
        add a,(hl)\n\
        inc hl\n\
        djnz loop\n\
        ld l,a\n\
        ld h,0\n\
        bcall(_DispHL)\n\
        bcall(_GetKey)\n\
        ret\n\
table:\n\
        .db 1,2,3,4,5,6,7,8,9,10\n\
        .db \"sum of the first ten numbers\",0\n";
    let mut assembler = Z80Assembler::new();

    let code = assembler
        .assemble(source)
        .expect("Failed to assemble math.asm");

    let output = TI8XPGenerator::create_8xp("MATH", &code);
    assert!(code.len() > 0, "No code generated");
    assert!(output.len() > 100, "Output file too small");
}

#[test]
fn test_basic_instructions() {
    let mut assembler = Z80Assembler::new();

    let code = assembler.assemble("nop").expect("Failed to assemble NOP");
    assert_eq!(code, vec![0x00]);

    let code = assembler.assemble("ret").expect("Failed to assemble RET");
    assert_eq!(code, vec![0xc9]);

    let code = assembler
        .assemble("ld a,b")
        .expect("Failed to assemble LD A,B");
    assert_eq!(code, vec![0x78]);
}

#[test]
fn test_immediate_loads() {
    let mut assembler = Z80Assembler::new();

    let code = assembler
        .assemble("ld a,42")
        .expect("Failed to assemble LD A,42");
    assert_eq!(code, vec![0x3e, 42]);

    let code = assembler
        .assemble("ld hl,$1234")
        .expect("Failed to assemble LD HL,$1234");
    assert_eq!(code, vec![0x21, 0x34, 0x12]);
}

#[test]
fn test_labels_and_jumps() {
    let mut assembler = Z80Assembler::new();

    let source = r#"
        .org $9D93
        jp end
        nop
        nop
    end:
        ret
    "#;

    let code = assembler
        .assemble(source)
        .expect("Failed to assemble with labels");
    assert_eq!(&code[0..3], &[0xc3, 0x98, 0x9d]);
    assert_eq!(&code[3..5], &[0x00, 0x00]);
    assert_eq!(code[5], 0xc9);
}

#[test]
fn test_data_directives() {
    let mut assembler = Z80Assembler::new();

    let code = assembler
        .assemble(r#".db "Hello",0"#)
        .expect("Failed to assemble .db");
    assert_eq!(code, b"Hello\0");

    let code = assembler
        .assemble(".db $FF, $00, 42")
        .expect("Failed to assemble .db bytes");
    assert_eq!(code, vec![0xFF, 0x00, 42]);

    let code = assembler
        .assemble(".dw $1234")
        .expect("Failed to assemble .dw");
    assert_eq!(code, vec![0x34, 0x12]);
}

#[test]
fn test_ix_iy_instructions() {
    let mut assembler = Z80Assembler::new();

    let code = assembler
        .assemble("ld ix,$1234")
        .expect("Failed to assemble LD IX");
    assert_eq!(code, vec![0xdd, 0x21, 0x34, 0x12]);

    let code = assembler
        .assemble("ld iy,$5678")
        .expect("Failed to assemble LD IY");
    assert_eq!(code, vec![0xfd, 0x21, 0x78, 0x56]);

    let code = assembler
        .assemble("push ix")
        .expect("Failed to assemble PUSH IX");
    assert_eq!(code, vec![0xdd, 0xe5]);

    let code = assembler
        .assemble("pop iy")
        .expect("Failed to assemble POP IY");
    assert_eq!(code, vec![0xfd, 0xe1]);
}

#[test]
fn test_bit_manipulation() {
    let mut assembler = Z80Assembler::new();

    let code = assembler
        .assemble("bit 3,a")
        .expect("Failed to assemble BIT");
    assert_eq!(code, vec![0xcb, 0x5f]);

    let code = assembler
        .assemble("set 7,b")
        .expect("Failed to assemble SET");
    assert_eq!(code, vec![0xcb, 0xf8]);

    let code = assembler
        .assemble("res 0,c")
        .expect("Failed to assemble RES");
    assert_eq!(code, vec![0xcb, 0x81]);

    let code = assembler.assemble("rlc a").expect("Failed to assemble RLC");
    assert_eq!(code, vec![0xcb, 0x07]);

    let code = assembler.assemble("sla b").expect("Failed to assemble SLA");
    assert_eq!(code, vec![0xcb, 0x20]);
}

#[test]
fn test_io_instructions() {
    let mut assembler = Z80Assembler::new();

    let code = assembler
        .assemble("in a,($10)")
        .expect("Failed to assemble IN");
    assert_eq!(code, vec![0xdb, 0x10]);

    let code = assembler
        .assemble("out ($11),a")
        .expect("Failed to assemble OUT");
    assert_eq!(code, vec![0xd3, 0x11]);

    let code = assembler
        .assemble("in b,(c)")
        .expect("Failed to assemble IN B,(C)");
    assert_eq!(code, vec![0xed, 0x40]);

    let code = assembler.assemble("otir").expect("Failed to assemble OTIR");
    assert_eq!(code, vec![0xed, 0xb3]);
}

#[test]
fn test_block_transfer() {
    let mut assembler = Z80Assembler::new();

    let code = assembler.assemble("ldir").expect("Failed to assemble LDIR");
    assert_eq!(code, vec![0xed, 0xb0]);

    let code = assembler.assemble("cpir").expect("Failed to assemble CPIR");
    assert_eq!(code, vec![0xed, 0xb1]);

    let code = assembler.assemble("ldd").expect("Failed to assemble LDD");
    assert_eq!(code, vec![0xed, 0xa8]);
}

#[test]
fn test_expanded_rom_calls() {
    let mut assembler = Z80Assembler::new();

    let code = assembler
        .assemble("bcall(_FPAdd)")
        .expect("Failed to assemble _FPAdd");
    assert_eq!(code, vec![0xef, 0x72, 0x40]);

    let code = assembler
        .assemble("bcall(_ILine)")
        .expect("Failed to assemble _ILine");
    assert_eq!(code, vec![0xef, 0x98, 0x47]);

    let code = assembler
        .assemble("bcall(_ChkFindSym)")
        .expect("Failed to assemble _ChkFindSym");
    assert_eq!(code, vec![0xef, 0xf1, 0x42]);
}
