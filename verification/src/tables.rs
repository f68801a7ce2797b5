//! The static lookup data: fixed-form instruction opcodes keyed by the
//! exact lower-case "mnemonic operands" text, the 8-bit register
//! load-immediate opcodes, the platform system-call entry points, and the
//! named system-variable addresses. Pure data; keys are unique.

use vstd::prelude::*;
use crate::chars::eq_str;

verus! {


/// Opcodes of instructions with no operand text.

pub open spec fn spec_opcode_bare(s: Seq<char>) -> Option<u32> {
    if s == "nop"@ {
        Some(0x0)
    } else if s == "ret"@ {
        Some(0xc9)
    } else if s == "halt"@ {
        Some(0x76)
    } else if s == "di"@ {
        Some(0xf3)
    } else if s == "ei"@ {
        Some(0xfb)
    } else if s == "exx"@ {
        Some(0xd9)
    } else if s == "daa"@ {
        Some(0x27)
    } else if s == "cpl"@ {
        Some(0x2f)
    } else if s == "scf"@ {
        Some(0x37)
    } else if s == "ccf"@ {
        Some(0x3f)
    } else if s == "rlca"@ {
        Some(0x7)
    } else if s == "rrca"@ {
        Some(0xf)
    } else if s == "rla"@ {
        Some(0x17)
    } else if s == "rra"@ {
        Some(0x1f)
    } else if s == "ldi"@ {
        Some(0xeda0)
    } else if s == "ldir"@ {
        Some(0xedb0)
    } else if s == "ldd"@ {
        Some(0xeda8)
    } else if s == "lddr"@ {
        Some(0xedb8)
    } else if s == "cpi"@ {
        Some(0xeda1)
    } else if s == "cpir"@ {
        Some(0xedb1)
    } else if s == "cpd"@ {
        Some(0xeda9)
    } else if s == "cpdr"@ {
        Some(0xedb9)
    } else if s == "neg"@ {
        Some(0xed44)
    } else if s == "rld"@ {
        Some(0xed6f)
    } else if s == "rrd"@ {
        Some(0xed67)
    } else {
        None
    }
}

pub fn opcode_bare(v: &[char]) -> (r: Option<u32>)
    ensures
        r == spec_opcode_bare(v@),
{
    if eq_str(v, "nop") {
        Some(0x0)
    } else if eq_str(v, "ret") {
        Some(0xc9)
    } else if eq_str(v, "halt") {
        Some(0x76)
    } else if eq_str(v, "di") {
        Some(0xf3)
    } else if eq_str(v, "ei") {
        Some(0xfb)
    } else if eq_str(v, "exx") {
        Some(0xd9)
    } else if eq_str(v, "daa") {
        Some(0x27)
    } else if eq_str(v, "cpl") {
        Some(0x2f)
    } else if eq_str(v, "scf") {
        Some(0x37)
    } else if eq_str(v, "ccf") {
        Some(0x3f)
    } else if eq_str(v, "rlca") {
        Some(0x7)
    } else if eq_str(v, "rrca") {
        Some(0xf)
    } else if eq_str(v, "rla") {
        Some(0x17)
    } else if eq_str(v, "rra") {
        Some(0x1f)
    } else if eq_str(v, "ldi") {
        Some(0xeda0)
    } else if eq_str(v, "ldir") {
        Some(0xedb0)
    } else if eq_str(v, "ldd") {
        Some(0xeda8)
    } else if eq_str(v, "lddr") {
        Some(0xedb8)
    } else if eq_str(v, "cpi") {
        Some(0xeda1)
    } else if eq_str(v, "cpir") {
        Some(0xedb1)
    } else if eq_str(v, "cpd") {
        Some(0xeda9)
    } else if eq_str(v, "cpdr") {
        Some(0xedb9)
    } else if eq_str(v, "neg") {
        Some(0xed44)
    } else if eq_str(v, "rld") {
        Some(0xed6f)
    } else if eq_str(v, "rrd") {
        Some(0xed67)
    } else {
        None
    }
}

/// Opcodes of the register-to-register load grid.

pub open spec fn spec_opcode_ld_rr(s: Seq<char>) -> Option<u32> {
    if s == "ld b,b"@ {
        Some(0x40)
    } else if s == "ld b,c"@ {
        Some(0x41)
    } else if s == "ld b,d"@ {
        Some(0x42)
    } else if s == "ld b,e"@ {
        Some(0x43)
    } else if s == "ld b,h"@ {
        Some(0x44)
    } else if s == "ld b,l"@ {
        Some(0x45)
    } else if s == "ld b,(hl)"@ {
        Some(0x46)
    } else if s == "ld b,a"@ {
        Some(0x47)
    } else if s == "ld c,b"@ {
        Some(0x48)
    } else if s == "ld c,c"@ {
        Some(0x49)
    } else if s == "ld c,d"@ {
        Some(0x4a)
    } else if s == "ld c,e"@ {
        Some(0x4b)
    } else if s == "ld c,h"@ {
        Some(0x4c)
    } else if s == "ld c,l"@ {
        Some(0x4d)
    } else if s == "ld c,(hl)"@ {
        Some(0x4e)
    } else if s == "ld c,a"@ {
        Some(0x4f)
    } else if s == "ld d,b"@ {
        Some(0x50)
    } else if s == "ld d,c"@ {
        Some(0x51)
    } else if s == "ld d,d"@ {
        Some(0x52)
    } else if s == "ld d,e"@ {
        Some(0x53)
    } else if s == "ld d,h"@ {
        Some(0x54)
    } else if s == "ld d,l"@ {
        Some(0x55)
    } else if s == "ld d,(hl)"@ {
        Some(0x56)
    } else if s == "ld d,a"@ {
        Some(0x57)
    } else if s == "ld e,b"@ {
        Some(0x58)
    } else if s == "ld e,c"@ {
        Some(0x59)
    } else if s == "ld e,d"@ {
        Some(0x5a)
    } else if s == "ld e,e"@ {
        Some(0x5b)
    } else if s == "ld e,h"@ {
        Some(0x5c)
    } else if s == "ld e,l"@ {
        Some(0x5d)
    } else if s == "ld e,(hl)"@ {
        Some(0x5e)
    } else if s == "ld e,a"@ {
        Some(0x5f)
    } else if s == "ld h,b"@ {
        Some(0x60)
    } else if s == "ld h,c"@ {
        Some(0x61)
    } else if s == "ld h,d"@ {
        Some(0x62)
    } else if s == "ld h,e"@ {
        Some(0x63)
    } else if s == "ld h,h"@ {
        Some(0x64)
    } else if s == "ld h,l"@ {
        Some(0x65)
    } else if s == "ld h,(hl)"@ {
        Some(0x66)
    } else if s == "ld h,a"@ {
        Some(0x67)
    } else if s == "ld l,b"@ {
        Some(0x68)
    } else if s == "ld l,c"@ {
        Some(0x69)
    } else if s == "ld l,d"@ {
        Some(0x6a)
    } else if s == "ld l,e"@ {
        Some(0x6b)
    } else if s == "ld l,h"@ {
        Some(0x6c)
    } else if s == "ld l,l"@ {
        Some(0x6d)
    } else if s == "ld l,(hl)"@ {
        Some(0x6e)
    } else if s == "ld l,a"@ {
        Some(0x6f)
    } else if s == "ld (hl),b"@ {
        Some(0x70)
    } else if s == "ld (hl),c"@ {
        Some(0x71)
    } else if s == "ld (hl),d"@ {
        Some(0x72)
    } else if s == "ld (hl),e"@ {
        Some(0x73)
    } else if s == "ld (hl),h"@ {
        Some(0x74)
    } else if s == "ld (hl),l"@ {
        Some(0x75)
    } else if s == "ld (hl),a"@ {
        Some(0x77)
    } else if s == "ld a,b"@ {
        Some(0x78)
    } else if s == "ld a,c"@ {
        Some(0x79)
    } else if s == "ld a,d"@ {
        Some(0x7a)
    } else if s == "ld a,e"@ {
        Some(0x7b)
    } else if s == "ld a,h"@ {
        Some(0x7c)
    } else if s == "ld a,l"@ {
        Some(0x7d)
    } else if s == "ld a,(hl)"@ {
        Some(0x7e)
    } else if s == "ld a,a"@ {
        Some(0x7f)
    } else {
        None
    }
}

pub fn opcode_ld_rr(v: &[char]) -> (r: Option<u32>)
    ensures
        r == spec_opcode_ld_rr(v@),
{
    if eq_str(v, "ld b,b") {
        Some(0x40)
    } else if eq_str(v, "ld b,c") {
        Some(0x41)
    } else if eq_str(v, "ld b,d") {
        Some(0x42)
    } else if eq_str(v, "ld b,e") {
        Some(0x43)
    } else if eq_str(v, "ld b,h") {
        Some(0x44)
    } else if eq_str(v, "ld b,l") {
        Some(0x45)
    } else if eq_str(v, "ld b,(hl)") {
        Some(0x46)
    } else if eq_str(v, "ld b,a") {
        Some(0x47)
    } else if eq_str(v, "ld c,b") {
        Some(0x48)
    } else if eq_str(v, "ld c,c") {
        Some(0x49)
    } else if eq_str(v, "ld c,d") {
        Some(0x4a)
    } else if eq_str(v, "ld c,e") {
        Some(0x4b)
    } else if eq_str(v, "ld c,h") {
        Some(0x4c)
    } else if eq_str(v, "ld c,l") {
        Some(0x4d)
    } else if eq_str(v, "ld c,(hl)") {
        Some(0x4e)
    } else if eq_str(v, "ld c,a") {
        Some(0x4f)
    } else if eq_str(v, "ld d,b") {
        Some(0x50)
    } else if eq_str(v, "ld d,c") {
        Some(0x51)
    } else if eq_str(v, "ld d,d") {
        Some(0x52)
    } else if eq_str(v, "ld d,e") {
        Some(0x53)
    } else if eq_str(v, "ld d,h") {
        Some(0x54)
    } else if eq_str(v, "ld d,l") {
        Some(0x55)
    } else if eq_str(v, "ld d,(hl)") {
        Some(0x56)
    } else if eq_str(v, "ld d,a") {
        Some(0x57)
    } else if eq_str(v, "ld e,b") {
        Some(0x58)
    } else if eq_str(v, "ld e,c") {
        Some(0x59)
    } else if eq_str(v, "ld e,d") {
        Some(0x5a)
    } else if eq_str(v, "ld e,e") {
        Some(0x5b)
    } else if eq_str(v, "ld e,h") {
        Some(0x5c)
    } else if eq_str(v, "ld e,l") {
        Some(0x5d)
    } else if eq_str(v, "ld e,(hl)") {
        Some(0x5e)
    } else if eq_str(v, "ld e,a") {
        Some(0x5f)
    } else if eq_str(v, "ld h,b") {
        Some(0x60)
    } else if eq_str(v, "ld h,c") {
        Some(0x61)
    } else if eq_str(v, "ld h,d") {
        Some(0x62)
    } else if eq_str(v, "ld h,e") {
        Some(0x63)
    } else if eq_str(v, "ld h,h") {
        Some(0x64)
    } else if eq_str(v, "ld h,l") {
        Some(0x65)
    } else if eq_str(v, "ld h,(hl)") {
        Some(0x66)
    } else if eq_str(v, "ld h,a") {
        Some(0x67)
    } else if eq_str(v, "ld l,b") {
        Some(0x68)
    } else if eq_str(v, "ld l,c") {
        Some(0x69)
    } else if eq_str(v, "ld l,d") {
        Some(0x6a)
    } else if eq_str(v, "ld l,e") {
        Some(0x6b)
    } else if eq_str(v, "ld l,h") {
        Some(0x6c)
    } else if eq_str(v, "ld l,l") {
        Some(0x6d)
    } else if eq_str(v, "ld l,(hl)") {
        Some(0x6e)
    } else if eq_str(v, "ld l,a") {
        Some(0x6f)
    } else if eq_str(v, "ld (hl),b") {
        Some(0x70)
    } else if eq_str(v, "ld (hl),c") {
        Some(0x71)
    } else if eq_str(v, "ld (hl),d") {
        Some(0x72)
    } else if eq_str(v, "ld (hl),e") {
        Some(0x73)
    } else if eq_str(v, "ld (hl),h") {
        Some(0x74)
    } else if eq_str(v, "ld (hl),l") {
        Some(0x75)
    } else if eq_str(v, "ld (hl),a") {
        Some(0x77)
    } else if eq_str(v, "ld a,b") {
        Some(0x78)
    } else if eq_str(v, "ld a,c") {
        Some(0x79)
    } else if eq_str(v, "ld a,d") {
        Some(0x7a)
    } else if eq_str(v, "ld a,e") {
        Some(0x7b)
    } else if eq_str(v, "ld a,h") {
        Some(0x7c)
    } else if eq_str(v, "ld a,l") {
        Some(0x7d)
    } else if eq_str(v, "ld a,(hl)") {
        Some(0x7e)
    } else if eq_str(v, "ld a,a") {
        Some(0x7f)
    } else {
        None
    }
}

/// Opcodes of the remaining fixed one- and two-operand forms.

pub open spec fn spec_opcode_fixed(s: Seq<char>) -> Option<u32> {
    if s == "ld a,(bc)"@ {
        Some(0xa)
    } else if s == "ld a,(de)"@ {
        Some(0x1a)
    } else if s == "ld (bc),a"@ {
        Some(0x2)
    } else if s == "ld (de),a"@ {
        Some(0x12)
    } else if s == "ld sp,hl"@ {
        Some(0xf9)
    } else if s == "ld i,a"@ {
        Some(0xed47)
    } else if s == "ld a,i"@ {
        Some(0xed57)
    } else if s == "ld r,a"@ {
        Some(0xed4f)
    } else if s == "ld a,r"@ {
        Some(0xed5f)
    } else if s == "inc b"@ {
        Some(0x4)
    } else if s == "dec b"@ {
        Some(0x5)
    } else if s == "inc c"@ {
        Some(0xc)
    } else if s == "dec c"@ {
        Some(0xd)
    } else if s == "inc d"@ {
        Some(0x14)
    } else if s == "dec d"@ {
        Some(0x15)
    } else if s == "inc e"@ {
        Some(0x1c)
    } else if s == "dec e"@ {
        Some(0x1d)
    } else if s == "inc h"@ {
        Some(0x24)
    } else if s == "dec h"@ {
        Some(0x25)
    } else if s == "inc l"@ {
        Some(0x2c)
    } else if s == "dec l"@ {
        Some(0x2d)
    } else if s == "inc (hl)"@ {
        Some(0x34)
    } else if s == "dec (hl)"@ {
        Some(0x35)
    } else if s == "inc a"@ {
        Some(0x3c)
    } else if s == "dec a"@ {
        Some(0x3d)
    } else if s == "inc bc"@ {
        Some(0x3)
    } else if s == "dec bc"@ {
        Some(0xb)
    } else if s == "inc de"@ {
        Some(0x13)
    } else if s == "dec de"@ {
        Some(0x1b)
    } else if s == "inc hl"@ {
        Some(0x23)
    } else if s == "dec hl"@ {
        Some(0x2b)
    } else if s == "inc sp"@ {
        Some(0x33)
    } else if s == "dec sp"@ {
        Some(0x3b)
    } else if s == "push bc"@ {
        Some(0xc5)
    } else if s == "pop bc"@ {
        Some(0xc1)
    } else if s == "push de"@ {
        Some(0xd5)
    } else if s == "pop de"@ {
        Some(0xd1)
    } else if s == "push hl"@ {
        Some(0xe5)
    } else if s == "pop hl"@ {
        Some(0xe1)
    } else if s == "push af"@ {
        Some(0xf5)
    } else if s == "pop af"@ {
        Some(0xf1)
    } else if s == "ex de,hl"@ {
        Some(0xeb)
    } else if s == "ex af,af'"@ {
        Some(0x8)
    } else if s == "ex (sp),hl"@ {
        Some(0xe3)
    } else if s == "jp (hl)"@ {
        Some(0xe9)
    } else if s == "add hl,bc"@ {
        Some(0x9)
    } else if s == "adc hl,bc"@ {
        Some(0xed4a)
    } else if s == "sbc hl,bc"@ {
        Some(0xed42)
    } else if s == "add hl,de"@ {
        Some(0x19)
    } else if s == "adc hl,de"@ {
        Some(0xed5a)
    } else if s == "sbc hl,de"@ {
        Some(0xed52)
    } else if s == "add hl,hl"@ {
        Some(0x29)
    } else if s == "adc hl,hl"@ {
        Some(0xed6a)
    } else if s == "sbc hl,hl"@ {
        Some(0xed62)
    } else if s == "add hl,sp"@ {
        Some(0x39)
    } else if s == "adc hl,sp"@ {
        Some(0xed7a)
    } else if s == "sbc hl,sp"@ {
        Some(0xed72)
    } else if s == "im 0"@ {
        Some(0xed46)
    } else if s == "im 1"@ {
        Some(0xed56)
    } else if s == "im 2"@ {
        Some(0xed5e)
    } else if s == "rst 0"@ {
        Some(0xc7)
    } else if s == "rst $00"@ {
        Some(0xc7)
    } else if s == "rst 8"@ {
        Some(0xcf)
    } else if s == "rst $08"@ {
        Some(0xcf)
    } else if s == "rst 16"@ {
        Some(0xd7)
    } else if s == "rst $10"@ {
        Some(0xd7)
    } else if s == "rst 24"@ {
        Some(0xdf)
    } else if s == "rst $18"@ {
        Some(0xdf)
    } else if s == "rst 32"@ {
        Some(0xe7)
    } else if s == "rst $20"@ {
        Some(0xe7)
    } else if s == "rst 40"@ {
        Some(0xef)
    } else if s == "rst $28"@ {
        Some(0xef)
    } else if s == "rst 48"@ {
        Some(0xf7)
    } else if s == "rst $30"@ {
        Some(0xf7)
    } else if s == "rst 56"@ {
        Some(0xff)
    } else if s == "rst $38"@ {
        Some(0xff)
    } else {
        None
    }
}

pub fn opcode_fixed(v: &[char]) -> (r: Option<u32>)
    ensures
        r == spec_opcode_fixed(v@),
{
    if eq_str(v, "ld a,(bc)") {
        Some(0xa)
    } else if eq_str(v, "ld a,(de)") {
        Some(0x1a)
    } else if eq_str(v, "ld (bc),a") {
        Some(0x2)
    } else if eq_str(v, "ld (de),a") {
        Some(0x12)
    } else if eq_str(v, "ld sp,hl") {
        Some(0xf9)
    } else if eq_str(v, "ld i,a") {
        Some(0xed47)
    } else if eq_str(v, "ld a,i") {
        Some(0xed57)
    } else if eq_str(v, "ld r,a") {
        Some(0xed4f)
    } else if eq_str(v, "ld a,r") {
        Some(0xed5f)
    } else if eq_str(v, "inc b") {
        Some(0x4)
    } else if eq_str(v, "dec b") {
        Some(0x5)
    } else if eq_str(v, "inc c") {
        Some(0xc)
    } else if eq_str(v, "dec c") {
        Some(0xd)
    } else if eq_str(v, "inc d") {
        Some(0x14)
    } else if eq_str(v, "dec d") {
        Some(0x15)
    } else if eq_str(v, "inc e") {
        Some(0x1c)
    } else if eq_str(v, "dec e") {
        Some(0x1d)
    } else if eq_str(v, "inc h") {
        Some(0x24)
    } else if eq_str(v, "dec h") {
        Some(0x25)
    } else if eq_str(v, "inc l") {
        Some(0x2c)
    } else if eq_str(v, "dec l") {
        Some(0x2d)
    } else if eq_str(v, "inc (hl)") {
        Some(0x34)
    } else if eq_str(v, "dec (hl)") {
        Some(0x35)
    } else if eq_str(v, "inc a") {
        Some(0x3c)
    } else if eq_str(v, "dec a") {
        Some(0x3d)
    } else if eq_str(v, "inc bc") {
        Some(0x3)
    } else if eq_str(v, "dec bc") {
        Some(0xb)
    } else if eq_str(v, "inc de") {
        Some(0x13)
    } else if eq_str(v, "dec de") {
        Some(0x1b)
    } else if eq_str(v, "inc hl") {
        Some(0x23)
    } else if eq_str(v, "dec hl") {
        Some(0x2b)
    } else if eq_str(v, "inc sp") {
        Some(0x33)
    } else if eq_str(v, "dec sp") {
        Some(0x3b)
    } else if eq_str(v, "push bc") {
        Some(0xc5)
    } else if eq_str(v, "pop bc") {
        Some(0xc1)
    } else if eq_str(v, "push de") {
        Some(0xd5)
    } else if eq_str(v, "pop de") {
        Some(0xd1)
    } else if eq_str(v, "push hl") {
        Some(0xe5)
    } else if eq_str(v, "pop hl") {
        Some(0xe1)
    } else if eq_str(v, "push af") {
        Some(0xf5)
    } else if eq_str(v, "pop af") {
        Some(0xf1)
    } else if eq_str(v, "ex de,hl") {
        Some(0xeb)
    } else if eq_str(v, "ex af,af'") {
        Some(0x8)
    } else if eq_str(v, "ex (sp),hl") {
        Some(0xe3)
    } else if eq_str(v, "jp (hl)") {
        Some(0xe9)
    } else if eq_str(v, "add hl,bc") {
        Some(0x9)
    } else if eq_str(v, "adc hl,bc") {
        Some(0xed4a)
    } else if eq_str(v, "sbc hl,bc") {
        Some(0xed42)
    } else if eq_str(v, "add hl,de") {
        Some(0x19)
    } else if eq_str(v, "adc hl,de") {
        Some(0xed5a)
    } else if eq_str(v, "sbc hl,de") {
        Some(0xed52)
    } else if eq_str(v, "add hl,hl") {
        Some(0x29)
    } else if eq_str(v, "adc hl,hl") {
        Some(0xed6a)
    } else if eq_str(v, "sbc hl,hl") {
        Some(0xed62)
    } else if eq_str(v, "add hl,sp") {
        Some(0x39)
    } else if eq_str(v, "adc hl,sp") {
        Some(0xed7a)
    } else if eq_str(v, "sbc hl,sp") {
        Some(0xed72)
    } else if eq_str(v, "im 0") {
        Some(0xed46)
    } else if eq_str(v, "im 1") {
        Some(0xed56)
    } else if eq_str(v, "im 2") {
        Some(0xed5e)
    } else if eq_str(v, "rst 0") {
        Some(0xc7)
    } else if eq_str(v, "rst $00") {
        Some(0xc7)
    } else if eq_str(v, "rst 8") {
        Some(0xcf)
    } else if eq_str(v, "rst $08") {
        Some(0xcf)
    } else if eq_str(v, "rst 16") {
        Some(0xd7)
    } else if eq_str(v, "rst $10") {
        Some(0xd7)
    } else if eq_str(v, "rst 24") {
        Some(0xdf)
    } else if eq_str(v, "rst $18") {
        Some(0xdf)
    } else if eq_str(v, "rst 32") {
        Some(0xe7)
    } else if eq_str(v, "rst $20") {
        Some(0xe7)
    } else if eq_str(v, "rst 40") {
        Some(0xef)
    } else if eq_str(v, "rst $28") {
        Some(0xef)
    } else if eq_str(v, "rst 48") {
        Some(0xf7)
    } else if eq_str(v, "rst $30") {
        Some(0xf7)
    } else if eq_str(v, "rst 56") {
        Some(0xff)
    } else if eq_str(v, "rst $38") {
        Some(0xff)
    } else {
        None
    }
}

/// Opcodes of accumulator arithmetic on registers, both spellings.

pub open spec fn spec_opcode_arith_reg(s: Seq<char>) -> Option<u32> {
    if s == "add a,b"@ {
        Some(0x80)
    } else if s == "add b"@ {
        Some(0x80)
    } else if s == "add a,c"@ {
        Some(0x81)
    } else if s == "add c"@ {
        Some(0x81)
    } else if s == "add a,d"@ {
        Some(0x82)
    } else if s == "add d"@ {
        Some(0x82)
    } else if s == "add a,e"@ {
        Some(0x83)
    } else if s == "add e"@ {
        Some(0x83)
    } else if s == "add a,h"@ {
        Some(0x84)
    } else if s == "add h"@ {
        Some(0x84)
    } else if s == "add a,l"@ {
        Some(0x85)
    } else if s == "add l"@ {
        Some(0x85)
    } else if s == "add a,(hl)"@ {
        Some(0x86)
    } else if s == "add (hl)"@ {
        Some(0x86)
    } else if s == "add a,a"@ {
        Some(0x87)
    } else if s == "add a"@ {
        Some(0x87)
    } else if s == "adc a,b"@ {
        Some(0x88)
    } else if s == "adc b"@ {
        Some(0x88)
    } else if s == "adc a,c"@ {
        Some(0x89)
    } else if s == "adc c"@ {
        Some(0x89)
    } else if s == "adc a,d"@ {
        Some(0x8a)
    } else if s == "adc d"@ {
        Some(0x8a)
    } else if s == "adc a,e"@ {
        Some(0x8b)
    } else if s == "adc e"@ {
        Some(0x8b)
    } else if s == "adc a,h"@ {
        Some(0x8c)
    } else if s == "adc h"@ {
        Some(0x8c)
    } else if s == "adc a,l"@ {
        Some(0x8d)
    } else if s == "adc l"@ {
        Some(0x8d)
    } else if s == "adc a,(hl)"@ {
        Some(0x8e)
    } else if s == "adc (hl)"@ {
        Some(0x8e)
    } else if s == "adc a,a"@ {
        Some(0x8f)
    } else if s == "adc a"@ {
        Some(0x8f)
    } else if s == "sub a,b"@ {
        Some(0x90)
    } else if s == "sub b"@ {
        Some(0x90)
    } else if s == "sub a,c"@ {
        Some(0x91)
    } else if s == "sub c"@ {
        Some(0x91)
    } else if s == "sub a,d"@ {
        Some(0x92)
    } else if s == "sub d"@ {
        Some(0x92)
    } else if s == "sub a,e"@ {
        Some(0x93)
    } else if s == "sub e"@ {
        Some(0x93)
    } else if s == "sub a,h"@ {
        Some(0x94)
    } else if s == "sub h"@ {
        Some(0x94)
    } else if s == "sub a,l"@ {
        Some(0x95)
    } else if s == "sub l"@ {
        Some(0x95)
    } else if s == "sub a,(hl)"@ {
        Some(0x96)
    } else if s == "sub (hl)"@ {
        Some(0x96)
    } else if s == "sub a,a"@ {
        Some(0x97)
    } else if s == "sub a"@ {
        Some(0x97)
    } else if s == "sbc a,b"@ {
        Some(0x98)
    } else if s == "sbc b"@ {
        Some(0x98)
    } else if s == "sbc a,c"@ {
        Some(0x99)
    } else if s == "sbc c"@ {
        Some(0x99)
    } else if s == "sbc a,d"@ {
        Some(0x9a)
    } else if s == "sbc d"@ {
        Some(0x9a)
    } else if s == "sbc a,e"@ {
        Some(0x9b)
    } else if s == "sbc e"@ {
        Some(0x9b)
    } else if s == "sbc a,h"@ {
        Some(0x9c)
    } else if s == "sbc h"@ {
        Some(0x9c)
    } else if s == "sbc a,l"@ {
        Some(0x9d)
    } else if s == "sbc l"@ {
        Some(0x9d)
    } else if s == "sbc a,(hl)"@ {
        Some(0x9e)
    } else if s == "sbc (hl)"@ {
        Some(0x9e)
    } else if s == "sbc a,a"@ {
        Some(0x9f)
    } else if s == "sbc a"@ {
        Some(0x9f)
    } else if s == "and a,b"@ {
        Some(0xa0)
    } else if s == "and b"@ {
        Some(0xa0)
    } else if s == "and a,c"@ {
        Some(0xa1)
    } else if s == "and c"@ {
        Some(0xa1)
    } else if s == "and a,d"@ {
        Some(0xa2)
    } else if s == "and d"@ {
        Some(0xa2)
    } else if s == "and a,e"@ {
        Some(0xa3)
    } else if s == "and e"@ {
        Some(0xa3)
    } else if s == "and a,h"@ {
        Some(0xa4)
    } else if s == "and h"@ {
        Some(0xa4)
    } else if s == "and a,l"@ {
        Some(0xa5)
    } else if s == "and l"@ {
        Some(0xa5)
    } else if s == "and a,(hl)"@ {
        Some(0xa6)
    } else if s == "and (hl)"@ {
        Some(0xa6)
    } else if s == "and a,a"@ {
        Some(0xa7)
    } else if s == "and a"@ {
        Some(0xa7)
    } else if s == "xor a,b"@ {
        Some(0xa8)
    } else if s == "xor b"@ {
        Some(0xa8)
    } else if s == "xor a,c"@ {
        Some(0xa9)
    } else if s == "xor c"@ {
        Some(0xa9)
    } else if s == "xor a,d"@ {
        Some(0xaa)
    } else if s == "xor d"@ {
        Some(0xaa)
    } else if s == "xor a,e"@ {
        Some(0xab)
    } else if s == "xor e"@ {
        Some(0xab)
    } else if s == "xor a,h"@ {
        Some(0xac)
    } else if s == "xor h"@ {
        Some(0xac)
    } else if s == "xor a,l"@ {
        Some(0xad)
    } else if s == "xor l"@ {
        Some(0xad)
    } else if s == "xor a,(hl)"@ {
        Some(0xae)
    } else if s == "xor (hl)"@ {
        Some(0xae)
    } else if s == "xor a,a"@ {
        Some(0xaf)
    } else if s == "xor a"@ {
        Some(0xaf)
    } else if s == "or a,b"@ {
        Some(0xb0)
    } else if s == "or b"@ {
        Some(0xb0)
    } else if s == "or a,c"@ {
        Some(0xb1)
    } else if s == "or c"@ {
        Some(0xb1)
    } else if s == "or a,d"@ {
        Some(0xb2)
    } else if s == "or d"@ {
        Some(0xb2)
    } else if s == "or a,e"@ {
        Some(0xb3)
    } else if s == "or e"@ {
        Some(0xb3)
    } else if s == "or a,h"@ {
        Some(0xb4)
    } else if s == "or h"@ {
        Some(0xb4)
    } else if s == "or a,l"@ {
        Some(0xb5)
    } else if s == "or l"@ {
        Some(0xb5)
    } else if s == "or a,(hl)"@ {
        Some(0xb6)
    } else if s == "or (hl)"@ {
        Some(0xb6)
    } else if s == "or a,a"@ {
        Some(0xb7)
    } else if s == "or a"@ {
        Some(0xb7)
    } else if s == "cp a,b"@ {
        Some(0xb8)
    } else if s == "cp b"@ {
        Some(0xb8)
    } else if s == "cp a,c"@ {
        Some(0xb9)
    } else if s == "cp c"@ {
        Some(0xb9)
    } else if s == "cp a,d"@ {
        Some(0xba)
    } else if s == "cp d"@ {
        Some(0xba)
    } else if s == "cp a,e"@ {
        Some(0xbb)
    } else if s == "cp e"@ {
        Some(0xbb)
    } else if s == "cp a,h"@ {
        Some(0xbc)
    } else if s == "cp h"@ {
        Some(0xbc)
    } else if s == "cp a,l"@ {
        Some(0xbd)
    } else if s == "cp l"@ {
        Some(0xbd)
    } else if s == "cp a,(hl)"@ {
        Some(0xbe)
    } else if s == "cp (hl)"@ {
        Some(0xbe)
    } else if s == "cp a,a"@ {
        Some(0xbf)
    } else if s == "cp a"@ {
        Some(0xbf)
    } else {
        None
    }
}

pub fn opcode_arith_reg(v: &[char]) -> (r: Option<u32>)
    ensures
        r == spec_opcode_arith_reg(v@),
{
    if eq_str(v, "add a,b") {
        Some(0x80)
    } else if eq_str(v, "add b") {
        Some(0x80)
    } else if eq_str(v, "add a,c") {
        Some(0x81)
    } else if eq_str(v, "add c") {
        Some(0x81)
    } else if eq_str(v, "add a,d") {
        Some(0x82)
    } else if eq_str(v, "add d") {
        Some(0x82)
    } else if eq_str(v, "add a,e") {
        Some(0x83)
    } else if eq_str(v, "add e") {
        Some(0x83)
    } else if eq_str(v, "add a,h") {
        Some(0x84)
    } else if eq_str(v, "add h") {
        Some(0x84)
    } else if eq_str(v, "add a,l") {
        Some(0x85)
    } else if eq_str(v, "add l") {
        Some(0x85)
    } else if eq_str(v, "add a,(hl)") {
        Some(0x86)
    } else if eq_str(v, "add (hl)") {
        Some(0x86)
    } else if eq_str(v, "add a,a") {
        Some(0x87)
    } else if eq_str(v, "add a") {
        Some(0x87)
    } else if eq_str(v, "adc a,b") {
        Some(0x88)
    } else if eq_str(v, "adc b") {
        Some(0x88)
    } else if eq_str(v, "adc a,c") {
        Some(0x89)
    } else if eq_str(v, "adc c") {
        Some(0x89)
    } else if eq_str(v, "adc a,d") {
        Some(0x8a)
    } else if eq_str(v, "adc d") {
        Some(0x8a)
    } else if eq_str(v, "adc a,e") {
        Some(0x8b)
    } else if eq_str(v, "adc e") {
        Some(0x8b)
    } else if eq_str(v, "adc a,h") {
        Some(0x8c)
    } else if eq_str(v, "adc h") {
        Some(0x8c)
    } else if eq_str(v, "adc a,l") {
        Some(0x8d)
    } else if eq_str(v, "adc l") {
        Some(0x8d)
    } else if eq_str(v, "adc a,(hl)") {
        Some(0x8e)
    } else if eq_str(v, "adc (hl)") {
        Some(0x8e)
    } else if eq_str(v, "adc a,a") {
        Some(0x8f)
    } else if eq_str(v, "adc a") {
        Some(0x8f)
    } else if eq_str(v, "sub a,b") {
        Some(0x90)
    } else if eq_str(v, "sub b") {
        Some(0x90)
    } else if eq_str(v, "sub a,c") {
        Some(0x91)
    } else if eq_str(v, "sub c") {
        Some(0x91)
    } else if eq_str(v, "sub a,d") {
        Some(0x92)
    } else if eq_str(v, "sub d") {
        Some(0x92)
    } else if eq_str(v, "sub a,e") {
        Some(0x93)
    } else if eq_str(v, "sub e") {
        Some(0x93)
    } else if eq_str(v, "sub a,h") {
        Some(0x94)
    } else if eq_str(v, "sub h") {
        Some(0x94)
    } else if eq_str(v, "sub a,l") {
        Some(0x95)
    } else if eq_str(v, "sub l") {
        Some(0x95)
    } else if eq_str(v, "sub a,(hl)") {
        Some(0x96)
    } else if eq_str(v, "sub (hl)") {
        Some(0x96)
    } else if eq_str(v, "sub a,a") {
        Some(0x97)
    } else if eq_str(v, "sub a") {
        Some(0x97)
    } else if eq_str(v, "sbc a,b") {
        Some(0x98)
    } else if eq_str(v, "sbc b") {
        Some(0x98)
    } else if eq_str(v, "sbc a,c") {
        Some(0x99)
    } else if eq_str(v, "sbc c") {
        Some(0x99)
    } else if eq_str(v, "sbc a,d") {
        Some(0x9a)
    } else if eq_str(v, "sbc d") {
        Some(0x9a)
    } else if eq_str(v, "sbc a,e") {
        Some(0x9b)
    } else if eq_str(v, "sbc e") {
        Some(0x9b)
    } else if eq_str(v, "sbc a,h") {
        Some(0x9c)
    } else if eq_str(v, "sbc h") {
        Some(0x9c)
    } else if eq_str(v, "sbc a,l") {
        Some(0x9d)
    } else if eq_str(v, "sbc l") {
        Some(0x9d)
    } else if eq_str(v, "sbc a,(hl)") {
        Some(0x9e)
    } else if eq_str(v, "sbc (hl)") {
        Some(0x9e)
    } else if eq_str(v, "sbc a,a") {
        Some(0x9f)
    } else if eq_str(v, "sbc a") {
        Some(0x9f)
    } else if eq_str(v, "and a,b") {
        Some(0xa0)
    } else if eq_str(v, "and b") {
        Some(0xa0)
    } else if eq_str(v, "and a,c") {
        Some(0xa1)
    } else if eq_str(v, "and c") {
        Some(0xa1)
    } else if eq_str(v, "and a,d") {
        Some(0xa2)
    } else if eq_str(v, "and d") {
        Some(0xa2)
    } else if eq_str(v, "and a,e") {
        Some(0xa3)
    } else if eq_str(v, "and e") {
        Some(0xa3)
    } else if eq_str(v, "and a,h") {
        Some(0xa4)
    } else if eq_str(v, "and h") {
        Some(0xa4)
    } else if eq_str(v, "and a,l") {
        Some(0xa5)
    } else if eq_str(v, "and l") {
        Some(0xa5)
    } else if eq_str(v, "and a,(hl)") {
        Some(0xa6)
    } else if eq_str(v, "and (hl)") {
        Some(0xa6)
    } else if eq_str(v, "and a,a") {
        Some(0xa7)
    } else if eq_str(v, "and a") {
        Some(0xa7)
    } else if eq_str(v, "xor a,b") {
        Some(0xa8)
    } else if eq_str(v, "xor b") {
        Some(0xa8)
    } else if eq_str(v, "xor a,c") {
        Some(0xa9)
    } else if eq_str(v, "xor c") {
        Some(0xa9)
    } else if eq_str(v, "xor a,d") {
        Some(0xaa)
    } else if eq_str(v, "xor d") {
        Some(0xaa)
    } else if eq_str(v, "xor a,e") {
        Some(0xab)
    } else if eq_str(v, "xor e") {
        Some(0xab)
    } else if eq_str(v, "xor a,h") {
        Some(0xac)
    } else if eq_str(v, "xor h") {
        Some(0xac)
    } else if eq_str(v, "xor a,l") {
        Some(0xad)
    } else if eq_str(v, "xor l") {
        Some(0xad)
    } else if eq_str(v, "xor a,(hl)") {
        Some(0xae)
    } else if eq_str(v, "xor (hl)") {
        Some(0xae)
    } else if eq_str(v, "xor a,a") {
        Some(0xaf)
    } else if eq_str(v, "xor a") {
        Some(0xaf)
    } else if eq_str(v, "or a,b") {
        Some(0xb0)
    } else if eq_str(v, "or b") {
        Some(0xb0)
    } else if eq_str(v, "or a,c") {
        Some(0xb1)
    } else if eq_str(v, "or c") {
        Some(0xb1)
    } else if eq_str(v, "or a,d") {
        Some(0xb2)
    } else if eq_str(v, "or d") {
        Some(0xb2)
    } else if eq_str(v, "or a,e") {
        Some(0xb3)
    } else if eq_str(v, "or e") {
        Some(0xb3)
    } else if eq_str(v, "or a,h") {
        Some(0xb4)
    } else if eq_str(v, "or h") {
        Some(0xb4)
    } else if eq_str(v, "or a,l") {
        Some(0xb5)
    } else if eq_str(v, "or l") {
        Some(0xb5)
    } else if eq_str(v, "or a,(hl)") {
        Some(0xb6)
    } else if eq_str(v, "or (hl)") {
        Some(0xb6)
    } else if eq_str(v, "or a,a") {
        Some(0xb7)
    } else if eq_str(v, "or a") {
        Some(0xb7)
    } else if eq_str(v, "cp a,b") {
        Some(0xb8)
    } else if eq_str(v, "cp b") {
        Some(0xb8)
    } else if eq_str(v, "cp a,c") {
        Some(0xb9)
    } else if eq_str(v, "cp c") {
        Some(0xb9)
    } else if eq_str(v, "cp a,d") {
        Some(0xba)
    } else if eq_str(v, "cp d") {
        Some(0xba)
    } else if eq_str(v, "cp a,e") {
        Some(0xbb)
    } else if eq_str(v, "cp e") {
        Some(0xbb)
    } else if eq_str(v, "cp a,h") {
        Some(0xbc)
    } else if eq_str(v, "cp h") {
        Some(0xbc)
    } else if eq_str(v, "cp a,l") {
        Some(0xbd)
    } else if eq_str(v, "cp l") {
        Some(0xbd)
    } else if eq_str(v, "cp a,(hl)") {
        Some(0xbe)
    } else if eq_str(v, "cp (hl)") {
        Some(0xbe)
    } else if eq_str(v, "cp a,a") {
        Some(0xbf)
    } else if eq_str(v, "cp a") {
        Some(0xbf)
    } else {
        None
    }
}

/// The opcode of a fixed-form instruction, keyed by its full lower-case
/// text ("mnemonic operands", or the bare mnemonic). Values above 0xff
/// encode two bytes, high byte first.
pub open spec fn spec_opcode_of(s: Seq<char>) -> Option<u32> {
    match spec_opcode_bare(s) {
        Some(v) => Some(v),
        None => match spec_opcode_ld_rr(s) {
            Some(v) => Some(v),
            None => match spec_opcode_fixed(s) {
                Some(v) => Some(v),
                None => spec_opcode_arith_reg(s),
            },
        },
    }
}

/// Look up a fixed-form instruction by its full lower-case text.
pub fn opcode_of(v: &[char]) -> (r: Option<u32>)
    ensures
        r == spec_opcode_of(v@),
{
    match opcode_bare(v) {
        Some(x) => Some(x),
        None => match opcode_ld_rr(v) {
            Some(x) => Some(x),
            None => match opcode_fixed(v) {
                Some(x) => Some(x),
                None => opcode_arith_reg(v),
            },
        },
    }
}


/// The opcode of an 8-bit register load-immediate, by destination.

pub open spec fn spec_reg_load_imm(s: Seq<char>) -> Option<u8> {
    if s == "a"@ {
        Some(0x3e)
    } else if s == "b"@ {
        Some(0x6)
    } else if s == "c"@ {
        Some(0xe)
    } else if s == "d"@ {
        Some(0x16)
    } else if s == "e"@ {
        Some(0x1e)
    } else if s == "h"@ {
        Some(0x26)
    } else if s == "l"@ {
        Some(0x2e)
    } else if s == "(hl)"@ {
        Some(0x36)
    } else {
        None
    }
}

pub fn reg_load_imm(v: &[char]) -> (r: Option<u8>)
    ensures
        r == spec_reg_load_imm(v@),
{
    if eq_str(v, "a") {
        Some(0x3e)
    } else if eq_str(v, "b") {
        Some(0x6)
    } else if eq_str(v, "c") {
        Some(0xe)
    } else if eq_str(v, "d") {
        Some(0x16)
    } else if eq_str(v, "e") {
        Some(0x1e)
    } else if eq_str(v, "h") {
        Some(0x26)
    } else if eq_str(v, "l") {
        Some(0x2e)
    } else if eq_str(v, "(hl)") {
        Some(0x36)
    } else {
        None
    }
}

/// Entry-point addresses of the platform system calls, by name.

pub open spec fn spec_rom_call(s: Seq<char>) -> Option<u16> {
    if s == "_ClrLCDFull"@ {
        Some(0x4540)
    } else if s == "_ClrScrnFull"@ {
        Some(0x4546)
    } else if s == "_HomeUp"@ {
        Some(0x4558)
    } else if s == "_PutS"@ {
        Some(0x450a)
    } else if s == "_PutC"@ {
        Some(0x4504)
    } else if s == "_PutMap"@ {
        Some(0x4501)
    } else if s == "_NewLine"@ {
        Some(0x452e)
    } else if s == "_DispHL"@ {
        Some(0x4507)
    } else if s == "_GetKey"@ {
        Some(0x4972)
    } else if s == "_GetCSC"@ {
        Some(0x4018)
    } else if s == "_FPAdd"@ {
        Some(0x4072)
    } else if s == "_FPSub"@ {
        Some(0x406e)
    } else if s == "_FPMult"@ {
        Some(0x4084)
    } else if s == "_FPDiv"@ {
        Some(0x4094)
    } else if s == "_FPSquare"@ {
        Some(0x4083)
    } else if s == "_SqRoot"@ {
        Some(0x40f1)
    } else if s == "_ChkFindSym"@ {
        Some(0x42f1)
    } else if s == "_FindSym"@ {
        Some(0x42f4)
    } else if s == "_CreateReal"@ {
        Some(0x4284)
    } else if s == "_CreateProg"@ {
        Some(0x42a7)
    } else if s == "_DelVar"@ {
        Some(0x4fc6)
    } else if s == "_DelVarArc"@ {
        Some(0x4fc6)
    } else if s == "_StoAns"@ {
        Some(0x4abf)
    } else if s == "_RclAns"@ {
        Some(0x4ad7)
    } else if s == "_OP1ToOP2"@ {
        Some(0x407f)
    } else if s == "_OP2ToOP1"@ {
        Some(0x4093)
    } else if s == "_OP1Set0"@ {
        Some(0x41b2)
    } else if s == "_OP1Set1"@ {
        Some(0x41af)
    } else if s == "_SetXXOP1"@ {
        Some(0x478c)
    } else if s == "_SetXXXXOP2"@ {
        Some(0x4792)
    } else if s == "_DispOP1A"@ {
        Some(0x4bf7)
    } else if s == "_ConvOP1"@ {
        Some(0x4aef)
    } else if s == "_RunIndicOff"@ {
        Some(0x4570)
    } else if s == "_RunIndicOn"@ {
        Some(0x456d)
    } else if s == "_GrBufClr"@ {
        Some(0x4bd0)
    } else if s == "_GrBufCpy"@ {
        Some(0x486a)
    } else if s == "_ILine"@ {
        Some(0x4798)
    } else if s == "_IPoint"@ {
        Some(0x47e0)
    } else if s == "_DarkPnt"@ {
        Some(0x47e9)
    } else if s == "_ClrTxtShd"@ {
        Some(0x4548)
    } else if s == "_VPutS"@ {
        Some(0x4561)
    } else if s == "_VPutMap"@ {
        Some(0x455e)
    } else if s == "_CpHLDE"@ {
        Some(0x400c)
    } else if s == "_DivHLBy10"@ {
        Some(0x400f)
    } else if s == "_MemSet"@ {
        Some(0x4c33)
    } else if s == "_MemClear"@ {
        Some(0x4c30)
    } else if s == "_EnableAPD"@ {
        Some(0x4c87)
    } else if s == "_DisableAPD"@ {
        Some(0x4c84)
    } else {
        None
    }
}

pub fn rom_call(v: &[char]) -> (r: Option<u16>)
    ensures
        r == spec_rom_call(v@),
{
    if eq_str(v, "_ClrLCDFull") {
        Some(0x4540)
    } else if eq_str(v, "_ClrScrnFull") {
        Some(0x4546)
    } else if eq_str(v, "_HomeUp") {
        Some(0x4558)
    } else if eq_str(v, "_PutS") {
        Some(0x450a)
    } else if eq_str(v, "_PutC") {
        Some(0x4504)
    } else if eq_str(v, "_PutMap") {
        Some(0x4501)
    } else if eq_str(v, "_NewLine") {
        Some(0x452e)
    } else if eq_str(v, "_DispHL") {
        Some(0x4507)
    } else if eq_str(v, "_GetKey") {
        Some(0x4972)
    } else if eq_str(v, "_GetCSC") {
        Some(0x4018)
    } else if eq_str(v, "_FPAdd") {
        Some(0x4072)
    } else if eq_str(v, "_FPSub") {
        Some(0x406e)
    } else if eq_str(v, "_FPMult") {
        Some(0x4084)
    } else if eq_str(v, "_FPDiv") {
        Some(0x4094)
    } else if eq_str(v, "_FPSquare") {
        Some(0x4083)
    } else if eq_str(v, "_SqRoot") {
        Some(0x40f1)
    } else if eq_str(v, "_ChkFindSym") {
        Some(0x42f1)
    } else if eq_str(v, "_FindSym") {
        Some(0x42f4)
    } else if eq_str(v, "_CreateReal") {
        Some(0x4284)
    } else if eq_str(v, "_CreateProg") {
        Some(0x42a7)
    } else if eq_str(v, "_DelVar") {
        Some(0x4fc6)
    } else if eq_str(v, "_DelVarArc") {
        Some(0x4fc6)
    } else if eq_str(v, "_StoAns") {
        Some(0x4abf)
    } else if eq_str(v, "_RclAns") {
        Some(0x4ad7)
    } else if eq_str(v, "_OP1ToOP2") {
        Some(0x407f)
    } else if eq_str(v, "_OP2ToOP1") {
        Some(0x4093)
    } else if eq_str(v, "_OP1Set0") {
        Some(0x41b2)
    } else if eq_str(v, "_OP1Set1") {
        Some(0x41af)
    } else if eq_str(v, "_SetXXOP1") {
        Some(0x478c)
    } else if eq_str(v, "_SetXXXXOP2") {
        Some(0x4792)
    } else if eq_str(v, "_DispOP1A") {
        Some(0x4bf7)
    } else if eq_str(v, "_ConvOP1") {
        Some(0x4aef)
    } else if eq_str(v, "_RunIndicOff") {
        Some(0x4570)
    } else if eq_str(v, "_RunIndicOn") {
        Some(0x456d)
    } else if eq_str(v, "_GrBufClr") {
        Some(0x4bd0)
    } else if eq_str(v, "_GrBufCpy") {
        Some(0x486a)
    } else if eq_str(v, "_ILine") {
        Some(0x4798)
    } else if eq_str(v, "_IPoint") {
        Some(0x47e0)
    } else if eq_str(v, "_DarkPnt") {
        Some(0x47e9)
    } else if eq_str(v, "_ClrTxtShd") {
        Some(0x4548)
    } else if eq_str(v, "_VPutS") {
        Some(0x4561)
    } else if eq_str(v, "_VPutMap") {
        Some(0x455e)
    } else if eq_str(v, "_CpHLDE") {
        Some(0x400c)
    } else if eq_str(v, "_DivHLBy10") {
        Some(0x400f)
    } else if eq_str(v, "_MemSet") {
        Some(0x4c33)
    } else if eq_str(v, "_MemClear") {
        Some(0x4c30)
    } else if eq_str(v, "_EnableAPD") {
        Some(0x4c87)
    } else if eq_str(v, "_DisableAPD") {
        Some(0x4c84)
    } else {
        None
    }
}

/// Addresses of the named system variables.

pub open spec fn spec_sys_var(s: Seq<char>) -> Option<u16> {
    if s == "curRow"@ {
        Some(0x844b)
    } else if s == "curCol"@ {
        Some(0x844c)
    } else if s == "penCol"@ {
        Some(0x86d7)
    } else if s == "penRow"@ {
        Some(0x86d8)
    } else if s == "OP1"@ {
        Some(0x8478)
    } else if s == "OP2"@ {
        Some(0x8483)
    } else if s == "OP3"@ {
        Some(0x848e)
    } else if s == "OP4"@ {
        Some(0x8499)
    } else if s == "OP5"@ {
        Some(0x84a4)
    } else if s == "OP6"@ {
        Some(0x84af)
    } else if s == "flags"@ {
        Some(0x89f0)
    } else {
        None
    }
}

pub fn sys_var(v: &[char]) -> (r: Option<u16>)
    ensures
        r == spec_sys_var(v@),
{
    if eq_str(v, "curRow") {
        Some(0x844b)
    } else if eq_str(v, "curCol") {
        Some(0x844c)
    } else if eq_str(v, "penCol") {
        Some(0x86d7)
    } else if eq_str(v, "penRow") {
        Some(0x86d8)
    } else if eq_str(v, "OP1") {
        Some(0x8478)
    } else if eq_str(v, "OP2") {
        Some(0x8483)
    } else if eq_str(v, "OP3") {
        Some(0x848e)
    } else if eq_str(v, "OP4") {
        Some(0x8499)
    } else if eq_str(v, "OP5") {
        Some(0x84a4)
    } else if eq_str(v, "OP6") {
        Some(0x84af)
    } else if eq_str(v, "flags") {
        Some(0x89f0)
    } else {
        None
    }
}

} // verus!
