//! The bit-manipulation encoder: `bit`/`res`/`set` with a bit index 0-7 and
//! a register code, and the rotate/shift group, all emitted as the one-byte
//! CB prefix followed by a computed opcode byte.

use vstd::prelude::*;
use crate::calls::option_view;
use crate::chars::{
    eq_str, lemma_contains_count, lemma_split_char_len, spec_trim, split_all, split_char, to_chars,
    trim,
};
use crate::error::{enc_matches, AsmError, ErrKind};
use crate::immediate::{parse_radix, parse_radix_u16};

verus! {

/// The register code used in the low three bits of a CB-prefixed opcode.
pub open spec fn spec_cb_reg_code(s: Seq<char>) -> Option<u8> {
    if s == "b"@ {
        Some(0)
    } else if s == "c"@ {
        Some(1)
    } else if s == "d"@ {
        Some(2)
    } else if s == "e"@ {
        Some(3)
    } else if s == "h"@ {
        Some(4)
    } else if s == "l"@ {
        Some(5)
    } else if s == "(hl)"@ {
        Some(6)
    } else if s == "a"@ {
        Some(7)
    } else {
        None
    }
}

/// Map a register name to its CB opcode code (0-7).
pub fn get_register_code(v: &[char]) -> (r: Option<u8>)
    ensures
        r == spec_cb_reg_code(v@),
{
    if eq_str(v, "b") {
        Some(0)
    } else if eq_str(v, "c") {
        Some(1)
    } else if eq_str(v, "d") {
        Some(2)
    } else if eq_str(v, "e") {
        Some(3)
    } else if eq_str(v, "h") {
        Some(4)
    } else if eq_str(v, "l") {
        Some(5)
    } else if eq_str(v, "(hl)") {
        Some(6)
    } else if eq_str(v, "a") {
        Some(7)
    } else {
        None
    }
}

/// The base opcode of a `bit`/`res`/`set` mnemonic.
pub open spec fn spec_bit_base(s: Seq<char>) -> Option<u8> {
    if s == "bit"@ {
        Some(0x40)
    } else if s == "res"@ {
        Some(0x80)
    } else if s == "set"@ {
        Some(0xc0)
    } else {
        None
    }
}

pub fn bit_base(v: &[char]) -> (r: Option<u8>)
    ensures
        r == spec_bit_base(v@),
{
    if eq_str(v, "bit") {
        Some(0x40)
    } else if eq_str(v, "res") {
        Some(0x80)
    } else if eq_str(v, "set") {
        Some(0xc0)
    } else {
        None
    }
}

/// The base opcode of a rotate/shift mnemonic.
pub open spec fn spec_rot_base(s: Seq<char>) -> Option<u8> {
    if s == "rlc"@ {
        Some(0x00)
    } else if s == "rrc"@ {
        Some(0x08)
    } else if s == "rl"@ {
        Some(0x10)
    } else if s == "rr"@ {
        Some(0x18)
    } else if s == "sla"@ {
        Some(0x20)
    } else if s == "sra"@ {
        Some(0x28)
    } else if s == "sll"@ {
        Some(0x30)
    } else if s == "srl"@ {
        Some(0x38)
    } else {
        None
    }
}

pub fn rot_base(v: &[char]) -> (r: Option<u8>)
    ensures
        r == spec_rot_base(v@),
{
    if eq_str(v, "rlc") {
        Some(0x00)
    } else if eq_str(v, "rrc") {
        Some(0x08)
    } else if eq_str(v, "rl") {
        Some(0x10)
    } else if eq_str(v, "rr") {
        Some(0x18)
    } else if eq_str(v, "sla") {
        Some(0x20)
    } else if eq_str(v, "sra") {
        Some(0x28)
    } else if eq_str(v, "sll") {
        Some(0x30)
    } else if eq_str(v, "srl") {
        Some(0x38)
    } else {
        None
    }
}

/// How the bit-manipulation family encodes, or fails, an instruction.
///
/// `bit n,r`, `res n,r` and `set n,r` need exactly two operands, a bit
/// index that parses as a decimal at most 7, and a recognized register
/// code; the rotates and shifts need exactly one register operand. Every
/// recognized mnemonic with operands either encodes or fails — it never
/// declines.
pub open spec fn spec_bit(mn: Seq<char>, ops: Option<Seq<char>>) -> Result<
    Option<Seq<u8>>,
    ErrKind,
> {
    match ops {
        None => Ok(None),
        Some(o) => {
            let parts = split_char(o, ',');
            match spec_bit_base(mn) {
                Some(base) => {
                    if parts.len() != 2 {
                        Err(ErrKind::InvalidOperandCount)
                    } else {
                        match parse_radix_u16(spec_trim(parts[0]), 10) {
                            Some(n) if n <= 0xFF => if n > 7 {
                                Err(ErrKind::RangeError)
                            } else {
                                match spec_cb_reg_code(spec_trim(parts[1])) {
                                    None => Err(ErrKind::InvalidRegister),
                                    Some(code) => Ok(
                                        Some(seq![0xcbu8, (base + n * 8 + code) as u8]),
                                    ),
                                }
                            },
                            _ => Err(ErrKind::InvalidLiteral),
                        }
                    }
                },
                None => match spec_rot_base(mn) {
                    Some(base) => {
                        if parts.len() != 1 {
                            Err(ErrKind::InvalidOperandCount)
                        } else {
                            match spec_cb_reg_code(spec_trim(parts[0])) {
                                None => Err(ErrKind::InvalidRegister),
                                Some(code) => Ok(Some(seq![0xcbu8, (base + code) as u8])),
                            }
                        }
                    },
                    None => Ok(None),
                },
            }
        },
    }
}

/// Encode a CB-prefixed bit-manipulation instruction, or decline.
pub fn handle_bit_instruction(mnemonic: &str, operands: Option<&str>) -> (r: Result<
    Option<Vec<u8>>,
    AsmError,
>)
    ensures
        enc_matches(r, spec_bit(mnemonic@, option_view(operands))),
{
    let mn = to_chars(mnemonic);
    let ops = match operands {
        None => {
            return Ok(None);
        },
        Some(ops) => ops,
    };
    let o = to_chars(ops);
    let parts = split_all(o.as_slice(), ',');
    proof {
        lemma_split_char_len(o@, ',');
        lemma_contains_count(o@, ',');
    }
    if let Some(base) = bit_base(mn.as_slice()) {
        if parts.len() != 2 {
            return Err(AsmError::new(ErrKind::InvalidOperandCount, o.as_slice()));
        }
        proof {
            assert(parts.deep_view()[0] == parts@[0]@);
            assert(parts.deep_view()[1] == parts@[1]@);
        }
        let p0 = trim(parts[0].as_slice());
        let n = match parse_radix(p0, 10) {
            Some(n) if n <= 0xFF => n,
            _ => {
                return Err(AsmError::new(ErrKind::InvalidLiteral, o.as_slice()));
            },
        };
        if n > 7 {
            return Err(AsmError::new(ErrKind::RangeError, o.as_slice()));
        }
        let p1 = trim(parts[1].as_slice());
        match get_register_code(p1) {
            None => Err(AsmError::new(ErrKind::InvalidRegister, o.as_slice())),
            Some(code) => {
                let opcode: u8 = base + (n as u8) * 8 + code;
                let mut result: Vec<u8> = Vec::new();
                result.push(0xcb);
                result.push(opcode);
                proof {
                    assert(result@ =~= seq![0xcbu8, opcode]);
                }
                Ok(Some(result))
            },
        }
    } else if let Some(base) = rot_base(mn.as_slice()) {
        if parts.len() != 1 {
            return Err(AsmError::new(ErrKind::InvalidOperandCount, o.as_slice()));
        }
        proof {
            assert(parts.deep_view()[0] == parts@[0]@);
        }
        let p0 = trim(parts[0].as_slice());
        match get_register_code(p0) {
            None => Err(AsmError::new(ErrKind::InvalidRegister, o.as_slice())),
            Some(code) => {
                let opcode: u8 = base + code;
                let mut result: Vec<u8> = Vec::new();
                result.push(0xcb);
                result.push(opcode);
                proof {
                    assert(result@ =~= seq![0xcbu8, opcode]);
                }
                Ok(Some(result))
            },
        }
    } else {
        Ok(None)
    }
}

} // verus!
