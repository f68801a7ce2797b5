//! The jump encoder: absolute `jp` with its 8 condition codes plus the
//! unconditional form, and the position-relative `jr`/`djnz`, whose
//! displacement is `target - (current_address + 2)` and must lie in
//! [-128, 127] — outside it, assembly fails with a range error.

use vstd::prelude::*;
use crate::calls::{cond_target, option_view, spec_cond_target};
use crate::chars::{eq_str, to_chars, trim};
use crate::error::{enc_matches, AsmError, ErrKind};
use crate::immediate::{resolve, spec_resolve};
use crate::symtab::SymTab;

verus! {

/// The `jp cc,nn` opcode of a condition code.
pub open spec fn spec_jp_cond_op(s: Seq<char>) -> Option<u8> {
    if s == "nz"@ {
        Some(0xc2)
    } else if s == "z"@ {
        Some(0xca)
    } else if s == "nc"@ {
        Some(0xd2)
    } else if s == "c"@ {
        Some(0xda)
    } else if s == "po"@ {
        Some(0xe2)
    } else if s == "pe"@ {
        Some(0xea)
    } else if s == "p"@ {
        Some(0xf2)
    } else if s == "m"@ {
        Some(0xfa)
    } else {
        None
    }
}

pub fn jp_cond_op(v: &[char]) -> (r: Option<u8>)
    ensures
        r == spec_jp_cond_op(v@),
{
    if eq_str(v, "nz") {
        Some(0xc2)
    } else if eq_str(v, "z") {
        Some(0xca)
    } else if eq_str(v, "nc") {
        Some(0xd2)
    } else if eq_str(v, "c") {
        Some(0xda)
    } else if eq_str(v, "po") {
        Some(0xe2)
    } else if eq_str(v, "pe") {
        Some(0xea)
    } else if eq_str(v, "p") {
        Some(0xf2)
    } else if eq_str(v, "m") {
        Some(0xfa)
    } else {
        None
    }
}

/// The `jr cc,e` opcode of a condition code (only four conditions exist).
pub open spec fn spec_jr_cond_op(s: Seq<char>) -> Option<u8> {
    if s == "nz"@ {
        Some(0x20)
    } else if s == "z"@ {
        Some(0x28)
    } else if s == "nc"@ {
        Some(0x30)
    } else if s == "c"@ {
        Some(0x38)
    } else {
        None
    }
}

pub fn jr_cond_op(v: &[char]) -> (r: Option<u8>)
    ensures
        r == spec_jr_cond_op(v@),
{
    if eq_str(v, "nz") {
        Some(0x20)
    } else if eq_str(v, "z") {
        Some(0x28)
    } else if eq_str(v, "nc") {
        Some(0x30)
    } else if eq_str(v, "c") {
        Some(0x38)
    } else {
        None
    }
}

/// The relative displacement of a 2-byte instruction at `addr` that jumps
/// to `target`: measured from the end of the instruction.
pub open spec fn rel_offset(target: u16, addr: u16) -> int {
    target - (addr + 2)
}

/// Whether a relative displacement fits the signed 8-bit range.
pub open spec fn rel_in_range(off: int) -> bool {
    -128 <= off <= 127
}

/// The two's-complement byte of an in-range displacement.
pub open spec fn disp_byte(off: int) -> u8
    recommends
        rel_in_range(off),
{
    if off >= 0 {
        off as u8
    } else {
        (off + 256) as u8
    }
}

/// How the jump family encodes, or declines, an instruction.
///
/// `jp` takes a 16-bit target, little-endian, after a one-byte opcode
/// picked by the condition. `jr` and `djnz` are position-relative: the
/// displacement is `target - (addr + 2)`, and the family fails with
/// `RangeError` exactly when that displacement falls outside [-128, 127].
pub open spec fn spec_jump(
    mn: Seq<char>,
    ops: Option<Seq<char>>,
    labels: Map<Seq<char>, u16>,
    consts: Map<Seq<char>, u16>,
    addr: u16,
) -> Result<Option<Seq<u8>>, ErrKind> {
    if mn == "jp"@ {
        match ops {
            None => Ok(None),
            Some(o) => {
                let (cond, target) = spec_cond_target(o);
                match spec_resolve(target, labels, consts) {
                    None => Err(ErrKind::InvalidLiteral),
                    Some(a) => {
                        let op = match cond {
                            None => Some(0xc3u8),
                            Some(c) => spec_jp_cond_op(c),
                        };
                        match op {
                            None => Ok(None),
                            Some(op) => Ok(
                                Some(seq![op, (a & 0xff) as u8, ((a >> 8) & 0xff) as u8]),
                            ),
                        }
                    },
                }
            },
        }
    } else if mn == "jr"@ {
        match ops {
            None => Ok(None),
            Some(o) => {
                let (cond, target) = spec_cond_target(o);
                match spec_resolve(target, labels, consts) {
                    None => Err(ErrKind::InvalidLiteral),
                    Some(a) => {
                        let off = rel_offset(a, addr);
                        if !rel_in_range(off) {
                            Err(ErrKind::RangeError)
                        } else {
                            let op = match cond {
                                None => Some(0x18u8),
                                Some(c) => spec_jr_cond_op(c),
                            };
                            match op {
                                None => Ok(None),
                                Some(op) => Ok(Some(seq![op, disp_byte(off)])),
                            }
                        }
                    },
                }
            },
        }
    } else if mn == "djnz"@ {
        match ops {
            None => Ok(None),
            Some(o) => {
                match spec_resolve(crate::chars::spec_trim(o), labels, consts) {
                    None => Err(ErrKind::InvalidLiteral),
                    Some(a) => {
                        let off = rel_offset(a, addr);
                        if !rel_in_range(off) {
                            Err(ErrKind::RangeError)
                        } else {
                            Ok(Some(seq![0x10u8, disp_byte(off)]))
                        }
                    },
                }
            },
        }
    } else {
        Ok(None)
    }
}

/// Compute the displacement byte of a relative jump, or the range failure.
fn rel_disp(target: u16, addr: u16, detail: &[char]) -> (r: Result<u8, AsmError>)
    ensures
        match r {
            Ok(b) => rel_in_range(rel_offset(target, addr)) && b == disp_byte(
                rel_offset(target, addr),
            ),
            Err(e) => !rel_in_range(rel_offset(target, addr)) && e.kind == ErrKind::RangeError,
        },
{
    let off: i32 = (target as i32) - ((addr as i32) + 2);
    if off < -128 || off > 127 {
        Err(AsmError::new(ErrKind::RangeError, detail))
    } else if off >= 0 {
        Ok(off as u8)
    } else {
        Ok((off + 256) as u8)
    }
}

/// Encode a `jp`, `jr` or `djnz`, or decline.
pub fn handle_jump_instruction(
    mnemonic: &str,
    operands: Option<&str>,
    labels: &SymTab,
    constants: &SymTab,
    current_address: u16,
) -> (r: Result<Option<Vec<u8>>, AsmError>)
    ensures
        enc_matches(
            r,
            spec_jump(mnemonic@, option_view(operands), labels@, constants@, current_address),
        ),
{
    let mn = to_chars(mnemonic);
    if eq_str(mn.as_slice(), "jp") {
        match operands {
            None => Ok(None),
            Some(ops) => {
                let o = to_chars(ops);
                let (cond, target) = cond_target(o.as_slice());
                let a = match resolve(target.as_slice(), labels, constants) {
                    Ok(a) => a,
                    Err(e) => {
                        return Err(e);
                    },
                };
                let op: Option<u8> = match &cond {
                    None => Some(0xc3),
                    Some(c) => jp_cond_op(c.as_slice()),
                };
                match op {
                    None => Ok(None),
                    Some(op) => {
                        let mut result: Vec<u8> = Vec::new();
                        result.push(op);
                        result.push((a & 0xff) as u8);
                        result.push(((a >> 8) & 0xff) as u8);
                        proof {
                            assert(result@ =~= seq![
                                op,
                                (a & 0xff) as u8,
                                ((a >> 8) & 0xff) as u8,
                            ]);
                        }
                        Ok(Some(result))
                    },
                }
            },
        }
    } else if eq_str(mn.as_slice(), "jr") {
        match operands {
            None => Ok(None),
            Some(ops) => {
                let o = to_chars(ops);
                let (cond, target) = cond_target(o.as_slice());
                let a = match resolve(target.as_slice(), labels, constants) {
                    Ok(a) => a,
                    Err(e) => {
                        return Err(e);
                    },
                };
                let d = match rel_disp(a, current_address, o.as_slice()) {
                    Ok(d) => d,
                    Err(e) => {
                        return Err(e);
                    },
                };
                let op: Option<u8> = match &cond {
                    None => Some(0x18),
                    Some(c) => jr_cond_op(c.as_slice()),
                };
                match op {
                    None => Ok(None),
                    Some(op) => {
                        let mut result: Vec<u8> = Vec::new();
                        result.push(op);
                        result.push(d);
                        proof {
                            assert(result@ =~= seq![op, d]);
                        }
                        Ok(Some(result))
                    },
                }
            },
        }
    } else if eq_str(mn.as_slice(), "djnz") {
        match operands {
            None => Ok(None),
            Some(ops) => {
                let o = to_chars(ops);
                let target = trim(o.as_slice());
                let a = match resolve(target, labels, constants) {
                    Ok(a) => a,
                    Err(e) => {
                        return Err(e);
                    },
                };
                let d = match rel_disp(a, current_address, o.as_slice()) {
                    Ok(d) => d,
                    Err(e) => {
                        return Err(e);
                    },
                };
                let mut result: Vec<u8> = Vec::new();
                result.push(0x10);
                result.push(d);
                proof {
                    assert(result@ =~= seq![0x10u8, d]);
                }
                Ok(Some(result))
            },
        }
    } else {
        Ok(None)
    }
}

} // verus!
