//! The load encoder for the `ld` mnemonic: 8-bit register-immediate loads,
//! 16-bit register-pair loads (with label targets), direct-memory loads of
//! `hl` and `a` in both directions, consulting the named system-variable
//! addresses before numeric evaluation.

use vstd::prelude::*;
use crate::chars::{eq_str, to_chars};
use crate::error::{enc_matches, AsmError, ErrKind};
use crate::immediate::{eval_chars, resolve, spec_parse_immediate, spec_resolve};
use crate::parser::{spec_split_operands, split_operands_chars, Parser};
use crate::symtab::SymTab;
use crate::tables::{reg_load_imm, spec_reg_load_imm, spec_sys_var, sys_var};

verus! {

/// Whether a piece of text names an 8-bit register or `(hl)`.
pub open spec fn spec_is_reg8(s: Seq<char>) -> bool {
    s == "a"@ || s == "b"@ || s == "c"@ || s == "d"@ || s == "e"@ || s == "h"@ || s == "l"@
        || s == "(hl)"@
}

/// Test whether text names an 8-bit register or `(hl)`.
pub fn is_register(v: &[char]) -> (r: bool)
    ensures
        r == spec_is_reg8(v@),
{
    eq_str(v, "a") || eq_str(v, "b") || eq_str(v, "c") || eq_str(v, "d") || eq_str(v, "e")
        || eq_str(v, "h") || eq_str(v, "l") || eq_str(v, "(hl)")
}

/// Whether text names one of the register pairs that may stand in
/// parentheses as an indirect operand.
pub open spec fn spec_is_pair_indirect(s: Seq<char>) -> bool {
    s == "bc"@ || s == "de"@ || s == "hl"@
}

pub fn is_pair_indirect_pub(v: &[char]) -> (r: bool)
    ensures
        r == spec_is_pair_indirect(v@),
{
    eq_str(v, "bc") || eq_str(v, "de") || eq_str(v, "hl")
}

/// A direct address: a named system variable, else an evaluated immediate.
pub open spec fn spec_sys_or_eval(t: Seq<char>, consts: Map<Seq<char>, u16>) -> Option<u16> {
    match spec_sys_var(t) {
        Some(a) => Some(a),
        None => spec_parse_immediate(t, consts),
    }
}

fn sys_or_eval(t: &[char], consts: &SymTab) -> (r: Result<u16, AsmError>)
    ensures
        match r {
            Ok(v) => spec_sys_or_eval(t@, consts@) == Some(v),
            Err(e) => spec_sys_or_eval(t@, consts@) is None && e.kind == ErrKind::InvalidLiteral,
        },
{
    match sys_var(t) {
        Some(a) => Ok(a),
        None => eval_chars(t, consts),
    }
}

/// A 16-bit load source: a label, a named system variable, else an
/// evaluated immediate.
pub open spec fn spec_label_sys_or_eval(
    t: Seq<char>,
    labels: Map<Seq<char>, u16>,
    consts: Map<Seq<char>, u16>,
) -> Option<u16> {
    if labels.contains_key(t) {
        Some(labels[t])
    } else {
        spec_sys_or_eval(t, consts)
    }
}

fn label_sys_or_eval(t: &[char], labels: &SymTab, consts: &SymTab) -> (r: Result<u16, AsmError>)
    ensures
        match r {
            Ok(v) => spec_label_sys_or_eval(t@, labels@, consts@) == Some(v),
            Err(e) => spec_label_sys_or_eval(t@, labels@, consts@) is None && e.kind
                == ErrKind::InvalidLiteral,
        },
{
    if let Some(v) = labels.lookup(t) {
        return Ok(v);
    }
    sys_or_eval(t, consts)
}

/// The little-endian bytes of a 16-bit value after a one-byte opcode.
pub open spec fn op_word(op: u8, v: u16) -> Seq<u8> {
    seq![op, (v & 0xff) as u8, ((v >> 8) & 0xff) as u8]
}

/// How the load family encodes, declines or fails an `ld` instruction.
///
/// In priority order: an 8-bit register destination with a non-register,
/// non-memory source takes a one-byte immediate (which may be a label's low
/// byte); `hl` loads from a direct address in parentheses; `hl`, `bc`, `de`
/// and `sp` take 16-bit immediates or label addresses; a parenthesized
/// destination stores `hl` or `a` to a direct address, unless the
/// parentheses hold a register pair.
pub open spec fn spec_load(
    o: Seq<char>,
    labels: Map<Seq<char>, u16>,
    consts: Map<Seq<char>, u16>,
) -> Result<Option<Seq<u8>>, ErrKind> {
    let parts = spec_split_operands(o);
    if parts.len() != 2 {
        Ok(None)
    } else {
        let dest = parts[0];
        let src = parts[1];
        if spec_reg_load_imm(dest) is Some && !(src.len() > 0 && src[0] == '(') && !spec_is_reg8(
            src,
        ) {
            let op = spec_reg_load_imm(dest)->Some_0;
            match spec_resolve(src, labels, consts) {
                None => Err(ErrKind::InvalidLiteral),
                Some(v) => Ok(Some(seq![op, (v & 0xff) as u8])),
            }
        } else if dest == "hl"@ && src.len() >= 2 && src[0] == '(' && src.last() == ')' {
            match spec_sys_or_eval(src.subrange(1, src.len() - 1), consts) {
                None => Err(ErrKind::InvalidLiteral),
                Some(a) => Ok(Some(op_word(0x2a, a))),
            }
        } else if dest == "hl"@ {
            match spec_label_sys_or_eval(src, labels, consts) {
                None => Err(ErrKind::InvalidLiteral),
                Some(v) => Ok(Some(op_word(0x21, v))),
            }
        } else if dest == "bc"@ {
            match spec_resolve(src, labels, consts) {
                None => Err(ErrKind::InvalidLiteral),
                Some(v) => Ok(Some(op_word(0x01, v))),
            }
        } else if dest == "de"@ {
            match spec_resolve(src, labels, consts) {
                None => Err(ErrKind::InvalidLiteral),
                Some(v) => Ok(Some(op_word(0x11, v))),
            }
        } else if dest == "sp"@ {
            match spec_resolve(src, labels, consts) {
                None => Err(ErrKind::InvalidLiteral),
                Some(v) => Ok(Some(op_word(0x31, v))),
            }
        } else if dest.len() >= 2 && dest[0] == '(' && dest.last() == ')' && src == "hl"@ {
            match spec_sys_or_eval(dest.subrange(1, dest.len() - 1), consts) {
                None => Err(ErrKind::InvalidLiteral),
                Some(a) => Ok(Some(op_word(0x22, a))),
            }
        } else if dest == "a"@ && src.len() >= 2 && src[0] == '(' && src.last() == ')'
            && !spec_is_pair_indirect(src.subrange(1, src.len() - 1)) {
            match spec_sys_or_eval(src.subrange(1, src.len() - 1), consts) {
                None => Err(ErrKind::InvalidLiteral),
                Some(a) => Ok(Some(op_word(0x3a, a))),
            }
        } else if dest.len() >= 2 && dest[0] == '(' && dest.last() == ')' && src == "a"@
            && !spec_is_pair_indirect(dest.subrange(1, dest.len() - 1)) {
            match spec_sys_or_eval(dest.subrange(1, dest.len() - 1), consts) {
                None => Err(ErrKind::InvalidLiteral),
                Some(a) => Ok(Some(op_word(0x32, a))),
            }
        } else {
            Ok(None)
        }
    }
}

/// Build the opcode-plus-little-endian-word encoding.
fn emit_word(op: u8, v: u16) -> (r: Vec<u8>)
    ensures
        r@ == op_word(op, v),
{
    let mut result: Vec<u8> = Vec::new();
    result.push(op);
    result.push((v & 0xff) as u8);
    result.push(((v >> 8) & 0xff) as u8);
    proof {
        assert(result@ =~= op_word(op, v));
    }
    result
}

/// Encode an `ld` instruction, or decline.
pub fn handle_load_instruction(
    operands: &str,
    labels: &SymTab,
    constants: &SymTab,
    parser: &Parser,
) -> (r: Result<Option<Vec<u8>>, AsmError>)
    ensures
        enc_matches(r, spec_load(operands@, labels@, constants@)),
{
    let o = to_chars(operands);
    let parts = split_operands_chars(o.as_slice());
    if parts.len() != 2 {
        return Ok(None);
    }
    proof {
        assert(parts.deep_view()[0] == parts@[0]@);
        assert(parts.deep_view()[1] == parts@[1]@);
    }
    let dest = parts[0].as_slice();
    let src = parts[1].as_slice();
    if let Some(op) = reg_load_imm(dest) {
        if !(src.len() > 0 && src[0] == '(') && !is_register(src) {
            return match resolve(src, labels, constants) {
                Err(e) => Err(e),
                Ok(v) => {
                    let mut result: Vec<u8> = Vec::new();
                    result.push(op);
                    result.push((v & 0xff) as u8);
                    proof {
                        assert(result@ =~= seq![op, (v & 0xff) as u8]);
                    }
                    Ok(Some(result))
                },
            };
        }
    }
    if eq_str(dest, "hl") && src.len() >= 2 && src[0] == '(' && src[src.len() - 1] == ')' {
        proof {
            assert(src@.last() == src@[src@.len() - 1]);
        }
        return match sys_or_eval(&src[1..src.len() - 1], constants) {
            Err(e) => Err(e),
            Ok(a) => Ok(Some(emit_word(0x2a, a))),
        };
    }
    if eq_str(dest, "hl") {
        return match label_sys_or_eval(src, labels, constants) {
            Err(e) => Err(e),
            Ok(v) => Ok(Some(emit_word(0x21, v))),
        };
    }
    if eq_str(dest, "bc") {
        return match resolve(src, labels, constants) {
            Err(e) => Err(e),
            Ok(v) => Ok(Some(emit_word(0x01, v))),
        };
    }
    if eq_str(dest, "de") {
        return match resolve(src, labels, constants) {
            Err(e) => Err(e),
            Ok(v) => Ok(Some(emit_word(0x11, v))),
        };
    }
    if eq_str(dest, "sp") {
        return match resolve(src, labels, constants) {
            Err(e) => Err(e),
            Ok(v) => Ok(Some(emit_word(0x31, v))),
        };
    }
    if dest.len() >= 2 && dest[0] == '(' && dest[dest.len() - 1] == ')' && eq_str(src, "hl") {
        proof {
            assert(dest@.last() == dest@[dest@.len() - 1]);
        }
        return match sys_or_eval(&dest[1..dest.len() - 1], constants) {
            Err(e) => Err(e),
            Ok(a) => Ok(Some(emit_word(0x22, a))),
        };
    }
    if eq_str(dest, "a") && src.len() >= 2 && src[0] == '(' && src[src.len() - 1] == ')' {
        proof {
            assert(src@.last() == src@[src@.len() - 1]);
        }
        let inner = &src[1..src.len() - 1];
        if !is_pair_indirect_pub(inner) {
            return match sys_or_eval(inner, constants) {
                Err(e) => Err(e),
                Ok(a) => Ok(Some(emit_word(0x3a, a))),
            };
        }
    }
    if dest.len() >= 2 && dest[0] == '(' && dest[dest.len() - 1] == ')' && eq_str(src, "a") {
        proof {
            assert(dest@.last() == dest@[dest@.len() - 1]);
        }
        let inner = &dest[1..dest.len() - 1];
        if !is_pair_indirect_pub(inner) {
            return match sys_or_eval(inner, constants) {
                Err(e) => Err(e),
                Ok(a) => Ok(Some(emit_word(0x32, a))),
            };
        }
    }
    Ok(None)
}

} // verus!
