//! The arithmetic-immediate encoder: `add`, `adc`, `sub`, `sbc`, `and`,
//! `xor`, `or` and `cp` with an immediate operand, recognized only when the
//! non-accumulator operand is neither a register name nor a memory
//! reference; each encodes as a one-byte opcode plus one immediate byte.

use vstd::prelude::*;
use crate::calls::option_view;
use crate::chars::{eq_str, spec_starts_with, spec_trim, starts_with_str, to_chars, trim};
use crate::error::{enc_matches, AsmError, ErrKind};
use crate::immediate::{eval_chars, spec_parse_immediate};
use crate::symtab::SymTab;

verus! {

/// The immediate-form opcode of an arithmetic mnemonic.
pub open spec fn spec_arith_imm_op(s: Seq<char>) -> Option<u8> {
    if s == "add"@ {
        Some(0xc6)
    } else if s == "adc"@ {
        Some(0xce)
    } else if s == "sub"@ {
        Some(0xd6)
    } else if s == "sbc"@ {
        Some(0xde)
    } else if s == "and"@ {
        Some(0xe6)
    } else if s == "xor"@ {
        Some(0xee)
    } else if s == "or"@ {
        Some(0xf6)
    } else if s == "cp"@ {
        Some(0xfe)
    } else {
        None
    }
}

pub fn arith_imm_op(v: &[char]) -> (r: Option<u8>)
    ensures
        r == spec_arith_imm_op(v@),
{
    if eq_str(v, "add") {
        Some(0xc6)
    } else if eq_str(v, "adc") {
        Some(0xce)
    } else if eq_str(v, "sub") {
        Some(0xd6)
    } else if eq_str(v, "sbc") {
        Some(0xde)
    } else if eq_str(v, "and") {
        Some(0xe6)
    } else if eq_str(v, "xor") {
        Some(0xee)
    } else if eq_str(v, "or") {
        Some(0xf6)
    } else if eq_str(v, "cp") {
        Some(0xfe)
    } else {
        None
    }
}

/// Whether a piece of text names a register, as the arithmetic family
/// understands it (8-bit names and the 16-bit pairs).
pub open spec fn spec_is_arith_reg(s: Seq<char>) -> bool {
    s == "a"@ || s == "b"@ || s == "c"@ || s == "d"@ || s == "e"@ || s == "h"@ || s == "l"@
        || s == "bc"@ || s == "de"@ || s == "hl"@ || s == "sp"@
}

pub fn is_arith_reg(v: &[char]) -> (r: bool)
    ensures
        r == spec_is_arith_reg(v@),
{
    eq_str(v, "a") || eq_str(v, "b") || eq_str(v, "c") || eq_str(v, "d") || eq_str(v, "e")
        || eq_str(v, "h") || eq_str(v, "l") || eq_str(v, "bc") || eq_str(v, "de") || eq_str(
        v,
        "hl",
    ) || eq_str(v, "sp")
}

/// The non-accumulator operand text of an arithmetic instruction: with an
/// `a,` prefix the rest, otherwise the whole text, trimmed either way.
pub open spec fn spec_arith_value_text(o: Seq<char>) -> Seq<char> {
    if spec_starts_with(o, "a,"@) {
        spec_trim(o.subrange(2, o.len() as int))
    } else {
        spec_trim(o)
    }
}

/// How the arithmetic-immediate family encodes, or declines, an
/// instruction: a recognized mnemonic whose value operand is neither a
/// register nor a memory reference becomes opcode plus immediate byte.
pub open spec fn spec_arith(
    mn: Seq<char>,
    ops: Option<Seq<char>>,
    consts: Map<Seq<char>, u16>,
) -> Result<Option<Seq<u8>>, ErrKind> {
    match spec_arith_imm_op(mn) {
        None => Ok(None),
        Some(op) => match ops {
            None => Ok(None),
            Some(o) => {
                let value = spec_arith_value_text(o);
                if !spec_is_arith_reg(value) && !(value.len() > 0 && value[0] == '(') {
                    match spec_parse_immediate(value, consts) {
                        None => Err(ErrKind::InvalidLiteral),
                        Some(v) => Ok(Some(seq![op, (v & 0xff) as u8])),
                    }
                } else {
                    Ok(None)
                }
            },
        },
    }
}

/// Encode an arithmetic instruction with an immediate operand, or decline.
pub fn handle_arithmetic_instruction(
    mnemonic: &str,
    operands: Option<&str>,
    constants: &SymTab,
) -> (r: Result<Option<Vec<u8>>, AsmError>)
    ensures
        enc_matches(r, spec_arith(mnemonic@, option_view(operands), constants@)),
{
    let mn = to_chars(mnemonic);
    let op = match arith_imm_op(mn.as_slice()) {
        None => {
            return Ok(None);
        },
        Some(op) => op,
    };
    let ops = match operands {
        None => {
            return Ok(None);
        },
        Some(ops) => ops,
    };
    let o = to_chars(ops);
    let value: &[char] = if starts_with_str(o.as_slice(), "a,") {
        proof {
            reveal_strlit("a,");
        }
        trim(&o.as_slice()[2..o.len()])
    } else {
        trim(o.as_slice())
    };
    if !is_arith_reg(value) && !(value.len() > 0 && value[0] == '(') {
        match eval_chars(value, constants) {
            Err(e) => Err(e),
            Ok(v) => {
                let mut result: Vec<u8> = Vec::new();
                result.push(op);
                result.push((v & 0xff) as u8);
                proof {
                    assert(result@ =~= seq![op, (v & 0xff) as u8]);
                }
                Ok(Some(result))
            },
        }
    } else {
        Ok(None)
    }
}

} // verus!
