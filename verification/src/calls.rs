//! The call/return encoder: `call` with its 8 condition codes plus the
//! unconditional form, each followed by a little-endian 16-bit target, and
//! the 8 single-byte conditional `ret` forms. Unconditional `ret` is a
//! fixed-opcode table entry handled by the driver's catch-all.

use vstd::prelude::*;
use crate::chars::{
    contains_char, eq_str, find, lemma_contains_count, lemma_split_char_len, spec_trim, split_all,
    split_char, trim,
};
use crate::error::{enc_matches, AsmError, ErrKind};
use crate::immediate::{resolve, spec_resolve};
use crate::symtab::SymTab;

verus! {

/// The `call cc,nn` opcode of a condition code.
pub open spec fn spec_call_cond_op(s: Seq<char>) -> Option<u8> {
    if s == "nz"@ {
        Some(0xc4)
    } else if s == "z"@ {
        Some(0xcc)
    } else if s == "nc"@ {
        Some(0xd4)
    } else if s == "c"@ {
        Some(0xdc)
    } else if s == "po"@ {
        Some(0xe4)
    } else if s == "pe"@ {
        Some(0xec)
    } else if s == "p"@ {
        Some(0xf4)
    } else if s == "m"@ {
        Some(0xfc)
    } else {
        None
    }
}

pub fn call_cond_op(v: &[char]) -> (r: Option<u8>)
    ensures
        r == spec_call_cond_op(v@),
{
    if eq_str(v, "nz") {
        Some(0xc4)
    } else if eq_str(v, "z") {
        Some(0xcc)
    } else if eq_str(v, "nc") {
        Some(0xd4)
    } else if eq_str(v, "c") {
        Some(0xdc)
    } else if eq_str(v, "po") {
        Some(0xe4)
    } else if eq_str(v, "pe") {
        Some(0xec)
    } else if eq_str(v, "p") {
        Some(0xf4)
    } else if eq_str(v, "m") {
        Some(0xfc)
    } else {
        None
    }
}

/// The conditional `ret cc` opcode of a condition code.
pub open spec fn spec_ret_cond_op(s: Seq<char>) -> Option<u8> {
    if s == "nz"@ {
        Some(0xc0)
    } else if s == "z"@ {
        Some(0xc8)
    } else if s == "nc"@ {
        Some(0xd0)
    } else if s == "c"@ {
        Some(0xd8)
    } else if s == "po"@ {
        Some(0xe0)
    } else if s == "pe"@ {
        Some(0xe8)
    } else if s == "p"@ {
        Some(0xf0)
    } else if s == "m"@ {
        Some(0xf8)
    } else {
        None
    }
}

pub fn ret_cond_op(v: &[char]) -> (r: Option<u8>)
    ensures
        r == spec_ret_cond_op(v@),
{
    if eq_str(v, "nz") {
        Some(0xc0)
    } else if eq_str(v, "z") {
        Some(0xc8)
    } else if eq_str(v, "nc") {
        Some(0xd0)
    } else if eq_str(v, "c") {
        Some(0xd8)
    } else if eq_str(v, "po") {
        Some(0xe0)
    } else if eq_str(v, "pe") {
        Some(0xe8)
    } else if eq_str(v, "p") {
        Some(0xf0)
    } else if eq_str(v, "m") {
        Some(0xf8)
    } else {
        None
    }
}

/// The condition text and target text of a jump/call operand string: when a
/// comma is present, the first trimmed piece names the condition and the
/// second the target; otherwise the whole trimmed text is the target.
pub open spec fn spec_cond_target(o: Seq<char>) -> (Option<Seq<char>>, Seq<char>) {
    if contains_char(o, ',') {
        let ps = split_char(o, ',');
        (Some(spec_trim(ps[0])), spec_trim(ps[1]))
    } else {
        (None, spec_trim(o))
    }
}

/// Split an operand string into condition and target texts.
pub fn cond_target(o: &[char]) -> (r: (Option<Vec<char>>, Vec<char>))
    ensures
        ({
            let sp = spec_cond_target(o@);
            (match r.0 {
                Some(c) => sp.0 == Some(c@),
                None => sp.0 is None,
            }) && r.1@ == sp.1
        }),
{
    if find(o, ',').is_some() {
        let ps = split_all(o, ',');
        proof {
            lemma_split_char_len(o@, ',');
            lemma_contains_count(o@, ',');
            assert(ps.deep_view().len() >= 2);
            assert(ps.deep_view()[0] == ps@[0]@);
            assert(ps.deep_view()[1] == ps@[1]@);
        }
        let c = trim(ps[0].as_slice());
        let t = trim(ps[1].as_slice());
        let cv = crate::chars::chars_vec(c);
        let tv = crate::chars::chars_vec(t);
        (Some(cv), tv)
    } else {
        let t = trim(o);
        (None, crate::chars::chars_vec(t))
    }
}

/// How the call/return family encodes, or declines, an instruction.
pub open spec fn spec_call(
    mn: Seq<char>,
    ops: Option<Seq<char>>,
    labels: Map<Seq<char>, u16>,
    consts: Map<Seq<char>, u16>,
) -> Result<Option<Seq<u8>>, ErrKind> {
    if mn == "call"@ {
        match ops {
            None => Ok(None),
            Some(o) => {
                let (cond, target) = spec_cond_target(o);
                match spec_resolve(target, labels, consts) {
                    None => Err(ErrKind::InvalidLiteral),
                    Some(addr) => {
                        let op = match cond {
                            None => Some(0xcdu8),
                            Some(c) => spec_call_cond_op(c),
                        };
                        match op {
                            None => Ok(None),
                            Some(op) => Ok(
                                Some(seq![op, (addr & 0xff) as u8, ((addr >> 8) & 0xff) as u8]),
                            ),
                        }
                    },
                }
            },
        }
    } else if mn == "ret"@ {
        match ops {
            None => Ok(None),
            Some(o) => match spec_ret_cond_op(spec_trim(o)) {
                None => Ok(None),
                Some(op) => Ok(Some(seq![op])),
            },
        }
    } else {
        Ok(None)
    }
}

/// Encode a `call` or conditional `ret`, or decline.
pub fn handle_call_instruction(
    mnemonic: &str,
    operands: Option<&str>,
    labels: &SymTab,
    constants: &SymTab,
) -> (r: Result<Option<Vec<u8>>, AsmError>)
    ensures
        enc_matches(r, spec_call(mnemonic@, option_view(operands), labels@, constants@)),
{
    let mn = crate::chars::to_chars(mnemonic);
    if eq_str(mn.as_slice(), "call") {
        match operands {
            None => Ok(None),
            Some(ops) => {
                let o = crate::chars::to_chars(ops);
                let (cond, target) = cond_target(o.as_slice());
                let addr = match resolve(target.as_slice(), labels, constants) {
                    Ok(a) => a,
                    Err(e) => {
                        return Err(e);
                    },
                };
                let op: Option<u8> = match &cond {
                    None => Some(0xcd),
                    Some(c) => call_cond_op(c.as_slice()),
                };
                match op {
                    None => Ok(None),
                    Some(op) => {
                        let mut result: Vec<u8> = Vec::new();
                        result.push(op);
                        result.push((addr & 0xff) as u8);
                        result.push(((addr >> 8) & 0xff) as u8);
                        proof {
                            assert(result@ =~= seq![
                                op,
                                (addr & 0xff) as u8,
                                ((addr >> 8) & 0xff) as u8,
                            ]);
                        }
                        Ok(Some(result))
                    },
                }
            },
        }
    } else if eq_str(mn.as_slice(), "ret") {
        match operands {
            None => Ok(None),
            Some(ops) => {
                let o = crate::chars::to_chars(ops);
                let t = trim(o.as_slice());
                match ret_cond_op(t) {
                    None => Ok(None),
                    Some(op) => {
                        let mut result: Vec<u8> = Vec::new();
                        result.push(op);
                        proof {
                            assert(result@ =~= seq![op]);
                        }
                        Ok(Some(result))
                    },
                }
            },
        }
    } else {
        Ok(None)
    }
}

/// The view of an optional operand string.
pub open spec fn option_view(o: Option<&str>) -> Option<Seq<char>> {
    match o {
        None => None,
        Some(s) => Some(s@),
    }
}

} // verus!
