//! The input/output encoder: `in` and `out` in their
//! register-to-immediate-port and register-to-`(c)`-port forms, each with a
//! fixed opcode per register, plus the 8 fixed two-byte block-I/O
//! instructions.

use vstd::prelude::*;
use crate::calls::option_view;
use crate::chars::{
    eq_str, lemma_contains_count, lemma_split_char_len, spec_trim, split_all, split_char, to_chars,
    trim,
};
use crate::error::{enc_matches, AsmError, ErrKind};
use crate::immediate::{eval_chars, spec_parse_immediate};
use crate::symtab::SymTab;

verus! {

/// The `in r,(c)` opcode of a destination register.
pub open spec fn spec_in_c_op(s: Seq<char>) -> Option<u8> {
    if s == "b"@ {
        Some(0x40)
    } else if s == "c"@ {
        Some(0x48)
    } else if s == "d"@ {
        Some(0x50)
    } else if s == "e"@ {
        Some(0x58)
    } else if s == "h"@ {
        Some(0x60)
    } else if s == "l"@ {
        Some(0x68)
    } else if s == "a"@ {
        Some(0x78)
    } else {
        None
    }
}

fn in_c_op(v: &[char]) -> (r: Option<u8>)
    ensures
        r == spec_in_c_op(v@),
{
    if eq_str(v, "b") {
        Some(0x40)
    } else if eq_str(v, "c") {
        Some(0x48)
    } else if eq_str(v, "d") {
        Some(0x50)
    } else if eq_str(v, "e") {
        Some(0x58)
    } else if eq_str(v, "h") {
        Some(0x60)
    } else if eq_str(v, "l") {
        Some(0x68)
    } else if eq_str(v, "a") {
        Some(0x78)
    } else {
        None
    }
}

/// The `out (c),r` opcode of a source register.
pub open spec fn spec_out_c_op(s: Seq<char>) -> Option<u8> {
    if s == "b"@ {
        Some(0x41)
    } else if s == "c"@ {
        Some(0x49)
    } else if s == "d"@ {
        Some(0x51)
    } else if s == "e"@ {
        Some(0x59)
    } else if s == "h"@ {
        Some(0x61)
    } else if s == "l"@ {
        Some(0x69)
    } else if s == "a"@ {
        Some(0x79)
    } else {
        None
    }
}

fn out_c_op(v: &[char]) -> (r: Option<u8>)
    ensures
        r == spec_out_c_op(v@),
{
    if eq_str(v, "b") {
        Some(0x41)
    } else if eq_str(v, "c") {
        Some(0x49)
    } else if eq_str(v, "d") {
        Some(0x51)
    } else if eq_str(v, "e") {
        Some(0x59)
    } else if eq_str(v, "h") {
        Some(0x61)
    } else if eq_str(v, "l") {
        Some(0x69)
    } else if eq_str(v, "a") {
        Some(0x79)
    } else {
        None
    }
}

/// The second byte of a fixed block-I/O instruction.
pub open spec fn spec_block_io_op(s: Seq<char>) -> Option<u8> {
    if s == "ini"@ {
        Some(0xa2)
    } else if s == "inir"@ {
        Some(0xb2)
    } else if s == "ind"@ {
        Some(0xaa)
    } else if s == "indr"@ {
        Some(0xba)
    } else if s == "outi"@ {
        Some(0xa3)
    } else if s == "otir"@ {
        Some(0xb3)
    } else if s == "outd"@ {
        Some(0xab)
    } else if s == "otdr"@ {
        Some(0xbb)
    } else {
        None
    }
}

pub fn block_io_op(v: &[char]) -> (r: Option<u8>)
    ensures
        r == spec_block_io_op(v@),
{
    if eq_str(v, "ini") {
        Some(0xa2)
    } else if eq_str(v, "inir") {
        Some(0xb2)
    } else if eq_str(v, "ind") {
        Some(0xaa)
    } else if eq_str(v, "indr") {
        Some(0xba)
    } else if eq_str(v, "outi") {
        Some(0xa3)
    } else if eq_str(v, "otir") {
        Some(0xb3)
    } else if eq_str(v, "outd") {
        Some(0xab)
    } else if eq_str(v, "otdr") {
        Some(0xbb)
    } else {
        None
    }
}

/// How the I/O family encodes, declines or fails an instruction.
///
/// `in` and `out` need exactly two operands. The accumulator pairs with an
/// immediate port in parentheses or with `(c)`; the other registers pair
/// with `(c)` only. The block-I/O mnemonics are fixed two-byte encodings
/// whatever their operand text.
pub open spec fn spec_io(
    mn: Seq<char>,
    ops: Option<Seq<char>>,
    consts: Map<Seq<char>, u16>,
) -> Result<Option<Seq<u8>>, ErrKind> {
    if mn == "in"@ {
        match ops {
            None => Ok(None),
            Some(o) => {
                let parts = split_char(o, ',');
                if parts.len() != 2 {
                    Err(ErrKind::InvalidOperandCount)
                } else {
                    let dest = spec_trim(parts[0]);
                    let port = spec_trim(parts[1]);
                    if dest == "a"@ && port.len() >= 2 && port[0] == '(' && port.last() == ')' {
                        let inner = port.subrange(1, port.len() - 1);
                        if inner == "c"@ {
                            Ok(Some(seq![0xedu8, 0x78u8]))
                        } else {
                            match spec_parse_immediate(inner, consts) {
                                None => Err(ErrKind::InvalidLiteral),
                                Some(p) => Ok(Some(seq![0xdbu8, (p & 0xff) as u8])),
                            }
                        }
                    } else if port == "(c)"@ {
                        match spec_in_c_op(dest) {
                            None => Err(ErrKind::InvalidRegister),
                            Some(op) => Ok(Some(seq![0xedu8, op])),
                        }
                    } else {
                        Ok(None)
                    }
                }
            },
        }
    } else if mn == "out"@ {
        match ops {
            None => Ok(None),
            Some(o) => {
                let parts = split_char(o, ',');
                if parts.len() != 2 {
                    Err(ErrKind::InvalidOperandCount)
                } else {
                    let port = spec_trim(parts[0]);
                    let src = spec_trim(parts[1]);
                    if port.len() >= 2 && port[0] == '(' && port.last() == ')' && src == "a"@ {
                        let inner = port.subrange(1, port.len() - 1);
                        if inner == "c"@ {
                            Ok(Some(seq![0xedu8, 0x79u8]))
                        } else {
                            match spec_parse_immediate(inner, consts) {
                                None => Err(ErrKind::InvalidLiteral),
                                Some(p) => Ok(Some(seq![0xd3u8, (p & 0xff) as u8])),
                            }
                        }
                    } else if port == "(c)"@ {
                        match spec_out_c_op(src) {
                            None => Err(ErrKind::InvalidRegister),
                            Some(op) => Ok(Some(seq![0xedu8, op])),
                        }
                    } else {
                        Ok(None)
                    }
                }
            },
        }
    } else {
        match spec_block_io_op(mn) {
            None => Ok(None),
            Some(op) => Ok(Some(seq![0xedu8, op])),
        }
    }
}

/// Encode an I/O port instruction, or decline.
pub fn handle_io_instruction(
    mnemonic: &str,
    operands: Option<&str>,
    constants: &SymTab,
) -> (r: Result<Option<Vec<u8>>, AsmError>)
    ensures
        enc_matches(r, spec_io(mnemonic@, option_view(operands), constants@)),
{
    let mn = to_chars(mnemonic);
    if eq_str(mn.as_slice(), "in") {
        let ops = match operands {
            None => {
                return Ok(None);
            },
            Some(ops) => ops,
        };
        let o = to_chars(ops);
        let parts = split_all(o.as_slice(), ',');
        proof {
            lemma_split_char_len(o@, ',');
            lemma_contains_count(o@, ',');
        }
        if parts.len() != 2 {
            return Err(AsmError::new(ErrKind::InvalidOperandCount, o.as_slice()));
        }
        proof {
            assert(parts.deep_view()[0] == parts@[0]@);
            assert(parts.deep_view()[1] == parts@[1]@);
        }
        let dest = trim(parts[0].as_slice());
        let port = trim(parts[1].as_slice());
        if eq_str(dest, "a") && port.len() >= 2 && port[0] == '(' && port[port.len() - 1] == ')' {
            let inner = &port[1..port.len() - 1];
            proof {
                assert(port@.last() == port@[port@.len() - 1]);
            }
            if eq_str(inner, "c") {
                let mut result: Vec<u8> = Vec::new();
                result.push(0xed);
                result.push(0x78);
                proof {
                    assert(result@ =~= seq![0xedu8, 0x78u8]);
                }
                Ok(Some(result))
            } else {
                match eval_chars(inner, constants) {
                    Err(e) => Err(e),
                    Ok(p) => {
                        let mut result: Vec<u8> = Vec::new();
                        result.push(0xdb);
                        result.push((p & 0xff) as u8);
                        proof {
                            assert(result@ =~= seq![0xdbu8, (p & 0xff) as u8]);
                        }
                        Ok(Some(result))
                    },
                }
            }
        } else if eq_str(port, "(c)") {
            match in_c_op(dest) {
                None => Err(AsmError::new(ErrKind::InvalidRegister, o.as_slice())),
                Some(op) => {
                    let mut result: Vec<u8> = Vec::new();
                    result.push(0xed);
                    result.push(op);
                    proof {
                        assert(result@ =~= seq![0xedu8, op]);
                    }
                    Ok(Some(result))
                },
            }
        } else {
            Ok(None)
        }
    } else if eq_str(mn.as_slice(), "out") {
        let ops = match operands {
            None => {
                return Ok(None);
            },
            Some(ops) => ops,
        };
        let o = to_chars(ops);
        let parts = split_all(o.as_slice(), ',');
        proof {
            lemma_split_char_len(o@, ',');
            lemma_contains_count(o@, ',');
        }
        if parts.len() != 2 {
            return Err(AsmError::new(ErrKind::InvalidOperandCount, o.as_slice()));
        }
        proof {
            assert(parts.deep_view()[0] == parts@[0]@);
            assert(parts.deep_view()[1] == parts@[1]@);
        }
        let port = trim(parts[0].as_slice());
        let src = trim(parts[1].as_slice());
        if port.len() >= 2 && port[0] == '(' && port[port.len() - 1] == ')' && eq_str(src, "a") {
            let inner = &port[1..port.len() - 1];
            proof {
                assert(port@.last() == port@[port@.len() - 1]);
            }
            if eq_str(inner, "c") {
                let mut result: Vec<u8> = Vec::new();
                result.push(0xed);
                result.push(0x79);
                proof {
                    assert(result@ =~= seq![0xedu8, 0x79u8]);
                }
                Ok(Some(result))
            } else {
                match eval_chars(inner, constants) {
                    Err(e) => Err(e),
                    Ok(p) => {
                        let mut result: Vec<u8> = Vec::new();
                        result.push(0xd3);
                        result.push((p & 0xff) as u8);
                        proof {
                            assert(result@ =~= seq![0xd3u8, (p & 0xff) as u8]);
                        }
                        Ok(Some(result))
                    },
                }
            }
        } else if eq_str(port, "(c)") {
            match out_c_op(src) {
                None => Err(AsmError::new(ErrKind::InvalidRegister, o.as_slice())),
                Some(op) => {
                    let mut result: Vec<u8> = Vec::new();
                    result.push(0xed);
                    result.push(op);
                    proof {
                        assert(result@ =~= seq![0xedu8, op]);
                    }
                    Ok(Some(result))
                },
            }
        } else {
            Ok(None)
        }
    } else {
        match block_io_op(mn.as_slice()) {
            None => Ok(None),
            Some(op) => {
                let mut result: Vec<u8> = Vec::new();
                result.push(0xed);
                result.push(op);
                proof {
                    assert(result@ =~= seq![0xedu8, op]);
                }
                Ok(Some(result))
            },
        }
    }
}

} // verus!
