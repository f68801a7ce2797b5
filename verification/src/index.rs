//! The indexed-addressing encoder for the `ix`/`iy` register family:
//! push/pop, 16-bit loads, displaced memory access `(ix+d)`/`(ix-d)`/`(ix)`,
//! indirect loads through a fixed address, increment/decrement, 16-bit add,
//! stack-pointer transfer, indirect jump, and exchange with the top of
//! stack. Every form emits the 1-byte prefix (0xdd for `ix`, 0xfd for `iy`)
//! ahead of the base opcode of the equivalent `hl`-based instruction.
//!
//! A platform note: the calculator's system software uses `ix` as a flags
//! pointer, so programs should save and restore it around use.

use vstd::prelude::*;
use crate::calls::option_view;
use crate::chars::{
    chars_vec, contains_str, contains_sub, eq_str, find, find_char, find_str, find_sub, lemma_find_char,
    lemma_find_sub, spec_starts_with, spec_trim, split_all, split_char, starts_with_str, to_chars,
    trim,
};
use crate::error::{enc_matches, AsmError, ErrKind};
use crate::immediate::{eval_chars, resolve, spec_parse_immediate, spec_resolve};
use crate::jumps::disp_byte;
use crate::symtab::SymTab;

verus! {

/// A 16-bit value read as a signed 16-bit quantity.
pub open spec fn signed16(v: u16) -> int {
    if v < 0x8000 {
        v as int
    } else {
        v - 0x10000
    }
}

/// The indexed displacement an evaluated value denotes, negated for the
/// `(ix-d)` form; it must lie in the signed 8-bit range.
pub open spec fn disp_of(v: u16, negate: bool) -> Option<int> {
    let s = if negate {
        -signed16(v)
    } else {
        signed16(v)
    };
    if -128 <= s <= 127 {
        Some(s)
    } else {
        None
    }
}

/// The displacement byte taken from the text after a `(ix+`/`(ix-` opening,
/// up to the closing parenthesis, evaluated and range-checked.
pub open spec fn spec_disp_from(
    indexed: Seq<char>,
    start: int,
    negate: bool,
    consts: Map<Seq<char>, u16>,
) -> Result<u8, ErrKind> {
    match find_char(indexed.subrange(start, indexed.len() as int), ')') {
        None => Err(ErrKind::InvalidLiteral),
        Some(e) => match spec_parse_immediate(indexed.subrange(start, start + e), consts) {
            None => Err(ErrKind::InvalidLiteral),
            Some(v) => match disp_of(v, negate) {
                None => Err(ErrKind::RangeError),
                Some(d) => Ok(crate::jumps::disp_byte(d)),
            },
        },
    }
}

/// How an indexed operand pair is read: which side names the plain
/// register, and the displacement byte of the `(ix±d)`/`(ix)` side.
pub open spec fn spec_parse_indexed(
    o: Seq<char>,
    is_ix: bool,
    consts: Map<Seq<char>, u16>,
) -> Result<(Seq<char>, u8), ErrKind> {
    let parts = split_char(o, ',');
    if parts.len() != 2 {
        Err(ErrKind::InvalidOperandCount)
    } else {
        let pre: Seq<char> = if is_ix {
            "ix"@
        } else {
            "iy"@
        };
        let (reg, indexed) = if contains_sub(parts[0], pre) {
            (spec_trim(parts[1]), parts[0])
        } else {
            (spec_trim(parts[0]), parts[1])
        };
        let pat_plus: Seq<char> = if is_ix {
            "(ix+"@
        } else {
            "(iy+"@
        };
        let pat_minus: Seq<char> = if is_ix {
            "(ix-"@
        } else {
            "(iy-"@
        };
        let pat_zero: Seq<char> = if is_ix {
            "(ix)"@
        } else {
            "(iy)"@
        };
        let d = match find_sub(indexed, pat_plus) {
            Some(p) => spec_disp_from(indexed, p + 4, false, consts),
            None => match find_sub(indexed, pat_minus) {
                Some(p) => spec_disp_from(indexed, p + 4, true, consts),
                None => if contains_sub(indexed, pat_zero) {
                    Ok(0u8)
                } else {
                    Err(ErrKind::InvalidLiteral)
                },
            },
        };
        match d {
            Err(k) => Err(k),
            Ok(d) => Ok((reg, d)),
        }
    }
}

/// The base opcode of an indexed load once the register side is known:
/// `r,(ix…` loads into the register, `…),r` stores it; an unrecognized
/// pattern or register declines.
pub open spec fn spec_idx_load_op(o: Seq<char>, reg: Seq<char>, is_ix: bool) -> Option<u8> {
    if reg == "a"@ {
        if (is_ix && spec_starts_with(o, "a,(ix"@)) || (!is_ix && spec_starts_with(
            o,
            "a,(iy"@,
        )) {
            Some(0x7e)
        } else if contains_sub(o, "),a"@) {
            Some(0x77)
        } else {
            None
        }
    } else if reg == "b"@ {
        if (is_ix && spec_starts_with(o, "b,(ix"@)) || (!is_ix && spec_starts_with(
            o,
            "b,(iy"@,
        )) {
            Some(0x46)
        } else if contains_sub(o, "),b"@) {
            Some(0x70)
        } else {
            None
        }
    } else if reg == "c"@ {
        if (is_ix && spec_starts_with(o, "c,(ix"@)) || (!is_ix && spec_starts_with(
            o,
            "c,(iy"@,
        )) {
            Some(0x4e)
        } else if contains_sub(o, "),c"@) {
            Some(0x71)
        } else {
            None
        }
    } else if reg == "d"@ {
        if (is_ix && spec_starts_with(o, "d,(ix"@)) || (!is_ix && spec_starts_with(
            o,
            "d,(iy"@,
        )) {
            Some(0x56)
        } else if contains_sub(o, "),d"@) {
            Some(0x72)
        } else {
            None
        }
    } else if reg == "e"@ {
        if (is_ix && spec_starts_with(o, "e,(ix"@)) || (!is_ix && spec_starts_with(
            o,
            "e,(iy"@,
        )) {
            Some(0x5e)
        } else if contains_sub(o, "),e"@) {
            Some(0x73)
        } else {
            None
        }
    } else if reg == "h"@ {
        if (is_ix && spec_starts_with(o, "h,(ix"@)) || (!is_ix && spec_starts_with(
            o,
            "h,(iy"@,
        )) {
            Some(0x66)
        } else if contains_sub(o, "),h"@) {
            Some(0x74)
        } else {
            None
        }
    } else if reg == "l"@ {
        if (is_ix && spec_starts_with(o, "l,(ix"@)) || (!is_ix && spec_starts_with(
            o,
            "l,(iy"@,
        )) {
            Some(0x6e)
        } else if contains_sub(o, "),l"@) {
            Some(0x75)
        } else {
            None
        }
    } else {
        None
    }
}

pub fn idx_load_op(o: &[char], reg: &[char], is_ix: bool) -> (r: Option<u8>)
    ensures
        r == spec_idx_load_op(o@, reg@, is_ix),
{
    if eq_str(reg, "a") {
        if (is_ix && starts_with_str(o, "a,(ix")) || (!is_ix && starts_with_str(
            o,
            "a,(iy",
        )) {
            Some(0x7e)
        } else if contains_str(o, "),a") {
            Some(0x77)
        } else {
            None
        }
    } else if eq_str(reg, "b") {
        if (is_ix && starts_with_str(o, "b,(ix")) || (!is_ix && starts_with_str(
            o,
            "b,(iy",
        )) {
            Some(0x46)
        } else if contains_str(o, "),b") {
            Some(0x70)
        } else {
            None
        }
    } else if eq_str(reg, "c") {
        if (is_ix && starts_with_str(o, "c,(ix")) || (!is_ix && starts_with_str(
            o,
            "c,(iy",
        )) {
            Some(0x4e)
        } else if contains_str(o, "),c") {
            Some(0x71)
        } else {
            None
        }
    } else if eq_str(reg, "d") {
        if (is_ix && starts_with_str(o, "d,(ix")) || (!is_ix && starts_with_str(
            o,
            "d,(iy",
        )) {
            Some(0x56)
        } else if contains_str(o, "),d") {
            Some(0x72)
        } else {
            None
        }
    } else if eq_str(reg, "e") {
        if (is_ix && starts_with_str(o, "e,(ix")) || (!is_ix && starts_with_str(
            o,
            "e,(iy",
        )) {
            Some(0x5e)
        } else if contains_str(o, "),e") {
            Some(0x73)
        } else {
            None
        }
    } else if eq_str(reg, "h") {
        if (is_ix && starts_with_str(o, "h,(ix")) || (!is_ix && starts_with_str(
            o,
            "h,(iy",
        )) {
            Some(0x66)
        } else if contains_str(o, "),h") {
            Some(0x74)
        } else {
            None
        }
    } else if eq_str(reg, "l") {
        if (is_ix && starts_with_str(o, "l,(ix")) || (!is_ix && starts_with_str(
            o,
            "l,(iy",
        )) {
            Some(0x6e)
        } else if contains_str(o, "),l") {
            Some(0x75)
        } else {
            None
        }
    } else {
        None
    }
}
/// How a displaced indexed load/store encodes: prefix, base opcode picked
/// by the register side and direction, then the displacement byte.
pub open spec fn spec_indexed_load(
    o: Seq<char>,
    is_ix: bool,
    consts: Map<Seq<char>, u16>,
) -> Result<Option<Seq<u8>>, ErrKind> {
    match spec_parse_indexed(o, is_ix, consts) {
        Err(k) => Err(k),
        Ok((reg, d)) => {
            let prefix: u8 = if is_ix {
                0xdd
            } else {
                0xfd
            };
            match spec_idx_load_op(o, reg, is_ix) {
                None => Ok(None),
                Some(op) => Ok(Some(seq![prefix, op, d])),
            }
        },
    }
}

/// The `add ix,rr` / `add iy,rr` base opcode of a register pair.
pub open spec fn spec_idx_add_op(reg: Seq<char>, is_ix: bool) -> Option<u8> {
    if reg == "bc"@ {
        Some(0x09)
    } else if reg == "de"@ {
        Some(0x19)
    } else if is_ix && reg == "ix"@ {
        Some(0x29)
    } else if !is_ix && reg == "iy"@ {
        Some(0x29)
    } else if reg == "sp"@ {
        Some(0x39)
    } else {
        None
    }
}

pub fn idx_add_op(reg: &[char], is_ix: bool) -> (r: Option<u8>)
    ensures
        r == spec_idx_add_op(reg@, is_ix),
{
    if eq_str(reg, "bc") {
        Some(0x09)
    } else if eq_str(reg, "de") {
        Some(0x19)
    } else if is_ix && eq_str(reg, "ix") {
        Some(0x29)
    } else if !is_ix && eq_str(reg, "iy") {
        Some(0x29)
    } else if eq_str(reg, "sp") {
        Some(0x39)
    } else {
        None
    }
}

/// How the indexed-addressing family encodes, declines or fails an
/// instruction, in the priority order of the checks.
pub open spec fn spec_index(
    mn: Seq<char>,
    ops: Option<Seq<char>>,
    labels: Map<Seq<char>, u16>,
    consts: Map<Seq<char>, u16>,
) -> Result<Option<Seq<u8>>, ErrKind> {
    match ops {
        None => Ok(None),
        Some(o) => {
            if mn == "push"@ && o == "ix"@ {
                Ok(Some(seq![0xddu8, 0xe5u8]))
            } else if mn == "push"@ && o == "iy"@ {
                Ok(Some(seq![0xfdu8, 0xe5u8]))
            } else if mn == "pop"@ && o == "ix"@ {
                Ok(Some(seq![0xddu8, 0xe1u8]))
            } else if mn == "pop"@ && o == "iy"@ {
                Ok(Some(seq![0xfdu8, 0xe1u8]))
            } else if mn == "ld"@ && spec_starts_with(o, "ix,"@) && !({
                let vs = spec_trim(o.subrange(3, o.len() as int));
                vs.len() > 0 && vs[0] == '('
            }) {
                let vs = spec_trim(o.subrange(3, o.len() as int));
                match spec_resolve(vs, labels, consts) {
                    None => Err(ErrKind::InvalidLiteral),
                    Some(v) => Ok(
                        Some(seq![0xddu8, 0x21u8, (v & 0xff) as u8, ((v >> 8) & 0xff) as u8]),
                    ),
                }
            } else if mn == "ld"@ && spec_starts_with(o, "iy,"@) && !({
                let vs = spec_trim(o.subrange(3, o.len() as int));
                vs.len() > 0 && vs[0] == '('
            }) {
                let vs = spec_trim(o.subrange(3, o.len() as int));
                match spec_resolve(vs, labels, consts) {
                    None => Err(ErrKind::InvalidLiteral),
                    Some(v) => Ok(
                        Some(seq![0xfdu8, 0x21u8, (v & 0xff) as u8, ((v >> 8) & 0xff) as u8]),
                    ),
                }
            } else if mn == "ld"@ && (contains_sub(o, "(ix+"@) || contains_sub(o, "(ix-"@)
                || contains_sub(o, "(ix)"@)) {
                spec_indexed_load(o, true, consts)
            } else if mn == "ld"@ && (contains_sub(o, "(iy+"@) || contains_sub(o, "(iy-"@)
                || contains_sub(o, "(iy)"@)) {
                spec_indexed_load(o, false, consts)
            } else if mn == "ld"@ && o.len() > 0 && o[0] == '(' && contains_sub(o, "),ix"@) {
                match find_char(o, ')') {
                    None => Ok(None),
                    Some(p) => match spec_parse_immediate(o.subrange(1, p), consts) {
                        None => Err(ErrKind::InvalidLiteral),
                        Some(a) => Ok(
                            Some(seq![0xddu8, 0x22u8, (a & 0xff) as u8, ((a >> 8) & 0xff) as u8]),
                        ),
                    },
                }
            } else if mn == "ld"@ && o.len() > 0 && o[0] == '(' && contains_sub(o, "),iy"@) {
                match find_char(o, ')') {
                    None => Ok(None),
                    Some(p) => match spec_parse_immediate(o.subrange(1, p), consts) {
                        None => Err(ErrKind::InvalidLiteral),
                        Some(a) => Ok(
                            Some(seq![0xfdu8, 0x22u8, (a & 0xff) as u8, ((a >> 8) & 0xff) as u8]),
                        ),
                    },
                }
            } else if mn == "ld"@ && spec_starts_with(o, "ix,("@) && o.len() > 0 && o.last()
                == ')' {
                match spec_parse_immediate(o.subrange(4, o.len() - 1), consts) {
                    None => Err(ErrKind::InvalidLiteral),
                    Some(a) => Ok(
                        Some(seq![0xddu8, 0x2au8, (a & 0xff) as u8, ((a >> 8) & 0xff) as u8]),
                    ),
                }
            } else if mn == "ld"@ && spec_starts_with(o, "iy,("@) && o.len() > 0 && o.last()
                == ')' {
                match spec_parse_immediate(o.subrange(4, o.len() - 1), consts) {
                    None => Err(ErrKind::InvalidLiteral),
                    Some(a) => Ok(
                        Some(seq![0xfdu8, 0x2au8, (a & 0xff) as u8, ((a >> 8) & 0xff) as u8]),
                    ),
                }
            } else if mn == "inc"@ && o == "ix"@ {
                Ok(Some(seq![0xddu8, 0x23u8]))
            } else if mn == "inc"@ && o == "iy"@ {
                Ok(Some(seq![0xfdu8, 0x23u8]))
            } else if mn == "dec"@ && o == "ix"@ {
                Ok(Some(seq![0xddu8, 0x2bu8]))
            } else if mn == "dec"@ && o == "iy"@ {
                Ok(Some(seq![0xfdu8, 0x2bu8]))
            } else if mn == "add"@ && spec_starts_with(o, "ix,"@) {
                match spec_idx_add_op(spec_trim(o.subrange(3, o.len() as int)), true) {
                    None => Ok(None),
                    Some(op) => Ok(Some(seq![0xddu8, op])),
                }
            } else if mn == "add"@ && spec_starts_with(o, "iy,"@) {
                match spec_idx_add_op(spec_trim(o.subrange(3, o.len() as int)), false) {
                    None => Ok(None),
                    Some(op) => Ok(Some(seq![0xfdu8, op])),
                }
            } else if mn == "ex"@ && o == "(sp),ix"@ {
                Ok(Some(seq![0xddu8, 0xe3u8]))
            } else if mn == "ex"@ && o == "(sp),iy"@ {
                Ok(Some(seq![0xfdu8, 0xe3u8]))
            } else if mn == "jp"@ && o == "(ix)"@ {
                Ok(Some(seq![0xddu8, 0xe9u8]))
            } else if mn == "jp"@ && o == "(iy)"@ {
                Ok(Some(seq![0xfdu8, 0xe9u8]))
            } else if mn == "ld"@ && o == "sp,ix"@ {
                Ok(Some(seq![0xddu8, 0xf9u8]))
            } else if mn == "ld"@ && o == "sp,iy"@ {
                Ok(Some(seq![0xfdu8, 0xf9u8]))
            } else {
                Ok(None)
            }
        },
    }
}

/// Two fixed bytes.
fn emit2(a: u8, b: u8) -> (r: Vec<u8>)
    ensures
        r@ == seq![a, b],
{
    let mut result: Vec<u8> = Vec::new();
    result.push(a);
    result.push(b);
    proof {
        assert(result@ =~= seq![a, b]);
    }
    result
}

/// A prefix, a base opcode, then a little-endian 16-bit value.
fn emit_prefix_word(prefix: u8, op: u8, v: u16) -> (r: Vec<u8>)
    ensures
        r@ == seq![prefix, op, (v & 0xff) as u8, ((v >> 8) & 0xff) as u8],
{
    let mut result: Vec<u8> = Vec::new();
    result.push(prefix);
    result.push(op);
    result.push((v & 0xff) as u8);
    result.push(((v >> 8) & 0xff) as u8);
    proof {
        assert(result@ =~= seq![prefix, op, (v & 0xff) as u8, ((v >> 8) & 0xff) as u8]);
    }
    result
}

/// Evaluate and range-check a displacement that starts at `start` and runs
/// to the next closing parenthesis.
fn disp_from(indexed: &[char], start: usize, negate: bool, consts: &SymTab) -> (r: Result<
    u8,
    AsmError,
>)
    requires
        start <= indexed@.len(),
    ensures
        ({
            let sp = spec_disp_from(indexed@, start as int, negate, consts@);
            match r {
                Ok(d) => sp == Ok::<u8, ErrKind>(d),
                Err(e) => sp == Err::<u8, ErrKind>(e.kind),
            }
        }),
{
    let rest = &indexed[start..indexed.len()];
    match find(rest, ')') {
        None => Err(AsmError::new(ErrKind::InvalidLiteral, indexed)),
        Some(e) => {
            proof {
                lemma_find_char(rest@, ')');
            }
            let ds = &indexed[start..start + e];
            proof {
                assert(ds@ =~= indexed@.subrange(start as int, start + e));
            }
            match eval_chars(ds, consts) {
                Err(er) => Err(er),
                Ok(v) => {
                    let s0: i32 = if v < 0x8000 {
                        v as i32
                    } else {
                        (v as i32) - 0x10000
                    };
                    let s: i32 = if negate {
                        -s0
                    } else {
                        s0
                    };
                    if s < -128 || s > 127 {
                        Err(AsmError::new(ErrKind::RangeError, indexed))
                    } else if s >= 0 {
                        Ok(s as u8)
                    } else {
                        Ok((s + 256) as u8)
                    }
                },
            }
        },
    }
}

/// Read an indexed operand pair: the plain register side and the
/// displacement byte of the `(ix±d)`/`(ix)` side.
fn parse_indexed_operand(o: &[char], is_ix: bool, consts: &SymTab) -> (r: Result<
    (Vec<char>, u8),
    AsmError,
>)
    ensures
        ({
            let sp = spec_parse_indexed(o@, is_ix, consts@);
            match r {
                Ok((reg, d)) => sp == Ok::<(Seq<char>, u8), ErrKind>((reg@, d)),
                Err(e) => sp is Err && sp == Err::<(Seq<char>, u8), ErrKind>(e.kind),
            }
        }),
{
    let parts = split_all(o, ',');
    if parts.len() != 2 {
        return Err(AsmError::new(ErrKind::InvalidOperandCount, o));
    }
    proof {
        assert(parts.deep_view()[0] == parts@[0]@);
        assert(parts.deep_view()[1] == parts@[1]@);
    }
    let p0_has_pre = if is_ix {
        contains_str(parts[0].as_slice(), "ix")
    } else {
        contains_str(parts[0].as_slice(), "iy")
    };
    let (reg, indexed): (Vec<char>, &[char]) = if p0_has_pre {
        (chars_vec(trim(parts[1].as_slice())), parts[0].as_slice())
    } else {
        (chars_vec(trim(parts[0].as_slice())), parts[1].as_slice())
    };
    let ilen: usize = indexed.len();
    let p_plus = if is_ix {
        find_str(indexed, "(ix+")
    } else {
        find_str(indexed, "(iy+")
    };
    let d: u8 = match p_plus {
        Some(p) => {
            proof {
                if is_ix {
                    reveal_strlit("(ix+");
                    assert("(ix+"@.len() == 4);
                    lemma_find_sub(indexed@, "(ix+"@);
                } else {
                    reveal_strlit("(iy+");
                    assert("(iy+"@.len() == 4);
                    lemma_find_sub(indexed@, "(iy+"@);
                }
                assert(p + 4 <= ilen);
            }
            match disp_from(indexed, p + 4, false, consts) {
                Ok(d) => d,
                Err(e) => {
                    return Err(e);
                },
            }
        },
        None => {
            let p_minus = if is_ix {
                find_str(indexed, "(ix-")
            } else {
                find_str(indexed, "(iy-")
            };
            match p_minus {
                Some(p) => {
                    proof {
                        if is_ix {
                            reveal_strlit("(ix-");
                            assert("(ix-"@.len() == 4);
                            lemma_find_sub(indexed@, "(ix-"@);
                        } else {
                            reveal_strlit("(iy-");
                            assert("(iy-"@.len() == 4);
                            lemma_find_sub(indexed@, "(iy-"@);
                        }
                        assert(p + 4 <= ilen);
                    }
                    match disp_from(indexed, p + 4, true, consts) {
                        Ok(d) => d,
                        Err(e) => {
                            return Err(e);
                        },
                    }
                },
                None => {
                    let has_zero = if is_ix {
                        contains_str(indexed, "(ix)")
                    } else {
                        contains_str(indexed, "(iy)")
                    };
                    if has_zero {
                        0
                    } else {
                        return Err(AsmError::new(ErrKind::InvalidLiteral, o));
                    }
                },
            }
        },
    };
    Ok((reg, d))
}

/// Encode a displaced load/store through `ix` or `iy`, or decline.
fn indexed_load(o: &[char], is_ix: bool, consts: &SymTab) -> (r: Result<Option<Vec<u8>>, AsmError>)
    ensures
        enc_matches(r, spec_indexed_load(o@, is_ix, consts@)),
{
    let (reg, d) = match parse_indexed_operand(o, is_ix, consts) {
        Ok(x) => x,
        Err(e) => {
            return Err(e);
        },
    };
    let prefix: u8 = if is_ix {
        0xdd
    } else {
        0xfd
    };
    match idx_load_op(o, reg.as_slice(), is_ix) {
        None => Ok(None),
        Some(op) => {
            let mut result: Vec<u8> = Vec::new();
            result.push(prefix);
            result.push(op);
            result.push(d);
            proof {
                assert(result@ =~= seq![prefix, op, d]);
            }
            Ok(Some(result))
        },
    }
}

/// Encode a displaced load/store through `ix`, or decline.
fn handle_ix_indexed_load(o: &[char], consts: &SymTab) -> (r: Result<Option<Vec<u8>>, AsmError>)
    ensures
        enc_matches(r, spec_indexed_load(o@, true, consts@)),
{
    indexed_load(o, true, consts)
}

/// Encode a displaced load/store through `iy`, or decline.
fn handle_iy_indexed_load(o: &[char], consts: &SymTab) -> (r: Result<Option<Vec<u8>>, AsmError>)
    ensures
        enc_matches(r, spec_indexed_load(o@, false, consts@)),
{
    indexed_load(o, false, consts)
}

/// Encode an `ix`/`iy`-family instruction, or decline.
pub fn handle_index_instruction(
    mnemonic: &str,
    operands: Option<&str>,
    labels: &SymTab,
    constants: &SymTab,
) -> (r: Result<Option<Vec<u8>>, AsmError>)
    ensures
        enc_matches(r, spec_index(mnemonic@, option_view(operands), labels@, constants@)),
{
    let mn = to_chars(mnemonic);
    let mn = mn.as_slice();
    let ops = match operands {
        None => {
            return Ok(None);
        },
        Some(ops) => ops,
    };
    let ov = to_chars(ops);
    let o = ov.as_slice();
    if eq_str(mn, "push") && eq_str(o, "ix") {
        return Ok(Some(emit2(0xdd, 0xe5)));
    }
    if eq_str(mn, "push") && eq_str(o, "iy") {
        return Ok(Some(emit2(0xfd, 0xe5)));
    }
    if eq_str(mn, "pop") && eq_str(o, "ix") {
        return Ok(Some(emit2(0xdd, 0xe1)));
    }
    if eq_str(mn, "pop") && eq_str(o, "iy") {
        return Ok(Some(emit2(0xfd, 0xe1)));
    }
    if eq_str(mn, "ld") {
        if starts_with_str(o, "ix,") {
            proof {
                reveal_strlit("ix,");
            }
            let vs = trim(&o[3..o.len()]);
            if !(vs.len() > 0 && vs[0] == '(') {
                return match resolve(vs, labels, constants) {
                    Err(e) => Err(e),
                    Ok(v) => Ok(Some(emit_prefix_word(0xdd, 0x21, v))),
                };
            }
        }
        if starts_with_str(o, "iy,") {
            proof {
                reveal_strlit("iy,");
            }
            let vs = trim(&o[3..o.len()]);
            if !(vs.len() > 0 && vs[0] == '(') {
                return match resolve(vs, labels, constants) {
                    Err(e) => Err(e),
                    Ok(v) => Ok(Some(emit_prefix_word(0xfd, 0x21, v))),
                };
            }
        }
        if contains_str(o, "(ix+") || contains_str(o, "(ix-") || contains_str(o, "(ix)") {
            return handle_ix_indexed_load(o, constants);
        }
        if contains_str(o, "(iy+") || contains_str(o, "(iy-") || contains_str(o, "(iy)") {
            return handle_iy_indexed_load(o, constants);
        }
        if o.len() > 0 && o[0] == '(' && contains_str(o, "),ix") {
            return match find(o, ')') {
                None => Ok(None),
                Some(p) => {
                    proof {
                        lemma_find_char(o@, ')');
                    }
                    match eval_chars(&o[1..p], constants) {
                        Err(e) => Err(e),
                        Ok(a) => Ok(Some(emit_prefix_word(0xdd, 0x22, a))),
                    }
                },
            };
        }
        if o.len() > 0 && o[0] == '(' && contains_str(o, "),iy") {
            return match find(o, ')') {
                None => Ok(None),
                Some(p) => {
                    proof {
                        lemma_find_char(o@, ')');
                    }
                    match eval_chars(&o[1..p], constants) {
                        Err(e) => Err(e),
                        Ok(a) => Ok(Some(emit_prefix_word(0xfd, 0x22, a))),
                    }
                },
            };
        }
        if starts_with_str(o, "ix,(") && o.len() > 0 && o[o.len() - 1] == ')' {
            proof {
                reveal_strlit("ix,(");
                assert(o@.subrange(0, 4)[3] == o@[3]);
                assert(o@[3] == '(');
                assert(o@.last() == o@[o@.len() - 1]);
                assert(o@.len() >= 5);
            }
            return match eval_chars(&o[4..o.len() - 1], constants) {
                Err(e) => Err(e),
                Ok(a) => Ok(Some(emit_prefix_word(0xdd, 0x2a, a))),
            };
        }
        if starts_with_str(o, "iy,(") && o.len() > 0 && o[o.len() - 1] == ')' {
            proof {
                reveal_strlit("iy,(");
                assert(o@.subrange(0, 4)[3] == o@[3]);
                assert(o@[3] == '(');
                assert(o@.last() == o@[o@.len() - 1]);
                assert(o@.len() >= 5);
            }
            return match eval_chars(&o[4..o.len() - 1], constants) {
                Err(e) => Err(e),
                Ok(a) => Ok(Some(emit_prefix_word(0xfd, 0x2a, a))),
            };
        }
    }
    if eq_str(mn, "inc") && eq_str(o, "ix") {
        return Ok(Some(emit2(0xdd, 0x23)));
    }
    if eq_str(mn, "inc") && eq_str(o, "iy") {
        return Ok(Some(emit2(0xfd, 0x23)));
    }
    if eq_str(mn, "dec") && eq_str(o, "ix") {
        return Ok(Some(emit2(0xdd, 0x2b)));
    }
    if eq_str(mn, "dec") && eq_str(o, "iy") {
        return Ok(Some(emit2(0xfd, 0x2b)));
    }
    if eq_str(mn, "add") && starts_with_str(o, "ix,") {
        proof {
            reveal_strlit("ix,");
        }
        let reg = trim(&o[3..o.len()]);
        return match idx_add_op(reg, true) {
            None => Ok(None),
            Some(op) => Ok(Some(emit2(0xdd, op))),
        };
    }
    if eq_str(mn, "add") && starts_with_str(o, "iy,") {
        proof {
            reveal_strlit("iy,");
        }
        let reg = trim(&o[3..o.len()]);
        return match idx_add_op(reg, false) {
            None => Ok(None),
            Some(op) => Ok(Some(emit2(0xfd, op))),
        };
    }
    if eq_str(mn, "ex") && eq_str(o, "(sp),ix") {
        return Ok(Some(emit2(0xdd, 0xe3)));
    }
    if eq_str(mn, "ex") && eq_str(o, "(sp),iy") {
        return Ok(Some(emit2(0xfd, 0xe3)));
    }
    if eq_str(mn, "jp") && eq_str(o, "(ix)") {
        return Ok(Some(emit2(0xdd, 0xe9)));
    }
    if eq_str(mn, "jp") && eq_str(o, "(iy)") {
        return Ok(Some(emit2(0xfd, 0xe9)));
    }
    if eq_str(mn, "ld") && eq_str(o, "sp,ix") {
        return Ok(Some(emit2(0xdd, 0xf9)));
    }
    if eq_str(mn, "ld") && eq_str(o, "sp,iy") {
        return Ok(Some(emit2(0xfd, 0xf9)));
    }
    Ok(None)
}

} // verus!
