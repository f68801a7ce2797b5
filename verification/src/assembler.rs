//! The two-pass assembly driver. Pass one walks an address cursor with the
//! size estimator and records label addresses; pass two re-parses every
//! line, dispatches each mnemonic through the encoder families in a fixed
//! priority order against the now-complete symbol table, and concatenates
//! the encodings.

use vstd::prelude::*;
use crate::arithmetic::{
    handle_arithmetic_instruction, spec_arith, spec_arith_imm_op, spec_arith_value_text,
    spec_is_arith_reg,
};
use crate::bitops::{handle_bit_instruction, spec_bit, spec_bit_base, spec_rot_base};
use crate::calls::{handle_call_instruction, option_view, spec_call, spec_cond_target};
use crate::chars::{
    chars_to_string, chars_vec, contains_str, contains_sub, eq_str, spec_starts_with, spec_trim,
    split_all, split_char, starts_with_str, to_chars, trim,
};
use crate::data::{
    estimate_data_size, handle_data_directive, spec_data, spec_db_size, spec_dw_size,
};
use crate::error::{AsmError, ErrKind};
use crate::immediate::{eval_chars, parse_immediate, spec_parse_immediate};
use crate::index::{handle_index_instruction, spec_idx_add_op, spec_idx_load_op, spec_index};
use crate::io::{handle_io_instruction, spec_block_io_op, spec_io};
use crate::jumps::{handle_jump_instruction, spec_jump};
use crate::loads::{handle_load_instruction, spec_is_pair_indirect, spec_is_reg8, spec_load};
use crate::parser::{spec_parse_line, spec_split_operands, Parser};
use crate::symtab::SymTab;
use crate::tables::{opcode_of, rom_call, spec_opcode_of, spec_reg_load_imm, spec_rom_call};

verus! {

/// The default origin address of the target platform.
pub const TI83_PLUS_ORIGIN: u16 = 0x9D93;

/// The restart opcode through which the platform's system calls go.
pub const RST_28H: u8 = 0xEF;

/// One source line with its trailing carriage return removed.
pub open spec fn strip_cr(s: Seq<char>) -> Seq<char> {
    if s.len() > 0 && s.last() == '\r' {
        s.drop_last()
    } else {
        s
    }
}

/// The lines of a source text: split on every newline, a final empty piece
/// dropped, and each line's trailing carriage return removed.
pub open spec fn spec_lines(src: Seq<char>) -> Seq<Seq<char>> {
    let ps = split_char(src, '\n');
    let ps2 = if ps.len() > 0 && ps.last().len() == 0 {
        ps.drop_last()
    } else {
        ps
    };
    Seq::new(ps2.len(), |i: int| strip_cr(ps2[i]))
}

/// Split a source text into lines.
pub fn split_lines(v: &[char]) -> (r: Vec<Vec<char>>)
    ensures
        r.deep_view() == spec_lines(v@),
{
    let mut raw = split_all(v, '\n');
    let ghost ps = raw.deep_view();
    if raw.len() > 0 && raw[raw.len() - 1].len() == 0 {
        proof {
            assert(ps.last() == raw@[raw@.len() - 1]@);
        }
        let _ = raw.pop();
        proof {
            assert(raw.deep_view() =~~= ps.drop_last());
        }
    }
    let ghost ps2 = raw.deep_view();
    let mut r: Vec<Vec<char>> = Vec::new();
    let mut i: usize = 0;
    while i < raw.len()
        invariant
            0 <= i <= raw@.len(),
            ps2 == raw.deep_view(),
            r@.len() == i,
            forall|j: int| 0 <= j < i ==> r.deep_view()[j] == strip_cr(ps2[j]),
        decreases raw@.len() - i,
    {
        let piece = raw[i].as_slice();
        proof {
            assert(ps2[i as int] == raw@[i as int]@);
        }
        let stripped = if piece.len() > 0 && piece[piece.len() - 1] == '\r' {
            proof {
                assert(piece@.last() == piece@[piece@.len() - 1]);
            }
            chars_vec(&piece[0..piece.len() - 1])
        } else {
            chars_vec(piece)
        };
        proof {
            assert(piece@.len() > 0 && piece@.last() == '\r' ==> piece@.subrange(
                0,
                piece@.len() - 1,
            ) =~= piece@.drop_last());
            assert(stripped@ == strip_cr(ps2[i as int]));
        }
        let ghost sv = stripped@;
        let ghost old_r = r@;
        let ghost old_deep = r.deep_view();
        r.push(stripped);
        proof {
            assert(r.deep_view()[i as int] =~= sv);
            assert forall|j: int| 0 <= j < i implies r.deep_view()[j] == strip_cr(ps2[j]) by {
                assert(old_deep[j] == strip_cr(ps2[j]));
                assert(old_deep[j] == old_r[j].deep_view());
                assert(r@[j] == old_r[j]);
                assert(r.deep_view()[j] == r@[j].deep_view());
            }
        }
        i = i + 1;
    }
    proof {
        assert(r.deep_view() =~~= spec_lines(v@));
    }
    r
}

/// Text with every leading occurrence of `c` removed.
pub open spec fn drop_leading(s: Seq<char>, c: char) -> Seq<char>
    decreases s.len(),
{
    if s.len() > 0 && s[0] == c {
        drop_leading(s.drop_first(), c)
    } else {
        s
    }
}

/// Text with every trailing occurrence of `c` removed.
pub open spec fn drop_trailing(s: Seq<char>, c: char) -> Seq<char>
    decreases s.len(),
{
    if s.len() > 0 && s.last() == c {
        drop_trailing(s.drop_last(), c)
    } else {
        s
    }
}

/// Strip matching leading and trailing characters, as the system-call name
/// is stripped of its parentheses.
pub fn strip_matches(v: &[char], lead: char, tail: char) -> (r: &[char])
    ensures
        r@ == drop_trailing(drop_leading(v@, lead), tail),
{
    let mut a: usize = 0;
    proof {
        assert(v@.subrange(0, v@.len() as int) =~= v@);
    }
    while a < v.len() && v[a] == lead
        invariant
            0 <= a <= v@.len(),
            drop_leading(v@, lead) == drop_leading(v@.subrange(a as int, v@.len() as int), lead),
        decreases v@.len() - a,
    {
        proof {
            let rest = v@.subrange(a as int, v@.len() as int);
            assert(rest[0] == v@[a as int]);
            assert(rest.drop_first() =~= v@.subrange(a + 1, v@.len() as int));
        }
        a = a + 1;
    }
    proof {
        let rest = v@.subrange(a as int, v@.len() as int);
        if rest.len() > 0 {
            assert(rest[0] == v@[a as int]);
        }
        assert(drop_leading(v@, lead) == rest);
    }
    let mut b: usize = v.len();
    while b > a && v[b - 1] == tail
        invariant
            a <= b <= v@.len(),
            drop_leading(v@, lead) == v@.subrange(a as int, v@.len() as int),
            drop_trailing(v@.subrange(a as int, v@.len() as int), tail) == drop_trailing(
                v@.subrange(a as int, b as int),
                tail,
            ),
        decreases b,
    {
        proof {
            let cur = v@.subrange(a as int, b as int);
            assert(cur.last() == v@[b - 1]);
            assert(cur.drop_last() =~= v@.subrange(a as int, b - 1));
        }
        b = b - 1;
    }
    proof {
        let cur = v@.subrange(a as int, b as int);
        if cur.len() > 0 {
            assert(cur.last() == v@[b - 1]);
        }
        assert(drop_trailing(v@.subrange(a as int, v@.len() as int), tail) == cur);
    }
    &v[a..b]
}

/// The bytes of a fixed-form opcode found under the full instruction text:
/// up to three bytes, high byte first.
pub open spec fn table_bytes(op: u32) -> Seq<u8> {
    if op > 0xffff {
        seq![((op >> 16) & 0xff) as u8, ((op >> 8) & 0xff) as u8, (op & 0xff) as u8]
    } else if op > 0xff {
        seq![((op >> 8) & 0xff) as u8, (op & 0xff) as u8]
    } else {
        seq![op as u8]
    }
}

/// The bytes of a fixed-form opcode found under the bare mnemonic: one or
/// two bytes.
pub open spec fn bare_bytes(op: u32) -> Seq<u8> {
    if op > 0xff {
        seq![((op >> 8) & 0xff) as u8, (op & 0xff) as u8]
    } else {
        seq![op as u8]
    }
}

/// The full instruction text looked up in the opcode table: the mnemonic,
/// one space, and the raw operand text.
pub open spec fn full_inst(mn: Seq<char>, ops: Option<Seq<char>>) -> Seq<char> {
    match ops {
        Some(o) => mn + " "@ + o,
        None => mn,
    }
}

/// How one non-directive instruction encodes, in the dispatch priority
/// order: data directives, the system-call syntax, the indexed family, the
/// load family, jumps, calls, arithmetic immediates, bit manipulation,
/// input/output, the two return-from-interrupt forms, then the fixed-opcode
/// table under the full text and under the bare mnemonic. `Err` with
/// `UnknownInstruction` when nothing matches.
pub open spec fn spec_encode(
    mn: Seq<char>,
    ops: Option<Seq<char>>,
    labels: Map<Seq<char>, u16>,
    consts: Map<Seq<char>, u16>,
    addr: u16,
) -> Result<Seq<u8>, ErrKind> {
    match spec_data(mn, ops, labels, consts) {
        Err(k) => Err(k),
        Ok(Some(b)) => Ok(b),
        Ok(None) => if mn == "bcall"@ && ops is Some {
            let name = drop_trailing(drop_leading(ops->Some_0, '('), ')');
            match spec_rom_call(name) {
                Some(a) => Ok(seq![0xEFu8, (a & 0xff) as u8, ((a >> 8) & 0xff) as u8]),
                None => Err(ErrKind::UnknownInstruction),
            }
        } else {
            match spec_index(mn, ops, labels, consts) {
                Err(k) => Err(k),
                Ok(Some(b)) => Ok(b),
                Ok(None) => {
                    let ld = if mn == "ld"@ && ops is Some {
                        spec_load(ops->Some_0, labels, consts)
                    } else {
                        Ok(None)
                    };
                    match ld {
                        Err(k) => Err(k),
                        Ok(Some(b)) => Ok(b),
                        Ok(None) => match spec_jump(mn, ops, labels, consts, addr) {
                            Err(k) => Err(k),
                            Ok(Some(b)) => Ok(b),
                            Ok(None) => match spec_call(mn, ops, labels, consts) {
                                Err(k) => Err(k),
                                Ok(Some(b)) => Ok(b),
                                Ok(None) => match spec_arith(mn, ops, consts) {
                                    Err(k) => Err(k),
                                    Ok(Some(b)) => Ok(b),
                                    Ok(None) => match spec_bit(mn, ops) {
                                        Err(k) => Err(k),
                                        Ok(Some(b)) => Ok(b),
                                        Ok(None) => match spec_io(mn, ops, consts) {
                                            Err(k) => Err(k),
                                            Ok(Some(b)) => Ok(b),
                                            Ok(None) => if mn == "reti"@ {
                                                Ok(seq![0xedu8, 0x4du8])
                                            } else if mn == "retn"@ {
                                                Ok(seq![0xedu8, 0x45u8])
                                            } else {
                                                match spec_opcode_of(full_inst(mn, ops)) {
                                                    Some(op) => Ok(table_bytes(op)),
                                                    None => match spec_opcode_of(mn) {
                                                        Some(op) => Ok(bare_bytes(op)),
                                                        None => Err(ErrKind::UnknownInstruction),
                                                    },
                                                }
                                            },
                                        },
                                    },
                                },
                            },
                        },
                    }
                },
            }
        },
    }
}

/// Build the full instruction text of the table lookup.
fn build_full_inst(mn: &[char], ops: Option<&[char]>) -> (r: Vec<char>)
    ensures
        r@ == full_inst(mn@, match ops {
            Some(o) => Some(o@),
            None => None,
        }),
{
    let mut r = chars_vec(mn);
    match ops {
        None => r,
        Some(o) => {
            r.push(' ');
            let mut i: usize = 0;
            proof {
                reveal_strlit(" ");
                assert(" "@ =~= seq![' ']);
                assert(r@ =~= mn@ + " "@);
            }
            while i < o.len()
                invariant
                    0 <= i <= o@.len(),
                    r@ == mn@ + " "@ + o@.subrange(0, i as int),
                decreases o@.len() - i,
            {
                r.push(o[i]);
                proof {
                    assert(r@ =~= mn@ + " "@ + o@.subrange(0, i + 1));
                }
                i = i + 1;
            }
            proof {
                assert(r@ =~= mn@ + " "@ + o@);
            }
            r
        },
    }
}

/// Emit up to three bytes from a table opcode value, high byte first.
fn emit_table_bytes(op: u32) -> (r: Vec<u8>)
    ensures
        r@ == table_bytes(op),
{
    let mut r: Vec<u8> = Vec::new();
    if op > 0xffff {
        r.push(((op >> 16) & 0xff) as u8);
        r.push(((op >> 8) & 0xff) as u8);
        r.push((op & 0xff) as u8);
        proof {
            assert(r@ =~= table_bytes(op));
        }
    } else if op > 0xff {
        r.push(((op >> 8) & 0xff) as u8);
        r.push((op & 0xff) as u8);
        proof {
            assert(r@ =~= table_bytes(op));
        }
    } else {
        r.push(op as u8);
        proof {
            assert(r@ =~= table_bytes(op));
        }
    }
    r
}

/// Emit one or two bytes from a bare-mnemonic table opcode value.
fn emit_bare_bytes(op: u32) -> (r: Vec<u8>)
    ensures
        r@ == bare_bytes(op),
{
    let mut r: Vec<u8> = Vec::new();
    if op > 0xff {
        r.push(((op >> 8) & 0xff) as u8);
        r.push((op & 0xff) as u8);
        proof {
            assert(r@ =~= bare_bytes(op));
        }
    } else {
        r.push(op as u8);
        proof {
            assert(r@ =~= bare_bytes(op));
        }
    }
    r
}

/// Encode one non-directive instruction through the dispatch chain.
#[verifier::rlimit(100)]
pub fn encode_instruction(
    mnemonic: &str,
    operands: Option<&str>,
    labels: &SymTab,
    constants: &SymTab,
    current_address: u16,
) -> (r: Result<Vec<u8>, AsmError>)
    ensures
        ({
            let sp = spec_encode(
                mnemonic@,
                option_view(operands),
                labels@,
                constants@,
                current_address,
            );
            match r {
                Ok(b) => sp == Ok::<Seq<u8>, ErrKind>(b@),
                Err(e) => sp == Err::<Seq<u8>, ErrKind>(e.kind),
            }
        }),
{
    match handle_data_directive(mnemonic, operands, labels, constants) {
        Err(e) => {
            return Err(e);
        },
        Ok(Some(b)) => {
            return Ok(b);
        },
        Ok(None) => {},
    }
    let mn = to_chars(mnemonic);
    if eq_str(mn.as_slice(), "bcall") && operands.is_some() {
        let ops = match operands {
            Some(o) => o,
            None => {
                return Err(AsmError::new(ErrKind::UnknownInstruction, mn.as_slice()));
            },
        };
        let o = to_chars(ops);
        let name = strip_matches(o.as_slice(), '(', ')');
        return match rom_call(name) {
            Some(a) => {
                let mut result: Vec<u8> = Vec::new();
                result.push(RST_28H);
                result.push((a & 0xff) as u8);
                result.push(((a >> 8) & 0xff) as u8);
                proof {
                    assert(result@ =~= seq![0xEFu8, (a & 0xff) as u8, ((a >> 8) & 0xff) as u8]);
                }
                Ok(result)
            },
            None => Err(AsmError::new(ErrKind::UnknownInstruction, name)),
        };
    }
    match handle_index_instruction(mnemonic, operands, labels, constants) {
        Err(e) => {
            return Err(e);
        },
        Ok(Some(b)) => {
            return Ok(b);
        },
        Ok(None) => {},
    }
    if eq_str(mn.as_slice(), "ld") {
        if let Some(ops) = operands {
            match handle_load_instruction(ops, labels, constants, &Parser) {
                Err(e) => {
                    return Err(e);
                },
                Ok(Some(b)) => {
                    return Ok(b);
                },
                Ok(None) => {},
            }
        }
    }
    match handle_jump_instruction(mnemonic, operands, labels, constants, current_address) {
        Err(e) => {
            return Err(e);
        },
        Ok(Some(b)) => {
            return Ok(b);
        },
        Ok(None) => {},
    }
    match handle_call_instruction(mnemonic, operands, labels, constants) {
        Err(e) => {
            return Err(e);
        },
        Ok(Some(b)) => {
            return Ok(b);
        },
        Ok(None) => {},
    }
    match handle_arithmetic_instruction(mnemonic, operands, constants) {
        Err(e) => {
            return Err(e);
        },
        Ok(Some(b)) => {
            return Ok(b);
        },
        Ok(None) => {},
    }
    match handle_bit_instruction(mnemonic, operands) {
        Err(e) => {
            return Err(e);
        },
        Ok(Some(b)) => {
            return Ok(b);
        },
        Ok(None) => {},
    }
    match handle_io_instruction(mnemonic, operands, constants) {
        Err(e) => {
            return Err(e);
        },
        Ok(Some(b)) => {
            return Ok(b);
        },
        Ok(None) => {},
    }
    if eq_str(mn.as_slice(), "reti") {
        let mut result: Vec<u8> = Vec::new();
        result.push(0xed);
        result.push(0x4d);
        proof {
            assert(result@ =~= seq![0xedu8, 0x4du8]);
        }
        return Ok(result);
    }
    if eq_str(mn.as_slice(), "retn") {
        let mut result: Vec<u8> = Vec::new();
        result.push(0xed);
        result.push(0x45);
        proof {
            assert(result@ =~= seq![0xedu8, 0x45u8]);
        }
        return Ok(result);
    }
    let ops_chars: Option<Vec<char>> = match operands {
        None => None,
        Some(o) => Some(to_chars(o)),
    };
    let full = match &ops_chars {
        None => build_full_inst(mn.as_slice(), None),
        Some(o) => build_full_inst(mn.as_slice(), Some(o.as_slice())),
    };
    if let Some(op) = opcode_of(full.as_slice()) {
        return Ok(emit_table_bytes(op));
    }
    if let Some(op) = opcode_of(mn.as_slice()) {
        return Ok(emit_bare_bytes(op));
    }
    Err(AsmError::new(ErrKind::UnknownInstruction, full.as_slice()))
}


/// The byte count an `ix`/`iy`-family instruction will occupy, from its
/// shape alone, mirroring the family's own branch order; `None` where the
/// family would decline.
pub open spec fn spec_idx_load_size(o: Seq<char>, is_ix: bool) -> Option<int> {
    let parts = split_char(o, ',');
    if parts.len() != 2 {
        None
    } else {
        let pre: Seq<char> = if is_ix {
            "ix"@
        } else {
            "iy"@
        };
        let reg = if contains_sub(parts[0], pre) {
            spec_trim(parts[1])
        } else {
            spec_trim(parts[0])
        };
        match spec_idx_load_op(o, reg, is_ix) {
            Some(_) => Some(3),
            None => None,
        }
    }
}

/// The byte count of an indexed-family instruction, or `None` where the
/// family declines.
pub open spec fn spec_index_size(mn: Seq<char>, ops: Option<Seq<char>>) -> Option<int> {
    match ops {
        None => None,
        Some(o) => {
            if mn == "push"@ && (o == "ix"@ || o == "iy"@) {
                Some(2)
            } else if mn == "pop"@ && (o == "ix"@ || o == "iy"@) {
                Some(2)
            } else if mn == "ld"@ && (spec_starts_with(o, "ix,"@) || spec_starts_with(o, "iy,"@))
                && !({
                let vs = spec_trim(o.subrange(3, o.len() as int));
                vs.len() > 0 && vs[0] == '('
            }) {
                Some(4)
            } else if mn == "ld"@ && (contains_sub(o, "(ix+"@) || contains_sub(o, "(ix-"@)
                || contains_sub(o, "(ix)"@)) {
                spec_idx_load_size(o, true)
            } else if mn == "ld"@ && (contains_sub(o, "(iy+"@) || contains_sub(o, "(iy-"@)
                || contains_sub(o, "(iy)"@)) {
                spec_idx_load_size(o, false)
            } else if mn == "ld"@ && o.len() > 0 && o[0] == '(' && (contains_sub(o, "),ix"@)
                || contains_sub(o, "),iy"@)) {
                Some(4)
            } else if mn == "ld"@ && (spec_starts_with(o, "ix,("@) || spec_starts_with(
                o,
                "iy,("@,
            )) && o.len() > 0 && o.last() == ')' {
                Some(4)
            } else if (mn == "inc"@ || mn == "dec"@) && (o == "ix"@ || o == "iy"@) {
                Some(2)
            } else if mn == "add"@ && spec_starts_with(o, "ix,"@) {
                match spec_idx_add_op(spec_trim(o.subrange(3, o.len() as int)), true) {
                    Some(_) => Some(2),
                    None => None,
                }
            } else if mn == "add"@ && spec_starts_with(o, "iy,"@) {
                match spec_idx_add_op(spec_trim(o.subrange(3, o.len() as int)), false) {
                    Some(_) => Some(2),
                    None => None,
                }
            } else if mn == "ex"@ && (o == "(sp),ix"@ || o == "(sp),iy"@) {
                Some(2)
            } else if mn == "jp"@ && (o == "(ix)"@ || o == "(iy)"@) {
                Some(2)
            } else if mn == "ld"@ && (o == "sp,ix"@ || o == "sp,iy"@) {
                Some(2)
            } else {
                None
            }
        },
    }
}

/// The byte count of a load-family instruction, or `None` where the family
/// declines, mirroring the family's classification exactly.
pub open spec fn spec_load_size(o: Seq<char>) -> Option<int> {
    let parts = spec_split_operands(o);
    if parts.len() != 2 {
        None
    } else {
        let dest = parts[0];
        let src = parts[1];
        if spec_reg_load_imm(dest) is Some && !(src.len() > 0 && src[0] == '(') && !spec_is_reg8(
            src,
        ) {
            Some(2)
        } else if dest == "hl"@ || dest == "bc"@ || dest == "de"@ || dest == "sp"@ {
            Some(3)
        } else if dest.len() >= 2 && dest[0] == '(' && dest.last() == ')' && src == "hl"@ {
            Some(3)
        } else if dest == "a"@ && src.len() >= 2 && src[0] == '(' && src.last() == ')'
            && !spec_is_pair_indirect(src.subrange(1, src.len() - 1)) {
            Some(3)
        } else if dest.len() >= 2 && dest[0] == '(' && dest.last() == ')' && src == "a"@
            && !spec_is_pair_indirect(dest.subrange(1, dest.len() - 1)) {
            Some(3)
        } else {
            None
        }
    }
}

/// The encoder families claim disjoint mnemonics: an arithmetic, bit or
/// block-I/O mnemonic is none of the named ones, and the groups do not
/// overlap.
/// An arithmetic-immediate mnemonic is none of the named mnemonics nor a
/// bit-manipulation or block-I/O mnemonic.
#[verifier::rlimit(100)]
pub proof fn lemma_arith_mn(mn: Seq<char>)
    requires
        spec_arith_imm_op(mn) is Some,
    ensures
        mn != "jp"@ && mn != "jr"@ && mn != "djnz"@ && mn != "call"@ && mn != "ret"@ && mn
            != "in"@ && mn != "out"@ && mn != "reti"@ && mn != "retn"@ && mn != "ld"@ && mn
            != "bcall"@ && mn != ".org"@ && mn != ".end"@ && mn != ".equ"@ && mn != ".db"@ && mn
            != ".dw"@,
        spec_bit_base(mn) is None,
        spec_rot_base(mn) is None,
        spec_block_io_op(mn) is None,
{
    reveal_strlit("add");
    reveal_strlit("adc");
    reveal_strlit("sub");
    reveal_strlit("sbc");
    reveal_strlit("and");
    reveal_strlit("xor");
    reveal_strlit("or");
    reveal_strlit("cp");
    assert(mn == "add"@ || mn == "adc"@ || mn == "sub"@ || mn == "sbc"@ || mn == "and"@ || mn == "xor"@ || mn == "or"@ || mn == "cp"@);
    assert(mn != "jp"@) by {
        reveal_strlit("jp");
        if mn == "jp"@ {
            reveal_strlit("add");
            assert("jp"@.len() == 2);
            assert("add"@.len() == 3);
            assert("jp"@ != "add"@);
            reveal_strlit("adc");
            assert("jp"@.len() == 2);
            assert("adc"@.len() == 3);
            assert("jp"@ != "adc"@);
            reveal_strlit("sub");
            assert("jp"@.len() == 2);
            assert("sub"@.len() == 3);
            assert("jp"@ != "sub"@);
            reveal_strlit("sbc");
            assert("jp"@.len() == 2);
            assert("sbc"@.len() == 3);
            assert("jp"@ != "sbc"@);
            reveal_strlit("and");
            assert("jp"@.len() == 2);
            assert("and"@.len() == 3);
            assert("jp"@ != "and"@);
            reveal_strlit("xor");
            assert("jp"@.len() == 2);
            assert("xor"@.len() == 3);
            assert("jp"@ != "xor"@);
            reveal_strlit("or");
            assert("jp"@.len() == 2);
            assert("or"@.len() == 2);
            assert("jp"@[0] == 'j');
            assert("or"@[0] == 'o');
            assert("jp"@ != "or"@);
            reveal_strlit("cp");
            assert("jp"@.len() == 2);
            assert("cp"@.len() == 2);
            assert("jp"@[0] == 'j');
            assert("cp"@[0] == 'c');
            assert("jp"@ != "cp"@);
            assert(false);
        }
    }
    assert(mn != "jr"@) by {
        reveal_strlit("jr");
        if mn == "jr"@ {
            reveal_strlit("add");
            assert("jr"@.len() == 2);
            assert("add"@.len() == 3);
            assert("jr"@ != "add"@);
            reveal_strlit("adc");
            assert("jr"@.len() == 2);
            assert("adc"@.len() == 3);
            assert("jr"@ != "adc"@);
            reveal_strlit("sub");
            assert("jr"@.len() == 2);
            assert("sub"@.len() == 3);
            assert("jr"@ != "sub"@);
            reveal_strlit("sbc");
            assert("jr"@.len() == 2);
            assert("sbc"@.len() == 3);
            assert("jr"@ != "sbc"@);
            reveal_strlit("and");
            assert("jr"@.len() == 2);
            assert("and"@.len() == 3);
            assert("jr"@ != "and"@);
            reveal_strlit("xor");
            assert("jr"@.len() == 2);
            assert("xor"@.len() == 3);
            assert("jr"@ != "xor"@);
            reveal_strlit("or");
            assert("jr"@.len() == 2);
            assert("or"@.len() == 2);
            assert("jr"@[0] == 'j');
            assert("or"@[0] == 'o');
            assert("jr"@ != "or"@);
            reveal_strlit("cp");
            assert("jr"@.len() == 2);
            assert("cp"@.len() == 2);
            assert("jr"@[0] == 'j');
            assert("cp"@[0] == 'c');
            assert("jr"@ != "cp"@);
            assert(false);
        }
    }
    assert(mn != "djnz"@) by {
        reveal_strlit("djnz");
        if mn == "djnz"@ {
            reveal_strlit("add");
            assert("djnz"@.len() == 4);
            assert("add"@.len() == 3);
            assert("djnz"@ != "add"@);
            reveal_strlit("adc");
            assert("djnz"@.len() == 4);
            assert("adc"@.len() == 3);
            assert("djnz"@ != "adc"@);
            reveal_strlit("sub");
            assert("djnz"@.len() == 4);
            assert("sub"@.len() == 3);
            assert("djnz"@ != "sub"@);
            reveal_strlit("sbc");
            assert("djnz"@.len() == 4);
            assert("sbc"@.len() == 3);
            assert("djnz"@ != "sbc"@);
            reveal_strlit("and");
            assert("djnz"@.len() == 4);
            assert("and"@.len() == 3);
            assert("djnz"@ != "and"@);
            reveal_strlit("xor");
            assert("djnz"@.len() == 4);
            assert("xor"@.len() == 3);
            assert("djnz"@ != "xor"@);
            reveal_strlit("or");
            assert("djnz"@.len() == 4);
            assert("or"@.len() == 2);
            assert("djnz"@ != "or"@);
            reveal_strlit("cp");
            assert("djnz"@.len() == 4);
            assert("cp"@.len() == 2);
            assert("djnz"@ != "cp"@);
            assert(false);
        }
    }
    assert(mn != "call"@) by {
        reveal_strlit("call");
        if mn == "call"@ {
            reveal_strlit("add");
            assert("call"@.len() == 4);
            assert("add"@.len() == 3);
            assert("call"@ != "add"@);
            reveal_strlit("adc");
            assert("call"@.len() == 4);
            assert("adc"@.len() == 3);
            assert("call"@ != "adc"@);
            reveal_strlit("sub");
            assert("call"@.len() == 4);
            assert("sub"@.len() == 3);
            assert("call"@ != "sub"@);
            reveal_strlit("sbc");
            assert("call"@.len() == 4);
            assert("sbc"@.len() == 3);
            assert("call"@ != "sbc"@);
            reveal_strlit("and");
            assert("call"@.len() == 4);
            assert("and"@.len() == 3);
            assert("call"@ != "and"@);
            reveal_strlit("xor");
            assert("call"@.len() == 4);
            assert("xor"@.len() == 3);
            assert("call"@ != "xor"@);
            reveal_strlit("or");
            assert("call"@.len() == 4);
            assert("or"@.len() == 2);
            assert("call"@ != "or"@);
            reveal_strlit("cp");
            assert("call"@.len() == 4);
            assert("cp"@.len() == 2);
            assert("call"@ != "cp"@);
            assert(false);
        }
    }
    assert(mn != "ret"@) by {
        reveal_strlit("ret");
        if mn == "ret"@ {
            reveal_strlit("add");
            assert("ret"@.len() == 3);
            assert("add"@.len() == 3);
            assert("ret"@[0] == 'r');
            assert("add"@[0] == 'a');
            assert("ret"@ != "add"@);
            reveal_strlit("adc");
            assert("ret"@.len() == 3);
            assert("adc"@.len() == 3);
            assert("ret"@[0] == 'r');
            assert("adc"@[0] == 'a');
            assert("ret"@ != "adc"@);
            reveal_strlit("sub");
            assert("ret"@.len() == 3);
            assert("sub"@.len() == 3);
            assert("ret"@[0] == 'r');
            assert("sub"@[0] == 's');
            assert("ret"@ != "sub"@);
            reveal_strlit("sbc");
            assert("ret"@.len() == 3);
            assert("sbc"@.len() == 3);
            assert("ret"@[0] == 'r');
            assert("sbc"@[0] == 's');
            assert("ret"@ != "sbc"@);
            reveal_strlit("and");
            assert("ret"@.len() == 3);
            assert("and"@.len() == 3);
            assert("ret"@[0] == 'r');
            assert("and"@[0] == 'a');
            assert("ret"@ != "and"@);
            reveal_strlit("xor");
            assert("ret"@.len() == 3);
            assert("xor"@.len() == 3);
            assert("ret"@[0] == 'r');
            assert("xor"@[0] == 'x');
            assert("ret"@ != "xor"@);
            reveal_strlit("or");
            assert("ret"@.len() == 3);
            assert("or"@.len() == 2);
            assert("ret"@ != "or"@);
            reveal_strlit("cp");
            assert("ret"@.len() == 3);
            assert("cp"@.len() == 2);
            assert("ret"@ != "cp"@);
            assert(false);
        }
    }
    assert(mn != "in"@) by {
        reveal_strlit("in");
        if mn == "in"@ {
            reveal_strlit("add");
            assert("in"@.len() == 2);
            assert("add"@.len() == 3);
            assert("in"@ != "add"@);
            reveal_strlit("adc");
            assert("in"@.len() == 2);
            assert("adc"@.len() == 3);
            assert("in"@ != "adc"@);
            reveal_strlit("sub");
            assert("in"@.len() == 2);
            assert("sub"@.len() == 3);
            assert("in"@ != "sub"@);
            reveal_strlit("sbc");
            assert("in"@.len() == 2);
            assert("sbc"@.len() == 3);
            assert("in"@ != "sbc"@);
            reveal_strlit("and");
            assert("in"@.len() == 2);
            assert("and"@.len() == 3);
            assert("in"@ != "and"@);
            reveal_strlit("xor");
            assert("in"@.len() == 2);
            assert("xor"@.len() == 3);
            assert("in"@ != "xor"@);
            reveal_strlit("or");
            assert("in"@.len() == 2);
            assert("or"@.len() == 2);
            assert("in"@[0] == 'i');
            assert("or"@[0] == 'o');
            assert("in"@ != "or"@);
            reveal_strlit("cp");
            assert("in"@.len() == 2);
            assert("cp"@.len() == 2);
            assert("in"@[0] == 'i');
            assert("cp"@[0] == 'c');
            assert("in"@ != "cp"@);
            assert(false);
        }
    }
    assert(mn != "out"@) by {
        reveal_strlit("out");
        if mn == "out"@ {
            reveal_strlit("add");
            assert("out"@.len() == 3);
            assert("add"@.len() == 3);
            assert("out"@[0] == 'o');
            assert("add"@[0] == 'a');
            assert("out"@ != "add"@);
            reveal_strlit("adc");
            assert("out"@.len() == 3);
            assert("adc"@.len() == 3);
            assert("out"@[0] == 'o');
            assert("adc"@[0] == 'a');
            assert("out"@ != "adc"@);
            reveal_strlit("sub");
            assert("out"@.len() == 3);
            assert("sub"@.len() == 3);
            assert("out"@[0] == 'o');
            assert("sub"@[0] == 's');
            assert("out"@ != "sub"@);
            reveal_strlit("sbc");
            assert("out"@.len() == 3);
            assert("sbc"@.len() == 3);
            assert("out"@[0] == 'o');
            assert("sbc"@[0] == 's');
            assert("out"@ != "sbc"@);
            reveal_strlit("and");
            assert("out"@.len() == 3);
            assert("and"@.len() == 3);
            assert("out"@[0] == 'o');
            assert("and"@[0] == 'a');
            assert("out"@ != "and"@);
            reveal_strlit("xor");
            assert("out"@.len() == 3);
            assert("xor"@.len() == 3);
            assert("out"@[0] == 'o');
            assert("xor"@[0] == 'x');
            assert("out"@ != "xor"@);
            reveal_strlit("or");
            assert("out"@.len() == 3);
            assert("or"@.len() == 2);
            assert("out"@ != "or"@);
            reveal_strlit("cp");
            assert("out"@.len() == 3);
            assert("cp"@.len() == 2);
            assert("out"@ != "cp"@);
            assert(false);
        }
    }
    assert(mn != "reti"@) by {
        reveal_strlit("reti");
        if mn == "reti"@ {
            reveal_strlit("add");
            assert("reti"@.len() == 4);
            assert("add"@.len() == 3);
            assert("reti"@ != "add"@);
            reveal_strlit("adc");
            assert("reti"@.len() == 4);
            assert("adc"@.len() == 3);
            assert("reti"@ != "adc"@);
            reveal_strlit("sub");
            assert("reti"@.len() == 4);
            assert("sub"@.len() == 3);
            assert("reti"@ != "sub"@);
            reveal_strlit("sbc");
            assert("reti"@.len() == 4);
            assert("sbc"@.len() == 3);
            assert("reti"@ != "sbc"@);
            reveal_strlit("and");
            assert("reti"@.len() == 4);
            assert("and"@.len() == 3);
            assert("reti"@ != "and"@);
            reveal_strlit("xor");
            assert("reti"@.len() == 4);
            assert("xor"@.len() == 3);
            assert("reti"@ != "xor"@);
            reveal_strlit("or");
            assert("reti"@.len() == 4);
            assert("or"@.len() == 2);
            assert("reti"@ != "or"@);
            reveal_strlit("cp");
            assert("reti"@.len() == 4);
            assert("cp"@.len() == 2);
            assert("reti"@ != "cp"@);
            assert(false);
        }
    }
    assert(mn != "retn"@) by {
        reveal_strlit("retn");
        if mn == "retn"@ {
            reveal_strlit("add");
            assert("retn"@.len() == 4);
            assert("add"@.len() == 3);
            assert("retn"@ != "add"@);
            reveal_strlit("adc");
            assert("retn"@.len() == 4);
            assert("adc"@.len() == 3);
            assert("retn"@ != "adc"@);
            reveal_strlit("sub");
            assert("retn"@.len() == 4);
            assert("sub"@.len() == 3);
            assert("retn"@ != "sub"@);
            reveal_strlit("sbc");
            assert("retn"@.len() == 4);
            assert("sbc"@.len() == 3);
            assert("retn"@ != "sbc"@);
            reveal_strlit("and");
            assert("retn"@.len() == 4);
            assert("and"@.len() == 3);
            assert("retn"@ != "and"@);
            reveal_strlit("xor");
            assert("retn"@.len() == 4);
            assert("xor"@.len() == 3);
            assert("retn"@ != "xor"@);
            reveal_strlit("or");
            assert("retn"@.len() == 4);
            assert("or"@.len() == 2);
            assert("retn"@ != "or"@);
            reveal_strlit("cp");
            assert("retn"@.len() == 4);
            assert("cp"@.len() == 2);
            assert("retn"@ != "cp"@);
            assert(false);
        }
    }
    assert(mn != "ld"@) by {
        reveal_strlit("ld");
        if mn == "ld"@ {
            reveal_strlit("add");
            assert("ld"@.len() == 2);
            assert("add"@.len() == 3);
            assert("ld"@ != "add"@);
            reveal_strlit("adc");
            assert("ld"@.len() == 2);
            assert("adc"@.len() == 3);
            assert("ld"@ != "adc"@);
            reveal_strlit("sub");
            assert("ld"@.len() == 2);
            assert("sub"@.len() == 3);
            assert("ld"@ != "sub"@);
            reveal_strlit("sbc");
            assert("ld"@.len() == 2);
            assert("sbc"@.len() == 3);
            assert("ld"@ != "sbc"@);
            reveal_strlit("and");
            assert("ld"@.len() == 2);
            assert("and"@.len() == 3);
            assert("ld"@ != "and"@);
            reveal_strlit("xor");
            assert("ld"@.len() == 2);
            assert("xor"@.len() == 3);
            assert("ld"@ != "xor"@);
            reveal_strlit("or");
            assert("ld"@.len() == 2);
            assert("or"@.len() == 2);
            assert("ld"@[0] == 'l');
            assert("or"@[0] == 'o');
            assert("ld"@ != "or"@);
            reveal_strlit("cp");
            assert("ld"@.len() == 2);
            assert("cp"@.len() == 2);
            assert("ld"@[0] == 'l');
            assert("cp"@[0] == 'c');
            assert("ld"@ != "cp"@);
            assert(false);
        }
    }
    assert(mn != "bcall"@) by {
        reveal_strlit("bcall");
        if mn == "bcall"@ {
            reveal_strlit("add");
            assert("bcall"@.len() == 5);
            assert("add"@.len() == 3);
            assert("bcall"@ != "add"@);
            reveal_strlit("adc");
            assert("bcall"@.len() == 5);
            assert("adc"@.len() == 3);
            assert("bcall"@ != "adc"@);
            reveal_strlit("sub");
            assert("bcall"@.len() == 5);
            assert("sub"@.len() == 3);
            assert("bcall"@ != "sub"@);
            reveal_strlit("sbc");
            assert("bcall"@.len() == 5);
            assert("sbc"@.len() == 3);
            assert("bcall"@ != "sbc"@);
            reveal_strlit("and");
            assert("bcall"@.len() == 5);
            assert("and"@.len() == 3);
            assert("bcall"@ != "and"@);
            reveal_strlit("xor");
            assert("bcall"@.len() == 5);
            assert("xor"@.len() == 3);
            assert("bcall"@ != "xor"@);
            reveal_strlit("or");
            assert("bcall"@.len() == 5);
            assert("or"@.len() == 2);
            assert("bcall"@ != "or"@);
            reveal_strlit("cp");
            assert("bcall"@.len() == 5);
            assert("cp"@.len() == 2);
            assert("bcall"@ != "cp"@);
            assert(false);
        }
    }
    assert(mn != ".org"@) by {
        reveal_strlit(".org");
        if mn == ".org"@ {
            reveal_strlit("add");
            assert(".org"@.len() == 4);
            assert("add"@.len() == 3);
            assert(".org"@ != "add"@);
            reveal_strlit("adc");
            assert(".org"@.len() == 4);
            assert("adc"@.len() == 3);
            assert(".org"@ != "adc"@);
            reveal_strlit("sub");
            assert(".org"@.len() == 4);
            assert("sub"@.len() == 3);
            assert(".org"@ != "sub"@);
            reveal_strlit("sbc");
            assert(".org"@.len() == 4);
            assert("sbc"@.len() == 3);
            assert(".org"@ != "sbc"@);
            reveal_strlit("and");
            assert(".org"@.len() == 4);
            assert("and"@.len() == 3);
            assert(".org"@ != "and"@);
            reveal_strlit("xor");
            assert(".org"@.len() == 4);
            assert("xor"@.len() == 3);
            assert(".org"@ != "xor"@);
            reveal_strlit("or");
            assert(".org"@.len() == 4);
            assert("or"@.len() == 2);
            assert(".org"@ != "or"@);
            reveal_strlit("cp");
            assert(".org"@.len() == 4);
            assert("cp"@.len() == 2);
            assert(".org"@ != "cp"@);
            assert(false);
        }
    }
    assert(mn != ".end"@) by {
        reveal_strlit(".end");
        if mn == ".end"@ {
            reveal_strlit("add");
            assert(".end"@.len() == 4);
            assert("add"@.len() == 3);
            assert(".end"@ != "add"@);
            reveal_strlit("adc");
            assert(".end"@.len() == 4);
            assert("adc"@.len() == 3);
            assert(".end"@ != "adc"@);
            reveal_strlit("sub");
            assert(".end"@.len() == 4);
            assert("sub"@.len() == 3);
            assert(".end"@ != "sub"@);
            reveal_strlit("sbc");
            assert(".end"@.len() == 4);
            assert("sbc"@.len() == 3);
            assert(".end"@ != "sbc"@);
            reveal_strlit("and");
            assert(".end"@.len() == 4);
            assert("and"@.len() == 3);
            assert(".end"@ != "and"@);
            reveal_strlit("xor");
            assert(".end"@.len() == 4);
            assert("xor"@.len() == 3);
            assert(".end"@ != "xor"@);
            reveal_strlit("or");
            assert(".end"@.len() == 4);
            assert("or"@.len() == 2);
            assert(".end"@ != "or"@);
            reveal_strlit("cp");
            assert(".end"@.len() == 4);
            assert("cp"@.len() == 2);
            assert(".end"@ != "cp"@);
            assert(false);
        }
    }
    assert(mn != ".equ"@) by {
        reveal_strlit(".equ");
        if mn == ".equ"@ {
            reveal_strlit("add");
            assert(".equ"@.len() == 4);
            assert("add"@.len() == 3);
            assert(".equ"@ != "add"@);
            reveal_strlit("adc");
            assert(".equ"@.len() == 4);
            assert("adc"@.len() == 3);
            assert(".equ"@ != "adc"@);
            reveal_strlit("sub");
            assert(".equ"@.len() == 4);
            assert("sub"@.len() == 3);
            assert(".equ"@ != "sub"@);
            reveal_strlit("sbc");
            assert(".equ"@.len() == 4);
            assert("sbc"@.len() == 3);
            assert(".equ"@ != "sbc"@);
            reveal_strlit("and");
            assert(".equ"@.len() == 4);
            assert("and"@.len() == 3);
            assert(".equ"@ != "and"@);
            reveal_strlit("xor");
            assert(".equ"@.len() == 4);
            assert("xor"@.len() == 3);
            assert(".equ"@ != "xor"@);
            reveal_strlit("or");
            assert(".equ"@.len() == 4);
            assert("or"@.len() == 2);
            assert(".equ"@ != "or"@);
            reveal_strlit("cp");
            assert(".equ"@.len() == 4);
            assert("cp"@.len() == 2);
            assert(".equ"@ != "cp"@);
            assert(false);
        }
    }
    assert(mn != ".db"@) by {
        reveal_strlit(".db");
        if mn == ".db"@ {
            reveal_strlit("add");
            assert(".db"@.len() == 3);
            assert("add"@.len() == 3);
            assert(".db"@[0] == '.');
            assert("add"@[0] == 'a');
            assert(".db"@ != "add"@);
            reveal_strlit("adc");
            assert(".db"@.len() == 3);
            assert("adc"@.len() == 3);
            assert(".db"@[0] == '.');
            assert("adc"@[0] == 'a');
            assert(".db"@ != "adc"@);
            reveal_strlit("sub");
            assert(".db"@.len() == 3);
            assert("sub"@.len() == 3);
            assert(".db"@[0] == '.');
            assert("sub"@[0] == 's');
            assert(".db"@ != "sub"@);
            reveal_strlit("sbc");
            assert(".db"@.len() == 3);
            assert("sbc"@.len() == 3);
            assert(".db"@[0] == '.');
            assert("sbc"@[0] == 's');
            assert(".db"@ != "sbc"@);
            reveal_strlit("and");
            assert(".db"@.len() == 3);
            assert("and"@.len() == 3);
            assert(".db"@[0] == '.');
            assert("and"@[0] == 'a');
            assert(".db"@ != "and"@);
            reveal_strlit("xor");
            assert(".db"@.len() == 3);
            assert("xor"@.len() == 3);
            assert(".db"@[0] == '.');
            assert("xor"@[0] == 'x');
            assert(".db"@ != "xor"@);
            reveal_strlit("or");
            assert(".db"@.len() == 3);
            assert("or"@.len() == 2);
            assert(".db"@ != "or"@);
            reveal_strlit("cp");
            assert(".db"@.len() == 3);
            assert("cp"@.len() == 2);
            assert(".db"@ != "cp"@);
            assert(false);
        }
    }
    assert(mn != ".dw"@) by {
        reveal_strlit(".dw");
        if mn == ".dw"@ {
            reveal_strlit("add");
            assert(".dw"@.len() == 3);
            assert("add"@.len() == 3);
            assert(".dw"@[0] == '.');
            assert("add"@[0] == 'a');
            assert(".dw"@ != "add"@);
            reveal_strlit("adc");
            assert(".dw"@.len() == 3);
            assert("adc"@.len() == 3);
            assert(".dw"@[0] == '.');
            assert("adc"@[0] == 'a');
            assert(".dw"@ != "adc"@);
            reveal_strlit("sub");
            assert(".dw"@.len() == 3);
            assert("sub"@.len() == 3);
            assert(".dw"@[0] == '.');
            assert("sub"@[0] == 's');
            assert(".dw"@ != "sub"@);
            reveal_strlit("sbc");
            assert(".dw"@.len() == 3);
            assert("sbc"@.len() == 3);
            assert(".dw"@[0] == '.');
            assert("sbc"@[0] == 's');
            assert(".dw"@ != "sbc"@);
            reveal_strlit("and");
            assert(".dw"@.len() == 3);
            assert("and"@.len() == 3);
            assert(".dw"@[0] == '.');
            assert("and"@[0] == 'a');
            assert(".dw"@ != "and"@);
            reveal_strlit("xor");
            assert(".dw"@.len() == 3);
            assert("xor"@.len() == 3);
            assert(".dw"@[0] == '.');
            assert("xor"@[0] == 'x');
            assert(".dw"@ != "xor"@);
            reveal_strlit("or");
            assert(".dw"@.len() == 3);
            assert("or"@.len() == 2);
            assert(".dw"@ != "or"@);
            reveal_strlit("cp");
            assert(".dw"@.len() == 3);
            assert("cp"@.len() == 2);
            assert(".dw"@ != "cp"@);
            assert(false);
        }
    }
    assert(spec_bit_base(mn) is None) by {
        if spec_bit_base(mn) is Some {
            reveal_strlit("bit");
            reveal_strlit("res");
            reveal_strlit("set");
            reveal_strlit("add");
            reveal_strlit("adc");
            reveal_strlit("sub");
            reveal_strlit("sbc");
            reveal_strlit("and");
            reveal_strlit("xor");
            reveal_strlit("or");
            reveal_strlit("cp");
            assert("bit"@.len() == 3);
            assert("add"@.len() == 3);
            assert("bit"@[0] == 'b');
            assert("add"@[0] == 'a');
            assert("bit"@ != "add"@);
            assert("bit"@.len() == 3);
            assert("adc"@.len() == 3);
            assert("bit"@[0] == 'b');
            assert("adc"@[0] == 'a');
            assert("bit"@ != "adc"@);
            assert("bit"@.len() == 3);
            assert("sub"@.len() == 3);
            assert("bit"@[0] == 'b');
            assert("sub"@[0] == 's');
            assert("bit"@ != "sub"@);
            assert("bit"@.len() == 3);
            assert("sbc"@.len() == 3);
            assert("bit"@[0] == 'b');
            assert("sbc"@[0] == 's');
            assert("bit"@ != "sbc"@);
            assert("bit"@.len() == 3);
            assert("and"@.len() == 3);
            assert("bit"@[0] == 'b');
            assert("and"@[0] == 'a');
            assert("bit"@ != "and"@);
            assert("bit"@.len() == 3);
            assert("xor"@.len() == 3);
            assert("bit"@[0] == 'b');
            assert("xor"@[0] == 'x');
            assert("bit"@ != "xor"@);
            assert("bit"@.len() == 3);
            assert("or"@.len() == 2);
            assert("bit"@ != "or"@);
            assert("bit"@.len() == 3);
            assert("cp"@.len() == 2);
            assert("bit"@ != "cp"@);
            assert("res"@.len() == 3);
            assert("add"@.len() == 3);
            assert("res"@[0] == 'r');
            assert("add"@[0] == 'a');
            assert("res"@ != "add"@);
            assert("res"@.len() == 3);
            assert("adc"@.len() == 3);
            assert("res"@[0] == 'r');
            assert("adc"@[0] == 'a');
            assert("res"@ != "adc"@);
            assert("res"@.len() == 3);
            assert("sub"@.len() == 3);
            assert("res"@[0] == 'r');
            assert("sub"@[0] == 's');
            assert("res"@ != "sub"@);
            assert("res"@.len() == 3);
            assert("sbc"@.len() == 3);
            assert("res"@[0] == 'r');
            assert("sbc"@[0] == 's');
            assert("res"@ != "sbc"@);
            assert("res"@.len() == 3);
            assert("and"@.len() == 3);
            assert("res"@[0] == 'r');
            assert("and"@[0] == 'a');
            assert("res"@ != "and"@);
            assert("res"@.len() == 3);
            assert("xor"@.len() == 3);
            assert("res"@[0] == 'r');
            assert("xor"@[0] == 'x');
            assert("res"@ != "xor"@);
            assert("res"@.len() == 3);
            assert("or"@.len() == 2);
            assert("res"@ != "or"@);
            assert("res"@.len() == 3);
            assert("cp"@.len() == 2);
            assert("res"@ != "cp"@);
            assert("set"@.len() == 3);
            assert("add"@.len() == 3);
            assert("set"@[0] == 's');
            assert("add"@[0] == 'a');
            assert("set"@ != "add"@);
            assert("set"@.len() == 3);
            assert("adc"@.len() == 3);
            assert("set"@[0] == 's');
            assert("adc"@[0] == 'a');
            assert("set"@ != "adc"@);
            assert("set"@.len() == 3);
            assert("sub"@.len() == 3);
            assert("set"@[1] == 'e');
            assert("sub"@[1] == 'u');
            assert("set"@ != "sub"@);
            assert("set"@.len() == 3);
            assert("sbc"@.len() == 3);
            assert("set"@[1] == 'e');
            assert("sbc"@[1] == 'b');
            assert("set"@ != "sbc"@);
            assert("set"@.len() == 3);
            assert("and"@.len() == 3);
            assert("set"@[0] == 's');
            assert("and"@[0] == 'a');
            assert("set"@ != "and"@);
            assert("set"@.len() == 3);
            assert("xor"@.len() == 3);
            assert("set"@[0] == 's');
            assert("xor"@[0] == 'x');
            assert("set"@ != "xor"@);
            assert("set"@.len() == 3);
            assert("or"@.len() == 2);
            assert("set"@ != "or"@);
            assert("set"@.len() == 3);
            assert("cp"@.len() == 2);
            assert("set"@ != "cp"@);
            assert(false);
        }
    }
    assert(spec_rot_base(mn) is None) by {
        if spec_rot_base(mn) is Some {
            reveal_strlit("rlc");
            reveal_strlit("rrc");
            reveal_strlit("rl");
            reveal_strlit("rr");
            reveal_strlit("sla");
            reveal_strlit("sra");
            reveal_strlit("sll");
            reveal_strlit("srl");
            reveal_strlit("add");
            reveal_strlit("adc");
            reveal_strlit("sub");
            reveal_strlit("sbc");
            reveal_strlit("and");
            reveal_strlit("xor");
            reveal_strlit("or");
            reveal_strlit("cp");
            assert("rlc"@.len() == 3);
            assert("add"@.len() == 3);
            assert("rlc"@[0] == 'r');
            assert("add"@[0] == 'a');
            assert("rlc"@ != "add"@);
            assert("rlc"@.len() == 3);
            assert("adc"@.len() == 3);
            assert("rlc"@[0] == 'r');
            assert("adc"@[0] == 'a');
            assert("rlc"@ != "adc"@);
            assert("rlc"@.len() == 3);
            assert("sub"@.len() == 3);
            assert("rlc"@[0] == 'r');
            assert("sub"@[0] == 's');
            assert("rlc"@ != "sub"@);
            assert("rlc"@.len() == 3);
            assert("sbc"@.len() == 3);
            assert("rlc"@[0] == 'r');
            assert("sbc"@[0] == 's');
            assert("rlc"@ != "sbc"@);
            assert("rlc"@.len() == 3);
            assert("and"@.len() == 3);
            assert("rlc"@[0] == 'r');
            assert("and"@[0] == 'a');
            assert("rlc"@ != "and"@);
            assert("rlc"@.len() == 3);
            assert("xor"@.len() == 3);
            assert("rlc"@[0] == 'r');
            assert("xor"@[0] == 'x');
            assert("rlc"@ != "xor"@);
            assert("rlc"@.len() == 3);
            assert("or"@.len() == 2);
            assert("rlc"@ != "or"@);
            assert("rlc"@.len() == 3);
            assert("cp"@.len() == 2);
            assert("rlc"@ != "cp"@);
            assert("rrc"@.len() == 3);
            assert("add"@.len() == 3);
            assert("rrc"@[0] == 'r');
            assert("add"@[0] == 'a');
            assert("rrc"@ != "add"@);
            assert("rrc"@.len() == 3);
            assert("adc"@.len() == 3);
            assert("rrc"@[0] == 'r');
            assert("adc"@[0] == 'a');
            assert("rrc"@ != "adc"@);
            assert("rrc"@.len() == 3);
            assert("sub"@.len() == 3);
            assert("rrc"@[0] == 'r');
            assert("sub"@[0] == 's');
            assert("rrc"@ != "sub"@);
            assert("rrc"@.len() == 3);
            assert("sbc"@.len() == 3);
            assert("rrc"@[0] == 'r');
            assert("sbc"@[0] == 's');
            assert("rrc"@ != "sbc"@);
            assert("rrc"@.len() == 3);
            assert("and"@.len() == 3);
            assert("rrc"@[0] == 'r');
            assert("and"@[0] == 'a');
            assert("rrc"@ != "and"@);
            assert("rrc"@.len() == 3);
            assert("xor"@.len() == 3);
            assert("rrc"@[0] == 'r');
            assert("xor"@[0] == 'x');
            assert("rrc"@ != "xor"@);
            assert("rrc"@.len() == 3);
            assert("or"@.len() == 2);
            assert("rrc"@ != "or"@);
            assert("rrc"@.len() == 3);
            assert("cp"@.len() == 2);
            assert("rrc"@ != "cp"@);
            assert("rl"@.len() == 2);
            assert("add"@.len() == 3);
            assert("rl"@ != "add"@);
            assert("rl"@.len() == 2);
            assert("adc"@.len() == 3);
            assert("rl"@ != "adc"@);
            assert("rl"@.len() == 2);
            assert("sub"@.len() == 3);
            assert("rl"@ != "sub"@);
            assert("rl"@.len() == 2);
            assert("sbc"@.len() == 3);
            assert("rl"@ != "sbc"@);
            assert("rl"@.len() == 2);
            assert("and"@.len() == 3);
            assert("rl"@ != "and"@);
            assert("rl"@.len() == 2);
            assert("xor"@.len() == 3);
            assert("rl"@ != "xor"@);
            assert("rl"@.len() == 2);
            assert("or"@.len() == 2);
            assert("rl"@[0] == 'r');
            assert("or"@[0] == 'o');
            assert("rl"@ != "or"@);
            assert("rl"@.len() == 2);
            assert("cp"@.len() == 2);
            assert("rl"@[0] == 'r');
            assert("cp"@[0] == 'c');
            assert("rl"@ != "cp"@);
            assert("rr"@.len() == 2);
            assert("add"@.len() == 3);
            assert("rr"@ != "add"@);
            assert("rr"@.len() == 2);
            assert("adc"@.len() == 3);
            assert("rr"@ != "adc"@);
            assert("rr"@.len() == 2);
            assert("sub"@.len() == 3);
            assert("rr"@ != "sub"@);
            assert("rr"@.len() == 2);
            assert("sbc"@.len() == 3);
            assert("rr"@ != "sbc"@);
            assert("rr"@.len() == 2);
            assert("and"@.len() == 3);
            assert("rr"@ != "and"@);
            assert("rr"@.len() == 2);
            assert("xor"@.len() == 3);
            assert("rr"@ != "xor"@);
            assert("rr"@.len() == 2);
            assert("or"@.len() == 2);
            assert("rr"@[0] == 'r');
            assert("or"@[0] == 'o');
            assert("rr"@ != "or"@);
            assert("rr"@.len() == 2);
            assert("cp"@.len() == 2);
            assert("rr"@[0] == 'r');
            assert("cp"@[0] == 'c');
            assert("rr"@ != "cp"@);
            assert("sla"@.len() == 3);
            assert("add"@.len() == 3);
            assert("sla"@[0] == 's');
            assert("add"@[0] == 'a');
            assert("sla"@ != "add"@);
            assert("sla"@.len() == 3);
            assert("adc"@.len() == 3);
            assert("sla"@[0] == 's');
            assert("adc"@[0] == 'a');
            assert("sla"@ != "adc"@);
            assert("sla"@.len() == 3);
            assert("sub"@.len() == 3);
            assert("sla"@[1] == 'l');
            assert("sub"@[1] == 'u');
            assert("sla"@ != "sub"@);
            assert("sla"@.len() == 3);
            assert("sbc"@.len() == 3);
            assert("sla"@[1] == 'l');
            assert("sbc"@[1] == 'b');
            assert("sla"@ != "sbc"@);
            assert("sla"@.len() == 3);
            assert("and"@.len() == 3);
            assert("sla"@[0] == 's');
            assert("and"@[0] == 'a');
            assert("sla"@ != "and"@);
            assert("sla"@.len() == 3);
            assert("xor"@.len() == 3);
            assert("sla"@[0] == 's');
            assert("xor"@[0] == 'x');
            assert("sla"@ != "xor"@);
            assert("sla"@.len() == 3);
            assert("or"@.len() == 2);
            assert("sla"@ != "or"@);
            assert("sla"@.len() == 3);
            assert("cp"@.len() == 2);
            assert("sla"@ != "cp"@);
            assert("sra"@.len() == 3);
            assert("add"@.len() == 3);
            assert("sra"@[0] == 's');
            assert("add"@[0] == 'a');
            assert("sra"@ != "add"@);
            assert("sra"@.len() == 3);
            assert("adc"@.len() == 3);
            assert("sra"@[0] == 's');
            assert("adc"@[0] == 'a');
            assert("sra"@ != "adc"@);
            assert("sra"@.len() == 3);
            assert("sub"@.len() == 3);
            assert("sra"@[1] == 'r');
            assert("sub"@[1] == 'u');
            assert("sra"@ != "sub"@);
            assert("sra"@.len() == 3);
            assert("sbc"@.len() == 3);
            assert("sra"@[1] == 'r');
            assert("sbc"@[1] == 'b');
            assert("sra"@ != "sbc"@);
            assert("sra"@.len() == 3);
            assert("and"@.len() == 3);
            assert("sra"@[0] == 's');
            assert("and"@[0] == 'a');
            assert("sra"@ != "and"@);
            assert("sra"@.len() == 3);
            assert("xor"@.len() == 3);
            assert("sra"@[0] == 's');
            assert("xor"@[0] == 'x');
            assert("sra"@ != "xor"@);
            assert("sra"@.len() == 3);
            assert("or"@.len() == 2);
            assert("sra"@ != "or"@);
            assert("sra"@.len() == 3);
            assert("cp"@.len() == 2);
            assert("sra"@ != "cp"@);
            assert("sll"@.len() == 3);
            assert("add"@.len() == 3);
            assert("sll"@[0] == 's');
            assert("add"@[0] == 'a');
            assert("sll"@ != "add"@);
            assert("sll"@.len() == 3);
            assert("adc"@.len() == 3);
            assert("sll"@[0] == 's');
            assert("adc"@[0] == 'a');
            assert("sll"@ != "adc"@);
            assert("sll"@.len() == 3);
            assert("sub"@.len() == 3);
            assert("sll"@[1] == 'l');
            assert("sub"@[1] == 'u');
            assert("sll"@ != "sub"@);
            assert("sll"@.len() == 3);
            assert("sbc"@.len() == 3);
            assert("sll"@[1] == 'l');
            assert("sbc"@[1] == 'b');
            assert("sll"@ != "sbc"@);
            assert("sll"@.len() == 3);
            assert("and"@.len() == 3);
            assert("sll"@[0] == 's');
            assert("and"@[0] == 'a');
            assert("sll"@ != "and"@);
            assert("sll"@.len() == 3);
            assert("xor"@.len() == 3);
            assert("sll"@[0] == 's');
            assert("xor"@[0] == 'x');
            assert("sll"@ != "xor"@);
            assert("sll"@.len() == 3);
            assert("or"@.len() == 2);
            assert("sll"@ != "or"@);
            assert("sll"@.len() == 3);
            assert("cp"@.len() == 2);
            assert("sll"@ != "cp"@);
            assert("srl"@.len() == 3);
            assert("add"@.len() == 3);
            assert("srl"@[0] == 's');
            assert("add"@[0] == 'a');
            assert("srl"@ != "add"@);
            assert("srl"@.len() == 3);
            assert("adc"@.len() == 3);
            assert("srl"@[0] == 's');
            assert("adc"@[0] == 'a');
            assert("srl"@ != "adc"@);
            assert("srl"@.len() == 3);
            assert("sub"@.len() == 3);
            assert("srl"@[1] == 'r');
            assert("sub"@[1] == 'u');
            assert("srl"@ != "sub"@);
            assert("srl"@.len() == 3);
            assert("sbc"@.len() == 3);
            assert("srl"@[1] == 'r');
            assert("sbc"@[1] == 'b');
            assert("srl"@ != "sbc"@);
            assert("srl"@.len() == 3);
            assert("and"@.len() == 3);
            assert("srl"@[0] == 's');
            assert("and"@[0] == 'a');
            assert("srl"@ != "and"@);
            assert("srl"@.len() == 3);
            assert("xor"@.len() == 3);
            assert("srl"@[0] == 's');
            assert("xor"@[0] == 'x');
            assert("srl"@ != "xor"@);
            assert("srl"@.len() == 3);
            assert("or"@.len() == 2);
            assert("srl"@ != "or"@);
            assert("srl"@.len() == 3);
            assert("cp"@.len() == 2);
            assert("srl"@ != "cp"@);
            assert(false);
        }
    }
    assert(spec_block_io_op(mn) is None) by {
        if spec_block_io_op(mn) is Some {
            reveal_strlit("ini");
            reveal_strlit("inir");
            reveal_strlit("ind");
            reveal_strlit("indr");
            reveal_strlit("outi");
            reveal_strlit("otir");
            reveal_strlit("outd");
            reveal_strlit("otdr");
            reveal_strlit("add");
            reveal_strlit("adc");
            reveal_strlit("sub");
            reveal_strlit("sbc");
            reveal_strlit("and");
            reveal_strlit("xor");
            reveal_strlit("or");
            reveal_strlit("cp");
            assert("ini"@.len() == 3);
            assert("add"@.len() == 3);
            assert("ini"@[0] == 'i');
            assert("add"@[0] == 'a');
            assert("ini"@ != "add"@);
            assert("ini"@.len() == 3);
            assert("adc"@.len() == 3);
            assert("ini"@[0] == 'i');
            assert("adc"@[0] == 'a');
            assert("ini"@ != "adc"@);
            assert("ini"@.len() == 3);
            assert("sub"@.len() == 3);
            assert("ini"@[0] == 'i');
            assert("sub"@[0] == 's');
            assert("ini"@ != "sub"@);
            assert("ini"@.len() == 3);
            assert("sbc"@.len() == 3);
            assert("ini"@[0] == 'i');
            assert("sbc"@[0] == 's');
            assert("ini"@ != "sbc"@);
            assert("ini"@.len() == 3);
            assert("and"@.len() == 3);
            assert("ini"@[0] == 'i');
            assert("and"@[0] == 'a');
            assert("ini"@ != "and"@);
            assert("ini"@.len() == 3);
            assert("xor"@.len() == 3);
            assert("ini"@[0] == 'i');
            assert("xor"@[0] == 'x');
            assert("ini"@ != "xor"@);
            assert("ini"@.len() == 3);
            assert("or"@.len() == 2);
            assert("ini"@ != "or"@);
            assert("ini"@.len() == 3);
            assert("cp"@.len() == 2);
            assert("ini"@ != "cp"@);
            assert("inir"@.len() == 4);
            assert("add"@.len() == 3);
            assert("inir"@ != "add"@);
            assert("inir"@.len() == 4);
            assert("adc"@.len() == 3);
            assert("inir"@ != "adc"@);
            assert("inir"@.len() == 4);
            assert("sub"@.len() == 3);
            assert("inir"@ != "sub"@);
            assert("inir"@.len() == 4);
            assert("sbc"@.len() == 3);
            assert("inir"@ != "sbc"@);
            assert("inir"@.len() == 4);
            assert("and"@.len() == 3);
            assert("inir"@ != "and"@);
            assert("inir"@.len() == 4);
            assert("xor"@.len() == 3);
            assert("inir"@ != "xor"@);
            assert("inir"@.len() == 4);
            assert("or"@.len() == 2);
            assert("inir"@ != "or"@);
            assert("inir"@.len() == 4);
            assert("cp"@.len() == 2);
            assert("inir"@ != "cp"@);
            assert("ind"@.len() == 3);
            assert("add"@.len() == 3);
            assert("ind"@[0] == 'i');
            assert("add"@[0] == 'a');
            assert("ind"@ != "add"@);
            assert("ind"@.len() == 3);
            assert("adc"@.len() == 3);
            assert("ind"@[0] == 'i');
            assert("adc"@[0] == 'a');
            assert("ind"@ != "adc"@);
            assert("ind"@.len() == 3);
            assert("sub"@.len() == 3);
            assert("ind"@[0] == 'i');
            assert("sub"@[0] == 's');
            assert("ind"@ != "sub"@);
            assert("ind"@.len() == 3);
            assert("sbc"@.len() == 3);
            assert("ind"@[0] == 'i');
            assert("sbc"@[0] == 's');
            assert("ind"@ != "sbc"@);
            assert("ind"@.len() == 3);
            assert("and"@.len() == 3);
            assert("ind"@[0] == 'i');
            assert("and"@[0] == 'a');
            assert("ind"@ != "and"@);
            assert("ind"@.len() == 3);
            assert("xor"@.len() == 3);
            assert("ind"@[0] == 'i');
            assert("xor"@[0] == 'x');
            assert("ind"@ != "xor"@);
            assert("ind"@.len() == 3);
            assert("or"@.len() == 2);
            assert("ind"@ != "or"@);
            assert("ind"@.len() == 3);
            assert("cp"@.len() == 2);
            assert("ind"@ != "cp"@);
            assert("indr"@.len() == 4);
            assert("add"@.len() == 3);
            assert("indr"@ != "add"@);
            assert("indr"@.len() == 4);
            assert("adc"@.len() == 3);
            assert("indr"@ != "adc"@);
            assert("indr"@.len() == 4);
            assert("sub"@.len() == 3);
            assert("indr"@ != "sub"@);
            assert("indr"@.len() == 4);
            assert("sbc"@.len() == 3);
            assert("indr"@ != "sbc"@);
            assert("indr"@.len() == 4);
            assert("and"@.len() == 3);
            assert("indr"@ != "and"@);
            assert("indr"@.len() == 4);
            assert("xor"@.len() == 3);
            assert("indr"@ != "xor"@);
            assert("indr"@.len() == 4);
            assert("or"@.len() == 2);
            assert("indr"@ != "or"@);
            assert("indr"@.len() == 4);
            assert("cp"@.len() == 2);
            assert("indr"@ != "cp"@);
            assert("outi"@.len() == 4);
            assert("add"@.len() == 3);
            assert("outi"@ != "add"@);
            assert("outi"@.len() == 4);
            assert("adc"@.len() == 3);
            assert("outi"@ != "adc"@);
            assert("outi"@.len() == 4);
            assert("sub"@.len() == 3);
            assert("outi"@ != "sub"@);
            assert("outi"@.len() == 4);
            assert("sbc"@.len() == 3);
            assert("outi"@ != "sbc"@);
            assert("outi"@.len() == 4);
            assert("and"@.len() == 3);
            assert("outi"@ != "and"@);
            assert("outi"@.len() == 4);
            assert("xor"@.len() == 3);
            assert("outi"@ != "xor"@);
            assert("outi"@.len() == 4);
            assert("or"@.len() == 2);
            assert("outi"@ != "or"@);
            assert("outi"@.len() == 4);
            assert("cp"@.len() == 2);
            assert("outi"@ != "cp"@);
            assert("otir"@.len() == 4);
            assert("add"@.len() == 3);
            assert("otir"@ != "add"@);
            assert("otir"@.len() == 4);
            assert("adc"@.len() == 3);
            assert("otir"@ != "adc"@);
            assert("otir"@.len() == 4);
            assert("sub"@.len() == 3);
            assert("otir"@ != "sub"@);
            assert("otir"@.len() == 4);
            assert("sbc"@.len() == 3);
            assert("otir"@ != "sbc"@);
            assert("otir"@.len() == 4);
            assert("and"@.len() == 3);
            assert("otir"@ != "and"@);
            assert("otir"@.len() == 4);
            assert("xor"@.len() == 3);
            assert("otir"@ != "xor"@);
            assert("otir"@.len() == 4);
            assert("or"@.len() == 2);
            assert("otir"@ != "or"@);
            assert("otir"@.len() == 4);
            assert("cp"@.len() == 2);
            assert("otir"@ != "cp"@);
            assert("outd"@.len() == 4);
            assert("add"@.len() == 3);
            assert("outd"@ != "add"@);
            assert("outd"@.len() == 4);
            assert("adc"@.len() == 3);
            assert("outd"@ != "adc"@);
            assert("outd"@.len() == 4);
            assert("sub"@.len() == 3);
            assert("outd"@ != "sub"@);
            assert("outd"@.len() == 4);
            assert("sbc"@.len() == 3);
            assert("outd"@ != "sbc"@);
            assert("outd"@.len() == 4);
            assert("and"@.len() == 3);
            assert("outd"@ != "and"@);
            assert("outd"@.len() == 4);
            assert("xor"@.len() == 3);
            assert("outd"@ != "xor"@);
            assert("outd"@.len() == 4);
            assert("or"@.len() == 2);
            assert("outd"@ != "or"@);
            assert("outd"@.len() == 4);
            assert("cp"@.len() == 2);
            assert("outd"@ != "cp"@);
            assert("otdr"@.len() == 4);
            assert("add"@.len() == 3);
            assert("otdr"@ != "add"@);
            assert("otdr"@.len() == 4);
            assert("adc"@.len() == 3);
            assert("otdr"@ != "adc"@);
            assert("otdr"@.len() == 4);
            assert("sub"@.len() == 3);
            assert("otdr"@ != "sub"@);
            assert("otdr"@.len() == 4);
            assert("sbc"@.len() == 3);
            assert("otdr"@ != "sbc"@);
            assert("otdr"@.len() == 4);
            assert("and"@.len() == 3);
            assert("otdr"@ != "and"@);
            assert("otdr"@.len() == 4);
            assert("xor"@.len() == 3);
            assert("otdr"@ != "xor"@);
            assert("otdr"@.len() == 4);
            assert("or"@.len() == 2);
            assert("otdr"@ != "or"@);
            assert("otdr"@.len() == 4);
            assert("cp"@.len() == 2);
            assert("otdr"@ != "cp"@);
            assert(false);
        }
    }
}

/// A bit-manipulation mnemonic is none of the named mnemonics nor an
/// arithmetic or block-I/O mnemonic.
#[verifier::rlimit(100)]
pub proof fn lemma_bit_mn(mn: Seq<char>)
    requires
        spec_bit_base(mn) is Some || spec_rot_base(mn) is Some,
    ensures
        mn != "jp"@ && mn != "jr"@ && mn != "djnz"@ && mn != "call"@ && mn != "ret"@ && mn
            != "in"@ && mn != "out"@ && mn != "reti"@ && mn != "retn"@ && mn != "ld"@ && mn
            != "bcall"@ && mn != ".org"@ && mn != ".end"@ && mn != ".equ"@ && mn != ".db"@ && mn
            != ".dw"@,
        spec_block_io_op(mn) is None,
        spec_arith_imm_op(mn) is None,
{
    reveal_strlit("bit");
    reveal_strlit("res");
    reveal_strlit("set");
    reveal_strlit("rlc");
    reveal_strlit("rrc");
    reveal_strlit("rl");
    reveal_strlit("rr");
    reveal_strlit("sla");
    reveal_strlit("sra");
    reveal_strlit("sll");
    reveal_strlit("srl");
    assert(mn == "bit"@ || mn == "res"@ || mn == "set"@ || mn == "rlc"@ || mn == "rrc"@ || mn == "rl"@ || mn == "rr"@ || mn == "sla"@ || mn == "sra"@ || mn == "sll"@ || mn == "srl"@);
    assert(mn != "jp"@) by {
        reveal_strlit("jp");
        if mn == "jp"@ {
            reveal_strlit("bit");
            assert("jp"@.len() == 2);
            assert("bit"@.len() == 3);
            assert("jp"@ != "bit"@);
            reveal_strlit("res");
            assert("jp"@.len() == 2);
            assert("res"@.len() == 3);
            assert("jp"@ != "res"@);
            reveal_strlit("set");
            assert("jp"@.len() == 2);
            assert("set"@.len() == 3);
            assert("jp"@ != "set"@);
            reveal_strlit("rlc");
            assert("jp"@.len() == 2);
            assert("rlc"@.len() == 3);
            assert("jp"@ != "rlc"@);
            reveal_strlit("rrc");
            assert("jp"@.len() == 2);
            assert("rrc"@.len() == 3);
            assert("jp"@ != "rrc"@);
            reveal_strlit("rl");
            assert("jp"@.len() == 2);
            assert("rl"@.len() == 2);
            assert("jp"@[0] == 'j');
            assert("rl"@[0] == 'r');
            assert("jp"@ != "rl"@);
            reveal_strlit("rr");
            assert("jp"@.len() == 2);
            assert("rr"@.len() == 2);
            assert("jp"@[0] == 'j');
            assert("rr"@[0] == 'r');
            assert("jp"@ != "rr"@);
            reveal_strlit("sla");
            assert("jp"@.len() == 2);
            assert("sla"@.len() == 3);
            assert("jp"@ != "sla"@);
            reveal_strlit("sra");
            assert("jp"@.len() == 2);
            assert("sra"@.len() == 3);
            assert("jp"@ != "sra"@);
            reveal_strlit("sll");
            assert("jp"@.len() == 2);
            assert("sll"@.len() == 3);
            assert("jp"@ != "sll"@);
            reveal_strlit("srl");
            assert("jp"@.len() == 2);
            assert("srl"@.len() == 3);
            assert("jp"@ != "srl"@);
            assert(false);
        }
    }
    assert(mn != "jr"@) by {
        reveal_strlit("jr");
        if mn == "jr"@ {
            reveal_strlit("bit");
            assert("jr"@.len() == 2);
            assert("bit"@.len() == 3);
            assert("jr"@ != "bit"@);
            reveal_strlit("res");
            assert("jr"@.len() == 2);
            assert("res"@.len() == 3);
            assert("jr"@ != "res"@);
            reveal_strlit("set");
            assert("jr"@.len() == 2);
            assert("set"@.len() == 3);
            assert("jr"@ != "set"@);
            reveal_strlit("rlc");
            assert("jr"@.len() == 2);
            assert("rlc"@.len() == 3);
            assert("jr"@ != "rlc"@);
            reveal_strlit("rrc");
            assert("jr"@.len() == 2);
            assert("rrc"@.len() == 3);
            assert("jr"@ != "rrc"@);
            reveal_strlit("rl");
            assert("jr"@.len() == 2);
            assert("rl"@.len() == 2);
            assert("jr"@[0] == 'j');
            assert("rl"@[0] == 'r');
            assert("jr"@ != "rl"@);
            reveal_strlit("rr");
            assert("jr"@.len() == 2);
            assert("rr"@.len() == 2);
            assert("jr"@[0] == 'j');
            assert("rr"@[0] == 'r');
            assert("jr"@ != "rr"@);
            reveal_strlit("sla");
            assert("jr"@.len() == 2);
            assert("sla"@.len() == 3);
            assert("jr"@ != "sla"@);
            reveal_strlit("sra");
            assert("jr"@.len() == 2);
            assert("sra"@.len() == 3);
            assert("jr"@ != "sra"@);
            reveal_strlit("sll");
            assert("jr"@.len() == 2);
            assert("sll"@.len() == 3);
            assert("jr"@ != "sll"@);
            reveal_strlit("srl");
            assert("jr"@.len() == 2);
            assert("srl"@.len() == 3);
            assert("jr"@ != "srl"@);
            assert(false);
        }
    }
    assert(mn != "djnz"@) by {
        reveal_strlit("djnz");
        if mn == "djnz"@ {
            reveal_strlit("bit");
            assert("djnz"@.len() == 4);
            assert("bit"@.len() == 3);
            assert("djnz"@ != "bit"@);
            reveal_strlit("res");
            assert("djnz"@.len() == 4);
            assert("res"@.len() == 3);
            assert("djnz"@ != "res"@);
            reveal_strlit("set");
            assert("djnz"@.len() == 4);
            assert("set"@.len() == 3);
            assert("djnz"@ != "set"@);
            reveal_strlit("rlc");
            assert("djnz"@.len() == 4);
            assert("rlc"@.len() == 3);
            assert("djnz"@ != "rlc"@);
            reveal_strlit("rrc");
            assert("djnz"@.len() == 4);
            assert("rrc"@.len() == 3);
            assert("djnz"@ != "rrc"@);
            reveal_strlit("rl");
            assert("djnz"@.len() == 4);
            assert("rl"@.len() == 2);
            assert("djnz"@ != "rl"@);
            reveal_strlit("rr");
            assert("djnz"@.len() == 4);
            assert("rr"@.len() == 2);
            assert("djnz"@ != "rr"@);
            reveal_strlit("sla");
            assert("djnz"@.len() == 4);
            assert("sla"@.len() == 3);
            assert("djnz"@ != "sla"@);
            reveal_strlit("sra");
            assert("djnz"@.len() == 4);
            assert("sra"@.len() == 3);
            assert("djnz"@ != "sra"@);
            reveal_strlit("sll");
            assert("djnz"@.len() == 4);
            assert("sll"@.len() == 3);
            assert("djnz"@ != "sll"@);
            reveal_strlit("srl");
            assert("djnz"@.len() == 4);
            assert("srl"@.len() == 3);
            assert("djnz"@ != "srl"@);
            assert(false);
        }
    }
    assert(mn != "call"@) by {
        reveal_strlit("call");
        if mn == "call"@ {
            reveal_strlit("bit");
            assert("call"@.len() == 4);
            assert("bit"@.len() == 3);
            assert("call"@ != "bit"@);
            reveal_strlit("res");
            assert("call"@.len() == 4);
            assert("res"@.len() == 3);
            assert("call"@ != "res"@);
            reveal_strlit("set");
            assert("call"@.len() == 4);
            assert("set"@.len() == 3);
            assert("call"@ != "set"@);
            reveal_strlit("rlc");
            assert("call"@.len() == 4);
            assert("rlc"@.len() == 3);
            assert("call"@ != "rlc"@);
            reveal_strlit("rrc");
            assert("call"@.len() == 4);
            assert("rrc"@.len() == 3);
            assert("call"@ != "rrc"@);
            reveal_strlit("rl");
            assert("call"@.len() == 4);
            assert("rl"@.len() == 2);
            assert("call"@ != "rl"@);
            reveal_strlit("rr");
            assert("call"@.len() == 4);
            assert("rr"@.len() == 2);
            assert("call"@ != "rr"@);
            reveal_strlit("sla");
            assert("call"@.len() == 4);
            assert("sla"@.len() == 3);
            assert("call"@ != "sla"@);
            reveal_strlit("sra");
            assert("call"@.len() == 4);
            assert("sra"@.len() == 3);
            assert("call"@ != "sra"@);
            reveal_strlit("sll");
            assert("call"@.len() == 4);
            assert("sll"@.len() == 3);
            assert("call"@ != "sll"@);
            reveal_strlit("srl");
            assert("call"@.len() == 4);
            assert("srl"@.len() == 3);
            assert("call"@ != "srl"@);
            assert(false);
        }
    }
    assert(mn != "ret"@) by {
        reveal_strlit("ret");
        if mn == "ret"@ {
            reveal_strlit("bit");
            assert("ret"@.len() == 3);
            assert("bit"@.len() == 3);
            assert("ret"@[0] == 'r');
            assert("bit"@[0] == 'b');
            assert("ret"@ != "bit"@);
            reveal_strlit("res");
            assert("ret"@.len() == 3);
            assert("res"@.len() == 3);
            assert("ret"@[2] == 't');
            assert("res"@[2] == 's');
            assert("ret"@ != "res"@);
            reveal_strlit("set");
            assert("ret"@.len() == 3);
            assert("set"@.len() == 3);
            assert("ret"@[0] == 'r');
            assert("set"@[0] == 's');
            assert("ret"@ != "set"@);
            reveal_strlit("rlc");
            assert("ret"@.len() == 3);
            assert("rlc"@.len() == 3);
            assert("ret"@[1] == 'e');
            assert("rlc"@[1] == 'l');
            assert("ret"@ != "rlc"@);
            reveal_strlit("rrc");
            assert("ret"@.len() == 3);
            assert("rrc"@.len() == 3);
            assert("ret"@[1] == 'e');
            assert("rrc"@[1] == 'r');
            assert("ret"@ != "rrc"@);
            reveal_strlit("rl");
            assert("ret"@.len() == 3);
            assert("rl"@.len() == 2);
            assert("ret"@ != "rl"@);
            reveal_strlit("rr");
            assert("ret"@.len() == 3);
            assert("rr"@.len() == 2);
            assert("ret"@ != "rr"@);
            reveal_strlit("sla");
            assert("ret"@.len() == 3);
            assert("sla"@.len() == 3);
            assert("ret"@[0] == 'r');
            assert("sla"@[0] == 's');
            assert("ret"@ != "sla"@);
            reveal_strlit("sra");
            assert("ret"@.len() == 3);
            assert("sra"@.len() == 3);
            assert("ret"@[0] == 'r');
            assert("sra"@[0] == 's');
            assert("ret"@ != "sra"@);
            reveal_strlit("sll");
            assert("ret"@.len() == 3);
            assert("sll"@.len() == 3);
            assert("ret"@[0] == 'r');
            assert("sll"@[0] == 's');
            assert("ret"@ != "sll"@);
            reveal_strlit("srl");
            assert("ret"@.len() == 3);
            assert("srl"@.len() == 3);
            assert("ret"@[0] == 'r');
            assert("srl"@[0] == 's');
            assert("ret"@ != "srl"@);
            assert(false);
        }
    }
    assert(mn != "in"@) by {
        reveal_strlit("in");
        if mn == "in"@ {
            reveal_strlit("bit");
            assert("in"@.len() == 2);
            assert("bit"@.len() == 3);
            assert("in"@ != "bit"@);
            reveal_strlit("res");
            assert("in"@.len() == 2);
            assert("res"@.len() == 3);
            assert("in"@ != "res"@);
            reveal_strlit("set");
            assert("in"@.len() == 2);
            assert("set"@.len() == 3);
            assert("in"@ != "set"@);
            reveal_strlit("rlc");
            assert("in"@.len() == 2);
            assert("rlc"@.len() == 3);
            assert("in"@ != "rlc"@);
            reveal_strlit("rrc");
            assert("in"@.len() == 2);
            assert("rrc"@.len() == 3);
            assert("in"@ != "rrc"@);
            reveal_strlit("rl");
            assert("in"@.len() == 2);
            assert("rl"@.len() == 2);
            assert("in"@[0] == 'i');
            assert("rl"@[0] == 'r');
            assert("in"@ != "rl"@);
            reveal_strlit("rr");
            assert("in"@.len() == 2);
            assert("rr"@.len() == 2);
            assert("in"@[0] == 'i');
            assert("rr"@[0] == 'r');
            assert("in"@ != "rr"@);
            reveal_strlit("sla");
            assert("in"@.len() == 2);
            assert("sla"@.len() == 3);
            assert("in"@ != "sla"@);
            reveal_strlit("sra");
            assert("in"@.len() == 2);
            assert("sra"@.len() == 3);
            assert("in"@ != "sra"@);
            reveal_strlit("sll");
            assert("in"@.len() == 2);
            assert("sll"@.len() == 3);
            assert("in"@ != "sll"@);
            reveal_strlit("srl");
            assert("in"@.len() == 2);
            assert("srl"@.len() == 3);
            assert("in"@ != "srl"@);
            assert(false);
        }
    }
    assert(mn != "out"@) by {
        reveal_strlit("out");
        if mn == "out"@ {
            reveal_strlit("bit");
            assert("out"@.len() == 3);
            assert("bit"@.len() == 3);
            assert("out"@[0] == 'o');
            assert("bit"@[0] == 'b');
            assert("out"@ != "bit"@);
            reveal_strlit("res");
            assert("out"@.len() == 3);
            assert("res"@.len() == 3);
            assert("out"@[0] == 'o');
            assert("res"@[0] == 'r');
            assert("out"@ != "res"@);
            reveal_strlit("set");
            assert("out"@.len() == 3);
            assert("set"@.len() == 3);
            assert("out"@[0] == 'o');
            assert("set"@[0] == 's');
            assert("out"@ != "set"@);
            reveal_strlit("rlc");
            assert("out"@.len() == 3);
            assert("rlc"@.len() == 3);
            assert("out"@[0] == 'o');
            assert("rlc"@[0] == 'r');
            assert("out"@ != "rlc"@);
            reveal_strlit("rrc");
            assert("out"@.len() == 3);
            assert("rrc"@.len() == 3);
            assert("out"@[0] == 'o');
            assert("rrc"@[0] == 'r');
            assert("out"@ != "rrc"@);
            reveal_strlit("rl");
            assert("out"@.len() == 3);
            assert("rl"@.len() == 2);
            assert("out"@ != "rl"@);
            reveal_strlit("rr");
            assert("out"@.len() == 3);
            assert("rr"@.len() == 2);
            assert("out"@ != "rr"@);
            reveal_strlit("sla");
            assert("out"@.len() == 3);
            assert("sla"@.len() == 3);
            assert("out"@[0] == 'o');
            assert("sla"@[0] == 's');
            assert("out"@ != "sla"@);
            reveal_strlit("sra");
            assert("out"@.len() == 3);
            assert("sra"@.len() == 3);
            assert("out"@[0] == 'o');
            assert("sra"@[0] == 's');
            assert("out"@ != "sra"@);
            reveal_strlit("sll");
            assert("out"@.len() == 3);
            assert("sll"@.len() == 3);
            assert("out"@[0] == 'o');
            assert("sll"@[0] == 's');
            assert("out"@ != "sll"@);
            reveal_strlit("srl");
            assert("out"@.len() == 3);
            assert("srl"@.len() == 3);
            assert("out"@[0] == 'o');
            assert("srl"@[0] == 's');
            assert("out"@ != "srl"@);
            assert(false);
        }
    }
    assert(mn != "reti"@) by {
        reveal_strlit("reti");
        if mn == "reti"@ {
            reveal_strlit("bit");
            assert("reti"@.len() == 4);
            assert("bit"@.len() == 3);
            assert("reti"@ != "bit"@);
            reveal_strlit("res");
            assert("reti"@.len() == 4);
            assert("res"@.len() == 3);
            assert("reti"@ != "res"@);
            reveal_strlit("set");
            assert("reti"@.len() == 4);
            assert("set"@.len() == 3);
            assert("reti"@ != "set"@);
            reveal_strlit("rlc");
            assert("reti"@.len() == 4);
            assert("rlc"@.len() == 3);
            assert("reti"@ != "rlc"@);
            reveal_strlit("rrc");
            assert("reti"@.len() == 4);
            assert("rrc"@.len() == 3);
            assert("reti"@ != "rrc"@);
            reveal_strlit("rl");
            assert("reti"@.len() == 4);
            assert("rl"@.len() == 2);
            assert("reti"@ != "rl"@);
            reveal_strlit("rr");
            assert("reti"@.len() == 4);
            assert("rr"@.len() == 2);
            assert("reti"@ != "rr"@);
            reveal_strlit("sla");
            assert("reti"@.len() == 4);
            assert("sla"@.len() == 3);
            assert("reti"@ != "sla"@);
            reveal_strlit("sra");
            assert("reti"@.len() == 4);
            assert("sra"@.len() == 3);
            assert("reti"@ != "sra"@);
            reveal_strlit("sll");
            assert("reti"@.len() == 4);
            assert("sll"@.len() == 3);
            assert("reti"@ != "sll"@);
            reveal_strlit("srl");
            assert("reti"@.len() == 4);
            assert("srl"@.len() == 3);
            assert("reti"@ != "srl"@);
            assert(false);
        }
    }
    assert(mn != "retn"@) by {
        reveal_strlit("retn");
        if mn == "retn"@ {
            reveal_strlit("bit");
            assert("retn"@.len() == 4);
            assert("bit"@.len() == 3);
            assert("retn"@ != "bit"@);
            reveal_strlit("res");
            assert("retn"@.len() == 4);
            assert("res"@.len() == 3);
            assert("retn"@ != "res"@);
            reveal_strlit("set");
            assert("retn"@.len() == 4);
            assert("set"@.len() == 3);
            assert("retn"@ != "set"@);
            reveal_strlit("rlc");
            assert("retn"@.len() == 4);
            assert("rlc"@.len() == 3);
            assert("retn"@ != "rlc"@);
            reveal_strlit("rrc");
            assert("retn"@.len() == 4);
            assert("rrc"@.len() == 3);
            assert("retn"@ != "rrc"@);
            reveal_strlit("rl");
            assert("retn"@.len() == 4);
            assert("rl"@.len() == 2);
            assert("retn"@ != "rl"@);
            reveal_strlit("rr");
            assert("retn"@.len() == 4);
            assert("rr"@.len() == 2);
            assert("retn"@ != "rr"@);
            reveal_strlit("sla");
            assert("retn"@.len() == 4);
            assert("sla"@.len() == 3);
            assert("retn"@ != "sla"@);
            reveal_strlit("sra");
            assert("retn"@.len() == 4);
            assert("sra"@.len() == 3);
            assert("retn"@ != "sra"@);
            reveal_strlit("sll");
            assert("retn"@.len() == 4);
            assert("sll"@.len() == 3);
            assert("retn"@ != "sll"@);
            reveal_strlit("srl");
            assert("retn"@.len() == 4);
            assert("srl"@.len() == 3);
            assert("retn"@ != "srl"@);
            assert(false);
        }
    }
    assert(mn != "ld"@) by {
        reveal_strlit("ld");
        if mn == "ld"@ {
            reveal_strlit("bit");
            assert("ld"@.len() == 2);
            assert("bit"@.len() == 3);
            assert("ld"@ != "bit"@);
            reveal_strlit("res");
            assert("ld"@.len() == 2);
            assert("res"@.len() == 3);
            assert("ld"@ != "res"@);
            reveal_strlit("set");
            assert("ld"@.len() == 2);
            assert("set"@.len() == 3);
            assert("ld"@ != "set"@);
            reveal_strlit("rlc");
            assert("ld"@.len() == 2);
            assert("rlc"@.len() == 3);
            assert("ld"@ != "rlc"@);
            reveal_strlit("rrc");
            assert("ld"@.len() == 2);
            assert("rrc"@.len() == 3);
            assert("ld"@ != "rrc"@);
            reveal_strlit("rl");
            assert("ld"@.len() == 2);
            assert("rl"@.len() == 2);
            assert("ld"@[0] == 'l');
            assert("rl"@[0] == 'r');
            assert("ld"@ != "rl"@);
            reveal_strlit("rr");
            assert("ld"@.len() == 2);
            assert("rr"@.len() == 2);
            assert("ld"@[0] == 'l');
            assert("rr"@[0] == 'r');
            assert("ld"@ != "rr"@);
            reveal_strlit("sla");
            assert("ld"@.len() == 2);
            assert("sla"@.len() == 3);
            assert("ld"@ != "sla"@);
            reveal_strlit("sra");
            assert("ld"@.len() == 2);
            assert("sra"@.len() == 3);
            assert("ld"@ != "sra"@);
            reveal_strlit("sll");
            assert("ld"@.len() == 2);
            assert("sll"@.len() == 3);
            assert("ld"@ != "sll"@);
            reveal_strlit("srl");
            assert("ld"@.len() == 2);
            assert("srl"@.len() == 3);
            assert("ld"@ != "srl"@);
            assert(false);
        }
    }
    assert(mn != "bcall"@) by {
        reveal_strlit("bcall");
        if mn == "bcall"@ {
            reveal_strlit("bit");
            assert("bcall"@.len() == 5);
            assert("bit"@.len() == 3);
            assert("bcall"@ != "bit"@);
            reveal_strlit("res");
            assert("bcall"@.len() == 5);
            assert("res"@.len() == 3);
            assert("bcall"@ != "res"@);
            reveal_strlit("set");
            assert("bcall"@.len() == 5);
            assert("set"@.len() == 3);
            assert("bcall"@ != "set"@);
            reveal_strlit("rlc");
            assert("bcall"@.len() == 5);
            assert("rlc"@.len() == 3);
            assert("bcall"@ != "rlc"@);
            reveal_strlit("rrc");
            assert("bcall"@.len() == 5);
            assert("rrc"@.len() == 3);
            assert("bcall"@ != "rrc"@);
            reveal_strlit("rl");
            assert("bcall"@.len() == 5);
            assert("rl"@.len() == 2);
            assert("bcall"@ != "rl"@);
            reveal_strlit("rr");
            assert("bcall"@.len() == 5);
            assert("rr"@.len() == 2);
            assert("bcall"@ != "rr"@);
            reveal_strlit("sla");
            assert("bcall"@.len() == 5);
            assert("sla"@.len() == 3);
            assert("bcall"@ != "sla"@);
            reveal_strlit("sra");
            assert("bcall"@.len() == 5);
            assert("sra"@.len() == 3);
            assert("bcall"@ != "sra"@);
            reveal_strlit("sll");
            assert("bcall"@.len() == 5);
            assert("sll"@.len() == 3);
            assert("bcall"@ != "sll"@);
            reveal_strlit("srl");
            assert("bcall"@.len() == 5);
            assert("srl"@.len() == 3);
            assert("bcall"@ != "srl"@);
            assert(false);
        }
    }
    assert(mn != ".org"@) by {
        reveal_strlit(".org");
        if mn == ".org"@ {
            reveal_strlit("bit");
            assert(".org"@.len() == 4);
            assert("bit"@.len() == 3);
            assert(".org"@ != "bit"@);
            reveal_strlit("res");
            assert(".org"@.len() == 4);
            assert("res"@.len() == 3);
            assert(".org"@ != "res"@);
            reveal_strlit("set");
            assert(".org"@.len() == 4);
            assert("set"@.len() == 3);
            assert(".org"@ != "set"@);
            reveal_strlit("rlc");
            assert(".org"@.len() == 4);
            assert("rlc"@.len() == 3);
            assert(".org"@ != "rlc"@);
            reveal_strlit("rrc");
            assert(".org"@.len() == 4);
            assert("rrc"@.len() == 3);
            assert(".org"@ != "rrc"@);
            reveal_strlit("rl");
            assert(".org"@.len() == 4);
            assert("rl"@.len() == 2);
            assert(".org"@ != "rl"@);
            reveal_strlit("rr");
            assert(".org"@.len() == 4);
            assert("rr"@.len() == 2);
            assert(".org"@ != "rr"@);
            reveal_strlit("sla");
            assert(".org"@.len() == 4);
            assert("sla"@.len() == 3);
            assert(".org"@ != "sla"@);
            reveal_strlit("sra");
            assert(".org"@.len() == 4);
            assert("sra"@.len() == 3);
            assert(".org"@ != "sra"@);
            reveal_strlit("sll");
            assert(".org"@.len() == 4);
            assert("sll"@.len() == 3);
            assert(".org"@ != "sll"@);
            reveal_strlit("srl");
            assert(".org"@.len() == 4);
            assert("srl"@.len() == 3);
            assert(".org"@ != "srl"@);
            assert(false);
        }
    }
    assert(mn != ".end"@) by {
        reveal_strlit(".end");
        if mn == ".end"@ {
            reveal_strlit("bit");
            assert(".end"@.len() == 4);
            assert("bit"@.len() == 3);
            assert(".end"@ != "bit"@);
            reveal_strlit("res");
            assert(".end"@.len() == 4);
            assert("res"@.len() == 3);
            assert(".end"@ != "res"@);
            reveal_strlit("set");
            assert(".end"@.len() == 4);
            assert("set"@.len() == 3);
            assert(".end"@ != "set"@);
            reveal_strlit("rlc");
            assert(".end"@.len() == 4);
            assert("rlc"@.len() == 3);
            assert(".end"@ != "rlc"@);
            reveal_strlit("rrc");
            assert(".end"@.len() == 4);
            assert("rrc"@.len() == 3);
            assert(".end"@ != "rrc"@);
            reveal_strlit("rl");
            assert(".end"@.len() == 4);
            assert("rl"@.len() == 2);
            assert(".end"@ != "rl"@);
            reveal_strlit("rr");
            assert(".end"@.len() == 4);
            assert("rr"@.len() == 2);
            assert(".end"@ != "rr"@);
            reveal_strlit("sla");
            assert(".end"@.len() == 4);
            assert("sla"@.len() == 3);
            assert(".end"@ != "sla"@);
            reveal_strlit("sra");
            assert(".end"@.len() == 4);
            assert("sra"@.len() == 3);
            assert(".end"@ != "sra"@);
            reveal_strlit("sll");
            assert(".end"@.len() == 4);
            assert("sll"@.len() == 3);
            assert(".end"@ != "sll"@);
            reveal_strlit("srl");
            assert(".end"@.len() == 4);
            assert("srl"@.len() == 3);
            assert(".end"@ != "srl"@);
            assert(false);
        }
    }
    assert(mn != ".equ"@) by {
        reveal_strlit(".equ");
        if mn == ".equ"@ {
            reveal_strlit("bit");
            assert(".equ"@.len() == 4);
            assert("bit"@.len() == 3);
            assert(".equ"@ != "bit"@);
            reveal_strlit("res");
            assert(".equ"@.len() == 4);
            assert("res"@.len() == 3);
            assert(".equ"@ != "res"@);
            reveal_strlit("set");
            assert(".equ"@.len() == 4);
            assert("set"@.len() == 3);
            assert(".equ"@ != "set"@);
            reveal_strlit("rlc");
            assert(".equ"@.len() == 4);
            assert("rlc"@.len() == 3);
            assert(".equ"@ != "rlc"@);
            reveal_strlit("rrc");
            assert(".equ"@.len() == 4);
            assert("rrc"@.len() == 3);
            assert(".equ"@ != "rrc"@);
            reveal_strlit("rl");
            assert(".equ"@.len() == 4);
            assert("rl"@.len() == 2);
            assert(".equ"@ != "rl"@);
            reveal_strlit("rr");
            assert(".equ"@.len() == 4);
            assert("rr"@.len() == 2);
            assert(".equ"@ != "rr"@);
            reveal_strlit("sla");
            assert(".equ"@.len() == 4);
            assert("sla"@.len() == 3);
            assert(".equ"@ != "sla"@);
            reveal_strlit("sra");
            assert(".equ"@.len() == 4);
            assert("sra"@.len() == 3);
            assert(".equ"@ != "sra"@);
            reveal_strlit("sll");
            assert(".equ"@.len() == 4);
            assert("sll"@.len() == 3);
            assert(".equ"@ != "sll"@);
            reveal_strlit("srl");
            assert(".equ"@.len() == 4);
            assert("srl"@.len() == 3);
            assert(".equ"@ != "srl"@);
            assert(false);
        }
    }
    assert(mn != ".db"@) by {
        reveal_strlit(".db");
        if mn == ".db"@ {
            reveal_strlit("bit");
            assert(".db"@.len() == 3);
            assert("bit"@.len() == 3);
            assert(".db"@[0] == '.');
            assert("bit"@[0] == 'b');
            assert(".db"@ != "bit"@);
            reveal_strlit("res");
            assert(".db"@.len() == 3);
            assert("res"@.len() == 3);
            assert(".db"@[0] == '.');
            assert("res"@[0] == 'r');
            assert(".db"@ != "res"@);
            reveal_strlit("set");
            assert(".db"@.len() == 3);
            assert("set"@.len() == 3);
            assert(".db"@[0] == '.');
            assert("set"@[0] == 's');
            assert(".db"@ != "set"@);
            reveal_strlit("rlc");
            assert(".db"@.len() == 3);
            assert("rlc"@.len() == 3);
            assert(".db"@[0] == '.');
            assert("rlc"@[0] == 'r');
            assert(".db"@ != "rlc"@);
            reveal_strlit("rrc");
            assert(".db"@.len() == 3);
            assert("rrc"@.len() == 3);
            assert(".db"@[0] == '.');
            assert("rrc"@[0] == 'r');
            assert(".db"@ != "rrc"@);
            reveal_strlit("rl");
            assert(".db"@.len() == 3);
            assert("rl"@.len() == 2);
            assert(".db"@ != "rl"@);
            reveal_strlit("rr");
            assert(".db"@.len() == 3);
            assert("rr"@.len() == 2);
            assert(".db"@ != "rr"@);
            reveal_strlit("sla");
            assert(".db"@.len() == 3);
            assert("sla"@.len() == 3);
            assert(".db"@[0] == '.');
            assert("sla"@[0] == 's');
            assert(".db"@ != "sla"@);
            reveal_strlit("sra");
            assert(".db"@.len() == 3);
            assert("sra"@.len() == 3);
            assert(".db"@[0] == '.');
            assert("sra"@[0] == 's');
            assert(".db"@ != "sra"@);
            reveal_strlit("sll");
            assert(".db"@.len() == 3);
            assert("sll"@.len() == 3);
            assert(".db"@[0] == '.');
            assert("sll"@[0] == 's');
            assert(".db"@ != "sll"@);
            reveal_strlit("srl");
            assert(".db"@.len() == 3);
            assert("srl"@.len() == 3);
            assert(".db"@[0] == '.');
            assert("srl"@[0] == 's');
            assert(".db"@ != "srl"@);
            assert(false);
        }
    }
    assert(mn != ".dw"@) by {
        reveal_strlit(".dw");
        if mn == ".dw"@ {
            reveal_strlit("bit");
            assert(".dw"@.len() == 3);
            assert("bit"@.len() == 3);
            assert(".dw"@[0] == '.');
            assert("bit"@[0] == 'b');
            assert(".dw"@ != "bit"@);
            reveal_strlit("res");
            assert(".dw"@.len() == 3);
            assert("res"@.len() == 3);
            assert(".dw"@[0] == '.');
            assert("res"@[0] == 'r');
            assert(".dw"@ != "res"@);
            reveal_strlit("set");
            assert(".dw"@.len() == 3);
            assert("set"@.len() == 3);
            assert(".dw"@[0] == '.');
            assert("set"@[0] == 's');
            assert(".dw"@ != "set"@);
            reveal_strlit("rlc");
            assert(".dw"@.len() == 3);
            assert("rlc"@.len() == 3);
            assert(".dw"@[0] == '.');
            assert("rlc"@[0] == 'r');
            assert(".dw"@ != "rlc"@);
            reveal_strlit("rrc");
            assert(".dw"@.len() == 3);
            assert("rrc"@.len() == 3);
            assert(".dw"@[0] == '.');
            assert("rrc"@[0] == 'r');
            assert(".dw"@ != "rrc"@);
            reveal_strlit("rl");
            assert(".dw"@.len() == 3);
            assert("rl"@.len() == 2);
            assert(".dw"@ != "rl"@);
            reveal_strlit("rr");
            assert(".dw"@.len() == 3);
            assert("rr"@.len() == 2);
            assert(".dw"@ != "rr"@);
            reveal_strlit("sla");
            assert(".dw"@.len() == 3);
            assert("sla"@.len() == 3);
            assert(".dw"@[0] == '.');
            assert("sla"@[0] == 's');
            assert(".dw"@ != "sla"@);
            reveal_strlit("sra");
            assert(".dw"@.len() == 3);
            assert("sra"@.len() == 3);
            assert(".dw"@[0] == '.');
            assert("sra"@[0] == 's');
            assert(".dw"@ != "sra"@);
            reveal_strlit("sll");
            assert(".dw"@.len() == 3);
            assert("sll"@.len() == 3);
            assert(".dw"@[0] == '.');
            assert("sll"@[0] == 's');
            assert(".dw"@ != "sll"@);
            reveal_strlit("srl");
            assert(".dw"@.len() == 3);
            assert("srl"@.len() == 3);
            assert(".dw"@[0] == '.');
            assert("srl"@[0] == 's');
            assert(".dw"@ != "srl"@);
            assert(false);
        }
    }
    assert(spec_block_io_op(mn) is None) by {
        if spec_block_io_op(mn) is Some {
            reveal_strlit("ini");
            reveal_strlit("inir");
            reveal_strlit("ind");
            reveal_strlit("indr");
            reveal_strlit("outi");
            reveal_strlit("otir");
            reveal_strlit("outd");
            reveal_strlit("otdr");
            reveal_strlit("bit");
            reveal_strlit("res");
            reveal_strlit("set");
            reveal_strlit("rlc");
            reveal_strlit("rrc");
            reveal_strlit("rl");
            reveal_strlit("rr");
            reveal_strlit("sla");
            reveal_strlit("sra");
            reveal_strlit("sll");
            reveal_strlit("srl");
            assert("ini"@.len() == 3);
            assert("bit"@.len() == 3);
            assert("ini"@[0] == 'i');
            assert("bit"@[0] == 'b');
            assert("ini"@ != "bit"@);
            assert("ini"@.len() == 3);
            assert("res"@.len() == 3);
            assert("ini"@[0] == 'i');
            assert("res"@[0] == 'r');
            assert("ini"@ != "res"@);
            assert("ini"@.len() == 3);
            assert("set"@.len() == 3);
            assert("ini"@[0] == 'i');
            assert("set"@[0] == 's');
            assert("ini"@ != "set"@);
            assert("ini"@.len() == 3);
            assert("rlc"@.len() == 3);
            assert("ini"@[0] == 'i');
            assert("rlc"@[0] == 'r');
            assert("ini"@ != "rlc"@);
            assert("ini"@.len() == 3);
            assert("rrc"@.len() == 3);
            assert("ini"@[0] == 'i');
            assert("rrc"@[0] == 'r');
            assert("ini"@ != "rrc"@);
            assert("ini"@.len() == 3);
            assert("rl"@.len() == 2);
            assert("ini"@ != "rl"@);
            assert("ini"@.len() == 3);
            assert("rr"@.len() == 2);
            assert("ini"@ != "rr"@);
            assert("ini"@.len() == 3);
            assert("sla"@.len() == 3);
            assert("ini"@[0] == 'i');
            assert("sla"@[0] == 's');
            assert("ini"@ != "sla"@);
            assert("ini"@.len() == 3);
            assert("sra"@.len() == 3);
            assert("ini"@[0] == 'i');
            assert("sra"@[0] == 's');
            assert("ini"@ != "sra"@);
            assert("ini"@.len() == 3);
            assert("sll"@.len() == 3);
            assert("ini"@[0] == 'i');
            assert("sll"@[0] == 's');
            assert("ini"@ != "sll"@);
            assert("ini"@.len() == 3);
            assert("srl"@.len() == 3);
            assert("ini"@[0] == 'i');
            assert("srl"@[0] == 's');
            assert("ini"@ != "srl"@);
            assert("inir"@.len() == 4);
            assert("bit"@.len() == 3);
            assert("inir"@ != "bit"@);
            assert("inir"@.len() == 4);
            assert("res"@.len() == 3);
            assert("inir"@ != "res"@);
            assert("inir"@.len() == 4);
            assert("set"@.len() == 3);
            assert("inir"@ != "set"@);
            assert("inir"@.len() == 4);
            assert("rlc"@.len() == 3);
            assert("inir"@ != "rlc"@);
            assert("inir"@.len() == 4);
            assert("rrc"@.len() == 3);
            assert("inir"@ != "rrc"@);
            assert("inir"@.len() == 4);
            assert("rl"@.len() == 2);
            assert("inir"@ != "rl"@);
            assert("inir"@.len() == 4);
            assert("rr"@.len() == 2);
            assert("inir"@ != "rr"@);
            assert("inir"@.len() == 4);
            assert("sla"@.len() == 3);
            assert("inir"@ != "sla"@);
            assert("inir"@.len() == 4);
            assert("sra"@.len() == 3);
            assert("inir"@ != "sra"@);
            assert("inir"@.len() == 4);
            assert("sll"@.len() == 3);
            assert("inir"@ != "sll"@);
            assert("inir"@.len() == 4);
            assert("srl"@.len() == 3);
            assert("inir"@ != "srl"@);
            assert("ind"@.len() == 3);
            assert("bit"@.len() == 3);
            assert("ind"@[0] == 'i');
            assert("bit"@[0] == 'b');
            assert("ind"@ != "bit"@);
            assert("ind"@.len() == 3);
            assert("res"@.len() == 3);
            assert("ind"@[0] == 'i');
            assert("res"@[0] == 'r');
            assert("ind"@ != "res"@);
            assert("ind"@.len() == 3);
            assert("set"@.len() == 3);
            assert("ind"@[0] == 'i');
            assert("set"@[0] == 's');
            assert("ind"@ != "set"@);
            assert("ind"@.len() == 3);
            assert("rlc"@.len() == 3);
            assert("ind"@[0] == 'i');
            assert("rlc"@[0] == 'r');
            assert("ind"@ != "rlc"@);
            assert("ind"@.len() == 3);
            assert("rrc"@.len() == 3);
            assert("ind"@[0] == 'i');
            assert("rrc"@[0] == 'r');
            assert("ind"@ != "rrc"@);
            assert("ind"@.len() == 3);
            assert("rl"@.len() == 2);
            assert("ind"@ != "rl"@);
            assert("ind"@.len() == 3);
            assert("rr"@.len() == 2);
            assert("ind"@ != "rr"@);
            assert("ind"@.len() == 3);
            assert("sla"@.len() == 3);
            assert("ind"@[0] == 'i');
            assert("sla"@[0] == 's');
            assert("ind"@ != "sla"@);
            assert("ind"@.len() == 3);
            assert("sra"@.len() == 3);
            assert("ind"@[0] == 'i');
            assert("sra"@[0] == 's');
            assert("ind"@ != "sra"@);
            assert("ind"@.len() == 3);
            assert("sll"@.len() == 3);
            assert("ind"@[0] == 'i');
            assert("sll"@[0] == 's');
            assert("ind"@ != "sll"@);
            assert("ind"@.len() == 3);
            assert("srl"@.len() == 3);
            assert("ind"@[0] == 'i');
            assert("srl"@[0] == 's');
            assert("ind"@ != "srl"@);
            assert("indr"@.len() == 4);
            assert("bit"@.len() == 3);
            assert("indr"@ != "bit"@);
            assert("indr"@.len() == 4);
            assert("res"@.len() == 3);
            assert("indr"@ != "res"@);
            assert("indr"@.len() == 4);
            assert("set"@.len() == 3);
            assert("indr"@ != "set"@);
            assert("indr"@.len() == 4);
            assert("rlc"@.len() == 3);
            assert("indr"@ != "rlc"@);
            assert("indr"@.len() == 4);
            assert("rrc"@.len() == 3);
            assert("indr"@ != "rrc"@);
            assert("indr"@.len() == 4);
            assert("rl"@.len() == 2);
            assert("indr"@ != "rl"@);
            assert("indr"@.len() == 4);
            assert("rr"@.len() == 2);
            assert("indr"@ != "rr"@);
            assert("indr"@.len() == 4);
            assert("sla"@.len() == 3);
            assert("indr"@ != "sla"@);
            assert("indr"@.len() == 4);
            assert("sra"@.len() == 3);
            assert("indr"@ != "sra"@);
            assert("indr"@.len() == 4);
            assert("sll"@.len() == 3);
            assert("indr"@ != "sll"@);
            assert("indr"@.len() == 4);
            assert("srl"@.len() == 3);
            assert("indr"@ != "srl"@);
            assert("outi"@.len() == 4);
            assert("bit"@.len() == 3);
            assert("outi"@ != "bit"@);
            assert("outi"@.len() == 4);
            assert("res"@.len() == 3);
            assert("outi"@ != "res"@);
            assert("outi"@.len() == 4);
            assert("set"@.len() == 3);
            assert("outi"@ != "set"@);
            assert("outi"@.len() == 4);
            assert("rlc"@.len() == 3);
            assert("outi"@ != "rlc"@);
            assert("outi"@.len() == 4);
            assert("rrc"@.len() == 3);
            assert("outi"@ != "rrc"@);
            assert("outi"@.len() == 4);
            assert("rl"@.len() == 2);
            assert("outi"@ != "rl"@);
            assert("outi"@.len() == 4);
            assert("rr"@.len() == 2);
            assert("outi"@ != "rr"@);
            assert("outi"@.len() == 4);
            assert("sla"@.len() == 3);
            assert("outi"@ != "sla"@);
            assert("outi"@.len() == 4);
            assert("sra"@.len() == 3);
            assert("outi"@ != "sra"@);
            assert("outi"@.len() == 4);
            assert("sll"@.len() == 3);
            assert("outi"@ != "sll"@);
            assert("outi"@.len() == 4);
            assert("srl"@.len() == 3);
            assert("outi"@ != "srl"@);
            assert("otir"@.len() == 4);
            assert("bit"@.len() == 3);
            assert("otir"@ != "bit"@);
            assert("otir"@.len() == 4);
            assert("res"@.len() == 3);
            assert("otir"@ != "res"@);
            assert("otir"@.len() == 4);
            assert("set"@.len() == 3);
            assert("otir"@ != "set"@);
            assert("otir"@.len() == 4);
            assert("rlc"@.len() == 3);
            assert("otir"@ != "rlc"@);
            assert("otir"@.len() == 4);
            assert("rrc"@.len() == 3);
            assert("otir"@ != "rrc"@);
            assert("otir"@.len() == 4);
            assert("rl"@.len() == 2);
            assert("otir"@ != "rl"@);
            assert("otir"@.len() == 4);
            assert("rr"@.len() == 2);
            assert("otir"@ != "rr"@);
            assert("otir"@.len() == 4);
            assert("sla"@.len() == 3);
            assert("otir"@ != "sla"@);
            assert("otir"@.len() == 4);
            assert("sra"@.len() == 3);
            assert("otir"@ != "sra"@);
            assert("otir"@.len() == 4);
            assert("sll"@.len() == 3);
            assert("otir"@ != "sll"@);
            assert("otir"@.len() == 4);
            assert("srl"@.len() == 3);
            assert("otir"@ != "srl"@);
            assert("outd"@.len() == 4);
            assert("bit"@.len() == 3);
            assert("outd"@ != "bit"@);
            assert("outd"@.len() == 4);
            assert("res"@.len() == 3);
            assert("outd"@ != "res"@);
            assert("outd"@.len() == 4);
            assert("set"@.len() == 3);
            assert("outd"@ != "set"@);
            assert("outd"@.len() == 4);
            assert("rlc"@.len() == 3);
            assert("outd"@ != "rlc"@);
            assert("outd"@.len() == 4);
            assert("rrc"@.len() == 3);
            assert("outd"@ != "rrc"@);
            assert("outd"@.len() == 4);
            assert("rl"@.len() == 2);
            assert("outd"@ != "rl"@);
            assert("outd"@.len() == 4);
            assert("rr"@.len() == 2);
            assert("outd"@ != "rr"@);
            assert("outd"@.len() == 4);
            assert("sla"@.len() == 3);
            assert("outd"@ != "sla"@);
            assert("outd"@.len() == 4);
            assert("sra"@.len() == 3);
            assert("outd"@ != "sra"@);
            assert("outd"@.len() == 4);
            assert("sll"@.len() == 3);
            assert("outd"@ != "sll"@);
            assert("outd"@.len() == 4);
            assert("srl"@.len() == 3);
            assert("outd"@ != "srl"@);
            assert("otdr"@.len() == 4);
            assert("bit"@.len() == 3);
            assert("otdr"@ != "bit"@);
            assert("otdr"@.len() == 4);
            assert("res"@.len() == 3);
            assert("otdr"@ != "res"@);
            assert("otdr"@.len() == 4);
            assert("set"@.len() == 3);
            assert("otdr"@ != "set"@);
            assert("otdr"@.len() == 4);
            assert("rlc"@.len() == 3);
            assert("otdr"@ != "rlc"@);
            assert("otdr"@.len() == 4);
            assert("rrc"@.len() == 3);
            assert("otdr"@ != "rrc"@);
            assert("otdr"@.len() == 4);
            assert("rl"@.len() == 2);
            assert("otdr"@ != "rl"@);
            assert("otdr"@.len() == 4);
            assert("rr"@.len() == 2);
            assert("otdr"@ != "rr"@);
            assert("otdr"@.len() == 4);
            assert("sla"@.len() == 3);
            assert("otdr"@ != "sla"@);
            assert("otdr"@.len() == 4);
            assert("sra"@.len() == 3);
            assert("otdr"@ != "sra"@);
            assert("otdr"@.len() == 4);
            assert("sll"@.len() == 3);
            assert("otdr"@ != "sll"@);
            assert("otdr"@.len() == 4);
            assert("srl"@.len() == 3);
            assert("otdr"@ != "srl"@);
            assert(false);
        }
    }
    assert(spec_arith_imm_op(mn) is None) by {
        if spec_arith_imm_op(mn) is Some {
            reveal_strlit("add");
            reveal_strlit("adc");
            reveal_strlit("sub");
            reveal_strlit("sbc");
            reveal_strlit("and");
            reveal_strlit("xor");
            reveal_strlit("or");
            reveal_strlit("cp");
            reveal_strlit("bit");
            reveal_strlit("res");
            reveal_strlit("set");
            reveal_strlit("rlc");
            reveal_strlit("rrc");
            reveal_strlit("rl");
            reveal_strlit("rr");
            reveal_strlit("sla");
            reveal_strlit("sra");
            reveal_strlit("sll");
            reveal_strlit("srl");
            assert("add"@.len() == 3);
            assert("bit"@.len() == 3);
            assert("add"@[0] == 'a');
            assert("bit"@[0] == 'b');
            assert("add"@ != "bit"@);
            assert("add"@.len() == 3);
            assert("res"@.len() == 3);
            assert("add"@[0] == 'a');
            assert("res"@[0] == 'r');
            assert("add"@ != "res"@);
            assert("add"@.len() == 3);
            assert("set"@.len() == 3);
            assert("add"@[0] == 'a');
            assert("set"@[0] == 's');
            assert("add"@ != "set"@);
            assert("add"@.len() == 3);
            assert("rlc"@.len() == 3);
            assert("add"@[0] == 'a');
            assert("rlc"@[0] == 'r');
            assert("add"@ != "rlc"@);
            assert("add"@.len() == 3);
            assert("rrc"@.len() == 3);
            assert("add"@[0] == 'a');
            assert("rrc"@[0] == 'r');
            assert("add"@ != "rrc"@);
            assert("add"@.len() == 3);
            assert("rl"@.len() == 2);
            assert("add"@ != "rl"@);
            assert("add"@.len() == 3);
            assert("rr"@.len() == 2);
            assert("add"@ != "rr"@);
            assert("add"@.len() == 3);
            assert("sla"@.len() == 3);
            assert("add"@[0] == 'a');
            assert("sla"@[0] == 's');
            assert("add"@ != "sla"@);
            assert("add"@.len() == 3);
            assert("sra"@.len() == 3);
            assert("add"@[0] == 'a');
            assert("sra"@[0] == 's');
            assert("add"@ != "sra"@);
            assert("add"@.len() == 3);
            assert("sll"@.len() == 3);
            assert("add"@[0] == 'a');
            assert("sll"@[0] == 's');
            assert("add"@ != "sll"@);
            assert("add"@.len() == 3);
            assert("srl"@.len() == 3);
            assert("add"@[0] == 'a');
            assert("srl"@[0] == 's');
            assert("add"@ != "srl"@);
            assert("adc"@.len() == 3);
            assert("bit"@.len() == 3);
            assert("adc"@[0] == 'a');
            assert("bit"@[0] == 'b');
            assert("adc"@ != "bit"@);
            assert("adc"@.len() == 3);
            assert("res"@.len() == 3);
            assert("adc"@[0] == 'a');
            assert("res"@[0] == 'r');
            assert("adc"@ != "res"@);
            assert("adc"@.len() == 3);
            assert("set"@.len() == 3);
            assert("adc"@[0] == 'a');
            assert("set"@[0] == 's');
            assert("adc"@ != "set"@);
            assert("adc"@.len() == 3);
            assert("rlc"@.len() == 3);
            assert("adc"@[0] == 'a');
            assert("rlc"@[0] == 'r');
            assert("adc"@ != "rlc"@);
            assert("adc"@.len() == 3);
            assert("rrc"@.len() == 3);
            assert("adc"@[0] == 'a');
            assert("rrc"@[0] == 'r');
            assert("adc"@ != "rrc"@);
            assert("adc"@.len() == 3);
            assert("rl"@.len() == 2);
            assert("adc"@ != "rl"@);
            assert("adc"@.len() == 3);
            assert("rr"@.len() == 2);
            assert("adc"@ != "rr"@);
            assert("adc"@.len() == 3);
            assert("sla"@.len() == 3);
            assert("adc"@[0] == 'a');
            assert("sla"@[0] == 's');
            assert("adc"@ != "sla"@);
            assert("adc"@.len() == 3);
            assert("sra"@.len() == 3);
            assert("adc"@[0] == 'a');
            assert("sra"@[0] == 's');
            assert("adc"@ != "sra"@);
            assert("adc"@.len() == 3);
            assert("sll"@.len() == 3);
            assert("adc"@[0] == 'a');
            assert("sll"@[0] == 's');
            assert("adc"@ != "sll"@);
            assert("adc"@.len() == 3);
            assert("srl"@.len() == 3);
            assert("adc"@[0] == 'a');
            assert("srl"@[0] == 's');
            assert("adc"@ != "srl"@);
            assert("sub"@.len() == 3);
            assert("bit"@.len() == 3);
            assert("sub"@[0] == 's');
            assert("bit"@[0] == 'b');
            assert("sub"@ != "bit"@);
            assert("sub"@.len() == 3);
            assert("res"@.len() == 3);
            assert("sub"@[0] == 's');
            assert("res"@[0] == 'r');
            assert("sub"@ != "res"@);
            assert("sub"@.len() == 3);
            assert("set"@.len() == 3);
            assert("sub"@[1] == 'u');
            assert("set"@[1] == 'e');
            assert("sub"@ != "set"@);
            assert("sub"@.len() == 3);
            assert("rlc"@.len() == 3);
            assert("sub"@[0] == 's');
            assert("rlc"@[0] == 'r');
            assert("sub"@ != "rlc"@);
            assert("sub"@.len() == 3);
            assert("rrc"@.len() == 3);
            assert("sub"@[0] == 's');
            assert("rrc"@[0] == 'r');
            assert("sub"@ != "rrc"@);
            assert("sub"@.len() == 3);
            assert("rl"@.len() == 2);
            assert("sub"@ != "rl"@);
            assert("sub"@.len() == 3);
            assert("rr"@.len() == 2);
            assert("sub"@ != "rr"@);
            assert("sub"@.len() == 3);
            assert("sla"@.len() == 3);
            assert("sub"@[1] == 'u');
            assert("sla"@[1] == 'l');
            assert("sub"@ != "sla"@);
            assert("sub"@.len() == 3);
            assert("sra"@.len() == 3);
            assert("sub"@[1] == 'u');
            assert("sra"@[1] == 'r');
            assert("sub"@ != "sra"@);
            assert("sub"@.len() == 3);
            assert("sll"@.len() == 3);
            assert("sub"@[1] == 'u');
            assert("sll"@[1] == 'l');
            assert("sub"@ != "sll"@);
            assert("sub"@.len() == 3);
            assert("srl"@.len() == 3);
            assert("sub"@[1] == 'u');
            assert("srl"@[1] == 'r');
            assert("sub"@ != "srl"@);
            assert("sbc"@.len() == 3);
            assert("bit"@.len() == 3);
            assert("sbc"@[0] == 's');
            assert("bit"@[0] == 'b');
            assert("sbc"@ != "bit"@);
            assert("sbc"@.len() == 3);
            assert("res"@.len() == 3);
            assert("sbc"@[0] == 's');
            assert("res"@[0] == 'r');
            assert("sbc"@ != "res"@);
            assert("sbc"@.len() == 3);
            assert("set"@.len() == 3);
            assert("sbc"@[1] == 'b');
            assert("set"@[1] == 'e');
            assert("sbc"@ != "set"@);
            assert("sbc"@.len() == 3);
            assert("rlc"@.len() == 3);
            assert("sbc"@[0] == 's');
            assert("rlc"@[0] == 'r');
            assert("sbc"@ != "rlc"@);
            assert("sbc"@.len() == 3);
            assert("rrc"@.len() == 3);
            assert("sbc"@[0] == 's');
            assert("rrc"@[0] == 'r');
            assert("sbc"@ != "rrc"@);
            assert("sbc"@.len() == 3);
            assert("rl"@.len() == 2);
            assert("sbc"@ != "rl"@);
            assert("sbc"@.len() == 3);
            assert("rr"@.len() == 2);
            assert("sbc"@ != "rr"@);
            assert("sbc"@.len() == 3);
            assert("sla"@.len() == 3);
            assert("sbc"@[1] == 'b');
            assert("sla"@[1] == 'l');
            assert("sbc"@ != "sla"@);
            assert("sbc"@.len() == 3);
            assert("sra"@.len() == 3);
            assert("sbc"@[1] == 'b');
            assert("sra"@[1] == 'r');
            assert("sbc"@ != "sra"@);
            assert("sbc"@.len() == 3);
            assert("sll"@.len() == 3);
            assert("sbc"@[1] == 'b');
            assert("sll"@[1] == 'l');
            assert("sbc"@ != "sll"@);
            assert("sbc"@.len() == 3);
            assert("srl"@.len() == 3);
            assert("sbc"@[1] == 'b');
            assert("srl"@[1] == 'r');
            assert("sbc"@ != "srl"@);
            assert("and"@.len() == 3);
            assert("bit"@.len() == 3);
            assert("and"@[0] == 'a');
            assert("bit"@[0] == 'b');
            assert("and"@ != "bit"@);
            assert("and"@.len() == 3);
            assert("res"@.len() == 3);
            assert("and"@[0] == 'a');
            assert("res"@[0] == 'r');
            assert("and"@ != "res"@);
            assert("and"@.len() == 3);
            assert("set"@.len() == 3);
            assert("and"@[0] == 'a');
            assert("set"@[0] == 's');
            assert("and"@ != "set"@);
            assert("and"@.len() == 3);
            assert("rlc"@.len() == 3);
            assert("and"@[0] == 'a');
            assert("rlc"@[0] == 'r');
            assert("and"@ != "rlc"@);
            assert("and"@.len() == 3);
            assert("rrc"@.len() == 3);
            assert("and"@[0] == 'a');
            assert("rrc"@[0] == 'r');
            assert("and"@ != "rrc"@);
            assert("and"@.len() == 3);
            assert("rl"@.len() == 2);
            assert("and"@ != "rl"@);
            assert("and"@.len() == 3);
            assert("rr"@.len() == 2);
            assert("and"@ != "rr"@);
            assert("and"@.len() == 3);
            assert("sla"@.len() == 3);
            assert("and"@[0] == 'a');
            assert("sla"@[0] == 's');
            assert("and"@ != "sla"@);
            assert("and"@.len() == 3);
            assert("sra"@.len() == 3);
            assert("and"@[0] == 'a');
            assert("sra"@[0] == 's');
            assert("and"@ != "sra"@);
            assert("and"@.len() == 3);
            assert("sll"@.len() == 3);
            assert("and"@[0] == 'a');
            assert("sll"@[0] == 's');
            assert("and"@ != "sll"@);
            assert("and"@.len() == 3);
            assert("srl"@.len() == 3);
            assert("and"@[0] == 'a');
            assert("srl"@[0] == 's');
            assert("and"@ != "srl"@);
            assert("xor"@.len() == 3);
            assert("bit"@.len() == 3);
            assert("xor"@[0] == 'x');
            assert("bit"@[0] == 'b');
            assert("xor"@ != "bit"@);
            assert("xor"@.len() == 3);
            assert("res"@.len() == 3);
            assert("xor"@[0] == 'x');
            assert("res"@[0] == 'r');
            assert("xor"@ != "res"@);
            assert("xor"@.len() == 3);
            assert("set"@.len() == 3);
            assert("xor"@[0] == 'x');
            assert("set"@[0] == 's');
            assert("xor"@ != "set"@);
            assert("xor"@.len() == 3);
            assert("rlc"@.len() == 3);
            assert("xor"@[0] == 'x');
            assert("rlc"@[0] == 'r');
            assert("xor"@ != "rlc"@);
            assert("xor"@.len() == 3);
            assert("rrc"@.len() == 3);
            assert("xor"@[0] == 'x');
            assert("rrc"@[0] == 'r');
            assert("xor"@ != "rrc"@);
            assert("xor"@.len() == 3);
            assert("rl"@.len() == 2);
            assert("xor"@ != "rl"@);
            assert("xor"@.len() == 3);
            assert("rr"@.len() == 2);
            assert("xor"@ != "rr"@);
            assert("xor"@.len() == 3);
            assert("sla"@.len() == 3);
            assert("xor"@[0] == 'x');
            assert("sla"@[0] == 's');
            assert("xor"@ != "sla"@);
            assert("xor"@.len() == 3);
            assert("sra"@.len() == 3);
            assert("xor"@[0] == 'x');
            assert("sra"@[0] == 's');
            assert("xor"@ != "sra"@);
            assert("xor"@.len() == 3);
            assert("sll"@.len() == 3);
            assert("xor"@[0] == 'x');
            assert("sll"@[0] == 's');
            assert("xor"@ != "sll"@);
            assert("xor"@.len() == 3);
            assert("srl"@.len() == 3);
            assert("xor"@[0] == 'x');
            assert("srl"@[0] == 's');
            assert("xor"@ != "srl"@);
            assert("or"@.len() == 2);
            assert("bit"@.len() == 3);
            assert("or"@ != "bit"@);
            assert("or"@.len() == 2);
            assert("res"@.len() == 3);
            assert("or"@ != "res"@);
            assert("or"@.len() == 2);
            assert("set"@.len() == 3);
            assert("or"@ != "set"@);
            assert("or"@.len() == 2);
            assert("rlc"@.len() == 3);
            assert("or"@ != "rlc"@);
            assert("or"@.len() == 2);
            assert("rrc"@.len() == 3);
            assert("or"@ != "rrc"@);
            assert("or"@.len() == 2);
            assert("rl"@.len() == 2);
            assert("or"@[0] == 'o');
            assert("rl"@[0] == 'r');
            assert("or"@ != "rl"@);
            assert("or"@.len() == 2);
            assert("rr"@.len() == 2);
            assert("or"@[0] == 'o');
            assert("rr"@[0] == 'r');
            assert("or"@ != "rr"@);
            assert("or"@.len() == 2);
            assert("sla"@.len() == 3);
            assert("or"@ != "sla"@);
            assert("or"@.len() == 2);
            assert("sra"@.len() == 3);
            assert("or"@ != "sra"@);
            assert("or"@.len() == 2);
            assert("sll"@.len() == 3);
            assert("or"@ != "sll"@);
            assert("or"@.len() == 2);
            assert("srl"@.len() == 3);
            assert("or"@ != "srl"@);
            assert("cp"@.len() == 2);
            assert("bit"@.len() == 3);
            assert("cp"@ != "bit"@);
            assert("cp"@.len() == 2);
            assert("res"@.len() == 3);
            assert("cp"@ != "res"@);
            assert("cp"@.len() == 2);
            assert("set"@.len() == 3);
            assert("cp"@ != "set"@);
            assert("cp"@.len() == 2);
            assert("rlc"@.len() == 3);
            assert("cp"@ != "rlc"@);
            assert("cp"@.len() == 2);
            assert("rrc"@.len() == 3);
            assert("cp"@ != "rrc"@);
            assert("cp"@.len() == 2);
            assert("rl"@.len() == 2);
            assert("cp"@[0] == 'c');
            assert("rl"@[0] == 'r');
            assert("cp"@ != "rl"@);
            assert("cp"@.len() == 2);
            assert("rr"@.len() == 2);
            assert("cp"@[0] == 'c');
            assert("rr"@[0] == 'r');
            assert("cp"@ != "rr"@);
            assert("cp"@.len() == 2);
            assert("sla"@.len() == 3);
            assert("cp"@ != "sla"@);
            assert("cp"@.len() == 2);
            assert("sra"@.len() == 3);
            assert("cp"@ != "sra"@);
            assert("cp"@.len() == 2);
            assert("sll"@.len() == 3);
            assert("cp"@ != "sll"@);
            assert("cp"@.len() == 2);
            assert("srl"@.len() == 3);
            assert("cp"@ != "srl"@);
            assert(false);
        }
    }
}

/// A block-I/O mnemonic is none of the named mnemonics and belongs to no
/// other family.
#[verifier::rlimit(100)]
pub proof fn lemma_block_mn(mn: Seq<char>)
    requires
        spec_block_io_op(mn) is Some,
    ensures
        mn != "jp"@ && mn != "jr"@ && mn != "djnz"@ && mn != "call"@ && mn != "ret"@ && mn
            != "in"@ && mn != "out"@ && mn != "reti"@ && mn != "retn"@ && mn != "ld"@ && mn
            != "bcall"@ && mn != ".org"@ && mn != ".end"@ && mn != ".equ"@ && mn != ".db"@ && mn
            != ".dw"@,
        spec_arith_imm_op(mn) is None,
        spec_bit_base(mn) is None,
        spec_rot_base(mn) is None,
{
    reveal_strlit("ini");
    reveal_strlit("inir");
    reveal_strlit("ind");
    reveal_strlit("indr");
    reveal_strlit("outi");
    reveal_strlit("otir");
    reveal_strlit("outd");
    reveal_strlit("otdr");
    assert(mn == "ini"@ || mn == "inir"@ || mn == "ind"@ || mn == "indr"@ || mn == "outi"@ || mn == "otir"@ || mn == "outd"@ || mn == "otdr"@);
    assert(mn != "jp"@) by {
        reveal_strlit("jp");
        if mn == "jp"@ {
            reveal_strlit("ini");
            assert("jp"@.len() == 2);
            assert("ini"@.len() == 3);
            assert("jp"@ != "ini"@);
            reveal_strlit("inir");
            assert("jp"@.len() == 2);
            assert("inir"@.len() == 4);
            assert("jp"@ != "inir"@);
            reveal_strlit("ind");
            assert("jp"@.len() == 2);
            assert("ind"@.len() == 3);
            assert("jp"@ != "ind"@);
            reveal_strlit("indr");
            assert("jp"@.len() == 2);
            assert("indr"@.len() == 4);
            assert("jp"@ != "indr"@);
            reveal_strlit("outi");
            assert("jp"@.len() == 2);
            assert("outi"@.len() == 4);
            assert("jp"@ != "outi"@);
            reveal_strlit("otir");
            assert("jp"@.len() == 2);
            assert("otir"@.len() == 4);
            assert("jp"@ != "otir"@);
            reveal_strlit("outd");
            assert("jp"@.len() == 2);
            assert("outd"@.len() == 4);
            assert("jp"@ != "outd"@);
            reveal_strlit("otdr");
            assert("jp"@.len() == 2);
            assert("otdr"@.len() == 4);
            assert("jp"@ != "otdr"@);
            assert(false);
        }
    }
    assert(mn != "jr"@) by {
        reveal_strlit("jr");
        if mn == "jr"@ {
            reveal_strlit("ini");
            assert("jr"@.len() == 2);
            assert("ini"@.len() == 3);
            assert("jr"@ != "ini"@);
            reveal_strlit("inir");
            assert("jr"@.len() == 2);
            assert("inir"@.len() == 4);
            assert("jr"@ != "inir"@);
            reveal_strlit("ind");
            assert("jr"@.len() == 2);
            assert("ind"@.len() == 3);
            assert("jr"@ != "ind"@);
            reveal_strlit("indr");
            assert("jr"@.len() == 2);
            assert("indr"@.len() == 4);
            assert("jr"@ != "indr"@);
            reveal_strlit("outi");
            assert("jr"@.len() == 2);
            assert("outi"@.len() == 4);
            assert("jr"@ != "outi"@);
            reveal_strlit("otir");
            assert("jr"@.len() == 2);
            assert("otir"@.len() == 4);
            assert("jr"@ != "otir"@);
            reveal_strlit("outd");
            assert("jr"@.len() == 2);
            assert("outd"@.len() == 4);
            assert("jr"@ != "outd"@);
            reveal_strlit("otdr");
            assert("jr"@.len() == 2);
            assert("otdr"@.len() == 4);
            assert("jr"@ != "otdr"@);
            assert(false);
        }
    }
    assert(mn != "djnz"@) by {
        reveal_strlit("djnz");
        if mn == "djnz"@ {
            reveal_strlit("ini");
            assert("djnz"@.len() == 4);
            assert("ini"@.len() == 3);
            assert("djnz"@ != "ini"@);
            reveal_strlit("inir");
            assert("djnz"@.len() == 4);
            assert("inir"@.len() == 4);
            assert("djnz"@[0] == 'd');
            assert("inir"@[0] == 'i');
            assert("djnz"@ != "inir"@);
            reveal_strlit("ind");
            assert("djnz"@.len() == 4);
            assert("ind"@.len() == 3);
            assert("djnz"@ != "ind"@);
            reveal_strlit("indr");
            assert("djnz"@.len() == 4);
            assert("indr"@.len() == 4);
            assert("djnz"@[0] == 'd');
            assert("indr"@[0] == 'i');
            assert("djnz"@ != "indr"@);
            reveal_strlit("outi");
            assert("djnz"@.len() == 4);
            assert("outi"@.len() == 4);
            assert("djnz"@[0] == 'd');
            assert("outi"@[0] == 'o');
            assert("djnz"@ != "outi"@);
            reveal_strlit("otir");
            assert("djnz"@.len() == 4);
            assert("otir"@.len() == 4);
            assert("djnz"@[0] == 'd');
            assert("otir"@[0] == 'o');
            assert("djnz"@ != "otir"@);
            reveal_strlit("outd");
            assert("djnz"@.len() == 4);
            assert("outd"@.len() == 4);
            assert("djnz"@[0] == 'd');
            assert("outd"@[0] == 'o');
            assert("djnz"@ != "outd"@);
            reveal_strlit("otdr");
            assert("djnz"@.len() == 4);
            assert("otdr"@.len() == 4);
            assert("djnz"@[0] == 'd');
            assert("otdr"@[0] == 'o');
            assert("djnz"@ != "otdr"@);
            assert(false);
        }
    }
    assert(mn != "call"@) by {
        reveal_strlit("call");
        if mn == "call"@ {
            reveal_strlit("ini");
            assert("call"@.len() == 4);
            assert("ini"@.len() == 3);
            assert("call"@ != "ini"@);
            reveal_strlit("inir");
            assert("call"@.len() == 4);
            assert("inir"@.len() == 4);
            assert("call"@[0] == 'c');
            assert("inir"@[0] == 'i');
            assert("call"@ != "inir"@);
            reveal_strlit("ind");
            assert("call"@.len() == 4);
            assert("ind"@.len() == 3);
            assert("call"@ != "ind"@);
            reveal_strlit("indr");
            assert("call"@.len() == 4);
            assert("indr"@.len() == 4);
            assert("call"@[0] == 'c');
            assert("indr"@[0] == 'i');
            assert("call"@ != "indr"@);
            reveal_strlit("outi");
            assert("call"@.len() == 4);
            assert("outi"@.len() == 4);
            assert("call"@[0] == 'c');
            assert("outi"@[0] == 'o');
            assert("call"@ != "outi"@);
            reveal_strlit("otir");
            assert("call"@.len() == 4);
            assert("otir"@.len() == 4);
            assert("call"@[0] == 'c');
            assert("otir"@[0] == 'o');
            assert("call"@ != "otir"@);
            reveal_strlit("outd");
            assert("call"@.len() == 4);
            assert("outd"@.len() == 4);
            assert("call"@[0] == 'c');
            assert("outd"@[0] == 'o');
            assert("call"@ != "outd"@);
            reveal_strlit("otdr");
            assert("call"@.len() == 4);
            assert("otdr"@.len() == 4);
            assert("call"@[0] == 'c');
            assert("otdr"@[0] == 'o');
            assert("call"@ != "otdr"@);
            assert(false);
        }
    }
    assert(mn != "ret"@) by {
        reveal_strlit("ret");
        if mn == "ret"@ {
            reveal_strlit("ini");
            assert("ret"@.len() == 3);
            assert("ini"@.len() == 3);
            assert("ret"@[0] == 'r');
            assert("ini"@[0] == 'i');
            assert("ret"@ != "ini"@);
            reveal_strlit("inir");
            assert("ret"@.len() == 3);
            assert("inir"@.len() == 4);
            assert("ret"@ != "inir"@);
            reveal_strlit("ind");
            assert("ret"@.len() == 3);
            assert("ind"@.len() == 3);
            assert("ret"@[0] == 'r');
            assert("ind"@[0] == 'i');
            assert("ret"@ != "ind"@);
            reveal_strlit("indr");
            assert("ret"@.len() == 3);
            assert("indr"@.len() == 4);
            assert("ret"@ != "indr"@);
            reveal_strlit("outi");
            assert("ret"@.len() == 3);
            assert("outi"@.len() == 4);
            assert("ret"@ != "outi"@);
            reveal_strlit("otir");
            assert("ret"@.len() == 3);
            assert("otir"@.len() == 4);
            assert("ret"@ != "otir"@);
            reveal_strlit("outd");
            assert("ret"@.len() == 3);
            assert("outd"@.len() == 4);
            assert("ret"@ != "outd"@);
            reveal_strlit("otdr");
            assert("ret"@.len() == 3);
            assert("otdr"@.len() == 4);
            assert("ret"@ != "otdr"@);
            assert(false);
        }
    }
    assert(mn != "in"@) by {
        reveal_strlit("in");
        if mn == "in"@ {
            reveal_strlit("ini");
            assert("in"@.len() == 2);
            assert("ini"@.len() == 3);
            assert("in"@ != "ini"@);
            reveal_strlit("inir");
            assert("in"@.len() == 2);
            assert("inir"@.len() == 4);
            assert("in"@ != "inir"@);
            reveal_strlit("ind");
            assert("in"@.len() == 2);
            assert("ind"@.len() == 3);
            assert("in"@ != "ind"@);
            reveal_strlit("indr");
            assert("in"@.len() == 2);
            assert("indr"@.len() == 4);
            assert("in"@ != "indr"@);
            reveal_strlit("outi");
            assert("in"@.len() == 2);
            assert("outi"@.len() == 4);
            assert("in"@ != "outi"@);
            reveal_strlit("otir");
            assert("in"@.len() == 2);
            assert("otir"@.len() == 4);
            assert("in"@ != "otir"@);
            reveal_strlit("outd");
            assert("in"@.len() == 2);
            assert("outd"@.len() == 4);
            assert("in"@ != "outd"@);
            reveal_strlit("otdr");
            assert("in"@.len() == 2);
            assert("otdr"@.len() == 4);
            assert("in"@ != "otdr"@);
            assert(false);
        }
    }
    assert(mn != "out"@) by {
        reveal_strlit("out");
        if mn == "out"@ {
            reveal_strlit("ini");
            assert("out"@.len() == 3);
            assert("ini"@.len() == 3);
            assert("out"@[0] == 'o');
            assert("ini"@[0] == 'i');
            assert("out"@ != "ini"@);
            reveal_strlit("inir");
            assert("out"@.len() == 3);
            assert("inir"@.len() == 4);
            assert("out"@ != "inir"@);
            reveal_strlit("ind");
            assert("out"@.len() == 3);
            assert("ind"@.len() == 3);
            assert("out"@[0] == 'o');
            assert("ind"@[0] == 'i');
            assert("out"@ != "ind"@);
            reveal_strlit("indr");
            assert("out"@.len() == 3);
            assert("indr"@.len() == 4);
            assert("out"@ != "indr"@);
            reveal_strlit("outi");
            assert("out"@.len() == 3);
            assert("outi"@.len() == 4);
            assert("out"@ != "outi"@);
            reveal_strlit("otir");
            assert("out"@.len() == 3);
            assert("otir"@.len() == 4);
            assert("out"@ != "otir"@);
            reveal_strlit("outd");
            assert("out"@.len() == 3);
            assert("outd"@.len() == 4);
            assert("out"@ != "outd"@);
            reveal_strlit("otdr");
            assert("out"@.len() == 3);
            assert("otdr"@.len() == 4);
            assert("out"@ != "otdr"@);
            assert(false);
        }
    }
    assert(mn != "reti"@) by {
        reveal_strlit("reti");
        if mn == "reti"@ {
            reveal_strlit("ini");
            assert("reti"@.len() == 4);
            assert("ini"@.len() == 3);
            assert("reti"@ != "ini"@);
            reveal_strlit("inir");
            assert("reti"@.len() == 4);
            assert("inir"@.len() == 4);
            assert("reti"@[0] == 'r');
            assert("inir"@[0] == 'i');
            assert("reti"@ != "inir"@);
            reveal_strlit("ind");
            assert("reti"@.len() == 4);
            assert("ind"@.len() == 3);
            assert("reti"@ != "ind"@);
            reveal_strlit("indr");
            assert("reti"@.len() == 4);
            assert("indr"@.len() == 4);
            assert("reti"@[0] == 'r');
            assert("indr"@[0] == 'i');
            assert("reti"@ != "indr"@);
            reveal_strlit("outi");
            assert("reti"@.len() == 4);
            assert("outi"@.len() == 4);
            assert("reti"@[0] == 'r');
            assert("outi"@[0] == 'o');
            assert("reti"@ != "outi"@);
            reveal_strlit("otir");
            assert("reti"@.len() == 4);
            assert("otir"@.len() == 4);
            assert("reti"@[0] == 'r');
            assert("otir"@[0] == 'o');
            assert("reti"@ != "otir"@);
            reveal_strlit("outd");
            assert("reti"@.len() == 4);
            assert("outd"@.len() == 4);
            assert("reti"@[0] == 'r');
            assert("outd"@[0] == 'o');
            assert("reti"@ != "outd"@);
            reveal_strlit("otdr");
            assert("reti"@.len() == 4);
            assert("otdr"@.len() == 4);
            assert("reti"@[0] == 'r');
            assert("otdr"@[0] == 'o');
            assert("reti"@ != "otdr"@);
            assert(false);
        }
    }
    assert(mn != "retn"@) by {
        reveal_strlit("retn");
        if mn == "retn"@ {
            reveal_strlit("ini");
            assert("retn"@.len() == 4);
            assert("ini"@.len() == 3);
            assert("retn"@ != "ini"@);
            reveal_strlit("inir");
            assert("retn"@.len() == 4);
            assert("inir"@.len() == 4);
            assert("retn"@[0] == 'r');
            assert("inir"@[0] == 'i');
            assert("retn"@ != "inir"@);
            reveal_strlit("ind");
            assert("retn"@.len() == 4);
            assert("ind"@.len() == 3);
            assert("retn"@ != "ind"@);
            reveal_strlit("indr");
            assert("retn"@.len() == 4);
            assert("indr"@.len() == 4);
            assert("retn"@[0] == 'r');
            assert("indr"@[0] == 'i');
            assert("retn"@ != "indr"@);
            reveal_strlit("outi");
            assert("retn"@.len() == 4);
            assert("outi"@.len() == 4);
            assert("retn"@[0] == 'r');
            assert("outi"@[0] == 'o');
            assert("retn"@ != "outi"@);
            reveal_strlit("otir");
            assert("retn"@.len() == 4);
            assert("otir"@.len() == 4);
            assert("retn"@[0] == 'r');
            assert("otir"@[0] == 'o');
            assert("retn"@ != "otir"@);
            reveal_strlit("outd");
            assert("retn"@.len() == 4);
            assert("outd"@.len() == 4);
            assert("retn"@[0] == 'r');
            assert("outd"@[0] == 'o');
            assert("retn"@ != "outd"@);
            reveal_strlit("otdr");
            assert("retn"@.len() == 4);
            assert("otdr"@.len() == 4);
            assert("retn"@[0] == 'r');
            assert("otdr"@[0] == 'o');
            assert("retn"@ != "otdr"@);
            assert(false);
        }
    }
    assert(mn != "ld"@) by {
        reveal_strlit("ld");
        if mn == "ld"@ {
            reveal_strlit("ini");
            assert("ld"@.len() == 2);
            assert("ini"@.len() == 3);
            assert("ld"@ != "ini"@);
            reveal_strlit("inir");
            assert("ld"@.len() == 2);
            assert("inir"@.len() == 4);
            assert("ld"@ != "inir"@);
            reveal_strlit("ind");
            assert("ld"@.len() == 2);
            assert("ind"@.len() == 3);
            assert("ld"@ != "ind"@);
            reveal_strlit("indr");
            assert("ld"@.len() == 2);
            assert("indr"@.len() == 4);
            assert("ld"@ != "indr"@);
            reveal_strlit("outi");
            assert("ld"@.len() == 2);
            assert("outi"@.len() == 4);
            assert("ld"@ != "outi"@);
            reveal_strlit("otir");
            assert("ld"@.len() == 2);
            assert("otir"@.len() == 4);
            assert("ld"@ != "otir"@);
            reveal_strlit("outd");
            assert("ld"@.len() == 2);
            assert("outd"@.len() == 4);
            assert("ld"@ != "outd"@);
            reveal_strlit("otdr");
            assert("ld"@.len() == 2);
            assert("otdr"@.len() == 4);
            assert("ld"@ != "otdr"@);
            assert(false);
        }
    }
    assert(mn != "bcall"@) by {
        reveal_strlit("bcall");
        if mn == "bcall"@ {
            reveal_strlit("ini");
            assert("bcall"@.len() == 5);
            assert("ini"@.len() == 3);
            assert("bcall"@ != "ini"@);
            reveal_strlit("inir");
            assert("bcall"@.len() == 5);
            assert("inir"@.len() == 4);
            assert("bcall"@ != "inir"@);
            reveal_strlit("ind");
            assert("bcall"@.len() == 5);
            assert("ind"@.len() == 3);
            assert("bcall"@ != "ind"@);
            reveal_strlit("indr");
            assert("bcall"@.len() == 5);
            assert("indr"@.len() == 4);
            assert("bcall"@ != "indr"@);
            reveal_strlit("outi");
            assert("bcall"@.len() == 5);
            assert("outi"@.len() == 4);
            assert("bcall"@ != "outi"@);
            reveal_strlit("otir");
            assert("bcall"@.len() == 5);
            assert("otir"@.len() == 4);
            assert("bcall"@ != "otir"@);
            reveal_strlit("outd");
            assert("bcall"@.len() == 5);
            assert("outd"@.len() == 4);
            assert("bcall"@ != "outd"@);
            reveal_strlit("otdr");
            assert("bcall"@.len() == 5);
            assert("otdr"@.len() == 4);
            assert("bcall"@ != "otdr"@);
            assert(false);
        }
    }
    assert(mn != ".org"@) by {
        reveal_strlit(".org");
        if mn == ".org"@ {
            reveal_strlit("ini");
            assert(".org"@.len() == 4);
            assert("ini"@.len() == 3);
            assert(".org"@ != "ini"@);
            reveal_strlit("inir");
            assert(".org"@.len() == 4);
            assert("inir"@.len() == 4);
            assert(".org"@[0] == '.');
            assert("inir"@[0] == 'i');
            assert(".org"@ != "inir"@);
            reveal_strlit("ind");
            assert(".org"@.len() == 4);
            assert("ind"@.len() == 3);
            assert(".org"@ != "ind"@);
            reveal_strlit("indr");
            assert(".org"@.len() == 4);
            assert("indr"@.len() == 4);
            assert(".org"@[0] == '.');
            assert("indr"@[0] == 'i');
            assert(".org"@ != "indr"@);
            reveal_strlit("outi");
            assert(".org"@.len() == 4);
            assert("outi"@.len() == 4);
            assert(".org"@[0] == '.');
            assert("outi"@[0] == 'o');
            assert(".org"@ != "outi"@);
            reveal_strlit("otir");
            assert(".org"@.len() == 4);
            assert("otir"@.len() == 4);
            assert(".org"@[0] == '.');
            assert("otir"@[0] == 'o');
            assert(".org"@ != "otir"@);
            reveal_strlit("outd");
            assert(".org"@.len() == 4);
            assert("outd"@.len() == 4);
            assert(".org"@[0] == '.');
            assert("outd"@[0] == 'o');
            assert(".org"@ != "outd"@);
            reveal_strlit("otdr");
            assert(".org"@.len() == 4);
            assert("otdr"@.len() == 4);
            assert(".org"@[0] == '.');
            assert("otdr"@[0] == 'o');
            assert(".org"@ != "otdr"@);
            assert(false);
        }
    }
    assert(mn != ".end"@) by {
        reveal_strlit(".end");
        if mn == ".end"@ {
            reveal_strlit("ini");
            assert(".end"@.len() == 4);
            assert("ini"@.len() == 3);
            assert(".end"@ != "ini"@);
            reveal_strlit("inir");
            assert(".end"@.len() == 4);
            assert("inir"@.len() == 4);
            assert(".end"@[0] == '.');
            assert("inir"@[0] == 'i');
            assert(".end"@ != "inir"@);
            reveal_strlit("ind");
            assert(".end"@.len() == 4);
            assert("ind"@.len() == 3);
            assert(".end"@ != "ind"@);
            reveal_strlit("indr");
            assert(".end"@.len() == 4);
            assert("indr"@.len() == 4);
            assert(".end"@[0] == '.');
            assert("indr"@[0] == 'i');
            assert(".end"@ != "indr"@);
            reveal_strlit("outi");
            assert(".end"@.len() == 4);
            assert("outi"@.len() == 4);
            assert(".end"@[0] == '.');
            assert("outi"@[0] == 'o');
            assert(".end"@ != "outi"@);
            reveal_strlit("otir");
            assert(".end"@.len() == 4);
            assert("otir"@.len() == 4);
            assert(".end"@[0] == '.');
            assert("otir"@[0] == 'o');
            assert(".end"@ != "otir"@);
            reveal_strlit("outd");
            assert(".end"@.len() == 4);
            assert("outd"@.len() == 4);
            assert(".end"@[0] == '.');
            assert("outd"@[0] == 'o');
            assert(".end"@ != "outd"@);
            reveal_strlit("otdr");
            assert(".end"@.len() == 4);
            assert("otdr"@.len() == 4);
            assert(".end"@[0] == '.');
            assert("otdr"@[0] == 'o');
            assert(".end"@ != "otdr"@);
            assert(false);
        }
    }
    assert(mn != ".equ"@) by {
        reveal_strlit(".equ");
        if mn == ".equ"@ {
            reveal_strlit("ini");
            assert(".equ"@.len() == 4);
            assert("ini"@.len() == 3);
            assert(".equ"@ != "ini"@);
            reveal_strlit("inir");
            assert(".equ"@.len() == 4);
            assert("inir"@.len() == 4);
            assert(".equ"@[0] == '.');
            assert("inir"@[0] == 'i');
            assert(".equ"@ != "inir"@);
            reveal_strlit("ind");
            assert(".equ"@.len() == 4);
            assert("ind"@.len() == 3);
            assert(".equ"@ != "ind"@);
            reveal_strlit("indr");
            assert(".equ"@.len() == 4);
            assert("indr"@.len() == 4);
            assert(".equ"@[0] == '.');
            assert("indr"@[0] == 'i');
            assert(".equ"@ != "indr"@);
            reveal_strlit("outi");
            assert(".equ"@.len() == 4);
            assert("outi"@.len() == 4);
            assert(".equ"@[0] == '.');
            assert("outi"@[0] == 'o');
            assert(".equ"@ != "outi"@);
            reveal_strlit("otir");
            assert(".equ"@.len() == 4);
            assert("otir"@.len() == 4);
            assert(".equ"@[0] == '.');
            assert("otir"@[0] == 'o');
            assert(".equ"@ != "otir"@);
            reveal_strlit("outd");
            assert(".equ"@.len() == 4);
            assert("outd"@.len() == 4);
            assert(".equ"@[0] == '.');
            assert("outd"@[0] == 'o');
            assert(".equ"@ != "outd"@);
            reveal_strlit("otdr");
            assert(".equ"@.len() == 4);
            assert("otdr"@.len() == 4);
            assert(".equ"@[0] == '.');
            assert("otdr"@[0] == 'o');
            assert(".equ"@ != "otdr"@);
            assert(false);
        }
    }
    assert(mn != ".db"@) by {
        reveal_strlit(".db");
        if mn == ".db"@ {
            reveal_strlit("ini");
            assert(".db"@.len() == 3);
            assert("ini"@.len() == 3);
            assert(".db"@[0] == '.');
            assert("ini"@[0] == 'i');
            assert(".db"@ != "ini"@);
            reveal_strlit("inir");
            assert(".db"@.len() == 3);
            assert("inir"@.len() == 4);
            assert(".db"@ != "inir"@);
            reveal_strlit("ind");
            assert(".db"@.len() == 3);
            assert("ind"@.len() == 3);
            assert(".db"@[0] == '.');
            assert("ind"@[0] == 'i');
            assert(".db"@ != "ind"@);
            reveal_strlit("indr");
            assert(".db"@.len() == 3);
            assert("indr"@.len() == 4);
            assert(".db"@ != "indr"@);
            reveal_strlit("outi");
            assert(".db"@.len() == 3);
            assert("outi"@.len() == 4);
            assert(".db"@ != "outi"@);
            reveal_strlit("otir");
            assert(".db"@.len() == 3);
            assert("otir"@.len() == 4);
            assert(".db"@ != "otir"@);
            reveal_strlit("outd");
            assert(".db"@.len() == 3);
            assert("outd"@.len() == 4);
            assert(".db"@ != "outd"@);
            reveal_strlit("otdr");
            assert(".db"@.len() == 3);
            assert("otdr"@.len() == 4);
            assert(".db"@ != "otdr"@);
            assert(false);
        }
    }
    assert(mn != ".dw"@) by {
        reveal_strlit(".dw");
        if mn == ".dw"@ {
            reveal_strlit("ini");
            assert(".dw"@.len() == 3);
            assert("ini"@.len() == 3);
            assert(".dw"@[0] == '.');
            assert("ini"@[0] == 'i');
            assert(".dw"@ != "ini"@);
            reveal_strlit("inir");
            assert(".dw"@.len() == 3);
            assert("inir"@.len() == 4);
            assert(".dw"@ != "inir"@);
            reveal_strlit("ind");
            assert(".dw"@.len() == 3);
            assert("ind"@.len() == 3);
            assert(".dw"@[0] == '.');
            assert("ind"@[0] == 'i');
            assert(".dw"@ != "ind"@);
            reveal_strlit("indr");
            assert(".dw"@.len() == 3);
            assert("indr"@.len() == 4);
            assert(".dw"@ != "indr"@);
            reveal_strlit("outi");
            assert(".dw"@.len() == 3);
            assert("outi"@.len() == 4);
            assert(".dw"@ != "outi"@);
            reveal_strlit("otir");
            assert(".dw"@.len() == 3);
            assert("otir"@.len() == 4);
            assert(".dw"@ != "otir"@);
            reveal_strlit("outd");
            assert(".dw"@.len() == 3);
            assert("outd"@.len() == 4);
            assert(".dw"@ != "outd"@);
            reveal_strlit("otdr");
            assert(".dw"@.len() == 3);
            assert("otdr"@.len() == 4);
            assert(".dw"@ != "otdr"@);
            assert(false);
        }
    }
    assert(spec_arith_imm_op(mn) is None) by {
        if spec_arith_imm_op(mn) is Some {
            reveal_strlit("add");
            reveal_strlit("adc");
            reveal_strlit("sub");
            reveal_strlit("sbc");
            reveal_strlit("and");
            reveal_strlit("xor");
            reveal_strlit("or");
            reveal_strlit("cp");
            reveal_strlit("ini");
            reveal_strlit("inir");
            reveal_strlit("ind");
            reveal_strlit("indr");
            reveal_strlit("outi");
            reveal_strlit("otir");
            reveal_strlit("outd");
            reveal_strlit("otdr");
            assert("add"@.len() == 3);
            assert("ini"@.len() == 3);
            assert("add"@[0] == 'a');
            assert("ini"@[0] == 'i');
            assert("add"@ != "ini"@);
            assert("add"@.len() == 3);
            assert("inir"@.len() == 4);
            assert("add"@ != "inir"@);
            assert("add"@.len() == 3);
            assert("ind"@.len() == 3);
            assert("add"@[0] == 'a');
            assert("ind"@[0] == 'i');
            assert("add"@ != "ind"@);
            assert("add"@.len() == 3);
            assert("indr"@.len() == 4);
            assert("add"@ != "indr"@);
            assert("add"@.len() == 3);
            assert("outi"@.len() == 4);
            assert("add"@ != "outi"@);
            assert("add"@.len() == 3);
            assert("otir"@.len() == 4);
            assert("add"@ != "otir"@);
            assert("add"@.len() == 3);
            assert("outd"@.len() == 4);
            assert("add"@ != "outd"@);
            assert("add"@.len() == 3);
            assert("otdr"@.len() == 4);
            assert("add"@ != "otdr"@);
            assert("adc"@.len() == 3);
            assert("ini"@.len() == 3);
            assert("adc"@[0] == 'a');
            assert("ini"@[0] == 'i');
            assert("adc"@ != "ini"@);
            assert("adc"@.len() == 3);
            assert("inir"@.len() == 4);
            assert("adc"@ != "inir"@);
            assert("adc"@.len() == 3);
            assert("ind"@.len() == 3);
            assert("adc"@[0] == 'a');
            assert("ind"@[0] == 'i');
            assert("adc"@ != "ind"@);
            assert("adc"@.len() == 3);
            assert("indr"@.len() == 4);
            assert("adc"@ != "indr"@);
            assert("adc"@.len() == 3);
            assert("outi"@.len() == 4);
            assert("adc"@ != "outi"@);
            assert("adc"@.len() == 3);
            assert("otir"@.len() == 4);
            assert("adc"@ != "otir"@);
            assert("adc"@.len() == 3);
            assert("outd"@.len() == 4);
            assert("adc"@ != "outd"@);
            assert("adc"@.len() == 3);
            assert("otdr"@.len() == 4);
            assert("adc"@ != "otdr"@);
            assert("sub"@.len() == 3);
            assert("ini"@.len() == 3);
            assert("sub"@[0] == 's');
            assert("ini"@[0] == 'i');
            assert("sub"@ != "ini"@);
            assert("sub"@.len() == 3);
            assert("inir"@.len() == 4);
            assert("sub"@ != "inir"@);
            assert("sub"@.len() == 3);
            assert("ind"@.len() == 3);
            assert("sub"@[0] == 's');
            assert("ind"@[0] == 'i');
            assert("sub"@ != "ind"@);
            assert("sub"@.len() == 3);
            assert("indr"@.len() == 4);
            assert("sub"@ != "indr"@);
            assert("sub"@.len() == 3);
            assert("outi"@.len() == 4);
            assert("sub"@ != "outi"@);
            assert("sub"@.len() == 3);
            assert("otir"@.len() == 4);
            assert("sub"@ != "otir"@);
            assert("sub"@.len() == 3);
            assert("outd"@.len() == 4);
            assert("sub"@ != "outd"@);
            assert("sub"@.len() == 3);
            assert("otdr"@.len() == 4);
            assert("sub"@ != "otdr"@);
            assert("sbc"@.len() == 3);
            assert("ini"@.len() == 3);
            assert("sbc"@[0] == 's');
            assert("ini"@[0] == 'i');
            assert("sbc"@ != "ini"@);
            assert("sbc"@.len() == 3);
            assert("inir"@.len() == 4);
            assert("sbc"@ != "inir"@);
            assert("sbc"@.len() == 3);
            assert("ind"@.len() == 3);
            assert("sbc"@[0] == 's');
            assert("ind"@[0] == 'i');
            assert("sbc"@ != "ind"@);
            assert("sbc"@.len() == 3);
            assert("indr"@.len() == 4);
            assert("sbc"@ != "indr"@);
            assert("sbc"@.len() == 3);
            assert("outi"@.len() == 4);
            assert("sbc"@ != "outi"@);
            assert("sbc"@.len() == 3);
            assert("otir"@.len() == 4);
            assert("sbc"@ != "otir"@);
            assert("sbc"@.len() == 3);
            assert("outd"@.len() == 4);
            assert("sbc"@ != "outd"@);
            assert("sbc"@.len() == 3);
            assert("otdr"@.len() == 4);
            assert("sbc"@ != "otdr"@);
            assert("and"@.len() == 3);
            assert("ini"@.len() == 3);
            assert("and"@[0] == 'a');
            assert("ini"@[0] == 'i');
            assert("and"@ != "ini"@);
            assert("and"@.len() == 3);
            assert("inir"@.len() == 4);
            assert("and"@ != "inir"@);
            assert("and"@.len() == 3);
            assert("ind"@.len() == 3);
            assert("and"@[0] == 'a');
            assert("ind"@[0] == 'i');
            assert("and"@ != "ind"@);
            assert("and"@.len() == 3);
            assert("indr"@.len() == 4);
            assert("and"@ != "indr"@);
            assert("and"@.len() == 3);
            assert("outi"@.len() == 4);
            assert("and"@ != "outi"@);
            assert("and"@.len() == 3);
            assert("otir"@.len() == 4);
            assert("and"@ != "otir"@);
            assert("and"@.len() == 3);
            assert("outd"@.len() == 4);
            assert("and"@ != "outd"@);
            assert("and"@.len() == 3);
            assert("otdr"@.len() == 4);
            assert("and"@ != "otdr"@);
            assert("xor"@.len() == 3);
            assert("ini"@.len() == 3);
            assert("xor"@[0] == 'x');
            assert("ini"@[0] == 'i');
            assert("xor"@ != "ini"@);
            assert("xor"@.len() == 3);
            assert("inir"@.len() == 4);
            assert("xor"@ != "inir"@);
            assert("xor"@.len() == 3);
            assert("ind"@.len() == 3);
            assert("xor"@[0] == 'x');
            assert("ind"@[0] == 'i');
            assert("xor"@ != "ind"@);
            assert("xor"@.len() == 3);
            assert("indr"@.len() == 4);
            assert("xor"@ != "indr"@);
            assert("xor"@.len() == 3);
            assert("outi"@.len() == 4);
            assert("xor"@ != "outi"@);
            assert("xor"@.len() == 3);
            assert("otir"@.len() == 4);
            assert("xor"@ != "otir"@);
            assert("xor"@.len() == 3);
            assert("outd"@.len() == 4);
            assert("xor"@ != "outd"@);
            assert("xor"@.len() == 3);
            assert("otdr"@.len() == 4);
            assert("xor"@ != "otdr"@);
            assert("or"@.len() == 2);
            assert("ini"@.len() == 3);
            assert("or"@ != "ini"@);
            assert("or"@.len() == 2);
            assert("inir"@.len() == 4);
            assert("or"@ != "inir"@);
            assert("or"@.len() == 2);
            assert("ind"@.len() == 3);
            assert("or"@ != "ind"@);
            assert("or"@.len() == 2);
            assert("indr"@.len() == 4);
            assert("or"@ != "indr"@);
            assert("or"@.len() == 2);
            assert("outi"@.len() == 4);
            assert("or"@ != "outi"@);
            assert("or"@.len() == 2);
            assert("otir"@.len() == 4);
            assert("or"@ != "otir"@);
            assert("or"@.len() == 2);
            assert("outd"@.len() == 4);
            assert("or"@ != "outd"@);
            assert("or"@.len() == 2);
            assert("otdr"@.len() == 4);
            assert("or"@ != "otdr"@);
            assert("cp"@.len() == 2);
            assert("ini"@.len() == 3);
            assert("cp"@ != "ini"@);
            assert("cp"@.len() == 2);
            assert("inir"@.len() == 4);
            assert("cp"@ != "inir"@);
            assert("cp"@.len() == 2);
            assert("ind"@.len() == 3);
            assert("cp"@ != "ind"@);
            assert("cp"@.len() == 2);
            assert("indr"@.len() == 4);
            assert("cp"@ != "indr"@);
            assert("cp"@.len() == 2);
            assert("outi"@.len() == 4);
            assert("cp"@ != "outi"@);
            assert("cp"@.len() == 2);
            assert("otir"@.len() == 4);
            assert("cp"@ != "otir"@);
            assert("cp"@.len() == 2);
            assert("outd"@.len() == 4);
            assert("cp"@ != "outd"@);
            assert("cp"@.len() == 2);
            assert("otdr"@.len() == 4);
            assert("cp"@ != "otdr"@);
            assert(false);
        }
    }
    assert(spec_bit_base(mn) is None) by {
        if spec_bit_base(mn) is Some {
            reveal_strlit("bit");
            reveal_strlit("res");
            reveal_strlit("set");
            reveal_strlit("ini");
            reveal_strlit("inir");
            reveal_strlit("ind");
            reveal_strlit("indr");
            reveal_strlit("outi");
            reveal_strlit("otir");
            reveal_strlit("outd");
            reveal_strlit("otdr");
            assert("bit"@.len() == 3);
            assert("ini"@.len() == 3);
            assert("bit"@[0] == 'b');
            assert("ini"@[0] == 'i');
            assert("bit"@ != "ini"@);
            assert("bit"@.len() == 3);
            assert("inir"@.len() == 4);
            assert("bit"@ != "inir"@);
            assert("bit"@.len() == 3);
            assert("ind"@.len() == 3);
            assert("bit"@[0] == 'b');
            assert("ind"@[0] == 'i');
            assert("bit"@ != "ind"@);
            assert("bit"@.len() == 3);
            assert("indr"@.len() == 4);
            assert("bit"@ != "indr"@);
            assert("bit"@.len() == 3);
            assert("outi"@.len() == 4);
            assert("bit"@ != "outi"@);
            assert("bit"@.len() == 3);
            assert("otir"@.len() == 4);
            assert("bit"@ != "otir"@);
            assert("bit"@.len() == 3);
            assert("outd"@.len() == 4);
            assert("bit"@ != "outd"@);
            assert("bit"@.len() == 3);
            assert("otdr"@.len() == 4);
            assert("bit"@ != "otdr"@);
            assert("res"@.len() == 3);
            assert("ini"@.len() == 3);
            assert("res"@[0] == 'r');
            assert("ini"@[0] == 'i');
            assert("res"@ != "ini"@);
            assert("res"@.len() == 3);
            assert("inir"@.len() == 4);
            assert("res"@ != "inir"@);
            assert("res"@.len() == 3);
            assert("ind"@.len() == 3);
            assert("res"@[0] == 'r');
            assert("ind"@[0] == 'i');
            assert("res"@ != "ind"@);
            assert("res"@.len() == 3);
            assert("indr"@.len() == 4);
            assert("res"@ != "indr"@);
            assert("res"@.len() == 3);
            assert("outi"@.len() == 4);
            assert("res"@ != "outi"@);
            assert("res"@.len() == 3);
            assert("otir"@.len() == 4);
            assert("res"@ != "otir"@);
            assert("res"@.len() == 3);
            assert("outd"@.len() == 4);
            assert("res"@ != "outd"@);
            assert("res"@.len() == 3);
            assert("otdr"@.len() == 4);
            assert("res"@ != "otdr"@);
            assert("set"@.len() == 3);
            assert("ini"@.len() == 3);
            assert("set"@[0] == 's');
            assert("ini"@[0] == 'i');
            assert("set"@ != "ini"@);
            assert("set"@.len() == 3);
            assert("inir"@.len() == 4);
            assert("set"@ != "inir"@);
            assert("set"@.len() == 3);
            assert("ind"@.len() == 3);
            assert("set"@[0] == 's');
            assert("ind"@[0] == 'i');
            assert("set"@ != "ind"@);
            assert("set"@.len() == 3);
            assert("indr"@.len() == 4);
            assert("set"@ != "indr"@);
            assert("set"@.len() == 3);
            assert("outi"@.len() == 4);
            assert("set"@ != "outi"@);
            assert("set"@.len() == 3);
            assert("otir"@.len() == 4);
            assert("set"@ != "otir"@);
            assert("set"@.len() == 3);
            assert("outd"@.len() == 4);
            assert("set"@ != "outd"@);
            assert("set"@.len() == 3);
            assert("otdr"@.len() == 4);
            assert("set"@ != "otdr"@);
            assert(false);
        }
    }
    assert(spec_rot_base(mn) is None) by {
        if spec_rot_base(mn) is Some {
            reveal_strlit("rlc");
            reveal_strlit("rrc");
            reveal_strlit("rl");
            reveal_strlit("rr");
            reveal_strlit("sla");
            reveal_strlit("sra");
            reveal_strlit("sll");
            reveal_strlit("srl");
            reveal_strlit("ini");
            reveal_strlit("inir");
            reveal_strlit("ind");
            reveal_strlit("indr");
            reveal_strlit("outi");
            reveal_strlit("otir");
            reveal_strlit("outd");
            reveal_strlit("otdr");
            assert("rlc"@.len() == 3);
            assert("ini"@.len() == 3);
            assert("rlc"@[0] == 'r');
            assert("ini"@[0] == 'i');
            assert("rlc"@ != "ini"@);
            assert("rlc"@.len() == 3);
            assert("inir"@.len() == 4);
            assert("rlc"@ != "inir"@);
            assert("rlc"@.len() == 3);
            assert("ind"@.len() == 3);
            assert("rlc"@[0] == 'r');
            assert("ind"@[0] == 'i');
            assert("rlc"@ != "ind"@);
            assert("rlc"@.len() == 3);
            assert("indr"@.len() == 4);
            assert("rlc"@ != "indr"@);
            assert("rlc"@.len() == 3);
            assert("outi"@.len() == 4);
            assert("rlc"@ != "outi"@);
            assert("rlc"@.len() == 3);
            assert("otir"@.len() == 4);
            assert("rlc"@ != "otir"@);
            assert("rlc"@.len() == 3);
            assert("outd"@.len() == 4);
            assert("rlc"@ != "outd"@);
            assert("rlc"@.len() == 3);
            assert("otdr"@.len() == 4);
            assert("rlc"@ != "otdr"@);
            assert("rrc"@.len() == 3);
            assert("ini"@.len() == 3);
            assert("rrc"@[0] == 'r');
            assert("ini"@[0] == 'i');
            assert("rrc"@ != "ini"@);
            assert("rrc"@.len() == 3);
            assert("inir"@.len() == 4);
            assert("rrc"@ != "inir"@);
            assert("rrc"@.len() == 3);
            assert("ind"@.len() == 3);
            assert("rrc"@[0] == 'r');
            assert("ind"@[0] == 'i');
            assert("rrc"@ != "ind"@);
            assert("rrc"@.len() == 3);
            assert("indr"@.len() == 4);
            assert("rrc"@ != "indr"@);
            assert("rrc"@.len() == 3);
            assert("outi"@.len() == 4);
            assert("rrc"@ != "outi"@);
            assert("rrc"@.len() == 3);
            assert("otir"@.len() == 4);
            assert("rrc"@ != "otir"@);
            assert("rrc"@.len() == 3);
            assert("outd"@.len() == 4);
            assert("rrc"@ != "outd"@);
            assert("rrc"@.len() == 3);
            assert("otdr"@.len() == 4);
            assert("rrc"@ != "otdr"@);
            assert("rl"@.len() == 2);
            assert("ini"@.len() == 3);
            assert("rl"@ != "ini"@);
            assert("rl"@.len() == 2);
            assert("inir"@.len() == 4);
            assert("rl"@ != "inir"@);
            assert("rl"@.len() == 2);
            assert("ind"@.len() == 3);
            assert("rl"@ != "ind"@);
            assert("rl"@.len() == 2);
            assert("indr"@.len() == 4);
            assert("rl"@ != "indr"@);
            assert("rl"@.len() == 2);
            assert("outi"@.len() == 4);
            assert("rl"@ != "outi"@);
            assert("rl"@.len() == 2);
            assert("otir"@.len() == 4);
            assert("rl"@ != "otir"@);
            assert("rl"@.len() == 2);
            assert("outd"@.len() == 4);
            assert("rl"@ != "outd"@);
            assert("rl"@.len() == 2);
            assert("otdr"@.len() == 4);
            assert("rl"@ != "otdr"@);
            assert("rr"@.len() == 2);
            assert("ini"@.len() == 3);
            assert("rr"@ != "ini"@);
            assert("rr"@.len() == 2);
            assert("inir"@.len() == 4);
            assert("rr"@ != "inir"@);
            assert("rr"@.len() == 2);
            assert("ind"@.len() == 3);
            assert("rr"@ != "ind"@);
            assert("rr"@.len() == 2);
            assert("indr"@.len() == 4);
            assert("rr"@ != "indr"@);
            assert("rr"@.len() == 2);
            assert("outi"@.len() == 4);
            assert("rr"@ != "outi"@);
            assert("rr"@.len() == 2);
            assert("otir"@.len() == 4);
            assert("rr"@ != "otir"@);
            assert("rr"@.len() == 2);
            assert("outd"@.len() == 4);
            assert("rr"@ != "outd"@);
            assert("rr"@.len() == 2);
            assert("otdr"@.len() == 4);
            assert("rr"@ != "otdr"@);
            assert("sla"@.len() == 3);
            assert("ini"@.len() == 3);
            assert("sla"@[0] == 's');
            assert("ini"@[0] == 'i');
            assert("sla"@ != "ini"@);
            assert("sla"@.len() == 3);
            assert("inir"@.len() == 4);
            assert("sla"@ != "inir"@);
            assert("sla"@.len() == 3);
            assert("ind"@.len() == 3);
            assert("sla"@[0] == 's');
            assert("ind"@[0] == 'i');
            assert("sla"@ != "ind"@);
            assert("sla"@.len() == 3);
            assert("indr"@.len() == 4);
            assert("sla"@ != "indr"@);
            assert("sla"@.len() == 3);
            assert("outi"@.len() == 4);
            assert("sla"@ != "outi"@);
            assert("sla"@.len() == 3);
            assert("otir"@.len() == 4);
            assert("sla"@ != "otir"@);
            assert("sla"@.len() == 3);
            assert("outd"@.len() == 4);
            assert("sla"@ != "outd"@);
            assert("sla"@.len() == 3);
            assert("otdr"@.len() == 4);
            assert("sla"@ != "otdr"@);
            assert("sra"@.len() == 3);
            assert("ini"@.len() == 3);
            assert("sra"@[0] == 's');
            assert("ini"@[0] == 'i');
            assert("sra"@ != "ini"@);
            assert("sra"@.len() == 3);
            assert("inir"@.len() == 4);
            assert("sra"@ != "inir"@);
            assert("sra"@.len() == 3);
            assert("ind"@.len() == 3);
            assert("sra"@[0] == 's');
            assert("ind"@[0] == 'i');
            assert("sra"@ != "ind"@);
            assert("sra"@.len() == 3);
            assert("indr"@.len() == 4);
            assert("sra"@ != "indr"@);
            assert("sra"@.len() == 3);
            assert("outi"@.len() == 4);
            assert("sra"@ != "outi"@);
            assert("sra"@.len() == 3);
            assert("otir"@.len() == 4);
            assert("sra"@ != "otir"@);
            assert("sra"@.len() == 3);
            assert("outd"@.len() == 4);
            assert("sra"@ != "outd"@);
            assert("sra"@.len() == 3);
            assert("otdr"@.len() == 4);
            assert("sra"@ != "otdr"@);
            assert("sll"@.len() == 3);
            assert("ini"@.len() == 3);
            assert("sll"@[0] == 's');
            assert("ini"@[0] == 'i');
            assert("sll"@ != "ini"@);
            assert("sll"@.len() == 3);
            assert("inir"@.len() == 4);
            assert("sll"@ != "inir"@);
            assert("sll"@.len() == 3);
            assert("ind"@.len() == 3);
            assert("sll"@[0] == 's');
            assert("ind"@[0] == 'i');
            assert("sll"@ != "ind"@);
            assert("sll"@.len() == 3);
            assert("indr"@.len() == 4);
            assert("sll"@ != "indr"@);
            assert("sll"@.len() == 3);
            assert("outi"@.len() == 4);
            assert("sll"@ != "outi"@);
            assert("sll"@.len() == 3);
            assert("otir"@.len() == 4);
            assert("sll"@ != "otir"@);
            assert("sll"@.len() == 3);
            assert("outd"@.len() == 4);
            assert("sll"@ != "outd"@);
            assert("sll"@.len() == 3);
            assert("otdr"@.len() == 4);
            assert("sll"@ != "otdr"@);
            assert("srl"@.len() == 3);
            assert("ini"@.len() == 3);
            assert("srl"@[0] == 's');
            assert("ini"@[0] == 'i');
            assert("srl"@ != "ini"@);
            assert("srl"@.len() == 3);
            assert("inir"@.len() == 4);
            assert("srl"@ != "inir"@);
            assert("srl"@.len() == 3);
            assert("ind"@.len() == 3);
            assert("srl"@[0] == 's');
            assert("ind"@[0] == 'i');
            assert("srl"@ != "ind"@);
            assert("srl"@.len() == 3);
            assert("indr"@.len() == 4);
            assert("srl"@ != "indr"@);
            assert("srl"@.len() == 3);
            assert("outi"@.len() == 4);
            assert("srl"@ != "outi"@);
            assert("srl"@.len() == 3);
            assert("otir"@.len() == 4);
            assert("srl"@ != "otir"@);
            assert("srl"@.len() == 3);
            assert("outd"@.len() == 4);
            assert("srl"@ != "outd"@);
            assert("srl"@.len() == 3);
            assert("otdr"@.len() == 4);
            assert("srl"@ != "otdr"@);
            assert(false);
        }
    }
}


/// The named I/O and return-from-interrupt mnemonics are distinct from
/// the jump and call mnemonics and belong to no other family.
#[verifier::rlimit(100)]
pub proof fn lemma_named_mn(mn: Seq<char>)
    requires
        mn == "in"@ || mn == "out"@ || mn == "reti"@ || mn == "retn"@,
    ensures
        mn != "jp"@ && mn != "jr"@ && mn != "djnz"@ && mn != "call"@ && mn != "ret"@,
        spec_arith_imm_op(mn) is None,
        spec_bit_base(mn) is None,
        spec_rot_base(mn) is None,
{
    reveal_strlit("in");
    reveal_strlit("out");
    reveal_strlit("reti");
    reveal_strlit("retn");
    reveal_strlit("jp");
    reveal_strlit("jr");
    reveal_strlit("djnz");
    reveal_strlit("call");
    reveal_strlit("ret");
    reveal_strlit("add");
    reveal_strlit("adc");
    reveal_strlit("sub");
    reveal_strlit("sbc");
    reveal_strlit("and");
    reveal_strlit("xor");
    reveal_strlit("or");
    reveal_strlit("cp");
    reveal_strlit("bit");
    reveal_strlit("res");
    reveal_strlit("set");
    reveal_strlit("rlc");
    reveal_strlit("rrc");
    reveal_strlit("rl");
    reveal_strlit("rr");
    reveal_strlit("sla");
    reveal_strlit("sra");
    reveal_strlit("sll");
    reveal_strlit("srl");
    assert("in"@.len() == 2);
    assert("jp"@.len() == 2);
    assert("in"@[0] == 'i');
    assert("jp"@[0] == 'j');
    assert("in"@ != "jp"@);
    assert("in"@.len() == 2);
    assert("jr"@.len() == 2);
    assert("in"@[0] == 'i');
    assert("jr"@[0] == 'j');
    assert("in"@ != "jr"@);
    assert("in"@.len() == 2);
    assert("djnz"@.len() == 4);
    assert("in"@ != "djnz"@);
    assert("in"@.len() == 2);
    assert("call"@.len() == 4);
    assert("in"@ != "call"@);
    assert("in"@.len() == 2);
    assert("ret"@.len() == 3);
    assert("in"@ != "ret"@);
    assert("in"@.len() == 2);
    assert("add"@.len() == 3);
    assert("in"@ != "add"@);
    assert("in"@.len() == 2);
    assert("adc"@.len() == 3);
    assert("in"@ != "adc"@);
    assert("in"@.len() == 2);
    assert("sub"@.len() == 3);
    assert("in"@ != "sub"@);
    assert("in"@.len() == 2);
    assert("sbc"@.len() == 3);
    assert("in"@ != "sbc"@);
    assert("in"@.len() == 2);
    assert("and"@.len() == 3);
    assert("in"@ != "and"@);
    assert("in"@.len() == 2);
    assert("xor"@.len() == 3);
    assert("in"@ != "xor"@);
    assert("in"@.len() == 2);
    assert("or"@.len() == 2);
    assert("in"@[0] == 'i');
    assert("or"@[0] == 'o');
    assert("in"@ != "or"@);
    assert("in"@.len() == 2);
    assert("cp"@.len() == 2);
    assert("in"@[0] == 'i');
    assert("cp"@[0] == 'c');
    assert("in"@ != "cp"@);
    assert("in"@.len() == 2);
    assert("bit"@.len() == 3);
    assert("in"@ != "bit"@);
    assert("in"@.len() == 2);
    assert("res"@.len() == 3);
    assert("in"@ != "res"@);
    assert("in"@.len() == 2);
    assert("set"@.len() == 3);
    assert("in"@ != "set"@);
    assert("in"@.len() == 2);
    assert("rlc"@.len() == 3);
    assert("in"@ != "rlc"@);
    assert("in"@.len() == 2);
    assert("rrc"@.len() == 3);
    assert("in"@ != "rrc"@);
    assert("in"@.len() == 2);
    assert("rl"@.len() == 2);
    assert("in"@[0] == 'i');
    assert("rl"@[0] == 'r');
    assert("in"@ != "rl"@);
    assert("in"@.len() == 2);
    assert("rr"@.len() == 2);
    assert("in"@[0] == 'i');
    assert("rr"@[0] == 'r');
    assert("in"@ != "rr"@);
    assert("in"@.len() == 2);
    assert("sla"@.len() == 3);
    assert("in"@ != "sla"@);
    assert("in"@.len() == 2);
    assert("sra"@.len() == 3);
    assert("in"@ != "sra"@);
    assert("in"@.len() == 2);
    assert("sll"@.len() == 3);
    assert("in"@ != "sll"@);
    assert("in"@.len() == 2);
    assert("srl"@.len() == 3);
    assert("in"@ != "srl"@);
    assert("out"@.len() == 3);
    assert("jp"@.len() == 2);
    assert("out"@ != "jp"@);
    assert("out"@.len() == 3);
    assert("jr"@.len() == 2);
    assert("out"@ != "jr"@);
    assert("out"@.len() == 3);
    assert("djnz"@.len() == 4);
    assert("out"@ != "djnz"@);
    assert("out"@.len() == 3);
    assert("call"@.len() == 4);
    assert("out"@ != "call"@);
    assert("out"@.len() == 3);
    assert("ret"@.len() == 3);
    assert("out"@[0] == 'o');
    assert("ret"@[0] == 'r');
    assert("out"@ != "ret"@);
    assert("out"@.len() == 3);
    assert("add"@.len() == 3);
    assert("out"@[0] == 'o');
    assert("add"@[0] == 'a');
    assert("out"@ != "add"@);
    assert("out"@.len() == 3);
    assert("adc"@.len() == 3);
    assert("out"@[0] == 'o');
    assert("adc"@[0] == 'a');
    assert("out"@ != "adc"@);
    assert("out"@.len() == 3);
    assert("sub"@.len() == 3);
    assert("out"@[0] == 'o');
    assert("sub"@[0] == 's');
    assert("out"@ != "sub"@);
    assert("out"@.len() == 3);
    assert("sbc"@.len() == 3);
    assert("out"@[0] == 'o');
    assert("sbc"@[0] == 's');
    assert("out"@ != "sbc"@);
    assert("out"@.len() == 3);
    assert("and"@.len() == 3);
    assert("out"@[0] == 'o');
    assert("and"@[0] == 'a');
    assert("out"@ != "and"@);
    assert("out"@.len() == 3);
    assert("xor"@.len() == 3);
    assert("out"@[0] == 'o');
    assert("xor"@[0] == 'x');
    assert("out"@ != "xor"@);
    assert("out"@.len() == 3);
    assert("or"@.len() == 2);
    assert("out"@ != "or"@);
    assert("out"@.len() == 3);
    assert("cp"@.len() == 2);
    assert("out"@ != "cp"@);
    assert("out"@.len() == 3);
    assert("bit"@.len() == 3);
    assert("out"@[0] == 'o');
    assert("bit"@[0] == 'b');
    assert("out"@ != "bit"@);
    assert("out"@.len() == 3);
    assert("res"@.len() == 3);
    assert("out"@[0] == 'o');
    assert("res"@[0] == 'r');
    assert("out"@ != "res"@);
    assert("out"@.len() == 3);
    assert("set"@.len() == 3);
    assert("out"@[0] == 'o');
    assert("set"@[0] == 's');
    assert("out"@ != "set"@);
    assert("out"@.len() == 3);
    assert("rlc"@.len() == 3);
    assert("out"@[0] == 'o');
    assert("rlc"@[0] == 'r');
    assert("out"@ != "rlc"@);
    assert("out"@.len() == 3);
    assert("rrc"@.len() == 3);
    assert("out"@[0] == 'o');
    assert("rrc"@[0] == 'r');
    assert("out"@ != "rrc"@);
    assert("out"@.len() == 3);
    assert("rl"@.len() == 2);
    assert("out"@ != "rl"@);
    assert("out"@.len() == 3);
    assert("rr"@.len() == 2);
    assert("out"@ != "rr"@);
    assert("out"@.len() == 3);
    assert("sla"@.len() == 3);
    assert("out"@[0] == 'o');
    assert("sla"@[0] == 's');
    assert("out"@ != "sla"@);
    assert("out"@.len() == 3);
    assert("sra"@.len() == 3);
    assert("out"@[0] == 'o');
    assert("sra"@[0] == 's');
    assert("out"@ != "sra"@);
    assert("out"@.len() == 3);
    assert("sll"@.len() == 3);
    assert("out"@[0] == 'o');
    assert("sll"@[0] == 's');
    assert("out"@ != "sll"@);
    assert("out"@.len() == 3);
    assert("srl"@.len() == 3);
    assert("out"@[0] == 'o');
    assert("srl"@[0] == 's');
    assert("out"@ != "srl"@);
    assert("reti"@.len() == 4);
    assert("jp"@.len() == 2);
    assert("reti"@ != "jp"@);
    assert("reti"@.len() == 4);
    assert("jr"@.len() == 2);
    assert("reti"@ != "jr"@);
    assert("reti"@.len() == 4);
    assert("djnz"@.len() == 4);
    assert("reti"@[0] == 'r');
    assert("djnz"@[0] == 'd');
    assert("reti"@ != "djnz"@);
    assert("reti"@.len() == 4);
    assert("call"@.len() == 4);
    assert("reti"@[0] == 'r');
    assert("call"@[0] == 'c');
    assert("reti"@ != "call"@);
    assert("reti"@.len() == 4);
    assert("ret"@.len() == 3);
    assert("reti"@ != "ret"@);
    assert("reti"@.len() == 4);
    assert("add"@.len() == 3);
    assert("reti"@ != "add"@);
    assert("reti"@.len() == 4);
    assert("adc"@.len() == 3);
    assert("reti"@ != "adc"@);
    assert("reti"@.len() == 4);
    assert("sub"@.len() == 3);
    assert("reti"@ != "sub"@);
    assert("reti"@.len() == 4);
    assert("sbc"@.len() == 3);
    assert("reti"@ != "sbc"@);
    assert("reti"@.len() == 4);
    assert("and"@.len() == 3);
    assert("reti"@ != "and"@);
    assert("reti"@.len() == 4);
    assert("xor"@.len() == 3);
    assert("reti"@ != "xor"@);
    assert("reti"@.len() == 4);
    assert("or"@.len() == 2);
    assert("reti"@ != "or"@);
    assert("reti"@.len() == 4);
    assert("cp"@.len() == 2);
    assert("reti"@ != "cp"@);
    assert("reti"@.len() == 4);
    assert("bit"@.len() == 3);
    assert("reti"@ != "bit"@);
    assert("reti"@.len() == 4);
    assert("res"@.len() == 3);
    assert("reti"@ != "res"@);
    assert("reti"@.len() == 4);
    assert("set"@.len() == 3);
    assert("reti"@ != "set"@);
    assert("reti"@.len() == 4);
    assert("rlc"@.len() == 3);
    assert("reti"@ != "rlc"@);
    assert("reti"@.len() == 4);
    assert("rrc"@.len() == 3);
    assert("reti"@ != "rrc"@);
    assert("reti"@.len() == 4);
    assert("rl"@.len() == 2);
    assert("reti"@ != "rl"@);
    assert("reti"@.len() == 4);
    assert("rr"@.len() == 2);
    assert("reti"@ != "rr"@);
    assert("reti"@.len() == 4);
    assert("sla"@.len() == 3);
    assert("reti"@ != "sla"@);
    assert("reti"@.len() == 4);
    assert("sra"@.len() == 3);
    assert("reti"@ != "sra"@);
    assert("reti"@.len() == 4);
    assert("sll"@.len() == 3);
    assert("reti"@ != "sll"@);
    assert("reti"@.len() == 4);
    assert("srl"@.len() == 3);
    assert("reti"@ != "srl"@);
    assert("retn"@.len() == 4);
    assert("jp"@.len() == 2);
    assert("retn"@ != "jp"@);
    assert("retn"@.len() == 4);
    assert("jr"@.len() == 2);
    assert("retn"@ != "jr"@);
    assert("retn"@.len() == 4);
    assert("djnz"@.len() == 4);
    assert("retn"@[0] == 'r');
    assert("djnz"@[0] == 'd');
    assert("retn"@ != "djnz"@);
    assert("retn"@.len() == 4);
    assert("call"@.len() == 4);
    assert("retn"@[0] == 'r');
    assert("call"@[0] == 'c');
    assert("retn"@ != "call"@);
    assert("retn"@.len() == 4);
    assert("ret"@.len() == 3);
    assert("retn"@ != "ret"@);
    assert("retn"@.len() == 4);
    assert("add"@.len() == 3);
    assert("retn"@ != "add"@);
    assert("retn"@.len() == 4);
    assert("adc"@.len() == 3);
    assert("retn"@ != "adc"@);
    assert("retn"@.len() == 4);
    assert("sub"@.len() == 3);
    assert("retn"@ != "sub"@);
    assert("retn"@.len() == 4);
    assert("sbc"@.len() == 3);
    assert("retn"@ != "sbc"@);
    assert("retn"@.len() == 4);
    assert("and"@.len() == 3);
    assert("retn"@ != "and"@);
    assert("retn"@.len() == 4);
    assert("xor"@.len() == 3);
    assert("retn"@ != "xor"@);
    assert("retn"@.len() == 4);
    assert("or"@.len() == 2);
    assert("retn"@ != "or"@);
    assert("retn"@.len() == 4);
    assert("cp"@.len() == 2);
    assert("retn"@ != "cp"@);
    assert("retn"@.len() == 4);
    assert("bit"@.len() == 3);
    assert("retn"@ != "bit"@);
    assert("retn"@.len() == 4);
    assert("res"@.len() == 3);
    assert("retn"@ != "res"@);
    assert("retn"@.len() == 4);
    assert("set"@.len() == 3);
    assert("retn"@ != "set"@);
    assert("retn"@.len() == 4);
    assert("rlc"@.len() == 3);
    assert("retn"@ != "rlc"@);
    assert("retn"@.len() == 4);
    assert("rrc"@.len() == 3);
    assert("retn"@ != "rrc"@);
    assert("retn"@.len() == 4);
    assert("rl"@.len() == 2);
    assert("retn"@ != "rl"@);
    assert("retn"@.len() == 4);
    assert("rr"@.len() == 2);
    assert("retn"@ != "rr"@);
    assert("retn"@.len() == 4);
    assert("sla"@.len() == 3);
    assert("retn"@ != "sla"@);
    assert("retn"@.len() == 4);
    assert("sra"@.len() == 3);
    assert("retn"@ != "sra"@);
    assert("retn"@.len() == 4);
    assert("sll"@.len() == 3);
    assert("retn"@ != "sll"@);
    assert("retn"@.len() == 4);
    assert("srl"@.len() == 3);
    assert("retn"@ != "srl"@);
}

/// The jump-family size of a shape: `jp` and `jr` encode (or fail) unless
/// the condition text is unrecognized; `djnz` always encodes or fails.
pub open spec fn spec_jump_size(mn: Seq<char>, ops: Option<Seq<char>>) -> Option<int> {
    match ops {
        None => None,
        Some(o) => if mn == "jp"@ {
            match spec_cond_target(o).0 {
                None => Some(3),
                Some(c) => match crate::jumps::spec_jp_cond_op(c) {
                    Some(_) => Some(3),
                    None => None,
                },
            }
        } else if mn == "jr"@ {
            match spec_cond_target(o).0 {
                None => Some(2),
                Some(c) => match crate::jumps::spec_jr_cond_op(c) {
                    Some(_) => Some(2),
                    None => None,
                },
            }
        } else if mn == "djnz"@ {
            Some(2)
        } else {
            None
        },
    }
}

/// The call-family size of a shape: `call` unless the condition is
/// unrecognized; conditional `ret` is one byte.
pub open spec fn spec_call_size(mn: Seq<char>, ops: Option<Seq<char>>) -> Option<int> {
    match ops {
        None => None,
        Some(o) => if mn == "call"@ {
            match spec_cond_target(o).0 {
                None => Some(3),
                Some(c) => match crate::calls::spec_call_cond_op(c) {
                    Some(_) => Some(3),
                    None => None,
                },
            }
        } else if mn == "ret"@ {
            match crate::calls::spec_ret_cond_op(spec_trim(o)) {
                Some(_) => Some(1),
                None => None,
            }
        } else {
            None
        },
    }
}

/// The I/O-family size of a shape: the recognized `in`/`out` forms and the
/// block instructions are all two bytes.
pub open spec fn spec_io_size(mn: Seq<char>, ops: Option<Seq<char>>) -> Option<int> {
    if mn == "in"@ || mn == "out"@ {
        match ops {
            None => None,
            Some(o) => {
                let parts = split_char(o, ',');
                if parts.len() != 2 {
                    Some(2)
                } else {
                    let fst = spec_trim(parts[0]);
                    let snd = spec_trim(parts[1]);
                    if mn == "in"@ {
                        if (fst == "a"@ && snd.len() >= 2 && snd[0] == '(' && snd.last() == ')')
                            || snd == "(c)"@ {
                            Some(2)
                        } else {
                            None
                        }
                    } else {
                        if (fst.len() >= 2 && fst[0] == '(' && fst.last() == ')' && snd == "a"@)
                            || fst == "(c)"@ {
                            Some(2)
                        } else {
                            None
                        }
                    }
                }
            },
        }
    } else {
        match spec_block_io_op(mn) {
            Some(_) => Some(2),
            None => None,
        }
    }
}

/// The arithmetic-family size of a shape: two bytes where the value operand
/// is neither a register nor a memory reference.
pub open spec fn spec_arith_size(mn: Seq<char>, ops: Option<Seq<char>>) -> Option<int> {
    match spec_arith_imm_op(mn) {
        None => None,
        Some(_) => match ops {
            None => None,
            Some(o) => {
                let v = spec_arith_value_text(o);
                if !spec_is_arith_reg(v) && !(v.len() > 0 && v[0] == '(') {
                    Some(2)
                } else {
                    None
                }
            },
        },
    }
}

/// The size of a fixed-opcode table hit: by the full text first, then by
/// the bare mnemonic, one where nothing matches (assembly fails there).
pub open spec fn spec_table_size(mn: Seq<char>, ops: Option<Seq<char>>) -> int {
    match spec_opcode_of(full_inst(mn, ops)) {
        Some(op) => if op > 0xffff {
            3
        } else if op > 0xff {
            2
        } else {
            1
        },
        None => match spec_opcode_of(mn) {
            Some(op) => if op > 0xff {
                2
            } else {
                1
            },
            None => 1,
        },
    }
}

/// The byte count a line will occupy once encoded, computed from the
/// mnemonic and operand shape alone — the same classification the encoder
/// chain applies, family by family in dispatch order, without performing
/// the encoding. Where the dispatch would fail, the value is immaterial:
/// assembly aborts.
pub open spec fn spec_estimate(mn: Seq<char>, ops: Option<Seq<char>>) -> int {
    if mn == ".org"@ || mn == ".end"@ || mn == ".equ"@ {
        0
    } else if mn == ".db"@ && ops is Some {
        spec_db_size(ops->Some_0)
    } else if mn == ".dw"@ && ops is Some {
        spec_dw_size(ops->Some_0)
    } else if mn == "bcall"@ && ops is Some {
        3
    } else if spec_index_size(mn, ops) is Some {
        spec_index_size(mn, ops)->Some_0
    } else if mn == "ld"@ && ops is Some && spec_load_size(ops->Some_0) is Some {
        spec_load_size(ops->Some_0)->Some_0
    } else if spec_jump_size(mn, ops) is Some {
        spec_jump_size(mn, ops)->Some_0
    } else if spec_call_size(mn, ops) is Some {
        spec_call_size(mn, ops)->Some_0
    } else if spec_arith_size(mn, ops) is Some {
        spec_arith_size(mn, ops)->Some_0
    } else if (spec_bit_base(mn) is Some || spec_rot_base(mn) is Some) && ops is Some {
        2
    } else if spec_io_size(mn, ops) is Some {
        spec_io_size(mn, ops)->Some_0
    } else if mn == "reti"@ || mn == "retn"@ {
        2
    } else {
        spec_table_size(mn, ops)
    }
}

/// The indexed-family size of a shape, executable form.
fn idx_load_size(o: &[char], is_ix: bool) -> (r: Option<usize>)
    ensures
        match r {
            Some(n) => spec_idx_load_size(o@, is_ix) == Some(n as int),
            None => spec_idx_load_size(o@, is_ix) is None,
        },
{
    let parts = split_all(o, ',');
    if parts.len() != 2 {
        return None;
    }
    proof {
        assert(parts.deep_view()[0] == parts@[0]@);
        assert(parts.deep_view()[1] == parts@[1]@);
    }
    let p0_has_pre = if is_ix {
        contains_str(parts[0].as_slice(), "ix")
    } else {
        contains_str(parts[0].as_slice(), "iy")
    };
    let reg: &[char] = if p0_has_pre {
        trim(parts[1].as_slice())
    } else {
        trim(parts[0].as_slice())
    };
    match crate::index::idx_load_op(o, reg, is_ix) {
        Some(_) => Some(3),
        None => None,
    }
}

/// The indexed-family size of an instruction, executable form.
fn index_size(mn: &[char], operands: Option<&[char]>) -> (r: Option<usize>)
    ensures
        ({
            let ov = match operands {
                Some(o) => Some(o@),
                None => None,
            };
            match r {
                Some(n) => spec_index_size(mn@, ov) == Some(n as int),
                None => spec_index_size(mn@, ov) is None,
            }
        }),
{
    let o = match operands {
        None => {
            return None;
        },
        Some(o) => o,
    };
    if eq_str(mn, "push") && (eq_str(o, "ix") || eq_str(o, "iy")) {
        return Some(2);
    }
    if eq_str(mn, "pop") && (eq_str(o, "ix") || eq_str(o, "iy")) {
        return Some(2);
    }
    if eq_str(mn, "ld") && (starts_with_str(o, "ix,") || starts_with_str(o, "iy,")) {
        proof {
            reveal_strlit("ix,");
            reveal_strlit("iy,");
        }
        let vs = trim(&o[3..o.len()]);
        if !(vs.len() > 0 && vs[0] == '(') {
            return Some(4);
        }
    }
    if eq_str(mn, "ld") && (contains_str(o, "(ix+") || contains_str(o, "(ix-") || contains_str(
        o,
        "(ix)",
    )) {
        return idx_load_size(o, true);
    }
    if eq_str(mn, "ld") && (contains_str(o, "(iy+") || contains_str(o, "(iy-") || contains_str(
        o,
        "(iy)",
    )) {
        return idx_load_size(o, false);
    }
    if eq_str(mn, "ld") && o.len() > 0 && o[0] == '(' && (contains_str(o, "),ix") || contains_str(
        o,
        "),iy",
    )) {
        return Some(4);
    }
    if eq_str(mn, "ld") && (starts_with_str(o, "ix,(") || starts_with_str(o, "iy,(")) && o.len()
        > 0 && o[o.len() - 1] == ')' {
        proof {
            assert(o@.last() == o@[o@.len() - 1]);
        }
        return Some(4);
    }
    if (eq_str(mn, "inc") || eq_str(mn, "dec")) && (eq_str(o, "ix") || eq_str(o, "iy")) {
        return Some(2);
    }
    if eq_str(mn, "add") && starts_with_str(o, "ix,") {
        proof {
            reveal_strlit("ix,");
        }
        let reg = trim(&o[3..o.len()]);
        return match crate::index::idx_add_op(reg, true) {
            Some(_) => Some(2),
            None => None,
        };
    }
    if eq_str(mn, "add") && starts_with_str(o, "iy,") {
        proof {
            reveal_strlit("iy,");
        }
        let reg = trim(&o[3..o.len()]);
        return match crate::index::idx_add_op(reg, false) {
            Some(_) => Some(2),
            None => None,
        };
    }
    if eq_str(mn, "ex") && (eq_str(o, "(sp),ix") || eq_str(o, "(sp),iy")) {
        return Some(2);
    }
    if eq_str(mn, "jp") && (eq_str(o, "(ix)") || eq_str(o, "(iy)")) {
        return Some(2);
    }
    if eq_str(mn, "ld") && (eq_str(o, "sp,ix") || eq_str(o, "sp,iy")) {
        return Some(2);
    }
    None
}

/// The load-family size of an `ld` operand shape, executable form.
fn load_size(o: &[char]) -> (r: Option<usize>)
    ensures
        match r {
            Some(n) => spec_load_size(o@) == Some(n as int),
            None => spec_load_size(o@) is None,
        },
{
    let parts = crate::parser::split_operands_chars(o);
    if parts.len() != 2 {
        return None;
    }
    proof {
        assert(parts.deep_view()[0] == parts@[0]@);
        assert(parts.deep_view()[1] == parts@[1]@);
    }
    let dest = parts[0].as_slice();
    let src = parts[1].as_slice();
    if crate::tables::reg_load_imm(dest).is_some() && !(src.len() > 0 && src[0] == '(')
        && !crate::loads::is_register(src) {
        return Some(2);
    }
    if eq_str(dest, "hl") || eq_str(dest, "bc") || eq_str(dest, "de") || eq_str(dest, "sp") {
        return Some(3);
    }
    if dest.len() >= 2 && dest[0] == '(' && dest[dest.len() - 1] == ')' && eq_str(src, "hl") {
        proof {
            assert(dest@.last() == dest@[dest@.len() - 1]);
        }
        return Some(3);
    }
    if eq_str(dest, "a") && src.len() >= 2 && src[0] == '(' && src[src.len() - 1] == ')' {
        proof {
            assert(src@.last() == src@[src@.len() - 1]);
        }
        if !crate::loads::is_pair_indirect_pub(&src[1..src.len() - 1]) {
            return Some(3);
        }
    }
    if dest.len() >= 2 && dest[0] == '(' && dest[dest.len() - 1] == ')' && eq_str(src, "a") {
        proof {
            assert(dest@.last() == dest@[dest@.len() - 1]);
        }
        if !crate::loads::is_pair_indirect_pub(&dest[1..dest.len() - 1]) {
            return Some(3);
        }
    }
    None
}

/// The byte count a line will occupy once encoded — the pass-one size
/// estimator, consistent with the encoders by construction.
pub fn estimate_size(mnemonic: &str, operands: Option<&str>) -> (r: usize)
    ensures
        r as int == spec_estimate(mnemonic@, option_view(operands)),
{
    let mn = to_chars(mnemonic);
    let mv = mn.as_slice();
    if eq_str(mv, ".org") || eq_str(mv, ".end") || eq_str(mv, ".equ") {
        return 0;
    }
    if eq_str(mv, ".db") && operands.is_some() {
        return match operands {
            Some(o) => estimate_data_size(mnemonic, o),
            None => 0,
        };
    }
    if eq_str(mv, ".dw") && operands.is_some() {
        return match operands {
            Some(o) => estimate_data_size(mnemonic, o),
            None => 0,
        };
    }
    if eq_str(mv, "bcall") && operands.is_some() {
        return 3;
    }
    let ops_chars: Option<Vec<char>> = match operands {
        None => None,
        Some(o) => Some(to_chars(o)),
    };
    let ops_slice: Option<&[char]> = match &ops_chars {
        None => None,
        Some(o) => Some(o.as_slice()),
    };
    if let Some(n) = index_size(mv, ops_slice) {
        return n;
    }
    if eq_str(mv, "ld") {
        if let Some(o) = ops_slice {
            if let Some(n) = load_size(o) {
                return n;
            }
        }
    }
    if let Some(o) = ops_slice {
        if eq_str(mv, "jp") || eq_str(mv, "jr") {
            let (cond, _target) = crate::calls::cond_target(o);
            let known = match &cond {
                None => true,
                Some(c) => if eq_str(mv, "jp") {
                    crate::jumps::jp_cond_op(c.as_slice()).is_some()
                } else {
                    crate::jumps::jr_cond_op(c.as_slice()).is_some()
                },
            };
            if known {
                return if eq_str(mv, "jp") {
                    3
                } else {
                    2
                };
            }
            proof {
                reveal_strlit("jp");
                reveal_strlit("jr");
                reveal_strlit("call");
                reveal_strlit("ret");
                assert("jp"@.len() == 2 && "jr"@.len() == 2);
                assert("call"@.len() == 4 && "ret"@.len() == 3);
                assert(mnemonic@ != "call"@ && mnemonic@ != "ret"@);
            }
        } else if eq_str(mv, "djnz") {
            return 2;
        } else if eq_str(mv, "call") {
            let (cond, _target) = crate::calls::cond_target(o);
            let known = match &cond {
                None => true,
                Some(c) => crate::calls::call_cond_op(c.as_slice()).is_some(),
            };
            if known {
                return 3;
            }
        } else if eq_str(mv, "ret") {
            let t = trim(o);
            if crate::calls::ret_cond_op(t).is_some() {
                return 1;
            }
        }
    }
    if crate::arithmetic::arith_imm_op(mv).is_some() {
        if let Some(o) = ops_slice {
            let value: &[char] = if starts_with_str(o, "a,") {
                proof {
                    reveal_strlit("a,");
                }
                trim(&o[2..o.len()])
            } else {
                trim(o)
            };
            if !crate::arithmetic::is_arith_reg(value) && !(value.len() > 0 && value[0] == '(') {
                proof {
                    lemma_arith_mn(mnemonic@);
                }
                return 2;
            }
        }
    }
    if (crate::bitops::bit_base(mv).is_some() || crate::bitops::rot_base(mv).is_some())
        && ops_slice.is_some() {
        proof {
            lemma_bit_mn(mnemonic@);
        }
        return 2;
    }
    if eq_str(mv, "in") || eq_str(mv, "out") {
        if let Some(o) = ops_slice {
            proof {
                lemma_named_mn(mnemonic@);
            }
            let parts = split_all(o, ',');
            if parts.len() != 2 {
                return 2;
            }
            proof {
                assert(parts.deep_view()[0] == parts@[0]@);
                assert(parts.deep_view()[1] == parts@[1]@);
            }
            let fst = trim(parts[0].as_slice());
            let snd = trim(parts[1].as_slice());
            if eq_str(mv, "in") {
                if (eq_str(fst, "a") && snd.len() >= 2 && snd[0] == '(' && snd[snd.len() - 1]
                    == ')') || eq_str(snd, "(c)") {
                    proof {
                        assert(snd@.len() >= 2 ==> snd@.last() == snd@[snd@.len() - 1]);
                    }
                    return 2;
                }
                proof {
                    assert(snd@.len() >= 2 ==> snd@.last() == snd@[snd@.len() - 1]);
                }
            } else {
                if (fst.len() >= 2 && fst[0] == '(' && fst[fst.len() - 1] == ')' && eq_str(
                    snd,
                    "a",
                )) || eq_str(fst, "(c)") {
                    proof {
                        assert(fst@.len() >= 2 ==> fst@.last() == fst@[fst@.len() - 1]);
                    }
                    return 2;
                }
                proof {
                    assert(fst@.len() >= 2 ==> fst@.last() == fst@[fst@.len() - 1]);
                }
            }
        }
    } else if crate::io::block_io_op(mv).is_some() {
        proof {
            lemma_block_mn(mnemonic@);
        }
        return 2;
    }
    if eq_str(mv, "reti") || eq_str(mv, "retn") {
        proof {
            lemma_named_mn(mnemonic@);
        }
        return 2;
    }
    let full = match ops_slice {
        None => build_full_inst(mv, None),
        Some(o) => build_full_inst(mv, Some(o)),
    };
    if let Some(op) = opcode_of(full.as_slice()) {
        if op > 0xffff {
            3
        } else if op > 0xff {
            2
        } else {
            1
        }
    } else if let Some(op) = opcode_of(mv) {
        if op > 0xff {
            2
        } else {
            1
        }
    } else {
        1
    }
}

/// The cursor after `n` more bytes, wrapping modulo 65536.
pub open spec fn spec_wrap_cursor(c: u16, n: int) -> u16 {
    ((c + n) % 0x10000) as u16
}

/// Advance the cursor by a byte count, wrapping at 16 bits.
fn wrap_cursor(c: u16, n: usize) -> (r: u16)
    ensures
        r == spec_wrap_cursor(c, n as int),
{
    let r = (((c as u64) + ((n as u64) % 0x10000)) % 0x10000) as u16;
    proof {
        vstd::arithmetic::div_mod::lemma_add_mod_noop(c as int, n as int, 0x10000);
        vstd::arithmetic::div_mod::lemma_small_mod(c as nat, 0x10000);
    }
    r
}

/// How one instruction of pass two acts on the assembler: the bytes it
/// emits, and the constants, origin and cursor it leaves. `.org` evaluates
/// its operand and resets origin and cursor; `.equ` records a constant;
/// `.end` does nothing; everything else goes through the encoder chain.
pub open spec fn spec_instr(
    mn: Seq<char>,
    ops: Option<Seq<char>>,
    labels: Map<Seq<char>, u16>,
    consts: Map<Seq<char>, u16>,
    org: u16,
    cursor: u16,
) -> Result<(Seq<u8>, Map<Seq<char>, u16>, u16, u16), ErrKind> {
    if mn == ".org"@ {
        match ops {
            None => Ok((Seq::empty(), consts, org, cursor)),
            Some(o) => match spec_parse_immediate(o, consts) {
                None => Err(ErrKind::InvalidLiteral),
                Some(v) => Ok((Seq::empty(), consts, v, v)),
            },
        }
    } else if mn == ".end"@ {
        Ok((Seq::empty(), consts, org, cursor))
    } else if mn == ".equ"@ {
        match ops {
            None => Ok((Seq::empty(), consts, org, cursor)),
            Some(o) => {
                let ps = split_char(o, ',');
                if ps.len() != 2 {
                    Err(ErrKind::InvalidOperandCount)
                } else {
                    match spec_parse_immediate(spec_trim(ps[1]), consts) {
                        None => Err(ErrKind::InvalidLiteral),
                        Some(v) => Ok(
                            (Seq::empty(), consts.insert(spec_trim(ps[0]), v), org, cursor),
                        ),
                    }
                }
            },
        }
    } else {
        match spec_encode(mn, ops, labels, consts, cursor) {
            Err(k) => Err(k),
            Ok(b) => Ok((b, consts, org, cursor)),
        }
    }
}

/// Pass one, from line `i` on: record each label at the cursor, evaluate
/// `.org` (resetting origin and cursor) and `.equ` (recording a constant),
/// and advance the cursor by the size estimate of every other mnemonic.
pub open spec fn spec_pass1(
    lines: Seq<Seq<char>>,
    i: int,
    labels: Map<Seq<char>, u16>,
    consts: Map<Seq<char>, u16>,
    org: u16,
    cursor: u16,
) -> Result<(Map<Seq<char>, u16>, Map<Seq<char>, u16>), ErrKind>
    decreases lines.len() - i,
{
    if i >= lines.len() {
        Ok((labels, consts))
    } else {
        match spec_parse_line(lines[i]) {
            None => spec_pass1(lines, i + 1, labels, consts, org, cursor),
            Some(pl) => {
                let labels2 = match pl.label {
                    None => labels,
                    Some(l) => labels.insert(l, cursor),
                };
                match pl.mnemonic {
                    None => spec_pass1(lines, i + 1, labels2, consts, org, cursor),
                    Some(mn) => {
                        if mn == ".org"@ {
                            match pl.operands {
                                None => spec_pass1(lines, i + 1, labels2, consts, org, cursor),
                                Some(o) => match spec_parse_immediate(o, consts) {
                                    None => Err(ErrKind::InvalidLiteral),
                                    Some(v) => spec_pass1(lines, i + 1, labels2, consts, v, v),
                                },
                            }
                        } else if mn == ".equ"@ {
                            match pl.operands {
                                None => spec_pass1(lines, i + 1, labels2, consts, org, cursor),
                                Some(o) => {
                                    let ps = split_char(o, ',');
                                    if ps.len() != 2 {
                                        Err(ErrKind::InvalidOperandCount)
                                    } else {
                                        match spec_parse_immediate(spec_trim(ps[1]), consts) {
                                            None => Err(ErrKind::InvalidLiteral),
                                            Some(v) => spec_pass1(
                                                lines,
                                                i + 1,
                                                labels2,
                                                consts.insert(spec_trim(ps[0]), v),
                                                org,
                                                cursor,
                                            ),
                                        }
                                    }
                                },
                            }
                        } else {
                            spec_pass1(
                                lines,
                                i + 1,
                                labels2,
                                consts,
                                org,
                                spec_wrap_cursor(cursor, spec_estimate(mn, pl.operands)),
                            )
                        }
                    },
                }
            },
        }
    }
}

/// Pass two, from line `i` on: dispatch every mnemonic against the
/// complete label table and concatenate the bytes, advancing the cursor by
/// what was emitted.
pub open spec fn spec_pass2(
    lines: Seq<Seq<char>>,
    i: int,
    labels: Map<Seq<char>, u16>,
    consts: Map<Seq<char>, u16>,
    org: u16,
    cursor: u16,
    out: Seq<u8>,
) -> Result<Seq<u8>, ErrKind>
    decreases lines.len() - i,
{
    if i >= lines.len() {
        Ok(out)
    } else {
        match spec_parse_line(lines[i]) {
            None => spec_pass2(lines, i + 1, labels, consts, org, cursor, out),
            Some(pl) => match pl.mnemonic {
                None => spec_pass2(lines, i + 1, labels, consts, org, cursor, out),
                Some(mn) => match spec_instr(mn, pl.operands, labels, consts, org, cursor) {
                    Err(k) => Err(k),
                    Ok((bytes, c2, org2, cur2)) => spec_pass2(
                        lines,
                        i + 1,
                        labels,
                        c2,
                        org2,
                        spec_wrap_cursor(cur2, bytes.len() as int),
                        out + bytes,
                    ),
                },
            },
        }
    }
}

/// What assembling a source text yields: pass one builds the symbol table
/// from the default origin; pass two re-reads every line against it, from
/// the default origin again, and concatenates the machine code. The result
/// is a function of the source text alone.
pub open spec fn spec_assemble(src: Seq<char>) -> Result<Seq<u8>, ErrKind> {
    let lines = spec_lines(src);
    match spec_pass1(
        lines,
        0,
        Map::empty(),
        Map::empty(),
        TI83_PLUS_ORIGIN,
        TI83_PLUS_ORIGIN,
    ) {
        Err(k) => Err(k),
        Ok((labels, consts)) => spec_pass2(
            lines,
            0,
            labels,
            consts,
            TI83_PLUS_ORIGIN,
            TI83_PLUS_ORIGIN,
            Seq::empty(),
        ),
    }
}

/// Record a `.equ` definition: exactly two comma-separated operands, the
/// name and the evaluated value.
fn process_equ(constants: &mut SymTab, o: &str) -> (r: Result<(), AsmError>)
    ensures
        ({
            let ps = split_char(o@, ',');
            match r {
                Ok(()) => ps.len() == 2 && spec_parse_immediate(spec_trim(ps[1]), old(constants)@)
                    is Some && final(constants)@ == old(constants)@.insert(
                    spec_trim(ps[0]),
                    spec_parse_immediate(spec_trim(ps[1]), old(constants)@)->Some_0,
                ),
                Err(e) => final(constants)@ == old(constants)@ && ((ps.len() != 2 && e.kind
                    == ErrKind::InvalidOperandCount) || (ps.len() == 2 && spec_parse_immediate(
                    spec_trim(ps[1]),
                    old(constants)@,
                ) is None && e.kind == ErrKind::InvalidLiteral)),
            }
        }),
{
    let oc = to_chars(o);
    let parts = split_all(oc.as_slice(), ',');
    if parts.len() != 2 {
        return Err(AsmError::new(ErrKind::InvalidOperandCount, oc.as_slice()));
    }
    proof {
        assert(parts.deep_view()[0] == parts@[0]@);
        assert(parts.deep_view()[1] == parts@[1]@);
    }
    let name = trim(parts[0].as_slice());
    let value_text = trim(parts[1].as_slice());
    match eval_chars(value_text, constants) {
        Err(e) => Err(e),
        Ok(v) => {
            let nv = chars_vec(name);
            constants.insert_chars(nv, v);
            Ok(())
        },
    }
}

/// The two-pass assembler: a parser, the label and constant tables, the
/// origin, and the address cursor. The tables are fresh per assembly run.
pub struct Z80Assembler {
    parser: Parser,
    labels: SymTab,
    constants: SymTab,
    org_address: u16,
    current_address: u16,
}

impl Z80Assembler {
    /// A fresh assembler, at the platform's default origin.
    pub fn new() -> Z80Assembler {
        Z80Assembler {
            parser: Parser::new(),
            labels: SymTab::new(),
            constants: SymTab::new(),
            org_address: TI83_PLUS_ORIGIN,
            current_address: TI83_PLUS_ORIGIN,
        }
    }

    /// The byte count a line will occupy once encoded; pass one drives the
    /// address cursor with it.
    pub fn estimate_instruction_size(&self, mnemonic: &str, operands: Option<&str>) -> (r: usize)
        ensures
            r as int == spec_estimate(mnemonic@, option_view(operands)),
    {
        estimate_size(mnemonic, operands)
    }

    /// Apply one instruction: directives act on the assembler's state and
    /// emit nothing; everything else encodes against the tables.
    fn assemble_instruction(&mut self, mnemonic: &str, operands: Option<&str>) -> (r: Result<
        Vec<u8>,
        AsmError,
    >)
        ensures
            ({
                let sp = spec_instr(
                    mnemonic@,
                    option_view(operands),
                    old(self).labels@,
                    old(self).constants@,
                    old(self).org_address,
                    old(self).current_address,
                );
                final(self).labels@ == old(self).labels@ && match r {
                    Ok(b) => sp is Ok && b@ == sp->Ok_0.0 && final(self).constants@ == sp->Ok_0.1
                        && final(self).org_address == sp->Ok_0.2 && final(self).current_address
                        == sp->Ok_0.3,
                    Err(e) => sp == Err::<(Seq<u8>, Map<Seq<char>, u16>, u16, u16), ErrKind>(
                        e.kind,
                    ),
                }
            }),
    {
        let mn = to_chars(mnemonic);
        if eq_str(mn.as_slice(), ".org") {
            match operands {
                None => Ok(Vec::new()),
                Some(o) => match parse_immediate(o, &self.constants) {
                    Err(e) => Err(e),
                    Ok(v) => {
                        self.org_address = v;
                        self.current_address = v;
                        Ok(Vec::new())
                    },
                },
            }
        } else if eq_str(mn.as_slice(), ".end") {
            Ok(Vec::new())
        } else if eq_str(mn.as_slice(), ".equ") {
            match operands {
                None => Ok(Vec::new()),
                Some(o) => match process_equ(&mut self.constants, o) {
                    Err(e) => Err(e),
                    Ok(()) => Ok(Vec::new()),
                },
            }
        } else {
            encode_instruction(mnemonic, operands, &self.labels, &self.constants, self.current_address)
        }
    }

    /// Assemble a source text into its machine code: pass one records every
    /// label address, pass two encodes every line against the complete
    /// table. The result, success or failure, is a function of the source
    /// text alone; any failure aborts the run with no output.
    pub fn assemble(&mut self, source: &str) -> (r: Result<Vec<u8>, AsmError>)
        ensures
            match r {
                Ok(code) => spec_assemble(source@) == Ok::<Seq<u8>, ErrKind>(code@),
                Err(e) => spec_assemble(source@) == Err::<Seq<u8>, ErrKind>(e.kind),
            },
    {
        self.labels = SymTab::new();
        self.constants = SymTab::new();
        self.org_address = TI83_PLUS_ORIGIN;
        self.current_address = TI83_PLUS_ORIGIN;
        let chars = to_chars(source);
        let lines = split_lines(chars.as_slice());
        let ghost lv = lines.deep_view();
        let mut i: usize = 0;
        while i < lines.len()
            invariant
                0 <= i <= lines@.len(),
                lv == lines.deep_view(),
                lv == spec_lines(source@),
                lv.len() == lines@.len(),
                spec_pass1(
                    lv,
                    0,
                    Map::empty(),
                    Map::empty(),
                    TI83_PLUS_ORIGIN,
                    TI83_PLUS_ORIGIN,
                ) == spec_pass1(
                    lv,
                    i as int,
                    self.labels@,
                    self.constants@,
                    self.org_address,
                    self.current_address,
                ),
            decreases lines@.len() - i,
        {
            proof {
                assert(lv[i as int] == lines@[i as int]@);
            }
            let line = chars_to_string(lines[i].as_slice());
            match self.parser.parse_line(line.as_str()) {
                None => {},
                Some(pl) => {
                    match &pl.label {
                        None => {},
                        Some(lab) => {
                            self.labels.insert(lab.as_str(), self.current_address);
                        },
                    }
                    match &pl.mnemonic {
                        None => {},
                        Some(mnm) => {
                            let ops_ref: Option<&str> = match &pl.operands {
                                None => None,
                                Some(s2) => Some(s2.as_str()),
                            };
                            let mnc = to_chars(mnm.as_str());
                            if eq_str(mnc.as_slice(), ".org") {
                                match ops_ref {
                                    None => {},
                                    Some(o) => match parse_immediate(o, &self.constants) {
                                        Err(e) => {
                                            return Err(e);
                                        },
                                        Ok(v) => {
                                            self.org_address = v;
                                            self.current_address = v;
                                        },
                                    },
                                }
                            } else if eq_str(mnc.as_slice(), ".equ") {
                                match ops_ref {
                                    None => {},
                                    Some(o) => match process_equ(&mut self.constants, o) {
                                        Err(e) => {
                                            return Err(e);
                                        },
                                        Ok(()) => {},
                                    },
                                }
                            } else {
                                let size = estimate_size(mnm.as_str(), ops_ref);
                                self.current_address = wrap_cursor(self.current_address, size);
                            }
                        },
                    }
                },
            }
            i = i + 1;
        }
        let ghost labels1 = self.labels@;
        let ghost consts1 = self.constants@;
        proof {
            assert(spec_pass1(
                lv,
                0,
                Map::empty(),
                Map::empty(),
                TI83_PLUS_ORIGIN,
                TI83_PLUS_ORIGIN,
            ) == Ok::<(Map<Seq<char>, u16>, Map<Seq<char>, u16>), ErrKind>((labels1, consts1)));
        }
        self.org_address = TI83_PLUS_ORIGIN;
        self.current_address = TI83_PLUS_ORIGIN;
        let mut output: Vec<u8> = Vec::new();
        proof {
            assert(output@ =~= Seq::<u8>::empty());
        }
        let mut i: usize = 0;
        while i < lines.len()
            invariant
                0 <= i <= lines@.len(),
                lv == lines.deep_view(),
                lv == spec_lines(source@),
                lv.len() == lines@.len(),
                self.labels@ == labels1,
                spec_pass1(
                    lv,
                    0,
                    Map::empty(),
                    Map::empty(),
                    TI83_PLUS_ORIGIN,
                    TI83_PLUS_ORIGIN,
                ) == Ok::<(Map<Seq<char>, u16>, Map<Seq<char>, u16>), ErrKind>((labels1, consts1)),
                spec_pass2(
                    lv,
                    0,
                    labels1,
                    consts1,
                    TI83_PLUS_ORIGIN,
                    TI83_PLUS_ORIGIN,
                    Seq::empty(),
                ) == spec_pass2(
                    lv,
                    i as int,
                    self.labels@,
                    self.constants@,
                    self.org_address,
                    self.current_address,
                    output@,
                ),
            decreases lines@.len() - i,
        {
            proof {
                assert(lv[i as int] == lines@[i as int]@);
            }
            let line = chars_to_string(lines[i].as_slice());
            match self.parser.parse_line(line.as_str()) {
                None => {},
                Some(pl) => {
                    match &pl.mnemonic {
                        None => {},
                        Some(mnm) => {
                            let ops_ref: Option<&str> = match &pl.operands {
                                None => None,
                                Some(s2) => Some(s2.as_str()),
                            };
                            let mut code = match self.assemble_instruction(
                                mnm.as_str(),
                                ops_ref,
                            ) {
                                Err(e) => {
                                    return Err(e);
                                },
                                Ok(code) => code,
                            };
                            let n = code.len();
                            output.append(&mut code);
                            self.current_address = wrap_cursor(self.current_address, n);
                        },
                    }
                },
            }
            i = i + 1;
        }
        proof {
            assert(output@ + Seq::<u8>::empty() =~= output@);
        }
        Ok(output)
    }
}

} // verus!

