//! The immediate/expression evaluator: converts a textual operand into a
//! 16-bit value, resolving named constants and the literal syntaxes
//! (`$FF`/`0xFF` hexadecimal, `%1010`/`0b1010` binary, decimal, signed
//! decimal, character literals), plus flat two-term `+`/`-` expressions.

use vstd::prelude::*;
use crate::chars::{
    contains_char, find, find_char, lemma_find_char, lemma_trim_le, spec_starts_with, spec_trim,
    starts_with_str, to_chars, trim,
};
use crate::error::{AsmError, ErrKind};
use crate::symtab::SymTab;

verus! {

/// The numeric value of one digit character, in the style of
/// `from_str_radix`: `0`-`9`, then `a`-`z` and `A`-`Z` for 10 to 35.
pub open spec fn digit_val(c: char, radix: int) -> Option<int> {
    let v: int = if '0' <= c <= '9' {
        c as int - '0' as int
    } else if 'a' <= c <= 'z' {
        c as int - 'a' as int + 10
    } else if 'A' <= c <= 'Z' {
        c as int - 'A' as int + 10
    } else {
        -1
    };
    if 0 <= v < radix {
        Some(v)
    } else {
        None
    }
}

/// The value of a digit string read left to right onto an accumulator;
/// `None` on the first character that is no digit of the radix.
pub open spec fn digits_val(s: Seq<char>, radix: int, acc: int) -> Option<int>
    decreases s.len(),
{
    if s.len() == 0 {
        Some(acc)
    } else {
        match digit_val(s[0], radix) {
            None => None,
            Some(d) => digits_val(s.drop_first(), radix, acc * radix + d),
        }
    }
}

pub proof fn lemma_digits_val_lower(s: Seq<char>, radix: int, acc: int)
    requires
        radix >= 2,
        acc >= 0,
    ensures
        match digits_val(s, radix, acc) {
            Some(v) => v >= acc,
            None => true,
        },
    decreases s.len(),
{
    if s.len() > 0 {
        match digit_val(s[0], radix) {
            None => {},
            Some(d) => {
                assert(acc * radix >= acc) by (nonlinear_arith)
                    requires
                        acc >= 0,
                        radix >= 2,
                ;
                lemma_digits_val_lower(s.drop_first(), radix, acc * radix + d);
            },
        }
    }
}

/// An unsigned 16-bit number in the given radix: an optional leading `+`,
/// then at least one digit, with the value at most 65535.
pub open spec fn parse_radix_u16(s: Seq<char>, radix: int) -> Option<u16> {
    let t = if s.len() > 0 && s[0] == '+' {
        s.drop_first()
    } else {
        s
    };
    if t.len() == 0 {
        None
    } else {
        match digits_val(t, radix, 0) {
            None => None,
            Some(v) => if v <= 0xFFFF {
                Some(v as u16)
            } else {
                None
            },
        }
    }
}

/// The decimal fallback: an unsigned 16-bit number, or a signed 16-bit
/// number reinterpreted as its unsigned bit pattern.
pub open spec fn parse_dec_u16(s: Seq<char>) -> Option<u16> {
    match parse_radix_u16(s, 10) {
        Some(v) => Some(v),
        None => if s.len() >= 2 && s[0] == '-' {
            match digits_val(s.drop_first(), 10, 0) {
                None => None,
                Some(v) => if v <= 32768 {
                    if v == 0 {
                        Some(0)
                    } else {
                        Some((0x10000 - v) as u16)
                    }
                } else {
                    None
                },
            }
        } else {
            None
        },
    }
}

/// 16-bit wrapping sum.
pub open spec fn wrap_add(l: u16, r: u16) -> u16 {
    if l + r <= 0xFFFF {
        (l + r) as u16
    } else {
        (l + r - 0x10000) as u16
    }
}

/// 16-bit wrapping difference.
pub open spec fn wrap_sub(l: u16, r: u16) -> u16 {
    if l >= r {
        (l - r) as u16
    } else {
        (l + 0x10000 - r) as u16
    }
}

/// How `parse_immediate` evaluates an operand, against a constant mapping.
///
/// The trimmed text is looked up among the constants first; then come the
/// character-literal, hexadecimal and binary syntaxes; a single top-level
/// `+` or `-` (the latter not in first position) splits a flat two-term
/// expression evaluated with wrapping 16-bit arithmetic; the fallback is
/// decimal, unsigned then signed. `None` is the `InvalidLiteral` failure.
pub open spec fn spec_parse_immediate(s: Seq<char>, m: Map<Seq<char>, u16>) -> Option<u16>
    decreases s.len(),
    via spec_parse_immediate_decreases
{
    let t = spec_trim(s);
    if m.contains_key(t) {
        Some(m[t])
    } else if t.len() == 3 && t[0] == '\'' && t[2] == '\'' {
        Some(((t[1] as u32) & 0xFFFF) as u16)
    } else if spec_starts_with(t, "$"@) {
        parse_radix_u16(t.subrange(1, t.len() as int), 16)
    } else if spec_starts_with(t, "0x"@) {
        parse_radix_u16(t.subrange(2, t.len() as int), 16)
    } else if spec_starts_with(t, "%"@) {
        parse_radix_u16(t.subrange(1, t.len() as int), 2)
    } else if spec_starts_with(t, "0b"@) {
        parse_radix_u16(t.subrange(2, t.len() as int), 2)
    } else {
        match find_char(t, '+') {
            Some(i) => if 0 <= i < t.len() && !contains_char(
                t.subrange(i + 1, t.len() as int),
                '+',
            ) {
                match (
                    spec_parse_immediate(t.subrange(0, i), m),
                    spec_parse_immediate(t.subrange(i + 1, t.len() as int), m),
                ) {
                    (Some(l), Some(r)) => Some(wrap_add(l, r)),
                    _ => None,
                }
            } else {
                parse_dec_u16(t)
            },
            None => if t.len() > 0 && t[0] != '-' && find_char(t, '-') is Some {
                let i = find_char(t, '-')->Some_0;
                if 0 <= i < t.len() && !contains_char(t.subrange(i + 1, t.len() as int), '-') {
                    match (
                        spec_parse_immediate(t.subrange(0, i), m),
                        spec_parse_immediate(t.subrange(i + 1, t.len() as int), m),
                    ) {
                        (Some(l), Some(r)) => Some(wrap_sub(l, r)),
                        _ => None,
                    }
                } else {
                    parse_dec_u16(t)
                }
            } else {
                parse_dec_u16(t)
            },
        }
    }
}

#[via_fn]
proof fn spec_parse_immediate_decreases(s: Seq<char>, m: Map<Seq<char>, u16>) {
    lemma_trim_le(s);
}

/// Read an unsigned 16-bit number of the given radix from `t`.
pub fn parse_radix(t: &[char], radix: u32) -> (r: Option<u16>)
    requires
        2 <= radix <= 36,
    ensures
        r == parse_radix_u16(t@, radix as int),
{
    let digits: &[char] = if t.len() > 0 && t[0] == '+' {
        &t[1..t.len()]
    } else {
        t
    };
    proof {
        if t@.len() > 0 && t@[0] == '+' {
            assert(digits@ =~= t@.drop_first());
        }
    }
    if digits.len() == 0 {
        return None;
    }
    let mut acc: u32 = 0;
    let mut i: usize = 0;
    proof {
        assert(digits@.subrange(0, digits@.len() as int) =~= digits@);
    }
    while i < digits.len()
        invariant
            0 <= i <= digits@.len(),
            0 <= acc <= 0xFFFF,
            2 <= radix <= 36,
            digits@.len() > 0,
            parse_radix_u16(t@, radix as int) == (match digits_val(digits@, radix as int, 0) {
                None => None::<u16>,
                Some(v) => if v <= 0xFFFF {
                    Some(v as u16)
                } else {
                    None
                },
            }),
            digits_val(digits@, radix as int, 0) == digits_val(
                digits@.subrange(i as int, digits@.len() as int),
                radix as int,
                acc as int,
            ),
        decreases digits@.len() - i,
    {
        let ghost rest = digits@.subrange(i as int, digits@.len() as int);
        proof {
            assert(rest[0] == digits@[i as int]);
            assert(rest.drop_first() =~= digits@.subrange(i + 1, digits@.len() as int));
        }
        let c = digits[i];
        let d: u32 = if '0' <= c && c <= '9' {
            (c as u32) - ('0' as u32)
        } else if 'a' <= c && c <= 'z' {
            (c as u32) - ('a' as u32) + 10
        } else if 'A' <= c && c <= 'Z' {
            (c as u32) - ('A' as u32) + 10
        } else {
            proof {
                assert(digit_val(rest[0], radix as int) is None);
                assert(digits_val(rest, radix as int, acc as int) is None);
                assert(parse_radix_u16(t@, radix as int) is None);
            }
            return None;
        };
        if d >= radix {
            proof {
                assert(digit_val(rest[0], radix as int) is None);
                assert(digits_val(rest, radix as int, acc as int) is None);
                assert(parse_radix_u16(t@, radix as int) is None);
            }
            return None;
        }
        proof {
            assert(acc * radix <= 0xFFFF * 36) by (nonlinear_arith)
                requires
                    0 <= acc <= 0xFFFF,
                    0 <= radix <= 36,
            ;
        }
        acc = acc * radix + d;
        if acc > 0xFFFF {
            proof {
                lemma_digits_val_lower(rest.drop_first(), radix as int, acc as int);
            }
            return None;
        }
        i = i + 1;
    }
    proof {
        assert(digits@.subrange(digits@.len() as int, digits@.len() as int)
            =~= Seq::<char>::empty());
    }
    Some(acc as u16)
}

/// Read a negative signed 16-bit decimal as its unsigned bit pattern.
fn parse_neg_dec(t: &[char]) -> (r: Option<u16>)
    requires
        t@.len() >= 2,
        t@[0] == '-',
    ensures
        r == (match digits_val(t@.drop_first(), 10, 0) {
            None => None::<u16>,
            Some(v) => if v <= 32768 {
                if v == 0 {
                    Some(0u16)
                } else {
                    Some((0x10000 - v) as u16)
                }
            } else {
                None
            },
        }),
{
    let digits = &t[1..t.len()];
    proof {
        assert(digits@ =~= t@.drop_first());
    }
    let mut acc: u32 = 0;
    let mut i: usize = 0;
    proof {
        assert(digits@.subrange(0, digits@.len() as int) =~= digits@);
    }
    while i < digits.len()
        invariant
            0 <= i <= digits@.len(),
            0 <= acc <= 32768,
            digits@ == t@.drop_first(),
            digits_val(digits@, 10, 0) == digits_val(
                digits@.subrange(i as int, digits@.len() as int),
                10,
                acc as int,
            ),
        decreases digits@.len() - i,
    {
        let ghost rest = digits@.subrange(i as int, digits@.len() as int);
        proof {
            assert(rest[0] == digits@[i as int]);
            assert(rest.drop_first() =~= digits@.subrange(i + 1, digits@.len() as int));
        }
        let c = digits[i];
        if !('0' <= c && c <= '9') {
            return None;
        }
        let d: u32 = (c as u32) - ('0' as u32);
        acc = acc * 10 + d;
        if acc > 32768 {
            proof {
                lemma_digits_val_lower(rest.drop_first(), 10, acc as int);
            }
            return None;
        }
        i = i + 1;
    }
    proof {
        assert(digits@.subrange(digits@.len() as int, digits@.len() as int)
            =~= Seq::<char>::empty());
    }
    if acc == 0 {
        Some(0)
    } else {
        Some((0x10000 - acc) as u16)
    }
}

/// The decimal fallback of the evaluator.
fn parse_dec(t: &[char]) -> (r: Option<u16>)
    ensures
        r == parse_dec_u16(t@),
{
    match parse_radix(t, 10) {
        Some(v) => Some(v),
        None => {
            if t.len() >= 2 && t[0] == '-' {
                parse_neg_dec(t)
            } else {
                None
            }
        },
    }
}

/// Evaluate a trimmed-or-untrimmed operand text against the constants.
pub fn eval_chars(s: &[char], constants: &SymTab) -> (r: Result<u16, AsmError>)
    ensures
        match r {
            Ok(v) => spec_parse_immediate(s@, constants@) == Some(v),
            Err(e) => spec_parse_immediate(s@, constants@) is None && e.kind
                == ErrKind::InvalidLiteral,
        },
    decreases s@.len(),
{
    proof {
        lemma_trim_le(s@);
    }
    let t = trim(s);
    if let Some(v) = constants.lookup(t) {
        return Ok(v);
    }
    if t.len() == 3 && t[0] == '\'' && t[2] == '\'' {
        return Ok(((t[1] as u32) & 0xFFFF) as u16);
    }
    if starts_with_str(t, "$") {
        proof {
            reveal_strlit("$");
        }
        return match parse_radix(&t[1..t.len()], 16) {
            Some(v) => Ok(v),
            None => Err(AsmError::new(ErrKind::InvalidLiteral, t)),
        };
    }
    if starts_with_str(t, "0x") {
        proof {
            reveal_strlit("0x");
        }
        return match parse_radix(&t[2..t.len()], 16) {
            Some(v) => Ok(v),
            None => Err(AsmError::new(ErrKind::InvalidLiteral, t)),
        };
    }
    if starts_with_str(t, "%") {
        proof {
            reveal_strlit("%");
        }
        return match parse_radix(&t[1..t.len()], 2) {
            Some(v) => Ok(v),
            None => Err(AsmError::new(ErrKind::InvalidLiteral, t)),
        };
    }
    if starts_with_str(t, "0b") {
        proof {
            reveal_strlit("0b");
        }
        return match parse_radix(&t[2..t.len()], 2) {
            Some(v) => Ok(v),
            None => Err(AsmError::new(ErrKind::InvalidLiteral, t)),
        };
    }
    match find(t, '+') {
        Some(i) => {
            proof {
                lemma_find_char(t@, '+');
            }
            if find(&t[i + 1..t.len()], '+').is_none() {
                let l = eval_chars(&t[0..i], constants);
                let rr = eval_chars(&t[i + 1..t.len()], constants);
                match (l, rr) {
                    (Ok(lv), Ok(rv)) => {
                        let sum: u32 = (lv as u32) + (rv as u32);
                        if sum <= 0xFFFF {
                            Ok(sum as u16)
                        } else {
                            Ok((sum - 0x10000) as u16)
                        }
                    },
                    _ => Err(AsmError::new(ErrKind::InvalidLiteral, t)),
                }
            } else {
                match parse_dec(t) {
                    Some(v) => Ok(v),
                    None => Err(AsmError::new(ErrKind::InvalidLiteral, t)),
                }
            }
        },
        None => {
            if t.len() > 0 && t[0] != '-' {
                match find(t, '-') {
                    Some(i) => {
                        proof {
                            lemma_find_char(t@, '-');
                        }
                        if find(&t[i + 1..t.len()], '-').is_none() {
                            let l = eval_chars(&t[0..i], constants);
                            let rr = eval_chars(&t[i + 1..t.len()], constants);
                            match (l, rr) {
                                (Ok(lv), Ok(rv)) => {
                                    if lv >= rv {
                                        Ok(lv - rv)
                                    } else {
                                        Ok(((lv as u32) + 0x10000 - (rv as u32)) as u16)
                                    }
                                },
                                _ => Err(AsmError::new(ErrKind::InvalidLiteral, t)),
                            }
                        } else {
                            match parse_dec(t) {
                                Some(v) => Ok(v),
                                None => Err(AsmError::new(ErrKind::InvalidLiteral, t)),
                            }
                        }
                    },
                    None => {
                        match parse_dec(t) {
                            Some(v) => Ok(v),
                            None => Err(AsmError::new(ErrKind::InvalidLiteral, t)),
                        }
                    },
                }
            } else {
                match parse_dec(t) {
                    Some(v) => Ok(v),
                    None => Err(AsmError::new(ErrKind::InvalidLiteral, t)),
                }
            }
        },
    }
}

/// Evaluate a textual operand to a 16-bit value against the constants;
/// fails with `InvalidLiteral` on malformed input.
pub fn parse_immediate(value: &str, constants: &SymTab) -> (r: Result<u16, AsmError>)
    ensures
        match r {
            Ok(v) => spec_parse_immediate(value@, constants@) == Some(v),
            Err(e) => spec_parse_immediate(value@, constants@) is None && e.kind
                == ErrKind::InvalidLiteral,
        },
{
    let chars = to_chars(value);
    eval_chars(chars.as_slice(), constants)
}


/// A jump/call/load target: a label when one of that name exists, else an
/// evaluated immediate.
pub open spec fn spec_resolve(
    t: Seq<char>,
    labels: Map<Seq<char>, u16>,
    consts: Map<Seq<char>, u16>,
) -> Option<u16> {
    if labels.contains_key(t) {
        Some(labels[t])
    } else {
        spec_parse_immediate(t, consts)
    }
}

/// Resolve a target: label address first, evaluated immediate second.
pub fn resolve(t: &[char], labels: &SymTab, consts: &SymTab) -> (r: Result<u16, AsmError>)
    ensures
        match r {
            Ok(v) => spec_resolve(t@, labels@, consts@) == Some(v),
            Err(e) => spec_resolve(t@, labels@, consts@) is None && e.kind
                == ErrKind::InvalidLiteral,
        },
{
    if let Some(v) = labels.lookup(t) {
        return Ok(v);
    }
    eval_chars(t, consts)
}

} // verus!
