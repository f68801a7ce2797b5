//! The line parser: splits one source line into an optional label, an
//! optional lower-cased mnemonic, and a raw operand string, stripping
//! comments. Also splits operand strings on top-level commas.

use vstd::prelude::*;
use crate::chars::{
    chars_to_string, chars_vec, find, find_char, find_space, find_space_at, lemma_find_char,
    lemma_find_space_at, lemma_lower_char_cases, lemma_rfind_char, rfind, rfind_char,
    spec_starts_with, spec_to_lower, spec_trim, starts_with_str, to_chars, to_lower, trim,
};

verus! {

broadcast use vstd::string::group_string_axioms;

/// One parsed source line: an optional label, an optional lower-cased
/// mnemonic, and the raw operand text.
#[derive(Debug, Clone)]
pub struct ParsedLine {
    pub label: Option<String>,
    pub mnemonic: Option<String>,
    pub operands: Option<String>,
}

/// The mathematical content of a `ParsedLine`.
pub struct LineView {
    pub label: Option<Seq<char>>,
    pub mnemonic: Option<Seq<char>>,
    pub operands: Option<Seq<char>>,
}

impl View for ParsedLine {
    type V = LineView;

    open spec fn view(&self) -> LineView {
        LineView {
            label: self.label.deep_view(),
            mnemonic: self.mnemonic.deep_view(),
            operands: self.operands.deep_view(),
        }
    }
}

/// What remains of a line once a `;` comment is stripped.
pub open spec fn strip_comment(line: Seq<char>) -> Seq<char> {
    match find_char(line, ';') {
        None => line,
        Some(i) => line.subrange(0, i),
    }
}

/// How `parse_line` reads one source line.
///
/// The comment is stripped and the rest trimmed; an empty result is no line.
/// Everything before the first `:` is the label. If the remainder starts with
/// the system-call syntax `bcall(`, case-insensitively, the mnemonic is
/// `bcall` and the operand text is what stands inside the parentheses.
/// Otherwise the mnemonic is the token up to the first whitespace,
/// lower-cased, and the operand text is everything after it, trimmed.
pub open spec fn spec_parse_line(line: Seq<char>) -> Option<LineView> {
    let t = spec_trim(strip_comment(line));
    if t.len() == 0 {
        None
    } else {
        let label = match find_char(t, ':') {
            None => None,
            Some(i) => Some(spec_trim(t.subrange(0, i))),
        };
        let rem = match find_char(t, ':') {
            None => t,
            Some(i) => spec_trim(t.subrange(i + 1, t.len() as int)),
        };
        if rem.len() == 0 {
            Some(LineView { label, mnemonic: None, operands: None })
        } else if spec_starts_with(spec_to_lower(rem), "bcall("@) {
            match find_char(rem, '(') {
                None => None,
                Some(start) => {
                    let end = match rfind_char(rem, ')') {
                        None => rem.len() as int,
                        Some(e) => e,
                    };
                    Some(
                        LineView {
                            label,
                            mnemonic: Some("bcall"@),
                            operands: Some(spec_trim(rem.subrange(start + 1, end))),
                        },
                    )
                },
            }
        } else {
            match find_space_at(rem) {
                None => Some(
                    LineView { label, mnemonic: Some(spec_to_lower(rem)), operands: None },
                ),
                Some(i) => Some(
                    LineView {
                        label,
                        mnemonic: Some(spec_to_lower(rem.subrange(0, i))),
                        operands: Some(spec_trim(rem.subrange(i, rem.len() as int))),
                    },
                ),
            }
        }
    }
}

/// Splitting an operand string on top-level commas: commas inside
/// parenthesis nesting are not split points; each piece is trimmed; a final
/// empty piece is dropped.
pub open spec fn split_ops_rec(
    s: Seq<char>,
    cur: Seq<char>,
    depth: int,
    acc: Seq<Seq<char>>,
) -> Seq<Seq<char>>
    decreases s.len(),
{
    if s.len() == 0 {
        if cur.len() > 0 {
            acc.push(spec_trim(cur))
        } else {
            acc
        }
    } else {
        let c = s[0];
        let rest = s.drop_first();
        if c == '(' {
            split_ops_rec(rest, cur.push(c), depth + 1, acc)
        } else if c == ')' {
            split_ops_rec(rest, cur.push(c), depth - 1, acc)
        } else if c == ',' && depth == 0 {
            split_ops_rec(rest, Seq::empty(), depth, acc.push(spec_trim(cur)))
        } else {
            split_ops_rec(rest, cur.push(c), depth, acc)
        }
    }
}

/// The pieces of an operand string, split on top-level commas.
pub open spec fn spec_split_operands(s: Seq<char>) -> Seq<Seq<char>> {
    split_ops_rec(s, Seq::empty(), 0, Seq::empty())
}

/// The line parser. It holds no state; one instance serves a whole run.
pub struct Parser;

impl Parser {
    pub fn new() -> Parser {
        Parser
    }

    /// Parse one source line.
    pub fn parse_line(&self, line: &str) -> (r: Option<ParsedLine>)
        ensures
            match r {
                None => spec_parse_line(line@) is None,
                Some(pl) => spec_parse_line(line@) == Some(pl@),
            },
    {
        let chars = to_chars(line);
        let v = chars.as_slice();
        let uncommented: &[char] = match find(v, ';') {
            None => v,
            Some(i) => {
                proof {
                    lemma_find_char(v@, ';');
                }
                &v[0..i]
            },
        };
        let t = trim(uncommented);
        if t.len() == 0 {
            return None;
        }
        let (label, rem): (Option<String>, &[char]) = match find(t, ':') {
            None => (None, t),
            Some(i) => {
                proof {
                    lemma_find_char(t@, ':');
                }
                let lab = trim(&t[0..i]);
                (Some(chars_to_string(lab)), trim(&t[i + 1..t.len()]))
            },
        };
        if rem.len() == 0 {
            return Some(ParsedLine { label, mnemonic: None, operands: None });
        }
        let lower = to_lower(rem);
        if starts_with_str(lower.as_slice(), "bcall(") {
            proof {
                reveal_strlit("bcall(");
                let lw = spec_to_lower(rem@);
                assert("bcall("@.len() == 6);
                assert(lw.len() == rem@.len() && lw.len() >= 6);
                assert(lw.subrange(0, 6) == "bcall("@);
                assert forall|j: int| 0 <= j < 6 implies lw[j] == "bcall("@[j] by {
                    assert(lw.subrange(0, 6)[j] == lw[j]);
                }
                lemma_lower_char_cases(rem@[5]);
                assert(lw[5] == "bcall("@[5]);
                assert(lw[5] == '(' && rem@[5] == '(');
                assert forall|j: int| 0 <= j < 5 implies rem@[j] != '(' && rem@[j] != ')' by {
                    assert(lw[j] == "bcall("@[j]);
                    lemma_lower_char_cases(rem@[j]);
                }
            }
            match find(rem, '(') {
                None => {
                    proof {
                        lemma_find_char(rem@, '(');
                        assert(false);
                    }
                    None
                },
                Some(start) => {
                    proof {
                        lemma_find_char(rem@, '(');
                        assert(start == 5);
                    }
                    let end = match rfind(rem, ')') {
                        None => rem.len(),
                        Some(e) => {
                            proof {
                                lemma_rfind_char(rem@, ')');
                            }
                            e
                        },
                    };
                    let ops = trim(&rem[start + 1..end]);
                    Some(
                        ParsedLine {
                            label,
                            mnemonic: Some(chars_to_string(to_chars("bcall").as_slice())),
                            operands: Some(chars_to_string(ops)),
                        },
                    )
                },
            }
        } else {
            match find_space(rem) {
                None => Some(
                    ParsedLine {
                        label,
                        mnemonic: Some(chars_to_string(lower.as_slice())),
                        operands: None,
                    },
                ),
                Some(i) => {
                    proof {
                        lemma_find_space_at(rem@);
                    }
                    let mn = to_lower(&rem[0..i]);
                    proof {
                        assert(mn@ =~= spec_to_lower(rem@.subrange(0, i as int)));
                    }
                    let ops = trim(&rem[i..rem.len()]);
                    Some(
                        ParsedLine {
                            label,
                            mnemonic: Some(chars_to_string(mn.as_slice())),
                            operands: Some(chars_to_string(ops)),
                        },
                    )
                },
            }
        }
    }

    /// Split an operand string on top-level commas, trimming each piece.
    pub fn split_operands(&self, operands: &str) -> (r: Vec<String>)
        ensures
            r.deep_view() == spec_split_operands(operands@),
    {
        let chars = to_chars(operands);
        let pieces = split_operands_chars(chars.as_slice());
        let mut r: Vec<String> = Vec::new();
        let mut i: usize = 0;
        while i < pieces.len()
            invariant
                0 <= i <= pieces@.len(),
                r.deep_view() =~= pieces.deep_view().subrange(0, i as int),
            decreases pieces@.len() - i,
        {
            let piece_str = chars_to_string(pieces[i].as_slice());
            proof {
                assert(piece_str.deep_view() =~= pieces.deep_view()[i as int]);
            }
            r.push(piece_str);
            proof {
                assert(r.deep_view() =~= pieces.deep_view().subrange(0, i as int).push(
                    pieces.deep_view()[i as int],
                ));
                assert(pieces.deep_view().subrange(0, i as int).push(
                    pieces.deep_view()[i as int],
                ) =~= pieces.deep_view().subrange(0, i + 1));
            }
            i = i + 1;
        }
        proof {
            assert(r.deep_view() =~~= pieces.deep_view());
        }
        r
    }
}

/// Split a character slice on top-level commas, trimming each piece.
pub fn split_operands_chars(v: &[char]) -> (r: Vec<Vec<char>>)
    ensures
        r.deep_view() == spec_split_operands(v@),
{
    let mut r: Vec<Vec<char>> = Vec::new();
    let mut cur: Vec<char> = Vec::new();
    let mut depth: i128 = 0;
    let mut i: usize = 0;
    proof {
        assert(v@.subrange(0, v@.len() as int) =~= v@);
        assert(cur@ =~= Seq::<char>::empty());
        assert(r.deep_view() =~~= Seq::<Seq<char>>::empty());
    }
    while i < v.len()
        invariant
            0 <= i <= v@.len(),
            -(i as int) <= depth <= i as int,
            spec_split_operands(v@) == split_ops_rec(
                v@.subrange(i as int, v@.len() as int),
                cur@,
                depth as int,
                r.deep_view(),
            ),
        decreases v@.len() - i,
    {
        let ghost rest = v@.subrange(i as int, v@.len() as int);
        proof {
            assert(rest[0] == v@[i as int]);
            assert(rest.drop_first() =~= v@.subrange(i + 1, v@.len() as int));
        }
        let c = v[i];
        if c == '(' {
            depth = depth + 1;
            cur.push(c);
        } else if c == ')' {
            depth = depth - 1;
            cur.push(c);
        } else if c == ',' && depth == 0 {
            let ghost old_acc = r.deep_view();
            let ghost old_cur = cur@;
            let piece = trim(cur.as_slice());
            r.push(chars_vec(piece));
            cur = Vec::new();
            proof {
                assert(r.deep_view() =~~= old_acc.push(spec_trim(old_cur)));
                assert(cur@ =~= Seq::<char>::empty());
            }
        } else {
            cur.push(c);
        }
        i = i + 1;
    }
    proof {
        assert(v@.subrange(v@.len() as int, v@.len() as int) =~= Seq::<char>::empty());
    }
    if cur.len() > 0 {
        let ghost old_acc = r.deep_view();
        let piece = trim(cur.as_slice());
        r.push(chars_vec(piece));
        proof {
            assert(r.deep_view() =~~= old_acc.push(spec_trim(cur@)));
        }
    }
    r
}

} // verus!
