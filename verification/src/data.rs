//! The data directives: `.db` emits one byte per item — every character of
//! a double-quoted string (with `\n`, `\r`, `\t` recognized), the low byte
//! of a label's address, or the low byte of an evaluated immediate — and
//! `.dw` emits each item as a little-endian 16-bit word, resolving labels
//! to full addresses.

use vstd::prelude::*;
use crate::calls::option_view;
use crate::chars::{chars_vec, eq_str, spec_trim, split_all, split_char, to_chars, trim};
use crate::error::{enc_matches, AsmError, ErrKind};
use crate::immediate::{eval_chars, resolve, spec_parse_immediate, spec_resolve};
use crate::symtab::SymTab;

verus! {

/// Splitting a `.db` operand list: commas inside double quotes are not
/// split points; each piece is trimmed; a final empty piece is dropped.
pub open spec fn split_db_rec(
    s: Seq<char>,
    cur: Seq<char>,
    in_string: bool,
    acc: Seq<Seq<char>>,
) -> Seq<Seq<char>>
    decreases s.len(),
{
    if s.len() == 0 {
        if cur.len() > 0 {
            acc.push(spec_trim(cur))
        } else {
            acc
        }
    } else {
        let c = s[0];
        let rest = s.drop_first();
        if c == '"' {
            split_db_rec(rest, cur.push(c), !in_string, acc)
        } else if c == ',' && !in_string {
            split_db_rec(rest, Seq::empty(), in_string, acc.push(spec_trim(cur)))
        } else {
            split_db_rec(rest, cur.push(c), in_string, acc)
        }
    }
}

/// The items of a `.db` operand list.
pub open spec fn spec_split_db(s: Seq<char>) -> Seq<Seq<char>> {
    split_db_rec(s, Seq::empty(), false, Seq::empty())
}

/// Split a `.db` operand list on commas outside double quotes.
pub fn parse_db_operands(v: &[char]) -> (r: Vec<Vec<char>>)
    ensures
        r.deep_view() == spec_split_db(v@),
{
    let mut r: Vec<Vec<char>> = Vec::new();
    let mut cur: Vec<char> = Vec::new();
    let mut in_string = false;
    let mut i: usize = 0;
    proof {
        assert(v@.subrange(0, v@.len() as int) =~= v@);
        assert(cur@ =~= Seq::<char>::empty());
        assert(r.deep_view() =~~= Seq::<Seq<char>>::empty());
    }
    while i < v.len()
        invariant
            0 <= i <= v@.len(),
            spec_split_db(v@) == split_db_rec(
                v@.subrange(i as int, v@.len() as int),
                cur@,
                in_string,
                r.deep_view(),
            ),
        decreases v@.len() - i,
    {
        let ghost rest = v@.subrange(i as int, v@.len() as int);
        proof {
            assert(rest[0] == v@[i as int]);
            assert(rest.drop_first() =~= v@.subrange(i + 1, v@.len() as int));
        }
        let c = v[i];
        if c == '"' {
            in_string = !in_string;
            cur.push(c);
        } else if c == ',' && !in_string {
            let ghost old_acc = r.deep_view();
            let ghost old_cur = cur@;
            let piece = trim(cur.as_slice());
            r.push(chars_vec(piece));
            cur = Vec::new();
            proof {
                assert(r.deep_view() =~~= old_acc.push(spec_trim(old_cur)));
                assert(cur@ =~= Seq::<char>::empty());
            }
        } else {
            cur.push(c);
        }
        i = i + 1;
    }
    proof {
        assert(v@.subrange(v@.len() as int, v@.len() as int) =~= Seq::<char>::empty());
    }
    if cur.len() > 0 {
        let ghost old_acc = r.deep_view();
        let piece = trim(cur.as_slice());
        r.push(chars_vec(piece));
        proof {
            assert(r.deep_view() =~~= old_acc.push(spec_trim(cur@)));
        }
    }
    r
}

/// String text with the `\n`, `\r` and `\t` escape sequences decoded.
pub open spec fn spec_unescape(s: Seq<char>) -> Seq<char>
    decreases s.len(),
{
    if s.len() == 0 {
        Seq::empty()
    } else if s.len() >= 2 && s[0] == '\\' && (s[1] == 'n' || s[1] == 'r' || s[1] == 't') {
        let c = if s[1] == 'n' {
            '\n'
        } else if s[1] == 'r' {
            '\r'
        } else {
            '\t'
        };
        seq![c] + spec_unescape(s.subrange(2, s.len() as int))
    } else {
        seq![s[0]] + spec_unescape(s.drop_first())
    }
}

/// Decode the escape sequences of a quoted string's text.
pub fn unescape(v: &[char]) -> (r: Vec<char>)
    ensures
        r@ == spec_unescape(v@),
{
    let mut r: Vec<char> = Vec::new();
    let mut i: usize = 0;
    proof {
        assert(v@.subrange(0, v@.len() as int) =~= v@);
        assert(r@ + spec_unescape(v@) =~= spec_unescape(v@));
    }
    while i < v.len()
        invariant
            0 <= i <= v@.len(),
            spec_unescape(v@) == r@ + spec_unescape(v@.subrange(i as int, v@.len() as int)),
        decreases v@.len() - i,
    {
        let ghost rest = v@.subrange(i as int, v@.len() as int);
        proof {
            assert(rest[0] == v@[i as int]);
            if rest.len() >= 2 {
                assert(rest[1] == v@[i + 1]);
            }
            assert(rest.drop_first() =~= v@.subrange(i + 1, v@.len() as int));
            if rest.len() >= 2 {
                assert(rest.subrange(2, rest.len() as int) =~= v@.subrange(
                    i + 2,
                    v@.len() as int,
                ));
            }
        }
        let c = v[i];
        if c == '\\' && i + 1 < v.len() && (v[i + 1] == 'n' || v[i + 1] == 'r' || v[i + 1]
            == 't') {
            let e = if v[i + 1] == 'n' {
                '\n'
            } else if v[i + 1] == 'r' {
                '\r'
            } else {
                '\t'
            };
            r.push(e);
            proof {
                assert(spec_unescape(v@) =~= r@ + spec_unescape(
                    v@.subrange(i + 2, v@.len() as int),
                ));
            }
            i = i + 2;
        } else {
            r.push(c);
            proof {
                assert(spec_unescape(v@) =~= r@ + spec_unescape(
                    v@.subrange(i + 1, v@.len() as int),
                ));
            }
            i = i + 1;
        }
    }
    proof {
        assert(v@.subrange(v@.len() as int, v@.len() as int) =~= Seq::<char>::empty());
        assert(spec_unescape(v@) =~= r@);
    }
    r
}

/// The low byte a character contributes to the output.
pub open spec fn char_byte(c: char) -> u8 {
    ((c as u32) & 0xFF) as u8
}

/// Whether a `.db` item is a double-quoted string.
pub open spec fn is_quoted(p: Seq<char>) -> bool {
    p.len() >= 2 && p[0] == '"' && p.last() == '"'
}

/// The bytes one `.db` item denotes.
pub open spec fn spec_db_item(
    p: Seq<char>,
    labels: Map<Seq<char>, u16>,
    consts: Map<Seq<char>, u16>,
) -> Result<Seq<u8>, ErrKind> {
    if is_quoted(p) {
        let u = spec_unescape(p.subrange(1, p.len() - 1));
        Ok(Seq::new(u.len(), |i: int| char_byte(u[i])))
    } else if labels.contains_key(p) {
        Ok(seq![(labels[p] & 0xff) as u8])
    } else {
        match spec_parse_immediate(p, consts) {
            None => Err(ErrKind::InvalidLiteral),
            Some(v) => Ok(seq![(v & 0xff) as u8]),
        }
    }
}

/// The bytes of a list of `.db` items; the first failure aborts.
pub open spec fn spec_db_items(
    ps: Seq<Seq<char>>,
    labels: Map<Seq<char>, u16>,
    consts: Map<Seq<char>, u16>,
) -> Result<Seq<u8>, ErrKind>
    decreases ps.len(),
{
    if ps.len() == 0 {
        Ok(Seq::empty())
    } else {
        match spec_db_item(ps[0], labels, consts) {
            Err(k) => Err(k),
            Ok(b) => match spec_db_items(ps.drop_first(), labels, consts) {
                Err(k) => Err(k),
                Ok(rest) => Ok(b + rest),
            },
        }
    }
}

/// The byte count one `.db` item occupies: the decoded length of a quoted
/// string, one byte otherwise.
pub open spec fn spec_db_item_size(p: Seq<char>) -> int {
    if is_quoted(p) {
        spec_unescape(p.subrange(1, p.len() - 1)).len() as int
    } else {
        1
    }
}

/// The byte count of a list of `.db` items.
pub open spec fn spec_db_items_size(ps: Seq<Seq<char>>) -> int
    decreases ps.len(),
{
    if ps.len() == 0 {
        0
    } else {
        spec_db_item_size(ps[0]) + spec_db_items_size(ps.drop_first())
    }
}

/// The byte count a `.db` directive occupies.
pub open spec fn spec_db_size(o: Seq<char>) -> int {
    spec_db_items_size(spec_split_db(o))
}

/// The byte count a `.dw` directive occupies: two bytes per item.
pub open spec fn spec_dw_size(o: Seq<char>) -> int {
    split_char(o, ',').len() * 2int
}

/// The bytes of a list of `.dw` items, little-endian words; the first
/// failure aborts.
pub open spec fn spec_dw_items(
    ps: Seq<Seq<char>>,
    labels: Map<Seq<char>, u16>,
    consts: Map<Seq<char>, u16>,
) -> Result<Seq<u8>, ErrKind>
    decreases ps.len(),
{
    if ps.len() == 0 {
        Ok(Seq::empty())
    } else {
        match spec_resolve(spec_trim(ps[0]), labels, consts) {
            None => Err(ErrKind::InvalidLiteral),
            Some(w) => match spec_dw_items(ps.drop_first(), labels, consts) {
                Err(k) => Err(k),
                Ok(rest) => Ok(seq![(w & 0xff) as u8, ((w >> 8) & 0xff) as u8] + rest),
            },
        }
    }
}

/// How the data-directive family encodes, declines or fails a directive.
pub open spec fn spec_data(
    mn: Seq<char>,
    ops: Option<Seq<char>>,
    labels: Map<Seq<char>, u16>,
    consts: Map<Seq<char>, u16>,
) -> Result<Option<Seq<u8>>, ErrKind> {
    if mn == ".db"@ {
        match ops {
            None => Ok(None),
            Some(o) => match spec_db_items(spec_split_db(o), labels, consts) {
                Err(k) => Err(k),
                Ok(b) => Ok(Some(b)),
            },
        }
    } else if mn == ".dw"@ {
        match ops {
            None => Ok(None),
            Some(o) => match spec_dw_items(split_char(o, ','), labels, consts) {
                Err(k) => Err(k),
                Ok(b) => Ok(Some(b)),
            },
        }
    } else {
        Ok(None)
    }
}

/// Append the bytes of one `.db` item.
fn push_db_item(out: &mut Vec<u8>, p: &[char], labels: &SymTab, constants: &SymTab) -> (r: Result<
    (),
    AsmError,
>)
    ensures
        match r {
            Ok(()) => spec_db_item(p@, labels@, constants@) is Ok && final(out)@ == old(out)@
                + spec_db_item(p@, labels@, constants@)->Ok_0,
            Err(e) => spec_db_item(p@, labels@, constants@) == Err::<Seq<u8>, ErrKind>(e.kind)
                && final(out)@ == old(out)@,
        },
{
    if p.len() >= 2 && p[0] == '"' && p[p.len() - 1] == '"' {
        proof {
            assert(p@.last() == p@[p@.len() - 1]);
        }
        let u = unescape(&p[1..p.len() - 1]);
        let ghost target = spec_db_item(p@, labels@, constants@)->Ok_0;
        let mut i: usize = 0;
        proof {
            assert(u@ =~= spec_unescape(p@.subrange(1, p@.len() - 1)));
            assert(target.len() == u@.len());
        }
        while i < u.len()
            invariant
                0 <= i <= u@.len(),
                target.len() == u@.len(),
                forall|j: int| 0 <= j < u@.len() ==> target[j] == char_byte(u@[j]),
                out@ == old(out)@ + target.subrange(0, i as int),
            decreases u@.len() - i,
        {
            out.push(((u[i] as u32) & 0xFF) as u8);
            proof {
                assert(out@ =~= old(out)@ + target.subrange(0, i + 1));
            }
            i = i + 1;
        }
        proof {
            assert(out@ =~= old(out)@ + target);
        }
        Ok(())
    } else if let Some(addr) = labels.lookup(p) {
        out.push((addr & 0xff) as u8);
        proof {
            assert(out@ =~= old(out)@ + seq![(addr & 0xff) as u8]);
        }
        Ok(())
    } else {
        match eval_chars(p, constants) {
            Err(e) => Err(e),
            Ok(v) => {
                out.push((v & 0xff) as u8);
                proof {
                    assert(out@ =~= old(out)@ + seq![(v & 0xff) as u8]);
                }
                Ok(())
            },
        }
    }
}

/// Encode a `.db` or `.dw` directive, or decline.
pub fn handle_data_directive(
    mnemonic: &str,
    operands: Option<&str>,
    labels: &SymTab,
    constants: &SymTab,
) -> (r: Result<Option<Vec<u8>>, AsmError>)
    ensures
        enc_matches(r, spec_data(mnemonic@, option_view(operands), labels@, constants@)),
{
    let mn = to_chars(mnemonic);
    if eq_str(mn.as_slice(), ".db") {
        let ops = match operands {
            None => {
                return Ok(None);
            },
            Some(ops) => ops,
        };
        let o = to_chars(ops);
        let pieces = parse_db_operands(o.as_slice());
        let ghost all = pieces.deep_view();
        let mut out: Vec<u8> = Vec::new();
        let mut i: usize = 0;
        proof {
            assert(all.subrange(0, all.len() as int) =~= all);
            assert(out@ + Seq::<u8>::empty() =~= out@);
        }
        while i < pieces.len()
            invariant
                0 <= i <= all.len(),
                all.len() == pieces@.len(),
                all == pieces.deep_view(),
                mnemonic@ == ".db"@,
                option_view(operands) == Some(o@),
                all == spec_split_db(o@),
                spec_db_items(all, labels@, constants@) == (match spec_db_items(
                    all.subrange(i as int, all.len() as int),
                    labels@,
                    constants@,
                ) {
                    Err(k) => Err::<Seq<u8>, ErrKind>(k),
                    Ok(rest) => Ok(out@ + rest),
                }),
            decreases all.len() - i,
        {
            let ghost rest_ps = all.subrange(i as int, all.len() as int);
            proof {
                assert(rest_ps[0] == all[i as int]);
                assert(all[i as int] == pieces@[i as int]@);
                assert(rest_ps.drop_first() =~= all.subrange(i + 1, all.len() as int));
            }
            match push_db_item(&mut out, pieces[i].as_slice(), labels, constants) {
                Err(e) => {
                    return Err(e);
                },
                Ok(()) => {},
            }
            proof {
                match spec_db_items(all.subrange(i + 1, all.len() as int), labels@, constants@) {
                    Err(k) => {},
                    Ok(rest) => {
                        assert(out@ + rest =~= (out@ + rest));
                        assert((spec_db_items(all, labels@, constants@))->Ok_0 =~= out@ + rest);
                    },
                }
            }
            i = i + 1;
        }
        proof {
            assert(all.subrange(all.len() as int, all.len() as int) =~= Seq::<Seq<char>>::empty());
            assert(out@ + Seq::<u8>::empty() =~= out@);
        }
        Ok(Some(out))
    } else if eq_str(mn.as_slice(), ".dw") {
        let ops = match operands {
            None => {
                return Ok(None);
            },
            Some(ops) => ops,
        };
        let o = to_chars(ops);
        let pieces = split_all(o.as_slice(), ',');
        let ghost all = pieces.deep_view();
        let mut out: Vec<u8> = Vec::new();
        let mut i: usize = 0;
        proof {
            assert(all.subrange(0, all.len() as int) =~= all);
            assert(out@ + Seq::<u8>::empty() =~= out@);
        }
        while i < pieces.len()
            invariant
                0 <= i <= all.len(),
                all.len() == pieces@.len(),
                all == pieces.deep_view(),
                mnemonic@ == ".dw"@,
                option_view(operands) == Some(o@),
                all == split_char(o@, ','),
                spec_dw_items(all, labels@, constants@) == (match spec_dw_items(
                    all.subrange(i as int, all.len() as int),
                    labels@,
                    constants@,
                ) {
                    Err(k) => Err::<Seq<u8>, ErrKind>(k),
                    Ok(rest) => Ok(out@ + rest),
                }),
            decreases all.len() - i,
        {
            let ghost rest_ps = all.subrange(i as int, all.len() as int);
            proof {
                assert(rest_ps[0] == all[i as int]);
                assert(all[i as int] == pieces@[i as int]@);
                assert(rest_ps.drop_first() =~= all.subrange(i + 1, all.len() as int));
            }
            let t = trim(pieces[i].as_slice());
            let w = match resolve(t, labels, constants) {
                Err(e) => {
                    proof {
                        reveal_strlit(".db");
                        reveal_strlit(".dw");
                        assert(".db"@[2] == 'b' && ".dw"@[2] == 'w');
                        assert(mnemonic@ != ".db"@);
                        assert(spec_resolve(spec_trim(rest_ps[0]), labels@, constants@) is None);
                        assert(spec_dw_items(rest_ps, labels@, constants@) == Err::<
                            Seq<u8>,
                            ErrKind,
                        >(ErrKind::InvalidLiteral));
                    }
                    return Err(e);
                },
                Ok(w) => w,
            };
            out.push((w & 0xff) as u8);
            out.push(((w >> 8) & 0xff) as u8);
            proof {
                match spec_dw_items(all.subrange(i + 1, all.len() as int), labels@, constants@) {
                    Err(k) => {},
                    Ok(rest) => {
                        assert((spec_dw_items(all, labels@, constants@))->Ok_0 =~= out@ + rest);
                    },
                }
            }
            i = i + 1;
        }
        proof {
            assert(all.subrange(all.len() as int, all.len() as int) =~= Seq::<Seq<char>>::empty());
            assert(out@ + Seq::<u8>::empty() =~= out@);
        }
        Ok(Some(out))
    } else {
        Ok(None)
    }
}

/// The byte count a data directive will occupy, from its operand text
/// alone.
pub fn estimate_data_size(mnemonic: &str, operands: &str) -> (r: usize)
    ensures
        mnemonic@ == ".db"@ ==> r as int == spec_db_size(operands@),
        mnemonic@ == ".dw"@ ==> r as int == spec_dw_size(operands@),
        mnemonic@ != ".db"@ && mnemonic@ != ".dw"@ ==> r == 0,
{
    let mn = to_chars(mnemonic);
    proof {
        reveal_strlit(".db");
        reveal_strlit(".dw");
        assert(".db"@[2] == 'b' && ".dw"@[2] == 'w');
        assert(".db"@ != ".dw"@);
    }
    if eq_str(mn.as_slice(), ".db") {
        let o = to_chars(operands);
        let pieces = parse_db_operands(o.as_slice());
        let ghost all = pieces.deep_view();
        let mut buf: Vec<u8> = Vec::new();
        let mut i: usize = 0;
        proof {
            assert(all.subrange(0, all.len() as int) =~= all);
        }
        while i < pieces.len()
            invariant
                0 <= i <= all.len(),
                all.len() == pieces@.len(),
                all == pieces.deep_view(),
                buf@.len() + spec_db_items_size(all.subrange(i as int, all.len() as int))
                    == spec_db_size(o@),
            decreases all.len() - i,
        {
            let ghost rest_ps = all.subrange(i as int, all.len() as int);
            proof {
                assert(rest_ps[0] == all[i as int]);
                assert(all[i as int] == pieces@[i as int]@);
                assert(rest_ps.drop_first() =~= all.subrange(i + 1, all.len() as int));
            }
            let p = pieces[i].as_slice();
            if p.len() >= 2 && p[0] == '"' && p[p.len() - 1] == '"' {
                proof {
                    assert(p@.last() == p@[p@.len() - 1]);
                }
                let u = unescape(&p[1..p.len() - 1]);
                let ghost old_len = buf@.len();
                proof {
                    assert(spec_db_item_size(p@) == u@.len());
                }
                let mut k: usize = 0;
                while k < u.len()
                    invariant
                        0 <= k <= u@.len(),
                        buf@.len() == old_len + k,
                    decreases u@.len() - k,
                {
                    buf.push(0);
                    k = k + 1;
                }
            } else {
                buf.push(0);
            }
            i = i + 1;
        }
        proof {
            assert(all.subrange(all.len() as int, all.len() as int) =~= Seq::<Seq<char>>::empty());
        }
        buf.len()
    } else if eq_str(mn.as_slice(), ".dw") {
        let o = to_chars(operands);
        let pieces = split_all(o.as_slice(), ',');
        let ghost all = pieces.deep_view();
        let mut buf: Vec<u8> = Vec::new();
        let mut i: usize = 0;
        while i < pieces.len()
            invariant
                0 <= i <= all.len(),
                all.len() == pieces@.len(),
                all == pieces.deep_view(),
                buf@.len() == 2 * i,
            decreases all.len() - i,
        {
            buf.push(0);
            buf.push(0);
            i = i + 1;
        }
        buf.len()
    } else {
        0
    }
}

} // verus!
