//! The laws of the assembler, stated and proved over the specification
//! functions: the size estimator agrees with the encoders on every line that
//! encodes; a label resolves through the completed table wherever it is
//! used; the relative-jump range check fails exactly outside the signed
//! 8-bit range; and an assembly's outcome is a function of the source text
//! alone.

use vstd::prelude::*;
use crate::arithmetic::spec_arith;
use crate::assembler::{
    lemma_arith_mn, lemma_bit_mn, lemma_block_mn, lemma_named_mn, spec_assemble, spec_encode,
    spec_estimate, spec_index_size, spec_load_size,
};
use crate::bitops::spec_bit;
use crate::calls::{spec_call, spec_cond_target};
use crate::chars::{
    contains_sub, find_sub, lemma_find_char, lemma_find_sub, spec_trim, split_char,
};
use crate::data::{spec_data, spec_db_items, spec_db_items_size, spec_dw_items, spec_split_db};
use crate::error::ErrKind;
use crate::immediate::spec_resolve;
use crate::index::spec_index;
use crate::io::spec_io;
use crate::jumps::{rel_in_range, rel_offset, spec_jump};
use crate::loads::spec_load;

verus! {

/// The mnemonics the driver treats specially are pairwise distinct.
#[verifier::rlimit(100)]
pub proof fn lemma_mnemonic_literals()
    ensures
        ".org"@ != ".end"@,
        ".org"@ != ".equ"@,
        ".org"@ != ".db"@,
        ".org"@ != ".dw"@,
        ".org"@ != "bcall"@,
        ".org"@ != "push"@,
        ".org"@ != "pop"@,
        ".org"@ != "ld"@,
        ".org"@ != "inc"@,
        ".org"@ != "dec"@,
        ".org"@ != "add"@,
        ".org"@ != "ex"@,
        ".org"@ != "jp"@,
        ".org"@ != "jr"@,
        ".org"@ != "djnz"@,
        ".org"@ != "call"@,
        ".org"@ != "ret"@,
        ".org"@ != "in"@,
        ".org"@ != "out"@,
        ".org"@ != "reti"@,
        ".org"@ != "retn"@,
        ".end"@ != ".equ"@,
        ".end"@ != ".db"@,
        ".end"@ != ".dw"@,
        ".end"@ != "bcall"@,
        ".end"@ != "push"@,
        ".end"@ != "pop"@,
        ".end"@ != "ld"@,
        ".end"@ != "inc"@,
        ".end"@ != "dec"@,
        ".end"@ != "add"@,
        ".end"@ != "ex"@,
        ".end"@ != "jp"@,
        ".end"@ != "jr"@,
        ".end"@ != "djnz"@,
        ".end"@ != "call"@,
        ".end"@ != "ret"@,
        ".end"@ != "in"@,
        ".end"@ != "out"@,
        ".end"@ != "reti"@,
        ".end"@ != "retn"@,
        ".equ"@ != ".db"@,
        ".equ"@ != ".dw"@,
        ".equ"@ != "bcall"@,
        ".equ"@ != "push"@,
        ".equ"@ != "pop"@,
        ".equ"@ != "ld"@,
        ".equ"@ != "inc"@,
        ".equ"@ != "dec"@,
        ".equ"@ != "add"@,
        ".equ"@ != "ex"@,
        ".equ"@ != "jp"@,
        ".equ"@ != "jr"@,
        ".equ"@ != "djnz"@,
        ".equ"@ != "call"@,
        ".equ"@ != "ret"@,
        ".equ"@ != "in"@,
        ".equ"@ != "out"@,
        ".equ"@ != "reti"@,
        ".equ"@ != "retn"@,
        ".db"@ != ".dw"@,
        ".db"@ != "bcall"@,
        ".db"@ != "push"@,
        ".db"@ != "pop"@,
        ".db"@ != "ld"@,
        ".db"@ != "inc"@,
        ".db"@ != "dec"@,
        ".db"@ != "add"@,
        ".db"@ != "ex"@,
        ".db"@ != "jp"@,
        ".db"@ != "jr"@,
        ".db"@ != "djnz"@,
        ".db"@ != "call"@,
        ".db"@ != "ret"@,
        ".db"@ != "in"@,
        ".db"@ != "out"@,
        ".db"@ != "reti"@,
        ".db"@ != "retn"@,
        ".dw"@ != "bcall"@,
        ".dw"@ != "push"@,
        ".dw"@ != "pop"@,
        ".dw"@ != "ld"@,
        ".dw"@ != "inc"@,
        ".dw"@ != "dec"@,
        ".dw"@ != "add"@,
        ".dw"@ != "ex"@,
        ".dw"@ != "jp"@,
        ".dw"@ != "jr"@,
        ".dw"@ != "djnz"@,
        ".dw"@ != "call"@,
        ".dw"@ != "ret"@,
        ".dw"@ != "in"@,
        ".dw"@ != "out"@,
        ".dw"@ != "reti"@,
        ".dw"@ != "retn"@,
        "bcall"@ != "push"@,
        "bcall"@ != "pop"@,
        "bcall"@ != "ld"@,
        "bcall"@ != "inc"@,
        "bcall"@ != "dec"@,
        "bcall"@ != "add"@,
        "bcall"@ != "ex"@,
        "bcall"@ != "jp"@,
        "bcall"@ != "jr"@,
        "bcall"@ != "djnz"@,
        "bcall"@ != "call"@,
        "bcall"@ != "ret"@,
        "bcall"@ != "in"@,
        "bcall"@ != "out"@,
        "bcall"@ != "reti"@,
        "bcall"@ != "retn"@,
        "push"@ != "pop"@,
        "push"@ != "ld"@,
        "push"@ != "inc"@,
        "push"@ != "dec"@,
        "push"@ != "add"@,
        "push"@ != "ex"@,
        "push"@ != "jp"@,
        "push"@ != "jr"@,
        "push"@ != "djnz"@,
        "push"@ != "call"@,
        "push"@ != "ret"@,
        "push"@ != "in"@,
        "push"@ != "out"@,
        "push"@ != "reti"@,
        "push"@ != "retn"@,
        "pop"@ != "ld"@,
        "pop"@ != "inc"@,
        "pop"@ != "dec"@,
        "pop"@ != "add"@,
        "pop"@ != "ex"@,
        "pop"@ != "jp"@,
        "pop"@ != "jr"@,
        "pop"@ != "djnz"@,
        "pop"@ != "call"@,
        "pop"@ != "ret"@,
        "pop"@ != "in"@,
        "pop"@ != "out"@,
        "pop"@ != "reti"@,
        "pop"@ != "retn"@,
        "ld"@ != "inc"@,
        "ld"@ != "dec"@,
        "ld"@ != "add"@,
        "ld"@ != "ex"@,
        "ld"@ != "jp"@,
        "ld"@ != "jr"@,
        "ld"@ != "djnz"@,
        "ld"@ != "call"@,
        "ld"@ != "ret"@,
        "ld"@ != "in"@,
        "ld"@ != "out"@,
        "ld"@ != "reti"@,
        "ld"@ != "retn"@,
        "inc"@ != "dec"@,
        "inc"@ != "add"@,
        "inc"@ != "ex"@,
        "inc"@ != "jp"@,
        "inc"@ != "jr"@,
        "inc"@ != "djnz"@,
        "inc"@ != "call"@,
        "inc"@ != "ret"@,
        "inc"@ != "in"@,
        "inc"@ != "out"@,
        "inc"@ != "reti"@,
        "inc"@ != "retn"@,
        "dec"@ != "add"@,
        "dec"@ != "ex"@,
        "dec"@ != "jp"@,
        "dec"@ != "jr"@,
        "dec"@ != "djnz"@,
        "dec"@ != "call"@,
        "dec"@ != "ret"@,
        "dec"@ != "in"@,
        "dec"@ != "out"@,
        "dec"@ != "reti"@,
        "dec"@ != "retn"@,
        "add"@ != "ex"@,
        "add"@ != "jp"@,
        "add"@ != "jr"@,
        "add"@ != "djnz"@,
        "add"@ != "call"@,
        "add"@ != "ret"@,
        "add"@ != "in"@,
        "add"@ != "out"@,
        "add"@ != "reti"@,
        "add"@ != "retn"@,
        "ex"@ != "jp"@,
        "ex"@ != "jr"@,
        "ex"@ != "djnz"@,
        "ex"@ != "call"@,
        "ex"@ != "ret"@,
        "ex"@ != "in"@,
        "ex"@ != "out"@,
        "ex"@ != "reti"@,
        "ex"@ != "retn"@,
        "jp"@ != "jr"@,
        "jp"@ != "djnz"@,
        "jp"@ != "call"@,
        "jp"@ != "ret"@,
        "jp"@ != "in"@,
        "jp"@ != "out"@,
        "jp"@ != "reti"@,
        "jp"@ != "retn"@,
        "jr"@ != "djnz"@,
        "jr"@ != "call"@,
        "jr"@ != "ret"@,
        "jr"@ != "in"@,
        "jr"@ != "out"@,
        "jr"@ != "reti"@,
        "jr"@ != "retn"@,
        "djnz"@ != "call"@,
        "djnz"@ != "ret"@,
        "djnz"@ != "in"@,
        "djnz"@ != "out"@,
        "djnz"@ != "reti"@,
        "djnz"@ != "retn"@,
        "call"@ != "ret"@,
        "call"@ != "in"@,
        "call"@ != "out"@,
        "call"@ != "reti"@,
        "call"@ != "retn"@,
        "ret"@ != "in"@,
        "ret"@ != "out"@,
        "ret"@ != "reti"@,
        "ret"@ != "retn"@,
        "in"@ != "out"@,
        "in"@ != "reti"@,
        "in"@ != "retn"@,
        "out"@ != "reti"@,
        "out"@ != "retn"@,
        "reti"@ != "retn"@,
{
    reveal_strlit(".org");
    reveal_strlit(".end");
    reveal_strlit(".equ");
    reveal_strlit(".db");
    reveal_strlit(".dw");
    reveal_strlit("bcall");
    reveal_strlit("push");
    reveal_strlit("pop");
    reveal_strlit("ld");
    reveal_strlit("inc");
    reveal_strlit("dec");
    reveal_strlit("add");
    reveal_strlit("ex");
    reveal_strlit("jp");
    reveal_strlit("jr");
    reveal_strlit("djnz");
    reveal_strlit("call");
    reveal_strlit("ret");
    reveal_strlit("in");
    reveal_strlit("out");
    reveal_strlit("reti");
    reveal_strlit("retn");
    assert(".org"@.len() == 4);
    assert(".end"@.len() == 4);
    assert(".equ"@.len() == 4);
    assert(".db"@.len() == 3);
    assert(".dw"@.len() == 3);
    assert("bcall"@.len() == 5);
    assert("push"@.len() == 4);
    assert("pop"@.len() == 3);
    assert("ld"@.len() == 2);
    assert("inc"@.len() == 3);
    assert("dec"@.len() == 3);
    assert("add"@.len() == 3);
    assert("ex"@.len() == 2);
    assert("jp"@.len() == 2);
    assert("jr"@.len() == 2);
    assert("djnz"@.len() == 4);
    assert("call"@.len() == 4);
    assert("ret"@.len() == 3);
    assert("in"@.len() == 2);
    assert("out"@.len() == 3);
    assert("reti"@.len() == 4);
    assert("retn"@.len() == 4);
    assert(".org"@[1] == 'o' && ".end"@[1] == 'e');
    assert(".org"@[1] == 'o' && ".equ"@[1] == 'e');
    assert(".org"@[0] == '.' && "push"@[0] == 'p');
    assert(".org"@[0] == '.' && "djnz"@[0] == 'd');
    assert(".org"@[0] == '.' && "call"@[0] == 'c');
    assert(".org"@[0] == '.' && "reti"@[0] == 'r');
    assert(".org"@[0] == '.' && "retn"@[0] == 'r');
    assert(".end"@[2] == 'n' && ".equ"@[2] == 'q');
    assert(".end"@[0] == '.' && "push"@[0] == 'p');
    assert(".end"@[0] == '.' && "djnz"@[0] == 'd');
    assert(".end"@[0] == '.' && "call"@[0] == 'c');
    assert(".end"@[0] == '.' && "reti"@[0] == 'r');
    assert(".end"@[0] == '.' && "retn"@[0] == 'r');
    assert(".equ"@[0] == '.' && "push"@[0] == 'p');
    assert(".equ"@[0] == '.' && "djnz"@[0] == 'd');
    assert(".equ"@[0] == '.' && "call"@[0] == 'c');
    assert(".equ"@[0] == '.' && "reti"@[0] == 'r');
    assert(".equ"@[0] == '.' && "retn"@[0] == 'r');
    assert(".db"@[2] == 'b' && ".dw"@[2] == 'w');
    assert(".db"@[0] == '.' && "pop"@[0] == 'p');
    assert(".db"@[0] == '.' && "inc"@[0] == 'i');
    assert(".db"@[0] == '.' && "dec"@[0] == 'd');
    assert(".db"@[0] == '.' && "add"@[0] == 'a');
    assert(".db"@[0] == '.' && "ret"@[0] == 'r');
    assert(".db"@[0] == '.' && "out"@[0] == 'o');
    assert(".dw"@[0] == '.' && "pop"@[0] == 'p');
    assert(".dw"@[0] == '.' && "inc"@[0] == 'i');
    assert(".dw"@[0] == '.' && "dec"@[0] == 'd');
    assert(".dw"@[0] == '.' && "add"@[0] == 'a');
    assert(".dw"@[0] == '.' && "ret"@[0] == 'r');
    assert(".dw"@[0] == '.' && "out"@[0] == 'o');
    assert("push"@[0] == 'p' && "djnz"@[0] == 'd');
    assert("push"@[0] == 'p' && "call"@[0] == 'c');
    assert("push"@[0] == 'p' && "reti"@[0] == 'r');
    assert("push"@[0] == 'p' && "retn"@[0] == 'r');
    assert("pop"@[0] == 'p' && "inc"@[0] == 'i');
    assert("pop"@[0] == 'p' && "dec"@[0] == 'd');
    assert("pop"@[0] == 'p' && "add"@[0] == 'a');
    assert("pop"@[0] == 'p' && "ret"@[0] == 'r');
    assert("pop"@[0] == 'p' && "out"@[0] == 'o');
    assert("ld"@[0] == 'l' && "ex"@[0] == 'e');
    assert("ld"@[0] == 'l' && "jp"@[0] == 'j');
    assert("ld"@[0] == 'l' && "jr"@[0] == 'j');
    assert("ld"@[0] == 'l' && "in"@[0] == 'i');
    assert("inc"@[0] == 'i' && "dec"@[0] == 'd');
    assert("inc"@[0] == 'i' && "add"@[0] == 'a');
    assert("inc"@[0] == 'i' && "ret"@[0] == 'r');
    assert("inc"@[0] == 'i' && "out"@[0] == 'o');
    assert("dec"@[0] == 'd' && "add"@[0] == 'a');
    assert("dec"@[0] == 'd' && "ret"@[0] == 'r');
    assert("dec"@[0] == 'd' && "out"@[0] == 'o');
    assert("add"@[0] == 'a' && "ret"@[0] == 'r');
    assert("add"@[0] == 'a' && "out"@[0] == 'o');
    assert("ex"@[0] == 'e' && "jp"@[0] == 'j');
    assert("ex"@[0] == 'e' && "jr"@[0] == 'j');
    assert("ex"@[0] == 'e' && "in"@[0] == 'i');
    assert("jp"@[1] == 'p' && "jr"@[1] == 'r');
    assert("jp"@[0] == 'j' && "in"@[0] == 'i');
    assert("jr"@[0] == 'j' && "in"@[0] == 'i');
    assert("djnz"@[0] == 'd' && "call"@[0] == 'c');
    assert("djnz"@[0] == 'd' && "reti"@[0] == 'r');
    assert("djnz"@[0] == 'd' && "retn"@[0] == 'r');
    assert("call"@[0] == 'c' && "reti"@[0] == 'r');
    assert("call"@[0] == 'c' && "retn"@[0] == 'r');
    assert("ret"@[0] == 'r' && "out"@[0] == 'o');
    assert("reti"@[3] == 'i' && "retn"@[3] == 'n');
    assert(".org"@ != ".end"@);
    assert(".org"@ != ".equ"@);
    assert(".org"@ != ".db"@);
    assert(".org"@ != ".dw"@);
    assert(".org"@ != "bcall"@);
    assert(".org"@ != "push"@);
    assert(".org"@ != "pop"@);
    assert(".org"@ != "ld"@);
    assert(".org"@ != "inc"@);
    assert(".org"@ != "dec"@);
    assert(".org"@ != "add"@);
    assert(".org"@ != "ex"@);
    assert(".org"@ != "jp"@);
    assert(".org"@ != "jr"@);
    assert(".org"@ != "djnz"@);
    assert(".org"@ != "call"@);
    assert(".org"@ != "ret"@);
    assert(".org"@ != "in"@);
    assert(".org"@ != "out"@);
    assert(".org"@ != "reti"@);
    assert(".org"@ != "retn"@);
    assert(".end"@ != ".equ"@);
    assert(".end"@ != ".db"@);
    assert(".end"@ != ".dw"@);
    assert(".end"@ != "bcall"@);
    assert(".end"@ != "push"@);
    assert(".end"@ != "pop"@);
    assert(".end"@ != "ld"@);
    assert(".end"@ != "inc"@);
    assert(".end"@ != "dec"@);
    assert(".end"@ != "add"@);
    assert(".end"@ != "ex"@);
    assert(".end"@ != "jp"@);
    assert(".end"@ != "jr"@);
    assert(".end"@ != "djnz"@);
    assert(".end"@ != "call"@);
    assert(".end"@ != "ret"@);
    assert(".end"@ != "in"@);
    assert(".end"@ != "out"@);
    assert(".end"@ != "reti"@);
    assert(".end"@ != "retn"@);
    assert(".equ"@ != ".db"@);
    assert(".equ"@ != ".dw"@);
    assert(".equ"@ != "bcall"@);
    assert(".equ"@ != "push"@);
    assert(".equ"@ != "pop"@);
    assert(".equ"@ != "ld"@);
    assert(".equ"@ != "inc"@);
    assert(".equ"@ != "dec"@);
    assert(".equ"@ != "add"@);
    assert(".equ"@ != "ex"@);
    assert(".equ"@ != "jp"@);
    assert(".equ"@ != "jr"@);
    assert(".equ"@ != "djnz"@);
    assert(".equ"@ != "call"@);
    assert(".equ"@ != "ret"@);
    assert(".equ"@ != "in"@);
    assert(".equ"@ != "out"@);
    assert(".equ"@ != "reti"@);
    assert(".equ"@ != "retn"@);
    assert(".db"@ != ".dw"@);
    assert(".db"@ != "bcall"@);
    assert(".db"@ != "push"@);
    assert(".db"@ != "pop"@);
    assert(".db"@ != "ld"@);
    assert(".db"@ != "inc"@);
    assert(".db"@ != "dec"@);
    assert(".db"@ != "add"@);
    assert(".db"@ != "ex"@);
    assert(".db"@ != "jp"@);
    assert(".db"@ != "jr"@);
    assert(".db"@ != "djnz"@);
    assert(".db"@ != "call"@);
    assert(".db"@ != "ret"@);
    assert(".db"@ != "in"@);
    assert(".db"@ != "out"@);
    assert(".db"@ != "reti"@);
    assert(".db"@ != "retn"@);
    assert(".dw"@ != "bcall"@);
    assert(".dw"@ != "push"@);
    assert(".dw"@ != "pop"@);
    assert(".dw"@ != "ld"@);
    assert(".dw"@ != "inc"@);
    assert(".dw"@ != "dec"@);
    assert(".dw"@ != "add"@);
    assert(".dw"@ != "ex"@);
    assert(".dw"@ != "jp"@);
    assert(".dw"@ != "jr"@);
    assert(".dw"@ != "djnz"@);
    assert(".dw"@ != "call"@);
    assert(".dw"@ != "ret"@);
    assert(".dw"@ != "in"@);
    assert(".dw"@ != "out"@);
    assert(".dw"@ != "reti"@);
    assert(".dw"@ != "retn"@);
    assert("bcall"@ != "push"@);
    assert("bcall"@ != "pop"@);
    assert("bcall"@ != "ld"@);
    assert("bcall"@ != "inc"@);
    assert("bcall"@ != "dec"@);
    assert("bcall"@ != "add"@);
    assert("bcall"@ != "ex"@);
    assert("bcall"@ != "jp"@);
    assert("bcall"@ != "jr"@);
    assert("bcall"@ != "djnz"@);
    assert("bcall"@ != "call"@);
    assert("bcall"@ != "ret"@);
    assert("bcall"@ != "in"@);
    assert("bcall"@ != "out"@);
    assert("bcall"@ != "reti"@);
    assert("bcall"@ != "retn"@);
    assert("push"@ != "pop"@);
    assert("push"@ != "ld"@);
    assert("push"@ != "inc"@);
    assert("push"@ != "dec"@);
    assert("push"@ != "add"@);
    assert("push"@ != "ex"@);
    assert("push"@ != "jp"@);
    assert("push"@ != "jr"@);
    assert("push"@ != "djnz"@);
    assert("push"@ != "call"@);
    assert("push"@ != "ret"@);
    assert("push"@ != "in"@);
    assert("push"@ != "out"@);
    assert("push"@ != "reti"@);
    assert("push"@ != "retn"@);
    assert("pop"@ != "ld"@);
    assert("pop"@ != "inc"@);
    assert("pop"@ != "dec"@);
    assert("pop"@ != "add"@);
    assert("pop"@ != "ex"@);
    assert("pop"@ != "jp"@);
    assert("pop"@ != "jr"@);
    assert("pop"@ != "djnz"@);
    assert("pop"@ != "call"@);
    assert("pop"@ != "ret"@);
    assert("pop"@ != "in"@);
    assert("pop"@ != "out"@);
    assert("pop"@ != "reti"@);
    assert("pop"@ != "retn"@);
    assert("ld"@ != "inc"@);
    assert("ld"@ != "dec"@);
    assert("ld"@ != "add"@);
    assert("ld"@ != "ex"@);
    assert("ld"@ != "jp"@);
    assert("ld"@ != "jr"@);
    assert("ld"@ != "djnz"@);
    assert("ld"@ != "call"@);
    assert("ld"@ != "ret"@);
    assert("ld"@ != "in"@);
    assert("ld"@ != "out"@);
    assert("ld"@ != "reti"@);
    assert("ld"@ != "retn"@);
    assert("inc"@ != "dec"@);
    assert("inc"@ != "add"@);
    assert("inc"@ != "ex"@);
    assert("inc"@ != "jp"@);
    assert("inc"@ != "jr"@);
    assert("inc"@ != "djnz"@);
    assert("inc"@ != "call"@);
    assert("inc"@ != "ret"@);
    assert("inc"@ != "in"@);
    assert("inc"@ != "out"@);
    assert("inc"@ != "reti"@);
    assert("inc"@ != "retn"@);
    assert("dec"@ != "add"@);
    assert("dec"@ != "ex"@);
    assert("dec"@ != "jp"@);
    assert("dec"@ != "jr"@);
    assert("dec"@ != "djnz"@);
    assert("dec"@ != "call"@);
    assert("dec"@ != "ret"@);
    assert("dec"@ != "in"@);
    assert("dec"@ != "out"@);
    assert("dec"@ != "reti"@);
    assert("dec"@ != "retn"@);
    assert("add"@ != "ex"@);
    assert("add"@ != "jp"@);
    assert("add"@ != "jr"@);
    assert("add"@ != "djnz"@);
    assert("add"@ != "call"@);
    assert("add"@ != "ret"@);
    assert("add"@ != "in"@);
    assert("add"@ != "out"@);
    assert("add"@ != "reti"@);
    assert("add"@ != "retn"@);
    assert("ex"@ != "jp"@);
    assert("ex"@ != "jr"@);
    assert("ex"@ != "djnz"@);
    assert("ex"@ != "call"@);
    assert("ex"@ != "ret"@);
    assert("ex"@ != "in"@);
    assert("ex"@ != "out"@);
    assert("ex"@ != "reti"@);
    assert("ex"@ != "retn"@);
    assert("jp"@ != "jr"@);
    assert("jp"@ != "djnz"@);
    assert("jp"@ != "call"@);
    assert("jp"@ != "ret"@);
    assert("jp"@ != "in"@);
    assert("jp"@ != "out"@);
    assert("jp"@ != "reti"@);
    assert("jp"@ != "retn"@);
    assert("jr"@ != "djnz"@);
    assert("jr"@ != "call"@);
    assert("jr"@ != "ret"@);
    assert("jr"@ != "in"@);
    assert("jr"@ != "out"@);
    assert("jr"@ != "reti"@);
    assert("jr"@ != "retn"@);
    assert("djnz"@ != "call"@);
    assert("djnz"@ != "ret"@);
    assert("djnz"@ != "in"@);
    assert("djnz"@ != "out"@);
    assert("djnz"@ != "reti"@);
    assert("djnz"@ != "retn"@);
    assert("call"@ != "ret"@);
    assert("call"@ != "in"@);
    assert("call"@ != "out"@);
    assert("call"@ != "reti"@);
    assert("call"@ != "retn"@);
    assert("ret"@ != "in"@);
    assert("ret"@ != "out"@);
    assert("ret"@ != "reti"@);
    assert("ret"@ != "retn"@);
    assert("in"@ != "out"@);
    assert("in"@ != "reti"@);
    assert("in"@ != "retn"@);
    assert("out"@ != "reti"@);
    assert("out"@ != "retn"@);
    assert("reti"@ != "retn"@);
}


/// The bytes a `.db` item list encodes are exactly as many as its size.
pub proof fn lemma_db_items_len(
    ps: Seq<Seq<char>>,
    labels: Map<Seq<char>, u16>,
    consts: Map<Seq<char>, u16>,
)
    ensures
        match spec_db_items(ps, labels, consts) {
            Ok(b) => b.len() == spec_db_items_size(ps),
            Err(_) => true,
        },
    decreases ps.len(),
{
    if ps.len() > 0 {
        lemma_db_items_len(ps.drop_first(), labels, consts);
    }
}

/// The bytes a `.dw` item list encodes are two per item.
pub proof fn lemma_dw_items_len(
    ps: Seq<Seq<char>>,
    labels: Map<Seq<char>, u16>,
    consts: Map<Seq<char>, u16>,
)
    ensures
        match spec_dw_items(ps, labels, consts) {
            Ok(b) => b.len() == 2 * ps.len(),
            Err(_) => true,
        },
    decreases ps.len(),
{
    if ps.len() > 0 {
        lemma_dw_items_len(ps.drop_first(), labels, consts);
    }
}

/// The indexed family's encodings are exactly as long as its shape size
/// says, and it declines exactly where the shape size declines.
#[verifier::rlimit(100)]
pub proof fn lemma_index_cases(
    mn: Seq<char>,
    ops: Option<Seq<char>>,
    labels: Map<Seq<char>, u16>,
    consts: Map<Seq<char>, u16>,
)
    ensures
        match spec_index(mn, ops, labels, consts) {
            Ok(Some(b)) => spec_index_size(mn, ops) == Some(b.len() as int),
            Ok(None) => spec_index_size(mn, ops) is None,
            Err(_) => true,
        },
{
    match ops {
        None => {},
        Some(o) => {
            if mn == "ld"@ && o.len() > 0 && o[0] == '(' && contains_sub(o, "),ix"@) {
                lemma_find_sub(o, "),ix"@);
                reveal_strlit("),ix");
                let k = find_sub(o, "),ix"@)->Some_0;
                assert(o.subrange(k, k + 4) == "),ix"@);
                assert(o.subrange(k, k + 4)[0] == o[k]);
                assert(o[k] == ')');
                lemma_find_char(o, ')');
            } else if mn == "ld"@ && o.len() > 0 && o[0] == '(' && contains_sub(o, "),iy"@) {
                lemma_find_sub(o, "),iy"@);
                reveal_strlit("),iy");
                let k = find_sub(o, "),iy"@)->Some_0;
                assert(o.subrange(k, k + 4) == "),iy"@);
                assert(o.subrange(k, k + 4)[0] == o[k]);
                assert(o[k] == ')');
                lemma_find_char(o, ')');
            }
        },
    }
}

/// The load family's encodings are exactly as long as its shape size says,
/// and it declines exactly where the shape size declines.
#[verifier::rlimit(100)]
pub proof fn lemma_load_cases(
    o: Seq<char>,
    labels: Map<Seq<char>, u16>,
    consts: Map<Seq<char>, u16>,
)
    ensures
        match spec_load(o, labels, consts) {
            Ok(Some(b)) => spec_load_size(o) == Some(b.len() as int),
            Ok(None) => spec_load_size(o) is None,
            Err(_) => true,
        },
{
}

/// Every line that encodes is exactly as long as the size estimator said it
/// would be. This is the load-bearing invariant of two-pass assembly: pass
/// one places every label with the estimator, pass two emits the bytes, and
/// any disagreement would desynchronize every label after the offending
/// line.
#[verifier::rlimit(100)]
pub proof fn lemma_estimate_matches_encode(
    mn: Seq<char>,
    ops: Option<Seq<char>>,
    labels: Map<Seq<char>, u16>,
    consts: Map<Seq<char>, u16>,
    addr: u16,
)
    requires
        mn != ".org"@,
        mn != ".end"@,
        mn != ".equ"@,
    ensures
        match spec_encode(mn, ops, labels, consts, addr) {
            Ok(b) => spec_estimate(mn, ops) == b.len() as int,
            Err(_) => true,
        },
{
    lemma_mnemonic_literals();
    match spec_data(mn, ops, labels, consts) {
        Err(_) => {},
        Ok(Some(b)) => {
            if mn == ".db"@ {
                lemma_db_items_len(spec_split_db(ops->Some_0), labels, consts);
            } else {
                lemma_dw_items_len(split_char(ops->Some_0, ','), labels, consts);
            }
        },
        Ok(None) => {
            if mn == "bcall"@ && ops is Some {
            } else {
                lemma_index_cases(mn, ops, labels, consts);
                match spec_index(mn, ops, labels, consts) {
                    Err(_) => {},
                    Ok(Some(b)) => {},
                    Ok(None) => {
                        let ld = if mn == "ld"@ && ops is Some {
                            spec_load(ops->Some_0, labels, consts)
                        } else {
                            Ok(None)
                        };
                        if mn == "ld"@ && ops is Some {
                            lemma_load_cases(ops->Some_0, labels, consts);
                        }
                        match ld {
                            Err(_) => {},
                            Ok(Some(b)) => {},
                            Ok(None) => {
                                match spec_jump(mn, ops, labels, consts, addr) {
                                    Err(_) => {},
                                    Ok(Some(b)) => {},
                                    Ok(None) => {
                                        match spec_call(mn, ops, labels, consts) {
                                            Err(_) => {},
                                            Ok(Some(b)) => {},
                                            Ok(None) => {
                                                match spec_arith(mn, ops, consts) {
                                                    Err(_) => {},
                                                    Ok(Some(b)) => {
                                                        lemma_arith_mn(mn);
                                                    },
                                                    Ok(None) => {
                                                        match spec_bit(mn, ops) {
                                                            Err(_) => {},
                                                            Ok(Some(b)) => {
                                                                lemma_bit_mn(mn);
                                                            },
                                                            Ok(None) => {
                                                                match spec_io(mn, ops, consts) {
                                                                    Err(_) => {},
                                                                    Ok(Some(b)) => {
                                                                        if mn == "in"@ || mn
                                                                            == "out"@ {
                                                                            lemma_named_mn(mn);
                                                                        } else {
                                                                            lemma_block_mn(mn);
                                                                        }
                                                                    },
                                                                    Ok(None) => {
                                                                        if mn == "reti"@ || mn
                                                                            == "retn"@ {
                                                                            lemma_named_mn(mn);
                                                                        }
                                                                    },
                                                                }
                                                            },
                                                        }
                                                    },
                                                }
                                            },
                                        }
                                    },
                                }
                            },
                        }
                    },
                }
            }
        },
    }
}


/// A name with a label binding resolves to that label's address wherever it
/// is used. Pass two hands the one completed label table, unchanged, to the
/// encoding of every line (see `spec_pass2`, whose label argument never
/// varies), so a label used before its definition resolves to the same
/// address as one used after it.
pub proof fn lemma_forward_reference(
    t: Seq<char>,
    labels: Map<Seq<char>, u16>,
    consts: Map<Seq<char>, u16>,
)
    requires
        labels.contains_key(t),
    ensures
        spec_resolve(t, labels, consts) == Some(labels[t]),
{
}

/// A relative jump (`jr`, or `djnz`) whose target resolves fails with the
/// range error exactly when the displacement, measured from the end of the
/// two-byte instruction, falls outside [-128, 127]; at the boundaries it
/// does not fail.
pub proof fn lemma_relative_range(
    mn: Seq<char>,
    o: Seq<char>,
    labels: Map<Seq<char>, u16>,
    consts: Map<Seq<char>, u16>,
    addr: u16,
    target: u16,
)
    requires
        mn == "jr"@ || mn == "djnz"@,
        spec_resolve(
            if mn == "jr"@ {
                spec_cond_target(o).1
            } else {
                spec_trim(o)
            },
            labels,
            consts,
        ) == Some(target),
    ensures
        spec_jump(mn, Some(o), labels, consts, addr) == Err::<Option<Seq<u8>>, ErrKind>(
            ErrKind::RangeError,
        ) <==> !rel_in_range(rel_offset(target, addr)),
{
    lemma_mnemonic_literals();
}

/// Assembling the same source twice yields byte-identical output: the
/// outcome of a run is a function of the source text alone, and no state
/// carries from one run into the next.
pub proof fn lemma_assemble_idempotent(
    src: Seq<char>,
    first: Result<Seq<u8>, ErrKind>,
    second: Result<Seq<u8>, ErrKind>,
)
    requires
        first == spec_assemble(src),
        second == spec_assemble(src),
    ensures
        first == second,
{
}

} // verus!
