//! A two-pass assembler for the Z80 instruction set, targeting the
//! TI-83 Plus calculator environment.
//!
//! Source text goes in one line at a time: an optional label, an optional
//! mnemonic, and an operand string. Pass one records label addresses by
//! walking an address cursor with a size estimate for every line; pass two
//! encodes each line against the now-complete symbol table and concatenates
//! the bytes. The load-bearing invariant — every successful encoding is
//! exactly as long as its pass-one estimate — is stated and proved in
//! `laws`.

use vstd::prelude::*;

pub mod chars;
pub mod assembler;
pub mod parser;
pub mod arithmetic;
pub mod bitops;
pub mod calls;
pub mod data;
pub mod error;
pub mod generator;
pub mod immediate;
pub mod index;
pub mod io;
pub mod jumps;
pub mod laws;
pub mod loads;
pub mod symtab;
pub mod tables;

verus! {

} // verus!
