//! The assembly error type. Every failure aborts the whole assembly and is
//! reported as a kind together with a short piece of the offending source
//! text.

use vstd::prelude::*;
use crate::chars::chars_to_string;

verus! {

/// What went wrong. The contracts of the library speak of this kind alone;
/// the textual detail is for human readers.
#[derive(Clone, Copy, Debug, PartialEq, Eq, Structural)]
pub enum ErrKind {
    /// No encoder or table entry matched the mnemonic/operand combination.
    UnknownInstruction,
    /// A directive or instruction received the wrong number of operands.
    InvalidOperandCount,
    /// An operand is neither a known constant, a register, nor a literal.
    InvalidLiteral,
    /// An operand names something that is not a valid register for the
    /// instruction family.
    InvalidRegister,
    /// A relative-jump or indexed displacement falls outside its signed
    /// 8-bit range.
    RangeError,
}

/// An assembly failure: a kind plus the offending source text.
#[derive(Debug)]
pub struct AsmError {
    pub kind: ErrKind,
    pub detail: String,
}

impl AsmError {
    /// Build an error from a kind and the offending characters.
    pub fn new(kind: ErrKind, detail: &[char]) -> (r: AsmError)
        ensures
            r.kind == kind,
    {
        AsmError { kind, detail: chars_to_string(detail) }
    }

    /// The error kind.
    pub fn kind(&self) -> (r: ErrKind)
        ensures
            r == self.kind,
    {
        self.kind
    }

    /// A human-readable description of the failure.
    pub fn message(&self) -> String {
        let mut s = match self.kind {
            ErrKind::UnknownInstruction => String::from_str("unknown instruction: "),
            ErrKind::InvalidOperandCount => String::from_str("invalid operand count: "),
            ErrKind::InvalidLiteral => String::from_str("invalid literal: "),
            ErrKind::InvalidRegister => String::from_str("invalid register: "),
            ErrKind::RangeError => String::from_str("target out of range: "),
        };
        s.append(self.detail.as_str());
        s
    }
}


/// Whether an encoder's executable result agrees with its specification:
/// the same bytes, the same declination, or an error of the same kind.
pub open spec fn enc_matches(
    r: Result<Option<Vec<u8>>, AsmError>,
    sp: Result<Option<Seq<u8>>, ErrKind>,
) -> bool {
    match r {
        Ok(Some(b)) => sp == Ok::<Option<Seq<u8>>, ErrKind>(Some(b@)),
        Ok(None) => sp == Ok::<Option<Seq<u8>>, ErrKind>(None),
        Err(e) => sp == Err::<Option<Seq<u8>>, ErrKind>(e.kind),
    }
}

} // verus!
