//! The container formatter: wraps a program's machine code in the
//! platform's variable file format — magic signature, fixed comment field,
//! variable header with length fields and the name padded and upper-cased
//! to eight bytes, the 16-bit little-endian byte count, the data, and a
//! 16-bit little-endian checksum summing every byte from the variable
//! header onward.

use vstd::prelude::*;
use crate::chars::to_chars;
use crate::data::char_byte;

verus! {

/// ASCII upper-casing of one character.
pub open spec fn upper_char(c: char) -> char {
    if 'a' <= c <= 'z' {
        ((c as int) - 32) as char
    } else {
        c
    }
}

/// The eleven-byte file signature.
pub open spec fn spec_signature() -> Seq<u8> {
    seq![0x2au8, 0x2au8, 0x54u8, 0x49u8, 0x38u8, 0x33u8, 0x46u8, 0x2au8, 0x1au8, 0x0au8, 0x00u8]
}

/// The 42-byte comment field: the fixed text, zero-padded.
pub open spec fn spec_comment() -> Seq<u8> {
    let text = "Z80 assembler output"@;
    Seq::new(42, |i: int| if i < text.len() {
        char_byte(text[i])
    } else {
        0u8
    })
}

/// The eight name bytes: the upper-cased name, truncated or zero-padded.
pub open spec fn spec_name_bytes(name: Seq<char>) -> Seq<u8> {
    Seq::new(8, |i: int| if i < name.len() {
        char_byte(upper_char(name[i]))
    } else {
        0u8
    })
}

/// The 17-byte variable header.
pub open spec fn spec_var_header(name: Seq<char>, code: Seq<u8>) -> Seq<u8> {
    let dl = code.len() + 2;
    seq![
        (((dl + 13) % 256) as u8),
        ((((dl + 13) / 256) % 256) as u8),
        0x0du8,
        0x00u8,
        ((dl % 256) as u8),
        (((dl / 256) % 256) as u8),
        0x05u8,
    ] + spec_name_bytes(name) + seq![0x00u8, 0x00u8]
}

/// Everything of the file but the final checksum: signature, comment,
/// variable header, the length bytes, and the size-prefixed code.
pub open spec fn spec_file_body(name: Seq<char>, code: Seq<u8>) -> Seq<u8> {
    let dl = code.len() + 2;
    spec_signature() + spec_comment() + spec_var_header(name, code) + seq![
        ((dl % 256) as u8),
        (((dl / 256) % 256) as u8),
    ] + seq![
        ((code.len() as int % 256) as u8),
        (((code.len() as int / 256) % 256) as u8),
    ] + code
}

/// The plain sum of a byte sequence.
pub open spec fn byte_sum(s: Seq<u8>) -> int
    decreases s.len(),
{
    if s.len() == 0 {
        0
    } else {
        byte_sum(s.drop_last()) + s.last()
    }
}

/// The whole container file: the body followed by the 16-bit little-endian
/// wrapping sum of every body byte from the variable header onward.
pub open spec fn spec_create_8xp(name: Seq<char>, code: Seq<u8>) -> Seq<u8> {
    let body = spec_file_body(name, code);
    let ck = byte_sum(body.subrange(55, body.len() as int)) % 0x10000;
    body + seq![((ck % 256) as u8), (((ck / 256) % 256) as u8)]
}

/// The container formatter.
pub struct TI8XPGenerator;

impl TI8XPGenerator {
    /// Wrap machine code and a program name into a complete variable file.
    pub fn create_8xp(program_name: &str, code: &[u8]) -> (r: Vec<u8>)
        ensures
            r@ == spec_create_8xp(program_name@, code@),
    {
        let ghost target = spec_file_body(program_name@, code@);
        let mut out: Vec<u8> = Vec::new();
        out.push(0x2a);
        out.push(0x2a);
        out.push(0x54);
        out.push(0x49);
        out.push(0x38);
        out.push(0x33);
        out.push(0x46);
        out.push(0x2a);
        out.push(0x1a);
        out.push(0x0a);
        out.push(0x00);
        proof {
            assert(out@ =~= spec_signature());
        }
        let text = to_chars("Z80 assembler output");
        proof {
            reveal_strlit("Z80 assembler output");
        }
        let mut i: usize = 0;
        while i < 42
            invariant
                0 <= i <= 42,
                text@ == "Z80 assembler output"@,
                text@.len() == 20,
                out@ == spec_signature() + spec_comment().subrange(0, i as int),
            decreases 42 - i,
        {
            if i < text.len() {
                out.push(((text[i] as u32) & 0xFF) as u8);
            } else {
                out.push(0);
            }
            proof {
                assert(out@ =~= spec_signature() + spec_comment().subrange(0, i + 1));
            }
            i = i + 1;
        }
        proof {
            assert(spec_comment().subrange(0, 42) =~= spec_comment());
        }
        let dl: u128 = (code.len() as u128) + 2;
        out.push(((dl + 13) % 256) as u8);
        out.push((((dl + 13) / 256) % 256) as u8);
        out.push(0x0d);
        out.push(0x00);
        out.push((dl % 256) as u8);
        out.push(((dl / 256) % 256) as u8);
        out.push(0x05);
        let name = to_chars(program_name);
        let mut i: usize = 0;
        let ghost pre = spec_signature() + spec_comment() + seq![
            (((code@.len() + 2 + 13) % 256) as u8),
            ((((code@.len() + 2 + 13) / 256) % 256) as u8),
            0x0du8,
            0x00u8,
            (((code@.len() + 2) % 256) as u8),
            ((((code@.len() + 2) / 256) % 256) as u8),
            0x05u8,
        ];
        proof {
            assert(out@ =~= pre);
        }
        while i < 8
            invariant
                0 <= i <= 8,
                name@ == program_name@,
                out@ == pre + spec_name_bytes(program_name@).subrange(0, i as int),
            decreases 8 - i,
        {
            if i < name.len() {
                let c = name[i];
                let u = if 'a' <= c && c <= 'z' {
                    ((c as u8) - 32) as char
                } else {
                    c
                };
                proof {
                    crate::chars::lemma_lower_char_cases(c);
                    assert(u == upper_char(name@[i as int]));
                }
                out.push(((u as u32) & 0xFF) as u8);
            } else {
                out.push(0);
            }
            proof {
                assert(out@ =~= pre + spec_name_bytes(program_name@).subrange(0, i + 1));
            }
            i = i + 1;
        }
        out.push(0x00);
        out.push(0x00);
        proof {
            assert(spec_name_bytes(program_name@).subrange(0, 8) =~= spec_name_bytes(
                program_name@,
            ));
            assert(out@ =~= spec_signature() + spec_comment() + spec_var_header(
                program_name@,
                code@,
            ));
        }
        out.push((dl % 256) as u8);
        out.push(((dl / 256) % 256) as u8);
        let cl: u128 = code.len() as u128;
        out.push((cl % 256) as u8);
        out.push(((cl / 256) % 256) as u8);
        let ghost before_code = out@;
        let mut i: usize = 0;
        while i < code.len()
            invariant
                0 <= i <= code@.len(),
                out@ == before_code + code@.subrange(0, i as int),
            decreases code@.len() - i,
        {
            out.push(code[i]);
            proof {
                assert(out@ =~= before_code + code@.subrange(0, i + 1));
            }
            i = i + 1;
        }
        proof {
            assert(out@ =~= target);
            assert(out@.len() == 11 + 42 + 17 + 2 + 2 + code@.len());
        }
        let mut ck: u32 = 0;
        let mut i: usize = 55;
        proof {
            assert(out@.subrange(55, 55) =~= Seq::<u8>::empty());
        }
        while i < out.len()
            invariant
                55 <= i <= out@.len(),
                out@ == target,
                out@.len() >= 55,
                0 <= ck < 0x10000,
                ck as int == byte_sum(out@.subrange(55, i as int)) % 0x10000,
            decreases out@.len() - i,
        {
            let b = out[i];
            proof {
                let pfx = out@.subrange(55, i + 1);
                assert(pfx.drop_last() =~= out@.subrange(55, i as int));
                assert(pfx.last() == out@[i as int]);
                vstd::arithmetic::div_mod::lemma_add_mod_noop(
                    byte_sum(out@.subrange(55, i as int)),
                    b as int,
                    0x10000,
                );
                vstd::arithmetic::div_mod::lemma_small_mod(b as nat, 0x10000);
                vstd::arithmetic::div_mod::lemma_mod_bound(
                    byte_sum(out@.subrange(55, i as int)) + b,
                    0x10000,
                );
            }
            ck = (ck + (b as u32)) % 0x10000;
            i = i + 1;
        }
        proof {
            assert(out@.subrange(55, out@.len() as int) =~= target.subrange(
                55,
                target.len() as int,
            ));
        }
        out.push((ck % 256) as u8);
        out.push(((ck / 256) % 256) as u8);
        proof {
            assert(out@ =~= spec_create_8xp(program_name@, code@));
        }
        out
    }
}

} // verus!
