//! The decoder: from a machine word to the instruction it stands for.

use crate::architecture::{
    legal, Insn, InsnGen, RName, CC, IMM11, IMM5, IMM6, IMM7, IMM9, UIMM4, UIMM7, UIMM8,
};
use crate::word::{extend, low_mask, mask_of, sign_extend};
use vstd::prelude::*;

verus! {

/// Why a word is no instruction.
#[derive(Clone, Copy, Debug, Eq, PartialEq)]
pub enum DecodeError {
    /// Bits 15 to 12 hold one of the reserved opcodes `0011`, `1011`, `1110`.
    BadOpcode,
}

/// The field of `width` bits that begins at bit `at`.
pub open spec fn bits(w: u16, at: u16, width: u16) -> u16 {
    (w >> at) & low_mask(width)
}

/// The register named by the three bits at `at`.
pub open spec fn reg_of(w: u16, at: u16) -> RName {
    bits(w, at, 3) as RName
}

/// The condition mask in bits 11 to 9.
pub open spec fn mask_of_word(w: u16) -> CC {
    bits(w, 9, 3) as CC
}

/// The instruction that a word stands for, or `BadOpcode`. The opcode in bits
/// 15 to 12 is read first, then the fields that it calls for; bits that the
/// opcode does not use are not looked at.
pub open spec fn decoding(w: u16) -> Result<Insn, DecodeError> {
    let rd = reg_of(w, 9);
    let rs = reg_of(w, 6);
    let rt = reg_of(w, 0);
    let imm5 = IMM5 { value: sign_extend(w, 5) };
    let imm6 = IMM6 { value: sign_extend(w, 6) };
    let imm7 = IMM7 { value: sign_extend(w, 7) };
    let imm9 = IMM9 { value: sign_extend(w, 9) };
    let imm11 = IMM11 { value: sign_extend(w, 11) };
    let uimm4 = UIMM4 { value: bits(w, 0, 4) };
    let uimm7 = UIMM7 { value: bits(w, 0, 7) };
    let uimm8 = UIMM8 { value: bits(w, 0, 8) };
    let opcode = bits(w, 12, 4);
    let arith = bits(w, 3, 3);
    let compare = bits(w, 7, 2);
    let shift = bits(w, 4, 2);
    let direct = bits(w, 11, 1);
    if opcode == 0 {
        if mask_of_word(w) == 0 {
            Ok(InsnGen::NOP)
        } else {
            Ok(InsnGen::BR(mask_of_word(w), imm9))
        }
    } else if opcode == 1 {
        if arith == 0 {
            Ok(InsnGen::ADD(rd, rs, rt))
        } else if arith == 1 {
            Ok(InsnGen::MUL(rd, rs, rt))
        } else if arith == 2 {
            Ok(InsnGen::SUB(rd, rs, rt))
        } else if arith == 3 {
            Ok(InsnGen::DIV(rd, rs, rt))
        } else {
            Ok(InsnGen::ADDi(rd, rs, imm5))
        }
    } else if opcode == 2 {
        if compare == 0 {
            Ok(InsnGen::CMP(rd, rt))
        } else if compare == 1 {
            Ok(InsnGen::CMPu(rd, rt))
        } else if compare == 2 {
            Ok(InsnGen::CMPi(rd, imm7))
        } else {
            Ok(InsnGen::CMPiu(rd, uimm7))
        }
    } else if opcode == 4 {
        if direct == 0 {
            Ok(InsnGen::JSRr(rs))
        } else {
            Ok(InsnGen::JSR(imm11))
        }
    } else if opcode == 5 {
        if arith == 0 {
            Ok(InsnGen::AND(rd, rs, rt))
        } else if arith == 1 {
            Ok(InsnGen::NOT(rd, rs))
        } else if arith == 2 {
            Ok(InsnGen::OR(rd, rs, rt))
        } else if arith == 3 {
            Ok(InsnGen::XOR(rd, rs, rt))
        } else {
            Ok(InsnGen::ANDi(rd, rs, imm5))
        }
    } else if opcode == 6 {
        Ok(InsnGen::LDR(rd, rs, imm6))
    } else if opcode == 7 {
        Ok(InsnGen::STR(rd, rs, imm6))
    } else if opcode == 8 {
        Ok(InsnGen::RTI)
    } else if opcode == 9 {
        Ok(InsnGen::CONST(rd, imm9))
    } else if opcode == 10 {
        if shift == 0 {
            Ok(InsnGen::SLL(rd, rs, uimm4))
        } else if shift == 1 {
            Ok(InsnGen::SRA(rd, rs, uimm4))
        } else if shift == 2 {
            Ok(InsnGen::SRL(rd, rs, uimm4))
        } else {
            Ok(InsnGen::MOD(rd, rs, rt))
        }
    } else if opcode == 12 {
        if direct == 0 {
            Ok(InsnGen::JMPr(rs))
        } else {
            Ok(InsnGen::JMP(imm11))
        }
    } else if opcode == 13 {
        Ok(InsnGen::HICONST(rd, uimm8))
    } else if opcode == 15 {
        Ok(InsnGen::TRAP(uimm8))
    } else {
        Err(DecodeError::BadOpcode)
    }
}

/// Computes `bits`.
fn field(w: u16, at: u16, width: u16) -> (f: u16)
    requires
        at < 16,
        1 <= width <= 16,
    ensures
        f == bits(w, at, width),
{
    (w >> at) & mask_of(width)
}

/// Computes `reg_of`.
fn reg(w: u16, at: u16) -> (r: RName)
    requires
        at < 16,
    ensures
        r == reg_of(w, at),
{
    field(w, at, 3) as RName
}

/// What can be decoded.
pub trait Controller: Sized {
    /// What the value decodes to.
    spec fn decoded(self) -> Result<Insn, DecodeError>;

    /// Decodes the value.
    fn decode(self) -> (r: Result<Insn, DecodeError>)
        ensures
            r == self.decoded(),
    ;
}

impl Controller for u16 {
    open spec fn decoded(self) -> Result<Insn, DecodeError> {
        decoding(self)
    }

    fn decode(self) -> (r: Result<Insn, DecodeError>) {
        let opcode: u16 = field(self, 12, 4);
        let rd: RName = reg(self, 9);
        let rs: RName = reg(self, 6);
        let rt: RName = reg(self, 0);
        match opcode {
            0 => {
                let cc: CC = field(self, 9, 3) as CC;
                if cc == 0 {
                    Ok(InsnGen::NOP)
                } else {
                    Ok(InsnGen::BR(cc, IMM9 { value: extend(self, 9) }))
                }
            },
            1 => match field(self, 3, 3) {
                0 => Ok(InsnGen::ADD(rd, rs, rt)),
                1 => Ok(InsnGen::MUL(rd, rs, rt)),
                2 => Ok(InsnGen::SUB(rd, rs, rt)),
                3 => Ok(InsnGen::DIV(rd, rs, rt)),
                _ => Ok(InsnGen::ADDi(rd, rs, IMM5 { value: extend(self, 5) })),
            },
            2 => match field(self, 7, 2) {
                0 => Ok(InsnGen::CMP(rd, rt)),
                1 => Ok(InsnGen::CMPu(rd, rt)),
                2 => Ok(InsnGen::CMPi(rd, IMM7 { value: extend(self, 7) })),
                _ => Ok(InsnGen::CMPiu(rd, UIMM7 { value: field(self, 0, 7) })),
            },
            4 => match field(self, 11, 1) {
                0 => Ok(InsnGen::JSRr(rs)),
                _ => Ok(InsnGen::JSR(IMM11 { value: extend(self, 11) })),
            },
            5 => match field(self, 3, 3) {
                0 => Ok(InsnGen::AND(rd, rs, rt)),
                1 => Ok(InsnGen::NOT(rd, rs)),
                2 => Ok(InsnGen::OR(rd, rs, rt)),
                3 => Ok(InsnGen::XOR(rd, rs, rt)),
                _ => Ok(InsnGen::ANDi(rd, rs, IMM5 { value: extend(self, 5) })),
            },
            6 => Ok(InsnGen::LDR(rd, rs, IMM6 { value: extend(self, 6) })),
            7 => Ok(InsnGen::STR(rd, rs, IMM6 { value: extend(self, 6) })),
            8 => Ok(InsnGen::RTI),
            9 => Ok(InsnGen::CONST(rd, IMM9 { value: extend(self, 9) })),
            10 => match field(self, 4, 2) {
                0 => Ok(InsnGen::SLL(rd, rs, UIMM4 { value: field(self, 0, 4) })),
                1 => Ok(InsnGen::SRA(rd, rs, UIMM4 { value: field(self, 0, 4) })),
                2 => Ok(InsnGen::SRL(rd, rs, UIMM4 { value: field(self, 0, 4) })),
                _ => Ok(InsnGen::MOD(rd, rs, rt)),
            },
            12 => match field(self, 11, 1) {
                0 => Ok(InsnGen::JMPr(rs)),
                _ => Ok(InsnGen::JMP(IMM11 { value: extend(self, 11) })),
            },
            13 => Ok(InsnGen::HICONST(rd, UIMM8 { value: field(self, 0, 8) })),
            15 => Ok(InsnGen::TRAP(UIMM8 { value: field(self, 0, 8) })),
            _ => Err(DecodeError::BadOpcode),
        }
    }
}

/// Every word that decodes at all decodes to a legal instruction.
pub proof fn decoded_is_legal(w: u16)
    ensures
        decoding(w) matches Ok(insn) ==> legal(insn),
{
    assert({
        &&& bits(w, 9, 3) < 8
        &&& bits(w, 6, 3) < 8
        &&& bits(w, 0, 3) < 8
        &&& bits(w, 0, 4) < 16
        &&& bits(w, 0, 7) < 128
        &&& bits(w, 0, 8) < 256
        &&& -16 <= sign_extend(w, 5) <= 15
        &&& -32 <= sign_extend(w, 6) <= 31
        &&& -64 <= sign_extend(w, 7) <= 63
        &&& -256 <= sign_extend(w, 9) <= 255
        &&& -1024 <= sign_extend(w, 11) <= 1023
    }) by (bit_vector);
}

/// What the fields are in numbers: the field of a width at bit `at` is the
/// word divided by two to the `at`, up to a multiple of two to the width.
pub proof fn bits_in_numbers(w: u16)
    by (bit_vector)
    ensures
        bits(w, 12, 4) == w / 4096,
        bits(w, 11, 1) == (w / 2048) % 2,
        bits(w, 9, 3) == (w / 512) % 8,
        bits(w, 7, 2) == (w / 128) % 4,
        bits(w, 6, 3) == (w / 64) % 8,
        bits(w, 4, 2) == (w / 16) % 4,
        bits(w, 3, 3) == (w / 8) % 8,
        bits(w, 0, 3) == w % 8,
        bits(w, 0, 4) == w % 16,
        bits(w, 0, 7) == w % 128,
        bits(w, 0, 8) == w % 256,
{
}

} // verus!
