//! The encoder: from an instruction to its machine word.
//!
//! Bit 15 is the most significant. Bits 15 to 12 hold the opcode; a register
//! takes three bits, at bit 9 (`Rd`), bit 6 (`Rs`) or bit 0 (`Rt`); an
//! immediate fills the low bits of the word.

use crate::architecture::{legal, Insn, InsnGen, RName, CC};
use crate::word::{low_mask, mask_of, signed, to_signed, to_unsigned, unsigned};
use vstd::prelude::*;

verus! {

/// The low three bits of a register name, placed at bit `at`.
pub open spec fn reg_at(r: RName, at: u16) -> u16 {
    ((r & 7) as u16) << at
}

/// The low three bits of a condition mask, placed at bit `at`.
pub open spec fn mask_at(cc: CC, at: u16) -> u16 {
    ((cc & 7) as u16) << at
}

/// The low `width` bits of a signed immediate.
pub open spec fn imm_bits(v: i16, width: u16) -> u16 {
    unsigned(v) & low_mask(width)
}

/// The low `width` bits of an unsigned immediate.
pub open spec fn uimm_bits(v: u16, width: u16) -> u16 {
    v & low_mask(width)
}

/// The machine word of an instruction. Every field is cut to its width, so
/// the word is defined for every instruction; for a legal one no bit is lost.
pub open spec fn encoding(insn: Insn) -> u16 {
    match insn {
        InsnGen::NOP => 0x0000,
        InsnGen::BR(cc, target) => 0x0000 | mask_at(cc, 9) | imm_bits(target.value, 9),
        InsnGen::ADD(rd, rs, rt) => 0x1000 | reg_at(rd, 9) | reg_at(rs, 6) | 0x00 | reg_at(rt, 0),
        InsnGen::MUL(rd, rs, rt) => 0x1000 | reg_at(rd, 9) | reg_at(rs, 6) | 0x08 | reg_at(rt, 0),
        InsnGen::SUB(rd, rs, rt) => 0x1000 | reg_at(rd, 9) | reg_at(rs, 6) | 0x10 | reg_at(rt, 0),
        InsnGen::DIV(rd, rs, rt) => 0x1000 | reg_at(rd, 9) | reg_at(rs, 6) | 0x18 | reg_at(rt, 0),
        InsnGen::ADDi(rd, rs, imm) => 0x1000 | reg_at(rd, 9) | reg_at(rs, 6) | 0x20 | imm_bits(imm.value, 5),
        InsnGen::CMP(rd, rt) => 0x2000 | reg_at(rd, 9) | 0x000 | reg_at(rt, 0),
        InsnGen::CMPu(rd, rt) => 0x2000 | reg_at(rd, 9) | 0x080 | reg_at(rt, 0),
        InsnGen::CMPi(rd, imm) => 0x2000 | reg_at(rd, 9) | 0x100 | imm_bits(imm.value, 7),
        InsnGen::CMPiu(rd, imm) => 0x2000 | reg_at(rd, 9) | 0x180 | uimm_bits(imm.value, 7),
        InsnGen::JSR(target) => 0x4800 | imm_bits(target.value, 11),
        InsnGen::JSRr(rs) => 0x4000 | reg_at(rs, 6),
        InsnGen::AND(rd, rs, rt) => 0x5000 | reg_at(rd, 9) | reg_at(rs, 6) | 0x00 | reg_at(rt, 0),
        InsnGen::NOT(rd, rs) => 0x5000 | reg_at(rd, 9) | reg_at(rs, 6) | 0x08,
        InsnGen::OR(rd, rs, rt) => 0x5000 | reg_at(rd, 9) | reg_at(rs, 6) | 0x10 | reg_at(rt, 0),
        InsnGen::XOR(rd, rs, rt) => 0x5000 | reg_at(rd, 9) | reg_at(rs, 6) | 0x18 | reg_at(rt, 0),
        InsnGen::ANDi(rd, rs, imm) => 0x5000 | reg_at(rd, 9) | reg_at(rs, 6) | 0x20 | imm_bits(imm.value, 5),
        InsnGen::LDR(rd, rs, imm) => 0x6000 | reg_at(rd, 9) | reg_at(rs, 6) | imm_bits(imm.value, 6),
        InsnGen::STR(rd, rs, imm) => 0x7000 | reg_at(rd, 9) | reg_at(rs, 6) | imm_bits(imm.value, 6),
        InsnGen::RTI => 0x8000,
        InsnGen::CONST(rd, imm) => 0x9000 | reg_at(rd, 9) | imm_bits(imm.value, 9),
        InsnGen::SLL(rd, rs, imm) => 0xA000 | reg_at(rd, 9) | reg_at(rs, 6) | 0x00 | uimm_bits(imm.value, 4),
        InsnGen::SRA(rd, rs, imm) => 0xA000 | reg_at(rd, 9) | reg_at(rs, 6) | 0x10 | uimm_bits(imm.value, 4),
        InsnGen::SRL(rd, rs, imm) => 0xA000 | reg_at(rd, 9) | reg_at(rs, 6) | 0x20 | uimm_bits(imm.value, 4),
        InsnGen::MOD(rd, rs, rt) => 0xA000 | reg_at(rd, 9) | reg_at(rs, 6) | 0x30 | reg_at(rt, 0),
        InsnGen::JMPr(rs) => 0xC000 | reg_at(rs, 6),
        InsnGen::JMP(target) => 0xC800 | imm_bits(target.value, 11),
        InsnGen::HICONST(rd, imm) => 0xD000 | reg_at(rd, 9) | 0x100 | uimm_bits(imm.value, 8),
        InsnGen::TRAP(imm) => 0xF000 | uimm_bits(imm.value, 8),
    }
}

/// Computes `reg_at`.
fn put_reg(r: RName, at: u16) -> (w: u16)
    requires
        at < 16,
    ensures
        w == reg_at(r, at),
{
    assert(r & 7 < 8) by (bit_vector);
    ((r & 7) as u16) << at
}

/// Computes `mask_at`.
fn put_mask(cc: CC, at: u16) -> (w: u16)
    requires
        at < 16,
    ensures
        w == mask_at(cc, at),
{
    ((cc & 7) as u16) << at
}

/// Computes `imm_bits`.
fn put_imm(v: i16, width: u16) -> (w: u16)
    requires
        1 <= width <= 16,
    ensures
        w == imm_bits(v, width),
{
    to_unsigned(v) & mask_of(width)
}

/// Computes `uimm_bits`.
fn put_uimm(v: u16, width: u16) -> (w: u16)
    requires
        1 <= width <= 16,
    ensures
        w == uimm_bits(v, width),
{
    v & mask_of(width)
}

/// Encodes an instruction as its machine word, read as a signed number.
pub fn encode_insn(insn: Insn) -> (w: i16)
    ensures
        w == signed(encoding(insn)),
{
    let word: u16 = match insn {
        InsnGen::NOP => 0x0000,
        InsnGen::BR(cc, target) => 0x0000 | put_mask(cc, 9) | put_imm(target.value, 9),
        InsnGen::ADD(rd, rs, rt) => 0x1000 | put_reg(rd, 9) | put_reg(rs, 6) | 0x00 | put_reg(rt, 0),
        InsnGen::MUL(rd, rs, rt) => 0x1000 | put_reg(rd, 9) | put_reg(rs, 6) | 0x08 | put_reg(rt, 0),
        InsnGen::SUB(rd, rs, rt) => 0x1000 | put_reg(rd, 9) | put_reg(rs, 6) | 0x10 | put_reg(rt, 0),
        InsnGen::DIV(rd, rs, rt) => 0x1000 | put_reg(rd, 9) | put_reg(rs, 6) | 0x18 | put_reg(rt, 0),
        InsnGen::ADDi(rd, rs, imm) => 0x1000 | put_reg(rd, 9) | put_reg(rs, 6) | 0x20 | put_imm(imm.value, 5),
        InsnGen::CMP(rd, rt) => 0x2000 | put_reg(rd, 9) | 0x000 | put_reg(rt, 0),
        InsnGen::CMPu(rd, rt) => 0x2000 | put_reg(rd, 9) | 0x080 | put_reg(rt, 0),
        InsnGen::CMPi(rd, imm) => 0x2000 | put_reg(rd, 9) | 0x100 | put_imm(imm.value, 7),
        InsnGen::CMPiu(rd, imm) => 0x2000 | put_reg(rd, 9) | 0x180 | put_uimm(imm.value, 7),
        InsnGen::JSR(target) => 0x4800 | put_imm(target.value, 11),
        InsnGen::JSRr(rs) => 0x4000 | put_reg(rs, 6),
        InsnGen::AND(rd, rs, rt) => 0x5000 | put_reg(rd, 9) | put_reg(rs, 6) | 0x00 | put_reg(rt, 0),
        InsnGen::NOT(rd, rs) => 0x5000 | put_reg(rd, 9) | put_reg(rs, 6) | 0x08,
        InsnGen::OR(rd, rs, rt) => 0x5000 | put_reg(rd, 9) | put_reg(rs, 6) | 0x10 | put_reg(rt, 0),
        InsnGen::XOR(rd, rs, rt) => 0x5000 | put_reg(rd, 9) | put_reg(rs, 6) | 0x18 | put_reg(rt, 0),
        InsnGen::ANDi(rd, rs, imm) => 0x5000 | put_reg(rd, 9) | put_reg(rs, 6) | 0x20 | put_imm(imm.value, 5),
        InsnGen::LDR(rd, rs, imm) => 0x6000 | put_reg(rd, 9) | put_reg(rs, 6) | put_imm(imm.value, 6),
        InsnGen::STR(rd, rs, imm) => 0x7000 | put_reg(rd, 9) | put_reg(rs, 6) | put_imm(imm.value, 6),
        InsnGen::RTI => 0x8000,
        InsnGen::CONST(rd, imm) => 0x9000 | put_reg(rd, 9) | put_imm(imm.value, 9),
        InsnGen::SLL(rd, rs, imm) => 0xA000 | put_reg(rd, 9) | put_reg(rs, 6) | 0x00 | put_uimm(imm.value, 4),
        InsnGen::SRA(rd, rs, imm) => 0xA000 | put_reg(rd, 9) | put_reg(rs, 6) | 0x10 | put_uimm(imm.value, 4),
        InsnGen::SRL(rd, rs, imm) => 0xA000 | put_reg(rd, 9) | put_reg(rs, 6) | 0x20 | put_uimm(imm.value, 4),
        InsnGen::MOD(rd, rs, rt) => 0xA000 | put_reg(rd, 9) | put_reg(rs, 6) | 0x30 | put_reg(rt, 0),
        InsnGen::JMPr(rs) => 0xC000 | put_reg(rs, 6),
        InsnGen::JMP(target) => 0xC800 | put_imm(target.value, 11),
        InsnGen::HICONST(rd, imm) => 0xD000 | put_reg(rd, 9) | 0x100 | put_uimm(imm.value, 8),
        InsnGen::TRAP(imm) => 0xF000 | put_uimm(imm.value, 8),
    };
    to_signed(word)
}

/// What the fields are in numbers: a register or a mask below eight at bit
/// `at` counts two to the `at` times itself, and an immediate of a width is
/// its value up to a multiple of two to the width.
pub proof fn fields_in_numbers(r: RName, cc: CC, v: i16, u: u16)
    by (bit_vector)
    requires
        r < 8,
        cc < 8,
    ensures
        reg_at(r, 0) == r,
        reg_at(r, 6) == r * 64,
        reg_at(r, 9) == r * 512,
        mask_at(cc, 9) == cc * 512,
        imm_bits(v, 5) == unsigned(v) % 32,
        imm_bits(v, 6) == unsigned(v) % 64,
        imm_bits(v, 7) == unsigned(v) % 128,
        imm_bits(v, 9) == unsigned(v) % 512,
        imm_bits(v, 11) == unsigned(v) % 2048,
        uimm_bits(u, 4) == u % 16,
        uimm_bits(u, 7) == u % 128,
        uimm_bits(u, 8) == u % 256,
{
}

/// What a signed immediate that fits its field counts in the word: itself,
/// or, below zero, itself and the size of the field.
pub open spec fn field_value(v: i16, size: int) -> int {
    if v < 0 {
        v + size
    } else {
        v as int
    }
}

/// The machine word of a legal instruction as a number: each field counts
/// its value times two to the number of its lowest bit.
pub open spec fn word_value(insn: Insn) -> int {
    match insn {
        InsnGen::NOP => 0x0000,
        InsnGen::BR(cc, target) => 0x0000 + cc * 512 + field_value(target.value, 512),
        InsnGen::ADD(rd, rs, rt) => 0x1000 + rd * 512 + rs * 64 + 0 * 8 + rt,
        InsnGen::MUL(rd, rs, rt) => 0x1000 + rd * 512 + rs * 64 + 1 * 8 + rt,
        InsnGen::SUB(rd, rs, rt) => 0x1000 + rd * 512 + rs * 64 + 2 * 8 + rt,
        InsnGen::DIV(rd, rs, rt) => 0x1000 + rd * 512 + rs * 64 + 3 * 8 + rt,
        InsnGen::ADDi(rd, rs, imm) => 0x1000 + rd * 512 + rs * 64 + 32 + field_value(
            imm.value,
            32,
        ),
        InsnGen::CMP(rd, rt) => 0x2000 + rd * 512 + 0 * 128 + rt,
        InsnGen::CMPu(rd, rt) => 0x2000 + rd * 512 + 1 * 128 + rt,
        InsnGen::CMPi(rd, imm) => 0x2000 + rd * 512 + 2 * 128 + field_value(imm.value, 128),
        InsnGen::CMPiu(rd, imm) => 0x2000 + rd * 512 + 3 * 128 + imm.value,
        InsnGen::JSR(target) => 0x4000 + 2048 + field_value(target.value, 2048),
        InsnGen::JSRr(rs) => 0x4000 + rs * 64,
        InsnGen::AND(rd, rs, rt) => 0x5000 + rd * 512 + rs * 64 + 0 * 8 + rt,
        InsnGen::NOT(rd, rs) => 0x5000 + rd * 512 + rs * 64 + 1 * 8,
        InsnGen::OR(rd, rs, rt) => 0x5000 + rd * 512 + rs * 64 + 2 * 8 + rt,
        InsnGen::XOR(rd, rs, rt) => 0x5000 + rd * 512 + rs * 64 + 3 * 8 + rt,
        InsnGen::ANDi(rd, rs, imm) => 0x5000 + rd * 512 + rs * 64 + 32 + field_value(
            imm.value,
            32,
        ),
        InsnGen::LDR(rd, rs, imm) => 0x6000 + rd * 512 + rs * 64 + field_value(imm.value, 64),
        InsnGen::STR(rd, rs, imm) => 0x7000 + rd * 512 + rs * 64 + field_value(imm.value, 64),
        InsnGen::RTI => 0x8000,
        InsnGen::CONST(rd, imm) => 0x9000 + rd * 512 + field_value(imm.value, 512),
        InsnGen::SLL(rd, rs, imm) => 0xA000 + rd * 512 + rs * 64 + 0 * 16 + imm.value,
        InsnGen::SRA(rd, rs, imm) => 0xA000 + rd * 512 + rs * 64 + 1 * 16 + imm.value,
        InsnGen::SRL(rd, rs, imm) => 0xA000 + rd * 512 + rs * 64 + 2 * 16 + imm.value,
        InsnGen::MOD(rd, rs, rt) => 0xA000 + rd * 512 + rs * 64 + 3 * 16 + rt,
        InsnGen::JMPr(rs) => 0xC000 + rs * 64,
        InsnGen::JMP(target) => 0xC000 + 2048 + field_value(target.value, 2048),
        InsnGen::HICONST(rd, imm) => 0xD000 + rd * 512 + 256 + imm.value,
        InsnGen::TRAP(imm) => 0xF000 + imm.value,
    }
}

/// Words of three registers, and of two, in numbers.
proof fn sum_registers(op: u16, code: u16, sub: u16, kind: u16, rd: RName, rs: RName, rt: RName)
    by (bit_vector)
    requires
        code < 16,
        op == code * 0x1000,
        kind < 8,
        sub == kind * 8,
        rd < 8,
        rs < 8,
        rt < 8,
    ensures
        op | reg_at(rd, 9) | reg_at(rs, 6) | sub | reg_at(rt, 0) == op + rd * 512 + rs * 64 + sub
            + rt,
        0x5000 | reg_at(rd, 9) | reg_at(rs, 6) | 0x08 == 0x5000 + rd * 512 + rs * 64 + 8,
        op | reg_at(rs, 6) == op + rs * 64,
{
}

/// Words of two registers and an immediate, in numbers.
proof fn sum_registers_immediate(
    op: u16,
    code: u16,
    sub: u16,
    kind: u16,
    rd: RName,
    rs: RName,
    v: i16,
    u: u16,
)
    by (bit_vector)
    requires
        code < 16,
        op == code * 0x1000,
        kind < 3,
        sub == kind * 16,
        rd < 8,
        rs < 8,
        -32 <= v <= 31,
        u < 16,
    ensures
        op | reg_at(rd, 9) | reg_at(rs, 6) | imm_bits(v, 6) == op + rd * 512 + rs * 64
            + field_value(v, 64),
        -16 <= v <= 15 ==> op | reg_at(rd, 9) | reg_at(rs, 6) | 0x20 | imm_bits(v, 5) == op + rd
            * 512 + rs * 64 + 32 + field_value(v, 32),
        0xA000 | reg_at(rd, 9) | reg_at(rs, 6) | sub | uimm_bits(u, 4) == 0xA000 + rd * 512 + rs
            * 64 + sub + u,
{
}

/// Words of one register or a mask and what follows, in numbers.
proof fn sum_register(sub: u16, kind: u16, rd: RName, rt: RName, cc: CC, v: i16, u: u16)
    by (bit_vector)
    requires
        kind < 2,
        sub == kind * 0x80,
        rd < 8,
        rt < 8,
        1 <= cc <= 7,
        -256 <= v <= 255,
        u < 256,
    ensures
        0x9000 | reg_at(rd, 9) | imm_bits(v, 9) == 0x9000 + rd * 512 + field_value(v, 512),
        0x0000 | mask_at(cc, 9) | imm_bits(v, 9) == 0x0000 + cc * 512 + field_value(v, 512),
        -64 <= v <= 63 ==> 0x2000 | reg_at(rd, 9) | 0x100 | imm_bits(v, 7) == 0x2000 + rd * 512
            + 256 + field_value(v, 128),
        0x2000 | reg_at(rd, 9) | sub | reg_at(rt, 0) == 0x2000 + rd * 512 + sub + rt,
        u < 128 ==> 0x2000 | reg_at(rd, 9) | 0x180 | uimm_bits(u, 7) == 0x2000 + rd * 512 + 384
            + u,
        0xD000 | reg_at(rd, 9) | 0x100 | uimm_bits(u, 8) == 0xD000 + rd * 512 + 256 + u,
        0xF000 | uimm_bits(u, 8) == 0xF000 + u,
{
}

/// Words of the jumps with a displacement, in numbers.
proof fn sum_jump(v: i16)
    by (bit_vector)
    requires
        -1024 <= v <= 1023,
    ensures
        0x4800 | imm_bits(v, 11) == 0x4000 + 2048 + field_value(v, 2048),
        0xC800 | imm_bits(v, 11) == 0xC000 + 2048 + field_value(v, 2048),
{
}

/// The machine word of a legal instruction is the number that its fields
/// count up to.
pub proof fn encoding_in_numbers(insn: Insn)
    requires
        legal(insn),
    ensures
        encoding(insn) == word_value(insn),
{
    match insn {
        InsnGen::NOP => {},
        InsnGen::BR(cc, target) => sum_register(0, 0, 0, 0, cc, target.value, 0),
        InsnGen::ADD(rd, rs, rt) => sum_registers(0x1000, 1, 0x00, 0, rd, rs, rt),
        InsnGen::MUL(rd, rs, rt) => sum_registers(0x1000, 1, 0x08, 1, rd, rs, rt),
        InsnGen::SUB(rd, rs, rt) => sum_registers(0x1000, 1, 0x10, 2, rd, rs, rt),
        InsnGen::DIV(rd, rs, rt) => sum_registers(0x1000, 1, 0x18, 3, rd, rs, rt),
        InsnGen::ADDi(rd, rs, imm) => sum_registers_immediate(
            0x1000,
            1,
            0,
            0,
            rd,
            rs,
            imm.value,
            0,
        ),
        InsnGen::CMP(rd, rt) => sum_register(0x000, 0, rd, rt, 1, 0, 0),
        InsnGen::CMPu(rd, rt) => sum_register(0x080, 1, rd, rt, 1, 0, 0),
        InsnGen::CMPi(rd, imm) => sum_register(0, 0, rd, 0, 1, imm.value, 0),
        InsnGen::CMPiu(rd, imm) => sum_register(0, 0, rd, 0, 1, 0, imm.value),
        InsnGen::JSR(target) => sum_jump(target.value),
        InsnGen::JSRr(rs) => sum_registers(0x4000, 4, 0, 0, 0, rs, 0),
        InsnGen::AND(rd, rs, rt) => sum_registers(0x5000, 5, 0x00, 0, rd, rs, rt),
        InsnGen::NOT(rd, rs) => sum_registers(0, 0, 0, 0, rd, rs, 0),
        InsnGen::OR(rd, rs, rt) => sum_registers(0x5000, 5, 0x10, 2, rd, rs, rt),
        InsnGen::XOR(rd, rs, rt) => sum_registers(0x5000, 5, 0x18, 3, rd, rs, rt),
        InsnGen::ANDi(rd, rs, imm) => sum_registers_immediate(
            0x5000,
            5,
            0,
            0,
            rd,
            rs,
            imm.value,
            0,
        ),
        InsnGen::LDR(rd, rs, imm) => sum_registers_immediate(
            0x6000,
            6,
            0,
            0,
            rd,
            rs,
            imm.value,
            0,
        ),
        InsnGen::STR(rd, rs, imm) => sum_registers_immediate(
            0x7000,
            7,
            0,
            0,
            rd,
            rs,
            imm.value,
            0,
        ),
        InsnGen::RTI => {},
        InsnGen::CONST(rd, imm) => sum_register(0, 0, rd, 0, 1, imm.value, 0),
        InsnGen::SLL(rd, rs, imm) => sum_registers_immediate(0, 0, 0x00, 0, rd, rs, 0, imm.value),
        InsnGen::SRA(rd, rs, imm) => sum_registers_immediate(0, 0, 0x10, 1, rd, rs, 0, imm.value),
        InsnGen::SRL(rd, rs, imm) => sum_registers_immediate(0, 0, 0x20, 2, rd, rs, 0, imm.value),
        InsnGen::MOD(rd, rs, rt) => sum_registers(0xA000, 10, 0x30, 6, rd, rs, rt),
        InsnGen::JMPr(rs) => sum_registers(0xC000, 12, 0, 0, 0, rs, 0),
        InsnGen::JMP(target) => sum_jump(target.value),
        InsnGen::HICONST(rd, imm) => sum_register(0, 0, rd, 0, 1, 0, imm.value),
        InsnGen::TRAP(imm) => sum_register(0, 0, 0, 0, 1, 0, imm.value),
    }
}

} // verus!
