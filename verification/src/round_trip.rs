//! The encoder and the decoder are inverse to each other: on legal
//! instructions exactly, on words up to the bits that an opcode leaves unused.

use crate::architecture::{legal, Insn, InsnGen, RName, CC};
use crate::controller::{bits, decoded_is_legal, decoding, mask_of_word, reg_of};
use crate::encoder::{encoding, imm_bits, mask_at, reg_at, uimm_bits};
use crate::word::sign_extend;
use vstd::prelude::*;

verus! {

/// Opcode, two registers, a sub-opcode at bit 3 and a third register. The
/// sub-opcode of `MOD` is read at bit 4.
proof fn fields_three_registers(
    op: u16,
    code: u16,
    sub: u16,
    kind: u16,
    rd: RName,
    rs: RName,
    rt: RName,
)
    by (bit_vector)
    requires
        code < 16,
        op == code * 0x1000,
        kind < 8,
        sub == kind * 8,
        rd < 8,
        rs < 8,
        rt < 8,
    ensures
        ({
            let w = op | reg_at(rd, 9) | reg_at(rs, 6) | sub | reg_at(rt, 0);
            &&& bits(w, 12, 4) == code
            &&& reg_of(w, 9) == rd
            &&& reg_of(w, 6) == rs
            &&& reg_of(w, 0) == rt
            &&& bits(w, 3, 3) == kind
            &&& bits(w, 4, 2) == kind / 2
        }),
{
}

/// Opcode, two registers and a signed immediate of six bits, or a set bit 5
/// and one of five bits.
proof fn fields_two_registers_immediate(op: u16, code: u16, rd: RName, rs: RName, v: i16)
    by (bit_vector)
    requires
        code < 16,
        op == code * 0x1000,
        rd < 8,
        rs < 8,
        -32 <= v <= 31,
    ensures
        ({
            let w = op | reg_at(rd, 9) | reg_at(rs, 6) | imm_bits(v, 6);
            &&& bits(w, 12, 4) == code
            &&& reg_of(w, 9) == rd
            &&& reg_of(w, 6) == rs
            &&& sign_extend(w, 6) == v
        }),
        -16 <= v <= 15 ==> ({
            let w = op | reg_at(rd, 9) | reg_at(rs, 6) | 0x20 | imm_bits(v, 5);
            &&& bits(w, 12, 4) == code
            &&& reg_of(w, 9) == rd
            &&& reg_of(w, 6) == rs
            &&& bits(w, 3, 3) >= 4
            &&& sign_extend(w, 5) == v
        }),
{
}

/// Two registers alone, as in `NOT`, and two registers with a sub-opcode at
/// bit 4 and a shift amount.
proof fn fields_two_registers(sub: u16, kind: u16, rd: RName, rs: RName, u: u16)
    by (bit_vector)
    requires
        kind < 4,
        sub == kind * 16,
        rd < 8,
        rs < 8,
        u < 16,
    ensures
        ({
            let w = 0x5000 | reg_at(rd, 9) | reg_at(rs, 6) | 0x08;
            &&& bits(w, 12, 4) == 5
            &&& reg_of(w, 9) == rd
            &&& reg_of(w, 6) == rs
            &&& bits(w, 3, 3) == 1
        }),
        ({
            let w = 0xA000 | reg_at(rd, 9) | reg_at(rs, 6) | sub | uimm_bits(u, 4);
            &&& bits(w, 12, 4) == 10
            &&& reg_of(w, 9) == rd
            &&& reg_of(w, 6) == rs
            &&& bits(w, 4, 2) == kind
            &&& bits(w, 0, 4) == u
        }),
{
}

/// One register and a signed immediate: `CONST` and `CMPi`. A mask and a
/// displacement: `BR`.
proof fn fields_register_immediate(rd: RName, cc: CC, v: i16)
    by (bit_vector)
    requires
        rd < 8,
        1 <= cc <= 7,
        -256 <= v <= 255,
    ensures
        ({
            let w = 0x9000 | reg_at(rd, 9) | imm_bits(v, 9);
            &&& bits(w, 12, 4) == 9
            &&& reg_of(w, 9) == rd
            &&& sign_extend(w, 9) == v
        }),
        ({
            let w = 0x0000 | mask_at(cc, 9) | imm_bits(v, 9);
            &&& bits(w, 12, 4) == 0
            &&& mask_of_word(w) == cc
            &&& sign_extend(w, 9) == v
        }),
        -64 <= v <= 63 ==> ({
            let w = 0x2000 | reg_at(rd, 9) | 0x100 | imm_bits(v, 7);
            &&& bits(w, 12, 4) == 2
            &&& reg_of(w, 9) == rd
            &&& bits(w, 7, 2) == 2
            &&& sign_extend(w, 7) == v
        }),
{
}

/// One register and a second register or an unsigned immediate: `CMP`,
/// `CMPu`, `CMPiu` and `HICONST`.
proof fn fields_register_unsigned(sub: u16, kind: u16, rd: RName, rt: RName, u: u16)
    by (bit_vector)
    requires
        kind < 2,
        sub == kind * 0x80,
        rd < 8,
        rt < 8,
        u < 256,
    ensures
        ({
            let w = 0x2000 | reg_at(rd, 9) | sub | reg_at(rt, 0);
            &&& bits(w, 12, 4) == 2
            &&& reg_of(w, 9) == rd
            &&& bits(w, 7, 2) == kind
            &&& reg_of(w, 0) == rt
        }),
        u < 128 ==> ({
            let w = 0x2000 | reg_at(rd, 9) | 0x180 | uimm_bits(u, 7);
            &&& bits(w, 12, 4) == 2
            &&& reg_of(w, 9) == rd
            &&& bits(w, 7, 2) == 3
            &&& bits(w, 0, 7) == u
        }),
        ({
            let w = 0xD000 | reg_at(rd, 9) | 0x100 | uimm_bits(u, 8);
            &&& bits(w, 12, 4) == 13
            &&& reg_of(w, 9) == rd
            &&& bits(w, 0, 8) == u
        }),
{
}

/// The jumps, `TRAP`, and the two words without a field.
proof fn fields_jump(op: u16, code: u16, rs: RName, v: i16, u: u16)
    by (bit_vector)
    requires
        code < 16,
        op == code * 0x1000,
        rs < 8,
        -1024 <= v <= 1023,
        u < 256,
    ensures
        ({
            let w = (op | 0x0800) | imm_bits(v, 11);
            &&& bits(w, 12, 4) == code
            &&& bits(w, 11, 1) == 1
            &&& sign_extend(w, 11) == v
        }),
        ({
            let w = op | reg_at(rs, 6);
            &&& bits(w, 12, 4) == code
            &&& bits(w, 11, 1) == 0
            &&& reg_of(w, 6) == rs
        }),
        ({
            let w = 0xF000 | uimm_bits(u, 8);
            &&& bits(w, 12, 4) == 15
            &&& bits(w, 0, 8) == u
        }),
        bits(0x0000, 12, 4) == 0,
        mask_of_word(0x0000) == 0,
        bits(0x8000, 12, 4) == 8,
        0x4000u16 | 0x0800 == 0x4800,
        0xC000u16 | 0x0800 == 0xC800,
{
}

/// Decoding the word of a legal instruction gives the instruction back.
pub proof fn decode_inverts_encode(insn: Insn)
    requires
        legal(insn),
    ensures
        decoding(encoding(insn)) == Ok::<Insn, crate::controller::DecodeError>(insn),
{
    match insn {
        InsnGen::NOP => fields_jump(0, 0, 0, 0, 0),
        InsnGen::BR(cc, off) => fields_register_immediate(0, cc, off.value),
        InsnGen::ADD(rd, rs, rt) => fields_three_registers(0x1000, 1, 0x00, 0, rd, rs, rt),
        InsnGen::MUL(rd, rs, rt) => fields_three_registers(0x1000, 1, 0x08, 1, rd, rs, rt),
        InsnGen::SUB(rd, rs, rt) => fields_three_registers(0x1000, 1, 0x10, 2, rd, rs, rt),
        InsnGen::DIV(rd, rs, rt) => fields_three_registers(0x1000, 1, 0x18, 3, rd, rs, rt),
        InsnGen::ADDi(rd, rs, n) => fields_two_registers_immediate(0x1000, 1, rd, rs, n.value),
        InsnGen::CMP(rd, rt) => fields_register_unsigned(0x000, 0, rd, rt, 0),
        InsnGen::CMPu(rd, rt) => fields_register_unsigned(0x080, 1, rd, rt, 0),
        InsnGen::CMPi(rd, n) => fields_register_immediate(rd, 1, n.value),
        InsnGen::CMPiu(rd, n) => fields_register_unsigned(0, 0, rd, 0, n.value),
        InsnGen::JSR(t) => fields_jump(0x4000, 4, 0, t.value, 0),
        InsnGen::JSRr(rs) => fields_jump(0x4000, 4, rs, 0, 0),
        InsnGen::AND(rd, rs, rt) => fields_three_registers(0x5000, 5, 0x00, 0, rd, rs, rt),
        InsnGen::NOT(rd, rs) => fields_two_registers(0, 0, rd, rs, 0),
        InsnGen::OR(rd, rs, rt) => fields_three_registers(0x5000, 5, 0x10, 2, rd, rs, rt),
        InsnGen::XOR(rd, rs, rt) => fields_three_registers(0x5000, 5, 0x18, 3, rd, rs, rt),
        InsnGen::ANDi(rd, rs, n) => fields_two_registers_immediate(0x5000, 5, rd, rs, n.value),
        InsnGen::LDR(rd, rs, n) => fields_two_registers_immediate(0x6000, 6, rd, rs, n.value),
        InsnGen::STR(rd, rs, n) => fields_two_registers_immediate(0x7000, 7, rd, rs, n.value),
        InsnGen::RTI => fields_jump(0, 0, 0, 0, 0),
        InsnGen::CONST(rd, n) => fields_register_immediate(rd, 1, n.value),
        InsnGen::SLL(rd, rs, n) => fields_two_registers(0x00, 0, rd, rs, n.value),
        InsnGen::SRA(rd, rs, n) => fields_two_registers(0x10, 1, rd, rs, n.value),
        InsnGen::SRL(rd, rs, n) => fields_two_registers(0x20, 2, rd, rs, n.value),
        InsnGen::MOD(rd, rs, rt) => fields_three_registers(0xA000, 10, 0x30, 6, rd, rs, rt),
        InsnGen::JMPr(rs) => fields_jump(0xC000, 12, rs, 0, 0),
        InsnGen::JMP(t) => fields_jump(0xC000, 12, 0, t.value, 0),
        InsnGen::HICONST(rd, n) => fields_register_unsigned(0, 0, rd, 0, n.value),
        InsnGen::TRAP(n) => fields_jump(0, 0, 0, 0, n.value),
    }
}

/// The bits of a word that its opcode does not use: whatever they hold, the
/// word decodes alike.
pub open spec fn unused_bits(w: u16) -> u16 {
    let opcode = bits(w, 12, 4);
    if opcode == 0 && mask_of_word(w) == 0 {
        0x01FF
    } else if opcode == 2 && bits(w, 7, 2) < 2 {
        0x0078
    } else if (opcode == 4 || opcode == 12) && bits(w, 11, 1) == 0 {
        0x063F
    } else if opcode == 5 && bits(w, 3, 3) == 1 {
        0x0007
    } else if opcode == 8 {
        0x0FFF
    } else if opcode == 10 && bits(w, 4, 2) == 3 {
        0x0008
    } else if opcode == 13 {
        0x0100
    } else if opcode == 15 {
        0x0F00
    } else {
        0
    }
}

/// The bits that the encoder sets whatever the instruction holds: bit 8 of
/// `HICONST`.
pub open spec fn fixed_bits(w: u16) -> u16 {
    if bits(w, 12, 4) == 13 {
        0x0100
    } else {
        0
    }
}

/// A word with the bits of `clear` cleared and then those of `set` set.
pub open spec fn adjusted(w: u16, clear: u16, set: u16) -> u16 {
    (w & !clear) | set
}

/// The word that the encoder writes for what `w` decodes to: `w` with its
/// unused bits cleared, but for the fixed ones.
pub open spec fn canonical(w: u16) -> u16 {
    adjusted(w, unused_bits(w), fixed_bits(w))
}

/// Words of three registers, of `NOT` and of `MOD`, put together again.
proof fn rebuilt_three_registers(w: u16, op: u16, code: u16, sub: u16, kind: u16)
    by (bit_vector)
    requires
        code < 16,
        op == code * 0x1000,
        kind < 4,
        sub == kind * 8,
        bits(w, 12, 4) == code,
    ensures
        bits(w, 3, 3) == kind ==> op | reg_at(reg_of(w, 9), 9) | reg_at(reg_of(w, 6), 6) | sub
            | reg_at(reg_of(w, 0), 0) == adjusted(w, 0, 0),
        code == 5 && bits(w, 3, 3) == 1 ==> 0x5000 | reg_at(reg_of(w, 9), 9) | reg_at(
            reg_of(w, 6),
            6,
        ) | 0x08 == adjusted(w, 0x0007, 0),
        code == 10 && bits(w, 4, 2) == 3 ==> 0xA000 | reg_at(reg_of(w, 9), 9) | reg_at(
            reg_of(w, 6),
            6,
        ) | 0x30 | reg_at(reg_of(w, 0), 0) == adjusted(w, 0x0008, 0),
{
}

/// Words of two registers and an immediate, put together again.
proof fn rebuilt_two_registers_immediate(w: u16, op: u16, code: u16, sub: u16, kind: u16)
    by (bit_vector)
    requires
        code < 16,
        op == code * 0x1000,
        kind < 3,
        sub == kind * 16,
        bits(w, 12, 4) == code,
    ensures
        bits(w, 3, 3) >= 4 ==> op | reg_at(reg_of(w, 9), 9) | reg_at(reg_of(w, 6), 6) | 0x20
            | imm_bits(sign_extend(w, 5), 5) == adjusted(w, 0, 0),
        op | reg_at(reg_of(w, 9), 9) | reg_at(reg_of(w, 6), 6) | imm_bits(sign_extend(w, 6), 6)
            == adjusted(w, 0, 0),
        code == 10 && bits(w, 4, 2) == kind ==> 0xA000 | reg_at(reg_of(w, 9), 9) | reg_at(
            reg_of(w, 6),
            6,
        ) | sub | uimm_bits(bits(w, 0, 4), 4) == adjusted(w, 0, 0),
{
}

/// Words of one register or a mask and a signed immediate, put together
/// again.
proof fn rebuilt_register_immediate(w: u16)
    by (bit_vector)
    ensures
        bits(w, 12, 4) == 9 ==> 0x9000 | reg_at(reg_of(w, 9), 9) | imm_bits(sign_extend(w, 9), 9)
            == adjusted(w, 0, 0),
        bits(w, 12, 4) == 0 && mask_of_word(w) != 0 ==> 0x0000 | mask_at(mask_of_word(w), 9)
            | imm_bits(sign_extend(w, 9), 9) == adjusted(w, 0, 0),
        bits(w, 12, 4) == 0 && mask_of_word(w) == 0 ==> 0x0000 == adjusted(w, 0x01FF, 0),
        bits(w, 12, 4) == 2 && bits(w, 7, 2) == 2 ==> 0x2000 | reg_at(reg_of(w, 9), 9) | 0x100
            | imm_bits(sign_extend(w, 7), 7) == adjusted(w, 0, 0),
{
}

/// Words of one register and a second register or an unsigned immediate, put
/// together again.
proof fn rebuilt_register_unsigned(w: u16, sub: u16, kind: u16)
    by (bit_vector)
    requires
        kind < 2,
        sub == kind * 0x80,
    ensures
        bits(w, 12, 4) == 2 && bits(w, 7, 2) == kind ==> 0x2000 | reg_at(reg_of(w, 9), 9) | sub
            | reg_at(reg_of(w, 0), 0) == adjusted(w, 0x0078, 0),
        bits(w, 12, 4) == 2 && bits(w, 7, 2) == 3 ==> 0x2000 | reg_at(reg_of(w, 9), 9) | 0x180
            | uimm_bits(bits(w, 0, 7), 7) == adjusted(w, 0, 0),
        bits(w, 12, 4) == 13 ==> 0xD000 | reg_at(reg_of(w, 9), 9) | 0x100 | uimm_bits(
            bits(w, 0, 8),
            8,
        ) == adjusted(w, 0x0100, 0x0100),
{
}

/// Words of the jumps, of `TRAP` and of `RTI`, put together again.
proof fn rebuilt_jump(w: u16, op: u16, code: u16)
    by (bit_vector)
    requires
        code < 16,
        op == code * 0x1000,
        bits(w, 12, 4) == code,
    ensures
        bits(w, 11, 1) != 0 ==> (op | 0x0800) | imm_bits(sign_extend(w, 11), 11) == adjusted(
            w,
            0,
            0,
        ),
        bits(w, 11, 1) == 0 ==> op | reg_at(reg_of(w, 6), 6) == adjusted(w, 0x063F, 0),
        code == 15 ==> 0xF000 | uimm_bits(bits(w, 0, 8), 8) == adjusted(w, 0x0F00, 0),
        code == 8 ==> 0x8000 == adjusted(w, 0x0FFF, 0),
        0x4000u16 | 0x0800 == 0x4800,
        0xC000u16 | 0x0800 == 0xC800,
{
}

/// Encoding what a word decodes to gives the word back, up to the bits that
/// its opcode leaves unused and the bit that the encoder fixes.
pub proof fn encode_inverts_decode(w: u16)
    requires
        decoding(w) is Ok,
    ensures
        legal(decoding(w)->Ok_0),
        encoding(decoding(w)->Ok_0) == canonical(w),
{
    decoded_is_legal(w);
    let opcode = bits(w, 12, 4);
    assert(opcode < 16 && bits(w, 3, 3) < 8 && bits(w, 7, 2) < 4 && bits(w, 4, 2) < 4 && bits(
        w,
        11,
        1,
    ) < 2) by (bit_vector)
        requires
            opcode == bits(w, 12, 4),
    ;
    if opcode == 0 || opcode == 9 {
        rebuilt_register_immediate(w);
    } else if opcode == 1 || opcode == 5 {
        let op: u16 = if opcode == 1 {
            0x1000
        } else {
            0x5000
        };
        if bits(w, 3, 3) < 4 {
            rebuilt_three_registers(w, op, opcode, (bits(w, 3, 3) * 8) as u16, bits(w, 3, 3));
        } else {
            rebuilt_two_registers_immediate(w, op, opcode, 0, 0);
        }
    } else if opcode == 2 {
        if bits(w, 7, 2) < 2 {
            rebuilt_register_unsigned(w, (bits(w, 7, 2) * 0x80) as u16, bits(w, 7, 2));
        } else if bits(w, 7, 2) == 2 {
            rebuilt_register_immediate(w);
        } else {
            rebuilt_register_unsigned(w, 0, 0);
        }
    } else if opcode == 4 {
        rebuilt_jump(w, 0x4000, 4);
    } else if opcode == 6 {
        rebuilt_two_registers_immediate(w, 0x6000, 6, 0, 0);
    } else if opcode == 7 {
        rebuilt_two_registers_immediate(w, 0x7000, 7, 0, 0);
    } else if opcode == 8 {
        rebuilt_jump(w, 0x8000, 8);
    } else if opcode == 10 {
        if bits(w, 4, 2) == 3 {
            rebuilt_three_registers(w, 0xA000, 10, 0, 0);
        } else {
            rebuilt_two_registers_immediate(
                w,
                0xA000,
                10,
                (bits(w, 4, 2) * 16) as u16,
                bits(w, 4, 2),
            );
        }
    } else if opcode == 12 {
        rebuilt_jump(w, 0xC000, 12);
    } else if opcode == 13 {
        rebuilt_register_unsigned(w, 0, 0);
    } else if opcode == 15 {
        rebuilt_jump(w, 0xF000, 15);
    }
}

/// A word and its canonical form decode alike.
pub proof fn canonical_decodes_alike(w: u16)
    requires
        decoding(w) is Ok,
    ensures
        decoding(canonical(w)) == decoding(w),
{
    encode_inverts_decode(w);
    decode_inverts_encode(decoding(w)->Ok_0);
}

} // verus!
