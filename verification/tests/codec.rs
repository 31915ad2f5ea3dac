use lc4::architecture::{
    is_legal, Insn, InsnGen, IMM11, IMM5, IMM6, IMM7, IMM9, N, P, R0, R1, R2, R3, R4, R5, R6, R7,
    UIMM4, UIMM7, UIMM8, Z,
};
use lc4::controller::{Controller, DecodeError};
use lc4::encoder::encode_insn;

fn word(insn: Insn) -> u16 {
    encode_insn(insn) as u16
}

#[test]
fn encode_matches_the_bit_layout() {
    assert_eq!(word(InsnGen::NOP), 0x0000);
    assert_eq!(word(InsnGen::BR(Z | P, IMM9 { value: 6 })), 0b0000_011_000000110);
    assert_eq!(word(InsnGen::BR(N | P, IMM9 { value: -18 })), 0b0000_101_111101110);
    assert_eq!(word(InsnGen::SUB(R2, R1, R4)), 0b0001_010_001_010_100);
    assert_eq!(word(InsnGen::CMPiu(R3, UIMM7 { value: 105 })), 0b0010_011_11_1101001);
    assert_eq!(word(InsnGen::JSR(IMM11 { value: 617 })), 0b0100_1_01001101001);
    assert_eq!(word(InsnGen::ADD(R1, R2, R3)), 0x1283);
    assert_eq!(word(InsnGen::MUL(R1, R2, R3)), 0x128B);
    assert_eq!(word(InsnGen::DIV(R7, R7, R7)), 0x1FDF);
    assert_eq!(word(InsnGen::ADDi(R0, R0, IMM5 { value: -1 })), 0x103F);
    assert_eq!(word(InsnGen::CMP(R5, R6)), 0x2A06);
    assert_eq!(word(InsnGen::CMPu(R5, R6)), 0x2A86);
    assert_eq!(word(InsnGen::CMPi(R3, IMM7 { value: -23 })), 0b0010011101101001);
    assert_eq!(word(InsnGen::JSRr(R1)), 0x4040);
    assert_eq!(word(InsnGen::AND(R2, R1, R4)), 0x5444);
    assert_eq!(word(InsnGen::NOT(R2, R1)), 0x5448);
    assert_eq!(word(InsnGen::OR(R2, R1, R4)), 0b0101010001010100);
    assert_eq!(word(InsnGen::XOR(R2, R1, R4)), 0x545C);
    assert_eq!(word(InsnGen::ANDi(R2, R1, IMM5 { value: 15 })), 0x546F);
    assert_eq!(word(InsnGen::LDR(R0, R6, IMM6 { value: 0 })), 0x6180);
    assert_eq!(word(InsnGen::STR(R0, R6, IMM6 { value: -32 })), 0x71A0);
    assert_eq!(word(InsnGen::RTI), 0x8000);
    assert_eq!(word(InsnGen::CONST(R1, IMM9 { value: -3 })), 0x93FD);
    assert_eq!(word(InsnGen::SLL(R1, R2, UIMM4 { value: 3 })), 0xA283);
    assert_eq!(word(InsnGen::SRA(R1, R2, UIMM4 { value: 3 })), 0xA293);
    assert_eq!(word(InsnGen::SRL(R1, R2, UIMM4 { value: 15 })), 0xA2AF);
    assert_eq!(word(InsnGen::MOD(R1, R2, R3)), 0xA2B3);
    assert_eq!(word(InsnGen::JMPr(R7)), 0xC1C0);
    assert_eq!(word(InsnGen::JMP(IMM11 { value: -1 })), 0xCFFF);
    assert_eq!(word(InsnGen::HICONST(R3, UIMM8 { value: 0xAB })), 0xD7AB);
    assert_eq!(word(InsnGen::TRAP(UIMM8 { value: 0x25 })), 0xF025);
}

#[test]
fn encode_returns_the_signed_reading() {
    assert_eq!(encode_insn(InsnGen::RTI), -32768);
    assert_eq!(encode_insn(InsnGen::TRAP(UIMM8 { value: 0xFF })), -3841);
    assert_eq!(encode_insn(InsnGen::ADD(R0, R0, R0)), 0x1000);
}

#[test]
fn encode_cuts_fields_to_their_width() {
    assert_eq!(word(InsnGen::ADD(9, 0, 0)), word(InsnGen::ADD(1, 0, 0)));
    assert_eq!(word(InsnGen::CONST(R0, IMM9 { value: 0x1FF })), 0x91FF);
    assert_eq!(word(InsnGen::TRAP(UIMM8 { value: 0x1FF })), 0xF0FF);
    assert_eq!(word(InsnGen::BR(0xFF, IMM9 { value: 0 })), 0x0E00);
}

#[test]
fn decode_scenarios() {
    assert_eq!(0b0000_011_000000110u16.decode(), Ok(InsnGen::BR(Z | P, IMM9 { value: 6 })));
    assert_eq!(0b0000_101_111101110u16.decode(), Ok(InsnGen::BR(N | P, IMM9 { value: -18 })));
    assert_eq!(0b0001_010_001_010_100u16.decode(), Ok(InsnGen::SUB(R2, R1, R4)));
    assert_eq!(0b0010_011_11_1101001u16.decode(), Ok(InsnGen::CMPiu(R3, UIMM7 { value: 105 })));
    assert_eq!(0b0100_1_01001101001u16.decode(), Ok(InsnGen::JSR(IMM11 { value: 617 })));
}

#[test]
fn decode_reserved_opcodes() {
    for low in [0u16, 1, 0x0123, 0x0FFF] {
        assert_eq!((0x3000 | low).decode(), Err(DecodeError::BadOpcode));
        assert_eq!((0xB000 | low).decode(), Err(DecodeError::BadOpcode));
        assert_eq!((0xE000 | low).decode(), Err(DecodeError::BadOpcode));
    }
}

#[test]
fn decode_nop_and_branch() {
    assert_eq!(0x0000u16.decode(), Ok(InsnGen::NOP));
    assert_eq!(0x0001u16.decode(), Ok(InsnGen::NOP));
    assert_eq!(0x01FFu16.decode(), Ok(InsnGen::NOP));
    assert_eq!(0x0200u16.decode(), Ok(InsnGen::BR(P, IMM9 { value: 0 })));
    assert_eq!(0x0E00u16.decode(), Ok(InsnGen::BR(N | Z | P, IMM9 { value: 0 })));
    assert_eq!(0x0FFFu16.decode(), Ok(InsnGen::BR(7, IMM9 { value: -1 })));
    assert_eq!(0x0500u16.decode(), Ok(InsnGen::BR(Z, IMM9 { value: -256 })));
}

#[test]
fn decode_ignores_unused_bits() {
    assert_eq!(0x8ABCu16.decode(), Ok(InsnGen::RTI));
    assert_eq!(0xD6ABu16.decode(), Ok(InsnGen::HICONST(R3, UIMM8 { value: 0xAB })));
    assert_eq!(0xFF25u16.decode(), Ok(InsnGen::TRAP(UIMM8 { value: 0x25 })));
    assert_eq!(0x544Fu16.decode(), Ok(InsnGen::NOT(R2, R1)));
    assert_eq!(0x467Fu16.decode(), Ok(InsnGen::JSRr(R1)));
    assert_eq!(0xC7FFu16.decode(), Ok(InsnGen::JMPr(R7)));
    assert_eq!(0xA2BBu16.decode(), Ok(InsnGen::MOD(R1, R2, R3)));
    assert_eq!(0x2A7Eu16.decode(), Ok(InsnGen::CMP(R5, R6)));
}

fn unused_bits(w: u16) -> u16 {
    let opcode = w >> 12;
    let mask = (w >> 9) & 7;
    match opcode {
        0 if mask == 0 => 0x01FF,
        2 if (w >> 7) & 3 < 2 => 0x0078,
        4 | 12 if (w >> 11) & 1 == 0 => 0x063F,
        5 if (w >> 3) & 7 == 1 => 0x0007,
        8 => 0x0FFF,
        10 if (w >> 4) & 3 == 3 => 0x0008,
        13 => 0x0100,
        15 => 0x0F00,
        _ => 0,
    }
}

#[test]
fn every_word_round_trips_up_to_unused_bits() {
    let mut legal_words = 0u32;
    for w in 0..=u16::MAX {
        match w.decode() {
            Err(DecodeError::BadOpcode) => {
                let opcode = w >> 12;
                assert!(opcode == 3 || opcode == 11 || opcode == 14);
            }
            Ok(insn) => {
                legal_words += 1;
                assert!(is_legal(&insn));
                let back = word(insn);
                let fixed = if w >> 12 == 13 { 0x0100 } else { 0 };
                assert_eq!(back, (w & !unused_bits(w)) | fixed);
                assert_eq!(back.decode(), Ok(insn));
            }
        }
    }
    assert_eq!(legal_words, 13 * 4096);
}

#[test]
fn legal_instructions_round_trip() {
    let mut all: Vec<Insn> = vec![InsnGen::NOP, InsnGen::RTI];
    for rd in 0..8 {
        for v in [-256i16, -1, 0, 1, 255] {
            all.push(InsnGen::CONST(rd, IMM9 { value: v }));
        }
        for v in [-64i16, -1, 0, 63] {
            all.push(InsnGen::CMPi(rd, IMM7 { value: v }));
        }
        for u in [0u16, 1, 127] {
            all.push(InsnGen::CMPiu(rd, UIMM7 { value: u }));
        }
        for u in [0u16, 1, 255] {
            all.push(InsnGen::HICONST(rd, UIMM8 { value: u }));
        }
        all.push(InsnGen::JSRr(rd));
        all.push(InsnGen::JMPr(rd));
        for rs in 0..8 {
            all.push(InsnGen::NOT(rd, rs));
            all.push(InsnGen::CMP(rd, rs));
            all.push(InsnGen::CMPu(rd, rs));
            for v in [-16i16, -1, 0, 15] {
                all.push(InsnGen::ADDi(rd, rs, IMM5 { value: v }));
                all.push(InsnGen::ANDi(rd, rs, IMM5 { value: v }));
            }
            for v in [-32i16, -1, 0, 31] {
                all.push(InsnGen::LDR(rd, rs, IMM6 { value: v }));
                all.push(InsnGen::STR(rd, rs, IMM6 { value: v }));
            }
            for u in [0u16, 1, 15] {
                all.push(InsnGen::SLL(rd, rs, UIMM4 { value: u }));
                all.push(InsnGen::SRA(rd, rs, UIMM4 { value: u }));
                all.push(InsnGen::SRL(rd, rs, UIMM4 { value: u }));
            }
            for rt in 0..8 {
                all.push(InsnGen::ADD(rd, rs, rt));
                all.push(InsnGen::MUL(rd, rs, rt));
                all.push(InsnGen::SUB(rd, rs, rt));
                all.push(InsnGen::DIV(rd, rs, rt));
                all.push(InsnGen::AND(rd, rs, rt));
                all.push(InsnGen::OR(rd, rs, rt));
                all.push(InsnGen::XOR(rd, rs, rt));
                all.push(InsnGen::MOD(rd, rs, rt));
            }
        }
    }
    for cc in 1..=7u8 {
        for v in [-256i16, -18, 0, 6, 255] {
            all.push(InsnGen::BR(cc, IMM9 { value: v }));
        }
    }
    for v in [-1024i16, -1, 0, 617, 1023] {
        all.push(InsnGen::JSR(IMM11 { value: v }));
        all.push(InsnGen::JMP(IMM11 { value: v }));
    }
    for u in [0u16, 0x25, 255] {
        all.push(InsnGen::TRAP(UIMM8 { value: u }));
    }
    for insn in all {
        assert!(is_legal(&insn));
        assert_eq!(word(insn).decode(), Ok(insn));
    }
}

#[test]
fn illegal_instructions_are_told_apart() {
    assert!(!is_legal(&InsnGen::ADD(8, 0, 0)));
    assert!(!is_legal(&InsnGen::BR(0, IMM9 { value: 0 })));
    assert!(!is_legal(&InsnGen::BR(8, IMM9 { value: 0 })));
    assert!(!is_legal(&InsnGen::BR(1, IMM9 { value: 256 })));
    assert!(!is_legal(&InsnGen::JMP(IMM11 { value: 1024 })));
    assert!(!is_legal(&InsnGen::JSR(IMM11 { value: -1025 })));
    assert!(!is_legal(&InsnGen::SLL(0, 0, UIMM4 { value: 16 })));
    assert!(!is_legal(&InsnGen::LDR(0, 0, IMM6 { value: 32 })));
    assert!(is_legal(&InsnGen::LDR(0, 0, IMM6 { value: 31 })));
}
