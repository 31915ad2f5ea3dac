use lc4::architecture::{
    partial_cast, Insn, InsnGen, IMM11, IMM16, IMM5, IMM6, IMM7, IMM9, UIMM16, UIMM4, UIMM7,
    UIMM8,
};
use lc4::word::{extend, to_signed, to_unsigned, wrap, wrap_unsigned};

#[test]
fn signed_immediates_reject_what_does_not_fit() {
    assert_eq!(IMM5::new(-16), Some(IMM5 { value: -16 }));
    assert_eq!(IMM5::new(15), Some(IMM5 { value: 15 }));
    assert_eq!(IMM5::new(-17), None);
    assert_eq!(IMM5::new(16), None);
    assert_eq!(IMM6::new(-32), Some(IMM6 { value: -32 }));
    assert_eq!(IMM6::new(31), Some(IMM6 { value: 31 }));
    assert_eq!(IMM6::new(-33), None);
    assert_eq!(IMM6::new(32), None);
    assert_eq!(IMM7::new(-64), Some(IMM7 { value: -64 }));
    assert_eq!(IMM7::new(63), Some(IMM7 { value: 63 }));
    assert_eq!(IMM7::new(-65), None);
    assert_eq!(IMM7::new(64), None);
    assert_eq!(IMM9::new(-256), Some(IMM9 { value: -256 }));
    assert_eq!(IMM9::new(255), Some(IMM9 { value: 255 }));
    assert_eq!(IMM9::new(-257), None);
    assert_eq!(IMM9::new(256), None);
    assert_eq!(IMM11::new(-1024), Some(IMM11 { value: -1024 }));
    assert_eq!(IMM11::new(1023), Some(IMM11 { value: 1023 }));
    assert_eq!(IMM11::new(-1025), None);
    assert_eq!(IMM11::new(1024), None);
    assert_eq!(IMM16::new(i16::MIN), Some(IMM16 { value: i16::MIN }));
    assert_eq!(IMM16::new(i16::MAX), Some(IMM16 { value: i16::MAX }));
}

#[test]
fn unsigned_immediates_reject_what_does_not_fit() {
    assert_eq!(UIMM4::new(15), Some(UIMM4 { value: 15 }));
    assert_eq!(UIMM4::new(16), None);
    assert_eq!(UIMM7::new(127), Some(UIMM7 { value: 127 }));
    assert_eq!(UIMM7::new(128), None);
    assert_eq!(UIMM8::new(255), Some(UIMM8 { value: 255 }));
    assert_eq!(UIMM8::new(256), None);
    assert_eq!(UIMM16::new(0xFFFF), Some(UIMM16 { value: 0xFFFF }));
    assert_eq!(UIMM16::new(0), Some(UIMM16 { value: 0 }));
}

#[test]
fn fits_agrees_with_new() {
    for v in -40i16..40 {
        assert_eq!(IMM5 { value: v }.fits(), IMM5::new(v).is_some());
        assert_eq!(IMM6 { value: v }.fits(), IMM6::new(v).is_some());
    }
    for u in 0u16..300 {
        assert_eq!(UIMM4 { value: u }.fits(), UIMM4::new(u).is_some());
        assert_eq!(UIMM7 { value: u }.fits(), UIMM7::new(u).is_some());
        assert_eq!(UIMM8 { value: u }.fits(), UIMM8::new(u).is_some());
    }
}

#[test]
fn partial_cast_keeps_operation_and_operands() {
    let symbolic: InsnGen<String, String> = InsnGen::ADDi(1, 2, IMM5 { value: -4 });
    let resolved: Insn = partial_cast(&symbolic);
    assert_eq!(resolved, InsnGen::ADDi(1, 2, IMM5 { value: -4 }));
    let symbolic: InsnGen<String, String> = InsnGen::TRAP(UIMM8 { value: 9 });
    let resolved: Insn = partial_cast(&symbolic);
    assert_eq!(resolved, InsnGen::TRAP(UIMM8 { value: 9 }));
    let symbolic: InsnGen<String, String> = InsnGen::RTI;
    let resolved: Insn = partial_cast(&symbolic);
    assert_eq!(resolved, InsnGen::RTI);
    let back: InsnGen<u8, u8> = partial_cast(&InsnGen::<IMM9, IMM11>::MOD(7, 6, 5));
    assert_eq!(back, InsnGen::MOD(7, 6, 5));
}

#[test]
fn words_have_two_readings() {
    assert_eq!(to_signed(0), 0);
    assert_eq!(to_signed(0x7FFF), 32767);
    assert_eq!(to_signed(0x8000), -32768);
    assert_eq!(to_signed(0xFFFF), -1);
    assert_eq!(to_unsigned(-1), 0xFFFF);
    assert_eq!(to_unsigned(-32768), 0x8000);
    assert_eq!(to_unsigned(5), 5);
}

#[test]
fn sign_extension_reads_the_low_bits() {
    assert_eq!(extend(0b1_1110_1110, 9), -18);
    assert_eq!(extend(0b0_0000_0110, 9), 6);
    assert_eq!(extend(0xFFFF, 5), -1);
    assert_eq!(extend(0x0010, 5), -16);
    assert_eq!(extend(0x000F, 5), 15);
    assert_eq!(extend(0xFE0F, 5), 15);
    assert_eq!(extend(0x0400, 11), -1024);
    assert_eq!(extend(0x8000, 16), -32768);
    assert_eq!(extend(0x0001, 1), -1);
}

#[test]
fn wrapping_keeps_sixteen_bits() {
    assert_eq!(wrap(32768), -32768);
    assert_eq!(wrap(-32769), 32767);
    assert_eq!(wrap(65536 + 7), 7);
    assert_eq!(wrap(-5), -5);
    assert_eq!(wrap_unsigned(-1), 0xFFFF);
    assert_eq!(wrap_unsigned(65536), 0);
    assert_eq!(wrap_unsigned(65537), 1);
}
