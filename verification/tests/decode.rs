use lc4::architecture::{InsnGen, IMM11, IMM7, IMM9, N, P, R1, R2, R3, R4, UIMM7, Z};
use lc4::controller::Controller;

#[test]
fn decode_unit_tests() {
    assert!(0.decode() == Ok(InsnGen::NOP));

    assert!(0b0000011000000110.decode() == Ok(InsnGen::BR(Z | P, IMM9 { value: 6 })));
    assert!(0b0000100000010110.decode() == Ok(InsnGen::BR(N, IMM9 { value: 22 })));
    assert!(0b0000101111101110.decode() == Ok(InsnGen::BR(N | P, IMM9 { value: -18 })));

    assert!(0b0001010001010100.decode() == Ok(InsnGen::SUB(R2, R1, R4)));

    assert!(0b0010011101101001.decode() == Ok(InsnGen::CMPi(R3, IMM7 { value: -23 })));
    assert!(0b0010011111101001.decode() == Ok(InsnGen::CMPiu(R3, UIMM7 { value: 105 })));

    assert!(0b0100101001101001.decode() == Ok(InsnGen::JSR(IMM11 { value: 617 })));
    assert!(0b0100001001101001.decode() == Ok(InsnGen::JSRr(R1)));

    assert!(0b0101010001010100.decode() == Ok(InsnGen::OR(R2, R1, R4)));
}
