use lc4::architecture::{
    InsnGen, IMM11, IMM16, IMM5, IMM6, IMM7, IMM9, N, P, R0, R1, R2, R3, R5, R6, R7, UIMM16,
    UIMM4, UIMM7, UIMM8, Z,
};
use lc4::assembler::{assemble, Assm};
use lc4::assm_data::{read_object, write_object, AssmData};
use lc4::controller::DecodeError;
use lc4::processor::{boot, from_ordering, CPUError, Simulate, CPU};
use std::cmp::Ordering;

fn load(items: Vec<Assm>) -> CPU {
    boot(read_object(&write_object(&assemble(items))).unwrap())
}

fn blank() -> CPU {
    boot(read_object(&[0, 0]).unwrap())
}

fn snapshot(cpu: &CPU) -> ([i16; 8], bool, u16, u8, Vec<i16>) {
    (cpu.regfile, cpu.priv_status, cpu.pc, cpu.nzp, cpu.memory.clone())
}

#[test]
fn boot_state() {
    let cpu = blank();
    assert_eq!(cpu.regfile, [0; 8]);
    assert_eq!(cpu.pc, 0);
    assert_eq!(cpu.nzp, Z);
    assert!(!cpu.priv_status);
    assert_eq!(cpu.memory.len(), 0x10000);
    let image = read_object(&[0, 2, 0x12, 0x34, 0xFF, 0xFF]).unwrap();
    let cpu = boot(image);
    assert_eq!(cpu.memory[0], 0x1234);
    assert_eq!(cpu.memory[1], -1);
    assert_eq!(cpu.memory[2], 0);
}

#[test]
fn from_ordering_sets_one_flag() {
    assert_eq!(from_ordering(Ordering::Less), N);
    assert_eq!(from_ordering(Ordering::Equal), Z);
    assert_eq!(from_ordering(Ordering::Greater), P);
    assert_eq!((N, Z, P), (4, 2, 1));
}

#[test]
fn three_line_program_runs() {
    let mut cpu = load(vec![
        Assm::Insn(InsnGen::CONST(R0, IMM9 { value: 5 })),
        Assm::Insn(InsnGen::CONST(R1, IMM9 { value: -3 })),
        Assm::Insn(InsnGen::ADD(R2, R0, R1)),
    ]);
    assert_eq!(cpu.step(), Ok(()));
    assert_eq!(cpu.step(), Ok(()));
    assert_eq!(cpu.step(), Ok(()));
    assert_eq!(cpu.regfile[R2], 2);
    assert_eq!(cpu.regfile[R0], 5);
    assert_eq!(cpu.regfile[R1], -3);
    assert_eq!(cpu.pc, 3);
}

#[test]
fn load_from_the_data_section() {
    let image = assemble(vec![
        Assm::DATA,
        Assm::LABEL("X".to_string()),
        Assm::FILL(IMM16 { value: 7 }),
        Assm::CODE,
        Assm::Insn(InsnGen::LDR(R0, R6, IMM6 { value: 0 })),
    ]);
    let (_, raw) = *image.labels.get("X").unwrap();
    let x = 16 + raw;
    let mut cpu = boot(read_object(&write_object(&image)).unwrap());
    cpu.regfile[R6] = x as i16;
    cpu.priv_status = true;
    assert_eq!(cpu.step(), Ok(()));
    assert_eq!(cpu.regfile[R0], 7);
    assert_eq!(cpu.pc, 1);
}

#[test]
fn user_mode_store_above_is_unauthorized() {
    let mut cpu = blank();
    cpu.regfile[R0] = 42;
    cpu.regfile[R6] = 0x9000u16 as i16;
    cpu.nzp = P;
    let before = snapshot(&cpu);
    assert_eq!(
        cpu.execute(InsnGen::STR(R0, R6, IMM6 { value: 0 })),
        Err(CPUError::Unauthorized)
    );
    assert_eq!(snapshot(&cpu), before);
    assert_eq!(
        cpu.execute(InsnGen::LDR(R0, R6, IMM6 { value: 0 })),
        Err(CPUError::Unauthorized)
    );
    assert_eq!(snapshot(&cpu), before);
    // the address is what counts, not the base register
    cpu.regfile[R6] = 0x7FFF;
    assert_eq!(
        cpu.execute(InsnGen::LDR(R0, R6, IMM6 { value: 1 })),
        Err(CPUError::Unauthorized)
    );
    cpu.regfile[R6] = 0x8000u16 as i16;
    assert_eq!(cpu.execute(InsnGen::LDR(R0, R6, IMM6 { value: -1 })), Ok(()));
}

#[test]
fn unauthorized_step_leaves_the_state() {
    let mut cpu = load(vec![Assm::Insn(InsnGen::STR(R0, R6, IMM6 { value: 0 }))]);
    cpu.regfile[R6] = 0x9000u16 as i16;
    let before = snapshot(&cpu);
    assert_eq!(cpu.step(), Err(CPUError::Unauthorized));
    assert_eq!(snapshot(&cpu), before);
}

#[test]
fn trap_and_return() {
    let mut cpu = load(vec![
        Assm::Insn(InsnGen::NOP),
        Assm::Insn(InsnGen::TRAP(UIMM8 { value: 0x25 })),
        Assm::Insn(InsnGen::NOP),
        Assm::ADDR(UIMM16 { value: 0x8025 }),
        Assm::Insn(InsnGen::RTI),
        Assm::ADDR(UIMM16 { value: 3 }),
    ]);
    // the handler lies above the heap, which the object form does not carry
    cpu.memory[0x8025] = lc4::encoder::encode_insn(InsnGen::RTI);
    assert_eq!(cpu.step(), Ok(()));
    assert_eq!(cpu.step(), Ok(()));
    assert_eq!(cpu.pc, 0x8025);
    assert!(cpu.priv_status);
    assert_eq!(cpu.regfile[R7], 2);
    assert_eq!(cpu.step(), Ok(()));
    assert_eq!(cpu.pc, 2);
    assert!(!cpu.priv_status);
}

#[test]
fn store_then_load_in_privileged_mode() {
    let mut cpu = blank();
    cpu.priv_status = true;
    cpu.regfile[R1] = -1234;
    cpu.regfile[R6] = 0xA000u16 as i16;
    assert_eq!(cpu.execute(InsnGen::STR(R1, R6, IMM6 { value: 5 })), Ok(()));
    assert_eq!(cpu.memory[0xA005], -1234);
    cpu.regfile[R5] = 0xA00Au16 as i16;
    assert_eq!(cpu.execute(InsnGen::LDR(R3, R5, IMM6 { value: -5 })), Ok(()));
    assert_eq!(cpu.regfile[R3], -1234);
    assert_eq!(cpu.pc, 2);
}

#[test]
fn load_store_addresses_wrap() {
    let mut cpu = blank();
    cpu.priv_status = true;
    cpu.regfile[R1] = 77;
    cpu.regfile[R6] = -1;
    assert_eq!(cpu.execute(InsnGen::STR(R1, R6, IMM6 { value: 1 })), Ok(()));
    assert_eq!(cpu.memory[0], 77);
    cpu.regfile[R6] = 0;
    assert_eq!(cpu.execute(InsnGen::STR(R1, R6, IMM6 { value: -1 })), Ok(()));
    assert_eq!(cpu.memory[0xFFFF], 77);
}

#[test]
fn arithmetic_wraps() {
    let mut cpu = blank();
    cpu.regfile[R0] = 32767;
    cpu.regfile[R1] = 1;
    assert_eq!(cpu.execute(InsnGen::ADD(R2, R0, R1)), Ok(()));
    assert_eq!(cpu.regfile[R2], -32768);
    assert_eq!(cpu.execute(InsnGen::SUB(R2, R2, R1)), Ok(()));
    assert_eq!(cpu.regfile[R2], 32767);
    cpu.regfile[R0] = 300;
    cpu.regfile[R1] = 300;
    assert_eq!(cpu.execute(InsnGen::MUL(R2, R0, R1)), Ok(()));
    assert_eq!(cpu.regfile[R2], 24464);
    cpu.regfile[R0] = -32768;
    cpu.regfile[R1] = -32768;
    assert_eq!(cpu.execute(InsnGen::MUL(R2, R0, R1)), Ok(()));
    assert_eq!(cpu.regfile[R2], 0);
    cpu.regfile[R0] = 32767;
    assert_eq!(cpu.execute(InsnGen::ADDi(R0, R0, IMM5 { value: 15 })), Ok(()));
    assert_eq!(cpu.regfile[R0], -32754);
    assert_eq!(cpu.execute(InsnGen::ADDi(R0, R0, IMM5 { value: -16 })), Ok(()));
    assert_eq!(cpu.regfile[R0], 32766);
    assert_eq!(cpu.pc, 6);
    assert_eq!(cpu.nzp, Z);
}

#[test]
fn division_rounds_toward_zero() {
    let mut cpu = blank();
    let cases: [(i16, i16, i16, i16); 8] = [
        (7, 2, 3, 1),
        (-7, 2, -3, -1),
        (7, -2, -3, 1),
        (-7, -2, 3, -1),
        (0, 5, 0, 0),
        (-32768, -1, -32768, 0),
        (-32768, 1, -32768, 0),
        (32767, -32768, 0, 32767),
    ];
    for (a, b, q, r) in cases {
        cpu.regfile[R0] = a;
        cpu.regfile[R1] = b;
        assert_eq!(cpu.execute(InsnGen::DIV(R2, R0, R1)), Ok(()));
        assert_eq!(cpu.regfile[R2], q);
        assert_eq!(cpu.execute(InsnGen::MOD(R3, R0, R1)), Ok(()));
        assert_eq!(cpu.regfile[R3], r);
    }
}

#[test]
fn division_by_zero_is_refused() {
    let mut cpu = blank();
    cpu.regfile[R0] = 9;
    cpu.regfile[R2] = 1;
    let before = snapshot(&cpu);
    assert_eq!(cpu.execute(InsnGen::DIV(R2, R0, R1)), Err(CPUError::DivideByZero));
    assert_eq!(snapshot(&cpu), before);
    assert_eq!(cpu.execute(InsnGen::MOD(R2, R0, R1)), Err(CPUError::DivideByZero));
    assert_eq!(snapshot(&cpu), before);
}

#[test]
fn logic_is_bitwise() {
    let mut cpu = blank();
    cpu.regfile[R0] = 0b1100;
    cpu.regfile[R1] = 0b1010;
    assert_eq!(cpu.execute(InsnGen::AND(R2, R0, R1)), Ok(()));
    assert_eq!(cpu.regfile[R2], 0b1000);
    assert_eq!(cpu.execute(InsnGen::OR(R2, R0, R1)), Ok(()));
    assert_eq!(cpu.regfile[R2], 0b1110);
    assert_eq!(cpu.execute(InsnGen::XOR(R2, R0, R1)), Ok(()));
    assert_eq!(cpu.regfile[R2], 0b0110);
    assert_eq!(cpu.execute(InsnGen::NOT(R2, R0)), Ok(()));
    assert_eq!(cpu.regfile[R2], -13);
    assert_eq!(cpu.execute(InsnGen::ANDi(R2, R1, IMM5 { value: -2 })), Ok(()));
    assert_eq!(cpu.regfile[R2], 0b1010);
    assert_eq!(cpu.execute(InsnGen::ANDi(R2, R1, IMM5 { value: 3 })), Ok(()));
    assert_eq!(cpu.regfile[R2], 0b0010);
}

#[test]
fn compares_set_exactly_one_flag() {
    let mut cpu = blank();
    cpu.regfile[R0] = -1;
    cpu.regfile[R1] = 1;
    assert_eq!(cpu.execute(InsnGen::CMP(R0, R1)), Ok(()));
    assert_eq!(cpu.nzp, N);
    assert_eq!(cpu.execute(InsnGen::CMP(R1, R0)), Ok(()));
    assert_eq!(cpu.nzp, P);
    assert_eq!(cpu.execute(InsnGen::CMP(R1, R1)), Ok(()));
    assert_eq!(cpu.nzp, Z);
    // unsigned: -1 is 0xFFFF
    assert_eq!(cpu.execute(InsnGen::CMPu(R0, R1)), Ok(()));
    assert_eq!(cpu.nzp, P);
    assert_eq!(cpu.execute(InsnGen::CMPu(R1, R0)), Ok(()));
    assert_eq!(cpu.nzp, N);
    assert_eq!(cpu.execute(InsnGen::CMPi(R0, IMM7 { value: -1 })), Ok(()));
    assert_eq!(cpu.nzp, Z);
    assert_eq!(cpu.execute(InsnGen::CMPi(R0, IMM7 { value: -64 })), Ok(()));
    assert_eq!(cpu.nzp, P);
    assert_eq!(cpu.execute(InsnGen::CMPiu(R0, UIMM7 { value: 127 })), Ok(()));
    assert_eq!(cpu.nzp, P);
    assert_eq!(cpu.execute(InsnGen::CMPiu(R1, UIMM7 { value: 127 })), Ok(()));
    assert_eq!(cpu.nzp, N);
    assert_eq!(cpu.execute(InsnGen::CMPiu(R1, UIMM7 { value: 1 })), Ok(()));
    assert_eq!(cpu.nzp, Z);
    assert_eq!(cpu.pc, 10);
    assert_eq!(cpu.regfile[R0], -1);
}

#[test]
fn branches() {
    let mut cpu = blank();
    cpu.pc = 100;
    cpu.nzp = Z;
    assert_eq!(cpu.execute(InsnGen::BR(N | P, IMM9 { value: 6 })), Ok(()));
    assert_eq!(cpu.pc, 101);
    assert_eq!(cpu.execute(InsnGen::BR(Z | P, IMM9 { value: 6 })), Ok(()));
    assert_eq!(cpu.pc, 108);
    assert_eq!(cpu.execute(InsnGen::BR(Z, IMM9 { value: -18 })), Ok(()));
    assert_eq!(cpu.pc, 91);
    cpu.pc = 0;
    assert_eq!(cpu.execute(InsnGen::BR(Z, IMM9 { value: -2 })), Ok(()));
    assert_eq!(cpu.pc, 0xFFFF);
    assert_eq!(cpu.execute(InsnGen::NOP), Ok(()));
    assert_eq!(cpu.pc, 0);
    assert_eq!(cpu.nzp, Z);
}

#[test]
fn a_branch_arrives_at_its_label() {
    let mut cpu = load(vec![
        Assm::Insn(InsnGen::BR(Z, "there".to_string())),
        Assm::Insn(InsnGen::NOP),
        Assm::Insn(InsnGen::NOP),
        Assm::LABEL("there".to_string()),
        Assm::Insn(InsnGen::CONST(R0, IMM9 { value: 9 })),
    ]);
    assert_eq!(cpu.step(), Ok(()));
    assert_eq!(cpu.pc, 3);
    assert_eq!(cpu.step(), Ok(()));
    assert_eq!(cpu.regfile[R0], 9);
}

#[test]
fn jumps() {
    let mut cpu = blank();
    cpu.pc = 0x0100;
    assert_eq!(cpu.execute(InsnGen::JMP(IMM11 { value: 16 })), Ok(()));
    assert_eq!(cpu.pc, 0x0110);
    assert_eq!(cpu.execute(InsnGen::JMP(IMM11 { value: -1024 })), Ok(()));
    assert_eq!(cpu.pc, 0xFD10);
    cpu.regfile[R3] = 0x4321;
    assert_eq!(cpu.execute(InsnGen::JMPr(R3)), Ok(()));
    assert_eq!(cpu.pc, 0x4321);
    cpu.regfile[R3] = -1;
    assert_eq!(cpu.execute(InsnGen::JMPr(R3)), Ok(()));
    assert_eq!(cpu.pc, 0xFFFF);
    assert_eq!(cpu.regfile[R7], 0);
}

#[test]
fn calls() {
    let mut cpu = blank();
    cpu.pc = 0x0105;
    assert_eq!(cpu.execute(InsnGen::JSR(IMM11 { value: 0x12 })), Ok(()));
    assert_eq!(cpu.pc, 0x0120);
    assert_eq!(cpu.regfile[R7], 0x0106);
    cpu.pc = 0x8105;
    assert_eq!(cpu.execute(InsnGen::JSR(IMM11 { value: 0x12 })), Ok(()));
    assert_eq!(cpu.pc, 0x8120);
    assert_eq!(cpu.regfile[R7], 0x8106u16 as i16);
    cpu.pc = 0x0005;
    assert_eq!(cpu.execute(InsnGen::JSR(IMM11 { value: -1 })), Ok(()));
    assert_eq!(cpu.pc, 0xFFF0);
    cpu.pc = 0x0010;
    cpu.regfile[R3] = 0x0200;
    assert_eq!(cpu.execute(InsnGen::JSRr(R3)), Ok(()));
    assert_eq!(cpu.pc, 0x0200);
    assert_eq!(cpu.regfile[R7], 0x0011);
    // the link register is written first
    cpu.pc = 0x0010;
    cpu.regfile[R7] = 0x0300;
    assert_eq!(cpu.execute(InsnGen::JSRr(R7)), Ok(()));
    assert_eq!(cpu.pc, 0x0011);
    cpu.pc = 0xFFFF;
    assert_eq!(cpu.execute(InsnGen::JSRr(R3)), Ok(()));
    assert_eq!(cpu.regfile[R7], 0);
}

#[test]
fn a_call_arrives_at_an_aligned_label() {
    let mut cpu = load(vec![
        Assm::Insn(InsnGen::JSR("sub".to_string())),
        Assm::ADDR(UIMM16 { value: 0x0020 }),
        Assm::LABEL("sub".to_string()),
        Assm::Insn(InsnGen::CONST(R0, IMM9 { value: 1 })),
        Assm::RET,
    ]);
    assert_eq!(cpu.step(), Ok(()));
    assert_eq!(cpu.pc, 0x0020);
    assert_eq!(cpu.step(), Ok(()));
    assert_eq!(cpu.step(), Ok(()));
    assert_eq!(cpu.pc, 1);
    assert_eq!(cpu.regfile[R0], 1);
}

#[test]
fn constants() {
    let mut cpu = blank();
    assert_eq!(cpu.execute(InsnGen::CONST(R1, IMM9 { value: -256 })), Ok(()));
    assert_eq!(cpu.regfile[R1], -256);
    assert_eq!(cpu.execute(InsnGen::HICONST(R1, UIMM8 { value: 0x12 })), Ok(()));
    assert_eq!(cpu.regfile[R1], 0x1200);
    assert_eq!(cpu.execute(InsnGen::CONST(R1, IMM9 { value: 0x34 })), Ok(()));
    assert_eq!(cpu.execute(InsnGen::HICONST(R1, UIMM8 { value: 0xFF })), Ok(()));
    assert_eq!(cpu.regfile[R1], 0xFF34u16 as i16);
    assert_eq!(cpu.pc, 4);
}

#[test]
fn lea_loads_the_whole_address() {
    let mut cpu = load(vec![
        Assm::LEA(R1, "far".to_string()),
        Assm::LCONST("v".to_string(), IMM16 { value: -21555 }),
        Assm::LC(R2, "v".to_string()),
        Assm::ADDR(UIMM16 { value: 0x7EAD }),
        Assm::LABEL("far".to_string()),
        Assm::ADDR(UIMM16 { value: 4 }),
    ]);
    for _ in 0..4 {
        assert_eq!(cpu.step(), Ok(()));
    }
    assert_eq!(cpu.regfile[R1], 0x7EAD);
    assert_eq!(cpu.regfile[R2], -21555);
}

#[test]
fn shifts() {
    let mut cpu = blank();
    cpu.regfile[R0] = -4;
    assert_eq!(cpu.execute(InsnGen::SLL(R1, R0, UIMM4 { value: 1 })), Ok(()));
    assert_eq!(cpu.regfile[R1], -8);
    assert_eq!(cpu.execute(InsnGen::SLL(R1, R0, UIMM4 { value: 15 })), Ok(()));
    assert_eq!(cpu.regfile[R1], 0);
    assert_eq!(cpu.execute(InsnGen::SRA(R1, R0, UIMM4 { value: 1 })), Ok(()));
    assert_eq!(cpu.regfile[R1], -2);
    assert_eq!(cpu.execute(InsnGen::SRA(R1, R0, UIMM4 { value: 15 })), Ok(()));
    assert_eq!(cpu.regfile[R1], -1);
    assert_eq!(cpu.execute(InsnGen::SRL(R1, R0, UIMM4 { value: 1 })), Ok(()));
    assert_eq!(cpu.regfile[R1], 0x7FFE);
    assert_eq!(cpu.execute(InsnGen::SRL(R1, R0, UIMM4 { value: 15 })), Ok(()));
    assert_eq!(cpu.regfile[R1], 1);
    assert_eq!(cpu.execute(InsnGen::SRL(R1, R0, UIMM4 { value: 0 })), Ok(()));
    assert_eq!(cpu.regfile[R1], -4);
    cpu.regfile[R0] = 0x4001;
    assert_eq!(cpu.execute(InsnGen::SLL(R1, R0, UIMM4 { value: 1 })), Ok(()));
    assert_eq!(cpu.regfile[R1], -32766);
}

#[test]
fn trap_and_rti() {
    let mut cpu = blank();
    cpu.pc = 0x0041;
    assert_eq!(cpu.execute(InsnGen::TRAP(UIMM8 { value: 0x25 })), Ok(()));
    assert_eq!(cpu.pc, 0x8025);
    assert!(cpu.priv_status);
    assert_eq!(cpu.regfile[R7], 0x0042);
    assert_eq!(cpu.execute(InsnGen::RTI), Ok(()));
    assert_eq!(cpu.pc, 0x0042);
    assert!(!cpu.priv_status);
}

#[test]
fn a_bad_opcode_stops_the_step() {
    let mut cpu = boot(read_object(&[0, 1, 0x30, 0x00]).unwrap());
    let before = snapshot(&cpu);
    assert_eq!(cpu.step(), Err(CPUError::DecodeError(DecodeError::BadOpcode)));
    assert_eq!(snapshot(&cpu), before);
    assert_eq!(CPUError::from(DecodeError::BadOpcode), CPUError::DecodeError(DecodeError::BadOpcode));
}

#[test]
fn data_zero_runs_as_nop() {
    let mut cpu = blank();
    assert_eq!(cpu.step(), Ok(()));
    assert_eq!(cpu.pc, 1);
    cpu.pc = 0xFFFF;
    assert_eq!(cpu.step(), Ok(()));
    assert_eq!(cpu.pc, 0);
}

#[test]
fn boot_takes_any_full_memory() {
    let image = AssmData {
        memory: vec![0x1234; 0x10000],
        labels: read_object(&[0, 0]).unwrap().labels,
        heap: 0,
    };
    let mut cpu = boot(image);
    assert_eq!(cpu.step(), Ok(()));
    assert_eq!(cpu.pc, 1);
}
