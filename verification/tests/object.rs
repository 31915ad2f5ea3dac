use lc4::architecture::{InsnGen, IMM16, IMM9, R0, R1, R2};
use lc4::assembler::{assemble, Assm};
use lc4::assm_data::{encode_word, read_object, write_object, Mem, ObjectError};
use lc4::controller::Controller;

fn program() -> Vec<Assm> {
    vec![
        Assm::Insn(InsnGen::CONST(R0, IMM9 { value: 5 })),
        Assm::Insn(InsnGen::CONST(R1, IMM9 { value: -3 })),
        Assm::Insn(InsnGen::ADD(R2, R0, R1)),
        Assm::DATA,
        Assm::FILL(IMM16 { value: -2 }),
        Assm::FILL(IMM16 { value: 0x1234 }),
    ]
}

#[test]
fn encode_word_of_both_kinds() {
    assert_eq!(encode_word(Mem::DATA(-7)), -7);
    assert_eq!(encode_word(Mem::DATA(i16::MIN)), i16::MIN);
    assert_eq!(encode_word(Mem::CODE(InsnGen::CONST(R0, IMM9 { value: 5 }))), -28667);
    assert_eq!(encode_word(Mem::CODE(InsnGen::ADD(R2, R0, R1))), 0x1401);
}

#[test]
fn object_bytes_are_big_endian() {
    let data = assemble(program());
    assert_eq!(data.heap, 32);
    let bytes = write_object(&data);
    assert_eq!(bytes.len(), 2 + 2 * 32);
    assert_eq!(&bytes[0..2], &[0x00, 0x20]);
    assert_eq!(&bytes[2..4], &[0x90, 0x05]);
    assert_eq!(&bytes[4..6], &[0x93, 0xFD]);
    assert_eq!(&bytes[6..8], &[0x14, 0x01]);
    assert_eq!(&bytes[8..10], &[0x00, 0x00]);
    assert_eq!(&bytes[2 + 2 * 16..2 + 2 * 16 + 2], &[0xFF, 0xFE]);
    assert_eq!(&bytes[2 + 2 * 17..2 + 2 * 17 + 2], &[0x12, 0x34]);
}

#[test]
fn read_object_is_big_endian() {
    let data = read_object(&[0x00, 0x03, 0x12, 0x34, 0xFF, 0xFE, 0x80, 0x00]).unwrap();
    assert_eq!(data.heap, 3);
    assert_eq!(data.memory.len(), 0x10000);
    assert_eq!(data.memory[0], 0x1234);
    assert_eq!(data.memory[1], -2);
    assert_eq!(data.memory[2], -32768);
    assert_eq!(data.memory[3], 0);
    assert_eq!(data.labels.len(), 0);
    let wide = read_object(&[0x01, 0x00].iter().copied().chain([0u8; 512]).collect::<Vec<u8>>())
        .unwrap();
    assert_eq!(wide.heap, 256);
}

#[test]
fn read_object_ignores_what_follows() {
    let data = read_object(&[0x00, 0x01, 0x00, 0x07, 0xAA, 0xBB, 0xCC]).unwrap();
    assert_eq!(data.heap, 1);
    assert_eq!(data.memory[0], 7);
    assert_eq!(data.memory[1], 0);
}

#[test]
fn truncated_objects_are_refused() {
    assert_eq!(read_object(&[]).err(), Some(ObjectError::Truncated));
    assert_eq!(read_object(&[0x00]).err(), Some(ObjectError::Truncated));
    assert_eq!(read_object(&[0x00, 0x01]).err(), Some(ObjectError::Truncated));
    assert_eq!(read_object(&[0x00, 0x01, 0x12]).err(), Some(ObjectError::Truncated));
    assert_eq!(read_object(&[0x00, 0x02, 0x12, 0x34, 0x56]).err(), Some(ObjectError::Truncated));
    assert_eq!(read_object(&[0x01, 0x00, 0x12, 0x34]).err(), Some(ObjectError::Truncated));
    assert!(read_object(&[0x00, 0x00]).is_ok());
}

#[test]
fn an_image_survives_the_object_form() {
    let data = assemble(program());
    let back = read_object(&write_object(&data)).unwrap();
    assert_eq!(back.heap, data.heap);
    for a in 0..0x10000usize {
        if a < data.heap as usize {
            assert_eq!(back.memory[a], encode_word(data.memory[a]));
        } else {
            assert_eq!(back.memory[a], 0);
        }
    }
}

#[test]
fn taking_an_image_apart_gives_its_cells() {
    let data = assemble(program());
    let back = read_object(&write_object(&data)).unwrap();
    for a in 0..data.heap as usize {
        match data.memory[a] {
            Mem::CODE(insn) => assert_eq!((back.memory[a] as u16).decode(), Ok(insn)),
            Mem::DATA(v) => assert_eq!(back.memory[a], v),
        }
    }
}
