//! The assembled image: memory cells, the symbol table and the heap mark.

use crate::architecture::Insn;
use crate::encoder::{encode_insn, encoding};
use crate::word::{signed, unsigned};
use byteorder::{BigEndian, ByteOrder};
use vstd::hash_map::StringHashMap;
use vstd::prelude::*;

verus! {

/// A label name. Names are compared letter for letter.
pub type Label = String;

/// The two sections of a program. Each has an address counter of its own.
#[derive(Clone, Copy, Debug, PartialEq, Eq, Structural)]
pub enum Section {
    CODE,
    DATA,
}

/// One memory cell of an assembled image.
#[derive(Clone, Copy, Debug, PartialEq, Eq)]
pub enum Mem {
    CODE(Insn),
    DATA(i16),
}

/// Number of cells in a memory.
pub const MEMORY_CELLS: usize = 0x10000;

/// A memory: `MEMORY_CELLS` cells, indexed by address.
pub type Memory<M> = Vec<M>;

/// An image: the memory, the address labels with the section and the raw
/// address each was defined at, and the address where the heap begins.
pub struct AssmData<M> {
    pub memory: Memory<M>,
    pub labels: StringHashMap<(Section, u16)>,
    pub heap: u16,
}

impl<M> AssmData<M> {
    /// The memory has its full size.
    pub open spec fn wf(self) -> bool {
        self.memory@.len() == MEMORY_CELLS
    }
}

/// The word that a cell holds in the machine: the encoding of an instruction,
/// or the data word itself.
pub open spec fn word_of(cell: Mem) -> i16 {
    match cell {
        Mem::CODE(insn) => signed(encoding(insn)),
        Mem::DATA(v) => v,
    }
}

/// Computes `word_of`.
pub fn encode_word(mem: Mem) -> (w: i16)
    ensures
        w == word_of(mem),
{
    match mem {
        Mem::CODE(insn) => encode_insn(insn),
        Mem::DATA(i) => i,
    }
}

/// Why bytes are no object image.
#[derive(Clone, Copy, Debug, PartialEq, Eq)]
pub enum ObjectError {
    /// The bytes end before the header, or before the last word that the
    /// header announces.
    Truncated,
}

/// The byte at index `k` of an object image: two bytes for the heap mark,
/// most significant first, then two for each word below the heap mark.
pub open spec fn object_byte(words: Seq<i16>, heap: u16, k: int) -> u8 {
    let w = if k < 2 {
        heap
    } else {
        unsigned(words[(k - 2) / 2])
    };
    if k % 2 == 0 {
        (w / 256) as u8
    } else {
        (w % 256) as u8
    }
}

/// The object image of a memory of words with its heap mark.
pub open spec fn object_image(words: Seq<i16>, heap: u16) -> Seq<u8> {
    Seq::new((2 + 2 * heap) as nat, |k: int| object_byte(words, heap, k))
}

/// The word at `at` and `at + 1`, most significant byte first.
pub open spec fn word_at(bytes: Seq<u8>, at: int) -> u16 {
    (bytes[at] * 256 + bytes[at + 1]) as u16
}

/// The heap mark that an object image announces, or `Truncated`.
pub open spec fn object_heap(bytes: Seq<u8>) -> Result<u16, ObjectError> {
    if bytes.len() < 2 || bytes.len() < 2 + 2 * word_at(bytes, 0) {
        Err(ObjectError::Truncated)
    } else {
        Ok(word_at(bytes, 0))
    }
}

/// The memory that an object image with heap mark `heap` fills: its words
/// below the heap mark, zero from there on.
pub open spec fn object_memory(bytes: Seq<u8>, heap: u16) -> Seq<i16> {
    Seq::new(
        MEMORY_CELLS as nat,
        |a: int|
            if a < heap {
                signed(word_at(bytes, 2 + 2 * a))
            } else {
                0i16
            },
    )
}

/// Calls `byteorder::BigEndian::read_u16` on two bytes. Taken on trust: the
/// first byte is the more significant.
#[verifier::external_body]
fn be_u16(hi: u8, lo: u8) -> (w: u16)
    ensures
        w == hi * 256 + lo,
{
    BigEndian::read_u16(&[hi, lo])
}

/// Calls `byteorder::BigEndian::read_i16` on two bytes. Taken on trust: the
/// result is the word that `read_u16` gives, in its two's-complement reading.
#[verifier::external_body]
fn be_i16(hi: u8, lo: u8) -> (w: i16)
    ensures
        w == signed((hi * 256 + lo) as u16),
{
    BigEndian::read_i16(&[hi, lo])
}

/// Calls `byteorder::BigEndian::write_u16` on a buffer of two bytes. Taken
/// on trust: the more significant byte comes first.
#[verifier::external_body]
fn u16_be(w: u16) -> (b: [u8; 2])
    ensures
        b[0] == w / 256,
        b[1] == w % 256,
{
    let mut b = [0u8; 2];
    BigEndian::write_u16(&mut b, w);
    b
}

/// Calls `byteorder::BigEndian::write_i16` on a buffer of two bytes. Taken
/// on trust: the bytes are those that `write_u16` gives for the word whose
/// two's-complement reading is `w`.
#[verifier::external_body]
fn i16_be(w: i16) -> (b: [u8; 2])
    ensures
        b[0] == unsigned(w) / 256,
        b[1] == unsigned(w) % 256,
{
    let mut b = [0u8; 2];
    BigEndian::write_i16(&mut b, w);
    b
}

/// The words of a memory of cells.
pub open spec fn words_of_cells(cells: Seq<Mem>) -> Seq<i16> {
    Seq::new(cells.len(), |a: int| word_of(cells[a]))
}

/// The object image of an assembled image.
pub fn write_object(assm_data: &AssmData<Mem>) -> (out: Vec<u8>)
    requires
        assm_data.wf(),
    ensures
        out@ == object_image(words_of_cells(assm_data.memory@), assm_data.heap),
{
    let heap: usize = assm_data.heap as usize;
    let mut out: Vec<u8> = Vec::new();
    let head = u16_be(assm_data.heap);
    out.push(head[0]);
    out.push(head[1]);
    let ghost words = words_of_cells(assm_data.memory@);
    let mut addr: usize = 0;
    while addr < heap
        invariant
            addr <= heap,
            heap == assm_data.heap,
            assm_data.wf(),
            words == words_of_cells(assm_data.memory@),
            out@.len() == 2 + 2 * addr,
            forall|k: int| 0 <= k < out@.len() ==> out@[k] == object_byte(words, assm_data.heap, k),
        decreases heap - addr,
    {
        let pair = i16_be(encode_word(assm_data.memory[addr]));
        out.push(pair[0]);
        out.push(pair[1]);
        addr += 1;
    }
    assert(out@ =~= object_image(words, assm_data.heap));
    out
}

/// Reads an object image: the memory as raw words, no labels, and the heap
/// mark. Bytes after the last announced word are not looked at.
pub fn read_object(bytes: &[u8]) -> (r: Result<AssmData<i16>, ObjectError>)
    ensures
        match object_heap(bytes@) {
            Err(e) => r == Err::<AssmData<i16>, ObjectError>(e),
            Ok(heap) => r matches Ok(d) && d.heap == heap && d.memory@ == object_memory(
                bytes@,
                heap,
            ) && d.labels@ == Map::<Seq<char>, (Section, u16)>::empty() && d.wf(),
        },
{
    if bytes.len() < 2 {
        return Err(ObjectError::Truncated);
    }
    let heap: u16 = be_u16(bytes[0], bytes[1]);
    if (bytes.len() - 2) / 2 < heap as usize {
        return Err(ObjectError::Truncated);
    }
    let mut memory: Vec<i16> = Vec::with_capacity(MEMORY_CELLS);
    let mut addr: usize = 0;
    while addr < MEMORY_CELLS
        invariant
            addr <= MEMORY_CELLS,
            2 + 2 * heap <= bytes@.len(),
            memory@.len() == addr,
            forall|a: int| 0 <= a < addr ==> memory@[a] == object_memory(bytes@, heap)[a],
        decreases MEMORY_CELLS - addr,
    {
        if addr < heap as usize {
            memory.push(be_i16(bytes[2 + 2 * addr], bytes[2 + 2 * addr + 1]));
        } else {
            memory.push(0);
        }
        addr += 1;
    }
    assert(memory@ =~= object_memory(bytes@, heap));
    Ok(AssmData { memory, labels: StringHashMap::new(), heap })
}

/// Writing an image and reading it back gives its words below the heap mark,
/// zero from there on, and the same heap mark.
pub proof fn object_round_trip(words: Seq<i16>, heap: u16)
    requires
        words.len() == MEMORY_CELLS,
    ensures
        object_heap(object_image(words, heap)) == Ok::<u16, ObjectError>(heap),
        forall|a: int|
            0 <= a < MEMORY_CELLS ==> #[trigger] object_memory(object_image(words, heap), heap)[a]
                == (if a < heap {
                words[a]
            } else {
                0i16
            }),
{
    let bytes = object_image(words, heap);
    assert(word_at(bytes, 0) == heap);
    assert forall|a: int| 0 <= a < MEMORY_CELLS implies #[trigger] object_memory(bytes, heap)[a]
        == (if a < heap {
        words[a]
    } else {
        0i16
    }) by {
        if a < heap {
            let k = 2 + 2 * a;
            assert(bytes[k] == object_byte(words, heap, k));
            assert(bytes[k + 1] == object_byte(words, heap, k + 1));
            assert((k - 2) / 2 == a && (k + 1 - 2) / 2 == a);
            assert(word_at(bytes, k) == unsigned(words[a]));
        }
    }
}

} // verus!
