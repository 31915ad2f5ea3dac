//! What holds of every program that assembles: the order of the layout, the
//! place of the labels, the legality of the image, and that the image goes by
//! the text of the program alone.

use crate::architecture::{is_reg, legal, Insn, InsnGen, RName};
use crate::assembler::{
    assembly, effective, emit, emit_item, layout_of, load_pair, place, place_prefix_ok, resolve,
    round_up16, symbols_of, Assm, Cursor, LInsn, Layout, Symbols,
};
use crate::assm_data::{word_of, Mem, Section, MEMORY_CELLS};
use crate::controller::{decoding, DecodeError};
use crate::round_trip::decode_inverts_encode;
use crate::word::{sign_extend, unsigned};
use vstd::prelude::*;

verus! {

/// The cursor after the whole program. Meant for a program that the first
/// pass accepts.
pub open spec fn final_cursor(items: Seq<Assm>) -> Cursor {
    place(items, items.len())->Ok_0.cursor
}

/// The layout of the whole program. Meant for a program that assembles.
pub open spec fn layout(items: Seq<Assm>) -> Layout {
    layout_of(final_cursor(items))->Ok_0
}

/// The heap begins at a multiple of sixteen, not below the start of the data
/// section, which is a multiple of sixteen not below the end of the code.
pub proof fn layout_is_ordered(items: Seq<Assm>)
    requires
        assembly(items) is Ok,
    ensures
        assembly(items)->Ok_0.heap == layout(items).heap,
        layout(items).heap % 16 == 0,
        layout(items).base_data_addr % 16 == 0,
        layout(items).heap >= layout(items).base_data_addr >= final_cursor(items).code_addr,
        layout(items).heap >= layout(items).base_data_addr + final_cursor(items).data_addr,
{
}

/// The end of a section: the final counter of it.
pub open spec fn end_of(c: Cursor, section: Section) -> u16 {
    match section {
        Section::CODE => c.code_addr,
        Section::DATA => c.data_addr,
    }
}

/// A code label lies below the data section, and a data label in it, below
/// the heap. This is stated of the labels whose raw address is below the end
/// of their section, rounded up: the others mark the end of a section that is
/// full to a multiple of sixteen, or an `ADDR` has taken the counter back
/// behind them.
pub proof fn labels_lie_in_their_sections(items: Seq<Assm>, l: Seq<char>)
    requires
        assembly(items) matches Ok(img) && img.labels.contains_key(l) && img.labels[l].1
            < round_up16(end_of(final_cursor(items), img.labels[l].0) as int),
    ensures
        ({
            let img = assembly(items)->Ok_0;
            let lay = layout(items);
            let at = effective(img.labels[l].0, img.labels[l].1, lay.base_data_addr);
            match img.labels[l].0 {
                Section::CODE => 0 <= at < lay.base_data_addr,
                Section::DATA => lay.base_data_addr <= at < lay.heap,
            }
        }),
{
}

/// Every instruction in the memory is legal.
pub open spec fn cells_legal(mem: Seq<Mem>) -> bool {
    forall|a: int| 0 <= a < mem.len() ==> (#[trigger] mem[a] matches Mem::CODE(insn) ==> legal(insn))
}

/// What `resolve` gives is legal.
pub proof fn resolved_is_legal(sym: Symbols, at: int, insn: LInsn)
    requires
        resolve(sym, at, insn) is Ok,
    ensures
        legal(resolve(sym, at, insn)->Ok_0),
{
}

/// The two cells that load a word hold legal instructions.
pub proof fn load_pair_is_legal(rd: RName, v: u16)
    requires
        is_reg(rd),
    ensures
        load_pair(rd, v).0 matches Mem::CODE(lo) && legal(lo),
        load_pair(rd, v).1 matches Mem::CODE(hi) && legal(hi),
{
    assert(-256 <= sign_extend(v, 9) <= 255 && v >> 8 <= 255) by (bit_vector);
}

/// The second pass on one item keeps the size of the memory, and keeps every
/// instruction in it legal.
pub proof fn emit_item_keeps_legal(sym: Symbols, c: Cursor, mem: Seq<Mem>, item: Assm)
    requires
        mem.len() == MEMORY_CELLS,
        cells_legal(mem),
        emit_item(sym, c, mem, item) is Ok,
    ensures
        emit_item(sym, c, mem, item)->Ok_0.len() == MEMORY_CELLS,
        cells_legal(emit_item(sym, c, mem, item)->Ok_0),
{
    let at = c.cell(sym.base_data_addr);
    match item {
        Assm::Insn(insn) => {
            resolved_is_legal(sym, at, insn);
        },
        Assm::LEA(rd, l) => {
            load_pair_is_legal(rd, sym.address_of(l@) as u16);
        },
        Assm::LC(rd, l) => {
            load_pair_is_legal(rd, unsigned(sym.value_labels[l@]));
        },
        _ => {},
    }
}

/// The second pass keeps the size of the memory, and every instruction that
/// it writes is legal.
pub proof fn emit_keeps_legal(items: Seq<Assm>, n: nat, sym: Symbols)
    requires
        emit(items, n, sym) is Ok,
    ensures
        emit(items, n, sym)->Ok_0.len() == MEMORY_CELLS,
        cells_legal(emit(items, n, sym)->Ok_0),
    decreases n,
{
    if n > 0 {
        emit_keeps_legal(items, (n - 1) as nat, sym);
        emit_item_keeps_legal(
            sym,
            place(items, (n - 1) as nat)->Ok_0.cursor,
            emit(items, (n - 1) as nat, sym)->Ok_0,
            items[n - 1],
        );
    }
}

/// Taking an image apart gives its cells back: the word of every instruction
/// in it decodes to that instruction, and the word of a data cell is the
/// data.
pub proof fn image_decodes_to_itself(items: Seq<Assm>, a: int)
    requires
        assembly(items) is Ok,
        0 <= a < MEMORY_CELLS,
    ensures
        assembly(items)->Ok_0.memory.len() == MEMORY_CELLS,
        match assembly(items)->Ok_0.memory[a] {
            Mem::CODE(insn) => legal(insn) && decoding(
                unsigned(word_of(assembly(items)->Ok_0.memory[a])),
            ) == Ok::<Insn, DecodeError>(insn),
            Mem::DATA(v) => word_of(assembly(items)->Ok_0.memory[a]) == v,
        },
{
    let p = place(items, items.len())->Ok_0;
    let lay = layout_of(p.cursor)->Ok_0;
    emit_keeps_legal(items, items.len(), symbols_of(p, lay));
    match assembly(items)->Ok_0.memory[a] {
        Mem::CODE(insn) => {
            decode_inverts_encode(insn);
        },
        Mem::DATA(_) => {},
    }
}

/// A label that is defined keeps its entry while the first pass goes on.
proof fn label_entry_stays(items: Seq<Assm>, k: int, n: nat)
    requires
        0 <= k < n,
        place(items, n) is Ok,
        items[k] is LABEL,
    ensures
        place(items, k as nat) is Ok,
        ({
            let c = place(items, k as nat)->Ok_0.cursor;
            let table = place(items, n)->Ok_0.addr_labels;
            let l = items[k]->LABEL_0@;
            table.contains_key(l) && table[l] == (c.section, c.counter())
        }),
    decreases n,
{
    place_prefix_ok(items, k as nat, n);
    if n > k + 1 {
        label_entry_stays(items, k, (n - 1) as nat);
    }
}

/// A label stands for the place where it is defined: the entry that the
/// program's table has for it holds the section and the counter that the
/// cursor had at the definition.
pub proof fn label_marks_its_place(items: Seq<Assm>, k: int)
    requires
        assembly(items) is Ok,
        0 <= k < items.len(),
        items[k] is LABEL,
    ensures
        place(items, k as nat) is Ok,
        ({
            let c = place(items, k as nat)->Ok_0.cursor;
            let labels = assembly(items)->Ok_0.labels;
            let l = items[k]->LABEL_0@;
            labels.contains_key(l) && labels[l] == (c.section, c.counter())
        }),
{
    label_entry_stays(items, k, items.len());
}

/// Two instructions that read alike: the same operation and operands, and
/// targets of the same name.
pub open spec fn same_insn_text(a: LInsn, b: LInsn) -> bool {
    &&& a.shape() == b.shape()
    &&& match (a, b) {
        (InsnGen::BR(_, x), InsnGen::BR(_, y)) => x@ == y@,
        (InsnGen::JSR(x), InsnGen::JSR(y)) => x@ == y@,
        (InsnGen::JMP(x), InsnGen::JMP(y)) => x@ == y@,
        _ => true,
    }
}

/// Two items that read alike.
pub open spec fn same_text(a: Assm, b: Assm) -> bool {
    match (a, b) {
        (Assm::LABEL(x), Assm::LABEL(y)) => x@ == y@,
        (Assm::Insn(i), Assm::Insn(j)) => same_insn_text(i, j),
        (Assm::RET, Assm::RET) => true,
        (Assm::LEA(r, x), Assm::LEA(q, y)) => r == q && x@ == y@,
        (Assm::LC(r, x), Assm::LC(q, y)) => r == q && x@ == y@,
        (Assm::CODE, Assm::CODE) => true,
        (Assm::DATA, Assm::DATA) => true,
        (Assm::ADDR(u), Assm::ADDR(v)) => u == v,
        (Assm::FALIGN, Assm::FALIGN) => true,
        (Assm::FILL(u), Assm::FILL(v)) => u == v,
        (Assm::STRINGZ(x), Assm::STRINGZ(y)) => x@ == y@,
        (Assm::BLKW(u), Assm::BLKW(v)) => u == v,
        (Assm::LCONST(x, u), Assm::LCONST(y, v)) => x@ == y@ && u == v,
        (Assm::LUCONST(x, u), Assm::LUCONST(y, v)) => x@ == y@ && u == v,
        _ => false,
    }
}

/// Two programs that read alike, item by item.
pub open spec fn same_program_text(a: Seq<Assm>, b: Seq<Assm>) -> bool {
    a.len() == b.len() && forall|k: int| 0 <= k < a.len() ==> same_text(#[trigger] a[k], b[k])
}

/// The first pass goes by the text alone.
proof fn place_goes_by_text(a: Seq<Assm>, b: Seq<Assm>, n: nat)
    requires
        same_program_text(a, b),
        n <= a.len(),
    ensures
        place(a, n) == place(b, n),
    decreases n,
{
    if n > 0 {
        place_goes_by_text(a, b, (n - 1) as nat);
        assert(same_text(a[n - 1], b[n - 1]));
    }
}

/// The second pass goes by the text alone.
proof fn emit_goes_by_text(a: Seq<Assm>, b: Seq<Assm>, n: nat, sym: Symbols)
    requires
        same_program_text(a, b),
        n <= a.len(),
    ensures
        emit(a, n, sym) == emit(b, n, sym),
    decreases n,
{
    if n > 0 {
        emit_goes_by_text(a, b, (n - 1) as nat, sym);
        place_goes_by_text(a, b, (n - 1) as nat);
        assert(same_text(a[n - 1], b[n - 1]));
    }
}

/// What a program assembles to is settled by its text: two programs that
/// read alike give the same image, or the same fault.
pub proof fn assembly_goes_by_text(a: Seq<Assm>, b: Seq<Assm>)
    requires
        same_program_text(a, b),
    ensures
        assembly(a) == assembly(b),
{
    place_goes_by_text(a, b, a.len());
    if place(a, a.len()) is Ok {
        let p = place(a, a.len())->Ok_0;
        if layout_of(p.cursor) is Ok {
            emit_goes_by_text(a, b, a.len(), symbols_of(p, layout_of(p.cursor)->Ok_0));
        }
    }
}

} // verus!
