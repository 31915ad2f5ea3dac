//! The two-pass assembler. The first pass places every item and collects the
//! labels; the second replays the placement and writes the cells.

use crate::architecture::{
    is_reg, partial_cast, Insn, InsnGen, RName, IMM11, IMM16, IMM9, R7, UIMM16, UIMM8,
};
use crate::assm_data::{AssmData, Label, Mem, Section, MEMORY_CELLS};
use crate::word::{extend, sign_extend, signed, to_signed, to_unsigned, unsigned};
use vstd::hash_map::StringHashMap;
use vstd::prelude::*;
use vstd::utf8::encode_utf8;

verus! {

/// The symbolic form: branches and jumps name a label.
pub type LInsn = InsnGen<Label, Label>;

/// One item of a program.
#[derive(Debug)]
pub enum Assm {
    /// Defines an address label at the current position.
    LABEL(Label),
    /// An instruction, one word.
    Insn(LInsn),
    /// Return through the link register, one word.
    RET,
    /// Loads the address of a label, two words.
    LEA(RName, Label),
    /// Loads the value of a value label, two words.
    LC(RName, Label),
    /// Switches to the code section.
    CODE,
    /// Switches to the data section.
    DATA,
    /// Sets the counter of the current section.
    ADDR(UIMM16),
    /// Rounds the counter of the current section up to a multiple of sixteen.
    FALIGN,
    /// One data word.
    FILL(IMM16),
    /// The bytes of a string, one word each, and a closing zero word.
    STRINGZ(String),
    /// Skips words, which keep their content.
    BLKW(UIMM16),
    /// Defines a value label.
    LCONST(Label, IMM16),
    /// Defines a value label from an unsigned number.
    LUCONST(Label, UIMM16),
}

/// Why a program cannot be assembled.
#[derive(Clone, Copy, Debug, PartialEq, Eq)]
pub enum FaultKind {
    /// The item does not belong in the section that is current.
    WrongSection,
    /// The label was defined before.
    DuplicateLabel,
    /// The label is defined nowhere in the program.
    UndefinedLabel,
    /// An address does not fit the memory.
    AddressOverflow,
    /// The target is too far for the displacement field.
    OffsetOutOfRange,
    /// A register or an immediate of the instruction is out of range.
    BadOperand,
}

/// A fault and the index of the item that has it. A fault of the layout as a
/// whole carries the number of items.
#[derive(Clone, Copy, Debug, PartialEq, Eq)]
pub struct AssmFault {
    pub index: usize,
    pub kind: FaultKind,
}

/// The smallest multiple of sixteen that is not below `addr`.
pub open spec fn round_up16(addr: int) -> int {
    (addr + 15) / 16 * 16
}

/// Rounds an address up to a multiple of sixteen. Above `0xFFF0` there is
/// none left in sixteen bits.
pub fn pad16(addr: u16) -> (padded: u16)
    requires
        addr <= 0xFFF0,
    ensures
        padded == round_up16(addr as int),
{
    let mut padded: u16 = addr & 0xFFF0;
    assert(addr & 0xFFF0 == addr - addr % 16) by (bit_vector);
    if padded < addr {
        padded += 0x10;
    }
    padded
}

/// Where the next word goes: the current section and the counter of each.
#[derive(Clone, Copy, Debug)]
pub struct Cursor {
    pub section: Section,
    pub code_addr: u16,
    pub data_addr: u16,
}

impl Cursor {
    /// The cursor before the first item.
    pub open spec fn start() -> Cursor {
        Cursor { section: Section::CODE, code_addr: 0, data_addr: 0 }
    }

    /// The counter of the current section.
    pub open spec fn counter(self) -> u16 {
        match self.section {
            Section::CODE => self.code_addr,
            Section::DATA => self.data_addr,
        }
    }

    /// The cursor with the counter of the current section set to `v`.
    pub open spec fn with_counter(self, v: u16) -> Cursor {
        match self.section {
            Section::CODE => Cursor { code_addr: v, ..self },
            Section::DATA => Cursor { data_addr: v, ..self },
        }
    }

    /// The cell that the cursor points at, when the data section begins at
    /// `base`.
    pub open spec fn cell(self, base: u16) -> int {
        effective(self.section, self.counter(), base)
    }
}

/// The address in the image of a raw address of a section: code lies at its
/// raw address, data above `base`.
pub open spec fn effective(section: Section, raw: u16, base: u16) -> int {
    match section {
        Section::CODE => raw as int,
        Section::DATA => base + raw,
    }
}

/// The section that an item must stand in, if it must.
pub open spec fn home_of(item: Assm) -> Option<Section> {
    match item {
        Assm::Insn(_) | Assm::RET | Assm::LEA(_, _) | Assm::LC(_, _) => Some(Section::CODE),
        Assm::FILL(_) | Assm::STRINGZ(_) => Some(Section::DATA),
        _ => None,
    }
}

/// The number of words that an item writes.
pub open spec fn words_written(item: Assm) -> int {
    match item {
        Assm::Insn(_) | Assm::RET | Assm::FILL(_) => 1,
        Assm::LEA(_, _) | Assm::LC(_, _) => 2,
        Assm::STRINGZ(s) => encode_utf8(s@).len() as int + 1,
        _ => 0,
    }
}

/// The number of words by which an item moves the counter.
pub open spec fn words_of(item: Assm) -> int {
    match item {
        Assm::BLKW(u) => u.value as int,
        _ => words_written(item),
    }
}

/// The cursor after an item, or the fault that the item has where it stands.
pub open spec fn advance(c: Cursor, item: Assm) -> Result<Cursor, FaultKind> {
    match item {
        Assm::CODE => Ok(Cursor { section: Section::CODE, ..c }),
        Assm::DATA => Ok(Cursor { section: Section::DATA, ..c }),
        Assm::ADDR(u) => Ok(c.with_counter(u.value)),
        Assm::FALIGN => if c.counter() > 0xFFF0 {
            Err(FaultKind::AddressOverflow)
        } else {
            Ok(c.with_counter(round_up16(c.counter() as int) as u16))
        },
        _ => if home_of(item) is Some && home_of(item) != Some(c.section) {
            Err(FaultKind::WrongSection)
        } else if c.counter() + words_of(item) > 0xFFFF {
            Err(FaultKind::AddressOverflow)
        } else {
            Ok(c.with_counter((c.counter() + words_of(item)) as u16))
        },
    }
}

/// What the first pass knows after some items: the cursor and the two tables.
pub struct Placement {
    pub cursor: Cursor,
    pub addr_labels: Map<Seq<char>, (Section, u16)>,
    pub value_labels: Map<Seq<char>, i16>,
}

/// The first pass on one item.
pub open spec fn place_item(p: Placement, item: Assm) -> Result<Placement, FaultKind> {
    match advance(p.cursor, item) {
        Err(k) => Err(k),
        Ok(c) => match item {
            Assm::LABEL(l) => if p.addr_labels.contains_key(l@) {
                Err(FaultKind::DuplicateLabel)
            } else {
                Ok(
                    Placement {
                        addr_labels: p.addr_labels.insert(
                            l@,
                            (p.cursor.section, p.cursor.counter()),
                        ),
                        ..p
                    },
                )
            },
            Assm::LCONST(l, i) => if p.value_labels.contains_key(l@) {
                Err(FaultKind::DuplicateLabel)
            } else {
                Ok(Placement { value_labels: p.value_labels.insert(l@, i.value), ..p })
            },
            Assm::LUCONST(l, u) => if p.value_labels.contains_key(l@) {
                Err(FaultKind::DuplicateLabel)
            } else {
                Ok(Placement { value_labels: p.value_labels.insert(l@, signed(u.value)), ..p })
            },
            _ => Ok(Placement { cursor: c, ..p }),
        },
    }
}

/// The first pass on the first `n` items: the placement after them, or the
/// first fault.
pub open spec fn place(items: Seq<Assm>, n: nat) -> Result<Placement, AssmFault>
    decreases n,
{
    if n == 0 {
        Ok(
            Placement {
                cursor: Cursor::start(),
                addr_labels: Map::empty(),
                value_labels: Map::empty(),
            },
        )
    } else {
        match place(items, (n - 1) as nat) {
            Err(e) => Err(e),
            Ok(p) => match place_item(p, items[n - 1]) {
                Err(k) => Err(AssmFault { index: (n - 1) as usize, kind: k }),
                Ok(q) => Ok(q),
            },
        }
    }
}

/// Where the data section and the heap begin.
pub struct Layout {
    pub base_data_addr: u16,
    pub heap: u16,
}

/// The layout that follows from the final cursor: the data section begins at
/// the end of the code, rounded up, and the heap at the end of the data,
/// rounded up.
pub open spec fn layout_of(c: Cursor) -> Result<Layout, FaultKind> {
    if c.code_addr > 0xFFF0 {
        Err(FaultKind::AddressOverflow)
    } else {
        let base = round_up16(c.code_addr as int);
        if base + c.data_addr > 0xFFF0 {
            Err(FaultKind::AddressOverflow)
        } else {
            Ok(
                Layout {
                    base_data_addr: base as u16,
                    heap: round_up16(base + c.data_addr) as u16,
                },
            )
        }
    }
}

/// What the second pass looks targets up in.
pub struct Symbols {
    pub addr_labels: Map<Seq<char>, (Section, u16)>,
    pub value_labels: Map<Seq<char>, i16>,
    pub base_data_addr: u16,
}

impl Symbols {
    /// The address in the image of an address label.
    pub open spec fn address_of(self, l: Seq<char>) -> int {
        effective(self.addr_labels[l].0, self.addr_labels[l].1, self.base_data_addr)
    }
}

/// The displacement of a branch or jump at cell `at` to the address `target`.
pub open spec fn relative(target: int, at: int) -> int {
    target - (at + 1)
}

/// What `JSR` at cell `at` carries for the address `target`: the distance of
/// the target from the start of the half of memory that `at` lies in, in
/// units of sixteen words.
pub open spec fn paged(target: int, at: int) -> int {
    (target - (if at >= 0x8000 {
        0x8000int
    } else {
        0int
    })) / 16
}

/// The resolved form of an instruction at cell `at`, or the fault it has.
pub open spec fn resolve(sym: Symbols, at: int, insn: LInsn) -> Result<Insn, FaultKind> {
    if !insn.operands_wf() {
        Err(FaultKind::BadOperand)
    } else {
        match insn {
            InsnGen::BR(cc, l) => match code_target(sym, l@) {
                Err(k) => Err(k),
                Ok(t) => if -256 <= relative(t, at) <= 255 {
                    Ok(InsnGen::BR(cc, IMM9 { value: relative(t, at) as i16 }))
                } else {
                    Err(FaultKind::OffsetOutOfRange)
                },
            },
            InsnGen::JMP(l) => match code_target(sym, l@) {
                Err(k) => Err(k),
                Ok(t) => if -1024 <= relative(t, at) <= 1023 {
                    Ok(InsnGen::JMP(IMM11 { value: relative(t, at) as i16 }))
                } else {
                    Err(FaultKind::OffsetOutOfRange)
                },
            },
            InsnGen::JSR(l) => match code_target(sym, l@) {
                Err(k) => Err(k),
                Ok(t) => if -1024 <= paged(t, at) <= 1023 {
                    Ok(InsnGen::JSR(IMM11 { value: paged(t, at) as i16 }))
                } else {
                    Err(FaultKind::OffsetOutOfRange)
                },
            },
            _ => Ok(insn.with_targets(IMM9 { value: 0 }, IMM11 { value: 0 })),
        }
    }
}

/// The raw address of a label that a branch or jump names: the label must be
/// defined, and in the code section.
pub open spec fn code_target(sym: Symbols, l: Seq<char>) -> Result<int, FaultKind> {
    if !sym.addr_labels.contains_key(l) {
        Err(FaultKind::UndefinedLabel)
    } else if sym.addr_labels[l].0 != Section::CODE {
        Err(FaultKind::WrongSection)
    } else {
        Ok(sym.addr_labels[l].1 as int)
    }
}

/// The two cells that load the word `v` into `rd`: `CONST` with the low nine
/// bits, read as a signed number, then `HICONST` with the high eight.
pub open spec fn load_pair(rd: RName, v: u16) -> (Mem, Mem) {
    (
        Mem::CODE(InsnGen::CONST(rd, IMM9 { value: sign_extend(v, 9) })),
        Mem::CODE(InsnGen::HICONST(rd, UIMM8 { value: v >> 8 })),
    )
}

/// The memory with `pair` written at `at` and `at + 1`.
pub open spec fn write_pair(mem: Seq<Mem>, at: int, pair: (Mem, Mem)) -> Seq<Mem> {
    mem.update(at, pair.0).update(at + 1, pair.1)
}

/// The memory with one data word for each byte written from `at` on, and a
/// zero word after the last.
pub open spec fn write_string(mem: Seq<Mem>, at: int, bytes: Seq<u8>) -> Seq<Mem> {
    Seq::new(
        mem.len(),
        |a: int|
            if at <= a < at + bytes.len() {
                Mem::DATA(bytes[a - at] as i16)
            } else if a == at + bytes.len() {
                Mem::DATA(0)
            } else {
                mem[a]
            },
    )
}

/// The second pass on one item, which stands at cursor `c`: the memory with
/// the item's words written, or the fault it has.
pub open spec fn emit_item(sym: Symbols, c: Cursor, mem: Seq<Mem>, item: Assm) -> Result<
    Seq<Mem>,
    FaultKind,
> {
    let at = c.cell(sym.base_data_addr);
    if words_written(item) > 0 && at + words_written(item) > MEMORY_CELLS {
        Err(FaultKind::AddressOverflow)
    } else {
        match item {
            Assm::Insn(insn) => match resolve(sym, at, insn) {
                Err(k) => Err(k),
                Ok(i) => Ok(mem.update(at, Mem::CODE(i))),
            },
            Assm::RET => Ok(mem.update(at, Mem::CODE(InsnGen::JMPr(R7)))),
            Assm::LEA(rd, l) => if !is_reg(rd) {
                Err(FaultKind::BadOperand)
            } else if !sym.addr_labels.contains_key(l@) {
                Err(FaultKind::UndefinedLabel)
            } else if sym.address_of(l@) > 0xFFFF {
                Err(FaultKind::AddressOverflow)
            } else {
                Ok(write_pair(mem, at, load_pair(rd, sym.address_of(l@) as u16)))
            },
            Assm::LC(rd, l) => if !is_reg(rd) {
                Err(FaultKind::BadOperand)
            } else if !sym.value_labels.contains_key(l@) {
                Err(FaultKind::UndefinedLabel)
            } else {
                Ok(write_pair(mem, at, load_pair(rd, unsigned(sym.value_labels[l@]))))
            },
            Assm::FILL(i) => Ok(mem.update(at, Mem::DATA(i.value))),
            Assm::STRINGZ(s) => Ok(write_string(mem, at, encode_utf8(s@))),
            _ => Ok(mem),
        }
    }
}

/// A memory of zero data words.
pub open spec fn blank_memory() -> Seq<Mem> {
    Seq::new(MEMORY_CELLS as nat, |a: int| Mem::DATA(0))
}

/// The second pass on the first `n` items: the memory after them, or the
/// first fault. Each item is written where the first pass has placed it.
pub open spec fn emit(items: Seq<Assm>, n: nat, sym: Symbols) -> Result<Seq<Mem>, AssmFault>
    decreases n,
{
    if n == 0 {
        Ok(blank_memory())
    } else {
        match emit(items, (n - 1) as nat, sym) {
            Err(e) => Err(e),
            Ok(mem) => match place(items, (n - 1) as nat) {
                Err(e) => Err(e),
                Ok(p) => match emit_item(sym, p.cursor, mem, items[n - 1]) {
                    Err(k) => Err(AssmFault { index: (n - 1) as usize, kind: k }),
                    Ok(m) => Ok(m),
                },
            },
        }
    }
}

/// What a program assembles to.
pub struct Image {
    pub memory: Seq<Mem>,
    pub labels: Map<Seq<char>, (Section, u16)>,
    pub heap: u16,
}

/// The symbols that the second pass works with, once the first pass and the
/// layout have succeeded.
pub open spec fn symbols_of(p: Placement, lay: Layout) -> Symbols {
    Symbols {
        addr_labels: p.addr_labels,
        value_labels: p.value_labels,
        base_data_addr: lay.base_data_addr,
    }
}

/// The image of a program, or its first fault: a fault of the first pass
/// comes before one of the layout, and that before one of the second pass.
pub open spec fn assembly(items: Seq<Assm>) -> Result<Image, AssmFault> {
    match place(items, items.len()) {
        Err(e) => Err(e),
        Ok(p) => match layout_of(p.cursor) {
            Err(k) => Err(AssmFault { index: items.len() as usize, kind: k }),
            Ok(lay) => match emit(items, items.len(), symbols_of(p, lay)) {
                Err(e) => Err(e),
                Ok(mem) => Ok(Image { memory: mem, labels: p.addr_labels, heap: lay.heap }),
            },
        }
    }
}

impl Cursor {
    /// Reads `counter`.
    pub fn current(&self) -> (v: u16)
        ensures
            v == self.counter(),
    {
        match self.section {
            Section::CODE => self.code_addr,
            Section::DATA => self.data_addr,
        }
    }

    /// Computes `with_counter`.
    pub fn moved_to(&self, v: u16) -> (c: Cursor)
        ensures
            c == self.with_counter(v),
    {
        match self.section {
            Section::CODE => Cursor { section: self.section, code_addr: v, data_addr: self.data_addr },
            Section::DATA => Cursor { section: self.section, code_addr: self.code_addr, data_addr: v },
        }
    }

    /// Moves the counter of the current section on by `words`, for an item
    /// whose section, if it has one, is `home`.
    fn moved_by(&self, home: Option<Section>, words: u16) -> (r: Result<Cursor, FaultKind>)
        ensures
            r == (if home is Some && home != Some(self.section) {
                Err::<Cursor, FaultKind>(FaultKind::WrongSection)
            } else if self.counter() + words > 0xFFFF {
                Err(FaultKind::AddressOverflow)
            } else {
                Ok(self.with_counter((self.counter() + words) as u16))
            }),
    {
        let misplaced = match home {
            Some(Section::CODE) => self.section == Section::DATA,
            Some(Section::DATA) => self.section == Section::CODE,
            None => false,
        };
        let at: u16 = self.current();
        if misplaced {
            Err(FaultKind::WrongSection)
        } else if words > 0xFFFF - at {
            Err(FaultKind::AddressOverflow)
        } else {
            Ok(self.moved_to(at + words))
        }
    }
}

/// Computes `advance`.
pub fn step_cursor(c: &Cursor, item: &Assm) -> (r: Result<Cursor, FaultKind>)
    ensures
        r == advance(*c, *item),
{
    match item {
        Assm::CODE => Ok(
            Cursor { section: Section::CODE, code_addr: c.code_addr, data_addr: c.data_addr },
        ),
        Assm::DATA => Ok(
            Cursor { section: Section::DATA, code_addr: c.code_addr, data_addr: c.data_addr },
        ),
        Assm::ADDR(u) => Ok(c.moved_to(u.value)),
        Assm::FALIGN => {
            let at: u16 = c.current();
            if at > 0xFFF0 {
                Err(FaultKind::AddressOverflow)
            } else {
                Ok(c.moved_to(pad16(at)))
            }
        },
        Assm::Insn(_) | Assm::RET => c.moved_by(Some(Section::CODE), 1),
        Assm::LEA(_, _) | Assm::LC(_, _) => c.moved_by(Some(Section::CODE), 2),
        Assm::FILL(_) => c.moved_by(Some(Section::DATA), 1),
        Assm::STRINGZ(s) => {
            let len: usize = s.as_str().as_bytes().len();
            if len >= 0xFFFF {
                match c.section {
                    Section::CODE => Err(FaultKind::WrongSection),
                    Section::DATA => Err(FaultKind::AddressOverflow),
                }
            } else {
                c.moved_by(Some(Section::DATA), (len + 1) as u16)
            }
        },
        Assm::BLKW(u) => c.moved_by(None, u.value),
        Assm::LABEL(_) | Assm::LCONST(_, _) | Assm::LUCONST(_, _) => c.moved_by(None, 0),
    }
}

/// Once the first pass has met a fault, more items change nothing.
pub proof fn place_fault_stays(items: Seq<Assm>, m: nat, n: nat)
    requires
        m <= n,
        place(items, m) is Err,
    ensures
        place(items, n) == place(items, m),
    decreases n,
{
    if m < n {
        place_fault_stays(items, m, (n - 1) as nat);
    }
}

/// Where the first pass succeeds on some items, it succeeds on fewer.
pub proof fn place_prefix_ok(items: Seq<Assm>, m: nat, n: nat)
    requires
        m <= n,
        place(items, n) is Ok,
    ensures
        place(items, m) is Ok,
{
    if place(items, m) is Err {
        place_fault_stays(items, m, n);
    }
}

/// Once the second pass has met a fault, more items change nothing.
pub proof fn emit_fault_stays(items: Seq<Assm>, sym: Symbols, m: nat, n: nat)
    requires
        m <= n,
        emit(items, m, sym) is Err,
    ensures
        emit(items, n, sym) == emit(items, m, sym),
    decreases n,
{
    if m < n {
        emit_fault_stays(items, sym, m, (n - 1) as nat);
    }
}

/// The tables of the first pass, and where the layout puts the data.
pub struct SymbolTable {
    pub addr_labels: StringHashMap<(Section, u16)>,
    pub value_labels: StringHashMap<i16>,
    pub base_data_addr: u16,
}

impl View for SymbolTable {
    type V = Symbols;

    open spec fn view(&self) -> Symbols {
        Symbols {
            addr_labels: self.addr_labels@,
            value_labels: self.value_labels@,
            base_data_addr: self.base_data_addr,
        }
    }
}

/// The first pass: the final cursor and the two tables, or the first fault.
pub fn place_all(items: &Vec<Assm>) -> (r: Result<(Cursor, SymbolTable), AssmFault>)
    ensures
        match place(items@, items@.len()) {
            Err(e) => r == Err::<(Cursor, SymbolTable), AssmFault>(e),
            Ok(p) => r matches Ok(t) && t.0 == p.cursor && t.1.addr_labels@ == p.addr_labels
                && t.1.value_labels@ == p.value_labels && t.1.base_data_addr == 0,
        },
{
    let mut c = Cursor { section: Section::CODE, code_addr: 0, data_addr: 0 };
    let mut addr_labels: StringHashMap<(Section, u16)> = StringHashMap::new();
    let mut value_labels: StringHashMap<i16> = StringHashMap::new();
    let n: usize = items.len();
    let mut i: usize = 0;
    while i < n
        invariant
            i <= n,
            n == items@.len(),
            place(items@, i as nat) == Ok::<Placement, AssmFault>(
                Placement {
                    cursor: c,
                    addr_labels: addr_labels@,
                    value_labels: value_labels@,
                },
            ),
        decreases n - i,
    {
        let item = &items[i];
        let fault: Option<FaultKind> = match step_cursor(&c, item) {
            Err(k) => Some(k),
            Ok(next) => match item {
                Assm::LABEL(l) => {
                    if addr_labels.contains_key(l.as_str()) {
                        Some(FaultKind::DuplicateLabel)
                    } else {
                        addr_labels.insert(l.clone(), (c.section, c.current()));
                        None
                    }
                },
                Assm::LCONST(l, v) => {
                    if value_labels.contains_key(l.as_str()) {
                        Some(FaultKind::DuplicateLabel)
                    } else {
                        value_labels.insert(l.clone(), v.value);
                        None
                    }
                },
                Assm::LUCONST(l, u) => {
                    if value_labels.contains_key(l.as_str()) {
                        Some(FaultKind::DuplicateLabel)
                    } else {
                        value_labels.insert(l.clone(), to_signed(u.value));
                        None
                    }
                },
                _ => {
                    c = next;
                    None
                },
            },
        };
        if let Some(k) = fault {
            proof {
                place_fault_stays(items@, (i + 1) as nat, n as nat);
            }
            return Err(AssmFault { index: i, kind: k });
        }
        i += 1;
    }
    Ok((c, SymbolTable { addr_labels, value_labels, base_data_addr: 0 }))
}

/// Computes `layout_of`.
pub fn lay_out(c: &Cursor) -> (r: Result<Layout, FaultKind>)
    ensures
        r == layout_of(*c),
{
    if c.code_addr > 0xFFF0 {
        Err(FaultKind::AddressOverflow)
    } else {
        let base: u16 = pad16(c.code_addr);
        if c.data_addr > 0xFFF0 - base {
            Err(FaultKind::AddressOverflow)
        } else {
            Ok(Layout { base_data_addr: base, heap: pad16(base + c.data_addr) })
        }
    }
}

impl SymbolTable {
    /// Computes `code_target`.
    fn code_target(&self, l: &Label) -> (r: Result<u16, FaultKind>)
        ensures
            match code_target(self@, l@) {
                Err(k) => r == Err::<u16, FaultKind>(k),
                Ok(t) => r matches Ok(a) && a == t,
            },
    {
        match self.addr_labels.get(l.as_str()) {
            None => Err(FaultKind::UndefinedLabel),
            Some(entry) => match entry.0 {
                Section::DATA => Err(FaultKind::WrongSection),
                Section::CODE => Ok(entry.1),
            },
        }
    }

    /// The address in the image of an address label, where it is defined and
    /// fits sixteen bits.
    fn address_of(&self, l: &Label) -> (r: Result<u16, FaultKind>)
        ensures
            r == (if !self@.addr_labels.contains_key(l@) {
                Err::<u16, FaultKind>(FaultKind::UndefinedLabel)
            } else if self@.address_of(l@) > 0xFFFF {
                Err(FaultKind::AddressOverflow)
            } else {
                Ok(self@.address_of(l@) as u16)
            }),
    {
        match self.addr_labels.get(l.as_str()) {
            None => Err(FaultKind::UndefinedLabel),
            Some(entry) => match entry.0 {
                Section::CODE => Ok(entry.1),
                Section::DATA => if entry.1 > 0xFFFF - self.base_data_addr {
                    Err(FaultKind::AddressOverflow)
                } else {
                    Ok(self.base_data_addr + entry.1)
                },
            },
        }
    }
}

/// The displacement from cell `at` to `target`, where it lies in `lo..=hi`.
fn displacement(target: u16, at: usize, lo: i16, hi: i16) -> (r: Option<i16>)
    requires
        at < MEMORY_CELLS,
    ensures
        r == (if lo <= relative(target as int, at as int) <= hi {
            Some(relative(target as int, at as int) as i16)
        } else {
            None::<i16>
        }),
{
    let d: i32 = target as i32 - (at as i32 + 1);
    if lo as i32 <= d && d <= hi as i32 {
        Some(d as i16)
    } else {
        None
    }
}

/// Computes `paged`, where the result fits eleven bits.
fn page_offset(target: u16, at: usize) -> (r: Option<i16>)
    requires
        at < MEMORY_CELLS,
    ensures
        r == (if -1024 <= paged(target as int, at as int) <= 1023 {
            Some(paged(target as int, at as int) as i16)
        } else {
            None::<i16>
        }),
{
    let page: i32 = if at >= 0x8000 {
        0x8000
    } else {
        0
    };
    let d: i32 = target as i32 - page;
    let q: i32 = d >> 4u32;
    assert(d >> 4u32 == d as int / 16) by (bit_vector);
    if -1024 <= q && q <= 1023 {
        Some(q as i16)
    } else {
        None
    }
}

/// Computes `resolve`.
pub fn resolve_insn(sym: &SymbolTable, at: usize, insn: &LInsn) -> (r: Result<Insn, FaultKind>)
    requires
        at < MEMORY_CELLS,
    ensures
        r == resolve(sym@, at as int, *insn),
{
    if !insn.operands_ok() {
        return Err(FaultKind::BadOperand);
    }
    match insn {
        InsnGen::BR(cc, l) => match sym.code_target(l) {
            Err(k) => Err(k),
            Ok(t) => match displacement(t, at, -256, 255) {
                None => Err(FaultKind::OffsetOutOfRange),
                Some(value) => Ok(InsnGen::BR(*cc, IMM9 { value })),
            },
        },
        InsnGen::JMP(l) => match sym.code_target(l) {
            Err(k) => Err(k),
            Ok(t) => match displacement(t, at, -1024, 1023) {
                None => Err(FaultKind::OffsetOutOfRange),
                Some(value) => Ok(InsnGen::JMP(IMM11 { value })),
            },
        },
        InsnGen::JSR(l) => match sym.code_target(l) {
            Err(k) => Err(k),
            Ok(t) => match page_offset(t, at) {
                None => Err(FaultKind::OffsetOutOfRange),
                Some(value) => Ok(InsnGen::JSR(IMM11 { value })),
            },
        },
        _ => Ok(partial_cast(insn)),
    }
}

/// Writes `load_pair` at `at` and `at + 1`.
fn write_load(mem: &mut Vec<Mem>, at: usize, rd: RName, v: u16)
    requires
        old(mem)@.len() == MEMORY_CELLS,
        at + 2 <= MEMORY_CELLS,
    ensures
        final(mem)@ == write_pair(old(mem)@, at as int, load_pair(rd, v)),
{
    let next: usize = at + 1;
    mem[at] = Mem::CODE(InsnGen::CONST(rd, IMM9 { value: extend(v, 9) }));
    mem[next] = Mem::CODE(InsnGen::HICONST(rd, UIMM8 { value: v >> 8u16 }));
}

/// Writes `write_string`.
fn write_bytes(mem: &mut Vec<Mem>, at: usize, bytes: &[u8])
    requires
        old(mem)@.len() == MEMORY_CELLS,
        at + bytes@.len() + 1 <= MEMORY_CELLS,
    ensures
        final(mem)@ == write_string(old(mem)@, at as int, bytes@),
{
    let n: usize = bytes.len();
    let mut j: usize = 0;
    while j < n
        invariant
            j <= n,
            n == bytes@.len(),
            mem@.len() == old(mem)@.len(),
            at + n + 1 <= MEMORY_CELLS,
            mem@.len() == MEMORY_CELLS,
            forall|a: int|
                0 <= a < mem@.len() ==> mem@[a] == (if at <= a < at + j {
                    Mem::DATA(bytes@[a - at] as i16)
                } else {
                    old(mem)@[a]
                }),
        decreases n - j,
    {
        let a: usize = at + j;
        mem[a] = Mem::DATA(bytes[j] as i16);
        j += 1;
    }
    let end: usize = at + n;
    mem[end] = Mem::DATA(0);
    assert(mem@ =~= write_string(old(mem)@, at as int, bytes@));
}

/// The second pass on one item that stands at cursor `c`.
pub fn emit_one(sym: &SymbolTable, c: &Cursor, mem: &mut Vec<Mem>, item: &Assm) -> (r: Result<
    (),
    FaultKind,
>)
    requires
        old(mem)@.len() == MEMORY_CELLS,
    ensures
        match emit_item(sym@, *c, old(mem)@, *item) {
            Err(k) => r == Err::<(), FaultKind>(k) && final(mem)@ == old(mem)@,
            Ok(m) => r is Ok && final(mem)@ == m && m.len() == MEMORY_CELLS,
        },
{
    let raw: u16 = c.current();
    let cell: usize = match c.section {
        Section::CODE => raw as usize,
        Section::DATA => sym.base_data_addr as usize + raw as usize,
    };
    match item {
        Assm::Insn(insn) => {
            if cell >= MEMORY_CELLS {
                return Err(FaultKind::AddressOverflow);
            }
            match resolve_insn(sym, cell, insn) {
                Err(k) => Err(k),
                Ok(i) => {
                    mem[cell] = Mem::CODE(i);
                    Ok(())
                },
            }
        },
        Assm::RET => {
            if cell >= MEMORY_CELLS {
                return Err(FaultKind::AddressOverflow);
            }
            mem[cell] = Mem::CODE(InsnGen::JMPr(R7));
            Ok(())
        },
        Assm::LEA(rd, l) => {
            if cell + 2 > MEMORY_CELLS {
                return Err(FaultKind::AddressOverflow);
            }
            if *rd >= 8 {
                return Err(FaultKind::BadOperand);
            }
            match sym.address_of(l) {
                Err(k) => Err(k),
                Ok(v) => {
                    write_load(mem, cell, *rd, v);
                    Ok(())
                },
            }
        },
        Assm::LC(rd, l) => {
            if cell + 2 > MEMORY_CELLS {
                return Err(FaultKind::AddressOverflow);
            }
            if *rd >= 8 {
                return Err(FaultKind::BadOperand);
            }
            match sym.value_labels.get(l.as_str()) {
                None => Err(FaultKind::UndefinedLabel),
                Some(v) => {
                    write_load(mem, cell, *rd, to_unsigned(*v));
                    Ok(())
                },
            }
        },
        Assm::FILL(i) => {
            if cell >= MEMORY_CELLS {
                return Err(FaultKind::AddressOverflow);
            }
            mem[cell] = Mem::DATA(i.value);
            Ok(())
        },
        Assm::STRINGZ(s) => {
            let bytes = s.as_str().as_bytes();
            if cell >= MEMORY_CELLS || bytes.len() >= MEMORY_CELLS - cell {
                return Err(FaultKind::AddressOverflow);
            }
            write_bytes(mem, cell, bytes);
            Ok(())
        },
        _ => Ok(()),
    }
}

/// A memory of zero data words.
pub fn blank() -> (mem: Vec<Mem>)
    ensures
        mem@ == blank_memory(),
{
    let mut mem: Vec<Mem> = Vec::with_capacity(MEMORY_CELLS);
    let mut a: usize = 0;
    while a < MEMORY_CELLS
        invariant
            a <= MEMORY_CELLS,
            mem@.len() == a,
            forall|b: int| 0 <= b < a ==> mem@[b] == Mem::DATA(0),
        decreases MEMORY_CELLS - a,
    {
        mem.push(Mem::DATA(0));
        a += 1;
    }
    assert(mem@ =~= blank_memory());
    mem
}

/// The second pass: the memory, or the first fault.
pub fn emit_all(items: &Vec<Assm>, sym: &SymbolTable) -> (r: Result<Vec<Mem>, AssmFault>)
    requires
        place(items@, items@.len()) is Ok,
    ensures
        match emit(items@, items@.len(), sym@) {
            Err(e) => r == Err::<Vec<Mem>, AssmFault>(e),
            Ok(m) => r matches Ok(v) && v@ == m && v@.len() == MEMORY_CELLS,
        },
{
    let mut mem = blank();
    let mut c = Cursor { section: Section::CODE, code_addr: 0, data_addr: 0 };
    let n: usize = items.len();
    let mut i: usize = 0;
    while i < n
        invariant
            i <= n,
            n == items@.len(),
            place(items@, n as nat) is Ok,
            place(items@, i as nat) matches Ok(p) && p.cursor == c,
            emit(items@, i as nat, sym@) == Ok::<Seq<Mem>, AssmFault>(mem@),
            mem@.len() == MEMORY_CELLS,
        decreases n - i,
    {
        let item = &items[i];
        proof {
            place_prefix_ok(items@, (i + 1) as nat, n as nat);
        }
        match emit_one(sym, &c, &mut mem, item) {
            Err(k) => {
                proof {
                    emit_fault_stays(items@, sym@, (i + 1) as nat, n as nat);
                }
                return Err(AssmFault { index: i, kind: k });
            },
            Ok(()) => {},
        }
        c = match step_cursor(&c, item) {
            Ok(next) => next,
            Err(_) => unreached(),
        };
        i += 1;
    }
    Ok(mem)
}

/// Assembles a program: the image, or the first fault.
pub fn try_assemble(assm_lines: Vec<Assm>) -> (r: Result<AssmData<Mem>, AssmFault>)
    ensures
        match assembly(assm_lines@) {
            Err(e) => r == Err::<AssmData<Mem>, AssmFault>(e),
            Ok(img) => r matches Ok(d) && d.memory@ == img.memory && d.labels@ == img.labels
                && d.heap == img.heap && d.wf(),
        },
{
    let (c, mut sym) = match place_all(&assm_lines) {
        Err(e) => {
            return Err(e);
        },
        Ok(t) => t,
    };
    let lay = match lay_out(&c) {
        Err(k) => {
            return Err(AssmFault { index: assm_lines.len(), kind: k });
        },
        Ok(lay) => lay,
    };
    sym.base_data_addr = lay.base_data_addr;
    match emit_all(&assm_lines, &sym) {
        Err(e) => Err(e),
        Ok(memory) => Ok(AssmData { memory, labels: sym.addr_labels, heap: lay.heap }),
    }
}

/// Assembles a program that has no fault.
pub fn assemble(assm_lines: Vec<Assm>) -> (d: AssmData<Mem>)
    requires
        assembly(assm_lines@) is Ok,
    ensures
        assembly(assm_lines@) matches Ok(img) && d.memory@ == img.memory && d.labels@
            == img.labels && d.heap == img.heap,
        d.wf(),
{
    match try_assemble(assm_lines) {
        Ok(d) => d,
        Err(_) => unreached(),
    }
}

} // verus!
