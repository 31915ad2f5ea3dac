//! The simulator: the state of the machine and what one instruction does to
//! it.

use crate::architecture::{legal, one_hot, Insn, InsnGen, RName, CC, IMM6, N, P, R7, Z};
use crate::assm_data::{AssmData, Memory, MEMORY_CELLS};
use crate::controller::{decoded_is_legal, decoding, Controller, DecodeError};
use crate::word::{
    signed, to_signed, to_unsigned, unsigned, wrap, wrap16, wrap_unsigned, wrap_word,
};
use std::cmp::Ordering;
use vstd::prelude::*;

verus! {

/// The processor: eight registers, the mode, the program counter, the
/// condition code and the memory.
pub struct CPU {
    pub regfile: [i16; 8],
    pub priv_status: bool,
    pub pc: u16,
    pub nzp: CC,
    pub memory: Memory<i16>,
}

/// Why an instruction was not carried out.
#[derive(Clone, Copy, Debug, PartialEq, Eq)]
pub enum CPUError {
    /// The word at the program counter is no instruction.
    DecodeError(DecodeError),
    /// A load or store in user mode at an address from `0x8000` on.
    Unauthorized,
    /// `DIV` or `MOD` with a zero divisor.
    DivideByZero,
}

impl From<DecodeError> for CPUError {
    fn from(err: DecodeError) -> (r: CPUError) {
        CPUError::DecodeError(err)
    }
}

impl vstd::std_specs::convert::FromSpecImpl<DecodeError> for CPUError {
    open spec fn obeys_from_spec() -> bool {
        true
    }

    open spec fn from_spec(err: DecodeError) -> CPUError {
        CPUError::DecodeError(err)
    }
}

/// The state of the machine as plain values.
pub struct Machine {
    pub regs: Seq<i16>,
    pub privileged: bool,
    pub pc: u16,
    pub nzp: CC,
    pub memory: Seq<i16>,
}

impl View for CPU {
    type V = Machine;

    open spec fn view(&self) -> Machine {
        Machine {
            regs: self.regfile@,
            privileged: self.priv_status,
            pc: self.pc,
            nzp: self.nzp,
            memory: self.memory@,
        }
    }
}

impl CPU {
    /// The memory has its full size.
    pub open spec fn wf(self) -> bool {
        self.memory@.len() == MEMORY_CELLS
    }
}

/// The condition code that says how `a` stands to `b`.
pub open spec fn order(a: int, b: int) -> CC {
    if a < b {
        N
    } else if a == b {
        Z
    } else {
        P
    }
}

/// Every bit of `x` turned over.
pub open spec fn complement(x: i16) -> i16 {
    !x
}

/// The quotient of `a` by `b`, rounded toward zero. Meant for `b != 0`.
pub open spec fn quotient(a: int, b: int) -> int {
    let q = (if a < 0 {
        -a
    } else {
        a
    }) / (if b < 0 {
        -b
    } else {
        b
    });
    if (a < 0) != (b < 0) {
        -q
    } else {
        q
    }
}

/// What is left of `a` after `quotient(a, b)` times `b`: it has the sign of
/// `a`, or is zero.
pub open spec fn remainder(a: int, b: int) -> int {
    a - b * quotient(a, b)
}

impl Machine {
    /// Eight registers and the full memory.
    pub open spec fn wf(self) -> bool {
        self.regs.len() == 8 && self.memory.len() == MEMORY_CELLS
    }

    /// The machine with `v` in register `r`.
    pub open spec fn set_reg(self, r: RName, v: i16) -> Machine {
        Machine { regs: self.regs.update(r as int, v), ..self }
    }

    /// The machine with the program counter at `pc`.
    pub open spec fn go_to(self, pc: u16) -> Machine {
        Machine { pc, ..self }
    }

    /// The machine with the condition code `cc`.
    pub open spec fn set_nzp(self, cc: CC) -> Machine {
        Machine { nzp: cc, ..self }
    }

    /// The machine with the program counter moved on by one.
    pub open spec fn next(self) -> Machine {
        self.go_to(wrap_word(self.pc + 1))
    }

    /// The machine with the address after the program counter in the link
    /// register.
    pub open spec fn link(self) -> Machine {
        self.set_reg(R7, wrap16(self.pc + 1))
    }

    /// The address that a load or store with base `rs` and displacement `off`
    /// goes to.
    pub open spec fn address(self, rs: RName, off: IMM6) -> u16 {
        unsigned(wrap16(self.regs[rs as int] + off.value))
    }

    /// True when the mode forbids the address.
    pub open spec fn forbids(self, addr: u16) -> bool {
        !self.privileged && addr >= 0x8000
    }
}

/// The machine after one instruction, or why the instruction was not carried
/// out. Arithmetic wraps round in sixteen bits. Only the four compare
/// instructions write the condition code.
pub open spec fn run(m: Machine, insn: Insn) -> Result<Machine, CPUError> {
    let r = m.regs;
    match insn {
        InsnGen::NOP => Ok(m.next()),
        InsnGen::BR(cc, off) => if cc & m.nzp != 0 {
            Ok(m.go_to(wrap_word(m.pc + off.value)).next())
        } else {
            Ok(m.next())
        },
        InsnGen::ADD(rd, rs, rt) => Ok(m.set_reg(rd, wrap16(r[rs as int] + r[rt as int])).next()),
        InsnGen::MUL(rd, rs, rt) => Ok(m.set_reg(rd, wrap16(r[rs as int] * r[rt as int])).next()),
        InsnGen::SUB(rd, rs, rt) => Ok(m.set_reg(rd, wrap16(r[rs as int] - r[rt as int])).next()),
        InsnGen::DIV(rd, rs, rt) => if r[rt as int] == 0 {
            Err(CPUError::DivideByZero)
        } else {
            Ok(m.set_reg(rd, wrap16(quotient(r[rs as int] as int, r[rt as int] as int))).next())
        },
        InsnGen::ADDi(rd, rs, n) => Ok(m.set_reg(rd, wrap16(r[rs as int] + n.value)).next()),
        InsnGen::CMP(rd, rt) => Ok(m.set_nzp(order(r[rd as int] as int, r[rt as int] as int)).next()),
        InsnGen::CMPu(rd, rt) => Ok(
            m.set_nzp(order(unsigned(r[rd as int]) as int, unsigned(r[rt as int]) as int)).next(),
        ),
        InsnGen::CMPi(rd, n) => Ok(m.set_nzp(order(r[rd as int] as int, n.value as int)).next()),
        InsnGen::CMPiu(rd, n) => Ok(
            m.set_nzp(order(unsigned(r[rd as int]) as int, n.value as int)).next(),
        ),
        InsnGen::JSR(t) => Ok(m.link().go_to((m.pc & 0x8000) | (unsigned(t.value) << 4u16))),
        InsnGen::JSRr(rs) => Ok(m.link().go_to(unsigned(m.link().regs[rs as int]))),
        InsnGen::AND(rd, rs, rt) => Ok(m.set_reg(rd, r[rs as int] & r[rt as int]).next()),
        InsnGen::NOT(rd, rs) => Ok(m.set_reg(rd, complement(r[rs as int])).next()),
        InsnGen::OR(rd, rs, rt) => Ok(m.set_reg(rd, r[rs as int] | r[rt as int]).next()),
        InsnGen::XOR(rd, rs, rt) => Ok(m.set_reg(rd, r[rs as int] ^ r[rt as int]).next()),
        InsnGen::ANDi(rd, rs, n) => Ok(m.set_reg(rd, r[rs as int] & n.value).next()),
        InsnGen::LDR(rd, rs, off) => if m.forbids(m.address(rs, off)) {
            Err(CPUError::Unauthorized)
        } else {
            Ok(m.set_reg(rd, m.memory[m.address(rs, off) as int]).next())
        },
        InsnGen::STR(rd, rs, off) => if m.forbids(m.address(rs, off)) {
            Err(CPUError::Unauthorized)
        } else {
            Ok(
                Machine {
                    memory: m.memory.update(m.address(rs, off) as int, r[rd as int]),
                    ..m
                }.next(),
            )
        },
        InsnGen::RTI => Ok(Machine { privileged: false, ..m }.go_to(unsigned(r[R7 as int]))),
        InsnGen::CONST(rd, c) => Ok(m.set_reg(rd, c.value).next()),
        InsnGen::SLL(rd, rs, n) => Ok(
            m.set_reg(rd, signed(unsigned(r[rs as int]) << n.value)).next(),
        ),
        InsnGen::SRA(rd, rs, n) => Ok(m.set_reg(rd, r[rs as int] >> n.value).next()),
        InsnGen::SRL(rd, rs, n) => Ok(
            m.set_reg(rd, signed(unsigned(r[rs as int]) >> n.value)).next(),
        ),
        InsnGen::MOD(rd, rs, rt) => if r[rt as int] == 0 {
            Err(CPUError::DivideByZero)
        } else {
            Ok(m.set_reg(rd, wrap16(remainder(r[rs as int] as int, r[rt as int] as int))).next())
        },
        InsnGen::JMPr(rs) => Ok(m.go_to(unsigned(r[rs as int]))),
        InsnGen::JMP(t) => Ok(m.go_to(wrap_word(m.pc + t.value))),
        InsnGen::HICONST(rd, c) => Ok(
            m.set_reg(rd, (r[rd as int] & 0xFF) | signed(c.value << 8u16)).next(),
        ),
        InsnGen::TRAP(t) => Ok(
            Machine { privileged: true, ..m.link() }.go_to(0x8000 | t.value),
        ),
    }
}

/// One step: the word at the program counter is decoded and the instruction
/// carried out.
pub open spec fn step_of(m: Machine) -> Result<Machine, CPUError> {
    match decoding(unsigned(m.memory[m.pc as int])) {
        Err(e) => Err(CPUError::DecodeError(e)),
        Ok(insn) => run(m, insn),
    }
}

/// The condition code of an ordering: `N` for less, `Z` for equal, `P` for
/// greater.
pub fn from_ordering(ord: Ordering) -> (cc: CC)
    ensures
        cc == match ord {
            Ordering::Less => N,
            Ordering::Equal => Z,
            Ordering::Greater => P,
        },
        one_hot(cc),
{
    match ord {
        Ordering::Less => N,
        Ordering::Equal => Z,
        Ordering::Greater => P,
    }
}

/// Compares two signed numbers.
fn signed_order(a: i16, b: i16) -> (cc: CC)
    ensures
        cc == (if a < b {
            N
        } else if a == b {
            Z
        } else {
            P
        }),
{
    from_ordering(a.cmp(&b))
}

/// Compares two unsigned numbers.
fn unsigned_order(a: u16, b: u16) -> (cc: CC)
    ensures
        cc == (if a < b {
            N
        } else if a == b {
            Z
        } else {
            P
        }),
{
    from_ordering(a.cmp(&b))
}

/// Computes `complement`.
fn invert(x: i16) -> (r: i16)
    ensures
        r == complement(x),
{
    !x
}

/// The size of a number.
fn magnitude(a: i16) -> (m: u32)
    ensures
        m == (if a < 0 {
            -a
        } else {
            a as int
        }),
{
    if a < 0 {
        (-(a as i32)) as u32
    } else {
        a as u32
    }
}

/// The quotient of the sizes of `a` and `b`.
fn size_quotient(a: i16, b: i16) -> (size: u32)
    requires
        b != 0,
    ensures
        size <= 0x8000,
        quotient(a as int, b as int) == (if (a < 0) != (b < 0) {
            -size
        } else {
            size as int
        }),
{
    let x: u32 = magnitude(a);
    let y: u32 = magnitude(b);
    let size: u32 = x / y;
    assert(size <= 0x8000) by (nonlinear_arith)
        requires
            size == x / y,
            x <= 0x8000,
            y >= 1,
    ;
    size
}

/// Computes `quotient`, wrapped round.
fn divide(a: i16, b: i16) -> (q: i16)
    requires
        b != 0,
    ensures
        q == wrap16(quotient(a as int, b as int)),
{
    let size: u32 = size_quotient(a, b);
    if (a < 0) != (b < 0) {
        wrap(-(size as i32))
    } else {
        wrap(size as i32)
    }
}

/// Computes `remainder`, wrapped round.
fn modulo(a: i16, b: i16) -> (r: i16)
    requires
        b != 0,
    ensures
        r == wrap16(remainder(a as int, b as int)),
{
    let size: u32 = size_quotient(a, b);
    let q: i32 = if (a < 0) != (b < 0) {
        -(size as i32)
    } else {
        size as i32
    };
    assert(-0x4000_0000 <= b * q <= 0x4000_0000) by (nonlinear_arith)
        requires
            -0x8000 <= b <= 0x8000,
            -0x8000 <= q <= 0x8000,
    ;
    wrap(a as i32 - b as i32 * q)
}

/// A machine that carries out instructions.
pub trait Simulate {
    /// The state as plain values.
    spec fn machine(&self) -> Machine;

    /// The state is one that the machine can be in.
    spec fn ready(&self) -> bool;

    /// Carries out one instruction. Where it cannot be carried out, the state
    /// stays as it is.
    fn execute(&mut self, insn: Insn) -> (r: Result<(), CPUError>)
        requires
            old(self).ready(),
            legal(insn),
        ensures
            final(self).ready(),
            match run(old(self).machine(), insn) {
                Ok(m) => r is Ok && final(self).machine() == m,
                Err(e) => r == Err::<(), CPUError>(e) && final(self).machine() == old(
                    self,
                ).machine(),
            },
    ;

    /// Fetches the word at the program counter, decodes it and carries the
    /// instruction out. Where that fails, the state stays as it is.
    fn step(&mut self) -> (r: Result<(), CPUError>)
        requires
            old(self).ready(),
        ensures
            final(self).ready(),
            match step_of(old(self).machine()) {
                Ok(m) => r is Ok && final(self).machine() == m,
                Err(e) => r == Err::<(), CPUError>(e) && final(self).machine() == old(
                    self,
                ).machine(),
            },
    ;
}

impl CPU {
    /// The address of a load or store.
    fn address(&self, rs: RName, off: IMM6) -> (a: u16)
        requires
            rs < 8,
        ensures
            a == self@.address(rs, off),
    {
        to_unsigned(wrap(self.regfile[rs] as i32 + off.value as i32))
    }

    /// Puts the address after the program counter in the link register.
    fn link(&mut self)
        ensures
            final(self)@ == old(self)@.link(),
    {
        self.regfile[R7] = wrap(self.pc as i32 + 1);
    }
}

impl Simulate for CPU {
    open spec fn machine(&self) -> Machine {
        self@
    }

    open spec fn ready(&self) -> bool {
        self.wf()
    }

    fn execute(&mut self, insn: Insn) -> (r: Result<(), CPUError>) {
        let mut pc_incr = true;
        match insn {
            InsnGen::NOP => {},
            InsnGen::BR(cc, offset) => {
                if cc & self.nzp != 0 {
                    self.pc = wrap_unsigned(self.pc as i32 + offset.value as i32);
                }
            },
            InsnGen::ADD(rd, rs, rt) => {
                self.regfile[rd] = wrap(self.regfile[rs] as i32 + self.regfile[rt] as i32);
            },
            InsnGen::MUL(rd, rs, rt) => {
                let a: i32 = self.regfile[rs] as i32;
                let b: i32 = self.regfile[rt] as i32;
                assert(-0x4000_0000 <= a * b <= 0x4000_0000) by (nonlinear_arith)
                    requires
                        -0x8000 <= a <= 0x7FFF,
                        -0x8000 <= b <= 0x7FFF,
                ;
                self.regfile[rd] = wrap(a * b);
            },
            InsnGen::SUB(rd, rs, rt) => {
                self.regfile[rd] = wrap(self.regfile[rs] as i32 - self.regfile[rt] as i32);
            },
            InsnGen::DIV(rd, rs, rt) => {
                if self.regfile[rt] == 0 {
                    return Err(CPUError::DivideByZero);
                }
                self.regfile[rd] = divide(self.regfile[rs], self.regfile[rt]);
            },
            InsnGen::ADDi(rd, rs, n) => {
                self.regfile[rd] = wrap(self.regfile[rs] as i32 + n.value as i32);
            },
            InsnGen::CMP(rd, rt) => {
                self.nzp = signed_order(self.regfile[rd], self.regfile[rt]);
            },
            InsnGen::CMPu(rd, rt) => {
                self.nzp = unsigned_order(
                    to_unsigned(self.regfile[rd]),
                    to_unsigned(self.regfile[rt]),
                );
            },
            InsnGen::CMPi(rd, test) => {
                self.nzp = signed_order(self.regfile[rd], test.value);
            },
            InsnGen::CMPiu(rd, test) => {
                self.nzp = unsigned_order(to_unsigned(self.regfile[rd]), test.value);
            },
            InsnGen::JSR(target) => {
                pc_incr = false;
                let to: u16 = (self.pc & 0x8000) | (to_unsigned(target.value) << 4u16);
                self.link();
                self.pc = to;
            },
            InsnGen::JSRr(rs) => {
                pc_incr = false;
                self.link();
                self.pc = to_unsigned(self.regfile[rs]);
            },
            InsnGen::AND(rd, rs, rt) => {
                self.regfile[rd] = self.regfile[rs] & self.regfile[rt];
            },
            InsnGen::NOT(rd, rs) => {
                self.regfile[rd] = invert(self.regfile[rs]);
            },
            InsnGen::OR(rd, rs, rt) => {
                self.regfile[rd] = self.regfile[rs] | self.regfile[rt];
            },
            InsnGen::XOR(rd, rs, rt) => {
                self.regfile[rd] = self.regfile[rs] ^ self.regfile[rt];
            },
            InsnGen::ANDi(rd, rs, n) => {
                self.regfile[rd] = self.regfile[rs] & n.value;
            },
            InsnGen::LDR(rd, rs, offset) => {
                let addr: u16 = self.address(rs, offset);
                if !self.priv_status && addr >= 0x8000 {
                    return Err(CPUError::Unauthorized);
                }
                self.regfile[rd] = self.memory[addr as usize];
            },
            InsnGen::STR(rd, rs, offset) => {
                let addr: u16 = self.address(rs, offset);
                if !self.priv_status && addr >= 0x8000 {
                    return Err(CPUError::Unauthorized);
                }
                self.memory[addr as usize] = self.regfile[rd];
            },
            InsnGen::RTI => {
                pc_incr = false;
                self.pc = to_unsigned(self.regfile[R7]);
                self.priv_status = false;
            },
            InsnGen::CONST(rd, c) => {
                self.regfile[rd] = c.value;
            },
            InsnGen::SLL(rd, rs, amount) => {
                self.regfile[rd] = to_signed(to_unsigned(self.regfile[rs]) << amount.value);
            },
            InsnGen::SRA(rd, rs, amount) => {
                self.regfile[rd] = self.regfile[rs] >> amount.value;
            },
            InsnGen::SRL(rd, rs, amount) => {
                self.regfile[rd] = to_signed(to_unsigned(self.regfile[rs]) >> amount.value);
            },
            InsnGen::MOD(rd, rs, rt) => {
                if self.regfile[rt] == 0 {
                    return Err(CPUError::DivideByZero);
                }
                self.regfile[rd] = modulo(self.regfile[rs], self.regfile[rt]);
            },
            InsnGen::JMPr(rs) => {
                pc_incr = false;
                self.pc = to_unsigned(self.regfile[rs]);
            },
            InsnGen::JMP(target) => {
                pc_incr = false;
                self.pc = wrap_unsigned(self.pc as i32 + target.value as i32);
            },
            InsnGen::HICONST(rd, c) => {
                self.regfile[rd] = (self.regfile[rd] & 0xFF) | to_signed(c.value << 8u16);
            },
            InsnGen::TRAP(target) => {
                pc_incr = false;
                self.link();
                self.pc = 0x8000 | target.value;
                self.priv_status = true;
            },
        };
        if pc_incr {
            self.pc = wrap_unsigned(self.pc as i32 + 1);
        }
        assert(self@.regs =~= run(old(self)@, insn)->Ok_0.regs);
        Ok(())
    }

    fn step(&mut self) -> (r: Result<(), CPUError>) {
        let raw_insn: i16 = self.memory[self.pc as usize];
        match to_unsigned(raw_insn).decode() {
            Err(e) => Err(CPUError::from(e)),
            Ok(insn) => {
                proof {
                    decoded_is_legal(unsigned(raw_insn));
                }
                self.execute(insn)
            },
        }
    }
}

/// The processor at power-on with the memory of an image: registers zero,
/// program counter zero, condition code `Z`, user mode.
pub fn boot(assm_data: AssmData<i16>) -> (cpu: CPU)
    requires
        assm_data.wf(),
    ensures
        cpu.wf(),
        cpu@ == (Machine {
            regs: Seq::new(8, |i: int| 0i16),
            privileged: false,
            pc: 0,
            nzp: Z,
            memory: assm_data.memory@,
        }),
{
    let cpu = CPU {
        regfile: [0, 0, 0, 0, 0, 0, 0, 0],
        priv_status: false,
        pc: 0,
        nzp: Z,
        memory: assm_data.memory,
    };
    assert(cpu@.regs =~= Seq::new(8, |i: int| 0i16));
    cpu
}

} // verus!
