//! The instruction model: condition codes, register names, immediates of a
//! declared width, and the instructions in their resolved and symbolic forms.

use vstd::prelude::*;

verus! {

/// Condition-code mask: a subset of the bits `N`, `Z` and `P`.
pub type CC = u8;

/// Negative.
pub const N: CC = 4;

/// Zero.
pub const Z: CC = 2;

/// Positive.
pub const P: CC = 1;

/// Index of a general-purpose register.
pub type RName = usize;

pub const R0: RName = 0;

pub const R1: RName = 1;

pub const R2: RName = 2;

pub const R3: RName = 3;

pub const R4: RName = 4;

pub const R5: RName = 5;

/// By convention the stack pointer.
pub const R6: RName = 6;

/// The link register.
pub const R7: RName = 7;

/// True for the eight register names.
pub open spec fn is_reg(r: RName) -> bool {
    r < 8
}

/// True when exactly one of `N`, `Z`, `P` is set and nothing else.
pub open spec fn one_hot(cc: CC) -> bool {
    cc == N || cc == Z || cc == P
}

/// True for a branch mask that names a non-empty subset of `N`, `Z`, `P`.
pub open spec fn is_mask(cc: CC) -> bool {
    1 <= cc <= 7
}

/// A signed 16-bit immediate: every `i16` is in range.
#[derive(Clone, Copy, Debug, Eq, PartialEq)]
pub struct IMM16 {
    pub value: i16,
}

impl IMM16 {
    /// The value fits the declared width: always.
    pub open spec fn wf(self) -> bool {
        true
    }

    /// Builds the immediate. No `i16` is out of range.
    pub fn new(value: i16) -> (r: Option<IMM16>)
        ensures
            r == Some((IMM16 { value })),
    {
        Some(IMM16 { value })
    }

    /// Tests `wf`.
    pub fn fits(&self) -> (b: bool)
        ensures
            b == self.wf(),
    {
        true
    }
}

/// A signed 11-bit immediate, valid in `-1024..=1023`.
#[derive(Clone, Copy, Debug, Eq, PartialEq)]
pub struct IMM11 {
    pub value: i16,
}

impl IMM11 {
    /// The value fits the declared width.
    pub open spec fn wf(self) -> bool {
        -1024 <= self.value <= 1023
    }

    /// Builds the immediate, or nothing when `value` does not fit.
    pub fn new(value: i16) -> (r: Option<IMM11>)
        ensures
            -1024 <= value <= 1023 ==> r == Some((IMM11 { value })),
            !(-1024 <= value <= 1023) ==> r.is_none(),
    {
        if -1024 <= value && value <= 1023 {
            Some(IMM11 { value })
        } else {
            None
        }
    }

    /// Tests `wf`.
    pub fn fits(&self) -> (b: bool)
        ensures
            b == self.wf(),
    {
        let value = self.value;
        -1024 <= value && value <= 1023
    }
}

/// A signed 9-bit immediate, valid in `-256..=255`.
#[derive(Clone, Copy, Debug, Eq, PartialEq)]
pub struct IMM9 {
    pub value: i16,
}

impl IMM9 {
    /// The value fits the declared width.
    pub open spec fn wf(self) -> bool {
        -256 <= self.value <= 255
    }

    /// Builds the immediate, or nothing when `value` does not fit.
    pub fn new(value: i16) -> (r: Option<IMM9>)
        ensures
            -256 <= value <= 255 ==> r == Some((IMM9 { value })),
            !(-256 <= value <= 255) ==> r.is_none(),
    {
        if -256 <= value && value <= 255 {
            Some(IMM9 { value })
        } else {
            None
        }
    }

    /// Tests `wf`.
    pub fn fits(&self) -> (b: bool)
        ensures
            b == self.wf(),
    {
        let value = self.value;
        -256 <= value && value <= 255
    }
}

/// A signed 7-bit immediate, valid in `-64..=63`.
#[derive(Clone, Copy, Debug, Eq, PartialEq)]
pub struct IMM7 {
    pub value: i16,
}

impl IMM7 {
    /// The value fits the declared width.
    pub open spec fn wf(self) -> bool {
        -64 <= self.value <= 63
    }

    /// Builds the immediate, or nothing when `value` does not fit.
    pub fn new(value: i16) -> (r: Option<IMM7>)
        ensures
            -64 <= value <= 63 ==> r == Some((IMM7 { value })),
            !(-64 <= value <= 63) ==> r.is_none(),
    {
        if -64 <= value && value <= 63 {
            Some(IMM7 { value })
        } else {
            None
        }
    }

    /// Tests `wf`.
    pub fn fits(&self) -> (b: bool)
        ensures
            b == self.wf(),
    {
        let value = self.value;
        -64 <= value && value <= 63
    }
}

/// A signed 6-bit immediate, valid in `-32..=31`.
#[derive(Clone, Copy, Debug, Eq, PartialEq)]
pub struct IMM6 {
    pub value: i16,
}

impl IMM6 {
    /// The value fits the declared width.
    pub open spec fn wf(self) -> bool {
        -32 <= self.value <= 31
    }

    /// Builds the immediate, or nothing when `value` does not fit.
    pub fn new(value: i16) -> (r: Option<IMM6>)
        ensures
            -32 <= value <= 31 ==> r == Some((IMM6 { value })),
            !(-32 <= value <= 31) ==> r.is_none(),
    {
        if -32 <= value && value <= 31 {
            Some(IMM6 { value })
        } else {
            None
        }
    }

    /// Tests `wf`.
    pub fn fits(&self) -> (b: bool)
        ensures
            b == self.wf(),
    {
        let value = self.value;
        -32 <= value && value <= 31
    }
}

/// A signed 5-bit immediate, valid in `-16..=15`.
#[derive(Clone, Copy, Debug, Eq, PartialEq)]
pub struct IMM5 {
    pub value: i16,
}

impl IMM5 {
    /// The value fits the declared width.
    pub open spec fn wf(self) -> bool {
        -16 <= self.value <= 15
    }

    /// Builds the immediate, or nothing when `value` does not fit.
    pub fn new(value: i16) -> (r: Option<IMM5>)
        ensures
            -16 <= value <= 15 ==> r == Some((IMM5 { value })),
            !(-16 <= value <= 15) ==> r.is_none(),
    {
        if -16 <= value && value <= 15 {
            Some(IMM5 { value })
        } else {
            None
        }
    }

    /// Tests `wf`.
    pub fn fits(&self) -> (b: bool)
        ensures
            b == self.wf(),
    {
        let value = self.value;
        -16 <= value && value <= 15
    }
}

/// An unsigned 16-bit immediate: every `u16` is in range.
#[derive(Clone, Copy, Debug, Eq, PartialEq)]
pub struct UIMM16 {
    pub value: u16,
}

impl UIMM16 {
    /// The value fits the declared width: always.
    pub open spec fn wf(self) -> bool {
        true
    }

    /// Builds the immediate. No `u16` is out of range.
    pub fn new(value: u16) -> (r: Option<UIMM16>)
        ensures
            r == Some((UIMM16 { value })),
    {
        Some(UIMM16 { value })
    }

    /// Tests `wf`.
    pub fn fits(&self) -> (b: bool)
        ensures
            b == self.wf(),
    {
        true
    }
}

/// An unsigned 8-bit immediate, valid in `0..=255`.
#[derive(Clone, Copy, Debug, Eq, PartialEq)]
pub struct UIMM8 {
    pub value: u16,
}

impl UIMM8 {
    /// The value fits the declared width.
    pub open spec fn wf(self) -> bool {
        self.value <= 255
    }

    /// Builds the immediate, or nothing when `value` does not fit.
    pub fn new(value: u16) -> (r: Option<UIMM8>)
        ensures
            value <= 255 ==> r == Some((UIMM8 { value })),
            !(value <= 255) ==> r.is_none(),
    {
        if value <= 255 {
            Some(UIMM8 { value })
        } else {
            None
        }
    }

    /// Tests `wf`.
    pub fn fits(&self) -> (b: bool)
        ensures
            b == self.wf(),
    {
        let value = self.value;
        value <= 255
    }
}

/// An unsigned 7-bit immediate, valid in `0..=127`.
#[derive(Clone, Copy, Debug, Eq, PartialEq)]
pub struct UIMM7 {
    pub value: u16,
}

impl UIMM7 {
    /// The value fits the declared width.
    pub open spec fn wf(self) -> bool {
        self.value <= 127
    }

    /// Builds the immediate, or nothing when `value` does not fit.
    pub fn new(value: u16) -> (r: Option<UIMM7>)
        ensures
            value <= 127 ==> r == Some((UIMM7 { value })),
            !(value <= 127) ==> r.is_none(),
    {
        if value <= 127 {
            Some(UIMM7 { value })
        } else {
            None
        }
    }

    /// Tests `wf`.
    pub fn fits(&self) -> (b: bool)
        ensures
            b == self.wf(),
    {
        let value = self.value;
        value <= 127
    }
}

/// An unsigned 4-bit immediate, valid in `0..=15`.
#[derive(Clone, Copy, Debug, Eq, PartialEq)]
pub struct UIMM4 {
    pub value: u16,
}

impl UIMM4 {
    /// The value fits the declared width.
    pub open spec fn wf(self) -> bool {
        self.value <= 15
    }

    /// Builds the immediate, or nothing when `value` does not fit.
    pub fn new(value: u16) -> (r: Option<UIMM4>)
        ensures
            value <= 15 ==> r == Some((UIMM4 { value })),
            !(value <= 15) ==> r.is_none(),
    {
        if value <= 15 {
            Some(UIMM4 { value })
        } else {
            None
        }
    }

    /// Tests `wf`.
    pub fn fits(&self) -> (b: bool)
        ensures
            b == self.wf(),
    {
        let value = self.value;
        value <= 15
    }
}

/// One instruction. `BrT` is what a branch carries as its target and `JmpT`
/// what `JSR` and `JMP` carry: a signed displacement once resolved, a label
/// name before.
#[derive(Clone, Copy, Debug, Eq, PartialEq)]
pub enum InsnGen<BrT, JmpT> {
    NOP,
    BR(CC, BrT),
    ADD(RName, RName, RName),
    MUL(RName, RName, RName),
    SUB(RName, RName, RName),
    DIV(RName, RName, RName),
    ADDi(RName, RName, IMM5),
    CMP(RName, RName),
    CMPu(RName, RName),
    CMPi(RName, IMM7),
    CMPiu(RName, UIMM7),
    JSR(JmpT),
    JSRr(RName),
    AND(RName, RName, RName),
    NOT(RName, RName),
    OR(RName, RName, RName),
    XOR(RName, RName, RName),
    ANDi(RName, RName, IMM5),
    LDR(RName, RName, IMM6),
    STR(RName, RName, IMM6),
    RTI,
    CONST(RName, IMM9),
    SLL(RName, RName, UIMM4),
    SRA(RName, RName, UIMM4),
    SRL(RName, RName, UIMM4),
    MOD(RName, RName, RName),
    JMPr(RName),
    JMP(JmpT),
    HICONST(RName, UIMM8),
    TRAP(UIMM8),
}

/// The resolved form: branches and jumps carry displacements.
pub type Insn = InsnGen<IMM9, IMM11>;

impl<BrT, JmpT> InsnGen<BrT, JmpT> {
    /// True for the three variants that carry a target.
    pub open spec fn has_target(self) -> bool {
        self is BR || self is JSR || self is JMP
    }

    /// The same operation and operands with `br` as the target of a branch
    /// and `jmp` as the target of `JSR` and `JMP`. Where the instruction has
    /// no target, neither is used.
    pub open spec fn with_targets<C, D>(self, br: C, jmp: D) -> InsnGen<C, D> {
        match self {
            InsnGen::NOP => InsnGen::NOP,
            InsnGen::BR(cc, _) => InsnGen::BR(cc, br),
            InsnGen::ADD(rd, rs, rt) => InsnGen::ADD(rd, rs, rt),
            InsnGen::MUL(rd, rs, rt) => InsnGen::MUL(rd, rs, rt),
            InsnGen::SUB(rd, rs, rt) => InsnGen::SUB(rd, rs, rt),
            InsnGen::DIV(rd, rs, rt) => InsnGen::DIV(rd, rs, rt),
            InsnGen::ADDi(rd, rs, imm) => InsnGen::ADDi(rd, rs, imm),
            InsnGen::CMP(rd, rt) => InsnGen::CMP(rd, rt),
            InsnGen::CMPu(rd, rt) => InsnGen::CMPu(rd, rt),
            InsnGen::CMPi(rd, imm) => InsnGen::CMPi(rd, imm),
            InsnGen::CMPiu(rd, imm) => InsnGen::CMPiu(rd, imm),
            InsnGen::JSR(_) => InsnGen::JSR(jmp),
            InsnGen::JSRr(rs) => InsnGen::JSRr(rs),
            InsnGen::AND(rd, rs, rt) => InsnGen::AND(rd, rs, rt),
            InsnGen::NOT(rd, rs) => InsnGen::NOT(rd, rs),
            InsnGen::OR(rd, rs, rt) => InsnGen::OR(rd, rs, rt),
            InsnGen::XOR(rd, rs, rt) => InsnGen::XOR(rd, rs, rt),
            InsnGen::ANDi(rd, rs, imm) => InsnGen::ANDi(rd, rs, imm),
            InsnGen::LDR(rd, rs, imm) => InsnGen::LDR(rd, rs, imm),
            InsnGen::STR(rd, rs, imm) => InsnGen::STR(rd, rs, imm),
            InsnGen::RTI => InsnGen::RTI,
            InsnGen::CONST(rd, imm) => InsnGen::CONST(rd, imm),
            InsnGen::SLL(rd, rs, imm) => InsnGen::SLL(rd, rs, imm),
            InsnGen::SRA(rd, rs, imm) => InsnGen::SRA(rd, rs, imm),
            InsnGen::SRL(rd, rs, imm) => InsnGen::SRL(rd, rs, imm),
            InsnGen::MOD(rd, rs, rt) => InsnGen::MOD(rd, rs, rt),
            InsnGen::JMPr(rs) => InsnGen::JMPr(rs),
            InsnGen::JMP(_) => InsnGen::JMP(jmp),
            InsnGen::HICONST(rd, imm) => InsnGen::HICONST(rd, imm),
            InsnGen::TRAP(imm) => InsnGen::TRAP(imm),
        }
    }

    /// The instruction with its target, if any, blanked out.
    pub open spec fn shape(self) -> InsnGen<(), ()> {
        self.with_targets((), ())
    }

    /// Every register is one of the eight, every immediate fits its width and
    /// a branch mask is non-empty. Says nothing of a target.
    pub open spec fn operands_wf(self) -> bool {
        match self {
            InsnGen::NOP => true,
            InsnGen::BR(cc, _) => is_mask(cc),
            InsnGen::ADD(rd, rs, rt) => is_reg(rd) && is_reg(rs) && is_reg(rt),
            InsnGen::MUL(rd, rs, rt) => is_reg(rd) && is_reg(rs) && is_reg(rt),
            InsnGen::SUB(rd, rs, rt) => is_reg(rd) && is_reg(rs) && is_reg(rt),
            InsnGen::DIV(rd, rs, rt) => is_reg(rd) && is_reg(rs) && is_reg(rt),
            InsnGen::ADDi(rd, rs, imm) => is_reg(rd) && is_reg(rs) && imm.wf(),
            InsnGen::CMP(rd, rt) => is_reg(rd) && is_reg(rt),
            InsnGen::CMPu(rd, rt) => is_reg(rd) && is_reg(rt),
            InsnGen::CMPi(rd, imm) => is_reg(rd) && imm.wf(),
            InsnGen::CMPiu(rd, imm) => is_reg(rd) && imm.wf(),
            InsnGen::JSR(_) => true,
            InsnGen::JSRr(rs) => is_reg(rs),
            InsnGen::AND(rd, rs, rt) => is_reg(rd) && is_reg(rs) && is_reg(rt),
            InsnGen::NOT(rd, rs) => is_reg(rd) && is_reg(rs),
            InsnGen::OR(rd, rs, rt) => is_reg(rd) && is_reg(rs) && is_reg(rt),
            InsnGen::XOR(rd, rs, rt) => is_reg(rd) && is_reg(rs) && is_reg(rt),
            InsnGen::ANDi(rd, rs, imm) => is_reg(rd) && is_reg(rs) && imm.wf(),
            InsnGen::LDR(rd, rs, imm) => is_reg(rd) && is_reg(rs) && imm.wf(),
            InsnGen::STR(rd, rs, imm) => is_reg(rd) && is_reg(rs) && imm.wf(),
            InsnGen::RTI => true,
            InsnGen::CONST(rd, imm) => is_reg(rd) && imm.wf(),
            InsnGen::SLL(rd, rs, imm) => is_reg(rd) && is_reg(rs) && imm.wf(),
            InsnGen::SRA(rd, rs, imm) => is_reg(rd) && is_reg(rs) && imm.wf(),
            InsnGen::SRL(rd, rs, imm) => is_reg(rd) && is_reg(rs) && imm.wf(),
            InsnGen::MOD(rd, rs, rt) => is_reg(rd) && is_reg(rs) && is_reg(rt),
            InsnGen::JMPr(rs) => is_reg(rs),
            InsnGen::JMP(_) => true,
            InsnGen::HICONST(rd, imm) => is_reg(rd) && imm.wf(),
            InsnGen::TRAP(imm) => imm.wf(),
        }
    }

    /// Tests `operands_wf`.
    pub fn operands_ok(&self) -> (b: bool)
        ensures
            b == self.operands_wf(),
    {
        match self {
            InsnGen::NOP => true,
            InsnGen::BR(cc, _) => 1 <= *cc && *cc <= 7,
            InsnGen::ADD(rd, rs, rt) => *rd < 8 && *rs < 8 && *rt < 8,
            InsnGen::MUL(rd, rs, rt) => *rd < 8 && *rs < 8 && *rt < 8,
            InsnGen::SUB(rd, rs, rt) => *rd < 8 && *rs < 8 && *rt < 8,
            InsnGen::DIV(rd, rs, rt) => *rd < 8 && *rs < 8 && *rt < 8,
            InsnGen::ADDi(rd, rs, imm) => *rd < 8 && *rs < 8 && imm.fits(),
            InsnGen::CMP(rd, rt) => *rd < 8 && *rt < 8,
            InsnGen::CMPu(rd, rt) => *rd < 8 && *rt < 8,
            InsnGen::CMPi(rd, imm) => *rd < 8 && imm.fits(),
            InsnGen::CMPiu(rd, imm) => *rd < 8 && imm.fits(),
            InsnGen::JSR(_) => true,
            InsnGen::JSRr(rs) => *rs < 8,
            InsnGen::AND(rd, rs, rt) => *rd < 8 && *rs < 8 && *rt < 8,
            InsnGen::NOT(rd, rs) => *rd < 8 && *rs < 8,
            InsnGen::OR(rd, rs, rt) => *rd < 8 && *rs < 8 && *rt < 8,
            InsnGen::XOR(rd, rs, rt) => *rd < 8 && *rs < 8 && *rt < 8,
            InsnGen::ANDi(rd, rs, imm) => *rd < 8 && *rs < 8 && imm.fits(),
            InsnGen::LDR(rd, rs, imm) => *rd < 8 && *rs < 8 && imm.fits(),
            InsnGen::STR(rd, rs, imm) => *rd < 8 && *rs < 8 && imm.fits(),
            InsnGen::RTI => true,
            InsnGen::CONST(rd, imm) => *rd < 8 && imm.fits(),
            InsnGen::SLL(rd, rs, imm) => *rd < 8 && *rs < 8 && imm.fits(),
            InsnGen::SRA(rd, rs, imm) => *rd < 8 && *rs < 8 && imm.fits(),
            InsnGen::SRL(rd, rs, imm) => *rd < 8 && *rs < 8 && imm.fits(),
            InsnGen::MOD(rd, rs, rt) => *rd < 8 && *rs < 8 && *rt < 8,
            InsnGen::JMPr(rs) => *rs < 8,
            InsnGen::JMP(_) => true,
            InsnGen::HICONST(rd, imm) => *rd < 8 && imm.fits(),
            InsnGen::TRAP(imm) => imm.fits(),
        }
    }
}

/// A resolved instruction that the machine defines: its operands are well
/// formed and its displacement, if it has one, fits its width.
pub open spec fn legal(insn: Insn) -> bool {
    &&& insn.operands_wf()
    &&& match insn {
        InsnGen::BR(_, off) => off.wf(),
        InsnGen::JSR(t) => t.wf(),
        InsnGen::JMP(t) => t.wf(),
        _ => true,
    }
}

/// Tests `legal`.
pub fn is_legal(insn: &Insn) -> (b: bool)
    ensures
        b == legal(*insn),
{
    insn.operands_ok() && match insn {
        InsnGen::BR(_, off) => off.fits(),
        InsnGen::JSR(t) => t.fits(),
        InsnGen::JMP(t) => t.fits(),
        _ => true,
    }
}

/// Carries an instruction that has no target over to another choice of target
/// types. The three variants that do carry one are excluded.
pub fn partial_cast<A, B, C, D>(insn: &InsnGen<A, B>) -> (r: InsnGen<C, D>)
    requires
        !insn.has_target(),
    ensures
        forall|br: C, jmp: D| r == #[trigger] insn.with_targets(br, jmp),
{
    match insn {
        InsnGen::NOP => InsnGen::NOP,
        InsnGen::ADD(rd, rs, rt) => InsnGen::ADD(*rd, *rs, *rt),
        InsnGen::MUL(rd, rs, rt) => InsnGen::MUL(*rd, *rs, *rt),
        InsnGen::SUB(rd, rs, rt) => InsnGen::SUB(*rd, *rs, *rt),
        InsnGen::DIV(rd, rs, rt) => InsnGen::DIV(*rd, *rs, *rt),
        InsnGen::ADDi(rd, rs, imm) => InsnGen::ADDi(*rd, *rs, *imm),
        InsnGen::CMP(rd, rt) => InsnGen::CMP(*rd, *rt),
        InsnGen::CMPu(rd, rt) => InsnGen::CMPu(*rd, *rt),
        InsnGen::CMPi(rd, imm) => InsnGen::CMPi(*rd, *imm),
        InsnGen::CMPiu(rd, imm) => InsnGen::CMPiu(*rd, *imm),
        InsnGen::JSRr(rs) => InsnGen::JSRr(*rs),
        InsnGen::AND(rd, rs, rt) => InsnGen::AND(*rd, *rs, *rt),
        InsnGen::NOT(rd, rs) => InsnGen::NOT(*rd, *rs),
        InsnGen::OR(rd, rs, rt) => InsnGen::OR(*rd, *rs, *rt),
        InsnGen::XOR(rd, rs, rt) => InsnGen::XOR(*rd, *rs, *rt),
        InsnGen::ANDi(rd, rs, imm) => InsnGen::ANDi(*rd, *rs, *imm),
        InsnGen::LDR(rd, rs, imm) => InsnGen::LDR(*rd, *rs, *imm),
        InsnGen::STR(rd, rs, imm) => InsnGen::STR(*rd, *rs, *imm),
        InsnGen::RTI => InsnGen::RTI,
        InsnGen::CONST(rd, imm) => InsnGen::CONST(*rd, *imm),
        InsnGen::SLL(rd, rs, imm) => InsnGen::SLL(*rd, *rs, *imm),
        InsnGen::SRA(rd, rs, imm) => InsnGen::SRA(*rd, *rs, *imm),
        InsnGen::SRL(rd, rs, imm) => InsnGen::SRL(*rd, *rs, *imm),
        InsnGen::MOD(rd, rs, rt) => InsnGen::MOD(*rd, *rs, *rt),
        InsnGen::JMPr(rs) => InsnGen::JMPr(*rs),
        InsnGen::HICONST(rd, imm) => InsnGen::HICONST(*rd, *imm),
        InsnGen::TRAP(imm) => InsnGen::TRAP(*imm),
        InsnGen::BR(..) | InsnGen::JSR(..) | InsnGen::JMP(..) => unreached(),
    }
}

} // verus!
