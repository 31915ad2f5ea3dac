//! What holds of every state of the machine: the condition code, the
//! protection of the upper half of memory, what is stored and loaded, and
//! where the assembler and the machine agree on targets.

use crate::architecture::{
    is_reg, legal, one_hot, Insn, InsnGen, RName, CC, IMM11, IMM6, IMM9, UIMM8,
};
use crate::assembler::{paged, relative};
use crate::processor::{run, CPUError, Machine};
use crate::word::{sign_extend, signed, unsigned, wrap_word};
use vstd::prelude::*;

verus! {

/// True for the four instructions that write the condition code.
pub open spec fn writes_nzp(insn: Insn) -> bool {
    insn is CMP || insn is CMPu || insn is CMPi || insn is CMPiu
}

/// After an instruction that writes the condition code, exactly one of `N`,
/// `Z`, `P` is set. No other instruction touches the condition code.
pub proof fn one_flag_after_compare(m: Machine, insn: Insn)
    ensures
        writes_nzp(insn) ==> (run(m, insn) matches Ok(n) && one_hot(n.nzp)),
        !writes_nzp(insn) ==> (run(m, insn) matches Ok(n) ==> n.nzp == m.nzp),
{
}

/// Where exactly one flag is set before an instruction, exactly one is set
/// after it.
pub proof fn one_flag_is_kept(m: Machine, insn: Insn)
    requires
        one_hot(m.nzp),
        run(m, insn) is Ok,
    ensures
        one_hot(run(m, insn)->Ok_0.nzp),
{
    one_flag_after_compare(m, insn);
}

/// The state that an instruction leaves behind: where it is not carried out,
/// the state it found.
pub open spec fn after(m: Machine, insn: Insn) -> Machine {
    match run(m, insn) {
        Ok(n) => n,
        Err(_) => m,
    }
}

/// In user mode a load or store at an address from `0x8000` on is refused,
/// and the state stays as it is.
pub proof fn user_mode_is_kept_out(m: Machine, insn: Insn)
    requires
        !m.privileged,
        match insn {
            InsnGen::LDR(_, rs, off) => m.address(rs, off) >= 0x8000,
            InsnGen::STR(_, rs, off) => m.address(rs, off) >= 0x8000,
            _ => false,
        },
    ensures
        run(m, insn) == Err::<Machine, CPUError>(CPUError::Unauthorized),
        after(m, insn) == m,
{
}

/// A word that `STR` has written is what `LDR` reads at the same address, in
/// privileged mode everywhere and in user mode below `0x8000`.
pub proof fn load_reads_what_store_wrote(
    m: Machine,
    rd: RName,
    rs: RName,
    off: IMM6,
    rd2: RName,
    rs2: RName,
    off2: IMM6,
)
    requires
        m.wf(),
        legal(InsnGen::STR(rd, rs, off)),
        legal(InsnGen::LDR(rd2, rs2, off2)),
        !m.forbids(m.address(rs, off)),
        after(m, InsnGen::STR(rd, rs, off)).address(rs2, off2) == m.address(rs, off),
    ensures
        run(m, InsnGen::STR(rd, rs, off)) is Ok,
        run(after(m, InsnGen::STR(rd, rs, off)), InsnGen::LDR(rd2, rs2, off2)) matches Ok(n)
            && n.regs[rd2 as int] == m.regs[rd as int],
{
}

/// An instruction leaves a machine with eight registers and the full memory
/// as one.
pub proof fn run_keeps_wf(m: Machine, insn: Insn)
    requires
        m.wf(),
        legal(insn),
    ensures
        after(m, insn).wf(),
{
}

/// A call arrives at its target where the target is a multiple of sixteen
/// among the first `0x4000` words of the half of memory that the call is in:
/// there, what the assembler puts into `JSR` and what the machine makes of it
/// agree.
pub proof fn call_arrives(m: Machine, target: u16)
    requires
        target % 16 == 0,
        m.pc < 0x8000 ==> target < 0x4000,
        m.pc >= 0x8000 ==> 0x8000 <= target < 0xC000,
    ensures
        0 <= paged(target as int, m.pc as int) <= 1023,
        run(m, InsnGen::JSR(IMM11 { value: paged(target as int, m.pc as int) as i16 }))
            matches Ok(n) && n.pc == target,
{
    let pc = m.pc;
    let u = unsigned(paged(target as int, pc as int) as i16);
    assert((pc & 0x8000) | (u << 4u16) == target) by (bit_vector)
        requires
            target % 16 == 0,
            pc < 0x8000 ==> target < 0x4000 && u == target / 16,
            pc >= 0x8000 ==> 0x8000 <= target < 0xC000 && u == (target - 0x8000) as u16 / 16,
    ;
}

/// A branch that is taken arrives at its target: what the assembler puts into
/// `BR` and what the machine makes of it agree.
pub proof fn branch_arrives(m: Machine, cc: CC, target: u16)
    requires
        cc & m.nzp != 0,
        -256 <= relative(target as int, m.pc as int) <= 255,
    ensures
        run(m, InsnGen::BR(cc, IMM9 { value: relative(target as int, m.pc as int) as i16 }))
            matches Ok(n) && n.pc == target,
{
}

/// The two instructions that the assembler writes for `LEA` and `LC` load
/// the whole word: after `CONST` with the low nine bits and `HICONST` with
/// the high eight, the register holds it.
pub proof fn pair_loads_the_word(m: Machine, rd: RName, v: u16)
    requires
        m.wf(),
        is_reg(rd),
    ensures
        ({
            let low = InsnGen::CONST(rd, IMM9 { value: sign_extend(v, 9) });
            let high = InsnGen::HICONST(rd, UIMM8 { value: v >> 8 });
            after(after(m, low), high).regs[rd as int] == signed(v)
        }),
{
    assert((sign_extend(v, 9) & 0xFF) | signed((v >> 8) << 8u16) == signed(v)) by (bit_vector);
}

/// A trap comes back: `RTI` right after `TRAP`, with the link register as the
/// trap left it, goes on after the trap, in user mode.
pub proof fn trap_returns(m: Machine, t: UIMM8)
    requires
        m.wf(),
    ensures
        ({
            let inside = after(m, InsnGen::TRAP(t));
            let back = after(inside, InsnGen::RTI);
            &&& inside.privileged
            &&& inside.pc == 0x8000 | t.value
            &&& !back.privileged
            &&& back.pc == wrap_word(m.pc + 1)
            &&& back.memory == m.memory
        }),
{
}

} // verus!
