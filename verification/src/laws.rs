//! The laws the simulator obeys, stated over the mathematical model and
//! proved once and for all: decoding is total, a call is undone by its
//! return, a push is undone by its pull, branches cost exactly what the
//! timing rules say, and the add-with-carry overflow bit really is the signed
//! two's-complement overflow test.

use crate::instructions::{decode_info, OPS};
use crate::mem::MEM_SIZE;
use crate::model::{
    branch_spec, cpu_rti_spec, irq_spec, jsr_spec, nmi_spec, pha_spec, pla_spec, rts_spec, stk,
    CpuView,
};
use crate::status::{st_is_set, FLAG_I};
use vstd::prelude::*;

verus! {

/// Decoding is total and never fails: every one of the 256 opcode values
/// yields a descriptor with a defined three-letter mnemonic, a base cycle
/// count small enough that no extra-cycle signal can overflow the counter,
/// and an operation tag the executor dispatches on — the reserved tag is
/// never produced.
pub proof fn lemma_decode_total(op: u8)
    ensures
        decode_info(op).name.len() == 3,
        decode_info(op).cycles <= 7,
        decode_info(op).opr != OPS::XXX,
{
    reveal_strlit("ADC");
    reveal_strlit("AND");
    reveal_strlit("ASL");
    reveal_strlit("BCC");
    reveal_strlit("BCS");
    reveal_strlit("BEQ");
    reveal_strlit("BIT");
    reveal_strlit("BMI");
    reveal_strlit("BNE");
    reveal_strlit("BPL");
    reveal_strlit("BRK");
    reveal_strlit("BVC");
    reveal_strlit("BVS");
    reveal_strlit("CLC");
    reveal_strlit("CLD");
    reveal_strlit("CLI");
    reveal_strlit("CLV");
    reveal_strlit("CMP");
    reveal_strlit("CPX");
    reveal_strlit("CPY");
    reveal_strlit("DEC");
    reveal_strlit("DEX");
    reveal_strlit("DEY");
    reveal_strlit("EOR");
    reveal_strlit("INC");
    reveal_strlit("INX");
    reveal_strlit("INY");
    reveal_strlit("JMP");
    reveal_strlit("JSR");
    reveal_strlit("LDA");
    reveal_strlit("LDX");
    reveal_strlit("LDY");
    reveal_strlit("LSR");
    reveal_strlit("NOP");
    reveal_strlit("ORA");
    reveal_strlit("PHA");
    reveal_strlit("PHP");
    reveal_strlit("PLA");
    reveal_strlit("PLP");
    reveal_strlit("ROL");
    reveal_strlit("ROR");
    reveal_strlit("RTI");
    reveal_strlit("RTS");
    reveal_strlit("SBC");
    reveal_strlit("SEC");
    reveal_strlit("SED");
    reveal_strlit("SEI");
    reveal_strlit("STA");
    reveal_strlit("STX");
    reveal_strlit("STY");
    reveal_strlit("TAX");
    reveal_strlit("TAY");
    reveal_strlit("TSX");
    reveal_strlit("TXA");
    reveal_strlit("TXS");
    reveal_strlit("TYA");
    reveal_strlit("???");
}

/// A call is undone by its return. From any state about to run the call's
/// operation step — the target already resolved and the program counter
/// standing just past the call's two operand bytes — running the call and
/// then the return restores that program counter exactly and leaves the
/// stack pointer net-unchanged.
pub proof fn lemma_jsr_rts(v: CpuView)
    requires
        v.mem.len() == MEM_SIZE,
    ensures
        rts_spec(jsr_spec(v).0).0.pc == v.pc,
        rts_spec(jsr_spec(v).0).0.sp == v.sp,
{
    let w = v.pc.wrapping_sub(1);
    let lo = w as u8;
    let hi = (w >> 8) as u8;
    let v1 = jsr_spec(v).0;
    assert(v1.mem[stk(v.sp.wrapping_sub(1)) as int] == lo);
    assert(v1.mem[stk(v.sp) as int] == hi);
    assert(((lo as u16) | ((hi as u16) << 8)) == w) by (bit_vector)
        requires
            lo == w as u8,
            hi == (w >> 8) as u8,
    ;
}

/// A push is undone by its pull: pushing the accumulator and pulling it back
/// round-trips its value and leaves the stack pointer net-unchanged.
pub proof fn lemma_pha_pla(v: CpuView)
    requires
        v.mem.len() == MEM_SIZE,
    ensures
        pla_spec(pha_spec(v).0).0.reg_a == v.reg_a,
        pla_spec(pha_spec(v).0).0.sp == v.sp,
{
}

/// What a conditional branch costs. Not taken: no extra cycles and no state
/// change. Taken: the target is the program counter plus the sign-extended
/// offset, at one extra cycle, or two when the target lies on a different
/// page than the updated fetch cursor.
pub proof fn lemma_branch_cost(v: CpuView, mask: u8, taken_when_set: bool)
    ensures
        st_is_set(v.status, mask) != taken_when_set ==> branch_spec(v, mask, taken_when_set)
            == (v, 0u8),
        st_is_set(v.status, mask) == taken_when_set ==> branch_spec(
            v,
            mask,
            taken_when_set,
        ).0.pc == v.pc.wrapping_add(v.rel_working_addr),
        st_is_set(v.status, mask) == taken_when_set ==> branch_spec(
            v,
            mask,
            taken_when_set,
        ).1 == (
        if (v.pc.wrapping_add(v.rel_working_addr) & 0xFF00) != (v.pc & 0xFF00) {
            2u8
        } else {
            1u8
        }),
{
}

/// An interrupt request is ignored, changing nothing at all, exactly while
/// the Interrupt-disable flag is set.
pub proof fn lemma_irq_masked(v: CpuView)
    ensures
        st_is_set(v.status, FLAG_I) ==> irq_spec(v) == v,
{
}

/// Interrupt entry is undone by return-from-interrupt: after a non-maskable
/// interrupt (which pushes the program counter and status through the stack
/// page), the return sequence restores the program counter and leaves the
/// stack pointer net-unchanged.
pub proof fn lemma_nmi_rti(v: CpuView)
    requires
        v.mem.len() == MEM_SIZE,
    ensures
        cpu_rti_spec(nmi_spec(v)).pc == v.pc,
        cpu_rti_spec(nmi_spec(v)).sp == v.sp,
{
    let p = v.pc;
    let lo = (p & 0x00FF) as u8;
    let hi = (p >> 8) as u8;
    assert((((hi as u16) << 8) | (lo as u16)) == p) by (bit_vector)
        requires
            lo == (p & 0x00FF) as u8,
            hi == (p >> 8) as u8,
    ;
}

/// The overflow formula the add-with-carry executor evaluates is the signed
/// two's-complement overflow test on the 9-bit intermediate: it holds exactly
/// when the two addends' sign bits agree and the intermediate's sign bit
/// differs from them.
pub proof fn lemma_adc_overflow(a: u8, d: u8, t: u16)
    ensures
        ((!((a as u16) ^ (d as u16)) & ((a as u16) ^ t) & 0x0080) == 0x0080) <==> ((a & 0x80 == d
            & 0x80) && (t & 0x0080 != ((a as u16) & 0x0080))),
{
    assert(((!((a as u16) ^ (d as u16)) & ((a as u16) ^ t) & 0x0080) == 0x0080) <==> ((a & 0x80
        == d & 0x80) && (t & 0x0080 != ((a as u16) & 0x0080)))) by (bit_vector);
}

} // verus!
