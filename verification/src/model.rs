//! The mathematical model of the processor. `CpuView` is the abstract machine
//! state; every addressing mode, every operation, and every control-transfer
//! sequence has a spec-level transition function here, and the executable
//! code in `cpu` and `instructions` is proved to realise these transitions
//! exactly.

use crate::instructions::{decode_info, ADDR_MODE, OPS};
use crate::status::{
    st_clear, st_is_set, st_nz, st_set, st_with, st_zn, FLAG_B, FLAG_C, FLAG_D, FLAG_I, FLAG_N,
    FLAG_U, FLAG_V, FLAG_Z,
};
use vstd::prelude::*;

verus! {

/// Abstract processor state: register file, status byte, cycle counter, the
/// whole memory image, and the transient working values that live for one
/// fetch-execute cycle. `mode` is the addressing mode of the instruction
/// currently being executed (the processor carries it so the shift and rotate
/// operations can tell an accumulator target from a memory target).
#[verifier::ext_equal]
pub ghost struct CpuView {
    pub pc: u16,
    pub sp: u8,
    pub reg_a: u8,
    pub reg_x: u8,
    pub reg_y: u8,
    pub status: u8,
    pub cycles: u8,
    pub mem: Seq<u8>,
    pub working_addr: u16,
    pub rel_working_addr: u16,
    pub working_data: u8,
    pub mode: ADDR_MODE,
}

/// A 16-bit word assembled little-endian from two bytes.
pub open spec fn w16(lo: u8, hi: u8) -> u16 {
    ((hi as u16) << 8) | (lo as u16)
}

/// The full stack address for an 8-bit stack pointer: the stack page base
/// plus the pointer's offset.
pub open spec fn stk(sp: u8) -> u16 {
    (sp as u16 + 0x0100) as u16
}

/// The byte the next fetch returns.
pub open spec fn fetch_byte(v: CpuView) -> u8 {
    v.mem[v.pc as int]
}

/// The state after one operand byte has been consumed.
pub open spec fn fetched(v: CpuView) -> CpuView {
    CpuView { pc: v.pc.wrapping_add(1), ..v }
}

/// The little-endian word at the fetch cursor.
pub open spec fn fetch_word_val(v: CpuView) -> u16 {
    w16(v.mem[v.pc as int], v.mem[v.pc.wrapping_add(1) as int])
}

/// The state after two operand bytes have been consumed.
pub open spec fn fetched2(v: CpuView) -> CpuView {
    fetched(fetched(v))
}

/// Staging of the operand: every mode but implied reads the byte at the
/// resolved address into the working data; implied mode staged the
/// accumulator during resolution and reads nothing.
pub open spec fn filled(v: CpuView) -> CpuView {
    if v.mode == ADDR_MODE::IMPLIED {
        v
    } else {
        CpuView { working_data: v.mem[v.working_addr as int], ..v }
    }
}

// ---------------------------------------------------------------------------
// Addressing-mode resolution. Each function returns the state after the mode
// has consumed its operand bytes, paired with the mode's extra-cycle signal
// (1 only where an indexed mode crosses a page boundary).
// ---------------------------------------------------------------------------

/// Immediate: the operand is the next instruction byte; the effective address
/// is that byte's own location.
pub open spec fn imm_spec(v: CpuView) -> (CpuView, u8) {
    (CpuView { working_addr: v.pc, pc: v.pc.wrapping_add(1), ..v }, 0)
}

/// Implied: no operand bytes; the accumulator is staged into the working data
/// so shifts and rotates treat it uniformly with memory operands.
pub open spec fn imp_spec(v: CpuView) -> (CpuView, u8) {
    (CpuView { working_data: v.reg_a, ..v }, 0)
}

/// Zero page: the effective address is the next byte.
pub open spec fn zp0_spec(v: CpuView) -> (CpuView, u8) {
    (CpuView { working_addr: fetch_byte(v) as u16, ..fetched(v) }, 0)
}

/// Zero page indexed by X: the sum wraps within page zero, never carrying
/// into page one.
pub open spec fn zpx_spec(v: CpuView) -> (CpuView, u8) {
    let a = ((fetch_byte(v) as u16 + v.reg_x as u16) as u16) & 0x00FF;
    (CpuView { working_addr: a, ..fetched(v) }, 0)
}

/// Zero page indexed by Y: the sum wraps within page zero.
pub open spec fn zpy_spec(v: CpuView) -> (CpuView, u8) {
    let a = ((fetch_byte(v) as u16 + v.reg_y as u16) as u16) & 0x00FF;
    (CpuView { working_addr: a, ..fetched(v) }, 0)
}

/// Absolute: the effective address is the next two bytes, low byte first.
pub open spec fn abs_spec(v: CpuView) -> (CpuView, u8) {
    (CpuView { working_addr: fetch_word_val(v), ..fetched2(v) }, 0)
}

/// Absolute indexed by X: a full 16-bit add; one extra cycle exactly when the
/// high byte changes (a page boundary was crossed).
pub open spec fn abx_spec(v: CpuView) -> (CpuView, u8) {
    let base = fetch_word_val(v);
    let a = base.wrapping_add(v.reg_x as u16);
    let extra: u8 = if (base & 0xFF00) != (0xFF00 & a) {
        1
    } else {
        0
    };
    (CpuView { working_addr: a, ..fetched2(v) }, extra)
}

/// Absolute indexed by Y, with the same page-crossing signal as `abx_spec`.
pub open spec fn aby_spec(v: CpuView) -> (CpuView, u8) {
    let base = fetch_word_val(v);
    let a = base.wrapping_add(v.reg_y as u16);
    let extra: u8 = if (base & 0xFF00) != (0xFF00 & a) {
        1
    } else {
        0
    };
    (CpuView { working_addr: a, ..fetched2(v) }, extra)
}

/// Indirect (jump only): the two operand bytes form a pointer and the
/// effective address is the word stored there — except that a pointer whose
/// low byte is 0xFF takes its high byte from the start of the same page, not
/// the next one, reproducing the documented hardware defect.
pub open spec fn ind_spec(v: CpuView) -> (CpuView, u8) {
    let ptr = fetch_word_val(v);
    let a = if ptr & 0x00FF == 0x00FF {
        (v.mem[ptr as int] as u16) | ((v.mem[(ptr & 0xFF00) as int] as u16) << 8)
    } else {
        (v.mem[ptr as int] as u16) | ((v.mem[ptr.wrapping_add(1) as int] as u16) << 8)
    };
    (CpuView { working_addr: a, ..fetched2(v) }, 0)
}

/// Indexed indirect: the pointer is the zero-page byte plus X, wrapped within
/// page zero; the effective address is the word read from the pointer and its
/// wrapped successor.
pub open spec fn izx_spec(v: CpuView) -> (CpuView, u8) {
    let zp = fetch_byte(v) as u16;
    let lo = v.mem[(((zp + v.reg_x as u16) as u16) & 0x00FF) as int] as u16;
    let hi = v.mem[(((zp + v.reg_x as u16 + 1) as u16) & 0x00FF) as int] as u16;
    (CpuView { working_addr: lo | (hi << 8), ..fetched(v) }, 0)
}

/// Indirect indexed: the zero-page byte points at a base word (read with
/// page-zero wrap); the effective address is that base plus Y, with one extra
/// cycle exactly when the addition changes the high byte.
pub open spec fn izy_spec(v: CpuView) -> (CpuView, u8) {
    let zp = fetch_byte(v) as u16;
    let lo = v.mem[(zp & 0x00FF) as int] as u16;
    let hi = v.mem[(((zp + 1) as u16) & 0x00FF) as int] as u16;
    let base = lo | (hi << 8);
    let a = base.wrapping_add(v.reg_y as u16);
    let extra: u8 = if (base & 0xFF00) != (0xFF00 & a) {
        1
    } else {
        0
    };
    (CpuView { working_addr: a, ..fetched(v) }, extra)
}

/// Relative: the operand is a signed 8-bit offset, sign-extended to 16 bits
/// and stored; only the branch operations add it to the program counter.
pub open spec fn rel_spec(v: CpuView) -> (CpuView, u8) {
    let off = fetch_byte(v) as u16;
    let off16 = if off & 0x80 == 0x80 {
        off | 0xFF00
    } else {
        off
    };
    (CpuView { rel_working_addr: off16, ..fetched(v) }, 0)
}

/// Dispatch of addressing-mode resolution. Modes that fetch nothing (none)
/// leave the state unchanged.
pub open spec fn resolve_spec(m: ADDR_MODE, v: CpuView) -> (CpuView, u8) {
    match m {
        ADDR_MODE::IMMEDIATE => imm_spec(v),
        ADDR_MODE::IMPLIED => imp_spec(v),
        ADDR_MODE::ZERO_PAGE => zp0_spec(v),
        ADDR_MODE::ZERO_PAGE_X => zpx_spec(v),
        ADDR_MODE::ZERO_PAGE_Y => zpy_spec(v),
        ADDR_MODE::ABSOLUTE => abs_spec(v),
        ADDR_MODE::ABSOLUTE_X => abx_spec(v),
        ADDR_MODE::ABSOLUTE_Y => aby_spec(v),
        ADDR_MODE::INDIRECT => ind_spec(v),
        ADDR_MODE::INDIRECT_X => izx_spec(v),
        ADDR_MODE::INDIRECT_Y => izy_spec(v),
        ADDR_MODE::RELATIVE => rel_spec(v),
        ADDR_MODE::NONE => (v, 0),
    }
}

// ---------------------------------------------------------------------------
// Operation semantics. Each function returns the state after the operation,
// paired with the operation's own extra-cycle signal.
// ---------------------------------------------------------------------------

/// Bitwise AND with the accumulator; Zero and Negative track the new value.
pub open spec fn and_spec(v0: CpuView) -> (CpuView, u8) {
    let v = filled(v0);
    let a = v.reg_a & v.working_data;
    (CpuView { reg_a: a, status: st_zn(v.status, a), ..v }, 1)
}

/// Arithmetic shift left of the staged operand; Carry captures the bit
/// shifted out; the result lands in the accumulator under implied addressing
/// and in memory otherwise.
pub open spec fn asl_spec(v0: CpuView) -> (CpuView, u8) {
    let v = filled(v0);
    let data0 = v.working_data;
    let data = data0 << 1;
    let st = st_with(
        st_with(st_with(v.status, FLAG_C, data0 & 0x80 == 0x80), FLAG_Z, data == 0x00),
        FLAG_N,
        data & 0x80 == 0x80,
    );
    if v.mode == ADDR_MODE::IMPLIED {
        (CpuView { reg_a: data, status: st, ..v }, 0)
    } else {
        (CpuView { status: st, mem: v.mem.update(v.working_addr as int, data), ..v }, 0)
    }
}

/// A conditional branch on one status bit. Not taken: no state change and no
/// extra cycles. Taken: the sign-extended offset is added to the program
/// counter, costing one extra cycle, or two when the target lies on a
/// different page than the updated fetch cursor.
pub open spec fn branch_spec(v: CpuView, mask: u8, taken_when_set: bool) -> (CpuView, u8) {
    if st_is_set(v.status, mask) == taken_when_set {
        let addr = v.pc.wrapping_add(v.rel_working_addr);
        let extra: u8 = if (addr & 0xFF00) != (v.pc & 0xFF00) {
            2
        } else {
            1
        };
        (CpuView { pc: addr, ..v }, extra)
    } else {
        (v, 0)
    }
}

/// Bit test: the accumulator is untouched; Negative and Overflow copy bits 7
/// and 6 of the operand, and Zero reports whether operand AND accumulator is
/// zero.
pub open spec fn bit_spec(v0: CpuView) -> (CpuView, u8) {
    let v = filled(v0);
    let data = v.working_data;
    let st = st_with(
        st_with(st_with(v.status, FLAG_N, data & 0x80 == 0x80), FLAG_V, data & 0x40 == 0x40),
        FLAG_Z,
        data & v.reg_a == 0x00,
    );
    (CpuView { status: st, ..v }, 0)
}

/// Software interrupt: pushes the incremented program counter high byte
/// first, then the status byte with Break and Unused forced set, sets
/// Interrupt-disable, and loads the program counter from the interrupt
/// vector.
pub open spec fn brk_spec(v: CpuView) -> (CpuView, u8) {
    let pc1 = v.pc.wrapping_add(1);
    let st1 = st_set(st_set(st_set(v.status, FLAG_B), FLAG_U), FLAG_I);
    let m1 = v.mem.update(stk(v.sp) as int, (pc1 >> 8) as u8);
    let sp1 = v.sp.wrapping_sub(1);
    let m2 = m1.update(stk(sp1) as int, pc1 as u8);
    let sp2 = sp1.wrapping_sub(1);
    let m3 = m2.update(stk(sp2) as int, st1);
    let sp3 = sp2.wrapping_sub(1);
    let pc2 = w16(m3[0xFFFE], m3[0xFFFF]);
    (CpuView { pc: pc2, sp: sp3, status: st1, mem: m3, ..v }, 0)
}

/// A flag-clearing operation.
pub open spec fn clear_spec(v: CpuView, mask: u8) -> (CpuView, u8) {
    (CpuView { status: st_clear(v.status, mask), ..v }, 0)
}

/// A flag-setting operation.
pub open spec fn set_spec(v: CpuView, mask: u8) -> (CpuView, u8) {
    (CpuView { status: st_set(v.status, mask), ..v }, 0)
}

/// A register-operand comparison: Carry reports register at least operand
/// (unsigned), Negative and Zero track the wrapping difference. Nothing is
/// stored.
pub open spec fn compare_st(st: u8, reg: u8, data: u8) -> u8 {
    let temp = reg.wrapping_sub(data);
    st_with(
        st_with(st_with(st, FLAG_C, reg >= data), FLAG_N, temp & 0x80 == 0x80),
        FLAG_Z,
        temp == 0x00,
    )
}

/// Compare with the accumulator.
pub open spec fn cmp_spec(v0: CpuView) -> (CpuView, u8) {
    let v = filled(v0);
    (CpuView { status: compare_st(v.status, v.reg_a, v.working_data), ..v }, 1)
}

/// Compare with the X index register.
pub open spec fn cpx_spec(v0: CpuView) -> (CpuView, u8) {
    let v = filled(v0);
    (CpuView { status: compare_st(v.status, v.reg_x, v.working_data), ..v }, 0)
}

/// Compare with the Y index register.
pub open spec fn cpy_spec(v0: CpuView) -> (CpuView, u8) {
    let v = filled(v0);
    (CpuView { status: compare_st(v.status, v.reg_y, v.working_data), ..v }, 0)
}

/// Wrapping decrement of the addressed memory byte; Negative and Zero track
/// the result.
pub open spec fn dec_spec(v0: CpuView) -> (CpuView, u8) {
    let v = filled(v0);
    let temp = v.working_data.wrapping_sub(1);
    (
        CpuView {
            status: st_nz(v.status, temp),
            mem: v.mem.update(v.working_addr as int, temp),
            ..v
        },
        0,
    )
}

/// Wrapping decrement of the X index register.
pub open spec fn dex_spec(v: CpuView) -> (CpuView, u8) {
    let x = v.reg_x.wrapping_sub(1);
    (CpuView { reg_x: x, status: st_nz(v.status, x), ..v }, 0)
}

/// Wrapping decrement of the Y index register.
pub open spec fn dey_spec(v: CpuView) -> (CpuView, u8) {
    let y = v.reg_y.wrapping_sub(1);
    (CpuView { reg_y: y, status: st_nz(v.status, y), ..v }, 0)
}

/// Bitwise exclusive OR with the accumulator.
pub open spec fn eor_spec(v0: CpuView) -> (CpuView, u8) {
    let v = filled(v0);
    let a = v.reg_a ^ v.working_data;
    (CpuView { reg_a: a, status: st_nz(v.status, a), ..v }, 1)
}

/// Wrapping increment of the addressed memory byte.
pub open spec fn inc_spec(v0: CpuView) -> (CpuView, u8) {
    let v = filled(v0);
    let temp = v.working_data.wrapping_add(1);
    (
        CpuView {
            status: st_nz(v.status, temp),
            mem: v.mem.update(v.working_addr as int, temp),
            ..v
        },
        0,
    )
}

/// Wrapping increment of the X index register.
pub open spec fn inx_spec(v: CpuView) -> (CpuView, u8) {
    let x = v.reg_x.wrapping_add(1);
    (CpuView { reg_x: x, status: st_nz(v.status, x), ..v }, 0)
}

/// Wrapping increment of the Y index register.
pub open spec fn iny_spec(v: CpuView) -> (CpuView, u8) {
    let y = v.reg_y.wrapping_add(1);
    (CpuView { reg_y: y, status: st_nz(v.status, y), ..v }, 0)
}

/// Jump: the program counter becomes the resolved address.
pub open spec fn jmp_spec(v: CpuView) -> (CpuView, u8) {
    (CpuView { pc: v.working_addr, ..v }, 0)
}

/// Call: pushes the program counter minus one, high byte then low byte, then
/// jumps to the resolved address.
pub open spec fn jsr_spec(v: CpuView) -> (CpuView, u8) {
    let temp = v.pc.wrapping_sub(1);
    let m1 = v.mem.update(stk(v.sp) as int, (temp >> 8) as u8);
    let sp1 = v.sp.wrapping_sub(1);
    let m2 = m1.update(stk(sp1) as int, temp as u8);
    let sp2 = sp1.wrapping_sub(1);
    (CpuView { pc: v.working_addr, sp: sp2, mem: m2, ..v }, 0)
}

/// Load the accumulator from the staged operand.
pub open spec fn lda_spec(v0: CpuView) -> (CpuView, u8) {
    let v = filled(v0);
    (CpuView { reg_a: v.working_data, status: st_nz(v.status, v.working_data), ..v }, 1)
}

/// Load the X index register from the staged operand.
pub open spec fn ldx_spec(v0: CpuView) -> (CpuView, u8) {
    let v = filled(v0);
    (CpuView { reg_x: v.working_data, status: st_nz(v.status, v.working_data), ..v }, 1)
}

/// Load the Y index register from the staged operand.
pub open spec fn ldy_spec(v0: CpuView) -> (CpuView, u8) {
    let v = filled(v0);
    (CpuView { reg_y: v.working_data, status: st_nz(v.status, v.working_data), ..v }, 1)
}

/// Logical shift right; Carry captures the bit shifted out.
pub open spec fn lsr_spec(v0: CpuView) -> (CpuView, u8) {
    let v = filled(v0);
    let data = v.working_data;
    let temp = data >> 1;
    let st = st_with(
        st_with(st_with(v.status, FLAG_C, data & 0x01 == 0x01), FLAG_N, temp & 0x80 == 0x80),
        FLAG_Z,
        temp == 0x00,
    );
    if v.mode == ADDR_MODE::IMPLIED {
        (CpuView { reg_a: temp, status: st, ..v }, 0)
    } else {
        (CpuView { status: st, mem: v.mem.update(v.working_addr as int, temp), ..v }, 0)
    }
}

/// Bitwise inclusive OR with the accumulator.
pub open spec fn ora_spec(v0: CpuView) -> (CpuView, u8) {
    let v = filled(v0);
    let a = v.reg_a | v.working_data;
    (CpuView { reg_a: a, status: st_nz(v.status, a), ..v }, 1)
}

/// Push the accumulator onto the stack page.
pub open spec fn pha_spec(v: CpuView) -> (CpuView, u8) {
    (
        CpuView {
            mem: v.mem.update(stk(v.sp) as int, v.reg_a),
            sp: v.sp.wrapping_sub(1),
            ..v
        },
        0,
    )
}

/// Push the status byte onto the stack page.
pub open spec fn php_spec(v: CpuView) -> (CpuView, u8) {
    (
        CpuView {
            mem: v.mem.update(stk(v.sp) as int, v.status),
            sp: v.sp.wrapping_sub(1),
            ..v
        },
        0,
    )
}

/// Pull the accumulator from the stack page; Negative and Zero track the
/// pulled value.
pub open spec fn pla_spec(v: CpuView) -> (CpuView, u8) {
    let sp1 = v.sp.wrapping_add(1);
    let a = v.mem[stk(sp1) as int];
    (CpuView { sp: sp1, reg_a: a, status: st_nz(v.status, a), ..v }, 0)
}

/// Pull the status byte from the stack page, replacing it wholesale.
pub open spec fn plp_spec(v: CpuView) -> (CpuView, u8) {
    let sp1 = v.sp.wrapping_add(1);
    (CpuView { sp: sp1, status: v.mem[stk(sp1) as int], ..v }, 0)
}

/// Rotate left through Carry: the prior Carry enters bit 0 and Carry
/// captures the bit shifted out of bit 7.
pub open spec fn rol_spec(v0: CpuView) -> (CpuView, u8) {
    let v = filled(v0);
    let data = v.working_data;
    let shifted = (data as u16) << 1;
    let temp: u16 = if st_is_set(v.status, FLAG_C) {
        shifted | 0x0001
    } else {
        shifted
    };
    let st = st_with(
        st_with(
            st_with(v.status, FLAG_N, temp & 0x0080 == 0x0080),
            FLAG_Z,
            (temp as u8) == 0x00,
        ),
        FLAG_C,
        (temp & 0xFF00) > 0,
    );
    if v.mode == ADDR_MODE::IMPLIED {
        (CpuView { reg_a: temp as u8, status: st, ..v }, 0)
    } else {
        (CpuView { status: st, mem: v.mem.update(v.working_addr as int, temp as u8), ..v }, 0)
    }
}

/// Rotate right through Carry: the prior Carry enters bit 7 and Carry
/// captures the bit shifted out of bit 0.
pub open spec fn ror_spec(v0: CpuView) -> (CpuView, u8) {
    let v = filled(v0);
    let data = v.working_data;
    let temp: u8 = if st_is_set(v.status, FLAG_C) {
        (data >> 1) | 0x80
    } else {
        data >> 1
    };
    let st = st_with(
        st_with(st_with(v.status, FLAG_C, data & 0x01 == 0x01), FLAG_N, temp & 0x80 == 0x80),
        FLAG_Z,
        temp == 0x00,
    );
    if v.mode == ADDR_MODE::IMPLIED {
        (CpuView { reg_a: temp, status: st, ..v }, 0)
    } else {
        (CpuView { status: st, mem: v.mem.update(v.working_addr as int, temp), ..v }, 0)
    }
}

/// Return from interrupt (the instruction): pulls the status byte, then the
/// program counter low byte, then its high byte.
pub open spec fn rti_op_spec(v: CpuView) -> (CpuView, u8) {
    let sp1 = v.sp.wrapping_add(1);
    let st = v.mem[stk(sp1) as int];
    let sp2 = sp1.wrapping_add(1);
    let lo = v.mem[stk(sp2) as int] as u16;
    let sp3 = sp2.wrapping_add(1);
    let hi = v.mem[stk(sp3) as int] as u16;
    (CpuView { sp: sp3, status: st, pc: lo | (hi << 8), ..v }, 0)
}

/// Return from subroutine: pulls low byte then high byte, then increments
/// the result by one.
pub open spec fn rts_spec(v: CpuView) -> (CpuView, u8) {
    let sp1 = v.sp.wrapping_add(1);
    let lo = v.mem[stk(sp1) as int] as u16;
    let sp2 = sp1.wrapping_add(1);
    let hi = v.mem[stk(sp2) as int] as u16;
    (CpuView { sp: sp2, pc: (lo | (hi << 8)).wrapping_add(1), ..v }, 0)
}

/// Store the accumulator at the resolved address; no flag effect.
pub open spec fn sta_spec(v: CpuView) -> (CpuView, u8) {
    (CpuView { mem: v.mem.update(v.working_addr as int, v.reg_a), ..v }, 0)
}

/// Store the X index register at the resolved address.
pub open spec fn stx_spec(v: CpuView) -> (CpuView, u8) {
    (CpuView { mem: v.mem.update(v.working_addr as int, v.reg_x), ..v }, 0)
}

/// Store the Y index register at the resolved address.
pub open spec fn sty_spec(v: CpuView) -> (CpuView, u8) {
    (CpuView { mem: v.mem.update(v.working_addr as int, v.reg_y), ..v }, 0)
}

/// Transfer accumulator to X; Negative and Zero track the copied value.
pub open spec fn tax_spec(v: CpuView) -> (CpuView, u8) {
    (CpuView { reg_x: v.reg_a, status: st_nz(v.status, v.reg_a), ..v }, 0)
}

/// Transfer accumulator to Y.
pub open spec fn tay_spec(v: CpuView) -> (CpuView, u8) {
    (CpuView { reg_y: v.reg_a, status: st_nz(v.status, v.reg_a), ..v }, 0)
}

/// Transfer stack pointer to X.
pub open spec fn tsx_spec(v: CpuView) -> (CpuView, u8) {
    (CpuView { reg_x: v.sp, status: st_nz(v.status, v.sp), ..v }, 0)
}

/// Transfer X to accumulator.
pub open spec fn txa_spec(v: CpuView) -> (CpuView, u8) {
    (CpuView { reg_a: v.reg_x, status: st_nz(v.status, v.reg_x), ..v }, 0)
}

/// Transfer X to stack pointer; the one transfer with no flag effect.
pub open spec fn txs_spec(v: CpuView) -> (CpuView, u8) {
    (CpuView { sp: v.reg_x, ..v }, 0)
}

/// Transfer Y to accumulator.
pub open spec fn tya_spec(v: CpuView) -> (CpuView, u8) {
    (CpuView { reg_a: v.reg_y, status: st_nz(v.status, v.reg_y), ..v }, 0)
}

/// Add with carry. The 9-bit intermediate sum drives the flags: Negative from
/// bit 7, Zero from the masked 8-bit result, Overflow from the signed
/// two's-complement test (operand signs equal, result sign differs), Carry
/// when the sum exceeds 0xFF. The decimal flag never alters the computation.
pub open spec fn adc_spec(v0: CpuView) -> (CpuView, u8) {
    let v = filled(v0);
    let data = v.working_data;
    let sum = (v.reg_a as u16 + data as u16) as u16;
    let temp: u16 = if st_is_set(v.status, FLAG_C) {
        (sum + 1) as u16
    } else {
        sum
    };
    let st = st_with(
        st_with(
            st_with(
                st_with(v.status, FLAG_N, temp & 0x80 == 0x80),
                FLAG_Z,
                temp & 0xFF == 0x00,
            ),
            FLAG_V,
            (!(v.reg_a as u16 ^ data as u16) & (v.reg_a as u16 ^ temp) & 0x0080) == 0x0080,
        ),
        FLAG_C,
        temp > 0xFF,
    );
    (CpuView { reg_a: temp as u8, status: st, ..v }, 1)
}

/// Subtract with carry: adds the operand's complement, so Carry reports
/// no-borrow, and the signed overflow test runs on the complemented operand.
pub open spec fn sbc_spec(v0: CpuView) -> (CpuView, u8) {
    let v = filled(v0);
    let value = (v.working_data as u16) ^ 0x00FF;
    let sum = (v.reg_a as u16 + value) as u16;
    let temp: u16 = if st_is_set(v.status, FLAG_C) {
        (sum + 1) as u16
    } else {
        sum
    };
    let st = st_with(
        st_with(
            st_with(
                st_with(v.status, FLAG_N, temp & 0x80 == 0x80),
                FLAG_Z,
                temp & 0xFF == 0x00,
            ),
            FLAG_V,
            ((temp ^ v.reg_a as u16) & (temp ^ value) & 0x0080) == 0x0080,
        ),
        FLAG_C,
        temp > 0xFF,
    );
    (CpuView { reg_a: temp as u8, status: st, ..v }, 1)
}

/// Dispatch of operation semantics. The reserved tag never reaches an
/// executor: the decode table never produces it, and it changes nothing
/// here, exactly as unassigned opcodes demand.
pub open spec fn op_spec(op: OPS, v: CpuView) -> (CpuView, u8) {
    match op {
        OPS::ADC => adc_spec(v),
        OPS::AND => and_spec(v),
        OPS::ASL => asl_spec(v),
        OPS::BCC => branch_spec(v, FLAG_C, false),
        OPS::BCS => branch_spec(v, FLAG_C, true),
        OPS::BEQ => branch_spec(v, FLAG_Z, true),
        OPS::BIT => bit_spec(v),
        OPS::BMI => branch_spec(v, FLAG_N, true),
        OPS::BNE => branch_spec(v, FLAG_Z, false),
        OPS::BPL => branch_spec(v, FLAG_N, false),
        OPS::BRK => brk_spec(v),
        OPS::BVC => branch_spec(v, FLAG_V, false),
        OPS::BVS => branch_spec(v, FLAG_V, true),
        OPS::CLC => clear_spec(v, FLAG_C),
        OPS::CLD => clear_spec(v, FLAG_D),
        OPS::CLI => clear_spec(v, FLAG_I),
        OPS::CLV => clear_spec(v, FLAG_V),
        OPS::CMP => cmp_spec(v),
        OPS::CPX => cpx_spec(v),
        OPS::CPY => cpy_spec(v),
        OPS::DEC => dec_spec(v),
        OPS::DEX => dex_spec(v),
        OPS::DEY => dey_spec(v),
        OPS::EOR => eor_spec(v),
        OPS::INC => inc_spec(v),
        OPS::INX => inx_spec(v),
        OPS::INY => iny_spec(v),
        OPS::JMP => jmp_spec(v),
        OPS::JSR => jsr_spec(v),
        OPS::LDA => lda_spec(v),
        OPS::LDX => ldx_spec(v),
        OPS::LDY => ldy_spec(v),
        OPS::LSR => lsr_spec(v),
        OPS::NOP => (v, 0),
        OPS::ORA => ora_spec(v),
        OPS::PHA => pha_spec(v),
        OPS::PHP => php_spec(v),
        OPS::PLA => pla_spec(v),
        OPS::PLP => plp_spec(v),
        OPS::ROL => rol_spec(v),
        OPS::ROR => ror_spec(v),
        OPS::RTI => rti_op_spec(v),
        OPS::RTS => rts_spec(v),
        OPS::SBC => sbc_spec(v),
        OPS::SEC => set_spec(v, FLAG_C),
        OPS::SED => set_spec(v, FLAG_D),
        OPS::SEI => set_spec(v, FLAG_I),
        OPS::STA => sta_spec(v),
        OPS::STX => stx_spec(v),
        OPS::STY => sty_spec(v),
        OPS::TAX => tax_spec(v),
        OPS::TAY => tay_spec(v),
        OPS::TSX => tsx_spec(v),
        OPS::TXA => txa_spec(v),
        OPS::TXS => txs_spec(v),
        OPS::TYA => tya_spec(v),
        OPS::XXX => (v, 0),
    }
}

/// One resolve-then-execute pass: the addressing mode consumes its operand
/// bytes, the operation applies its semantics, and the two extra-cycle
/// signals add up.
pub open spec fn execute_spec(m: ADDR_MODE, op: OPS, v: CpuView) -> (CpuView, u8) {
    let r = resolve_spec(m, v);
    let o = op_spec(op, r.0);
    (o.0, (r.1 + o.1) as u8)
}

// ---------------------------------------------------------------------------
// Control-transfer sequences and the clock.
// ---------------------------------------------------------------------------

/// Reset: the program counter loads little-endian from the reset vector, the
/// stack pointer and status byte take their power-up values, and the fixed
/// reset latency enters the cycle counter. Registers and memory are
/// untouched.
pub open spec fn reset_spec(v: CpuView) -> CpuView {
    CpuView {
        working_addr: 0xFFFC,
        pc: w16(v.mem[0xFFFC], v.mem[0xFFFD]),
        sp: 0x00,
        status: 0xFF,
        cycles: 8,
        ..v
    }
}

/// Hardware interrupt request. Ignored while Interrupt-disable is set;
/// otherwise pushes the program counter high byte first, forces Break,
/// Unused and Interrupt-disable set, pushes the status byte, and loads the
/// program counter from the interrupt vector.
pub open spec fn irq_spec(v: CpuView) -> CpuView {
    if st_is_set(v.status, FLAG_I) {
        v
    } else {
        let m1 = v.mem.update(stk(v.sp) as int, (v.pc >> 8) as u8);
        let sp1 = v.sp.wrapping_sub(1);
        let m2 = m1.update(stk(sp1) as int, (v.pc & 0x00FF) as u8);
        let sp2 = sp1.wrapping_sub(1);
        let st1 = st_set(st_set(st_set(v.status, FLAG_B), FLAG_U), FLAG_I);
        let m3 = m2.update(stk(sp2) as int, st1);
        let sp3 = sp2.wrapping_sub(1);
        CpuView {
            pc: w16(m3[0xFFFE], m3[0xFFFF]),
            sp: sp3,
            status: st1,
            mem: m3,
            working_addr: 0xFFFE,
            cycles: 7,
            ..v
        }
    }
}

/// Non-maskable interrupt: the same push sequence as an interrupt request,
/// never masked, with its own vector and latency.
pub open spec fn nmi_spec(v: CpuView) -> CpuView {
    let m1 = v.mem.update(stk(v.sp) as int, (v.pc >> 8) as u8);
    let sp1 = v.sp.wrapping_sub(1);
    let m2 = m1.update(stk(sp1) as int, (v.pc & 0x00FF) as u8);
    let sp2 = sp1.wrapping_sub(1);
    let st1 = st_set(st_set(st_set(v.status, FLAG_B), FLAG_U), FLAG_I);
    let m3 = m2.update(stk(sp2) as int, st1);
    let sp3 = sp2.wrapping_sub(1);
    CpuView {
        pc: w16(m3[0xFFFA], m3[0xFFFB]),
        sp: sp3,
        status: st1,
        mem: m3,
        working_addr: 0xFFFA,
        cycles: 8,
        ..v
    }
}

/// Return from an interrupt service routine driven from outside the
/// instruction stream: pulls the status byte (with Break and Unused cleared),
/// then the program counter, mirroring the push order.
pub open spec fn cpu_rti_spec(v: CpuView) -> CpuView {
    let sp1 = v.sp.wrapping_add(1);
    let st = st_clear(st_clear(v.mem[stk(sp1) as int], FLAG_B), FLAG_U);
    let sp2 = sp1.wrapping_add(1);
    let lo = v.mem[stk(sp2) as int] as u16;
    let sp3 = sp2.wrapping_add(1);
    let hi = v.mem[stk(sp3) as int] as u16;
    CpuView { sp: sp3, status: st, pc: (hi << 8) | lo, cycles: 6, ..v }
}

/// One clock tick. With the counter at zero: fetch one opcode byte, decode
/// it, make its descriptor current, resolve and execute it, and load the
/// counter with the instruction's total cost (base plus both extra-cycle
/// signals). The counter then counts down by one; it never falls below zero,
/// so the zero-cost unknown descriptor leaves it at zero for the next fetch.
pub open spec fn clock_spec(v: CpuView) -> CpuView {
    let v1 = if v.cycles == 0 {
        let info = decode_info(v.mem[v.pc as int]);
        let vf = CpuView { pc: v.pc.wrapping_add(1), mode: info.mode, ..v };
        let r = execute_spec(info.mode, info.opr, vf);
        CpuView { cycles: (info.cycles + r.1) as u8, ..r.0 }
    } else {
        v
    };
    if v1.cycles > 0 {
        CpuView { cycles: (v1.cycles - 1) as u8, ..v1 }
    } else {
        v1
    }
}

} // verus!
