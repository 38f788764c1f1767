//! The processor state machine: owns the register file, status byte, cycle
//! counter and memory bus, and drives fetch, decode, resolve, execute and the
//! reset/interrupt control-transfer sequences. Every method realises the
//! matching transition function of `model` exactly.

use crate::instructions::{self, Instruction, ADDR_MODE};
use crate::mem::Mem;
use crate::model::{
    clock_spec, cpu_rti_spec, fetch_byte, fetched, fetched2, filled, irq_spec, nmi_spec,
    reset_spec, w16, CpuView,
};
use crate::status::{CpuStatus, Flag};
use vstd::prelude::*;

verus! {

/// The processor: register file, status flags, cycle counter, the memory bus
/// it exclusively owns, and the transient working values of the instruction
/// in flight.
pub struct CPU {
    /// Program counter.
    pub pc: u16,
    /// Stack pointer: the low byte of an address in the fixed stack page.
    /// Every stack access adds the page base to it.
    pub sp: u8,
    /// Accumulator.
    pub reg_a: u8,
    /// X index register.
    pub reg_x: u8,
    /// Y index register.
    pub reg_y: u8,
    /// Status flags.
    pub status: CpuStatus,
    /// Remaining ticks before the next fetch.
    pub cycles: u8,
    /// The memory bus.
    pub mem: Mem,
    /// Transient effective address of the instruction in flight.
    pub working_addr: u16,
    /// Transient sign-extended branch offset.
    pub rel_working_addr: u16,
    /// Transient fetched operand byte.
    pub working_data: u8,
    /// Descriptor of the instruction in flight.
    pub curr_instruction: Instruction,
}

impl View for CPU {
    type V = CpuView;

    /// The abstract machine state this processor realises.
    open spec fn view(&self) -> CpuView {
        CpuView {
            pc: self.pc,
            sp: self.sp,
            reg_a: self.reg_a,
            reg_x: self.reg_x,
            reg_y: self.reg_y,
            status: self.status.bits,
            cycles: self.cycles,
            mem: self.mem@,
            working_addr: self.working_addr,
            rel_working_addr: self.rel_working_addr,
            working_data: self.working_data,
            mode: self.curr_instruction.addr_mode,
        }
    }
}

impl CPU {
    /// The memory bus covers the full address space. Established by `new`
    /// and preserved by every method.
    pub open spec fn wf(&self) -> bool {
        self.mem.wf()
    }

    /// Builds a processor around `mem` and runs the reset sequence, so the
    /// program counter already holds the reset vector's target.
    pub fn new(mem: Mem) -> (cpu: CPU)
        requires
            mem.wf(),
        ensures
            cpu.wf(),
            cpu@ == reset_spec(
                CpuView {
                    pc: 0,
                    sp: 0,
                    reg_a: 0,
                    reg_x: 0,
                    reg_y: 0,
                    status: 0,
                    cycles: 0,
                    mem: mem@,
                    working_addr: 0,
                    rel_working_addr: 0,
                    working_data: 0,
                    mode: ADDR_MODE::NONE,
                },
            ),
    {
        let mut new = CPU {
            pc: 0,
            sp: 0,
            reg_a: 0,
            reg_x: 0,
            reg_y: 0,
            status: CpuStatus::default(),
            cycles: 0,
            mem,
            working_addr: 0x0000,
            rel_working_addr: 0x0000,
            working_data: 0x00,
            curr_instruction: Instruction::default(),
        };
        new.reset();
        new
    }

    /// The reset sequence: loads the program counter little-endian from the
    /// reset vector, restores the stack pointer and status flags to their
    /// power-up values, and loads the fixed reset latency into the cycle
    /// counter.
    pub fn reset(&mut self)
        requires
            old(self).wf(),
        ensures
            final(self).wf(),
            final(self)@ == reset_spec(old(self)@),
            final(self).curr_instruction == old(self).curr_instruction,
    {
        self.working_addr = 0xFFFC;
        let lo = self.mem.read(self.working_addr) as u16;
        let hi = self.mem.read(self.working_addr + 1) as u16;
        self.pc = (hi << 8) | lo;

        self.sp = 0x00;
        self.status.reset();

        self.cycles = 8;
    }

    /// Services an interrupt request, unless Interrupt-disable is set, in
    /// which case nothing changes. Pushes the program counter and the status
    /// byte (Break and Unused forced set), masks further requests, and loads
    /// the program counter from the interrupt vector.
    pub fn irq(&mut self)
        requires
            old(self).wf(),
        ensures
            final(self).wf(),
            final(self)@ == irq_spec(old(self)@),
            final(self).curr_instruction == old(self).curr_instruction,
    {
        if self.status.is_flag_set(Flag::I) {
            return ;
        }
        self.mem.write(self.sp as u16 + 0x0100, (self.pc >> 8) as u8);
        self.sp = self.sp.wrapping_sub(1);
        self.mem.write(self.sp as u16 + 0x0100, (self.pc & 0x00FF) as u8);
        self.sp = self.sp.wrapping_sub(1);

        self.status.set_flag(Flag::B);
        self.status.set_flag(Flag::U);
        self.status.set_flag(Flag::I);
        self.mem.write(self.sp as u16 + 0x0100, self.status.bits);
        self.sp = self.sp.wrapping_sub(1);

        self.working_addr = 0xFFFE;
        let lo = self.mem.read(self.working_addr);
        let hi = self.mem.read(self.working_addr + 1);
        self.pc = ((hi as u16) << 8) | (lo as u16);

        self.cycles = 7;
    }

    /// Services a non-maskable interrupt: the same entry sequence as `irq`,
    /// never ignored, through its own vector and with its own latency.
    pub fn nmi(&mut self)
        requires
            old(self).wf(),
        ensures
            final(self).wf(),
            final(self)@ == nmi_spec(old(self)@),
            final(self).curr_instruction == old(self).curr_instruction,
    {
        self.mem.write(self.sp as u16 + 0x0100, (self.pc >> 8) as u8);
        self.sp = self.sp.wrapping_sub(1);
        self.mem.write(self.sp as u16 + 0x0100, (self.pc & 0x00FF) as u8);
        self.sp = self.sp.wrapping_sub(1);

        self.status.set_flag(Flag::B);
        self.status.set_flag(Flag::U);
        self.status.set_flag(Flag::I);
        self.mem.write(self.sp as u16 + 0x0100, self.status.bits);
        self.sp = self.sp.wrapping_sub(1);

        self.working_addr = 0xFFFA;
        let lo = self.mem.read(self.working_addr);
        let hi = self.mem.read(self.working_addr + 1);
        self.pc = ((hi as u16) << 8) | (lo as u16);

        self.cycles = 8;
    }

    /// Returns from an interrupt service routine: pulls the status byte with
    /// Break and Unused cleared, then the program counter low byte, then its
    /// high byte — the mirror order of the interrupt entry pushes.
    pub fn rti(&mut self)
        requires
            old(self).wf(),
        ensures
            final(self).wf(),
            final(self)@ == cpu_rti_spec(old(self)@),
            final(self).curr_instruction == old(self).curr_instruction,
    {
        self.sp = self.sp.wrapping_add(1);
        self.status = CpuStatus { bits: self.mem.read(self.sp as u16 + 0x0100) };
        self.status.clear_flag(Flag::B);
        self.status.clear_flag(Flag::U);

        self.sp = self.sp.wrapping_add(1);
        let lo = self.mem.read(self.sp as u16 + 0x0100) as u16;
        self.sp = self.sp.wrapping_add(1);
        let hi = self.mem.read(self.sp as u16 + 0x0100) as u16;
        self.pc = (hi << 8) | lo;

        self.cycles = 6;
    }

    /// One clock tick. With the cycle counter at zero: fetches one opcode
    /// byte (advancing the program counter), decodes it, makes the descriptor
    /// current, resolves its addressing mode and executes it, and loads the
    /// counter with base plus extra cycles. The counter then counts down by
    /// one, staying at zero for the zero-cost unknown descriptor so the next
    /// tick fetches again.
    pub fn clock(&mut self)
        requires
            old(self).wf(),
        ensures
            final(self).wf(),
            final(self)@ == clock_spec(old(self)@),
            old(self).cycles == 0 ==> instructions::is_decode_of(
                final(self).curr_instruction,
                fetch_byte(old(self)@),
            ),
            old(self).cycles != 0 ==> final(self).curr_instruction == old(
                self,
            ).curr_instruction,
    {
        if self.cycles == 0 {
            let op_code = self.fetch();
            let ins = Instruction::from_op_code(op_code);
            self.curr_instruction = ins;
            let extra = instructions::execute(self, ins);
            proof {
                instructions::lemma_decode_cycles(op_code);
            }
            self.cycles = ins.cycles + extra;
        }
        if self.cycles > 0 {
            self.cycles = self.cycles - 1;
        }
    }

    /// Stages the operand byte: every mode but implied reads memory at the
    /// resolved effective address (implied staged the accumulator during
    /// resolution instead).
    pub fn fill_working_data(&mut self)
        requires
            old(self).wf(),
        ensures
            final(self).wf(),
            final(self)@ == filled(old(self)@),
            final(self).curr_instruction == old(self).curr_instruction,
    {
        if !(self.curr_instruction.addr_mode == ADDR_MODE::IMPLIED) {
            self.working_data = self.mem.read(self.working_addr);
        }
    }

    /// Fetches one byte at the program counter and advances it, wrapping at
    /// the top of the address space.
    pub fn fetch(&mut self) -> (data: u8)
        requires
            old(self).wf(),
        ensures
            final(self).wf(),
            data == fetch_byte(old(self)@),
            final(self)@ == fetched(old(self)@),
            final(self).curr_instruction == old(self).curr_instruction,
    {
        let data = self.mem.read(self.pc);
        self.pc = self.pc.wrapping_add(1);
        data
    }

    /// Fetches a little-endian 16-bit word: low byte first, advancing the
    /// program counter past both operand bytes.
    pub fn fetch_word(&mut self) -> (data: u16)
        requires
            old(self).wf(),
        ensures
            final(self).wf(),
            data == w16(fetch_byte(old(self)@), fetch_byte(fetched(old(self)@))),
            final(self)@ == fetched2(old(self)@),
            final(self).curr_instruction == old(self).curr_instruction,
    {
        let lo = self.fetch() as u16;
        let hi = self.fetch() as u16;
        (hi << 8) | lo
    }
}

} // verus!
