//! The assembled machine: a processor wired to a fresh memory image, with a
//! loader for placing program bytes and a single-tick driver.

use crate::cpu::CPU;
use crate::mem::{loaded_from, Mem, MEM_SIZE};
use crate::model::{clock_spec, reset_spec, w16, CpuView};
use vstd::prelude::*;

verus! {

/// A processor with its own zeroed memory.
pub struct Vm {
    pub cpu: CPU,
}

impl Vm {
    /// Builds a machine over all-zero memory and runs the reset sequence, so
    /// the program counter holds the (zero) reset vector's target and the
    /// reset latency sits in the cycle counter.
    pub fn new() -> (vm: Vm)
        ensures
            vm.cpu.wf(),
            forall|i: int| 0 <= i < vm.cpu@.mem.len() ==> vm.cpu@.mem[i] == 0x00u8,
            vm.cpu@.pc == w16(0x00, 0x00),
            vm.cpu@.sp == 0x00,
            vm.cpu@.status == 0xFF,
            vm.cpu@.cycles == 8,
    {
        let mem = Mem::new();
        Vm { cpu: CPU::new(mem) }
    }

    /// Runs the processor's reset sequence over the current memory image.
    pub fn reset(&mut self)
        requires
            old(self).cpu.wf(),
        ensures
            final(self).cpu.wf(),
            final(self).cpu@ == reset_spec(old(self).cpu@),
    {
        self.cpu.reset();
    }

    /// Copies program bytes into memory starting at `offset`, leaving the
    /// processor state alone.
    pub fn load(&mut self, data: &[u8], offset: u16)
        requires
            old(self).cpu.wf(),
            offset + data@.len() <= MEM_SIZE,
        ensures
            final(self).cpu.wf(),
            loaded_from(old(self).cpu@.mem, data@, offset, final(self).cpu@.mem),
            final(self).cpu@ == (CpuView { mem: final(self).cpu@.mem, ..old(self).cpu@ }),
    {
        self.cpu.mem.load(data, offset);
    }

    /// Advances the machine by one clock tick.
    pub fn step(&mut self)
        requires
            old(self).cpu.wf(),
        ensures
            final(self).cpu.wf(),
            final(self).cpu@ == clock_spec(old(self).cpu@),
    {
        self.cpu.clock();
    }
}

} // verus!
