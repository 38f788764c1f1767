//! Instruction-set simulator for a classic 8-bit CPU.
//!
//! The crate models the fetch-decode-execute engine of the processor: a total
//! decode table over all 256 opcode values, an addressing-mode resolver with
//! page-boundary cycle penalties, the per-operation register/flag/memory
//! semantics, and the reset/interrupt control-transfer sequences. Every state
//! transition is specified against a mathematical model of the machine
//! (`model::CpuView`) and verified.

pub mod cpu;
pub mod instructions;
pub mod laws;
pub mod mem;
pub mod model;
pub mod status;
pub mod vm;

pub use cpu::CPU;
pub use instructions::{Instruction, ADDR_MODE, OPS};
pub use mem::Mem;
pub use status::{CpuStatus, Flag};
pub use vm::Vm;
