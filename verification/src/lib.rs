//! An instruction-set emulator for the MOS 6502 8-bit microprocessor.
//!
//! The CPU core decodes each documented opcode, resolves its addressing
//! mode, executes its operation with all processor-status side effects
//! (including binary-coded-decimal arithmetic), maintains the stack and
//! vector conventions, and produces a per-step execution trace.  All byte
//! accesses go through the [`memory::Memory`] bus abstraction, so hosts can
//! map devices such as the [`pia::PIAChip`] into the address space.

pub mod cpu;
pub mod emulator;
pub mod instruction;
pub mod instructionset;
pub mod instrumentation;
pub mod laws;
pub mod mapped_memory;
pub mod memory;
pub mod pia;
pub mod state;
