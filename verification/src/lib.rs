//! Cycle-approximate emulator core for the MOS 6502 microprocessor.
//!
//! The crate models the register file, the packed status register, opcode
//! decoding over the `aaa`/`bbb`/`cc` bit groups, the thirteen addressing
//! modes, the execution semantics of the documented opcode set together with
//! a stable subset of the undocumented one, and interrupt entry and return.
//! Every instruction step is specified against a mathematical model of the
//! machine state (`model`), and the executable core is proved to follow it.

pub mod cpu;
pub mod laws;
pub mod flags;
pub mod instruction;
pub mod mem;
pub mod model;

pub use cpu::Cpu;
pub use cpu::Op;
pub use cpu::States;
pub use flags::Flags;
pub use instruction::Instruction;
pub use mem::Memory;
