//! The 6502 core: register file, decoder, execution unit and drivers.
//!
//! The executable core lives here and in the `addressing` and `exec`
//! submodules.  Every mutating entry point is specified against the
//! mathematical machine model in [`crate::model`]: `run_instr` follows
//! [`crate::model::step_spec`] and the phased `run` follows
//! [`crate::model::tick_spec`].

#![allow(non_snake_case)]

pub mod addressing;
pub mod exec;

use vstd::prelude::*;

use crate::flags::{Flags, POWER_ON_STATUS};
use crate::instruction::Instruction;
use crate::mem::{le16_at, rd, store_next, Memory};
use crate::model::{fetch_upd, irq_spec, nmi_spec, stk, step_spec, tick_spec, wadd8, wsub8};

verus! {

/// Ceiling under which the cycle counter is known not to overflow during
/// one entry of the core.  The counter is the caller's to reset.
pub const CYCLE_LIMIT: isize = 0x4000_0000;

/// The three phases of the per-phase driver.
#[derive(Copy, Clone, PartialEq, Eq, Structural, Debug)]
pub enum States {
    Fetch,
    Decode,
    Execute,
}

/// A decoded operation: one variant per handler of the execution unit.
///
/// `Relative` stands for the whole conditional-branch family, which picks
/// its flag and polarity from the opcode byte itself.  `Jmi` is the
/// indirect jump with the 6502 page-wrap bug.  `Jam`, `Slo`, `Rla`, `Sre`,
/// `Rra`, `Anc` and `Alr` are the implemented undocumented opcodes; the
/// remaining undocumented slots decode to `Nop` with the operand skip of
/// their addressing mode.
#[derive(Copy, Clone, PartialEq, Eq, Structural, Debug)]
pub enum Op {
    Adc,
    Alr,
    Anc,
    And,
    Asl,
    Bit,
    Brk,
    Clc,
    Cld,
    Cli,
    Clv,
    Cmp,
    Cpx,
    Cpy,
    Dec,
    Dex,
    Dey,
    Eor,
    Inc,
    Inx,
    Iny,
    Jam,
    Jmi,
    Jmp,
    Jsr,
    Lda,
    Ldx,
    Ldy,
    Lsr,
    Nop,
    Ora,
    Pha,
    Php,
    Pla,
    Plp,
    Relative,
    Rla,
    Rol,
    Ror,
    Rra,
    Rti,
    Rts,
    Sbc,
    Sec,
    Sed,
    Sei,
    Slo,
    Sre,
    Sta,
    Stx,
    Sty,
    Tax,
    Tay,
    Tsx,
    Txa,
    Txs,
    Tya,
}

/// The CPU state: register file, status register, decode scratch and the
/// phase machine of the per-phase driver.
#[derive(Clone, Debug)]
pub struct Cpu {
    /// Accumulator.
    pub a: u8,
    /// X index register.
    pub x: u8,
    /// Y index register.
    pub y: u8,
    /// Processor status.
    pub s: Flags,
    /// Stack pointer; the stack occupies `0x0100 + sp`.
    pub sp: u8,
    /// Program counter.
    pub pc: u16,
    /// Effective address of the current instruction; `None` for
    /// accumulator-addressed shifts and for implied or relative forms.
    pub addr: Option<u16>,
    /// Cycle counter; addressing and execution add to it, the caller resets.
    pub cycles: isize,
    /// True between NMI entry and the next RTI.
    pub in_nmi: bool,
    /// The opcode byte most recently fetched.
    pub instruction: Instruction,
    /// Phase of the per-phase driver.
    pub states: States,
    /// Operation selected by the most recent decode.
    pub current_instr: Op,
}

impl PartialEq for Cpu {
    /// Observable equality for tests: the register file and the status
    /// register, not the per-instruction scratch.
    fn eq(&self, other: &Cpu) -> (r: bool) {
        self.a == other.a && self.x == other.x && self.y == other.y && self.s == other.s
            && self.sp == other.sp && self.pc == other.pc
    }
}

impl vstd::std_specs::cmp::PartialEqSpecImpl for Cpu {
    open spec fn obeys_eq_spec() -> bool {
        true
    }

    open spec fn eq_spec(&self, other: &Cpu) -> bool {
        self.a == other.a && self.x == other.x && self.y == other.y && self.s == other.s
            && self.sp == other.sp && self.pc == other.pc
    }
}

impl Eq for Cpu {

}

impl Cpu {
    /// A core with every register as a test vector gives it.
    pub fn new_test(pc: u16, s: u8, a: u8, x: u8, y: u8, p: u8) -> (r: Cpu)
        ensures
            r == (Cpu {
                a,
                x,
                y,
                s: Flags(p),
                sp: s,
                pc,
                addr: None,
                cycles: 0,
                in_nmi: false,
                instruction: Instruction(0xEA),
                states: States::Fetch,
                current_instr: Op::Nop,
            }),
    {
        let mut status = Flags::new();
        status.set(p);
        Cpu {
            a,
            x,
            y,
            s: status,
            sp: s,
            pc,
            addr: None,
            cycles: 0,
            in_nmi: false,
            instruction: Instruction(0xEA),
            states: States::Fetch,
            current_instr: Op::Nop,
        }
    }

    /// A core at power-on: `SP = 0xFD`, status `0x24`, registers clear, and
    /// the program counter as given, or zero until `start` loads the reset
    /// vector.
    pub fn new(init_pc: Option<u16>) -> (r: Cpu)
        ensures
            r == (Cpu {
                a: 0,
                x: 0,
                y: 0,
                s: Flags(POWER_ON_STATUS),
                sp: 0xFD,
                pc: (match init_pc {
                    Some(pc) => pc,
                    None => 0,
                }),
                addr: None,
                cycles: 0,
                in_nmi: false,
                instruction: Instruction(0xEA),
                states: States::Fetch,
                current_instr: Op::Nop,
            }),
    {
        let i_pc: u16;
        if let Some(pc) = init_pc {
            i_pc = pc;
        } else {
            i_pc = 0;
        }
        Cpu {
            a: 0,
            x: 0,
            y: 0,
            s: Flags::new(),
            sp: 0xFD,
            pc: i_pc,
            addr: None,
            cycles: 0,
            in_nmi: false,
            instruction: Instruction(0xEA),
            states: States::Fetch,
            current_instr: Op::Nop,
        }
    }

    /// Read a little-endian 16-bit value through the memory port.
    pub fn load16(&self, mem: &Memory, addr: u16) -> (r: u16)
        ensures
            r == le16_at(mem@, addr),
    {
        mem.load16(addr)
    }

    /// Write a little-endian 16-bit value through the memory port.
    pub fn store16(&mut self, mem: &mut Memory, addr: u16, val: u16)
        ensures
            *final(self) == *old(self),
            final(mem)@ == old(mem)@.update(addr as int, (val % 256) as u8).update(
                store_next(addr) as int,
                (val / 256) as u8,
            ),
    {
        mem.store16(addr, val);
    }

    /// Push one byte at `0x0100 + SP`, then decrement SP modulo 256.
    pub(crate) fn push8(&mut self, mem: &mut Memory, v: u8)
        ensures
            *final(self) == (Cpu { sp: wsub8(old(self).sp, 1), ..*old(self) }),
            final(mem)@ == old(mem)@.update(stk(old(self).sp) as int, v),
    {
        let a: u16 = 0x100 + self.sp as u16;
        mem.store8(a, v);
        self.sp = self.sp.wrapping_sub(1);
    }

    /// Increment SP modulo 256, then read the byte at `0x0100 + SP`.
    pub(crate) fn pop8(&mut self, mem: &Memory) -> (r: u8)
        ensures
            *final(self) == (Cpu { sp: wadd8(old(self).sp, 1), ..*old(self) }),
            r == rd(mem@, stk(wadd8(old(self).sp, 1))),
    {
        self.sp = self.sp.wrapping_add(1);
        mem.load8(0x100 + self.sp as u16)
    }

    /// Interrupt request.  Honoured only with interrupts enabled: pushes
    /// PC then the status with B clear, sets interrupt-disable, and jumps
    /// through the vector at `0xFFFE`.
    pub fn irq(&mut self, mem: &mut Memory)
        ensures
            (*final(self), final(mem)@) == irq_spec(*old(self), old(mem)@),
    {
        if !self.s.get_interrupt() {
            let pc = self.pc;
            self.push8(mem, (pc / 256) as u8);
            self.push8(mem, (pc % 256) as u8);
            let s = self.s.get() & 0xEF;
            self.push8(mem, s);
            self.s.set_interrupt(true);
            self.pc = mem.load16(0xFFFE);
        }
    }

    /// Non-maskable interrupt: unconditionally pushes PC then the status
    /// with B clear, sets interrupt-disable, jumps through the vector at
    /// `0xFFFA` and records that an NMI is in progress until the next RTI.
    pub fn nmi(&mut self, mem: &mut Memory)
        ensures
            (*final(self), final(mem)@) == nmi_spec(*old(self), old(mem)@),
    {
        self.in_nmi = true;
        let pc = self.pc;
        self.push8(mem, (pc / 256) as u8);
        self.push8(mem, (pc % 256) as u8);
        let s = self.s.get() & 0xEF;
        self.push8(mem, s);
        self.s.set_interrupt(true);
        self.pc = mem.load16(0xFFFA);
    }

    /// Power-on reset: load the program counter from the reset vector at
    /// `0xFFFC` and charge the six start-up cycles.
    pub fn start(&mut self, mem: &mut Memory)
        requires
            old(self).cycles < CYCLE_LIMIT,
        ensures
            *final(self) == (Cpu {
                pc: le16_at(old(mem)@, 0xFFFC),
                cycles: (old(self).cycles + 6) as isize,
                ..*old(self)
            }),
            final(mem)@ == old(mem)@,
    {
        self.cycles += 6;
        let reset: u16 = mem.load16(0xFFFC);
        self.pc = reset;
    }

    /// Fetch phase: read the opcode byte at PC, advance PC and charge one
    /// cycle.
    pub(crate) fn fetch(&mut self, mem: &Memory)
        requires
            old(self).cycles < CYCLE_LIMIT + 16,
        ensures
            *final(self) == fetch_upd(*old(self), mem@),
    {
        let pc = self.pc;
        let val = mem.load8(pc);
        self.pc = pc.wrapping_add(1);
        self.cycles += 1;
        self.instruction.set(val);
    }

    /// Execute one whole instruction: fetch, decode with addressing, then
    /// run the selected handler.
    pub fn run_instr(&mut self, mem: &mut Memory)
        requires
            old(self).cycles < CYCLE_LIMIT,
        ensures
            (*final(self), final(mem)@) == step_spec(*old(self), old(mem)@),
    {
        self.fetch(mem);
        let op = self.decode(mem);
        self.current_instr = op;
        self.dispatch(mem, op);
    }

    /// Advance one phase of the fetch/decode/execute machine and return the
    /// cycles this phase took.
    pub fn run(&mut self, mem: &mut Memory) -> (r: isize)
        ensures
            (*final(self), final(mem)@) == tick_spec(*old(self), old(mem)@),
            r == final(self).cycles,
    {
        self.cycles = 0;
        match self.states {
            States::Fetch => {
                self.fetch(mem);
                self.states = States::Decode;
            },
            States::Decode => {
                let op = self.decode(mem);
                self.current_instr = op;
                self.states = States::Execute;
            },
            States::Execute => {
                let op = self.current_instr;
                self.dispatch(mem, op);
                self.states = States::Fetch;
            },
        }
        self.cycles
    }
}

} // verus!
