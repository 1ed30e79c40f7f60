//! The addressing unit and the decoder.
//!
//! Each mode routine consumes the operand bytes after the opcode,
//! advances PC and the cycle counter, and returns the effective address.
//! `decode` applies the mode the opcode byte selects and looks the
//! operation up in the dispatch table; both effects are specified by
//! [`crate::model::decode_upd`] and [`crate::model::decode_op`].

use vstd::prelude::*;

use crate::cpu::{Cpu, Op, CYCLE_LIMIT};
use crate::mem::{le16_at, rd, Memory};
use crate::model::{
    addr_of, decode_op, decode_op_c0, decode_op_c2, decode_upd, group1_op, group2_op, mode0,
    mode1, mode2, mode_upd, wadd16, wadd8,
};

verus! {

impl Cpu {
    /// Immediate: the operand byte itself is addressed.
    pub(crate) fn immediate(&mut self) -> (r: u16)
        ensures
            r == old(self).pc,
            *final(self) == (Cpu { pc: wadd16(old(self).pc, 1), ..*old(self) }),
    {
        let pc = self.pc;
        self.pc = pc.wrapping_add(1);
        pc
    }

    /// Zero page: one operand byte names a cell in the first page.
    pub(crate) fn zero_page(&mut self, mem: &Memory) -> (r: u16)
        requires
            old(self).cycles < CYCLE_LIMIT + 16,
        ensures
            r == rd(mem@, old(self).pc) as u16,
            *final(self) == (Cpu {
                pc: wadd16(old(self).pc, 1),
                cycles: (old(self).cycles + 1) as isize,
                ..*old(self)
            }),
    {
        let pc = self.pc;
        self.cycles += 1;
        let zp = mem.load8(pc);
        self.pc = pc.wrapping_add(1);
        zp as u16
    }

    /// Zero page indexed by X, wrapping within the page.
    pub(crate) fn zero_page_r(&mut self, mem: &Memory) -> (r: u16)
        requires
            old(self).cycles < CYCLE_LIMIT + 16,
        ensures
            r == wadd8(rd(mem@, old(self).pc), old(self).x) as u16,
            *final(self) == (Cpu {
                pc: wadd16(old(self).pc, 1),
                cycles: (old(self).cycles + 2) as isize,
                ..*old(self)
            }),
    {
        let pc = self.pc;
        let zpr = mem.load8(pc);
        self.pc = pc.wrapping_add(1);
        self.cycles += 2;
        zpr.wrapping_add(self.x) as u16
    }

    /// Zero page indexed for group 2: by Y for the X-register rows (STX,
    /// LDX), by X for the rest, wrapping within the page.
    pub(crate) fn zero_page_r2(&mut self, mem: &Memory) -> (r: u16)
        requires
            old(self).cycles < CYCLE_LIMIT + 16,
        ensures
            r == (if crate::instruction::op_aaa(old(self).instruction.0) == 4
                || crate::instruction::op_aaa(old(self).instruction.0) == 5 {
                wadd8(rd(mem@, old(self).pc), old(self).y) as u16
            } else {
                wadd8(rd(mem@, old(self).pc), old(self).x) as u16
            }),
            *final(self) == (Cpu {
                pc: wadd16(old(self).pc, 1),
                cycles: (old(self).cycles + 2) as isize,
                ..*old(self)
            }),
    {
        let pc = self.pc;
        let zpr = mem.load8(pc);
        self.pc = pc.wrapping_add(1);
        self.cycles += 2;
        match self.instruction.aaa() {
            4 | 5 => zpr.wrapping_add(self.y) as u16,
            _ => zpr.wrapping_add(self.x) as u16,
        }
    }

    /// Absolute: two operand bytes, little endian.
    pub(crate) fn absolute(&mut self, mem: &Memory) -> (r: u16)
        requires
            old(self).cycles < CYCLE_LIMIT + 16,
        ensures
            r == le16_at(mem@, old(self).pc),
            *final(self) == (Cpu {
                pc: wadd16(old(self).pc, 2),
                cycles: (old(self).cycles + 2) as isize,
                ..*old(self)
            }),
    {
        let pc = self.pc;
        let id = mem.load16(pc);
        self.pc = pc.wrapping_add(2);
        self.cycles += 2;
        id
    }

    /// Absolute indexed by X, wrapping at the top of memory.
    pub(crate) fn absolute_x(&mut self, mem: &Memory) -> (r: u16)
        requires
            old(self).cycles < CYCLE_LIMIT + 16,
        ensures
            r == wadd16(le16_at(mem@, old(self).pc), old(self).x as u16),
            *final(self) == (Cpu {
                pc: wadd16(old(self).pc, 2),
                cycles: (old(self).cycles + 3) as isize,
                ..*old(self)
            }),
    {
        let pc = self.pc;
        let idx = mem.load16(pc).wrapping_add(self.x as u16);
        self.pc = pc.wrapping_add(2);
        self.cycles += 3;
        idx
    }

    /// Absolute indexed by Y, wrapping at the top of memory.
    pub(crate) fn absolute_y(&mut self, mem: &Memory) -> (r: u16)
        requires
            old(self).cycles < CYCLE_LIMIT + 16,
        ensures
            r == wadd16(le16_at(mem@, old(self).pc), old(self).y as u16),
            *final(self) == (Cpu {
                pc: wadd16(old(self).pc, 2),
                cycles: (old(self).cycles + 3) as isize,
                ..*old(self)
            }),
    {
        let pc = self.pc;
        let idy = mem.load16(pc).wrapping_add(self.y as u16);
        self.pc = pc.wrapping_add(2);
        self.cycles += 3;
        idy
    }

    /// Indexed indirect `(zp,X)`: the operand byte plus X names a zero-page
    /// pointer, wrapping within the page.
    pub(crate) fn indexed_indirect(&mut self, mem: &Memory) -> (r: u16)
        requires
            old(self).cycles < CYCLE_LIMIT + 16,
        ensures
            r == le16_at(mem@, wadd8(rd(mem@, old(self).pc), old(self).x) as u16),
            *final(self) == (Cpu {
                pc: wadd16(old(self).pc, 1),
                cycles: (old(self).cycles + 4) as isize,
                ..*old(self)
            }),
    {
        let pc = self.pc;
        let id = mem.load8(pc).wrapping_add(self.x);
        self.pc = pc.wrapping_add(1);
        let ixid = mem.load16(id as u16);
        self.cycles += 4;
        ixid
    }

    /// Indirect indexed `(zp),Y`: the operand byte names a zero-page
    /// pointer whose value is indexed by Y.
    pub(crate) fn indirect_indexed(&mut self, mem: &Memory) -> (r: u16)
        requires
            old(self).cycles < CYCLE_LIMIT + 16,
        ensures
            r == wadd16(le16_at(mem@, rd(mem@, old(self).pc) as u16), old(self).y as u16),
            *final(self) == (Cpu {
                pc: wadd16(old(self).pc, 1),
                cycles: (old(self).cycles + 4) as isize,
                ..*old(self)
            }),
    {
        let pc = self.pc;
        let id = mem.load8(pc);
        let idix = mem.load16(id as u16);
        let idixy = idix.wrapping_add(self.y as u16);
        self.cycles += 4;
        self.pc = pc.wrapping_add(1);
        idixy
    }

    /// Group-0 addressing: resolve the mode `bbb` selects, or return `None`
    /// for the single-byte rows.
    pub(crate) fn addressing0(&mut self, mem: &Memory) -> (r: Option<u16>)
        requires
            old(self).cycles < CYCLE_LIMIT + 8,
        ensures
            r == addr_of(mode0(crate::instruction::op_bbb(old(self).instruction.0)), *old(self), mem@),
            *final(self) == (Cpu {
                addr: old(self).addr,
                ..mode_upd(
                    mode0(crate::instruction::op_bbb(old(self).instruction.0)),
                    *old(self),
                    mem@,
                )
            }),
    {
        match self.instruction.bbb() {
            1 => Some(self.zero_page(mem)),
            3 => Some(self.absolute(mem)),
            5 => Some(self.zero_page_r(mem)),
            7 => Some(self.absolute_x(mem)),
            _ => None,
        }
    }

    /// Group-1 addressing: every selector resolves to an address.
    pub(crate) fn addressing1(&mut self, mem: &Memory)
        requires
            old(self).cycles < CYCLE_LIMIT + 8,
        ensures
            *final(self) == mode_upd(
                mode1(crate::instruction::op_bbb(old(self).instruction.0)),
                *old(self),
                mem@,
            ),
    {
        let a = match self.instruction.bbb() {
            0 => self.indexed_indirect(mem),
            1 => self.zero_page(mem),
            2 => self.immediate(),
            3 => self.absolute(mem),
            4 => self.indirect_indexed(mem),
            5 => self.zero_page_r(mem),
            6 => self.absolute_y(mem),
            _ => self.absolute_x(mem),
        };
        self.addr = Some(a);
    }

    /// Group-2 addressing: the accumulator rows leave the address empty;
    /// the X-register rows index by Y.
    pub(crate) fn addressing2(&mut self, mem: &Memory)
        requires
            old(self).cycles < CYCLE_LIMIT + 8,
            old(self).addr is None,
        ensures
            *final(self) == mode_upd(
                mode2(
                    crate::instruction::op_aaa(old(self).instruction.0),
                    crate::instruction::op_bbb(old(self).instruction.0),
                ),
                *old(self),
                mem@,
            ),
    {
        let aaa = self.instruction.aaa();
        match self.instruction.bbb() {
            1 => {
                let a = self.zero_page(mem);
                self.addr = Some(a);
            },
            3 => {
                let a = self.absolute(mem);
                self.addr = Some(a);
            },
            5 => {
                let a = self.zero_page_r2(mem);
                self.addr = Some(a);
            },
            7 => {
                let a = if aaa == 4 || aaa == 5 {
                    self.absolute_y(mem)
                } else {
                    self.absolute_x(mem)
                };
                self.addr = Some(a);
            },
            _ => {
                self.addr = None;
            },
        }
    }

    /// Decode phase: charge one cycle, clear the effective address, run the
    /// addressing mode of the fetched opcode and return its operation.
    pub(crate) fn decode(&mut self, mem: &Memory) -> (r: Op)
        requires
            old(self).cycles < CYCLE_LIMIT + 2,
        ensures
            *final(self) == decode_upd(*old(self), mem@),
            r == decode_op(old(self).instruction.0),
    {
        self.cycles += 1;
        self.addr = None;
        let cc = self.instruction.cc();
        let aaa = self.instruction.aaa();
        let bbb = self.instruction.bbb();
        if cc == 0 {
            if bbb == 0 {
                if aaa == 1 {
                    let a = self.absolute(mem);
                    self.addr = Some(a);
                } else if aaa >= 4 {
                    let a = self.immediate();
                    self.addr = Some(a);
                }
            } else if bbb == 4 {
                // relative: the branch handler consumes the operand byte
            } else {
                if let Some(i) = self.addressing0(mem) {
                    self.addr = Some(i);
                }
            }
        } else if cc == 1 || cc == 3 {
            self.addressing1(mem);
        } else {
            if bbb == 0 {
                if aaa >= 4 {
                    let a = self.immediate();
                    self.addr = Some(a);
                }
            } else if bbb != 4 {
                self.addressing2(mem);
            }
        }
        self.op_lookup()
    }

    /// The group-1 operation row.
    fn group1_lookup(aaa: u8) -> (r: Op)
        ensures
            r == group1_op(aaa),
    {
        if aaa == 0 {
            Op::Ora
        } else if aaa == 1 {
            Op::And
        } else if aaa == 2 {
            Op::Eor
        } else if aaa == 3 {
            Op::Adc
        } else if aaa == 4 {
            Op::Sta
        } else if aaa == 5 {
            Op::Lda
        } else if aaa == 6 {
            Op::Cmp
        } else {
            Op::Sbc
        }
    }

    /// The group-2 operation row.
    fn group2_lookup(aaa: u8) -> (r: Op)
        ensures
            r == group2_op(aaa),
    {
        if aaa == 0 {
            Op::Asl
        } else if aaa == 1 {
            Op::Rol
        } else if aaa == 2 {
            Op::Lsr
        } else if aaa == 3 {
            Op::Ror
        } else if aaa == 4 {
            Op::Stx
        } else if aaa == 5 {
            Op::Ldx
        } else if aaa == 6 {
            Op::Dec
        } else {
            Op::Inc
        }
    }

    /// The 256-entry dispatch table, read off the opcode bitfields.
    pub(crate) fn op_lookup(&self) -> (r: Op)
        ensures
            r == decode_op(self.instruction.0),
    {
        let cc = self.instruction.cc();
        let aaa = self.instruction.aaa();
        let bbb = self.instruction.bbb();
        if cc == 0 {
            self.op_lookup_c0(aaa, bbb)
        } else if cc == 1 {
            if bbb == 2 && aaa == 4 {
                Op::Nop
            } else {
                Cpu::group1_lookup(aaa)
            }
        } else if cc == 2 {
            self.op_lookup_c2(aaa, bbb)
        } else {
            if bbb == 2 {
                if aaa <= 1 {
                    Op::Anc
                } else if aaa == 2 {
                    Op::Alr
                } else {
                    Op::Nop
                }
            } else if aaa == 0 {
                Op::Slo
            } else if aaa == 1 {
                Op::Rla
            } else if aaa == 2 {
                Op::Sre
            } else if aaa == 3 {
                Op::Rra
            } else {
                Op::Nop
            }
        }
    }

    /// Group-0 rows of the dispatch table.
    fn op_lookup_c0(&self, aaa: u8, bbb: u8) -> (r: Op)
        ensures
            r == decode_op_c0(aaa, bbb),
    {
        if bbb == 4 {
            Op::Relative
        } else if bbb == 0 {
            if aaa == 0 {
                Op::Brk
            } else if aaa == 1 {
                Op::Jsr
            } else if aaa == 2 {
                Op::Rti
            } else if aaa == 3 {
                Op::Rts
            } else if aaa == 5 {
                Op::Ldy
            } else if aaa == 6 {
                Op::Cpy
            } else if aaa == 7 {
                Op::Cpx
            } else {
                Op::Nop
            }
        } else if bbb == 2 {
            if aaa == 0 {
                Op::Php
            } else if aaa == 1 {
                Op::Plp
            } else if aaa == 2 {
                Op::Pha
            } else if aaa == 3 {
                Op::Pla
            } else if aaa == 4 {
                Op::Dey
            } else if aaa == 5 {
                Op::Tay
            } else if aaa == 6 {
                Op::Iny
            } else {
                Op::Inx
            }
        } else if bbb == 6 {
            if aaa == 0 {
                Op::Clc
            } else if aaa == 1 {
                Op::Sec
            } else if aaa == 2 {
                Op::Cli
            } else if aaa == 3 {
                Op::Sei
            } else if aaa == 4 {
                Op::Tya
            } else if aaa == 5 {
                Op::Clv
            } else if aaa == 6 {
                Op::Cld
            } else {
                Op::Sed
            }
        } else if bbb == 1 || bbb == 3 {
            if aaa == 1 {
                Op::Bit
            } else if aaa == 2 && bbb == 3 {
                Op::Jmp
            } else if aaa == 3 && bbb == 3 {
                Op::Jmi
            } else if aaa == 4 {
                Op::Sty
            } else if aaa == 5 {
                Op::Ldy
            } else if aaa == 6 {
                Op::Cpy
            } else if aaa == 7 {
                Op::Cpx
            } else {
                Op::Nop
            }
        } else {
            if aaa == 4 && bbb == 5 {
                Op::Sty
            } else if aaa == 5 {
                Op::Ldy
            } else {
                Op::Nop
            }
        }
    }

    /// Group-2 rows of the dispatch table.
    fn op_lookup_c2(&self, aaa: u8, bbb: u8) -> (r: Op)
        ensures
            r == decode_op_c2(aaa, bbb),
    {
        if bbb == 0 {
            if aaa <= 3 {
                Op::Jam
            } else if aaa == 5 {
                Op::Ldx
            } else {
                Op::Nop
            }
        } else if bbb == 4 {
            Op::Jam
        } else if bbb == 2 {
            if aaa <= 3 {
                Cpu::group2_lookup(aaa)
            } else if aaa == 4 {
                Op::Txa
            } else if aaa == 5 {
                Op::Tax
            } else if aaa == 6 {
                Op::Dex
            } else {
                Op::Nop
            }
        } else if bbb == 6 {
            if aaa == 4 {
                Op::Txs
            } else if aaa == 5 {
                Op::Tsx
            } else {
                Op::Nop
            }
        } else if bbb == 7 && aaa == 4 {
            Op::Nop
        } else {
            Cpu::group2_lookup(aaa)
        }
    }
}

} // verus!
