//! The execution unit: one handler per operation.
//!
//! Every handler is proved to realise its arm of
//! [`crate::model::exec_op`].  Handlers that take an effective address do
//! nothing when none was resolved; a complete decode never lets that
//! happen for the documented set.

use vstd::prelude::*;

use crate::cpu::{Cpu, Op, CYCLE_LIMIT};
use crate::flags::Flags;
use crate::mem::Memory;
use crate::model::{adc_a, adc_c, adc_v, bit_flags, exec_op, nz, nzc, nzco};

verus! {

impl Cpu {
    /// Recompute Z and N from a result byte.
    pub(crate) fn set_flags_z_n(&mut self, res: u8)
        ensures
            *final(self) == (Cpu { s: Flags(nz(old(self).s.0, res)), ..*old(self) }),
    {
        self.s.set_zero(res == 0);
        self.s.set_negative(res >= 0x80);
    }

    /// Recompute Z, N and C.
    pub(crate) fn set_flags_z_n_c(&mut self, res: u8, o: bool)
        ensures
            *final(self) == (Cpu { s: Flags(nzc(old(self).s.0, res, o)), ..*old(self) }),
    {
        self.set_flags_z_n(res);
        self.s.set_carry(o);
    }

    /// Recompute Z, N, V and C, as the arithmetic handlers leave them.
    pub(crate) fn set_flags_z_n_c_o(&mut self, res: u8, o: bool, c: bool)
        ensures
            *final(self) == (Cpu { s: Flags(nzco(old(self).s.0, res, o, c)), ..*old(self) }),
    {
        self.set_flags_z_n(res);
        self.s.set_overflow(o);
        self.s.set_carry(c);
    }

    /// Recompute Z from the masked result and copy N and V from the operand,
    /// as BIT leaves them.
    pub(crate) fn set_flags_z_n_o(&mut self, res: u8, m: u8)
        ensures
            *final(self) == (Cpu { s: Flags(bit_flags(old(self).s.0, res, m)), ..*old(self) }),
    {
        self.s.set_zero(res == 0);
        self.s.set_negative(m & 0x80 == 0x80);
        self.s.set_overflow(m & 0x40 == 0x40);
    }

    /// The shared heart of ADC, SBC and RRA: add `mv` and a carry into the
    /// accumulator and recompute Z, N, V and C.
    fn adc_core(&mut self, mv: u8, ci: bool)
        ensures
            *final(self) == (Cpu {
                a: adc_a(old(self).a, mv, ci),
                s: Flags(
                    nzco(
                        old(self).s.0,
                        adc_a(old(self).a, mv, ci),
                        adc_v(old(self).a, mv, ci),
                        adc_c(old(self).a, mv, ci),
                    ),
                ),
                ..*old(self)
            }),
    {
        let cin: u16 = if ci {
            1
        } else {
            0
        };
        let sum: u16 = self.a as u16 + mv as u16 + cin;
        let r: u8 = (sum % 256) as u8;
        let carry = sum > 255;
        let v = (self.a ^ r) & (mv ^ r) & 0x80 != 0;
        self.a = r;
        self.set_flags_z_n_c_o(r, v, carry);
    }

    /// An undocumented halt slot; here a no-op.
    fn JAM(&mut self, mem: &mut Memory)
        ensures
            (*final(self), final(mem)@) == exec_op(Op::Jam, *old(self), old(mem)@),
    {
    }

    /// No operation.
    fn NOP(&mut self, mem: &mut Memory)
        ensures
            (*final(self), final(mem)@) == exec_op(Op::Nop, *old(self), old(mem)@),
    {
    }

    /// OR the operand into the accumulator.
    fn ORA(&mut self, mem: &mut Memory)
        ensures
            (*final(self), final(mem)@) == exec_op(Op::Ora, *old(self), old(mem)@),
    {
        if let Some(addr) = self.addr {
            let m = mem.load8(addr);
            let a = self.a | m;
            self.set_flags_z_n(a);
            self.a = a;
        }
    }

    /// AND the operand into the accumulator.
    fn AND(&mut self, mem: &mut Memory)
        ensures
            (*final(self), final(mem)@) == exec_op(Op::And, *old(self), old(mem)@),
    {
        if let Some(addr) = self.addr {
            let m = mem.load8(addr);
            let a = self.a & m;
            self.set_flags_z_n(a);
            self.a = a;
        }
    }

    /// XOR the operand into the accumulator.
    fn EOR(&mut self, mem: &mut Memory)
        ensures
            (*final(self), final(mem)@) == exec_op(Op::Eor, *old(self), old(mem)@),
    {
        if let Some(addr) = self.addr {
            let m = mem.load8(addr);
            let a = self.a ^ m;
            self.set_flags_z_n(a);
            self.a = a;
        }
    }

    /// Add the operand and the carry into the accumulator.
    fn ADC(&mut self, mem: &mut Memory)
        ensures
            (*final(self), final(mem)@) == exec_op(Op::Adc, *old(self), old(mem)@),
    {
        if let Some(addr) = self.addr {
            let m = mem.load8(addr);
            let ci = self.s.get_carry();
            self.adc_core(m, ci);
        }
    }

    /// Subtract the operand with borrow: ADC of the complemented operand.
    fn SBC(&mut self, mem: &mut Memory)
        ensures
            (*final(self), final(mem)@) == exec_op(Op::Sbc, *old(self), old(mem)@),
    {
        if let Some(addr) = self.addr {
            let m = mem.load8(addr) ^ 0xFF;
            let ci = self.s.get_carry();
            self.adc_core(m, ci);
        }
    }

    /// Store the accumulator.
    fn STA(&mut self, mem: &mut Memory)
        ensures
            (*final(self), final(mem)@) == exec_op(Op::Sta, *old(self), old(mem)@),
    {
        if let Some(addr) = self.addr {
            let a = self.a;
            mem.store8(addr, a);
        }
    }

    /// Load the accumulator.
    fn LDA(&mut self, mem: &mut Memory)
        ensures
            (*final(self), final(mem)@) == exec_op(Op::Lda, *old(self), old(mem)@),
    {
        if let Some(addr) = self.addr {
            let val = mem.load8(addr);
            self.set_flags_z_n(val);
            self.a = val;
        }
    }

    /// Compare the accumulator with the operand.
    fn CMP(&mut self, mem: &mut Memory)
        ensures
            (*final(self), final(mem)@) == exec_op(Op::Cmp, *old(self), old(mem)@),
    {
        if let Some(addr) = self.addr {
            let val = mem.load8(addr);
            let res = self.a.wrapping_sub(val);
            let geq = self.a >= val;
            self.set_flags_z_n_c(res, geq);
        }
    }

    /// Arithmetic shift left, on memory or on the accumulator.
    fn ASL(&mut self, mem: &mut Memory)
        ensures
            (*final(self), final(mem)@) == exec_op(Op::Asl, *old(self), old(mem)@),
    {
        if let Some(addr) = self.addr {
            let m = mem.load8(addr);
            let r = ((m as u16 * 2) % 256) as u8;
            mem.store8(addr, r);
            self.set_flags_z_n_c(r, m >= 0x80);
        } else {
            let a = self.a;
            let r = ((a as u16 * 2) % 256) as u8;
            self.a = r;
            self.set_flags_z_n_c(r, a >= 0x80);
        }
    }

    /// Rotate left through the carry, on memory or on the accumulator.
    fn ROL(&mut self, mem: &mut Memory)
        ensures
            (*final(self), final(mem)@) == exec_op(Op::Rol, *old(self), old(mem)@),
    {
        let ci: u16 = if self.s.get_carry() {
            1
        } else {
            0
        };
        if let Some(addr) = self.addr {
            let m = mem.load8(addr);
            let r = ((m as u16 * 2 + ci) % 256) as u8;
            mem.store8(addr, r);
            self.set_flags_z_n_c(r, m >= 0x80);
        } else {
            let a = self.a;
            let r = ((a as u16 * 2 + ci) % 256) as u8;
            self.a = r;
            self.set_flags_z_n_c(r, a >= 0x80);
        }
    }

    /// Logical shift right, on memory or on the accumulator.
    fn LSR(&mut self, mem: &mut Memory)
        ensures
            (*final(self), final(mem)@) == exec_op(Op::Lsr, *old(self), old(mem)@),
    {
        if let Some(addr) = self.addr {
            let m = mem.load8(addr);
            let r = m / 2;
            mem.store8(addr, r);
            self.set_flags_z_n_c(r, m % 2 == 1);
        } else {
            let a = self.a;
            let r = a / 2;
            self.a = r;
            self.set_flags_z_n_c(r, a % 2 == 1);
        }
    }

    /// Rotate right through the carry, on memory or on the accumulator.
    fn ROR(&mut self, mem: &mut Memory)
        ensures
            (*final(self), final(mem)@) == exec_op(Op::Ror, *old(self), old(mem)@),
    {
        let ci: u8 = if self.s.get_carry() {
            128
        } else {
            0
        };
        if let Some(addr) = self.addr {
            let m = mem.load8(addr);
            let r = m / 2 + ci;
            mem.store8(addr, r);
            self.set_flags_z_n_c(r, m % 2 == 1);
        } else {
            let a = self.a;
            let r = a / 2 + ci;
            self.a = r;
            self.set_flags_z_n_c(r, a % 2 == 1);
        }
    }

    /// Store the X register.
    fn STX(&mut self, mem: &mut Memory)
        ensures
            (*final(self), final(mem)@) == exec_op(Op::Stx, *old(self), old(mem)@),
    {
        if let Some(addr) = self.addr {
            let x = self.x;
            mem.store8(addr, x);
        }
    }

    /// Load the X register.
    fn LDX(&mut self, mem: &mut Memory)
        ensures
            (*final(self), final(mem)@) == exec_op(Op::Ldx, *old(self), old(mem)@),
    {
        if let Some(addr) = self.addr {
            let val = mem.load8(addr);
            self.set_flags_z_n(val);
            self.x = val;
        }
    }

    /// Decrement the addressed byte.
    fn DEC(&mut self, mem: &mut Memory)
        ensures
            (*final(self), final(mem)@) == exec_op(Op::Dec, *old(self), old(mem)@),
    {
        if let Some(addr) = self.addr {
            let m = mem.load8(addr).wrapping_sub(1);
            mem.store8(addr, m);
            self.set_flags_z_n(m);
        }
    }

    /// Increment the addressed byte.
    fn INC(&mut self, mem: &mut Memory)
        ensures
            (*final(self), final(mem)@) == exec_op(Op::Inc, *old(self), old(mem)@),
    {
        if let Some(addr) = self.addr {
            let m = mem.load8(addr).wrapping_add(1);
            mem.store8(addr, m);
            self.set_flags_z_n(m);
        }
    }

    /// Bit test: Z from `A AND M`, N and V copied from the operand.
    fn BIT(&mut self, mem: &mut Memory)
        ensures
            (*final(self), final(mem)@) == exec_op(Op::Bit, *old(self), old(mem)@),
    {
        if let Some(addr) = self.addr {
            let m = mem.load8(addr);
            let res = self.a & m;
            self.set_flags_z_n_o(res, m);
        }
    }

    /// Absolute jump.
    fn JMP(&mut self, mem: &mut Memory)
        requires
            old(self).cycles < CYCLE_LIMIT + 8,
        ensures
            (*final(self), final(mem)@) == exec_op(Op::Jmp, *old(self), old(mem)@),
    {
        if let Some(addr) = self.addr {
            self.pc = addr;
            self.cycles += 2;
        }
    }

    /// Indirect jump, reproducing the 6502 page-wrap bug: the high byte of
    /// the target is fetched without carrying into the page byte.
    fn JMI(&mut self, mem: &mut Memory)
        ensures
            (*final(self), final(mem)@) == exec_op(Op::Jmi, *old(self), old(mem)@),
    {
        if let Some(addr) = self.addr {
            let val_l = mem.load8(addr);
            let addr_h = addr & 0xFF00;
            let addr_l = addr as u8;
            let addr2 = addr_h | (addr_l.wrapping_add(1) as u16);
            let val_h = mem.load8(addr2);
            self.pc = val_l as u16 + 256 * (val_h as u16);
        }
    }

    /// Store the Y register.
    fn STY(&mut self, mem: &mut Memory)
        ensures
            (*final(self), final(mem)@) == exec_op(Op::Sty, *old(self), old(mem)@),
    {
        if let Some(addr) = self.addr {
            let y = self.y;
            mem.store8(addr, y);
        }
    }

    /// Load the Y register.
    fn LDY(&mut self, mem: &mut Memory)
        ensures
            (*final(self), final(mem)@) == exec_op(Op::Ldy, *old(self), old(mem)@),
    {
        if let Some(addr) = self.addr {
            let m = mem.load8(addr);
            self.y = m;
            self.set_flags_z_n(m);
        }
    }

    /// Compare the Y register with the operand.
    fn CPY(&mut self, mem: &mut Memory)
        ensures
            (*final(self), final(mem)@) == exec_op(Op::Cpy, *old(self), old(mem)@),
    {
        if let Some(addr) = self.addr {
            let val = mem.load8(addr);
            let y = self.y;
            let res = y.wrapping_sub(val);
            self.set_flags_z_n_c(res, y >= val);
        }
    }

    /// Compare the X register with the operand.
    fn CPX(&mut self, mem: &mut Memory)
        ensures
            (*final(self), final(mem)@) == exec_op(Op::Cpx, *old(self), old(mem)@),
    {
        if let Some(addr) = self.addr {
            let val = mem.load8(addr);
            let x = self.x;
            let res = x.wrapping_sub(val);
            self.set_flags_z_n_c(res, x >= val);
        }
    }

    /// Software interrupt: push PC and the status with B set, disable
    /// interrupts and jump through the vector at `0xFFFE`.
    fn BRK(&mut self, mem: &mut Memory)
        requires
            old(self).cycles < CYCLE_LIMIT + 8,
        ensures
            (*final(self), final(mem)@) == exec_op(Op::Brk, *old(self), old(mem)@),
    {
        self.cycles += 5;
        let pc = self.pc;
        self.push8(mem, (pc / 256) as u8);
        self.push8(mem, (pc % 256) as u8);
        let s = self.s.get() | 0x10;
        self.push8(mem, s);
        self.s.set_interrupt(true);
        self.pc = mem.load16(0xFFFE);
    }

    /// Call: push the address of the last operand byte, high then low, and
    /// jump.
    fn JSR(&mut self, mem: &mut Memory)
        requires
            old(self).cycles < CYCLE_LIMIT + 8,
        ensures
            (*final(self), final(mem)@) == exec_op(Op::Jsr, *old(self), old(mem)@),
    {
        if let Some(addr) = self.addr {
            let ret = self.pc.wrapping_sub(1);
            self.push8(mem, (ret / 256) as u8);
            self.push8(mem, (ret % 256) as u8);
            self.pc = addr;
            self.cycles += 2;
        }
    }

    /// Return from interrupt: pop the status, then PC low, then PC high.
    fn RTI(&mut self, mem: &mut Memory)
        requires
            old(self).cycles < CYCLE_LIMIT + 8,
        ensures
            (*final(self), final(mem)@) == exec_op(Op::Rti, *old(self), old(mem)@),
    {
        self.in_nmi = false;
        self.cycles += 8;
        let p = self.pop8(mem);
        self.s.set((p | 0x20) & 0xEF);
        let lo = self.pop8(mem);
        let hi = self.pop8(mem);
        self.pc = lo as u16 + 256 * (hi as u16);
    }

    /// Return from subroutine: pop low then high, and resume one past the
    /// popped address.
    fn RTS(&mut self, mem: &mut Memory)
        requires
            old(self).cycles < CYCLE_LIMIT + 8,
        ensures
            (*final(self), final(mem)@) == exec_op(Op::Rts, *old(self), old(mem)@),
    {
        self.cycles += 4;
        let lo = self.pop8(mem);
        let hi = self.pop8(mem);
        let ret = lo as u16 + 256 * (hi as u16);
        self.pc = ret.wrapping_add(1);
    }

    /// Push the status with B and the reserved bit forced on.
    fn PHP(&mut self, mem: &mut Memory)
        requires
            old(self).cycles < CYCLE_LIMIT + 8,
        ensures
            (*final(self), final(mem)@) == exec_op(Op::Php, *old(self), old(mem)@),
    {
        let s = self.s.get() | 0x30;
        self.push8(mem, s);
        self.cycles += 1;
    }

    /// Pop the status, forcing the reserved bit on and B off.
    fn PLP(&mut self, mem: &mut Memory)
        requires
            old(self).cycles < CYCLE_LIMIT + 8,
        ensures
            (*final(self), final(mem)@) == exec_op(Op::Plp, *old(self), old(mem)@),
    {
        let p = self.pop8(mem);
        self.s.set((p | 0x20) & 0xEF);
        self.cycles += 2;
    }

    /// Push the accumulator.
    fn PHA(&mut self, mem: &mut Memory)
        requires
            old(self).cycles < CYCLE_LIMIT + 8,
        ensures
            (*final(self), final(mem)@) == exec_op(Op::Pha, *old(self), old(mem)@),
    {
        let a = self.a;
        self.push8(mem, a);
        self.cycles += 1;
    }

    /// Pop the accumulator and recompute Z and N from it.
    fn PLA(&mut self, mem: &mut Memory)
        requires
            old(self).cycles < CYCLE_LIMIT + 8,
        ensures
            (*final(self), final(mem)@) == exec_op(Op::Pla, *old(self), old(mem)@),
    {
        let a = self.pop8(mem);
        self.a = a;
        self.set_flags_z_n(a);
        self.cycles += 2;
    }

    /// Decrement Y.
    fn DEY(&mut self, mem: &mut Memory)
        ensures
            (*final(self), final(mem)@) == exec_op(Op::Dey, *old(self), old(mem)@),
    {
        let y = self.y.wrapping_sub(1);
        self.y = y;
        self.set_flags_z_n(y);
    }

    /// Copy A to Y.
    fn TAY(&mut self, mem: &mut Memory)
        ensures
            (*final(self), final(mem)@) == exec_op(Op::Tay, *old(self), old(mem)@),
    {
        let a = self.a;
        self.y = a;
        self.set_flags_z_n(a);
    }

    /// Increment Y.
    fn INY(&mut self, mem: &mut Memory)
        ensures
            (*final(self), final(mem)@) == exec_op(Op::Iny, *old(self), old(mem)@),
    {
        let y = self.y.wrapping_add(1);
        self.y = y;
        self.set_flags_z_n(y);
    }

    /// Increment X.
    fn INX(&mut self, mem: &mut Memory)
        ensures
            (*final(self), final(mem)@) == exec_op(Op::Inx, *old(self), old(mem)@),
    {
        let x = self.x.wrapping_add(1);
        self.x = x;
        self.set_flags_z_n(x);
    }

    /// Clear the carry flag.
    fn CLC(&mut self, mem: &mut Memory)
        ensures
            (*final(self), final(mem)@) == exec_op(Op::Clc, *old(self), old(mem)@),
    {
        self.s.set_carry(false);
    }

    /// Set the carry flag.
    fn SEC(&mut self, mem: &mut Memory)
        ensures
            (*final(self), final(mem)@) == exec_op(Op::Sec, *old(self), old(mem)@),
    {
        self.s.set_carry(true);
    }

    /// Clear the interrupt-disable flag.
    fn CLI(&mut self, mem: &mut Memory)
        ensures
            (*final(self), final(mem)@) == exec_op(Op::Cli, *old(self), old(mem)@),
    {
        self.s.set_interrupt(false);
    }

    /// Set the interrupt-disable flag.
    fn SEI(&mut self, mem: &mut Memory)
        ensures
            (*final(self), final(mem)@) == exec_op(Op::Sei, *old(self), old(mem)@),
    {
        self.s.set_interrupt(true);
    }

    /// Copy Y to A.
    fn TYA(&mut self, mem: &mut Memory)
        ensures
            (*final(self), final(mem)@) == exec_op(Op::Tya, *old(self), old(mem)@),
    {
        let y = self.y;
        self.a = y;
        self.set_flags_z_n(y);
    }

    /// Clear the overflow flag.
    fn CLV(&mut self, mem: &mut Memory)
        ensures
            (*final(self), final(mem)@) == exec_op(Op::Clv, *old(self), old(mem)@),
    {
        self.s.set_overflow(false);
    }

    /// Clear the decimal flag.
    fn CLD(&mut self, mem: &mut Memory)
        ensures
            (*final(self), final(mem)@) == exec_op(Op::Cld, *old(self), old(mem)@),
    {
        self.s.set_decimal(false);
    }

    /// Set the decimal flag.
    fn SED(&mut self, mem: &mut Memory)
        ensures
            (*final(self), final(mem)@) == exec_op(Op::Sed, *old(self), old(mem)@),
    {
        self.s.set_decimal(true);
    }

    /// Copy X to A.
    fn TXA(&mut self, mem: &mut Memory)
        ensures
            (*final(self), final(mem)@) == exec_op(Op::Txa, *old(self), old(mem)@),
    {
        let x = self.x;
        self.a = x;
        self.set_flags_z_n(x);
    }

    /// Copy X to SP; no flags.
    fn TXS(&mut self, mem: &mut Memory)
        ensures
            (*final(self), final(mem)@) == exec_op(Op::Txs, *old(self), old(mem)@),
    {
        self.sp = self.x;
    }

    /// Copy A to X.
    fn TAX(&mut self, mem: &mut Memory)
        ensures
            (*final(self), final(mem)@) == exec_op(Op::Tax, *old(self), old(mem)@),
    {
        let a = self.a;
        self.x = a;
        self.set_flags_z_n(a);
    }

    /// Copy SP to X.
    fn TSX(&mut self, mem: &mut Memory)
        ensures
            (*final(self), final(mem)@) == exec_op(Op::Tsx, *old(self), old(mem)@),
    {
        let s = self.sp;
        self.x = s;
        self.set_flags_z_n(s);
    }

    /// Decrement X.
    fn DEX(&mut self, mem: &mut Memory)
        ensures
            (*final(self), final(mem)@) == exec_op(Op::Dex, *old(self), old(mem)@),
    {
        let x = self.x.wrapping_sub(1);
        self.x = x;
        self.set_flags_z_n(x);
    }

    /// Shift the addressed byte left, then OR it into the accumulator
    /// (undocumented).
    fn SLO(&mut self, mem: &mut Memory)
        ensures
            (*final(self), final(mem)@) == exec_op(Op::Slo, *old(self), old(mem)@),
    {
        if let Some(addr) = self.addr {
            let m = mem.load8(addr);
            let r = ((m as u16 * 2) % 256) as u8;
            mem.store8(addr, r);
            let a = self.a | r;
            self.a = a;
            self.set_flags_z_n_c(a, m >= 0x80);
        }
    }

    /// Rotate the addressed byte left, then AND it into the accumulator
    /// (undocumented).
    fn RLA(&mut self, mem: &mut Memory)
        ensures
            (*final(self), final(mem)@) == exec_op(Op::Rla, *old(self), old(mem)@),
    {
        if let Some(addr) = self.addr {
            let ci: u16 = if self.s.get_carry() {
                1
            } else {
                0
            };
            let m = mem.load8(addr);
            let r = ((m as u16 * 2 + ci) % 256) as u8;
            mem.store8(addr, r);
            let a = self.a & r;
            self.a = a;
            self.set_flags_z_n_c(a, m >= 0x80);
        }
    }

    /// Shift the addressed byte right, then XOR it into the accumulator
    /// (undocumented).
    fn SRE(&mut self, mem: &mut Memory)
        ensures
            (*final(self), final(mem)@) == exec_op(Op::Sre, *old(self), old(mem)@),
    {
        if let Some(addr) = self.addr {
            let m = mem.load8(addr);
            let r = m / 2;
            mem.store8(addr, r);
            let a = self.a ^ r;
            self.a = a;
            self.set_flags_z_n_c(a, m % 2 == 1);
        }
    }

    /// Rotate the addressed byte right, then add it with the shifted-out
    /// carry into the accumulator (undocumented).
    fn RRA(&mut self, mem: &mut Memory)
        ensures
            (*final(self), final(mem)@) == exec_op(Op::Rra, *old(self), old(mem)@),
    {
        if let Some(addr) = self.addr {
            let ci: u8 = if self.s.get_carry() {
                128
            } else {
                0
            };
            let m = mem.load8(addr);
            let r = m / 2 + ci;
            mem.store8(addr, r);
            self.adc_core(r, m % 2 == 1);
        }
    }

    /// AND the immediate operand into the accumulator and copy N into the
    /// carry (undocumented).
    fn ANC(&mut self, mem: &mut Memory)
        ensures
            (*final(self), final(mem)@) == exec_op(Op::Anc, *old(self), old(mem)@),
    {
        if let Some(addr) = self.addr {
            let m = mem.load8(addr);
            let a = self.a & m;
            self.a = a;
            self.set_flags_z_n_c(a, a >= 0x80);
        }
    }

    /// AND the immediate operand into the accumulator, then shift the
    /// accumulator right (undocumented).
    fn ALR(&mut self, mem: &mut Memory)
        ensures
            (*final(self), final(mem)@) == exec_op(Op::Alr, *old(self), old(mem)@),
    {
        if let Some(addr) = self.addr {
            let m = mem.load8(addr);
            let t = self.a & m;
            let r = t / 2;
            self.a = r;
            self.set_flags_z_n_c(r, t % 2 == 1);
        }
    }

    /// Run the handler the decoded operation selects.
    pub(crate) fn dispatch(&mut self, mem: &mut Memory, op: Op)
        requires
            old(self).cycles < CYCLE_LIMIT + 8,
        ensures
            (*final(self), final(mem)@) == exec_op(op, *old(self), old(mem)@),
    {
        match op {
            Op::Adc => self.ADC(mem),
            Op::Alr => self.ALR(mem),
            Op::Anc => self.ANC(mem),
            Op::And => self.AND(mem),
            Op::Asl => self.ASL(mem),
            Op::Bit => self.BIT(mem),
            Op::Brk => self.BRK(mem),
            Op::Clc => self.CLC(mem),
            Op::Cld => self.CLD(mem),
            Op::Cli => self.CLI(mem),
            Op::Clv => self.CLV(mem),
            Op::Cmp => self.CMP(mem),
            Op::Cpx => self.CPX(mem),
            Op::Cpy => self.CPY(mem),
            Op::Dec => self.DEC(mem),
            Op::Dex => self.DEX(mem),
            Op::Dey => self.DEY(mem),
            Op::Eor => self.EOR(mem),
            Op::Inc => self.INC(mem),
            Op::Inx => self.INX(mem),
            Op::Iny => self.INY(mem),
            Op::Jam => self.JAM(mem),
            Op::Jmi => self.JMI(mem),
            Op::Jmp => self.JMP(mem),
            Op::Jsr => self.JSR(mem),
            Op::Lda => self.LDA(mem),
            Op::Ldx => self.LDX(mem),
            Op::Ldy => self.LDY(mem),
            Op::Lsr => self.LSR(mem),
            Op::Nop => self.NOP(mem),
            Op::Ora => self.ORA(mem),
            Op::Pha => self.PHA(mem),
            Op::Php => self.PHP(mem),
            Op::Pla => self.PLA(mem),
            Op::Plp => self.PLP(mem),
            Op::Relative => self.relative(mem),
            Op::Rla => self.RLA(mem),
            Op::Rol => self.ROL(mem),
            Op::Ror => self.ROR(mem),
            Op::Rra => self.RRA(mem),
            Op::Rti => self.RTI(mem),
            Op::Rts => self.RTS(mem),
            Op::Sbc => self.SBC(mem),
            Op::Sec => self.SEC(mem),
            Op::Sed => self.SED(mem),
            Op::Sei => self.SEI(mem),
            Op::Slo => self.SLO(mem),
            Op::Sre => self.SRE(mem),
            Op::Sta => self.STA(mem),
            Op::Stx => self.STX(mem),
            Op::Sty => self.STY(mem),
            Op::Tax => self.TAX(mem),
            Op::Tay => self.TAY(mem),
            Op::Tsx => self.TSX(mem),
            Op::Txa => self.TXA(mem),
            Op::Txs => self.TXS(mem),
            Op::Tya => self.TYA(mem),
        }
    }

    /// A conditional branch: test the selected flag against the required
    /// polarity; when it matches, land the sign-extended offset away and
    /// pay one extra cycle, or two when the offset computation crosses a
    /// page.
    pub(crate) fn relative(&mut self, mem: &Memory)
        requires
            old(self).cycles < CYCLE_LIMIT + 8,
        ensures
            *final(self) == exec_op(Op::Relative, *old(self), mem@).0,
    {
        let xx = self.instruction.xx();
        let yv = self.instruction.y();
        let f = if xx == 0 {
            self.s.get_negative()
        } else if xx == 1 {
            self.s.get_overflow()
        } else if xx == 2 {
            self.s.get_carry()
        } else {
            self.s.get_zero()
        };
        if f == yv {
            self.branch(mem);
        }
        self.pc = self.pc.wrapping_add(1);
    }

    /// Apply the sign-extended branch offset to the operand byte's address
    /// and charge the taken-branch cycles.
    pub(crate) fn branch(&mut self, mem: &Memory)
        requires
            old(self).cycles < CYCLE_LIMIT + 12,
        ensures
            *final(self) == (Cpu {
                pc: crate::model::branch_target(old(self).pc, crate::mem::rd(mem@, old(self).pc)),
                cycles: (old(self).cycles + (if crate::model::page_crossed(
                    old(self).pc,
                    crate::model::branch_target(old(self).pc, crate::mem::rd(mem@, old(self).pc)),
                ) {
                    2int
                } else {
                    1int
                })) as isize,
                ..*old(self)
            }),
    {
        let pc = self.pc;
        let off = mem.load8(pc);
        let delta: u16 = if off < 0x80 {
            off as u16
        } else {
            off as u16 + 0xFF00
        };
        self.pc = pc.wrapping_add(delta);
        self.cycles += 1;
        if pc / 256 != self.pc / 256 {
            self.cycles += 1;
        }
    }
}

} // verus!
