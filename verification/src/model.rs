//! Mathematical model of the 6502 core.
//!
//! Everything here is specification: pure functions over the CPU state and
//! a memory image (`Seq<u8>`).  The decode tables (`decode_op`,
//! `decode_mode`), the addressing-mode effects (`mode_upd`), the
//! per-operation semantics (`exec_op`) and the drivers (`step_spec`,
//! `tick_spec`) together say what one instruction does; the executable
//! core is proved to follow them.

use vstd::prelude::*;

use crate::cpu::{Cpu, Op, States};
use crate::flags::{
    flag_c, flag_i, flag_n, flag_v, flag_z, set_flag, Flags, CARRY, DECIMAL, INTERRUPT, NEGATIVE,
    OVERFLOW, ZERO,
};
use crate::instruction::{op_aaa, op_bbb, op_cc, op_xx, op_y, Instruction};
use crate::mem::{le16_at, rd};

verus! {

// ---------------------------------------------------------------------------
// Wrap-around arithmetic
// ---------------------------------------------------------------------------
/// 8-bit addition modulo 256.
pub open spec fn wadd8(x: u8, y: u8) -> u8 {
    if x + y > 0xFF {
        (x + y - 0x100) as u8
    } else {
        (x + y) as u8
    }
}

/// 8-bit subtraction modulo 256.
pub open spec fn wsub8(x: u8, y: u8) -> u8 {
    if x - y < 0 {
        (x - y + 0x100) as u8
    } else {
        (x - y) as u8
    }
}

/// 16-bit addition modulo 65536.
pub open spec fn wadd16(x: u16, y: u16) -> u16 {
    if x + y > 0xFFFF {
        (x + y - 0x10000) as u16
    } else {
        (x + y) as u16
    }
}

/// 16-bit subtraction modulo 65536.
pub open spec fn wsub16(x: u16, y: u16) -> u16 {
    if x - y < 0 {
        (x - y + 0x10000) as u16
    } else {
        (x - y) as u16
    }
}

// ---------------------------------------------------------------------------
// Flag recomputation
// ---------------------------------------------------------------------------
/// Status byte with Z and N recomputed from a result byte.
pub open spec fn nz(p: u8, r: u8) -> u8 {
    set_flag(set_flag(p, ZERO, r == 0), NEGATIVE, r >= 0x80)
}

/// Status byte with Z, N and C recomputed.
pub open spec fn nzc(p: u8, r: u8, c: bool) -> u8 {
    set_flag(nz(p, r), CARRY, c)
}

/// Status byte with Z, N, V and C recomputed, as arithmetic leaves it.
pub open spec fn nzco(p: u8, r: u8, v: bool, c: bool) -> u8 {
    set_flag(set_flag(nz(p, r), OVERFLOW, v), CARRY, c)
}

/// Status byte as BIT leaves it: Z from the masked result, N and V copied
/// from bits 7 and 6 of the operand.
pub open spec fn bit_flags(p: u8, r: u8, m: u8) -> u8 {
    set_flag(set_flag(set_flag(p, ZERO, r == 0), NEGATIVE, m & 0x80 == 0x80), OVERFLOW, m & 0x40
        == 0x40)
}

// ---------------------------------------------------------------------------
// Arithmetic semantics
// ---------------------------------------------------------------------------
/// The 17-bit sum `A + M + C` behind ADC.
pub open spec fn adc_sum(a: u8, m: u8, c: bool) -> int {
    a + m + (if c {
        1int
    } else {
        0int
    })
}

/// The accumulator ADC leaves: the low byte of the sum.
pub open spec fn adc_a(a: u8, m: u8, c: bool) -> u8 {
    (adc_sum(a, m, c) % 256) as u8
}

/// The carry ADC leaves: whether the sum overflowed a byte.
pub open spec fn adc_c(a: u8, m: u8, c: bool) -> bool {
    adc_sum(a, m, c) > 255
}

/// The overflow flag ADC leaves: set when the operands agree in sign and
/// the result disagrees with them.
pub open spec fn adc_v(a: u8, m: u8, c: bool) -> bool {
    (a ^ adc_a(a, m, c)) & (m ^ adc_a(a, m, c)) & 0x80 != 0
}

/// Left shift of one byte, the high bit falling into the carry.
pub open spec fn asl_r(v: u8) -> u8 {
    ((2 * v) % 256) as u8
}

/// Left rotate of one byte through the carry.
pub open spec fn rol_r(v: u8, ci: bool) -> u8 {
    ((2 * v + (if ci {
        1int
    } else {
        0int
    })) % 256) as u8
}

/// Right shift of one byte.
pub open spec fn lsr_r(v: u8) -> u8 {
    v / 2
}

/// Right rotate of one byte through the carry.
pub open spec fn ror_r(v: u8, ci: bool) -> u8 {
    (v / 2 + (if ci {
        128int
    } else {
        0int
    })) as u8
}

// ---------------------------------------------------------------------------
// Stack and branches
// ---------------------------------------------------------------------------
/// The stack cell a stack pointer designates.
pub open spec fn stk(sp: u8) -> u16 {
    (0x100 + sp) as u16
}

/// A branch offset sign-extended to 16 bits.
pub open spec fn branch_off(off: u8) -> u16 {
    if off < 0x80 {
        off as u16
    } else {
        (off + 0xFF00) as u16
    }
}

/// Where a taken branch lands, counted from the operand byte's address.
pub open spec fn branch_target(pc: u16, off: u8) -> u16 {
    wadd16(pc, branch_off(off))
}

/// Whether two addresses sit on different 256-byte pages.
pub open spec fn page_crossed(a: u16, b: u16) -> bool {
    a / 256 != b / 256
}

/// The flag a branch tests, selected by the `xx` field.
pub open spec fn branch_flag(p: u8, xx: u8) -> bool {
    if xx == 0 {
        flag_n(p)
    } else if xx == 1 {
        flag_v(p)
    } else if xx == 2 {
        flag_c(p)
    } else {
        flag_z(p)
    }
}

/// The address the high byte of an indirect jump is fetched from: the
/// successor of `a` with the page byte held fixed, reproducing the 6502
/// page-wrap bug.
pub open spec fn jmi_next(a: u16) -> u16 {
    (a & 0xFF00) | (wadd8(a as u8, 1) as u16)
}

// ---------------------------------------------------------------------------
// Addressing modes
// ---------------------------------------------------------------------------
/// The thirteen ways an instruction designates its operand.  `Imp` covers
/// the implied and accumulator forms, which consume no operand bytes.
#[derive(Copy, Clone, PartialEq, Eq, Structural, Debug)]
pub enum Mode {
    Imp,
    Imm,
    Zp,
    ZpX,
    ZpY,
    Abs,
    AbsX,
    AbsY,
    IndX,
    IndY,
    Rel,
}

/// How many operand bytes a mode consumes.
pub open spec fn mode_len(mode: Mode) -> u16 {
    match mode {
        Mode::Imp => 0,
        Mode::Rel => 0,
        Mode::Imm => 1,
        Mode::Zp => 1,
        Mode::ZpX => 1,
        Mode::ZpY => 1,
        Mode::IndX => 1,
        Mode::IndY => 1,
        Mode::Abs => 2,
        Mode::AbsX => 2,
        Mode::AbsY => 2,
    }
}

/// The cycles a mode charges during decode.
pub open spec fn mode_cost(mode: Mode) -> int {
    match mode {
        Mode::Imp => 0,
        Mode::Rel => 0,
        Mode::Imm => 0,
        Mode::Zp => 1,
        Mode::ZpX => 2,
        Mode::ZpY => 2,
        Mode::Abs => 2,
        Mode::AbsX => 3,
        Mode::AbsY => 3,
        Mode::IndX => 4,
        Mode::IndY => 4,
    }
}

/// The effective address a mode resolves to, with PC at the first operand
/// byte; `None` for the modes that take no address.
pub open spec fn addr_of(mode: Mode, c: Cpu, m: Seq<u8>) -> Option<u16> {
    match mode {
        Mode::Imp => None,
        Mode::Rel => None,
        Mode::Imm => Some(c.pc),
        Mode::Zp => Some(rd(m, c.pc) as u16),
        Mode::ZpX => Some(wadd8(rd(m, c.pc), c.x) as u16),
        Mode::ZpY => Some(wadd8(rd(m, c.pc), c.y) as u16),
        Mode::Abs => Some(le16_at(m, c.pc)),
        Mode::AbsX => Some(wadd16(le16_at(m, c.pc), c.x as u16)),
        Mode::AbsY => Some(wadd16(le16_at(m, c.pc), c.y as u16)),
        Mode::IndX => Some(le16_at(m, wadd8(rd(m, c.pc), c.x) as u16)),
        Mode::IndY => Some(wadd16(le16_at(m, rd(m, c.pc) as u16), c.y as u16)),
    }
}

/// A mode's whole effect on the state: store the effective address, consume
/// the operand bytes, charge the mode's cycles.
pub open spec fn mode_upd(mode: Mode, c: Cpu, m: Seq<u8>) -> Cpu {
    match mode {
        Mode::Imp => c,
        Mode::Rel => c,
        _ => Cpu {
            addr: addr_of(mode, c, m),
            pc: wadd16(c.pc, mode_len(mode)),
            cycles: (c.cycles + mode_cost(mode)) as isize,
            ..c
        },
    }
}

// ---------------------------------------------------------------------------
// Decode tables
// ---------------------------------------------------------------------------
/// Group-0 addressing by `bbb` (the single-byte rows decode separately).
pub open spec fn mode0(bbb: u8) -> Mode {
    if bbb == 1 {
        Mode::Zp
    } else if bbb == 3 {
        Mode::Abs
    } else if bbb == 5 {
        Mode::ZpX
    } else if bbb == 7 {
        Mode::AbsX
    } else {
        Mode::Imp
    }
}

/// Group-1 addressing by `bbb`; group 3 shares it.
pub open spec fn mode1(bbb: u8) -> Mode {
    if bbb == 0 {
        Mode::IndX
    } else if bbb == 1 {
        Mode::Zp
    } else if bbb == 2 {
        Mode::Imm
    } else if bbb == 3 {
        Mode::Abs
    } else if bbb == 4 {
        Mode::IndY
    } else if bbb == 5 {
        Mode::ZpX
    } else if bbb == 6 {
        Mode::AbsY
    } else {
        Mode::AbsX
    }
}

/// Group-2 addressing by `aaa` and `bbb`: the X/Y-register transfers index
/// by Y where the rest index by X.
pub open spec fn mode2(aaa: u8, bbb: u8) -> Mode {
    if bbb == 1 {
        Mode::Zp
    } else if bbb == 3 {
        Mode::Abs
    } else if bbb == 5 {
        if aaa == 4 || aaa == 5 {
            Mode::ZpY
        } else {
            Mode::ZpX
        }
    } else if bbb == 7 {
        if aaa == 4 || aaa == 5 {
            Mode::AbsY
        } else {
            Mode::AbsX
        }
    } else {
        Mode::Imp
    }
}

/// The addressing mode of an opcode byte.
pub open spec fn decode_mode(b: u8) -> Mode {
    let aaa = op_aaa(b);
    let bbb = op_bbb(b);
    let cc = op_cc(b);
    if cc == 0 {
        if bbb == 0 {
            if aaa == 1 {
                Mode::Abs  // JSR takes its target during decode
            } else if aaa >= 4 {
                Mode::Imm
            } else {
                Mode::Imp  // BRK, RTI, RTS drive PC themselves
            }
        } else if bbb == 4 {
            Mode::Rel
        } else {
            mode0(bbb)
        }
    } else if cc == 1 || cc == 3 {
        mode1(bbb)
    } else {
        if bbb == 0 {
            if aaa >= 4 {
                Mode::Imm
            } else {
                Mode::Imp  // the low immediate slots of group 2 jam
            }
        } else if bbb == 4 {
            Mode::Imp  // jams
        } else {
            mode2(aaa, bbb)
        }
    }
}

/// The group-1 operation row.
pub open spec fn group1_op(aaa: u8) -> Op {
    if aaa == 0 {
        Op::Ora
    } else if aaa == 1 {
        Op::And
    } else if aaa == 2 {
        Op::Eor
    } else if aaa == 3 {
        Op::Adc
    } else if aaa == 4 {
        Op::Sta
    } else if aaa == 5 {
        Op::Lda
    } else if aaa == 6 {
        Op::Cmp
    } else {
        Op::Sbc
    }
}

/// The group-2 operation row.
pub open spec fn group2_op(aaa: u8) -> Op {
    if aaa == 0 {
        Op::Asl
    } else if aaa == 1 {
        Op::Rol
    } else if aaa == 2 {
        Op::Lsr
    } else if aaa == 3 {
        Op::Ror
    } else if aaa == 4 {
        Op::Stx
    } else if aaa == 5 {
        Op::Ldx
    } else if aaa == 6 {
        Op::Dec
    } else {
        Op::Inc
    }
}

/// Group-0 operations by `aaa` and `bbb`.
pub open spec fn decode_op_c0(aaa: u8, bbb: u8) -> Op {
    if bbb == 4 {
        Op::Relative
    } else if bbb == 0 {
        if aaa == 0 {
            Op::Brk
        } else if aaa == 1 {
            Op::Jsr
        } else if aaa == 2 {
            Op::Rti
        } else if aaa == 3 {
            Op::Rts
        } else if aaa == 5 {
            Op::Ldy
        } else if aaa == 6 {
            Op::Cpy
        } else if aaa == 7 {
            Op::Cpx
        } else {
            Op::Nop
        }
    } else if bbb == 2 {
        if aaa == 0 {
            Op::Php
        } else if aaa == 1 {
            Op::Plp
        } else if aaa == 2 {
            Op::Pha
        } else if aaa == 3 {
            Op::Pla
        } else if aaa == 4 {
            Op::Dey
        } else if aaa == 5 {
            Op::Tay
        } else if aaa == 6 {
            Op::Iny
        } else {
            Op::Inx
        }
    } else if bbb == 6 {
        if aaa == 0 {
            Op::Clc
        } else if aaa == 1 {
            Op::Sec
        } else if aaa == 2 {
            Op::Cli
        } else if aaa == 3 {
            Op::Sei
        } else if aaa == 4 {
            Op::Tya
        } else if aaa == 5 {
            Op::Clv
        } else if aaa == 6 {
            Op::Cld
        } else {
            Op::Sed
        }
    } else if bbb == 1 || bbb == 3 {
        if aaa == 1 {
            Op::Bit
        } else if aaa == 2 && bbb == 3 {
            Op::Jmp
        } else if aaa == 3 && bbb == 3 {
            Op::Jmi
        } else if aaa == 4 {
            Op::Sty
        } else if aaa == 5 {
            Op::Ldy
        } else if aaa == 6 {
            Op::Cpy
        } else if aaa == 7 {
            Op::Cpx
        } else {
            Op::Nop
        }
    } else {
        // bbb 5 or 7: LDY and STY rows, undocumented NOPs elsewhere
        if aaa == 4 && bbb == 5 {
            Op::Sty
        } else if aaa == 5 {
            Op::Ldy
        } else {
            Op::Nop
        }
    }
}

/// Group-2 operations by `aaa` and `bbb`.
pub open spec fn decode_op_c2(aaa: u8, bbb: u8) -> Op {
    if bbb == 0 {
        if aaa <= 3 {
            Op::Jam
        } else if aaa == 5 {
            Op::Ldx
        } else {
            Op::Nop
        }
    } else if bbb == 4 {
        Op::Jam
    } else if bbb == 2 {
        if aaa <= 3 {
            group2_op(aaa)  // accumulator-addressed shifts
        } else if aaa == 4 {
            Op::Txa
        } else if aaa == 5 {
            Op::Tax
        } else if aaa == 6 {
            Op::Dex
        } else {
            Op::Nop
        }
    } else if bbb == 6 {
        if aaa == 4 {
            Op::Txs
        } else if aaa == 5 {
            Op::Tsx
        } else {
            Op::Nop
        }
    } else if bbb == 7 && aaa == 4 {
        Op::Nop
    } else {
        group2_op(aaa)
    }
}

/// Group-3 (undocumented) operations by `aaa` and `bbb`.
pub open spec fn decode_op_c3(aaa: u8, bbb: u8) -> Op {
    if bbb == 2 {
        if aaa <= 1 {
            Op::Anc
        } else if aaa == 2 {
            Op::Alr
        } else {
            Op::Nop
        }
    } else if aaa == 0 {
        Op::Slo
    } else if aaa == 1 {
        Op::Rla
    } else if aaa == 2 {
        Op::Sre
    } else if aaa == 3 {
        Op::Rra
    } else {
        Op::Nop
    }
}

/// The operation of an opcode byte: the whole 256-entry dispatch table.
pub open spec fn decode_op(b: u8) -> Op {
    let aaa = op_aaa(b);
    let bbb = op_bbb(b);
    let cc = op_cc(b);
    if cc == 0 {
        decode_op_c0(aaa, bbb)
    } else if cc == 1 {
        if bbb == 2 && aaa == 4 {
            Op::Nop  // the immediate store slot is an undocumented NOP
        } else {
            group1_op(aaa)
        }
    } else if cc == 2 {
        decode_op_c2(aaa, bbb)
    } else {
        decode_op_c3(aaa, bbb)
    }
}

// ---------------------------------------------------------------------------
// Phase effects
// ---------------------------------------------------------------------------
/// The fetch phase: load the opcode byte, step PC, charge one cycle.
pub open spec fn fetch_upd(c: Cpu, m: Seq<u8>) -> Cpu {
    Cpu {
        pc: wadd16(c.pc, 1),
        cycles: (c.cycles + 1) as isize,
        instruction: Instruction(rd(m, c.pc)),
        ..c
    }
}

/// The decode phase: charge one cycle, clear the effective address, then
/// apply the addressing mode of the fetched opcode.
pub open spec fn decode_upd(c: Cpu, m: Seq<u8>) -> Cpu {
    mode_upd(
        decode_mode(c.instruction.0),
        Cpu { cycles: (c.cycles + 1) as isize, addr: None, ..c },
        m,
    )
}

/// The execute phase: the semantics of every operation, as a function from
/// the decoded state and the memory image to their successors.
pub open spec fn exec_op(op: Op, c: Cpu, m: Seq<u8>) -> (Cpu, Seq<u8>) {
    match op {
        Op::Jam => (c, m),
        Op::Nop => (c, m),
        Op::Lda => match c.addr {
            Some(a) => {
                let r = rd(m, a);
                (Cpu { a: r, s: Flags(nz(c.s.0, r)), ..c }, m)
            },
            None => (c, m),
        },
        Op::Ldx => match c.addr {
            Some(a) => {
                let r = rd(m, a);
                (Cpu { x: r, s: Flags(nz(c.s.0, r)), ..c }, m)
            },
            None => (c, m),
        },
        Op::Ldy => match c.addr {
            Some(a) => {
                let r = rd(m, a);
                (Cpu { y: r, s: Flags(nz(c.s.0, r)), ..c }, m)
            },
            None => (c, m),
        },
        Op::Sta => match c.addr {
            Some(a) => (c, m.update(a as int, c.a)),
            None => (c, m),
        },
        Op::Stx => match c.addr {
            Some(a) => (c, m.update(a as int, c.x)),
            None => (c, m),
        },
        Op::Sty => match c.addr {
            Some(a) => (c, m.update(a as int, c.y)),
            None => (c, m),
        },
        Op::Ora => match c.addr {
            Some(a) => {
                let r = c.a | rd(m, a);
                (Cpu { a: r, s: Flags(nz(c.s.0, r)), ..c }, m)
            },
            None => (c, m),
        },
        Op::And => match c.addr {
            Some(a) => {
                let r = c.a & rd(m, a);
                (Cpu { a: r, s: Flags(nz(c.s.0, r)), ..c }, m)
            },
            None => (c, m),
        },
        Op::Eor => match c.addr {
            Some(a) => {
                let r = c.a ^ rd(m, a);
                (Cpu { a: r, s: Flags(nz(c.s.0, r)), ..c }, m)
            },
            None => (c, m),
        },
        Op::Adc => match c.addr {
            Some(a) => {
                let mv = rd(m, a);
                let ci = flag_c(c.s.0);
                let r = adc_a(c.a, mv, ci);
                (
                    Cpu {
                        a: r,
                        s: Flags(nzco(c.s.0, r, adc_v(c.a, mv, ci), adc_c(c.a, mv, ci))),
                        ..c
                    },
                    m,
                )
            },
            None => (c, m),
        },
        Op::Sbc => match c.addr {
            Some(a) => {
                let mv = rd(m, a) ^ 0xFF;
                let ci = flag_c(c.s.0);
                let r = adc_a(c.a, mv, ci);
                (
                    Cpu {
                        a: r,
                        s: Flags(nzco(c.s.0, r, adc_v(c.a, mv, ci), adc_c(c.a, mv, ci))),
                        ..c
                    },
                    m,
                )
            },
            None => (c, m),
        },
        Op::Cmp => match c.addr {
            Some(a) => {
                let mv = rd(m, a);
                (Cpu { s: Flags(nzc(c.s.0, wsub8(c.a, mv), c.a >= mv)), ..c }, m)
            },
            None => (c, m),
        },
        Op::Cpx => match c.addr {
            Some(a) => {
                let mv = rd(m, a);
                (Cpu { s: Flags(nzc(c.s.0, wsub8(c.x, mv), c.x >= mv)), ..c }, m)
            },
            None => (c, m),
        },
        Op::Cpy => match c.addr {
            Some(a) => {
                let mv = rd(m, a);
                (Cpu { s: Flags(nzc(c.s.0, wsub8(c.y, mv), c.y >= mv)), ..c }, m)
            },
            None => (c, m),
        },
        Op::Bit => match c.addr {
            Some(a) => {
                let mv = rd(m, a);
                (Cpu { s: Flags(bit_flags(c.s.0, c.a & mv, mv)), ..c }, m)
            },
            None => (c, m),
        },
        Op::Asl => match c.addr {
            Some(a) => {
                let v = rd(m, a);
                let r = asl_r(v);
                (Cpu { s: Flags(nzc(c.s.0, r, v >= 0x80)), ..c }, m.update(a as int, r))
            },
            None => {
                let r = asl_r(c.a);
                (Cpu { a: r, s: Flags(nzc(c.s.0, r, c.a >= 0x80)), ..c }, m)
            },
        },
        Op::Rol => match c.addr {
            Some(a) => {
                let v = rd(m, a);
                let r = rol_r(v, flag_c(c.s.0));
                (Cpu { s: Flags(nzc(c.s.0, r, v >= 0x80)), ..c }, m.update(a as int, r))
            },
            None => {
                let r = rol_r(c.a, flag_c(c.s.0));
                (Cpu { a: r, s: Flags(nzc(c.s.0, r, c.a >= 0x80)), ..c }, m)
            },
        },
        Op::Lsr => match c.addr {
            Some(a) => {
                let v = rd(m, a);
                let r = lsr_r(v);
                (Cpu { s: Flags(nzc(c.s.0, r, v % 2 == 1)), ..c }, m.update(a as int, r))
            },
            None => {
                let r = lsr_r(c.a);
                (Cpu { a: r, s: Flags(nzc(c.s.0, r, c.a % 2 == 1)), ..c }, m)
            },
        },
        Op::Ror => match c.addr {
            Some(a) => {
                let v = rd(m, a);
                let r = ror_r(v, flag_c(c.s.0));
                (Cpu { s: Flags(nzc(c.s.0, r, v % 2 == 1)), ..c }, m.update(a as int, r))
            },
            None => {
                let r = ror_r(c.a, flag_c(c.s.0));
                (Cpu { a: r, s: Flags(nzc(c.s.0, r, c.a % 2 == 1)), ..c }, m)
            },
        },
        Op::Inc => match c.addr {
            Some(a) => {
                let r = wadd8(rd(m, a), 1);
                (Cpu { s: Flags(nz(c.s.0, r)), ..c }, m.update(a as int, r))
            },
            None => (c, m),
        },
        Op::Dec => match c.addr {
            Some(a) => {
                let r = wsub8(rd(m, a), 1);
                (Cpu { s: Flags(nz(c.s.0, r)), ..c }, m.update(a as int, r))
            },
            None => (c, m),
        },
        Op::Jmp => match c.addr {
            Some(a) => (Cpu { pc: a, cycles: (c.cycles + 2) as isize, ..c }, m),
            None => (c, m),
        },
        Op::Jmi => match c.addr {
            Some(a) => {
                let lo = rd(m, a);
                let hi = rd(m, jmi_next(a));
                (Cpu { pc: (lo + 256 * hi) as u16, ..c }, m)
            },
            None => (c, m),
        },
        Op::Relative => {
            if branch_flag(c.s.0, op_xx(c.instruction.0)) == op_y(c.instruction.0) {
                let t = branch_target(c.pc, rd(m, c.pc));
                let extra: int = if page_crossed(c.pc, t) {
                    2
                } else {
                    1
                };
                (Cpu { pc: wadd16(t, 1), cycles: (c.cycles + extra) as isize, ..c }, m)
            } else {
                (Cpu { pc: wadd16(c.pc, 1), ..c }, m)
            }
        },
        Op::Jsr => match c.addr {
            Some(a) => {
                let ret = wsub16(c.pc, 1);
                (
                    Cpu { pc: a, sp: wsub8(c.sp, 2), cycles: (c.cycles + 2) as isize, ..c },
                    m.update(stk(c.sp) as int, (ret / 256) as u8).update(
                        stk(wsub8(c.sp, 1)) as int,
                        (ret % 256) as u8,
                    ),
                )
            },
            None => (c, m),
        },
        Op::Rts => {
            let lo = rd(m, stk(wadd8(c.sp, 1)));
            let hi = rd(m, stk(wadd8(c.sp, 2)));
            (
                Cpu {
                    pc: wadd16((lo + 256 * hi) as u16, 1),
                    sp: wadd8(c.sp, 2),
                    cycles: (c.cycles + 4) as isize,
                    ..c
                },
                m,
            )
        },
        Op::Rti => {
            let p = (rd(m, stk(wadd8(c.sp, 1))) | 0x20) & 0xEF;
            let lo = rd(m, stk(wadd8(c.sp, 2)));
            let hi = rd(m, stk(wadd8(c.sp, 3)));
            (
                Cpu {
                    s: Flags(p),
                    pc: (lo + 256 * hi) as u16,
                    sp: wadd8(c.sp, 3),
                    in_nmi: false,
                    cycles: (c.cycles + 8) as isize,
                    ..c
                },
                m,
            )
        },
        Op::Brk => {
            let m1 = m.update(stk(c.sp) as int, (c.pc / 256) as u8).update(
                stk(wsub8(c.sp, 1)) as int,
                (c.pc % 256) as u8,
            ).update(stk(wsub8(c.sp, 2)) as int, c.s.0 | 0x10);
            (
                Cpu {
                    pc: le16_at(m1, 0xFFFE),
                    sp: wsub8(c.sp, 3),
                    s: Flags(set_flag(c.s.0, INTERRUPT, true)),
                    cycles: (c.cycles + 5) as isize,
                    ..c
                },
                m1,
            )
        },
        Op::Pha => (
            Cpu { sp: wsub8(c.sp, 1), cycles: (c.cycles + 1) as isize, ..c },
            m.update(stk(c.sp) as int, c.a),
        ),
        Op::Php => (
            Cpu { sp: wsub8(c.sp, 1), cycles: (c.cycles + 1) as isize, ..c },
            m.update(stk(c.sp) as int, c.s.0 | 0x30),
        ),
        Op::Pla => {
            let r = rd(m, stk(wadd8(c.sp, 1)));
            (
                Cpu {
                    a: r,
                    sp: wadd8(c.sp, 1),
                    s: Flags(nz(c.s.0, r)),
                    cycles: (c.cycles + 2) as isize,
                    ..c
                },
                m,
            )
        },
        Op::Plp => {
            let p = (rd(m, stk(wadd8(c.sp, 1))) | 0x20) & 0xEF;
            (Cpu { s: Flags(p), sp: wadd8(c.sp, 1), cycles: (c.cycles + 2) as isize, ..c }, m)
        },
        Op::Dey => {
            let r = wsub8(c.y, 1);
            (Cpu { y: r, s: Flags(nz(c.s.0, r)), ..c }, m)
        },
        Op::Iny => {
            let r = wadd8(c.y, 1);
            (Cpu { y: r, s: Flags(nz(c.s.0, r)), ..c }, m)
        },
        Op::Dex => {
            let r = wsub8(c.x, 1);
            (Cpu { x: r, s: Flags(nz(c.s.0, r)), ..c }, m)
        },
        Op::Inx => {
            let r = wadd8(c.x, 1);
            (Cpu { x: r, s: Flags(nz(c.s.0, r)), ..c }, m)
        },
        Op::Tay => (Cpu { y: c.a, s: Flags(nz(c.s.0, c.a)), ..c }, m),
        Op::Tax => (Cpu { x: c.a, s: Flags(nz(c.s.0, c.a)), ..c }, m),
        Op::Tya => (Cpu { a: c.y, s: Flags(nz(c.s.0, c.y)), ..c }, m),
        Op::Txa => (Cpu { a: c.x, s: Flags(nz(c.s.0, c.x)), ..c }, m),
        Op::Tsx => (Cpu { x: c.sp, s: Flags(nz(c.s.0, c.sp)), ..c }, m),
        Op::Txs => (Cpu { sp: c.x, ..c }, m),
        Op::Clc => (Cpu { s: Flags(set_flag(c.s.0, CARRY, false)), ..c }, m),
        Op::Sec => (Cpu { s: Flags(set_flag(c.s.0, CARRY, true)), ..c }, m),
        Op::Cli => (Cpu { s: Flags(set_flag(c.s.0, INTERRUPT, false)), ..c }, m),
        Op::Sei => (Cpu { s: Flags(set_flag(c.s.0, INTERRUPT, true)), ..c }, m),
        Op::Clv => (Cpu { s: Flags(set_flag(c.s.0, OVERFLOW, false)), ..c }, m),
        Op::Cld => (Cpu { s: Flags(set_flag(c.s.0, DECIMAL, false)), ..c }, m),
        Op::Sed => (Cpu { s: Flags(set_flag(c.s.0, DECIMAL, true)), ..c }, m),
        Op::Slo => match c.addr {
            Some(a) => {
                let v = rd(m, a);
                let r = asl_r(v);
                let na = c.a | r;
                (Cpu { a: na, s: Flags(nzc(c.s.0, na, v >= 0x80)), ..c }, m.update(a as int, r))
            },
            None => (c, m),
        },
        Op::Rla => match c.addr {
            Some(a) => {
                let v = rd(m, a);
                let r = rol_r(v, flag_c(c.s.0));
                let na = c.a & r;
                (Cpu { a: na, s: Flags(nzc(c.s.0, na, v >= 0x80)), ..c }, m.update(a as int, r))
            },
            None => (c, m),
        },
        Op::Sre => match c.addr {
            Some(a) => {
                let v = rd(m, a);
                let r = lsr_r(v);
                let na = c.a ^ r;
                (Cpu { a: na, s: Flags(nzc(c.s.0, na, v % 2 == 1)), ..c }, m.update(a as int, r))
            },
            None => (c, m),
        },
        Op::Rra => match c.addr {
            Some(a) => {
                let v = rd(m, a);
                let r = ror_r(v, flag_c(c.s.0));
                let c2 = v % 2 == 1;
                let na = adc_a(c.a, r, c2);
                (
                    Cpu {
                        a: na,
                        s: Flags(nzco(c.s.0, na, adc_v(c.a, r, c2), adc_c(c.a, r, c2))),
                        ..c
                    },
                    m.update(a as int, r),
                )
            },
            None => (c, m),
        },
        Op::Anc => match c.addr {
            Some(a) => {
                let na = c.a & rd(m, a);
                (Cpu { a: na, s: Flags(nzc(c.s.0, na, na >= 0x80)), ..c }, m)
            },
            None => (c, m),
        },
        Op::Alr => match c.addr {
            Some(a) => {
                let t = c.a & rd(m, a);
                let r = lsr_r(t);
                (Cpu { a: r, s: Flags(nzc(c.s.0, r, t % 2 == 1)), ..c }, m)
            },
            None => (c, m),
        },
    }
}

// ---------------------------------------------------------------------------
// Drivers and interrupts
// ---------------------------------------------------------------------------
/// One whole instruction: fetch, decode with addressing, execute.
pub open spec fn step_spec(c: Cpu, m: Seq<u8>) -> (Cpu, Seq<u8>) {
    let op = decode_op(rd(m, c.pc));
    let c1 = fetch_upd(c, m);
    let c2 = Cpu { current_instr: op, ..decode_upd(c1, m) };
    exec_op(op, c2, m)
}

/// One phase of the fetch/decode/execute machine, with the cycle counter
/// reset on entry.
pub open spec fn tick_spec(c: Cpu, m: Seq<u8>) -> (Cpu, Seq<u8>) {
    let c0 = Cpu { cycles: 0, ..c };
    match c.states {
        States::Fetch => (Cpu { states: States::Decode, ..fetch_upd(c0, m) }, m),
        States::Decode => (
            Cpu {
                states: States::Execute,
                current_instr: decode_op(c.instruction.0),
                ..decode_upd(c0, m)
            },
            m,
        ),
        States::Execute => {
            let r = exec_op(c.current_instr, c0, m);
            (Cpu { states: States::Fetch, ..r.0 }, r.1)
        },
    }
}

/// Interrupt entry: push PC high, PC low, then the status with B clear;
/// set interrupt-disable and jump through the vector.
pub open spec fn int_entry(c: Cpu, m: Seq<u8>, vector: u16) -> (Cpu, Seq<u8>) {
    let m1 = m.update(stk(c.sp) as int, (c.pc / 256) as u8).update(
        stk(wsub8(c.sp, 1)) as int,
        (c.pc % 256) as u8,
    ).update(stk(wsub8(c.sp, 2)) as int, c.s.0 & 0xEF);
    (
        Cpu {
            pc: le16_at(m1, vector),
            sp: wsub8(c.sp, 3),
            s: Flags(set_flag(c.s.0, INTERRUPT, true)),
            ..c
        },
        m1,
    )
}

/// IRQ: interrupt entry through `0xFFFE`, honoured only while interrupts
/// are enabled.
pub open spec fn irq_spec(c: Cpu, m: Seq<u8>) -> (Cpu, Seq<u8>) {
    if flag_i(c.s.0) {
        (c, m)
    } else {
        int_entry(c, m, 0xFFFE)
    }
}

/// NMI: unconditional interrupt entry through `0xFFFA`, marked in progress
/// until the next RTI.
pub open spec fn nmi_spec(c: Cpu, m: Seq<u8>) -> (Cpu, Seq<u8>) {
    let r = int_entry(Cpu { in_nmi: true, ..c }, m, 0xFFFA);
    r
}

} // verus!
