//! Laws of the core, proved once and for all inputs.
//!
//! Each proof function states a property of the machine model that the
//! executable core is already proved to follow: register widths after any
//! step, the Z/N recomputation law, the carry and overflow laws of ADC,
//! the SBC/ADC duality, branch cycle accounting, the indirect-jump
//! page-wrap bug, and the JSR/RTS round trip.

use vstd::prelude::*;

use crate::cpu::{Cpu, Op, CYCLE_LIMIT};
use crate::flags::{
    flag_c, flag_i, flag_n, flag_v, flag_z, lemma_flag_set_get, set_flag, CARRY, INTERRUPT,
    NEGATIVE, OVERFLOW, ZERO,
};
use crate::instruction::{op_xx, op_y};
use crate::mem::rd;
use crate::model::{
    adc_a, adc_c, adc_sum, adc_v, branch_flag, branch_target, exec_op, jmi_next, nz, nzc, nzco,
    page_crossed, step_spec, stk, wadd16, wadd8, wsub8, wsub16,
};

verus! {

/// After any instruction the registers hold machine words: `A`, `X`, `Y`,
/// `SP` and the status stay within a byte, `PC` within sixteen bits.
pub proof fn lemma_register_width(c: Cpu, m: Seq<u8>)
    ensures
        ({
            let r = step_spec(c, m).0;
            0 <= r.a <= 255 && 0 <= r.x <= 255 && 0 <= r.y <= 255 && 0 <= r.sp <= 255 && 0
                <= r.s.0 <= 255 && 0 <= r.pc <= 65535
        }),
{
}

/// The Z/N law: wherever N and Z are recomputed from a result byte `r`,
/// Z holds exactly of `r == 0` and N exactly of `r >= 128`, and the other
/// flags pass through untouched.
pub proof fn lemma_nz_law(p: u8, r: u8, vb: bool, cb: bool)
    ensures
        flag_z(nz(p, r)) == (r == 0),
        flag_n(nz(p, r)) == (r >= 128),
        flag_c(nz(p, r)) == flag_c(p),
        flag_v(nz(p, r)) == flag_v(p),
        flag_i(nz(p, r)) == flag_i(p),
        flag_z(nzc(p, r, cb)) == (r == 0),
        flag_n(nzc(p, r, cb)) == (r >= 128),
        flag_c(nzc(p, r, cb)) == cb,
        flag_z(nzco(p, r, vb, cb)) == (r == 0),
        flag_n(nzco(p, r, vb, cb)) == (r >= 128),
        flag_v(nzco(p, r, vb, cb)) == vb,
        flag_c(nzco(p, r, vb, cb)) == cb,
{
    let zset = set_flag(p, ZERO, r == 0);
    let nzv = nz(p, r);
    lemma_flag_set_get(p, ZERO, CARRY, r == 0);
    lemma_flag_set_get(p, ZERO, OVERFLOW, r == 0);
    lemma_flag_set_get(p, ZERO, INTERRUPT, r == 0);
    lemma_flag_set_get(zset, NEGATIVE, ZERO, r >= 128);
    lemma_flag_set_get(zset, NEGATIVE, CARRY, r >= 128);
    lemma_flag_set_get(zset, NEGATIVE, OVERFLOW, r >= 128);
    lemma_flag_set_get(zset, NEGATIVE, INTERRUPT, r >= 128);
    lemma_flag_set_get(nzv, CARRY, ZERO, cb);
    lemma_flag_set_get(nzv, CARRY, NEGATIVE, cb);
    let vset = set_flag(nzv, OVERFLOW, vb);
    lemma_flag_set_get(nzv, OVERFLOW, ZERO, vb);
    lemma_flag_set_get(nzv, OVERFLOW, NEGATIVE, vb);
    lemma_flag_set_get(nzv, OVERFLOW, CARRY, vb);
    lemma_flag_set_get(vset, CARRY, ZERO, cb);
    lemma_flag_set_get(vset, CARRY, NEGATIVE, cb);
    lemma_flag_set_get(vset, CARRY, OVERFLOW, cb);
}

/// The carry law of ADC: with inputs `A`, `M` and a carry-in, and
/// `S = A + M + C`, the accumulator becomes `S mod 256` and the carry-out
/// holds exactly of `S > 255`.
pub proof fn lemma_adc_carry(a: u8, m: u8, cin: bool)
    ensures
        adc_a(a, m, cin) == adc_sum(a, m, cin) % 256,
        adc_c(a, m, cin) == (adc_sum(a, m, cin) > 255),
        adc_sum(a, m, cin) == a + m + (if cin {
            1int
        } else {
            0int
        }),
{
}

/// The overflow law of ADC: with result `A'`, the overflow flag holds
/// exactly of `((A XOR A') AND (M XOR A')) AND 0x80 != 0`, equivalently of
/// `((NOT (A XOR M)) AND (A XOR A')) AND 0x80 != 0`.
pub proof fn lemma_adc_overflow(a: u8, m: u8, cin: bool)
    ensures
        ({
            let r = adc_a(a, m, cin);
            adc_v(a, m, cin) == ((a ^ r) & (m ^ r) & 0x80 != 0) && adc_v(a, m, cin) == (!(a ^ m)
                & (a ^ r) & 0x80 != 0)
        }),
{
    let r = adc_a(a, m, cin);
    assert(((a ^ r) & (m ^ r) & 0x80 != 0) == (!(a ^ m) & (a ^ r) & 0x80 != 0)) by (bit_vector);
}

/// The SBC/ADC duality: adding the complemented operand with the carry set
/// subtracts it exactly, and the carry-out signals no borrow.
pub proof fn lemma_sbc_adc_duality(a: u8, m: u8)
    ensures
        adc_a(a, (m ^ 0xFF), true) == wsub8(a, m),
        adc_c(a, (m ^ 0xFF), true) == (a >= m),
{
    assert(m ^ 0xFF == 255 - m) by (bit_vector);
}

/// SBC runs through the very same addition as ADC of the complemented
/// operand: on a memory image whose operand byte is complemented, ADC
/// leaves the identical register file.
pub proof fn lemma_sbc_is_adc_of_complement(c: Cpu, m: Seq<u8>, a: u16)
    requires
        c.addr == Some(a),
        0 <= a < m.len(),
    ensures
        exec_op(Op::Sbc, c, m).0 == exec_op(Op::Adc, c, m.update(a as int, rd(m, a) ^ 0xFF)).0,
{
}

/// Branch cycle accounting: a branch not taken charges nothing beyond
/// fetch and decode; taken it charges one extra cycle, and one more when
/// the offset computation crosses a page.
pub proof fn lemma_branch_cycles(c: Cpu, m: Seq<u8>)
    requires
        c.cycles < CYCLE_LIMIT,
    ensures
        ({
            let taken = branch_flag(c.s.0, op_xx(c.instruction.0)) == op_y(c.instruction.0);
            let t = branch_target(c.pc, rd(m, c.pc));
            let r = exec_op(Op::Relative, c, m).0;
            &&& taken && !page_crossed(c.pc, t) ==> r.cycles == c.cycles + 1 && r.pc == wadd16(
                t,
                1,
            )
            &&& taken && page_crossed(c.pc, t) ==> r.cycles == c.cycles + 2 && r.pc == wadd16(
                t,
                1,
            )
            &&& !taken ==> r.cycles == c.cycles && r.pc == wadd16(c.pc, 1)
        }),
{
}

/// The indirect-jump page-wrap bug: the high byte of the target comes from
/// the start of the pointer's own page when the pointer sits at a page's
/// last byte, and from the plain successor otherwise.
pub proof fn lemma_jmi_page_wrap(a: u16)
    ensures
        a as u8 == 0xFF ==> jmi_next(a) == a & 0xFF00,
        a as u8 != 0xFF ==> jmi_next(a) == wadd16(a, 1),
{
    assert((a as u8 == 0xFF ==> ((a & 0xFF00) | (wadd8(a as u8, 1) as u16)) == a & 0xFF00) && (a
        as u8 != 0xFF ==> ((a & 0xFF00) | (wadd8(a as u8, 1) as u16)) == wadd16(a, 1)))
        by (bit_vector);
}

/// The JSR/RTS round trip: a subroutine call from `pc` whose three
/// instruction bytes do not straddle the top of memory returns, through
/// any code that preserves the stack pointer and the two pushed cells, to
/// `pc + 3`.
pub proof fn lemma_jsr_rts_round_trip(c: Cpu, m: Seq<u8>, c2: Cpu, m2: Seq<u8>)
    requires
        m.len() == 0x10000,
        m2.len() == 0x10000,
        rd(m, c.pc) == 0x20,
        c.pc <= 0xFFFC,
        c2.sp == step_spec(c, m).0.sp,
        rd(m2, stk(wadd8(c2.sp, 1))) == rd(step_spec(c, m).1, stk(wadd8(c2.sp, 1))),
        rd(m2, stk(wadd8(c2.sp, 2))) == rd(step_spec(c, m).1, stk(wadd8(c2.sp, 2))),
        rd(m2, c2.pc) == 0x60,
    ensures
        step_spec(c2, m2).0.pc == c.pc + 3,
{
    assert(crate::instruction::op_cc(0x20u8) == 0 && crate::instruction::op_bbb(0x20u8) == 0
        && crate::instruction::op_aaa(0x20u8) == 1) by (bit_vector);
    assert(crate::instruction::op_cc(0x60u8) == 0 && crate::instruction::op_bbb(0x60u8) == 0
        && crate::instruction::op_aaa(0x60u8) == 3) by (bit_vector);
    let ret = wsub16(wadd16(wadd16(c.pc, 1), 2), 1);
    assert(ret == c.pc + 2);
    assert(rd(step_spec(c, m).1, stk(wadd8(c2.sp, 1))) == (ret % 256) as u8);
    assert(rd(step_spec(c, m).1, stk(wadd8(c2.sp, 2))) == (ret / 256) as u8);
}

} // verus!
