//! End-to-end scenarios: whole instructions stepped against literal
//! register files and memory images.

use mos6502::{Cpu, Memory};

fn memory_with(pairs: &[(u16, u8)]) -> Memory {
    let mut mem = Memory::new();
    for &(a, v) in pairs {
        mem.store8(a, v);
    }
    mem
}

#[test]
fn lda_then_brk() {
    let mut mem = memory_with(&[
        (0x8000, 0xA9),
        (0x8001, 0x42),
        (0x8002, 0x00),
        (0xFFFE, 0x00),
        (0xFFFF, 0x90),
    ]);
    let mut cpu = Cpu::new(Some(0x8000));
    let p0 = cpu.s.get();

    cpu.run_instr(&mut mem);
    assert_eq!(cpu.a, 0x42);
    assert!(!cpu.s.get_negative());
    assert!(!cpu.s.get_zero());
    assert_eq!(cpu.pc, 0x8002);

    cpu.run_instr(&mut mem);
    assert_eq!(cpu.pc, 0x9000);
    assert_eq!(mem.load8(0x01FD), 0x80);
    assert_eq!(mem.load8(0x01FC), 0x03);
    assert_eq!(mem.load8(0x01FB), p0 | 0x10);
    assert_eq!(cpu.sp, 0xFA);
    assert!(cpu.s.get_interrupt());
}

#[test]
fn adc_with_overflow() {
    let mut mem = memory_with(&[(0x0200, 0x69), (0x0201, 0x50)]);
    let mut cpu = Cpu::new_test(0x0200, 0xFD, 0x50, 0, 0, 0x24);
    cpu.run_instr(&mut mem);
    assert_eq!(cpu.a, 0xA0);
    assert!(cpu.s.get_negative());
    assert!(cpu.s.get_overflow());
    assert!(!cpu.s.get_carry());
    assert!(!cpu.s.get_zero());
}

#[test]
fn adc_with_carry_out() {
    // 0xD0 + 0x90 = 0x160: the sum leaves the byte, so carry comes out;
    // two negative operands yielding a positive byte also raise the
    // overflow flag.
    let mut mem = memory_with(&[(0x0200, 0x69), (0x0201, 0x90)]);
    let mut cpu = Cpu::new_test(0x0200, 0xFD, 0xD0, 0, 0, 0x24);
    cpu.run_instr(&mut mem);
    assert_eq!(cpu.a, 0x60);
    assert!(!cpu.s.get_negative());
    assert!(cpu.s.get_overflow());
    assert!(cpu.s.get_carry());
    assert!(!cpu.s.get_zero());
}

#[test]
fn branch_page_cross() {
    // BEQ +4 at 0x80FE with Z set: the target leaves the operand's page,
    // so the taken branch pays both extra cycles beyond its base two.
    let mut mem = memory_with(&[(0x80FE, 0xF0), (0x80FF, 0x04)]);
    let mut cpu = Cpu::new_test(0x80FE, 0xFD, 0, 0, 0, 0x26);
    cpu.run_instr(&mut mem);
    assert_eq!(cpu.pc, 0x8104);
    assert_eq!(cpu.cycles, 4);
}

#[test]
fn branch_taken_same_page() {
    let mut mem = memory_with(&[(0x8000, 0xF0), (0x8001, 0x04)]);
    let mut cpu = Cpu::new_test(0x8000, 0xFD, 0, 0, 0, 0x26);
    cpu.run_instr(&mut mem);
    assert_eq!(cpu.pc, 0x8006);
    assert_eq!(cpu.cycles, 3);
}

#[test]
fn branch_not_taken() {
    let mut mem = memory_with(&[(0x8000, 0xF0), (0x8001, 0x04)]);
    let mut cpu = Cpu::new_test(0x8000, 0xFD, 0, 0, 0, 0x24);
    cpu.run_instr(&mut mem);
    assert_eq!(cpu.pc, 0x8002);
    assert_eq!(cpu.cycles, 2);
}

#[test]
fn indirect_x_load() {
    // LDA ($20,X) with X = 4: the pointer at 0x24/0x25 names 0x2074.
    let mut mem = memory_with(&[
        (0x0400, 0xA1),
        (0x0401, 0x20),
        (0x0024, 0x74),
        (0x0025, 0x20),
        (0x2074, 0x99),
    ]);
    let mut cpu = Cpu::new_test(0x0400, 0xFD, 0, 0x04, 0, 0x24);
    cpu.run_instr(&mut mem);
    assert_eq!(cpu.a, 0x99);
    assert!(cpu.s.get_negative());
    assert!(!cpu.s.get_zero());
}

#[test]
fn indirect_y_store_zero_page_wrap() {
    // STA ($FF),Y: the pointer's high byte comes from 0x00, wrapping
    // within the zero page, so the store lands at 0x4080 + Y.
    let mut mem = memory_with(&[(0x0400, 0x91), (0x0401, 0xFF), (0x00FF, 0x80), (0x0000, 0x40)]);
    let mut cpu = Cpu::new_test(0x0400, 0xFD, 0x11, 0, 0x10, 0x24);
    cpu.run_instr(&mut mem);
    assert_eq!(mem.load8(0x4090), 0x11);
}

#[test]
fn jmp_indirect_page_bug() {
    // JMP ($10FF): the high byte of the target comes from 0x1000, not
    // 0x1100.
    let mut mem = memory_with(&[
        (0x0400, 0x6C),
        (0x0401, 0xFF),
        (0x0402, 0x10),
        (0x10FF, 0xAB),
        (0x1000, 0xCD),
        (0x1100, 0xEF),
    ]);
    let mut cpu = Cpu::new_test(0x0400, 0xFD, 0, 0, 0, 0x24);
    cpu.run_instr(&mut mem);
    assert_eq!(cpu.pc, 0xCDAB);
}

#[test]
fn stack_wrap_260_pushes() {
    // 260 pushes from SP = 0xFD walk off the bottom of the stack page,
    // wrap to its top and come round to overwrite the first cells again.
    let mut mem = Memory::new();
    for a in 0x0200u16..0x0600u16 {
        mem.store8(a, 0x48); // PHA
    }
    let mut cpu = Cpu::new_test(0x0200, 0xFD, 0, 0, 0, 0x24);
    for i in 0..260u16 {
        cpu.a = (i % 256) as u8;
        cpu.run_instr(&mut mem);
    }
    assert_eq!(cpu.sp, 0xF9);
    // The last four pushes, numbers 256..259, overwrote the wrapped cells
    // 0x01FD down to 0x01FA.
    assert_eq!(mem.load8(0x01FD), 0x00);
    assert_eq!(mem.load8(0x01FC), 0x01);
    assert_eq!(mem.load8(0x01FB), 0x02);
    assert_eq!(mem.load8(0x01FA), 0x03);
    // Push number 254 reached the bottom cell of the page, and pushes 255
    // and 256 wrapped to its top.
    assert_eq!(mem.load8(0x0100), 253);
    assert_eq!(mem.load8(0x01FF), 254);
    assert_eq!(mem.load8(0x01FE), 255);
}

#[test]
fn jsr_rts_round_trip() {
    // JSR to a subroutine that returns at once resumes at the call's
    // third byte.
    let mut mem = memory_with(&[(0x8000, 0x20), (0x8001, 0x00), (0x8002, 0x90), (0x9000, 0x60)]);
    let mut cpu = Cpu::new_test(0x8000, 0xFD, 0, 0, 0, 0x24);
    cpu.run_instr(&mut mem);
    assert_eq!(cpu.pc, 0x9000);
    assert_eq!(cpu.sp, 0xFB);
    assert_eq!(mem.load8(0x01FD), 0x80);
    assert_eq!(mem.load8(0x01FC), 0x02);
    cpu.run_instr(&mut mem);
    assert_eq!(cpu.pc, 0x8003);
    assert_eq!(cpu.sp, 0xFD);
}
