//! Unit tests for the status register, the opcode view, the memory port,
//! the addressing quirks and the individual handlers.

use mos6502::{Cpu, Memory, States};

fn memory_with(pairs: &[(u16, u8)]) -> Memory {
    let mut mem = Memory::new();
    for &(a, v) in pairs {
        mem.store8(a, v);
    }
    mem
}

fn cpu_at(pc: u16) -> Cpu {
    Cpu::new_test(pc, 0xFD, 0, 0, 0, 0x24)
}

#[test]
fn flags_pack_and_unpack() {
    let mut f = mos6502::Flags::new();
    assert_eq!(f.get(), 0x24);
    f.set_carry(true);
    assert!(f.get_carry());
    assert_eq!(f.get(), 0x25);
    f.set_negative(true);
    f.set_zero(true);
    assert!(f.get_negative());
    assert!(f.get_zero());
    assert!(f.get_interrupt());
    f.set_carry(false);
    assert!(!f.get_carry());
    assert!(f.get_negative());
    f.set_overflow(true);
    assert!(f.get_overflow());
    f.set_decimal(true);
    assert_eq!(f.get() & 0x08, 0x08);
    f.set(0x24);
    assert_eq!(f.get(), 0x24);
}

#[test]
fn instruction_bitfields() {
    let mut i = mos6502::Instruction(0xA9);
    assert_eq!(i.get(), 0xA9);
    assert_eq!(i.aaa(), 5);
    assert_eq!(i.bbb(), 2);
    assert_eq!(i.cc(), 1);
    i.set(0xF0);
    assert_eq!(i.xx(), 3);
    assert!(i.y());
    i.set(0x10);
    assert_eq!(i.xx(), 0);
    assert!(!i.y());
}

#[test]
fn memory_read_write() {
    let mut mem = Memory::new();
    assert_eq!(mem.load8(0x1234), 0);
    mem.store8(0x1234, 0xAB);
    assert_eq!(mem.load8(0x1234), 0xAB);
    mem.store16(0x2000, 0xBEEF);
    assert_eq!(mem.load8(0x2000), 0xEF);
    assert_eq!(mem.load8(0x2001), 0xBE);
    assert_eq!(mem.load16(0x2000), 0xBEEF);
}

#[test]
fn memory_load16_wraps_in_zero_page() {
    let mem = memory_with(&[(0x00FF, 0x80), (0x0000, 0x40), (0x0100, 0x99)]);
    assert_eq!(mem.load16(0x00FF), 0x4080);
}

#[test]
fn memory_store16_wraps_at_top() {
    let mut mem = Memory::new();
    mem.store16(0xFFFF, 0x1234);
    assert_eq!(mem.load8(0xFFFF), 0x34);
    assert_eq!(mem.load8(0x0000), 0x12);
}

#[test]
fn cpu_load16_store16() {
    let mut mem = Memory::new();
    let mut cpu = cpu_at(0);
    cpu.store16(&mut mem, 0x0300, 0xCAFE);
    assert_eq!(cpu.load16(&mem, 0x0300), 0xCAFE);
}

#[test]
fn power_on_defaults() {
    let cpu = Cpu::new(None);
    assert_eq!(cpu.a, 0);
    assert_eq!(cpu.x, 0);
    assert_eq!(cpu.y, 0);
    assert_eq!(cpu.sp, 0xFD);
    assert_eq!(cpu.pc, 0);
    assert_eq!(cpu.s.get(), 0x24);
    assert_eq!(cpu.cycles, 0);
    assert!(!cpu.in_nmi);
    let cpu2 = Cpu::new(Some(0xC000));
    assert_eq!(cpu2.pc, 0xC000);
}

#[test]
fn start_loads_reset_vector() {
    let mut mem = memory_with(&[(0xFFFC, 0x34), (0xFFFD, 0x12)]);
    let mut cpu = Cpu::new(None);
    cpu.start(&mut mem);
    assert_eq!(cpu.pc, 0x1234);
    assert_eq!(cpu.cycles, 6);
}

#[test]
fn irq_honoured_only_when_enabled() {
    let mut mem = memory_with(&[(0xFFFE, 0x00), (0xFFFF, 0x70)]);
    let mut cpu = Cpu::new_test(0x8123, 0xFD, 0, 0, 0, 0x24);
    cpu.irq(&mut mem);
    // interrupts are disabled at power-on: nothing happens
    assert_eq!(cpu.pc, 0x8123);
    assert_eq!(cpu.sp, 0xFD);

    let mut cpu = Cpu::new_test(0x8123, 0xFD, 0, 0, 0, 0x20);
    cpu.irq(&mut mem);
    assert_eq!(cpu.pc, 0x7000);
    assert_eq!(cpu.sp, 0xFA);
    assert_eq!(mem.load8(0x01FD), 0x81);
    assert_eq!(mem.load8(0x01FC), 0x23);
    assert_eq!(mem.load8(0x01FB), 0x20); // pushed with B clear
    assert!(cpu.s.get_interrupt());
}

#[test]
fn nmi_is_unconditional_and_rti_returns() {
    let mut mem = memory_with(&[(0xFFFA, 0x00), (0xFFFB, 0x60), (0x6000, 0x40)]);
    let mut cpu = Cpu::new_test(0x8123, 0xFD, 0, 0, 0, 0x24);
    cpu.nmi(&mut mem);
    assert!(cpu.in_nmi);
    assert_eq!(cpu.pc, 0x6000);
    assert_eq!(cpu.sp, 0xFA);
    // the handler is a bare RTI
    cpu.run_instr(&mut mem);
    assert!(!cpu.in_nmi);
    assert_eq!(cpu.pc, 0x8123);
    assert_eq!(cpu.sp, 0xFD);
    assert_eq!(cpu.s.get(), 0x24);
}

#[test]
fn php_forces_b_and_reserved_plp_masks_them() {
    let mut mem = memory_with(&[(0x0200, 0x08), (0x0201, 0x28)]);
    let mut cpu = Cpu::new_test(0x0200, 0xFD, 0, 0, 0, 0x81);
    cpu.run_instr(&mut mem);
    assert_eq!(mem.load8(0x01FD), 0x81 | 0x30);
    assert_eq!(cpu.sp, 0xFC);
    cpu.run_instr(&mut mem);
    // pulled back: reserved forced on, B forced off
    assert_eq!(cpu.s.get(), (0x81 | 0x30 | 0x20) & 0xEF);
    assert_eq!(cpu.sp, 0xFD);
}

#[test]
fn pha_pla_roundtrip_sets_flags() {
    let mut mem = memory_with(&[(0x0200, 0x48), (0x0201, 0xA9), (0x0202, 0x00), (0x0203, 0x68)]);
    let mut cpu = Cpu::new_test(0x0200, 0xFD, 0x80, 0, 0, 0x24);
    cpu.run_instr(&mut mem); // PHA
    cpu.run_instr(&mut mem); // LDA #0
    assert!(cpu.s.get_zero());
    assert_eq!(cpu.a, 0);
    cpu.run_instr(&mut mem); // PLA
    assert_eq!(cpu.a, 0x80);
    assert!(cpu.s.get_negative());
    assert!(!cpu.s.get_zero());
}

#[test]
fn sbc_with_carry_set_subtracts_exactly() {
    // SBC #$30 with carry set: 0x50 - 0x30, no borrow
    let mut mem = memory_with(&[(0x0200, 0xE9), (0x0201, 0x30)]);
    let mut cpu = Cpu::new_test(0x0200, 0xFD, 0x50, 0, 0, 0x25);
    cpu.run_instr(&mut mem);
    assert_eq!(cpu.a, 0x20);
    assert!(cpu.s.get_carry());
    assert!(!cpu.s.get_zero());
    assert!(!cpu.s.get_negative());
}

#[test]
fn sbc_borrow_clears_carry() {
    // SBC #$70 with carry set from 0x50: borrows, wraps to 0xE0
    let mut mem = memory_with(&[(0x0200, 0xE9), (0x0201, 0x70)]);
    let mut cpu = Cpu::new_test(0x0200, 0xFD, 0x50, 0, 0, 0x25);
    cpu.run_instr(&mut mem);
    assert_eq!(cpu.a, 0xE0);
    assert!(!cpu.s.get_carry());
    assert!(cpu.s.get_negative());
}

#[test]
fn adc_ignores_decimal_flag() {
    let mut mem = memory_with(&[(0x0200, 0x69), (0x0201, 0x09)]);
    let mut cpu = Cpu::new_test(0x0200, 0xFD, 0x09, 0, 0, 0x24 | 0x08);
    cpu.run_instr(&mut mem);
    assert_eq!(cpu.a, 0x12); // plain binary, not 0x18
}

#[test]
fn cmp_orders_and_flags() {
    let mut mem = memory_with(&[(0x0200, 0xC9), (0x0201, 0x30)]);
    let mut cpu = Cpu::new_test(0x0200, 0xFD, 0x30, 0, 0, 0x24);
    cpu.run_instr(&mut mem);
    assert!(cpu.s.get_carry());
    assert!(cpu.s.get_zero());

    let mut mem = memory_with(&[(0x0200, 0xC9), (0x0201, 0x40)]);
    let mut cpu = Cpu::new_test(0x0200, 0xFD, 0x30, 0, 0, 0x24);
    cpu.run_instr(&mut mem);
    assert!(!cpu.s.get_carry());
    assert!(cpu.s.get_negative());
    assert_eq!(cpu.a, 0x30); // compare never writes the accumulator
}

#[test]
fn cpx_cpy_compare_their_registers() {
    let mut mem = memory_with(&[(0x0200, 0xE0), (0x0201, 0x05), (0x0202, 0xC0), (0x0203, 0x10)]);
    let mut cpu = Cpu::new_test(0x0200, 0xFD, 0, 0x07, 0x10, 0x24);
    cpu.run_instr(&mut mem); // CPX #$05
    assert!(cpu.s.get_carry());
    assert!(!cpu.s.get_zero());
    cpu.run_instr(&mut mem); // CPY #$10
    assert!(cpu.s.get_carry());
    assert!(cpu.s.get_zero());
}

#[test]
fn shifts_on_accumulator() {
    // ASL A: carry from bit 7
    let mut mem = memory_with(&[(0x0200, 0x0A)]);
    let mut cpu = Cpu::new_test(0x0200, 0xFD, 0x81, 0, 0, 0x24);
    cpu.run_instr(&mut mem);
    assert_eq!(cpu.a, 0x02);
    assert!(cpu.s.get_carry());

    // LSR A: carry from bit 0
    let mut mem = memory_with(&[(0x0200, 0x4A)]);
    let mut cpu = Cpu::new_test(0x0200, 0xFD, 0x03, 0, 0, 0x24);
    cpu.run_instr(&mut mem);
    assert_eq!(cpu.a, 0x01);
    assert!(cpu.s.get_carry());

    // ROL A with carry in
    let mut mem = memory_with(&[(0x0200, 0x2A)]);
    let mut cpu = Cpu::new_test(0x0200, 0xFD, 0x80, 0, 0, 0x25);
    cpu.run_instr(&mut mem);
    assert_eq!(cpu.a, 0x01);
    assert!(cpu.s.get_carry());

    // ROR A with carry in
    let mut mem = memory_with(&[(0x0200, 0x6A)]);
    let mut cpu = Cpu::new_test(0x0200, 0xFD, 0x01, 0, 0, 0x25);
    cpu.run_instr(&mut mem);
    assert_eq!(cpu.a, 0x80);
    assert!(cpu.s.get_carry());
    assert!(cpu.s.get_negative());
}

#[test]
fn shift_on_memory() {
    // ASL $10
    let mut mem = memory_with(&[(0x0200, 0x06), (0x0201, 0x10), (0x0010, 0xC0)]);
    let mut cpu = cpu_at(0x0200);
    cpu.run_instr(&mut mem);
    assert_eq!(mem.load8(0x0010), 0x80);
    assert!(cpu.s.get_carry());
    assert!(cpu.s.get_negative());
}

#[test]
fn inc_dec_wrap_around() {
    let mut mem = memory_with(&[(0x0200, 0xE6), (0x0201, 0x10), (0x0010, 0xFF)]);
    let mut cpu = cpu_at(0x0200);
    cpu.run_instr(&mut mem); // INC $10
    assert_eq!(mem.load8(0x0010), 0x00);
    assert!(cpu.s.get_zero());

    let mut mem = memory_with(&[(0x0200, 0xC6), (0x0201, 0x10), (0x0010, 0x00)]);
    let mut cpu = cpu_at(0x0200);
    cpu.run_instr(&mut mem); // DEC $10
    assert_eq!(mem.load8(0x0010), 0xFF);
    assert!(cpu.s.get_negative());
}

#[test]
fn register_steps_wrap_around() {
    let mut mem = memory_with(&[(0x0200, 0xE8), (0x0201, 0x88)]);
    let mut cpu = Cpu::new_test(0x0200, 0xFD, 0, 0xFF, 0x00, 0x24);
    cpu.run_instr(&mut mem); // INX
    assert_eq!(cpu.x, 0);
    assert!(cpu.s.get_zero());
    cpu.run_instr(&mut mem); // DEY
    assert_eq!(cpu.y, 0xFF);
    assert!(cpu.s.get_negative());
}

#[test]
fn bit_copies_operand_bits() {
    let mut mem = memory_with(&[(0x0200, 0x24), (0x0201, 0x10), (0x0010, 0xC0)]);
    let mut cpu = Cpu::new_test(0x0200, 0xFD, 0x0F, 0, 0, 0x24);
    cpu.run_instr(&mut mem);
    assert!(cpu.s.get_zero()); // A AND M == 0
    assert!(cpu.s.get_negative()); // bit 7 of M
    assert!(cpu.s.get_overflow()); // bit 6 of M
    assert_eq!(cpu.a, 0x0F);
}

#[test]
fn transfers_and_their_flags() {
    let mut mem = memory_with(&[(0x0200, 0x9A), (0x0201, 0xBA)]);
    let mut cpu = Cpu::new_test(0x0200, 0xFD, 0, 0x00, 0, 0x24);
    cpu.run_instr(&mut mem); // TXS: no flags
    assert_eq!(cpu.sp, 0x00);
    assert!(!cpu.s.get_zero());
    cpu.run_instr(&mut mem); // TSX: flags from the copied value
    assert_eq!(cpu.x, 0x00);
    assert!(cpu.s.get_zero());
}

#[test]
fn flag_instructions_touch_only_their_flag() {
    let mut mem = memory_with(&[
        (0x0200, 0x38),
        (0x0201, 0x18),
        (0x0202, 0x78),
        (0x0203, 0x58),
        (0x0204, 0xF8),
        (0x0205, 0xD8),
        (0x0206, 0xB8),
    ]);
    let mut cpu = Cpu::new_test(0x0200, 0xFD, 0, 0, 0, 0x64); // V set
    cpu.run_instr(&mut mem); // SEC
    assert_eq!(cpu.s.get(), 0x65);
    cpu.run_instr(&mut mem); // CLC
    assert_eq!(cpu.s.get(), 0x64);
    cpu.run_instr(&mut mem); // SEI
    assert_eq!(cpu.s.get(), 0x64);
    cpu.run_instr(&mut mem); // CLI
    assert_eq!(cpu.s.get(), 0x60);
    cpu.run_instr(&mut mem); // SED
    assert_eq!(cpu.s.get(), 0x68);
    cpu.run_instr(&mut mem); // CLD
    assert_eq!(cpu.s.get(), 0x60);
    cpu.run_instr(&mut mem); // CLV
    assert_eq!(cpu.s.get(), 0x20);
}

#[test]
fn absolute_indexed_loads() {
    let mut mem = memory_with(&[
        (0x0200, 0xBD),
        (0x0201, 0x00),
        (0x0202, 0x30),
        (0x3005, 0x77),
        (0x0203, 0xB9),
        (0x0204, 0x00),
        (0x0205, 0x30),
        (0x3009, 0x88),
    ]);
    let mut cpu = Cpu::new_test(0x0200, 0xFD, 0, 0x05, 0x09, 0x24);
    cpu.run_instr(&mut mem); // LDA $3000,X
    assert_eq!(cpu.a, 0x77);
    cpu.run_instr(&mut mem); // LDA $3000,Y
    assert_eq!(cpu.a, 0x88);
}

#[test]
fn zero_page_indexed_wraps() {
    // LDA $F0,X with X = 0x20 reads 0x10, not 0x110
    let mut mem = memory_with(&[(0x0200, 0xB5), (0x0201, 0xF0), (0x0010, 0x5A), (0x0110, 0xFF)]);
    let mut cpu = Cpu::new_test(0x0200, 0xFD, 0, 0x20, 0, 0x24);
    cpu.run_instr(&mut mem);
    assert_eq!(cpu.a, 0x5A);
}

#[test]
fn ldx_zero_page_y() {
    // LDX $F0,Y wraps within the zero page as well
    let mut mem = memory_with(&[(0x0200, 0xB6), (0x0201, 0xF0), (0x0008, 0x42)]);
    let mut cpu = Cpu::new_test(0x0200, 0xFD, 0, 0, 0x18, 0x24);
    cpu.run_instr(&mut mem);
    assert_eq!(cpu.x, 0x42);
}

#[test]
fn logical_ops_set_flags() {
    let mut mem = memory_with(&[(0x0200, 0x09), (0x0201, 0x80)]);
    let mut cpu = Cpu::new_test(0x0200, 0xFD, 0x01, 0, 0, 0x24);
    cpu.run_instr(&mut mem); // ORA #$80
    assert_eq!(cpu.a, 0x81);
    assert!(cpu.s.get_negative());

    let mut mem = memory_with(&[(0x0200, 0x29), (0x0201, 0x0F)]);
    let mut cpu = Cpu::new_test(0x0200, 0xFD, 0xF0, 0, 0, 0x24);
    cpu.run_instr(&mut mem); // AND #$0F
    assert_eq!(cpu.a, 0x00);
    assert!(cpu.s.get_zero());

    let mut mem = memory_with(&[(0x0200, 0x49), (0x0201, 0xFF)]);
    let mut cpu = Cpu::new_test(0x0200, 0xFD, 0x0F, 0, 0, 0x24);
    cpu.run_instr(&mut mem); // EOR #$FF
    assert_eq!(cpu.a, 0xF0);
    assert!(cpu.s.get_negative());
}

#[test]
fn stores_write_without_flags() {
    let mut mem = memory_with(&[(0x0200, 0x85), (0x0201, 0x10), (0x0202, 0x86), (0x0203, 0x11),
        (0x0204, 0x84), (0x0205, 0x12)]);
    let mut cpu = Cpu::new_test(0x0200, 0xFD, 0x0A, 0x0B, 0x0C, 0x24);
    cpu.run_instr(&mut mem); // STA $10
    cpu.run_instr(&mut mem); // STX $11
    cpu.run_instr(&mut mem); // STY $12
    assert_eq!(mem.load8(0x0010), 0x0A);
    assert_eq!(mem.load8(0x0011), 0x0B);
    assert_eq!(mem.load8(0x0012), 0x0C);
    assert_eq!(cpu.s.get(), 0x24);
}

#[test]
fn tick_phases_match_one_instruction() {
    let mut mem = memory_with(&[(0x0200, 0xA9), (0x0201, 0x42)]);
    let mut cpu = cpu_at(0x0200);
    assert_eq!(cpu.states, States::Fetch);
    let c1 = cpu.run(&mut mem);
    assert_eq!(cpu.states, States::Decode);
    let c2 = cpu.run(&mut mem);
    assert_eq!(cpu.states, States::Execute);
    let c3 = cpu.run(&mut mem);
    assert_eq!(cpu.states, States::Fetch);
    assert_eq!(cpu.a, 0x42);
    assert_eq!(cpu.pc, 0x0202);

    let mut mem2 = memory_with(&[(0x0200, 0xA9), (0x0201, 0x42)]);
    let mut cpu2 = cpu_at(0x0200);
    cpu2.run_instr(&mut mem2);
    assert_eq!(c1 + c2 + c3, cpu2.cycles);
    assert_eq!(cpu2.a, 0x42);
}

#[test]
fn jam_freezes_nothing_but_control() {
    let mut mem = memory_with(&[(0x0200, 0x02)]);
    let mut cpu = Cpu::new_test(0x0200, 0xFD, 0x55, 0, 0, 0x24);
    cpu.run_instr(&mut mem);
    // the handler does nothing: only the opcode fetch moved PC
    assert_eq!(cpu.pc, 0x0201);
    assert_eq!(cpu.a, 0x55);
    assert_eq!(cpu.sp, 0xFD);
}

#[test]
fn undocumented_nop_operand_skips() {
    // one-byte NOP
    let mut mem = memory_with(&[(0x0200, 0x1A)]);
    let mut cpu = cpu_at(0x0200);
    cpu.run_instr(&mut mem);
    assert_eq!(cpu.pc, 0x0201);
    // immediate NOP skips one operand byte
    let mut mem = memory_with(&[(0x0200, 0x80), (0x0201, 0x55)]);
    let mut cpu = cpu_at(0x0200);
    cpu.run_instr(&mut mem);
    assert_eq!(cpu.pc, 0x0202);
    // zero-page NOP skips one operand byte
    let mut mem = memory_with(&[(0x0200, 0x04), (0x0201, 0x55)]);
    let mut cpu = cpu_at(0x0200);
    cpu.run_instr(&mut mem);
    assert_eq!(cpu.pc, 0x0202);
    // absolute NOP skips two operand bytes
    let mut mem = memory_with(&[(0x0200, 0x0C), (0x0201, 0x55), (0x0202, 0x66)]);
    let mut cpu = cpu_at(0x0200);
    cpu.run_instr(&mut mem);
    assert_eq!(cpu.pc, 0x0203);
    // the immediate store slot is a NOP, not a stray store
    let mut mem = memory_with(&[(0x0200, 0x89), (0x0201, 0x55)]);
    let mut cpu = Cpu::new_test(0x0200, 0xFD, 0x77, 0, 0, 0x24);
    cpu.run_instr(&mut mem);
    assert_eq!(cpu.pc, 0x0202);
    assert_eq!(mem.load8(0x0201), 0x55);
}

#[test]
fn slo_shifts_then_ors() {
    let mut mem = memory_with(&[(0x0200, 0x07), (0x0201, 0x10), (0x0010, 0xC1)]);
    let mut cpu = Cpu::new_test(0x0200, 0xFD, 0x01, 0, 0, 0x24);
    cpu.run_instr(&mut mem);
    assert_eq!(mem.load8(0x0010), 0x82);
    assert_eq!(cpu.a, 0x83);
    assert!(cpu.s.get_carry());
    assert!(cpu.s.get_negative());
}

#[test]
fn rla_rotates_then_ands() {
    let mut mem = memory_with(&[(0x0200, 0x27), (0x0201, 0x10), (0x0010, 0x80)]);
    let mut cpu = Cpu::new_test(0x0200, 0xFD, 0x03, 0, 0, 0x25);
    cpu.run_instr(&mut mem);
    assert_eq!(mem.load8(0x0010), 0x01);
    assert_eq!(cpu.a, 0x01);
    assert!(cpu.s.get_carry());
}

#[test]
fn sre_shifts_then_xors() {
    let mut mem = memory_with(&[(0x0200, 0x47), (0x0201, 0x10), (0x0010, 0x03)]);
    let mut cpu = Cpu::new_test(0x0200, 0xFD, 0x0F, 0, 0, 0x24);
    cpu.run_instr(&mut mem);
    assert_eq!(mem.load8(0x0010), 0x01);
    assert_eq!(cpu.a, 0x0E);
    assert!(cpu.s.get_carry());
}

#[test]
fn rra_rotates_then_adds() {
    // ROR of 0x03 with carry clear leaves 0x01 and a carry into the add:
    // A = 0x10 + 0x01 + 1
    let mut mem = memory_with(&[(0x0200, 0x67), (0x0201, 0x10), (0x0010, 0x03)]);
    let mut cpu = Cpu::new_test(0x0200, 0xFD, 0x10, 0, 0, 0x24);
    cpu.run_instr(&mut mem);
    assert_eq!(mem.load8(0x0010), 0x01);
    assert_eq!(cpu.a, 0x12);
}

#[test]
fn anc_copies_n_into_carry() {
    let mut mem = memory_with(&[(0x0200, 0x0B), (0x0201, 0xFF)]);
    let mut cpu = Cpu::new_test(0x0200, 0xFD, 0x80, 0, 0, 0x24);
    cpu.run_instr(&mut mem);
    assert_eq!(cpu.a, 0x80);
    assert!(cpu.s.get_negative());
    assert!(cpu.s.get_carry());
}

#[test]
fn alr_ands_then_shifts() {
    let mut mem = memory_with(&[(0x0200, 0x4B), (0x0201, 0x03)]);
    let mut cpu = Cpu::new_test(0x0200, 0xFD, 0x07, 0, 0, 0x24);
    cpu.run_instr(&mut mem);
    assert_eq!(cpu.a, 0x01);
    assert!(cpu.s.get_carry());
}

#[test]
fn cpu_equality_ignores_scratch() {
    let a = Cpu::new_test(0x1234, 0xFD, 1, 2, 3, 0x24);
    let mut b = Cpu::new_test(0x1234, 0xFD, 1, 2, 3, 0x24);
    assert_eq!(a, b);
    b.cycles = 99;
    assert_eq!(a, b); // cycles are scratch
    b.a = 9;
    assert_ne!(a, b);
}

#[test]
fn jmp_absolute() {
    let mut mem = memory_with(&[(0x0200, 0x4C), (0x0201, 0xCD), (0x0202, 0xAB)]);
    let mut cpu = cpu_at(0x0200);
    cpu.run_instr(&mut mem);
    assert_eq!(cpu.pc, 0xABCD);
}

#[test]
fn indirect_y_load() {
    // LDA ($20),Y
    let mut mem = memory_with(&[
        (0x0200, 0xB1),
        (0x0201, 0x20),
        (0x0020, 0x00),
        (0x0021, 0x30),
        (0x3010, 0x66),
    ]);
    let mut cpu = Cpu::new_test(0x0200, 0xFD, 0, 0, 0x10, 0x24);
    cpu.run_instr(&mut mem);
    assert_eq!(cpu.a, 0x66);
}
