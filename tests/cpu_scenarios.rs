use nes_cpu::bus::BUS;
use nes_cpu::cpu::{Interrupt, CPU};

fn cpu_with_program(origin: u16, program: &[u8]) -> CPU {
    let mut bus = BUS::new();
    for (i, b) in program.iter().enumerate() {
        bus.memory[origin as usize + i] = *b;
    }
    let mut cpu = CPU::new(bus);
    cpu.pc = origin;
    cpu
}

/// Runs one whole instruction; returns the number of clock ticks it took.
fn step(cpu: &mut CPU) -> u32 {
    let mut ticks: u32 = 1;
    cpu.clock();
    while !cpu.complete() {
        cpu.clock();
        ticks += 1;
    }
    ticks
}

#[test]
fn lda_immediate_sets_zero_flag() {
    let mut cpu = cpu_with_program(0x0000, &[0xA9, 0x00, 0x00]);
    step(&mut cpu);
    assert_eq!(cpu.a, 0);
    assert!(cpu.get_zero());
    assert!(!cpu.get_negative());
}

#[test]
fn lda_immediate_negative_value() {
    let mut cpu = cpu_with_program(0x0000, &[0xA9, 0x80]);
    step(&mut cpu);
    assert_eq!(cpu.a, 0x80);
    assert!(!cpu.get_zero());
    assert!(cpu.get_negative());
    assert_eq!(cpu.pc, 0x0002);
}

#[test]
fn adc_signed_overflow() {
    let mut cpu = cpu_with_program(0x0000, &[0x69, 0x50]);
    cpu.a = 0x50;
    cpu.set_carry(false);
    step(&mut cpu);
    assert_eq!(cpu.a, 0xA0);
    assert!(!cpu.get_carry());
    assert!(cpu.get_overflow());
    assert!(cpu.get_negative());
    assert!(!cpu.get_zero());
}

#[test]
fn adc_carry_out_and_carry_in() {
    let mut cpu = cpu_with_program(0x0000, &[0x69, 0x01]);
    cpu.a = 0xFF;
    cpu.set_carry(true);
    step(&mut cpu);
    assert_eq!(cpu.a, 0x01);
    assert!(cpu.get_carry());
    assert!(!cpu.get_overflow());
}

#[test]
fn sbc_borrow_and_overflow() {
    // 0x50 - 0xB0 with carry set (no borrow): 0xA0, borrow, signed overflow.
    let mut cpu = cpu_with_program(0x0000, &[0xE9, 0xB0]);
    cpu.a = 0x50;
    cpu.set_carry(true);
    step(&mut cpu);
    assert_eq!(cpu.a, 0xA0);
    assert!(!cpu.get_carry());
    assert!(cpu.get_overflow());
    assert!(cpu.get_negative());
}

#[test]
fn sbc_without_borrow() {
    let mut cpu = cpu_with_program(0x0000, &[0xE9, 0x10]);
    cpu.a = 0x30;
    cpu.set_carry(true);
    step(&mut cpu);
    assert_eq!(cpu.a, 0x20);
    assert!(cpu.get_carry());
    assert!(!cpu.get_overflow());
}

#[test]
fn indirect_jump_page_bug() {
    let mut cpu = cpu_with_program(0x0400, &[0x6C, 0xFF, 0x02]);
    cpu.bus.memory[0x02FF] = 0x34;
    cpu.bus.memory[0x0200] = 0x12;
    cpu.bus.memory[0x0300] = 0xAB;
    step(&mut cpu);
    assert_eq!(cpu.pc, 0x1234);
}

#[test]
fn branch_taken_across_page() {
    let mut cpu = cpu_with_program(0x01FD, &[0xD0, 0x05]);
    cpu.set_zero(false);
    let ticks = step(&mut cpu);
    assert_eq!(cpu.pc, 0x0204);
    assert_eq!(ticks, 4);
}

#[test]
fn branch_not_taken_and_taken_same_page() {
    let mut cpu = cpu_with_program(0x0010, &[0xF0, 0x05]);
    cpu.set_zero(false);
    assert_eq!(step(&mut cpu), 2);
    assert_eq!(cpu.pc, 0x0012);
    let mut cpu = cpu_with_program(0x0010, &[0xF0, 0x05]);
    cpu.set_zero(true);
    assert_eq!(step(&mut cpu), 3);
    assert_eq!(cpu.pc, 0x0017);
}

#[test]
fn branch_backwards() {
    let mut cpu = cpu_with_program(0x0010, &[0x10, 0xFC]);
    cpu.set_negative(false);
    step(&mut cpu);
    assert_eq!(cpu.pc, 0x000E);
}

#[test]
fn jsr_rts_round_trip() {
    let mut cpu = cpu_with_program(0x0200, &[0x20, 0x06, 0x02, 0xEA, 0x00, 0x00, 0x60]);
    let a = cpu.a;
    let p = cpu.p;
    let sp = cpu.sp;
    step(&mut cpu);
    assert_eq!(cpu.pc, 0x0206);
    assert_eq!(cpu.sp, sp.wrapping_sub(2));
    step(&mut cpu);
    assert_eq!(cpu.pc, 0x0203);
    assert_eq!(cpu.a, a);
    assert_eq!(cpu.p, p);
    assert_eq!(cpu.sp, sp);
}

#[test]
fn pha_pla_round_trip() {
    let mut cpu = cpu_with_program(0x0000, &[0x48, 0xA9, 0x00, 0x68]);
    cpu.a = 0x9C;
    cpu.x = 0x11;
    cpu.y = 0x22;
    step(&mut cpu);
    assert_eq!(cpu.sp, 0xFC);
    assert_eq!(cpu.bus.memory[0x01FD], 0x9C);
    step(&mut cpu);
    assert_eq!(cpu.a, 0);
    step(&mut cpu);
    assert_eq!(cpu.a, 0x9C);
    assert_eq!(cpu.x, 0x11);
    assert_eq!(cpu.y, 0x22);
    assert_eq!(cpu.sp, 0xFD);
    assert!(cpu.get_negative());
    assert!(!cpu.get_zero());
}

#[test]
fn php_plp_round_trip() {
    // PHP, then LDA #0 / CLC / SEI changes flags, then PLP restores them.
    let mut cpu = cpu_with_program(0x0000, &[0x08, 0xA9, 0x00, 0x18, 0x78, 0x28]);
    cpu.p = 0xC1 | 0x20;
    step(&mut cpu);
    assert_eq!(cpu.bus.memory[0x01FD], 0xF1);
    step(&mut cpu);
    step(&mut cpu);
    step(&mut cpu);
    step(&mut cpu);
    assert_eq!(cpu.p, 0xE1);
    assert_eq!(cpu.sp, 0xFD);
}

#[test]
fn plp_ignores_break_and_sets_unused() {
    let mut cpu = cpu_with_program(0x0000, &[0xA9, 0xFF, 0x48, 0x28]);
    step(&mut cpu);
    step(&mut cpu);
    step(&mut cpu);
    assert_eq!(cpu.p, 0xEF);
}

#[test]
fn stack_pointer_wraps() {
    let mut cpu = cpu_with_program(0x0000, &[0x48, 0x68]);
    cpu.sp = 0x00;
    cpu.a = 0x42;
    step(&mut cpu);
    assert_eq!(cpu.sp, 0xFF);
    assert_eq!(cpu.bus.memory[0x0100], 0x42);
    step(&mut cpu);
    assert_eq!(cpu.sp, 0x00);
    assert_eq!(cpu.a, 0x42);
}

#[test]
fn unused_flag_always_reads_one() {
    let mut cpu = cpu_with_program(0x0000, &[0xEA]);
    cpu.p = 0x00;
    step(&mut cpu);
    assert_eq!(cpu.p & 0x20, 0x20);
}

#[test]
fn zero_page_x_wraps_in_page_zero() {
    let mut cpu = cpu_with_program(0x0200, &[0xB5, 0xF0]);
    cpu.x = 0x20;
    cpu.bus.memory[0x0010] = 0x77;
    cpu.bus.memory[0x0110] = 0x99;
    step(&mut cpu);
    assert_eq!(cpu.a, 0x77);
}

#[test]
fn indirect_x_pointer_wraps_in_page_zero() {
    let mut cpu = cpu_with_program(0x0200, &[0xA1, 0xFE]);
    cpu.x = 0x01;
    cpu.bus.memory[0x00FF] = 0x34;
    cpu.bus.memory[0x0000] = 0x03;
    cpu.bus.memory[0x0100] = 0x05;
    cpu.bus.memory[0x0334] = 0x5A;
    step(&mut cpu);
    assert_eq!(cpu.a, 0x5A);
}

#[test]
fn indirect_y_page_cross_costs_a_cycle() {
    let mut cpu = cpu_with_program(0x0200, &[0xB1, 0x10]);
    cpu.y = 0x10;
    cpu.bus.memory[0x0010] = 0xF8;
    cpu.bus.memory[0x0011] = 0x03;
    cpu.bus.memory[0x0408] = 0x66;
    let ticks = step(&mut cpu);
    assert_eq!(cpu.a, 0x66);
    assert_eq!(ticks, 6);
}

#[test]
fn absolute_x_page_cross_on_read_not_on_store() {
    let mut cpu = cpu_with_program(0x0200, &[0xBD, 0xF0, 0x02]);
    cpu.x = 0x20;
    cpu.bus.memory[0x0310] = 0x0D;
    assert_eq!(step(&mut cpu), 5);
    assert_eq!(cpu.a, 0x0D);
    let mut cpu = cpu_with_program(0x0200, &[0x9D, 0xF0, 0x02]);
    cpu.x = 0x20;
    cpu.a = 0x44;
    assert_eq!(step(&mut cpu), 5);
    assert_eq!(cpu.bus.memory[0x0310], 0x44);
}

#[test]
fn compare_sets_carry_zero_negative() {
    let mut cpu = cpu_with_program(0x0000, &[0xC9, 0x40, 0xC9, 0x41, 0xC9, 0x3F]);
    cpu.a = 0x40;
    step(&mut cpu);
    assert!(cpu.get_zero() && cpu.get_carry() && !cpu.get_negative());
    step(&mut cpu);
    assert!(!cpu.get_zero() && !cpu.get_carry() && cpu.get_negative());
    step(&mut cpu);
    assert!(!cpu.get_zero() && cpu.get_carry() && !cpu.get_negative());
}

#[test]
fn shifts_and_rotates() {
    // ASL A, ROR A, LSR A, ROL A
    let mut cpu = cpu_with_program(0x0000, &[0x0A, 0x6A, 0x4A, 0x2A]);
    cpu.a = 0x81;
    cpu.set_carry(false);
    step(&mut cpu);
    assert_eq!(cpu.a, 0x02);
    assert!(cpu.get_carry());
    step(&mut cpu);
    assert_eq!(cpu.a, 0x81);
    assert!(!cpu.get_carry());
    step(&mut cpu);
    assert_eq!(cpu.a, 0x40);
    assert!(cpu.get_carry());
    step(&mut cpu);
    assert_eq!(cpu.a, 0x81);
    assert!(!cpu.get_carry());
}

#[test]
fn memory_increment_wraps() {
    let mut cpu = cpu_with_program(0x0200, &[0xE6, 0x10, 0xC6, 0x11]);
    cpu.bus.memory[0x0010] = 0xFF;
    cpu.bus.memory[0x0011] = 0x00;
    step(&mut cpu);
    assert_eq!(cpu.bus.memory[0x0010], 0x00);
    assert!(cpu.get_zero());
    step(&mut cpu);
    assert_eq!(cpu.bus.memory[0x0011], 0xFF);
    assert!(cpu.get_negative());
}

#[test]
fn bit_copies_operand_bits() {
    let mut cpu = cpu_with_program(0x0200, &[0x24, 0x10]);
    cpu.bus.memory[0x0010] = 0xC0;
    cpu.a = 0x01;
    step(&mut cpu);
    assert!(cpu.get_zero());
    assert!(cpu.get_overflow());
    assert!(cpu.get_negative());
}

#[test]
fn undocumented_lax_sax_dcp_isc() {
    let mut cpu = cpu_with_program(0x0200, &[0xA7, 0x10, 0x87, 0x11, 0xC7, 0x12, 0xE7, 0x13]);
    cpu.bus.memory[0x0010] = 0x3C;
    cpu.bus.memory[0x0012] = 0x3D;
    cpu.bus.memory[0x0013] = 0x0F;
    step(&mut cpu);
    assert_eq!(cpu.a, 0x3C);
    assert_eq!(cpu.x, 0x3C);
    cpu.x = 0x0F;
    step(&mut cpu);
    assert_eq!(cpu.bus.memory[0x0011], 0x0C);
    step(&mut cpu);
    assert_eq!(cpu.bus.memory[0x0012], 0x3C);
    assert!(cpu.get_zero() && cpu.get_carry());
    step(&mut cpu);
    assert_eq!(cpu.bus.memory[0x0013], 0x10);
    assert_eq!(cpu.a, 0x2C);
    assert!(cpu.get_carry());
}

#[test]
fn undocumented_slo_rla_sre_rra() {
    let mut cpu = cpu_with_program(0x0200, &[0x07, 0x10, 0x27, 0x11, 0x47, 0x12, 0x67, 0x13]);
    cpu.bus.memory[0x0010] = 0x81;
    cpu.bus.memory[0x0011] = 0x01;
    cpu.bus.memory[0x0012] = 0x03;
    cpu.bus.memory[0x0013] = 0x02;
    cpu.a = 0x10;
    cpu.set_carry(false);
    step(&mut cpu);
    assert_eq!(cpu.bus.memory[0x0010], 0x02);
    assert_eq!(cpu.a, 0x12);
    assert!(cpu.get_carry());
    step(&mut cpu);
    assert_eq!(cpu.bus.memory[0x0011], 0x03);
    assert_eq!(cpu.a, 0x02);
    step(&mut cpu);
    assert_eq!(cpu.bus.memory[0x0012], 0x01);
    assert_eq!(cpu.a, 0x03);
    assert!(cpu.get_carry());
    step(&mut cpu);
    assert_eq!(cpu.bus.memory[0x0013], 0x81);
    assert_eq!(cpu.a, 0x84);
}

#[test]
fn unknown_opcode_runs_as_nop() {
    let mut cpu = cpu_with_program(0x0000, &[0x02, 0xEA]);
    let a = cpu.a;
    step(&mut cpu);
    assert_eq!(cpu.pc, 0x0001);
    assert_eq!(cpu.a, a);
}

#[test]
fn transfers_and_index_registers() {
    // LDX #$FF, TXS, INX, TSX, DEY
    let mut cpu = cpu_with_program(0x0000, &[0xA2, 0xFF, 0x9A, 0xE8, 0xBA, 0x88]);
    step(&mut cpu);
    step(&mut cpu);
    assert_eq!(cpu.sp, 0xFF);
    step(&mut cpu);
    assert_eq!(cpu.x, 0x00);
    assert!(cpu.get_zero());
    step(&mut cpu);
    assert_eq!(cpu.x, 0xFF);
    assert!(cpu.get_negative());
    step(&mut cpu);
    assert_eq!(cpu.y, 0xFF);
}

#[test]
fn clock_pays_cycles_one_per_tick() {
    let mut cpu = cpu_with_program(0x0000, &[0xEA, 0xEA]);
    assert!(cpu.complete());
    cpu.clock();
    assert!(!cpu.complete());
    assert_eq!(cpu.pc, 0x0001);
    cpu.clock();
    assert!(cpu.complete());
    assert_eq!(cpu.pc, 0x0001);
}

#[test]
fn irq_masked_nmi_not() {
    let mut cpu = cpu_with_program(0x0300, &[0xEA]);
    cpu.p = 0x24;
    cpu.interrupt(Interrupt::Irq);
    assert_eq!(cpu.pc, 0x0300);
    assert_eq!(cpu.sp, 0xFD);
    cpu.interrupt(Interrupt::Nmi);
    assert_eq!(cpu.pc, 0x0000);
    assert_eq!(cpu.sp, 0xFA);
    assert_eq!(cpu.bus.memory[0x01FD], 0x03);
    assert_eq!(cpu.bus.memory[0x01FC], 0x00);
    assert_eq!(cpu.bus.memory[0x01FB], 0x24);
    assert!(cpu.get_interrupt_disable());
    assert!(!cpu.complete());
}

#[test]
fn irq_when_enabled_pushes_state() {
    let mut cpu = cpu_with_program(0x0345, &[0xEA]);
    cpu.p = 0x20 | 0x01;
    cpu.interrupt(Interrupt::Irq);
    assert_eq!(cpu.sp, 0xFA);
    assert_eq!(cpu.bus.memory[0x01FD], 0x03);
    assert_eq!(cpu.bus.memory[0x01FC], 0x45);
    assert_eq!(cpu.bus.memory[0x01FB], 0x21);
    assert_eq!(cpu.p, 0x25);
}

#[test]
fn brk_pushes_break_flag() {
    let mut cpu = cpu_with_program(0x0300, &[0x00, 0x00]);
    cpu.p = 0x20;
    step(&mut cpu);
    assert_eq!(cpu.bus.memory[0x01FD], 0x03);
    assert_eq!(cpu.bus.memory[0x01FC], 0x02);
    assert_eq!(cpu.bus.memory[0x01FB], 0x30);
    assert!(cpu.get_interrupt_disable());
    assert!(!cpu.get_break());
    assert_eq!(cpu.pc, 0x0000);
}

#[test]
fn rti_restores_status_and_pc() {
    let mut cpu = cpu_with_program(0x0000, &[0x40]);
    cpu.sp = 0xFA;
    cpu.bus.memory[0x01FB] = 0xD3;
    cpu.bus.memory[0x01FC] = 0x34;
    cpu.bus.memory[0x01FD] = 0x12;
    step(&mut cpu);
    assert_eq!(cpu.pc, 0x1234);
    assert_eq!(cpu.p, 0xE3);
    assert_eq!(cpu.sp, 0xFD);
}

#[test]
fn trace_record_reads_next_bytes() {
    let mut cpu = cpu_with_program(0x0010, &[0x4C, 0xF5, 0xC5]);
    let r = cpu.trace_record();
    assert_eq!(r.pc, 0x0010);
    assert_eq!(r.opcode, 0x4C);
    assert_eq!(r.operand1, 0xF5);
    assert_eq!(r.operand2, 0xC5);
    assert_eq!(r.p, 0x24);
    assert_eq!(r.sp, 0xFD);
    assert_eq!(r.cycle_count, 7);
}
