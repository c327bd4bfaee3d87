use nesse::nes::Nes;
use nesse::opcodes::{adc, bcc, beq, bne, cmp, jsr, lda, pha, php, pla, plp, rts};
use nesse::Bus;
use nesse::NesRegisters;

fn machine() -> Nes<()> {
    Nes::default()
}

#[test]
fn lda_immediate_for_every_byte() {
    for value in 0..=255u8 {
        let mut nes = machine();
        nes.inject_registers(NesRegisters::default().with_pc(0x0200));
        nes.inject_memory_value(0x0200, value);
        let spent = lda(&mut nes, 2, 2, 2);
        let regs = nes.dump_registers();
        assert_eq!(spent, 2);
        assert_eq!(regs.a, value);
        assert_eq!(regs.status_zero(), value == 0);
        assert_eq!(regs.status_negative(), value >= 0x80);
        assert_eq!(regs.pc, 0x0201);
    }
}

#[test]
fn adc_without_carry_for_every_pair() {
    for a in 0..=255u8 {
        for value in 0..=255u8 {
            let mut nes = machine();
            nes.inject_registers(NesRegisters::default().with_a(a).with_pc(0x0200));
            nes.inject_memory_value(0x0200, value);
            adc(&mut nes, 2, 2, 2);
            let regs = nes.dump_registers();
            let carry = if regs.status_carry() { 1u16 } else { 0 };
            assert_eq!(regs.a as u16 + 256 * carry, a as u16 + value as u16);
            assert_eq!(
                regs.status_overflow(),
                (value ^ regs.a) & (regs.a ^ a) & 0x80 != 0
            );
        }
    }
}

#[test]
fn base_cycles_are_bounded_only_where_cycles_are_added() {
    let mut nes = machine();
    nes.inject_registers(NesRegisters::default().with_pc(0x0200));
    nes.inject_memory_value(0x0200, 0x80);
    assert_eq!(lda(&mut nes, 2, 255, 2), 255);
    assert_eq!(nes.dump_registers().a, 0x80);
    assert_eq!(cmp(&mut nes, 3, 255, 2), 255);
    assert_eq!(adc(&mut nes, 7, 255, 3), 255);
    let mut regs = NesRegisters::default().with_pc(0x0200);
    regs.set_flags(1);
    nes.inject_registers(regs);
    assert_eq!(beq(&mut nes, 6, 255, 2), 255);
    assert_eq!(nes.dump_registers().pc, 0x0201);
    assert_eq!(bne(&mut nes, 6, 253, 2), 254);
}

#[test]
fn adc_exact_values() {
    let mut nes = machine();
    nes.inject_registers(NesRegisters::default().with_a(0x50).with_pc(0x0200));
    nes.inject_memory_value(0x0200, 0x50);
    adc(&mut nes, 2, 2, 2);
    let regs = nes.dump_registers();
    assert_eq!(regs.a, 0xa0);
    assert_eq!(regs.p, 0xc0);

    let mut nes = machine();
    let mut start = NesRegisters::default().with_a(0xff).with_pc(0x0200);
    start.set_carry();
    nes.inject_registers(start);
    nes.inject_memory_value(0x0200, 0x00);
    adc(&mut nes, 2, 2, 2);
    let regs = nes.dump_registers();
    assert_eq!(regs.a, 0x00);
    assert_eq!(regs.p, 0x03);
}

#[test]
fn cmp_for_every_pair() {
    for a in 0..=255u8 {
        for value in 0..=255u8 {
            let mut nes = machine();
            nes.inject_registers(NesRegisters::default().with_a(a).with_pc(0x0200));
            nes.inject_memory_value(0x0200, value);
            cmp(&mut nes, 2, 2, 2);
            let regs = nes.dump_registers();
            assert_eq!(regs.status_carry(), a >= value);
            assert_eq!(regs.status_zero(), a == value);
            assert_eq!(regs.status_negative(), a.wrapping_sub(value) & 0x80 != 0);
            assert_eq!(regs.a, a);
        }
    }
}

#[test]
fn stack_round_trip_for_every_stack_pointer() {
    for sp in 0..=255u8 {
        for value in [0x0000u16, 0x1234, 0xff00, 0x00ff, 0xffff, 0x8001] {
            let mut nes = machine();
            let mut regs = NesRegisters::default();
            regs.sp = sp;
            nes.inject_registers(regs);
            nes.stack_push_short(value);
            assert_eq!(nes.dump_registers().sp, sp.wrapping_sub(2));
            assert_eq!(nes.stack_pop_short(), value);
            assert_eq!(nes.dump_registers().sp, sp);
        }
    }
}

#[test]
fn push_at_zero_writes_0100_and_wraps() {
    let mut nes = machine();
    nes.stack_push(0xab);
    assert_eq!(nes.get(0x0100), 0xab);
    assert_eq!(nes.dump_registers().sp, 0xff);
    assert_eq!(nes.stack_pop(), 0xab);
    assert_eq!(nes.dump_registers().sp, 0x00);
}

#[test]
fn push_short_stores_the_high_byte_first() {
    let mut nes = machine();
    let mut regs = NesRegisters::default();
    regs.sp = 0xfd;
    nes.inject_registers(regs);
    nes.stack_push_short(0x1234);
    assert_eq!(nes.get(0x01fd), 0x12);
    assert_eq!(nes.get(0x01fc), 0x34);
    assert_eq!(nes.stack_pop(), 0x34);
    assert_eq!(nes.stack_pop(), 0x12);
}

#[test]
fn taken_branches_across_pages() {
    let cases: [(u16, u8, u16, u8); 6] = [
        (0x00f0, 0x20, 0x0111, 4),
        (0x0100, 0xfd, 0x00fe, 4),
        (0x0010, 0x05, 0x0016, 3),
        (0x1ff0, 0x7f, 0x2070, 4),
        (0x0000, 0x80, 0xff81, 4),
        (0x0280, 0x80, 0x0201, 3),
    ];
    for (pc, offset, target, cycles) in cases {
        let mut nes = machine();
        let mut regs = NesRegisters::default().with_pc(pc);
        regs.set_flags(0);
        nes.inject_registers(regs);
        nes.inject_memory_value(pc, offset);
        let spent = beq(&mut nes, 6, 2, 2);
        assert_eq!(nes.dump_registers().pc, target);
        assert_eq!(spent, cycles);
    }
}

#[test]
fn branch_not_taken_moves_past_the_operand() {
    let mut nes = machine();
    let mut regs = NesRegisters::default().with_pc(0x0010);
    regs.set_flags(0);
    nes.inject_registers(regs);
    nes.inject_memory_value(0x0010, 0x40);
    let spent = bne(&mut nes, 6, 2, 2);
    assert_eq!(nes.dump_registers().pc, 0x0011);
    assert_eq!(spent, 2);
    let spent = bcc(&mut nes, 6, 2, 2);
    assert_eq!(spent, 3);
}

#[test]
fn ram_is_mirrored_every_2_kib() {
    for address in [0x0000u16, 0x0001, 0x07ff, 0x0800, 0x0fff, 0x1000, 0x17ff, 0x1800, 0x1fff] {
        let mut nes = machine();
        nes.set(address, 0x5a);
        assert_eq!(nes.get(address ^ 0x0800), 0x5a);
        assert_eq!(nes.get(address & 0x07ff), 0x5a);
        assert_eq!(nes.get(address), 0x5a);
    }
}

#[test]
fn pha_then_pla_restores_a() {
    for sp in [0x00u8, 0x01, 0xfd, 0xff] {
        let mut nes = machine();
        let mut regs = NesRegisters::default().with_a(0x9c);
        regs.sp = sp;
        nes.inject_registers(regs);
        pha(&mut nes, 0, 3, 1);
        nes.cpu.registers.a = 0;
        pla(&mut nes, 0, 4, 1);
        let regs = nes.dump_registers();
        assert_eq!(regs.a, 0x9c);
        assert_eq!(regs.sp, sp);
        assert!(regs.status_negative());
        assert!(!regs.status_zero());
    }
}

#[test]
fn php_then_plp_restores_p() {
    for p in [0x00u8, 0x24, 0xff, 0xcf, 0x30, 0x10, 0x81] {
        let mut nes = machine();
        let mut regs = NesRegisters::default();
        regs.p = p;
        regs.sp = 0xfd;
        nes.inject_registers(regs);
        php(&mut nes, 0, 3, 1);
        assert_eq!(nes.get(0x01fd), p | 0x30);
        nes.cpu.registers.p = p & 0x30;
        plp(&mut nes, 0, 4, 1);
        let regs = nes.dump_registers();
        assert_eq!(regs.p, p);
        assert_eq!(regs.sp, 0xfd);
    }
}

#[test]
fn plp_keeps_the_b_bits_of_the_register() {
    let mut nes = machine();
    let mut regs = NesRegisters::default();
    regs.p = 0x10;
    regs.sp = 0xfc;
    nes.inject_registers(regs);
    nes.set(0x01fd, 0xef);
    plp(&mut nes, 0, 4, 1);
    assert_eq!(nes.dump_registers().p, 0xdf);
}

#[test]
fn jsr_then_rts_returns_behind_the_operand() {
    for sp in [0x00u8, 0x01, 0x80, 0xfd, 0xfe] {
        let mut nes = machine();
        let mut regs = NesRegisters::default().with_pc(0x0301);
        regs.sp = sp;
        nes.inject_registers(regs);
        nes.inject_memory_value(0x0301, 0x34);
        nes.inject_memory_value(0x0302, 0x12);
        jsr(&mut nes, 7, 6, 3);
        assert_eq!(nes.dump_registers().pc, 0x1234);
        rts(&mut nes, 0, 6, 1);
        assert_eq!(nes.dump_registers().pc, 0x0303);
        assert_eq!(nes.dump_registers().sp, sp);
    }
}

#[test]
fn rts_with_the_stack_pointer_at_reset_stops_the_machine() {
    let mut nes = machine();
    let mut regs = NesRegisters::default().with_pc(0x0301);
    regs.sp = 0xff;
    nes.inject_registers(regs);
    nes.cpu.running = true;
    jsr(&mut nes, 7, 6, 3);
    assert_eq!(nes.dump_registers().sp, 0xfd);
    nes.set_pc(0x0401);
    rts(&mut nes, 0, 6, 1);
    assert_eq!(nes.dump_registers().pc, 0x0400);
    assert_eq!(nes.dump_registers().sp, 0xfd);
    assert!(!nes.cpu.running);
}
