use nesse::nes::Nes;
use nesse::opcodes::{
    and, asl, bit, brk, clc, cld, cli, clv, cpx, cpy, dcp, dec, dex, dey, eor, halt, ign, inc,
    inx, iny, isc, jmp, lax, lda, ldx, ldy, lsr, nop, ora, placeholder, rla, rol, ror, rra, rti,
    sax, sbc, sec, sed, sei, skb, slo, sre, sta, stx, sty, tax, tay, tsx, txa, txs, tya,
};
use nesse::Bus;
use nesse::NesRegisters;

fn machine(regs: NesRegisters) -> Nes<()> {
    let mut nes: Nes<()> = Nes::default();
    nes.inject_registers(regs);
    nes
}

fn regs(a: u8, x: u8, y: u8, p: u8) -> NesRegisters {
    NesRegisters { pc: 0x0200, sp: 0xfd, a, x, y, p }
}

#[test]
fn loads_set_their_register_and_flags() {
    let mut nes = machine(regs(0, 0, 0, 0x01));
    nes.inject_operation("80");
    assert_eq!(ldx(&mut nes, 2, 2, 2), 2);
    assert_eq!(nes.dump_registers(), NesRegisters { pc: 0x0201, sp: 0xfd, a: 0, x: 0x80, y: 0, p: 0x81 });
    nes.inject_operation("00");
    assert_eq!(ldy(&mut nes, 2, 2, 2), 2);
    assert_eq!(nes.dump_registers(), NesRegisters { pc: 0x0202, sp: 0xfd, a: 0, x: 0x80, y: 0, p: 0x03 });
}

#[test]
fn stores_write_without_touching_flags() {
    let mut nes = machine(regs(0x11, 0x22, 0x33, 0xc3));
    nes.inject_operation("40 41 42");
    assert_eq!(sta(&mut nes, 3, 3, 2), 3);
    assert_eq!(stx(&mut nes, 3, 3, 2), 3);
    assert_eq!(sty(&mut nes, 3, 3, 2), 3);
    assert_eq!(nes.get(0x40), 0x11);
    assert_eq!(nes.get(0x41), 0x22);
    assert_eq!(nes.get(0x42), 0x33);
    assert_eq!(nes.dump_registers(), NesRegisters { pc: 0x0203, sp: 0xfd, a: 0x11, x: 0x22, y: 0x33, p: 0xc3 });
}

#[test]
fn reads_cost_a_cycle_across_a_page() {
    let mut nes = machine(regs(0, 1, 0, 0));
    nes.inject_operation("ff 01");
    nes.inject_memory_value(0x0200 + 0x100, 0x00);
    nes.set(0x0200, 0xff);
    nes.set(0x0201, 0x02);
    nes.set(0x0300, 0x77);
    assert_eq!(lda(&mut nes, 8, 4, 3), 5);
    assert_eq!(nes.dump_registers().a, 0x77);
    assert_eq!(nes.dump_registers().pc, 0x0202);

    let mut nes = machine(regs(0, 1, 0, 0));
    nes.set(0x0200, 0x00);
    nes.set(0x0201, 0x03);
    nes.set(0x0301, 0x66);
    assert_eq!(lda(&mut nes, 8, 4, 3), 4);
    assert_eq!(nes.dump_registers().a, 0x66);

    let mut nes = machine(regs(0, 0, 0x10, 0));
    nes.set(0x0200, 0x80);
    nes.set(0x0080, 0xf8);
    nes.set(0x0081, 0x04);
    nes.set(0x0508, 0x55);
    assert_eq!(lda(&mut nes, 12, 5, 2), 6);
    assert_eq!(nes.dump_registers().a, 0x55);
}

#[test]
fn stores_do_not_pay_for_a_page_crossing() {
    let mut nes = machine(regs(0x99, 1, 0, 0));
    nes.set(0x0200, 0xff);
    nes.set(0x0201, 0x02);
    assert_eq!(sta(&mut nes, 8, 5, 3), 5);
    assert_eq!(nes.get(0x0300), 0x99);
}

#[test]
fn transfers_between_registers() {
    let mut nes = machine(regs(0x80, 0x00, 0x7f, 0x00));
    assert_eq!(tax(&mut nes, 0, 2, 1), 2);
    assert_eq!(nes.dump_registers().x, 0x80);
    assert_eq!(nes.dump_registers().p, 0x80);
    tya(&mut nes, 0, 2, 1);
    assert_eq!(nes.dump_registers().a, 0x7f);
    assert_eq!(nes.dump_registers().p, 0x00);
    tay(&mut nes, 0, 2, 1);
    txa(&mut nes, 0, 2, 1);
    assert_eq!(nes.dump_registers().a, 0x80);
    tsx(&mut nes, 0, 2, 1);
    assert_eq!(nes.dump_registers().x, 0xfd);
    assert_eq!(nes.dump_registers().p, 0x80);
    nes.cpu.registers.x = 0x00;
    txs(&mut nes, 0, 2, 1);
    assert_eq!(nes.dump_registers().sp, 0x00);
    assert_eq!(nes.dump_registers().p, 0x80);
}

#[test]
fn increments_and_decrements_wrap() {
    let mut nes = machine(regs(0, 0xff, 0x00, 0));
    inx(&mut nes, 0, 2, 1);
    assert_eq!((nes.dump_registers().x, nes.dump_registers().p), (0x00, 0x02));
    dey(&mut nes, 0, 2, 1);
    assert_eq!((nes.dump_registers().y, nes.dump_registers().p), (0xff, 0x80));
    dex(&mut nes, 0, 2, 1);
    assert_eq!((nes.dump_registers().x, nes.dump_registers().p), (0xff, 0x80));
    iny(&mut nes, 0, 2, 1);
    assert_eq!((nes.dump_registers().y, nes.dump_registers().p), (0x00, 0x02));
    nes.set(0x0200, 0x10);
    nes.set(0x0010, 0xff);
    assert_eq!(inc(&mut nes, 3, 5, 2), 5);
    assert_eq!((nes.get(0x0010), nes.dump_registers().p), (0x00, 0x02));
    nes.set(0x0201, 0x10);
    dec(&mut nes, 3, 5, 2);
    assert_eq!((nes.get(0x0010), nes.dump_registers().p), (0xff, 0x80));
}

#[test]
fn flag_instructions() {
    let mut nes = machine(regs(0, 0, 0, 0x00));
    sec(&mut nes, 0, 2, 1);
    assert_eq!(nes.dump_registers().p, 0x01);
    sed(&mut nes, 0, 2, 1);
    assert_eq!(nes.dump_registers().p, 0x09);
    sei(&mut nes, 0, 2, 1);
    assert_eq!(nes.dump_registers().p, 0x0d);
    clc(&mut nes, 0, 2, 1);
    assert_eq!(nes.dump_registers().p, 0x0c);
    cld(&mut nes, 0, 2, 1);
    assert_eq!(nes.dump_registers().p, 0x04);
    cli(&mut nes, 0, 2, 1);
    assert_eq!(nes.dump_registers().p, 0x00);
    nes.cpu.registers.p = 0xff;
    clv(&mut nes, 0, 2, 1);
    assert_eq!(nes.dump_registers().p, 0xbf);
    assert_eq!(nop(&mut nes, 0, 2, 1), 2);
    assert_eq!(nes.dump_registers().p, 0xbf);
}

#[test]
fn decimal_flag_does_not_change_addition() {
    let mut nes = machine(regs(0x09, 0, 0, 0x08));
    nes.set(0x0200, 0x01);
    nesse::opcodes::adc(&mut nes, 2, 2, 2);
    assert_eq!(nes.dump_registers().a, 0x0a);
    assert_eq!(nes.dump_registers().p, 0x08);
}

#[test]
fn sbc_exact_values() {
    let mut nes = machine(regs(0x50, 0, 0, 0x01));
    nes.inject_operation("30 f0 b0");
    assert_eq!(sbc(&mut nes, 2, 2, 2), 2);
    assert_eq!((nes.dump_registers().a, nes.dump_registers().p), (0x20, 0x01));
    nes.cpu.registers.a = 0x50;
    sbc(&mut nes, 2, 2, 2);
    assert_eq!((nes.dump_registers().a, nes.dump_registers().p), (0x60, 0x00));
    let mut nes = machine(regs(0x50, 0, 0, 0x01));
    nes.inject_operation("b0");
    sbc(&mut nes, 2, 2, 2);
    assert_eq!((nes.dump_registers().a, nes.dump_registers().p), (0xa0, 0xc0));
    let mut nes = machine(regs(0x00, 0, 0, 0x00));
    nes.inject_operation("00");
    sbc(&mut nes, 2, 2, 2);
    assert_eq!((nes.dump_registers().a, nes.dump_registers().p), (0xff, 0x80));
}

#[test]
fn logic_instructions() {
    let mut nes = machine(regs(0xf0, 0, 0, 0x00));
    nes.inject_operation("3c 0f ff 00");
    and(&mut nes, 2, 2, 2);
    assert_eq!((nes.dump_registers().a, nes.dump_registers().p), (0x30, 0x00));
    ora(&mut nes, 2, 2, 2);
    assert_eq!((nes.dump_registers().a, nes.dump_registers().p), (0x3f, 0x00));
    eor(&mut nes, 2, 2, 2);
    assert_eq!((nes.dump_registers().a, nes.dump_registers().p), (0xc0, 0x80));
    and(&mut nes, 2, 2, 2);
    assert_eq!((nes.dump_registers().a, nes.dump_registers().p), (0x00, 0x02));
}

#[test]
fn shifts_on_the_accumulator() {
    let mut nes = machine(regs(0x81, 0, 0, 0x00));
    assert_eq!(asl(&mut nes, 1, 2, 1), 2);
    assert_eq!((nes.dump_registers().a, nes.dump_registers().p), (0x02, 0x01));
    nes.inject_registers(regs(0x01, 0, 0, 0x00));
    lsr(&mut nes, 1, 2, 1);
    assert_eq!((nes.dump_registers().a, nes.dump_registers().p), (0x00, 0x03));
    nes.inject_registers(regs(0x80, 0, 0, 0x01));
    rol(&mut nes, 1, 2, 1);
    assert_eq!((nes.dump_registers().a, nes.dump_registers().p), (0x01, 0x01));
    nes.inject_registers(regs(0x01, 0, 0, 0x01));
    ror(&mut nes, 1, 2, 1);
    assert_eq!((nes.dump_registers().a, nes.dump_registers().p), (0x80, 0x81));
    nes.inject_registers(regs(0x40, 0, 0, 0x00));
    rol(&mut nes, 1, 2, 1);
    assert_eq!((nes.dump_registers().a, nes.dump_registers().p), (0x80, 0x80));
    assert_eq!(nes.dump_registers().pc, 0x0200);
}

#[test]
fn shifts_in_memory() {
    let mut nes = machine(regs(0x55, 0, 0, 0x01));
    nes.inject_operation("10 10 10 10");
    nes.set(0x0010, 0xc1);
    assert_eq!(asl(&mut nes, 3, 5, 2), 5);
    assert_eq!((nes.get(0x0010), nes.dump_registers().p), (0x82, 0x81));
    lsr(&mut nes, 3, 5, 2);
    assert_eq!((nes.get(0x0010), nes.dump_registers().p), (0x41, 0x00));
    ror(&mut nes, 3, 5, 2);
    assert_eq!((nes.get(0x0010), nes.dump_registers().p), (0x20, 0x01));
    rol(&mut nes, 3, 5, 2);
    assert_eq!((nes.get(0x0010), nes.dump_registers().p), (0x41, 0x00));
    assert_eq!(nes.dump_registers().a, 0x55);
    assert_eq!(nes.dump_registers().pc, 0x0204);
}

#[test]
fn compares_of_the_index_registers() {
    let mut nes = machine(regs(0, 0x10, 0x20, 0x00));
    nes.inject_operation("10 21");
    cpx(&mut nes, 2, 2, 2);
    assert_eq!(nes.dump_registers().p, 0x03);
    cpy(&mut nes, 2, 2, 2);
    assert_eq!(nes.dump_registers().p, 0x80);
    assert_eq!((nes.dump_registers().x, nes.dump_registers().y), (0x10, 0x20));
}

#[test]
fn bit_takes_its_flags_from_the_operand() {
    let mut nes = machine(regs(0x0f, 0, 0, 0x00));
    nes.inject_operation("10 11");
    nes.set(0x0010, 0xc0);
    nes.set(0x0011, 0x01);
    assert_eq!(bit(&mut nes, 3, 3, 2), 3);
    assert_eq!((nes.dump_registers().a, nes.dump_registers().p), (0x0f, 0xc2));
    bit(&mut nes, 3, 3, 2);
    assert_eq!((nes.dump_registers().a, nes.dump_registers().p), (0x0f, 0x00));
}

#[test]
fn jmp_absolute_and_rti() {
    let mut nes = machine(regs(0, 0, 0, 0x00));
    nes.inject_operation("34 12");
    assert_eq!(jmp(&mut nes, 7, 3, 3), 3);
    assert_eq!(nes.dump_registers().pc, 0x1234);

    let mut nes = machine(regs(0, 0, 0, 0x20));
    nes.stack_push_short(0x0456);
    nes.stack_push(0xcf);
    assert_eq!(rti(&mut nes, 0, 6, 1), 6);
    assert_eq!(nes.dump_registers(), NesRegisters { pc: 0x0456, sp: 0xfd, a: 0, x: 0, y: 0, p: 0xef });
}

#[test]
fn halting_instructions_leave_the_program_counter_on_themselves() {
    for stop in [brk::<()>, halt::<()>, placeholder::<()>] {
        let mut nes = machine(regs(1, 2, 3, 0x24));
        nes.cpu.running = true;
        nes.set_pc(0x0201);
        stop(&mut nes, 0, 7, 1);
        assert_eq!(nes.dump_registers(), NesRegisters { pc: 0x0200, sp: 0xfd, a: 1, x: 2, y: 3, p: 0x24 });
        assert!(!nes.cpu.running);
    }
}

#[test]
fn operand_skipping_instructions_only_move_the_program_counter() {
    let mut nes = machine(regs(1, 0xff, 3, 0x24));
    nes.inject_operation("01 02 ff");
    assert_eq!(ign(&mut nes, 7, 4, 3), 4);
    assert_eq!(nes.dump_registers(), NesRegisters { pc: 0x0202, sp: 0xfd, a: 1, x: 0xff, y: 3, p: 0x24 });
    assert_eq!(skb(&mut nes, 2, 2, 2), 2);
    assert_eq!(nes.dump_registers().pc, 0x0203);
    nes.set_pc(0x0200);
    assert_eq!(ign(&mut nes, 8, 4, 3), 5);
}

#[test]
fn undocumented_loads_and_stores() {
    let mut nes = machine(regs(0, 0, 0, 0x00));
    nes.inject_operation("10 11");
    nes.set(0x0010, 0x87);
    assert_eq!(lax(&mut nes, 3, 3, 2), 3);
    assert_eq!(nes.dump_registers(), NesRegisters { pc: 0x0201, sp: 0xfd, a: 0x87, x: 0x87, y: 0, p: 0x80 });
    nes.inject_registers(regs(0x3c, 0x0f, 0, 0xc3));
    nes.set_pc(0x0201);
    assert_eq!(sax(&mut nes, 3, 3, 2), 3);
    assert_eq!(nes.get(0x0011), 0x0c);
    assert_eq!(nes.dump_registers().p, 0xc3);
}

#[test]
fn undocumented_read_modify_write() {
    let mut nes = machine(regs(0x00, 0, 0, 0x00));
    nes.inject_operation("10 10 10 10 10 10");
    nes.set(0x0010, 0x01);
    assert_eq!(dcp(&mut nes, 3, 5, 2), 5);
    assert_eq!((nes.get(0x0010), nes.dump_registers().a, nes.dump_registers().p), (0x00, 0x00, 0x03));

    nes.set(0x0010, 0x0f);
    nes.cpu.registers.a = 0x20;
    nes.cpu.registers.p = 0x01;
    isc(&mut nes, 3, 5, 2);
    assert_eq!((nes.get(0x0010), nes.dump_registers().a, nes.dump_registers().p), (0x10, 0x10, 0x01));

    nes.set(0x0010, 0x81);
    nes.cpu.registers.a = 0x01;
    nes.cpu.registers.p = 0x00;
    slo(&mut nes, 3, 5, 2);
    assert_eq!((nes.get(0x0010), nes.dump_registers().a, nes.dump_registers().p), (0x02, 0x03, 0x01));

    nes.set(0x0010, 0x40);
    nes.cpu.registers.a = 0xff;
    nes.cpu.registers.p = 0x01;
    rla(&mut nes, 3, 5, 2);
    assert_eq!((nes.get(0x0010), nes.dump_registers().a, nes.dump_registers().p), (0x81, 0x81, 0x80));

    nes.set(0x0010, 0x03);
    nes.cpu.registers.a = 0x01;
    nes.cpu.registers.p = 0x00;
    sre(&mut nes, 3, 5, 2);
    assert_eq!((nes.get(0x0010), nes.dump_registers().a, nes.dump_registers().p), (0x01, 0x00, 0x03));

    nes.set(0x0010, 0x03);
    nes.cpu.registers.a = 0x01;
    nes.cpu.registers.p = 0x00;
    rra(&mut nes, 3, 5, 2);
    assert_eq!((nes.get(0x0010), nes.dump_registers().a, nes.dump_registers().p), (0x01, 0x03, 0x00));
}
