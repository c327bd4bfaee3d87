use nesse::nes::Nes;
use nesse::text::{
    find_space, parse_number, parse_operation, parse_token, push_decimal, push_decimal3,
    push_hex2, push_hex4, push_hex_short, push_spaces,
};
use nesse::Bus;
use nesse::NesRegisters;

#[test]
fn program_texts_are_cut_at_every_space() {
    assert_eq!(parse_operation(b"a9 c0 aa e8 00"), vec![0xa9, 0xc0, 0xaa, 0xe8, 0x00]);
    assert_eq!(parse_operation(b""), vec![0]);
    assert_eq!(parse_operation(b" "), vec![0, 0]);
    assert_eq!(parse_operation(b"ff"), vec![0xff]);
    assert_eq!(parse_operation(b"a9  05"), vec![0xa9, 0, 0x05]);
    assert_eq!(parse_operation(b"1 2 "), vec![1, 2, 0]);
}

#[test]
fn tokens_that_are_no_byte_stand_for_zero() {
    let value = |text: &[u8]| parse_token(text, 0, text.len());
    assert_eq!(value(b"7f"), 0x7f);
    assert_eq!(value(b"7F"), 0x7f);
    assert_eq!(value(b"+7f"), 0x7f);
    assert_eq!(value(b"0007f"), 0x7f);
    assert_eq!(value(b"f"), 0x0f);
    assert_eq!(value(b"100"), 0);
    assert_eq!(value(b"fff"), 0);
    assert_eq!(value(b"-1"), 0);
    assert_eq!(value(b"+"), 0);
    assert_eq!(value(b"++1"), 0);
    assert_eq!(value(b"0x10"), 0);
    assert_eq!(value(b"g1"), 0);
    assert_eq!(value(b"1g"), 0);
    assert_eq!(value(b"\xc3\xa9"), 0);
    assert_eq!(parse_token(b"xx12yy", 2, 4), 0x12);
}

#[test]
fn numbers_in_both_bases() {
    let parse = |text: &[u8], radix: u8| parse_number(text, 0, text.len(), radix);
    assert_eq!(parse(b"255", 10), Some(255));
    assert_eq!(parse(b"256", 10), None);
    assert_eq!(parse(b"12", 10), Some(12));
    assert_eq!(parse(b"12", 16), Some(0x12));
    assert_eq!(parse(b"1a", 10), None);
    assert_eq!(parse(b"1a", 16), Some(0x1a));
    assert_eq!(parse(b"", 10), None);
    assert_eq!(parse(b"+0", 10), Some(0));
    assert_eq!(find_space(b"ab cd", 0), 2);
    assert_eq!(find_space(b"ab cd", 2), 2);
    assert_eq!(find_space(b"ab cd", 3), 5);
    assert_eq!(find_space(b"", 0), 0);
}

#[test]
fn inject_operation_writes_at_the_program_counter() {
    let mut nes: Nes<()> = Nes::default();
    nes.inject_registers(NesRegisters::default().with_pc(0x07ff));
    nes.inject_operation("01 zz 03");
    assert_eq!(nes.get(0x07ff), 1);
    assert_eq!(nes.get(0x0800), 0);
    assert_eq!(nes.get(0x0801), 3);
    assert_eq!(nes.get(0x0001), 3);
    assert_eq!(nes.dump_registers().pc, 0x07ff);
}

#[test]
fn numbers_are_written_in_fixed_forms() {
    let mut line = String::from(">");
    push_hex2(&mut line, 0x0a);
    push_hex2(&mut line, 0xf0);
    push_hex4(&mut line, 0x00c5);
    push_hex4(&mut line, 0xbeef);
    assert_eq!(line, ">0AF000C5BEEF");
    let mut line = String::new();
    push_hex_short(&mut line, 0x0a);
    push_hex_short(&mut line, 0x00);
    push_hex_short(&mut line, 0xf0);
    push_hex_short(&mut line, 0x10);
    assert_eq!(line, "a0f010");
    let mut line = String::new();
    push_decimal(&mut line, 0);
    push_spaces(&mut line, 2);
    push_decimal(&mut line, 9);
    push_spaces(&mut line, 0);
    push_decimal(&mut line, 10);
    push_spaces(&mut line, 1);
    push_decimal(&mut line, 18446744073709551615);
    assert_eq!(line, "0  910 18446744073709551615");
    let mut line = String::new();
    push_decimal3(&mut line, 0);
    push_decimal3(&mut line, 21);
    push_decimal3(&mut line, 341);
    push_decimal3(&mut line, 999);
    assert_eq!(line, "  0 21341999");
}

#[test]
fn registers_are_shown_as_the_debug_form_shows_them() {
    let mut nes: Nes<()> = Nes::default();
    let regs = NesRegisters { pc: 0xc000, sp: 0xfd, a: 0, x: 9, y: 10, p: 0x24 };
    nes.inject_registers(regs);
    assert_eq!(nes.display_registers(), "NesRegisters { pc: 49152, sp: 253, a: 0, x: 9, y: 10, p: 36 }");
    assert_eq!(nes.display_registers(), format!("{:?}", regs));
    let mut nes: Nes<()> = Nes::default();
    nes.inject_operation("a9 c0 aa e8 00");
    nes.run_until_halt();
    assert_eq!(nes.display_registers(), format!("{:?}", nes.dump_registers()));
}

#[test]
fn the_stack_is_shown_from_its_far_end() {
    let mut nes: Nes<()> = Nes::default();
    let mut regs = NesRegisters::default();
    regs.sp = 0xff;
    nes.inject_registers(regs);
    assert_eq!(nes.dump_stack(), "0: ");
    regs.sp = 0xfb;
    nes.inject_registers(regs);
    nes.set(0x01fc, 0x0a);
    nes.set(0x01fd, 0xbc);
    nes.set(0x01fe, 0x00);
    assert_eq!(nes.dump_stack(), "2: bc / a / ");
    regs.sp = 0xfc;
    nes.inject_registers(regs);
    assert_eq!(nes.dump_stack(), "1: bc / ");
}
