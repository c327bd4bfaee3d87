use nesse::jumptable::{documented, opcode_entry, opcode_jumptable, Operation};
use nesse::nes::Nes;
use nesse::opcode_debug::opcode_name;
use nesse::peripherals::{opcode_group, OpGroup, Spy};
use nesse::Bus;
use nesse::NesRegisters;

fn line(program: &str, regs: NesRegisters, memory: &[(u16, u8)]) -> String {
    let mut nes: Nes<()> = Nes::default();
    nes.inject_registers(regs);
    nes.inject_operation(program);
    for (address, value) in memory {
        nes.set(*address, *value);
    }
    Spy::new(&[]).trace_line(&nes)
}

fn at(pc: u16, x: u8, y: u8) -> NesRegisters {
    NesRegisters { pc, sp: 0xfd, a: 0x1a, x, y, p: 0x24 }
}

const TAIL: &str = "A:1A X:02 Y:03 P:24 SP:FD PPU: 10, 55 CYC:0";

#[test]
fn implicit_and_accumulator() {
    assert_eq!(
        line("ea", at(0x0600, 2, 3), &[]),
        format!("0600  EA        NOP                             {}", TAIL)
    );
    assert_eq!(
        line("4a", at(0x0600, 2, 3), &[]),
        format!("0600  4A        LSR A                           {}", TAIL)
    );
}

#[test]
fn immediate_and_zero_page() {
    assert_eq!(
        line("a9 7f", at(0x0600, 2, 3), &[]),
        format!("0600  A9 7F     LDA #$7F                        {}", TAIL)
    );
    assert_eq!(
        line("a5 10", at(0x0600, 2, 3), &[(0x10, 0x7f)]),
        format!("0600  A5 10     LDA $10 = 7F                    {}", TAIL)
    );
    assert_eq!(
        line("b5 ff", at(0x0600, 2, 3), &[(0x01, 0xaa)]),
        format!("0600  B5 FF     LDA $FF,X @ 01 = AA             {}", TAIL)
    );
    assert_eq!(
        line("b6 33", at(0x0600, 2, 3), &[(0x36, 0xab)]),
        format!("0600  B6 33     LDX $33,Y @ 36 = AB             {}", TAIL)
    );
}

#[test]
fn relative_gives_the_destination() {
    assert_eq!(
        line("f0 03", at(0x0600, 2, 3), &[]),
        format!("0600  F0 03     BEQ $0605                       {}", TAIL)
    );
    assert_eq!(
        line("d0 fc", at(0x0600, 2, 3), &[]),
        format!("0600  D0 FC     BNE $05FE                       {}", TAIL)
    );
}

#[test]
fn absolute_forms() {
    assert_eq!(
        line("ad 33 06", at(0x0600, 2, 3), &[(0x0633, 0xaa)]),
        format!("0600  AD 33 06  LDA $0633 = AA                  {}", TAIL)
    );
    assert_eq!(
        line("4c f5 c5", at(0x0600, 2, 3), &[]),
        format!("0600  4C F5 C5  JMP $C5F5                       {}", TAIL)
    );
    assert_eq!(
        line("20 2d c7", at(0x0600, 2, 3), &[]),
        format!("0600  20 2D C7  JSR $C72D                       {}", TAIL)
    );
    assert_eq!(
        line("bd ff 06", at(0x0600, 2, 3), &[(0x0701, 0x5a)]),
        format!("0600  BD FF 06  LDA $06FF,X @ 0701 = 5A         {}", TAIL)
    );
    assert_eq!(
        line("b9 00 07", at(0x0600, 2, 3), &[(0x0703, 0x5b)]),
        format!("0600  B9 00 07  LDA $0700,Y @ 0703 = 5B         {}", TAIL)
    );
}

#[test]
fn indirect_forms() {
    assert_eq!(
        line("6c ff 02", at(0x0600, 2, 3), &[(0x02ff, 0x7e), (0x0200, 0xdb), (0x0300, 0x11)]),
        format!("0600  6C FF 02  JMP ($02FF) = DB7E              {}", TAIL)
    );
    assert_eq!(
        line("a1 80", at(0x0600, 2, 3), &[(0x82, 0x00), (0x83, 0x02), (0x0200, 0x5a)]),
        format!("0600  A1 80     LDA ($80,X) @ 82 = 0200 = 5A    {}", TAIL)
    );
    assert_eq!(
        line("b1 33", at(0x0600, 2, 3), &[(0x33, 0xfe), (0x34, 0x03), (0x0401, 0x7f)]),
        format!("0600  B1 33     LDA ($33),Y = 03FE @ 0401 = 7F  {}", TAIL)
    );
}

#[test]
fn undocumented_names_carry_an_asterisk() {
    assert_eq!(
        line("04 a9", at(0x0600, 2, 3), &[(0xa9, 0x00)]),
        format!("0600  04 A9    *NOP $A9 = 00                    {}", TAIL)
    );
    assert_eq!(
        line("a7 67", at(0x0600, 2, 3), &[(0x67, 0x87)]),
        format!("0600  A7 67    *LAX $67 = 87                    {}", TAIL)
    );
    assert_eq!(
        line("eb 40", at(0x0600, 2, 3), &[]),
        format!("0600  EB 40    *SBC #$40                        {}", TAIL)
    );
    assert_eq!(
        line("e7 10", at(0x0600, 2, 3), &[(0x10, 0x01)]),
        format!("0600  E7 10    *ISB $10 = 01                    {}", TAIL)
    );
    assert_eq!(
        line("8b", at(0x0600, 2, 3), &[]),
        format!("0600  8B       *XXX                             {}", TAIL)
    );
}

#[test]
fn labels_and_cycles() {
    let mut nes: Nes<()> = Nes::default();
    nes.inject_registers(at(0x0600, 2, 3));
    nes.inject_operation("ea");
    nes.cpu.cycles = 8991;
    let spy = Spy::new(&[(0x0700, "later"), (0x0600, "start"), (0x0600, "again")]);
    assert_eq!(
        spy.trace_line(&nes),
        "start:\n0600  EA        NOP                             A:1A X:02 Y:03 P:24 SP:FD PPU: 10, 55 CYC:8991"
    );
}

#[test]
fn the_tracer_does_not_touch_the_machine() {
    let mut nes: Nes<()> = Nes::default();
    nes.inject_registers(at(0x2000, 2, 3));
    nes.set(0x2001, 0xff);
    let latch_before = format!("{:?}", nes.ppu.latch.read());
    let _ = Spy::new(&[]).trace_line(&nes);
    assert_eq!(format!("{:?}", nes.ppu.latch.read()), latch_before);
    assert_eq!(nes.dump_registers(), at(0x2000, 2, 3));
}

#[test]
fn every_encoding_has_an_entry_and_a_name() {
    let table = opcode_jumptable();
    assert_eq!(table.len(), 256);
    for opcode in 0..=255u8 {
        let entry = opcode_entry(opcode);
        assert_eq!(entry, table[opcode as usize]);
        assert!(entry.addressing <= 12);
        assert!((1..=3).contains(&entry.bytes));
        let name = opcode_name(opcode);
        if documented(opcode) {
            assert_eq!(name.len(), 3);
        } else {
            assert_eq!(name.len(), 4);
            assert!(name.starts_with('*'));
        }
    }
    let lda = opcode_entry(0xa9);
    assert_eq!((lda.handler, lda.addressing, lda.cycles, lda.bytes), (Operation::Lda, 2, 2, 2));
    let jmp = opcode_entry(0x6c);
    assert_eq!((jmp.handler, jmp.addressing, jmp.cycles, jmp.bytes), (Operation::Jmp, 10, 5, 3));
    let dcp = opcode_entry(0xc3);
    assert_eq!((dcp.handler, dcp.addressing, dcp.cycles, dcp.bytes), (Operation::Dcp, 11, 8, 2));
    assert_eq!(opcode_entry(0x02).handler, Operation::Halt);
    assert_eq!(opcode_entry(0xab).handler, Operation::Placeholder);
    assert_eq!(opcode_entry(0xeb).handler, Operation::Sbc);
    assert_eq!(opcode_name(0xea), "NOP");
    assert_eq!(opcode_name(0x1a), "*NOP");
    assert_eq!(opcode_name(0x80), "*NOP");
    assert_eq!(opcode_name(0x0c), "*NOP");
    assert_eq!(opcode_name(0x02), "*HLT");
    assert_eq!(opcode_name(0xc9), "CMP");
}

#[test]
fn encodings_fall_in_four_groups() {
    assert_eq!(opcode_group(0xa0), OpGroup::Control);
    assert_eq!(opcode_group(0xa9), OpGroup::Alu);
    assert_eq!(opcode_group(0xa2), OpGroup::Rmw);
    assert_eq!(opcode_group(0xa7), OpGroup::Unoff);
}
