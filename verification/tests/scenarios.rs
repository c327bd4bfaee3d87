use nesse::cartridge::NesCart;
use nesse::nes::Nes;
use nesse::opcodes::rts;
use nesse::peripherals::Spy;
use nesse::Bus;
use nesse::NesRegisters;

#[test]
fn five_instructions_leave_their_flags() {
    let mut nes: Nes<()> = Nes::default();
    nes.inject_operation("a9 c0 aa e8 00");
    nes.master_clock_drive();
    let regs = nes.dump_registers();
    assert_eq!(regs.a, 0xc0);
    assert_eq!(regs.x, 0xc1);
    assert!(regs.status_negative());
    assert!(!regs.status_zero());
    assert_eq!(regs.pc, 0x0004);
    assert!(!nes.cpu.running);
}

#[test]
fn lda_of_zero_sets_zero_and_clears_negative() {
    let mut nes: Nes<()> = Nes::default();
    nes.inject_registers(NesRegisters::default().with_flags_from(0xfe));
    assert!(nes.dump_registers().status_negative());
    nes.inject_operation("a9 00 00");
    nes.master_clock_drive();
    let regs = nes.dump_registers();
    assert!(regs.status_zero());
    assert!(!regs.status_negative());
    assert_eq!(regs.pc, 0x0002);
}

#[test]
fn inx_wraps_from_ff() {
    let mut nes: Nes<()> = Nes::default();
    nes.inject_registers(NesRegisters::default().with_x(0xff));
    nes.inject_operation("e8 e8 00");
    nes.master_clock_drive();
    let regs = nes.dump_registers();
    assert_eq!(regs.x, 0x01);
    assert!(!regs.status_zero());
    assert!(!regs.status_negative());
    assert_eq!(regs.pc, 0x0002);
}

#[test]
fn jsr_and_rts_round_trip() {
    let mut nes: Nes<()> = Nes::default();
    nes.inject_operation("20 05 00 00 00 60");
    nes.execute();
    assert_eq!(nes.dump_registers().pc, 0x0005);
    assert_eq!(nes.dump_registers().sp, 0xfe);
    assert_eq!(nes.get(0x0100), 0x00);
    assert_eq!(nes.get(0x01ff), 0x02);
    let opcode = nes.peek_pc();
    assert_eq!(opcode, 0x60);
    nes.set_pc(0x0006);
    let spent = rts(&mut nes, 0, 6, 1);
    assert_eq!(spent, 6);
    assert_eq!(nes.dump_registers().pc, 0x0003);
    assert_eq!(nes.dump_registers().sp, 0x00);
}

#[test]
fn jsr_and_rts_round_trip_by_steps() {
    let mut nes: Nes<()> = Nes::default();
    nes.inject_operation("20 05 00 00 00 60");
    nes.execute();
    nes.execute();
    assert_eq!(nes.dump_registers().pc, 0x0003);
}

#[test]
fn indirect_jmp_reads_its_high_byte_from_the_same_page() {
    let mut nes: Nes<()> = Nes::default();
    nes.inject_operation("6c ff 02");
    nes.inject_memory_value(0x02ff, 0x34);
    nes.inject_memory_value(0x0200, 0x12);
    nes.inject_memory_value(0x0300, 0x34);
    nes.execute();
    assert_eq!(nes.dump_registers().pc, 0x1234);
}

fn rom_image() -> Vec<u8> {
    let mut file = vec![0x4e, 0x45, 0x53, 0x1a, 0x01, 0x01, 0x00, 0x00];
    file.resize(16, 0);
    let mut prg = vec![0u8; 0x4000];
    let mut put = |address: usize, bytes: &[u8]| {
        for (i, byte) in bytes.iter().enumerate() {
            prg[address - 0xc000 + i] = *byte;
        }
    };
    put(0xc000, &[0x4c, 0xf5, 0xc5]);
    put(0xc5f5, &[0xa2, 0x00, 0x86, 0x00, 0x86, 0x10, 0x86, 0x11, 0x20, 0x2d, 0xc7]);
    put(0xc72d, &[0xea, 0x38, 0xb0, 0x04, 0xa2, 0x01, 0x86, 0x00, 0xea, 0x02]);
    put(0xfffc, &[0x00, 0xc0]);
    file.extend_from_slice(&prg);
    file.resize(16 + 0x4000 + 0x2000, 0);
    file
}

#[test]
fn trace_of_a_rom_matches_the_reference_lines() {
    let cart = NesCart::from_slice(&rom_image()).expect("the image holds a cartridge");
    let mut nes: Nes<Spy> = Nes::default().with_peripheral(Spy::new(&[]));
    nes.insert_cartridge(cart);
    nes.init();
    assert_eq!(nes.dump_registers().pc, 0xc000);
    nes.set_pc(0xc000);
    nes.master_clock_drive();
    let spy = &nes.peripherals.as_ref().unwrap()[0];
    let expected = [
        "C000  4C F5 C5  JMP $C5F5                       A:00 X:00 Y:00 P:24 SP:FD",
        "C5F5  A2 00     LDX #$00                        A:00 X:00 Y:00 P:24 SP:FD",
        "C5F7  86 00     STX $00 = 00                    A:00 X:00 Y:00 P:26 SP:FD",
        "C5F9  86 10     STX $10 = 00                    A:00 X:00 Y:00 P:26 SP:FD",
        "C5FB  86 11     STX $11 = 00                    A:00 X:00 Y:00 P:26 SP:FD",
        "C5FD  20 2D C7  JSR $C72D                       A:00 X:00 Y:00 P:26 SP:FD",
        "C72D  EA        NOP                             A:00 X:00 Y:00 P:26 SP:FB",
        "C72E  38        SEC                             A:00 X:00 Y:00 P:26 SP:FB",
        "C72F  B0 04     BCS $C735                       A:00 X:00 Y:00 P:27 SP:FB",
        "C735  EA        NOP                             A:00 X:00 Y:00 P:27 SP:FB",
        "C736  02       *HLT                             A:00 X:00 Y:00 P:27 SP:FB",
    ];
    assert_eq!(spy.lines.len(), expected.len());
    for (line, wanted) in spy.lines.iter().zip(expected.iter()) {
        assert_eq!(&line[..73], *wanted);
    }
    assert_eq!(
        spy.lines[0],
        "C000  4C F5 C5  JMP $C5F5                       A:00 X:00 Y:00 P:24 SP:FD PPU: 10, 55 CYC:7"
    );
    assert!(spy.lines[1].ends_with("CYC:10"));
    assert!(spy.lines[2].ends_with("CYC:12"));
    assert!(spy.lines[3].ends_with("CYC:15"));
    assert!(spy.lines[5].ends_with("CYC:21"));
    assert!(spy.lines[6].ends_with("CYC:27"));
    assert_eq!(nes.dump_registers().pc, 0xc736);
}
