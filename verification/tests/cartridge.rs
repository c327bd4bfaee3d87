use nesse::cartridge::{CartridgeRegion, NesCart};
use nesse::nes::{BusFault, Nes};
use nesse::Bus;

fn image(prg_banks: u8, chr_banks: u8, flags6: u8, flags7: u8) -> Vec<u8> {
    let mut file = vec![0x4e, 0x45, 0x53, 0x1a, prg_banks, chr_banks, flags6, flags7];
    file.resize(16, 0);
    if flags6 & 0x04 != 0 {
        file.extend((0..512u32).map(|i| (i % 251) as u8));
    }
    file.extend((0..prg_banks as u32 * 0x4000).map(|i| (i % 253) as u8));
    file.extend((0..chr_banks as u32 * 0x2000).map(|i| (i % 241) as u8));
    file
}

#[test]
fn a_whole_file_is_read() {
    let file = image(2, 1, 0x01, 0x00);
    let cart = NesCart::from_slice(&file).expect("the file holds a cartridge");
    assert_eq!(cart.header.mapper_id, 0);
    assert_eq!(cart.header.mirroring, 1);
    assert!(!cart.header.four_screen);
    assert!(!cart.header.battery);
    assert!(cart.trainer.is_none());
    assert_eq!(cart.prg_rom, file[16..16 + 0x8000].to_vec());
    assert_eq!(cart.chr_rom, file[16 + 0x8000..].to_vec());
    assert!(cart.prg_ram.is_none());
    assert!(cart.refused_write.is_none());
    assert!(NesCart::padding_is_clear(&file));
}

#[test]
fn the_header_gives_mapper_and_flags() {
    let file = image(1, 0, 0xfa, 0x10);
    let cart = NesCart::from_slice(&file).expect("the file holds a cartridge");
    assert_eq!(cart.header.mapper_id, 0x1f);
    assert_eq!(cart.header.mirroring, 0);
    assert!(cart.header.four_screen);
    assert!(cart.header.battery);
    assert!(cart.prg_ram.is_some());
    assert!(cart.chr_rom.is_empty());
}

#[test]
fn a_trainer_stands_before_the_program() {
    let file = image(1, 1, 0x04, 0x00);
    let cart = NesCart::from_slice(&file).expect("the file holds a cartridge");
    assert_eq!(cart.trainer, Some(file[16..16 + 512].to_vec()));
    assert_eq!(cart.prg_rom, file[528..528 + 0x4000].to_vec());
    assert_eq!(cart.chr_rom, file[528 + 0x4000..].to_vec());
}

#[test]
fn malformed_files_hold_no_cartridge() {
    let good = image(1, 1, 0x00, 0x00);
    assert!(NesCart::from_slice(&good).is_some());
    assert!(NesCart::from_slice(&[]).is_none());
    assert!(NesCart::from_slice(&good[..15]).is_none());
    let mut bad_magic = good.clone();
    bad_magic[3] = 0x1b;
    assert!(NesCart::from_slice(&bad_magic).is_none());
    let mut other_version = good.clone();
    other_version[7] = 0x08;
    assert!(NesCart::from_slice(&other_version).is_none());
    assert!(NesCart::from_slice(&good[..16 + 0x3fff]).is_none());
    assert!(NesCart::from_slice(&good[..good.len() - 1]).is_none());
    let trainer = image(1, 0, 0x04, 0x00);
    assert!(NesCart::from_slice(&trainer[..trainer.len() - 1]).is_none());
    assert!(NesCart::from_slice(&trainer).is_some());
}

#[test]
fn nonzero_padding_is_reported_and_not_fatal() {
    let mut file = image(1, 0, 0x00, 0x00);
    file[12] = 0x44;
    assert!(!NesCart::padding_is_clear(&file));
    assert!(NesCart::from_slice(&file).is_some());
    let mut file = image(1, 0, 0x00, 0x00);
    file[9] = 0x44;
    assert!(!NesCart::padding_is_clear(&file));
    assert!(NesCart::from_slice(&file).is_some());
    let mut file = image(1, 0, 0x00, 0x00);
    file[8] = 0x44;
    assert!(NesCart::padding_is_clear(&file));
    assert!(!NesCart::padding_is_clear(&file[..15]));
    assert!(!NesCart::padding_is_clear(&[]));
}

#[test]
fn one_bank_is_seen_twice() {
    let file = image(1, 0, 0x00, 0x00);
    let mut cart = NesCart::from_slice(&file).unwrap();
    assert_eq!(cart.bounds(), (0x4020, 0xffff));
    assert_eq!(cart.get(0x8000), file[16]);
    assert_eq!(cart.get(0xbfff), file[16 + 0x3fff]);
    assert_eq!(cart.get(0xc000), file[16]);
    assert_eq!(cart.get(0xffff), file[16 + 0x3fff]);
    assert_eq!(cart.peek(0xc123), file[16 + 0x123]);
    assert_eq!(cart.get(0x4020), 0);
    assert_eq!(cart.get(0x5fff), 0);
    assert_eq!(cart.region(0x5fff), CartridgeRegion::Expansion);
    assert_eq!(cart.region(0x6000), CartridgeRegion::OptionRam);
    assert_eq!(cart.region(0x7fff), CartridgeRegion::OptionRam);
    assert_eq!(cart.region(0x8000), CartridgeRegion::ProgramRom);
}

#[test]
fn two_banks_are_seen_once_and_an_empty_rom_reads_zero() {
    let file = image(2, 0, 0x00, 0x00);
    let mut cart = NesCart::from_slice(&file).unwrap();
    assert_eq!(cart.get(0x8000), file[16]);
    assert_eq!(cart.get(0xc000), file[16 + 0x4000]);
    assert_eq!(cart.get(0xffff), file[16 + 0x7fff]);
    let file = image(0, 0, 0x00, 0x00);
    let mut cart = NesCart::from_slice(&file).unwrap();
    assert_eq!(cart.get(0x8000), 0);
    assert_eq!(cart.get(0xffff), 0);
}

#[test]
fn writes_to_rom_change_nothing_and_are_remembered() {
    let file = image(1, 0, 0x00, 0x00);
    let mut nes: Nes<()> = Nes::default();
    nes.insert_cartridge(NesCart::from_slice(&file).unwrap());
    nes.cpu.running = true;
    nes.set(0x8001, 0xee);
    assert_eq!(nes.get(0x8001), file[17]);
    assert_eq!(nes.cartridge.as_ref().unwrap().refused_write, Some((0x8001, 0xee)));
    nes.set(0x4020, 0xee);
    assert_eq!(nes.cartridge.as_ref().unwrap().refused_write, Some((0x8001, 0xee)));
    assert!(nes.fault.is_none());
    assert!(nes.cpu.running);
}

#[test]
fn ram_without_battery_stops_the_machine() {
    let file = image(1, 0, 0x00, 0x00);
    let mut nes: Nes<()> = Nes::default();
    nes.insert_cartridge(NesCart::from_slice(&file).unwrap());
    nes.cpu.running = true;
    assert_eq!(nes.get(0x6005), 0);
    assert!(!nes.cpu.running);
    assert_eq!(
        nes.fault,
        Some(BusFault { region: CartridgeRegion::OptionRam, address: 0x6005, write: false })
    );
    nes.set(0x7000, 1);
    assert_eq!(
        nes.fault,
        Some(BusFault { region: CartridgeRegion::OptionRam, address: 0x6005, write: false })
    );

    let mut nes: Nes<()> = Nes::default();
    nes.insert_cartridge(NesCart::from_slice(&file).unwrap());
    nes.cpu.running = true;
    nes.set(0x7fff, 1);
    assert!(!nes.cpu.running);
    assert_eq!(
        nes.fault,
        Some(BusFault { region: CartridgeRegion::OptionRam, address: 0x7fff, write: true })
    );
    assert_eq!(nes.peek(0x7fff), 0);
}

#[test]
fn ram_with_battery_is_read_and_written() {
    let file = image(1, 0, 0x02, 0x00);
    let mut nes: Nes<()> = Nes::default();
    nes.insert_cartridge(NesCart::from_slice(&file).unwrap());
    nes.cpu.running = true;
    assert_eq!(nes.get(0x6000), 0);
    nes.set(0x6000, 0x12);
    nes.set(0x7fff, 0x34);
    assert_eq!(nes.get(0x6000), 0x12);
    assert_eq!(nes.get(0x7fff), 0x34);
    assert_eq!(nes.peek(0x7fff), 0x34);
    assert!(nes.fault.is_none());
    assert!(nes.cpu.running);
}

#[test]
fn a_fault_in_an_instruction_stops_the_run() {
    let file = image(1, 0, 0x00, 0x00);
    let mut nes: Nes<()> = Nes::default();
    nes.insert_cartridge(NesCart::from_slice(&file).unwrap());
    nes.inject_operation("ad 00 60 ea ea 00");
    nes.run_until_halt();
    assert_eq!(nes.dump_registers().pc, 0x0003);
    assert_eq!(
        nes.fault,
        Some(BusFault { region: CartridgeRegion::OptionRam, address: 0x6000, write: false })
    );
}

#[test]
fn reset_takes_the_program_counter_from_the_cartridge() {
    let mut file = image(1, 0, 0x00, 0x00);
    file[16 + 0x3ffc] = 0x34;
    file[16 + 0x3ffd] = 0x82;
    let mut nes: Nes<()> = Nes::default();
    nes.insert_cartridge(NesCart::from_slice(&file).unwrap());
    nes.cpu.registers.a = 9;
    nes.init();
    let regs = nes.dump_registers();
    assert_eq!((regs.pc, regs.sp, regs.a, regs.x, regs.y, regs.p), (0x8234, 0xfd, 0, 0, 0, 0x24));
    assert_eq!(nes.cpu.get_cycles(), 7);
    let mut bare: Nes<()> = Nes::default();
    bare.init();
    assert_eq!(bare.dump_registers().pc, 0x0000);
}
