use nesse::bus::{Nes2a03Audio, NesRam};
use nesse::nes::Nes;
use nesse::ppu::{
    AddressRegisterLatch, ControlRegister, DecayingLatch, MaskRegister, Nes2c02, ReadWriteMode,
    SpriteSize, Temperature,
};
use nesse::Bus;
use nesse::BusRegion;

#[test]
fn ram_answers_only_in_its_window() {
    let mut ram = NesRam::default();
    assert_eq!(ram.bounds(), (0, 0x2000));
    assert!(ram.bounds_check(0x1fff));
    assert!(!ram.bounds_check(0x2000));
    ram.set(0x0801, 0x42);
    assert_eq!(ram.get(0x0001), 0x42);
    assert_eq!(ram.get(0x1801), 0x42);
    assert_eq!(ram.peek(0x1001), 0x42);
    ram.set(0x2001, 0x99);
    assert_eq!(ram.get(0x2001), 0x00);
    assert_eq!(ram.get(0x0001), 0x42);
}

#[test]
fn apu_window_holds_24_registers() {
    let mut apu = Nes2a03Audio::default();
    assert_eq!(apu.bounds(), (0x4000, 0x4020));
    apu.set(0x4000, 0x11);
    apu.set(0x4017, 0x22);
    apu.set(0x4018, 0x33);
    apu.set(0x401f, 0x44);
    apu.set(0x3fff, 0x55);
    assert_eq!(apu.get(0x4000), 0x11);
    assert_eq!(apu.get(0x4017), 0x22);
    assert_eq!(apu.get(0x4018), 0x00);
    assert_eq!(apu.get(0x401f), 0x00);
    assert_eq!(apu.get(0x3fff), 0x00);
}

#[test]
fn machine_decodes_ram_ppu_apu_cartridge() {
    let mut nes: Nes<()> = Nes::default();
    nes.set(0x1234, 0x01);
    nes.set(0x4001, 0x02);
    nes.set(0x4019, 0x03);
    nes.set(0x8000, 0x04);
    nes.set(0x6000, 0x05);
    assert_eq!(nes.get(0x0234), 0x01);
    assert_eq!(nes.get(0x4001), 0x02);
    assert_eq!(nes.get(0x4019), 0x00);
    assert_eq!(nes.get(0x8000), 0x00);
    assert_eq!(nes.get(0x6000), 0x00);
    assert_eq!(nes.get(0xffff), 0x00);
    assert!(nes.fault.is_none());
    assert_eq!(nes.bounds(), (0, 0xffff));
}

#[test]
fn words_are_little_endian_and_do_not_wrap_in_their_page() {
    let mut nes: Nes<()> = Nes::default();
    nes.set_short(0x00ff, 0x1234);
    assert_eq!(nes.get(0x00ff), 0x34);
    assert_eq!(nes.get(0x0100), 0x12);
    assert_eq!(nes.get_short(0x00ff), 0x1234);
    assert_eq!(nes.peek_short(0x00ff), 0x1234);
    nes.set_short(0x1fff, 0xabcd);
    assert_eq!(nes.get(0x1fff), 0xcd);
    assert_eq!(nes.get(0x07ff), 0xcd);
    assert_eq!(nes.get(0x0000), 0x00);
    assert_eq!(nes.get(0x2000), 0xab);
    assert_eq!(nes.get_short(0x1fff), 0xabcd);
}

#[test]
fn regions_are_read_and_written_in_order() {
    let mut nes: Nes<()> = Nes::default();
    nes.set_region(0x07fe, &[1, 2, 3, 4]);
    assert_eq!(nes.get_region(0x07fe, 4), vec![1, 2, 3, 4]);
    assert_eq!(nes.get(0x0000), 3);
    assert_eq!(nes.get(0x0001), 4);
    assert_eq!(nes.extract_memory_region(0x0ffe, 3), vec![1, 2, 3]);
    assert_eq!(nes.get_region(0x0010, 0), Vec::<u8>::new());
    let nes = nes.with_initial_memory(0x0600, &[0xaa, 0xbb]);
    let mut nes = nes;
    assert_eq!(nes.extract_memory(0x0601), 0xbb);
}

#[test]
fn ppu_registers_repeat_every_eight_bytes() {
    let mut ppu = Nes2c02::default();
    assert_eq!(ppu.bounds(), (0x2000, 0x4000));
    ppu.set(0x2001, 0x1e);
    assert_eq!(ppu.mask.0, 0x1e);
    ppu.set(0x3ff9, 0x07);
    assert_eq!(ppu.mask.0, 0x07);
    ppu.set(0x2003, 0x40);
    assert_eq!(ppu.oam_address, 0x40);
    ppu.set(0x200c, 0x41);
    assert_eq!(ppu.oam_data, 0x41);
    ppu.set(0x2005, 0x42);
    assert_eq!(ppu.scroll, 0x42);
    ppu.set(0x1fff, 0x99);
    ppu.set(0x4000, 0x99);
    assert!(matches!(ppu.latch, DecayingLatch::Stable(0x42, 3)));
}

#[test]
fn ppu_reads_give_the_value_on_the_register_bus() {
    let mut ppu = Nes2c02::default();
    ppu.set(0x2001, 0xff);
    assert_eq!(ppu.get(0x2000), 0xff);
    assert_eq!(ppu.get(0x2001), 0xff);
    assert_eq!(ppu.get(0x2003), 0xff);
    assert_eq!(ppu.peek(0x2002), 0x1f);
    assert_eq!(ppu.get(0x2002), 0x1f);
    assert!(matches!(ppu.latch, DecayingLatch::Stable(0x1f, 3)));
    assert_eq!(ppu.get(0x2000), 0x1f);
    assert_eq!(ppu.get(0x2004), 0x00);
    assert_eq!(ppu.get(0x2005), 0x00);
    assert_eq!(ppu.get(0x2006), 0x00);
    assert_eq!(ppu.get(0x2007), 0x00);
    assert_eq!(ppu.get(0x4000), 0x00);
}

#[test]
fn ppu_control_register_waits_for_the_warm_up() {
    let mut ppu = Nes2c02::default();
    ppu.set(0x2000, 0x80);
    assert_eq!(ppu.control.0, 0x00);
    ppu.temp = Temperature::Warm;
    ppu.set(0x2000, 0x80);
    assert_eq!(ppu.control.0, 0x80);
}

#[test]
fn ppu_address_takes_two_writes() {
    let mut ppu = Nes2c02::default();
    ppu.set(0x2006, 0x21);
    assert!(matches!(ppu.address, AddressRegisterLatch::First(0x21)));
    ppu.set(0x2006, 0x08);
    assert!(matches!(ppu.address, AddressRegisterLatch::Second(0x21, 0x08)));
    ppu.set(0x2006, 0x3f);
    assert!(matches!(ppu.address, AddressRegisterLatch::First(0x3f)));
}

#[test]
fn ppu_warms_up_and_its_latch_decays() {
    let mut temp = Temperature::Cold(30_000);
    temp.tick();
    assert!(matches!(temp, Temperature::Cold(30_001)));
    assert!(!temp.is_warm());
    temp.tick();
    assert!(temp.is_warm());
    temp.tick();
    assert!(temp.is_warm());

    let mut latch = DecayingLatch::Decaying(7);
    latch.write(9);
    assert_eq!(latch.read(), 9);
    latch.decay();
    latch.decay();
    latch.decay();
    assert!(matches!(latch, DecayingLatch::Stable(9, 0)));
    latch.decay();
    assert!(matches!(latch, DecayingLatch::Decaying(9)));
    latch.decay();
    assert!(matches!(latch, DecayingLatch::Decaying(9)));
}

#[test]
fn ppu_control_and_mask_bits() {
    let control = ControlRegister(0b1010_0110);
    assert_eq!(control.base_nametable_address(), 0x2800);
    assert_eq!(ControlRegister(3).base_nametable_address(), 0x2c00);
    assert_eq!(ControlRegister(0).base_nametable_address(), 0x2000);
    assert_eq!(control.vram_address_increment(), 32);
    assert_eq!(ControlRegister(0).vram_address_increment(), 1);
    assert_eq!(control.sprite_pattern_table_address(), 0);
    assert_eq!(ControlRegister(0x08).sprite_pattern_table_address(), 8);
    assert_eq!(ControlRegister(0x10).background_pattern_table_address(), 8);
    assert_eq!(control.background_pattern_table_address(), 0);
    assert_eq!(control.sprite_size(), SpriteSize::EightBySixteen);
    assert_eq!(ControlRegister(0).sprite_size(), SpriteSize::EightByEight);
    assert_eq!(control.mode(), ReadWriteMode::Read);
    assert_eq!(ControlRegister(0x40).mode(), ReadWriteMode::Write);
    assert!(control.interrupt());
    let mask = MaskRegister(0b1010_0101);
    assert!(mask.greyscale());
    assert!(!mask.margin_bg());
    assert!(mask.margin_fg());
    assert!(!mask.display_bg());
    assert!(!mask.display_fg());
    assert!(mask.emphasize_r());
    assert!(!mask.emphasize_g());
    assert!(mask.emphasize_b());
}
