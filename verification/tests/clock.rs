use std::cell::RefCell;
use std::rc::Rc;

use nesse::cartridge::NesCart;
use nesse::nes::Nes;
use nesse::peripherals::{NesPeripheral, Spy};
use nesse::ppu::DecayingLatch;
use nesse::Bus;
use nesse::NesRegisters;

struct Recorder {
    id: u8,
    log: Rc<RefCell<Vec<(u8, &'static str, u16)>>>,
    stop_at: Option<u16>,
}

impl NesPeripheral for Recorder {
    fn init(&mut self, nes: &mut Nes<Self>) {
        assert!(nes.peripherals.is_none());
        self.log.borrow_mut().push((self.id, "init", nes.dump_registers().pc));
    }

    fn tick(&mut self, nes: &mut Nes<Self>) {
        let pc = nes.dump_registers().pc;
        self.log.borrow_mut().push((self.id, "tick", pc));
        if self.stop_at == Some(pc) {
            nes.cpu.running = false;
        }
    }

    fn on_vblank(&mut self, nes: &mut Nes<Self>) {
        self.log.borrow_mut().push((self.id, "vblank", nes.ppu.frame_clock));
    }

    fn cleanup(&mut self, nes: &mut Nes<Self>) {
        self.log.borrow_mut().push((self.id, "cleanup", nes.dump_registers().pc));
    }
}

fn observed(stop_at: Option<u16>) -> (Nes<Recorder>, Rc<RefCell<Vec<(u8, &'static str, u16)>>>) {
    let log = Rc::new(RefCell::new(Vec::new()));
    let nes = Nes::default()
        .with_peripheral(Recorder { id: 1, log: log.clone(), stop_at })
        .with_peripheral(Recorder { id: 2, log: log.clone(), stop_at: None });
    (nes, log)
}

#[test]
fn the_cpu_steps_on_every_twelfth_tick_and_the_ppu_on_every_fourth() {
    let mut nes: Nes<()> = Nes::default();
    nes.inject_operation("ea ea ea");
    nes.ppu.latch = DecayingLatch::Stable(5, 3);
    for _ in 0..3 {
        nes.master_tick();
    }
    assert!(matches!(nes.ppu.latch, DecayingLatch::Stable(5, 3)));
    nes.master_tick();
    assert!(matches!(nes.ppu.latch, DecayingLatch::Stable(5, 2)));
    assert_eq!(nes.ppu.clock_counter, 0);
    for _ in 0..7 {
        nes.master_tick();
    }
    assert_eq!(nes.dump_registers().pc, 0);
    assert_eq!(nes.cpu.clock_counter, 11);
    nes.master_tick();
    assert_eq!(nes.dump_registers().pc, 1);
    assert_eq!(nes.cpu.clock_counter, 0);
    assert_eq!(nes.cpu.next_tick, 2);
    assert_eq!(nes.ppu.frame_clock, 1);
    assert!(matches!(nes.ppu.latch, DecayingLatch::Stable(5, 0)));
    for _ in 0..12 {
        nes.master_tick();
    }
    assert_eq!(nes.dump_registers().pc, 1);
    assert_eq!(nes.cpu.get_cycles(), 1);
    for _ in 0..24 {
        nes.master_tick();
    }
    assert_eq!(nes.dump_registers().pc, 2);
    assert_eq!(nes.cpu.get_cycles(), 2);
    assert_eq!(nes.ppu.frame_clock, 4);
}

#[test]
fn an_instruction_takes_its_cycles() {
    let mut nes: Nes<()> = Nes::default();
    nes.inject_operation("a9 01 8d 00 03 ea");
    assert!(nes.is_due());
    nes.step();
    assert_eq!((nes.dump_registers().pc, nes.cpu.cycles, nes.cpu.next_tick), (2, 0, 2));
    assert!(!nes.is_due());
    nes.step();
    nes.step();
    assert_eq!((nes.dump_registers().pc, nes.cpu.cycles), (2, 2));
    nes.step();
    assert_eq!((nes.dump_registers().pc, nes.cpu.cycles, nes.cpu.next_tick), (5, 2, 6));
    assert_eq!(nes.get(0x0300), 1);
}

#[test]
fn observers_are_told_in_the_order_of_their_registration() {
    let (mut nes, log) = observed(None);
    nes.inject_operation("ea 00");
    nes.init();
    nes.step();
    nes.step();
    nes.on_frame();
    nes.cleanup();
    assert_eq!(
        *log.borrow(),
        vec![
            (1, "init", 0),
            (2, "init", 0),
            (1, "tick", 0),
            (2, "tick", 0),
            (1, "vblank", 0),
            (2, "vblank", 0),
            (1, "cleanup", 1),
            (2, "cleanup", 1),
        ]
    );
    assert_eq!(nes.peripherals.as_ref().unwrap().len(), 2);
}

#[test]
fn an_observer_can_stop_the_run() {
    let (mut nes, log) = observed(Some(3));
    nes.inject_operation("ea ea ea ea ea ea");
    nes.master_clock_drive();
    assert_eq!(nes.dump_registers().pc, 4);
    assert_eq!(log.borrow().iter().filter(|entry| entry.0 == 1).count(), 4);
    let (mut nes, _) = observed(Some(2));
    nes.inject_operation("ea ea ea ea ea ea");
    nes.run_until_halt();
    assert_eq!(nes.dump_registers().pc, 3);
}

#[test]
fn a_frame_ends_after_29780_steps_of_the_cpu() {
    let (mut nes, log) = observed(None);
    nes.inject_registers(NesRegisters::default().with_pc(0x0001));
    for _ in 0..29779u32 * 12 {
        nes.master_tick();
    }
    assert_eq!(nes.ppu.frame_clock, 29779);
    assert!(!log.borrow().iter().any(|entry| entry.1 == "vblank"));
    for _ in 0..12 {
        nes.master_tick();
    }
    assert_eq!(nes.ppu.frame_clock, 0);
    let frames: Vec<_> = log.borrow().iter().filter(|entry| entry.1 == "vblank").cloned().collect();
    assert_eq!(frames, vec![(1, "vblank", 0), (2, "vblank", 0)]);
}

#[test]
fn ticks_that_call_no_observer_are_the_same_with_observers() {
    let (mut observed, log) = observed(None);
    let mut alone: Nes<()> = Nes::default();
    observed.inject_operation("a9 01 ea");
    alone.inject_operation("a9 01 ea");
    for tick in 0..35 {
        observed.master_tick();
        alone.master_tick();
        assert_eq!(observed.dump_registers(), alone.dump_registers());
        assert_eq!(observed.cpu.clock_counter, alone.cpu.clock_counter);
        assert_eq!(observed.cpu.cycles, alone.cpu.cycles);
        assert_eq!(observed.ppu.clock_counter, alone.ppu.clock_counter);
        assert_eq!(observed.ppu.frame_clock, alone.ppu.frame_clock);
        assert!(observed.ppu.clock_counter < 4);
        assert!(observed.cpu.clock_counter < 12);
        assert_eq!(observed.peripherals.as_ref().unwrap().len(), 2);
        let told = log.borrow().len();
        assert_eq!(told, if tick < 11 { 0 } else { 2 });
    }
}

#[test]
fn a_machine_without_observers_has_none_after_a_run() {
    let mut nes: Nes<()> = Nes::default();
    nes.inject_operation("e8 00");
    nes.master_clock_drive();
    assert!(nes.peripherals.is_none());
    assert!(!nes.cpu.running);
    nes.add_peripheral(());
    nes.add_peripheral(());
    assert_eq!(nes.peripherals.as_ref().unwrap().len(), 2);
    nes.on_frame();
    nes.cleanup();
    assert_eq!(nes.peripherals.as_ref().unwrap().len(), 2);
}

#[test]
fn the_tracing_observer_collects_one_line_for_each_instruction() {
    let mut nes: Nes<Spy> = Nes::default().with_peripheral(Spy::new(&[(0x0002, "loop")]));
    nes.inject_operation("a2 05 ca 00");
    nes.run_until_halt();
    let spy = &nes.peripherals.as_ref().unwrap()[0];
    assert_eq!(
        spy.lines,
        vec![
            "0000  A2 05     LDX #$05                        A:00 X:00 Y:00 P:00 SP:00 PPU: 10, 55 CYC:0",
            "loop:\n0002  CA        DEX                             A:00 X:05 Y:00 P:00 SP:00 PPU: 10, 55 CYC:2",
            "0003  00        BRK                             A:00 X:04 Y:00 P:00 SP:00 PPU: 10, 55 CYC:4",
        ]
    );
}

#[test]
fn a_cartridge_is_exchanged_between_runs() {
    let mut file = vec![0x4e, 0x45, 0x53, 0x1a, 1, 0, 0, 0];
    file.resize(16 + 0x4000, 0);
    let mut nes: Nes<()> = Nes::default();
    nes.insert_cartridge(NesCart::from_slice(&file).unwrap());
    assert_eq!(nes.get(0x8000), 0);
    file[16] = 0x77;
    assert!(nes.cartridge.is_none() || !nes.cpu.running);
    nes.insert_cartridge(NesCart::from_slice(&file).unwrap());
    assert_eq!(nes.get(0x8000), 0x77);
}
