use nesse::jumptable::opcode_jumptable;
use nesse::Nes;
use nesse::Opcode;

#[test]
fn nes_size() {
    let nes = std::mem::size_of::<Nes<()>>();
    assert_eq!(nes, 4616);
}

#[test]
pub fn check_jumptable_entry_size() {
    let entry_size = std::mem::size_of::<Opcode>();
    assert!(entry_size == std::mem::align_of::<u32>());
    assert!(std::mem::size_of_val(&opcode_jumptable()) == entry_size * 256);
}

#[test]
fn snapshot_size() {
    let s = std::mem::size_of::<nesse::emulator_state::Snapshot>();
    assert_eq!(s, 7 + 8 + 1);
}

#[test]
fn delta_size() {
    let mw = std::mem::size_of::<nesse::emulator_state::MemoryWrite>();
    let rw = std::mem::size_of::<nesse::emulator_state::RegisterWrite>();
    let gw = std::mem::size_of::<nesse::emulator_state::GlobalEvent>();
    let de = std::mem::size_of::<nesse::emulator_state::DeltaEvent>();
    let d = std::mem::size_of::<nesse::emulator_state::Delta>();
    assert_eq!(mw, 4);
    assert_eq!(rw, 4);
    assert_eq!(gw, 1);
    assert_eq!(de, 6);
    assert_eq!(d, 16);
}
