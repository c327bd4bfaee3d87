use nesse::codegen::{
    find_opcode, generate_jumplist, generate_opcode_name_list, handler_ident, letters_of,
    parse_cycles, parse_encoding, same_text, to_lower_case, to_upper_case, trace_name,
};
use nesse::common::{AddressingMode, CyclesCost, NesMetaOpcode, NesOpcode, StatusFlags, StatusOption};
use nesse::cpu::{Nes2a03, RegisterAccess};
use nesse::emulator_state::delta_ops::{lda, ldx, ldy, sta, stx, sty, translate_address};
use nesse::emulator_state::registers::{Register, A, X, Y};
use nesse::emulator_state::{
    AddressableMemory, ByteRegister, Delta, DeltaEvent, GlobalEvent, MemoryWrite, RegisterHistory,
    RegisterWrite, Snapshot, State,
};

fn snapshot() -> Snapshot {
    Snapshot { a: 1, x: 2, y: 3, p: 0x24, sp: 0xfd, pc: 0x0600, memory: Box::new([0; 0x1_0000]) }
}

#[test]
fn a_snapshot_is_memory_and_registers() {
    let mut snap = snapshot();
    assert_eq!(snap.bounds(), (0, 0xffff));
    snap.set(0xffff, 9);
    assert_eq!(snap.get(0xffff), 9);
    assert_eq!(snap.set_a(7), 1);
    assert_eq!(snap.set_x(8), 2);
    assert_eq!(snap.set_y(9), 3);
    assert_eq!(snap.set_p(0), 0x24);
    assert_eq!(snap.set_sp(1), 0xfd);
    assert_eq!(snap.set_pc(2), 0x0600);
    assert_eq!(
        (snap.get_a(), snap.get_x(), snap.get_y(), snap.get_p(), snap.get_sp(), snap.get_pc()),
        (7, 8, 9, 0, 1, 2)
    );
    let copy = snap.clone();
    assert_eq!(copy.get(0xffff), 9);
    assert_eq!(copy.get_a(), 7);
}

#[test]
fn register_access_on_the_cpu() {
    let mut cpu = Nes2a03::default();
    cpu.registers.pc = 0x1234;
    cpu.reset();
    assert_eq!(
        (cpu.get_a(), cpu.get_x(), cpu.get_y(), cpu.get_sp(), cpu.get_p(), cpu.get_pc()),
        (0, 0, 0, 0xfd, 0x24, 0x1234)
    );
    cpu.set_flags_from(0);
    assert!(cpu.status_zero());
    assert!(!cpu.status_negative());
    cpu.set_flags_from(0x80);
    assert!(!cpu.status_zero());
    assert!(cpu.status_negative());
    cpu.set_carry();
    assert!(cpu.status_carry());
    assert_eq!(cpu.get_carry(), 1);
    cpu.clear_carry();
    assert_eq!(cpu.get_carry(), 0);
    cpu.set_p(0x00);
    assert_eq!(cpu.get_status_stack(), 0x30);
    cpu.set_p(0x10);
    cpu.set_status_stack(0xef);
    assert_eq!(cpu.get_p(), 0xdf);
    cpu.set_p(0);
    cpu.set_overflow_from(0x40);
    assert_eq!(cpu.get_p(), 0x40);
    cpu.set_overflow_from(0xbf);
    assert_eq!(cpu.get_p(), 0x00);
    cpu.set_decimal();
    cpu.set_overflow();
    cpu.set_negative();
    cpu.set_zero();
    assert_eq!(cpu.get_p(), 0xca);
    cpu.clear_decimal();
    cpu.clear_overflow();
    cpu.clear_negative();
    cpu.clear_zero();
    assert_eq!(cpu.get_p(), 0x00);
    cpu.set_a(0xff);
    cpu.set_x(0xff);
    cpu.set_y(0x01);
    cpu.set_pc(0xffff);
    cpu.increment_a();
    cpu.increment_x();
    cpu.increment_y();
    cpu.increment_pc();
    assert_eq!((cpu.get_a(), cpu.get_x(), cpu.get_y(), cpu.get_pc()), (0, 0, 2, 0));
    assert_eq!(cpu.get_cycles(), 0);
}

#[test]
fn registers_as_values() {
    let mut snap = snapshot();
    assert_eq!(X.get(&snap), 2);
    assert_eq!(Y.get(&snap), 3);
    assert_eq!(A.get(&snap), 1);
    assert_eq!(X.set(&mut snap, 20), 2);
    assert_eq!(Y.set(&mut snap, 30), 3);
    assert_eq!(A.set(&mut snap, 10), 1);
    assert_eq!((snap.a, snap.x, snap.y), (10, 20, 30));
}

#[test]
fn deltas_are_undone() {
    let snap = snapshot();
    let undone = Delta::new(5, DeltaEvent::write_mem(0x0010, 0x77, 0x01)).apply(snap);
    assert_eq!((undone.get(0x0010), undone.p), (0x77, 0x01));
    let undone = Delta::new(5, DeltaEvent::write_a(0x11, 0x02)).apply(undone);
    assert_eq!((undone.a, undone.p), (0x11, 0x02));
    let undone = Delta::new(5, DeltaEvent::write_x(0x12, 0x03)).apply(undone);
    assert_eq!((undone.x, undone.p), (0x12, 0x03));
    let undone = Delta::new(5, DeltaEvent::write_y(0x13, 0x04)).apply(undone);
    assert_eq!((undone.y, undone.p), (0x13, 0x04));
    let pc = DeltaEvent::WriteRegister(RegisterWrite::PC(0x0700, 0x05));
    let undone = Delta::new(5, pc).apply(undone);
    assert_eq!((undone.pc, undone.p), (0x0700, 0x05));
    let sp = DeltaEvent::WriteRegister(RegisterWrite::Byte(
        ByteRegister::SP,
        RegisterHistory { old: 0xf0, status: 0x06 },
    ));
    let undone = Delta::new(5, sp).apply(undone);
    assert_eq!((undone.sp, undone.p), (0xf0, 0x06));
    let p = DeltaEvent::WriteRegister(RegisterWrite::Byte(
        ByteRegister::P,
        RegisterHistory { old: 0xaa, status: 0x07 },
    ));
    let undone = Delta::new(5, p).apply(undone);
    assert_eq!(undone.p, 0x07);
    let undone = Delta::new(5, DeltaEvent::GlobalStateUpdate(GlobalEvent::Stop)).apply(undone);
    assert_eq!((undone.a, undone.x, undone.y, undone.sp, undone.pc, undone.p), (0x11, 0x12, 0x13, 0xf0, 0x0700, 0x07));
    assert_eq!(
        DeltaEvent::write_mem(1, 2, 3),
        DeltaEvent::WriteMem(MemoryWrite { address: 1, old_value: 2, status: 3 })
    );
}

#[test]
fn a_state_is_rewound_and_pruned() {
    let mut state = State {
        deltas: vec![
            Delta::new(10, DeltaEvent::write_a(0x0a, 0x20)),
            Delta::new(20, DeltaEvent::write_x(0x0b, 0x21)),
            Delta::new(30, DeltaEvent::write_mem(0x0040, 0x0c, 0x22)),
        ],
        newest_state: snapshot(),
    };
    let now = state.get_snapshot(30);
    assert_eq!((now.a, now.x, now.get(0x0040), now.p), (1, 2, 0, 0x24));
    let earlier = state.get_snapshot(19);
    assert_eq!((earlier.a, earlier.x, earlier.get(0x0040), earlier.p), (1, 0x0b, 0x0c, 0x22));
    let first = state.get_snapshot(0);
    assert_eq!((first.a, first.x, first.get(0x0040), first.p), (0x0a, 0x0b, 0x0c, 0x22));
    let view = state.get_thin_snapshot(19);
    assert_eq!(view.cycle, 19);
    assert_eq!(view.state.deltas.len(), 3);
    state.prune_before(20);
    assert_eq!(
        state.deltas,
        vec![
            Delta::new(20, DeltaEvent::write_x(0x0b, 0x21)),
            Delta::new(30, DeltaEvent::write_mem(0x0040, 0x0c, 0x22)),
        ]
    );
    state.prune_before(31);
    assert!(state.deltas.is_empty());
    assert_eq!(state.newest_state.a, 1);
}

#[test]
fn addresses_on_a_snapshot() {
    let mut snap = snapshot();
    snap.set(0x0600, 0xf0);
    snap.set(0x0601, 0x02);
    snap.set(0x00f0, 0x34);
    snap.set(0x00f1, 0x12);
    snap.set(0x00f2, 0x78);
    snap.set(0x00f3, 0x56);
    snap.set(0x02f0, 0xcd);
    snap.set(0x02f1, 0xab);
    let resolve = |mode: AddressingMode| {
        let mut copy = snap.clone();
        let address = translate_address(&mut copy, mode);
        (address, copy.pc)
    };
    assert_eq!(resolve(AddressingMode::Immediate), (0x0600, 0x0601));
    assert_eq!(resolve(AddressingMode::ZeroPage), (0x00f0, 0x0601));
    assert_eq!(resolve(AddressingMode::ZeroPageX), (0x00f2, 0x0601));
    assert_eq!(resolve(AddressingMode::ZeroPageY), (0x00f3, 0x0601));
    assert_eq!(resolve(AddressingMode::Relative), (0x00f0, 0x0601));
    assert_eq!(resolve(AddressingMode::Absolute), (0x02f0, 0x0602));
    assert_eq!(resolve(AddressingMode::AbsoluteX), (0x02f2, 0x0602));
    assert_eq!(resolve(AddressingMode::AbsoluteY), (0x02f3, 0x0602));
    assert_eq!(resolve(AddressingMode::Indirect), (0xabcd, 0x0602));
    assert_eq!(resolve(AddressingMode::IndexedIndirect), (0x5678, 0x0601));
    assert_eq!(resolve(AddressingMode::IndirectIndexed), (0x1237, 0x0601));
}

#[test]
fn loads_and_stores_on_a_snapshot_give_their_undo() {
    let mut snap = snapshot();
    snap.set(0x0600, 0x80);
    snap.set(0x0601, 0x10);
    snap.set(0x0602, 0x00);
    snap.set(0x0010, 0x55);
    let delta = ldx(&mut snap, AddressingMode::Immediate, 100);
    assert_eq!((snap.x, snap.p, snap.pc), (0x80, 0xa4, 0x0601));
    assert_eq!(delta, Delta::new(102, DeltaEvent::write_x(2, 0x24)));
    let undone = delta.apply(snap.clone());
    assert_eq!((undone.x, undone.p), (2, 0x24));
    let delta = lda(&mut snap, AddressingMode::ZeroPage, u64::MAX);
    assert_eq!((snap.a, snap.p, snap.pc), (0x55, 0x24, 0x0602));
    assert_eq!(delta, Delta::new(2, DeltaEvent::write_a(1, 0xa4)));
    let delta = ldy(&mut snap, AddressingMode::Immediate, 0);
    assert_eq!((snap.y, snap.p, snap.pc), (0x00, 0x26, 0x0603));
    assert_eq!(delta, Delta::new(2, DeltaEvent::write_y(3, 0x24)));
    assert_eq!(ldy(&mut snap, AddressingMode::Indirect, 7).cycle, 7);

    let mut snap = snapshot();
    snap.set(0x0600, 0x20);
    snap.set(0x0601, 0x21);
    snap.set(0x0602, 0x22);
    snap.set(0x0020, 0x99);
    let delta = sta(&mut snap, AddressingMode::ZeroPage, 10);
    assert_eq!(snap.get(0x0020), 1);
    assert_eq!(delta, Delta::new(13, DeltaEvent::write_mem(0x0020, 0x99, 0x24)));
    assert_eq!(delta.apply(snap.clone()).get(0x0020), 0x99);
    let delta = stx(&mut snap, AddressingMode::ZeroPage, 10);
    assert_eq!(snap.get(0x0021), 2);
    assert_eq!(delta, Delta::new(13, DeltaEvent::write_mem(0x0021, 0, 0x24)));
    let delta = sty(&mut snap, AddressingMode::ZeroPageX, 10);
    assert_eq!(snap.get(0x0024), 3);
    assert_eq!(delta, Delta::new(14, DeltaEvent::write_mem(0x0024, 0, 0x24)));
    assert_eq!(snap.pc, 0x0603);
}

#[test]
fn addressing_modes_and_their_codes() {
    let modes = [
        AddressingMode::Implicit,
        AddressingMode::Accumulator,
        AddressingMode::Immediate,
        AddressingMode::ZeroPage,
        AddressingMode::ZeroPageX,
        AddressingMode::ZeroPageY,
        AddressingMode::Relative,
        AddressingMode::Absolute,
        AddressingMode::AbsoluteX,
        AddressingMode::AbsoluteY,
        AddressingMode::Indirect,
        AddressingMode::IndexedIndirect,
        AddressingMode::IndirectIndexed,
    ];
    for (code, mode) in modes.iter().enumerate() {
        assert_eq!(mode.to_u8(), code as u8);
        assert_eq!(AddressingMode::from_u8(code as u8), *mode);
    }
    assert_eq!(AddressingMode::from_u8(13), AddressingMode::Implicit);
    assert_eq!(AddressingMode::from_u8(255), AddressingMode::Implicit);
}

#[test]
fn addressing_modes_by_name() {
    assert_eq!(AddressingMode::from_reference_material("Implied"), AddressingMode::Implicit);
    assert_eq!(AddressingMode::from_reference_material(" Zero Page,X\n"), AddressingMode::ZeroPageX);
    assert_eq!(AddressingMode::from_reference_material("Zero\u{a0}Page,Y"), AddressingMode::ZeroPageY);
    assert_eq!(AddressingMode::from_reference_material("(Indirect),Y"), AddressingMode::IndirectIndexed);
    assert_eq!(AddressingMode::from_reference_material("(Indirect,X)"), AddressingMode::IndexedIndirect);
    assert_eq!(AddressingMode::parse_reference_material("Accumulator"), Some(AddressingMode::Accumulator));
    assert_eq!(AddressingMode::parse_reference_material("Immediate"), Some(AddressingMode::Immediate));
    assert_eq!(AddressingMode::parse_reference_material("Relative"), Some(AddressingMode::Relative));
    assert_eq!(AddressingMode::parse_reference_material("Absolute"), Some(AddressingMode::Absolute));
    assert_eq!(AddressingMode::parse_reference_material("Absolute,X"), Some(AddressingMode::AbsoluteX));
    assert_eq!(AddressingMode::parse_reference_material("Absolute,Y"), Some(AddressingMode::AbsoluteY));
    assert_eq!(AddressingMode::parse_reference_material("Indirect"), Some(AddressingMode::Indirect));
    assert_eq!(AddressingMode::parse_reference_material("ZeroPage"), Some(AddressingMode::ZeroPage));
    assert_eq!(AddressingMode::parse_reference_material("implied"), None);
    assert_eq!(AddressingMode::parse_reference_material(""), None);
    assert_eq!(AddressingMode::from_reference_short_version(" #i "), AddressingMode::Immediate);
    assert_eq!(AddressingMode::from_reference_short_version(" "), AddressingMode::Implicit);
    assert_eq!(AddressingMode::from_reference_short_version("(d,X)"), AddressingMode::IndexedIndirect);
    assert_eq!(AddressingMode::from_reference_short_version("(d),Y"), AddressingMode::IndirectIndexed);
    assert_eq!(AddressingMode::from_reference_short_version("d"), AddressingMode::ZeroPage);
    assert_eq!(AddressingMode::from_reference_short_version("a"), AddressingMode::Absolute);
    assert_eq!(AddressingMode::from_reference_short_version("d,Y"), AddressingMode::ZeroPageY);
    assert_eq!(AddressingMode::from_reference_short_version("a,Y"), AddressingMode::AbsoluteY);
    assert_eq!(AddressingMode::from_reference_short_version("a,X"), AddressingMode::AbsoluteX);
    assert_eq!(AddressingMode::from_reference_short_version("d, X"), AddressingMode::ZeroPageX);
    assert_eq!(AddressingMode::parse_reference_short_version("d\u{a0},X"), None);
    assert_eq!(AddressingMode::parse_reference_short_version("x"), None);
}

fn described(name: &str, opcode: u8, addressing: AddressingMode, bytes: u8, cycles: CyclesCost) -> NesOpcode {
    NesOpcode {
        meta: NesMetaOpcode {
            name: name.to_string(),
            description: String::new(),
            status: StatusFlags::new(),
        },
        addressing,
        opcode,
        bytes,
        cycles,
    }
}

#[test]
fn encodings_are_packed() {
    let packed = described("LDA", 0xbd, AddressingMode::AbsoluteX, 3, CyclesCost::PageDependant(4)).compact();
    assert_eq!((packed.addressing, packed.byte_cycles, packed.family), (8, 0x83, 0));
    assert_eq!(packed.open(), (8, 0x83, 0));
    let packed = described("LDA", 0xa9, AddressingMode::Immediate, 2, CyclesCost::Always(0x72)).compact();
    assert_eq!((packed.addressing, packed.byte_cycles, packed.family), (2, 0x72, 0));
    assert_eq!(CyclesCost::Always(3).to_u8(), 3);
    assert_eq!(CyclesCost::PageDependant(4).to_u8(), 4);
    assert_eq!(StatusFlags::new().carry, StatusOption::Conditional);
    assert_eq!(StatusFlags::default(), StatusFlags::new());
    assert_eq!(StatusOption::default(), StatusOption::Conditional);
}

#[test]
fn the_generator_lists_names_and_entries() {
    let known = vec![
        described("lda", 0xa9, AddressingMode::Immediate, 2, CyclesCost::Always(2)),
        described("LDA", 0xbd, AddressingMode::AbsoluteX, 3, CyclesCost::PageDependant(4)),
        described("*IGN", 0x0c, AddressingMode::Absolute, 3, CyclesCost::Always(4)),
        described("*ISC", 0xe3, AddressingMode::IndexedIndirect, 2, CyclesCost::Always(8)),
        described("*ADC", 0xeb, AddressingMode::Immediate, 2, CyclesCost::Always(2)),
        described("*SKB", 0x80, AddressingMode::Immediate, 2, CyclesCost::Always(2)),
        described("*lax", 0xa7, AddressingMode::ZeroPage, 2, CyclesCost::Always(3)),
        described("second", 0xa9, AddressingMode::Implicit, 1, CyclesCost::Always(9)),
    ];
    assert_eq!(find_opcode(&known, 0xa9), 0);
    assert_eq!(find_opcode(&known, 0xa7), 6);
    assert_eq!(find_opcode(&known, 0x00), 8);
    let names = generate_opcode_name_list(&known);
    assert_eq!(names.len(), 256);
    for (number, entry) in names.iter().enumerate() {
        assert_eq!(entry.opcode as usize, number);
    }
    assert_eq!(names[0xa9].name, "LDA");
    assert_eq!(names[0xbd].name, "LDA");
    assert_eq!(names[0x0c].name, "*NOP");
    assert_eq!(names[0xe3].name, "*ISB");
    assert_eq!(names[0xeb].name, "*SBC");
    assert_eq!(names[0x80].name, "*NOP");
    assert_eq!(names[0xa7].name, "*LAX");
    assert_eq!(names[0x00].name, "*XXX");
    let entries = generate_jumplist(&known);
    assert_eq!(entries.len(), 256);
    let entry = |n: usize| (entries[n].ident.as_str(), entries[n].addressing, entries[n].cycles, entries[n].bytes);
    assert_eq!(entry(0xa9), ("lda", 2, 2, 2));
    assert_eq!(entry(0xbd), ("lda", 8, 4, 3));
    assert_eq!(entry(0x0c), ("ign", 7, 4, 3));
    assert_eq!(entry(0xe3), ("isc", 11, 8, 2));
    assert_eq!(entry(0xa7), ("lax", 3, 3, 2));
    assert_eq!(entry(0x00), ("placeholder", 0, 0, 1));
    assert_eq!(to_upper_case("aZ*9\u{e9}z{`"), "AZ*9\u{e9}Z{`");
    assert_eq!(to_lower_case("aZ*9\u{c9}A[@"), "az*9\u{c9}a[@");
    assert_eq!(letters_of("*L4a_\u{e9}x"), "Lax");
    assert_eq!(handler_ident("LDA"), "lda");
    assert_eq!(handler_ident("*LAX"), "lax");
    assert_eq!(handler_ident("L*A"), "l*a");
    assert_eq!(handler_ident("\u{c9}1"), "\u{c9}1");
    assert_eq!(handler_ident("\u{c9}AB"), "ab");
    assert_eq!(handler_ident("AB"), "ab");
    assert_eq!(handler_ident("*A"), "a");
    assert_eq!(trace_name("*skb"), "*SKB");
    assert_eq!(trace_name("*SKB"), "*NOP");
    assert!(same_text("abc", "abc"));
    assert!(!same_text("abc", "abd"));
    assert!(!same_text("abc", "ab"));
    assert!(same_text("", ""));
    assert_eq!(parse_cycles("4"), Some(CyclesCost::Always(4)));
    assert_eq!(parse_cycles("4 (+1 if page crossed)"), Some(CyclesCost::PageDependant(4)));
    assert_eq!(parse_cycles("2 (+1 if branch succeeds"), Some(CyclesCost::PageDependant(2)));
    assert_eq!(parse_cycles("four"), None);
    assert_eq!(parse_cycles(""), None);
    assert_eq!(parse_cycles("256"), None);
    assert_eq!(parse_cycles("7 "), Some(CyclesCost::PageDependant(7)));
    assert_eq!(parse_encoding("$A9"), Some(0xa9));
    assert_eq!(parse_encoding("$0c"), Some(0x0c));
    assert_eq!(parse_encoding("A9"), Some(0x09));
    assert_eq!(parse_encoding("$"), None);
    assert_eq!(parse_encoding(""), None);
    assert_eq!(parse_encoding("$1FF"), None);
}
