use nesse::codegen::{generate_stub_opcode_implementations, precedes};
use nesse::common::{AddressingMode, CyclesCost, NesMetaOpcode, NesOpcode, StatusFlags, StatusOption};
use nesse::reference::{
    count_words, find_first, find_last, generate_opcode_list, is_not_affected, parse_length,
    read_note, read_notes, read_variant, read_variants, short_mode, skip_blanks, skip_word,
    squeeze, writes, ReferenceRow, ReferenceSection, Variant,
};

fn row(addressing: &str, encoding: &str, length: &str, cycles: &str) -> ReferenceRow {
    ReferenceRow {
        addressing: addressing.to_string(),
        encoding: encoding.to_string(),
        length: length.to_string(),
        cycles: cycles.to_string(),
    }
}

fn section(name: &str, flags: [&str; 7], rows: Vec<ReferenceRow>) -> ReferenceSection {
    ReferenceSection {
        name: name.to_string(),
        description: format!("{} does something", name),
        flags: flags.iter().map(|flag| flag.to_string()).collect(),
        rows,
    }
}

const NOTES: &str = " Combined operations\n\nALR #i ($4B ii; 2 cycles)\n    Equivalent to AND #i then LSR A.\nANC #i ($0B ii, $2B ii; 2 cycles)\nLAX (d,X) ($A3 dd; 6 cycles)\nLAX a,Y ($BF aa aa; 4 cycles)\nNOP ($1A, $3A; 2 cycles)\nIGN a,X ($1C aa aa, $3C aa aa; 4 or 5 cycles)\n \n";

#[test]
fn bytes_are_scanned() {
    let text = b"  ab\tcd (x) (y); z";
    assert_eq!(skip_blanks(text, 0, text.len()), 2);
    assert_eq!(skip_blanks(text, 2, text.len()), 2);
    assert_eq!(skip_word(text, 2, text.len()), 4);
    assert_eq!(skip_word(text, 4, text.len()), 4);
    assert_eq!(skip_blanks(text, 0, 1), 1);
    assert_eq!(find_first(text, 0, text.len(), b'('), 8);
    assert_eq!(find_first(text, 9, text.len(), b'('), 12);
    assert_eq!(find_first(text, 0, 5, b'('), 5);
    assert_eq!(find_last(text, 0, text.len(), b'('), Some(12));
    assert_eq!(find_last(text, 0, 12, b'('), Some(8));
    assert_eq!(find_last(text, 0, 8, b'('), None);
    assert_eq!(count_words(text, 0, text.len()), 5);
    assert_eq!(count_words(text, 0, 2), 0);
    assert_eq!(count_words(b"", 0, 0), 0);
    assert_eq!(squeeze(text, 0, 8), b"abcd".to_vec());
    assert!(writes(&b"(d,X)".to_vec(), "(d,X)"));
    assert!(!writes(&b"(d,X)".to_vec(), "(d,Y)"));
    assert!(!writes(&b"(d,X)".to_vec(), "(d,X"));
    assert!(!writes(&vec![0xc3, 0xa9], "\u{e9}"));
    assert!(writes(&vec![], ""));
}

#[test]
fn short_forms_stand_for_modes() {
    let mode = |text: &[u8]| short_mode(text, 0, text.len());
    assert_eq!(mode(b" #i "), Some(AddressingMode::Immediate));
    assert_eq!(mode(b"(d,X)"), Some(AddressingMode::IndexedIndirect));
    assert_eq!(mode(b"d"), Some(AddressingMode::ZeroPage));
    assert_eq!(mode(b"a"), Some(AddressingMode::Absolute));
    assert_eq!(mode(b"(d),Y"), Some(AddressingMode::IndirectIndexed));
    assert_eq!(mode(b"d,Y"), Some(AddressingMode::ZeroPageY));
    assert_eq!(mode(b"a,Y"), Some(AddressingMode::AbsoluteY));
    assert_eq!(mode(b"a, X"), Some(AddressingMode::AbsoluteX));
    assert_eq!(mode(b"d,X"), Some(AddressingMode::ZeroPageX));
    assert_eq!(mode(b" \t"), Some(AddressingMode::Implicit));
    assert_eq!(mode(b"x"), None);
}

#[test]
fn variants_are_read() {
    let variant = |text: &[u8]| read_variant(text, 0, text.len());
    assert_eq!(variant(b"$4B ii"), Some(Variant { opcode: 0x4b, bytes: 2 }));
    assert_eq!(variant(b" $BF aa aa"), Some(Variant { opcode: 0xbf, bytes: 3 }));
    assert_eq!(variant(b"$1A"), Some(Variant { opcode: 0x1a, bytes: 1 }));
    assert_eq!(variant(b"x1A"), Some(Variant { opcode: 0x1a, bytes: 1 }));
    assert_eq!(variant(b""), None);
    assert_eq!(variant(b"  "), None);
    assert_eq!(variant(b"$ 1A"), None);
    assert_eq!(variant(b"$1G"), None);
    let variants = |text: &[u8]| read_variants(text, 0, text.len());
    assert_eq!(
        variants(b"$0B ii, $2B ii"),
        Some(vec![Variant { opcode: 0x0b, bytes: 2 }, Variant { opcode: 0x2b, bytes: 2 }])
    );
    assert_eq!(variants(b"$0B ii,"), None);
    assert_eq!(variants(b",$0B"), None);
    assert_eq!(variants(b""), None);
}

#[test]
fn notes_are_read() {
    let note = |line: &[u8]| read_note(line, 0, line.len());
    let read = note(b"LAX (d,X) ($A3 dd; 6 cycles)").expect("the line is a note");
    assert_eq!(read.name, b"LAX".to_vec());
    assert_eq!(read.addressing, AddressingMode::IndexedIndirect);
    assert_eq!(read.cycles, 6);
    assert_eq!(read.variants, vec![Variant { opcode: 0xa3, bytes: 2 }]);
    let read = note(b"IGN a,X ($1C aa aa, $3C aa aa; 4 or 5 cycles)").unwrap();
    assert_eq!((read.addressing, read.cycles, read.variants.len()), (AddressingMode::AbsoluteX, 4, 2));
    let read = note(b"NOP ($1A, $3A; 2 cycles)").unwrap();
    assert_eq!((read.addressing, read.cycles, read.variants.len()), (AddressingMode::Implicit, 2, 2));
    assert!(note(b"NO").is_none());
    assert!(note(b"NOP $1A; 2 cycles").is_none());
    assert!(note(b"NOP ($1A 2 cycles)").is_none());
    assert!(note(b"NOP ($1A; two cycles)").is_none());
    assert!(note(b"NOP ($1A;)").is_none());
    assert!(note(b"NOP q ($1A; 2)").is_none());
    assert!(note(b"NOP ($1A, ; 2)").is_none());
    assert_eq!(read_notes(NOTES.as_bytes()).unwrap().len(), 6);
    assert!(read_notes(b"").unwrap().is_empty());
    assert!(read_notes(b"\n\n x\n").unwrap().is_empty());
    assert!(read_notes(b"Title\n").is_none());
}

#[test]
fn texts_of_the_tables_are_read() {
    assert_eq!(is_not_affected("Not affected"), StatusOption::NotAffected);
    assert_eq!(is_not_affected("Set if A = 0"), StatusOption::Conditional);
    assert_eq!(is_not_affected("not affected"), StatusOption::Conditional);
    assert_eq!(parse_length(" 2\n"), Some(2));
    assert_eq!(parse_length("1 0"), Some(10));
    assert_eq!(parse_length("two"), None);
    assert_eq!(parse_length(""), None);
    assert_eq!(parse_length("300"), None);
}

#[test]
fn the_references_give_the_list_of_encodings() {
    let flags = ["Not affected", "Set if A = 0", "Not affected", "Not affected", "Not affected", "Not affected", "Set if bit 7 set"];
    let sections = vec![
        section(
            "LDA",
            flags,
            vec![
                row("Immediate", "$A9", "2", "2"),
                row("\n Absolute,X \n", "$BD", " 3 ", "4 (+1 if page crossed)"),
            ],
        ),
        section("NOP", ["Not affected"; 7], vec![row("Implied", "$EA", "1", "2")]),
    ];
    let list = generate_opcode_list(&sections, NOTES).expect("the references can be read");
    let seen: Vec<(String, AddressingMode, u8, u8, CyclesCost)> = list
        .iter()
        .map(|op| (op.meta.name.clone(), op.addressing, op.opcode, op.bytes, op.cycles))
        .collect();
    let entry = |name: &str, mode, opcode, bytes, cycles| (name.to_string(), mode, opcode, bytes, cycles);
    assert_eq!(
        seen,
        vec![
            entry("LDA", AddressingMode::Immediate, 0xa9, 2, CyclesCost::Always(2)),
            entry("LDA", AddressingMode::AbsoluteX, 0xbd, 3, CyclesCost::PageDependant(4)),
            entry("NOP", AddressingMode::Implicit, 0xea, 1, CyclesCost::Always(2)),
            entry("*ALR", AddressingMode::Immediate, 0x4b, 2, CyclesCost::Always(2)),
            entry("*ANC", AddressingMode::Immediate, 0x0b, 2, CyclesCost::Always(2)),
            entry("*ANC", AddressingMode::Immediate, 0x2b, 2, CyclesCost::Always(2)),
            entry("*LAX", AddressingMode::IndexedIndirect, 0xa3, 2, CyclesCost::Always(6)),
            entry("*LAX", AddressingMode::AbsoluteY, 0xbf, 3, CyclesCost::Always(4)),
            entry("*NOP", AddressingMode::Implicit, 0x1a, 1, CyclesCost::Always(2)),
            entry("*NOP", AddressingMode::Implicit, 0x3a, 1, CyclesCost::Always(2)),
            entry("*IGN", AddressingMode::AbsoluteX, 0x1c, 3, CyclesCost::Always(4)),
            entry("*IGN", AddressingMode::AbsoluteX, 0x3c, 3, CyclesCost::Always(4)),
        ]
    );
    assert_eq!(list[0].meta.description, "LDA does something");
    assert_eq!(list[0].meta.status.carry, StatusOption::NotAffected);
    assert_eq!(list[0].meta.status.zero, StatusOption::Conditional);
    assert_eq!(list[0].meta.status.negative, StatusOption::Conditional);
    assert_eq!(list[3].meta.description, "");
    assert_eq!(list[3].meta.status, StatusFlags::new());

    let mut short = section("LDA", flags, vec![]);
    short.flags.pop();
    assert!(generate_opcode_list(&[short], "").is_none());
    let bad = section("LDA", flags, vec![row("Immediate", "$A9", "2", "2"), row("Somewhere", "$AA", "1", "2")]);
    assert!(generate_opcode_list(&[bad], "").is_none());
    let bad = section("LDA", flags, vec![row("Immediate", "A9x", "2", "2")]);
    assert!(generate_opcode_list(&[bad], "").is_none());
    assert!(generate_opcode_list(&[], "Title\n").is_none());
    assert!(generate_opcode_list(&[], "\u{e9}1x ($1A; 2)\n").is_none());
    assert!(generate_opcode_list(&[], "").unwrap().is_empty());
}

#[test]
fn handler_names_are_sorted_and_stand_once() {
    let known: Vec<NesOpcode> = ["LDA", "*LAX", "adc", "LDA", "lda", "Z", "*ISC", "ADC", "a", ""]
        .iter()
        .map(|name| NesOpcode {
            meta: NesMetaOpcode {
                name: name.to_string(),
                description: String::new(),
                status: StatusFlags::new(),
            },
            addressing: AddressingMode::Implicit,
            opcode: 0,
            bytes: 1,
            cycles: CyclesCost::Always(2),
        })
        .collect();
    let names = generate_stub_opcode_implementations(&known);
    assert_eq!(names, vec!["", "*isc", "*lax", "a", "adc", "lda", "z"]);
    let mut expected: Vec<String> = known.iter().map(|op| op.meta.name.to_ascii_lowercase()).collect();
    expected.sort_unstable();
    expected.dedup();
    assert_eq!(names, expected);
    assert!(generate_stub_opcode_implementations(&[]).is_empty());
    assert!(precedes("a", "b"));
    assert!(precedes("", "a"));
    assert!(precedes("ab", "abc"));
    assert!(precedes("Z", "a"));
    assert!(precedes("z", "\u{e9}"));
    assert!(!precedes("b", "a"));
    assert!(!precedes("a", "a"));
    assert!(!precedes("", ""));
    assert!(!precedes("abc", "ab"));
}
