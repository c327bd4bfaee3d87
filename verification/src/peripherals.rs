//! Observers of a running machine, and the observer that traces it.

use vstd::prelude::*;
use vstd::string::StringExecFns;
use crate::bus::join_word;
use crate::bus::split_high;
use crate::bus::split_low;
use crate::bus::word_of;
use crate::cpu::NesRegisters;
use crate::jumptable::documented;
use crate::jumptable::DOCUMENTED;
use crate::jumptable::Opcode;
use crate::jumptable::opcode_entry;
use crate::nes::ABSOLUTE;
use crate::nes::ABSOLUTE_X;
use crate::nes::ABSOLUTE_Y;
use crate::nes::ACCUMULATOR;
use crate::nes::IMMEDIATE;
use crate::nes::IMPLICIT;
use crate::nes::INDEXED_INDIRECT;
use crate::nes::INDIRECT;
use crate::nes::Nes;
use crate::nes::next_in_page;
use crate::nes::RELATIVE;
use crate::nes::ZERO_PAGE;
use crate::nes::ZERO_PAGE_X;
use crate::nes::ZERO_PAGE_Y;
use crate::opcode_debug::name_of;
use crate::opcode_debug::opcode_name;
use crate::opcodes::branch_destination;
use crate::opcodes::branch_target;
use crate::text::decimal3;
use crate::text::decimal;
use crate::text::hex2;
use crate::text::hex4;
use crate::text::push_decimal3;
use crate::text::push_decimal;
use crate::text::push_hex2;
use crate::text::push_hex4;
use crate::text::push_spaces;
use crate::text::spaces;

verus! {

/// An observer of a machine. The machine calls its observers in the order in
/// which they were registered, between instructions, and hands itself to each.
/// While an observer is called the machine's list of observers is empty.
///
/// Nothing is asked of what an observer does to the machine.
pub trait NesPeripheral: Sized {
    /// Called once when the machine has been reset.
    fn init(&mut self, nes: &mut Nes<Self>) {
    }

    /// Called before each instruction is fetched.
    fn tick(&mut self, nes: &mut Nes<Self>) {
    }

    /// Called at the end of each frame.
    fn on_vblank(&mut self, nes: &mut Nes<Self>) {
    }

    /// Called once when the machine is shut down.
    fn cleanup(&mut self, nes: &mut Nes<Self>) {
    }
}

/// The observer that does nothing.
impl NesPeripheral for () {

}

/// The four groups of encodings, told apart by the low two bits.
#[derive(Clone, Copy, PartialEq, Eq, Structural, Debug)]
pub enum OpGroup {
    Control,
    Alu,
    Rmw,
    Unoff,
}

/// The group of an encoding.
pub fn opcode_group(opcode: u8) -> (group: OpGroup)
    ensures
        group == match opcode % 4 {
            0 => OpGroup::Control,
            1 => OpGroup::Alu,
            2 => OpGroup::Rmw,
            _ => OpGroup::Unoff,
        },
{
    let low = opcode % 4;
    if low == 0 {
        OpGroup::Control
    } else if low == 1 {
        OpGroup::Alu
    } else if low == 2 {
        OpGroup::Rmw
    } else {
        OpGroup::Unoff
    }
}

/// Columns that the operand takes in a line of the trace.
pub const OPERAND_COLUMNS: usize = 28;

/// The two numbers that a line of the trace gives for the position of the PPU.
pub const TRACED_PPU_ROW: u16 = 10;

pub const TRACED_PPU_COLUMN: u16 = 55;

/// The JMP with an absolute operand.
pub const JMP_ABSOLUTE: u8 = 0x4c;

/// The JSR.
pub const JSR_ABSOLUTE: u8 = 0x20;

/// The line that names the place `pc` of the program: the first label for it,
/// a colon and a line break; nothing where the place has no label.
pub open spec fn label_text(labels: Seq<(u16, &'static str)>, pc: u16) -> Seq<char>
    decreases labels.len(),
{
    if labels.len() == 0 {
        Seq::empty()
    } else if labels[0].0 == pc {
        labels[0].1@ + ":\n"@
    } else {
        label_text(labels.skip(1), pc)
    }
}

/// The bytes of the encoding at `pc`, each in two digits and followed by a
/// space, in three columns of three characters.
pub open spec fn encoding_text<P>(m: Nes<P>, pc: u16, bytes: u8) -> Seq<char> {
    (if 0 < bytes {
        hex2(m.read(pc)) + " "@
    } else {
        "   "@
    }) + (if 1 < bytes {
        hex2(m.read(pc.wrapping_add(1))) + " "@
    } else {
        "   "@
    }) + (if 2 < bytes {
        hex2(m.read(pc.wrapping_add(2))) + " "@
    } else {
        "   "@
    })
}

/// The name of an instruction in five columns: the asterisk of an undocumented
/// instruction stands where a documented one has a space.
pub open spec fn name_text(opcode: u8) -> Seq<char> {
    if DOCUMENTED[opcode as int] {
        " "@ + name_of(opcode) + " "@
    } else {
        name_of(opcode) + " "@
    }
}

/// An immediate operand.
pub open spec fn immediate_text(byte: u8) -> Seq<char> {
    "#$"@ + hex2(byte)
}

/// An operand in the zero page, and the byte found there.
pub open spec fn zero_page_text(byte: u8, value: u8) -> Seq<char> {
    "$"@ + hex2(byte) + " = "@ + hex2(value)
}

/// An operand in the zero page with the index X or Y, the address that it
/// leads to, and the byte found there.
pub open spec fn zero_page_indexed_text(byte: u8, by_x: bool, total: u8, value: u8) -> Seq<char> {
    "$"@ + hex2(byte) + (if by_x {
        ",X @ "@
    } else {
        ",Y @ "@
    }) + hex2(total) + " = "@ + hex2(value)
}

/// The place that a branch leads to.
pub open spec fn relative_text(destination: u16) -> Seq<char> {
    "$"@ + hex4(destination)
}

/// An absolute operand, and the byte found there; a jump gives the address
/// alone.
pub open spec fn absolute_text(word: u16, jump: bool, value: u8) -> Seq<char> {
    if jump {
        "$"@ + hex4(word)
    } else {
        "$"@ + hex4(word) + " = "@ + hex2(value)
    }
}

/// An absolute operand with the index X or Y, the address that it leads to,
/// and the byte found there.
pub open spec fn absolute_indexed_text(word: u16, by_x: bool, total: u16, value: u8) -> Seq<char> {
    "$"@ + hex4(word) + (if by_x {
        ",X @ "@
    } else {
        ",Y @ "@
    }) + hex4(total) + " = "@ + hex2(value)
}

/// An indirect operand and the address found there.
pub open spec fn indirect_text(word: u16, target: u16) -> Seq<char> {
    "($"@ + hex4(word) + ") = "@ + hex4(target)
}

/// An operand indexed by X in the zero page, the place of the pointer, the
/// address found there, and the byte at that address.
pub open spec fn indexed_indirect_text(byte: u8, base: u8, address: u16, value: u8) -> Seq<char> {
    "($"@ + hex2(byte) + ",X) @ "@ + hex2(base) + " = "@ + hex4(address) + " = "@ + hex2(value)
}

/// An operand in the zero page that points to a base, the base, the address
/// that Y leads to from it, and the byte at that address.
pub open spec fn indirect_indexed_text(byte: u8, base: u16, address: u16, value: u8) -> Seq<char> {
    "($"@ + hex2(byte) + "),Y = "@ + hex4(base) + " @ "@ + hex4(address) + " = "@ + hex2(value)
}

/// The operand of the instruction at the program counter, as its addressing
/// mode writes it, with the addresses that it leads to and the byte found
/// there.
pub open spec fn operand_text<P>(m: Nes<P>, mode: u8, opcode: u8) -> Seq<char> {
    let at = m.regs().pc.wrapping_add(1);
    let byte = m.read(at);
    let word = m.word_at(at);
    if mode == IMPLICIT {
        Seq::empty()
    } else if mode == ACCUMULATOR {
        "A"@
    } else if mode == IMMEDIATE {
        immediate_text(byte)
    } else if mode == ZERO_PAGE {
        zero_page_text(byte, m.read(byte as u16))
    } else if mode == ZERO_PAGE_X {
        let total = byte.wrapping_add(m.regs().x);
        zero_page_indexed_text(byte, true, total, m.read(total as u16))
    } else if mode == ZERO_PAGE_Y {
        let total = byte.wrapping_add(m.regs().y);
        zero_page_indexed_text(byte, false, total, m.read(total as u16))
    } else if mode == RELATIVE {
        relative_text(branch_target(at.wrapping_add(1), byte))
    } else if mode == ABSOLUTE {
        absolute_text(word, opcode == JMP_ABSOLUTE || opcode == JSR_ABSOLUTE, m.read(word))
    } else if mode == ABSOLUTE_X {
        let total = word.wrapping_add(m.regs().x as u16);
        absolute_indexed_text(word, true, total, m.read(total))
    } else if mode == ABSOLUTE_Y {
        let total = word.wrapping_add(m.regs().y as u16);
        absolute_indexed_text(word, false, total, m.read(total))
    } else if mode == INDIRECT {
        indirect_text(word, word_of(m.read(word), m.read(next_in_page(word))))
    } else if mode == INDEXED_INDIRECT {
        let base = byte.wrapping_add(m.regs().x);
        let address = word_of(m.read(base as u16), m.read(base.wrapping_add(1) as u16));
        indexed_indirect_text(byte, base, address, m.read(address))
    } else {
        let base = word_of(m.read(byte as u16), m.read(byte.wrapping_add(1) as u16));
        let address = base.wrapping_add(m.regs().y as u16);
        indirect_indexed_text(byte, base, address, m.read(address))
    }
}

/// The number of characters that the operand of an instruction takes in the
/// trace.
pub open spec fn operand_width(mode: u8, opcode: u8) -> nat {
    if mode == IMPLICIT {
        0
    } else if mode == ACCUMULATOR {
        1
    } else if mode == IMMEDIATE {
        4
    } else if mode == ZERO_PAGE {
        8
    } else if mode == ZERO_PAGE_X || mode == ZERO_PAGE_Y {
        15
    } else if mode == RELATIVE {
        5
    } else if mode == ABSOLUTE {
        if opcode == JMP_ABSOLUTE || opcode == JSR_ABSOLUTE {
            5
        } else {
            10
        }
    } else if mode == ABSOLUTE_X || mode == ABSOLUTE_Y {
        19
    } else if mode == INDIRECT {
        14
    } else if mode == INDEXED_INDIRECT {
        24
    } else {
        26
    }
}

/// The registers as a line of the trace gives them.
pub open spec fn registers_text(r: NesRegisters) -> Seq<char> {
    "A:"@ + hex2(r.a) + " X:"@ + hex2(r.x) + " Y:"@ + hex2(r.y) + " P:"@ + hex2(r.p) + " SP:"@
        + hex2(r.sp) + " "@
}

/// The end of a line of the trace: the position of the PPU and the cycles of
/// the CPU.
pub open spec fn clock_text(cycles: u64) -> Seq<char> {
    "PPU:"@ + decimal3(TRACED_PPU_ROW as nat) + ","@ + decimal3(TRACED_PPU_COLUMN as nat)
        + " CYC:"@ + decimal(cycles as nat)
}

/// The line of the trace for the instruction at the program counter of `m`:
/// the program counter, the bytes of the encoding, the name of the
/// instruction, its operand in 28 columns, the registers, the position of the
/// PPU and the cycles of the CPU. Where the place has a label, a line with the
/// label comes first.
pub open spec fn trace_text<P>(labels: Seq<(u16, &'static str)>, m: Nes<P>) -> Seq<char> {
    let pc = m.regs().pc;
    let opcode = m.read(pc);
    let entry = Opcode::of(opcode);
    label_text(labels, pc) + hex4(pc) + "  "@ + encoding_text(m, pc, entry.bytes) + name_text(
        opcode,
    ) + operand_text(m, entry.addressing, opcode) + spaces(
        (OPERAND_COLUMNS - operand_width(entry.addressing, opcode)) as nat,
    ) + registers_text(m.regs()) + clock_text(m.cpu.cycles)
}

/// The operand of an instruction takes the columns that its addressing mode
/// asks for, whatever the machine holds.
pub proof fn law_operand_width<P>(m: Nes<P>, mode: u8, opcode: u8)
    ensures
        operand_text(m, mode, opcode).len() == operand_width(mode, opcode),
        operand_width(mode, opcode) <= OPERAND_COLUMNS,
{
    reveal_strlit("A");
    reveal_strlit("#$");
    reveal_strlit("$");
    reveal_strlit(" = ");
    reveal_strlit(",X @ ");
    reveal_strlit(",Y @ ");
    reveal_strlit("($");
    reveal_strlit(") = ");
    reveal_strlit(",X) @ ");
    reveal_strlit("),Y = ");
    reveal_strlit(" @ ");
}

/// The columns of a line of the trace are fixed: in a line without a label
/// the registers start in column 48, whatever the instruction is, and they
/// take 26 columns.
pub proof fn law_trace_columns<P>(labels: Seq<(u16, &'static str)>, m: Nes<P>)
    requires
        label_text(labels, m.regs().pc).len() == 0,
    ensures
        ({
            let line = trace_text(labels, m);
            let r = registers_text(m.regs());
            &&& r.len() == 26
            &&& line.len() >= 74
            &&& line.subrange(48, 74) == r
        }),
{
    let pc = m.regs().pc;
    let opcode = m.read(pc);
    let entry = Opcode::of(opcode);
    law_operand_width(m, entry.addressing, opcode);
    crate::opcode_debug::law_name_length(opcode);
    reveal_strlit(" ");
    reveal_strlit("  ");
    reveal_strlit("   ");
    reveal_strlit("A:");
    reveal_strlit(" X:");
    reveal_strlit(" Y:");
    reveal_strlit(" P:");
    reveal_strlit(" SP:");
    let head = label_text(labels, pc) + hex4(pc) + "  "@ + encoding_text(m, pc, entry.bytes)
        + name_text(opcode) + operand_text(m, entry.addressing, opcode) + spaces(
        (OPERAND_COLUMNS - operand_width(entry.addressing, opcode)) as nat,
    );
    let r = registers_text(m.regs());
    assert(head.len() == 48);
    assert(r.len() == 26);
    let line = trace_text(labels, m);
    assert(line == head + r + clock_text(m.cpu.cycles));
    assert(line.subrange(48, 74) =~= r);
}

/// The observer that writes the trace of a run: one line for each instruction,
/// taken before the instruction is fetched.
pub struct Spy {
    /// the places of the program that have a name
    pub labels: &'static [(u16, &'static str)],
    /// the lines traced so far
    pub lines: Vec<String>,
}

impl Spy {
    pub fn new(inner: &'static [(u16, &'static str)]) -> (spy: Spy)
        ensures
            spy.labels@ == inner@,
            spy.lines@.len() == 0,
    {
        Spy { labels: inner, lines: Vec::new() }
    }

    fn label(&self, pc: u16) -> (text: String)
        ensures
            text@ == label_text(self.labels@, pc),
    {
        let mut text = String::new();
        let mut i: usize = 0;
        assert(self.labels@.skip(0) =~= self.labels@);
        while i < self.labels.len()
            invariant
                i <= self.labels@.len(),
                text@ == Seq::<char>::empty(),
                label_text(self.labels@, pc) == label_text(self.labels@.skip(i as int), pc),
            decreases self.labels@.len() - i,
        {
            assert(self.labels@.skip(i as int).skip(1) =~= self.labels@.skip(i + 1));
            if self.labels[i].0 == pc {
                text.append(self.labels[i].1);
                text.append(":\n");
                assert(text@ =~= self.labels@[i as int].1@ + ":\n"@);
                return text;
            }
            i += 1;
        }
        text
    }

    fn encoding<P>(nes: &Nes<P>, pc: u16, bytes: u8) -> (text: String)
        ensures
            text@ == encoding_text(*nes, pc, bytes),
    {
        let mut text = String::new();
        if 0 < bytes {
            push_hex2(&mut text, nes.peek(pc));
            text.append(" ");
        } else {
            text.append("   ");
        }
        if 1 < bytes {
            push_hex2(&mut text, nes.peek(pc.wrapping_add(1)));
            text.append(" ");
        } else {
            text.append("   ");
        }
        if 2 < bytes {
            push_hex2(&mut text, nes.peek(pc.wrapping_add(2)));
            text.append(" ");
        } else {
            text.append("   ");
        }
        assert(text@ =~= encoding_text(*nes, pc, bytes));
        text
    }

    fn name(opcode: u8) -> (text: String)
        ensures
            text@ == name_text(opcode),
    {
        let mut text = String::new();
        if documented(opcode) {
            text.append(" ");
        }
        text.append(opcode_name(opcode));
        text.append(" ");
        assert(text@ =~= name_text(opcode));
        text
    }

    fn immediate(byte: u8) -> (text: String)
        ensures
            text@ == immediate_text(byte),
    {
        let mut text = String::new();
        text.append("#$");
        push_hex2(&mut text, byte);
        assert(text@ =~= immediate_text(byte));
        text
    }

    fn zero_page(byte: u8, value: u8) -> (text: String)
        ensures
            text@ == zero_page_text(byte, value),
    {
        let mut text = String::new();
        text.append("$");
        push_hex2(&mut text, byte);
        text.append(" = ");
        push_hex2(&mut text, value);
        assert(text@ =~= zero_page_text(byte, value));
        text
    }

    fn zero_page_indexed(byte: u8, by_x: bool, total: u8, value: u8) -> (text: String)
        ensures
            text@ == zero_page_indexed_text(byte, by_x, total, value),
    {
        let mut text = String::new();
        text.append("$");
        push_hex2(&mut text, byte);
        if by_x {
            text.append(",X @ ");
        } else {
            text.append(",Y @ ");
        }
        push_hex2(&mut text, total);
        text.append(" = ");
        push_hex2(&mut text, value);
        assert(text@ =~= zero_page_indexed_text(byte, by_x, total, value));
        text
    }

    fn relative(destination: u16) -> (text: String)
        ensures
            text@ == relative_text(destination),
    {
        let mut text = String::new();
        text.append("$");
        push_hex4(&mut text, destination);
        assert(text@ =~= relative_text(destination));
        text
    }

    fn absolute(word: u16, jump: bool, value: u8) -> (text: String)
        ensures
            text@ == absolute_text(word, jump, value),
    {
        let mut text = String::new();
        text.append("$");
        push_hex4(&mut text, word);
        if !jump {
            text.append(" = ");
            push_hex2(&mut text, value);
        }
        assert(text@ =~= absolute_text(word, jump, value));
        text
    }

    fn absolute_indexed(word: u16, by_x: bool, total: u16, value: u8) -> (text: String)
        ensures
            text@ == absolute_indexed_text(word, by_x, total, value),
    {
        let mut text = String::new();
        text.append("$");
        push_hex4(&mut text, word);
        if by_x {
            text.append(",X @ ");
        } else {
            text.append(",Y @ ");
        }
        push_hex4(&mut text, total);
        text.append(" = ");
        push_hex2(&mut text, value);
        assert(text@ =~= absolute_indexed_text(word, by_x, total, value));
        text
    }

    fn indirect(word: u16, target: u16) -> (text: String)
        ensures
            text@ == indirect_text(word, target),
    {
        let mut text = String::new();
        text.append("($");
        push_hex4(&mut text, word);
        text.append(") = ");
        push_hex4(&mut text, target);
        assert(text@ =~= indirect_text(word, target));
        text
    }

    fn indexed_indirect(byte: u8, base: u8, address: u16, value: u8) -> (text: String)
        ensures
            text@ == indexed_indirect_text(byte, base, address, value),
    {
        let mut text = String::new();
        text.append("($");
        push_hex2(&mut text, byte);
        text.append(",X) @ ");
        push_hex2(&mut text, base);
        text.append(" = ");
        push_hex4(&mut text, address);
        text.append(" = ");
        push_hex2(&mut text, value);
        assert(text@ =~= indexed_indirect_text(byte, base, address, value));
        text
    }

    fn indirect_indexed(byte: u8, base: u16, address: u16, value: u8) -> (text: String)
        ensures
            text@ == indirect_indexed_text(byte, base, address, value),
    {
        let mut text = String::new();
        text.append("($");
        push_hex2(&mut text, byte);
        text.append("),Y = ");
        push_hex4(&mut text, base);
        text.append(" @ ");
        push_hex4(&mut text, address);
        text.append(" = ");
        push_hex2(&mut text, value);
        assert(text@ =~= indirect_indexed_text(byte, base, address, value));
        text
    }

    fn operand<P>(nes: &Nes<P>, mode: u8, opcode: u8) -> (rendered: (String, usize))
        ensures
            rendered.0@ == operand_text(*nes, mode, opcode),
            rendered.1 == operand_width(mode, opcode),
    {
        let regs = nes.dump_registers();
        let at = regs.pc.wrapping_add(1);
        let byte = nes.peek(at);
        if mode == IMPLICIT {
            (String::new(), 0)
        } else if mode == ACCUMULATOR {
            let mut text = String::new();
            text.append("A");
            assert(text@ =~= "A"@);
            (text, 1)
        } else if mode == IMMEDIATE {
            (Self::immediate(byte), 4)
        } else if mode == ZERO_PAGE {
            (Self::zero_page(byte, nes.peek(byte as u16)), 8)
        } else if mode == ZERO_PAGE_X {
            let total = byte.wrapping_add(regs.x);
            (Self::zero_page_indexed(byte, true, total, nes.peek(total as u16)), 15)
        } else if mode == ZERO_PAGE_Y {
            let total = byte.wrapping_add(regs.y);
            (Self::zero_page_indexed(byte, false, total, nes.peek(total as u16)), 15)
        } else if mode == RELATIVE {
            (Self::relative(branch_destination(at.wrapping_add(1), byte)), 5)
        } else if mode == ABSOLUTE {
            let word = nes.peek_short(at);
            let jump = opcode == JMP_ABSOLUTE || opcode == JSR_ABSOLUTE;
            (Self::absolute(word, jump, nes.peek(word)), if jump { 5 } else { 10 })
        } else if mode == ABSOLUTE_X {
            let word = nes.peek_short(at);
            let total = word.wrapping_add(regs.x as u16);
            (Self::absolute_indexed(word, true, total, nes.peek(total)), 19)
        } else if mode == ABSOLUTE_Y {
            let word = nes.peek_short(at);
            let total = word.wrapping_add(regs.y as u16);
            (Self::absolute_indexed(word, false, total, nes.peek(total)), 19)
        } else if mode == INDIRECT {
            let word = nes.peek_short(at);
            let low = nes.peek(word);
            let next = join_word(split_low(word).wrapping_add(1), split_high(word));
            let high = nes.peek(next);
            (Self::indirect(word, join_word(low, high)), 14)
        } else if mode == INDEXED_INDIRECT {
            let base = byte.wrapping_add(regs.x);
            let low = nes.peek(base as u16);
            let high = nes.peek(base.wrapping_add(1) as u16);
            let address = join_word(low, high);
            (Self::indexed_indirect(byte, base, address, nes.peek(address)), 24)
        } else {
            let low = nes.peek(byte as u16);
            let high = nes.peek(byte.wrapping_add(1) as u16);
            let base = join_word(low, high);
            let address = base.wrapping_add(regs.y as u16);
            (Self::indirect_indexed(byte, base, address, nes.peek(address)), 26)
        }
    }

    fn registers(regs: NesRegisters) -> (text: String)
        ensures
            text@ == registers_text(regs),
    {
        let mut text = String::new();
        text.append("A:");
        push_hex2(&mut text, regs.a);
        text.append(" X:");
        push_hex2(&mut text, regs.x);
        text.append(" Y:");
        push_hex2(&mut text, regs.y);
        text.append(" P:");
        push_hex2(&mut text, regs.p);
        text.append(" SP:");
        push_hex2(&mut text, regs.sp);
        text.append(" ");
        assert(text@ =~= registers_text(regs));
        text
    }

    fn clock(cycles: u64) -> (text: String)
        ensures
            text@ == clock_text(cycles),
    {
        let mut text = String::new();
        text.append("PPU:");
        push_decimal3(&mut text, TRACED_PPU_ROW);
        text.append(",");
        push_decimal3(&mut text, TRACED_PPU_COLUMN);
        text.append(" CYC:");
        push_decimal(&mut text, cycles);
        assert(text@ =~= clock_text(cycles));
        text
    }

    /// The line of the trace for the instruction at the program counter. The
    /// machine is not touched.
    pub fn trace_line<P>(&self, nes: &Nes<P>) -> (line: String)
        ensures
            line@ == trace_text(self.labels@, *nes),
    {
        let regs = nes.dump_registers();
        let pc = regs.get_pc();
        let opcode = nes.peek(pc);
        let entry = opcode_entry(opcode);
        let (operand, width) = Self::operand(nes, entry.addressing, opcode);
        let mut line = self.label(pc);
        push_hex4(&mut line, pc);
        line.append("  ");
        line.append(Self::encoding(nes, pc, entry.bytes).as_str());
        line.append(Self::name(opcode).as_str());
        line.append(operand.as_str());
        push_spaces(&mut line, OPERAND_COLUMNS - width);
        line.append(Self::registers(regs).as_str());
        line.append(Self::clock(nes.cpu.cycles).as_str());
        line
    }
}

impl NesPeripheral for Spy {
    /// Adds the line of the trace for the instruction that is fetched next.
    fn tick(&mut self, nes: &mut Nes<Self>)
        ensures
            final(self).lines@ == old(self).lines@.push(final(self).lines@.last()),
            final(self).lines@.last()@ == trace_text(old(self).labels@, *old(nes)),
            final(self).labels == old(self).labels,
            *final(nes) == *old(nes),
    {
        let line = self.trace_line(nes);
        self.lines.push(line);
    }
}

} // verus!
