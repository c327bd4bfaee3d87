//! What is known of an encoding before it enters the dispatch table.

use vstd::prelude::*;
use vstd::string::StrSliceExecFns;

verus! {

/// Whether a character is white space.
pub open spec fn white_space(c: char) -> bool {
    let code = c as u32;
    (0x09 <= code && code <= 0x0d) || code == 0x20 || code == 0x85 || code == 0xa0 || code
        == 0x1680 || (0x2000 <= code && code <= 0x200a) || code == 0x2028 || code == 0x2029 || code
        == 0x202f || code == 0x205f || code == 0x3000
}

/// Whether a character is one of the five white space characters of ASCII.
pub open spec fn ascii_white_space(c: char) -> bool {
    let code = c as u32;
    code == 0x20 || code == 0x09 || code == 0x0a || code == 0x0c || code == 0x0d
}

/// A text without its white space, all of it or only that of ASCII.
pub open spec fn stripped(text: Seq<char>, ascii_only: bool) -> Seq<char>
    decreases text.len(),
{
    if text.len() == 0 {
        Seq::empty()
    } else {
        let c = text.last();
        let space = if ascii_only {
            ascii_white_space(c)
        } else {
            white_space(c)
        };
        if space {
            stripped(text.drop_last(), ascii_only)
        } else {
            stripped(text.drop_last(), ascii_only).push(c)
        }
    }
}

/// Tells whether a character is white space.
pub fn is_white_space(c: char, ascii_only: bool) -> (space: bool)
    ensures
        space == if ascii_only {
            ascii_white_space(c)
        } else {
            white_space(c)
        },
{
    let code = c as u32;
    if ascii_only {
        code == 0x20 || code == 0x09 || code == 0x0a || code == 0x0c || code == 0x0d
    } else {
        (0x09 <= code && code <= 0x0d) || code == 0x20 || code == 0x85 || code == 0xa0 || code
            == 0x1680 || (0x2000 <= code && code <= 0x200a) || code == 0x2028 || code == 0x2029
            || code == 0x202f || code == 0x205f || code == 0x3000
    }
}

/// The characters of a text that are no white space.
pub fn strip(text: &str, ascii_only: bool) -> (kept: Vec<char>)
    ensures
        kept@ == stripped(text@, ascii_only),
{
    let mut kept: Vec<char> = Vec::new();
    let length = text.unicode_len();
    let mut i: usize = 0;
    assert(text@.take(0) =~= Seq::<char>::empty());
    while i < length
        invariant
            i <= length,
            length == text@.len(),
            kept@ == stripped(text@.take(i as int), ascii_only),
        decreases length - i,
    {
        assert(text@.take(i + 1).drop_last() =~= text@.take(i as int));
        let c = text.get_char(i);
        if !is_white_space(c, ascii_only) {
            kept.push(c);
        }
        i += 1;
    }
    assert(text@.take(i as int) =~= text@);
    kept
}

/// Tells whether characters spell a text.
pub fn spells(chars: &Vec<char>, text: &str) -> (same: bool)
    ensures
        same == (chars@ == text@),
{
    let length = text.unicode_len();
    if chars.len() != length {
        return false;
    }
    let mut i: usize = 0;
    while i < length
        invariant
            i <= length,
            length == text@.len(),
            length == chars@.len(),
            forall|j: int| 0 <= j < i ==> chars@[j] == text@[j],
        decreases length - i,
    {
        if chars[i] != text.get_char(i) {
            return false;
        }
        i += 1;
    }
    assert(chars@ =~= text@);
    true
}

/// An encoding packed into three bytes.
#[derive(Clone, Copy, PartialEq, Eq, Structural, Debug)]
pub struct CompactOpcode {
    /// the code of the addressing mode
    pub addressing: u8,
    /// bit 7: whether crossing a page costs a cycle; bits 0 and 1: the length
    /// of the encoding
    pub byte_cycles: u8,
    /// the family of the instruction
    pub family: u8,
}

/// How an instruction finds its operand.
#[derive(Clone, Copy, PartialEq, Eq, Structural, Debug)]
pub enum AddressingMode {
    Implicit,
    Accumulator,
    Immediate,
    ZeroPage,
    ZeroPageX,
    ZeroPageY,
    Relative,
    Absolute,
    AbsoluteX,
    AbsoluteY,
    Indirect,
    IndexedIndirect,
    IndirectIndexed,
}

impl AddressingMode {
    /// The code of the mode, as the dispatch table holds it.
    pub open spec fn code(self) -> u8 {
        match self {
            AddressingMode::Implicit => 0,
            AddressingMode::Accumulator => 1,
            AddressingMode::Immediate => 2,
            AddressingMode::ZeroPage => 3,
            AddressingMode::ZeroPageX => 4,
            AddressingMode::ZeroPageY => 5,
            AddressingMode::Relative => 6,
            AddressingMode::Absolute => 7,
            AddressingMode::AbsoluteX => 8,
            AddressingMode::AbsoluteY => 9,
            AddressingMode::Indirect => 10,
            AddressingMode::IndexedIndirect => 11,
            AddressingMode::IndirectIndexed => 12,
        }
    }

    /// The mode that a code stands for; a number that is no code stands for
    /// the implicit mode.
    pub open spec fn of_code(num: u8) -> AddressingMode {
        match num {
            1 => AddressingMode::Accumulator,
            2 => AddressingMode::Immediate,
            3 => AddressingMode::ZeroPage,
            4 => AddressingMode::ZeroPageX,
            5 => AddressingMode::ZeroPageY,
            6 => AddressingMode::Relative,
            7 => AddressingMode::Absolute,
            8 => AddressingMode::AbsoluteX,
            9 => AddressingMode::AbsoluteY,
            10 => AddressingMode::Indirect,
            11 => AddressingMode::IndexedIndirect,
            12 => AddressingMode::IndirectIndexed,
            _ => AddressingMode::Implicit,
        }
    }

    /// The mode that a name of the reference stands for.
    pub open spec fn named(name: Seq<char>) -> Option<AddressingMode> {
        if name == "Implied"@ {
            Some(AddressingMode::Implicit)
        } else if name == "Accumulator"@ {
            Some(AddressingMode::Accumulator)
        } else if name == "Immediate"@ {
            Some(AddressingMode::Immediate)
        } else if name == "ZeroPage"@ {
            Some(AddressingMode::ZeroPage)
        } else if name == "ZeroPage,X"@ {
            Some(AddressingMode::ZeroPageX)
        } else if name == "ZeroPage,Y"@ {
            Some(AddressingMode::ZeroPageY)
        } else if name == "Relative"@ {
            Some(AddressingMode::Relative)
        } else if name == "Absolute"@ {
            Some(AddressingMode::Absolute)
        } else if name == "Absolute,X"@ {
            Some(AddressingMode::AbsoluteX)
        } else if name == "Absolute,Y"@ {
            Some(AddressingMode::AbsoluteY)
        } else if name == "Indirect"@ {
            Some(AddressingMode::Indirect)
        } else if name == "(Indirect,X)"@ {
            Some(AddressingMode::IndexedIndirect)
        } else if name == "(Indirect),Y"@ {
            Some(AddressingMode::IndirectIndexed)
        } else {
            None
        }
    }

    /// The mode that a short form of the assembler syntax stands for.
    pub open spec fn abbreviated(form: Seq<char>) -> Option<AddressingMode> {
        if form == "#i"@ {
            Some(AddressingMode::Immediate)
        } else if form == "(d,X)"@ {
            Some(AddressingMode::IndexedIndirect)
        } else if form == "d"@ {
            Some(AddressingMode::ZeroPage)
        } else if form == "a"@ {
            Some(AddressingMode::Absolute)
        } else if form == "(d),Y"@ {
            Some(AddressingMode::IndirectIndexed)
        } else if form == "d,Y"@ {
            Some(AddressingMode::ZeroPageY)
        } else if form == "a,Y"@ {
            Some(AddressingMode::AbsoluteY)
        } else if form == "a,X"@ {
            Some(AddressingMode::AbsoluteX)
        } else if form == "d,X"@ {
            Some(AddressingMode::ZeroPageX)
        } else if form == ""@ {
            Some(AddressingMode::Implicit)
        } else {
            None
        }
    }

    /// The mode that `text` names as the reference does, white space aside;
    /// `None` where it names no mode.
    pub fn parse_reference_material(text: &str) -> (mode: Option<AddressingMode>)
        ensures
            mode == AddressingMode::named(stripped(text@, false)),
    {
        let name = strip(text, false);
        if spells(&name, "Implied") {
            Some(AddressingMode::Implicit)
        } else if spells(&name, "Accumulator") {
            Some(AddressingMode::Accumulator)
        } else if spells(&name, "Immediate") {
            Some(AddressingMode::Immediate)
        } else if spells(&name, "ZeroPage") {
            Some(AddressingMode::ZeroPage)
        } else if spells(&name, "ZeroPage,X") {
            Some(AddressingMode::ZeroPageX)
        } else if spells(&name, "ZeroPage,Y") {
            Some(AddressingMode::ZeroPageY)
        } else if spells(&name, "Relative") {
            Some(AddressingMode::Relative)
        } else if spells(&name, "Absolute") {
            Some(AddressingMode::Absolute)
        } else if spells(&name, "Absolute,X") {
            Some(AddressingMode::AbsoluteX)
        } else if spells(&name, "Absolute,Y") {
            Some(AddressingMode::AbsoluteY)
        } else if spells(&name, "Indirect") {
            Some(AddressingMode::Indirect)
        } else if spells(&name, "(Indirect,X)") {
            Some(AddressingMode::IndexedIndirect)
        } else if spells(&name, "(Indirect),Y") {
            Some(AddressingMode::IndirectIndexed)
        } else {
            None
        }
    }

    /// The mode that `text` names as the reference does, white space aside.
    pub fn from_reference_material(text: &str) -> (mode: AddressingMode)
        requires
            AddressingMode::named(stripped(text@, false)) is Some,
        ensures
            Some(mode) == AddressingMode::named(stripped(text@, false)),
    {
        match AddressingMode::parse_reference_material(text) {
            Some(mode) => mode,
            None => AddressingMode::Implicit,
        }
    }

    /// The mode that `text` stands for in the short form of the assembler
    /// syntax, the white space of ASCII aside; `None` where it stands for no
    /// mode.
    pub fn parse_reference_short_version(text: &str) -> (mode: Option<AddressingMode>)
        ensures
            mode == AddressingMode::abbreviated(stripped(text@, true)),
    {
        let form = strip(text, true);
        if spells(&form, "#i") {
            Some(AddressingMode::Immediate)
        } else if spells(&form, "(d,X)") {
            Some(AddressingMode::IndexedIndirect)
        } else if spells(&form, "d") {
            Some(AddressingMode::ZeroPage)
        } else if spells(&form, "a") {
            Some(AddressingMode::Absolute)
        } else if spells(&form, "(d),Y") {
            Some(AddressingMode::IndirectIndexed)
        } else if spells(&form, "d,Y") {
            Some(AddressingMode::ZeroPageY)
        } else if spells(&form, "a,Y") {
            Some(AddressingMode::AbsoluteY)
        } else if spells(&form, "a,X") {
            Some(AddressingMode::AbsoluteX)
        } else if spells(&form, "d,X") {
            Some(AddressingMode::ZeroPageX)
        } else if spells(&form, "") {
            Some(AddressingMode::Implicit)
        } else {
            None
        }
    }

    /// The mode that `text` stands for in the short form of the assembler
    /// syntax, the white space of ASCII aside.
    pub fn from_reference_short_version(text: &str) -> (mode: AddressingMode)
        requires
            AddressingMode::abbreviated(stripped(text@, true)) is Some,
        ensures
            Some(mode) == AddressingMode::abbreviated(stripped(text@, true)),
    {
        match AddressingMode::parse_reference_short_version(text) {
            Some(mode) => mode,
            None => AddressingMode::Implicit,
        }
    }

    pub fn to_u8(&self) -> (code: u8)
        ensures
            code == self.code(),
    {
        match self {
            AddressingMode::Implicit => 0,
            AddressingMode::Accumulator => 1,
            AddressingMode::Immediate => 2,
            AddressingMode::ZeroPage => 3,
            AddressingMode::ZeroPageX => 4,
            AddressingMode::ZeroPageY => 5,
            AddressingMode::Relative => 6,
            AddressingMode::Absolute => 7,
            AddressingMode::AbsoluteX => 8,
            AddressingMode::AbsoluteY => 9,
            AddressingMode::Indirect => 10,
            AddressingMode::IndexedIndirect => 11,
            AddressingMode::IndirectIndexed => 12,
        }
    }

    pub fn from_u8(num: u8) -> (mode: AddressingMode)
        ensures
            mode == AddressingMode::of_code(num),
    {
        match num {
            1 => AddressingMode::Accumulator,
            2 => AddressingMode::Immediate,
            3 => AddressingMode::ZeroPage,
            4 => AddressingMode::ZeroPageX,
            5 => AddressingMode::ZeroPageY,
            6 => AddressingMode::Relative,
            7 => AddressingMode::Absolute,
            8 => AddressingMode::AbsoluteX,
            9 => AddressingMode::AbsoluteY,
            10 => AddressingMode::Indirect,
            11 => AddressingMode::IndexedIndirect,
            12 => AddressingMode::IndirectIndexed,
            _ => AddressingMode::Implicit,
        }
    }
}

/// A mode is the mode that its code stands for, and its code is at most 12.
pub proof fn law_mode_codes(mode: AddressingMode)
    ensures
        AddressingMode::of_code(mode.code()) == mode,
        mode.code() <= 12,
{
}

/// Whether an instruction leaves a flag as it is.
#[derive(Clone, Copy, PartialEq, Eq, Structural, Debug)]
pub enum StatusOption {
    Conditional,
    NotAffected,
}

impl Default for StatusOption {
    fn default() -> (option: StatusOption)
        ensures
            option == StatusOption::Conditional,
    {
        StatusOption::Conditional
    }
}

/// The base cycles of an encoding, and whether crossing a page adds one.
#[derive(Clone, Copy, PartialEq, Eq, Structural, Debug)]
pub enum CyclesCost {
    Always(u8),
    PageDependant(u8),
}

impl CyclesCost {
    /// The base cycles.
    pub open spec fn base(self) -> u8 {
        match self {
            CyclesCost::Always(n) => n,
            CyclesCost::PageDependant(n) => n,
        }
    }

    /// Whether crossing a page adds a cycle.
    pub open spec fn page_dependent(self) -> bool {
        self is PageDependant
    }

    /// The base cycles, without the cycle that crossing a page adds.
    pub fn to_u8(&self) -> (cycles: u8)
        ensures
            cycles == self.base(),
    {
        match self {
            CyclesCost::Always(n) => *n,
            CyclesCost::PageDependant(n) => *n,
        }
    }
}

/// What an instruction does to each flag.
#[derive(Clone, Copy, PartialEq, Eq, Structural, Debug)]
pub struct StatusFlags {
    pub carry: StatusOption,
    pub zero: StatusOption,
    pub interupt_disable: StatusOption,
    pub decimal: StatusOption,
    pub break_command: StatusOption,
    pub overflow: StatusOption,
    pub negative: StatusOption,
}

impl StatusFlags {
    /// The flags of an instruction of which nothing is known: each may change.
    pub open spec fn unknown() -> StatusFlags {
        StatusFlags {
            carry: StatusOption::Conditional,
            zero: StatusOption::Conditional,
            interupt_disable: StatusOption::Conditional,
            decimal: StatusOption::Conditional,
            break_command: StatusOption::Conditional,
            overflow: StatusOption::Conditional,
            negative: StatusOption::Conditional,
        }
    }

    pub fn new() -> (flags: StatusFlags)
        ensures
            flags == StatusFlags::unknown(),
    {
        StatusFlags {
            carry: StatusOption::Conditional,
            zero: StatusOption::Conditional,
            interupt_disable: StatusOption::Conditional,
            decimal: StatusOption::Conditional,
            break_command: StatusOption::Conditional,
            overflow: StatusOption::Conditional,
            negative: StatusOption::Conditional,
        }
    }
}

impl Default for StatusFlags {
    fn default() -> (flags: StatusFlags)
        ensures
            flags == StatusFlags::unknown(),
    {
        StatusFlags::new()
    }
}

/// What the reference says of an instruction, whatever its encoding.
#[derive(Clone, Debug)]
pub struct NesMetaOpcode {
    pub name: String,
    pub description: String,
    pub status: StatusFlags,
}

/// One encoding of an instruction.
#[derive(Clone, Debug)]
pub struct NesOpcode {
    pub meta: NesMetaOpcode,
    pub addressing: AddressingMode,
    pub opcode: u8,
    pub bytes: u8,
    pub cycles: CyclesCost,
}

/// One encoding of an instruction, as a value of the model: the texts are
/// sequences of characters.
pub struct OpcodeModel {
    pub name: Seq<char>,
    pub description: Seq<char>,
    pub status: StatusFlags,
    pub addressing: AddressingMode,
    pub opcode: u8,
    pub bytes: u8,
    pub cycles: CyclesCost,
}

impl View for NesOpcode {
    type V = OpcodeModel;

    open spec fn view(&self) -> OpcodeModel {
        OpcodeModel {
            name: self.meta.name@,
            description: self.meta.description@,
            status: self.meta.status,
            addressing: self.addressing,
            opcode: self.opcode,
            bytes: self.bytes,
            cycles: self.cycles,
        }
    }
}

/// The encodings that a list of encodings stands for.
pub open spec fn opcode_models(list: Seq<NesOpcode>) -> Seq<OpcodeModel> {
    Seq::new(list.len(), |i: int| list[i]@)
}

impl NesOpcode {
    /// The packed form of the encoding.
    pub open spec fn compacted(self) -> CompactOpcode {
        CompactOpcode {
            addressing: self.addressing.code(),
            byte_cycles: (self.bytes & 0x03) | (match self.cycles {
                CyclesCost::Always(n) => n & 0x70,
                CyclesCost::PageDependant(n) => (n & 0x70) | 0x80,
            }),
            family: 0,
        }
    }

    /// Packs the encoding: the code of its mode, its length in the low two
    /// bits of a byte, and in bit 7 of that byte whether crossing a page costs
    /// a cycle; of the cycles the byte keeps bits 4 to 6.
    pub fn compact(self) -> (packed: CompactOpcode)
        ensures
            packed == self.compacted(),
    {
        let upper_bits = match self.cycles {
            CyclesCost::Always(n) => n & 0x70,
            CyclesCost::PageDependant(n) => (n & 0x70) | 0x80,
        };
        let lower_bits = self.bytes & 0x03;
        CompactOpcode {
            addressing: self.addressing.to_u8(),
            byte_cycles: lower_bits | upper_bits,
            family: 0,
        }
    }
}

impl CompactOpcode {
    /// The three fields of the packed form: the code of the addressing mode,
    /// the byte that holds length and cycles, and the family.
    pub fn open(self) -> (fields: (u8, u8, u8))
        ensures
            fields == (self.addressing, self.byte_cycles, self.family),
    {
        (self.addressing, self.byte_cycles, self.family)
    }
}

} // verus!
