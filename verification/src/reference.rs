//! Reading the two references of the instruction set: the tables of the HTML
//! reference, handed over as text, and the notes on undocumented opcodes.

use vstd::prelude::*;
use vstd::slice::slice_subrange;
use vstd::slice::slice_to_vec;
use vstd::string::StrSliceExecFns;
use vstd::utf8::encode_utf8;
use crate::codegen::cycles_of;
use crate::codegen::encoding_of;
use crate::codegen::parse_cycles;
use crate::codegen::parse_encoding;
use crate::codegen::same_text;
use crate::codegen::text_of;
use crate::common::AddressingMode;
use crate::common::CyclesCost;
use crate::common::NesMetaOpcode;
use crate::common::NesOpcode;
use crate::common::opcode_models;
use crate::common::OpcodeModel;
use crate::common::StatusFlags;
use crate::common::StatusOption;
use crate::common::strip;
use crate::common::stripped;
use crate::text::parse_number;
use crate::text::parsed;
use crate::text::SPACE;

verus! {

pub const COMMA: u8 = 0x2c;

pub const SEMICOLON: u8 = 0x3b;

pub const OPENING: u8 = 0x28;

pub const LINE_FEED: u8 = 0x0a;

/// Whether a byte is one of the five white space characters of ASCII.
pub open spec fn blank(b: u8) -> bool {
    b == 0x20 || b == 0x09 || b == 0x0a || b == 0x0c || b == 0x0d
}

/// Tells whether a byte is white space of ASCII.
pub fn is_blank(b: u8) -> (space: bool)
    ensures
        space == blank(b),
{
    b == 0x20 || b == 0x09 || b == 0x0a || b == 0x0c || b == 0x0d
}

/// The byte that writes a character of ASCII; `$FF`, which no text holds, for
/// any other character.
pub open spec fn ascii_byte(c: char) -> u8 {
    if (c as u32) < 0x80 {
        (c as u32) as u8
    } else {
        0xff
    }
}

/// The bytes that write a text of ASCII.
pub open spec fn ascii(text: Seq<char>) -> Seq<u8> {
    Seq::new(text.len(), |i: int| ascii_byte(text[i]))
}

/// A text without its white space.
pub open spec fn squeezed(text: Seq<u8>) -> Seq<u8>
    decreases text.len(),
{
    if text.len() == 0 {
        Seq::empty()
    } else if blank(text.last()) {
        squeezed(text.drop_last())
    } else {
        squeezed(text.drop_last()).push(text.last())
    }
}

/// The bytes of `text` from `from` up to `to` that are no white space.
pub fn squeeze(text: &[u8], from: usize, to: usize) -> (kept: Vec<u8>)
    requires
        from <= to <= text@.len(),
    ensures
        kept@ == squeezed(text@.subrange(from as int, to as int)),
{
    let mut kept: Vec<u8> = Vec::new();
    let mut i: usize = from;
    let ghost part = text@.subrange(from as int, to as int);
    assert(part.take(0) =~= Seq::<u8>::empty());
    while i < to
        invariant
            from <= i <= to <= text@.len(),
            part == text@.subrange(from as int, to as int),
            kept@ == squeezed(part.take(i - from)),
        decreases to - i,
    {
        assert(part.take(i - from + 1).drop_last() =~= part.take(i - from));
        assert(part.take(i - from + 1).last() == text@[i as int]);
        if !is_blank(text[i]) {
            kept.push(text[i]);
        }
        i += 1;
    }
    assert(part.take(to - from) =~= part);
    kept
}

/// Tells whether bytes write a text of ASCII.
pub fn writes(bytes: &Vec<u8>, text: &str) -> (same: bool)
    ensures
        same == (bytes@ == ascii(text@)),
{
    let length = text.unicode_len();
    if bytes.len() != length {
        return false;
    }
    let mut i: usize = 0;
    while i < length
        invariant
            i <= length,
            length == text@.len(),
            length == bytes@.len(),
            forall|j: int| 0 <= j < i ==> bytes@[j] == ascii_byte(text@[j]),
        decreases length - i,
    {
        let code = text.get_char(i) as u32;
        let byte: u8 = if code < 0x80 {
            code as u8
        } else {
            0xff
        };
        if bytes[i] != byte {
            assert(bytes@[i as int] != ascii(text@)[i as int]);
            return false;
        }
        i += 1;
    }
    assert(bytes@ =~= ascii(text@));
    true
}

/// The mode that a short form of the assembler syntax stands for, white
/// space aside. The empty form stands for the implicit mode.
pub open spec fn short_form(form: Seq<u8>) -> Option<AddressingMode> {
    if form == ascii("#i"@) {
        Some(AddressingMode::Immediate)
    } else if form == ascii("(d,X)"@) {
        Some(AddressingMode::IndexedIndirect)
    } else if form == ascii("d"@) {
        Some(AddressingMode::ZeroPage)
    } else if form == ascii("a"@) {
        Some(AddressingMode::Absolute)
    } else if form == ascii("(d),Y"@) {
        Some(AddressingMode::IndirectIndexed)
    } else if form == ascii("d,Y"@) {
        Some(AddressingMode::ZeroPageY)
    } else if form == ascii("a,Y"@) {
        Some(AddressingMode::AbsoluteY)
    } else if form == ascii("a,X"@) {
        Some(AddressingMode::AbsoluteX)
    } else if form == ascii("d,X"@) {
        Some(AddressingMode::ZeroPageX)
    } else if form == ascii(""@) {
        Some(AddressingMode::Implicit)
    } else {
        None
    }
}

/// The mode that the bytes of `text` from `from` up to `to` stand for in the
/// short form of the assembler syntax.
pub fn short_mode(text: &[u8], from: usize, to: usize) -> (mode: Option<AddressingMode>)
    requires
        from <= to <= text@.len(),
    ensures
        mode == short_form(squeezed(text@.subrange(from as int, to as int))),
{
    let form = squeeze(text, from, to);
    if writes(&form, "#i") {
        Some(AddressingMode::Immediate)
    } else if writes(&form, "(d,X)") {
        Some(AddressingMode::IndexedIndirect)
    } else if writes(&form, "d") {
        Some(AddressingMode::ZeroPage)
    } else if writes(&form, "a") {
        Some(AddressingMode::Absolute)
    } else if writes(&form, "(d),Y") {
        Some(AddressingMode::IndirectIndexed)
    } else if writes(&form, "d,Y") {
        Some(AddressingMode::ZeroPageY)
    } else if writes(&form, "a,Y") {
        Some(AddressingMode::AbsoluteY)
    } else if writes(&form, "a,X") {
        Some(AddressingMode::AbsoluteX)
    } else if writes(&form, "d,X") {
        Some(AddressingMode::ZeroPageX)
    } else if writes(&form, "") {
        Some(AddressingMode::Implicit)
    } else {
        None
    }
}

/// The number of bytes of `text` before the first byte `mark`, or the length
/// of `text` where it holds no such byte.
pub open spec fn first_index(text: Seq<u8>, mark: u8) -> int
    decreases text.len(),
{
    if text.len() == 0 || text[0] == mark {
        0
    } else {
        1 + first_index(text.skip(1), mark)
    }
}

/// The first mark of a text is within the text or at its end.
pub proof fn lemma_first_index(text: Seq<u8>, mark: u8)
    ensures
        0 <= first_index(text, mark) <= text.len(),
    decreases text.len(),
{
    if text.len() > 0 && text[0] != mark {
        lemma_first_index(text.skip(1), mark);
    }
}

/// Where the first `count` bytes of a text are no marks and the next one is a
/// mark or the end, the first mark is at `count`.
pub proof fn lemma_first_index_found(text: Seq<u8>, mark: u8, count: int)
    requires
        0 <= count <= text.len(),
        forall|i: int| 0 <= i < count ==> text[i] != mark,
        count == text.len() || text[count] == mark,
    ensures
        first_index(text, mark) == count,
    decreases text.len(),
{
    if count > 0 {
        let rest = text.skip(1);
        assert forall|i: int| 0 <= i < count - 1 implies rest[i] != mark by {
            assert(rest[i] == text[i + 1]);
        }
        lemma_first_index_found(rest, mark, count - 1);
    }
}

/// The position of the first byte `mark` of `text` from `from` up to `to`, or
/// `to` where there is none.
pub fn find_first(text: &[u8], from: usize, to: usize, mark: u8) -> (at: usize)
    requires
        from <= to <= text@.len(),
    ensures
        from <= at <= to,
        at - from == first_index(text@.subrange(from as int, to as int), mark),
{
    let mut at: usize = from;
    while at < to && text[at] != mark
        invariant
            from <= at <= to <= text@.len(),
            forall|i: int| from <= i < at ==> text@[i] != mark,
        decreases to - at,
    {
        at += 1;
    }
    proof {
        lemma_first_index_found(text@.subrange(from as int, to as int), mark, at - from);
    }
    at
}

/// The position of the last byte `mark` in `text`, or -1 where it holds no
/// such byte.
pub open spec fn last_index(text: Seq<u8>, mark: u8) -> int
    decreases text.len(),
{
    if text.len() == 0 {
        -1
    } else if text.last() == mark {
        text.len() - 1
    } else {
        last_index(text.drop_last(), mark)
    }
}

/// Where a byte of a text is a mark and no byte after it is, that is the
/// place of the last mark; where no byte is a mark, there is none.
pub proof fn lemma_last_index_found(text: Seq<u8>, mark: u8, at: int)
    requires
        -1 <= at < text.len(),
        at >= 0 ==> text[at] == mark,
        forall|i: int| at < i < text.len() ==> text[i] != mark,
    ensures
        last_index(text, mark) == at,
    decreases text.len(),
{
    if text.len() > 0 && at < text.len() - 1 {
        lemma_last_index_found(text.drop_last(), mark, at);
    }
}

/// The position of the last byte `mark` of `text` from `from` up to `to`;
/// `None` where there is none.
pub fn find_last(text: &[u8], from: usize, to: usize, mark: u8) -> (at: Option<usize>)
    requires
        from <= to <= text@.len(),
    ensures
        match at {
            Some(place) => from <= place < to && place - from == last_index(
                text@.subrange(from as int, to as int),
                mark,
            ),
            None => last_index(text@.subrange(from as int, to as int), mark) == -1,
        },
{
    let mut at: usize = to;
    while at > from && text[at - 1] != mark
        invariant
            from <= at <= to <= text@.len(),
            forall|i: int| at <= i < to ==> text@[i] != mark,
        decreases at,
    {
        at -= 1;
    }
    proof {
        lemma_last_index_found(text@.subrange(from as int, to as int), mark, at - from - 1);
    }
    if at > from {
        Some(at - 1)
    } else {
        None
    }
}

/// The number of white space bytes at the start of a text.
pub open spec fn leading_blanks(text: Seq<u8>) -> int
    decreases text.len(),
{
    if text.len() == 0 || !blank(text[0]) {
        0
    } else {
        1 + leading_blanks(text.skip(1))
    }
}

/// The number of bytes at the start of a text that are no white space.
pub open spec fn leading_word(text: Seq<u8>) -> int
    decreases text.len(),
{
    if text.len() == 0 || blank(text[0]) {
        0
    } else {
        1 + leading_word(text.skip(1))
    }
}

/// Where the first `count` bytes of a text are white space and the next one
/// is not, or the text ends, the text starts with `count` blanks.
pub proof fn lemma_leading_blanks(text: Seq<u8>, count: int)
    requires
        0 <= count <= text.len(),
        forall|i: int| 0 <= i < count ==> blank(text[i]),
        count == text.len() || !blank(text[count]),
    ensures
        leading_blanks(text) == count,
    decreases text.len(),
{
    if count > 0 {
        let rest = text.skip(1);
        assert forall|i: int| 0 <= i < count - 1 implies blank(rest[i]) by {
            assert(rest[i] == text[i + 1]);
        }
        lemma_leading_blanks(rest, count - 1);
    }
}

/// Where the first `count` bytes of a text are no white space and the next
/// one is, or the text ends, the text starts with a word of `count` bytes.
pub proof fn lemma_leading_word(text: Seq<u8>, count: int)
    requires
        0 <= count <= text.len(),
        forall|i: int| 0 <= i < count ==> !blank(text[i]),
        count == text.len() || blank(text[count]),
    ensures
        leading_word(text) == count,
    decreases text.len(),
{
    if count > 0 {
        let rest = text.skip(1);
        assert forall|i: int| 0 <= i < count - 1 implies !blank(rest[i]) by {
            assert(rest[i] == text[i + 1]);
        }
        lemma_leading_word(rest, count - 1);
    }
}

/// The first position at or after `from` and before `to` that holds no white
/// space, or `to`.
pub fn skip_blanks(text: &[u8], from: usize, to: usize) -> (at: usize)
    requires
        from <= to <= text@.len(),
    ensures
        from <= at <= to,
        at - from == leading_blanks(text@.subrange(from as int, to as int)),
{
    let mut at: usize = from;
    while at < to && is_blank(text[at])
        invariant
            from <= at <= to <= text@.len(),
            forall|i: int| from <= i < at ==> blank(text@[i]),
        decreases to - at,
    {
        at += 1;
    }
    proof {
        lemma_leading_blanks(text@.subrange(from as int, to as int), at - from);
    }
    at
}

/// The first position at or after `from` and before `to` that holds white
/// space, or `to`.
pub fn skip_word(text: &[u8], from: usize, to: usize) -> (at: usize)
    requires
        from <= to <= text@.len(),
    ensures
        from <= at <= to,
        at - from == leading_word(text@.subrange(from as int, to as int)),
{
    let mut at: usize = from;
    while at < to && !is_blank(text[at])
        invariant
            from <= at <= to <= text@.len(),
            forall|i: int| from <= i < at ==> !blank(text@[i]),
        decreases to - at,
    {
        at += 1;
    }
    proof {
        lemma_leading_word(text@.subrange(from as int, to as int), at - from);
    }
    at
}

/// The starts of a text are within the text.
pub proof fn lemma_leading_bounds(text: Seq<u8>)
    ensures
        0 <= leading_blanks(text) <= text.len(),
        0 <= leading_word(text) <= text.len(),
    decreases text.len(),
{
    if text.len() > 0 {
        lemma_leading_bounds(text.skip(1));
    }
}

/// The number of words in a text: a word is a run of bytes that are no white
/// space.
pub open spec fn word_count(text: Seq<u8>) -> nat
    decreases text.len(),
{
    let rest = text.skip(leading_blanks(text));
    let length = leading_word(rest);
    if length <= 0 {
        0
    } else {
        proof {
            lemma_leading_bounds(text);
            lemma_leading_bounds(rest);
        }
        1 + word_count(rest.skip(length))
    }
}

/// The number of words of `text` from `from` up to `to`.
pub fn count_words(text: &[u8], from: usize, to: usize) -> (count: usize)
    requires
        from <= to <= text@.len(),
    ensures
        count == word_count(text@.subrange(from as int, to as int)),
        count <= to - from,
{
    let mut count: usize = 0;
    let mut at: usize = from;
    loop
        invariant
            from <= at <= to <= text@.len(),
            count <= at - from,
            count + word_count(text@.subrange(at as int, to as int)) == word_count(
                text@.subrange(from as int, to as int),
            ),
        decreases to - at,
    {
        let ghost part = text@.subrange(at as int, to as int);
        let start = skip_blanks(text, at, to);
        let end = skip_word(text, start, to);
        assert(part.skip(start - at) =~= text@.subrange(start as int, to as int));
        assert(part.skip(start - at).skip(end - start) =~= text@.subrange(end as int, to as int));
        if end == start {
            return count;
        }
        count += 1;
        at = end;
    }
}

/// One encoding that a note lists: the opcode and the length of the encoding.
#[derive(Clone, Copy, PartialEq, Eq, Structural, Debug)]
pub struct Variant {
    pub opcode: u8,
    pub bytes: u8,
}

/// The encoding that a piece of a note lists: its first word is the opcode in
/// hexadecimal after a dollar sign, and each further word stands for one byte
/// of operand. `None` where the piece has no word or its first word gives no
/// opcode.
pub open spec fn variant_of(piece: Seq<u8>) -> Option<Variant> {
    let rest = piece.skip(leading_blanks(piece));
    let length = leading_word(rest);
    if length <= 0 {
        None
    } else {
        match parsed(rest.subrange(1, length), 16) {
            Some(opcode) => Some(
                Variant { opcode, bytes: ((word_count(rest.skip(length)) + 1) % 256) as u8 },
            ),
            None => None,
        }
    }
}

/// The encoding that the bytes of `text` from `from` up to `to` list.
pub fn read_variant(text: &[u8], from: usize, to: usize) -> (variant: Option<Variant>)
    requires
        from <= to <= text@.len(),
    ensures
        variant == variant_of(text@.subrange(from as int, to as int)),
{
    let ghost piece = text@.subrange(from as int, to as int);
    let start = skip_blanks(text, from, to);
    let end = skip_word(text, start, to);
    assert(piece.skip(start - from) =~= text@.subrange(start as int, to as int));
    let ghost rest = piece.skip(start - from);
    if end == start {
        return None;
    }
    assert(rest.subrange(1, end - start) =~= text@.subrange(start + 1, end as int));
    assert(rest.skip(end - start) =~= text@.subrange(end as int, to as int));
    match parse_number(text, start + 1, end, 16) {
        Some(opcode) => {
            let operands = count_words(text, end, to);
            Some(Variant { opcode, bytes: ((operands + 1) % 256) as u8 })
        },
        None => None,
    }
}

/// The encodings that a note lists between its bracket and its semicolon, one
/// in each piece between commas. `None` where a piece lists none.
pub open spec fn variants_of(text: Seq<u8>) -> Option<Seq<Variant>>
    decreases text.len(),
{
    let cut = first_index(text, COMMA);
    match variant_of(text.take(cut)) {
        None => None,
        Some(first) => if cut >= text.len() {
            Some(seq![first])
        } else {
            proof {
                lemma_first_index(text, COMMA);
            }
            match variants_of(text.skip(cut + 1)) {
                None => None,
                Some(rest) => Some(seq![first] + rest),
            }
        },
    }
}

/// The encodings that the bytes of `text` from `from` up to `to` list.
pub fn read_variants(text: &[u8], from: usize, to: usize) -> (variants: Option<Vec<Variant>>)
    requires
        from <= to <= text@.len(),
    ensures
        match variants {
            Some(list) => variants_of(text@.subrange(from as int, to as int)) == Some(list@),
            None => variants_of(text@.subrange(from as int, to as int)) is None,
        },
{
    let mut list: Vec<Variant> = Vec::new();
    let mut at: usize = from;
    let ghost whole = variants_of(text@.subrange(from as int, to as int));
    loop
        invariant
            from <= at <= to <= text@.len(),
            whole == variants_of(text@.subrange(from as int, to as int)),
            match variants_of(text@.subrange(at as int, to as int)) {
                Some(rest) => whole == Some(list@ + rest),
                None => whole is None,
            },
        decreases to - at,
    {
        let ghost part = text@.subrange(at as int, to as int);
        let ghost taken = list@;
        let cut = find_first(text, at, to, COMMA);
        assert(part.take(cut - at) =~= text@.subrange(at as int, cut as int));
        match read_variant(text, at, cut) {
            None => {
                return None;
            },
            Some(variant) => {
                list.push(variant);
                if cut >= to {
                    assert(taken + seq![variant] =~= list@);
                    return Some(list);
                }
                proof {
                    assert(part.skip(cut - at + 1) =~= text@.subrange(cut + 1, to as int));
                    match variants_of(text@.subrange(cut + 1, to as int)) {
                        Some(rest) => {
                            assert(taken + (seq![variant] + rest) =~= list@ + rest);
                        },
                        None => {},
                    }
                }
                at = cut + 1;
            },
        }
    }
}

/// What one line of the notes says.
pub struct Note {
    /// the three bytes of the name
    pub name: Vec<u8>,
    pub addressing: AddressingMode,
    pub cycles: u8,
    pub variants: Vec<Variant>,
}

/// What one line of the notes says, as a value of the model.
pub struct NoteModel {
    pub name: Seq<u8>,
    pub addressing: AddressingMode,
    pub cycles: u8,
    pub variants: Seq<Variant>,
}

impl View for Note {
    type V = NoteModel;

    open spec fn view(&self) -> NoteModel {
        NoteModel {
            name: self.name@,
            addressing: self.addressing,
            cycles: self.cycles,
            variants: self.variants@,
        }
    }
}

/// The first word of a text.
pub open spec fn first_word(text: Seq<u8>) -> Seq<u8> {
    let rest = text.skip(leading_blanks(text));
    rest.take(leading_word(rest))
}

/// What a line of the notes says. The line starts with a name of three bytes.
/// What stands between the name and the last opening bracket is the operand
/// in the short form of the assembler syntax. Between that bracket and the
/// semicolon after it stand the encodings, with commas between them, and after
/// the semicolon the cycles in decimal. `None` where the line is not of this
/// form.
pub open spec fn note_of(line: Seq<u8>) -> Option<NoteModel> {
    let rest = line.skip(3);
    let bracket = last_index(rest, OPENING);
    let tail = rest.skip(bracket + 1);
    let semicolon = first_index(tail, SEMICOLON);
    if line.len() < 3 || bracket < 0 || semicolon >= tail.len() {
        None
    } else {
        match (
            short_form(squeezed(rest.take(bracket))),
            parsed(first_word(tail.skip(semicolon + 1)), 10),
            variants_of(tail.take(semicolon)),
        ) {
            (Some(addressing), Some(cycles), Some(variants)) => Some(
                NoteModel { name: line.take(3), addressing, cycles, variants },
            ),
            _ => None,
        }
    }
}

/// Reads a line of the notes.
pub fn read_note(line: &[u8], from: usize, to: usize) -> (note: Option<Note>)
    requires
        from <= to <= line@.len(),
    ensures
        match note {
            Some(read) => note_of(line@.subrange(from as int, to as int)) == Some(read@),
            None => note_of(line@.subrange(from as int, to as int)) is None,
        },
{
    let ghost text = line@.subrange(from as int, to as int);
    if to - from < 3 {
        return None;
    }
    let start = from + 3;
    let ghost rest = text.skip(3);
    assert(rest =~= line@.subrange(start as int, to as int));
    let bracket = match find_last(line, start, to, OPENING) {
        Some(at) => at,
        None => {
            return None;
        },
    };
    let ghost tail = rest.skip(bracket - start + 1);
    assert(tail =~= line@.subrange(bracket + 1, to as int));
    let semicolon = find_first(line, bracket + 1, to, SEMICOLON);
    if semicolon >= to {
        return None;
    }
    assert(rest.take(bracket - start) =~= line@.subrange(start as int, bracket as int));
    assert(tail.take(semicolon - bracket - 1) =~= line@.subrange(bracket + 1, semicolon as int));
    let ghost after = tail.skip(semicolon - bracket);
    assert(after =~= line@.subrange(semicolon + 1, to as int));
    let word_start = skip_blanks(line, semicolon + 1, to);
    let word_end = skip_word(line, word_start, to);
    assert(after.skip(word_start - semicolon - 1) =~= line@.subrange(word_start as int, to as int));
    assert(first_word(after) =~= line@.subrange(word_start as int, word_end as int));
    let addressing = short_mode(line, start, bracket);
    let cycles = parse_number(line, word_start, word_end, 10);
    let variants = read_variants(line, bracket + 1, semicolon);
    match (addressing, cycles, variants) {
        (Some(addressing), Some(cycles), Some(variants)) => {
            let name = slice_to_vec(slice_subrange(line, from, start));
            assert(text.take(3) =~= line@.subrange(from as int, start as int));
            Some(Note { name, addressing, cycles, variants })
        },
        _ => None,
    }
}

/// Whether a line of the notes describes encodings: it has more than one
/// byte and does not start with a space.
pub open spec fn describes(line: Seq<u8>) -> bool {
    line.len() > 1 && line[0] != SPACE
}

/// What the notes say, line by line. `None` where a line that describes
/// encodings is not of the form of a note.
pub open spec fn notes_of(text: Seq<u8>) -> Option<Seq<NoteModel>>
    decreases text.len(),
{
    let cut = first_index(text, LINE_FEED);
    let line = text.take(cut);
    let first = if describes(line) {
        match note_of(line) {
            Some(note) => Some(seq![note]),
            None => None,
        }
    } else {
        Some(Seq::empty())
    };
    if cut >= text.len() {
        first
    } else {
        proof {
            lemma_first_index(text, LINE_FEED);
        }
        match (first, notes_of(text.skip(cut + 1))) {
            (Some(here), Some(rest)) => Some(here + rest),
            _ => None,
        }
    }
}

/// The notes that a list of notes stands for.
pub open spec fn note_models(notes: Seq<Note>) -> Seq<NoteModel> {
    Seq::new(notes.len(), |i: int| notes[i]@)
}

/// Reads the notes.
pub fn read_notes(text: &[u8]) -> (notes: Option<Vec<Note>>)
    ensures
        match notes {
            Some(read) => notes_of(text@) == Some(note_models(read@)),
            None => notes_of(text@) is None,
        },
{
    let mut read: Vec<Note> = Vec::new();
    let mut at: usize = 0;
    let to = text.len();
    assert(text@.subrange(0, to as int) =~= text@);
    assert(note_models(read@) =~= Seq::<NoteModel>::empty());
    loop
        invariant
            at <= to == text@.len(),
            match notes_of(text@.subrange(at as int, to as int)) {
                Some(rest) => notes_of(text@) == Some(note_models(read@) + rest),
                None => notes_of(text@) is None,
            },
        decreases to - at,
    {
        let ghost part = text@.subrange(at as int, to as int);
        let ghost taken = note_models(read@);
        let cut = find_first(text, at, to, LINE_FEED);
        assert(part.take(cut - at) =~= text@.subrange(at as int, cut as int));
        let ghost here: Seq<NoteModel>;
        if cut - at > 1 && text[at] != SPACE {
            match read_note(text, at, cut) {
                None => {
                    return None;
                },
                Some(note) => {
                    proof {
                        here = seq![note@];
                    }
                    read.push(note);
                },
            }
        } else {
            proof {
                here = Seq::empty();
            }
        }
        assert(note_models(read@) =~= taken + here);
        if cut >= to {
            proof {
                assert(taken + here =~= note_models(read@));
            }
            return Some(read);
        }
        proof {
            assert(part.skip(cut - at + 1) =~= text@.subrange(cut + 1, to as int));
            match notes_of(text@.subrange(cut + 1, to as int)) {
                Some(rest) => {
                    assert(taken + (here + rest) =~= note_models(read@) + rest);
                },
                None => {},
            }
        }
        at = cut + 1;
    }
}

/// One row of a table of encodings in the reference, as the texts of its four
/// columns.
pub struct ReferenceRow {
    pub addressing: String,
    pub encoding: String,
    pub length: String,
    pub cycles: String,
}

/// One row of a table of encodings, as a value of the model.
pub struct RowModel {
    pub addressing: Seq<char>,
    pub encoding: Seq<char>,
    pub length: Seq<char>,
    pub cycles: Seq<char>,
}

impl View for ReferenceRow {
    type V = RowModel;

    open spec fn view(&self) -> RowModel {
        RowModel {
            addressing: self.addressing@,
            encoding: self.encoding@,
            length: self.length@,
            cycles: self.cycles@,
        }
    }
}

/// One section of the reference: the name of an instruction, what the
/// reference says of it, what it says of each of the seven flags, and the rows
/// of the table of its encodings.
pub struct ReferenceSection {
    pub name: String,
    pub description: String,
    pub flags: Vec<String>,
    pub rows: Vec<ReferenceRow>,
}

/// One section of the reference, as a value of the model.
pub struct SectionModel {
    pub name: Seq<char>,
    pub description: Seq<char>,
    pub flags: Seq<Seq<char>>,
    pub rows: Seq<RowModel>,
}

impl View for ReferenceSection {
    type V = SectionModel;

    open spec fn view(&self) -> SectionModel {
        SectionModel {
            name: self.name@,
            description: self.description@,
            flags: Seq::new(self.flags@.len(), |i: int| self.flags@[i]@),
            rows: Seq::new(self.rows@.len(), |i: int| self.rows@[i]@),
        }
    }
}

/// The sections that a list of sections stands for.
pub open spec fn section_models(sections: Seq<ReferenceSection>) -> Seq<SectionModel> {
    Seq::new(sections.len(), |i: int| sections[i]@)
}

/// What the reference says of a flag: the flag stays where the text is
/// `Not affected`, and may change otherwise.
pub open spec fn flag_option(text: Seq<char>) -> StatusOption {
    if text == "Not affected"@ {
        StatusOption::NotAffected
    } else {
        StatusOption::Conditional
    }
}

/// What the reference says of a flag.
pub fn is_not_affected(text: &str) -> (option: StatusOption)
    ensures
        option == flag_option(text@),
{
    if same_text(text, "Not affected") {
        StatusOption::NotAffected
    } else {
        StatusOption::Conditional
    }
}

/// What a section says of the seven flags, in the order carry, zero,
/// interrupt, decimal, break, overflow, negative. `None` where it speaks of
/// fewer.
pub open spec fn status_of(flags: Seq<Seq<char>>) -> Option<StatusFlags> {
    if flags.len() < 7 {
        None
    } else {
        Some(
            StatusFlags {
                carry: flag_option(flags[0]),
                zero: flag_option(flags[1]),
                interupt_disable: flag_option(flags[2]),
                decimal: flag_option(flags[3]),
                break_command: flag_option(flags[4]),
                overflow: flag_option(flags[5]),
                negative: flag_option(flags[6]),
            },
        )
    }
}

/// What a section says of the seven flags.
pub fn read_status_definition(section: &ReferenceSection) -> (status: Option<StatusFlags>)
    ensures
        status == status_of(section@.flags),
{
    if section.flags.len() < 7 {
        return None;
    }
    Some(
        StatusFlags {
            carry: is_not_affected(section.flags[0].as_str()),
            zero: is_not_affected(section.flags[1].as_str()),
            interupt_disable: is_not_affected(section.flags[2].as_str()),
            decimal: is_not_affected(section.flags[3].as_str()),
            break_command: is_not_affected(section.flags[4].as_str()),
            overflow: is_not_affected(section.flags[5].as_str()),
            negative: is_not_affected(section.flags[6].as_str()),
        },
    )
}

/// The length of an encoding that a text of the reference gives: a number in
/// decimal, white space aside.
pub open spec fn length_of(text: Seq<char>) -> Option<u8> {
    parsed(encode_utf8(stripped(text, false)), 10)
}

/// The length of an encoding that a text of the reference gives.
pub fn parse_length(text: &str) -> (length: Option<u8>)
    ensures
        length == length_of(text@),
{
    let kept = text_of(&strip(text, false));
    let bytes = kept.as_str().as_bytes();
    assert(bytes@.subrange(0, bytes@.len() as int) =~= bytes@);
    parse_number(bytes, 0, bytes.len(), 10)
}

/// The encoding that a row of the reference describes, for the instruction
/// of the given name. `None` where one of its columns cannot be read.
#[verifier::opaque]
pub open spec fn row_opcode(
    row: RowModel,
    name: Seq<char>,
    description: Seq<char>,
    status: StatusFlags,
) -> Option<OpcodeModel> {
    match (
        AddressingMode::named(stripped(row.addressing, false)),
        encoding_of(encode_utf8(row.encoding)),
        length_of(row.length),
        cycles_of(encode_utf8(row.cycles)),
    ) {
        (Some(addressing), Some(opcode), Some(bytes), Some(cycles)) => Some(
            OpcodeModel { name, description, status, addressing, opcode, bytes, cycles },
        ),
        _ => None,
    }
}

/// The encoding that a row of the reference describes.
pub fn read_row(
    row: &ReferenceRow,
    name: &String,
    description: &String,
    status: StatusFlags,
) -> (opcode: Option<NesOpcode>)
    ensures
        match opcode {
            Some(read) => row_opcode(row@, name@, description@, status) == Some(read@),
            None => row_opcode(row@, name@, description@, status) is None,
        },
{
    reveal(row_opcode);
    let addressing = AddressingMode::parse_reference_material(row.addressing.as_str());
    let encoding = parse_encoding(row.encoding.as_str());
    let length = parse_length(row.length.as_str());
    let cycles = parse_cycles(row.cycles.as_str());
    match (addressing, encoding, length, cycles) {
        (Some(addressing), Some(opcode), Some(bytes), Some(cycles)) => Some(
            NesOpcode {
                meta: NesMetaOpcode {
                    name: name.clone(),
                    description: description.clone(),
                    status,
                },
                addressing,
                opcode,
                bytes,
                cycles,
            },
        ),
        _ => None,
    }
}

/// The encodings that rows of the reference describe, in the order of the
/// rows. `None` where a row cannot be read.
pub open spec fn rows_opcodes(
    rows: Seq<RowModel>,
    name: Seq<char>,
    description: Seq<char>,
    status: StatusFlags,
) -> Option<Seq<OpcodeModel>>
    decreases rows.len(),
{
    if rows.len() == 0 {
        Some(Seq::empty())
    } else {
        match (
            rows_opcodes(rows.drop_last(), name, description, status),
            row_opcode(rows.last(), name, description, status),
        ) {
            (Some(earlier), Some(last)) => Some(earlier.push(last)),
            _ => None,
        }
    }
}

/// The encodings that a section of the reference describes. `None` where the
/// section says too little of the flags or a row cannot be read.
pub open spec fn section_opcodes(section: SectionModel) -> Option<Seq<OpcodeModel>> {
    match status_of(section.flags) {
        Some(status) => rows_opcodes(section.rows, section.name, section.description, status),
        None => None,
    }
}

/// The encodings that a section of the reference describes, added to `list`.
/// Tells whether the section could be read.
pub fn read_opcode_definition(section: &ReferenceSection, list: &mut Vec<NesOpcode>) -> (read: bool)
    ensures
        read == section_opcodes(section@) is Some,
        read ==> opcode_models(final(list)@) == opcode_models(old(list)@) + section_opcodes(
            section@,
        )->0,
{
    let status = match read_status_definition(section) {
        Some(status) => status,
        None => {
            return false;
        },
    };
    let ghost rows = section@.rows;
    let ghost before = opcode_models(list@);
    let mut i: usize = 0;
    assert(rows.take(0) =~= Seq::<RowModel>::empty());
    assert(before + Seq::<OpcodeModel>::empty() =~= before);
    while i < section.rows.len()
        invariant
            i <= section.rows@.len(),
            rows == section@.rows,
            rows.len() == section.rows@.len(),
            status_of(section@.flags) == Some(status),
            rows_opcodes(rows.take(i as int), section@.name, section@.description, status) is Some,
            opcode_models(list@) == before + rows_opcodes(
                rows.take(i as int),
                section@.name,
                section@.description,
                status,
            )->0,
        decreases section.rows@.len() - i,
    {
        let ghost earlier = rows_opcodes(
            rows.take(i as int),
            section@.name,
            section@.description,
            status,
        )->0;
        let ghost listed = opcode_models(list@);
        assert(rows.take(i + 1).drop_last() =~= rows.take(i as int));
        assert(rows.take(i + 1).last() == section.rows@[i as int]@);
        match read_row(&section.rows[i], &section.name, &section.description, status) {
            Some(opcode) => {
                list.push(opcode);
                assert(opcode_models(list@) =~= listed.push(opcode@));
                assert(before + earlier.push(opcode@) =~= (before + earlier).push(opcode@));
            },
            None => {
                proof {
                    assert(rows_opcodes(
                        rows.take(i + 1),
                        section@.name,
                        section@.description,
                        status,
                    ) is None);
                    lemma_rows_fail(rows, section@.name, section@.description, status, i + 1);
                }
                return false;
            },
        }
        i += 1;
    }
    assert(rows.take(i as int) =~= rows);
    true
}

/// Where the first rows of a table cannot be read, the table cannot be read.
pub proof fn lemma_rows_fail(
    rows: Seq<RowModel>,
    name: Seq<char>,
    description: Seq<char>,
    status: StatusFlags,
    count: int,
)
    requires
        0 <= count <= rows.len(),
        rows_opcodes(rows.take(count), name, description, status) is None,
    ensures
        rows_opcodes(rows, name, description, status) is None,
    decreases rows.len() - count,
{
    if count == rows.len() {
        assert(rows.take(count) =~= rows);
    } else {
        assert(rows.take(count + 1).drop_last() =~= rows.take(count));
        lemma_rows_fail(rows, name, description, status, count + 1);
    }
}

/// The encodings that the sections of the reference describe, section by
/// section. `None` where a section cannot be read.
pub open spec fn sections_opcodes(sections: Seq<SectionModel>) -> Option<Seq<OpcodeModel>>
    decreases sections.len(),
{
    if sections.len() == 0 {
        Some(Seq::empty())
    } else {
        match (sections_opcodes(sections.drop_last()), section_opcodes(sections.last())) {
            (Some(earlier), Some(last)) => Some(earlier + last),
            _ => None,
        }
    }
}

/// Where the first sections cannot be read, the reference cannot be read.
pub proof fn lemma_sections_fail(sections: Seq<SectionModel>, count: int)
    requires
        0 <= count <= sections.len(),
        sections_opcodes(sections.take(count)) is None,
    ensures
        sections_opcodes(sections) is None,
    decreases sections.len() - count,
{
    if count == sections.len() {
        assert(sections.take(count) =~= sections);
    } else {
        assert(sections.take(count + 1).drop_last() =~= sections.take(count));
        lemma_sections_fail(sections, count + 1);
    }
}

/// The character that a byte of ASCII writes.
pub open spec fn ascii_char(b: u8) -> char {
    b as char
}

/// The name of the instruction of a note: an asterisk and the three bytes of
/// the name, which are bytes of ASCII. `None` where they are not.
pub open spec fn note_name(name: Seq<u8>) -> Option<Seq<char>> {
    if name.len() == 3 && name[0] < 0x80 && name[1] < 0x80 && name[2] < 0x80 {
        Some(seq!['*', ascii_char(name[0]), ascii_char(name[1]), ascii_char(name[2])])
    } else {
        None
    }
}

/// The encoding that a note describes for one of the variants that it lists:
/// of the instruction nothing but the name is known, and the cycles do not
/// depend on the page.
pub open spec fn variant_opcode(note: NoteModel, name: Seq<char>, variant: Variant) -> OpcodeModel {
    OpcodeModel {
        name,
        description: Seq::empty(),
        status: StatusFlags::unknown(),
        addressing: note.addressing,
        opcode: variant.opcode,
        bytes: variant.bytes,
        cycles: CyclesCost::Always(note.cycles),
    }
}

/// The encodings that a note describes, in the order of its variants. `None`
/// where the name of the note is not written in ASCII.
pub open spec fn note_opcodes(note: NoteModel) -> Option<Seq<OpcodeModel>> {
    match note_name(note.name) {
        Some(name) => Some(
            Seq::new(note.variants.len(), |i: int| variant_opcode(note, name, note.variants[i])),
        ),
        None => None,
    }
}

/// The encodings that notes describe, note by note. `None` where the name of
/// a note is not written in ASCII.
pub open spec fn notes_opcodes(notes: Seq<NoteModel>) -> Option<Seq<OpcodeModel>>
    decreases notes.len(),
{
    if notes.len() == 0 {
        Some(Seq::empty())
    } else {
        match (notes_opcodes(notes.drop_last()), note_opcodes(notes.last())) {
            (Some(earlier), Some(last)) => Some(earlier + last),
            _ => None,
        }
    }
}

/// Where the first notes cannot be read, the notes cannot be read.
pub proof fn lemma_notes_fail(notes: Seq<NoteModel>, count: int)
    requires
        0 <= count <= notes.len(),
        notes_opcodes(notes.take(count)) is None,
    ensures
        notes_opcodes(notes) is None,
    decreases notes.len() - count,
{
    if count == notes.len() {
        assert(notes.take(count) =~= notes);
    } else {
        assert(notes.take(count + 1).drop_last() =~= notes.take(count));
        lemma_notes_fail(notes, count + 1);
    }
}

/// The encodings that a note describes, added to `list`. Tells whether the
/// name of the note could be read.
pub fn read_note_opcodes(note: &Note, list: &mut Vec<NesOpcode>) -> (read: bool)
    ensures
        read == note_opcodes(note@) is Some,
        read ==> opcode_models(final(list)@) == opcode_models(old(list)@) + note_opcodes(note@)->0,
{
    if note.name.len() != 3 || note.name[0] >= 0x80 || note.name[1] >= 0x80 || note.name[2]
        >= 0x80 {
        return false;
    }
    let mut chars: Vec<char> = Vec::new();
    chars.push('*');
    chars.push(note.name[0] as char);
    chars.push(note.name[1] as char);
    chars.push(note.name[2] as char);
    let ghost name = note_name(note@.name)->0;
    assert(chars@ =~= name);
    let ghost before = opcode_models(list@);
    let ghost all = note_opcodes(note@)->0;
    let mut i: usize = 0;
    assert(before + all.take(0) =~= before);
    while i < note.variants.len()
        invariant
            i <= note.variants@.len(),
            chars@ == name,
            all == note_opcodes(note@)->0,
            all.len() == note.variants@.len(),
            note_name(note@.name) == Some(name),
            opcode_models(list@) == before + all.take(i as int),
        decreases note.variants@.len() - i,
    {
        let ghost listed = opcode_models(list@);
        let variant = note.variants[i];
        let opcode = NesOpcode {
            meta: NesMetaOpcode {
                name: text_of(&chars),
                description: String::new(),
                status: StatusFlags::new(),
            },
            addressing: note.addressing,
            opcode: variant.opcode,
            bytes: variant.bytes,
            cycles: CyclesCost::Always(note.cycles),
        };
        assert(opcode@ == all[i as int]);
        list.push(opcode);
        assert(opcode_models(list@) =~= listed.push(opcode@));
        assert(before + all.take(i + 1) =~= (before + all.take(i as int)).push(all[i as int]));
        i += 1;
    }
    assert(all.take(i as int) =~= all);
    true
}

/// Every encoding that the two references describe: first those of the
/// sections of the reference, then those of the notes on undocumented
/// opcodes. `None` where a section or a note cannot be read.
pub open spec fn opcode_list(sections: Seq<SectionModel>, notes: Seq<u8>) -> Option<
    Seq<OpcodeModel>,
> {
    match (sections_opcodes(sections), notes_of(notes)) {
        (Some(documented), Some(read)) => match notes_opcodes(read) {
            Some(undocumented) => Some(documented + undocumented),
            None => None,
        },
        _ => None,
    }
}

/// Every encoding that the two references describe.
pub fn generate_opcode_list(sections: &[ReferenceSection], notes: &str) -> (list: Option<
    Vec<NesOpcode>,
>)
    ensures
        match list {
            Some(read) => opcode_list(section_models(sections@), encode_utf8(notes@)) == Some(
                opcode_models(read@),
            ),
            None => opcode_list(section_models(sections@), encode_utf8(notes@)) is None,
        },
{
    let mut list: Vec<NesOpcode> = Vec::new();
    let ghost models = section_models(sections@);
    let mut i: usize = 0;
    assert(models.take(0) =~= Seq::<SectionModel>::empty());
    assert(opcode_models(list@) =~= Seq::<OpcodeModel>::empty());
    while i < sections.len()
        invariant
            i <= sections@.len(),
            models == section_models(sections@),
            sections_opcodes(models.take(i as int)) == Some(opcode_models(list@)),
        decreases sections@.len() - i,
    {
        assert(models.take(i + 1).drop_last() =~= models.take(i as int));
        assert(models.take(i + 1).last() == sections@[i as int]@);
        if !read_opcode_definition(&sections[i], &mut list) {
            proof {
                lemma_sections_fail(models, i + 1);
            }
            return None;
        }
        i += 1;
    }
    assert(models.take(i as int) =~= models);
    let ghost documented = opcode_models(list@);
    let read = match read_notes(notes.as_bytes()) {
        Some(read) => read,
        None => {
            return None;
        },
    };
    let ghost noted = note_models(read@);
    let mut j: usize = 0;
    assert(noted.take(0) =~= Seq::<NoteModel>::empty());
    assert(documented + Seq::<OpcodeModel>::empty() =~= documented);
    while j < read.len()
        invariant
            j <= read@.len(),
            noted == note_models(read@),
            notes_of(encode_utf8(notes@)) == Some(noted),
            sections_opcodes(section_models(sections@)) == Some(documented),
            notes_opcodes(noted.take(j as int)) is Some,
            opcode_models(list@) == documented + notes_opcodes(noted.take(j as int))->0,
        decreases read@.len() - j,
    {
        let ghost earlier = notes_opcodes(noted.take(j as int))->0;
        assert(noted.take(j + 1).drop_last() =~= noted.take(j as int));
        assert(noted.take(j + 1).last() == read@[j as int]@);
        if !read_note_opcodes(&read[j], &mut list) {
            proof {
                lemma_notes_fail(noted, j + 1);
            }
            return None;
        }
        assert(documented + (earlier + note_opcodes(read@[j as int]@)->0) =~= (documented
            + earlier) + note_opcodes(read@[j as int]@)->0);
        j += 1;
    }
    assert(noted.take(j as int) =~= noted);
    Some(list)
}

} // verus!
