//! From what the references say of each encoding to the entries of the
//! dispatch table and to the names that traces write.

use vstd::prelude::*;
use vstd::string::StrSliceExecFns;
use vstd::string::StringSliceAdditionalSpecFns;
use vstd::utf8::encode_utf8;
use crate::common::CyclesCost;
use crate::common::NesOpcode;
use crate::text::find_space;
use crate::text::first_token_length;
use crate::text::parse_number;
use crate::text::parsed;

verus! {

/// A letter of ASCII in upper case, and every other character as it is.
pub open spec fn upper_char(c: char) -> char {
    if 0x61 <= c as u32 && c as u32 <= 0x7a {
        ((c as u32) - 0x20) as char
    } else {
        c
    }
}

/// A letter of ASCII in lower case, and every other character as it is.
pub open spec fn lower_char(c: char) -> char {
    if 0x41 <= c as u32 && c as u32 <= 0x5a {
        ((c as u32) + 0x20) as char
    } else {
        c
    }
}

/// Whether a character is a letter of ASCII.
pub open spec fn ascii_letter(c: char) -> bool {
    (0x41 <= c as u32 && c as u32 <= 0x5a) || (0x61 <= c as u32 && c as u32 <= 0x7a)
}

/// A text with its ASCII letters in upper case.
pub open spec fn upper_case(text: Seq<char>) -> Seq<char> {
    Seq::new(text.len(), |i: int| upper_char(text[i]))
}

/// A text with its ASCII letters in lower case.
pub open spec fn lower_case(text: Seq<char>) -> Seq<char> {
    Seq::new(text.len(), |i: int| lower_char(text[i]))
}

/// The ASCII letters of a text, in their order.
pub open spec fn letters(text: Seq<char>) -> Seq<char>
    decreases text.len(),
{
    if text.len() == 0 {
        Seq::empty()
    } else if ascii_letter(text.last()) {
        letters(text.drop_last()).push(text.last())
    } else {
        letters(text.drop_last())
    }
}

/// The text that `chars` spell. This is `String::from_iter` of the standard
/// library on the characters of the vector, which gives the string made of
/// these characters in their order.
#[verifier::external_body]
pub(crate) fn text_of(chars: &Vec<char>) -> (text: String)
    ensures
        text@ == chars@,
{
    String::from_iter(chars.iter())
}

/// A text with its ASCII letters in upper case.
pub fn to_upper_case(text: &str) -> (upper: String)
    ensures
        upper@ == upper_case(text@),
{
    let length = text.unicode_len();
    let mut chars: Vec<char> = Vec::new();
    let mut i: usize = 0;
    while i < length
        invariant
            i <= length,
            length == text@.len(),
            chars@.len() == i,
            forall|j: int| 0 <= j < i ==> chars@[j] == upper_char(text@[j]),
        decreases length - i,
    {
        let c = text.get_char(i);
        let code = c as u32;
        if 0x61 <= code && code <= 0x7a {
            chars.push(((code - 0x20) as u8) as char);
        } else {
            chars.push(c);
        }
        i += 1;
    }
    assert(chars@ =~= upper_case(text@));
    text_of(&chars)
}

/// A text with its ASCII letters in lower case.
pub fn to_lower_case(text: &str) -> (lower: String)
    ensures
        lower@ == lower_case(text@),
{
    let length = text.unicode_len();
    let mut chars: Vec<char> = Vec::new();
    let mut i: usize = 0;
    while i < length
        invariant
            i <= length,
            length == text@.len(),
            chars@.len() == i,
            forall|j: int| 0 <= j < i ==> chars@[j] == lower_char(text@[j]),
        decreases length - i,
    {
        let c = text.get_char(i);
        let code = c as u32;
        if 0x41 <= code && code <= 0x5a {
            chars.push(((code + 0x20) as u8) as char);
        } else {
            chars.push(c);
        }
        i += 1;
    }
    assert(chars@ =~= lower_case(text@));
    text_of(&chars)
}

/// The ASCII letters of a text, in their order.
pub fn letters_of(text: &str) -> (kept: String)
    ensures
        kept@ == letters(text@),
{
    let length = text.unicode_len();
    let mut chars: Vec<char> = Vec::new();
    let mut i: usize = 0;
    assert(text@.take(0) =~= Seq::<char>::empty());
    while i < length
        invariant
            i <= length,
            length == text@.len(),
            chars@ == letters(text@.take(i as int)),
        decreases length - i,
    {
        assert(text@.take(i + 1).drop_last() =~= text@.take(i as int));
        let c = text.get_char(i);
        let code = c as u32;
        if (0x41 <= code && code <= 0x5a) || (0x61 <= code && code <= 0x7a) {
            chars.push(c);
        }
        i += 1;
    }
    assert(text@.take(i as int) =~= text@);
    text_of(&chars)
}

/// Tells whether two texts are the same.
pub fn same_text(left: &str, right: &str) -> (same: bool)
    ensures
        same == (left@ == right@),
{
    let length = left.unicode_len();
    if right.unicode_len() != length {
        return false;
    }
    let mut i: usize = 0;
    while i < length
        invariant
            i <= length,
            length == left@.len(),
            length == right@.len(),
            forall|j: int| 0 <= j < i ==> left@[j] == right@[j],
        decreases length - i,
    {
        if left.get_char(i) != right.get_char(i) {
            return false;
        }
        i += 1;
    }
    assert(left@ =~= right@);
    true
}

/// The name under which traces write an undocumented instruction that the
/// reference knows under another name.
pub open spec fn renamed(name: Seq<char>) -> Option<Seq<char>> {
    if name == "*IGN"@ || name == "*SKB"@ {
        Some("*NOP"@)
    } else if name == "*ADC"@ {
        Some("*SBC"@)
    } else if name == "*ISC"@ {
        Some("*ISB"@)
    } else {
        None
    }
}

/// The name that traces write for an instruction: the name under which they
/// know it where that differs, and else its name in upper case.
pub open spec fn traced_name(name: Seq<char>) -> Seq<char> {
    match renamed(name) {
        Some(other) => other,
        None => upper_case(name),
    }
}

/// The name that traces write for an instruction.
pub fn trace_name(name: &str) -> (traced: String)
    ensures
        traced@ == traced_name(name@),
{
    if same_text(name, "*IGN") || same_text(name, "*SKB") {
        "*NOP".to_owned()
    } else if same_text(name, "*ADC") {
        "*SBC".to_owned()
    } else if same_text(name, "*ISC") {
        "*ISB".to_owned()
    } else {
        to_upper_case(name)
    }
}

/// The name of the handler of an instruction: the name of the instruction in
/// lower case, without the asterisk of an undocumented one. A name that takes
/// three bytes is taken whole, of any other only the letters.
pub open spec fn handler_name(name: Seq<char>) -> Seq<char> {
    if encode_utf8(name).len() == 3 {
        lower_case(name)
    } else {
        lower_case(letters(name))
    }
}

/// The name of the handler of an instruction.
pub fn handler_ident(name: &str) -> (ident: String)
    ensures
        ident@ == handler_name(name@),
{
    if name.as_bytes().len() == 3 {
        to_lower_case(name)
    } else {
        let kept = letters_of(name);
        to_lower_case(kept.as_str())
    }
}

/// The position of the first of `known` that describes the encoding `number`;
/// the length of `known` where none does.
pub open spec fn first_of(known: Seq<NesOpcode>, number: u8) -> int
    decreases known.len(),
{
    if known.len() == 0 {
        0
    } else if known[0].opcode == number {
        0
    } else {
        1 + first_of(known.skip(1), number)
    }
}

/// Where nothing among the first `count` of `known` describes the encoding
/// and the next one does, or the list ends, that is the place of the first
/// description.
pub proof fn lemma_first_found(known: Seq<NesOpcode>, number: u8, count: int)
    requires
        0 <= count <= known.len(),
        forall|i: int| 0 <= i < count ==> known[i].opcode != number,
        count == known.len() || known[count].opcode == number,
    ensures
        first_of(known, number) == count,
    decreases known.len(),
{
    if count > 0 {
        let rest = known.skip(1);
        assert forall|i: int| 0 <= i < count - 1 implies rest[i].opcode != number by {
            assert(rest[i] == known[i + 1]);
        }
        lemma_first_found(rest, number, count - 1);
    }
}

/// The place of the first description of an encoding.
pub fn find_opcode(known: &[NesOpcode], number: u8) -> (at: usize)
    ensures
        at == first_of(known@, number),
        at <= known@.len(),
{
    let mut at: usize = 0;
    while at < known.len() && known[at].opcode != number
        invariant
            at <= known@.len(),
            forall|i: int| 0 <= i < at ==> known@[i].opcode != number,
        decreases known@.len() - at,
    {
        at += 1;
    }
    proof {
        lemma_first_found(known@, number, at as int);
    }
    at
}

/// An encoding and the name that traces write for it.
pub struct OpcodeName {
    pub opcode: u8,
    pub name: String,
}

/// The name that traces write for the encoding `number`: that of the first
/// description of the encoding, and `*XXX` where nothing describes it.
pub open spec fn listed_name(known: Seq<NesOpcode>, number: u8) -> Seq<char> {
    let at = first_of(known, number);
    if at < known.len() {
        traced_name(known[at].meta.name@)
    } else {
        "*XXX"@
    }
}

/// The names that traces write, one for each of the 256 encodings in their
/// order.
pub fn generate_opcode_name_list(known: &[NesOpcode]) -> (names: Vec<OpcodeName>)
    ensures
        names@.len() == 256,
        forall|number: u8|
            #![trigger names@[number as int]]
            names@[number as int].opcode == number && names@[number as int].name@ == listed_name(
                known@,
                number,
            ),
{
    let mut names: Vec<OpcodeName> = Vec::with_capacity(256);
    let mut number: u16 = 0;
    while number < 256
        invariant
            number <= 256,
            names@.len() == number,
            forall|earlier: u8|
                #![trigger names@[earlier as int]]
                earlier < number ==> names@[earlier as int].opcode == earlier
                    && names@[earlier as int].name@ == listed_name(known@, earlier),
        decreases 256 - number,
    {
        let opcode = number as u8;
        let at = find_opcode(known, opcode);
        let name = if at < known.len() {
            trace_name(known[at].meta.name.as_str())
        } else {
            "*XXX".to_owned()
        };
        names.push(OpcodeName { opcode, name });
        number += 1;
    }
    names
}

/// One entry of the dispatch table as the generator writes it: the name of the
/// handler and the three numbers of the entry.
pub struct JumpListEntry {
    pub ident: String,
    pub addressing: u8,
    pub cycles: u8,
    pub bytes: u8,
}

impl JumpListEntry {
    /// Whether this entry is the one for the encoding `number`: that of the
    /// first description of the encoding, and where nothing describes it the
    /// entry of the placeholder, in the implicit mode, with no cycles and a
    /// length of one byte.
    pub open spec fn lists(self, known: Seq<NesOpcode>, number: u8) -> bool {
        let at = first_of(known, number);
        if at < known.len() {
            &&& self.ident@ == handler_name(known[at].meta.name@)
            &&& self.addressing == known[at].addressing.code()
            &&& self.cycles == known[at].cycles.base()
            &&& self.bytes == known[at].bytes
        } else {
            &&& self.ident@ == "placeholder"@
            &&& self.addressing == 0
            &&& self.cycles == 0
            &&& self.bytes == 1
        }
    }
}

/// The entries of the dispatch table, one for each of the 256 encodings in
/// their order.
pub fn generate_jumplist(known: &[NesOpcode]) -> (entries: Vec<JumpListEntry>)
    ensures
        entries@.len() == 256,
        forall|number: u8| #[trigger] entries@[number as int].lists(known@, number),
{
    let mut entries: Vec<JumpListEntry> = Vec::with_capacity(256);
    let mut number: u16 = 0;
    while number < 256
        invariant
            number <= 256,
            entries@.len() == number,
            forall|earlier: u8|
                earlier < number ==> #[trigger] entries@[earlier as int].lists(known@, earlier),
        decreases 256 - number,
    {
        let opcode = number as u8;
        let at = find_opcode(known, opcode);
        let entry = if at < known.len() {
            JumpListEntry {
                ident: handler_ident(known[at].meta.name.as_str()),
                addressing: known[at].addressing.to_u8(),
                cycles: known[at].cycles.to_u8(),
                bytes: known[at].bytes,
            }
        } else {
            JumpListEntry { ident: "placeholder".to_owned(), addressing: 0, cycles: 0, bytes: 1 }
        };
        entries.push(entry);
        number += 1;
    }
    entries
}

/// The cycles that a text of the reference gives: a number alone stands for a
/// fixed cost; a number followed by a space and a remark stands for a cost
/// that grows where a page is crossed. `None` where the text starts with no
/// number of at most 255.
pub open spec fn cycles_of(text: Seq<u8>) -> Option<CyclesCost> {
    match parsed(text, 10) {
        Some(n) => Some(CyclesCost::Always(n)),
        None => match parsed(text.take(first_token_length(text)), 10) {
            Some(n) => Some(CyclesCost::PageDependant(n)),
            None => None,
        },
    }
}

/// The cycles that a text of the reference gives.
pub fn parse_cycles(text: &str) -> (cycles: Option<CyclesCost>)
    ensures
        cycles == cycles_of(text.spec_bytes()),
{
    let bytes = text.as_bytes();
    assert(bytes@.subrange(0, bytes@.len() as int) =~= bytes@);
    assert(bytes@.skip(0) =~= bytes@);
    match parse_number(bytes, 0, bytes.len(), 10) {
        Some(n) => Some(CyclesCost::Always(n)),
        None => {
            let end = find_space(bytes, 0);
            assert(bytes@.subrange(0, end as int) =~= bytes@.take(end as int));
            match parse_number(bytes, 0, end, 10) {
                Some(n) => Some(CyclesCost::PageDependant(n)),
                None => None,
            }
        },
    }
}

/// The encoding that a text of the reference gives: a dollar sign, or any
/// other one byte, and after it the number in hexadecimal. `None` where no
/// number of at most 255 follows the first byte.
pub open spec fn encoding_of(text: Seq<u8>) -> Option<u8> {
    if text.len() == 0 {
        None
    } else {
        parsed(text.skip(1), 16)
    }
}

/// The encoding that a text of the reference gives.
pub fn parse_encoding(text: &str) -> (encoding: Option<u8>)
    ensures
        encoding == encoding_of(text.spec_bytes()),
{
    let bytes = text.as_bytes();
    if bytes.len() == 0 {
        return None;
    }
    assert(bytes@.subrange(1, bytes@.len() as int) =~= bytes@.skip(1));
    parse_number(bytes, 1, bytes.len(), 16)
}

/// Whether the text `left` stands before the text `right` in the order of
/// texts: the texts are held against each other character by character, and
/// a text stands before every longer text that starts with it.
pub open spec fn text_before(left: Seq<char>, right: Seq<char>) -> bool
    decreases left.len(),
{
    if right.len() == 0 {
        false
    } else if left.len() == 0 {
        true
    } else if left[0] != right[0] {
        (left[0] as int) < (right[0] as int)
    } else {
        text_before(left.skip(1), right.skip(1))
    }
}

/// Of two texts one stands before the other, or they are the same.
pub proof fn lemma_text_order_total(left: Seq<char>, right: Seq<char>)
    ensures
        text_before(left, right) || left == right || text_before(right, left),
    decreases left.len(),
{
    if left.len() > 0 && right.len() > 0 && left[0] == right[0] {
        lemma_text_order_total(left.skip(1), right.skip(1));
        if left.skip(1) == right.skip(1) {
            assert forall|i: int| 0 <= i < left.len() implies left[i] == right[i] by {
                if i > 0 {
                    assert(left.skip(1)[i - 1] == left[i]);
                    assert(right.skip(1)[i - 1] == right[i]);
                }
            }
            assert(left.len() == left.skip(1).len() + 1);
            assert(right.len() == right.skip(1).len() + 1);
            assert(left =~= right);
        }
    } else if left.len() == 0 && right.len() == 0 {
        assert(left =~= right);
    }
}

/// A text that stands before a second stands before every text that the
/// second stands before.
pub proof fn lemma_text_order_transitive(first: Seq<char>, second: Seq<char>, third: Seq<char>)
    requires
        text_before(first, second),
        text_before(second, third),
    ensures
        text_before(first, third),
    decreases first.len(),
{
    if first.len() > 0 && second.len() > 0 && third.len() > 0 && first[0] == second[0]
        && second[0] == third[0] {
        lemma_text_order_transitive(first.skip(1), second.skip(1), third.skip(1));
    }
}

/// Tells whether a text stands before another in the order of texts.
pub fn precedes(left: &str, right: &str) -> (before: bool)
    ensures
        before == text_before(left@, right@),
{
    let left_length = left.unicode_len();
    let right_length = right.unicode_len();
    let mut i: usize = 0;
    assert(left@.skip(0) =~= left@);
    assert(right@.skip(0) =~= right@);
    while i < left_length && i < right_length
        invariant
            i <= left_length == left@.len(),
            i <= right_length == right@.len(),
            text_before(left@, right@) == text_before(left@.skip(i as int), right@.skip(i as int)),
        decreases left_length - i,
    {
        let ours = left.get_char(i) as u32;
        let theirs = right.get_char(i) as u32;
        assert(left@.skip(i as int)[0] == left@[i as int]);
        assert(right@.skip(i as int)[0] == right@[i as int]);
        if ours != theirs {
            return ours < theirs;
        }
        assert(left@.skip(i as int).skip(1) =~= left@.skip(i + 1));
        assert(right@.skip(i as int).skip(1) =~= right@.skip(i + 1));
        i += 1;
    }
    i < right_length
}

/// Whether the texts of `names` stand in the order of texts, each before the
/// next, so that none stands twice.
pub open spec fn ascending(names: Seq<String>) -> bool {
    forall|i: int, j: int|
        0 <= i < j < names.len() ==> text_before(#[trigger] names[i]@, #[trigger] names[j]@)
}

/// Whether `name` is among `names`.
pub open spec fn among(names: Seq<String>, name: Seq<char>) -> bool {
    exists|i: int| 0 <= i < names.len() && #[trigger] names[i]@ == name
}

/// Whether `name` is the name of one of the first `count` of `known`, in
/// lower case.
pub open spec fn known_name(known: Seq<NesOpcode>, count: int, name: Seq<char>) -> bool {
    exists|k: int| 0 <= k < count && lower_case(#[trigger] known[k].meta.name@) == name
}

/// Puts `name` into a list of names that stand in the order of texts, where
/// the list does not hold it yet.
pub fn insert_name(names: &mut Vec<String>, name: String)
    requires
        ascending(old(names)@),
    ensures
        ascending(final(names)@),
        forall|other: Seq<char>|
            among(final(names)@, other) <==> (among(old(names)@, other) || other == name@),
{
    let mut at: usize = 0;
    while at < names.len() && precedes(names[at].as_str(), name.as_str())
        invariant
            at <= names@.len(),
            *names == *old(names),
            forall|i: int| 0 <= i < at ==> text_before(#[trigger] names@[i]@, name@),
        decreases names@.len() - at,
    {
        at += 1;
    }
    let ghost before = names@;
    if at < names.len() && same_text(names[at].as_str(), name.as_str()) {
        assert forall|other: Seq<char>| among(names@, other) || other == name@ implies among(
            names@,
            other,
        ) by {
            if other == name@ {
                assert(names@[at as int]@ == other);
            }
        }
        return ;
    }
    proof {
        if at < names@.len() {
            lemma_text_order_total(names@[at as int]@, name@);
        }
        assert forall|j: int| at <= j < before.len() implies text_before(
            name@,
            #[trigger] before[j]@,
        ) by {
            if j > at {
                lemma_text_order_transitive(name@, before[at as int]@, before[j]@);
            }
        }
    }
    names.insert(at, name);
    proof {
        let after = names@;
        assert forall|i: int, j: int| 0 <= i < j < after.len() implies text_before(
            #[trigger] after[i]@,
            #[trigger] after[j]@,
        ) by {
            let from = |k: int| if k < at { k } else { k - 1 };
            if i == at {
                assert(after[j] == before[j - 1]);
            } else if j == at {
                assert(after[i] == before[i]);
            } else {
                assert(after[i] == before[from(i)]);
                assert(after[j] == before[from(j)]);
            }
        }
        assert forall|other: Seq<char>|
            among(after, other) <==> (among(before, other) || other == name@) by {
            if among(after, other) {
                let i = choose|i: int| 0 <= i < after.len() && #[trigger] after[i]@ == other;
                if i < at {
                    assert(before[i]@ == other);
                } else if i > at {
                    assert(before[i - 1]@ == other);
                }
            }
            if among(before, other) {
                let i = choose|i: int| 0 <= i < before.len() && #[trigger] before[i]@ == other;
                if i < at {
                    assert(after[i]@ == other);
                } else {
                    assert(after[i + 1]@ == other);
                }
            }
            if other == name@ {
                assert(after[at as int]@ == other);
            }
        }
    }
}

/// The names of the instructions that the references know, in lower case:
/// each once, in the order of texts.
pub fn generate_stub_opcode_implementations(known: &[NesOpcode]) -> (names: Vec<String>)
    ensures
        ascending(names@),
        forall|name: Seq<char>|
            among(names@, name) <==> known_name(known@, known@.len() as int, name),
{
    let mut names: Vec<String> = Vec::new();
    let mut i: usize = 0;
    while i < known.len()
        invariant
            i <= known@.len(),
            ascending(names@),
            forall|name: Seq<char>| among(names@, name) <==> known_name(known@, i as int, name),
        decreases known@.len() - i,
    {
        let ghost before = names@;
        let lower = to_lower_case(known[i].meta.name.as_str());
        let ghost added = lower@;
        insert_name(&mut names, lower);
        proof {
            assert forall|name: Seq<char>| among(names@, name) <==> known_name(
                known@,
                i + 1,
                name,
            ) by {
                if known_name(known@, i + 1, name) {
                    let k = choose|k: int|
                        0 <= k < i + 1 && lower_case(#[trigger] known@[k].meta.name@) == name;
                    if k < i {
                        assert(known_name(known@, i as int, name));
                    }
                }
                if among(before, name) {
                    assert(known_name(known@, i as int, name));
                    let k = choose|k: int|
                        0 <= k < i && lower_case(#[trigger] known@[k].meta.name@) == name;
                    assert(0 <= k < i + 1);
                }
                if name == added {
                    assert(lower_case(known@[i as int].meta.name@) == name);
                }
            }
        }
        i += 1;
    }
    names
}

} // verus!
