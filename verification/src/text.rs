//! Bytes written as text: reading programs given as hexadecimal numbers, and
//! writing numbers in hexadecimal and decimal.

use vstd::prelude::*;
use vstd::string::StringExecFns;
use crate::bus::high_byte;
use crate::bus::low_byte;
use crate::bus::split_high;
use crate::bus::split_low;

verus! {

/// The space that parts the numbers of a program text.
pub const SPACE: u8 = 0x20;

/// The plus sign that may stand before a number.
pub const PLUS: u8 = 0x2b;

/// The value of a hexadecimal digit, in either case; 16 for any other
/// character.
pub open spec fn digit_value(c: u8) -> int {
    if 0x30 <= c && c <= 0x39 {
        c - 0x30
    } else if 0x61 <= c && c <= 0x66 {
        c - 0x61 + 10
    } else if 0x41 <= c && c <= 0x46 {
        c - 0x41 + 10
    } else {
        16
    }
}

/// `value` moved up by one digit in the base `radix`: 10 stands for decimal,
/// anything else for hexadecimal.
pub open spec fn scaled(value: int, radix: u8) -> int {
    if radix == 10 {
        value * 10
    } else {
        value * 16
    }
}

/// The base that `radix` stands for.
pub open spec fn base_of(radix: u8) -> int {
    if radix == 10 {
        10
    } else {
        16
    }
}

/// Whether every character of `digits` is a digit of the base.
pub open spec fn all_digits(digits: Seq<u8>, radix: u8) -> bool {
    forall|i: int| 0 <= i < digits.len() ==> digit_value(#[trigger] digits[i]) < base_of(radix)
}

/// The number that the digits `digits` write in the base, most significant
/// digit first.
pub open spec fn number(digits: Seq<u8>, radix: u8) -> int
    decreases digits.len(),
{
    if digits.len() == 0 {
        0
    } else {
        scaled(number(digits.drop_last(), radix), radix) + digit_value(digits.last())
    }
}

/// The digits of a number written as `token`: what follows the sign, where the
/// token starts with a plus sign, and else all of it.
pub open spec fn digits_of(token: Seq<u8>) -> Seq<u8> {
    if token.len() > 0 && token[0] == PLUS {
        token.skip(1)
    } else {
        token
    }
}

/// The byte that `token` writes in the base: a number of at most 255, written
/// with at least one digit after an optional plus sign. `None` where the token
/// is no such number.
pub open spec fn parsed(token: Seq<u8>, radix: u8) -> Option<u8> {
    let digits = digits_of(token);
    if digits.len() > 0 && all_digits(digits, radix) && number(digits, radix) <= 0xff {
        Some(number(digits, radix) as u8)
    } else {
        None
    }
}

/// The byte that `token` writes in hexadecimal. A token that is no number of
/// at most 255 stands for 0.
pub open spec fn token_value(token: Seq<u8>) -> u8 {
    match parsed(token, 16) {
        Some(value) => value,
        None => 0,
    }
}

/// The number of characters of `text` before its first space, or the length
/// of `text` where it holds no space.
pub open spec fn first_token_length(text: Seq<u8>) -> int
    decreases text.len(),
{
    if text.len() == 0 || text[0] == SPACE {
        0
    } else {
        1 + first_token_length(text.skip(1))
    }
}

/// The bytes that a program text writes: the text is cut at every space, and
/// each piece stands for one byte. A text of n spaces has n + 1 pieces.
pub open spec fn operation_bytes(text: Seq<u8>) -> Seq<u8>
    decreases text.len(),
{
    let cut = first_token_length(text);
    if cut >= text.len() {
        seq![token_value(text)]
    } else {
        proof {
            lemma_first_token_length(text);
        }
        seq![token_value(text.take(cut))] + operation_bytes(text.skip(cut + 1))
    }
}

/// The first token of a text ends within the text.
pub proof fn lemma_first_token_length(text: Seq<u8>)
    ensures
        0 <= first_token_length(text) <= text.len(),
        first_token_length(text) < text.len() ==> text[first_token_length(text)] == SPACE,
        forall|i: int| 0 <= i < first_token_length(text) ==> text[i] != SPACE,
    decreases text.len(),
{
    if text.len() == 0 || text[0] == SPACE {
    } else {
        lemma_first_token_length(text.skip(1));
        let rest = first_token_length(text.skip(1));
        assert forall|i: int| 0 <= i < 1 + rest implies text[i] != SPACE by {
            if i > 0 {
                assert(text.skip(1)[i - 1] == text[i]);
            }
        }
    }
}

/// Where the first `count` characters of a text are no spaces and the next one
/// is a space or the end, the first token has `count` characters.
pub proof fn lemma_token_found(text: Seq<u8>, count: int)
    requires
        0 <= count <= text.len(),
        forall|i: int| 0 <= i < count ==> text[i] != SPACE,
        count == text.len() || text[count] == SPACE,
    ensures
        first_token_length(text) == count,
    decreases text.len(),
{
    if count > 0 {
        let rest = text.skip(1);
        assert forall|i: int| 0 <= i < count - 1 implies rest[i] != SPACE by {
            assert(rest[i] == text[i + 1]);
        }
        lemma_token_found(rest, count - 1);
    }
}

/// Numbers grow with their digits: a number is at least the number that its
/// leading digits write.
pub proof fn lemma_number_grows(digits: Seq<u8>, radix: u8, count: int)
    requires
        0 <= count <= digits.len(),
    ensures
        0 <= number(digits.take(count), radix) <= number(digits, radix),
    decreases digits.len() - count,
{
    lemma_number_nonnegative(digits.take(count), radix);
    if count == digits.len() {
        assert(digits.take(count) =~= digits);
    } else {
        lemma_number_grows(digits, radix, count + 1);
        assert(digits.take(count + 1).drop_last() =~= digits.take(count));
    }
}

/// The number that digits write is not negative.
pub proof fn lemma_number_nonnegative(digits: Seq<u8>, radix: u8)
    ensures
        0 <= number(digits, radix),
    decreases digits.len(),
{
    if digits.len() > 0 {
        lemma_number_nonnegative(digits.drop_last(), radix);
    }
}

/// The value of a hexadecimal digit, or 16 for another character.
pub fn digit(c: u8) -> (value: u8)
    ensures
        value == digit_value(c),
{
    if 0x30 <= c && c <= 0x39 {
        c - 0x30
    } else if 0x61 <= c && c <= 0x66 {
        c - 0x61 + 10
    } else if 0x41 <= c && c <= 0x46 {
        c - 0x41 + 10
    } else {
        16
    }
}

/// The byte that the characters of `text` from `from` up to `to` write in the
/// base that `radix` stands for: decimal for 10, hexadecimal otherwise.
pub fn parse_number(text: &[u8], from: usize, to: usize, radix: u8) -> (value: Option<u8>)
    requires
        from <= to <= text@.len(),
    ensures
        value == parsed(text@.subrange(from as int, to as int), radix),
{
    let ghost token = text@.subrange(from as int, to as int);
    let start = if from < to && text[from] == PLUS {
        from + 1
    } else {
        from
    };
    let ghost digits = digits_of(token);
    assert(digits =~= text@.subrange(start as int, to as int));
    if start == to {
        return None;
    }
    let base: u8 = if radix == 10 {
        10
    } else {
        16
    };
    let mut total: u16 = 0;
    let mut i: usize = start;
    assert(digits.take(0) =~= Seq::<u8>::empty());
    while i < to
        invariant
            from <= start <= i <= to <= text@.len(),
            base == base_of(radix),
            digits == text@.subrange(start as int, to as int),
            digits == digits_of(text@.subrange(from as int, to as int)),
            total == number(digits.take(i - start), radix),
            total <= 0xff,
            forall|j: int| 0 <= j < i - start ==> digit_value(#[trigger] digits[j]) < base,
        decreases to - i,
    {
        let value = digit(text[i]);
        assert(digits[i - start] == text@[i as int]);
        proof {
            assert(digits.take(i - start + 1).drop_last() =~= digits.take(i - start));
            lemma_number_grows(digits, radix, i - start + 1);
        }
        if value >= base {
            assert(!all_digits(digits, radix)) by {
                assert(digit_value(digits[i - start]) >= base);
            }
            return None;
        }
        assert(digits.take(i - start + 1).last() == digits[i - start]);
        total = if radix == 10 {
            total * 10 + value as u16
        } else {
            total * 16 + value as u16
        };
        assert(total == number(digits.take(i - start + 1), radix));
        if total > 0xff {
            return None;
        }
        i += 1;
    }
    assert(digits.take(to - start) =~= digits);
    Some(total as u8)
}

/// The byte that the characters of `text` from `from` up to `to` write in
/// hexadecimal; 0 where they write none.
pub fn parse_token(text: &[u8], from: usize, to: usize) -> (value: u8)
    requires
        from <= to <= text@.len(),
    ensures
        value == token_value(text@.subrange(from as int, to as int)),
{
    match parse_number(text, from, to, 16) {
        Some(value) => value,
        None => 0,
    }
}

/// The position of the first space of `text` at or after `from`, or the length
/// of `text` where no space follows.
pub fn find_space(text: &[u8], from: usize) -> (at: usize)
    requires
        from <= text@.len(),
    ensures
        from <= at <= text@.len(),
        at - from == first_token_length(text@.skip(from as int)),
{
    let mut at: usize = from;
    while at < text.len() && text[at] != SPACE
        invariant
            from <= at <= text@.len(),
            forall|i: int| from <= i < at ==> text@[i] != SPACE,
        decreases text@.len() - at,
    {
        at += 1;
    }
    proof {
        lemma_token_found(text@.skip(from as int), at - from);
    }
    at
}

/// The bytes that a program text writes.
pub fn parse_operation(text: &[u8]) -> (bytes: Vec<u8>)
    ensures
        bytes@ == operation_bytes(text@),
{
    let mut bytes: Vec<u8> = Vec::new();
    let mut from: usize = 0;
    assert(text@.skip(0) =~= text@);
    loop
        invariant
            from <= text@.len(),
            operation_bytes(text@) == bytes@ + operation_bytes(text@.skip(from as int)),
        decreases text@.len() - from,
    {
        let ghost rest = text@.skip(from as int);
        let ghost taken = bytes@;
        let at = find_space(text, from);
        let value = parse_token(text, from, at);
        bytes.push(value);
        assert(rest.take(at - from) =~= text@.subrange(from as int, at as int));
        if at >= text.len() {
            assert(rest.take(at - from) =~= rest);
            assert(taken + seq![value] =~= bytes@);
            return bytes;
        }
        proof {
            assert(rest.skip(at - from + 1) =~= text@.skip(at + 1));
            assert(taken + (seq![value] + operation_bytes(text@.skip(at + 1))) =~= bytes@
                + operation_bytes(text@.skip(at + 1)));
        }
        from = at + 1;
    }
}

/// The character that writes a digit from 0 to 15 in hexadecimal, in upper
/// case.
pub open spec fn hex_char(digit: int) -> char {
    if digit < 10 {
        (0x30 + digit) as char
    } else {
        (0x41 + digit - 10) as char
    }
}

/// The character that writes a digit from 0 to 15 in hexadecimal, in lower
/// case.
pub open spec fn hex_char_lower(digit: int) -> char {
    if digit < 10 {
        (0x30 + digit) as char
    } else {
        (0x61 + digit - 10) as char
    }
}

/// A byte in two hexadecimal digits, in upper case.
pub open spec fn hex2(value: u8) -> Seq<char> {
    seq![hex_char(value as int / 16), hex_char(value as int % 16)]
}

/// A word in four hexadecimal digits, in upper case.
pub open spec fn hex4(value: u16) -> Seq<char> {
    hex2(high_byte(value)) + hex2(low_byte(value))
}

/// A byte in hexadecimal, in lower case and without a leading zero.
pub open spec fn hex_short(value: u8) -> Seq<char> {
    if value < 16 {
        seq![hex_char_lower(value as int)]
    } else {
        seq![hex_char_lower(value as int / 16), hex_char_lower(value as int % 16)]
    }
}

/// A number in decimal.
pub open spec fn decimal(value: nat) -> Seq<char>
    decreases value,
{
    if value < 10 {
        seq![hex_char(value as int)]
    } else {
        decimal(value / 10) + seq![hex_char(value as int % 10)]
    }
}

/// `count` spaces.
pub open spec fn spaces(count: nat) -> Seq<char> {
    Seq::new(count, |i: int| ' ')
}

/// A number of at most three digits in decimal, with spaces before it so that
/// it takes three columns.
pub open spec fn decimal3(value: nat) -> Seq<char> {
    spaces((3 - decimal(value).len()) as nat) + decimal(value)
}

/// The text of a digit from 0 to 15 in hexadecimal, in upper case.
pub fn hex_digit(digit: u8) -> (text: &'static str)
    requires
        digit < 16,
    ensures
        text@ == seq![hex_char(digit as int)],
{
    proof {
        reveal_strlit("0");
        reveal_strlit("1");
        reveal_strlit("2");
        reveal_strlit("3");
        reveal_strlit("4");
        reveal_strlit("5");
        reveal_strlit("6");
        reveal_strlit("7");
        reveal_strlit("8");
        reveal_strlit("9");
        reveal_strlit("A");
        reveal_strlit("B");
        reveal_strlit("C");
        reveal_strlit("D");
        reveal_strlit("E");
        reveal_strlit("F");
    }
    let text = if digit == 0 {
        "0"
    } else if digit == 1 {
        "1"
    } else if digit == 2 {
        "2"
    } else if digit == 3 {
        "3"
    } else if digit == 4 {
        "4"
    } else if digit == 5 {
        "5"
    } else if digit == 6 {
        "6"
    } else if digit == 7 {
        "7"
    } else if digit == 8 {
        "8"
    } else if digit == 9 {
        "9"
    } else if digit == 10 {
        "A"
    } else if digit == 11 {
        "B"
    } else if digit == 12 {
        "C"
    } else if digit == 13 {
        "D"
    } else if digit == 14 {
        "E"
    } else {
        "F"
    };
    assert(text@ =~= seq![hex_char(digit as int)]);
    text
}

/// The text of a digit from 0 to 15 in hexadecimal, in lower case.
pub fn hex_digit_lower(digit: u8) -> (text: &'static str)
    requires
        digit < 16,
    ensures
        text@ == seq![hex_char_lower(digit as int)],
{
    proof {
        reveal_strlit("a");
        reveal_strlit("b");
        reveal_strlit("c");
        reveal_strlit("d");
        reveal_strlit("e");
        reveal_strlit("f");
    }
    let text = if digit < 10 {
        hex_digit(digit)
    } else if digit == 10 {
        "a"
    } else if digit == 11 {
        "b"
    } else if digit == 12 {
        "c"
    } else if digit == 13 {
        "d"
    } else if digit == 14 {
        "e"
    } else {
        "f"
    };
    assert(text@ =~= seq![hex_char_lower(digit as int)]);
    text
}

/// Writes a byte in two hexadecimal digits at the end of `line`.
pub fn push_hex2(line: &mut String, value: u8)
    ensures
        final(line)@ == old(line)@ + hex2(value),
{
    line.append(hex_digit(value / 16));
    line.append(hex_digit(value % 16));
    assert(line@ =~= old(line)@ + hex2(value));
}

/// Writes a word in four hexadecimal digits at the end of `line`.
pub fn push_hex4(line: &mut String, value: u16)
    ensures
        final(line)@ == old(line)@ + hex4(value),
{
    push_hex2(line, split_high(value));
    push_hex2(line, split_low(value));
    assert(line@ =~= old(line)@ + hex4(value));
}

/// Writes a byte in hexadecimal, in lower case and without a leading zero, at
/// the end of `line`.
pub fn push_hex_short(line: &mut String, value: u8)
    ensures
        final(line)@ == old(line)@ + hex_short(value),
{
    if value >= 16 {
        line.append(hex_digit_lower(value / 16));
    }
    line.append(hex_digit_lower(value % 16));
    assert(line@ =~= old(line)@ + hex_short(value));
}

/// Writes a number in decimal at the end of `line`.
pub fn push_decimal(line: &mut String, value: u64)
    ensures
        final(line)@ == old(line)@ + decimal(value as nat),
    decreases value,
{
    if value >= 10 {
        push_decimal(line, value / 10);
    }
    line.append(hex_digit((value % 10) as u8));
    assert(line@ =~= old(line)@ + decimal(value as nat));
}

/// Writes `count` spaces at the end of `line`.
pub fn push_spaces(line: &mut String, count: usize)
    ensures
        final(line)@ == old(line)@ + spaces(count as nat),
{
    let mut written: usize = 0;
    assert(line@ =~= old(line)@ + spaces(0));
    while written < count
        invariant
            written <= count,
            line@ == old(line)@ + spaces(written as nat),
        decreases count - written,
    {
        proof {
            reveal_strlit(" ");
        }
        line.append(" ");
        written += 1;
        assert(line@ =~= old(line)@ + spaces(written as nat));
    }
}

/// A number below 1000 has at most three decimal digits.
pub proof fn lemma_decimal_width(value: nat)
    requires
        value < 1000,
    ensures
        1 <= decimal(value).len() <= 3,
        value < 10 ==> decimal(value).len() == 1,
        10 <= value < 100 ==> decimal(value).len() == 2,
        100 <= value ==> decimal(value).len() == 3,
{
    reveal_with_fuel(decimal, 3);
}

/// Writes a number below 1000 in decimal at the end of `line`, in three
/// columns.
pub fn push_decimal3(line: &mut String, value: u16)
    requires
        value < 1000,
    ensures
        final(line)@ == old(line)@ + decimal3(value as nat),
{
    proof {
        lemma_decimal_width(value as nat);
    }
    let pad: usize = if value < 10 {
        2
    } else if value < 100 {
        1
    } else {
        0
    };
    push_spaces(line, pad);
    push_decimal(line, value as u64);
    assert(line@ =~= old(line)@ + (spaces(pad as nat) + decimal(value as nat)));
}

} // verus!
