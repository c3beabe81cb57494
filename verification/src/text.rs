//! Text as sequences of characters: collecting, comparing, measuring and
//! encoding it.

use vstd::prelude::*;
use vstd::utf8::{encode_scalar, encode_utf8};

verus! {

broadcast use vstd::string::group_string_axioms;

/// `String::push` appends one character at the end of the string.
pub assume_specification[ String::push ](string: &mut String, character: char)
    ensures
        final(string)@ == old(string)@.push(character),
;

/// `char::from_u32` gives the character with the given scalar value, and
/// `None` for surrogates and for values above the Unicode range.
pub assume_specification[ char::from_u32 ](value: u32) -> (character: Option<char>)
    ensures
        character is Some <==> (value < 0xd800 || 0xe000 <= value <= 0x10ffff),
        character matches Some(c) ==> c as u32 == value,
;

/// `Arc::clone` gives a second pointer to the same value.
#[verifier::external_body]
pub(crate) fn share<T>(shared: &std::sync::Arc<T>) -> (copy: std::sync::Arc<T>)
    ensures
        copy == *shared,
{
    std::sync::Arc::clone(shared)
}

/// Collects the characters of `text`.
pub fn characters(text: &str) -> (chars: Vec<char>)
    ensures
        chars@ == text@,
{
    let mut chars: Vec<char> = Vec::new();
    for c in it: text.chars()
        invariant
            it.seq() == text@,
            chars@ == text@.take(it.index() as int),
    {
        chars.push(c);
    }
    chars
}

/// Tells whether two texts hold the same characters.
pub fn same_text(left: &str, right: &str) -> (same: bool)
    ensures
        same == (left@ == right@),
{
    left.to_owned() == right.to_owned()
}

/// Appends `right` to `left`.
pub fn joined(left: &str, right: &str) -> (text: String)
    ensures
        text@ == left@ + right@,
{
    let mut text = left.to_owned();
    text.append(right);
    text
}

/// The number of bytes that `chars` takes in UTF-8.
pub open spec fn utf8_len(chars: Seq<char>) -> nat {
    encode_utf8(chars).len()
}

/// The number of bytes that one character takes in UTF-8.
pub open spec fn utf8_width(c: char) -> nat {
    if c as u32 <= 0x7f {
        1
    } else if c as u32 <= 0x7ff {
        2
    } else if c as u32 <= 0xffff {
        3
    } else {
        4
    }
}

/// Returns the number of bytes that `text` takes in UTF-8.
pub fn byte_len(text: &str) -> (len: usize)
    ensures
        len == utf8_len(text@),
{
    text.as_bytes().len()
}

/// Returns the number of bytes that `c` takes in UTF-8.
pub fn char_width(c: char) -> (width: usize)
    ensures
        width == utf8_width(c),
{
    let value: u32 = c as u32;
    if value <= 0x7f {
        1
    } else if value <= 0x7ff {
        2
    } else if value <= 0xffff {
        3
    } else {
        4
    }
}

/// The UTF-8 length of a text is that of its first character and of the rest.
pub proof fn utf8_len_of_first(chars: Seq<char>)
    requires
        chars.len() > 0,
    ensures
        utf8_len(chars) == utf8_width(chars[0]) + utf8_len(chars.drop_first()),
{
    vstd::utf8::char_is_scalar(chars[0]);
    assert(encode_scalar(chars[0] as u32).len() == utf8_width(chars[0]));
}

/// The UTF-8 length of two texts in a row is the sum of their lengths.
pub proof fn utf8_len_of_concat(left: Seq<char>, right: Seq<char>)
    ensures
        utf8_len(left + right) == utf8_len(left) + utf8_len(right),
    decreases left.len(),
{
    if left.len() == 0 {
        assert(left + right =~= right);
    } else {
        utf8_len_of_first(left);
        utf8_len_of_first(left + right);
        assert((left + right).drop_first() =~= left.drop_first() + right);
        utf8_len_of_concat(left.drop_first(), right);
    }
}

/// One more character adds its own width.
pub proof fn utf8_len_of_push(chars: Seq<char>, c: char)
    ensures
        utf8_len(chars.push(c)) == utf8_len(chars) + utf8_width(c),
{
    assert(chars.push(c) =~= chars + seq![c]);
    utf8_len_of_concat(chars, seq![c]);
    utf8_len_of_first(seq![c]);
    assert(seq![c].drop_first() =~= Seq::<char>::empty());
    assert(utf8_len(Seq::<char>::empty()) == 0);
}

/// A text takes at least one byte for each character, and at most four.
pub proof fn utf8_len_bounds(chars: Seq<char>)
    ensures
        chars.len() <= utf8_len(chars) <= 4 * chars.len(),
    decreases chars.len(),
{
    if chars.len() > 0 {
        utf8_len_of_first(chars);
        utf8_len_bounds(chars.drop_first());
    }
}

/// The decimal digits of `value`, without leading zeros.
pub open spec fn decimal_digits(value: nat) -> Seq<char>
    decreases value,
{
    if value < 10 {
        seq![digit_char(value)]
    } else {
        decimal_digits(value / 10).push(digit_char(value % 10))
    }
}

/// The character of one decimal digit.
pub open spec fn digit_char(digit: nat) -> char {
    ('0' as u32 + digit) as char
}

/// The decimal notation of `value`, with a minus sign where it is negative.
pub open spec fn decimal_notation(value: int) -> Seq<char> {
    if value < 0 {
        seq!['-'] + decimal_digits((-value) as nat)
    } else {
        decimal_digits(value as nat)
    }
}

fn digit(value: u64) -> (c: char)
    requires
        value < 10,
    ensures
        c == digit_char(value as nat),
{
    ('0' as u8 + value as u8) as char
}

fn push_decimal(text: &mut String, value: u64)
    ensures
        final(text)@ == old(text)@ + decimal_digits(value as nat),
    decreases value,
{
    if value < 10 {
        text.push(digit(value));
        assert(text@ =~= old(text)@ + decimal_digits(value as nat));
    } else {
        push_decimal(text, value / 10);
        text.push(digit(value % 10));
        assert(text@ =~= old(text)@ + decimal_digits(value as nat));
    }
}

/// Writes `value` in decimal.
pub fn decimal(value: u64) -> (text: String)
    ensures
        text@ == decimal_notation(value as int),
{
    let mut text = String::new();
    push_decimal(&mut text, value);
    assert(text@ =~= decimal_digits(value as nat));
    text
}

/// Writes `value` in decimal, with a minus sign where it is negative.
pub fn decimal_signed(value: i64) -> (text: String)
    ensures
        text@ == decimal_notation(value as int),
{
    let mut text = String::new();
    if value < 0 {
        text.push('-');
        if value == i64::MIN {
            push_decimal(&mut text, 0x8000_0000_0000_0000);
        } else {
            push_decimal(&mut text, (-value) as u64);
        }
        assert(text@ =~= decimal_notation(value as int));
    } else {
        push_decimal(&mut text, value as u64);
        assert(text@ =~= decimal_notation(value as int));
    }
    text
}

/// The UTF-16 code units of one character.
pub open spec fn utf16_of(c: char) -> Seq<u16> {
    let value = c as u32;
    if value < 0x10000 {
        seq![value as u16]
    } else {
        seq![
            (0xd800 + (value - 0x10000) / 0x400) as u16,
            (0xdc00 + (value - 0x10000) % 0x400) as u16,
        ]
    }
}

/// The UTF-16 code units of `chars`.
pub open spec fn encode_utf16(chars: Seq<char>) -> Seq<u16>
    decreases chars.len(),
{
    if chars.len() == 0 {
        Seq::empty()
    } else {
        encode_utf16(chars.drop_last()) + utf16_of(chars.last())
    }
}

/// Encodes `text` in UTF-16, without a terminating zero.
pub fn utf16_units(text: &str) -> (units: Vec<u16>)
    ensures
        units@ == encode_utf16(text@),
{
    let mut units: Vec<u16> = Vec::new();
    for c in it: text.chars()
        invariant
            it.seq() == text@,
            units@ == encode_utf16(text@.take(it.index() as int)),
    {
        let value: u32 = c as u32;
        if value < 0x10000 {
            units.push(value as u16);
        } else {
            let offset: u32 = value - 0x10000;
            units.push((0xd800 + offset / 0x400) as u16);
            units.push((0xdc00 + offset % 0x400) as u16);
        }
        proof {
            let i = it.index() as int;
            assert(text@.take(i + 1).drop_last() =~= text@.take(i));
            assert(units@ =~= encode_utf16(text@.take(i)) + utf16_of(c));
        }
    }
    assert(text@.take(text@.len() as int) =~= text@);
    units
}

/// Two texts in a row encode to their code units in a row.
pub proof fn encode_utf16_of_concat(left: Seq<char>, right: Seq<char>)
    ensures
        encode_utf16(left + right) == encode_utf16(left) + encode_utf16(right),
    decreases right.len(),
{
    if right.len() == 0 {
        assert(left + right =~= left);
        assert(encode_utf16(left) + encode_utf16(right) =~= encode_utf16(left));
    } else {
        assert((left + right).drop_last() =~= left + right.drop_last());
        encode_utf16_of_concat(left, right.drop_last());
        assert(encode_utf16(left + right) =~= encode_utf16(left) + encode_utf16(right));
    }
}

/// The upper-case hexadecimal digit of a value below sixteen.
pub open spec fn hex_digit(value: int) -> char {
    if value < 10 {
        ('0' as u32 + value) as char
    } else {
        ('A' as u32 + value - 10) as char
    }
}

/// The lowest `digits` hexadecimal digits of `value`.
pub open spec fn hex_notation(value: int, digits: nat) -> Seq<char>
    decreases digits,
{
    if digits == 0 {
        Seq::empty()
    } else {
        hex_notation(value / 16, (digits - 1) as nat).push(hex_digit(value % 16))
    }
}

fn hex_char(value: u32) -> (c: char)
    requires
        value < 16,
    ensures
        c == hex_digit(value as int),
{
    if value < 10 {
        ('0' as u8 + value as u8) as char
    } else {
        ('A' as u8 + (value - 10) as u8) as char
    }
}

fn push_hex(text: &mut String, value: u32, digits: u32)
    ensures
        final(text)@ == old(text)@ + hex_notation(value as int, digits as nat),
    decreases digits,
{
    if digits > 0 {
        push_hex(text, value / 16, digits - 1);
        text.push(hex_char(value % 16));
    }
    assert(text@ =~= old(text)@ + hex_notation(value as int, digits as nat));
}

/// Writes `value` in eight hexadecimal digits.
pub fn hex_word(value: u32) -> (text: String)
    ensures
        text@ == hex_notation(value as int, 8),
{
    let mut text = String::new();
    push_hex(&mut text, value, 8);
    assert(text@ =~= hex_notation(value as int, 8));
    text
}

/// The name of a truth value.
pub open spec fn bool_name(value: bool) -> Seq<char> {
    if value {
        "true"@
    } else {
        "false"@
    }
}

/// Returns the name of a truth value.
pub fn bool_text(value: bool) -> (text: &'static str)
    ensures
        text@ == bool_name(value),
{
    if value {
        "true"
    } else {
        "false"
    }
}

/// The value of decimal digits.
pub open spec fn decimal_value(digits: Seq<char>) -> nat
    decreases digits.len(),
{
    if digits.len() == 0 {
        0
    } else {
        decimal_value(digits.drop_last()) * 10 + (digits.last() as u32 - 0x30) as nat
    }
}

/// A number is written with its decimal digits and reads back as itself: no digit is
/// left out or moved, there is no leading zero, and only a negative number has a
/// sign.
pub proof fn a_number_reads_back(value: nat)
    ensures
        decimal_value(decimal_digits(value)) == value,
        decimal_digits(value).len() > 0,
        forall|i: int|
            0 <= i < decimal_digits(value).len() ==> '0' <= #[trigger] decimal_digits(value)[i]
                <= '9',
        value > 0 ==> decimal_digits(value)[0] != '0',
        decimal_notation(value as int) == decimal_digits(value),
        value > 0 ==> decimal_notation(-value) == seq!['-'] + decimal_digits(value),
    decreases value,
{
    reveal_with_fuel(decimal_value, 2);
    let digits = decimal_digits(value);
    if value < 10 {
        assert(digits.drop_last() =~= Seq::empty());
        assert(digits.last() as u32 == 0x30 + value);
    } else {
        a_number_reads_back(value / 10);
        assert(digits.drop_last() =~= decimal_digits(value / 10));
        assert(digits.last() as u32 == 0x30 + value % 10);
        assert(digits[0] == decimal_digits(value / 10)[0]);
        assert forall|i: int| 0 <= i < digits.len() implies '0' <= #[trigger] digits[i] <= '9' by {
            if i < digits.len() - 1 {
                assert(digits[i] == decimal_digits(value / 10)[i]);
            }
        }
    }
}

/// Hexadecimal digits are written from the highest to the lowest, in upper case: the
/// last one is what is left of a division by sixteen, and the others those of the
/// quotient.
pub proof fn hexadecimal_goes_by_sixteens(value: int, digits: nat)
    requires
        0 <= value,
        digits > 0,
    ensures
        hex_notation(value, digits).len() == digits,
        hex_notation(value, digits).drop_last() == hex_notation(value / 16, (digits - 1) as nat),
        ({
            let digit = value % 16;
            let c = hex_notation(value, digits).last();
            if digit < 10 {
                c as u32 == 0x30 + digit
            } else {
                c as u32 == 0x41 + digit - 10
            }
        }),
    decreases digits,
{
    if digits > 1 {
        hexadecimal_goes_by_sixteens(value / 16, (digits - 1) as nat);
    }
    assert(hex_notation(value, digits).drop_last() =~= hex_notation(
        value / 16,
        (digits - 1) as nat,
    ));
}

/// A character of the basic plane is one code unit, any other two: a high surrogate
/// and a low one, which hold the character between them.
pub proof fn a_character_is_one_unit_or_two(c: char)
    ensures
        (c as u32) < 0x10000 ==> utf16_of(c).len() == 1 && utf16_of(c)[0] == c as u32,
        (c as u32) >= 0x10000 ==> {
            &&& utf16_of(c).len() == 2
            &&& 0xd800 <= utf16_of(c)[0] < 0xdc00
            &&& 0xdc00 <= utf16_of(c)[1] < 0xe000
            &&& 0x10000 + (utf16_of(c)[0] - 0xd800) * 0x400 + (utf16_of(c)[1] - 0xdc00) == c as u32
        },
        encode_utf16(seq![c]) == utf16_of(c),
{
    assert(seq![c].drop_last() =~= Seq::empty());
    reveal_with_fuel(encode_utf16, 2);
    assert(encode_utf16(seq![c]) =~= utf16_of(c));
}

/// A truth value is written as the word for it.
pub proof fn truth_values_are_words(value: bool)
    ensures
        value ==> bool_name(value) == "true"@,
        !value ==> bool_name(value) == "false"@,
{
}

} // verus!
