use vstd::prelude::*;

verus! {

/// The text made of the given characters.
///
/// This stands for `String::from_iter` of the standard library, of which it
/// is taken on trust that the string holds the characters that the iterator
/// yields, in order, and nothing else.
#[verifier::external_body]
pub(crate) fn string_of_chars(chars: &Vec<char>) -> (text: String)
    ensures
        text@ == chars@,
{
    String::from_iter(chars.iter())
}

/// The digit that stands for a number below sixteen in hexadecimal
/// notation, with capital letters if `upper` holds.
pub open spec fn hex_digit(value: int, upper: bool) -> char {
    if value == 0 {
        '0'
    } else if value == 1 {
        '1'
    } else if value == 2 {
        '2'
    } else if value == 3 {
        '3'
    } else if value == 4 {
        '4'
    } else if value == 5 {
        '5'
    } else if value == 6 {
        '6'
    } else if value == 7 {
        '7'
    } else if value == 8 {
        '8'
    } else if value == 9 {
        '9'
    } else if value == 10 {
        if upper { 'A' } else { 'a' }
    } else if value == 11 {
        if upper { 'B' } else { 'b' }
    } else if value == 12 {
        if upper { 'C' } else { 'c' }
    } else if value == 13 {
        if upper { 'D' } else { 'd' }
    } else if value == 14 {
        if upper { 'E' } else { 'e' }
    } else {
        if upper { 'F' } else { 'f' }
    }
}

/// The two hexadecimal digits of a byte.
pub open spec fn hex_byte(value: u8, upper: bool) -> Seq<char> {
    seq![hex_digit(value as int / 16, upper), hex_digit(value as int % 16, upper)]
}

/// The four hexadecimal digits of a word.
pub open spec fn hex_word(value: u16, upper: bool) -> Seq<char> {
    hex_byte((value / 256) as u8, upper) + hex_byte((value % 256) as u8, upper)
}

pub(crate) fn digit_of(value: u8, upper: bool) -> (digit: char)
    requires
        value < 16,
    ensures
        digit == hex_digit(value as int, upper),
{
    match value {
        0 => '0',
        1 => '1',
        2 => '2',
        3 => '3',
        4 => '4',
        5 => '5',
        6 => '6',
        7 => '7',
        8 => '8',
        9 => '9',
        10 => if upper { 'A' } else { 'a' },
        11 => if upper { 'B' } else { 'b' },
        12 => if upper { 'C' } else { 'c' },
        13 => if upper { 'D' } else { 'd' },
        14 => if upper { 'E' } else { 'e' },
        _ => if upper { 'F' } else { 'f' },
    }
}

/// Appends the two hexadecimal digits of `value` to `chars`.
pub(crate) fn push_hex_byte(chars: &mut Vec<char>, value: u8, upper: bool)
    ensures
        final(chars)@ == old(chars)@ + hex_byte(value, upper),
{
    chars.push(digit_of(value / 16, upper));
    chars.push(digit_of(value % 16, upper));
    assert(chars@ =~= old(chars)@ + hex_byte(value, upper));
}

/// Appends the four hexadecimal digits of `value` to `chars`.
pub(crate) fn push_hex_word(chars: &mut Vec<char>, value: u16, upper: bool)
    ensures
        final(chars)@ == old(chars)@ + hex_word(value, upper),
{
    push_hex_byte(chars, (value / 256) as u8, upper);
    push_hex_byte(chars, (value % 256) as u8, upper);
    assert(chars@ =~= old(chars)@ + hex_word(value, upper));
}

/// The characters of `text`.
pub(crate) fn chars_of_text(text: &str) -> (chars: Vec<char>)
    ensures
        chars@ == text@,
{
    let mut chars: Vec<char> = Vec::new();
    push_text(&mut chars, text);
    assert(chars@ =~= text@);
    chars
}

/// Appends the characters of `text` to `chars`.
pub(crate) fn push_text(chars: &mut Vec<char>, text: &str)
    ensures
        final(chars)@ == old(chars)@ + text@,
{
    let count = text.unicode_len();
    let mut i: usize = 0;
    while i < count
        invariant
            i <= count,
            count == text@.len(),
            chars@ == old(chars)@ + text@.subrange(0, i as int),
        decreases count - i,
    {
        chars.push(text.get_char(i));
        assert(chars@ =~= old(chars)@ + text@.subrange(0, i + 1));
        i += 1;
    }
    assert(text@.subrange(0, count as int) =~= text@);
}

} // verus!
