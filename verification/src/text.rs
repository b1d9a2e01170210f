//! Text primitives: decimal rendering of integers, left padding, and the case
//! transforms of the standard library.
//!
//! Every text is modelled as a `Seq<char>`, the view of `str` and `String`; a
//! width counts characters, not bytes.

use vstd::prelude::*;

verus! {

/// The text that `str::to_uppercase` makes of `text`.
pub uninterp spec fn uppercase_of(text: Seq<char>) -> Seq<char>;

/// The text that `str::to_lowercase` makes of `text`.
pub uninterp spec fn lowercase_of(text: Seq<char>) -> Seq<char>;

/// `str::to_uppercase` follows the Unicode case mappings, which are not
/// written out here: its result is only given the name [`uppercase_of`].
pub assume_specification[ str::to_uppercase ](s: &str) -> (upper: String)
    ensures
        upper@ == uppercase_of(s@),
;

/// `str::to_lowercase` follows the Unicode case mappings, which are not
/// written out here: its result is only given the name [`lowercase_of`].
pub assume_specification[ str::to_lowercase ](s: &str) -> (lower: String)
    ensures
        lower@ == lowercase_of(s@),
;

/// `String::push` appends the character to the end of the string.
pub assume_specification[ String::push ](s: &mut String, c: char)
    ensures
        final(s)@ == old(s)@.push(c),
;

/// The character of the decimal digit `d`, for `0 <= d <= 9`.
pub open spec fn digit_char(d: int) -> char {
    (48 + d) as char
}

/// The decimal digits of `n`, most significant first, without leading zeros.
pub open spec fn decimal_digits(n: nat) -> Seq<char>
    decreases n,
{
    if n < 10 {
        seq![digit_char(n as int)]
    } else {
        decimal_digits(n / 10).push(digit_char((n % 10) as int))
    }
}

/// The decimal text of `v`: a minus sign for a negative number, then the
/// digits of its magnitude.
pub open spec fn decimal_text(v: int) -> Seq<char> {
    if v < 0 {
        seq!['-'] + decimal_digits((-v) as nat)
    } else {
        decimal_digits(v as nat)
    }
}

/// `count` copies of `fill`.
pub open spec fn filler(count: nat, fill: char) -> Seq<char> {
    Seq::new(count, |i: int| fill)
}

/// `text` with as many copies of `fill` in front as it takes to reach
/// `width` characters; a text that is already that long stays as it is.
pub open spec fn pad_left(text: Seq<char>, width: nat, fill: char) -> Seq<char> {
    if text.len() >= width {
        text
    } else {
        filler((width - text.len()) as nat, fill) + text
    }
}

/// Padding never shortens: the result holds `max(width, text.len())`
/// characters and ends with `text`.
pub proof fn lemma_pad_left_shape(text: Seq<char>, width: nat, fill: char)
    ensures
        pad_left(text, width, fill).len() == if text.len() >= width {
            text.len()
        } else {
            width
        },
        pad_left(text, width, fill).subrange(
            pad_left(text, width, fill).len() - text.len(),
            pad_left(text, width, fill).len() as int,
        ) == text,
        forall|i: int|
            0 <= i < pad_left(text, width, fill).len() - text.len() ==> pad_left(
                text,
                width,
                fill,
            )[i] == fill,
{
}

/// A number from 0 to 99 padded to two characters: its two digits where
/// zeros fill, and a space before a single digit where spaces fill.
pub proof fn lemma_two_digit_text(v: int)
    requires
        0 <= v <= 99,
    ensures
        pad_left(decimal_text(v), 2, '0') == seq![digit_char(v / 10), digit_char(v % 10)],
        pad_left(decimal_text(v), 2, ' ') == if v < 10 {
            seq![' ', digit_char(v)]
        } else {
            seq![digit_char(v / 10), digit_char(v % 10)]
        },
{
    reveal_with_fuel(decimal_digits, 2);
    assert(pad_left(decimal_text(v), 2, '0') =~= seq![digit_char(v / 10), digit_char(v % 10)]);
    if v < 10 {
        assert(pad_left(decimal_text(v), 2, ' ') =~= seq![' ', digit_char(v)]);
    } else {
        assert(pad_left(decimal_text(v), 2, ' ') =~= seq![
            digit_char(v / 10),
            digit_char(v % 10),
        ]);
    }
}

/// The characters of `s`.
pub fn chars_of(s: &str) -> (chars: Vec<char>)
    ensures
        chars@ == s@,
{
    let mut chars: Vec<char> = Vec::new();
    for c in it: s.chars()
        invariant
            it.seq() == s@,
            chars@ == s@.take(it.index() as int),
    {
        chars.push(c);
    }
    chars
}

/// The character of one decimal digit.
pub fn digit_to_char(d: u8) -> (c: char)
    requires
        d < 10,
    ensures
        c == digit_char(d as int),
{
    (48u8 + d) as char
}

/// Appends the decimal digits of `n` to `out`.
pub fn push_decimal_digits(out: &mut String, n: u64)
    ensures
        final(out)@ == old(out)@ + decimal_digits(n as nat),
    decreases n,
{
    if n >= 10 {
        push_decimal_digits(out, n / 10);
    }
    out.push(digit_to_char((n % 10) as u8));
}

/// Appends the decimal text of `v` to `out`.
pub fn push_decimal(out: &mut String, v: i64)
    ensures
        final(out)@ == old(out)@ + decimal_text(v as int),
{
    if v < 0 {
        out.push('-');
        let magnitude: u64 = (-(v + 1)) as u64 + 1;
        push_decimal_digits(out, magnitude);
    } else {
        push_decimal_digits(out, v as u64);
    }
}

/// The decimal text of `v` as a string.
pub fn decimal_string(v: i64) -> (text: String)
    ensures
        text@ == decimal_text(v as int),
{
    let mut text = String::new();
    push_decimal(&mut text, v);
    text
}

/// Appends `count` copies of `fill` to `out`.
pub fn push_filler(out: &mut String, count: usize, fill: char)
    ensures
        final(out)@ == old(out)@ + filler(count as nat, fill),
{
    let mut i: usize = 0;
    while i < count
        invariant
            i <= count,
            out@ == old(out)@ + filler(i as nat, fill),
        decreases count - i,
    {
        out.push(fill);
        i += 1;
    }
}

/// Pads `text` on the left with `fill` up to `width` characters.
pub fn pad_left_string(text: &str, width: usize, fill: char) -> (padded: String)
    ensures
        padded@ == pad_left(text@, width as nat, fill),
{
    let len = text.unicode_len();
    let mut padded = String::new();
    if len < width {
        push_filler(&mut padded, width - len, fill);
    }
    padded.append(text);
    padded
}

} // verus!
