//! The specifier table: what each specifier stands for at an instant, and
//! the width and padding it has when the template gives none.

use crate::calendar::{
    clock_hour, divide, hour_on_clock, quotient_towards_zero, remainder, remainder_towards_zero,
};
use crate::instant::{Instant, InstantView};
use crate::output::Padding;
use vstd::prelude::*;

verus! {

/// Whether `c` stands for a number.
pub open spec fn is_numeric(c: char) -> bool {
    c == 'C' || c == 'd' || c == 'e' || c == 'g' || c == 'G' || c == 'H' || c == 'k' || c == 'I'
        || c == 'l' || c == 'j' || c == 'm' || c == 'M' || c == 'N' || c == 'q' || c == 's' || c
        == 'S' || c == 'u' || c == 'U' || c == 'V' || c == 'w' || c == 'W' || c == 'y' || c == 'Y'
}

/// Whether `c` stands for the formatting of a template of its own.
pub open spec fn is_composite(c: char) -> bool {
    c == 'D' || c == 'F' || c == 'r' || c == 'R' || c == 'T' || c == 'x' || c == 'X'
}

/// Whether the case flags apply to the text that `c` stands for. They do
/// not apply to the literal percent sign, newline and tab.
pub open spec fn takes_case(c: char) -> bool {
    c != '%' && c != 'n' && c != 't'
}

/// The width of `c` where the template gives none.
pub open spec fn default_width(c: char) -> usize {
    if c == 'd' || c == 'e' || c == 'g' || c == 'H' || c == 'k' || c == 'I' || c == 'l' || c == 'j'
        || c == 'm' || c == 'M' || c == 'U' || c == 'V' || c == 'W' || c == 'y' || c == 'Y' {
        2
    } else if c == 'N' {
        9
    } else {
        0
    }
}

/// The padding of `c` where the template gives none: zeros for numbers,
/// but spaces for `e`, `k` and `l`, and none for texts.
pub open spec fn default_padding(c: char) -> Padding {
    if c == 'e' || c == 'k' || c == 'l' {
        Padding::Space
    } else if is_numeric(c) {
        Padding::Zero
    } else {
        Padding::Off
    }
}

/// The number that the numeric specifier `c` stands for at `t`; 0 for any
/// other character.
pub open spec fn number(c: char, t: InstantView) -> int {
    if c == 'C' {
        quotient_towards_zero(t.year, 100)
    } else if c == 'd' || c == 'e' {
        t.day
    } else if c == 'g' {
        remainder_towards_zero(t.iso_year, 100)
    } else if c == 'G' {
        t.iso_year
    } else if c == 'H' || c == 'k' {
        t.hour
    } else if c == 'I' || c == 'l' {
        hour_on_clock(t.hour)
    } else if c == 'j' {
        t.ordinal
    } else if c == 'm' {
        t.month
    } else if c == 'M' {
        t.minute
    } else if c == 'N' {
        t.nanosecond
    } else if c == 'q' {
        t.month / 3 + 1
    } else if c == 's' {
        t.timestamp
    } else if c == 'S' {
        t.second
    } else if c == 'u' {
        t.weekday + 1
    } else if c == 'U' {
        t.sunday_week_start / 7 + 1
    } else if c == 'V' {
        t.iso_week
    } else if c == 'w' {
        (t.weekday + 1) % 7
    } else if c == 'W' {
        t.monday_week_start / 7 + 1
    } else if c == 'y' {
        remainder_towards_zero(t.year, 100)
    } else if c == 'Y' {
        t.year
    } else {
        0
    }
}

/// The text that the text specifier `c` stands for at `t`; empty for any
/// other character.
pub open spec fn words(c: char, t: InstantView) -> Seq<char> {
    if c == '%' {
        "%"@
    } else if c == 'n' {
        "\n"@
    } else if c == 't' {
        "\t"@
    } else if c == 'a' {
        t.weekday_short
    } else if c == 'A' {
        t.weekday_long
    } else if c == 'b' || c == 'h' {
        t.month_short
    } else if c == 'B' {
        t.month_long
    } else if c == 'z' {
        t.zone_name
    } else if c == 'p' {
        if t.hour >= 12 {
            "PM"@
        } else {
            "AM"@
        }
    } else if c == 'P' {
        if t.hour >= 12 {
            "pm"@
        } else {
            "am"@
        }
    } else {
        Seq::empty()
    }
}

/// The template that the composite specifier `c` stands for; empty for any
/// other character.
pub open spec fn sub_template(c: char) -> Seq<char> {
    if c == 'D' {
        "%m/%d/%y"@
    } else if c == 'F' {
        "%+4Y-%m-%d"@
    } else if c == 'r' {
        "%l:%M:%S %p"@
    } else if c == 'R' {
        "%H:%M"@
    } else if c == 'T' {
        "%H:%M:%S"@
    } else if c == 'x' {
        "%D"@
    } else if c == 'X' {
        "%T"@
    } else {
        ""@
    }
}

/// Whether `c` stands for a number.
pub fn stands_for_number(c: char) -> (yes: bool)
    ensures
        yes == is_numeric(c),
{
    match c {
        'C' | 'd' | 'e' | 'g' | 'G' | 'H' | 'k' | 'I' | 'l' | 'j' | 'm' | 'M' | 'N' | 'q' | 's'
        | 'S' | 'u' | 'U' | 'V' | 'w' | 'W' | 'y' | 'Y' => true,
        _ => false,
    }
}

/// Whether `c` stands for the formatting of a template of its own.
pub fn stands_for_template(c: char) -> (yes: bool)
    ensures
        yes == is_composite(c),
{
    match c {
        'D' | 'F' | 'r' | 'R' | 'T' | 'x' | 'X' => true,
        _ => false,
    }
}

/// The width of `c` where the template gives none.
pub fn width_by_default(c: char) -> (width: usize)
    ensures
        width == default_width(c),
{
    match c {
        'd' | 'e' | 'g' | 'H' | 'k' | 'I' | 'l' | 'j' | 'm' | 'M' | 'U' | 'V' | 'W' | 'y' | 'Y' => 2,
        'N' => 9,
        _ => 0,
    }
}

/// The padding of `c` where the template gives none.
pub fn padding_by_default(c: char) -> (padding: Padding)
    ensures
        padding == default_padding(c),
{
    match c {
        'e' | 'k' | 'l' => Padding::Space,
        _ => if stands_for_number(c) {
            Padding::Zero
        } else {
            Padding::Off
        },
    }
}

/// The number that the numeric specifier `c` stands for at `t`. It lies in
/// the range that the calendar or the clock gives it, since `t` keeps the
/// ranges of an instant.
pub fn number_at(c: char, t: &Instant) -> (value: i64)
    ensures
        value == number(c, t@),
        t@.wf(),
{
    proof {
        use_type_invariant(t);
    }
    match c {
        'C' => divide(t.year, 100) as i64,
        'd' | 'e' => t.day as i64,
        'g' => remainder(t.iso_year, 100) as i64,
        'G' => t.iso_year as i64,
        'H' | 'k' => t.hour as i64,
        'I' | 'l' => clock_hour(t.hour) as i64,
        'j' => t.ordinal as i64,
        'm' => t.month as i64,
        'M' => t.minute as i64,
        'N' => t.nanosecond as i64,
        'q' => (t.month / 3) as i64 + 1,
        's' => t.timestamp,
        'S' => t.second as i64,
        'u' => t.weekday as i64 + 1,
        'U' => (t.sunday_week_start / 7) as i64 + 1,
        'V' => t.iso_week as i64,
        'w' => (t.weekday as i64 + 1) % 7,
        'W' => (t.monday_week_start / 7) as i64 + 1,
        'y' => remainder(t.year, 100) as i64,
        'Y' => t.year as i64,
        _ => 0,
    }
}

/// The text that the text specifier `c` stands for at `t`.
pub fn words_at(c: char, t: &Instant) -> (text: String)
    ensures
        text@ == words(c, t@),
{
    match c {
        '%' => "%".to_owned(),
        'n' => "\n".to_owned(),
        't' => "\t".to_owned(),
        'a' => t.weekday_short.clone(),
        'A' => t.weekday_long.clone(),
        'b' | 'h' => t.month_short.clone(),
        'B' => t.month_long.clone(),
        'z' => t.zone_name.clone(),
        'p' => if t.hour >= 12 {
            "PM".to_owned()
        } else {
            "AM".to_owned()
        },
        'P' => if t.hour >= 12 {
            "pm".to_owned()
        } else {
            "am".to_owned()
        },
        _ => String::new(),
    }
}

/// The template that the composite specifier `c` stands for.
pub fn template_of(c: char) -> (template: &'static str)
    ensures
        template@ == sub_template(c),
{
    match c {
        'D' => "%m/%d/%y",
        'F' => "%+4Y-%m-%d",
        'r' => "%l:%M:%S %p",
        'R' => "%H:%M",
        'T' => "%H:%M:%S",
        'x' => "%D",
        'X' => "%T",
        _ => "",
    }
}

} // verus!
