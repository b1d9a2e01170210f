//! Reading one `%` section: flags, then width digits, then the specifier.

use crate::output::{Case, Padding};
use vstd::prelude::*;

verus! {

/// What the flags of one section ask for. A flag of one kind replaces an
/// earlier flag of that kind; nothing carries over to the next section.
#[derive(Clone, Copy, Debug, PartialEq, Eq)]
pub struct ModifierFlags {
    /// The case transform asked for, if any.
    pub case: Option<Case>,
    /// The padding style asked for, if any.
    pub padding: Option<Padding>,
}

/// One `%` section, taken apart.
#[derive(Clone, Copy, Debug, PartialEq, Eq)]
pub struct ParsedSection {
    /// What the flags ask for.
    pub flags: ModifierFlags,
    /// The width that the digits spell, if there are digits and the number
    /// fits in `usize`.
    pub width: Option<usize>,
    /// The specifier character, if a known one follows the width.
    pub specifier: Option<char>,
    /// The index of the first character behind the specifier, or behind
    /// the width where there is no specifier.
    pub rest: usize,
}

/// Whether `c` is a flag character.
pub open spec fn is_flag(c: char) -> bool {
    c == '#' || c == '-' || c == '_' || c == '^' || c == '+' || c == '0'
}

/// Whether `c` is an ASCII digit.
pub open spec fn is_digit(c: char) -> bool {
    '0' <= c <= '9'
}

/// Whether `c` is a specifier that the formatter knows.
pub open spec fn is_specifier(c: char) -> bool {
    c == '%' || c == 'a' || c == 'A' || c == 'b' || c == 'B' || c == 'C' || c == 'd' || c == 'D'
        || c == 'e' || c == 'F' || c == 'g' || c == 'G' || c == 'h' || c == 'H' || c == 'I' || c
        == 'j' || c == 'k' || c == 'l' || c == 'm' || c == 'M' || c == 'n' || c == 'N' || c == 'p'
        || c == 'P' || c == 'q' || c == 'r' || c == 'R' || c == 's' || c == 'S' || c == 't' || c
        == 'T' || c == 'u' || c == 'U' || c == 'V' || c == 'w' || c == 'W' || c == 'x' || c == 'X'
        || c == 'y' || c == 'Y' || c == 'z'
}

/// No flag seen.
pub open spec fn no_flags() -> ModifierFlags {
    ModifierFlags { case: None, padding: None }
}

/// `flags` after one more flag character. `+` is read and changes nothing.
pub open spec fn with_flag(flags: ModifierFlags, c: char) -> ModifierFlags {
    if c == '#' {
        ModifierFlags { case: Some(Case::Lower), ..flags }
    } else if c == '^' {
        ModifierFlags { case: Some(Case::Upper), ..flags }
    } else if c == '-' {
        ModifierFlags { padding: Some(Padding::Off), ..flags }
    } else if c == '_' {
        ModifierFlags { padding: Some(Padding::Space), ..flags }
    } else if c == '0' {
        ModifierFlags { padding: Some(Padding::Zero), ..flags }
    } else {
        flags
    }
}

/// What a run of flag characters asks for, read from left to right.
pub open spec fn flags_of(run: Seq<char>) -> ModifierFlags
    decreases run.len(),
{
    if run.len() == 0 {
        no_flags()
    } else {
        with_flag(flags_of(run.drop_last()), run.last())
    }
}

/// Whether `c` is one of the case flags `#` and `^`.
pub open spec fn is_case_flag(c: char) -> bool {
    c == '#' || c == '^'
}

/// Whether `c` is one of the padding flags `-`, `_` and `0`.
pub open spec fn is_padding_flag(c: char) -> bool {
    c == '-' || c == '_' || c == '0'
}

/// A flag replaces what an earlier flag of its kind asked for, a flag given
/// twice counts once, and flags of different kinds do not disturb each
/// other, in whichever order they come. `+` changes nothing.
pub proof fn lemma_flag_algebra(flags: ModifierFlags, a: char, b: char)
    ensures
        with_flag(with_flag(flags, a), a) == with_flag(flags, a),
        is_case_flag(a) && is_case_flag(b) ==> with_flag(with_flag(flags, a), b) == with_flag(
            flags,
            b,
        ),
        is_padding_flag(a) && is_padding_flag(b) ==> with_flag(with_flag(flags, a), b)
            == with_flag(flags, b),
        is_case_flag(a) && is_padding_flag(b) ==> with_flag(with_flag(flags, a), b) == with_flag(
            with_flag(flags, b),
            a,
        ),
        with_flag(flags, '+') == flags,
{
}

/// The number that a run of digits spells.
pub open spec fn digits_value(run: Seq<char>) -> nat
    decreases run.len(),
{
    if run.len() == 0 {
        0
    } else {
        digits_value(run.drop_last()) * 10 + (run.last() as int - 48) as nat
    }
}

/// The width that a run of digits gives: none for an empty run, and none for
/// a number that does not fit in `usize`.
pub open spec fn width_of(run: Seq<char>) -> Option<usize> {
    if run.len() == 0 || digits_value(run) > usize::MAX {
        None
    } else {
        Some(digits_value(run) as usize)
    }
}

/// The index where the flags that start at `from` end.
pub open spec fn flags_end(section: Seq<char>, from: int) -> int
    decreases section.len() - from,
{
    if 0 <= from < section.len() && is_flag(section[from]) {
        flags_end(section, from + 1)
    } else {
        from
    }
}

/// The index where the digits that start at `from` end.
pub open spec fn digits_end(section: Seq<char>, from: int) -> int
    decreases section.len() - from,
{
    if 0 <= from < section.len() && is_digit(section[from]) {
        digits_end(section, from + 1)
    } else {
        from
    }
}

/// The index behind the width of `section`, which is where its specifier
/// stands if it has one. The flags start behind the leading `%`.
pub open spec fn specifier_index(section: Seq<char>) -> int {
    digits_end(section, flags_end(section, 1))
}

/// What the flags of a section that starts with `%` ask for.
pub open spec fn section_flags(section: Seq<char>) -> ModifierFlags {
    flags_of(section.subrange(1, flags_end(section, 1)))
}

/// The width that a section that starts with `%` spells, if any.
pub open spec fn section_width(section: Seq<char>) -> Option<usize> {
    width_of(section.subrange(flags_end(section, 1), specifier_index(section)))
}

/// The specifier of a section that starts with `%`: the character behind
/// the width, if there is one and it is a known specifier.
pub open spec fn section_specifier(section: Seq<char>) -> Option<char> {
    let at = specifier_index(section);
    if at < section.len() && is_specifier(section[at]) {
        Some(section[at])
    } else {
        None
    }
}

/// What follows the specifier of a section that has one.
pub open spec fn section_rest(section: Seq<char>) -> Seq<char> {
    section.subrange(specifier_index(section) + 1, section.len() as int)
}

/// A run of flags ends inside the section, at the first character that is
/// no flag.
pub proof fn lemma_flags_end(section: Seq<char>, from: int)
    requires
        0 <= from <= section.len(),
    ensures
        from <= flags_end(section, from) <= section.len(),
        forall|i: int| from <= i < flags_end(section, from) ==> is_flag(#[trigger] section[i]),
        flags_end(section, from) < section.len() ==> !is_flag(section[flags_end(section, from)]),
    decreases section.len() - from,
{
    if from < section.len() && is_flag(section[from]) {
        lemma_flags_end(section, from + 1);
    }
}

/// A run of digits ends inside the section, at the first character that is
/// no digit.
pub proof fn lemma_digits_end(section: Seq<char>, from: int)
    requires
        0 <= from <= section.len(),
    ensures
        from <= digits_end(section, from) <= section.len(),
        forall|i: int| from <= i < digits_end(section, from) ==> is_digit(#[trigger] section[i]),
        digits_end(section, from) < section.len() ==> !is_digit(
            section[digits_end(section, from)],
        ),
    decreases section.len() - from,
{
    if from < section.len() && is_digit(section[from]) {
        lemma_digits_end(section, from + 1);
    }
}

/// A run that holds flags from `from` up to `upto`, and none at `upto`, is
/// the run that `flags_end` finds.
proof fn lemma_flags_end_is(section: Seq<char>, from: int, upto: int)
    requires
        0 <= from <= upto <= section.len(),
        forall|i: int| from <= i < upto ==> is_flag(#[trigger] section[i]),
        upto < section.len() ==> !is_flag(section[upto]),
    ensures
        flags_end(section, from) == upto,
    decreases upto - from,
{
    if from < upto {
        lemma_flags_end_is(section, from + 1, upto);
    }
}

/// A run that holds digits from `from` up to `upto`, and none at `upto`, is
/// the run that `digits_end` finds.
proof fn lemma_digits_end_is(section: Seq<char>, from: int, upto: int)
    requires
        0 <= from <= upto <= section.len(),
        forall|i: int| from <= i < upto ==> is_digit(#[trigger] section[i]),
        upto < section.len() ==> !is_digit(section[upto]),
    ensures
        digits_end(section, from) == upto,
    decreases upto - from,
{
    if from < upto {
        lemma_digits_end_is(section, from + 1, upto);
    }
}

/// Whether `c` is a flag character.
pub fn char_is_flag(c: char) -> (yes: bool)
    ensures
        yes == is_flag(c),
{
    c == '#' || c == '-' || c == '_' || c == '^' || c == '+' || c == '0'
}

/// Whether `c` is an ASCII digit.
pub fn char_is_digit(c: char) -> (yes: bool)
    ensures
        yes == is_digit(c),
{
    '0' <= c && c <= '9'
}

/// Whether `c` is a specifier that the formatter knows.
pub fn char_is_specifier(c: char) -> (yes: bool)
    ensures
        yes == is_specifier(c),
{
    match c {
        '%' | 'a' | 'A' | 'b' | 'B' | 'C' | 'd' | 'D' | 'e' | 'F' | 'g' | 'G' | 'h' | 'H' | 'I'
        | 'j' | 'k' | 'l' | 'm' | 'M' | 'n' | 'N' | 'p' | 'P' | 'q' | 'r' | 'R' | 's' | 'S' | 't'
        | 'T' | 'u' | 'U' | 'V' | 'w' | 'W' | 'x' | 'X' | 'y' | 'Y' | 'z' => true,
        _ => false,
    }
}

/// Takes one more flag character into `flags`.
pub fn add_flag(flags: ModifierFlags, c: char) -> (updated: ModifierFlags)
    ensures
        updated == with_flag(flags, c),
{
    match c {
        '#' => ModifierFlags { case: Some(Case::Lower), padding: flags.padding },
        '^' => ModifierFlags { case: Some(Case::Upper), padding: flags.padding },
        '-' => ModifierFlags { case: flags.case, padding: Some(Padding::Off) },
        '_' => ModifierFlags { case: flags.case, padding: Some(Padding::Space) },
        '0' => ModifierFlags { case: flags.case, padding: Some(Padding::Zero) },
        _ => flags,
    }
}

/// Takes a section that starts with `%` apart.
pub fn parse(section: &Vec<char>) -> (parsed: ParsedSection)
    requires
        section@.len() > 0,
        section@[0] == '%',
    ensures
        parsed.flags == section_flags(section@),
        parsed.width == section_width(section@),
        parsed.specifier == section_specifier(section@),
        parsed.rest == if parsed.specifier is Some {
            specifier_index(section@) + 1
        } else {
            specifier_index(section@)
        },
        parsed.rest <= section@.len(),
{
    let n = section.len();
    let mut i: usize = 1;
    let mut flags = ModifierFlags { case: None, padding: None };
    while i < n && char_is_flag(section[i])
        invariant
            n == section@.len(),
            1 <= i <= n,
            forall|k: int| 1 <= k < i ==> is_flag(#[trigger] section@[k]),
            flags == flags_of(section@.subrange(1, i as int)),
        decreases n - i,
    {
        proof {
            let run = section@.subrange(1, i + 1);
            assert(run.drop_last() == section@.subrange(1, i as int));
        }
        flags = add_flag(flags, section[i]);
        i += 1;
    }
    let f = i;
    proof {
        lemma_flags_end_is(section@, 1, f as int);
    }

    let mut width: Option<usize> = Some(0);
    while i < n && char_is_digit(section[i])
        invariant
            n == section@.len(),
            f <= i <= n,
            forall|k: int| f <= k < i ==> is_digit(#[trigger] section@[k]),
            width == if digits_value(section@.subrange(f as int, i as int)) <= usize::MAX {
                Some(digits_value(section@.subrange(f as int, i as int)) as usize)
            } else {
                None
            },
        decreases n - i,
    {
        proof {
            let run = section@.subrange(f as int, i + 1);
            assert(run.drop_last() == section@.subrange(f as int, i as int));
        }
        let digit: usize = (section[i] as u32 - 48) as usize;
        width =
        match width {
            Some(value) => match value.checked_mul(10) {
                Some(shifted) => shifted.checked_add(digit),
                None => None,
            },
            None => None,
        };
        i += 1;
    }
    let w = i;
    if w == f {
        width = None;
    }
    proof {
        lemma_digits_end_is(section@, f as int, w as int);
    }

    if i < n && char_is_specifier(section[i]) {
        ParsedSection { flags, width, specifier: Some(section[i]), rest: i + 1 }
    } else {
        ParsedSection { flags, width, specifier: None, rest: i }
    }
}

} // verus!
