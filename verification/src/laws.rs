//! What holds of the formatter for every template and every instant.

use crate::calendar::{day_of_year, days_in_month, days_in_year, lemma_day_of_year_range};
use crate::formatter::{
    composite_text, format_text, format_text_at, resolved, section_text, sections_text, MAX_DEPTH,
};
use crate::instant::InstantView;
use crate::output::Padding;
use crate::parse::{
    flags_end, flags_of, is_flag, is_specifier, lemma_digits_end, lemma_flags_end,
    no_flags, section_flags, section_rest, section_specifier, section_width, with_flag,
};
use crate::resolve::{
    default_padding, default_width, is_composite, is_numeric, number, sub_template, takes_case,
};
use crate::split::{is_section, lemma_split_plain, split_sections};
use crate::text::{
    decimal_text, digit_char, lemma_two_digit_text, lowercase_of, pad_left, uppercase_of,
};
use vstd::prelude::*;

verus! {

/// A template that is itself a section is cut into that one section.
pub proof fn lemma_split_one_section(section: Seq<char>)
    requires
        is_section(section),
    ensures
        split_sections(section) == seq![section],
    decreases section.len(),
{
    let c = section.last();
    let init = section.drop_last();
    assert(init.push(c) == section);
    if section.len() == 1 {
        assert(split_sections(init) == Seq::<Seq<char>>::empty());
        assert(seq![c] == section);
    } else {
        assert(is_section(init)) by {
            assert forall|i: int| 0 <= i < init.len() && #[trigger] init[i] == '%' implies i == 0
                || (i == 1 && init[0] == '%') by {
                assert(section[i] == '%');
            }
        }
        lemma_split_one_section(init);
    }
}

/// The text of a template that is itself a section is the text of that
/// section.
pub proof fn lemma_format_one_section(section: Seq<char>, t: InstantView, level: nat)
    requires
        is_section(section),
    ensures
        format_text_at(section, t, level) == section_text(section, t, level),
{
    lemma_split_one_section(section);
}

/// A template without `%` is formatted to itself.
pub proof fn lemma_plain_template(template: Seq<char>, t: InstantView, level: nat)
    requires
        forall|i: int| 0 <= i < template.len() ==> template[i] != '%',
    ensures
        format_text_at(template, t, level) == template,
{
    lemma_split_plain(template);
    if template.len() > 0 {
        lemma_format_one_section(template, t, level);
    }
}

/// The parts of a section that holds `%` and a specifier: no flags, no
/// width, nothing behind the specifier.
pub proof fn lemma_bare_section(c: char)
    requires
        is_specifier(c),
    ensures
        is_section(seq!['%', c]),
        section_specifier(seq!['%', c]) == Some(c),
        section_flags(seq!['%', c]) == no_flags(),
        section_width(seq!['%', c]) == None::<usize>,
        section_rest(seq!['%', c]) == Seq::<char>::empty(),
{
}

/// The parts of a section that holds `%`, one flag and a specifier other
/// than `%`: that flag, no width, nothing behind the specifier.
pub proof fn lemma_flagged_section(flag: char, c: char)
    requires
        is_flag(flag),
        is_specifier(c),
        c != '%',
    ensures
        is_section(seq!['%', flag, c]),
        section_specifier(seq!['%', flag, c]) == Some(c),
        section_flags(seq!['%', flag, c]) == with_flag(no_flags(), flag),
        section_width(seq!['%', flag, c]) == None::<usize>,
        section_rest(seq!['%', flag, c]) == Seq::<char>::empty(),
{
    let s = seq!['%', flag, c];
    assert(flags_end(s, 2) == 2);
    let run = s.subrange(1, 2);
    assert(flags_of(run.drop_last()) == no_flags());
}

/// A template of `%` and a specifier is formatted to the rendering of what
/// the specifier resolves to without flags and width.
pub proof fn lemma_format_bare(c: char, t: InstantView, level: nat)
    requires
        is_specifier(c),
    ensures
        format_text_at(seq!['%', c], t, level) == resolved(
            c,
            no_flags(),
            None,
            t,
            level,
        ).rendered(),
{
    lemma_bare_section(c);
    lemma_format_one_section(seq!['%', c], t, level);
}

/// A template of `%`, one flag and a specifier other than `%` is formatted
/// to the rendering of what the specifier resolves to under that flag.
pub proof fn lemma_format_flagged(flag: char, c: char, t: InstantView, level: nat)
    requires
        is_flag(flag),
        is_specifier(c),
        c != '%',
    ensures
        format_text_at(seq!['%', flag, c], t, level) == resolved(
            c,
            with_flag(no_flags(), flag),
            None,
            t,
            level,
        ).rendered(),
{
    lemma_flagged_section(flag, c);
    lemma_format_one_section(seq!['%', flag, c], t, level);
}

/// Whether two levels of nesting give the composite specifiers among
/// `chars` the same text.
pub open spec fn levels_agree(chars: Seq<char>, t: InstantView, a: nat, b: nat) -> bool {
    forall|i: int|
        0 <= i < chars.len() && is_composite(#[trigger] chars[i]) ==> composite_text(
            chars[i],
            t,
            a,
        ) == composite_text(chars[i], t, b)
}

/// Every character of a section of a template is a character of the
/// template.
pub proof fn lemma_split_keeps_chars(template: Seq<char>)
    ensures
        forall|k: int, i: int|
            0 <= k < split_sections(template).len() && 0 <= i < split_sections(template)[k].len()
                ==> template.contains(#[trigger] split_sections(template)[k][i]),
    decreases template.len(),
{
    if template.len() > 0 {
        let init = template.drop_last();
        let before = split_sections(init);
        let after = split_sections(template);
        lemma_split_keeps_chars(init);
        assert forall|k: int, i: int|
            0 <= k < after.len() && 0 <= i < after[k].len() implies template.contains(
            #[trigger] after[k][i],
        ) by {
            if k < before.len() && i < before[k].len() {
                assert(init.contains(before[k][i]));
            }
        }
    }
}

/// The text of a section depends on the level only through the composite
/// specifiers among its characters.
pub proof fn lemma_section_levels(section: Seq<char>, t: InstantView, a: nat, b: nat)
    requires
        levels_agree(section, t, a, b),
    ensures
        section_text(section, t, a) == section_text(section, t, b),
{
    if section.len() > 0 && section[0] == '%' {
        if section_specifier(section) is Some {
            lemma_flags_end(section, 1);
            lemma_digits_end(section, flags_end(section, 1));
        }
    }
}

/// The texts of sections depend on the level only through the composite
/// specifiers among their characters.
pub proof fn lemma_sections_levels(sections: Seq<Seq<char>>, t: InstantView, a: nat, b: nat)
    requires
        forall|k: int| 0 <= k < sections.len() ==> levels_agree(#[trigger] sections[k], t, a, b),
    ensures
        sections_text(sections, t, a) == sections_text(sections, t, b),
    decreases sections.len(),
{
    if sections.len() > 0 {
        let init = sections.drop_last();
        assert forall|k: int| 0 <= k < init.len() implies levels_agree(
            #[trigger] init[k],
            t,
            a,
            b,
        ) by {
            assert(init[k] == sections[k]);
        }
        lemma_sections_levels(init, t, a, b);
        lemma_section_levels(sections.last(), t, a, b);
    }
}

/// The text of a template depends on the level only through the composite
/// specifiers among its characters.
pub proof fn lemma_format_levels(template: Seq<char>, t: InstantView, a: nat, b: nat)
    requires
        levels_agree(template, t, a, b),
    ensures
        format_text_at(template, t, a) == format_text_at(template, t, b),
{
    let sections = split_sections(template);
    lemma_split_keeps_chars(template);
    assert forall|k: int| 0 <= k < sections.len() implies levels_agree(
        #[trigger] sections[k],
        t,
        a,
        b,
    ) by {
        assert forall|i: int|
            0 <= i < sections[k].len() && is_composite(
                #[trigger] sections[k][i],
            ) implies composite_text(sections[k][i], t, a) == composite_text(
            sections[k][i],
            t,
            b,
        ) by {
            assert(template.contains(sections[k][i]));
        }
    }
    lemma_sections_levels(sections, t, a, b);
}

/// The templates of `D`, `F`, `r`, `R` and `T` hold no composite specifier.
pub proof fn lemma_flat_templates(c: char)
    requires
        c == 'D' || c == 'F' || c == 'r' || c == 'R' || c == 'T',
    ensures
        forall|i: int| 0 <= i < sub_template(c).len() ==> !is_composite(#[trigger] sub_template(c)[i]),
{
    reveal_strlit("%m/%d/%y");
    reveal_strlit("%+4Y-%m-%d");
    reveal_strlit("%l:%M:%S %p");
    reveal_strlit("%H:%M");
    reveal_strlit("%H:%M:%S");
}

/// The templates of `x` and `X` are `%D` and `%T`.
pub proof fn lemma_nested_templates()
    ensures
        sub_template('x') == seq!['%', 'D'],
        sub_template('X') == seq!['%', 'T'],
{
    reveal_strlit("%D");
    reveal_strlit("%T");
}

/// From one level of nesting on, the text of `D`, `F`, `r`, `R` and `T`
/// is the same at every level.
pub proof fn lemma_flat_composite(c: char, t: InstantView, a: nat, b: nat)
    requires
        c == 'D' || c == 'F' || c == 'r' || c == 'R' || c == 'T',
        a >= 1,
        b >= 1,
    ensures
        composite_text(c, t, a) == composite_text(c, t, b),
{
    lemma_flat_templates(c);
    lemma_format_levels(sub_template(c), t, (a - 1) as nat, (b - 1) as nat);
}

/// From two levels of nesting on, the text of every composite specifier is
/// the same at every level.
pub proof fn lemma_composite_levels(c: char, t: InstantView, a: nat, b: nat)
    requires
        is_composite(c),
        a >= 2,
        b >= 2,
    ensures
        composite_text(c, t, a) == composite_text(c, t, b),
{
    if c == 'x' || c == 'X' {
        lemma_nested_templates();
        lemma_flat_composite('D', t, (a - 1) as nat, (b - 1) as nat);
        lemma_flat_composite('T', t, (a - 1) as nat, (b - 1) as nat);
        lemma_format_levels(sub_template(c), t, (a - 1) as nat, (b - 1) as nat);
    } else {
        lemma_flat_composite(c, t, a, b);
    }
}

/// Two levels of nesting are enough: more levels change no text.
pub proof fn lemma_depth_suffices(template: Seq<char>, t: InstantView, level: nat)
    requires
        level >= MAX_DEPTH,
    ensures
        format_text_at(template, t, level) == format_text(template, t),
{
    assert forall|i: int|
        0 <= i < template.len() && is_composite(#[trigger] template[i]) implies composite_text(
        template[i],
        t,
        level,
    ) == composite_text(template[i], t, MAX_DEPTH as nat) by {
        lemma_composite_levels(template[i], t, level, MAX_DEPTH as nat);
    }
    lemma_format_levels(template, t, level, MAX_DEPTH as nat);
}

/// A template without `%` is formatted to itself.
pub proof fn lemma_literal_pass_through(template: Seq<char>, t: InstantView)
    requires
        forall|i: int| 0 <= i < template.len() ==> template[i] != '%',
    ensures
        format_text(template, t) == template,
{
    lemma_plain_template(template, t, MAX_DEPTH as nat);
}

/// `%%` is formatted to `%`.
pub proof fn lemma_percent_escape(t: InstantView)
    ensures
        format_text("%%"@, t) == "%"@,
{
    reveal_strlit("%%");
    reveal_strlit("%");
    assert("%%"@ =~= seq!['%', '%']);
    lemma_format_bare('%', t, MAX_DEPTH as nat);
}

/// A composite specifier is formatted as the template that it stands for.
pub proof fn lemma_composite_is_its_template(c: char, t: InstantView)
    requires
        is_composite(c),
    ensures
        format_text(seq!['%', c], t) == format_text(sub_template(c), t),
{
    lemma_format_bare(c, t, MAX_DEPTH as nat);
    if c == 'x' || c == 'X' {
        lemma_nested_templates();
        lemma_flat_composite('D', t, 1, 2);
        lemma_flat_composite('T', t, 1, 2);
    } else {
        lemma_flat_templates(c);
    }
    lemma_format_levels(sub_template(c), t, 1, 2);
}

/// `%D` is `%m/%d/%y`, `%F` is `%+4Y-%m-%d`, and `%T` is `%H:%M:%S`.
pub proof fn lemma_composite_equivalence(t: InstantView)
    ensures
        format_text("%D"@, t) == format_text("%m/%d/%y"@, t),
        format_text("%F"@, t) == format_text("%+4Y-%m-%d"@, t),
        format_text("%T"@, t) == format_text("%H:%M:%S"@, t),
{
    reveal_strlit("%D");
    reveal_strlit("%F");
    reveal_strlit("%T");
    assert("%D"@ =~= seq!['%', 'D']);
    assert("%F"@ =~= seq!['%', 'F']);
    assert("%T"@ =~= seq!['%', 'T']);
    lemma_composite_is_its_template('D', t);
    lemma_composite_is_its_template('F', t);
    lemma_composite_is_its_template('T', t);
}

/// A specifier whose width is 2 and whose padding is zeros by default is
/// written with at least two digits: filled with zeros by default and under
/// the flag `0`, filled with spaces under the flag `_`, and not filled at
/// all under the flag `-`.
pub proof fn lemma_two_digit_padding(c: char, t: InstantView)
    requires
        is_specifier(c),
        default_width(c) == 2,
        default_padding(c) == Padding::Zero,
    ensures
        format_text(seq!['%', c], t) == pad_left(decimal_text(number(c, t)), 2, '0'),
        format_text(seq!['%', '0', c], t) == pad_left(decimal_text(number(c, t)), 2, '0'),
        format_text(seq!['%', '_', c], t) == pad_left(decimal_text(number(c, t)), 2, ' '),
        format_text(seq!['%', '-', c], t) == decimal_text(number(c, t)),
{
    lemma_format_bare(c, t, MAX_DEPTH as nat);
    lemma_format_flagged('0', c, t, MAX_DEPTH as nat);
    lemma_format_flagged('_', c, t, MAX_DEPTH as nat);
    lemma_format_flagged('-', c, t, MAX_DEPTH as nat);
}

/// Whether `c` is a specifier of width 2 that is filled with zeros and
/// whose number has no more than two digits in the years from 1 on.
pub open spec fn is_two_digit_specifier(c: char) -> bool {
    c == 'd' || c == 'g' || c == 'H' || c == 'I' || c == 'm' || c == 'M' || c == 'U' || c == 'V'
        || c == 'W' || c == 'y'
}

/// In the years from 1 on, a two-digit specifier is written with exactly
/// two characters: the two digits of its number by default, and a space
/// before a single digit under the flag `_`.
pub proof fn lemma_two_digits(c: char, t: InstantView)
    requires
        t.wf(),
        t.year >= 1,
        is_two_digit_specifier(c),
    ensures
        0 <= number(c, t) <= 99,
        format_text(seq!['%', c], t) == seq![
            digit_char(number(c, t) / 10),
            digit_char(number(c, t) % 10),
        ],
        format_text(seq!['%', '_', c], t) == if number(c, t) < 10 {
            seq![' ', digit_char(number(c, t))]
        } else {
            seq![digit_char(number(c, t) / 10), digit_char(number(c, t) % 10)]
        },
{
    lemma_two_digit_padding(c, t);
    lemma_two_digit_text(number(c, t));
}

/// The numbers of an instant lie in the ranges of the calendar and the
/// clock: the day within its month, the day of the year within its year.
/// The quarter, a third of the month plus one, goes up to 5; it stays
/// within 4 before December.
pub proof fn lemma_numeric_ranges(t: InstantView)
    requires
        t.wf(),
    ensures
        1 <= number('m', t) <= 12,
        1 <= number('d', t) <= days_in_month(t.year, t.month) <= 31,
        number('e', t) == number('d', t),
        0 <= number('H', t) <= 23,
        number('k', t) == number('H', t),
        1 <= number('I', t) <= 12,
        number('l', t) == number('I', t),
        number('j', t) == day_of_year(t.year, t.month, t.day),
        1 <= number('j', t) <= days_in_year(t.year) <= 366,
        0 <= number('M', t) <= 59,
        0 <= number('S', t) <= 59,
        0 <= number('N', t) < 2_000_000_000,
        1 <= number('q', t) <= 5,
        t.month < 12 ==> number('q', t) <= 4,
        1 <= number('u', t) <= 7,
        0 <= number('w', t) <= 6,
        number('w', t) == number('u', t) % 7,
        1 <= number('U', t) <= 53,
        1 <= number('W', t) <= 53,
        1 <= number('V', t) <= 53,
        -99 <= number('y', t) <= 99,
        -99 <= number('g', t) <= 99,
        t.year - 1 <= number('G', t) <= t.year + 1,
{
    lemma_day_of_year_range(t.year, t.month, t.day);
}

/// Under the flag `^` a text specifier gives the upper case of what it
/// gives without a flag, and under the flag `#` the lower case. This holds
/// of the names of weekdays, months and the time zone, of `p` and `P`, and
/// of the composite specifiers.
pub proof fn lemma_case_flags(c: char, t: InstantView)
    requires
        is_specifier(c),
        !is_numeric(c),
        takes_case(c),
    ensures
        format_text(seq!['%', '^', c], t) == uppercase_of(format_text(seq!['%', c], t)),
        format_text(seq!['%', '#', c], t) == lowercase_of(format_text(seq!['%', c], t)),
{
    lemma_format_bare(c, t, MAX_DEPTH as nat);
    lemma_format_flagged('^', c, t, MAX_DEPTH as nat);
    lemma_format_flagged('#', c, t, MAX_DEPTH as nat);
}

/// The case flags leave numbers, the percent sign, the newline and the tab
/// as they are.
pub proof fn lemma_case_flags_ignored(c: char, t: InstantView)
    requires
        is_specifier(c),
        c != '%',
        is_numeric(c) || !takes_case(c),
    ensures
        format_text(seq!['%', '^', c], t) == format_text(seq!['%', c], t),
        format_text(seq!['%', '#', c], t) == format_text(seq!['%', c], t),
{
    lemma_format_bare(c, t, MAX_DEPTH as nat);
    lemma_format_flagged('^', c, t, MAX_DEPTH as nat);
    lemma_format_flagged('#', c, t, MAX_DEPTH as nat);
}

} // verus!
