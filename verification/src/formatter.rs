//! The formatter: a template is cut into sections, each section is resolved
//! and rendered, and the pieces are put together.

use crate::instant::{Instant, InstantView};
use crate::laws::lemma_literal_pass_through;
use crate::output::{Case, FormattedOutput, OutputView, Padding};
use crate::parse::{
    parse, section_flags, section_rest, section_specifier, section_width, ModifierFlags,
};
use crate::resolve::{
    default_padding, default_width, is_composite, is_numeric, number, number_at,
    padding_by_default, stands_for_number, stands_for_template, sub_template, takes_case,
    template_of, width_by_default, words, words_at,
};
use crate::split::{partition_format_string_into_sections, split_sections, texts};
use crate::text::chars_of;
use vstd::prelude::*;

verus! {

/// How deep templates nest: a composite specifier stands for a template
/// whose own composite specifiers stand for templates without any.
pub const MAX_DEPTH: usize = 2;

/// The text of the template that the composite specifier `c` stands for,
/// formatted at `t` with `level` levels of nesting left; empty at level 0.
pub open spec fn composite_text(c: char, t: InstantView, level: nat) -> Seq<char>
    decreases level, 0nat, 0nat,
{
    if level == 0 {
        Seq::empty()
    } else {
        format_text_at(sub_template(c), t, (level - 1) as nat)
    }
}

/// The value that the specifier `c` resolves to under the flags and the
/// width of its section: what the template does not give comes from the
/// specifier table.
pub open spec fn resolved(
    c: char,
    flags: ModifierFlags,
    width: Option<usize>,
    t: InstantView,
    level: nat,
) -> OutputView
    decreases level, 1nat, 0nat,
{
    let width = match width {
        Some(w) => w as nat,
        None => default_width(c) as nat,
    };
    let padding = match flags.padding {
        Some(p) => p,
        None => default_padding(c),
    };
    if is_numeric(c) {
        OutputView::Numeric { value: number(c, t), width, padding }
    } else {
        OutputView::Text {
            value: if is_composite(c) {
                composite_text(c, t, level)
            } else {
                words(c, t)
            },
            case: match flags.case {
                Some(case) if takes_case(c) => case,
                _ => Case::Unchanged,
            },
            width,
            padding,
        }
    }
}

/// A section taken as it stands: a text of the given width and padding.
pub open spec fn literal(section: Seq<char>, width: nat, padding: Padding) -> OutputView {
    OutputView::Text { value: section, case: Case::Unchanged, width, padding }
}

/// The text of one section at `t`.
///
/// A section that does not start with `%` is literal. Of one that does, the
/// specifier is resolved and rendered, and what follows it is kept; where no
/// known specifier follows the flags and the width, the whole section is
/// literal, padded with spaces unless a flag says otherwise.
pub open spec fn section_text(section: Seq<char>, t: InstantView, level: nat) -> Seq<char>
    decreases level, 2nat, 0nat,
{
    if section.len() == 0 || section[0] != '%' {
        literal(section, 0, Padding::Space).rendered()
    } else {
        match section_specifier(section) {
            Some(c) => resolved(
                c,
                section_flags(section),
                section_width(section),
                t,
                level,
            ).rendered() + section_rest(section),
            None => literal(
                section,
                match section_width(section) {
                    Some(w) => w as nat,
                    None => 0,
                },
                match section_flags(section).padding {
                    Some(p) => p,
                    None => Padding::Space,
                },
            ).rendered(),
        }
    }
}

/// The texts of `sections` at `t`, one after the other.
pub open spec fn sections_text(sections: Seq<Seq<char>>, t: InstantView, level: nat) -> Seq<char>
    decreases level, 3nat, sections.len(),
{
    if sections.len() == 0 {
        Seq::empty()
    } else {
        sections_text(sections.drop_last(), t, level) + section_text(sections.last(), t, level)
    }
}

/// The text of `template` at `t`, with `level` levels of nesting left.
pub open spec fn format_text_at(template: Seq<char>, t: InstantView, level: nat) -> Seq<char>
    decreases level, 4nat, 0nat,
{
    sections_text(split_sections(template), t, level)
}

/// The text of `template` at `t`.
pub open spec fn format_text(template: Seq<char>, t: InstantView) -> Seq<char> {
    format_text_at(template, t, MAX_DEPTH as nat)
}

/// Resolves the specifier `c` under the flags and the width of its section.
pub fn resolve(
    c: char,
    flags: ModifierFlags,
    width: Option<usize>,
    datetime: &Instant,
    depth: usize,
) -> (output: FormattedOutput)
    ensures
        output@ == resolved(c, flags, width, datetime@, depth as nat),
    decreases depth, 1nat, 0nat,
{
    let width = match width {
        Some(w) => w,
        None => width_by_default(c),
    };
    let padding = match flags.padding {
        Some(p) => p,
        None => padding_by_default(c),
    };
    if stands_for_number(c) {
        FormattedOutput::Numeric { value: number_at(c, datetime), width, padding }
    } else {
        let value = if stands_for_template(c) {
            if depth == 0 {
                String::new()
            } else {
                format_at(template_of(c), datetime, depth - 1)
            }
        } else {
            words_at(c, datetime)
        };
        let case = match flags.case {
            Some(case) => if c != '%' && c != 'n' && c != 't' {
                case
            } else {
                Case::Unchanged
            },
            None => Case::Unchanged,
        };
        FormattedOutput::Text { value, case, width, padding }
    }
}

/// Formats one section with `depth` levels of nesting left.
pub fn format_section_at(section_string: &str, datetime: &Instant, depth: usize) -> (text: String)
    ensures
        text@ == section_text(section_string@, datetime@, depth as nat),
    decreases depth, 2nat, 0nat,
{
    let chars = chars_of(section_string);
    if chars.len() == 0 || chars[0] != '%' {
        let output = FormattedOutput::Text {
            value: section_string.to_owned(),
            case: Case::Unchanged,
            width: 0,
            padding: Padding::Space,
        };
        return output.render();
    }
    let parsed = parse(&chars);
    match parsed.specifier {
        Some(c) => {
            let output = resolve(c, parsed.flags, parsed.width, datetime, depth);
            let mut text = output.render();
            let ghost head = text@;
            let mut i = parsed.rest;
            while i < chars.len()
                invariant
                    parsed.rest <= i <= chars.len(),
                    text@ == head + chars@.subrange(parsed.rest as int, i as int),
                decreases chars.len() - i,
            {
                text.push(chars[i]);
                i += 1;
            }
            text
        },
        None => {
            let output = FormattedOutput::Text {
                value: section_string.to_owned(),
                case: Case::Unchanged,
                width: match parsed.width {
                    Some(w) => w,
                    None => 0,
                },
                padding: match parsed.flags.padding {
                    Some(p) => p,
                    None => Padding::Space,
                },
            };
            output.render()
        },
    }
}

/// Formats `template` with `depth` levels of nesting left.
pub fn format_at(template: &str, datetime: &Instant, depth: usize) -> (text: String)
    ensures
        text@ == format_text_at(template@, datetime@, depth as nat),
    decreases depth, 4nat, 0nat,
{
    let sections = partition_format_string_into_sections(template);
    let mut text = String::new();
    let mut i: usize = 0;
    while i < sections.len()
        invariant
            i <= sections.len(),
            text@ == sections_text(texts(sections@).take(i as int), datetime@, depth as nat),
        decreases sections.len() - i,
    {
        let piece = format_section_at(sections[i].as_str(), datetime, depth);
        proof {
            let upto = texts(sections@).take(i + 1);
            assert(upto.drop_last() == texts(sections@).take(i as int));
        }
        text.append(piece.as_str());
        i += 1;
    }
    proof {
        assert(texts(sections@).take(sections.len() as int) == texts(sections@));
    }
    text
}

/// Formats one section of a template at `datetime`.
pub fn format_section(section_string: &str, datetime: &Instant) -> (text: String)
    ensures
        text@ == section_text(section_string@, datetime@, MAX_DEPTH as nat),
{
    format_section_at(section_string, datetime, MAX_DEPTH)
}

/// Formats `format_string` at `datetime`. A template without `%` comes
/// back unchanged.
///
/// A width is taken as the template spells it, whatever its size: a padded
/// piece of the result holds that many characters.
pub fn format(format_string: &str, datetime: &Instant) -> (text: String)
    ensures
        text@ == format_text(format_string@, datetime@),
        (forall|i: int| 0 <= i < format_string@.len() ==> format_string@[i] != '%') ==> text@
            == format_string@,
{
    proof {
        if forall|i: int| 0 <= i < format_string@.len() ==> format_string@[i] != '%' {
            lemma_literal_pass_through(format_string@, datetime@);
        }
    }
    format_at(format_string, datetime, MAX_DEPTH)
}

} // verus!
