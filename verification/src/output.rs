//! The value that one specifier resolves to, and its rendering into text.

use crate::text::{
    decimal_string, decimal_text, lowercase_of, pad_left, pad_left_string, uppercase_of,
};
use vstd::prelude::*;

verus! {

/// How a value that is shorter than its width is filled up.
#[derive(Clone, Copy, Debug, PartialEq, Eq, Structural)]
pub enum Padding {
    /// No filling: the width is ignored.
    Off,
    /// Spaces in front.
    Space,
    /// Zeros in front.
    Zero,
}

/// What happens to the letters of a text value.
#[derive(Clone, Copy, Debug, PartialEq, Eq, Structural)]
pub enum Case {
    /// The text stays as it is.
    Unchanged,
    /// The text is turned into upper case.
    Upper,
    /// The text is turned into lower case.
    Lower,
}

/// A resolved specifier that has not been rendered yet.
///
/// A number carries no case: case flags do not apply to it.
#[derive(Clone, Debug, PartialEq, Eq)]
#[allow(inconsistent_fields)]
pub enum FormattedOutput {
    Numeric { value: i64, width: usize, padding: Padding },
    Text { value: String, case: Case, width: usize, padding: Padding },
}

/// The mathematical content of a [`FormattedOutput`].
#[allow(inconsistent_fields)]
pub enum OutputView {
    Numeric { value: int, width: nat, padding: Padding },
    Text { value: Seq<char>, case: Case, width: nat, padding: Padding },
}

/// `text` after the case transform `case`.
pub open spec fn cased(text: Seq<char>, case: Case) -> Seq<char> {
    match case {
        Case::Unchanged => text,
        Case::Upper => uppercase_of(text),
        Case::Lower => lowercase_of(text),
    }
}

/// `text` filled up to `width` characters in the style `padding`.
pub open spec fn padded(text: Seq<char>, width: nat, padding: Padding) -> Seq<char> {
    match padding {
        Padding::Off => text,
        Padding::Space => pad_left(text, width, ' '),
        Padding::Zero => pad_left(text, width, '0'),
    }
}

impl OutputView {
    /// The final text: a number is written in decimal, a text goes through
    /// its case transform; then either is padded to its width.
    pub open spec fn rendered(self) -> Seq<char> {
        match self {
            OutputView::Numeric { value, width, padding } => padded(
                decimal_text(value),
                width,
                padding,
            ),
            OutputView::Text { value, case, width, padding } => padded(
                cased(value, case),
                width,
                padding,
            ),
        }
    }
}

impl View for FormattedOutput {
    type V = OutputView;

    open spec fn view(&self) -> OutputView {
        match *self {
            FormattedOutput::Numeric { value, width, padding } => OutputView::Numeric {
                value: value as int,
                width: width as nat,
                padding,
            },
            FormattedOutput::Text { value, case, width, padding } => OutputView::Text {
                value: value@,
                case,
                width: width as nat,
                padding,
            },
        }
    }
}

impl Default for FormattedOutput {
    /// The number zero, without width or padding.
    fn default() -> (output: Self)
        ensures
            output@ == (OutputView::Numeric { value: 0, width: 0, padding: Padding::Off }),
    {
        FormattedOutput::Numeric { value: 0, width: 0, padding: Padding::Off }
    }
}

/// Applies the case transform `case` to `text`.
pub fn apply_case(text: &str, case: Case) -> (result: String)
    ensures
        result@ == cased(text@, case),
{
    match case {
        Case::Unchanged => text.to_owned(),
        Case::Upper => text.to_uppercase(),
        Case::Lower => text.to_lowercase(),
    }
}

/// Fills `text` up to `width` characters in the style `padding`.
pub fn apply_padding(text: &str, width: usize, padding: Padding) -> (result: String)
    ensures
        result@ == padded(text@, width as nat, padding),
{
    match padding {
        Padding::Off => text.to_owned(),
        Padding::Space => pad_left_string(text, width, ' '),
        Padding::Zero => pad_left_string(text, width, '0'),
    }
}

impl FormattedOutput {
    /// Renders the value: case transform first, then padding.
    pub fn render(&self) -> (text: String)
        ensures
            text@ == self@.rendered(),
    {
        match self {
            FormattedOutput::Numeric { value, width, padding } => {
                let digits = decimal_string(*value);
                apply_padding(digits.as_str(), *width, *padding)
            },
            FormattedOutput::Text { value, case, width, padding } => {
                let transformed = apply_case(value.as_str(), *case);
                apply_padding(transformed.as_str(), *width, *padding)
            },
        }
    }
}

} // verus!
