//! A date and time formatter driven by `%` templates, in the style of
//! `strftime`.
//!
//! [`formatter::format`] cuts a template into sections, reads the flags, the width and
//! the specifier of each, resolves the specifier at an [`Instant`], and
//! renders the result under the padding and case rules.

pub mod calendar;
pub mod formatter;
pub mod instant;
pub mod laws;
pub mod locale;
pub mod output;
pub mod parse;
pub mod resolve;
pub mod split;
pub mod text;

pub use formatter::format_section;
pub use instant::Instant;
pub use output::{Case, FormattedOutput, Padding};
pub use split::partition_format_string_into_sections;
