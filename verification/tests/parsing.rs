use datefmt::calendar;
use datefmt::formatter;
use datefmt::parse::{self, ModifierFlags, ParsedSection};
use datefmt::resolve;
use datefmt::{format_section, Case, Instant, Padding};

fn parsed(section: &str) -> ParsedSection {
    parse::parse(&section.chars().collect())
}

#[test]
fn bare_specifier() {
    assert_eq!(
        parsed("%d"),
        ParsedSection {
            flags: ModifierFlags {
                case: None,
                padding: None
            },
            width: None,
            specifier: Some('d'),
            rest: 2,
        }
    );
}

#[test]
fn flags_width_specifier_and_rest() {
    assert_eq!(
        parsed("%^_20Ab c"),
        ParsedSection {
            flags: ModifierFlags {
                case: Some(Case::Upper),
                padding: Some(Padding::Space)
            },
            width: Some(20),
            specifier: Some('A'),
            rest: 6,
        }
    );
    assert_eq!(
        parsed("%#-+0007y"),
        ParsedSection {
            flags: ModifierFlags {
                case: Some(Case::Lower),
                padding: Some(Padding::Zero)
            },
            width: Some(7),
            specifier: Some('y'),
            rest: 9,
        }
    );
}

#[test]
fn zero_is_a_flag_until_another_digit_comes() {
    let section = parsed("%010d");
    assert_eq!(section.flags.padding, Some(Padding::Zero));
    assert_eq!(section.width, Some(10));
    let section = parsed("%100d");
    assert_eq!(section.flags.padding, None);
    assert_eq!(section.width, Some(100));
    let section = parsed("%0d");
    assert_eq!(section.flags.padding, Some(Padding::Zero));
    assert_eq!(section.width, None);
}

#[test]
fn section_without_a_known_specifier() {
    assert_eq!(parsed("%").specifier, None);
    assert_eq!(parsed("%20").specifier, None);
    assert_eq!(parsed("%20").width, Some(20));
    assert_eq!(parsed("%*20").width, None);
    assert_eq!(parsed("%*20").specifier, None);
    assert_eq!(parsed("%_Q").flags.padding, Some(Padding::Space));
    assert_eq!(parsed("%_Q").specifier, None);
}

#[test]
fn width_at_the_limit_of_usize() {
    let most = usize::MAX;
    assert_eq!(parsed(&format!("%{}d", most)).width, Some(most));
    assert_eq!(parsed(&format!("%{}0d", most)).width, None);
    assert_eq!(parsed(&format!("%{}d", most as u128 + 1)).width, None);
    assert_eq!(parsed("%18446744073709551616d").width, None);
}

#[test]
fn character_classes() {
    for c in ['#', '-', '_', '^', '+', '0'] {
        assert!(parse::char_is_flag(c));
    }
    for c in ['1', 'a', '%', ' ', '*'] {
        assert!(!parse::char_is_flag(c));
    }
    for c in '0'..='9' {
        assert!(parse::char_is_digit(c));
    }
    for c in ['a', '/', ':', '٣'] {
        assert!(!parse::char_is_digit(c));
    }
    let known = "aAbBCdDeFgGhHIjklmMnNpPqrRsStTuUVwWxXyYz%";
    for c in ' '..='~' {
        assert_eq!(parse::char_is_specifier(c), known.contains(c));
    }
    assert!(!parse::char_is_specifier('é'));
}

#[test]
fn flags_one_by_one() {
    let none = ModifierFlags {
        case: None,
        padding: None,
    };
    assert_eq!(parse::add_flag(none, '+'), none);
    assert_eq!(parse::add_flag(none, '#').case, Some(Case::Lower));
    assert_eq!(parse::add_flag(none, '^').case, Some(Case::Upper));
    assert_eq!(parse::add_flag(none, '-').padding, Some(Padding::Off));
    assert_eq!(parse::add_flag(none, '_').padding, Some(Padding::Space));
    assert_eq!(parse::add_flag(none, '0').padding, Some(Padding::Zero));
    let both = parse::add_flag(parse::add_flag(none, '^'), '_');
    assert_eq!(both, parse::add_flag(parse::add_flag(none, '_'), '^'));
    assert_eq!(parse::add_flag(both, '_'), both);
}

#[test]
fn specifier_table() {
    for c in "degHkIljmMUVWyY".chars() {
        assert_eq!(resolve::width_by_default(c), 2);
    }
    assert_eq!(resolve::width_by_default('N'), 9);
    for c in "CGqsSuw%aAbBhnpPtzDFrRTxX".chars() {
        assert_eq!(resolve::width_by_default(c), 0);
    }
    for c in "ekl".chars() {
        assert_eq!(resolve::padding_by_default(c), Padding::Space);
    }
    for c in "CdgGHIjmMNqsSuUVwWyY".chars() {
        assert_eq!(resolve::padding_by_default(c), Padding::Zero);
        assert!(resolve::stands_for_number(c));
        assert!(!resolve::stands_for_template(c));
    }
    for c in "%aAbBhnpPtzDFrRTxX".chars() {
        assert_eq!(resolve::padding_by_default(c), Padding::Off);
        assert!(!resolve::stands_for_number(c));
    }
    for c in "DFrRTxX".chars() {
        assert!(resolve::stands_for_template(c));
    }
    assert_eq!(resolve::template_of('D'), "%m/%d/%y");
    assert_eq!(resolve::template_of('F'), "%+4Y-%m-%d");
    assert_eq!(resolve::template_of('r'), "%l:%M:%S %p");
    assert_eq!(resolve::template_of('R'), "%H:%M");
    assert_eq!(resolve::template_of('T'), "%H:%M:%S");
    assert_eq!(resolve::template_of('x'), "%D");
    assert_eq!(resolve::template_of('X'), "%T");
    assert_eq!(resolve::template_of('d'), "");
}

#[test]
fn numbers_and_words_of_an_instant() {
    let t = Instant::new(1999, 12, 31, 23, 59, 58, 7, 0).unwrap();
    assert_eq!(resolve::number_at('C', &t), 19);
    assert_eq!(resolve::number_at('y', &t), 99);
    assert_eq!(resolve::number_at('q', &t), 5);
    assert_eq!(resolve::number_at('j', &t), 365);
    assert_eq!(resolve::number_at('u', &t), 5);
    assert_eq!(resolve::number_at('I', &t), 11);
    assert_eq!(resolve::number_at('N', &t), 7);
    assert_eq!(resolve::number_at('s', &t), 946_684_798);
    assert_eq!(resolve::number_at('a', &t), 0);
    assert_eq!(resolve::words_at('a', &t), "Fri");
    assert_eq!(resolve::words_at('B', &t), "December");
    assert_eq!(resolve::words_at('p', &t), "PM");
    assert_eq!(resolve::words_at('%', &t), "%");
    assert_eq!(resolve::words_at('d', &t), "");
}

#[test]
fn calendar_rules() {
    assert!(calendar::leap_year(2024));
    assert!(calendar::leap_year(2000));
    assert!(!calendar::leap_year(1900));
    assert!(!calendar::leap_year(2023));
    assert!(calendar::leap_year(0));
    assert!(calendar::leap_year(-4));
    assert!(!calendar::leap_year(-1));
    let lengths = [31, 28, 31, 30, 31, 30, 31, 31, 30, 31, 30, 31];
    for month in 1..=12u32 {
        assert_eq!(
            calendar::month_length(2023, month),
            lengths[(month - 1) as usize]
        );
    }
    assert_eq!(calendar::month_length(2024, 2), 29);
    assert_eq!(calendar::month_length(2024, 0), 0);
    assert_eq!(calendar::month_length(2024, 13), 0);
    assert_eq!(calendar::clock_hour(0), 12);
    assert_eq!(calendar::clock_hour(12), 12);
    assert_eq!(calendar::clock_hour(17), 5);
    assert_eq!(calendar::divide(2024, 100), 20);
    assert_eq!(calendar::divide(-1234, 100), -12);
    assert_eq!(calendar::remainder(2024, 100), 24);
    assert_eq!(calendar::remainder(-1234, 100), -34);
}

#[test]
fn sections_one_by_one() {
    let t = Instant::new(2024, 12, 14, 15, 4, 5, 0, 0).unwrap();
    assert_eq!(format_section("%d/", &t), "14/");
    assert_eq!(format_section("plain", &t), "plain");
    assert_eq!(format_section("", &t), "");
    assert_eq!(format_section("%x", &t), "12/14/24");
    assert_eq!(format_section("%%d", &t), "%d");
    assert_eq!(format_section("%8", &t), "      %8");
    // A section is read as one: a `%` further in is plain text.
    assert_eq!(format_section("%d%m", &t), "14%m");
}

#[test]
fn nesting_runs_out_at_depth_zero() {
    let t = Instant::new(2024, 12, 14, 15, 4, 5, 0, 0).unwrap();
    assert_eq!(formatter::format_at("%d %D", &t, 0), "14 ");
    assert_eq!(formatter::format_at("%d %D", &t, 1), "14 12/14/24");
    assert_eq!(formatter::format_at("%x", &t, 1), "");
    assert_eq!(formatter::format_at("%x", &t, 2), "12/14/24");
    assert_eq!(formatter::format_at("%x", &t, 9), "12/14/24");
    assert_eq!(formatter::format_section_at("%_10T|", &t, 2), "   15:04:5|");
}
