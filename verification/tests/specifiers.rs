use datefmt::formatter;
use datefmt::Instant;

fn on(year: i32, month: u32, day: u32) -> Instant {
    Instant::new(year, month, day, 0, 0, 0, 0, 0).unwrap()
}

fn clock(hour: u32, minute: u32, second: u32) -> Instant {
    Instant::new(2024, 12, 14, hour, minute, second, 0, 0).unwrap()
}

#[test]
fn percent_escape() {
    assert_eq!(formatter::format("%%", &on(2024, 12, 14)), "%");
    assert_eq!(formatter::format("100%%", &on(2024, 12, 14)), "100%");
    assert_eq!(formatter::format("%%%%", &on(2024, 12, 14)), "%%");
}

#[test]
fn two_digit_specifiers_pad_with_zeros() {
    let t = Instant::new(2005, 3, 4, 7, 8, 9, 0, 0).unwrap();
    assert_eq!(formatter::format("%m", &t), "03");
    assert_eq!(formatter::format("%0m", &t), "03");
    assert_eq!(formatter::format("%_m", &t), " 3");
    assert_eq!(formatter::format("%-m", &t), "3");
    assert_eq!(formatter::format("%d", &t), "04");
    assert_eq!(formatter::format("%_d", &t), " 4");
    assert_eq!(formatter::format("%-d", &t), "4");
    assert_eq!(formatter::format("%H", &t), "07");
    assert_eq!(formatter::format("%I", &t), "07");
    assert_eq!(formatter::format("%M", &t), "08");
    assert_eq!(formatter::format("%y", &t), "05");
    assert_eq!(formatter::format("%g", &t), "05");
    assert_eq!(formatter::format("%j", &t), "63");
    assert_eq!(formatter::format("%U", &t), "09");
    assert_eq!(formatter::format("%W", &t), "09");
    assert_eq!(formatter::format("%V", &t), "09");
    assert_eq!(formatter::format("%Y", &t), "2005");
}

#[test]
fn space_padded_specifiers() {
    let t = Instant::new(2005, 3, 4, 7, 8, 9, 0, 0).unwrap();
    assert_eq!(formatter::format("%e", &t), " 4");
    assert_eq!(formatter::format("%k", &t), " 7");
    assert_eq!(formatter::format("%l", &t), " 7");
    assert_eq!(formatter::format("%0e", &t), "04");
    assert_eq!(formatter::format("%-e", &t), "4");
}

#[test]
fn specifiers_without_a_default_width() {
    let t = Instant::new(2005, 3, 4, 7, 8, 9, 0, 0).unwrap();
    assert_eq!(formatter::format("%S", &t), "9");
    assert_eq!(formatter::format("%C", &t), "20");
    assert_eq!(formatter::format("%q", &t), "2");
    assert_eq!(formatter::format("%u", &t), "5");
    assert_eq!(formatter::format("%w", &t), "5");
    assert_eq!(formatter::format("%G", &t), "2005");
    assert_eq!(formatter::format("%3S", &t), "009");
    assert_eq!(formatter::format("%_3S", &t), "  9");
}

#[test]
fn explicit_width_wins_over_the_default() {
    let t = Instant::new(2005, 3, 4, 7, 8, 9, 0, 0).unwrap();
    assert_eq!(formatter::format("%5m", &t), "00003");
    assert_eq!(formatter::format("%_5m", &t), "    3");
    assert_eq!(formatter::format("%-5m", &t), "3");
    assert_eq!(formatter::format("%1Y", &t), "2005");
    assert_eq!(formatter::format("%+4Y", &t), "2005");
    assert_eq!(formatter::format("%10a", &t), "Fri");
    assert_eq!(formatter::format("%_10a", &t), "       Fri");
    assert_eq!(formatter::format("%010a", &t), "0000000Fri");
}

#[test]
fn width_that_does_not_fit_falls_back_to_the_default() {
    let t = Instant::new(2005, 3, 4, 7, 8, 9, 0, 0).unwrap();
    assert_eq!(formatter::format("%99999999999999999999999999999999m", &t), "03");
    assert_eq!(formatter::format("%99999999999999999999999999999999S", &t), "9");
    assert_eq!(formatter::format("%_99999999999999999999999999999999a", &t), "Fri");
}

#[test]
fn later_flag_of_a_kind_replaces_the_earlier() {
    let t = Instant::new(2005, 3, 4, 7, 8, 9, 0, 0).unwrap();
    assert_eq!(formatter::format("%_0m", &t), "03");
    assert_eq!(formatter::format("%0_m", &t), " 3");
    assert_eq!(formatter::format("%-_m", &t), " 3");
    assert_eq!(formatter::format("%_-m", &t), "3");
    assert_eq!(formatter::format("%^#a", &t), "fri");
    assert_eq!(formatter::format("%#^a", &t), "FRI");
    assert_eq!(formatter::format("%^_5a", &t), "  FRI");
    assert_eq!(formatter::format("%_^5a", &t), "  FRI");
    assert_eq!(formatter::format("%+m", &t), "03");
    assert_eq!(formatter::format("%++_+m", &t), " 3");
}

#[test]
fn case_flags_on_names() {
    let t = on(2024, 12, 14);
    assert_eq!(formatter::format("%^a", &t), "SAT");
    assert_eq!(formatter::format("%#a", &t), "sat");
    assert_eq!(formatter::format("%^A", &t), "SATURDAY");
    assert_eq!(formatter::format("%#A", &t), "saturday");
    assert_eq!(formatter::format("%^b", &t), "DEC");
    assert_eq!(formatter::format("%#B", &t), "december");
    assert_eq!(formatter::format("%^h", &t), "DEC");
    assert_eq!(
        formatter::format("%^z", &t),
        formatter::format("%z", &t).to_uppercase()
    );
    assert_eq!(
        formatter::format("%#z", &t),
        formatter::format("%z", &t).to_lowercase()
    );
    assert_eq!(formatter::format("%#p", &t), "am");
    assert_eq!(formatter::format("%^P", &t), "AM");
}

#[test]
fn case_flags_leave_numbers_and_fixed_texts() {
    let t = on(2024, 12, 14);
    assert_eq!(formatter::format("%^m", &t), "12");
    assert_eq!(formatter::format("%#Y", &t), "2024");
    assert_eq!(formatter::format("%^n", &t), "\n");
    assert_eq!(formatter::format("%#t", &t), "\t");
}

#[test]
fn composite_specifiers_are_their_templates() {
    let t = Instant::new(2024, 2, 29, 23, 59, 58, 0, -7200).unwrap();
    for (composite, template) in [
        ("%D", "%m/%d/%y"),
        ("%F", "%+4Y-%m-%d"),
        ("%r", "%l:%M:%S %p"),
        ("%R", "%H:%M"),
        ("%T", "%H:%M:%S"),
        ("%x", "%D"),
        ("%X", "%T"),
    ] {
        assert_eq!(formatter::format(composite, &t), formatter::format(template, &t));
    }
    assert_eq!(formatter::format("%D", &t), "02/29/24");
    assert_eq!(formatter::format("%F", &t), "2024-02-29");
    assert_eq!(formatter::format("%r", &t), "11:59:58 PM");
    assert_eq!(formatter::format("%R", &t), "23:59");
    assert_eq!(formatter::format("%T", &t), "23:59:58");
    assert_eq!(formatter::format("%x", &t), "02/29/24");
    assert_eq!(formatter::format("%X", &t), "23:59:58");
}

#[test]
fn composite_specifiers_take_flags_and_width() {
    let t = Instant::new(2024, 2, 29, 13, 5, 58, 0, 0).unwrap();
    assert_eq!(formatter::format("%12D", &t), "02/29/24");
    assert_eq!(formatter::format("%_12D", &t), "    02/29/24");
    assert_eq!(formatter::format("%012x", &t), "000002/29/24");
    assert_eq!(formatter::format("%#r", &t), " 1:05:58 pm");
    assert_eq!(formatter::format("%^r", &t), " 1:05:58 PM");
}

#[test]
fn twelve_hour_clock() {
    for (hour, shown, half) in [
        (0, "12", "AM"),
        (1, "01", "AM"),
        (11, "11", "AM"),
        (12, "12", "PM"),
        (13, "01", "PM"),
        (23, "11", "PM"),
    ] {
        let t = clock(hour, 0, 0);
        assert_eq!(formatter::format("%I", &t), shown);
        assert_eq!(formatter::format("%p", &t), half);
        assert_eq!(formatter::format("%P", &t), half.to_lowercase());
    }
    assert_eq!(formatter::format("%l", &clock(0, 0, 0)), "12");
    assert_eq!(formatter::format("%l", &clock(15, 0, 0)), " 3");
}

#[test]
fn quarter_is_a_third_of_the_month_plus_one() {
    let expected = ["1", "1", "2", "2", "2", "3", "3", "3", "4", "4", "4", "5"];
    for month in 1..=12u32 {
        let t = on(2023, month, 1);
        assert_eq!(formatter::format("%q", &t), expected[(month - 1) as usize]);
    }
}

#[test]
fn weekday_numbers() {
    // 2024-12-09 is a Monday.
    let iso = ["1", "2", "3", "4", "5", "6", "7"];
    let from_sunday = ["1", "2", "3", "4", "5", "6", "0"];
    let short = ["Mon", "Tue", "Wed", "Thu", "Fri", "Sat", "Sun"];
    let long = [
        "Monday",
        "Tuesday",
        "Wednesday",
        "Thursday",
        "Friday",
        "Saturday",
        "Sunday",
    ];
    for i in 0..7usize {
        let t = on(2024, 12, 9 + i as u32);
        assert_eq!(formatter::format("%u", &t), iso[i]);
        assert_eq!(formatter::format("%w", &t), from_sunday[i]);
        assert_eq!(formatter::format("%a", &t), short[i]);
        assert_eq!(formatter::format("%A", &t), long[i]);
    }
}

#[test]
fn month_names() {
    let short = [
        "Jan", "Feb", "Mar", "Apr", "May", "Jun", "Jul", "Aug", "Sep", "Oct", "Nov", "Dec",
    ];
    let long = [
        "January",
        "February",
        "March",
        "April",
        "May",
        "June",
        "July",
        "August",
        "September",
        "October",
        "November",
        "December",
    ];
    for month in 1..=12u32 {
        let t = on(2023, month, 15);
        assert_eq!(formatter::format("%b", &t), short[(month - 1) as usize]);
        assert_eq!(formatter::format("%h", &t), short[(month - 1) as usize]);
        assert_eq!(formatter::format("%B", &t), long[(month - 1) as usize]);
    }
}

#[test]
fn time_zone_name() {
    assert_eq!(formatter::format("%z", &on(2024, 12, 14)), "GMT");
    let east = Instant::new(2024, 6, 1, 12, 0, 0, 0, 19800).unwrap();
    assert_eq!(formatter::format("%z", &east), "GMT");
}

#[test]
fn week_numbers_count_from_the_first_day_of_the_week() {
    // 2024-01-03 is a Wednesday; its week started on Sunday 2023-12-31, the
    // 365th day of 2023, and on Monday 2024-01-01.
    let t = on(2024, 1, 3);
    assert_eq!(formatter::format("%U", &t), "53");
    assert_eq!(formatter::format("%W", &t), "01");
    assert_eq!(formatter::format("%V", &t), "01");
    // 2024-12-31 is a Tuesday in ISO week 1 of 2025.
    let t = on(2024, 12, 31);
    assert_eq!(formatter::format("%U", &t), "52");
    assert_eq!(formatter::format("%W", &t), "53");
    assert_eq!(formatter::format("%V", &t), "01");
    assert_eq!(formatter::format("%G", &t), "2025");
    assert_eq!(formatter::format("%g", &t), "25");
    // 2021-01-01 is a Friday in ISO week 53 of 2020.
    let t = on(2021, 1, 1);
    assert_eq!(formatter::format("%V", &t), "53");
    assert_eq!(formatter::format("%G", &t), "2020");
    assert_eq!(formatter::format("%g", &t), "20");
    assert_eq!(formatter::format("%j", &t), "01");
}

#[test]
fn day_of_year() {
    assert_eq!(formatter::format("%j", &on(2023, 12, 31)), "365");
    assert_eq!(formatter::format("%j", &on(2024, 12, 31)), "366");
    assert_eq!(formatter::format("%j", &on(2024, 3, 1)), "61");
    assert_eq!(formatter::format("%j", &on(2023, 3, 1)), "60");
    assert_eq!(formatter::format("%5j", &on(2023, 3, 1)), "00060");
}

#[test]
fn day_of_year_stays_within_the_year() {
    let before = [0, 31, 59, 90, 120, 151, 181, 212, 243, 273, 304, 334];
    for month in 1..=12u32 {
        let common = on(2023, month, 1);
        let leap = on(2024, month, 1);
        let first = before[(month - 1) as usize] + 1;
        let shift = if month > 2 { 1 } else { 0 };
        assert_eq!(formatter::format("%-j", &common), first.to_string());
        assert_eq!(formatter::format("%-j", &leap), (first + shift).to_string());
    }
}

#[test]
fn two_digit_specifiers_have_two_characters() {
    for (year, month, day, hour, minute) in [
        (1, 1, 1, 0, 0),
        (2024, 12, 31, 23, 59),
        (2021, 1, 3, 9, 9),
        (9999, 7, 4, 12, 30),
    ] {
        let t = Instant::new(year, month, day, hour, minute, 0, 0, 0).unwrap();
        for c in "dgHImMUVWy".chars() {
            let zeros = formatter::format(&format!("%{c}"), &t);
            let spaces = formatter::format(&format!("%_{c}"), &t);
            assert_eq!(zeros.len(), 2);
            assert!(zeros.chars().all(|d| d.is_ascii_digit()));
            assert_eq!(spaces.len(), 2);
            assert_eq!(
                zeros.parse::<u32>().unwrap(),
                spaces.trim_start().parse::<u32>().unwrap()
            );
            if zeros.starts_with('0') {
                assert!(spaces.starts_with(' '));
                assert_eq!(zeros[1..], spaces[1..]);
            } else {
                assert_eq!(zeros, spaces);
            }
        }
    }
}

#[test]
fn timestamp_counts_from_the_epoch_in_utc() {
    assert_eq!(
        formatter::format("%s", &Instant::new(1970, 1, 1, 0, 0, 0, 0, 0).unwrap()),
        "0"
    );
    assert_eq!(
        formatter::format("%s", &Instant::new(1970, 1, 1, 1, 0, 0, 0, 3600).unwrap()),
        "0"
    );
    assert_eq!(
        formatter::format("%s", &Instant::new(1969, 12, 31, 23, 59, 59, 0, 0).unwrap()),
        "-1"
    );
    assert_eq!(
        formatter::format("%s", &Instant::new(2015, 5, 15, 0, 0, 0, 0, 0).unwrap()),
        "1431648000"
    );
    assert_eq!(
        formatter::format("%s", &Instant::new(2015, 5, 15, 0, 0, 0, 0, -18000).unwrap()),
        "1431666000"
    );
}

#[test]
fn nanoseconds() {
    let t = Instant::new(2024, 1, 1, 0, 0, 0, 42, 0).unwrap();
    assert_eq!(formatter::format("%N", &t), "000000042");
    assert_eq!(formatter::format("%-N", &t), "42");
    assert_eq!(formatter::format("%3N", &t), "042");
    let leap = Instant::new(2016, 12, 31, 23, 59, 59, 1_500_000_000, 0).unwrap();
    assert_eq!(formatter::format("%N", &leap), "1500000000");
}

#[test]
fn years_before_the_common_era() {
    let t = on(-5, 3, 14);
    assert_eq!(formatter::format("%Y", &t), "-5");
    assert_eq!(formatter::format("%y", &t), "-5");
    assert_eq!(formatter::format("%C", &t), "0");
    assert_eq!(formatter::format("%4Y", &t), "00-5");
    assert_eq!(formatter::format("%_4Y", &t), "  -5");
    let t = on(-1234, 3, 14);
    assert_eq!(formatter::format("%Y", &t), "-1234");
    assert_eq!(formatter::format("%y", &t), "-34");
    assert_eq!(formatter::format("%C", &t), "-12");
}

#[test]
fn small_and_large_years() {
    assert_eq!(formatter::format("%Y", &on(7, 1, 1)), "07");
    assert_eq!(formatter::format("%+4Y", &on(7, 1, 1)), "0007");
    assert_eq!(formatter::format("%F", &on(7, 1, 1)), "0007-01-01");
    assert_eq!(formatter::format("%Y", &on(12345, 1, 1)), "12345");
    assert_eq!(formatter::format("%C", &on(12345, 1, 1)), "123");
    assert_eq!(formatter::format("%y", &on(12345, 1, 1)), "45");
}

#[test]
fn unknown_specifier_keeps_the_section() {
    let t = on(2024, 12, 14);
    assert_eq!(formatter::format("%Q", &t), "%Q");
    assert_eq!(formatter::format("%Z", &t), "%Z");
    assert_eq!(formatter::format("%Z %Y", &t), "%Z 2024");
    assert_eq!(formatter::format("%5Q", &t), "  %5Q");
    assert_eq!(formatter::format("%05Q", &t), "0%05Q");
    assert_eq!(formatter::format("%-5Q", &t), "%-5Q");
    assert_eq!(formatter::format("%", &t), "%");
    assert_eq!(formatter::format("%5", &t), "   %5");
    assert_eq!(formatter::format("%^", &t), "%^");
    assert_eq!(formatter::format("% d", &t), "% d");
    assert_eq!(formatter::format("%é", &t), "%é");
    assert_eq!(formatter::format("%4é", &t), " %4é");
}

#[test]
fn text_around_specifiers_is_kept() {
    let t = Instant::new(2024, 12, 14, 15, 4, 5, 0, 0).unwrap();
    assert_eq!(formatter::format("at %H o'clock", &t), "at 15 o'clock");
    assert_eq!(formatter::format("%Y年%m月%d日", &t), "2024年12月14日");
    assert_eq!(formatter::format("a%db", &t), "a14b");
    assert_eq!(formatter::format("e%ee", &t), "e14e");
    assert_eq!(formatter::format("50%% of %B", &t), "50% of December");
    assert_eq!(formatter::format("%%d", &t), "%d");
    assert_eq!(formatter::format("%%%d", &t), "%14");
    assert_eq!(formatter::format("%m%d", &t), "1214");
    assert_eq!(formatter::format("%5%", &t), "   %5%");
}

#[test]
fn numbers_stay_in_their_ranges() {
    let number = |template: &str, t: &Instant| -> i64 {
        formatter::format(template, t).parse().unwrap()
    };
    for (year, month, day, hour) in [
        (2024, 1, 1, 0),
        (2024, 2, 29, 12),
        (2023, 6, 30, 13),
        (2023, 11, 30, 23),
        (1900, 12, 31, 11),
        (-400, 2, 29, 1),
    ] {
        let t = Instant::new(year, month, day, hour, 59, 59, 999_999_999, 0).unwrap();
        assert!((1..=12).contains(&number("%-m", &t)));
        assert!((1..=31).contains(&number("%-d", &t)));
        assert!((0..=23).contains(&number("%-H", &t)));
        assert!((1..=12).contains(&number("%-I", &t)));
        assert!((1..=366).contains(&number("%-j", &t)));
        assert!((1..=5).contains(&number("%-q", &t)));
        assert!((1..=53).contains(&number("%-V", &t)));
        assert!((1..=53).contains(&number("%-U", &t)));
        assert!((1..=53).contains(&number("%-W", &t)));
        assert!((1..=7).contains(&number("%-u", &t)));
        assert!((0..=6).contains(&number("%-w", &t)));
    }
}
