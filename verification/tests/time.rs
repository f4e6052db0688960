use lsr::path::time::{choose_date_style, pattern_of, DATE_WIDTH, DATE_WITH_TIME, DATE_WITH_YEAR};
use lsr::path::{DateColor, DateStyle, Timestamp};

fn stamp(year: i32, month: u32, day: u32, hour: u32, minute: u32, second: u32) -> Timestamp {
    Timestamp { year, month, day, hour, minute, second, nanosecond: 0 }
}

#[test]
fn years_since_counts_whole_years() {
    let base = stamp(2020, 3, 5, 14, 7, 9);
    assert_eq!(stamp(2023, 3, 5, 14, 7, 9).years_since(&base), Some(3));
    assert_eq!(stamp(2023, 3, 5, 14, 7, 8).years_since(&base), Some(2));
    assert_eq!(stamp(2023, 3, 4, 23, 59, 59).years_since(&base), Some(2));
    assert_eq!(stamp(2023, 2, 28, 0, 0, 0).years_since(&base), Some(2));
    assert_eq!(stamp(2021, 3, 5, 14, 7, 9).years_since(&base), Some(1));
    assert_eq!(stamp(2021, 3, 5, 14, 6, 59).years_since(&base), Some(0));
    assert_eq!(stamp(2020, 3, 5, 14, 7, 9).years_since(&base), Some(0));
    assert_eq!(stamp(2020, 12, 31, 0, 0, 0).years_since(&base), Some(0));
}

#[test]
fn years_since_a_later_time_is_none() {
    let base = stamp(2020, 3, 5, 14, 7, 9);
    assert_eq!(stamp(2020, 3, 5, 14, 7, 8).years_since(&base), None);
    assert_eq!(stamp(2019, 12, 31, 23, 59, 59).years_since(&base), None);
    let mut early = base;
    early.nanosecond = 1;
    assert_eq!(base.years_since(&early), None);
    assert_eq!(early.years_since(&base), Some(0));
}

#[test]
fn years_since_spans_the_whole_range_of_years() {
    let first = stamp(i32::MIN, 1, 1, 0, 0, 0);
    let last = stamp(i32::MAX, 12, 31, 23, 59, 59);
    assert_eq!(last.years_since(&first), Some(u32::MAX));
    assert_eq!(first.years_since(&last), None);
}

#[test]
fn date_style_turns_at_one_year() {
    assert_eq!(choose_date_style(None), DateStyle::WithTime);
    assert_eq!(choose_date_style(Some(0)), DateStyle::WithTime);
    assert_eq!(choose_date_style(Some(1)), DateStyle::WithYear);
    assert_eq!(choose_date_style(Some(40)), DateStyle::WithYear);
    assert_eq!(pattern_of(DateStyle::WithYear), "%e %b  %Y");
    assert_eq!(pattern_of(DateStyle::WithTime), "%e %b %R");
    assert_eq!(DATE_WITH_YEAR, "%e %b  %Y");
    assert_eq!(DATE_WITH_TIME, "%e %b %R");
}

#[test]
fn old_dates_show_their_year() {
    let then = stamp(2020, 3, 5, 14, 7, 9);
    assert_eq!(then.format(&stamp(2023, 1, 1, 0, 0, 0)), Some(" 5 Mar  2020".to_string()));
    assert_eq!(then.format(&stamp(2021, 3, 5, 14, 7, 9)), Some(" 5 Mar  2020".to_string()));
    assert_eq!(
        stamp(1999, 12, 31, 23, 59, 59).format(&stamp(2023, 1, 1, 0, 0, 0)),
        Some("31 Dec  1999".to_string())
    );
}

#[test]
fn recent_dates_show_their_time() {
    let then = stamp(2020, 3, 5, 14, 7, 9);
    assert_eq!(then.format(&stamp(2020, 6, 1, 0, 0, 0)), Some(" 5 Mar 14:07".to_string()));
    assert_eq!(then.format(&stamp(2021, 3, 5, 14, 7, 8)), Some(" 5 Mar 14:07".to_string()));
    assert_eq!(then.format(&stamp(2019, 1, 1, 0, 0, 0)), Some(" 5 Mar 14:07".to_string()));
    assert_eq!(
        stamp(2022, 11, 23, 0, 0, 0).format(&stamp(2023, 1, 1, 0, 0, 0)),
        Some("23 Nov 00:00".to_string())
    );
}

#[test]
fn dates_that_no_calendar_has_are_not_written() {
    let now = stamp(2023, 1, 1, 0, 0, 0);
    assert_eq!(stamp(2021, 2, 30, 0, 0, 0).format(&now), None);
    assert_eq!(stamp(2021, 13, 1, 0, 0, 0).format(&now), None);
    assert_eq!(stamp(2021, 1, 0, 0, 0, 0).format(&now), None);
    assert_eq!(stamp(2021, 1, 1, 24, 0, 0).format(&now), None);
    assert_eq!(stamp(2021, 1, 1, 0, 60, 0).format(&now), None);
    assert_eq!(stamp(i32::MAX, 1, 1, 0, 0, 0).format(&now), None);
    assert_eq!(stamp(2020, 2, 29, 0, 0, 0).format(&now), Some("29 Feb  2020".to_string()));
}

#[test]
fn date_cell_is_the_text_or_blanks() {
    assert_eq!(DATE_WIDTH, 12);
    let text = " 5 Mar  2020".to_string();
    assert_eq!(lsr::path::format::print_date(Some(text.clone()), DateColor::Plain), " 5 Mar  2020");
    assert_eq!(
        lsr::path::format::print_date(Some(text.clone()), DateColor::Blue),
        "\x1b[34m 5 Mar  2020\x1b[39m"
    );
    assert_eq!(
        lsr::path::format::print_date(Some(text), DateColor::Purple),
        "\x1b[35m 5 Mar  2020\x1b[39m"
    );
    for color in [DateColor::Plain, DateColor::Blue, DateColor::Purple] {
        assert_eq!(lsr::path::format::print_date(None, color), " ".repeat(12));
    }
}
