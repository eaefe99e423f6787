use chrono::Datelike;
use lottery_scraper::date::{Date, FIRST_DAY, LAST_DAY};

#[test]
fn day_one_is_the_first_of_january_of_year_one() {
    let date = Date::from_ymd(1, 1, 1).unwrap();
    assert_eq!(date.days(), 1);
    assert_eq!(date.to_iso_string(), "0001-01-01");
}

#[test]
fn the_calendar_ends_where_chrono_ends() {
    assert_eq!(chrono::NaiveDate::MIN.num_days_from_ce(), FIRST_DAY);
    assert_eq!(chrono::NaiveDate::MAX.num_days_from_ce(), LAST_DAY);
    assert!(chrono::NaiveDate::from_num_days_from_ce_opt(FIRST_DAY - 1).is_none());
    assert!(chrono::NaiveDate::from_num_days_from_ce_opt(LAST_DAY + 1).is_none());
}

#[test]
fn from_days_accepts_the_calendar_and_nothing_else() {
    assert_eq!(Date::from_days(FIRST_DAY).unwrap().days(), FIRST_DAY);
    assert_eq!(Date::from_days(LAST_DAY).unwrap().days(), LAST_DAY);
    assert_eq!(Date::from_days(0).unwrap().days(), 0);
    assert!(Date::from_days(FIRST_DAY - 1).is_none());
    assert!(Date::from_days(LAST_DAY + 1).is_none());
    assert!(Date::from_days(i32::MIN).is_none());
    assert!(Date::from_days(i32::MAX).is_none());
}

#[test]
fn the_ends_of_the_calendar_format() {
    assert_eq!(Date::from_days(FIRST_DAY).unwrap().to_iso_string(), "-262143-01-01");
    assert_eq!(Date::from_days(LAST_DAY).unwrap().to_iso_string(), "+262142-12-31");
    assert_eq!(Date::from_days(LAST_DAY).unwrap().to_path_string(), "+262142/12/31");
}

#[test]
fn from_ymd_knows_the_calendar() {
    assert_eq!(Date::from_ymd(2024, 3, 4).unwrap().days(), 738_949);
    assert_eq!(Date::from_ymd(1970, 1, 1).unwrap().days(), 719_163);
    assert!(Date::from_ymd(2024, 2, 29).is_some());
    assert!(Date::from_ymd(2023, 2, 29).is_none());
    assert!(Date::from_ymd(2024, 0, 1).is_none());
    assert!(Date::from_ymd(2024, 13, 1).is_none());
    assert!(Date::from_ymd(2024, 4, 31).is_none());
    assert!(Date::from_ymd(400_000, 1, 1).is_none());
}

#[test]
fn parse_reads_day_month_year() {
    let date = Date::parse("04/03/2024", "%d/%m/%Y").unwrap();
    assert_eq!(date, Date::from_ymd(2024, 3, 4).unwrap());
    assert_eq!(Date::parse("4/3/2024", "%d/%m/%Y"), Date::from_ymd(2024, 3, 4));
    assert!(Date::parse("2024-03-04", "%d/%m/%Y").is_none());
    assert!(Date::parse("31/02/2024", "%d/%m/%Y").is_none());
    assert!(Date::parse("", "%d/%m/%Y").is_none());
    assert!(Date::parse("04/03/2024 ", "%d/%m/%Y").is_none());
}

#[test]
fn the_two_output_forms_differ_in_the_separator() {
    let date = Date::from_ymd(2022, 1, 9).unwrap();
    assert_eq!(date.to_iso_string(), "2022-01-09");
    assert_eq!(date.to_path_string(), "2022/01/09");
}

#[test]
fn plus_days_crosses_months_and_years() {
    let date = Date::from_ymd(2023, 12, 30).unwrap();
    assert_eq!(date.plus_days(0), Some(date));
    assert_eq!(date.plus_days(2), Date::from_ymd(2024, 1, 1));
    assert_eq!(date.plus_days(62).unwrap().to_iso_string(), "2024-03-01");
}

#[test]
fn plus_days_stops_at_the_end_of_the_calendar() {
    let last = Date::from_days(LAST_DAY).unwrap();
    assert_eq!(last.plus_days(0), Some(last));
    assert_eq!(last.plus_days(1), None);
    assert_eq!(Date::from_days(LAST_DAY - 6).unwrap().plus_days(6), Some(last));
    assert_eq!(Date::from_days(LAST_DAY - 6).unwrap().plus_days(7), None);
    assert_eq!(Date::from_days(0).unwrap().plus_days(u32::MAX), None);
}

#[test]
fn dates_order_by_day() {
    let early = Date::from_ymd(2024, 2, 29).unwrap();
    let late = Date::from_ymd(2024, 3, 1).unwrap();
    assert!(early < late);
    assert_eq!(late.days() - early.days(), 1);
}

#[test]
fn plus_days_agrees_with_chrono() {
    let starts = [FIRST_DAY, -1, 0, 1, 719_163, 738_949, LAST_DAY - 7, LAST_DAY - 1, LAST_DAY];
    for start in starts {
        let date = Date::from_days(start).unwrap();
        let naive = chrono::NaiveDate::from_num_days_from_ce_opt(start).unwrap();
        for count in [0u32, 1, 6, 7, 8, 365, 146_097] {
            let expected = naive
                .checked_add_days(chrono::Days::new(count as u64))
                .map(|later| later.num_days_from_ce());
            assert_eq!(date.plus_days(count).map(|later| later.days()), expected);
        }
    }
}

#[test]
fn the_iso_form_is_what_chrono_displays() {
    for day in [FIRST_DAY, -366, 0, 1, 365, 719_163, 738_949, 3_652_059, 3_652_060, LAST_DAY] {
        let naive = chrono::NaiveDate::from_num_days_from_ce_opt(day).unwrap();
        assert_eq!(Date::from_days(day).unwrap().to_iso_string(), naive.to_string());
    }
}

#[test]
fn day_numbers_are_those_of_chrono() {
    for (year, month, day) in [(2022, 1, 1), (2024, 2, 29), (1, 1, 1), (0, 12, 31), (-4, 2, 29)] {
        let naive = chrono::NaiveDate::from_ymd_opt(year, month, day).unwrap();
        let date = Date::from_ymd(year, month, day).unwrap();
        assert_eq!(date.days(), naive.num_days_from_ce());
        assert_eq!(Date::from_days(naive.num_days_from_ce()), Some(date));
    }
}
