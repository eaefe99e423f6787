use lottery_scraper::date::Date;
use lottery_scraper::schedule::{period_url, DateRangeScheduler, DEFAULT_HOST};

fn day(year: i32, month: u32, day: u32) -> Date {
    Date::from_ymd(year, month, day).unwrap()
}

#[test]
fn a_range_of_two_years_and_a_quarter_has_118_periods() {
    let scheduler = DateRangeScheduler::new(day(2022, 1, 1), day(2024, 4, 1));
    assert_eq!(scheduler.count(), 118);
    let periods = scheduler.periods();
    assert_eq!(periods.len(), 118);
    assert_eq!(periods[0], day(2022, 1, 1));
    assert_eq!(periods[1], day(2022, 1, 8));
    assert_eq!(periods[117], day(2024, 3, 30));
}

#[test]
fn periods_rise_by_seven_days() {
    let scheduler = DateRangeScheduler::new(day(2023, 12, 20), day(2024, 3, 5));
    let periods = scheduler.periods();
    assert_eq!(periods.len(), ((day(2024, 3, 5).days() - day(2023, 12, 20).days()) / 7 + 1) as usize);
    for pair in periods.windows(2) {
        assert_eq!(pair[1].days() - pair[0].days(), 7);
    }
    assert!(periods.last().unwrap().days() <= day(2024, 3, 5).days());
    assert!(periods.last().unwrap().days() + 7 > day(2024, 3, 5).days());
}

#[test]
fn a_range_of_one_day_has_one_period() {
    let scheduler = DateRangeScheduler::new(day(2024, 3, 4), day(2024, 3, 4));
    assert_eq!(scheduler.count(), 1);
    assert_eq!(scheduler.periods(), vec![day(2024, 3, 4)]);
}

#[test]
fn the_end_date_is_included() {
    let six = DateRangeScheduler::new(day(2024, 3, 4), day(2024, 3, 10));
    assert_eq!(six.periods(), vec![day(2024, 3, 4)]);
    let seven = DateRangeScheduler::new(day(2024, 3, 4), day(2024, 3, 11));
    assert_eq!(seven.periods(), vec![day(2024, 3, 4), day(2024, 3, 11)]);
}

#[test]
fn an_empty_range_has_no_period() {
    let scheduler = DateRangeScheduler::new(day(2024, 3, 5), day(2024, 3, 4));
    assert_eq!(scheduler.count(), 0);
    assert!(scheduler.periods().is_empty());
    assert_eq!(scheduler.period(0), None);
    assert!(scheduler.wave(0, 8).is_empty());
}

#[test]
fn periods_can_be_asked_for_by_position_again_and_again() {
    let scheduler = DateRangeScheduler::new(day(2024, 1, 1), day(2024, 1, 31));
    assert_eq!(scheduler.count(), 5);
    assert_eq!(scheduler.period(0), Some(day(2024, 1, 1)));
    assert_eq!(scheduler.period(4), Some(day(2024, 1, 29)));
    assert_eq!(scheduler.period(5), None);
    assert_eq!(scheduler.period(usize::MAX), None);
    assert_eq!(scheduler.period(4), Some(day(2024, 1, 29)));
    assert_eq!(scheduler.periods(), scheduler.periods());
}

#[test]
fn the_last_week_of_the_calendar_is_scheduled() {
    let last = Date::from_days(lottery_scraper::date::LAST_DAY).unwrap();
    let start = Date::from_days(lottery_scraper::date::LAST_DAY - 3).unwrap();
    let scheduler = DateRangeScheduler::new(start, last);
    assert_eq!(scheduler.periods(), vec![start]);
}

#[test]
fn the_whole_calendar_can_be_counted() {
    let first = Date::from_days(lottery_scraper::date::FIRST_DAY).unwrap();
    let last = Date::from_days(lottery_scraper::date::LAST_DAY).unwrap();
    let scheduler = DateRangeScheduler::new(first, last);
    assert_eq!(scheduler.count(), 27_355_933);
    assert_eq!(scheduler.period(27_355_932).unwrap().days(), first.days() + 7 * 27_355_932);
    assert_eq!(scheduler.period(27_355_933), None);
}

#[test]
fn waves_cover_the_periods_in_order_and_within_the_bound() {
    let scheduler = DateRangeScheduler::new(day(2024, 1, 1), day(2024, 3, 31));
    let periods = scheduler.periods();
    assert_eq!(periods.len(), 13);
    let mut seen = Vec::new();
    let mut first = 0;
    let mut waves = 0;
    while first < scheduler.count() {
        let wave = scheduler.wave(first, 5);
        assert!(!wave.is_empty() && wave.len() <= 5);
        first += wave.len();
        seen.extend(wave);
        waves += 1;
    }
    assert_eq!(waves, 3);
    assert_eq!(seen, periods);
    assert_eq!(scheduler.wave(10, 5), periods[10..].to_vec());
    assert!(scheduler.wave(13, 5).is_empty());
    assert!(scheduler.wave(usize::MAX, usize::MAX).is_empty());
    assert!(scheduler.wave(0, 0).is_empty());
    assert_eq!(scheduler.wave(0, usize::MAX), periods);
}

#[test]
fn the_address_holds_the_date_with_slashes() {
    assert_eq!(
        period_url(DEFAULT_HOST, day(2022, 1, 1)),
        "https://www.tuazar.com/loteria/animalitos/resultados/2022/01/01/"
    );
    assert_eq!(
        period_url("example.org", day(2024, 11, 30)),
        "https://example.org/loteria/animalitos/resultados/2024/11/30/"
    );
}

#[test]
fn periods_are_the_weeks_chrono_walks() {
    let start = chrono::NaiveDate::from_ymd_opt(2022, 1, 1).unwrap();
    let end = chrono::NaiveDate::from_ymd_opt(2024, 4, 1).unwrap();
    let walked: Vec<String> =
        start.iter_weeks().take_while(|date| *date <= end).map(|date| date.to_string()).collect();
    let scheduled: Vec<String> = DateRangeScheduler::new(day(2022, 1, 1), day(2024, 4, 1))
        .periods()
        .iter()
        .map(|date| date.to_iso_string())
        .collect();
    assert_eq!(scheduled, walked);
}
