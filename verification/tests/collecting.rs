use lottery_scraper::collect::{accept_response, collect, task_outcome, Collector, Failure, Fetch};
use lottery_scraper::date::Date;
use lottery_scraper::draw::LotteryResult;
use lottery_scraper::error::{FetchError, ParseError, TaskError};

fn page(start: &str, animals: &[&str]) -> String {
    let mut markup = String::from("<html><body><div id=\"main\"><div class=\"tema\"><div></div><div></div><div></div><div></div><div><div class=\"col-md-8 resultados table-responsive\"><table><thead><tr><th><time>");
    markup.push_str(start);
    markup.push_str("</time></th></tr></thead><tbody><tr><th>9AM</th>");
    for animal in animals {
        markup.push_str(&format!("<td>{animal}</td>"));
    }
    markup.push_str("</tr></tbody></table></div></div></div></div></body></html>");
    markup
}

fn day(month: u32, day: u32) -> Date {
    Date::from_ymd(2024, month, day).unwrap()
}

fn draw(date: Date, animal: &str) -> LotteryResult {
    LotteryResult { date, hour: "9AM".to_string(), animal: animal.to_string() }
}

fn sorted(rows: Vec<LotteryResult>) -> Vec<(i32, String, String)> {
    let mut keys: Vec<(i32, String, String)> =
        rows.into_iter().map(|r| (r.date.days(), r.hour, r.animal)).collect();
    keys.sort();
    keys
}

#[test]
fn only_success_statuses_carry_a_page() {
    assert_eq!(accept_response(200, "page".to_string()), Ok("page".to_string()));
    assert_eq!(accept_response(299, String::new()), Ok(String::new()));
    assert_eq!(accept_response(199, "page".to_string()), Err(FetchError::Status(199)));
    assert_eq!(accept_response(300, "page".to_string()), Err(FetchError::Status(300)));
    assert_eq!(accept_response(404, "page".to_string()), Err(FetchError::Status(404)));
    assert_eq!(accept_response(0, "page".to_string()), Err(FetchError::Status(0)));
    assert_eq!(accept_response(u16::MAX, "page".to_string()), Err(FetchError::Status(u16::MAX)));
}

#[test]
fn a_fetch_is_parsed_or_its_failure_passed_on() {
    assert_eq!(
        task_outcome(Ok(page("04/03/2024", &["dog", "-"]))),
        Ok(vec![draw(day(3, 4), "dog")])
    );
    assert_eq!(
        task_outcome(Err(FetchError::Transport)),
        Err(TaskError::Fetch(FetchError::Transport))
    );
    assert_eq!(
        task_outcome(Err(FetchError::Status(503))),
        Err(TaskError::Fetch(FetchError::Status(503)))
    );
    assert_eq!(
        task_outcome(Ok("<html></html>".to_string())),
        Err(TaskError::Parse(ParseError::MissingStartDate))
    );
}

#[test]
fn a_failed_fetch_leaves_the_other_periods_in_the_store() {
    let mut collector = Collector::new();
    collector.take_page(day(3, 4), Ok(page("04/03/2024", &["dog", "cat"])));
    collector.take_page(day(3, 11), Err(FetchError::Transport));
    collector.take_page(day(3, 18), Ok(page("18/03/2024", &["fox"])));
    assert_eq!(collector.failed_count(), 1);
    let (store, failures) = collector.finish();
    assert_eq!(
        failures,
        vec![Failure { period: day(3, 11), error: TaskError::Fetch(FetchError::Transport) }]
    );
    assert_eq!(
        sorted(store.rows()),
        sorted(vec![draw(day(3, 4), "dog"), draw(day(3, 5), "cat"), draw(day(3, 18), "fox")])
    );
}

#[test]
fn a_failure_costs_what_leaving_the_period_out_costs() {
    let with_failure = collect(vec![
        Fetch { period: day(3, 4), page: Err(FetchError::Status(500)) },
        Fetch { period: day(3, 11), page: Ok(page("11/03/2024", &["dog", "-", "cat"])) },
    ]);
    let without = collect(vec![Fetch {
        period: day(3, 11),
        page: Ok(page("11/03/2024", &["dog", "-", "cat"])),
    }]);
    assert_eq!(with_failure.failed_count(), 1);
    assert_eq!(without.failed_count(), 0);
    assert_eq!(sorted(with_failure.finish().0.rows()), sorted(without.finish().0.rows()));
}

#[test]
fn failures_are_noted_in_the_order_of_arrival() {
    let collector = collect(vec![
        Fetch { period: day(3, 4), page: Ok("<html></html>".to_string()) },
        Fetch { period: day(3, 11), page: Ok(page("11/03/2024", &["dog"])) },
        Fetch { period: day(3, 18), page: Err(FetchError::Status(404)) },
        Fetch { period: day(3, 25), page: Ok(page("25/03/2024", &["-"])) },
    ]);
    assert_eq!(collector.failed_count(), 2);
    let (store, failures) = collector.finish();
    assert_eq!(
        failures,
        vec![
            Failure { period: day(3, 4), error: TaskError::Parse(ParseError::MissingStartDate) },
            Failure { period: day(3, 18), error: TaskError::Fetch(FetchError::Status(404)) },
        ]
    );
    assert_eq!(store.rows(), vec![draw(day(3, 11), "dog")]);
}

#[test]
fn a_page_with_a_flaw_contributes_nothing() {
    let mut collector = Collector::new();
    collector.take_page(day(3, 4), Ok(page("04/03/2024", &["dog", ""])));
    let (store, failures) = collector.finish();
    assert!(store.rows().is_empty());
    assert_eq!(
        failures,
        vec![Failure { period: day(3, 4), error: TaskError::Parse(ParseError::MalformedTable) }]
    );
}

#[test]
fn the_order_of_completion_does_not_change_the_store() {
    let pages = [
        (day(3, 4), page("04/03/2024", &["dog", "-", "cat"])),
        (day(3, 11), page("11/03/2024", &["fox"])),
        (day(3, 18), page("18/03/2024", &["-", "owl", "dog", "bear"])),
    ];
    let orders: [[usize; 3]; 6] =
        [[0, 1, 2], [0, 2, 1], [1, 0, 2], [1, 2, 0], [2, 0, 1], [2, 1, 0]];
    let mut stores = Vec::new();
    for order in orders {
        let fetches =
            order.iter().map(|&i| Fetch { period: pages[i].0, page: Ok(pages[i].1.clone()) }).collect();
        stores.push(sorted(collect(fetches).finish().0.rows()));
    }
    assert_eq!(stores[0].len(), 2 + 1 + 3);
    assert!(stores.iter().all(|rows| *rows == stores[0]));
}

#[test]
fn outcomes_can_be_handed_over_parsed() {
    let mut collector = Collector::new();
    collector.take_outcome(day(3, 4), Ok(vec![draw(day(3, 4), "dog"), draw(day(3, 5), "-")]));
    collector.take_outcome(day(3, 11), Err(TaskError::Parse(ParseError::MissingHourLabels)));
    assert_eq!(collector.failed_count(), 1);
    let (store, failures) = collector.finish();
    assert_eq!(store.rows(), vec![draw(day(3, 4), "dog")]);
    assert_eq!(failures[0].period, day(3, 11));
}

#[test]
fn nothing_collected_is_an_empty_store() {
    let collector = collect(vec![]);
    assert_eq!(collector.failed_count(), 0);
    let (store, failures) = collector.finish();
    assert!(store.rows().is_empty());
    assert!(failures.is_empty());
}
