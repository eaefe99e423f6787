//! Reading a fetched page: where its start date, its hour labels and its value
//! cells stand, and what they make together.

use crate::date::{day_number_of, parsed_day, Date};
use crate::draw::{draws_of, published, Draw, LotteryResult};
use crate::error::ParseError;
use crate::markup::{
    first_text_of_each, first_texts, last_text_of_each, last_texts, select_texts, selected_texts,
    selection_view, texts_of, trim_text, trimmed, Selection,
};
use crate::week::{assemble_week_page, assembled, page_draws, page_view, WeekPage, WeekPageView};
use vstd::prelude::*;

verus! {

/// Where the header shows the first day of the page.
pub const START_DATE_SELECTOR: &'static str =
    "#main > div.tema > div:nth-child(5) > div.col-md-8.resultados.table-responsive > table > thead > tr > th > time";

/// Where the value cells of the table stand.
pub const VALUE_CELL_SELECTOR: &'static str =
    "#main > div.tema > div:nth-child(5) > div.col-md-8.resultados.table-responsive > table > tbody > tr > td";

/// Where the rows of the table stand; the first text of a row is its hour label.
pub const HOUR_ROW_SELECTOR: &'static str =
    "#main > div.tema > div:nth-child(5) > div.col-md-8.resultados.table-responsive > table > tbody > tr";

/// Where the heading with the lottery's name stands.
pub const LOTTERY_NAME_SELECTOR: &'static str =
    "#main > div.tema > div:nth-child(5) > div.col-md-8.resultados.table-responsive > h2";

/// How the header writes the start date: day, month and year, with slashes.
pub const START_DATE_PATTERN: &'static str = "%d/%m/%Y";

/// The start day that the header's time elements give: the last text of the
/// first element, read as day/month/year.
pub open spec fn start_day_from(times: Option<Seq<Seq<Seq<char>>>>) -> Option<int> {
    match times {
        Some(elements) => if elements.len() > 0 && elements[0].len() > 0 {
            parsed_day(elements[0].last(), START_DATE_PATTERN@)
        } else {
            None
        },
        None => None,
    }
}

/// The hour labels that the rows give: the first text of each row.
pub open spec fn hour_labels_from(rows: Option<Seq<Seq<Seq<char>>>>) -> Result<
    Seq<Seq<char>>,
    ParseError,
> {
    match rows {
        Some(elements) => match first_texts(elements) {
            Some(labels) => Ok(labels),
            None => Err(ParseError::MissingHourLabels),
        },
        None => Err(ParseError::MissingHourLabels),
    }
}

/// The values that the cells give: the last text of each cell.
pub open spec fn cell_values_from(cells: Option<Seq<Seq<Seq<char>>>>) -> Result<
    Seq<Seq<char>>,
    ParseError,
> {
    match cells {
        Some(elements) => match last_texts(elements) {
            Some(values) => Ok(values),
            None => Err(ParseError::MalformedTable),
        },
        None => Err(ParseError::MalformedTable),
    }
}

/// The page that the three selections give. A missing start date is reported
/// before a flaw in the cells, and that before a flaw in the rows.
pub open spec fn week_page_from(
    times: Option<Seq<Seq<Seq<char>>>>,
    cells: Option<Seq<Seq<Seq<char>>>>,
    rows: Option<Seq<Seq<Seq<char>>>>,
) -> Result<WeekPageView, ParseError> {
    match start_day_from(times) {
        None => Err(ParseError::MissingStartDate),
        Some(start) => match cell_values_from(cells) {
            Err(error) => Err(error),
            Ok(values) => match hour_labels_from(rows) {
                Err(error) => Err(error),
                Ok(hours) => assembled(start, hours, values),
            },
        },
    }
}

/// The results that a page gives: its draws that carry an animal.
pub open spec fn week_results_from(page: Result<WeekPageView, ParseError>) -> Result<
    Seq<Draw>,
    ParseError,
> {
    match page {
        Ok(parsed) => Ok(published(page_draws(parsed))),
        Err(error) => Err(error),
    }
}

/// The name that the headings give: the last text of the first heading without
/// the white space around it, or the empty text where the page has no heading.
pub open spec fn lottery_name_from(headings: Option<Seq<Seq<Seq<char>>>>) -> Result<
    Seq<char>,
    ParseError,
> {
    match headings {
        Some(elements) => if elements.len() == 0 {
            Ok(Seq::empty())
        } else if elements[0].len() > 0 {
            Ok(trimmed(elements[0].last()))
        } else {
            Err(ParseError::MalformedTable)
        },
        None => Err(ParseError::MalformedTable),
    }
}

/// The start day of a page.
pub open spec fn page_start_day(content: Seq<char>) -> Option<int> {
    start_day_from(selected_texts(content, START_DATE_SELECTOR@))
}

/// The hour labels of a page.
pub open spec fn page_hour_labels(content: Seq<char>) -> Result<Seq<Seq<char>>, ParseError> {
    hour_labels_from(selected_texts(content, HOUR_ROW_SELECTOR@))
}

/// The week of results that a page holds.
pub open spec fn page_week(content: Seq<char>) -> Result<WeekPageView, ParseError> {
    week_page_from(
        selected_texts(content, START_DATE_SELECTOR@),
        selected_texts(content, VALUE_CELL_SELECTOR@),
        selected_texts(content, HOUR_ROW_SELECTOR@),
    )
}

/// The lottery's name on a page.
pub open spec fn page_lottery_name(content: Seq<char>) -> Result<Seq<char>, ParseError> {
    lottery_name_from(selected_texts(content, LOTTERY_NAME_SELECTOR@))
}

/// The characters of a list of texts that may have failed to parse.
pub open spec fn texts_view(texts: Result<Vec<String>, ParseError>) -> Result<
    Seq<Seq<char>>,
    ParseError,
> {
    match texts {
        Ok(list) => Ok(texts_of(list@)),
        Err(error) => Err(error),
    }
}

/// The characters of a text that may have failed to parse.
pub open spec fn text_view(text: Result<String, ParseError>) -> Result<Seq<char>, ParseError> {
    match text {
        Ok(found) => Ok(found@),
        Err(error) => Err(error),
    }
}

/// The values of a list of results that may have failed to parse.
pub open spec fn results_view(results: Result<Vec<LotteryResult>, ParseError>) -> Result<
    Seq<Draw>,
    ParseError,
> {
    match results {
        Ok(list) => Ok(draws_of(list@)),
        Err(error) => Err(error),
    }
}

/// Reads the start date from the header's time elements.
pub fn first_date_in(times: &Selection) -> (date: Option<Date>)
    ensures
        day_number_of(date) == start_day_from(selection_view(*times)),
{
    match times {
        Some(elements) => {
            if elements.len() == 0 {
                return None;
            }
            let texts = &elements[0];
            if texts.len() == 0 {
                return None;
            }
            Date::parse(texts[texts.len() - 1].as_str(), START_DATE_PATTERN)
        },
        None => None,
    }
}

/// Takes the hour label of each row.
pub fn hour_labels_in(rows: &Selection) -> (labels: Result<Vec<String>, ParseError>)
    ensures
        texts_view(labels) == hour_labels_from(selection_view(*rows)),
{
    match rows {
        Some(elements) => match first_text_of_each(elements) {
            Some(labels) => Ok(labels),
            None => Err(ParseError::MissingHourLabels),
        },
        None => Err(ParseError::MissingHourLabels),
    }
}

/// Takes the value of each cell.
pub fn cell_values_in(cells: &Selection) -> (values: Result<Vec<String>, ParseError>)
    ensures
        texts_view(values) == cell_values_from(selection_view(*cells)),
{
    match cells {
        Some(elements) => match last_text_of_each(elements) {
            Some(values) => Ok(values),
            None => Err(ParseError::MalformedTable),
        },
        None => Err(ParseError::MalformedTable),
    }
}

/// Makes a page of the header's time elements, the value cells and the rows.
pub fn week_page_in(times: &Selection, cells: &Selection, rows: &Selection) -> (page: Result<
    WeekPage,
    ParseError,
>)
    ensures
        page_view(page) == week_page_from(
            selection_view(*times),
            selection_view(*cells),
            selection_view(*rows),
        ),
{
    let start = match first_date_in(times) {
        Some(date) => date,
        None => {
            return Err(ParseError::MissingStartDate);
        },
    };
    let values = match cell_values_in(cells) {
        Ok(values) => values,
        Err(error) => {
            return Err(error);
        },
    };
    let hours = match hour_labels_in(rows) {
        Ok(hours) => hours,
        Err(error) => {
            return Err(error);
        },
    };
    assemble_week_page(start, &hours, &values)
}

/// Takes the lottery's name from the headings.
pub fn lottery_name_in(headings: &Selection) -> (name: Result<String, ParseError>)
    ensures
        text_view(name) == lottery_name_from(selection_view(*headings)),
{
    match headings {
        Some(elements) => {
            if elements.len() == 0 {
                return Ok(String::new());
            }
            let texts = &elements[0];
            if texts.len() == 0 {
                return Err(ParseError::MalformedTable);
            }
            Ok(trim_text(texts[texts.len() - 1].as_str()))
        },
        None => Err(ParseError::MalformedTable),
    }
}

/// The first day that a page covers, if its header shows one.
pub fn get_the_lottery_first_date(content: &str) -> (date: Option<Date>)
    ensures
        day_number_of(date) == page_start_day(content@),
{
    let times = select_texts(content, START_DATE_SELECTOR);
    first_date_in(&times)
}

/// The hour labels of a page, row by row.
pub fn get_the_lottery_hour_results(content: &str) -> (labels: Result<Vec<String>, ParseError>)
    ensures
        texts_view(labels) == page_hour_labels(content@),
{
    let rows = select_texts(content, HOUR_ROW_SELECTOR);
    hour_labels_in(&rows)
}

/// The page as a week of rows.
pub fn parse_week_page(content: &str) -> (page: Result<WeekPage, ParseError>)
    ensures
        page_view(page) == page_week(content@),
{
    let times = select_texts(content, START_DATE_SELECTOR);
    let cells = select_texts(content, VALUE_CELL_SELECTOR);
    let rows = select_texts(content, HOUR_ROW_SELECTOR);
    week_page_in(&times, &cells, &rows)
}

/// The results of a page: one for each slot that carries an animal, row after row.
pub fn get_the_lottery_week_results(content: &str) -> (results: Result<
    Vec<LotteryResult>,
    ParseError,
>)
    ensures
        results_view(results) == week_results_from(page_week(content@)),
{
    match parse_week_page(content) {
        Ok(page) => Ok(page.results()),
        Err(error) => Err(error),
    }
}

/// The lottery's name as the page's heading shows it.
pub fn get_the_lottery_name(content: &str) -> (name: Result<String, ParseError>)
    ensures
        text_view(name) == page_lottery_name(content@),
{
    let headings = select_texts(content, LOTTERY_NAME_SELECTOR);
    lottery_name_in(&headings)
}

} // verus!
