//! One page of results: a start date and, for each draw hour, the animals of
//! up to seven consecutive days.

use crate::date::{Date, LAST_DAY};
use crate::draw::{
    carries_animal, draws_of, is_published, is_sentinel, published, Draw, LotteryResult,
};
use crate::error::ParseError;
use crate::markup::texts_of;
use vstd::prelude::*;

verus! {

/// The number of days a full row covers.
pub const DAYS_PER_ROW: usize = 7;

/// One row of a page: the label of a draw hour and the animals drawn at that
/// hour on consecutive days, the first on the page's start date.
#[derive(Debug, PartialEq, Eq)]
pub struct HourRow {
    pub hour: String,
    pub animals: Vec<String>,
}

/// The mathematical value of an `HourRow`.
pub struct HourRowView {
    pub hour: Seq<char>,
    pub animals: Seq<Seq<char>>,
}

impl View for HourRow {
    type V = HourRowView;

    open spec fn view(&self) -> HourRowView {
        HourRowView { hour: self.hour@, animals: texts_of(self.animals@) }
    }
}

/// The values of a sequence of rows, in the same order.
pub open spec fn rows_of(rows: Seq<HourRow>) -> Seq<HourRowView> {
    rows.map_values(|row: HourRow| row@)
}

/// One fetched page: the first day it covers and its rows.
#[derive(Debug, PartialEq, Eq)]
pub struct WeekPage {
    start: Date,
    rows: Vec<HourRow>,
}

/// The mathematical value of a `WeekPage`.
pub struct WeekPageView {
    pub start: int,
    pub rows: Seq<HourRowView>,
}

impl View for WeekPage {
    type V = WeekPageView;

    closed spec fn view(&self) -> WeekPageView {
        WeekPageView { start: self.start@, rows: rows_of(self.rows@) }
    }
}

/// The number of rows that pair an hour label with a group of values: the
/// labels and the groups of seven (the last may be shorter) are paired by
/// position, and the shorter of the two sequences decides.
pub open spec fn group_count(hours: nat, values: nat) -> nat {
    let groups = (values + 6) / 7;
    if hours <= groups {
        hours
    } else {
        groups as nat
    }
}

/// The values of the group at a position: seven consecutive values, or those
/// that are left.
pub open spec fn group_of(values: Seq<Seq<char>>, group: int) -> Seq<Seq<char>> {
    values.subrange(
        7 * group,
        if 7 * group + 7 <= values.len() {
            7 * group + 7
        } else {
            values.len() as int
        },
    )
}

/// The rows that hour labels and value cells make.
pub open spec fn grouped_rows(hours: Seq<Seq<char>>, values: Seq<Seq<char>>) -> Seq<HourRowView> {
    Seq::new(
        group_count(hours.len(), values.len()),
        |group: int| HourRowView { hour: hours[group], animals: group_of(values, group) },
    )
}

/// Whether every column of the page stands for a day of the calendar.
pub open spec fn fits_calendar(start: int, hours: nat, values: nat) -> bool {
    hours == 0 || values == 0 || start + (if values < 7 {
        values as int
    } else {
        7
    }) - 1 <= LAST_DAY
}

/// The page that a start day, hour labels and value cells make.
pub open spec fn assembled(start: int, hours: Seq<Seq<char>>, values: Seq<Seq<char>>) -> Result<
    WeekPageView,
    ParseError,
> {
    if fits_calendar(start, hours.len(), values.len()) {
        Ok(WeekPageView { start, rows: grouped_rows(hours, values) })
    } else {
        Err(ParseError::MalformedTable)
    }
}

/// The value of a page that may have failed to parse.
pub open spec fn page_view(page: Result<WeekPage, ParseError>) -> Result<WeekPageView, ParseError> {
    match page {
        Ok(parsed) => Ok(parsed@),
        Err(error) => Err(error),
    }
}

/// The draws of one row, empty slots included: the value at position `j` was
/// drawn `j` days after the start.
pub open spec fn row_draws(start: int, row: HourRowView) -> Seq<Draw> {
    Seq::new(
        row.animals.len(),
        |j: int| Draw { animal: row.animals[j], hour: row.hour, date: start + j },
    )
}

/// The draws of each row of a page.
pub open spec fn draws_by_row(page: WeekPageView) -> Seq<Seq<Draw>> {
    page.rows.map_values(|row: HourRowView| row_draws(page.start, row))
}

/// The draws of a page, row after row, empty slots included.
pub open spec fn page_draws(page: WeekPageView) -> Seq<Draw> {
    draws_by_row(page).flatten()
}

/// The number of value cells that fall in a row with an hour label.
pub open spec fn paired_cells(hours: nat, values: nat) -> nat {
    if values <= 7 * hours {
        values
    } else {
        7 * hours
    }
}

/// The draws of a page counted cell by cell, empty slots included: the value
/// cell at position `i` belongs to the hour label at `i / 7` and was drawn
/// `i % 7` days after the start.
pub open spec fn cell_draws(start: int, hours: Seq<Seq<char>>, values: Seq<Seq<char>>) -> Seq<Draw> {
    Seq::new(
        paired_cells(hours.len(), values.len()),
        |i: int| Draw { animal: values[i], hour: hours[i / 7], date: start + i % 7 },
    )
}

/// The number of value cells in the first `rows` groups of seven.
spec fn cells_within(rows: nat, values: nat) -> int {
    if 7 * rows <= values {
        7 * (rows as int)
    } else {
        values as int
    }
}

/// The draws of the first `count` rows are the draws of the first cells.
proof fn lemma_rows_cover_cells(
    start: int,
    hours: Seq<Seq<char>>,
    values: Seq<Seq<char>>,
    count: nat,
)
    requires
        count <= group_count(hours.len(), values.len()),
    ensures
        draws_by_row(WeekPageView { start, rows: grouped_rows(hours, values) }).take(
            count as int,
        ).flatten() == cell_draws(start, hours, values).take(cells_within(count, values.len())),
    decreases count,
{
    if count > 0 {
        let by_row = draws_by_row(WeekPageView { start, rows: grouped_rows(hours, values) });
        let before = (count - 1) as nat;
        lemma_rows_cover_cells(start, hours, values, before);
        assert(by_row.take(count as int) =~= by_row.take(before as int).push(by_row[before as int]));
        by_row.take(before as int).lemma_flatten_push(by_row[before as int]);
    }
}

/// Row after row, a page holds the draws of its cells: the rows that pair the
/// labels with groups of seven give each value cell the label at a seventh of
/// its position and the day at the remainder.
pub proof fn lemma_page_draws_by_cell(start: int, hours: Seq<Seq<char>>, values: Seq<Seq<char>>)
    ensures
        page_draws(WeekPageView { start, rows: grouped_rows(hours, values) }) == cell_draws(
            start,
            hours,
            values,
        ),
{
    let by_row = draws_by_row(WeekPageView { start, rows: grouped_rows(hours, values) });
    let count = group_count(hours.len(), values.len());
    lemma_rows_cover_cells(start, hours, values, count);
    assert(by_row.take(count as int) =~= by_row);
}

/// Every result of a page stems from one value cell that has an hour label
/// for its group: it carries that cell's animal, which is not the mark of an
/// empty slot, the label of the cell's group, and the day that lies as many
/// days after the start as the cell stands behind the first of its group. No
/// result is dated outside the seven days from the start.
pub proof fn lemma_results_stem_from_cells(
    start: int,
    hours: Seq<Seq<char>>,
    values: Seq<Seq<char>>,
    draw: Draw,
)
    requires
        published(
            page_draws(WeekPageView { start, rows: grouped_rows(hours, values) }),
        ).contains(draw),
    ensures
        is_published(draw),
        start <= draw.date <= start + 6,
        exists|i: int|
            0 <= i < values.len() && i / 7 < hours.len() && draw == (Draw {
                animal: #[trigger] values[i],
                hour: hours[i / 7],
                date: start + i % 7,
            }),
{
    lemma_page_draws_by_cell(start, hours, values);
    let cells = cell_draws(start, hours, values);
    let kept = published(cells);
    let k = choose|k: int| 0 <= k < kept.len() && kept[k] == draw;
    cells.lemma_filter_pred(carries_animal(), k);
    cells.lemma_filter_contains_rev(carries_animal(), draw);
}

/// Pairs hour labels with groups of seven value cells.
pub fn assemble_week_page(start: Date, hours: &Vec<String>, values: &Vec<String>) -> (page: Result<
    WeekPage,
    ParseError,
>)
    ensures
        page_view(page) == assembled(start@, texts_of(hours@), texts_of(values@)),
{
    let width: usize = if values.len() < DAYS_PER_ROW {
        values.len()
    } else {
        DAYS_PER_ROW
    };
    if hours.len() > 0 && values.len() > 0 && start.days() > LAST_DAY - (width as i32) + 1 {
        return Err(ParseError::MalformedTable);
    }
    let full: usize = values.len() / DAYS_PER_ROW;
    let groups: usize = if values.len() % DAYS_PER_ROW > 0 {
        full + 1
    } else {
        full
    };
    let count: usize = if hours.len() <= groups {
        hours.len()
    } else {
        groups
    };
    let mut rows: Vec<HourRow> = Vec::new();
    for group in 0..count
        invariant
            count == group_count(hours@.len(), values@.len()),
            7 * count <= values.len() + 6,
            width == if values.len() < 7 { values.len() } else { 7 },
            count > 0 ==> start@ + width <= LAST_DAY + 1,
            rows@.len() == group,
            forall|k: int| 0 <= k < group ==> (#[trigger] rows@[k]).animals@.len() <= width,
            forall|k: int|
                0 <= k < group ==> (#[trigger] rows@[k])@ == grouped_rows(
                    texts_of(hours@),
                    texts_of(values@),
                )[k],
    {
        let from: usize = group * 7;
        let to: usize = if values.len() - from < DAYS_PER_ROW {
            values.len()
        } else {
            from + DAYS_PER_ROW
        };
        let mut animals: Vec<String> = Vec::new();
        for j in from..to
            invariant
                from <= to <= values@.len(),
                to - from <= width,
                animals@.len() == j - from,
                forall|k: int| 0 <= k < j - from ==> (#[trigger] animals@[k])@ == values@[from + k]@,
        {
            animals.push(values[j].clone());
        }
        assert(texts_of(animals@) =~= group_of(texts_of(values@), group as int));
        rows.push(HourRow { hour: hours[group].clone(), animals });
    }
    assert(rows_of(rows@) =~= grouped_rows(texts_of(hours@), texts_of(values@)));
    Ok(WeekPage { start, rows })
}

impl WeekPage {
    /// No row is wider than a week, and every column stands for a day of the calendar.
    #[verifier::type_invariant]
    pub closed spec fn in_calendar(self) -> bool {
        forall|g: int|
            0 <= g < self.rows@.len() ==> {
                &&& (#[trigger] self.rows@[g]).animals@.len() <= 7
                &&& self.start@ + self.rows@[g].animals@.len() <= LAST_DAY + 1
            }
    }

    /// The results of the page, row after row: one for each slot that carries an animal.
    pub fn results(&self) -> (results: Vec<LotteryResult>)
        ensures
            draws_of(results@) == published(page_draws(self@)),
    {
        proof {
            use_type_invariant(self);
        }
        let mut results: Vec<LotteryResult> = Vec::new();
        let ghost by_row = draws_by_row(self@);
        for g in 0..self.rows.len()
            invariant
                self.in_calendar(),
                by_row == draws_by_row(self@),
                draws_of(results@) == published(by_row.take(g as int).flatten()),
        {
            let row = &self.rows[g];
            let ghost base = results@;
            let ghost whole = row_draws(self.start@, row@);
            for j in 0..row.animals.len()
                invariant
                    row.animals@.len() <= 7,
                    self.start@ + row.animals@.len() <= LAST_DAY + 1,
                    whole == row_draws(self.start@, row@),
                    draws_of(results@) == draws_of(base) + published(whole.take(j as int)),
            {
                let animal = &row.animals[j];
                let ghost shorter = results@;
                if !is_sentinel(animal) {
                    let date = self.start.plus_days(j as u32).unwrap();
                    results.push(
                        LotteryResult { date, hour: row.hour.clone(), animal: animal.clone() },
                    );
                    assert(draws_of(results@) =~= draws_of(shorter).push(whole[j as int]));
                }
                proof {
                    assert(whole.take(j as int + 1) =~= whole.take(j as int).push(whole[j as int]));
                    whole.take(j as int).lemma_filter_push(whole[j as int], carries_animal());
                }
            }
            proof {
                assert(whole.take(whole.len() as int) =~= whole);
                assert(by_row.take(g as int + 1) =~= by_row.take(g as int).push(by_row[g as int]));
                by_row.take(g as int).lemma_flatten_push(by_row[g as int]);
            }
        }
        assert(by_row.take(by_row.len() as int) =~= by_row);
        results
    }

    /// The first day the page covers.
    pub fn start(&self) -> (start: Date)
        ensures
            start@ == self@.start,
    {
        self.start
    }

    /// The rows of the page.
    pub fn rows(&self) -> (rows: &Vec<HourRow>)
        ensures
            rows_of(rows@) == self@.rows,
    {
        &self.rows
    }
}

} // verus!
