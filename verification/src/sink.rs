//! The output table: a header line, then one line of animal, hour and date
//! for each result.

use crate::date::{formatted_day, ISO_PATTERN};
use crate::draw::{draws_of, Draw, LotteryResult};
use crate::markup::texts_of;
use crate::store::ResultStore;
use vstd::prelude::*;

verus! {

/// The line that `csv::Writer`, as `Writer::from_writer` sets it up, writes
/// for a record of the given fields; `None` where it refuses the record.
pub uninterp spec fn csv_record(fields: Seq<Seq<char>>) -> Option<Seq<u8>>;

/// The bytes of a line that may be missing.
pub open spec fn bytes_view(bytes: Option<Vec<u8>>) -> Option<Seq<u8>> {
    match bytes {
        Some(line) => Some(line@),
        None => None,
    }
}

/// Writes one record with `csv::Writer::write_record` into a writer that
/// `csv::Writer::from_writer` has set up over an empty buffer, and takes the
/// buffer back with `csv::Writer::into_inner`. Trusted: the result is
/// `csv_record` of the fields, `None` where one of the two calls fails.
#[verifier::external_body]
fn write_record(fields: &Vec<String>) -> (line: Option<Vec<u8>>)
    ensures
        bytes_view(line) == csv_record(texts_of(fields@)),
{
    let mut writer = csv::Writer::from_writer(Vec::new());
    match writer.write_record(fields) {
        Ok(()) => writer.into_inner().ok(),
        Err(_) => None,
    }
}

/// The fields of the header line.
pub open spec fn header_fields() -> Seq<Seq<char>> {
    seq!["animal"@, "hour"@, "date"@]
}

/// The fields of a result's line: the animal, the hour label, and the date as
/// year, month and day with hyphens.
pub open spec fn row_fields(draw: Draw) -> Seq<Seq<char>> {
    seq![draw.animal, draw.hour, formatted_day(draw.date, ISO_PATTERN@)]
}

/// The records of the table of a sequence of results: the header, then the results in order.
pub open spec fn table_records(rows: Seq<Draw>) -> Seq<Seq<Seq<char>>> {
    seq![header_fields()] + rows.map_values(|draw: Draw| row_fields(draw))
}

/// The lines of a sequence of records, one after the other; `None` where a
/// record is refused.
pub open spec fn csv_lines(records: Seq<Seq<Seq<char>>>) -> Option<Seq<u8>>
    decreases records.len(),
{
    if records.len() == 0 {
        Some(Seq::empty())
    } else {
        match (csv_lines(records.drop_last()), csv_record(records.last())) {
            (Some(before), Some(line)) => Some(before + line),
            _ => None,
        }
    }
}

/// The table of a sequence of results.
pub open spec fn csv_table(rows: Seq<Draw>) -> Option<Seq<u8>> {
    csv_lines(table_records(rows))
}

/// The three fields of a result's line.
fn fields_of(result: &LotteryResult) -> (fields: Vec<String>)
    ensures
        texts_of(fields@) == row_fields(result@),
{
    let mut fields: Vec<String> = Vec::new();
    fields.push(result.animal.clone());
    fields.push(result.hour.clone());
    fields.push(result.date.to_iso_string());
    fields
}

/// The three fields of the header line.
fn header() -> (fields: Vec<String>)
    ensures
        texts_of(fields@) == header_fields(),
{
    let mut fields: Vec<String> = Vec::new();
    fields.push(String::from_str("animal"));
    fields.push(String::from_str("hour"));
    fields.push(String::from_str("date"));
    fields
}

/// Writes the table of a sequence of results, in their order.
pub fn render_rows(rows: &Vec<LotteryResult>) -> (table: Option<Vec<u8>>)
    ensures
        bytes_view(table) == csv_table(draws_of(rows@)),
{
    let ghost records = table_records(draws_of(rows@));
    let mut table: Vec<u8> = match write_record(&header()) {
        Some(line) => line,
        None => {
            proof {
                lemma_refused_record(records, 0);
            }
            return None;
        },
    };
    proof {
        assert(csv_lines(records.take(1).drop_last()) == Some(Seq::<u8>::empty()));
    }
    for i in 0..rows.len()
        invariant
            records == table_records(draws_of(rows@)),
            csv_lines(records.take(i as int + 1)) == Some(table@),
    {
        let fields = fields_of(&rows[i]);
        assert(records.take(i as int + 2).drop_last() =~= records.take(i as int + 1));
        match write_record(&fields) {
            Some(mut line) => {
                table.append(&mut line);
            },
            None => {
                proof {
                    lemma_refused_record(records, i as int + 1);
                }
                return None;
            },
        }
    }
    assert(records.take(rows@.len() as int + 1) =~= records);
    Some(table)
}

/// A table with a refused record has no lines.
proof fn lemma_refused_record(records: Seq<Seq<Seq<char>>>, i: int)
    requires
        0 <= i < records.len(),
        csv_record(records[i]) is None,
    ensures
        csv_lines(records) is None,
    decreases records.len(),
{
    if i < records.len() - 1 {
        lemma_refused_record(records.drop_last(), i);
    }
}

/// Writes the table of a store: one line for each result it holds; the dates
/// come in no particular order.
pub fn render_store(store: &ResultStore) -> (table: Option<Vec<u8>>)
    requires
        store.wf(),
    ensures
        exists|rows: Seq<Draw>|
            rows.to_multiset() == store@ && bytes_view(table) == #[trigger] csv_table(rows),
{
    let rows = store.rows();
    render_rows(&rows)
}

} // verus!
