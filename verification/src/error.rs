//! The failures of one period's work.

use vstd::prelude::*;

verus! {

/// Why a page could not be read as a week of results.
#[derive(Clone, Copy, Debug, PartialEq, Eq, Structural)]
pub enum ParseError {
    /// The header holds no start date, or one that does not read as day/month/year.
    MissingStartDate,
    /// The rows cannot be selected, or a row has no text to serve as its hour label.
    MissingHourLabels,
    /// The value cells cannot be selected, a cell has no text, or a column
    /// stands for a day after the last day of the calendar.
    MalformedTable,
}

/// Why a page could not be fetched.
#[derive(Clone, Copy, Debug, PartialEq, Eq, Structural)]
pub enum FetchError {
    /// The transport failed before a complete response arrived.
    Transport,
    /// The server answered with a status outside 200..=299.
    Status(u16),
}

/// Why one period contributed nothing.
#[derive(Clone, Copy, Debug, PartialEq, Eq, Structural)]
pub enum TaskError {
    /// The page did not arrive.
    Fetch(FetchError),
    /// The page arrived and could not be read.
    Parse(ParseError),
}

} // verus!
