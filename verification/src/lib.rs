//! Weekly lottery-result collection: scheduling of seven-day periods, parsing
//! of result pages, merging of the parsed draws and their tabular output.

pub mod collect;
pub mod date;
pub mod draw;
pub mod error;
pub mod markup;
pub mod page;
pub mod schedule;
pub mod sink;
pub mod store;
pub mod week;
