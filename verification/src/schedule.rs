//! The seven-day periods between two dates, and the address of each period's page.

use crate::date::{formatted_day, Date, PATH_PATTERN};
use vstd::prelude::*;

verus! {

/// The site that publishes the results.
pub const DEFAULT_HOST: &'static str = "www.tuazar.com";

/// The number of periods that start on or before `end` when the first starts
/// on `start` and each starts seven days after the one before.
pub open spec fn period_count(start: int, end: int) -> nat {
    if start <= end {
        ((end - start) / 7 + 1) as nat
    } else {
        0
    }
}

/// The days on which the periods start.
pub open spec fn period_starts(start: int, end: int) -> Seq<int> {
    Seq::new(period_count(start, end), |k: int| start + 7 * k)
}

/// The day numbers of a sequence of dates.
pub open spec fn days_of(dates: Seq<Date>) -> Seq<int> {
    dates.map_values(|date: Date| date@)
}

/// The part of a sequence of period starts that one wave of work covers: the
/// starts from position `first` on, at most `bound` of them.
pub open spec fn wave_of(starts: Seq<int>, first: nat, bound: nat) -> Seq<int> {
    let from = if first <= starts.len() {
        first
    } else {
        starts.len()
    };
    let to = if first + bound <= starts.len() {
        first + bound
    } else {
        starts.len()
    };
    starts.subrange(from as int, to as int)
}

/// The address of a period's page on a host, given the period's start date as a path.
pub open spec fn url_text(host: Seq<char>, date_path: Seq<char>) -> Seq<char> {
    "https://"@ + host + "/loteria/animalitos/resultados/"@ + date_path + "/"@
}

/// The periods of a date range, both ends included: the range can be walked
/// by position any number of times.
#[derive(Clone, Copy, Debug, PartialEq, Eq)]
pub struct DateRangeScheduler {
    pub start: Date,
    pub end: Date,
}

impl DateRangeScheduler {
    /// The scheduler of the periods from `start` to `end`.
    pub fn new(start: Date, end: Date) -> (scheduler: DateRangeScheduler)
        ensures
            scheduler.start == start,
            scheduler.end == end,
    {
        DateRangeScheduler { start, end }
    }

    /// The number of periods: none where the range is empty, else one more
    /// than the number of whole weeks between the two dates.
    pub fn count(&self) -> (count: usize)
        ensures
            count == period_count(self.start@, self.end@),
            self.start@ > self.end@ ==> count == 0,
            self.start@ <= self.end@ ==> count == (self.end@ - self.start@) / 7 + 1,
    {
        let first: i32 = self.start.days();
        let last: i32 = self.end.days();
        if first > last {
            0
        } else {
            ((last - first) / 7 + 1) as usize
        }
    }

    /// The start of the period at a position, counted from zero.
    pub fn period(&self, index: usize) -> (period: Option<Date>)
        ensures
            period is Some <==> index < period_count(self.start@, self.end@),
            period is Some ==> period->0@ == self.start@ + 7 * index,
            period is Some ==> period->0@ <= self.end@,
    {
        let first: i32 = self.start.days();
        let last: i32 = self.end.days();
        if first <= last && index <= ((last - first) / 7) as usize {
            self.start.plus_days((index * 7) as u32)
        } else {
            None
        }
    }

    /// The starts of the periods of one wave of work: those from position
    /// `first` on, at most `bound` of them, so that no more than `bound`
    /// pages are asked for at a time.
    pub fn wave(&self, first: usize, bound: usize) -> (wave: Vec<Date>)
        ensures
            days_of(wave@) == wave_of(
                period_starts(self.start@, self.end@),
                first as nat,
                bound as nat,
            ),
            wave@.len() <= bound,
    {
        let count: usize = self.count();
        let mut wave: Vec<Date> = Vec::new();
        if first >= count {
            return wave;
        }
        let to: usize = if bound < count - first {
            first + bound
        } else {
            count
        };
        for index in first..to
            invariant
                first <= to <= count,
                count == period_count(self.start@, self.end@),
                wave@.len() == index - first,
                forall|k: int|
                    0 <= k < index - first ==> (#[trigger] wave@[k])@ == self.start@ + 7 * (first
                        + k),
        {
            match self.period(index) {
                Some(period) => wave.push(period),
                None => {},
            }
        }
        wave
    }

    /// The starts of all periods, in order.
    pub fn periods(&self) -> (periods: Vec<Date>)
        ensures
            days_of(periods@) == period_starts(self.start@, self.end@),
            self.start@ > self.end@ ==> periods@.len() == 0,
            self.start@ <= self.end@ ==> periods@.len() == (self.end@ - self.start@) / 7 + 1,
            forall|k: int|
                0 <= k < periods@.len() ==> (#[trigger] periods@[k])@ == self.start@ + 7 * k,
    {
        let count: usize = self.count();
        let mut periods: Vec<Date> = Vec::new();
        for index in 0..count
            invariant
                count == period_count(self.start@, self.end@),
                periods@.len() == index,
                forall|k: int|
                    0 <= k < index ==> (#[trigger] periods@[k])@ == self.start@ + 7 * k,
        {
            match self.period(index) {
                Some(period) => periods.push(period),
                None => {},
            }
        }
        periods
    }
}

/// In a range that is not empty the periods number one more than the whole
/// weeks between the two dates; the first starts on the start date, each
/// later one seven days after the one before, none after the end date, and
/// seven days after the last the end date has passed.
pub proof fn lemma_periods_step_by_week(start: int, end: int)
    requires
        start <= end,
    ensures
        period_starts(start, end).len() == (end - start) / 7 + 1,
        period_starts(start, end)[0] == start,
        forall|k: int|
            0 <= k < period_starts(start, end).len() - 1 ==> #[trigger] period_starts(start, end)[k
                + 1] == period_starts(start, end)[k] + 7,
        forall|k: int|
            0 <= k < period_starts(start, end).len() ==> #[trigger] period_starts(start, end)[k]
                <= end,
        period_starts(start, end).last() + 7 > end,
{
}

/// An empty range has no period.
pub proof fn lemma_no_period_in_empty_range(start: int, end: int)
    requires
        start > end,
    ensures
        period_starts(start, end).len() == 0,
{
}

/// The address of the page of the period that starts on a date.
pub fn period_url(host: &str, period: Date) -> (url: String)
    ensures
        url@ == url_text(host@, formatted_day(period@, PATH_PATTERN@)),
{
    let mut url = String::from_str("https://");
    url.append(host);
    url.append("/loteria/animalitos/resultados/");
    let path = period.to_path_string();
    url.append(path.as_str());
    url.append("/");
    url
}

} // verus!
