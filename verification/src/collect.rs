//! Gathering the pages of all periods into one store. The pages are fetched
//! elsewhere; each outcome is handed over when its fetch has ended, in any
//! order, and a failure costs only the failed period's results.

use crate::date::Date;
use crate::draw::{draws_of, published, Draw, LotteryResult};
use crate::error::{FetchError, ParseError, TaskError};
use crate::page::{get_the_lottery_week_results, page_week, week_results_from};
use crate::store::{merged, ResultStore};
use vstd::multiset::Multiset;
use vstd::prelude::*;

verus! {

/// What one period's work gave: the draws of its page, empty slots included
/// or not, or the reason why there are none.
pub type Outcome = Result<Seq<Draw>, TaskError>;

/// What the fetch of one period's page gave.
#[derive(Debug, PartialEq, Eq)]
pub struct Fetch {
    pub period: Date,
    pub page: Result<String, FetchError>,
}

/// The mathematical value of a `Fetch`: the period's start day and what its page gives.
pub open spec fn task_of(fetch: Fetch) -> (int, Outcome) {
    (fetch.period@, outcome_of_fetch(fetched_view(fetch.page)))
}

/// The values of a sequence of fetches, in the same order.
pub open spec fn tasks_of(fetches: Seq<Fetch>) -> Seq<(int, Outcome)> {
    fetches.map_values(|fetch: Fetch| task_of(fetch))
}

/// A period that contributed nothing, and why.
#[derive(Clone, Copy, Debug, PartialEq, Eq)]
pub struct Failure {
    pub period: Date,
    pub error: TaskError,
}

/// The mathematical value of a `Failure`: the period's start day and the error.
pub open spec fn failure_view(failure: Failure) -> (int, TaskError) {
    (failure.period@, failure.error)
}

/// The values of a sequence of failures, in the same order.
pub open spec fn failures_of(failures: Seq<Failure>) -> Seq<(int, TaskError)> {
    failures.map_values(|failure: Failure| failure_view(failure))
}

/// Whether a status code tells of success.
pub open spec fn is_success(status: u16) -> bool {
    200 <= status <= 299
}

/// The page content that a response carries, or the error that its status tells.
pub fn accept_response(status: u16, body: String) -> (content: Result<String, FetchError>)
    ensures
        is_success(status) ==> content == Ok::<String, FetchError>(body),
        !is_success(status) ==> content == Err::<String, FetchError>(FetchError::Status(status)),
{
    if 200 <= status && status <= 299 {
        Ok(body)
    } else {
        Err(FetchError::Status(status))
    }
}

/// What a fetched page gives: its results, or the reason why it has none.
pub open spec fn outcome_of_page(page: Result<Seq<Draw>, ParseError>) -> Outcome {
    match page {
        Ok(draws) => Ok(draws),
        Err(error) => Err(TaskError::Parse(error)),
    }
}

/// What one period's fetch gives once its page is parsed.
pub open spec fn outcome_of_fetch(fetched: Result<Seq<char>, FetchError>) -> Outcome {
    match fetched {
        Ok(content) => outcome_of_page(week_results_from(page_week(content))),
        Err(error) => Err(TaskError::Fetch(error)),
    }
}

/// The characters of a page that may have failed to arrive.
pub open spec fn fetched_view(fetched: Result<String, FetchError>) -> Result<Seq<char>, FetchError> {
    match fetched {
        Ok(content) => Ok(content@),
        Err(error) => Err(error),
    }
}

/// The value of a period's results that may be missing.
pub open spec fn outcome_view(outcome: Result<Vec<LotteryResult>, TaskError>) -> Outcome {
    match outcome {
        Ok(results) => Ok(draws_of(results@)),
        Err(error) => Err(error),
    }
}

/// The draws that an outcome adds to a store: the published draws of a page,
/// nothing for a failure.
pub open spec fn contribution(outcome: Outcome) -> Multiset<Draw> {
    match outcome {
        Ok(draws) => published(draws).to_multiset(),
        Err(_) => Multiset::empty(),
    }
}

/// What a store holds after a sequence of outcomes was taken in.
pub open spec fn collected(held: Multiset<Draw>, outcomes: Seq<Outcome>) -> Multiset<Draw>
    decreases outcomes.len(),
{
    if outcomes.len() == 0 {
        held
    } else {
        collected(held, outcomes.drop_last()).add(contribution(outcomes.last()))
    }
}

/// The failures among the outcomes of a sequence of periods, each with its
/// period's start day, in the order of the sequence.
pub open spec fn failures_among(tasks: Seq<(int, Outcome)>) -> Seq<(int, TaskError)>
    decreases tasks.len(),
{
    if tasks.len() == 0 {
        Seq::empty()
    } else {
        let before = failures_among(tasks.drop_last());
        match tasks.last().1 {
            Ok(_) => before,
            Err(error) => before.push((tasks.last().0, error)),
        }
    }
}

/// The outcomes of a sequence of periods.
pub open spec fn outcomes_of(tasks: Seq<(int, Outcome)>) -> Seq<Outcome> {
    tasks.map_values(|task: (int, Outcome)| task.1)
}

/// The number of draws that a sequence of outcomes publishes.
pub open spec fn published_count(outcomes: Seq<Outcome>) -> nat
    decreases outcomes.len(),
{
    if outcomes.len() == 0 {
        0
    } else {
        published_count(outcomes.drop_last()) + contribution(outcomes.last()).len()
    }
}

/// Taking in a sequence of outcomes amounts to taking in all but one of them
/// and then that one.
proof fn lemma_collected_apart(held: Multiset<Draw>, outcomes: Seq<Outcome>, i: int)
    requires
        0 <= i < outcomes.len(),
    ensures
        collected(held, outcomes) == collected(held, outcomes.remove(i)).add(
            contribution(outcomes[i]),
        ),
    decreases outcomes.len(),
{
    if i < outcomes.len() - 1 {
        let front = outcomes.drop_last();
        lemma_collected_apart(held, front, i);
        assert(outcomes.remove(i).drop_last() =~= front.remove(i));
    }
}

/// The store does not depend on the order in which the periods end: two
/// sequences that hold the same outcomes, each as often as the other, leave
/// the same draws in the store.
pub proof fn lemma_collected_in_any_order(
    held: Multiset<Draw>,
    one: Seq<Outcome>,
    other: Seq<Outcome>,
)
    requires
        one.to_multiset() == other.to_multiset(),
    ensures
        collected(held, one) == collected(held, other),
    decreases one.len(),
{
    one.to_multiset_ensures();
    other.to_multiset_ensures();
    if one.len() > 0 {
        let last = one.last();
        assert(one.to_multiset().count(last) > 0);
        let j = choose|j: int| 0 <= j < other.len() && other[j] == last;
        vstd::seq_lib::to_multiset_remove(one, one.len() - 1);
        lemma_collected_in_any_order(held, one.drop_last(), other.remove(j));
        lemma_collected_apart(held, other, j);
    }
}

/// A failed period costs nothing but its own results: the store is the one
/// that the other outcomes alone would have left.
pub proof fn lemma_failure_costs_nothing(held: Multiset<Draw>, outcomes: Seq<Outcome>, i: int)
    requires
        0 <= i < outcomes.len(),
        outcomes[i] is Err,
    ensures
        collected(held, outcomes) == collected(held, outcomes.remove(i)),
{
    lemma_collected_apart(held, outcomes, i);
}

/// The results of a period that succeeded are in the store, whatever became
/// of the other periods: each of its published draws occurs there at least as
/// often as the period published it.
pub proof fn lemma_success_is_kept(held: Multiset<Draw>, outcomes: Seq<Outcome>, i: int)
    requires
        0 <= i < outcomes.len(),
        outcomes[i] is Ok,
    ensures
        published(outcomes[i]->Ok_0).to_multiset().subset_of(collected(held, outcomes)),
{
    lemma_collected_apart(held, outcomes, i);
}

/// The store grows by what the periods published, and by nothing else: it
/// holds as many draws as it held before and the outcomes published together.
pub proof fn lemma_collected_size(held: Multiset<Draw>, outcomes: Seq<Outcome>)
    ensures
        collected(held, outcomes).len() == held.len() + published_count(outcomes),
    decreases outcomes.len(),
{
    if outcomes.len() > 0 {
        lemma_collected_size(held, outcomes.drop_last());
    }
}

/// Parses what a period's fetch gave.
pub fn task_outcome(fetched: Result<String, FetchError>) -> (outcome: Result<
    Vec<LotteryResult>,
    TaskError,
>)
    ensures
        outcome_view(outcome) == outcome_of_fetch(fetched_view(fetched)),
{
    match fetched {
        Ok(content) => match get_the_lottery_week_results(content.as_str()) {
            Ok(results) => Ok(results),
            Err(error) => Err(TaskError::Parse(error)),
        },
        Err(error) => Err(TaskError::Fetch(error)),
    }
}

/// The store under construction and the failures met so far.
pub struct Collector {
    store: ResultStore,
    failures: Vec<Failure>,
}

impl Collector {
    /// The store is consistent.
    pub closed spec fn wf(&self) -> bool {
        self.store.wf()
    }

    /// The draws gathered so far.
    pub closed spec fn held(&self) -> Multiset<Draw> {
        self.store@
    }

    /// The failures met so far, in the order in which they were handed over.
    pub closed spec fn failed(&self) -> Seq<(int, TaskError)> {
        failures_of(self.failures@)
    }

    /// A collector that has gathered nothing.
    pub fn new() -> (collector: Collector)
        ensures
            collector.wf(),
            collector.held() == Multiset::<Draw>::empty(),
            collector.failed() == Seq::<(int, TaskError)>::empty(),
    {
        Collector { store: ResultStore::new(), failures: Vec::new() }
    }

    /// Takes in what one period's work gave: results are merged into the
    /// store, a failure is noted and leaves the store as it was.
    pub fn take_outcome(&mut self, period: Date, outcome: Result<Vec<LotteryResult>, TaskError>)
        requires
            old(self).wf(),
        ensures
            final(self).wf(),
            final(self).held() == old(self).held().add(contribution(outcome_view(outcome))),
            final(self).failed() == match outcome {
                Ok(_) => old(self).failed(),
                Err(error) => old(self).failed().push((period@, error)),
            },
    {
        match outcome {
            Ok(results) => {
                self.store.merge(results);
            },
            Err(error) => {
                self.failures.push(Failure { period, error });
            },
        }
    }

    /// Takes in what one period's fetch gave: the page is parsed and its
    /// results are merged, or the failure is noted.
    pub fn take_page(&mut self, period: Date, fetched: Result<String, FetchError>)
        requires
            old(self).wf(),
        ensures
            final(self).wf(),
            final(self).held() == old(self).held().add(
                contribution(outcome_of_fetch(fetched_view(fetched))),
            ),
            final(self).failed() == match outcome_of_fetch(fetched_view(fetched)) {
                Ok(_) => old(self).failed(),
                Err(error) => old(self).failed().push((period@, error)),
            },
    {
        let outcome = task_outcome(fetched);
        self.take_outcome(period, outcome)
    }

    /// The number of periods that failed.
    pub fn failed_count(&self) -> (count: usize)
        ensures
            count == self.failed().len(),
    {
        self.failures.len()
    }

    /// Ends the collection: the store and the failures.
    pub fn finish(self) -> (parts: (ResultStore, Vec<Failure>))
        requires
            self.wf(),
        ensures
            parts.0.wf(),
            parts.0@ == self.held(),
            failures_of(parts.1@) == self.failed(),
    {
        (self.store, self.failures)
    }
}

/// Gathers the pages of all periods, once every fetch has ended: each page
/// that arrived and parses gives its results to the store, each other period
/// is noted as failed.
pub fn collect(fetches: Vec<Fetch>) -> (collector: Collector)
    ensures
        collector.wf(),
        collector.held() == collected(Multiset::<Draw>::empty(), outcomes_of(tasks_of(fetches@))),
        collector.failed() == failures_among(tasks_of(fetches@)),
{
    let mut collector = Collector::new();
    let ghost tasks = tasks_of(fetches@);
    for fetch in it: fetches
        invariant
            collector.wf(),
            tasks == tasks_of(fetches@),
            tasks_of(it.seq()) == tasks,
            collector.held() == collected(
                Multiset::<Draw>::empty(),
                outcomes_of(tasks.take(it.index())),
            ),
            collector.failed() == failures_among(tasks.take(it.index())),
    {
        let ghost position = it.index();
        proof {
            assert(tasks.take(position + 1).drop_last() =~= tasks.take(position));
            assert(outcomes_of(tasks.take(position + 1)).drop_last() =~= outcomes_of(
                tasks.take(position),
            ));
        }
        collector.take_page(fetch.period, fetch.page);
    }
    assert(tasks.take(tasks.len() as int) =~= tasks);
    collector
}

} // verus!
