//! One published draw: the animal drawn at an hour of a day.

use crate::date::Date;
use vstd::prelude::*;

verus! {

/// The mark a page shows where no draw was published for a slot.
pub const SENTINEL: &'static str = "-";

/// One observed draw outcome.
#[derive(Debug, PartialEq, Eq)]
pub struct LotteryResult {
    pub date: Date,
    pub hour: String,
    pub animal: String,
}

/// The mathematical value of a `LotteryResult`: animal, hour label and day number.
pub struct Draw {
    pub animal: Seq<char>,
    pub hour: Seq<char>,
    pub date: int,
}

impl View for LotteryResult {
    type V = Draw;

    open spec fn view(&self) -> Draw {
        Draw { animal: self.animal@, hour: self.hour@, date: self.date@ }
    }
}

impl Clone for LotteryResult {
    fn clone(&self) -> (copy: Self)
        ensures
            copy@ == self@,
    {
        LotteryResult { date: self.date, hour: self.hour.clone(), animal: self.animal.clone() }
    }
}

/// The values of a sequence of results, in the same order.
pub open spec fn draws_of(results: Seq<LotteryResult>) -> Seq<Draw> {
    results.map_values(|r: LotteryResult| r@)
}

/// Whether a draw carries an animal, and not the mark of an empty slot.
pub open spec fn is_published(draw: Draw) -> bool {
    draw.animal != SENTINEL@
}

/// The test that keeps the draws that carry an animal.
pub open spec fn carries_animal() -> spec_fn(Draw) -> bool {
    |draw: Draw| is_published(draw)
}

/// The draws of a sequence that carry an animal, in the same order.
pub open spec fn published(draws: Seq<Draw>) -> Seq<Draw> {
    draws.filter(carries_animal())
}

/// Of no draws, none is published.
pub proof fn lemma_nothing_published_of_nothing()
    ensures
        published(Seq::<Draw>::empty()) == Seq::<Draw>::empty(),
{
    reveal(Seq::filter);
}

/// Whether a text is the mark of an empty slot.
pub fn is_sentinel(text: &String) -> (empty: bool)
    ensures
        empty == (text@ == SENTINEL@),
{
    let mark = String::from_str(SENTINEL);
    *text == mark
}

} // verus!
