//! The merged results of all pages, kept by date.

use crate::date::Date;
use crate::draw::{
    carries_animal, draws_of, is_published, is_sentinel, lemma_nothing_published_of_nothing,
    published, Draw, LotteryResult,
};
use std::collections::HashMap;
use vstd::multiset::Multiset;
use vstd::prelude::*;
use vstd::std_specs::iter::IteratorSpec;

verus! {

broadcast use vstd::std_specs::hash::group_hash_axioms;

/// The results collected so far: for each date, the draws published for it.
pub struct ResultStore {
    by_date: HashMap<i32, Vec<LotteryResult>>,
    held: Ghost<Multiset<Draw>>,
}

/// How often a draw occurs among the results kept under its date.
spec fn occurrences(by_date: Map<i32, Vec<LotteryResult>>, draw: Draw) -> nat {
    if i32::MIN <= draw.date <= i32::MAX && by_date.contains_key(draw.date as i32) {
        draws_of(by_date[draw.date as i32]@).to_multiset().count(draw)
    } else {
        0
    }
}

/// Whether a date is the key of one of the first `count` entries of a walk through the store.
spec fn walked(entries: Seq<(&i32, &Vec<LotteryResult>)>, count: int, date: int) -> bool {
    exists|j: int| 0 <= j < count && *(#[trigger] entries[j]).0 == date
}

/// A draw that no result of a sequence equals does not occur in its multiset.
proof fn lemma_absent_draw(results: Seq<LotteryResult>, draw: Draw)
    requires
        forall|i: int| 0 <= i < results.len() ==> (#[trigger] results[i])@ != draw,
    ensures
        draws_of(results).to_multiset().count(draw) == 0,
{
    draws_of(results).to_multiset_ensures();
}

/// What a store holds after the results of one page were merged into it: what
/// it held before, and each draw of the page that carries an animal.
pub open spec fn merged(held: Multiset<Draw>, draws: Seq<Draw>) -> Multiset<Draw> {
    held.add(published(draws).to_multiset())
}

/// The test that keeps the draws of one day.
pub open spec fn drawn_on(day: int) -> spec_fn(Draw) -> bool {
    |draw: Draw| draw.date == day
}

impl View for ResultStore {
    type V = Multiset<Draw>;

    closed spec fn view(&self) -> Multiset<Draw> {
        self.held@
    }
}

impl ResultStore {
    /// Every result is kept under its own date, none is the mark of an empty
    /// slot, and the view counts each draw as often as the store holds it.
    pub closed spec fn wf(&self) -> bool {
        &&& forall|key: i32, i: int|
            self.by_date@.contains_key(key) && 0 <= i < self.by_date@[key]@.len() ==> {
                &&& (#[trigger] self.by_date@[key]@[i]).date@ == key
                &&& is_published(self.by_date@[key]@[i]@)
            }
        &&& forall|draw: Draw| #[trigger] self.held@.count(draw) == occurrences(self.by_date@, draw)
    }

    /// No result in a store is the mark of an empty slot.
    pub proof fn lemma_holds_no_empty_slot(&self, draw: Draw)
        requires
            self.wf(),
            self@.count(draw) > 0,
        ensures
            is_published(draw),
    {
        let bucket = self.by_date@[draw.date as i32]@;
        draws_of(bucket).to_multiset_ensures();
    }

    /// A store that holds nothing.
    pub fn new() -> (store: ResultStore)
        ensures
            store.wf(),
            store@ == Multiset::<Draw>::empty(),
    {
        ResultStore { by_date: HashMap::new(), held: Ghost(Multiset::empty()) }
    }

    /// Every result of the store, date by date; the dates come in no particular order.
    pub fn rows(&self) -> (rows: Vec<LotteryResult>)
        requires
            self.wf(),
        ensures
            draws_of(rows@).to_multiset() == self@,
    {
        let mut rows: Vec<LotteryResult> = Vec::new();
        let ghost entries = vstd::std_specs::hash::spec_hash_map_iter(&self.by_date).remaining();
        let ghost mut done: int = 0;
        proof {
            assert(draws_of(rows@) =~= Seq::<Draw>::empty());
            Seq::<Draw>::empty().to_multiset_ensures();
        }
        for entry in it: self.by_date.iter()
            invariant
                self.wf(),
                it.seq() == entries,
                entries.no_duplicates(),
                done == it.index(),
                forall|draw: Draw| #[trigger]
                    draws_of(rows@).to_multiset().count(draw) == if walked(
                        entries,
                        done,
                        draw.date,
                    ) {
                        occurrences(self.by_date@, draw)
                    } else {
                        0
                    },
        {
            let bucket: &Vec<LotteryResult> = entry.1;
            let ghost key: i32 = *entry.0;
            let ghost earlier = rows@;
            assert(self.by_date@.contains_key(key) && self.by_date@[key] == *bucket);
            for i in 0..bucket.len()
                invariant
                    draws_of(rows@) == draws_of(earlier) + draws_of(bucket@.take(i as int)),
            {
                let ghost shorter = rows@;
                rows.push(bucket[i].clone());
                assert(draws_of(rows@) =~= draws_of(shorter).push(bucket@[i as int]@));
            }
            proof {
                assert(bucket@.take(bucket@.len() as int) =~= bucket@);
                vstd::seq_lib::lemma_multiset_commutative(draws_of(earlier), draws_of(bucket@));
                assert forall|draw: Draw| #[trigger]
                    draws_of(rows@).to_multiset().count(draw) == if walked(
                        entries,
                        done + 1,
                        draw.date,
                    ) {
                        occurrences(self.by_date@, draw)
                    } else {
                        0
                    } by {
                    if draw.date != key {
                        lemma_absent_draw(bucket@, draw);
                    }
                }
                done = done + 1;
            }
        }
        rows
    }

    /// The results kept for a date.
    pub fn results_on(&self, date: Date) -> (results: Vec<LotteryResult>)
        requires
            self.wf(),
        ensures
            draws_of(results@).to_multiset() == self@.filter(drawn_on(date@)),
    {
        let key: i32 = date.days();
        let mut results: Vec<LotteryResult> = Vec::new();
        match self.by_date.get(&key) {
            Some(bucket) => {
                for i in 0..bucket.len()
                    invariant
                        results@.len() == i,
                        forall|k: int| 0 <= k < i ==> (#[trigger] results@[k])@ == bucket@[k]@,
                {
                    results.push(bucket[i].clone());
                }
                assert(draws_of(results@) =~= draws_of(bucket@));
            },
            None => {},
        }
        proof {
            assert forall|draw: Draw| #[trigger]
                draws_of(results@).to_multiset().count(draw) == self@.filter(
                    drawn_on(date@),
                ).count(draw) by {
                if draw.date != key || !self.by_date@.contains_key(key) {
                    lemma_absent_draw(results@, draw);
                }
            }
        }
        results
    }

    /// Merges the results of one page: each is kept under its date, but for
    /// the marks of empty slots.
    pub fn merge(&mut self, results: Vec<LotteryResult>)
        requires
            old(self).wf(),
        ensures
            final(self).wf(),
            final(self)@ == merged(old(self)@, draws_of(results@)),
    {
        let ghost all = draws_of(results@);
        proof {
            lemma_nothing_published_of_nothing();
            assert(all.take(0) =~= Seq::<Draw>::empty());
            Seq::<Draw>::empty().to_multiset_ensures();
        }
        for result in it: results
            invariant
                self.wf(),
                draws_of(it.seq()) == all,
                self@ == merged(old(self)@, all.take(it.index())),
        {
            let ghost position = it.index();
            self.insert(result);
            proof {
                assert(all.take(position + 1) =~= all.take(position).push(all[position]));
                all.take(position).lemma_filter_push(all[position], carries_animal());
                published(all.take(position)).to_multiset_ensures();
            }
        }
        assert(all.take(all.len() as int) =~= all);
    }

    /// Keeps a result under its date, unless it is the mark of an empty slot.
    pub fn insert(&mut self, result: LotteryResult) -> (stored: bool)
        requires
            old(self).wf(),
        ensures
            final(self).wf(),
            stored == is_published(result@),
            final(self)@ == if stored { old(self)@.insert(result@) } else { old(self)@ },
    {
        if is_sentinel(&result.animal) {
            return false;
        }
        let key: i32 = result.date.days();
        let ghost kept = result;
        let ghost before = self.by_date@;
        let bucket = self.by_date.entry(key).or_insert(Vec::new());
        bucket.push(result);
        proof {
            let earlier: Seq<LotteryResult> = if before.contains_key(key) {
                before[key]@
            } else {
                Seq::empty()
            };
            let after = self.by_date@;
            assert(draws_of(earlier.push(kept)) =~= draws_of(earlier).push(kept@));
            vstd::seq_lib::to_multiset_build(draws_of(earlier), kept@);
            self.held@ = self.held@.insert(kept@);
            assert forall|draw: Draw| #[trigger]
                self.held@.count(draw) == occurrences(after, draw) by {
                if draw.date == key {
                    if !before.contains_key(key) {
                        assert(draws_of(earlier) =~= Seq::<Draw>::empty());
                        Seq::<Draw>::empty().to_multiset_ensures();
                    }
                }
            }
        }
        true
    }
}

/// Two pages can be merged in either order: the store then holds the same
/// draws, and as many as it held before and the two pages published together.
pub proof fn lemma_merge_order_is_free(held: Multiset<Draw>, first: Seq<Draw>, second: Seq<Draw>)
    ensures
        merged(merged(held, first), second) == merged(merged(held, second), first),
        merged(merged(held, first), second).len() == held.len() + published(first).len()
            + published(second).len(),
{
    published(first).to_multiset_ensures();
    published(second).to_multiset_ensures();
}

/// Merging a page adds its published draws and loses none: each draw then
/// occurs as often as it did before and among the page's published draws together.
pub proof fn lemma_merge_adds_counts(held: Multiset<Draw>, page: Seq<Draw>, draw: Draw)
    ensures
        merged(held, page).count(draw) == held.count(draw) + published(page).to_multiset().count(
            draw,
        ),
        merged(held, page).len() == held.len() + published(page).len(),
        !is_published(draw) ==> merged(held, page).count(draw) == held.count(draw),
{
    published(page).to_multiset_ensures();
    if !is_published(draw) && published(page).contains(draw) {
        let k = choose|k: int| 0 <= k < published(page).len() && published(page)[k] == draw;
        page.lemma_filter_pred(carries_animal(), k);
    }
}

} // verus!
