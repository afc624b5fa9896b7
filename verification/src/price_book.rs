//! The prices that feeders have submitted, and their aggregate per currency pair.

use vstd::prelude::*;

use crate::host::{holds_prices, new_prices, price_items, push_price};
use crate::median::{law_median_within_bounds, median};
use crate::types::{Address, Key, Symbol};

verus! {

/// Age in seconds beyond which a price is stale.
pub const MAX_STALENESS_SECS: u64 = 3600;

/// A price and the time it dates from.
#[derive(Clone, Copy, Debug, PartialEq, Eq)]
pub struct PriceData {
    /// `quote` units per unit of `base`, scaled by ten million.
    pub price: i128,
    /// Ledger time in seconds.
    pub timestamp: u64,
}

/// The latest price of one feeder for one currency pair.
#[derive(Clone, Copy, Debug, PartialEq, Eq)]
pub struct Submission {
    pub base: Symbol,
    pub quote: Symbol,
    pub feeder: Address,
    pub data: PriceData,
}

impl Submission {
    /// Whether the submission is for the pair `base`/`quote`.
    pub open spec fn is_for(self, base: Symbol, quote: Symbol) -> bool {
        self.base == base && self.quote == quote
    }

    /// Whether the submission comes from `feeder`, for the pair `base`/`quote`.
    pub open spec fn is_from(self, base: Symbol, quote: Symbol, feeder: Address) -> bool {
        self.is_for(base, quote) && self.feeder == feeder
    }

    /// Whether the submission is young enough to count at time `now`.
    pub open spec fn is_fresh(self, now: u64) -> bool {
        now - self.data.timestamp <= MAX_STALENESS_SECS
    }
}

/// Whether `feeder` has submitted a price for the pair.
pub open spec fn has_submitted(
    book: Seq<Submission>,
    base: Symbol,
    quote: Symbol,
    feeder: Address,
) -> bool {
    exists|i: int| 0 <= i < book.len() && (#[trigger] book[i]).is_from(base, quote, feeder)
}

/// The book once `s` is recorded: in place of the feeder's earlier price for
/// the pair, or at the end if there is none.
pub open spec fn recorded(book: Seq<Submission>, s: Submission) -> Seq<Submission> {
    if has_submitted(book, s.base, s.quote, s.feeder) {
        book.map_values(|b: Submission| if b.is_from(s.base, s.quote, s.feeder) { s } else { b })
    } else {
        book.push(s)
    }
}

/// The submissions for the pair that are fresh at time `now`, oldest feeder first.
pub open spec fn fresh(book: Seq<Submission>, now: u64, base: Symbol, quote: Symbol) -> Seq<
    Submission,
> {
    book.filter(|s: Submission| s.is_for(base, quote) && s.is_fresh(now))
}

/// The prices of the submissions.
pub open spec fn prices_of(subs: Seq<Submission>) -> Seq<i128> {
    subs.map_values(|s: Submission| s.data.price)
}

/// The smallest timestamp among the submissions.
pub open spec fn oldest_timestamp(subs: Seq<Submission>) -> u64
    decreases subs.len(),
{
    if subs.len() == 0 {
        u64::MAX
    } else {
        let rest = oldest_timestamp(subs.drop_last());
        let last = subs.last().data.timestamp;
        if last < rest {
            last
        } else {
            rest
        }
    }
}

/// The median of the fresh prices for the pair with the oldest of their
/// timestamps, if there is any fresh price.
pub open spec fn aggregate(book: Seq<Submission>, now: u64, base: Symbol, quote: Symbol) -> Option<
    PriceData,
> {
    let subs = fresh(book, now, base, quote);
    if subs.len() == 0 {
        None
    } else {
        Some(
            PriceData {
                price: median(prices_of(subs)) as i128,
                timestamp: oldest_timestamp(subs),
            },
        )
    }
}

/// Whether a book can be the state of an oracle: every price is positive, and
/// a feeder has one price per pair.
pub open spec fn valid_book(book: Seq<Submission>) -> bool {
    &&& forall|i: int| 0 <= i < book.len() ==> (#[trigger] book[i]).data.price > 0
    &&& forall|i: int, j: int|
        0 <= i < j < book.len() ==> !(#[trigger] book[i]).is_from(
            (#[trigger] book[j]).base,
            book[j].quote,
            book[j].feeder,
        )
}

/// The latest price of each feeder for each pair.
#[derive(Debug)]
pub struct PriceBook {
    submissions: Vec<Submission>,
}

impl View for PriceBook {
    type V = Seq<Submission>;

    closed spec fn view(&self) -> Seq<Submission> {
        self.submissions@
    }
}

impl PriceBook {
    #[verifier::type_invariant]
    pub open spec fn is_valid(self) -> bool {
        valid_book(self@)
    }

    /// A book without prices.
    pub fn new() -> (r: PriceBook)
        ensures
            r@ == Seq::<Submission>::empty(),
    {
        PriceBook { submissions: Vec::new() }
    }

    /// The position of the feeder's price for the pair, if there is one.
    fn find(&self, base: &Symbol, quote: &Symbol, feeder: &Address) -> (r: Option<usize>)
        ensures
            match r {
                Some(i) => i < self.submissions@.len() && self.submissions@[i as int].is_from(
                    *base,
                    *quote,
                    *feeder,
                ),
                None => !has_submitted(self.submissions@, *base, *quote, *feeder),
            },
    {
        let mut i: usize = 0;
        while i < self.submissions.len()
            invariant
                i <= self.submissions@.len(),
                forall|j: int|
                    0 <= j < i ==> !(#[trigger] self.submissions@[j]).is_from(*base, *quote, *feeder),
            decreases self.submissions@.len() - i,
        {
            let s: Submission = self.submissions[i];
            if s.base.same(base) && s.quote.same(quote) && s.feeder.same(feeder) {
                return Some(i);
            }
            i = i + 1;
        }
        None
    }

    /// Whether `feeder` has submitted a price for the pair.
    pub fn has_submitted(&self, base: &Symbol, quote: &Symbol, feeder: &Address) -> (r: bool)
        ensures
            r == has_submitted(self@, *base, *quote, *feeder),
    {
        self.find(base, quote, feeder).is_some()
    }

    /// The submissions, in the order in which the feeders first made one.
    pub fn submissions(&self) -> (r: &Vec<Submission>)
        ensures
            r@ == self@,
    {
        &self.submissions
    }

    /// Records a price, in place of the feeder's earlier one for the pair.
    pub fn record(&mut self, s: Submission)
        requires
            s.data.price > 0,
        ensures
            final(self)@ == recorded(old(self)@, s),
    {
        proof {
            use_type_invariant(&*self);
        }
        let ghost before = self.submissions@;
        let found: Option<usize> = self.find(&s.base, &s.quote, &s.feeder);
        let mut submissions: Vec<Submission> = Vec::new();
        std::mem::swap(&mut submissions, &mut self.submissions);
        match found {
            Some(i) => {
                submissions.set(i, s);
                proof {
                    assert(before[i as int].is_from(s.base, s.quote, s.feeder));
                    assert forall|j: int| 0 <= j < before.len() && j != i implies !(
                    #[trigger] before[j]).is_from(s.base, s.quote, s.feeder) by {
                        assert(before[if j < i { j } else { i as int }].is_from(
                            before[if j < i { i as int } else { j }].base,
                            before[if j < i { i as int } else { j }].quote,
                            before[if j < i { i as int } else { j }].feeder,
                        ) == false);
                    }
                    assert(submissions@ =~= recorded(before, s));
                }
            },
            None => {
                submissions.push(s);
            },
        }
        assert(valid_book(submissions@));
        self.submissions = submissions;
    }

    /// The fresh prices for the pair and the oldest of their timestamps.
    pub fn fresh_prices(
        &self,
        env: &soroban_sdk::Env,
        now: u64,
        base: &Symbol,
        quote: &Symbol,
    ) -> (r: (soroban_sdk::Vec<i128>, u64))
        requires
            self@.len() <= u32::MAX,
        ensures
            holds_prices(r.0),
            price_items(r.0) == prices_of(fresh(self@, now, *base, *quote)),
            price_items(r.0).len() <= u32::MAX,
            r.1 == oldest_timestamp(fresh(self@, now, *base, *quote)),
    {
        let mut prices: soroban_sdk::Vec<i128> = new_prices(env);
        let mut min_timestamp: u64 = u64::MAX;
        let mut i: usize = 0;
        while i < self.submissions.len()
            invariant
                i <= self.submissions@.len() <= u32::MAX,
                holds_prices(prices),
                price_items(prices) == prices_of(
                    fresh(self.submissions@.take(i as int), now, *base, *quote),
                ),
                price_items(prices).len() <= i,
                min_timestamp == oldest_timestamp(
                    fresh(self.submissions@.take(i as int), now, *base, *quote),
                ),
            decreases self.submissions@.len() - i,
        {
            let s: Submission = self.submissions[i];
            proof {
                reveal(Seq::filter);
                let next = self.submissions@.take(i + 1);
                assert(next.drop_last() =~= self.submissions@.take(i as int));
                let subs = fresh(self.submissions@.take(i as int), now, *base, *quote);
                assert(subs.push(s).drop_last() =~= subs);
                assert(prices_of(subs.push(s)) =~= prices_of(subs).push(s.data.price));
            }
            if s.base.same(base) && s.quote.same(quote) {
                let age: u64 = now.saturating_sub(s.data.timestamp);
                if age <= MAX_STALENESS_SECS {
                    push_price(&mut prices, s.data.price);
                    if s.data.timestamp < min_timestamp {
                        min_timestamp = s.data.timestamp;
                    }
                }
            }
            i = i + 1;
        }
        assert(self.submissions@.take(i as int) =~= self.submissions@);
        (prices, min_timestamp)
    }
}

/// Every price that counts toward an aggregate is positive, and so is the aggregate.
pub proof fn lemma_aggregate_positive(
    book: Seq<Submission>,
    now: u64,
    base: Symbol,
    quote: Symbol,
)
    requires
        valid_book(book),
    ensures
        forall|i: int|
            0 <= i < fresh(book, now, base, quote).len() ==> (#[trigger] fresh(
                book,
                now,
                base,
                quote,
            )[i]).data.price > 0,
        aggregate(book, now, base, quote) matches Some(data) ==> {
            &&& data.price > 0
            &&& data.price == median(prices_of(fresh(book, now, base, quote)))
        },
{
    let pred = |s: Submission| s.is_for(base, quote) && s.is_fresh(now);
    let subs = fresh(book, now, base, quote);
    assert forall|i: int| 0 <= i < subs.len() implies (#[trigger] subs[i]).data.price > 0 by {
        book.lemma_filter_contains_rev(pred, subs[i]);
    }
    if subs.len() > 0 {
        law_median_within_bounds(prices_of(subs), 1, i128::MAX as int);
    }
}

} // verus!
