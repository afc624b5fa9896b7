//! Laws of the price oracle, stated over its mathematical state.

use vstd::prelude::*;

use crate::errors::KoraError;
use crate::filters::{
    lemma_filter_agree, lemma_filter_map, lemma_filter_none, lemma_filter_push, lemma_filter_split,
    lemma_filter_twice, lemma_filter_weaker,
};
use crate::median::{count_within, law_majority_holds_median, median};
use crate::price_book::{
    fresh, has_submitted, lemma_aggregate_positive, oldest_timestamp, prices_of, recorded,
    valid_book, PriceData, Submission, MAX_STALENESS_SECS,
};
use crate::price_oracle::{
    by_admin, gap, lemma_scaled_in_range, scaled, OracleState, BPS, PRICE_SCALE,
};
use crate::types::{Address, Symbol};

verus! {

/// Recording a positive price keeps the book valid: every price is positive,
/// and a feeder has one price per pair.
pub proof fn law_book_stays_valid(book: Seq<Submission>, s: Submission)
    requires
        valid_book(book),
        s.data.price > 0,
    ensures
        valid_book(recorded(book, s)),
{
}

/// The oracle is initialized at most once.
pub proof fn law_initialized_once(state: OracleState, admin: Address, other: Address)
    ensures
        state.initialized(admin) matches Ok(next) ==> {
            &&& next.admin == Some(admin)
            &&& next.initialized(other) == Err::<OracleState, KoraError>(
                KoraError::AlreadyInitialized,
            )
        },
{
}

/// An admin action succeeds for the admin and for nobody else.
pub proof fn law_only_admin_administers(state: OracleState, caller: Address, wanted: OracleState)
    ensures
        by_admin(state, caller, wanted) is Ok <==> state.admin == Some(caller),
{
}

/// Nobody but an authorized feeder changes a price, and a feeder whose
/// authorization was withdrawn is refused.
pub proof fn law_only_feeders_submit(
    state: OracleState,
    now: u64,
    feeder: Address,
    base: Symbol,
    quote: Symbol,
    price: i128,
)
    ensures
        state.price_set(now, feeder, base, quote, price) is Ok ==> state.feeders.contains(feeder),
        state.price_overridden(now, feeder, base, quote, price) is Ok ==> state.feeders.contains(
            feeder,
        ),
        ({
            let removed = OracleState { feeders: state.feeders.remove(feeder), ..state };
            let refusal = Err::<OracleState, KoraError>(KoraError::RoleNotAssigned);
            &&& removed.price_set(now, feeder, base, quote, price) == refusal
            &&& removed.price_overridden(now, feeder, base, quote, price) == refusal
        }),
{
}

/// The first price of a feeder for a pair is accepted, whatever its value, if
/// it is positive.
pub proof fn law_first_price_accepted(
    state: OracleState,
    now: u64,
    feeder: Address,
    base: Symbol,
    quote: Symbol,
    price: i128,
)
    requires
        state.feeders.contains(feeder),
        !has_submitted(state.book, base, quote, feeder),
        price > 0,
    ensures
        state.price_set(now, feeder, base, quote, price) == Ok::<OracleState, KoraError>(
            state.submitted(now, feeder, base, quote, price),
        ),
{
}

/// Without a fresh price for the pair nothing limits a new one: every price
/// passes the deviation check, whatever the limit, and a feeder's positive price
/// is accepted.
pub proof fn law_no_fresh_price_no_limit(
    state: OracleState,
    now: u64,
    feeder: Address,
    base: Symbol,
    quote: Symbol,
    price: i128,
)
    requires
        state.price(now, base, quote) is None,
    ensures
        state.deviation_check(now, base, quote, price) == Ok::<(), KoraError>(()),
        state.feeders.contains(feeder) && price > 0 ==> state.price_set(
            now,
            feeder,
            base,
            quote,
            price,
        ) == Ok::<OracleState, KoraError>(state.submitted(now, feeder, base, quote, price)),
{
}

/// A later price is accepted only if it deviates from the current aggregated
/// price by at most the limit, in whole basis points.
pub proof fn law_later_price_stays_close(
    state: OracleState,
    now: u64,
    feeder: Address,
    base: Symbol,
    quote: Symbol,
    price: i128,
)
    requires
        state.price_set(now, feeder, base, quote, price) is Ok,
        has_submitted(state.book, base, quote, feeder),
    ensures
        state.price(now, base, quote) matches Some(current) ==> gap(
            price as int,
            current.price as int,
        ) * BPS / current.price as int <= state.deviation_limit(),
{
}

/// An override by an authorized feeder is accepted whenever the price is positive.
pub proof fn law_override_bypasses_deviation(
    state: OracleState,
    now: u64,
    feeder: Address,
    base: Symbol,
    quote: Symbol,
    price: i128,
)
    requires
        state.feeders.contains(feeder),
        price > 0,
    ensures
        state.price_overridden(now, feeder, base, quote, price) == Ok::<OracleState, KoraError>(
            state.submitted(now, feeder, base, quote, price),
        ),
{
}

/// A submission for one pair leaves the price of every other pair as it is.
pub proof fn law_other_pairs_unchanged(
    state: OracleState,
    now: u64,
    feeder: Address,
    base: Symbol,
    quote: Symbol,
    price: i128,
    at: u64,
    other_base: Symbol,
    other_quote: Symbol,
)
    requires
        other_base != base || other_quote != quote,
    ensures
        state.submitted(now, feeder, base, quote, price).price(at, other_base, other_quote)
            == state.price(at, other_base, other_quote),
{
    let s = Submission { base, quote, feeder, data: PriceData { price, timestamp: now } };
    let p = |b: Submission| b.is_for(other_base, other_quote) && b.is_fresh(at);
    let next = recorded(state.book, s);
    if has_submitted(state.book, base, quote, feeder) {
        lemma_filter_agree(state.book, next, p, p);
    } else {
        lemma_filter_push(state.book, s, p);
    }
    assert(fresh(next, at, other_base, other_quote) == fresh(
        state.book,
        at,
        other_base,
        other_quote,
    ));
}

/// A price is available exactly when some feeder's price for the pair is at
/// most `MAX_STALENESS_SECS` old.
pub proof fn law_stale_prices_rejected(state: OracleState, now: u64, base: Symbol, quote: Symbol)
    ensures
        state.price(now, base, quote) is Some <==> exists|i: int|
            0 <= i < state.book.len() && (#[trigger] state.book[i]).is_for(base, quote) && now
                - state.book[i].data.timestamp <= MAX_STALENESS_SECS,
{
    let p = |s: Submission| s.is_for(base, quote) && s.is_fresh(now);
    let subs = fresh(state.book, now, base, quote);
    if subs.len() > 0 {
        state.book.lemma_filter_pred(p, 0);
        state.book.lemma_filter_contains_rev(p, subs[0]);
    }
    if exists|i: int|
        0 <= i < state.book.len() && (#[trigger] state.book[i]).is_for(base, quote) && now
            - state.book[i].data.timestamp <= MAX_STALENESS_SECS {
        let i = choose|i: int|
            0 <= i < state.book.len() && (#[trigger] state.book[i]).is_for(base, quote) && now
                - state.book[i].data.timestamp <= MAX_STALENESS_SECS;
        state.book.lemma_filter_contains(p, i);
    }
}

/// The oldest timestamp is one of the timestamps, and none is smaller.
pub proof fn lemma_oldest_timestamp(subs: Seq<Submission>)
    ensures
        forall|i: int|
            0 <= i < subs.len() ==> oldest_timestamp(subs) <= (#[trigger] subs[i]).data.timestamp,
        subs.len() > 0 ==> exists|i: int|
            0 <= i < subs.len() && (#[trigger] subs[i]).data.timestamp == oldest_timestamp(subs),
    decreases subs.len(),
{
    if subs.len() > 0 {
        let init = subs.drop_last();
        lemma_oldest_timestamp(init);
        assert forall|i: int| 0 <= i < subs.len() implies oldest_timestamp(subs) <= (
        #[trigger] subs[i]).data.timestamp by {
            if i < init.len() {
                assert(init[i] == subs[i]);
            }
        }
        if subs.last().data.timestamp <= oldest_timestamp(init) {
            assert(subs[subs.len() - 1].data.timestamp == oldest_timestamp(subs));
        } else {
            let i = choose|i: int|
                0 <= i < init.len() && (#[trigger] init[i]).data.timestamp == oldest_timestamp(
                    init,
                );
            assert(subs[i].data.timestamp == oldest_timestamp(subs));
        }
    }
}

/// An aggregated price carries the oldest timestamp of the prices it is made
/// of, and that one is fresh.
pub proof fn law_price_carries_oldest_timestamp(
    state: OracleState,
    now: u64,
    base: Symbol,
    quote: Symbol,
)
    ensures
        state.price(now, base, quote) matches Some(data) ==> {
            let subs = fresh(state.book, now, base, quote);
            &&& now - data.timestamp <= MAX_STALENESS_SECS
            &&& forall|i: int|
                0 <= i < subs.len() ==> data.timestamp <= (#[trigger] subs[i]).data.timestamp
            &&& exists|i: int|
                0 <= i < subs.len() && (#[trigger] subs[i]).data.timestamp == data.timestamp
        },
{
    let p = |s: Submission| s.is_for(base, quote) && s.is_fresh(now);
    let subs = fresh(state.book, now, base, quote);
    if subs.len() > 0 {
        lemma_oldest_timestamp(subs);
        let i = choose|i: int|
            0 <= i < subs.len() && (#[trigger] subs[i]).data.timestamp == oldest_timestamp(subs);
        state.book.lemma_filter_pred(p, i);
    }
}

/// The fresh prices for the pair that come from feeders other than `feeder`.
pub open spec fn fresh_from_others(
    book: Seq<Submission>,
    now: u64,
    base: Symbol,
    quote: Symbol,
    feeder: Address,
) -> Seq<Submission> {
    book.filter(|s: Submission| s.is_for(base, quote) && s.is_fresh(now) && s.feeder != feeder)
}

/// In a valid book a feeder has at most one price for a pair.
proof fn lemma_one_price_per_feeder(
    book: Seq<Submission>,
    base: Symbol,
    quote: Symbol,
    feeder: Address,
    p: spec_fn(Submission) -> bool,
)
    requires
        valid_book(book),
        forall|s: Submission| #[trigger] p(s) ==> s.is_from(base, quote, feeder),
    ensures
        book.filter(p).len() <= 1,
    decreases book.len(),
{
    reveal(Seq::filter);
    if book.len() > 0 {
        let init = book.drop_last();
        assert forall|i: int, j: int| 0 <= i < j < init.len() implies !(
        #[trigger] init[i]).is_from(
            (#[trigger] init[j]).base,
            init[j].quote,
            init[j].feeder,
        ) by {
            assert(init[i] == book[i] && init[j] == book[j]);
        }
        assert forall|i: int| 0 <= i < init.len() implies (#[trigger] init[i]).data.price > 0 by {
            assert(init[i] == book[i]);
        }
        lemma_one_price_per_feeder(init, base, quote, feeder, p);
        if p(book.last()) {
            assert forall|i: int| 0 <= i < init.len() implies !p(#[trigger] init[i]) by {
                assert(init[i] == book[i]);
                assert(!book[i].is_from(
                    book[book.len() - 1].base,
                    book[book.len() - 1].quote,
                    book[book.len() - 1].feeder,
                ));
            }
            lemma_filter_none(init, p);
        }
    }
}

/// After a submission the prices of the pair that are fresh at time `now` are
/// those of the other feeders and, while it is fresh itself, the submitted one.
proof fn lemma_fresh_after_submission(book: Seq<Submission>, s: Submission, now: u64)
    requires
        valid_book(book),
        s.data.price > 0,
    ensures
        ({
            let after = fresh(recorded(book, s), now, s.base, s.quote);
            let others = fresh_from_others(book, now, s.base, s.quote, s.feeder);
            &&& fresh_from_others(recorded(book, s), now, s.base, s.quote, s.feeder) == others
            &&& others.len() <= after.len() <= others.len() + 1
            &&& s.is_fresh(now) ==> after.len() == others.len() + 1 && after.contains(s)
        }),
{
    let next = recorded(book, s);
    let p = |b: Submission| b.is_for(s.base, s.quote) && b.is_fresh(now);
    let other = |b: Submission| b.feeder != s.feeder;
    let p_other = |b: Submission|
        b.is_for(s.base, s.quote) && b.is_fresh(now) && b.feeder != s.feeder;
    if has_submitted(book, s.base, s.quote, s.feeder) {
        lemma_filter_agree(book, next, p_other, p_other);
        let i = choose|i: int|
            0 <= i < book.len() && (#[trigger] book[i]).is_from(s.base, s.quote, s.feeder);
        assert(next[i] == s);
        if s.is_fresh(now) {
            next.lemma_filter_contains(p, i);
            let p_own = |b: Submission| p(b) && !other(b);
            next.lemma_filter_contains(p_own, i);
        }
    } else {
        lemma_filter_push(book, s, p_other);
        assert(next[next.len() - 1] == s);
        if s.is_fresh(now) {
            next.lemma_filter_contains(p, next.len() - 1);
            let p_own = |b: Submission| p(b) && !other(b);
            next.lemma_filter_contains(p_own, next.len() - 1);
        }
    }
    lemma_filter_split(next, p, other);
    let p_own = |b: Submission| p(b) && !other(b);
    lemma_one_price_per_feeder(next, s.base, s.quote, s.feeder, p_own);
    lemma_filter_agree(next, next, p_other, |b: Submission| p(b) && other(b));
}

/// Where no other feeder has a fresh price for the pair, a submitted price is
/// the price that is read back for as long as it is fresh, with the time of its
/// submission.
pub proof fn law_sole_price_is_read_back(
    state: OracleState,
    now: u64,
    at: u64,
    feeder: Address,
    base: Symbol,
    quote: Symbol,
    price: i128,
)
    requires
        valid_book(state.book),
        price > 0,
        at - now <= MAX_STALENESS_SECS,
        fresh_from_others(state.book, at, base, quote, feeder).len() == 0,
    ensures
        state.submitted(now, feeder, base, quote, price).price(at, base, quote) == Some(
            PriceData { price, timestamp: now },
        ),
{
    let s = Submission { base, quote, feeder, data: PriceData { price, timestamp: now } };
    lemma_fresh_after_submission(state.book, s, at);
    let subs = fresh(recorded(state.book, s), at, base, quote);
    assert(subs =~= seq![s]);
    crate::median::law_median_within_bounds(prices_of(subs), price as int, price as int);
    reveal_with_fuel(oldest_timestamp, 2);
}

/// One feeder cannot move the price out of the range of the others: while at
/// least two other feeders have fresh prices, all between `lo` and `hi`, the
/// aggregated price is between `lo` and `hi` whatever the feeder submitted.
pub proof fn law_single_feeder_cannot_move_price(
    state: OracleState,
    now: u64,
    at: u64,
    feeder: Address,
    base: Symbol,
    quote: Symbol,
    price: i128,
    lo: int,
    hi: int,
)
    requires
        valid_book(state.book),
        price > 0,
        fresh_from_others(state.book, at, base, quote, feeder).len() >= 2,
        forall|i: int|
            0 <= i < fresh_from_others(state.book, at, base, quote, feeder).len() ==> lo <= (
            #[trigger] fresh_from_others(state.book, at, base, quote, feeder)[i]).data.price <= hi,
    ensures
        state.submitted(now, feeder, base, quote, price).price(at, base, quote) matches Some(data)
            && lo <= data.price <= hi,
{
    let s = Submission { base, quote, feeder, data: PriceData { price, timestamp: now } };
    let next = recorded(state.book, s);
    lemma_fresh_after_submission(state.book, s, at);
    law_book_stays_valid(state.book, s);
    lemma_aggregate_positive(next, at, base, quote);
    let subs = fresh(next, at, base, quote);
    let others = fresh_from_others(next, at, base, quote, feeder);
    let p = |b: Submission| b.is_for(base, quote) && b.is_fresh(at);
    let p_other = |b: Submission| b.is_for(base, quote) && b.is_fresh(at) && b.feeder != feeder;
    let within = |x: i128| lo <= x <= hi;
    let price_within = |b: Submission| within(b.data.price);
    lemma_filter_map(subs, |b: Submission| b.data.price, within);
    lemma_filter_agree(
        subs,
        subs,
        price_within,
        |b: Submission| within((|c: Submission| c.data.price)(b)),
    );
    lemma_filter_twice(next, p, price_within);
    let p_within = |b: Submission| p(b) && price_within(b);
    assert forall|i: int| 0 <= i < next.len() && p_other(#[trigger] next[i]) implies p_within(
        next[i],
    ) by {
        next.lemma_filter_contains(p_other, i);
        let j = choose|j: int| 0 <= j < others.len() && others[j] == next[i];
        assert(others[j] == next[i]);
    }
    lemma_filter_weaker(next, p_other, p_within);
    assert(count_within(prices_of(subs), lo, hi) >= others.len());
    law_majority_holds_median(prices_of(subs), lo, hi);
}

/// An amount converts to itself within one currency.
pub proof fn law_same_currency_is_identity(
    state: OracleState,
    now: u64,
    amount: i128,
    currency: Symbol,
)
    ensures
        state.converted(now, amount, currency, currency) == Ok::<i128, KoraError>(amount),
{
}

/// A conversion goes by the pair's own price whenever that one is fresh,
/// whatever the base currency and the other prices are.
pub proof fn law_direct_price_preferred(
    state: OracleState,
    other: OracleState,
    now: u64,
    amount: i128,
    from: Symbol,
    to: Symbol,
)
    requires
        state.price(now, from, to) is Some,
        other.price(now, from, to) == state.price(now, from, to),
    ensures
        state.converted(now, amount, from, to) == other.converted(now, amount, from, to),
{
}

/// A conversion between two currencies that succeeds gives a positive amount,
/// and rests on fresh prices: of the pair, or else of both legs through a base
/// currency that is neither of the two.
pub proof fn law_conversion_rests_on_fresh_prices(
    state: OracleState,
    now: u64,
    amount: i128,
    from: Symbol,
    to: Symbol,
)
    requires
        valid_book(state.book),
        from != to,
    ensures
        state.converted(now, amount, from, to) matches Ok(converted) ==> {
            &&& converted > 0
            &&& state.price(now, from, to) is Some || {
                &&& state.base_currency matches Some(hub)
                &&& from != hub && to != hub
                &&& state.price(now, from, hub) is Some
                &&& state.price(now, hub, to) is Some || state.price(now, to, hub) is Some
            }
        },
{
    if let Some(direct) = state.price(now, from, to) {
        lemma_scaled_in_range(amount as int, direct.price as int, PRICE_SCALE as int);
    }
    if let Some(hub) = state.base_currency {
        lemma_aggregate_positive(state.book, now, to, hub);
        if let Some(first) = state.price(now, from, hub) {
            if let Some(intermediate) = scaled(
                amount as int,
                first.price as int,
                PRICE_SCALE as int,
            ) {
                if let Some((num, den)) = state.rate_from_hub(now, hub, to) {
                    lemma_scaled_in_range(intermediate, num, den);
                }
            }
        }
    }
}

/// Without a fresh price of the pair and without a base currency no
/// conversion between two currencies succeeds.
pub proof fn law_no_triangulation_without_base_currency(
    state: OracleState,
    now: u64,
    amount: i128,
    from: Symbol,
    to: Symbol,
)
    requires
        from != to,
        state.price(now, from, to) is None,
        state.base_currency is None,
    ensures
        state.converted(now, amount, from, to) == Err::<i128, KoraError>(KoraError::InvalidAmount),
{
}

/// A registered symbol is the one that is resolved, and registering one token
/// leaves the others as they are.
pub proof fn law_registered_symbol_resolves(
    state: OracleState,
    token: Address,
    symbol: Symbol,
    other: Address,
)
    ensures
        ({
            let next = OracleState { symbols: state.symbols.insert(token, symbol), ..state };
            &&& next.symbol_of(token) == Ok::<Symbol, KoraError>(symbol)
            &&& other != token ==> next.symbol_of(other) == state.symbol_of(other)
        }),
{
}

} // verus!
