//! What a price is, and what submitting one does, read off the submissions one by
//! one.

use vstd::prelude::*;

use crate::errors::KoraError;
use crate::filters::{lemma_filter_agree, lemma_filter_map, lemma_filter_twice};
use crate::median::law_median_of_any_middle_prices;
use crate::oracle_laws::{
    law_price_carries_oldest_timestamp, law_stale_prices_rejected, lemma_oldest_timestamp,
};
use crate::price_book::{
    fresh, has_submitted, lemma_aggregate_positive, oldest_timestamp, prices_of, valid_book,
    PriceData, Submission,
};
use crate::price_oracle::{carried_out, OracleState};
use crate::types::{Address, Symbol};

verus! {

/// How many fresh prices of a pair pass a test, counted in the book.
proof fn lemma_count_fresh(
    book: Seq<Submission>,
    now: u64,
    base: Symbol,
    quote: Symbol,
    q: spec_fn(i128) -> bool,
)
    ensures
        prices_of(fresh(book, now, base, quote)).filter(q).len() == book.filter(
            |s: Submission|
                s.base == base && s.quote == quote && now - s.data.timestamp <= 3600 && q(
                    s.data.price,
                ),
        ).len(),
{
    let subs = fresh(book, now, base, quote);
    let p = |s: Submission| s.is_for(base, quote) && s.is_fresh(now);
    let price = |s: Submission| s.data.price;
    let passes = |s: Submission| q(price(s));
    lemma_filter_map(subs, price, q);
    lemma_filter_twice(book, p, passes);
    lemma_filter_agree(
        book,
        book,
        |s: Submission| p(s) && passes(s),
        |s: Submission|
            s.base == base && s.quote == quote && now - s.data.timestamp <= 3600 && q(s.data.price),
    );
}

/// A price is read exactly where some feeder's price for the pair is at most an
/// hour old. It dates from the oldest of those.
pub proof fn law_price_needs_a_fresh_submission(
    state: OracleState,
    now: u64,
    base: Symbol,
    quote: Symbol,
)
    ensures
        state.price_read(now, base, quote) is Ok <==> exists|i: int|
            0 <= i < state.book.len() && (#[trigger] state.book[i]).base == base
                && state.book[i].quote == quote && now - state.book[i].data.timestamp <= 3600,
        state.price_read(now, base, quote) matches Err(e) ==> e == KoraError::InvalidAmount,
        state.price_read(now, base, quote) matches Ok(data) ==> state.price(now, base, quote)
            == Some(data),
        state.price_read(now, base, quote) is Err ==> state.price(now, base, quote) is None,
        state.price_read(now, base, quote) matches Ok(data) ==> {
            &&& forall|i: int|
                0 <= i < state.book.len() && (#[trigger] state.book[i]).base == base
                    && state.book[i].quote == quote && now - state.book[i].data.timestamp <= 3600
                    ==> data.timestamp <= state.book[i].data.timestamp
            &&& exists|i: int|
                0 <= i < state.book.len() && (#[trigger] state.book[i]).base == base
                    && state.book[i].quote == quote && now - state.book[i].data.timestamp <= 3600
                    && data.timestamp == state.book[i].data.timestamp
        },
{
    law_stale_prices_rejected(state, now, base, quote);
    law_price_carries_oldest_timestamp(state, now, base, quote);
    let p = |s: Submission| s.is_for(base, quote) && s.is_fresh(now);
    let subs = fresh(state.book, now, base, quote);
    if let Some(data) = state.price(now, base, quote) {
        lemma_oldest_timestamp(subs);
        assert forall|i: int|
            0 <= i < state.book.len() && (#[trigger] state.book[i]).base == base
                && state.book[i].quote == quote && now - state.book[i].data.timestamp
                <= 3600 implies data.timestamp <= state.book[i].data.timestamp by {
            state.book.lemma_filter_contains(p, i);
            let j = choose|j: int| 0 <= j < subs.len() && subs[j] == state.book[i];
            assert(subs[j].data.timestamp == state.book[i].data.timestamp);
        }
        let j = choose|j: int|
            0 <= j < subs.len() && (#[trigger] subs[j]).data.timestamp
                == oldest_timestamp(subs);
        state.book.lemma_filter_pred(p, j);
        state.book.lemma_filter_contains_rev(p, subs[j]);
        let i = choose|i: int| 0 <= i < state.book.len() && state.book[i] == subs[j];
        assert(state.book[i].data.timestamp == data.timestamp);
    }
}

/// The price that is read is the mean, rounded down, of the two middle prices of
/// the pair, of which `lo` is the lower and `hi` the upper: among the prices that
/// are at most an hour old, at least half are at most `lo` and more than half at
/// least `lo`, more than half are at most `hi` and at least half at least `hi`. For
/// an odd number of prices `lo` and `hi` are the same.
pub proof fn law_price_is_mean_of_middle_prices(
    state: OracleState,
    now: u64,
    base: Symbol,
    quote: Symbol,
    lo: i128,
    hi: i128,
)
    requires
        valid_book(state.book),
        ({
            let n = state.book.filter(
                |s: Submission|
                    s.base == base && s.quote == quote && now - s.data.timestamp <= 3600,
            ).len();
            &&& n > 0
            &&& 2 * state.book.filter(
                |s: Submission|
                    s.base == base && s.quote == quote && now - s.data.timestamp <= 3600
                        && s.data.price <= lo,
            ).len() >= n
            &&& 2 * state.book.filter(
                |s: Submission|
                    s.base == base && s.quote == quote && now - s.data.timestamp <= 3600
                        && s.data.price >= lo,
            ).len() > n
            &&& 2 * state.book.filter(
                |s: Submission|
                    s.base == base && s.quote == quote && now - s.data.timestamp <= 3600
                        && s.data.price <= hi,
            ).len() > n
            &&& 2 * state.book.filter(
                |s: Submission|
                    s.base == base && s.quote == quote && now - s.data.timestamp <= 3600
                        && s.data.price >= hi,
            ).len() >= n
        }),
    ensures
        state.price_read(now, base, quote) matches Ok(data) && 2 * data.price <= lo + hi <= 2
            * data.price + 1,
{
    let book = state.book;
    let subs = fresh(book, now, base, quote);
    let prices = prices_of(subs);
    let p = |s: Submission| s.is_for(base, quote) && s.is_fresh(now);
    lemma_filter_agree(
        book,
        book,
        p,
        |s: Submission| s.base == base && s.quote == quote && now - s.data.timestamp <= 3600,
    );
    lemma_count_as(book, now, base, quote, |x: i128| x <= lo, |s: Submission|
        s.base == base && s.quote == quote && now - s.data.timestamp <= 3600 && s.data.price <= lo);
    lemma_count_as(book, now, base, quote, |x: i128| x >= lo, |s: Submission|
        s.base == base && s.quote == quote && now - s.data.timestamp <= 3600 && s.data.price >= lo);
    lemma_count_as(book, now, base, quote, |x: i128| x <= hi, |s: Submission|
        s.base == base && s.quote == quote && now - s.data.timestamp <= 3600 && s.data.price <= hi);
    lemma_count_as(book, now, base, quote, |x: i128| x >= hi, |s: Submission|
        s.base == base && s.quote == quote && now - s.data.timestamp <= 3600 && s.data.price >= hi);
    law_median_of_any_middle_prices(prices, lo, hi);
    lemma_aggregate_positive(book, now, base, quote);
}

proof fn lemma_count_as(
    book: Seq<Submission>,
    now: u64,
    base: Symbol,
    quote: Symbol,
    q: spec_fn(i128) -> bool,
    r: spec_fn(Submission) -> bool,
)
    requires
        forall|s: Submission| #[trigger]
            r(s) == (s.base == base && s.quote == quote && now - s.data.timestamp <= 3600 && q(
                s.data.price,
            )),
    ensures
        prices_of(fresh(book, now, base, quote)).filter(q).len() == book.filter(r).len(),
{
    lemma_count_fresh(book, now, base, quote, q);
    lemma_filter_agree(
        book,
        book,
        |s: Submission|
            s.base == base && s.quote == quote && now - s.data.timestamp <= 3600 && q(s.data.price),
        r,
    );
}

/// Two oracles in which the same submissions for a pair are fresh read the same
/// price, whatever else they hold.
pub proof fn law_price_depends_on_fresh_submissions_alone(
    state: OracleState,
    other: OracleState,
    now: u64,
    base: Symbol,
    quote: Symbol,
)
    requires
        state.book.filter(
            |s: Submission| s.base == base && s.quote == quote && now - s.data.timestamp <= 3600,
        ) == other.book.filter(
            |s: Submission| s.base == base && s.quote == quote && now - s.data.timestamp <= 3600,
        ),
    ensures
        state.price_read(now, base, quote) == other.price_read(now, base, quote),
{
    let p = |s: Submission| s.is_for(base, quote) && s.is_fresh(now);
    let q = |s: Submission| s.base == base && s.quote == quote && now - s.data.timestamp <= 3600;
    lemma_filter_agree(state.book, state.book, p, q);
    lemma_filter_agree(other.book, other.book, p, q);
}

/// What a successful submission leaves: at the place of the feeder's earlier price
/// for the pair, or at the end if there was none, the price with the time of its
/// submission; every other submission where it was; and nothing else changed.
pub proof fn law_submission_is_booked(
    state: OracleState,
    now: u64,
    feeder: Address,
    base: Symbol,
    quote: Symbol,
    price: i128,
    next: OracleState,
)
    requires
        state.price_set(now, feeder, base, quote, price) == Ok::<OracleState, KoraError>(next)
            || state.price_overridden(now, feeder, base, quote, price) == Ok::<
            OracleState,
            KoraError,
        >(next),
    ensures
        next == state.submitted(now, feeder, base, quote, price),
        next.admin == state.admin,
        next.max_deviation == state.max_deviation,
        next.base_currency == state.base_currency,
        next.feeders == state.feeders,
        next.symbols == state.symbols,
        forall|i: int|
            0 <= i < state.book.len() ==> next.book[i] == (if (#[trigger] state.book[i]).base
                == base && state.book[i].quote == quote && state.book[i].feeder == feeder {
                (Submission { base, quote, feeder, data: PriceData { price, timestamp: now } })
            } else {
                state.book[i]
            }),
        (exists|i: int|
            0 <= i < state.book.len() && (#[trigger] state.book[i]).base == base
                && state.book[i].quote == quote && state.book[i].feeder == feeder)
            ==> next.book.len() == state.book.len(),
        !(exists|i: int|
            0 <= i < state.book.len() && (#[trigger] state.book[i]).base == base
                && state.book[i].quote == quote && state.book[i].feeder == feeder)
            ==> next.book.len() == state.book.len() + 1 && next.book[state.book.len() as int] == (
        Submission { base, quote, feeder, data: PriceData { price, timestamp: now } }),
        next.book.contains(
            Submission { base, quote, feeder, data: PriceData { price, timestamp: now } },
        ),
{
    let s = Submission { base, quote, feeder, data: PriceData { price, timestamp: now } };
    if has_submitted(state.book, base, quote, feeder) {
        let i = choose|i: int|
            0 <= i < state.book.len() && (#[trigger] state.book[i]).is_from(base, quote, feeder);
        assert(state.book[i].base == base && state.book[i].quote == quote && state.book[i].feeder
            == feeder);
        assert(next.book[i] == s);
    } else {
        assert forall|i: int| 0 <= i < state.book.len() implies !((#[trigger] state.book[i]).base
            == base && state.book[i].quote == quote && state.book[i].feeder == feeder) by {
            assert(!state.book[i].is_from(base, quote, feeder));
        }
        assert(next.book[state.book.len() as int] == s);
    }
}

/// When a submission is accepted and how it is refused. A feeder that has no
/// price for the pair, or a pair without a fresh price, has no limit. Otherwise the
/// new price may differ from the current one by less than one basis point more than
/// the limit, which is 10 % where none was set.
pub proof fn law_submission_is_accepted_when(
    state: OracleState,
    now: u64,
    feeder: Address,
    base: Symbol,
    quote: Symbol,
    price: i128,
)
    requires
        valid_book(state.book),
    ensures
        ({
            let r = state.price_set(now, feeder, base, quote, price);
            let known = exists|i: int|
                0 <= i < state.book.len() && (#[trigger] state.book[i]).base == base
                    && state.book[i].quote == quote && state.book[i].feeder == feeder;
            let limit: int = match state.max_deviation {
                Some(bps) => bps as int,
                None => 1000,
            };
            &&& r == Err::<OracleState, KoraError>(KoraError::RoleNotAssigned)
                <==> !state.feeders.contains(feeder)
            &&& state.feeders.contains(feeder) && price <= 0 ==> r == Err::<OracleState, KoraError>(
                KoraError::InvalidAmount,
            )
            &&& state.feeders.contains(feeder) && price > 0 ==> match state.price_read(
                now,
                base,
                quote,
            ) {
                Ok(current) if known => {
                    let fits = -i128::MAX <= (price - current.price) * 10_000 <= i128::MAX;
                    let close = -(limit + 1) * current.price < (price - current.price) * 10_000 < (
                    limit + 1) * current.price;
                    &&& r is Ok <==> fits && close
                    &&& !fits ==> r == Err::<OracleState, KoraError>(KoraError::ArithmeticOverflow)
                    &&& fits && !close ==> r == Err::<OracleState, KoraError>(
                        KoraError::InvalidAmount,
                    )
                },
                _ => r is Ok,
            }
        }),
        ({
            let r = state.price_overridden(now, feeder, base, quote, price);
            &&& r is Ok <==> state.feeders.contains(feeder) && price > 0
            &&& !state.feeders.contains(feeder) ==> r == Err::<OracleState, KoraError>(
                KoraError::RoleNotAssigned,
            )
            &&& state.feeders.contains(feeder) && price <= 0 ==> r == Err::<OracleState, KoraError>(
                KoraError::InvalidAmount,
            )
        }),
{
    let known = exists|i: int|
        0 <= i < state.book.len() && (#[trigger] state.book[i]).base == base && state.book[i].quote
            == quote && state.book[i].feeder == feeder;
    if has_submitted(state.book, base, quote, feeder) {
        let i = choose|i: int|
            0 <= i < state.book.len() && (#[trigger] state.book[i]).is_from(base, quote, feeder);
        assert(state.book[i].base == base && state.book[i].quote == quote && state.book[i].feeder
            == feeder);
    } else if known {
        let i = choose|i: int|
            0 <= i < state.book.len() && (#[trigger] state.book[i]).base == base
                && state.book[i].quote == quote && state.book[i].feeder == feeder;
        assert(state.book[i].is_from(base, quote, feeder));
    }
    lemma_aggregate_positive(state.book, now, base, quote);
    if let Some(current) = state.price(now, base, quote) {
        let limit = state.deviation_limit() as int;
        let old = current.price as int;
        let change = if price > old { price - old } else { old - price };
        lemma_whole_basis_points(change * 10_000, old, limit);
        assert(-(limit + 1) * old == -((limit + 1) * old)) by (nonlinear_arith);
    }
}

/// A quotient is at most `limit` where the dividend is below the next multiple.
proof fn lemma_whole_basis_points(scaled: int, old: int, limit: int)
    requires
        old > 0,
        scaled >= 0,
    ensures
        scaled / old > limit <==> scaled >= (limit + 1) * old,
{
    assert(scaled / old > limit <==> scaled >= (limit + 1) * old) by (nonlinear_arith)
        requires
            old > 0,
            scaled >= 0,
    ;
}

/// The admin's calls: who may make them, how others are refused, and what each of
/// them changes and leaves.
pub proof fn law_admin_calls(
    state: OracleState,
    caller: Address,
    feeder: Address,
    token: Address,
    symbol: Symbol,
    bps: u32,
    r: Result<OracleState, KoraError>,
)
    ensures
        r == state.feeder_added(caller, feeder) || r == state.feeder_removed(caller, feeder) || r
            == state.base_currency_set(caller, symbol) || r == state.max_deviation_set(caller, bps)
            || r == state.symbol_registered(caller, token, symbol) ==> match state.admin {
            None => r == Err::<OracleState, KoraError>(KoraError::NotInitialized),
            Some(admin) => if admin == caller {
                r is Ok
            } else {
                r == Err::<OracleState, KoraError>(KoraError::NotAdmin)
            },
        },
        state.feeder_added(caller, feeder) matches Ok(next) ==> {
            &&& forall|a: Address| #[trigger]
                next.feeders.contains(a) <==> state.feeders.contains(a) || a == feeder
            &&& next == (OracleState { feeders: next.feeders, ..state })
        },
        state.feeder_removed(caller, feeder) matches Ok(next) ==> {
            &&& forall|a: Address| #[trigger]
                next.feeders.contains(a) <==> state.feeders.contains(a) && a != feeder
            &&& next == (OracleState { feeders: next.feeders, ..state })
        },
        state.base_currency_set(caller, symbol) matches Ok(next) ==> next == (OracleState {
            base_currency: Some(symbol),
            ..state
        }),
        state.max_deviation_set(caller, bps) matches Ok(next) ==> next == (OracleState {
            max_deviation: Some(bps),
            ..state
        }) && next.deviation_limit() == bps,
        state.symbol_registered(caller, token, symbol) matches Ok(next) ==> {
            &&& next.symbol_of(token) == Ok::<Symbol, KoraError>(symbol)
            &&& forall|a: Address|
                a != token ==> #[trigger] next.symbol_of(a) == state.symbol_of(a)
            &&& next == (OracleState { symbols: next.symbols, ..state })
        },
{
}

/// Initialization makes the caller's choice the admin and sets a limit of 10 %;
/// nothing else changes, and only an oracle without an admin is initialized.
pub proof fn law_initialization(state: OracleState, admin: Address)
    ensures
        match state.admin {
            Some(_) => state.initialized(admin) == Err::<OracleState, KoraError>(
                KoraError::AlreadyInitialized,
            ),
            None => state.initialized(admin) matches Ok(next) && next == (OracleState {
                admin: Some(admin),
                max_deviation: Some(1000),
                ..state
            }),
        },
        OracleState::blank().admin is None,
        OracleState::blank().max_deviation is None,
        OracleState::blank().base_currency is None,
        OracleState::blank().deviation_limit() == 1000,
        forall|a: Address| !(#[trigger] OracleState::blank().feeders.contains(a)),
        forall|a: Address| !(#[trigger] OracleState::blank().symbols.contains_key(a)),
        OracleState::blank().book.len() == 0,
{
}

/// A token's symbol is the one it was registered with; other tokens have none.
pub proof fn law_symbols_are_as_registered(state: OracleState, token: Address)
    ensures
        state.symbols.contains_key(token) ==> state.symbol_of(token) == Ok::<Symbol, KoraError>(
            state.symbols[token],
        ),
        !state.symbols.contains_key(token) ==> state.symbol_of(token) == Err::<Symbol, KoraError>(
            KoraError::InvalidAddress,
        ),
{
}

/// A call either does all that is wanted of it, or gives the error that is wanted
/// and changes nothing.
pub proof fn law_calls_are_all_or_nothing(
    before: OracleState,
    wanted: Result<OracleState, KoraError>,
    after: OracleState,
    result: Result<(), KoraError>,
)
    requires
        carried_out(before, wanted, after, result),
    ensures
        result is Ok <==> wanted is Ok,
        wanted matches Ok(next) ==> after == next,
        wanted matches Err(e) ==> result == Err::<(), KoraError>(e) && after == before,
{
}

/// The authorization of a feeder decides over its submissions from then on.
pub proof fn law_authorization_decides(
    state: OracleState,
    admin: Address,
    feeder: Address,
    now: u64,
    base: Symbol,
    quote: Symbol,
    price: i128,
)
    requires
        state.admin == Some(admin),
        price > 0,
    ensures
        state.feeder_added(admin, feeder) matches Ok(next) && next.price_overridden(
            now,
            feeder,
            base,
            quote,
            price,
        ) is Ok,
        state.feeder_removed(admin, feeder) matches Ok(next) && next.price_overridden(
            now,
            feeder,
            base,
            quote,
            price,
        ) is Err && next.price_set(now, feeder, base, quote, price) is Err,
{
}

} // verus!
