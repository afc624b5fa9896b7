//! What a conversion gives, stated by products and bounds, and how conversions of
//! different amounts relate.

use vstd::arithmetic::div_mod::{lemma_div_is_ordered, lemma_fundamental_div_mod_converse};
use vstd::prelude::*;

use crate::errors::KoraError;
use crate::price_book::{lemma_aggregate_positive, valid_book, PriceData};
use crate::price_oracle::{
    lemma_scaled_in_range, payable, quotient, scaled, OracleState, PRICE_SCALE,
};
use crate::types::{Address, Symbol};

verus! {

/// Where a quotient of numbers that are not negative lies.
proof fn lemma_quotient_bounds(a: int, b: int)
    requires
        a >= 0,
        b > 0,
    ensures
        (a / b) * b <= a < (a / b + 1) * b,
        a / b >= 0,
        a / b > 0 <==> a >= b,
{
    assert((a / b) * b <= a < (a / b + 1) * b && a / b >= 0) by (nonlinear_arith)
        requires
            a >= 0,
            b > 0,
    ;
    let q = a / b;
    assert(q > 0 ==> a >= b) by (nonlinear_arith)
        requires
            q * b <= a,
            b > 0,
    ;
    assert(a >= b ==> q > 0) by (nonlinear_arith)
        requires
            a < (q + 1) * b,
            b > 0,
    ;
}

/// A number with the bounds of a quotient is that quotient.
proof fn lemma_quotient_is(a: int, b: int, q: int)
    requires
        a >= 0,
        b > 0,
        q * b <= a < (q + 1) * b,
    ensures
        a / b == q,
{
    let r = a - q * b;
    assert((q + 1) * b == q * b + b) by (nonlinear_arith);
    lemma_fundamental_div_mod_converse(a, b, q, r);
}

/// What `payable` makes of a product over a positive denominator.
proof fn lemma_payable(amount: int, num: int, den: int)
    requires
        den > 0,
    ensures
        ({
            let p = amount * num;
            let r = payable(scaled(amount, num, den));
            &&& r is Ok <==> den <= p <= i128::MAX
            &&& r matches Ok(x) ==> x * den <= p < (x + 1) * den
            &&& p < i128::MIN || p > i128::MAX ==> r == Err::<i128, KoraError>(
                KoraError::ArithmeticOverflow,
            )
            &&& i128::MIN <= p < den && p <= i128::MAX ==> r == Err::<i128, KoraError>(
                KoraError::InvalidAmount,
            )
        }),
{
    let p = amount * num;
    lemma_scaled_in_range(amount, num, den);
    if p >= 0 {
        lemma_quotient_bounds(p, den);
    } else {
        lemma_quotient_bounds(-p, den);
    }
}

/// A conversion by the pair's own price gives the amount times the price over ten
/// million, rounded down. It fails where that is not at least 1 or where the
/// product does not fit.
pub proof fn law_direct_conversion(
    state: OracleState,
    now: u64,
    amount: i128,
    from: Symbol,
    to: Symbol,
    rate: PriceData,
)
    requires
        from != to,
        state.price_read(now, from, to) == Ok::<PriceData, KoraError>(rate),
    ensures
        ({
            let p = amount * rate.price;
            let r = state.converted(now, amount, from, to);
            &&& r is Ok <==> 10_000_000 <= p <= i128::MAX
            &&& r matches Ok(x) ==> x * 10_000_000 <= p < (x + 1) * 10_000_000
            &&& p < i128::MIN || p > i128::MAX ==> r == Err::<i128, KoraError>(
                KoraError::ArithmeticOverflow,
            )
            &&& i128::MIN <= p < 10_000_000 ==> r == Err::<i128, KoraError>(
                KoraError::InvalidAmount,
            )
        }),
{
    lemma_payable(amount as int, rate.price as int, 10_000_000);
}

/// A conversion through the base currency, whose price in the wanted currency is
/// fresh. `mid` is the amount times the price of the first leg over ten million,
/// rounded toward zero; the result is `mid` times the price of the second leg over
/// ten million, rounded down.
pub proof fn law_conversion_through_base_currency(
    state: OracleState,
    now: u64,
    amount: i128,
    from: Symbol,
    to: Symbol,
    hub: Symbol,
    first: PriceData,
    second: PriceData,
    mid: int,
)
    requires
        valid_book(state.book),
        from != to,
        state.price_read(now, from, to) is Err,
        state.base_currency == Some(hub),
        from != hub,
        to != hub,
        state.price_read(now, from, hub) == Ok::<PriceData, KoraError>(first),
        state.price_read(now, hub, to) == Ok::<PriceData, KoraError>(second),
        amount >= 0 ==> mid * 10_000_000 <= amount * first.price < (mid + 1) * 10_000_000,
        amount < 0 ==> (mid - 1) * 10_000_000 < amount * first.price <= mid * 10_000_000,
    ensures
        ({
            let p = amount * first.price;
            let q = mid * second.price;
            let r = state.converted(now, amount, from, to);
            let fits = i128::MIN <= p <= i128::MAX && i128::MIN <= q <= i128::MAX;
            &&& r is Ok <==> fits && q >= 10_000_000
            &&& r matches Ok(x) ==> x * 10_000_000 <= q < (x + 1) * 10_000_000
            &&& !fits ==> r == Err::<i128, KoraError>(KoraError::ArithmeticOverflow)
            &&& fits && q < 10_000_000 ==> r == Err::<i128, KoraError>(KoraError::InvalidAmount)
        }),
{
    lemma_first_leg(state, now, amount, from, hub, first, mid);
    lemma_payable(mid, second.price as int, 10_000_000);
}

/// A conversion through the base currency, whose price in the wanted currency is
/// not fresh but which the wanted currency has a fresh price in: the second leg
/// divides by that price.
pub proof fn law_conversion_through_inverse_price(
    state: OracleState,
    now: u64,
    amount: i128,
    from: Symbol,
    to: Symbol,
    hub: Symbol,
    first: PriceData,
    second: PriceData,
    mid: int,
)
    requires
        valid_book(state.book),
        from != to,
        state.price_read(now, from, to) is Err,
        state.base_currency == Some(hub),
        from != hub,
        to != hub,
        state.price_read(now, from, hub) == Ok::<PriceData, KoraError>(first),
        state.price_read(now, hub, to) is Err,
        state.price_read(now, to, hub) == Ok::<PriceData, KoraError>(second),
        amount >= 0 ==> mid * 10_000_000 <= amount * first.price < (mid + 1) * 10_000_000,
        amount < 0 ==> (mid - 1) * 10_000_000 < amount * first.price <= mid * 10_000_000,
    ensures
        ({
            let p = amount * first.price;
            let q = mid * 10_000_000;
            let r = state.converted(now, amount, from, to);
            let fits = i128::MIN <= p <= i128::MAX && i128::MIN <= q <= i128::MAX;
            &&& r is Ok <==> fits && q >= second.price
            &&& r matches Ok(x) ==> x * second.price <= q < (x + 1) * second.price
            &&& !fits ==> r == Err::<i128, KoraError>(KoraError::ArithmeticOverflow)
            &&& fits && q < second.price ==> r == Err::<i128, KoraError>(KoraError::InvalidAmount)
        }),
{
    lemma_first_leg(state, now, amount, from, hub, first, mid);
    lemma_aggregate_positive(state.book, now, to, hub);
    lemma_payable(mid, 10_000_000, second.price as int);
}

/// What the first leg gives.
proof fn lemma_first_leg(
    state: OracleState,
    now: u64,
    amount: i128,
    from: Symbol,
    hub: Symbol,
    first: PriceData,
    mid: int,
)
    requires
        valid_book(state.book),
        state.price_read(now, from, hub) == Ok::<PriceData, KoraError>(first),
        amount >= 0 ==> mid * 10_000_000 <= amount * first.price < (mid + 1) * 10_000_000,
        amount < 0 ==> (mid - 1) * 10_000_000 < amount * first.price <= mid * 10_000_000,
    ensures
        state.price(now, from, hub) == Some(first),
        quotient(amount * first.price, 10_000_000) == mid,
{
    lemma_aggregate_positive(state.book, now, from, hub);
    let p = amount * first.price;
    assert(amount >= 0 ==> p >= 0) by (nonlinear_arith)
        requires
            p == amount * first.price,
            first.price > 0,
    ;
    assert(amount < 0 ==> p < 0) by (nonlinear_arith)
        requires
            p == amount * first.price,
            first.price > 0,
    ;
    if amount >= 0 {
        lemma_quotient_is(p, 10_000_000, mid);
    } else {
        lemma_quotient_is(-p, 10_000_000, -mid);
    }
}

/// Without a fresh price of the pair, and without a base currency of a third kind
/// with fresh prices for both legs, a conversion between two currencies is refused.
pub proof fn law_no_route_no_conversion(
    state: OracleState,
    now: u64,
    amount: i128,
    from: Symbol,
    to: Symbol,
)
    requires
        from != to,
        state.price_read(now, from, to) is Err,
        state.base_currency matches Some(hub) ==> from == hub || to == hub || state.price_read(
            now,
            from,
            hub,
        ) is Err || (state.price_read(now, hub, to) is Err && state.price_read(now, to, hub) is Err),
    ensures
        state.converted(now, amount, from, to) == Err::<i128, KoraError>(KoraError::InvalidAmount),
{
}

/// Products over a common positive denominator, rounded toward zero, grow with the
/// amount, and the quotient of a sum is at least the sum of the quotients.
proof fn lemma_scaled_grows(a: int, b: int, num: int, den: int)
    requires
        0 <= a,
        0 <= b,
        num > 0,
        den > 0,
    ensures
        a <= b ==> quotient(a * num, den) <= quotient(b * num, den),
        quotient(a * num, den) + quotient(b * num, den) <= quotient((a + b) * num, den),
        quotient(a * num, den) >= 0,
{
    assert(a * num >= 0 && b * num >= 0 && (a + b) * num >= 0 && (a + b) * num == a * num + b * num)
        by (nonlinear_arith)
        requires
            0 <= a,
            0 <= b,
            num > 0,
    ;
    if a <= b {
        assert(a * num <= b * num) by (nonlinear_arith)
            requires
                a <= b,
                num > 0,
        ;
        lemma_div_is_ordered(a * num, b * num, den);
    }
    lemma_quotient_bounds(a * num, den);
    lemma_quotient_bounds(b * num, den);
    let x = (a * num) / den;
    let y = (b * num) / den;
    assert((x + y) * den == x * den + y * den) by (nonlinear_arith);
    lemma_div_is_ordered((x + y) * den, (a + b) * num, den);
    vstd::arithmetic::div_mod::lemma_div_by_multiple(x + y, den);
}

/// A conversion that succeeds between two currencies is of a positive amount, and
/// its result comes by one positive rate, or by two one after the other.
proof fn lemma_rates(state: OracleState, now: u64, from: Symbol, to: Symbol) -> (r: (
    int,
    int,
    int,
    int,
))
    requires
        valid_book(state.book),
        from != to,
    ensures
        r.0 > 0,
        r.1 > 0,
        r.2 > 0,
        r.3 > 0,
        forall|amount: i128| #[trigger]
            state.converted(now, amount, from, to) matches Ok(x) ==> amount > 0 && x == quotient(
                quotient(amount * r.0, r.1) * r.2,
                r.3,
            ),
{
    let scale = PRICE_SCALE as int;
    lemma_aggregate_positive(state.book, now, from, to);
    let r = match state.price(now, from, to) {
        Some(direct) => (direct.price as int, scale, 1int, 1int),
        None => match state.base_currency {
            Some(hub) => {
                lemma_aggregate_positive(state.book, now, from, hub);
                lemma_aggregate_positive(state.book, now, hub, to);
                lemma_aggregate_positive(state.book, now, to, hub);
                match (state.price(now, from, hub), state.rate_from_hub(now, hub, to)) {
                    (Some(first), Some((num, den))) => (first.price as int, scale, num, den),
                    _ => (1int, 1int, 1int, 1int),
                }
            },
            None => (1int, 1int, 1int, 1int),
        },
    };
    assert forall|amount: i128| #[trigger]
        state.converted(now, amount, from, to) is Ok implies amount > 0 && state.converted(
        now,
        amount,
        from,
        to,
    )->Ok_0 == quotient(quotient(amount * r.0, r.1) * r.2, r.3) by {
        lemma_scaled_in_range(amount as int, r.0, r.1);
        let mid = quotient(amount * r.0, r.1);
        lemma_scaled_in_range(mid, r.2, r.3);
        if amount <= 0 {
            assert(amount * r.0 <= 0) by (nonlinear_arith)
                requires
                    amount <= 0,
                    r.0 > 0,
            ;
            lemma_quotient_bounds(-(amount * r.0), r.1);
            assert(mid <= 0);
            assert(mid * r.2 <= 0) by (nonlinear_arith)
                requires
                    mid <= 0,
                    r.2 > 0,
            ;
            lemma_quotient_bounds(-(mid * r.2), r.3);
        }
        if state.price(now, from, to) is Some {
            assert(quotient(mid * 1, 1) == mid) by (nonlinear_arith);
        }
    }
    r
}

/// A larger amount converts to no less.
pub proof fn law_larger_amount_converts_to_no_less(
    state: OracleState,
    now: u64,
    less: i128,
    more: i128,
    from: Symbol,
    to: Symbol,
)
    requires
        valid_book(state.book),
        less <= more,
    ensures
        match (
            state.converted(now, less, from, to),
            state.converted(now, more, from, to),
        ) {
            (Ok(x), Ok(y)) => x <= y,
            _ => true,
        },
{
    if from != to {
        let (a, b, c, d) = lemma_rates(state, now, from, to);
        if let (Ok(x), Ok(y)) = (
            state.converted(now, less, from, to),
            state.converted(now, more, from, to),
        ) {
            lemma_scaled_grows(less as int, more as int, a, b);
            lemma_scaled_grows(more as int, more as int, a, b);
            lemma_scaled_grows(quotient(less * a, b), quotient(more * a, b), c, d);
        }
    }
}

/// Two amounts converted together give at least what they give apart; in
/// particular twice an amount gives at least twice as much.
pub proof fn law_amounts_convert_together_to_no_less(
    state: OracleState,
    now: u64,
    one: i128,
    other: i128,
    both: i128,
    from: Symbol,
    to: Symbol,
)
    requires
        valid_book(state.book),
        both == one + other,
    ensures
        match (
            state.converted(now, one, from, to),
            state.converted(now, other, from, to),
            state.converted(now, both, from, to),
        ) {
            (Ok(x), Ok(y), Ok(z)) => x + y <= z,
            _ => true,
        },
{
    if from != to {
        let (a, b, c, d) = lemma_rates(state, now, from, to);
        if let (Ok(x), Ok(y), Ok(z)) = (
            state.converted(now, one, from, to),
            state.converted(now, other, from, to),
            state.converted(now, both, from, to),
        ) {
            let mx = quotient(one * a, b);
            let my = quotient(other * a, b);
            let mz = quotient(both * a, b);
            lemma_scaled_grows(one as int, other as int, a, b);
            lemma_scaled_grows(other as int, one as int, a, b);
            lemma_scaled_grows(mx, my, c, d);
            lemma_scaled_grows(mx + my, mz, c, d);
        }
    }
}

/// A conversion by token addresses is the conversion between the symbols that the
/// tokens are registered with, and is refused where one of them has none.
pub proof fn law_tokens_convert_as_their_symbols(
    state: OracleState,
    now: u64,
    amount: i128,
    from_token: Address,
    to_token: Address,
)
    ensures
        state.symbols.contains_key(from_token) && state.symbols.contains_key(to_token)
            ==> state.converted_by_address(now, amount, from_token, to_token) == state.converted(
            now,
            amount,
            state.symbols[from_token],
            state.symbols[to_token],
        ),
        !state.symbols.contains_key(from_token) || !state.symbols.contains_key(to_token)
            ==> state.converted_by_address(now, amount, from_token, to_token) == Err::<
            i128,
            KoraError,
        >(KoraError::InvalidAddress),
{
}

} // verus!
