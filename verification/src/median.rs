//! The median of a list of prices.

use vstd::prelude::*;
use vstd::relations::{sorted_by, total_ordering};
use vstd::seq_lib::lemma_sorted_unique;

use crate::filters::{lemma_filter_keeps_all, lemma_filter_none};
use crate::host::{
    copy_prices, holds_prices, price_at, price_count, price_items, replace_price,
};

verus! {

/// The order of prices.
pub open spec fn price_order() -> spec_fn(i128, i128) -> bool {
    |a: i128, b: i128| a <= b
}

/// The prices from the lowest to the highest.
pub open spec fn ascending(prices: Seq<i128>) -> Seq<i128> {
    prices.sort_by(price_order())
}

/// Half of `x`, rounded toward zero.
pub open spec fn half(x: int) -> int {
    if x >= 0 {
        x / 2
    } else {
        -((-x) / 2)
    }
}

/// The middle price, or the mean of the two middle prices, rounded toward
/// zero; 0 for an empty list.
pub open spec fn median(prices: Seq<i128>) -> int {
    let n = prices.len() as int;
    let sorted = ascending(prices);
    if n == 0 {
        0
    } else if n % 2 == 1 {
        sorted[n / 2] as int
    } else {
        half(sorted[n / 2 - 1] + sorted[n / 2])
    }
}

/// How many of the prices lie between `lo` and `hi`, both included.
pub open spec fn count_within(prices: Seq<i128>, lo: int, hi: int) -> nat {
    prices.filter(|p: i128| lo <= p <= hi).len()
}

proof fn lemma_price_order_is_total()
    ensures
        total_ordering(price_order()),
{
    assert(total_ordering(price_order()));
}

/// A sorted rearrangement of `prices` is `ascending(prices)`.
proof fn lemma_ascending(prices: Seq<i128>, sorted: Seq<i128>)
    requires
        sorted.to_multiset() == prices.to_multiset(),
        forall|i: int, j: int| 0 <= i < j < sorted.len() ==> sorted[i] <= sorted[j],
    ensures
        ascending(prices) == sorted,
        sorted.len() == prices.len(),
{
    lemma_price_order_is_total();
    prices.lemma_sort_by_ensures(price_order());
    assert(sorted_by(sorted, price_order()));
    lemma_sorted_unique(ascending(prices), sorted, price_order());
    broadcast use vstd::seq_lib::group_to_multiset_ensures;
    assert(sorted.len() == sorted.to_multiset().len());
    assert(prices.len() == prices.to_multiset().len());
}

proof fn lemma_ascending_is_sorted(prices: Seq<i128>)
    ensures
        ascending(prices).len() == prices.len(),
        ascending(prices).to_multiset() == prices.to_multiset(),
        forall|i: int, j: int|
            0 <= i < j < prices.len() ==> ascending(prices)[i] <= ascending(prices)[j],
{
    lemma_price_order_is_total();
    prices.lemma_sort_by_ensures(price_order());
    let sorted = ascending(prices);
    broadcast use vstd::seq_lib::group_to_multiset_ensures;
    assert(sorted.len() == sorted.to_multiset().len());
    assert(prices.len() == prices.to_multiset().len());
    assert forall|i: int, j: int| 0 <= i < j < sorted.len() implies sorted[i] <= sorted[j] by {
        assert(price_order()(sorted[i], sorted[j]));
    }
}

/// The price at position `i`.
pub(crate) fn item(prices: &soroban_sdk::Vec<i128>, i: u32) -> (r: i128)
    requires
        holds_prices(*prices),
        i < price_items(*prices).len() <= u32::MAX,
    ensures
        r == price_items(*prices)[i as int],
{
    match price_at(prices, i) {
        Some(price) => price,
        None => 0,
    }
}

/// The prices from the lowest to the highest.
pub(crate) fn sort_prices(prices: &soroban_sdk::Vec<i128>) -> (sorted: soroban_sdk::Vec<i128>)
    requires
        holds_prices(*prices),
        price_items(*prices).len() <= u32::MAX,
    ensures
        holds_prices(sorted),
        price_items(sorted) == ascending(price_items(*prices)),
        price_items(sorted).len() == price_items(*prices).len(),
        forall|i: int, j: int|
            0 <= i < j < price_items(sorted).len() ==> price_items(sorted)[i] <= price_items(
                sorted,
            )[j],
{
    let mut sorted: soroban_sdk::Vec<i128> = copy_prices(prices);
    let len: u32 = price_count(&sorted);
    let ghost given = price_items(*prices);
    let mut i: u32 = 0;
    while i < len
        invariant
            i <= len,
            holds_prices(sorted),
            price_items(sorted).len() == len,
            price_items(sorted).to_multiset() == given.to_multiset(),
            forall|a: int, b: int|
                0 <= a < b < len && a < i ==> price_items(sorted)[a] <= price_items(sorted)[b],
        decreases len - i,
    {
        let mut j: u32 = i;
        while j < len
            invariant
                i < len,
                i <= j <= len,
                holds_prices(sorted),
                price_items(sorted).len() == len,
                price_items(sorted).to_multiset() == given.to_multiset(),
                forall|a: int, b: int|
                    0 <= a < b < len && a < i ==> price_items(sorted)[a] <= price_items(sorted)[b],
                forall|b: int|
                    i <= b < j ==> price_items(sorted)[i as int] <= price_items(sorted)[b],
            decreases len - j,
        {
            let temp: i128 = item(&sorted, j);
            let head: i128 = item(&sorted, i);
            if temp < head {
                let ghost before = price_items(sorted);
                replace_price(&mut sorted, j, head);
                replace_price(&mut sorted, i, temp);
                proof {
                    let after = price_items(sorted);
                    broadcast use vstd::multiset::group_multiset_axioms;
                    vstd::seq_lib::to_multiset_update(before, j as int, head);
                    vstd::seq_lib::to_multiset_update(before.update(j as int, head), i as int, temp);
                    vstd::seq_lib::to_multiset_contains(before, temp);
                    vstd::seq_lib::to_multiset_contains(before, head);
                    assert(after.to_multiset() =~= before.to_multiset());
                }
            }
            j = j + 1;
        }
        i = i + 1;
    }
    proof {
        lemma_ascending(given, price_items(sorted));
    }
    sorted
}

/// The mean of two prices, rounded toward zero.
pub fn midpoint(a: i128, b: i128) -> (r: i128)
    requires
        a <= b,
    ensures
        r == half(a + b),
{
    match a.checked_add(b) {
        Some(sum) => sum / 2,
        None => if a > 0 {
            a + (b - a) / 2
        } else {
            b - (b - a) / 2
        },
    }
}

/// The median does not depend on the order in which the prices are listed.
pub proof fn law_median_ignores_order(prices: Seq<i128>, rearranged: Seq<i128>)
    requires
        prices.to_multiset() == rearranged.to_multiset(),
    ensures
        median(prices) == median(rearranged),
{
    lemma_ascending_is_sorted(prices);
    lemma_ascending(rearranged, ascending(prices));
}

/// Filtering keeps the same number of prices however they are arranged.
proof fn lemma_filter_multiset(prices: Seq<i128>, pred: spec_fn(i128) -> bool)
    ensures
        prices.filter(pred).to_multiset() == prices.to_multiset().filter(pred),
    decreases prices.len(),
{
    reveal(Seq::filter);
    broadcast use vstd::multiset::group_multiset_axioms;
    broadcast use vstd::seq_lib::group_to_multiset_ensures;
    if prices.len() == 0 {
        assert(prices.filter(pred).to_multiset() =~= prices.to_multiset().filter(pred));
    } else {
        let init = prices.drop_last();
        let last = prices.last();
        lemma_filter_multiset(init, pred);
        assert(prices =~= init.push(last));
        vstd::seq_lib::to_multiset_build(init, last);
        vstd::seq_lib::to_multiset_build(init.filter(pred), last);
        assert(prices.filter(pred).to_multiset() =~= prices.to_multiset().filter(pred));
    }
}

/// Of `prices`, at most those at positions `from..to` pass a test that all others fail.
proof fn lemma_filter_of_some(prices: Seq<i128>, pred: spec_fn(i128) -> bool, from: int, to: int)
    requires
        0 <= from <= to <= prices.len(),
        forall|i: int| 0 <= i < from ==> !pred(#[trigger] prices[i]),
        forall|i: int| to <= i < prices.len() ==> !pred(#[trigger] prices[i]),
    ensures
        prices.filter(pred).len() <= to - from,
{
    let head = prices.take(from);
    let body = prices.subrange(from, to);
    let tail = prices.skip(to);
    assert(prices =~= head + body + tail);
    Seq::filter_distributes_over_add(head + body, tail, pred);
    Seq::filter_distributes_over_add(head, body, pred);
    lemma_filter_none(head, pred);
    lemma_filter_none(tail, pred);
    body.lemma_filter_len(pred);
}

/// Where more than half of the prices lie between `lo` and `hi`, so does the
/// median, whatever the other prices are.
pub proof fn law_majority_holds_median(prices: Seq<i128>, lo: int, hi: int)
    requires
        2 * count_within(prices, lo, hi) > prices.len(),
    ensures
        lo <= median(prices) <= hi,
{
    let pred = |p: i128| lo <= p <= hi;
    let n = prices.len() as int;
    let sorted = ascending(prices);
    lemma_ascending_is_sorted(prices);
    lemma_filter_multiset(prices, pred);
    lemma_filter_multiset(sorted, pred);
    broadcast use vstd::seq_lib::group_to_multiset_ensures;
    assert(prices.filter(pred).to_multiset().len() == prices.filter(pred).len());
    assert(sorted.filter(pred).to_multiset().len() == sorted.filter(pred).len());
    let lower = (n - 1) / 2;
    let upper = n / 2;
    if sorted[lower] < lo {
        lemma_filter_of_some(sorted, pred, lower + 1, n);
    }
    if sorted[upper] > hi {
        lemma_filter_of_some(sorted, pred, 0, upper);
    }
}

/// Prices at positions `from..to` that all pass a test are all kept by it.
proof fn lemma_filter_keeps_range(prices: Seq<i128>, pred: spec_fn(i128) -> bool, from: int, to: int)
    requires
        0 <= from <= to <= prices.len(),
        forall|i: int| from <= i < to ==> pred(#[trigger] prices[i]),
    ensures
        prices.filter(pred).len() >= to - from,
{
    let head = prices.take(from);
    let body = prices.subrange(from, to);
    let tail = prices.skip(to);
    assert(prices =~= head + body + tail);
    Seq::filter_distributes_over_add(head + body, tail, pred);
    Seq::filter_distributes_over_add(head, body, pred);
    lemma_filter_keeps_all(body, pred);
}

/// Sorting does not change how many prices pass a test.
proof fn lemma_count_in_sorted(prices: Seq<i128>, pred: spec_fn(i128) -> bool)
    ensures
        prices.filter(pred).len() == ascending(prices).filter(pred).len(),
{
    let sorted = ascending(prices);
    lemma_ascending_is_sorted(prices);
    lemma_filter_multiset(prices, pred);
    lemma_filter_multiset(sorted, pred);
    broadcast use vstd::seq_lib::group_to_multiset_ensures;
    assert(prices.filter(pred).to_multiset().len() == prices.filter(pred).len());
    assert(sorted.filter(pred).to_multiset().len() == sorted.filter(pred).len());
}

/// The median is the mean, rounded toward zero, of a lower and an upper middle
/// price of the list. At least half of the prices are at most the lower one and
/// more than half are at least it; more than half are at most the upper one and at
/// least half are at least it. For an odd number of prices the two are the same
/// price. The median of no prices is 0.
pub proof fn law_median_is_mean_of_middle_prices(prices: Seq<i128>)
    ensures
        prices.len() == 0 ==> median(prices) == 0,
        prices.len() > 0 ==> exists|lo: i128, hi: i128|
            {
                &&& #[trigger] prices.contains(lo) && #[trigger] prices.contains(hi)
                &&& 2 * prices.filter(|p: i128| p <= lo).len() >= prices.len()
                &&& 2 * prices.filter(|p: i128| p >= lo).len() > prices.len()
                &&& 2 * prices.filter(|p: i128| p <= hi).len() > prices.len()
                &&& 2 * prices.filter(|p: i128| p >= hi).len() >= prices.len()
                &&& prices.len() % 2 == 1 ==> lo == hi
                &&& lo + hi >= 0 ==> 2 * median(prices) <= lo + hi <= 2 * median(prices) + 1
                &&& lo + hi <= 0 ==> 2 * median(prices) - 1 <= lo + hi <= 2 * median(prices)
            },
{
    let n = prices.len() as int;
    if n > 0 {
        let sorted = ascending(prices);
        lemma_ascending_is_sorted(prices);
        let a = (n - 1) / 2;
        let b = n / 2;
        let lo = sorted[a];
        let hi = sorted[b];
        vstd::seq_lib::to_multiset_contains(sorted, lo);
        vstd::seq_lib::to_multiset_contains(prices, lo);
        vstd::seq_lib::to_multiset_contains(sorted, hi);
        vstd::seq_lib::to_multiset_contains(prices, hi);
        assert(sorted.contains(lo) && sorted.contains(hi));
        lemma_count_in_sorted(prices, |p: i128| p <= lo);
        lemma_count_in_sorted(prices, |p: i128| p >= lo);
        lemma_count_in_sorted(prices, |p: i128| p <= hi);
        lemma_count_in_sorted(prices, |p: i128| p >= hi);
        lemma_filter_keeps_range(sorted, |p: i128| p <= lo, 0, a + 1);
        lemma_filter_keeps_range(sorted, |p: i128| p >= lo, a, n);
        lemma_filter_keeps_range(sorted, |p: i128| p <= hi, 0, b + 1);
        lemma_filter_keeps_range(sorted, |p: i128| p >= hi, b, n);
        assert(prices.contains(lo) && prices.contains(hi));
    }
}

/// There is only one lower and one upper middle price: whatever prices split the
/// list as they do, the median is the mean of those.
pub proof fn law_median_of_any_middle_prices(prices: Seq<i128>, lo: i128, hi: i128)
    requires
        prices.len() > 0,
        2 * prices.filter(|p: i128| p <= lo).len() >= prices.len(),
        2 * prices.filter(|p: i128| p >= lo).len() > prices.len(),
        2 * prices.filter(|p: i128| p <= hi).len() > prices.len(),
        2 * prices.filter(|p: i128| p >= hi).len() >= prices.len(),
    ensures
        lo + hi >= 0 ==> 2 * median(prices) <= lo + hi <= 2 * median(prices) + 1,
        lo + hi <= 0 ==> 2 * median(prices) - 1 <= lo + hi <= 2 * median(prices),
{
    let n = prices.len() as int;
    let sorted = ascending(prices);
    lemma_ascending_is_sorted(prices);
    let a = (n - 1) / 2;
    let b = n / 2;
    lemma_count_in_sorted(prices, |p: i128| p <= lo);
    lemma_count_in_sorted(prices, |p: i128| p >= lo);
    lemma_count_in_sorted(prices, |p: i128| p <= hi);
    lemma_count_in_sorted(prices, |p: i128| p >= hi);
    if lo < sorted[a] {
        lemma_filter_of_some(sorted, |p: i128| p <= lo, 0, a);
    }
    if lo > sorted[a] {
        lemma_filter_of_some(sorted, |p: i128| p >= lo, a + 1, n);
    }
    if hi < sorted[b] {
        lemma_filter_of_some(sorted, |p: i128| p <= hi, 0, b);
    }
    if hi > sorted[b] {
        lemma_filter_of_some(sorted, |p: i128| p >= hi, b + 1, n);
    }
    assert(lo == sorted[a] && hi == sorted[b]);
}

/// Where all prices are the same, that is the median.
pub proof fn law_median_of_equal_prices(prices: Seq<i128>, price: i128)
    requires
        prices.len() > 0,
        forall|i: int| 0 <= i < prices.len() ==> #[trigger] prices[i] == price,
    ensures
        median(prices) == price,
{
    law_median_within_bounds(prices, price as int, price as int);
}

/// The median lies between any two bounds that hold all prices.
pub proof fn law_median_within_bounds(prices: Seq<i128>, lo: int, hi: int)
    requires
        prices.len() > 0,
        forall|i: int| 0 <= i < prices.len() ==> lo <= #[trigger] prices[i] <= hi,
    ensures
        lo <= median(prices) <= hi,
{
    lemma_ascending_is_sorted(prices);
    let sorted = ascending(prices);
    assert forall|i: int| 0 <= i < sorted.len() implies lo <= #[trigger] sorted[i] <= hi by {
        vstd::seq_lib::to_multiset_contains(sorted, sorted[i]);
        vstd::seq_lib::to_multiset_contains(prices, sorted[i]);
        assert(sorted.contains(sorted[i]));
        assert(prices.contains(sorted[i]));
    }
}

} // verus!
