//! What the library asks of the contract host: lists of prices, and a digest.

use vstd::prelude::*;

verus! {

/// The contract host, as `soroban_sdk` hands it to a contract.
#[verifier::external_type_specification]
#[verifier::external_body]
pub struct ExEnv(soroban_sdk::Env);

/// A list of values that the contract host keeps.
#[verifier::external_type_specification]
#[verifier::external_body]
#[verifier::reject_recursive_types(T)]
pub struct ExHostVec<T>(soroban_sdk::Vec<T>);

/// The prices in a list of the host.
pub uninterp spec fn price_items(prices: soroban_sdk::Vec<i128>) -> Seq<i128>;

/// Whether every item in a list of the host is a price. A list that comes from
/// outside may hold anything; one that is built here holds prices.
pub uninterp spec fn holds_prices(prices: soroban_sdk::Vec<i128>) -> bool;

/// The list that `soroban_sdk::Vec::new` makes: it has no items.
#[verifier::external_body]
pub(crate) fn new_prices(env: &soroban_sdk::Env) -> (r: soroban_sdk::Vec<i128>)
    ensures
        holds_prices(r),
        price_items(r) == Seq::<i128>::empty(),
{
    soroban_sdk::Vec::new(env)
}

/// What `soroban_sdk::Vec::push_back` does: the list has one more price, at its
/// end. The host counts items in 32 bits.
#[verifier::external_body]
pub(crate) fn push_price(prices: &mut soroban_sdk::Vec<i128>, price: i128)
    requires
        holds_prices(*old(prices)),
        price_items(*old(prices)).len() < u32::MAX,
    ensures
        holds_prices(*final(prices)),
        price_items(*final(prices)) == price_items(*old(prices)).push(price),
{
    prices.push_back(price)
}

/// The number of items that `soroban_sdk::Vec::len` gives. The host counts items
/// in 32 bits.
#[verifier::external_body]
pub(crate) fn price_count(prices: &soroban_sdk::Vec<i128>) -> (r: u32)
    requires
        holds_prices(*prices),
        price_items(*prices).len() <= u32::MAX,
    ensures
        r == price_items(*prices).len(),
{
    prices.len()
}

/// The price at position `i` that `soroban_sdk::Vec::get` gives, `None` past the
/// end.
#[verifier::external_body]
pub(crate) fn price_at(prices: &soroban_sdk::Vec<i128>, i: u32) -> (r: Option<i128>)
    requires
        holds_prices(*prices),
        price_items(*prices).len() <= u32::MAX,
    ensures
        r == (if i < price_items(*prices).len() {
            Some(price_items(*prices)[i as int])
        } else {
            None
        }),
{
    prices.get(i)
}

/// What `soroban_sdk::Vec::set` does: position `i` has another price, the other
/// positions keep theirs.
#[verifier::external_body]
pub(crate) fn replace_price(prices: &mut soroban_sdk::Vec<i128>, i: u32, price: i128)
    requires
        holds_prices(*old(prices)),
        i < price_items(*old(prices)).len(),
    ensures
        holds_prices(*final(prices)),
        price_items(*final(prices)) == price_items(*old(prices)).update(i as int, price),
{
    prices.set(i, price)
}

/// The list that the `clone` of a `soroban_sdk::Vec` gives: it has the same items,
/// and a change to one of the two lists leaves the other as it is.
#[verifier::external_body]
pub(crate) fn copy_prices(prices: &soroban_sdk::Vec<i128>) -> (r: soroban_sdk::Vec<i128>)
    requires
        holds_prices(*prices),
    ensures
        holds_prices(r),
        price_items(r) == price_items(*prices),
{
    prices.clone()
}

/// The SHA-256 digest of `data`.
pub uninterp spec fn sha256_digest(data: Seq<u8>) -> Seq<u8>;

/// The digest that `soroban_sdk::crypto::Crypto::sha256` computes: the SHA-256
/// digest of the bytes, which depends on nothing else. The host holds at most
/// `u32::MAX` bytes in one value.
#[verifier::external_body]
pub(crate) fn sha256(env: &soroban_sdk::Env, data: &Vec<u8>) -> (r: [u8; 32])
    requires
        data@.len() <= u32::MAX,
    ensures
        r@ == sha256_digest(data@),
{
    let bytes = soroban_sdk::Bytes::from_slice(env, data.as_slice());
    env.crypto().sha256(&bytes).to_array()
}

} // verus!
