//! The price oracle: authorized feeders submit prices for currency pairs, and
//! anyone reads the aggregate or converts an amount by it.

use vstd::prelude::*;

use crate::errors::KoraError;
use crate::host::{holds_prices, price_count, price_items};
use crate::median::{item, median, midpoint, sort_prices};
use crate::price_book::{
    aggregate, has_submitted, lemma_aggregate_positive, recorded, PriceBook, PriceData, Submission,
};
use crate::table::Table;
use crate::types::{Address, Key, Symbol};

verus! {

/// The deviation limit that holds until another one is set: 10 %.
pub const DEFAULT_MAX_PRICE_DEVIATION_BPS: u32 = 1000;

/// The factor by which prices are scaled.
pub const PRICE_SCALE: i128 = 10_000_000;

/// One hundred percent, in basis points.
pub const BPS: i128 = 10_000;

/// What the oracle knows, as a mathematical value.
#[verifier::ext_equal]
pub struct OracleState {
    pub admin: Option<Address>,
    pub max_deviation: Option<u32>,
    pub base_currency: Option<Symbol>,
    pub feeders: Set<Address>,
    pub symbols: Map<Address, Symbol>,
    pub book: Seq<Submission>,
}

/// The quotient of `a` by a positive `b`, rounded toward zero.
pub open spec fn quotient(a: int, b: int) -> int {
    if a >= 0 {
        a / b
    } else {
        -((-a) / b)
    }
}

/// `amount` times `num` over `den`, rounded toward zero, if the product fits in
/// an `i128`.
pub open spec fn scaled(amount: int, num: int, den: int) -> Option<int> {
    if i128::MIN <= amount * num <= i128::MAX {
        Some(quotient(amount * num, den))
    } else {
        None
    }
}

/// The outcome of a conversion that computes `converted`: an amount must come
/// out, and it must be positive.
pub open spec fn payable(converted: Option<int>) -> Result<i128, KoraError> {
    match converted {
        None => Err(KoraError::ArithmeticOverflow),
        Some(x) => if x <= 0 {
            Err(KoraError::InvalidAmount)
        } else {
            Ok(x as i128)
        },
    }
}

/// How far apart two prices are.
pub open spec fn gap(a: int, b: int) -> int {
    if a > b {
        a - b
    } else {
        b - a
    }
}

impl OracleState {
    /// The state before initialization.
    pub open spec fn blank() -> OracleState {
        OracleState {
            admin: None,
            max_deviation: None,
            base_currency: None,
            feeders: Set::empty(),
            symbols: Map::empty(),
            book: Seq::empty(),
        }
    }

    /// Whether `caller` may act as the admin, and the refusal if not.
    pub open spec fn admin_check(self, caller: Address) -> Result<(), KoraError> {
        match self.admin {
            None => Err(KoraError::NotInitialized),
            Some(admin) => if admin == caller {
                Ok(())
            } else {
                Err(KoraError::NotAdmin)
            },
        }
    }

    /// The deviation limit in force, in basis points.
    pub open spec fn deviation_limit(self) -> u32 {
        match self.max_deviation {
            Some(bps) => bps,
            None => DEFAULT_MAX_PRICE_DEVIATION_BPS,
        }
    }

    /// The aggregated price of the pair at time `now`, if there is a fresh one.
    pub open spec fn price(self, now: u64, base: Symbol, quote: Symbol) -> Option<PriceData> {
        aggregate(self.book, now, base, quote)
    }

    /// Whether `new_price` is close enough to the aggregated price of the pair:
    /// the gap, in whole basis points of the aggregated price, is at most the limit.
    pub open spec fn deviation_check(
        self,
        now: u64,
        base: Symbol,
        quote: Symbol,
        new_price: i128,
    ) -> Result<(), KoraError> {
        match self.price(now, base, quote) {
            None => Ok(()),
            Some(current) => {
                let scaled_gap = gap(new_price as int, current.price as int) * BPS;
                if scaled_gap > i128::MAX {
                    Err(KoraError::ArithmeticOverflow)
                } else if scaled_gap / current.price as int > self.deviation_limit() {
                    Err(KoraError::InvalidAmount)
                } else {
                    Ok(())
                }
            },
        }
    }

    /// The state once `feeder` has submitted `price` at time `now`.
    pub open spec fn submitted(
        self,
        now: u64,
        feeder: Address,
        base: Symbol,
        quote: Symbol,
        price: i128,
    ) -> OracleState {
        let data = PriceData { price, timestamp: now };
        OracleState {
            book: recorded(self.book, Submission { base, quote, feeder, data }),
            ..self
        }
    }

    /// What `initialize` does.
    pub open spec fn initialized(self, admin: Address) -> Result<OracleState, KoraError> {
        if self.admin is Some {
            Err(KoraError::AlreadyInitialized)
        } else {
            Ok(
                OracleState {
                    admin: Some(admin),
                    max_deviation: Some(DEFAULT_MAX_PRICE_DEVIATION_BPS),
                    ..self
                },
            )
        }
    }

    /// What `set_price_override` does: a feeder may submit any positive price.
    pub open spec fn price_overridden(
        self,
        now: u64,
        feeder: Address,
        base: Symbol,
        quote: Symbol,
        price: i128,
    ) -> Result<OracleState, KoraError> {
        if !self.feeders.contains(feeder) {
            Err(KoraError::RoleNotAssigned)
        } else if price <= 0 {
            Err(KoraError::InvalidAmount)
        } else {
            Ok(self.submitted(now, feeder, base, quote, price))
        }
    }

    /// What `set_price` does: as an override, but a feeder that has a price for
    /// the pair already must stay close to the aggregated price.
    pub open spec fn price_set(
        self,
        now: u64,
        feeder: Address,
        base: Symbol,
        quote: Symbol,
        price: i128,
    ) -> Result<OracleState, KoraError> {
        match self.price_overridden(now, feeder, base, quote, price) {
            Err(e) => Err(e),
            Ok(next) => if has_submitted(self.book, base, quote, feeder) {
                match self.deviation_check(now, base, quote, price) {
                    Err(e) => Err(e),
                    Ok(()) => Ok(next),
                }
            } else {
                Ok(next)
            },
        }
    }

    /// The rate of the second leg of a conversion through `hub`, as a fraction:
    /// the price of `hub` in `to`, or else the inverse of the price of `to` in `hub`.
    pub open spec fn rate_from_hub(self, now: u64, hub: Symbol, to: Symbol) -> Option<(int, int)> {
        match self.price(now, hub, to) {
            Some(data) => Some((data.price as int, PRICE_SCALE as int)),
            None => match self.price(now, to, hub) {
                Some(data) => Some((PRICE_SCALE as int, data.price as int)),
                None => None,
            },
        }
    }

    /// What `convert` returns.
    pub open spec fn converted(self, now: u64, amount: i128, from: Symbol, to: Symbol) -> Result<
        i128,
        KoraError,
    > {
        if from == to {
            Ok(amount)
        } else {
            match self.price(now, from, to) {
                Some(direct) => payable(
                    scaled(amount as int, direct.price as int, PRICE_SCALE as int),
                ),
                None => self.converted_through_hub(now, amount, from, to),
            }
        }
    }

    /// The outcome of a conversion through the base currency.
    pub open spec fn converted_through_hub(
        self,
        now: u64,
        amount: i128,
        from: Symbol,
        to: Symbol,
    ) -> Result<i128, KoraError> {
        match self.base_currency {
            None => Err(KoraError::InvalidAmount),
            Some(hub) => if from == hub || to == hub {
                Err(KoraError::InvalidAmount)
            } else {
                match (self.price(now, from, hub), self.rate_from_hub(now, hub, to)) {
                    (Some(first), Some((num, den))) => match scaled(
                        amount as int,
                        first.price as int,
                        PRICE_SCALE as int,
                    ) {
                        None => Err(KoraError::ArithmeticOverflow),
                        Some(intermediate) => payable(scaled(intermediate, num, den)),
                    },
                    _ => Err(KoraError::InvalidAmount),
                }
            },
        }
    }

    /// What `get_price` returns.
    pub open spec fn price_read(self, now: u64, base: Symbol, quote: Symbol) -> Result<
        PriceData,
        KoraError,
    > {
        match self.price(now, base, quote) {
            Some(data) => Ok(data),
            None => Err(KoraError::InvalidAmount),
        }
    }

    /// What `convert_by_address` returns.
    pub open spec fn converted_by_address(
        self,
        now: u64,
        amount: i128,
        from_token: Address,
        to_token: Address,
    ) -> Result<i128, KoraError> {
        match (self.symbol_of(from_token), self.symbol_of(to_token)) {
            (Ok(from), Ok(to)) => self.converted(now, amount, from, to),
            _ => Err(KoraError::InvalidAddress),
        }
    }

    /// What `add_feeder` does.
    pub open spec fn feeder_added(self, admin: Address, feeder: Address) -> Result<
        OracleState,
        KoraError,
    > {
        by_admin(self, admin, OracleState { feeders: self.feeders.insert(feeder), ..self })
    }

    /// What `remove_feeder` does.
    pub open spec fn feeder_removed(self, admin: Address, feeder: Address) -> Result<
        OracleState,
        KoraError,
    > {
        by_admin(self, admin, OracleState { feeders: self.feeders.remove(feeder), ..self })
    }

    /// What `set_base_currency` does.
    pub open spec fn base_currency_set(self, admin: Address, base: Symbol) -> Result<
        OracleState,
        KoraError,
    > {
        by_admin(self, admin, OracleState { base_currency: Some(base), ..self })
    }

    /// What `set_max_deviation` does.
    pub open spec fn max_deviation_set(self, admin: Address, deviation_bps: u32) -> Result<
        OracleState,
        KoraError,
    > {
        by_admin(self, admin, OracleState { max_deviation: Some(deviation_bps), ..self })
    }

    /// What `register_token_symbol` does.
    pub open spec fn symbol_registered(self, admin: Address, token: Address, symbol: Symbol) -> Result<
        OracleState,
        KoraError,
    > {
        by_admin(self, admin, OracleState { symbols: self.symbols.insert(token, symbol), ..self })
    }

    /// What `resolve_symbol` returns.
    pub open spec fn symbol_of(self, token: Address) -> Result<Symbol, KoraError> {
        if self.symbols.contains_key(token) {
            Ok(self.symbols[token])
        } else {
            Err(KoraError::InvalidAddress)
        }
    }
}

/// What `scaled` gives fits in an `i128` where `den` is positive.
pub proof fn lemma_scaled_in_range(amount: int, num: int, den: int)
    requires
        den > 0,
    ensures
        scaled(amount, num, den) matches Some(x) ==> i128::MIN <= x <= i128::MAX,
{
    let p = amount * num;
    assert(p >= 0 ==> 0 <= p / den <= p) by (nonlinear_arith)
        requires
            den > 0,
    ;
    assert(p < 0 ==> 0 <= (-p) / den <= -p) by (nonlinear_arith)
        requires
            den > 0,
    ;
}

/// Whether a call did what `wanted` says: it succeeded and left the wanted
/// state, or it gave the wanted error and changed nothing.
pub open spec fn carried_out(
    before: OracleState,
    wanted: Result<OracleState, KoraError>,
    after: OracleState,
    result: Result<(), KoraError>,
) -> bool {
    match wanted {
        Ok(next) => result is Ok && after == next,
        Err(e) => result == Err::<(), KoraError>(e) && after == before,
    }
}

/// `wanted`, behind the admin check for `caller`.
pub open spec fn by_admin(
    before: OracleState,
    caller: Address,
    wanted: OracleState,
) -> Result<OracleState, KoraError> {
    match before.admin_check(caller) {
        Ok(()) => Ok(wanted),
        Err(e) => Err(e),
    }
}

/// The oracle's stored state.
#[derive(Debug)]
pub struct PriceOracleContract {
    pub admin: Option<Address>,
    pub max_deviation: Option<u32>,
    pub base_currency: Option<Symbol>,
    pub feeders: Table<Address, ()>,
    pub symbols: Table<Address, Symbol>,
    pub book: PriceBook,
}

impl View for PriceOracleContract {
    type V = OracleState;

    open spec fn view(&self) -> OracleState {
        OracleState {
            admin: self.admin,
            max_deviation: self.max_deviation,
            base_currency: self.base_currency,
            feeders: self.feeders@.dom(),
            symbols: self.symbols@,
            book: self.book@,
        }
    }
}

impl PriceOracleContract {
    /// An oracle that has not been initialized.
    pub fn new() -> (r: PriceOracleContract)
        ensures
            r@ == OracleState::blank(),
    {
        let r: PriceOracleContract = PriceOracleContract {
            admin: None,
            max_deviation: None,
            base_currency: None,
            feeders: Table::new(),
            symbols: Table::new(),
            book: PriceBook::new(),
        };
        assert(r@ =~= OracleState::blank());
        r
    }

    /// The middle price, or the mean of the two middle prices, rounded toward
    /// zero; 0 for an empty list.
    pub fn calculate_median(prices: &soroban_sdk::Vec<i128>) -> (r: i128)
        requires
            holds_prices(*prices),
            price_items(*prices).len() <= u32::MAX,
        ensures
            r == median(price_items(*prices)),
    {
        let len: u32 = price_count(prices);
        if len == 0 {
            return 0;
        }
        let sorted: soroban_sdk::Vec<i128> = sort_prices(prices);
        if len % 2 == 1 {
            item(&sorted, len / 2)
        } else {
            midpoint(item(&sorted, len / 2 - 1), item(&sorted, len / 2))
        }
    }

    /// One-time initialization. Sets the admin and the default deviation limit.
    pub fn initialize(&mut self, admin: Address) -> (r: Result<(), KoraError>)
        ensures
            carried_out(old(self)@, old(self)@.initialized(admin), final(self)@, r),
    {
        if self.admin.is_some() {
            return Err(KoraError::AlreadyInitialized);
        }
        self.admin = Some(admin);
        self.max_deviation = Some(DEFAULT_MAX_PRICE_DEVIATION_BPS);
        Ok(())
    }

    /// Submits a price for a currency pair at time `now`. Authorized feeders only.
    ///
    /// A price says how much of `quote` one unit of `base` is worth, scaled by
    /// `PRICE_SCALE`. The first price of a feeder for a pair is accepted as it
    /// is; a later one must not deviate from the current aggregated price by
    /// more than the limit.
    pub fn set_price(
        &mut self,
        env: &soroban_sdk::Env,
        now: u64,
        feeder: Address,
        base: Symbol,
        quote: Symbol,
        price: i128,
    ) -> (r: Result<(), KoraError>)
        requires
            old(self)@.book.len() <= u32::MAX,
        ensures
            carried_out(
                old(self)@,
                old(self)@.price_set(now, feeder, base, quote, price),
                final(self)@,
                r,
            ),
    {
        self.require_feeder(&feeder)?;
        if price <= 0 {
            return Err(KoraError::InvalidAmount);
        }
        if self.book.has_submitted(&base, &quote, &feeder) {
            self.check_price_deviation(env, now, base, quote, price)?;
        }
        let data: PriceData = PriceData { price, timestamp: now };
        self.book.record(Submission { base, quote, feeder, data });
        Ok(())
    }

    /// Submits a price without the deviation check. Authorized feeders only.
    /// For legitimate large moves, such as a lost peg.
    pub fn set_price_override(
        &mut self,
        now: u64,
        feeder: Address,
        base: Symbol,
        quote: Symbol,
        price: i128,
    ) -> (r: Result<(), KoraError>)
        ensures
            carried_out(
                old(self)@,
                old(self)@.price_overridden(now, feeder, base, quote, price),
                final(self)@,
                r,
            ),
    {
        self.require_feeder(&feeder)?;
        if price <= 0 {
            return Err(KoraError::InvalidAmount);
        }
        let data: PriceData = PriceData { price, timestamp: now };
        self.book.record(Submission { base, quote, feeder, data });
        Ok(())
    }

    /// Authorizes a feeder. Admin only.
    pub fn add_feeder(&mut self, admin: Address, feeder: Address) -> (r: Result<(), KoraError>)
        ensures
            carried_out(
                old(self)@,
                by_admin(
                    old(self)@,
                    admin,
                    OracleState { feeders: old(self)@.feeders.insert(feeder), ..old(self)@ },
                ),
                final(self)@,
                r,
            ),
            carried_out(old(self)@, old(self)@.feeder_added(admin, feeder), final(self)@, r),
    {
        self.require_admin(&admin)?;
        self.feeders.set(feeder, ());
        assert(self.feeders@.dom() =~= old(self).feeders@.dom().insert(feeder));
        Ok(())
    }

    /// Withdraws the authorization of a feeder. Admin only.
    pub fn remove_feeder(&mut self, admin: Address, feeder: Address) -> (r: Result<(), KoraError>)
        ensures
            carried_out(
                old(self)@,
                by_admin(
                    old(self)@,
                    admin,
                    OracleState { feeders: old(self)@.feeders.remove(feeder), ..old(self)@ },
                ),
                final(self)@,
                r,
            ),
            carried_out(old(self)@, old(self)@.feeder_removed(admin, feeder), final(self)@, r),
    {
        self.require_admin(&admin)?;
        self.feeders.remove(&feeder);
        assert(self.feeders@.dom() =~= old(self).feeders@.dom().remove(feeder));
        Ok(())
    }

    /// Sets the base currency through which conversions go that have no price
    /// of their own. Admin only.
    pub fn set_base_currency(&mut self, admin: Address, base: Symbol) -> (r: Result<(), KoraError>)
        ensures
            carried_out(
                old(self)@,
                by_admin(
                    old(self)@,
                    admin,
                    OracleState { base_currency: Some(base), ..old(self)@ },
                ),
                final(self)@,
                r,
            ),
            carried_out(old(self)@, old(self)@.base_currency_set(admin, base), final(self)@, r),
    {
        self.require_admin(&admin)?;
        self.base_currency = Some(base);
        Ok(())
    }

    /// Sets the deviation limit, in basis points. Admin only.
    pub fn set_max_deviation(&mut self, admin: Address, deviation_bps: u32) -> (r: Result<
        (),
        KoraError,
    >)
        ensures
            carried_out(
                old(self)@,
                by_admin(
                    old(self)@,
                    admin,
                    OracleState { max_deviation: Some(deviation_bps), ..old(self)@ },
                ),
                final(self)@,
                r,
            ),
            carried_out(old(self)@, old(self)@.max_deviation_set(admin, deviation_bps), final(self)@, r),
    {
        self.require_admin(&admin)?;
        self.max_deviation = Some(deviation_bps);
        Ok(())
    }

    /// The aggregated price of a pair at time `now`: the median of all fresh
    /// prices, with the oldest of their timestamps. Fails if there is no fresh price.
    pub fn get_price(&self, env: &soroban_sdk::Env, now: u64, base: Symbol, quote: Symbol) -> (r:
        Result<PriceData, KoraError>)
        requires
            self@.book.len() <= u32::MAX,
        ensures
            match self@.price(now, base, quote) {
                Some(data) => r == Ok::<PriceData, KoraError>(data),
                None => r == Err::<PriceData, KoraError>(KoraError::InvalidAmount),
            },
            r == self@.price_read(now, base, quote),
    {
        proof {
            use_type_invariant(&self.book);
            lemma_aggregate_positive(self.book@, now, base, quote);
        }
        let (prices, min_timestamp): (soroban_sdk::Vec<i128>, u64) = self.book.fresh_prices(
            env,
            now,
            &base,
            &quote,
        );
        if price_count(&prices) == 0 {
            return Err(KoraError::InvalidAmount);
        }
        let median: i128 = Self::calculate_median(&prices);
        Ok(PriceData { price: median, timestamp: min_timestamp })
    }

    /// `amount` times `num` over `den`, rounded toward zero, if the product fits.
    fn mul_div(amount: i128, num: i128, den: i128) -> (r: Option<i128>)
        requires
            den > 0,
        ensures
            match scaled(amount as int, num as int, den as int) {
                Some(x) => r == Some(x as i128) && i128::MIN <= x <= i128::MAX,
                None => r is None,
            },
    {
        proof {
            lemma_scaled_in_range(amount as int, num as int, den as int);
        }
        match amount.checked_mul(num) {
            Some(product) => product.checked_div(den),
            None => None,
        }
    }

    /// Converts an amount from one currency to another at time `now`.
    ///
    /// Goes by the price of the pair if there is a fresh one. Otherwise goes
    /// through the base currency: from `from` to it by the price of that pair,
    /// then on to `to` by the price of the base currency in `to`, or by the
    /// inverse of the price of `to` in the base currency. Stale and missing
    /// prices are refused, and so is a result that is not positive.
    pub fn convert(
        &self,
        env: &soroban_sdk::Env,
        now: u64,
        amount: i128,
        from: Symbol,
        to: Symbol,
    ) -> (r: Result<i128, KoraError>)
        requires
            self@.book.len() <= u32::MAX,
        ensures
            r == self@.converted(now, amount, from, to),
    {
        if from.same(&to) {
            return Ok(amount);
        }
        let converted: Option<i128> = match self.get_price(env, now, from, to) {
            Ok(direct) => Self::mul_div(amount, direct.price, PRICE_SCALE),
            Err(_) => {
                let hub: Symbol = match self.base_currency {
                    Some(hub) => hub,
                    None => {
                        return Err(KoraError::InvalidAmount);
                    },
                };
                if from.same(&hub) || to.same(&hub) {
                    return Err(KoraError::InvalidAmount);
                }
                let first: PriceData = self.get_price(env, now, from, hub)?;
                let (num, den): (i128, i128) = match self.get_price(env, now, hub, to) {
                    Ok(data) => (data.price, PRICE_SCALE),
                    Err(_) => {
                        let data: PriceData = self.get_price(env, now, to, hub)?;
                        (PRICE_SCALE, data.price)
                    },
                };
                proof {
                    use_type_invariant(&self.book);
                    lemma_aggregate_positive(self.book@, now, to, hub);
                }
                match Self::mul_div(amount, first.price, PRICE_SCALE) {
                    Some(intermediate) => Self::mul_div(intermediate, num, den),
                    None => None,
                }
            },
        };
        match converted {
            None => Err(KoraError::ArithmeticOverflow),
            Some(x) => if x <= 0 {
                Err(KoraError::InvalidAmount)
            } else {
                Ok(x)
            },
        }
    }

    /// Registers the currency symbol of a token. Admin only.
    pub fn register_token_symbol(&mut self, admin: Address, token: Address, symbol: Symbol) -> (r:
        Result<(), KoraError>)
        ensures
            carried_out(
                old(self)@,
                by_admin(
                    old(self)@,
                    admin,
                    OracleState { symbols: old(self)@.symbols.insert(token, symbol), ..old(self)@ },
                ),
                final(self)@,
                r,
            ),
            carried_out(old(self)@, old(self)@.symbol_registered(admin, token, symbol), final(self)@, r),
    {
        self.require_admin(&admin)?;
        self.symbols.set(token, symbol);
        Ok(())
    }

    /// The currency symbol registered for a token.
    pub fn resolve_symbol(&self, token: Address) -> (r: Result<Symbol, KoraError>)
        ensures
            r == self@.symbol_of(token),
    {
        match self.symbols.get(&token) {
            Some(symbol) => Ok(symbol),
            None => Err(KoraError::InvalidAddress),
        }
    }

    /// Converts an amount between the currencies of two tokens at time `now`.
    pub fn convert_by_address(
        &self,
        env: &soroban_sdk::Env,
        now: u64,
        amount: i128,
        from_token: Address,
        to_token: Address,
    ) -> (r: Result<i128, KoraError>)
        requires
            self@.book.len() <= u32::MAX,
        ensures
            r == (match (self@.symbol_of(from_token), self@.symbol_of(to_token)) {
                (Ok(from), Ok(to)) => self@.converted(now, amount, from, to),
                _ => Err(KoraError::InvalidAddress),
            }),
            r == self@.converted_by_address(now, amount, from_token, to_token),
    {
        let from: Symbol = self.resolve_symbol(from_token)?;
        let to: Symbol = self.resolve_symbol(to_token)?;
        self.convert(env, now, amount, from, to)
    }

    /// The deviation limit in force, in basis points.
    pub fn get_max_deviation(&self) -> (r: u32)
        ensures
            r == self@.deviation_limit(),
    {
        match self.max_deviation {
            Some(bps) => bps,
            None => DEFAULT_MAX_PRICE_DEVIATION_BPS,
        }
    }

    /// Refuses a price too far from the current aggregated price of the pair.
    fn check_price_deviation(
        &self,
        env: &soroban_sdk::Env,
        now: u64,
        base: Symbol,
        quote: Symbol,
        new_price: i128,
    ) -> (r: Result<(), KoraError>)
        requires
            self@.book.len() <= u32::MAX,
        ensures
            r == self@.deviation_check(now, base, quote, new_price),
    {
        proof {
            use_type_invariant(&self.book);
            lemma_aggregate_positive(self.book@, now, base, quote);
        }
        match self.get_price(env, now, base, quote) {
            Ok(current) => {
                let old_price: i128 = current.price;
                let change: Option<i128> = if new_price > old_price {
                    new_price.checked_sub(old_price)
                } else {
                    old_price.checked_sub(new_price)
                };
                let scaled_change: Option<i128> = match change {
                    Some(change) => change.checked_mul(BPS),
                    None => None,
                };
                match scaled_change {
                    Some(scaled_gap) => {
                        let deviation_bps: i128 = scaled_gap / old_price;
                        if deviation_bps > self.get_max_deviation() as i128 {
                            Err(KoraError::InvalidAmount)
                        } else {
                            Ok(())
                        }
                    },
                    None => Err(KoraError::ArithmeticOverflow),
                }
            },
            Err(_) => Ok(()),
        }
    }

    fn require_admin(&self, caller: &Address) -> (r: Result<(), KoraError>)
        ensures
            r == self@.admin_check(*caller),
    {
        match self.admin {
            None => Err(KoraError::NotInitialized),
            Some(admin) => if admin.same(caller) {
                Ok(())
            } else {
                Err(KoraError::NotAdmin)
            },
        }
    }

    fn require_feeder(&self, feeder: &Address) -> (r: Result<(), KoraError>)
        ensures
            r == (if self@.feeders.contains(*feeder) {
                Ok::<(), KoraError>(())
            } else {
                Err(KoraError::RoleNotAssigned)
            }),
    {
        if self.feeders.get(feeder).is_none() {
            return Err(KoraError::RoleNotAssigned);
        }
        Ok(())
    }
}

} // verus!
