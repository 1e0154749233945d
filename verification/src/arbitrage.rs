//! Cross-market arbitrage: feeders post a token's price per market; an
//! opportunity exists when two prices differ by more than 1% of the lower
//! one; executing buys on the cheaper market and sells on the dearer one,
//! recording the profit.
use vstd::prelude::*;
use crate::num::{tdiv, div_i128};
use crate::table::{Table, pair, pair_key};
use crate::rental::{ids_of, collect_ids};

verus! {

/// Smallest profitable difference, in basis points of the lower price.
pub const MIN_PROFIT_THRESHOLD_BPS: i128 = 100;

/// Basis-point denominator.
pub const BPS: i128 = 10_000;

/// Errors of the arbitrage contract.
#[derive(Clone, Copy, Debug, PartialEq, Eq, Structural)]
pub enum ArbitrageError {
    Unauthorized,
    PriceNotFound,
    NotProfitable,
    InvalidAmount,
}

impl ArbitrageError {
    /// The contract error code.
    pub fn code(&self) -> (c: u32)
        ensures
            c == match *self {
                ArbitrageError::Unauthorized => 1u32,
                ArbitrageError::PriceNotFound => 2,
                ArbitrageError::NotProfitable => 3,
                ArbitrageError::InvalidAmount => 4,
            },
    {
        match self {
            ArbitrageError::Unauthorized => 1,
            ArbitrageError::PriceNotFound => 2,
            ArbitrageError::NotProfitable => 3,
            ArbitrageError::InvalidAmount => 4,
        }
    }
}

/// The price of a token on a market.
#[derive(Clone, Copy, Debug, PartialEq, Eq)]
pub struct MarketPrice {
    /// The market, as a symbol id.
    pub market_id: u64,
    pub token: u64,
    pub price: i128,
    pub updated_at: u64,
}

/// One executed arbitrage.
#[derive(Clone, Copy, Debug, PartialEq, Eq)]
pub struct ArbitrageRecord {
    pub id: u64,
    pub executor: u64,
    pub token: u64,
    pub buy_market: u64,
    pub sell_market: u64,
    pub profit: i128,
    pub executed_at: u64,
}

/// State of the arbitrage contract.
pub struct ArbitrageContract {
    /// Prices by `pair(market, token)`.
    pub prices: Table<MarketPrice>,
    /// Records by id.
    pub records: Table<ArbitrageRecord>,
    /// The last record id.
    pub record_count: u64,
    /// `(executor, record_id)` in execution order.
    pub executor_log: Vec<(u64, u64)>,
    /// What the contract published, oldest first.
    pub events: Vec<ArbitrageEvent>,
}

/// What the arbitrage contract publishes.
#[derive(Clone, Copy, Debug, PartialEq, Eq, Structural)]
pub enum ArbitrageEvent {
    /// `arb detected`: `token` sells for `price_diff` more on `sell_market`.
    Detected { token: u64, buy_market: u64, sell_market: u64, price_diff: i128 },
    /// `arb executed`: `executor` made `profit` on `token`.
    Executed { executor: u64, token: u64, profit: i128 },
}

/// The threshold a price difference must exceed, for a lower price.
pub open spec fn threshold(lower: int) -> int {
    tdiv(lower * MIN_PROFIT_THRESHOLD_BPS, BPS as int)
}

/// The records named by `ids` that exist, in order.
pub open spec fn records_for(records: Map<u128, ArbitrageRecord>, ids: Seq<u64>) -> Seq<ArbitrageRecord>
    decreases ids.len(),
{
    if ids.len() == 0 {
        Seq::empty()
    } else {
        let rest = records_for(records, ids.drop_last());
        let k = ids.last() as u128;
        if records.contains_key(k) { rest.push(records[k]) } else { rest }
    }
}

impl ArbitrageContract {
    /// No prices and no records.
    pub fn new() -> (a: ArbitrageContract)
        ensures
            a.prices@ == Map::<u128, MarketPrice>::empty(),
            a.records@ == Map::<u128, ArbitrageRecord>::empty(),
            a.record_count == 0,
            a.executor_log@.len() == 0,
            a.events@.len() == 0,
    {
        ArbitrageContract {
            prices: Table::new(),
            records: Table::new(),
            record_count: 0,
            executor_log: Vec::new(),
            events: Vec::new(),
        }
    }

    /// Posts the price of `token` on `market_id` at `now`; prices must be
    /// positive.
    pub fn update_price(&mut self, now: u64, caller: u64, market_id: u64, token: u64, price: i128) -> (r: Result<
        (),
        ArbitrageError,
    >)
        ensures
            r is Err <==> price <= 0,
            r matches Err(e) ==> e == ArbitrageError::InvalidAmount && final(self).prices@ == old(self).prices@,
            r is Ok ==> final(self).prices@ == old(self).prices@.insert(
                pair(market_id, token),
                MarketPrice { market_id, token, price, updated_at: now },
            ),
            final(self).records@ == old(self).records@,
            final(self).record_count == old(self).record_count,
            final(self).executor_log@ == old(self).executor_log@,
            final(self).events@ == old(self).events@,
    {
        if price <= 0 {
            return Err(ArbitrageError::InvalidAmount);
        }
        self.prices.set(pair_key(market_id, token), MarketPrice { market_id, token, price, updated_at: now });
        Ok(())
    }

    /// The price difference of `token` between two markets, and whether it
    /// exceeds 1% of the lower price.
    pub fn detect_opportunity(&self, token: u64, market_a: u64, market_b: u64) -> (r: Result<
        (i128, bool),
        ArbitrageError,
    >)
        requires
            self.prices@.contains_key(pair(market_a, token)) && self.prices@.contains_key(pair(market_b, token))
                ==> {
                let a = self.prices@[pair(market_a, token)].price;
                let b = self.prices@[pair(market_b, token)].price;
                let lower = if a < b { a } else { b };
                &&& i128::MIN <= a - b <= i128::MAX
                &&& i128::MIN <= b - a <= i128::MAX
                &&& i128::MIN <= lower * MIN_PROFIT_THRESHOLD_BPS <= i128::MAX
            },
        ensures
            r is Err <==> !self.prices@.contains_key(pair(market_a, token)) || !self.prices@.contains_key(
                pair(market_b, token),
            ),
            r matches Err(e) ==> e == ArbitrageError::PriceNotFound,
            r matches Ok((diff, profitable)) ==> {
                let a = self.prices@[pair(market_a, token)].price;
                let b = self.prices@[pair(market_b, token)].price;
                let lower = if a < b { a } else { b };
                &&& diff == if b > a { b - a } else { a - b }
                &&& profitable == (diff > threshold(lower as int))
            },
    {
        let price_a = match self.prices.get(pair_key(market_a, token)) {
            Some(p) => p,
            None => {
                return Err(ArbitrageError::PriceNotFound);
            },
        };
        let price_b = match self.prices.get(pair_key(market_b, token)) {
            Some(p) => p,
            None => {
                return Err(ArbitrageError::PriceNotFound);
            },
        };
        let price_diff = if price_b.price > price_a.price {
            price_b.price - price_a.price
        } else {
            price_a.price - price_b.price
        };
        let lower_price = if price_a.price < price_b.price {
            price_a.price
        } else {
            price_b.price
        };
        proof {
            crate::num::lemma_tdiv_bound(lower_price * MIN_PROFIT_THRESHOLD_BPS, BPS as int);
        }
        let threshold = div_i128(lower_price * MIN_PROFIT_THRESHOLD_BPS, BPS);
        Ok((price_diff, price_diff > threshold))
    }

    /// The error `execute_arbitrage` answers, if any.
    pub open spec fn execute_error(&self, token: u64, buy_market: u64, sell_market: u64, amount: i128) -> Option<
        ArbitrageError,
    > {
        let buy = self.prices@[pair(buy_market, token)].price;
        let sell = self.prices@[pair(sell_market, token)].price;
        if amount <= 0 {
            Some(ArbitrageError::InvalidAmount)
        } else if !self.prices@.contains_key(pair(buy_market, token)) || !self.prices@.contains_key(
            pair(sell_market, token),
        ) {
            Some(ArbitrageError::PriceNotFound)
        } else if sell <= buy {
            Some(ArbitrageError::NotProfitable)
        } else if sell - buy <= threshold(buy as int) {
            Some(ArbitrageError::NotProfitable)
        } else {
            None
        }
    }

    /// Executes an arbitrage of `amount` on `token`, buying on `buy_market`
    /// and selling on `sell_market`, when the sell price exceeds the buy
    /// price by more than 1% of it: the profit `amount * (sell - buy) /
    /// buy` is recorded for `caller` and returned.
    pub fn execute_arbitrage(
        &mut self,
        now: u64,
        caller: u64,
        token: u64,
        buy_market: u64,
        sell_market: u64,
        amount: i128,
    ) -> (r: Result<i128, ArbitrageError>)
        requires
            old(self).record_count < u64::MAX,
            old(self).prices@.contains_key(pair(buy_market, token)) && old(self).prices@.contains_key(
                pair(sell_market, token),
            ) ==> {
                let buy = old(self).prices@[pair(buy_market, token)].price;
                let sell = old(self).prices@[pair(sell_market, token)].price;
                sell > buy ==> {
                    &&& i128::MIN <= buy * MIN_PROFIT_THRESHOLD_BPS <= i128::MAX
                    &&& sell - buy <= i128::MAX
                    &&& (sell - buy > threshold(buy as int) && amount > 0) ==> buy != 0 && amount * (sell
                        - buy) <= i128::MAX
                }
            },
        ensures
            r is Err <==> old(self).execute_error(token, buy_market, sell_market, amount) is Some,
            r matches Err(e) ==> Some(e) == old(self).execute_error(token, buy_market, sell_market, amount)
                && final(self).records@ == old(self).records@ && final(self).record_count
                == old(self).record_count && final(self).executor_log@ == old(self).executor_log@
                && final(self).events@ == old(self).events@,
            r matches Ok(profit) ==> {
                let buy = old(self).prices@[pair(buy_market, token)].price;
                let sell = old(self).prices@[pair(sell_market, token)].price;
                let id = (old(self).record_count + 1) as u64;
                &&& profit == tdiv(amount * (sell - buy), buy as int)
                &&& final(self).record_count == id
                &&& final(self).records@ == old(self).records@.insert(
                    id as u128,
                    ArbitrageRecord {
                        id,
                        executor: caller,
                        token,
                        buy_market,
                        sell_market,
                        profit,
                        executed_at: now,
                    },
                )
                &&& final(self).executor_log@ == old(self).executor_log@.push((caller, id))
                &&& final(self).events@ == old(self).events@.push(
                    ArbitrageEvent::Detected { token, buy_market, sell_market, price_diff: (sell - buy) as i128 },
                ).push(ArbitrageEvent::Executed { executor: caller, token, profit })
            },
            final(self).prices@ == old(self).prices@,
    {
        if amount <= 0 {
            return Err(ArbitrageError::InvalidAmount);
        }
        let buy_price = match self.prices.get(pair_key(buy_market, token)) {
            Some(p) => p,
            None => {
                return Err(ArbitrageError::PriceNotFound);
            },
        };
        let sell_price = match self.prices.get(pair_key(sell_market, token)) {
            Some(p) => p,
            None => {
                return Err(ArbitrageError::PriceNotFound);
            },
        };
        if sell_price.price <= buy_price.price {
            return Err(ArbitrageError::NotProfitable);
        }
        let price_diff = sell_price.price - buy_price.price;
        proof {
            crate::num::lemma_tdiv_bound(buy_price.price * MIN_PROFIT_THRESHOLD_BPS, BPS as int);
        }
        let threshold = div_i128(buy_price.price * MIN_PROFIT_THRESHOLD_BPS, BPS);
        if price_diff <= threshold {
            return Err(ArbitrageError::NotProfitable);
        }
        proof {
            assert(amount * price_diff > 0) by (nonlinear_arith)
                requires
                    amount > 0,
                    price_diff > 0,
            ;
            let x = amount * price_diff;
            let d = buy_price.price as int;
            if d > 0 {
                crate::num::lemma_tdiv_bound(x, d);
            } else {
                crate::num::lemma_tdiv_bound(x, -d);
            }
        }
        let profit = div_i128(amount * price_diff, buy_price.price);
        let record_id = self.record_count + 1;
        self.records.set(
            record_id as u128,
            ArbitrageRecord {
                id: record_id,
                executor: caller,
                token,
                buy_market,
                sell_market,
                profit,
                executed_at: now,
            },
        );
        self.record_count = record_id;
        self.executor_log.push((caller, record_id));
        self.events.push(ArbitrageEvent::Detected { token, buy_market, sell_market, price_diff });
        self.events.push(ArbitrageEvent::Executed { executor: caller, token, profit });
        Ok(profit)
    }

    /// The records of `executor`, in execution order.
    pub fn get_performance(&self, executor: u64) -> (r: Vec<ArbitrageRecord>)
        ensures
            r@ == records_for(self.records@, ids_of(self.executor_log@, executor)),
    {
        let ids = collect_ids(&self.executor_log, executor);
        let mut result: Vec<ArbitrageRecord> = Vec::new();
        let mut i: usize = 0;
        while i < ids.len()
            invariant
                i <= ids@.len(),
                result@ == records_for(self.records@, ids@.take(i as int)),
            decreases ids@.len() - i,
        {
            proof {
                assert(ids@.take(i + 1).drop_last() == ids@.take(i as int));
            }
            match self.records.get(ids[i] as u128) {
                Some(rec) => result.push(rec),
                None => {},
            }
            i = i + 1;
        }
        proof {
            assert(ids@.take(ids@.len() as int) == ids@);
        }
        result
    }
}


/// The profit threshold is 1% of the lower price, rounded down: for a price
/// `lower` that is not negative, `threshold(lower)` is the largest `x` with
/// `100 * x <= lower`. A gap is profitable exactly when it is larger, so a
/// gap of 1% or less of the lower price is never profitable and a gap of at
/// least 1% plus one hundredth of a unit always is.
pub proof fn law_threshold_is_one_percent(lower: int)
    requires
        lower >= 0,
    ensures
        0 <= threshold(lower),
        threshold(lower) * 100 <= lower < (threshold(lower) + 1) * 100,
        forall|diff: int| #![trigger diff * 100] (diff > threshold(lower)) <==> diff * 100 >= (threshold(lower) + 1) * 100,
{
    let x = lower * 100;
    if lower > 0 {
        assert(x > 0);
        assert(threshold(lower) == x / 10000);
        assert((lower * 100) / 10000 == lower / 100) by (nonlinear_arith)
            requires
                lower > 0,
        ;
    }
    let q = threshold(lower);
    assert(q * 100 <= lower < (q + 1) * 100) by (nonlinear_arith)
        requires
            lower >= 0,
            q == lower / 100,
    ;
    assert forall|diff: int| #![trigger diff * 100] (diff > q) <==> diff * 100 >= (q + 1) * 100 by {
        assert((diff > q) <==> diff * 100 >= (q + 1) * 100) by (nonlinear_arith);
    }
}

} // verus!
