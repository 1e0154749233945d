//! Market making for tip tokens: makers deposit inventory of a base and a
//! quote token and quote a bid and an ask around a mid price; takers buy
//! base at the ask or sell base at the bid, paying a trade fee that the
//! maker earns.
use vstd::prelude::*;
use crate::common::{Transfer, IdLists, ids_under, without, push_unique, remove_id};
use crate::num::{tdiv, div_i128};
use crate::table::{Table, pair, pair_key};

verus! {

/// Fixed-point scale of prices.
pub const PRICE_PRECISION: i128 = 1_000_000;

/// Largest spread, in basis points (10%).
pub const MAX_SPREAD_BPS: u32 = 1_000;

/// Trade fee on the quote amount, in basis points (0.1%).
pub const TRADE_FEE_BPS: u32 = 10;

/// Lifecycle of a maker.
#[derive(Clone, Copy, Debug, PartialEq, Eq, Structural)]
pub enum MakerStatus {
    Active,
    Paused,
    Closed,
}

/// Errors of market making.
#[derive(Clone, Copy, Debug, PartialEq, Eq, Structural)]
pub enum MarketMakingError {
    MakerNotFound,
    MakerNotActive,
    Unauthorized,
    InvalidSpread,
    InvalidInventory,
    InvalidTradeSize,
    InsufficientBaseInventory,
    InsufficientQuoteInventory,
    TradeSizeExceedsMax,
    TokenNotWhitelisted,
    IdenticalTokens,
}

impl MarketMakingError {
    /// The contract error code.
    pub fn code(&self) -> (c: u32)
        ensures
            c == match *self {
                MarketMakingError::MakerNotFound => 800u32,
                MarketMakingError::MakerNotActive => 801,
                MarketMakingError::Unauthorized => 802,
                MarketMakingError::InvalidSpread => 803,
                MarketMakingError::InvalidInventory => 804,
                MarketMakingError::InvalidTradeSize => 805,
                MarketMakingError::InsufficientBaseInventory => 806,
                MarketMakingError::InsufficientQuoteInventory => 807,
                MarketMakingError::TradeSizeExceedsMax => 808,
                MarketMakingError::TokenNotWhitelisted => 809,
                MarketMakingError::IdenticalTokens => 810,
            },
    {
        match self {
            MarketMakingError::MakerNotFound => 800,
            MarketMakingError::MakerNotActive => 801,
            MarketMakingError::Unauthorized => 802,
            MarketMakingError::InvalidSpread => 803,
            MarketMakingError::InvalidInventory => 804,
            MarketMakingError::InvalidTradeSize => 805,
            MarketMakingError::InsufficientBaseInventory => 806,
            MarketMakingError::InsufficientQuoteInventory => 807,
            MarketMakingError::TradeSizeExceedsMax => 808,
            MarketMakingError::TokenNotWhitelisted => 809,
            MarketMakingError::IdenticalTokens => 810,
        }
    }
}

/// A maker's configuration and live state.
#[derive(Clone, Copy, Debug, PartialEq, Eq)]
pub struct MarketMaker {
    pub maker_id: u64,
    pub maker: u64,
    pub base_token: u64,
    pub quote_token: u64,
    pub spread_bps: u32,
    pub base_inventory: i128,
    pub quote_inventory: i128,
    /// Largest trade, in base units.
    pub max_trade_size: i128,
    /// Fees earned, in quote units.
    pub fees_earned: i128,
    pub total_base_volume: i128,
    pub total_quote_volume: i128,
    pub trade_count: u64,
    pub status: MakerStatus,
    pub created_at: u64,
    pub updated_at: u64,
}

/// A bid and an ask around a mid price.
#[derive(Clone, Copy, Debug, PartialEq, Eq)]
pub struct Quote {
    pub maker_id: u64,
    pub mid_price: i128,
    pub bid_price: i128,
    pub ask_price: i128,
    pub available_base: i128,
    pub available_quote: i128,
    pub timestamp: u64,
}

/// What a trade did.
#[derive(Clone, Copy, Debug, PartialEq, Eq)]
pub struct TradeResult {
    pub maker_id: u64,
    pub base_amount: i128,
    pub quote_amount: i128,
    pub fee_amount: i128,
    pub price: i128,
    pub timestamp: u64,
}


/// State of market making.
pub struct MarketMaking {
    /// This contract's own address, which holds the inventories.
    pub contract: u64,
    /// Next maker id.
    pub counter: u64,
    pub makers: Table<MarketMaker>,
    /// Maker ids by owner.
    pub owner_makers: IdLists,
    /// Ids of the makers that are not closed.
    pub active_makers: Vec<u64>,
    /// Maker ids by `pair(base_token, quote_token)`.
    pub pair_makers: IdLists,
    /// The events published, oldest first.
    pub events: Vec<MarketEvent>,
}

/// An event the market-making module publishes.
#[derive(Clone, Copy, Debug, PartialEq, Eq)]
pub enum MarketEvent {
    /// `mm_reg`: a maker registered.
    Registered { maker_id: u64, maker: u64, base_token: u64, quote_token: u64, spread_bps: u32 },
    /// `mm_buy`: a taker bought base, paying `total_quote` including `fee`.
    Bought { maker_id: u64, taker: u64, base_amount: i128, total_quote: i128, fee: i128 },
    /// `mm_sell`: a taker sold base, receiving `quote_net` after `fee`.
    Sold { maker_id: u64, taker: u64, base_amount: i128, quote_net: i128, fee: i128 },
    /// `mm_dep`: inventory deposited.
    Deposited { maker_id: u64, base_amount: i128, quote_amount: i128 },
    /// `mm_wdr`: inventory withdrawn, `fees_withdrawn` of it from the fees.
    Withdrawn { maker_id: u64, base_amount: i128, quote_amount: i128, fees_withdrawn: i128 },
    /// `mm_sprd`: the spread changed.
    SpreadUpdated { maker_id: u64, spread_bps: u32 },
    /// `mm_res`: the maker resumed.
    Resumed { maker_id: u64 },
    /// `mm_pau`: the maker paused.
    Paused { maker_id: u64 },
    /// `mm_close`: the maker closed and got its inventories back.
    Closed { maker_id: u64, base_return: i128, quote_return: i128 },
}

/// `x` clamped into `i128`.
pub open spec fn sat(x: int) -> i128 {
    if x > i128::MAX { i128::MAX } else if x < i128::MIN { i128::MIN } else { x as i128 }
}

/// Half the spread applied to `mid`.
pub open spec fn half_spread(mid: int, spread_bps: u32) -> int {
    tdiv(mid * spread_bps, 20_000)
}




/// The ask of `mm` around `mid`.
pub open spec fn ask_of(mm: MarketMaker, mid: i128) -> i128 {
    sat(mid + half_spread(mid as int, mm.spread_bps))
}

/// The bid of `mm` around `mid`.
pub open spec fn bid_of(mm: MarketMaker, mid: i128) -> i128 {
    sat(mid - half_spread(mid as int, mm.spread_bps))
}

/// The trade fee on a quote amount.
pub open spec fn trade_fee(q: int) -> int {
    tdiv(q * TRADE_FEE_BPS, 10_000)
}

/// The quote value of `base` units at `price`.
pub open spec fn quote_value(base: int, price: int) -> int {
    tdiv(base * price, PRICE_PRECISION as int)
}

/// True if a trade of `base` on `mm` at `mid` can be priced without
/// overflow, at the ask when `buy` and at the bid otherwise.
pub open spec fn priced_fits(mm: MarketMaker, base: i128, mid: i128, buy: bool) -> bool {
    let price = if buy { ask_of(mm, mid) } else { bid_of(mm, mid) };
    &&& i128::MIN <= mid * mm.spread_bps <= i128::MAX
    &&& i128::MIN <= base * price <= i128::MAX
}

/// The maker after a trade of `base` units moving `quote` quote units and
/// earning `fee`, at `now`; `buy` when the taker bought base.
pub open spec fn after_trade(mm: MarketMaker, base: i128, quote: int, fee: int, now: u64, buy: bool) -> MarketMaker {
    MarketMaker {
        base_inventory: (if buy { mm.base_inventory - base } else { mm.base_inventory + base }) as i128,
        quote_inventory: (if buy { mm.quote_inventory + quote } else { mm.quote_inventory - quote }) as i128,
        fees_earned: (mm.fees_earned + fee) as i128,
        total_base_volume: (mm.total_base_volume + base) as i128,
        total_quote_volume: (mm.total_quote_volume + quote) as i128,
        trade_count: (mm.trade_count + 1) as u64,
        updated_at: now,
        ..mm
    }
}

/// True if the counters of `mm` can take a trade of `base` units moving
/// `quote` and earning `fee`.
pub open spec fn trade_fits(mm: MarketMaker, base: i128, quote: int, fee: int, buy: bool) -> bool {
    &&& buy ==> i128::MIN <= mm.quote_inventory + quote <= i128::MAX
    &&& !buy ==> mm.base_inventory + base <= i128::MAX && i128::MIN <= mm.quote_inventory - quote <= i128::MAX
    &&& i128::MIN <= mm.fees_earned + fee <= i128::MAX
    &&& mm.total_base_volume + base <= i128::MAX
    &&& i128::MIN <= mm.total_quote_volume + quote <= i128::MAX
    &&& mm.trade_count < u64::MAX
}

/// Pricing a trade stays within `i128`: the value is at most the product
/// and the fee at most the value.
proof fn lemma_priced(base: int, price: int)
    requires
        i128::MIN <= base * price <= i128::MAX,
    ensures
        i128::MIN <= quote_value(base, price) <= i128::MAX,
        i128::MIN <= quote_value(base, price) * TRADE_FEE_BPS <= i128::MAX,
        i128::MIN <= trade_fee(quote_value(base, price)) <= i128::MAX,
        i128::MIN <= quote_value(base, price) + trade_fee(quote_value(base, price)) <= i128::MAX,
        i128::MIN <= quote_value(base, price) - trade_fee(quote_value(base, price)) <= i128::MAX,
{
    let q = quote_value(base, price);
    crate::num::lemma_tdiv_bound(base * price, PRICE_PRECISION as int);
    if base * price >= 0 {
        assert(q <= (base * price) / 1_000_000) by {
            crate::num::lemma_tdiv_nonneg(base * price, 1_000_000);
        }
        assert(q <= i128::MAX / 1_000_000 + 1) by (nonlinear_arith)
            requires
                q <= (base * price) / 1_000_000,
                base * price <= i128::MAX,
        ;
    } else {
        assert(-q <= (-(base * price)) / 1_000_000) by {
            crate::num::lemma_tdiv_nonneg(-(base * price), 1_000_000);
        }
        assert(-q <= i128::MAX / 1_000_000 + 2) by (nonlinear_arith)
            requires
                -q <= (-(base * price)) / 1_000_000,
                -(base * price) <= i128::MAX + 1,
        ;
    }
    crate::num::lemma_tdiv_bound(q * TRADE_FEE_BPS, 10_000);
}

/// `a + b` clamped into `i128`.
fn sat_add(a: i128, b: i128) -> (r: i128)
    ensures
        r == sat(a + b),
{
    match a.checked_add(b) {
        Some(v) => v,
        None => if b > 0 { i128::MAX } else { i128::MIN },
    }
}

/// `a - b` clamped into `i128`.
fn sat_sub(a: i128, b: i128) -> (r: i128)
    ensures
        r == sat(a - b),
{
    match a.checked_sub(b) {
        Some(v) => v,
        None => if b > 0 { i128::MIN } else { i128::MAX },
    }
}

impl MarketMaking {
    /// No makers, at `contract`.
    pub fn new(contract: u64) -> (m: MarketMaking)
        ensures
            m.contract == contract,
            m.counter == 0,
            m.makers@ == Map::<u128, MarketMaker>::empty(),
            m.owner_makers.log@.len() == 0,
            m.active_makers@.len() == 0,
            m.pair_makers.log@.len() == 0,
            m.events@.len() == 0,
    {
        MarketMaking {
            contract,
            counter: 0,
            makers: Table::new(),
            owner_makers: IdLists::new(),
            active_makers: Vec::new(),
            pair_makers: IdLists::new(),
            events: Vec::new(),
        }
    }

    /// The error `register_maker` answers, if any.
    pub open spec fn register_error(
        base_token: u64,
        quote_token: u64,
        spread_bps: u32,
        base_deposit: i128,
        quote_deposit: i128,
        max_trade_size: i128,
    ) -> Option<MarketMakingError> {
        if base_token == quote_token {
            Some(MarketMakingError::IdenticalTokens)
        } else if spread_bps == 0 || spread_bps > MAX_SPREAD_BPS {
            Some(MarketMakingError::InvalidSpread)
        } else if base_deposit < 0 || quote_deposit < 0 || (base_deposit == 0 && quote_deposit == 0) {
            Some(MarketMakingError::InvalidInventory)
        } else if max_trade_size <= 0 {
            Some(MarketMakingError::InvalidTradeSize)
        } else {
            None
        }
    }

    /// Registers a maker of `maker` on `(base_token, quote_token)` at `now`
    /// with the given spread, initial inventory and trade limit; the
    /// inventory is paid into escrow. Returns the maker id (ids count from
    /// 0) and the deposits.
    pub fn register_maker(
        &mut self,
        now: u64,
        maker: u64,
        base_token: u64,
        quote_token: u64,
        spread_bps: u32,
        base_deposit: i128,
        quote_deposit: i128,
        max_trade_size: i128,
    ) -> (r: Result<(u64, Vec<Transfer>), MarketMakingError>)
        requires
            old(self).counter < u64::MAX,
        ensures
            r is Err <==> Self::register_error(base_token, quote_token, spread_bps, base_deposit, quote_deposit, max_trade_size) is Some,
            r matches Err(e) ==> Some(e) == Self::register_error(
                base_token,
                quote_token,
                spread_bps,
                base_deposit,
                quote_deposit,
                max_trade_size,
            ) && *final(self) == *old(self),
            r matches Ok((id, ts)) ==> {
                &&& id == old(self).counter
                &&& final(self).counter == id + 1
                &&& final(self).makers@ == old(self).makers@.insert(
                    id as u128,
                    MarketMaker {
                        maker_id: id,
                        maker,
                        base_token,
                        quote_token,
                        spread_bps,
                        base_inventory: base_deposit,
                        quote_inventory: quote_deposit,
                        max_trade_size,
                        fees_earned: 0,
                        total_base_volume: 0,
                        total_quote_volume: 0,
                        trade_count: 0,
                        status: MakerStatus::Active,
                        created_at: now,
                        updated_at: now,
                    },
                )
                &&& final(self).owner_makers.log@ == if old(self).owner_makers.log@.contains((maker as u128, id)) {
                    old(self).owner_makers.log@
                } else {
                    old(self).owner_makers.log@.push((maker as u128, id))
                }
                &&& final(self).active_makers@ == if old(self).active_makers@.contains(id) {
                    old(self).active_makers@
                } else {
                    old(self).active_makers@.push(id)
                }
                &&& final(self).pair_makers.log@ == if old(self).pair_makers.log@.contains((pair(base_token, quote_token), id)) {
                    old(self).pair_makers.log@
                } else {
                    old(self).pair_makers.log@.push((pair(base_token, quote_token), id))
                }
                &&& ts@ == (if base_deposit > 0 {
                    seq![Transfer { token: base_token, from: maker, to: old(self).contract, amount: base_deposit }]
                } else {
                    Seq::<Transfer>::empty()
                }) + (if quote_deposit > 0 {
                    seq![Transfer { token: quote_token, from: maker, to: old(self).contract, amount: quote_deposit }]
                } else {
                    Seq::<Transfer>::empty()
                })
                &&& final(self).contract == old(self).contract
                &&& final(self).events@ == old(self).events@.push(
                    MarketEvent::Registered { maker_id: id, maker, base_token, quote_token, spread_bps },
                )
            },
    {
        if base_token == quote_token {
            return Err(MarketMakingError::IdenticalTokens);
        }
        if spread_bps == 0 || spread_bps > MAX_SPREAD_BPS {
            return Err(MarketMakingError::InvalidSpread);
        }
        if base_deposit < 0 || quote_deposit < 0 || (base_deposit == 0 && quote_deposit == 0) {
            return Err(MarketMakingError::InvalidInventory);
        }
        if max_trade_size <= 0 {
            return Err(MarketMakingError::InvalidTradeSize);
        }
        let maker_id = self.counter;
        self.counter = maker_id + 1;
        self.makers.set(
            maker_id as u128,
            MarketMaker {
                maker_id,
                maker,
                base_token,
                quote_token,
                spread_bps,
                base_inventory: base_deposit,
                quote_inventory: quote_deposit,
                max_trade_size,
                fees_earned: 0,
                total_base_volume: 0,
                total_quote_volume: 0,
                trade_count: 0,
                status: MakerStatus::Active,
                created_at: now,
                updated_at: now,
            },
        );
        self.owner_makers.add(maker as u128, maker_id);
        push_unique(&mut self.active_makers, maker_id);
        self.pair_makers.add(pair_key(base_token, quote_token), maker_id);
        let mut ts: Vec<Transfer> = Vec::new();
        if base_deposit > 0 {
            ts.push(Transfer { token: base_token, from: maker, to: self.contract, amount: base_deposit });
        }
        if quote_deposit > 0 {
            ts.push(Transfer { token: quote_token, from: maker, to: self.contract, amount: quote_deposit });
        }
        proof {
            assert(ts@ =~= (if base_deposit > 0 {
                seq![Transfer { token: base_token, from: maker, to: old(self).contract, amount: base_deposit }]
            } else {
                Seq::<Transfer>::empty()
            }) + (if quote_deposit > 0 {
                seq![Transfer { token: quote_token, from: maker, to: old(self).contract, amount: quote_deposit }]
            } else {
                Seq::<Transfer>::empty()
            }));
        }
        self.events.push(MarketEvent::Registered { maker_id, maker, base_token, quote_token, spread_bps });
        Ok((maker_id, ts))
    }

    /// The error a trade or quote on `maker_id` answers before its own
    /// checks: the maker must exist and be active.
    pub open spec fn active_error(&self, maker_id: u64) -> Option<MarketMakingError> {
        if !self.makers@.contains_key(maker_id as u128) {
            Some(MarketMakingError::MakerNotFound)
        } else if self.makers@[maker_id as u128].status != MakerStatus::Active {
            Some(MarketMakingError::MakerNotActive)
        } else {
            None
        }
    }

    /// The quote of `maker_id` around `mid_price` at `now`: bid and ask are
    /// half the spread below and above the mid (clamped to `i128`); the
    /// base available is the inventory up to the trade limit, and the quote
    /// available is the inventory up to the trade limit valued at the bid.
    pub fn get_quote(&self, now: u64, maker_id: u64, mid_price: i128) -> (r: Result<Quote, MarketMakingError>)
        requires
            self.makers@.contains_key(maker_id as u128) ==> {
                let mm = self.makers@[maker_id as u128];
                let bid = sat(mid_price - half_spread(mid_price as int, mm.spread_bps));
                &&& i128::MIN <= mid_price * mm.spread_bps <= i128::MAX
                &&& i128::MIN <= mm.max_trade_size * bid <= i128::MAX
            },
        ensures
            r is Err <==> self.active_error(maker_id) is Some,
            r matches Err(e) ==> Some(e) == self.active_error(maker_id),
            r matches Ok(q) ==> {
                let mm = self.makers@[maker_id as u128];
                let h = half_spread(mid_price as int, mm.spread_bps);
                let bid = sat(mid_price - h);
                let cap = tdiv(mm.max_trade_size * bid, PRICE_PRECISION as int);
                q == (Quote {
                    maker_id,
                    mid_price,
                    bid_price: bid,
                    ask_price: sat(mid_price + h),
                    available_base: if mm.base_inventory < mm.max_trade_size {
                        mm.base_inventory
                    } else {
                        mm.max_trade_size
                    },
                    available_quote: if mm.quote_inventory < cap {
                        mm.quote_inventory
                    } else {
                        cap as i128
                    },
                    timestamp: now,
                })
            },
    {
        let mm = match self.makers.get(maker_id as u128) {
            Some(m) => m,
            None => {
                return Err(MarketMakingError::MakerNotFound);
            },
        };
        if mm.status != MakerStatus::Active {
            return Err(MarketMakingError::MakerNotActive);
        }
        proof {
            crate::num::lemma_tdiv_bound(mid_price * mm.spread_bps, 20_000);
            crate::num::lemma_tdiv_bound(mm.max_trade_size * sat(mid_price - half_spread(mid_price as int, mm.spread_bps)), PRICE_PRECISION as int);
        }
        let half = div_i128(mid_price * (mm.spread_bps as i128), 20_000);
        let bid_price = sat_sub(mid_price, half);
        let ask_price = sat_add(mid_price, half);
        let available_base = if mm.base_inventory < mm.max_trade_size {
            mm.base_inventory
        } else {
            mm.max_trade_size
        };
        let cap = div_i128(mm.max_trade_size * bid_price, PRICE_PRECISION);
        let available_quote = if mm.quote_inventory < cap {
            mm.quote_inventory
        } else {
            cap
        };
        Ok(
            Quote {
                maker_id,
                mid_price,
                bid_price,
                ask_price,
                available_base,
                available_quote,
                timestamp: now,
            },
        )
    }


    /// The error `execute_buy` answers, if any.
    pub open spec fn buy_error(&self, maker_id: u64, base_amount: i128, mid_price: i128, max_quote: i128) -> Option<
        MarketMakingError,
    > {
        let mm = self.makers@[maker_id as u128];
        let q = quote_value(base_amount as int, ask_of(mm, mid_price) as int);
        if self.active_error(maker_id) is Some {
            self.active_error(maker_id)
        } else if base_amount <= 0 || base_amount > mm.max_trade_size {
            Some(MarketMakingError::TradeSizeExceedsMax)
        } else if mm.base_inventory < base_amount {
            Some(MarketMakingError::InsufficientBaseInventory)
        } else if q + trade_fee(q) > max_quote {
            Some(MarketMakingError::InsufficientQuoteInventory)
        } else {
            None
        }
    }

    /// The taker buys `base_amount` of base from `maker_id` at the ask
    /// around `mid_price`, paying the quote value plus the trade fee, at
    /// most `max_quote`. The maker's inventories, fees and volumes follow.
    /// Returns the trade and the two payments (quote in, base out).
    pub fn execute_buy(
        &mut self,
        now: u64,
        taker: u64,
        maker_id: u64,
        base_amount: i128,
        mid_price: i128,
        max_quote: i128,
    ) -> (r: Result<(TradeResult, Vec<Transfer>), MarketMakingError>)
        requires
            old(self).makers@.contains_key(maker_id as u128) ==> {
                let mm = old(self).makers@[maker_id as u128];
                let q = quote_value(base_amount as int, ask_of(mm, mid_price) as int);
                0 < base_amount <= mm.max_trade_size ==> priced_fits(mm, base_amount, mid_price, true)
                    && trade_fits(mm, base_amount, q, trade_fee(q), true)
            },
        ensures
            r is Err <==> old(self).buy_error(maker_id, base_amount, mid_price, max_quote) is Some,
            r matches Err(e) ==> Some(e) == old(self).buy_error(maker_id, base_amount, mid_price, max_quote)
                && *final(self) == *old(self),
            r matches Ok((res, ts)) ==> {
                let mm = old(self).makers@[maker_id as u128];
                let ask = ask_of(mm, mid_price);
                let q = quote_value(base_amount as int, ask as int);
                let fee = trade_fee(q);
                &&& res == (TradeResult {
                    maker_id,
                    base_amount,
                    quote_amount: (q + fee) as i128,
                    fee_amount: fee as i128,
                    price: ask,
                    timestamp: now,
                })
                &&& ts@ == seq![
                    Transfer { token: mm.quote_token, from: taker, to: old(self).contract, amount: (q + fee) as i128 },
                    Transfer { token: mm.base_token, from: old(self).contract, to: taker, amount: base_amount },
                ]
                &&& final(self).makers@ == old(self).makers@.insert(
                    maker_id as u128,
                    after_trade(mm, base_amount, q, fee, now, true),
                )
                &&& final(self).events@ == old(self).events@.push(
                    MarketEvent::Bought {
                        maker_id,
                        taker,
                        base_amount,
                        total_quote: res.quote_amount,
                        fee: res.fee_amount,
                    },
                )
                &&& final(self).counter == old(self).counter
                &&& final(self).active_makers@ == old(self).active_makers@
                &&& final(self).owner_makers.log@ == old(self).owner_makers.log@
                &&& final(self).pair_makers.log@ == old(self).pair_makers.log@
                &&& final(self).contract == old(self).contract
            },
    {
        let mm = match self.makers.get(maker_id as u128) {
            Some(m) => m,
            None => {
                return Err(MarketMakingError::MakerNotFound);
            },
        };
        if mm.status != MakerStatus::Active {
            return Err(MarketMakingError::MakerNotActive);
        }
        if base_amount <= 0 || base_amount > mm.max_trade_size {
            return Err(MarketMakingError::TradeSizeExceedsMax);
        }
        if mm.base_inventory < base_amount {
            return Err(MarketMakingError::InsufficientBaseInventory);
        }
        proof {
            crate::num::lemma_tdiv_bound(mid_price * mm.spread_bps, 20_000);
            lemma_priced(base_amount as int, ask_of(mm, mid_price) as int);
        }
        let half = div_i128(mid_price * (mm.spread_bps as i128), 20_000);
        let ask_price = sat_add(mid_price, half);
        let quote_needed = div_i128(base_amount * ask_price, PRICE_PRECISION);
        let fee = div_i128(quote_needed * (TRADE_FEE_BPS as i128), 10_000);
        let total_quote = quote_needed + fee;
        if total_quote > max_quote {
            return Err(MarketMakingError::InsufficientQuoteInventory);
        }
        let updated = MarketMaker {
            base_inventory: mm.base_inventory - base_amount,
            quote_inventory: mm.quote_inventory + quote_needed,
            fees_earned: mm.fees_earned + fee,
            total_base_volume: mm.total_base_volume + base_amount,
            total_quote_volume: mm.total_quote_volume + quote_needed,
            trade_count: mm.trade_count + 1,
            updated_at: now,
            ..mm
        };
        self.makers.set(maker_id as u128, updated);
        let mut ts: Vec<Transfer> = Vec::new();
        ts.push(Transfer { token: mm.quote_token, from: taker, to: self.contract, amount: total_quote });
        ts.push(Transfer { token: mm.base_token, from: self.contract, to: taker, amount: base_amount });
        self.events.push(MarketEvent::Bought { maker_id, taker, base_amount, total_quote, fee });
        Ok(
            (
                TradeResult {
                    maker_id,
                    base_amount,
                    quote_amount: total_quote,
                    fee_amount: fee,
                    price: ask_price,
                    timestamp: now,
                },
                ts,
            ),
        )
    }

    /// The error `execute_sell` answers, if any.
    pub open spec fn sell_error(&self, maker_id: u64, base_amount: i128, mid_price: i128, min_quote: i128) -> Option<
        MarketMakingError,
    > {
        let mm = self.makers@[maker_id as u128];
        let q = quote_value(base_amount as int, bid_of(mm, mid_price) as int);
        if self.active_error(maker_id) is Some {
            self.active_error(maker_id)
        } else if base_amount <= 0 || base_amount > mm.max_trade_size {
            Some(MarketMakingError::TradeSizeExceedsMax)
        } else if mm.quote_inventory < q {
            Some(MarketMakingError::InsufficientQuoteInventory)
        } else if sat(q - trade_fee(q)) < min_quote {
            Some(MarketMakingError::InsufficientQuoteInventory)
        } else {
            None
        }
    }

    /// The taker sells `base_amount` of base to `maker_id` at the bid
    /// around `mid_price` and receives the quote value less the trade fee,
    /// at least `min_quote`. Returns the trade and the two payments (base
    /// in, quote out).
    pub fn execute_sell(
        &mut self,
        now: u64,
        taker: u64,
        maker_id: u64,
        base_amount: i128,
        mid_price: i128,
        min_quote: i128,
    ) -> (r: Result<(TradeResult, Vec<Transfer>), MarketMakingError>)
        requires
            old(self).makers@.contains_key(maker_id as u128) ==> {
                let mm = old(self).makers@[maker_id as u128];
                let q = quote_value(base_amount as int, bid_of(mm, mid_price) as int);
                0 < base_amount <= mm.max_trade_size ==> priced_fits(mm, base_amount, mid_price, false)
                    && trade_fits(mm, base_amount, q, trade_fee(q), false)
            },
        ensures
            r is Err <==> old(self).sell_error(maker_id, base_amount, mid_price, min_quote) is Some,
            r matches Err(e) ==> Some(e) == old(self).sell_error(maker_id, base_amount, mid_price, min_quote)
                && *final(self) == *old(self),
            r matches Ok((res, ts)) ==> {
                let mm = old(self).makers@[maker_id as u128];
                let bid = bid_of(mm, mid_price);
                let q = quote_value(base_amount as int, bid as int);
                let fee = trade_fee(q);
                &&& res == (TradeResult {
                    maker_id,
                    base_amount,
                    quote_amount: sat(q - fee),
                    fee_amount: fee as i128,
                    price: bid,
                    timestamp: now,
                })
                &&& ts@ == seq![
                    Transfer { token: mm.base_token, from: taker, to: old(self).contract, amount: base_amount },
                    Transfer { token: mm.quote_token, from: old(self).contract, to: taker, amount: sat(q - fee) },
                ]
                &&& final(self).makers@ == old(self).makers@.insert(
                    maker_id as u128,
                    after_trade(mm, base_amount, q, fee, now, false),
                )
                &&& final(self).events@ == old(self).events@.push(
                    MarketEvent::Sold {
                        maker_id,
                        taker,
                        base_amount,
                        quote_net: res.quote_amount,
                        fee: res.fee_amount,
                    },
                )
                &&& final(self).counter == old(self).counter
                &&& final(self).active_makers@ == old(self).active_makers@
                &&& final(self).owner_makers.log@ == old(self).owner_makers.log@
                &&& final(self).pair_makers.log@ == old(self).pair_makers.log@
                &&& final(self).contract == old(self).contract
            },
    {
        let mm = match self.makers.get(maker_id as u128) {
            Some(m) => m,
            None => {
                return Err(MarketMakingError::MakerNotFound);
            },
        };
        if mm.status != MakerStatus::Active {
            return Err(MarketMakingError::MakerNotActive);
        }
        if base_amount <= 0 || base_amount > mm.max_trade_size {
            return Err(MarketMakingError::TradeSizeExceedsMax);
        }
        proof {
            crate::num::lemma_tdiv_bound(mid_price * mm.spread_bps, 20_000);
            lemma_priced(base_amount as int, bid_of(mm, mid_price) as int);
        }
        let half = div_i128(mid_price * (mm.spread_bps as i128), 20_000);
        let bid_price = sat_sub(mid_price, half);
        let quote_gross = div_i128(base_amount * bid_price, PRICE_PRECISION);
        let fee = div_i128(quote_gross * (TRADE_FEE_BPS as i128), 10_000);
        let quote_net = sat_sub(quote_gross, fee);
        if mm.quote_inventory < quote_gross {
            return Err(MarketMakingError::InsufficientQuoteInventory);
        }
        if quote_net < min_quote {
            return Err(MarketMakingError::InsufficientQuoteInventory);
        }
        let updated = MarketMaker {
            base_inventory: mm.base_inventory + base_amount,
            quote_inventory: mm.quote_inventory - quote_gross,
            fees_earned: mm.fees_earned + fee,
            total_base_volume: mm.total_base_volume + base_amount,
            total_quote_volume: mm.total_quote_volume + quote_gross,
            trade_count: mm.trade_count + 1,
            updated_at: now,
            ..mm
        };
        self.makers.set(maker_id as u128, updated);
        let mut ts: Vec<Transfer> = Vec::new();
        ts.push(Transfer { token: mm.base_token, from: taker, to: self.contract, amount: base_amount });
        ts.push(Transfer { token: mm.quote_token, from: self.contract, to: taker, amount: quote_net });
        self.events.push(MarketEvent::Sold { maker_id, taker, base_amount, quote_net, fee });
        Ok(
            (
                TradeResult {
                    maker_id,
                    base_amount,
                    quote_amount: quote_net,
                    fee_amount: fee,
                    price: bid_price,
                    timestamp: now,
                },
                ts,
            ),
        )
    }

    /// The error an owner-only change of `maker_id` by `maker` answers
    /// before its own checks.
    pub open spec fn owner_error(&self, maker: u64, maker_id: u64) -> Option<MarketMakingError> {
        if !self.makers@.contains_key(maker_id as u128) {
            Some(MarketMakingError::MakerNotFound)
        } else if self.makers@[maker_id as u128].maker != maker {
            Some(MarketMakingError::Unauthorized)
        } else {
            None
        }
    }

    /// The owner adds `base_amount` and `quote_amount` to the inventory of
    /// a maker that is not closed; returns the deposits.
    pub fn deposit_inventory(
        &mut self,
        now: u64,
        maker: u64,
        maker_id: u64,
        base_amount: i128,
        quote_amount: i128,
    ) -> (r: Result<Vec<Transfer>, MarketMakingError>)
        requires
            old(self).makers@.contains_key(maker_id as u128) ==> {
                let mm = old(self).makers@[maker_id as u128];
                mm.base_inventory + base_amount <= i128::MAX && mm.quote_inventory + quote_amount <= i128::MAX
            },
        ensures
            ({
                let mm = old(self).makers@[maker_id as u128];
                let e = if old(self).owner_error(maker, maker_id) is Some {
                    old(self).owner_error(maker, maker_id)
                } else if mm.status == MakerStatus::Closed {
                    Some(MarketMakingError::MakerNotActive)
                } else if base_amount < 0 || quote_amount < 0 || (base_amount == 0 && quote_amount == 0) {
                    Some(MarketMakingError::InvalidInventory)
                } else {
                    None
                };
                &&& r is Err <==> e is Some
                &&& r matches Err(x) ==> Some(x) == e && *final(self) == *old(self)
                &&& r matches Ok(ts) ==> {
                    &&& final(self).makers@ == old(self).makers@.insert(
                        maker_id as u128,
                        MarketMaker {
                            base_inventory: (mm.base_inventory + base_amount) as i128,
                            quote_inventory: (mm.quote_inventory + quote_amount) as i128,
                            updated_at: now,
                            ..mm
                        },
                    )
                    &&& final(self).events@ == old(self).events@.push(
                        MarketEvent::Deposited { maker_id, base_amount, quote_amount },
                    )
                    &&& ts@ == (if base_amount > 0 {
                        seq![Transfer { token: mm.base_token, from: maker, to: old(self).contract, amount: base_amount }]
                    } else {
                        Seq::<Transfer>::empty()
                    }) + (if quote_amount > 0 {
                        seq![Transfer { token: mm.quote_token, from: maker, to: old(self).contract, amount: quote_amount }]
                    } else {
                        Seq::<Transfer>::empty()
                    })
                    &&& final(self).counter == old(self).counter
                    &&& final(self).active_makers@ == old(self).active_makers@
                    &&& final(self).owner_makers.log@ == old(self).owner_makers.log@
                    &&& final(self).pair_makers.log@ == old(self).pair_makers.log@
                    &&& final(self).contract == old(self).contract
                }
            }),
    {
        let mm = match self.makers.get(maker_id as u128) {
            Some(m) => m,
            None => {
                return Err(MarketMakingError::MakerNotFound);
            },
        };
        if mm.maker != maker {
            return Err(MarketMakingError::Unauthorized);
        }
        if mm.status == MakerStatus::Closed {
            return Err(MarketMakingError::MakerNotActive);
        }
        if base_amount < 0 || quote_amount < 0 || (base_amount == 0 && quote_amount == 0) {
            return Err(MarketMakingError::InvalidInventory);
        }
        self.makers.set(
            maker_id as u128,
            MarketMaker {
                base_inventory: mm.base_inventory + base_amount,
                quote_inventory: mm.quote_inventory + quote_amount,
                updated_at: now,
                ..mm
            },
        );
        let mut ts: Vec<Transfer> = Vec::new();
        if base_amount > 0 {
            ts.push(Transfer { token: mm.base_token, from: maker, to: self.contract, amount: base_amount });
        }
        if quote_amount > 0 {
            ts.push(Transfer { token: mm.quote_token, from: maker, to: self.contract, amount: quote_amount });
        }
        proof {
            assert(ts@ =~= (if base_amount > 0 {
                seq![Transfer { token: mm.base_token, from: maker, to: old(self).contract, amount: base_amount }]
            } else {
                Seq::<Transfer>::empty()
            }) + (if quote_amount > 0 {
                seq![Transfer { token: mm.quote_token, from: maker, to: old(self).contract, amount: quote_amount }]
            } else {
                Seq::<Transfer>::empty()
            }));
        }
        self.events.push(MarketEvent::Deposited { maker_id, base_amount, quote_amount });
        Ok(ts)
    }

    /// The owner withdraws `base_amount` of base and `quote_amount` of
    /// quote; the quote comes from the earned fees first, then from the
    /// inventory. Returns the payments.
    pub fn withdraw_inventory(
        &mut self,
        now: u64,
        maker: u64,
        maker_id: u64,
        base_amount: i128,
        quote_amount: i128,
    ) -> (r: Result<Vec<Transfer>, MarketMakingError>)
        requires
            old(self).makers@.contains_key(maker_id as u128) ==> {
                let mm = old(self).makers@[maker_id as u128];
                &&& i128::MIN <= mm.quote_inventory + mm.fees_earned <= i128::MAX
                &&& i128::MIN <= mm.base_inventory - base_amount <= i128::MAX
                &&& mm.quote_inventory - quote_amount >= i128::MIN
                &&& mm.quote_inventory - quote_amount <= i128::MAX
            },
        ensures
            ({
                let mm = old(self).makers@[maker_id as u128];
                let e = if old(self).owner_error(maker, maker_id) is Some {
                    old(self).owner_error(maker, maker_id)
                } else if base_amount > mm.base_inventory {
                    Some(MarketMakingError::InsufficientBaseInventory)
                } else if quote_amount > mm.quote_inventory + mm.fees_earned {
                    Some(MarketMakingError::InsufficientQuoteInventory)
                } else {
                    None
                };
                let from_fees: int = if mm.fees_earned > 0 && quote_amount > 0 {
                    if mm.fees_earned < quote_amount { mm.fees_earned as int } else { quote_amount as int }
                } else {
                    0
                };
                &&& r is Err <==> e is Some
                &&& r matches Err(x) ==> Some(x) == e && *final(self) == *old(self)
                &&& r matches Ok(ts) ==> {
                    &&& final(self).makers@ == old(self).makers@.insert(
                        maker_id as u128,
                        MarketMaker {
                            fees_earned: (mm.fees_earned - from_fees) as i128,
                            base_inventory: (mm.base_inventory - base_amount) as i128,
                            quote_inventory: (mm.quote_inventory - (quote_amount - from_fees)) as i128,
                            updated_at: now,
                            ..mm
                        },
                    )
                    &&& final(self).events@ == old(self).events@.push(
                        MarketEvent::Withdrawn { maker_id, base_amount, quote_amount, fees_withdrawn: from_fees as i128 },
                    )
                    &&& ts@ == (if base_amount > 0 {
                        seq![Transfer { token: mm.base_token, from: old(self).contract, to: maker, amount: base_amount }]
                    } else {
                        Seq::<Transfer>::empty()
                    }) + (if quote_amount > 0 {
                        seq![Transfer { token: mm.quote_token, from: old(self).contract, to: maker, amount: quote_amount }]
                    } else {
                        Seq::<Transfer>::empty()
                    })
                    &&& final(self).counter == old(self).counter
                    &&& final(self).active_makers@ == old(self).active_makers@
                    &&& final(self).owner_makers.log@ == old(self).owner_makers.log@
                    &&& final(self).pair_makers.log@ == old(self).pair_makers.log@
                    &&& final(self).contract == old(self).contract
                }
            }),
    {
        let mm = match self.makers.get(maker_id as u128) {
            Some(m) => m,
            None => {
                return Err(MarketMakingError::MakerNotFound);
            },
        };
        if mm.maker != maker {
            return Err(MarketMakingError::Unauthorized);
        }
        if base_amount > mm.base_inventory {
            return Err(MarketMakingError::InsufficientBaseInventory);
        }
        if quote_amount > mm.quote_inventory + mm.fees_earned {
            return Err(MarketMakingError::InsufficientQuoteInventory);
        }
        let mut fees_earned = mm.fees_earned;
        let mut quote_from_inventory = quote_amount;
        let mut fees_withdrawn: i128 = 0;
        if mm.fees_earned > 0 && quote_amount > 0 {
            fees_withdrawn = if mm.fees_earned < quote_amount { mm.fees_earned } else { quote_amount };
            fees_earned = mm.fees_earned - fees_withdrawn;
            quote_from_inventory = quote_amount - fees_withdrawn;
        }
        self.makers.set(
            maker_id as u128,
            MarketMaker {
                fees_earned,
                base_inventory: mm.base_inventory - base_amount,
                quote_inventory: mm.quote_inventory - quote_from_inventory,
                updated_at: now,
                ..mm
            },
        );
        let mut ts: Vec<Transfer> = Vec::new();
        if base_amount > 0 {
            ts.push(Transfer { token: mm.base_token, from: self.contract, to: maker, amount: base_amount });
        }
        if quote_amount > 0 {
            ts.push(Transfer { token: mm.quote_token, from: self.contract, to: maker, amount: quote_amount });
        }
        proof {
            assert(ts@ =~= (if base_amount > 0 {
                seq![Transfer { token: mm.base_token, from: old(self).contract, to: maker, amount: base_amount }]
            } else {
                Seq::<Transfer>::empty()
            }) + (if quote_amount > 0 {
                seq![Transfer { token: mm.quote_token, from: old(self).contract, to: maker, amount: quote_amount }]
            } else {
                Seq::<Transfer>::empty()
            }));
        }
        self.events.push(MarketEvent::Withdrawn { maker_id, base_amount, quote_amount, fees_withdrawn });
        Ok(ts)
    }

    /// The owner sets a new spread, within `1..=MAX_SPREAD_BPS`.
    pub fn update_spread(&mut self, now: u64, maker: u64, maker_id: u64, new_spread_bps: u32) -> (r: Result<
        (),
        MarketMakingError,
    >)
        ensures
            ({
                let mm = old(self).makers@[maker_id as u128];
                let e = if old(self).owner_error(maker, maker_id) is Some {
                    old(self).owner_error(maker, maker_id)
                } else if new_spread_bps == 0 || new_spread_bps > MAX_SPREAD_BPS {
                    Some(MarketMakingError::InvalidSpread)
                } else {
                    None
                };
                &&& r is Err <==> e is Some
                &&& r matches Err(x) ==> Some(x) == e && *final(self) == *old(self)
                &&& r is Ok ==> final(self).makers@ == old(self).makers@.insert(
                    maker_id as u128,
                    MarketMaker { spread_bps: new_spread_bps, updated_at: now, ..mm },
                ) && final(self).events@ == old(self).events@.push(
                    MarketEvent::SpreadUpdated { maker_id, spread_bps: new_spread_bps },
                ) && final(self).counter == old(self).counter
                    && final(self).active_makers@ == old(self).active_makers@
                    && final(self).owner_makers.log@ == old(self).owner_makers.log@
                    && final(self).pair_makers.log@ == old(self).pair_makers.log@
                    && final(self).contract == old(self).contract
            }),
    {
        let mm = match self.makers.get(maker_id as u128) {
            Some(m) => m,
            None => {
                return Err(MarketMakingError::MakerNotFound);
            },
        };
        if mm.maker != maker {
            return Err(MarketMakingError::Unauthorized);
        }
        if new_spread_bps == 0 || new_spread_bps > MAX_SPREAD_BPS {
            return Err(MarketMakingError::InvalidSpread);
        }
        self.makers.set(maker_id as u128, MarketMaker { spread_bps: new_spread_bps, updated_at: now, ..mm });
        self.events.push(MarketEvent::SpreadUpdated { maker_id, spread_bps: new_spread_bps });
        Ok(())
    }

    /// The owner pauses (`active == false`) or resumes a maker that is not
    /// closed.
    pub fn set_maker_status(&mut self, now: u64, maker: u64, maker_id: u64, active: bool) -> (r: Result<
        (),
        MarketMakingError,
    >)
        ensures
            ({
                let mm = old(self).makers@[maker_id as u128];
                let e = if old(self).owner_error(maker, maker_id) is Some {
                    old(self).owner_error(maker, maker_id)
                } else if mm.status == MakerStatus::Closed {
                    Some(MarketMakingError::MakerNotActive)
                } else {
                    None
                };
                &&& r is Err <==> e is Some
                &&& r matches Err(x) ==> Some(x) == e && *final(self) == *old(self)
                &&& r is Ok ==> final(self).makers@ == old(self).makers@.insert(
                    maker_id as u128,
                    MarketMaker {
                        status: if active { MakerStatus::Active } else { MakerStatus::Paused },
                        updated_at: now,
                        ..mm
                    },
                ) && final(self).events@ == old(self).events@.push(
                    if active { MarketEvent::Resumed { maker_id } } else { MarketEvent::Paused { maker_id } },
                ) && final(self).counter == old(self).counter
                    && final(self).active_makers@ == old(self).active_makers@
                    && final(self).owner_makers.log@ == old(self).owner_makers.log@
                    && final(self).pair_makers.log@ == old(self).pair_makers.log@
                    && final(self).contract == old(self).contract
            }),
    {
        let mm = match self.makers.get(maker_id as u128) {
            Some(m) => m,
            None => {
                return Err(MarketMakingError::MakerNotFound);
            },
        };
        if mm.maker != maker {
            return Err(MarketMakingError::Unauthorized);
        }
        if mm.status == MakerStatus::Closed {
            return Err(MarketMakingError::MakerNotActive);
        }
        let status = if active { MakerStatus::Active } else { MakerStatus::Paused };
        self.makers.set(maker_id as u128, MarketMaker { status, updated_at: now, ..mm });
        if active {
            self.events.push(MarketEvent::Resumed { maker_id });
        } else {
            self.events.push(MarketEvent::Paused { maker_id });
        }
        Ok(())
    }

    /// The owner closes a maker: all base inventory, and all quote
    /// inventory plus fees, go back to the owner, and the maker leaves the
    /// active list. Returns the payments.
    pub fn close_maker(&mut self, now: u64, maker: u64, maker_id: u64) -> (r: Result<
        Vec<Transfer>,
        MarketMakingError,
    >)
        requires
            old(self).makers@.contains_key(maker_id as u128) ==> {
                let mm = old(self).makers@[maker_id as u128];
                i128::MIN <= mm.quote_inventory + mm.fees_earned <= i128::MAX
            },
        ensures
            ({
                let mm = old(self).makers@[maker_id as u128];
                let quote_return = mm.quote_inventory + mm.fees_earned;
                let e = if old(self).owner_error(maker, maker_id) is Some {
                    old(self).owner_error(maker, maker_id)
                } else if mm.status == MakerStatus::Closed {
                    Some(MarketMakingError::MakerNotActive)
                } else {
                    None
                };
                &&& r is Err <==> e is Some
                &&& r matches Err(x) ==> Some(x) == e && *final(self) == *old(self)
                &&& r matches Ok(ts) ==> {
                    &&& final(self).makers@ == old(self).makers@.insert(
                        maker_id as u128,
                        MarketMaker {
                            base_inventory: 0,
                            quote_inventory: 0,
                            fees_earned: 0,
                            status: MakerStatus::Closed,
                            updated_at: now,
                            ..mm
                        },
                    )
                    &&& final(self).active_makers@ == without(old(self).active_makers@, maker_id)
                    &&& final(self).events@ == old(self).events@.push(
                        MarketEvent::Closed {
                            maker_id,
                            base_return: mm.base_inventory,
                            quote_return: quote_return as i128,
                        },
                    )
                    &&& ts@ == (if mm.base_inventory > 0 {
                        seq![Transfer { token: mm.base_token, from: old(self).contract, to: maker, amount: mm.base_inventory }]
                    } else {
                        Seq::<Transfer>::empty()
                    }) + (if quote_return > 0 {
                        seq![Transfer { token: mm.quote_token, from: old(self).contract, to: maker, amount: quote_return as i128 }]
                    } else {
                        Seq::<Transfer>::empty()
                    })
                    &&& final(self).counter == old(self).counter
                    &&& final(self).owner_makers.log@ == old(self).owner_makers.log@
                    &&& final(self).pair_makers.log@ == old(self).pair_makers.log@
                    &&& final(self).contract == old(self).contract
                }
            }),
    {
        let mm = match self.makers.get(maker_id as u128) {
            Some(m) => m,
            None => {
                return Err(MarketMakingError::MakerNotFound);
            },
        };
        if mm.maker != maker {
            return Err(MarketMakingError::Unauthorized);
        }
        if mm.status == MakerStatus::Closed {
            return Err(MarketMakingError::MakerNotActive);
        }
        let base_return = mm.base_inventory;
        let quote_return = mm.quote_inventory + mm.fees_earned;
        self.makers.set(
            maker_id as u128,
            MarketMaker {
                base_inventory: 0,
                quote_inventory: 0,
                fees_earned: 0,
                status: MakerStatus::Closed,
                updated_at: now,
                ..mm
            },
        );
        remove_id(&mut self.active_makers, maker_id);
        let mut ts: Vec<Transfer> = Vec::new();
        if base_return > 0 {
            ts.push(Transfer { token: mm.base_token, from: self.contract, to: maker, amount: base_return });
        }
        if quote_return > 0 {
            ts.push(Transfer { token: mm.quote_token, from: self.contract, to: maker, amount: quote_return });
        }
        proof {
            assert(ts@ =~= (if mm.base_inventory > 0 {
                seq![Transfer { token: mm.base_token, from: old(self).contract, to: maker, amount: mm.base_inventory }]
            } else {
                Seq::<Transfer>::empty()
            }) + (if quote_return > 0 {
                seq![Transfer { token: mm.quote_token, from: old(self).contract, to: maker, amount: quote_return as i128 }]
            } else {
                Seq::<Transfer>::empty()
            }));
        }
        self.events.push(MarketEvent::Closed { maker_id, base_return, quote_return });
        Ok(ts)
    }

    /// The maker with `maker_id`, if any.
    pub fn get_maker(&self, maker_id: u64) -> (r: Option<MarketMaker>)
        ensures
            r == (if self.makers@.contains_key(maker_id as u128) {
                Some(self.makers@[maker_id as u128])
            } else {
                None::<MarketMaker>
            }),
    {
        self.makers.get(maker_id as u128)
    }

    /// The ids of the makers of `maker`, in registration order.
    pub fn get_owner_makers(&self, maker: u64) -> (r: Vec<u64>)
        ensures
            r@ == ids_under(self.owner_makers.log@, maker as u128),
    {
        self.owner_makers.get(maker as u128)
    }

    /// The ids of the makers that are not closed.
    pub fn get_active_makers(&self) -> (r: Vec<u64>)
        ensures
            r@ == self.active_makers@,
    {
        let mut r: Vec<u64> = Vec::new();
        let mut i: usize = 0;
        while i < self.active_makers.len()
            invariant
                i <= self.active_makers@.len(),
                r@ == self.active_makers@.take(i as int),
            decreases self.active_makers@.len() - i,
        {
            r.push(self.active_makers[i]);
            i = i + 1;
            proof {
                assert(r@ =~= self.active_makers@.take(i as int));
            }
        }
        proof {
            assert(self.active_makers@.take(self.active_makers@.len() as int) =~= self.active_makers@);
        }
        r
    }

    /// The ids of the makers on `(base_token, quote_token)`.
    pub fn get_pair_makers(&self, base_token: u64, quote_token: u64) -> (r: Vec<u64>)
        ensures
            r@ == ids_under(self.pair_makers.log@, pair(base_token, quote_token)),
    {
        self.pair_makers.get(pair_key(base_token, quote_token))
    }

}


/// Around a non-negative mid price the bid never exceeds the mid and the
/// ask never falls below it.
pub proof fn law_bid_mid_ask(mm: MarketMaker, mid: i128)
    requires
        mid >= 0,
        mid * mm.spread_bps <= i128::MAX,
    ensures
        bid_of(mm, mid) <= mid <= ask_of(mm, mid),
{
    assert(mid * mm.spread_bps >= 0) by (nonlinear_arith)
        requires
            mid >= 0,
    ;
    crate::num::lemma_tdiv_bound(mid * mm.spread_bps, 20_000);
}

} // verus!
