//! Stop-loss orders on tip tokens: the owner escrows an amount that is
//! released when the price falls to the stop price; a trailing stop raises
//! its stop price as the price climbs; a stop-limit order executes only at
//! or above its limit.
use vstd::prelude::*;
use crate::common::{Transfer, IdLists, ids_under, without, push_unique, remove_id};
use crate::table::Table;

verus! {

/// Fixed-point scale of prices.
pub const PRICE_PRECISION: i128 = 1_000_000;

/// Kind of a stop order.
#[derive(Clone, Copy, Debug, PartialEq, Eq, Structural)]
pub enum StopOrderKind {
    StopLoss,
    StopLimit,
    TrailingStop,
}

/// Lifecycle of a stop order.
#[derive(Clone, Copy, Debug, PartialEq, Eq, Structural)]
pub enum StopOrderStatus {
    Active,
    Triggered,
    Executed,
    Cancelled,
}

/// Errors of the stop-loss module.
#[derive(Clone, Copy, Debug, PartialEq, Eq, Structural)]
pub enum StopLossError {
    OrderNotFound,
    OrderNotActive,
    Unauthorized,
    InvalidAmount,
    InvalidStopPrice,
    InvalidLimitPrice,
    InvalidTrailAmount,
    PriceNotTriggered,
    LimitPriceNotMet,
    TokenNotWhitelisted,
}

impl StopLossError {
    /// The contract error code.
    pub fn code(&self) -> (c: u32)
        ensures
            c == match *self {
                StopLossError::OrderNotFound => 700u32,
                StopLossError::OrderNotActive => 701,
                StopLossError::Unauthorized => 702,
                StopLossError::InvalidAmount => 703,
                StopLossError::InvalidStopPrice => 704,
                StopLossError::InvalidLimitPrice => 705,
                StopLossError::InvalidTrailAmount => 706,
                StopLossError::PriceNotTriggered => 707,
                StopLossError::LimitPriceNotMet => 708,
                StopLossError::TokenNotWhitelisted => 709,
            },
    {
        match self {
            StopLossError::OrderNotFound => 700,
            StopLossError::OrderNotActive => 701,
            StopLossError::Unauthorized => 702,
            StopLossError::InvalidAmount => 703,
            StopLossError::InvalidStopPrice => 704,
            StopLossError::InvalidLimitPrice => 705,
            StopLossError::InvalidTrailAmount => 706,
            StopLossError::PriceNotTriggered => 707,
            StopLossError::LimitPriceNotMet => 708,
            StopLossError::TokenNotWhitelisted => 709,
        }
    }
}

/// A stop order.
#[derive(Clone, Copy, Debug, PartialEq, Eq)]
pub struct StopOrder {
    pub order_id: u64,
    pub owner: u64,
    pub token: u64,
    /// Amount held in escrow.
    pub amount: i128,
    pub stop_price: i128,
    pub limit_price: i128,
    pub trail_amount: i128,
    /// Highest price seen, for trailing stops.
    pub peak_price: i128,
    pub kind: StopOrderKind,
    pub status: StopOrderStatus,
    pub created_at: u64,
    pub triggered_at: u64,
    pub executed_at: u64,
}

/// State of the stop-loss module.
pub struct StopLoss {
    /// This contract's own address, which holds the escrow.
    pub contract: u64,
    /// Next order id.
    pub counter: u64,
    pub orders: Table<StopOrder>,
    /// Order ids by owner.
    pub owner_orders: IdLists,
    /// Ids of the orders that were neither executed nor cancelled.
    pub active_orders: Vec<u64>,
    /// What the module published, oldest first.
    pub events: Vec<StopLossEvent>,
}

/// What the stop-loss module publishes.
#[derive(Clone, Copy, Debug, PartialEq, Eq, Structural)]
pub enum StopLossEvent {
    /// `sl_place`: an order was placed and its amount escrowed.
    Placed { order_id: u64, owner: u64, token: u64, amount: i128, stop_price: i128, kind: StopOrderKind },
    /// `sl_trail`: a trailing stop moved up to `new_stop`.
    Trailed { order_id: u64, new_stop: i128 },
    /// `sl_trig`: the order triggered at `price`.
    Triggered { order_id: u64, price: i128 },
    /// `sl_exec`: the order executed at `execution_price`.
    Executed { order_id: u64, amount: i128, execution_price: i128 },
    /// `sl_cncl`: the order was cancelled.
    Cancelled { order_id: u64 },
}

/// `x` clamped into `i128`.
pub open spec fn sat(x: int) -> i128 {
    if x > i128::MAX { i128::MAX } else if x < i128::MIN { i128::MIN } else { x as i128 }
}

/// A trailing stop after observing `price`: a new peak raises the peak and
/// lifts the stop to `price - trail` when that is higher.
pub open spec fn trailed(o: StopOrder, price: i128) -> StopOrder {
    if o.kind == StopOrderKind::TrailingStop && price > o.peak_price {
        let ns = sat(price - o.trail_amount);
        StopOrder { peak_price: price, stop_price: if ns > o.stop_price { ns } else { o.stop_price }, ..o }
    } else {
        o
    }
}

/// `a - b` clamped into `i128`.
fn sat_sub(a: i128, b: i128) -> (r: i128)
    ensures
        r == sat(a - b),
{
    match a.checked_sub(b) {
        Some(v) => v,
        None => if b > 0 { i128::MIN } else { i128::MAX },
    }
}

impl StopLoss {
    /// No orders, at `contract`.
    pub fn new(contract: u64) -> (s: StopLoss)
        ensures
            s.contract == contract,
            s.counter == 0,
            s.orders@ == Map::<u128, StopOrder>::empty(),
            s.owner_orders.log@.len() == 0,
            s.active_orders@.len() == 0,
            s.events@.len() == 0,
    {
        StopLoss {
            contract,
            counter: 0,
            orders: Table::new(),
            owner_orders: IdLists::new(),
            active_orders: Vec::new(),
            events: Vec::new(),
        }
    }

    /// The error `place_order` answers, if any.
    pub open spec fn place_error(
        amount: i128,
        stop_price: i128,
        limit_price: i128,
        trail_amount: i128,
        kind: StopOrderKind,
    ) -> Option<StopLossError> {
        if amount <= 0 {
            Some(StopLossError::InvalidAmount)
        } else if stop_price <= 0 {
            Some(StopLossError::InvalidStopPrice)
        } else if kind == StopOrderKind::StopLimit && limit_price <= 0 {
            Some(StopLossError::InvalidLimitPrice)
        } else if kind == StopOrderKind::TrailingStop && trail_amount <= 0 {
            Some(StopLossError::InvalidTrailAmount)
        } else {
            None
        }
    }

    /// Places a stop order of `owner` at `now` and escrows `amount` of
    /// `token`; the peak starts at `current_price` when positive, else at
    /// the stop price. Returns the order id (ids count from 0) and the
    /// escrow payment.
    pub fn place_order(
        &mut self,
        now: u64,
        owner: u64,
        token: u64,
        amount: i128,
        stop_price: i128,
        limit_price: i128,
        trail_amount: i128,
        kind: StopOrderKind,
        current_price: i128,
    ) -> (r: Result<(u64, Transfer), StopLossError>)
        requires
            old(self).counter < u64::MAX,
        ensures
            r is Err <==> Self::place_error(amount, stop_price, limit_price, trail_amount, kind) is Some,
            r matches Err(e) ==> Some(e) == Self::place_error(amount, stop_price, limit_price, trail_amount, kind)
                && *final(self) == *old(self),
            r matches Ok((id, t)) ==> {
                &&& id == old(self).counter
                &&& final(self).counter == id + 1
                &&& final(self).orders@ == old(self).orders@.insert(
                    id as u128,
                    StopOrder {
                        order_id: id,
                        owner,
                        token,
                        amount,
                        stop_price,
                        limit_price,
                        trail_amount,
                        peak_price: if current_price > 0 { current_price } else { stop_price },
                        kind,
                        status: StopOrderStatus::Active,
                        created_at: now,
                        triggered_at: 0,
                        executed_at: 0,
                    },
                )
                &&& final(self).owner_orders.log@ == if old(self).owner_orders.log@.contains((owner as u128, id)) {
                    old(self).owner_orders.log@
                } else {
                    old(self).owner_orders.log@.push((owner as u128, id))
                }
                &&& final(self).active_orders@ == if old(self).active_orders@.contains(id) {
                    old(self).active_orders@
                } else {
                    old(self).active_orders@.push(id)
                }
                &&& t == (Transfer { token, from: owner, to: old(self).contract, amount })
                &&& final(self).events@ == old(self).events@.push(
                    StopLossEvent::Placed { order_id: id, owner, token, amount, stop_price, kind },
                )
                &&& final(self).contract == old(self).contract
            },
    {
        if amount <= 0 {
            return Err(StopLossError::InvalidAmount);
        }
        if stop_price <= 0 {
            return Err(StopLossError::InvalidStopPrice);
        }
        if kind == StopOrderKind::StopLimit && limit_price <= 0 {
            return Err(StopLossError::InvalidLimitPrice);
        }
        if kind == StopOrderKind::TrailingStop && trail_amount <= 0 {
            return Err(StopLossError::InvalidTrailAmount);
        }
        let order_id = self.counter;
        self.counter = order_id + 1;
        let peak = if current_price > 0 { current_price } else { stop_price };
        self.orders.set(
            order_id as u128,
            StopOrder {
                order_id,
                owner,
                token,
                amount,
                stop_price,
                limit_price,
                trail_amount,
                peak_price: peak,
                kind,
                status: StopOrderStatus::Active,
                created_at: now,
                triggered_at: 0,
                executed_at: 0,
            },
        );
        self.owner_orders.add(owner as u128, order_id);
        push_unique(&mut self.active_orders, order_id);
        self.events.push(StopLossEvent::Placed { order_id, owner, token, amount, stop_price, kind });
        Ok((order_id, Transfer { token, from: owner, to: self.contract, amount }))
    }

    /// Observes `current_price` for an active trailing stop: a new peak
    /// lifts the stop price when `price - trail` exceeds it, and the order
    /// is saved only then.
    pub fn update_price(&mut self, order_id: u64, current_price: i128) -> (r: Result<(), StopLossError>)
        ensures
            r is Err <==> !old(self).orders@.contains_key(order_id as u128),
            r matches Err(e) ==> e == StopLossError::OrderNotFound,
            ({
                let o = old(self).orders@[order_id as u128];
                let t = trailed(o, current_price);
                let moved = r is Ok && o.status == StopOrderStatus::Active && t.stop_price != o.stop_price;
                &&& final(self).orders@ == if moved {
                    old(self).orders@.insert(order_id as u128, t)
                } else {
                    old(self).orders@
                }
                &&& final(self).events@ == if moved {
                    old(self).events@.push(StopLossEvent::Trailed { order_id, new_stop: t.stop_price })
                } else {
                    old(self).events@
                }
            }),
            final(self).counter == old(self).counter,
            final(self).owner_orders.log@ == old(self).owner_orders.log@,
            final(self).active_orders@ == old(self).active_orders@,
            final(self).contract == old(self).contract,
    {
        let order = match self.orders.get(order_id as u128) {
            Some(o) => o,
            None => {
                return Err(StopLossError::OrderNotFound);
            },
        };
        if order.status != StopOrderStatus::Active {
            return Ok(());
        }
        if order.kind != StopOrderKind::TrailingStop {
            return Ok(());
        }
        if current_price > order.peak_price {
            let new_stop = sat_sub(current_price, order.trail_amount);
            if new_stop > order.stop_price {
                self.orders.set(
                    order_id as u128,
                    StopOrder { peak_price: current_price, stop_price: new_stop, ..order },
                );
                self.events.push(StopLossEvent::Trailed { order_id, new_stop });
            }
        }
        Ok(())
    }

    /// Checks an active order against `current_price` at `now`: a trailing
    /// stop first follows the price; if the price is at or below the stop
    /// price the order becomes triggered (and is saved), and `true` is
    /// returned. An order that does not trigger is left as stored.
    pub fn check_trigger(&mut self, now: u64, order_id: u64, current_price: i128) -> (r: Result<bool, StopLossError>)
        ensures
            r is Err <==> !old(self).orders@.contains_key(order_id as u128),
            r matches Err(e) ==> e == StopLossError::OrderNotFound,
            ({
                let o = old(self).orders@[order_id as u128];
                let t = trailed(o, current_price);
                let fires = o.status == StopOrderStatus::Active && current_price <= t.stop_price;
                &&& r is Ok ==> r == Ok::<bool, StopLossError>(fires)
                &&& final(self).orders@ == if r is Ok && fires {
                    old(self).orders@.insert(
                        order_id as u128,
                        StopOrder { status: StopOrderStatus::Triggered, triggered_at: now, ..t },
                    )
                } else {
                    old(self).orders@
                }
                &&& final(self).events@ == if r is Ok && fires {
                    old(self).events@.push(StopLossEvent::Triggered { order_id, price: current_price })
                } else {
                    old(self).events@
                }
            }),
            final(self).counter == old(self).counter,
            final(self).owner_orders.log@ == old(self).owner_orders.log@,
            final(self).active_orders@ == old(self).active_orders@,
            final(self).contract == old(self).contract,
    {
        let mut order = match self.orders.get(order_id as u128) {
            Some(o) => o,
            None => {
                return Err(StopLossError::OrderNotFound);
            },
        };
        if order.status != StopOrderStatus::Active {
            return Ok(false);
        }
        if order.kind == StopOrderKind::TrailingStop && current_price > order.peak_price {
            order.peak_price = current_price;
            let new_stop = sat_sub(current_price, order.trail_amount);
            if new_stop > order.stop_price {
                order.stop_price = new_stop;
            }
        }
        if current_price <= order.stop_price {
            order.status = StopOrderStatus::Triggered;
            order.triggered_at = now;
            self.orders.set(order_id as u128, order);
            self.events.push(StopLossEvent::Triggered { order_id, price: current_price });
            return Ok(true);
        }
        Ok(false)
    }

    /// Executes a triggered order at `now`: a stop-limit order needs
    /// `execution_price` at or above its limit. The escrow goes back to the
    /// owner and the order leaves the active list.
    pub fn execute_order(&mut self, now: u64, caller: u64, order_id: u64, execution_price: i128) -> (r: Result<
        Transfer,
        StopLossError,
    >)
        ensures
            ({
                let o = old(self).orders@[order_id as u128];
                let e = if !old(self).orders@.contains_key(order_id as u128) {
                    Some(StopLossError::OrderNotFound)
                } else if o.status != StopOrderStatus::Triggered {
                    Some(StopLossError::OrderNotActive)
                } else if o.kind == StopOrderKind::StopLimit && execution_price < o.limit_price {
                    Some(StopLossError::LimitPriceNotMet)
                } else {
                    None
                };
                &&& r is Err <==> e is Some
                &&& r matches Err(x) ==> Some(x) == e && *final(self) == *old(self)
                &&& r matches Ok(t) ==> {
                    &&& t == (Transfer { token: o.token, from: old(self).contract, to: o.owner, amount: o.amount })
                    &&& final(self).orders@ == old(self).orders@.insert(
                        order_id as u128,
                        StopOrder { status: StopOrderStatus::Executed, executed_at: now, ..o },
                    )
                    &&& final(self).events@ == old(self).events@.push(
                        StopLossEvent::Executed { order_id, amount: o.amount, execution_price },
                    )
                    &&& final(self).active_orders@ == without(old(self).active_orders@, order_id)
                    &&& final(self).counter == old(self).counter
                    &&& final(self).owner_orders.log@ == old(self).owner_orders.log@
                    &&& final(self).contract == old(self).contract
                }
            }),
    {
        let order = match self.orders.get(order_id as u128) {
            Some(o) => o,
            None => {
                return Err(StopLossError::OrderNotFound);
            },
        };
        if order.status != StopOrderStatus::Triggered {
            return Err(StopLossError::OrderNotActive);
        }
        if order.kind == StopOrderKind::StopLimit && execution_price < order.limit_price {
            return Err(StopLossError::LimitPriceNotMet);
        }
        self.orders.set(
            order_id as u128,
            StopOrder { status: StopOrderStatus::Executed, executed_at: now, ..order },
        );
        remove_id(&mut self.active_orders, order_id);
        self.events.push(StopLossEvent::Executed { order_id, amount: order.amount, execution_price });
        Ok(Transfer { token: order.token, from: self.contract, to: order.owner, amount: order.amount })
    }

    /// The owner cancels an active or triggered order: the escrow is
    /// refunded and the order leaves the active list.
    pub fn cancel_order(&mut self, owner: u64, order_id: u64) -> (r: Result<Transfer, StopLossError>)
        ensures
            ({
                let o = old(self).orders@[order_id as u128];
                let e = if !old(self).orders@.contains_key(order_id as u128) {
                    Some(StopLossError::OrderNotFound)
                } else if o.owner != owner {
                    Some(StopLossError::Unauthorized)
                } else if o.status != StopOrderStatus::Active && o.status != StopOrderStatus::Triggered {
                    Some(StopLossError::OrderNotActive)
                } else {
                    None
                };
                &&& r is Err <==> e is Some
                &&& r matches Err(x) ==> Some(x) == e && *final(self) == *old(self)
                &&& r matches Ok(t) ==> {
                    &&& t == (Transfer { token: o.token, from: old(self).contract, to: o.owner, amount: o.amount })
                    &&& final(self).orders@ == old(self).orders@.insert(
                        order_id as u128,
                        StopOrder { status: StopOrderStatus::Cancelled, ..o },
                    )
                    &&& final(self).events@ == old(self).events@.push(StopLossEvent::Cancelled { order_id })
                    &&& final(self).active_orders@ == without(old(self).active_orders@, order_id)
                    &&& final(self).counter == old(self).counter
                    &&& final(self).owner_orders.log@ == old(self).owner_orders.log@
                    &&& final(self).contract == old(self).contract
                }
            }),
    {
        let order = match self.orders.get(order_id as u128) {
            Some(o) => o,
            None => {
                return Err(StopLossError::OrderNotFound);
            },
        };
        if order.owner != owner {
            return Err(StopLossError::Unauthorized);
        }
        if order.status != StopOrderStatus::Active && order.status != StopOrderStatus::Triggered {
            return Err(StopLossError::OrderNotActive);
        }
        self.orders.set(order_id as u128, StopOrder { status: StopOrderStatus::Cancelled, ..order });
        remove_id(&mut self.active_orders, order_id);
        self.events.push(StopLossEvent::Cancelled { order_id });
        Ok(Transfer { token: order.token, from: self.contract, to: order.owner, amount: order.amount })
    }

    /// The order with `order_id`, if any.
    pub fn get_order(&self, order_id: u64) -> (r: Option<StopOrder>)
        ensures
            r == (if self.orders@.contains_key(order_id as u128) {
                Some(self.orders@[order_id as u128])
            } else {
                None::<StopOrder>
            }),
    {
        self.orders.get(order_id as u128)
    }

    /// The ids of the orders of `owner`, in placing order.
    pub fn get_owner_orders(&self, owner: u64) -> (r: Vec<u64>)
        ensures
            r@ == ids_under(self.owner_orders.log@, owner as u128),
    {
        self.owner_orders.get(owner as u128)
    }

    /// The ids of the orders that are still open.
    pub fn get_active_orders(&self) -> (r: Vec<u64>)
        ensures
            r@ == self.active_orders@,
    {
        let mut r: Vec<u64> = Vec::new();
        let mut i: usize = 0;
        while i < self.active_orders.len()
            invariant
                i <= self.active_orders@.len(),
                r@ == self.active_orders@.take(i as int),
            decreases self.active_orders@.len() - i,
        {
            r.push(self.active_orders[i]);
            i = i + 1;
            proof {
                assert(r@ =~= self.active_orders@.take(i as int));
            }
        }
        proof {
            assert(self.active_orders@.take(self.active_orders@.len() as int) =~= self.active_orders@);
        }
        r
    }
}


/// Observing a price never lowers a stop's stop price or its peak.
pub proof fn law_trailing_never_lowers(o: StopOrder, price: i128)
    ensures
        trailed(o, price).stop_price >= o.stop_price,
        trailed(o, price).peak_price >= o.peak_price,
{
}

} // verus!
