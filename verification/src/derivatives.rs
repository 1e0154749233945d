//! A derivatives order book: users place buy and sell orders on an
//! underlying; matching pairs each buy with the first later sell of the same
//! kind at or below its strike, opening a position for both sides; an
//! expired order settles for `quantity * strike`.
use vstd::prelude::*;
use crate::common::Transfer;
use crate::table::{Table, pair, pair_key, get_or};

verus! {

/// Errors of the derivatives contract.
#[derive(Clone, Copy, Debug, PartialEq, Eq, Structural)]
pub enum DerivativesError {
    Unauthorized,
    OrderNotFound,
    AlreadySettled,
    NotExpired,
    InvalidAmount,
    PositionNotFound,
}

impl DerivativesError {
    /// The contract error code.
    pub fn code(&self) -> (c: u32)
        ensures
            c == match *self {
                DerivativesError::Unauthorized => 1u32,
                DerivativesError::OrderNotFound => 2,
                DerivativesError::AlreadySettled => 3,
                DerivativesError::NotExpired => 4,
                DerivativesError::InvalidAmount => 5,
                DerivativesError::PositionNotFound => 6,
            },
    {
        match self {
            DerivativesError::Unauthorized => 1,
            DerivativesError::OrderNotFound => 2,
            DerivativesError::AlreadySettled => 3,
            DerivativesError::NotExpired => 4,
            DerivativesError::InvalidAmount => 5,
            DerivativesError::PositionNotFound => 6,
        }
    }
}

/// An order on the book.
#[derive(Clone, Copy, Debug, PartialEq, Eq)]
pub struct Order {
    pub id: u64,
    pub owner: u64,
    /// The kind of derivative (such as a call or a put), as a symbol id.
    pub derivative_type: u64,
    pub underlying: u64,
    pub strike_price: i128,
    pub expiry: u64,
    pub quantity: i128,
    pub is_buy: bool,
    pub settled: bool,
}

/// A position opened by a match.
#[derive(Clone, Copy, Debug, PartialEq, Eq)]
pub struct Position {
    pub owner: u64,
    pub derivative_id: u64,
    pub quantity: i128,
    pub entry_price: i128,
}

/// State of the derivatives contract.
pub struct DerivativesContract {
    /// This contract's own address, which pays settlements.
    pub contract: u64,
    /// Orders by id.
    pub orders: Table<Order>,
    /// Positions by `pair(owner, derivative_id)`.
    pub positions: Table<Position>,
    /// The last order id.
    pub order_count: u64,
    /// All order ids, in placing order.
    pub order_ids: Vec<u64>,
    /// What the contract published, oldest first.
    pub events: Vec<DerivativesEvent>,
}

/// What the derivatives contract publishes.
#[derive(Clone, Copy, Debug, PartialEq, Eq, Structural)]
pub enum DerivativesEvent {
    /// `deriv placed`: `owner` placed order `order_id`.
    Placed { order_id: u64, owner: u64 },
    /// `deriv matched`: buy `buy_id` was matched with sell `sell_id` at `price`.
    Matched { buy_id: u64, sell_id: u64, price: i128 },
    /// `deriv settled`: order `order_id` settled for `value`.
    Settled { order_id: u64, value: i128 },
}

/// The orders of `ids` (first `n`) that exist and are not settled, in
/// order.
pub open spec fn open_orders(orders: Map<u128, Order>, ids: Seq<u64>, n: nat) -> Seq<Order>
    decreases n,
{
    if n == 0 || n > ids.len() {
        Seq::empty()
    } else {
        let rest = open_orders(orders, ids, (n - 1) as nat);
        let k = ids[n - 1] as u128;
        if orders.contains_key(k) && !orders[k].settled {
            rest.push(orders[k])
        } else {
            rest
        }
    }
}

/// True if `sell` can fill buy order `buy`.
pub open spec fn can_fill(buy: Order, sell: Order) -> bool {
    &&& !sell.is_buy
    &&& buy.derivative_type == sell.derivative_type
    &&& buy.strike_price >= sell.strike_price
}

/// The first position from `j` on in `snap` whose order can fill the buy
/// order at `i`.
pub open spec fn first_fill(snap: Seq<Order>, i: int, j: int) -> Option<int>
    decreases snap.len() - j,
{
    if j < 0 || j >= snap.len() {
        None
    } else if can_fill(snap[i], snap[j]) {
        Some(j)
    } else {
        first_fill(snap, i, j + 1)
    }
}

/// The sell order matched with position `i` of `snap`, if it is a buy.
pub open spec fn partner(snap: Seq<Order>, i: int) -> Option<int> {
    if snap[i].is_buy { first_fill(snap, i, i + 1) } else { None }
}

/// The position each side of a match opens.
pub open spec fn opened(o: Order, qty: i128, price: i128) -> Position {
    Position { owner: o.owner, derivative_id: o.id, quantity: qty, entry_price: price }
}

/// Positions and orders after the first `n` orders of `snap` were matched.
pub open spec fn matched(
    snap: Seq<Order>,
    pos: Map<u128, Position>,
    ord: Map<u128, Order>,
    n: nat,
) -> (Map<u128, Position>, Map<u128, Order>)
    decreases n,
{
    if n == 0 || n > snap.len() {
        (pos, ord)
    } else {
        let (p, o) = matched(snap, pos, ord, (n - 1) as nat);
        match partner(snap, n - 1) {
            None => (p, o),
            Some(j) => {
                let buy = snap[n - 1];
                let sell = snap[j];
                let qty = if buy.quantity < sell.quantity { buy.quantity } else { sell.quantity };
                let price = sell.strike_price;
                (
                    p.insert(pair(buy.owner, buy.id), opened(buy, qty, price)).insert(
                        pair(sell.owner, sell.id),
                        opened(sell, qty, price),
                    ),
                    o.insert(buy.id as u128, Order { settled: true, ..buy }).insert(
                        sell.id as u128,
                        Order { settled: true, ..sell },
                    ),
                )
            },
        }
    }
}

/// The matches published while the first `n` orders of `snap` were
/// matched, in order.
pub open spec fn match_events(snap: Seq<Order>, n: nat) -> Seq<DerivativesEvent>
    decreases n,
{
    if n == 0 || n > snap.len() {
        Seq::empty()
    } else {
        let rest = match_events(snap, (n - 1) as nat);
        match partner(snap, n - 1) {
            None => rest,
            Some(j) => rest.push(
                DerivativesEvent::Matched { buy_id: snap[n - 1].id, sell_id: snap[j].id, price: snap[j].strike_price },
            ),
        }
    }
}

impl DerivativesContract {
    /// An empty book at `contract`.
    pub fn new(contract: u64) -> (d: DerivativesContract)
        ensures
            d.contract == contract,
            d.orders@ == Map::<u128, Order>::empty(),
            d.positions@ == Map::<u128, Position>::empty(),
            d.order_count == 0,
            d.order_ids@.len() == 0,
            d.events@.len() == 0,
    {
        DerivativesContract {
            contract,
            orders: Table::new(),
            positions: Table::new(),
            order_count: 0,
            order_ids: Vec::new(),
            events: Vec::new(),
        }
    }

    /// Places an order of `caller`; returns its id (ids count from 1).
    pub fn place_order(
        &mut self,
        caller: u64,
        derivative_type: u64,
        underlying: u64,
        strike_price: i128,
        expiry: u64,
        quantity: i128,
        is_buy: bool,
    ) -> (r: Result<u64, DerivativesError>)
        requires
            old(self).order_count < u64::MAX,
        ensures
            r is Err <==> quantity <= 0 || strike_price <= 0,
            r matches Err(e) ==> e == DerivativesError::InvalidAmount && *final(self) == *old(self),
            r matches Ok(id) ==> {
                &&& id == old(self).order_count + 1
                &&& final(self).order_count == id
                &&& final(self).orders@ == old(self).orders@.insert(
                    id as u128,
                    Order {
                        id,
                        owner: caller,
                        derivative_type,
                        underlying,
                        strike_price,
                        expiry,
                        quantity,
                        is_buy,
                        settled: false,
                    },
                )
                &&& final(self).order_ids@ == old(self).order_ids@.push(id)
                &&& final(self).events@ == old(self).events@.push(DerivativesEvent::Placed { order_id: id, owner: caller })
                &&& final(self).positions@ == old(self).positions@
                &&& final(self).contract == old(self).contract
            },
    {
        if quantity <= 0 || strike_price <= 0 {
            return Err(DerivativesError::InvalidAmount);
        }
        let order_id = self.order_count + 1;
        self.orders.set(
            order_id as u128,
            Order {
                id: order_id,
                owner: caller,
                derivative_type,
                underlying,
                strike_price,
                expiry,
                quantity,
                is_buy,
                settled: false,
            },
        );
        self.order_count = order_id;
        self.order_ids.push(order_id);
        self.events.push(DerivativesEvent::Placed { order_id, owner: caller });
        Ok(order_id)
    }

    /// Matches the book: the open orders are read once, in placing order;
    /// each buy is paired with the first later sell of the same kind whose
    /// strike is at most its own, both sides open a position of the smaller
    /// quantity at the sell's strike, and both orders are marked settled.
    /// Matching works on the orders as read at the start, so a sell can fill
    /// more than one buy.
    pub fn match_orders(&mut self)
        ensures
            ({
                let snap = open_orders(old(self).orders@, old(self).order_ids@, old(self).order_ids@.len());
                let (p, o) = matched(snap, old(self).positions@, old(self).orders@, snap.len());
                &&& final(self).positions@ == p
                &&& final(self).orders@ == o
                &&& final(self).events@ == old(self).events@ + match_events(snap, snap.len())
            }),
            final(self).order_count == old(self).order_count,
            final(self).order_ids@ == old(self).order_ids@,
            final(self).contract == old(self).contract,
    {
        let ghost ord0 = self.orders@;
        let ghost pos0 = self.positions@;
        let ghost ev0 = self.events@;
        let mut snap: Vec<Order> = Vec::new();
        let mut k: usize = 0;
        while k < self.order_ids.len()
            invariant
                k <= self.order_ids@.len(),
                self.orders@ == ord0,
                snap@ == open_orders(ord0, self.order_ids@, k as nat),
                self.events@ == ev0,
            decreases self.order_ids@.len() - k,
        {
            let id = self.order_ids[k];
            match self.orders.get(id as u128) {
                Some(o) => {
                    if !o.settled {
                        snap.push(o);
                    }
                },
                None => {},
            }
            k = k + 1;
        }
        let len = snap.len();
        let mut i: usize = 0;
        while i < len
            invariant
                len == snap@.len(),
                i <= len,
                snap@ == open_orders(ord0, self.order_ids@, self.order_ids@.len()),
                (self.positions@, self.orders@) == matched(snap@, pos0, ord0, i as nat),
                self.events@ == ev0 + match_events(snap@, i as nat),
                self.order_count == old(self).order_count,
                self.order_ids@ == old(self).order_ids@,
                self.contract == old(self).contract,
            decreases len - i,
        {
            let buy = snap[i];
            if buy.is_buy {
                let mut j: usize = i + 1;
                while j < len
                    invariant_except_break
                        (self.positions@, self.orders@) == matched(snap@, pos0, ord0, i as nat),
                        self.events@ == ev0 + match_events(snap@, i as nat),
                    invariant
                        len == snap@.len(),
                        i < len,
                        i + 1 <= j <= len,
                        buy == snap@[i as int],
                        buy.is_buy,
                        first_fill(snap@, i as int, i + 1) == first_fill(snap@, i as int, j as int),
                        self.order_count == old(self).order_count,
                        self.order_ids@ == old(self).order_ids@,
                        self.contract == old(self).contract,
                    ensures
                        j < len ==> first_fill(snap@, i as int, i + 1) == Some(j as int)
                            && (self.positions@, self.orders@) == matched(snap@, pos0, ord0, (i + 1) as nat)
                            && self.events@ == ev0 + match_events(snap@, (i + 1) as nat),
                        j >= len ==> first_fill(snap@, i as int, i + 1) is None && (
                        self.positions@,
                        self.orders@,
                        ) == matched(snap@, pos0, ord0, i as nat)
                            && self.events@ == ev0 + match_events(snap@, i as nat),
                        self.order_count == old(self).order_count,
                        self.order_ids@ == old(self).order_ids@,
                        self.contract == old(self).contract,
                    decreases len - j,
                {
                    let sell = snap[j];
                    if !sell.is_buy && buy.derivative_type == sell.derivative_type && buy.strike_price
                        >= sell.strike_price {
                        let match_price = sell.strike_price;
                        let match_qty = if buy.quantity < sell.quantity {
                            buy.quantity
                        } else {
                            sell.quantity
                        };
                        self.positions.set(
                            pair_key(buy.owner, buy.id),
                            Position {
                                owner: buy.owner,
                                derivative_id: buy.id,
                                quantity: match_qty,
                                entry_price: match_price,
                            },
                        );
                        self.positions.set(
                            pair_key(sell.owner, sell.id),
                            Position {
                                owner: sell.owner,
                                derivative_id: sell.id,
                                quantity: match_qty,
                                entry_price: match_price,
                            },
                        );
                        self.orders.set(buy.id as u128, Order { settled: true, ..buy });
                        self.orders.set(sell.id as u128, Order { settled: true, ..sell });
                        self.events.push(
                            DerivativesEvent::Matched { buy_id: buy.id, sell_id: sell.id, price: match_price },
                        );
                        proof {
                            assert(match_events(snap@, (i + 1) as nat) == match_events(snap@, i as nat).push(
                                DerivativesEvent::Matched { buy_id: buy.id, sell_id: sell.id, price: match_price },
                            ));
                            assert(self.events@ == ev0 + match_events(snap@, (i + 1) as nat));
                        }
                        break;
                    }
                    j = j + 1;
                }
            }
            i = i + 1;
        }
    }

    /// The error `settle_order` answers at `now`, if any.
    pub open spec fn settle_error(&self, now: u64, order_id: u64) -> Option<DerivativesError> {
        let k = order_id as u128;
        if !self.orders@.contains_key(k) {
            Some(DerivativesError::OrderNotFound)
        } else if self.orders@[k].settled {
            Some(DerivativesError::AlreadySettled)
        } else if now < self.orders@[k].expiry {
            Some(DerivativesError::NotExpired)
        } else {
            None
        }
    }

    /// Settles an expired, unsettled order at `now`: the contract pays its
    /// owner `quantity * strike_price` of the underlying and the order is
    /// marked settled.
    pub fn settle_order(&mut self, now: u64, caller: u64, order_id: u64) -> (r: Result<
        Transfer,
        DerivativesError,
    >)
        requires
            old(self).orders@.contains_key(order_id as u128) ==> {
                let o = old(self).orders@[order_id as u128];
                i128::MIN <= o.quantity * o.strike_price <= i128::MAX
            },
        ensures
            r is Err <==> old(self).settle_error(now, order_id) is Some,
            r matches Err(e) ==> Some(e) == old(self).settle_error(now, order_id) && *final(self)
                == *old(self),
            r matches Ok(t) ==> {
                let o = old(self).orders@[order_id as u128];
                &&& t == (Transfer {
                    token: o.underlying,
                    from: old(self).contract,
                    to: o.owner,
                    amount: (o.quantity * o.strike_price) as i128,
                })
                &&& final(self).orders@ == old(self).orders@.insert(
                    order_id as u128,
                    Order { settled: true, ..o },
                )
                &&& final(self).positions@ == old(self).positions@
                &&& final(self).order_count == old(self).order_count
                &&& final(self).order_ids@ == old(self).order_ids@
                &&& final(self).contract == old(self).contract
                &&& final(self).events@ == old(self).events@.push(
                    DerivativesEvent::Settled { order_id, value: (o.quantity * o.strike_price) as i128 },
                )
            },
    {
        let order = match self.orders.get(order_id as u128) {
            Some(o) => o,
            None => {
                return Err(DerivativesError::OrderNotFound);
            },
        };
        if order.settled {
            return Err(DerivativesError::AlreadySettled);
        }
        if now < order.expiry {
            return Err(DerivativesError::NotExpired);
        }
        let settlement_value = order.quantity * order.strike_price;
        self.orders.set(order_id as u128, Order { settled: true, ..order });
        self.events.push(DerivativesEvent::Settled { order_id, value: settlement_value });
        Ok(Transfer { token: order.underlying, from: self.contract, to: order.owner, amount: settlement_value })
    }

    /// The position of `owner` in `derivative_id`.
    pub fn get_position(&self, owner: u64, derivative_id: u64) -> (r: Result<Position, DerivativesError>)
        ensures
            r == (if self.positions@.contains_key(pair(owner, derivative_id)) {
                Ok::<Position, DerivativesError>(self.positions@[pair(owner, derivative_id)])
            } else {
                Err::<Position, DerivativesError>(DerivativesError::PositionNotFound)
            }),
    {
        match self.positions.get(pair_key(owner, derivative_id)) {
            Some(p) => Ok(p),
            None => Err(DerivativesError::PositionNotFound),
        }
    }

    /// The order with `order_id`, if any.
    pub fn get_order(&self, order_id: u64) -> (r: Option<Order>)
        ensures
            r == (if self.orders@.contains_key(order_id as u128) {
                Some(self.orders@[order_id as u128])
            } else {
                None::<Order>
            }),
    {
        self.orders.get(order_id as u128)
    }

    /// Cancels an unsettled order; only its owner may. The order is marked
    /// settled.
    pub fn cancel_order(&mut self, caller: u64, order_id: u64) -> (r: Result<(), DerivativesError>)
        ensures
            ({
                let k = order_id as u128;
                let e = if !old(self).orders@.contains_key(k) {
                    Some(DerivativesError::OrderNotFound)
                } else if old(self).orders@[k].owner != caller {
                    Some(DerivativesError::Unauthorized)
                } else if old(self).orders@[k].settled {
                    Some(DerivativesError::AlreadySettled)
                } else {
                    None
                };
                &&& r is Err <==> e is Some
                &&& r matches Err(x) ==> Some(x) == e && *final(self) == *old(self)
                &&& r is Ok ==> final(self).orders@ == old(self).orders@.insert(
                    k,
                    Order { settled: true, ..old(self).orders@[k] },
                ) && final(self).positions@ == old(self).positions@
                    && final(self).order_count == old(self).order_count
                    && final(self).order_ids@ == old(self).order_ids@
                    && final(self).contract == old(self).contract
                    && final(self).events@ == old(self).events@
            }),
    {
        let order = match self.orders.get(order_id as u128) {
            Some(o) => o,
            None => {
                return Err(DerivativesError::OrderNotFound);
            },
        };
        if order.owner != caller {
            return Err(DerivativesError::Unauthorized);
        }
        if order.settled {
            return Err(DerivativesError::AlreadySettled);
        }
        self.orders.set(order_id as u128, Order { settled: true, ..order });
        Ok(())
    }
}

} // verus!
