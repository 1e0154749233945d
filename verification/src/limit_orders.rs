//! Limit orders: an owner escrows `amount_in` of one token to be swapped
//! for another at a price no worse than its limit; a match at or below the
//! limit fills the whole remainder, and a cancel refunds what is unfilled.
use vstd::prelude::*;
use crate::common::{Transfer, ids_under};
use crate::num::{tdiv, div_i128};
use crate::table::{Table, pair, pair_key};

verus! {

/// Errors of the limit-order contract.
#[derive(Clone, Copy, Debug, PartialEq, Eq, Structural)]
pub enum LimitOrderError {
    Unauthorized,
    OrderNotFound,
    AlreadyCancelled,
    InvalidAmount,
    AlreadyFilled,
    PriceNotMet,
}

impl LimitOrderError {
    /// The contract error code.
    pub fn code(&self) -> (c: u32)
        ensures
            c == match *self {
                LimitOrderError::Unauthorized => 1u32,
                LimitOrderError::OrderNotFound => 2,
                LimitOrderError::AlreadyCancelled => 3,
                LimitOrderError::InvalidAmount => 4,
                LimitOrderError::AlreadyFilled => 5,
                LimitOrderError::PriceNotMet => 6,
            },
    {
        match self {
            LimitOrderError::Unauthorized => 1,
            LimitOrderError::OrderNotFound => 2,
            LimitOrderError::AlreadyCancelled => 3,
            LimitOrderError::InvalidAmount => 4,
            LimitOrderError::AlreadyFilled => 5,
            LimitOrderError::PriceNotMet => 6,
        }
    }
}

/// A limit order.
#[derive(Clone, Copy, Debug, PartialEq, Eq)]
pub struct LimitOrder {
    pub id: u64,
    pub owner: u64,
    pub token_in: u64,
    pub token_out: u64,
    pub amount_in: i128,
    pub limit_price: i128,
    pub filled: i128,
    pub cancelled: bool,
}

/// State of the limit-order contract.
pub struct LimitOrdersContract {
    /// This contract's own address, which holds the escrow.
    pub contract: u64,
    /// Orders by id.
    pub orders: Table<LimitOrder>,
    /// The last order id.
    pub order_count: u64,
    /// `(pair(token_in, token_out), order_id)` in placing order.
    pub books: Vec<(u128, u64)>,
    /// What the contract published, oldest first.
    pub events: Vec<LimitOrderEvent>,
}

/// What the limit-order contract publishes.
#[derive(Clone, Copy, Debug, PartialEq, Eq, Structural)]
pub enum LimitOrderEvent {
    /// `limit placed`: `owner` placed `order_id` at `limit_price`.
    Placed { order_id: u64, owner: u64, limit_price: i128 },
    /// `limit filled`: `fill_amount` of `order_id` filled at `price`.
    Filled { order_id: u64, fill_amount: i128, price: i128 },
    /// `limit cancelled`: `order_id` was cancelled.
    Cancelled { order_id: u64 },
}

/// The orders named by `ids` that exist, in order.
pub open spec fn orders_for(orders: Map<u128, LimitOrder>, ids: Seq<u64>) -> Seq<LimitOrder>
    decreases ids.len(),
{
    if ids.len() == 0 {
        Seq::empty()
    } else {
        let rest = orders_for(orders, ids.drop_last());
        let k = ids.last() as u128;
        if orders.contains_key(k) { rest.push(orders[k]) } else { rest }
    }
}

impl LimitOrdersContract {
    /// No orders, at `contract`.
    pub fn new(contract: u64) -> (l: LimitOrdersContract)
        ensures
            l.contract == contract,
            l.orders@ == Map::<u128, LimitOrder>::empty(),
            l.order_count == 0,
            l.books@.len() == 0,
            l.events@.len() == 0,
    {
        LimitOrdersContract { contract, orders: Table::new(), order_count: 0, books: Vec::new(), events: Vec::new() }
    }

    /// Places an order of `caller` to sell `amount_in` of `token_in` for
    /// `token_out` at `limit_price` at most; the amount is escrowed. Returns
    /// the order id (ids count from 1) and the escrow payment.
    pub fn place_order(
        &mut self,
        caller: u64,
        token_in: u64,
        token_out: u64,
        amount_in: i128,
        limit_price: i128,
    ) -> (r: Result<(u64, Transfer), LimitOrderError>)
        requires
            old(self).order_count < u64::MAX,
        ensures
            r is Err <==> amount_in <= 0 || limit_price <= 0,
            r matches Err(e) ==> e == LimitOrderError::InvalidAmount && *final(self) == *old(self),
            r matches Ok((id, t)) ==> {
                &&& id == old(self).order_count + 1
                &&& final(self).order_count == id
                &&& final(self).orders@ == old(self).orders@.insert(
                    id as u128,
                    LimitOrder {
                        id,
                        owner: caller,
                        token_in,
                        token_out,
                        amount_in,
                        limit_price,
                        filled: 0,
                        cancelled: false,
                    },
                )
                &&& final(self).books@ == old(self).books@.push((pair(token_in, token_out), id))
                &&& t == (Transfer { token: token_in, from: caller, to: old(self).contract, amount: amount_in })
                &&& final(self).events@ == old(self).events@.push(
                    LimitOrderEvent::Placed { order_id: id, owner: caller, limit_price },
                )
                &&& final(self).contract == old(self).contract
            },
    {
        if amount_in <= 0 || limit_price <= 0 {
            return Err(LimitOrderError::InvalidAmount);
        }
        let order_id = self.order_count + 1;
        self.orders.set(
            order_id as u128,
            LimitOrder {
                id: order_id,
                owner: caller,
                token_in,
                token_out,
                amount_in,
                limit_price,
                filled: 0,
                cancelled: false,
            },
        );
        self.order_count = order_id;
        self.books.push((pair_key(token_in, token_out), order_id));
        self.events.push(LimitOrderEvent::Placed { order_id, owner: caller, limit_price });
        Ok((order_id, Transfer { token: token_in, from: caller, to: self.contract, amount: amount_in }))
    }

    /// The error `match_order` answers, if any.
    pub open spec fn match_error(&self, order_id: u64, current_price: i128) -> Option<LimitOrderError> {
        let o = self.orders@[order_id as u128];
        if !self.orders@.contains_key(order_id as u128) {
            Some(LimitOrderError::OrderNotFound)
        } else if o.cancelled {
            Some(LimitOrderError::AlreadyCancelled)
        } else if current_price > o.limit_price {
            Some(LimitOrderError::PriceNotMet)
        } else if o.amount_in - o.filled <= 0 {
            Some(LimitOrderError::AlreadyFilled)
        } else {
            None
        }
    }

    /// Fills the whole unfilled remainder of `order_id` at `current_price`,
    /// which must be at or below the limit: the owner receives
    /// `remaining * limit_price / current_price` of `token_out`.
    pub fn match_order(&mut self, order_id: u64, current_price: i128) -> (r: Result<Transfer, LimitOrderError>)
        requires
            old(self).orders@.contains_key(order_id as u128) ==> {
                let o = old(self).orders@[order_id as u128];
                let rem = o.amount_in - o.filled;
                &&& i128::MIN <= rem <= i128::MAX
                &&& !o.cancelled && current_price <= o.limit_price && rem > 0 ==> current_price != 0 && i128::MIN
                    <= rem * o.limit_price <= i128::MAX && i128::MIN <= tdiv(rem * o.limit_price, current_price as int)
                    <= i128::MAX
            },
        ensures
            r is Err <==> old(self).match_error(order_id, current_price) is Some,
            r matches Err(e) ==> Some(e) == old(self).match_error(order_id, current_price) && *final(self)
                == *old(self),
            r matches Ok(t) ==> {
                let o = old(self).orders@[order_id as u128];
                let rem = o.amount_in - o.filled;
                &&& t == (Transfer {
                    token: o.token_out,
                    from: old(self).contract,
                    to: o.owner,
                    amount: tdiv(rem * o.limit_price, current_price as int) as i128,
                })
                &&& final(self).orders@ == old(self).orders@.insert(
                    order_id as u128,
                    LimitOrder { filled: o.amount_in, ..o },
                )
                &&& final(self).events@ == old(self).events@.push(
                    LimitOrderEvent::Filled { order_id, fill_amount: rem as i128, price: current_price },
                )
                &&& final(self).order_count == old(self).order_count
                &&& final(self).books@ == old(self).books@
                &&& final(self).contract == old(self).contract
            },
    {
        let order = match self.orders.get(order_id as u128) {
            Some(o) => o,
            None => {
                return Err(LimitOrderError::OrderNotFound);
            },
        };
        if order.cancelled {
            return Err(LimitOrderError::AlreadyCancelled);
        }
        if current_price > order.limit_price {
            return Err(LimitOrderError::PriceNotMet);
        }
        let remaining = order.amount_in - order.filled;
        if remaining <= 0 {
            return Err(LimitOrderError::AlreadyFilled);
        }
        let fill_amount = remaining;
        let amount_out = div_i128(fill_amount * order.limit_price, current_price);
        self.orders.set(order_id as u128, LimitOrder { filled: order.filled + fill_amount, ..order });
        self.events.push(LimitOrderEvent::Filled { order_id, fill_amount, price: current_price });
        Ok(Transfer { token: order.token_out, from: self.contract, to: order.owner, amount: amount_out })
    }

    /// The owner cancels `order_id`; the unfilled remainder, if any, is
    /// refunded.
    pub fn cancel_order(&mut self, caller: u64, order_id: u64) -> (r: Result<Option<Transfer>, LimitOrderError>)
        requires
            old(self).orders@.contains_key(order_id as u128) ==> {
                let o = old(self).orders@[order_id as u128];
                i128::MIN <= o.amount_in - o.filled <= i128::MAX
            },
        ensures
            ({
                let o = old(self).orders@[order_id as u128];
                let rem = o.amount_in - o.filled;
                let e = if !old(self).orders@.contains_key(order_id as u128) {
                    Some(LimitOrderError::OrderNotFound)
                } else if o.owner != caller {
                    Some(LimitOrderError::Unauthorized)
                } else if o.cancelled {
                    Some(LimitOrderError::AlreadyCancelled)
                } else {
                    None
                };
                &&& r is Err <==> e is Some
                &&& r matches Err(x) ==> Some(x) == e && *final(self) == *old(self)
                &&& r matches Ok(t) ==> {
                    &&& t == if rem > 0 {
                        Some(Transfer { token: o.token_in, from: old(self).contract, to: caller, amount: rem as i128 })
                    } else {
                        None::<Transfer>
                    }
                    &&& final(self).orders@ == old(self).orders@.insert(
                        order_id as u128,
                        LimitOrder { cancelled: true, ..o },
                    )
                    &&& final(self).events@ == old(self).events@.push(LimitOrderEvent::Cancelled { order_id })
                    &&& final(self).order_count == old(self).order_count
                    &&& final(self).books@ == old(self).books@
                    &&& final(self).contract == old(self).contract
                }
            }),
    {
        let order = match self.orders.get(order_id as u128) {
            Some(o) => o,
            None => {
                return Err(LimitOrderError::OrderNotFound);
            },
        };
        if order.owner != caller {
            return Err(LimitOrderError::Unauthorized);
        }
        if order.cancelled {
            return Err(LimitOrderError::AlreadyCancelled);
        }
        let remaining = order.amount_in - order.filled;
        let refund = if remaining > 0 {
            Some(Transfer { token: order.token_in, from: self.contract, to: caller, amount: remaining })
        } else {
            None
        };
        self.orders.set(order_id as u128, LimitOrder { cancelled: true, ..order });
        self.events.push(LimitOrderEvent::Cancelled { order_id });
        Ok(refund)
    }

    /// The order with `order_id`.
    pub fn get_order(&self, order_id: u64) -> (r: Result<LimitOrder, LimitOrderError>)
        ensures
            r == (if self.orders@.contains_key(order_id as u128) {
                Ok::<LimitOrder, LimitOrderError>(self.orders@[order_id as u128])
            } else {
                Err::<LimitOrder, LimitOrderError>(LimitOrderError::OrderNotFound)
            }),
    {
        match self.orders.get(order_id as u128) {
            Some(o) => Ok(o),
            None => Err(LimitOrderError::OrderNotFound),
        }
    }

    /// The orders on the book of `(token_in, token_out)`, in placing order.
    pub fn get_order_book(&self, token_in: u64, token_out: u64) -> (r: Vec<LimitOrder>)
        ensures
            r@ == orders_for(self.orders@, ids_under(self.books@, pair(token_in, token_out))),
    {
        let key = pair_key(token_in, token_out);
        let ghost log = self.books@;
        let mut ids: Vec<u64> = Vec::new();
        let mut i: usize = 0;
        while i < self.books.len()
            invariant
                i <= log.len(),
                self.books@ == log,
                ids@ == ids_under(log.take(i as int), key),
            decreases log.len() - i,
        {
            proof {
                assert(log.take(i + 1).drop_last() == log.take(i as int));
            }
            if self.books[i].0 == key {
                ids.push(self.books[i].1);
            }
            i = i + 1;
        }
        proof {
            assert(log.take(log.len() as int) == log);
        }
        let mut result: Vec<LimitOrder> = Vec::new();
        let mut j: usize = 0;
        while j < ids.len()
            invariant
                j <= ids@.len(),
                result@ == orders_for(self.orders@, ids@.take(j as int)),
            decreases ids@.len() - j,
        {
            proof {
                assert(ids@.take(j + 1).drop_last() == ids@.take(j as int));
            }
            match self.orders.get(ids[j] as u128) {
                Some(o) => result.push(o),
                None => {},
            }
            j = j + 1;
        }
        proof {
            assert(ids@.take(ids@.len() as int) == ids@);
        }
        result
    }
}

} // verus!
