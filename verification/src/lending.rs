//! Peer-to-peer lending of tip tokens: lenders deposit into a pool and earn
//! interest at the pool's utilization rate; borrowers post 150% collateral;
//! a loan is repaid with interest, or liquidated once its collateral falls
//! below 110% of the amount.
use vstd::prelude::*;
use crate::common::Transfer;
use crate::interest::{
    calculate_interest, calculate_rate, interest_spec, is_liquidatable, liquidatable_spec, liquidation_threshold_spec, rate_defined,
    rate_spec,
};
use crate::num::{tdiv, div_i128};
use crate::rental::{ids_of, collect_ids};
use crate::table::{Table, pair, pair_key};

verus! {

/// Minimum collateral, in percent of the amount borrowed.
pub const COLLATERAL_RATIO: i128 = 150;

/// Collateral kept by a liquidation, in percent of the amount borrowed.
pub const LIQUIDATION_BONUS: i128 = 110;

/// The id of a lending pool.
#[derive(Clone, Copy, Debug, PartialEq, Eq, Structural)]
pub struct PoolId(pub u64);

/// Lifecycle of a loan.
#[derive(Clone, Copy, Debug, PartialEq, Eq, Structural)]
pub enum LoanStatus {
    Active,
    Repaid,
    Liquidated,
}

/// A pool of one token.
#[derive(Clone, Copy, Debug, PartialEq, Eq)]
pub struct Pool {
    pub id: PoolId,
    pub token: u64,
    pub total_liquidity: i128,
    pub total_borrowed: i128,
    pub accumulated_interest: i128,
}

/// A lender's deposit in a pool.
#[derive(Clone, Copy, Debug, PartialEq, Eq)]
pub struct Deposit {
    pub lender: u64,
    pub pool_id: PoolId,
    pub amount: i128,
    pub interest_accrued: i128,
    pub deposit_timestamp: u64,
}

/// A loan.
#[derive(Clone, Copy, Debug, PartialEq, Eq)]
pub struct Loan {
    pub id: u64,
    pub pool_id: PoolId,
    pub borrower: u64,
    pub amount: i128,
    pub collateral: i128,
    pub interest_accrued: i128,
    pub borrow_timestamp: u64,
    pub status: LoanStatus,
}

/// Errors of the lending protocol.
#[derive(Clone, Copy, Debug, PartialEq, Eq, Structural)]
pub enum LendingError {
    PoolNotFound,
    InsufficientLiquidity,
    InsufficientCollateral,
    LoanNotFound,
    LoanNotActive,
    CannotLiquidate,
    /// Also answered for a pool or a loan that does not exist.
    InvalidAmount,
    /// The lender's deposit, or the pool, holds too little.
    InsufficientBalance,
    /// The lender has no deposit in the pool.
    NothingToWithdraw,
}

impl LendingError {
    /// The error code.
    pub fn code(&self) -> (c: u32)
        ensures
            c == match *self {
                LendingError::PoolNotFound => 100u32,
                LendingError::InsufficientLiquidity => 101,
                LendingError::InsufficientCollateral => 102,
                LendingError::LoanNotFound => 103,
                LendingError::LoanNotActive => 104,
                LendingError::CannotLiquidate => 105,
                LendingError::InvalidAmount => 106,
                LendingError::InsufficientBalance => 107,
                LendingError::NothingToWithdraw => 108,
            },
    {
        match self {
            LendingError::PoolNotFound => 100,
            LendingError::InsufficientLiquidity => 101,
            LendingError::InsufficientCollateral => 102,
            LendingError::LoanNotFound => 103,
            LendingError::LoanNotActive => 104,
            LendingError::CannotLiquidate => 105,
            LendingError::InvalidAmount => 106,
            LendingError::InsufficientBalance => 107,
            LendingError::NothingToWithdraw => 108,
        }
    }
}

/// State of the lending protocol.
pub struct Lending {
    /// This contract's own address, which holds pool funds and collateral.
    pub contract: u64,
    /// The last pool id.
    pub pool_counter: u64,
    /// Pools by id.
    pub pools: Table<Pool>,
    /// Deposits by `pair(lender, pool_id)`.
    pub deposits: Table<Deposit>,
    /// Loans by id.
    pub loans: Table<Loan>,
    /// The last loan id.
    pub loan_counter: u64,
    /// `(borrower, loan_id)` in borrowing order.
    pub borrower_log: Vec<(u64, u64)>,
}

/// The interest on `principal` over the time since `since`, at the rate of
/// `pool`.
pub open spec fn accrued(pool: Pool, principal: i128, now: u64, since: u64) -> int {
    interest_spec(
        principal as int,
        rate_spec(pool.total_borrowed as int, pool.total_liquidity as int),
        now - since,
    )
}

/// True if the interest on `principal` at the rate of `pool` over
/// `now - since` can be computed.
pub open spec fn accrual_fits(pool: Pool, principal: i128, now: u64, since: u64) -> bool {
    let rate = rate_spec(pool.total_borrowed as int, pool.total_liquidity as int);
    &&& since <= now
    &&& rate_defined(pool.total_borrowed as int, pool.total_liquidity as int)
    &&& i128::MIN <= principal * rate <= i128::MAX
    &&& i128::MIN <= principal * rate * (now - since) <= i128::MAX
}

impl Lending {
    /// No pools and no loans, at `contract`.
    pub fn new(contract: u64) -> (l: Lending)
        ensures
            l.contract == contract,
            l.pool_counter == 0,
            l.pools@ == Map::<u128, Pool>::empty(),
            l.deposits@ == Map::<u128, Deposit>::empty(),
            l.loans@ == Map::<u128, Loan>::empty(),
            l.loan_counter == 0,
            l.borrower_log@.len() == 0,
    {
        Lending {
            contract,
            pool_counter: 0,
            pools: Table::new(),
            deposits: Table::new(),
            loans: Table::new(),
            loan_counter: 0,
            borrower_log: Vec::new(),
        }
    }

    /// Creates an empty pool for `token`; returns its id (ids count from 1).
    pub fn create_pool(&mut self, token: u64) -> (r: Result<PoolId, LendingError>)
        requires
            old(self).pool_counter < u64::MAX,
        ensures
            r == Ok::<PoolId, LendingError>(PoolId((old(self).pool_counter + 1) as u64)),
            final(self).pool_counter == old(self).pool_counter + 1,
            final(self).pools@ == old(self).pools@.insert(
                (old(self).pool_counter + 1) as u128,
                Pool {
                    id: PoolId((old(self).pool_counter + 1) as u64),
                    token,
                    total_liquidity: 0,
                    total_borrowed: 0,
                    accumulated_interest: 0,
                },
            ),
            *final(self) == (Lending { pool_counter: final(self).pool_counter, pools: final(self).pools, ..*old(self) }),
    {
        let pool_id = PoolId(self.pool_counter + 1);
        self.pools.set(
            pool_id.0 as u128,
            Pool { id: pool_id, token, total_liquidity: 0, total_borrowed: 0, accumulated_interest: 0 },
        );
        self.pool_counter = pool_id.0;
        Ok(pool_id)
    }

    /// The pool with `pool_id`.
    pub fn get_pool(&self, pool_id: PoolId) -> (r: Result<Pool, LendingError>)
        ensures
            r == (if self.pools@.contains_key(pool_id.0 as u128) {
                Ok::<Pool, LendingError>(self.pools@[pool_id.0 as u128])
            } else {
                Err::<Pool, LendingError>(LendingError::InvalidAmount)
            }),
    {
        match self.pools.get(pool_id.0 as u128) {
            Some(p) => Ok(p),
            None => Err(LendingError::InvalidAmount),
        }
    }

    /// The deposit of `lender` in `pool_id`.
    pub fn get_deposit(&self, lender: u64, pool_id: PoolId) -> (r: Result<Deposit, LendingError>)
        ensures
            r == (if self.deposits@.contains_key(pair(lender, pool_id.0)) {
                Ok::<Deposit, LendingError>(self.deposits@[pair(lender, pool_id.0)])
            } else {
                Err::<Deposit, LendingError>(LendingError::NothingToWithdraw)
            }),
    {
        match self.deposits.get(pair_key(lender, pool_id.0)) {
            Some(d) => Ok(d),
            None => Err(LendingError::NothingToWithdraw),
        }
    }

    /// The deposit of `lender` in `pool_id`, or an empty one started at
    /// `now`.
    pub open spec fn deposit_or_new(&self, now: u64, lender: u64, pool_id: PoolId) -> Deposit {
        let k = pair(lender, pool_id.0);
        if self.deposits@.contains_key(k) {
            self.deposits@[k]
        } else {
            Deposit { lender, pool_id, amount: 0, interest_accrued: 0, deposit_timestamp: now }
        }
    }

    /// `lender` deposits `amount` into `pool_id` at `now`; the deposit's
    /// clock restarts. Returns the payment into the pool.
    pub fn deposit(&mut self, now: u64, pool_id: PoolId, lender: u64, amount: i128) -> (r: Result<
        Transfer,
        LendingError,
    >)
        requires
            old(self).pools@.contains_key(pool_id.0 as u128) && amount > 0 ==> {
                &&& old(self).pools@[pool_id.0 as u128].total_liquidity + amount <= i128::MAX
                &&& old(self).deposit_or_new(now, lender, pool_id).amount + amount <= i128::MAX
            },
        ensures
            r is Err <==> amount <= 0 || !old(self).pools@.contains_key(pool_id.0 as u128),
            r matches Err(e) ==> e == LendingError::InvalidAmount && *final(self) == *old(self),
            r matches Ok(t) ==> {
                let p = old(self).pools@[pool_id.0 as u128];
                let d = old(self).deposit_or_new(now, lender, pool_id);
                &&& t == (Transfer { token: p.token, from: lender, to: old(self).contract, amount })
                &&& final(self).pools@ == old(self).pools@.insert(
                    pool_id.0 as u128,
                    Pool { total_liquidity: (p.total_liquidity + amount) as i128, ..p },
                )
                &&& final(self).deposits@ == old(self).deposits@.insert(
                    pair(lender, pool_id.0),
                    Deposit { amount: (d.amount + amount) as i128, deposit_timestamp: now, ..d },
                )
                &&& *final(self) == (Lending { pools: final(self).pools, deposits: final(self).deposits, ..*old(self) })
            },
    {
        if amount <= 0 {
            return Err(LendingError::InvalidAmount);
        }
        let pool = match self.get_pool(pool_id) {
            Ok(p) => p,
            Err(e) => {
                return Err(e);
            },
        };
        let k = pair_key(lender, pool_id.0);
        let dep = match self.deposits.get(k) {
            Some(d) => d,
            None => Deposit { lender, pool_id, amount: 0, interest_accrued: 0, deposit_timestamp: now },
        };
        self.pools.set(pool_id.0 as u128, Pool { total_liquidity: pool.total_liquidity + amount, ..pool });
        self.deposits.set(k, Deposit { amount: dep.amount + amount, deposit_timestamp: now, ..dep });
        Ok(Transfer { token: pool.token, from: lender, to: self.contract, amount })
    }

    /// The error `withdraw` answers at `now`, if any.
    pub open spec fn withdraw_error(&self, now: u64, pool_id: PoolId, lender: u64, amount: i128) -> Option<
        LendingError,
    > {
        let p = self.pools@[pool_id.0 as u128];
        let d = self.deposits@[pair(lender, pool_id.0)];
        if amount <= 0 {
            Some(LendingError::InvalidAmount)
        } else if !self.pools@.contains_key(pool_id.0 as u128) {
            Some(LendingError::InvalidAmount)
        } else if !self.deposits@.contains_key(pair(lender, pool_id.0)) {
            Some(LendingError::NothingToWithdraw)
        } else if d.amount < amount {
            Some(LendingError::InsufficientBalance)
        } else if p.total_liquidity < amount + accrued(p, d.amount, now, d.deposit_timestamp) {
            Some(LendingError::InsufficientBalance)
        } else {
            None
        }
    }

    /// `lender` withdraws `amount` of its deposit in `pool_id` at `now`,
    /// together with the interest its whole deposit accrued since its clock
    /// last started, at the pool's current rate. An emptied deposit is
    /// removed; otherwise its clock restarts. Returns the payment.
    pub fn withdraw(&mut self, now: u64, pool_id: PoolId, lender: u64, amount: i128) -> (r: Result<
        Transfer,
        LendingError,
    >)
        requires
            old(self).pools@.contains_key(pool_id.0 as u128) && old(self).deposits@.contains_key(
                pair(lender, pool_id.0),
            ) && 0 < amount <= old(self).deposits@[pair(lender, pool_id.0)].amount ==> {
                let p = old(self).pools@[pool_id.0 as u128];
                let d = old(self).deposits@[pair(lender, pool_id.0)];
                let i = accrued(p, d.amount, now, d.deposit_timestamp);
                &&& accrual_fits(p, d.amount, now, d.deposit_timestamp)
                &&& amount + i <= i128::MAX
                &&& d.interest_accrued + i <= i128::MAX
            },
        ensures
            r is Err <==> old(self).withdraw_error(now, pool_id, lender, amount) is Some,
            r matches Err(e) ==> Some(e) == old(self).withdraw_error(now, pool_id, lender, amount)
                && *final(self) == *old(self),
            r matches Ok(t) ==> {
                let p = old(self).pools@[pool_id.0 as u128];
                let k = pair(lender, pool_id.0);
                let d = old(self).deposits@[k];
                let i = accrued(p, d.amount, now, d.deposit_timestamp);
                let total = amount + i;
                &&& t == (Transfer { token: p.token, from: old(self).contract, to: lender, amount: total as i128 })
                &&& final(self).pools@ == old(self).pools@.insert(
                    pool_id.0 as u128,
                    Pool { total_liquidity: (p.total_liquidity - total) as i128, ..p },
                )
                &&& final(self).deposits@ == if d.amount == amount {
                    old(self).deposits@.remove(k)
                } else {
                    old(self).deposits@.insert(
                        k,
                        Deposit {
                            amount: (d.amount - amount) as i128,
                            interest_accrued: (d.interest_accrued + i) as i128,
                            deposit_timestamp: now,
                            ..d
                        },
                    )
                }
                &&& *final(self) == (Lending { pools: final(self).pools, deposits: final(self).deposits, ..*old(self) })
            },
    {
        if amount <= 0 {
            return Err(LendingError::InvalidAmount);
        }
        let pool = match self.get_pool(pool_id) {
            Ok(p) => p,
            Err(e) => {
                return Err(e);
            },
        };
        let dep = match self.get_deposit(lender, pool_id) {
            Ok(d) => d,
            Err(e) => {
                return Err(e);
            },
        };
        if dep.amount < amount {
            return Err(LendingError::InsufficientBalance);
        }
        let current_rate = calculate_rate(pool.total_borrowed, pool.total_liquidity);
        let time_elapsed = now - dep.deposit_timestamp;
        let interest_accrued = calculate_interest(dep.amount, current_rate, time_elapsed);
        let total_to_withdraw = amount + interest_accrued;
        if pool.total_liquidity < total_to_withdraw {
            return Err(LendingError::InsufficientBalance);
        }
        self.pools.set(pool_id.0 as u128, Pool { total_liquidity: pool.total_liquidity - total_to_withdraw, ..pool });
        let k = pair_key(lender, pool_id.0);
        if dep.amount - amount == 0 {
            self.deposits.remove(k);
        } else {
            self.deposits.set(
                k,
                Deposit {
                    amount: dep.amount - amount,
                    interest_accrued: dep.interest_accrued + interest_accrued,
                    deposit_timestamp: now,
                    ..dep
                },
            );
        }
        Ok(Transfer { token: pool.token, from: self.contract, to: lender, amount: total_to_withdraw })
    }

    /// The error `borrow` answers, if any.
    pub open spec fn borrow_error(&self, pool_id: PoolId, amount: i128, collateral: i128) -> Option<LendingError> {
        if amount <= 0 || collateral <= 0 {
            Some(LendingError::InvalidAmount)
        } else if !self.pools@.contains_key(pool_id.0 as u128) {
            Some(LendingError::InvalidAmount)
        } else if collateral < tdiv(amount * COLLATERAL_RATIO, 100) {
            Some(LendingError::InsufficientCollateral)
        } else if self.pools@[pool_id.0 as u128].total_liquidity < amount {
            Some(LendingError::InsufficientBalance)
        } else {
            None
        }
    }

    /// `borrower` borrows `amount` from `pool_id` at `now`, posting
    /// `collateral` of at least 150% of it. Returns the loan id (ids count
    /// from 1) and the payments: the collateral in, the loan out.
    pub fn borrow(&mut self, now: u64, pool_id: PoolId, borrower: u64, amount: i128, collateral: i128) -> (r:
        Result<(u64, Vec<Transfer>), LendingError>)
        requires
            old(self).loan_counter < u64::MAX,
            amount > 0 ==> amount * COLLATERAL_RATIO <= i128::MAX,
            old(self).pools@.contains_key(pool_id.0 as u128) && amount > 0 ==> old(self).pools@[pool_id.0 as u128].total_borrowed
                + amount <= i128::MAX,
        ensures
            r is Err <==> old(self).borrow_error(pool_id, amount, collateral) is Some,
            r matches Err(e) ==> Some(e) == old(self).borrow_error(pool_id, amount, collateral) && *final(self)
                == *old(self),
            r matches Ok((id, ts)) ==> {
                let p = old(self).pools@[pool_id.0 as u128];
                &&& id == old(self).loan_counter + 1
                &&& final(self).loan_counter == id
                &&& final(self).loans@ == old(self).loans@.insert(
                    id as u128,
                    Loan {
                        id,
                        pool_id,
                        borrower,
                        amount,
                        collateral,
                        interest_accrued: 0,
                        borrow_timestamp: now,
                        status: LoanStatus::Active,
                    },
                )
                &&& final(self).borrower_log@ == old(self).borrower_log@.push((borrower, id))
                &&& final(self).pools@ == old(self).pools@.insert(
                    pool_id.0 as u128,
                    Pool {
                        total_liquidity: (p.total_liquidity - amount) as i128,
                        total_borrowed: (p.total_borrowed + amount) as i128,
                        ..p
                    },
                )
                &&& ts@ == seq![
                    Transfer { token: p.token, from: borrower, to: old(self).contract, amount: collateral },
                    Transfer { token: p.token, from: old(self).contract, to: borrower, amount },
                ]
                &&& final(self).deposits@ == old(self).deposits@
                &&& final(self).pool_counter == old(self).pool_counter
                &&& final(self).contract == old(self).contract
            },
    {
        if amount <= 0 || collateral <= 0 {
            return Err(LendingError::InvalidAmount);
        }
        let pool = match self.get_pool(pool_id) {
            Ok(p) => p,
            Err(e) => {
                return Err(e);
            },
        };
        let required_collateral = (amount * COLLATERAL_RATIO) / 100;
        proof {
            crate::num::lemma_tdiv_nonneg(amount * COLLATERAL_RATIO, 100);
        }
        if collateral < required_collateral {
            return Err(LendingError::InsufficientCollateral);
        }
        if pool.total_liquidity < amount {
            return Err(LendingError::InsufficientBalance);
        }
        let loan_id = self.loan_counter + 1;
        let mut ts: Vec<Transfer> = Vec::new();
        ts.push(Transfer { token: pool.token, from: borrower, to: self.contract, amount: collateral });
        ts.push(Transfer { token: pool.token, from: self.contract, to: borrower, amount });
        self.loans.set(
            loan_id as u128,
            Loan {
                id: loan_id,
                pool_id,
                borrower,
                amount,
                collateral,
                interest_accrued: 0,
                borrow_timestamp: now,
                status: LoanStatus::Active,
            },
        );
        self.loan_counter = loan_id;
        self.borrower_log.push((borrower, loan_id));
        self.pools.set(
            pool_id.0 as u128,
            Pool {
                total_liquidity: pool.total_liquidity - amount,
                total_borrowed: pool.total_borrowed + amount,
                ..pool
            },
        );
        Ok((loan_id, ts))
    }

    /// The error `repay` answers at `now`, if any.
    pub open spec fn repay_error(&self, now: u64, loan_id: u64, amount: i128) -> Option<LendingError> {
        let l = self.loans@[loan_id as u128];
        let p = self.pools@[l.pool_id.0 as u128];
        if amount <= 0 {
            Some(LendingError::InvalidAmount)
        } else if !self.loans@.contains_key(loan_id as u128) {
            Some(LendingError::InvalidAmount)
        } else if l.status != LoanStatus::Active {
            Some(LendingError::LoanNotActive)
        } else if !self.pools@.contains_key(l.pool_id.0 as u128) {
            Some(LendingError::InvalidAmount)
        } else if amount < l.amount + accrued(p, l.amount, now, l.borrow_timestamp) {
            Some(LendingError::InsufficientBalance)
        } else {
            None
        }
    }

    /// Repays active loan `loan_id` at `now` with `amount`, which must
    /// cover the amount plus the interest accrued since borrowing at the
    /// pool's current rate: the borrower pays `amount` in, the collateral and
    /// any overpayment go back to the borrower, and the pool takes the
    /// repayment. Returns the payments.
    pub fn repay(&mut self, now: u64, loan_id: u64, amount: i128) -> (r: Result<Vec<Transfer>, LendingError>)
        requires
            old(self).loans@.contains_key(loan_id as u128) && old(self).pools@.contains_key(
                old(self).loans@[loan_id as u128].pool_id.0 as u128,
            ) && amount > 0 ==> {
                let l = old(self).loans@[loan_id as u128];
                let p = old(self).pools@[l.pool_id.0 as u128];
                let i = accrued(p, l.amount, now, l.borrow_timestamp);
                l.status == LoanStatus::Active ==> {
                    &&& accrual_fits(p, l.amount, now, l.borrow_timestamp)
                    &&& i128::MIN <= l.amount + i <= i128::MAX
                    &&& amount >= l.amount + i ==> {
                        &&& amount - (l.amount + i) <= i128::MAX
                        &&& i128::MIN <= p.total_borrowed - l.amount <= i128::MAX
                        &&& p.total_liquidity + amount <= i128::MAX
                        &&& p.accumulated_interest + i <= i128::MAX
                    }
                }
            },
        ensures
            r is Err <==> old(self).repay_error(now, loan_id, amount) is Some,
            r matches Err(e) ==> Some(e) == old(self).repay_error(now, loan_id, amount) && *final(self)
                == *old(self),
            r matches Ok(ts) ==> {
                let l = old(self).loans@[loan_id as u128];
                let p = old(self).pools@[l.pool_id.0 as u128];
                let i = accrued(p, l.amount, now, l.borrow_timestamp);
                let over = amount - (l.amount + i);
                &&& ts@ == seq![
                    Transfer { token: p.token, from: l.borrower, to: old(self).contract, amount },
                    Transfer { token: p.token, from: old(self).contract, to: l.borrower, amount: l.collateral },
                ] + if over > 0 {
                    seq![Transfer { token: p.token, from: old(self).contract, to: l.borrower, amount: over as i128 }]
                } else {
                    Seq::<Transfer>::empty()
                }
                &&& final(self).loans@ == old(self).loans@.insert(
                    loan_id as u128,
                    Loan { status: LoanStatus::Repaid, interest_accrued: i as i128, ..l },
                )
                &&& final(self).pools@ == old(self).pools@.insert(
                    l.pool_id.0 as u128,
                    Pool {
                        total_borrowed: (p.total_borrowed - l.amount) as i128,
                        total_liquidity: (p.total_liquidity + amount) as i128,
                        accumulated_interest: (p.accumulated_interest + i) as i128,
                        ..p
                    },
                )
                &&& *final(self) == (Lending { pools: final(self).pools, loans: final(self).loans, ..*old(self) })
            },
    {
        if amount <= 0 {
            return Err(LendingError::InvalidAmount);
        }
        let loan = match self.loans.get(loan_id as u128) {
            Some(l) => l,
            None => {
                return Err(LendingError::InvalidAmount);
            },
        };
        if loan.status != LoanStatus::Active {
            return Err(LendingError::LoanNotActive);
        }
        let pool = match self.get_pool(loan.pool_id) {
            Ok(p) => p,
            Err(e) => {
                return Err(e);
            },
        };
        let time_elapsed = now - loan.borrow_timestamp;
        let current_rate = calculate_rate(pool.total_borrowed, pool.total_liquidity);
        let interest_accrued = calculate_interest(loan.amount, current_rate, time_elapsed);
        let total_owed = loan.amount + interest_accrued;
        if amount < total_owed {
            return Err(LendingError::InsufficientBalance);
        }
        let mut ts: Vec<Transfer> = Vec::new();
        ts.push(Transfer { token: pool.token, from: loan.borrower, to: self.contract, amount });
        ts.push(Transfer { token: pool.token, from: self.contract, to: loan.borrower, amount: loan.collateral });
        let overpayment = amount - total_owed;
        if overpayment > 0 {
            ts.push(Transfer { token: pool.token, from: self.contract, to: loan.borrower, amount: overpayment });
        }
        self.loans.set(
            loan_id as u128,
            Loan { status: LoanStatus::Repaid, interest_accrued, ..loan },
        );
        self.pools.set(
            loan.pool_id.0 as u128,
            Pool {
                total_borrowed: pool.total_borrowed - loan.amount,
                total_liquidity: pool.total_liquidity + amount,
                accumulated_interest: pool.accumulated_interest + interest_accrued,
                ..pool
            },
        );
        proof {
            let l = old(self).loans@[loan_id as u128];
            let p = old(self).pools@[l.pool_id.0 as u128];
            let i = accrued(p, l.amount, now, l.borrow_timestamp);
            let over = amount - (l.amount + i);
            assert(ts@ =~= seq![
                Transfer { token: p.token, from: l.borrower, to: old(self).contract, amount },
                Transfer { token: p.token, from: old(self).contract, to: l.borrower, amount: l.collateral },
            ] + if over > 0 {
                seq![Transfer { token: p.token, from: old(self).contract, to: l.borrower, amount: over as i128 }]
            } else {
                Seq::<Transfer>::empty()
            });
        }
        Ok(ts)
    }

    /// The error `liquidate` answers, if any.
    pub open spec fn liquidate_error(&self, loan_id: u64) -> Option<LendingError> {
        let l = self.loans@[loan_id as u128];
        if !self.loans@.contains_key(loan_id as u128) {
            Some(LendingError::InvalidAmount)
        } else if l.status != LoanStatus::Active {
            Some(LendingError::LoanNotActive)
        } else if !liquidatable_spec(l.amount as int, l.collateral as int) {
            Some(LendingError::CannotLiquidate)
        } else if !self.pools@.contains_key(l.pool_id.0 as u128) {
            Some(LendingError::InvalidAmount)
        } else {
            None
        }
    }

    /// Liquidates active loan `loan_id` once its collateral is below 110%
    /// of its amount: collateral above that threshold goes back to the
    /// borrower, the pool's borrowed total drops by the amount and its
    /// liquidity grows by the threshold. Returns the payments.
    pub fn liquidate(&mut self, loan_id: u64) -> (r: Result<Vec<Transfer>, LendingError>)
        requires
            old(self).loans@.contains_key(loan_id as u128) ==> {
                let l = old(self).loans@[loan_id as u128];
                let p = old(self).pools@[l.pool_id.0 as u128];
                let th = liquidation_threshold_spec(l.amount as int);
                &&& i128::MIN <= l.amount * LIQUIDATION_BONUS <= i128::MAX
                &&& old(self).pools@.contains_key(l.pool_id.0 as u128) ==> {
                    &&& i128::MIN <= p.total_borrowed - l.amount <= i128::MAX
                    &&& i128::MIN <= p.total_liquidity + th <= i128::MAX
                }
            },
        ensures
            r is Err <==> old(self).liquidate_error(loan_id) is Some,
            r matches Err(e) ==> Some(e) == old(self).liquidate_error(loan_id) && *final(self) == *old(self),
            r matches Ok(ts) ==> {
                let l = old(self).loans@[loan_id as u128];
                let p = old(self).pools@[l.pool_id.0 as u128];
                let th = liquidation_threshold_spec(l.amount as int);
                &&& ts@ == if l.collateral > th {
                    seq![Transfer { token: p.token, from: old(self).contract, to: l.borrower, amount: (l.collateral - th) as i128 }]
                } else {
                    Seq::<Transfer>::empty()
                }
                &&& final(self).loans@ == old(self).loans@.insert(
                    loan_id as u128,
                    Loan { status: LoanStatus::Liquidated, ..l },
                )
                &&& final(self).pools@ == old(self).pools@.insert(
                    l.pool_id.0 as u128,
                    Pool {
                        total_borrowed: (p.total_borrowed - l.amount) as i128,
                        total_liquidity: (p.total_liquidity + th) as i128,
                        ..p
                    },
                )
                &&& *final(self) == (Lending { pools: final(self).pools, loans: final(self).loans, ..*old(self) })
            },
    {
        let loan = match self.loans.get(loan_id as u128) {
            Some(l) => l,
            None => {
                return Err(LendingError::InvalidAmount);
            },
        };
        if loan.status != LoanStatus::Active {
            return Err(LendingError::LoanNotActive);
        }
        if !is_liquidatable(loan.amount, loan.collateral) {
            return Err(LendingError::CannotLiquidate);
        }
        let pool = match self.get_pool(loan.pool_id) {
            Ok(p) => p,
            Err(e) => {
                return Err(e);
            },
        };
        proof {
            crate::num::lemma_tdiv_bound(loan.amount * LIQUIDATION_BONUS, 100);
        }
        let threshold = div_i128(loan.amount * LIQUIDATION_BONUS, 100);
        let mut ts: Vec<Transfer> = Vec::new();
        if loan.collateral > threshold {
            ts.push(
                Transfer { token: pool.token, from: self.contract, to: loan.borrower, amount: loan.collateral - threshold },
            );
        }
        self.loans.set(loan_id as u128, Loan { status: LoanStatus::Liquidated, ..loan });
        self.pools.set(
            loan.pool_id.0 as u128,
            Pool {
                total_borrowed: pool.total_borrowed - loan.amount,
                total_liquidity: pool.total_liquidity + threshold,
                ..pool
            },
        );
        Ok(ts)
    }

    /// The loan with `loan_id`.
    pub fn get_loan(&self, loan_id: u64) -> (r: Result<Loan, LendingError>)
        ensures
            r == (if self.loans@.contains_key(loan_id as u128) {
                Ok::<Loan, LendingError>(self.loans@[loan_id as u128])
            } else {
                Err::<Loan, LendingError>(LendingError::InvalidAmount)
            }),
    {
        match self.loans.get(loan_id as u128) {
            Some(l) => Ok(l),
            None => Err(LendingError::InvalidAmount),
        }
    }

    /// The ids of the loans of `borrower`, in borrowing order.
    pub fn get_borrower_loans(&self, borrower: u64) -> (r: Vec<u64>)
        ensures
            r@ == ids_of(self.borrower_log@, borrower),
    {
        collect_ids(&self.borrower_log, borrower)
    }
}

} // verus!
