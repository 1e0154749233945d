//! The second version of the tip jar, as an upgrade target: tipping and
//! totals unchanged, withdrawal reduced to a creator paying itself, and a
//! migration that advances the stored data version from 1 to 2.
use vstd::prelude::*;
use crate::common::Transfer;
use crate::table::{Table, pair, pair_key, get_or};

verus! {

/// The data version this version expects.
pub const DATA_VERSION: u32 = 2;

/// Errors of the second version, with the codes of the first.
#[derive(Clone, Copy, Debug, PartialEq, Eq, Structural)]
pub enum Error {
    NotInitialized,
    InvalidAmount,
    NothingToWithdraw,
    Unauthorized,
}

impl Error {
    /// The contract error code.
    pub fn code(&self) -> (c: u32)
        ensures
            c == match *self {
                Error::NotInitialized => 2u32,
                Error::InvalidAmount => 3,
                Error::NothingToWithdraw => 4,
                Error::Unauthorized => 11,
            },
    {
        match self {
            Error::NotInitialized => 2,
            Error::InvalidAmount => 3,
            Error::NothingToWithdraw => 4,
            Error::Unauthorized => 11,
        }
    }
}

/// A migration from one data version to another.
#[derive(Clone, Copy, Debug, PartialEq, Eq)]
pub struct Migrated {
    pub from_version: u32,
    pub to_version: u32,
}

/// State of the second version.
pub struct TipJarV2Fixture {
    /// This contract's own address, which holds the tips.
    pub contract: u64,
    pub admin: Option<u64>,
    /// The stored data version, if any (1 when absent).
    pub data_version: Option<u32>,
    /// Balances by `pair(creator, token)`.
    pub balances: Table<i128>,
    /// Lifetime totals by `pair(creator, token)`.
    pub totals: Table<i128>,
}

/// The stored data version, 1 when absent.
pub open spec fn version_of(v: Option<u32>) -> u32 {
    match v {
        Some(x) => x,
        None => 1,
    }
}

impl TipJarV2Fixture {
    /// The state left by the first version: its admin, data version and
    /// ledger.
    pub fn new(contract: u64, admin: Option<u64>, data_version: Option<u32>) -> (j: TipJarV2Fixture)
        ensures
            j.contract == contract,
            j.admin == admin,
            j.data_version == data_version,
            j.balances@ == Map::<u128, i128>::empty(),
            j.totals@ == Map::<u128, i128>::empty(),
    {
        TipJarV2Fixture { contract, admin, data_version, balances: Table::new(), totals: Table::new() }
    }

    /// `sender` tips `amount` of `token` to `creator`: the balance and the
    /// total grow. Returns the payment.
    pub fn tip(&mut self, sender: u64, creator: u64, token: u64, amount: i128) -> (r: Result<Transfer, Error>)
        ensures
            ({
                let k = pair(creator, token);
                let b = get_or(old(self).balances@, k, 0) + amount;
                let t = get_or(old(self).totals@, k, 0) + amount;
                let fails = amount <= 0 || b > i128::MAX || t > i128::MAX;
                &&& r is Err <==> fails
                &&& r matches Err(e) ==> e == Error::InvalidAmount && final(self).balances@ == old(self).balances@
                    && final(self).totals@ == old(self).totals@
                &&& r matches Ok(x) ==> {
                    &&& x == (Transfer { token, from: sender, to: old(self).contract, amount })
                    &&& final(self).balances@ == old(self).balances@.insert(k, b as i128)
                    &&& final(self).totals@ == old(self).totals@.insert(k, t as i128)
                }
            }),
            final(self).contract == old(self).contract,
            final(self).admin == old(self).admin,
            final(self).data_version == old(self).data_version,
    {
        if amount <= 0 {
            return Err(Error::InvalidAmount);
        }
        let k = pair_key(creator, token);
        let balance = match self.balances.get(k) {
            Some(v) => v,
            None => 0,
        };
        let total = match self.totals.get(k) {
            Some(v) => v,
            None => 0,
        };
        let new_balance = match balance.checked_add(amount) {
            Some(v) => v,
            None => {
                return Err(Error::InvalidAmount);
            },
        };
        let new_total = match total.checked_add(amount) {
            Some(v) => v,
            None => {
                return Err(Error::InvalidAmount);
            },
        };
        self.balances.set(k, new_balance);
        self.totals.set(k, new_total);
        Ok(Transfer { token, from: sender, to: self.contract, amount })
    }

    /// `creator` withdraws `amount` of its balance in `token` (all of it
    /// when `None`). Returns the payment.
    pub fn withdraw(&mut self, creator: u64, token: u64, amount: Option<i128>) -> (r: Result<Transfer, Error>)
        ensures
            ({
                let k = pair(creator, token);
                let bal = get_or(old(self).balances@, k, 0);
                let want = match amount {
                    Some(a) => a,
                    None => bal,
                };
                let e = if bal == 0 {
                    Some(Error::NothingToWithdraw)
                } else if want <= 0 || want > bal {
                    Some(Error::InvalidAmount)
                } else {
                    None
                };
                &&& r is Err <==> e is Some
                &&& r matches Err(x) ==> Some(x) == e && final(self).balances@ == old(self).balances@
                &&& r matches Ok(t) ==> {
                    &&& t == (Transfer { token, from: old(self).contract, to: creator, amount: want })
                    &&& final(self).balances@ == old(self).balances@.insert(k, (bal - want) as i128)
                }
            }),
            final(self).totals@ == old(self).totals@,
            final(self).contract == old(self).contract,
            final(self).admin == old(self).admin,
            final(self).data_version == old(self).data_version,
    {
        let k = pair_key(creator, token);
        let balance = match self.balances.get(k) {
            Some(v) => v,
            None => 0,
        };
        if balance == 0 {
            return Err(Error::NothingToWithdraw);
        }
        let amount_to_withdraw = match amount {
            Some(a) => a,
            None => balance,
        };
        if amount_to_withdraw <= 0 || amount_to_withdraw > balance {
            return Err(Error::InvalidAmount);
        }
        self.balances.set(k, balance - amount_to_withdraw);
        Ok(Transfer { token, from: self.contract, to: creator, amount: amount_to_withdraw })
    }

    /// The lifetime total of `creator` in `token`.
    pub fn get_total_tips(&self, creator: u64, token: u64) -> (r: i128)
        ensures
            r == get_or(self.totals@, pair(creator, token), 0),
    {
        match self.totals.get(pair_key(creator, token)) {
            Some(v) => v,
            None => 0,
        }
    }

    /// The stored data version, 1 when absent.
    pub fn get_data_version(&self) -> (r: u32)
        ensures
            r == version_of(self.data_version),
    {
        match self.data_version {
            Some(v) => v,
            None => 1,
        }
    }

    /// The admin migrates the data to version 2; a second migration is a
    /// no-op. Returns the migration performed, if any.
    pub fn migrate(&mut self, admin: u64) -> (r: Result<Option<Migrated>, Error>)
        ensures
            old(self).admin is None ==> r == Err::<Option<Migrated>, Error>(Error::NotInitialized),
            old(self).admin matches Some(a) && a != admin ==> r == Err::<Option<Migrated>, Error>(
                Error::Unauthorized,
            ),
            r is Err ==> final(self).data_version == old(self).data_version,
            r matches Ok(m) ==> old(self).admin == Some(admin) && if version_of(old(self).data_version) >= DATA_VERSION {
                m is None && final(self).data_version == old(self).data_version
            } else {
                m == Some(Migrated { from_version: version_of(old(self).data_version), to_version: DATA_VERSION })
                    && final(self).data_version == Some(DATA_VERSION)
            },
            r is Ok ==> final(self).data_version == migrated(old(self).data_version),
            final(self).balances@ == old(self).balances@,
            final(self).totals@ == old(self).totals@,
            final(self).admin == old(self).admin,
            final(self).contract == old(self).contract,
    {
        match self.admin {
            None => {
                return Err(Error::NotInitialized);
            },
            Some(a) => {
                if a != admin {
                    return Err(Error::Unauthorized);
                }
            },
        }
        let current = match self.data_version {
            Some(v) => v,
            None => 1,
        };
        if current >= DATA_VERSION {
            return Ok(None);
        }
        self.data_version = Some(DATA_VERSION);
        Ok(Some(Migrated { from_version: current, to_version: DATA_VERSION }))
    }
}

/// The stored data version after a successful migration.
pub open spec fn migrated(v: Option<u32>) -> Option<u32> {
    if version_of(v) >= DATA_VERSION { v } else { Some(DATA_VERSION) }
}

/// Migrating twice leaves the data as migrating once does.
pub proof fn law_migrate_idempotent(v: Option<u32>)
    ensures
        migrated(migrated(v)) == migrated(v),
        version_of(migrated(v)) >= DATA_VERSION,
{
}

} // verus!
