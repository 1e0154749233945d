//! A token with switchable failure modes, for testing how the tip jar
//! copes with misbehaving tokens: normal transfers (mode 0 and unknown
//! modes), a transfer that fails (1), a silent no-op (2), a transfer
//! followed by an attempt to re-enter the tip jar (3), and a lossy transfer
//! that moves one unit less (4).
use vstd::prelude::*;
use crate::table::Table;

verus! {

/// Errors of the adversarial token.
#[derive(Clone, Copy, Debug, PartialEq, Eq, Structural)]
pub enum AdversarialError {
    AlreadyInitialized,
    NotInitialized,
    PanicOnTransfer,
    ReentryAttempted,
    /// The sender holds less than the amount.
    InsufficientBalance,
}

/// The configuration of the token.
#[derive(Clone, Copy, Debug, PartialEq, Eq)]
pub struct AdversarialConfig {
    /// 0 normal, 1 fail, 2 no-op, 3 re-enter, 4 burn one unit.
    pub failure_mode: u32,
    /// The tip jar that mode 3 calls back into.
    pub tipjar_contract: u64,
}

/// A call back into the tip jar's `tip` that a re-entering transfer asks
/// the host to make.
#[derive(Clone, Copy, Debug, PartialEq, Eq)]
pub struct Reentry {
    pub tipjar: u64,
    pub from: u64,
    pub to: u64,
    pub amount: i128,
}

/// A stored balance.
#[derive(Clone, Copy, Debug, PartialEq, Eq)]
pub struct Balance {
    pub amount: i128,
}

/// State of the adversarial token.
pub struct AdversarialTokenContract {
    pub config: Option<AdversarialConfig>,
    /// Balances by address.
    pub balances: Table<Balance>,
}

/// The amount held by `a`, 0 when there is no entry.
pub open spec fn held(b: Map<u128, Balance>, a: u64) -> i128 {
    if b.contains_key(a as u128) { b[a as u128].amount } else { 0 }
}

/// `x` when it fits in `i128`, else `i128::MAX`.
pub open spec fn or_max(x: int) -> i128 {
    if i128::MIN <= x <= i128::MAX { x as i128 } else { i128::MAX }
}

/// The balances after `amount` moved from `from` to `to` (the receiver's
/// balance saturating at `i128::MAX`).
pub open spec fn moved(b: Map<u128, Balance>, from: u64, to: u64, amount: i128) -> Map<u128, Balance> {
    let b1 = b.insert(from as u128, Balance { amount: (held(b, from) - amount) as i128 });
    b1.insert(to as u128, Balance { amount: or_max(held(b1, to) + amount) })
}

impl AdversarialTokenContract {
    /// Not initialized, no balances.
    pub fn new() -> (t: AdversarialTokenContract)
        ensures
            t.config is None,
            t.balances@ == Map::<u128, Balance>::empty(),
    {
        AdversarialTokenContract { config: None, balances: Table::new() }
    }

    /// Sets the failure mode and the tip jar, and gives `admin` half of
    /// `i128::MAX`.
    pub fn init(&mut self, admin: u64, failure_mode: u32, tipjar: u64) -> (r: Result<(), AdversarialError>)
        ensures
            r is Err <==> old(self).config is Some,
            r matches Err(e) ==> e == AdversarialError::AlreadyInitialized && final(self).config == old(self).config
                && final(self).balances@ == old(self).balances@,
            r is Ok ==> final(self).config == Some(AdversarialConfig { failure_mode, tipjar_contract: tipjar })
                && final(self).balances@ == old(self).balances@.insert(admin as u128, Balance { amount: (i128::MAX / 2) as i128 }),
    {
        if self.config.is_some() {
            return Err(AdversarialError::AlreadyInitialized);
        }
        self.config = Some(AdversarialConfig { failure_mode, tipjar_contract: tipjar });
        self.balances.set(admin as u128, Balance { amount: i128::MAX / 2 });
        Ok(())
    }

    /// The failure mode.
    pub fn get_failure_mode(&self) -> (r: Result<u32, AdversarialError>)
        ensures
            r == match self.config {
                Some(c) => Ok::<u32, AdversarialError>(c.failure_mode),
                None => Err::<u32, AdversarialError>(AdversarialError::NotInitialized),
            },
    {
        match self.config {
            Some(c) => Ok(c.failure_mode),
            None => Err(AdversarialError::NotInitialized),
        }
    }

    /// Switches the failure mode.
    pub fn set_failure_mode(&mut self, mode: u32) -> (r: Result<(), AdversarialError>)
        ensures
            r is Err <==> old(self).config is None,
            r matches Err(e) ==> e == AdversarialError::NotInitialized && final(self).config == old(self).config,
            r is Ok ==> final(self).config == Some(AdversarialConfig { failure_mode: mode, ..old(self).config.unwrap() }),
            final(self).balances@ == old(self).balances@,
    {
        match self.config {
            Some(c) => {
                self.config = Some(AdversarialConfig { failure_mode: mode, ..c });
                Ok(())
            },
            None => Err(AdversarialError::NotInitialized),
        }
    }

    /// The balance of `address`.
    pub fn balance(&self, address: u64) -> (r: i128)
        ensures
            r == held(self.balances@, address),
    {
        match self.balances.get(address as u128) {
            Some(b) => b.amount,
            None => 0,
        }
    }

    /// Mints `amount` to `to`; a sum that does not fit gives `i128::MAX`.
    pub fn mint(&mut self, to: u64, amount: i128)
        ensures
            final(self).balances@ == old(self).balances@.insert(
                to as u128,
                Balance { amount: or_max(held(old(self).balances@, to) + amount) },
            ),
            final(self).config == old(self).config,
    {
        let current = match self.balances.get(to as u128) {
            Some(b) => b.amount,
            None => 0,
        };
        let new_amount = match current.checked_add(amount) {
            Some(v) => v,
            None => i128::MAX,
        };
        self.balances.set(to as u128, Balance { amount: new_amount });
    }

    /// Moves `amount` from `from` to `to`; the sender must hold it.
    pub fn transfer_normal(&mut self, from: u64, to: u64, amount: i128) -> (r: Result<(), AdversarialError>)
        requires
            held(old(self).balances@, from) >= amount ==> held(old(self).balances@, from)
                - amount <= i128::MAX,
        ensures
            r is Err <==> held(old(self).balances@, from) < amount,
            r matches Err(e) ==> e == AdversarialError::InsufficientBalance && final(self).balances@
                == old(self).balances@,
            r is Ok ==> final(self).balances@ == moved(old(self).balances@, from, to, amount),
            final(self).config == old(self).config,
    {
        let from_balance = match self.balances.get(from as u128) {
            Some(b) => b.amount,
            None => 0,
        };
        if from_balance < amount {
            return Err(AdversarialError::InsufficientBalance);
        }
        self.balances.set(from as u128, Balance { amount: from_balance - amount });
        let to_balance = match self.balances.get(to as u128) {
            Some(b) => b.amount,
            None => 0,
        };
        let credited = match to_balance.checked_add(amount) {
            Some(v) => v,
            None => i128::MAX,
        };
        self.balances.set(to as u128, Balance { amount: credited });
        Ok(())
    }

    /// A transfer under the current failure mode. Returns the call back
    /// into the tip jar that mode 3 asks for, if any.
    pub fn transfer(&mut self, from: u64, to: u64, amount: i128) -> (r: Result<Option<Reentry>, AdversarialError>)
        requires
            held(old(self).balances@, from) >= amount ==> held(old(self).balances@, from)
                - amount <= i128::MAX,
        ensures
            ({
                let fb = held(old(self).balances@, from);
                match old(self).config {
                    None => r == Err::<Option<Reentry>, AdversarialError>(AdversarialError::NotInitialized)
                        && final(self).balances@ == old(self).balances@,
                    Some(c) => if c.failure_mode == 1 {
                        r == Err::<Option<Reentry>, AdversarialError>(AdversarialError::PanicOnTransfer)
                            && final(self).balances@ == old(self).balances@
                    } else if c.failure_mode == 2 {
                        r == Ok::<Option<Reentry>, AdversarialError>(None) && final(self).balances@
                            == old(self).balances@
                    } else if c.failure_mode == 4 {
                        if amount <= 0 {
                            r == Ok::<Option<Reentry>, AdversarialError>(None) && final(self).balances@
                                == old(self).balances@
                        } else if fb < amount - 1 {
                            r == Err::<Option<Reentry>, AdversarialError>(AdversarialError::InsufficientBalance)
                                && final(self).balances@ == old(self).balances@
                        } else {
                            r == Ok::<Option<Reentry>, AdversarialError>(None) && final(self).balances@
                                == moved(old(self).balances@, from, to, (amount - 1) as i128)
                        }
                    } else if fb < amount {
                        r == Err::<Option<Reentry>, AdversarialError>(AdversarialError::InsufficientBalance)
                            && final(self).balances@ == old(self).balances@
                    } else {
                        &&& final(self).balances@ == moved(old(self).balances@, from, to, amount)
                        &&& r == Ok::<Option<Reentry>, AdversarialError>(
                            if c.failure_mode == 3 {
                                Some(Reentry { tipjar: c.tipjar_contract, from, to, amount })
                            } else {
                                None
                            },
                        )
                    },
                }
            }),
            final(self).config == old(self).config,
    {
        let config = match self.config {
            Some(c) => c,
            None => {
                return Err(AdversarialError::NotInitialized);
            },
        };
        if config.failure_mode == 1 {
            Err(AdversarialError::PanicOnTransfer)
        } else if config.failure_mode == 2 {
            Ok(None)
        } else if config.failure_mode == 3 {
            match self.transfer_normal(from, to, amount) {
                Ok(()) => Ok(Some(Reentry { tipjar: config.tipjar_contract, from, to, amount })),
                Err(e) => Err(e),
            }
        } else if config.failure_mode == 4 {
            if amount > 0 {
                match self.transfer_normal(from, to, amount - 1) {
                    Ok(()) => Ok(None),
                    Err(e) => Err(e),
                }
            } else {
                Ok(None)
            }
        } else {
            match self.transfer_normal(from, to, amount) {
                Ok(()) => Ok(None),
                Err(e) => Err(e),
            }
        }
    }
}

} // verus!
