//! Time-based rentals of tip-gated content: creators list content with a
//! fee per period; renters pay for one period of access.
use vstd::prelude::*;
use crate::common::Transfer;
use crate::table::{Table, pair, pair_key, get_or, lemma_pair_injective};

verus! {

/// Errors of the rental module.
#[derive(Clone, Copy, Debug, PartialEq, Eq)]
pub enum RentalError {
    ListingNotFound,
    RentalNotFound,
    RentalExpired,
    RentalStillActive,
    InvalidFee,
    InvalidDuration,
    Unauthorized,
}

impl RentalError {
    /// The contract error code.
    pub fn code(&self) -> (c: u32)
        ensures
            c == match *self {
                RentalError::ListingNotFound => 1u32,
                RentalError::RentalNotFound => 2,
                RentalError::RentalExpired => 3,
                RentalError::RentalStillActive => 4,
                RentalError::InvalidFee => 5,
                RentalError::InvalidDuration => 6,
                RentalError::Unauthorized => 7,
            },
    {
        match self {
            RentalError::ListingNotFound => 1,
            RentalError::RentalNotFound => 2,
            RentalError::RentalExpired => 3,
            RentalError::RentalStillActive => 4,
            RentalError::InvalidFee => 5,
            RentalError::InvalidDuration => 6,
            RentalError::Unauthorized => 7,
        }
    }
}

/// A creator's listing that supporters can rent.
#[derive(Clone, Copy, Debug, PartialEq, Eq)]
pub struct RentalListing {
    pub listing_id: u64,
    pub creator: u64,
    pub token: u64,
    pub fee_per_period: i128,
    pub period_seconds: u64,
    pub active: bool,
    pub created_at: u64,
}

/// One rental of a listing.
#[derive(Clone, Copy, Debug, PartialEq, Eq)]
pub struct RentalRecord {
    pub rental_id: u64,
    pub listing_id: u64,
    pub renter: u64,
    pub creator: u64,
    pub fee_paid: i128,
    pub start_time: u64,
    pub expires_at: u64,
}

/// State of the rental module.
pub struct Rentals {
    /// This contract's own address.
    pub contract: u64,
    /// Next listing id.
    pub listing_ctr: u64,
    /// Next rental id.
    pub rental_ctr: u64,
    pub listings: Table<RentalListing>,
    pub records: Table<RentalRecord>,
    /// `(renter, rental_id)` in the order rentals were made.
    pub renter_log: Vec<(u64, u64)>,
    /// `(creator, listing_id)` in the order listings were made.
    pub creator_log: Vec<(u64, u64)>,
    /// Rental income credited per `pair(creator, token)`.
    pub creator_balances: Table<i128>,
    /// What the module published, oldest first.
    pub events: Vec<RentalEvent>,
}

/// What the rental module publishes.
#[derive(Clone, Copy, Debug, PartialEq, Eq, Structural)]
pub enum RentalEvent {
    /// `rnt_list`: a listing was created.
    Listed { listing_id: u64, creator: u64, fee_per_period: i128, period_seconds: u64 },
    /// `rnt_start`: a rental started.
    Started { rental_id: u64, listing_id: u64, renter: u64, expires_at: u64 },
    /// `rnt_dact`: a listing was deactivated.
    Deactivated { listing_id: u64 },
}

/// The ids of `log` entries that belong to `owner`, in order.
pub open spec fn ids_of(log: Seq<(u64, u64)>, owner: u64) -> Seq<u64>
    decreases log.len(),
{
    if log.len() == 0 {
        Seq::empty()
    } else {
        let rest = ids_of(log.drop_last(), owner);
        if log.last().0 == owner { rest.push(log.last().1) } else { rest }
    }
}

/// Collects the ids of `log` that belong to `owner`, in order.
pub fn collect_ids(log: &Vec<(u64, u64)>, owner: u64) -> (r: Vec<u64>)
    ensures
        r@ == ids_of(log@, owner),
{
    let mut r: Vec<u64> = Vec::new();
    let mut i: usize = 0;
    while i < log.len()
        invariant
            0 <= i <= log@.len(),
            r@ == ids_of(log@.take(i as int), owner),
        decreases log@.len() - i,
    {
        proof {
            assert(log@.take(i + 1).drop_last() == log@.take(i as int));
        }
        let (o, id) = log[i];
        if o == owner {
            r.push(id);
        }
        i = i + 1;
    }
    proof {
        assert(log@.take(log@.len() as int) == log@);
    }
    r
}

/// `fee_per_period * periods`, saturating at the bounds of `i128`.
pub open spec fn rental_fee_spec(fee_per_period: int, periods: int) -> int {
    let p = fee_per_period * periods;
    if p > i128::MAX { i128::MAX as int } else if p < i128::MIN { i128::MIN as int } else { p }
}

/// The fee for `periods` rental periods.
pub fn calculate_fee(fee_per_period: i128, periods: u32) -> (r: i128)
    ensures
        r == rental_fee_spec(fee_per_period as int, periods as int),
{
    proof {
        let f = fee_per_period as int;
        let n = periods as int;
        assert(f < 0 ==> f * n <= 0) by (nonlinear_arith)
            requires n >= 0;
        assert(f >= 0 ==> f * n >= 0) by (nonlinear_arith)
            requires n >= 0;
    }
    match fee_per_period.checked_mul(periods as i128) {
        Some(p) => p,
        None => if fee_per_period < 0 { i128::MIN } else { i128::MAX },
    }
}

impl Rentals {
    /// An empty rental module at `contract`.
    pub fn new(contract: u64) -> (r: Rentals)
        ensures
            r.contract == contract,
            r.listing_ctr == 0,
            r.rental_ctr == 0,
            r.listings@ == Map::<u128, RentalListing>::empty(),
            r.records@ == Map::<u128, RentalRecord>::empty(),
            r.renter_log@.len() == 0,
            r.creator_log@.len() == 0,
            r.creator_balances@ == Map::<u128, i128>::empty(),
            r.events@.len() == 0,
    {
        Rentals {
            contract,
            listing_ctr: 0,
            rental_ctr: 0,
            listings: Table::new(),
            records: Table::new(),
            renter_log: Vec::new(),
            creator_log: Vec::new(),
            creator_balances: Table::new(),
            events: Vec::new(),
        }
    }

    /// Lists content of `creator` for rent at `fee_per_period` per
    /// `period_seconds`; returns the new listing id (ids count from 0).
    pub fn create_listing(
        &mut self,
        now: u64,
        creator: u64,
        token: u64,
        fee_per_period: i128,
        period_seconds: u64,
    ) -> (r: Result<u64, RentalError>)
        requires
            old(self).listing_ctr < u64::MAX,
        ensures
            fee_per_period <= 0 ==> r == Err::<u64, RentalError>(RentalError::InvalidFee),
            fee_per_period > 0 && period_seconds == 0 ==> r == Err::<u64, RentalError>(
                RentalError::InvalidDuration,
            ),
            r is Err ==> *final(self) == *old(self),
            fee_per_period > 0 && period_seconds > 0 ==> {
                let id = old(self).listing_ctr;
                &&& r == Ok::<u64, RentalError>(id)
                &&& final(self).listing_ctr == id + 1
                &&& final(self).listings@ == old(self).listings@.insert(
                    id as u128,
                    RentalListing {
                        listing_id: id,
                        creator,
                        token,
                        fee_per_period,
                        period_seconds,
                        active: true,
                        created_at: now,
                    },
                )
                &&& final(self).creator_log@ == old(self).creator_log@.push((creator, id))
                &&& final(self).events@ == old(self).events@.push(
                    RentalEvent::Listed { listing_id: id, creator, fee_per_period, period_seconds },
                )
                &&& final(self).rental_ctr == old(self).rental_ctr
                &&& final(self).records@ == old(self).records@
                &&& final(self).renter_log@ == old(self).renter_log@
                &&& final(self).creator_balances@ == old(self).creator_balances@
                &&& final(self).contract == old(self).contract
            },
    {
        if fee_per_period <= 0 {
            return Err(RentalError::InvalidFee);
        }
        if period_seconds == 0 {
            return Err(RentalError::InvalidDuration);
        }
        let listing_id = self.listing_ctr;
        self.listing_ctr = listing_id + 1;
        self.listings.set(
            listing_id as u128,
            RentalListing {
                listing_id,
                creator,
                token,
                fee_per_period,
                period_seconds,
                active: true,
                created_at: now,
            },
        );
        self.creator_log.push((creator, listing_id));
        self.events.push(RentalEvent::Listed { listing_id, creator, fee_per_period, period_seconds });
        Ok(listing_id)
    }

    /// Rents `listing_id` for one period from `now`: the renter pays the
    /// listing fee into escrow and the creator's balance is credited.
    /// Returns the rental id (ids count from 0) and the payment.
    pub fn rent(&mut self, now: u64, renter: u64, listing_id: u64) -> (r: Result<
        (u64, Transfer),
        RentalError,
    >)
        requires
            old(self).rental_ctr < u64::MAX,
            old(self).listings@.contains_key(listing_id as u128) ==> i128::MIN <= get_or(
                old(self).creator_balances@,
                pair(
                    old(self).listings@[listing_id as u128].creator,
                    old(self).listings@[listing_id as u128].token,
                ),
                0,
            ) + old(self).listings@[listing_id as u128].fee_per_period <= i128::MAX,
        ensures
            r is Err <==> !(old(self).listings@.contains_key(listing_id as u128)
                && old(self).listings@[listing_id as u128].active),
            r matches Err(e) ==> e == RentalError::ListingNotFound && *final(self) == *old(self),
            r matches Ok((id, t)) ==> {
                let l = old(self).listings@[listing_id as u128];
                let k = pair(l.creator, l.token);
                let expires = if now + l.period_seconds > u64::MAX {
                    u64::MAX
                } else {
                    (now + l.period_seconds) as u64
                };
                &&& id == old(self).rental_ctr
                &&& final(self).rental_ctr == id + 1
                &&& final(self).records@ == old(self).records@.insert(
                    id as u128,
                    RentalRecord {
                        rental_id: id,
                        listing_id,
                        renter,
                        creator: l.creator,
                        fee_paid: l.fee_per_period,
                        start_time: now,
                        expires_at: expires,
                    },
                )
                &&& final(self).renter_log@ == old(self).renter_log@.push((renter, id))
                &&& final(self).events@ == old(self).events@.push(
                    RentalEvent::Started { rental_id: id, listing_id, renter, expires_at: expires },
                )
                &&& final(self).creator_balances@ == old(self).creator_balances@.insert(
                    k,
                    (get_or(old(self).creator_balances@, k, 0) + l.fee_per_period) as i128,
                )
                &&& t == Transfer {
                    token: l.token,
                    from: renter,
                    to: old(self).contract,
                    amount: l.fee_per_period,
                }
                &&& final(self).listings@ == old(self).listings@
                &&& final(self).listing_ctr == old(self).listing_ctr
                &&& final(self).creator_log@ == old(self).creator_log@
                &&& final(self).contract == old(self).contract
            },
    {
        let listing = match self.listings.get(listing_id as u128) {
            Some(l) => l,
            None => {
                return Err(RentalError::ListingNotFound);
            },
        };
        if !listing.active {
            return Err(RentalError::ListingNotFound);
        }
        let expires_at = now.saturating_add(listing.period_seconds);
        let rental_id = self.rental_ctr;
        self.rental_ctr = rental_id + 1;
        self.records.set(
            rental_id as u128,
            RentalRecord {
                rental_id,
                listing_id,
                renter,
                creator: listing.creator,
                fee_paid: listing.fee_per_period,
                start_time: now,
                expires_at,
            },
        );
        self.renter_log.push((renter, rental_id));
        let k = pair_key(listing.creator, listing.token);
        let current = match self.creator_balances.get(k) {
            Some(v) => v,
            None => 0,
        };
        self.creator_balances.set(k, current + listing.fee_per_period);
        self.events.push(RentalEvent::Started { rental_id, listing_id, renter, expires_at });
        let t = Transfer {
            token: listing.token,
            from: renter,
            to: self.contract,
            amount: listing.fee_per_period,
        };
        Ok((rental_id, t))
    }

    /// True if a rental of `listing_id` by `renter` is still running at `now`.
    pub open spec fn has_access_spec(&self, renter: u64, listing_id: u64, now: u64) -> bool {
        exists|i: int|
            0 <= i < ids_of(self.renter_log@, renter).len() && #[trigger] self.records@.contains_key(
                ids_of(self.renter_log@, renter)[i] as u128,
            ) && self.records@[ids_of(self.renter_log@, renter)[i] as u128].listing_id == listing_id
                && self.records@[ids_of(self.renter_log@, renter)[i] as u128].expires_at > now
    }

    /// Whether `renter` currently has access to `listing_id`.
    pub fn has_active_access(&self, now: u64, renter: u64, listing_id: u64) -> (r: bool)
        ensures
            r == self.has_access_spec(renter, listing_id, now),
    {
        let history = collect_ids(&self.renter_log, renter);
        let mut i: usize = 0;
        while i < history.len()
            invariant
                0 <= i <= history@.len(),
                history@ == ids_of(self.renter_log@, renter),
                forall|j: int|
                    0 <= j < i ==> !(#[trigger] self.records@.contains_key(history@[j] as u128)
                        && self.records@[history@[j] as u128].listing_id == listing_id
                        && self.records@[history@[j] as u128].expires_at > now),
            decreases history@.len() - i,
        {
            match self.records.get(history[i] as u128) {
                Some(record) => {
                    if record.listing_id == listing_id && record.expires_at > now {
                        return true;
                    }
                },
                None => {},
            }
            i = i + 1;
        }
        false
    }

    /// Stops a listing from accepting rentals. Creator only.
    pub fn deactivate_listing(&mut self, creator: u64, listing_id: u64) -> (r: Result<
        (),
        RentalError,
    >)
        ensures
            !old(self).listings@.contains_key(listing_id as u128) ==> r == Err::<(), RentalError>(
                RentalError::ListingNotFound,
            ),
            old(self).listings@.contains_key(listing_id as u128) && old(self).listings@[listing_id as u128].creator
                != creator ==> r == Err::<(), RentalError>(RentalError::Unauthorized),
            r is Err ==> *final(self) == *old(self),
            r is Ok <==> old(self).listings@.contains_key(listing_id as u128) && old(self).listings@[listing_id as u128].creator == creator,
            r is Ok ==> final(self).listings@ == old(self).listings@.insert(
                listing_id as u128,
                RentalListing { active: false, ..old(self).listings@[listing_id as u128] },
            ) && final(self).records@ == old(self).records@ && final(self).renter_log@ == old(self).renter_log@ && final(self).creator_log@ == old(self).creator_log@ && final(self).creator_balances@ == old(self).creator_balances@ && final(self).listing_ctr == old(self).listing_ctr && final(self).rental_ctr == old(self).rental_ctr && final(self).contract
                == old(self).contract && final(self).events@ == old(self).events@.push(
                RentalEvent::Deactivated { listing_id },
            ),
    {
        let listing = match self.listings.get(listing_id as u128) {
            Some(l) => l,
            None => {
                return Err(RentalError::ListingNotFound);
            },
        };
        if listing.creator != creator {
            return Err(RentalError::Unauthorized);
        }
        self.listings.set(listing_id as u128, RentalListing { active: false, ..listing });
        self.events.push(RentalEvent::Deactivated { listing_id });
        Ok(())
    }

    /// A listing by id.
    pub fn get_listing(&self, listing_id: u64) -> (r: Option<RentalListing>)
        ensures
            r == (if self.listings@.contains_key(listing_id as u128) {
                Some(self.listings@[listing_id as u128])
            } else {
                None::<RentalListing>
            }),
    {
        self.listings.get(listing_id as u128)
    }

    /// A rental by id.
    pub fn get_rental(&self, rental_id: u64) -> (r: Option<RentalRecord>)
        ensures
            r == (if self.records@.contains_key(rental_id as u128) {
                Some(self.records@[rental_id as u128])
            } else {
                None::<RentalRecord>
            }),
    {
        self.records.get(rental_id as u128)
    }

    /// The rental ids of `renter`, oldest first.
    pub fn get_renter_history(&self, renter: u64) -> (r: Vec<u64>)
        ensures
            r@ == ids_of(self.renter_log@, renter),
    {
        collect_ids(&self.renter_log, renter)
    }

    /// The listing ids of `creator`, oldest first.
    pub fn get_creator_listings(&self, creator: u64) -> (r: Vec<u64>)
        ensures
            r@ == ids_of(self.creator_log@, creator),
    {
        collect_ids(&self.creator_log, creator)
    }
}


/// Access is per listing: a renter has access to a listing at `now` exactly
/// when one of its own rentals is of that listing and still runs at `now`. A
/// running rental of any other listing grants nothing.
pub proof fn law_access_needs_a_running_rental_of_that_listing(r: Rentals, renter: u64, listing_id: u64, now: u64)
    ensures
        r.has_access_spec(renter, listing_id, now) <==> exists|id: u64|
            #![trigger r.records@[id as u128]]
            ids_of(r.renter_log@, renter).contains(id) && r.records@.contains_key(id as u128)
                && r.records@[id as u128].listing_id == listing_id && r.records@[id as u128].expires_at > now,
        (forall|id: u64| #![trigger r.records@[id as u128]]
            ids_of(r.renter_log@, renter).contains(id) && r.records@.contains_key(id as u128)
                ==> r.records@[id as u128].listing_id != listing_id) ==> !r.has_access_spec(renter, listing_id, now),
{
    let h = ids_of(r.renter_log@, renter);
    if r.has_access_spec(renter, listing_id, now) {
        let i = choose|i: int|
            0 <= i < h.len() && #[trigger] r.records@.contains_key(h[i] as u128) && r.records@[h[i] as u128].listing_id
                == listing_id && r.records@[h[i] as u128].expires_at > now;
        assert(h.contains(h[i]));
    }
    if exists|id: u64|
        #![trigger r.records@[id as u128]]
        h.contains(id) && r.records@.contains_key(id as u128) && r.records@[id as u128].listing_id == listing_id
            && r.records@[id as u128].expires_at > now {
        let id = choose|id: u64|
            #![trigger r.records@[id as u128]]
            h.contains(id) && r.records@.contains_key(id as u128) && r.records@[id as u128].listing_id == listing_id
                && r.records@[id as u128].expires_at > now;
        let i = choose|i: int| 0 <= i < h.len() && h[i] == id;
        assert(r.records@.contains_key(h[i] as u128));
    }
}

} // verus!
