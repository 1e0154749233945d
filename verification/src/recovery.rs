//! Social recovery of a creator account: the creator names weighted
//! guardians; a recovery request moves to a timelock once guardians holding
//! 66% of the active weight approve it, and can be executed when the
//! timelock has run out. Revoking a guardian takes effect after a day.
use vstd::prelude::*;
use crate::table::{Table, pair, pair_key, get_or};

verus! {

/// Share of the active guardian weight needed, in percent.
pub const APPROVAL_THRESHOLD: u32 = 66;

/// Delay between reaching the threshold and execution (7 days).
pub const TIMELOCK_DELAY: u64 = 604_800;

/// Delay before a guardian's revocation takes effect (1 day).
pub const GUARDIAN_REVOCATION_DELAY: u64 = 86_400;

/// Lifecycle of a recovery request.
#[derive(Clone, Copy, Debug, PartialEq, Eq, Structural)]
pub enum RecoveryStatus {
    Voting,
    Locked,
    Executed,
    Rejected,
}

/// Errors of the recovery protocol.
#[derive(Clone, Copy, Debug, PartialEq, Eq, Structural)]
pub enum RecoveryError {
    GuardianAlreadyExists,
    NoGuardians,
    RequestNotFound,
    NotVoting,
    NotActiveGuardian,
    AlreadyApproved,
    NotLocked,
    TimelockNotExpired,
}

/// A guardian of a creator; `revocation_time == 0` while not revoked.
#[derive(Clone, Copy, Debug, PartialEq, Eq)]
pub struct Guardian {
    pub address: u64,
    pub weight: u32,
    pub added_at: u64,
    pub revocation_time: u64,
}

/// A recovery request.
#[derive(Clone, Copy, Debug, PartialEq, Eq)]
pub struct RecoveryRequest {
    pub id: u64,
    pub creator: u64,
    pub new_owner: u64,
    pub status: RecoveryStatus,
    pub approval_count: u32,
    pub created_at: u64,
    pub executed_at: u64,
    pub timelock_end: u64,
}

/// One recovery attempt.
#[derive(Clone, Copy, Debug, PartialEq, Eq)]
pub struct RecoveryAttempt {
    pub request_id: u64,
    pub timestamp: u64,
}

/// Parameters of the protocol.
#[derive(Clone, Copy, Debug, PartialEq, Eq)]
pub struct RecoveryConfig {
    /// Share of the active guardian weight needed, in percent.
    pub approval_threshold: u32,
    pub timelock_delay: u64,
    pub guardian_revocation_delay: u64,
}

impl RecoveryConfig {
    /// The default parameters: 66%, 7 days, 1 day.
    pub fn default() -> (c: RecoveryConfig)
        ensures
            c == (RecoveryConfig {
                approval_threshold: APPROVAL_THRESHOLD,
                timelock_delay: TIMELOCK_DELAY,
                guardian_revocation_delay: GUARDIAN_REVOCATION_DELAY,
            }),
    {
        RecoveryConfig {
            approval_threshold: APPROVAL_THRESHOLD,
            timelock_delay: TIMELOCK_DELAY,
            guardian_revocation_delay: GUARDIAN_REVOCATION_DELAY,
        }
    }
}

/// State of the recovery protocol.
pub struct Recovery {
    /// `(creator, guardian)` in the order guardians were added.
    pub guardians: Vec<(u64, Guardian)>,
    /// `(creator, attempt)` in the order requests were made.
    pub attempts: Vec<(u64, RecoveryAttempt)>,
    /// The last request id.
    pub counter: u64,
    /// Requests by id.
    pub requests: Table<RecoveryRequest>,
    /// Approvals by `pair(request_id, guardian)`.
    pub approvals: Table<bool>,
    /// What the protocol published, oldest first.
    pub events: Vec<RecoveryEvent>,
}

/// What the recovery protocol publishes.
#[derive(Clone, Copy, Debug, PartialEq, Eq, Structural)]
pub enum RecoveryEvent {
    /// `request_created`: `creator` asked to move to `new_owner`.
    RequestCreated { creator: u64, request_id: u64, new_owner: u64 },
    /// `threshold_reached`: the request locked for its timelock.
    ThresholdReached { creator: u64, request_id: u64 },
    /// `approved`: `guardian` approved the request.
    Approved { request_id: u64, guardian: u64 },
    /// `executed`: the account of `creator` moved to `new_owner`.
    Executed { creator: u64, request_id: u64, new_owner: u64 },
}

/// The guardians of `creator` in `log`, in order.
pub open spec fn guardians_of(log: Seq<(u64, Guardian)>, creator: u64) -> Seq<Guardian>
    decreases log.len(),
{
    if log.len() == 0 {
        Seq::empty()
    } else {
        let rest = guardians_of(log.drop_last(), creator);
        if log.last().0 == creator { rest.push(log.last().1) } else { rest }
    }
}

/// True if guardian `g` counts at `now`: not revoked, or revoked later.
pub open spec fn counts_at(g: Guardian, now: u64) -> bool {
    g.revocation_time == 0 || g.revocation_time > now
}

/// The guardians of `gs` that count at `now`, in order.
pub open spec fn active_at(gs: Seq<Guardian>, now: u64) -> Seq<Guardian>
    decreases gs.len(),
{
    if gs.len() == 0 {
        Seq::empty()
    } else {
        let rest = active_at(gs.drop_last(), now);
        if counts_at(gs.last(), now) { rest.push(gs.last()) } else { rest }
    }
}

/// Sum of the weights of `gs`.
pub open spec fn weight_sum(gs: Seq<Guardian>) -> int
    decreases gs.len(),
{
    if gs.len() == 0 { 0 } else { weight_sum(gs.drop_last()) + gs.last().weight }
}

/// The index in `log` of the first entry of `creator` for `guardian` that
/// is not revoked, from `k` on.
pub open spec fn first_unrevoked(log: Seq<(u64, Guardian)>, creator: u64, guardian: u64, k: int) -> Option<int>
    decreases log.len() - k,
{
    if k < 0 || k >= log.len() {
        None
    } else if log[k].0 == creator && log[k].1.address == guardian && log[k].1.revocation_time == 0 {
        Some(k)
    } else {
        first_unrevoked(log, creator, guardian, k + 1)
    }
}

/// The request ids of the attempts of `creator` at or after `since`.
pub open spec fn attempts_since(log: Seq<(u64, RecoveryAttempt)>, creator: u64, since: u64) -> Seq<u64>
    decreases log.len(),
{
    if log.len() == 0 {
        Seq::empty()
    } else {
        let rest = attempts_since(log.drop_last(), creator, since);
        if log.last().0 == creator && log.last().1.timestamp >= since {
            rest.push(log.last().1.request_id)
        } else {
            rest
        }
    }
}

/// `log` without the entries of `creator`.
pub open spec fn drop_creator<T>(log: Seq<(u64, T)>, creator: u64) -> Seq<(u64, T)>
    decreases log.len(),
{
    if log.len() == 0 {
        log
    } else {
        let rest = drop_creator(log.drop_last(), creator);
        if log.last().0 != creator { rest.push(log.last()) } else { rest }
    }
}

/// `count` approvals reach the threshold share of `total` active weight.
pub open spec fn threshold_reached(count: int, total: int) -> bool {
    count * 100 >= total * APPROVAL_THRESHOLD
}

/// There is an unrevoked entry of `creator` for `guardian` in `log`
/// exactly when its guardians hold one.
proof fn lemma_unrevoked_in_guardians(log: Seq<(u64, Guardian)>, creator: u64, guardian: u64)
    ensures
        (exists|k: int|
            0 <= k < log.len() && log[k].0 == creator && #[trigger] log[k].1.address == guardian
                && log[k].1.revocation_time == 0) <==> (exists|i: int|
            0 <= i < guardians_of(log, creator).len() && #[trigger] guardians_of(log, creator)[i].address
                == guardian && guardians_of(log, creator)[i].revocation_time == 0),
    decreases log.len(),
{
    if log.len() > 0 {
        let init = log.drop_last();
        lemma_unrevoked_in_guardians(init, creator, guardian);
        let gs = guardians_of(log, creator);
        let gi = guardians_of(init, creator);
        if exists|k: int|
            0 <= k < log.len() && log[k].0 == creator && #[trigger] log[k].1.address == guardian
                && log[k].1.revocation_time == 0 {
            let k = choose|k: int|
                0 <= k < log.len() && log[k].0 == creator && #[trigger] log[k].1.address == guardian
                    && log[k].1.revocation_time == 0;
            if k < init.len() {
                assert(init[k] == log[k]);
                let i = choose|i: int|
                    0 <= i < gi.len() && #[trigger] gi[i].address == guardian && gi[i].revocation_time == 0;
                assert(gs[i] == gi[i]);
            } else {
                assert(gs[gs.len() - 1] == log.last().1);
            }
        }
        if exists|i: int|
            0 <= i < gs.len() && #[trigger] gs[i].address == guardian && gs[i].revocation_time == 0 {
            let i = choose|i: int| 0 <= i < gs.len() && #[trigger] gs[i].address == guardian && gs[i].revocation_time == 0;
            if i < gi.len() {
                assert(gs[i] == gi[i]);
                let k = choose|k: int|
                    0 <= k < init.len() && init[k].0 == creator && #[trigger] init[k].1.address == guardian
                        && init[k].1.revocation_time == 0;
                assert(log[k] == init[k]);
            } else {
                assert(log[log.len() - 1].1.address == guardian);
            }
        }
    }
}


/// True if `creator` has a guardian `guardian` that was not revoked.
pub open spec fn has_unrevoked(log: Seq<(u64, Guardian)>, creator: u64, guardian: u64) -> bool {
    exists|i: int|
        0 <= i < guardians_of(log, creator).len() && #[trigger] guardians_of(log, creator)[i].address == guardian
            && guardians_of(log, creator)[i].revocation_time == 0
}

/// True if `guardian` is among the guardians of `creator` that count at
/// `now`.
pub open spec fn is_active_guardian(log: Seq<(u64, Guardian)>, creator: u64, guardian: u64, now: u64) -> bool {
    exists|i: int|
        0 <= i < active_at(guardians_of(log, creator), now).len() && #[trigger] active_at(
            guardians_of(log, creator),
            now,
        )[i].address == guardian
}

impl Recovery {
    /// No guardians, attempts or requests.
    pub fn new() -> (r: Recovery)
        ensures
            r.guardians@.len() == 0,
            r.attempts@.len() == 0,
            r.counter == 0,
            r.requests@ == Map::<u128, RecoveryRequest>::empty(),
            r.approvals@ == Map::<u128, bool>::empty(),
            r.events@.len() == 0,
    {
        Recovery {
            guardians: Vec::new(),
            attempts: Vec::new(),
            counter: 0,
            requests: Table::new(),
            approvals: Table::new(),
            events: Vec::new(),
        }
    }

    /// Starts the recovery setup of `creator`: its guardians and attempts
    /// are cleared and the request counter is reset.
    pub fn init_recovery(&mut self, creator: u64)
        ensures
            final(self).guardians@ == drop_creator(old(self).guardians@, creator),
            final(self).attempts@ == drop_creator(old(self).attempts@, creator),
            final(self).counter == 0,
            final(self).requests@ == old(self).requests@,
            final(self).approvals@ == old(self).approvals@,
            final(self).events@ == old(self).events@,
    {
        let ghost g0 = self.guardians@;
        let mut gs: Vec<(u64, Guardian)> = Vec::new();
        let mut i: usize = 0;
        while i < self.guardians.len()
            invariant
                i <= g0.len(),
                self.guardians@ == g0,
                gs@ == drop_creator(g0.take(i as int), creator),
            decreases g0.len() - i,
        {
            proof {
                assert(g0.take(i + 1).drop_last() == g0.take(i as int));
            }
            let e = self.guardians[i];
            if e.0 != creator {
                gs.push(e);
            }
            i = i + 1;
        }
        proof {
            assert(g0.take(g0.len() as int) == g0);
        }
        self.guardians = gs;
        let ghost a0 = self.attempts@;
        let mut at: Vec<(u64, RecoveryAttempt)> = Vec::new();
        let mut i: usize = 0;
        while i < self.attempts.len()
            invariant
                i <= a0.len(),
                self.attempts@ == a0,
                at@ == drop_creator(a0.take(i as int), creator),
            decreases a0.len() - i,
        {
            proof {
                assert(a0.take(i + 1).drop_last() == a0.take(i as int));
            }
            let e = self.attempts[i];
            if e.0 != creator {
                at.push(e);
            }
            i = i + 1;
        }
        proof {
            assert(a0.take(a0.len() as int) == a0);
        }
        self.attempts = at;
        self.counter = 0;
    }

    /// Adds `guardian` with `weight` for `creator` at `now`, unless the
    /// creator already has it as a guardian that was not revoked.
    pub fn add_guardian(&mut self, now: u64, creator: u64, guardian: u64, weight: u32) -> (r: Result<
        (),
        RecoveryError,
    >)
        ensures
            r is Err <==> has_unrevoked(old(self).guardians@, creator, guardian),
            r matches Err(e) ==> e == RecoveryError::GuardianAlreadyExists && final(self).guardians@
                == old(self).guardians@,
            r is Ok ==> final(self).guardians@ == old(self).guardians@.push(
                (creator, Guardian { address: guardian, weight, added_at: now, revocation_time: 0 }),
            ),
            final(self).attempts@ == old(self).attempts@,
            final(self).counter == old(self).counter,
            final(self).requests@ == old(self).requests@,
            final(self).approvals@ == old(self).approvals@,
            final(self).events@ == old(self).events@,
    {
        let mut i: usize = 0;
        while i < self.guardians.len()
            invariant
                i <= self.guardians@.len(),
                self.guardians@ == old(self).guardians@,
                forall|k: int|
                    0 <= k < i ==> !(self.guardians@[k].0 == creator && #[trigger] self.guardians@[k].1.address
                        == guardian && self.guardians@[k].1.revocation_time == 0),
            decreases self.guardians@.len() - i,
        {
            let (c, g) = self.guardians[i];
            if c == creator && g.address == guardian && g.revocation_time == 0 {
                assert(self.guardians@[i as int].1.address == guardian);
                proof {
                    lemma_unrevoked_in_guardians(self.guardians@, creator, guardian);
                }
                return Err(RecoveryError::GuardianAlreadyExists);
            }
            i = i + 1;
        }
        proof {
            lemma_unrevoked_in_guardians(self.guardians@, creator, guardian);
        }
        self.guardians.push((creator, Guardian { address: guardian, weight, added_at: now, revocation_time: 0 }));
        Ok(())
    }

    /// Starts the revocation of `guardian` of `creator` at `now`: its first
    /// entry that was not revoked stops counting a day later.
    pub fn revoke_guardian(&mut self, now: u64, creator: u64, guardian: u64)
        requires
            now + GUARDIAN_REVOCATION_DELAY <= u64::MAX,
        ensures
            final(self).guardians@ == match first_unrevoked(old(self).guardians@, creator, guardian, 0) {
                Some(k) => old(self).guardians@.update(
                    k,
                    (creator, Guardian { revocation_time: (now + GUARDIAN_REVOCATION_DELAY) as u64, ..old(self).guardians@[k].1 }),
                ),
                None => old(self).guardians@,
            },
            final(self).attempts@ == old(self).attempts@,
            final(self).counter == old(self).counter,
            final(self).requests@ == old(self).requests@,
            final(self).approvals@ == old(self).approvals@,
            final(self).events@ == old(self).events@,
    {
        let config = RecoveryConfig::default();
        let revocation_time = now + config.guardian_revocation_delay;
        let mut i: usize = 0;
        while i < self.guardians.len()
            invariant
                i <= self.guardians@.len(),
                self.guardians@ == old(self).guardians@,
                revocation_time == now + GUARDIAN_REVOCATION_DELAY,
                first_unrevoked(old(self).guardians@, creator, guardian, 0) == first_unrevoked(
                    old(self).guardians@,
                    creator,
                    guardian,
                    i as int,
                ),
                self.attempts@ == old(self).attempts@,
                self.counter == old(self).counter,
                self.requests@ == old(self).requests@,
                self.approvals@ == old(self).approvals@,
                self.events@ == old(self).events@,
            decreases self.guardians@.len() - i,
        {
            let (c, g) = self.guardians[i];
            if c == creator && g.address == guardian && g.revocation_time == 0 {
                self.guardians.set(i, (c, Guardian { revocation_time, ..g }));
                return;
            }
            i = i + 1;
        }
    }

    /// The guardians of `creator` that count at `now`, in order.
    pub fn get_active_guardians(&self, now: u64, creator: u64) -> (r: Vec<Guardian>)
        ensures
            r@ == active_at(guardians_of(self.guardians@, creator), now),
    {
        let ghost log = self.guardians@;
        let mut r: Vec<Guardian> = Vec::new();
        let mut i: usize = 0;
        while i < self.guardians.len()
            invariant
                i <= log.len(),
                self.guardians@ == log,
                r@ == active_at(guardians_of(log.take(i as int), creator), now),
            decreases log.len() - i,
        {
            proof {
                assert(log.take(i + 1).drop_last() == log.take(i as int));
            }
            let (c, g) = self.guardians[i];
            proof {
                if c == creator {
                    assert(guardians_of(log.take(i + 1), creator).drop_last() == guardians_of(log.take(i as int), creator));
                }
            }
            if c == creator && (g.revocation_time == 0 || g.revocation_time > now) {
                r.push(g);
            }
            i = i + 1;
        }
        proof {
            assert(log.take(log.len() as int) == log);
        }
        r
    }

    /// The total weight of the guardians of `creator` that count at `now`.
    pub fn get_total_guardian_weight(&self, now: u64, creator: u64) -> (r: u32)
        requires
            weight_sum(active_at(guardians_of(self.guardians@, creator), now)) <= u32::MAX,
        ensures
            r == weight_sum(active_at(guardians_of(self.guardians@, creator), now)),
    {
        let active = self.get_active_guardians(now, creator);
        let ghost gs = active@;
        proof {
            lemma_weight_prefix(gs);
        }
        let mut total: u32 = 0;
        let mut i: usize = 0;
        while i < active.len()
            invariant
                i <= gs.len(),
                active@ == gs,
                total == weight_sum(gs.take(i as int)),
                weight_sum(gs) <= u32::MAX,
                forall|m: int| 0 <= m <= gs.len() ==> #[trigger] weight_sum(gs.take(m)) <= weight_sum(gs),
            decreases gs.len() - i,
        {
            proof {
                assert(gs.take(i + 1).drop_last() == gs.take(i as int));
                assert(weight_sum(gs.take(i + 1)) <= weight_sum(gs));
            }
            total = total + active[i].weight;
            i = i + 1;
        }
        proof {
            assert(gs.take(gs.len() as int) == gs);
        }
        total
    }

    /// `creator` asks at `now` to move its account to `new_owner`; it needs
    /// a guardian that counts. The request starts voting and the attempt is
    /// recorded.
    pub fn create_recovery_request(&mut self, now: u64, creator: u64, new_owner: u64) -> (r: Result<
        (),
        RecoveryError,
    >)
        requires
            old(self).counter < u64::MAX,
        ensures
            r is Err <==> active_at(guardians_of(old(self).guardians@, creator), now).len() == 0,
            r matches Err(e) ==> e == RecoveryError::NoGuardians && final(self).counter == old(self).counter
                && final(self).requests@ == old(self).requests@ && final(self).attempts@ == old(self).attempts@
                && final(self).events@ == old(self).events@,
            r is Ok ==> {
                let id = (old(self).counter + 1) as u64;
                &&& final(self).counter == id
                &&& final(self).requests@ == old(self).requests@.insert(
                    id as u128,
                    RecoveryRequest {
                        id,
                        creator,
                        new_owner,
                        status: RecoveryStatus::Voting,
                        approval_count: 0,
                        created_at: now,
                        executed_at: 0,
                        timelock_end: 0,
                    },
                )
                &&& final(self).attempts@ == old(self).attempts@.push(
                    (creator, RecoveryAttempt { request_id: id, timestamp: now }),
                )
                &&& final(self).events@ == old(self).events@.push(
                    RecoveryEvent::RequestCreated { creator, request_id: id, new_owner },
                )
            },
            final(self).guardians@ == old(self).guardians@,
            final(self).approvals@ == old(self).approvals@,
    {
        let guardians = self.get_active_guardians(now, creator);
        if guardians.len() == 0 {
            return Err(RecoveryError::NoGuardians);
        }
        let counter = self.counter + 1;
        self.counter = counter;
        self.requests.set(
            counter as u128,
            RecoveryRequest {
                id: counter,
                creator,
                new_owner,
                status: RecoveryStatus::Voting,
                approval_count: 0,
                created_at: now,
                executed_at: 0,
                timelock_end: 0,
            },
        );
        self.attempts.push((creator, RecoveryAttempt { request_id: counter, timestamp: now }));
        self.events.push(RecoveryEvent::RequestCreated { creator, request_id: counter, new_owner });
        Ok(())
    }

    /// The error `approve_recovery` answers at `now`, if any.
    pub open spec fn approve_error(&self, now: u64, request_id: u64, guardian: u64) -> Option<RecoveryError> {
        let req = self.requests@[request_id as u128];
        if !self.requests@.contains_key(request_id as u128) {
            Some(RecoveryError::RequestNotFound)
        } else if req.status != RecoveryStatus::Voting {
            Some(RecoveryError::NotVoting)
        } else if !is_active_guardian(self.guardians@, req.creator, guardian, now) {
            Some(RecoveryError::NotActiveGuardian)
        } else if self.approvals@.contains_key(pair(request_id, guardian)) {
            Some(RecoveryError::AlreadyApproved)
        } else {
            None
        }
    }

    /// An active guardian of the request's creator approves request
    /// `request_id` at `now`, once. When the approvals reach 66% of the
    /// active guardian weight, the request locks for the timelock.
    pub fn approve_recovery(&mut self, now: u64, request_id: u64, guardian: u64) -> (r: Result<
        (),
        RecoveryError,
    >)
        requires
            old(self).requests@.contains_key(request_id as u128) ==> {
                let req = old(self).requests@[request_id as u128];
                let total = weight_sum(active_at(guardians_of(old(self).guardians@, req.creator), now));
                &&& req.approval_count < u32::MAX
                &&& total <= u32::MAX
                &&& now + TIMELOCK_DELAY <= u64::MAX
            },
        ensures
            r is Err <==> old(self).approve_error(now, request_id, guardian) is Some,
            r matches Err(e) ==> Some(e) == old(self).approve_error(now, request_id, guardian) && final(self).requests@
                == old(self).requests@ && final(self).approvals@ == old(self).approvals@ && final(self).events@
                == old(self).events@,
            r is Ok ==> {
                let req = old(self).requests@[request_id as u128];
                let total = weight_sum(active_at(guardians_of(old(self).guardians@, req.creator), now));
                let count = (req.approval_count + 1) as u32;
                &&& final(self).approvals@ == old(self).approvals@.insert(pair(request_id, guardian), true)
                &&& final(self).requests@ == old(self).requests@.insert(
                    request_id as u128,
                    if threshold_reached(count as int, total) {
                        RecoveryRequest {
                            approval_count: count,
                            status: RecoveryStatus::Locked,
                            timelock_end: (now + TIMELOCK_DELAY) as u64,
                            ..req
                        }
                    } else {
                        RecoveryRequest { approval_count: count, ..req }
                    },
                )
                &&& final(self).events@ == if threshold_reached(count as int, total) {
                    old(self).events@.push(RecoveryEvent::ThresholdReached { creator: req.creator, request_id }).push(
                        RecoveryEvent::Approved { request_id, guardian },
                    )
                } else {
                    old(self).events@.push(RecoveryEvent::Approved { request_id, guardian })
                }
            },
            final(self).guardians@ == old(self).guardians@,
            final(self).attempts@ == old(self).attempts@,
            final(self).counter == old(self).counter,
    {
        let req = match self.requests.get(request_id as u128) {
            Some(q) => q,
            None => {
                return Err(RecoveryError::RequestNotFound);
            },
        };
        if req.status != RecoveryStatus::Voting {
            return Err(RecoveryError::NotVoting);
        }
        let guardians = self.get_active_guardians(now, req.creator);
        let mut is_guardian = false;
        let mut i: usize = 0;
        while i < guardians.len()
            invariant
                i <= guardians@.len(),
                is_guardian == exists|k: int| 0 <= k < i && #[trigger] guardians@[k].address == guardian,
            decreases guardians@.len() - i,
        {
            if guardians[i].address == guardian {
                assert(guardians@[i as int].address == guardian);
                is_guardian = true;
            }
            i = i + 1;
        }
        if !is_guardian {
            return Err(RecoveryError::NotActiveGuardian);
        }
        let k = pair_key(request_id, guardian);
        if self.approvals.has(k) {
            return Err(RecoveryError::AlreadyApproved);
        }
        self.approvals.set(k, true);
        let count = req.approval_count + 1;
        let total_weight = self.get_total_guardian_weight(now, req.creator);
        let config = RecoveryConfig::default();
        if (count as u64) * 100 >= (total_weight as u64) * (APPROVAL_THRESHOLD as u64) {
            self.requests.set(
                request_id as u128,
                RecoveryRequest {
                    approval_count: count,
                    status: RecoveryStatus::Locked,
                    timelock_end: now + config.timelock_delay,
                    ..req
                },
            );
            self.events.push(RecoveryEvent::ThresholdReached { creator: req.creator, request_id });
        } else {
            self.requests.set(request_id as u128, RecoveryRequest { approval_count: count, ..req });
        }
        self.events.push(RecoveryEvent::Approved { request_id, guardian });
        Ok(())
    }

    /// The error `execute_recovery` answers at `now`, if any.
    pub open spec fn execute_error(&self, now: u64, request_id: u64) -> Option<RecoveryError> {
        let req = self.requests@[request_id as u128];
        if !self.requests@.contains_key(request_id as u128) {
            Some(RecoveryError::RequestNotFound)
        } else if req.status != RecoveryStatus::Locked {
            Some(RecoveryError::NotLocked)
        } else if now < req.timelock_end {
            Some(RecoveryError::TimelockNotExpired)
        } else {
            None
        }
    }

    /// Executes locked request `request_id` at `now`, once its timelock has
    /// run out; returns the new owner.
    pub fn execute_recovery(&mut self, now: u64, request_id: u64) -> (r: Result<u64, RecoveryError>)
        ensures
            ({
                let req = old(self).requests@[request_id as u128];
                let e = old(self).execute_error(now, request_id);
                &&& r is Err <==> e is Some
                &&& r matches Err(x) ==> Some(x) == e && final(self).requests@ == old(self).requests@
                    && final(self).events@ == old(self).events@
                &&& r matches Ok(owner) ==> owner == req.new_owner && final(self).requests@
                    == old(self).requests@.insert(
                    request_id as u128,
                    RecoveryRequest { status: RecoveryStatus::Executed, executed_at: now, ..req },
                ) && final(self).events@ == old(self).events@.push(
                    RecoveryEvent::Executed { creator: req.creator, request_id, new_owner: req.new_owner },
                )
            }),
            final(self).guardians@ == old(self).guardians@,
            final(self).attempts@ == old(self).attempts@,
            final(self).counter == old(self).counter,
            final(self).approvals@ == old(self).approvals@,
    {
        let req = match self.requests.get(request_id as u128) {
            Some(q) => q,
            None => {
                return Err(RecoveryError::RequestNotFound);
            },
        };
        if req.status != RecoveryStatus::Locked {
            return Err(RecoveryError::NotLocked);
        }
        if now < req.timelock_end {
            return Err(RecoveryError::TimelockNotExpired);
        }
        self.requests.set(
            request_id as u128,
            RecoveryRequest { status: RecoveryStatus::Executed, executed_at: now, ..req },
        );
        self.events.push(RecoveryEvent::Executed { creator: req.creator, request_id, new_owner: req.new_owner });
        Ok(req.new_owner)
    }

    /// The request with `request_id`.
    pub fn get_recovery_request(&self, request_id: u64) -> (r: Result<RecoveryRequest, RecoveryError>)
        ensures
            r == (if self.requests@.contains_key(request_id as u128) {
                Ok::<RecoveryRequest, RecoveryError>(self.requests@[request_id as u128])
            } else {
                Err::<RecoveryRequest, RecoveryError>(RecoveryError::RequestNotFound)
            }),
    {
        match self.requests.get(request_id as u128) {
            Some(q) => Ok(q),
            None => Err(RecoveryError::RequestNotFound),
        }
    }

    /// The request ids of the attempts of `creator` at or after
    /// `since_timestamp`, in order.
    pub fn get_recent_attempts(&self, creator: u64, since_timestamp: u64) -> (r: Vec<u64>)
        ensures
            r@ == attempts_since(self.attempts@, creator, since_timestamp),
    {
        let ghost log = self.attempts@;
        let mut r: Vec<u64> = Vec::new();
        let mut i: usize = 0;
        while i < self.attempts.len()
            invariant
                i <= log.len(),
                self.attempts@ == log,
                r@ == attempts_since(log.take(i as int), creator, since_timestamp),
            decreases log.len() - i,
        {
            proof {
                assert(log.take(i + 1).drop_last() == log.take(i as int));
            }
            let (c, a) = self.attempts[i];
            if c == creator && a.timestamp >= since_timestamp {
                r.push(a.request_id);
            }
            i = i + 1;
        }
        proof {
            assert(log.take(log.len() as int) == log);
        }
        r
    }
}

/// The weight of a prefix is at most the weight of the whole.
proof fn lemma_weight_prefix(gs: Seq<Guardian>)
    ensures
        forall|m: int| 0 <= m <= gs.len() ==> #[trigger] weight_sum(gs.take(m)) <= weight_sum(gs),
    decreases gs.len(),
{
    if gs.len() > 0 {
        lemma_weight_prefix(gs.drop_last());
        assert forall|m: int| 0 <= m <= gs.len() implies #[trigger] weight_sum(gs.take(m)) <= weight_sum(gs) by {
            if m < gs.len() {
                assert(gs.take(m) == gs.drop_last().take(m));
            } else {
                assert(gs.take(m) == gs);
            }
        }
    }
}


/// A guardian approves a request at most once: once its approval is
/// recorded, another approval by it is refused.
pub proof fn law_approve_once(r: Recovery, now: u64, request_id: u64, guardian: u64)
    requires
        r.approvals@.contains_key(pair(request_id, guardian)),
    ensures
        r.approve_error(now, request_id, guardian) is Some,
{
}

/// An executed request cannot be executed again, at any time.
pub proof fn law_execute_once(r: Recovery, now: u64, request_id: u64)
    requires
        r.requests@.contains_key(request_id as u128),
        r.requests@[request_id as u128].status == RecoveryStatus::Executed,
    ensures
        r.execute_error(now, request_id) == Some(RecoveryError::NotLocked),
{
}

/// A locked request cannot be executed before its timelock ends.
pub proof fn law_timelock_holds(r: Recovery, now: u64, request_id: u64)
    requires
        r.requests@.contains_key(request_id as u128),
        r.requests@[request_id as u128].status == RecoveryStatus::Locked,
        now < r.requests@[request_id as u128].timelock_end,
    ensures
        r.execute_error(now, request_id) == Some(RecoveryError::TimelockNotExpired),
{
}

} // verus!
