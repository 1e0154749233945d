//! Risk management: each participant has an exposure and an alert
//! threshold; the risk score is the exposure as a percentage of the
//! threshold, capped to `0..=100`; the global metrics track the total
//! exposure.
use vstd::prelude::*;
use crate::num::{tdiv, div_i128};
use crate::table::{Table, get_or};

verus! {

/// Errors of the risk-management contract.
#[derive(Clone, Copy, Debug, PartialEq, Eq, Structural)]
pub enum RiskError {
    Unauthorized,
    NotRegistered,
    ExposureLimitExceeded,
    AlreadyRegistered,
    InvalidThreshold,
}

impl RiskError {
    /// The contract error code.
    pub fn code(&self) -> (c: u32)
        ensures
            c == match *self {
                RiskError::Unauthorized => 1u32,
                RiskError::NotRegistered => 2,
                RiskError::ExposureLimitExceeded => 3,
                RiskError::AlreadyRegistered => 4,
                RiskError::InvalidThreshold => 5,
            },
    {
        match self {
            RiskError::Unauthorized => 1,
            RiskError::NotRegistered => 2,
            RiskError::ExposureLimitExceeded => 3,
            RiskError::AlreadyRegistered => 4,
            RiskError::InvalidThreshold => 5,
        }
    }
}

/// A participant's risk profile.
#[derive(Clone, Copy, Debug, PartialEq, Eq)]
pub struct RiskProfile {
    pub owner: u64,
    pub exposure: i128,
    /// The exposure in percent of the threshold, within `0..=100`.
    pub risk_score: u32,
    pub alert_threshold: i128,
}

/// The global metrics.
#[derive(Clone, Copy, Debug, PartialEq, Eq)]
pub struct RiskMetrics {
    pub total_exposure: i128,
    pub high_risk_count: u32,
    pub last_updated: u64,
}

/// State of the risk-management contract.
pub struct RiskManagementContract {
    pub admin: Option<u64>,
    /// The metrics, once written.
    pub metrics: Option<RiskMetrics>,
    /// Profiles by owner.
    pub profiles: Table<RiskProfile>,
    /// What the contract published, oldest first.
    pub events: Vec<RiskEvent>,
}

/// What the risk-management contract publishes.
#[derive(Clone, Copy, Debug, PartialEq, Eq, Structural)]
pub enum RiskEvent {
    /// `risk exp_upd`: the exposure of `owner` changed.
    ExposureUpdated { owner: u64, exposure: i128, risk_score: u32 },
    /// `risk alert`: the exposure of `owner` passed its threshold.
    Alert { owner: u64, exposure: i128, alert_threshold: i128 },
}

/// The score of `exposure` against `threshold`: the percentage, capped to
/// `0..=100`; 100 for a threshold that is not positive.
pub open spec fn risk_score(exposure: int, threshold: int) -> int {
    let raw = if threshold > 0 { tdiv(exposure * 100, threshold) } else { 100 };
    if raw > 100 { 100 } else if raw < 0 { 0 } else { raw }
}

/// The metrics as stored, or zero.
pub open spec fn metrics_or_zero(m: Option<RiskMetrics>) -> RiskMetrics {
    match m {
        Some(x) => x,
        None => RiskMetrics { total_exposure: 0, high_risk_count: 0, last_updated: 0 },
    }
}

impl RiskManagementContract {
    /// Nothing set up.
    pub fn new() -> (r: RiskManagementContract)
        ensures
            r.admin is None,
            r.metrics is None,
            r.profiles@ == Map::<u128, RiskProfile>::empty(),
            r.events@.len() == 0,
    {
        RiskManagementContract { admin: None, metrics: None, profiles: Table::new(), events: Vec::new() }
    }

    /// Sets `admin` and zeroes the metrics at `now`.
    pub fn init(&mut self, now: u64, admin: u64)
        ensures
            final(self).admin == Some(admin),
            final(self).metrics == Some(RiskMetrics { total_exposure: 0, high_risk_count: 0, last_updated: now }),
            final(self).profiles@ == old(self).profiles@,
            final(self).events@ == old(self).events@,
    {
        self.admin = Some(admin);
        self.metrics = Some(RiskMetrics { total_exposure: 0, high_risk_count: 0, last_updated: now });
    }

    /// Registers `caller` with a positive alert threshold and no exposure.
    pub fn register_participant(&mut self, caller: u64, alert_threshold: i128) -> (r: Result<(), RiskError>)
        ensures
            alert_threshold <= 0 ==> r == Err::<(), RiskError>(RiskError::InvalidThreshold),
            alert_threshold > 0 && old(self).profiles@.contains_key(caller as u128) ==> r == Err::<(), RiskError>(
                RiskError::AlreadyRegistered,
            ),
            r is Err ==> final(self).profiles@ == old(self).profiles@,
            r is Ok ==> alert_threshold > 0 && !old(self).profiles@.contains_key(caller as u128)
                && final(self).profiles@ == old(self).profiles@.insert(
                caller as u128,
                RiskProfile { owner: caller, exposure: 0, risk_score: 0, alert_threshold },
            ),
            final(self).admin == old(self).admin,
            final(self).metrics == old(self).metrics,
            final(self).events@ == old(self).events@,
    {
        if alert_threshold <= 0 {
            return Err(RiskError::InvalidThreshold);
        }
        if self.profiles.has(caller as u128) {
            return Err(RiskError::AlreadyRegistered);
        }
        self.profiles.set(
            caller as u128,
            RiskProfile { owner: caller, exposure: 0, risk_score: 0, alert_threshold },
        );
        Ok(())
    }

    /// Adds `delta` to the exposure of `caller` at `now` and recomputes its
    /// score; the total exposure follows. Returns whether the new exposure
    /// exceeds the alert threshold, in which case an alert is raised.
    pub fn update_exposure(&mut self, now: u64, caller: u64, delta: i128) -> (r: Result<bool, RiskError>)
        requires
            old(self).profiles@.contains_key(caller as u128) ==> {
                let p = old(self).profiles@[caller as u128];
                let m = metrics_or_zero(old(self).metrics);
                &&& i128::MIN <= p.exposure + delta <= i128::MAX
                &&& i128::MIN <= (p.exposure + delta) * 100 <= i128::MAX
                &&& p.alert_threshold > 0 ==> i128::MIN <= tdiv((p.exposure + delta) * 100, p.alert_threshold as int) <= i128::MAX
                &&& i128::MIN <= m.total_exposure - p.exposure <= i128::MAX
                &&& i128::MIN <= m.total_exposure - p.exposure + (p.exposure + delta) <= i128::MAX
            },
        ensures
            r is Err <==> !old(self).profiles@.contains_key(caller as u128),
            r matches Err(e) ==> e == RiskError::NotRegistered && final(self).profiles@ == old(self).profiles@
                && final(self).metrics == old(self).metrics && final(self).events@ == old(self).events@,
            r matches Ok(alert) ==> {
                let p = old(self).profiles@[caller as u128];
                let m = metrics_or_zero(old(self).metrics);
                let e = p.exposure + delta;
                &&& final(self).profiles@ == old(self).profiles@.insert(
                    caller as u128,
                    RiskProfile {
                        exposure: e as i128,
                        risk_score: risk_score(e, p.alert_threshold as int) as u32,
                        ..p
                    },
                )
                &&& final(self).metrics == Some(
                    RiskMetrics { total_exposure: (m.total_exposure - p.exposure + e) as i128, last_updated: now, ..m },
                )
                &&& alert == (e > p.alert_threshold)
                &&& 0 <= risk_score(e, p.alert_threshold as int) <= 100
                &&& {
                    let updated = old(self).events@.push(
                        RiskEvent::ExposureUpdated {
                            owner: caller,
                            exposure: e as i128,
                            risk_score: risk_score(e, p.alert_threshold as int) as u32,
                        },
                    );
                    final(self).events@ == if alert {
                        updated.push(
                            RiskEvent::Alert { owner: caller, exposure: e as i128, alert_threshold: p.alert_threshold },
                        )
                    } else {
                        updated
                    }
                }
            },
            final(self).admin == old(self).admin,
    {
        let profile = match self.profiles.get(caller as u128) {
            Some(p) => p,
            None => {
                return Err(RiskError::NotRegistered);
            },
        };
        let old_exposure = profile.exposure;
        let exposure = profile.exposure + delta;
        let raw_score = if profile.alert_threshold > 0 {
            div_i128(exposure * 100, profile.alert_threshold)
        } else {
            100
        };
        let risk_score: u32 = if raw_score > 100 {
            100
        } else if raw_score < 0 {
            0
        } else {
            raw_score as u32
        };
        self.profiles.set(caller as u128, RiskProfile { exposure, risk_score, ..profile });
        let metrics = match self.metrics {
            Some(m) => m,
            None => RiskMetrics { total_exposure: 0, high_risk_count: 0, last_updated: 0 },
        };
        self.metrics = Some(
            RiskMetrics {
                total_exposure: metrics.total_exposure - old_exposure + exposure,
                last_updated: now,
                ..metrics
            },
        );
        self.events.push(RiskEvent::ExposureUpdated { owner: caller, exposure, risk_score });
        let alert = exposure > profile.alert_threshold;
        if alert {
            self.events.push(
                RiskEvent::Alert { owner: caller, exposure, alert_threshold: profile.alert_threshold },
            );
        }
        Ok(alert)
    }

    /// The profile of `owner`.
    pub fn check_exposure(&self, owner: u64) -> (r: Result<RiskProfile, RiskError>)
        ensures
            r == (if self.profiles@.contains_key(owner as u128) {
                Ok::<RiskProfile, RiskError>(self.profiles@[owner as u128])
            } else {
                Err::<RiskProfile, RiskError>(RiskError::NotRegistered)
            }),
    {
        match self.profiles.get(owner as u128) {
            Some(p) => Ok(p),
            None => Err(RiskError::NotRegistered),
        }
    }

    /// Fails when the exposure of `caller` exceeds its alert threshold.
    pub fn enforce_limit(&self, caller: u64) -> (r: Result<(), RiskError>)
        ensures
            !self.profiles@.contains_key(caller as u128) ==> r == Err::<(), RiskError>(RiskError::NotRegistered),
            self.profiles@.contains_key(caller as u128) ==> (r is Err <==> self.profiles@[caller as u128].exposure
                > self.profiles@[caller as u128].alert_threshold),
            self.profiles@.contains_key(caller as u128) ==> (r matches Err(e) ==> e
                == RiskError::ExposureLimitExceeded),
    {
        let profile = match self.profiles.get(caller as u128) {
            Some(p) => p,
            None => {
                return Err(RiskError::NotRegistered);
            },
        };
        if profile.exposure > profile.alert_threshold {
            return Err(RiskError::ExposureLimitExceeded);
        }
        Ok(())
    }

    /// The global metrics, or zero when never written.
    pub fn get_risk_metrics(&self) -> (r: RiskMetrics)
        ensures
            r == metrics_or_zero(self.metrics),
    {
        match self.metrics {
            Some(m) => m,
            None => RiskMetrics { total_exposure: 0, high_risk_count: 0, last_updated: 0 },
        }
    }

    /// The admin resets the exposure and score of `owner` at `now`; the
    /// total exposure drops by the old exposure.
    pub fn reset_exposure(&mut self, now: u64, admin: u64, owner: u64) -> (r: Result<(), RiskError>)
        requires
            old(self).profiles@.contains_key(owner as u128) ==> i128::MIN <= metrics_or_zero(old(self).metrics).total_exposure
                - old(self).profiles@[owner as u128].exposure <= i128::MAX,
        ensures
            ({
                let e = if old(self).admin != Some(admin) {
                    Some(RiskError::Unauthorized)
                } else if !old(self).profiles@.contains_key(owner as u128) {
                    Some(RiskError::NotRegistered)
                } else {
                    None
                };
                &&& r is Err <==> e is Some
                &&& r matches Err(x) ==> Some(x) == e && final(self).profiles@ == old(self).profiles@
                    && final(self).metrics == old(self).metrics
                &&& r is Ok ==> {
                    let p = old(self).profiles@[owner as u128];
                    let m = metrics_or_zero(old(self).metrics);
                    &&& final(self).profiles@ == old(self).profiles@.insert(
                        owner as u128,
                        RiskProfile { exposure: 0, risk_score: 0, ..p },
                    )
                    &&& final(self).metrics == Some(
                        RiskMetrics { total_exposure: (m.total_exposure - p.exposure) as i128, last_updated: now, ..m },
                    )
                }
            }),
            final(self).admin == old(self).admin,
            final(self).events@ == old(self).events@,
    {
        match self.admin {
            Some(a) => {
                if a != admin {
                    return Err(RiskError::Unauthorized);
                }
            },
            None => {
                return Err(RiskError::Unauthorized);
            },
        }
        let profile = match self.profiles.get(owner as u128) {
            Some(p) => p,
            None => {
                return Err(RiskError::NotRegistered);
            },
        };
        self.profiles.set(owner as u128, RiskProfile { exposure: 0, risk_score: 0, ..profile });
        let metrics = match self.metrics {
            Some(m) => m,
            None => RiskMetrics { total_exposure: 0, high_risk_count: 0, last_updated: 0 },
        };
        self.metrics = Some(
            RiskMetrics { total_exposure: metrics.total_exposure - profile.exposure, last_updated: now, ..metrics },
        );
        Ok(())
    }
}

} // verus!
