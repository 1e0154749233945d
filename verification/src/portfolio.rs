//! Portfolio rebalancing: an owner sets target weights for a set of tokens;
//! given current values, the module tells whether the weights have drifted
//! beyond tolerance, computes the adjustment of each asset with its
//! transaction cost, and records each rebalance in a history.
use vstd::prelude::*;
use crate::table::{Table, pair, pair_key, get_or};
use crate::rental::{ids_of, collect_ids};

verus! {

/// Errors of the portfolio module.
#[derive(Clone, Copy, Debug, PartialEq, Eq, Structural)]
pub enum PortfolioError {
    PortfolioNotFound,
    /// The target weights do not sum to 10 000 basis points.
    InvalidWeights,
    RebalanceTooFrequent,
    DriftWithinTolerance,
    Unauthorized,
    EmptyPortfolio,
    CalculationOverflow,
}

impl PortfolioError {
    /// The contract error code.
    pub fn code(&self) -> (c: u32)
        ensures
            c == match *self {
                PortfolioError::PortfolioNotFound => 1u32,
                PortfolioError::InvalidWeights => 2,
                PortfolioError::RebalanceTooFrequent => 3,
                PortfolioError::DriftWithinTolerance => 4,
                PortfolioError::Unauthorized => 5,
                PortfolioError::EmptyPortfolio => 6,
                PortfolioError::CalculationOverflow => 7,
            },
    {
        match self {
            PortfolioError::PortfolioNotFound => 1,
            PortfolioError::InvalidWeights => 2,
            PortfolioError::RebalanceTooFrequent => 3,
            PortfolioError::DriftWithinTolerance => 4,
            PortfolioError::Unauthorized => 5,
            PortfolioError::EmptyPortfolio => 6,
            PortfolioError::CalculationOverflow => 7,
        }
    }
}

/// The target of one asset.
#[derive(Clone, Copy, Debug, PartialEq, Eq)]
pub struct AssetTarget {
    pub token: u64,
    /// Target weight in basis points.
    pub target_bps: u32,
    pub min_bps: u32,
    pub max_bps: u32,
}

/// A portfolio: the portfolio with id `k` sits at index `k`.
#[derive(Debug)]
pub struct Portfolio {
    pub portfolio_id: u64,
    pub owner: u64,
    pub assets: Vec<AssetTarget>,
    pub drift_tolerance_bps: u32,
    pub rebalance_frequency_seconds: u64,
    pub tx_cost_bps: u32,
    pub last_rebalance: u64,
    pub rebalance_count: u64,
    pub created_at: u64,
    pub active: bool,
}

/// One recorded rebalance.
#[derive(Clone, Copy, Debug, PartialEq, Eq)]
pub struct RebalanceHistoryEntry {
    pub entry_index: u64,
    pub portfolio_id: u64,
    pub timestamp: u64,
    /// Sum of the absolute adjustments.
    pub total_adjusted: i128,
    pub tx_costs_paid: i128,
    pub assets_adjusted: u32,
}

/// The adjustment of one asset: positive buys, negative sells.
#[derive(Clone, Copy, Debug, PartialEq, Eq)]
pub struct AssetAdjustment {
    pub token: u64,
    pub delta: i128,
    pub tx_cost: i128,
}

/// State of the portfolio module.
pub struct Portfolios {
    pub portfolios: Vec<Portfolio>,
    /// `(owner, portfolio_id)` in creation order.
    pub owner_log: Vec<(u64, u64)>,
    /// History entries by `pair(portfolio_id, entry_index)`.
    pub history: Table<RebalanceHistoryEntry>,
    /// Number of history entries by portfolio id.
    pub history_counts: Table<u64>,
    /// What the module published, oldest first.
    pub events: Vec<PortfolioEvent>,
}

/// What the portfolio module publishes.
#[derive(Clone, Copy, Debug, PartialEq, Eq, Structural)]
pub enum PortfolioEvent {
    /// `port_new`: `owner` created `portfolio_id` with `asset_count` assets.
    Created { portfolio_id: u64, owner: u64, asset_count: u64 },
    /// `port_rbl`: `portfolio_id` was rebalanced.
    Rebalanced { portfolio_id: u64, owner: u64, total_adjusted: i128, tx_costs_paid: i128 },
}

/// `x` clamped into `i128`.
pub open spec fn sat(x: int) -> int {
    if x > i128::MAX { i128::MAX as int } else if x < i128::MIN { i128::MIN as int } else { x }
}

/// The saturating sum of the first `n` values, from the left.
pub open spec fn sat_sum(vs: Seq<i128>, n: nat) -> int
    decreases n,
{
    if n == 0 || n > vs.len() { 0 } else { sat(sat_sum(vs, (n - 1) as nat) + vs[n - 1]) }
}

/// Sum of the target weights of the first `n` assets.
pub open spec fn bps_sum(assets: Seq<AssetTarget>, n: nat) -> int
    decreases n,
{
    if n == 0 || n > assets.len() { 0 } else { bps_sum(assets, (n - 1) as nat) + assets[n - 1].target_bps }
}

/// An `i128` read as a `u128` (two's complement).
pub open spec fn as_u128(x: int) -> int {
    if x >= 0 { x } else { x + 0x1_0000_0000_0000_0000_0000_0000_0000_0000 }
}

/// A `u128` read as an `i128` (two's complement).
pub open spec fn as_i128(y: int) -> int {
    if y <= i128::MAX { y } else { y - 0x1_0000_0000_0000_0000_0000_0000_0000_0000 }
}

/// The value at `i`, or 0 past the end.
pub open spec fn value_at(vs: Seq<i128>, i: int) -> i128 {
    if 0 <= i < vs.len() { vs[i] } else { 0 }
}

/// The target value of an asset of weight `bps` in a portfolio worth
/// `total`; `None` where the product overflows `u128`.
pub open spec fn target_of(total: int, bps: u32) -> Option<int> {
    let p = as_u128(total) * bps;
    if p > u128::MAX { None } else { Some(as_i128(p / 10_000)) }
}

/// The transaction cost of moving `delta` at `cost_bps`; `None` where the
/// product overflows `u128`.
pub open spec fn cost_of(delta: int, cost_bps: u32) -> Option<int> {
    let a = if delta < 0 { -delta } else { delta };
    let p = a * cost_bps;
    if p > u128::MAX { None } else { Some(p / 10_000) }
}

/// The adjustment of asset `i`; `None` where a product overflows.
pub open spec fn adjustment_at(assets: Seq<AssetTarget>, cost_bps: u32, vs: Seq<i128>, total: int, i: int) -> Option<
    AssetAdjustment,
> {
    match target_of(total, assets[i].target_bps) {
        None => None,
        Some(t) => {
            let delta = t - value_at(vs, i);
            match cost_of(delta, cost_bps) {
                None => None,
                Some(c) => Some(AssetAdjustment { token: assets[i].token, delta: delta as i128, tx_cost: c as i128 }),
            }
        },
    }
}

/// The current weight of asset `i` in basis points, as computed in `u128`
/// and cut to 32 bits.
pub open spec fn current_bps(vs: Seq<i128>, total: int, i: int) -> int {
    let scaled = as_u128(value_at(vs, i) as int) * 10_000;
    let s = if scaled > u128::MAX { u128::MAX as int } else { scaled };
    (s / as_u128(total)) % 0x1_0000_0000
}

/// True if asset `i` has drifted beyond the tolerance.
pub open spec fn drifted(assets: Seq<AssetTarget>, tolerance: u32, vs: Seq<i128>, total: int, i: int) -> bool {
    let c = current_bps(vs, total, i);
    let t = assets[i].target_bps as int;
    (if c > t { c - t } else { t - c }) > tolerance
}


/// The target value minus the current value of asset `i`.
pub open spec fn delta_at(assets: Seq<AssetTarget>, vs: Seq<i128>, total: int, i: int) -> int {
    target_of(total, assets[i].target_bps).unwrap() - value_at(vs, i)
}

/// True if every asset before `i` can be adjusted without overflow.
pub open spec fn adjustable_before(assets: Seq<AssetTarget>, cost_bps: u32, vs: Seq<i128>, total: int, i: int) -> bool {
    forall|j: int| 0 <= j < i ==> #[trigger] adjustment_at(assets, cost_bps, vs, total, j) is Some
}

/// The absolute value of an adjustment's delta.
pub open spec fn abs_delta(a: AssetAdjustment) -> int {
    if a.delta < 0 { -a.delta } else { a.delta as int }
}

/// The saturating sum of the absolute non-zero deltas of the first `n`
/// adjustments.
pub open spec fn adjusted_sum(adjs: Seq<AssetAdjustment>, n: nat) -> int
    decreases n,
{
    if n == 0 || n > adjs.len() {
        0
    } else {
        let rest = adjusted_sum(adjs, (n - 1) as nat);
        if adjs[n - 1].delta != 0 { sat(rest + abs_delta(adjs[n - 1])) } else { rest }
    }
}

/// The saturating sum of the costs of the first `n` adjustments with a
/// non-zero delta.
pub open spec fn cost_sum(adjs: Seq<AssetAdjustment>, n: nat) -> int
    decreases n,
{
    if n == 0 || n > adjs.len() {
        0
    } else {
        let rest = cost_sum(adjs, (n - 1) as nat);
        if adjs[n - 1].delta != 0 { sat(rest + adjs[n - 1].tx_cost) } else { rest }
    }
}

/// Number of the first `n` adjustments with a non-zero delta.
pub open spec fn nonzero_count(adjs: Seq<AssetAdjustment>, n: nat) -> nat
    decreases n,
{
    if n == 0 || n > adjs.len() {
        0
    } else {
        nonzero_count(adjs, (n - 1) as nat) + if adjs[n - 1].delta != 0 { 1nat } else { 0nat }
    }
}

/// The weights sum grows with the number of assets summed.
proof fn lemma_bps_sum_monotone(assets: Seq<AssetTarget>, m: nat, n: nat)
    requires
        m <= n <= assets.len(),
    ensures
        bps_sum(assets, m) <= bps_sum(assets, n),
    decreases n,
{
    if m < n {
        lemma_bps_sum_monotone(assets, m, (n - 1) as nat);
    }
}

/// `x` as a `u128`, two's complement.
fn to_u128(x: i128) -> (r: u128)
    ensures
        r == as_u128(x as int),
{
    if x >= 0 {
        x as u128
    } else {
        u128::MAX - ((-(x + 1)) as u128)
    }
}

/// `y` as an `i128`, two's complement.
fn to_i128(y: u128) -> (r: i128)
    ensures
        r == as_i128(y as int),
{
    if y <= i128::MAX as u128 {
        y as i128
    } else {
        -((u128::MAX - y) as i128) - 1
    }
}

/// `a + b` clamped into `i128`.
fn sat_add(a: i128, b: i128) -> (r: i128)
    ensures
        r == sat(a + b),
{
    match a.checked_add(b) {
        Some(v) => v,
        None => if b > 0 { i128::MAX } else { i128::MIN },
    }
}

/// The saturating sum of `vs`.
fn total_value(vs: &Vec<i128>) -> (r: i128)
    ensures
        r == sat_sum(vs@, vs@.len()),
{
    let mut acc: i128 = 0;
    let mut i: usize = 0;
    while i < vs.len()
        invariant
            i <= vs@.len(),
            acc == sat_sum(vs@, i as nat),
        decreases vs@.len() - i,
    {
        acc = sat_add(acc, vs[i]);
        i = i + 1;
    }
    acc
}

/// Checks that the target weights sum to exactly 10 000 basis points.
pub fn validate_weights(assets: &Vec<AssetTarget>) -> (r: Result<(), PortfolioError>)
    ensures
        r is Ok <==> bps_sum(assets@, assets@.len()) == 10_000,
        r matches Err(e) ==> e == PortfolioError::InvalidWeights,
{
    let mut total: u32 = 0;
    let mut i: usize = 0;
    while i < assets.len()
        invariant
            i <= assets@.len(),
            total == bps_sum(assets@, i as nat),
        decreases assets@.len() - i,
    {
        match total.checked_add(assets[i].target_bps) {
            Some(t) => {
                total = t;
            },
            None => {
                proof {
                    lemma_bps_sum_monotone(assets@, (i + 1) as nat, assets@.len());
                }
                return Err(PortfolioError::InvalidWeights);
            },
        }
        i = i + 1;
    }
    if total != 10_000 {
        return Err(PortfolioError::InvalidWeights);
    }
    Ok(())
}


impl Portfolios {
    /// No portfolios.
    pub fn new() -> (p: Portfolios)
        ensures
            p.portfolios@.len() == 0,
            p.owner_log@.len() == 0,
            p.history@ == Map::<u128, RebalanceHistoryEntry>::empty(),
            p.history_counts@ == Map::<u128, u64>::empty(),
            p.events@.len() == 0,
    {
        Portfolios {
            portfolios: Vec::new(),
            owner_log: Vec::new(),
            history: Table::new(),
            history_counts: Table::new(),
            events: Vec::new(),
        }
    }

    /// Creates a portfolio of `owner` at `now` with target weights summing
    /// to 10 000 basis points; returns its id (ids count from 0).
    pub fn create_portfolio(
        &mut self,
        now: u64,
        owner: u64,
        assets: Vec<AssetTarget>,
        drift_tolerance_bps: u32,
        rebalance_frequency_seconds: u64,
        tx_cost_bps: u32,
    ) -> (r: Result<u64, PortfolioError>)
        requires
            old(self).portfolios@.len() < u64::MAX,
        ensures
            assets@.len() == 0 ==> r == Err::<u64, PortfolioError>(PortfolioError::EmptyPortfolio),
            assets@.len() > 0 && bps_sum(assets@, assets@.len()) != 10_000 ==> r == Err::<u64, PortfolioError>(
                PortfolioError::InvalidWeights,
            ),
            r is Err ==> final(self).portfolios@ == old(self).portfolios@ && final(self).owner_log@
                == old(self).owner_log@ && final(self).events@ == old(self).events@,
            r matches Ok(id) ==> {
                &&& assets@.len() > 0 && bps_sum(assets@, assets@.len()) == 10_000
                &&& id == old(self).portfolios@.len()
                &&& final(self).portfolios@ == old(self).portfolios@.push(
                    Portfolio {
                        portfolio_id: id,
                        owner,
                        assets,
                        drift_tolerance_bps,
                        rebalance_frequency_seconds,
                        tx_cost_bps,
                        last_rebalance: now,
                        rebalance_count: 0,
                        created_at: now,
                        active: true,
                    },
                )
                &&& final(self).owner_log@ == old(self).owner_log@.push((owner, id))
                &&& final(self).events@ == old(self).events@.push(
                    PortfolioEvent::Created { portfolio_id: id, owner, asset_count: assets@.len() as u64 },
                )
            },
            final(self).history@ == old(self).history@,
            final(self).history_counts@ == old(self).history_counts@,
    {
        if assets.len() == 0 {
            return Err(PortfolioError::EmptyPortfolio);
        }
        match validate_weights(&assets) {
            Ok(()) => {},
            Err(e) => {
                return Err(e);
            },
        }
        let portfolio_id = self.next_portfolio_id();
        let asset_count = assets.len() as u64;
        self.portfolios.push(
            Portfolio {
                portfolio_id,
                owner,
                assets,
                drift_tolerance_bps,
                rebalance_frequency_seconds,
                tx_cost_bps,
                last_rebalance: now,
                rebalance_count: 0,
                created_at: now,
                active: true,
            },
        );
        self.owner_log.push((owner, portfolio_id));
        self.events.push(PortfolioEvent::Created { portfolio_id, owner, asset_count });
        Ok(portfolio_id)
    }

    /// The id the next portfolio gets.
    fn next_portfolio_id(&self) -> (id: u64)
        requires
            self.portfolios@.len() < u64::MAX,
        ensures
            id == self.portfolios@.len(),
    {
        self.portfolios.len() as u64
    }

    /// The adjustment of each asset of `portfolio_id` that brings the
    /// current values to the target weights of their (saturating) total,
    /// with its transaction cost.
    pub fn calculate_optimal_allocations(&self, portfolio_id: u64, current_values: &Vec<i128>) -> (r: Result<
        Vec<AssetAdjustment>,
        PortfolioError,
    >)
        requires
            portfolio_id < self.portfolios@.len() ==> {
                let p = self.portfolios@[portfolio_id as int];
                let total = sat_sum(current_values@, current_values@.len());
                forall|i: int|
                    0 <= i < p.assets@.len() && adjustable_before(p.assets@, p.tx_cost_bps, current_values@, total, i)
                        && target_of(total, p.assets@[i].target_bps) is Some ==> i128::MIN < #[trigger] delta_at(
                        p.assets@,
                        current_values@,
                        total,
                        i,
                    ) <= i128::MAX
            },
        ensures
            portfolio_id >= self.portfolios@.len() ==> r == Err::<Vec<AssetAdjustment>, PortfolioError>(
                PortfolioError::PortfolioNotFound,
            ),
            portfolio_id < self.portfolios@.len() ==> {
                let p = self.portfolios@[portfolio_id as int];
                let total = sat_sum(current_values@, current_values@.len());
                let n = p.assets@.len() as int;
                &&& r is Ok <==> adjustable_before(p.assets@, p.tx_cost_bps, current_values@, total, n)
                &&& r matches Err(e) ==> e == PortfolioError::CalculationOverflow
                &&& r matches Ok(v) ==> v@.len() == n && forall|i: int|
                    0 <= i < n ==> Some(#[trigger] v@[i]) == adjustment_at(
                        p.assets@,
                        p.tx_cost_bps,
                        current_values@,
                        total,
                        i,
                    )
            },
    {
        if portfolio_id >= self.portfolios.len() as u64 {
            return Err(PortfolioError::PortfolioNotFound);
        }
        let p = &self.portfolios[portfolio_id as usize];
        let total = total_value(current_values);
        let mut adjustments: Vec<AssetAdjustment> = Vec::new();
        let mut i: usize = 0;
        while i < p.assets.len()
            invariant
                i <= p.assets@.len(),
                portfolio_id < self.portfolios@.len(),
                *p == self.portfolios@[portfolio_id as int],
                total == sat_sum(current_values@, current_values@.len()),
                adjustments@.len() == i,
                adjustable_before(p.assets@, p.tx_cost_bps, current_values@, total as int, i as int),
                forall|k: int| 0 <= k < i ==> Some(#[trigger] adjustments@[k]) == adjustment_at(
                    p.assets@,
                    p.tx_cost_bps,
                    current_values@,
                    total as int,
                    k,
                ),
                forall|k: int|
                    0 <= k < p.assets@.len() && adjustable_before(p.assets@, p.tx_cost_bps, current_values@, total as int, k)
                        && target_of(total as int, p.assets@[k].target_bps) is Some ==> i128::MIN < #[trigger] delta_at(
                        p.assets@,
                        current_values@,
                        total as int,
                        k,
                    ) <= i128::MAX,
            decreases p.assets@.len() - i,
        {
            let asset = p.assets[i];
            let current = if i < current_values.len() {
                current_values[i]
            } else {
                0
            };
            let prod = match to_u128(total).checked_mul(asset.target_bps as u128) {
                Some(x) => x,
                None => {
                    assert(adjustment_at(p.assets@, p.tx_cost_bps, current_values@, total as int, i as int) is None);
                    return Err(PortfolioError::CalculationOverflow);
                },
            };
            let target = to_i128(prod / 10_000);
            assert(delta_at(p.assets@, current_values@, total as int, i as int) == target - current);
            let delta = target - current;
            let a: i128 = if delta < 0 { -delta } else { delta };
            let cp = match (a as u128).checked_mul(p.tx_cost_bps as u128) {
                Some(x) => x,
                None => {
                    assert(adjustment_at(p.assets@, p.tx_cost_bps, current_values@, total as int, i as int) is None);
                    return Err(PortfolioError::CalculationOverflow);
                },
            };
            let tx_cost = (cp / 10_000) as i128;
            adjustments.push(AssetAdjustment { token: asset.token, delta, tx_cost });
            i = i + 1;
        }
        Ok(adjustments)
    }

    /// The error `needs_rebalance` answers at `now`, if any.
    pub open spec fn rebalance_check_error(&self, now: u64, portfolio_id: u64) -> Option<PortfolioError> {
        if portfolio_id >= self.portfolios@.len() {
            Some(PortfolioError::PortfolioNotFound)
        } else {
            let p = self.portfolios@[portfolio_id as int];
            let due = p.last_rebalance + p.rebalance_frequency_seconds;
            if now < (if due > u64::MAX { u64::MAX as int } else { due }) {
                Some(PortfolioError::RebalanceTooFrequent)
            } else {
                None
            }
        }
    }

    /// Whether `portfolio_id` needs a rebalance at `now` given the current
    /// values: the frequency must allow one, and some asset's weight must
    /// be further from its target than the tolerance. A zero total never
    /// needs one.
    pub fn needs_rebalance(&self, now: u64, portfolio_id: u64, current_values: &Vec<i128>) -> (r: Result<
        bool,
        PortfolioError,
    >)
        ensures
            r is Err <==> self.rebalance_check_error(now, portfolio_id) is Some,
            r matches Err(e) ==> Some(e) == self.rebalance_check_error(now, portfolio_id),
            r matches Ok(b) ==> {
                let p = self.portfolios@[portfolio_id as int];
                let total = sat_sum(current_values@, current_values@.len());
                b == (total != 0 && exists|i: int|
                    0 <= i < p.assets@.len() && #[trigger] drifted(
                        p.assets@,
                        p.drift_tolerance_bps,
                        current_values@,
                        total,
                        i,
                    ))
            },
    {
        if portfolio_id >= self.portfolios.len() as u64 {
            return Err(PortfolioError::PortfolioNotFound);
        }
        let p = &self.portfolios[portfolio_id as usize];
        let due = match p.last_rebalance.checked_add(p.rebalance_frequency_seconds) {
            Some(d) => d,
            None => u64::MAX,
        };
        if now < due {
            return Err(PortfolioError::RebalanceTooFrequent);
        }
        let total = total_value(current_values);
        if total == 0 {
            return Ok(false);
        }
        let total_u = to_u128(total);
        let mut i: usize = 0;
        while i < p.assets.len()
            invariant
                i <= p.assets@.len(),
                *p == self.portfolios@[portfolio_id as int],
                total == sat_sum(current_values@, current_values@.len()),
                total != 0,
                total_u == as_u128(total as int),
                self.rebalance_check_error(now, portfolio_id) is None,
                forall|k: int| 0 <= k < i ==> !#[trigger] drifted(
                    p.assets@,
                    p.drift_tolerance_bps,
                    current_values@,
                    total as int,
                    k,
                ),
            decreases p.assets@.len() - i,
        {
            let asset = p.assets[i];
            let current = if i < current_values.len() {
                current_values[i]
            } else {
                0
            };
            let scaled = match to_u128(current).checked_mul(10_000) {
                Some(x) => x,
                None => u128::MAX,
            };
            let q = scaled / total_u;
            let cur_bps = (q % 0x1_0000_0000) as u32;
            let drift = if cur_bps > asset.target_bps {
                cur_bps - asset.target_bps
            } else {
                asset.target_bps - cur_bps
            };
            if drift > p.drift_tolerance_bps {
                assert(drifted(p.assets@, p.drift_tolerance_bps, current_values@, total as int, i as int));
                return Ok(true);
            }
            i = i + 1;
        }
        Ok(false)
    }

    /// Records a rebalance of `portfolio_id` by its owner at `now`: the
    /// absolute non-zero deltas and their costs are summed (saturating)
    /// into a new history entry, and the portfolio's last rebalance and
    /// count are updated. Returns the entry.
    pub fn execute_rebalance(
        &mut self,
        now: u64,
        owner: u64,
        portfolio_id: u64,
        adjustments: &Vec<AssetAdjustment>,
    ) -> (r: Result<RebalanceHistoryEntry, PortfolioError>)
        requires
            adjustments@.len() <= u32::MAX,
            forall|i: int| 0 <= i < adjustments@.len() ==> #[trigger] adjustments@[i].delta != i128::MIN,
            get_or(old(self).history_counts@, portfolio_id as u128, 0) < u64::MAX,
            portfolio_id < old(self).portfolios@.len() ==> old(self).portfolios@[portfolio_id as int].rebalance_count
                < u64::MAX,
        ensures
            ({
                let e = if portfolio_id >= old(self).portfolios@.len() {
                    Some(PortfolioError::PortfolioNotFound)
                } else if old(self).portfolios@[portfolio_id as int].owner != owner {
                    Some(PortfolioError::Unauthorized)
                } else {
                    None
                };
                &&& r is Err <==> e is Some
                &&& r matches Err(x) ==> Some(x) == e && final(self).portfolios@ == old(self).portfolios@
                    && final(self).history@ == old(self).history@ && final(self).history_counts@
                    == old(self).history_counts@ && final(self).events@ == old(self).events@
            }),
            r matches Ok(entry) ==> {
                let idx = get_or(old(self).history_counts@, portfolio_id as u128, 0);
                let p = old(self).portfolios@[portfolio_id as int];
                let n = adjustments@.len();
                &&& entry == (RebalanceHistoryEntry {
                    entry_index: idx,
                    portfolio_id,
                    timestamp: now,
                    total_adjusted: adjusted_sum(adjustments@, n) as i128,
                    tx_costs_paid: cost_sum(adjustments@, n) as i128,
                    assets_adjusted: nonzero_count(adjustments@, n) as u32,
                })
                &&& final(self).history@ == old(self).history@.insert(pair(portfolio_id, idx), entry)
                &&& final(self).history_counts@ == old(self).history_counts@.insert(
                    portfolio_id as u128,
                    (idx + 1) as u64,
                )
                &&& final(self).portfolios@ == old(self).portfolios@.update(
                    portfolio_id as int,
                    Portfolio { last_rebalance: now, rebalance_count: (p.rebalance_count + 1) as u64, ..p },
                )
                &&& final(self).events@ == old(self).events@.push(
                    PortfolioEvent::Rebalanced {
                        portfolio_id,
                        owner,
                        total_adjusted: entry.total_adjusted,
                        tx_costs_paid: entry.tx_costs_paid,
                    },
                )
            },
            final(self).owner_log@ == old(self).owner_log@,
    {
        if portfolio_id >= self.portfolios.len() as u64 {
            return Err(PortfolioError::PortfolioNotFound);
        }
        let pidx = portfolio_id as usize;
        if self.portfolios[pidx].owner != owner {
            return Err(PortfolioError::Unauthorized);
        }
        let mut total_adjusted: i128 = 0;
        let mut tx_costs_paid: i128 = 0;
        let mut assets_adjusted: u32 = 0;
        let mut i: usize = 0;
        while i < adjustments.len()
            invariant
                i <= adjustments@.len() <= u32::MAX,
                forall|k: int| 0 <= k < adjustments@.len() ==> #[trigger] adjustments@[k].delta != i128::MIN,
                total_adjusted == adjusted_sum(adjustments@, i as nat),
                tx_costs_paid == cost_sum(adjustments@, i as nat),
                assets_adjusted == nonzero_count(adjustments@, i as nat),
                assets_adjusted <= i,
            decreases adjustments@.len() - i,
        {
            let adj = adjustments[i];
            if adj.delta != 0 {
                let a: i128 = if adj.delta < 0 { -adj.delta } else { adj.delta };
                total_adjusted = sat_add(total_adjusted, a);
                tx_costs_paid = sat_add(tx_costs_paid, adj.tx_cost);
                assets_adjusted = assets_adjusted + 1;
            }
            i = i + 1;
        }
        let entry_index = match self.history_counts.get(portfolio_id as u128) {
            Some(c) => c,
            None => 0,
        };
        let entry = RebalanceHistoryEntry {
            entry_index,
            portfolio_id,
            timestamp: now,
            total_adjusted,
            tx_costs_paid,
            assets_adjusted,
        };
        self.history.set(pair_key(portfolio_id, entry_index), entry);
        self.history_counts.set(portfolio_id as u128, entry_index + 1);
        let old_p = self.portfolios.remove(pidx);
        let updated = Portfolio {
            portfolio_id: old_p.portfolio_id,
            owner: old_p.owner,
            assets: old_p.assets,
            drift_tolerance_bps: old_p.drift_tolerance_bps,
            rebalance_frequency_seconds: old_p.rebalance_frequency_seconds,
            tx_cost_bps: old_p.tx_cost_bps,
            last_rebalance: now,
            rebalance_count: old_p.rebalance_count + 1,
            created_at: old_p.created_at,
            active: old_p.active,
        };
        self.portfolios.insert(pidx, updated);
        self.events.push(PortfolioEvent::Rebalanced { portfolio_id, owner, total_adjusted, tx_costs_paid });
        proof {
            let p = old(self).portfolios@[portfolio_id as int];
            assert(self.portfolios@ =~= old(self).portfolios@.update(
                portfolio_id as int,
                Portfolio { last_rebalance: now, rebalance_count: (p.rebalance_count + 1) as u64, ..p },
            ));
        }
        Ok(entry)
    }

    /// The portfolio with `portfolio_id`, if any.
    pub fn get_portfolio(&self, portfolio_id: u64) -> (r: Option<&Portfolio>)
        ensures
            r == (if portfolio_id < self.portfolios@.len() {
                Some(&self.portfolios@[portfolio_id as int])
            } else {
                None::<&Portfolio>
            }),
    {
        if portfolio_id < self.portfolios.len() as u64 {
            Some(&self.portfolios[portfolio_id as usize])
        } else {
            None
        }
    }

    /// The ids of the portfolios of `owner`, in creation order.
    pub fn get_owner_portfolios(&self, owner: u64) -> (r: Vec<u64>)
        ensures
            r@ == ids_of(self.owner_log@, owner),
    {
        collect_ids(&self.owner_log, owner)
    }

    /// The history entry at `entry_index` of `portfolio_id`, if any.
    pub fn get_history_entry(&self, portfolio_id: u64, entry_index: u64) -> (r: Option<RebalanceHistoryEntry>)
        ensures
            r == (if self.history@.contains_key(pair(portfolio_id, entry_index)) {
                Some(self.history@[pair(portfolio_id, entry_index)])
            } else {
                None::<RebalanceHistoryEntry>
            }),
    {
        self.history.get(pair_key(portfolio_id, entry_index))
    }

    /// The number of history entries of `portfolio_id`.
    pub fn get_history_count(&self, portfolio_id: u64) -> (r: u64)
        ensures
            r == get_or(self.history_counts@, portfolio_id as u128, 0),
    {
        match self.history_counts.get(portfolio_id as u128) {
            Some(c) => c,
            None => 0,
        }
    }
}

} // verus!
