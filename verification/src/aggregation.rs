//! Tip aggregation: small tips are queued into a batch per
//! `(token, creator)` and held in escrow; a batch is settled in one write to
//! the creator's balance once it is large enough or old enough, or cancelled
//! with every queued tip refunded.
use vstd::prelude::*;
use crate::common::Transfer;
use crate::num::{tdiv, div_i128, lemma_tdiv_nonneg};
use crate::table::{Table, pair, pair_key, get_or, lemma_pair_injective};

verus! {

/// Number of tips at which a batch is ready for settlement.
pub const OPTIMAL_BATCH_SIZE: u32 = 10;

/// Smallest batch meant for manual settlement.
pub const MIN_BATCH_SIZE: u32 = 2;

/// Most tips one batch can hold.
pub const MAX_BATCH_SIZE: u32 = 50;

/// Age in seconds after which a batch is ready whatever its size.
pub const BATCH_WINDOW_SECONDS: u64 = 3_600;

/// Fee taken on settlement, in basis points.
pub const AGGREGATION_FEE_BPS: u32 = 10;

/// Errors of the aggregation protocol.
#[derive(Clone, Copy, Debug, PartialEq, Eq, Structural)]
pub enum AggregationError {
    InvalidAmount,
    TokenNotWhitelisted,
    AggregationDisabled,
    AggregationBatchFull,
    AggregationTipNotFound,
    Unauthorized,
    AggregationTipAlreadyRefunded,
    AggregationBatchNotFound,
    AggregationBatchAlreadySettled,
    AggregationBatchNotReady,
    /// Every tip of the batch was refunded: there is nothing to settle.
    AggregationBatchEmpty,
}

/// Lifecycle of a batch.
#[derive(Clone, Copy, Debug, PartialEq, Eq, Structural)]
pub enum BatchStatus {
    Open,
    Settled,
    Cancelled,
}

/// A batch of queued tips for one `(token, creator)` pair.
#[derive(Clone, Copy, Debug, PartialEq, Eq)]
pub struct AggregationBatch {
    pub id: u64,
    pub token: u64,
    pub creator: u64,
    /// Sum of the queued tips that were not refunded.
    pub total_queued: i128,
    /// Number of tips ever queued; indices stay stable after refunds.
    pub tip_count: u32,
    pub status: BatchStatus,
    pub opened_at: u64,
    pub closed_at: Option<u64>,
    pub fee_collected: i128,
}

/// One queued tip of a batch.
#[derive(Clone, Copy, Debug, PartialEq, Eq)]
pub struct QueuedTip {
    pub batch_id: u64,
    /// Position in the batch, from 0.
    pub index: u32,
    pub tipper: u64,
    pub amount: i128,
    pub queued_at: u64,
    pub refunded: bool,
}

/// What a settlement did.
#[derive(Clone, Copy, Debug, PartialEq, Eq)]
pub struct SettlementResult {
    pub batch_id: u64,
    /// Number of tips that were credited.
    pub tip_count: u32,
    pub creator_amount: i128,
    pub fee_amount: i128,
    pub settled_at: u64,
}

/// Parameters of the aggregation protocol.
#[derive(Clone, Copy, Debug, PartialEq, Eq)]
pub struct AggregationConfig {
    pub optimal_batch_size: u32,
    pub min_batch_size: u32,
    pub max_batch_size: u32,
    pub batch_window_seconds: u64,
    pub fee_bps: u32,
    pub enabled: bool,
}

impl AggregationConfig {
    /// The default parameters: the module constants, enabled.
    pub fn default() -> (c: AggregationConfig)
        ensures
            c == (AggregationConfig {
                optimal_batch_size: OPTIMAL_BATCH_SIZE,
                min_batch_size: MIN_BATCH_SIZE,
                max_batch_size: MAX_BATCH_SIZE,
                batch_window_seconds: BATCH_WINDOW_SECONDS,
                fee_bps: AGGREGATION_FEE_BPS,
                enabled: true,
            }),
    {
        AggregationConfig {
            optimal_batch_size: OPTIMAL_BATCH_SIZE,
            min_batch_size: MIN_BATCH_SIZE,
            max_batch_size: MAX_BATCH_SIZE,
            batch_window_seconds: BATCH_WINDOW_SECONDS,
            fee_bps: AGGREGATION_FEE_BPS,
            enabled: true,
        }
    }
}

/// State of the aggregation protocol and of the ledger entries it credits.
pub struct Aggregator {
    /// This contract's own address, which holds the escrow.
    pub contract: u64,
    pub admin: Option<u64>,
    pub config: AggregationConfig,
    /// Tokens accepted for tips, by `token as u128`.
    pub whitelist: Table<bool>,
    /// Number of batches ever opened; the last batch id.
    pub batch_counter: u64,
    /// Batches by id.
    pub batches: Table<AggregationBatch>,
    /// The open batch id of each `pair(token, creator)`.
    pub open_batches: Table<u64>,
    /// Queued tips by `pair(batch_id, index)`.
    pub queued: Table<QueuedTip>,
    /// `(batch_id, tipper, index)` in the order tips were queued.
    pub tipper_log: Vec<(u64, u64, u32)>,
    /// Creator balances by `pair(creator, token)`.
    pub balances: Table<i128>,
    /// Creator lifetime totals by `pair(creator, token)`.
    pub totals: Table<i128>,
    /// Platform fee balances by `token as u128`.
    pub fee_balances: Table<i128>,
    /// The events published, oldest first.
    pub events: Vec<AggregationEvent>,
}

/// An event the aggregation module publishes.
#[derive(Clone, Copy, Debug, PartialEq, Eq)]
pub enum AggregationEvent {
    /// `agg_q`: a tip was queued at `tip_index` of `batch_id`.
    Queued { tipper: u64, creator: u64, token: u64, amount: i128, batch_id: u64, tip_index: u32 },
    /// `agg_cncl`: a queued tip was refunded to its tipper.
    TipCancelled { tipper: u64, batch_id: u64, tip_index: u32, amount: i128 },
    /// `agg_setl`: a batch was settled.
    Settled { creator: u64, token: u64, batch_id: u64, tip_count: u32, creator_amount: i128, fee_amount: i128 },
    /// `agg_adm`: the admin cancelled a batch, refunding `refunded_count` tips.
    BatchCancelled { admin: u64, batch_id: u64, refunded_count: u32 },
}

/// The key of the queued tip at `index` of `batch_id`.
pub open spec fn tip_key(batch_id: u64, index: u32) -> u128 {
    pair(batch_id, index as u64)
}

/// True if the tip at `index` of `batch_id` exists and was not refunded.
pub open spec fn included(q: Map<u128, QueuedTip>, batch_id: u64, index: int) -> bool {
    &&& q.contains_key(tip_key(batch_id, index as u32))
    &&& !q[tip_key(batch_id, index as u32)].refunded
}

/// Sum of the amounts of the included tips among the first `n` of a batch.
pub open spec fn queued_sum(q: Map<u128, QueuedTip>, batch_id: u64, n: nat) -> int
    decreases n,
{
    if n == 0 {
        0
    } else {
        queued_sum(q, batch_id, (n - 1) as nat) + if included(q, batch_id, n - 1) {
            q[tip_key(batch_id, (n - 1) as u32)].amount as int
        } else {
            0
        }
    }
}

/// Number of included tips among the first `n` of a batch.
pub open spec fn queued_count(q: Map<u128, QueuedTip>, batch_id: u64, n: nat) -> nat
    decreases n,
{
    if n == 0 {
        0
    } else {
        queued_count(q, batch_id, (n - 1) as nat) + if included(q, batch_id, n - 1) {
            1nat
        } else {
            0nat
        }
    }
}

/// True if summing the first `n` tips of a batch never leaves `i128`.
pub open spec fn sums_fit(q: Map<u128, QueuedTip>, batch_id: u64, n: nat) -> bool {
    forall|j: nat| j <= n ==> i128::MIN <= #[trigger] queued_sum(q, batch_id, j) <= i128::MAX
}

/// The tips table after the included tips among the first `n` of a batch
/// were marked refunded.
pub open spec fn mark_refunded(q: Map<u128, QueuedTip>, batch_id: u64, n: nat) -> Map<
    u128,
    QueuedTip,
>
    decreases n,
{
    if n == 0 {
        q
    } else {
        let m = mark_refunded(q, batch_id, (n - 1) as nat);
        if included(q, batch_id, n - 1) {
            let k = tip_key(batch_id, (n - 1) as u32);
            m.insert(k, QueuedTip { refunded: true, ..q[k] })
        } else {
            m
        }
    }
}

/// The refunds of the included tips among the first `n` of a batch, in
/// index order.
pub open spec fn refunds(
    q: Map<u128, QueuedTip>,
    batch_id: u64,
    n: nat,
    token: u64,
    from: u64,
) -> Seq<Transfer>
    decreases n,
{
    if n == 0 {
        Seq::empty()
    } else {
        let r = refunds(q, batch_id, (n - 1) as nat, token, from);
        if included(q, batch_id, n - 1) {
            let t = q[tip_key(batch_id, (n - 1) as u32)];
            r.push(Transfer { token, from, to: t.tipper, amount: t.amount })
        } else {
            r
        }
    }
}

/// The tip indices that `tipper` queued in `batch_id`, in order.
pub open spec fn tips_of(log: Seq<(u64, u64, u32)>, batch_id: u64, tipper: u64) -> Seq<u32>
    decreases log.len(),
{
    if log.len() == 0 {
        Seq::empty()
    } else {
        let rest = tips_of(log.drop_last(), batch_id, tipper);
        if log.last().0 == batch_id && log.last().1 == tipper {
            rest.push(log.last().2)
        } else {
            rest
        }
    }
}

/// Marking refunds among the first `n` tips leaves every other key as it was.
proof fn lemma_mark_refunded_outside(q: Map<u128, QueuedTip>, batch_id: u64, n: nat, k: u128)
    requires
        n <= u32::MAX + 1,
        forall|i: int| 0 <= i < n ==> k != #[trigger] tip_key(batch_id, i as u32),
    ensures
        mark_refunded(q, batch_id, n).contains_key(k) == q.contains_key(k),
        q.contains_key(k) ==> mark_refunded(q, batch_id, n)[k] == q[k],
    decreases n,
{
    if n > 0 {
        assert(k != tip_key(batch_id, (n - 1) as u32));
        lemma_mark_refunded_outside(q, batch_id, (n - 1) as nat, k);
    }
}

/// The key of index `i` differs from the keys of all other indices.
proof fn lemma_tip_key_distinct(batch_id: u64, i: int, n: nat)
    requires
        0 <= i <= u32::MAX,
        n <= i,
    ensures
        forall|j: int| 0 <= j < n ==> tip_key(batch_id, i as u32) != #[trigger] tip_key(batch_id, j as u32),
{
    assert forall|j: int| 0 <= j < n implies tip_key(batch_id, i as u32) != #[trigger] tip_key(batch_id, j as u32) by {
        lemma_pair_injective(batch_id, i as u32 as u64, batch_id, j as u32 as u64);
    }
}

/// Taking a basis-point fee off an amount stays within `i128`.
proof fn lemma_fee_sub_fits(x: int, f: int)
    requires
        i128::MIN <= x <= i128::MAX,
        f >= 0,
        i128::MIN <= x * f <= i128::MAX,
    ensures
        i128::MIN <= x - tdiv(x * f, 10_000) <= i128::MAX,
        i128::MIN <= tdiv(x * f, 10_000) <= i128::MAX,
{
    if x >= 0 {
        assert(x * f >= 0) by (nonlinear_arith)
            requires
                x >= 0,
                f >= 0,
        ;
        lemma_tdiv_nonneg(x * f, 10_000);
    } else {
        assert(x * f <= 0) by (nonlinear_arith)
            requires
                x < 0,
                f >= 0,
        ;
        lemma_tdiv_nonneg(-(x * f), 10_000);
    }
}

impl Aggregator {
    /// A fresh protocol state at `contract` with `admin` and the default
    /// configuration.
    pub fn new(contract: u64, admin: Option<u64>) -> (a: Aggregator)
        ensures
            a.contract == contract,
            a.admin == admin,
            a.config == (AggregationConfig {
                optimal_batch_size: OPTIMAL_BATCH_SIZE,
                min_batch_size: MIN_BATCH_SIZE,
                max_batch_size: MAX_BATCH_SIZE,
                batch_window_seconds: BATCH_WINDOW_SECONDS,
                fee_bps: AGGREGATION_FEE_BPS,
                enabled: true,
            }),
            a.whitelist@ == Map::<u128, bool>::empty(),
            a.batch_counter == 0,
            a.batches@ == Map::<u128, AggregationBatch>::empty(),
            a.open_batches@ == Map::<u128, u64>::empty(),
            a.queued@ == Map::<u128, QueuedTip>::empty(),
            a.tipper_log@.len() == 0,
            a.balances@ == Map::<u128, i128>::empty(),
            a.totals@ == Map::<u128, i128>::empty(),
            a.fee_balances@ == Map::<u128, i128>::empty(),
            a.events@.len() == 0,
    {
        Aggregator {
            contract,
            admin,
            config: AggregationConfig::default(),
            whitelist: Table::new(),
            batch_counter: 0,
            batches: Table::new(),
            open_batches: Table::new(),
            queued: Table::new(),
            tipper_log: Vec::new(),
            events: Vec::new(),
            balances: Table::new(),
            totals: Table::new(),
            fee_balances: Table::new(),
        }
    }

    /// True if `token` is whitelisted.
    pub open spec fn is_whitelisted(&self, token: u64) -> bool {
        get_or(self.whitelist@, token as u128, false)
    }

    /// The open batch of `(token, creator)` as stored, if any.
    pub open spec fn open_batch_of(&self, token: u64, creator: u64) -> Option<AggregationBatch> {
        let k = pair(token, creator);
        if self.open_batches@.contains_key(k) && self.batches@.contains_key(
            self.open_batches@[k] as u128,
        ) {
            Some(self.batches@[self.open_batches@[k] as u128])
        } else {
            None
        }
    }

    /// The current configuration.
    pub fn get_config(&self) -> (c: AggregationConfig)
        ensures
            c == self.config,
    {
        self.config
    }

    /// Replaces the configuration (the caller checks authority).
    pub fn set_config(&mut self, config: AggregationConfig)
        ensures
            *final(self) == (Aggregator { config, ..*old(self) }),
    {
        self.config = config;
    }

    /// Adds `token` to, or removes it from, the whitelist.
    pub fn set_whitelisted(&mut self, token: u64, allowed: bool)
        ensures
            final(self).whitelist@ == old(self).whitelist@.insert(token as u128, allowed),
            final(self).config == old(self).config,
            final(self).batches@ == old(self).batches@,
            final(self).queued@ == old(self).queued@,
    {
        self.whitelist.set(token as u128, allowed);
    }

    /// The open batch of `(token, creator)`, if any.
    pub fn get_open_batch(&self, token: u64, creator: u64) -> (r: Option<AggregationBatch>)
        ensures
            r == self.open_batch_of(token, creator),
    {
        match self.open_batches.get(pair_key(token, creator)) {
            Some(id) => self.batches.get(id as u128),
            None => None,
        }
    }

    /// The batch with `batch_id`, if any.
    pub fn get_batch(&self, batch_id: u64) -> (r: Option<AggregationBatch>)
        ensures
            r == (if self.batches@.contains_key(batch_id as u128) {
                Some(self.batches@[batch_id as u128])
            } else {
                None::<AggregationBatch>
            }),
    {
        self.batches.get(batch_id as u128)
    }

    /// Stores `batch` under its id.
    pub fn save_batch(&mut self, batch: AggregationBatch)
        ensures
            *final(self) == (Aggregator { batches: final(self).batches, ..*old(self) }),
            final(self).batches@ == old(self).batches@.insert(batch.id as u128, batch),
    {
        self.batches.set(batch.id as u128, batch);
    }

    /// Opens a new empty batch for `(token, creator)` at `now`, registers it
    /// as the pair's open batch and returns it.
    pub fn open_batch(&mut self, now: u64, token: u64, creator: u64) -> (b: AggregationBatch)
        requires
            old(self).batch_counter < u64::MAX,
        ensures
            b == (AggregationBatch {
                id: (old(self).batch_counter + 1) as u64,
                token,
                creator,
                total_queued: 0,
                tip_count: 0,
                status: BatchStatus::Open,
                opened_at: now,
                closed_at: None,
                fee_collected: 0,
            }),
            final(self).batch_counter == b.id,
            final(self).batches@ == old(self).batches@.insert(b.id as u128, b),
            final(self).open_batches@ == old(self).open_batches@.insert(pair(token, creator), b.id),
            *final(self) == (Aggregator {
                batch_counter: final(self).batch_counter,
                batches: final(self).batches,
                open_batches: final(self).open_batches,
                ..*old(self)
            }),
    {
        let batch_id = self.next_batch_id();
        let batch = AggregationBatch {
            id: batch_id,
            token,
            creator,
            total_queued: 0,
            tip_count: 0,
            status: BatchStatus::Open,
            opened_at: now,
            closed_at: None,
            fee_collected: 0,
        };
        self.batches.set(batch_id as u128, batch);
        self.open_batches.set(pair_key(token, creator), batch_id);
        batch
    }

    /// Drops the open-batch pointer of `(token, creator)`.
    pub fn clear_open_batch(&mut self, token: u64, creator: u64)
        ensures
            final(self).open_batches@ == old(self).open_batches@.remove(pair(token, creator)),
            *final(self) == (Aggregator { open_batches: final(self).open_batches, ..*old(self) }),
    {
        self.open_batches.remove(pair_key(token, creator));
    }

    /// The number of batches ever opened.
    pub fn batch_count(&self) -> (r: u64)
        ensures
            r == self.batch_counter,
    {
        self.batch_counter
    }

    /// The batch size at which settlement becomes possible.
    pub fn optimal_batch_size(&self) -> (r: u32)
        ensures
            r == self.config.optimal_batch_size,
    {
        self.config.optimal_batch_size
    }

    /// True if `batch` is ready for settlement at `now`: it holds the
    /// optimal number of tips, or its window has passed.
    pub open spec fn ready(&self, now: u64, batch: AggregationBatch) -> bool {
        batch.tip_count >= self.config.optimal_batch_size || now >= batch.opened_at
            + self.config.batch_window_seconds
    }

    /// Whether `batch` is ready for settlement at `now`.
    pub fn is_ready_to_settle(&self, now: u64, batch: &AggregationBatch) -> (r: bool)
        requires
            batch.tip_count < self.config.optimal_batch_size ==> batch.opened_at
                + self.config.batch_window_seconds <= u64::MAX,
        ensures
            r == self.ready(now, *batch),
    {
        batch.tip_count >= self.config.optimal_batch_size || now >= batch.opened_at
            + self.config.batch_window_seconds
    }

    /// The open batch that a tip for `(token, creator)` at `now` goes into:
    /// the pair's open batch, or the one `queue_tip` opens.
    pub open spec fn target_batch(&self, now: u64, token: u64, creator: u64) -> AggregationBatch {
        match self.open_batch_of(token, creator) {
            Some(b) => b,
            None => AggregationBatch {
                id: (self.batch_counter + 1) as u64,
                token,
                creator,
                total_queued: 0,
                tip_count: 0,
                status: BatchStatus::Open,
                opened_at: now,
                closed_at: None,
                fee_collected: 0,
            },
        }
    }

    /// The error `queue_tip` answers, if any.
    pub open spec fn queue_error(&self, now: u64, token: u64, creator: u64, amount: i128) -> Option<
        AggregationError,
    > {
        if amount <= 0 {
            Some(AggregationError::InvalidAmount)
        } else if !self.is_whitelisted(token) {
            Some(AggregationError::TokenNotWhitelisted)
        } else if !self.config.enabled {
            Some(AggregationError::AggregationDisabled)
        } else if self.target_batch(now, token, creator).tip_count >= self.config.max_batch_size {
            Some(AggregationError::AggregationBatchFull)
        } else {
            None
        }
    }

    /// Queues a tip of `amount` from `tipper` to `creator` into the open
    /// batch of `(token, creator)`, opening one if there is none. The tip is
    /// paid into escrow at once. Returns `(batch_id, tip_index)` and the
    /// payment.
    pub fn queue_tip(&mut self, now: u64, tipper: u64, creator: u64, token: u64, amount: i128) -> (r:
        Result<((u64, u32), Transfer), AggregationError>)
        requires
            old(self).open_batch_of(token, creator) is None ==> old(self).batch_counter < u64::MAX,
            amount > 0 ==> old(self).target_batch(now, token, creator).total_queued + amount
                <= i128::MAX,
        ensures
            r is Err <==> old(self).queue_error(now, token, creator, amount) is Some,
            r matches Err(e) ==> Some(e) == old(self).queue_error(now, token, creator, amount)
                && *final(self) == *old(self),
            r matches Ok((ids, t)) ==> {
                let b = old(self).target_batch(now, token, creator);
                let nb = AggregationBatch {
                    total_queued: (b.total_queued + amount) as i128,
                    tip_count: (b.tip_count + 1) as u32,
                    ..b
                };
                &&& ids == (b.id, b.tip_count)
                &&& t == (Transfer { token, from: tipper, to: old(self).contract, amount })
                &&& final(self).batches@ == old(self).batches@.insert(b.id as u128, nb)
                &&& if old(self).open_batch_of(token, creator) is None {
                    &&& final(self).open_batches@ == old(self).open_batches@.insert(pair(token, creator), b.id)
                    &&& final(self).batch_counter == b.id
                } else {
                    &&& final(self).open_batches@ == old(self).open_batches@
                    &&& final(self).batch_counter == old(self).batch_counter
                }
                &&& final(self).queued@ == old(self).queued@.insert(
                    tip_key(b.id, b.tip_count),
                    QueuedTip {
                        batch_id: b.id,
                        index: b.tip_count,
                        tipper,
                        amount,
                        queued_at: now,
                        refunded: false,
                    },
                )
                &&& final(self).tipper_log@ == old(self).tipper_log@.push((b.id, tipper, b.tip_count))
                &&& final(self).events@ == old(self).events@.push(
                    AggregationEvent::Queued { tipper, creator, token, amount, batch_id: b.id, tip_index: b.tip_count },
                )
                &&& *final(self) == (Aggregator {
                    events: final(self).events,
                    batch_counter: final(self).batch_counter,
                    batches: final(self).batches,
                    open_batches: final(self).open_batches,
                    queued: final(self).queued,
                    tipper_log: final(self).tipper_log,
                    ..*old(self)
                })
            },
    {
        if amount <= 0 {
            return Err(AggregationError::InvalidAmount);
        }
        let whitelisted = match self.whitelist.get(token as u128) {
            Some(w) => w,
            None => false,
        };
        if !whitelisted {
            return Err(AggregationError::TokenNotWhitelisted);
        }
        if !self.config.enabled {
            return Err(AggregationError::AggregationDisabled);
        }
        let existing = self.get_open_batch(token, creator);
        let current_count = match existing {
            Some(b) => b.tip_count,
            None => 0,
        };
        if current_count >= self.config.max_batch_size {
            return Err(AggregationError::AggregationBatchFull);
        }
        let mut current_batch = match existing {
            Some(b) => b,
            None => self.open_batch(now, token, creator),
        };
        let tip_index = current_batch.tip_count;
        let batch_id = current_batch.id;
        self.queued.set(
            pair_key(batch_id, tip_index as u64),
            QueuedTip { batch_id, index: tip_index, tipper, amount, queued_at: now, refunded: false },
        );
        self.tipper_log.push((batch_id, tipper, tip_index));
        current_batch.total_queued = current_batch.total_queued + amount;
        current_batch.tip_count = current_batch.tip_count + 1;
        self.batches.set(batch_id as u128, current_batch);
        self.events.push(AggregationEvent::Queued { tipper, creator, token, amount, batch_id, tip_index });
        Ok(((batch_id, tip_index), Transfer { token, from: tipper, to: self.contract, amount }))
    }

    /// The error `cancel_queued_tip` answers, if any.
    pub open spec fn cancel_tip_error(&self, tipper: u64, batch_id: u64, tip_index: u32) -> Option<
        AggregationError,
    > {
        let k = tip_key(batch_id, tip_index);
        if !self.queued@.contains_key(k) {
            Some(AggregationError::AggregationTipNotFound)
        } else if self.queued@[k].tipper != tipper {
            Some(AggregationError::Unauthorized)
        } else if self.queued@[k].refunded {
            Some(AggregationError::AggregationTipAlreadyRefunded)
        } else if !self.batches@.contains_key(batch_id as u128) {
            Some(AggregationError::AggregationBatchNotFound)
        } else if self.batches@[batch_id as u128].status == BatchStatus::Settled {
            Some(AggregationError::AggregationBatchAlreadySettled)
        } else {
            None
        }
    }

    /// Cancels the tip at `tip_index` of `batch_id`, which only its tipper
    /// may do before the batch is settled: the tip is marked refunded, the
    /// batch total drops by its amount (saturating) and the amount goes back
    /// to the tipper.
    pub fn cancel_queued_tip(&mut self, tipper: u64, batch_id: u64, tip_index: u32) -> (r: Result<
        Transfer,
        AggregationError,
    >)
        ensures
            r is Err <==> old(self).cancel_tip_error(tipper, batch_id, tip_index) is Some,
            r matches Err(e) ==> Some(e) == old(self).cancel_tip_error(tipper, batch_id, tip_index)
                && *final(self) == *old(self),
            r matches Ok(t) ==> {
                let k = tip_key(batch_id, tip_index);
                let q = old(self).queued@[k];
                let b = old(self).batches@[batch_id as u128];
                let diff = b.total_queued - q.amount;
                let total = if diff > i128::MAX {
                    i128::MAX
                } else if diff < i128::MIN {
                    i128::MIN
                } else {
                    diff as i128
                };
                &&& t == (Transfer { token: b.token, from: old(self).contract, to: tipper, amount: q.amount })
                &&& final(self).queued@ == old(self).queued@.insert(k, QueuedTip { refunded: true, ..q })
                &&& final(self).batches@ == old(self).batches@.insert(
                    batch_id as u128,
                    AggregationBatch { total_queued: total, ..b },
                )
                &&& final(self).events@ == old(self).events@.push(
                    AggregationEvent::TipCancelled { tipper, batch_id, tip_index, amount: q.amount },
                )
                &&& *final(self) == (Aggregator {
                    events: final(self).events,
                    batches: final(self).batches,
                    queued: final(self).queued,
                    ..*old(self)
                })
            },
    {
        let k = pair_key(batch_id, tip_index as u64);
        let queued = match self.queued.get(k) {
            Some(q) => q,
            None => {
                return Err(AggregationError::AggregationTipNotFound);
            },
        };
        if queued.tipper != tipper {
            return Err(AggregationError::Unauthorized);
        }
        if queued.refunded {
            return Err(AggregationError::AggregationTipAlreadyRefunded);
        }
        let current_batch = match self.batches.get(batch_id as u128) {
            Some(b) => b,
            None => {
                return Err(AggregationError::AggregationBatchNotFound);
            },
        };
        if current_batch.status == BatchStatus::Settled {
            return Err(AggregationError::AggregationBatchAlreadySettled);
        }
        self.queued.set(k, QueuedTip { refunded: true, ..queued });
        let total = match current_batch.total_queued.checked_sub(queued.amount) {
            Some(d) => d,
            None => if queued.amount > 0 { i128::MIN } else { i128::MAX },
        };
        self.batches.set(batch_id as u128, AggregationBatch { total_queued: total, ..current_batch });
        self.events.push(AggregationEvent::TipCancelled { tipper, batch_id, tip_index, amount: queued.amount });
        Ok(Transfer { token: current_batch.token, from: self.contract, to: tipper, amount: queued.amount })
    }

    /// The queued tip at `tip_index` of `batch_id`, if any.
    pub fn get_queued_tip(&self, batch_id: u64, tip_index: u32) -> (r: Option<QueuedTip>)
        ensures
            r == (if self.queued@.contains_key(tip_key(batch_id, tip_index)) {
                Some(self.queued@[tip_key(batch_id, tip_index)])
            } else {
                None::<QueuedTip>
            }),
    {
        self.queued.get(pair_key(batch_id, tip_index as u64))
    }

    /// The indices of the tips `tipper` queued in `batch_id`, in order.
    pub fn get_tipper_tips(&self, batch_id: u64, tipper: u64) -> (r: Vec<u32>)
        ensures
            r@ == tips_of(self.tipper_log@, batch_id, tipper),
    {
        let mut r: Vec<u32> = Vec::new();
        let mut i: usize = 0;
        while i < self.tipper_log.len()
            invariant
                0 <= i <= self.tipper_log@.len(),
                r@ == tips_of(self.tipper_log@.take(i as int), batch_id, tipper),
            decreases self.tipper_log@.len() - i,
        {
            proof {
                assert(self.tipper_log@.take(i + 1).drop_last() == self.tipper_log@.take(i as int));
            }
            let (b, t, idx) = self.tipper_log[i];
            if b == batch_id && t == tipper {
                r.push(idx);
            }
            i = i + 1;
        }
        proof {
            assert(self.tipper_log@.take(self.tipper_log@.len() as int) == self.tipper_log@);
        }
        r
    }

    /// The error `settle_batch` answers at `now`, if any.
    pub open spec fn settle_error(&self, now: u64, batch_id: u64) -> Option<AggregationError> {
        if !self.batches@.contains_key(batch_id as u128) {
            Some(AggregationError::AggregationBatchNotFound)
        } else if self.batches@[batch_id as u128].status != BatchStatus::Open {
            Some(AggregationError::AggregationBatchAlreadySettled)
        } else if !self.ready(now, self.batches@[batch_id as u128]) {
            Some(AggregationError::AggregationBatchNotReady)
        } else if self.settles_nothing(batch_id) {
            Some(AggregationError::AggregationBatchEmpty)
        } else {
            None
        }
    }

    /// No tip of `batch_id` is left to settle: none is included, or the
    /// included ones sum to zero.
    pub open spec fn settles_nothing(&self, batch_id: u64) -> bool {
        let n = self.batches@[batch_id as u128].tip_count as nat;
        queued_count(self.queued@, batch_id, n) == 0 || queued_sum(self.queued@, batch_id, n) == 0
    }

    /// The settlement fee on a gross amount.
    pub open spec fn fee_on(&self, gross: int) -> int {
        tdiv(gross * self.config.fee_bps, 10_000)
    }

    /// Settles open batch `batch_id` at `now` once it is ready: the included
    /// (not refunded) tips are summed, the aggregation fee is taken, the
    /// creator's balance is credited with the rest and the creator's total
    /// with the whole, and the batch is closed. A batch whose tips were all
    /// refunded is refused and left as it is.
    pub fn settle_batch(&mut self, now: u64, caller: u64, batch_id: u64) -> (r: Result<
        SettlementResult,
        AggregationError,
    >)
        requires
            old(self).batches@.contains_key(batch_id as u128) && old(self).batches@[batch_id as u128].status
                == BatchStatus::Open ==> old(self).batches@[batch_id as u128].tip_count
                < old(self).config.optimal_batch_size ==> old(self).batches@[batch_id as u128].opened_at
                + old(self).config.batch_window_seconds <= u64::MAX,
            old(self).settle_error(now, batch_id) is None || old(self).settle_error(now, batch_id) == Some(
                AggregationError::AggregationBatchEmpty,
            ) ==> sums_fit(
                old(self).queued@,
                batch_id,
                old(self).batches@[batch_id as u128].tip_count as nat,
            ),
            old(self).settle_error(now, batch_id) is None ==> {
                let b = old(self).batches@[batch_id as u128];
                let gross = queued_sum(old(self).queued@, batch_id, b.tip_count as nat);
                let fee = old(self).fee_on(gross);
                let k = pair(b.creator, b.token);
                &&& gross * old(self).config.fee_bps <= i128::MAX
                &&& gross * old(self).config.fee_bps >= i128::MIN
                &&& get_or(old(self).balances@, k, 0) + (gross - fee) <= i128::MAX
                &&& get_or(old(self).balances@, k, 0) + (gross - fee) >= i128::MIN
                &&& get_or(old(self).totals@, k, 0) + gross <= i128::MAX
                &&& get_or(old(self).totals@, k, 0) + gross >= i128::MIN
                &&& fee > 0 ==> get_or(old(self).fee_balances@, b.token as u128, 0) + fee <= i128::MAX
            },
        ensures
            r is Err <==> old(self).settle_error(now, batch_id) is Some,
            r matches Err(e) ==> Some(e) == old(self).settle_error(now, batch_id) && *final(self)
                == *old(self),
            r matches Ok(res) ==> {
                let b = old(self).batches@[batch_id as u128];
                let gross = queued_sum(old(self).queued@, batch_id, b.tip_count as nat);
                let count = queued_count(old(self).queued@, batch_id, b.tip_count as nat);
                let fee = old(self).fee_on(gross);
                let k = pair(b.creator, b.token);
                &&& final(self).open_batches@ == old(self).open_batches@.remove(pair(b.token, b.creator))
                &&& {
                    &&& res == (SettlementResult {
                        batch_id,
                        tip_count: count as u32,
                        creator_amount: (gross - fee) as i128,
                        fee_amount: fee as i128,
                        settled_at: now,
                    })
                    &&& res.creator_amount + res.fee_amount == gross
                    &&& final(self).batches@ == old(self).batches@.insert(
                        batch_id as u128,
                        AggregationBatch {
                            status: BatchStatus::Settled,
                            closed_at: Some(now),
                            fee_collected: fee as i128,
                            ..b
                        },
                    )
                    &&& final(self).balances@ == old(self).balances@.insert(
                        k,
                        (get_or(old(self).balances@, k, 0) + (gross - fee)) as i128,
                    )
                    &&& final(self).totals@ == old(self).totals@.insert(
                        k,
                        (get_or(old(self).totals@, k, 0) + gross) as i128,
                    )
                    &&& final(self).fee_balances@ == if fee > 0 {
                        old(self).fee_balances@.insert(
                            b.token as u128,
                            (get_or(old(self).fee_balances@, b.token as u128, 0) + fee) as i128,
                        )
                    } else {
                        old(self).fee_balances@
                    }
                    &&& final(self).events@ == old(self).events@.push(
                        AggregationEvent::Settled {
                            creator: b.creator,
                            token: b.token,
                            batch_id,
                            tip_count: res.tip_count,
                            creator_amount: res.creator_amount,
                            fee_amount: res.fee_amount,
                        },
                    )
                    &&& *final(self) == (Aggregator {
                        events: final(self).events,
                        batches: final(self).batches,
                        open_batches: final(self).open_batches,
                        balances: final(self).balances,
                        totals: final(self).totals,
                        fee_balances: final(self).fee_balances,
                        ..*old(self)
                    })
                }
            },
    {
        let mut agg_batch = match self.batches.get(batch_id as u128) {
            Some(b) => b,
            None => {
                return Err(AggregationError::AggregationBatchNotFound);
            },
        };
        if agg_batch.status != BatchStatus::Open {
            return Err(AggregationError::AggregationBatchAlreadySettled);
        }
        if !self.is_ready_to_settle(now, &agg_batch) {
            return Err(AggregationError::AggregationBatchNotReady);
        }
        let ghost q = self.queued@;
        let mut gross_total: i128 = 0;
        let mut included_count: u32 = 0;
        let mut i: u32 = 0;
        while i < agg_batch.tip_count
            invariant
                i <= agg_batch.tip_count,
                self.queued@ == q,
                sums_fit(q, batch_id, agg_batch.tip_count as nat),
                gross_total == queued_sum(q, batch_id, i as nat),
                included_count == queued_count(q, batch_id, i as nat),
                included_count <= i,
            decreases agg_batch.tip_count - i,
        {
            proof {
                assert(queued_sum(q, batch_id, (i + 1) as nat) <= i128::MAX);
                assert(queued_sum(q, batch_id, (i + 1) as nat) >= i128::MIN);
            }
            match self.queued.get(pair_key(batch_id, i as u64)) {
                Some(tip) => {
                    if !tip.refunded {
                        gross_total = gross_total + tip.amount;
                        included_count = included_count + 1;
                    }
                },
                None => {},
            }
            i = i + 1;
        }
        if included_count == 0 || gross_total == 0 {
            return Err(AggregationError::AggregationBatchEmpty);
        }
        proof {
            lemma_fee_sub_fits(gross_total as int, self.config.fee_bps as int);
        }
        let fee_amount = div_i128(gross_total * (self.config.fee_bps as i128), 10_000);
        let creator_amount = gross_total - fee_amount;
        let k = pair_key(agg_batch.creator, agg_batch.token);
        let existing_bal = match self.balances.get(k) {
            Some(v) => v,
            None => 0,
        };
        self.balances.set(k, existing_bal + creator_amount);
        let existing_tot = match self.totals.get(k) {
            Some(v) => v,
            None => 0,
        };
        self.totals.set(k, existing_tot + gross_total);
        if fee_amount > 0 {
            let existing_fee = match self.fee_balances.get(agg_batch.token as u128) {
                Some(v) => v,
                None => 0,
            };
            self.fee_balances.set(agg_batch.token as u128, existing_fee + fee_amount);
        }
        agg_batch.status = BatchStatus::Settled;
        agg_batch.closed_at = Some(now);
        agg_batch.fee_collected = fee_amount;
        self.batches.set(batch_id as u128, agg_batch);
        self.open_batches.remove(pair_key(agg_batch.token, agg_batch.creator));
        self.events.push(
            AggregationEvent::Settled {
                creator: agg_batch.creator,
                token: agg_batch.token,
                batch_id,
                tip_count: included_count,
                creator_amount,
                fee_amount,
            },
        );
        Ok(
            SettlementResult {
                batch_id,
                tip_count: included_count,
                creator_amount,
                fee_amount,
                settled_at: now,
            },
        )
    }

    /// The error `cancel_batch` answers, if any.
    pub open spec fn cancel_batch_error(&self, admin: u64, batch_id: u64) -> Option<AggregationError> {
        if self.admin != Some(admin) {
            Some(AggregationError::Unauthorized)
        } else if !self.batches@.contains_key(batch_id as u128) {
            Some(AggregationError::AggregationBatchNotFound)
        } else if self.batches@[batch_id as u128].status != BatchStatus::Open {
            Some(AggregationError::AggregationBatchAlreadySettled)
        } else {
            None
        }
    }

    /// Cancels open batch `batch_id` at `now` (admin only): every tip not
    /// yet refunded is marked refunded and paid back to its tipper, in index
    /// order, and the batch is closed. Returns the number of refunds and the
    /// refund payments.
    pub fn cancel_batch(&mut self, now: u64, admin: u64, batch_id: u64) -> (r: Result<
        (u32, Vec<Transfer>),
        AggregationError,
    >)
        ensures
            r is Err <==> old(self).cancel_batch_error(admin, batch_id) is Some,
            r matches Err(e) ==> Some(e) == old(self).cancel_batch_error(admin, batch_id)
                && *final(self) == *old(self),
            r matches Ok((count, ts)) ==> {
                let b = old(self).batches@[batch_id as u128];
                let n = b.tip_count as nat;
                &&& count == queued_count(old(self).queued@, batch_id, n)
                &&& ts@ == refunds(old(self).queued@, batch_id, n, b.token, old(self).contract)
                &&& final(self).queued@ == mark_refunded(old(self).queued@, batch_id, n)
                &&& final(self).batches@ == old(self).batches@.insert(
                    batch_id as u128,
                    AggregationBatch { status: BatchStatus::Cancelled, closed_at: Some(now), ..b },
                )
                &&& final(self).open_batches@ == old(self).open_batches@.remove(pair(b.token, b.creator))
                &&& final(self).events@ == old(self).events@.push(
                    AggregationEvent::BatchCancelled { admin, batch_id, refunded_count: count },
                )
                &&& *final(self) == (Aggregator {
                    events: final(self).events,
                    batches: final(self).batches,
                    open_batches: final(self).open_batches,
                    queued: final(self).queued,
                    ..*old(self)
                })
            },
    {
        match self.admin {
            Some(a) => {
                if a != admin {
                    return Err(AggregationError::Unauthorized);
                }
            },
            None => {
                return Err(AggregationError::Unauthorized);
            },
        }
        let mut agg_batch = match self.batches.get(batch_id as u128) {
            Some(b) => b,
            None => {
                return Err(AggregationError::AggregationBatchNotFound);
            },
        };
        if agg_batch.status != BatchStatus::Open {
            return Err(AggregationError::AggregationBatchAlreadySettled);
        }
        let ghost s0 = *old(self);
        let mut refunded_count: u32 = 0;
        let mut transfers: Vec<Transfer> = Vec::new();
        let mut i: u32 = 0;
        while i < agg_batch.tip_count
            invariant
                i <= agg_batch.tip_count,
                agg_batch == s0.batches@[batch_id as u128],
                self.queued@ == mark_refunded(s0.queued@, batch_id, i as nat),
                transfers@ == refunds(s0.queued@, batch_id, i as nat, agg_batch.token, s0.contract),
                refunded_count == queued_count(s0.queued@, batch_id, i as nat),
                refunded_count <= i,
                *self == (Aggregator { queued: self.queued, ..s0 }),
            decreases agg_batch.tip_count - i,
        {
            let k = pair_key(batch_id, i as u64);
            proof {
                lemma_tip_key_distinct(batch_id, i as int, i as nat);
                lemma_mark_refunded_outside(s0.queued@, batch_id, i as nat, k);
            }
            match self.queued.get(k) {
                Some(tip) => {
                    if !tip.refunded {
                        self.queued.set(k, QueuedTip { refunded: true, ..tip });
                        transfers.push(
                            Transfer {
                                token: agg_batch.token,
                                from: self.contract,
                                to: tip.tipper,
                                amount: tip.amount,
                            },
                        );
                        refunded_count = refunded_count + 1;
                    }
                },
                None => {},
            }
            i = i + 1;
        }
        agg_batch.status = BatchStatus::Cancelled;
        agg_batch.closed_at = Some(now);
        self.batches.set(batch_id as u128, agg_batch);
        self.open_batches.remove(pair_key(agg_batch.token, agg_batch.creator));
        self.events.push(AggregationEvent::BatchCancelled { admin, batch_id, refunded_count });
        Ok((refunded_count, transfers))
    }

    fn next_batch_id(&mut self) -> (id: u64)
        requires
            old(self).batch_counter < u64::MAX,
        ensures
            id == old(self).batch_counter + 1,
            *final(self) == (Aggregator { batch_counter: id, ..*old(self) }),
    {
        let next = self.batch_counter + 1;
        self.batch_counter = next;
        next
    }
}

} // verus!
