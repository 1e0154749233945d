//! The tip jar: escrowed tips per (creator, token), a protocol fee, payout
//! addresses with a delay, operator allowances, a two-step admin handover,
//! a timelocked upgrade, and a circuit breaker with admin and guardian pauses.
//!
//! Addresses, tokens and contracts are identified by `u64` ids. A call takes
//! the current ledger sequence where the contract reads it, and on success
//! returns the token transfers for the host to perform and the events to
//! publish. A failed call leaves the jar unchanged.
use vstd::prelude::*;
use crate::common::Transfer;
use crate::num::tdiv;
use crate::table::{Table, pair, pair_key, get_or, lemma_pair_injective};

verus! {

/// Ledgers between proposing a payout address and its taking effect (~1 day).
pub const PAYOUT_DELAY_LEDGERS: u32 = 17280;
/// Basis-point denominator for fee math.
pub const BPS_DENOMINATOR: i128 = 10_000;
/// Hard ceiling of the protocol fee: 10%.
pub const MAX_FEE_BPS: u32 = 1_000;
/// Storage schema version of this build.
pub const DATA_VERSION: u32 = 1;
/// Largest number of tokens in the allowlist.
pub const MAX_ALLOWED_TOKENS: usize = 50;
/// Default lifetime of a guardian pause (~1 day).
pub const DEFAULT_GUARDIAN_PAUSE_DURATION_LEDGERS: u32 = 17280;
/// Pause bit that blocks `tip`.
pub const PAUSE_FLAG_TIPS: u32 = 1;
/// Pause bit that blocks `withdraw` and the withdrawal-mechanics calls.
pub const PAUSE_FLAG_WITHDRAWALS: u32 = 2;
/// Both pause bits.
pub const PAUSE_FLAG_ALL: u32 = 3;

/// Errors of the tip jar, each with its contract error code (`code`).
#[derive(Clone, Copy, Debug, PartialEq, Eq)]
pub enum Error {
    AlreadyInitialized,
    NotInitialized,
    InvalidAmount,
    NothingToWithdraw,
    InvalidOperator,
    OperatorExpired,
    InsufficientAllowance,
    PendingPayoutChangeActive,
    NoPendingPayoutChange,
    InvalidTarget,
    Unauthorized,
    NoPendingAdmin,
    InvalidTimelock,
    UpgradeAlreadyPending,
    NoPendingUpgrade,
    TimelockNotElapsed,
    TipsPaused,
    WithdrawalsPaused,
    InvalidDuration,
    InvalidFee,
    FeeOverflow,
    NotFeeCollector,
    TokenNotAllowed,
    TokenAlreadyExists,
    MaxTokensReached,
    NoPendingFeeCollector,
}

impl Error {
    /// The contract error code of this error.
    pub fn code(&self) -> (c: u32)
        ensures
            c == match *self {
                Error::AlreadyInitialized => 1u32,
                Error::NotInitialized => 2,
                Error::InvalidAmount => 3,
                Error::NothingToWithdraw => 4,
                Error::InvalidOperator => 5,
                Error::OperatorExpired => 6,
                Error::InsufficientAllowance => 7,
                Error::PendingPayoutChangeActive => 8,
                Error::NoPendingPayoutChange => 9,
                Error::InvalidTarget => 10,
                Error::Unauthorized => 11,
                Error::NoPendingAdmin => 12,
                Error::InvalidTimelock => 13,
                Error::UpgradeAlreadyPending => 14,
                Error::NoPendingUpgrade => 15,
                Error::TimelockNotElapsed => 16,
                Error::TipsPaused => 17,
                Error::WithdrawalsPaused => 18,
                Error::InvalidDuration => 19,
                Error::InvalidFee => 20,
                Error::FeeOverflow => 21,
                Error::NotFeeCollector => 22,
                Error::TokenNotAllowed => 23,
                Error::TokenAlreadyExists => 24,
                Error::MaxTokensReached => 25,
                Error::NoPendingFeeCollector => 26,
            },
    {
        match self {
            Error::AlreadyInitialized => 1,
            Error::NotInitialized => 2,
            Error::InvalidAmount => 3,
            Error::NothingToWithdraw => 4,
            Error::InvalidOperator => 5,
            Error::OperatorExpired => 6,
            Error::InsufficientAllowance => 7,
            Error::PendingPayoutChangeActive => 8,
            Error::NoPendingPayoutChange => 9,
            Error::InvalidTarget => 10,
            Error::Unauthorized => 11,
            Error::NoPendingAdmin => 12,
            Error::InvalidTimelock => 13,
            Error::UpgradeAlreadyPending => 14,
            Error::NoPendingUpgrade => 15,
            Error::TimelockNotElapsed => 16,
            Error::TipsPaused => 17,
            Error::WithdrawalsPaused => 18,
            Error::InvalidDuration => 19,
            Error::InvalidFee => 20,
            Error::FeeOverflow => 21,
            Error::NotFeeCollector => 22,
            Error::TokenNotAllowed => 23,
            Error::TokenAlreadyExists => 24,
            Error::MaxTokensReached => 25,
            Error::NoPendingFeeCollector => 26,
        }
    }
}

/// Circuit-breaker state: admin bits persist until an admin unpause;
/// guardian bits lapse at `guardian_expiry`.
#[derive(Clone, Copy, Debug, PartialEq, Eq)]
pub struct PauseState {
    pub admin_flags: u32,
    pub guardian_flags: u32,
    pub guardian_expiry: u32,
}

/// A storage migration from one data version to another.
#[derive(Clone, Copy, Debug, PartialEq, Eq)]
pub struct Migrated {
    pub from_version: u32,
    pub to_version: u32,
}

/// Events the jar publishes.
#[derive(Clone, Copy, Debug, PartialEq, Eq)]
pub enum TipJarEvent {
    Tip { creator: u64, token: u64, sender: u64, amount: i128 },
    Withdraw { creator: u64, token: u64, amount: i128, to: u64 },
    PayoutChangeProposed { creator: u64, new_payout: u64, effective_ledger: u32 },
    PayoutChangeApplied { creator: u64, new_payout: u64 },
    PayoutChangeCancelled { creator: u64 },
    OperatorAuthorized { creator: u64, operator: u64, allowance: i128, expiry_ledger: u32 },
    OperatorRevoked { creator: u64, operator: u64 },
    AdminTransferProposed { current_admin: u64, new_admin: u64 },
    AdminTransferAccepted { new_admin: u64 },
    AdminTransferCancelled { admin: u64 },
    UpgradeProposed { hash: [u8; 32], unlock_ledger: u32 },
    UpgradeExecuted { hash: [u8; 32] },
    UpgradeCancelled { hash: [u8; 32] },
    Migrated(Migrated),
    Paused { by: u64, flags: u32 },
    Unpaused { by: u64, flags: u32 },
    GuardianUpdated { admin: u64, guardian: u64 },
    FeeCharged { creator: u64, gross: i128, fee: i128, net: i128 },
    FeeConfigured { admin: u64, bps: u32 },
    FeeCollectorProposed { admin: u64, new_collector: u64 },
    FeeCollectorAccepted { new_collector: u64 },
    FeeCollectorCancelled { admin: u64 },
    FeeWithdraw { collector: u64, amount: i128 },
}

/// What a successful call asks of its host.
#[derive(Debug)]
pub struct Effects {
    pub transfers: Vec<Transfer>,
    pub events: Vec<TipJarEvent>,
}

/// Single-valued settings of the jar; `None` is an absent entry.
#[derive(Clone, Copy, Debug, PartialEq, Eq)]
pub struct Config {
    /// The token accepted before multi-token support (set at `init`).
    pub legacy_token: Option<u64>,
    pub admin: Option<u64>,
    pub pending_admin: Option<u64>,
    pub upgrade_timelock: Option<u32>,
    pub pending_upgrade: Option<([u8; 32], u32)>,
    pub data_version: Option<u32>,
    pub guardian: Option<u64>,
    pub pause: Option<PauseState>,
    pub guardian_pause_duration: Option<u32>,
    pub fee_bps: Option<u32>,
    pub fee_collector: Option<u64>,
    /// A collector proposed to replace `fee_collector`, until it accepts.
    pub pending_fee_collector: Option<u64>,
    /// Fee counter kept from before per-token fee balances.
    pub legacy_fee_balance: Option<i128>,
}

/// The jar's whole state.
pub struct TipJar {
    /// This contract's own address, which holds the escrow.
    pub contract: u64,
    pub config: Config,
    /// Tokens the jar accepts, in the order they were added.
    pub allowed_tokens: Vec<u64>,
    /// Balances kept per creator before multi-token support.
    pub legacy_balances: Table<i128>,
    /// Totals kept per creator before multi-token support.
    pub legacy_totals: Table<i128>,
    /// Withdrawable balance per `pair(creator, token)`.
    pub balances: Table<i128>,
    /// Gross total ever tipped per `pair(creator, token)`.
    pub totals: Table<i128>,
    /// Accrued protocol fees per token.
    pub fee_balances: Table<i128>,
    /// Payout address per creator.
    pub payouts: Table<u64>,
    /// Pending payout change per creator: (new payout, effective ledger).
    pub pending_payouts: Table<(u64, u32)>,
    /// Operator allowance per `pair(creator, operator)`: (allowance, expiry ledger).
    pub operators: Table<(i128, u32)>,
}

/// `floor(amount * bps / 10_000)` rounded toward zero; 0 when `bps` is 0.
pub open spec fn fee_spec(amount: int, bps: int) -> int {
    if bps == 0 { 0 } else { tdiv(amount * bps, 10000) }
}

/// The inputs on which the fee can be computed without overflow.
pub open spec fn fee_defined(amount: int, bps: int) -> bool {
    bps == 0 || i128::MIN <= amount * bps <= i128::MAX
}

/// The fee never exceeds the amount and is not negative, for a positive
/// amount and a rate within the on-chain cap.
pub proof fn lemma_fee_bounds(amount: int, bps: int)
    requires
        amount > 0,
        0 <= bps <= MAX_FEE_BPS,
    ensures
        0 <= fee_spec(amount, bps) <= amount,
        0 <= amount - fee_spec(amount, bps),
{
    if bps != 0 {
        assert(0 <= amount * bps) by (nonlinear_arith)
            requires amount > 0, bps >= 0;
        crate::num::lemma_tdiv_nonneg(amount * bps, 10000);
        assert((amount * bps) / 10000 <= amount) by (nonlinear_arith)
            requires amount > 0, 0 <= bps <= 1000;
    }
}

/// Computes the fee on `amount` at `bps`; `None` where the contract
/// reports a fee overflow.
fn fee_for(amount: i128, bps: u32) -> (r: Option<i128>)
    ensures
        r is Some <==> fee_defined(amount as int, bps as int),
        r matches Some(f) ==> f == fee_spec(amount as int, bps as int),
{
    if bps == 0 {
        return Some(0);
    }
    match amount.checked_mul(bps as i128) {
        Some(p) => {
            match p.checked_div(BPS_DENOMINATOR) {
                Some(q) => Some(q),
                None => None,
            }
        },
        None => None,
    }
}

/// The effective pause bits at `ledger`: admin bits, plus guardian bits
/// until they lapse.
pub open spec fn effective_flags_spec(s: PauseState, ledger: u32) -> u32 {
    if s.guardian_flags != 0 && ledger < s.guardian_expiry {
        s.admin_flags | s.guardian_flags
    } else {
        s.admin_flags
    }
}

/// The pause state an absent entry stands for.
pub open spec fn pause_or_default(p: Option<PauseState>) -> PauseState {
    match p {
        Some(s) => s,
        None => PauseState { admin_flags: 0, guardian_flags: 0, guardian_expiry: 0 },
    }
}

/// What a successful tip of `amount` from `sender` to `creator` in `token`
/// does to the ledger and asks to move: the creator's balance grows by the
/// net amount, its total by the gross amount and the token's fee balance by
/// the fee (when a rate is set); nothing else on the ledger changes; the
/// gross amount moves from the sender to the contract.
pub open spec fn tip_step(
    j: TipJar,
    j2: TipJar,
    sender: u64,
    creator: u64,
    token: u64,
    amount: i128,
    transfers: Seq<Transfer>,
) -> bool {
    let rate = j.fee_rate() as int;
    let fee = fee_spec(amount as int, rate);
    &&& forall|c: u64, t: u64| #[trigger] j2.balance_of(c, t) == if c == creator && t == token {
        j.balance_of(c, t) + (amount - fee)
    } else {
        j.balance_of(c, t)
    }
    &&& forall|c: u64, t: u64| #[trigger] j2.total_of(c, t) == if c == creator && t == token {
        j.total_of(c, t) + amount
    } else {
        j.total_of(c, t)
    }
    &&& forall|t: u64| #[trigger] j2.fee_balance_of(t) == if t == token && rate > 0 {
        j.fee_balance_of(t) + fee
    } else {
        j.fee_balance_of(t)
    }
    &&& amount > 0
    &&& j2.contract == j.contract
    &&& transfers == seq![Transfer { token, from: sender, to: j.contract, amount }]
}

/// What a successful withdrawal of `amt` of `creator`'s `token` balance to
/// `payout` does to the ledger and asks to move: the balance drops by `amt`,
/// nothing else on the ledger changes, and `amt` moves from the contract to
/// `payout`.
pub open spec fn withdraw_step(
    j: TipJar,
    j2: TipJar,
    creator: u64,
    token: u64,
    amt: int,
    payout: u64,
    transfers: Seq<Transfer>,
) -> bool {
    &&& 0 < amt <= j.balance_of(creator, token)
    &&& forall|c: u64, t: u64| #[trigger] j2.balance_of(c, t) == if c == creator && t == token {
        j.balance_of(c, t) - amt
    } else {
        j.balance_of(c, t)
    }
    &&& forall|c: u64, t: u64| #[trigger] j2.total_of(c, t) == j.total_of(c, t)
    &&& forall|t: u64| #[trigger] j2.fee_balance_of(t) == j.fee_balance_of(t)
    &&& j2.contract == j.contract
    &&& transfers == seq![Transfer { token, from: j.contract, to: payout, amount: amt as i128 }]
}

/// What a successful withdrawal of `amt` of the `token` fees to `collector`
/// does to the ledger and asks to move: the fee balance drops by `amt`,
/// nothing else on the ledger changes, and `amt` moves from the contract to
/// the collector.
pub open spec fn fee_withdraw_step(
    j: TipJar,
    j2: TipJar,
    collector: u64,
    token: u64,
    amt: int,
    transfers: Seq<Transfer>,
) -> bool {
    &&& forall|t: u64| #[trigger] j2.fee_balance_of(t) == if t == token {
        j.fee_balance_of(t) - amt
    } else {
        j.fee_balance_of(t)
    }
    &&& forall|c: u64, t: u64| #[trigger] j2.balance_of(c, t) == j.balance_of(c, t)
    &&& forall|c: u64, t: u64| #[trigger] j2.total_of(c, t) == j.total_of(c, t)
    &&& j2.contract == j.contract
    &&& transfers == seq![Transfer { token, from: j.contract, to: collector, amount: amt as i128 }]
}

/// How much of `token` the transfers `ts` move into `contract`, less what
/// they move out of it.
pub open spec fn net_inflow(ts: Seq<Transfer>, contract: u64, token: u64) -> int
    decreases ts.len(),
{
    if ts.len() == 0 {
        0
    } else {
        let x = ts.last();
        let rest = net_inflow(ts.drop_last(), contract, token);
        if x.token != token || x.from == x.to {
            rest
        } else if x.to == contract {
            rest + x.amount
        } else if x.from == contract {
            rest - x.amount
        } else {
            rest
        }
    }
}

/// The balances of `creators` in `token`, summed.
pub open spec fn balances_sum(j: TipJar, creators: Seq<u64>, token: u64) -> int
    decreases creators.len(),
{
    if creators.len() == 0 {
        0
    } else {
        balances_sum(j, creators.drop_last(), token) + j.balance_of(creators.last(), token)
    }
}

/// What the jar owes in `token` to `creators` and to the fee collector.
pub open spec fn owed(j: TipJar, creators: Seq<u64>, token: u64) -> int {
    balances_sum(j, creators, token) + j.fee_balance_of(token)
}

/// The withdrawal amount requested: the given amount, or the whole balance.
pub open spec fn requested(amount: Option<i128>, balance: int) -> int {
    match amount {
        Some(a) => a as int,
        None => balance,
    }
}

fn effective_flags(s: PauseState, ledger: u32) -> (r: u32)
    ensures
        r == effective_flags_spec(s, ledger),
{
    let mut effective = s.admin_flags;
    if s.guardian_flags != 0 && ledger < s.guardian_expiry {
        effective = effective | s.guardian_flags;
    }
    effective
}

impl TipJar {
    // ── abstract view ────────────────────────────────────────────────────

    /// True once `init` has run.
    pub open spec fn initialized(&self) -> bool {
        self.config.admin is Some
    }

    /// The pause state in force (an absent entry means nothing is paused).
    pub open spec fn pause_state(&self) -> PauseState {
        pause_or_default(self.config.pause)
    }

    /// The pause bits in force at `ledger`.
    pub open spec fn flags_at(&self, ledger: u32) -> u32 {
        effective_flags_spec(self.pause_state(), ledger)
    }

    /// True if `flag` is blocked at `ledger`.
    pub open spec fn blocked(&self, ledger: u32, flag: u32) -> bool {
        self.flags_at(ledger) & flag != 0
    }

    /// The configured fee rate (absent means no fee).
    pub open spec fn fee_rate(&self) -> u32 {
        match self.config.fee_bps {
            Some(b) => b,
            None => 0,
        }
    }

    /// True if a pre-multi-token balance for `creator` still waits to be
    /// moved under `token`.
    pub open spec fn has_legacy_balance(&self, creator: u64, token: u64) -> bool {
        self.config.legacy_token == Some(token) && self.legacy_balances@.contains_key(creator as u128)
    }

    /// True if a pre-multi-token total for `creator` still waits to be
    /// moved under `token`.
    pub open spec fn has_legacy_total(&self, creator: u64, token: u64) -> bool {
        self.config.legacy_token == Some(token) && self.legacy_totals@.contains_key(creator as u128)
    }

    /// The withdrawable balance of `creator` in `token`.
    pub open spec fn balance_of(&self, creator: u64, token: u64) -> int {
        if self.has_legacy_balance(creator, token) {
            self.legacy_balances@[creator as u128] as int
        } else {
            get_or(self.balances@, pair(creator, token), 0) as int
        }
    }

    /// The gross total ever tipped to `creator` in `token`.
    pub open spec fn total_of(&self, creator: u64, token: u64) -> int {
        if self.has_legacy_total(creator, token) {
            self.legacy_totals@[creator as u128] as int
        } else {
            get_or(self.totals@, pair(creator, token), 0) as int
        }
    }

    /// The part of the pre-per-token fee counter that belongs to `token`.
    pub open spec fn legacy_fee_for(&self, token: u64) -> int {
        match (self.config.legacy_fee_balance, self.config.legacy_token) {
            (Some(l), Some(t)) => if t == token { l as int } else { 0 },
            _ => 0,
        }
    }

    /// The accrued protocol fees in `token`.
    pub open spec fn fee_balance_of(&self, token: u64) -> int {
        get_or(self.fee_balances@, token as u128, 0) as int + self.legacy_fee_for(token)
    }

    /// The address a withdrawal for `creator` pays at `ledger`: a pending
    /// change once its ledger is reached, else the payout address, else the
    /// creator.
    pub open spec fn payout_at(&self, creator: u64, ledger: u32) -> u64 {
        if self.pending_payouts@.contains_key(creator as u128) && ledger
            >= self.pending_payouts@[creator as u128].1 {
            self.pending_payouts@[creator as u128].0
        } else {
            get_or(self.payouts@, creator as u128, creator)
        }
    }

    /// The ledger values of two jars agree for every creator and token.
    pub open spec fn same_ledger(&self, other: &TipJar) -> bool {
        &&& forall|c: u64, t: u64| #[trigger] self.balance_of(c, t) == other.balance_of(c, t)
        &&& forall|c: u64, t: u64| #[trigger] self.total_of(c, t) == other.total_of(c, t)
        &&& forall|t: u64| #[trigger] self.fee_balance_of(t) == other.fee_balance_of(t)
    }

    /// Two jars agree on everything but the ledger values.
    pub open spec fn same_settings(&self, other: &TipJar) -> bool {
        &&& self.contract == other.contract
        &&& self.config.admin == other.config.admin
        &&& self.config.pending_admin == other.config.pending_admin
        &&& self.config.upgrade_timelock == other.config.upgrade_timelock
        &&& self.config.pending_upgrade == other.config.pending_upgrade
        &&& self.config.data_version == other.config.data_version
        &&& self.config.guardian == other.config.guardian
        &&& self.config.pause == other.config.pause
        &&& self.config.guardian_pause_duration == other.config.guardian_pause_duration
        &&& self.config.fee_bps == other.config.fee_bps
        &&& self.config.fee_collector == other.config.fee_collector
        &&& self.config.pending_fee_collector == other.config.pending_fee_collector
        &&& self.config.legacy_token == other.config.legacy_token
        &&& self.allowed_tokens@ == other.allowed_tokens@
        &&& self.payouts@ == other.payouts@
        &&& self.pending_payouts@ == other.pending_payouts@
        &&& self.operators@ == other.operators@
    }

    /// Totals never decrease from `self` to `other`.
    pub open spec fn totals_grow_to(&self, other: &TipJar) -> bool {
        forall|c: u64, t: u64| #[trigger] other.total_of(c, t) >= self.total_of(c, t)
    }

    // ── construction ─────────────────────────────────────────────────────

    /// A freshly deployed, uninitialized jar at address `contract`.
    pub fn new(contract: u64) -> (j: TipJar)
        ensures
            j.contract == contract,
            !j.initialized(),
            j.config == (Config {
                legacy_token: None,
                admin: None,
                pending_admin: None,
                upgrade_timelock: None,
                pending_upgrade: None,
                data_version: None,
                guardian: None,
                pause: None,
                guardian_pause_duration: None,
                fee_bps: None,
                fee_collector: None,
                pending_fee_collector: None,
                legacy_fee_balance: None,
            }),
            j.allowed_tokens@.len() == 0,
            j.legacy_balances@ == Map::<u128, i128>::empty(),
            j.legacy_totals@ == Map::<u128, i128>::empty(),
            j.balances@ == Map::<u128, i128>::empty(),
            j.totals@ == Map::<u128, i128>::empty(),
            j.fee_balances@ == Map::<u128, i128>::empty(),
            j.payouts@ == Map::<u128, u64>::empty(),
            j.pending_payouts@ == Map::<u128, (u64, u32)>::empty(),
            j.operators@ == Map::<u128, (i128, u32)>::empty(),
    {
        TipJar {
            contract,
            config: Config {
                legacy_token: None,
                admin: None,
                pending_admin: None,
                upgrade_timelock: None,
                pending_upgrade: None,
                data_version: None,
                guardian: None,
                pause: None,
                guardian_pause_duration: None,
                fee_bps: None,
                fee_collector: None,
                pending_fee_collector: None,
                legacy_fee_balance: None,
            },
            allowed_tokens: Vec::new(),
            legacy_balances: Table::new(),
            legacy_totals: Table::new(),
            balances: Table::new(),
            totals: Table::new(),
            fee_balances: Table::new(),
            payouts: Table::new(),
            pending_payouts: Table::new(),
            operators: Table::new(),
        }
    }

    /// One-time configuration: the accepted token (first entry of the
    /// allowlist), the admin, and the upgrade timelock.
    pub fn init(&mut self, token: u64, admin: u64, upgrade_timelock_ledgers: u32) -> (r: Result<
        Effects,
        Error,
    >)
        ensures
            old(self).initialized() ==> r == Err::<Effects, Error>(Error::AlreadyInitialized),
            !old(self).initialized() && upgrade_timelock_ledgers == 0 ==> r == Err::<
                Effects,
                Error,
            >(Error::InvalidTimelock),
            r is Err ==> *final(self) == *old(self),
            !old(self).initialized() && upgrade_timelock_ledgers != 0 ==> {
                &&& (r matches Ok(e) && e.transfers@.len() == 0 && e.events@.len() == 0)
                &&& final(self).config == (Config {
                    legacy_token: Some(token),
                    admin: Some(admin),
                    upgrade_timelock: Some(upgrade_timelock_ledgers),
                    data_version: Some(DATA_VERSION),
                    ..old(self).config
                })
                &&& final(self).allowed_tokens@ == seq![token]
                &&& final(self).contract == old(self).contract
                &&& final(self).legacy_balances@ == old(self).legacy_balances@
                &&& final(self).legacy_totals@ == old(self).legacy_totals@
                &&& final(self).balances@ == old(self).balances@
                &&& final(self).totals@ == old(self).totals@
                &&& final(self).fee_balances@ == old(self).fee_balances@
                &&& final(self).payouts@ == old(self).payouts@
                &&& final(self).pending_payouts@ == old(self).pending_payouts@
                &&& final(self).operators@ == old(self).operators@
            },
    {
        if self.config.admin.is_some() {
            return Err(Error::AlreadyInitialized);
        }
        if upgrade_timelock_ledgers == 0 {
            return Err(Error::InvalidTimelock);
        }
        self.config.legacy_token = Some(token);
        self.config.admin = Some(admin);
        self.config.upgrade_timelock = Some(upgrade_timelock_ledgers);
        self.config.data_version = Some(DATA_VERSION);
        let mut allowed = Vec::new();
        allowed.push(token);
        self.allowed_tokens = allowed;
        Ok(Effects { transfers: Vec::new(), events: Vec::new() })
    }

    // ── internal ledger access ───────────────────────────────────────────

    /// The balance of `creator` in `token`, read without moving legacy data.
    fn peek_balance(&self, creator: u64, token: u64) -> (r: i128)
        ensures
            r == self.balance_of(creator, token),
    {
        match self.config.legacy_token {
            Some(t) => {
                if t == token {
                    match self.legacy_balances.get(creator as u128) {
                        Some(v) => {
                            return v;
                        },
                        None => {},
                    }
                }
            },
            None => {},
        }
        match self.balances.get(pair_key(creator, token)) {
            Some(v) => v,
            None => 0,
        }
    }

    /// The total of `creator` in `token`, read without moving legacy data.
    fn peek_total(&self, creator: u64, token: u64) -> (r: i128)
        ensures
            r == self.total_of(creator, token),
    {
        match self.config.legacy_token {
            Some(t) => {
                if t == token {
                    match self.legacy_totals.get(creator as u128) {
                        Some(v) => {
                            return v;
                        },
                        None => {},
                    }
                }
            },
            None => {},
        }
        match self.totals.get(pair_key(creator, token)) {
            Some(v) => v,
            None => 0,
        }
    }

    /// Lazy migration: moves `creator`'s pre-multi-token balance and total
    /// under `token` when `token` is the legacy token. Ledger values are
    /// unchanged; only where they are kept changes.
    fn migrate_creator_data(&mut self, creator: u64, token: u64)
        ensures
            final(self).same_settings(old(self)),
            final(self).config == old(self).config,
            final(self).same_ledger(old(self)),
            final(self).fee_balances@ == old(self).fee_balances@,
            !final(self).has_legacy_balance(creator, token),
            !final(self).has_legacy_total(creator, token),
    {
        match self.config.legacy_token {
            Some(t) => {
                if t != token {
                    return ;
                }
            },
            None => {
                return ;
            },
        }
        let ck = creator as u128;
        let k = pair_key(creator, token);
        let ghost old_self = *old(self);
        match self.legacy_balances.get(ck) {
            Some(v) => {
                self.balances.set(k, v);
                self.legacy_balances.remove(ck);
            },
            None => {},
        }
        match self.legacy_totals.get(ck) {
            Some(v) => {
                self.totals.set(k, v);
                self.legacy_totals.remove(ck);
            },
            None => {},
        }
        assert forall|c: u64, t2: u64| #[trigger] self.balance_of(c, t2) == old_self.balance_of(c, t2) by {
            lemma_pair_injective(c, t2, creator, token);
        }
        assert forall|c: u64, t2: u64| #[trigger] self.total_of(c, t2) == old_self.total_of(c, t2) by {
            lemma_pair_injective(c, t2, creator, token);
        }
    }

    /// Stores `v` as the balance of `creator` in `token`.
    fn set_balance(&mut self, creator: u64, token: u64, v: i128)
        requires
            !old(self).has_legacy_balance(creator, token),
        ensures
            final(self).same_settings(old(self)),
            final(self).config == old(self).config,
            forall|c: u64, t: u64| #[trigger] final(self).balance_of(c, t) == if c == creator && t == token {
                v as int
            } else {
                old(self).balance_of(c, t)
            },
            forall|c: u64, t: u64| #[trigger] final(self).total_of(c, t) == old(self).total_of(c, t),
            forall|t: u64| #[trigger] final(self).fee_balance_of(t) == old(self).fee_balance_of(t),
            final(self).fee_balances@ == old(self).fee_balances@,
            final(self).legacy_balances@ == old(self).legacy_balances@,
            final(self).legacy_totals@ == old(self).legacy_totals@,
            final(self).totals@ == old(self).totals@,
    {
        let ghost old_self = *old(self);
        self.balances.set(pair_key(creator, token), v);
        assert forall|c: u64, t: u64| #[trigger] self.balance_of(c, t) == (if c == creator && t
            == token {
            v as int
        } else {
            old_self.balance_of(c, t)
        }) by {
            lemma_pair_injective(c, t, creator, token);
        }
    }

    /// Stores `v` as the total of `creator` in `token`.
    fn set_total(&mut self, creator: u64, token: u64, v: i128)
        requires
            !old(self).has_legacy_total(creator, token),
        ensures
            final(self).same_settings(old(self)),
            final(self).config == old(self).config,
            forall|c: u64, t: u64| #[trigger] final(self).total_of(c, t) == if c == creator && t == token {
                v as int
            } else {
                old(self).total_of(c, t)
            },
            forall|c: u64, t: u64| #[trigger] final(self).balance_of(c, t) == old(self).balance_of(c, t),
            forall|t: u64| #[trigger] final(self).fee_balance_of(t) == old(self).fee_balance_of(t),
            final(self).fee_balances@ == old(self).fee_balances@,
            final(self).legacy_balances@ == old(self).legacy_balances@,
            final(self).legacy_totals@ == old(self).legacy_totals@,
            final(self).balances@ == old(self).balances@,
    {
        let ghost old_self = *old(self);
        self.totals.set(pair_key(creator, token), v);
        assert forall|c: u64, t: u64| #[trigger] self.total_of(c, t) == (if c == creator && t
            == token {
            v as int
        } else {
            old_self.total_of(c, t)
        }) by {
            lemma_pair_injective(c, t, creator, token);
        }
    }

    /// The part of the legacy fee counter owed to `token`.
    fn legacy_fee_part(&self, token: u64) -> (r: i128)
        ensures
            r == self.legacy_fee_for(token),
    {
        match self.config.legacy_fee_balance {
            Some(l) => match self.config.legacy_token {
                Some(t) => if t == token { l } else { 0 },
                None => 0,
            },
            None => 0,
        }
    }

    /// The accrued fees in `token` in the representation `fee_balances`,
    /// without the legacy counter.
    fn stored_fee(&self, token: u64) -> (r: i128)
        ensures
            r == get_or(self.fee_balances@, token as u128, 0),
    {
        match self.fee_balances.get(token as u128) {
            Some(v) => v,
            None => 0,
        }
    }

    /// Moves the legacy fee counter under `token` (when it belongs there)
    /// and stores `v` as the fees accrued in `token`.
    fn set_fee_balance(&mut self, token: u64, v: i128)
        ensures
            final(self).same_settings(old(self)),
            final(self).config == (Config {
                legacy_fee_balance: if old(self).legacy_fee_for(token) != 0 || (
                old(self).config.legacy_fee_balance is Some && old(self).config.legacy_token
                    == Some(token)) {
                    None
                } else {
                    old(self).config.legacy_fee_balance
                },
                ..old(self).config
            }),
            forall|c: u64, t: u64| #[trigger] final(self).balance_of(c, t) == old(self).balance_of(c, t),
            forall|c: u64, t: u64| #[trigger] final(self).total_of(c, t) == old(self).total_of(c, t),
            forall|t: u64| #[trigger] final(self).fee_balance_of(t) == if t == token {
                v as int
            } else {
                old(self).fee_balance_of(t)
            },
    {
        match self.config.legacy_fee_balance {
            Some(_) => match self.config.legacy_token {
                Some(t) => if t == token {
                    self.config.legacy_fee_balance = None;
                },
                None => {},
            },
            None => {},
        }
        self.fee_balances.set(token as u128, v);
    }

    fn token_is_allowed(&self, token: u64) -> (r: bool)
        ensures
            r == self.allowed_tokens@.contains(token),
    {
        let mut i: usize = 0;
        while i < self.allowed_tokens.len()
            invariant
                0 <= i <= self.allowed_tokens@.len(),
                forall|j: int| 0 <= j < i ==> self.allowed_tokens@[j] != token,
            decreases self.allowed_tokens@.len() - i,
        {
            if self.allowed_tokens[i] == token {
                return true;
            }
            i = i + 1;
        }
        false
    }

    fn current_pause(&self) -> (r: PauseState)
        ensures
            r == self.pause_state(),
    {
        match self.config.pause {
            Some(s) => s,
            None => PauseState { admin_flags: 0, guardian_flags: 0, guardian_expiry: 0 },
        }
    }

    // ── tipping ──────────────────────────────────────────────────────────

    /// The error `tip` fails with, in the order the contract checks, or
    /// `None` when it succeeds.
    pub open spec fn tip_error(&self, ledger: u32, creator: u64, token: u64, amount: i128) -> Option<
        Error,
    > {
        let rate = self.fee_rate() as int;
        let fee = fee_spec(amount as int, rate);
        if self.blocked(ledger, PAUSE_FLAG_TIPS) {
            Some(Error::TipsPaused)
        } else if amount <= 0 {
            Some(Error::InvalidAmount)
        } else if !self.initialized() {
            Some(Error::NotInitialized)
        } else if !self.allowed_tokens@.contains(token) {
            Some(Error::TokenNotAllowed)
        } else if !fee_defined(amount as int, rate) {
            Some(Error::FeeOverflow)
        } else if !(i128::MIN <= self.balance_of(creator, token) + (amount - fee) <= i128::MAX) {
            Some(Error::InvalidAmount)
        } else if !(i128::MIN <= self.total_of(creator, token) + amount <= i128::MAX) {
            Some(Error::InvalidAmount)
        } else if rate > 0 && !(i128::MIN <= self.fee_balance_of(token) <= i128::MAX && i128::MIN
            <= self.fee_balance_of(token) + fee <= i128::MAX) {
            Some(Error::FeeOverflow)
        } else {
            None
        }
    }

    /// Escrows `amount` of `token` from `sender` for `creator`, less the
    /// protocol fee: the creator's balance grows by `amount - fee`, the
    /// total by `amount`, and the token's fee balance by `fee` (only when a
    /// fee rate is set).
    pub fn tip(&mut self, ledger: u32, sender: u64, creator: u64, token: u64, amount: i128) -> (r:
        Result<Effects, Error>)
        ensures
            old(self).totals_grow_to(final(self)),
            r is Err <==> old(self).tip_error(ledger, creator, token, amount) is Some,
            r matches Err(e) ==> Some(e) == old(self).tip_error(ledger, creator, token, amount)
                && *final(self) == *old(self),
            r matches Ok(eff) ==> ({
                let rate = old(self).fee_rate() as int;
                let fee = fee_spec(amount as int, rate);
                let net = amount - fee;
                &&& final(self).same_settings(old(self))
                &&& tip_step(*old(self), *final(self), sender, creator, token, amount, eff.transfers@)
                &&& eff.events@ == if rate > 0 {
                    seq![
                        TipJarEvent::FeeCharged {
                            creator,
                            gross: amount,
                            fee: fee as i128,
                            net: net as i128,
                        },
                        TipJarEvent::Tip { creator, token, sender, amount },
                    ]
                } else {
                    seq![TipJarEvent::Tip { creator, token, sender, amount }]
                }
            }),
    {
        let state = self.current_pause();
        if effective_flags(state, ledger) & PAUSE_FLAG_TIPS != 0 {
            return Err(Error::TipsPaused);
        }
        if amount <= 0 {
            return Err(Error::InvalidAmount);
        }
        if self.config.admin.is_none() {
            return Err(Error::NotInitialized);
        }
        if !self.token_is_allowed(token) {
            return Err(Error::TokenNotAllowed);
        }
        let bps: u32 = match self.config.fee_bps {
            Some(b) => b,
            None => 0,
        };
        let fee = match fee_for(amount, bps) {
            Some(f) => f,
            None => {
                return Err(Error::FeeOverflow);
            },
        };
        proof {
            if bps != 0 {
                assert(0 <= amount * bps) by (nonlinear_arith)
                    requires amount > 0, bps >= 0;
                crate::num::lemma_tdiv_nonneg(amount * bps, 10000);
            }
        }
        let net = amount - fee;
        let balance = self.peek_balance(creator, token);
        let total = self.peek_total(creator, token);
        let new_balance = match balance.checked_add(net) {
            Some(v) => v,
            None => {
                return Err(Error::InvalidAmount);
            },
        };
        let new_total = match total.checked_add(amount) {
            Some(v) => v,
            None => {
                return Err(Error::InvalidAmount);
            },
        };
        let mut new_fee_balance: i128 = 0;
        if bps > 0 {
            let current = self.stored_fee(token);
            let legacy = self.legacy_fee_part(token);
            let combined = match current.checked_add(legacy) {
                Some(v) => v,
                None => {
                    return Err(Error::FeeOverflow);
                },
            };
            new_fee_balance = match combined.checked_add(fee) {
                Some(v) => v,
                None => {
                    return Err(Error::FeeOverflow);
                },
            };
        }
        let ghost s0 = *old(self);
        self.migrate_creator_data(creator, token);
        self.set_balance(creator, token, new_balance);
        self.set_total(creator, token, new_total);
        if bps > 0 {
            self.set_fee_balance(token, new_fee_balance);
        }
        let contract = self.contract;
        let mut transfers = Vec::new();
        transfers.push(Transfer { token, from: sender, to: contract, amount });
        let mut events = Vec::new();
        if bps > 0 {
            events.push(TipJarEvent::FeeCharged { creator, gross: amount, fee, net });
        }
        events.push(TipJarEvent::Tip { creator, token, sender, amount });
        Ok(Effects { transfers, events })
    }

    /// Historical total tipped to `creator` in `token` (0 if never tipped);
    /// moves legacy data on the way, as the contract does.
    pub fn get_total_tips(&mut self, creator: u64, token: u64) -> (r: i128)
        ensures
            old(self).totals_grow_to(final(self)),
            r == old(self).total_of(creator, token),
            final(self).same_settings(old(self)),
            final(self).same_ledger(old(self)),
    {
        self.migrate_creator_data(creator, token);
        self.peek_total(creator, token)
    }

    /// Withdrawable balance of `creator` in `token`; moves legacy data on
    /// the way, as the contract does.
    pub fn get_balance(&mut self, creator: u64, token: u64) -> (r: i128)
        ensures
            old(self).totals_grow_to(final(self)),
            r == old(self).balance_of(creator, token),
            final(self).same_settings(old(self)),
            final(self).same_ledger(old(self)),
    {
        self.migrate_creator_data(creator, token);
        self.peek_balance(creator, token)
    }

    /// The token allowlist.
    pub fn get_tokens(&self) -> (r: Result<Vec<u64>, Error>)
        ensures
            !self.initialized() ==> r == Err::<Vec<u64>, Error>(Error::NotInitialized),
            self.initialized() ==> (r matches Ok(v) && v@ == self.allowed_tokens@),
    {
        if self.config.admin.is_none() {
            return Err(Error::NotInitialized);
        }
        Ok(self.allowed_tokens.clone())
    }

    // ── withdrawals ──────────────────────────────────────────────────────

    /// The error `withdraw` fails with, in the order the contract checks,
    /// or `None` when it succeeds.
    pub open spec fn withdraw_error(
        &self,
        ledger: u32,
        caller: u64,
        creator: u64,
        token: u64,
        to: u64,
        amount: Option<i128>,
    ) -> Option<Error> {
        let balance = self.balance_of(creator, token);
        let amt = requested(amount, balance);
        let op_key = pair(creator, caller);
        if self.blocked(ledger, PAUSE_FLAG_WITHDRAWALS) {
            Some(Error::WithdrawalsPaused)
        } else if !self.initialized() {
            Some(Error::NotInitialized)
        } else if balance == 0 {
            Some(Error::NothingToWithdraw)
        } else if amt <= 0 || amt > balance {
            Some(Error::InvalidAmount)
        } else if caller != creator && !self.operators@.contains_key(op_key) {
            Some(Error::InvalidOperator)
        } else if caller != creator && ledger > self.operators@[op_key].1 {
            Some(Error::OperatorExpired)
        } else if caller != creator && self.operators@[op_key].0 < amt {
            Some(Error::InsufficientAllowance)
        } else if to != self.payout_at(creator, ledger) {
            Some(Error::InvalidTarget)
        } else {
            None
        }
    }

    /// True if a pending payout change of `creator` has matured at `ledger`.
    pub open spec fn payout_change_due(&self, creator: u64, ledger: u32) -> bool {
        self.pending_payouts@.contains_key(creator as u128) && ledger
            >= self.pending_payouts@[creator as u128].1
    }

    /// Pays out `amount` (or the whole balance) of `creator`'s `token`
    /// balance to their payout address `to`. An operator `caller` spends
    /// its allowance (the entry goes when it reaches zero). A matured
    /// pending payout change is applied first.
    pub fn withdraw(
        &mut self,
        ledger: u32,
        caller: u64,
        creator: u64,
        token: u64,
        to: u64,
        amount: Option<i128>,
    ) -> (r: Result<Effects, Error>)
        ensures
            old(self).totals_grow_to(final(self)),
            r is Err <==> old(self).withdraw_error(ledger, caller, creator, token, to, amount) is Some,
            r matches Err(e) ==> Some(e) == old(self).withdraw_error(
                ledger,
                caller,
                creator,
                token,
                to,
                amount,
            ) && *final(self) == *old(self),
            r matches Ok(eff) ==> ({
                let amt = requested(amount, old(self).balance_of(creator, token));
                let op_key = pair(creator, caller);
                let due = old(self).payout_change_due(creator, ledger);
                let payout = old(self).payout_at(creator, ledger);
                &&& withdraw_step(*old(self), *final(self), creator, token, amt, payout, eff.transfers@)
                &&& final(self).config == old(self).config
                &&& final(self).allowed_tokens@ == old(self).allowed_tokens@
                &&& final(self).operators@ == if caller == creator {
                    old(self).operators@
                } else if old(self).operators@[op_key].0 == amt {
                    old(self).operators@.remove(op_key)
                } else {
                    old(self).operators@.insert(
                        op_key,
                        ((old(self).operators@[op_key].0 - amt) as i128, old(self).operators@[op_key].1),
                    )
                }
                &&& final(self).payouts@ == if due {
                    old(self).payouts@.insert(creator as u128, payout)
                } else {
                    old(self).payouts@
                }
                &&& final(self).pending_payouts@ == if due {
                    old(self).pending_payouts@.remove(creator as u128)
                } else {
                    old(self).pending_payouts@
                }
                &&& eff.events@ == if due {
                    seq![
                        TipJarEvent::PayoutChangeApplied { creator, new_payout: payout },
                        TipJarEvent::Withdraw { creator, token, amount: amt as i128, to: payout },
                    ]
                } else {
                    seq![TipJarEvent::Withdraw { creator, token, amount: amt as i128, to: payout }]
                }
            }),
    {
        let state = self.current_pause();
        if effective_flags(state, ledger) & PAUSE_FLAG_WITHDRAWALS != 0 {
            return Err(Error::WithdrawalsPaused);
        }
        if self.config.admin.is_none() {
            return Err(Error::NotInitialized);
        }
        let balance = self.peek_balance(creator, token);
        if balance == 0 {
            return Err(Error::NothingToWithdraw);
        }
        let amt = match amount {
            Some(a) => a,
            None => balance,
        };
        if amt <= 0 || amt > balance {
            return Err(Error::InvalidAmount);
        }
        let op_key = pair_key(creator, caller);
        let mut op_entry: Option<(i128, u32)> = None;
        if caller != creator {
            match self.operators.get(op_key) {
                Some((allowance, expiry_ledger)) => {
                    if ledger > expiry_ledger {
                        return Err(Error::OperatorExpired);
                    }
                    if allowance < amt {
                        return Err(Error::InsufficientAllowance);
                    }
                    op_entry = Some((allowance, expiry_ledger));
                },
                None => {
                    return Err(Error::InvalidOperator);
                },
            }
        }
        let ck = creator as u128;
        let pending = self.pending_payouts.get(ck);
        let mut due = false;
        let mut payout = match self.payouts.get(ck) {
            Some(p) => p,
            None => creator,
        };
        match pending {
            Some((new_payout, effective_ledger)) => {
                if ledger >= effective_ledger {
                    due = true;
                    payout = new_payout;
                }
            },
            None => {},
        }
        if to != payout {
            return Err(Error::InvalidTarget);
        }
        // commit
        match op_entry {
            Some((allowance, expiry_ledger)) => {
                let new_allowance = allowance - amt;
                if new_allowance == 0 {
                    self.operators.remove(op_key);
                } else {
                    self.operators.set(op_key, (new_allowance, expiry_ledger));
                }
            },
            None => {},
        }
        if due {
            self.payouts.set(ck, payout);
            self.pending_payouts.remove(ck);
        }
        self.migrate_creator_data(creator, token);
        self.set_balance(creator, token, balance - amt);
        let contract = self.contract;
        let mut transfers = Vec::new();
        transfers.push(Transfer { token, from: contract, to: payout, amount: amt });
        let mut events = Vec::new();
        if due {
            events.push(TipJarEvent::PayoutChangeApplied { creator, new_payout: payout });
        }
        events.push(TipJarEvent::Withdraw { creator, token, amount: amt, to: payout });
        Ok(Effects { transfers, events })
    }

    // ── administration ───────────────────────────────────────────────────

    /// Why `caller` may not act as admin, if it may not.
    pub open spec fn admin_error(&self, caller: u64) -> Option<Error> {
        match self.config.admin {
            None => Some(Error::NotInitialized),
            Some(a) => if a != caller { Some(Error::Unauthorized) } else { None },
        }
    }

    fn require_admin(&self, caller: u64) -> (r: Result<(), Error>)
        ensures
            r is Err <==> self.admin_error(caller) is Some,
            r matches Err(e) ==> Some(e) == self.admin_error(caller),
    {
        match self.config.admin {
            None => Err(Error::NotInitialized),
            Some(a) => if a != caller { Err(Error::Unauthorized) } else { Ok(()) },
        }
    }

    /// Only the configuration, the allowlist or the per-address tables named
    /// by the caller's contract changed; everything else of `other` is as in `self`.
    pub open spec fn same_tables(&self, other: &TipJar) -> bool {
        &&& self.contract == other.contract
        &&& self.legacy_balances@ == other.legacy_balances@
        &&& self.legacy_totals@ == other.legacy_totals@
        &&& self.balances@ == other.balances@
        &&& self.totals@ == other.totals@
        &&& self.fee_balances@ == other.fee_balances@
        &&& self.payouts@ == other.payouts@
        &&& self.pending_payouts@ == other.pending_payouts@
        &&& self.operators@ == other.operators@
    }

    /// Adds `token` to the allowlist. Admin only; at most fifty tokens, no
    /// duplicates.
    pub fn add_token(&mut self, admin: u64, token: u64) -> (r: Result<Effects, Error>)
        ensures
            old(self).totals_grow_to(final(self)),
            r is Err ==> *final(self) == *old(self),
            r matches Err(e) ==> (Some(e) == old(self).admin_error(admin) || (old(self).admin_error(
                admin,
            ) is None && (e == Error::MaxTokensReached && old(self).allowed_tokens@.len()
                >= MAX_ALLOWED_TOKENS || e == Error::TokenAlreadyExists
                && old(self).allowed_tokens@.len() < MAX_ALLOWED_TOKENS
                && old(self).allowed_tokens@.contains(token)))),
            r is Ok <==> old(self).admin_error(admin) is None && old(self).allowed_tokens@.len()
                < MAX_ALLOWED_TOKENS && !old(self).allowed_tokens@.contains(token),
            r matches Ok(eff) ==> final(self).allowed_tokens@ == old(self).allowed_tokens@.push(
                token,
            ) && final(self).config == old(self).config && final(self).same_tables(old(self))
                && eff.transfers@.len() == 0 && eff.events@.len() == 0,
    {
        self.require_admin(admin)?;
        if self.allowed_tokens.len() >= MAX_ALLOWED_TOKENS {
            return Err(Error::MaxTokensReached);
        }
        if self.token_is_allowed(token) {
            return Err(Error::TokenAlreadyExists);
        }
        self.allowed_tokens.push(token);
        Ok(Effects { transfers: Vec::new(), events: Vec::new() })
    }

    /// Removes `token` from the allowlist (every occurrence). Admin only.
    /// Balances in that token stay withdrawable.
    pub fn remove_token(&mut self, admin: u64, token: u64) -> (r: Result<Effects, Error>)
        ensures
            old(self).totals_grow_to(final(self)),
            r is Err ==> *final(self) == *old(self),
            r matches Err(e) ==> Some(e) == old(self).admin_error(admin) || (old(self).admin_error(
                admin,
            ) is None && e == Error::TokenNotAllowed && !old(self).allowed_tokens@.contains(token)),
            r is Ok <==> old(self).admin_error(admin) is None && old(self).allowed_tokens@.contains(
                token,
            ),
            r matches Ok(eff) ==> final(self).allowed_tokens@ == old(self).allowed_tokens@.filter(
                |x: u64| x != token,
            ) && final(self).config == old(self).config && final(self).same_tables(old(self))
                && eff.transfers@.len() == 0 && eff.events@.len() == 0,
    {
        self.require_admin(admin)?;
        let mut found = false;
        let mut new_tokens: Vec<u64> = Vec::new();
        let mut i: usize = 0;
        while i < self.allowed_tokens.len()
            invariant
                0 <= i <= self.allowed_tokens@.len(),
                new_tokens@ == self.allowed_tokens@.take(i as int).filter(|x: u64| x != token),
                found == self.allowed_tokens@.take(i as int).contains(token),
            decreases self.allowed_tokens@.len() - i,
        {
            let t = self.allowed_tokens[i];
            proof {
                reveal_with_fuel(Seq::<_>::filter, 1);
                assert(self.allowed_tokens@.take(i + 1).drop_last() == self.allowed_tokens@.take(
                    i as int,
                ));
            }
            if t != token {
                new_tokens.push(t);
            } else {
                found = true;
            }
            proof {
                broadcast use vstd::seq_lib::group_seq_properties;
                assert(self.allowed_tokens@.take(i + 1) == self.allowed_tokens@.take(i as int).push(t));
            }
            i = i + 1;
        }
        proof {
            assert(self.allowed_tokens@.take(self.allowed_tokens@.len() as int)
                == self.allowed_tokens@);
        }
        if !found {
            return Err(Error::TokenNotAllowed);
        }
        self.allowed_tokens = new_tokens;
        Ok(Effects { transfers: Vec::new(), events: Vec::new() })
    }

    /// Proposes `new_admin`; takes effect only when `new_admin` accepts.
    pub fn propose_admin(&mut self, admin: u64, new_admin: u64) -> (r: Result<Effects, Error>)
        ensures
            old(self).totals_grow_to(final(self)),
            r is Err <==> old(self).admin_error(admin) is Some,
            r matches Err(e) ==> Some(e) == old(self).admin_error(admin) && *final(self) == *old(self),
            r matches Ok(eff) ==> final(self).config == (Config {
                pending_admin: Some(new_admin),
                ..old(self).config
            }) && final(self).allowed_tokens@ == old(self).allowed_tokens@ && final(self).same_tables(old(self)) && eff.transfers@.len() == 0 && eff.events@ == seq![
                TipJarEvent::AdminTransferProposed { current_admin: admin, new_admin },
            ],
    {
        self.require_admin(admin)?;
        self.config.pending_admin = Some(new_admin);
        let mut events = Vec::new();
        events.push(TipJarEvent::AdminTransferProposed { current_admin: admin, new_admin });
        Ok(Effects { transfers: Vec::new(), events })
    }

    /// Completes a two-step admin transfer; only the proposed address may call.
    pub fn accept_admin(&mut self, new_admin: u64) -> (r: Result<Effects, Error>)
        ensures
            old(self).totals_grow_to(final(self)),
            r is Ok <==> old(self).config.pending_admin == Some(new_admin),
            r matches Err(e) ==> e == Error::NoPendingAdmin && *final(self) == *old(self),
            r matches Ok(eff) ==> final(self).config == (Config {
                admin: Some(new_admin),
                pending_admin: None,
                ..old(self).config
            }) && final(self).allowed_tokens@ == old(self).allowed_tokens@ && final(self).same_tables(old(self)) && eff.transfers@.len() == 0 && eff.events@ == seq![
                TipJarEvent::AdminTransferAccepted { new_admin },
            ],
    {
        match self.config.pending_admin {
            Some(p) => {
                if p != new_admin {
                    return Err(Error::NoPendingAdmin);
                }
            },
            None => {
                return Err(Error::NoPendingAdmin);
            },
        }
        self.config.admin = Some(new_admin);
        self.config.pending_admin = None;
        let mut events = Vec::new();
        events.push(TipJarEvent::AdminTransferAccepted { new_admin });
        Ok(Effects { transfers: Vec::new(), events })
    }

    /// Abandons a pending admin transfer. Admin only.
    pub fn cancel_admin_transfer(&mut self, admin: u64) -> (r: Result<Effects, Error>)
        ensures
            old(self).totals_grow_to(final(self)),
            r is Ok <==> old(self).admin_error(admin) is None && old(self).config.pending_admin is Some,
            r matches Err(e) ==> *final(self) == *old(self) && (Some(e) == old(self).admin_error(
                admin,
            ) || (old(self).admin_error(admin) is None && e == Error::NoPendingAdmin)),
            r matches Ok(eff) ==> final(self).config == (Config {
                pending_admin: None,
                ..old(self).config
            }) && final(self).allowed_tokens@ == old(self).allowed_tokens@ && final(self).same_tables(old(self)) && eff.transfers@.len() == 0 && eff.events@ == seq![
                TipJarEvent::AdminTransferCancelled { admin },
            ],
    {
        self.require_admin(admin)?;
        if self.config.pending_admin.is_none() {
            return Err(Error::NoPendingAdmin);
        }
        self.config.pending_admin = None;
        let mut events = Vec::new();
        events.push(TipJarEvent::AdminTransferCancelled { admin });
        Ok(Effects { transfers: Vec::new(), events })
    }

    /// The current admin.
    pub fn get_admin(&self) -> (r: Result<u64, Error>)
        ensures
            r == (match self.config.admin {
                Some(a) => Ok::<u64, Error>(a),
                None => Err(Error::NotInitialized),
            }),
    {
        match self.config.admin {
            Some(a) => Ok(a),
            None => Err(Error::NotInitialized),
        }
    }

    /// The address proposed as next admin, if any.
    pub fn get_pending_admin(&self) -> (r: Option<u64>)
        ensures
            r == self.config.pending_admin,
    {
        self.config.pending_admin
    }

    // ── upgrades ─────────────────────────────────────────────────────────

    /// Records `new_wasm_hash` as the pending upgrade, unlocked `timelock`
    /// ledgers from now. Admin only; one proposal at a time.
    pub fn propose_upgrade(&mut self, ledger: u32, admin: u64, new_wasm_hash: [u8; 32]) -> (r:
        Result<Effects, Error>)
        requires
            old(self).config.upgrade_timelock matches Some(t) ==> ledger + t <= u32::MAX,
        ensures
            old(self).totals_grow_to(final(self)),
            r is Ok <==> old(self).admin_error(admin) is None
                && old(self).config.pending_upgrade is None
                && old(self).config.upgrade_timelock is Some,
            r matches Err(e) ==> *final(self) == *old(self) && (Some(e) == old(self).admin_error(
                admin,
            ) || (old(self).admin_error(admin) is None && (e == Error::UpgradeAlreadyPending
                && old(self).config.pending_upgrade is Some || e == Error::NotInitialized
                && old(self).config.pending_upgrade is None
                && old(self).config.upgrade_timelock is None))),
            r matches Ok(eff) ==> ({
                let unlock = (ledger + old(self).config.upgrade_timelock.unwrap()) as u32;
                &&& final(self).config == (Config {
                    pending_upgrade: Some((new_wasm_hash, unlock)),
                    ..old(self).config
                })
                &&& final(self).allowed_tokens@ == old(self).allowed_tokens@
                &&& final(self).same_tables(old(self))
                &&& eff.transfers@.len() == 0
                &&& eff.events@ == seq![
                    TipJarEvent::UpgradeProposed { hash: new_wasm_hash, unlock_ledger: unlock },
                ]
            }),
    {
        self.require_admin(admin)?;
        if self.config.pending_upgrade.is_some() {
            return Err(Error::UpgradeAlreadyPending);
        }
        let timelock = match self.config.upgrade_timelock {
            Some(t) => t,
            None => {
                return Err(Error::NotInitialized);
            },
        };
        let unlock_ledger = ledger + timelock;
        self.config.pending_upgrade = Some((new_wasm_hash, unlock_ledger));
        let mut events = Vec::new();
        events.push(TipJarEvent::UpgradeProposed { hash: new_wasm_hash, unlock_ledger });
        Ok(Effects { transfers: Vec::new(), events })
    }

    /// Aborts the pending upgrade. Admin only.
    pub fn cancel_upgrade(&mut self, admin: u64) -> (r: Result<Effects, Error>)
        ensures
            old(self).totals_grow_to(final(self)),
            r is Ok <==> old(self).admin_error(admin) is None
                && old(self).config.pending_upgrade is Some,
            r matches Err(e) ==> *final(self) == *old(self) && (Some(e) == old(self).admin_error(
                admin,
            ) || (old(self).admin_error(admin) is None && e == Error::NoPendingUpgrade)),
            r matches Ok(eff) ==> final(self).config == (Config {
                pending_upgrade: None,
                ..old(self).config
            }) && final(self).allowed_tokens@ == old(self).allowed_tokens@ && final(self).same_tables(old(self)) && eff.transfers@.len() == 0 && eff.events@ == seq![
                TipJarEvent::UpgradeCancelled { hash: old(self).config.pending_upgrade.unwrap().0 },
            ],
    {
        self.require_admin(admin)?;
        let (hash, _) = match self.config.pending_upgrade {
            Some(p) => p,
            None => {
                return Err(Error::NoPendingUpgrade);
            },
        };
        self.config.pending_upgrade = None;
        let mut events = Vec::new();
        events.push(TipJarEvent::UpgradeCancelled { hash });
        Ok(Effects { transfers: Vec::new(), events })
    }

    /// Clears the pending upgrade once its timelock has elapsed and returns
    /// the WASM hash the host installs. Anyone may call.
    pub fn execute_upgrade(&mut self, ledger: u32) -> (r: Result<([u8; 32], Effects), Error>)
        ensures
            old(self).totals_grow_to(final(self)),
            r is Ok <==> (old(self).config.pending_upgrade matches Some(p) && ledger >= p.1),
            r matches Err(e) ==> *final(self) == *old(self) && (e == Error::NoPendingUpgrade
                && old(self).config.pending_upgrade is None || e == Error::TimelockNotElapsed
                && old(self).config.pending_upgrade is Some),
            r matches Ok((hash, eff)) ==> hash == old(self).config.pending_upgrade.unwrap().0
                && final(self).config == (Config { pending_upgrade: None, ..old(self).config })
                && final(self).allowed_tokens@ == old(self).allowed_tokens@ && final(self).same_tables(old(self)) && eff.transfers@.len() == 0 && eff.events@ == seq![
                TipJarEvent::UpgradeExecuted { hash },
            ],
    {
        let (hash, unlock_ledger) = match self.config.pending_upgrade {
            Some(p) => p,
            None => {
                return Err(Error::NoPendingUpgrade);
            },
        };
        if ledger < unlock_ledger {
            return Err(Error::TimelockNotElapsed);
        }
        self.config.pending_upgrade = None;
        let mut events = Vec::new();
        events.push(TipJarEvent::UpgradeExecuted { hash });
        Ok((hash, Effects { transfers: Vec::new(), events }))
    }

    /// The stored schema version (1 when absent).
    pub open spec fn version_spec(&self) -> u32 {
        match self.config.data_version {
            Some(v) => v,
            None => 1,
        }
    }

    /// Advances the schema version to `DATA_VERSION`. Admin only; a no-op
    /// when the stored version already meets it.
    pub fn migrate(&mut self, admin: u64) -> (r: Result<Effects, Error>)
        ensures
            old(self).totals_grow_to(final(self)),
            r is Err <==> old(self).admin_error(admin) is Some,
            r matches Err(e) ==> Some(e) == old(self).admin_error(admin) && *final(self) == *old(self),
            r matches Ok(eff) ==> final(self).allowed_tokens@ == old(self).allowed_tokens@ && final(self).same_tables(old(self)) && eff.transfers@.len() == 0 && if old(self).version_spec()
                >= DATA_VERSION {
                final(self).config == old(self).config && eff.events@.len() == 0
            } else {
                final(self).config == (Config { data_version: Some(DATA_VERSION), ..old(self).config })
                    && eff.events@ == seq![
                    TipJarEvent::Migrated(
                        Migrated { from_version: old(self).version_spec(), to_version: DATA_VERSION },
                    ),
                ]
            },
    {
        self.require_admin(admin)?;
        let current = match self.config.data_version {
            Some(v) => v,
            None => 1,
        };
        if current >= DATA_VERSION {
            return Ok(Effects { transfers: Vec::new(), events: Vec::new() });
        }
        self.config.data_version = Some(DATA_VERSION);
        let mut events = Vec::new();
        events.push(TipJarEvent::Migrated(Migrated { from_version: current, to_version: DATA_VERSION }));
        Ok(Effects { transfers: Vec::new(), events })
    }

    /// The storage schema version.
    pub fn get_data_version(&self) -> (r: u32)
        ensures
            r == self.version_spec(),
    {
        match self.config.data_version {
            Some(v) => v,
            None => 1,
        }
    }

    // ── payout addresses and operators ───────────────────────────────────

    /// Schedules `payout` as `creator`'s payout address from
    /// `ledger + PAYOUT_DELAY_LEDGERS` on, replacing any pending change.
    pub fn set_payout_address(&mut self, ledger: u32, creator: u64, payout: u64) -> (r: Result<
        Effects,
        Error,
    >)
        requires
            ledger + PAYOUT_DELAY_LEDGERS <= u32::MAX,
        ensures
            old(self).totals_grow_to(final(self)),
            r is Err <==> old(self).blocked(ledger, PAUSE_FLAG_WITHDRAWALS),
            r matches Err(e) ==> e == Error::WithdrawalsPaused && *final(self) == *old(self),
            r matches Ok(eff) ==> ({
                let eff_ledger = (ledger + PAYOUT_DELAY_LEDGERS) as u32;
                &&& final(self).pending_payouts@ == old(self).pending_payouts@.insert(
                    creator as u128,
                    (payout, eff_ledger),
                )
                &&& final(self).config == old(self).config
                &&& final(self).allowed_tokens@ == old(self).allowed_tokens@
                &&& final(self).payouts@ == old(self).payouts@
                &&& final(self).operators@ == old(self).operators@
                &&& final(self).same_ledger(old(self))
                &&& eff.transfers@.len() == 0
                &&& eff.events@ == seq![
                    TipJarEvent::PayoutChangeProposed {
                        creator,
                        new_payout: payout,
                        effective_ledger: eff_ledger,
                    },
                ]
            }),
    {
        let state = self.current_pause();
        if effective_flags(state, ledger) & PAUSE_FLAG_WITHDRAWALS != 0 {
            return Err(Error::WithdrawalsPaused);
        }
        let effective_ledger = ledger + PAYOUT_DELAY_LEDGERS;
        self.pending_payouts.set(creator as u128, (payout, effective_ledger));
        let mut events = Vec::new();
        events.push(
            TipJarEvent::PayoutChangeProposed { creator, new_payout: payout, effective_ledger },
        );
        Ok(Effects { transfers: Vec::new(), events })
    }

    /// Drops `creator`'s pending payout change.
    pub fn cancel_payout_address(&mut self, ledger: u32, creator: u64) -> (r: Result<
        Effects,
        Error,
    >)
        ensures
            old(self).totals_grow_to(final(self)),
            r is Ok <==> !old(self).blocked(ledger, PAUSE_FLAG_WITHDRAWALS)
                && old(self).pending_payouts@.contains_key(creator as u128),
            r matches Err(e) ==> *final(self) == *old(self) && (e == Error::WithdrawalsPaused
                && old(self).blocked(ledger, PAUSE_FLAG_WITHDRAWALS) || e
                == Error::NoPendingPayoutChange && !old(self).blocked(ledger, PAUSE_FLAG_WITHDRAWALS)),
            r matches Ok(eff) ==> final(self).pending_payouts@ == old(self).pending_payouts@.remove(
                creator as u128,
            ) && final(self).config == old(self).config && final(self).allowed_tokens@ == old(self).allowed_tokens@ && final(self).payouts@ == old(self).payouts@ && final(self).operators@ == old(self).operators@ && final(self).same_ledger(old(self))
                && eff.transfers@.len() == 0 && eff.events@ == seq![
                TipJarEvent::PayoutChangeCancelled { creator },
            ],
    {
        let state = self.current_pause();
        if effective_flags(state, ledger) & PAUSE_FLAG_WITHDRAWALS != 0 {
            return Err(Error::WithdrawalsPaused);
        }
        if !self.pending_payouts.has(creator as u128) {
            return Err(Error::NoPendingPayoutChange);
        }
        self.pending_payouts.remove(creator as u128);
        let mut events = Vec::new();
        events.push(TipJarEvent::PayoutChangeCancelled { creator });
        Ok(Effects { transfers: Vec::new(), events })
    }

    /// Lets `operator` withdraw up to `allowance` of `creator`'s balances
    /// until `expiry_ledger`, replacing any earlier grant.
    pub fn authorize_operator(
        &mut self,
        ledger: u32,
        creator: u64,
        operator: u64,
        allowance: i128,
        expiry_ledger: u32,
    ) -> (r: Result<Effects, Error>)
        ensures
            old(self).totals_grow_to(final(self)),
            r is Err <==> old(self).blocked(ledger, PAUSE_FLAG_WITHDRAWALS),
            r matches Err(e) ==> e == Error::WithdrawalsPaused && *final(self) == *old(self),
            r matches Ok(eff) ==> final(self).operators@ == old(self).operators@.insert(
                pair(creator, operator),
                (allowance, expiry_ledger),
            ) && final(self).config == old(self).config && final(self).allowed_tokens@ == old(self).allowed_tokens@ && final(self).payouts@ == old(self).payouts@ && final(self).pending_payouts@ == old(self).pending_payouts@ && final(self).same_ledger(old(self))
                && eff.transfers@.len() == 0 && eff.events@ == seq![
                TipJarEvent::OperatorAuthorized { creator, operator, allowance, expiry_ledger },
            ],
    {
        let state = self.current_pause();
        if effective_flags(state, ledger) & PAUSE_FLAG_WITHDRAWALS != 0 {
            return Err(Error::WithdrawalsPaused);
        }
        self.operators.set(pair_key(creator, operator), (allowance, expiry_ledger));
        let mut events = Vec::new();
        events.push(
            TipJarEvent::OperatorAuthorized { creator, operator, allowance, expiry_ledger },
        );
        Ok(Effects { transfers: Vec::new(), events })
    }

    /// Withdraws any grant of `creator` to `operator`.
    pub fn revoke_operator(&mut self, ledger: u32, creator: u64, operator: u64) -> (r: Result<
        Effects,
        Error,
    >)
        ensures
            old(self).totals_grow_to(final(self)),
            r is Err <==> old(self).blocked(ledger, PAUSE_FLAG_WITHDRAWALS),
            r matches Err(e) ==> e == Error::WithdrawalsPaused && *final(self) == *old(self),
            r matches Ok(eff) ==> final(self).operators@ == old(self).operators@.remove(
                pair(creator, operator),
            ) && final(self).config == old(self).config && final(self).allowed_tokens@ == old(self).allowed_tokens@ && final(self).payouts@ == old(self).payouts@ && final(self).pending_payouts@ == old(self).pending_payouts@ && final(self).same_ledger(old(self))
                && eff.transfers@.len() == 0 && eff.events@ == seq![
                TipJarEvent::OperatorRevoked { creator, operator },
            ],
    {
        let state = self.current_pause();
        if effective_flags(state, ledger) & PAUSE_FLAG_WITHDRAWALS != 0 {
            return Err(Error::WithdrawalsPaused);
        }
        self.operators.remove(pair_key(creator, operator));
        let mut events = Vec::new();
        events.push(TipJarEvent::OperatorRevoked { creator, operator });
        Ok(Effects { transfers: Vec::new(), events })
    }

    // ── circuit breaker ──────────────────────────────────────────────────

    /// Appoints or replaces the guardian. Admin only.
    pub fn set_guardian(&mut self, admin: u64, guardian: u64) -> (r: Result<Effects, Error>)
        ensures
            old(self).totals_grow_to(final(self)),
            r is Err <==> old(self).admin_error(admin) is Some,
            r matches Err(e) ==> Some(e) == old(self).admin_error(admin) && *final(self) == *old(self),
            r matches Ok(eff) ==> final(self).config == (Config {
                guardian: Some(guardian),
                ..old(self).config
            }) && final(self).allowed_tokens@ == old(self).allowed_tokens@ && final(self).same_tables(old(self)) && eff.transfers@.len() == 0 && eff.events@ == seq![
                TipJarEvent::GuardianUpdated { admin, guardian },
            ],
    {
        self.require_admin(admin)?;
        self.config.guardian = Some(guardian);
        let mut events = Vec::new();
        events.push(TipJarEvent::GuardianUpdated { admin, guardian });
        Ok(Effects { transfers: Vec::new(), events })
    }

    /// Sets how many ledgers a guardian pause lasts. Admin only; not zero.
    pub fn set_guardian_pause_duration(&mut self, admin: u64, ledgers: u32) -> (r: Result<
        Effects,
        Error,
    >)
        ensures
            old(self).totals_grow_to(final(self)),
            r is Ok <==> old(self).admin_error(admin) is None && ledgers != 0,
            r matches Err(e) ==> *final(self) == *old(self) && (Some(e) == old(self).admin_error(
                admin,
            ) || (old(self).admin_error(admin) is None && e == Error::InvalidDuration)),
            r matches Ok(eff) ==> final(self).config == (Config {
                guardian_pause_duration: Some(ledgers),
                ..old(self).config
            }) && final(self).allowed_tokens@ == old(self).allowed_tokens@ && final(self).same_tables(old(self)) && eff.transfers@.len() == 0 && eff.events@.len() == 0,
    {
        self.require_admin(admin)?;
        if ledgers == 0 {
            return Err(Error::InvalidDuration);
        }
        self.config.guardian_pause_duration = Some(ledgers);
        Ok(Effects { transfers: Vec::new(), events: Vec::new() })
    }

    /// The configured guardian-pause lifetime.
    pub open spec fn guardian_duration(&self) -> u32 {
        match self.config.guardian_pause_duration {
            Some(d) => d,
            None => DEFAULT_GUARDIAN_PAUSE_DURATION_LEDGERS,
        }
    }

    /// The pause state after `caller` pauses `flag` at `ledger`: the admin's
    /// bits persist (and absorb matching guardian bits); the guardian's
    /// bits lapse after the guardian duration.
    pub open spec fn paused_state(&self, ledger: u32, caller: u64, flag: u32) -> PauseState {
        let s = self.pause_state();
        if self.config.admin == Some(caller) {
            PauseState {
                admin_flags: s.admin_flags | flag,
                guardian_flags: s.guardian_flags & !flag,
                guardian_expiry: s.guardian_expiry,
            }
        } else {
            PauseState {
                admin_flags: s.admin_flags,
                guardian_flags: s.guardian_flags | flag,
                guardian_expiry: (ledger + self.guardian_duration()) as u32,
            }
        }
    }

    /// Why `caller` may not pause, if it may not.
    pub open spec fn pause_error(&self, caller: u64) -> Option<Error> {
        if self.config.admin is None {
            Some(Error::NotInitialized)
        } else if self.config.admin == Some(caller) || self.config.guardian == Some(caller) {
            None
        } else {
            Some(Error::Unauthorized)
        }
    }

    fn pause_internal(&mut self, ledger: u32, caller: u64, flag: u32) -> (r: Result<
        Effects,
        Error,
    >)
        requires
            old(self).config.admin is Some && old(self).config.admin != Some(caller)
                && old(self).config.guardian == Some(caller) ==> ledger + old(self).guardian_duration()
                <= u32::MAX,
        ensures
            r is Err <==> old(self).pause_error(caller) is Some,
            r matches Err(e) ==> Some(e) == old(self).pause_error(caller) && *final(self) == *old(self),
            r matches Ok(eff) ==> final(self).config == (Config {
                pause: Some(old(self).paused_state(ledger, caller, flag)),
                ..old(self).config
            }) && final(self).allowed_tokens@ == old(self).allowed_tokens@ && final(self).same_tables(old(self)) && eff.transfers@.len() == 0 && eff.events@ == seq![
                TipJarEvent::Paused { by: caller, flags: flag },
            ],
    {
        let admin = match self.config.admin {
            Some(a) => a,
            None => {
                return Err(Error::NotInitialized);
            },
        };
        let mut state = self.current_pause();
        if caller == admin {
            state.admin_flags = state.admin_flags | flag;
            state.guardian_flags = state.guardian_flags & !flag;
        } else {
            let is_guardian = match self.config.guardian {
                Some(g) => g == caller,
                None => false,
            };
            if !is_guardian {
                return Err(Error::Unauthorized);
            }
            let duration = match self.config.guardian_pause_duration {
                Some(d) => d,
                None => DEFAULT_GUARDIAN_PAUSE_DURATION_LEDGERS,
            };
            state.guardian_flags = state.guardian_flags | flag;
            state.guardian_expiry = ledger + duration;
        }
        self.config.pause = Some(state);
        let mut events = Vec::new();
        events.push(TipJarEvent::Paused { by: caller, flags: flag });
        Ok(Effects { transfers: Vec::new(), events })
    }

    /// Why `caller` may not unpause: only the admin may.
    fn unpause_internal(&mut self, caller: u64, flag: u32) -> (r: Result<Effects, Error>)
        ensures
            r is Err <==> old(self).admin_error(caller) is Some,
            r matches Err(e) ==> Some(e) == old(self).admin_error(caller) && *final(self) == *old(self),
            r matches Ok(eff) ==> final(self).config == (Config {
                pause: Some(
                    PauseState {
                        admin_flags: old(self).pause_state().admin_flags & !flag,
                        guardian_flags: old(self).pause_state().guardian_flags & !flag,
                        guardian_expiry: old(self).pause_state().guardian_expiry,
                    },
                ),
                ..old(self).config
            }) && final(self).allowed_tokens@ == old(self).allowed_tokens@ && final(self).same_tables(old(self)) && eff.transfers@.len() == 0 && eff.events@ == seq![
                TipJarEvent::Unpaused { by: caller, flags: flag },
            ],
    {
        self.require_admin(caller)?;
        let mut state = self.current_pause();
        state.admin_flags = state.admin_flags & !flag;
        state.guardian_flags = state.guardian_flags & !flag;
        self.config.pause = Some(state);
        let mut events = Vec::new();
        events.push(TipJarEvent::Unpaused { by: caller, flags: flag });
        Ok(Effects { transfers: Vec::new(), events })
    }

    /// Pauses tips: persistently by the admin, temporarily by the guardian.
    pub fn pause_tips(&mut self, ledger: u32, caller: u64) -> (r: Result<Effects, Error>)
        requires
            old(self).config.admin is Some && old(self).config.admin != Some(caller)
                && old(self).config.guardian == Some(caller) ==> ledger + old(self).guardian_duration()
                <= u32::MAX,
        ensures
            old(self).totals_grow_to(final(self)),
            r is Err <==> old(self).pause_error(caller) is Some,
            r matches Err(e) ==> Some(e) == old(self).pause_error(caller) && *final(self) == *old(self),
            r is Ok ==> final(self).config == (Config {
                pause: Some(old(self).paused_state(ledger, caller, PAUSE_FLAG_TIPS)),
                ..old(self).config
            }) && final(self).allowed_tokens@ == old(self).allowed_tokens@ && final(self).same_tables(old(self)),
            r matches Ok(eff) ==> eff.events@ == seq![
                TipJarEvent::Paused { by: caller, flags: PAUSE_FLAG_TIPS },
            ] && eff.transfers@.len() == 0,
    {
        self.pause_internal(ledger, caller, PAUSE_FLAG_TIPS)
    }

    /// Pauses withdrawals and the withdrawal-mechanics calls.
    pub fn pause_withdrawals(&mut self, ledger: u32, caller: u64) -> (r: Result<Effects, Error>)
        requires
            old(self).config.admin is Some && old(self).config.admin != Some(caller)
                && old(self).config.guardian == Some(caller) ==> ledger + old(self).guardian_duration()
                <= u32::MAX,
        ensures
            old(self).totals_grow_to(final(self)),
            r is Err <==> old(self).pause_error(caller) is Some,
            r matches Err(e) ==> Some(e) == old(self).pause_error(caller) && *final(self) == *old(self),
            r is Ok ==> final(self).config == (Config {
                pause: Some(old(self).paused_state(ledger, caller, PAUSE_FLAG_WITHDRAWALS)),
                ..old(self).config
            }) && final(self).allowed_tokens@ == old(self).allowed_tokens@ && final(self).same_tables(old(self)),
            r matches Ok(eff) ==> eff.events@ == seq![
                TipJarEvent::Paused { by: caller, flags: PAUSE_FLAG_WITHDRAWALS },
            ] && eff.transfers@.len() == 0,
    {
        self.pause_internal(ledger, caller, PAUSE_FLAG_WITHDRAWALS)
    }

    /// Pauses tips and withdrawals together.
    pub fn pause_all(&mut self, ledger: u32, caller: u64) -> (r: Result<Effects, Error>)
        requires
            old(self).config.admin is Some && old(self).config.admin != Some(caller)
                && old(self).config.guardian == Some(caller) ==> ledger + old(self).guardian_duration()
                <= u32::MAX,
        ensures
            old(self).totals_grow_to(final(self)),
            r is Err <==> old(self).pause_error(caller) is Some,
            r matches Err(e) ==> Some(e) == old(self).pause_error(caller) && *final(self) == *old(self),
            r is Ok ==> final(self).config == (Config {
                pause: Some(old(self).paused_state(ledger, caller, PAUSE_FLAG_ALL)),
                ..old(self).config
            }) && final(self).allowed_tokens@ == old(self).allowed_tokens@ && final(self).same_tables(old(self)),
            r matches Ok(eff) ==> eff.events@ == seq![
                TipJarEvent::Paused { by: caller, flags: PAUSE_FLAG_ALL },
            ] && eff.transfers@.len() == 0,
    {
        self.pause_internal(ledger, caller, PAUSE_FLAG_ALL)
    }

    /// The pause state after the admin clears `flag`.
    pub open spec fn unpaused_state(&self, flag: u32) -> PauseState {
        PauseState {
            admin_flags: self.pause_state().admin_flags & !flag,
            guardian_flags: self.pause_state().guardian_flags & !flag,
            guardian_expiry: self.pause_state().guardian_expiry,
        }
    }

    /// Unpauses tips. Admin only: a guardian can pause but never unpause.
    pub fn unpause_tips(&mut self, caller: u64) -> (r: Result<Effects, Error>)
        ensures
            old(self).totals_grow_to(final(self)),
            r is Err <==> old(self).admin_error(caller) is Some,
            r matches Err(e) ==> Some(e) == old(self).admin_error(caller) && *final(self) == *old(self),
            r is Ok ==> final(self).config == (Config {
                pause: Some(old(self).unpaused_state(PAUSE_FLAG_TIPS)),
                ..old(self).config
            }) && final(self).allowed_tokens@ == old(self).allowed_tokens@ && final(self).same_tables(old(self)),
            r matches Ok(eff) ==> eff.events@ == seq![
                TipJarEvent::Unpaused { by: caller, flags: PAUSE_FLAG_TIPS },
            ] && eff.transfers@.len() == 0,
    {
        self.unpause_internal(caller, PAUSE_FLAG_TIPS)
    }

    /// Unpauses withdrawals. Admin only.
    pub fn unpause_withdrawals(&mut self, caller: u64) -> (r: Result<Effects, Error>)
        ensures
            old(self).totals_grow_to(final(self)),
            r is Err <==> old(self).admin_error(caller) is Some,
            r matches Err(e) ==> Some(e) == old(self).admin_error(caller) && *final(self) == *old(self),
            r is Ok ==> final(self).config == (Config {
                pause: Some(old(self).unpaused_state(PAUSE_FLAG_WITHDRAWALS)),
                ..old(self).config
            }) && final(self).allowed_tokens@ == old(self).allowed_tokens@ && final(self).same_tables(old(self)),
            r matches Ok(eff) ==> eff.events@ == seq![
                TipJarEvent::Unpaused { by: caller, flags: PAUSE_FLAG_WITHDRAWALS },
            ] && eff.transfers@.len() == 0,
    {
        self.unpause_internal(caller, PAUSE_FLAG_WITHDRAWALS)
    }

    /// Unpauses tips and withdrawals. Admin only.
    pub fn unpause_all(&mut self, caller: u64) -> (r: Result<Effects, Error>)
        ensures
            old(self).totals_grow_to(final(self)),
            r is Err <==> old(self).admin_error(caller) is Some,
            r matches Err(e) ==> Some(e) == old(self).admin_error(caller) && *final(self) == *old(self),
            r is Ok ==> final(self).config == (Config {
                pause: Some(old(self).unpaused_state(PAUSE_FLAG_ALL)),
                ..old(self).config
            }) && final(self).allowed_tokens@ == old(self).allowed_tokens@ && final(self).same_tables(old(self)),
            r matches Ok(eff) ==> eff.events@ == seq![
                TipJarEvent::Unpaused { by: caller, flags: PAUSE_FLAG_ALL },
            ] && eff.transfers@.len() == 0,
    {
        self.unpause_internal(caller, PAUSE_FLAG_ALL)
    }

    /// True if every bit of `flag` is paused at `ledger` (guardian bits
    /// lapse at their expiry); false for `flag == 0`.
    pub fn is_feature_paused(&self, ledger: u32, flag: u32) -> (r: bool)
        ensures
            r == (flag != 0 && self.flags_at(ledger) & flag == flag),
    {
        let state = self.current_pause();
        let effective = effective_flags(state, ledger);
        flag != 0 && (effective & flag) == flag
    }

    /// The pause bits in force at `ledger`.
    pub fn pause_flags(&self, ledger: u32) -> (r: u32)
        ensures
            r == self.flags_at(ledger),
    {
        let state = self.current_pause();
        effective_flags(state, ledger)
    }

    /// The ledger at which the guardian's pause bits lapse (0 if none was set).
    pub fn guardian_pause_expiry_ledger(&self) -> (r: u32)
        ensures
            r == self.pause_state().guardian_expiry,
    {
        self.current_pause().guardian_expiry
    }

    /// The guardian, if appointed.
    pub fn get_guardian(&self) -> (r: Option<u64>)
        ensures
            r == self.config.guardian,
    {
        self.config.guardian
    }

    // ── protocol fee ─────────────────────────────────────────────────────

    /// Sets the fee rate (at most `MAX_FEE_BPS`); the collector is left as it
    /// is and changes only through `propose_fee_collector` and
    /// `accept_fee_collector`. Admin only.
    pub fn set_fee(&mut self, admin: u64, bps: u32) -> (r: Result<Effects, Error>)
        ensures
            old(self).totals_grow_to(final(self)),
            r is Ok <==> old(self).admin_error(admin) is None && bps <= MAX_FEE_BPS,
            r matches Err(e) ==> *final(self) == *old(self) && (Some(e) == old(self).admin_error(
                admin,
            ) || (old(self).admin_error(admin) is None && e == Error::InvalidFee)),
            r matches Ok(eff) ==> final(self).config == (Config {
                fee_bps: Some(bps),
                ..old(self).config
            }) && final(self).allowed_tokens@ == old(self).allowed_tokens@ && final(self).same_tables(old(self)) && eff.transfers@.len() == 0 && eff.events@ == seq![
                TipJarEvent::FeeConfigured { admin, bps },
            ],
    {
        self.require_admin(admin)?;
        if bps > MAX_FEE_BPS {
            return Err(Error::InvalidFee);
        }
        self.config.fee_bps = Some(bps);
        let mut events = Vec::new();
        events.push(TipJarEvent::FeeConfigured { admin, bps });
        Ok(Effects { transfers: Vec::new(), events })
    }

    /// The admin proposes `new_collector` as the fee collector; the current
    /// collector stays until the proposed one accepts.
    pub fn propose_fee_collector(&mut self, admin: u64, new_collector: u64) -> (r: Result<Effects, Error>)
        ensures
            old(self).totals_grow_to(final(self)),
            r is Err <==> old(self).admin_error(admin) is Some,
            r matches Err(e) ==> Some(e) == old(self).admin_error(admin) && *final(self) == *old(self),
            r matches Ok(eff) ==> final(self).config == (Config {
                pending_fee_collector: Some(new_collector),
                ..old(self).config
            }) && final(self).allowed_tokens@ == old(self).allowed_tokens@ && final(self).same_tables(old(self)) && eff.transfers@.len() == 0 && eff.events@ == seq![
                TipJarEvent::FeeCollectorProposed { admin, new_collector },
            ],
    {
        self.require_admin(admin)?;
        self.config.pending_fee_collector = Some(new_collector);
        let mut events = Vec::new();
        events.push(TipJarEvent::FeeCollectorProposed { admin, new_collector });
        Ok(Effects { transfers: Vec::new(), events })
    }

    /// The proposed collector accepts and becomes the fee collector.
    pub fn accept_fee_collector(&mut self, new_collector: u64) -> (r: Result<Effects, Error>)
        ensures
            old(self).totals_grow_to(final(self)),
            r is Ok <==> old(self).config.pending_fee_collector == Some(new_collector),
            r matches Err(e) ==> e == Error::NoPendingFeeCollector && *final(self) == *old(self),
            r matches Ok(eff) ==> final(self).config == (Config {
                fee_collector: Some(new_collector),
                pending_fee_collector: None,
                ..old(self).config
            }) && final(self).allowed_tokens@ == old(self).allowed_tokens@ && final(self).same_tables(old(self)) && eff.transfers@.len() == 0 && eff.events@ == seq![
                TipJarEvent::FeeCollectorAccepted { new_collector },
            ],
    {
        match self.config.pending_fee_collector {
            Some(p) => {
                if p != new_collector {
                    return Err(Error::NoPendingFeeCollector);
                }
            },
            None => {
                return Err(Error::NoPendingFeeCollector);
            },
        }
        self.config.fee_collector = Some(new_collector);
        self.config.pending_fee_collector = None;
        let mut events = Vec::new();
        events.push(TipJarEvent::FeeCollectorAccepted { new_collector });
        Ok(Effects { transfers: Vec::new(), events })
    }

    /// The admin withdraws a pending collector proposal.
    pub fn cancel_fee_collector_transfer(&mut self, admin: u64) -> (r: Result<Effects, Error>)
        ensures
            old(self).totals_grow_to(final(self)),
            r is Ok <==> old(self).admin_error(admin) is None && old(self).config.pending_fee_collector is Some,
            r matches Err(e) ==> *final(self) == *old(self) && (Some(e) == old(self).admin_error(
                admin,
            ) || (old(self).admin_error(admin) is None && e == Error::NoPendingFeeCollector)),
            r matches Ok(eff) ==> final(self).config == (Config {
                pending_fee_collector: None,
                ..old(self).config
            }) && final(self).allowed_tokens@ == old(self).allowed_tokens@ && final(self).same_tables(old(self)) && eff.transfers@.len() == 0 && eff.events@ == seq![
                TipJarEvent::FeeCollectorCancelled { admin },
            ],
    {
        self.require_admin(admin)?;
        if self.config.pending_fee_collector.is_none() {
            return Err(Error::NoPendingFeeCollector);
        }
        self.config.pending_fee_collector = None;
        let mut events = Vec::new();
        events.push(TipJarEvent::FeeCollectorCancelled { admin });
        Ok(Effects { transfers: Vec::new(), events })
    }

    /// The error `withdraw_fees` fails with, in the contract's order.
    pub open spec fn withdraw_fees_error(&self, caller: u64, token: u64, amount: Option<i128>) -> Option<
        Error,
    > {
        let balance = self.fee_balance_of(token);
        let amt = requested(amount, balance);
        match self.config.fee_collector {
            None => Some(Error::NothingToWithdraw),
            Some(c) => if c != caller {
                Some(Error::NotFeeCollector)
            } else if !(i128::MIN <= balance <= i128::MAX) {
                Some(Error::FeeOverflow)
            } else if balance == 0 {
                Some(Error::NothingToWithdraw)
            } else if amt <= 0 || amt > balance {
                Some(Error::InvalidAmount)
            } else {
                None
            },
        }
    }

    /// Pays the fee collector `amount` (or all) of the fees accrued in `token`.
    pub fn withdraw_fees(&mut self, caller: u64, token: u64, amount: Option<i128>) -> (r: Result<
        Effects,
        Error,
    >)
        ensures
            old(self).totals_grow_to(final(self)),
            r is Err <==> old(self).withdraw_fees_error(caller, token, amount) is Some,
            r matches Err(e) ==> Some(e) == old(self).withdraw_fees_error(caller, token, amount)
                && *final(self) == *old(self),
            r matches Ok(eff) ==> ({
                let amt = requested(amount, old(self).fee_balance_of(token));
                &&& 0 < amt <= old(self).fee_balance_of(token)
                &&& fee_withdraw_step(*old(self), *final(self), caller, token, amt, eff.transfers@)
                &&& final(self).same_settings(old(self))
                &&& eff.events@ == seq![
                    TipJarEvent::FeeWithdraw { collector: caller, amount: amt as i128 },
                ]
            }),
    {
        let collector = match self.config.fee_collector {
            Some(c) => c,
            None => {
                return Err(Error::NothingToWithdraw);
            },
        };
        if caller != collector {
            return Err(Error::NotFeeCollector);
        }
        let current = self.stored_fee(token);
        let legacy = self.legacy_fee_part(token);
        let balance = match current.checked_add(legacy) {
            Some(b) => b,
            None => {
                return Err(Error::FeeOverflow);
            },
        };
        if balance == 0 {
            return Err(Error::NothingToWithdraw);
        }
        let amt = match amount {
            Some(a) => a,
            None => balance,
        };
        if amt <= 0 || amt > balance {
            return Err(Error::InvalidAmount);
        }
        self.set_fee_balance(token, balance - amt);
        let contract = self.contract;
        let mut transfers = Vec::new();
        transfers.push(Transfer { token, from: contract, to: collector, amount: amt });
        let mut events = Vec::new();
        events.push(TipJarEvent::FeeWithdraw { collector, amount: amt });
        Ok(Effects { transfers, events })
    }

    /// The configured fee rate (0 when unset).
    pub fn get_fee_bps(&self) -> (r: u32)
        ensures
            r == self.fee_rate(),
    {
        match self.config.fee_bps {
            Some(b) => b,
            None => 0,
        }
    }

    /// The fee collector, if set.
    pub fn get_fee_collector(&self) -> (r: Option<u64>)
        ensures
            r == self.config.fee_collector,
    {
        self.config.fee_collector
    }

    /// The fees accrued in `token`; folds the legacy counter in on the way.
    pub fn get_fee_balance(&mut self, token: u64) -> (r: Result<i128, Error>)
        ensures
            old(self).totals_grow_to(final(self)),
            r is Ok <==> i128::MIN <= old(self).fee_balance_of(token) <= i128::MAX,
            r matches Ok(v) ==> v == old(self).fee_balance_of(token),
            r matches Err(e) ==> e == Error::FeeOverflow && *final(self) == *old(self),
            final(self).same_settings(old(self)),
            final(self).same_ledger(old(self)),
    {
        let current = self.stored_fee(token);
        let legacy = self.legacy_fee_part(token);
        match current.checked_add(legacy) {
            Some(b) => {
                if legacy != 0 {
                    self.set_fee_balance(token, b);
                }
                Ok(b)
            },
            None => Err(Error::FeeOverflow),
        }
    }

    // ── default-token entry points ───────────────────────────────────────

    /// `tip` in the first allowed token.
    pub fn tip_legacy(&mut self, ledger: u32, sender: u64, creator: u64, amount: i128) -> (r:
        Result<Effects, Error>)
        ensures
            old(self).totals_grow_to(final(self)),
            !old(self).initialized() || old(self).allowed_tokens@.len() == 0 ==> r == Err::<
                Effects,
                Error,
            >(Error::NotInitialized) && *final(self) == *old(self),
            old(self).initialized() && old(self).allowed_tokens@.len() > 0 ==> ({
                let token = old(self).allowed_tokens@[0];
                &&& r is Err <==> old(self).tip_error(ledger, creator, token, amount) is Some
                &&& r matches Err(e) ==> Some(e) == old(self).tip_error(ledger, creator, token, amount)
                    && *final(self) == *old(self)
                &&& r is Ok ==> forall|c: u64, t: u64| #[trigger] final(self).balance_of(c, t) == if c
                    == creator && t == token {
                    old(self).balance_of(c, t) + amount - fee_spec(
                        amount as int,
                        old(self).fee_rate() as int,
                    )
                } else {
                    old(self).balance_of(c, t)
                }
            }),
    {
        if self.config.admin.is_none() || self.allowed_tokens.len() == 0 {
            return Err(Error::NotInitialized);
        }
        let token = self.allowed_tokens[0];
        self.tip(ledger, sender, creator, token, amount)
    }

    /// `get_total_tips` in the first allowed token (0 when there is none).
    pub fn get_total_tips_legacy(&mut self, creator: u64) -> (r: Result<i128, Error>)
        ensures
            old(self).totals_grow_to(final(self)),
            !old(self).initialized() ==> r == Err::<i128, Error>(Error::NotInitialized),
            old(self).initialized() && old(self).allowed_tokens@.len() == 0 ==> r == Ok::<i128, Error>(0),
            old(self).initialized() && old(self).allowed_tokens@.len() > 0 ==> r == Ok::<i128, Error>(
                old(self).total_of(creator, old(self).allowed_tokens@[0]) as i128,
            ),
            final(self).same_settings(old(self)),
            final(self).same_ledger(old(self)),
    {
        if self.config.admin.is_none() {
            return Err(Error::NotInitialized);
        }
        if self.allowed_tokens.len() == 0 {
            return Ok(0);
        }
        let token = self.allowed_tokens[0];
        Ok(self.get_total_tips(creator, token))
    }

    /// `withdraw` in the first allowed token.
    pub fn withdraw_legacy(
        &mut self,
        ledger: u32,
        caller: u64,
        creator: u64,
        to: u64,
        amount: Option<i128>,
    ) -> (r: Result<Effects, Error>)
        ensures
            old(self).totals_grow_to(final(self)),
            !old(self).initialized() || old(self).allowed_tokens@.len() == 0 ==> r == Err::<
                Effects,
                Error,
            >(Error::NotInitialized) && *final(self) == *old(self),
            old(self).initialized() && old(self).allowed_tokens@.len() > 0 ==> ({
                let token = old(self).allowed_tokens@[0];
                &&& r is Err <==> old(self).withdraw_error(ledger, caller, creator, token, to, amount)
                    is Some
                &&& r matches Err(e) ==> Some(e) == old(self).withdraw_error(
                    ledger,
                    caller,
                    creator,
                    token,
                    to,
                    amount,
                ) && *final(self) == *old(self)
                &&& r is Ok ==> forall|c: u64, t: u64| #[trigger] final(self).balance_of(c, t) == if c
                    == creator && t == token {
                    old(self).balance_of(c, t) - requested(amount, old(self).balance_of(c, t))
                } else {
                    old(self).balance_of(c, t)
                }
            }),
    {
        if self.config.admin.is_none() || self.allowed_tokens.len() == 0 {
            return Err(Error::NotInitialized);
        }
        let token = self.allowed_tokens[0];
        self.withdraw(ledger, caller, creator, token, to, amount)
    }

    // ── fee preview ──────────────────────────────────────────────────────

    /// `(fee, net)` for `amount` at `bps`, without touching the jar;
    /// `fee + net == amount` always.
    pub fn preview_fee(amount: i128, bps: u32) -> (r: Result<(i128, i128), Error>)
        ensures
            r is Ok <==> (fee_defined(amount as int, bps as int) && i128::MIN <= amount
                - fee_spec(amount as int, bps as int) <= i128::MAX),
            r matches Ok((fee, net)) ==> fee == fee_spec(amount as int, bps as int) && fee + net
                == amount,
            r matches Err(e) ==> e == Error::FeeOverflow,
    {
        match fee_for(amount, bps) {
            Some(fee) => {
                match amount.checked_sub(fee) {
                    Some(net) => Ok((fee, net)),
                    None => Err(Error::FeeOverflow),
                }
            },
            None => Err(Error::FeeOverflow),
        }
    }
}

} // verus!

verus! {

/// A guardian's pause lapses: from its expiry ledger on, only the admin's
/// bits are in force.
pub proof fn law_guardian_pause_lapses(s: PauseState, ledger: u32)
    requires
        ledger >= s.guardian_expiry,
    ensures
        effective_flags_spec(s, ledger) == s.admin_flags,
{
}

/// The admin's pause persists: whatever the ledger, the admin's bits are in
/// force.
pub proof fn law_admin_pause_persists(s: PauseState, ledger: u32, flag: u32)
    requires
        s.admin_flags & flag == flag,
    ensures
        effective_flags_spec(s, ledger) & flag == flag,
{
    let a = s.admin_flags;
    let g = s.guardian_flags;
    assert((a & flag) == flag ==> ((a | g) & flag) == flag) by (bit_vector);
}

/// After the admin pauses `flag`, every bit of it is in force at every ledger.
pub proof fn law_admin_pause_blocks(j: TipJar, ledger: u32, later: u32, admin: u64, flag: u32)
    requires
        j.config.admin == Some(admin),
    ensures
        effective_flags_spec(j.paused_state(ledger, admin, flag), later) & flag == flag,
{
    let s = j.pause_state();
    let a = s.admin_flags;
    assert(((a | flag) & flag) == flag) by (bit_vector);
    law_admin_pause_persists(j.paused_state(ledger, admin, flag), later, flag);
}

/// After the guardian pauses `flag` at `ledger` (for a positive duration),
/// the bits are in force until `ledger + duration` and, unless the admin
/// also set them, not from then on.
pub proof fn law_guardian_pause_window(j: TipJar, ledger: u32, later: u32, guardian: u64, flag: u32)
    requires
        j.config.admin != Some(guardian),
        j.guardian_duration() > 0,
        ledger + j.guardian_duration() <= u32::MAX,
        flag != 0,
    ensures
        ledger <= later < ledger + j.guardian_duration() ==> effective_flags_spec(
            j.paused_state(ledger, guardian, flag),
            later,
        ) & flag == flag,
        later >= ledger + j.guardian_duration() ==> effective_flags_spec(
            j.paused_state(ledger, guardian, flag),
            later,
        ) == j.pause_state().admin_flags,
{
    let s = j.pause_state();
    let a = s.admin_flags;
    let g = s.guardian_flags;
    assert(flag != 0 ==> (g | flag) != 0) by (bit_vector);
    assert(((a | (g | flag)) & flag) == flag) by (bit_vector);
}

/// A guardian's tip pause runs out by itself: when the guardian pauses tips
/// at `ledger` and nothing else pauses them, every tip is refused as paused
/// at each ledger before `ledger + duration`, and from that ledger on the
/// pause no longer refuses any, with no further call.
pub proof fn law_guardian_tip_pause_expires(
    j: TipJar,
    j2: TipJar,
    ledger: u32,
    later: u32,
    guardian: u64,
    creator: u64,
    token: u64,
    amount: i128,
)
    requires
        j.config.admin != Some(guardian),
        j.guardian_duration() > 0,
        ledger + j.guardian_duration() <= u32::MAX,
        j.pause_state().admin_flags & PAUSE_FLAG_TIPS == 0,
        j2.config.pause == Some(j.paused_state(ledger, guardian, PAUSE_FLAG_TIPS)),
    ensures
        ledger <= later < ledger + j.guardian_duration() ==> j2.tip_error(later, creator, token, amount) == Some(
            Error::TipsPaused,
        ),
        later >= ledger + j.guardian_duration() ==> !j2.blocked(later, PAUSE_FLAG_TIPS) && j2.tip_error(
            later,
            creator,
            token,
            amount,
        ) != Some(Error::TipsPaused),
{
    law_guardian_pause_window(j, ledger, later, guardian, PAUSE_FLAG_TIPS);
    let f = effective_flags_spec(j.paused_state(ledger, guardian, PAUSE_FLAG_TIPS), later);
    assert(f & 1u32 == 1u32 ==> f & 1u32 != 0u32);
}

/// After the admin unpauses `flag`, no bit of it is in force at any ledger,
/// whether the admin or the guardian had set it.
pub proof fn law_unpause_clears(j: TipJar, flag: u32, ledger: u32)
    ensures
        effective_flags_spec(j.unpaused_state(flag), ledger) & flag == 0,
{
    let s = j.pause_state();
    let a = s.admin_flags;
    let g = s.guardian_flags;
    assert(((a & !flag) & flag) == 0) by (bit_vector);
    assert((((a & !flag) | (g & !flag)) & flag) == 0) by (bit_vector);
}

/// A payout change only takes effect at its effective ledger: before it,
/// withdrawals still go to the current payout address.
pub proof fn law_payout_change_delayed(j: TipJar, creator: u64, ledger: u32)
    requires
        j.pending_payouts@.contains_key(creator as u128),
        ledger < j.pending_payouts@[creator as u128].1,
    ensures
        j.payout_at(creator, ledger) == get_or(j.payouts@, creator as u128, creator),
{
}

/// Once its effective ledger is reached, a pending payout change is where
/// withdrawals go.
pub proof fn law_payout_change_matures(j: TipJar, creator: u64, ledger: u32)
    requires
        j.pending_payouts@.contains_key(creator as u128),
        ledger >= j.pending_payouts@[creator as u128].1,
    ensures
        j.payout_at(creator, ledger) == j.pending_payouts@[creator as u128].0,
{
}


/// A tip splits its gross amount exactly: the creator is credited the net
/// and the fee collector the fee, and neither part is negative.
pub proof fn law_tip_splits_gross(amount: int, bps: int)
    requires
        amount > 0,
        0 <= bps <= MAX_FEE_BPS,
    ensures
        (amount - fee_spec(amount, bps)) + fee_spec(amount, bps) == amount,
        0 <= fee_spec(amount, bps) <= amount,
{
    lemma_fee_bounds(amount, bps);
}

/// Withdrawing without an amount takes the whole balance and leaves zero.
pub proof fn law_full_withdraw_empties(balance: int)
    ensures
        balance - requested(None, balance) == 0,
{
}

/// The admin's pause outlasts the guardian's: after the guardian pauses
/// `flag` at `g_ledger` and the admin then pauses it at `a_ledger`, every bit
/// of it is in force at every later ledger, past the guardian's expiry too.
pub proof fn law_admin_pause_outlasts_guardian(
    j: TipJar,
    g_ledger: u32,
    a_ledger: u32,
    later: u32,
    admin: u64,
    guardian: u64,
    flag: u32,
)
    requires
        j.config.admin == Some(admin),
    ensures
        ({
            let j1 = TipJar { config: Config { pause: Some(j.paused_state(g_ledger, guardian, flag)), ..j.config }, ..j };
            effective_flags_spec(j1.paused_state(a_ledger, admin, flag), later) & flag == flag
        }),
{
    let j1 = TipJar { config: Config { pause: Some(j.paused_state(g_ledger, guardian, flag)), ..j.config }, ..j };
    law_admin_pause_blocks(j1, a_ledger, later, admin, flag);
}

/// Only the admin and the guardian may pause, and only the admin may
/// unpause: anyone else is refused as unauthorized.
pub proof fn law_strangers_refused(j: TipJar, caller: u64)
    requires
        j.config.admin is Some,
        j.config.admin != Some(caller),
        j.config.guardian != Some(caller),
    ensures
        j.pause_error(caller) == Some(Error::Unauthorized),
        j.admin_error(caller) == Some(Error::Unauthorized),
{
}

/// Pausing and unpausing keep the jar's tables (see their `ensures`), so a
/// pending payout change keeps its effective ledger and the payout address
/// at every ledger stays as it was.
pub proof fn law_pause_keeps_payout_change(j: TipJar, j2: TipJar, creator: u64, ledger: u32)
    requires
        j2.same_tables(&j),
    ensures
        j2.pending_payouts@ == j.pending_payouts@,
        j2.payout_at(creator, ledger) == j.payout_at(creator, ledger),
{
}

/// A cancelled payout change never takes effect: after
/// `cancel_payout_address` (which removes the pending change and keeps the
/// payout addresses, see its `ensures`), withdrawals go to the old payout
/// address at every ledger.
pub proof fn law_cancel_keeps_old_payout(j: TipJar, j2: TipJar, creator: u64, ledger: u32)
    requires
        j2.pending_payouts@ == j.pending_payouts@.remove(creator as u128),
        j2.payouts@ == j.payouts@,
    ensures
        j2.payout_at(creator, ledger) == get_or(j.payouts@, creator as u128, creator),
{
}


/// Changing one creator's balance in one token by `d` changes the sum over
/// `creators` by `d` in that token when the creator is among them, and by
/// nothing otherwise.
proof fn lemma_balances_sum_update(j: TipJar, j2: TipJar, creators: Seq<u64>, creator: u64, token: u64, t: u64, d: int)
    requires
        creators.no_duplicates(),
        forall|c: u64, tt: u64| #[trigger] j2.balance_of(c, tt) == if c == creator && tt == token {
            j.balance_of(c, tt) + d
        } else {
            j.balance_of(c, tt)
        },
    ensures
        balances_sum(j2, creators, t) == balances_sum(j, creators, t) + if t == token && creators.contains(creator) {
            d
        } else {
            0
        },
    decreases creators.len(),
{
    if creators.len() > 0 {
        let rest = creators.drop_last();
        let last = creators.last();
        assert(creators == rest.push(last));
        assert(rest.no_duplicates()) by {
            assert forall|a: int, b: int| 0 <= a < rest.len() && 0 <= b < rest.len() && a != b implies rest[a]
                != rest[b] by {
                assert(rest[a] == creators[a] && rest[b] == creators[b]);
            }
        }
        lemma_balances_sum_update(j, j2, rest, creator, token, t, d);
        assert(j2.balance_of(last, t) == j.balance_of(last, t) + if last == creator && t == token { d } else { 0 });
        if last == creator {
            assert(!rest.contains(creator)) by {
                if rest.contains(creator) {
                    let k = choose|k: int| 0 <= k < rest.len() && rest[k] == creator;
                    assert(creators[k] == creators[creators.len() - 1]);
                }
            }
        }
        assert(creators.contains(creator) <==> rest.contains(creator) || last == creator) by {
            if creators.contains(creator) && last != creator {
                let k = choose|k: int| 0 <= k < creators.len() && creators[k] == creator;
                assert(rest[k] == creator);
            }
            if rest.contains(creator) {
                let k = choose|k: int| 0 <= k < rest.len() && rest[k] == creator;
                assert(creators[k] == creator);
            }
        }
    }
}

/// Nothing changes on the balances of any creator.
proof fn lemma_balances_sum_same(j: TipJar, j2: TipJar, creators: Seq<u64>, t: u64)
    requires
        forall|c: u64, tt: u64| #[trigger] j2.balance_of(c, tt) == j.balance_of(c, tt),
    ensures
        balances_sum(j2, creators, t) == balances_sum(j, creators, t),
    decreases creators.len(),
{
    if creators.len() > 0 {
        lemma_balances_sum_same(j, j2, creators.drop_last(), t);
    }
}

/// A tip keeps the escrow balanced: in every token, what the jar owes its
/// creators and its fee collector changes by exactly what the tip's
/// transfers move into the contract. `creators` is any list of distinct
/// creators that includes the tipped one; a tip the contract sends to itself
/// is left out.
pub proof fn law_tip_conserves(
    j: TipJar,
    j2: TipJar,
    creators: Seq<u64>,
    sender: u64,
    creator: u64,
    token: u64,
    amount: i128,
    transfers: Seq<Transfer>,
    t: u64,
)
    requires
        creators.no_duplicates(),
        creators.contains(creator),
        sender != j.contract,
        tip_step(j, j2, sender, creator, token, amount, transfers),
    ensures
        owed(j2, creators, t) - owed(j, creators, t) == net_inflow(transfers, j.contract, t),
{
    let rate = j.fee_rate() as int;
    let fee = fee_spec(amount as int, rate);
    lemma_balances_sum_update(j, j2, creators, creator, token, t, amount - fee);
    assert(transfers.drop_last() =~= Seq::<Transfer>::empty());
    assert(net_inflow(transfers.drop_last(), j.contract, t) == 0);
    assert(rate == 0 ==> fee == 0);
}

/// A withdrawal keeps the escrow balanced: in every token, what the jar owes
/// changes by exactly what the withdrawal's transfers move into the contract
/// (a negative amount: what leaves it). `creators` is any list of distinct
/// creators that includes the one withdrawn from; a payout to the contract
/// itself is left out.
pub proof fn law_withdraw_conserves(
    j: TipJar,
    j2: TipJar,
    creators: Seq<u64>,
    creator: u64,
    token: u64,
    amt: int,
    payout: u64,
    transfers: Seq<Transfer>,
    t: u64,
)
    requires
        creators.no_duplicates(),
        creators.contains(creator),
        payout != j.contract,
        i128::MIN <= amt <= i128::MAX,
        withdraw_step(j, j2, creator, token, amt, payout, transfers),
    ensures
        owed(j2, creators, t) - owed(j, creators, t) == net_inflow(transfers, j.contract, t),
{
    lemma_balances_sum_update(j, j2, creators, creator, token, t, -amt);
    assert(transfers.drop_last() =~= Seq::<Transfer>::empty());
    assert(net_inflow(transfers.drop_last(), j.contract, t) == 0);
}

/// A fee withdrawal keeps the escrow balanced: in every token, what the jar
/// owes changes by exactly what the transfers move into the contract. A
/// collector that is the contract itself is left out.
pub proof fn law_fee_withdraw_conserves(
    j: TipJar,
    j2: TipJar,
    creators: Seq<u64>,
    collector: u64,
    token: u64,
    amt: int,
    transfers: Seq<Transfer>,
    t: u64,
)
    requires
        collector != j.contract,
        i128::MIN <= amt <= i128::MAX,
        fee_withdraw_step(j, j2, collector, token, amt, transfers),
    ensures
        owed(j2, creators, t) - owed(j, creators, t) == net_inflow(transfers, j.contract, t),
{
    lemma_balances_sum_same(j, j2, creators, t);
    assert(transfers.drop_last() =~= Seq::<Transfer>::empty());
    assert(net_inflow(transfers.drop_last(), j.contract, t) == 0);
}


/// Every balance lies between 0 and the creator's gross total in its token.
pub open spec fn balances_bounded(j: TipJar) -> bool {
    forall|c: u64, t: u64| 0 <= #[trigger] j.balance_of(c, t) <= j.total_of(c, t)
}

/// A successful tip keeps every balance between 0 and its gross total, when
/// the fee rate is within the on-chain cap.
pub proof fn law_tip_keeps_balances_bounded(
    j: TipJar,
    j2: TipJar,
    sender: u64,
    creator: u64,
    token: u64,
    amount: i128,
    transfers: Seq<Transfer>,
)
    requires
        balances_bounded(j),
        j.fee_rate() <= MAX_FEE_BPS,
        tip_step(j, j2, sender, creator, token, amount, transfers),
    ensures
        balances_bounded(j2),
{
    lemma_fee_bounds(amount as int, j.fee_rate() as int);
    assert forall|c: u64, t: u64| 0 <= #[trigger] j2.balance_of(c, t) <= j2.total_of(c, t) by {
        assert(0 <= j.balance_of(c, t) <= j.total_of(c, t));
    }
}

/// A successful withdrawal keeps every balance between 0 and its gross
/// total: what is withdrawn never exceeds what is left of the tips.
pub proof fn law_withdraw_keeps_balances_bounded(
    j: TipJar,
    j2: TipJar,
    creator: u64,
    token: u64,
    amt: int,
    payout: u64,
    transfers: Seq<Transfer>,
)
    requires
        balances_bounded(j),
        withdraw_step(j, j2, creator, token, amt, payout, transfers),
    ensures
        balances_bounded(j2),
{
    assert forall|c: u64, t: u64| 0 <= #[trigger] j2.balance_of(c, t) <= j2.total_of(c, t) by {
        assert(0 <= j.balance_of(c, t) <= j.total_of(c, t));
    }
}

/// A successful fee withdrawal leaves every creator balance and total as it
/// was, so the bound still holds.
pub proof fn law_fee_withdraw_keeps_balances_bounded(
    j: TipJar,
    j2: TipJar,
    collector: u64,
    token: u64,
    amt: int,
    transfers: Seq<Transfer>,
)
    requires
        balances_bounded(j),
        fee_withdraw_step(j, j2, collector, token, amt, transfers),
    ensures
        balances_bounded(j2),
{
    assert forall|c: u64, t: u64| 0 <= #[trigger] j2.balance_of(c, t) <= j2.total_of(c, t) by {
        assert(0 <= j.balance_of(c, t) <= j.total_of(c, t));
    }
}

/// A new jar owes nothing, so the bound holds from the start.
pub proof fn law_new_jar_balances_bounded(j: TipJar)
    requires
        j.config.legacy_token is None,
        j.balances@ == Map::<u128, i128>::empty(),
        j.totals@ == Map::<u128, i128>::empty(),
    ensures
        balances_bounded(j),
{
}

/// A withdrawal is accepted only to the payout address in force: the
/// current one (the creator when none is set) while no change is pending or
/// before a pending change's effective ledger, the proposed one from that
/// ledger on.
pub proof fn law_withdraw_only_to_payout_in_force(
    j: TipJar,
    ledger: u32,
    caller: u64,
    creator: u64,
    token: u64,
    to: u64,
    amount: Option<i128>,
)
    requires
        j.withdraw_error(ledger, caller, creator, token, to, amount) is None,
    ensures
        !j.pending_payouts@.contains_key(creator as u128) ==> to == get_or(j.payouts@, creator as u128, creator),
        j.pending_payouts@.contains_key(creator as u128) && ledger < j.pending_payouts@[creator as u128].1 ==> to
            == get_or(j.payouts@, creator as u128, creator),
        j.pending_payouts@.contains_key(creator as u128) && ledger >= j.pending_payouts@[creator as u128].1 ==> to
            == j.pending_payouts@[creator as u128].0,
{
}

} // verus!
