//! Programmable royalties: creators attach rules to their tips; a rule whose
//! conditions all hold splits a tip among recipients by dynamic shares, and a
//! recipient that has rules of its own passes its part on, up to a nesting
//! depth. Every split is recorded as a payment.
use vstd::prelude::*;
use crate::table::{Table, pair, pair_key, get_or, lemma_pair_injective};

verus! {

/// Most rules a creator can register.
pub const MAX_RULES: u32 = 10;

/// Most conditions meant for one rule.
pub const MAX_CONDITIONS: u32 = 5;

/// Most recipients one rule can have.
pub const MAX_RECIPIENTS: u32 = 20;

/// Basis-point denominator of the shares.
pub const BPS_DENOM: i128 = 10_000;

/// Deepest nesting of royalty chains.
pub const MAX_NEST_DEPTH: u32 = 5;

/// Errors of the royalty rules.
#[derive(Clone, Copy, Debug, PartialEq, Eq, Structural)]
pub enum RoyaltyError {
    /// A rule needs at least one condition.
    NoConditions,
    /// A rule needs at least one recipient.
    NoRecipients,
    /// A rule has more than `MAX_RECIPIENTS` recipients.
    TooManyRecipients,
    RuleNotFound,
    NotRuleOwner,
}

/// A condition that gates a rule.
#[derive(Debug, PartialEq, Eq)]
pub enum Condition {
    Always,
    /// The tip is at least this much.
    MinAmount(i128),
    /// The tip is at most this much.
    MaxAmount(i128),
    /// The tip comes from this sender.
    FromSender(u64),
    /// The tip comes from one of these senders.
    FromList(Vec<u64>),
    /// The time is at or after this.
    TimeAfter(u64),
    /// The time is at or before this.
    TimeBefore(u64),
    /// The creator has at least this many tippers.
    MinTipperCount(u32),
    /// The creator has received at least this much.
    MinTotalTips(i128),
}

/// A recipient with a base share and a bonus share, in basis points.
#[derive(Clone, Copy, Debug, PartialEq, Eq)]
pub struct DynamicRecipient {
    pub recipient: u64,
    pub base_bps: u32,
    pub bonus_bps: u32,
}

/// A rule: when all its conditions hold, its recipients share the tip.
#[derive(Debug)]
pub struct RoyaltyRule {
    pub rule_id: u64,
    pub conditions: Vec<Condition>,
    pub recipients: Vec<DynamicRecipient>,
    pub owner: u64,
    pub enabled: bool,
    /// Rules with a higher priority are tried first.
    pub priority: u32,
}

/// One recorded split of a tip.
#[derive(Clone, Copy, Debug, PartialEq, Eq)]
pub struct RoyaltyPayment {
    pub recipient: u64,
    pub amount: i128,
    pub timestamp: u64,
    pub rule_id: u64,
    pub source_amount: i128,
}

/// The rules: the rule with id `k` sits at index `k - 1`.
pub struct RuleBook {
    pub rules: Vec<RoyaltyRule>,
    /// The rule id in slot `i` of `creator`, by `pair(creator, i)`.
    pub creator_rules: Table<u64>,
}

/// The ledger entries that distribution writes.
pub struct RoyaltyLedger {
    /// Tipper count by creator.
    pub tipper_counts: Table<u32>,
    /// Total tips received by creator.
    pub total_tips: Table<i128>,
    /// Payments by `pair(creator, index)`.
    pub payments: Table<RoyaltyPayment>,
    /// Number of payments recorded by creator.
    pub payment_counts: Table<u64>,
    /// Withdrawable royalty balance by recipient.
    pub balances: Table<i128>,
}

/// The contents of a `RoyaltyLedger`.
pub struct LedgerView {
    pub tipper_counts: Map<u128, u32>,
    pub total_tips: Map<u128, i128>,
    pub payments: Map<u128, RoyaltyPayment>,
    pub payment_counts: Map<u128, u64>,
    pub balances: Map<u128, i128>,
}

impl View for RoyaltyLedger {
    type V = LedgerView;

    open spec fn view(&self) -> LedgerView {
        LedgerView {
            tipper_counts: self.tipper_counts@,
            total_tips: self.total_tips@,
            payments: self.payments@,
            payment_counts: self.payment_counts@,
            balances: self.balances@,
        }
    }
}

/// The programmable royalty module: its rules and its ledger.
pub struct ProgrammableRoyalties {
    pub book: RuleBook,
    pub ledger: RoyaltyLedger,
    /// What the module published, oldest first.
    pub events: Vec<RoyaltyEvent>,
}

/// What the programmable royalty module publishes.
#[derive(Clone, Copy, Debug, PartialEq, Eq, Structural)]
pub enum RoyaltyEvent {
    /// `prog_rul`: `creator` got rule `rule_id`.
    RuleCreated { creator: u64, rule_id: u64 },
    /// `prog_upd`: rule `rule_id` of `creator` was replaced.
    RuleUpdated { creator: u64, rule_id: u64 },
    /// `prog_dst`: a tip to `creator` paid `distributed` to rule recipients.
    Distributed { creator: u64, distributed: i128 },
    /// `prog_wdw`: `recipient` withdrew `amount`.
    Withdrawn { recipient: u64, amount: i128 },
}

/// True if condition `c` holds for a tip of `amount` from `sender` to
/// `creator` at `now`, against ledger `lv`.
pub open spec fn cond_holds(
    lv: LedgerView,
    c: Condition,
    amount: i128,
    sender: u64,
    creator: u64,
    now: u64,
) -> bool {
    match c {
        Condition::Always => true,
        Condition::MinAmount(t) => amount >= t,
        Condition::MaxAmount(t) => amount <= t,
        Condition::FromSender(s) => s == sender,
        Condition::FromList(l) => l@.contains(sender),
        Condition::TimeAfter(t) => now >= t,
        Condition::TimeBefore(t) => now <= t,
        Condition::MinTipperCount(t) => get_or(lv.tipper_counts, creator as u128, 0) >= t,
        Condition::MinTotalTips(t) => get_or(lv.total_tips, creator as u128, 0) >= t,
    }
}

/// True if every condition of `conds` holds.
pub open spec fn all_hold(
    lv: LedgerView,
    conds: Seq<Condition>,
    amount: i128,
    sender: u64,
    creator: u64,
    now: u64,
) -> bool {
    forall|i: int| 0 <= i < conds.len() ==> #[trigger] cond_holds(lv, conds[i], amount, sender, creator, now)
}

/// The raw share of a recipient, with or without its bonus.
pub open spec fn raw_share(r: DynamicRecipient, bonus: bool) -> int {
    if bonus { r.base_bps + r.bonus_bps } else { r.base_bps as int }
}

/// Sum of the raw shares of the first `n` recipients.
pub open spec fn raw_total(rs: Seq<DynamicRecipient>, bonus: bool, n: nat) -> int
    decreases n,
{
    if n == 0 { 0 } else { raw_total(rs, bonus, (n - 1) as nat) + raw_share(rs[n - 1], bonus) }
}

/// True if the raw shares can be computed without overflow.
pub open spec fn shares_fit(rs: Seq<DynamicRecipient>, bonus: bool) -> bool {
    &&& forall|i: int| 0 <= i < rs.len() ==> #[trigger] raw_share(rs[i], bonus) <= u32::MAX
    &&& raw_total(rs, bonus, rs.len()) <= u64::MAX
}

/// The normalized shares: each raw share scaled so that they sum to about
/// 10 000, or the raw shares when they sum to zero.
pub open spec fn norm_shares(rs: Seq<DynamicRecipient>, bonus: bool) -> Seq<u32> {
    let total = raw_total(rs, bonus, rs.len());
    Seq::new(
        rs.len(),
        |i: int|
            if total == 0 {
                raw_share(rs[i], bonus) as u32
            } else {
                (raw_share(rs[i], bonus) * 10_000 / total) as u32
            },
    )
}

/// Raw shares are non-negative, so each is at most the total.
proof fn lemma_raw_total(rs: Seq<DynamicRecipient>, bonus: bool, n: nat)
    requires
        n <= rs.len(),
    ensures
        raw_total(rs, bonus, n) >= 0,
        forall|i: int| 0 <= i < n ==> #[trigger] raw_share(rs[i], bonus) <= raw_total(rs, bonus, n),
        forall|m: nat| m <= n ==> #[trigger] raw_total(rs, bonus, m) <= raw_total(rs, bonus, n),
    decreases n,
{
    if n > 0 {
        lemma_raw_total(rs, bonus, (n - 1) as nat);
    }
}

/// Sum of the first `n` normalized shares.
pub open spec fn share_sum(rs: Seq<DynamicRecipient>, n: nat) -> int
    decreases n,
{
    if n == 0 { 0 } else { share_sum(rs, (n - 1) as nat) + norm_shares(rs, true)[n - 1] as int }
}

/// The part of `amount` that recipient `j` of `rs` is paid: the floor of
/// `amount * share / 10 000`, or nothing when that is not positive.
pub open spec fn part_paid(rs: Seq<DynamicRecipient>, amount: int, j: int) -> int {
    let a = amount * norm_shares(rs, true)[j] / 10_000;
    if a > 0 { a } else { 0 }
}

/// What the first `n` recipients of `rs` are paid out of `amount`.
pub open spec fn paid_upto(rs: Seq<DynamicRecipient>, amount: int, n: nat) -> int
    decreases n,
{
    if n == 0 { 0 } else { paid_upto(rs, amount, (n - 1) as nat) + part_paid(rs, amount, n - 1) }
}

/// Normalized shares of raw shares that fit sum to at most 10 000 (and
/// each is at most 10 000).
proof fn lemma_share_sum(rs: Seq<DynamicRecipient>, n: nat)
    requires
        n <= rs.len(),
        shares_fit(rs, true),
    ensures
        share_sum(rs, n) >= 0,
        raw_total(rs, true, rs.len()) > 0 ==> share_sum(rs, n) * raw_total(rs, true, rs.len())
            <= 10_000 * raw_total(rs, true, n),
        raw_total(rs, true, rs.len()) == 0 ==> share_sum(rs, n) == 0,
    decreases n,
{
    lemma_raw_total(rs, true, rs.len());
    if n > 0 {
        lemma_share_sum(rs, (n - 1) as nat);
        let t = raw_total(rs, true, rs.len());
        let r = raw_share(rs[n - 1], true);
        assert(r >= 0);
        assert(r <= t);
        if t > 0 {
            let q = r * 10_000 / t;
            assert(0 <= q <= 10_000 && q * t <= r * 10_000) by (nonlinear_arith)
                requires 0 <= r <= t, t > 0, q == r * 10_000 / t;
            assert(norm_shares(rs, true)[n - 1] as int == q);
            assert(share_sum(rs, n) * t == share_sum(rs, (n - 1) as nat) * t + q * t) by (nonlinear_arith)
                requires share_sum(rs, n) == share_sum(rs, (n - 1) as nat) + q;
        } else {
            assert(r == 0);
            assert(norm_shares(rs, true)[n - 1] as int == 0);
        }
    }
}

/// The parts paid out of a positive `amount` never exceed it.
proof fn lemma_paid_bound(rs: Seq<DynamicRecipient>, amount: int, n: nat)
    requires
        n <= rs.len(),
        amount > 0,
        shares_fit(rs, true),
    ensures
        0 <= paid_upto(rs, amount, n),
        paid_upto(rs, amount, n) * 10_000 <= amount * share_sum(rs, n),
        forall|m: nat| m <= n ==> #[trigger] paid_upto(rs, amount, m) <= paid_upto(rs, amount, n),
    decreases n,
{
    if n > 0 {
        lemma_paid_bound(rs, amount, (n - 1) as nat);
        let sh = norm_shares(rs, true)[n - 1] as int;
        let a = amount * sh / 10_000;
        assert(0 <= a && a * 10_000 <= amount * sh) by (nonlinear_arith)
            requires amount > 0, sh >= 0, a == amount * sh / 10_000;
        assert(amount * share_sum(rs, n) == amount * share_sum(rs, (n - 1) as nat) + amount * sh) by (nonlinear_arith)
            requires share_sum(rs, n) == share_sum(rs, (n - 1) as nat) + sh;
        assert forall|m: nat| m <= n implies #[trigger] paid_upto(rs, amount, m) <= paid_upto(rs, amount, n) by {
            if m < n {
                assert(paid_upto(rs, amount, m) <= paid_upto(rs, amount, (n - 1) as nat));
            }
        }
    }
}

/// All parts of rule recipients `rs` together never exceed a positive
/// `amount`.
proof fn lemma_paid_total(rs: Seq<DynamicRecipient>, amount: int)
    requires
        amount > 0,
        shares_fit(rs, true),
    ensures
        0 <= paid_upto(rs, amount, rs.len()) <= amount,
        forall|m: nat| m <= rs.len() ==> #[trigger] paid_upto(rs, amount, m) <= paid_upto(rs, amount, rs.len()),
{
    lemma_raw_total(rs, true, rs.len());
    lemma_share_sum(rs, rs.len());
    lemma_paid_bound(rs, amount, rs.len());
    let t = raw_total(rs, true, rs.len());
    let ss = share_sum(rs, rs.len());
    let p = paid_upto(rs, amount, rs.len());
    if t > 0 {
        assert(ss <= 10_000) by (nonlinear_arith)
            requires ss * t <= 10_000 * t, t > 0;
    }
    assert(ss <= 10_000);
    assert(amount * ss <= amount * 10_000) by (nonlinear_arith)
        requires amount > 0, ss <= 10_000;
    assert(p <= amount) by (nonlinear_arith)
        requires p * 10_000 <= amount * 10_000;
}

/// The rule id in slot `i` of `creator`, if any.
pub open spec fn slot_rule(book_slots: Map<u128, u64>, creator: u64, i: int) -> Option<u64> {
    if book_slots.contains_key(pair(creator, i as u64)) {
        Some(book_slots[pair(creator, i as u64)])
    } else {
        None
    }
}

/// The indices into `rules` of the first `n` slots of `creator` that name
/// a stored rule, in slot order.
pub open spec fn slot_indices(rules: Seq<RoyaltyRule>, slots: Map<u128, u64>, creator: u64, n: nat) -> Seq<
    usize,
>
    decreases n,
{
    if n == 0 {
        Seq::empty()
    } else {
        let rest = slot_indices(rules, slots, creator, (n - 1) as nat);
        match slot_rule(slots, creator, n - 1) {
            Some(id) => if 1 <= id <= rules.len() {
                rest.push((id - 1) as usize)
            } else {
                rest
            },
            None => rest,
        }
    }
}

/// One pass of the priority sort: position `i` is compared with each later
/// position from `j` on and swapped with any of strictly higher priority.
pub open spec fn sort_pass(rules: Seq<RoyaltyRule>, s: Seq<usize>, i: int, j: int) -> Seq<usize>
    decreases s.len() - j,
{
    if j >= s.len() || i < 0 || i >= s.len() || j < 0 {
        s
    } else {
        let s2 = if rules[s[i] as int].priority < rules[s[j] as int].priority {
            s.update(i, s[j]).update(j, s[i])
        } else {
            s
        };
        sort_pass(rules, s2, i, j + 1)
    }
}

/// The priority sort of `s` from position `i` on.
pub open spec fn sort_from(rules: Seq<RoyaltyRule>, s: Seq<usize>, i: int) -> Seq<usize>
    decreases s.len() - i,
{
    if i >= s.len() {
        s
    } else {
        proof {
            lemma_sort_pass_len(rules, s, i, i + 1);
        }
        sort_from(rules, sort_pass(rules, s, i, i + 1), i + 1)
    }
}

/// A sort pass keeps the length of the sequence.
pub proof fn lemma_sort_pass_len(rules: Seq<RoyaltyRule>, s: Seq<usize>, i: int, j: int)
    ensures
        sort_pass(rules, s, i, j).len() == s.len(),
    decreases s.len() - j,
{
    if !(j >= s.len() || i < 0 || i >= s.len() || j < 0) {
        let s2 = if rules[s[i] as int].priority < rules[s[j] as int].priority {
            s.update(i, s[j]).update(j, s[i])
        } else {
            s
        };
        lemma_sort_pass_len(rules, s2, i, j + 1);
    }
}

/// The rules of `creator` as indices into `rules`, highest priority first.
pub open spec fn creator_rule_order(rules: Seq<RoyaltyRule>, slots: Map<u128, u64>, creator: u64) -> Seq<
    usize,
> {
    sort_from(rules, slot_indices(rules, slots, creator, MAX_RULES as nat), 0)
}


/// The ledger after a tip of `amount` to `creator` is counted: a creator
/// with no tips so far gains a tipper, and the total grows by `amount`.
/// `None` where a counter would overflow.
pub open spec fn after_stats(lv: LedgerView, creator: u64, amount: i128) -> Option<LedgerView> {
    let k = creator as u128;
    let prev = get_or(lv.total_tips, k, 0);
    let count = get_or(lv.tipper_counts, k, 0);
    if prev == 0 && count + 1 > u32::MAX {
        None
    } else if prev + amount > i128::MAX || prev + amount < i128::MIN {
        None
    } else {
        Some(
            LedgerView {
                tipper_counts: if prev == 0 {
                    lv.tipper_counts.insert(k, (count + 1) as u32)
                } else {
                    lv.tipper_counts
                },
                total_tips: lv.total_tips.insert(k, (prev + amount) as i128),
                ..lv
            },
        )
    }
}

/// The ledger after payment `p` is recorded as the next payment of
/// `creator`; `None` where the count would overflow.
pub open spec fn after_payment(lv: LedgerView, creator: u64, p: RoyaltyPayment) -> Option<LedgerView> {
    let k = creator as u128;
    let n = get_or(lv.payment_counts, k, 0);
    if n + 1 > u64::MAX {
        None
    } else {
        Some(
            LedgerView {
                payments: lv.payments.insert(pair(creator, n), p),
                payment_counts: lv.payment_counts.insert(k, (n + 1) as u64),
                ..lv
            },
        )
    }
}

/// The first rule of `order` from position `k` on that is enabled and whose
/// conditions all hold.
pub open spec fn first_applicable(
    rules: Seq<RoyaltyRule>,
    order: Seq<usize>,
    lv: LedgerView,
    amount: i128,
    sender: u64,
    creator: u64,
    now: u64,
    k: int,
) -> Option<usize>
    decreases order.len() - k,
{
    if k < 0 || k >= order.len() {
        None
    } else {
        let r = rules[order[k] as int];
        if r.enabled && all_hold(lv, r.conditions@, amount, sender, creator, now) {
            Some(order[k])
        } else {
            first_applicable(rules, order, lv, amount, sender, creator, now, k + 1)
        }
    }
}

/// The ledger after `amount` from `sender` is distributed for `creator` at
/// nesting `depth`: the creator's tip is counted, and the first applicable
/// rule of the creator splits the tip among its recipients, each part being
/// recorded as a payment and distributed in turn for its recipient one
/// level deeper. `None` where some step would overflow.
pub open spec fn dist(
    rules: Seq<RoyaltyRule>,
    slots: Map<u128, u64>,
    lv: LedgerView,
    now: u64,
    creator: u64,
    amount: i128,
    sender: u64,
    depth: u32,
) -> Option<LedgerView>
    decreases MAX_NEST_DEPTH - depth, 1int, 0int,
{
    if amount <= 0 || depth >= MAX_NEST_DEPTH {
        Some(lv)
    } else {
        match after_stats(lv, creator, amount) {
            None => None,
            Some(lv1) => match first_applicable(
                rules,
                creator_rule_order(rules, slots, creator),
                lv1,
                amount,
                sender,
                creator,
                now,
                0,
            ) {
                None => Some(lv1),
                Some(ri) => if 0 <= ri < rules.len() && shares_fit(rules[ri as int].recipients@, true) {
                    dist_from(rules, slots, lv1, now, creator, amount, sender, depth, ri, 0)
                } else {
                    None
                },
            },
        }
    }
}

/// The ledger after the recipients of rule `ri` from position `j` on have
/// received their parts of `amount`.
pub open spec fn dist_from(
    rules: Seq<RoyaltyRule>,
    slots: Map<u128, u64>,
    lv: LedgerView,
    now: u64,
    creator: u64,
    amount: i128,
    sender: u64,
    depth: u32,
    ri: usize,
    j: int,
) -> Option<LedgerView>
    decreases MAX_NEST_DEPTH - depth, 0int, rules[ri as int].recipients@.len() - j,
{
    let rs = rules[ri as int].recipients@;
    if depth >= MAX_NEST_DEPTH || j < 0 || j >= rs.len() {
        Some(lv)
    } else {
        let prod = amount * norm_shares(rs, true)[j];
        if prod > i128::MAX || prod < i128::MIN {
            None
        } else {
            let amt = prod / 10_000;
            if amt <= 0 {
                dist_from(rules, slots, lv, now, creator, amount, sender, depth, ri, j + 1)
            } else {
                let p = RoyaltyPayment {
                    recipient: rs[j].recipient,
                    amount: amt as i128,
                    timestamp: now,
                    rule_id: rules[ri as int].rule_id,
                    source_amount: amount,
                };
                match after_payment(lv, creator, p) {
                    None => None,
                    Some(lv2) => match dist(
                        rules,
                        slots,
                        lv2,
                        now,
                        rs[j].recipient,
                        amt as i128,
                        sender,
                        (depth + 1) as u32,
                    ) {
                        None => None,
                        Some(lv3) => dist_from(rules, slots, lv3, now, creator, amount, sender, depth, ri, j + 1),
                    },
                }
            }
        }
    }
}


/// What a distribution of `amount` for `creator` at nesting `depth` pays
/// out: the parts of the recipients of the creator's first applicable rule
/// (nothing when no rule applies, the amount is not positive or the
/// nesting is too deep).
pub open spec fn paid(
    rules: Seq<RoyaltyRule>,
    slots: Map<u128, u64>,
    lv: LedgerView,
    now: u64,
    creator: u64,
    amount: i128,
    sender: u64,
    depth: u32,
) -> int {
    if amount <= 0 || depth >= MAX_NEST_DEPTH {
        0
    } else {
        match after_stats(lv, creator, amount) {
            None => 0,
            Some(lv1) => match first_applicable(
                rules,
                creator_rule_order(rules, slots, creator),
                lv1,
                amount,
                sender,
                creator,
                now,
                0,
            ) {
                None => 0,
                Some(ri) => if 0 <= ri < rules.len() {
                    paid_upto(rules[ri as int].recipients@, amount as int, rules[ri as int].recipients@.len())
                } else {
                    0
                },
            },
        }
    }
}

/// The first empty slot of `creator` from slot `i` on, if any.
pub open spec fn first_free_slot(slots: Map<u128, u64>, creator: u64, i: int) -> Option<u32>
    decreases MAX_RULES - i,
{
    if i < 0 || i >= MAX_RULES {
        None
    } else if slot_rule(slots, creator, i) is None {
        Some(i as u32)
    } else {
        first_free_slot(slots, creator, i + 1)
    }
}

/// The error `create_rule` answers for these arguments, if any.
pub open spec fn create_rule_error(conditions: Seq<Condition>, recipients: Seq<DynamicRecipient>) -> Option<
    RoyaltyError,
> {
    if conditions.len() == 0 {
        Some(RoyaltyError::NoConditions)
    } else if recipients.len() == 0 {
        Some(RoyaltyError::NoRecipients)
    } else if recipients.len() > MAX_RECIPIENTS {
        Some(RoyaltyError::TooManyRecipients)
    } else {
        None
    }
}

/// The error an owner-only change of rule `rule_id` answers, if any.
pub open spec fn owner_error(rules: Seq<RoyaltyRule>, rule_id: u64, owner: u64) -> Option<RoyaltyError> {
    if !(1 <= rule_id <= rules.len()) {
        Some(RoyaltyError::RuleNotFound)
    } else if rules[rule_id - 1].owner != owner {
        Some(RoyaltyError::NotRuleOwner)
    } else {
        None
    }
}

/// The share of a recipient, with its bonus when `bonus` is set.
pub fn calculate_recipient_share(recipient: &DynamicRecipient, bonus: bool) -> (r: u32)
    requires
        raw_share(*recipient, bonus) <= u32::MAX,
    ensures
        r == raw_share(*recipient, bonus),
{
    if bonus {
        recipient.base_bps + recipient.bonus_bps
    } else {
        recipient.base_bps
    }
}

/// The shares of `recipients`, scaled to sum to about 10 000 basis points
/// unless they sum to zero.
pub fn normalize_shares(recipients: &Vec<DynamicRecipient>, bonus: bool) -> (r: Vec<u32>)
    requires
        shares_fit(recipients@, bonus),
    ensures
        r@ == norm_shares(recipients@, bonus),
        forall|i: int| 0 <= i < r@.len() ==> #[trigger] r@[i] <= 10_000 || raw_total(recipients@, bonus, recipients@.len()) == 0,
{
    let ghost rs = recipients@;
    proof {
        lemma_raw_total(rs, bonus, rs.len());
    }
    let mut shares: Vec<u32> = Vec::new();
    let mut total: u64 = 0;
    let mut i: usize = 0;
    while i < recipients.len()
        invariant
            rs == recipients@,
            shares_fit(rs, bonus),
            i <= rs.len(),
            shares@.len() == i,
            forall|k: int| 0 <= k < i ==> #[trigger] shares@[k] == raw_share(rs[k], bonus),
            total == raw_total(rs, bonus, i as nat),
            forall|m: nat| m <= rs.len() ==> #[trigger] raw_total(rs, bonus, m) <= raw_total(rs, bonus, rs.len()),
        decreases rs.len() - i,
    {
        let share = calculate_recipient_share(&recipients[i], bonus);
        assert(raw_total(rs, bonus, (i + 1) as nat) <= raw_total(rs, bonus, rs.len()));
        shares.push(share);
        total = total + share as u64;
        i = i + 1;
    }
    if total == 0 {
        proof {
            assert(shares@ =~= norm_shares(rs, bonus));
        }
        return shares;
    }
    let mut i: usize = 0;
    while i < shares.len()
        invariant
            rs == recipients@,
            total == raw_total(rs, bonus, rs.len()),
            total > 0,
            shares@.len() == rs.len(),
            i <= rs.len(),
            forall|k: int| 0 <= k < rs.len() ==> #[trigger] raw_share(rs[k], bonus) <= raw_total(rs, bonus, rs.len()),
            forall|k: int| 0 <= k < i ==> #[trigger] shares@[k] == (raw_share(rs[k], bonus) * 10_000 / total as int) as u32,
            forall|k: int| i <= k < rs.len() ==> #[trigger] shares@[k] == raw_share(rs[k], bonus),
        decreases rs.len() - i,
    {
        let sh = shares[i];
        proof {
            let x = sh as int;
            let t = total as int;
            assert(x * 10_000 / t <= 10_000) by (nonlinear_arith)
                requires
                    0 <= x <= t,
                    t > 0,
            ;
            assert(x * 10_000 <= u64::MAX) by (nonlinear_arith)
                requires
                    0 <= x <= u32::MAX,
            ;
        }
        let scaled = (sh as u64 * 10_000 / total) as u32;
        shares.set(i, scaled);
        i = i + 1;
    }
    proof {
        assert(shares@ =~= norm_shares(rs, bonus));
        assert forall|i: int| 0 <= i < shares@.len() implies #[trigger] shares@[i] <= 10_000 by {
            let x = raw_share(rs[i], bonus);
            let t = total as int;
            assert(x * 10_000 / t <= 10_000) by (nonlinear_arith)
                requires
                    0 <= x <= t,
                    t > 0,
            ;
        }
    }
    shares
}

/// Whether condition `cond` holds for a tip of `tip_amount` from `sender`
/// to `creator` at `now`.
pub fn evaluate_condition(
    ledger: &RoyaltyLedger,
    cond: &Condition,
    tip_amount: i128,
    sender: u64,
    creator: u64,
    now: u64,
) -> (r: bool)
    ensures
        r == cond_holds(ledger@, *cond, tip_amount, sender, creator, now),
{
    match cond {
        Condition::Always => true,
        Condition::MinAmount(t) => tip_amount >= *t,
        Condition::MaxAmount(t) => tip_amount <= *t,
        Condition::FromSender(s) => *s == sender,
        Condition::FromList(senders) => {
            let mut i: usize = 0;
            while i < senders.len()
                invariant
                    i <= senders@.len(),
                    *cond == Condition::FromList(*senders),
                    forall|k: int| 0 <= k < i ==> senders@[k] != sender,
                decreases senders@.len() - i,
            {
                if senders[i] == sender {
                    assert(senders@[i as int] == sender);
                    assert(senders@.contains(sender));
                    return true;
                }
                i = i + 1;
            }
            false
        },
        Condition::TimeAfter(t) => now >= *t,
        Condition::TimeBefore(t) => now <= *t,
        Condition::MinTipperCount(t) => {
            let count = match ledger.tipper_counts.get(creator as u128) {
                Some(c) => c,
                None => 0,
            };
            count >= *t
        },
        Condition::MinTotalTips(t) => {
            let total = match ledger.total_tips.get(creator as u128) {
                Some(c) => c,
                None => 0,
            };
            total >= *t
        },
    }
}

/// Whether every condition of `conditions` holds.
pub fn all_conditions_met(
    ledger: &RoyaltyLedger,
    conditions: &Vec<Condition>,
    tip_amount: i128,
    sender: u64,
    creator: u64,
    now: u64,
) -> (r: bool)
    ensures
        r == all_hold(ledger@, conditions@, tip_amount, sender, creator, now),
{
    let mut i: usize = 0;
    while i < conditions.len()
        invariant
            i <= conditions@.len(),
            forall|k: int| 0 <= k < i ==> #[trigger] cond_holds(ledger@, conditions@[k], tip_amount, sender, creator, now),
        decreases conditions@.len() - i,
    {
        if !evaluate_condition(ledger, &conditions[i], tip_amount, sender, creator, now) {
            return false;
        }
        i = i + 1;
    }
    true
}

/// The first rule of `order` that is enabled and whose conditions hold.
fn find_applicable(
    book: &RuleBook,
    ledger: &RoyaltyLedger,
    order: &Vec<usize>,
    tip_amount: i128,
    sender: u64,
    creator: u64,
    now: u64,
) -> (r: Option<usize>)
    requires
        forall|k: int| 0 <= k < order@.len() ==> #[trigger] order@[k] < book.rules@.len(),
    ensures
        r == first_applicable(book.rules@, order@, ledger@, tip_amount, sender, creator, now, 0),
        r matches Some(i) ==> i < book.rules@.len(),
{
    let mut k: usize = 0;
    while k < order.len()
        invariant
            k <= order@.len(),
            forall|m: int| 0 <= m < order@.len() ==> #[trigger] order@[m] < book.rules@.len(),
            first_applicable(book.rules@, order@, ledger@, tip_amount, sender, creator, now, 0)
                == first_applicable(book.rules@, order@, ledger@, tip_amount, sender, creator, now, k as int),
        decreases order@.len() - k,
    {
        let ri = order[k];
        let rule = &book.rules[ri];
        if rule.enabled && all_conditions_met(ledger, &rule.conditions, tip_amount, sender, creator, now) {
            return Some(ri);
        }
        k = k + 1;
    }
    None
}

impl RoyaltyLedger {
    /// An empty ledger.
    pub fn new() -> (l: RoyaltyLedger)
        ensures
            l.tipper_counts@ == Map::<u128, u32>::empty(),
            l.total_tips@ == Map::<u128, i128>::empty(),
            l.payments@ == Map::<u128, RoyaltyPayment>::empty(),
            l.payment_counts@ == Map::<u128, u64>::empty(),
            l.balances@ == Map::<u128, i128>::empty(),
    {
        RoyaltyLedger {
            tipper_counts: Table::new(),
            total_tips: Table::new(),
            payments: Table::new(),
            payment_counts: Table::new(),
            balances: Table::new(),
        }
    }

    /// Records `payment` as the next payment of `creator`.
    pub fn record_payment(&mut self, creator: u64, payment: RoyaltyPayment)
        requires
            after_payment(old(self)@, creator, payment) is Some,
        ensures
            after_payment(old(self)@, creator, payment) == Some(final(self)@),
    {
        let count = match self.payment_counts.get(creator as u128) {
            Some(c) => c,
            None => 0,
        };
        self.payments.set(pair_key(creator, count), payment);
        self.payment_counts.set(creator as u128, count + 1);
    }
}

/// Distributes `tip_amount` from `sender` for `creator` at nesting `depth`
/// (see `dist`); returns what remains with the creator: the amount less the
/// parts paid to the recipients of the applied rule (see `paid`).
pub fn distribute_programmable_inner(
    book: &RuleBook,
    ledger: &mut RoyaltyLedger,
    now: u64,
    creator: u64,
    tip_amount: i128,
    sender: u64,
    depth: u32,
) -> (r: i128)
    requires
        dist(book.rules@, book.creator_rules@, old(ledger)@, now, creator, tip_amount, sender, depth) is Some,
    ensures
        r == tip_amount - paid(book.rules@, book.creator_rules@, old(ledger)@, now, creator, tip_amount, sender, depth),
        tip_amount > 0 ==> 0 <= r <= tip_amount,
        dist(book.rules@, book.creator_rules@, old(ledger)@, now, creator, tip_amount, sender, depth)
            == Some(final(ledger)@),
    decreases MAX_NEST_DEPTH - depth,
{
    if tip_amount <= 0 || depth >= MAX_NEST_DEPTH {
        return tip_amount;
    }
    let k = creator as u128;
    let prev = match ledger.total_tips.get(k) {
        Some(v) => v,
        None => 0,
    };
    if prev == 0 {
        let count = match ledger.tipper_counts.get(k) {
            Some(c) => c,
            None => 0,
        };
        ledger.tipper_counts.set(k, count + 1);
    }
    let total = match ledger.total_tips.get(k) {
        Some(v) => v,
        None => 0,
    };
    ledger.total_tips.set(k, total + tip_amount);
    let ghost lv1 = ledger@;
    assert(after_stats(old(ledger)@, creator, tip_amount) == Some(lv1));
    let rules = book.load_rules(creator);
    let mut distributed: i128 = 0;
    match find_applicable(book, ledger, &rules, tip_amount, sender, creator, now) {
        None => {},
        Some(ri) => {
            let rule = &book.rules[ri];
            let shares = normalize_shares(&rule.recipients, true);
            let remaining_for_rule = tip_amount - distributed;
            proof {
                lemma_paid_total(rule.recipients@, tip_amount as int);
            }
            let ghost target = dist_from(
                book.rules@,
                book.creator_rules@,
                lv1,
                now,
                creator,
                tip_amount,
                sender,
                depth,
                ri,
                0,
            );
            let mut j: usize = 0;
            while j < rule.recipients.len()
                invariant
                    0 < tip_amount,
                    depth < MAX_NEST_DEPTH,
                    ri < book.rules@.len(),
                    *rule == book.rules@[ri as int],
                    shares@ == norm_shares(rule.recipients@, true),
                    distributed == paid_upto(rule.recipients@, tip_amount as int, j as nat),
                    paid_upto(rule.recipients@, tip_amount as int, rule.recipients@.len()) <= tip_amount,
                    forall|m: nat| m <= rule.recipients@.len() ==> #[trigger] paid_upto(rule.recipients@, tip_amount as int, m)
                        <= paid_upto(rule.recipients@, tip_amount as int, rule.recipients@.len()),
                    remaining_for_rule == tip_amount,
                    j <= rule.recipients@.len(),
                    target is Some,
                    dist_from(
                        book.rules@,
                        book.creator_rules@,
                        ledger@,
                        now,
                        creator,
                        tip_amount,
                        sender,
                        depth,
                        ri,
                        j as int,
                    ) == target,
                decreases rule.recipients@.len() - j,
            {
                let recipient = rule.recipients[j];
                let share_bps = shares[j];
                let amount_to_distribute = (remaining_for_rule * (share_bps as i128)) / BPS_DENOM;
                proof {
                    assert(paid_upto(rule.recipients@, tip_amount as int, (j + 1) as nat) == distributed
                        + part_paid(rule.recipients@, tip_amount as int, j as int));
                    assert(paid_upto(rule.recipients@, tip_amount as int, (j + 1) as nat) <= tip_amount);
                }
                if amount_to_distribute > 0 {
                    ledger.record_payment(
                        creator,
                        RoyaltyPayment {
                            recipient: recipient.recipient,
                            amount: amount_to_distribute,
                            timestamp: now,
                            rule_id: rule.rule_id,
                            source_amount: tip_amount,
                        },
                    );
                    if depth < MAX_NEST_DEPTH {
                        let _kept = distribute_programmable_inner(
                            book,
                            ledger,
                            now,
                            recipient.recipient,
                            amount_to_distribute,
                            sender,
                            depth + 1,
                        );
                        distributed = distributed + amount_to_distribute;
                    } else {
                        let bk = recipient.recipient as u128;
                        let bal = match ledger.balances.get(bk) {
                            Some(v) => v,
                            None => 0,
                        };
                        ledger.balances.set(bk, bal + amount_to_distribute);
                        distributed = distributed + amount_to_distribute;
                    }
                }
                j = j + 1;
            }
        },
    }
    tip_amount - distributed
}

impl ProgrammableRoyalties {
    /// An empty module: no rules, an empty ledger.
    pub fn new() -> (p: ProgrammableRoyalties)
        ensures
            p.book.rules@.len() == 0,
            p.book.creator_rules@ == Map::<u128, u64>::empty(),
            p.ledger.tipper_counts@ == Map::<u128, u32>::empty(),
            p.ledger.total_tips@ == Map::<u128, i128>::empty(),
            p.ledger.payments@ == Map::<u128, RoyaltyPayment>::empty(),
            p.ledger.payment_counts@ == Map::<u128, u64>::empty(),
            p.ledger.balances@ == Map::<u128, i128>::empty(),
            p.events@.len() == 0,
    {
        ProgrammableRoyalties {
            book: RuleBook { rules: Vec::new(), creator_rules: Table::new() },
            ledger: RoyaltyLedger::new(),
            events: Vec::new(),
        }
    }

    /// Distributes a tip of `tip_amount` from `sender` to `creator` at
    /// `now` through the creator's rules; returns the amount left with the
    /// creator once the applied rule's recipients are paid.
    pub fn distribute_programmable_royalties(
        &mut self,
        now: u64,
        creator: u64,
        tip_amount: i128,
        sender: u64,
    ) -> (r: i128)
        requires
            dist(
                old(self).book.rules@,
                old(self).book.creator_rules@,
                old(self).ledger@,
                now,
                creator,
                tip_amount,
                sender,
                0,
            ) is Some,
        ensures
            r == tip_amount - paid(
                old(self).book.rules@,
                old(self).book.creator_rules@,
                old(self).ledger@,
                now,
                creator,
                tip_amount,
                sender,
                0,
            ),
            tip_amount > 0 ==> 0 <= r <= tip_amount,
            dist(
                old(self).book.rules@,
                old(self).book.creator_rules@,
                old(self).ledger@,
                now,
                creator,
                tip_amount,
                sender,
                0,
            ) == Some(final(self).ledger@),
            final(self).book == old(self).book,
            final(self).events@ == if tip_amount > 0 {
                old(self).events@.push(RoyaltyEvent::Distributed { creator, distributed: (tip_amount - r) as i128 })
            } else {
                old(self).events@
            },
    {
        let kept = distribute_programmable_inner(&self.book, &mut self.ledger, now, creator, tip_amount, sender, 0);
        if tip_amount > 0 {
            self.events.push(RoyaltyEvent::Distributed { creator, distributed: tip_amount - kept });
        }
        kept
    }

    /// Creates a rule of `owner` for `creator` with `conditions`,
    /// `recipients` and `priority`, enabled, and registers it in the
    /// creator's first empty slot (if there is none it is stored but not
    /// registered). Returns the new rule id (ids count from 1).
    pub fn create_rule(
        &mut self,
        creator: u64,
        owner: u64,
        conditions: Vec<Condition>,
        recipients: Vec<DynamicRecipient>,
        priority: u32,
    ) -> (r: Result<u64, RoyaltyError>)
        requires
            old(self).book.rules@.len() < u64::MAX,
        ensures
            r is Err <==> create_rule_error(conditions@, recipients@) is Some,
            r matches Err(e) ==> Some(e) == create_rule_error(conditions@, recipients@) && final(self).book
                == old(self).book,
            r matches Ok(id) ==> {
                &&& id == old(self).book.rules@.len() + 1
                &&& final(self).book.rules@ == old(self).book.rules@.push(
                    RoyaltyRule { rule_id: id, conditions, recipients, owner, enabled: true, priority },
                )
                &&& final(self).book.creator_rules@ == match first_free_slot(
                    old(self).book.creator_rules@,
                    creator,
                    0,
                ) {
                    Some(slot) => old(self).book.creator_rules@.insert(pair(creator, slot as u64), id),
                    None => old(self).book.creator_rules@,
                }
                &&& final(self).events@ == old(self).events@.push(RoyaltyEvent::RuleCreated { creator, rule_id: id })
            },
            r is Err ==> final(self).events@ == old(self).events@,
            final(self).ledger == old(self).ledger,
    {
        if conditions.len() == 0 {
            return Err(RoyaltyError::NoConditions);
        }
        if recipients.len() == 0 {
            return Err(RoyaltyError::NoRecipients);
        }
        if recipients.len() > MAX_RECIPIENTS as usize {
            return Err(RoyaltyError::TooManyRecipients);
        }
        let rule_id = self.book.rules.len() as u64 + 1;
        let ghost new_rule = RoyaltyRule { rule_id, conditions, recipients, owner, enabled: true, priority };
        self.book.rules.push(RoyaltyRule { rule_id, conditions, recipients, owner, enabled: true, priority });
        let ghost pushed = self.book.rules@;
        assert(pushed == old(self).book.rules@.push(new_rule));
        self.events.push(RoyaltyEvent::RuleCreated { creator, rule_id });
        let mut i: u32 = 0;
        while i < MAX_RULES
            invariant
                i <= MAX_RULES,
                self.book.rules@ == pushed,
                pushed == old(self).book.rules@.push(new_rule),
                new_rule == (RoyaltyRule { rule_id, conditions, recipients, owner, enabled: true, priority }),
                self.ledger == old(self).ledger,
                self.events@ == old(self).events@.push(RoyaltyEvent::RuleCreated { creator, rule_id }),
                rule_id == old(self).book.rules@.len() + 1,
                create_rule_error(conditions@, recipients@) is None,
                self.book.creator_rules@ == old(self).book.creator_rules@,
                first_free_slot(old(self).book.creator_rules@, creator, 0) == first_free_slot(
                    old(self).book.creator_rules@,
                    creator,
                    i as int,
                ),
            decreases MAX_RULES - i,
        {
            if self.book.get_creator_rule_id(creator, i).is_none() {
                assert(first_free_slot(old(self).book.creator_rules@, creator, i as int) == Some(i));
                self.book.creator_rules.set(pair_key(creator, i as u64), rule_id);
                return Ok(rule_id);
            }
            i = i + 1;
        }
        Ok(rule_id)
    }

    /// Replaces the conditions, recipients and priority of rule `rule_id`;
    /// only its owner may.
    pub fn update_rule(
        &mut self,
        creator: u64,
        rule_id: u64,
        owner: u64,
        conditions: Vec<Condition>,
        recipients: Vec<DynamicRecipient>,
        priority: u32,
    ) -> (r: Result<(), RoyaltyError>)
        ensures
            r is Err <==> owner_error(old(self).book.rules@, rule_id, owner) is Some,
            r matches Err(e) ==> Some(e) == owner_error(old(self).book.rules@, rule_id, owner)
                && final(self).book.rules@ == old(self).book.rules@,
            r is Ok ==> final(self).book.rules@ == old(self).book.rules@.update(
                rule_id - 1,
                RoyaltyRule {
                    conditions,
                    recipients,
                    priority,
                    ..old(self).book.rules@[rule_id - 1]
                },
            ),
            final(self).events@ == if r is Ok {
                old(self).events@.push(RoyaltyEvent::RuleUpdated { creator, rule_id })
            } else {
                old(self).events@
            },
            final(self).book.creator_rules@ == old(self).book.creator_rules@,
            final(self).ledger == old(self).ledger,
    {
        if rule_id == 0 || rule_id > self.book.rules.len() as u64 {
            return Err(RoyaltyError::RuleNotFound);
        }
        let idx = (rule_id - 1) as usize;
        if self.book.rules[idx].owner != owner {
            return Err(RoyaltyError::NotRuleOwner);
        }
        let old_rule = self.book.rules.remove(idx);
        let rule = RoyaltyRule {
            rule_id: old_rule.rule_id,
            conditions,
            recipients,
            owner: old_rule.owner,
            enabled: old_rule.enabled,
            priority,
        };
        self.book.rules.insert(idx, rule);
        proof {
            assert(self.book.rules@ =~= old(self).book.rules@.update(
                rule_id - 1,
                RoyaltyRule {
                    conditions,
                    recipients,
                    priority,
                    ..old(self).book.rules@[rule_id - 1]
                },
            ));
        }
        self.events.push(RoyaltyEvent::RuleUpdated { creator, rule_id });
        Ok(())
    }

    /// Enables or disables rule `rule_id`; only its owner may.
    pub fn toggle_rule(&mut self, rule_id: u64, owner: u64, enabled: bool) -> (r: Result<(), RoyaltyError>)
        ensures
            r is Err <==> owner_error(old(self).book.rules@, rule_id, owner) is Some,
            r matches Err(e) ==> Some(e) == owner_error(old(self).book.rules@, rule_id, owner)
                && final(self).book.rules@ == old(self).book.rules@,
            r is Ok ==> final(self).book.rules@ == old(self).book.rules@.update(
                rule_id - 1,
                RoyaltyRule { enabled, ..old(self).book.rules@[rule_id - 1] },
            ),
            final(self).book.creator_rules@ == old(self).book.creator_rules@,
            final(self).ledger == old(self).ledger,
            final(self).events@ == old(self).events@,
    {
        if rule_id == 0 || rule_id > self.book.rules.len() as u64 {
            return Err(RoyaltyError::RuleNotFound);
        }
        let idx = (rule_id - 1) as usize;
        if self.book.rules[idx].owner != owner {
            return Err(RoyaltyError::NotRuleOwner);
        }
        let old_rule = self.book.rules.remove(idx);
        let rule = RoyaltyRule {
            rule_id: old_rule.rule_id,
            conditions: old_rule.conditions,
            recipients: old_rule.recipients,
            owner: old_rule.owner,
            enabled,
            priority: old_rule.priority,
        };
        self.book.rules.insert(idx, rule);
        proof {
            assert(self.book.rules@ =~= old(self).book.rules@.update(
                rule_id - 1,
                RoyaltyRule { enabled, ..old(self).book.rules@[rule_id - 1] },
            ));
        }
        Ok(())
    }

    /// Withdraws the accumulated royalty balance of `recipient`: returns it
    /// and clears it when it is positive.
    pub fn withdraw_programmable_royalties(&mut self, recipient: u64, token: u64) -> (r: i128)
        ensures
            r == get_or(old(self).ledger.balances@, recipient as u128, 0),
            final(self).ledger.balances@ == if r > 0 {
                old(self).ledger.balances@.remove(recipient as u128)
            } else {
                old(self).ledger.balances@
            },
            final(self).ledger.tipper_counts@ == old(self).ledger.tipper_counts@,
            final(self).ledger.total_tips@ == old(self).ledger.total_tips@,
            final(self).ledger.payments@ == old(self).ledger.payments@,
            final(self).ledger.payment_counts@ == old(self).ledger.payment_counts@,
            final(self).book == old(self).book,
            final(self).events@ == if r > 0 {
                old(self).events@.push(RoyaltyEvent::Withdrawn { recipient, amount: r })
            } else {
                old(self).events@
            },
    {
        let amount = match self.ledger.balances.get(recipient as u128) {
            Some(v) => v,
            None => 0,
        };
        if amount > 0 {
            self.ledger.balances.remove(recipient as u128);
            self.events.push(RoyaltyEvent::Withdrawn { recipient, amount });
        }
        amount
    }

    /// The accumulated royalty balance of `recipient`.
    pub fn get_programmable_balance(&self, recipient: u64) -> (r: i128)
        ensures
            r == get_or(self.ledger.balances@, recipient as u128, 0),
    {
        match self.ledger.balances.get(recipient as u128) {
            Some(v) => v,
            None => 0,
        }
    }

    /// The rule with `rule_id`, if any.
    pub fn get_rule(&self, rule_id: u64) -> (r: Option<&RoyaltyRule>)
        ensures
            r == (if 1 <= rule_id <= self.book.rules@.len() {
                Some(&self.book.rules@[rule_id - 1])
            } else {
                None::<&RoyaltyRule>
            }),
    {
        self.book.get_rule(rule_id)
    }

    /// The rules of `creator`, highest priority first.
    pub fn get_creator_rules(&self, creator: u64) -> (r: Vec<&RoyaltyRule>)
        ensures
            r@.len() == creator_rule_order(self.book.rules@, self.book.creator_rules@, creator).len(),
            forall|k: int| 0 <= k < r@.len() ==> *#[trigger] r@[k] == self.book.rules@[creator_rule_order(
                self.book.rules@,
                self.book.creator_rules@,
                creator,
            )[k] as int],
    {
        let order = self.book.load_rules(creator);
        let mut r: Vec<&RoyaltyRule> = Vec::new();
        let mut i: usize = 0;
        while i < order.len()
            invariant
                i <= order@.len(),
                order@ == creator_rule_order(self.book.rules@, self.book.creator_rules@, creator),
                forall|k: int| 0 <= k < order@.len() ==> #[trigger] order@[k] < self.book.rules@.len(),
                r@.len() == i,
                forall|k: int| 0 <= k < i ==> *#[trigger] r@[k] == self.book.rules@[order@[k] as int],
            decreases order@.len() - i,
        {
            r.push(&self.book.rules[order[i]]);
            i = i + 1;
        }
        r
    }

    /// The payment at `index` of `creator`, if any.
    pub fn get_payment(&self, creator: u64, index: u64) -> (r: Option<RoyaltyPayment>)
        ensures
            r == (if self.ledger.payments@.contains_key(pair(creator, index)) {
                Some(self.ledger.payments@[pair(creator, index)])
            } else {
                None::<RoyaltyPayment>
            }),
    {
        self.ledger.payments.get(pair_key(creator, index))
    }

    /// The number of payments recorded for `creator`.
    pub fn get_payment_count(&self, creator: u64) -> (r: u64)
        ensures
            r == get_or(self.ledger.payment_counts@, creator as u128, 0),
    {
        match self.ledger.payment_counts.get(creator as u128) {
            Some(v) => v,
            None => 0,
        }
    }

    /// The total of the tips `creator` has received.
    pub fn get_total_tips_received(&self, creator: u64) -> (r: i128)
        ensures
            r == get_or(self.ledger.total_tips@, creator as u128, 0),
    {
        match self.ledger.total_tips.get(creator as u128) {
            Some(v) => v,
            None => 0,
        }
    }

    /// The number of tippers of `creator`.
    pub fn get_tipper_count(&self, creator: u64) -> (r: u32)
        ensures
            r == get_or(self.ledger.tipper_counts@, creator as u128, 0),
    {
        match self.ledger.tipper_counts.get(creator as u128) {
            Some(v) => v,
            None => 0,
        }
    }
}


/// The priority of the rule at position `k` of `s`.
pub open spec fn prio_at(rules: Seq<RoyaltyRule>, s: Seq<usize>, k: int) -> u32 {
    rules[s[k] as int].priority
}

/// One sort pass from `j` on: positions before `i` stay, no position from
/// `i` on rises above a bound that held before, and if position `i` already
/// beat the positions between it and `j`, it beats every later one.
proof fn lemma_sort_pass(rules: Seq<RoyaltyRule>, s: Seq<usize>, i: int, j: int, b: u32)
    requires
        0 <= i < j,
        i < s.len(),
        forall|k: int| i < k < j && k < s.len() ==> prio_at(rules, s, i) >= #[trigger] prio_at(rules, s, k),
    ensures
        ({
            let r = sort_pass(rules, s, i, j);
            &&& r.len() == s.len()
            &&& forall|k: int| 0 <= k < i ==> r[k] == s[k]
            &&& forall|k: int| i < k < r.len() ==> prio_at(rules, r, i) >= #[trigger] prio_at(rules, r, k)
            &&& (forall|k: int| i <= k < s.len() ==> #[trigger] prio_at(rules, s, k) <= b) ==> forall|k: int|
                i <= k < r.len() ==> #[trigger] prio_at(rules, r, k) <= b
        }),
    decreases s.len() - j,
{
    lemma_sort_pass_len(rules, s, i, j);
    if j < s.len() {
        let swap = rules[s[i] as int].priority < rules[s[j] as int].priority;
        let s2 = if swap {
            s.update(i, s[j]).update(j, s[i])
        } else {
            s
        };
        assert(s2.len() == s.len());
        assert(swap ==> s2[i] == s[j] && s2[j] == s[i]);
        assert(forall|k: int| 0 <= k < s.len() && k != i && k != j ==> s2[k] == s[k]);
        assert forall|k: int| i < k < j + 1 && k < s2.len() implies prio_at(rules, s2, i) >= #[trigger] prio_at(
            rules,
            s2,
            k,
        ) by {
            if k < j {
                assert(s2[k] == s[k]);
                assert(prio_at(rules, s, i) >= prio_at(rules, s, k));
            }
        }
        if forall|k: int| i <= k < s.len() ==> #[trigger] prio_at(rules, s, k) <= b {
            assert forall|k: int| i <= k < s2.len() implies #[trigger] prio_at(rules, s2, k) <= b by {
                assert(prio_at(rules, s, i) <= b && prio_at(rules, s, j) <= b);
                if k != i && k != j {
                    assert(s2[k] == s[k]);
                    assert(prio_at(rules, s, k) <= b);
                }
            }
        }
        lemma_sort_pass(rules, s2, i, j + 1, b);
    }
}

/// Sorting from position `i` keeps the positions before it, keeps any
/// bound on the positions from `i` on, and orders those positions by
/// priority, highest first.
proof fn lemma_sort_from(rules: Seq<RoyaltyRule>, s: Seq<usize>, i: int, b: u32)
    requires
        0 <= i,
    ensures
        ({
            let r = sort_from(rules, s, i);
            &&& r.len() == s.len()
            &&& forall|k: int| 0 <= k < i && k < s.len() ==> r[k] == s[k]
            &&& forall|a: int, c: int|
                i <= a < c < r.len() ==> #[trigger] prio_at(rules, r, a) >= #[trigger] prio_at(rules, r, c)
            &&& (forall|k: int| i <= k < s.len() ==> #[trigger] prio_at(rules, s, k) <= b) ==> forall|k: int|
                i <= k < r.len() ==> #[trigger] prio_at(rules, r, k) <= b
        }),
    decreases s.len() - i,
{
    if i < s.len() {
        let p = sort_pass(rules, s, i, i + 1);
        lemma_sort_pass(rules, s, i, i + 1, b);
        lemma_sort_pass(rules, s, i, i + 1, prio_at(rules, s, i));
        let top = prio_at(rules, p, i);
        lemma_sort_from(rules, p, i + 1, top);
        lemma_sort_from(rules, p, i + 1, b);
        let r = sort_from(rules, p, i + 1);
        assert(r == sort_from(rules, s, i));
        assert(r[i] == p[i]);
        assert forall|a: int, c: int| i <= a < c < r.len() implies #[trigger] prio_at(rules, r, a) >= #[trigger] prio_at(
            rules,
            r,
            c,
        ) by {
            if a == i {
                assert(prio_at(rules, p, c) <= top);
            }
        }
        if forall|k: int| i <= k < s.len() ==> #[trigger] prio_at(rules, s, k) <= b {
            assert(prio_at(rules, r, i) == prio_at(rules, p, i));
        }
    }
}

/// The rules of a creator are tried highest priority first: along
/// `creator_rule_order`, priorities never increase.
pub proof fn law_rules_by_priority(rules: Seq<RoyaltyRule>, slots: Map<u128, u64>, creator: u64, a: int, c: int)
    requires
        0 <= a < c < creator_rule_order(rules, slots, creator).len(),
    ensures
        rules[creator_rule_order(rules, slots, creator)[a] as int].priority >= rules[creator_rule_order(
            rules,
            slots,
            creator,
        )[c] as int].priority,
{
    let s = slot_indices(rules, slots, creator, MAX_RULES as nat);
    lemma_sort_from(rules, s, 0, 0);
    let r = sort_from(rules, s, 0);
    assert(prio_at(rules, r, a) >= prio_at(rules, r, c));
}

impl RuleBook {
    /// The rule id in slot `index` of `creator`, if any.
    pub fn get_creator_rule_id(&self, creator: u64, index: u32) -> (r: Option<u64>)
        ensures
            r == slot_rule(self.creator_rules@, creator, index as int),
    {
        self.creator_rules.get(pair_key(creator, index as u64))
    }

    /// The rules of `creator`, as indices into `rules`, highest priority
    /// first.
    pub fn load_rules(&self, creator: u64) -> (r: Vec<usize>)
        ensures
            r@ == creator_rule_order(self.rules@, self.creator_rules@, creator),
            forall|k: int| 0 <= k < r@.len() ==> #[trigger] r@[k] < self.rules@.len(),
    {
        let mut v: Vec<usize> = Vec::new();
        let mut i: u32 = 0;
        while i < MAX_RULES
            invariant
                i <= MAX_RULES,
                v@ == slot_indices(self.rules@, self.creator_rules@, creator, i as nat),
                forall|k: int| 0 <= k < v@.len() ==> #[trigger] v@[k] < self.rules@.len(),
            decreases MAX_RULES - i,
        {
            match self.get_creator_rule_id(creator, i) {
                Some(id) => {
                    if 1 <= id && id <= self.rules.len() as u64 {
                        v.push((id - 1) as usize);
                    }
                },
                None => {},
            }
            i = i + 1;
        }
        let ghost s0 = v@;
        let ghost target = sort_from(self.rules@, s0, 0);
        let n = v.len();
        let mut i: usize = 0;
        while i < n
            invariant
                n == v@.len(),
                i <= n,
                sort_from(self.rules@, v@, i as int) == target,
                forall|k: int| 0 <= k < v@.len() ==> #[trigger] v@[k] < self.rules@.len(),
            decreases n - i,
        {
            let mut j: usize = i + 1;
            while j < n
                invariant
                    n == v@.len(),
                    i < n,
                    i + 1 <= j <= n,
                    sort_from(self.rules@, sort_pass(self.rules@, v@, i as int, j as int), i + 1)
                        == target,
                    forall|k: int| 0 <= k < v@.len() ==> #[trigger] v@[k] < self.rules@.len(),
                decreases n - j,
            {
                let a = v[i];
                let b = v[j];
                if self.rules[a].priority < self.rules[b].priority {
                    v.set(i, b);
                    v.set(j, a);
                }
                j = j + 1;
            }
            i = i + 1;
        }
        v
    }

    /// The rule with `rule_id`, if any.
    pub fn get_rule(&self, rule_id: u64) -> (r: Option<&RoyaltyRule>)
        ensures
            r == (if 1 <= rule_id <= self.rules@.len() {
                Some(&self.rules@[rule_id - 1])
            } else {
                None::<&RoyaltyRule>
            }),
    {
        if 1 <= rule_id && rule_id <= self.rules.len() as u64 {
            Some(&self.rules[(rule_id - 1) as usize])
        } else {
            None
        }
    }
}


/// What each condition of a rule asks. The first kinds look only at the tip
/// itself: its amount, its sender and its time. The last two look only at
/// the creator's record in the ledger (its tipper count and its total tips
/// received, 0 when it has none), whatever the tip's amount, sender or time.
pub proof fn law_condition_meanings(lv: LedgerView, amount: i128, sender: u64, creator: u64, now: u64)
    ensures
        cond_holds(lv, Condition::Always, amount, sender, creator, now),
        forall|t: i128| #[trigger] cond_holds(lv, Condition::MinAmount(t), amount, sender, creator, now) == (amount >= t),
        forall|t: i128| #[trigger] cond_holds(lv, Condition::MaxAmount(t), amount, sender, creator, now) == (amount <= t),
        forall|s: u64| #[trigger] cond_holds(lv, Condition::FromSender(s), amount, sender, creator, now) == (s == sender),
        forall|l: Vec<u64>| #[trigger] cond_holds(lv, Condition::FromList(l), amount, sender, creator, now) == (exists|i: int|
            0 <= i < l@.len() && l@[i] == sender),
        forall|t: u64| #[trigger] cond_holds(lv, Condition::TimeAfter(t), amount, sender, creator, now) == (now >= t),
        forall|t: u64| #[trigger] cond_holds(lv, Condition::TimeBefore(t), amount, sender, creator, now) == (now <= t),
        forall|t: u32, a: i128, s: u64, n: u64| #[trigger] cond_holds(lv, Condition::MinTipperCount(t), a, s, creator, n) == ((
        if lv.tipper_counts.contains_key(creator as u128) {
            lv.tipper_counts[creator as u128] as int
        } else {
            0
        }) >= t),
        forall|t: i128, a: i128, s: u64, n: u64| #[trigger] cond_holds(lv, Condition::MinTotalTips(t), a, s, creator, n) == ((
        if lv.total_tips.contains_key(creator as u128) {
            lv.total_tips[creator as u128] as int
        } else {
            0
        }) >= t),
{
    assert forall|l: Vec<u64>| #[trigger] cond_holds(lv, Condition::FromList(l), amount, sender, creator, now) == (exists|i: int|
        0 <= i < l@.len() && l@[i] == sender) by {
        if l@.contains(sender) {
            let i = choose|i: int| 0 <= i < l@.len() && l@[i] == sender;
        }
    }
}

} // verus!
